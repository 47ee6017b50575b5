//! The sandbox child's bootstrap: from creation inside the new namespaces
//! to executing the target command.
//!
//! The child starts unmapped: inside a new user namespace it holds no
//! UID/GID mapping, so its effective identity is the kernel's overflow
//! identity. It connects to the mapping service, probes it, has its GID
//! map and then its UID map written — in that order, each for identity 0
//! inside the namespace mirroring the caller's effective identity outside
//! — and only then replaces its own image with the target command. Any
//! failure is terminal: the bootstrap never retries and never proceeds to
//! exec after an error.
//!
//! The bootstrap is a state machine. The surrounding process performs one
//! I/O action per state ([`next_bootstrap_action`]) and feeds the outcome
//! back in as an event ([`bootstrap_step`]).

use vstd::prelude::*;
use crate::flags::words_view;
use crate::launcher::{copy_bytes, EXIT_CONNECT_FAILED, EXIT_EXEC_FAILED, EXIT_MAP_FAILED,
    EXIT_PING_FAILED};
use crate::protocol::{spec_gid_for, spec_uid_for, MapRequest, RpcReply};

verus! {

/// Where the sandbox child stands on its way to exec.
#[derive(Clone, Copy, Debug, PartialEq, Eq, Structural)]
pub enum BootstrapState {
    /// Created inside the new namespaces; no mapping, no connection.
    Unmapped,
    /// A channel to the mapping service is established.
    Connected,
    /// The service answered the liveness probe.
    Pinged,
    /// The GID map has been written.
    GidMapped,
    /// The UID map has been written; the child may exec.
    UidMapped,
    /// The child's image has been replaced by the target command.
    Execd,
    /// A step failed; the bootstrap is over with this exit code.
    Failed(u8),
}

/// What the sandbox child observes from its surroundings.
#[derive(Clone, Copy, Debug, PartialEq, Eq, Structural)]
pub enum BootstrapEvent {
    ConnectOk,
    ConnectFailed,
    PingOk,
    PingFailed,
    /// The service's reply to the mapping request of the current state.
    MapReplied(RpcReply),
    ExecOk,
    ExecFailed,
}

/// The one I/O action the sandbox child performs in each state.
#[derive(Clone, Copy, Debug, PartialEq, Eq, Structural)]
pub enum BootstrapAction {
    /// Connect to the mapping service's socket.
    Connect,
    /// Send the liveness probe.
    Ping,
    /// Send this mapping request and await the reply.
    SendMap(MapRequest),
    /// Replace the process image with the target command.
    Exec,
    /// Nothing left to do: the bootstrap is over.
    Stop,
}

/// The sandbox child's next state on an event. Only the event that answers
/// the state's own action moves the machine; any other event leaves the
/// state unchanged. Every failure is terminal, with the exit code of the
/// step that failed, and an error reply to either mapping request fails the
/// bootstrap rather than being retried.
pub open spec fn spec_bootstrap_step(s: BootstrapState, e: BootstrapEvent) -> BootstrapState {
    match (s, e) {
        (BootstrapState::Unmapped, BootstrapEvent::ConnectOk) => BootstrapState::Connected,
        (BootstrapState::Unmapped, BootstrapEvent::ConnectFailed) => BootstrapState::Failed(
            EXIT_CONNECT_FAILED,
        ),
        (BootstrapState::Connected, BootstrapEvent::PingOk) => BootstrapState::Pinged,
        (BootstrapState::Connected, BootstrapEvent::PingFailed) => BootstrapState::Failed(
            EXIT_PING_FAILED,
        ),
        (BootstrapState::Pinged, BootstrapEvent::MapReplied(RpcReply::Ack)) =>
            BootstrapState::GidMapped,
        (BootstrapState::Pinged, BootstrapEvent::MapReplied(RpcReply::Failed(_))) =>
            BootstrapState::Failed(EXIT_MAP_FAILED),
        (BootstrapState::GidMapped, BootstrapEvent::MapReplied(RpcReply::Ack)) =>
            BootstrapState::UidMapped,
        (BootstrapState::GidMapped, BootstrapEvent::MapReplied(RpcReply::Failed(_))) =>
            BootstrapState::Failed(EXIT_MAP_FAILED),
        (BootstrapState::UidMapped, BootstrapEvent::ExecOk) => BootstrapState::Execd,
        (BootstrapState::UidMapped, BootstrapEvent::ExecFailed) => BootstrapState::Failed(
            EXIT_EXEC_FAILED,
        ),
        (_, _) => s,
    }
}

/// Feed one observed event into the bootstrap state machine.
pub fn bootstrap_step(s: BootstrapState, e: BootstrapEvent) -> (r: BootstrapState)
    ensures
        r == spec_bootstrap_step(s, e),
{
    match (s, e) {
        (BootstrapState::Unmapped, BootstrapEvent::ConnectOk) => BootstrapState::Connected,
        (BootstrapState::Unmapped, BootstrapEvent::ConnectFailed) => BootstrapState::Failed(
            EXIT_CONNECT_FAILED,
        ),
        (BootstrapState::Connected, BootstrapEvent::PingOk) => BootstrapState::Pinged,
        (BootstrapState::Connected, BootstrapEvent::PingFailed) => BootstrapState::Failed(
            EXIT_PING_FAILED,
        ),
        (BootstrapState::Pinged, BootstrapEvent::MapReplied(RpcReply::Ack)) =>
            BootstrapState::GidMapped,
        (BootstrapState::Pinged, BootstrapEvent::MapReplied(RpcReply::Failed(_))) =>
            BootstrapState::Failed(EXIT_MAP_FAILED),
        (BootstrapState::GidMapped, BootstrapEvent::MapReplied(RpcReply::Ack)) =>
            BootstrapState::UidMapped,
        (BootstrapState::GidMapped, BootstrapEvent::MapReplied(RpcReply::Failed(_))) =>
            BootstrapState::Failed(EXIT_MAP_FAILED),
        (BootstrapState::UidMapped, BootstrapEvent::ExecOk) => BootstrapState::Execd,
        (BootstrapState::UidMapped, BootstrapEvent::ExecFailed) => BootstrapState::Failed(
            EXIT_EXEC_FAILED,
        ),
        (_, _) => s,
    }
}

/// The action the sandbox child is to perform in state `s`, for a child
/// whose own process id is `pid` and whose caller's effective identity
/// outside the namespace is `uid`: connect, probe, request the GID map,
/// request the UID map, exec — in that order.
pub open spec fn spec_next_bootstrap_action(s: BootstrapState, pid: u32, uid: u32)
    -> BootstrapAction {
    match s {
        BootstrapState::Unmapped => BootstrapAction::Connect,
        BootstrapState::Connected => BootstrapAction::Ping,
        BootstrapState::Pinged => BootstrapAction::SendMap(spec_gid_for(pid, uid)),
        BootstrapState::GidMapped => BootstrapAction::SendMap(spec_uid_for(pid, uid)),
        BootstrapState::UidMapped => BootstrapAction::Exec,
        BootstrapState::Execd => BootstrapAction::Stop,
        BootstrapState::Failed(_) => BootstrapAction::Stop,
    }
}

/// The action the sandbox child is to perform next.
pub fn next_bootstrap_action(s: &BootstrapState, pid: u32, uid: u32) -> (r: BootstrapAction)
    ensures
        r == spec_next_bootstrap_action(*s, pid, uid),
{
    match s {
        BootstrapState::Unmapped => BootstrapAction::Connect,
        BootstrapState::Connected => BootstrapAction::Ping,
        BootstrapState::Pinged => BootstrapAction::SendMap(MapRequest::gid_for(pid, uid)),
        BootstrapState::GidMapped => BootstrapAction::SendMap(MapRequest::uid_for(pid, uid)),
        BootstrapState::UidMapped => BootstrapAction::Exec,
        BootstrapState::Execd => BootstrapAction::Stop,
        BootstrapState::Failed(_) => BootstrapAction::Stop,
    }
}

/// The target command is executed only after both maps are written, and in
/// the right order: the exec action is issued only in the UID-mapped state,
/// which is entered only from the GID-mapped state by an acknowledged UID
/// mapping request, which in turn is entered only after an acknowledged GID
/// mapping request.
pub proof fn lemma_exec_only_after_both_maps(
    s: BootstrapState,
    e: BootstrapEvent,
    pid: u32,
    uid: u32,
)
    ensures
        spec_next_bootstrap_action(s, pid, uid) == BootstrapAction::Exec ==> s
            == BootstrapState::UidMapped,
        spec_bootstrap_step(s, e) == BootstrapState::UidMapped ==> s == BootstrapState::UidMapped
            || (s == BootstrapState::GidMapped && e == BootstrapEvent::MapReplied(RpcReply::Ack)),
        spec_bootstrap_step(s, e) == BootstrapState::GidMapped ==> s == BootstrapState::GidMapped
            || (s == BootstrapState::Pinged && e == BootstrapEvent::MapReplied(RpcReply::Ack)),
{
}

/// The argument words of the target command the child execs: the command
/// itself first, then its arguments.
pub open spec fn spec_target_argv(cmd: Seq<u8>, args: Seq<Seq<u8>>) -> Seq<Seq<u8>> {
    seq![cmd] + args
}

/// Build the argument words handed to exec: the command, then its
/// arguments.
pub fn target_argv(cmd: &Vec<u8>, args: &Vec<Vec<u8>>) -> (r: Vec<Vec<u8>>)
    ensures
        words_view(r@) == spec_target_argv(cmd@, words_view(args@)),
{
    let mut v: Vec<Vec<u8>> = Vec::new();
    v.push(copy_bytes(cmd));
    let ghost before_args = words_view(v@);
    let mut i: usize = 0;
    while i < args.len()
        invariant
            i <= args.len(),
            words_view(v@) == before_args + words_view(args@).subrange(0, i as int),
        decreases args.len() - i,
    {
        let ghost prev = v@;
        v.push(copy_bytes(&args[i]));
        proof {
            assert(words_view(v@) =~~= words_view(prev).push(args@[i as int]@));
            assert(words_view(v@) =~~= before_args + words_view(args@).subrange(0, i + 1 as int));
        }
        i += 1;
    }
    proof {
        assert(words_view(args@).subrange(0, args@.len() as int) =~~= words_view(args@));
        assert(words_view(v@) =~~= spec_target_argv(cmd@, words_view(args@)));
    }
    v
}

/// A failed bootstrap is terminal: once a step has failed, every further
/// event leaves the failure in place, and the machine never asks for the
/// exec action — the bootstrap must not run the target after an error.
pub proof fn lemma_failure_is_terminal(c: u8, e: BootstrapEvent, pid: u32, uid: u32)
    ensures
        spec_bootstrap_step(BootstrapState::Failed(c), e) == BootstrapState::Failed(c),
        spec_next_bootstrap_action(BootstrapState::Failed(c), pid, uid) != BootstrapAction::Exec,
{
}

} // verus!
