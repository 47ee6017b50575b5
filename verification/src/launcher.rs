//! The launcher's orchestration of one sandbox run.
//!
//! The launcher binds the mapping service's socket, spawns the sandbox
//! child (a re-invocation of the same binary in its hidden child mode, with
//! the namespace selection serialized as command-line words), waits for the
//! child to exit, tears the service down, and exits with the child's exit
//! code. Binding before spawning is mandatory: the child's first act is to
//! connect to the service, and the launcher must never turn that ordering
//! into a race. A bind failure is fatal to the whole run and the child is
//! never spawned.
//!
//! The orchestration is a state machine. The surrounding process performs
//! one I/O action per state ([`next_launcher_action`]) and feeds the
//! outcome back in as an event ([`launcher_step`]).

use vstd::prelude::*;
use crate::flags::{flag_words, spec_flag_words, words_view, NsFlags};

verus! {

/// Exit code of a successful run.
pub const EXIT_OK: u8 = 0;

/// Exit code of the sandbox child when it cannot connect to the mapping
/// service.
pub const EXIT_CONNECT_FAILED: u8 = 1;

/// Exit code of the sandbox child when the liveness probe fails.
pub const EXIT_PING_FAILED: u8 = 2;

/// Exit code of the sandbox child when a mapping request fails.
pub const EXIT_MAP_FAILED: u8 = 3;

/// Exit code of the sandbox child when the target command cannot be
/// executed.
pub const EXIT_EXEC_FAILED: u8 = 4;

/// Exit code of the child mode when the namespaced process cannot be
/// created.
pub const EXIT_CLONE_FAILED: u8 = 5;

/// Exit code of the launcher when the service cannot bind its socket.
pub const EXIT_BIND_FAILED: u8 = 6;

/// Exit code of the launcher when the sandbox child cannot be spawned.
pub const EXIT_SPAWN_FAILED: u8 = 7;

/// Exit code of the launcher when waiting for the sandbox child fails.
pub const EXIT_WAIT_FAILED: u8 = 8;

/// Where the launcher stands in one run.
#[derive(Clone, Copy, Debug, PartialEq, Eq, Structural)]
pub enum LauncherState {
    /// Nothing done yet; the service socket is not bound.
    Init,
    /// The service is bound and accepting connections; no child yet.
    Serving,
    /// The sandbox child is running; the launcher is waiting for its exit.
    Waiting,
    /// The run is over: service stopped, socket removed, exit code fixed.
    Finished(u8),
}

/// What the launcher observes from its surroundings.
#[derive(Clone, Copy, Debug, PartialEq, Eq, Structural)]
pub enum LauncherEvent {
    BindOk,
    BindFailed,
    SpawnOk,
    SpawnFailed,
    ChildExited(u8),
    WaitFailed,
}

/// The one I/O action the launcher performs in each state.
#[derive(Clone, Copy, Debug, PartialEq, Eq, Structural)]
pub enum LauncherAction {
    /// Bind the service socket and start accepting connections.
    BindSocket,
    /// Spawn the sandbox child.
    SpawnChild,
    /// Block until the sandbox child exits.
    WaitChild,
    /// Stop the service, remove the socket, exit with the code.
    TearDown(u8),
}

/// The phase of the mapping service's socket, as the sandbox child's
/// connection attempts see it.
#[derive(Clone, Copy, Debug, PartialEq, Eq, Structural)]
pub enum ServicePhase {
    /// Not bound yet: connecting fails.
    Down,
    /// Bound and accepting connections.
    Listening,
    /// Stopped and removed: connecting fails again.
    Stopped,
}

/// The launcher's next state on an event. Only the event that answers the
/// state's own action moves the machine; any other event leaves the state
/// unchanged. A bind failure, a spawn failure and a wait failure finish the
/// run with their own exit codes; a child exit finishes the run with the
/// child's code, propagated unchanged.
pub open spec fn spec_launcher_step(s: LauncherState, e: LauncherEvent) -> LauncherState {
    match (s, e) {
        (LauncherState::Init, LauncherEvent::BindOk) => LauncherState::Serving,
        (LauncherState::Init, LauncherEvent::BindFailed) => LauncherState::Finished(
            EXIT_BIND_FAILED,
        ),
        (LauncherState::Serving, LauncherEvent::SpawnOk) => LauncherState::Waiting,
        (LauncherState::Serving, LauncherEvent::SpawnFailed) => LauncherState::Finished(
            EXIT_SPAWN_FAILED,
        ),
        (LauncherState::Waiting, LauncherEvent::ChildExited(c)) => LauncherState::Finished(c),
        (LauncherState::Waiting, LauncherEvent::WaitFailed) => LauncherState::Finished(
            EXIT_WAIT_FAILED,
        ),
        (_, _) => s,
    }
}

/// Feed one observed event into the launcher state machine.
pub fn launcher_step(s: LauncherState, e: LauncherEvent) -> (r: LauncherState)
    ensures
        r == spec_launcher_step(s, e),
{
    match (s, e) {
        (LauncherState::Init, LauncherEvent::BindOk) => LauncherState::Serving,
        (LauncherState::Init, LauncherEvent::BindFailed) => LauncherState::Finished(
            EXIT_BIND_FAILED,
        ),
        (LauncherState::Serving, LauncherEvent::SpawnOk) => LauncherState::Waiting,
        (LauncherState::Serving, LauncherEvent::SpawnFailed) => LauncherState::Finished(
            EXIT_SPAWN_FAILED,
        ),
        (LauncherState::Waiting, LauncherEvent::ChildExited(c)) => LauncherState::Finished(c),
        (LauncherState::Waiting, LauncherEvent::WaitFailed) => LauncherState::Finished(
            EXIT_WAIT_FAILED,
        ),
        (_, _) => s,
    }
}

/// The action the launcher is to perform in state `s`.
pub open spec fn spec_next_launcher_action(s: LauncherState) -> LauncherAction {
    match s {
        LauncherState::Init => LauncherAction::BindSocket,
        LauncherState::Serving => LauncherAction::SpawnChild,
        LauncherState::Waiting => LauncherAction::WaitChild,
        LauncherState::Finished(c) => LauncherAction::TearDown(c),
    }
}

/// The action the launcher is to perform next.
pub fn next_launcher_action(s: &LauncherState) -> (r: LauncherAction)
    ensures
        r == spec_next_launcher_action(*s),
{
    match s {
        LauncherState::Init => LauncherAction::BindSocket,
        LauncherState::Serving => LauncherAction::SpawnChild,
        LauncherState::Waiting => LauncherAction::WaitChild,
        LauncherState::Finished(c) => LauncherAction::TearDown(*c),
    }
}

/// The service phase that each launcher state presents to connection
/// attempts: the socket is bound exactly while the launcher serves and
/// waits, and is stopped and removed when the run finishes.
pub open spec fn spec_service_phase(s: LauncherState) -> ServicePhase {
    match s {
        LauncherState::Init => ServicePhase::Down,
        LauncherState::Serving => ServicePhase::Listening,
        LauncherState::Waiting => ServicePhase::Listening,
        LauncherState::Finished(_) => ServicePhase::Stopped,
    }
}

/// Whether a connection attempt against the service in phase `p` succeeds:
/// exactly while the service is listening. In any other phase the attempt
/// fails with a connection error before any request is sent.
pub open spec fn spec_connect_ok(p: ServicePhase) -> bool {
    p is Listening
}

/// Decide a connection attempt against the modelled service phase.
pub fn connect_ok(p: &ServicePhase) -> (r: bool)
    ensures
        r == spec_connect_ok(*p),
{
    match p {
        ServicePhase::Listening => true,
        _ => false,
    }
}

/// A liveness probe is answered exactly when the service is accepting
/// connections: it succeeds in the listening phase, and fails with a
/// connection error both before the service has bound its socket and after
/// the service has been stopped.
pub proof fn lemma_ping_reachability(s: LauncherState)
    ensures
        spec_connect_ok(spec_service_phase(s)) <==> (s is Serving || s is Waiting),
        s is Init ==> !spec_connect_ok(spec_service_phase(s)),
        s matches LauncherState::Finished(_) ==> !spec_connect_ok(spec_service_phase(s)),
{
}

/// A failed bind finishes the run at once with its own non-zero exit code:
/// the launcher never reaches the state whose action spawns the sandbox
/// child, and the finished state is terminal under every further event.
pub proof fn lemma_bind_failure_never_spawns(e: LauncherEvent)
    ensures
        spec_launcher_step(LauncherState::Init, LauncherEvent::BindFailed) == LauncherState::Finished(
            EXIT_BIND_FAILED,
        ),
        EXIT_BIND_FAILED != EXIT_OK,
        spec_next_launcher_action(LauncherState::Finished(EXIT_BIND_FAILED))
            != LauncherAction::SpawnChild,
        spec_launcher_step(LauncherState::Finished(EXIT_BIND_FAILED), e) == LauncherState::Finished(
            EXIT_BIND_FAILED,
        ),
{
}

/// The child is spawned only from the serving state, and the serving state
/// is entered only by a successful bind: the service is listening on its
/// socket before the sandbox child exists.
pub proof fn lemma_bind_precedes_spawn(s: LauncherState, e: LauncherEvent)
    ensures
        spec_next_launcher_action(s) == LauncherAction::SpawnChild ==> s == LauncherState::Serving,
        spec_launcher_step(s, e) == LauncherState::Serving ==> s == LauncherState::Serving || (s
            == LauncherState::Init && e == LauncherEvent::BindOk),
{
}

/// The launcher propagates the sandbox child's exit code as its own.
pub proof fn lemma_child_code_propagated(c: u8)
    ensures
        spec_launcher_step(LauncherState::Waiting, LauncherEvent::ChildExited(c))
            == LauncherState::Finished(c),
{
}

/// The bytes of `"child"`, the hidden child-mode subcommand.
pub open spec fn child_word() -> Seq<u8> {
    seq![99u8, 104u8, 105u8, 108u8, 100u8]
}

/// The argument words with which the launcher re-invokes itself as the
/// sandbox child: the child-mode subcommand, the namespace selection's flag
/// words, the target command, and the target's arguments.
pub open spec fn spec_child_argv(f: NsFlags, cmd: Seq<u8>, args: Seq<Seq<u8>>) -> Seq<Seq<u8>> {
    seq![child_word()] + spec_flag_words(f) + seq![cmd] + args
}

/// Copy a byte vector.
pub fn copy_bytes(v: &Vec<u8>) -> (r: Vec<u8>)
    ensures
        r@ == v@,
{
    let mut out: Vec<u8> = Vec::new();
    let mut i: usize = 0;
    while i < v.len()
        invariant
            i <= v.len(),
            out@ == v@.subrange(0, i as int),
        decreases v.len() - i,
    {
        out.push(v[i]);
        proof {
            assert(out@ =~= v@.subrange(0, i + 1 as int));
        }
        i += 1;
    }
    proof {
        assert(v@.subrange(0, v@.len() as int) =~= v@);
    }
    out
}

/// Build the sandbox child's argument words.
pub fn child_argv(f: &NsFlags, cmd: &Vec<u8>, args: &Vec<Vec<u8>>) -> (r: Vec<Vec<u8>>)
    ensures
        words_view(r@) == spec_child_argv(*f, cmd@, words_view(args@)),
{
    let mut v: Vec<Vec<u8>> = Vec::new();
    let mut word: Vec<u8> = Vec::new();
    word.push(99);  // 'c'
    word.push(104);  // 'h'
    word.push(105);  // 'i'
    word.push(108);  // 'l'
    word.push(100);  // 'd'
    proof {
        assert(word@ =~= child_word());
    }
    v.push(word);
    let mut fw = flag_words(f);
    v.append(&mut fw);
    v.push(copy_bytes(cmd));
    let ghost before_args = words_view(v@);
    let mut i: usize = 0;
    while i < args.len()
        invariant
            i <= args.len(),
            words_view(v@) == before_args + words_view(args@).subrange(0, i as int),
        decreases args.len() - i,
    {
        let ghost prev = v@;
        v.push(copy_bytes(&args[i]));
        proof {
            assert(words_view(v@) =~~= words_view(prev).push(args@[i as int]@));
            assert(words_view(v@) =~~= before_args + words_view(args@).subrange(0, i + 1 as int));
        }
        i += 1;
    }
    proof {
        assert(words_view(args@).subrange(0, args@.len() as int) =~~= words_view(args@));
        assert(words_view(v@) =~~= spec_child_argv(*f, cmd@, words_view(args@)));
    }
    v
}

} // verus!
