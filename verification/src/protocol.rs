//! Request and reply shapes of the mapping protocol.
//!
//! The protocol has two operations: `Ping`, a liveness probe, and `Map`,
//! which asks the service to write one UID or GID mapping line for a given
//! process. A `Map` request carries the kind of map to write, the target
//! process id, and the mapping triple (id inside the namespace, id outside
//! the namespace, range length).

use vstd::prelude::*;

verus! {

/// Which of the two kernel mapping files a request is about.
#[derive(Clone, Copy, Debug, PartialEq, Eq, Structural)]
pub enum MapKind {
    Gid,
    Uid,
}

/// One mapping request: write the line `"id_inside_ns id_outside_ns length"`
/// to the `pid`'s mapping file selected by `kind`.
#[derive(Clone, Copy, Debug, PartialEq, Eq, Structural)]
pub struct MapRequest {
    pub kind: MapKind,
    pub pid: u32,
    pub id_inside_ns: u32,
    pub id_outside_ns: u32,
    pub length: u32,
}

/// The error taxonomy of the mapping service and client.
#[derive(Clone, Copy, Debug, PartialEq, Eq, Structural)]
pub enum MapError {
    /// The request named process id 0.
    InvalidArgument,
    /// The target process has no resolvable kernel directory.
    NotFound,
    /// A mapping file write failed (permission denied, already mapped).
    Internal,
}

/// A request as sent over the local socket.
#[derive(Clone, Copy, Debug, PartialEq, Eq, Structural)]
pub enum RpcRequest {
    Ping,
    Mapping(MapRequest),
}

/// A reply as sent over the local socket.
#[derive(Clone, Copy, Debug, PartialEq, Eq, Structural)]
pub enum RpcReply {
    Ack,
    Failed(MapError),
}

/// The GID mapping request the sandbox child issues for itself: map group 0
/// inside the namespace to the identity `uid` outside it, with range length
/// 1. The GID map mirrors the UID value to keep the mapping to the
/// one-owner case.
pub open spec fn spec_gid_for(pid: u32, uid: u32) -> MapRequest {
    MapRequest { kind: MapKind::Gid, pid: pid, id_inside_ns: 0, id_outside_ns: uid, length: 1 }
}

/// The UID mapping request the sandbox child issues for itself: map user 0
/// inside the namespace to the identity `uid` outside it, with range length
/// 1.
pub open spec fn spec_uid_for(pid: u32, uid: u32) -> MapRequest {
    MapRequest { kind: MapKind::Uid, pid: pid, id_inside_ns: 0, id_outside_ns: uid, length: 1 }
}

impl MapRequest {
    /// Build the sandbox child's own GID mapping request.
    pub fn gid_for(pid: u32, uid: u32) -> (r: MapRequest)
        ensures
            r == spec_gid_for(pid, uid),
    {
        MapRequest { kind: MapKind::Gid, pid, id_inside_ns: 0, id_outside_ns: uid, length: 1 }
    }

    /// Build the sandbox child's own UID mapping request.
    pub fn uid_for(pid: u32, uid: u32) -> (r: MapRequest)
        ensures
            r == spec_uid_for(pid, uid),
    {
        MapRequest { kind: MapKind::Uid, pid, id_inside_ns: 0, id_outside_ns: uid, length: 1 }
    }
}

} // verus!
