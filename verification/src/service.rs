//! The mapping service: validation and execution of mapping requests.
//!
//! The service runs outside the new user namespace, with enough privilege to
//! write another process's mapping files. Its `map` algorithm is: reject
//! process id 0; fail if the target's kernel directory is not resolvable;
//! for a GID request write `"deny"` to `setgroups` and then the mapping line
//! to `gid_map`; for a UID request write the mapping line to `uid_map`; any
//! failed write is reported as an internal error.
//!
//! The kernel's per-process mapping surface is modelled by [`ProcDir`]:
//! each of `uid_map` and `gid_map` accepts at most one successful write for
//! the lifetime of the process, and a repeated write fails. The service's
//! decisions are verified against this model; the surrounding process
//! performs the real file writes by following [`UsernsMapperImpl::plan_map`],
//! whose contract pins every path and every byte written.

use vstd::prelude::*;
use crate::protocol::{spec_gid_for, spec_uid_for, MapError, MapKind, MapRequest, RpcReply};
use crate::render::{
    deny_bytes, deny_value, gid_map_path, map_line, setgroups_path, spec_gid_map_path,
    spec_map_line, spec_proc_dir, spec_setgroups_path, spec_uid_map_path, uid_map_path,
};

verus! {

/// A model of one process's kernel-exposed mapping surface: the `setgroups`
/// control file and the one-shot `uid_map`/`gid_map` files under the
/// process's numeric directory.
pub struct ProcDir {
    /// Whether the process's kernel directory is currently resolvable.
    pub exists: bool,
    /// Whether `"deny"` has been written to the `setgroups` control file.
    pub setgroups_denied: bool,
    /// The contents of `gid_map`; `None` until its one successful write.
    pub gid_map: Option<Vec<u8>>,
    /// The contents of `uid_map`; `None` until its one successful write.
    pub uid_map: Option<Vec<u8>>,
}

impl ProcDir {
    /// The mapping surface of a live process that has not been mapped yet.
    pub fn live() -> (r: ProcDir)
        ensures
            r.exists,
            !r.setgroups_denied,
            r.gid_map is None,
            r.uid_map is None,
    {
        ProcDir { exists: true, setgroups_denied: false, gid_map: None, uid_map: None }
    }

    /// The mapping surface of a process id whose kernel directory is not
    /// resolvable (no such process).
    pub fn absent() -> (r: ProcDir)
        ensures
            !r.exists,
            !r.setgroups_denied,
            r.gid_map is None,
            r.uid_map is None,
    {
        ProcDir { exists: false, setgroups_denied: false, gid_map: None, uid_map: None }
    }
}

/// `m` holds exactly the bytes `line`.
pub open spec fn map_file_is(m: Option<Vec<u8>>, line: Seq<u8>) -> bool {
    m matches Some(v) && v@ == line
}

/// The mathematical value of a [`ProcDir`]: the same surface with the file
/// contents as byte sequences.
#[verifier::ext_equal]
pub struct ProcDirView {
    pub exists: bool,
    pub setgroups_denied: bool,
    pub gid_map: Option<Seq<u8>>,
    pub uid_map: Option<Seq<u8>>,
}

impl View for ProcDir {
    type V = ProcDirView;

    open spec fn view(&self) -> ProcDirView {
        ProcDirView {
            exists: self.exists,
            setgroups_denied: self.setgroups_denied,
            gid_map: match self.gid_map {
                Some(v) => Some(v@),
                None => None,
            },
            uid_map: match self.uid_map {
                Some(v) => Some(v@),
                None => None,
            },
        }
    }
}

/// The mapping surface after one `Map` request: unchanged on rejection; on a
/// GID request `setgroups` is denied and then `gid_map` written if it was
/// never written before; on a UID request `uid_map` written if it was never
/// written before.
pub open spec fn spec_map_dir(d: ProcDirView, req: MapRequest) -> ProcDirView {
    if req.pid == 0 || !d.exists {
        d
    } else if req.kind == MapKind::Gid {
        ProcDirView {
            setgroups_denied: true,
            gid_map: if d.gid_map is Some {
                d.gid_map
            } else {
                Some(spec_map_line(req.id_inside_ns, req.id_outside_ns, req.length))
            },
            ..d
        }
    } else {
        ProcDirView {
            uid_map: if d.uid_map is Some {
                d.uid_map
            } else {
                Some(spec_map_line(req.id_inside_ns, req.id_outside_ns, req.length))
            },
            ..d
        }
    }
}

/// The reply to one `Map` request on the surface `d`: `InvalidArgument` for
/// process id 0, `NotFound` for an unresolvable directory, `Internal` for a
/// repeated write of the one-shot mapping file, `Ack` otherwise.
pub open spec fn spec_map_reply(d: ProcDirView, req: MapRequest) -> RpcReply {
    if req.pid == 0 {
        RpcReply::Failed(MapError::InvalidArgument)
    } else if !d.exists {
        RpcReply::Failed(MapError::NotFound)
    } else if req.kind == MapKind::Gid {
        if d.gid_map is Some {
            RpcReply::Failed(MapError::Internal)
        } else {
            RpcReply::Ack
        }
    } else {
        if d.uid_map is Some {
            RpcReply::Failed(MapError::Internal)
        } else {
            RpcReply::Ack
        }
    }
}

/// One file write the service is to perform: `contents` to the file at `path`.
#[derive(Debug)]
pub struct WriteOp {
    pub path: Vec<u8>,
    pub contents: Vec<u8>,
}

/// The ordered file writes that execute one mapping request. A failure of
/// any write aborts the rest and is reported as `MapError::Internal`.
#[derive(Debug)]
pub struct MapPlan {
    pub writes: Vec<WriteOp>,
}

/// The mapping service. It holds no state across requests: every request is
/// validated and executed on its own.
#[derive(Default)]
pub struct UsernsMapperImpl {}

impl UsernsMapperImpl {
    /// Handle a liveness probe: never touches the filesystem and succeeds
    /// whenever the service is up to answer at all.
    pub fn ping(&self) -> (r: RpcReply)
        ensures
            r == RpcReply::Ack,
    {
        RpcReply::Ack
    }

    /// Validate `req` and lay out the file writes that execute it.
    ///
    /// Validation rejects process id 0. The plan for a GID request is the
    /// `setgroups` deny write followed by the `gid_map` line write; for a UID
    /// request it is the `uid_map` line write alone. Whether the target
    /// process's directory is resolvable is checked by the caller against
    /// the filesystem itself, before performing the writes.
    pub fn plan_map(&self, req: &MapRequest) -> (r: Result<MapPlan, MapError>)
        ensures
            r is Err <==> req.pid == 0,
            r matches Err(e) ==> e == MapError::InvalidArgument,
            r matches Ok(plan) ==> {
                &&& req.kind == MapKind::Gid ==> {
                    &&& plan.writes@.len() == 2
                    &&& plan.writes@[0].path@ == spec_setgroups_path(req.pid)
                    &&& plan.writes@[0].contents@ == deny_bytes()
                    &&& plan.writes@[1].path@ == spec_gid_map_path(req.pid)
                    &&& plan.writes@[1].contents@ == spec_map_line(
                        req.id_inside_ns,
                        req.id_outside_ns,
                        req.length,
                    )
                }
                &&& req.kind == MapKind::Uid ==> {
                    &&& plan.writes@.len() == 1
                    &&& plan.writes@[0].path@ == spec_uid_map_path(req.pid)
                    &&& plan.writes@[0].contents@ == spec_map_line(
                        req.id_inside_ns,
                        req.id_outside_ns,
                        req.length,
                    )
                }
            },
    {
        if req.pid == 0 {
            return Err(MapError::InvalidArgument);
        }
        let line = map_line(req.id_inside_ns, req.id_outside_ns, req.length);
        let mut writes: Vec<WriteOp> = Vec::new();
        match req.kind {
            MapKind::Gid => {
                writes.push(WriteOp { path: setgroups_path(req.pid), contents: deny_value() });
                writes.push(WriteOp { path: gid_map_path(req.pid), contents: line });
            },
            MapKind::Uid => {
                writes.push(WriteOp { path: uid_map_path(req.pid), contents: line });
            },
        }
        Ok(MapPlan { writes })
    }

    /// Handle one mapping request against the mapping surface `dir`.
    ///
    /// The contract characterises every case: rejection of process id 0, an
    /// unresolvable target directory, the one-shot failure of an already
    /// written map, and the successful write of exactly the mapping line
    /// `"<id_inside_ns> <id_outside_ns> <length>\n"`. For a GID request the
    /// `setgroups` deny write happens before the `gid_map` write, so it is
    /// in force even when the `gid_map` write then fails.
    pub fn map(&self, dir: &mut ProcDir, req: &MapRequest) -> (r: RpcReply)
        ensures
            final(dir)@ == spec_map_dir(old(dir)@, *req),
            r == spec_map_reply(old(dir)@, *req),
            final(dir).exists == old(dir).exists,
            // Process id 0 is rejected before anything is touched.
            req.pid == 0 ==> {
                &&& r == RpcReply::Failed(MapError::InvalidArgument)
                &&& final(dir).setgroups_denied == old(dir).setgroups_denied
                &&& final(dir).gid_map == old(dir).gid_map
                &&& final(dir).uid_map == old(dir).uid_map
            },
            // An unresolvable target directory fails before anything is touched.
            req.pid != 0 && !old(dir).exists ==> {
                &&& r == RpcReply::Failed(MapError::NotFound)
                &&& final(dir).setgroups_denied == old(dir).setgroups_denied
                &&& final(dir).gid_map == old(dir).gid_map
                &&& final(dir).uid_map == old(dir).uid_map
            },
            // A GID request denies setgroups, then writes the line to gid_map;
            // the one-shot gid_map write fails if the file was already written.
            req.pid != 0 && old(dir).exists && req.kind == MapKind::Gid ==> {
                &&& final(dir).setgroups_denied
                &&& final(dir).uid_map == old(dir).uid_map
                &&& old(dir).gid_map is None ==> {
                    &&& r == RpcReply::Ack
                    &&& map_file_is(
                        final(dir).gid_map,
                        spec_map_line(req.id_inside_ns, req.id_outside_ns, req.length),
                    )
                }
                &&& old(dir).gid_map is Some ==> {
                    &&& r == RpcReply::Failed(MapError::Internal)
                    &&& final(dir).gid_map == old(dir).gid_map
                }
            },
            // A UID request writes the line to uid_map; the one-shot uid_map
            // write fails if the file was already written.
            req.pid != 0 && old(dir).exists && req.kind == MapKind::Uid ==> {
                &&& final(dir).setgroups_denied == old(dir).setgroups_denied
                &&& final(dir).gid_map == old(dir).gid_map
                &&& old(dir).uid_map is None ==> {
                    &&& r == RpcReply::Ack
                    &&& map_file_is(
                        final(dir).uid_map,
                        spec_map_line(req.id_inside_ns, req.id_outside_ns, req.length),
                    )
                }
                &&& old(dir).uid_map is Some ==> {
                    &&& r == RpcReply::Failed(MapError::Internal)
                    &&& final(dir).uid_map == old(dir).uid_map
                }
            },
    {
        if req.pid == 0 {
            return RpcReply::Failed(MapError::InvalidArgument);
        }
        if !dir.exists {
            return RpcReply::Failed(MapError::NotFound);
        }
        let line = map_line(req.id_inside_ns, req.id_outside_ns, req.length);
        match req.kind {
            MapKind::Gid => {
                // The deny write precedes the gid_map write and succeeds on a
                // resolvable directory, whether or not gid_map was written.
                dir.setgroups_denied = true;
                if dir.gid_map.is_some() {
                    return RpcReply::Failed(MapError::Internal);
                }
                dir.gid_map = Some(line);
                RpcReply::Ack
            },
            MapKind::Uid => {
                if dir.uid_map.is_some() {
                    return RpcReply::Failed(MapError::Internal);
                }
                dir.uid_map = Some(line);
                RpcReply::Ack
            },
        }
    }
}

/// One write of `contents` to the file at `path`, interpreted on the
/// modelled mapping surface of process `pid`: the result surface and
/// whether the write succeeded. Writing `setgroups` succeeds on a
/// resolvable directory; writing a mapping file succeeds only on its first
/// write; any other path fails.
pub open spec fn spec_apply_write(d: ProcDirView, pid: u32, path: Seq<u8>, contents: Seq<u8>) -> (
    ProcDirView,
    bool,
) {
    if !d.exists {
        (d, false)
    } else if path == spec_setgroups_path(pid) {
        (ProcDirView { setgroups_denied: true, ..d }, true)
    } else if path == spec_gid_map_path(pid) {
        if d.gid_map is Some {
            (d, false)
        } else {
            (ProcDirView { gid_map: Some(contents), ..d }, true)
        }
    } else if path == spec_uid_map_path(pid) {
        if d.uid_map is Some {
            (d, false)
        } else {
            (ProcDirView { uid_map: Some(contents), ..d }, true)
        }
    } else {
        (d, false)
    }
}

/// Executing the writes that [`UsernsMapperImpl::plan_map`] lays out, in
/// their order and stopping at the first failure, leaves the mapping
/// surface exactly as [`UsernsMapperImpl::map`] does, and they all succeed
/// exactly when `map` acknowledges the request: the plan the surrounding
/// process follows and the model the laws speak of agree.
pub proof fn lemma_plan_execution_matches_map(d: ProcDirView, req: MapRequest)
    requires
        req.pid != 0,
        d.exists,
    ensures
        ({
            let line = spec_map_line(req.id_inside_ns, req.id_outside_ns, req.length);
            let acked = spec_map_reply(d, req) == RpcReply::Ack;
            &&& req.kind == MapKind::Gid ==> {
                let (d1, ok1) = spec_apply_write(
                    d,
                    req.pid,
                    spec_setgroups_path(req.pid),
                    deny_bytes(),
                );
                let (d2, ok2) = spec_apply_write(d1, req.pid, spec_gid_map_path(req.pid), line);
                &&& ok1
                &&& d2 == spec_map_dir(d, req)
                &&& (ok2 <==> acked)
            }
            &&& req.kind == MapKind::Uid ==> {
                let (d1, ok1) = spec_apply_write(d, req.pid, spec_uid_map_path(req.pid), line);
                &&& d1 == spec_map_dir(d, req)
                &&& (ok1 <==> acked)
            }
        }),
{
    let p = req.pid;
    let dir_len = spec_proc_dir(p).len() as int;
    // The three file paths under one process directory are pairwise
    // distinct: `setgroups` is longer, and `gid_map`/`uid_map` differ
    // right after the directory prefix.
    assert(spec_setgroups_path(p).len() == dir_len + 10);
    assert(spec_gid_map_path(p).len() == dir_len + 8);
    assert(spec_uid_map_path(p).len() == dir_len + 8);
    assert(spec_gid_map_path(p)[dir_len + 1] == 103u8);
    assert(spec_uid_map_path(p)[dir_len + 1] == 117u8);
    assert(spec_gid_map_path(p) != spec_setgroups_path(p));
    assert(spec_uid_map_path(p) != spec_setgroups_path(p));
    assert(spec_uid_map_path(p) != spec_gid_map_path(p));
}

/// For every live, not-yet-mapped process id `p` and identity `u`, a GID
/// mapping request for `(0, u, 1)` followed by a UID mapping request for
/// `(0, u, 1)` both succeed, and the process's `gid_map` and `uid_map`
/// thereafter each contain exactly the line `"0 u 1"`.
pub proof fn lemma_gid_then_uid_mapping(d0: ProcDirView, p: u32, u: u32)
    requires
        p != 0,
        d0.exists,
        d0.gid_map is None,
        d0.uid_map is None,
    ensures
        ({
            let d1 = spec_map_dir(d0, spec_gid_for(p, u));
            let d2 = spec_map_dir(d1, spec_uid_for(p, u));
            &&& spec_map_reply(d0, spec_gid_for(p, u)) == RpcReply::Ack
            &&& spec_map_reply(d1, spec_uid_for(p, u)) == RpcReply::Ack
            &&& d2.gid_map == Some(spec_map_line(0, u, 1))
            &&& d2.uid_map == Some(spec_map_line(0, u, 1))
        }),
{
}

/// A mapping request naming process id 0 always fails with
/// `InvalidArgument`, for every kind, every triple and every mapping
/// surface, and leaves the surface unchanged.
pub proof fn lemma_pid_zero_invalid(d: ProcDirView, req: MapRequest)
    requires
        req.pid == 0,
    ensures
        spec_map_reply(d, req) == RpcReply::Failed(MapError::InvalidArgument),
        spec_map_dir(d, req) == d,
{
}

/// A mapping request for a process id with no resolvable kernel directory
/// fails with `NotFound`, for every kind and every triple, and leaves the
/// surface unchanged.
pub proof fn lemma_unresolvable_not_found(d: ProcDirView, req: MapRequest)
    requires
        req.pid != 0,
        !d.exists,
    ensures
        spec_map_reply(d, req) == RpcReply::Failed(MapError::NotFound),
        spec_map_dir(d, req) == d,
{
}

/// Mapping is not idempotent: on a live process whose `uid_map` was never
/// written, a first UID mapping request succeeds, and a second UID mapping
/// request for the same process then fails with `Internal`, whatever triple
/// it carries — a repeated call surfaces an error, never a silent success.
pub proof fn lemma_second_uid_map_fails(d0: ProcDirView, req1: MapRequest, req2: MapRequest)
    requires
        req1.kind == MapKind::Uid,
        req2.kind == MapKind::Uid,
        req1.pid == req2.pid,
        req1.pid != 0,
        d0.exists,
        d0.uid_map is None,
    ensures
        spec_map_reply(d0, req1) == RpcReply::Ack,
        spec_map_reply(spec_map_dir(d0, req1), req2) == RpcReply::Failed(MapError::Internal),
{
}

} // verus!
