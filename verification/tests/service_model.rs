use userns_child_exec::protocol::{MapError, MapKind, MapRequest, RpcReply};
use userns_child_exec::service::{ProcDir, UsernsMapperImpl};

fn mapper() -> UsernsMapperImpl {
    UsernsMapperImpl::default()
}

#[test]
fn ping_always_acks() {
    assert_eq!(mapper().ping(), RpcReply::Ack);
}

#[test]
fn gid_then_uid_writes_both_maps() {
    let m = mapper();
    let mut dir = ProcDir::live();
    let gid = MapRequest::gid_for(1234, 1000);
    let uid = MapRequest::uid_for(1234, 1000);
    assert_eq!(m.map(&mut dir, &gid), RpcReply::Ack);
    assert_eq!(m.map(&mut dir, &uid), RpcReply::Ack);
    assert!(dir.setgroups_denied);
    assert_eq!(dir.gid_map.as_deref(), Some(b"0 1000 1\n".as_slice()));
    assert_eq!(dir.uid_map.as_deref(), Some(b"0 1000 1\n".as_slice()));
}

#[test]
fn pid_zero_is_invalid_argument_for_both_kinds() {
    let m = mapper();
    for kind in [MapKind::Gid, MapKind::Uid] {
        let mut dir = ProcDir::live();
        let req = MapRequest { kind, pid: 0, id_inside_ns: 0, id_outside_ns: 7, length: 1 };
        assert_eq!(m.map(&mut dir, &req), RpcReply::Failed(MapError::InvalidArgument));
        assert!(!dir.setgroups_denied);
        assert!(dir.gid_map.is_none());
        assert!(dir.uid_map.is_none());
    }
}

#[test]
fn unresolvable_directory_is_not_found() {
    let m = mapper();
    for kind in [MapKind::Gid, MapKind::Uid] {
        let mut dir = ProcDir::absent();
        let req = MapRequest { kind, pid: 4711, id_inside_ns: 0, id_outside_ns: 7, length: 1 };
        assert_eq!(m.map(&mut dir, &req), RpcReply::Failed(MapError::NotFound));
        assert!(!dir.setgroups_denied);
        assert!(dir.gid_map.is_none());
        assert!(dir.uid_map.is_none());
    }
}

#[test]
fn second_uid_map_is_internal_error() {
    let m = mapper();
    let mut dir = ProcDir::live();
    let uid = MapRequest::uid_for(99, 1000);
    assert_eq!(m.map(&mut dir, &uid), RpcReply::Ack);
    let again = MapRequest::uid_for(99, 2000);
    assert_eq!(m.map(&mut dir, &again), RpcReply::Failed(MapError::Internal));
    // The first write stays in place.
    assert_eq!(dir.uid_map.as_deref(), Some(b"0 1000 1\n".as_slice()));
}

#[test]
fn second_gid_map_is_internal_error_and_setgroups_stays_denied() {
    let m = mapper();
    let mut dir = ProcDir::live();
    let gid = MapRequest::gid_for(99, 1000);
    assert_eq!(m.map(&mut dir, &gid), RpcReply::Ack);
    assert_eq!(m.map(&mut dir, &gid), RpcReply::Failed(MapError::Internal));
    assert!(dir.setgroups_denied);
    assert_eq!(dir.gid_map.as_deref(), Some(b"0 1000 1\n".as_slice()));
}

#[test]
fn gid_plan_is_deny_then_line() {
    let m = mapper();
    let req = MapRequest::gid_for(42, 1000);
    let plan = m.plan_map(&req).expect("valid request");
    assert_eq!(plan.writes.len(), 2);
    assert_eq!(plan.writes[0].path, b"/proc/42/setgroups".to_vec());
    assert_eq!(plan.writes[0].contents, b"deny".to_vec());
    assert_eq!(plan.writes[1].path, b"/proc/42/gid_map".to_vec());
    assert_eq!(plan.writes[1].contents, b"0 1000 1\n".to_vec());
}

#[test]
fn uid_plan_is_one_line_write() {
    let m = mapper();
    let req = MapRequest::uid_for(42, 1000);
    let plan = m.plan_map(&req).expect("valid request");
    assert_eq!(plan.writes.len(), 1);
    assert_eq!(plan.writes[0].path, b"/proc/42/uid_map".to_vec());
    assert_eq!(plan.writes[0].contents, b"0 1000 1\n".to_vec());
}

#[test]
fn plan_rejects_pid_zero() {
    let m = mapper();
    let req = MapRequest { kind: MapKind::Uid, pid: 0, id_inside_ns: 0, id_outside_ns: 1, length: 1 };
    assert_eq!(m.plan_map(&req).unwrap_err(), MapError::InvalidArgument);
}

#[test]
fn request_builders_use_identity_zero_inside_and_length_one() {
    let gid = MapRequest::gid_for(7, 1000);
    assert_eq!(gid.kind, MapKind::Gid);
    assert_eq!(gid.pid, 7);
    assert_eq!(gid.id_inside_ns, 0);
    assert_eq!(gid.id_outside_ns, 1000);
    assert_eq!(gid.length, 1);
    let uid = MapRequest::uid_for(7, 1000);
    assert_eq!(uid.kind, MapKind::Uid);
    assert_eq!(uid.pid, 7);
    assert_eq!(uid.id_inside_ns, 0);
    assert_eq!(uid.id_outside_ns, 1000);
    assert_eq!(uid.length, 1);
}
