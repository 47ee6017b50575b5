use userns_child_exec::bootstrap::{bootstrap_step, next_bootstrap_action, BootstrapAction,
    BootstrapEvent, BootstrapState};
use userns_child_exec::flags::NsFlags;
use userns_child_exec::launcher::{child_argv, connect_ok, launcher_step, next_launcher_action,
    LauncherAction, LauncherEvent, LauncherState, ServicePhase, EXIT_BIND_FAILED,
    EXIT_CONNECT_FAILED, EXIT_EXEC_FAILED, EXIT_MAP_FAILED, EXIT_PING_FAILED};
use userns_child_exec::protocol::{MapError, MapRequest, RpcReply};
use userns_child_exec::service::{ProcDir, UsernsMapperImpl};

#[test]
fn ping_liveness_follows_the_service_phase() {
    // Before the bind, connecting (and so pinging) fails; while the service
    // is listening it succeeds; after teardown it fails again.
    assert!(!connect_ok(&ServicePhase::Down));
    assert!(connect_ok(&ServicePhase::Listening));
    assert!(!connect_ok(&ServicePhase::Stopped));
    // Over a standing connection the service always acknowledges the probe.
    assert_eq!(UsernsMapperImpl::default().ping(), RpcReply::Ack);
}

#[test]
fn end_to_end_model_run_exits_zero() {
    // Launcher invoked with {user, pid, mount} and the command "echo hi".
    let flags = NsFlags { ipc: false, mount: true, network: false, pid: true, uts: false, user: true };
    let argv = child_argv(&flags, &b"echo".to_vec(), &vec![b"hi".to_vec()]);
    assert_eq!(
        argv,
        vec![
            b"child".to_vec(),
            b"--mount".to_vec(),
            b"--pid".to_vec(),
            b"--user".to_vec(),
            b"echo".to_vec(),
            b"hi".to_vec(),
        ]
    );

    // The launcher binds, then spawns, then waits.
    let s0 = LauncherState::Init;
    assert_eq!(next_launcher_action(&s0), LauncherAction::BindSocket);
    let s1 = launcher_step(s0, LauncherEvent::BindOk);
    assert_eq!(s1, LauncherState::Serving);
    assert_eq!(next_launcher_action(&s1), LauncherAction::SpawnChild);
    let s2 = launcher_step(s1, LauncherEvent::SpawnOk);
    assert_eq!(s2, LauncherState::Waiting);
    assert_eq!(next_launcher_action(&s2), LauncherAction::WaitChild);

    // The sandbox child bootstraps: connect, ping, GID map, UID map, exec.
    let pid = 4321u32;
    let uid = 1000u32;
    let mut dir = ProcDir::live();
    let mapper = UsernsMapperImpl::default();
    let mut b = BootstrapState::Unmapped;
    assert_eq!(next_bootstrap_action(&b, pid, uid), BootstrapAction::Connect);
    b = bootstrap_step(b, BootstrapEvent::ConnectOk);
    assert_eq!(next_bootstrap_action(&b, pid, uid), BootstrapAction::Ping);
    assert_eq!(mapper.ping(), RpcReply::Ack);
    b = bootstrap_step(b, BootstrapEvent::PingOk);
    let gid_req = match next_bootstrap_action(&b, pid, uid) {
        BootstrapAction::SendMap(r) => r,
        other => panic!("expected a mapping request, got {:?}", other),
    };
    // Root-equivalent inside the namespace: identity 0 inside maps to the
    // caller's identity outside.
    assert_eq!(gid_req, MapRequest::gid_for(pid, uid));
    assert_eq!(gid_req.id_inside_ns, 0);
    let reply = mapper.map(&mut dir, &gid_req);
    b = bootstrap_step(b, BootstrapEvent::MapReplied(reply));
    assert_eq!(b, BootstrapState::GidMapped);
    let uid_req = match next_bootstrap_action(&b, pid, uid) {
        BootstrapAction::SendMap(r) => r,
        other => panic!("expected a mapping request, got {:?}", other),
    };
    assert_eq!(uid_req, MapRequest::uid_for(pid, uid));
    let reply = mapper.map(&mut dir, &uid_req);
    b = bootstrap_step(b, BootstrapEvent::MapReplied(reply));
    assert_eq!(b, BootstrapState::UidMapped);
    assert_eq!(dir.uid_map.as_deref(), Some(b"0 1000 1\n".as_slice()));
    assert_eq!(next_bootstrap_action(&b, pid, uid), BootstrapAction::Exec);
    b = bootstrap_step(b, BootstrapEvent::ExecOk);
    assert_eq!(b, BootstrapState::Execd);

    // The child's exit code 0 propagates through the launcher.
    let s3 = launcher_step(s2, LauncherEvent::ChildExited(0));
    assert_eq!(s3, LauncherState::Finished(0));
    assert_eq!(next_launcher_action(&s3), LauncherAction::TearDown(0));
}

#[test]
fn bind_failure_finishes_without_spawning() {
    let s = launcher_step(LauncherState::Init, LauncherEvent::BindFailed);
    assert_eq!(s, LauncherState::Finished(EXIT_BIND_FAILED));
    assert_ne!(EXIT_BIND_FAILED, 0);
    // The finished state never asks to spawn, and stays finished.
    assert_eq!(next_launcher_action(&s), LauncherAction::TearDown(EXIT_BIND_FAILED));
    for e in [
        LauncherEvent::BindOk,
        LauncherEvent::SpawnOk,
        LauncherEvent::ChildExited(0),
        LauncherEvent::WaitFailed,
    ] {
        assert_eq!(launcher_step(s, e), s);
    }
}

#[test]
fn child_exit_code_is_propagated() {
    for code in [0u8, 1, 3, 4, 77] {
        assert_eq!(
            launcher_step(LauncherState::Waiting, LauncherEvent::ChildExited(code)),
            LauncherState::Finished(code)
        );
    }
}

#[test]
fn bootstrap_failures_are_terminal_with_their_own_codes() {
    let pid = 1u32;
    let uid = 2u32;
    let cases = vec![
        (BootstrapState::Unmapped, BootstrapEvent::ConnectFailed, EXIT_CONNECT_FAILED),
        (BootstrapState::Connected, BootstrapEvent::PingFailed, EXIT_PING_FAILED),
        (
            BootstrapState::Pinged,
            BootstrapEvent::MapReplied(RpcReply::Failed(MapError::NotFound)),
            EXIT_MAP_FAILED,
        ),
        (
            BootstrapState::GidMapped,
            BootstrapEvent::MapReplied(RpcReply::Failed(MapError::Internal)),
            EXIT_MAP_FAILED,
        ),
        (BootstrapState::UidMapped, BootstrapEvent::ExecFailed, EXIT_EXEC_FAILED),
    ];
    for (state, event, code) in cases {
        let failed = bootstrap_step(state, event);
        assert_eq!(failed, BootstrapState::Failed(code));
        assert_ne!(code, 0);
        // Terminal: no further event moves it, and it never execs.
        assert_eq!(bootstrap_step(failed, BootstrapEvent::ConnectOk), failed);
        assert_eq!(bootstrap_step(failed, BootstrapEvent::MapReplied(RpcReply::Ack)), failed);
        assert_ne!(next_bootstrap_action(&failed, pid, uid), BootstrapAction::Exec);
    }
}

#[test]
fn bootstrap_orders_gid_before_uid() {
    let pid = 10u32;
    let uid = 20u32;
    // The first mapping request, right after the ping, is the GID one.
    match next_bootstrap_action(&BootstrapState::Pinged, pid, uid) {
        BootstrapAction::SendMap(r) => assert_eq!(r, MapRequest::gid_for(pid, uid)),
        other => panic!("expected a mapping request, got {:?}", other),
    }
    // Only once the GID map is acknowledged is the UID one requested.
    match next_bootstrap_action(&BootstrapState::GidMapped, pid, uid) {
        BootstrapAction::SendMap(r) => assert_eq!(r, MapRequest::uid_for(pid, uid)),
        other => panic!("expected a mapping request, got {:?}", other),
    }
}
