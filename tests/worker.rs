use polkadot_cli::error::{Error, FaultKind, Platform, WorkerMode};
use polkadot_cli::worker::{
    parse_mode, platform_from_os, platform_supports_workers, Worker, WorkerAction, WorkerEvent,
    WorkerPhase, EXIT_FAILURE, EXIT_SUCCESS,
};

#[test]
fn bind_failure_is_transport_error() {
    let mut w = Worker::new(WorkerMode::Prepare);
    assert!(matches!(w.step(WorkerEvent::Launched(Platform::Linux)), WorkerAction::Bind));
    match w.step(WorkerEvent::Bound(Err("/tmp/no/such/socket: not found".to_string()))) {
        WorkerAction::Exit { code, reason: Some(Error::Transport(m)) } => {
            assert_eq!(code, EXIT_FAILURE);
            assert_eq!(m, "/tmp/no/such/socket: not found");
        },
        other => panic!("unexpected action {:?}", other),
    }
    assert!(w.is_done());
    assert_eq!(w.phase, WorkerPhase::Refused);
    assert!(matches!(w.step(WorkerEvent::Request), WorkerAction::Nothing));
}

#[test]
fn unsupported_platform_refuses_both_modes_without_binding() {
    for mode in [WorkerMode::Prepare, WorkerMode::Execute] {
        let mut w = Worker::new(mode);
        match w.step(WorkerEvent::Launched(Platform::Android)) {
            WorkerAction::Exit { code, reason: Some(e) } => {
                assert_eq!(code, EXIT_FAILURE);
                assert!(matches!(e, Error::PlatformUnsupported { platform: Platform::Android, .. }));
            },
            other => panic!("unexpected action {:?}", other),
        }
        assert_eq!(w.phase, WorkerPhase::Refused);
        assert!(matches!(w.step(WorkerEvent::Bound(Ok(()))), WorkerAction::Nothing));
    }
}

#[test]
fn unsupported_platform_message_names_platform_and_mode() {
    let e = Error::PlatformUnsupported { platform: Platform::Android, mode: WorkerMode::Execute };
    assert_eq!(e.message(), "PVF execution workers are not supported under this platform: android");
    let e = Error::PlatformUnsupported { platform: Platform::Android, mode: WorkerMode::Prepare };
    assert_eq!(e.message(), "PVF preparation workers are not supported under this platform: android");
}

#[test]
fn serving_dispatches_and_survives_bad_requests() {
    let mut w = Worker::new(WorkerMode::Execute);
    w.step(WorkerEvent::Launched(Platform::Linux));
    assert!(matches!(w.step(WorkerEvent::Bound(Ok(()))), WorkerAction::Accept));
    assert!(matches!(w.step(WorkerEvent::Request), WorkerAction::Dispatch(WorkerMode::Execute)));
    let bad = Error::ExecutionFault(FaultKind::Trap, "unreachable".to_string());
    match w.step(WorkerEvent::Handled(Err(bad))) {
        WorkerAction::Reply(Err(Error::ExecutionFault(FaultKind::Trap, m))) => assert_eq!(m, "unreachable"),
        other => panic!("unexpected action {:?}", other),
    }
    assert_eq!(w.phase, WorkerPhase::Serving);
    assert!(matches!(w.step(WorkerEvent::Request), WorkerAction::Dispatch(WorkerMode::Execute)));
    match w.step(WorkerEvent::Handled(Ok(vec![1, 2]))) {
        WorkerAction::Reply(Ok(v)) => assert_eq!(v, vec![1, 2]),
        other => panic!("unexpected action {:?}", other),
    }
}

#[test]
fn shutdown_exits_cleanly_and_lost_channel_fails() {
    let mut w = Worker::new(WorkerMode::Prepare);
    w.step(WorkerEvent::Launched(Platform::MacOs));
    w.step(WorkerEvent::Bound(Ok(())));
    assert!(matches!(w.step(WorkerEvent::Shutdown), WorkerAction::Exit { code: EXIT_SUCCESS, reason: None }));
    assert_eq!(w.phase, WorkerPhase::Terminated);

    let mut w = Worker::new(WorkerMode::Prepare);
    w.step(WorkerEvent::Launched(Platform::Linux));
    w.step(WorkerEvent::Bound(Ok(())));
    match w.step(WorkerEvent::ChannelLost("reset".to_string())) {
        WorkerAction::Exit { code: EXIT_FAILURE, reason: Some(Error::Transport(m)) } => assert_eq!(m, "reset"),
        other => panic!("unexpected action {:?}", other),
    }
}

#[test]
fn modes_and_platforms_are_read_from_names() {
    assert_eq!(parse_mode("prepare"), Some(WorkerMode::Prepare));
    assert_eq!(parse_mode("execute"), Some(WorkerMode::Execute));
    assert_eq!(parse_mode("prepare "), None);
    assert_eq!(parse_mode(""), None);
    assert_eq!(platform_from_os("linux"), Platform::Linux);
    assert_eq!(platform_from_os("android"), Platform::Android);
    assert_eq!(platform_from_os("freebsd"), Platform::Other);
    assert!(!platform_supports_workers(Platform::Android));
    assert!(platform_supports_workers(Platform::Other));
}
