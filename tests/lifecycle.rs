use voxtube::error::StartError;
use voxtube::health::{health_step, HealthAction, HealthCheckPolicy, HealthEvent};
use voxtube::probe::{port_available, ConnectOutcome};
use voxtube::shutdown::{
    ChildStatus, ShutdownAction, ShutdownController, ShutdownPhase, ShutdownPolicy,
    TerminateStrategy,
};
use voxtube::supervisor::{HandleSlot, StartAction, StartEvent, StartPhase, StartSequence};

#[test]
fn probe_refused_means_free() {
    assert!(port_available(ConnectOutcome::Refused));
    assert!(!port_available(ConnectOutcome::Connected));
    assert!(!port_available(ConnectOutcome::OtherError));
}

#[test]
fn health_success_statuses() {
    let p = HealthCheckPolicy::standard();
    for code in [200u16, 204, 299] {
        assert_eq!(health_step(&p, HealthEvent::Response { status: code }), HealthAction::Healthy);
    }
    for code in [0u16, 99, 199, 300, 404, 503, 999, 1000, u16::MAX] {
        assert_eq!(
            health_step(&p, HealthEvent::Response { status: code }),
            HealthAction::Sleep { ms: 200 }
        );
    }
    assert_eq!(health_step(&p, HealthEvent::RequestFailed), HealthAction::Sleep { ms: 200 });
}

#[test]
fn health_ready_at_once() {
    let p = HealthCheckPolicy::standard();
    assert_eq!(health_step(&p, HealthEvent::Tick { elapsed_ms: 0 }), HealthAction::SendRequest);
    assert_eq!(health_step(&p, HealthEvent::Response { status: 200 }), HealthAction::Healthy);
}

#[test]
fn health_times_out_within_one_interval_of_deadline() {
    let p = HealthCheckPolicy::standard();
    let mut t: u64 = 0;
    loop {
        match health_step(&p, HealthEvent::Tick { elapsed_ms: t }) {
            HealthAction::SendRequest => {}
            HealthAction::TimedOut => break,
            other => panic!("unexpected {:?}", other),
        }
        match health_step(&p, HealthEvent::Response { status: 503 }) {
            HealthAction::Sleep { ms } => t += ms,
            other => panic!("unexpected {:?}", other),
        }
    }
    assert!(t > 4000 && t <= 4200);
    assert_eq!(t, 4200);
    assert_eq!(health_step(&p, HealthEvent::Tick { elapsed_ms: 4000 }), HealthAction::SendRequest);
    assert_eq!(health_step(&p, HealthEvent::Tick { elapsed_ms: 4001 }), HealthAction::TimedOut);
}

#[test]
fn shutdown_exit_in_grace_never_kills() {
    let (mut c, first) = ShutdownController::begin(ShutdownPolicy::standard(TerminateStrategy::Cooperative));
    assert_eq!(first, ShutdownAction::SendTerminate);
    let mut kills = 0;
    for t in [0u64, 100, 200, 300] {
        let a = c.observe(ChildStatus::Running { elapsed_ms: t });
        assert_eq!(a, ShutdownAction::Sleep { ms: 100 });
    }
    let a = c.observe(ChildStatus::Exited);
    if a == ShutdownAction::ForceKill {
        kills += 1;
    }
    assert_eq!(a, ShutdownAction::Done);
    assert_eq!(kills, 0);
    assert!(c.is_finished());
}

#[test]
fn shutdown_ignored_request_killed_once() {
    let (mut c, first) = ShutdownController::begin(ShutdownPolicy::standard(TerminateStrategy::Cooperative));
    assert_eq!(first, ShutdownAction::SendTerminate);
    let mut kills = 0;
    let mut t: u64 = 0;
    loop {
        let a = c.observe(ChildStatus::Running { elapsed_ms: t });
        match a {
            ShutdownAction::Sleep { ms } => t += ms,
            ShutdownAction::ForceKill => {
                kills += 1;
                break;
            }
            other => panic!("unexpected {:?}", other),
        }
    }
    assert_eq!(t, 2000);
    assert_eq!(c.phase, ShutdownPhase::Forced);
    assert_eq!(c.observe(ChildStatus::Exited), ShutdownAction::Done);
    assert_eq!(kills, 1);
    assert!(c.is_finished());
}

#[test]
fn shutdown_status_failure_escalates() {
    let (mut c, _) = ShutdownController::begin(ShutdownPolicy::standard(TerminateStrategy::Cooperative));
    assert_eq!(c.observe(ChildStatus::QueryFailed), ShutdownAction::ForceKill);
    assert_eq!(c.observe(ChildStatus::QueryFailed), ShutdownAction::Done);
}

#[test]
fn shutdown_forced_only_kills_at_once() {
    let (mut c, first) = ShutdownController::begin(ShutdownPolicy::standard(TerminateStrategy::ForcedOnly));
    assert_eq!(first, ShutdownAction::ForceKill);
    assert_eq!(c.observe(ChildStatus::Exited), ShutdownAction::Done);
}

#[test]
fn shutdown_twice_on_exited_child() {
    let policy = ShutdownPolicy::standard(TerminateStrategy::Cooperative);
    for _ in 0..2 {
        let (mut c, first) = ShutdownController::begin(policy);
        assert_eq!(first, ShutdownAction::SendTerminate);
        assert_eq!(c.observe(ChildStatus::Exited), ShutdownAction::Done);
        assert_eq!(c.observe(ChildStatus::Exited), ShutdownAction::Done);
        assert_eq!(c.observe(ChildStatus::QueryFailed), ShutdownAction::Done);
    }
    let mut slot: HandleSlot<u32> = HandleSlot::new();
    assert!(slot.install(7).is_ok());
    assert_eq!(slot.take(), Some(7));
    assert_eq!(slot.take(), None);
}

#[test]
fn start_succeeds_then_stop_empties_slot() {
    let (mut s, a) = StartSequence::new(3847);
    assert!(matches!(a, StartAction::ResolveConfig));
    assert!(matches!(s.advance(StartEvent::Succeeded), StartAction::OpenLog));
    assert!(matches!(s.advance(StartEvent::Succeeded), StartAction::ProbePort { port: 3847 }));
    assert!(matches!(s.advance(StartEvent::PortProbed { available: true }), StartAction::Spawn));
    assert!(matches!(s.advance(StartEvent::Succeeded), StartAction::WaitHealth));
    assert!(matches!(s.advance(StartEvent::Succeeded), StartAction::Ready));
    assert_eq!(s.phase, StartPhase::Started);
    let mut slot: HandleSlot<&str> = HandleSlot::new();
    assert!(slot.install("child").is_ok());
    assert!(slot.is_held());
    assert_eq!(slot.take(), Some("child"));
    assert!(!slot.is_held());
}

#[test]
fn start_with_port_taken_never_spawns() {
    let (mut s, _) = StartSequence::new(3847);
    s.advance(StartEvent::Succeeded);
    s.advance(StartEvent::Succeeded);
    match s.advance(StartEvent::PortProbed { available: false }) {
        StartAction::Abort(e) => assert_eq!(
            e.message(),
            "Port 3847 is already in use. Is another instance of VoxTube running?"
        ),
        other => panic!("unexpected {:?}", other),
    }
    assert_eq!(s.phase, StartPhase::Failed);
    assert!(matches!(s.advance(StartEvent::Succeeded), StartAction::Idle));
    assert!(matches!(s.advance(StartEvent::PortProbed { available: true }), StartAction::Idle));
}

#[test]
fn start_health_failure_kills_then_reports() {
    let (mut s, _) = StartSequence::new(3847);
    s.advance(StartEvent::Succeeded);
    s.advance(StartEvent::Succeeded);
    s.advance(StartEvent::PortProbed { available: true });
    s.advance(StartEvent::Succeeded);
    let a = s.advance(StartEvent::Failed(StartError::HealthTimeout { deadline_secs: 4 }));
    assert!(matches!(a, StartAction::KillChild));
    assert!(matches!(s.advance(StartEvent::PortProbed { available: true }), StartAction::KillChild));
    match s.advance(StartEvent::Succeeded) {
        StartAction::Abort(e) => assert_eq!(e.message(), "Server did not become healthy within 4s"),
        other => panic!("unexpected {:?}", other),
    }
    assert_eq!(s.phase, StartPhase::Failed);
}

#[test]
fn start_early_failures_abort() {
    let (mut s, _) = StartSequence::new(3847);
    let a = s.advance(StartEvent::Failed(StartError::UnsupportedArchitecture { arch: "sparc".to_string() }));
    assert!(matches!(a, StartAction::Abort(StartError::UnsupportedArchitecture { .. })));

    let (mut s, _) = StartSequence::new(3847);
    s.advance(StartEvent::Succeeded);
    let a = s.advance(StartEvent::Failed(StartError::LogHandle { detail: "x".to_string() }));
    assert!(matches!(a, StartAction::Abort(StartError::LogHandle { .. })));

    let (mut s, _) = StartSequence::new(3847);
    s.advance(StartEvent::Succeeded);
    s.advance(StartEvent::Succeeded);
    s.advance(StartEvent::PortProbed { available: true });
    let a = s.advance(StartEvent::Failed(StartError::Spawn { path: "p".to_string(), detail: "d".to_string() }));
    assert!(matches!(a, StartAction::Abort(StartError::Spawn { .. })));
    assert_eq!(s.phase, StartPhase::Failed);
}

#[test]
fn slot_refuses_second_handle() {
    let mut slot: HandleSlot<u32> = HandleSlot::new();
    assert!(!slot.is_held());
    assert_eq!(slot.install(1), Ok(()));
    assert_eq!(slot.install(2), Err(2));
    assert_eq!(slot.take(), Some(1));
}
