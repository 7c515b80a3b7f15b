use cargo_apk::monitor::{
    DeviceFailure, Monitor, MonitorAction, MonitorEvent, MonitorState,
};

#[test]
fn the_full_session_runs_install_to_teardown() {
    let mut m = Monitor::new(false);
    assert_eq!(m.state, MonitorState::Install);

    let a = m.step(MonitorEvent::InstallSucceeded);
    assert_eq!(a, MonitorAction::LaunchPackage);

    let a = m.step(MonitorEvent::LaunchSucceeded);
    assert_eq!(a, MonitorAction::PollAfterDelay);
    assert_eq!(m.state, MonitorState::WaitForProcess { notice_emitted: false });

    let a = m.step(MonitorEvent::PollFound { pid_text: Some(" 4217\n".to_string()) });
    assert_eq!(a, MonitorAction::SpawnLogStream { pid: "4217".to_string() });
    assert_eq!(m.state, MonitorState::Attached);

    let a = m.step(MonitorEvent::StillAlive);
    assert_eq!(a, MonitorAction::CheckAliveAfterDelay);

    let a = m.step(MonitorEvent::ProcessGone);
    assert_eq!(a, MonitorAction::KillLogAfterGrace);

    let a = m.step(MonitorEvent::LogStreamKilled);
    assert_eq!(a, MonitorAction::Stop);
    assert_eq!(m.state, MonitorState::Done);
}

#[test]
fn the_waiting_notice_is_printed_exactly_once() {
    let mut m = Monitor::new(false);
    m.step(MonitorEvent::InstallSucceeded);
    m.step(MonitorEvent::LaunchSucceeded);

    let first = m.step(MonitorEvent::PollMissing);
    assert_eq!(first, MonitorAction::NoticeThenPollAfterDelay);

    let second = m.step(MonitorEvent::PollMissing);
    assert_eq!(second, MonitorAction::PollAfterDelay);

    let third = m.step(MonitorEvent::PollMissing);
    assert_eq!(third, MonitorAction::PollAfterDelay);
    assert_eq!(m.state, MonitorState::WaitForProcess { notice_emitted: true });

    let a = m.step(MonitorEvent::PollFound { pid_text: Some("7".to_string()) });
    assert_eq!(a, MonitorAction::SpawnLogStream { pid: "7".to_string() });
}

#[test]
fn polls_that_keep_missing_never_attach() {
    let mut m = Monitor::new(false);
    m.step(MonitorEvent::InstallSucceeded);
    m.step(MonitorEvent::LaunchSucceeded);
    for _ in 0..50 {
        let a = m.step(MonitorEvent::PollMissing);
        assert!(matches!(
            a,
            MonitorAction::PollAfterDelay | MonitorAction::NoticeThenPollAfterDelay
        ));
        assert!(matches!(m.state, MonitorState::WaitForProcess { .. }));
    }
}

#[test]
fn an_undecodable_process_id_is_fatal() {
    let mut m = Monitor::new(false);
    m.step(MonitorEvent::InstallSucceeded);
    m.step(MonitorEvent::LaunchSucceeded);
    let a = m.step(MonitorEvent::PollFound { pid_text: None });
    assert_eq!(a, MonitorAction::Report { reason: DeviceFailure::UnexpectedProcessState });
    assert_eq!(m.state, MonitorState::Failed { reason: DeviceFailure::UnexpectedProcessState });
}

#[test]
fn disabled_log_streaming_ends_after_launch() {
    let mut m = Monitor::new(true);
    m.step(MonitorEvent::InstallSucceeded);
    let a = m.step(MonitorEvent::LaunchSucceeded);
    assert_eq!(a, MonitorAction::Stop);
    assert_eq!(m.state, MonitorState::Done);
}

#[test]
fn install_and_launch_failures_are_fatal() {
    let mut m = Monitor::new(false);
    let a = m.step(MonitorEvent::InstallFailed);
    assert_eq!(a, MonitorAction::Report { reason: DeviceFailure::InstallFailed });
    assert_eq!(m.state, MonitorState::Failed { reason: DeviceFailure::InstallFailed });

    let mut m = Monitor::new(false);
    m.step(MonitorEvent::InstallSucceeded);
    let a = m.step(MonitorEvent::LaunchFailed);
    assert_eq!(a, MonitorAction::Report { reason: DeviceFailure::LaunchFailed });
}
