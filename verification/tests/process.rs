use supervisor::process::{
    monitor_exit_status, redirect_error, redirect_output, ExitStatus, MonitorAction, MonitorEvent,
    MonitorState, Process, ProcessError, SpawnError, SpawnReport, Stream, GRACE_PERIOD_SECS,
};
use supervisor::text::{decimal_string, log_line};

fn good_report(pid: u32) -> SpawnReport {
    SpawnReport { started: true, stdout_captured: true, stderr_captured: true, pid: Some(pid) }
}

fn code(c: i32) -> ExitStatus {
    ExitStatus { code: Some(c) }
}

const ALL_STATES: [MonitorState; 5] = [
    MonitorState::Running,
    MonitorState::Signaling,
    MonitorState::Signaled,
    MonitorState::Killed,
    MonitorState::Exited,
];

fn all_events() -> Vec<MonitorEvent> {
    vec![
        MonitorEvent::Exited(code(0)),
        MonitorEvent::Exited(code(3)),
        MonitorEvent::WaitFailed,
        MonitorEvent::ShutdownRaised,
        MonitorEvent::SignalSent,
        MonitorEvent::SignalFailed,
        MonitorEvent::GraceElapsed,
        MonitorEvent::KillFailed,
    ]
}

#[test]
fn new_process_is_labelled_with_its_pid() {
    let p = Process::new("app", good_report(4242)).ok().unwrap();
    assert_eq!(p.label, "app(4242)");
    assert_eq!(p.pid, 4242);
    assert_eq!(p.state, MonitorState::Running);
    assert_eq!(p.wait(), None);
}

#[test]
fn new_process_reports_spawn_errors_in_order() {
    let none = SpawnReport { started: false, stdout_captured: false, stderr_captured: false, pid: None };
    assert_eq!(Process::new("x", none).err(), Some(SpawnError::StartFailed));
    let no_out = SpawnReport { started: true, stdout_captured: false, stderr_captured: false, pid: None };
    assert_eq!(Process::new("x", no_out).err(), Some(SpawnError::NoStdout));
    let no_err = SpawnReport { started: true, stdout_captured: true, stderr_captured: false, pid: None };
    assert_eq!(Process::new("x", no_err).err(), Some(SpawnError::NoStderr));
    let no_pid = SpawnReport { started: true, stdout_captured: true, stderr_captured: true, pid: None };
    assert_eq!(Process::new("x", no_pid).err(), Some(SpawnError::NoPid));
}

#[test]
fn decimal_numerals() {
    assert_eq!(decimal_string(0), "0");
    assert_eq!(decimal_string(7), "7");
    assert_eq!(decimal_string(10), "10");
    assert_eq!(decimal_string(1234567890), "1234567890");
    assert_eq!(decimal_string(u32::MAX), "4294967295");
}

#[test]
fn natural_exit_is_published() {
    let mut p = Process::new("app", good_report(1)).ok().unwrap();
    let action = p.on_event(MonitorEvent::Exited(code(3)));
    assert_eq!(action, MonitorAction::Publish(Ok(code(3))));
    assert_eq!(p.state, MonitorState::Exited);
    assert_eq!(p.wait(), Some(Ok(code(3))));
}

#[test]
fn wait_returns_the_same_outcome_every_time() {
    let mut p = Process::new("app", good_report(1)).ok().unwrap();
    p.on_event(MonitorEvent::Exited(code(0)));
    let first = p.wait();
    for event in all_events() {
        assert_eq!(p.on_event(event), MonitorAction::Nothing);
        assert_eq!(p.wait(), first);
    }
    assert_eq!(p.terminate_and_wait(), (MonitorAction::Nothing, first));
    assert_eq!(p.wait(), Some(Ok(code(0))));
}

#[test]
fn wait_failure_is_published_as_error() {
    let mut p = Process::new("app", good_report(1)).ok().unwrap();
    assert_eq!(
        p.on_event(MonitorEvent::WaitFailed),
        MonitorAction::Publish(Err(ProcessError::WaitFailed))
    );
    assert_eq!(p.wait(), Some(Err(ProcessError::WaitFailed)));
}

#[test]
fn graceful_termination_within_the_grace_period() {
    let mut p = Process::new("app", good_report(1)).ok().unwrap();
    assert_eq!(p.on_event(MonitorEvent::ShutdownRaised), MonitorAction::SendTerminate);
    assert_eq!(p.state, MonitorState::Signaling);
    assert_eq!(
        p.on_event(MonitorEvent::SignalSent),
        MonitorAction::AwaitExit { grace_secs: 5 }
    );
    assert_eq!(p.state, MonitorState::Signaled);
    let ended = ExitStatus { code: None };
    assert_eq!(p.on_event(MonitorEvent::Exited(ended)), MonitorAction::Publish(Ok(ended)));
    assert_eq!(p.wait(), Some(Ok(ended)));
}

#[test]
fn process_that_ignores_the_signal_is_killed_after_the_grace_period() {
    assert_eq!(GRACE_PERIOD_SECS, 5);
    let mut p = Process::new("app", good_report(1)).ok().unwrap();
    p.on_event(MonitorEvent::ShutdownRaised);
    p.on_event(MonitorEvent::SignalSent);
    assert_eq!(p.wait(), None);
    assert_eq!(p.on_event(MonitorEvent::GraceElapsed), MonitorAction::ForceKill);
    assert_eq!(p.state, MonitorState::Killed);
    assert_eq!(p.wait(), None);
    let killed = ExitStatus { code: None };
    assert_eq!(p.on_event(MonitorEvent::Exited(killed)), MonitorAction::Publish(Ok(killed)));
    assert_eq!(p.state, MonitorState::Exited);
}

#[test]
fn kill_is_asked_for_only_after_the_grace_period() {
    for state in ALL_STATES {
        for event in all_events() {
            let (next, action) = monitor_exit_status(state, event);
            if action == MonitorAction::ForceKill {
                assert_eq!(state, MonitorState::Signaled);
                assert_eq!(event, MonitorEvent::GraceElapsed);
                assert_eq!(next, MonitorState::Killed);
            }
            if let MonitorAction::AwaitExit { grace_secs } = action {
                assert_eq!(grace_secs, 5);
                assert_eq!(state, MonitorState::Signaling);
            }
            if let MonitorAction::Publish(_) = action {
                assert_ne!(state, MonitorState::Exited);
                assert_eq!(next, MonitorState::Exited);
            }
        }
    }
}

#[test]
fn undelivered_signal_still_leads_to_the_kill() {
    let mut p = Process::new("app", good_report(1)).ok().unwrap();
    p.on_event(MonitorEvent::ShutdownRaised);
    assert_eq!(
        p.on_event(MonitorEvent::SignalFailed),
        MonitorAction::AwaitExit { grace_secs: 5 }
    );
    assert_eq!(p.on_event(MonitorEvent::GraceElapsed), MonitorAction::ForceKill);
}

#[test]
fn failed_kill_is_published_as_error() {
    let mut p = Process::new("app", good_report(1)).ok().unwrap();
    p.on_event(MonitorEvent::ShutdownRaised);
    p.on_event(MonitorEvent::SignalSent);
    p.on_event(MonitorEvent::GraceElapsed);
    assert_eq!(
        p.on_event(MonitorEvent::KillFailed),
        MonitorAction::Publish(Err(ProcessError::KillFailed))
    );
    assert_eq!(p.wait(), Some(Err(ProcessError::KillFailed)));
}

#[test]
fn events_out_of_turn_change_nothing() {
    let mut p = Process::new("app", good_report(1)).ok().unwrap();
    for event in [
        MonitorEvent::SignalSent,
        MonitorEvent::SignalFailed,
        MonitorEvent::GraceElapsed,
        MonitorEvent::KillFailed,
    ] {
        assert_eq!(p.on_event(event), MonitorAction::Nothing);
        assert_eq!(p.state, MonitorState::Running);
    }
    p.on_event(MonitorEvent::ShutdownRaised);
    assert_eq!(p.on_event(MonitorEvent::ShutdownRaised), MonitorAction::Nothing);
    assert_eq!(p.on_event(MonitorEvent::GraceElapsed), MonitorAction::Nothing);
    assert_eq!(p.state, MonitorState::Signaling);
}

#[test]
fn terminate_and_wait_signals_a_running_process() {
    let mut p = Process::new("app", good_report(1)).ok().unwrap();
    assert!(!p.shutdown.is_shutdown_triggered());
    assert_eq!(p.terminate_and_wait(), (MonitorAction::SendTerminate, None));
    assert_eq!(p.state, MonitorState::Signaling);
    assert!(p.shutdown.is_shutdown_triggered());
    assert_eq!(p.terminate_and_wait(), (MonitorAction::Nothing, None));
    assert!(p.shutdown.is_shutdown_triggered());
}

#[test]
fn terminating_one_process_leaves_the_others_alone() {
    let mut app = Process::new("app", good_report(1)).ok().unwrap();
    let backup = Process::new("backup", good_report(2)).ok().unwrap();
    app.terminate_and_wait();
    assert!(app.shutdown.is_shutdown_triggered());
    assert!(!backup.shutdown.is_shutdown_triggered());
    assert_eq!(backup.state, MonitorState::Running);
}

#[test]
fn exit_status_success_is_code_zero() {
    assert!(code(0).success());
    assert!(!code(1).success());
    assert!(!code(-1).success());
    assert!(!ExitStatus { code: None }.success());
}

#[test]
fn output_line_is_logged_under_the_label() {
    let line = redirect_output("app(7)", "listening on :80 \r\n").unwrap();
    assert_eq!(line.stream, Stream::Stdout);
    assert_eq!(line.text, "[app(7)]: listening on :80");
}

#[test]
fn error_line_is_logged_under_the_label() {
    let line = redirect_error("backup(9)", "  warning: slow\n").unwrap();
    assert_eq!(line.stream, Stream::Stderr);
    assert_eq!(line.text, "[backup(9)]:   warning: slow");
}

#[test]
fn blank_line_is_logged_empty_and_end_of_stream_is_not_logged() {
    assert_eq!(redirect_output("app(7)", "\n").unwrap().text, "[app(7)]: ");
    assert!(redirect_output("app(7)", "").is_none());
    assert!(redirect_error("app(7)", "").is_none());
}

#[test]
fn log_line_format() {
    assert_eq!(log_line("supervisor", "Shutting down"), "[supervisor]: Shutting down");
    assert_eq!(log_line("", ""), "[]: ");
}
