use supervisor::config::{AppConfig, BackupConfig, Config, UpdateConfig};
use supervisor::process::{ExitStatus, ProcessError};
use supervisor::schedule::{current_timezone, Interval};
use supervisor::orchestration::{
    exit_code, final_exit_code, LoopAction, LoopEvent, LoopState, Supervisor, FAILURE_CODE,
};
use supervisor::time::{Duration, UtcTime, ZonedTime};
use supervisor::workflow::{Step, WorkflowError};

// 2024-06-01T00:00:00Z, in the Melbourne winter.
const JUNE_FIRST: i64 = 1_717_200_000;

fn at(secs: i64) -> ZonedTime {
    ZonedTime { secs, nanos: 0, zone: current_timezone() }
}

fn span(secs: u64) -> Option<Duration> {
    Some(Duration { secs, nanos: 0 })
}

fn config(backup: Option<Interval>, update: Option<Interval>) -> Config {
    Config {
        backup: backup.map(|interval| BackupConfig {
            repo: "/repo".to_string(),
            src: "/data".to_string(),
            interval,
            strategy: None,
            environments: None,
        }),
        app: AppConfig {
            image: "img".to_string(),
            args: None,
            volumes: None,
            ports: None,
            network_mode: None,
            environments: None,
            cap_add: None,
        },
        update: update.map(|interval| UpdateConfig { interval }),
        restore: vec![],
    }
}

fn hourly_backup() -> Supervisor {
    Supervisor::new(&config(Some(Interval::Hourly), None), None, current_timezone())
}

#[test]
fn new_supervisor_takes_schedules_from_the_configuration() {
    let s = Supervisor::new(
        &config(Some(Interval::Weekly), Some(Interval::Hourly)),
        Some(UtcTime { secs: 77, nanos: 5 }),
        current_timezone(),
    );
    assert!(matches!(s.backup, Some(Interval::Weekly)));
    assert!(matches!(s.update, Interval::Hourly));
    assert_eq!(s.last_backup, Some(ZonedTime { secs: 77, nanos: 5, zone: current_timezone() }));
    assert_eq!(s.last_update, None);
    assert_eq!(s.state, LoopState::Running);
}

#[test]
fn new_supervisor_updates_daily_by_default() {
    let s = Supervisor::new(&config(None, None), None, current_timezone());
    assert!(s.backup.is_none());
    assert!(matches!(s.update, Interval::Daily));
    assert_eq!(s.last_backup, None);
}

#[test]
fn tick_computes_both_waits() {
    let mut s = hourly_backup();
    let action = s.step(LoopEvent::Tick, at(JUNE_FIRST), false);
    assert_eq!(action, LoopAction::Wait { backup_in: span(3600), update_in: span(86_400) });
    assert_eq!(s.next_waits(at(JUNE_FIRST)), action);
}

#[test]
fn without_backup_policy_the_backup_timer_never_fires() {
    let mut s = Supervisor::new(&config(None, Some(Interval::Hourly)), None, current_timezone());
    assert_eq!(
        s.step(LoopEvent::Tick, at(JUNE_FIRST), false),
        LoopAction::Wait { backup_in: None, update_in: span(3600) }
    );
    assert_eq!(s.step(LoopEvent::BackupDue, at(JUNE_FIRST), false), LoopAction::Nothing);
}

#[test]
fn overdue_backup_after_downtime_fires_at_once() {
    let mut s = Supervisor::new(
        &config(Some(Interval::Daily), None),
        Some(UtcTime { secs: JUNE_FIRST - 3 * 86_400, nanos: 0 }),
        current_timezone(),
    );
    assert_eq!(
        s.step(LoopEvent::Tick, at(JUNE_FIRST), false),
        LoopAction::Wait { backup_in: span(0), update_in: span(86_400) }
    );
}

#[test]
fn timers_start_their_workflows() {
    let mut s = hourly_backup();
    assert_eq!(s.step(LoopEvent::BackupDue, at(JUNE_FIRST), false), LoopAction::RunBackup);
    assert_eq!(s.step(LoopEvent::UpdateDue, at(JUNE_FIRST), false), LoopAction::RunUpdate);
    assert_eq!(s.state, LoopState::Running);
}

#[test]
fn finished_backup_is_recorded_and_the_loop_waits_again() {
    let mut s = hourly_backup();
    let done = at(JUNE_FIRST + 10);
    assert_eq!(
        s.step(LoopEvent::BackupDone, done, false),
        LoopAction::Wait { backup_in: span(3600), update_in: span(86_400) }
    );
    assert_eq!(s.last_backup, Some(done));
    assert_eq!(s.last_update, None);
    assert_eq!(
        s.step(LoopEvent::Tick, at(JUNE_FIRST + 70), false),
        LoopAction::Wait { backup_in: span(3540), update_in: span(86_400) }
    );
}

#[test]
fn finished_update_is_recorded_whether_or_not_the_app_restarted() {
    let mut s = hourly_backup();
    let done = at(JUNE_FIRST + 10);
    assert_eq!(
        s.step(LoopEvent::UpdateDone, done, false),
        LoopAction::Wait { backup_in: span(3600), update_in: span(86_400) }
    );
    assert_eq!(s.last_update, Some(done));
    assert_eq!(s.last_backup, None);
}

#[test]
fn either_order_of_backup_and_update_gives_the_same_state() {
    let mut a = hourly_backup();
    let mut b = hourly_backup();
    let first = at(JUNE_FIRST);
    let second = at(JUNE_FIRST + 1);
    a.step(LoopEvent::BackupDone, first, false);
    a.step(LoopEvent::UpdateDone, first, false);
    b.step(LoopEvent::UpdateDone, first, false);
    b.step(LoopEvent::BackupDone, first, false);
    assert_eq!(a.last_backup, b.last_backup);
    assert_eq!(a.last_update, b.last_update);
    assert_eq!(
        a.step(LoopEvent::Tick, second, false),
        b.step(LoopEvent::Tick, second, false)
    );
}

#[test]
fn application_exit_ends_the_run_with_its_status() {
    let mut s = hourly_backup();
    let status = ExitStatus { code: Some(3) };
    assert_eq!(s.step(LoopEvent::AppExited(Ok(status)), at(JUNE_FIRST), false), LoopAction::Exit(status));
    assert_eq!(s.state, LoopState::Stopped);
    assert_eq!(s.step(LoopEvent::Tick, at(JUNE_FIRST), false), LoopAction::Nothing);
    assert_eq!(s.step(LoopEvent::BackupDue, at(JUNE_FIRST), false), LoopAction::Nothing);
}

#[test]
fn unobservable_application_exit_is_fatal() {
    let mut s = hourly_backup();
    assert_eq!(
        s.step(LoopEvent::AppExited(Err(ProcessError::WaitFailed)), at(JUNE_FIRST), false),
        LoopAction::Fail(WorkflowError::Wait(Step::App, ProcessError::WaitFailed))
    );
    assert_eq!(s.state, LoopState::Stopped);
}

#[test]
fn failed_workflow_ends_the_run_with_its_error() {
    let mut s = hourly_backup();
    let error = WorkflowError::ToolFailed(Step::Backup);
    assert_eq!(
        s.step(LoopEvent::WorkflowFailed(error), at(JUNE_FIRST), true),
        LoopAction::Fail(error)
    );
    assert_eq!(s.state, LoopState::Stopped);
}

#[test]
fn shutdown_during_a_timer_wait_stops_the_loop_at_once() {
    let mut s = Supervisor::new(&config(Some(Interval::Hourly), None), None, current_timezone());
    // The last backup ran fifty minutes ago: the next one is ten minutes out.
    s.last_backup = Some(at(JUNE_FIRST - 3000));
    assert_eq!(
        s.step(LoopEvent::Tick, at(JUNE_FIRST), false),
        LoopAction::Wait { backup_in: span(600), update_in: span(86_400) }
    );
    assert_eq!(
        s.step(LoopEvent::ShutdownRaised, at(JUNE_FIRST + 1), false),
        LoopAction::Fail(WorkflowError::ShuttingDown)
    );
    assert_eq!(s.state, LoopState::Stopped);
}

#[test]
fn raised_shutdown_overrides_every_event_but_a_failure() {
    let events = [
        LoopEvent::Tick,
        LoopEvent::BackupDue,
        LoopEvent::UpdateDue,
        LoopEvent::BackupDone,
        LoopEvent::UpdateDone,
        LoopEvent::AppExited(Ok(ExitStatus { code: Some(0) })),
        LoopEvent::ShutdownRaised,
    ];
    for event in events {
        let mut s = hourly_backup();
        assert_eq!(
            s.step(event, at(JUNE_FIRST), true),
            LoopAction::Fail(WorkflowError::ShuttingDown)
        );
        assert_eq!(s.state, LoopState::Stopped);
    }
}

#[test]
fn exit_code_mirrors_the_application() {
    assert_eq!(exit_code(ExitStatus { code: Some(0) }), 0);
    assert_eq!(exit_code(ExitStatus { code: Some(3) }), 3);
    assert_eq!(exit_code(ExitStatus { code: Some(255) }), 255);
    assert_eq!(exit_code(ExitStatus { code: Some(256) }), 1);
    assert_eq!(exit_code(ExitStatus { code: Some(-1) }), 1);
    assert_eq!(exit_code(ExitStatus { code: None }), 1);
}

#[test]
fn final_exit_code_of_each_action() {
    assert_eq!(FAILURE_CODE, 1);
    assert_eq!(final_exit_code(&LoopAction::Exit(ExitStatus { code: Some(7) })), Some(7));
    assert_eq!(final_exit_code(&LoopAction::Exit(ExitStatus { code: None })), Some(1));
    assert_eq!(final_exit_code(&LoopAction::Fail(WorkflowError::ShuttingDown)), Some(1));
    assert_eq!(final_exit_code(&LoopAction::RunBackup), None);
    assert_eq!(final_exit_code(&LoopAction::Nothing), None);
    assert_eq!(
        final_exit_code(&LoopAction::Wait { backup_in: None, update_in: None }),
        None
    );
}

#[test]
fn observe_reads_the_coordinator() {
    let shutdown = async_shutdown::ShutdownManager::<bool>::new();
    let mut s = hourly_backup();
    assert_eq!(
        s.observe(LoopEvent::Tick, at(JUNE_FIRST), &shutdown),
        LoopAction::Wait { backup_in: span(3600), update_in: span(86_400) }
    );
    assert_eq!(s.observe(LoopEvent::BackupDue, at(JUNE_FIRST), &shutdown), LoopAction::RunBackup);
    assert!(!shutdown.is_shutdown_triggered());
    assert!(shutdown.trigger_shutdown(true).is_ok());
    assert_eq!(
        s.observe(LoopEvent::Tick, at(JUNE_FIRST), &shutdown),
        LoopAction::Fail(WorkflowError::ShuttingDown)
    );
    assert_eq!(s.state, LoopState::Stopped);
}

#[test]
fn failed_run_raises_the_coordinator() {
    let shutdown = async_shutdown::ShutdownManager::<bool>::new();
    let mut s = hourly_backup();
    let error = WorkflowError::ToolFailed(Step::Backup);
    assert_eq!(
        s.observe(LoopEvent::WorkflowFailed(error), at(JUNE_FIRST), &shutdown),
        LoopAction::Fail(error)
    );
    assert!(shutdown.is_shutdown_triggered());
}

#[test]
fn application_exit_does_not_raise_the_coordinator() {
    let shutdown = async_shutdown::ShutdownManager::<bool>::new();
    let mut s = hourly_backup();
    let status = ExitStatus { code: Some(0) };
    assert_eq!(
        s.observe(LoopEvent::AppExited(Ok(status)), at(JUNE_FIRST), &shutdown),
        LoopAction::Exit(status)
    );
    assert!(!shutdown.is_shutdown_triggered());
}
