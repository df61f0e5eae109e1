//! The control loop: one application process, two schedules, and what the
//! loop does when a timer fires, the application ends or shutdown is raised.

use async_shutdown::ShutdownManager;
use chrono_tz::Tz;
use vstd::prelude::*;

use crate::config::Config;
use crate::process::{ExitStatus, ProcessError};
use crate::schedule::Interval;
use crate::shutdown::{is_raised, raise};
use crate::time::{Duration, UtcTime, ZonedTime};
use crate::workflow::{Step, WorkflowError};

verus! {

/// Whether the loop still runs.
#[derive(Clone, Copy, Debug, PartialEq, Eq, Structural)]
pub enum LoopState {
    Running,
    Stopped,
}

/// What the loop is told.
#[derive(Clone, Copy, Debug, PartialEq, Eq)]
pub enum LoopEvent {
    /// A new round begins.
    Tick,
    /// The backup timer fired.
    BackupDue,
    /// The update timer fired.
    UpdateDue,
    /// The backup workflow succeeded.
    BackupDone,
    /// The update workflow succeeded.
    UpdateDone,
    /// A workflow failed.
    WorkflowFailed(WorkflowError),
    /// The application ended by itself, or its end could not be awaited.
    AppExited(Result<ExitStatus, ProcessError>),
    /// Shutdown was raised while the loop waited.
    ShutdownRaised,
}

/// What the loop asks for.
#[derive(Clone, Copy, Debug, PartialEq, Eq)]
pub enum LoopAction {
    /// Nothing: the loop has stopped, or the event does not concern it.
    Nothing,
    /// Wait for whichever comes first: the backup timer, the update timer
    /// or the application's end. A timer without a wait never fires.
    Wait { backup_in: Option<Duration>, update_in: Option<Duration> },
    /// Run the backup workflow.
    RunBackup,
    /// Run the update workflow.
    RunUpdate,
    /// End the run with the application's exit status.
    Exit(ExitStatus),
    /// End the run with an error, and everything else with it.
    Fail(WorkflowError),
}

/// The control loop's memory: the two schedules and when each last ran.
#[derive(Debug)]
pub struct Supervisor {
    pub backup: Option<Interval>,
    pub update: Interval,
    pub last_backup: Option<ZonedTime>,
    pub last_update: Option<ZonedTime>,
    pub state: LoopState,
}

/// The instant of an optional timestamp, read in `zone`.
pub open spec fn zoned(t: Option<UtcTime>, zone: Tz) -> Option<ZonedTime> {
    match t {
        Some(t) => Some(ZonedTime { secs: t.secs, nanos: t.nanos, zone }),
        None => None,
    }
}

impl Supervisor {
    /// The waits of the two timers at `now`. Without a backup policy the
    /// backup timer never fires, and neither does a timer whose schedule is
    /// exhausted.
    pub open spec fn waits(self, now: ZonedTime) -> LoopAction {
        LoopAction::Wait {
            backup_in: match self.backup {
                Some(interval) => interval.next_spec(self.last_backup, now),
                None => None,
            },
            update_in: self.update.next_spec(self.last_update, now),
        }
    }

    /// The loop with the state replaced.
    pub open spec fn stopped(self) -> Supervisor {
        Supervisor { state: LoopState::Stopped, ..self }
    }

    /// The loop's reaction to an event at `now`.
    ///
    /// A stopped loop does nothing. A failed workflow ends the run with its
    /// error. Raised shutdown ends the run whatever else has happened. The
    /// application's own end ends the run with its status. A timer that
    /// fires starts its workflow; a workflow that succeeds is recorded as
    /// having run at `now`, and the loop waits again.
    pub open spec fn react(self, event: LoopEvent, now: ZonedTime, shutdown_started: bool) -> (
        Supervisor,
        LoopAction,
    ) {
        if self.state == LoopState::Stopped {
            (self, LoopAction::Nothing)
        } else if event is WorkflowFailed {
            (self.stopped(), LoopAction::Fail(event->WorkflowFailed_0))
        } else if shutdown_started || event == LoopEvent::ShutdownRaised {
            (self.stopped(), LoopAction::Fail(WorkflowError::ShuttingDown))
        } else {
            match event {
                LoopEvent::Tick => (self, self.waits(now)),
                LoopEvent::BackupDue => if self.backup is Some {
                    (self, LoopAction::RunBackup)
                } else {
                    (self, LoopAction::Nothing)
                },
                LoopEvent::UpdateDue => (self, LoopAction::RunUpdate),
                LoopEvent::BackupDone => {
                    let next = Supervisor { last_backup: Some(now), ..self };
                    (next, next.waits(now))
                },
                LoopEvent::UpdateDone => {
                    let next = Supervisor { last_update: Some(now), ..self };
                    (next, next.waits(now))
                },
                LoopEvent::AppExited(Ok(status)) => (self.stopped(), LoopAction::Exit(status)),
                LoopEvent::AppExited(Err(e)) => (
                    self.stopped(),
                    LoopAction::Fail(WorkflowError::Wait(Step::App, e)),
                ),
                _ => (self, LoopAction::Nothing),
            }
        }
    }

    /// The loop as it begins: the schedules of the configuration, updates
    /// daily where none is configured, the last backup at the time of the
    /// latest snapshot, and no update so far.
    pub fn new(config: &Config, latest_snapshot: Option<UtcTime>, zone: Tz) -> (r: Supervisor)
        ensures
            r.backup == (match config.backup {
                Some(b) => Some(b.interval),
                None => None,
            }),
            r.update == (match config.update {
                Some(u) => u.interval,
                None => Interval::Daily,
            }),
            r.last_backup == zoned(latest_snapshot, zone),
            r.last_update is None,
            r.state == LoopState::Running,
    {
        let backup = match &config.backup {
            Some(b) => Some(b.interval.duplicate()),
            None => None,
        };
        let update = match &config.update {
            Some(u) => u.interval.duplicate(),
            None => Interval::Daily,
        };
        let last_backup = match latest_snapshot {
            Some(t) => Some(t.with_timezone(zone)),
            None => None,
        };
        Supervisor { backup, update, last_backup, last_update: None, state: LoopState::Running }
    }

    /// Computes the waits of the two timers at `now`.
    pub fn next_waits(&self, now: ZonedTime) -> (r: LoopAction)
        ensures
            r == self.waits(now),
    {
        let backup_in = match &self.backup {
            Some(interval) => interval.next(self.last_backup, now),
            None => None,
        };
        let update_in = self.update.next(self.last_update, now);
        LoopAction::Wait { backup_in, update_in }
    }

    /// Hands an event to the loop and returns what it asks for.
    pub fn step(&mut self, event: LoopEvent, now: ZonedTime, shutdown_started: bool) -> (action:
        LoopAction)
        ensures
            (*final(self), action) == old(self).react(event, now, shutdown_started),
    {
        match self.state {
            LoopState::Stopped => {
                return LoopAction::Nothing;
            },
            LoopState::Running => {},
        }
        match event {
            LoopEvent::WorkflowFailed(e) => {
                self.state = LoopState::Stopped;
                return LoopAction::Fail(e);
            },
            _ => {},
        }
        let raised = match event {
            LoopEvent::ShutdownRaised => true,
            _ => shutdown_started,
        };
        if raised {
            self.state = LoopState::Stopped;
            return LoopAction::Fail(WorkflowError::ShuttingDown);
        }
        match event {
            LoopEvent::Tick => self.next_waits(now),
            LoopEvent::BackupDue => match &self.backup {
                Some(_) => LoopAction::RunBackup,
                None => LoopAction::Nothing,
            },
            LoopEvent::UpdateDue => LoopAction::RunUpdate,
            LoopEvent::BackupDone => {
                self.last_backup = Some(now);
                self.next_waits(now)
            },
            LoopEvent::UpdateDone => {
                self.last_update = Some(now);
                self.next_waits(now)
            },
            LoopEvent::AppExited(Ok(status)) => {
                self.state = LoopState::Stopped;
                LoopAction::Exit(status)
            },
            LoopEvent::AppExited(Err(e)) => {
                self.state = LoopState::Stopped;
                LoopAction::Fail(WorkflowError::Wait(Step::App, e))
            },
            _ => LoopAction::Nothing,
        }
    }
}

impl Supervisor {
    /// Hands an event to the loop, which looks at the coordinator itself.
    ///
    /// The loop reacts as [`Supervisor::step`] does to whatever the
    /// coordinator says at this moment. A run that fails raises the
    /// coordinator, so that everything else ends too.
    pub fn observe(&mut self, event: LoopEvent, now: ZonedTime, shutdown: &ShutdownManager<bool>) -> (action:
        LoopAction)
        ensures
            (*final(self), action) == old(self).react(event, now, true) || (*final(self), action)
                == old(self).react(event, now, false),
    {
        let started = is_raised(shutdown);
        let action = self.step(event, now, started);
        match action {
            LoopAction::Fail(_) => {
                let _ = raise(shutdown);
            },
            _ => {},
        }
        action
    }
}

/// Raised shutdown stops a running loop at the next event, whatever the
/// timers say, unless a workflow has just failed with an error of its own;
/// and a stopped loop stays stopped.
pub proof fn lemma_shutdown_stops_loop(s: Supervisor, event: LoopEvent, now: ZonedTime)
    requires
        s.state == LoopState::Running,
        !(event is WorkflowFailed),
    ensures
        s.react(event, now, true) == (s.stopped(), LoopAction::Fail(WorkflowError::ShuttingDown)),
        s.react(LoopEvent::ShutdownRaised, now, false) == (
            s.stopped(),
            LoopAction::Fail(WorkflowError::ShuttingDown),
        ),
        s.stopped().react(event, now, false) == (s.stopped(), LoopAction::Nothing),
{
}

/// The loop ends exactly when it asks to exit or to fail; after a
/// successful workflow the matching schedule counts from `now`, and the
/// other one is untouched.
pub proof fn lemma_loop_steps(s: Supervisor, event: LoopEvent, now: ZonedTime, shutdown: bool)
    requires
        s.state == LoopState::Running,
    ensures
        s.react(event, now, shutdown).0.state == LoopState::Stopped <==> (s.react(
            event,
            now,
            shutdown,
        ).1 is Exit || s.react(event, now, shutdown).1 is Fail),
        s.react(event, now, shutdown).0.backup == s.backup,
        s.react(event, now, shutdown).0.update == s.update,
        s.react(LoopEvent::BackupDone, now, false).0.last_backup == Some(now),
        s.react(LoopEvent::BackupDone, now, false).0.last_update == s.last_update,
        s.react(LoopEvent::UpdateDone, now, false).0.last_update == Some(now),
        s.react(LoopEvent::UpdateDone, now, false).0.last_backup == s.last_backup,
        s.react(event, now, shutdown).1 == LoopAction::RunBackup ==> s.backup is Some && event
            == LoopEvent::BackupDue,
{
}

/// Two workflows that finish one after the other leave the same memory
/// behind whichever finished first.
pub proof fn lemma_workflow_order_is_irrelevant(
    s: Supervisor,
    backup_done: ZonedTime,
    update_done: ZonedTime,
)
    requires
        s.state == LoopState::Running,
    ensures
        s.react(LoopEvent::BackupDone, backup_done, false).0.react(
            LoopEvent::UpdateDone,
            update_done,
            false,
        ).0 == s.react(LoopEvent::UpdateDone, update_done, false).0.react(
            LoopEvent::BackupDone,
            backup_done,
            false,
        ).0,
{
}

/// The exit code of a run that did not end with the application's own
/// status.
pub const FAILURE_CODE: u8 = 1;

/// The exit code of the supervisor for an application that ended by
/// itself: the application's code where it is one byte, else one.
pub open spec fn exit_code_of(status: ExitStatus) -> u8 {
    match status.code {
        Some(c) => if 0 <= c <= 255 {
            c as u8
        } else {
            FAILURE_CODE
        },
        None => FAILURE_CODE,
    }
}

/// The exit code with which a run ends on `action`: the application's for
/// an exit, the failure code for a failure, none while the loop goes on.
pub fn final_exit_code(action: &LoopAction) -> (r: Option<u8>)
    ensures
        r == (match *action {
            LoopAction::Exit(status) => Some(exit_code_of(status)),
            LoopAction::Fail(_) => Some(FAILURE_CODE),
            _ => None,
        }),
{
    match action {
        LoopAction::Exit(status) => Some(exit_code(*status)),
        LoopAction::Fail(_) => Some(FAILURE_CODE),
        _ => None,
    }
}

/// Computes the supervisor's exit code from the application's status.
pub fn exit_code(status: ExitStatus) -> (r: u8)
    ensures
        r == exit_code_of(status),
{
    match status.code {
        Some(c) => if 0 <= c && c <= 255 {
            c as u8
        } else {
            FAILURE_CODE
        },
        None => FAILURE_CODE,
    }
}

} // verus!
