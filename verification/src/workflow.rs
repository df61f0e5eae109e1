//! The restore, backup and update workflows: what each does next, given
//! what has just happened.

use vstd::prelude::*;

use crate::command::{restore, restore_command, Command};
use crate::config::{BackupStrategy, RestoreConfig, RestoreStrategy};
use crate::process::{ExitStatus, ProcessError, SpawnError};
use crate::time::UtcTime;

verus! {

/// The task that a child process was started for.
#[derive(Clone, Copy, Debug, PartialEq, Eq, Structural)]
pub enum Step {
    Restore,
    Backup,
    Update,
    App,
}

/// Why a tool gave no answer.
#[derive(Clone, Copy, Debug, PartialEq, Eq, Structural)]
pub enum QueryError {
    /// The tool's end could not be awaited or its output could not be read.
    Unobserved,
}

/// Why a workflow, and with it the whole run, ends.
#[derive(Clone, Copy, Debug, PartialEq, Eq)]
pub enum WorkflowError {
    /// A child could not be started.
    Spawn(Step, SpawnError),
    /// A child's exit status could not be had.
    Wait(Step, ProcessError),
    /// A tool ended with a status other than success.
    ToolFailed(Step),
    /// The query for the image's creation time could not be observed.
    Query(QueryError),
    /// Shutdown was raised while data was being restored.
    ShutdownDuringRestore,
    /// Shutdown was raised.
    ShuttingDown,
}

impl Step {
    /// The name of the task in messages.
    pub open spec fn text(self) -> Seq<char> {
        match self {
            Step::Restore => "restoring"@,
            Step::Backup => "backup"@,
            Step::Update => "update"@,
            Step::App => "app"@,
        }
    }

    /// What is said of a tool for the task that did not succeed.
    pub open spec fn failure_text(self) -> Seq<char> {
        match self {
            Step::Restore => "Failed restoring backup"@,
            Step::Backup => "Failed backing up app"@,
            Step::Update => "Failed pulling image"@,
            Step::App => "Failed running app"@,
        }
    }

    /// The name of the task in messages.
    pub fn name(&self) -> (r: &'static str)
        ensures
            r@ == self.text(),
    {
        match self {
            Step::Restore => "restoring",
            Step::Backup => "backup",
            Step::Update => "update",
            Step::App => "app",
        }
    }
}

impl WorkflowError {
    /// The error in words: what was being done and, where there is one,
    /// the cause after a colon.
    pub open spec fn text(self) -> Seq<char> {
        match self {
            WorkflowError::Spawn(step, e) => "Starting "@ + step.text() + " process: "@ + e.text(),
            WorkflowError::Wait(step, e) => "Waiting for "@ + step.text() + " process: "@
                + e.text(),
            WorkflowError::ToolFailed(step) => step.failure_text(),
            WorkflowError::Query(_) => "Getting image creation time"@,
            WorkflowError::ShutdownDuringRestore => "Shutting down while restoring backup"@,
            WorkflowError::ShuttingDown => "Shutting down"@,
        }
    }

    /// Writes the error in words.
    pub fn to_string(&self) -> (r: String)
        ensures
            r@ == self.text(),
    {
        match self {
            WorkflowError::Spawn(step, e) => {
                let mut r = "Starting ".to_owned();
                r.append(step.name());
                r.append(" process: ");
                let cause = e.to_string();
                r.append(cause.as_str());
                r
            },
            WorkflowError::Wait(step, e) => {
                let mut r = "Waiting for ".to_owned();
                r.append(step.name());
                r.append(" process: ");
                let cause = e.to_string();
                r.append(cause.as_str());
                r
            },
            WorkflowError::ToolFailed(step) => match step {
                Step::Restore => "Failed restoring backup".to_owned(),
                Step::Backup => "Failed backing up app".to_owned(),
                Step::Update => "Failed pulling image".to_owned(),
                Step::App => "Failed running app".to_owned(),
            },
            WorkflowError::Query(_) => "Getting image creation time".to_owned(),
            WorkflowError::ShutdownDuringRestore => "Shutting down while restoring backup".to_owned(),
            WorkflowError::ShuttingDown => "Shutting down".to_owned(),
        }
    }
}

/// What a query to a tool gave.
#[derive(Clone, Debug)]
pub enum QueryOutput {
    /// The tool's end could not be awaited or its output could not be read.
    Unobserved,
    /// The tool could not be run or reported failure.
    Failed,
    /// The tool's output is not a list of records with a timestamp each.
    Malformed,
    /// The timestamps of the records that the tool listed, in its order.
    Records(Vec<UtcTime>),
}

/// The first of the listed timestamps, if any.
pub open spec fn first_record(records: Seq<UtcTime>) -> Option<UtcTime> {
    if records.len() > 0 {
        Some(records[0])
    } else {
        None
    }
}

/// The creation time of an image, from what the inspection gave.
///
/// A failed inspection, output that is not understood and an empty list all
/// mean that the time is not known, which is no error. An inspection that
/// could not be observed is one.
pub fn image_creation_time(output: &QueryOutput) -> (r: Result<Option<UtcTime>, QueryError>)
    ensures
        r == (match *output {
            QueryOutput::Unobserved => Err(QueryError::Unobserved),
            QueryOutput::Failed => Ok(None),
            QueryOutput::Malformed => Ok(None),
            QueryOutput::Records(v) => Ok(first_record(v@)),
        }),
{
    match output {
        QueryOutput::Unobserved => Err(QueryError::Unobserved),
        QueryOutput::Failed => Ok(None),
        QueryOutput::Malformed => Ok(None),
        QueryOutput::Records(v) => if v.len() > 0 {
            Ok(Some(v[0]))
        } else {
            Ok(None)
        },
    }
}

/// The time of the latest snapshot, from what the listing gave. That there
/// is none, for whatever reason, is the normal state of a new repository.
pub fn get_latest_snapshot_time(output: &QueryOutput) -> (r: Option<UtcTime>)
    ensures
        r == (match *output {
            QueryOutput::Records(v) => first_record(v@),
            _ => None,
        }),
{
    match output {
        QueryOutput::Records(v) => if v.len() > 0 {
            Some(v[0])
        } else {
            None
        },
        _ => None,
    }
}

/// Whether a restore runs: always where the destination is missing, and
/// over existing data only where the policy says so.
pub open spec fn restore_due(strategy: Option<RestoreStrategy>, dst_exists: bool) -> bool {
    !dst_exists || RestoreStrategy::or_default(strategy) == RestoreStrategy::Always
}

/// The command of a restore that is due, or `None` where existing data is
/// to be kept.
pub fn restore_if_needed(config: &RestoreConfig, dst_exists: bool) -> (r: Option<Command>)
    ensures
        r is Some <==> restore_due(config.strategy, dst_exists),
        r matches Some(cmd) ==> cmd@ == restore_command(*config),
{
    let always = match config.strategy {
        Some(RestoreStrategy::Always) => true,
        _ => false,
    };
    if dst_exists && !always {
        None
    } else {
        Some(restore(config))
    }
}

/// Existing data is never restored over by a policy that restores only
/// what is missing.
pub proof fn lemma_restore_skips_existing(strategy: Option<RestoreStrategy>)
    requires
        RestoreStrategy::or_default(strategy) == RestoreStrategy::IfMissing,
    ensures
        !restore_due(strategy, true),
        restore_due(strategy, false),
{
}

/// How one restore ended.
#[derive(Clone, Copy, Debug, PartialEq, Eq)]
pub enum RestoreOutcome {
    /// The destination was there and was kept.
    Skipped,
    /// The restore command could not be started.
    SpawnFailed(SpawnError),
    /// The restore command ran to its end, or its end could not be awaited.
    Finished(Result<ExitStatus, ProcessError>),
}

/// The error that one restore contributes, if any.
pub open spec fn restore_failure(outcome: RestoreOutcome) -> Option<WorkflowError> {
    match outcome {
        RestoreOutcome::Skipped => None,
        RestoreOutcome::SpawnFailed(e) => Some(WorkflowError::Spawn(Step::Restore, e)),
        RestoreOutcome::Finished(Err(e)) => Some(WorkflowError::Wait(Step::Restore, e)),
        RestoreOutcome::Finished(Ok(status)) => if status.succeeded() {
            None
        } else {
            Some(WorkflowError::ToolFailed(Step::Restore))
        },
    }
}

/// The failure of the first restore that failed, in the order of the list.
pub open spec fn first_restore_failure(outcomes: Seq<RestoreOutcome>) -> Option<WorkflowError>
    decreases outcomes.len(),
{
    if outcomes.len() == 0 {
        None
    } else {
        match restore_failure(outcomes[0]) {
            Some(e) => Some(e),
            None => first_restore_failure(outcomes.drop_first()),
        }
    }
}

/// What the restores at startup amount to, once all have finished.
///
/// One failed restore fails the startup. Where restores were configured
/// and shutdown was raised meanwhile, the startup ends as well.
pub open spec fn restores_verdict(outcomes: Seq<RestoreOutcome>, shutdown_started: bool) -> Result<
    (),
    WorkflowError,
> {
    match first_restore_failure(outcomes) {
        Some(e) => Err(e),
        None => if outcomes.len() > 0 && shutdown_started {
            Err(WorkflowError::ShutdownDuringRestore)
        } else {
            Ok(())
        },
    }
}

fn restore_failure_of(outcome: &RestoreOutcome) -> (r: Option<WorkflowError>)
    ensures
        r == restore_failure(*outcome),
{
    match outcome {
        RestoreOutcome::Skipped => None,
        RestoreOutcome::SpawnFailed(e) => Some(WorkflowError::Spawn(Step::Restore, *e)),
        RestoreOutcome::Finished(Err(e)) => Some(WorkflowError::Wait(Step::Restore, *e)),
        RestoreOutcome::Finished(Ok(status)) => if status.success() {
            None
        } else {
            Some(WorkflowError::ToolFailed(Step::Restore))
        },
    }
}

/// Judges the restores at startup; see [`restores_verdict`].
pub fn restores_succeeded(outcomes: &Vec<RestoreOutcome>, shutdown_started: bool) -> (r: Result<
    (),
    WorkflowError,
>)
    ensures
        r == restores_verdict(outcomes@, shutdown_started),
        r is Ok ==> forall|i: int| 0 <= i < outcomes.len() ==> restore_failure(outcomes@[i]) is None,
{
    let mut i: usize = 0;
    assert(outcomes@.skip(0) =~= outcomes@);
    while i < outcomes.len()
        invariant
            i <= outcomes.len(),
            first_restore_failure(outcomes@) == first_restore_failure(outcomes@.skip(i as int)),
            forall|j: int| 0 <= j < i ==> restore_failure(outcomes@[j]) is None,
        decreases outcomes.len() - i,
    {
        proof {
            assert(outcomes@.skip(i as int).drop_first() =~= outcomes@.skip(i + 1));
            assert(outcomes@.skip(i as int)[0] == outcomes@[i as int]);
        }
        match restore_failure_of(&outcomes[i]) {
            Some(e) => {
                return Err(e);
            },
            None => {},
        }
        i += 1;
    }
    assert(outcomes@.skip(i as int).len() == 0);
    if outcomes.len() > 0 && shutdown_started {
        Err(WorkflowError::ShutdownDuringRestore)
    } else {
        Ok(())
    }
}

/// Where a backup stands.
#[derive(Clone, Copy, Debug, PartialEq, Eq, Structural)]
pub enum BackupPhase {
    /// The application is being terminated.
    StoppingApp,
    /// The backup command runs.
    BackingUp,
    /// The application is being started again.
    RestartingApp,
    /// The backup succeeded.
    Done,
    /// The backup failed.
    Failed,
}

/// What can happen during a backup.
#[derive(Clone, Copy, Debug, PartialEq, Eq)]
pub enum BackupEvent {
    /// The application has ended, however.
    AppStopped,
    /// The backup command could not be started.
    BackupSpawnFailed(SpawnError),
    /// The backup command has ended, or its end could not be awaited.
    BackupFinished(Result<ExitStatus, ProcessError>),
    /// The application runs again.
    AppSpawned,
    /// The application could not be started again.
    AppSpawnFailed(SpawnError),
}

/// What a backup asks for next.
#[derive(Clone, Copy, Debug, PartialEq, Eq)]
pub enum BackupAction {
    /// Nothing new.
    Nothing,
    /// Terminate the application and wait for its end.
    TerminateApp,
    /// Start the backup command and wait for its end.
    SpawnBackup,
    /// Start the application.
    SpawnApp,
    /// The backup is done. `app_replaced` says whether the application
    /// process is a new one.
    Finish { app_replaced: bool },
    /// The backup failed.
    Fail(WorkflowError),
}

/// A backup in progress.
#[derive(Clone, Copy, Debug, PartialEq, Eq, Structural)]
pub struct BackupRun {
    pub strategy: BackupStrategy,
    pub phase: BackupPhase,
}

/// The first step of a backup: with the application stopped first, or at
/// once while it runs.
pub open spec fn backup_start(strategy: Option<BackupStrategy>) -> (BackupRun, BackupAction) {
    if BackupStrategy::or_default(strategy) == BackupStrategy::StopApp {
        (
            BackupRun { strategy: BackupStrategy::StopApp, phase: BackupPhase::StoppingApp },
            BackupAction::TerminateApp,
        )
    } else {
        (
            BackupRun { strategy: BackupStrategy::Live, phase: BackupPhase::BackingUp },
            BackupAction::SpawnBackup,
        )
    }
}

/// A backup's reaction to an event.
///
/// Once the application has stopped, however it ended, the backup command
/// starts. A backup command that cannot be started or awaited, or that
/// does not succeed, fails the backup. After a successful backup the
/// application is started again if it was stopped. Anything else changes
/// nothing.
pub open spec fn backup_transition(run: BackupRun, event: BackupEvent) -> (BackupRun, BackupAction) {
    let to = |phase: BackupPhase| BackupRun { strategy: run.strategy, phase };
    match (run.phase, event) {
        (BackupPhase::StoppingApp, BackupEvent::AppStopped) => (
            to(BackupPhase::BackingUp),
            BackupAction::SpawnBackup,
        ),
        (BackupPhase::BackingUp, BackupEvent::BackupSpawnFailed(e)) => (
            to(BackupPhase::Failed),
            BackupAction::Fail(WorkflowError::Spawn(Step::Backup, e)),
        ),
        (BackupPhase::BackingUp, BackupEvent::BackupFinished(Err(e))) => (
            to(BackupPhase::Failed),
            BackupAction::Fail(WorkflowError::Wait(Step::Backup, e)),
        ),
        (BackupPhase::BackingUp, BackupEvent::BackupFinished(Ok(status))) => if !status.succeeded() {
            (to(BackupPhase::Failed), BackupAction::Fail(WorkflowError::ToolFailed(Step::Backup)))
        } else if run.strategy == BackupStrategy::StopApp {
            (to(BackupPhase::RestartingApp), BackupAction::SpawnApp)
        } else {
            (to(BackupPhase::Done), BackupAction::Finish { app_replaced: false })
        },
        (BackupPhase::RestartingApp, BackupEvent::AppSpawned) => (
            to(BackupPhase::Done),
            BackupAction::Finish { app_replaced: true },
        ),
        (BackupPhase::RestartingApp, BackupEvent::AppSpawnFailed(e)) => (
            to(BackupPhase::Failed),
            BackupAction::Fail(WorkflowError::Spawn(Step::App, e)),
        ),
        _ => (run, BackupAction::Nothing),
    }
}

/// Begins a backup under the configured strategy, or the default one.
pub fn start_backup(strategy: Option<BackupStrategy>) -> (r: (BackupRun, BackupAction))
    ensures
        r == backup_start(strategy),
{
    match BackupStrategy::effective(strategy) {
        BackupStrategy::StopApp => (
            BackupRun { strategy: BackupStrategy::StopApp, phase: BackupPhase::StoppingApp },
            BackupAction::TerminateApp,
        ),
        BackupStrategy::Live => (
            BackupRun { strategy: BackupStrategy::Live, phase: BackupPhase::BackingUp },
            BackupAction::SpawnBackup,
        ),
    }
}

impl BackupRun {
    /// The phases that a backup can be in under its strategy: a live backup
    /// never stops or restarts the application.
    pub open spec fn well_formed(self) -> bool {
        self.strategy == BackupStrategy::Live ==> self.phase != BackupPhase::StoppingApp
            && self.phase != BackupPhase::RestartingApp
    }

    /// Hands an event to the backup and returns what it asks for.
    pub fn advance(&mut self, event: BackupEvent) -> (action: BackupAction)
        ensures
            (*final(self), action) == backup_transition(*old(self), event),
    {
        let stopped = match self.strategy {
            BackupStrategy::StopApp => true,
            BackupStrategy::Live => false,
        };
        let (phase, action) = match (self.phase, event) {
            (BackupPhase::StoppingApp, BackupEvent::AppStopped) => (
                BackupPhase::BackingUp,
                BackupAction::SpawnBackup,
            ),
            (BackupPhase::BackingUp, BackupEvent::BackupSpawnFailed(e)) => (
                BackupPhase::Failed,
                BackupAction::Fail(WorkflowError::Spawn(Step::Backup, e)),
            ),
            (BackupPhase::BackingUp, BackupEvent::BackupFinished(Err(e))) => (
                BackupPhase::Failed,
                BackupAction::Fail(WorkflowError::Wait(Step::Backup, e)),
            ),
            (BackupPhase::BackingUp, BackupEvent::BackupFinished(Ok(status))) => {
                if !status.success() {
                    (BackupPhase::Failed, BackupAction::Fail(WorkflowError::ToolFailed(Step::Backup)))
                } else if stopped {
                    (BackupPhase::RestartingApp, BackupAction::SpawnApp)
                } else {
                    (BackupPhase::Done, BackupAction::Finish { app_replaced: false })
                }
            },
            (BackupPhase::RestartingApp, BackupEvent::AppSpawned) => (
                BackupPhase::Done,
                BackupAction::Finish { app_replaced: true },
            ),
            (BackupPhase::RestartingApp, BackupEvent::AppSpawnFailed(e)) => (
                BackupPhase::Failed,
                BackupAction::Fail(WorkflowError::Spawn(Step::App, e)),
            ),
            _ => (self.phase, BackupAction::Nothing),
        };
        self.phase = phase;
        action
    }
}

/// A backup that begins is in a phase that fits its strategy, and every
/// reaction keeps it so.
pub proof fn lemma_backup_keeps_well_formed(
    strategy: Option<BackupStrategy>,
    run: BackupRun,
    event: BackupEvent,
)
    requires
        run.well_formed(),
    ensures
        backup_start(strategy).0.well_formed(),
        backup_transition(run, event).0.well_formed(),
        backup_transition(run, event).0.strategy == run.strategy,
{
}

/// Under the strategy that stops the application, a backup begins by
/// terminating it, the backup command starts only in reaction to the
/// application's end, and a backup that finishes does so in reaction to the
/// start of a new application process.
pub proof fn lemma_stop_app_order(run: BackupRun, event: BackupEvent)
    requires
        run.well_formed(),
        run.strategy == BackupStrategy::StopApp,
    ensures
        backup_start(Some(BackupStrategy::StopApp)).1 == BackupAction::TerminateApp,
        backup_start(None).1 == BackupAction::TerminateApp,
        backup_transition(run, event).1 == BackupAction::SpawnBackup ==> run.phase
            == BackupPhase::StoppingApp && event == BackupEvent::AppStopped,
        backup_transition(run, event).1 is Finish ==> backup_transition(run, event).1
            == (BackupAction::Finish { app_replaced: true }) && event == BackupEvent::AppSpawned,
        backup_transition(run, event).1 == BackupAction::SpawnApp ==> (event matches BackupEvent::BackupFinished(
            Ok(status),
        ) && status.succeeded()),
{
}

/// The backup after a run of events, in order.
pub open spec fn backup_after(run: BackupRun, events: Seq<BackupEvent>) -> BackupRun
    decreases events.len(),
{
    if events.len() == 0 {
        run
    } else {
        backup_transition(backup_after(run, events.drop_last()), events.last()).0
    }
}

/// What the events so far must hold for a backup that stops the
/// application to be in `phase`: the application's end before the backup
/// command runs, and the start of a new application process before the
/// backup is done.
pub open spec fn stop_app_seen(phase: BackupPhase, events: Seq<BackupEvent>) -> bool {
    let stopped = events.contains(BackupEvent::AppStopped);
    let respawned = events.contains(BackupEvent::AppSpawned);
    match phase {
        BackupPhase::StoppingApp => true,
        BackupPhase::BackingUp => stopped,
        BackupPhase::RestartingApp => stopped,
        BackupPhase::Done => stopped && respawned,
        BackupPhase::Failed => true,
    }
}

/// Whatever happens during a backup that stops the application, the backup
/// command does not run before the application was seen to end, and the
/// backup is not done before a new application process was started.
pub proof fn lemma_stop_app_run(events: Seq<BackupEvent>)
    ensures
        backup_after(backup_start(Some(BackupStrategy::StopApp)).0, events).strategy
            == BackupStrategy::StopApp,
        stop_app_seen(
            backup_after(backup_start(Some(BackupStrategy::StopApp)).0, events).phase,
            events,
        ),
    decreases events.len(),
{
    if events.len() > 0 {
        let before = events.drop_last();
        lemma_stop_app_run(before);
        assert(events =~= before.push(events.last()));
        assert forall|e: BackupEvent| before.contains(e) implies events.contains(e) by {
            let i = choose|i: int| 0 <= i < before.len() && before[i] == e;
            assert(events[i] == e);
        }
        assert(events.contains(events.last())) by {
            assert(events[events.len() - 1] == events.last());
        }
    }
}

/// A live backup never asks to terminate or start the application, and
/// finishes with the application process it began with.
pub proof fn lemma_live_keeps_app(run: BackupRun, event: BackupEvent)
    requires
        run.well_formed(),
        run.strategy == BackupStrategy::Live,
    ensures
        backup_start(Some(BackupStrategy::Live)).1 == BackupAction::SpawnBackup,
        backup_transition(run, event).1 != BackupAction::TerminateApp,
        backup_transition(run, event).1 != BackupAction::SpawnApp,
        backup_transition(run, event).1 is Finish ==> backup_transition(run, event).1
            == (BackupAction::Finish { app_replaced: false }),
{
}

/// Where an update stands.
#[derive(Clone, Copy, Debug, PartialEq, Eq)]
pub enum UpdatePhase {
    /// The image's creation time before the pull is being asked for.
    QueryingOld,
    /// The image is being pulled; `old` is the time before the pull.
    Pulling { old: Option<UtcTime> },
    /// The image's creation time after the pull is being asked for.
    QueryingNew { old: Option<UtcTime> },
    /// The application is being terminated.
    StoppingApp,
    /// The application is being started from the new image.
    RestartingApp,
    /// The update is done.
    Done,
    /// The update failed.
    Failed,
}

/// What can happen during an update.
#[derive(Clone, Copy, Debug, PartialEq, Eq)]
pub enum UpdateEvent {
    /// The image's creation time, unknown, or the reason it could not be read.
    ImageTime(Result<Option<UtcTime>, QueryError>),
    /// The pull could not be started.
    PullSpawnFailed(SpawnError),
    /// The pull has ended, or its end could not be awaited.
    PullFinished(Result<ExitStatus, ProcessError>),
    /// The application has ended, or its end could not be awaited.
    AppStopped(Result<ExitStatus, ProcessError>),
    /// The application runs again.
    AppSpawned,
    /// The application could not be started again.
    AppSpawnFailed(SpawnError),
}

/// What an update asks for next.
#[derive(Clone, Copy, Debug, PartialEq, Eq)]
pub enum UpdateAction {
    /// Nothing new.
    Nothing,
    /// Ask for the image's creation time.
    QueryImageTime,
    /// Start the pull and wait for its end.
    SpawnPull,
    /// Terminate the application and wait for its end.
    TerminateApp,
    /// Start the application.
    SpawnApp,
    /// The update is done. `app_replaced` says whether the application
    /// process is a new one.
    Finish { app_replaced: bool },
    /// The update failed.
    Fail(WorkflowError),
}

/// Whether the pull brought another image: its creation time is known now
/// and is not the one from before.
pub open spec fn image_changed(old: Option<UtcTime>, new: Option<UtcTime>) -> bool {
    new is Some && new != old
}

/// Decides whether the pull brought another image.
pub fn is_image_changed(old: Option<UtcTime>, new: Option<UtcTime>) -> (r: bool)
    ensures
        r == image_changed(old, new),
{
    match new {
        None => false,
        Some(n) => match old {
            None => true,
            Some(o) => !n.same_as(&o),
        },
    }
}

/// An update's reaction to an event.
///
/// The creation time is asked for, the image pulled, and the time asked for
/// again. Only an image that changed has the application terminated and
/// started again. A query that cannot be observed, a pull that cannot be
/// started or awaited, and an application that cannot be retired or started
/// fail the update; how the pull itself ended does not matter. Anything
/// else changes nothing.
pub open spec fn update_transition(phase: UpdatePhase, event: UpdateEvent) -> (UpdatePhase, UpdateAction) {
    match (phase, event) {
        (UpdatePhase::QueryingOld, UpdateEvent::ImageTime(Ok(old))) => (
            UpdatePhase::Pulling { old },
            UpdateAction::SpawnPull,
        ),
        (UpdatePhase::QueryingOld, UpdateEvent::ImageTime(Err(e))) => (
            UpdatePhase::Failed,
            UpdateAction::Fail(WorkflowError::Query(e)),
        ),
        (UpdatePhase::Pulling { old }, UpdateEvent::PullSpawnFailed(e)) => (
            UpdatePhase::Failed,
            UpdateAction::Fail(WorkflowError::Spawn(Step::Update, e)),
        ),
        (UpdatePhase::Pulling { old }, UpdateEvent::PullFinished(Err(e))) => (
            UpdatePhase::Failed,
            UpdateAction::Fail(WorkflowError::Wait(Step::Update, e)),
        ),
        (UpdatePhase::Pulling { old }, UpdateEvent::PullFinished(Ok(_))) => (
            UpdatePhase::QueryingNew { old },
            UpdateAction::QueryImageTime,
        ),
        (UpdatePhase::QueryingNew { old }, UpdateEvent::ImageTime(Ok(new))) => if image_changed(
            old,
            new,
        ) {
            (UpdatePhase::StoppingApp, UpdateAction::TerminateApp)
        } else {
            (UpdatePhase::Done, UpdateAction::Finish { app_replaced: false })
        },
        (UpdatePhase::QueryingNew { old }, UpdateEvent::ImageTime(Err(e))) => (
            UpdatePhase::Failed,
            UpdateAction::Fail(WorkflowError::Query(e)),
        ),
        (UpdatePhase::StoppingApp, UpdateEvent::AppStopped(Ok(_))) => (
            UpdatePhase::RestartingApp,
            UpdateAction::SpawnApp,
        ),
        (UpdatePhase::StoppingApp, UpdateEvent::AppStopped(Err(e))) => (
            UpdatePhase::Failed,
            UpdateAction::Fail(WorkflowError::Wait(Step::App, e)),
        ),
        (UpdatePhase::RestartingApp, UpdateEvent::AppSpawned) => (
            UpdatePhase::Done,
            UpdateAction::Finish { app_replaced: true },
        ),
        (UpdatePhase::RestartingApp, UpdateEvent::AppSpawnFailed(e)) => (
            UpdatePhase::Failed,
            UpdateAction::Fail(WorkflowError::Spawn(Step::App, e)),
        ),
        _ => (phase, UpdateAction::Nothing),
    }
}

/// Begins an update: the image's creation time is asked for first.
pub fn start_update() -> (r: (UpdatePhase, UpdateAction))
    ensures
        r == (UpdatePhase::QueryingOld, UpdateAction::QueryImageTime),
{
    (UpdatePhase::QueryingOld, UpdateAction::QueryImageTime)
}

/// Computes an update's reaction to an event.
pub fn advance_update(phase: UpdatePhase, event: UpdateEvent) -> (r: (UpdatePhase, UpdateAction))
    ensures
        r == update_transition(phase, event),
{
    match (phase, event) {
        (UpdatePhase::QueryingOld, UpdateEvent::ImageTime(Ok(old))) => (
            UpdatePhase::Pulling { old },
            UpdateAction::SpawnPull,
        ),
        (UpdatePhase::QueryingOld, UpdateEvent::ImageTime(Err(e))) => (
            UpdatePhase::Failed,
            UpdateAction::Fail(WorkflowError::Query(e)),
        ),
        (UpdatePhase::Pulling { old }, UpdateEvent::PullSpawnFailed(e)) => (
            UpdatePhase::Failed,
            UpdateAction::Fail(WorkflowError::Spawn(Step::Update, e)),
        ),
        (UpdatePhase::Pulling { old }, UpdateEvent::PullFinished(Err(e))) => (
            UpdatePhase::Failed,
            UpdateAction::Fail(WorkflowError::Wait(Step::Update, e)),
        ),
        (UpdatePhase::Pulling { old }, UpdateEvent::PullFinished(Ok(_))) => (
            UpdatePhase::QueryingNew { old },
            UpdateAction::QueryImageTime,
        ),
        (UpdatePhase::QueryingNew { old }, UpdateEvent::ImageTime(Ok(new))) => {
            if is_image_changed(old, new) {
                (UpdatePhase::StoppingApp, UpdateAction::TerminateApp)
            } else {
                (UpdatePhase::Done, UpdateAction::Finish { app_replaced: false })
            }
        },
        (UpdatePhase::QueryingNew { old }, UpdateEvent::ImageTime(Err(e))) => (
            UpdatePhase::Failed,
            UpdateAction::Fail(WorkflowError::Query(e)),
        ),
        (UpdatePhase::StoppingApp, UpdateEvent::AppStopped(Ok(_))) => (
            UpdatePhase::RestartingApp,
            UpdateAction::SpawnApp,
        ),
        (UpdatePhase::StoppingApp, UpdateEvent::AppStopped(Err(e))) => (
            UpdatePhase::Failed,
            UpdateAction::Fail(WorkflowError::Wait(Step::App, e)),
        ),
        (UpdatePhase::RestartingApp, UpdateEvent::AppSpawned) => (
            UpdatePhase::Done,
            UpdateAction::Finish { app_replaced: true },
        ),
        (UpdatePhase::RestartingApp, UpdateEvent::AppSpawnFailed(e)) => (
            UpdatePhase::Failed,
            UpdateAction::Fail(WorkflowError::Spawn(Step::App, e)),
        ),
        _ => (phase, UpdateAction::Nothing),
    }
}

/// An image whose creation time is the same before and after the pull
/// leaves the application alone: the update finishes at once, with the
/// application process it began with.
pub proof fn lemma_same_image_no_restart(time: Option<UtcTime>)
    ensures
        !image_changed(time, time),
        update_transition(UpdatePhase::QueryingNew { old: time }, UpdateEvent::ImageTime(Ok(time)))
            == (UpdatePhase::Done, (UpdateAction::Finish { app_replaced: false })),
{
}

/// The application is terminated during an update only when the second
/// query shows an image that changed, and is started only after it has
/// been terminated.
pub proof fn lemma_restart_only_on_change(phase: UpdatePhase, event: UpdateEvent)
    ensures
        update_transition(phase, event).1 == UpdateAction::TerminateApp ==> {
            &&& phase matches UpdatePhase::QueryingNew { old }
            &&& event matches UpdateEvent::ImageTime(Ok(new))
            &&& image_changed(old, new)
        },
        update_transition(phase, event).1 == UpdateAction::SpawnApp ==> phase
            == UpdatePhase::StoppingApp,
{
}

} // verus!
