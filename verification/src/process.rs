//! One supervised child process: how its exit is watched, how it is retired
//! and what its output becomes in the log.
//!
//! The process itself lives outside. What is decided here is the reaction
//! to each thing that can happen to it.

use async_shutdown::ShutdownManager;
use vstd::prelude::*;

use crate::shutdown::{fresh, raise};
use crate::text::{decimal, decimal_string, log_line, log_text, trim_end, trimmed_end};

verus! {

/// Seconds that a child is given to exit after it was asked to terminate,
/// before it is killed.
pub const GRACE_PERIOD_SECS: u64 = 5;

/// How a child ended: its exit code, or none where a signal ended it.
#[derive(Clone, Copy, Debug, PartialEq, Eq, Structural)]
pub struct ExitStatus {
    pub code: Option<i32>,
}

impl ExitStatus {
    /// Whether the child ended with exit code zero.
    pub open spec fn succeeded(self) -> bool {
        self.code == Some(0i32)
    }

    /// Whether the child ended with exit code zero.
    pub fn success(&self) -> (r: bool)
        ensures
            r == self.succeeded(),
    {
        match self.code {
            Some(c) => c == 0,
            None => false,
        }
    }
}

/// Why a child could not be started.
#[derive(Clone, Copy, Debug, PartialEq, Eq, Structural)]
pub enum SpawnError {
    /// The program could not be run.
    StartFailed,
    /// The child's standard output could not be captured.
    NoStdout,
    /// The child's standard error could not be captured.
    NoStderr,
    /// The child has no process id.
    NoPid,
}

/// Why a child's exit status is not known.
#[derive(Clone, Copy, Debug, PartialEq, Eq, Structural)]
pub enum ProcessError {
    /// Waiting for the child failed.
    WaitFailed,
    /// The child outlived the grace period and could not be killed.
    KillFailed,
}

impl SpawnError {
    /// The error in words.
    pub open spec fn text(self) -> Seq<char> {
        match self {
            SpawnError::StartFailed => "Start running child"@,
            SpawnError::NoStdout => "Expecting stdout from child process"@,
            SpawnError::NoStderr => "Expecting stderr from child process"@,
            SpawnError::NoPid => "To have a PID"@,
        }
    }

    /// Writes the error in words.
    pub fn to_string(&self) -> (r: String)
        ensures
            r@ == self.text(),
    {
        match self {
            SpawnError::StartFailed => "Start running child".to_owned(),
            SpawnError::NoStdout => "Expecting stdout from child process".to_owned(),
            SpawnError::NoStderr => "Expecting stderr from child process".to_owned(),
            SpawnError::NoPid => "To have a PID".to_owned(),
        }
    }
}

impl ProcessError {
    /// The error in words.
    pub open spec fn text(self) -> Seq<char> {
        match self {
            ProcessError::WaitFailed => "Getting exit status"@,
            ProcessError::KillFailed => "Start killing child process"@,
        }
    }

    /// Writes the error in words.
    pub fn to_string(&self) -> (r: String)
        ensures
            r@ == self.text(),
    {
        match self {
            ProcessError::WaitFailed => "Getting exit status".to_owned(),
            ProcessError::KillFailed => "Start killing child process".to_owned(),
        }
    }
}

/// What the attempt to start a child gave.
#[derive(Clone, Copy, Debug, PartialEq, Eq, Structural)]
pub struct SpawnReport {
    pub started: bool,
    pub stdout_captured: bool,
    pub stderr_captured: bool,
    pub pid: Option<u32>,
}

/// Where the exit monitor of a child stands.
#[derive(Clone, Copy, Debug, PartialEq, Eq, Structural)]
pub enum MonitorState {
    /// The child runs; its exit and a shutdown request are both awaited.
    Running,
    /// Termination was requested and the signal is being sent.
    Signaling,
    /// The signal was attempted; the child has the grace period to exit.
    Signaled,
    /// The grace period ran out and the child is being killed.
    Killed,
    /// The outcome is recorded. Nothing happens after this.
    Exited,
}

/// What can happen to a watched child.
#[derive(Clone, Copy, Debug, PartialEq, Eq, Structural)]
pub enum MonitorEvent {
    /// The child ended.
    Exited(ExitStatus),
    /// Waiting for the child's end failed.
    WaitFailed,
    /// Shutdown was raised, for everything or for this child alone.
    ShutdownRaised,
    /// The terminate signal was delivered.
    SignalSent,
    /// The terminate signal could not be delivered.
    SignalFailed,
    /// The grace period passed and the child has not ended.
    GraceElapsed,
    /// The kill could not be started.
    KillFailed,
}

/// What the monitor asks for next.
#[derive(Clone, Copy, Debug, PartialEq, Eq)]
pub enum MonitorAction {
    /// Nothing new: go on with what is under way.
    Nothing,
    /// Send the terminate signal and report whether it was delivered.
    SendTerminate,
    /// Wait for the child's end, but no longer than `grace_secs` seconds.
    AwaitExit { grace_secs: u64 },
    /// Kill the child and wait for its end.
    ForceKill,
    /// Record the outcome for everyone who waits for it.
    Publish(Result<ExitStatus, ProcessError>),
}

/// The monitor's reaction to an event: the state it moves to and what it
/// asks for.
///
/// A child that ends, or whose end cannot be awaited, has its outcome
/// published whatever was under way. A shutdown request makes a running
/// child receive the terminate signal; delivered or not, the child then has
/// the grace period, and is killed when that runs out. Anything else
/// changes nothing.
pub open spec fn transition(state: MonitorState, event: MonitorEvent) -> (MonitorState, MonitorAction) {
    if state == MonitorState::Exited {
        (state, MonitorAction::Nothing)
    } else {
        match event {
            MonitorEvent::Exited(status) => (MonitorState::Exited, MonitorAction::Publish(Ok(status))),
            MonitorEvent::WaitFailed => (
                MonitorState::Exited,
                MonitorAction::Publish(Err(ProcessError::WaitFailed)),
            ),
            MonitorEvent::ShutdownRaised => if state == MonitorState::Running {
                (MonitorState::Signaling, MonitorAction::SendTerminate)
            } else {
                (state, MonitorAction::Nothing)
            },
            MonitorEvent::SignalSent | MonitorEvent::SignalFailed => if state
                == MonitorState::Signaling {
                (MonitorState::Signaled, MonitorAction::AwaitExit { grace_secs: GRACE_PERIOD_SECS })
            } else {
                (state, MonitorAction::Nothing)
            },
            MonitorEvent::GraceElapsed => if state == MonitorState::Signaled {
                (MonitorState::Killed, MonitorAction::ForceKill)
            } else {
                (state, MonitorAction::Nothing)
            },
            MonitorEvent::KillFailed => if state == MonitorState::Killed {
                (MonitorState::Exited, MonitorAction::Publish(Err(ProcessError::KillFailed)))
            } else {
                (state, MonitorAction::Nothing)
            },
        }
    }
}

/// Computes the monitor's reaction to an event.
pub fn monitor_exit_status(state: MonitorState, event: MonitorEvent) -> (r: (
    MonitorState,
    MonitorAction,
))
    ensures
        r == transition(state, event),
{
    match state {
        MonitorState::Exited => (state, MonitorAction::Nothing),
        _ => match event {
            MonitorEvent::Exited(status) => (MonitorState::Exited, MonitorAction::Publish(Ok(status))),
            MonitorEvent::WaitFailed => (
                MonitorState::Exited,
                MonitorAction::Publish(Err(ProcessError::WaitFailed)),
            ),
            MonitorEvent::ShutdownRaised => match state {
                MonitorState::Running => (MonitorState::Signaling, MonitorAction::SendTerminate),
                _ => (state, MonitorAction::Nothing),
            },
            MonitorEvent::SignalSent | MonitorEvent::SignalFailed => match state {
                MonitorState::Signaling => (
                    MonitorState::Signaled,
                    MonitorAction::AwaitExit { grace_secs: GRACE_PERIOD_SECS },
                ),
                _ => (state, MonitorAction::Nothing),
            },
            MonitorEvent::GraceElapsed => match state {
                MonitorState::Signaled => (MonitorState::Killed, MonitorAction::ForceKill),
                _ => (state, MonitorAction::Nothing),
            },
            MonitorEvent::KillFailed => match state {
                MonitorState::Killed => (
                    MonitorState::Exited,
                    MonitorAction::Publish(Err(ProcessError::KillFailed)),
                ),
                _ => (state, MonitorAction::Nothing),
            },
        },
    }
}

/// An outcome is published exactly when the monitor enters its final state,
/// and never from the final state.
pub proof fn lemma_publish_once(state: MonitorState, event: MonitorEvent)
    ensures
        transition(state, event).1 is Publish <==> (state != MonitorState::Exited && transition(
            state,
            event,
        ).0 == MonitorState::Exited),
        state == MonitorState::Exited ==> transition(state, event) == (
            MonitorState::Exited,
            MonitorAction::Nothing,
        ),
{
}

/// A child is killed only when the grace period has run out after the
/// terminate signal was attempted, and the grace period is the only wait
/// with a limit.
pub proof fn lemma_kill_only_after_grace(state: MonitorState, event: MonitorEvent)
    ensures
        transition(state, event).1 == MonitorAction::ForceKill ==> state == MonitorState::Signaled
            && event == MonitorEvent::GraceElapsed,
        transition(state, event).1 matches MonitorAction::AwaitExit { grace_secs } ==> grace_secs
            == GRACE_PERIOD_SECS && state == MonitorState::Signaling,
        transition(state, event).1 == MonitorAction::SendTerminate ==> state
            == MonitorState::Running && event == MonitorEvent::ShutdownRaised,
        transition(state, event).0 == MonitorState::Signaled && state != MonitorState::Signaled
            ==> state == MonitorState::Signaling,
{
}

/// The name under which a child's output is logged: the prefix and, in
/// round brackets, the process id.
pub open spec fn label_text(prefix: Seq<char>, pid: u32) -> Seq<char> {
    prefix + "("@ + decimal(pid as nat) + ")"@
}

/// A supervised child: its log label, its process id, the state of its exit
/// monitor, the slot that holds its outcome once it is known, and the
/// coordinator that is raised to end this child alone.
pub struct Process {
    pub label: String,
    pub pid: u32,
    pub state: MonitorState,
    pub exit: Option<Result<ExitStatus, ProcessError>>,
    pub shutdown: ShutdownManager<bool>,
}

impl Process {
    /// The outcome slot is filled exactly when the monitor has finished.
    pub open spec fn well_formed(&self) -> bool {
        self.exit is Some <==> self.state == MonitorState::Exited
    }

    /// What [`Process::new`] makes of a report.
    pub open spec fn spawn_error(report: SpawnReport) -> Option<SpawnError> {
        if !report.started {
            Some(SpawnError::StartFailed)
        } else if !report.stdout_captured {
            Some(SpawnError::NoStdout)
        } else if !report.stderr_captured {
            Some(SpawnError::NoStderr)
        } else if report.pid is None {
            Some(SpawnError::NoPid)
        } else {
            None
        }
    }

    /// Takes a freshly started child under supervision.
    ///
    /// A child that did not start, whose output could not be captured or
    /// that has no process id is refused, in this order. Otherwise the child
    /// runs, its outcome is not yet known, and its label is made of the
    /// prefix and the process id.
    pub fn new(log_prefix: &str, report: SpawnReport) -> (r: Result<Process, SpawnError>)
        ensures
            match r {
                Ok(p) => {
                    &&& Self::spawn_error(report) is None
                    &&& p.pid == report.pid.unwrap()
                    &&& p.label@ == label_text(log_prefix@, p.pid)
                    &&& p.state == MonitorState::Running
                    &&& p.exit is None
                    &&& p.well_formed()
                },
                Err(e) => Self::spawn_error(report) == Some(e),
            },
    {
        if !report.started {
            return Err(SpawnError::StartFailed);
        }
        if !report.stdout_captured {
            return Err(SpawnError::NoStdout);
        }
        if !report.stderr_captured {
            return Err(SpawnError::NoStderr);
        }
        let pid = match report.pid {
            Some(pid) => pid,
            None => {
                return Err(SpawnError::NoPid);
            },
        };
        let mut label = log_prefix.to_owned();
        label.append("(");
        let number = decimal_string(pid);
        label.append(number.as_str());
        label.append(")");
        Ok(Process { label, pid, state: MonitorState::Running, exit: None, shutdown: fresh() })
    }

    /// The process after the monitor has reacted to `event`.
    pub open spec fn after(self, event: MonitorEvent) -> Process {
        let (state, action) = transition(self.state, event);
        Process {
            label: self.label,
            pid: self.pid,
            state,
            exit: match action {
                MonitorAction::Publish(outcome) => Some(outcome),
                _ => self.exit,
            },
            shutdown: self.shutdown,
        }
    }

    /// The process after a run of events, in order.
    pub open spec fn after_all(self, events: Seq<MonitorEvent>) -> Process
        decreases events.len(),
    {
        if events.len() == 0 {
            self
        } else {
            self.after_all(events.drop_last()).after(events.last())
        }
    }

    /// Hands an event to the exit monitor and returns what it asks for. A
    /// published outcome is stored in the slot.
    pub fn on_event(&mut self, event: MonitorEvent) -> (action: MonitorAction)
        requires
            old(self).well_formed(),
        ensures
            *final(self) == old(self).after(event),
            action == transition(old(self).state, event).1,
            final(self).well_formed(),
    {
        let (state, action) = monitor_exit_status(self.state, event);
        self.state = state;
        match action {
            MonitorAction::Publish(outcome) => {
                self.exit = Some(outcome);
            },
            _ => {},
        }
        action
    }

    /// The child's outcome, or `None` while it is not yet known. Asking
    /// changes nothing, so every later call gives the same outcome.
    pub fn wait(&self) -> (r: Option<Result<ExitStatus, ProcessError>>)
        ensures
            r == self.exit,
    {
        self.exit
    }

    /// Requests the end of this child, whatever the state of the rest, and
    /// gives its outcome if that is already known.
    ///
    /// The child's own coordinator is raised, which wakes whoever watches
    /// the child. The first part of the result is what the monitor asks
    /// for: the terminate signal for a running child, nothing where
    /// termination is under way or the child has ended.
    pub fn terminate_and_wait(&mut self) -> (r: (
        MonitorAction,
        Option<Result<ExitStatus, ProcessError>>,
    ))
        requires
            old(self).well_formed(),
        ensures
            *final(self) == old(self).after(MonitorEvent::ShutdownRaised),
            r.0 == transition(old(self).state, MonitorEvent::ShutdownRaised).1,
            r.1 == old(self).exit,
            final(self).well_formed(),
            final(self).state != MonitorState::Running,
    {
        let _ = raise(&self.shutdown);
        let action = self.on_event(MonitorEvent::ShutdownRaised);
        (action, self.wait())
    }
}

/// Once a child's outcome is known, no event changes it: whoever asks, and
/// however often, gets the same outcome.
pub proof fn lemma_outcome_is_stable(p: Process, events: Seq<MonitorEvent>)
    requires
        p.well_formed(),
        p.exit is Some,
    ensures
        p.after_all(events) == p,
    decreases events.len(),
{
    if events.len() > 0 {
        lemma_outcome_is_stable(p, events.drop_last());
    }
}

/// What the events so far must hold for the monitor to be in `state`,
/// counted from a running child: the request to end before the signal, the
/// signal's attempt before the grace period, and the end of the grace
/// period before the kill.
pub open spec fn escalation_seen(state: MonitorState, events: Seq<MonitorEvent>) -> bool {
    let requested = events.contains(MonitorEvent::ShutdownRaised);
    let attempted = events.contains(MonitorEvent::SignalSent) || events.contains(
        MonitorEvent::SignalFailed,
    );
    let timed_out = events.contains(MonitorEvent::GraceElapsed);
    match state {
        MonitorState::Running => true,
        MonitorState::Signaling => requested,
        MonitorState::Signaled => requested && attempted,
        MonitorState::Killed => requested && attempted && timed_out,
        MonitorState::Exited => true,
    }
}

/// Whatever happens to a child that starts out running, it is not killed
/// unless its end was requested, the terminate signal was attempted and the
/// grace period then ran out.
pub proof fn lemma_escalation_order(p: Process, events: Seq<MonitorEvent>)
    requires
        p.state == MonitorState::Running,
    ensures
        escalation_seen(p.after_all(events).state, events),
    decreases events.len(),
{
    if events.len() > 0 {
        let before = events.drop_last();
        lemma_escalation_order(p, before);
        assert(events =~= before.push(events.last()));
        assert forall|e: MonitorEvent| before.contains(e) implies events.contains(e) by {
            let i = choose|i: int| 0 <= i < before.len() && before[i] == e;
            assert(events[i] == e);
        }
        assert(events.contains(events.last())) by {
            assert(events[events.len() - 1] == events.last());
        }
    }
}

/// Every reaction of the monitor keeps the slot in step with the state, and
/// an empty slot is filled at most once.
pub proof fn lemma_after_keeps_well_formed(p: Process, event: MonitorEvent)
    requires
        p.well_formed(),
    ensures
        p.after(event).well_formed(),
        p.exit is Some ==> p.after(event) == p,
{
}

/// The stream that a line of a child's output came from.
#[derive(Clone, Copy, Debug, PartialEq, Eq, Structural)]
pub enum Stream {
    Stdout,
    Stderr,
}

/// One line for the log, and the stream it goes to.
#[derive(Clone, Debug)]
pub struct LogLine {
    pub stream: Stream,
    pub text: String,
}

/// Turns a line read from a child's standard output into a log line.
///
/// An empty line means that the stream has ended: there is nothing to log.
/// Otherwise the line is logged under the child's label, without the
/// whitespace at its end.
pub fn redirect_output(log_prefix: &str, line: &str) -> (r: Option<LogLine>)
    ensures
        line@.len() == 0 <==> r is None,
        r matches Some(l) ==> l.stream == Stream::Stdout && l.text@ == log_text(
            log_prefix@,
            trimmed_end(line@),
        ),
{
    if line.unicode_len() == 0 {
        None
    } else {
        Some(LogLine { stream: Stream::Stdout, text: log_line(log_prefix, trim_end(line)) })
    }
}

/// Turns a line read from a child's standard error into a log line; see
/// [`redirect_output`].
pub fn redirect_error(log_prefix: &str, line: &str) -> (r: Option<LogLine>)
    ensures
        line@.len() == 0 <==> r is None,
        r matches Some(l) ==> l.stream == Stream::Stderr && l.text@ == log_text(
            log_prefix@,
            trimmed_end(line@),
        ),
{
    if line.unicode_len() == 0 {
        None
    } else {
        Some(LogLine { stream: Stream::Stderr, text: log_line(log_prefix, trim_end(line)) })
    }
}

} // verus!
