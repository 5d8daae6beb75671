//! The session actor: lifecycle status, message handling and the decisions
//! of the multiplexed event loop.
//!
//! A [`SessionActor`] is the entire mutable state of one tunnel session.  It
//! is meant to be owned exclusively by a single event loop that feeds it the
//! inbound messages, the observed exit of the child process and the decoded
//! output lines, and performs the [`Action`] each step asks for.  The actor
//! itself never touches the operating system: the child process, its stream
//! decoders and the reply channels all stay with the embedding loop, in a
//! slot of its own outside the status tag.

use vstd::prelude::*;
use crate::command::{build_command, CommandSpec};
use crate::config::SessionConfig;

verus! {

/// Why a session stopped.
#[derive(Clone, Debug, PartialEq)]
pub enum Outcome {
    /// The process exited with this code.
    Exited { code: i32 },
    /// The process was terminated without an exit code.
    Signaled,
    /// Waiting for the process failed; the message describes the error.
    WaitError { message: String },
    /// The OS refused to start the process; the message describes the error.
    SpawnError { message: String },
}

/// Lifecycle status of one session, exactly one variant at a time.
///
/// `Running` carries no process resources: the embedding loop owns the child
/// process handle and the two stream decoders while the status says
/// `Running`, and releases them when it leaves that status.
#[derive(Clone, Debug, PartialEq)]
pub enum SessionStatus {
    /// No process has ever been spawned, or the session was reset by a stop.
    Fresh,
    /// A child process is believed alive.
    Running,
    /// The process was observed to exit, or could not be spawned.
    Stopped { outcome: Outcome },
}

/// The message protocol: the only channel of mutation and inspection.
#[derive(Clone, Debug, PartialEq)]
pub enum SessionMessage {
    /// Spawn the configured process.  While already running, the old process
    /// reference is replaced without a kill: the first child is orphaned.
    Start,
    /// Detach a kill of the running process and reset to `Fresh` at once,
    /// before the kill is confirmed.
    Stop,
    /// Replace the stored configuration; takes effect on the next `Start`.
    UpdateConfig { config: SessionConfig },
    /// Ask whether the session is healthy.
    HealthQuery,
    /// Ask for a snapshot of the standard-output log.
    StdoutQuery,
    /// Ask for a snapshot of the standard-error log.
    StderrQuery,
}

/// What the embedding loop must perform after one step of the actor.
#[derive(Debug, PartialEq)]
pub enum Action {
    /// Nothing to perform.
    Nothing,
    /// Spawn the described process, then report the result through
    /// [`SessionActor::note_spawn_success`] or
    /// [`SessionActor::note_spawn_failure`] before the next message.
    Spawn { command: CommandSpec },
    /// Kill the child process whose resources the loop still holds, in a
    /// detached task; the result of the kill is discarded.
    Kill,
    /// Answer the pending health query.
    ReplyHealth { healthy: bool },
    /// Answer the pending output query with this snapshot.
    ReplyLines { lines: Vec<String> },
}

/// The status after one message, before any spawn result is known: only a
/// `Stop` while running changes it.
pub open spec fn status_after_message(status: SessionStatus, msg: SessionMessage) -> SessionStatus {
    match msg {
        SessionMessage::Stop => if status is Running {
            SessionStatus::Fresh
        } else {
            status
        },
        _ => status,
    }
}

/// The status after the spawn demanded by a `Start` succeeded: running,
/// whatever the session was doing before.
pub open spec fn status_after_spawn_success(status: SessionStatus) -> SessionStatus {
    SessionStatus::Running
}

/// The four-way wait set of one event-loop iteration.  The message source is
/// always armed; the sources tied to the child process are armed exactly
/// while the session is running, and the loop replaces the others with a
/// placeholder that never becomes ready, so the wait keeps a stable shape
/// and neither spins when idle nor starves message delivery.
#[derive(Clone, Copy, Debug, PartialEq, Eq, Structural)]
pub struct WaitSet {
    /// Wait for the next inbound message.
    pub messages: bool,
    /// Wait for the child process to terminate.
    pub process_exit: bool,
    /// Wait for the next decoded line on standard output.
    pub stdout_line: bool,
    /// Wait for the next decoded line on standard error.
    pub stderr_line: bool,
}

/// One session's entire mutable state: lifecycle status, configuration and
/// the two append-only output logs.
#[derive(Debug)]
pub struct SessionActor {
    /// Current lifecycle status.
    pub status: SessionStatus,
    /// Configuration the next `Start` will spawn with.
    pub config: SessionConfig,
    /// Lines captured from the child's standard output, in arrival order.
    pub stdout: Vec<String>,
    /// Lines captured from the child's standard error, in arrival order.
    pub stderr: Vec<String>,
}

impl SessionActor {
    /// Health: a process was spawned and has not been observed to exit.
    /// A shallow liveness signal only; it says nothing of the tunnel itself.
    pub open spec fn spec_healthy(self) -> bool {
        self.status is Running
    }

    /// A session that has never spawned anything: not healthy, both logs
    /// empty.
    pub fn new(config: SessionConfig) -> (actor: Self)
        ensures
            actor.status is Fresh,
            !actor.spec_healthy(),
            actor.config == config,
            actor.stdout@ == Seq::<String>::empty(),
            actor.stderr@ == Seq::<String>::empty(),
    {
        SessionActor { status: SessionStatus::Fresh, config, stdout: Vec::new(), stderr: Vec::new() }
    }

    /// Point-in-time health signal: `true` iff the status is `Running`.
    pub fn healthy(&self) -> (healthy: bool)
        ensures
            healthy == self.spec_healthy(),
    {
        match &self.status {
            SessionStatus::Running => true,
            _ => false,
        }
    }

    /// A copy of one output log, so a caller never holds a live reference
    /// into the actor's state.
    fn snapshot(lines: &Vec<String>) -> (r: Vec<String>)
        ensures
            r@ == lines@,
    {
        let r = lines.clone();
        proof {
            assert forall|i: int| 0 <= i < lines@.len() implies r@[i] == lines@[i] by {
                assert(cloned::<String>(lines@[i], r@[i]));
            }
            assert(r@ =~= lines@);
        }
        r
    }

    /// Handles one inbound message and says what the loop must do next.
    ///
    /// Every message is accepted in every state.  Queries and configuration
    /// updates never touch the status or the logs; a `Stop` while running
    /// resets the status to `Fresh` at once, before the demanded kill is
    /// confirmed; a `Start` changes nothing by itself, because the state
    /// only moves once the result of the demanded spawn is reported.
    pub fn handle_message(&mut self, msg: SessionMessage) -> (action: Action)
        ensures
            final(self).status == status_after_message(old(self).status, msg),
            final(self).stdout@ == old(self).stdout@,
            final(self).stderr@ == old(self).stderr@,
            !(msg is UpdateConfig) ==> final(self).config == old(self).config,
            (action is Spawn) <==> (msg is Start),
            (action is Kill) <==> (msg is Stop && old(self).status is Running),
            msg is Stop && !(old(self).status is Running) ==> action is Nothing,
            msg is Start ==> (action matches Action::Spawn { command }
                && command.is_for(old(self).config)),
            msg matches SessionMessage::UpdateConfig { config } ==> {
                &&& final(self).config == config
                &&& action is Nothing
            },
            msg is HealthQuery ==> action == (Action::ReplyHealth {
                healthy: old(self).spec_healthy(),
            }),
            msg is StdoutQuery ==> (action matches Action::ReplyLines { lines }
                && lines@ == old(self).stdout@),
            msg is StderrQuery ==> (action matches Action::ReplyLines { lines }
                && lines@ == old(self).stderr@),
    {
        match msg {
            SessionMessage::Start => {
                let command = build_command(&self.config);
                Action::Spawn { command }
            }
            SessionMessage::Stop => {
                match &self.status {
                    SessionStatus::Running => {
                        self.status = SessionStatus::Fresh;
                        Action::Kill
                    }
                    _ => Action::Nothing,
                }
            }
            SessionMessage::UpdateConfig { config } => {
                self.config = config;
                Action::Nothing
            }
            SessionMessage::HealthQuery => {
                let healthy = self.healthy();
                Action::ReplyHealth { healthy }
            }
            SessionMessage::StdoutQuery => {
                Action::ReplyLines { lines: Self::snapshot(&self.stdout) }
            }
            SessionMessage::StderrQuery => {
                Action::ReplyLines { lines: Self::snapshot(&self.stderr) }
            }
        }
    }

    /// Records that the spawn demanded by a `Start` succeeded: the session
    /// is running.  If a process was already running, its reference is
    /// replaced without a kill and the first child is orphaned.
    pub fn note_spawn_success(&mut self)
        ensures
            final(self).status == status_after_spawn_success(old(self).status),
            final(self).spec_healthy(),
            final(self).config == old(self).config,
            final(self).stdout@ == old(self).stdout@,
            final(self).stderr@ == old(self).stderr@,
    {
        self.status = SessionStatus::Running;
    }

    /// Records that the OS refused to start the process: stopped, with the
    /// spawn error as the stored outcome.
    pub fn note_spawn_failure(&mut self, message: String)
        ensures
            final(self).status == (SessionStatus::Stopped {
                outcome: Outcome::SpawnError { message },
            }),
            !final(self).spec_healthy(),
            final(self).config == old(self).config,
            final(self).stdout@ == old(self).stdout@,
            final(self).stderr@ == old(self).stderr@,
    {
        self.status = SessionStatus::Stopped { outcome: Outcome::SpawnError { message } };
    }

    /// Records the observed termination of the running process.  Observation
    /// always reaches `Stopped`, even when retrieving the exit status itself
    /// failed: the error becomes the stored outcome.
    pub fn observe_exit(&mut self, outcome: Outcome)
        requires
            old(self).status is Running,
            !(outcome is SpawnError),
        ensures
            final(self).status == (SessionStatus::Stopped { outcome }),
            !final(self).spec_healthy(),
            final(self).config == old(self).config,
            final(self).stdout@ == old(self).stdout@,
            final(self).stderr@ == old(self).stderr@,
    {
        self.status = SessionStatus::Stopped { outcome };
    }

    /// Appends one decoded line of the child's standard output.  The log is
    /// append-only: everything already captured keeps its place.
    pub fn observe_stdout_line(&mut self, line: String)
        ensures
            final(self).stdout@ == old(self).stdout@.push(line),
            final(self).stderr@ == old(self).stderr@,
            final(self).status == old(self).status,
            final(self).config == old(self).config,
    {
        self.stdout.push(line);
    }

    /// Appends one decoded line of the child's standard error.  The log is
    /// append-only: everything already captured keeps its place.
    pub fn observe_stderr_line(&mut self, line: String)
        ensures
            final(self).stderr@ == old(self).stderr@.push(line),
            final(self).stdout@ == old(self).stdout@,
            final(self).status == old(self).status,
            final(self).config == old(self).config,
    {
        self.stderr.push(line);
    }

    /// The wait set for the next iteration of the event loop.
    pub fn wait_set(&self) -> (w: WaitSet)
        ensures
            w.messages,
            w.process_exit == self.spec_healthy(),
            w.stdout_line == self.spec_healthy(),
            w.stderr_line == self.spec_healthy(),
    {
        let running = self.healthy();
        WaitSet { messages: true, process_exit: running, stdout_line: running, stderr_line: running }
    }
}

/// `Stop` on a session that is not running is a no-op: the status after the
/// message equals the status before.  (That no process is spawned either is
/// part of the contract of `handle_message`: only `Start` yields a spawn.)
pub proof fn lemma_stop_noop(status: SessionStatus)
    requires
        !(status is Running),
    ensures
        status_after_message(status, SessionMessage::Stop) == status,
{
}

/// A `Start` leaves the stored state untouched until the spawn result is
/// known, and a successful spawn leaves the session running whatever it was
/// doing before: two `Start`s in a row, each with a successful spawn, end
/// with a running session, never a wedged one.
pub proof fn lemma_double_start(status: SessionStatus)
    ensures
        ({
            let once = status_after_spawn_success(
                status_after_message(status, SessionMessage::Start),
            );
            let twice = status_after_spawn_success(
                status_after_message(once, SessionMessage::Start),
            );
            &&& once is Running
            &&& twice is Running
        }),
{
}

/// Lines of one stream keep their arrival order: observing a line only
/// appends it, so two lines observed one after the other stand at increasing
/// positions, with everything captured before them unchanged.
pub proof fn lemma_lines_keep_order(log: Seq<String>, first: String, second: String)
    ensures
        ({
            let after = log.push(first).push(second);
            &&& after.len() == log.len() + 2
            &&& (forall|i: int| 0 <= i < log.len() ==> after[i] == log[i])
            &&& after[log.len() as int] == first
            &&& after[log.len() as int + 1] == second
        }),
{
}

} // verus!
