//! The maintenance task: at a fixed interval it takes a connection from the
//! pool and has the storage engine checkpoint its write-ahead log.
//!
//! The task decides, the owner of the pool acts: each step names what to do
//! next and is told how it went.

use vstd::prelude::*;

verus! {

/// The time between two checkpoints, in seconds.
pub const CHECKPOINT_INTERVAL_SECS: u64 = 60;

/// Where the task stands.
#[derive(Clone, Copy, Debug, PartialEq, Eq, Structural)]
pub enum CheckpointState {
    /// Waiting for the interval to pass.
    Sleeping,
    /// Waiting for a connection from the pool.
    Acquiring,
    /// Waiting for the checkpoint to run.
    Checkpointing,
}

/// What the owner of the pool reports to the task.
#[derive(Clone, Copy, Debug, PartialEq, Eq, Structural)]
pub enum CheckpointEvent {
    /// The interval has passed.
    Elapsed,
    /// The pool handed out a connection.
    Acquired,
    /// The pool had no connection to hand out.
    AcquireFailed,
    /// The checkpoint ran, and the connection is back in the pool.
    Executed,
    /// The checkpoint failed, and the connection is back in the pool.
    ExecuteFailed,
}

/// What the task asks for.
#[derive(Clone, Copy, Debug, PartialEq, Eq, Structural)]
pub enum CheckpointAction {
    /// Wait this many seconds, then report `Elapsed`.
    Sleep(u64),
    /// Take a connection from the pool.
    Acquire,
    /// Run the checkpoint statement on the connection and release it.
    Checkpoint,
}

/// The statement that checkpoints the write-ahead log and truncates it.
pub open spec fn checkpoint_text() -> Seq<char> {
    "PRAGMA wal_checkpoint(TRUNCATE);"@
}

/// The statement that checkpoints the write-ahead log and truncates it.
pub fn checkpoint_statement() -> (statement: &'static str)
    ensures
        statement@ == checkpoint_text(),
{
    "PRAGMA wal_checkpoint(TRUNCATE);"
}

impl CheckpointState {
    /// The state that follows and what the task asks for.
    ///
    /// When the interval has passed the task asks for a connection, and
    /// with a connection for the checkpoint. Whatever else is reported, a
    /// failure included, the task goes back to sleep for a full interval.
    pub open spec fn next(self, event: CheckpointEvent) -> (CheckpointState, CheckpointAction) {
        match (self, event) {
            (CheckpointState::Sleeping, CheckpointEvent::Elapsed) => (
                CheckpointState::Acquiring,
                CheckpointAction::Acquire,
            ),
            (CheckpointState::Acquiring, CheckpointEvent::Acquired) => (
                CheckpointState::Checkpointing,
                CheckpointAction::Checkpoint,
            ),
            _ => (CheckpointState::Sleeping, CheckpointAction::Sleep(CHECKPOINT_INTERVAL_SECS)),
        }
    }
}

/// The maintenance task.
#[derive(Clone, Copy, Debug, PartialEq, Eq)]
pub struct CheckpointTask {
    state: CheckpointState,
}

impl View for CheckpointTask {
    type V = CheckpointState;

    closed spec fn view(&self) -> CheckpointState {
        self.state
    }
}

impl CheckpointTask {
    /// Starts the task. It begins by sleeping for one interval.
    pub fn start() -> (started: (CheckpointTask, CheckpointAction))
        ensures
            started.0@ == CheckpointState::Sleeping,
            started.1 == CheckpointAction::Sleep(CHECKPOINT_INTERVAL_SECS),
    {
        (CheckpointTask { state: CheckpointState::Sleeping }, CheckpointAction::Sleep(CHECKPOINT_INTERVAL_SECS))
    }

    /// Where the task stands.
    pub fn state(&self) -> (state: CheckpointState)
        ensures
            state == self@,
    {
        self.state
    }

    /// Takes a report and names what to do next.
    pub fn step(&mut self, event: CheckpointEvent) -> (action: CheckpointAction)
        ensures
            (final(self)@, action) == old(self)@.next(event),
    {
        let (state, action) = match (self.state, event) {
            (CheckpointState::Sleeping, CheckpointEvent::Elapsed) => (
                CheckpointState::Acquiring,
                CheckpointAction::Acquire,
            ),
            (CheckpointState::Acquiring, CheckpointEvent::Acquired) => (
                CheckpointState::Checkpointing,
                CheckpointAction::Checkpoint,
            ),
            _ => (CheckpointState::Sleeping, CheckpointAction::Sleep(CHECKPOINT_INTERVAL_SECS)),
        };
        self.state = state;
        action
    }
}

/// No failure is fatal and none is retried out of cycle: whatever the state,
/// a failed acquisition and a failed checkpoint send the task back to
/// sleep for a full interval.
pub proof fn law_failure_waits_out_the_interval(state: CheckpointState, event: CheckpointEvent)
    requires
        event == CheckpointEvent::AcquireFailed || event == CheckpointEvent::ExecuteFailed,
    ensures
        state.next(event) == (CheckpointState::Sleeping, CheckpointAction::Sleep(CHECKPOINT_INTERVAL_SECS)),
{
}

/// The cadence is fixed: a connection is asked for only when a sleep has
/// ended, a checkpoint only with the connection that was asked for, and
/// whatever happens to the checkpoint the full interval is slept next.
pub proof fn law_checkpoints_keep_the_cadence(state: CheckpointState, event: CheckpointEvent)
    ensures
        state.next(event).1 == CheckpointAction::Acquire <==> state == CheckpointState::Sleeping && event
            == CheckpointEvent::Elapsed,
        state.next(event).1 == CheckpointAction::Checkpoint <==> state == CheckpointState::Acquiring && event
            == CheckpointEvent::Acquired,
        state == CheckpointState::Checkpointing ==> state.next(event) == (
            CheckpointState::Sleeping,
            CheckpointAction::Sleep(CHECKPOINT_INTERVAL_SECS),
        ),
        state.next(event).1 matches CheckpointAction::Sleep(seconds) ==> seconds == CHECKPOINT_INTERVAL_SECS,
{
}

} // verus!
