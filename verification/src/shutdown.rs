//! The two-phase shutdown of a helper process that has left the handle slot:
//! first ask it to exit through its input stream, and kill it only if that
//! request cannot be delivered.
//!
//! The sequence decides; the host performs. The host asks
//! [`ShutdownSequence::pending`] what to do to the child, does it, and hands
//! the result to [`ShutdownSequence::record`], until nothing is pending.

use vstd::prelude::*;
use crate::error::SupervisorError;

verus! {

/// The line written to the helper's input to ask it to exit on its own.
pub fn shutdown_command() -> (command: &'static str)
    ensures
        command@ == "sidecar shutdown\n"@,
{
    "sidecar shutdown\n"
}

/// One thing the host does to the child on behalf of the sequence.
#[derive(Debug, Clone, Copy, PartialEq, Eq, Structural)]
pub enum ChildAction {
    /// Write [`shutdown_command`] to the child's input stream.
    WriteCommand,
    /// Terminate the child unconditionally.
    Kill,
}

/// How a shutdown ended.
#[derive(Debug, Clone, PartialEq, Eq)]
pub enum ShutdownOutcome {
    /// The command was written; the helper is expected to exit by itself.
    Delivered,
    /// The write failed and the helper was killed.
    Killed { write_error: String },
    /// The write failed and so did the kill: the helper may live on unowned.
    Orphaned { write_error: String, kill_error: String },
}

/// Where a shutdown stands.
#[derive(Debug, Clone, PartialEq, Eq)]
pub enum ShutdownSequence {
    /// The command has not been written yet.
    AwaitingWrite,
    /// The write failed with the given text; the kill has not been done yet.
    AwaitingKill { write_error: String },
    /// Nothing is left to do.
    Finished(ShutdownOutcome),
}

impl ShutdownSequence {
    /// The action the host owes the child in this state, if any.
    pub open spec fn next_action(self) -> Option<ChildAction> {
        match self {
            ShutdownSequence::AwaitingWrite => Some(ChildAction::WriteCommand),
            ShutdownSequence::AwaitingKill { .. } => Some(ChildAction::Kill),
            ShutdownSequence::Finished(_) => None,
        }
    }

    /// The state after the pending action ended with `result`. A finished
    /// sequence stays as it is.
    pub open spec fn step(self, result: Result<(), String>) -> ShutdownSequence {
        match self {
            ShutdownSequence::AwaitingWrite => match result {
                Ok(_) => ShutdownSequence::Finished(ShutdownOutcome::Delivered),
                Err(write_error) => ShutdownSequence::AwaitingKill { write_error },
            },
            ShutdownSequence::AwaitingKill { write_error } => match result {
                Ok(_) => ShutdownSequence::Finished(ShutdownOutcome::Killed { write_error }),
                Err(kill_error) => ShutdownSequence::Finished(
                    ShutdownOutcome::Orphaned { write_error, kill_error },
                ),
            },
            ShutdownSequence::Finished(outcome) => ShutdownSequence::Finished(outcome),
        }
    }

    /// A sequence for a child that was just taken out of the slot.
    pub fn begin() -> (sequence: ShutdownSequence)
        ensures
            sequence == ShutdownSequence::AwaitingWrite,
    {
        ShutdownSequence::AwaitingWrite
    }

    /// What the host must do to the child now; `None` once the sequence has
    /// finished.
    pub fn pending(&self) -> (action: Option<ChildAction>)
        ensures
            action == self.next_action(),
    {
        match self {
            ShutdownSequence::AwaitingWrite => Some(ChildAction::WriteCommand),
            ShutdownSequence::AwaitingKill { .. } => Some(ChildAction::Kill),
            ShutdownSequence::Finished(_) => None,
        }
    }

    /// Takes the result of the pending action and moves on.
    pub fn record(self, result: Result<(), String>) -> (next: ShutdownSequence)
        ensures
            next == self.step(result),
    {
        match self {
            ShutdownSequence::AwaitingWrite => match result {
                Ok(_) => ShutdownSequence::Finished(ShutdownOutcome::Delivered),
                Err(write_error) => ShutdownSequence::AwaitingKill { write_error },
            },
            ShutdownSequence::AwaitingKill { write_error } => match result {
                Ok(_) => ShutdownSequence::Finished(ShutdownOutcome::Killed { write_error }),
                Err(kill_error) => ShutdownSequence::Finished(
                    ShutdownOutcome::Orphaned { write_error, kill_error },
                ),
            },
            ShutdownSequence::Finished(outcome) => ShutdownSequence::Finished(outcome),
        }
    }

    /// The outcome of a finished sequence; `None` while an action is pending.
    pub fn outcome(self) -> (outcome: Option<ShutdownOutcome>)
        ensures
            outcome == match self {
                ShutdownSequence::Finished(reached) => Some(reached),
                _ => None,
            },
    {
        match self {
            ShutdownSequence::Finished(reached) => Some(reached),
            _ => None,
        }
    }
}

impl ShutdownOutcome {
    /// What the caller of a shutdown is told: the confirmation, or the
    /// failure that made the supervisor escalate.
    pub open spec fn verdict(self) -> Result<Seq<char>, SupervisorError> {
        match self {
            ShutdownOutcome::Delivered => Ok("'sidecar shutdown' command sent"@),
            ShutdownOutcome::Killed { write_error } => Err(
                SupervisorError::WriteFailure(write_error),
            ),
            ShutdownOutcome::Orphaned { write_error, kill_error } => Err(
                SupervisorError::KillFailure { write_error, kill_error },
            ),
        }
    }

    /// Turns the outcome into the reply of the shutdown operation.
    pub fn into_reply(self) -> (reply: Result<String, SupervisorError>)
        ensures
            match self.verdict() {
                Ok(text) => reply matches Ok(sent) && sent@ == text,
                Err(error) => reply == Err::<String, SupervisorError>(error),
            },
    {
        match self {
            ShutdownOutcome::Delivered => Ok(String::from_str("'sidecar shutdown' command sent")),
            ShutdownOutcome::Killed { write_error } => Err(
                SupervisorError::WriteFailure(write_error),
            ),
            ShutdownOutcome::Orphaned { write_error, kill_error } => Err(
                SupervisorError::KillFailure { write_error, kill_error },
            ),
        }
    }
}

} // verus!
