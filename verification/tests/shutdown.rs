//! The shutdown sequence, step by step.

use sidecar_shell::error::SupervisorError;
use sidecar_shell::shutdown::{shutdown_command, ChildAction, ShutdownOutcome, ShutdownSequence};

fn text(value: &str) -> String {
    String::from(value)
}

#[test]
fn shutdown_command_is_the_sentinel_line() {
    assert_eq!(shutdown_command(), "sidecar shutdown\n");
    assert_eq!(shutdown_command().as_bytes(), b"sidecar shutdown\n");
}

#[test]
fn sequence_begins_with_the_write() {
    let sequence = ShutdownSequence::begin();
    assert_eq!(sequence, ShutdownSequence::AwaitingWrite);
    assert_eq!(sequence.pending(), Some(ChildAction::WriteCommand));
    assert_eq!(sequence.outcome(), None);
}

#[test]
fn successful_write_finishes_without_kill() {
    let sequence = ShutdownSequence::begin().record(Ok(()));
    assert_eq!(sequence, ShutdownSequence::Finished(ShutdownOutcome::Delivered));
    assert_eq!(sequence.pending(), None);
    assert_eq!(sequence.outcome(), Some(ShutdownOutcome::Delivered));
}

#[test]
fn failed_write_asks_for_one_kill() {
    let sequence = ShutdownSequence::begin().record(Err(text("stream closed")));
    assert_eq!(
        sequence,
        ShutdownSequence::AwaitingKill {
            write_error: text("stream closed")
        }
    );
    assert_eq!(sequence.pending(), Some(ChildAction::Kill));
    assert_eq!(sequence.clone().outcome(), None);

    let killed = sequence.clone().record(Ok(()));
    assert_eq!(killed.pending(), None);
    assert_eq!(
        killed.outcome(),
        Some(ShutdownOutcome::Killed {
            write_error: text("stream closed")
        })
    );

    let orphaned = sequence.record(Err(text("permission denied")));
    assert_eq!(orphaned.pending(), None);
    assert_eq!(
        orphaned.outcome(),
        Some(ShutdownOutcome::Orphaned {
            write_error: text("stream closed"),
            kill_error: text("permission denied"),
        })
    );
}

#[test]
fn finished_sequence_ignores_further_results() {
    let finished = ShutdownSequence::begin().record(Ok(()));
    let again = finished.clone().record(Err(text("late")));
    assert_eq!(again, finished);
    let again = again.record(Ok(()));
    assert_eq!(again, finished);
}

#[test]
fn replies_of_the_three_outcomes() {
    assert_eq!(
        ShutdownOutcome::Delivered.into_reply(),
        Ok(text("'sidecar shutdown' command sent"))
    );
    assert_eq!(
        ShutdownOutcome::Killed {
            write_error: text("broken pipe")
        }
        .into_reply(),
        Err(SupervisorError::WriteFailure(text("broken pipe")))
    );
    assert_eq!(
        ShutdownOutcome::Orphaned {
            write_error: text("broken pipe"),
            kill_error: text("gone"),
        }
        .into_reply(),
        Err(SupervisorError::KillFailure {
            write_error: text("broken pipe"),
            kill_error: text("gone"),
        })
    );
}

#[test]
fn error_messages() {
    assert_eq!(
        SupervisorError::Configuration.message(),
        "Failed to access app state"
    );
    assert_eq!(
        SupervisorError::Launch(text("No such file or directory")).message(),
        "No such file or directory"
    );
    assert_eq!(
        SupervisorError::NoActiveProcess.message(),
        "No active sidecar process to shutdown"
    );
    assert_eq!(
        SupervisorError::WriteFailure(text("broken pipe")).message(),
        "Failed to write to sidecar stdin: broken pipe"
    );
    assert_eq!(
        SupervisorError::KillFailure {
            write_error: text("broken pipe"),
            kill_error: text("gone"),
        }
        .message(),
        "Failed to write to sidecar stdin: broken pipe; failed to force kill sidecar process: gone"
    );
}
