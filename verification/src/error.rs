//! The failures a supervisor operation can report.

use vstd::prelude::*;

verus! {

/// Why a supervisor operation did not succeed.
///
/// Every failure is handed back to the caller as a value; none of them stops
/// the hosting application.
#[derive(Debug, Clone, PartialEq, Eq)]
pub enum SupervisorError {
    /// The handle slot is not available: it was never initialised, or it has
    /// already been torn down.
    Configuration,
    /// The helper executable could not be launched; holds the launcher's text.
    Launch(String),
    /// A shutdown was requested while no helper process was in the slot.
    NoActiveProcess,
    /// The shutdown command could not be delivered, and the helper was then
    /// killed; holds the text of the failed write.
    WriteFailure(String),
    /// The shutdown command could not be delivered and the kill failed as
    /// well, so the helper may still be alive without an owner.
    KillFailure { write_error: String, kill_error: String },
}

impl SupervisorError {
    /// The text shown to whoever asked for the operation.
    pub open spec fn text(self) -> Seq<char> {
        match self {
            SupervisorError::Configuration => "Failed to access app state"@,
            SupervisorError::Launch(reason) => reason@,
            SupervisorError::NoActiveProcess => "No active sidecar process to shutdown"@,
            SupervisorError::WriteFailure(reason) => "Failed to write to sidecar stdin: "@
                + reason@,
            SupervisorError::KillFailure { write_error, kill_error } =>
                "Failed to write to sidecar stdin: "@ + write_error@
                    + "; failed to force kill sidecar process: "@ + kill_error@,
        }
    }

    /// Renders the failure as the text of [`SupervisorError::text`].
    pub fn message(&self) -> (rendered: String)
        ensures
            rendered@ == self.text(),
    {
        match self {
            SupervisorError::Configuration => String::from_str("Failed to access app state"),
            SupervisorError::Launch(reason) => reason.clone(),
            SupervisorError::NoActiveProcess => String::from_str(
                "No active sidecar process to shutdown",
            ),
            SupervisorError::WriteFailure(reason) => {
                String::from_str("Failed to write to sidecar stdin: ").concat(reason.as_str())
            },
            SupervisorError::KillFailure { write_error, kill_error } => {
                String::from_str("Failed to write to sidecar stdin: ")
                    .concat(write_error.as_str())
                    .concat("; failed to force kill sidecar process: ")
                    .concat(kill_error.as_str())
            },
        }
    }
}

} // verus!
