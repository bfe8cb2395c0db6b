//! Error taxonomy of the supervisor.

use vstd::prelude::*;

verus! {

/// Every failure the supervisor can observe or report.
#[derive(Clone, Copy, Debug, PartialEq, Eq, Structural)]
pub enum SupervisorError {
    /// The platform shell could not be started to spawn the service.
    SpawnFailed,
    /// The handshake file does not exist.
    NotFound,
    /// The handshake file exists but a required entry is missing or invalid.
    MalformedContent,
    /// The termination command could not be started.
    TerminateFailed,
    /// The handshake file could not be removed.
    DeleteFailed,
    /// The audit log entry could not be written.
    LogWriteFailed,
}

impl SupervisorError {
    /// A short human-readable description of the failure.
    pub fn message(&self) -> (r: &'static str)
        ensures
            r@ == match *self {
                SupervisorError::SpawnFailed => "failed to start the service"@,
                SupervisorError::NotFound => "handshake file not found"@,
                SupervisorError::MalformedContent => "handshake file is malformed"@,
                SupervisorError::TerminateFailed => "failed to run the termination command"@,
                SupervisorError::DeleteFailed => "failed to remove the handshake file"@,
                SupervisorError::LogWriteFailed => "failed to write the audit log entry"@,
            },
    {
        match *self {
            SupervisorError::SpawnFailed => "failed to start the service",
            SupervisorError::NotFound => "handshake file not found",
            SupervisorError::MalformedContent => "handshake file is malformed",
            SupervisorError::TerminateFailed => "failed to run the termination command",
            SupervisorError::DeleteFailed => "failed to remove the handshake file",
            SupervisorError::LogWriteFailed => "failed to write the audit log entry",
        }
    }
}

} // verus!
