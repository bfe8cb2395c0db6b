//! Lifecycle orchestrator.
//!
//! A state machine drives the supervisor in response to application
//! lifecycle events: on "ready" it launches the service, and on "exit
//! requested" it runs the cleanup sequence — read the handshake file,
//! signal the service, append the audit entry, remove the handshake
//! file, then exit — each step best-effort.  The surrounding
//! application performs the returned action (spawn, signal, file I/O)
//! and hands the outcome back as the next event.

use crate::errors::SupervisorError;
use crate::handshake::{handshake_ok, handshake_url, parse_handshake};
use vstd::prelude::*;

verus! {

/// Where the cleanup sequence stands while terminating.
#[derive(Clone, Copy, Debug, PartialEq, Eq, Structural)]
pub enum TermStep {
    /// The handshake file is being read to learn the identifier.
    ReadingHandshake,
    /// The termination command for `pid` is being run.
    Signaling { pid: u32 },
    /// The audit entry for `pid` is being written.
    Logging { pid: u32 },
    /// The handshake file is being removed.
    Removing,
}

/// The lifecycle phase of the supervised service.
#[derive(Clone, Copy, Debug, PartialEq, Eq, Structural)]
pub enum Phase {
    /// Nothing launched yet.
    Idle,
    /// The launch was requested.
    Launching,
    /// The launch attempt finished; the service is presumed running.
    Running,
    /// Exit was requested; cleanup is under way.
    Terminating { step: TermStep },
    /// Cleanup finished; the application process exits.
    Terminated,
}

/// An application lifecycle event, or the outcome of a previously
/// requested action.
#[derive(Clone, Copy, Debug, PartialEq, Eq, Structural)]
pub enum Event {
    /// The application finished starting up.
    Ready,
    /// The spawn attempt finished; a failed launch is tolerated.
    LaunchDone { ok: bool },
    /// The user or the system asked the application to close.
    ExitRequested,
    /// The handshake file was read and parsed; `pid` is the advertised
    /// identifier.
    HandshakeReadOk { pid: u32 },
    /// The handshake file is missing or malformed.
    HandshakeReadFailed,
    /// The termination command ran (`started`), or could not be
    /// started (`!started`); its exit code is not inspected.
    TerminateDone { started: bool },
    /// The audit entry was written, or the write failed.
    AuditDone { ok: bool },
    /// The handshake file was removed, or the removal failed.
    RemoveDone { ok: bool },
    /// A second application instance was launched while this one is
    /// active; `window_found` tells whether this instance's main
    /// window could be located.
    SecondInstance { window_found: bool },
}

/// What the application must do next on behalf of the supervisor.
#[derive(Clone, Copy, Debug, PartialEq, Eq, Structural)]
pub enum Action {
    /// Spawn the service, detached, and do not wait for it.
    Launch,
    /// Read and parse the handshake file.
    ReadHandshake,
    /// Run the platform termination command against `pid`.
    Terminate { pid: u32 },
    /// Append the audit entry recording the termination of `pid`.
    AppendAudit { pid: u32 },
    /// Delete the handshake file.
    RemoveHandshake,
    /// Exit the application process with a success status.
    ExitProcess,
    /// Focus the existing instance's main window.
    FocusExistingWindow,
}

/// The transition relation of the orchestrator.  Every pair not
/// listed leaves the phase unchanged and asks for nothing: stray
/// completion events are ignored, and `Terminated` is terminal.
///
/// Exit may be requested before the launch as well; the same cleanup
/// sequence runs whatever went before.
pub open spec fn step_spec(phase: Phase, event: Event) -> (Phase, Option<Action>) {
    match (phase, event) {
        (Phase::Idle, Event::Ready) => (Phase::Launching, Some(Action::Launch)),
        (Phase::Launching, Event::LaunchDone { .. }) => (Phase::Running, None),
        (Phase::Idle, Event::ExitRequested) | (Phase::Launching, Event::ExitRequested)
            | (Phase::Running, Event::ExitRequested) => (
            Phase::Terminating { step: TermStep::ReadingHandshake },
            Some(Action::ReadHandshake),
        ),
        (
            Phase::Terminating { step: TermStep::ReadingHandshake },
            Event::HandshakeReadOk { pid },
        ) => (Phase::Terminating { step: TermStep::Signaling { pid } }, Some(Action::Terminate { pid })),
        (Phase::Terminating { step: TermStep::ReadingHandshake }, Event::HandshakeReadFailed) => (
            Phase::Terminated,
            Some(Action::ExitProcess),
        ),
        (
            Phase::Terminating { step: TermStep::Signaling { pid } },
            Event::TerminateDone { started: true },
        ) => (Phase::Terminating { step: TermStep::Logging { pid } }, Some(Action::AppendAudit { pid })),
        (
            Phase::Terminating { step: TermStep::Signaling { .. } },
            Event::TerminateDone { started: false },
        ) => (Phase::Terminated, Some(Action::ExitProcess)),
        (Phase::Terminating { step: TermStep::Logging { .. } }, Event::AuditDone { .. }) => (
            Phase::Terminating { step: TermStep::Removing },
            Some(Action::RemoveHandshake),
        ),
        (Phase::Terminating { step: TermStep::Removing }, Event::RemoveDone { .. }) => (
            Phase::Terminated,
            Some(Action::ExitProcess),
        ),
        (p, Event::SecondInstance { window_found }) => if p is Terminated {
            (p, None)
        } else if window_found {
            (p, Some(Action::FocusExistingWindow))
        } else {
            (p, None)
        },
        (p, _) => (p, None),
    }
}

/// Advances the orchestrator by one event, returning the next phase
/// and the action, if any, that the application must perform.
pub fn step(phase: Phase, event: Event) -> (r: (Phase, Option<Action>))
    ensures
        r == step_spec(phase, event),
{
    match (phase, event) {
        (Phase::Idle, Event::Ready) => (Phase::Launching, Some(Action::Launch)),
        (Phase::Launching, Event::LaunchDone { .. }) => (Phase::Running, None),
        (Phase::Idle, Event::ExitRequested) | (Phase::Launching, Event::ExitRequested)
            | (Phase::Running, Event::ExitRequested) => (
            Phase::Terminating { step: TermStep::ReadingHandshake },
            Some(Action::ReadHandshake),
        ),
        (
            Phase::Terminating { step: TermStep::ReadingHandshake },
            Event::HandshakeReadOk { pid },
        ) => (Phase::Terminating { step: TermStep::Signaling { pid } }, Some(Action::Terminate { pid })),
        (Phase::Terminating { step: TermStep::ReadingHandshake }, Event::HandshakeReadFailed) => (
            Phase::Terminated,
            Some(Action::ExitProcess),
        ),
        (
            Phase::Terminating { step: TermStep::Signaling { pid } },
            Event::TerminateDone { started: true },
        ) => (Phase::Terminating { step: TermStep::Logging { pid } }, Some(Action::AppendAudit { pid })),
        (
            Phase::Terminating { step: TermStep::Signaling { .. } },
            Event::TerminateDone { started: false },
        ) => (Phase::Terminated, Some(Action::ExitProcess)),
        (Phase::Terminating { step: TermStep::Logging { .. } }, Event::AuditDone { .. }) => (
            Phase::Terminating { step: TermStep::Removing },
            Some(Action::RemoveHandshake),
        ),
        (Phase::Terminating { step: TermStep::Removing }, Event::RemoveDone { .. }) => (
            Phase::Terminated,
            Some(Action::ExitProcess),
        ),
        (p, Event::SecondInstance { window_found }) => {
            if matches!(p, Phase::Terminated) {
                (p, None)
            } else if window_found {
                (p, Some(Action::FocusExistingWindow))
            } else {
                (p, None)
            }
        },
        (p, _) => (p, None),
    }
}

/// Termination sequencing: once exit is requested and the handshake
/// file advertises `pid`, the orchestrator asks, in this order, for a
/// read of the handshake file, a termination signal to `pid`, then
/// exactly one audit entry for `pid`, then the removal of the
/// handshake file, then process exit — and the order does not depend
/// on whether the audit write or the removal succeeds.
pub proof fn lemma_termination_sequence(start: Phase, pid: u32, audit_ok: bool, remove_ok: bool)
    requires
        start == Phase::Idle || start == Phase::Launching || start == Phase::Running,
    ensures
        ({
            let r0 = step_spec(start, Event::ExitRequested);
            let r1 = step_spec(r0.0, Event::HandshakeReadOk { pid });
            let r2 = step_spec(r1.0, Event::TerminateDone { started: true });
            let r3 = step_spec(r2.0, Event::AuditDone { ok: audit_ok });
            let r4 = step_spec(r3.0, Event::RemoveDone { ok: remove_ok });
            r0.1 == Some(Action::ReadHandshake) && r1.1 == Some(Action::Terminate { pid })
                && r2.1 == Some(Action::AppendAudit { pid }) && r3.1 == Some(
                Action::RemoveHandshake,
            ) && r4.1 == Some(Action::ExitProcess) && r4.0 == Phase::Terminated
        }),
{
}

/// Missing handshake on exit: when exit is requested and the
/// handshake file cannot be read, the orchestrator goes straight to
/// process exit — it never asks for a termination signal, an audit
/// entry, or a removal.
pub proof fn lemma_missing_handshake_on_exit(start: Phase)
    requires
        start == Phase::Idle || start == Phase::Launching || start == Phase::Running,
    ensures
        ({
            let r1 = step_spec(start, Event::ExitRequested);
            let r2 = step_spec(r1.0, Event::HandshakeReadFailed);
            r1.1 == Some(Action::ReadHandshake) && r2.0 == Phase::Terminated && r2.1 == Some(
                Action::ExitProcess,
            )
        }),
{
}

/// Single instance: a second launch attempt never launches the
/// service again and never changes the phase; it asks for exactly one
/// focus of the existing window when one was found, and for nothing
/// otherwise.
pub proof fn lemma_single_instance(phase: Phase, window_found: bool)
    ensures
        step_spec(phase, Event::SecondInstance { window_found }).0 == phase,
        step_spec(phase, Event::SecondInstance { window_found }).1 != Some(Action::Launch),
        phase != Phase::Terminated && window_found ==> step_spec(
            phase,
            Event::SecondInstance { window_found },
        ).1 == Some(Action::FocusExistingWindow),
        !window_found ==> step_spec(phase, Event::SecondInstance { window_found }).1 is None,
{
}

/// The UI-facing query: the current service address, from handshake
/// file content the application just read (`None` when the file does
/// not exist).  Returns a typed error instead of failing outright:
/// `NotFound` without a file, `MalformedContent` when the content
/// does not parse.
pub fn get_server_url(content: Option<&str>) -> (r: Result<String, SupervisorError>)
    ensures
        match content {
            Some(c) => match r {
                Ok(url) => handshake_ok(c@) && Some(url@) == handshake_url(c@),
                Err(e) => e == SupervisorError::MalformedContent && !handshake_ok(c@),
            },
            None => r matches Err(e) && e == SupervisorError::NotFound,
        },
{
    match content {
        Some(c) => match parse_handshake(c) {
            Ok(info) => Ok(info.url),
            Err(e) => Err(e),
        },
        None => Err(SupervisorError::NotFound),
    }
}

} // verus!
