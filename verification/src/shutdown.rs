//! Graceful shutdown: stop accepting connections on request, let in-flight
//! requests finish, and give up on them after a deadline.
use vstd::prelude::*;

verus! {

/// Where the server stands.
#[derive(Debug, Clone, PartialEq, Eq)]
pub enum ServerPhase {
    Serving,
    Draining,
    Stopped,
}

/// What the server loop observed.
#[derive(Debug, Clone, PartialEq, Eq)]
pub enum ServerEvent {
    /// The server task ended by itself; `ok` tells whether it ended cleanly.
    ServerExited { ok: bool },
    /// A shutdown signal arrived.
    ShutdownRequested,
    /// Draining ended within the deadline; `ok` tells whether cleanly.
    DrainFinished { ok: bool },
    /// The deadline passed with requests still running.
    DrainTimedOut,
}

/// What the server loop does next.
#[derive(Debug, Clone, PartialEq, Eq)]
pub enum ServerAction {
    /// Keep waiting for the next event.
    Wait,
    /// Stop accepting connections and wait, up to the deadline, for requests to end.
    StartDraining,
    /// Abort the requests still running, then return success.
    AbortAndFinish,
    /// Return, with success or the server's failure.
    Finish { ok: bool },
}

/// The phase and action that `shutdown_step` takes.
pub open spec fn spec_shutdown_step(phase: ServerPhase, event: ServerEvent) -> (ServerPhase, ServerAction) {
    match (phase, event) {
        (ServerPhase::Serving, ServerEvent::ServerExited { ok }) => (
            ServerPhase::Stopped,
            ServerAction::Finish { ok },
        ),
        (ServerPhase::Serving, ServerEvent::ShutdownRequested) => (
            ServerPhase::Draining,
            ServerAction::StartDraining,
        ),
        (ServerPhase::Draining, ServerEvent::DrainFinished { ok }) => (
            ServerPhase::Stopped,
            ServerAction::Finish { ok },
        ),
        (ServerPhase::Draining, ServerEvent::DrainTimedOut) => (
            ServerPhase::Stopped,
            ServerAction::AbortAndFinish,
        ),
        (p, _) => (p, ServerAction::Wait),
    }
}

/// The next phase and action of the server loop. A shutdown request is never
/// undone, and a stalled request cannot hold the server past the deadline.
pub fn shutdown_step(phase: ServerPhase, event: ServerEvent) -> (r: (ServerPhase, ServerAction))
    ensures
        r == spec_shutdown_step(phase, event),
{
    match (phase, event) {
        (ServerPhase::Serving, ServerEvent::ServerExited { ok }) => (
            ServerPhase::Stopped,
            ServerAction::Finish { ok },
        ),
        (ServerPhase::Serving, ServerEvent::ShutdownRequested) => (
            ServerPhase::Draining,
            ServerAction::StartDraining,
        ),
        (ServerPhase::Draining, ServerEvent::DrainFinished { ok }) => (
            ServerPhase::Stopped,
            ServerAction::Finish { ok },
        ),
        (ServerPhase::Draining, ServerEvent::DrainTimedOut) => (
            ServerPhase::Stopped,
            ServerAction::AbortAndFinish,
        ),
        (p, _) => (p, ServerAction::Wait),
    }
}

} // verus!
