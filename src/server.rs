use vstd::prelude::*;

use crate::error::TransportError;

verus! {

/// Where the server loop stands.
#[derive(Clone, Copy, Debug, PartialEq, Eq)]
pub enum ServerPhase {
    /// The listening endpoint is not bound yet.
    Binding,
    /// Bound; waiting for the next inbound connection.
    Accepting,
    /// The loop has ended with this outcome.
    Stopped { outcome: Result<(), TransportError> },
}

/// What the loop around the server reports back to it.
#[derive(Clone, Copy, Debug, PartialEq, Eq, Structural)]
pub enum ServerEvent {
    /// The listening endpoint is bound (for TLS, with its acceptor built).
    Bound,
    /// Binding failed; for TLS this covers missing or unusable identity material.
    BindFailed(TransportError),
    /// A connection was accepted (for TLS, with its handshake done).
    Accepted,
    /// Accepting one connection failed; the listener itself is still usable.
    AcceptFailed(TransportError),
    /// The listener cannot accept any more connections.
    ListenerClosed,
}

/// What the server asks the loop around it to do next.
#[derive(Clone, Copy, Debug, PartialEq, Eq)]
pub enum ServerAction {
    /// Bind the listening endpoint.
    Bind,
    /// Accept the next connection.
    Accept,
    /// Hand the accepted connection to its own echo task, without waiting
    /// for it, then accept the next connection.
    Dispatch,
    /// End the loop with this outcome.
    Stop(Result<(), TransportError>),
}

/// The action that a phase repeats when an event does not fit it.
pub open spec fn pending_action(phase: ServerPhase) -> ServerAction {
    match phase {
        ServerPhase::Binding => ServerAction::Bind,
        ServerPhase::Accepting => ServerAction::Accept,
        ServerPhase::Stopped { outcome } => ServerAction::Stop(outcome),
    }
}

/// One transition of the server loop. A failure to bind is fatal; a failure
/// to accept or to finish one handshake drops that connection only; the loop
/// ends on its own only when the listener is gone.
pub open spec fn server_step(phase: ServerPhase, event: ServerEvent) -> (ServerPhase, ServerAction) {
    match (phase, event) {
        (ServerPhase::Binding, ServerEvent::Bound) => (ServerPhase::Accepting, ServerAction::Accept),
        (ServerPhase::Binding, ServerEvent::BindFailed(e)) => (
            ServerPhase::Stopped { outcome: Err(e) },
            ServerAction::Stop(Err(e)),
        ),
        (ServerPhase::Accepting, ServerEvent::Accepted) => (
            ServerPhase::Accepting,
            ServerAction::Dispatch,
        ),
        (ServerPhase::Accepting, ServerEvent::AcceptFailed(_)) => (
            ServerPhase::Accepting,
            ServerAction::Accept,
        ),
        (ServerPhase::Accepting, ServerEvent::ListenerClosed) => (
            ServerPhase::Stopped { outcome: Err(TransportError::Accept) },
            ServerAction::Stop(Err(TransportError::Accept)),
        ),
        _ => (phase, pending_action(phase)),
    }
}

/// What kind of failure an accept ran into.
#[derive(Clone, Copy, Debug, PartialEq, Eq, Structural)]
pub enum AcceptFailure {
    /// The socket layer reported that the listener is no longer a valid
    /// listening socket.
    InvalidListener,
    /// The TLS handshake of the accepted connection failed.
    Handshake,
    /// Any other failure of the socket layer, such as a connection reset
    /// before it was accepted or a lack of file descriptors.
    Other,
}

/// The event that an accept failure amounts to: only an invalid listener
/// ends the loop; every other failure loses one connection.
pub open spec fn spec_accept_failure_event(f: AcceptFailure) -> ServerEvent {
    match f {
        AcceptFailure::InvalidListener => ServerEvent::ListenerClosed,
        AcceptFailure::Handshake => ServerEvent::AcceptFailed(TransportError::Handshake),
        AcceptFailure::Other => ServerEvent::AcceptFailed(TransportError::Accept),
    }
}

/// Classifies an accept failure as the event that the server loop takes.
pub fn accept_failure_event(f: AcceptFailure) -> (r: ServerEvent)
    ensures
        r == spec_accept_failure_event(f),
{
    match f {
        AcceptFailure::InvalidListener => ServerEvent::ListenerClosed,
        AcceptFailure::Handshake => ServerEvent::AcceptFailed(TransportError::Handshake),
        AcceptFailure::Other => ServerEvent::AcceptFailed(TransportError::Accept),
    }
}

/// The decisions of the server loop: bind once, then accept and dispatch.
pub struct ServerLoop {
    pub phase: ServerPhase,
}

impl ServerLoop {
    /// A loop that has not bound yet.
    pub fn new() -> (r: ServerLoop)
        ensures
            r.phase == ServerPhase::Binding,
    {
        ServerLoop { phase: ServerPhase::Binding }
    }

    /// The first action: bind.
    pub fn start(&self) -> (a: ServerAction)
        ensures
            a == pending_action(self.phase),
    {
        match self.phase {
            ServerPhase::Binding => ServerAction::Bind,
            ServerPhase::Accepting => ServerAction::Accept,
            ServerPhase::Stopped { outcome } => ServerAction::Stop(outcome),
        }
    }

    /// Takes the event that the last action led to and returns the next action.
    pub fn step(&mut self, event: ServerEvent) -> (a: ServerAction)
        ensures
            (final(self).phase, a) == server_step(old(self).phase, event),
    {
        match (self.phase, event) {
            (ServerPhase::Binding, ServerEvent::Bound) => {
                self.phase = ServerPhase::Accepting;
                ServerAction::Accept
            },
            (ServerPhase::Binding, ServerEvent::BindFailed(e)) => {
                self.phase = ServerPhase::Stopped { outcome: Err(e) };
                ServerAction::Stop(Err(e))
            },
            (ServerPhase::Accepting, ServerEvent::Accepted) => ServerAction::Dispatch,
            (ServerPhase::Accepting, ServerEvent::AcceptFailed(_)) => ServerAction::Accept,
            (ServerPhase::Accepting, ServerEvent::ListenerClosed) => {
                self.phase = ServerPhase::Stopped { outcome: Err(TransportError::Accept) };
                ServerAction::Stop(Err(TransportError::Accept))
            },
            _ => self.start(),
        }
    }
}

} // verus!
