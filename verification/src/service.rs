//! The accept loop of the vending service.

use vstd::prelude::*;

verus! {

/// The path of the credential endpoint.
pub const CREDENTIALS_PATH: &'static str = "/get-credentials";

/// What can happen while the service accepts connections.
#[derive(Debug, Clone, Copy, PartialEq, Eq, Structural)]
pub enum ServeEvent {
    /// A connection was accepted.
    Accepted,
    /// Accepting a connection failed.
    AcceptFailed,
    /// A connection that was being served broke.
    ConnectionFailed,
}

/// What the service does next.
#[derive(Debug, Clone, Copy, PartialEq, Eq, Structural)]
pub enum ServeAction {
    /// Serve the new connection alongside the others, and accept the next.
    Handle,
    /// Accept the next connection.
    Continue,
    /// Stop: the service has failed.
    Fail,
}

/// The rule of the accept loop: each accepted connection is served on its
/// own, a broken connection is that connection's matter alone, and only a
/// failure to accept ends the service.
pub open spec fn serve_spec(event: ServeEvent) -> ServeAction {
    match event {
        ServeEvent::Accepted => ServeAction::Handle,
        ServeEvent::ConnectionFailed => ServeAction::Continue,
        ServeEvent::AcceptFailed => ServeAction::Fail,
    }
}

/// One step of the accept loop.
pub fn serve(event: ServeEvent) -> (action: ServeAction)
    ensures
        action == serve_spec(event),
{
    match event {
        ServeEvent::Accepted => ServeAction::Handle,
        ServeEvent::ConnectionFailed => ServeAction::Continue,
        ServeEvent::AcceptFailed => ServeAction::Fail,
    }
}

} // verus!
