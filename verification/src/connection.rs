//! The life of one accepted connection: an optional TLS handshake, then
//! requests served until the peer or a fault ends it.
//!
//! A connection knows nothing but itself. Whatever is reported to it changes
//! this connection only, so a fault on one cannot reach another, nor the
//! acceptor.

use crate::acceptor::TransportMode;
use crate::request::Request;
use crate::service::awaits;
use crate::service::Pending;
use crate::service::Service;
use crypt_config::config::SyncedConfig;
use std::sync::Arc;
use vstd::prelude::*;

verus! {

/// Why a connection was closed.
#[derive(Clone, Copy, Debug, PartialEq, Eq, Structural)]
pub enum CloseReason {
    /// The TLS handshake did not complete.
    HandshakeFailed,
    /// The peer was served and the connection came to its end.
    Finished,
    /// An I/O error, malformed HTTP framing, or a report that does not fit
    /// the state of the connection.
    TransportError,
}

/// Where a connection stands.
#[derive(Clone, Copy, Debug, PartialEq, Eq, Structural)]
pub enum ConnectionPhase {
    /// The TLS handshake is under way. No request is read yet.
    Handshaking,
    /// Requests are read and answered, one after the other.
    Serving,
    /// The connection is over.
    Closed(CloseReason),
}

/// What the caller reports to a connection.
#[derive(Clone, Copy, Debug, PartialEq, Eq, Structural)]
pub enum ConnectionEvent {
    HandshakeCompleted,
    HandshakeFailed,
    /// The HTTP exchange on the connection ended in good order.
    ServeFinished,
    /// The transport or the HTTP framing failed.
    TransportFailed,
}

/// What a connection asks the caller to do.
#[derive(Clone, Copy, Debug, PartialEq, Eq, Structural)]
pub enum ConnectionAction {
    /// Perform the server side of the TLS handshake.
    Handshake,
    /// Drive HTTP on the transport, answering requests with the service of
    /// this connection.
    Serve,
    /// Drop the transport and end the task.
    Close(CloseReason),
}

/// The phase a connection starts in: a plain transport is served at once, a
/// TLS transport after its handshake.
pub open spec fn connection_opening(mode: TransportMode) -> ConnectionPhase {
    match mode {
        TransportMode::Plain => ConnectionPhase::Serving,
        TransportMode::Tls => ConnectionPhase::Handshaking,
    }
}

/// The phase that follows `phase` when `event` is reported.
///
/// A completed handshake opens the connection for requests. Every failure,
/// and every report that does not fit the phase, closes the connection. A
/// closed connection stays closed.
pub open spec fn connection_next(phase: ConnectionPhase, event: ConnectionEvent) -> ConnectionPhase {
    match (phase, event) {
        (ConnectionPhase::Closed(reason), _) => ConnectionPhase::Closed(reason),
        (ConnectionPhase::Handshaking, ConnectionEvent::HandshakeCompleted) => ConnectionPhase::Serving,
        (ConnectionPhase::Handshaking, ConnectionEvent::HandshakeFailed) => ConnectionPhase::Closed(
            CloseReason::HandshakeFailed,
        ),
        (ConnectionPhase::Serving, ConnectionEvent::ServeFinished) => ConnectionPhase::Closed(
            CloseReason::Finished,
        ),
        _ => ConnectionPhase::Closed(CloseReason::TransportError),
    }
}

/// The work a phase waits for.
pub open spec fn connection_pending(phase: ConnectionPhase) -> ConnectionAction {
    match phase {
        ConnectionPhase::Handshaking => ConnectionAction::Handshake,
        ConnectionPhase::Serving => ConnectionAction::Serve,
        ConnectionPhase::Closed(reason) => ConnectionAction::Close(reason),
    }
}

/// One accepted connection with the service that answers its requests.
pub struct Connection {
    phase: ConnectionPhase,
    service: Service,
}

impl Connection {
    /// The phase this connection is in, in specifications.
    pub closed spec fn spec_phase(&self) -> ConnectionPhase {
        self.phase
    }

    /// The provider the service of this connection reads the configuration
    /// from.
    pub closed spec fn provider(&self) -> Arc<SyncedConfig> {
        self.service.provider()
    }

    /// A connection that was just accepted, to be answered by `service`.
    pub fn open(mode: TransportMode, service: Service) -> (connection: Self)
        ensures
            connection.phase() == connection_opening(mode),
            connection.provider() == service.provider(),
        no_unwind
    {
        let phase = match mode {
            TransportMode::Plain => ConnectionPhase::Serving,
            TransportMode::Tls => ConnectionPhase::Handshaking,
        };
        Connection { phase, service }
    }

    /// The phase this connection is in.
    #[verifier::when_used_as_spec(spec_phase)]
    pub fn phase(&self) -> (phase: ConnectionPhase)
        ensures
            phase == self.phase(),
        no_unwind
    {
        self.phase
    }

    /// The work the connection waits for in its present phase.
    pub fn pending(&self) -> (action: ConnectionAction)
        ensures
            action == connection_pending(self.phase()),
        no_unwind
    {
        match self.phase {
            ConnectionPhase::Handshaking => ConnectionAction::Handshake,
            ConnectionPhase::Serving => ConnectionAction::Serve,
            ConnectionPhase::Closed(reason) => ConnectionAction::Close(reason),
        }
    }

    /// Takes note of `event` and says what to do next.
    pub fn on_event(&mut self, event: ConnectionEvent) -> (action: ConnectionAction)
        ensures
            final(self).phase() == connection_next(old(self).phase(), event),
            final(self).provider() == old(self).provider(),
            action == connection_pending(final(self).phase()),
        no_unwind
    {
        let next = match (self.phase, event) {
            (ConnectionPhase::Closed(reason), _) => ConnectionPhase::Closed(reason),
            (ConnectionPhase::Handshaking, ConnectionEvent::HandshakeCompleted) => ConnectionPhase::Serving,
            (
                ConnectionPhase::Handshaking,
                ConnectionEvent::HandshakeFailed,
            ) => ConnectionPhase::Closed(CloseReason::HandshakeFailed),
            (ConnectionPhase::Serving, ConnectionEvent::ServeFinished) => ConnectionPhase::Closed(
                CloseReason::Finished,
            ),
            _ => ConnectionPhase::Closed(CloseReason::TransportError),
        };
        self.phase = next;
        self.pending()
    }

    /// Takes in one request that arrived on this connection.
    ///
    /// Requests are taken in while the connection is being served, and then
    /// go through the service up to the call of the engine. Before the
    /// handshake has completed and after the connection was closed no
    /// request is taken in.
    pub fn handle(&self, request: Request, trace_id: String) -> (pending: Option<Pending>)
        ensures
            pending is Some <==> self.phase() == ConnectionPhase::Serving,
            pending matches Some(waiting) ==> awaits(
                waiting,
                request,
                trace_id@,
                *self.provider(),
            ),
    {
        match self.phase {
            ConnectionPhase::Serving => Some(self.service.call(request, trace_id)),
            _ => None,
        }
    }
}

} // verus!
