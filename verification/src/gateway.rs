//! The gateway as a whole: one acceptor and the connections it has accepted.
//!
//! This is the mathematical picture in which the acceptor and the
//! connections of the other modules run side by side. It exists to state
//! what holds of them together: that start-up faults come before any
//! connection, that the acceptor outlives whatever happens to connections,
//! and that no connection is touched by a report on another.

use crate::acceptor::acceptor_next;
use crate::acceptor::admits_connection;
use crate::acceptor::opening_phase;
use crate::acceptor::AcceptorEvent;
use crate::acceptor::AcceptorPhase;
use crate::acceptor::StartupFault;
use crate::acceptor::TransportMode;
use crate::connection::connection_next;
use crate::connection::connection_opening;
use crate::connection::CloseReason;
use crate::connection::ConnectionEvent;
use crate::connection::ConnectionPhase;
use vstd::prelude::*;

verus! {

/// The acceptor's phase and, in the order of their acceptance, the phase of
/// every connection accepted so far.
pub struct GatewayState {
    pub acceptor: AcceptorPhase,
    pub connections: Seq<ConnectionPhase>,
}

/// A report to the acceptor, or to the connection with the given number.
pub enum GatewayEvent {
    Acceptor(AcceptorEvent),
    Connection { id: int, event: ConnectionEvent },
}

impl GatewayEvent {
    /// Whether this report is addressed to connection `id`.
    pub open spec fn concerns(self, id: int) -> bool {
        self matches GatewayEvent::Connection { id: target, .. } && target == id
    }
}

/// The gateway before start-up: no connection yet.
pub open spec fn gateway_opening(mode: TransportMode) -> GatewayState {
    GatewayState { acceptor: opening_phase(mode), connections: Seq::empty() }
}

/// The gateway after one report.
///
/// A report to the acceptor moves the acceptor and, where it brings a
/// connection, adds that connection in its opening phase. A report to a
/// connection moves that connection. A report to a connection that does not
/// exist changes nothing.
pub open spec fn gateway_next(
    mode: TransportMode,
    state: GatewayState,
    event: GatewayEvent,
) -> GatewayState {
    match event {
        GatewayEvent::Acceptor(report) => GatewayState {
            acceptor: acceptor_next(state.acceptor, report),
            connections: if admits_connection(state.acceptor, report) {
                state.connections.push(connection_opening(mode))
            } else {
                state.connections
            },
        },
        GatewayEvent::Connection { id, event: report } => if 0 <= id < state.connections.len() {
            GatewayState {
                acceptor: state.acceptor,
                connections: state.connections.update(
                    id,
                    connection_next(state.connections[id], report),
                ),
            }
        } else {
            state
        },
    }
}

/// The gateway after a sequence of reports, taken in order.
pub open spec fn gateway_run(
    mode: TransportMode,
    state: GatewayState,
    events: Seq<GatewayEvent>,
) -> GatewayState
    decreases events.len(),
{
    if events.len() == 0 {
        state
    } else {
        gateway_next(mode, gateway_run(mode, state, events.drop_last()), events.last())
    }
}

/// A report on one connection changes neither the acceptor, nor the number
/// of connections, nor any other connection.
pub proof fn law_connection_reports_are_local(
    mode: TransportMode,
    state: GatewayState,
    id: int,
    event: ConnectionEvent,
)
    ensures
        gateway_next(mode, state, GatewayEvent::Connection { id, event }).acceptor
            == state.acceptor,
        gateway_next(mode, state, GatewayEvent::Connection { id, event }).connections.len()
            == state.connections.len(),
        forall|other: int|
            0 <= other < state.connections.len() && other != id ==> gateway_next(
                mode,
                state,
                GatewayEvent::Connection { id, event },
            ).connections[other] == state.connections[other],
{
}

/// A handshake that fails closes the connection it was made on, and nothing
/// else: the acceptor goes on accepting and every other connection stands
/// as it stood.
pub proof fn law_failed_handshake_closes_one_connection(
    mode: TransportMode,
    state: GatewayState,
    id: int,
)
    requires
        0 <= id < state.connections.len(),
        state.connections[id] == ConnectionPhase::Handshaking,
    ensures
        gateway_next(
            mode,
            state,
            GatewayEvent::Connection { id, event: ConnectionEvent::HandshakeFailed },
        ) == (GatewayState {
            acceptor: state.acceptor,
            connections: state.connections.update(
                id,
                ConnectionPhase::Closed(CloseReason::HandshakeFailed),
            ),
        }),
{
}

/// A transport that fails, on a connection that is not yet closed, closes
/// that connection, and nothing else.
pub proof fn law_failed_transport_closes_one_connection(
    mode: TransportMode,
    state: GatewayState,
    id: int,
)
    requires
        0 <= id < state.connections.len(),
        !(state.connections[id] is Closed),
    ensures
        gateway_next(
            mode,
            state,
            GatewayEvent::Connection { id, event: ConnectionEvent::TransportFailed },
        ) == (GatewayState {
            acceptor: state.acceptor,
            connections: state.connections.update(
                id,
                ConnectionPhase::Closed(CloseReason::TransportError),
            ),
        }),
{
}

/// Through any sequence of reports a connection stands as it stood, as long
/// as none of the reports is addressed to it. In particular a connection
/// that is being served goes on being served while others fail.
pub proof fn law_connections_are_independent(
    mode: TransportMode,
    state: GatewayState,
    events: Seq<GatewayEvent>,
    id: int,
)
    requires
        0 <= id < state.connections.len(),
        forall|i: int| 0 <= i < events.len() ==> !(#[trigger] events[i]).concerns(id),
    ensures
        gateway_run(mode, state, events).connections.len() >= state.connections.len(),
        gateway_run(mode, state, events).connections[id] == state.connections[id],
    decreases events.len(),
{
    if events.len() > 0 {
        let before = events.drop_last();
        assert forall|i: int| 0 <= i < before.len() implies !(#[trigger] before[i]).concerns(id) by {
            assert(before[i] == events[i]);
        }
        law_connections_are_independent(mode, state, before, id);
    }
}

/// An acceptor that accepts goes on accepting through any sequence of
/// reports in which the listener does not close: no failed handshake, no
/// broken transport and no failed accept ends it. The next connection the
/// listener hands over is taken in, in its opening phase.
pub proof fn law_acceptor_outlives_connections(
    mode: TransportMode,
    state: GatewayState,
    events: Seq<GatewayEvent>,
)
    requires
        state.acceptor == AcceptorPhase::Accepting,
        forall|i: int|
            0 <= i < events.len() ==> #[trigger] events[i] != GatewayEvent::Acceptor(
                AcceptorEvent::ListenerClosed,
            ),
    ensures
        gateway_run(mode, state, events).acceptor == AcceptorPhase::Accepting,
        gateway_next(
            mode,
            gateway_run(mode, state, events),
            GatewayEvent::Acceptor(AcceptorEvent::ConnectionAccepted),
        ).connections == gateway_run(mode, state, events).connections.push(
            connection_opening(mode),
        ),
    decreases events.len(),
{
    if events.len() > 0 {
        let before = events.drop_last();
        assert forall|i: int| 0 <= i < before.len() implies #[trigger] before[i]
            != GatewayEvent::Acceptor(AcceptorEvent::ListenerClosed) by {
            assert(before[i] == events[i]);
        }
        law_acceptor_outlives_connections(mode, state, before);
    }
}

/// Start-up faults are fatal and come first: a gateway whose start-up was
/// aborted has never accepted a connection, and whatever is reported to it
/// afterwards it stays aborted. A gateway in plain mode never waits for TLS
/// material and never fails on it.
pub proof fn law_startup_faults_come_first(mode: TransportMode, events: Seq<GatewayEvent>)
    ensures
        gateway_run(mode, gateway_opening(mode), events).acceptor is Aborted ==> gateway_run(
            mode,
            gateway_opening(mode),
            events,
        ).connections.len() == 0,
        gateway_run(mode, gateway_opening(mode), events).connections.len() > 0 ==> {
            ||| gateway_run(mode, gateway_opening(mode), events).acceptor == AcceptorPhase::Accepting
            ||| gateway_run(mode, gateway_opening(mode), events).acceptor == AcceptorPhase::Stopped
        },
        mode == TransportMode::Plain ==> {
            &&& gateway_run(mode, gateway_opening(mode), events).acceptor
                != AcceptorPhase::LoadingTlsMaterial
            &&& gateway_run(mode, gateway_opening(mode), events).acceptor != AcceptorPhase::Aborted(
                StartupFault::TlsMaterial,
            )
        },
    decreases events.len(),
{
    if events.len() > 0 {
        law_startup_faults_come_first(mode, events.drop_last());
    }
}

/// Once start-up was aborted or the listener closed, no report changes the
/// acceptor and no connection is added.
pub proof fn law_end_is_final(mode: TransportMode, state: GatewayState, events: Seq<GatewayEvent>)
    requires
        state.acceptor is Aborted || state.acceptor == AcceptorPhase::Stopped,
    ensures
        gateway_run(mode, state, events).acceptor == state.acceptor,
        gateway_run(mode, state, events).connections.len() == state.connections.len(),
    decreases events.len(),
{
    if events.len() > 0 {
        law_end_is_final(mode, state, events.drop_last());
    }
}

/// A connection in TLS mode answers no request before its handshake has
/// completed: it reaches the serving phase by that report only. A closed
/// connection never serves again.
pub proof fn law_serving_follows_the_handshake(phase: ConnectionPhase, event: ConnectionEvent)
    ensures
        phase != ConnectionPhase::Serving && connection_next(phase, event)
            == ConnectionPhase::Serving ==> phase == ConnectionPhase::Handshaking && event
            == ConnectionEvent::HandshakeCompleted,
        phase is Closed ==> connection_next(phase, event) == phase,
        connection_opening(TransportMode::Plain) == ConnectionPhase::Serving,
        connection_opening(TransportMode::Tls) == ConnectionPhase::Handshaking,
{
}

} // verus!
