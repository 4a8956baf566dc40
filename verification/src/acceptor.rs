//! The life of the acceptor: start-up, then accepting connections until the
//! listener closes.
//!
//! The acceptor decides; its caller performs. Each action names the work to
//! do next, and the event that reports how the work ended selects the
//! following action. Sockets, certificates and tasks stay with the caller.

use vstd::prelude::*;

verus! {

/// How accepted connections are read: as they come, or through TLS.
#[derive(Clone, Copy, Debug, PartialEq, Eq, Structural)]
pub enum TransportMode {
    Plain,
    Tls,
}

impl TransportMode {
    /// The mode that the start-up flag selects.
    pub open spec fn of(https: bool) -> TransportMode {
        if https {
            TransportMode::Tls
        } else {
            TransportMode::Plain
        }
    }

    /// Executable form of [`TransportMode::of`].
    pub fn from_flag(https: bool) -> (mode: TransportMode)
        ensures
            mode == TransportMode::of(https),
        no_unwind
    {
        if https {
            TransportMode::Tls
        } else {
            TransportMode::Plain
        }
    }
}

/// What can end the gateway before it accepts a connection.
#[derive(Clone, Copy, Debug, PartialEq, Eq, Structural)]
pub enum StartupFault {
    /// The certificate chain or the private key is missing or invalid.
    TlsMaterial,
    /// The listening socket could not be bound.
    Bind,
}

/// Where the acceptor stands.
#[derive(Clone, Copy, Debug, PartialEq, Eq, Structural)]
pub enum AcceptorPhase {
    /// The certificate chain and the private key are being loaded.
    LoadingTlsMaterial,
    /// The listening socket is being bound.
    Binding,
    /// The listener is bound and connections are being accepted.
    Accepting,
    /// Start-up failed. Nothing was or will be accepted.
    Aborted(StartupFault),
    /// The listener closed. Nothing more will be accepted.
    Stopped,
}

/// What the caller reports to the acceptor.
#[derive(Clone, Copy, Debug, PartialEq, Eq, Structural)]
pub enum AcceptorEvent {
    TlsMaterialLoaded,
    TlsMaterialRejected,
    Bound,
    BindFailed,
    /// The listener handed over a new connection.
    ConnectionAccepted,
    /// The listener failed to hand over a connection.
    AcceptFailed,
    /// The listener will hand over no more connections.
    ListenerClosed,
}

/// What the acceptor asks the caller to do.
#[derive(Clone, Copy, Debug, PartialEq, Eq, Structural)]
pub enum AcceptorAction {
    /// Load the certificate chain and the private key and check that they
    /// belong together.
    LoadTlsMaterial,
    /// Bind the listening socket.
    Bind,
    /// Wait for the next connection.
    Accept,
    /// Start a task of its own for the connection just accepted, then wait
    /// for the next connection without waiting for the task.
    Spawn,
    /// Give up: start-up failed.
    Abort(StartupFault),
    /// Return: the listener closed.
    Stop,
}

/// The phase an acceptor starts in. Only TLS mode has material to load.
pub open spec fn opening_phase(mode: TransportMode) -> AcceptorPhase {
    match mode {
        TransportMode::Tls => AcceptorPhase::LoadingTlsMaterial,
        TransportMode::Plain => AcceptorPhase::Binding,
    }
}

/// The phase that follows `phase` when `event` is reported.
///
/// Start-up advances on success and aborts on failure. Once accepting, the
/// acceptor goes on accepting whatever happens to a single connection; only
/// the end of the listener stops it. An event that does not belong to the
/// phase changes nothing.
pub open spec fn acceptor_next(phase: AcceptorPhase, event: AcceptorEvent) -> AcceptorPhase {
    match (phase, event) {
        (AcceptorPhase::LoadingTlsMaterial, AcceptorEvent::TlsMaterialLoaded) => AcceptorPhase::Binding,
        (AcceptorPhase::LoadingTlsMaterial, AcceptorEvent::TlsMaterialRejected) => AcceptorPhase::Aborted(
            StartupFault::TlsMaterial,
        ),
        (AcceptorPhase::Binding, AcceptorEvent::Bound) => AcceptorPhase::Accepting,
        (AcceptorPhase::Binding, AcceptorEvent::BindFailed) => AcceptorPhase::Aborted(
            StartupFault::Bind,
        ),
        (AcceptorPhase::Accepting, AcceptorEvent::ListenerClosed) => AcceptorPhase::Stopped,
        _ => phase,
    }
}

/// The work a phase waits for.
pub open spec fn pending_action(phase: AcceptorPhase) -> AcceptorAction {
    match phase {
        AcceptorPhase::LoadingTlsMaterial => AcceptorAction::LoadTlsMaterial,
        AcceptorPhase::Binding => AcceptorAction::Bind,
        AcceptorPhase::Accepting => AcceptorAction::Accept,
        AcceptorPhase::Aborted(fault) => AcceptorAction::Abort(fault),
        AcceptorPhase::Stopped => AcceptorAction::Stop,
    }
}

/// Whether `event`, reported in `phase`, brings a connection to serve.
pub open spec fn admits_connection(phase: AcceptorPhase, event: AcceptorEvent) -> bool {
    phase == AcceptorPhase::Accepting && event == AcceptorEvent::ConnectionAccepted
}

/// The action that answers `event` in `phase`: `Spawn` for a connection that
/// was accepted, otherwise the work of the phase that follows.
pub open spec fn acceptor_action(phase: AcceptorPhase, event: AcceptorEvent) -> AcceptorAction {
    if admits_connection(phase, event) {
        AcceptorAction::Spawn
    } else {
        pending_action(acceptor_next(phase, event))
    }
}

/// A task is started for every connection that the listener hands over
/// while the acceptor accepts, and for nothing else. Start-up work is asked
/// for during start-up only.
pub proof fn law_one_task_per_accepted_connection(phase: AcceptorPhase, event: AcceptorEvent)
    ensures
        acceptor_action(phase, event) == AcceptorAction::Spawn <==> phase
            == AcceptorPhase::Accepting && event == AcceptorEvent::ConnectionAccepted,
        acceptor_action(phase, event) == AcceptorAction::Spawn ==> acceptor_next(phase, event)
            == AcceptorPhase::Accepting,
        acceptor_action(phase, event) == AcceptorAction::LoadTlsMaterial ==> phase
            == AcceptorPhase::LoadingTlsMaterial,
        acceptor_action(phase, event) == AcceptorAction::Bind ==> phase
            == AcceptorPhase::LoadingTlsMaterial || phase == AcceptorPhase::Binding,
{
}

/// The acceptor of one gateway.
#[derive(Debug)]
pub struct Acceptor {
    mode: TransportMode,
    phase: AcceptorPhase,
}

impl Acceptor {
    /// A plain acceptor has no TLS material to load.
    #[verifier::type_invariant]
    spec fn consistent(self) -> bool {
        self.mode == TransportMode::Plain ==> self.phase != AcceptorPhase::LoadingTlsMaterial
    }

    /// The mode this acceptor was made for, in specifications.
    pub closed spec fn spec_mode(&self) -> TransportMode {
        self.mode
    }

    /// The phase this acceptor is in, in specifications.
    pub closed spec fn spec_phase(&self) -> AcceptorPhase {
        self.phase
    }

    /// An acceptor at the beginning of start-up.
    pub fn new(mode: TransportMode) -> (acceptor: Self)
        ensures
            acceptor.mode() == mode,
            acceptor.phase() == opening_phase(mode),
        no_unwind
    {
        let phase = match mode {
            TransportMode::Tls => AcceptorPhase::LoadingTlsMaterial,
            TransportMode::Plain => AcceptorPhase::Binding,
        };
        Acceptor { mode, phase }
    }

    /// The mode this acceptor was made for.
    #[verifier::when_used_as_spec(spec_mode)]
    pub fn mode(&self) -> (mode: TransportMode)
        ensures
            mode == self.mode(),
        no_unwind
    {
        self.mode
    }

    /// The phase this acceptor is in. A plain acceptor is never found
    /// loading TLS material.
    #[verifier::when_used_as_spec(spec_phase)]
    pub fn phase(&self) -> (phase: AcceptorPhase)
        ensures
            phase == self.phase(),
            self.mode() == TransportMode::Plain ==> phase != AcceptorPhase::LoadingTlsMaterial,
        no_unwind
    {
        proof {
            use_type_invariant(self);
        }
        self.phase
    }

    /// The work the acceptor waits for in its present phase.
    pub fn pending(&self) -> (action: AcceptorAction)
        ensures
            action == pending_action(self.phase()),
            self.mode() == TransportMode::Plain ==> action != AcceptorAction::LoadTlsMaterial,
        no_unwind
    {
        proof {
            use_type_invariant(self);
        }
        match self.phase {
            AcceptorPhase::LoadingTlsMaterial => AcceptorAction::LoadTlsMaterial,
            AcceptorPhase::Binding => AcceptorAction::Bind,
            AcceptorPhase::Accepting => AcceptorAction::Accept,
            AcceptorPhase::Aborted(fault) => AcceptorAction::Abort(fault),
            AcceptorPhase::Stopped => AcceptorAction::Stop,
        }
    }

    /// Takes note of `event` and says what to do next.
    pub fn on_event(&mut self, event: AcceptorEvent) -> (action: AcceptorAction)
        ensures
            final(self).mode() == old(self).mode(),
            final(self).phase() == acceptor_next(old(self).phase(), event),
            action == acceptor_action(old(self).phase(), event),
            old(self).mode() == TransportMode::Plain ==> action != AcceptorAction::LoadTlsMaterial,
        no_unwind
    {
        proof {
            use_type_invariant(&*self);
        }
        let spawn = match (self.phase, event) {
            (AcceptorPhase::Accepting, AcceptorEvent::ConnectionAccepted) => true,
            _ => false,
        };
        let next = match (self.phase, event) {
            (AcceptorPhase::LoadingTlsMaterial, AcceptorEvent::TlsMaterialLoaded) => AcceptorPhase::Binding,
            (
                AcceptorPhase::LoadingTlsMaterial,
                AcceptorEvent::TlsMaterialRejected,
            ) => AcceptorPhase::Aborted(StartupFault::TlsMaterial),
            (AcceptorPhase::Binding, AcceptorEvent::Bound) => AcceptorPhase::Accepting,
            (AcceptorPhase::Binding, AcceptorEvent::BindFailed) => AcceptorPhase::Aborted(
                StartupFault::Bind,
            ),
            (AcceptorPhase::Accepting, AcceptorEvent::ListenerClosed) => AcceptorPhase::Stopped,
            (phase, _) => phase,
        };
        self.phase = next;
        if spawn {
            AcceptorAction::Spawn
        } else {
            self.pending()
        }
    }
}

} // verus!
