//! The life of one exchange attempt, as a state machine.
//!
//! A session connects once, negotiates once and reports once. The caller
//! owns the transport, the timer and the task; it tells the session what
//! happened and does what the session answers. Racing the negotiation against
//! the deadline, and either of them against a cancellation, comes down to the
//! order in which the caller delivers the events: the first one that ends the
//! session decides, and whatever arrives later changes nothing.

use vstd::prelude::*;
use crate::keys::{public_key_of, KeyBytes};
use crate::outcome::{
    classify_response, outcome_of_response, report_of, ExchangeError, ExchangeOutcome,
    ExchangeReport,
};
use crate::peer_exchange::{EphemeralPeerExchange, NegotiationRequest, GRPC_HOST};

verus! {

/// How far a session has come.
#[derive(Clone, Copy, Debug, PartialEq, Eq)]
pub enum SessionPhase {
    /// Waiting for the transport bridge.
    Connecting,
    /// The request is out; waiting for the relay.
    Negotiating,
    /// The outcome has been handed to the host.
    Reported(ExchangeOutcome),
    /// The caller cancelled before anything was reported.
    Cancelled,
}

/// What the caller observed.
#[derive(Clone, Copy, Debug, PartialEq, Eq)]
pub enum SessionEvent {
    /// The transport bridge furnished a stream.
    Connected,
    /// The transport bridge could not furnish a stream.
    ConnectFailed,
    /// The relay answered, with or without a pre-shared key.
    Response { preshared_key: Option<KeyBytes> },
    /// The negotiation was rejected, malformed or cut off.
    ProtocolError,
    /// The deadline elapsed.
    DeadlineElapsed,
    /// The caller asked for cancellation.
    Cancel,
}

/// What the caller has to do next.
#[derive(Clone, Copy, Debug, PartialEq, Eq)]
pub enum SessionAction {
    /// Ask the transport bridge for a stream through this tunnel to this
    /// address, and start the timer.
    Connect { tunnel_handle: i32, address: &'static str, timeout_secs: u64 },
    /// Send this request over the stream.
    Negotiate(NegotiationRequest),
    /// Hand this report to the callback of this tunnel object, then retire
    /// the session.
    Report { packet_tunnel: usize, report: ExchangeReport },
    /// Stop the background work and wait until it has stopped.
    Abort,
    /// Nothing.
    Nothing,
}

/// The state of a session, as contracts see it.
pub struct SessionState {
    pub exchange: EphemeralPeerExchange,
    pub ephemeral_public_key: KeyBytes,
    pub phase: SessionPhase,
}

impl SessionEvent {
    /// The error that an event stands for, for the caller's diagnostics.
    pub open spec fn error_spec(self) -> Option<ExchangeError> {
        match self {
            SessionEvent::ConnectFailed => Some(ExchangeError::ConnectionError),
            SessionEvent::ProtocolError => Some(ExchangeError::ProtocolError),
            SessionEvent::DeadlineElapsed => Some(ExchangeError::Timeout),
            SessionEvent::Cancel => Some(ExchangeError::Cancelled),
            SessionEvent::Connected => None,
            SessionEvent::Response { .. } => None,
        }
    }

    /// Names the error behind an event, if it is one.
    pub fn error(&self) -> (error: Option<ExchangeError>)
        ensures
            error == self.error_spec(),
    {
        match self {
            SessionEvent::ConnectFailed => Some(ExchangeError::ConnectionError),
            SessionEvent::ProtocolError => Some(ExchangeError::ProtocolError),
            SessionEvent::DeadlineElapsed => Some(ExchangeError::Timeout),
            SessionEvent::Cancel => Some(ExchangeError::Cancelled),
            SessionEvent::Connected => None,
            SessionEvent::Response { .. } => None,
        }
    }
}

impl SessionState {
    /// The state of a session that has just been started.
    pub open spec fn initial(exchange: EphemeralPeerExchange, ephemeral_public_key: KeyBytes) -> Self {
        SessionState { exchange, ephemeral_public_key, phase: SessionPhase::Connecting }
    }

    /// The first action of every session.
    pub open spec fn connect_action(self) -> SessionAction {
        SessionAction::Connect {
            tunnel_handle: self.exchange.packet_tunnel().tunnel_handle,
            address: GRPC_HOST,
            timeout_secs: self.exchange.peer_parameters().peer_exchange_timeout,
        }
    }

    /// The same session in another phase.
    pub open spec fn in_phase(self, phase: SessionPhase) -> Self {
        SessionState { phase, ..self }
    }

    /// A session is live until it has reported or has been cancelled.
    pub open spec fn is_live(self) -> bool {
        self.phase is Connecting || self.phase is Negotiating
    }

    /// Ends the session with `outcome`.
    pub open spec fn finish(self, outcome: ExchangeOutcome) -> (Self, SessionAction) {
        (
            self.in_phase(SessionPhase::Reported(outcome)),
            SessionAction::Report {
                packet_tunnel: self.exchange.packet_tunnel().packet_tunnel,
                report: report_of(outcome, self.ephemeral_public_key),
            },
        )
    }

    /// The transition function: the state after `event`, and what the caller
    /// has to do.
    pub open spec fn step(self, event: SessionEvent) -> (Self, SessionAction) {
        match self.phase {
            SessionPhase::Connecting => match event {
                SessionEvent::Connected => (
                    self.in_phase(SessionPhase::Negotiating),
                    SessionAction::Negotiate(self.exchange.request_with(self.ephemeral_public_key)),
                ),
                SessionEvent::ConnectFailed => self.finish(ExchangeOutcome::Failure),
                SessionEvent::DeadlineElapsed => self.finish(ExchangeOutcome::Failure),
                SessionEvent::Cancel => (
                    self.in_phase(SessionPhase::Cancelled),
                    SessionAction::Abort,
                ),
                SessionEvent::Response { .. } => (self, SessionAction::Nothing),
                SessionEvent::ProtocolError => (self, SessionAction::Nothing),
            },
            SessionPhase::Negotiating => match event {
                SessionEvent::Response { preshared_key } => self.finish(
                    outcome_of_response(
                        preshared_key,
                        self.exchange.peer_parameters().enable_post_quantum,
                        self.exchange.peer_parameters().enable_daita,
                    ),
                ),
                SessionEvent::ProtocolError => self.finish(ExchangeOutcome::Failure),
                SessionEvent::DeadlineElapsed => self.finish(ExchangeOutcome::Failure),
                SessionEvent::Cancel => (
                    self.in_phase(SessionPhase::Cancelled),
                    SessionAction::Abort,
                ),
                SessionEvent::Connected => (self, SessionAction::Nothing),
                SessionEvent::ConnectFailed => (self, SessionAction::Nothing),
            },
            SessionPhase::Reported(_) => (self, SessionAction::Nothing),
            SessionPhase::Cancelled => (self, SessionAction::Nothing),
        }
    }

    /// The state after a whole sequence of events.
    pub open spec fn run(self, events: Seq<SessionEvent>) -> Self
        decreases events.len(),
    {
        if events.len() == 0 {
            self
        } else {
            self.run(events.drop_last()).step(events.last()).0
        }
    }

    /// The action that answers the event at position `i` of `events`.
    pub open spec fn action_at(self, events: Seq<SessionEvent>, i: int) -> SessionAction
        recommends
            0 <= i < events.len(),
    {
        self.run(events.take(i)).step(events[i]).1
    }

    /// How many of the events were answered with a report.
    pub open spec fn reports(self, events: Seq<SessionEvent>) -> nat
        decreases events.len(),
    {
        if events.len() == 0 {
            0
        } else {
            let before = self.reports(events.drop_last());
            if self.run(events.drop_last()).step(events.last()).1 is Report {
                before + 1
            } else {
                before
            }
        }
    }
}

/// A running exchange attempt.
pub struct ExchangeSession {
    exchange: EphemeralPeerExchange,
    ephemeral_public_key: KeyBytes,
    phase: SessionPhase,
}

impl View for ExchangeSession {
    type V = SessionState;

    closed spec fn view(&self) -> SessionState {
        SessionState {
            exchange: self.exchange,
            ephemeral_public_key: self.ephemeral_public_key,
            phase: self.phase,
        }
    }
}

impl ExchangeSession {
    /// Starts a session for `exchange`: derives the public half of the
    /// ephemeral key and asks the caller to connect.
    pub fn start(exchange: EphemeralPeerExchange) -> (started: (ExchangeSession, SessionAction))
        ensures
            started.0@ == SessionState::initial(exchange, started.0@.ephemeral_public_key),
            started.0@.ephemeral_public_key@ == public_key_of(exchange.ephemeral_key()@),
            started.1 == started.0@.connect_action(),
    {
        let ephemeral_public_key = exchange.ephemeral_public_key();
        let action = SessionAction::Connect {
            tunnel_handle: exchange.packet_tunnel().tunnel_handle,
            address: GRPC_HOST,
            timeout_secs: exchange.peer_parameters().peer_exchange_timeout,
        };
        (ExchangeSession { exchange, ephemeral_public_key, phase: SessionPhase::Connecting }, action)
    }

    /// The phase the session is in.
    pub fn phase(&self) -> (phase: SessionPhase)
        ensures
            phase == self@.phase,
    {
        self.phase
    }

    /// The public half of the ephemeral key.
    pub fn ephemeral_public_key(&self) -> (key: KeyBytes)
        ensures
            key == self@.ephemeral_public_key,
    {
        self.ephemeral_public_key
    }

    fn finish(&mut self, outcome: ExchangeOutcome) -> (action: SessionAction)
        ensures
            (final(self)@, action) == old(self)@.finish(outcome),
    {
        self.phase = SessionPhase::Reported(outcome);
        SessionAction::Report {
            packet_tunnel: self.exchange.packet_tunnel().packet_tunnel,
            report: ExchangeReport::new(outcome, self.ephemeral_public_key),
        }
    }

    /// Takes one event and answers with the action that follows from it.
    pub fn step(&mut self, event: SessionEvent) -> (action: SessionAction)
        ensures
            (final(self)@, action) == old(self)@.step(event),
    {
        match self.phase {
            SessionPhase::Connecting => match event {
                SessionEvent::Connected => {
                    self.phase = SessionPhase::Negotiating;
                    SessionAction::Negotiate(
                        NegotiationRequest {
                            public_key: self.exchange.pub_key(),
                            ephemeral_public_key: self.ephemeral_public_key,
                            enable_post_quantum: self.exchange.peer_parameters().enable_post_quantum,
                            enable_daita: self.exchange.peer_parameters().enable_daita,
                        },
                    )
                },
                SessionEvent::ConnectFailed => self.finish(ExchangeOutcome::Failure),
                SessionEvent::DeadlineElapsed => self.finish(ExchangeOutcome::Failure),
                SessionEvent::Cancel => {
                    self.phase = SessionPhase::Cancelled;
                    SessionAction::Abort
                },
                SessionEvent::Response { .. } => SessionAction::Nothing,
                SessionEvent::ProtocolError => SessionAction::Nothing,
            },
            SessionPhase::Negotiating => match event {
                SessionEvent::Response { preshared_key } => {
                    let parameters = self.exchange.peer_parameters();
                    let outcome = classify_response(
                        preshared_key,
                        parameters.enable_post_quantum,
                        parameters.enable_daita,
                    );
                    self.finish(outcome)
                },
                SessionEvent::ProtocolError => self.finish(ExchangeOutcome::Failure),
                SessionEvent::DeadlineElapsed => self.finish(ExchangeOutcome::Failure),
                SessionEvent::Cancel => {
                    self.phase = SessionPhase::Cancelled;
                    SessionAction::Abort
                },
                SessionEvent::Connected => SessionAction::Nothing,
                SessionEvent::ConnectFailed => SessionAction::Nothing,
            },
            SessionPhase::Reported(_) => SessionAction::Nothing,
            SessionPhase::Cancelled => SessionAction::Nothing,
        }
    }
}

} // verus!
