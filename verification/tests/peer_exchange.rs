use mullvad_core::cancel_token::ExchangeCancelToken;
use mullvad_core::keys::derive_public_key;
use mullvad_core::outcome::{classify_response, ExchangeError, ExchangeOutcome, ExchangeReport};
use mullvad_core::peer_exchange::{
    EphemeralPeerExchange, EphemeralPeerParameters, NegotiationRequest, PacketTunnelBridge,
    GRPC_HOST,
};
use mullvad_core::session::{ExchangeSession, SessionAction, SessionEvent, SessionPhase};

const PUB_KEY: [u8; 32] = [1u8; 32];
const EPHEMERAL_KEY: [u8; 32] = [2u8; 32];
const PSK: [u8; 32] = [7u8; 32];

fn exchange(enable_post_quantum: bool, enable_daita: bool) -> EphemeralPeerExchange {
    EphemeralPeerExchange::new(
        PUB_KEY,
        EPHEMERAL_KEY,
        PacketTunnelBridge { packet_tunnel: 0x1000, tunnel_handle: 3 },
        EphemeralPeerParameters { peer_exchange_timeout: 8, enable_post_quantum, enable_daita },
    )
}

fn ephemeral_public_key() -> [u8; 32] {
    x25519_dalek::x25519(EPHEMERAL_KEY, x25519_dalek::X25519_BASEPOINT_BYTES)
}

fn started(enable_post_quantum: bool, enable_daita: bool) -> ExchangeSession {
    let (session, action) = ExchangeSession::start(exchange(enable_post_quantum, enable_daita));
    assert_eq!(
        SessionAction::Connect { tunnel_handle: 3, address: "10.64.0.1:1337", timeout_secs: 8 },
        action
    );
    assert_eq!(SessionPhase::Connecting, session.phase());
    session
}

const FAILURE: SessionAction = SessionAction::Report {
    packet_tunnel: 0x1000,
    report: ExchangeReport { preshared_key: None, ephemeral_key: None },
};

#[test]
fn public_key_is_derived_with_x25519() {
    // The key pair of the first party in RFC 7748, section 6.1.
    let private_key: [u8; 32] = [
        0x77, 0x07, 0x6d, 0x0a, 0x73, 0x18, 0xa5, 0x7d, 0x3c, 0x16, 0xc1, 0x72, 0x51, 0xb2, 0x66,
        0x45, 0xdf, 0x4c, 0x2f, 0x87, 0xeb, 0xc0, 0x99, 0x2a, 0xb1, 0x77, 0xfb, 0xa5, 0x1d, 0xb9,
        0x2c, 0x2a,
    ];
    let public_key: [u8; 32] = [
        0x85, 0x20, 0xf0, 0x09, 0x89, 0x30, 0xa7, 0x54, 0x74, 0x8b, 0x7d, 0xdc, 0xb4, 0x3e, 0xf7,
        0x5a, 0x0d, 0xbf, 0x3a, 0x0d, 0x26, 0x38, 0x1a, 0xf4, 0xeb, 0xa4, 0xa9, 0x8e, 0xaa, 0x9b,
        0x4e, 0x6a,
    ];
    assert_eq!(public_key, derive_public_key(&private_key));
    assert_eq!(ephemeral_public_key(), derive_public_key(&EPHEMERAL_KEY));
    assert_ne!(EPHEMERAL_KEY, derive_public_key(&EPHEMERAL_KEY));
}

#[test]
fn exchange_keeps_what_it_was_made_of() {
    let exchange = exchange(true, false);
    assert_eq!(PUB_KEY, exchange.pub_key());
    assert_eq!(ephemeral_public_key(), exchange.ephemeral_public_key());
    assert_eq!(PacketTunnelBridge { packet_tunnel: 0x1000, tunnel_handle: 3 }, exchange.packet_tunnel());
    assert_eq!(
        EphemeralPeerParameters {
            peer_exchange_timeout: 8,
            enable_post_quantum: true,
            enable_daita: false
        },
        exchange.peer_parameters()
    );
    assert_eq!(
        NegotiationRequest {
            public_key: PUB_KEY,
            ephemeral_public_key: ephemeral_public_key(),
            enable_post_quantum: true,
            enable_daita: false,
        },
        exchange.request()
    );
}

#[test]
fn negotiation_goes_to_the_reserved_address() {
    assert_eq!("10.64.0.1:1337", GRPC_HOST);
}

#[test]
fn full_success_reports_both_keys() {
    let mut session = started(true, true);
    assert_eq!(
        SessionAction::Negotiate(NegotiationRequest {
            public_key: PUB_KEY,
            ephemeral_public_key: ephemeral_public_key(),
            enable_post_quantum: true,
            enable_daita: true,
        }),
        session.step(SessionEvent::Connected)
    );
    assert_eq!(SessionPhase::Negotiating, session.phase());
    let action = session.step(SessionEvent::Response { preshared_key: Some(PSK) });
    assert_eq!(
        SessionAction::Report {
            packet_tunnel: 0x1000,
            report: ExchangeReport {
                preshared_key: Some(PSK),
                ephemeral_key: Some(ephemeral_public_key()),
            },
        },
        action
    );
    assert_eq!(
        SessionPhase::Reported(ExchangeOutcome::Success { preshared_key: Some(PSK) }),
        session.phase()
    );
}

#[test]
fn obfuscation_without_post_quantum_succeeds_without_psk() {
    let mut session = started(false, true);
    session.step(SessionEvent::Connected);
    let action = session.step(SessionEvent::Response { preshared_key: None });
    assert_eq!(
        SessionAction::Report {
            packet_tunnel: 0x1000,
            report: ExchangeReport {
                preshared_key: None,
                ephemeral_key: Some(ephemeral_public_key()),
            },
        },
        action
    );
    assert_eq!(
        SessionPhase::Reported(ExchangeOutcome::Success { preshared_key: None }),
        session.phase()
    );
}

#[test]
fn connection_error_fails_once_without_retry() {
    let mut session = started(true, true);
    assert_eq!(FAILURE, session.step(SessionEvent::ConnectFailed));
    assert_eq!(SessionPhase::Reported(ExchangeOutcome::Failure), session.phase());
    // Nothing that arrives later is answered: no second report, no second
    // connection.
    for event in [
        SessionEvent::ConnectFailed,
        SessionEvent::Connected,
        SessionEvent::Response { preshared_key: Some(PSK) },
        SessionEvent::ProtocolError,
        SessionEvent::DeadlineElapsed,
        SessionEvent::Cancel,
    ] {
        assert_eq!(SessionAction::Nothing, session.step(event));
        assert_eq!(SessionPhase::Reported(ExchangeOutcome::Failure), session.phase());
    }
}

#[test]
fn missing_psk_is_a_failure_outside_the_degraded_case() {
    for (enable_post_quantum, enable_daita) in [(true, true), (true, false), (false, false)] {
        let mut session = started(enable_post_quantum, enable_daita);
        session.step(SessionEvent::Connected);
        assert_eq!(FAILURE, session.step(SessionEvent::Response { preshared_key: None }));
        assert_eq!(SessionPhase::Reported(ExchangeOutcome::Failure), session.phase());
    }
}

#[test]
fn classification_covers_all_flag_combinations() {
    for enable_post_quantum in [false, true] {
        for enable_daita in [false, true] {
            assert_eq!(
                ExchangeOutcome::Success { preshared_key: Some(PSK) },
                classify_response(Some(PSK), enable_post_quantum, enable_daita)
            );
            let expected = if enable_daita && !enable_post_quantum {
                ExchangeOutcome::Success { preshared_key: None }
            } else {
                ExchangeOutcome::Failure
            };
            assert_eq!(expected, classify_response(None, enable_post_quantum, enable_daita));
        }
    }
}

#[test]
fn cancel_before_connect_reports_nothing() {
    let mut session = started(true, true);
    assert_eq!(SessionAction::Abort, session.step(SessionEvent::Cancel));
    assert_eq!(SessionPhase::Cancelled, session.phase());
    for event in [
        SessionEvent::Connected,
        SessionEvent::Response { preshared_key: Some(PSK) },
        SessionEvent::DeadlineElapsed,
        SessionEvent::ConnectFailed,
        SessionEvent::Cancel,
    ] {
        assert_eq!(SessionAction::Nothing, session.step(event));
        assert_eq!(SessionPhase::Cancelled, session.phase());
    }
}

#[test]
fn cancel_while_negotiating_reports_nothing() {
    let mut session = started(false, true);
    session.step(SessionEvent::Connected);
    assert_eq!(SessionAction::Abort, session.step(SessionEvent::Cancel));
    assert_eq!(
        SessionAction::Nothing,
        session.step(SessionEvent::Response { preshared_key: Some(PSK) })
    );
    assert_eq!(SessionPhase::Cancelled, session.phase());
}

#[test]
fn cancel_after_report_is_a_no_op() {
    let mut session = started(true, false);
    session.step(SessionEvent::Connected);
    session.step(SessionEvent::Response { preshared_key: Some(PSK) });
    let reported = session.phase();
    assert_eq!(SessionAction::Nothing, session.step(SessionEvent::Cancel));
    assert_eq!(SessionAction::Nothing, session.step(SessionEvent::Cancel));
    assert_eq!(reported, session.phase());
}

#[test]
fn deadline_before_connect_fails() {
    let mut session = started(true, true);
    assert_eq!(FAILURE, session.step(SessionEvent::DeadlineElapsed));
    // The connection that comes too late is ignored.
    assert_eq!(SessionAction::Nothing, session.step(SessionEvent::Connected));
    assert_eq!(SessionPhase::Reported(ExchangeOutcome::Failure), session.phase());
}

#[test]
fn deadline_while_negotiating_fails() {
    let mut session = started(true, true);
    session.step(SessionEvent::Connected);
    assert_eq!(FAILURE, session.step(SessionEvent::DeadlineElapsed));
    assert_eq!(
        SessionAction::Nothing,
        session.step(SessionEvent::Response { preshared_key: Some(PSK) })
    );
    assert_eq!(SessionPhase::Reported(ExchangeOutcome::Failure), session.phase());
}

#[test]
fn protocol_error_fails() {
    let mut session = started(true, true);
    session.step(SessionEvent::Connected);
    assert_eq!(FAILURE, session.step(SessionEvent::ProtocolError));
}

#[test]
fn events_out_of_phase_are_ignored() {
    let mut session = started(true, true);
    assert_eq!(
        SessionAction::Nothing,
        session.step(SessionEvent::Response { preshared_key: Some(PSK) })
    );
    assert_eq!(SessionAction::Nothing, session.step(SessionEvent::ProtocolError));
    assert_eq!(SessionPhase::Connecting, session.phase());
    session.step(SessionEvent::Connected);
    assert_eq!(SessionAction::Nothing, session.step(SessionEvent::Connected));
    assert_eq!(SessionAction::Nothing, session.step(SessionEvent::ConnectFailed));
    assert_eq!(SessionPhase::Negotiating, session.phase());
}

#[test]
fn every_sequence_of_events_is_answered_with_at_most_one_report() {
    let events = [
        SessionEvent::Connected,
        SessionEvent::ConnectFailed,
        SessionEvent::Response { preshared_key: Some(PSK) },
        SessionEvent::Response { preshared_key: None },
        SessionEvent::ProtocolError,
        SessionEvent::DeadlineElapsed,
        SessionEvent::Cancel,
    ];
    // All sequences of four events, for all four combinations of flags.
    for flags in 0..4u32 {
        for code in 0..(7u32 * 7 * 7 * 7) {
            let mut session = started(flags & 1 != 0, flags & 2 != 0);
            let mut reports = 0;
            let mut cancelled = false;
            let mut rest = code;
            for _ in 0..4 {
                let event = events[(rest % 7) as usize];
                rest /= 7;
                let action = session.step(event);
                if let SessionAction::Report { .. } = action {
                    reports += 1;
                    assert!(!cancelled, "a report after a cancellation");
                }
                if event == SessionEvent::Cancel {
                    cancelled = true;
                }
                assert!(!matches!(action, SessionAction::Connect { .. }));
            }
            assert!(reports <= 1);
            match session.phase() {
                SessionPhase::Reported(_) => assert_eq!(1, reports),
                _ => assert_eq!(0, reports),
            }
        }
    }
}

#[test]
fn session_keeps_the_derived_key() {
    let session = started(true, true);
    assert_eq!(ephemeral_public_key(), session.ephemeral_public_key());
}

#[test]
fn events_name_their_errors() {
    assert_eq!(Some(ExchangeError::ConnectionError), SessionEvent::ConnectFailed.error());
    assert_eq!(Some(ExchangeError::ProtocolError), SessionEvent::ProtocolError.error());
    assert_eq!(Some(ExchangeError::Timeout), SessionEvent::DeadlineElapsed.error());
    assert_eq!(Some(ExchangeError::Cancelled), SessionEvent::Cancel.error());
    assert_eq!(None, SessionEvent::Connected.error());
    assert_eq!(None, SessionEvent::Response { preshared_key: None }.error());
}

#[test]
fn errors_collapse_to_failure_and_cancellation_is_silent() {
    assert_eq!(Some(ExchangeOutcome::Failure), ExchangeError::ConnectionError.reported_outcome());
    assert_eq!(Some(ExchangeOutcome::Failure), ExchangeError::ProtocolError.reported_outcome());
    assert_eq!(Some(ExchangeOutcome::Failure), ExchangeError::Timeout.reported_outcome());
    assert_eq!(None, ExchangeError::Cancelled.reported_outcome());
}

#[test]
fn report_encodes_three_states() {
    let key = ephemeral_public_key();
    let full = ExchangeReport::new(ExchangeOutcome::Success { preshared_key: Some(PSK) }, key);
    assert_eq!(ExchangeReport { preshared_key: Some(PSK), ephemeral_key: Some(key) }, full);
    let degraded = ExchangeReport::new(ExchangeOutcome::Success { preshared_key: None }, key);
    assert_eq!(ExchangeReport { preshared_key: None, ephemeral_key: Some(key) }, degraded);
    let failure = ExchangeReport::new(ExchangeOutcome::Failure, key);
    assert_eq!(ExchangeReport { preshared_key: None, ephemeral_key: None }, failure);
    assert_eq!(failure, ExchangeReport::failure());

    assert_eq!(Some(ExchangeOutcome::Success { preshared_key: Some(PSK) }), full.outcome());
    assert_eq!(Some(ExchangeOutcome::Success { preshared_key: None }), degraded.outcome());
    assert_eq!(Some(ExchangeOutcome::Failure), failure.outcome());
    let invalid = ExchangeReport { preshared_key: Some(PSK), ephemeral_key: None };
    assert_eq!(None, invalid.outcome());
}

#[test]
fn token_hands_out_its_task_once() {
    let mut token = ExchangeCancelToken::new(17u32);
    assert!(!token.is_cancelled());
    assert_eq!(Some(17), token.cancel());
    assert!(token.is_cancelled());
    assert_eq!(None, token.cancel());
    assert_eq!(None, token.cancel());
}
