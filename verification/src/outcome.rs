//! What an exchange attempt ends in, and how the host is told.

use vstd::prelude::*;
use crate::keys::KeyBytes;

verus! {

/// Why an attempt produced no key material.
#[derive(Clone, Copy, Debug, PartialEq, Eq)]
pub enum ExchangeError {
    /// The transport bridge could not furnish a stream.
    ConnectionError,
    /// The negotiation was rejected, malformed or cut off.
    ProtocolError,
    /// The deadline elapsed first.
    Timeout,
    /// The caller cancelled the attempt.
    Cancelled,
}

/// The result of one exchange attempt.
#[derive(Clone, Copy, Debug, PartialEq, Eq)]
pub enum ExchangeOutcome {
    /// Key material was negotiated. Without a pre-shared key this is the
    /// degraded success: only the ephemeral key is in force.
    Success { preshared_key: Option<KeyBytes> },
    /// No new ephemeral peer this attempt.
    Failure,
}

/// The degraded success is open only to an exchange that asked for
/// obfuscation and did not ask for post-quantum hardening.
pub open spec fn degraded_success_allowed(enable_post_quantum: bool, enable_daita: bool) -> bool {
    enable_daita && !enable_post_quantum
}

/// The outcome that a response of the relay stands for.
pub open spec fn outcome_of_response(
    preshared_key: Option<KeyBytes>,
    enable_post_quantum: bool,
    enable_daita: bool,
) -> ExchangeOutcome {
    match preshared_key {
        Some(key) => ExchangeOutcome::Success { preshared_key: Some(key) },
        None => if degraded_success_allowed(enable_post_quantum, enable_daita) {
            ExchangeOutcome::Success { preshared_key: None }
        } else {
            ExchangeOutcome::Failure
        },
    }
}

/// Classifies a response of the relay: a pre-shared key is always a success;
/// its absence is one only in the degraded case, and a failure otherwise.
pub fn classify_response(
    preshared_key: Option<KeyBytes>,
    enable_post_quantum: bool,
    enable_daita: bool,
) -> (outcome: ExchangeOutcome)
    ensures
        outcome == outcome_of_response(preshared_key, enable_post_quantum, enable_daita),
{
    match preshared_key {
        Some(key) => ExchangeOutcome::Success { preshared_key: Some(key) },
        None => {
            if enable_daita && !enable_post_quantum {
                ExchangeOutcome::Success { preshared_key: None }
            } else {
                ExchangeOutcome::Failure
            }
        },
    }
}

impl ExchangeError {
    /// What the host is told of an attempt that ended in this error.
    pub open spec fn reported_outcome_spec(self) -> Option<ExchangeOutcome> {
        match self {
            ExchangeError::Cancelled => None,
            _ => Some(ExchangeOutcome::Failure),
        }
    }

    /// Connection errors, protocol errors and timeouts all collapse to the one
    /// `Failure`; a cancelled attempt is silent and reports nothing.
    pub fn reported_outcome(self) -> (outcome: Option<ExchangeOutcome>)
        ensures
            outcome == self.reported_outcome_spec(),
    {
        match self {
            ExchangeError::Cancelled => None,
            ExchangeError::ConnectionError => Some(ExchangeOutcome::Failure),
            ExchangeError::ProtocolError => Some(ExchangeOutcome::Failure),
            ExchangeError::Timeout => Some(ExchangeOutcome::Failure),
        }
    }
}

/// The payload of the host's result callback: two optional keys, whose
/// presence alone tells the three outcomes apart.
///
/// | pre-shared key | ephemeral key | meaning          |
/// |----------------|---------------|------------------|
/// | present        | present       | full success     |
/// | absent         | present       | degraded success |
/// | absent         | absent        | failure          |
///
/// A pre-shared key without an ephemeral key is no report of this protocol.
#[derive(Clone, Copy, Debug, PartialEq, Eq)]
pub struct ExchangeReport {
    pub preshared_key: Option<KeyBytes>,
    pub ephemeral_key: Option<KeyBytes>,
}

/// The report that encodes `outcome` for a session whose ephemeral public key
/// is `ephemeral_key`.
pub open spec fn report_of(outcome: ExchangeOutcome, ephemeral_key: KeyBytes) -> ExchangeReport {
    match outcome {
        ExchangeOutcome::Success { preshared_key } => ExchangeReport {
            preshared_key,
            ephemeral_key: Some(ephemeral_key),
        },
        ExchangeOutcome::Failure => ExchangeReport { preshared_key: None, ephemeral_key: None },
    }
}

impl ExchangeReport {
    /// Encodes an outcome. The ephemeral key goes out with every success and
    /// with no failure.
    pub fn new(outcome: ExchangeOutcome, ephemeral_key: KeyBytes) -> (report: Self)
        ensures
            report == report_of(outcome, ephemeral_key),
    {
        match outcome {
            ExchangeOutcome::Success { preshared_key } => ExchangeReport {
                preshared_key,
                ephemeral_key: Some(ephemeral_key),
            },
            ExchangeOutcome::Failure => ExchangeReport { preshared_key: None, ephemeral_key: None },
        }
    }

    /// The report of a failed attempt: neither key.
    pub fn failure() -> (report: Self)
        ensures
            report == (ExchangeReport { preshared_key: None, ephemeral_key: None }),
    {
        ExchangeReport { preshared_key: None, ephemeral_key: None }
    }

    /// The outcome that a report stands for, if it is one of the three states.
    pub open spec fn outcome_spec(self) -> Option<ExchangeOutcome> {
        match (self.preshared_key, self.ephemeral_key) {
            (Some(key), Some(_)) => Some(ExchangeOutcome::Success { preshared_key: Some(key) }),
            (None, Some(_)) => Some(ExchangeOutcome::Success { preshared_key: None }),
            (None, None) => Some(ExchangeOutcome::Failure),
            (Some(_), None) => None,
        }
    }

    /// Decodes a report as the receiving side does.
    pub fn outcome(&self) -> (outcome: Option<ExchangeOutcome>)
        ensures
            outcome == self.outcome_spec(),
    {
        match (self.preshared_key, self.ephemeral_key) {
            (Some(key), Some(_)) => Some(ExchangeOutcome::Success { preshared_key: Some(key) }),
            (None, Some(_)) => Some(ExchangeOutcome::Success { preshared_key: None }),
            (None, None) => Some(ExchangeOutcome::Failure),
            (Some(_), None) => None,
        }
    }
}

/// Encoding loses nothing: the receiving side reads back the very outcome
/// that was encoded, and sees the ephemeral key exactly when it was a success.
pub proof fn lemma_report_round_trip(outcome: ExchangeOutcome, ephemeral_key: KeyBytes)
    ensures
        report_of(outcome, ephemeral_key).outcome_spec() == Some(outcome),
        outcome is Success ==> report_of(outcome, ephemeral_key).ephemeral_key == Some(
            ephemeral_key,
        ),
        outcome is Failure ==> report_of(outcome, ephemeral_key).ephemeral_key is None,
{
}

/// Two different outcomes never share a report.
pub proof fn lemma_report_injective(
    first: ExchangeOutcome,
    second: ExchangeOutcome,
    ephemeral_key: KeyBytes,
)
    requires
        report_of(first, ephemeral_key) == report_of(second, ephemeral_key),
    ensures
        first == second,
{
}

/// The degraded success comes from exactly one kind of response: no
/// pre-shared key, obfuscation asked for, post-quantum hardening not asked
/// for. Every other response without a pre-shared key is a failure.
pub proof fn lemma_degraded_success(
    preshared_key: Option<KeyBytes>,
    enable_post_quantum: bool,
    enable_daita: bool,
)
    ensures
        outcome_of_response(preshared_key, enable_post_quantum, enable_daita)
            == (ExchangeOutcome::Success { preshared_key: None }) <==> (preshared_key is None
            && enable_daita && !enable_post_quantum),
        preshared_key is None && !(enable_daita && !enable_post_quantum) ==> outcome_of_response(
            preshared_key,
            enable_post_quantum,
            enable_daita,
        ) is Failure,
        preshared_key is Some ==> outcome_of_response(
            preshared_key,
            enable_post_quantum,
            enable_daita,
        ) == (ExchangeOutcome::Success { preshared_key }),
{
}

} // verus!
