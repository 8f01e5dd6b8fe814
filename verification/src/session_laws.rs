//! What holds of every session, whatever the caller delivers and in whatever
//! order.
//!
//! The statements are about `SessionState::step` and the sequences of events
//! built from it. `ExchangeSession::step` follows that function exactly, so
//! they hold of every running session.

use vstd::prelude::*;
use crate::outcome::{report_of, ExchangeOutcome};
use crate::session::{SessionAction, SessionEvent, SessionPhase, SessionState};

verus! {

/// Phases in the order in which a session passes through them.
pub open spec fn progress(phase: SessionPhase) -> nat {
    match phase {
        SessionPhase::Connecting => 0,
        SessionPhase::Negotiating => 1,
        SessionPhase::Reported(_) => 2,
        SessionPhase::Cancelled => 2,
    }
}

/// A step never changes the request, never goes back to an earlier phase,
/// never asks for a second connection, and leaves a session that has ended
/// exactly as it was.
pub proof fn lemma_step_advances(state: SessionState, event: SessionEvent)
    ensures
        state.step(event).0.exchange == state.exchange,
        state.step(event).0.ephemeral_public_key == state.ephemeral_public_key,
        progress(state.step(event).0.phase) >= progress(state.phase),
        !(state.step(event).1 is Connect),
        !state.is_live() ==> state.step(event) == (state, SessionAction::Nothing),
{
}

/// A sequence of one event is one step.
pub proof fn lemma_run_single(state: SessionState, event: SessionEvent)
    ensures
        state.run(seq![event]) == state.step(event).0,
        state.reports(seq![event]) == (if state.step(event).1 is Report {
            1nat
        } else {
            0nat
        }),
{
    let events = seq![event];
    assert(events.drop_last() =~= Seq::<SessionEvent>::empty());
    assert(state.run(events.drop_last()) == state);
    assert(state.reports(events.drop_last()) == 0);
    assert(events.last() == event);
}

/// Running two sequences of events one after the other is running their
/// concatenation.
pub proof fn lemma_run_concat(
    state: SessionState,
    first: Seq<SessionEvent>,
    second: Seq<SessionEvent>,
)
    ensures
        state.run(first + second) == state.run(first).run(second),
        state.reports(first + second) == state.reports(first) + state.run(first).reports(second),
    decreases second.len(),
{
    if second.len() == 0 {
        assert(first + second =~= first);
    } else {
        assert((first + second).drop_last() =~= first + second.drop_last());
        assert((first + second).last() == second.last());
        lemma_run_concat(state, first, second.drop_last());
    }
}

/// Once a session has reported or has been cancelled, no event changes it
/// and none is answered with a report.
pub proof fn lemma_ended_session_is_inert(state: SessionState, events: Seq<SessionEvent>)
    requires
        !state.is_live(),
    ensures
        state.run(events) == state,
        state.reports(events) == 0,
    decreases events.len(),
{
    if events.len() > 0 {
        lemma_ended_session_is_inert(state, events.drop_last());
    }
}

/// A session reports at most once. A live session has reported exactly once
/// when it has reached the phase `Reported`, and not at all otherwise; in
/// particular a cancelled session has reported nothing.
pub proof fn lemma_reports_at_most_once(state: SessionState, events: Seq<SessionEvent>)
    ensures
        state.reports(events) <= 1,
        !state.is_live() ==> state.reports(events) == 0,
        state.is_live() ==> (state.reports(events) == 1 <==> state.run(events).phase is Reported),
        state.is_live() && state.run(events).phase is Cancelled ==> state.reports(events) == 0,
    decreases events.len(),
{
    if events.len() > 0 {
        let earlier = events.drop_last();
        lemma_reports_at_most_once(state, earlier);
        if !state.is_live() {
            lemma_ended_session_is_inert(state, earlier);
        }
    }
}

/// The report that a session gives is the encoding of the outcome it ends
/// in, with the public half of its ephemeral key, and goes to the tunnel
/// object of its exchange.
pub proof fn lemma_report_matches_phase(state: SessionState, event: SessionEvent)
    ensures
        state.step(event).1 matches SessionAction::Report { packet_tunnel, report } ==> {
            &&& state.is_live()
            &&& state.step(event).0.phase matches SessionPhase::Reported(outcome)
            &&& report == report_of(outcome, state.ephemeral_public_key)
            &&& packet_tunnel == state.exchange.packet_tunnel().packet_tunnel
        },
{
}

/// The state in which the event at position `i` arrives is the state after
/// the `i` events before it.
proof fn lemma_take_step(state: SessionState, events: Seq<SessionEvent>, i: int)
    requires
        0 <= i < events.len(),
    ensures
        state.run(events.take(i + 1)) == state.run(events.take(i)).step(events[i]).0,
{
    assert(events.take(i + 1).drop_last() =~= events.take(i));
    assert(events.take(i + 1).last() == events[i]);
}

/// After a cancellation nothing is reported: neither the cancellation itself
/// nor any later event is answered with a report.
pub proof fn lemma_no_report_after_cancel(
    state: SessionState,
    events: Seq<SessionEvent>,
    i: int,
    j: int,
)
    requires
        0 <= i <= j < events.len(),
        events[i] == SessionEvent::Cancel,
    ensures
        !(state.action_at(events, j) is Report),
        !state.run(events.take(j + 1)).is_live(),
{
    lemma_take_step(state, events, i);
    if i < j {
        let after_cancel = state.run(events.take(i + 1));
        let between = events.subrange(i + 1, j);
        assert(events.take(j) =~= events.take(i + 1) + between);
        lemma_run_concat(state, events.take(i + 1), between);
        lemma_ended_session_is_inert(after_cancel, between);
        lemma_take_step(state, events, j);
    }
}

/// A cancellation that arrives while the session is live silences it: the
/// whole sequence of events, before and after, is answered with no report,
/// and the session ends as cancelled.
pub proof fn lemma_cancel_silences_live_session(
    state: SessionState,
    events: Seq<SessionEvent>,
    i: int,
)
    requires
        0 <= i < events.len(),
        events[i] == SessionEvent::Cancel,
        state.run(events.take(i)).is_live(),
    ensures
        state.reports(events) == 0,
        state.run(events).phase is Cancelled,
        state.action_at(events, i) is Abort,
{
    let before = events.take(i);
    let rest = events.subrange(i + 1, events.len() as int);
    lemma_take_step(state, events, i);
    let cancelled = state.run(events.take(i + 1));
    assert(events =~= events.take(i + 1) + rest);
    lemma_run_concat(state, events.take(i + 1), rest);
    lemma_ended_session_is_inert(cancelled, rest);
    lemma_reports_at_most_once(state, events);
    if !state.is_live() {
        lemma_ended_session_is_inert(state, before);
    }
}

/// Cancelling before the transport has connected: nothing is ever reported.
pub proof fn lemma_cancel_before_connect(state: SessionState, later: Seq<SessionEvent>)
    requires
        state.phase is Connecting,
    ensures
        state.reports(seq![SessionEvent::Cancel] + later) == 0,
        state.run(seq![SessionEvent::Cancel] + later).phase is Cancelled,
        state.step(SessionEvent::Cancel).1 is Abort,
{
    let events = seq![SessionEvent::Cancel] + later;
    assert(events.take(0) =~= Seq::<SessionEvent>::empty());
    lemma_cancel_silences_live_session(state, events, 0);
}

/// Cancelling a session that has already reported, or cancelling a second
/// time, does nothing.
pub proof fn lemma_cancel_is_idempotent(state: SessionState)
    ensures
        state.phase is Reported ==> state.step(SessionEvent::Cancel) == (
            state,
            SessionAction::Nothing,
        ),
        state.step(SessionEvent::Cancel).0.step(SessionEvent::Cancel) == (
            state.step(SessionEvent::Cancel).0,
            SessionAction::Nothing,
        ),
{
}

/// The deadline and a cancellation each end every session: whatever phase
/// it was in, it is live no longer.
pub proof fn lemma_deadline_and_cancel_end_sessions(state: SessionState)
    ensures
        !state.step(SessionEvent::DeadlineElapsed).0.is_live(),
        !state.step(SessionEvent::Cancel).0.is_live(),
{
}

/// The deadline ends a live session in `Failure`, at once and for good:
/// whatever arrives afterwards, a late connection or a late response, is
/// ignored.
pub proof fn lemma_deadline_yields_failure(state: SessionState, later: Seq<SessionEvent>)
    requires
        state.is_live(),
    ensures
        state.step(SessionEvent::DeadlineElapsed) == state.finish(ExchangeOutcome::Failure),
        state.run(seq![SessionEvent::DeadlineElapsed] + later).phase == SessionPhase::Reported(
            ExchangeOutcome::Failure,
        ),
        state.reports(seq![SessionEvent::DeadlineElapsed] + later) == 1,
{
    let first = seq![SessionEvent::DeadlineElapsed];
    lemma_run_single(state, SessionEvent::DeadlineElapsed);
    lemma_run_concat(state, first, later);
    lemma_ended_session_is_inert(state.run(first), later);
    lemma_reports_at_most_once(state, first + later);
}

/// A failed connection ends a connecting session in `Failure`, reported
/// once; no second connection is asked for.
pub proof fn lemma_connect_failure_is_final(state: SessionState, later: Seq<SessionEvent>)
    requires
        state.phase is Connecting,
    ensures
        state.step(SessionEvent::ConnectFailed) == state.finish(ExchangeOutcome::Failure),
        state.run(seq![SessionEvent::ConnectFailed] + later).phase == SessionPhase::Reported(
            ExchangeOutcome::Failure,
        ),
        state.reports(seq![SessionEvent::ConnectFailed] + later) == 1,
{
    let first = seq![SessionEvent::ConnectFailed];
    lemma_run_single(state, SessionEvent::ConnectFailed);
    lemma_run_concat(state, first, later);
    lemma_ended_session_is_inert(state.run(first), later);
    lemma_reports_at_most_once(state, first + later);
}

/// A session never moves back: the phase after any sequence of events is at
/// least as far as the phase before, and the request stays what it was.
pub proof fn lemma_run_advances(state: SessionState, events: Seq<SessionEvent>)
    ensures
        progress(state.run(events).phase) >= progress(state.phase),
        state.run(events).exchange == state.exchange,
        state.run(events).ephemeral_public_key == state.ephemeral_public_key,
    decreases events.len(),
{
    if events.len() > 0 {
        lemma_run_advances(state, events.drop_last());
        lemma_step_advances(state.run(events.drop_last()), events.last());
    }
}

/// The request goes out at most once: after an event was answered with
/// `Negotiate`, no later event is.
pub proof fn lemma_negotiates_once(
    state: SessionState,
    events: Seq<SessionEvent>,
    i: int,
    j: int,
)
    requires
        0 <= i < j < events.len(),
        state.action_at(events, i) is Negotiate,
    ensures
        !(state.action_at(events, j) is Negotiate),
{
    lemma_take_step(state, events, i);
    let between = events.subrange(i + 1, j);
    assert(events.take(j) =~= events.take(i + 1) + between);
    lemma_run_concat(state, events.take(i + 1), between);
    lemma_run_advances(state.run(events.take(i + 1)), between);
}

} // verus!
