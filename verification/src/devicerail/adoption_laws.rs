//! What a reconciliation answers, over the entries of the log: a recorded
//! terminal comes back field by field.

use vstd::prelude::*;

use crate::devicerail::convert;
use crate::devicerail::scan;
use crate::devicerail::session;
use crate::devicerail::session::{SessionV, StepV};
use crate::devicerail::session_laws;
use crate::devicerail::wire::{
    LogEvent, LogPayload, WireActionOutcome, WireActionResult, WireObservation,
};
use crate::ir::runtime::{
    ActionOutcome, ActionOutcomeV, ActionResult, ActionResultV, ErrorInfo, ErrorInfoV, FateV,
    Observation,
};
use crate::json;
use crate::wire::Wire;

verus! {

/// Whether an entry records a terminal of the action.
pub open spec fn settles(event: LogEvent, id: Seq<char>) -> bool {
    event.payload matches LogPayload::ActionCompleted { call_id, .. } && call_id@ == id
}

/// Whether an entry records a start of the action.
pub open spec fn begins(event: LogEvent, id: Seq<char>) -> bool {
    event.payload matches LogPayload::ActionStarted { call_id } && call_id@ == id
}

/// Whether an error is the recorded one.
pub open spec fn error_is(e: ErrorInfoV, recorded: ErrorInfo) -> bool {
    &&& e.code == recorded.code@
    &&& e.message == recorded.message@
    &&& e.retryable == recorded.retryable
    &&& e.details == json::opt_json(recorded.details)
}

/// Whether an observation is the one that the daemon reports: all of it, but of
/// a UI snapshot only the evidence.
pub open spec fn observation_is(o: Observation, reported: WireObservation) -> bool {
    &&& o.id == reported.id
    &&& o.device_id == reported.device_id
    &&& o.captured_at_ms == reported.captured_at_ms
    &&& o.viewport.width == reported.viewport.width
    &&& o.viewport.height == reported.viewport.height
    &&& o.viewport.scale_factor == reported.viewport.scale_factor
    &&& o.screenshot == reported.screenshot
    &&& o.screenshot_omission == reported.screenshot_omission
    &&& o.ui_snapshot is Some <==> reported.ui_snapshot is Some
    &&& o.ui_snapshot matches Some(s) ==> s.evidence == reported.ui_snapshot->0.evidence
    &&& o.ui_snapshot_omission == reported.ui_snapshot_omission
    &&& o.metadata == reported.metadata
}

/// Whether an optional observation in its JSON form is the one that the daemon
/// reports.
pub open spec fn snapshot_is(
    form: Option<json::JsonV>,
    reported: Option<WireObservation>,
) -> bool {
    match reported {
        Some(w) => exists|o: Observation| form == Some(#[trigger] o.wire_json()) && observation_is(
            o,
            w,
        ),
        None => form is None,
    }
}

/// Whether a result is the recorded one.
pub open spec fn result_is(r: ActionResultV, recorded: WireActionResult) -> bool {
    &&& r.call_id == recorded.call_id@
    &&& r.started_at_ms == recorded.started_at_ms
    &&& r.finished_at_ms == recorded.finished_at_ms
    &&& r.output == recorded.output@
    &&& snapshot_is(r.before, recorded.before)
    &&& snapshot_is(r.after, recorded.after)
    &&& r.evidence.len() == recorded.evidence@.len()
    &&& forall|i: int|
        0 <= i < r.evidence.len() ==> #[trigger] r.evidence[i] == recorded.evidence@[i].wire_json()
    &&& r.execution is Some <==> recorded.execution is Some
    &&& r.execution matches Some(form) ==> form == recorded.execution->0.wire_json()
}

/// Whether a terminal is the recorded one: of the same kind, with the same
/// result or the same error.
pub open spec fn terminal_is(o: ActionOutcomeV, recorded: WireActionOutcome) -> bool {
    match recorded {
        WireActionOutcome::Succeeded { result } => o matches ActionOutcomeV::Succeeded(r)
            && result_is(r, *result),
        WireActionOutcome::Failed { error } => o matches ActionOutcomeV::Failed(e) && error_is(
            e,
            error,
        ),
        WireActionOutcome::Cancelled { error } => o matches ActionOutcomeV::Cancelled(e)
            && error_is(e, error),
        WireActionOutcome::TimedOut { error, .. } => o matches ActionOutcomeV::TimedOut(e)
            && error_is(e, error),
    }
}

/// An observation is taken over from the daemon field by field.
pub proof fn law_observations_are_taken_over(reported: WireObservation)
    ensures
        observation_is(convert::observation_of(reported), reported),
{
}

/// A result is taken over from the daemon field by field, and so is its view.
pub proof fn law_results_are_taken_over(recorded: WireActionResult)
    ensures
        ({
            let r: ActionResult = convert::action_result_of(recorded);
            &&& r.call_id == recorded.call_id
            &&& r.started_at_ms == recorded.started_at_ms
            &&& r.finished_at_ms == recorded.finished_at_ms
            &&& r.output == recorded.output
            &&& r.evidence == recorded.evidence
            &&& r.execution == recorded.execution
            &&& r.before is Some <==> recorded.before is Some
            &&& r.before matches Some(o) ==> observation_is(o, recorded.before->0)
            &&& r.after is Some <==> recorded.after is Some
            &&& r.after matches Some(o) ==> observation_is(o, recorded.after->0)
            &&& result_is(r@, recorded)
        }),
{
    let r = convert::action_result_of(recorded);
    if let Some(w) = recorded.before {
        let o = convert::observation_of(w);
        assert(r@.before == Some(o.wire_json()) && observation_is(o, w));
    }
    if let Some(w) = recorded.after {
        let o = convert::observation_of(w);
        assert(r@.after == Some(o.wire_json()) && observation_is(o, w));
    }
}

/// A terminal is taken over from the daemon as it is: its kind, and its result
/// or its error.
pub proof fn law_terminals_are_taken_over(recorded: WireActionOutcome)
    ensures
        terminal_is(convert::outcome_of(recorded)@, recorded),
        match recorded {
            WireActionOutcome::Succeeded { .. } => convert::outcome_of(recorded) is Succeeded,
            WireActionOutcome::Failed { error } => convert::outcome_of(recorded)
                == (ActionOutcome::Failed { error }),
            WireActionOutcome::Cancelled { error } => convert::outcome_of(recorded)
                == (ActionOutcome::Cancelled { error }),
            WireActionOutcome::TimedOut { error, .. } => convert::outcome_of(recorded)
                == (ActionOutcome::TimedOut { error }),
        },
{
    if let WireActionOutcome::Succeeded { result } = recorded {
        law_results_are_taken_over(*result);
    }
}

proof fn lemma_first(events: Seq<LogEvent>, id: Seq<char>, at: int)
    requires
        0 <= at < events.len(),
        settles(events[at], id),
        forall|i: int| 0 <= i < at ==> !settles(#[trigger] events[i], id),
    ensures
        scan::first_terminal(events, id) == Some(events[at].payload->ActionCompleted_outcome),
    decreases events.len(),
{
    let front = events.drop_last();
    if at < events.len() - 1 {
        assert(forall|i: int| 0 <= i < front.len() ==> #[trigger] front[i] == events[i]);
        lemma_first(front, id, at);
    } else {
        assert forall|i: int| 0 <= i < front.len() implies !settles(#[trigger] front[i], id) by {
            assert(front[i] == events[i]);
        }
        lemma_none(front, id);
    }
}

proof fn lemma_none(events: Seq<LogEvent>, id: Seq<char>)
    requires
        forall|i: int| 0 <= i < events.len() ==> !settles(#[trigger] events[i], id),
    ensures
        scan::first_terminal(events, id) is None,
    decreases events.len(),
{
    if events.len() > 0 {
        let front = events.drop_last();
        assert forall|i: int| 0 <= i < front.len() implies !settles(#[trigger] front[i], id) by {
            assert(front[i] == events[i]);
        }
        lemma_none(front, id);
        assert(events.last() == events[events.len() - 1]);
    }
}

/// A reconciliation in the issuing session, with the session still listed and
/// the log read to its end, answers with the first terminal that the log has of
/// the action, field by field.
pub proof fn law_recorded_terminals_come_back(
    s: SessionV,
    last_sequence: u64,
    id: Seq<char>,
    ids: Seq<Seq<char>>,
    pages: Seq<Seq<LogEvent>>,
    at: int,
)
    requires
        !s.ended,
        ids.contains(s.session_id),
        scan::reaches_the_end(pages),
        0 <= at < scan::log_of(pages).len(),
        settles(scan::log_of(pages)[at], id),
        forall|i: int| 0 <= i < at ==> !settles(#[trigger] scan::log_of(pages)[i], id),
    ensures
        session_laws::reconciled(s, s.session_id, last_sequence, Ok(id), Ok(ids), pages) matches Some(
            FateV::Completed(outcome),
        ) && terminal_is(outcome, scan::log_of(pages)[at].payload->ActionCompleted_outcome),
{
    session_laws::law_reconcile_tells_the_fate(s, last_sequence, id, ids, pages);
    lemma_first(scan::log_of(pages), id, at);
    law_terminals_are_taken_over(scan::log_of(pages)[at].payload->ActionCompleted_outcome);
}

/// Without a terminal in the log, the answer is that the action started exactly
/// if some entry says so, and that it was never dispatched if none does.
pub proof fn law_log_without_terminal_decides(
    s: SessionV,
    last_sequence: u64,
    id: Seq<char>,
    ids: Seq<Seq<char>>,
    pages: Seq<Seq<LogEvent>>,
)
    requires
        !s.ended,
        ids.contains(s.session_id),
        scan::reaches_the_end(pages),
        forall|i: int|
            0 <= i < scan::log_of(pages).len() ==> !settles(#[trigger] scan::log_of(pages)[i], id),
    ensures
        ({
            let answer = session_laws::reconciled(
                s,
                s.session_id,
                last_sequence,
                Ok(id),
                Ok(ids),
                pages,
            );
            let log = scan::log_of(pages);
            if exists|i: int| 0 <= i < log.len() && begins(#[trigger] log[i], id) {
                answer == Some(FateV::StartedNoTerminal)
            } else {
                answer == Some(FateV::NeverDispatched)
            }
        }),
{
    session_laws::law_reconcile_tells_the_fate(s, last_sequence, id, ids, pages);
    let log = scan::log_of(pages);
    lemma_none(log, id);
    if exists|i: int| 0 <= i < log.len() && begins(#[trigger] log[i], id) {
        let i = choose|i: int| 0 <= i < log.len() && begins(#[trigger] log[i], id);
        assert(scan::starts(log[i], id));
    } else {
        assert forall|i: int| 0 <= i < log.len() implies !#[trigger] scan::starts(log[i], id) by {
            assert(!begins(log[i], id));
        }
    }
}

/// A reconciliation answers at once that the log is unavailable where the cursor
/// is another session's or the session has ended, and goes on in no other case;
/// it answers so too where the index cannot be read or does not name the session.
/// A text that is no id was never dispatched; an id is looked up from the start
/// of the log or after the consumed sequence.
pub proof fn law_doubtful_logs_are_unavailable(
    s: SessionV,
    issuing: Seq<char>,
    last_sequence: u64,
    parsed: Result<Seq<char>, Seq<char>>,
    listed: Result<Seq<Seq<char>>, Seq<char>>,
)
    ensures
        ({
            let first = session::first_step(s, issuing);
            let second = session::listed_step(s, last_sequence, parsed, listed);
            let named = listed is Ok && listed->Ok_0.contains(s.session_id);
            &&& first is ListSessions <==> issuing == s.session_id && !s.ended
            &&& first !is ListSessions ==> first is Answer && first->Answer_0 is LogUnavailable
            &&& !named <==> second is Answer && second->Answer_0 is LogUnavailable
            &&& named ==> second == (match parsed {
                Err(_) => StepV::Answer(FateV::NeverDispatched),
                Ok(id) => StepV::ReadPage(
                    id,
                    if 1 <= last_sequence <= 9007199254740991 {
                        Some(last_sequence)
                    } else {
                        None
                    },
                    false,
                ),
            })
        }),
{
}

/// A page that does not end the search is followed by the next: the read goes on
/// after its last entry, and a start that was seen stays seen. A page of fewer
/// than 1000 entries ends the search.
pub proof fn law_pages_follow_one_another(
    id: Seq<char>,
    after: Option<u64>,
    started: bool,
    page: Seq<LogEvent>,
)
    ensures
        session::page_step(id, after, started, Ok(page)) matches StepV::ReadPage(
            next_id,
            next_after,
            next_started,
        ) ==> {
            &&& page.len() >= 1000
            &&& next_id == id
            &&& next_after == Some(page.last().sequence)
            &&& next_started <==> started || exists|i: int|
                0 <= i < page.len() && begins(#[trigger] page[i], id)
        },
        page.len() < 1000 ==> session::page_step(id, after, started, Ok(page)) is Answer,
        session::page_step(id, after, started, Ok(page)) !is ListSessions,
{
    if exists|i: int| 0 <= i < page.len() && begins(#[trigger] page[i], id) {
        let i = choose|i: int| 0 <= i < page.len() && begins(#[trigger] page[i], id);
        assert(scan::starts(page[i], id));
    } else {
        assert forall|i: int| 0 <= i < page.len() implies !#[trigger] scan::starts(page[i], id) by {
            assert(!begins(page[i], id));
        }
    }
}

} // verus!
