//! What holds of a session across its operations.

use vstd::prelude::*;

use crate::devicerail::convert;
use crate::devicerail::error_map;
use crate::devicerail::scan;
use crate::devicerail::session;
use crate::devicerail::session::{CallV, PlanV, SessionV, StepV};
use crate::devicerail::wire::LogEvent;
use crate::ir::runtime::{FateV, Observation};
use crate::keyed;
use crate::kit::error::ProviderErrorV;
use crate::kit::spi::ObserveWant;

verus! {

/// A refused call and one that an observation serves leave the session as it
/// was.
pub proof fn law_only_dispatches_are_remembered(s: SessionV, plan: Result<PlanV, ProviderErrorV>)
    requires
        !(plan matches Ok(PlanV::Dispatch { .. })),
    ensures
        session::after_plan(s, plan) == s,
{
}

/// An id that was dispatched once is never dispatched again: a retry needs a
/// new id.
pub proof fn law_ids_are_dispatched_once(
    s: SessionV,
    first: CallV,
    second: CallV,
    attested: bool,
    again: bool,
    cancelled: bool,
    parsed: Result<Seq<char>, Seq<char>>,
)
    requires
        s.dispatched.sorted(),
        session::planned(s, attested, first, false, parsed) matches Ok(PlanV::Dispatch { .. }),
    ensures
        ({
            let next = session::after_plan(s, session::planned(s, attested, first, false, parsed));
            !(session::planned(next, again, second, cancelled, parsed) matches Ok(
                PlanV::Dispatch { .. },
            ))
        }),
{
    let id = parsed->Ok_0;
    keyed::law_set_and_get(s.dispatched, id, (), id);
}

/// An id that was dispatched stays remembered whatever is planned later.
pub proof fn law_dispatched_ids_stay(s: SessionV, plan: Result<PlanV, ProviderErrorV>, id: Seq<char>)
    requires
        s.dispatched.sorted(),
        s.dispatched.has(id),
    ensures
        session::after_plan(s, plan).dispatched.sorted(),
        session::after_plan(s, plan).dispatched.has(id),
{
    match plan {
        Ok(PlanV::Dispatch { id: new, .. }) => {
            keyed::lemma_with_sorted(s.dispatched, new, ());
            keyed::law_set_and_get(s.dispatched, new, (), id);
        },
        _ => {},
    }
}

/// An action that is not attested never reaches the device, and one that is
/// attested is never served by an observation.
pub proof fn law_attestation_decides_the_way(
    s: SessionV,
    attested: bool,
    call: CallV,
    cancelled: bool,
    parsed: Result<Seq<char>, Seq<char>>,
)
    ensures
        session::planned(s, attested, call, cancelled, parsed) matches Ok(PlanV::Dispatch { .. })
            ==> attested,
        session::planned(s, attested, call, cancelled, parsed) matches Ok(PlanV::Observe(..))
            ==> !attested,
{
}

/// A dispatch carries the caller's action: its id, its name and its arguments.
pub proof fn law_dispatch_is_the_callers(
    s: SessionV,
    attested: bool,
    call: CallV,
    cancelled: bool,
    parsed: Result<Seq<char>, Seq<char>>,
)
    ensures
        session::planned(s, attested, call, cancelled, parsed) matches Ok(
            PlanV::Dispatch { id, name, arguments, .. },
        ) ==> Ok::<_, Seq<char>>(id) == parsed && name == call.name && arguments == call.arguments,
{
}

/// A call whose token is already cancelled sends nothing.
pub proof fn law_cancelled_calls_send_nothing(
    s: SessionV,
    attested: bool,
    call: CallV,
    parsed: Result<Seq<char>, Seq<char>>,
)
    ensures
        session::planned(s, attested, call, true, parsed) is Err,
        session::after_plan(s, session::planned(s, attested, call, true, parsed)) == s,
{
}

/// An ended session refuses calls, snapshots and verdicts as gone, and the
/// fate of an action as unreadable.
pub proof fn law_ended_session_refuses(
    s: SessionV,
    attested: bool,
    call: CallV,
    cancelled: bool,
    parsed: Result<Seq<char>, Seq<char>>,
    summary: Seq<char>,
    evidence: nat,
    issuing: Seq<char>,
)
    requires
        s.ended,
    ensures
        session::planned(s, attested, call, cancelled, parsed) == Err::<PlanV, _>(
            error_map::gone_view("execute"@),
        ),
        session::snapshot_refusal(s, true, parsed) == Some(error_map::gone_view("uiSnapshot"@)),
        session::verdict_refusal(s, true, summary, evidence) == Some(
            error_map::gone_view("recordVerdict"@),
        ),
        session::first_step(s, issuing) matches StepV::Answer(FateV::LogUnavailable(_)),
{
}

/// Every part that is wanted is there or has a reason to be missing, and what
/// the daemon said stays.
pub proof fn law_wanted_parts_are_accounted_for(o: Observation, wants: Seq<ObserveWant>)
    ensures
        ({
            let r = session::with_omissions(o, wants);
            &&& wants.contains(ObserveWant::Screenshot) ==> r.screenshot is Some
                || r.screenshot_omission is Some
            &&& wants.contains(ObserveWant::UiSnapshot) ==> r.ui_snapshot is Some
                || r.ui_snapshot_omission is Some
            &&& o.screenshot_omission is Some ==> r.screenshot_omission == o.screenshot_omission
            &&& o.ui_snapshot_omission is Some ==> r.ui_snapshot_omission == o.ui_snapshot_omission
            &&& r.screenshot == o.screenshot
            &&& r.ui_snapshot == o.ui_snapshot
        }),
{
}

/// What a reconciliation makes of the pages of the log, one after the other.
pub open spec fn paged_answer(
    id: Seq<char>,
    after: Option<u64>,
    started: bool,
    pages: Seq<Seq<LogEvent>>,
) -> Option<FateV>
    decreases pages.len(),
{
    if pages.len() == 0 {
        None
    } else {
        match session::page_step(id, after, started, Ok(pages.first())) {
            StepV::Answer(fate) => Some(fate),
            StepV::ReadPage(id, after, started) => paged_answer(id, after, started, pages.skip(1)),
            StepV::ListSessions => None,
        }
    }
}

/// The answer of a reconciliation, given what the daemon lists and the pages
/// of its log.
pub open spec fn reconciled(
    s: SessionV,
    issuing: Seq<char>,
    last_sequence: u64,
    parsed: Result<Seq<char>, Seq<char>>,
    listed: Result<Seq<Seq<char>>, Seq<char>>,
    pages: Seq<Seq<LogEvent>>,
) -> Option<FateV> {
    match session::first_step(s, issuing) {
        StepV::Answer(fate) => Some(fate),
        _ => match session::listed_step(s, last_sequence, parsed, listed) {
            StepV::Answer(fate) => Some(fate),
            StepV::ReadPage(id, after, started) => paged_answer(id, after, started, pages),
            StepV::ListSessions => None,
        },
    }
}

proof fn lemma_paged_answer(
    id: Seq<char>,
    after: Option<u64>,
    started: bool,
    pages: Seq<Seq<LogEvent>>,
)
    ensures
        paged_answer(id, after, started, pages) == (match scan::scan_pages(started, pages, id) {
            Some(fate) => Some(session::answer_of(fate)),
            None => None,
        }),
    decreases pages.len(),
{
    if pages.len() > 0 {
        lemma_paged_answer(
            id,
            scan::after_page(after, pages.first()),
            started || scan::has_start(pages.first(), id),
            pages.skip(1),
        );
    }
}

/// A reconciliation in the issuing session, with the session still listed and
/// the log read to its end, answers what the whole log says of the action.
pub proof fn law_reconcile_tells_the_fate(
    s: SessionV,
    last_sequence: u64,
    id: Seq<char>,
    ids: Seq<Seq<char>>,
    pages: Seq<Seq<LogEvent>>,
)
    requires
        !s.ended,
        ids.contains(s.session_id),
        scan::reaches_the_end(pages),
    ensures
        reconciled(s, s.session_id, last_sequence, Ok(id), Ok(ids), pages) == Some(
            session::answer_of(scan::fate_of(scan::log_of(pages), id)),
        ),
{
    lemma_paged_answer(id, scan::floor_of(last_sequence), false, pages);
    scan::law_scan_tells_the_fate(pages, id);
}

/// That an action was never dispatched is only said where it is certain: in
/// the issuing session, while it is open and listed, and either for a text
/// that is no id or after the log was read to its end without a trace.
pub proof fn law_never_dispatched_is_certain(
    s: SessionV,
    issuing: Seq<char>,
    last_sequence: u64,
    parsed: Result<Seq<char>, Seq<char>>,
    listed: Result<Seq<Seq<char>>, Seq<char>>,
    pages: Seq<Seq<LogEvent>>,
)
    requires
        scan::reaches_the_end(pages),
        reconciled(s, issuing, last_sequence, parsed, listed, pages) == Some(
            FateV::NeverDispatched,
        ),
    ensures
        issuing == s.session_id,
        !s.ended,
        listed matches Ok(ids) && ids.contains(s.session_id),
        parsed matches Ok(id) ==> forall|i: int|
            0 <= i < scan::log_of(pages).len() ==> !scan::starts(
                #[trigger] scan::log_of(pages)[i],
                id,
            ) && scan::terminal_in(scan::log_of(pages)[i], id) is None,
{
    if let Ok(id) = parsed {
        lemma_paged_answer(id, scan::floor_of(last_sequence), false, pages);
        scan::law_scan_tells_the_fate(pages, id);
        let log = scan::log_of(pages);
        assert forall|i: int| 0 <= i < log.len() implies !scan::starts(#[trigger] log[i], id)
            && scan::terminal_in(log[i], id) is None by {
            scan::law_no_trace_means_no_entry(log, id, i);
        }
    }
}

/// Where the log or the index cannot be read, the answer is that the log is
/// unavailable.
pub proof fn law_unreadable_is_said(
    s: SessionV,
    last_sequence: u64,
    parsed: Result<Seq<char>, Seq<char>>,
    failure: Seq<char>,
    id: Seq<char>,
    after: Option<u64>,
    started: bool,
)
    ensures
        session::listed_step(s, last_sequence, parsed, Err(failure)) matches StepV::Answer(
            FateV::LogUnavailable(_),
        ),
        session::page_step(id, after, started, Err(failure)) matches StepV::Answer(
            FateV::LogUnavailable(_),
        ),
{
}

/// A cursor never falls back: what a read after the watermark gives lies at or
/// beyond it.
pub proof fn law_cursor_never_regresses(watermark: u64, pages: Seq<Seq<LogEvent>>)
    ensures
        scan::latest_after(Some(watermark), pages) matches Some(latest) && latest >= watermark,
{
    scan::law_latest_is_the_highest(Some(watermark), pages);
    scan::law_highest_bounds_the_log(Some(watermark), scan::log_of(pages));
}

/// A daemon's terminal is adopted as it is: the answer has its kind, and a
/// failure keeps its error.
pub proof fn law_recorded_terminals_are_adopted(events: Seq<LogEvent>, id: Seq<char>)
    requires
        scan::first_terminal(events, id) is Some,
    ensures
        session::answer_of(scan::fate_of(events, id)) == FateV::Completed(
            convert::outcome_of(scan::first_terminal(events, id)->0)@,
        ),
{
}

} // verus!
