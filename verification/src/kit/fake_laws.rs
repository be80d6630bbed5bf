//! What holds of the fake provider's world across calls.

use vstd::prelude::*;
use vstd::string::*;

use crate::ir::hash;
use crate::ir::runtime::{ActionOutcomeV, FateV};
use crate::ir::vocab::ErrorClass;
use crate::json::JsonV;
use crate::keyed;
use crate::kit::error::ProviderErrorV;
use crate::kit::fake;
use crate::kit::fake::{JournalV, ScriptedV, WorldV};
use crate::kit::spi;
use crate::kit::spi::{ObserveWant, SessionOutcome, UiSnapshotV};

verus! {

/// Whether a call of a driver action reaches the script.
pub open spec fn accepts(w: WorldV, attested: bool, call_id: Seq<char>, cancelled: bool) -> bool {
    w.ended is None && !cancelled && attested && !w.journaled(call_id)
}

proof fn lemma_absent(journal: Seq<JournalV>, call_id: Seq<char>)
    requires
        forall|i: int| 0 <= i < journal.len() ==> (#[trigger] journal[i]).call_id != call_id,
    ensures
        fake::first_dispatch(journal, call_id) is None,
    decreases journal.len(),
{
    if journal.len() > 0 {
        lemma_absent(journal.drop_last(), call_id);
    }
}

proof fn lemma_present(journal: Seq<JournalV>, call_id: Seq<char>, at: int)
    requires
        0 <= at < journal.len(),
        journal[at].call_id == call_id,
    ensures
        fake::first_dispatch(journal, call_id) is Some,
    decreases journal.len(),
{
    if at < journal.len() - 1 {
        lemma_present(journal.drop_last(), call_id, at);
    }
}

proof fn lemma_pushed(journal: Seq<JournalV>, entry: JournalV)
    requires
        fake::first_dispatch(journal, entry.call_id) is None,
    ensures
        fake::first_dispatch(journal.push(entry), entry.call_id) == Some(entry),
{
    assert(journal.push(entry).drop_last() =~= journal);
}

proof fn lemma_push_keeps(journal: Seq<JournalV>, entry: JournalV, call_id: Seq<char>)
    requires
        entry.call_id != call_id || fake::first_dispatch(journal, call_id) is Some,
    ensures
        fake::first_dispatch(journal.push(entry), call_id) == fake::first_dispatch(
            journal,
            call_id,
        ),
{
    assert(journal.push(entry).drop_last() =~= journal);
}

/// A refused call leaves the world as it is, and does not use up the script.
pub proof fn law_refusal_leaves_the_world(
    w: WorldV,
    attested: bool,
    call_id: Seq<char>,
    action_name: Seq<char>,
    cancelled: bool,
)
    requires
        !accepts(w, attested, call_id, cancelled),
    ensures
        fake::executed(w, attested, call_id, action_name, cancelled).0 == w,
        fake::executed(w, attested, call_id, action_name, cancelled).1 is Err,
{
}

/// What a dispatch leaves behind decides the fate of its call: a terminal, of
/// whatever kind, is adopted as it is; a transport that broke after the
/// dispatch leaves a start without a terminal; one that broke before leaves no
/// trace.
pub proof fn law_dispatch_decides_the_fate(
    w: WorldV,
    call_id: Seq<char>,
    action_name: Seq<char>,
)
    requires
        accepts(w, true, call_id, false),
        w.log_unavailable is None,
    ensures
        ({
            let (after, r) = fake::executed(w, true, call_id, action_name, false);
            match fake::next_scripted(w.script) {
                ScriptedV::Terminal(_) => r matches Ok(outcome) && fake::reconciled(after, call_id)
                    == FateV::Completed(outcome),
                ScriptedV::TransportLostAfterDispatch => r is Err && fake::reconciled(after, call_id)
                    == FateV::StartedNoTerminal,
                ScriptedV::TransportLostBeforeDispatch => r is Err && fake::reconciled(
                    after,
                    call_id,
                ) == FateV::NeverDispatched,
            }
        }),
{
    assert forall|i: int| 0 <= i < w.journal.len() implies (#[trigger] w.journal[i]).call_id
        != call_id by {
        if w.journal[i].call_id == call_id {
            assert(w.journaled(call_id));
        }
    }
    lemma_absent(w.journal, call_id);
    let (after, r) = fake::executed(w, true, call_id, action_name, false);
    match fake::next_scripted(w.script) {
        ScriptedV::Terminal(_) => {
            lemma_pushed(w.journal, JournalV { call_id, terminal: Some(r->Ok_0) });
        },
        ScriptedV::TransportLostAfterDispatch => {
            lemma_pushed(w.journal, JournalV { call_id, terminal: None });
        },
        ScriptedV::TransportLostBeforeDispatch => {},
    }
}

/// A success echoes the id of its call.
pub proof fn law_success_echoes_the_call_id(
    w: WorldV,
    attested: bool,
    call_id: Seq<char>,
    action_name: Seq<char>,
    cancelled: bool,
)
    ensures
        fake::executed(w, attested, call_id, action_name, cancelled).1 matches Ok(
            ActionOutcomeV::Succeeded(result),
        ) ==> result.call_id == call_id,
{
}

/// An id that was dispatched is refused when it comes again, whatever the
/// script holds.
pub proof fn law_duplicate_is_refused(
    w: WorldV,
    call_id: Seq<char>,
    action_name: Seq<char>,
    again: Seq<char>,
)
    requires
        accepts(w, true, call_id, false),
        fake::next_scripted(w.script) !is TransportLostBeforeDispatch,
    ensures
        ({
            let after = fake::executed(w, true, call_id, action_name, false).0;
            let second = fake::executed(after, true, call_id, again, false);
            &&& second.0 == after
            &&& second.1 matches Err(e)
            &&& e.error_class == ErrorClass::BindArgumentsInvalid
        }),
{
    let after = fake::executed(w, true, call_id, action_name, false).0;
    let at = w.journal.len() as int;
    assert(after.journal[at].call_id == call_id);
    assert(after.journaled(call_id));
}

/// Where the log can be read, a call has no trace exactly when it was never
/// journaled.
pub proof fn law_never_dispatched(w: WorldV, call_id: Seq<char>)
    requires
        w.log_unavailable is None,
    ensures
        fake::reconciled(w, call_id) == FateV::NeverDispatched <==> !w.journaled(call_id),
{
    if w.journaled(call_id) {
        let at = choose|i: int|
            0 <= i < w.journal.len() && #[trigger] w.journal[i].call_id == call_id;
        lemma_present(w.journal, call_id, at);
    } else {
        assert forall|i: int| 0 <= i < w.journal.len() implies (#[trigger] w.journal[i]).call_id
            != call_id by {
            if w.journal[i].call_id == call_id {
                assert(w.journaled(call_id));
            }
        }
        lemma_absent(w.journal, call_id);
    }
}

/// Where the log cannot be read, no fate is made up.
pub proof fn law_unreadable_log_is_said(w: WorldV, call_id: Seq<char>)
    requires
        w.log_unavailable is Some,
    ensures
        fake::reconciled(w, call_id) == FateV::LogUnavailable(w.log_unavailable->0),
{
}

/// Ending is idempotent: the first ending stays.
pub proof fn law_first_ending_stays(
    w: WorldV,
    outcome: SessionOutcome,
    reason: Option<Seq<char>>,
    later: SessionOutcome,
    other: Option<Seq<char>>,
)
    ensures
        fake::ended_with(fake::ended_with(w, outcome, reason), later, other) == fake::ended_with(
            w,
            outcome,
            reason,
        ),
        fake::ended_with(w, outcome, reason).ended is Some,
{
}

/// On an ended session calls, snapshots, evidence, verdicts and the cursor are
/// refused with a lost transport, and the world stays as it is.
pub proof fn law_ended_session_refuses(
    w: WorldV,
    attested: bool,
    call_id: Seq<char>,
    name: Seq<char>,
    cancelled: bool,
    sha256: Option<Seq<char>>,
    summary: Seq<char>,
    evidence: nat,
    verdict: JsonV,
    session_id: Seq<char>,
    device_id: Seq<char>,
    arguments: JsonV,
)
    requires
        w.ended is Some,
    ensures
        fake::performed(w, device_id, attested, call_id, name, arguments, cancelled).0 == w,
        fake::performed(w, device_id, attested, call_id, name, arguments, cancelled).1 matches Err(
            e,
        ) && e.error_class == ErrorClass::TransportLost,
        fake::cursor_of(w, session_id) matches Err(e) && e.error_class == ErrorClass::TransportLost,
        fake::executed(w, attested, call_id, name, cancelled).0 == w,
        fake::executed(w, attested, call_id, name, cancelled).1 matches Err(e) && e.error_class
            == ErrorClass::TransportLost,
        fake::snapshot_of(w, name) matches Err(e) && e.error_class == ErrorClass::TransportLost,
        fake::fetched(w, name, sha256) matches Err(e) && e.error_class == ErrorClass::TransportLost,
        fake::recorded(w, summary, evidence, verdict).0 == w,
        fake::recorded(w, summary, evidence, verdict).1 matches Err(e) && e.error_class
            == ErrorClass::TransportLost,
{
}

/// The cursor never goes back, and every terminal moves it on.
pub proof fn law_cursor_never_regresses(
    w: WorldV,
    attested: bool,
    call_id: Seq<char>,
    name: Seq<char>,
    cancelled: bool,
    wants: Seq<ObserveWant>,
    summary: Seq<char>,
    evidence: nat,
    verdict: JsonV,
    outcome: SessionOutcome,
    reason: Option<Seq<char>>,
)
    requires
        w.has_room(),
    ensures
        fake::executed(w, attested, call_id, name, cancelled).0.sequence >= w.sequence,
        fake::executed(w, attested, call_id, name, cancelled).1 is Ok ==> fake::executed(
            w,
            attested,
            call_id,
            name,
            cancelled,
        ).0.sequence > w.sequence,
        fake::observed(w, name, wants).0.sequence > w.sequence,
        fake::recorded(w, summary, evidence, verdict).0.sequence >= w.sequence,
        fake::ended_with(w, outcome, reason).sequence >= w.sequence,
{
}

/// A verdict over a cap is refused and not recorded; one within the caps is
/// recorded on an open session that archives.
pub proof fn law_caps_fail_closed(w: WorldV, summary: Seq<char>, evidence: nat, verdict: JsonV)
    requires
        w.ended is None,
        w.record_verdict_error is None,
    ensures
        summary.len() > 16384 || evidence > 64 ==> fake::recorded(w, summary, evidence, verdict).0
            == w && (fake::recorded(w, summary, evidence, verdict).1 matches Err(e) && e.error_class
            == ErrorClass::BindArgumentsInvalid),
        summary.len() <= 16384 && evidence <= 64 ==> fake::recorded(
            w,
            summary,
            evidence,
            verdict,
        ).1 is Ok && fake::recorded(w, summary, evidence, verdict).0.verdicts == w.verdicts.push(
            verdict,
        ),
{
}

/// An injected UI snapshot is served on both routes: by the id of the
/// observation, and as the bytes of its evidence, which match their digest.
pub proof fn law_injected_snapshot_is_served(
    w: WorldV,
    device_id: Seq<char>,
    wants: Seq<ObserveWant>,
)
    requires
        w.ended is None,
        w.ui_snapshot_omission is None,
        w.fetch_unsupported is None,
        w.injected_ui_snapshot is Some,
        w.ui_snapshots.sorted(),
        w.evidence_store.sorted(),
        wants.contains(ObserveWant::UiSnapshot),
    ensures
        ({
            let tree = w.injected_ui_snapshot->0;
            let (after, o) = fake::observed(w, device_id, wants);
            let bytes = fake::snapshot_bytes(tree);
            &&& fake::snapshot_of(after, o.id) == Ok::<UiSnapshotV, ProviderErrorV>(
                UiSnapshotV::Available(tree),
            )
            &&& fake::fetched(after, o.id + "-uitree"@, Some(hash::sha256_hex(bytes))) == Ok::<
                Seq<u8>,
                ProviderErrorV,
            >(bytes)
            &&& o.ui_snapshot == Some(
                fake::snapshot_ref_json(
                    fake::asset_json(o.id + "-uitree"@, "application/json"@, bytes),
                ),
            )
        }),
{
    broadcast use keyed::lemma_get_after_with, keyed::lemma_sorted_after_with;

}

/// The bytes of a screenshot can be fetched under the digest that its asset
/// declares; another digest is refused.
pub proof fn law_screenshot_bytes_match_their_digest(
    w: WorldV,
    device_id: Seq<char>,
    other: Seq<char>,
)
    requires
        w.ended is None,
        w.screenshot_omission is None,
        w.fetch_unsupported is None,
        w.evidence_store.sorted(),
    ensures
        ({
            let (after, o) = fake::observed(w, device_id, seq![ObserveWant::Screenshot]);
            let bytes = fake::screenshot_bytes(o.id);
            let digest = hash::sha256_hex(bytes);
            &&& o.screenshot == Some(
                fake::asset_json(o.id + "-screenshot"@, "image/png"@, bytes),
            )
            &&& fake::fetched(after, o.id + "-screenshot"@, Some(digest)) == Ok::<
                Seq<u8>,
                ProviderErrorV,
            >(bytes)
            &&& other != digest ==> (fake::fetched(after, o.id + "-screenshot"@, Some(other))
                matches Err(e) && e.error_class == ErrorClass::ActionFailedFinal)
        }),
{
    broadcast use keyed::lemma_get_after_with, keyed::lemma_sorted_after_with;

    let wants = seq![ObserveWant::Screenshot];
    assert(wants[0] == ObserveWant::Screenshot);
    assert(wants.contains(ObserveWant::Screenshot));
    assert(!wants.contains(ObserveWant::UiSnapshot));
}

/// An omission is data: with an injected omission the observation succeeds,
/// without the part and with the reason; a part that nobody wants has neither.
pub proof fn law_omissions_are_data(w: WorldV, device_id: Seq<char>, wants: Seq<ObserveWant>)
    ensures
        ({
            let o = fake::observed(w, device_id, wants).1;
            &&& w.screenshot_omission is Some ==> o.screenshot is None
            &&& w.ui_snapshot_omission is Some ==> o.ui_snapshot is None
            &&& wants.contains(ObserveWant::Screenshot) ==> o.screenshot_omission
                == w.screenshot_omission && (o.screenshot is None <==> w.screenshot_omission is Some)
            &&& wants.contains(ObserveWant::UiSnapshot) ==> o.ui_snapshot_omission
                == w.ui_snapshot_omission && (o.ui_snapshot is None <==> w.ui_snapshot_omission
                is Some)
            &&& !wants.contains(ObserveWant::Screenshot) ==> o.screenshot is None
                && o.screenshot_omission is None
            &&& !wants.contains(ObserveWant::UiSnapshot) ==> o.ui_snapshot is None
                && o.ui_snapshot_omission is None
        }),
{
}

/// A call that was cancelled beforehand leaves the world as it is. It is refused
/// as cancelled, unless it names an observation action that is not attested and
/// whose arguments are at fault: then the fault is said.
pub proof fn law_cancelled_calls_are_refused(
    w: WorldV,
    device_id: Seq<char>,
    attested: bool,
    call_id: Seq<char>,
    name: Seq<char>,
    arguments: JsonV,
)
    requires
        w.ended is None,
    ensures
        fake::performed(w, device_id, attested, call_id, name, arguments, true).0 == w,
        fake::performed(w, device_id, attested, call_id, name, arguments, true).1 matches Err(e)
            && (if !attested && spi::observation_wants(name, arguments) is Err {
            e == spi::observation_wants(name, arguments)->Err_0
        } else {
            e.error_class == ErrorClass::ActionCancelled
        }),
{
}

/// A call that an observation serves starts at the reading of the logical clock
/// and finishes with the capture, which moves the clock on by one.
pub proof fn law_served_times_come_from_the_clock(
    w: WorldV,
    device_id: Seq<char>,
    call_id: Seq<char>,
    wants: Seq<ObserveWant>,
)
    requires
        w.has_room(),
        w.ended is None,
    ensures
        ({
            let (after, r) = fake::served(w, device_id, call_id, wants);
            let captured = fake::observed(w, device_id, wants).1;
            &&& r matches Ok(ActionOutcomeV::Succeeded(result))
            &&& result.started_at_ms == w.clock_ms
            &&& captured.captured_at_ms == w.clock_ms + 1
            &&& result.after == Some(captured.json())
            &&& result.finished_at_ms == w.clock_ms + 1
            &&& after.clock_ms == w.clock_ms + 1
        }),
{
}

/// A call on a session of the fake provider.
pub struct FakeCallV {
    /// Whether the action is attested.
    pub attested: bool,
    /// The id.
    pub call_id: Seq<char>,
    /// The action.
    pub action_name: Seq<char>,
    /// The arguments.
    pub arguments: JsonV,
    /// Whether it is cancelled beforehand.
    pub cancelled: bool,
}

/// The world after calls, one after the other, and what each gave.
pub open spec fn ran(w: WorldV, device_id: Seq<char>, calls: Seq<FakeCallV>) -> (
    WorldV,
    Seq<Result<ActionOutcomeV, ProviderErrorV>>,
)
    decreases calls.len(),
{
    if calls.len() == 0 {
        (w, Seq::empty())
    } else {
        let (before, results) = ran(w, device_id, calls.drop_last());
        let c = calls.last();
        let (after, r) = fake::performed(
            before,
            device_id,
            c.attested,
            c.call_id,
            c.action_name,
            c.arguments,
            c.cancelled,
        );
        (after, results.push(r))
    }
}

proof fn lemma_call_keeps_the_fate(
    w: WorldV,
    device_id: Seq<char>,
    c: FakeCallV,
    call_id: Seq<char>,
)
    requires
        c.call_id != call_id || w.journaled(call_id),
    ensures
        ({
            let after = fake::performed(
                w,
                device_id,
                c.attested,
                c.call_id,
                c.action_name,
                c.arguments,
                c.cancelled,
            ).0;
            &&& fake::reconciled(after, call_id) == fake::reconciled(w, call_id)
            &&& w.journaled(call_id) ==> after.journaled(call_id)
        }),
{
    let after = fake::performed(
        w,
        device_id,
        c.attested,
        c.call_id,
        c.action_name,
        c.arguments,
        c.cancelled,
    ).0;
    assert(after.log_unavailable == w.log_unavailable);
    if w.journaled(call_id) {
        let at = choose|i: int|
            0 <= i < w.journal.len() && #[trigger] w.journal[i].call_id == call_id;
        assert(after.journal[at].call_id == call_id);
    }
    if after.journal != w.journal {
        assert(c.call_id != call_id);
        let entry = after.journal.last();
        assert(after.journal =~= w.journal.push(entry));
        lemma_push_keeps(w.journal, entry, call_id);
    }
}

/// The fate of a call stays as it is through all later calls: those under other
/// ids leave it, and so do those that repeat its id once it was dispatched.
pub proof fn law_later_calls_keep_the_fate(
    w: WorldV,
    device_id: Seq<char>,
    calls: Seq<FakeCallV>,
    call_id: Seq<char>,
)
    requires
        w.journaled(call_id) || forall|i: int|
            0 <= i < calls.len() ==> (#[trigger] calls[i]).call_id != call_id,
    ensures
        fake::reconciled(ran(w, device_id, calls).0, call_id) == fake::reconciled(w, call_id),
        w.journaled(call_id) ==> ran(w, device_id, calls).0.journaled(call_id),
    decreases calls.len(),
{
    if calls.len() > 0 {
        let earlier = calls.drop_last();
        assert forall|i: int| 0 <= i < earlier.len() && !w.journaled(call_id) implies (
        #[trigger] earlier[i]).call_id != call_id by {
            assert(earlier[i] == calls[i]);
        }
        law_later_calls_keep_the_fate(w, device_id, earlier, call_id);
        assert(calls.last() == calls[calls.len() - 1]);
        lemma_call_keeps_the_fate(ran(w, device_id, earlier).0, device_id, calls.last(), call_id);
    }
}

/// Observations, verdicts and the end of the session leave the fate of every
/// call as it is.
pub proof fn law_other_methods_keep_the_fate(
    w: WorldV,
    call_id: Seq<char>,
    device_id: Seq<char>,
    wants: Seq<ObserveWant>,
    summary: Seq<char>,
    evidence: nat,
    verdict: JsonV,
    outcome: SessionOutcome,
    reason: Option<Seq<char>>,
)
    ensures
        fake::reconciled(fake::observed(w, device_id, wants).0, call_id) == fake::reconciled(
            w,
            call_id,
        ),
        fake::reconciled(fake::recorded(w, summary, evidence, verdict).0, call_id)
            == fake::reconciled(w, call_id),
        fake::reconciled(fake::ended_with(w, outcome, reason), call_id) == fake::reconciled(
            w,
            call_id,
        ),
{
}

/// Equal scripts and equal calls give equal results, times included: a run
/// depends on nothing but the script and the calls.
pub proof fn law_equal_runs_give_equal_results(
    script: Seq<ScriptedV>,
    other: Seq<ScriptedV>,
    device_id: Seq<char>,
    calls: Seq<FakeCallV>,
    more: Seq<FakeCallV>,
)
    requires
        script == other,
        calls == more,
    ensures
        ran(fake::new_world(script), device_id, calls) == ran(
            fake::new_world(other),
            device_id,
            more,
        ),
        ran(fake::new_world(script), device_id, calls).1.len() == calls.len(),
    decreases calls.len(),
{
    if calls.len() > 0 {
        law_equal_runs_give_equal_results(
            script,
            other,
            device_id,
            calls.drop_last(),
            more.drop_last(),
        );
    }
}

} // verus!
