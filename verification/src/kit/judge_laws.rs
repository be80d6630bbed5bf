//! What the checks of the suite judge: a check passes exactly if the provider
//! did what the check asks for.

use vstd::prelude::*;
use vstd::string::*;

use crate::ir::runtime::{ActionOutcomeV, FateV, ObservationV};
use crate::ir::vocab::{ErrorClass, VerdictStatus};
use crate::kit::conformance;
use crate::kit::conformance::{
    CallV, CheckStatus, ConformanceReport, CursorV, EventV, Stage, SuiteV,
};
use crate::kit::error::ProviderErrorV;
use crate::kit::spi::ObserveWant;
use crate::text;

verus! {

/// Whether the first check that `after` has beyond `before` has this name and
/// was passed or failed as told, with a detail exactly if it failed.
pub open spec fn records(before: SuiteV, after: SuiteV, name: Seq<char>, passed: bool) -> bool {
    let n = before.checks.len() as int;
    &&& after.checks.len() > n
    &&& after.checks[n].name == name
    &&& after.checks[n].status == (if passed {
        CheckStatus::Passed
    } else {
        CheckStatus::Failed
    })
    &&& after.checks[n].detail is None <==> passed
}

/// Whether an early `execute` settled as it must: the first succeeds and echoes
/// its id, the second fails, the third is cancelled, the fourth times out.
pub open spec fn settles_in_turn(
    index: u8,
    call_id: Seq<char>,
    r: Result<ActionOutcomeV, ProviderErrorV>,
) -> bool {
    match r {
        Ok(ActionOutcomeV::Succeeded(result)) => index == 0 && result.call_id == call_id,
        Ok(ActionOutcomeV::Failed(_)) => index == 1,
        Ok(ActionOutcomeV::Cancelled(_)) => index == 2,
        Ok(ActionOutcomeV::TimedOut(_)) => index == 3,
        Err(_) => false,
    }
}

proof fn lemma_kinds()
    ensures
        "succeeded"@ != "failed"@,
        "succeeded"@ != "cancelled"@,
        "succeeded"@ != "timedOut"@,
        "failed"@ != "cancelled"@,
        "failed"@ != "timedOut"@,
        "cancelled"@ != "timedOut"@,
{
    reveal_strlit("succeeded");
    reveal_strlit("failed");
    reveal_strlit("cancelled");
    reveal_strlit("timedOut");
    assert("succeeded"@.len() == 9 && "succeeded"@[0] == 's');
    assert("failed"@.len() == 6);
    assert("cancelled"@.len() == 9 && "cancelled"@[0] == 'c');
    assert("timedOut"@.len() == 8);
}

/// The kinds of terminals are told apart by their words.
pub proof fn law_kinds_are_told_apart(o: ActionOutcomeV)
    ensures
        o.kind() == "succeeded"@ <==> o is Succeeded,
        o.kind() == "failed"@ <==> o is Failed,
        o.kind() == "cancelled"@ <==> o is Cancelled,
        o.kind() == "timedOut"@ <==> o is TimedOut,
{
    lemma_kinds();
}

/// A retryable failure is held against the provider exactly if the count of its
/// dispatches moved by anything but one.
pub proof fn law_one_dispatch_per_failure(before: u64, after: u64)
    ensures
        conformance::retry_counted(before, after) is Ok <==> after == before + 1,
{
}

/// Only a terminal that failed and is marked retryable is a retryable failure.
pub proof fn law_retryable_failures(r: Result<ActionOutcomeV, ProviderErrorV>)
    ensures
        conformance::is_retryable_failure(r) <==> (r matches Ok(ActionOutcomeV::Failed(error))
            && error.retryable),
{
}

/// The early terminals are judged by their kinds, in their order, and by the id
/// that a success echoes.
pub proof fn law_terminals_settle_in_turn(
    index: u8,
    call_id: Seq<char>,
    r: Result<ActionOutcomeV, ProviderErrorV>,
)
    requires
        index < 4,
    ensures
        conformance::terminal_judged(index, call_id, r) is Ok <==> settles_in_turn(
            index,
            call_id,
            r,
        ),
{
    lemma_kinds();
}

/// A repeated id passes only if it was refused; so does an action that is not
/// attested, and only if no dispatch was counted meanwhile.
pub proof fn law_refusals_are_asked_for(
    r: Result<ActionOutcomeV, ProviderErrorV>,
    counts: Option<(u64, u64)>,
)
    ensures
        conformance::duplicate_judged(r) is Ok <==> r is Err,
        conformance::rogue_judged(r, counts) is Ok <==> r is Err && (counts matches Some(
            (before, after),
        ) ==> before == after),
{
}

/// An omitted screenshot passes only as data: no screenshot, and a reason.
pub proof fn law_omissions_come_as_data(r: Result<ObservationV, ProviderErrorV>)
    ensures
        conformance::omission_judged(r) is Ok <==> (r matches Ok(o) && o.screenshot is None
            && o.screenshot_omission is Some),
{
}

/// A call that was cancelled beforehand passes only with the class of a
/// cancellation.
pub proof fn law_cancelled_calls_fail_as_cancelled(r: Result<ActionOutcomeV, ProviderErrorV>)
    ensures
        conformance::cancelled_judged(r) is Ok <==> (r matches Err(e) && e.error_class
            == ErrorClass::ActionCancelled),
{
}

/// Fates are judged by what they say: a foreign cursor must not deny the call,
/// the calls that settled must come back with their own terminals, a call that
/// was never made must be denied, and a hidden log must be owned up to.
pub proof fn law_fates_are_judged_by_what_they_say(
    r: Result<FateV, ProviderErrorV>,
    call_id: Seq<char>,
    shown: Seq<char>,
)
    ensures
        conformance::foreign_judged(r) is Ok <==> (r matches Ok(fate) && fate !is NeverDispatched),
        conformance::trace_judged(r, shown) is Ok <==> (r matches Ok(fate) && fate
            is NeverDispatched),
        conformance::completed_judged(call_id, r, shown) is Ok <==> (r matches Ok(
            FateV::Completed(ActionOutcomeV::Succeeded(result)),
        ) && result.call_id == call_id),
        conformance::non_success_judged(r, shown) is Ok <==> (r matches Ok(
            FateV::Completed(outcome),
        ) && outcome is Failed),
        conformance::never_judged(r, shown) is Ok <==> (r matches Ok(fate) && fate
            is NeverDispatched),
        conformance::unavailable_judged(r, shown) is Ok <==> (r matches Ok(fate) && fate
            is LogUnavailable),
{
}

/// A verdict over a cap passes only if it is refused for its arguments; a call
/// that must succeed passes only if it does.
pub proof fn law_verdicts_are_judged_by_the_caps(
    r: Result<(), ProviderErrorV>,
    what: Seq<char>,
)
    ensures
        conformance::refusal_judged(r, what) is Ok <==> (r matches Err(e) && e.error_class
            == ErrorClass::BindArgumentsInvalid),
        conformance::success_judged(r, what) is Ok <==> r is Ok,
{
}

/// Three readings of the cursor pass only if all were had in one session, the
/// executed actions moved it on, and it did not go back after that.
pub proof fn law_cursors_go_forward(before: CursorV, middle: CursorV, after: CursorV)
    ensures
        conformance::cursors_judged(before, middle, after) is Ok <==> (before is Ok && middle is Ok
            && after is Ok && before->Ok_0.0 == middle->Ok_0.0 && middle->Ok_0.0 == after->Ok_0.0
            && before->Ok_0.1 < middle->Ok_0.1 && middle->Ok_0.1 <= after->Ok_0.1),
{
}

/// A report has passed exactly if no check failed, and is all green exactly if
/// every check passed; so one failed check spoils both.
pub proof fn law_one_failure_spoils_the_report(report: ConformanceReport, at: int)
    requires
        0 <= at < report.checks@.len(),
    ensures
        report.checks@[at].status == CheckStatus::Failed ==> !report.spec_passed()
            && !report.spec_all_green(),
        report.checks@[at].status == CheckStatus::Skipped ==> !report.spec_all_green(),
        !report.spec_passed() ==> exists|i: int|
            0 <= i < report.checks@.len() && (#[trigger] report.checks@[i]).status
                == CheckStatus::Failed,
        !report.spec_all_green() ==> exists|i: int|
            0 <= i < report.checks@.len() && (#[trigger] report.checks@[i]).status
                != CheckStatus::Passed,
{
}

/// A run that counts dispatches before and after a retryable failure records
/// the check on retries as passed exactly if the two counts differ by one; a
/// terminal that is no retryable failure fails the check.
#[verifier::spinoff_prover]
pub proof fn law_run_judges_retries(
    s: SuiteV,
    before: u64,
    r: Result<ActionOutcomeV, ProviderErrorV>,
    after: u64,
    ids: (Seq<char>, Seq<char>, Seq<char>),
)
    requires
        s.stage == Stage::RetryCount,
    ensures
        ({
            let executed = s.after(EventV::Counted(before), ids.0).after(
                EventV::Executed(r),
                ids.1,
            );
            let counted = executed.after(EventV::Counted(after), ids.2);
            if r matches Ok(ActionOutcomeV::Failed(error)) && error.retryable {
                records(s, counted, "execute.noAutonomousRetry"@, after == before + 1)
            } else {
                records(s, executed, "execute.noAutonomousRetry"@, false)
            }
        }),
{
    let started = s.after(EventV::Counted(before), ids.0);
    let executed = started.after(EventV::Executed(r), ids.1);
    if conformance::is_retryable_failure(r) {
        conformance::law_checks_stay_on_record(executed, EventV::Counted(after), ids.2);
    } else {
        conformance::law_checks_stay_on_record(started, EventV::Executed(r), ids.1);
    }
}

/// A run records the check on actions that are not attested as passed exactly
/// if the call was refused and, where dispatches are counted, none was counted
/// meanwhile.
#[verifier::spinoff_prover]
pub proof fn law_run_judges_unattested_actions(
    s: SuiteV,
    before: u64,
    r: Result<ActionOutcomeV, ProviderErrorV>,
    after: u64,
    ids: (Seq<char>, Seq<char>, Seq<char>),
)
    requires
        s.can_count ==> s.stage == Stage::RogueCount,
        !s.can_count ==> s.stage == Stage::Rogue,
    ensures
        ({
            let started = if s.can_count {
                s.after(EventV::Counted(before), ids.0)
            } else {
                s
            };
            let executed = started.after(EventV::Executed(r), ids.1);
            let counted = executed.after(EventV::Counted(after), ids.2);
            if s.can_count && r is Err {
                records(s, counted, "execute.rejectsUnattestedAction"@, before == after)
            } else {
                records(s, executed, "execute.rejectsUnattestedAction"@, r is Err)
            }
        }),
{
    let started = if s.can_count {
        s.after(EventV::Counted(before), ids.0)
    } else {
        s
    };
    let executed = started.after(EventV::Executed(r), ids.1);
    if s.can_count && r is Err {
        conformance::law_checks_stay_on_record(executed, EventV::Counted(after), ids.2);
    } else {
        conformance::law_checks_stay_on_record(started, EventV::Executed(r), ids.1);
    }
}

/// A run takes the early terminals one by one: the first that does not settle as
/// it must fails the check, and the check passes with the fourth. The ids of the
/// call that succeeded and of the one that failed are kept for later.
#[verifier::spinoff_prover]
pub proof fn law_run_judges_terminals(
    s: SuiteV,
    index: u8,
    r: Result<ActionOutcomeV, ProviderErrorV>,
    fresh: Seq<char>,
)
    requires
        s.stage == Stage::Terminal(index),
        index < 4,
    ensures
        ({
            let next = s.after(EventV::Executed(r), fresh);
            let good = settles_in_turn(index, s.call_id, r);
            &&& !good ==> records(s, next, "execute.fourTerminalsReachable"@, false) && next.stage
                == Stage::CursorAfterExecutes
            &&& good && index == 3 ==> records(s, next, "execute.fourTerminalsReachable"@, true)
                && next.stage == Stage::CursorAfterExecutes
            &&& good && index < 3 ==> next.checks == s.checks && next.stage == Stage::Terminal(
                (index + 1) as u8,
            ) && next.call_id == fresh
            &&& next.succeeded == (if good && index == 0 {
                Some(s.call_id)
            } else {
                s.succeeded
            })
            &&& next.failed == (if good && index == 1 {
                Some(s.call_id)
            } else {
                s.failed
            })
        }),
{
    lemma_kinds();
}

/// A run records the check on cancelled calls as passed exactly if the call
/// failed as cancelled and left no trace under its own id.
#[verifier::spinoff_prover]
pub proof fn law_run_judges_cancellation(
    s: SuiteV,
    r: Result<ActionOutcomeV, ProviderErrorV>,
    fate: Result<FateV, ProviderErrorV>,
    shown: Seq<char>,
    ids: (Seq<char>, Seq<char>),
)
    requires
        s.stage == Stage::Cancelled,
    ensures
        ({
            let executed = s.after(EventV::Executed(r), ids.0);
            let traced = executed.after(EventV::Reconciled(fate, shown), ids.1);
            if r matches Err(e) && e.error_class == ErrorClass::ActionCancelled {
                &&& executed.checks == s.checks
                &&& executed.call() == CallV::Reconcile(s.call_id, s.issuing)
                &&& records(
                    s,
                    traced,
                    "execute.preCancelledSendsNothing"@,
                    fate matches Ok(f) && f is NeverDispatched,
                )
            } else {
                records(s, executed, "execute.preCancelledSendsNothing"@, false)
            }
        }),
{
    let executed = s.after(EventV::Executed(r), ids.0);
    if conformance::cancelled_judged(r) is Ok {
        conformance::law_checks_stay_on_record(executed, EventV::Reconciled(fate, shown), ids.1);
    } else {
        conformance::law_checks_stay_on_record(s, EventV::Executed(r), ids.0);
    }
}

/// A run records what each call with a single answer gave: passed exactly if the
/// answer is the one that the check asks for.
#[verifier::spinoff_prover]
#[verifier::rlimit(60)]
pub proof fn law_run_judges_single_answers(
    s: SuiteV,
    executed: Result<ActionOutcomeV, ProviderErrorV>,
    observed: Result<ObservationV, ProviderErrorV>,
    fate: Result<FateV, ProviderErrorV>,
    unit: Result<(), ProviderErrorV>,
    opened: Result<Seq<char>, ProviderErrorV>,
    shown: Seq<char>,
    fresh: Seq<char>,
)
    requires
        s.ready(),
    ensures
        s.stage == Stage::Opening ==> records(
            s,
            s.after(EventV::Opened(opened), fresh),
            "openSession.opens"@,
            opened is Ok,
        ),
        s.stage == Stage::Duplicate ==> records(
            s,
            s.after(EventV::Executed(executed), fresh),
            "execute.rejectsDuplicateCallId"@,
            executed is Err,
        ),
        s.stage == Stage::Omission ==> records(
            s,
            s.after(EventV::Observed(observed), fresh),
            "observe.omissionIsNotAnError"@,
            observed matches Ok(o) && o.screenshot is None && o.screenshot_omission is Some,
        ),
        s.stage == Stage::Foreign ==> records(
            s,
            s.after(EventV::Reconciled(fate, shown), fresh),
            "reconcile.foreignCredentialNeverFabricates"@,
            fate matches Ok(f) && f !is NeverDispatched,
        ),
        s.stage == Stage::Completed ==> records(
            s,
            s.after(EventV::Reconciled(fate, shown), fresh),
            "reconcile.completed"@,
            fate matches Ok(FateV::Completed(ActionOutcomeV::Succeeded(result))) && Some(
                result.call_id,
            ) == s.succeeded,
        ),
        s.stage == Stage::NonSuccess ==> records(
            s,
            s.after(EventV::Reconciled(fate, shown), fresh),
            "reconcile.completedNonSuccess"@,
            fate matches Ok(FateV::Completed(outcome)) && outcome is Failed,
        ),
        s.stage == Stage::Never ==> records(
            s,
            s.after(EventV::Reconciled(fate, shown), fresh),
            "reconcile.neverDispatched"@,
            fate matches Ok(f) && f is NeverDispatched,
        ),
        s.stage == Stage::Unavailable ==> records(
            s,
            s.after(EventV::Reconciled(fate, shown), fresh),
            "reconcile.logUnavailable"@,
            fate matches Ok(f) && f is LogUnavailable,
        ),
        s.stage == Stage::LongSummary ==> records(
            s,
            s.after(EventV::Recorded(unit), fresh),
            "recordVerdict.rejectsOversizedSummary"@,
            unit matches Err(e) && e.error_class == ErrorClass::BindArgumentsInvalid,
        ),
        s.stage == Stage::MuchEvidence ==> records(
            s,
            s.after(EventV::Recorded(unit), fresh),
            "recordVerdict.rejectsOversizedEvidence"@,
            unit matches Err(e) && e.error_class == ErrorClass::BindArgumentsInvalid,
        ),
        s.stage == Stage::Valid ==> records(
            s,
            s.after(EventV::Recorded(unit), fresh),
            "recordVerdict.acceptsValid"@,
            unit is Ok,
        ),
        s.stage == Stage::Ending ==> records(
            s,
            s.after(EventV::Ended(unit), fresh),
            "end.completes"@,
            unit is Ok,
        ),
{
    if s.stage == Stage::Duplicate {
        conformance::law_checks_stay_on_record(s, EventV::Executed(executed), fresh);
    }
}

/// A run judges the cursor by the readings that it took before the first call,
/// after the early calls and after the verdicts.
#[verifier::spinoff_prover]
pub proof fn law_run_judges_cursors(s: SuiteV, reading: CursorV, fresh: Seq<char>)
    ensures
        s.stage == Stage::CursorBefore ==> s.after(EventV::Cursor(reading), fresh).cursor_before
            == reading && (reading is Ok ==> s.after(EventV::Cursor(reading), fresh).issuing
            == reading->Ok_0),
        s.stage == Stage::CursorAfterExecutes ==> s.after(
            EventV::Cursor(reading),
            fresh,
        ).cursor_after_executes == reading,
        s.stage == Stage::NeverCursor && reading is Ok ==> s.after(
            EventV::Cursor(reading),
            fresh,
        ).current == reading->Ok_0,
        s.stage == Stage::CursorAfterVerdicts ==> records(
            s,
            s.after(EventV::Cursor(reading), fresh),
            "currentCursor.monotonic"@,
            s.cursor_before is Ok && s.cursor_after_executes is Ok && reading is Ok
                && s.cursor_before->Ok_0.0 == s.cursor_after_executes->Ok_0.0
                && s.cursor_after_executes->Ok_0.0 == reading->Ok_0.0 && s.cursor_before->Ok_0.1
                < s.cursor_after_executes->Ok_0.1 && s.cursor_after_executes->Ok_0.1
                <= reading->Ok_0.1,
        ),
{
}

/// A check is skipped only where its hook is missing or no early call settled as
/// it needs.
#[verifier::spinoff_prover]
#[verifier::rlimit(60)]
pub proof fn law_skips_have_a_cause(s: SuiteV, event: EventV, fresh: Seq<char>, at: int)
    requires
        s.ready(),
        conformance::answers(s.stage, event),
        s.checks.len() <= at < s.after(event, fresh).checks.len(),
        s.after(event, fresh).checks[at].status == CheckStatus::Skipped,
    ensures
        ({
            let next = s.after(event, fresh);
            let name = next.checks[at].name;
            ||| !s.can_count && name == "execute.noAutonomousRetry"@
            ||| !s.can_omit && name == "observe.omissionIsNotAnError"@
            ||| !s.can_hide_log && name == "reconcile.logUnavailable"@
            ||| next.succeeded is None && (name == "execute.rejectsDuplicateCallId"@ || name
                == "reconcile.foreignCredentialNeverFabricates"@ || name
                == "reconcile.completed"@)
            ||| next.failed is None && name == "reconcile.completedNonSuccess"@
        }),
{
}

/// The calls are those that the checks are about: the repeated id and the looked
/// up ones are the ids that settled, the cancelled call is cancelled beforehand,
/// the refused verdicts are over a cap of 16384 characters or 64 citations, and
/// the accepted one is within both.
pub proof fn law_calls_are_what_the_checks_ask(s: SuiteV)
    requires
        s.ready(),
    ensures
        s.stage == Stage::Duplicate ==> s.call() == CallV::Execute(
            s.action_name->0,
            s.succeeded->0,
            false,
        ),
        s.stage == Stage::Cancelled ==> s.call() == CallV::Execute(
            s.action_name->0,
            s.call_id,
            true,
        ),
        s.stage is Terminal || s.stage == Stage::Retry ==> s.call() == CallV::Execute(
            s.action_name->0,
            s.call_id,
            false,
        ),
        s.stage == Stage::Rogue ==> s.call() == CallV::Execute(
            "conformanceRogueAction"@,
            s.call_id,
            false,
        ),
        s.stage == Stage::Completed ==> s.call() == CallV::Reconcile(s.succeeded->0, s.issuing),
        s.stage == Stage::NonSuccess ==> s.call() == CallV::Reconcile(s.failed->0, s.issuing),
        s.stage == Stage::Foreign ==> s.call() == CallV::Reconcile(
            s.succeeded->0,
            ("conformance-foreign-generation"@, 0),
        ),
        s.stage == Stage::Never ==> s.call() == CallV::Reconcile(s.call_id, s.current),
        s.stage == Stage::Unavailable && s.succeeded is Some ==> s.call() == CallV::Reconcile(
            s.succeeded->0,
            s.issuing,
        ),
        s.stage == Stage::LongSummary ==> (s.call() matches CallV::RecordVerdict(_, summary, cited)
            && summary.len() > 16384 && cited.len() <= 64),
        s.stage == Stage::MuchEvidence ==> (s.call() matches CallV::RecordVerdict(_, summary, cited)
            && summary.len() <= 16384 && cited.len() > 64 && (forall|i: int|
            0 <= i < cited.len() ==> #[trigger] cited[i] == s.sample)),
        s.stage == Stage::Valid ==> (s.call() matches CallV::RecordVerdict(status, summary, cited)
            && status == VerdictStatus::Unknown && summary.len() <= 16384 && cited.len() <= 64),
        s.stage == Stage::Omission || s.stage == Stage::Sample ==> (s.call() matches CallV::Observe(
            wants,
        ) && wants.contains(ObserveWant::Screenshot)),
{
    reveal_strlit("capped");
    reveal_strlit("conformance write");
    let one = seq![ObserveWant::Screenshot];
    assert(one[0] == ObserveWant::Screenshot);
}

/// A run remembers what came: the action of the session, the ids of the calls that settled, and
/// the screenshot that it cites later, or an asset of its own where there is none.
#[verifier::spinoff_prover]
pub proof fn law_runs_remember_what_came(s: SuiteV, event: EventV, fresh: Seq<char>)
    ensures
        ({
            let next = s.after(event, fresh);
            &&& s.stage == Stage::Opening && event is Opened && event->Opened_0 is Ok
                ==> next.action_name == Some(event->Opened_0->Ok_0) && next.stage
                == Stage::CursorBefore
            &&& s.stage == Stage::Opening && event is Opened && event->Opened_0 is Err ==> next.stage
                == Stage::Finished
            &&& s.stage == Stage::Terminal(0) && event is Executed && event->Executed_0 is Ok
                && event->Executed_0->Ok_0 is Succeeded
                && event->Executed_0->Ok_0->Succeeded_0.call_id == s.call_id ==> next.succeeded
                == Some(s.call_id) && next.stage == Stage::Terminal(1)
            &&& s.stage == Stage::Terminal(1) && event is Executed && event->Executed_0 is Ok
                && event->Executed_0->Ok_0 is Failed ==> next.failed == Some(s.call_id)
                && next.stage == Stage::Terminal(2)
            &&& s.stage == Stage::Sample && event is Observed && event->Observed_0 is Ok
                && event->Observed_0->Ok_0.screenshot is Some ==> Some(next.sample)
                == event->Observed_0->Ok_0.screenshot
            &&& s.stage == Stage::Sample && event is Observed && (event->Observed_0 is Err
                || event->Observed_0->Ok_0.screenshot is None) ==> next.sample
                == conformance::synthetic_asset()
            &&& next.can_count == s.can_count
            &&& next.can_omit == s.can_omit
            &&& next.can_hide_log == s.can_hide_log
        }),
{
    reveal_strlit("succeeded");
    reveal_strlit("failed");
}

/// What is said of a retryable failure that did not ride one request names the number of
/// requests that were counted.
pub proof fn law_miscounts_are_named(before: u64, after: u64)
    requires
        after != before + 1,
    ensures
        ({
            let sent: nat = if after >= before {
                (after - before) as nat
            } else {
                0
            };
            conformance::retry_counted(before, after) == Err::<(), Seq<char>>(
                "a retryable failure must ride exactly one wire request — retries are the runner's, never the provider's (04 §3); counted "@
                    + text::decimal(sent),
            )
        }),
{
}

} // verus!
