//! The record of a run of the suite is in suite order and complete.

use vstd::prelude::*;

use crate::kit::conformance;
use crate::kit::conformance::{CheckV, EventV, Stage, SuiteV};

verus! {

/// The names of the checks, in the order of the suite.
pub open spec fn suite_order() -> Seq<Seq<char>> {
    seq![
        "openSession.opens"@,
        "execute.fourTerminalsReachable"@,
        "execute.rejectsDuplicateCallId"@,
        "execute.rejectsUnattestedAction"@,
        "execute.noAutonomousRetry"@,
        "observe.omissionIsNotAnError"@,
        "reconcile.foreignCredentialNeverFabricates"@,
        "execute.preCancelledSendsNothing"@,
        "reconcile.completed"@,
        "reconcile.completedNonSuccess"@,
        "reconcile.neverDispatched"@,
        "recordVerdict.rejectsOversizedSummary"@,
        "recordVerdict.rejectsOversizedEvidence"@,
        "recordVerdict.acceptsValid"@,
        "currentCursor.monotonic"@,
        "reconcile.logUnavailable"@,
        "end.completes"@,
    ]
}

/// How many checks are on record when a run with an open session is at a stage.
pub open spec fn recorded_at(stage: Stage) -> int {
    match stage {
        Stage::Opening => 0,
        Stage::CursorBefore => 1,
        Stage::Terminal(_) => 1,
        Stage::CursorAfterExecutes => 2,
        Stage::Duplicate => 2,
        Stage::RogueCount => 3,
        Stage::Rogue => 3,
        Stage::RogueRecount => 3,
        Stage::RetryCount => 4,
        Stage::Retry => 4,
        Stage::RetryRecount => 4,
        Stage::OmissionSetUp => 5,
        Stage::Omission => 5,
        Stage::Foreign => 6,
        Stage::Cancelled => 7,
        Stage::CancelledTrace => 7,
        Stage::Completed => 8,
        Stage::NonSuccess => 9,
        Stage::NeverCursor => 10,
        Stage::Never => 10,
        Stage::LongSummary => 11,
        Stage::Sample => 12,
        Stage::MuchEvidence => 12,
        Stage::Valid => 13,
        Stage::CursorAfterVerdicts => 14,
        Stage::LogSetUp => 15,
        Stage::Unavailable => 15,
        Stage::Ending => 16,
        Stage::Finished => 17,
    }
}

/// Whether a record names the first `count` checks of the suite, in order.
#[verifier::opaque]
pub open spec fn names_first(checks: Seq<CheckV>, count: int) -> bool {
    &&& checks.len() == count
    &&& forall|i: int| 0 <= i < count ==> (#[trigger] checks[i]).name == suite_order()[i]
}

/// Whether the record is in suite order and as long as the stage asks: a run
/// whose session did not open ends with the one check on the opening.
pub open spec fn in_suite_order(s: SuiteV) -> bool {
    if s.stage == Stage::Finished && s.action_name is None {
        names_first(s.checks, 1)
    } else {
        names_first(s.checks, recorded_at(s.stage))
    }
}

broadcast proof fn lemma_next_check(checks: Seq<CheckV>, check: CheckV, count: int)
    requires
        names_first(checks, count),
        0 <= count < 17,
        check.name == suite_order()[count],
    ensures
        #![trigger names_first(checks, count), checks.push(check)]
        names_first(checks.push(check), count + 1),
{
    reveal(names_first);
}

proof fn lemma_unavailable_in_order(s: SuiteV)
    requires
        s.action_name is Some,
        names_first(s.checks, 15),
    ensures
        in_suite_order(s.to_unavailable()),
{
    broadcast use lemma_next_check;

}

proof fn lemma_non_success_in_order(s: SuiteV)
    requires
        s.action_name is Some,
        names_first(s.checks, 9),
    ensures
        in_suite_order(s.to_non_success()),
{
    broadcast use lemma_next_check;

}

proof fn lemma_completed_in_order(s: SuiteV)
    requires
        s.action_name is Some,
        names_first(s.checks, 8),
    ensures
        in_suite_order(s.to_completed()),
{
    broadcast use lemma_next_check;

    if s.succeeded is None {
        lemma_non_success_in_order(s.skipped("reconcile.completed"@, conformance::no_succeeded()));
    }
}

proof fn lemma_foreign_in_order(s: SuiteV)
    requires
        s.action_name is Some,
        names_first(s.checks, 6),
    ensures
        in_suite_order(s.to_foreign()),
{
    broadcast use lemma_next_check;

}

proof fn lemma_omission_in_order(s: SuiteV)
    requires
        s.action_name is Some,
        names_first(s.checks, 5),
    ensures
        in_suite_order(s.to_omission()),
{
    broadcast use lemma_next_check;

    if !s.can_omit {
        lemma_foreign_in_order(
            s.skipped(
                "observe.omissionIsNotAnError"@,
                "no inject_observation_omission hook provided"@,
            ),
        );
    }
}

proof fn lemma_retry_in_order(s: SuiteV)
    requires
        s.action_name is Some,
        names_first(s.checks, 4),
    ensures
        in_suite_order(s.to_retry()),
{
    broadcast use lemma_next_check;

    if !s.can_count {
        lemma_omission_in_order(
            s.skipped("execute.noAutonomousRetry"@, "no dispatch_count hook provided"@),
        );
    }
}

proof fn lemma_duplicate_in_order(s: SuiteV)
    requires
        s.action_name is Some,
        names_first(s.checks, 2),
    ensures
        in_suite_order(s.to_duplicate()),
{
    broadcast use lemma_next_check;

}

/// Every answer keeps the record in suite order, and a run that opened a
/// session ends with every check on record, each once, whether it was passed,
/// failed or skipped.
pub proof fn law_checks_come_in_suite_order(s: SuiteV, event: EventV, fresh: Seq<char>)
    requires
        s.ready(),
        conformance::answers(s.stage, event),
        s.stage == Stage::Opening ==> s.action_name is None,
        in_suite_order(s),
    ensures
        in_suite_order(s.after(event, fresh)),
{
    broadcast use lemma_next_check;

    let next = SuiteV { call_id: fresh, ..s };
    match (s.stage, event) {
        (Stage::CursorAfterExecutes, EventV::Cursor(r)) => lemma_duplicate_in_order(
            SuiteV { cursor_after_executes: r, ..next },
        ),
        (Stage::Rogue, EventV::Executed(r)) => lemma_retry_in_order(
            next.judged("execute.rejectsUnattestedAction"@, conformance::rogue_judged(r, None)),
        ),
        (Stage::RogueRecount, EventV::Counted(n)) => {
            lemma_retry_in_order(next.judged("execute.rejectsUnattestedAction"@, Ok(())));
            lemma_retry_in_order(
                next.judged(
                    "execute.rejectsUnattestedAction"@,
                    Err("the refusal must happen BEFORE any wire request left the provider"@),
                ),
            );
        },
        (Stage::Retry, EventV::Executed(r)) => lemma_omission_in_order(
            next.judged("execute.noAutonomousRetry"@, Err(conformance::retry_fault(r))),
        ),
        (Stage::RetryRecount, EventV::Counted(n)) => lemma_omission_in_order(
            next.judged(
                "execute.noAutonomousRetry"@,
                conformance::retry_counted(s.counted, n),
            ),
        ),
        (Stage::Omission, EventV::Observed(r)) => lemma_foreign_in_order(
            next.judged("observe.omissionIsNotAnError"@, conformance::omission_judged(r)),
        ),
        (Stage::Cancelled, EventV::Executed(r)) => lemma_completed_in_order(
            next.judged(
                "execute.preCancelledSendsNothing"@,
                conformance::cancelled_judged(r),
            ),
        ),
        (Stage::CancelledTrace, EventV::Reconciled(r, shown)) => lemma_completed_in_order(
            next.judged(
                "execute.preCancelledSendsNothing"@,
                conformance::trace_judged(r, shown),
            ),
        ),
        (Stage::Completed, EventV::Reconciled(r, shown)) => lemma_non_success_in_order(
            next.judged(
                "reconcile.completed"@,
                conformance::completed_judged(s.succeeded->0, r, shown),
            ),
        ),
        (Stage::CursorAfterVerdicts, EventV::Cursor(r)) => lemma_unavailable_in_order(
            next.judged(
                "currentCursor.monotonic"@,
                conformance::cursors_judged(s.cursor_before, s.cursor_after_executes, r),
            ),
        ),
        _ => {},
    }
}

/// A run begins with nothing on record, at its first stage.
pub proof fn law_runs_begin_in_suite_order(
    can_hide_log: bool,
    can_count: bool,
    can_omit: bool,
    fresh: Seq<char>,
)
    ensures
        in_suite_order(SuiteV::begun(can_hide_log, can_count, can_omit, fresh)),
        SuiteV::begun(can_hide_log, can_count, can_omit, fresh).action_name is None,
{
    reveal(names_first);
}

} // verus!
