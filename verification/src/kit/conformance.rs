//! The suite that every provider must pass.
//!
//! A [`Suite`] says which call to make next and takes what came back; the
//! caller makes the calls. In the session that the suite opens, the first four
//! `execute` calls must settle `succeeded`, `failed`, `cancelled` and
//! `timedOut`, in that order; where dispatches can be counted, a fifth must
//! settle `failed` and retryable. A check whose fault cannot be injected is
//! skipped.

use vstd::prelude::*;
use vstd::string::*;

use crate::ids;
use crate::ids::new_call_id;
use crate::ir::primitives::ActionName;
use crate::ir::record::EventCursor;
use crate::ir::runtime;
use crate::ir::runtime::{
    ActionOutcome, ActionOutcomeV, AssetRef, FateV, Observation, ObservationV, ReconcileResult,
};
use crate::ir::vocab::{ErrorClass, ScreenshotOmissionReason, VerdictStatus};
use crate::json::{JsonMap, JsonV, Members};
use crate::kit::error::{ProviderError, ProviderErrorV};
use crate::kit::fake;
use crate::kit::names;
use crate::kit::names::action;
use crate::kit::spi::{
    BoundActionCall, ObserveRequest, ObserveWant, OpenSessionOptions, VerdictWrite,
    VERDICT_EVIDENCE_MAX_ENTRIES, VERDICT_SUMMARY_MAX_CHARS,
};
use crate::sets::Ordinal;
use crate::text;
use crate::text::{concat, concat3, concat4, concat5, decimal_text, join_text, same_text};
use crate::wire;
use crate::wire::{Duplicate, Wire};

verus! {

/// Status of one check.
#[derive(Debug, Clone, Copy, PartialEq, Eq, Structural)]
pub enum CheckStatus {
    /// The assertion held.
    Passed,
    /// The assertion failed.
    Failed,
    /// The check could not be made.
    Skipped,
}

/// Result of one check.
#[derive(Debug, PartialEq, Eq)]
pub struct CheckResult {
    /// Name of the check.
    pub name: &'static str,
    /// Status.
    pub status: CheckStatus,
    /// Why it failed or was skipped.
    pub detail: Option<String>,
}

/// A check, as contracts see it.
pub struct CheckV {
    /// Name of the check.
    pub name: Seq<char>,
    /// Status.
    pub status: CheckStatus,
    /// Why it failed or was skipped.
    pub detail: Option<Seq<char>>,
}

impl CheckResult {
    /// The check, as contracts see it.
    pub open spec fn view(&self) -> CheckV {
        CheckV { name: self.name@, status: self.status, detail: text::opt_text(self.detail) }
    }
}

/// Report of a run of the suite.
#[derive(Debug, PartialEq, Eq)]
pub struct ConformanceReport {
    /// The checks, in the order of the suite.
    pub checks: Vec<CheckResult>,
}

/// The line of a check in a summary.
pub open spec fn check_line(check: CheckV) -> Seq<char> {
    "  ["@ + (match check.status {
        CheckStatus::Passed => "PASS"@,
        CheckStatus::Failed => "FAIL"@,
        CheckStatus::Skipped => "SKIP"@,
    }) + "] "@ + check.name + " "@ + (match check.detail {
        Some(detail) => detail,
        None => ""@,
    })
}

impl ConformanceReport {
    /// The checks, as contracts see them.
    pub open spec fn view(&self) -> Seq<CheckV> {
        self.checks@.map_values(|c: CheckResult| c@)
    }

    /// Whether no check failed.
    pub open spec fn spec_passed(&self) -> bool {
        forall|i: int|
            0 <= i < self.checks@.len() ==> (#[trigger] self.checks@[i]).status
                != CheckStatus::Failed
    }

    /// Whether every check passed.
    pub open spec fn spec_all_green(&self) -> bool {
        forall|i: int|
            0 <= i < self.checks@.len() ==> (#[trigger] self.checks@[i]).status
                == CheckStatus::Passed
    }

    /// Whether no check failed; skips are allowed.
    pub fn passed(&self) -> (r: bool)
        ensures
            r == self.spec_passed(),
    {
        let mut i: usize = 0;
        while i < self.checks.len()
            invariant
                i <= self.checks@.len(),
                forall|j: int|
                    0 <= j < i ==> (#[trigger] self.checks@[j]).status != CheckStatus::Failed,
            decreases self.checks@.len() - i,
        {
            if self.checks[i].status == CheckStatus::Failed {
                return false;
            }
            i = i + 1;
        }
        true
    }

    /// Whether every check passed: nothing failed and nothing was skipped.
    pub fn all_green(&self) -> (r: bool)
        ensures
            r == self.spec_all_green(),
    {
        let mut i: usize = 0;
        while i < self.checks.len()
            invariant
                i <= self.checks@.len(),
                forall|j: int|
                    0 <= j < i ==> (#[trigger] self.checks@[j]).status == CheckStatus::Passed,
            decreases self.checks@.len() - i,
        {
            if self.checks[i].status != CheckStatus::Passed {
                return false;
            }
            i = i + 1;
        }
        true
    }

    /// Checks that every check passed; otherwise gives the text that names every
    /// check and how it went. Nothing here panics: a caller that has to stop on a
    /// report that is not all green unwraps the result.
    pub fn assert_all_green(&self) -> (r: Result<(), String>)
        ensures
            r is Ok <==> self.spec_all_green(),
            r matches Err(summary) ==> summary@ == not_green_summary(self@),
    {
        if self.all_green() {
            return Ok(());
        }
        let mut lines: Vec<String> = Vec::new();
        let mut i: usize = 0;
        while i < self.checks.len()
            invariant
                i <= self.checks@.len(),
                lines@.len() == i,
                forall|j: int| 0 <= j < i ==> #[trigger] lines@[j]@ == check_line(self.checks@[j]@),
            decreases self.checks@.len() - i,
        {
            let check = &self.checks[i];
            let status = match check.status {
                CheckStatus::Passed => "PASS",
                CheckStatus::Failed => "FAIL",
                CheckStatus::Skipped => "SKIP",
            };
            let head = concat5("  [", status, "] ", check.name, " ");
            let line = match &check.detail {
                Some(detail) => concat(head.as_str(), detail.as_str()),
                None => concat(head.as_str(), ""),
            };
            lines.push(line);
            i = i + 1;
        }
        assert(text::texts(lines@) =~= self@.map_values(|c: CheckV| check_line(c)));
        Err(
            concat(
                "provider conformance not all green:\n",
                join_text(&lines, "\n").as_str(),
            ),
        )
    }
}

/// What is said of a run that is not all green.
pub open spec fn not_green_summary(checks: Seq<CheckV>) -> Seq<char> {
    "provider conformance not all green:\n"@ + text::join(
        checks.map_values(|c: CheckV| check_line(c)),
        "\n"@,
    )
}

/// How to run the suite.
#[derive(Debug, PartialEq, Eq)]
pub struct ConformanceOptions {
    /// How to open the session.
    pub open: OpenSessionOptions,
    /// Whether the caller can make the event log unreadable.
    pub can_hide_log: bool,
    /// Whether the caller can count the dispatches that left the provider.
    pub can_count: bool,
    /// Whether the caller can make the next observation omit its screenshot.
    pub can_omit: bool,
}

/// A judgement: nothing to say against it, or what is wrong.
pub open spec fn judged_view(r: Result<(), String>) -> Result<(), Seq<char>> {
    match r {
        Ok(_) => Ok(()),
        Err(detail) => Err(detail@),
    }
}

/// A fate or an error, as contracts see it.
pub open spec fn fate_result(r: Result<ReconcileResult, ProviderError>) -> Result<
    FateV,
    ProviderErrorV,
> {
    match r {
        Ok(fate) => Ok(runtime::fate_view(fate)),
        Err(e) => Err(e@),
    }
}

/// An observation or an error, as contracts see it.
pub open spec fn observation_result(r: Result<Observation, ProviderError>) -> Result<
    ObservationV,
    ProviderErrorV,
> {
    match r {
        Ok(o) => Ok(o@),
        Err(e) => Err(e@),
    }
}

/// The kind of the terminal that an early `execute` must give.
pub open spec fn expected_kind(index: u8) -> Seq<char> {
    if index == 0 {
        "succeeded"@
    } else if index == 1 {
        "failed"@
    } else if index == 2 {
        "cancelled"@
    } else {
        "timedOut"@
    }
}

/// Judges an early `execute`: the terminal must have the expected kind, and a
/// success must echo the id of its call.
pub open spec fn terminal_judged(
    index: u8,
    call_id: Seq<char>,
    r: Result<ActionOutcomeV, ProviderErrorV>,
) -> Result<(), Seq<char>> {
    match r {
        Ok(outcome) => if outcome.kind() != expected_kind(index) {
            Err(
                "fixture contract: expected terminal "@ + expected_kind(index) + ", got "@
                    + outcome.kind() + " (terminals must arrive unfolded and untranslated)"@,
            )
        } else {
            match outcome {
                ActionOutcomeV::Succeeded(result) => if result.call_id != call_id {
                    Err(
                        "succeeded result must echo the dispatched callId verbatim: got "@
                            + result.call_id + " instead of "@ + call_id,
                    )
                } else {
                    Ok(())
                },
                _ => Ok(()),
            }
        },
        Err(e) => Err(
            "expected terminal "@ + expected_kind(index) + ", got ProviderError: "@ + e.text(),
        ),
    }
}

/// Judges an early `execute`.
pub fn judge_terminal(index: u8, call_id: &str, r: &Result<ActionOutcome, ProviderError>) -> (j: Result<
    (),
    String,
>)
    ensures
        judged_view(j) == terminal_judged(index, call_id@, fake::outcome_view(*r)),
{
    let expected = if index == 0 {
        "succeeded"
    } else if index == 1 {
        "failed"
    } else if index == 2 {
        "cancelled"
    } else {
        "timedOut"
    };
    match r {
        Ok(outcome) => {
            assert(outcome.spec_kind() == outcome@.kind());
            if !same_text(outcome.kind(), expected) {
                return Err(
                    concat5(
                        "fixture contract: expected terminal ",
                        expected,
                        ", got ",
                        outcome.kind(),
                        " (terminals must arrive unfolded and untranslated)",
                    ),
                );
            }
            match outcome {
                ActionOutcome::Succeeded { result } => {
                    if !same_text(result.call_id.as_str(), call_id) {
                        return Err(
                            concat4(
                                "succeeded result must echo the dispatched callId verbatim: got ",
                                result.call_id.as_str(),
                                " instead of ",
                                call_id,
                            ),
                        );
                    }
                    Ok(())
                },
                _ => Ok(()),
            }
        },
        Err(e) => Err(
            concat4(
                "expected terminal ",
                expected,
                ", got ProviderError: ",
                e.describe().as_str(),
            ),
        ),
    }
}

/// Judges a repeated call id: it must be refused.
pub open spec fn duplicate_judged(r: Result<ActionOutcomeV, ProviderErrorV>) -> Result<(), Seq<char>> {
    match r {
        Err(_) => Ok(()),
        Ok(outcome) => Err(
            "a repeated callId must be rejected (a retry is a new callId + new WAL intent); got terminal "@
                + outcome.kind(),
        ),
    }
}

/// Judges a repeated call id.
pub fn judge_duplicate(r: &Result<ActionOutcome, ProviderError>) -> (j: Result<(), String>)
    ensures
        judged_view(j) == duplicate_judged(fake::outcome_view(*r)),
{
    match r {
        Err(_) => Ok(()),
        Ok(outcome) => {
            assert(outcome.spec_kind() == outcome@.kind());
            Err(
                concat(
                    "a repeated callId must be rejected (a retry is a new callId + new WAL intent); got terminal ",
                    outcome.kind(),
                ),
            )
        },
    }
}

/// Judges an action that is not attested: it must be refused, and before any
/// dispatch where dispatches are counted.
pub open spec fn rogue_judged(
    r: Result<ActionOutcomeV, ProviderErrorV>,
    counts: Option<(u64, u64)>,
) -> Result<(), Seq<char>> {
    match r {
        Err(_) => if counts matches Some((before, after)) && after != before {
            Err("the refusal must happen BEFORE any wire request left the provider"@)
        } else {
            Ok(())
        },
        Ok(outcome) => Err(
            "an unattested actionName must be refused fail-closed (04 §8), got terminal "@ + outcome.kind(),
        ),
    }
}

/// Judges an action that is not attested.
pub fn judge_rogue(r: &Result<ActionOutcome, ProviderError>, counts: Option<(u64, u64)>) -> (j: Result<
    (),
    String,
>)
    ensures
        judged_view(j) == rogue_judged(fake::outcome_view(*r), counts),
{
    match r {
        Err(_) => match counts {
            Some((before, after)) => if after != before {
                Err("the refusal must happen BEFORE any wire request left the provider".to_owned())
            } else {
                Ok(())
            },
            None => Ok(()),
        },
        Ok(outcome) => {
            assert(outcome.spec_kind() == outcome@.kind());
            Err(
                concat(
                    "an unattested actionName must be refused fail-closed (04 §8), got terminal ",
                    outcome.kind(),
                ),
            )
        },
    }
}

/// Whether the terminal is a retryable failure.
pub open spec fn is_retryable_failure(r: Result<ActionOutcomeV, ProviderErrorV>) -> bool {
    r matches Ok(ActionOutcomeV::Failed(error)) && error.retryable
}

/// Whether the terminal is a retryable failure.
pub fn retryable_failure(r: &Result<ActionOutcome, ProviderError>) -> (b: bool)
    ensures
        b == is_retryable_failure(fake::outcome_view(*r)),
{
    match r {
        Ok(ActionOutcome::Failed { error }) => error.retryable,
        _ => false,
    }
}

/// Judges the dispatches of a retryable failure: there must be exactly one.
pub open spec fn retry_counted(before: u64, after: u64) -> Result<(), Seq<char>> {
    let sent: nat = if after >= before {
        (after - before) as nat
    } else {
        0
    };
    if sent == 1 {
        Ok(())
    } else {
        Err(
            "a retryable failure must ride exactly one wire request — retries are the runner's, never the provider's (04 §3); counted "@
                + text::decimal(sent),
        )
    }
}

/// Judges the dispatches of a retryable failure.
pub fn judge_retry_count(before: u64, after: u64) -> (j: Result<(), String>)
    ensures
        judged_view(j) == retry_counted(before, after),
{
    let sent: u64 = if after >= before {
        after - before
    } else {
        0
    };
    if sent == 1 {
        Ok(())
    } else {
        Err(
            concat(
                "a retryable failure must ride exactly one wire request — retries are the runner's, never the provider's (04 §3); counted ",
                decimal_text(sent).as_str(),
            ),
        )
    }
}

/// What is wrong with a fifth terminal that is not a retryable failure.
pub open spec fn retry_fault(r: Result<ActionOutcomeV, ProviderErrorV>) -> Seq<char> {
    match r {
        Ok(outcome) =>
        "fixture contract: the fifth scripted execute must settle failed with retryable: true, got "@
            + outcome.kind(),
        Err(e) => "the retryable failure must arrive as a terminal, got ProviderError: "@ + e.text(),
    }
}

/// What is wrong with a fifth terminal that is not a retryable failure.
pub fn describe_retry_fault(r: &Result<ActionOutcome, ProviderError>) -> (t: String)
    ensures
        t@ == retry_fault(fake::outcome_view(*r)),
{
    match r {
        Ok(outcome) => {
            assert(outcome.spec_kind() == outcome@.kind());
            concat(
                "fixture contract: the fifth scripted execute must settle failed with retryable: true, got ",
                outcome.kind(),
            )
        },
        Err(e) => concat(
            "the retryable failure must arrive as a terminal, got ProviderError: ",
            e.describe().as_str(),
        ),
    }
}

/// How an omission is shown.
pub open spec fn shown_omission(omission: Option<ScreenshotOmissionReason>) -> Seq<char> {
    match omission {
        None => "None"@,
        Some(ScreenshotOmissionReason::Policy) => "Some(Policy)"@,
        Some(ScreenshotOmissionReason::ProtectedAction) => "Some(ProtectedAction)"@,
    }
}

/// Judges an observation whose screenshot was omitted: the omission must come
/// as data.
pub open spec fn omission_judged(r: Result<ObservationV, ProviderErrorV>) -> Result<(), Seq<char>> {
    match r {
        Ok(o) => if o.screenshot is None && o.screenshot_omission is Some {
            Ok(())
        } else {
            Err(
                "the injected omission must surface as typed omission data (screenshot absent + reason recorded); got screenshot="@
                    + (if o.screenshot is Some {
                    "true"@
                } else {
                    "false"@
                }) + " omission="@ + shown_omission(o.screenshot_omission),
            )
        },
        Err(e) => Err("a legal omission is typed data, never an error (04 §8): "@ + e.text()),
    }
}

/// Judges an observation whose screenshot was omitted.
pub fn judge_omission(r: &Result<Observation, ProviderError>) -> (j: Result<(), String>)
    ensures
        judged_view(j) == omission_judged(observation_result(*r)),
{
    match r {
        Ok(o) => {
            if o.screenshot.is_none() && o.screenshot_omission.is_some() {
                return Ok(());
            }
            let present = if o.screenshot.is_some() {
                "true"
            } else {
                "false"
            };
            let shown = match o.screenshot_omission {
                None => "None",
                Some(ScreenshotOmissionReason::Policy) => "Some(Policy)",
                Some(ScreenshotOmissionReason::ProtectedAction) => "Some(ProtectedAction)",
            };
            Err(
                concat4(
                    "the injected omission must surface as typed omission data (screenshot absent + reason recorded); got screenshot=",
                    present,
                    " omission=",
                    shown,
                ),
            )
        },
        Err(e) => Err(
            concat("a legal omission is typed data, never an error (04 §8): ", e.describe().as_str()),
        ),
    }
}

/// What is said of a reconciliation that failed.
pub open spec fn reconcile_failed(e: ProviderErrorV) -> Seq<char> {
    "reconcile failed: "@ + e.text()
}

fn describe_reconcile_failure(e: &ProviderError) -> (t: String)
    ensures
        t@ == reconcile_failed(e@),
{
    concat("reconcile failed: ", e.describe().as_str())
}

/// Judges a fate under the cursor of another session: it must not deny a
/// dispatch that happened.
pub open spec fn foreign_judged(r: Result<FateV, ProviderErrorV>) -> Result<(), Seq<char>> {
    match r {
        Ok(FateV::NeverDispatched) => Err(
            "a foreign issuing credential answered neverDispatched for a call this session dispatched — the provider scanned the wrong log"@,
        ),
        Ok(_) => Ok(()),
        Err(e) => Err(reconcile_failed(e)),
    }
}

/// Judges a fate under the cursor of another session.
pub fn judge_foreign(r: &Result<ReconcileResult, ProviderError>) -> (j: Result<(), String>)
    ensures
        judged_view(j) == foreign_judged(fate_result(*r)),
{
    match r {
        Ok(ReconcileResult::NeverDispatched) => Err(
            "a foreign issuing credential answered neverDispatched for a call this session dispatched — the provider scanned the wrong log".to_owned(),
        ),
        Ok(_) => Ok(()),
        Err(e) => Err(describe_reconcile_failure(e)),
    }
}

/// Judges a call that was cancelled before it was made: it must fail as
/// cancelled.
pub open spec fn cancelled_judged(r: Result<ActionOutcomeV, ProviderErrorV>) -> Result<(), Seq<char>> {
    match r {
        Err(e) => if e.error_class == ErrorClass::ActionCancelled {
            Ok(())
        } else {
            Err(
                "a pre-cancelled token must fail with class action_cancelled, got "@ + text::decimal(
                    e.error_class.place(),
                ),
            )
        },
        Ok(outcome) => Err(
            "a pre-cancelled token must not dispatch; got terminal "@ + outcome.kind(),
        ),
    }
}

/// Judges a call that was cancelled before it was made.
pub fn judge_cancelled(r: &Result<ActionOutcome, ProviderError>) -> (j: Result<(), String>)
    ensures
        judged_view(j) == cancelled_judged(fake::outcome_view(*r)),
{
    match r {
        Err(e) => if e.error_class == ErrorClass::ActionCancelled {
            Ok(())
        } else {
            Err(
                concat(
                    "a pre-cancelled token must fail with class action_cancelled, got ",
                    decimal_text(e.error_class.ordinal() as u64).as_str(),
                ),
            )
        },
        Ok(outcome) => {
            assert(outcome.spec_kind() == outcome@.kind());
            Err(concat("a pre-cancelled token must not dispatch; got terminal ", outcome.kind()))
        },
    }
}

/// Judges the trace of a call that was cancelled before it was made: there
/// must be none. `shown` is how the fate is shown.
pub open spec fn trace_judged(r: Result<FateV, ProviderErrorV>, shown: Seq<char>) -> Result<
    (),
    Seq<char>,
> {
    match r {
        Ok(FateV::NeverDispatched) => Ok(()),
        Ok(_) => Err(
            "a pre-cancelled execute must leave no wire trace; reconcile found "@ + shown,
        ),
        Err(e) => Err(reconcile_failed(e)),
    }
}

/// Judges the trace of a call that was cancelled before it was made.
pub fn judge_trace(r: &Result<ReconcileResult, ProviderError>, shown: &str) -> (j: Result<
    (),
    String,
>)
    ensures
        judged_view(j) == trace_judged(fate_result(*r), shown@),
{
    match r {
        Ok(ReconcileResult::NeverDispatched) => Ok(()),
        Ok(_) => Err(
            concat("a pre-cancelled execute must leave no wire trace; reconcile found ", shown),
        ),
        Err(e) => Err(describe_reconcile_failure(e)),
    }
}

/// Judges the fate of the call that succeeded: its terminal must be adopted.
pub open spec fn completed_judged(
    call_id: Seq<char>,
    r: Result<FateV, ProviderErrorV>,
    shown: Seq<char>,
) -> Result<(), Seq<char>> {
    match r {
        Ok(FateV::Completed(ActionOutcomeV::Succeeded(result))) => if result.call_id == call_id {
            Ok(())
        } else {
            Err(
                "completed fate carries callId "@ + result.call_id + " instead of "@ + call_id,
            )
        },
        Ok(FateV::Completed(other)) => Err(
            "the archived terminal was succeeded; completed fate must adopt it verbatim, got "@
                + other.kind(),
        ),
        Ok(_) => Err("expected fate completed, got "@ + shown),
        Err(e) => Err(reconcile_failed(e)),
    }
}

/// Judges the fate of the call that succeeded.
pub fn judge_completed(call_id: &str, r: &Result<ReconcileResult, ProviderError>, shown: &str) -> (j: Result<
    (),
    String,
>)
    ensures
        judged_view(j) == completed_judged(call_id@, fate_result(*r), shown@),
{
    match r {
        Ok(ReconcileResult::Completed { outcome }) => {
            assert(outcome.spec_kind() == outcome@.kind());
            match &**outcome {
                ActionOutcome::Succeeded { result } => if same_text(
                    result.call_id.as_str(),
                    call_id,
                ) {
                    Ok(())
                } else {
                    Err(
                        concat4(
                            "completed fate carries callId ",
                            result.call_id.as_str(),
                            " instead of ",
                            call_id,
                        ),
                    )
                },
                other => Err(
                    concat(
                        "the archived terminal was succeeded; completed fate must adopt it verbatim, got ",
                        other.kind(),
                    ),
                ),
            }
        },
        Ok(_) => Err(concat("expected fate completed, got ", shown)),
        Err(e) => Err(describe_reconcile_failure(e)),
    }
}

/// Judges the fate of the call that failed: its terminal must be adopted too.
pub open spec fn non_success_judged(r: Result<FateV, ProviderErrorV>, shown: Seq<char>) -> Result<
    (),
    Seq<char>,
> {
    match r {
        Ok(FateV::Completed(ActionOutcomeV::Failed(_))) => Ok(()),
        Ok(FateV::Completed(other)) => Err(
            "the archived terminal was failed; completed fate must adopt it verbatim, got "@
                + other.kind(),
        ),
        Ok(_) => Err(
            "an archived failed terminal is a certain fate and must reconcile as completed, got "@
                + shown,
        ),
        Err(e) => Err(reconcile_failed(e)),
    }
}

/// Judges the fate of the call that failed.
pub fn judge_non_success(r: &Result<ReconcileResult, ProviderError>, shown: &str) -> (j: Result<
    (),
    String,
>)
    ensures
        judged_view(j) == non_success_judged(fate_result(*r), shown@),
{
    match r {
        Ok(ReconcileResult::Completed { outcome }) => {
            assert(outcome.spec_kind() == outcome@.kind());
            match &**outcome {
                ActionOutcome::Failed { .. } => Ok(()),
                other => Err(
                    concat(
                        "the archived terminal was failed; completed fate must adopt it verbatim, got ",
                        other.kind(),
                    ),
                ),
            }
        },
        Ok(_) => Err(
            concat(
                "an archived failed terminal is a certain fate and must reconcile as completed, got ",
                shown,
            ),
        ),
        Err(e) => Err(describe_reconcile_failure(e)),
    }
}

/// Judges the fate of a call that was never made.
pub open spec fn never_judged(r: Result<FateV, ProviderErrorV>, shown: Seq<char>) -> Result<
    (),
    Seq<char>,
> {
    match r {
        Ok(FateV::NeverDispatched) => Ok(()),
        Ok(_) => Err("expected fate neverDispatched, got "@ + shown),
        Err(e) => Err(reconcile_failed(e)),
    }
}

/// Judges the fate of a call that was never made.
pub fn judge_never(r: &Result<ReconcileResult, ProviderError>, shown: &str) -> (j: Result<
    (),
    String,
>)
    ensures
        judged_view(j) == never_judged(fate_result(*r), shown@),
{
    match r {
        Ok(ReconcileResult::NeverDispatched) => Ok(()),
        Ok(_) => Err(concat("expected fate neverDispatched, got ", shown)),
        Err(e) => Err(describe_reconcile_failure(e)),
    }
}

/// Judges a fate when the log cannot be read.
pub open spec fn unavailable_judged(r: Result<FateV, ProviderErrorV>, shown: Seq<char>) -> Result<
    (),
    Seq<char>,
> {
    match r {
        Ok(FateV::LogUnavailable(_)) => Ok(()),
        Ok(_) => Err(
            "an unreachable issuing-session log must always be logUnavailable, got "@ + shown,
        ),
        Err(e) => Err(reconcile_failed(e)),
    }
}

/// Judges a fate when the log cannot be read.
pub fn judge_unavailable(r: &Result<ReconcileResult, ProviderError>, shown: &str) -> (j: Result<
    (),
    String,
>)
    ensures
        judged_view(j) == unavailable_judged(fate_result(*r), shown@),
{
    match r {
        Ok(ReconcileResult::LogUnavailable { .. }) => Ok(()),
        Ok(_) => Err(
            concat(
                "an unreachable issuing-session log must always be logUnavailable, got ",
                shown,
            ),
        ),
        Err(e) => Err(describe_reconcile_failure(e)),
    }
}

/// Judges the answer to an oversized verdict, which must be a refusal of
/// invalid arguments.
pub open spec fn refusal_judged(r: Result<(), ProviderErrorV>, what: Seq<char>) -> Result<
    (),
    Seq<char>,
> {
    match r {
        Err(e) => if e.error_class == ErrorClass::BindArgumentsInvalid {
            Ok(())
        } else {
            Err(
                what + " must be rejected with class bind_arguments_invalid, got: "@ + e.text(),
            )
        },
        Ok(_) => Err(what + " must be rejected fail-closed, but was accepted"@),
    }
}

/// Judges an oversized verdict.
pub fn expect_bind_arguments_invalid(result: &Result<(), ProviderError>, what: &str) -> (j: Result<
    (),
    String,
>)
    ensures
        judged_view(j) == refusal_judged(fake::unit_view(*result), what@),
{
    match result {
        Err(e) => if e.error_class == ErrorClass::BindArgumentsInvalid {
            Ok(())
        } else {
            Err(
                concat3(
                    what,
                    " must be rejected with class bind_arguments_invalid, got: ",
                    e.describe().as_str(),
                ),
            )
        },
        Ok(_) => Err(concat(what, " must be rejected fail-closed, but was accepted")),
    }
}

/// Judges a call that must succeed.
pub open spec fn success_judged(r: Result<(), ProviderErrorV>, complaint: Seq<char>) -> Result<
    (),
    Seq<char>,
> {
    match r {
        Ok(_) => Ok(()),
        Err(e) => Err(complaint + e.text()),
    }
}

fn judge_success(r: &Result<(), ProviderError>, complaint: &str) -> (j: Result<(), String>)
    ensures
        judged_view(j) == success_judged(fake::unit_view(*r), complaint@),
{
    match r {
        Ok(_) => Ok(()),
        Err(e) => Err(concat(complaint, e.describe().as_str())),
    }
}

/// A cursor as it was read: the session and the sequence, or the text of the
/// error.
pub type CursorV = Result<(Seq<char>, u64), Seq<char>>;

/// A cursor as it was read, as contracts see it.
pub open spec fn cursor_view(r: Result<EventCursor, String>) -> CursorV {
    match r {
        Ok(c) => Ok((c.session_id@, c.last_sequence)),
        Err(t) => Err(t@),
    }
}

/// Judges three readings of the cursor: all must succeed in one session, the
/// executed actions must move it on, and it must never go back.
pub open spec fn cursors_judged(before: CursorV, middle: CursorV, after: CursorV) -> Result<
    (),
    Seq<char>,
> {
    match (before, middle, after) {
        (Err(t), _, _) => Err("currentCursor failed: "@ + t),
        (Ok(_), Err(t), _) => Err("currentCursor failed: "@ + t),
        (Ok(_), Ok(_), Err(t)) => Err("currentCursor failed: "@ + t),
        (Ok(a), Ok(b), Ok(c)) => if b.0 != a.0 || c.0 != a.0 {
            Err(
                "cursor sessionId drifted within one session: "@ + a.0 + " / "@ + b.0 + " / "@ + c.0,
            )
        } else if b.1 <= a.1 {
            Err(
                "cursor must strictly advance across executed actions: "@ + text::decimal(
                    a.1 as nat,
                ) + " -> "@ + text::decimal(b.1 as nat),
            )
        } else if c.1 < b.1 {
            Err(
                "cursor must never regress: "@ + text::decimal(b.1 as nat) + " -> "@ + text::decimal(
                    c.1 as nat,
                ),
            )
        } else {
            Ok(())
        },
    }
}

/// Judges three readings of the cursor.
pub fn cursor_monotonic(
    before: &Result<EventCursor, String>,
    after_executes: &Result<EventCursor, String>,
    after_verdicts: &Result<EventCursor, String>,
) -> (j: Result<(), String>)
    ensures
        judged_view(j) == cursors_judged(
            cursor_view(*before),
            cursor_view(*after_executes),
            cursor_view(*after_verdicts),
        ),
{
    match (before, after_executes, after_verdicts) {
        (Err(t), _, _) => Err(concat("currentCursor failed: ", t.as_str())),
        (Ok(_), Err(t), _) => Err(concat("currentCursor failed: ", t.as_str())),
        (Ok(_), Ok(_), Err(t)) => Err(concat("currentCursor failed: ", t.as_str())),
        (Ok(a), Ok(b), Ok(c)) => {
            if !same_text(b.session_id.as_str(), a.session_id.as_str()) || !same_text(
                c.session_id.as_str(),
                a.session_id.as_str(),
            ) {
                return Err(
                    concat(
                        concat5(
                            "cursor sessionId drifted within one session: ",
                            a.session_id.as_str(),
                            " / ",
                            b.session_id.as_str(),
                            " / ",
                        ).as_str(),
                        c.session_id.as_str(),
                    ),
                );
            }
            if b.last_sequence <= a.last_sequence {
                return Err(
                    concat4(
                        "cursor must strictly advance across executed actions: ",
                        decimal_text(a.last_sequence).as_str(),
                        " -> ",
                        decimal_text(b.last_sequence).as_str(),
                    ),
                );
            }
            if c.last_sequence < b.last_sequence {
                return Err(
                    concat4(
                        "cursor must never regress: ",
                        decimal_text(b.last_sequence).as_str(),
                        " -> ",
                        decimal_text(c.last_sequence).as_str(),
                    ),
                );
            }
            Ok(())
        },
    }
}

/// Where a run of the suite stands: the call that is made next.
#[derive(Debug, Clone, Copy, PartialEq, Eq, Structural)]
pub enum Stage {
    /// Opens the session.
    Opening,
    /// Reads the cursor before anything is executed.
    CursorBefore,
    /// Executes one of the first four calls.
    Terminal(u8),
    /// Reads the cursor after the first calls.
    CursorAfterExecutes,
    /// Repeats the id of the call that succeeded.
    Duplicate,
    /// Counts dispatches before an action that is not attested.
    RogueCount,
    /// Executes an action that is not attested.
    Rogue,
    /// Counts dispatches after an action that is not attested.
    RogueRecount,
    /// Counts dispatches before a retryable failure.
    RetryCount,
    /// Executes a call that fails retryably.
    Retry,
    /// Counts dispatches after a retryable failure.
    RetryRecount,
    /// Makes the next observation omit its screenshot.
    OmissionSetUp,
    /// Observes without a screenshot.
    Omission,
    /// Reconciles under the cursor of another session.
    Foreign,
    /// Executes a cancelled call.
    Cancelled,
    /// Reconciles the cancelled call.
    CancelledTrace,
    /// Reconciles the call that succeeded.
    Completed,
    /// Reconciles the call that failed.
    NonSuccess,
    /// Reads the cursor before an unknown id is reconciled.
    NeverCursor,
    /// Reconciles an unknown id.
    Never,
    /// Records a verdict whose summary is too long.
    LongSummary,
    /// Observes to have evidence to cite.
    Sample,
    /// Records a verdict that cites too much evidence.
    MuchEvidence,
    /// Records a verdict within the caps.
    Valid,
    /// Reads the cursor after the verdicts.
    CursorAfterVerdicts,
    /// Makes the event log unreadable.
    LogSetUp,
    /// Reconciles without a log.
    Unavailable,
    /// Ends the session.
    Ending,
    /// Nothing is left to do.
    Finished,
}

/// A call that the caller has to make.
#[derive(Debug, PartialEq, Eq)]
pub enum SuiteCall {
    /// Open the session with the options.
    Open,
    /// Read the cursor.
    ReadCursor,
    /// Execute; `cancelled` says whether the call is cancelled beforehand.
    Execute {
        /// The call.
        call: BoundActionCall,
        /// Whether it is cancelled before it is made.
        cancelled: bool,
    },
    /// Count the dispatches that left the provider.
    CountDispatches,
    /// Make the next observation omit its screenshot.
    InjectOmission,
    /// Observe.
    Observe(ObserveRequest),
    /// Reconcile.
    Reconcile {
        /// The id of the call.
        call_id: String,
        /// The cursor of the issuing session.
        issuing: EventCursor,
    },
    /// Record a verdict.
    RecordVerdict(VerdictWrite),
    /// Make the event log unreadable.
    HideLog,
    /// End the session as completed, without a reason.
    End,
    /// Nothing: the suite is finished.
    Nothing,
}

/// What a call gave.
#[derive(Debug, PartialEq, Eq)]
pub enum SuiteEvent {
    /// The session is open, with this attested action first by name; or it is
    /// not.
    Opened(Result<ActionName, ProviderError>),
    /// The cursor.
    Cursor(Result<EventCursor, ProviderError>),
    /// The terminal of an `execute`.
    Executed(Result<ActionOutcome, ProviderError>),
    /// The number of dispatches.
    Counted(u64),
    /// A fault was injected.
    Injected,
    /// The observation.
    Observed(Result<Observation, ProviderError>),
    /// The fate of a call, and how it is shown.
    Reconciled(Result<ReconcileResult, ProviderError>, String),
    /// Whether a verdict was taken.
    Recorded(Result<(), ProviderError>),
    /// Whether the session ended.
    Ended(Result<(), ProviderError>),
}

/// What a call gave, as contracts see it.
pub enum EventV {
    /// The session is open, with this attested action first by name; or it is
    /// not.
    Opened(Result<Seq<char>, ProviderErrorV>),
    /// The cursor.
    Cursor(CursorV),
    /// The terminal of an `execute`.
    Executed(Result<ActionOutcomeV, ProviderErrorV>),
    /// The number of dispatches.
    Counted(u64),
    /// A fault was injected.
    Injected,
    /// The observation.
    Observed(Result<ObservationV, ProviderErrorV>),
    /// The fate of a call, and how it is shown.
    Reconciled(Result<FateV, ProviderErrorV>, Seq<char>),
    /// Whether a verdict was taken.
    Recorded(Result<(), ProviderErrorV>),
    /// Whether the session ended.
    Ended(Result<(), ProviderErrorV>),
}

impl SuiteEvent {
    /// What a call gave, as contracts see it.
    pub open spec fn view(&self) -> EventV {
        match self {
            SuiteEvent::Opened(r) => EventV::Opened(
                match r {
                    Ok(name) => Ok(name@),
                    Err(e) => Err(e@),
                },
            ),
            SuiteEvent::Cursor(r) => EventV::Cursor(
                match r {
                    Ok(c) => Ok((c.session_id@, c.last_sequence)),
                    Err(e) => Err(e@.text()),
                },
            ),
            SuiteEvent::Executed(r) => EventV::Executed(fake::outcome_view(*r)),
            SuiteEvent::Counted(n) => EventV::Counted(*n),
            SuiteEvent::Injected => EventV::Injected,
            SuiteEvent::Observed(r) => EventV::Observed(observation_result(*r)),
            SuiteEvent::Reconciled(r, shown) => EventV::Reconciled(fate_result(*r), shown@),
            SuiteEvent::Recorded(r) => EventV::Recorded(fake::unit_view(*r)),
            SuiteEvent::Ended(r) => EventV::Ended(fake::unit_view(*r)),
        }
    }
}

/// Whether an event answers the call of a stage.
pub open spec fn answers(stage: Stage, event: EventV) -> bool {
    match stage {
        Stage::Opening => event is Opened,
        Stage::CursorBefore => event is Cursor,
        Stage::Terminal(_) => event is Executed,
        Stage::CursorAfterExecutes => event is Cursor,
        Stage::Duplicate => event is Executed,
        Stage::RogueCount => event is Counted,
        Stage::Rogue => event is Executed,
        Stage::RogueRecount => event is Counted,
        Stage::RetryCount => event is Counted,
        Stage::Retry => event is Executed,
        Stage::RetryRecount => event is Counted,
        Stage::OmissionSetUp => event is Injected,
        Stage::Omission => event is Observed,
        Stage::Foreign => event is Reconciled,
        Stage::Cancelled => event is Executed,
        Stage::CancelledTrace => event is Reconciled,
        Stage::Completed => event is Reconciled,
        Stage::NonSuccess => event is Reconciled,
        Stage::NeverCursor => event matches EventV::Cursor(Ok(_)),
        Stage::Never => event is Reconciled,
        Stage::LongSummary => event is Recorded,
        Stage::Sample => event is Observed,
        Stage::MuchEvidence => event is Recorded,
        Stage::Valid => event is Recorded,
        Stage::CursorAfterVerdicts => event is Cursor,
        Stage::LogSetUp => event is Injected,
        Stage::Unavailable => event is Reconciled,
        Stage::Ending => event is Ended,
        Stage::Finished => false,
    }
}

/// A run of the suite.
#[derive(Debug, PartialEq, Eq)]
pub struct Suite {
    stage: Stage,
    checks: Vec<CheckResult>,
    can_hide_log: bool,
    can_count: bool,
    can_omit: bool,
    action_name: Option<ActionName>,
    cursor_before: Result<EventCursor, String>,
    cursor_after_executes: Result<EventCursor, String>,
    issuing: EventCursor,
    current: EventCursor,
    succeeded: Option<String>,
    failed: Option<String>,
    call_id: String,
    counted: u64,
    sample: AssetRef,
}

/// A run of the suite, as contracts see it.
pub struct SuiteV {
    /// Where it stands.
    pub stage: Stage,
    /// The checks so far.
    pub checks: Seq<CheckV>,
    /// Whether the caller can make the event log unreadable.
    pub can_hide_log: bool,
    /// Whether the caller can count dispatches.
    pub can_count: bool,
    /// Whether the caller can make an observation omit its screenshot.
    pub can_omit: bool,
    /// The attested action that is executed.
    pub action_name: Option<Seq<char>>,
    /// The cursor before anything was executed.
    pub cursor_before: CursorV,
    /// The cursor after the first calls.
    pub cursor_after_executes: CursorV,
    /// The cursor of the issuing session.
    pub issuing: (Seq<char>, u64),
    /// The cursor that was read last.
    pub current: (Seq<char>, u64),
    /// The id of the call that succeeded.
    pub succeeded: Option<Seq<char>>,
    /// The id of the call that failed.
    pub failed: Option<Seq<char>>,
    /// The id for the next call.
    pub call_id: Seq<char>,
    /// The number of dispatches that was counted last.
    pub counted: u64,
    /// The JSON form of the evidence to cite.
    pub sample: JsonV,
}

/// The JSON form of evidence that is cited where no observation gave any.
pub open spec fn synthetic_asset() -> JsonV {
    Members::none().with("id"@, JsonV::Text("conformance-synthetic-asset"@)).with(
        "mediaType"@,
        JsonV::Text("image/png"@),
    ).with("uri"@, JsonV::Text("conformance://assets/synthetic"@)).object()
}

impl SuiteV {
    /// A run that has not begun.
    pub open spec fn begun(can_hide_log: bool, can_count: bool, can_omit: bool, fresh: Seq<char>) -> SuiteV {
        SuiteV {
            stage: Stage::Opening,
            checks: Seq::empty(),
            can_hide_log,
            can_count,
            can_omit,
            action_name: None,
            cursor_before: Err(""@),
            cursor_after_executes: Err(""@),
            issuing: (""@, 0),
            current: (""@, 0),
            succeeded: None,
            failed: None,
            call_id: fresh,
            counted: 0,
            sample: synthetic_asset(),
        }
    }

    /// Whether the next call can be made: an open session has an action, and
    /// the calls that are looked up have ids.
    pub open spec fn ready(self) -> bool {
        &&& self.stage != Stage::Opening && self.stage != Stage::Finished ==> self.action_name is Some
        &&& self.stage == Stage::Duplicate || self.stage == Stage::Foreign || self.stage
            == Stage::Completed ==> self.succeeded is Some
        &&& self.stage == Stage::NonSuccess ==> self.failed is Some
        &&& self.stage matches Stage::Terminal(index) ==> index < 4
    }

    /// At another stage.
    pub open spec fn at(self, stage: Stage) -> SuiteV {
        SuiteV { stage, ..self }
    }

    /// With a judgement on record.
    pub open spec fn judged(self, name: Seq<char>, judgement: Result<(), Seq<char>>) -> SuiteV {
        SuiteV {
            checks: self.checks.push(
                match judgement {
                    Ok(_) => CheckV { name, status: CheckStatus::Passed, detail: None },
                    Err(detail) => CheckV {
                        name,
                        status: CheckStatus::Failed,
                        detail: Some(detail),
                    },
                },
            ),
            ..self
        }
    }

    /// With a skipped check on record.
    pub open spec fn skipped(self, name: Seq<char>, reason: Seq<char>) -> SuiteV {
        SuiteV {
            checks: self.checks.push(
                CheckV { name, status: CheckStatus::Skipped, detail: Some(reason) },
            ),
            ..self
        }
    }

    /// On to the repeated id; without a call that succeeded it is skipped.
    pub open spec fn to_duplicate(self) -> SuiteV {
        if self.succeeded is Some {
            self.at(Stage::Duplicate)
        } else {
            self.skipped("execute.rejectsDuplicateCallId"@, no_succeeded()).to_rogue()
        }
    }

    /// On to the action that is not attested.
    pub open spec fn to_rogue(self) -> SuiteV {
        if self.can_count {
            self.at(Stage::RogueCount)
        } else {
            self.at(Stage::Rogue)
        }
    }

    /// On to the retryable failure; without a counter it is skipped.
    pub open spec fn to_retry(self) -> SuiteV {
        if self.can_count {
            self.at(Stage::RetryCount)
        } else {
            self.skipped(
                "execute.noAutonomousRetry"@,
                "no dispatch_count hook provided"@,
            ).to_omission()
        }
    }

    /// On to the omission; where it cannot be caused it is skipped.
    pub open spec fn to_omission(self) -> SuiteV {
        if self.can_omit {
            self.at(Stage::OmissionSetUp)
        } else {
            self.skipped(
                "observe.omissionIsNotAnError"@,
                "no inject_observation_omission hook provided"@,
            ).to_foreign()
        }
    }

    /// On to the foreign cursor; without a call that succeeded it is skipped.
    pub open spec fn to_foreign(self) -> SuiteV {
        if self.succeeded is Some {
            self.at(Stage::Foreign)
        } else {
            self.skipped("reconcile.foreignCredentialNeverFabricates"@, no_succeeded()).at(
                Stage::Cancelled,
            )
        }
    }

    /// On to the call that succeeded; without one it is skipped.
    pub open spec fn to_completed(self) -> SuiteV {
        if self.succeeded is Some {
            self.at(Stage::Completed)
        } else {
            self.skipped("reconcile.completed"@, no_succeeded()).to_non_success()
        }
    }

    /// On to the call that failed; without one it is skipped.
    pub open spec fn to_non_success(self) -> SuiteV {
        if self.failed is Some {
            self.at(Stage::NonSuccess)
        } else {
            self.skipped(
                "reconcile.completedNonSuccess"@,
                "no failed callId available (terminals check failed)"@,
            ).at(Stage::NeverCursor)
        }
    }

    /// On to the unreadable log; where it cannot be caused it is skipped.
    pub open spec fn to_unavailable(self) -> SuiteV {
        if self.can_hide_log {
            self.at(Stage::LogSetUp)
        } else {
            self.skipped(
                "reconcile.logUnavailable"@,
                "no inject_log_unavailable hook provided"@,
            ).at(Stage::Ending)
        }
    }

    /// The run after a call gave `event`; `fresh` is an id that no call has.
    pub open spec fn after(self, event: EventV, fresh: Seq<char>) -> SuiteV {
        let next = SuiteV { call_id: fresh, ..self };
        match (self.stage, event) {
            (Stage::Opening, EventV::Opened(r)) => match r {
                Ok(name) => SuiteV { action_name: Some(name), ..next }.judged(
                    "openSession.opens"@,
                    Ok(()),
                ).at(Stage::CursorBefore),
                Err(e) => next.judged(
                    "openSession.opens"@,
                    Err("open_session failed: "@ + e.text()),
                ).at(Stage::Finished),
            },
            (Stage::CursorBefore, EventV::Cursor(r)) => SuiteV {
                cursor_before: r,
                issuing: match r {
                    Ok(c) => c,
                    Err(_) => (""@, 0),
                },
                ..next
            }.at(Stage::Terminal(0)),
            (Stage::Terminal(index), EventV::Executed(r)) => {
                let judgement = terminal_judged(index, self.call_id, r);
                match judgement {
                    Err(_) => next.judged("execute.fourTerminalsReachable"@, judgement).at(
                        Stage::CursorAfterExecutes,
                    ),
                    Ok(_) => {
                        let noted = match r {
                            Ok(ActionOutcomeV::Succeeded(_)) => SuiteV {
                                succeeded: Some(self.call_id),
                                ..next
                            },
                            Ok(ActionOutcomeV::Failed(_)) => SuiteV {
                                failed: Some(self.call_id),
                                ..next
                            },
                            _ => next,
                        };
                        if index >= 3 {
                            noted.judged("execute.fourTerminalsReachable"@, Ok(())).at(
                                Stage::CursorAfterExecutes,
                            )
                        } else {
                            noted.at(Stage::Terminal((index + 1) as u8))
                        }
                    },
                }
            },
            (Stage::CursorAfterExecutes, EventV::Cursor(r)) => SuiteV {
                cursor_after_executes: r,
                ..next
            }.to_duplicate(),
            (Stage::Duplicate, EventV::Executed(r)) => next.judged(
                "execute.rejectsDuplicateCallId"@,
                duplicate_judged(r),
            ).to_rogue(),
            (Stage::RogueCount, EventV::Counted(n)) => SuiteV { counted: n, ..next }.at(Stage::Rogue),
            (Stage::Rogue, EventV::Executed(r)) => if r is Err && self.can_count {
                next.at(Stage::RogueRecount)
            } else {
                next.judged("execute.rejectsUnattestedAction"@, rogue_judged(r, None)).to_retry()
            },
            (Stage::RogueRecount, EventV::Counted(n)) => next.judged(
                "execute.rejectsUnattestedAction"@,
                if n != self.counted {
                    Err("the refusal must happen BEFORE any wire request left the provider"@)
                } else {
                    Ok(())
                },
            ).to_retry(),
            (Stage::RetryCount, EventV::Counted(n)) => SuiteV { counted: n, ..next }.at(Stage::Retry),
            (Stage::Retry, EventV::Executed(r)) => if is_retryable_failure(r) {
                next.at(Stage::RetryRecount)
            } else {
                next.judged("execute.noAutonomousRetry"@, Err(retry_fault(r))).to_omission()
            },
            (Stage::RetryRecount, EventV::Counted(n)) => next.judged(
                "execute.noAutonomousRetry"@,
                retry_counted(self.counted, n),
            ).to_omission(),
            (Stage::OmissionSetUp, EventV::Injected) => next.at(Stage::Omission),
            (Stage::Omission, EventV::Observed(r)) => next.judged(
                "observe.omissionIsNotAnError"@,
                omission_judged(r),
            ).to_foreign(),
            (Stage::Foreign, EventV::Reconciled(r, _)) => next.judged(
                "reconcile.foreignCredentialNeverFabricates"@,
                foreign_judged(r),
            ).at(Stage::Cancelled),
            (Stage::Cancelled, EventV::Executed(r)) => match cancelled_judged(r) {
                Ok(_) => self.at(Stage::CancelledTrace),
                Err(detail) => next.judged(
                    "execute.preCancelledSendsNothing"@,
                    Err(detail),
                ).to_completed(),
            },
            (Stage::CancelledTrace, EventV::Reconciled(r, shown)) => next.judged(
                "execute.preCancelledSendsNothing"@,
                trace_judged(r, shown),
            ).to_completed(),
            (Stage::Completed, EventV::Reconciled(r, shown)) => next.judged(
                "reconcile.completed"@,
                completed_judged(self.succeeded->0, r, shown),
            ).to_non_success(),
            (Stage::NonSuccess, EventV::Reconciled(r, shown)) => next.judged(
                "reconcile.completedNonSuccess"@,
                non_success_judged(r, shown),
            ).at(Stage::NeverCursor),
            (Stage::NeverCursor, EventV::Cursor(Ok(c))) => SuiteV { current: c, ..next }.at(
                Stage::Never,
            ),
            (Stage::Never, EventV::Reconciled(r, shown)) => next.judged(
                "reconcile.neverDispatched"@,
                never_judged(r, shown),
            ).at(Stage::LongSummary),
            (Stage::LongSummary, EventV::Recorded(r)) => next.judged(
                "recordVerdict.rejectsOversizedSummary"@,
                refusal_judged(r, "an oversized summary"@),
            ).at(Stage::Sample),
            (Stage::Sample, EventV::Observed(r)) => SuiteV {
                sample: match r {
                    Ok(o) => match o.screenshot {
                        Some(asset) => asset,
                        None => synthetic_asset(),
                    },
                    Err(_) => synthetic_asset(),
                },
                ..next
            }.at(Stage::MuchEvidence),
            (Stage::MuchEvidence, EventV::Recorded(r)) => next.judged(
                "recordVerdict.rejectsOversizedEvidence"@,
                refusal_judged(r, "an oversized evidence list"@),
            ).at(Stage::Valid),
            (Stage::Valid, EventV::Recorded(r)) => next.judged(
                "recordVerdict.acceptsValid"@,
                success_judged(r, "a within-caps verdict must be accepted: "@),
            ).at(Stage::CursorAfterVerdicts),
            (Stage::CursorAfterVerdicts, EventV::Cursor(r)) => next.judged(
                "currentCursor.monotonic"@,
                cursors_judged(self.cursor_before, self.cursor_after_executes, r),
            ).to_unavailable(),
            (Stage::LogSetUp, EventV::Injected) => next.at(Stage::Unavailable),
            (Stage::Unavailable, EventV::Reconciled(r, shown)) => next.judged(
                "reconcile.logUnavailable"@,
                unavailable_judged(r, shown),
            ).at(Stage::Ending),
            (Stage::Ending, EventV::Ended(r)) => next.judged(
                "end.completes"@,
                success_judged(r, "end must be best-effort and not fail teardown: "@),
            ).at(Stage::Finished),
            _ => self,
        }
    }
}

/// Why checks on the call that succeeded are skipped.
pub open spec fn no_succeeded() -> Seq<char> {
    "no succeeded callId available (terminals check failed)"@
}

/// A call without arguments and budgets.
pub fn fresh_call(action_name: &ActionName, call_id: &str) -> (r: BoundActionCall)
    ensures
        r.call_id@ == call_id@,
        r.action_name@ == action_name@,
        r.arguments@ == Members::none().object(),
        r.action_timeout_ms is None,
        r.request_timeout_ms is None,
{
    BoundActionCall {
        call_id: call_id.to_owned(),
        action_name: action_name.clone(),
        arguments: JsonMap::new().object(),
        action_timeout_ms: None,
        request_timeout_ms: None,
    }
}

fn cursor_copy(c: &EventCursor) -> (r: EventCursor)
    ensures
        r.session_id@ == c.session_id@,
        r.last_sequence == c.last_sequence,
{
    EventCursor { session_id: c.session_id.clone(), last_sequence: c.last_sequence }
}

fn synthetic_evidence() -> (r: AssetRef)
    ensures
        r.wire_json() == synthetic_asset(),
{
    AssetRef {
        id: "conformance-synthetic-asset".to_owned(),
        media_type: "image/png".to_owned(),
        uri: "conformance://assets/synthetic".to_owned(),
        sha256: None,
    }
}

fn cursor_reading(r: Result<EventCursor, ProviderError>) -> (c: Result<EventCursor, String>)
    ensures
        EventV::Cursor(cursor_view(c)) == SuiteEvent::Cursor(r)@,
{
    match r {
        Ok(c) => Ok(c),
        Err(e) => Err(e.describe()),
    }
}

/// `count` times the character `x`.
pub open spec fn xs(count: nat) -> Seq<char> {
    Seq::new(count, |i: int| 'x')
}

fn many_xs(count: usize) -> (r: String)
    ensures
        r@ == xs(count as nat),
{
    let mut out = "".to_owned();
    let mut i: usize = 0;
    proof {
        reveal_strlit("");
        assert(out@ =~= xs(0));
    }
    while i < count
        invariant
            i <= count,
            out@ == xs(i as nat),
        decreases count - i,
    {
        out.push('x');
        assert(out@ =~= xs((i + 1) as nat));
        i = i + 1;
    }
    out
}

/// A call that the caller has to make, as contracts see it.
pub enum CallV {
    /// Open the session.
    Open,
    /// Read the cursor.
    ReadCursor,
    /// Execute: the action, the id, and whether the call is cancelled
    /// beforehand. There are no arguments and no budgets.
    Execute(Seq<char>, Seq<char>, bool),
    /// Count the dispatches.
    CountDispatches,
    /// Make the next observation omit its screenshot.
    InjectOmission,
    /// Observe with these wants.
    Observe(Seq<ObserveWant>),
    /// Reconcile an id under a cursor.
    Reconcile(Seq<char>, (Seq<char>, u64)),
    /// Record a verdict with a status, a summary and the JSON forms of its
    /// evidence.
    RecordVerdict(VerdictStatus, Seq<char>, Seq<JsonV>),
    /// Make the event log unreadable.
    HideLog,
    /// End the session.
    End,
    /// Nothing.
    Nothing,
}

impl SuiteCall {
    /// The call, as contracts see it.
    pub open spec fn view(&self) -> CallV {
        match self {
            SuiteCall::Open => CallV::Open,
            SuiteCall::ReadCursor => CallV::ReadCursor,
            SuiteCall::Execute { call, cancelled } => CallV::Execute(
                call.action_name@,
                call.call_id@,
                *cancelled,
            ),
            SuiteCall::CountDispatches => CallV::CountDispatches,
            SuiteCall::InjectOmission => CallV::InjectOmission,
            SuiteCall::Observe(request) => CallV::Observe(request.wants@),
            SuiteCall::Reconcile { call_id, issuing } => CallV::Reconcile(
                call_id@,
                (issuing.session_id@, issuing.last_sequence),
            ),
            SuiteCall::RecordVerdict(v) => CallV::RecordVerdict(
                v.status,
                v.summary@,
                wire::wire_items(v.evidence@),
            ),
            SuiteCall::HideLog => CallV::HideLog,
            SuiteCall::End => CallV::End,
            SuiteCall::Nothing => CallV::Nothing,
        }
    }
}

impl SuiteV {
    /// The call that is made next.
    pub open spec fn call(self) -> CallV {
        let plain = CallV::Execute(self.action_name->0, self.call_id, false);
        match self.stage {
            Stage::Opening => CallV::Open,
            Stage::CursorBefore => CallV::ReadCursor,
            Stage::Terminal(_) => plain,
            Stage::CursorAfterExecutes => CallV::ReadCursor,
            Stage::Duplicate => CallV::Execute(self.action_name->0, self.succeeded->0, false),
            Stage::RogueCount => CallV::CountDispatches,
            Stage::Rogue => CallV::Execute("conformanceRogueAction"@, self.call_id, false),
            Stage::RogueRecount => CallV::CountDispatches,
            Stage::RetryCount => CallV::CountDispatches,
            Stage::Retry => plain,
            Stage::RetryRecount => CallV::CountDispatches,
            Stage::OmissionSetUp => CallV::InjectOmission,
            Stage::Omission => CallV::Observe(seq![ObserveWant::Screenshot]),
            Stage::Foreign => CallV::Reconcile(
                self.succeeded->0,
                ("conformance-foreign-generation"@, 0),
            ),
            Stage::Cancelled => CallV::Execute(self.action_name->0, self.call_id, true),
            Stage::CancelledTrace => CallV::Reconcile(self.call_id, self.issuing),
            Stage::Completed => CallV::Reconcile(self.succeeded->0, self.issuing),
            Stage::NonSuccess => CallV::Reconcile(self.failed->0, self.issuing),
            Stage::NeverCursor => CallV::ReadCursor,
            Stage::Never => CallV::Reconcile(self.call_id, self.current),
            Stage::LongSummary => CallV::RecordVerdict(
                VerdictStatus::Pass,
                xs((VERDICT_SUMMARY_MAX_CHARS + 1) as nat),
                Seq::empty(),
            ),
            Stage::Sample => CallV::Observe(seq![ObserveWant::Screenshot]),
            Stage::MuchEvidence => CallV::RecordVerdict(
                VerdictStatus::Pass,
                "capped"@,
                Seq::new((VERDICT_EVIDENCE_MAX_ENTRIES + 1) as nat, |i: int| self.sample),
            ),
            Stage::Valid => CallV::RecordVerdict(
                VerdictStatus::Unknown,
                "conformance write"@,
                Seq::empty(),
            ),
            Stage::CursorAfterVerdicts => CallV::ReadCursor,
            Stage::LogSetUp => CallV::HideLog,
            Stage::Unavailable => CallV::Reconcile(
                match self.succeeded {
                    Some(id) => id,
                    None => self.call_id,
                },
                self.issuing,
            ),
            Stage::Ending => CallV::End,
            Stage::Finished => CallV::Nothing,
        }
    }
}

impl Suite {
    /// The run, as contracts see it.
    pub closed spec fn view(&self) -> SuiteV {
        SuiteV {
            stage: self.stage,
            checks: self.checks@.map_values(|c: CheckResult| c@),
            can_hide_log: self.can_hide_log,
            can_count: self.can_count,
            can_omit: self.can_omit,
            action_name: match self.action_name {
                Some(name) => Some(name@),
                None => None,
            },
            cursor_before: cursor_view(self.cursor_before),
            cursor_after_executes: cursor_view(self.cursor_after_executes),
            issuing: (self.issuing.session_id@, self.issuing.last_sequence),
            current: (self.current.session_id@, self.current.last_sequence),
            succeeded: text::opt_text(self.succeeded),
            failed: text::opt_text(self.failed),
            call_id: self.call_id@,
            counted: self.counted,
            sample: self.sample.wire_json(),
        }
    }

    /// Begins a run; `fresh` is an id that no call has.
    pub fn begin(options: &ConformanceOptions, fresh: String) -> (r: Suite)
        ensures
            r@ == SuiteV::begun(
                options.can_hide_log,
                options.can_count,
                options.can_omit,
                fresh@,
            ),
    {
        let r = Suite {
            stage: Stage::Opening,
            checks: Vec::new(),
            can_hide_log: options.can_hide_log,
            can_count: options.can_count,
            can_omit: options.can_omit,
            action_name: None,
            cursor_before: Err("".to_owned()),
            cursor_after_executes: Err("".to_owned()),
            issuing: EventCursor { session_id: "".to_owned(), last_sequence: 0 },
            current: EventCursor { session_id: "".to_owned(), last_sequence: 0 },
            succeeded: None,
            failed: None,
            call_id: fresh,
            counted: 0,
            sample: synthetic_evidence(),
        };
        assert(r@.checks =~= Seq::empty());
        r
    }

    /// Begins a run with a random id.
    pub fn start(options: &ConformanceOptions) -> (r: Suite)
        ensures
            exists|fresh: Seq<char>|
                ids::is_written_id(fresh) && r@ == #[trigger] SuiteV::begun(
                    options.can_hide_log,
                    options.can_count,
                    options.can_omit,
                    fresh,
                ),
    {
        let fresh = new_call_id();
        let ghost id = fresh@;
        let r = Suite::begin(options, fresh);
        assert(r@ == SuiteV::begun(
            options.can_hide_log,
            options.can_count,
            options.can_omit,
            id,
        ));
        r
    }

    /// Whether an event answers the call of the present stage, so that the run
    /// can take it.
    pub fn accepts(&self, event: &SuiteEvent) -> (r: bool)
        ensures
            r == answers(self@.stage, event@),
    {
        match (self.stage, event) {
            (Stage::Opening, SuiteEvent::Opened(_)) => true,
            (
                Stage::CursorBefore | Stage::CursorAfterExecutes | Stage::CursorAfterVerdicts,
                SuiteEvent::Cursor(_),
            ) => true,
            (Stage::NeverCursor, SuiteEvent::Cursor(Ok(_))) => true,
            (
                Stage::Terminal(_) | Stage::Duplicate | Stage::Rogue | Stage::Retry | Stage::Cancelled,
                SuiteEvent::Executed(_),
            ) => true,
            (
                Stage::RogueCount | Stage::RogueRecount | Stage::RetryCount | Stage::RetryRecount,
                SuiteEvent::Counted(_),
            ) => true,
            (Stage::OmissionSetUp | Stage::LogSetUp, SuiteEvent::Injected) => true,
            (Stage::Omission | Stage::Sample, SuiteEvent::Observed(_)) => true,
            (
                Stage::Foreign
                | Stage::CancelledTrace
                | Stage::Completed
                | Stage::NonSuccess
                | Stage::Never
                | Stage::Unavailable,
                SuiteEvent::Reconciled(_, _),
            ) => true,
            (Stage::LongSummary | Stage::MuchEvidence | Stage::Valid, SuiteEvent::Recorded(_)) => true,
            (Stage::Ending, SuiteEvent::Ended(_)) => true,
            _ => false,
        }
    }

    /// Where the run stands.
    pub fn stage(&self) -> (r: Stage)
        ensures
            r == self@.stage,
    {
        self.stage
    }

    /// The report of the checks so far.
    pub fn into_report(self) -> (r: ConformanceReport)
        ensures
            r@ == self@.checks,
    {
        ConformanceReport { checks: self.checks }
    }

    fn reconcile_call(call_id: &str, issuing: &EventCursor) -> (r: SuiteCall)
        ensures
            r@ == CallV::Reconcile(call_id@, (issuing.session_id@, issuing.last_sequence)),
    {
        SuiteCall::Reconcile { call_id: call_id.to_owned(), issuing: cursor_copy(issuing) }
    }

    fn observe_call() -> (r: SuiteCall)
        ensures
            r@ == CallV::Observe(seq![ObserveWant::Screenshot]),
    {
        let wants = vec![ObserveWant::Screenshot];
        assert(wants@ =~= seq![ObserveWant::Screenshot]);
        SuiteCall::Observe(ObserveRequest { wants })
    }

    fn verdict_call(status: VerdictStatus, summary: String) -> (r: SuiteCall)
        ensures
            r@ == CallV::RecordVerdict(status, summary@, Seq::empty()),
    {
        let evidence: Vec<AssetRef> = Vec::new();
        assert(wire::wire_items(evidence@) =~= Seq::empty());
        SuiteCall::RecordVerdict(VerdictWrite { status, summary, evidence })
    }

    fn much_evidence_call(sample: &AssetRef) -> (r: SuiteCall)
        ensures
            r@ == CallV::RecordVerdict(
                VerdictStatus::Pass,
                "capped"@,
                Seq::new(
                    (VERDICT_EVIDENCE_MAX_ENTRIES + 1) as nat,
                    |i: int| sample.wire_json(),
                ),
            ),
    {
        let mut evidence: Vec<AssetRef> = Vec::new();
        let mut i: usize = 0;
        while i < VERDICT_EVIDENCE_MAX_ENTRIES + 1
            invariant
                i <= VERDICT_EVIDENCE_MAX_ENTRIES + 1,
                evidence@.len() == i,
                forall|j: int|
                    0 <= j < i ==> (#[trigger] evidence@[j]).wire_json() == sample.wire_json(),
            decreases VERDICT_EVIDENCE_MAX_ENTRIES + 1 - i,
        {
            evidence.push(sample.duplicate());
            i = i + 1;
        }
        assert(wire::wire_items(evidence@) =~= Seq::new(
            (VERDICT_EVIDENCE_MAX_ENTRIES + 1) as nat,
            |i: int| sample.wire_json(),
        ));
        SuiteCall::RecordVerdict(
            VerdictWrite { status: VerdictStatus::Pass, summary: "capped".to_owned(), evidence },
        )
    }

    /// The call that the caller has to make next.
    pub fn next_call(&self) -> (r: SuiteCall)
        requires
            self@.ready(),
        ensures
            r@ == self@.call(),
            r matches SuiteCall::Execute { call, .. } ==> call.arguments@ == Members::none().object()
                && call.action_timeout_ms is None && call.request_timeout_ms is None,
    {
        match self.stage {
            Stage::Opening => SuiteCall::Open,
            Stage::CursorBefore | Stage::CursorAfterExecutes | Stage::NeverCursor
            | Stage::CursorAfterVerdicts => SuiteCall::ReadCursor,
            Stage::RogueCount | Stage::RogueRecount | Stage::RetryCount | Stage::RetryRecount =>
            SuiteCall::CountDispatches,
            Stage::Omission | Stage::Sample => Self::observe_call(),
            Stage::Terminal(_) | Stage::Retry => self.execute_own(self.call_id.as_str(), false),
            Stage::Cancelled => self.execute_own(self.call_id.as_str(), true),
            Stage::Duplicate => match &self.succeeded {
                Some(id) => self.execute_own(id.as_str(), false),
                None => vstd::pervasive::unreached(),
            },
            Stage::Rogue => {
                proof {
                    names::lemma_conformance_rogue_action();
                }
                let rogue = action("conformanceRogueAction");
                SuiteCall::Execute {
                    call: fresh_call(&rogue, self.call_id.as_str()),
                    cancelled: false,
                }
            },
            Stage::OmissionSetUp => SuiteCall::InjectOmission,
            Stage::Foreign => match &self.succeeded {
                Some(id) => Self::reconcile_call(
                    id.as_str(),
                    &EventCursor {
                        session_id: "conformance-foreign-generation".to_owned(),
                        last_sequence: 0,
                    },
                ),
                None => vstd::pervasive::unreached(),
            },
            Stage::CancelledTrace => Self::reconcile_call(self.call_id.as_str(), &self.issuing),
            Stage::Completed => match &self.succeeded {
                Some(id) => Self::reconcile_call(id.as_str(), &self.issuing),
                None => vstd::pervasive::unreached(),
            },
            Stage::NonSuccess => match &self.failed {
                Some(id) => Self::reconcile_call(id.as_str(), &self.issuing),
                None => vstd::pervasive::unreached(),
            },
            Stage::Never => Self::reconcile_call(self.call_id.as_str(), &self.current),
            Stage::LongSummary => Self::verdict_call(
                VerdictStatus::Pass,
                many_xs(VERDICT_SUMMARY_MAX_CHARS + 1),
            ),
            Stage::MuchEvidence => Self::much_evidence_call(&self.sample),
            Stage::Valid => Self::verdict_call(
                VerdictStatus::Unknown,
                "conformance write".to_owned(),
            ),
            Stage::LogSetUp => SuiteCall::HideLog,
            Stage::Unavailable => match &self.succeeded {
                Some(id) => Self::reconcile_call(id.as_str(), &self.issuing),
                None => Self::reconcile_call(self.call_id.as_str(), &self.issuing),
            },
            Stage::Ending => SuiteCall::End,
            Stage::Finished => SuiteCall::Nothing,
        }
    }

    fn execute_own(&self, call_id: &str, cancelled: bool) -> (r: SuiteCall)
        requires
            self@.action_name is Some,
        ensures
            r@ == CallV::Execute(self@.action_name->0, call_id@, cancelled),
            r matches SuiteCall::Execute { call, .. } ==> call.arguments@ == Members::none().object()
                && call.action_timeout_ms is None && call.request_timeout_ms is None,
    {
        match &self.action_name {
            Some(name) => SuiteCall::Execute { call: fresh_call(name, call_id), cancelled },
            None => vstd::pervasive::unreached(),
        }
    }

    fn at(self, stage: Stage) -> (r: Suite)
        ensures
            r@ == self@.at(stage),
    {
        Suite { stage, ..self }
    }

    /// Puts a judgement on record.
    fn record(self, name: &'static str, result: Result<(), String>) -> (r: Suite)
        ensures
            r@ == self@.judged(name@, judged_view(result)),
    {
        let ghost before = self@;
        let check = match result {
            Ok(_) => CheckResult { name, status: CheckStatus::Passed, detail: None },
            Err(detail) => CheckResult { name, status: CheckStatus::Failed, detail: Some(detail) },
        };
        let ghost view = check@;
        let mut checks = self.checks;
        checks.push(check);
        let r = Suite { checks, ..self };
        assert(r@.checks =~= before.checks.push(view));
        r
    }

    /// Puts a skipped check on record.
    fn skip(self, name: &'static str, reason: &str) -> (r: Suite)
        ensures
            r@ == self@.skipped(name@, reason@),
    {
        let ghost before = self@;
        let check = CheckResult {
            name,
            status: CheckStatus::Skipped,
            detail: Some(reason.to_owned()),
        };
        let ghost view = check@;
        let mut checks = self.checks;
        checks.push(check);
        let r = Suite { checks, ..self };
        assert(r@.checks =~= before.checks.push(view));
        r
    }

    fn to_duplicate(self) -> (r: Suite)
        ensures
            r@ == self@.to_duplicate(),
    {
        if self.succeeded.is_some() {
            self.at(Stage::Duplicate)
        } else {
            self.skip(
                "execute.rejectsDuplicateCallId",
                "no succeeded callId available (terminals check failed)",
            ).to_rogue()
        }
    }

    fn to_rogue(self) -> (r: Suite)
        ensures
            r@ == self@.to_rogue(),
    {
        if self.can_count {
            self.at(Stage::RogueCount)
        } else {
            self.at(Stage::Rogue)
        }
    }

    fn to_retry(self) -> (r: Suite)
        ensures
            r@ == self@.to_retry(),
    {
        if self.can_count {
            self.at(Stage::RetryCount)
        } else {
            self.skip(
                "execute.noAutonomousRetry",
                "no dispatch_count hook provided",
            ).to_omission()
        }
    }

    fn to_omission(self) -> (r: Suite)
        ensures
            r@ == self@.to_omission(),
    {
        if self.can_omit {
            self.at(Stage::OmissionSetUp)
        } else {
            self.skip(
                "observe.omissionIsNotAnError",
                "no inject_observation_omission hook provided",
            ).to_foreign()
        }
    }

    fn to_foreign(self) -> (r: Suite)
        ensures
            r@ == self@.to_foreign(),
    {
        if self.succeeded.is_some() {
            self.at(Stage::Foreign)
        } else {
            self.skip(
                "reconcile.foreignCredentialNeverFabricates",
                "no succeeded callId available (terminals check failed)",
            ).at(Stage::Cancelled)
        }
    }

    fn to_completed(self) -> (r: Suite)
        ensures
            r@ == self@.to_completed(),
    {
        if self.succeeded.is_some() {
            self.at(Stage::Completed)
        } else {
            self.skip(
                "reconcile.completed",
                "no succeeded callId available (terminals check failed)",
            ).to_non_success()
        }
    }

    fn to_non_success(self) -> (r: Suite)
        ensures
            r@ == self@.to_non_success(),
    {
        if self.failed.is_some() {
            self.at(Stage::NonSuccess)
        } else {
            self.skip(
                "reconcile.completedNonSuccess",
                "no failed callId available (terminals check failed)",
            ).at(Stage::NeverCursor)
        }
    }

    fn to_unavailable(self) -> (r: Suite)
        ensures
            r@ == self@.to_unavailable(),
    {
        if self.can_hide_log {
            self.at(Stage::LogSetUp)
        } else {
            self.skip(
                "reconcile.logUnavailable",
                "no inject_log_unavailable hook provided",
            ).at(Stage::Ending)
        }
    }

    /// Takes what the call of the present stage gave; `fresh` is an id that no
    /// call has.
    pub fn take(self, event: SuiteEvent, fresh: String) -> (r: Suite)
        requires
            self@.ready(),
            answers(self@.stage, event@),
        ensures
            r@ == self@.after(event@, fresh@),
            r@.ready(),
    {
        let stage = self.stage;
        match event {
            SuiteEvent::Opened(result) => self.take_opened(result, fresh),
            SuiteEvent::Cursor(result) => self.take_cursor(result, fresh),
            SuiteEvent::Executed(result) => self.take_executed(result, fresh),
            SuiteEvent::Counted(n) => self.take_counted(n, fresh),
            SuiteEvent::Injected => {
                let next = Suite { call_id: fresh, ..self };
                if stage == Stage::OmissionSetUp {
                    next.at(Stage::Omission)
                } else {
                    next.at(Stage::Unavailable)
                }
            },
            SuiteEvent::Observed(result) => self.take_observed(result, fresh),
            SuiteEvent::Reconciled(result, shown) => self.take_reconciled(result, shown, fresh),
            SuiteEvent::Recorded(result) => self.take_recorded(result, fresh),
            SuiteEvent::Ended(result) => {
                let next = Suite { call_id: fresh, ..self };
                next.record(
                    "end.completes",
                    judge_success(&result, "end must be best-effort and not fail teardown: "),
                ).at(Stage::Finished)
            },
        }
    }

    fn take_opened(self, result: Result<ActionName, ProviderError>, fresh: String) -> (r: Suite)
        requires
            self@.ready(),
            self@.stage == Stage::Opening,
        ensures
            r@ == self@.after(SuiteEvent::Opened(result)@, fresh@),
            r@.ready(),
    {
        let next = Suite { call_id: fresh, ..self };
        match result {
            Ok(name) => {
                let named = Suite { action_name: Some(name), ..next };
                named.record("openSession.opens", Ok(())).at(Stage::CursorBefore)
            },
            Err(e) => next.record(
                "openSession.opens",
                Err(concat("open_session failed: ", e.describe().as_str())),
            ).at(Stage::Finished),
        }
    }

    fn take_cursor(self, result: Result<EventCursor, ProviderError>, fresh: String) -> (r: Suite)
        requires
            self@.ready(),
            answers(self@.stage, SuiteEvent::Cursor(result)@),
        ensures
            r@ == self@.after(SuiteEvent::Cursor(result)@, fresh@),
            r@.ready(),
    {
        let stage = self.stage;
        let next = Suite { call_id: fresh, ..self };
        let reading = cursor_reading(result);
        match stage {
            Stage::CursorBefore => {
                let issuing = match &reading {
                    Ok(c) => cursor_copy(c),
                    Err(_) => EventCursor { session_id: "".to_owned(), last_sequence: 0 },
                };
                Suite { cursor_before: reading, issuing, ..next }.at(Stage::Terminal(0))
            },
            Stage::CursorAfterExecutes => {
                let read = Suite { cursor_after_executes: reading, ..next };
                read.to_duplicate()
            },
            Stage::NeverCursor => match reading {
                Ok(current) => Suite { current, ..next }.at(Stage::Never),
                Err(_) => vstd::pervasive::unreached(),
            },
            _ => {
                let judgement = cursor_monotonic(
                    &next.cursor_before,
                    &next.cursor_after_executes,
                    &reading,
                );
                next.record("currentCursor.monotonic", judgement).to_unavailable()
            },
        }
    }

    fn take_executed(self, result: Result<ActionOutcome, ProviderError>, fresh: String) -> (r: Suite)
        requires
            self@.ready(),
            answers(self@.stage, SuiteEvent::Executed(result)@),
        ensures
            r@ == self@.after(SuiteEvent::Executed(result)@, fresh@),
            r@.ready(),
    {
        match self.stage {
            Stage::Terminal(index) => self.take_terminal(index, result, fresh),
            Stage::Duplicate => {
                let next = Suite { call_id: fresh, ..self };
                next.record("execute.rejectsDuplicateCallId", judge_duplicate(&result)).to_rogue()
            },
            Stage::Rogue => {
                let next = Suite { call_id: fresh, ..self };
                if result.is_err() && next.can_count {
                    next.at(Stage::RogueRecount)
                } else {
                    next.record(
                        "execute.rejectsUnattestedAction",
                        judge_rogue(&result, None),
                    ).to_retry()
                }
            },
            Stage::Retry => {
                let next = Suite { call_id: fresh, ..self };
                if retryable_failure(&result) {
                    next.at(Stage::RetryRecount)
                } else {
                    next.record(
                        "execute.noAutonomousRetry",
                        Err(describe_retry_fault(&result)),
                    ).to_omission()
                }
            },
            _ => match judge_cancelled(&result) {
                Ok(_) => self.at(Stage::CancelledTrace),
                Err(detail) => {
                    let next = Suite { call_id: fresh, ..self };
                    next.record("execute.preCancelledSendsNothing", Err(detail)).to_completed()
                },
            },
        }
    }

    fn take_terminal(
        self,
        index: u8,
        result: Result<ActionOutcome, ProviderError>,
        fresh: String,
    ) -> (r: Suite)
        requires
            self@.ready(),
            self@.stage == Stage::Terminal(index),
        ensures
            r@ == self@.after(SuiteEvent::Executed(result)@, fresh@),
            r@.ready(),
    {
        let judgement = judge_terminal(index, self.call_id.as_str(), &result);
        let call_id = self.call_id.clone();
        let next = Suite { call_id: fresh, ..self };
        match judgement {
            Err(detail) => next.record("execute.fourTerminalsReachable", Err(detail)).at(
                Stage::CursorAfterExecutes,
            ),
            Ok(_) => {
                let noted = match &result {
                    Ok(ActionOutcome::Succeeded { .. }) => Suite {
                        succeeded: Some(call_id),
                        ..next
                    },
                    Ok(ActionOutcome::Failed { .. }) => Suite { failed: Some(call_id), ..next },
                    _ => next,
                };
                if index >= 3 {
                    noted.record("execute.fourTerminalsReachable", Ok(())).at(
                        Stage::CursorAfterExecutes,
                    )
                } else {
                    noted.at(Stage::Terminal(index + 1))
                }
            },
        }
    }

    fn take_counted(self, n: u64, fresh: String) -> (r: Suite)
        requires
            self@.ready(),
            answers(self@.stage, EventV::Counted(n)),
        ensures
            r@ == self@.after(EventV::Counted(n), fresh@),
            r@.ready(),
    {
        let stage = self.stage;
        let counted = self.counted;
        let next = Suite { call_id: fresh, ..self };
        match stage {
            Stage::RogueCount => Suite { counted: n, ..next }.at(Stage::Rogue),
            Stage::RetryCount => Suite { counted: n, ..next }.at(Stage::Retry),
            Stage::RogueRecount => {
                let judgement = if n != counted {
                    Err(
                        "the refusal must happen BEFORE any wire request left the provider".to_owned(),
                    )
                } else {
                    Ok(())
                };
                next.record("execute.rejectsUnattestedAction", judgement).to_retry()
            },
            _ => next.record(
                "execute.noAutonomousRetry",
                judge_retry_count(counted, n),
            ).to_omission(),
        }
    }

    fn take_observed(self, result: Result<Observation, ProviderError>, fresh: String) -> (r: Suite)
        requires
            self@.ready(),
            answers(self@.stage, SuiteEvent::Observed(result)@),
        ensures
            r@ == self@.after(SuiteEvent::Observed(result)@, fresh@),
            r@.ready(),
    {
        let stage = self.stage;
        let next = Suite { call_id: fresh, ..self };
        if stage == Stage::Omission {
            next.record("observe.omissionIsNotAnError", judge_omission(&result)).to_foreign()
        } else {
            let sample = match result {
                Ok(o) => match o.screenshot {
                    Some(asset) => asset,
                    None => synthetic_evidence(),
                },
                Err(_) => synthetic_evidence(),
            };
            Suite { sample, ..next }.at(Stage::MuchEvidence)
        }
    }

    fn take_reconciled(
        self,
        result: Result<ReconcileResult, ProviderError>,
        shown: String,
        fresh: String,
    ) -> (r: Suite)
        requires
            self@.ready(),
            answers(self@.stage, SuiteEvent::Reconciled(result, shown)@),
        ensures
            r@ == self@.after(SuiteEvent::Reconciled(result, shown)@, fresh@),
            r@.ready(),
    {
        let stage = self.stage;
        let next = Suite { call_id: fresh, ..self };
        let shown = shown.as_str();
        match stage {
            Stage::Foreign => next.record(
                "reconcile.foreignCredentialNeverFabricates",
                judge_foreign(&result),
            ).at(Stage::Cancelled),
            Stage::CancelledTrace => next.record(
                "execute.preCancelledSendsNothing",
                judge_trace(&result, shown),
            ).to_completed(),
            Stage::Completed => {
                let judgement = match &next.succeeded {
                    Some(id) => judge_completed(id.as_str(), &result, shown),
                    None => vstd::pervasive::unreached(),
                };
                next.record("reconcile.completed", judgement).to_non_success()
            },
            Stage::NonSuccess => next.record(
                "reconcile.completedNonSuccess",
                judge_non_success(&result, shown),
            ).at(Stage::NeverCursor),
            Stage::Never => next.record(
                "reconcile.neverDispatched",
                judge_never(&result, shown),
            ).at(Stage::LongSummary),
            _ => next.record(
                "reconcile.logUnavailable",
                judge_unavailable(&result, shown),
            ).at(Stage::Ending),
        }
    }

    fn take_recorded(self, result: Result<(), ProviderError>, fresh: String) -> (r: Suite)
        requires
            self@.ready(),
            answers(self@.stage, SuiteEvent::Recorded(result)@),
        ensures
            r@ == self@.after(SuiteEvent::Recorded(result)@, fresh@),
            r@.ready(),
    {
        let stage = self.stage;
        let next = Suite { call_id: fresh, ..self };
        match stage {
            Stage::LongSummary => next.record(
                "recordVerdict.rejectsOversizedSummary",
                expect_bind_arguments_invalid(&result, "an oversized summary"),
            ).at(Stage::Sample),
            Stage::MuchEvidence => next.record(
                "recordVerdict.rejectsOversizedEvidence",
                expect_bind_arguments_invalid(&result, "an oversized evidence list"),
            ).at(Stage::Valid),
            _ => next.record(
                "recordVerdict.acceptsValid",
                judge_success(&result, "a within-caps verdict must be accepted: "),
            ).at(Stage::CursorAfterVerdicts),
        }
    }

    /// Takes what the call of the present stage gave, with a random id for the
    /// next call.
    pub fn advance(self, event: SuiteEvent) -> (r: Suite)
        requires
            self@.ready(),
            answers(self@.stage, event@),
        ensures
            exists|fresh: Seq<char>|
                ids::is_written_id(fresh) && r@ == #[trigger] self@.after(event@, fresh),
            r@.ready(),
    {
        let fresh = new_call_id();
        let ghost before = self@;
        let ghost given = event@;
        let ghost id = fresh@;
        let r = self.take(event, fresh);
        assert(r@ == before.after(given, id));
        r
    }
}

/// How far a run has come at a stage.
pub open spec fn rank(stage: Stage) -> int {
    match stage {
        Stage::Opening => 0,
        Stage::CursorBefore => 1,
        Stage::Terminal(index) => 10 + index,
        Stage::CursorAfterExecutes => 303,
        Stage::Duplicate => 304,
        Stage::RogueCount => 305,
        Stage::Rogue => 306,
        Stage::RogueRecount => 307,
        Stage::RetryCount => 308,
        Stage::Retry => 309,
        Stage::RetryRecount => 310,
        Stage::OmissionSetUp => 311,
        Stage::Omission => 312,
        Stage::Foreign => 313,
        Stage::Cancelled => 314,
        Stage::CancelledTrace => 315,
        Stage::Completed => 316,
        Stage::NonSuccess => 317,
        Stage::NeverCursor => 318,
        Stage::Never => 319,
        Stage::LongSummary => 320,
        Stage::Sample => 321,
        Stage::MuchEvidence => 322,
        Stage::Valid => 323,
        Stage::CursorAfterVerdicts => 324,
        Stage::LogSetUp => 325,
        Stage::Unavailable => 326,
        Stage::Ending => 327,
        Stage::Finished => 328,
    }
}

/// Every answer moves a run on, so it comes to an end.
#[verifier::rlimit(80)]
pub proof fn law_answers_move_the_run_on(s: SuiteV, event: EventV, fresh: Seq<char>)
    requires
        s.ready(),
        answers(s.stage, event),
    ensures
        rank(s.after(event, fresh).stage) > rank(s.stage),
{
}

/// Whether the checks of `a` are the first checks of `b`.
pub open spec fn keeps(a: SuiteV, b: SuiteV) -> bool {
    &&& a.checks.len() <= b.checks.len()
    &&& forall|i: int| 0 <= i < a.checks.len() ==> #[trigger] a.checks[i] == b.checks[i]
}

proof fn lemma_steps_keep(s: SuiteV)
    ensures
        keeps(s, s.to_rogue()),
        keeps(s, s.to_duplicate()),
        keeps(s, s.to_foreign()),
        keeps(s, s.to_omission()),
        keeps(s, s.to_retry()),
        keeps(s, s.to_non_success()),
        keeps(s, s.to_completed()),
        keeps(s, s.to_unavailable()),
{
}

/// What is on record stays on record.
pub proof fn law_checks_stay_on_record(s: SuiteV, event: EventV, fresh: Seq<char>)
    requires
        answers(s.stage, event),
    ensures
        keeps(s, s.after(event, fresh)),
{
    let next = SuiteV { call_id: fresh, ..s };
    lemma_steps_keep(next);
    match (s.stage, event) {
        (Stage::CursorAfterExecutes, EventV::Cursor(r)) => lemma_steps_keep(
            SuiteV { cursor_after_executes: r, ..next },
        ),
        (Stage::Duplicate, EventV::Executed(r)) => lemma_steps_keep(
            next.judged("execute.rejectsDuplicateCallId"@, duplicate_judged(r)),
        ),
        (Stage::Rogue, EventV::Executed(r)) => lemma_steps_keep(
            next.judged("execute.rejectsUnattestedAction"@, rogue_judged(r, None)),
        ),
        (Stage::RogueRecount, EventV::Counted(n)) => {
            lemma_steps_keep(next.judged("execute.rejectsUnattestedAction"@, Ok(())));
            lemma_steps_keep(
                next.judged(
                    "execute.rejectsUnattestedAction"@,
                    Err("the refusal must happen BEFORE any wire request left the provider"@),
                ),
            );
        },
        (Stage::Retry, EventV::Executed(r)) => lemma_steps_keep(
            next.judged("execute.noAutonomousRetry"@, Err(retry_fault(r))),
        ),
        (Stage::RetryRecount, EventV::Counted(n)) => lemma_steps_keep(
            next.judged("execute.noAutonomousRetry"@, retry_counted(s.counted, n)),
        ),
        (Stage::Omission, EventV::Observed(r)) => lemma_steps_keep(
            next.judged("observe.omissionIsNotAnError"@, omission_judged(r)),
        ),
        (Stage::Cancelled, EventV::Executed(r)) => if cancelled_judged(r) is Err {
            lemma_steps_keep(
                next.judged("execute.preCancelledSendsNothing"@, cancelled_judged(r)),
            );
        },
        (Stage::CancelledTrace, EventV::Reconciled(r, shown)) => lemma_steps_keep(
            next.judged("execute.preCancelledSendsNothing"@, trace_judged(r, shown)),
        ),
        (Stage::Completed, EventV::Reconciled(r, shown)) => lemma_steps_keep(
            next.judged("reconcile.completed"@, completed_judged(s.succeeded->0, r, shown)),
        ),
        (Stage::CursorAfterVerdicts, EventV::Cursor(r)) => lemma_steps_keep(
            next.judged(
                "currentCursor.monotonic"@,
                cursors_judged(s.cursor_before, s.cursor_after_executes, r),
            ),
        ),
        _ => {},
    }
}

/// A check whose fault cannot be injected is skipped and nothing else comes of
/// it: such a run counts no dispatches and injects no fault.
pub proof fn law_missing_hooks_are_skipped(s: SuiteV, event: EventV, fresh: Seq<char>)
    requires
        s.ready(),
        answers(s.stage, event),
    ensures
        !s.can_count ==> {
            let next = s.after(event, fresh).stage;
            s.stage !is RogueCount && s.stage !is RetryCount && s.stage !is Retry ==> next
                !is RogueCount && next !is RogueRecount && next !is RetryCount && next !is Retry
        },
        !s.can_omit ==> s.after(event, fresh).stage !is OmissionSetUp,
        !s.can_hide_log ==> s.after(event, fresh).stage !is LogSetUp,
{
}

} // verus!
