//! What a conformance report shows, and what contracts see of the values that are judged.

use vstd::prelude::*;
use vstd::string::*;

use crate::ids;
use crate::ir::record::EventCursor;
use crate::ir::runtime::{ActionOutcome, FateV, Observation, ReconcileResult};
use crate::ir::vocab::ScreenshotOmissionReason;
use crate::kit::conformance;
use crate::kit::conformance::{CheckStatus, CheckV, ConformanceReport};
use crate::kit::error::{ProviderError, ProviderErrorV};
use crate::kit::fake;
use crate::wire::Wire;

verus! {

/// The line of a check shows its status, its name and its detail, if there is one.
pub proof fn law_lines_show_the_check(check: CheckV)
    ensures
        ({
            let line = conformance::check_line(check);
            let detail = match check.detail {
                Some(d) => d,
                None => ""@,
            };
            &&& check.status == CheckStatus::Passed ==> line == "  ["@ + "PASS"@ + "] "@ + check.name
                + " "@ + detail
            &&& check.status == CheckStatus::Failed ==> line == "  ["@ + "FAIL"@ + "] "@ + check.name
                + " "@ + detail
            &&& check.status == CheckStatus::Skipped ==> line == "  ["@ + "SKIP"@ + "] "@
                + check.name + " "@ + detail
        }),
{
}

/// Lines of different statuses differ.
pub proof fn law_statuses_are_told_apart(a: CheckV, b: CheckV)
    requires
        conformance::check_line(a) == conformance::check_line(b),
    ensures
        a.status == b.status,
{
    reveal_strlit("  [");
    reveal_strlit("PASS");
    reveal_strlit("FAIL");
    reveal_strlit("SKIP");
    let x = conformance::check_line(a);
    let y = conformance::check_line(b);
    assert(x[3] == y[3] && x[4] == y[4]);
}

/// A report has passed just where no check failed, and is all green just where every check
/// passed. Its checks are seen one by one, with all that they say.
pub proof fn law_reports_are_seen_whole(r: ConformanceReport, i: int)
    ensures
        r@.len() == r.checks@.len(),
        r.spec_passed() <==> forall|j: int|
            0 <= j < r@.len() ==> (#[trigger] r@[j]).status != CheckStatus::Failed,
        r.spec_all_green() <==> forall|j: int|
            0 <= j < r@.len() ==> (#[trigger] r@[j]).status == CheckStatus::Passed,
        r.spec_all_green() ==> r.spec_passed(),
        0 <= i < r.checks@.len() ==> r@[i].name == r.checks@[i].name@ && r@[i].status
            == r.checks@[i].status && (r@[i].detail is Some <==> r.checks@[i].detail is Some) && (
        r.checks@[i].detail matches Some(d) ==> r@[i].detail == Some(d@)),
{
    assert forall|j: int| 0 <= j < r@.len() implies (#[trigger] r@[j]).status
        == r.checks@[j].status by {}
    if forall|j: int| 0 <= j < r@.len() ==> (#[trigger] r@[j]).status != CheckStatus::Failed {
        assert forall|j: int| 0 <= j < r.checks@.len() implies (#[trigger] r.checks@[j]).status
            != CheckStatus::Failed by {
            assert(r@[j].status != CheckStatus::Failed);
        }
    }
    if forall|j: int| 0 <= j < r@.len() ==> (#[trigger] r@[j]).status == CheckStatus::Passed {
        assert forall|j: int| 0 <= j < r.checks@.len() implies (#[trigger] r.checks@[j]).status
            == CheckStatus::Passed by {
            assert(r@[j].status == CheckStatus::Passed);
        }
    }
    if r.spec_all_green() {
        assert forall|j: int| 0 <= j < r.checks@.len() implies (#[trigger] r.checks@[j]).status
            != CheckStatus::Failed by {
            assert(r.checks@[j].status == CheckStatus::Passed);
        }
    }
}

/// The summary of a run that is not all green lists the lines of its checks, one below the
/// other.
pub proof fn law_summaries_list_the_checks(checks: Seq<CheckV>, check: CheckV)
    requires
        checks.len() > 0,
    ensures
        conformance::not_green_summary(seq![check]) == "provider conformance not all green:\n"@
            + conformance::check_line(check),
        conformance::not_green_summary(checks.push(check)) == conformance::not_green_summary(checks)
            + "\n"@ + conformance::check_line(check),
{
    let f = |c: CheckV| conformance::check_line(c);
    let lines = checks.map_values(f);
    assert(checks.push(check).map_values(f) =~= lines.push(conformance::check_line(check)));
    assert(lines.push(conformance::check_line(check)).drop_last() =~= lines);
    assert(seq![check].map_values(f) =~= seq![conformance::check_line(check)]);
    assert(conformance::not_green_summary(checks.push(check))
        =~= conformance::not_green_summary(checks) + "\n"@ + conformance::check_line(check));
}

/// The first four calls are expected to succeed, fail, be cancelled and time out, in this order.
pub proof fn law_kinds_are_expected_in_turn(index: u8, n: nat, i: int)
    ensures
        index == 0 ==> conformance::expected_kind(index) == "succeeded"@,
        index == 1 ==> conformance::expected_kind(index) == "failed"@,
        index == 2 ==> conformance::expected_kind(index) == "cancelled"@,
        index >= 3 ==> conformance::expected_kind(index) == "timedOut"@,
        conformance::xs(n).len() == n,
        0 <= i < n ==> conformance::xs(n)[i] == 'x',
        conformance::shown_omission(None) == "None"@,
        conformance::shown_omission(Some(ScreenshotOmissionReason::Policy)) == "Some(Policy)"@,
        conformance::shown_omission(Some(ScreenshotOmissionReason::ProtectedAction))
            == "Some(ProtectedAction)"@,
{
}

/// What contracts see of a result is what it holds, or the error that it holds.
pub proof fn law_results_are_seen_whole(
    judged: Result<(), String>,
    fate: Result<ReconcileResult, ProviderError>,
    seen: Result<Observation, ProviderError>,
    outcome: Result<ActionOutcome, ProviderError>,
    done: Result<(), ProviderError>,
    cursor: Result<EventCursor, String>,
    id: Result<String, String>,
)
    ensures
        conformance::judged_view(judged) is Ok <==> judged is Ok,
        judged matches Err(detail) ==> conformance::judged_view(judged)->Err_0 == detail@,
        match fate {
            Ok(r) => conformance::fate_result(fate) is Ok && (match r {
                ReconcileResult::Completed { outcome } => conformance::fate_result(fate)->Ok_0
                    == FateV::Completed(outcome@),
                ReconcileResult::StartedNoTerminal => conformance::fate_result(fate)->Ok_0
                    is StartedNoTerminal,
                ReconcileResult::NeverDispatched => conformance::fate_result(fate)->Ok_0
                    is NeverDispatched,
                ReconcileResult::LogUnavailable { reason } => conformance::fate_result(fate)->Ok_0
                    == FateV::LogUnavailable(reason@),
            }),
            Err(e) => conformance::fate_result(fate) == Err::<FateV, ProviderErrorV>(e@),
        },
        match seen {
            Ok(o) => conformance::observation_result(seen) is Ok && conformance::observation_result(
                seen,
            )->Ok_0 == o@,
            Err(e) => conformance::observation_result(seen) is Err
                && conformance::observation_result(seen)->Err_0 == e@,
        },
        match outcome {
            Ok(o) => fake::outcome_view(outcome) is Ok && fake::outcome_view(outcome)->Ok_0 == o@,
            Err(e) => fake::outcome_view(outcome) is Err && fake::outcome_view(outcome)->Err_0
                == e@,
        },
        match done {
            Ok(_) => fake::unit_view(done) is Ok,
            Err(e) => fake::unit_view(done) == Err::<(), ProviderErrorV>(e@),
        },
        match cursor {
            Ok(c) => conformance::cursor_view(cursor) == Ok::<(Seq<char>, u64), Seq<char>>(
                (c.session_id@, c.last_sequence),
            ),
            Err(t) => conformance::cursor_view(cursor) == Err::<(Seq<char>, u64), Seq<char>>(t@),
        },
        match id {
            Ok(t) => ids::parsed_view(id) == Ok::<Seq<char>, Seq<char>>(t@),
            Err(t) => ids::parsed_view(id) == Err::<Seq<char>, Seq<char>>(t@),
        },
{
}

/// What contracts see of an observation is all that it says.
pub proof fn law_observations_are_seen_whole(o: Observation)
    ensures
        o@.id == o.id@,
        o@.device_id == o.device_id@,
        o@.captured_at_ms == o.captured_at_ms,
        o@.viewport == o.viewport.wire_json(),
        o@.screenshot is Some <==> o.screenshot is Some,
        o.screenshot matches Some(a) ==> o@.screenshot == Some(a.wire_json()),
        o@.screenshot_omission == o.screenshot_omission,
        o@.ui_snapshot is Some <==> o.ui_snapshot is Some,
        o.ui_snapshot matches Some(t) ==> o@.ui_snapshot == Some(t.wire_json()),
        o@.ui_snapshot_omission == o.ui_snapshot_omission,
{
}

} // verus!
