//! What an open session decides, told from what it is asked and what it knows.

use vstd::prelude::*;
use vstd::string::*;

use crate::devicerail::budget::BoundedError;
use crate::devicerail::error_laws;
use crate::devicerail::error_map;
use crate::devicerail::session;
use crate::devicerail::session::{
    CallV, DeviceRailSession, ExecutePlan, PlanV, ReconcileStep, SessionV,
};
use crate::devicerail::wire::{ClientError, ClientFailure};
use crate::ir::runtime;
use crate::ir::runtime::{FateV, Observation, ReconcileResult};
use crate::ir::vocab::{ErrorClass, ScreenshotOmissionReason, UiSnapshotOmissionReason};
use crate::json::{Json, JsonV};
use crate::keyed;
use crate::kit::error::ProviderErrorV;
use crate::kit::spi;
use crate::kit::spi::{BoundActionCall, ObserveWant, UiSnapshotOutcome, UiSnapshotV};
use crate::text;
use crate::wire;
use crate::wire::Wire;

verus! {

proof fn lemma_words()
    ensures
        keyed::key_code("policy"@) == 6112099121,
        keyed::key_code("observe"@) == 7111118101,
        keyed::key_code("screenshot"@) == 10115104116,
        keyed::key_code("uiSnapshot"@) == 10117104116,
        keyed::key_code("protectedAction"@) == 15112116110,
        keyed::key_code("driverUnsupported"@) == 17100111100,
{
    reveal_strlit("policy");
    reveal_strlit("observe");
    reveal_strlit("screenshot");
    reveal_strlit("uiSnapshot");
    reveal_strlit("protectedAction");
    reveal_strlit("driverUnsupported");
}

proof fn lemma_projection_keys()
    ensures
        keyed::key_code("screenshot"@) == 10115104116,
        keyed::key_code("uiSnapshot"@) == 10117104116,
        keyed::key_code("observationId"@) == 13111111100,
        keyed::key_code("screenshotOmission"@) == 18115115110,
        keyed::key_code("uiSnapshotOmission"@) == 18117115110,
{
    reveal_strlit("screenshot");
    reveal_strlit("uiSnapshot");
    reveal_strlit("observationId");
    reveal_strlit("screenshotOmission");
    reveal_strlit("uiSnapshotOmission");
}

/// Whether two budgets are given and the action's is not below the request's.
pub open spec fn crossed(call: CallV) -> bool {
    call.action_ms is Some && call.request_ms is Some && call.action_ms->0 >= call.request_ms->0
}

/// Whether a call asks for an observation.
pub open spec fn asks_to_observe(name: Seq<char>) -> bool {
    name == "screenshot"@ || name == "observe"@
}

/// What contracts see of a session, a call and a plan is all that they say.
pub proof fn law_sessions_are_seen_whole(
    s: DeviceRailSession,
    call: BoundActionCall,
    plan: ExecutePlan,
)
    ensures
        s@.session_id == s.session_id@,
        s@.ended == s.ended,
        s@.degraded is Some <==> s.degraded is Some,
        s.degraded matches Some(d) ==> s@.degraded == Some(d@),
        s@.dispatched == s.dispatched.as_map(),
        s@.watermark == s.watermark,
        session::call_view(call).call_id == call.call_id@,
        session::call_view(call).name == call.action_name@,
        session::call_view(call).arguments == call.arguments@,
        session::call_view(call).action_ms == call.action_timeout_ms,
        session::call_view(call).request_ms == call.request_timeout_ms,
        match plan {
            ExecutePlan::Observe { call_id, wants } => plan@ is Observe && plan@->Observe_0
                == call_id@ && plan@->Observe_1 == wants@,
            ExecutePlan::Dispatch(request) => plan@ is Dispatch && plan@->id == request.id@
                && plan@->name == request.name@ && plan@->arguments == request.arguments@
                && plan@->action_timeout_ms == request.action_timeout_ms && plan@->timeout_ms
                == request.timeout_ms,
        },
{
}

/// What contracts see of a step of a reconciliation is all that it says.
pub proof fn law_steps_are_seen_whole(step: ReconcileStep, outcome: UiSnapshotOutcome)
    ensures
        match step {
            ReconcileStep::Answer(result) => step@ is Answer && (match result {
                ReconcileResult::Completed { outcome } => step@->Answer_0 == FateV::Completed(
                    outcome@,
                ),
                ReconcileResult::StartedNoTerminal => step@->Answer_0 is StartedNoTerminal,
                ReconcileResult::NeverDispatched => step@->Answer_0 is NeverDispatched,
                ReconcileResult::LogUnavailable { reason } => step@->Answer_0
                    == FateV::LogUnavailable(reason@),
            }),
            ReconcileStep::ListSessions => step@ is ListSessions,
            ReconcileStep::ReadPage(search) => step@ is ReadPage && step@->ReadPage_0
                == search.call_id@ && step@->ReadPage_1 == search.after && step@->ReadPage_2
                == search.started,
        },
        match outcome {
            UiSnapshotOutcome::Available { snapshot } => outcome@ == UiSnapshotV::Available(
                snapshot@,
            ),
            UiSnapshotOutcome::Unavailable { reason } => outcome@ == UiSnapshotV::Unavailable(
                reason,
            ),
        },
{
}

/// A call is dispatched just where the session is open, the token is not cancelled,
/// the action is attested, the id is one, the budgets do not cross and the id was not
/// dispatched before. It is served by an observation just where the session is open,
/// the token is not cancelled, the action is not attested and asks for parts that there
/// are.
#[verifier::spinoff_prover]
pub proof fn law_what_is_dispatched(
    s: SessionV,
    attested: bool,
    call: CallV,
    cancelled: bool,
    parsed: Result<Seq<char>, Seq<char>>,
)
    ensures
        ({
            let r = session::planned(s, attested, call, cancelled, parsed);
            let wants = spi::observation_wants(call.name, call.arguments);
            &&& r is Ok && r->Ok_0 is Dispatch <==> !s.ended && !cancelled && attested
                && parsed is Ok && !crossed(call) && !s.dispatched.has(parsed->Ok_0)
            &&& r is Ok && r->Ok_0 is Observe <==> !s.ended && !cancelled && !attested
                && wants is Ok && wants->Ok_0 is Some
            &&& r is Ok && r->Ok_0 is Observe ==> r->Ok_0->Observe_0 == call.call_id
                && r->Ok_0->Observe_1 == wants->Ok_0->0
        }),
{
    error_laws::law_budgets_are_the_callers(call.action_ms, call.request_ms);
}

/// A dispatch carries the caller's id, name and arguments, the action's budget if
/// there is one, and a request budget that is the caller's or five seconds longer than
/// the action's, each brought into the range of a request.
#[verifier::spinoff_prover]
pub proof fn law_what_a_dispatch_carries(
    s: SessionV,
    attested: bool,
    call: CallV,
    cancelled: bool,
    parsed: Result<Seq<char>, Seq<char>>,
)
    ensures
        session::planned(s, attested, call, cancelled, parsed) matches Ok(
            PlanV::Dispatch { id, name, arguments, action_timeout_ms, timeout_ms },
        ) ==> {
            &&& parsed == Ok::<Seq<char>, Seq<char>>(id)
            &&& name == call.name
            &&& arguments == call.arguments
            &&& action_timeout_ms is Some <==> call.action_ms is Some
            &&& call.action_ms matches Some(ms) ==> (1 <= ms <= 0x1f_ffff_ffff_ffff
                ==> action_timeout_ms == Some(ms))
            &&& timeout_ms is Some <==> call.action_ms is Some || call.request_ms is Some
            &&& call.request_ms matches Some(ms) ==> (1 <= ms <= 0x1f_ffff_ffff_ffff
                ==> timeout_ms == Some(ms))
            &&& call.request_ms is None && call.action_ms is Some && call.action_ms->0 + 5000
                <= 0x1f_ffff_ffff_ffff ==> timeout_ms is Some && timeout_ms->0
                == call.action_ms->0 + 5000
            &&& action_timeout_ms matches Some(ms) ==> 1 <= ms <= 0x1f_ffff_ffff_ffff
            &&& timeout_ms matches Some(ms) ==> 1 <= ms <= 0x1f_ffff_ffff_ffff
        },
{
}

/// A refused call says why, in this order: the session has ended, the token is
/// cancelled, the action is unknown, the parts that are asked for are none, the id is
/// no id, the budgets cross, the id was dispatched before.
#[verifier::spinoff_prover]
pub proof fn law_refusals_have_their_class(
    s: SessionV,
    attested: bool,
    call: CallV,
    cancelled: bool,
    parsed: Result<Seq<char>, Seq<char>>,
)
    requires
        session::planned(s, attested, call, cancelled, parsed) is Err,
    ensures
        ({
            let e = session::planned(s, attested, call, cancelled, parsed)->Err_0;
            &&& e.error_class == ErrorClass::TransportLost <==> s.ended
            &&& e.error_class == ErrorClass::ActionCancelled <==> !s.ended && cancelled
            &&& e.error_class == ErrorClass::CapabilityDrift <==> !s.ended && !cancelled
                && !attested && !asks_to_observe(call.name)
            &&& e.error_class == ErrorClass::BindArgumentsInvalid <==> !s.ended && !cancelled && (
            attested || asks_to_observe(call.name))
            &&& e.wire is None
            &&& e.client_code is Some <==> s.ended
            &&& !s.ended && !cancelled && attested && parsed is Err ==> e.message
                == "callId must be the runner-generated UUID: "@ + parsed->Err_0
            &&& !s.ended && !cancelled && attested && parsed is Ok && !crossed(call) ==> e.message
                == "duplicate callId "@ + parsed->Ok_0
                + ": a retry is a new callId with a new WAL intent (04 §3)"@
            &&& !s.ended && !cancelled && !attested && !asks_to_observe(call.name) ==> e.message
                == "actionName `"@ + call.name
                + "` is not in the attested action set; refusing to dispatch"@
        }),
{
    lemma_words();
    error_laws::law_budgets_are_the_callers(call.action_ms, call.request_ms);
    law_observation_calls(call.name, call.arguments);
}

/// A plan changes nothing of the session but that a dispatched id is remembered.
pub proof fn law_plans_remember_the_id(
    s: SessionV,
    plan: Result<PlanV, ProviderErrorV>,
    id: Seq<char>,
)
    requires
        s.dispatched.sorted(),
    ensures
        ({
            let next = session::after_plan(s, plan);
            let sent = plan is Ok && plan->Ok_0 is Dispatch && plan->Ok_0->id == id;
            &&& next.dispatched.has(id) <==> s.dispatched.has(id) || sent
            &&& next.session_id == s.session_id
            &&& next.ended == s.ended
            &&& next.degraded == s.degraded
            &&& next.watermark == s.watermark
        }),
{
    if let Ok(PlanV::Dispatch { id: new, .. }) = plan {
        keyed::law_set_and_get(s.dispatched, new, (), id);
    }
}

/// A failure changes nothing of the session but that a degradation that the daemon
/// reports is remembered, with the daemon's message.
pub proof fn law_failures_note_degradations(s: SessionV, error: ClientError)
    ensures
        ({
            let next = session::after_failure(s, error);
            let reported = error.failure is RemoteRpc
                && error.failure->RemoteRpc_0.data.code@ == "session_degraded"@;
            &&& reported ==> next.degraded == Some(error.failure->RemoteRpc_0.data.message@)
            &&& !reported ==> next.degraded == s.degraded
            &&& next.session_id == s.session_id
            &&& next.ended == s.ended
            &&& next.dispatched == s.dispatched
            &&& next.watermark == s.watermark
        }),
{
}

/// Just an error reply can stand for a terminal, and then it is the one that the reply
/// says.
pub proof fn law_failed_calls_stand_for_terminals(error: ClientError)
    ensures
        session::failure_terminal(error) is Some ==> error.failure is RemoteRpc,
        error.failure matches ClientFailure::RemoteRpc(rpc) ==> session::failure_terminal(error)
            == error_map::terminal_of(rpc),
{
}

/// A reason for a missing part is added just where the part is wanted, missing and
/// without a reason; the reason is policy for a screenshot and the driver for a UI
/// snapshot. Everything else of the observation stays as it is.
pub proof fn law_reasons_are_added_where_missing(o: Observation, wants: Seq<ObserveWant>)
    ensures
        ({
            let r = session::with_omissions(o, wants);
            let shot = wants.contains(ObserveWant::Screenshot) && o.screenshot is None
                && o.screenshot_omission is None;
            let tree = wants.contains(ObserveWant::UiSnapshot) && o.ui_snapshot is None
                && o.ui_snapshot_omission is None;
            &&& shot ==> r.screenshot_omission == Some(ScreenshotOmissionReason::Policy)
            &&& !shot ==> r.screenshot_omission == o.screenshot_omission
            &&& tree ==> r.ui_snapshot_omission == Some(
                UiSnapshotOmissionReason::DriverUnsupported,
            )
            &&& !tree ==> r.ui_snapshot_omission == o.ui_snapshot_omission
            &&& r == (Observation {
                screenshot_omission: r.screenshot_omission,
                ui_snapshot_omission: r.ui_snapshot_omission,
                ..o
            })
        }),
{
}

/// Whether a JSON value spells a word: as a text, or as the only member of an object,
/// without a value.
pub open spec fn spells(value: JsonV, word: Seq<char>) -> bool {
    ||| value == JsonV::Text(word)
    ||| value is Object && value->Object_0.entries.len() == 1 && value->Object_0.entries[0].0
        == word && value->Object_0.entries[0].1 is Null
}

/// The reason for a missing snapshot is the one that the details of the reply spell;
/// where they spell none, it is the driver.
pub proof fn law_reasons_are_read_as_spelled(details: Option<JsonV>)
    ensures
        ({
            let r = session::reason_in(details);
            let named = if details is Some {
                details->0.member("omissionReason"@)
            } else {
                None
            };
            &&& r == UiSnapshotOmissionReason::Policy <==> named is Some && spells(
                named->0,
                "policy"@,
            )
            &&& r == UiSnapshotOmissionReason::ProtectedAction <==> named is Some && spells(
                named->0,
                "protectedAction"@,
            )
            &&& r == UiSnapshotOmissionReason::DriverUnsupported <==> !(named is Some && (spells(
                named->0,
                "policy"@,
            ) || spells(named->0, "protectedAction"@)))
        }),
{
    lemma_words();
}

/// A UI snapshot that came is handed on as it is. The daemon's word that there is none
/// is an omission with its reason. Every other failure is an error that says what failed.
pub proof fn law_snapshot_replies(reply: Result<Result<Json, String>, BoundedError>)
    ensures
        ({
            let r = session::snapshot_reply(reply);
            let none = reply is Err && reply->Err_0 is Client
                && reply->Err_0->Client_0.failure is RemoteRpc
                && reply->Err_0->Client_0.failure->RemoteRpc_0.data.code@
                == "ui_snapshot_unavailable"@;
            &&& r is Ok && r->Ok_0 is Available <==> reply is Ok && reply->Ok_0 is Ok
            &&& reply is Ok && reply->Ok_0 is Ok ==> r == Ok::<UiSnapshotV, ProviderErrorV>(
                UiSnapshotV::Available(reply->Ok_0->Ok_0@),
            )
            &&& r is Ok && r->Ok_0 is Unavailable <==> none
            &&& none ==> r->Ok_0->Unavailable_0 == session::reason_in(
                crate::json::opt_json(reply->Err_0->Client_0.failure->RemoteRpc_0.data.details),
            )
            &&& reply is Err && !none ==> r == Err::<UiSnapshotV, ProviderErrorV>(
                reply->Err_0.error_in("ui.snapshot.get"@),
            )
            &&& reply is Ok && reply->Ok_0 is Err ==> r is Err && r->Err_0.error_class
                == ErrorClass::TransportLost && r->Err_0.message
                == "ui.snapshot.get result failed to re-serialize: "@ + reply->Ok_0->Err_0@
        }),
{
}

/// A UI snapshot is asked for just where the session is open, the feature was
/// negotiated and the id is one. A refusal tells which of these is missing, in this order.
pub proof fn law_snapshots_are_asked_for(
    s: SessionV,
    negotiated: bool,
    parsed: Result<Seq<char>, Seq<char>>,
)
    ensures
        ({
            let r = session::snapshot_refusal(s, negotiated, parsed);
            &&& r is None <==> !s.ended && negotiated && parsed is Ok
            &&& r matches Some(e) ==> {
                &&& e.error_class == ErrorClass::TransportLost <==> s.ended
                &&& e.error_class == ErrorClass::CapabilityDrift <==> !s.ended && !negotiated
                &&& e.error_class == ErrorClass::BindArgumentsInvalid <==> !s.ended && negotiated
                &&& !s.ended && negotiated ==> e.message
                    == "observationId must be the provider-issued UUID: "@ + parsed->Err_0
            }
        }),
{
}

/// A verdict is written just where the session is open, the summary has at most 16384
/// characters, at most 64 pieces of evidence are cited, and verdicts were negotiated. A
/// refusal tells which of these fails, in this order.
pub proof fn law_verdicts_are_written_within_the_caps(
    s: SessionV,
    negotiated: bool,
    summary: Seq<char>,
    evidence: nat,
)
    ensures
        ({
            let r = session::verdict_refusal(s, negotiated, summary, evidence);
            let fits = summary.len() <= 16384 && evidence <= 64;
            &&& r is None <==> !s.ended && fits && negotiated
            &&& r matches Some(e) ==> {
                &&& e.error_class == ErrorClass::TransportLost <==> s.ended
                &&& e.error_class == ErrorClass::BindArgumentsInvalid <==> !s.ended && !fits
                &&& e.error_class == ErrorClass::CapabilityDrift <==> !s.ended && fits
                &&& !s.ended && summary.len() > 16384 ==> e.message == "verdict summary is "@
                    + text::decimal(summary.len())
                    + " chars; the wire cap is 16384 (fail-closed, 04 §5)"@
                &&& !s.ended && summary.len() <= 16384 && evidence > 64 ==> e.message
                    == "verdict cites "@ + text::decimal(evidence)
                    + " evidence entries; the wire cap is 64 (fail-closed, 04 §5)"@
            }
            &&& session::gate_view().error_class == ErrorClass::CapabilityDrift
        }),
{
}

/// A session is healthy just where the daemon's active session is this one; then its
/// last degradation is told. A failed probe is told in the words of the failure.
pub proof fn law_health_is_the_daemons_word(s: SessionV, probe: Result<Seq<char>, Seq<char>>)
    ensures
        ({
            let r = session::probed_health(s, probe);
            &&& r.0 <==> probe == Ok::<Seq<char>, Seq<char>>(s.session_id)
            &&& r.0 ==> r.1 == s.degraded
            &&& probe is Err ==> r.1 == Some(probe->Err_0)
            &&& !r.0 && probe is Ok ==> r.1 == Some(
                "daemon's active session "@ + probe->Ok_0 + " is not the bound session "@
                    + s.session_id,
            )
        }),
{
}

/// Replies of the daemon are taken word for word: listed ids, pages, probes, and the
/// text of what failed.
pub proof fn law_replies_are_seen_whole(
    listed: Result<Vec<String>, BoundedError>,
    page: Result<Vec<crate::devicerail::wire::LogEvent>, BoundedError>,
    probe: Result<String, BoundedError>,
)
    ensures
        match listed {
            Ok(ids) => session::listed_view(listed) is Ok && session::listed_view(
                listed,
            )->Ok_0.len() == ids@.len() && forall|i: int|
                0 <= i < ids@.len() ==> #[trigger] session::listed_view(listed)->Ok_0[i] == ids@[i]@,
            Err(e) => session::listed_view(listed) == Err::<Seq<Seq<char>>, Seq<char>>(e.text()),
        },
        match page {
            Ok(events) => session::page_view(page) is Ok && session::page_view(page)->Ok_0
                == events@,
            Err(e) => session::page_view(page) is Err && session::page_view(page)->Err_0 == e.text(),
        },
        match probe {
            Ok(id) => session::probe_view(probe) == Ok::<Seq<char>, Seq<char>>(id@),
            Err(e) => session::probe_view(probe) == Err::<Seq<char>, Seq<char>>(e.text()),
        },
{
}

/// The part that an entry names: two entries name a part, one each.
pub open spec fn names_part(entry: JsonV, want: ObserveWant) -> bool {
    match want {
        ObserveWant::Screenshot => entry == JsonV::Text("screenshot"@),
        ObserveWant::UiSnapshot => entry == JsonV::Text("uiSnapshot"@),
    }
}

/// A list of wanted parts is read entry by entry: it is taken just where every entry
/// names a part, and then it has as many parts as entries, each the one that its entry
/// names. Else the first entry that names none is told.
pub proof fn law_wants_are_read_one_by_one(entries: Seq<JsonV>)
    ensures
        match spi::wants_of(entries) {
            Ok(wants) => {
                &&& wants.len() == entries.len()
                &&& forall|i: int|
                    0 <= i < entries.len() ==> names_part(#[trigger] entries[i], wants[i])
            },
            Err(stranger) => exists|i: int|
                0 <= i < entries.len() && #[trigger] entries[i] == stranger && stranger
                    != JsonV::Text("screenshot"@) && stranger != JsonV::Text("uiSnapshot"@) && forall|
                    j: int,
                |
                    0 <= j < i ==> #[trigger] entries[j] == JsonV::Text("screenshot"@)
                        || entries[j] == JsonV::Text("uiSnapshot"@),
        },
    decreases entries.len(),
{
    if entries.len() > 0 {
        let front = entries.drop_last();
        law_wants_are_read_one_by_one(front);
        assert forall|j: int| 0 <= j < front.len() implies front[j] == #[trigger] entries[j] by {}
        match spi::wants_of(front) {
            Ok(wants) => {
                let n = entries.len() - 1;
                assert(entries[n] == entries.last());
                assert forall|j: int| 0 <= j < n implies #[trigger] entries[j] == JsonV::Text(
                    "screenshot"@,
                ) || entries[j] == JsonV::Text("uiSnapshot"@) by {
                    assert(names_part(front[j], wants[j]));
                }
                if spi::want_of(entries.last()) is Some {
                    let all = wants.push(spi::want_of(entries.last())->0);
                    assert forall|i: int| 0 <= i < entries.len() implies names_part(
                        #[trigger] entries[i],
                        all[i],
                    ) by {
                        if i < n {
                            assert(names_part(front[i], wants[i]));
                        }
                    }
                }
            },
            Err(stranger) => {
                let i = choose|i: int|
                    0 <= i < front.len() && #[trigger] front[i] == stranger && stranger
                        != JsonV::Text("screenshot"@) && stranger != JsonV::Text("uiSnapshot"@)
                        && forall|j: int|
                        0 <= j < i ==> #[trigger] front[j] == JsonV::Text("screenshot"@)
                            || front[j] == JsonV::Text("uiSnapshot"@);
                assert(entries[i] == stranger);
                assert forall|j: int| 0 <= j < i implies #[trigger] entries[j] == JsonV::Text(
                    "screenshot"@,
                ) || entries[j] == JsonV::Text("uiSnapshot"@) by {
                    assert(front[j] == entries[j]);
                }
            },
        }
    }
}

/// A call asks for an observation just by the names `screenshot` and `observe`. The
/// first asks for a screenshot, whatever its arguments are. The second asks for the parts
/// that its `wants` list, and is refused where that is no list, an empty one, or names
/// anything else.
pub proof fn law_observation_calls(name: Seq<char>, arguments: JsonV)
    ensures
        ({
            let r = spi::observation_wants(name, arguments);
            let wanted = arguments.member("wants"@);
            &&& r is Ok && r->Ok_0 is None <==> !asks_to_observe(name)
            &&& name == "screenshot"@ ==> r is Ok && r->Ok_0 is Some && r->Ok_0->0.len() == 1
                && r->Ok_0->0[0] == ObserveWant::Screenshot
            &&& name == "observe"@ ==> (r is Ok <==> wanted is Some && wanted->0 is Array
                && wanted->0->Array_0.len() > 0 && forall|i: int|
                0 <= i < wanted->0->Array_0.len() ==> #[trigger] wanted->0->Array_0[i]
                    == JsonV::Text("screenshot"@) || wanted->0->Array_0[i] == JsonV::Text(
                    "uiSnapshot"@,
                ))
            &&& name == "observe"@ && r is Ok ==> r->Ok_0 is Some && r->Ok_0->0.len()
                == wanted->0->Array_0.len() && forall|i: int|
                0 <= i < wanted->0->Array_0.len() ==> names_part(
                    #[trigger] wanted->0->Array_0[i],
                    r->Ok_0->0[i],
                )
            &&& r matches Err(e) ==> e.error_class == ErrorClass::BindArgumentsInvalid
                && e.wire is None && e.client_code is None
            &&& name == "observe"@ && !(wanted is Some && wanted->0 is Array) ==> r->Err_0.message
                == "`observe` requires a `wants` array"@
            &&& name == "observe"@ && wanted is Some && wanted->0 is Array
                && wanted->0->Array_0.len() == 0 ==> r->Err_0.message
                == "`observe` needs at least one part"@
        }),
{
    lemma_words();
    if let Some(JsonV::Array(entries)) = arguments.member("wants"@) {
        law_wants_are_read_one_by_one(entries);
        if let Ok(wants) = spi::wants_of(entries) {
            assert forall|i: int| 0 <= i < entries.len() implies #[trigger] entries[i]
                == JsonV::Text("screenshot"@) || entries[i] == JsonV::Text("uiSnapshot"@) by {
                assert(names_part(entries[i], wants[i]));
            }
        }
    }
}

/// What an observation action puts out holds the id of the observation, and of each
/// part just where it is wanted what there is of it and the reason where there is one;
/// and nothing else.
#[verifier::spinoff_prover]
pub proof fn law_projections_hold_the_wanted_parts(
    o: runtime::ObservationV,
    wants: Seq<ObserveWant>,
)
    ensures
        ({
            let r = spi::projected(o, wants);
            let shot = wants.contains(ObserveWant::Screenshot);
            let tree = wants.contains(ObserveWant::UiSnapshot);
            &&& r is Object
            &&& r.member("observationId"@) == Some(JsonV::Text(o.id))
            &&& shot ==> r.member("screenshot"@) == o.screenshot && r.member(
                "screenshotOmission"@,
            ) == (match o.screenshot_omission {
                Some(reason) => Some(reason.wire_json()),
                None => None,
            })
            &&& !shot ==> r.member("screenshot"@) is None && r.member("screenshotOmission"@) is None
            &&& tree ==> r.member("uiSnapshot"@) == o.ui_snapshot && r.member("uiSnapshotOmission"@)
                == (match o.ui_snapshot_omission {
                Some(reason) => Some(reason.wire_json()),
                None => None,
            })
            &&& !tree ==> r.member("uiSnapshot"@) is None && r.member("uiSnapshotOmission"@) is None
            &&& forall|key: Seq<char>| #[trigger]
                r.member(key) is Some ==> key == "observationId"@ || key == "screenshot"@ || key
                    == "screenshotOmission"@ || key == "uiSnapshot"@ || key == "uiSnapshotOmission"@
        }),
{
    broadcast use
        keyed::lemma_get_after_with,
        keyed::lemma_get_after_with_some,
        keyed::lemma_sorted_after_with,
        keyed::lemma_sorted_after_with_some,
    ;

    lemma_projection_keys();
}

} // verus!
