//! The JSON forms of the events of a run log tell them apart.

use vstd::prelude::*;
use vstd::string::*;

use crate::ir::run_log::{RunLogEvent, RunLogPayload};
use crate::ir::run_log;
use crate::json::JsonV;
use crate::keyed;
use crate::told::Told;
use crate::told;
use crate::wire::Wire;
use crate::wire;

verus! {

proof fn lemma_run_log_payload_keys()
    ensures
        keyed::key_code("hook"@) == 4104107107,
        keyed::key_code("mode"@) == 4109101101,
        keyed::key_code("type"@) == 4116101101,
        keyed::key_code("actor"@) == 5097111114,
        keyed::key_code("frame"@) == 5102109101,
        keyed::key_code("state"@) == 5115116101,
        keyed::key_code("callId"@) == 6099073100,
        keyed::key_code("irHash"@) == 6105115104,
        keyed::key_code("output"@) == 6111117116,
        keyed::key_code("prompt"@) == 6112112116,
        keyed::key_code("reason"@) == 6114111110,
        keyed::key_code("rebase"@) == 6114115101,
        keyed::key_code("stepId"@) == 6115073100,
        keyed::key_code("channel"@) == 7099101108,
        keyed::key_code("outcome"@) == 7111109101,
        keyed::key_code("outputs"@) == 7111116115,
        keyed::key_code("purpose"@) == 7112115101,
        keyed::key_code("trigger"@) == 7116101114,
        keyed::key_code("verdict"@) == 7118099116,
        keyed::key_code("outcomes"@) == 8111101115,
        keyed::key_code("presents"@) == 8112116115,
        keyed::key_code("response"@) == 8114115101,
        keyed::key_code("decisions"@) == 9100111115,
        keyed::key_code("judgeHash"@) == 9106097104,
        keyed::key_code("localized"@) == 9108122100,
        keyed::key_code("requestId"@) == 9114116100,
        keyed::key_code("actionName"@) == 10097097101,
        keyed::key_code("chainIndex"@) == 10099100120,
        keyed::key_code("effectHash"@) == 10101097104,
        keyed::key_code("disposition"@) == 11100105110,
        keyed::key_code("eventCursor"@) == 11101115114,
        keyed::key_code("observation"@) == 11111105110,
        keyed::key_code("argsSnapshot"@) == 12097104116,
        keyed::key_code("deadlineAtMs"@) == 12100116115,
        keyed::key_code("outputSchema"@) == 12111101097,
        keyed::key_code("lockfileDigest"@) == 14108103116,
        keyed::key_code("paramsSnapshot"@) == 14112115116,
        keyed::key_code("resolvedInputs"@) == 14114112115,
        keyed::key_code("alignmentReport"@) == 15097112116,
        keyed::key_code("supervisePolicy"@) == 15115108121,
        keyed::key_code("localizationGaps"@) == 16108071115,
        keyed::key_code("remoteArchivalError"@) == 19114069114,
        keyed::key_code("providerStateSummary"@) == 20112109121,
{
    reveal_strlit("hook");
    reveal_strlit("mode");
    reveal_strlit("type");
    reveal_strlit("actor");
    reveal_strlit("frame");
    reveal_strlit("state");
    reveal_strlit("callId");
    reveal_strlit("irHash");
    reveal_strlit("output");
    reveal_strlit("prompt");
    reveal_strlit("reason");
    reveal_strlit("rebase");
    reveal_strlit("stepId");
    reveal_strlit("channel");
    reveal_strlit("outcome");
    reveal_strlit("outputs");
    reveal_strlit("purpose");
    reveal_strlit("trigger");
    reveal_strlit("verdict");
    reveal_strlit("outcomes");
    reveal_strlit("presents");
    reveal_strlit("response");
    reveal_strlit("decisions");
    reveal_strlit("judgeHash");
    reveal_strlit("localized");
    reveal_strlit("requestId");
    reveal_strlit("actionName");
    reveal_strlit("chainIndex");
    reveal_strlit("effectHash");
    reveal_strlit("disposition");
    reveal_strlit("eventCursor");
    reveal_strlit("observation");
    reveal_strlit("argsSnapshot");
    reveal_strlit("deadlineAtMs");
    reveal_strlit("outputSchema");
    reveal_strlit("lockfileDigest");
    reveal_strlit("paramsSnapshot");
    reveal_strlit("resolvedInputs");
    reveal_strlit("alignmentReport");
    reveal_strlit("supervisePolicy");
    reveal_strlit("localizationGaps");
    reveal_strlit("remoteArchivalError");
    reveal_strlit("providerStateSummary");
}

proof fn lemma_run_log_payload_tags()
    ensures
        keyed::key_code("runResumed"@) == 10114109100,
        keyed::key_code("runStarted"@) == 10114116100,
        keyed::key_code("stepExited"@) == 10115116100,
        keyed::key_code("runFinished"@) == 11114104100,
        keyed::key_code("stepEntered"@) == 11115114100,
        keyed::key_code("actionIntent"@) == 12097101116,
        keyed::key_code("runSuspended"@) == 12114100100,
        keyed::key_code("actionSettled"@) == 13097116100,
        keyed::key_code("humanRequested"@) == 14104115100,
        keyed::key_code("humanResponded"@) == 14104110100,
        keyed::key_code("callFramePopped"@) == 15099112100,
        keyed::key_code("callFramePushed"@) == 15099115100,
        keyed::key_code("preflightProbed"@) == 15112111100,
        keyed::key_code("verdictRecorded"@) == 15118114100,
        keyed::key_code("handlerTriggered"@) == 16104101100,
        keyed::key_code("assertionEvaluated"@) == 18097117100,
        keyed::key_code("observationRecorded"@) == 19111111100,
{
    reveal_strlit("runResumed");
    reveal_strlit("runStarted");
    reveal_strlit("stepExited");
    reveal_strlit("runFinished");
    reveal_strlit("stepEntered");
    reveal_strlit("actionIntent");
    reveal_strlit("runSuspended");
    reveal_strlit("actionSettled");
    reveal_strlit("humanRequested");
    reveal_strlit("humanResponded");
    reveal_strlit("callFramePopped");
    reveal_strlit("callFramePushed");
    reveal_strlit("preflightProbed");
    reveal_strlit("verdictRecorded");
    reveal_strlit("handlerTriggered");
    reveal_strlit("assertionEvaluated");
    reveal_strlit("observationRecorded");
}

proof fn lemma_run_started_form(v: RunLogPayload)
    requires
        v is RunStarted,
    ensures
        v.wire_json() is Object,
        match v {
            RunLogPayload::RunStarted {
                ir_hash,
                lockfile_digest,
                params_snapshot,
                supervise_policy,
            } => {
                &&& v.wire_json().member("type"@) == Some(JsonV::Text("runStarted"@))
                &&& v.wire_json().member("irHash"@) == Some(ir_hash.wire_json())
                &&& v.wire_json().member("lockfileDigest"@) == Some(lockfile_digest.wire_json())
                &&& v.wire_json().member("paramsSnapshot"@) == Some(params_snapshot.wire_json())
                &&& v.wire_json().member("supervisePolicy"@)
                    == Some(wire::wire_or_null(supervise_policy))
                &&& forall|key: Seq<char>| #[trigger]
                    v.wire_json().member(key) is Some ==> key == "type"@ || key == "irHash"@
                        || key == "lockfileDigest"@ || key == "paramsSnapshot"@
                        || key == "supervisePolicy"@
            },
            _ => false,
        },
{
    broadcast use
        keyed::lemma_get_after_with,
        keyed::lemma_get_after_with_some,
        keyed::lemma_sorted_after_with,
        keyed::lemma_sorted_after_with_some,
    ;

    lemma_run_log_payload_keys();
}

proof fn lemma_step_entered_form(v: RunLogPayload)
    requires
        v is StepEntered,
    ensures
        v.wire_json() is Object,
        match v {
            RunLogPayload::StepEntered { step_id, effect_hash, judge_hash, resolved_inputs } => {
                &&& v.wire_json().member("type"@) == Some(JsonV::Text("stepEntered"@))
                &&& v.wire_json().member("stepId"@) == Some(step_id.wire_json())
                &&& v.wire_json().member("effectHash"@) == Some(effect_hash.wire_json())
                &&& v.wire_json().member("judgeHash"@) == Some(judge_hash.wire_json())
                &&& v.wire_json().member("resolvedInputs"@) == Some(resolved_inputs.wire_json())
                &&& forall|key: Seq<char>| #[trigger]
                    v.wire_json().member(key) is Some ==> key == "type"@ || key == "stepId"@
                        || key == "effectHash"@ || key == "judgeHash"@ || key == "resolvedInputs"@
            },
            _ => false,
        },
{
    broadcast use
        keyed::lemma_get_after_with,
        keyed::lemma_get_after_with_some,
        keyed::lemma_sorted_after_with,
        keyed::lemma_sorted_after_with_some,
    ;

    lemma_run_log_payload_keys();
}

proof fn lemma_preflight_probed_form(v: RunLogPayload)
    requires
        v is PreflightProbed,
    ensures
        v.wire_json() is Object,
        match v {
            RunLogPayload::PreflightProbed { outcomes } => {
                &&& v.wire_json().member("type"@) == Some(JsonV::Text("preflightProbed"@))
                &&& v.wire_json().member("outcomes"@) == Some(outcomes.wire_json())
                &&& forall|key: Seq<char>| #[trigger]
                    v.wire_json().member(key) is Some ==> key == "type"@ || key == "outcomes"@
            },
            _ => false,
        },
{
    broadcast use
        keyed::lemma_get_after_with,
        keyed::lemma_get_after_with_some,
        keyed::lemma_sorted_after_with,
        keyed::lemma_sorted_after_with_some,
    ;

    lemma_run_log_payload_keys();
}

proof fn lemma_action_intent_form(v: RunLogPayload)
    requires
        v is ActionIntent,
    ensures
        v.wire_json() is Object,
        match v {
            RunLogPayload::ActionIntent {
                call_id,
                args_snapshot,
                chain_index,
                channel,
                action_name,
            } => {
                &&& v.wire_json().member("type"@) == Some(JsonV::Text("actionIntent"@))
                &&& v.wire_json().member("callId"@) == Some(call_id.wire_json())
                &&& v.wire_json().member("argsSnapshot"@) == Some(args_snapshot.wire_json())
                &&& v.wire_json().member("chainIndex"@) == wire::wire_some(chain_index)
                &&& v.wire_json().member("channel"@) == wire::wire_some(channel)
                &&& v.wire_json().member("actionName"@) == wire::wire_some(action_name)
                &&& forall|key: Seq<char>| #[trigger]
                    v.wire_json().member(key) is Some ==> key == "type"@ || key == "callId"@
                        || key == "argsSnapshot"@ || key == "chainIndex"@ || key == "channel"@
                        || key == "actionName"@
            },
            _ => false,
        },
{
    broadcast use
        keyed::lemma_get_after_with,
        keyed::lemma_get_after_with_some,
        keyed::lemma_sorted_after_with,
        keyed::lemma_sorted_after_with_some,
    ;

    lemma_run_log_payload_keys();
}

proof fn lemma_action_settled_form(v: RunLogPayload)
    requires
        v is ActionSettled,
    ensures
        v.wire_json() is Object,
        match v {
            RunLogPayload::ActionSettled { call_id, outcome } => {
                &&& v.wire_json().member("type"@) == Some(JsonV::Text("actionSettled"@))
                &&& v.wire_json().member("callId"@) == Some(call_id.wire_json())
                &&& v.wire_json().member("outcome"@) == Some(outcome.wire_json())
                &&& forall|key: Seq<char>| #[trigger]
                    v.wire_json().member(key) is Some ==> key == "type"@ || key == "callId"@
                        || key == "outcome"@
            },
            _ => false,
        },
{
    broadcast use
        keyed::lemma_get_after_with,
        keyed::lemma_get_after_with_some,
        keyed::lemma_sorted_after_with,
        keyed::lemma_sorted_after_with_some,
    ;

    lemma_run_log_payload_keys();
}

proof fn lemma_observation_recorded_form(v: RunLogPayload)
    requires
        v is ObservationRecorded,
    ensures
        v.wire_json() is Object,
        match v {
            RunLogPayload::ObservationRecorded { observation } => {
                &&& v.wire_json().member("type"@) == Some(JsonV::Text("observationRecorded"@))
                &&& v.wire_json().member("observation"@) == Some(observation.wire_json())
                &&& forall|key: Seq<char>| #[trigger]
                    v.wire_json().member(key) is Some ==> key == "type"@ || key == "observation"@
            },
            _ => false,
        },
{
    broadcast use
        keyed::lemma_get_after_with,
        keyed::lemma_get_after_with_some,
        keyed::lemma_sorted_after_with,
        keyed::lemma_sorted_after_with_some,
    ;

    lemma_run_log_payload_keys();
}

proof fn lemma_assertion_evaluated_form(v: RunLogPayload)
    requires
        v is AssertionEvaluated,
    ensures
        v.wire_json() is Object,
        match v {
            RunLogPayload::AssertionEvaluated { outcome } => {
                &&& v.wire_json().member("type"@) == Some(JsonV::Text("assertionEvaluated"@))
                &&& v.wire_json().member("outcome"@) == Some(outcome.wire_json())
                &&& forall|key: Seq<char>| #[trigger]
                    v.wire_json().member(key) is Some ==> key == "type"@ || key == "outcome"@
            },
            _ => false,
        },
{
    broadcast use
        keyed::lemma_get_after_with,
        keyed::lemma_get_after_with_some,
        keyed::lemma_sorted_after_with,
        keyed::lemma_sorted_after_with_some,
    ;

    lemma_run_log_payload_keys();
}

proof fn lemma_verdict_recorded_form(v: RunLogPayload)
    requires
        v is VerdictRecorded,
    ensures
        v.wire_json() is Object,
        match v {
            RunLogPayload::VerdictRecorded {
                verdict,
                localized,
                localization_gaps,
                remote_archival_error,
            } => {
                &&& v.wire_json().member("type"@) == Some(JsonV::Text("verdictRecorded"@))
                &&& v.wire_json().member("verdict"@) == Some(verdict.wire_json())
                &&& v.wire_json().member("localized"@) == wire::wire_nonempty(localized@)
                &&& v.wire_json().member("localizationGaps"@)
                    == wire::wire_nonempty(localization_gaps@)
                &&& v.wire_json().member("remoteArchivalError"@)
                    == wire::wire_some(remote_archival_error)
                &&& forall|key: Seq<char>| #[trigger]
                    v.wire_json().member(key) is Some ==> key == "type"@ || key == "verdict"@
                        || key == "localized"@ || key == "localizationGaps"@
                        || key == "remoteArchivalError"@
            },
            _ => false,
        },
{
    broadcast use
        keyed::lemma_get_after_with,
        keyed::lemma_get_after_with_some,
        keyed::lemma_sorted_after_with,
        keyed::lemma_sorted_after_with_some,
    ;

    lemma_run_log_payload_keys();
}

proof fn lemma_step_exited_form(v: RunLogPayload)
    requires
        v is StepExited,
    ensures
        v.wire_json() is Object,
        match v {
            RunLogPayload::StepExited {
                state,
                output,
                provider_state_summary,
                localized,
                localization_gaps,
            } => {
                &&& v.wire_json().member("type"@) == Some(JsonV::Text("stepExited"@))
                &&& v.wire_json().member("state"@) == Some(state.wire_json())
                &&& v.wire_json().member("output"@) == wire::wire_some(output)
                &&& v.wire_json().member("providerStateSummary"@)
                    == wire::wire_some(provider_state_summary)
                &&& v.wire_json().member("localized"@) == wire::wire_nonempty(localized@)
                &&& v.wire_json().member("localizationGaps"@)
                    == wire::wire_nonempty(localization_gaps@)
                &&& forall|key: Seq<char>| #[trigger]
                    v.wire_json().member(key) is Some ==> key == "type"@ || key == "state"@
                        || key == "output"@ || key == "providerStateSummary"@ || key == "localized"@
                        || key == "localizationGaps"@
            },
            _ => false,
        },
{
    broadcast use
        keyed::lemma_get_after_with,
        keyed::lemma_get_after_with_some,
        keyed::lemma_sorted_after_with,
        keyed::lemma_sorted_after_with_some,
    ;

    lemma_run_log_payload_keys();
}

proof fn lemma_call_frame_pushed_form(v: RunLogPayload)
    requires
        v is CallFramePushed,
    ensures
        v.wire_json() is Object,
        match v {
            RunLogPayload::CallFramePushed { frame, rebase } => {
                &&& v.wire_json().member("type"@) == Some(JsonV::Text("callFramePushed"@))
                &&& v.wire_json().member("frame"@) == Some(frame.wire_json())
                &&& v.wire_json().member("rebase"@) == wire::wire_if_true(rebase)
                &&& forall|key: Seq<char>| #[trigger]
                    v.wire_json().member(key) is Some ==> key == "type"@ || key == "frame"@
                        || key == "rebase"@
            },
            _ => false,
        },
{
    broadcast use
        keyed::lemma_get_after_with,
        keyed::lemma_get_after_with_some,
        keyed::lemma_sorted_after_with,
        keyed::lemma_sorted_after_with_some,
    ;

    lemma_run_log_payload_keys();
}

proof fn lemma_call_frame_popped_form(v: RunLogPayload)
    requires
        v is CallFramePopped,
    ensures
        v.wire_json() is Object,
        match v {
            RunLogPayload::CallFramePopped { outputs } => {
                &&& v.wire_json().member("type"@) == Some(JsonV::Text("callFramePopped"@))
                &&& v.wire_json().member("outputs"@) == Some(wire::wire_or_null(outputs))
                &&& forall|key: Seq<char>| #[trigger]
                    v.wire_json().member(key) is Some ==> key == "type"@ || key == "outputs"@
            },
            _ => false,
        },
{
    broadcast use
        keyed::lemma_get_after_with,
        keyed::lemma_get_after_with_some,
        keyed::lemma_sorted_after_with,
        keyed::lemma_sorted_after_with_some,
    ;

    lemma_run_log_payload_keys();
}

proof fn lemma_handler_triggered_form(v: RunLogPayload)
    requires
        v is HandlerTriggered,
    ensures
        v.wire_json() is Object,
        match v {
            RunLogPayload::HandlerTriggered { hook, trigger, disposition } => {
                &&& v.wire_json().member("type"@) == Some(JsonV::Text("handlerTriggered"@))
                &&& v.wire_json().member("hook"@) == Some(hook.wire_json())
                &&& v.wire_json().member("trigger"@) == Some(trigger.wire_json())
                &&& v.wire_json().member("disposition"@) == wire::wire_some(disposition)
                &&& forall|key: Seq<char>| #[trigger]
                    v.wire_json().member(key) is Some ==> key == "type"@ || key == "hook"@
                        || key == "trigger"@ || key == "disposition"@
            },
            _ => false,
        },
{
    broadcast use
        keyed::lemma_get_after_with,
        keyed::lemma_get_after_with_some,
        keyed::lemma_sorted_after_with,
        keyed::lemma_sorted_after_with_some,
    ;

    lemma_run_log_payload_keys();
}

proof fn lemma_human_requested_form(v: RunLogPayload)
    requires
        v is HumanRequested,
    ensures
        v.wire_json() is Object,
        match v {
            RunLogPayload::HumanRequested {
                request_id,
                purpose,
                mode,
                prompt,
                presents,
                decisions,
                output_schema,
                deadline_at_ms,
            } => {
                &&& v.wire_json().member("type"@) == Some(JsonV::Text("humanRequested"@))
                &&& v.wire_json().member("requestId"@) == Some(request_id.wire_json())
                &&& v.wire_json().member("purpose"@) == Some(purpose.wire_json())
                &&& v.wire_json().member("mode"@) == wire::wire_some(mode)
                &&& v.wire_json().member("prompt"@) == Some(prompt.wire_json())
                &&& v.wire_json().member("presents"@) == Some(presents.wire_json())
                &&& v.wire_json().member("decisions"@) == wire::wire_some(decisions)
                &&& v.wire_json().member("outputSchema"@) == wire::wire_some(output_schema)
                &&& v.wire_json().member("deadlineAtMs"@) == wire::wire_some(deadline_at_ms)
                &&& forall|key: Seq<char>| #[trigger]
                    v.wire_json().member(key) is Some ==> key == "type"@ || key == "requestId"@
                        || key == "purpose"@ || key == "mode"@ || key == "prompt"@
                        || key == "presents"@ || key == "decisions"@ || key == "outputSchema"@
                        || key == "deadlineAtMs"@
            },
            _ => false,
        },
{
    broadcast use
        keyed::lemma_get_after_with,
        keyed::lemma_get_after_with_some,
        keyed::lemma_sorted_after_with,
        keyed::lemma_sorted_after_with_some,
    ;

    lemma_run_log_payload_keys();
}

proof fn lemma_human_responded_form(v: RunLogPayload)
    requires
        v is HumanResponded,
    ensures
        v.wire_json() is Object,
        match v {
            RunLogPayload::HumanResponded { request_id, purpose, response, actor } => {
                &&& v.wire_json().member("type"@) == Some(JsonV::Text("humanResponded"@))
                &&& v.wire_json().member("requestId"@) == Some(request_id.wire_json())
                &&& v.wire_json().member("purpose"@) == Some(purpose.wire_json())
                &&& v.wire_json().member("response"@) == Some(response.wire_json())
                &&& v.wire_json().member("actor"@) == Some(actor.wire_json())
                &&& forall|key: Seq<char>| #[trigger]
                    v.wire_json().member(key) is Some ==> key == "type"@ || key == "requestId"@
                        || key == "purpose"@ || key == "response"@ || key == "actor"@
            },
            _ => false,
        },
{
    broadcast use
        keyed::lemma_get_after_with,
        keyed::lemma_get_after_with_some,
        keyed::lemma_sorted_after_with,
        keyed::lemma_sorted_after_with_some,
    ;

    lemma_run_log_payload_keys();
}

proof fn lemma_run_suspended_form(v: RunLogPayload)
    requires
        v is RunSuspended,
    ensures
        v.wire_json() is Object,
        match v {
            RunLogPayload::RunSuspended { reason, provider_state_summary } => {
                &&& v.wire_json().member("type"@) == Some(JsonV::Text("runSuspended"@))
                &&& v.wire_json().member("reason"@) == Some(wire::wire_or_null(reason))
                &&& v.wire_json().member("providerStateSummary"@)
                    == wire::wire_some(provider_state_summary)
                &&& forall|key: Seq<char>| #[trigger]
                    v.wire_json().member(key) is Some ==> key == "type"@ || key == "reason"@
                        || key == "providerStateSummary"@
            },
            _ => false,
        },
{
    broadcast use
        keyed::lemma_get_after_with,
        keyed::lemma_get_after_with_some,
        keyed::lemma_sorted_after_with,
        keyed::lemma_sorted_after_with_some,
    ;

    lemma_run_log_payload_keys();
}

proof fn lemma_run_resumed_form(v: RunLogPayload)
    requires
        v is RunResumed,
    ensures
        v.wire_json() is Object,
        match v {
            RunLogPayload::RunResumed { alignment_report, supervise_policy, event_cursor } => {
                &&& v.wire_json().member("type"@) == Some(JsonV::Text("runResumed"@))
                &&& v.wire_json().member("alignmentReport"@) == Some(alignment_report.wire_json())
                &&& v.wire_json().member("supervisePolicy"@)
                    == Some(wire::wire_or_null(supervise_policy))
                &&& v.wire_json().member("eventCursor"@) == wire::wire_some(event_cursor)
                &&& forall|key: Seq<char>| #[trigger]
                    v.wire_json().member(key) is Some ==> key == "type"@
                        || key == "alignmentReport"@ || key == "supervisePolicy"@
                        || key == "eventCursor"@
            },
            _ => false,
        },
{
    broadcast use
        keyed::lemma_get_after_with,
        keyed::lemma_get_after_with_some,
        keyed::lemma_sorted_after_with,
        keyed::lemma_sorted_after_with_some,
    ;

    lemma_run_log_payload_keys();
}

proof fn lemma_run_finished_form(v: RunLogPayload)
    requires
        v is RunFinished,
    ensures
        v.wire_json() is Object,
        match v {
            RunLogPayload::RunFinished { verdict, remote_archival_error } => {
                &&& v.wire_json().member("type"@) == Some(JsonV::Text("runFinished"@))
                &&& v.wire_json().member("verdict"@) == Some(wire::wire_or_null(verdict))
                &&& v.wire_json().member("remoteArchivalError"@)
                    == wire::wire_some(remote_archival_error)
                &&& forall|key: Seq<char>| #[trigger]
                    v.wire_json().member(key) is Some ==> key == "type"@ || key == "verdict"@
                        || key == "remoteArchivalError"@
            },
            _ => false,
        },
{
    broadcast use
        keyed::lemma_get_after_with,
        keyed::lemma_get_after_with_some,
        keyed::lemma_sorted_after_with,
        keyed::lemma_sorted_after_with_some,
    ;

    lemma_run_log_payload_keys();
}

/// The JSON form of [`RunLogPayload`] names its kind and holds every field of that kind
/// under its name, and nothing else.
#[verifier::spinoff_prover]
#[verifier::rlimit(60)]
pub proof fn law_run_log_payload_form(v: RunLogPayload)
    ensures
        v.wire_json() is Object,
        match v {
            RunLogPayload::RunStarted {
                ir_hash,
                lockfile_digest,
                params_snapshot,
                supervise_policy,
            } => {
                &&& v.wire_json().member("type"@) == Some(JsonV::Text("runStarted"@))
                &&& v.wire_json().member("irHash"@) == Some(ir_hash.wire_json())
                &&& v.wire_json().member("lockfileDigest"@) == Some(lockfile_digest.wire_json())
                &&& v.wire_json().member("paramsSnapshot"@) == Some(params_snapshot.wire_json())
                &&& v.wire_json().member("supervisePolicy"@)
                    == Some(wire::wire_or_null(supervise_policy))
                &&& forall|key: Seq<char>| #[trigger]
                    v.wire_json().member(key) is Some ==> key == "type"@ || key == "irHash"@
                        || key == "lockfileDigest"@ || key == "paramsSnapshot"@
                        || key == "supervisePolicy"@
            },
            RunLogPayload::StepEntered { step_id, effect_hash, judge_hash, resolved_inputs } => {
                &&& v.wire_json().member("type"@) == Some(JsonV::Text("stepEntered"@))
                &&& v.wire_json().member("stepId"@) == Some(step_id.wire_json())
                &&& v.wire_json().member("effectHash"@) == Some(effect_hash.wire_json())
                &&& v.wire_json().member("judgeHash"@) == Some(judge_hash.wire_json())
                &&& v.wire_json().member("resolvedInputs"@) == Some(resolved_inputs.wire_json())
                &&& forall|key: Seq<char>| #[trigger]
                    v.wire_json().member(key) is Some ==> key == "type"@ || key == "stepId"@
                        || key == "effectHash"@ || key == "judgeHash"@ || key == "resolvedInputs"@
            },
            RunLogPayload::PreflightProbed { outcomes } => {
                &&& v.wire_json().member("type"@) == Some(JsonV::Text("preflightProbed"@))
                &&& v.wire_json().member("outcomes"@) == Some(outcomes.wire_json())
                &&& forall|key: Seq<char>| #[trigger]
                    v.wire_json().member(key) is Some ==> key == "type"@ || key == "outcomes"@
            },
            RunLogPayload::ActionIntent {
                call_id,
                args_snapshot,
                chain_index,
                channel,
                action_name,
            } => {
                &&& v.wire_json().member("type"@) == Some(JsonV::Text("actionIntent"@))
                &&& v.wire_json().member("callId"@) == Some(call_id.wire_json())
                &&& v.wire_json().member("argsSnapshot"@) == Some(args_snapshot.wire_json())
                &&& v.wire_json().member("chainIndex"@) == wire::wire_some(chain_index)
                &&& v.wire_json().member("channel"@) == wire::wire_some(channel)
                &&& v.wire_json().member("actionName"@) == wire::wire_some(action_name)
                &&& forall|key: Seq<char>| #[trigger]
                    v.wire_json().member(key) is Some ==> key == "type"@ || key == "callId"@
                        || key == "argsSnapshot"@ || key == "chainIndex"@ || key == "channel"@
                        || key == "actionName"@
            },
            RunLogPayload::ActionSettled { call_id, outcome } => {
                &&& v.wire_json().member("type"@) == Some(JsonV::Text("actionSettled"@))
                &&& v.wire_json().member("callId"@) == Some(call_id.wire_json())
                &&& v.wire_json().member("outcome"@) == Some(outcome.wire_json())
                &&& forall|key: Seq<char>| #[trigger]
                    v.wire_json().member(key) is Some ==> key == "type"@ || key == "callId"@
                        || key == "outcome"@
            },
            RunLogPayload::ObservationRecorded { observation } => {
                &&& v.wire_json().member("type"@) == Some(JsonV::Text("observationRecorded"@))
                &&& v.wire_json().member("observation"@) == Some(observation.wire_json())
                &&& forall|key: Seq<char>| #[trigger]
                    v.wire_json().member(key) is Some ==> key == "type"@ || key == "observation"@
            },
            RunLogPayload::AssertionEvaluated { outcome } => {
                &&& v.wire_json().member("type"@) == Some(JsonV::Text("assertionEvaluated"@))
                &&& v.wire_json().member("outcome"@) == Some(outcome.wire_json())
                &&& forall|key: Seq<char>| #[trigger]
                    v.wire_json().member(key) is Some ==> key == "type"@ || key == "outcome"@
            },
            RunLogPayload::VerdictRecorded {
                verdict,
                localized,
                localization_gaps,
                remote_archival_error,
            } => {
                &&& v.wire_json().member("type"@) == Some(JsonV::Text("verdictRecorded"@))
                &&& v.wire_json().member("verdict"@) == Some(verdict.wire_json())
                &&& v.wire_json().member("localized"@) == wire::wire_nonempty(localized@)
                &&& v.wire_json().member("localizationGaps"@)
                    == wire::wire_nonempty(localization_gaps@)
                &&& v.wire_json().member("remoteArchivalError"@)
                    == wire::wire_some(remote_archival_error)
                &&& forall|key: Seq<char>| #[trigger]
                    v.wire_json().member(key) is Some ==> key == "type"@ || key == "verdict"@
                        || key == "localized"@ || key == "localizationGaps"@
                        || key == "remoteArchivalError"@
            },
            RunLogPayload::StepExited {
                state,
                output,
                provider_state_summary,
                localized,
                localization_gaps,
            } => {
                &&& v.wire_json().member("type"@) == Some(JsonV::Text("stepExited"@))
                &&& v.wire_json().member("state"@) == Some(state.wire_json())
                &&& v.wire_json().member("output"@) == wire::wire_some(output)
                &&& v.wire_json().member("providerStateSummary"@)
                    == wire::wire_some(provider_state_summary)
                &&& v.wire_json().member("localized"@) == wire::wire_nonempty(localized@)
                &&& v.wire_json().member("localizationGaps"@)
                    == wire::wire_nonempty(localization_gaps@)
                &&& forall|key: Seq<char>| #[trigger]
                    v.wire_json().member(key) is Some ==> key == "type"@ || key == "state"@
                        || key == "output"@ || key == "providerStateSummary"@ || key == "localized"@
                        || key == "localizationGaps"@
            },
            RunLogPayload::CallFramePushed { frame, rebase } => {
                &&& v.wire_json().member("type"@) == Some(JsonV::Text("callFramePushed"@))
                &&& v.wire_json().member("frame"@) == Some(frame.wire_json())
                &&& v.wire_json().member("rebase"@) == wire::wire_if_true(rebase)
                &&& forall|key: Seq<char>| #[trigger]
                    v.wire_json().member(key) is Some ==> key == "type"@ || key == "frame"@
                        || key == "rebase"@
            },
            RunLogPayload::CallFramePopped { outputs } => {
                &&& v.wire_json().member("type"@) == Some(JsonV::Text("callFramePopped"@))
                &&& v.wire_json().member("outputs"@) == Some(wire::wire_or_null(outputs))
                &&& forall|key: Seq<char>| #[trigger]
                    v.wire_json().member(key) is Some ==> key == "type"@ || key == "outputs"@
            },
            RunLogPayload::HandlerTriggered { hook, trigger, disposition } => {
                &&& v.wire_json().member("type"@) == Some(JsonV::Text("handlerTriggered"@))
                &&& v.wire_json().member("hook"@) == Some(hook.wire_json())
                &&& v.wire_json().member("trigger"@) == Some(trigger.wire_json())
                &&& v.wire_json().member("disposition"@) == wire::wire_some(disposition)
                &&& forall|key: Seq<char>| #[trigger]
                    v.wire_json().member(key) is Some ==> key == "type"@ || key == "hook"@
                        || key == "trigger"@ || key == "disposition"@
            },
            RunLogPayload::HumanRequested {
                request_id,
                purpose,
                mode,
                prompt,
                presents,
                decisions,
                output_schema,
                deadline_at_ms,
            } => {
                &&& v.wire_json().member("type"@) == Some(JsonV::Text("humanRequested"@))
                &&& v.wire_json().member("requestId"@) == Some(request_id.wire_json())
                &&& v.wire_json().member("purpose"@) == Some(purpose.wire_json())
                &&& v.wire_json().member("mode"@) == wire::wire_some(mode)
                &&& v.wire_json().member("prompt"@) == Some(prompt.wire_json())
                &&& v.wire_json().member("presents"@) == Some(presents.wire_json())
                &&& v.wire_json().member("decisions"@) == wire::wire_some(decisions)
                &&& v.wire_json().member("outputSchema"@) == wire::wire_some(output_schema)
                &&& v.wire_json().member("deadlineAtMs"@) == wire::wire_some(deadline_at_ms)
                &&& forall|key: Seq<char>| #[trigger]
                    v.wire_json().member(key) is Some ==> key == "type"@ || key == "requestId"@
                        || key == "purpose"@ || key == "mode"@ || key == "prompt"@
                        || key == "presents"@ || key == "decisions"@ || key == "outputSchema"@
                        || key == "deadlineAtMs"@
            },
            RunLogPayload::HumanResponded { request_id, purpose, response, actor } => {
                &&& v.wire_json().member("type"@) == Some(JsonV::Text("humanResponded"@))
                &&& v.wire_json().member("requestId"@) == Some(request_id.wire_json())
                &&& v.wire_json().member("purpose"@) == Some(purpose.wire_json())
                &&& v.wire_json().member("response"@) == Some(response.wire_json())
                &&& v.wire_json().member("actor"@) == Some(actor.wire_json())
                &&& forall|key: Seq<char>| #[trigger]
                    v.wire_json().member(key) is Some ==> key == "type"@ || key == "requestId"@
                        || key == "purpose"@ || key == "response"@ || key == "actor"@
            },
            RunLogPayload::RunSuspended { reason, provider_state_summary } => {
                &&& v.wire_json().member("type"@) == Some(JsonV::Text("runSuspended"@))
                &&& v.wire_json().member("reason"@) == Some(wire::wire_or_null(reason))
                &&& v.wire_json().member("providerStateSummary"@)
                    == wire::wire_some(provider_state_summary)
                &&& forall|key: Seq<char>| #[trigger]
                    v.wire_json().member(key) is Some ==> key == "type"@ || key == "reason"@
                        || key == "providerStateSummary"@
            },
            RunLogPayload::RunResumed { alignment_report, supervise_policy, event_cursor } => {
                &&& v.wire_json().member("type"@) == Some(JsonV::Text("runResumed"@))
                &&& v.wire_json().member("alignmentReport"@) == Some(alignment_report.wire_json())
                &&& v.wire_json().member("supervisePolicy"@)
                    == Some(wire::wire_or_null(supervise_policy))
                &&& v.wire_json().member("eventCursor"@) == wire::wire_some(event_cursor)
                &&& forall|key: Seq<char>| #[trigger]
                    v.wire_json().member(key) is Some ==> key == "type"@
                        || key == "alignmentReport"@ || key == "supervisePolicy"@
                        || key == "eventCursor"@
            },
            RunLogPayload::RunFinished { verdict, remote_archival_error } => {
                &&& v.wire_json().member("type"@) == Some(JsonV::Text("runFinished"@))
                &&& v.wire_json().member("verdict"@) == Some(wire::wire_or_null(verdict))
                &&& v.wire_json().member("remoteArchivalError"@)
                    == wire::wire_some(remote_archival_error)
                &&& forall|key: Seq<char>| #[trigger]
                    v.wire_json().member(key) is Some ==> key == "type"@ || key == "verdict"@
                        || key == "remoteArchivalError"@
            },
        },
{
    match v {
        RunLogPayload::RunStarted { .. } => lemma_run_started_form(v),
        RunLogPayload::StepEntered { .. } => lemma_step_entered_form(v),
        RunLogPayload::PreflightProbed { .. } => lemma_preflight_probed_form(v),
        RunLogPayload::ActionIntent { .. } => lemma_action_intent_form(v),
        RunLogPayload::ActionSettled { .. } => lemma_action_settled_form(v),
        RunLogPayload::ObservationRecorded { .. } => lemma_observation_recorded_form(v),
        RunLogPayload::AssertionEvaluated { .. } => lemma_assertion_evaluated_form(v),
        RunLogPayload::VerdictRecorded { .. } => lemma_verdict_recorded_form(v),
        RunLogPayload::StepExited { .. } => lemma_step_exited_form(v),
        RunLogPayload::CallFramePushed { .. } => lemma_call_frame_pushed_form(v),
        RunLogPayload::CallFramePopped { .. } => lemma_call_frame_popped_form(v),
        RunLogPayload::HandlerTriggered { .. } => lemma_handler_triggered_form(v),
        RunLogPayload::HumanRequested { .. } => lemma_human_requested_form(v),
        RunLogPayload::HumanResponded { .. } => lemma_human_responded_form(v),
        RunLogPayload::RunSuspended { .. } => lemma_run_suspended_form(v),
        RunLogPayload::RunResumed { .. } => lemma_run_resumed_form(v),
        RunLogPayload::RunFinished { .. } => lemma_run_finished_form(v),
    }
}

impl Told for RunLogPayload {
    open spec fn ordered(&self) -> bool {
        match *self {
            RunLogPayload::ActionSettled { outcome, .. } => outcome.ordered(),
            RunLogPayload::CallFramePushed { frame, .. } => frame.ordered(),
            _ => true,
        }
    }

    open spec fn same(&self, other: &Self) -> bool {
        match (*self, *other) {
            (
                RunLogPayload::RunStarted {
                    ir_hash: a_ir_hash,
                    lockfile_digest: a_lockfile_digest,
                    params_snapshot: a_params_snapshot,
                    supervise_policy: a_supervise_policy,
                },
                RunLogPayload::RunStarted {
                    ir_hash: b_ir_hash,
                    lockfile_digest: b_lockfile_digest,
                    params_snapshot: b_params_snapshot,
                    supervise_policy: b_supervise_policy,
                },
            ) => {
                &&& a_ir_hash.same(&b_ir_hash)
                &&& a_lockfile_digest.same(&b_lockfile_digest)
                &&& a_params_snapshot.same(&b_params_snapshot)
                &&& told::same_some(a_supervise_policy, b_supervise_policy)
            },
            (
                RunLogPayload::StepEntered {
                    step_id: a_step_id,
                    effect_hash: a_effect_hash,
                    judge_hash: a_judge_hash,
                    resolved_inputs: a_resolved_inputs,
                },
                RunLogPayload::StepEntered {
                    step_id: b_step_id,
                    effect_hash: b_effect_hash,
                    judge_hash: b_judge_hash,
                    resolved_inputs: b_resolved_inputs,
                },
            ) => {
                &&& a_step_id.same(&b_step_id)
                &&& a_effect_hash.same(&b_effect_hash)
                &&& a_judge_hash.same(&b_judge_hash)
                &&& a_resolved_inputs.same(&b_resolved_inputs)
            },
            (
                RunLogPayload::PreflightProbed { outcomes: a_outcomes },
                RunLogPayload::PreflightProbed { outcomes: b_outcomes },
            ) => a_outcomes.same(&b_outcomes),
            (
                RunLogPayload::ActionIntent {
                    call_id: a_call_id,
                    args_snapshot: a_args_snapshot,
                    chain_index: a_chain_index,
                    channel: a_channel,
                    action_name: a_action_name,
                },
                RunLogPayload::ActionIntent {
                    call_id: b_call_id,
                    args_snapshot: b_args_snapshot,
                    chain_index: b_chain_index,
                    channel: b_channel,
                    action_name: b_action_name,
                },
            ) => {
                &&& a_call_id.same(&b_call_id)
                &&& a_args_snapshot.same(&b_args_snapshot)
                &&& told::same_some(a_chain_index, b_chain_index)
                &&& told::same_some(a_channel, b_channel)
                &&& told::same_some(a_action_name, b_action_name)
            },
            (
                RunLogPayload::ActionSettled { call_id: a_call_id, outcome: a_outcome },
                RunLogPayload::ActionSettled { call_id: b_call_id, outcome: b_outcome },
            ) => {
                &&& a_call_id.same(&b_call_id)
                &&& a_outcome.same(&b_outcome)
            },
            (
                RunLogPayload::ObservationRecorded { observation: a_observation },
                RunLogPayload::ObservationRecorded { observation: b_observation },
            ) => a_observation.same(&b_observation),
            (
                RunLogPayload::AssertionEvaluated { outcome: a_outcome },
                RunLogPayload::AssertionEvaluated { outcome: b_outcome },
            ) => a_outcome.same(&b_outcome),
            (
                RunLogPayload::VerdictRecorded {
                    verdict: a_verdict,
                    localized: a_localized,
                    localization_gaps: a_localization_gaps,
                    remote_archival_error: a_remote_archival_error,
                },
                RunLogPayload::VerdictRecorded {
                    verdict: b_verdict,
                    localized: b_localized,
                    localization_gaps: b_localization_gaps,
                    remote_archival_error: b_remote_archival_error,
                },
            ) => {
                &&& a_verdict.same(&b_verdict)
                &&& told::same_list(a_localized@, b_localized@)
                &&& told::same_list(a_localization_gaps@, b_localization_gaps@)
                &&& told::same_some(a_remote_archival_error, b_remote_archival_error)
            },
            (
                RunLogPayload::StepExited {
                    state: a_state,
                    output: a_output,
                    provider_state_summary: a_provider_state_summary,
                    localized: a_localized,
                    localization_gaps: a_localization_gaps,
                },
                RunLogPayload::StepExited {
                    state: b_state,
                    output: b_output,
                    provider_state_summary: b_provider_state_summary,
                    localized: b_localized,
                    localization_gaps: b_localization_gaps,
                },
            ) => {
                &&& a_state.same(&b_state)
                &&& told::same_some(a_output, b_output)
                &&& told::same_some(a_provider_state_summary, b_provider_state_summary)
                &&& told::same_list(a_localized@, b_localized@)
                &&& told::same_list(a_localization_gaps@, b_localization_gaps@)
            },
            (
                RunLogPayload::CallFramePushed { frame: a_frame, rebase: a_rebase },
                RunLogPayload::CallFramePushed { frame: b_frame, rebase: b_rebase },
            ) => {
                &&& a_frame.same(&b_frame)
                &&& a_rebase == b_rebase
            },
            (
                RunLogPayload::CallFramePopped { outputs: a_outputs },
                RunLogPayload::CallFramePopped { outputs: b_outputs },
            ) => wire::wire_or_null(a_outputs) == wire::wire_or_null(b_outputs),
            (
                RunLogPayload::HandlerTriggered {
                    hook: a_hook,
                    trigger: a_trigger,
                    disposition: a_disposition,
                },
                RunLogPayload::HandlerTriggered {
                    hook: b_hook,
                    trigger: b_trigger,
                    disposition: b_disposition,
                },
            ) => {
                &&& a_hook.same(&b_hook)
                &&& a_trigger.same(&b_trigger)
                &&& told::same_some(a_disposition, b_disposition)
            },
            (
                RunLogPayload::HumanRequested {
                    request_id: a_request_id,
                    purpose: a_purpose,
                    mode: a_mode,
                    prompt: a_prompt,
                    presents: a_presents,
                    decisions: a_decisions,
                    output_schema: a_output_schema,
                    deadline_at_ms: a_deadline_at_ms,
                },
                RunLogPayload::HumanRequested {
                    request_id: b_request_id,
                    purpose: b_purpose,
                    mode: b_mode,
                    prompt: b_prompt,
                    presents: b_presents,
                    decisions: b_decisions,
                    output_schema: b_output_schema,
                    deadline_at_ms: b_deadline_at_ms,
                },
            ) => {
                &&& a_request_id.same(&b_request_id)
                &&& a_purpose.same(&b_purpose)
                &&& told::same_some(a_mode, b_mode)
                &&& a_prompt.same(&b_prompt)
                &&& a_presents.same(&b_presents)
                &&& told::same_some(a_decisions, b_decisions)
                &&& told::same_some(a_output_schema, b_output_schema)
                &&& told::same_some(a_deadline_at_ms, b_deadline_at_ms)
            },
            (
                RunLogPayload::HumanResponded {
                    request_id: a_request_id,
                    purpose: a_purpose,
                    response: a_response,
                    actor: a_actor,
                },
                RunLogPayload::HumanResponded {
                    request_id: b_request_id,
                    purpose: b_purpose,
                    response: b_response,
                    actor: b_actor,
                },
            ) => {
                &&& a_request_id.same(&b_request_id)
                &&& a_purpose.same(&b_purpose)
                &&& a_response.same(&b_response)
                &&& a_actor.same(&b_actor)
            },
            (
                RunLogPayload::RunSuspended {
                    reason: a_reason,
                    provider_state_summary: a_provider_state_summary,
                },
                RunLogPayload::RunSuspended {
                    reason: b_reason,
                    provider_state_summary: b_provider_state_summary,
                },
            ) => {
                &&& told::same_some(a_reason, b_reason)
                &&& told::same_some(a_provider_state_summary, b_provider_state_summary)
            },
            (
                RunLogPayload::RunResumed {
                    alignment_report: a_alignment_report,
                    supervise_policy: a_supervise_policy,
                    event_cursor: a_event_cursor,
                },
                RunLogPayload::RunResumed {
                    alignment_report: b_alignment_report,
                    supervise_policy: b_supervise_policy,
                    event_cursor: b_event_cursor,
                },
            ) => {
                &&& a_alignment_report.same(&b_alignment_report)
                &&& told::same_some(a_supervise_policy, b_supervise_policy)
                &&& told::same_some(a_event_cursor, b_event_cursor)
            },
            (
                RunLogPayload::RunFinished {
                    verdict: a_verdict,
                    remote_archival_error: a_remote_archival_error,
                },
                RunLogPayload::RunFinished {
                    verdict: b_verdict,
                    remote_archival_error: b_remote_archival_error,
                },
            ) => {
                &&& told::same_some(a_verdict, b_verdict)
                &&& told::same_some(a_remote_archival_error, b_remote_archival_error)
            },
            _ => false,
        }
    }

    proof fn told(a: &Self, b: &Self) {
        law_run_log_payload_kinds(*a);
        law_run_log_payload_kinds(*b);
        match *a {
            RunLogPayload::RunStarted { .. } => lemma_run_started_told(*a, *b),
            RunLogPayload::StepEntered { .. } => lemma_step_entered_told(*a, *b),
            RunLogPayload::PreflightProbed { .. } => lemma_preflight_probed_told(*a, *b),
            RunLogPayload::ActionIntent { .. } => lemma_action_intent_told(*a, *b),
            RunLogPayload::ActionSettled { .. } => lemma_action_settled_told(*a, *b),
            RunLogPayload::ObservationRecorded { .. } => lemma_observation_recorded_told(*a, *b),
            RunLogPayload::AssertionEvaluated { .. } => lemma_assertion_evaluated_told(*a, *b),
            RunLogPayload::VerdictRecorded { .. } => lemma_verdict_recorded_told(*a, *b),
            RunLogPayload::StepExited { .. } => lemma_step_exited_told(*a, *b),
            RunLogPayload::CallFramePushed { .. } => lemma_call_frame_pushed_told(*a, *b),
            RunLogPayload::CallFramePopped { .. } => lemma_call_frame_popped_told(*a, *b),
            RunLogPayload::HandlerTriggered { .. } => lemma_handler_triggered_told(*a, *b),
            RunLogPayload::HumanRequested { .. } => lemma_human_requested_told(*a, *b),
            RunLogPayload::HumanResponded { .. } => lemma_human_responded_told(*a, *b),
            RunLogPayload::RunSuspended { .. } => lemma_run_suspended_told(*a, *b),
            RunLogPayload::RunResumed { .. } => lemma_run_resumed_told(*a, *b),
            RunLogPayload::RunFinished { .. } => lemma_run_finished_told(*a, *b),
        }
    }
}

/// The `type` member tells the kinds of events apart.
pub proof fn law_run_log_payload_kinds(v: RunLogPayload)
    ensures
        v.wire_json().member("type"@) == Some(JsonV::Text("runStarted"@)) <==> v is RunStarted,
        v.wire_json().member("type"@) == Some(JsonV::Text("stepEntered"@)) <==> v is StepEntered,
        v.wire_json().member("type"@) == Some(JsonV::Text("preflightProbed"@)) <==> v is PreflightProbed,
        v.wire_json().member("type"@) == Some(JsonV::Text("actionIntent"@)) <==> v is ActionIntent,
        v.wire_json().member("type"@) == Some(JsonV::Text("actionSettled"@)) <==> v is ActionSettled,
        v.wire_json().member("type"@) == Some(JsonV::Text("observationRecorded"@)) <==> v is ObservationRecorded,
        v.wire_json().member("type"@) == Some(JsonV::Text("assertionEvaluated"@)) <==> v is AssertionEvaluated,
        v.wire_json().member("type"@) == Some(JsonV::Text("verdictRecorded"@)) <==> v is VerdictRecorded,
        v.wire_json().member("type"@) == Some(JsonV::Text("stepExited"@)) <==> v is StepExited,
        v.wire_json().member("type"@) == Some(JsonV::Text("callFramePushed"@)) <==> v is CallFramePushed,
        v.wire_json().member("type"@) == Some(JsonV::Text("callFramePopped"@)) <==> v is CallFramePopped,
        v.wire_json().member("type"@) == Some(JsonV::Text("handlerTriggered"@)) <==> v is HandlerTriggered,
        v.wire_json().member("type"@) == Some(JsonV::Text("humanRequested"@)) <==> v is HumanRequested,
        v.wire_json().member("type"@) == Some(JsonV::Text("humanResponded"@)) <==> v is HumanResponded,
        v.wire_json().member("type"@) == Some(JsonV::Text("runSuspended"@)) <==> v is RunSuspended,
        v.wire_json().member("type"@) == Some(JsonV::Text("runResumed"@)) <==> v is RunResumed,
        v.wire_json().member("type"@) == Some(JsonV::Text("runFinished"@)) <==> v is RunFinished,
{
    lemma_run_log_payload_tags();
    run_log::law_type_member_is_the_event_type(v);
}

proof fn lemma_run_started_told(a: RunLogPayload, b: RunLogPayload)
    requires
        a is RunStarted,
        b is RunStarted,
        a.ordered(),
        b.ordered(),
        a.wire_json() == b.wire_json(),
    ensures
        a.same(&b),
{
    lemma_run_started_form(a);
    lemma_run_started_form(b);
    match (a, b) {
        (
            RunLogPayload::RunStarted {
                ir_hash: a_ir_hash,
                lockfile_digest: a_lockfile_digest,
                params_snapshot: a_params_snapshot,
                supervise_policy: a_supervise_policy,
            },
            RunLogPayload::RunStarted {
                ir_hash: b_ir_hash,
                lockfile_digest: b_lockfile_digest,
                params_snapshot: b_params_snapshot,
                supervise_policy: b_supervise_policy,
            },
        ) => {
            assert(a.wire_json().member("irHash"@) == b.wire_json().member("irHash"@));
            Told::told(&a_ir_hash, &b_ir_hash);
            assert(a.wire_json().member("lockfileDigest"@)
                == b.wire_json().member("lockfileDigest"@));
            Told::told(&a_lockfile_digest, &b_lockfile_digest);
            assert(a.wire_json().member("paramsSnapshot"@)
                == b.wire_json().member("paramsSnapshot"@));
            Told::told(&a_params_snapshot, &b_params_snapshot);
            assert(a.wire_json().member("supervisePolicy"@)
                == b.wire_json().member("supervisePolicy"@));
            told::law_nullable_values_are_told(a_supervise_policy, b_supervise_policy);
        },
        _ => {},
    }
}

proof fn lemma_step_entered_told(a: RunLogPayload, b: RunLogPayload)
    requires
        a is StepEntered,
        b is StepEntered,
        a.ordered(),
        b.ordered(),
        a.wire_json() == b.wire_json(),
    ensures
        a.same(&b),
{
    lemma_step_entered_form(a);
    lemma_step_entered_form(b);
    match (a, b) {
        (
            RunLogPayload::StepEntered {
                step_id: a_step_id,
                effect_hash: a_effect_hash,
                judge_hash: a_judge_hash,
                resolved_inputs: a_resolved_inputs,
            },
            RunLogPayload::StepEntered {
                step_id: b_step_id,
                effect_hash: b_effect_hash,
                judge_hash: b_judge_hash,
                resolved_inputs: b_resolved_inputs,
            },
        ) => {
            assert(a.wire_json().member("stepId"@) == b.wire_json().member("stepId"@));
            Told::told(&a_step_id, &b_step_id);
            assert(a.wire_json().member("effectHash"@) == b.wire_json().member("effectHash"@));
            Told::told(&a_effect_hash, &b_effect_hash);
            assert(a.wire_json().member("judgeHash"@) == b.wire_json().member("judgeHash"@));
            Told::told(&a_judge_hash, &b_judge_hash);
            assert(a.wire_json().member("resolvedInputs"@)
                == b.wire_json().member("resolvedInputs"@));
            Told::told(&a_resolved_inputs, &b_resolved_inputs);
        },
        _ => {},
    }
}

proof fn lemma_preflight_probed_told(a: RunLogPayload, b: RunLogPayload)
    requires
        a is PreflightProbed,
        b is PreflightProbed,
        a.ordered(),
        b.ordered(),
        a.wire_json() == b.wire_json(),
    ensures
        a.same(&b),
{
    lemma_preflight_probed_form(a);
    lemma_preflight_probed_form(b);
    match (a, b) {
        (
            RunLogPayload::PreflightProbed { outcomes: a_outcomes },
            RunLogPayload::PreflightProbed { outcomes: b_outcomes },
        ) => {
            assert(a.wire_json().member("outcomes"@) == b.wire_json().member("outcomes"@));
            Told::told(&a_outcomes, &b_outcomes);
        },
        _ => {},
    }
}

proof fn lemma_action_intent_told(a: RunLogPayload, b: RunLogPayload)
    requires
        a is ActionIntent,
        b is ActionIntent,
        a.ordered(),
        b.ordered(),
        a.wire_json() == b.wire_json(),
    ensures
        a.same(&b),
{
    lemma_action_intent_form(a);
    lemma_action_intent_form(b);
    match (a, b) {
        (
            RunLogPayload::ActionIntent {
                call_id: a_call_id,
                args_snapshot: a_args_snapshot,
                chain_index: a_chain_index,
                channel: a_channel,
                action_name: a_action_name,
            },
            RunLogPayload::ActionIntent {
                call_id: b_call_id,
                args_snapshot: b_args_snapshot,
                chain_index: b_chain_index,
                channel: b_channel,
                action_name: b_action_name,
            },
        ) => {
            assert(a.wire_json().member("callId"@) == b.wire_json().member("callId"@));
            Told::told(&a_call_id, &b_call_id);
            assert(a.wire_json().member("argsSnapshot"@) == b.wire_json().member("argsSnapshot"@));
            Told::told(&a_args_snapshot, &b_args_snapshot);
            assert(a.wire_json().member("chainIndex"@) == b.wire_json().member("chainIndex"@));
            told::law_optional_values_are_told(a_chain_index, b_chain_index);
            assert(a.wire_json().member("channel"@) == b.wire_json().member("channel"@));
            told::law_optional_values_are_told(a_channel, b_channel);
            assert(a.wire_json().member("actionName"@) == b.wire_json().member("actionName"@));
            told::law_optional_values_are_told(a_action_name, b_action_name);
        },
        _ => {},
    }
}

proof fn lemma_action_settled_told(a: RunLogPayload, b: RunLogPayload)
    requires
        a is ActionSettled,
        b is ActionSettled,
        a.ordered(),
        b.ordered(),
        a.wire_json() == b.wire_json(),
    ensures
        a.same(&b),
{
    lemma_action_settled_form(a);
    lemma_action_settled_form(b);
    match (a, b) {
        (
            RunLogPayload::ActionSettled { call_id: a_call_id, outcome: a_outcome },
            RunLogPayload::ActionSettled { call_id: b_call_id, outcome: b_outcome },
        ) => {
            assert(a.wire_json().member("callId"@) == b.wire_json().member("callId"@));
            Told::told(&a_call_id, &b_call_id);
            assert(a.wire_json().member("outcome"@) == b.wire_json().member("outcome"@));
            Told::told(&a_outcome, &b_outcome);
        },
        _ => {},
    }
}

proof fn lemma_observation_recorded_told(a: RunLogPayload, b: RunLogPayload)
    requires
        a is ObservationRecorded,
        b is ObservationRecorded,
        a.ordered(),
        b.ordered(),
        a.wire_json() == b.wire_json(),
    ensures
        a.same(&b),
{
    lemma_observation_recorded_form(a);
    lemma_observation_recorded_form(b);
    match (a, b) {
        (
            RunLogPayload::ObservationRecorded { observation: a_observation },
            RunLogPayload::ObservationRecorded { observation: b_observation },
        ) => {
            assert(a.wire_json().member("observation"@) == b.wire_json().member("observation"@));
            Told::told(&a_observation, &b_observation);
        },
        _ => {},
    }
}

proof fn lemma_assertion_evaluated_told(a: RunLogPayload, b: RunLogPayload)
    requires
        a is AssertionEvaluated,
        b is AssertionEvaluated,
        a.ordered(),
        b.ordered(),
        a.wire_json() == b.wire_json(),
    ensures
        a.same(&b),
{
    lemma_assertion_evaluated_form(a);
    lemma_assertion_evaluated_form(b);
    match (a, b) {
        (
            RunLogPayload::AssertionEvaluated { outcome: a_outcome },
            RunLogPayload::AssertionEvaluated { outcome: b_outcome },
        ) => {
            assert(a.wire_json().member("outcome"@) == b.wire_json().member("outcome"@));
            Told::told(&a_outcome, &b_outcome);
        },
        _ => {},
    }
}

proof fn lemma_verdict_recorded_told(a: RunLogPayload, b: RunLogPayload)
    requires
        a is VerdictRecorded,
        b is VerdictRecorded,
        a.ordered(),
        b.ordered(),
        a.wire_json() == b.wire_json(),
    ensures
        a.same(&b),
{
    lemma_verdict_recorded_form(a);
    lemma_verdict_recorded_form(b);
    match (a, b) {
        (
            RunLogPayload::VerdictRecorded {
                verdict: a_verdict,
                localized: a_localized,
                localization_gaps: a_localization_gaps,
                remote_archival_error: a_remote_archival_error,
            },
            RunLogPayload::VerdictRecorded {
                verdict: b_verdict,
                localized: b_localized,
                localization_gaps: b_localization_gaps,
                remote_archival_error: b_remote_archival_error,
            },
        ) => {
            assert(a.wire_json().member("verdict"@) == b.wire_json().member("verdict"@));
            Told::told(&a_verdict, &b_verdict);
            assert(a.wire_json().member("localized"@) == b.wire_json().member("localized"@));
            told::law_omitted_lists_are_told(a_localized@, b_localized@);
            assert(a.wire_json().member("localizationGaps"@)
                == b.wire_json().member("localizationGaps"@));
            told::law_omitted_lists_are_told(a_localization_gaps@, b_localization_gaps@);
            assert(a.wire_json().member("remoteArchivalError"@)
                == b.wire_json().member("remoteArchivalError"@));
            told::law_optional_values_are_told(a_remote_archival_error, b_remote_archival_error);
        },
        _ => {},
    }
}

proof fn lemma_step_exited_told(a: RunLogPayload, b: RunLogPayload)
    requires
        a is StepExited,
        b is StepExited,
        a.ordered(),
        b.ordered(),
        a.wire_json() == b.wire_json(),
    ensures
        a.same(&b),
{
    lemma_step_exited_form(a);
    lemma_step_exited_form(b);
    match (a, b) {
        (
            RunLogPayload::StepExited {
                state: a_state,
                output: a_output,
                provider_state_summary: a_provider_state_summary,
                localized: a_localized,
                localization_gaps: a_localization_gaps,
            },
            RunLogPayload::StepExited {
                state: b_state,
                output: b_output,
                provider_state_summary: b_provider_state_summary,
                localized: b_localized,
                localization_gaps: b_localization_gaps,
            },
        ) => {
            assert(a.wire_json().member("state"@) == b.wire_json().member("state"@));
            Told::told(&a_state, &b_state);
            assert(a.wire_json().member("output"@) == b.wire_json().member("output"@));
            told::law_optional_values_are_told(a_output, b_output);
            assert(a.wire_json().member("providerStateSummary"@)
                == b.wire_json().member("providerStateSummary"@));
            told::law_optional_values_are_told(a_provider_state_summary, b_provider_state_summary);
            assert(a.wire_json().member("localized"@) == b.wire_json().member("localized"@));
            told::law_omitted_lists_are_told(a_localized@, b_localized@);
            assert(a.wire_json().member("localizationGaps"@)
                == b.wire_json().member("localizationGaps"@));
            told::law_omitted_lists_are_told(a_localization_gaps@, b_localization_gaps@);
        },
        _ => {},
    }
}

proof fn lemma_call_frame_pushed_told(a: RunLogPayload, b: RunLogPayload)
    requires
        a is CallFramePushed,
        b is CallFramePushed,
        a.ordered(),
        b.ordered(),
        a.wire_json() == b.wire_json(),
    ensures
        a.same(&b),
{
    lemma_call_frame_pushed_form(a);
    lemma_call_frame_pushed_form(b);
    match (a, b) {
        (
            RunLogPayload::CallFramePushed { frame: a_frame, rebase: a_rebase },
            RunLogPayload::CallFramePushed { frame: b_frame, rebase: b_rebase },
        ) => {
            assert(a.wire_json().member("frame"@) == b.wire_json().member("frame"@));
            Told::told(&a_frame, &b_frame);
            assert(a.wire_json().member("rebase"@) == b.wire_json().member("rebase"@));
        },
        _ => {},
    }
}

proof fn lemma_call_frame_popped_told(a: RunLogPayload, b: RunLogPayload)
    requires
        a is CallFramePopped,
        b is CallFramePopped,
        a.ordered(),
        b.ordered(),
        a.wire_json() == b.wire_json(),
    ensures
        a.same(&b),
{
    lemma_call_frame_popped_form(a);
    lemma_call_frame_popped_form(b);
    match (a, b) {
        (
            RunLogPayload::CallFramePopped { outputs: a_outputs },
            RunLogPayload::CallFramePopped { outputs: b_outputs },
        ) => {
            assert(a.wire_json().member("outputs"@) == b.wire_json().member("outputs"@));
        },
        _ => {},
    }
}

proof fn lemma_handler_triggered_told(a: RunLogPayload, b: RunLogPayload)
    requires
        a is HandlerTriggered,
        b is HandlerTriggered,
        a.ordered(),
        b.ordered(),
        a.wire_json() == b.wire_json(),
    ensures
        a.same(&b),
{
    lemma_handler_triggered_form(a);
    lemma_handler_triggered_form(b);
    match (a, b) {
        (
            RunLogPayload::HandlerTriggered {
                hook: a_hook,
                trigger: a_trigger,
                disposition: a_disposition,
            },
            RunLogPayload::HandlerTriggered {
                hook: b_hook,
                trigger: b_trigger,
                disposition: b_disposition,
            },
        ) => {
            assert(a.wire_json().member("hook"@) == b.wire_json().member("hook"@));
            Told::told(&a_hook, &b_hook);
            assert(a.wire_json().member("trigger"@) == b.wire_json().member("trigger"@));
            Told::told(&a_trigger, &b_trigger);
            assert(a.wire_json().member("disposition"@) == b.wire_json().member("disposition"@));
            told::law_optional_values_are_told(a_disposition, b_disposition);
        },
        _ => {},
    }
}

proof fn lemma_human_requested_told(a: RunLogPayload, b: RunLogPayload)
    requires
        a is HumanRequested,
        b is HumanRequested,
        a.ordered(),
        b.ordered(),
        a.wire_json() == b.wire_json(),
    ensures
        a.same(&b),
{
    lemma_human_requested_form(a);
    lemma_human_requested_form(b);
    match (a, b) {
        (
            RunLogPayload::HumanRequested {
                request_id: a_request_id,
                purpose: a_purpose,
                mode: a_mode,
                prompt: a_prompt,
                presents: a_presents,
                decisions: a_decisions,
                output_schema: a_output_schema,
                deadline_at_ms: a_deadline_at_ms,
            },
            RunLogPayload::HumanRequested {
                request_id: b_request_id,
                purpose: b_purpose,
                mode: b_mode,
                prompt: b_prompt,
                presents: b_presents,
                decisions: b_decisions,
                output_schema: b_output_schema,
                deadline_at_ms: b_deadline_at_ms,
            },
        ) => {
            assert(a.wire_json().member("requestId"@) == b.wire_json().member("requestId"@));
            Told::told(&a_request_id, &b_request_id);
            assert(a.wire_json().member("purpose"@) == b.wire_json().member("purpose"@));
            Told::told(&a_purpose, &b_purpose);
            assert(a.wire_json().member("mode"@) == b.wire_json().member("mode"@));
            told::law_optional_values_are_told(a_mode, b_mode);
            assert(a.wire_json().member("prompt"@) == b.wire_json().member("prompt"@));
            Told::told(&a_prompt, &b_prompt);
            assert(a.wire_json().member("presents"@) == b.wire_json().member("presents"@));
            Told::told(&a_presents, &b_presents);
            assert(a.wire_json().member("decisions"@) == b.wire_json().member("decisions"@));
            told::law_optional_values_are_told(a_decisions, b_decisions);
            assert(a.wire_json().member("outputSchema"@) == b.wire_json().member("outputSchema"@));
            told::law_optional_values_are_told(a_output_schema, b_output_schema);
            assert(a.wire_json().member("deadlineAtMs"@) == b.wire_json().member("deadlineAtMs"@));
            told::law_optional_values_are_told(a_deadline_at_ms, b_deadline_at_ms);
        },
        _ => {},
    }
}

proof fn lemma_human_responded_told(a: RunLogPayload, b: RunLogPayload)
    requires
        a is HumanResponded,
        b is HumanResponded,
        a.ordered(),
        b.ordered(),
        a.wire_json() == b.wire_json(),
    ensures
        a.same(&b),
{
    lemma_human_responded_form(a);
    lemma_human_responded_form(b);
    match (a, b) {
        (
            RunLogPayload::HumanResponded {
                request_id: a_request_id,
                purpose: a_purpose,
                response: a_response,
                actor: a_actor,
            },
            RunLogPayload::HumanResponded {
                request_id: b_request_id,
                purpose: b_purpose,
                response: b_response,
                actor: b_actor,
            },
        ) => {
            assert(a.wire_json().member("requestId"@) == b.wire_json().member("requestId"@));
            Told::told(&a_request_id, &b_request_id);
            assert(a.wire_json().member("purpose"@) == b.wire_json().member("purpose"@));
            Told::told(&a_purpose, &b_purpose);
            assert(a.wire_json().member("response"@) == b.wire_json().member("response"@));
            Told::told(&a_response, &b_response);
            assert(a.wire_json().member("actor"@) == b.wire_json().member("actor"@));
            Told::told(&a_actor, &b_actor);
        },
        _ => {},
    }
}

proof fn lemma_run_suspended_told(a: RunLogPayload, b: RunLogPayload)
    requires
        a is RunSuspended,
        b is RunSuspended,
        a.ordered(),
        b.ordered(),
        a.wire_json() == b.wire_json(),
    ensures
        a.same(&b),
{
    lemma_run_suspended_form(a);
    lemma_run_suspended_form(b);
    match (a, b) {
        (
            RunLogPayload::RunSuspended {
                reason: a_reason,
                provider_state_summary: a_provider_state_summary,
            },
            RunLogPayload::RunSuspended {
                reason: b_reason,
                provider_state_summary: b_provider_state_summary,
            },
        ) => {
            assert(a.wire_json().member("reason"@) == b.wire_json().member("reason"@));
            told::law_nullable_values_are_told(a_reason, b_reason);
            assert(a.wire_json().member("providerStateSummary"@)
                == b.wire_json().member("providerStateSummary"@));
            told::law_optional_values_are_told(a_provider_state_summary, b_provider_state_summary);
        },
        _ => {},
    }
}

proof fn lemma_run_resumed_told(a: RunLogPayload, b: RunLogPayload)
    requires
        a is RunResumed,
        b is RunResumed,
        a.ordered(),
        b.ordered(),
        a.wire_json() == b.wire_json(),
    ensures
        a.same(&b),
{
    lemma_run_resumed_form(a);
    lemma_run_resumed_form(b);
    match (a, b) {
        (
            RunLogPayload::RunResumed {
                alignment_report: a_alignment_report,
                supervise_policy: a_supervise_policy,
                event_cursor: a_event_cursor,
            },
            RunLogPayload::RunResumed {
                alignment_report: b_alignment_report,
                supervise_policy: b_supervise_policy,
                event_cursor: b_event_cursor,
            },
        ) => {
            assert(a.wire_json().member("alignmentReport"@)
                == b.wire_json().member("alignmentReport"@));
            Told::told(&a_alignment_report, &b_alignment_report);
            assert(a.wire_json().member("supervisePolicy"@)
                == b.wire_json().member("supervisePolicy"@));
            told::law_nullable_values_are_told(a_supervise_policy, b_supervise_policy);
            assert(a.wire_json().member("eventCursor"@) == b.wire_json().member("eventCursor"@));
            told::law_optional_values_are_told(a_event_cursor, b_event_cursor);
        },
        _ => {},
    }
}

proof fn lemma_run_finished_told(a: RunLogPayload, b: RunLogPayload)
    requires
        a is RunFinished,
        b is RunFinished,
        a.ordered(),
        b.ordered(),
        a.wire_json() == b.wire_json(),
    ensures
        a.same(&b),
{
    lemma_run_finished_form(a);
    lemma_run_finished_form(b);
    match (a, b) {
        (
            RunLogPayload::RunFinished {
                verdict: a_verdict,
                remote_archival_error: a_remote_archival_error,
            },
            RunLogPayload::RunFinished {
                verdict: b_verdict,
                remote_archival_error: b_remote_archival_error,
            },
        ) => {
            assert(a.wire_json().member("verdict"@) == b.wire_json().member("verdict"@));
            told::law_nullable_values_are_told(a_verdict, b_verdict);
            assert(a.wire_json().member("remoteArchivalError"@)
                == b.wire_json().member("remoteArchivalError"@));
            told::law_optional_values_are_told(a_remote_archival_error, b_remote_archival_error);
        },
        _ => {},
    }
}

proof fn lemma_run_log_event_keys()
    ensures
        keyed::key_code("seq"@) == 3115113113,
        keyed::key_code("atMs"@) == 4097115115,
        keyed::key_code("runId"@) == 5114073100,
        keyed::key_code("payload"@) == 7112097100,
        keyed::key_code("runPath"@) == 7114116104,
{
    reveal_strlit("seq");
    reveal_strlit("atMs");
    reveal_strlit("runId");
    reveal_strlit("payload");
    reveal_strlit("runPath");
}

/// The JSON form of [`RunLogEvent`] holds every field under its name, and nothing else.
pub proof fn law_run_log_event_form(v: RunLogEvent)
    ensures
        v.wire_json() is Object,
        v.wire_json().member("runId"@) == Some(v.run_id.wire_json()),
        v.wire_json().member("seq"@) == Some(v.seq.wire_json()),
        v.wire_json().member("atMs"@) == Some(v.at_ms.wire_json()),
        v.wire_json().member("runPath"@) == Some(v.run_path.wire_json()),
        v.wire_json().member("payload"@) == Some(v.payload.wire_json()),
        forall|key: Seq<char>| #[trigger]
            v.wire_json().member(key) is Some ==> key == "runId"@ || key == "seq"@ || key == "atMs"@
                || key == "runPath"@ || key == "payload"@,
{
    broadcast use
        keyed::lemma_get_after_with,
        keyed::lemma_get_after_with_some,
        keyed::lemma_sorted_after_with,
        keyed::lemma_sorted_after_with_some,
    ;

    lemma_run_log_event_keys();
}

impl Told for RunLogEvent {
    open spec fn ordered(&self) -> bool {
        self.payload.ordered()
    }

    open spec fn same(&self, other: &Self) -> bool {
        &&& self.run_id.same(&other.run_id)
        &&& self.seq.same(&other.seq)
        &&& self.at_ms.same(&other.at_ms)
        &&& self.run_path.same(&other.run_path)
        &&& self.payload.same(&other.payload)
    }

    proof fn told(a: &Self, b: &Self) {
        law_run_log_event_form(*a);
        law_run_log_event_form(*b);
        assert(a.wire_json().member("runId"@) == b.wire_json().member("runId"@));
        Told::told(&a.run_id, &b.run_id);
        assert(a.wire_json().member("seq"@) == b.wire_json().member("seq"@));
        Told::told(&a.seq, &b.seq);
        assert(a.wire_json().member("atMs"@) == b.wire_json().member("atMs"@));
        Told::told(&a.at_ms, &b.at_ms);
        assert(a.wire_json().member("runPath"@) == b.wire_json().member("runPath"@));
        Told::told(&a.run_path, &b.run_path);
        assert(a.wire_json().member("payload"@) == b.wire_json().member("payload"@));
        Told::told(&a.payload, &b.payload);
    }
}

} // verus!
