//! The run log: the append-only events of a run.

use vstd::prelude::*;

use crate::ir::primitives::{ActionName, JsonSchemaDocument, StepId};
use crate::ir::record::{
    AlignmentReport, AssertionOutcomeRecord, CallFrame, EventCursor, ObservationRecord,
    ProviderStateSummary,
};
use crate::ir::run_path::RunPath;
use crate::ir::runtime::{ActionOutcome, EvidenceGap, EvidenceRef, Verdict};
use crate::ir::vocab::{
    ActChannel, HandlerHook, HumanMode, HumanPurpose, StepState, SupervisePolicy,
};
use crate::json::{Json, JsonMap, JsonV, Members};
use crate::keyed;
use crate::wire;
use crate::wire::{
    duplicate_some, if_true_json, nonempty_json, or_null_json, some_json, Duplicate, Wire,
};

verus! {

/// One event of a run log.
#[derive(Debug, PartialEq, Eq)]
pub struct RunLogEvent {
    /// The run.
    pub run_id: String,
    /// One-based sequence number: the authority on order.
    pub seq: u64,
    /// Wall-clock time in milliseconds since the epoch; informational.
    pub at_ms: u64,
    /// Where the event is anchored.
    pub run_path: RunPath,
    /// The payload.
    pub payload: RunLogPayload,
}

impl Wire for RunLogEvent {
    open spec fn wire_json(&self) -> JsonV {
        Members::none()
            .with("runId"@, self.run_id.wire_json())
            .with("seq"@, self.seq.wire_json())
            .with("atMs"@, self.at_ms.wire_json())
            .with("runPath"@, self.run_path.wire_json())
            .with("payload"@, self.payload.wire_json())
            .object()
    }

    fn to_json(&self) -> (r: Json) {
        JsonMap::new()
            .with("runId", self.run_id.to_json())
            .with("seq", self.seq.to_json())
            .with("atMs", self.at_ms.to_json())
            .with("runPath", self.run_path.to_json())
            .with("payload", self.payload.to_json())
            .object()
    }
}

impl Duplicate for RunLogEvent {
    fn duplicate(&self) -> (r: Self) {
        RunLogEvent {
            run_id: self.run_id.duplicate(),
            seq: self.seq,
            at_ms: self.at_ms,
            run_path: self.run_path.duplicate(),
            payload: self.payload.duplicate(),
        }
    }
}

impl Clone for RunLogEvent {
    fn clone(&self) -> (r: Self)
        ensures
            r.wire_json() == self.wire_json(),
    {
        self.duplicate()
    }
}

/// The payload of an event.
#[allow(inconsistent_fields)]
#[derive(Debug, PartialEq, Eq)]
pub enum RunLogPayload {
    /// A run segment started.
    RunStarted {
        /// Hash of the flow.
        ir_hash: crate::ir::primitives::Hash,
        /// Digest of the lockfile.
        lockfile_digest: crate::ir::primitives::Hash,
        /// Input parameters.
        params_snapshot: Json,
        /// Supervision policy; `null` when unsupervised.
        supervise_policy: Option<SupervisePolicy>,
    },
    /// A step was scheduled and its inputs are frozen.
    StepEntered {
        /// The step.
        step_id: StepId,
        /// Its effect hash.
        effect_hash: crate::ir::primitives::Hash,
        /// Its judge hash.
        judge_hash: crate::ir::primitives::Hash,
        /// Inputs, evaluated once; `null` when never resolved.
        resolved_inputs: Json,
    },
    /// Probes were evaluated.
    PreflightProbed {
        /// One outcome per probe, in declaration order.
        outcomes: Vec<AssertionOutcomeRecord>,
    },
    /// Written before an action is dispatched.
    ActionIntent {
        /// The action id.
        call_id: String,
        /// The arguments.
        args_snapshot: Json,
        /// One-based position in the act chain.
        chain_index: Option<u32>,
        /// Locating channel.
        channel: Option<ActChannel>,
        /// Native action name.
        action_name: Option<ActionName>,
    },
    /// An action reached its terminal.
    ActionSettled {
        /// The action id.
        call_id: String,
        /// The terminal.
        outcome: ActionOutcome,
    },
    /// An observation was captured and localized.
    ObservationRecorded {
        /// The observation.
        observation: ObservationRecord,
    },
    /// One assertion was evaluated.
    AssertionEvaluated {
        /// The outcome.
        outcome: AssertionOutcomeRecord,
    },
    /// A verdict was folded.
    VerdictRecorded {
        /// The verdict.
        verdict: Verdict,
        /// Evidence that was localized for it.
        localized: Vec<EvidenceRef>,
        /// Evidence that could not be localized.
        localization_gaps: Vec<EvidenceGap>,
        /// Why the provider could not archive it.
        remote_archival_error: Option<String>,
    },
    /// A step reached a terminal state.
    StepExited {
        /// The state.
        state: StepState,
        /// The projected output.
        output: Option<Json>,
        /// The session at a failure.
        provider_state_summary: Option<ProviderStateSummary>,
        /// Evidence of an exit without verdict.
        localized: Vec<EvidenceRef>,
        /// Evidence that could not be localized.
        localization_gaps: Vec<EvidenceGap>,
    },
    /// A call frame was pushed.
    CallFramePushed {
        /// The frame.
        frame: CallFrame,
        /// Whether an open frame was entered again.
        rebase: bool,
    },
    /// A call frame was popped.
    CallFramePopped {
        /// The callee's outputs, when it completed.
        outputs: Option<Json>,
    },
    /// A handler fired.
    HandlerTriggered {
        /// The hook.
        hook: HandlerHook,
        /// One-based trigger count.
        trigger: u64,
        /// The declared disposition.
        disposition: Option<String>,
    },
    /// A human was asked.
    HumanRequested {
        /// The request id.
        request_id: String,
        /// Why a human is asked.
        purpose: HumanPurpose,
        /// Interaction mode; absent for supervision.
        mode: Option<HumanMode>,
        /// The prompt.
        prompt: String,
        /// The values that are shown.
        presents: Json,
        /// The options.
        decisions: Option<Vec<String>>,
        /// Input contract.
        output_schema: Option<JsonSchemaDocument>,
        /// Deadline in milliseconds since the epoch; absent for supervision.
        deadline_at_ms: Option<u64>,
    },
    /// A human answered.
    HumanResponded {
        /// The request id.
        request_id: String,
        /// Why the human was asked.
        purpose: HumanPurpose,
        /// The answer.
        response: Json,
        /// Who answered.
        actor: String,
    },
    /// The run segment was suspended.
    RunSuspended {
        /// Human-readable reason.
        reason: Option<String>,
        /// The session at suspension.
        provider_state_summary: Option<ProviderStateSummary>,
    },
    /// A run segment resumed.
    RunResumed {
        /// How the run aligns.
        alignment_report: AlignmentReport,
        /// Supervision policy; `null` when unsupervised.
        supervise_policy: Option<SupervisePolicy>,
        /// Cursor of the new session.
        event_cursor: Option<EventCursor>,
    },
    /// The run finished.
    RunFinished {
        /// The folded verdict.
        verdict: Option<Verdict>,
        /// Why the provider could not archive it.
        remote_archival_error: Option<String>,
    },
}

impl Wire for RunLogPayload {
    open spec fn wire_json(&self) -> JsonV {
        match self {
            RunLogPayload::RunStarted {
                ir_hash,
                lockfile_digest,
                params_snapshot,
                supervise_policy,
            } => Members::none()
                .with("type"@, JsonV::Text("runStarted"@))
                .with("irHash"@, ir_hash.wire_json())
                .with("lockfileDigest"@, lockfile_digest.wire_json())
                .with("paramsSnapshot"@, params_snapshot.wire_json())
                .with("supervisePolicy"@, wire::wire_or_null(*supervise_policy))
                .object(),
            RunLogPayload::StepEntered {
                step_id,
                effect_hash,
                judge_hash,
                resolved_inputs,
            } => Members::none()
                .with("type"@, JsonV::Text("stepEntered"@))
                .with("stepId"@, step_id.wire_json())
                .with("effectHash"@, effect_hash.wire_json())
                .with("judgeHash"@, judge_hash.wire_json())
                .with("resolvedInputs"@, resolved_inputs.wire_json())
                .object(),
            RunLogPayload::PreflightProbed { outcomes } => Members::none()
                .with("type"@, JsonV::Text("preflightProbed"@))
                .with("outcomes"@, outcomes.wire_json())
                .object(),
            RunLogPayload::ActionIntent {
                call_id,
                args_snapshot,
                chain_index,
                channel,
                action_name,
            } => Members::none()
                .with("type"@, JsonV::Text("actionIntent"@))
                .with("callId"@, call_id.wire_json())
                .with("argsSnapshot"@, args_snapshot.wire_json())
                .with_some("chainIndex"@, wire::wire_some(*chain_index))
                .with_some("channel"@, wire::wire_some(*channel))
                .with_some("actionName"@, wire::wire_some(*action_name))
                .object(),
            RunLogPayload::ActionSettled { call_id, outcome } => Members::none()
                .with("type"@, JsonV::Text("actionSettled"@))
                .with("callId"@, call_id.wire_json())
                .with("outcome"@, outcome.wire_json())
                .object(),
            RunLogPayload::ObservationRecorded { observation } => Members::none()
                .with("type"@, JsonV::Text("observationRecorded"@))
                .with("observation"@, observation.wire_json())
                .object(),
            RunLogPayload::AssertionEvaluated { outcome } => Members::none()
                .with("type"@, JsonV::Text("assertionEvaluated"@))
                .with("outcome"@, outcome.wire_json())
                .object(),
            RunLogPayload::VerdictRecorded {
                verdict,
                localized,
                localization_gaps,
                remote_archival_error,
            } => Members::none()
                .with("type"@, JsonV::Text("verdictRecorded"@))
                .with("verdict"@, verdict.wire_json())
                .with_some("localized"@, wire::wire_nonempty(localized@))
                .with_some("localizationGaps"@, wire::wire_nonempty(localization_gaps@))
                .with_some("remoteArchivalError"@, wire::wire_some(*remote_archival_error))
                .object(),
            RunLogPayload::StepExited {
                state,
                output,
                provider_state_summary,
                localized,
                localization_gaps,
            } => Members::none()
                .with("type"@, JsonV::Text("stepExited"@))
                .with("state"@, state.wire_json())
                .with_some("output"@, wire::wire_some(*output))
                .with_some("providerStateSummary"@, wire::wire_some(*provider_state_summary))
                .with_some("localized"@, wire::wire_nonempty(localized@))
                .with_some("localizationGaps"@, wire::wire_nonempty(localization_gaps@))
                .object(),
            RunLogPayload::CallFramePushed { frame, rebase } => Members::none()
                .with("type"@, JsonV::Text("callFramePushed"@))
                .with("frame"@, frame.wire_json())
                .with_some("rebase"@, wire::wire_if_true(*rebase))
                .object(),
            RunLogPayload::CallFramePopped { outputs } => Members::none()
                .with("type"@, JsonV::Text("callFramePopped"@))
                .with("outputs"@, wire::wire_or_null(*outputs))
                .object(),
            RunLogPayload::HandlerTriggered { hook, trigger, disposition } => Members::none()
                .with("type"@, JsonV::Text("handlerTriggered"@))
                .with("hook"@, hook.wire_json())
                .with("trigger"@, trigger.wire_json())
                .with_some("disposition"@, wire::wire_some(*disposition))
                .object(),
            RunLogPayload::HumanRequested {
                request_id,
                purpose,
                mode,
                prompt,
                presents,
                decisions,
                output_schema,
                deadline_at_ms,
            } => Members::none()
                .with("type"@, JsonV::Text("humanRequested"@))
                .with("requestId"@, request_id.wire_json())
                .with("purpose"@, purpose.wire_json())
                .with_some("mode"@, wire::wire_some(*mode))
                .with("prompt"@, prompt.wire_json())
                .with("presents"@, presents.wire_json())
                .with_some("decisions"@, wire::wire_some(*decisions))
                .with_some("outputSchema"@, wire::wire_some(*output_schema))
                .with_some("deadlineAtMs"@, wire::wire_some(*deadline_at_ms))
                .object(),
            RunLogPayload::HumanResponded {
                request_id,
                purpose,
                response,
                actor,
            } => Members::none()
                .with("type"@, JsonV::Text("humanResponded"@))
                .with("requestId"@, request_id.wire_json())
                .with("purpose"@, purpose.wire_json())
                .with("response"@, response.wire_json())
                .with("actor"@, actor.wire_json())
                .object(),
            RunLogPayload::RunSuspended { reason, provider_state_summary } => Members::none()
                .with("type"@, JsonV::Text("runSuspended"@))
                .with("reason"@, wire::wire_or_null(*reason))
                .with_some("providerStateSummary"@, wire::wire_some(*provider_state_summary))
                .object(),
            RunLogPayload::RunResumed {
                alignment_report,
                supervise_policy,
                event_cursor,
            } => Members::none()
                .with("type"@, JsonV::Text("runResumed"@))
                .with("alignmentReport"@, alignment_report.wire_json())
                .with("supervisePolicy"@, wire::wire_or_null(*supervise_policy))
                .with_some("eventCursor"@, wire::wire_some(*event_cursor))
                .object(),
            RunLogPayload::RunFinished { verdict, remote_archival_error } => Members::none()
                .with("type"@, JsonV::Text("runFinished"@))
                .with("verdict"@, wire::wire_or_null(*verdict))
                .with_some("remoteArchivalError"@, wire::wire_some(*remote_archival_error))
                .object(),
        }
    }

    fn to_json(&self) -> (r: Json) {
        match self {
            RunLogPayload::RunStarted {
                ir_hash,
                lockfile_digest,
                params_snapshot,
                supervise_policy,
            } => JsonMap::new()
                .with("type", Json::text("runStarted"))
                .with("irHash", ir_hash.to_json())
                .with("lockfileDigest", lockfile_digest.to_json())
                .with("paramsSnapshot", params_snapshot.to_json())
                .with("supervisePolicy", or_null_json(supervise_policy))
                .object(),
            RunLogPayload::StepEntered {
                step_id,
                effect_hash,
                judge_hash,
                resolved_inputs,
            } => JsonMap::new()
                .with("type", Json::text("stepEntered"))
                .with("stepId", step_id.to_json())
                .with("effectHash", effect_hash.to_json())
                .with("judgeHash", judge_hash.to_json())
                .with("resolvedInputs", resolved_inputs.to_json())
                .object(),
            RunLogPayload::PreflightProbed { outcomes } => JsonMap::new()
                .with("type", Json::text("preflightProbed"))
                .with("outcomes", outcomes.to_json())
                .object(),
            RunLogPayload::ActionIntent {
                call_id,
                args_snapshot,
                chain_index,
                channel,
                action_name,
            } => JsonMap::new()
                .with("type", Json::text("actionIntent"))
                .with("callId", call_id.to_json())
                .with("argsSnapshot", args_snapshot.to_json())
                .with_some("chainIndex", some_json(chain_index))
                .with_some("channel", some_json(channel))
                .with_some("actionName", some_json(action_name))
                .object(),
            RunLogPayload::ActionSettled { call_id, outcome } => JsonMap::new()
                .with("type", Json::text("actionSettled"))
                .with("callId", call_id.to_json())
                .with("outcome", outcome.to_json())
                .object(),
            RunLogPayload::ObservationRecorded { observation } => JsonMap::new()
                .with("type", Json::text("observationRecorded"))
                .with("observation", observation.to_json())
                .object(),
            RunLogPayload::AssertionEvaluated { outcome } => JsonMap::new()
                .with("type", Json::text("assertionEvaluated"))
                .with("outcome", outcome.to_json())
                .object(),
            RunLogPayload::VerdictRecorded {
                verdict,
                localized,
                localization_gaps,
                remote_archival_error,
            } => JsonMap::new()
                .with("type", Json::text("verdictRecorded"))
                .with("verdict", verdict.to_json())
                .with_some("localized", nonempty_json(localized))
                .with_some("localizationGaps", nonempty_json(localization_gaps))
                .with_some("remoteArchivalError", some_json(remote_archival_error))
                .object(),
            RunLogPayload::StepExited {
                state,
                output,
                provider_state_summary,
                localized,
                localization_gaps,
            } => JsonMap::new()
                .with("type", Json::text("stepExited"))
                .with("state", state.to_json())
                .with_some("output", some_json(output))
                .with_some("providerStateSummary", some_json(provider_state_summary))
                .with_some("localized", nonempty_json(localized))
                .with_some("localizationGaps", nonempty_json(localization_gaps))
                .object(),
            RunLogPayload::CallFramePushed { frame, rebase } => JsonMap::new()
                .with("type", Json::text("callFramePushed"))
                .with("frame", frame.to_json())
                .with_some("rebase", if_true_json(*rebase))
                .object(),
            RunLogPayload::CallFramePopped { outputs } => JsonMap::new()
                .with("type", Json::text("callFramePopped"))
                .with("outputs", or_null_json(outputs))
                .object(),
            RunLogPayload::HandlerTriggered { hook, trigger, disposition } => JsonMap::new()
                .with("type", Json::text("handlerTriggered"))
                .with("hook", hook.to_json())
                .with("trigger", trigger.to_json())
                .with_some("disposition", some_json(disposition))
                .object(),
            RunLogPayload::HumanRequested {
                request_id,
                purpose,
                mode,
                prompt,
                presents,
                decisions,
                output_schema,
                deadline_at_ms,
            } => JsonMap::new()
                .with("type", Json::text("humanRequested"))
                .with("requestId", request_id.to_json())
                .with("purpose", purpose.to_json())
                .with_some("mode", some_json(mode))
                .with("prompt", prompt.to_json())
                .with("presents", presents.to_json())
                .with_some("decisions", some_json(decisions))
                .with_some("outputSchema", some_json(output_schema))
                .with_some("deadlineAtMs", some_json(deadline_at_ms))
                .object(),
            RunLogPayload::HumanResponded { request_id, purpose, response, actor } => JsonMap::new()
                .with("type", Json::text("humanResponded"))
                .with("requestId", request_id.to_json())
                .with("purpose", purpose.to_json())
                .with("response", response.to_json())
                .with("actor", actor.to_json())
                .object(),
            RunLogPayload::RunSuspended { reason, provider_state_summary } => JsonMap::new()
                .with("type", Json::text("runSuspended"))
                .with("reason", or_null_json(reason))
                .with_some("providerStateSummary", some_json(provider_state_summary))
                .object(),
            RunLogPayload::RunResumed {
                alignment_report,
                supervise_policy,
                event_cursor,
            } => JsonMap::new()
                .with("type", Json::text("runResumed"))
                .with("alignmentReport", alignment_report.to_json())
                .with("supervisePolicy", or_null_json(supervise_policy))
                .with_some("eventCursor", some_json(event_cursor))
                .object(),
            RunLogPayload::RunFinished { verdict, remote_archival_error } => JsonMap::new()
                .with("type", Json::text("runFinished"))
                .with("verdict", or_null_json(verdict))
                .with_some("remoteArchivalError", some_json(remote_archival_error))
                .object(),
        }
    }
}

impl Duplicate for RunLogPayload {
    fn duplicate(&self) -> (r: Self) {
        match self {
            RunLogPayload::RunStarted {
                ir_hash,
                lockfile_digest,
                params_snapshot,
                supervise_policy,
            } => RunLogPayload::RunStarted {
                ir_hash: ir_hash.duplicate(),
                lockfile_digest: lockfile_digest.duplicate(),
                params_snapshot: params_snapshot.duplicate(),
                supervise_policy: duplicate_some(supervise_policy),
            },
            RunLogPayload::StepEntered {
                step_id,
                effect_hash,
                judge_hash,
                resolved_inputs,
            } => RunLogPayload::StepEntered {
                step_id: step_id.duplicate(),
                effect_hash: effect_hash.duplicate(),
                judge_hash: judge_hash.duplicate(),
                resolved_inputs: resolved_inputs.duplicate(),
            },
            RunLogPayload::PreflightProbed { outcomes } => RunLogPayload::PreflightProbed {
                outcomes: outcomes.duplicate(),
            },
            RunLogPayload::ActionIntent {
                call_id,
                args_snapshot,
                chain_index,
                channel,
                action_name,
            } => RunLogPayload::ActionIntent {
                call_id: call_id.duplicate(),
                args_snapshot: args_snapshot.duplicate(),
                chain_index: *chain_index,
                channel: duplicate_some(channel),
                action_name: duplicate_some(action_name),
            },
            RunLogPayload::ActionSettled { call_id, outcome } => RunLogPayload::ActionSettled {
                call_id: call_id.duplicate(),
                outcome: outcome.duplicate(),
            },
            RunLogPayload::ObservationRecorded { observation } => RunLogPayload::ObservationRecorded {
                observation: observation.duplicate(),
            },
            RunLogPayload::AssertionEvaluated { outcome } => RunLogPayload::AssertionEvaluated {
                outcome: outcome.duplicate(),
            },
            RunLogPayload::VerdictRecorded {
                verdict,
                localized,
                localization_gaps,
                remote_archival_error,
            } => RunLogPayload::VerdictRecorded {
                verdict: verdict.duplicate(),
                localized: localized.duplicate(),
                localization_gaps: localization_gaps.duplicate(),
                remote_archival_error: duplicate_some(remote_archival_error),
            },
            RunLogPayload::StepExited {
                state,
                output,
                provider_state_summary,
                localized,
                localization_gaps,
            } => RunLogPayload::StepExited {
                state: state.duplicate(),
                output: duplicate_some(output),
                provider_state_summary: duplicate_some(provider_state_summary),
                localized: localized.duplicate(),
                localization_gaps: localization_gaps.duplicate(),
            },
            RunLogPayload::CallFramePushed { frame, rebase } => RunLogPayload::CallFramePushed {
                frame: frame.duplicate(),
                rebase: *rebase,
            },
            RunLogPayload::CallFramePopped { outputs } => RunLogPayload::CallFramePopped {
                outputs: duplicate_some(outputs),
            },
            RunLogPayload::HandlerTriggered { hook, trigger, disposition } => RunLogPayload::HandlerTriggered {
                hook: hook.duplicate(),
                trigger: *trigger,
                disposition: duplicate_some(disposition),
            },
            RunLogPayload::HumanRequested {
                request_id,
                purpose,
                mode,
                prompt,
                presents,
                decisions,
                output_schema,
                deadline_at_ms,
            } => RunLogPayload::HumanRequested {
                request_id: request_id.duplicate(),
                purpose: purpose.duplicate(),
                mode: duplicate_some(mode),
                prompt: prompt.duplicate(),
                presents: presents.duplicate(),
                decisions: duplicate_some(decisions),
                output_schema: duplicate_some(output_schema),
                deadline_at_ms: *deadline_at_ms,
            },
            RunLogPayload::HumanResponded {
                request_id,
                purpose,
                response,
                actor,
            } => RunLogPayload::HumanResponded {
                request_id: request_id.duplicate(),
                purpose: purpose.duplicate(),
                response: response.duplicate(),
                actor: actor.duplicate(),
            },
            RunLogPayload::RunSuspended { reason, provider_state_summary } => RunLogPayload::RunSuspended {
                reason: duplicate_some(reason),
                provider_state_summary: duplicate_some(provider_state_summary),
            },
            RunLogPayload::RunResumed {
                alignment_report,
                supervise_policy,
                event_cursor,
            } => RunLogPayload::RunResumed {
                alignment_report: alignment_report.duplicate(),
                supervise_policy: duplicate_some(supervise_policy),
                event_cursor: duplicate_some(event_cursor),
            },
            RunLogPayload::RunFinished { verdict, remote_archival_error } => RunLogPayload::RunFinished {
                verdict: duplicate_some(verdict),
                remote_archival_error: duplicate_some(remote_archival_error),
            },
        }
    }
}

impl Clone for RunLogPayload {
    fn clone(&self) -> (r: Self)
        ensures
            r.wire_json() == self.wire_json(),
    {
        self.duplicate()
    }
}

impl RunLogPayload {
    /// All wire discriminants.
    pub const EVENT_TYPES: [&'static str; 17] = [
        "runStarted",
        "stepEntered",
        "preflightProbed",
        "actionIntent",
        "actionSettled",
        "observationRecorded",
        "assertionEvaluated",
        "verdictRecorded",
        "stepExited",
        "callFramePushed",
        "callFramePopped",
        "handlerTriggered",
        "humanRequested",
        "humanResponded",
        "runSuspended",
        "runResumed",
        "runFinished",
    ];

    /// The wire discriminant of this payload.
    pub open spec fn spec_event_type(self) -> Seq<char> {
        match self {
            RunLogPayload::RunStarted { .. } => "runStarted"@,
            RunLogPayload::StepEntered { .. } => "stepEntered"@,
            RunLogPayload::PreflightProbed { .. } => "preflightProbed"@,
            RunLogPayload::ActionIntent { .. } => "actionIntent"@,
            RunLogPayload::ActionSettled { .. } => "actionSettled"@,
            RunLogPayload::ObservationRecorded { .. } => "observationRecorded"@,
            RunLogPayload::AssertionEvaluated { .. } => "assertionEvaluated"@,
            RunLogPayload::VerdictRecorded { .. } => "verdictRecorded"@,
            RunLogPayload::StepExited { .. } => "stepExited"@,
            RunLogPayload::CallFramePushed { .. } => "callFramePushed"@,
            RunLogPayload::CallFramePopped { .. } => "callFramePopped"@,
            RunLogPayload::HandlerTriggered { .. } => "handlerTriggered"@,
            RunLogPayload::HumanRequested { .. } => "humanRequested"@,
            RunLogPayload::HumanResponded { .. } => "humanResponded"@,
            RunLogPayload::RunSuspended { .. } => "runSuspended"@,
            RunLogPayload::RunResumed { .. } => "runResumed"@,
            RunLogPayload::RunFinished { .. } => "runFinished"@,
        }
    }

    /// The wire discriminant of this payload.
    pub fn event_type(&self) -> (r: &'static str)
        ensures
            r@ == self.spec_event_type(),
    {
        match self {
            RunLogPayload::RunStarted { .. } => "runStarted",
            RunLogPayload::StepEntered { .. } => "stepEntered",
            RunLogPayload::PreflightProbed { .. } => "preflightProbed",
            RunLogPayload::ActionIntent { .. } => "actionIntent",
            RunLogPayload::ActionSettled { .. } => "actionSettled",
            RunLogPayload::ObservationRecorded { .. } => "observationRecorded",
            RunLogPayload::AssertionEvaluated { .. } => "assertionEvaluated",
            RunLogPayload::VerdictRecorded { .. } => "verdictRecorded",
            RunLogPayload::StepExited { .. } => "stepExited",
            RunLogPayload::CallFramePushed { .. } => "callFramePushed",
            RunLogPayload::CallFramePopped { .. } => "callFramePopped",
            RunLogPayload::HandlerTriggered { .. } => "handlerTriggered",
            RunLogPayload::HumanRequested { .. } => "humanRequested",
            RunLogPayload::HumanResponded { .. } => "humanResponded",
            RunLogPayload::RunSuspended { .. } => "runSuspended",
            RunLogPayload::RunResumed { .. } => "runResumed",
            RunLogPayload::RunFinished { .. } => "runFinished",
        }
    }
}

/// The `type` member of a payload's JSON form is its discriminant.
pub proof fn law_type_member_is_the_event_type(payload: RunLogPayload)
    ensures
        payload.wire_json().member("type"@) == Some(JsonV::Text(payload.spec_event_type())),
{
    broadcast use keyed::lemma_get_after_with, keyed::lemma_get_after_with_some,
        keyed::lemma_sorted_after_with, keyed::lemma_sorted_after_with_some;

    lemma_keys();
}

/// The discriminants differ from one another.
pub proof fn law_event_types_are_distinct(i: int, j: int)
    requires
        0 <= i < j < RunLogPayload::EVENT_TYPES@.len(),
    ensures
        RunLogPayload::EVENT_TYPES@[i]@ != RunLogPayload::EVENT_TYPES@[j]@,
{
    lemma_event_types();
}

/// Every payload's discriminant is listed.
pub proof fn law_event_types_are_complete(payload: RunLogPayload)
    ensures
        exists|i: int|
            0 <= i < RunLogPayload::EVENT_TYPES@.len() && #[trigger] RunLogPayload::EVENT_TYPES@[i]@
                == payload.spec_event_type(),
{
    if payload is RunStarted {
        assert(RunLogPayload::EVENT_TYPES@[0]@ == payload.spec_event_type());
    }
    if payload is StepEntered {
        assert(RunLogPayload::EVENT_TYPES@[1]@ == payload.spec_event_type());
    }
    if payload is PreflightProbed {
        assert(RunLogPayload::EVENT_TYPES@[2]@ == payload.spec_event_type());
    }
    if payload is ActionIntent {
        assert(RunLogPayload::EVENT_TYPES@[3]@ == payload.spec_event_type());
    }
    if payload is ActionSettled {
        assert(RunLogPayload::EVENT_TYPES@[4]@ == payload.spec_event_type());
    }
    if payload is ObservationRecorded {
        assert(RunLogPayload::EVENT_TYPES@[5]@ == payload.spec_event_type());
    }
    if payload is AssertionEvaluated {
        assert(RunLogPayload::EVENT_TYPES@[6]@ == payload.spec_event_type());
    }
    if payload is VerdictRecorded {
        assert(RunLogPayload::EVENT_TYPES@[7]@ == payload.spec_event_type());
    }
    if payload is StepExited {
        assert(RunLogPayload::EVENT_TYPES@[8]@ == payload.spec_event_type());
    }
    if payload is CallFramePushed {
        assert(RunLogPayload::EVENT_TYPES@[9]@ == payload.spec_event_type());
    }
    if payload is CallFramePopped {
        assert(RunLogPayload::EVENT_TYPES@[10]@ == payload.spec_event_type());
    }
    if payload is HandlerTriggered {
        assert(RunLogPayload::EVENT_TYPES@[11]@ == payload.spec_event_type());
    }
    if payload is HumanRequested {
        assert(RunLogPayload::EVENT_TYPES@[12]@ == payload.spec_event_type());
    }
    if payload is HumanResponded {
        assert(RunLogPayload::EVENT_TYPES@[13]@ == payload.spec_event_type());
    }
    if payload is RunSuspended {
        assert(RunLogPayload::EVENT_TYPES@[14]@ == payload.spec_event_type());
    }
    if payload is RunResumed {
        assert(RunLogPayload::EVENT_TYPES@[15]@ == payload.spec_event_type());
    }
    if payload is RunFinished {
        assert(RunLogPayload::EVENT_TYPES@[16]@ == payload.spec_event_type());
    }
}

/// The member names of payloads differ from one another.
proof fn lemma_keys()
    ensures
        keyed::key_code("type"@) == 4116101101,
        keyed::key_code("actionName"@) == 10097097101,
        keyed::key_code("actor"@) == 5097111114,
        keyed::key_code("alignmentReport"@) == 15097112116,
        keyed::key_code("argsSnapshot"@) == 12097104116,
        keyed::key_code("callId"@) == 6099073100,
        keyed::key_code("chainIndex"@) == 10099100120,
        keyed::key_code("channel"@) == 7099101108,
        keyed::key_code("deadlineAtMs"@) == 12100116115,
        keyed::key_code("decisions"@) == 9100111115,
        keyed::key_code("disposition"@) == 11100105110,
        keyed::key_code("effectHash"@) == 10101097104,
        keyed::key_code("eventCursor"@) == 11101115114,
        keyed::key_code("frame"@) == 5102109101,
        keyed::key_code("hook"@) == 4104107107,
        keyed::key_code("irHash"@) == 6105115104,
        keyed::key_code("judgeHash"@) == 9106097104,
        keyed::key_code("localizationGaps"@) == 16108071115,
        keyed::key_code("localized"@) == 9108122100,
        keyed::key_code("lockfileDigest"@) == 14108103116,
        keyed::key_code("mode"@) == 4109101101,
        keyed::key_code("observation"@) == 11111105110,
        keyed::key_code("outcome"@) == 7111109101,
        keyed::key_code("outcomes"@) == 8111101115,
        keyed::key_code("output"@) == 6111117116,
        keyed::key_code("outputSchema"@) == 12111101097,
        keyed::key_code("outputs"@) == 7111116115,
        keyed::key_code("paramsSnapshot"@) == 14112115116,
        keyed::key_code("presents"@) == 8112116115,
        keyed::key_code("prompt"@) == 6112112116,
        keyed::key_code("providerStateSummary"@) == 20112109121,
        keyed::key_code("purpose"@) == 7112115101,
        keyed::key_code("reason"@) == 6114111110,
        keyed::key_code("rebase"@) == 6114115101,
        keyed::key_code("remoteArchivalError"@) == 19114069114,
        keyed::key_code("requestId"@) == 9114116100,
        keyed::key_code("resolvedInputs"@) == 14114112115,
        keyed::key_code("response"@) == 8114115101,
        keyed::key_code("state"@) == 5115116101,
        keyed::key_code("stepId"@) == 6115073100,
        keyed::key_code("supervisePolicy"@) == 15115108121,
        keyed::key_code("trigger"@) == 7116101114,
        keyed::key_code("verdict"@) == 7118099116,
{
    reveal_strlit("type");
    reveal_strlit("actionName");
    reveal_strlit("actor");
    reveal_strlit("alignmentReport");
    reveal_strlit("argsSnapshot");
    reveal_strlit("callId");
    reveal_strlit("chainIndex");
    reveal_strlit("channel");
    reveal_strlit("deadlineAtMs");
    reveal_strlit("decisions");
    reveal_strlit("disposition");
    reveal_strlit("effectHash");
    reveal_strlit("eventCursor");
    reveal_strlit("frame");
    reveal_strlit("hook");
    reveal_strlit("irHash");
    reveal_strlit("judgeHash");
    reveal_strlit("localizationGaps");
    reveal_strlit("localized");
    reveal_strlit("lockfileDigest");
    reveal_strlit("mode");
    reveal_strlit("observation");
    reveal_strlit("outcome");
    reveal_strlit("outcomes");
    reveal_strlit("output");
    reveal_strlit("outputSchema");
    reveal_strlit("outputs");
    reveal_strlit("paramsSnapshot");
    reveal_strlit("presents");
    reveal_strlit("prompt");
    reveal_strlit("providerStateSummary");
    reveal_strlit("purpose");
    reveal_strlit("reason");
    reveal_strlit("rebase");
    reveal_strlit("remoteArchivalError");
    reveal_strlit("requestId");
    reveal_strlit("resolvedInputs");
    reveal_strlit("response");
    reveal_strlit("state");
    reveal_strlit("stepId");
    reveal_strlit("supervisePolicy");
    reveal_strlit("trigger");
    reveal_strlit("verdict");
}

/// The discriminants differ from one another.
proof fn lemma_event_types()
    ensures
        keyed::key_code("runStarted"@) == 10114116100,
        keyed::key_code("stepEntered"@) == 11115114100,
        keyed::key_code("preflightProbed"@) == 15112111100,
        keyed::key_code("actionIntent"@) == 12097101116,
        keyed::key_code("actionSettled"@) == 13097116100,
        keyed::key_code("observationRecorded"@) == 19111111100,
        keyed::key_code("assertionEvaluated"@) == 18097117100,
        keyed::key_code("verdictRecorded"@) == 15118114100,
        keyed::key_code("stepExited"@) == 10115116100,
        keyed::key_code("callFramePushed"@) == 15099115100,
        keyed::key_code("callFramePopped"@) == 15099112100,
        keyed::key_code("handlerTriggered"@) == 16104101100,
        keyed::key_code("humanRequested"@) == 14104115100,
        keyed::key_code("humanResponded"@) == 14104110100,
        keyed::key_code("runSuspended"@) == 12114100100,
        keyed::key_code("runResumed"@) == 10114109100,
        keyed::key_code("runFinished"@) == 11114104100,
{
    reveal_strlit("runStarted");
    reveal_strlit("stepEntered");
    reveal_strlit("preflightProbed");
    reveal_strlit("actionIntent");
    reveal_strlit("actionSettled");
    reveal_strlit("observationRecorded");
    reveal_strlit("assertionEvaluated");
    reveal_strlit("verdictRecorded");
    reveal_strlit("stepExited");
    reveal_strlit("callFramePushed");
    reveal_strlit("callFramePopped");
    reveal_strlit("handlerTriggered");
    reveal_strlit("humanRequested");
    reveal_strlit("humanResponded");
    reveal_strlit("runSuspended");
    reveal_strlit("runResumed");
    reveal_strlit("runFinished");
}

} // verus!
