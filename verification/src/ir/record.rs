//! Durable execution records and the checkpoint view.

use vstd::prelude::*;

use crate::ir::primitives::{ActionName, AssertId, FlowId, StepId};
use crate::ir::run_path::RunPath;
use crate::ir::runtime::{EvidenceRef, StepVerdict, Viewport};
use crate::ir::vocab::{
    ActChannel, AlignmentClass, Channel, CoordinateFallbackReason, ErrorClass, ExecutionMode,
    HumanMode, HumanPurpose, ScreenshotOmissionReason, StepState, UiSnapshotOmissionReason,
    VerdictStatus,
};
use crate::json::{Json, JsonMap, JsonV, Members};
use crate::keyed::TextMap;
use crate::wire;
use crate::wire::{duplicate_some, some_json, Duplicate, Wire};

verus! {

/// The kind of a terminal outcome.
#[derive(Debug, Clone, Copy, PartialEq, Eq, PartialOrd, Ord, Hash, Structural)]
pub enum ActionOutcomeKind {
    /// Completed with a result.
    Succeeded,
    /// Failed with a structured error.
    Failed,
    /// Cancelled.
    Cancelled,
    /// Action budget elapsed.
    TimedOut,
}

impl ActionOutcomeKind {
    /// The wire spelling.
    pub open spec fn wire(self) -> Seq<char> {
        match self {
            ActionOutcomeKind::Succeeded => "succeeded"@,
            ActionOutcomeKind::Failed => "failed"@,
            ActionOutcomeKind::Cancelled => "cancelled"@,
            ActionOutcomeKind::TimedOut => "timedOut"@,
        }
    }

    /// The wire spelling.
    pub fn wire_name(self) -> (r: &'static str)
        ensures
            r@ == self.wire(),
    {
        match self {
            ActionOutcomeKind::Succeeded => "succeeded",
            ActionOutcomeKind::Failed => "failed",
            ActionOutcomeKind::Cancelled => "cancelled",
            ActionOutcomeKind::TimedOut => "timedOut",
        }
    }
}

impl Wire for ActionOutcomeKind {
    open spec fn wire_json(&self) -> JsonV {
        JsonV::Text(self.wire())
    }

    fn to_json(&self) -> (r: Json) {
        Json::text(self.wire_name())
    }
}

impl Duplicate for ActionOutcomeKind {
    fn duplicate(&self) -> (r: Self) {
        *self
    }
}

/// One attempt of an action step.
#[derive(Debug, PartialEq, Eq)]
pub struct AttemptRecord {
    /// The action id.
    pub call_id: String,
    /// The kind of the terminal.
    pub outcome: ActionOutcomeKind,
    /// Error class, for outcomes other than success.
    pub error_class: Option<ErrorClass>,
    /// The reported execution mode.
    pub execution_mode: Option<ExecutionMode>,
    /// Why coordinates were used.
    pub fallback_reason: Option<CoordinateFallbackReason>,
    /// One-based position in the act chain.
    pub chain_index: Option<u32>,
    /// Locating channel.
    pub channel: Option<ActChannel>,
    /// Native action name.
    pub action_name: Option<ActionName>,
}

impl Wire for AttemptRecord {
    open spec fn wire_json(&self) -> JsonV {
        Members::none()
            .with("callId"@, self.call_id.wire_json())
            .with("outcome"@, self.outcome.wire_json())
            .with_some("errorClass"@, wire::wire_some(self.error_class))
            .with_some("executionMode"@, wire::wire_some(self.execution_mode))
            .with_some("fallbackReason"@, wire::wire_some(self.fallback_reason))
            .with_some("chainIndex"@, wire::wire_some(self.chain_index))
            .with_some("channel"@, wire::wire_some(self.channel))
            .with_some("actionName"@, wire::wire_some(self.action_name))
            .object()
    }

    fn to_json(&self) -> (r: Json) {
        JsonMap::new()
            .with("callId", self.call_id.to_json())
            .with("outcome", self.outcome.to_json())
            .with_some("errorClass", some_json(&self.error_class))
            .with_some("executionMode", some_json(&self.execution_mode))
            .with_some("fallbackReason", some_json(&self.fallback_reason))
            .with_some("chainIndex", some_json(&self.chain_index))
            .with_some("channel", some_json(&self.channel))
            .with_some("actionName", some_json(&self.action_name))
            .object()
    }
}

impl Duplicate for AttemptRecord {
    fn duplicate(&self) -> (r: Self) {
        AttemptRecord {
            call_id: self.call_id.duplicate(),
            outcome: self.outcome.duplicate(),
            error_class: self.error_class,
            execution_mode: duplicate_some(&self.execution_mode),
            fallback_reason: duplicate_some(&self.fallback_reason),
            chain_index: self.chain_index,
            channel: duplicate_some(&self.channel),
            action_name: duplicate_some(&self.action_name),
        }
    }
}

impl Clone for AttemptRecord {
    fn clone(&self) -> (r: Self)
        ensures
            r.wire_json() == self.wire_json(),
    {
        self.duplicate()
    }
}

/// The session at the time of a failure or suspension; forensic only.
#[derive(Debug, PartialEq, Eq)]
pub struct ProviderStateSummary {
    /// Known session generations.
    pub session_lineage: Vec<String>,
    /// The cursor at capture; absent when it could not be read.
    pub event_cursor: Option<EventCursor>,
    /// The attested baseline.
    pub attestation: AttestationSnapshot,
    /// Session health.
    pub health: SessionHealthSnapshot,
    /// The bound device.
    pub device_id: String,
    /// The device platform.
    pub platform: Option<String>,
}

impl Wire for ProviderStateSummary {
    open spec fn wire_json(&self) -> JsonV {
        Members::none()
            .with("sessionLineage"@, self.session_lineage.wire_json())
            .with_some("eventCursor"@, wire::wire_some(self.event_cursor))
            .with("attestation"@, self.attestation.wire_json())
            .with("health"@, self.health.wire_json())
            .with("deviceId"@, self.device_id.wire_json())
            .with_some("platform"@, wire::wire_some(self.platform))
            .object()
    }

    fn to_json(&self) -> (r: Json) {
        JsonMap::new()
            .with("sessionLineage", self.session_lineage.to_json())
            .with_some("eventCursor", some_json(&self.event_cursor))
            .with("attestation", self.attestation.to_json())
            .with("health", self.health.to_json())
            .with("deviceId", self.device_id.to_json())
            .with_some("platform", some_json(&self.platform))
            .object()
    }
}

impl Duplicate for ProviderStateSummary {
    fn duplicate(&self) -> (r: Self) {
        ProviderStateSummary {
            session_lineage: self.session_lineage.duplicate(),
            event_cursor: duplicate_some(&self.event_cursor),
            attestation: self.attestation.duplicate(),
            health: self.health.duplicate(),
            device_id: self.device_id.duplicate(),
            platform: duplicate_some(&self.platform),
        }
    }
}

impl Clone for ProviderStateSummary {
    fn clone(&self) -> (r: Self)
        ensures
            r.wire_json() == self.wire_json(),
    {
        self.duplicate()
    }
}

/// What a summary keeps of an attestation.
#[derive(Debug, PartialEq, Eq)]
pub struct AttestationSnapshot {
    /// Digest of the attested lockfile.
    pub lockfile_digest: crate::ir::primitives::Hash,
    /// Attestation time.
    pub attested_at: String,
}

impl Wire for AttestationSnapshot {
    open spec fn wire_json(&self) -> JsonV {
        Members::none()
            .with("lockfileDigest"@, self.lockfile_digest.wire_json())
            .with("attestedAt"@, self.attested_at.wire_json())
            .object()
    }

    fn to_json(&self) -> (r: Json) {
        JsonMap::new()
            .with("lockfileDigest", self.lockfile_digest.to_json())
            .with("attestedAt", self.attested_at.to_json())
            .object()
    }
}

impl Duplicate for AttestationSnapshot {
    fn duplicate(&self) -> (r: Self) {
        AttestationSnapshot {
            lockfile_digest: self.lockfile_digest.duplicate(),
            attested_at: self.attested_at.duplicate(),
        }
    }
}

impl Clone for AttestationSnapshot {
    fn clone(&self) -> (r: Self)
        ensures
            r.wire_json() == self.wire_json(),
    {
        self.duplicate()
    }
}

/// Session health on record.
#[derive(Debug, PartialEq, Eq)]
pub struct SessionHealthSnapshot {
    /// Whether the session answered healthy.
    pub ok: bool,
    /// Degradation note.
    pub degraded: Option<String>,
}

impl Wire for SessionHealthSnapshot {
    open spec fn wire_json(&self) -> JsonV {
        Members::none()
            .with("ok"@, self.ok.wire_json())
            .with_some("degraded"@, wire::wire_some(self.degraded))
            .object()
    }

    fn to_json(&self) -> (r: Json) {
        JsonMap::new()
            .with("ok", self.ok.to_json())
            .with_some("degraded", some_json(&self.degraded))
            .object()
    }
}

impl Duplicate for SessionHealthSnapshot {
    fn duplicate(&self) -> (r: Self) {
        SessionHealthSnapshot {
            ok: self.ok,
            degraded: duplicate_some(&self.degraded),
        }
    }
}

impl Clone for SessionHealthSnapshot {
    fn clone(&self) -> (r: Self)
        ensures
            r.wire_json() == self.wire_json(),
    {
        self.duplicate()
    }
}

/// A localized observation.
#[derive(Debug, PartialEq, Eq)]
pub struct ObservationRecord {
    /// Observation id.
    pub observation_id: String,
    /// Capture time in milliseconds since the epoch.
    pub captured_at_ms: u64,
    /// Viewport at capture.
    pub viewport: Option<Viewport>,
    /// Localized screenshot.
    pub screenshot: Option<EvidenceRef>,
    /// Why there is no screenshot.
    pub screenshot_omission: Option<ScreenshotOmissionReason>,
    /// Localized UI tree.
    pub ui_snapshot: Option<EvidenceRef>,
    /// Why there is no UI snapshot.
    pub ui_snapshot_omission: Option<UiSnapshotOmissionReason>,
}

impl Wire for ObservationRecord {
    open spec fn wire_json(&self) -> JsonV {
        Members::none()
            .with("observationId"@, self.observation_id.wire_json())
            .with("capturedAtMs"@, self.captured_at_ms.wire_json())
            .with_some("viewport"@, wire::wire_some(self.viewport))
            .with_some("screenshot"@, wire::wire_some(self.screenshot))
            .with_some("screenshotOmission"@, wire::wire_some(self.screenshot_omission))
            .with_some("uiSnapshot"@, wire::wire_some(self.ui_snapshot))
            .with_some("uiSnapshotOmission"@, wire::wire_some(self.ui_snapshot_omission))
            .object()
    }

    fn to_json(&self) -> (r: Json) {
        JsonMap::new()
            .with("observationId", self.observation_id.to_json())
            .with("capturedAtMs", self.captured_at_ms.to_json())
            .with_some("viewport", some_json(&self.viewport))
            .with_some("screenshot", some_json(&self.screenshot))
            .with_some("screenshotOmission", some_json(&self.screenshot_omission))
            .with_some("uiSnapshot", some_json(&self.ui_snapshot))
            .with_some("uiSnapshotOmission", some_json(&self.ui_snapshot_omission))
            .object()
    }
}

impl Duplicate for ObservationRecord {
    fn duplicate(&self) -> (r: Self) {
        ObservationRecord {
            observation_id: self.observation_id.duplicate(),
            captured_at_ms: self.captured_at_ms,
            viewport: duplicate_some(&self.viewport),
            screenshot: duplicate_some(&self.screenshot),
            screenshot_omission: self.screenshot_omission,
            ui_snapshot: duplicate_some(&self.ui_snapshot),
            ui_snapshot_omission: self.ui_snapshot_omission,
        }
    }
}

impl Clone for ObservationRecord {
    fn clone(&self) -> (r: Self)
        ensures
            r.wire_json() == self.wire_json(),
    {
        self.duplicate()
    }
}

/// Outcome of one assertion along its verify chain.
#[derive(Debug, PartialEq, Eq)]
pub struct AssertionOutcomeRecord {
    /// The assertion's id.
    pub assert_id: AssertId,
    /// Three-valued result.
    pub result: VerdictStatus,
    /// The channel that completed the evaluation.
    pub channel: Option<Channel>,
    /// Human-readable reason.
    pub reason: String,
}

impl Wire for AssertionOutcomeRecord {
    open spec fn wire_json(&self) -> JsonV {
        Members::none()
            .with("assertId"@, self.assert_id.wire_json())
            .with("result"@, self.result.wire_json())
            .with_some("channel"@, wire::wire_some(self.channel))
            .with("reason"@, self.reason.wire_json())
            .object()
    }

    fn to_json(&self) -> (r: Json) {
        JsonMap::new()
            .with("assertId", self.assert_id.to_json())
            .with("result", self.result.to_json())
            .with_some("channel", some_json(&self.channel))
            .with("reason", self.reason.to_json())
            .object()
    }
}

impl Duplicate for AssertionOutcomeRecord {
    fn duplicate(&self) -> (r: Self) {
        AssertionOutcomeRecord {
            assert_id: self.assert_id.duplicate(),
            result: self.result,
            channel: duplicate_some(&self.channel),
            reason: self.reason.duplicate(),
        }
    }
}

impl Clone for AssertionOutcomeRecord {
    fn clone(&self) -> (r: Self)
        ensures
            r.wire_json() == self.wire_json(),
    {
        self.duplicate()
    }
}

/// The durable record of one completed step.
#[derive(Debug, PartialEq, Eq)]
pub struct StepRecord {
    /// Run path of this step instance.
    pub run_path: RunPath,
    /// The step's id.
    pub step_id: StepId,
    /// Effect hash at execution.
    pub effect_hash: crate::ir::primitives::Hash,
    /// Judge hash at execution.
    pub judge_hash: crate::ir::primitives::Hash,
    /// The attempts, in order.
    pub attempts: Vec<AttemptRecord>,
    /// Inputs, evaluated once.
    pub resolved_inputs: Json,
    /// Projected output.
    pub output: Option<Json>,
    /// Localized observations.
    pub observations: Vec<ObservationRecord>,
    /// Localized evidence.
    pub evidence: Vec<EvidenceRef>,
    /// Assertion outcomes, in declaration order.
    pub assertion_outcomes: Vec<AssertionOutcomeRecord>,
    /// The folded verdict.
    pub verdict: Option<StepVerdict>,
}

impl Wire for StepRecord {
    open spec fn wire_json(&self) -> JsonV {
        Members::none()
            .with("runPath"@, self.run_path.wire_json())
            .with("stepId"@, self.step_id.wire_json())
            .with("effectHash"@, self.effect_hash.wire_json())
            .with("judgeHash"@, self.judge_hash.wire_json())
            .with("attempts"@, self.attempts.wire_json())
            .with("resolvedInputs"@, self.resolved_inputs.wire_json())
            .with_some("output"@, wire::wire_some(self.output))
            .with("observations"@, self.observations.wire_json())
            .with("evidence"@, self.evidence.wire_json())
            .with("assertionOutcomes"@, self.assertion_outcomes.wire_json())
            .with_some("verdict"@, wire::wire_some(self.verdict))
            .object()
    }

    fn to_json(&self) -> (r: Json) {
        JsonMap::new()
            .with("runPath", self.run_path.to_json())
            .with("stepId", self.step_id.to_json())
            .with("effectHash", self.effect_hash.to_json())
            .with("judgeHash", self.judge_hash.to_json())
            .with("attempts", self.attempts.to_json())
            .with("resolvedInputs", self.resolved_inputs.to_json())
            .with_some("output", some_json(&self.output))
            .with("observations", self.observations.to_json())
            .with("evidence", self.evidence.to_json())
            .with("assertionOutcomes", self.assertion_outcomes.to_json())
            .with_some("verdict", some_json(&self.verdict))
            .object()
    }
}

impl Duplicate for StepRecord {
    fn duplicate(&self) -> (r: Self) {
        StepRecord {
            run_path: self.run_path.duplicate(),
            step_id: self.step_id.duplicate(),
            effect_hash: self.effect_hash.duplicate(),
            judge_hash: self.judge_hash.duplicate(),
            attempts: self.attempts.duplicate(),
            resolved_inputs: self.resolved_inputs.duplicate(),
            output: duplicate_some(&self.output),
            observations: self.observations.duplicate(),
            evidence: self.evidence.duplicate(),
            assertion_outcomes: self.assertion_outcomes.duplicate(),
            verdict: duplicate_some(&self.verdict),
        }
    }
}

impl Clone for StepRecord {
    fn clone(&self) -> (r: Self)
        ensures
            r.wire_json() == self.wire_json(),
    {
        self.duplicate()
    }
}

/// One live iteration of a foreach step.
#[derive(Debug, PartialEq, Eq)]
pub struct IterState {
    /// Name of the iteration variable.
    pub var: String,
    /// Zero-based index of the current item.
    pub index: u64,
    /// Stable item key.
    pub key: Option<String>,
}

impl Wire for IterState {
    open spec fn wire_json(&self) -> JsonV {
        Members::none()
            .with("as"@, self.var.wire_json())
            .with("index"@, self.index.wire_json())
            .with_some("key"@, wire::wire_some(self.key))
            .object()
    }

    fn to_json(&self) -> (r: Json) {
        JsonMap::new()
            .with("as", self.var.to_json())
            .with("index", self.index.to_json())
            .with_some("key", some_json(&self.key))
            .object()
    }
}

impl Duplicate for IterState {
    fn duplicate(&self) -> (r: Self) {
        IterState {
            var: self.var.duplicate(),
            index: self.index,
            key: duplicate_some(&self.key),
        }
    }
}

impl Clone for IterState {
    fn clone(&self) -> (r: Self)
        ensures
            r.wire_json() == self.wire_json(),
    {
        self.duplicate()
    }
}

/// One frame of the live call stack.
#[derive(Debug, PartialEq, Eq)]
pub struct CallFrame {
    /// The flow in this frame.
    pub flow_id: FlowId,
    /// Hash of that flow.
    pub ir_hash: crate::ir::primitives::Hash,
    /// The call step's id; absent for the root and for repairs.
    pub call_step_id: Option<StepId>,
    /// Inputs, by value.
    pub inputs_snapshot: Json,
    /// Bindings of let steps.
    pub vars: TextMap<Json>,
    /// Live iterations, innermost last.
    pub iter_stack: Vec<IterState>,
    /// Index of the next step.
    pub next_index: u64,
}

impl Wire for CallFrame {
    open spec fn wire_json(&self) -> JsonV {
        Members::none()
            .with("flowId"@, self.flow_id.wire_json())
            .with("irHash"@, self.ir_hash.wire_json())
            .with_some("callStepId"@, wire::wire_some(self.call_step_id))
            .with("inputsSnapshot"@, self.inputs_snapshot.wire_json())
            .with("vars"@, self.vars.wire_json())
            .with("iterStack"@, self.iter_stack.wire_json())
            .with("nextIndex"@, self.next_index.wire_json())
            .object()
    }

    fn to_json(&self) -> (r: Json) {
        JsonMap::new()
            .with("flowId", self.flow_id.to_json())
            .with("irHash", self.ir_hash.to_json())
            .with_some("callStepId", some_json(&self.call_step_id))
            .with("inputsSnapshot", self.inputs_snapshot.to_json())
            .with("vars", self.vars.to_json())
            .with("iterStack", self.iter_stack.to_json())
            .with("nextIndex", self.next_index.to_json())
            .object()
    }
}

impl Duplicate for CallFrame {
    fn duplicate(&self) -> (r: Self) {
        CallFrame {
            flow_id: self.flow_id.duplicate(),
            ir_hash: self.ir_hash.duplicate(),
            call_step_id: duplicate_some(&self.call_step_id),
            inputs_snapshot: self.inputs_snapshot.duplicate(),
            vars: self.vars.duplicate(),
            iter_stack: self.iter_stack.duplicate(),
            next_index: self.next_index,
        }
    }
}

impl Clone for CallFrame {
    fn clone(&self) -> (r: Self)
        ensures
            r.wire_json() == self.wire_json(),
    {
        self.duplicate()
    }
}

/// The intent of an action that was dispatched and has no terminal.
#[derive(Debug, PartialEq, Eq)]
pub struct PendingIntent {
    /// The action id.
    pub call_id: String,
    /// The arguments.
    pub args_snapshot: Json,
}

impl Wire for PendingIntent {
    open spec fn wire_json(&self) -> JsonV {
        Members::none()
            .with("callId"@, self.call_id.wire_json())
            .with("argsSnapshot"@, self.args_snapshot.wire_json())
            .object()
    }

    fn to_json(&self) -> (r: Json) {
        JsonMap::new()
            .with("callId", self.call_id.to_json())
            .with("argsSnapshot", self.args_snapshot.to_json())
            .object()
    }
}

impl Duplicate for PendingIntent {
    fn duplicate(&self) -> (r: Self) {
        PendingIntent {
            call_id: self.call_id.duplicate(),
            args_snapshot: self.args_snapshot.duplicate(),
        }
    }
}

impl Clone for PendingIntent {
    fn clone(&self) -> (r: Self)
        ensures
            r.wire_json() == self.wire_json(),
    {
        self.duplicate()
    }
}

/// The step in flight.
#[derive(Debug, PartialEq, Eq)]
pub struct Frontier {
    /// Run path of the step.
    pub run_path: RunPath,
    /// Its state.
    pub state: StepState,
    /// The hanging intent.
    pub pending_intent: Option<PendingIntent>,
}

impl Wire for Frontier {
    open spec fn wire_json(&self) -> JsonV {
        Members::none()
            .with("runPath"@, self.run_path.wire_json())
            .with("state"@, self.state.wire_json())
            .with_some("pendingIntent"@, wire::wire_some(self.pending_intent))
            .object()
    }

    fn to_json(&self) -> (r: Json) {
        JsonMap::new()
            .with("runPath", self.run_path.to_json())
            .with("state", self.state.to_json())
            .with_some("pendingIntent", some_json(&self.pending_intent))
            .object()
    }
}

impl Duplicate for Frontier {
    fn duplicate(&self) -> (r: Self) {
        Frontier {
            run_path: self.run_path.duplicate(),
            state: self.state.duplicate(),
            pending_intent: duplicate_some(&self.pending_intent),
        }
    }
}

impl Clone for Frontier {
    fn clone(&self) -> (r: Self)
        ensures
            r.wire_json() == self.wire_json(),
    {
        self.duplicate()
    }
}

/// A pending human interaction.
#[derive(Debug, PartialEq, Eq)]
pub struct HumanPending {
    /// Run path of the waiting step.
    pub run_path: RunPath,
    /// The request id.
    pub request_id: String,
    /// Why a human is asked.
    pub purpose: HumanPurpose,
    /// Interaction mode; absent for supervision.
    pub mode: Option<HumanMode>,
    /// The prompt.
    pub prompt: String,
    /// Deadline in milliseconds since the epoch; absent for supervision.
    pub deadline_at_ms: Option<u64>,
}

impl Wire for HumanPending {
    open spec fn wire_json(&self) -> JsonV {
        Members::none()
            .with("runPath"@, self.run_path.wire_json())
            .with("requestId"@, self.request_id.wire_json())
            .with("purpose"@, self.purpose.wire_json())
            .with_some("mode"@, wire::wire_some(self.mode))
            .with("prompt"@, self.prompt.wire_json())
            .with_some("deadlineAtMs"@, wire::wire_some(self.deadline_at_ms))
            .object()
    }

    fn to_json(&self) -> (r: Json) {
        JsonMap::new()
            .with("runPath", self.run_path.to_json())
            .with("requestId", self.request_id.to_json())
            .with("purpose", self.purpose.to_json())
            .with_some("mode", some_json(&self.mode))
            .with("prompt", self.prompt.to_json())
            .with_some("deadlineAtMs", some_json(&self.deadline_at_ms))
            .object()
    }
}

impl Duplicate for HumanPending {
    fn duplicate(&self) -> (r: Self) {
        HumanPending {
            run_path: self.run_path.duplicate(),
            request_id: self.request_id.duplicate(),
            purpose: self.purpose.duplicate(),
            mode: duplicate_some(&self.mode),
            prompt: self.prompt.duplicate(),
            deadline_at_ms: self.deadline_at_ms,
        }
    }
}

impl Clone for HumanPending {
    fn clone(&self) -> (r: Self)
        ensures
            r.wire_json() == self.wire_json(),
    {
        self.duplicate()
    }
}

/// Cursor into the event log of a provider session.
#[derive(Debug, PartialEq, Eq)]
pub struct EventCursor {
    /// The session that issued the events.
    pub session_id: String,
    /// Last sequence that was consumed.
    pub last_sequence: u64,
}

impl Wire for EventCursor {
    open spec fn wire_json(&self) -> JsonV {
        Members::none()
            .with("sessionId"@, self.session_id.wire_json())
            .with("lastSequence"@, self.last_sequence.wire_json())
            .object()
    }

    fn to_json(&self) -> (r: Json) {
        JsonMap::new()
            .with("sessionId", self.session_id.to_json())
            .with("lastSequence", self.last_sequence.to_json())
            .object()
    }
}

impl Duplicate for EventCursor {
    fn duplicate(&self) -> (r: Self) {
        EventCursor {
            session_id: self.session_id.duplicate(),
            last_sequence: self.last_sequence,
        }
    }
}

impl Clone for EventCursor {
    fn clone(&self) -> (r: Self)
        ensures
            r.wire_json() == self.wire_json(),
    {
        self.duplicate()
    }
}

/// How a run is bound to a provider.
#[derive(Debug, PartialEq, Eq)]
pub struct BindingState {
    /// The bound device.
    pub device_id: String,
    /// Session generations, oldest first.
    pub session_lineage: Vec<String>,
    /// Cursor into the event log.
    pub event_cursor: EventCursor,
}

impl Wire for BindingState {
    open spec fn wire_json(&self) -> JsonV {
        Members::none()
            .with("deviceId"@, self.device_id.wire_json())
            .with("sessionLineage"@, self.session_lineage.wire_json())
            .with("eventCursor"@, self.event_cursor.wire_json())
            .object()
    }

    fn to_json(&self) -> (r: Json) {
        JsonMap::new()
            .with("deviceId", self.device_id.to_json())
            .with("sessionLineage", self.session_lineage.to_json())
            .with("eventCursor", self.event_cursor.to_json())
            .object()
    }
}

impl Duplicate for BindingState {
    fn duplicate(&self) -> (r: Self) {
        BindingState {
            device_id: self.device_id.duplicate(),
            session_lineage: self.session_lineage.duplicate(),
            event_cursor: self.event_cursor.duplicate(),
        }
    }
}

impl Clone for BindingState {
    fn clone(&self) -> (r: Self)
        ensures
            r.wire_json() == self.wire_json(),
    {
        self.duplicate()
    }
}

/// The materialized view of a run log.
#[derive(Debug, PartialEq, Eq)]
pub struct CheckpointView {
    /// The run.
    pub run_id: String,
    /// Hash of the executing flow.
    pub ir_hash: crate::ir::primitives::Hash,
    /// Digest of the lockfile.
    pub lockfile_digest: crate::ir::primitives::Hash,
    /// Input parameters.
    pub params_snapshot: Json,
    /// Provider binding.
    pub binding: BindingState,
    /// Completed steps, in order.
    pub completed: Vec<StepRecord>,
    /// The call stack, root first.
    pub frames: Vec<CallFrame>,
    /// The step in flight.
    pub frontier: Frontier,
    /// The pending human interaction.
    pub human_pending: Option<HumanPending>,
}

impl Wire for CheckpointView {
    open spec fn wire_json(&self) -> JsonV {
        Members::none()
            .with("runId"@, self.run_id.wire_json())
            .with("irHash"@, self.ir_hash.wire_json())
            .with("lockfileDigest"@, self.lockfile_digest.wire_json())
            .with("paramsSnapshot"@, self.params_snapshot.wire_json())
            .with("binding"@, self.binding.wire_json())
            .with("completed"@, self.completed.wire_json())
            .with("frames"@, self.frames.wire_json())
            .with("frontier"@, self.frontier.wire_json())
            .with_some("humanPending"@, wire::wire_some(self.human_pending))
            .object()
    }

    fn to_json(&self) -> (r: Json) {
        JsonMap::new()
            .with("runId", self.run_id.to_json())
            .with("irHash", self.ir_hash.to_json())
            .with("lockfileDigest", self.lockfile_digest.to_json())
            .with("paramsSnapshot", self.params_snapshot.to_json())
            .with("binding", self.binding.to_json())
            .with("completed", self.completed.to_json())
            .with("frames", self.frames.to_json())
            .with("frontier", self.frontier.to_json())
            .with_some("humanPending", some_json(&self.human_pending))
            .object()
    }
}

impl Duplicate for CheckpointView {
    fn duplicate(&self) -> (r: Self) {
        CheckpointView {
            run_id: self.run_id.duplicate(),
            ir_hash: self.ir_hash.duplicate(),
            lockfile_digest: self.lockfile_digest.duplicate(),
            params_snapshot: self.params_snapshot.duplicate(),
            binding: self.binding.duplicate(),
            completed: self.completed.duplicate(),
            frames: self.frames.duplicate(),
            frontier: self.frontier.duplicate(),
            human_pending: duplicate_some(&self.human_pending),
        }
    }
}

impl Clone for CheckpointView {
    fn clone(&self) -> (r: Self)
        ensures
            r.wire_json() == self.wire_json(),
    {
        self.duplicate()
    }
}

/// One aligned step.
#[derive(Debug, PartialEq, Eq)]
pub struct AlignmentEntry {
    /// The classified instance.
    pub run_path: RunPath,
    /// The step.
    pub step_id: StepId,
    /// Its class.
    pub class: AlignmentClass,
    /// Annotation.
    pub reason: Option<String>,
}

impl Wire for AlignmentEntry {
    open spec fn wire_json(&self) -> JsonV {
        Members::none()
            .with("runPath"@, self.run_path.wire_json())
            .with("stepId"@, self.step_id.wire_json())
            .with("class"@, self.class.wire_json())
            .with_some("reason"@, wire::wire_some(self.reason))
            .object()
    }

    fn to_json(&self) -> (r: Json) {
        JsonMap::new()
            .with("runPath", self.run_path.to_json())
            .with("stepId", self.step_id.to_json())
            .with("class", self.class.to_json())
            .with_some("reason", some_json(&self.reason))
            .object()
    }
}

impl Duplicate for AlignmentEntry {
    fn duplicate(&self) -> (r: Self) {
        AlignmentEntry {
            run_path: self.run_path.duplicate(),
            step_id: self.step_id.duplicate(),
            class: self.class.duplicate(),
            reason: duplicate_some(&self.reason),
        }
    }
}

impl Clone for AlignmentEntry {
    fn clone(&self) -> (r: Self)
        ensures
            r.wire_json() == self.wire_json(),
    {
        self.duplicate()
    }
}

/// A step whose execution needs authorization.
#[derive(Debug, PartialEq, Eq)]
pub struct RequiresConfirmation {
    /// Run path of the step.
    pub run_path: RunPath,
    /// The step id that the authorization names.
    pub step_id: Option<StepId>,
    /// What the authorization was asked for.
    pub cause: String,
    /// Human-readable explanation.
    pub reason: String,
}

impl Wire for RequiresConfirmation {
    open spec fn wire_json(&self) -> JsonV {
        Members::none()
            .with("runPath"@, self.run_path.wire_json())
            .with_some("stepId"@, wire::wire_some(self.step_id))
            .with("cause"@, self.cause.wire_json())
            .with("reason"@, self.reason.wire_json())
            .object()
    }

    fn to_json(&self) -> (r: Json) {
        JsonMap::new()
            .with("runPath", self.run_path.to_json())
            .with_some("stepId", some_json(&self.step_id))
            .with("cause", self.cause.to_json())
            .with("reason", self.reason.to_json())
            .object()
    }
}

impl Duplicate for RequiresConfirmation {
    fn duplicate(&self) -> (r: Self) {
        RequiresConfirmation {
            run_path: self.run_path.duplicate(),
            step_id: duplicate_some(&self.step_id),
            cause: self.cause.duplicate(),
            reason: self.reason.duplicate(),
        }
    }
}

impl Clone for RequiresConfirmation {
    fn clone(&self) -> (r: Self)
        ensures
            r.wire_json() == self.wire_json(),
    {
        self.duplicate()
    }
}

/// How a resumed run aligns with its record.
#[derive(Debug, PartialEq, Eq)]
pub struct AlignmentReport {
    /// Classifications, in flow order.
    pub entries: Vec<AlignmentEntry>,
    /// Where the run resumes.
    pub resume_point: Option<RunPath>,
    /// Steps that need authorization.
    pub requires_confirmation: Vec<RequiresConfirmation>,
}

impl Wire for AlignmentReport {
    open spec fn wire_json(&self) -> JsonV {
        Members::none()
            .with("entries"@, self.entries.wire_json())
            .with_some("resumePoint"@, wire::wire_some(self.resume_point))
            .with("requiresConfirmation"@, self.requires_confirmation.wire_json())
            .object()
    }

    fn to_json(&self) -> (r: Json) {
        JsonMap::new()
            .with("entries", self.entries.to_json())
            .with_some("resumePoint", some_json(&self.resume_point))
            .with("requiresConfirmation", self.requires_confirmation.to_json())
            .object()
    }
}

impl Duplicate for AlignmentReport {
    fn duplicate(&self) -> (r: Self) {
        AlignmentReport {
            entries: self.entries.duplicate(),
            resume_point: duplicate_some(&self.resume_point),
            requires_confirmation: self.requires_confirmation.duplicate(),
        }
    }
}

impl Clone for AlignmentReport {
    fn clone(&self) -> (r: Self)
        ensures
            r.wire_json() == self.wire_json(),
    {
        self.duplicate()
    }
}

} // verus!
