//! Runtime values that a run and a provider exchange.

use vstd::prelude::*;

use crate::ir::vocab::{
    CoordinateFallbackReason, ScreenshotOmissionReason, UiContextKind, UiSnapshotOmissionReason,
    VerdictStatus,
};
use crate::json::{Json, JsonMap, JsonNumber, JsonV, Members};
use crate::keyed;
use crate::keyed::TextMap;
use crate::text;
use crate::wire;
use crate::wire::{duplicate_some, nonempty_map_json, some_json, Duplicate, Wire};

verus! {

/// Content-addressed evidence reference; it never holds bytes.
#[derive(Debug, PartialEq, Eq)]
pub struct AssetRef {
    /// Asset id.
    pub id: String,
    /// Media type.
    pub media_type: String,
    /// Provider URI.
    pub uri: String,
    /// Bare lowercase hex digest of the content, when known.
    pub sha256: Option<String>,
}

impl Wire for AssetRef {
    open spec fn wire_json(&self) -> JsonV {
        Members::none()
            .with("id"@, self.id.wire_json())
            .with("mediaType"@, self.media_type.wire_json())
            .with("uri"@, self.uri.wire_json())
            .with_some("sha256"@, wire::wire_some(self.sha256))
            .object()
    }

    fn to_json(&self) -> (r: Json) {
        JsonMap::new()
            .with("id", self.id.to_json())
            .with("mediaType", self.media_type.to_json())
            .with("uri", self.uri.to_json())
            .with_some("sha256", some_json(&self.sha256))
            .object()
    }
}

impl Duplicate for AssetRef {
    fn duplicate(&self) -> (r: Self) {
        AssetRef {
            id: self.id.duplicate(),
            media_type: self.media_type.duplicate(),
            uri: self.uri.duplicate(),
            sha256: duplicate_some(&self.sha256),
        }
    }
}

impl Clone for AssetRef {
    fn clone(&self) -> (r: Self)
        ensures
            r.wire_json() == self.wire_json(),
    {
        self.duplicate()
    }
}

/// An asset that could not be localized.
#[derive(Debug, PartialEq, Eq)]
pub struct EvidenceGap {
    /// The declared asset.
    pub asset: AssetRef,
    /// Why localization failed.
    pub reason: String,
}

impl Wire for EvidenceGap {
    open spec fn wire_json(&self) -> JsonV {
        Members::none()
            .with("asset"@, self.asset.wire_json())
            .with("reason"@, self.reason.wire_json())
            .object()
    }

    fn to_json(&self) -> (r: Json) {
        JsonMap::new()
            .with("asset", self.asset.to_json())
            .with("reason", self.reason.to_json())
            .object()
    }
}

impl Duplicate for EvidenceGap {
    fn duplicate(&self) -> (r: Self) {
        EvidenceGap {
            asset: self.asset.duplicate(),
            reason: self.reason.duplicate(),
        }
    }
}

impl Clone for EvidenceGap {
    fn clone(&self) -> (r: Self)
        ensures
            r.wire_json() == self.wire_json(),
    {
        self.duplicate()
    }
}

/// A localized asset.
#[derive(Debug, PartialEq, Eq)]
pub struct EvidenceRef {
    /// The reference that this entry was localized from.
    pub asset: AssetRef,
    /// Bare lowercase hex digest of the localized bytes.
    pub sha256: String,
    /// Path in the evidence area.
    pub local_path: String,
}

impl Wire for EvidenceRef {
    open spec fn wire_json(&self) -> JsonV {
        Members::none()
            .with("asset"@, self.asset.wire_json())
            .with("sha256"@, self.sha256.wire_json())
            .with("localPath"@, self.local_path.wire_json())
            .object()
    }

    fn to_json(&self) -> (r: Json) {
        JsonMap::new()
            .with("asset", self.asset.to_json())
            .with("sha256", self.sha256.to_json())
            .with("localPath", self.local_path.to_json())
            .object()
    }
}

impl Duplicate for EvidenceRef {
    fn duplicate(&self) -> (r: Self) {
        EvidenceRef {
            asset: self.asset.duplicate(),
            sha256: self.sha256.duplicate(),
            local_path: self.local_path.duplicate(),
        }
    }
}

impl Clone for EvidenceRef {
    fn clone(&self) -> (r: Self)
        ensures
            r.wire_json() == self.wire_json(),
    {
        self.duplicate()
    }
}

/// Viewport of an observation.
#[derive(Debug, PartialEq, Eq)]
pub struct Viewport {
    /// Width in device-independent pixels.
    pub width: u64,
    /// Height in device-independent pixels.
    pub height: u64,
    /// Device scale factor.
    pub scale_factor: JsonNumber,
}

impl Wire for Viewport {
    open spec fn wire_json(&self) -> JsonV {
        Members::none()
            .with("width"@, self.width.wire_json())
            .with("height"@, self.height.wire_json())
            .with("scaleFactor"@, self.scale_factor.wire_json())
            .object()
    }

    fn to_json(&self) -> (r: Json) {
        JsonMap::new()
            .with("width", self.width.to_json())
            .with("height", self.height.to_json())
            .with("scaleFactor", self.scale_factor.to_json())
            .object()
    }
}

impl Duplicate for Viewport {
    fn duplicate(&self) -> (r: Self) {
        Viewport {
            width: self.width,
            height: self.height,
            scale_factor: self.scale_factor.duplicate(),
        }
    }
}

impl Clone for Viewport {
    fn clone(&self) -> (r: Self)
        ensures
            r.wire_json() == self.wire_json(),
    {
        self.duplicate()
    }
}

/// Identity of one UI context. A changed epoch invalidates earlier nodes.
#[derive(Debug, PartialEq, Eq)]
pub struct UiContextRef {
    /// Context kind.
    pub context_kind: UiContextKind,
    /// Context id.
    pub context_id: String,
    /// Epoch token.
    pub document_epoch: String,
}

impl Wire for UiContextRef {
    open spec fn wire_json(&self) -> JsonV {
        Members::none()
            .with("contextKind"@, self.context_kind.wire_json())
            .with("contextId"@, self.context_id.wire_json())
            .with("documentEpoch"@, self.document_epoch.wire_json())
            .object()
    }

    fn to_json(&self) -> (r: Json) {
        JsonMap::new()
            .with("contextKind", self.context_kind.to_json())
            .with("contextId", self.context_id.to_json())
            .with("documentEpoch", self.document_epoch.to_json())
            .object()
    }
}

impl Duplicate for UiContextRef {
    fn duplicate(&self) -> (r: Self) {
        UiContextRef {
            context_kind: self.context_kind.duplicate(),
            context_id: self.context_id.duplicate(),
            document_epoch: self.document_epoch.duplicate(),
        }
    }
}

impl Clone for UiContextRef {
    fn clone(&self) -> (r: Self)
        ensures
            r.wire_json() == self.wire_json(),
    {
        self.duplicate()
    }
}

/// Reference to one node of a captured UI snapshot.
#[derive(Debug, PartialEq, Eq)]
pub struct UiNodeRef {
    /// The observation that the node was captured in.
    pub observation_id: String,
    /// The UI context.
    pub context: UiContextRef,
    /// Stable node id inside the snapshot.
    pub stable_node_id: String,
}

impl Wire for UiNodeRef {
    open spec fn wire_json(&self) -> JsonV {
        Members::none()
            .with("observationId"@, self.observation_id.wire_json())
            .with("context"@, self.context.wire_json())
            .with("stableNodeId"@, self.stable_node_id.wire_json())
            .object()
    }

    fn to_json(&self) -> (r: Json) {
        JsonMap::new()
            .with("observationId", self.observation_id.to_json())
            .with("context", self.context.to_json())
            .with("stableNodeId", self.stable_node_id.to_json())
            .object()
    }
}

impl Duplicate for UiNodeRef {
    fn duplicate(&self) -> (r: Self) {
        UiNodeRef {
            observation_id: self.observation_id.duplicate(),
            context: self.context.duplicate(),
            stable_node_id: self.stable_node_id.duplicate(),
        }
    }
}

impl Clone for UiNodeRef {
    fn clone(&self) -> (r: Self)
        ensures
            r.wire_json() == self.wire_json(),
    {
        self.duplicate()
    }
}

/// Reference to the UI-tree evidence of an observation.
#[derive(Debug, PartialEq, Eq)]
pub struct UiSnapshotRef {
    /// The normalized UI-tree evidence.
    pub evidence: AssetRef,
}

impl Wire for UiSnapshotRef {
    open spec fn wire_json(&self) -> JsonV {
        Members::none().with("evidence"@, self.evidence.wire_json()).object()
    }

    fn to_json(&self) -> (r: Json) {
        JsonMap::new().with("evidence", self.evidence.to_json()).object()
    }
}

impl Duplicate for UiSnapshotRef {
    fn duplicate(&self) -> (r: Self) {
        UiSnapshotRef {
            evidence: self.evidence.duplicate(),
        }
    }
}

impl Clone for UiSnapshotRef {
    fn clone(&self) -> (r: Self)
        ensures
            r.wire_json() == self.wire_json(),
    {
        self.duplicate()
    }
}

/// A snapshot of the world at one time. Omissions are data, not errors.
#[derive(Debug, PartialEq, Eq)]
pub struct Observation {
    /// Observation id.
    pub id: String,
    /// Device that was observed.
    pub device_id: String,
    /// Capture time in milliseconds since the epoch.
    pub captured_at_ms: u64,
    /// Viewport at capture.
    pub viewport: Viewport,
    /// Screenshot evidence.
    pub screenshot: Option<AssetRef>,
    /// Why there is no screenshot.
    pub screenshot_omission: Option<ScreenshotOmissionReason>,
    /// UI-tree evidence.
    pub ui_snapshot: Option<UiSnapshotRef>,
    /// Why there is no UI snapshot.
    pub ui_snapshot_omission: Option<UiSnapshotOmissionReason>,
    /// Provider metadata.
    pub metadata: TextMap<Json>,
}

impl Wire for Observation {
    open spec fn wire_json(&self) -> JsonV {
        Members::none()
            .with("id"@, self.id.wire_json())
            .with("deviceId"@, self.device_id.wire_json())
            .with("capturedAtMs"@, self.captured_at_ms.wire_json())
            .with("viewport"@, self.viewport.wire_json())
            .with_some("screenshot"@, wire::wire_some(self.screenshot))
            .with_some("screenshotOmission"@, wire::wire_some(self.screenshot_omission))
            .with_some("uiSnapshot"@, wire::wire_some(self.ui_snapshot))
            .with_some("uiSnapshotOmission"@, wire::wire_some(self.ui_snapshot_omission))
            .with_some("metadata"@, wire::wire_nonempty_map(self.metadata@))
            .object()
    }

    fn to_json(&self) -> (r: Json) {
        JsonMap::new()
            .with("id", self.id.to_json())
            .with("deviceId", self.device_id.to_json())
            .with("capturedAtMs", self.captured_at_ms.to_json())
            .with("viewport", self.viewport.to_json())
            .with_some("screenshot", some_json(&self.screenshot))
            .with_some("screenshotOmission", some_json(&self.screenshot_omission))
            .with_some("uiSnapshot", some_json(&self.ui_snapshot))
            .with_some("uiSnapshotOmission", some_json(&self.ui_snapshot_omission))
            .with_some("metadata", nonempty_map_json(&self.metadata))
            .object()
    }
}

/// Observation, as contracts see it.
pub struct ObservationV {
    /// Observation id.
    pub id: Seq<char>,
    /// Device that was observed.
    pub device_id: Seq<char>,
    /// Capture time in milliseconds since the epoch.
    pub captured_at_ms: u64,
    /// Viewport at capture.
    pub viewport: JsonV,
    /// Screenshot evidence.
    pub screenshot: Option<JsonV>,
    /// Why there is no screenshot.
    pub screenshot_omission: Option<ScreenshotOmissionReason>,
    /// UI-tree evidence.
    pub ui_snapshot: Option<JsonV>,
    /// Why there is no UI snapshot.
    pub ui_snapshot_omission: Option<UiSnapshotOmissionReason>,
    /// Provider metadata.
    pub metadata: Members,
}

impl Observation {
    /// The value, as contracts see it.
    pub open spec fn view(&self) -> ObservationV {
        ObservationV {
            id: self.id@,
            device_id: self.device_id@,
            captured_at_ms: self.captured_at_ms,
            viewport: self.viewport.wire_json(),
            screenshot: wire::wire_some(self.screenshot),
            screenshot_omission: self.screenshot_omission,
            ui_snapshot: wire::wire_some(self.ui_snapshot),
            ui_snapshot_omission: self.ui_snapshot_omission,
            metadata: wire::wire_members(self.metadata@.entries),
        }
    }
}

impl ObservationV {
    /// The JSON form of the observation.
    pub open spec fn json(self) -> JsonV {
        Members::none()
            .with("id"@, JsonV::Text(self.id))
            .with("deviceId"@, JsonV::Text(self.device_id))
            .with("capturedAtMs"@, self.captured_at_ms.wire_json())
            .with("viewport"@, self.viewport)
            .with_some("screenshot"@, self.screenshot)
            .with_some("screenshotOmission"@, wire::wire_some(self.screenshot_omission))
            .with_some("uiSnapshot"@, self.ui_snapshot)
            .with_some("uiSnapshotOmission"@, wire::wire_some(self.ui_snapshot_omission))
            .with_some(
                "metadata"@,
                if self.metadata.entries.len() == 0 {
                    None
                } else {
                    Some(self.metadata.object())
                },
            )
            .object()
    }
}

/// What contracts see of an observation gives its JSON form.
pub proof fn lemma_observation_json(o: Observation)
    ensures
        o.wire_json() == o@.json(),
{
    let entries = o.metadata@.entries;
    if entries.len() > 0 {
        keyed::lemma_slot(wire::wire_members(entries.drop_last()), entries.last().0, 0);
        assert(wire::wire_members(entries).entries.len() > 0);
    }
}

impl Duplicate for Observation {
    fn duplicate(&self) -> (r: Self)
        ensures
            r@ == self@,
    {
        Observation {
            id: self.id.duplicate(),
            device_id: self.device_id.duplicate(),
            captured_at_ms: self.captured_at_ms,
            viewport: self.viewport.duplicate(),
            screenshot: duplicate_some(&self.screenshot),
            screenshot_omission: self.screenshot_omission,
            ui_snapshot: duplicate_some(&self.ui_snapshot),
            ui_snapshot_omission: self.ui_snapshot_omission,
            metadata: self.metadata.duplicate(),
        }
    }
}

impl Clone for Observation {
    fn clone(&self) -> (r: Self)
        ensures
            r@ == self@,
            r.wire_json() == self.wire_json(),
    {
        self.duplicate()
    }
}

/// Structured error with a stable code.
#[derive(Debug, PartialEq, Eq)]
pub struct ErrorInfo {
    /// Stable error code.
    pub code: String,
    /// Human-readable message.
    pub message: String,
    /// Whether the originator considers the failure retryable.
    pub retryable: bool,
    /// Structured details.
    pub details: Option<Json>,
}

impl Wire for ErrorInfo {
    open spec fn wire_json(&self) -> JsonV {
        Members::none()
            .with("code"@, self.code.wire_json())
            .with("message"@, self.message.wire_json())
            .with("retryable"@, self.retryable.wire_json())
            .with_some("details"@, wire::wire_some(self.details))
            .object()
    }

    fn to_json(&self) -> (r: Json) {
        JsonMap::new()
            .with("code", self.code.to_json())
            .with("message", self.message.to_json())
            .with("retryable", self.retryable.to_json())
            .with_some("details", some_json(&self.details))
            .object()
    }
}

/// ErrorInfo, as contracts see it.
pub struct ErrorInfoV {
    /// Stable error code.
    pub code: Seq<char>,
    /// Human-readable message.
    pub message: Seq<char>,
    /// Whether the originator considers the failure retryable.
    pub retryable: bool,
    /// Structured details.
    pub details: Option<JsonV>,
}

impl ErrorInfo {
    /// The value, as contracts see it.
    pub open spec fn view(&self) -> ErrorInfoV {
        ErrorInfoV {
            code: self.code@,
            message: self.message@,
            retryable: self.retryable,
            details: wire::wire_some(self.details),
        }
    }
}

impl Duplicate for ErrorInfo {
    fn duplicate(&self) -> (r: Self)
        ensures
            r@ == self@,
    {
        ErrorInfo {
            code: self.code.duplicate(),
            message: self.message.duplicate(),
            retryable: self.retryable,
            details: duplicate_some(&self.details),
        }
    }
}

impl Clone for ErrorInfo {
    fn clone(&self) -> (r: Self)
        ensures
            r@ == self@,
            r.wire_json() == self.wire_json(),
    {
        self.duplicate()
    }
}

/// The execution mode that the provider used.
#[allow(inconsistent_fields)]
#[derive(Debug, PartialEq, Eq)]
pub enum ActionExecution {
    /// Native semantic channel.
    NativeSemantic {
        /// The UI context that the action ran in.
        context: UiContextRef,
    },
    /// Web semantic channel.
    WebSemantic {
        /// The UI context that the action ran in.
        context: UiContextRef,
    },
    /// Fallback to coordinates inside the daemon.
    CoordinateFallback {
        /// The UI context that the action ran in.
        context: UiContextRef,
        /// Why the daemon fell back.
        fallback_reason: CoordinateFallbackReason,
    },
}

impl Wire for ActionExecution {
    open spec fn wire_json(&self) -> JsonV {
        match self {
            ActionExecution::NativeSemantic { context } => Members::none()
                .with("mode"@, JsonV::Text("nativeSemantic"@))
                .with("context"@, context.wire_json())
                .object(),
            ActionExecution::WebSemantic { context } => Members::none()
                .with("mode"@, JsonV::Text("webSemantic"@))
                .with("context"@, context.wire_json())
                .object(),
            ActionExecution::CoordinateFallback { context, fallback_reason } => Members::none()
                .with("mode"@, JsonV::Text("coordinateFallback"@))
                .with("context"@, context.wire_json())
                .with("fallbackReason"@, fallback_reason.wire_json())
                .object(),
        }
    }

    fn to_json(&self) -> (r: Json) {
        match self {
            ActionExecution::NativeSemantic { context } => JsonMap::new()
                .with("mode", Json::text("nativeSemantic"))
                .with("context", context.to_json())
                .object(),
            ActionExecution::WebSemantic { context } => JsonMap::new()
                .with("mode", Json::text("webSemantic"))
                .with("context", context.to_json())
                .object(),
            ActionExecution::CoordinateFallback { context, fallback_reason } => JsonMap::new()
                .with("mode", Json::text("coordinateFallback"))
                .with("context", context.to_json())
                .with("fallbackReason", fallback_reason.to_json())
                .object(),
        }
    }
}

impl Duplicate for ActionExecution {
    fn duplicate(&self) -> (r: Self) {
        match self {
            ActionExecution::NativeSemantic { context } => ActionExecution::NativeSemantic {
                context: context.duplicate(),
            },
            ActionExecution::WebSemantic { context } => ActionExecution::WebSemantic {
                context: context.duplicate(),
            },
            ActionExecution::CoordinateFallback { context, fallback_reason } => ActionExecution::CoordinateFallback {
                context: context.duplicate(),
                fallback_reason: fallback_reason.duplicate(),
            },
        }
    }
}

impl Clone for ActionExecution {
    fn clone(&self) -> (r: Self)
        ensures
            r.wire_json() == self.wire_json(),
    {
        self.duplicate()
    }
}

/// Result of a succeeded action.
#[derive(Debug, PartialEq, Eq)]
pub struct ActionResult {
    /// The action id.
    pub call_id: String,
    /// Dispatch time in milliseconds since the epoch.
    pub started_at_ms: u64,
    /// Terminal time in milliseconds since the epoch.
    pub finished_at_ms: u64,
    /// Action output.
    pub output: Json,
    /// The world before the action.
    pub before: Option<Observation>,
    /// The world after the action.
    pub after: Option<Observation>,
    /// Evidence that the action produced.
    pub evidence: Vec<AssetRef>,
    /// The execution mode.
    pub execution: Option<ActionExecution>,
}

impl Wire for ActionResult {
    open spec fn wire_json(&self) -> JsonV {
        Members::none()
            .with("callId"@, self.call_id.wire_json())
            .with("startedAtMs"@, self.started_at_ms.wire_json())
            .with("finishedAtMs"@, self.finished_at_ms.wire_json())
            .with("output"@, self.output.wire_json())
            .with_some("before"@, wire::wire_some(self.before))
            .with_some("after"@, wire::wire_some(self.after))
            .with("evidence"@, self.evidence.wire_json())
            .with_some("execution"@, wire::wire_some(self.execution))
            .object()
    }

    fn to_json(&self) -> (r: Json) {
        JsonMap::new()
            .with("callId", self.call_id.to_json())
            .with("startedAtMs", self.started_at_ms.to_json())
            .with("finishedAtMs", self.finished_at_ms.to_json())
            .with("output", self.output.to_json())
            .with_some("before", some_json(&self.before))
            .with_some("after", some_json(&self.after))
            .with("evidence", self.evidence.to_json())
            .with_some("execution", some_json(&self.execution))
            .object()
    }
}

/// ActionResult, as contracts see it.
pub struct ActionResultV {
    /// The action id.
    pub call_id: Seq<char>,
    /// Dispatch time in milliseconds since the epoch.
    pub started_at_ms: u64,
    /// Terminal time in milliseconds since the epoch.
    pub finished_at_ms: u64,
    /// Action output.
    pub output: JsonV,
    /// The world before the action.
    pub before: Option<JsonV>,
    /// The world after the action.
    pub after: Option<JsonV>,
    /// Evidence that the action produced.
    pub evidence: Seq<JsonV>,
    /// The execution mode.
    pub execution: Option<JsonV>,
}

impl ActionResult {
    /// The value, as contracts see it.
    pub open spec fn view(&self) -> ActionResultV {
        ActionResultV {
            call_id: self.call_id@,
            started_at_ms: self.started_at_ms,
            finished_at_ms: self.finished_at_ms,
            output: self.output.wire_json(),
            before: wire::wire_some(self.before),
            after: wire::wire_some(self.after),
            evidence: wire::wire_items(self.evidence@),
            execution: wire::wire_some(self.execution),
        }
    }
}

impl Duplicate for ActionResult {
    fn duplicate(&self) -> (r: Self)
        ensures
            r@ == self@,
    {
        ActionResult {
            call_id: self.call_id.duplicate(),
            started_at_ms: self.started_at_ms,
            finished_at_ms: self.finished_at_ms,
            output: self.output.duplicate(),
            before: duplicate_some(&self.before),
            after: duplicate_some(&self.after),
            evidence: self.evidence.duplicate(),
            execution: duplicate_some(&self.execution),
        }
    }
}

impl Clone for ActionResult {
    fn clone(&self) -> (r: Self)
        ensures
            r@ == self@,
            r.wire_json() == self.wire_json(),
    {
        self.duplicate()
    }
}

/// Terminal outcome of an action.
#[allow(inconsistent_fields)]
#[derive(Debug, PartialEq, Eq)]
pub enum ActionOutcome {
    /// The action reported a result.
    Succeeded {
        /// The result.
        result: Box<ActionResult>,
    },
    /// The action failed.
    Failed {
        /// The failure.
        error: ErrorInfo,
    },
    /// The action was cancelled.
    Cancelled {
        /// The cancellation.
        error: ErrorInfo,
    },
    /// The budget of the action elapsed.
    TimedOut {
        /// The timeout.
        error: ErrorInfo,
    },
}

impl Wire for ActionOutcome {
    open spec fn wire_json(&self) -> JsonV {
        match self {
            ActionOutcome::Succeeded { result } => Members::none()
                .with("outcome"@, JsonV::Text("succeeded"@))
                .with("result"@, result.wire_json())
                .object(),
            ActionOutcome::Failed { error } => Members::none()
                .with("outcome"@, JsonV::Text("failed"@))
                .with("error"@, error.wire_json())
                .object(),
            ActionOutcome::Cancelled { error } => Members::none()
                .with("outcome"@, JsonV::Text("cancelled"@))
                .with("error"@, error.wire_json())
                .object(),
            ActionOutcome::TimedOut { error } => Members::none()
                .with("outcome"@, JsonV::Text("timedOut"@))
                .with("error"@, error.wire_json())
                .object(),
        }
    }

    fn to_json(&self) -> (r: Json) {
        match self {
            ActionOutcome::Succeeded { result } => JsonMap::new()
                .with("outcome", Json::text("succeeded"))
                .with("result", result.to_json())
                .object(),
            ActionOutcome::Failed { error } => JsonMap::new()
                .with("outcome", Json::text("failed"))
                .with("error", error.to_json())
                .object(),
            ActionOutcome::Cancelled { error } => JsonMap::new()
                .with("outcome", Json::text("cancelled"))
                .with("error", error.to_json())
                .object(),
            ActionOutcome::TimedOut { error } => JsonMap::new()
                .with("outcome", Json::text("timedOut"))
                .with("error", error.to_json())
                .object(),
        }
    }
}

/// An outcome, as contracts see it.
pub enum ActionOutcomeV {
    /// The action reported a result.
    Succeeded(ActionResultV),
    /// The action failed.
    Failed(ErrorInfoV),
    /// The action was cancelled.
    Cancelled(ErrorInfoV),
    /// The budget of the action elapsed.
    TimedOut(ErrorInfoV),
}

impl ActionOutcome {
    /// The outcome, as contracts see it.
    pub open spec fn view(&self) -> ActionOutcomeV {
        match self {
            ActionOutcome::Succeeded { result } => ActionOutcomeV::Succeeded(result@),
            ActionOutcome::Failed { error } => ActionOutcomeV::Failed(error@),
            ActionOutcome::Cancelled { error } => ActionOutcomeV::Cancelled(error@),
            ActionOutcome::TimedOut { error } => ActionOutcomeV::TimedOut(error@),
        }
    }
}

impl Duplicate for ActionOutcome {
    fn duplicate(&self) -> (r: Self)
        ensures
            r@ == self@,
    {
        match self {
            ActionOutcome::Succeeded { result } => ActionOutcome::Succeeded {
                result: Box::new((**result).duplicate()),
            },
            ActionOutcome::Failed { error } => ActionOutcome::Failed { error: error.duplicate() },
            ActionOutcome::Cancelled { error } => ActionOutcome::Cancelled {
                error: error.duplicate(),
            },
            ActionOutcome::TimedOut { error } => ActionOutcome::TimedOut {
                error: error.duplicate(),
            },
        }
    }
}

impl Clone for ActionOutcome {
    fn clone(&self) -> (r: Self)
        ensures
            r@ == self@,
            r.wire_json() == self.wire_json(),
    {
        self.duplicate()
    }
}

impl ActionOutcome {
    /// The wire discriminant of this outcome.
    pub open spec fn spec_kind(self) -> Seq<char> {
        match self {
            ActionOutcome::Succeeded { .. } => "succeeded"@,
            ActionOutcome::Failed { .. } => "failed"@,
            ActionOutcome::Cancelled { .. } => "cancelled"@,
            ActionOutcome::TimedOut { .. } => "timedOut"@,
        }
    }

    /// The wire discriminant of this outcome.
    pub fn kind(&self) -> (r: &'static str)
        ensures
            r@ == self.spec_kind(),
    {
        match self {
            ActionOutcome::Succeeded { .. } => "succeeded",
            ActionOutcome::Failed { .. } => "failed",
            ActionOutcome::Cancelled { .. } => "cancelled",
            ActionOutcome::TimedOut { .. } => "timedOut",
        }
    }
}

/// Fate of an action that hung when a run crashed.
#[allow(inconsistent_fields)]
#[derive(Debug, PartialEq, Eq)]
pub enum ReconcileResult {
    /// A terminal is on record: adopt it.
    Completed {
        /// The recorded terminal.
        outcome: Box<ActionOutcome>,
    },
    /// The log shows no trace: safe to replay.
    NeverDispatched,
    /// A start without a terminal: uncertain.
    StartedNoTerminal,
    /// The log cannot be read: uncertain.
    LogUnavailable {
        /// Why the log could not be read.
        reason: String,
    },
}

impl Wire for ReconcileResult {
    open spec fn wire_json(&self) -> JsonV {
        match self {
            ReconcileResult::Completed { outcome } => Members::none()
                .with("fate"@, JsonV::Text("completed"@))
                .with("outcome"@, outcome.wire_json())
                .object(),
            ReconcileResult::NeverDispatched => Members::none()
                .with("fate"@, JsonV::Text("neverDispatched"@))
                .object(),
            ReconcileResult::StartedNoTerminal => Members::none()
                .with("fate"@, JsonV::Text("startedNoTerminal"@))
                .object(),
            ReconcileResult::LogUnavailable { reason } => Members::none()
                .with("fate"@, JsonV::Text("logUnavailable"@))
                .with("reason"@, reason.wire_json())
                .object(),
        }
    }

    fn to_json(&self) -> (r: Json) {
        match self {
            ReconcileResult::Completed { outcome } => JsonMap::new()
                .with("fate", Json::text("completed"))
                .with("outcome", outcome.to_json())
                .object(),
            ReconcileResult::NeverDispatched => JsonMap::new()
                .with("fate", Json::text("neverDispatched"))
                .object(),
            ReconcileResult::StartedNoTerminal => JsonMap::new()
                .with("fate", Json::text("startedNoTerminal"))
                .object(),
            ReconcileResult::LogUnavailable { reason } => JsonMap::new()
                .with("fate", Json::text("logUnavailable"))
                .with("reason", reason.to_json())
                .object(),
        }
    }
}

impl Duplicate for ReconcileResult {
    fn duplicate(&self) -> (r: Self) {
        match self {
            ReconcileResult::Completed { outcome } => ReconcileResult::Completed {
                outcome: outcome.duplicate(),
            },
            ReconcileResult::NeverDispatched => ReconcileResult::NeverDispatched,
            ReconcileResult::StartedNoTerminal => ReconcileResult::StartedNoTerminal,
            ReconcileResult::LogUnavailable { reason } => ReconcileResult::LogUnavailable {
                reason: reason.duplicate(),
            },
        }
    }
}

impl Clone for ReconcileResult {
    fn clone(&self) -> (r: Self)
        ensures
            r.wire_json() == self.wire_json(),
    {
        self.duplicate()
    }
}

/// The fate of a call, as contracts see it.
pub enum FateV {
    /// A terminal is on record.
    Completed(ActionOutcomeV),
    /// The log shows no trace.
    NeverDispatched,
    /// A dispatch without a terminal.
    StartedNoTerminal,
    /// The log cannot be read.
    LogUnavailable(Seq<char>),
}

/// A fate, as contracts see it.
pub open spec fn fate_view(r: ReconcileResult) -> FateV {
    match r {
        ReconcileResult::Completed { outcome } => FateV::Completed(outcome@),
        ReconcileResult::NeverDispatched => FateV::NeverDispatched,
        ReconcileResult::StartedNoTerminal => FateV::StartedNoTerminal,
        ReconcileResult::LogUnavailable { reason } => FateV::LogUnavailable(reason@),
    }
}

impl ActionOutcomeV {
    /// The wire discriminant of this outcome.
    pub open spec fn kind(self) -> Seq<char> {
        match self {
            ActionOutcomeV::Succeeded(_) => "succeeded"@,
            ActionOutcomeV::Failed(_) => "failed"@,
            ActionOutcomeV::Cancelled(_) => "cancelled"@,
            ActionOutcomeV::TimedOut(_) => "timedOut"@,
        }
    }
}

/// A folded verdict.
#[derive(Debug, PartialEq, Eq)]
pub struct Verdict {
    /// Three-valued status.
    pub status: VerdictStatus,
    /// Whether the pass rests on a degraded channel.
    pub degraded: bool,
    /// Human-readable summary.
    pub summary: String,
    /// Cited evidence.
    pub evidence: Vec<AssetRef>,
    /// The verdict that this one supersedes.
    pub supersedes: Option<String>,
}

impl Wire for Verdict {
    open spec fn wire_json(&self) -> JsonV {
        Members::none()
            .with("status"@, self.status.wire_json())
            .with("degraded"@, self.degraded.wire_json())
            .with("summary"@, self.summary.wire_json())
            .with("evidence"@, self.evidence.wire_json())
            .with_some("supersedes"@, wire::wire_some(self.supersedes))
            .object()
    }

    fn to_json(&self) -> (r: Json) {
        JsonMap::new()
            .with("status", self.status.to_json())
            .with("degraded", self.degraded.to_json())
            .with("summary", self.summary.to_json())
            .with("evidence", self.evidence.to_json())
            .with_some("supersedes", some_json(&self.supersedes))
            .object()
    }
}

impl Duplicate for Verdict {
    fn duplicate(&self) -> (r: Self) {
        Verdict {
            status: self.status,
            degraded: self.degraded,
            summary: self.summary.duplicate(),
            evidence: self.evidence.duplicate(),
            supersedes: duplicate_some(&self.supersedes),
        }
    }
}

impl Clone for Verdict {
    fn clone(&self) -> (r: Self)
        ensures
            r.wire_json() == self.wire_json(),
    {
        self.duplicate()
    }
}

/// The part of a verdict that a step record keeps.
#[derive(Debug, PartialEq, Eq)]
pub struct StepVerdict {
    /// Three-valued status.
    pub status: VerdictStatus,
    /// Whether the pass rests on a degraded channel.
    pub degraded: bool,
    /// The verdict that this one supersedes.
    pub supersedes: Option<String>,
}

impl Wire for StepVerdict {
    open spec fn wire_json(&self) -> JsonV {
        Members::none()
            .with("status"@, self.status.wire_json())
            .with("degraded"@, self.degraded.wire_json())
            .with_some("supersedes"@, wire::wire_some(self.supersedes))
            .object()
    }

    fn to_json(&self) -> (r: Json) {
        JsonMap::new()
            .with("status", self.status.to_json())
            .with("degraded", self.degraded.to_json())
            .with_some("supersedes", some_json(&self.supersedes))
            .object()
    }
}

impl Duplicate for StepVerdict {
    fn duplicate(&self) -> (r: Self) {
        StepVerdict {
            status: self.status,
            degraded: self.degraded,
            supersedes: duplicate_some(&self.supersedes),
        }
    }
}

impl Clone for StepVerdict {
    fn clone(&self) -> (r: Self)
        ensures
            r.wire_json() == self.wire_json(),
    {
        self.duplicate()
    }
}

} // verus!
