//! The JSON forms of what a run records tell it apart.

use vstd::prelude::*;
use vstd::string::*;

use crate::ir::record::{
    AlignmentEntry, AlignmentReport, AssertionOutcomeRecord, AttemptRecord, AttestationSnapshot,
    BindingState, CallFrame, CheckpointView, EventCursor, Frontier, HumanPending, IterState,
    ObservationRecord, PendingIntent, ProviderStateSummary, RequiresConfirmation,
    SessionHealthSnapshot, StepRecord,
};
use crate::ir::run_path::PathFrame;
use crate::ir::runtime::{
    ActionExecution, ActionOutcome, ActionResult, AssetRef, ErrorInfo, EvidenceGap, EvidenceRef,
    Observation, ReconcileResult, StepVerdict, UiContextRef, UiNodeRef, UiSnapshotRef, Verdict,
    Viewport,
};
use crate::json::JsonV;
use crate::keyed;
use crate::told::Told;
use crate::told;
use crate::wire::Wire;
use crate::wire;

verus! {

proof fn lemma_asset_ref_keys()
    ensures
        keyed::key_code("id"@) == 2105100100,
        keyed::key_code("uri"@) == 3117105105,
        keyed::key_code("sha256"@) == 6115053054,
        keyed::key_code("mediaType"@) == 9109121101,
{
    reveal_strlit("id");
    reveal_strlit("uri");
    reveal_strlit("sha256");
    reveal_strlit("mediaType");
}

/// The JSON form of [`AssetRef`] holds every field under its name, and nothing else.
pub proof fn law_asset_ref_form(v: AssetRef)
    ensures
        v.wire_json() is Object,
        v.wire_json().member("id"@) == Some(v.id.wire_json()),
        v.wire_json().member("mediaType"@) == Some(v.media_type.wire_json()),
        v.wire_json().member("uri"@) == Some(v.uri.wire_json()),
        v.wire_json().member("sha256"@) == wire::wire_some(v.sha256),
        forall|key: Seq<char>| #[trigger]
            v.wire_json().member(key) is Some ==> key == "id"@ || key == "mediaType"@
                || key == "uri"@ || key == "sha256"@,
{
    broadcast use
        keyed::lemma_get_after_with,
        keyed::lemma_get_after_with_some,
        keyed::lemma_sorted_after_with,
        keyed::lemma_sorted_after_with_some,
    ;

    lemma_asset_ref_keys();
}

impl Told for AssetRef {
    open spec fn ordered(&self) -> bool {
        true
    }

    open spec fn same(&self, other: &Self) -> bool {
        &&& self.id.same(&other.id)
        &&& self.media_type.same(&other.media_type)
        &&& self.uri.same(&other.uri)
        &&& told::same_some(self.sha256, other.sha256)
    }

    proof fn told(a: &Self, b: &Self) {
        law_asset_ref_form(*a);
        law_asset_ref_form(*b);
        assert(a.wire_json().member("id"@) == b.wire_json().member("id"@));
        Told::told(&a.id, &b.id);
        assert(a.wire_json().member("mediaType"@) == b.wire_json().member("mediaType"@));
        Told::told(&a.media_type, &b.media_type);
        assert(a.wire_json().member("uri"@) == b.wire_json().member("uri"@));
        Told::told(&a.uri, &b.uri);
        assert(a.wire_json().member("sha256"@) == b.wire_json().member("sha256"@));
        told::law_optional_values_are_told(a.sha256, b.sha256);
    }
}

proof fn lemma_evidence_gap_keys()
    ensures
        keyed::key_code("asset"@) == 5097101116,
        keyed::key_code("reason"@) == 6114111110,
{
    reveal_strlit("asset");
    reveal_strlit("reason");
}

/// The JSON form of [`EvidenceGap`] holds every field under its name, and nothing else.
pub proof fn law_evidence_gap_form(v: EvidenceGap)
    ensures
        v.wire_json() is Object,
        v.wire_json().member("asset"@) == Some(v.asset.wire_json()),
        v.wire_json().member("reason"@) == Some(v.reason.wire_json()),
        forall|key: Seq<char>| #[trigger]
            v.wire_json().member(key) is Some ==> key == "asset"@ || key == "reason"@,
{
    broadcast use
        keyed::lemma_get_after_with,
        keyed::lemma_get_after_with_some,
        keyed::lemma_sorted_after_with,
        keyed::lemma_sorted_after_with_some,
    ;

    lemma_evidence_gap_keys();
}

impl Told for EvidenceGap {
    open spec fn ordered(&self) -> bool {
        true
    }

    open spec fn same(&self, other: &Self) -> bool {
        &&& self.asset.same(&other.asset)
        &&& self.reason.same(&other.reason)
    }

    proof fn told(a: &Self, b: &Self) {
        law_evidence_gap_form(*a);
        law_evidence_gap_form(*b);
        assert(a.wire_json().member("asset"@) == b.wire_json().member("asset"@));
        Told::told(&a.asset, &b.asset);
        assert(a.wire_json().member("reason"@) == b.wire_json().member("reason"@));
        Told::told(&a.reason, &b.reason);
    }
}

proof fn lemma_evidence_ref_keys()
    ensures
        keyed::key_code("asset"@) == 5097101116,
        keyed::key_code("sha256"@) == 6115053054,
        keyed::key_code("localPath"@) == 9108097104,
{
    reveal_strlit("asset");
    reveal_strlit("sha256");
    reveal_strlit("localPath");
}

/// The JSON form of [`EvidenceRef`] holds every field under its name, and nothing else.
pub proof fn law_evidence_ref_form(v: EvidenceRef)
    ensures
        v.wire_json() is Object,
        v.wire_json().member("asset"@) == Some(v.asset.wire_json()),
        v.wire_json().member("sha256"@) == Some(v.sha256.wire_json()),
        v.wire_json().member("localPath"@) == Some(v.local_path.wire_json()),
        forall|key: Seq<char>| #[trigger]
            v.wire_json().member(key) is Some ==> key == "asset"@ || key == "sha256"@
                || key == "localPath"@,
{
    broadcast use
        keyed::lemma_get_after_with,
        keyed::lemma_get_after_with_some,
        keyed::lemma_sorted_after_with,
        keyed::lemma_sorted_after_with_some,
    ;

    lemma_evidence_ref_keys();
}

impl Told for EvidenceRef {
    open spec fn ordered(&self) -> bool {
        true
    }

    open spec fn same(&self, other: &Self) -> bool {
        &&& self.asset.same(&other.asset)
        &&& self.sha256.same(&other.sha256)
        &&& self.local_path.same(&other.local_path)
    }

    proof fn told(a: &Self, b: &Self) {
        law_evidence_ref_form(*a);
        law_evidence_ref_form(*b);
        assert(a.wire_json().member("asset"@) == b.wire_json().member("asset"@));
        Told::told(&a.asset, &b.asset);
        assert(a.wire_json().member("sha256"@) == b.wire_json().member("sha256"@));
        Told::told(&a.sha256, &b.sha256);
        assert(a.wire_json().member("localPath"@) == b.wire_json().member("localPath"@));
        Told::told(&a.local_path, &b.local_path);
    }
}

proof fn lemma_viewport_keys()
    ensures
        keyed::key_code("width"@) == 5119116104,
        keyed::key_code("height"@) == 6104104116,
        keyed::key_code("scaleFactor"@) == 11115116114,
{
    reveal_strlit("width");
    reveal_strlit("height");
    reveal_strlit("scaleFactor");
}

/// The JSON form of [`Viewport`] holds every field under its name, and nothing else.
pub proof fn law_viewport_form(v: Viewport)
    ensures
        v.wire_json() is Object,
        v.wire_json().member("width"@) == Some(v.width.wire_json()),
        v.wire_json().member("height"@) == Some(v.height.wire_json()),
        v.wire_json().member("scaleFactor"@) == Some(v.scale_factor.wire_json()),
        forall|key: Seq<char>| #[trigger]
            v.wire_json().member(key) is Some ==> key == "width"@ || key == "height"@
                || key == "scaleFactor"@,
{
    broadcast use
        keyed::lemma_get_after_with,
        keyed::lemma_get_after_with_some,
        keyed::lemma_sorted_after_with,
        keyed::lemma_sorted_after_with_some,
    ;

    lemma_viewport_keys();
}

impl Told for Viewport {
    open spec fn ordered(&self) -> bool {
        true
    }

    open spec fn same(&self, other: &Self) -> bool {
        &&& self.width.same(&other.width)
        &&& self.height.same(&other.height)
        &&& self.scale_factor.same(&other.scale_factor)
    }

    proof fn told(a: &Self, b: &Self) {
        law_viewport_form(*a);
        law_viewport_form(*b);
        assert(a.wire_json().member("width"@) == b.wire_json().member("width"@));
        Told::told(&a.width, &b.width);
        assert(a.wire_json().member("height"@) == b.wire_json().member("height"@));
        Told::told(&a.height, &b.height);
        assert(a.wire_json().member("scaleFactor"@) == b.wire_json().member("scaleFactor"@));
        Told::told(&a.scale_factor, &b.scale_factor);
    }
}

proof fn lemma_ui_context_ref_keys()
    ensures
        keyed::key_code("contextId"@) == 9099116100,
        keyed::key_code("contextKind"@) == 11099105100,
        keyed::key_code("documentEpoch"@) == 13100112104,
{
    reveal_strlit("contextId");
    reveal_strlit("contextKind");
    reveal_strlit("documentEpoch");
}

/// The JSON form of [`UiContextRef`] holds every field under its name, and nothing else.
pub proof fn law_ui_context_ref_form(v: UiContextRef)
    ensures
        v.wire_json() is Object,
        v.wire_json().member("contextKind"@) == Some(v.context_kind.wire_json()),
        v.wire_json().member("contextId"@) == Some(v.context_id.wire_json()),
        v.wire_json().member("documentEpoch"@) == Some(v.document_epoch.wire_json()),
        forall|key: Seq<char>| #[trigger]
            v.wire_json().member(key) is Some ==> key == "contextKind"@ || key == "contextId"@
                || key == "documentEpoch"@,
{
    broadcast use
        keyed::lemma_get_after_with,
        keyed::lemma_get_after_with_some,
        keyed::lemma_sorted_after_with,
        keyed::lemma_sorted_after_with_some,
    ;

    lemma_ui_context_ref_keys();
}

impl Told for UiContextRef {
    open spec fn ordered(&self) -> bool {
        true
    }

    open spec fn same(&self, other: &Self) -> bool {
        &&& self.context_kind.same(&other.context_kind)
        &&& self.context_id.same(&other.context_id)
        &&& self.document_epoch.same(&other.document_epoch)
    }

    proof fn told(a: &Self, b: &Self) {
        law_ui_context_ref_form(*a);
        law_ui_context_ref_form(*b);
        assert(a.wire_json().member("contextKind"@) == b.wire_json().member("contextKind"@));
        Told::told(&a.context_kind, &b.context_kind);
        assert(a.wire_json().member("contextId"@) == b.wire_json().member("contextId"@));
        Told::told(&a.context_id, &b.context_id);
        assert(a.wire_json().member("documentEpoch"@) == b.wire_json().member("documentEpoch"@));
        Told::told(&a.document_epoch, &b.document_epoch);
    }
}

proof fn lemma_ui_node_ref_keys()
    ensures
        keyed::key_code("context"@) == 7099120116,
        keyed::key_code("stableNodeId"@) == 12115101100,
        keyed::key_code("observationId"@) == 13111111100,
{
    reveal_strlit("context");
    reveal_strlit("stableNodeId");
    reveal_strlit("observationId");
}

/// The JSON form of [`UiNodeRef`] holds every field under its name, and nothing else.
pub proof fn law_ui_node_ref_form(v: UiNodeRef)
    ensures
        v.wire_json() is Object,
        v.wire_json().member("observationId"@) == Some(v.observation_id.wire_json()),
        v.wire_json().member("context"@) == Some(v.context.wire_json()),
        v.wire_json().member("stableNodeId"@) == Some(v.stable_node_id.wire_json()),
        forall|key: Seq<char>| #[trigger]
            v.wire_json().member(key) is Some ==> key == "observationId"@ || key == "context"@
                || key == "stableNodeId"@,
{
    broadcast use
        keyed::lemma_get_after_with,
        keyed::lemma_get_after_with_some,
        keyed::lemma_sorted_after_with,
        keyed::lemma_sorted_after_with_some,
    ;

    lemma_ui_node_ref_keys();
}

impl Told for UiNodeRef {
    open spec fn ordered(&self) -> bool {
        true
    }

    open spec fn same(&self, other: &Self) -> bool {
        &&& self.observation_id.same(&other.observation_id)
        &&& self.context.same(&other.context)
        &&& self.stable_node_id.same(&other.stable_node_id)
    }

    proof fn told(a: &Self, b: &Self) {
        law_ui_node_ref_form(*a);
        law_ui_node_ref_form(*b);
        assert(a.wire_json().member("observationId"@) == b.wire_json().member("observationId"@));
        Told::told(&a.observation_id, &b.observation_id);
        assert(a.wire_json().member("context"@) == b.wire_json().member("context"@));
        Told::told(&a.context, &b.context);
        assert(a.wire_json().member("stableNodeId"@) == b.wire_json().member("stableNodeId"@));
        Told::told(&a.stable_node_id, &b.stable_node_id);
    }
}

proof fn lemma_ui_snapshot_ref_keys()
    ensures
        keyed::key_code("evidence"@) == 8101099101,
{
    reveal_strlit("evidence");
}

/// The JSON form of [`UiSnapshotRef`] holds every field under its name, and nothing else.
pub proof fn law_ui_snapshot_ref_form(v: UiSnapshotRef)
    ensures
        v.wire_json() is Object,
        v.wire_json().member("evidence"@) == Some(v.evidence.wire_json()),
        forall|key: Seq<char>| #[trigger]
            v.wire_json().member(key) is Some ==> key == "evidence"@,
{
    broadcast use
        keyed::lemma_get_after_with,
        keyed::lemma_get_after_with_some,
        keyed::lemma_sorted_after_with,
        keyed::lemma_sorted_after_with_some,
    ;

    lemma_ui_snapshot_ref_keys();
}

impl Told for UiSnapshotRef {
    open spec fn ordered(&self) -> bool {
        true
    }

    open spec fn same(&self, other: &Self) -> bool {
        self.evidence.same(&other.evidence)
    }

    proof fn told(a: &Self, b: &Self) {
        law_ui_snapshot_ref_form(*a);
        law_ui_snapshot_ref_form(*b);
        assert(a.wire_json().member("evidence"@) == b.wire_json().member("evidence"@));
        Told::told(&a.evidence, &b.evidence);
    }
}

proof fn lemma_observation_keys()
    ensures
        keyed::key_code("id"@) == 2105100100,
        keyed::key_code("deviceId"@) == 8100073100,
        keyed::key_code("metadata"@) == 8109116097,
        keyed::key_code("viewport"@) == 8118114116,
        keyed::key_code("screenshot"@) == 10115104116,
        keyed::key_code("uiSnapshot"@) == 10117104116,
        keyed::key_code("capturedAtMs"@) == 12099116115,
        keyed::key_code("screenshotOmission"@) == 18115115110,
        keyed::key_code("uiSnapshotOmission"@) == 18117115110,
{
    reveal_strlit("id");
    reveal_strlit("deviceId");
    reveal_strlit("metadata");
    reveal_strlit("viewport");
    reveal_strlit("screenshot");
    reveal_strlit("uiSnapshot");
    reveal_strlit("capturedAtMs");
    reveal_strlit("screenshotOmission");
    reveal_strlit("uiSnapshotOmission");
}

/// The JSON form of [`Observation`] holds every field under its name, and nothing else.
pub proof fn law_observation_form(v: Observation)
    ensures
        v.wire_json() is Object,
        v.wire_json().member("id"@) == Some(v.id.wire_json()),
        v.wire_json().member("deviceId"@) == Some(v.device_id.wire_json()),
        v.wire_json().member("capturedAtMs"@) == Some(v.captured_at_ms.wire_json()),
        v.wire_json().member("viewport"@) == Some(v.viewport.wire_json()),
        v.wire_json().member("screenshot"@) == wire::wire_some(v.screenshot),
        v.wire_json().member("screenshotOmission"@) == wire::wire_some(v.screenshot_omission),
        v.wire_json().member("uiSnapshot"@) == wire::wire_some(v.ui_snapshot),
        v.wire_json().member("uiSnapshotOmission"@) == wire::wire_some(v.ui_snapshot_omission),
        v.wire_json().member("metadata"@) == wire::wire_nonempty_map(v.metadata@),
        forall|key: Seq<char>| #[trigger]
            v.wire_json().member(key) is Some ==> key == "id"@ || key == "deviceId"@
                || key == "capturedAtMs"@ || key == "viewport"@ || key == "screenshot"@
                || key == "screenshotOmission"@ || key == "uiSnapshot"@
                || key == "uiSnapshotOmission"@ || key == "metadata"@,
{
    broadcast use
        keyed::lemma_get_after_with,
        keyed::lemma_get_after_with_some,
        keyed::lemma_sorted_after_with,
        keyed::lemma_sorted_after_with_some,
    ;

    lemma_observation_keys();
}

impl Told for Observation {
    open spec fn ordered(&self) -> bool {
        told::map_in_order(self.metadata@)
    }

    open spec fn same(&self, other: &Self) -> bool {
        &&& self.id.same(&other.id)
        &&& self.device_id.same(&other.device_id)
        &&& self.captured_at_ms.same(&other.captured_at_ms)
        &&& self.viewport.same(&other.viewport)
        &&& told::same_some(self.screenshot, other.screenshot)
        &&& told::same_some(self.screenshot_omission, other.screenshot_omission)
        &&& told::same_some(self.ui_snapshot, other.ui_snapshot)
        &&& told::same_some(self.ui_snapshot_omission, other.ui_snapshot_omission)
        &&& told::same_map(self.metadata@, other.metadata@)
    }

    proof fn told(a: &Self, b: &Self) {
        law_observation_form(*a);
        law_observation_form(*b);
        assert(a.wire_json().member("id"@) == b.wire_json().member("id"@));
        Told::told(&a.id, &b.id);
        assert(a.wire_json().member("deviceId"@) == b.wire_json().member("deviceId"@));
        Told::told(&a.device_id, &b.device_id);
        assert(a.wire_json().member("capturedAtMs"@) == b.wire_json().member("capturedAtMs"@));
        Told::told(&a.captured_at_ms, &b.captured_at_ms);
        assert(a.wire_json().member("viewport"@) == b.wire_json().member("viewport"@));
        Told::told(&a.viewport, &b.viewport);
        assert(a.wire_json().member("screenshot"@) == b.wire_json().member("screenshot"@));
        told::law_optional_values_are_told(a.screenshot, b.screenshot);
        assert(a.wire_json().member("screenshotOmission"@)
            == b.wire_json().member("screenshotOmission"@));
        told::law_optional_values_are_told(a.screenshot_omission, b.screenshot_omission);
        assert(a.wire_json().member("uiSnapshot"@) == b.wire_json().member("uiSnapshot"@));
        told::law_optional_values_are_told(a.ui_snapshot, b.ui_snapshot);
        assert(a.wire_json().member("uiSnapshotOmission"@)
            == b.wire_json().member("uiSnapshotOmission"@));
        told::law_optional_values_are_told(a.ui_snapshot_omission, b.ui_snapshot_omission);
        assert(a.wire_json().member("metadata"@) == b.wire_json().member("metadata"@));
        told::law_omitted_maps_are_told(a.metadata@, b.metadata@);
    }
}

proof fn lemma_error_info_keys()
    ensures
        keyed::key_code("code"@) == 4099101101,
        keyed::key_code("details"@) == 7100108115,
        keyed::key_code("message"@) == 7109103101,
        keyed::key_code("retryable"@) == 9114098101,
{
    reveal_strlit("code");
    reveal_strlit("details");
    reveal_strlit("message");
    reveal_strlit("retryable");
}

/// The JSON form of [`ErrorInfo`] holds every field under its name, and nothing else.
pub proof fn law_error_info_form(v: ErrorInfo)
    ensures
        v.wire_json() is Object,
        v.wire_json().member("code"@) == Some(v.code.wire_json()),
        v.wire_json().member("message"@) == Some(v.message.wire_json()),
        v.wire_json().member("retryable"@) == Some(v.retryable.wire_json()),
        v.wire_json().member("details"@) == wire::wire_some(v.details),
        forall|key: Seq<char>| #[trigger]
            v.wire_json().member(key) is Some ==> key == "code"@ || key == "message"@
                || key == "retryable"@ || key == "details"@,
{
    broadcast use
        keyed::lemma_get_after_with,
        keyed::lemma_get_after_with_some,
        keyed::lemma_sorted_after_with,
        keyed::lemma_sorted_after_with_some,
    ;

    lemma_error_info_keys();
}

impl Told for ErrorInfo {
    open spec fn ordered(&self) -> bool {
        true
    }

    open spec fn same(&self, other: &Self) -> bool {
        &&& self.code.same(&other.code)
        &&& self.message.same(&other.message)
        &&& self.retryable.same(&other.retryable)
        &&& told::same_some(self.details, other.details)
    }

    proof fn told(a: &Self, b: &Self) {
        law_error_info_form(*a);
        law_error_info_form(*b);
        assert(a.wire_json().member("code"@) == b.wire_json().member("code"@));
        Told::told(&a.code, &b.code);
        assert(a.wire_json().member("message"@) == b.wire_json().member("message"@));
        Told::told(&a.message, &b.message);
        assert(a.wire_json().member("retryable"@) == b.wire_json().member("retryable"@));
        Told::told(&a.retryable, &b.retryable);
        assert(a.wire_json().member("details"@) == b.wire_json().member("details"@));
        told::law_optional_values_are_told(a.details, b.details);
    }
}

proof fn lemma_action_execution_keys()
    ensures
        keyed::key_code("mode"@) == 4109101101,
        keyed::key_code("context"@) == 7099120116,
        keyed::key_code("fallbackReason"@) == 14102097110,
{
    reveal_strlit("mode");
    reveal_strlit("context");
    reveal_strlit("fallbackReason");
}

proof fn lemma_action_execution_tags()
    ensures
        keyed::key_code("webSemantic"@) == 11119116099,
        keyed::key_code("nativeSemantic"@) == 14110110099,
        keyed::key_code("coordinateFallback"@) == 18099108107,
{
    reveal_strlit("webSemantic");
    reveal_strlit("nativeSemantic");
    reveal_strlit("coordinateFallback");
}

/// The JSON form of [`ActionExecution`] names its kind and holds every field of that kind
/// under its name, and nothing else.
pub proof fn law_action_execution_form(v: ActionExecution)
    ensures
        v.wire_json() is Object,
        match v {
            ActionExecution::NativeSemantic { context } => {
                &&& v.wire_json().member("mode"@) == Some(JsonV::Text("nativeSemantic"@))
                &&& v.wire_json().member("context"@) == Some(context.wire_json())
                &&& forall|key: Seq<char>| #[trigger]
                    v.wire_json().member(key) is Some ==> key == "mode"@ || key == "context"@
            },
            ActionExecution::WebSemantic { context } => {
                &&& v.wire_json().member("mode"@) == Some(JsonV::Text("webSemantic"@))
                &&& v.wire_json().member("context"@) == Some(context.wire_json())
                &&& forall|key: Seq<char>| #[trigger]
                    v.wire_json().member(key) is Some ==> key == "mode"@ || key == "context"@
            },
            ActionExecution::CoordinateFallback { context, fallback_reason } => {
                &&& v.wire_json().member("mode"@) == Some(JsonV::Text("coordinateFallback"@))
                &&& v.wire_json().member("context"@) == Some(context.wire_json())
                &&& v.wire_json().member("fallbackReason"@) == Some(fallback_reason.wire_json())
                &&& forall|key: Seq<char>| #[trigger]
                    v.wire_json().member(key) is Some ==> key == "mode"@ || key == "context"@
                        || key == "fallbackReason"@
            },
        },
{
    broadcast use
        keyed::lemma_get_after_with,
        keyed::lemma_get_after_with_some,
        keyed::lemma_sorted_after_with,
        keyed::lemma_sorted_after_with_some,
    ;

    lemma_action_execution_keys();
}

impl Told for ActionExecution {
    open spec fn ordered(&self) -> bool {
        true
    }

    open spec fn same(&self, other: &Self) -> bool {
        match (*self, *other) {
            (
                ActionExecution::NativeSemantic { context: a_context },
                ActionExecution::NativeSemantic { context: b_context },
            ) => a_context.same(&b_context),
            (
                ActionExecution::WebSemantic { context: a_context },
                ActionExecution::WebSemantic { context: b_context },
            ) => a_context.same(&b_context),
            (
                ActionExecution::CoordinateFallback {
                    context: a_context,
                    fallback_reason: a_fallback_reason,
                },
                ActionExecution::CoordinateFallback {
                    context: b_context,
                    fallback_reason: b_fallback_reason,
                },
            ) => {
                &&& a_context.same(&b_context)
                &&& a_fallback_reason.same(&b_fallback_reason)
            },
            _ => false,
        }
    }

    proof fn told(a: &Self, b: &Self) {
        law_action_execution_form(*a);
        law_action_execution_form(*b);
        lemma_action_execution_tags();
        assert(a.wire_json().member("mode"@) == b.wire_json().member("mode"@));
        match (*a, *b) {
            (
                ActionExecution::NativeSemantic { context: a_context },
                ActionExecution::NativeSemantic { context: b_context },
            ) => {
                assert(a.wire_json().member("context"@) == b.wire_json().member("context"@));
                Told::told(&a_context, &b_context);
            },
            (
                ActionExecution::WebSemantic { context: a_context },
                ActionExecution::WebSemantic { context: b_context },
            ) => {
                assert(a.wire_json().member("context"@) == b.wire_json().member("context"@));
                Told::told(&a_context, &b_context);
            },
            (
                ActionExecution::CoordinateFallback {
                    context: a_context,
                    fallback_reason: a_fallback_reason,
                },
                ActionExecution::CoordinateFallback {
                    context: b_context,
                    fallback_reason: b_fallback_reason,
                },
            ) => {
                assert(a.wire_json().member("context"@) == b.wire_json().member("context"@));
                Told::told(&a_context, &b_context);
                assert(a.wire_json().member("fallbackReason"@)
                    == b.wire_json().member("fallbackReason"@));
                Told::told(&a_fallback_reason, &b_fallback_reason);
            },
            _ => {},
        }
    }
}

proof fn lemma_action_result_keys()
    ensures
        keyed::key_code("after"@) == 5097101114,
        keyed::key_code("before"@) == 6098114101,
        keyed::key_code("callId"@) == 6099073100,
        keyed::key_code("output"@) == 6111117116,
        keyed::key_code("evidence"@) == 8101099101,
        keyed::key_code("execution"@) == 9101105110,
        keyed::key_code("startedAtMs"@) == 11115116115,
        keyed::key_code("finishedAtMs"@) == 12102116115,
{
    reveal_strlit("after");
    reveal_strlit("before");
    reveal_strlit("callId");
    reveal_strlit("output");
    reveal_strlit("evidence");
    reveal_strlit("execution");
    reveal_strlit("startedAtMs");
    reveal_strlit("finishedAtMs");
}

/// The JSON form of [`ActionResult`] holds every field under its name, and nothing else.
pub proof fn law_action_result_form(v: ActionResult)
    ensures
        v.wire_json() is Object,
        v.wire_json().member("callId"@) == Some(v.call_id.wire_json()),
        v.wire_json().member("startedAtMs"@) == Some(v.started_at_ms.wire_json()),
        v.wire_json().member("finishedAtMs"@) == Some(v.finished_at_ms.wire_json()),
        v.wire_json().member("output"@) == Some(v.output.wire_json()),
        v.wire_json().member("before"@) == wire::wire_some(v.before),
        v.wire_json().member("after"@) == wire::wire_some(v.after),
        v.wire_json().member("evidence"@) == Some(v.evidence.wire_json()),
        v.wire_json().member("execution"@) == wire::wire_some(v.execution),
        forall|key: Seq<char>| #[trigger]
            v.wire_json().member(key) is Some ==> key == "callId"@ || key == "startedAtMs"@
                || key == "finishedAtMs"@ || key == "output"@ || key == "before"@ || key == "after"@
                || key == "evidence"@ || key == "execution"@,
{
    broadcast use
        keyed::lemma_get_after_with,
        keyed::lemma_get_after_with_some,
        keyed::lemma_sorted_after_with,
        keyed::lemma_sorted_after_with_some,
    ;

    lemma_action_result_keys();
}

impl Told for ActionResult {
    open spec fn ordered(&self) -> bool {
        &&& told::some_in_order(self.before)
        &&& told::some_in_order(self.after)
    }

    open spec fn same(&self, other: &Self) -> bool {
        &&& self.call_id.same(&other.call_id)
        &&& self.started_at_ms.same(&other.started_at_ms)
        &&& self.finished_at_ms.same(&other.finished_at_ms)
        &&& self.output.same(&other.output)
        &&& told::same_some(self.before, other.before)
        &&& told::same_some(self.after, other.after)
        &&& self.evidence.same(&other.evidence)
        &&& told::same_some(self.execution, other.execution)
    }

    proof fn told(a: &Self, b: &Self) {
        law_action_result_form(*a);
        law_action_result_form(*b);
        assert(a.wire_json().member("callId"@) == b.wire_json().member("callId"@));
        Told::told(&a.call_id, &b.call_id);
        assert(a.wire_json().member("startedAtMs"@) == b.wire_json().member("startedAtMs"@));
        Told::told(&a.started_at_ms, &b.started_at_ms);
        assert(a.wire_json().member("finishedAtMs"@) == b.wire_json().member("finishedAtMs"@));
        Told::told(&a.finished_at_ms, &b.finished_at_ms);
        assert(a.wire_json().member("output"@) == b.wire_json().member("output"@));
        Told::told(&a.output, &b.output);
        assert(a.wire_json().member("before"@) == b.wire_json().member("before"@));
        told::law_optional_values_are_told(a.before, b.before);
        assert(a.wire_json().member("after"@) == b.wire_json().member("after"@));
        told::law_optional_values_are_told(a.after, b.after);
        assert(a.wire_json().member("evidence"@) == b.wire_json().member("evidence"@));
        Told::told(&a.evidence, &b.evidence);
        assert(a.wire_json().member("execution"@) == b.wire_json().member("execution"@));
        told::law_optional_values_are_told(a.execution, b.execution);
    }
}

proof fn lemma_action_outcome_keys()
    ensures
        keyed::key_code("error"@) == 5101111114,
        keyed::key_code("result"@) == 6114108116,
        keyed::key_code("outcome"@) == 7111109101,
{
    reveal_strlit("error");
    reveal_strlit("result");
    reveal_strlit("outcome");
}

proof fn lemma_action_outcome_tags()
    ensures
        keyed::key_code("failed"@) == 6102101100,
        keyed::key_code("timedOut"@) == 8116117116,
        keyed::key_code("cancelled"@) == 9099108100,
        keyed::key_code("succeeded"@) == 9115100100,
{
    reveal_strlit("failed");
    reveal_strlit("timedOut");
    reveal_strlit("cancelled");
    reveal_strlit("succeeded");
}

/// The JSON form of [`ActionOutcome`] names its kind and holds every field of that kind
/// under its name, and nothing else.
pub proof fn law_action_outcome_form(v: ActionOutcome)
    ensures
        v.wire_json() is Object,
        match v {
            ActionOutcome::Succeeded { result } => {
                &&& v.wire_json().member("outcome"@) == Some(JsonV::Text("succeeded"@))
                &&& v.wire_json().member("result"@) == Some(result.wire_json())
                &&& forall|key: Seq<char>| #[trigger]
                    v.wire_json().member(key) is Some ==> key == "outcome"@ || key == "result"@
            },
            ActionOutcome::Failed { error } => {
                &&& v.wire_json().member("outcome"@) == Some(JsonV::Text("failed"@))
                &&& v.wire_json().member("error"@) == Some(error.wire_json())
                &&& forall|key: Seq<char>| #[trigger]
                    v.wire_json().member(key) is Some ==> key == "outcome"@ || key == "error"@
            },
            ActionOutcome::Cancelled { error } => {
                &&& v.wire_json().member("outcome"@) == Some(JsonV::Text("cancelled"@))
                &&& v.wire_json().member("error"@) == Some(error.wire_json())
                &&& forall|key: Seq<char>| #[trigger]
                    v.wire_json().member(key) is Some ==> key == "outcome"@ || key == "error"@
            },
            ActionOutcome::TimedOut { error } => {
                &&& v.wire_json().member("outcome"@) == Some(JsonV::Text("timedOut"@))
                &&& v.wire_json().member("error"@) == Some(error.wire_json())
                &&& forall|key: Seq<char>| #[trigger]
                    v.wire_json().member(key) is Some ==> key == "outcome"@ || key == "error"@
            },
        },
{
    broadcast use
        keyed::lemma_get_after_with,
        keyed::lemma_get_after_with_some,
        keyed::lemma_sorted_after_with,
        keyed::lemma_sorted_after_with_some,
    ;

    lemma_action_outcome_keys();
}

impl Told for ActionOutcome {
    open spec fn ordered(&self) -> bool {
        match *self {
            ActionOutcome::Succeeded { result } => result.ordered(),
            _ => true,
        }
    }

    open spec fn same(&self, other: &Self) -> bool {
        match (*self, *other) {
            (
                ActionOutcome::Succeeded { result: a_result },
                ActionOutcome::Succeeded { result: b_result },
            ) => a_result.same(&b_result),
            (
                ActionOutcome::Failed { error: a_error },
                ActionOutcome::Failed { error: b_error },
            ) => a_error.same(&b_error),
            (
                ActionOutcome::Cancelled { error: a_error },
                ActionOutcome::Cancelled { error: b_error },
            ) => a_error.same(&b_error),
            (
                ActionOutcome::TimedOut { error: a_error },
                ActionOutcome::TimedOut { error: b_error },
            ) => a_error.same(&b_error),
            _ => false,
        }
    }

    proof fn told(a: &Self, b: &Self) {
        law_action_outcome_form(*a);
        law_action_outcome_form(*b);
        lemma_action_outcome_tags();
        assert(a.wire_json().member("outcome"@) == b.wire_json().member("outcome"@));
        match (*a, *b) {
            (
                ActionOutcome::Succeeded { result: a_result },
                ActionOutcome::Succeeded { result: b_result },
            ) => {
                assert(a.wire_json().member("result"@) == b.wire_json().member("result"@));
                Told::told(&a_result, &b_result);
            },
            (
                ActionOutcome::Failed { error: a_error },
                ActionOutcome::Failed { error: b_error },
            ) => {
                assert(a.wire_json().member("error"@) == b.wire_json().member("error"@));
                Told::told(&a_error, &b_error);
            },
            (
                ActionOutcome::Cancelled { error: a_error },
                ActionOutcome::Cancelled { error: b_error },
            ) => {
                assert(a.wire_json().member("error"@) == b.wire_json().member("error"@));
                Told::told(&a_error, &b_error);
            },
            (
                ActionOutcome::TimedOut { error: a_error },
                ActionOutcome::TimedOut { error: b_error },
            ) => {
                assert(a.wire_json().member("error"@) == b.wire_json().member("error"@));
                Told::told(&a_error, &b_error);
            },
            _ => {},
        }
    }
}

proof fn lemma_reconcile_result_keys()
    ensures
        keyed::key_code("fate"@) == 4102101101,
        keyed::key_code("reason"@) == 6114111110,
        keyed::key_code("outcome"@) == 7111109101,
{
    reveal_strlit("fate");
    reveal_strlit("reason");
    reveal_strlit("outcome");
}

proof fn lemma_reconcile_result_tags()
    ensures
        keyed::key_code("completed"@) == 9099116100,
        keyed::key_code("logUnavailable"@) == 14108097101,
        keyed::key_code("neverDispatched"@) == 15110099100,
        keyed::key_code("startedNoTerminal"@) == 17115109108,
{
    reveal_strlit("completed");
    reveal_strlit("logUnavailable");
    reveal_strlit("neverDispatched");
    reveal_strlit("startedNoTerminal");
}

/// The JSON form of [`ReconcileResult`] names its kind and holds every field of that kind
/// under its name, and nothing else.
pub proof fn law_reconcile_result_form(v: ReconcileResult)
    ensures
        v.wire_json() is Object,
        match v {
            ReconcileResult::Completed { outcome } => {
                &&& v.wire_json().member("fate"@) == Some(JsonV::Text("completed"@))
                &&& v.wire_json().member("outcome"@) == Some(outcome.wire_json())
                &&& forall|key: Seq<char>| #[trigger]
                    v.wire_json().member(key) is Some ==> key == "fate"@ || key == "outcome"@
            },
            ReconcileResult::NeverDispatched => {
                &&& v.wire_json().member("fate"@) == Some(JsonV::Text("neverDispatched"@))
                &&& forall|key: Seq<char>| #[trigger]
                    v.wire_json().member(key) is Some ==> key == "fate"@
            },
            ReconcileResult::StartedNoTerminal => {
                &&& v.wire_json().member("fate"@) == Some(JsonV::Text("startedNoTerminal"@))
                &&& forall|key: Seq<char>| #[trigger]
                    v.wire_json().member(key) is Some ==> key == "fate"@
            },
            ReconcileResult::LogUnavailable { reason } => {
                &&& v.wire_json().member("fate"@) == Some(JsonV::Text("logUnavailable"@))
                &&& v.wire_json().member("reason"@) == Some(reason.wire_json())
                &&& forall|key: Seq<char>| #[trigger]
                    v.wire_json().member(key) is Some ==> key == "fate"@ || key == "reason"@
            },
        },
{
    broadcast use
        keyed::lemma_get_after_with,
        keyed::lemma_get_after_with_some,
        keyed::lemma_sorted_after_with,
        keyed::lemma_sorted_after_with_some,
    ;

    lemma_reconcile_result_keys();
}

impl Told for ReconcileResult {
    open spec fn ordered(&self) -> bool {
        match *self {
            ReconcileResult::Completed { outcome } => outcome.ordered(),
            _ => true,
        }
    }

    open spec fn same(&self, other: &Self) -> bool {
        match (*self, *other) {
            (
                ReconcileResult::Completed { outcome: a_outcome },
                ReconcileResult::Completed { outcome: b_outcome },
            ) => a_outcome.same(&b_outcome),
            (ReconcileResult::NeverDispatched, ReconcileResult::NeverDispatched) => true,
            (ReconcileResult::StartedNoTerminal, ReconcileResult::StartedNoTerminal) => true,
            (
                ReconcileResult::LogUnavailable { reason: a_reason },
                ReconcileResult::LogUnavailable { reason: b_reason },
            ) => a_reason.same(&b_reason),
            _ => false,
        }
    }

    proof fn told(a: &Self, b: &Self) {
        law_reconcile_result_form(*a);
        law_reconcile_result_form(*b);
        lemma_reconcile_result_tags();
        assert(a.wire_json().member("fate"@) == b.wire_json().member("fate"@));
        match (*a, *b) {
            (
                ReconcileResult::Completed { outcome: a_outcome },
                ReconcileResult::Completed { outcome: b_outcome },
            ) => {
                assert(a.wire_json().member("outcome"@) == b.wire_json().member("outcome"@));
                Told::told(&a_outcome, &b_outcome);
            },
            (
                ReconcileResult::LogUnavailable { reason: a_reason },
                ReconcileResult::LogUnavailable { reason: b_reason },
            ) => {
                assert(a.wire_json().member("reason"@) == b.wire_json().member("reason"@));
                Told::told(&a_reason, &b_reason);
            },
            _ => {},
        }
    }
}

proof fn lemma_verdict_keys()
    ensures
        keyed::key_code("status"@) == 6115117115,
        keyed::key_code("summary"@) == 7115114121,
        keyed::key_code("degraded"@) == 8100101100,
        keyed::key_code("evidence"@) == 8101099101,
        keyed::key_code("supersedes"@) == 10115100115,
{
    reveal_strlit("status");
    reveal_strlit("summary");
    reveal_strlit("degraded");
    reveal_strlit("evidence");
    reveal_strlit("supersedes");
}

/// The JSON form of [`Verdict`] holds every field under its name, and nothing else.
pub proof fn law_verdict_form(v: Verdict)
    ensures
        v.wire_json() is Object,
        v.wire_json().member("status"@) == Some(v.status.wire_json()),
        v.wire_json().member("degraded"@) == Some(v.degraded.wire_json()),
        v.wire_json().member("summary"@) == Some(v.summary.wire_json()),
        v.wire_json().member("evidence"@) == Some(v.evidence.wire_json()),
        v.wire_json().member("supersedes"@) == wire::wire_some(v.supersedes),
        forall|key: Seq<char>| #[trigger]
            v.wire_json().member(key) is Some ==> key == "status"@ || key == "degraded"@
                || key == "summary"@ || key == "evidence"@ || key == "supersedes"@,
{
    broadcast use
        keyed::lemma_get_after_with,
        keyed::lemma_get_after_with_some,
        keyed::lemma_sorted_after_with,
        keyed::lemma_sorted_after_with_some,
    ;

    lemma_verdict_keys();
}

impl Told for Verdict {
    open spec fn ordered(&self) -> bool {
        true
    }

    open spec fn same(&self, other: &Self) -> bool {
        &&& self.status.same(&other.status)
        &&& self.degraded.same(&other.degraded)
        &&& self.summary.same(&other.summary)
        &&& self.evidence.same(&other.evidence)
        &&& told::same_some(self.supersedes, other.supersedes)
    }

    proof fn told(a: &Self, b: &Self) {
        law_verdict_form(*a);
        law_verdict_form(*b);
        assert(a.wire_json().member("status"@) == b.wire_json().member("status"@));
        Told::told(&a.status, &b.status);
        assert(a.wire_json().member("degraded"@) == b.wire_json().member("degraded"@));
        Told::told(&a.degraded, &b.degraded);
        assert(a.wire_json().member("summary"@) == b.wire_json().member("summary"@));
        Told::told(&a.summary, &b.summary);
        assert(a.wire_json().member("evidence"@) == b.wire_json().member("evidence"@));
        Told::told(&a.evidence, &b.evidence);
        assert(a.wire_json().member("supersedes"@) == b.wire_json().member("supersedes"@));
        told::law_optional_values_are_told(a.supersedes, b.supersedes);
    }
}

proof fn lemma_step_verdict_keys()
    ensures
        keyed::key_code("status"@) == 6115117115,
        keyed::key_code("degraded"@) == 8100101100,
        keyed::key_code("supersedes"@) == 10115100115,
{
    reveal_strlit("status");
    reveal_strlit("degraded");
    reveal_strlit("supersedes");
}

/// The JSON form of [`StepVerdict`] holds every field under its name, and nothing else.
pub proof fn law_step_verdict_form(v: StepVerdict)
    ensures
        v.wire_json() is Object,
        v.wire_json().member("status"@) == Some(v.status.wire_json()),
        v.wire_json().member("degraded"@) == Some(v.degraded.wire_json()),
        v.wire_json().member("supersedes"@) == wire::wire_some(v.supersedes),
        forall|key: Seq<char>| #[trigger]
            v.wire_json().member(key) is Some ==> key == "status"@ || key == "degraded"@
                || key == "supersedes"@,
{
    broadcast use
        keyed::lemma_get_after_with,
        keyed::lemma_get_after_with_some,
        keyed::lemma_sorted_after_with,
        keyed::lemma_sorted_after_with_some,
    ;

    lemma_step_verdict_keys();
}

impl Told for StepVerdict {
    open spec fn ordered(&self) -> bool {
        true
    }

    open spec fn same(&self, other: &Self) -> bool {
        &&& self.status.same(&other.status)
        &&& self.degraded.same(&other.degraded)
        &&& told::same_some(self.supersedes, other.supersedes)
    }

    proof fn told(a: &Self, b: &Self) {
        law_step_verdict_form(*a);
        law_step_verdict_form(*b);
        assert(a.wire_json().member("status"@) == b.wire_json().member("status"@));
        Told::told(&a.status, &b.status);
        assert(a.wire_json().member("degraded"@) == b.wire_json().member("degraded"@));
        Told::told(&a.degraded, &b.degraded);
        assert(a.wire_json().member("supersedes"@) == b.wire_json().member("supersedes"@));
        told::law_optional_values_are_told(a.supersedes, b.supersedes);
    }
}

proof fn lemma_path_frame_keys()
    ensures
        keyed::key_code("n"@) == 1110110110,
        keyed::key_code("key"@) == 3107121121,
        keyed::key_code("hook"@) == 4104107107,
        keyed::key_code("kind"@) == 4107100100,
        keyed::key_code("index"@) == 5105101120,
        keyed::key_code("phase"@) == 5112115101,
        keyed::key_code("flowId"@) == 6102073100,
        keyed::key_code("irHash"@) == 6105115104,
        keyed::key_code("stepId"@) == 6115073100,
        keyed::key_code("trigger"@) == 7116101114,
        keyed::key_code("assertId"@) == 8097073100,
        keyed::key_code("calleeFlowId"@) == 12099119100,
        keyed::key_code("calleeIrHash"@) == 12099097104,
{
    reveal_strlit("n");
    reveal_strlit("key");
    reveal_strlit("hook");
    reveal_strlit("kind");
    reveal_strlit("index");
    reveal_strlit("phase");
    reveal_strlit("flowId");
    reveal_strlit("irHash");
    reveal_strlit("stepId");
    reveal_strlit("trigger");
    reveal_strlit("assertId");
    reveal_strlit("calleeFlowId");
    reveal_strlit("calleeIrHash");
}

proof fn lemma_path_frame_tags()
    ensures
        keyed::key_code("call"@) == 4099108108,
        keyed::key_code("flow"@) == 4102119119,
        keyed::key_code("hook"@) == 4104107107,
        keyed::key_code("step"@) == 4115112112,
        keyed::key_code("phase"@) == 5112115101,
        keyed::key_code("attempt"@) == 7097112116,
        keyed::key_code("assertion"@) == 9097105110,
        keyed::key_code("iteration"@) == 9105105110,
{
    reveal_strlit("call");
    reveal_strlit("flow");
    reveal_strlit("hook");
    reveal_strlit("step");
    reveal_strlit("phase");
    reveal_strlit("attempt");
    reveal_strlit("assertion");
    reveal_strlit("iteration");
}

/// The JSON form of [`PathFrame`] names its kind and holds every field of that kind
/// under its name, and nothing else.
pub proof fn law_path_frame_form(v: PathFrame)
    ensures
        v.wire_json() is Object,
        match v {
            PathFrame::Flow { flow_id, ir_hash } => {
                &&& v.wire_json().member("kind"@) == Some(JsonV::Text("flow"@))
                &&& v.wire_json().member("flowId"@) == Some(flow_id.wire_json())
                &&& v.wire_json().member("irHash"@) == Some(ir_hash.wire_json())
                &&& forall|key: Seq<char>| #[trigger]
                    v.wire_json().member(key) is Some ==> key == "kind"@ || key == "flowId"@
                        || key == "irHash"@
            },
            PathFrame::Step { step_id } => {
                &&& v.wire_json().member("kind"@) == Some(JsonV::Text("step"@))
                &&& v.wire_json().member("stepId"@) == Some(step_id.wire_json())
                &&& forall|key: Seq<char>| #[trigger]
                    v.wire_json().member(key) is Some ==> key == "kind"@ || key == "stepId"@
            },
            PathFrame::Call { step_id, callee_flow_id, callee_ir_hash } => {
                &&& v.wire_json().member("kind"@) == Some(JsonV::Text("call"@))
                &&& v.wire_json().member("stepId"@) == wire::wire_some(step_id)
                &&& v.wire_json().member("calleeFlowId"@) == Some(callee_flow_id.wire_json())
                &&& v.wire_json().member("calleeIrHash"@) == Some(callee_ir_hash.wire_json())
                &&& forall|key: Seq<char>| #[trigger]
                    v.wire_json().member(key) is Some ==> key == "kind"@ || key == "stepId"@
                        || key == "calleeFlowId"@ || key == "calleeIrHash"@
            },
            PathFrame::Iteration { index, key } => {
                &&& v.wire_json().member("kind"@) == Some(JsonV::Text("iteration"@))
                &&& v.wire_json().member("index"@) == Some(index.wire_json())
                &&& v.wire_json().member("key"@) == wire::wire_some(key)
                &&& forall|key: Seq<char>| #[trigger]
                    v.wire_json().member(key) is Some ==> key == "kind"@ || key == "index"@
                        || key == "key"@
            },
            PathFrame::Hook { hook, trigger } => {
                &&& v.wire_json().member("kind"@) == Some(JsonV::Text("hook"@))
                &&& v.wire_json().member("hook"@) == Some(hook.wire_json())
                &&& v.wire_json().member("trigger"@) == Some(trigger.wire_json())
                &&& forall|key: Seq<char>| #[trigger]
                    v.wire_json().member(key) is Some ==> key == "kind"@ || key == "hook"@
                        || key == "trigger"@
            },
            PathFrame::Attempt { n } => {
                &&& v.wire_json().member("kind"@) == Some(JsonV::Text("attempt"@))
                &&& v.wire_json().member("n"@) == Some(n.wire_json())
                &&& forall|key: Seq<char>| #[trigger]
                    v.wire_json().member(key) is Some ==> key == "kind"@ || key == "n"@
            },
            PathFrame::Phase { phase } => {
                &&& v.wire_json().member("kind"@) == Some(JsonV::Text("phase"@))
                &&& v.wire_json().member("phase"@) == Some(phase.wire_json())
                &&& forall|key: Seq<char>| #[trigger]
                    v.wire_json().member(key) is Some ==> key == "kind"@ || key == "phase"@
            },
            PathFrame::Assertion { assert_id } => {
                &&& v.wire_json().member("kind"@) == Some(JsonV::Text("assertion"@))
                &&& v.wire_json().member("assertId"@) == Some(assert_id.wire_json())
                &&& forall|key: Seq<char>| #[trigger]
                    v.wire_json().member(key) is Some ==> key == "kind"@ || key == "assertId"@
            },
        },
{
    broadcast use
        keyed::lemma_get_after_with,
        keyed::lemma_get_after_with_some,
        keyed::lemma_sorted_after_with,
        keyed::lemma_sorted_after_with_some,
    ;

    lemma_path_frame_keys();
}

impl Told for PathFrame {
    open spec fn ordered(&self) -> bool {
        true
    }

    open spec fn same(&self, other: &Self) -> bool {
        match (*self, *other) {
            (
                PathFrame::Flow { flow_id: a_flow_id, ir_hash: a_ir_hash },
                PathFrame::Flow { flow_id: b_flow_id, ir_hash: b_ir_hash },
            ) => {
                &&& a_flow_id.same(&b_flow_id)
                &&& a_ir_hash.same(&b_ir_hash)
            },
            (
                PathFrame::Step { step_id: a_step_id },
                PathFrame::Step { step_id: b_step_id },
            ) => a_step_id.same(&b_step_id),
            (
                PathFrame::Call {
                    step_id: a_step_id,
                    callee_flow_id: a_callee_flow_id,
                    callee_ir_hash: a_callee_ir_hash,
                },
                PathFrame::Call {
                    step_id: b_step_id,
                    callee_flow_id: b_callee_flow_id,
                    callee_ir_hash: b_callee_ir_hash,
                },
            ) => {
                &&& told::same_some(a_step_id, b_step_id)
                &&& a_callee_flow_id.same(&b_callee_flow_id)
                &&& a_callee_ir_hash.same(&b_callee_ir_hash)
            },
            (
                PathFrame::Iteration { index: a_index, key: a_key },
                PathFrame::Iteration { index: b_index, key: b_key },
            ) => {
                &&& a_index.same(&b_index)
                &&& told::same_some(a_key, b_key)
            },
            (
                PathFrame::Hook { hook: a_hook, trigger: a_trigger },
                PathFrame::Hook { hook: b_hook, trigger: b_trigger },
            ) => {
                &&& a_hook.same(&b_hook)
                &&& a_trigger.same(&b_trigger)
            },
            (PathFrame::Attempt { n: a_n }, PathFrame::Attempt { n: b_n }) => a_n.same(&b_n),
            (
                PathFrame::Phase { phase: a_phase },
                PathFrame::Phase { phase: b_phase },
            ) => a_phase.same(&b_phase),
            (
                PathFrame::Assertion { assert_id: a_assert_id },
                PathFrame::Assertion { assert_id: b_assert_id },
            ) => a_assert_id.same(&b_assert_id),
            _ => false,
        }
    }

    proof fn told(a: &Self, b: &Self) {
        law_path_frame_form(*a);
        law_path_frame_form(*b);
        lemma_path_frame_tags();
        assert(a.wire_json().member("kind"@) == b.wire_json().member("kind"@));
        match (*a, *b) {
            (
                PathFrame::Flow { flow_id: a_flow_id, ir_hash: a_ir_hash },
                PathFrame::Flow { flow_id: b_flow_id, ir_hash: b_ir_hash },
            ) => {
                assert(a.wire_json().member("flowId"@) == b.wire_json().member("flowId"@));
                Told::told(&a_flow_id, &b_flow_id);
                assert(a.wire_json().member("irHash"@) == b.wire_json().member("irHash"@));
                Told::told(&a_ir_hash, &b_ir_hash);
            },
            (PathFrame::Step { step_id: a_step_id }, PathFrame::Step { step_id: b_step_id }) => {
                assert(a.wire_json().member("stepId"@) == b.wire_json().member("stepId"@));
                Told::told(&a_step_id, &b_step_id);
            },
            (
                PathFrame::Call {
                    step_id: a_step_id,
                    callee_flow_id: a_callee_flow_id,
                    callee_ir_hash: a_callee_ir_hash,
                },
                PathFrame::Call {
                    step_id: b_step_id,
                    callee_flow_id: b_callee_flow_id,
                    callee_ir_hash: b_callee_ir_hash,
                },
            ) => {
                assert(a.wire_json().member("stepId"@) == b.wire_json().member("stepId"@));
                told::law_optional_values_are_told(a_step_id, b_step_id);
                assert(a.wire_json().member("calleeFlowId"@)
                    == b.wire_json().member("calleeFlowId"@));
                Told::told(&a_callee_flow_id, &b_callee_flow_id);
                assert(a.wire_json().member("calleeIrHash"@)
                    == b.wire_json().member("calleeIrHash"@));
                Told::told(&a_callee_ir_hash, &b_callee_ir_hash);
            },
            (
                PathFrame::Iteration { index: a_index, key: a_key },
                PathFrame::Iteration { index: b_index, key: b_key },
            ) => {
                assert(a.wire_json().member("index"@) == b.wire_json().member("index"@));
                Told::told(&a_index, &b_index);
                assert(a.wire_json().member("key"@) == b.wire_json().member("key"@));
                told::law_optional_values_are_told(a_key, b_key);
            },
            (
                PathFrame::Hook { hook: a_hook, trigger: a_trigger },
                PathFrame::Hook { hook: b_hook, trigger: b_trigger },
            ) => {
                assert(a.wire_json().member("hook"@) == b.wire_json().member("hook"@));
                Told::told(&a_hook, &b_hook);
                assert(a.wire_json().member("trigger"@) == b.wire_json().member("trigger"@));
                Told::told(&a_trigger, &b_trigger);
            },
            (PathFrame::Attempt { n: a_n }, PathFrame::Attempt { n: b_n }) => {
                assert(a.wire_json().member("n"@) == b.wire_json().member("n"@));
                Told::told(&a_n, &b_n);
            },
            (PathFrame::Phase { phase: a_phase }, PathFrame::Phase { phase: b_phase }) => {
                assert(a.wire_json().member("phase"@) == b.wire_json().member("phase"@));
                Told::told(&a_phase, &b_phase);
            },
            (
                PathFrame::Assertion { assert_id: a_assert_id },
                PathFrame::Assertion { assert_id: b_assert_id },
            ) => {
                assert(a.wire_json().member("assertId"@) == b.wire_json().member("assertId"@));
                Told::told(&a_assert_id, &b_assert_id);
            },
            _ => {},
        }
    }
}

proof fn lemma_attempt_record_keys()
    ensures
        keyed::key_code("callId"@) == 6099073100,
        keyed::key_code("channel"@) == 7099101108,
        keyed::key_code("outcome"@) == 7111109101,
        keyed::key_code("actionName"@) == 10097097101,
        keyed::key_code("chainIndex"@) == 10099100120,
        keyed::key_code("errorClass"@) == 10101097115,
        keyed::key_code("executionMode"@) == 13101077101,
        keyed::key_code("fallbackReason"@) == 14102097110,
{
    reveal_strlit("callId");
    reveal_strlit("channel");
    reveal_strlit("outcome");
    reveal_strlit("actionName");
    reveal_strlit("chainIndex");
    reveal_strlit("errorClass");
    reveal_strlit("executionMode");
    reveal_strlit("fallbackReason");
}

/// The JSON form of [`AttemptRecord`] holds every field under its name, and nothing else.
pub proof fn law_attempt_record_form(v: AttemptRecord)
    ensures
        v.wire_json() is Object,
        v.wire_json().member("callId"@) == Some(v.call_id.wire_json()),
        v.wire_json().member("outcome"@) == Some(v.outcome.wire_json()),
        v.wire_json().member("errorClass"@) == wire::wire_some(v.error_class),
        v.wire_json().member("executionMode"@) == wire::wire_some(v.execution_mode),
        v.wire_json().member("fallbackReason"@) == wire::wire_some(v.fallback_reason),
        v.wire_json().member("chainIndex"@) == wire::wire_some(v.chain_index),
        v.wire_json().member("channel"@) == wire::wire_some(v.channel),
        v.wire_json().member("actionName"@) == wire::wire_some(v.action_name),
        forall|key: Seq<char>| #[trigger]
            v.wire_json().member(key) is Some ==> key == "callId"@ || key == "outcome"@
                || key == "errorClass"@ || key == "executionMode"@ || key == "fallbackReason"@
                || key == "chainIndex"@ || key == "channel"@ || key == "actionName"@,
{
    broadcast use
        keyed::lemma_get_after_with,
        keyed::lemma_get_after_with_some,
        keyed::lemma_sorted_after_with,
        keyed::lemma_sorted_after_with_some,
    ;

    lemma_attempt_record_keys();
}

impl Told for AttemptRecord {
    open spec fn ordered(&self) -> bool {
        true
    }

    open spec fn same(&self, other: &Self) -> bool {
        &&& self.call_id.same(&other.call_id)
        &&& self.outcome.same(&other.outcome)
        &&& told::same_some(self.error_class, other.error_class)
        &&& told::same_some(self.execution_mode, other.execution_mode)
        &&& told::same_some(self.fallback_reason, other.fallback_reason)
        &&& told::same_some(self.chain_index, other.chain_index)
        &&& told::same_some(self.channel, other.channel)
        &&& told::same_some(self.action_name, other.action_name)
    }

    proof fn told(a: &Self, b: &Self) {
        law_attempt_record_form(*a);
        law_attempt_record_form(*b);
        assert(a.wire_json().member("callId"@) == b.wire_json().member("callId"@));
        Told::told(&a.call_id, &b.call_id);
        assert(a.wire_json().member("outcome"@) == b.wire_json().member("outcome"@));
        Told::told(&a.outcome, &b.outcome);
        assert(a.wire_json().member("errorClass"@) == b.wire_json().member("errorClass"@));
        told::law_optional_values_are_told(a.error_class, b.error_class);
        assert(a.wire_json().member("executionMode"@) == b.wire_json().member("executionMode"@));
        told::law_optional_values_are_told(a.execution_mode, b.execution_mode);
        assert(a.wire_json().member("fallbackReason"@) == b.wire_json().member("fallbackReason"@));
        told::law_optional_values_are_told(a.fallback_reason, b.fallback_reason);
        assert(a.wire_json().member("chainIndex"@) == b.wire_json().member("chainIndex"@));
        told::law_optional_values_are_told(a.chain_index, b.chain_index);
        assert(a.wire_json().member("channel"@) == b.wire_json().member("channel"@));
        told::law_optional_values_are_told(a.channel, b.channel);
        assert(a.wire_json().member("actionName"@) == b.wire_json().member("actionName"@));
        told::law_optional_values_are_told(a.action_name, b.action_name);
    }
}

proof fn lemma_event_cursor_keys()
    ensures
        keyed::key_code("sessionId"@) == 9115110100,
        keyed::key_code("lastSequence"@) == 12108110101,
{
    reveal_strlit("sessionId");
    reveal_strlit("lastSequence");
}

/// The JSON form of [`EventCursor`] holds every field under its name, and nothing else.
pub proof fn law_event_cursor_form(v: EventCursor)
    ensures
        v.wire_json() is Object,
        v.wire_json().member("sessionId"@) == Some(v.session_id.wire_json()),
        v.wire_json().member("lastSequence"@) == Some(v.last_sequence.wire_json()),
        forall|key: Seq<char>| #[trigger]
            v.wire_json().member(key) is Some ==> key == "sessionId"@ || key == "lastSequence"@,
{
    broadcast use
        keyed::lemma_get_after_with,
        keyed::lemma_get_after_with_some,
        keyed::lemma_sorted_after_with,
        keyed::lemma_sorted_after_with_some,
    ;

    lemma_event_cursor_keys();
}

impl Told for EventCursor {
    open spec fn ordered(&self) -> bool {
        true
    }

    open spec fn same(&self, other: &Self) -> bool {
        &&& self.session_id.same(&other.session_id)
        &&& self.last_sequence.same(&other.last_sequence)
    }

    proof fn told(a: &Self, b: &Self) {
        law_event_cursor_form(*a);
        law_event_cursor_form(*b);
        assert(a.wire_json().member("sessionId"@) == b.wire_json().member("sessionId"@));
        Told::told(&a.session_id, &b.session_id);
        assert(a.wire_json().member("lastSequence"@) == b.wire_json().member("lastSequence"@));
        Told::told(&a.last_sequence, &b.last_sequence);
    }
}

proof fn lemma_attestation_snapshot_keys()
    ensures
        keyed::key_code("attestedAt"@) == 10097100116,
        keyed::key_code("lockfileDigest"@) == 14108103116,
{
    reveal_strlit("attestedAt");
    reveal_strlit("lockfileDigest");
}

/// The JSON form of [`AttestationSnapshot`] holds every field under its name, and nothing else.
pub proof fn law_attestation_snapshot_form(v: AttestationSnapshot)
    ensures
        v.wire_json() is Object,
        v.wire_json().member("lockfileDigest"@) == Some(v.lockfile_digest.wire_json()),
        v.wire_json().member("attestedAt"@) == Some(v.attested_at.wire_json()),
        forall|key: Seq<char>| #[trigger]
            v.wire_json().member(key) is Some ==> key == "lockfileDigest"@ || key == "attestedAt"@,
{
    broadcast use
        keyed::lemma_get_after_with,
        keyed::lemma_get_after_with_some,
        keyed::lemma_sorted_after_with,
        keyed::lemma_sorted_after_with_some,
    ;

    lemma_attestation_snapshot_keys();
}

impl Told for AttestationSnapshot {
    open spec fn ordered(&self) -> bool {
        true
    }

    open spec fn same(&self, other: &Self) -> bool {
        &&& self.lockfile_digest.same(&other.lockfile_digest)
        &&& self.attested_at.same(&other.attested_at)
    }

    proof fn told(a: &Self, b: &Self) {
        law_attestation_snapshot_form(*a);
        law_attestation_snapshot_form(*b);
        assert(a.wire_json().member("lockfileDigest"@) == b.wire_json().member("lockfileDigest"@));
        Told::told(&a.lockfile_digest, &b.lockfile_digest);
        assert(a.wire_json().member("attestedAt"@) == b.wire_json().member("attestedAt"@));
        Told::told(&a.attested_at, &b.attested_at);
    }
}

proof fn lemma_session_health_snapshot_keys()
    ensures
        keyed::key_code("ok"@) == 2111107107,
        keyed::key_code("degraded"@) == 8100101100,
{
    reveal_strlit("ok");
    reveal_strlit("degraded");
}

/// The JSON form of [`SessionHealthSnapshot`] holds every field under its name, and nothing else.
pub proof fn law_session_health_snapshot_form(v: SessionHealthSnapshot)
    ensures
        v.wire_json() is Object,
        v.wire_json().member("ok"@) == Some(v.ok.wire_json()),
        v.wire_json().member("degraded"@) == wire::wire_some(v.degraded),
        forall|key: Seq<char>| #[trigger]
            v.wire_json().member(key) is Some ==> key == "ok"@ || key == "degraded"@,
{
    broadcast use
        keyed::lemma_get_after_with,
        keyed::lemma_get_after_with_some,
        keyed::lemma_sorted_after_with,
        keyed::lemma_sorted_after_with_some,
    ;

    lemma_session_health_snapshot_keys();
}

impl Told for SessionHealthSnapshot {
    open spec fn ordered(&self) -> bool {
        true
    }

    open spec fn same(&self, other: &Self) -> bool {
        &&& self.ok.same(&other.ok)
        &&& told::same_some(self.degraded, other.degraded)
    }

    proof fn told(a: &Self, b: &Self) {
        law_session_health_snapshot_form(*a);
        law_session_health_snapshot_form(*b);
        assert(a.wire_json().member("ok"@) == b.wire_json().member("ok"@));
        Told::told(&a.ok, &b.ok);
        assert(a.wire_json().member("degraded"@) == b.wire_json().member("degraded"@));
        told::law_optional_values_are_told(a.degraded, b.degraded);
    }
}

proof fn lemma_provider_state_summary_keys()
    ensures
        keyed::key_code("health"@) == 6104116104,
        keyed::key_code("deviceId"@) == 8100073100,
        keyed::key_code("platform"@) == 8112114109,
        keyed::key_code("attestation"@) == 11097105110,
        keyed::key_code("eventCursor"@) == 11101115114,
        keyed::key_code("sessionLineage"@) == 14115101101,
{
    reveal_strlit("health");
    reveal_strlit("deviceId");
    reveal_strlit("platform");
    reveal_strlit("attestation");
    reveal_strlit("eventCursor");
    reveal_strlit("sessionLineage");
}

/// The JSON form of [`ProviderStateSummary`] holds every field under its name, and nothing else.
pub proof fn law_provider_state_summary_form(v: ProviderStateSummary)
    ensures
        v.wire_json() is Object,
        v.wire_json().member("sessionLineage"@) == Some(v.session_lineage.wire_json()),
        v.wire_json().member("eventCursor"@) == wire::wire_some(v.event_cursor),
        v.wire_json().member("attestation"@) == Some(v.attestation.wire_json()),
        v.wire_json().member("health"@) == Some(v.health.wire_json()),
        v.wire_json().member("deviceId"@) == Some(v.device_id.wire_json()),
        v.wire_json().member("platform"@) == wire::wire_some(v.platform),
        forall|key: Seq<char>| #[trigger]
            v.wire_json().member(key) is Some ==> key == "sessionLineage"@ || key == "eventCursor"@
                || key == "attestation"@ || key == "health"@ || key == "deviceId"@
                || key == "platform"@,
{
    broadcast use
        keyed::lemma_get_after_with,
        keyed::lemma_get_after_with_some,
        keyed::lemma_sorted_after_with,
        keyed::lemma_sorted_after_with_some,
    ;

    lemma_provider_state_summary_keys();
}

impl Told for ProviderStateSummary {
    open spec fn ordered(&self) -> bool {
        true
    }

    open spec fn same(&self, other: &Self) -> bool {
        &&& self.session_lineage.same(&other.session_lineage)
        &&& told::same_some(self.event_cursor, other.event_cursor)
        &&& self.attestation.same(&other.attestation)
        &&& self.health.same(&other.health)
        &&& self.device_id.same(&other.device_id)
        &&& told::same_some(self.platform, other.platform)
    }

    proof fn told(a: &Self, b: &Self) {
        law_provider_state_summary_form(*a);
        law_provider_state_summary_form(*b);
        assert(a.wire_json().member("sessionLineage"@) == b.wire_json().member("sessionLineage"@));
        Told::told(&a.session_lineage, &b.session_lineage);
        assert(a.wire_json().member("eventCursor"@) == b.wire_json().member("eventCursor"@));
        told::law_optional_values_are_told(a.event_cursor, b.event_cursor);
        assert(a.wire_json().member("attestation"@) == b.wire_json().member("attestation"@));
        Told::told(&a.attestation, &b.attestation);
        assert(a.wire_json().member("health"@) == b.wire_json().member("health"@));
        Told::told(&a.health, &b.health);
        assert(a.wire_json().member("deviceId"@) == b.wire_json().member("deviceId"@));
        Told::told(&a.device_id, &b.device_id);
        assert(a.wire_json().member("platform"@) == b.wire_json().member("platform"@));
        told::law_optional_values_are_told(a.platform, b.platform);
    }
}

proof fn lemma_observation_record_keys()
    ensures
        keyed::key_code("viewport"@) == 8118114116,
        keyed::key_code("screenshot"@) == 10115104116,
        keyed::key_code("uiSnapshot"@) == 10117104116,
        keyed::key_code("capturedAtMs"@) == 12099116115,
        keyed::key_code("observationId"@) == 13111111100,
        keyed::key_code("screenshotOmission"@) == 18115115110,
        keyed::key_code("uiSnapshotOmission"@) == 18117115110,
{
    reveal_strlit("viewport");
    reveal_strlit("screenshot");
    reveal_strlit("uiSnapshot");
    reveal_strlit("capturedAtMs");
    reveal_strlit("observationId");
    reveal_strlit("screenshotOmission");
    reveal_strlit("uiSnapshotOmission");
}

/// The JSON form of [`ObservationRecord`] holds every field under its name, and nothing else.
pub proof fn law_observation_record_form(v: ObservationRecord)
    ensures
        v.wire_json() is Object,
        v.wire_json().member("observationId"@) == Some(v.observation_id.wire_json()),
        v.wire_json().member("capturedAtMs"@) == Some(v.captured_at_ms.wire_json()),
        v.wire_json().member("viewport"@) == wire::wire_some(v.viewport),
        v.wire_json().member("screenshot"@) == wire::wire_some(v.screenshot),
        v.wire_json().member("screenshotOmission"@) == wire::wire_some(v.screenshot_omission),
        v.wire_json().member("uiSnapshot"@) == wire::wire_some(v.ui_snapshot),
        v.wire_json().member("uiSnapshotOmission"@) == wire::wire_some(v.ui_snapshot_omission),
        forall|key: Seq<char>| #[trigger]
            v.wire_json().member(key) is Some ==> key == "observationId"@ || key == "capturedAtMs"@
                || key == "viewport"@ || key == "screenshot"@ || key == "screenshotOmission"@
                || key == "uiSnapshot"@ || key == "uiSnapshotOmission"@,
{
    broadcast use
        keyed::lemma_get_after_with,
        keyed::lemma_get_after_with_some,
        keyed::lemma_sorted_after_with,
        keyed::lemma_sorted_after_with_some,
    ;

    lemma_observation_record_keys();
}

impl Told for ObservationRecord {
    open spec fn ordered(&self) -> bool {
        true
    }

    open spec fn same(&self, other: &Self) -> bool {
        &&& self.observation_id.same(&other.observation_id)
        &&& self.captured_at_ms.same(&other.captured_at_ms)
        &&& told::same_some(self.viewport, other.viewport)
        &&& told::same_some(self.screenshot, other.screenshot)
        &&& told::same_some(self.screenshot_omission, other.screenshot_omission)
        &&& told::same_some(self.ui_snapshot, other.ui_snapshot)
        &&& told::same_some(self.ui_snapshot_omission, other.ui_snapshot_omission)
    }

    proof fn told(a: &Self, b: &Self) {
        law_observation_record_form(*a);
        law_observation_record_form(*b);
        assert(a.wire_json().member("observationId"@) == b.wire_json().member("observationId"@));
        Told::told(&a.observation_id, &b.observation_id);
        assert(a.wire_json().member("capturedAtMs"@) == b.wire_json().member("capturedAtMs"@));
        Told::told(&a.captured_at_ms, &b.captured_at_ms);
        assert(a.wire_json().member("viewport"@) == b.wire_json().member("viewport"@));
        told::law_optional_values_are_told(a.viewport, b.viewport);
        assert(a.wire_json().member("screenshot"@) == b.wire_json().member("screenshot"@));
        told::law_optional_values_are_told(a.screenshot, b.screenshot);
        assert(a.wire_json().member("screenshotOmission"@)
            == b.wire_json().member("screenshotOmission"@));
        told::law_optional_values_are_told(a.screenshot_omission, b.screenshot_omission);
        assert(a.wire_json().member("uiSnapshot"@) == b.wire_json().member("uiSnapshot"@));
        told::law_optional_values_are_told(a.ui_snapshot, b.ui_snapshot);
        assert(a.wire_json().member("uiSnapshotOmission"@)
            == b.wire_json().member("uiSnapshotOmission"@));
        told::law_optional_values_are_told(a.ui_snapshot_omission, b.ui_snapshot_omission);
    }
}

proof fn lemma_assertion_outcome_record_keys()
    ensures
        keyed::key_code("reason"@) == 6114111110,
        keyed::key_code("result"@) == 6114108116,
        keyed::key_code("channel"@) == 7099101108,
        keyed::key_code("assertId"@) == 8097073100,
{
    reveal_strlit("reason");
    reveal_strlit("result");
    reveal_strlit("channel");
    reveal_strlit("assertId");
}

/// The JSON form of [`AssertionOutcomeRecord`] holds every field under its name, and nothing else.
pub proof fn law_assertion_outcome_record_form(v: AssertionOutcomeRecord)
    ensures
        v.wire_json() is Object,
        v.wire_json().member("assertId"@) == Some(v.assert_id.wire_json()),
        v.wire_json().member("result"@) == Some(v.result.wire_json()),
        v.wire_json().member("channel"@) == wire::wire_some(v.channel),
        v.wire_json().member("reason"@) == Some(v.reason.wire_json()),
        forall|key: Seq<char>| #[trigger]
            v.wire_json().member(key) is Some ==> key == "assertId"@ || key == "result"@
                || key == "channel"@ || key == "reason"@,
{
    broadcast use
        keyed::lemma_get_after_with,
        keyed::lemma_get_after_with_some,
        keyed::lemma_sorted_after_with,
        keyed::lemma_sorted_after_with_some,
    ;

    lemma_assertion_outcome_record_keys();
}

impl Told for AssertionOutcomeRecord {
    open spec fn ordered(&self) -> bool {
        true
    }

    open spec fn same(&self, other: &Self) -> bool {
        &&& self.assert_id.same(&other.assert_id)
        &&& self.result.same(&other.result)
        &&& told::same_some(self.channel, other.channel)
        &&& self.reason.same(&other.reason)
    }

    proof fn told(a: &Self, b: &Self) {
        law_assertion_outcome_record_form(*a);
        law_assertion_outcome_record_form(*b);
        assert(a.wire_json().member("assertId"@) == b.wire_json().member("assertId"@));
        Told::told(&a.assert_id, &b.assert_id);
        assert(a.wire_json().member("result"@) == b.wire_json().member("result"@));
        Told::told(&a.result, &b.result);
        assert(a.wire_json().member("channel"@) == b.wire_json().member("channel"@));
        told::law_optional_values_are_told(a.channel, b.channel);
        assert(a.wire_json().member("reason"@) == b.wire_json().member("reason"@));
        Told::told(&a.reason, &b.reason);
    }
}

proof fn lemma_step_record_keys()
    ensures
        keyed::key_code("output"@) == 6111117116,
        keyed::key_code("stepId"@) == 6115073100,
        keyed::key_code("runPath"@) == 7114116104,
        keyed::key_code("verdict"@) == 7118099116,
        keyed::key_code("attempts"@) == 8097116115,
        keyed::key_code("evidence"@) == 8101099101,
        keyed::key_code("judgeHash"@) == 9106097104,
        keyed::key_code("effectHash"@) == 10101097104,
        keyed::key_code("observations"@) == 12111111115,
        keyed::key_code("resolvedInputs"@) == 14114112115,
        keyed::key_code("assertionOutcomes"@) == 17097099115,
{
    reveal_strlit("output");
    reveal_strlit("stepId");
    reveal_strlit("runPath");
    reveal_strlit("verdict");
    reveal_strlit("attempts");
    reveal_strlit("evidence");
    reveal_strlit("judgeHash");
    reveal_strlit("effectHash");
    reveal_strlit("observations");
    reveal_strlit("resolvedInputs");
    reveal_strlit("assertionOutcomes");
}

/// The JSON form of [`StepRecord`] holds every field under its name, and nothing else.
pub proof fn law_step_record_form(v: StepRecord)
    ensures
        v.wire_json() is Object,
        v.wire_json().member("runPath"@) == Some(v.run_path.wire_json()),
        v.wire_json().member("stepId"@) == Some(v.step_id.wire_json()),
        v.wire_json().member("effectHash"@) == Some(v.effect_hash.wire_json()),
        v.wire_json().member("judgeHash"@) == Some(v.judge_hash.wire_json()),
        v.wire_json().member("attempts"@) == Some(v.attempts.wire_json()),
        v.wire_json().member("resolvedInputs"@) == Some(v.resolved_inputs.wire_json()),
        v.wire_json().member("output"@) == wire::wire_some(v.output),
        v.wire_json().member("observations"@) == Some(v.observations.wire_json()),
        v.wire_json().member("evidence"@) == Some(v.evidence.wire_json()),
        v.wire_json().member("assertionOutcomes"@) == Some(v.assertion_outcomes.wire_json()),
        v.wire_json().member("verdict"@) == wire::wire_some(v.verdict),
        forall|key: Seq<char>| #[trigger]
            v.wire_json().member(key) is Some ==> key == "runPath"@ || key == "stepId"@
                || key == "effectHash"@ || key == "judgeHash"@ || key == "attempts"@
                || key == "resolvedInputs"@ || key == "output"@ || key == "observations"@
                || key == "evidence"@ || key == "assertionOutcomes"@ || key == "verdict"@,
{
    broadcast use
        keyed::lemma_get_after_with,
        keyed::lemma_get_after_with_some,
        keyed::lemma_sorted_after_with,
        keyed::lemma_sorted_after_with_some,
    ;

    lemma_step_record_keys();
}

impl Told for StepRecord {
    open spec fn ordered(&self) -> bool {
        true
    }

    open spec fn same(&self, other: &Self) -> bool {
        &&& self.run_path.same(&other.run_path)
        &&& self.step_id.same(&other.step_id)
        &&& self.effect_hash.same(&other.effect_hash)
        &&& self.judge_hash.same(&other.judge_hash)
        &&& self.attempts.same(&other.attempts)
        &&& self.resolved_inputs.same(&other.resolved_inputs)
        &&& told::same_some(self.output, other.output)
        &&& self.observations.same(&other.observations)
        &&& self.evidence.same(&other.evidence)
        &&& self.assertion_outcomes.same(&other.assertion_outcomes)
        &&& told::same_some(self.verdict, other.verdict)
    }

    proof fn told(a: &Self, b: &Self) {
        law_step_record_form(*a);
        law_step_record_form(*b);
        assert(a.wire_json().member("runPath"@) == b.wire_json().member("runPath"@));
        Told::told(&a.run_path, &b.run_path);
        assert(a.wire_json().member("stepId"@) == b.wire_json().member("stepId"@));
        Told::told(&a.step_id, &b.step_id);
        assert(a.wire_json().member("effectHash"@) == b.wire_json().member("effectHash"@));
        Told::told(&a.effect_hash, &b.effect_hash);
        assert(a.wire_json().member("judgeHash"@) == b.wire_json().member("judgeHash"@));
        Told::told(&a.judge_hash, &b.judge_hash);
        assert(a.wire_json().member("attempts"@) == b.wire_json().member("attempts"@));
        Told::told(&a.attempts, &b.attempts);
        assert(a.wire_json().member("resolvedInputs"@) == b.wire_json().member("resolvedInputs"@));
        Told::told(&a.resolved_inputs, &b.resolved_inputs);
        assert(a.wire_json().member("output"@) == b.wire_json().member("output"@));
        told::law_optional_values_are_told(a.output, b.output);
        assert(a.wire_json().member("observations"@) == b.wire_json().member("observations"@));
        Told::told(&a.observations, &b.observations);
        assert(a.wire_json().member("evidence"@) == b.wire_json().member("evidence"@));
        Told::told(&a.evidence, &b.evidence);
        assert(a.wire_json().member("assertionOutcomes"@)
            == b.wire_json().member("assertionOutcomes"@));
        Told::told(&a.assertion_outcomes, &b.assertion_outcomes);
        assert(a.wire_json().member("verdict"@) == b.wire_json().member("verdict"@));
        told::law_optional_values_are_told(a.verdict, b.verdict);
    }
}

proof fn lemma_iter_state_keys()
    ensures
        keyed::key_code("as"@) == 2097115115,
        keyed::key_code("key"@) == 3107121121,
        keyed::key_code("index"@) == 5105101120,
{
    reveal_strlit("as");
    reveal_strlit("key");
    reveal_strlit("index");
}

/// The JSON form of [`IterState`] holds every field under its name, and nothing else.
pub proof fn law_iter_state_form(v: IterState)
    ensures
        v.wire_json() is Object,
        v.wire_json().member("as"@) == Some(v.var.wire_json()),
        v.wire_json().member("index"@) == Some(v.index.wire_json()),
        v.wire_json().member("key"@) == wire::wire_some(v.key),
        forall|key: Seq<char>| #[trigger]
            v.wire_json().member(key) is Some ==> key == "as"@ || key == "index"@ || key == "key"@,
{
    broadcast use
        keyed::lemma_get_after_with,
        keyed::lemma_get_after_with_some,
        keyed::lemma_sorted_after_with,
        keyed::lemma_sorted_after_with_some,
    ;

    lemma_iter_state_keys();
}

impl Told for IterState {
    open spec fn ordered(&self) -> bool {
        true
    }

    open spec fn same(&self, other: &Self) -> bool {
        &&& self.var.same(&other.var)
        &&& self.index.same(&other.index)
        &&& told::same_some(self.key, other.key)
    }

    proof fn told(a: &Self, b: &Self) {
        law_iter_state_form(*a);
        law_iter_state_form(*b);
        assert(a.wire_json().member("as"@) == b.wire_json().member("as"@));
        Told::told(&a.var, &b.var);
        assert(a.wire_json().member("index"@) == b.wire_json().member("index"@));
        Told::told(&a.index, &b.index);
        assert(a.wire_json().member("key"@) == b.wire_json().member("key"@));
        told::law_optional_values_are_told(a.key, b.key);
    }
}

proof fn lemma_call_frame_keys()
    ensures
        keyed::key_code("vars"@) == 4118115115,
        keyed::key_code("flowId"@) == 6102073100,
        keyed::key_code("irHash"@) == 6105115104,
        keyed::key_code("iterStack"@) == 9105097107,
        keyed::key_code("nextIndex"@) == 9110100120,
        keyed::key_code("callStepId"@) == 10099112100,
        keyed::key_code("inputsSnapshot"@) == 14105115116,
{
    reveal_strlit("vars");
    reveal_strlit("flowId");
    reveal_strlit("irHash");
    reveal_strlit("iterStack");
    reveal_strlit("nextIndex");
    reveal_strlit("callStepId");
    reveal_strlit("inputsSnapshot");
}

/// The JSON form of [`CallFrame`] holds every field under its name, and nothing else.
pub proof fn law_call_frame_form(v: CallFrame)
    ensures
        v.wire_json() is Object,
        v.wire_json().member("flowId"@) == Some(v.flow_id.wire_json()),
        v.wire_json().member("irHash"@) == Some(v.ir_hash.wire_json()),
        v.wire_json().member("callStepId"@) == wire::wire_some(v.call_step_id),
        v.wire_json().member("inputsSnapshot"@) == Some(v.inputs_snapshot.wire_json()),
        v.wire_json().member("vars"@) == Some(v.vars.wire_json()),
        v.wire_json().member("iterStack"@) == Some(v.iter_stack.wire_json()),
        v.wire_json().member("nextIndex"@) == Some(v.next_index.wire_json()),
        forall|key: Seq<char>| #[trigger]
            v.wire_json().member(key) is Some ==> key == "flowId"@ || key == "irHash"@
                || key == "callStepId"@ || key == "inputsSnapshot"@ || key == "vars"@
                || key == "iterStack"@ || key == "nextIndex"@,
{
    broadcast use
        keyed::lemma_get_after_with,
        keyed::lemma_get_after_with_some,
        keyed::lemma_sorted_after_with,
        keyed::lemma_sorted_after_with_some,
    ;

    lemma_call_frame_keys();
}

impl Told for CallFrame {
    open spec fn ordered(&self) -> bool {
        self.vars.ordered()
    }

    open spec fn same(&self, other: &Self) -> bool {
        &&& self.flow_id.same(&other.flow_id)
        &&& self.ir_hash.same(&other.ir_hash)
        &&& told::same_some(self.call_step_id, other.call_step_id)
        &&& self.inputs_snapshot.same(&other.inputs_snapshot)
        &&& self.vars.same(&other.vars)
        &&& self.iter_stack.same(&other.iter_stack)
        &&& self.next_index.same(&other.next_index)
    }

    proof fn told(a: &Self, b: &Self) {
        law_call_frame_form(*a);
        law_call_frame_form(*b);
        assert(a.wire_json().member("flowId"@) == b.wire_json().member("flowId"@));
        Told::told(&a.flow_id, &b.flow_id);
        assert(a.wire_json().member("irHash"@) == b.wire_json().member("irHash"@));
        Told::told(&a.ir_hash, &b.ir_hash);
        assert(a.wire_json().member("callStepId"@) == b.wire_json().member("callStepId"@));
        told::law_optional_values_are_told(a.call_step_id, b.call_step_id);
        assert(a.wire_json().member("inputsSnapshot"@) == b.wire_json().member("inputsSnapshot"@));
        Told::told(&a.inputs_snapshot, &b.inputs_snapshot);
        assert(a.wire_json().member("vars"@) == b.wire_json().member("vars"@));
        Told::told(&a.vars, &b.vars);
        assert(a.wire_json().member("iterStack"@) == b.wire_json().member("iterStack"@));
        Told::told(&a.iter_stack, &b.iter_stack);
        assert(a.wire_json().member("nextIndex"@) == b.wire_json().member("nextIndex"@));
        Told::told(&a.next_index, &b.next_index);
    }
}

proof fn lemma_pending_intent_keys()
    ensures
        keyed::key_code("callId"@) == 6099073100,
        keyed::key_code("argsSnapshot"@) == 12097104116,
{
    reveal_strlit("callId");
    reveal_strlit("argsSnapshot");
}

/// The JSON form of [`PendingIntent`] holds every field under its name, and nothing else.
pub proof fn law_pending_intent_form(v: PendingIntent)
    ensures
        v.wire_json() is Object,
        v.wire_json().member("callId"@) == Some(v.call_id.wire_json()),
        v.wire_json().member("argsSnapshot"@) == Some(v.args_snapshot.wire_json()),
        forall|key: Seq<char>| #[trigger]
            v.wire_json().member(key) is Some ==> key == "callId"@ || key == "argsSnapshot"@,
{
    broadcast use
        keyed::lemma_get_after_with,
        keyed::lemma_get_after_with_some,
        keyed::lemma_sorted_after_with,
        keyed::lemma_sorted_after_with_some,
    ;

    lemma_pending_intent_keys();
}

impl Told for PendingIntent {
    open spec fn ordered(&self) -> bool {
        true
    }

    open spec fn same(&self, other: &Self) -> bool {
        &&& self.call_id.same(&other.call_id)
        &&& self.args_snapshot.same(&other.args_snapshot)
    }

    proof fn told(a: &Self, b: &Self) {
        law_pending_intent_form(*a);
        law_pending_intent_form(*b);
        assert(a.wire_json().member("callId"@) == b.wire_json().member("callId"@));
        Told::told(&a.call_id, &b.call_id);
        assert(a.wire_json().member("argsSnapshot"@) == b.wire_json().member("argsSnapshot"@));
        Told::told(&a.args_snapshot, &b.args_snapshot);
    }
}

proof fn lemma_frontier_keys()
    ensures
        keyed::key_code("state"@) == 5115116101,
        keyed::key_code("runPath"@) == 7114116104,
        keyed::key_code("pendingIntent"@) == 13112116116,
{
    reveal_strlit("state");
    reveal_strlit("runPath");
    reveal_strlit("pendingIntent");
}

/// The JSON form of [`Frontier`] holds every field under its name, and nothing else.
pub proof fn law_frontier_form(v: Frontier)
    ensures
        v.wire_json() is Object,
        v.wire_json().member("runPath"@) == Some(v.run_path.wire_json()),
        v.wire_json().member("state"@) == Some(v.state.wire_json()),
        v.wire_json().member("pendingIntent"@) == wire::wire_some(v.pending_intent),
        forall|key: Seq<char>| #[trigger]
            v.wire_json().member(key) is Some ==> key == "runPath"@ || key == "state"@
                || key == "pendingIntent"@,
{
    broadcast use
        keyed::lemma_get_after_with,
        keyed::lemma_get_after_with_some,
        keyed::lemma_sorted_after_with,
        keyed::lemma_sorted_after_with_some,
    ;

    lemma_frontier_keys();
}

impl Told for Frontier {
    open spec fn ordered(&self) -> bool {
        true
    }

    open spec fn same(&self, other: &Self) -> bool {
        &&& self.run_path.same(&other.run_path)
        &&& self.state.same(&other.state)
        &&& told::same_some(self.pending_intent, other.pending_intent)
    }

    proof fn told(a: &Self, b: &Self) {
        law_frontier_form(*a);
        law_frontier_form(*b);
        assert(a.wire_json().member("runPath"@) == b.wire_json().member("runPath"@));
        Told::told(&a.run_path, &b.run_path);
        assert(a.wire_json().member("state"@) == b.wire_json().member("state"@));
        Told::told(&a.state, &b.state);
        assert(a.wire_json().member("pendingIntent"@) == b.wire_json().member("pendingIntent"@));
        told::law_optional_values_are_told(a.pending_intent, b.pending_intent);
    }
}

proof fn lemma_human_pending_keys()
    ensures
        keyed::key_code("mode"@) == 4109101101,
        keyed::key_code("prompt"@) == 6112112116,
        keyed::key_code("purpose"@) == 7112115101,
        keyed::key_code("runPath"@) == 7114116104,
        keyed::key_code("requestId"@) == 9114116100,
        keyed::key_code("deadlineAtMs"@) == 12100116115,
{
    reveal_strlit("mode");
    reveal_strlit("prompt");
    reveal_strlit("purpose");
    reveal_strlit("runPath");
    reveal_strlit("requestId");
    reveal_strlit("deadlineAtMs");
}

/// The JSON form of [`HumanPending`] holds every field under its name, and nothing else.
pub proof fn law_human_pending_form(v: HumanPending)
    ensures
        v.wire_json() is Object,
        v.wire_json().member("runPath"@) == Some(v.run_path.wire_json()),
        v.wire_json().member("requestId"@) == Some(v.request_id.wire_json()),
        v.wire_json().member("purpose"@) == Some(v.purpose.wire_json()),
        v.wire_json().member("mode"@) == wire::wire_some(v.mode),
        v.wire_json().member("prompt"@) == Some(v.prompt.wire_json()),
        v.wire_json().member("deadlineAtMs"@) == wire::wire_some(v.deadline_at_ms),
        forall|key: Seq<char>| #[trigger]
            v.wire_json().member(key) is Some ==> key == "runPath"@ || key == "requestId"@
                || key == "purpose"@ || key == "mode"@ || key == "prompt"@
                || key == "deadlineAtMs"@,
{
    broadcast use
        keyed::lemma_get_after_with,
        keyed::lemma_get_after_with_some,
        keyed::lemma_sorted_after_with,
        keyed::lemma_sorted_after_with_some,
    ;

    lemma_human_pending_keys();
}

impl Told for HumanPending {
    open spec fn ordered(&self) -> bool {
        true
    }

    open spec fn same(&self, other: &Self) -> bool {
        &&& self.run_path.same(&other.run_path)
        &&& self.request_id.same(&other.request_id)
        &&& self.purpose.same(&other.purpose)
        &&& told::same_some(self.mode, other.mode)
        &&& self.prompt.same(&other.prompt)
        &&& told::same_some(self.deadline_at_ms, other.deadline_at_ms)
    }

    proof fn told(a: &Self, b: &Self) {
        law_human_pending_form(*a);
        law_human_pending_form(*b);
        assert(a.wire_json().member("runPath"@) == b.wire_json().member("runPath"@));
        Told::told(&a.run_path, &b.run_path);
        assert(a.wire_json().member("requestId"@) == b.wire_json().member("requestId"@));
        Told::told(&a.request_id, &b.request_id);
        assert(a.wire_json().member("purpose"@) == b.wire_json().member("purpose"@));
        Told::told(&a.purpose, &b.purpose);
        assert(a.wire_json().member("mode"@) == b.wire_json().member("mode"@));
        told::law_optional_values_are_told(a.mode, b.mode);
        assert(a.wire_json().member("prompt"@) == b.wire_json().member("prompt"@));
        Told::told(&a.prompt, &b.prompt);
        assert(a.wire_json().member("deadlineAtMs"@) == b.wire_json().member("deadlineAtMs"@));
        told::law_optional_values_are_told(a.deadline_at_ms, b.deadline_at_ms);
    }
}

proof fn lemma_binding_state_keys()
    ensures
        keyed::key_code("deviceId"@) == 8100073100,
        keyed::key_code("eventCursor"@) == 11101115114,
        keyed::key_code("sessionLineage"@) == 14115101101,
{
    reveal_strlit("deviceId");
    reveal_strlit("eventCursor");
    reveal_strlit("sessionLineage");
}

/// The JSON form of [`BindingState`] holds every field under its name, and nothing else.
pub proof fn law_binding_state_form(v: BindingState)
    ensures
        v.wire_json() is Object,
        v.wire_json().member("deviceId"@) == Some(v.device_id.wire_json()),
        v.wire_json().member("sessionLineage"@) == Some(v.session_lineage.wire_json()),
        v.wire_json().member("eventCursor"@) == Some(v.event_cursor.wire_json()),
        forall|key: Seq<char>| #[trigger]
            v.wire_json().member(key) is Some ==> key == "deviceId"@ || key == "sessionLineage"@
                || key == "eventCursor"@,
{
    broadcast use
        keyed::lemma_get_after_with,
        keyed::lemma_get_after_with_some,
        keyed::lemma_sorted_after_with,
        keyed::lemma_sorted_after_with_some,
    ;

    lemma_binding_state_keys();
}

impl Told for BindingState {
    open spec fn ordered(&self) -> bool {
        true
    }

    open spec fn same(&self, other: &Self) -> bool {
        &&& self.device_id.same(&other.device_id)
        &&& self.session_lineage.same(&other.session_lineage)
        &&& self.event_cursor.same(&other.event_cursor)
    }

    proof fn told(a: &Self, b: &Self) {
        law_binding_state_form(*a);
        law_binding_state_form(*b);
        assert(a.wire_json().member("deviceId"@) == b.wire_json().member("deviceId"@));
        Told::told(&a.device_id, &b.device_id);
        assert(a.wire_json().member("sessionLineage"@) == b.wire_json().member("sessionLineage"@));
        Told::told(&a.session_lineage, &b.session_lineage);
        assert(a.wire_json().member("eventCursor"@) == b.wire_json().member("eventCursor"@));
        Told::told(&a.event_cursor, &b.event_cursor);
    }
}

proof fn lemma_checkpoint_view_keys()
    ensures
        keyed::key_code("runId"@) == 5114073100,
        keyed::key_code("frames"@) == 6102101115,
        keyed::key_code("irHash"@) == 6105115104,
        keyed::key_code("binding"@) == 7098110103,
        keyed::key_code("frontier"@) == 8102101114,
        keyed::key_code("completed"@) == 9099116100,
        keyed::key_code("humanPending"@) == 12104105103,
        keyed::key_code("lockfileDigest"@) == 14108103116,
        keyed::key_code("paramsSnapshot"@) == 14112115116,
{
    reveal_strlit("runId");
    reveal_strlit("frames");
    reveal_strlit("irHash");
    reveal_strlit("binding");
    reveal_strlit("frontier");
    reveal_strlit("completed");
    reveal_strlit("humanPending");
    reveal_strlit("lockfileDigest");
    reveal_strlit("paramsSnapshot");
}

/// The JSON form of [`CheckpointView`] holds every field under its name, and nothing else.
pub proof fn law_checkpoint_view_form(v: CheckpointView)
    ensures
        v.wire_json() is Object,
        v.wire_json().member("runId"@) == Some(v.run_id.wire_json()),
        v.wire_json().member("irHash"@) == Some(v.ir_hash.wire_json()),
        v.wire_json().member("lockfileDigest"@) == Some(v.lockfile_digest.wire_json()),
        v.wire_json().member("paramsSnapshot"@) == Some(v.params_snapshot.wire_json()),
        v.wire_json().member("binding"@) == Some(v.binding.wire_json()),
        v.wire_json().member("completed"@) == Some(v.completed.wire_json()),
        v.wire_json().member("frames"@) == Some(v.frames.wire_json()),
        v.wire_json().member("frontier"@) == Some(v.frontier.wire_json()),
        v.wire_json().member("humanPending"@) == wire::wire_some(v.human_pending),
        forall|key: Seq<char>| #[trigger]
            v.wire_json().member(key) is Some ==> key == "runId"@ || key == "irHash"@
                || key == "lockfileDigest"@ || key == "paramsSnapshot"@ || key == "binding"@
                || key == "completed"@ || key == "frames"@ || key == "frontier"@
                || key == "humanPending"@,
{
    broadcast use
        keyed::lemma_get_after_with,
        keyed::lemma_get_after_with_some,
        keyed::lemma_sorted_after_with,
        keyed::lemma_sorted_after_with_some,
    ;

    lemma_checkpoint_view_keys();
}

impl Told for CheckpointView {
    open spec fn ordered(&self) -> bool {
        self.frames.ordered()
    }

    open spec fn same(&self, other: &Self) -> bool {
        &&& self.run_id.same(&other.run_id)
        &&& self.ir_hash.same(&other.ir_hash)
        &&& self.lockfile_digest.same(&other.lockfile_digest)
        &&& self.params_snapshot.same(&other.params_snapshot)
        &&& self.binding.same(&other.binding)
        &&& self.completed.same(&other.completed)
        &&& self.frames.same(&other.frames)
        &&& self.frontier.same(&other.frontier)
        &&& told::same_some(self.human_pending, other.human_pending)
    }

    proof fn told(a: &Self, b: &Self) {
        law_checkpoint_view_form(*a);
        law_checkpoint_view_form(*b);
        assert(a.wire_json().member("runId"@) == b.wire_json().member("runId"@));
        Told::told(&a.run_id, &b.run_id);
        assert(a.wire_json().member("irHash"@) == b.wire_json().member("irHash"@));
        Told::told(&a.ir_hash, &b.ir_hash);
        assert(a.wire_json().member("lockfileDigest"@) == b.wire_json().member("lockfileDigest"@));
        Told::told(&a.lockfile_digest, &b.lockfile_digest);
        assert(a.wire_json().member("paramsSnapshot"@) == b.wire_json().member("paramsSnapshot"@));
        Told::told(&a.params_snapshot, &b.params_snapshot);
        assert(a.wire_json().member("binding"@) == b.wire_json().member("binding"@));
        Told::told(&a.binding, &b.binding);
        assert(a.wire_json().member("completed"@) == b.wire_json().member("completed"@));
        Told::told(&a.completed, &b.completed);
        assert(a.wire_json().member("frames"@) == b.wire_json().member("frames"@));
        Told::told(&a.frames, &b.frames);
        assert(a.wire_json().member("frontier"@) == b.wire_json().member("frontier"@));
        Told::told(&a.frontier, &b.frontier);
        assert(a.wire_json().member("humanPending"@) == b.wire_json().member("humanPending"@));
        told::law_optional_values_are_told(a.human_pending, b.human_pending);
    }
}

proof fn lemma_alignment_entry_keys()
    ensures
        keyed::key_code("class"@) == 5099115115,
        keyed::key_code("reason"@) == 6114111110,
        keyed::key_code("stepId"@) == 6115073100,
        keyed::key_code("runPath"@) == 7114116104,
{
    reveal_strlit("class");
    reveal_strlit("reason");
    reveal_strlit("stepId");
    reveal_strlit("runPath");
}

/// The JSON form of [`AlignmentEntry`] holds every field under its name, and nothing else.
pub proof fn law_alignment_entry_form(v: AlignmentEntry)
    ensures
        v.wire_json() is Object,
        v.wire_json().member("runPath"@) == Some(v.run_path.wire_json()),
        v.wire_json().member("stepId"@) == Some(v.step_id.wire_json()),
        v.wire_json().member("class"@) == Some(v.class.wire_json()),
        v.wire_json().member("reason"@) == wire::wire_some(v.reason),
        forall|key: Seq<char>| #[trigger]
            v.wire_json().member(key) is Some ==> key == "runPath"@ || key == "stepId"@
                || key == "class"@ || key == "reason"@,
{
    broadcast use
        keyed::lemma_get_after_with,
        keyed::lemma_get_after_with_some,
        keyed::lemma_sorted_after_with,
        keyed::lemma_sorted_after_with_some,
    ;

    lemma_alignment_entry_keys();
}

impl Told for AlignmentEntry {
    open spec fn ordered(&self) -> bool {
        true
    }

    open spec fn same(&self, other: &Self) -> bool {
        &&& self.run_path.same(&other.run_path)
        &&& self.step_id.same(&other.step_id)
        &&& self.class.same(&other.class)
        &&& told::same_some(self.reason, other.reason)
    }

    proof fn told(a: &Self, b: &Self) {
        law_alignment_entry_form(*a);
        law_alignment_entry_form(*b);
        assert(a.wire_json().member("runPath"@) == b.wire_json().member("runPath"@));
        Told::told(&a.run_path, &b.run_path);
        assert(a.wire_json().member("stepId"@) == b.wire_json().member("stepId"@));
        Told::told(&a.step_id, &b.step_id);
        assert(a.wire_json().member("class"@) == b.wire_json().member("class"@));
        Told::told(&a.class, &b.class);
        assert(a.wire_json().member("reason"@) == b.wire_json().member("reason"@));
        told::law_optional_values_are_told(a.reason, b.reason);
    }
}

proof fn lemma_requires_confirmation_keys()
    ensures
        keyed::key_code("cause"@) == 5099115101,
        keyed::key_code("reason"@) == 6114111110,
        keyed::key_code("stepId"@) == 6115073100,
        keyed::key_code("runPath"@) == 7114116104,
{
    reveal_strlit("cause");
    reveal_strlit("reason");
    reveal_strlit("stepId");
    reveal_strlit("runPath");
}

/// The JSON form of [`RequiresConfirmation`] holds every field under its name, and nothing else.
pub proof fn law_requires_confirmation_form(v: RequiresConfirmation)
    ensures
        v.wire_json() is Object,
        v.wire_json().member("runPath"@) == Some(v.run_path.wire_json()),
        v.wire_json().member("stepId"@) == wire::wire_some(v.step_id),
        v.wire_json().member("cause"@) == Some(v.cause.wire_json()),
        v.wire_json().member("reason"@) == Some(v.reason.wire_json()),
        forall|key: Seq<char>| #[trigger]
            v.wire_json().member(key) is Some ==> key == "runPath"@ || key == "stepId"@
                || key == "cause"@ || key == "reason"@,
{
    broadcast use
        keyed::lemma_get_after_with,
        keyed::lemma_get_after_with_some,
        keyed::lemma_sorted_after_with,
        keyed::lemma_sorted_after_with_some,
    ;

    lemma_requires_confirmation_keys();
}

impl Told for RequiresConfirmation {
    open spec fn ordered(&self) -> bool {
        true
    }

    open spec fn same(&self, other: &Self) -> bool {
        &&& self.run_path.same(&other.run_path)
        &&& told::same_some(self.step_id, other.step_id)
        &&& self.cause.same(&other.cause)
        &&& self.reason.same(&other.reason)
    }

    proof fn told(a: &Self, b: &Self) {
        law_requires_confirmation_form(*a);
        law_requires_confirmation_form(*b);
        assert(a.wire_json().member("runPath"@) == b.wire_json().member("runPath"@));
        Told::told(&a.run_path, &b.run_path);
        assert(a.wire_json().member("stepId"@) == b.wire_json().member("stepId"@));
        told::law_optional_values_are_told(a.step_id, b.step_id);
        assert(a.wire_json().member("cause"@) == b.wire_json().member("cause"@));
        Told::told(&a.cause, &b.cause);
        assert(a.wire_json().member("reason"@) == b.wire_json().member("reason"@));
        Told::told(&a.reason, &b.reason);
    }
}

proof fn lemma_alignment_report_keys()
    ensures
        keyed::key_code("entries"@) == 7101101115,
        keyed::key_code("resumePoint"@) == 11114105116,
        keyed::key_code("requiresConfirmation"@) == 20114097110,
{
    reveal_strlit("entries");
    reveal_strlit("resumePoint");
    reveal_strlit("requiresConfirmation");
}

/// The JSON form of [`AlignmentReport`] holds every field under its name, and nothing else.
pub proof fn law_alignment_report_form(v: AlignmentReport)
    ensures
        v.wire_json() is Object,
        v.wire_json().member("entries"@) == Some(v.entries.wire_json()),
        v.wire_json().member("resumePoint"@) == wire::wire_some(v.resume_point),
        v.wire_json().member("requiresConfirmation"@) == Some(v.requires_confirmation.wire_json()),
        forall|key: Seq<char>| #[trigger]
            v.wire_json().member(key) is Some ==> key == "entries"@ || key == "resumePoint"@
                || key == "requiresConfirmation"@,
{
    broadcast use
        keyed::lemma_get_after_with,
        keyed::lemma_get_after_with_some,
        keyed::lemma_sorted_after_with,
        keyed::lemma_sorted_after_with_some,
    ;

    lemma_alignment_report_keys();
}

impl Told for AlignmentReport {
    open spec fn ordered(&self) -> bool {
        true
    }

    open spec fn same(&self, other: &Self) -> bool {
        &&& self.entries.same(&other.entries)
        &&& told::same_some(self.resume_point, other.resume_point)
        &&& self.requires_confirmation.same(&other.requires_confirmation)
    }

    proof fn told(a: &Self, b: &Self) {
        law_alignment_report_form(*a);
        law_alignment_report_form(*b);
        assert(a.wire_json().member("entries"@) == b.wire_json().member("entries"@));
        Told::told(&a.entries, &b.entries);
        assert(a.wire_json().member("resumePoint"@) == b.wire_json().member("resumePoint"@));
        told::law_optional_values_are_told(a.resume_point, b.resume_point);
        assert(a.wire_json().member("requiresConfirmation"@)
            == b.wire_json().member("requiresConfirmation"@));
        Told::told(&a.requires_confirmation, &b.requires_confirmation);
    }
}

} // verus!
