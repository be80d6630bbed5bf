//! The words of the closed vocabularies tell their values apart.

use vstd::prelude::*;
use vstd::string::*;

use crate::ir::expr::PureFn;
use crate::ir::record::ActionOutcomeKind;
use crate::ir::vocab::{
    ActChannel, AlignmentClass, CanonicalVerb, Channel, CoordinateFallbackReason, EffectClass,
    EffectClassAction, ElementState, ErrorClass, ExecutionMode, HandlerHook, HumanMode,
    HumanPurpose, ObservationWhich, Phase, ScreenshotOmissionReason, StepState, SupervisePolicy,
    SupervisionDecision, TextMatchMode, UiContextKind, UiSnapshotOmissionReason, VerdictPolicy,
    VerdictStatus, VerifyChannel,
};
use crate::json::JsonV;
use crate::keyed;
use crate::sets::Ordinal;
use crate::told::Told;
use crate::wire::Wire;

verus! {

proof fn lemma_effect_class_words()
    ensures
        keyed::key_code("pure"@) == 4112101101,
        keyed::key_code("mutating"@) == 8109110103,
        keyed::key_code("readonly"@) == 8114108121,
{
    reveal_strlit("pure");
    reveal_strlit("mutating");
    reveal_strlit("readonly");
}

/// Each word of [`EffectClass`] spells one value, and each value is spelled by its own
/// word.
pub proof fn law_effect_class_words(v: EffectClass)
    ensures
        v.wire_json() == JsonV::Text(v.wire()),
        v.wire() == "mutating"@ <==> v == EffectClass::Mutating,
        v.wire() == "readonly"@ <==> v == EffectClass::Readonly,
        v.wire() == "pure"@ <==> v == EffectClass::Pure,
{
    lemma_effect_class_words();
}

impl Told for EffectClass {
    open spec fn ordered(&self) -> bool {
        true
    }

    open spec fn same(&self, other: &Self) -> bool {
        *self == *other
    }

    proof fn told(a: &Self, b: &Self) {
        law_effect_class_words(*a);
        law_effect_class_words(*b);
        assert(a.wire() == b.wire());
    }
}

proof fn lemma_effect_class_action_words()
    ensures
        keyed::key_code("mutating"@) == 8109110103,
        keyed::key_code("readonly"@) == 8114108121,
{
    reveal_strlit("mutating");
    reveal_strlit("readonly");
}

/// Each word of [`EffectClassAction`] spells one value, and each value is spelled by its own
/// word.
pub proof fn law_effect_class_action_words(v: EffectClassAction)
    ensures
        v.wire_json() == JsonV::Text(v.wire()),
        v.wire() == "mutating"@ <==> v == EffectClassAction::Mutating,
        v.wire() == "readonly"@ <==> v == EffectClassAction::Readonly,
{
    lemma_effect_class_action_words();
}

impl Told for EffectClassAction {
    open spec fn ordered(&self) -> bool {
        true
    }

    open spec fn same(&self, other: &Self) -> bool {
        *self == *other
    }

    proof fn told(a: &Self, b: &Self) {
        law_effect_class_action_words(*a);
        law_effect_class_action_words(*b);
        assert(a.wire() == b.wire());
    }
}

proof fn lemma_channel_words()
    ensures
        keyed::key_code("dom"@) == 3100109109,
        keyed::key_code("uiTree"@) == 6117101101,
        keyed::key_code("vision"@) == 6118111110,
        keyed::key_code("coordinate"@) == 10099097101,
{
    reveal_strlit("dom");
    reveal_strlit("uiTree");
    reveal_strlit("vision");
    reveal_strlit("coordinate");
}

/// Each word of [`Channel`] spells one value, and each value is spelled by its own
/// word.
pub proof fn law_channel_words(v: Channel)
    ensures
        v.wire_json() == JsonV::Text(v.wire()),
        v.wire() == "dom"@ <==> v == Channel::Dom,
        v.wire() == "uiTree"@ <==> v == Channel::UiTree,
        v.wire() == "vision"@ <==> v == Channel::Vision,
        v.wire() == "coordinate"@ <==> v == Channel::Coordinate,
{
    lemma_channel_words();
}

impl Told for Channel {
    open spec fn ordered(&self) -> bool {
        true
    }

    open spec fn same(&self, other: &Self) -> bool {
        *self == *other
    }

    proof fn told(a: &Self, b: &Self) {
        law_channel_words(*a);
        law_channel_words(*b);
        assert(a.wire() == b.wire());
    }
}

proof fn lemma_act_channel_words()
    ensures
        keyed::key_code("dom"@) == 3100109109,
        keyed::key_code("uiTree"@) == 6117101101,
        keyed::key_code("coordinate"@) == 10099097101,
{
    reveal_strlit("dom");
    reveal_strlit("uiTree");
    reveal_strlit("coordinate");
}

/// Each word of [`ActChannel`] spells one value, and each value is spelled by its own
/// word.
pub proof fn law_act_channel_words(v: ActChannel)
    ensures
        v.wire_json() == JsonV::Text(v.wire()),
        v.wire() == "dom"@ <==> v == ActChannel::Dom,
        v.wire() == "uiTree"@ <==> v == ActChannel::UiTree,
        v.wire() == "coordinate"@ <==> v == ActChannel::Coordinate,
{
    lemma_act_channel_words();
}

impl Told for ActChannel {
    open spec fn ordered(&self) -> bool {
        true
    }

    open spec fn same(&self, other: &Self) -> bool {
        *self == *other
    }

    proof fn told(a: &Self, b: &Self) {
        law_act_channel_words(*a);
        law_act_channel_words(*b);
        assert(a.wire() == b.wire());
    }
}

proof fn lemma_verify_channel_words()
    ensures
        keyed::key_code("dom"@) == 3100109109,
        keyed::key_code("uiTree"@) == 6117101101,
        keyed::key_code("vision"@) == 6118111110,
{
    reveal_strlit("dom");
    reveal_strlit("uiTree");
    reveal_strlit("vision");
}

/// Each word of [`VerifyChannel`] spells one value, and each value is spelled by its own
/// word.
pub proof fn law_verify_channel_words(v: VerifyChannel)
    ensures
        v.wire_json() == JsonV::Text(v.wire()),
        v.wire() == "dom"@ <==> v == VerifyChannel::Dom,
        v.wire() == "uiTree"@ <==> v == VerifyChannel::UiTree,
        v.wire() == "vision"@ <==> v == VerifyChannel::Vision,
{
    lemma_verify_channel_words();
}

impl Told for VerifyChannel {
    open spec fn ordered(&self) -> bool {
        true
    }

    open spec fn same(&self, other: &Self) -> bool {
        *self == *other
    }

    proof fn told(a: &Self, b: &Self) {
        law_verify_channel_words(*a);
        law_verify_channel_words(*b);
        assert(a.wire() == b.wire());
    }
}

proof fn lemma_execution_mode_words()
    ensures
        keyed::key_code("webSemantic"@) == 11119116099,
        keyed::key_code("nativeSemantic"@) == 14110110099,
        keyed::key_code("coordinateFallback"@) == 18099108107,
{
    reveal_strlit("webSemantic");
    reveal_strlit("nativeSemantic");
    reveal_strlit("coordinateFallback");
}

/// Each word of [`ExecutionMode`] spells one value, and each value is spelled by its own
/// word.
pub proof fn law_execution_mode_words(v: ExecutionMode)
    ensures
        v.wire_json() == JsonV::Text(v.wire()),
        v.wire() == "nativeSemantic"@ <==> v == ExecutionMode::NativeSemantic,
        v.wire() == "webSemantic"@ <==> v == ExecutionMode::WebSemantic,
        v.wire() == "coordinateFallback"@ <==> v == ExecutionMode::CoordinateFallback,
{
    lemma_execution_mode_words();
}

impl Told for ExecutionMode {
    open spec fn ordered(&self) -> bool {
        true
    }

    open spec fn same(&self, other: &Self) -> bool {
        *self == *other
    }

    proof fn told(a: &Self, b: &Self) {
        law_execution_mode_words(*a);
        law_execution_mode_words(*b);
        assert(a.wire() == b.wire());
    }
}

proof fn lemma_error_class_words()
    ensures
        keyed::key_code("target_stale"@) == 12116097101,
        keyed::key_code("transport_lost"@) == 14116108116,
        keyed::key_code("action_cancelled"@) == 16097108100,
        keyed::key_code("action_timed_out"@) == 16097095116,
        keyed::key_code("capability_drift"@) == 16099114116,
        keyed::key_code("session_degraded"@) == 16115097100,
        keyed::key_code("action_failed_final"@) == 19097102108,
        keyed::key_code("bind_arguments_invalid"@) == 22098110100,
        keyed::key_code("action_failed_retryable"@) == 23097114101,
{
    reveal_strlit("target_stale");
    reveal_strlit("transport_lost");
    reveal_strlit("action_cancelled");
    reveal_strlit("action_timed_out");
    reveal_strlit("capability_drift");
    reveal_strlit("session_degraded");
    reveal_strlit("action_failed_final");
    reveal_strlit("bind_arguments_invalid");
    reveal_strlit("action_failed_retryable");
}

/// Each word of [`ErrorClass`] spells one value, and each value is spelled by its own
/// word.
pub proof fn law_error_class_words(v: ErrorClass)
    ensures
        v.wire_json() == JsonV::Text(v.wire()),
        v.wire() == "capability_drift"@ <==> v == ErrorClass::CapabilityDrift,
        v.wire() == "bind_arguments_invalid"@ <==> v == ErrorClass::BindArgumentsInvalid,
        v.wire() == "action_failed_retryable"@ <==> v == ErrorClass::ActionFailedRetryable,
        v.wire() == "action_failed_final"@ <==> v == ErrorClass::ActionFailedFinal,
        v.wire() == "action_timed_out"@ <==> v == ErrorClass::ActionTimedOut,
        v.wire() == "action_cancelled"@ <==> v == ErrorClass::ActionCancelled,
        v.wire() == "target_stale"@ <==> v == ErrorClass::TargetStale,
        v.wire() == "transport_lost"@ <==> v == ErrorClass::TransportLost,
        v.wire() == "session_degraded"@ <==> v == ErrorClass::SessionDegraded,
{
    lemma_error_class_words();
}

impl Told for ErrorClass {
    open spec fn ordered(&self) -> bool {
        true
    }

    open spec fn same(&self, other: &Self) -> bool {
        *self == *other
    }

    proof fn told(a: &Self, b: &Self) {
        law_error_class_words(*a);
        law_error_class_words(*b);
        assert(a.wire() == b.wire());
        match *a {
            ErrorClass::CapabilityDrift => assert(*b == ErrorClass::CapabilityDrift),
            ErrorClass::BindArgumentsInvalid => assert(*b == ErrorClass::BindArgumentsInvalid),
            ErrorClass::ActionFailedRetryable => assert(*b == ErrorClass::ActionFailedRetryable),
            ErrorClass::ActionFailedFinal => assert(*b == ErrorClass::ActionFailedFinal),
            ErrorClass::ActionTimedOut => assert(*b == ErrorClass::ActionTimedOut),
            ErrorClass::ActionCancelled => assert(*b == ErrorClass::ActionCancelled),
            ErrorClass::TargetStale => assert(*b == ErrorClass::TargetStale),
            ErrorClass::TransportLost => assert(*b == ErrorClass::TransportLost),
            ErrorClass::SessionDegraded => assert(*b == ErrorClass::SessionDegraded),
        }
    }
}

proof fn lemma_canonical_verb_words()
    ensures
        keyed::key_code("tap"@) == 3116112112,
        keyed::key_code("find"@) == 4102100100,
        keyed::key_code("clear"@) == 5099097114,
        keyed::key_code("invoke"@) == 6105107101,
        keyed::key_code("observe"@) == 7111118101,
        keyed::key_code("wait_for"@) == 8119111114,
        keyed::key_code("set_value"@) == 9115108101,
        keyed::key_code("screenshot"@) == 10115104116,
{
    reveal_strlit("tap");
    reveal_strlit("find");
    reveal_strlit("clear");
    reveal_strlit("invoke");
    reveal_strlit("observe");
    reveal_strlit("wait_for");
    reveal_strlit("set_value");
    reveal_strlit("screenshot");
}

/// Each word of [`CanonicalVerb`] spells one value, and each value is spelled by its own
/// word.
pub proof fn law_canonical_verb_words(v: CanonicalVerb)
    ensures
        v.wire_json() == JsonV::Text(v.wire()),
        v.wire() == "tap"@ <==> v == CanonicalVerb::Tap,
        v.wire() == "set_value"@ <==> v == CanonicalVerb::SetValue,
        v.wire() == "clear"@ <==> v == CanonicalVerb::Clear,
        v.wire() == "wait_for"@ <==> v == CanonicalVerb::WaitFor,
        v.wire() == "find"@ <==> v == CanonicalVerb::Find,
        v.wire() == "observe"@ <==> v == CanonicalVerb::Observe,
        v.wire() == "screenshot"@ <==> v == CanonicalVerb::Screenshot,
        v.wire() == "invoke"@ <==> v == CanonicalVerb::Invoke,
{
    lemma_canonical_verb_words();
}

impl Told for CanonicalVerb {
    open spec fn ordered(&self) -> bool {
        true
    }

    open spec fn same(&self, other: &Self) -> bool {
        *self == *other
    }

    proof fn told(a: &Self, b: &Self) {
        law_canonical_verb_words(*a);
        law_canonical_verb_words(*b);
        assert(a.wire() == b.wire());
        match *a {
            CanonicalVerb::Tap => assert(*b == CanonicalVerb::Tap),
            CanonicalVerb::SetValue => assert(*b == CanonicalVerb::SetValue),
            CanonicalVerb::Clear => assert(*b == CanonicalVerb::Clear),
            CanonicalVerb::WaitFor => assert(*b == CanonicalVerb::WaitFor),
            CanonicalVerb::Find => assert(*b == CanonicalVerb::Find),
            CanonicalVerb::Observe => assert(*b == CanonicalVerb::Observe),
            CanonicalVerb::Screenshot => assert(*b == CanonicalVerb::Screenshot),
            CanonicalVerb::Invoke => assert(*b == CanonicalVerb::Invoke),
        }
    }
}

proof fn lemma_verdict_policy_words()
    ensures
        keyed::key_code("strict"@) == 6115099116,
        keyed::key_code("standard"@) == 8115114100,
{
    reveal_strlit("strict");
    reveal_strlit("standard");
}

/// Each word of [`VerdictPolicy`] spells one value, and each value is spelled by its own
/// word.
pub proof fn law_verdict_policy_words(v: VerdictPolicy)
    ensures
        v.wire_json() == JsonV::Text(v.wire()),
        v.wire() == "standard"@ <==> v == VerdictPolicy::Standard,
        v.wire() == "strict"@ <==> v == VerdictPolicy::Strict,
{
    lemma_verdict_policy_words();
}

impl Told for VerdictPolicy {
    open spec fn ordered(&self) -> bool {
        true
    }

    open spec fn same(&self, other: &Self) -> bool {
        *self == *other
    }

    proof fn told(a: &Self, b: &Self) {
        law_verdict_policy_words(*a);
        law_verdict_policy_words(*b);
        assert(a.wire() == b.wire());
    }
}

proof fn lemma_human_mode_words()
    ensures
        keyed::key_code("judge"@) == 5106103101,
        keyed::key_code("confirm"@) == 7099114109,
        keyed::key_code("repairWorld"@) == 11114114100,
        keyed::key_code("provideInput"@) == 12112112116,
{
    reveal_strlit("judge");
    reveal_strlit("confirm");
    reveal_strlit("repairWorld");
    reveal_strlit("provideInput");
}

/// Each word of [`HumanMode`] spells one value, and each value is spelled by its own
/// word.
pub proof fn law_human_mode_words(v: HumanMode)
    ensures
        v.wire_json() == JsonV::Text(v.wire()),
        v.wire() == "confirm"@ <==> v == HumanMode::Confirm,
        v.wire() == "judge"@ <==> v == HumanMode::Judge,
        v.wire() == "provideInput"@ <==> v == HumanMode::ProvideInput,
        v.wire() == "repairWorld"@ <==> v == HumanMode::RepairWorld,
{
    lemma_human_mode_words();
}

impl Told for HumanMode {
    open spec fn ordered(&self) -> bool {
        true
    }

    open spec fn same(&self, other: &Self) -> bool {
        *self == *other
    }

    proof fn told(a: &Self, b: &Self) {
        law_human_mode_words(*a);
        law_human_mode_words(*b);
        assert(a.wire() == b.wire());
    }
}

proof fn lemma_handler_hook_words()
    ensures
        keyed::key_code("onFail"@) == 6111105108,
        keyed::key_code("onError"@) == 7111111114,
        keyed::key_code("onUnknown"@) == 9111111110,
        keyed::key_code("onResumeDrift"@) == 13111114116,
{
    reveal_strlit("onFail");
    reveal_strlit("onError");
    reveal_strlit("onUnknown");
    reveal_strlit("onResumeDrift");
}

/// Each word of [`HandlerHook`] spells one value, and each value is spelled by its own
/// word.
pub proof fn law_handler_hook_words(v: HandlerHook)
    ensures
        v.wire_json() == JsonV::Text(v.wire()),
        v.wire() == "onFail"@ <==> v == HandlerHook::OnFail,
        v.wire() == "onUnknown"@ <==> v == HandlerHook::OnUnknown,
        v.wire() == "onError"@ <==> v == HandlerHook::OnError,
        v.wire() == "onResumeDrift"@ <==> v == HandlerHook::OnResumeDrift,
{
    lemma_handler_hook_words();
}

impl Told for HandlerHook {
    open spec fn ordered(&self) -> bool {
        true
    }

    open spec fn same(&self, other: &Self) -> bool {
        *self == *other
    }

    proof fn told(a: &Self, b: &Self) {
        law_handler_hook_words(*a);
        law_handler_hook_words(*b);
        assert(a.wire() == b.wire());
    }
}

proof fn lemma_element_state_words()
    ensures
        keyed::key_code("absent"@) == 6097110116,
        keyed::key_code("enabled"@) == 7101101100,
        keyed::key_code("present"@) == 7112110116,
        keyed::key_code("visible"@) == 7118108101,
{
    reveal_strlit("absent");
    reveal_strlit("enabled");
    reveal_strlit("present");
    reveal_strlit("visible");
}

/// Each word of [`ElementState`] spells one value, and each value is spelled by its own
/// word.
pub proof fn law_element_state_words(v: ElementState)
    ensures
        v.wire_json() == JsonV::Text(v.wire()),
        v.wire() == "present"@ <==> v == ElementState::Present,
        v.wire() == "visible"@ <==> v == ElementState::Visible,
        v.wire() == "enabled"@ <==> v == ElementState::Enabled,
        v.wire() == "absent"@ <==> v == ElementState::Absent,
{
    lemma_element_state_words();
}

impl Told for ElementState {
    open spec fn ordered(&self) -> bool {
        true
    }

    open spec fn same(&self, other: &Self) -> bool {
        *self == *other
    }

    proof fn told(a: &Self, b: &Self) {
        law_element_state_words(*a);
        law_element_state_words(*b);
        assert(a.wire() == b.wire());
    }
}

proof fn lemma_text_match_mode_words()
    ensures
        keyed::key_code("exact"@) == 5101099116,
        keyed::key_code("contains"@) == 8099110115,
{
    reveal_strlit("exact");
    reveal_strlit("contains");
}

/// Each word of [`TextMatchMode`] spells one value, and each value is spelled by its own
/// word.
pub proof fn law_text_match_mode_words(v: TextMatchMode)
    ensures
        v.wire_json() == JsonV::Text(v.wire()),
        v.wire() == "exact"@ <==> v == TextMatchMode::Exact,
        v.wire() == "contains"@ <==> v == TextMatchMode::Contains,
{
    lemma_text_match_mode_words();
}

impl Told for TextMatchMode {
    open spec fn ordered(&self) -> bool {
        true
    }

    open spec fn same(&self, other: &Self) -> bool {
        *self == *other
    }

    proof fn told(a: &Self, b: &Self) {
        law_text_match_mode_words(*a);
        law_text_match_mode_words(*b);
        assert(a.wire() == b.wire());
    }
}

proof fn lemma_ui_context_kind_words()
    ensures
        keyed::key_code("web"@) == 3119098098,
        keyed::key_code("native"@) == 6110118101,
{
    reveal_strlit("web");
    reveal_strlit("native");
}

/// Each word of [`UiContextKind`] spells one value, and each value is spelled by its own
/// word.
pub proof fn law_ui_context_kind_words(v: UiContextKind)
    ensures
        v.wire_json() == JsonV::Text(v.wire()),
        v.wire() == "native"@ <==> v == UiContextKind::Native,
        v.wire() == "web"@ <==> v == UiContextKind::Web,
{
    lemma_ui_context_kind_words();
}

impl Told for UiContextKind {
    open spec fn ordered(&self) -> bool {
        true
    }

    open spec fn same(&self, other: &Self) -> bool {
        *self == *other
    }

    proof fn told(a: &Self, b: &Self) {
        law_ui_context_kind_words(*a);
        law_ui_context_kind_words(*b);
        assert(a.wire() == b.wire());
    }
}

proof fn lemma_observation_which_words()
    ensures
        keyed::key_code("after"@) == 5097101114,
        keyed::key_code("before"@) == 6098114101,
{
    reveal_strlit("after");
    reveal_strlit("before");
}

/// Each word of [`ObservationWhich`] spells one value, and each value is spelled by its own
/// word.
pub proof fn law_observation_which_words(v: ObservationWhich)
    ensures
        v.wire_json() == JsonV::Text(v.wire()),
        v.wire() == "after"@ <==> v == ObservationWhich::After,
        v.wire() == "before"@ <==> v == ObservationWhich::Before,
{
    lemma_observation_which_words();
}

impl Told for ObservationWhich {
    open spec fn ordered(&self) -> bool {
        true
    }

    open spec fn same(&self, other: &Self) -> bool {
        *self == *other
    }

    proof fn told(a: &Self, b: &Self) {
        law_observation_which_words(*a);
        law_observation_which_words(*b);
        assert(a.wire() == b.wire());
    }
}

proof fn lemma_phase_words()
    ensures
        keyed::key_code("act"@) == 3097116116,
        keyed::key_code("assert"@) == 6097114116,
        keyed::key_code("observe"@) == 7111118101,
        keyed::key_code("preflight"@) == 9112103116,
{
    reveal_strlit("act");
    reveal_strlit("assert");
    reveal_strlit("observe");
    reveal_strlit("preflight");
}

/// Each word of [`Phase`] spells one value, and each value is spelled by its own
/// word.
pub proof fn law_phase_words(v: Phase)
    ensures
        v.wire_json() == JsonV::Text(v.wire()),
        v.wire() == "preflight"@ <==> v == Phase::Preflight,
        v.wire() == "act"@ <==> v == Phase::Act,
        v.wire() == "observe"@ <==> v == Phase::Observe,
        v.wire() == "assert"@ <==> v == Phase::Assert,
{
    lemma_phase_words();
}

impl Told for Phase {
    open spec fn ordered(&self) -> bool {
        true
    }

    open spec fn same(&self, other: &Self) -> bool {
        *self == *other
    }

    proof fn told(a: &Self, b: &Self) {
        law_phase_words(*a);
        law_phase_words(*b);
        assert(a.wire() == b.wire());
    }
}

proof fn lemma_step_state_words()
    ensures
        keyed::key_code("ready"@) == 5114100121,
        keyed::key_code("acting"@) == 6097110103,
        keyed::key_code("judged"@) == 6106101100,
        keyed::key_code("aborted"@) == 7097101100,
        keyed::key_code("blocked"@) == 7098101100,
        keyed::key_code("drifted"@) == 7100101100,
        keyed::key_code("pending"@) == 7112110103,
        keyed::key_code("probing"@) == 7112110103,
        keyed::key_code("skipped"@) == 7115101100,
        keyed::key_code("settling"@) == 8115110103,
        keyed::key_code("asserting"@) == 9097105103,
        keyed::key_code("observing"@) == 9111105103,
        keyed::key_code("suspended"@) == 9115100100,
        keyed::key_code("awaitingHuman"@) == 13097117110,
        "pending"@ != "probing"@,
{
    reveal_strlit("ready");
    reveal_strlit("acting");
    reveal_strlit("judged");
    reveal_strlit("aborted");
    reveal_strlit("blocked");
    reveal_strlit("drifted");
    reveal_strlit("pending");
    reveal_strlit("probing");
    reveal_strlit("skipped");
    reveal_strlit("settling");
    reveal_strlit("asserting");
    reveal_strlit("observing");
    reveal_strlit("suspended");
    reveal_strlit("awaitingHuman");
    assert("pending"@[1] != "probing"@[1]);
}

/// Each word of [`StepState`] spells one value, and each value is spelled by its own
/// word.
pub proof fn law_step_state_words(v: StepState)
    ensures
        v.wire_json() == JsonV::Text(v.wire()),
        v.wire() == "pending"@ <==> v == StepState::Pending,
        v.wire() == "ready"@ <==> v == StepState::Ready,
        v.wire() == "probing"@ <==> v == StepState::Probing,
        v.wire() == "acting"@ <==> v == StepState::Acting,
        v.wire() == "settling"@ <==> v == StepState::Settling,
        v.wire() == "observing"@ <==> v == StepState::Observing,
        v.wire() == "asserting"@ <==> v == StepState::Asserting,
        v.wire() == "judged"@ <==> v == StepState::Judged,
        v.wire() == "skipped"@ <==> v == StepState::Skipped,
        v.wire() == "blocked"@ <==> v == StepState::Blocked,
        v.wire() == "drifted"@ <==> v == StepState::Drifted,
        v.wire() == "awaitingHuman"@ <==> v == StepState::AwaitingHuman,
        v.wire() == "suspended"@ <==> v == StepState::Suspended,
        v.wire() == "aborted"@ <==> v == StepState::Aborted,
{
    lemma_step_state_words();
}

impl Told for StepState {
    open spec fn ordered(&self) -> bool {
        true
    }

    open spec fn same(&self, other: &Self) -> bool {
        *self == *other
    }

    proof fn told(a: &Self, b: &Self) {
        law_step_state_words(*a);
        law_step_state_words(*b);
        assert(a.wire() == b.wire());
        match *a {
            StepState::Pending => assert(*b == StepState::Pending),
            StepState::Ready => assert(*b == StepState::Ready),
            StepState::Probing => assert(*b == StepState::Probing),
            StepState::Acting => assert(*b == StepState::Acting),
            StepState::Settling => assert(*b == StepState::Settling),
            StepState::Observing => assert(*b == StepState::Observing),
            StepState::Asserting => assert(*b == StepState::Asserting),
            StepState::Judged => assert(*b == StepState::Judged),
            StepState::Skipped => assert(*b == StepState::Skipped),
            StepState::Blocked => assert(*b == StepState::Blocked),
            StepState::Drifted => assert(*b == StepState::Drifted),
            StepState::AwaitingHuman => assert(*b == StepState::AwaitingHuman),
            StepState::Suspended => assert(*b == StepState::Suspended),
            StepState::Aborted => assert(*b == StepState::Aborted),
        }
    }
}

proof fn lemma_alignment_class_words()
    ensures
        keyed::key_code("new"@) == 3110119119,
        keyed::key_code("orphaned"@) == 8111101100,
        keyed::key_code("reusable"@) == 8114108101,
        keyed::key_code("judgeDirty"@) == 10106114121,
        keyed::key_code("effectDirty"@) == 11101114121,
{
    reveal_strlit("new");
    reveal_strlit("orphaned");
    reveal_strlit("reusable");
    reveal_strlit("judgeDirty");
    reveal_strlit("effectDirty");
}

/// Each word of [`AlignmentClass`] spells one value, and each value is spelled by its own
/// word.
pub proof fn law_alignment_class_words(v: AlignmentClass)
    ensures
        v.wire_json() == JsonV::Text(v.wire()),
        v.wire() == "reusable"@ <==> v == AlignmentClass::Reusable,
        v.wire() == "judgeDirty"@ <==> v == AlignmentClass::JudgeDirty,
        v.wire() == "effectDirty"@ <==> v == AlignmentClass::EffectDirty,
        v.wire() == "new"@ <==> v == AlignmentClass::New,
        v.wire() == "orphaned"@ <==> v == AlignmentClass::Orphaned,
{
    lemma_alignment_class_words();
}

impl Told for AlignmentClass {
    open spec fn ordered(&self) -> bool {
        true
    }

    open spec fn same(&self, other: &Self) -> bool {
        *self == *other
    }

    proof fn told(a: &Self, b: &Self) {
        law_alignment_class_words(*a);
        law_alignment_class_words(*b);
        assert(a.wire() == b.wire());
    }
}

proof fn lemma_human_purpose_words()
    ensures
        keyed::key_code("step"@) == 4115112112,
        keyed::key_code("supervision"@) == 11115105110,
{
    reveal_strlit("step");
    reveal_strlit("supervision");
}

/// Each word of [`HumanPurpose`] spells one value, and each value is spelled by its own
/// word.
pub proof fn law_human_purpose_words(v: HumanPurpose)
    ensures
        v.wire_json() == JsonV::Text(v.wire()),
        v.wire() == "step"@ <==> v == HumanPurpose::Step,
        v.wire() == "supervision"@ <==> v == HumanPurpose::Supervision,
{
    lemma_human_purpose_words();
}

impl Told for HumanPurpose {
    open spec fn ordered(&self) -> bool {
        true
    }

    open spec fn same(&self, other: &Self) -> bool {
        *self == *other
    }

    proof fn told(a: &Self, b: &Self) {
        law_human_purpose_words(*a);
        law_human_purpose_words(*b);
        assert(a.wire() == b.wire());
    }
}

proof fn lemma_supervise_policy_words()
    ensures
        keyed::key_code("all"@) == 3097108108,
        keyed::key_code("mutating"@) == 8109110103,
{
    reveal_strlit("all");
    reveal_strlit("mutating");
}

/// Each word of [`SupervisePolicy`] spells one value, and each value is spelled by its own
/// word.
pub proof fn law_supervise_policy_words(v: SupervisePolicy)
    ensures
        v.wire_json() == JsonV::Text(v.wire()),
        v.wire() == "mutating"@ <==> v == SupervisePolicy::Mutating,
        v.wire() == "all"@ <==> v == SupervisePolicy::All,
{
    lemma_supervise_policy_words();
}

impl Told for SupervisePolicy {
    open spec fn ordered(&self) -> bool {
        true
    }

    open spec fn same(&self, other: &Self) -> bool {
        *self == *other
    }

    proof fn told(a: &Self, b: &Self) {
        law_supervise_policy_words(*a);
        law_supervise_policy_words(*b);
        assert(a.wire() == b.wire());
    }
}

proof fn lemma_supervision_decision_words()
    ensures
        keyed::key_code("abort"@) == 5097114116,
        keyed::key_code("proceed"@) == 7112101100,
        keyed::key_code("suspend"@) == 7115110100,
{
    reveal_strlit("abort");
    reveal_strlit("proceed");
    reveal_strlit("suspend");
}

/// Each word of [`SupervisionDecision`] spells one value, and each value is spelled by its own
/// word.
pub proof fn law_supervision_decision_words(v: SupervisionDecision)
    ensures
        v.wire_json() == JsonV::Text(v.wire()),
        v.wire() == "proceed"@ <==> v == SupervisionDecision::Proceed,
        v.wire() == "abort"@ <==> v == SupervisionDecision::Abort,
        v.wire() == "suspend"@ <==> v == SupervisionDecision::Suspend,
{
    lemma_supervision_decision_words();
}

impl Told for SupervisionDecision {
    open spec fn ordered(&self) -> bool {
        true
    }

    open spec fn same(&self, other: &Self) -> bool {
        *self == *other
    }

    proof fn told(a: &Self, b: &Self) {
        law_supervision_decision_words(*a);
        law_supervision_decision_words(*b);
        assert(a.wire() == b.wire());
    }
}

proof fn lemma_coordinate_fallback_reason_words()
    ensures
        keyed::key_code("platformLimitation"@) == 18112097110,
        keyed::key_code("semanticInteractionUnavailable"@) == 30115118101,
{
    reveal_strlit("platformLimitation");
    reveal_strlit("semanticInteractionUnavailable");
}

/// Each word of [`CoordinateFallbackReason`] spells one value, and each value is spelled by its own
/// word.
pub proof fn law_coordinate_fallback_reason_words(v: CoordinateFallbackReason)
    ensures
        v.wire_json() == JsonV::Text(v.wire()),
        v.wire() == "semanticInteractionUnavailable"@ <==> v == CoordinateFallbackReason::SemanticInteractionUnavailable,
        v.wire() == "platformLimitation"@ <==> v == CoordinateFallbackReason::PlatformLimitation,
{
    lemma_coordinate_fallback_reason_words();
}

impl Told for CoordinateFallbackReason {
    open spec fn ordered(&self) -> bool {
        true
    }

    open spec fn same(&self, other: &Self) -> bool {
        *self == *other
    }

    proof fn told(a: &Self, b: &Self) {
        law_coordinate_fallback_reason_words(*a);
        law_coordinate_fallback_reason_words(*b);
        assert(a.wire() == b.wire());
    }
}

proof fn lemma_verdict_status_words()
    ensures
        keyed::key_code("fail"@) == 4102108108,
        keyed::key_code("pass"@) == 4112115115,
        keyed::key_code("unknown"@) == 7117119110,
{
    reveal_strlit("fail");
    reveal_strlit("pass");
    reveal_strlit("unknown");
}

/// Each word of [`VerdictStatus`] spells one value, and each value is spelled by its own
/// word.
pub proof fn law_verdict_status_words(v: VerdictStatus)
    ensures
        v.wire_json() == JsonV::Text(v.wire()),
        v.wire() == "pass"@ <==> v == VerdictStatus::Pass,
        v.wire() == "fail"@ <==> v == VerdictStatus::Fail,
        v.wire() == "unknown"@ <==> v == VerdictStatus::Unknown,
{
    lemma_verdict_status_words();
}

impl Told for VerdictStatus {
    open spec fn ordered(&self) -> bool {
        true
    }

    open spec fn same(&self, other: &Self) -> bool {
        *self == *other
    }

    proof fn told(a: &Self, b: &Self) {
        law_verdict_status_words(*a);
        law_verdict_status_words(*b);
        assert(a.wire() == b.wire());
    }
}

proof fn lemma_screenshot_omission_reason_words()
    ensures
        keyed::key_code("policy"@) == 6112099121,
        keyed::key_code("protectedAction"@) == 15112116110,
{
    reveal_strlit("policy");
    reveal_strlit("protectedAction");
}

/// Each word of [`ScreenshotOmissionReason`] spells one value, and each value is spelled by its own
/// word.
pub proof fn law_screenshot_omission_reason_words(v: ScreenshotOmissionReason)
    ensures
        v.wire_json() == JsonV::Text(v.wire()),
        v.wire() == "policy"@ <==> v == ScreenshotOmissionReason::Policy,
        v.wire() == "protectedAction"@ <==> v == ScreenshotOmissionReason::ProtectedAction,
{
    lemma_screenshot_omission_reason_words();
}

impl Told for ScreenshotOmissionReason {
    open spec fn ordered(&self) -> bool {
        true
    }

    open spec fn same(&self, other: &Self) -> bool {
        *self == *other
    }

    proof fn told(a: &Self, b: &Self) {
        law_screenshot_omission_reason_words(*a);
        law_screenshot_omission_reason_words(*b);
        assert(a.wire() == b.wire());
    }
}

proof fn lemma_ui_snapshot_omission_reason_words()
    ensures
        keyed::key_code("policy"@) == 6112099121,
        keyed::key_code("protectedAction"@) == 15112116110,
        keyed::key_code("driverUnsupported"@) == 17100111100,
{
    reveal_strlit("policy");
    reveal_strlit("protectedAction");
    reveal_strlit("driverUnsupported");
}

/// Each word of [`UiSnapshotOmissionReason`] spells one value, and each value is spelled by its own
/// word.
pub proof fn law_ui_snapshot_omission_reason_words(v: UiSnapshotOmissionReason)
    ensures
        v.wire_json() == JsonV::Text(v.wire()),
        v.wire() == "driverUnsupported"@ <==> v == UiSnapshotOmissionReason::DriverUnsupported,
        v.wire() == "policy"@ <==> v == UiSnapshotOmissionReason::Policy,
        v.wire() == "protectedAction"@ <==> v == UiSnapshotOmissionReason::ProtectedAction,
{
    lemma_ui_snapshot_omission_reason_words();
}

impl Told for UiSnapshotOmissionReason {
    open spec fn ordered(&self) -> bool {
        true
    }

    open spec fn same(&self, other: &Self) -> bool {
        *self == *other
    }

    proof fn told(a: &Self, b: &Self) {
        law_ui_snapshot_omission_reason_words(*a);
        law_ui_snapshot_omission_reason_words(*b);
        assert(a.wire() == b.wire());
    }
}

proof fn lemma_pure_fn_words()
    ensures
        keyed::key_code("eq"@) == 2101113113,
        keyed::key_code("ne"@) == 2110101101,
        keyed::key_code("or"@) == 2111114114,
        keyed::key_code("and"@) == 3097100100,
        keyed::key_code("len"@) == 3108110110,
        keyed::key_code("not"@) == 3110116116,
        keyed::key_code("concat"@) == 6099097116,
        keyed::key_code("coalesce"@) == 8099099101,
        keyed::key_code("jsonPath"@) == 8106116104,
        keyed::key_code("regexMatch"@) == 10114116104,
{
    reveal_strlit("eq");
    reveal_strlit("ne");
    reveal_strlit("or");
    reveal_strlit("and");
    reveal_strlit("len");
    reveal_strlit("not");
    reveal_strlit("concat");
    reveal_strlit("coalesce");
    reveal_strlit("jsonPath");
    reveal_strlit("regexMatch");
}

/// Each word of [`PureFn`] spells one value, and each value is spelled by its own
/// word.
pub proof fn law_pure_fn_words(v: PureFn)
    ensures
        v.wire_json() == JsonV::Text(v.wire()),
        v.wire() == "eq"@ <==> v == PureFn::Eq,
        v.wire() == "ne"@ <==> v == PureFn::Ne,
        v.wire() == "not"@ <==> v == PureFn::Not,
        v.wire() == "and"@ <==> v == PureFn::And,
        v.wire() == "or"@ <==> v == PureFn::Or,
        v.wire() == "concat"@ <==> v == PureFn::Concat,
        v.wire() == "len"@ <==> v == PureFn::Len,
        v.wire() == "coalesce"@ <==> v == PureFn::Coalesce,
        v.wire() == "jsonPath"@ <==> v == PureFn::JsonPath,
        v.wire() == "regexMatch"@ <==> v == PureFn::RegexMatch,
{
    lemma_pure_fn_words();
}

impl Told for PureFn {
    open spec fn ordered(&self) -> bool {
        true
    }

    open spec fn same(&self, other: &Self) -> bool {
        *self == *other
    }

    proof fn told(a: &Self, b: &Self) {
        law_pure_fn_words(*a);
        law_pure_fn_words(*b);
        assert(a.wire() == b.wire());
        match *a {
            PureFn::Eq => assert(*b == PureFn::Eq),
            PureFn::Ne => assert(*b == PureFn::Ne),
            PureFn::Not => assert(*b == PureFn::Not),
            PureFn::And => assert(*b == PureFn::And),
            PureFn::Or => assert(*b == PureFn::Or),
            PureFn::Concat => assert(*b == PureFn::Concat),
            PureFn::Len => assert(*b == PureFn::Len),
            PureFn::Coalesce => assert(*b == PureFn::Coalesce),
            PureFn::JsonPath => assert(*b == PureFn::JsonPath),
            PureFn::RegexMatch => assert(*b == PureFn::RegexMatch),
        }
        assert(*a == *b);
        assert(a.same(b));
    }
}

proof fn lemma_action_outcome_kind_words()
    ensures
        keyed::key_code("failed"@) == 6102101100,
        keyed::key_code("timedOut"@) == 8116117116,
        keyed::key_code("cancelled"@) == 9099108100,
        keyed::key_code("succeeded"@) == 9115100100,
{
    reveal_strlit("failed");
    reveal_strlit("timedOut");
    reveal_strlit("cancelled");
    reveal_strlit("succeeded");
}

/// Each word of [`ActionOutcomeKind`] spells one value, and each value is spelled by its own
/// word.
pub proof fn law_action_outcome_kind_words(v: ActionOutcomeKind)
    ensures
        v.wire_json() == JsonV::Text(v.wire()),
        v.wire() == "succeeded"@ <==> v == ActionOutcomeKind::Succeeded,
        v.wire() == "failed"@ <==> v == ActionOutcomeKind::Failed,
        v.wire() == "cancelled"@ <==> v == ActionOutcomeKind::Cancelled,
        v.wire() == "timedOut"@ <==> v == ActionOutcomeKind::TimedOut,
{
    lemma_action_outcome_kind_words();
}

impl Told for ActionOutcomeKind {
    open spec fn ordered(&self) -> bool {
        true
    }

    open spec fn same(&self, other: &Self) -> bool {
        *self == *other
    }

    proof fn told(a: &Self, b: &Self) {
        law_action_outcome_kind_words(*a);
        law_action_outcome_kind_words(*b);
        assert(a.wire() == b.wire());
    }
}

/// Execution modes and error classes are listed in one order.
pub proof fn law_places(mode: ExecutionMode, class: ErrorClass)
    ensures
        mode.place() == 0 <==> mode == ExecutionMode::NativeSemantic,
        mode.place() == 1 <==> mode == ExecutionMode::WebSemantic,
        mode.place() == 2 <==> mode == ExecutionMode::CoordinateFallback,
        class.place() == 0 <==> class == ErrorClass::CapabilityDrift,
        class.place() == 1 <==> class == ErrorClass::BindArgumentsInvalid,
        class.place() == 2 <==> class == ErrorClass::ActionFailedRetryable,
        class.place() == 3 <==> class == ErrorClass::ActionFailedFinal,
        class.place() == 4 <==> class == ErrorClass::ActionTimedOut,
        class.place() == 5 <==> class == ErrorClass::ActionCancelled,
        class.place() == 6 <==> class == ErrorClass::TargetStale,
        class.place() == 7 <==> class == ErrorClass::TransportLost,
        class.place() == 8 <==> class == ErrorClass::SessionDegraded,
{
}

} // verus!
