//! Closed vocabularies of the flow language, with their wire spellings.

use vstd::prelude::*;

use crate::json::{Json, JsonV};
use crate::sets::Ordinal;
use crate::wire::{Duplicate, Wire};

verus! {

/// Effect classification of a step.
#[derive(Debug, Clone, Copy, PartialEq, Eq, PartialOrd, Ord, Hash, Structural)]
pub enum EffectClass {
    /// Changes the world.
    Mutating,
    /// Probes the world without changing it.
    Readonly,
    /// Pure computation.
    Pure,
}

impl EffectClass {
    /// The wire spelling.
    pub open spec fn wire(self) -> Seq<char> {
        match self {
            EffectClass::Mutating => "mutating"@,
            EffectClass::Readonly => "readonly"@,
            EffectClass::Pure => "pure"@,
        }
    }

    /// The wire spelling.
    pub fn wire_name(self) -> (r: &'static str)
        ensures
            r@ == self.wire(),
    {
        match self {
            EffectClass::Mutating => "mutating",
            EffectClass::Readonly => "readonly",
            EffectClass::Pure => "pure",
        }
    }
}

impl Wire for EffectClass {
    open spec fn wire_json(&self) -> JsonV {
        JsonV::Text(self.wire())
    }

    fn to_json(&self) -> (r: Json) {
        Json::text(self.wire_name())
    }
}

impl Duplicate for EffectClass {
    fn duplicate(&self) -> (r: Self) {
        *self
    }
}

/// Effect classification of an action step; pure computation belongs to `let`.
#[derive(Debug, Clone, Copy, PartialEq, Eq, PartialOrd, Ord, Hash, Structural)]
pub enum EffectClassAction {
    /// Changes the world.
    Mutating,
    /// Probes the world without changing it.
    Readonly,
}

impl EffectClassAction {
    /// The wire spelling.
    pub open spec fn wire(self) -> Seq<char> {
        match self {
            EffectClassAction::Mutating => "mutating"@,
            EffectClassAction::Readonly => "readonly"@,
        }
    }

    /// The wire spelling.
    pub fn wire_name(self) -> (r: &'static str)
        ensures
            r@ == self.wire(),
    {
        match self {
            EffectClassAction::Mutating => "mutating",
            EffectClassAction::Readonly => "readonly",
        }
    }
}

impl Wire for EffectClassAction {
    open spec fn wire_json(&self) -> JsonV {
        JsonV::Text(self.wire())
    }

    fn to_json(&self) -> (r: Json) {
        Json::text(self.wire_name())
    }
}

impl Duplicate for EffectClassAction {
    fn duplicate(&self) -> (r: Self) {
        *self
    }
}

/// Locating or verification channel.
#[derive(Debug, Clone, Copy, PartialEq, Eq, PartialOrd, Ord, Hash, Structural)]
pub enum Channel {
    /// Web DOM channel.
    Dom,
    /// Native UI-tree channel (requires `observation.uiSnapshot.v1`).
    UiTree,
    /// Vision channel.
    Vision,
    /// Static-coordinate channel (act-only).
    Coordinate,
}

impl Channel {
    /// The wire spelling.
    pub open spec fn wire(self) -> Seq<char> {
        match self {
            Channel::Dom => "dom"@,
            Channel::UiTree => "uiTree"@,
            Channel::Vision => "vision"@,
            Channel::Coordinate => "coordinate"@,
        }
    }

    /// The wire spelling.
    pub fn wire_name(self) -> (r: &'static str)
        ensures
            r@ == self.wire(),
    {
        match self {
            Channel::Dom => "dom",
            Channel::UiTree => "uiTree",
            Channel::Vision => "vision",
            Channel::Coordinate => "coordinate",
        }
    }
}

impl Wire for Channel {
    open spec fn wire_json(&self) -> JsonV {
        JsonV::Text(self.wire())
    }

    fn to_json(&self) -> (r: Json) {
        Json::text(self.wire_name())
    }
}

impl Duplicate for Channel {
    fn duplicate(&self) -> (r: Self) {
        *self
    }
}

/// Channels legal on the act chain: vision never locates or acts.
#[derive(Debug, Clone, Copy, PartialEq, Eq, PartialOrd, Ord, Hash, Structural)]
pub enum ActChannel {
    /// Web DOM channel.
    Dom,
    /// Native UI-tree channel.
    UiTree,
    /// Static-coordinate channel.
    Coordinate,
}

impl ActChannel {
    /// The wire spelling.
    pub open spec fn wire(self) -> Seq<char> {
        match self {
            ActChannel::Dom => "dom"@,
            ActChannel::UiTree => "uiTree"@,
            ActChannel::Coordinate => "coordinate"@,
        }
    }

    /// The wire spelling.
    pub fn wire_name(self) -> (r: &'static str)
        ensures
            r@ == self.wire(),
    {
        match self {
            ActChannel::Dom => "dom",
            ActChannel::UiTree => "uiTree",
            ActChannel::Coordinate => "coordinate",
        }
    }
}

impl Wire for ActChannel {
    open spec fn wire_json(&self) -> JsonV {
        JsonV::Text(self.wire())
    }

    fn to_json(&self) -> (r: Json) {
        Json::text(self.wire_name())
    }
}

impl Duplicate for ActChannel {
    fn duplicate(&self) -> (r: Self) {
        *self
    }
}

/// Channels legal on the verify chain: a coordinate cannot verify anything.
#[derive(Debug, Clone, Copy, PartialEq, Eq, PartialOrd, Ord, Hash, Structural)]
pub enum VerifyChannel {
    /// Web DOM channel.
    Dom,
    /// Native UI-tree channel.
    UiTree,
    /// Vision channel: only legal at the chain tail.
    Vision,
}

impl VerifyChannel {
    /// The wire spelling.
    pub open spec fn wire(self) -> Seq<char> {
        match self {
            VerifyChannel::Dom => "dom"@,
            VerifyChannel::UiTree => "uiTree"@,
            VerifyChannel::Vision => "vision"@,
        }
    }

    /// The wire spelling.
    pub fn wire_name(self) -> (r: &'static str)
        ensures
            r@ == self.wire(),
    {
        match self {
            VerifyChannel::Dom => "dom",
            VerifyChannel::UiTree => "uiTree",
            VerifyChannel::Vision => "vision",
        }
    }
}

impl Wire for VerifyChannel {
    open spec fn wire_json(&self) -> JsonV {
        JsonV::Text(self.wire())
    }

    fn to_json(&self) -> (r: Json) {
        Json::text(self.wire_name())
    }
}

impl Duplicate for VerifyChannel {
    fn duplicate(&self) -> (r: Self) {
        *self
    }
}

/// Execution mode that the daemon reports for an action.
#[derive(Debug, Clone, Copy, PartialEq, Eq, PartialOrd, Ord, Hash, Structural)]
pub enum ExecutionMode {
    /// Native semantic execution.
    NativeSemantic,
    /// Web semantic execution.
    WebSemantic,
    /// Daemon-internal coordinate fallback (must be whitelisted per attempt).
    CoordinateFallback,
}

impl ExecutionMode {
    /// The wire spelling.
    pub open spec fn wire(self) -> Seq<char> {
        match self {
            ExecutionMode::NativeSemantic => "nativeSemantic"@,
            ExecutionMode::WebSemantic => "webSemantic"@,
            ExecutionMode::CoordinateFallback => "coordinateFallback"@,
        }
    }

    /// The wire spelling.
    pub fn wire_name(self) -> (r: &'static str)
        ensures
            r@ == self.wire(),
    {
        match self {
            ExecutionMode::NativeSemantic => "nativeSemantic",
            ExecutionMode::WebSemantic => "webSemantic",
            ExecutionMode::CoordinateFallback => "coordinateFallback",
        }
    }
}

impl Wire for ExecutionMode {
    open spec fn wire_json(&self) -> JsonV {
        JsonV::Text(self.wire())
    }

    fn to_json(&self) -> (r: Json) {
        Json::text(self.wire_name())
    }
}

impl Duplicate for ExecutionMode {
    fn duplicate(&self) -> (r: Self) {
        *self
    }
}

/// Closed error taxonomy; the open set of wire codes is mapped onto it.
#[derive(Debug, Clone, Copy, PartialEq, Eq, PartialOrd, Ord, Hash, Structural)]
pub enum ErrorClass {
    /// Attestation does not match `lockfileDigest`.
    CapabilityDrift,
    /// Runtime arguments failed the action inputSchema: a compiler/expression bug signal.
    BindArgumentsInvalid,
    /// Action failed with `retryable: true` as reported by the daemon.
    ActionFailedRetryable,
    /// Action failed with `retryable: false`.
    ActionFailedFinal,
    /// Action timed out.
    ActionTimedOut,
    /// Action cancelled (user cancellation → run aborted).
    ActionCancelled,
    /// `UiNodeRef` documentEpoch invalid or locate miss.
    TargetStale,
    /// Transport lost / daemon exited.
    TransportLost,
    /// Session degraded.
    SessionDegraded,
}

impl ErrorClass {
    /// The wire spelling.
    pub open spec fn wire(self) -> Seq<char> {
        match self {
            ErrorClass::CapabilityDrift => "capability_drift"@,
            ErrorClass::BindArgumentsInvalid => "bind_arguments_invalid"@,
            ErrorClass::ActionFailedRetryable => "action_failed_retryable"@,
            ErrorClass::ActionFailedFinal => "action_failed_final"@,
            ErrorClass::ActionTimedOut => "action_timed_out"@,
            ErrorClass::ActionCancelled => "action_cancelled"@,
            ErrorClass::TargetStale => "target_stale"@,
            ErrorClass::TransportLost => "transport_lost"@,
            ErrorClass::SessionDegraded => "session_degraded"@,
        }
    }

    /// The wire spelling.
    pub fn wire_name(self) -> (r: &'static str)
        ensures
            r@ == self.wire(),
    {
        match self {
            ErrorClass::CapabilityDrift => "capability_drift",
            ErrorClass::BindArgumentsInvalid => "bind_arguments_invalid",
            ErrorClass::ActionFailedRetryable => "action_failed_retryable",
            ErrorClass::ActionFailedFinal => "action_failed_final",
            ErrorClass::ActionTimedOut => "action_timed_out",
            ErrorClass::ActionCancelled => "action_cancelled",
            ErrorClass::TargetStale => "target_stale",
            ErrorClass::TransportLost => "transport_lost",
            ErrorClass::SessionDegraded => "session_degraded",
        }
    }
}

impl Wire for ErrorClass {
    open spec fn wire_json(&self) -> JsonV {
        JsonV::Text(self.wire())
    }

    fn to_json(&self) -> (r: Json) {
        Json::text(self.wire_name())
    }
}

impl Duplicate for ErrorClass {
    fn duplicate(&self) -> (r: Self) {
        *self
    }
}

/// Canonical verbs, for reports only: execution goes by the native action name.
#[derive(Debug, Clone, Copy, PartialEq, Eq, PartialOrd, Ord, Hash, Structural)]
pub enum CanonicalVerb {
    /// Tap an element.
    Tap,
    /// Set an element's value.
    SetValue,
    /// Clear an element.
    Clear,
    /// Wait for an element condition.
    WaitFor,
    /// Find an element.
    Find,
    /// Explicit observation.
    Observe,
    /// Screenshot capture.
    Screenshot,
    /// Escape hatch for provider/driver-specific actions.
    Invoke,
}

impl CanonicalVerb {
    /// The wire spelling.
    pub open spec fn wire(self) -> Seq<char> {
        match self {
            CanonicalVerb::Tap => "tap"@,
            CanonicalVerb::SetValue => "set_value"@,
            CanonicalVerb::Clear => "clear"@,
            CanonicalVerb::WaitFor => "wait_for"@,
            CanonicalVerb::Find => "find"@,
            CanonicalVerb::Observe => "observe"@,
            CanonicalVerb::Screenshot => "screenshot"@,
            CanonicalVerb::Invoke => "invoke"@,
        }
    }

    /// The wire spelling.
    pub fn wire_name(self) -> (r: &'static str)
        ensures
            r@ == self.wire(),
    {
        match self {
            CanonicalVerb::Tap => "tap",
            CanonicalVerb::SetValue => "set_value",
            CanonicalVerb::Clear => "clear",
            CanonicalVerb::WaitFor => "wait_for",
            CanonicalVerb::Find => "find",
            CanonicalVerb::Observe => "observe",
            CanonicalVerb::Screenshot => "screenshot",
            CanonicalVerb::Invoke => "invoke",
        }
    }
}

impl Wire for CanonicalVerb {
    open spec fn wire_json(&self) -> JsonV {
        JsonV::Text(self.wire())
    }

    fn to_json(&self) -> (r: Json) {
        Json::text(self.wire_name())
    }
}

impl Duplicate for CanonicalVerb {
    fn duplicate(&self) -> (r: Self) {
        *self
    }
}

/// How verdicts of a flow fold.
#[derive(Debug, Clone, Copy, PartialEq, Eq, PartialOrd, Ord, Hash, Structural)]
pub enum VerdictPolicy {
    /// Degraded passes remain passes (flagged `degraded`).
    Standard,
    /// Degraded passes fold to `unknown`.
    Strict,
}

impl VerdictPolicy {
    /// The wire spelling.
    pub open spec fn wire(self) -> Seq<char> {
        match self {
            VerdictPolicy::Standard => "standard"@,
            VerdictPolicy::Strict => "strict"@,
        }
    }

    /// The wire spelling.
    pub fn wire_name(self) -> (r: &'static str)
        ensures
            r@ == self.wire(),
    {
        match self {
            VerdictPolicy::Standard => "standard",
            VerdictPolicy::Strict => "strict",
        }
    }
}

impl Wire for VerdictPolicy {
    open spec fn wire_json(&self) -> JsonV {
        JsonV::Text(self.wire())
    }

    fn to_json(&self) -> (r: Json) {
        Json::text(self.wire_name())
    }
}

impl Duplicate for VerdictPolicy {
    fn duplicate(&self) -> (r: Self) {
        *self
    }
}

/// Interaction mode of a human step.
#[derive(Debug, Clone, Copy, PartialEq, Eq, PartialOrd, Ord, Hash, Structural)]
pub enum HumanMode {
    /// Human confirms/rejects.
    Confirm,
    /// Human produces the step verdict.
    Judge,
    /// Human provides typed input (requires `outputSchema`).
    ProvideInput,
    /// Human repairs the world.
    RepairWorld,
}

impl HumanMode {
    /// The wire spelling.
    pub open spec fn wire(self) -> Seq<char> {
        match self {
            HumanMode::Confirm => "confirm"@,
            HumanMode::Judge => "judge"@,
            HumanMode::ProvideInput => "provideInput"@,
            HumanMode::RepairWorld => "repairWorld"@,
        }
    }

    /// The wire spelling.
    pub fn wire_name(self) -> (r: &'static str)
        ensures
            r@ == self.wire(),
    {
        match self {
            HumanMode::Confirm => "confirm",
            HumanMode::Judge => "judge",
            HumanMode::ProvideInput => "provideInput",
            HumanMode::RepairWorld => "repairWorld",
        }
    }
}

impl Wire for HumanMode {
    open spec fn wire_json(&self) -> JsonV {
        JsonV::Text(self.wire())
    }

    fn to_json(&self) -> (r: Json) {
        Json::text(self.wire_name())
    }
}

impl Duplicate for HumanMode {
    fn duplicate(&self) -> (r: Self) {
        *self
    }
}

/// Hooks that a handler can be mounted on.
#[derive(Debug, Clone, Copy, PartialEq, Eq, PartialOrd, Ord, Hash, Structural)]
pub enum HandlerHook {
    /// Fires when the step verdict folds to fail.
    OnFail,
    /// Fires when the step verdict folds to unknown.
    OnUnknown,
    /// Fires on an `ErrorClass` (optionally filtered via `errorClasses`).
    OnError,
    /// Fires when resume preflight probes detect world drift.
    OnResumeDrift,
}

impl HandlerHook {
    /// The wire spelling.
    pub open spec fn wire(self) -> Seq<char> {
        match self {
            HandlerHook::OnFail => "onFail"@,
            HandlerHook::OnUnknown => "onUnknown"@,
            HandlerHook::OnError => "onError"@,
            HandlerHook::OnResumeDrift => "onResumeDrift"@,
        }
    }

    /// The wire spelling.
    pub fn wire_name(self) -> (r: &'static str)
        ensures
            r@ == self.wire(),
    {
        match self {
            HandlerHook::OnFail => "onFail",
            HandlerHook::OnUnknown => "onUnknown",
            HandlerHook::OnError => "onError",
            HandlerHook::OnResumeDrift => "onResumeDrift",
        }
    }
}

impl Wire for HandlerHook {
    open spec fn wire_json(&self) -> JsonV {
        JsonV::Text(self.wire())
    }

    fn to_json(&self) -> (r: Json) {
        Json::text(self.wire_name())
    }
}

impl Duplicate for HandlerHook {
    fn duplicate(&self) -> (r: Self) {
        *self
    }
}

/// States that an element predicate can ask for.
#[derive(Debug, Clone, Copy, PartialEq, Eq, PartialOrd, Ord, Hash, Structural)]
pub enum ElementState {
    /// Element exists in the UI tree.
    Present,
    /// Element is visible.
    Visible,
    /// Element is enabled.
    Enabled,
    /// Element is absent.
    Absent,
}

impl ElementState {
    /// The wire spelling.
    pub open spec fn wire(self) -> Seq<char> {
        match self {
            ElementState::Present => "present"@,
            ElementState::Visible => "visible"@,
            ElementState::Enabled => "enabled"@,
            ElementState::Absent => "absent"@,
        }
    }

    /// The wire spelling.
    pub fn wire_name(self) -> (r: &'static str)
        ensures
            r@ == self.wire(),
    {
        match self {
            ElementState::Present => "present",
            ElementState::Visible => "visible",
            ElementState::Enabled => "enabled",
            ElementState::Absent => "absent",
        }
    }
}

impl Wire for ElementState {
    open spec fn wire_json(&self) -> JsonV {
        JsonV::Text(self.wire())
    }

    fn to_json(&self) -> (r: Json) {
        Json::text(self.wire_name())
    }
}

impl Duplicate for ElementState {
    fn duplicate(&self) -> (r: Self) {
        *self
    }
}

/// How a text matcher compares.
#[derive(Debug, Clone, Copy, PartialEq, Eq, PartialOrd, Ord, Hash, Structural)]
pub enum TextMatchMode {
    /// Exact match.
    Exact,
    /// Substring match.
    Contains,
}

impl TextMatchMode {
    /// The wire spelling.
    pub open spec fn wire(self) -> Seq<char> {
        match self {
            TextMatchMode::Exact => "exact"@,
            TextMatchMode::Contains => "contains"@,
        }
    }

    /// The wire spelling.
    pub fn wire_name(self) -> (r: &'static str)
        ensures
            r@ == self.wire(),
    {
        match self {
            TextMatchMode::Exact => "exact",
            TextMatchMode::Contains => "contains",
        }
    }
}

impl Wire for TextMatchMode {
    open spec fn wire_json(&self) -> JsonV {
        JsonV::Text(self.wire())
    }

    fn to_json(&self) -> (r: Json) {
        Json::text(self.wire_name())
    }
}

impl Duplicate for TextMatchMode {
    fn duplicate(&self) -> (r: Self) {
        *self
    }
}

/// Kind of a UI context.
#[derive(Debug, Clone, Copy, PartialEq, Eq, PartialOrd, Ord, Hash, Structural)]
pub enum UiContextKind {
    /// Native UI context.
    Native,
    /// Web UI context.
    Web,
}

impl UiContextKind {
    /// The wire spelling.
    pub open spec fn wire(self) -> Seq<char> {
        match self {
            UiContextKind::Native => "native"@,
            UiContextKind::Web => "web"@,
        }
    }

    /// The wire spelling.
    pub fn wire_name(self) -> (r: &'static str)
        ensures
            r@ == self.wire(),
    {
        match self {
            UiContextKind::Native => "native",
            UiContextKind::Web => "web",
        }
    }
}

impl Wire for UiContextKind {
    open spec fn wire_json(&self) -> JsonV {
        JsonV::Text(self.wire())
    }

    fn to_json(&self) -> (r: Json) {
        Json::text(self.wire_name())
    }
}

impl Duplicate for UiContextKind {
    fn duplicate(&self) -> (r: Self) {
        *self
    }
}

/// Which observation of an action step is reused.
#[derive(Debug, Clone, Copy, PartialEq, Eq, PartialOrd, Ord, Hash, Structural)]
pub enum ObservationWhich {
    /// The `ActionResult.after` observation.
    After,
    /// The `ActionResult.before` observation.
    Before,
}

impl ObservationWhich {
    /// The wire spelling.
    pub open spec fn wire(self) -> Seq<char> {
        match self {
            ObservationWhich::After => "after"@,
            ObservationWhich::Before => "before"@,
        }
    }

    /// The wire spelling.
    pub fn wire_name(self) -> (r: &'static str)
        ensures
            r@ == self.wire(),
    {
        match self {
            ObservationWhich::After => "after",
            ObservationWhich::Before => "before",
        }
    }
}

impl Wire for ObservationWhich {
    open spec fn wire_json(&self) -> JsonV {
        JsonV::Text(self.wire())
    }

    fn to_json(&self) -> (r: Json) {
        Json::text(self.wire_name())
    }
}

impl Duplicate for ObservationWhich {
    fn duplicate(&self) -> (r: Self) {
        *self
    }
}

/// Phases of the step pipeline.
#[derive(Debug, Clone, Copy, PartialEq, Eq, PartialOrd, Ord, Hash, Structural)]
pub enum Phase {
    /// Pre-entry world probe.
    Preflight,
    /// Action execution.
    Act,
    /// Observation capture.
    Observe,
    /// Assertion evaluation.
    Assert,
}

impl Phase {
    /// The wire spelling.
    pub open spec fn wire(self) -> Seq<char> {
        match self {
            Phase::Preflight => "preflight"@,
            Phase::Act => "act"@,
            Phase::Observe => "observe"@,
            Phase::Assert => "assert"@,
        }
    }

    /// The wire spelling.
    pub fn wire_name(self) -> (r: &'static str)
        ensures
            r@ == self.wire(),
    {
        match self {
            Phase::Preflight => "preflight",
            Phase::Act => "act",
            Phase::Observe => "observe",
            Phase::Assert => "assert",
        }
    }
}

impl Wire for Phase {
    open spec fn wire_json(&self) -> JsonV {
        JsonV::Text(self.wire())
    }

    fn to_json(&self) -> (r: Json) {
        Json::text(self.wire_name())
    }
}

impl Duplicate for Phase {
    fn duplicate(&self) -> (r: Self) {
        *self
    }
}

/// States of a step in a run.
#[derive(Debug, Clone, Copy, PartialEq, Eq, PartialOrd, Ord, Hash, Structural)]
pub enum StepState {
    /// Not yet reached.
    Pending,
    /// Inputs resolved and snapshotted.
    Ready,
    /// Preflight probes running.
    Probing,
    /// Action dispatched (entered only after the actionIntent WAL fsync).
    Acting,
    /// Awaiting the four-way terminal outcome.
    Settling,
    /// Capturing/localizing observations and evidence.
    Observing,
    /// Pure assertion evaluation.
    Asserting,
    /// Terminal: verdict folded (or no-verdict for unasserted mutations).
    Judged,
    /// Terminal: an `if` branch not taken.
    Skipped,
    /// Terminal: upstream failure with halt policy.
    Blocked,
    /// Resume probe failed.
    Drifted,
    /// Suspended awaiting a human response (step or supervision purpose).
    AwaitingHuman,
    /// Run suspended while this step was in flight.
    Suspended,
    /// Terminal: aborted by handler or user decision.
    Aborted,
}

impl StepState {
    /// The wire spelling.
    pub open spec fn wire(self) -> Seq<char> {
        match self {
            StepState::Pending => "pending"@,
            StepState::Ready => "ready"@,
            StepState::Probing => "probing"@,
            StepState::Acting => "acting"@,
            StepState::Settling => "settling"@,
            StepState::Observing => "observing"@,
            StepState::Asserting => "asserting"@,
            StepState::Judged => "judged"@,
            StepState::Skipped => "skipped"@,
            StepState::Blocked => "blocked"@,
            StepState::Drifted => "drifted"@,
            StepState::AwaitingHuman => "awaitingHuman"@,
            StepState::Suspended => "suspended"@,
            StepState::Aborted => "aborted"@,
        }
    }

    /// The wire spelling.
    pub fn wire_name(self) -> (r: &'static str)
        ensures
            r@ == self.wire(),
    {
        match self {
            StepState::Pending => "pending",
            StepState::Ready => "ready",
            StepState::Probing => "probing",
            StepState::Acting => "acting",
            StepState::Settling => "settling",
            StepState::Observing => "observing",
            StepState::Asserting => "asserting",
            StepState::Judged => "judged",
            StepState::Skipped => "skipped",
            StepState::Blocked => "blocked",
            StepState::Drifted => "drifted",
            StepState::AwaitingHuman => "awaitingHuman",
            StepState::Suspended => "suspended",
            StepState::Aborted => "aborted",
        }
    }
}

impl Wire for StepState {
    open spec fn wire_json(&self) -> JsonV {
        JsonV::Text(self.wire())
    }

    fn to_json(&self) -> (r: Json) {
        Json::text(self.wire_name())
    }
}

impl Duplicate for StepState {
    fn duplicate(&self) -> (r: Self) {
        *self
    }
}

/// How a recorded step relates to the flow that is resumed.
#[derive(Debug, Clone, Copy, PartialEq, Eq, PartialOrd, Ord, Hash, Structural)]
pub enum AlignmentClass {
    /// Same effect and judge hash: record adopted as-is.
    Reusable,
    /// Judge hash changed only: offline re-judgement over archived evidence.
    JudgeDirty,
    /// Effect hash changed: record and its data-dependent downstream invalid.
    EffectDirty,
    /// Present in the new IR only.
    New,
    /// Present in the old record only.
    Orphaned,
}

impl AlignmentClass {
    /// The wire spelling.
    pub open spec fn wire(self) -> Seq<char> {
        match self {
            AlignmentClass::Reusable => "reusable"@,
            AlignmentClass::JudgeDirty => "judgeDirty"@,
            AlignmentClass::EffectDirty => "effectDirty"@,
            AlignmentClass::New => "new"@,
            AlignmentClass::Orphaned => "orphaned"@,
        }
    }

    /// The wire spelling.
    pub fn wire_name(self) -> (r: &'static str)
        ensures
            r@ == self.wire(),
    {
        match self {
            AlignmentClass::Reusable => "reusable",
            AlignmentClass::JudgeDirty => "judgeDirty",
            AlignmentClass::EffectDirty => "effectDirty",
            AlignmentClass::New => "new",
            AlignmentClass::Orphaned => "orphaned",
        }
    }
}

impl Wire for AlignmentClass {
    open spec fn wire_json(&self) -> JsonV {
        JsonV::Text(self.wire())
    }

    fn to_json(&self) -> (r: Json) {
        Json::text(self.wire_name())
    }
}

impl Duplicate for AlignmentClass {
    fn duplicate(&self) -> (r: Self) {
        *self
    }
}

/// Why a human is asked.
#[derive(Debug, Clone, Copy, PartialEq, Eq, PartialOrd, Ord, Hash, Structural)]
pub enum HumanPurpose {
    /// A `human` step declared in the IR.
    Step,
    /// A supervised-run gate before a mutating dispatch.
    Supervision,
}

impl HumanPurpose {
    /// The wire spelling.
    pub open spec fn wire(self) -> Seq<char> {
        match self {
            HumanPurpose::Step => "step"@,
            HumanPurpose::Supervision => "supervision"@,
        }
    }

    /// The wire spelling.
    pub fn wire_name(self) -> (r: &'static str)
        ensures
            r@ == self.wire(),
    {
        match self {
            HumanPurpose::Step => "step",
            HumanPurpose::Supervision => "supervision",
        }
    }
}

impl Wire for HumanPurpose {
    open spec fn wire_json(&self) -> JsonV {
        JsonV::Text(self.wire())
    }

    fn to_json(&self) -> (r: Json) {
        Json::text(self.wire_name())
    }
}

impl Duplicate for HumanPurpose {
    fn duplicate(&self) -> (r: Self) {
        *self
    }
}

/// Which steps a supervised run gates.
#[derive(Debug, Clone, Copy, PartialEq, Eq, PartialOrd, Ord, Hash, Structural)]
pub enum SupervisePolicy {
    /// Gate every mutating step.
    Mutating,
    /// Gate every action step.
    All,
}

impl SupervisePolicy {
    /// The wire spelling.
    pub open spec fn wire(self) -> Seq<char> {
        match self {
            SupervisePolicy::Mutating => "mutating"@,
            SupervisePolicy::All => "all"@,
        }
    }

    /// The wire spelling.
    pub fn wire_name(self) -> (r: &'static str)
        ensures
            r@ == self.wire(),
    {
        match self {
            SupervisePolicy::Mutating => "mutating",
            SupervisePolicy::All => "all",
        }
    }
}

impl Wire for SupervisePolicy {
    open spec fn wire_json(&self) -> JsonV {
        JsonV::Text(self.wire())
    }

    fn to_json(&self) -> (r: Json) {
        Json::text(self.wire_name())
    }
}

impl Duplicate for SupervisePolicy {
    fn duplicate(&self) -> (r: Self) {
        *self
    }
}

/// Answers to a supervision gate.
#[derive(Debug, Clone, Copy, PartialEq, Eq, PartialOrd, Ord, Hash, Structural)]
pub enum SupervisionDecision {
    /// Write the actionIntent and dispatch.
    Proceed,
    /// Abort the run (no handler consulted: the human ruling is final).
    Abort,
    /// Suspend the run.
    Suspend,
}

impl SupervisionDecision {
    /// The wire spelling.
    pub open spec fn wire(self) -> Seq<char> {
        match self {
            SupervisionDecision::Proceed => "proceed"@,
            SupervisionDecision::Abort => "abort"@,
            SupervisionDecision::Suspend => "suspend"@,
        }
    }

    /// The wire spelling.
    pub fn wire_name(self) -> (r: &'static str)
        ensures
            r@ == self.wire(),
    {
        match self {
            SupervisionDecision::Proceed => "proceed",
            SupervisionDecision::Abort => "abort",
            SupervisionDecision::Suspend => "suspend",
        }
    }
}

impl Wire for SupervisionDecision {
    open spec fn wire_json(&self) -> JsonV {
        JsonV::Text(self.wire())
    }

    fn to_json(&self) -> (r: Json) {
        Json::text(self.wire_name())
    }
}

impl Duplicate for SupervisionDecision {
    fn duplicate(&self) -> (r: Self) {
        *self
    }
}

/// Why the daemon fell back to coordinates.
#[derive(Debug, Clone, Copy, PartialEq, Eq, PartialOrd, Ord, Hash, Structural)]
pub enum CoordinateFallbackReason {
    /// The semantic interaction channel is unavailable for the target.
    SemanticInteractionUnavailable,
    /// The platform cannot express the semantic interaction.
    PlatformLimitation,
}

impl CoordinateFallbackReason {
    /// The wire spelling.
    pub open spec fn wire(self) -> Seq<char> {
        match self {
            CoordinateFallbackReason::SemanticInteractionUnavailable => "semanticInteractionUnavailable"@,
            CoordinateFallbackReason::PlatformLimitation => "platformLimitation"@,
        }
    }

    /// The wire spelling.
    pub fn wire_name(self) -> (r: &'static str)
        ensures
            r@ == self.wire(),
    {
        match self {
            CoordinateFallbackReason::SemanticInteractionUnavailable => "semanticInteractionUnavailable",
            CoordinateFallbackReason::PlatformLimitation => "platformLimitation",
        }
    }
}

impl Wire for CoordinateFallbackReason {
    open spec fn wire_json(&self) -> JsonV {
        JsonV::Text(self.wire())
    }

    fn to_json(&self) -> (r: Json) {
        Json::text(self.wire_name())
    }
}

impl Duplicate for CoordinateFallbackReason {
    fn duplicate(&self) -> (r: Self) {
        *self
    }
}

/// The three-valued verdict.
#[derive(Debug, Clone, Copy, PartialEq, Eq, PartialOrd, Ord, Hash, Structural)]
pub enum VerdictStatus {
    /// The assertion/step is confirmed to hold.
    Pass,
    /// The assertion/step is confirmed not to hold.
    Fail,
    /// Could not be confirmed either way.
    Unknown,
}

impl VerdictStatus {
    /// The wire spelling.
    pub open spec fn wire(self) -> Seq<char> {
        match self {
            VerdictStatus::Pass => "pass"@,
            VerdictStatus::Fail => "fail"@,
            VerdictStatus::Unknown => "unknown"@,
        }
    }

    /// The wire spelling.
    pub fn wire_name(self) -> (r: &'static str)
        ensures
            r@ == self.wire(),
    {
        match self {
            VerdictStatus::Pass => "pass",
            VerdictStatus::Fail => "fail",
            VerdictStatus::Unknown => "unknown",
        }
    }
}

impl Wire for VerdictStatus {
    open spec fn wire_json(&self) -> JsonV {
        JsonV::Text(self.wire())
    }

    fn to_json(&self) -> (r: Json) {
        Json::text(self.wire_name())
    }
}

impl Duplicate for VerdictStatus {
    fn duplicate(&self) -> (r: Self) {
        *self
    }
}

/// Why an observation has no screenshot.
#[derive(Debug, Clone, Copy, PartialEq, Eq, PartialOrd, Ord, Hash, Structural)]
pub enum ScreenshotOmissionReason {
    /// Omitted by daemon policy.
    Policy,
    /// Omitted because a protected action was in flight.
    ProtectedAction,
}

impl ScreenshotOmissionReason {
    /// The wire spelling.
    pub open spec fn wire(self) -> Seq<char> {
        match self {
            ScreenshotOmissionReason::Policy => "policy"@,
            ScreenshotOmissionReason::ProtectedAction => "protectedAction"@,
        }
    }

    /// The wire spelling.
    pub fn wire_name(self) -> (r: &'static str)
        ensures
            r@ == self.wire(),
    {
        match self {
            ScreenshotOmissionReason::Policy => "policy",
            ScreenshotOmissionReason::ProtectedAction => "protectedAction",
        }
    }
}

impl Wire for ScreenshotOmissionReason {
    open spec fn wire_json(&self) -> JsonV {
        JsonV::Text(self.wire())
    }

    fn to_json(&self) -> (r: Json) {
        Json::text(self.wire_name())
    }
}

impl Duplicate for ScreenshotOmissionReason {
    fn duplicate(&self) -> (r: Self) {
        *self
    }
}

/// Why an observation has no UI snapshot.
#[derive(Debug, Clone, Copy, PartialEq, Eq, PartialOrd, Ord, Hash, Structural)]
pub enum UiSnapshotOmissionReason {
    /// The driver has no semantic UI channel.
    DriverUnsupported,
    /// Omitted by daemon policy.
    Policy,
    /// Omitted because a protected action was in flight.
    ProtectedAction,
}

impl UiSnapshotOmissionReason {
    /// The wire spelling.
    pub open spec fn wire(self) -> Seq<char> {
        match self {
            UiSnapshotOmissionReason::DriverUnsupported => "driverUnsupported"@,
            UiSnapshotOmissionReason::Policy => "policy"@,
            UiSnapshotOmissionReason::ProtectedAction => "protectedAction"@,
        }
    }

    /// The wire spelling.
    pub fn wire_name(self) -> (r: &'static str)
        ensures
            r@ == self.wire(),
    {
        match self {
            UiSnapshotOmissionReason::DriverUnsupported => "driverUnsupported",
            UiSnapshotOmissionReason::Policy => "policy",
            UiSnapshotOmissionReason::ProtectedAction => "protectedAction",
        }
    }
}

impl Wire for UiSnapshotOmissionReason {
    open spec fn wire_json(&self) -> JsonV {
        JsonV::Text(self.wire())
    }

    fn to_json(&self) -> (r: Json) {
        Json::text(self.wire_name())
    }
}

impl Duplicate for UiSnapshotOmissionReason {
    fn duplicate(&self) -> (r: Self) {
        *self
    }
}

impl Ordinal for ExecutionMode {
    open spec fn place(self) -> nat {
        match self {
            ExecutionMode::NativeSemantic => 0,
            ExecutionMode::WebSemantic => 1,
            ExecutionMode::CoordinateFallback => 2,
        }
    }

    fn ordinal(self) -> (r: u32) {
        match self {
            ExecutionMode::NativeSemantic => 0,
            ExecutionMode::WebSemantic => 1,
            ExecutionMode::CoordinateFallback => 2,
        }
    }

    proof fn place_decides(a: Self, b: Self) {
    }
}

impl Ordinal for ErrorClass {
    open spec fn place(self) -> nat {
        match self {
            ErrorClass::CapabilityDrift => 0,
            ErrorClass::BindArgumentsInvalid => 1,
            ErrorClass::ActionFailedRetryable => 2,
            ErrorClass::ActionFailedFinal => 3,
            ErrorClass::ActionTimedOut => 4,
            ErrorClass::ActionCancelled => 5,
            ErrorClass::TargetStale => 6,
            ErrorClass::TransportLost => 7,
            ErrorClass::SessionDegraded => 8,
        }
    }

    fn ordinal(self) -> (r: u32) {
        match self {
            ErrorClass::CapabilityDrift => 0,
            ErrorClass::BindArgumentsInvalid => 1,
            ErrorClass::ActionFailedRetryable => 2,
            ErrorClass::ActionFailedFinal => 3,
            ErrorClass::ActionTimedOut => 4,
            ErrorClass::ActionCancelled => 5,
            ErrorClass::TargetStale => 6,
            ErrorClass::TransportLost => 7,
            ErrorClass::SessionDegraded => 8,
        }
    }

    proof fn place_decides(a: Self, b: Self) {
    }
}

} // verus!
