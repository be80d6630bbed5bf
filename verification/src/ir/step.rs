//! Steps: the closed vocabulary of seven kinds, the envelope that they share,
//! and the bindings of actions.

use vstd::prelude::*;

use crate::ir::assertion::AssertionIR;
use crate::ir::expr::{Expr, ExprMap};
use crate::ir::flow::FlowRef;
use crate::ir::handler::{HandlerAction, HandlerBinding, RetryPolicy};
use crate::ir::primitives::{
    ActionName, FeatureId, Identifier, JsonSchemaDocument, OnTimeout, Protection, StepId,
};
use crate::ir::vocab::{
    ActChannel, CanonicalVerb, EffectClassAction, ExecutionMode, HumanMode, ObservationWhich,
};
use crate::json;
use crate::json::{Json, JsonMap, JsonV, Members};
use crate::sets::OrdinalSet;
use crate::wire;
use crate::wire::{some_json, Wire};

verus! {

/// Envelope that all steps share. The step id is identity, the two hashes are
/// content.
#[derive(Debug, PartialEq, Eq)]
pub struct StepBase {
    /// Stable step identity, unique in the flow.
    pub step_id: StepId,
    /// Hash of what this step does to the world.
    pub effect_hash: crate::ir::primitives::Hash,
    /// Hash of how this step is judged.
    pub judge_hash: crate::ir::primitives::Hash,
    /// Probes of the world before the step is entered.
    pub preflight: Option<Vec<AssertionIR>>,
    /// Retry policy of the act phase.
    pub retry: Option<RetryPolicy>,
    /// Step budget in milliseconds.
    pub timeout_ms: Option<u64>,
    /// Step-level handlers.
    pub handlers: Option<Vec<HandlerBinding>>,
    /// Whether a checkpoint is kept at this step.
    pub checkpoint: bool,
}

/// A step.
#[derive(Debug, PartialEq, Eq)]
pub enum StepIR {
    /// Acts, observes and judges.
    Action(ActionStepIR),
    /// Observes and judges without side effect.
    Assert(AssertStepIR),
    /// Calls a subflow.
    Call(CallStepIR),
    /// Asks a human.
    Human(HumanStepIR),
    /// Conditional container.
    If(IfStepIR),
    /// Iteration container.
    Foreach(ForeachStepIR),
    /// Pure bindings.
    Let(LetStepIR),
}

/// Action step.
#[derive(Debug, PartialEq, Eq)]
pub struct ActionStepIR {
    /// The shared envelope.
    pub base: StepBase,
    /// Canonical verb, for reports only.
    pub verb: Option<CanonicalVerb>,
    /// Effect class.
    pub effect: EffectClassAction,
    /// Whether the author declares the action idempotent.
    pub idempotent: bool,
    /// The bound act chain.
    pub binding: ActionBinding,
    /// Assertions after the act; none gives no verdict.
    pub assertions: Vec<AssertionIR>,
    /// Output projection; none is the identity.
    pub outputs: Option<ExprMap>,
    /// Data contract of the projected output.
    pub output_schema: Option<JsonSchemaDocument>,
}

/// Assert step.
#[derive(Debug, PartialEq, Eq)]
pub struct AssertStepIR {
    /// The shared envelope.
    pub base: StepBase,
    /// Where the observation comes from.
    pub observe: ObservationSource,
    /// The assertions.
    pub assertions: Vec<AssertionIR>,
}

/// Call step.
#[derive(Debug, PartialEq, Eq)]
pub struct CallStepIR {
    /// The shared envelope.
    pub base: StepBase,
    /// The callee, pinned by its hash.
    pub flow_ref: FlowRef,
    /// Input expressions, evaluated in the caller's scope.
    pub inputs: ExprMap,
}

/// Human step. On timeout the verdict is unknown, never pass or fail.
#[derive(Debug, PartialEq, Eq)]
pub struct HumanStepIR {
    /// The shared envelope.
    pub base: StepBase,
    /// Interaction mode.
    pub mode: HumanMode,
    /// The question.
    pub prompt: String,
    /// Values shown to the human.
    pub presents: Vec<Expr>,
    /// Options for judging and confirming.
    pub decisions: Option<Vec<String>>,
    /// Input contract for `provideInput`.
    pub output_schema: Option<JsonSchemaDocument>,
    /// Budget in milliseconds.
    pub timeout_ms: u64,
    /// What a timeout gives.
    pub on_timeout: OnTimeout,
}

/// If step.
#[derive(Debug, PartialEq, Eq)]
pub struct IfStepIR {
    /// The shared envelope.
    pub base: StepBase,
    /// The branch condition.
    pub cond: Expr,
    /// Steps that run when the condition holds.
    pub then_steps: Vec<StepIR>,
    /// Steps that run otherwise.
    pub else_steps: Option<Vec<StepIR>>,
}

/// Foreach step.
#[derive(Debug, PartialEq, Eq)]
pub struct ForeachStepIR {
    /// The shared envelope.
    pub base: StepBase,
    /// The collection expression.
    pub items: Expr,
    /// Name of the iteration variable.
    pub item_name: Identifier,
    /// Loop body.
    pub body: Vec<StepIR>,
}

/// Let step.
#[derive(Debug, PartialEq, Eq)]
pub struct LetStepIR {
    /// The shared envelope.
    pub base: StepBase,
    /// The bindings.
    pub bindings: ExprMap,
}

/// Ordered act chain. Without a declared fallback there is exactly one attempt.
#[derive(Debug, PartialEq, Eq)]
pub struct ActionBinding {
    /// The attempts, in declared order.
    pub attempts: Vec<BoundAttempt>,
}

impl Wire for ActionBinding {
    open spec fn wire_json(&self) -> JsonV {
        Members::none().with("attempts"@, self.attempts.wire_json()).object()
    }

    fn to_json(&self) -> (r: Json) {
        JsonMap::new().with("attempts", self.attempts.to_json()).object()
    }
}

/// One bound attempt of the act chain.
#[derive(Debug, PartialEq, Eq)]
pub struct BoundAttempt {
    /// Locating channel.
    pub channel: ActChannel,
    /// Native action name of the provider.
    pub action_name: ActionName,
    /// Arguments as expressions.
    pub args: ExprMap,
    /// Feature that this attempt depends on.
    pub requires_feature: Option<FeatureId>,
    /// Execution modes that are accepted.
    pub accept_execution_modes: OrdinalSet<ExecutionMode>,
    /// Protection level.
    pub protection: Protection,
}

impl Wire for BoundAttempt {
    open spec fn wire_json(&self) -> JsonV {
        Members::none()
            .with("channel"@, self.channel.wire_json())
            .with("actionName"@, self.action_name.wire_json())
            .with("args"@, self.args.wire_json())
            .with_some("requiresFeature"@, wire::wire_some(self.requires_feature))
            .with("acceptExecutionModes"@, self.accept_execution_modes.wire_json())
            .with("protection"@, self.protection.wire_json())
            .object()
    }

    fn to_json(&self) -> (r: Json) {
        JsonMap::new()
            .with("channel", self.channel.to_json())
            .with("actionName", self.action_name.to_json())
            .with("args", self.args.to_json())
            .with_some("requiresFeature", some_json(&self.requires_feature))
            .with("acceptExecutionModes", self.accept_execution_modes.to_json())
            .with("protection", self.protection.to_json())
            .object()
    }
}

/// Where an assert step's observation comes from.
#[derive(Debug, PartialEq, Eq, Clone)]
pub enum ObservationSource {
    /// A new observation.
    Fresh,
    /// The archived observation of an action step.
    FromStep(ObservationFromStep),
}

impl ObservationSource {
    /// A new observation.
    pub fn fresh() -> (r: Self)
        ensures
            r == ObservationSource::Fresh,
    {
        ObservationSource::Fresh
    }

    /// The archived observation of an action step.
    pub fn from_step(from_step: StepId, which: ObservationWhich) -> (r: Self)
        ensures
            r == ObservationSource::FromStep((ObservationFromStep { from_step, which })),
    {
        ObservationSource::FromStep(ObservationFromStep { from_step, which })
    }
}

impl Wire for ObservationSource {
    open spec fn wire_json(&self) -> JsonV {
        match self {
            ObservationSource::Fresh => JsonV::Text("fresh"@),
            ObservationSource::FromStep(o) => o.wire_json(),
        }
    }

    fn to_json(&self) -> (r: Json) {
        match self {
            ObservationSource::Fresh => Json::text("fresh"),
            ObservationSource::FromStep(o) => o.to_json(),
        }
    }
}

/// The archived observation of an action step.
#[derive(Debug, PartialEq, Eq, Clone)]
pub struct ObservationFromStep {
    /// The action step.
    pub from_step: StepId,
    /// Which of its observations.
    pub which: ObservationWhich,
}

impl Wire for ObservationFromStep {
    open spec fn wire_json(&self) -> JsonV {
        Members::none()
            .with("fromStep"@, self.from_step.wire_json())
            .with("which"@, self.which.wire_json())
            .object()
    }

    fn to_json(&self) -> (r: Json) {
        JsonMap::new()
            .with("fromStep", self.from_step.to_json())
            .with("which", self.which.to_json())
            .object()
    }
}

/// `m` with the members of the envelope.
pub open spec fn base_onto(m: Members, b: StepBase) -> Members
    decreases b,
{
    m.with(
            "stepId"@,
            b.step_id.wire_json(),
        ).with(
            "effectHash"@,
            b.effect_hash.wire_json(),
        ).with(
            "judgeHash"@,
            b.judge_hash.wire_json(),
        ).with_some(
            "preflight"@,
            wire::wire_some(b.preflight),
        ).with_some(
            "retry"@,
            wire::wire_some(b.retry),
        ).with_some(
            "timeoutMs"@,
            wire::wire_some(b.timeout_ms),
        ).with_some(
            "handlers"@,
            opt_handlers_wire(b.handlers),
        ).with(
            "checkpoint"@,
            b.checkpoint.wire_json(),
        )
}

/// The JSON form of a list of handlers.
pub open spec fn handlers_wire(hs: Seq<HandlerBinding>) -> Seq<JsonV>
    decreases hs,
{
    if hs.len() == 0 {
        Seq::empty()
    } else {
        handlers_wire(hs.drop_last()).push(handler_wire(hs.last()))
    }
}

/// The JSON form of an optional list of handlers.
pub open spec fn opt_handlers_wire(hs: Option<Vec<HandlerBinding>>) -> Option<JsonV>
    decreases hs,
{
    match hs {
        Some(v) => Some(JsonV::Array(handlers_wire(v@))),
        None => None,
    }
}

/// The JSON form of a handler.
pub open spec fn handler_wire(h: HandlerBinding) -> JsonV
    decreases h,
{
    Members::none().with("hook"@, h.hook.wire_json()).with_some(
        "errorClasses"@,
        wire::wire_some(h.error_classes),
    ).with("action"@, action_wire(h.action)).with(
        "maxTriggers"@,
        h.max_triggers.wire_json(),
    ).object()
}

/// The JSON form of a disposition.
pub open spec fn action_wire(a: HandlerAction) -> JsonV
    decreases a,
{
    match a {
        HandlerAction::Retry { policy } => Members::none()
            .with("kind"@, JsonV::Text("retry"@))
            .with("policy"@, policy.wire_json())
            .object(),
        HandlerAction::Continue => Members::none().with("kind"@, JsonV::Text("continue"@)).object(),
        HandlerAction::Escalate { human } => Members::none().with(
            "kind"@,
            JsonV::Text("escalate"@),
        ).with("human"@, human_members(*human).object()).object(),
        HandlerAction::Abort => Members::none().with("kind"@, JsonV::Text("abort"@)).object(),
        HandlerAction::Repair { flow_ref } => Members::none().with(
            "kind"@,
            JsonV::Text("repair"@),
        ).with("flowRef"@, flow_ref.wire_json()).object(),
    }
}

/// The JSON members of a human step. Its own budget stands over the
/// envelope's.
pub open spec fn human_members(h: HumanStepIR) -> Members
    decreases h,
{
    base_onto(Members::none().with("kind"@, JsonV::Text("human"@)), h.base).with(
            "mode"@,
            h.mode.wire_json(),
        ).with(
            "prompt"@,
            h.prompt.wire_json(),
        ).with(
            "presents"@,
            h.presents.wire_json(),
        ).with_some(
            "decisions"@,
            wire::wire_some(h.decisions),
        ).with_some(
            "outputSchema"@,
            wire::wire_some(h.output_schema),
        ).with(
            "timeoutMs"@,
            h.timeout_ms.wire_json(),
        ).with(
            "onTimeout"@,
            h.on_timeout.wire_json(),
        )
}

/// The JSON members of a step.
pub open spec fn step_members(s: StepIR) -> Members
    decreases s,
{
    match s {
        StepIR::Action(s) => base_onto(Members::none()
            .with("kind"@, JsonV::Text("action"@)), s.base).with_some(
            "verb"@,
            wire::wire_some(s.verb),
        ).with(
            "effect"@,
            s.effect.wire_json(),
        ).with(
            "idempotent"@,
            s.idempotent.wire_json(),
        ).with(
            "binding"@,
            s.binding.wire_json(),
        ).with(
            "assertions"@,
            s.assertions.wire_json(),
        ).with_some(
            "outputs"@,
            wire::wire_some(s.outputs),
        ).with_some(
            "outputSchema"@,
            wire::wire_some(s.output_schema),
        ),
        StepIR::Assert(s) => base_onto(Members::none()
            .with("kind"@, JsonV::Text("assert"@)), s.base).with(
            "observe"@,
            s.observe.wire_json(),
        ).with(
            "assertions"@,
            s.assertions.wire_json(),
        ),
        StepIR::Call(s) => base_onto(Members::none()
            .with("kind"@, JsonV::Text("call"@)), s.base).with(
            "flowRef"@,
            s.flow_ref.wire_json(),
        ).with(
            "inputs"@,
            s.inputs.wire_json(),
        ),
        StepIR::Human(h) => human_members(h),
        StepIR::If(s) => base_onto(Members::none().with("kind"@, JsonV::Text("if"@)), s.base).with(
            "cond"@,
            s.cond.wire_json(),
        ).with(
            "then"@,
            JsonV::Array(steps_wire(s.then_steps@)),
        ).with_some(
            "else"@,
            opt_steps_wire(s.else_steps),
        ),
        StepIR::Foreach(s) => base_onto(Members::none()
            .with("kind"@, JsonV::Text("foreach"@)), s.base).with(
            "items"@,
            s.items.wire_json(),
        ).with(
            "as"@,
            s.item_name.wire_json(),
        ).with(
            "body"@,
            JsonV::Array(steps_wire(s.body@)),
        ),
        StepIR::Let(s) => base_onto(Members::none()
            .with("kind"@, JsonV::Text("let"@)), s.base).with(
            "bindings"@,
            s.bindings.wire_json(),
        ),
    }
}

/// The JSON forms of a list of steps.
pub open spec fn steps_wire(ss: Seq<StepIR>) -> Seq<JsonV>
    decreases ss,
{
    if ss.len() == 0 {
        Seq::empty()
    } else {
        steps_wire(ss.drop_last()).push(step_members(ss.last()).object())
    }
}

/// The JSON form of an optional list of steps.
pub open spec fn opt_steps_wire(ss: Option<Vec<StepIR>>) -> Option<JsonV>
    decreases ss,
{
    match ss {
        Some(v) => Some(JsonV::Array(steps_wire(v@))),
        None => None,
    }
}

fn base_map(m: JsonMap, b: &StepBase) -> (r: JsonMap)
    ensures
        r@ == base_onto(m@, *b),
    decreases b,
{
    let handlers = match &b.handlers {
        Some(v) => Some(handlers_json(v)),
        None => None,
    };
    assert(json::opt_json(handlers) == opt_handlers_wire(b.handlers));
    m.with(
            "stepId",
            b.step_id.to_json(),
        ).with(
            "effectHash",
            b.effect_hash.to_json(),
        ).with(
            "judgeHash",
            b.judge_hash.to_json(),
        ).with_some(
            "preflight",
            some_json(&b.preflight),
        ).with_some(
            "retry",
            some_json(&b.retry),
        ).with_some(
            "timeoutMs",
            some_json(&b.timeout_ms),
        ).with_some(
            "handlers",
            handlers,
        ).with(
            "checkpoint",
            b.checkpoint.to_json(),
        )
}

/// The JSON form of a list of handlers.
pub fn handlers_json(hs: &Vec<HandlerBinding>) -> (r: Json)
    ensures
        r@ == JsonV::Array(handlers_wire(hs@)),
    decreases hs,
{
    let mut out: Vec<Json> = Vec::new();
    let mut i: usize = 0;
    assert(json::json_views(out@) =~= handlers_wire(hs@.take(0)));
    while i < hs.len()
        invariant
            i <= hs@.len(),
            json::json_views(out@) == handlers_wire(hs@.take(i as int)),
        decreases hs@.len() - i,
    {
        assert(decreases_to!(*hs => hs@));
        assert(decreases_to!(hs@ => hs@[i as int]));
        let ghost before = out@;
        let item = handler_json(&hs[i]);
        let ghost view = item@;
        out.push(item);
        assert(json::json_views(out@) =~= json::json_views(before).push(view));
        assert(hs@.take(i + 1).drop_last() =~= hs@.take(i as int));
        i = i + 1;
    }
    assert(hs@.take(i as int) =~= hs@);
    Json::array(out)
}

fn handler_json(h: &HandlerBinding) -> (r: Json)
    ensures
        r@ == handler_wire(*h),
    decreases h,
{
    JsonMap::new().with("hook", h.hook.to_json()).with_some(
        "errorClasses",
        some_json(&h.error_classes),
    ).with("action", action_json(&h.action)).with(
        "maxTriggers",
        h.max_triggers.to_json(),
    ).object()
}

fn action_json(a: &HandlerAction) -> (r: Json)
    ensures
        r@ == action_wire(*a),
    decreases a,
{
    match a {
        HandlerAction::Retry { policy } => JsonMap::new().with("kind", Json::text("retry")).with(
            "policy",
            policy.to_json(),
        ).object(),
        HandlerAction::Continue => JsonMap::new().with("kind", Json::text("continue")).object(),
        HandlerAction::Escalate { human } => JsonMap::new().with(
            "kind",
            Json::text("escalate"),
        ).with("human", human_map(human).object()).object(),
        HandlerAction::Abort => JsonMap::new().with("kind", Json::text("abort")).object(),
        HandlerAction::Repair { flow_ref } => JsonMap::new()
            .with("kind", Json::text("repair"))
            .with("flowRef", flow_ref.to_json())
            .object(),
    }
}

fn human_map(h: &HumanStepIR) -> (r: JsonMap)
    ensures
        r@ == human_members(*h),
    decreases h,
{
    base_map(JsonMap::new().with("kind", Json::text("human")), &h.base).with(
            "mode",
            h.mode.to_json(),
        ).with(
            "prompt",
            h.prompt.to_json(),
        ).with(
            "presents",
            h.presents.to_json(),
        ).with_some(
            "decisions",
            some_json(&h.decisions),
        ).with_some(
            "outputSchema",
            some_json(&h.output_schema),
        ).with(
            "timeoutMs",
            h.timeout_ms.to_json(),
        ).with(
            "onTimeout",
            h.on_timeout.to_json(),
        )
}

/// The JSON members of a step.
pub fn step_map(step: &StepIR) -> (r: JsonMap)
    ensures
        r@ == step_members(*step),
    decreases step,
{
    match step {
        StepIR::Action(s) => {
            base_map(JsonMap::new().with("kind", Json::text("action")), &s.base).with_some(
            "verb",
            some_json(&s.verb),
        ).with(
            "effect",
            s.effect.to_json(),
        ).with(
            "idempotent",
            s.idempotent.to_json(),
        ).with(
            "binding",
            s.binding.to_json(),
        ).with(
            "assertions",
            s.assertions.to_json(),
        ).with_some(
            "outputs",
            some_json(&s.outputs),
        ).with_some(
            "outputSchema",
            some_json(&s.output_schema),
        )
        },
        StepIR::Assert(s) => {
            base_map(JsonMap::new().with("kind", Json::text("assert")), &s.base).with(
            "observe",
            s.observe.to_json(),
        ).with(
            "assertions",
            s.assertions.to_json(),
        )
        },
        StepIR::Call(s) => {
            base_map(JsonMap::new().with("kind", Json::text("call")), &s.base).with(
            "flowRef",
            s.flow_ref.to_json(),
        ).with(
            "inputs",
            s.inputs.to_json(),
        )
        },
        StepIR::Human(h) => human_map(h),
        StepIR::If(s) => {
            let then_steps = steps_json(&s.then_steps);
            let else_steps = match &s.else_steps {
                Some(v) => Some(steps_json(v)),
                None => None,
            };
            base_map(JsonMap::new().with("kind", Json::text("if")), &s.base).with(
            "cond",
            s.cond.to_json(),
        ).with(
            "then",
            then_steps,
        ).with_some(
            "else",
            else_steps,
        )
        },
        StepIR::Foreach(s) => {
            let body = steps_json(&s.body);
            base_map(JsonMap::new().with("kind", Json::text("foreach")), &s.base).with(
            "items",
            s.items.to_json(),
        ).with(
            "as",
            s.item_name.to_json(),
        ).with(
            "body",
            body,
        )
        },
        StepIR::Let(s) => {
            base_map(JsonMap::new().with("kind", Json::text("let")), &s.base).with(
            "bindings",
            s.bindings.to_json(),
        )
        },
    }
}

/// The JSON form of a list of steps.
pub fn steps_json(ss: &Vec<StepIR>) -> (r: Json)
    ensures
        r@ == JsonV::Array(steps_wire(ss@)),
    decreases ss,
{
    let mut out: Vec<Json> = Vec::new();
    let mut i: usize = 0;
    assert(json::json_views(out@) =~= steps_wire(ss@.take(0)));
    while i < ss.len()
        invariant
            i <= ss@.len(),
            json::json_views(out@) == steps_wire(ss@.take(i as int)),
        decreases ss@.len() - i,
    {
        assert(decreases_to!(*ss => ss@));
        assert(decreases_to!(ss@ => ss@[i as int]));
        let ghost before = out@;
        let item = step_map(&ss[i]).object();
        let ghost view = item@;
        out.push(item);
        assert(json::json_views(out@) =~= json::json_views(before).push(view));
        assert(ss@.take(i + 1).drop_last() =~= ss@.take(i as int));
        i = i + 1;
    }
    assert(ss@.take(i as int) =~= ss@);
    Json::array(out)
}

impl Wire for HandlerBinding {
    open spec fn wire_json(&self) -> JsonV {
        handler_wire(*self)
    }

    fn to_json(&self) -> (r: Json) {
        handler_json(self)
    }
}

impl Wire for HumanStepIR {
    open spec fn wire_json(&self) -> JsonV {
        human_members(*self).object()
    }

    fn to_json(&self) -> (r: Json) {
        human_map(self).object()
    }
}

impl Wire for StepIR {
    open spec fn wire_json(&self) -> JsonV {
        step_members(*self).object()
    }

    fn to_json(&self) -> (r: Json) {
        step_map(self).object()
    }
}

impl StepIR {
    /// The shared envelope.
    pub open spec fn spec_base(self) -> StepBase {
        match self {
            StepIR::Action(s) => s.base,
            StepIR::Assert(s) => s.base,
            StepIR::Call(s) => s.base,
            StepIR::Human(s) => s.base,
            StepIR::If(s) => s.base,
            StepIR::Foreach(s) => s.base,
            StepIR::Let(s) => s.base,
        }
    }

    /// The wire value of the `kind` member.
    pub open spec fn spec_kind(self) -> Seq<char> {
        match self {
            StepIR::Action(_) => "action"@,
            StepIR::Assert(_) => "assert"@,
            StepIR::Call(_) => "call"@,
            StepIR::Human(_) => "human"@,
            StepIR::If(_) => "if"@,
            StepIR::Foreach(_) => "foreach"@,
            StepIR::Let(_) => "let"@,
        }
    }

    /// The step's identity.
    pub fn step_id(&self) -> (r: &StepId)
        ensures
            *r == self.spec_base().step_id,
    {
        &self.base().step_id
    }

    /// The shared envelope.
    pub fn base(&self) -> (r: &StepBase)
        ensures
            *r == self.spec_base(),
    {
        match self {
            StepIR::Action(s) => &s.base,
            StepIR::Assert(s) => &s.base,
            StepIR::Call(s) => &s.base,
            StepIR::Human(s) => &s.base,
            StepIR::If(s) => &s.base,
            StepIR::Foreach(s) => &s.base,
            StepIR::Let(s) => &s.base,
        }
    }

    /// The wire value of the `kind` member.
    pub fn kind(&self) -> (r: &'static str)
        ensures
            r@ == self.spec_kind(),
    {
        match self {
            StepIR::Action(_) => "action",
            StepIR::Assert(_) => "assert",
            StepIR::Call(_) => "call",
            StepIR::Human(_) => "human",
            StepIR::If(_) => "if",
            StepIR::Foreach(_) => "foreach",
            StepIR::Let(_) => "let",
        }
    }
}

} // verus!
