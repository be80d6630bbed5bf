//! The JSON forms of steps, handlers and flows tell them apart, and so do the
//! inputs of their hashes.

use vstd::prelude::*;
use vstd::string::*;
use vstd::utf8::encode_utf8;

use crate::ir::assertion::{AssertionIR, PredicateIR};
use crate::ir::canonical_laws;
use crate::ir::digest_laws;
use crate::ir::flow;
use crate::ir::flow::FlowIR;
use crate::ir::handler::{HandlerAction, HandlerBinding};
use crate::ir::hash;
use crate::ir::hash_laws;
use crate::ir::part_form_laws;
use crate::ir::step;
use crate::ir::step::{
    ActionStepIR, AssertStepIR, CallStepIR, ForeachStepIR, HumanStepIR, IfStepIR, LetStepIR,
    StepBase, StepIR,
};
use crate::json::JsonV;
use crate::keyed;
use crate::told;
use crate::told::Told;
use crate::wire;
use crate::wire::Wire;

verus! {

proof fn lemma_step_keys()
    ensures
        keyed::key_code("as"@) == 2097115115,
        keyed::key_code("body"@) == 4098121121,
        keyed::key_code("cond"@) == 4099100100,
        keyed::key_code("else"@) == 4101101101,
        keyed::key_code("kind"@) == 4107100100,
        keyed::key_code("mode"@) == 4109101101,
        keyed::key_code("then"@) == 4116110110,
        keyed::key_code("verb"@) == 4118098098,
        keyed::key_code("items"@) == 5105109115,
        keyed::key_code("retry"@) == 5114114121,
        keyed::key_code("effect"@) == 6101099116,
        keyed::key_code("inputs"@) == 6105116115,
        keyed::key_code("prompt"@) == 6112112116,
        keyed::key_code("stepId"@) == 6115073100,
        keyed::key_code("binding"@) == 7098110103,
        keyed::key_code("flowRef"@) == 7102101102,
        keyed::key_code("observe"@) == 7111118101,
        keyed::key_code("outputs"@) == 7111116115,
        keyed::key_code("bindings"@) == 8098103115,
        keyed::key_code("handlers"@) == 8104114115,
        keyed::key_code("presents"@) == 8112116115,
        keyed::key_code("decisions"@) == 9100111115,
        keyed::key_code("judgeHash"@) == 9106097104,
        keyed::key_code("onTimeout"@) == 9111111116,
        keyed::key_code("preflight"@) == 9112103116,
        keyed::key_code("timeoutMs"@) == 9116116115,
        keyed::key_code("assertions"@) == 10097111115,
        keyed::key_code("checkpoint"@) == 10099105116,
        keyed::key_code("effectHash"@) == 10101097104,
        keyed::key_code("idempotent"@) == 10105101116,
        keyed::key_code("outputSchema"@) == 12111101097,
{
    reveal_strlit("as");
    reveal_strlit("body");
    reveal_strlit("cond");
    reveal_strlit("else");
    reveal_strlit("kind");
    reveal_strlit("mode");
    reveal_strlit("then");
    reveal_strlit("verb");
    reveal_strlit("items");
    reveal_strlit("retry");
    reveal_strlit("effect");
    reveal_strlit("inputs");
    reveal_strlit("prompt");
    reveal_strlit("stepId");
    reveal_strlit("binding");
    reveal_strlit("flowRef");
    reveal_strlit("observe");
    reveal_strlit("outputs");
    reveal_strlit("bindings");
    reveal_strlit("handlers");
    reveal_strlit("presents");
    reveal_strlit("decisions");
    reveal_strlit("judgeHash");
    reveal_strlit("onTimeout");
    reveal_strlit("preflight");
    reveal_strlit("timeoutMs");
    reveal_strlit("assertions");
    reveal_strlit("checkpoint");
    reveal_strlit("effectHash");
    reveal_strlit("idempotent");
    reveal_strlit("outputSchema");
}

proof fn lemma_kind_words()
    ensures
        keyed::key_code("if"@) == 2105102102,
        keyed::key_code("let"@) == 3108116116,
        keyed::key_code("call"@) == 4099108108,
        keyed::key_code("human"@) == 5104097110,
        keyed::key_code("action"@) == 6097111110,
        keyed::key_code("assert"@) == 6097114116,
        keyed::key_code("foreach"@) == 7102099104,
{
    reveal_strlit("if");
    reveal_strlit("let");
    reveal_strlit("call");
    reveal_strlit("human");
    reveal_strlit("action");
    reveal_strlit("assert");
    reveal_strlit("foreach");
}

/// The JSON form of [`ActionStepIR`] names its kind and holds the envelope and every field
/// under its name, and nothing else.
#[verifier::spinoff_prover]
pub proof fn law_action_step_form(s: ActionStepIR)
    ensures
        ({
            let v = StepIR::Action(s);
            &&& v.wire_json() is Object
            &&& v.wire_json().member("kind"@) == Some(JsonV::Text("action"@))
            &&& v.wire_json().member("stepId"@) == Some(s.base.step_id.wire_json())
            &&& v.wire_json().member("effectHash"@) == Some(s.base.effect_hash.wire_json())
            &&& v.wire_json().member("judgeHash"@) == Some(s.base.judge_hash.wire_json())
            &&& v.wire_json().member("preflight"@) == wire::wire_some(s.base.preflight)
            &&& v.wire_json().member("retry"@) == wire::wire_some(s.base.retry)
            &&& v.wire_json().member("timeoutMs"@) == wire::wire_some(s.base.timeout_ms)
            &&& v.wire_json().member("handlers"@) == step::opt_handlers_wire(s.base.handlers)
            &&& v.wire_json().member("checkpoint"@) == Some(s.base.checkpoint.wire_json())
            &&& v.wire_json().member("verb"@) == wire::wire_some(s.verb)
            &&& v.wire_json().member("effect"@) == Some(s.effect.wire_json())
            &&& v.wire_json().member("idempotent"@) == Some(s.idempotent.wire_json())
            &&& v.wire_json().member("binding"@) == Some(s.binding.wire_json())
            &&& v.wire_json().member("assertions"@) == Some(s.assertions.wire_json())
            &&& v.wire_json().member("outputs"@) == wire::wire_some(s.outputs)
            &&& v.wire_json().member("outputSchema"@) == wire::wire_some(s.output_schema)
            &&& forall|key: Seq<char>| #[trigger]
                v.wire_json().member(key) is Some ==> key == "kind"@ || key == "stepId"@
                    || key == "effectHash"@ || key == "judgeHash"@ || key == "preflight"@
                    || key == "retry"@ || key == "timeoutMs"@ || key == "handlers"@
                    || key == "checkpoint"@ || key == "verb"@ || key == "effect"@
                    || key == "idempotent"@ || key == "binding"@ || key == "assertions"@
                    || key == "outputs"@ || key == "outputSchema"@
        }),
{
    broadcast use
        keyed::lemma_get_after_with,
        keyed::lemma_get_after_with_some,
        keyed::lemma_sorted_after_with,
        keyed::lemma_sorted_after_with_some,
    ;

    lemma_step_keys();
}

/// The JSON form of [`AssertStepIR`] names its kind and holds the envelope and every field
/// under its name, and nothing else.
#[verifier::spinoff_prover]
pub proof fn law_assert_step_form(s: AssertStepIR)
    ensures
        ({
            let v = StepIR::Assert(s);
            &&& v.wire_json() is Object
            &&& v.wire_json().member("kind"@) == Some(JsonV::Text("assert"@))
            &&& v.wire_json().member("stepId"@) == Some(s.base.step_id.wire_json())
            &&& v.wire_json().member("effectHash"@) == Some(s.base.effect_hash.wire_json())
            &&& v.wire_json().member("judgeHash"@) == Some(s.base.judge_hash.wire_json())
            &&& v.wire_json().member("preflight"@) == wire::wire_some(s.base.preflight)
            &&& v.wire_json().member("retry"@) == wire::wire_some(s.base.retry)
            &&& v.wire_json().member("timeoutMs"@) == wire::wire_some(s.base.timeout_ms)
            &&& v.wire_json().member("handlers"@) == step::opt_handlers_wire(s.base.handlers)
            &&& v.wire_json().member("checkpoint"@) == Some(s.base.checkpoint.wire_json())
            &&& v.wire_json().member("observe"@) == Some(s.observe.wire_json())
            &&& v.wire_json().member("assertions"@) == Some(s.assertions.wire_json())
            &&& forall|key: Seq<char>| #[trigger]
                v.wire_json().member(key) is Some ==> key == "kind"@ || key == "stepId"@
                    || key == "effectHash"@ || key == "judgeHash"@ || key == "preflight"@
                    || key == "retry"@ || key == "timeoutMs"@ || key == "handlers"@
                    || key == "checkpoint"@ || key == "observe"@ || key == "assertions"@
        }),
{
    broadcast use
        keyed::lemma_get_after_with,
        keyed::lemma_get_after_with_some,
        keyed::lemma_sorted_after_with,
        keyed::lemma_sorted_after_with_some,
    ;

    lemma_step_keys();
}

/// The JSON form of [`CallStepIR`] names its kind and holds the envelope and every field
/// under its name, and nothing else.
#[verifier::spinoff_prover]
pub proof fn law_call_step_form(s: CallStepIR)
    ensures
        ({
            let v = StepIR::Call(s);
            &&& v.wire_json() is Object
            &&& v.wire_json().member("kind"@) == Some(JsonV::Text("call"@))
            &&& v.wire_json().member("stepId"@) == Some(s.base.step_id.wire_json())
            &&& v.wire_json().member("effectHash"@) == Some(s.base.effect_hash.wire_json())
            &&& v.wire_json().member("judgeHash"@) == Some(s.base.judge_hash.wire_json())
            &&& v.wire_json().member("preflight"@) == wire::wire_some(s.base.preflight)
            &&& v.wire_json().member("retry"@) == wire::wire_some(s.base.retry)
            &&& v.wire_json().member("timeoutMs"@) == wire::wire_some(s.base.timeout_ms)
            &&& v.wire_json().member("handlers"@) == step::opt_handlers_wire(s.base.handlers)
            &&& v.wire_json().member("checkpoint"@) == Some(s.base.checkpoint.wire_json())
            &&& v.wire_json().member("flowRef"@) == Some(s.flow_ref.wire_json())
            &&& v.wire_json().member("inputs"@) == Some(s.inputs.wire_json())
            &&& forall|key: Seq<char>| #[trigger]
                v.wire_json().member(key) is Some ==> key == "kind"@ || key == "stepId"@
                    || key == "effectHash"@ || key == "judgeHash"@ || key == "preflight"@
                    || key == "retry"@ || key == "timeoutMs"@ || key == "handlers"@
                    || key == "checkpoint"@ || key == "flowRef"@ || key == "inputs"@
        }),
{
    broadcast use
        keyed::lemma_get_after_with,
        keyed::lemma_get_after_with_some,
        keyed::lemma_sorted_after_with,
        keyed::lemma_sorted_after_with_some,
    ;

    lemma_step_keys();
}

/// The JSON form of [`HumanStepIR`] names its kind and holds the envelope and every field
/// under its name, and nothing else. Its own budget stands
/// over the one of the envelope.
#[verifier::spinoff_prover]
pub proof fn law_human_step_form(s: HumanStepIR)
    ensures
        ({
            let v = StepIR::Human(s);
            &&& v.wire_json() is Object
            &&& v.wire_json().member("kind"@) == Some(JsonV::Text("human"@))
            &&& v.wire_json().member("stepId"@) == Some(s.base.step_id.wire_json())
            &&& v.wire_json().member("effectHash"@) == Some(s.base.effect_hash.wire_json())
            &&& v.wire_json().member("judgeHash"@) == Some(s.base.judge_hash.wire_json())
            &&& v.wire_json().member("preflight"@) == wire::wire_some(s.base.preflight)
            &&& v.wire_json().member("retry"@) == wire::wire_some(s.base.retry)
            &&& v.wire_json().member("handlers"@) == step::opt_handlers_wire(s.base.handlers)
            &&& v.wire_json().member("checkpoint"@) == Some(s.base.checkpoint.wire_json())
            &&& v.wire_json().member("mode"@) == Some(s.mode.wire_json())
            &&& v.wire_json().member("prompt"@) == Some(s.prompt.wire_json())
            &&& v.wire_json().member("presents"@) == Some(s.presents.wire_json())
            &&& v.wire_json().member("decisions"@) == wire::wire_some(s.decisions)
            &&& v.wire_json().member("outputSchema"@) == wire::wire_some(s.output_schema)
            &&& v.wire_json().member("timeoutMs"@) == Some(s.timeout_ms.wire_json())
            &&& v.wire_json().member("onTimeout"@) == Some(s.on_timeout.wire_json())
            &&& forall|key: Seq<char>| #[trigger]
                v.wire_json().member(key) is Some ==> key == "kind"@ || key == "stepId"@
                    || key == "effectHash"@ || key == "judgeHash"@ || key == "preflight"@
                    || key == "retry"@ || key == "handlers"@ || key == "checkpoint"@
                    || key == "mode"@ || key == "prompt"@ || key == "presents"@
                    || key == "decisions"@ || key == "outputSchema"@ || key == "timeoutMs"@
                    || key == "onTimeout"@
        }),
{
    broadcast use
        keyed::lemma_get_after_with,
        keyed::lemma_get_after_with_some,
        keyed::lemma_sorted_after_with,
        keyed::lemma_sorted_after_with_some,
    ;

    lemma_step_keys();
}

/// The JSON form of [`IfStepIR`] names its kind and holds the envelope and every field
/// under its name, and nothing else.
#[verifier::spinoff_prover]
pub proof fn law_if_step_form(s: IfStepIR)
    ensures
        ({
            let v = StepIR::If(s);
            &&& v.wire_json() is Object
            &&& v.wire_json().member("kind"@) == Some(JsonV::Text("if"@))
            &&& v.wire_json().member("stepId"@) == Some(s.base.step_id.wire_json())
            &&& v.wire_json().member("effectHash"@) == Some(s.base.effect_hash.wire_json())
            &&& v.wire_json().member("judgeHash"@) == Some(s.base.judge_hash.wire_json())
            &&& v.wire_json().member("preflight"@) == wire::wire_some(s.base.preflight)
            &&& v.wire_json().member("retry"@) == wire::wire_some(s.base.retry)
            &&& v.wire_json().member("timeoutMs"@) == wire::wire_some(s.base.timeout_ms)
            &&& v.wire_json().member("handlers"@) == step::opt_handlers_wire(s.base.handlers)
            &&& v.wire_json().member("checkpoint"@) == Some(s.base.checkpoint.wire_json())
            &&& v.wire_json().member("cond"@) == Some(s.cond.wire_json())
            &&& v.wire_json().member("then"@) == Some(JsonV::Array(step::steps_wire(s.then_steps@)))
            &&& v.wire_json().member("else"@) == step::opt_steps_wire(s.else_steps)
            &&& forall|key: Seq<char>| #[trigger]
                v.wire_json().member(key) is Some ==> key == "kind"@ || key == "stepId"@
                    || key == "effectHash"@ || key == "judgeHash"@ || key == "preflight"@
                    || key == "retry"@ || key == "timeoutMs"@ || key == "handlers"@
                    || key == "checkpoint"@ || key == "cond"@ || key == "then"@ || key == "else"@
        }),
{
    broadcast use
        keyed::lemma_get_after_with,
        keyed::lemma_get_after_with_some,
        keyed::lemma_sorted_after_with,
        keyed::lemma_sorted_after_with_some,
    ;

    lemma_step_keys();
}

/// The JSON form of [`ForeachStepIR`] names its kind and holds the envelope and every field
/// under its name, and nothing else.
#[verifier::spinoff_prover]
pub proof fn law_foreach_step_form(s: ForeachStepIR)
    ensures
        ({
            let v = StepIR::Foreach(s);
            &&& v.wire_json() is Object
            &&& v.wire_json().member("kind"@) == Some(JsonV::Text("foreach"@))
            &&& v.wire_json().member("stepId"@) == Some(s.base.step_id.wire_json())
            &&& v.wire_json().member("effectHash"@) == Some(s.base.effect_hash.wire_json())
            &&& v.wire_json().member("judgeHash"@) == Some(s.base.judge_hash.wire_json())
            &&& v.wire_json().member("preflight"@) == wire::wire_some(s.base.preflight)
            &&& v.wire_json().member("retry"@) == wire::wire_some(s.base.retry)
            &&& v.wire_json().member("timeoutMs"@) == wire::wire_some(s.base.timeout_ms)
            &&& v.wire_json().member("handlers"@) == step::opt_handlers_wire(s.base.handlers)
            &&& v.wire_json().member("checkpoint"@) == Some(s.base.checkpoint.wire_json())
            &&& v.wire_json().member("items"@) == Some(s.items.wire_json())
            &&& v.wire_json().member("as"@) == Some(s.item_name.wire_json())
            &&& v.wire_json().member("body"@) == Some(JsonV::Array(step::steps_wire(s.body@)))
            &&& forall|key: Seq<char>| #[trigger]
                v.wire_json().member(key) is Some ==> key == "kind"@ || key == "stepId"@
                    || key == "effectHash"@ || key == "judgeHash"@ || key == "preflight"@
                    || key == "retry"@ || key == "timeoutMs"@ || key == "handlers"@
                    || key == "checkpoint"@ || key == "items"@ || key == "as"@ || key == "body"@
        }),
{
    broadcast use
        keyed::lemma_get_after_with,
        keyed::lemma_get_after_with_some,
        keyed::lemma_sorted_after_with,
        keyed::lemma_sorted_after_with_some,
    ;

    lemma_step_keys();
}

/// The JSON form of [`LetStepIR`] names its kind and holds the envelope and every field
/// under its name, and nothing else.
#[verifier::spinoff_prover]
pub proof fn law_let_step_form(s: LetStepIR)
    ensures
        ({
            let v = StepIR::Let(s);
            &&& v.wire_json() is Object
            &&& v.wire_json().member("kind"@) == Some(JsonV::Text("let"@))
            &&& v.wire_json().member("stepId"@) == Some(s.base.step_id.wire_json())
            &&& v.wire_json().member("effectHash"@) == Some(s.base.effect_hash.wire_json())
            &&& v.wire_json().member("judgeHash"@) == Some(s.base.judge_hash.wire_json())
            &&& v.wire_json().member("preflight"@) == wire::wire_some(s.base.preflight)
            &&& v.wire_json().member("retry"@) == wire::wire_some(s.base.retry)
            &&& v.wire_json().member("timeoutMs"@) == wire::wire_some(s.base.timeout_ms)
            &&& v.wire_json().member("handlers"@) == step::opt_handlers_wire(s.base.handlers)
            &&& v.wire_json().member("checkpoint"@) == Some(s.base.checkpoint.wire_json())
            &&& v.wire_json().member("bindings"@) == Some(s.bindings.wire_json())
            &&& forall|key: Seq<char>| #[trigger]
                v.wire_json().member(key) is Some ==> key == "kind"@ || key == "stepId"@
                    || key == "effectHash"@ || key == "judgeHash"@ || key == "preflight"@
                    || key == "retry"@ || key == "timeoutMs"@ || key == "handlers"@
                    || key == "checkpoint"@ || key == "bindings"@
        }),
{
    broadcast use
        keyed::lemma_get_after_with,
        keyed::lemma_get_after_with_some,
        keyed::lemma_sorted_after_with,
        keyed::lemma_sorted_after_with_some,
    ;

    lemma_step_keys();
}

proof fn lemma_handler_keys()
    ensures
        keyed::key_code("hook"@) == 4104107107,
        keyed::key_code("kind"@) == 4107100100,
        keyed::key_code("human"@) == 5104097110,
        keyed::key_code("action"@) == 6097111110,
        keyed::key_code("policy"@) == 6112099121,
        keyed::key_code("flowRef"@) == 7102101102,
        keyed::key_code("maxTriggers"@) == 11109101115,
        keyed::key_code("errorClasses"@) == 12101115115,
{
    reveal_strlit("hook");
    reveal_strlit("kind");
    reveal_strlit("human");
    reveal_strlit("action");
    reveal_strlit("policy");
    reveal_strlit("flowRef");
    reveal_strlit("maxTriggers");
    reveal_strlit("errorClasses");
}

proof fn lemma_disposition_words()
    ensures
        keyed::key_code("abort"@) == 5097114116,
        keyed::key_code("retry"@) == 5114114121,
        keyed::key_code("repair"@) == 6114105114,
        keyed::key_code("continue"@) == 8099117101,
        keyed::key_code("escalate"@) == 8101116101,
{
    reveal_strlit("abort");
    reveal_strlit("retry");
    reveal_strlit("repair");
    reveal_strlit("continue");
    reveal_strlit("escalate");
}

/// The JSON form of [`HandlerBinding`] holds every field under its name, and nothing
/// else.
pub proof fn law_handler_form(h: HandlerBinding)
    ensures
        h.wire_json() is Object,
        h.wire_json().member("hook"@) == Some(h.hook.wire_json()),
        h.wire_json().member("errorClasses"@) == wire::wire_some(h.error_classes),
        h.wire_json().member("action"@) == Some(step::action_wire(h.action)),
        h.wire_json().member("maxTriggers"@) == Some(h.max_triggers.wire_json()),
        forall|key: Seq<char>| #[trigger]
            h.wire_json().member(key) is Some ==> key == "hook"@ || key == "errorClasses"@ || key
                == "action"@ || key == "maxTriggers"@,
{
    broadcast use
        keyed::lemma_get_after_with,
        keyed::lemma_get_after_with_some,
        keyed::lemma_sorted_after_with,
        keyed::lemma_sorted_after_with_some,
    ;

    lemma_handler_keys();
}

/// The JSON form of a disposition names its kind and holds what belongs to it.
pub proof fn law_disposition_form(a: HandlerAction)
    ensures
        ({
            let form = step::action_wire(a);
            &&& form is Object
            &&& match a {
                HandlerAction::Retry { policy } => {
                    &&& form.member("kind"@) == Some(JsonV::Text("retry"@))
                    &&& form.member("policy"@) == Some(policy.wire_json())
                },
                HandlerAction::Continue => form.member("kind"@) == Some(
                    JsonV::Text("continue"@),
                ),
                HandlerAction::Escalate { human } => {
                    &&& form.member("kind"@) == Some(JsonV::Text("escalate"@))
                    &&& form.member("human"@) == Some(StepIR::Human(*human).wire_json())
                },
                HandlerAction::Abort => form.member("kind"@) == Some(JsonV::Text("abort"@)),
                HandlerAction::Repair { flow_ref } => {
                    &&& form.member("kind"@) == Some(JsonV::Text("repair"@))
                    &&& form.member("flowRef"@) == Some(flow_ref.wire_json())
                },
            }
        }),
{
    broadcast use
        keyed::lemma_get_after_with,
        keyed::lemma_get_after_with_some,
        keyed::lemma_sorted_after_with,
        keyed::lemma_sorted_after_with_some,
    ;

    lemma_handler_keys();
}

/// Whether the maps in an envelope are in order.
pub open spec fn base_ordered(b: StepBase) -> bool
    decreases b,
{
    opt_handlers_ordered(b.handlers)
}

/// Whether the maps in handlers are in order.
pub open spec fn opt_handlers_ordered(hs: Option<Vec<HandlerBinding>>) -> bool
    decreases hs,
{
    match hs {
        Some(v) => handlers_ordered(v@),
        None => true,
    }
}

/// Whether the maps in handlers are in order.
pub open spec fn handlers_ordered(hs: Seq<HandlerBinding>) -> bool
    decreases hs,
{
    hs.len() > 0 ==> handlers_ordered(hs.drop_last()) && handler_ordered(hs.last())
}

/// Whether the maps in a handler are in order.
pub open spec fn handler_ordered(h: HandlerBinding) -> bool
    decreases h,
{
    disposition_ordered(h.action)
}

/// Whether the maps in a disposition are in order.
pub open spec fn disposition_ordered(a: HandlerAction) -> bool
    decreases a,
{
    match a {
        HandlerAction::Escalate { human } => human_ordered(*human),
        _ => true,
    }
}

/// Whether the maps in a human step are in order.
pub open spec fn human_ordered(h: HumanStepIR) -> bool
    decreases h,
{
    base_ordered(h.base)
}

/// Whether the maps in a step are in order.
pub open spec fn step_ordered(s: StepIR) -> bool
    decreases s,
{
    match s {
        StepIR::Action(s) => {
            &&& base_ordered(s.base)
            &&& s.binding.ordered()
            &&& told::some_in_order(s.outputs)
        },
        StepIR::Assert(s) => base_ordered(s.base),
        StepIR::Call(s) => {
            &&& base_ordered(s.base)
            &&& s.inputs.ordered()
        },
        StepIR::Human(s) => human_ordered(s),
        StepIR::If(s) => {
            &&& base_ordered(s.base)
            &&& steps_ordered(s.then_steps@)
            &&& opt_steps_ordered(s.else_steps)
        },
        StepIR::Foreach(s) => {
            &&& base_ordered(s.base)
            &&& steps_ordered(s.body@)
        },
        StepIR::Let(s) => {
            &&& base_ordered(s.base)
            &&& s.bindings.ordered()
        },
    }
}

/// Whether the maps in steps are in order.
pub open spec fn steps_ordered(ss: Seq<StepIR>) -> bool
    decreases ss,
{
    ss.len() > 0 ==> steps_ordered(ss.drop_last()) && step_ordered(ss.last())
}

/// Whether the maps in steps are in order.
pub open spec fn opt_steps_ordered(ss: Option<Vec<StepIR>>) -> bool
    decreases ss,
{
    match ss {
        Some(v) => steps_ordered(v@),
        None => true,
    }
}

/// Whether two envelopes say the same, their budgets aside.
pub open spec fn same_base(a: StepBase, b: StepBase) -> bool
    decreases a,
{
    &&& a.step_id@ == b.step_id@
    &&& a.effect_hash@ == b.effect_hash@
    &&& a.judge_hash@ == b.judge_hash@
    &&& told::same_some(a.preflight, b.preflight)
    &&& told::same_some(a.retry, b.retry)
    &&& same_opt_handlers(a.handlers, b.handlers)
    &&& a.checkpoint == b.checkpoint
}

/// Whether two optional lists of handlers say the same.
pub open spec fn same_opt_handlers(
    a: Option<Vec<HandlerBinding>>,
    b: Option<Vec<HandlerBinding>>,
) -> bool
    decreases a,
{
    match (a, b) {
        (Some(x), Some(y)) => same_handlers(x@, y@),
        (None, None) => true,
        _ => false,
    }
}

/// Whether two lists of handlers say the same, one by one.
pub open spec fn same_handlers(a: Seq<HandlerBinding>, b: Seq<HandlerBinding>) -> bool
    decreases a,
{
    &&& a.len() == b.len()
    &&& a.len() > 0 ==> same_handlers(a.drop_last(), b.drop_last()) && same_handler(
        a.last(),
        b.last(),
    )
}

/// Whether two handlers say the same.
pub open spec fn same_handler(a: HandlerBinding, b: HandlerBinding) -> bool
    decreases a,
{
    &&& a.hook == b.hook
    &&& told::same_some(a.error_classes, b.error_classes)
    &&& same_disposition(a.action, b.action)
    &&& a.max_triggers == b.max_triggers
}

/// Whether two dispositions say the same.
pub open spec fn same_disposition(a: HandlerAction, b: HandlerAction) -> bool
    decreases a,
{
    match (a, b) {
        (HandlerAction::Retry { policy: x }, HandlerAction::Retry { policy: y }) => x.same(&y),
        (HandlerAction::Continue, HandlerAction::Continue) => true,
        (HandlerAction::Escalate { human: x }, HandlerAction::Escalate { human: y }) => same_human(
            *x,
            *y,
        ),
        (HandlerAction::Abort, HandlerAction::Abort) => true,
        (HandlerAction::Repair { flow_ref: x }, HandlerAction::Repair { flow_ref: y }) => x.same(
            &y,
        ),
        _ => false,
    }
}

/// Whether two human steps say the same. The budget of the envelope does not
/// count: the step's own stands over it.
pub open spec fn same_human(a: HumanStepIR, b: HumanStepIR) -> bool
    decreases a,
{
    &&& same_base(a.base, b.base)
    &&& a.mode == b.mode
    &&& a.prompt@ == b.prompt@
    &&& a.presents.same(&b.presents)
    &&& told::same_some(a.decisions, b.decisions)
    &&& told::same_some(a.output_schema, b.output_schema)
    &&& a.timeout_ms == b.timeout_ms
    &&& a.on_timeout == b.on_timeout
}

/// Whether two steps say the same.
pub open spec fn same_step(a: StepIR, b: StepIR) -> bool
    decreases a,
{
    match (a, b) {
        (StepIR::Action(x), StepIR::Action(y)) => {
            &&& same_base(x.base, y.base)
            &&& x.base.timeout_ms == y.base.timeout_ms
            &&& told::same_some(x.verb, y.verb)
            &&& x.effect.same(&y.effect)
            &&& x.idempotent.same(&y.idempotent)
            &&& x.binding.same(&y.binding)
            &&& x.assertions.same(&y.assertions)
            &&& told::same_some(x.outputs, y.outputs)
            &&& told::same_some(x.output_schema, y.output_schema)
        },
        (StepIR::Assert(x), StepIR::Assert(y)) => {
            &&& same_base(x.base, y.base)
            &&& x.base.timeout_ms == y.base.timeout_ms
            &&& x.observe.same(&y.observe)
            &&& x.assertions.same(&y.assertions)
        },
        (StepIR::Call(x), StepIR::Call(y)) => {
            &&& same_base(x.base, y.base)
            &&& x.base.timeout_ms == y.base.timeout_ms
            &&& x.flow_ref.same(&y.flow_ref)
            &&& x.inputs.same(&y.inputs)
        },
        (StepIR::Human(x), StepIR::Human(y)) => same_human(x, y),
        (StepIR::If(x), StepIR::If(y)) => {
            &&& same_base(x.base, y.base)
            &&& x.base.timeout_ms == y.base.timeout_ms
            &&& x.cond.same(&y.cond)
            &&& same_steps(x.then_steps@, y.then_steps@)
            &&& same_opt_steps(x.else_steps, y.else_steps)
        },
        (StepIR::Foreach(x), StepIR::Foreach(y)) => {
            &&& same_base(x.base, y.base)
            &&& x.base.timeout_ms == y.base.timeout_ms
            &&& x.items.same(&y.items)
            &&& x.item_name.same(&y.item_name)
            &&& same_steps(x.body@, y.body@)
        },
        (StepIR::Let(x), StepIR::Let(y)) => {
            &&& same_base(x.base, y.base)
            &&& x.base.timeout_ms == y.base.timeout_ms
            &&& x.bindings.same(&y.bindings)
        },
        _ => false,
    }
}

/// Whether two lists of steps say the same, one by one.
pub open spec fn same_steps(a: Seq<StepIR>, b: Seq<StepIR>) -> bool
    decreases a,
{
    &&& a.len() == b.len()
    &&& a.len() > 0 ==> same_steps(a.drop_last(), b.drop_last()) && same_step(a.last(), b.last())
}

/// Whether two optional lists of steps say the same.
pub open spec fn same_opt_steps(a: Option<Vec<StepIR>>, b: Option<Vec<StepIR>>) -> bool
    decreases a,
{
    match (a, b) {
        (Some(x), Some(y)) => same_steps(x@, y@),
        (None, None) => true,
        _ => false,
    }
}

proof fn lemma_base_told(a: StepBase, b: StepBase)
    requires
        base_ordered(a),
        base_ordered(b),
        a.step_id.wire_json() == b.step_id.wire_json(),
        a.effect_hash.wire_json() == b.effect_hash.wire_json(),
        a.judge_hash.wire_json() == b.judge_hash.wire_json(),
        wire::wire_some(a.preflight) == wire::wire_some(b.preflight),
        wire::wire_some(a.retry) == wire::wire_some(b.retry),
        step::opt_handlers_wire(a.handlers) == step::opt_handlers_wire(b.handlers),
        a.checkpoint.wire_json() == b.checkpoint.wire_json(),
    ensures
        same_base(a, b),
    decreases a,
{
    told::law_optional_values_are_told(a.preflight, b.preflight);
    told::law_optional_values_are_told(a.retry, b.retry);
    if let (Some(x), Some(y)) = (a.handlers, b.handlers) {
        lemma_handlers_told(x@, y@);
    }
}

proof fn lemma_handlers_len(hs: Seq<HandlerBinding>)
    ensures
        step::handlers_wire(hs).len() == hs.len(),
    decreases hs.len(),
{
    if hs.len() > 0 {
        lemma_handlers_len(hs.drop_last());
    }
}

proof fn lemma_handlers_told(a: Seq<HandlerBinding>, b: Seq<HandlerBinding>)
    requires
        handlers_ordered(a),
        handlers_ordered(b),
        step::handlers_wire(a) == step::handlers_wire(b),
    ensures
        same_handlers(a, b),
    decreases a,
{
    lemma_handlers_len(a);
    lemma_handlers_len(b);
    if a.len() > 0 {
        let x = step::handlers_wire(a);
        let y = step::handlers_wire(b);
        assert(x.drop_last() =~= step::handlers_wire(a.drop_last()));
        assert(y.drop_last() =~= step::handlers_wire(b.drop_last()));
        assert(x.last() == step::handler_wire(a.last()));
        assert(y.last() == step::handler_wire(b.last()));
        lemma_handlers_told(a.drop_last(), b.drop_last());
        law_handlers_are_told_apart(a.last(), b.last());
    }
}

/// Handlers are told by their JSON forms.
pub proof fn law_handlers_are_told_apart(a: HandlerBinding, b: HandlerBinding)
    requires
        handler_ordered(a),
        handler_ordered(b),
        step::handler_wire(a) == step::handler_wire(b),
    ensures
        same_handler(a, b),
    decreases a,
{
    law_handler_form(a);
    law_handler_form(b);
    assert(a.wire_json() == b.wire_json());
    assert(a.wire_json().member("hook"@) == b.wire_json().member("hook"@));
    Told::told(&a.hook, &b.hook);
    assert(a.wire_json().member("errorClasses"@) == b.wire_json().member("errorClasses"@));
    told::law_optional_values_are_told(a.error_classes, b.error_classes);
    assert(a.wire_json().member("action"@) == b.wire_json().member("action"@));
    lemma_disposition_told(a.action, b.action);
    assert(a.wire_json().member("maxTriggers"@) == b.wire_json().member("maxTriggers"@));
    Told::told(&a.max_triggers, &b.max_triggers);
}

proof fn lemma_disposition_told(a: HandlerAction, b: HandlerAction)
    requires
        disposition_ordered(a),
        disposition_ordered(b),
        step::action_wire(a) == step::action_wire(b),
    ensures
        same_disposition(a, b),
    decreases a,
{
    law_disposition_form(a);
    law_disposition_form(b);
    lemma_disposition_words();
    let x = step::action_wire(a);
    let y = step::action_wire(b);
    assert(x.member("kind"@) == y.member("kind"@));
    match (a, b) {
        (HandlerAction::Retry { policy: p }, HandlerAction::Retry { policy: q }) => {
            assert(x.member("policy"@) == y.member("policy"@));
            Told::told(&p, &q);
        },
        (HandlerAction::Escalate { human: p }, HandlerAction::Escalate { human: q }) => {
            assert(x.member("human"@) == y.member("human"@));
            lemma_human_told(*p, *q);
        },
        (HandlerAction::Repair { flow_ref: p }, HandlerAction::Repair { flow_ref: q }) => {
            assert(x.member("flowRef"@) == y.member("flowRef"@));
            Told::told(&p, &q);
        },
        _ => {},
    }
}

proof fn lemma_action_told(a: ActionStepIR, b: ActionStepIR)
    requires
        step_ordered(StepIR::Action(a)),
        step_ordered(StepIR::Action(b)),
        StepIR::Action(a).wire_json() == StepIR::Action(b).wire_json(),
    ensures
        same_step(StepIR::Action(a), StepIR::Action(b)),
    decreases a,
{
    law_action_step_form(a);
    law_action_step_form(b);
    let v = StepIR::Action(a).wire_json();
    let w = StepIR::Action(b).wire_json();
    assert(v.member("stepId"@) == w.member("stepId"@));
    assert(v.member("effectHash"@) == w.member("effectHash"@));
    assert(v.member("judgeHash"@) == w.member("judgeHash"@));
    assert(v.member("preflight"@) == w.member("preflight"@));
    assert(v.member("retry"@) == w.member("retry"@));
    assert(v.member("timeoutMs"@) == w.member("timeoutMs"@));
    assert(v.member("handlers"@) == w.member("handlers"@));
    assert(v.member("checkpoint"@) == w.member("checkpoint"@));
    lemma_base_told(a.base, b.base);
    told::law_optional_values_are_told(a.base.timeout_ms, b.base.timeout_ms);
    assert(v.member("verb"@) == w.member("verb"@));
    told::law_optional_values_are_told(a.verb, b.verb);
    assert(v.member("effect"@) == w.member("effect"@));
    Told::told(&a.effect, &b.effect);
    assert(v.member("idempotent"@) == w.member("idempotent"@));
    Told::told(&a.idempotent, &b.idempotent);
    assert(v.member("binding"@) == w.member("binding"@));
    Told::told(&a.binding, &b.binding);
    assert(v.member("assertions"@) == w.member("assertions"@));
    Told::told(&a.assertions, &b.assertions);
    assert(v.member("outputs"@) == w.member("outputs"@));
    told::law_optional_values_are_told(a.outputs, b.outputs);
    assert(v.member("outputSchema"@) == w.member("outputSchema"@));
    told::law_optional_values_are_told(a.output_schema, b.output_schema);
}

proof fn lemma_assert_told(a: AssertStepIR, b: AssertStepIR)
    requires
        step_ordered(StepIR::Assert(a)),
        step_ordered(StepIR::Assert(b)),
        StepIR::Assert(a).wire_json() == StepIR::Assert(b).wire_json(),
    ensures
        same_step(StepIR::Assert(a), StepIR::Assert(b)),
    decreases a,
{
    law_assert_step_form(a);
    law_assert_step_form(b);
    let v = StepIR::Assert(a).wire_json();
    let w = StepIR::Assert(b).wire_json();
    assert(v.member("stepId"@) == w.member("stepId"@));
    assert(v.member("effectHash"@) == w.member("effectHash"@));
    assert(v.member("judgeHash"@) == w.member("judgeHash"@));
    assert(v.member("preflight"@) == w.member("preflight"@));
    assert(v.member("retry"@) == w.member("retry"@));
    assert(v.member("timeoutMs"@) == w.member("timeoutMs"@));
    assert(v.member("handlers"@) == w.member("handlers"@));
    assert(v.member("checkpoint"@) == w.member("checkpoint"@));
    lemma_base_told(a.base, b.base);
    told::law_optional_values_are_told(a.base.timeout_ms, b.base.timeout_ms);
    assert(v.member("observe"@) == w.member("observe"@));
    Told::told(&a.observe, &b.observe);
    assert(v.member("assertions"@) == w.member("assertions"@));
    Told::told(&a.assertions, &b.assertions);
}

proof fn lemma_call_told(a: CallStepIR, b: CallStepIR)
    requires
        step_ordered(StepIR::Call(a)),
        step_ordered(StepIR::Call(b)),
        StepIR::Call(a).wire_json() == StepIR::Call(b).wire_json(),
    ensures
        same_step(StepIR::Call(a), StepIR::Call(b)),
    decreases a,
{
    law_call_step_form(a);
    law_call_step_form(b);
    let v = StepIR::Call(a).wire_json();
    let w = StepIR::Call(b).wire_json();
    assert(v.member("stepId"@) == w.member("stepId"@));
    assert(v.member("effectHash"@) == w.member("effectHash"@));
    assert(v.member("judgeHash"@) == w.member("judgeHash"@));
    assert(v.member("preflight"@) == w.member("preflight"@));
    assert(v.member("retry"@) == w.member("retry"@));
    assert(v.member("timeoutMs"@) == w.member("timeoutMs"@));
    assert(v.member("handlers"@) == w.member("handlers"@));
    assert(v.member("checkpoint"@) == w.member("checkpoint"@));
    lemma_base_told(a.base, b.base);
    told::law_optional_values_are_told(a.base.timeout_ms, b.base.timeout_ms);
    assert(v.member("flowRef"@) == w.member("flowRef"@));
    Told::told(&a.flow_ref, &b.flow_ref);
    assert(v.member("inputs"@) == w.member("inputs"@));
    Told::told(&a.inputs, &b.inputs);
}

proof fn lemma_human_told(a: HumanStepIR, b: HumanStepIR)
    requires
        step_ordered(StepIR::Human(a)),
        step_ordered(StepIR::Human(b)),
        StepIR::Human(a).wire_json() == StepIR::Human(b).wire_json(),
    ensures
        same_human(a, b),
    decreases a,
{
    law_human_step_form(a);
    law_human_step_form(b);
    let v = StepIR::Human(a).wire_json();
    let w = StepIR::Human(b).wire_json();
    assert(v.member("stepId"@) == w.member("stepId"@));
    assert(v.member("effectHash"@) == w.member("effectHash"@));
    assert(v.member("judgeHash"@) == w.member("judgeHash"@));
    assert(v.member("preflight"@) == w.member("preflight"@));
    assert(v.member("retry"@) == w.member("retry"@));
    assert(v.member("handlers"@) == w.member("handlers"@));
    assert(v.member("checkpoint"@) == w.member("checkpoint"@));
    lemma_base_told(a.base, b.base);
    assert(v.member("mode"@) == w.member("mode"@));
    Told::told(&a.mode, &b.mode);
    assert(v.member("prompt"@) == w.member("prompt"@));
    Told::told(&a.prompt, &b.prompt);
    assert(v.member("presents"@) == w.member("presents"@));
    Told::told(&a.presents, &b.presents);
    assert(v.member("decisions"@) == w.member("decisions"@));
    told::law_optional_values_are_told(a.decisions, b.decisions);
    assert(v.member("outputSchema"@) == w.member("outputSchema"@));
    told::law_optional_values_are_told(a.output_schema, b.output_schema);
    assert(v.member("timeoutMs"@) == w.member("timeoutMs"@));
    Told::told(&a.timeout_ms, &b.timeout_ms);
    assert(v.member("onTimeout"@) == w.member("onTimeout"@));
    Told::told(&a.on_timeout, &b.on_timeout);
}

proof fn lemma_if_told(a: IfStepIR, b: IfStepIR)
    requires
        step_ordered(StepIR::If(a)),
        step_ordered(StepIR::If(b)),
        StepIR::If(a).wire_json() == StepIR::If(b).wire_json(),
    ensures
        same_step(StepIR::If(a), StepIR::If(b)),
    decreases a,
{
    law_if_step_form(a);
    law_if_step_form(b);
    let v = StepIR::If(a).wire_json();
    let w = StepIR::If(b).wire_json();
    assert(v.member("stepId"@) == w.member("stepId"@));
    assert(v.member("effectHash"@) == w.member("effectHash"@));
    assert(v.member("judgeHash"@) == w.member("judgeHash"@));
    assert(v.member("preflight"@) == w.member("preflight"@));
    assert(v.member("retry"@) == w.member("retry"@));
    assert(v.member("timeoutMs"@) == w.member("timeoutMs"@));
    assert(v.member("handlers"@) == w.member("handlers"@));
    assert(v.member("checkpoint"@) == w.member("checkpoint"@));
    lemma_base_told(a.base, b.base);
    told::law_optional_values_are_told(a.base.timeout_ms, b.base.timeout_ms);
    assert(v.member("cond"@) == w.member("cond"@));
    Told::told(&a.cond, &b.cond);
    assert(v.member("then"@) == w.member("then"@));
    lemma_steps_told(a.then_steps@, b.then_steps@);
    assert(v.member("else"@) == w.member("else"@));
    if let (Some(x), Some(y)) = (a.else_steps, b.else_steps) {
        lemma_steps_told(x@, y@);
    }
}

proof fn lemma_foreach_told(a: ForeachStepIR, b: ForeachStepIR)
    requires
        step_ordered(StepIR::Foreach(a)),
        step_ordered(StepIR::Foreach(b)),
        StepIR::Foreach(a).wire_json() == StepIR::Foreach(b).wire_json(),
    ensures
        same_step(StepIR::Foreach(a), StepIR::Foreach(b)),
    decreases a,
{
    law_foreach_step_form(a);
    law_foreach_step_form(b);
    let v = StepIR::Foreach(a).wire_json();
    let w = StepIR::Foreach(b).wire_json();
    assert(v.member("stepId"@) == w.member("stepId"@));
    assert(v.member("effectHash"@) == w.member("effectHash"@));
    assert(v.member("judgeHash"@) == w.member("judgeHash"@));
    assert(v.member("preflight"@) == w.member("preflight"@));
    assert(v.member("retry"@) == w.member("retry"@));
    assert(v.member("timeoutMs"@) == w.member("timeoutMs"@));
    assert(v.member("handlers"@) == w.member("handlers"@));
    assert(v.member("checkpoint"@) == w.member("checkpoint"@));
    lemma_base_told(a.base, b.base);
    told::law_optional_values_are_told(a.base.timeout_ms, b.base.timeout_ms);
    assert(v.member("items"@) == w.member("items"@));
    Told::told(&a.items, &b.items);
    assert(v.member("as"@) == w.member("as"@));
    Told::told(&a.item_name, &b.item_name);
    assert(v.member("body"@) == w.member("body"@));
    lemma_steps_told(a.body@, b.body@);
}

proof fn lemma_let_told(a: LetStepIR, b: LetStepIR)
    requires
        step_ordered(StepIR::Let(a)),
        step_ordered(StepIR::Let(b)),
        StepIR::Let(a).wire_json() == StepIR::Let(b).wire_json(),
    ensures
        same_step(StepIR::Let(a), StepIR::Let(b)),
    decreases a,
{
    law_let_step_form(a);
    law_let_step_form(b);
    let v = StepIR::Let(a).wire_json();
    let w = StepIR::Let(b).wire_json();
    assert(v.member("stepId"@) == w.member("stepId"@));
    assert(v.member("effectHash"@) == w.member("effectHash"@));
    assert(v.member("judgeHash"@) == w.member("judgeHash"@));
    assert(v.member("preflight"@) == w.member("preflight"@));
    assert(v.member("retry"@) == w.member("retry"@));
    assert(v.member("timeoutMs"@) == w.member("timeoutMs"@));
    assert(v.member("handlers"@) == w.member("handlers"@));
    assert(v.member("checkpoint"@) == w.member("checkpoint"@));
    lemma_base_told(a.base, b.base);
    told::law_optional_values_are_told(a.base.timeout_ms, b.base.timeout_ms);
    assert(v.member("bindings"@) == w.member("bindings"@));
    Told::told(&a.bindings, &b.bindings);
}

/// Steps are told by their JSON forms: two steps with one form are of one kind and
/// agree on everything they carry.
pub proof fn law_steps_are_told_apart(a: StepIR, b: StepIR)
    requires
        step_ordered(a),
        step_ordered(b),
        a.wire_json() == b.wire_json(),
    ensures
        same_step(a, b),
    decreases a,
{
    lemma_kind_words();
    lemma_kind_member(a);
    lemma_kind_member(b);
    match (a, b) {
        (StepIR::Action(x), StepIR::Action(y)) => lemma_action_told(x, y),
        (StepIR::Assert(x), StepIR::Assert(y)) => lemma_assert_told(x, y),
        (StepIR::Call(x), StepIR::Call(y)) => lemma_call_told(x, y),
        (StepIR::Human(x), StepIR::Human(y)) => lemma_human_told(x, y),
        (StepIR::If(x), StepIR::If(y)) => lemma_if_told(x, y),
        (StepIR::Foreach(x), StepIR::Foreach(y)) => lemma_foreach_told(x, y),
        (StepIR::Let(x), StepIR::Let(y)) => lemma_let_told(x, y),
        _ => {},
    }
}

proof fn lemma_kind_member(s: StepIR)
    ensures
        s.wire_json().member("kind"@) == Some(JsonV::Text(s.spec_kind())),
{
    match s {
        StepIR::Action(x) => law_action_step_form(x),
        StepIR::Assert(x) => law_assert_step_form(x),
        StepIR::Call(x) => law_call_step_form(x),
        StepIR::Human(x) => law_human_step_form(x),
        StepIR::If(x) => law_if_step_form(x),
        StepIR::Foreach(x) => law_foreach_step_form(x),
        StepIR::Let(x) => law_let_step_form(x),
    }
}

/// The kind of a step is told by its word.
pub proof fn law_kinds_of_steps_are_told_apart(s: StepIR)
    ensures
        s.wire_json().member("kind"@) == Some(JsonV::Text(s.spec_kind())),
        s.spec_kind() == "action"@ <==> s is Action,
        s.spec_kind() == "assert"@ <==> s is Assert,
        s.spec_kind() == "call"@ <==> s is Call,
        s.spec_kind() == "human"@ <==> s is Human,
        s.spec_kind() == "if"@ <==> s is If,
        s.spec_kind() == "foreach"@ <==> s is Foreach,
        s.spec_kind() == "let"@ <==> s is Let,
{
    lemma_kind_words();
    lemma_kind_member(s);
}

proof fn lemma_steps_len(ss: Seq<StepIR>)
    ensures
        step::steps_wire(ss).len() == ss.len(),
    decreases ss.len(),
{
    if ss.len() > 0 {
        lemma_steps_len(ss.drop_last());
    }
}

proof fn lemma_steps_told(a: Seq<StepIR>, b: Seq<StepIR>)
    requires
        steps_ordered(a),
        steps_ordered(b),
        step::steps_wire(a) == step::steps_wire(b),
    ensures
        same_steps(a, b),
    decreases a,
{
    lemma_steps_len(a);
    lemma_steps_len(b);
    if a.len() > 0 {
        let x = step::steps_wire(a);
        let y = step::steps_wire(b);
        assert(x.drop_last() =~= step::steps_wire(a.drop_last()));
        assert(y.drop_last() =~= step::steps_wire(b.drop_last()));
        assert(x.last() == a.last().wire_json());
        assert(y.last() == b.last().wire_json());
        lemma_steps_told(a.drop_last(), b.drop_last());
        law_steps_are_told_apart(a.last(), b.last());
    }
}

/// Lists of steps and of handlers hold the forms of their items, in order.
pub proof fn law_lists_hold_their_items(ss: Seq<StepIR>, hs: Seq<HandlerBinding>)
    ensures
        step::steps_wire(ss).len() == ss.len(),
        forall|i: int| 0 <= i < ss.len() ==> #[trigger] step::steps_wire(ss)[i] == ss[i].wire_json(),
        step::handlers_wire(hs).len() == hs.len(),
        forall|i: int|
            0 <= i < hs.len() ==> #[trigger] step::handlers_wire(hs)[i] == hs[i].wire_json(),
    decreases ss.len() + hs.len(),
{
    if ss.len() > 0 {
        law_lists_hold_their_items(ss.drop_last(), hs);
        let front = step::steps_wire(ss.drop_last());
        assert forall|i: int| 0 <= i < ss.len() implies #[trigger] step::steps_wire(ss)[i]
            == ss[i].wire_json() by {
            if i < ss.len() - 1 {
                assert(step::steps_wire(ss)[i] == front[i]);
                assert(ss.drop_last()[i] == ss[i]);
            }
        }
    } else if hs.len() > 0 {
        law_lists_hold_their_items(ss, hs.drop_last());
        let front = step::handlers_wire(hs.drop_last());
        assert forall|i: int| 0 <= i < hs.len() implies #[trigger] step::handlers_wire(hs)[i]
            == hs[i].wire_json() by {
            if i < hs.len() - 1 {
                assert(step::handlers_wire(hs)[i] == front[i]);
                assert(hs.drop_last()[i] == hs[i]);
            }
        }
    }
}

proof fn lemma_flow_keys()
    ensures
        keyed::key_code("body"@) == 4098121121,
        keyed::key_code("flowId"@) == 6102073100,
        keyed::key_code("irHash"@) == 6105115104,
        keyed::key_code("params"@) == 6112109115,
        keyed::key_code("outputs"@) == 7111116115,
        keyed::key_code("handlers"@) == 8104114115,
        keyed::key_code("provider"@) == 8112101114,
        keyed::key_code("subflows"@) == 8115119115,
        keyed::key_code("irVersion"@) == 9105105110,
        keyed::key_code("sourceMap"@) == 9115077112,
        keyed::key_code("verdictPolicy"@) == 13118108121,
        keyed::key_code("lockfileDigest"@) == 14108103116,
        keyed::key_code("requiredFeatures"@) == 16114117115,
{
    reveal_strlit("body");
    reveal_strlit("flowId");
    reveal_strlit("irHash");
    reveal_strlit("params");
    reveal_strlit("outputs");
    reveal_strlit("handlers");
    reveal_strlit("provider");
    reveal_strlit("subflows");
    reveal_strlit("irVersion");
    reveal_strlit("sourceMap");
    reveal_strlit("verdictPolicy");
    reveal_strlit("lockfileDigest");
    reveal_strlit("requiredFeatures");
}

/// The JSON form of [`FlowIR`] holds every field under its name, and nothing else.
#[verifier::spinoff_prover]
pub proof fn law_flow_form(v: FlowIR)
    ensures
        v.wire_json() is Object,
        v.wire_json().member("irVersion"@) == Some(v.ir_version.wire_json()),
        v.wire_json().member("flowId"@) == Some(v.flow_id.wire_json()),
        v.wire_json().member("irHash"@) == Some(v.ir_hash.wire_json()),
        v.wire_json().member("provider"@) == Some(v.provider.wire_json()),
        v.wire_json().member("requiredFeatures"@) == Some(v.required_features.wire_json()),
        v.wire_json().member("lockfileDigest"@) == Some(v.lockfile_digest.wire_json()),
        v.wire_json().member("params"@) == Some(v.params.wire_json()),
        v.wire_json().member("outputs"@) == Some(v.outputs.wire_json()),
        v.wire_json().member("body"@) == Some(JsonV::Array(step::steps_wire(v.body@))),
        v.wire_json().member("handlers"@) == step::opt_handlers_wire(v.handlers),
        v.wire_json().member("verdictPolicy"@) == Some(v.verdict_policy.wire_json()),
        v.wire_json().member("sourceMap"@) == Some(v.source_map.wire_json()),
        v.wire_json().member("subflows"@) == Some(v.subflows.wire_json()),
        forall|key: Seq<char>| #[trigger]
            v.wire_json().member(key) is Some ==> key == "irVersion"@ || key == "flowId"@
                || key == "irHash"@ || key == "provider"@ || key == "requiredFeatures"@
                || key == "lockfileDigest"@ || key == "params"@ || key == "outputs"@
                || key == "body"@ || key == "handlers"@ || key == "verdictPolicy"@
                || key == "sourceMap"@ || key == "subflows"@,
{
    broadcast use
        keyed::lemma_get_after_with,
        keyed::lemma_get_after_with_some,
        keyed::lemma_sorted_after_with,
        keyed::lemma_sorted_after_with_some,
    ;

    lemma_flow_keys();
}

/// Whether the maps in a flow are in order.
pub open spec fn flow_ordered(f: FlowIR) -> bool {
    &&& steps_ordered(f.body@)
    &&& opt_handlers_ordered(f.handlers)
    &&& f.subflows.ordered()
}

/// Whether two flows say the same.
pub open spec fn same_flow(a: FlowIR, b: FlowIR) -> bool {
    &&& a.ir_version.same(&b.ir_version)
    &&& a.flow_id.same(&b.flow_id)
    &&& a.ir_hash.same(&b.ir_hash)
    &&& a.provider.same(&b.provider)
    &&& a.required_features.same(&b.required_features)
    &&& a.lockfile_digest.same(&b.lockfile_digest)
    &&& a.params.same(&b.params)
    &&& a.outputs.same(&b.outputs)
    &&& same_steps(a.body@, b.body@)
    &&& same_opt_handlers(a.handlers, b.handlers)
    &&& a.verdict_policy.same(&b.verdict_policy)
    &&& a.source_map.same(&b.source_map)
    &&& a.subflows.same(&b.subflows)
}

/// Whether two flows say the same in everything that the flow hash covers: all of
/// it but the stored hash and the source map.
pub open spec fn same_covered(a: FlowIR, b: FlowIR) -> bool {
    &&& a.ir_version.same(&b.ir_version)
    &&& a.flow_id.same(&b.flow_id)
    &&& a.provider.same(&b.provider)
    &&& a.required_features.same(&b.required_features)
    &&& a.lockfile_digest.same(&b.lockfile_digest)
    &&& a.params.same(&b.params)
    &&& a.outputs.same(&b.outputs)
    &&& same_steps(a.body@, b.body@)
    &&& same_opt_handlers(a.handlers, b.handlers)
    &&& a.verdict_policy.same(&b.verdict_policy)
    &&& a.subflows.same(&b.subflows)
}

/// Flows are told by their JSON forms: two flows with one form agree on
/// everything they carry.
#[verifier::spinoff_prover]
pub proof fn law_flows_are_told_apart(a: FlowIR, b: FlowIR)
    requires
        flow_ordered(a),
        flow_ordered(b),
        a.wire_json() == b.wire_json(),
    ensures
        same_flow(a, b),
{
    law_flow_form(a);
    law_flow_form(b);
    assert(a.wire_json().member("irVersion"@) == b.wire_json().member("irVersion"@));
    Told::told(&a.ir_version, &b.ir_version);
    assert(a.wire_json().member("flowId"@) == b.wire_json().member("flowId"@));
    Told::told(&a.flow_id, &b.flow_id);
    assert(a.wire_json().member("irHash"@) == b.wire_json().member("irHash"@));
    Told::told(&a.ir_hash, &b.ir_hash);
    assert(a.wire_json().member("provider"@) == b.wire_json().member("provider"@));
    Told::told(&a.provider, &b.provider);
    assert(a.wire_json().member("requiredFeatures"@) == b.wire_json().member("requiredFeatures"@));
    Told::told(&a.required_features, &b.required_features);
    assert(a.wire_json().member("lockfileDigest"@) == b.wire_json().member("lockfileDigest"@));
    Told::told(&a.lockfile_digest, &b.lockfile_digest);
    assert(a.wire_json().member("params"@) == b.wire_json().member("params"@));
    Told::told(&a.params, &b.params);
    assert(a.wire_json().member("outputs"@) == b.wire_json().member("outputs"@));
    Told::told(&a.outputs, &b.outputs);
    assert(a.wire_json().member("body"@) == b.wire_json().member("body"@));
    lemma_steps_told(a.body@, b.body@);
    assert(a.wire_json().member("handlers"@) == b.wire_json().member("handlers"@));
    if let (Some(x), Some(y)) = (a.handlers, b.handlers) {
        lemma_handlers_told(x@, y@);
    }
    assert(a.wire_json().member("verdictPolicy"@) == b.wire_json().member("verdictPolicy"@));
    Told::told(&a.verdict_policy, &b.verdict_policy);
    assert(a.wire_json().member("sourceMap"@) == b.wire_json().member("sourceMap"@));
    Told::told(&a.source_map, &b.source_map);
    assert(a.wire_json().member("subflows"@) == b.wire_json().member("subflows"@));
    Told::told(&a.subflows, &b.subflows);
}

/// What the flow hash is computed from tells flows apart: where it is the same,
/// the flows agree on everything but the stored hash and the source map.
#[verifier::spinoff_prover]
pub proof fn law_flow_hashes_cover_the_flow(a: FlowIR, b: FlowIR)
    requires
        flow_ordered(a),
        flow_ordered(b),
        flow::flow_members(a).without("irHash"@).without("sourceMap"@) == flow::flow_members(
            b,
        ).without("irHash"@).without("sourceMap"@),
    ensures
        same_covered(a, b),
{
    broadcast use keyed::lemma_sorted_after_with, keyed::lemma_sorted_after_with_some;

    law_flow_form(a);
    law_flow_form(b);
    lemma_flow_keys();
    let x = flow::flow_members(a);
    let y = flow::flow_members(b);
    keyed::lemma_without_sorted(x, "irHash"@);
    keyed::lemma_without_sorted(y, "irHash"@);
    let p = x.without("irHash"@);
    let q = y.without("irHash"@);
    assert forall|key: Seq<char>| key != "irHash"@ && key != "sourceMap"@ implies #[trigger] x.get(
        key,
    ) == y.get(key) by {
        keyed::law_removed(x, "irHash"@, key);
        keyed::law_removed(y, "irHash"@, key);
        keyed::law_removed(p, "sourceMap"@, key);
        keyed::law_removed(q, "sourceMap"@, key);
    }
    assert(a.wire_json().member("irVersion"@) == b.wire_json().member("irVersion"@));
    Told::told(&a.ir_version, &b.ir_version);
    assert(a.wire_json().member("flowId"@) == b.wire_json().member("flowId"@));
    Told::told(&a.flow_id, &b.flow_id);
    assert(a.wire_json().member("provider"@) == b.wire_json().member("provider"@));
    Told::told(&a.provider, &b.provider);
    assert(a.wire_json().member("requiredFeatures"@) == b.wire_json().member("requiredFeatures"@));
    Told::told(&a.required_features, &b.required_features);
    assert(a.wire_json().member("lockfileDigest"@) == b.wire_json().member("lockfileDigest"@));
    Told::told(&a.lockfile_digest, &b.lockfile_digest);
    assert(a.wire_json().member("params"@) == b.wire_json().member("params"@));
    Told::told(&a.params, &b.params);
    assert(a.wire_json().member("outputs"@) == b.wire_json().member("outputs"@));
    Told::told(&a.outputs, &b.outputs);
    assert(a.wire_json().member("body"@) == b.wire_json().member("body"@));
    lemma_steps_told(a.body@, b.body@);
    assert(a.wire_json().member("handlers"@) == b.wire_json().member("handlers"@));
    if let (Some(x), Some(y)) = (a.handlers, b.handlers) {
        lemma_handlers_told(x@, y@);
    }
    assert(a.wire_json().member("verdictPolicy"@) == b.wire_json().member("verdictPolicy"@));
    Told::told(&a.verdict_policy, &b.verdict_policy);
    assert(a.wire_json().member("subflows"@) == b.wire_json().member("subflows"@));
    Told::told(&a.subflows, &b.subflows);
}

/// Whether two steps agree on what is judged: the probes, the source of the
/// observation and the assertions.
pub open spec fn same_judged(a: StepIR, b: StepIR) -> bool {
    &&& told::same_some(a.spec_base().preflight, b.spec_base().preflight)
    &&& match (a, b) {
        (StepIR::Action(x), StepIR::Action(y)) => x.assertions.same(&y.assertions),
        (StepIR::Assert(x), StepIR::Assert(y)) => x.observe.same(&y.observe) && x.assertions.same(
            &y.assertions,
        ),
        _ => true,
    }
}

/// Whether two steps agree on what is done to the world.
pub open spec fn same_effect(a: StepIR, b: StepIR) -> bool {
    match (a, b) {
        (StepIR::Action(x), StepIR::Action(y)) => {
            &&& x.effect == y.effect
            &&& x.idempotent == y.idempotent
            &&& x.binding.same(&y.binding)
            &&& told::same_some(x.outputs, y.outputs)
            &&& told::same_some(x.output_schema, y.output_schema)
        },
        (StepIR::Call(x), StepIR::Call(y)) => {
            &&& x.flow_ref.same(&y.flow_ref)
            &&& x.inputs.same(&y.inputs)
        },
        (StepIR::Human(x), StepIR::Human(y)) => {
            &&& x.mode == y.mode
            &&& x.prompt@ == y.prompt@
            &&& x.presents.same(&y.presents)
            &&& told::same_some(x.decisions, y.decisions)
            &&& told::same_some(x.output_schema, y.output_schema)
        },
        (StepIR::If(x), StepIR::If(y)) => part_form_laws::same_expr(x.cond, y.cond),
        (StepIR::Foreach(x), StepIR::Foreach(y)) => part_form_laws::same_expr(x.items, y.items)
            && x.item_name@ == y.item_name@,
        (StepIR::Let(x), StepIR::Let(y)) => x.bindings.same(&y.bindings),
        _ => true,
    }
}

/// Steps of one kind whose probes, observation source or assertions differ, in
/// anything that these carry, have different judge hash inputs.
#[verifier::spinoff_prover]
pub proof fn law_judge_hashes_cover_the_assertions(a: StepIR, b: StepIR)
    requires
        a.spec_kind() == b.spec_kind(),
        hash::judge_domain(a) == hash::judge_domain(b),
    ensures
        same_judged(a, b),
{
    broadcast use
        keyed::lemma_get_after_with,
        keyed::lemma_get_after_with_some,
        keyed::lemma_sorted_after_with,
        keyed::lemma_sorted_after_with_some,
    ;

    lemma_step_keys();
    lemma_kind_words();
    hash_laws::law_judge_domain(a);
    hash_laws::law_judge_domain(b);
    let x = hash_laws::judge_members(a);
    let y = hash_laws::judge_members(b);
    assert(x.get("preflight"@) == y.get("preflight"@));
    told::law_optional_values_are_told(a.spec_base().preflight, b.spec_base().preflight);
    assert(x.get("assertions"@) == y.get("assertions"@));
    assert(x.get("observe"@) == y.get("observe"@));
    match (a, b) {
        (StepIR::Action(s), StepIR::Action(t)) => {
            Told::told(&s.assertions, &t.assertions);
        },
        (StepIR::Assert(s), StepIR::Assert(t)) => {
            Told::told(&s.observe, &t.observe);
            Told::told(&s.assertions, &t.assertions);
        },
        _ => {},
    }
}

/// Steps of one kind that differ in what they do to the world, in anything that
/// this carries, have different effect hash inputs.
#[verifier::spinoff_prover]
pub proof fn law_effect_hashes_cover_the_effect(a: StepIR, b: StepIR)
    requires
        step_ordered(a),
        step_ordered(b),
        a.spec_kind() == b.spec_kind(),
        hash::effect_domain(a) == hash::effect_domain(b),
    ensures
        same_effect(a, b),
{
    broadcast use
        keyed::lemma_get_after_with,
        keyed::lemma_get_after_with_some,
        keyed::lemma_sorted_after_with,
        keyed::lemma_sorted_after_with_some,
    ;

    lemma_step_keys();
    lemma_kind_words();
    hash_laws::law_effect_domain(a);
    hash_laws::law_effect_domain(b);
    let x = hash_laws::effect_members(a);
    let y = hash_laws::effect_members(b);
    match (a, b) {
        (StepIR::Action(s), StepIR::Action(t)) => {
            assert(x.get("effect"@) == y.get("effect"@));
            Told::told(&s.effect, &t.effect);
            assert(x.get("idempotent"@) == y.get("idempotent"@));
            Told::told(&s.idempotent, &t.idempotent);
            assert(x.get("binding"@) == y.get("binding"@));
            Told::told(&s.binding, &t.binding);
            assert(x.get("outputs"@) == y.get("outputs"@));
            told::law_optional_values_are_told(s.outputs, t.outputs);
            assert(x.get("outputSchema"@) == y.get("outputSchema"@));
            told::law_optional_values_are_told(s.output_schema, t.output_schema);
        },
        (StepIR::Call(s), StepIR::Call(t)) => {
            assert(x.get("flowRef"@) == y.get("flowRef"@));
            Told::told(&s.flow_ref, &t.flow_ref);
            assert(x.get("inputs"@) == y.get("inputs"@));
            Told::told(&s.inputs, &t.inputs);
        },
        (StepIR::Human(s), StepIR::Human(t)) => {
            assert(x.get("mode"@) == y.get("mode"@));
            Told::told(&s.mode, &t.mode);
            assert(x.get("prompt"@) == y.get("prompt"@));
            assert(x.get("presents"@) == y.get("presents"@));
            Told::told(&s.presents, &t.presents);
            assert(x.get("decisions"@) == y.get("decisions"@));
            told::law_optional_values_are_told(s.decisions, t.decisions);
            assert(x.get("outputSchema"@) == y.get("outputSchema"@));
            told::law_optional_values_are_told(s.output_schema, t.output_schema);
        },
        (StepIR::If(s), StepIR::If(t)) => {
            assert(x.get("cond"@) == y.get("cond"@));
            Told::told(&s.cond, &t.cond);
        },
        (StepIR::Foreach(s), StepIR::Foreach(t)) => {
            assert(x.get("items"@) == y.get("items"@));
            Told::told(&s.items, &t.items);
            assert(x.get("as"@) == y.get("as"@));
        },
        (StepIR::Let(s), StepIR::Let(t)) => {
            assert(x.get("bindings"@) == y.get("bindings"@));
            Told::told(&s.bindings, &t.bindings);
        },
        _ => {},
    }
}

/// Steps of one kind that differ in what is judged have different judge hashes,
/// and steps that differ in what is done have different effect hashes, up to a
/// collision of SHA-256.
pub proof fn law_other_steps_have_other_hashes(a: StepIR, b: StepIR)
    requires
        step_ordered(a),
        step_ordered(b),
        a.spec_kind() == b.spec_kind(),
        canonical_laws::normal(hash::judge_domain(a)),
        canonical_laws::normal(hash::judge_domain(b)),
        canonical_laws::normal(hash::effect_domain(a)),
        canonical_laws::normal(hash::effect_domain(b)),
        digest_laws::no_collision(
            digest_laws::hashed_bytes(hash::judge_tag(a.spec_kind()), hash::judge_domain(a)),
            digest_laws::hashed_bytes(hash::judge_tag(b.spec_kind()), hash::judge_domain(b)),
        ),
        digest_laws::no_collision(
            digest_laws::hashed_bytes(hash::effect_tag(a.spec_kind()), hash::effect_domain(a)),
            digest_laws::hashed_bytes(hash::effect_tag(b.spec_kind()), hash::effect_domain(b)),
        ),
    ensures
        !same_judged(a, b) ==> hash::judge_hash_of(a) != hash::judge_hash_of(b),
        !same_effect(a, b) ==> hash::effect_hash_of(a) != hash::effect_hash_of(b),
{
    if !same_judged(a, b) {
        if hash::judge_domain(a) == hash::judge_domain(b) {
            law_judge_hashes_cover_the_assertions(a, b);
        }
        digest_laws::law_other_contents_have_other_hashes(
            hash::judge_tag(a.spec_kind()),
            hash::judge_domain(a),
            hash::judge_domain(b),
        );
    }
    if !same_effect(a, b) {
        if hash::effect_domain(a) == hash::effect_domain(b) {
            law_effect_hashes_cover_the_effect(a, b);
        }
        digest_laws::law_other_contents_have_other_hashes(
            hash::effect_tag(a.spec_kind()),
            hash::effect_domain(a),
            hash::effect_domain(b),
        );
    }
}

/// Whether two predicates are of one type and agree on their selectors, states, match texts,
/// match modes, case sensitivity, expressions, prompts and regions.
pub open spec fn same_predicate(a: PredicateIR, b: PredicateIR) -> bool {
    match (a, b) {
        (
            PredicateIR::ElementState { selector: s, state: x },
            PredicateIR::ElementState { selector: t, state: y },
        ) => part_form_laws::same_selector(s, t) && x == y,
        (
            PredicateIR::ElementText { selector: s, matcher: x },
            PredicateIR::ElementText { selector: t, matcher: y },
        ) => part_form_laws::same_selector(s, t) && x.value@ == y.value@ && x.mode == y.mode
            && x.case_sensitive == y.case_sensitive,
        (PredicateIR::Expr { expr: x }, PredicateIR::Expr { expr: y }) => part_form_laws::same_expr(
            x,
            y,
        ),
        (
            PredicateIR::Visual { prompt: p, region: x },
            PredicateIR::Visual { prompt: q, region: y },
        ) => p@ == q@ && (x is Some <==> y is Some) && (x is Some ==> x->0.x@ == y->0.x@ && x->0.y@
            == y->0.y@ && x->0.width@ == y->0.width@ && x->0.height@ == y->0.height@),
        _ => false,
    }
}

/// Whether two lists of assertions have the same predicates, one by one.
pub open spec fn same_predicates(a: Seq<AssertionIR>, b: Seq<AssertionIR>) -> bool {
    a.len() == b.len() && forall|i: int|
        0 <= i < a.len() ==> same_predicate((#[trigger] a[i]).predicate, b[i].predicate)
}

proof fn lemma_predicates_told(a: Vec<AssertionIR>, b: Vec<AssertionIR>)
    requires
        a.wire_json() == b.wire_json(),
    ensures
        same_predicates(a@, b@),
{
    let x = wire::wire_items(a@);
    let y = wire::wire_items(b@);
    assert(x.len() == a@.len() && y.len() == b@.len());
    assert(x == y);
    assert forall|i: int| 0 <= i < a@.len() implies same_predicate(
        (#[trigger] a@[i]).predicate,
        b@[i].predicate,
    ) by {
        assert(x[i] == a@[i].wire_json());
        assert(y[i] == b@[i].wire_json());
        part_form_laws::law_assertion_form(a@[i]);
        part_form_laws::law_assertion_form(b@[i]);
        assert(x[i].member("predicate"@) == y[i].member("predicate"@));
        part_form_laws::law_predicates_are_told_apart(a@[i].predicate, b@[i].predicate);
    }
}

/// Steps of one kind whose assertions differ in a predicate have different judge hash inputs,
/// bytes and texts alike: in its type, its selector, its state, a match text, a match mode, case
/// sensitivity, an expression, a prompt or a region.
#[verifier::spinoff_prover]
pub proof fn law_other_assertions_have_other_hash_inputs(
    a: ActionStepIR,
    b: ActionStepIR,
    c: AssertStepIR,
    d: AssertStepIR,
)
    requires
        canonical_laws::normal(hash::judge_domain(StepIR::Action(a))),
        canonical_laws::normal(hash::judge_domain(StepIR::Action(b))),
        canonical_laws::normal(hash::judge_domain(StepIR::Assert(c))),
        canonical_laws::normal(hash::judge_domain(StepIR::Assert(d))),
    ensures
        !same_predicates(a.assertions@, b.assertions@) ==> {
            let x = hash::preimage(hash::judge_tag("action"@), hash::judge_domain(StepIR::Action(a)));
            let y = hash::preimage(hash::judge_tag("action"@), hash::judge_domain(StepIR::Action(b)));
            x != y && encode_utf8(x) != encode_utf8(y)
        },
        !same_predicates(c.assertions@, d.assertions@) ==> {
            let x = hash::preimage(hash::judge_tag("assert"@), hash::judge_domain(StepIR::Assert(c)));
            let y = hash::preimage(hash::judge_tag("assert"@), hash::judge_domain(StepIR::Assert(d)));
            x != y && encode_utf8(x) != encode_utf8(y)
        },
{
    broadcast use
        keyed::lemma_get_after_with,
        keyed::lemma_get_after_with_some,
        keyed::lemma_sorted_after_with,
        keyed::lemma_sorted_after_with_some,
    ;

    lemma_step_keys();
    if !same_predicates(a.assertions@, b.assertions@) {
        let s = StepIR::Action(a);
        let t = StepIR::Action(b);
        hash_laws::law_judge_domain(s);
        hash_laws::law_judge_domain(t);
        if hash::judge_domain(s) == hash::judge_domain(t) {
            let x = hash_laws::judge_members(s);
            let y = hash_laws::judge_members(t);
            assert(x.get("assertions"@) == y.get("assertions"@));
            lemma_predicates_told(a.assertions, b.assertions);
        }
        canonical_laws::law_hashed_bytes_tell_contents_apart(
            hash::judge_tag("action"@),
            hash::judge_domain(s),
            hash::judge_domain(t),
        );
    }
    if !same_predicates(c.assertions@, d.assertions@) {
        let s = StepIR::Assert(c);
        let t = StepIR::Assert(d);
        hash_laws::law_judge_domain(s);
        hash_laws::law_judge_domain(t);
        if hash::judge_domain(s) == hash::judge_domain(t) {
            let x = hash_laws::judge_members(s);
            let y = hash_laws::judge_members(t);
            assert(x.get("assertions"@) == y.get("assertions"@));
            lemma_predicates_told(c.assertions, d.assertions);
        }
        canonical_laws::law_hashed_bytes_tell_contents_apart(
            hash::judge_tag("assert"@),
            hash::judge_domain(s),
            hash::judge_domain(t),
        );
    }
}

} // verus!
