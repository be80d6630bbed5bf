//! What the content hashes cover, and what leaves them unchanged.

use vstd::prelude::*;
use vstd::string::*;
use vstd::utf8::*;

use crate::ir::assertion::AssertionIR;
use crate::ir::canonical_laws;
use crate::ir::flow;
use crate::ir::flow::FlowIR;
use crate::ir::hash;
use crate::ir::source_map::SourceMapEntry;
use crate::ir::step;
use crate::ir::step::{
    ActionStepIR, AssertStepIR, CallStepIR, ForeachStepIR, HumanStepIR, IfStepIR, LetStepIR,
    StepBase, StepIR,
};
use crate::ir::vocab::CanonicalVerb;
use crate::json::{JsonV, Members};
use crate::keyed;
use crate::wire;
use crate::wire::Wire;

verus! {

/// The member names of steps differ from one another.
proof fn lemma_step_keys()
    ensures
        keyed::key_code("kind"@) == 4107100100,
        keyed::key_code("stepId"@) == 6115073100,
        keyed::key_code("effectHash"@) == 10101097104,
        keyed::key_code("judgeHash"@) == 9106097104,
        keyed::key_code("preflight"@) == 9112103116,
        keyed::key_code("retry"@) == 5114114121,
        keyed::key_code("timeoutMs"@) == 9116116115,
        keyed::key_code("handlers"@) == 8104114115,
        keyed::key_code("checkpoint"@) == 10099105116,
        keyed::key_code("verb"@) == 4118098098,
        keyed::key_code("effect"@) == 6101099116,
        keyed::key_code("idempotent"@) == 10105101116,
        keyed::key_code("binding"@) == 7098110103,
        keyed::key_code("assertions"@) == 10097111115,
        keyed::key_code("outputs"@) == 7111116115,
        keyed::key_code("outputSchema"@) == 12111101097,
        keyed::key_code("observe"@) == 7111118101,
        keyed::key_code("flowRef"@) == 7102101102,
        keyed::key_code("inputs"@) == 6105116115,
        keyed::key_code("mode"@) == 4109101101,
        keyed::key_code("prompt"@) == 6112112116,
        keyed::key_code("presents"@) == 8112116115,
        keyed::key_code("decisions"@) == 9100111115,
        keyed::key_code("onTimeout"@) == 9111111116,
        keyed::key_code("cond"@) == 4099100100,
        keyed::key_code("then"@) == 4116110110,
        keyed::key_code("else"@) == 4101101101,
        keyed::key_code("items"@) == 5105109115,
        keyed::key_code("as"@) == 2097115115,
        keyed::key_code("body"@) == 4098121121,
        keyed::key_code("bindings"@) == 8098103115,
{
    reveal_strlit("kind");
    reveal_strlit("stepId");
    reveal_strlit("effectHash");
    reveal_strlit("judgeHash");
    reveal_strlit("preflight");
    reveal_strlit("retry");
    reveal_strlit("timeoutMs");
    reveal_strlit("handlers");
    reveal_strlit("checkpoint");
    reveal_strlit("verb");
    reveal_strlit("effect");
    reveal_strlit("idempotent");
    reveal_strlit("binding");
    reveal_strlit("assertions");
    reveal_strlit("outputs");
    reveal_strlit("outputSchema");
    reveal_strlit("observe");
    reveal_strlit("flowRef");
    reveal_strlit("inputs");
    reveal_strlit("mode");
    reveal_strlit("prompt");
    reveal_strlit("presents");
    reveal_strlit("decisions");
    reveal_strlit("onTimeout");
    reveal_strlit("cond");
    reveal_strlit("then");
    reveal_strlit("else");
    reveal_strlit("items");
    reveal_strlit("as");
    reveal_strlit("body");
    reveal_strlit("bindings");
}

/// The member names of flows differ from one another.
proof fn lemma_flow_keys()
    ensures
        keyed::key_code("irVersion"@) == 9105105110,
        keyed::key_code("flowId"@) == 6102073100,
        keyed::key_code("irHash"@) == 6105115104,
        keyed::key_code("provider"@) == 8112101114,
        keyed::key_code("requiredFeatures"@) == 16114117115,
        keyed::key_code("lockfileDigest"@) == 14108103116,
        keyed::key_code("params"@) == 6112109115,
        keyed::key_code("outputs"@) == 7111116115,
        keyed::key_code("body"@) == 4098121121,
        keyed::key_code("handlers"@) == 8104114115,
        keyed::key_code("verdictPolicy"@) == 13118108121,
        keyed::key_code("sourceMap"@) == 9115077112,
        keyed::key_code("subflows"@) == 8115119115,
{
    reveal_strlit("irVersion");
    reveal_strlit("flowId");
    reveal_strlit("irHash");
    reveal_strlit("provider");
    reveal_strlit("requiredFeatures");
    reveal_strlit("lockfileDigest");
    reveal_strlit("params");
    reveal_strlit("outputs");
    reveal_strlit("body");
    reveal_strlit("handlers");
    reveal_strlit("verdictPolicy");
    reveal_strlit("sourceMap");
    reveal_strlit("subflows");
}

/// What the effect hash of a step covers.
pub open spec fn effect_members(step: StepIR) -> Members {
    match step {
        StepIR::Action(s) => Members::none()
            .with("kind"@, JsonV::Text("action"@))
            .with("effect"@, s.effect.wire_json())
            .with("idempotent"@, s.idempotent.wire_json())
            .with("binding"@, s.binding.wire_json())
            .with_some("outputs"@, wire::wire_some(s.outputs))
            .with_some(
            "outputSchema"@,
            wire::wire_some(s.output_schema),
        ),
        StepIR::Assert(_) => Members::none().with("kind"@, JsonV::Text("assert"@)),
        StepIR::Call(s) => Members::none()
            .with("kind"@, JsonV::Text("call"@))
            .with("flowRef"@, s.flow_ref.wire_json())
            .with("inputs"@, s.inputs.wire_json()),
        StepIR::Human(s) => Members::none()
            .with("kind"@, JsonV::Text("human"@))
            .with("mode"@, s.mode.wire_json())
            .with("prompt"@, s.prompt.wire_json())
            .with("presents"@, s.presents.wire_json())
            .with_some("decisions"@, wire::wire_some(s.decisions))
            .with_some(
            "outputSchema"@,
            wire::wire_some(s.output_schema),
        ),
        StepIR::If(s) => Members::none()
            .with("kind"@, JsonV::Text("if"@))
            .with("cond"@, s.cond.wire_json()),
        StepIR::Foreach(s) => Members::none()
            .with("kind"@, JsonV::Text("foreach"@))
            .with("items"@, s.items.wire_json())
            .with("as"@, s.item_name.wire_json()),
        StepIR::Let(s) => Members::none()
            .with("kind"@, JsonV::Text("let"@))
            .with("bindings"@, s.bindings.wire_json()),
    }
}

/// What the judge hash of a step covers.
pub open spec fn judge_members(step: StepIR) -> Members {
    match step {
        StepIR::Action(s) => Members::none().with_some(
            "preflight"@,
            wire::wire_some(s.base.preflight),
        ).with("assertions"@, s.assertions.wire_json()),
        StepIR::Assert(s) => Members::none().with_some(
            "preflight"@,
            wire::wire_some(s.base.preflight),
        ).with("observe"@, s.observe.wire_json()).with("assertions"@, s.assertions.wire_json()),
        _ => Members::none().with_some("preflight"@, wire::wire_some(step.spec_base().preflight)),
    }
}

/// What judging a step again offline evaluates.
pub open spec fn judge_rest_members(step: StepIR) -> Members {
    match step {
        StepIR::Action(s) => Members::none().with("assertions"@, s.assertions.wire_json()),
        StepIR::Assert(s) => Members::none()
            .with("observe"@, s.observe.wire_json())
            .with("assertions"@, s.assertions.wire_json()),
        _ => Members::none(),
    }
}

proof fn lemma_project_push(m: Members, fields: Seq<Seq<char>>, field: Seq<char>)
    ensures
        hash::project(m, fields.push(field)) == hash::project(m, fields).with_some(
            field,
            m.get(field),
        ),
{
    assert(fields.push(field).drop_last() =~= fields);
}

proof fn lemma_filter_none(keep: spec_fn(Seq<char>) -> bool)
    ensures
        Seq::<Seq<char>>::empty().filter(keep) == Seq::<Seq<char>>::empty(),
{
    reveal(Seq::filter);
}

proof fn lemma_filter_push(fields: Seq<Seq<char>>, field: Seq<char>, keep: spec_fn(Seq<char>) -> bool)
    ensures
        fields.push(field).filter(keep) == (if keep(field) {
            fields.filter(keep).push(field)
        } else {
            fields.filter(keep)
        }),
{
    reveal(Seq::filter);
    assert(fields.push(field).drop_last() =~= fields);
}

proof fn lemma_project_none(m: Members)
    ensures
        hash::project(m, Seq::empty()) == Members::none(),
{
}

proof fn lemma_effect_action(step: StepIR)
    requires
        step is Action,
    ensures
        hash::project(step::step_members(step), hash::effect_fields(step)) == effect_members(step),
{
    broadcast use keyed::lemma_get_after_with, keyed::lemma_get_after_with_some,
        keyed::lemma_sorted_after_with, keyed::lemma_sorted_after_with_some;

    lemma_step_keys();
    let m = step::step_members(step);
    let f0 = Seq::<Seq<char>>::empty();
    lemma_project_none(m);
    lemma_project_push(m, f0, "kind"@);
    let f1 = f0.push("kind"@);
    lemma_project_push(m, f1, "effect"@);
    let f2 = f1.push("effect"@);
    lemma_project_push(m, f2, "idempotent"@);
    let f3 = f2.push("idempotent"@);
    lemma_project_push(m, f3, "binding"@);
    let f4 = f3.push("binding"@);
    lemma_project_push(m, f4, "outputs"@);
    let f5 = f4.push("outputs"@);
    lemma_project_push(m, f5, "outputSchema"@);
    let f6 = f5.push("outputSchema"@);
    assert(f6 =~= hash::effect_fields(step));
}

proof fn lemma_effect_assert(step: StepIR)
    requires
        step is Assert,
    ensures
        hash::project(step::step_members(step), hash::effect_fields(step)) == effect_members(step),
{
    broadcast use keyed::lemma_get_after_with, keyed::lemma_get_after_with_some,
        keyed::lemma_sorted_after_with, keyed::lemma_sorted_after_with_some;

    lemma_step_keys();
    let m = step::step_members(step);
    let f0 = Seq::<Seq<char>>::empty();
    lemma_project_none(m);
    lemma_project_push(m, f0, "kind"@);
    let f1 = f0.push("kind"@);
    assert(f1 =~= hash::effect_fields(step));
}

proof fn lemma_effect_call(step: StepIR)
    requires
        step is Call,
    ensures
        hash::project(step::step_members(step), hash::effect_fields(step)) == effect_members(step),
{
    broadcast use keyed::lemma_get_after_with, keyed::lemma_get_after_with_some,
        keyed::lemma_sorted_after_with, keyed::lemma_sorted_after_with_some;

    lemma_step_keys();
    let m = step::step_members(step);
    let f0 = Seq::<Seq<char>>::empty();
    lemma_project_none(m);
    lemma_project_push(m, f0, "kind"@);
    let f1 = f0.push("kind"@);
    lemma_project_push(m, f1, "flowRef"@);
    let f2 = f1.push("flowRef"@);
    lemma_project_push(m, f2, "inputs"@);
    let f3 = f2.push("inputs"@);
    assert(f3 =~= hash::effect_fields(step));
}

proof fn lemma_effect_human(step: StepIR)
    requires
        step is Human,
    ensures
        hash::project(step::step_members(step), hash::effect_fields(step)) == effect_members(step),
{
    broadcast use keyed::lemma_get_after_with, keyed::lemma_get_after_with_some,
        keyed::lemma_sorted_after_with, keyed::lemma_sorted_after_with_some;

    lemma_step_keys();
    let m = step::step_members(step);
    let f0 = Seq::<Seq<char>>::empty();
    lemma_project_none(m);
    lemma_project_push(m, f0, "kind"@);
    let f1 = f0.push("kind"@);
    lemma_project_push(m, f1, "mode"@);
    let f2 = f1.push("mode"@);
    lemma_project_push(m, f2, "prompt"@);
    let f3 = f2.push("prompt"@);
    lemma_project_push(m, f3, "presents"@);
    let f4 = f3.push("presents"@);
    lemma_project_push(m, f4, "decisions"@);
    let f5 = f4.push("decisions"@);
    lemma_project_push(m, f5, "outputSchema"@);
    let f6 = f5.push("outputSchema"@);
    assert(f6 =~= hash::effect_fields(step));
}

proof fn lemma_effect_if(step: StepIR)
    requires
        step is If,
    ensures
        hash::project(step::step_members(step), hash::effect_fields(step)) == effect_members(step),
{
    broadcast use keyed::lemma_get_after_with, keyed::lemma_get_after_with_some,
        keyed::lemma_sorted_after_with, keyed::lemma_sorted_after_with_some;

    lemma_step_keys();
    let m = step::step_members(step);
    let f0 = Seq::<Seq<char>>::empty();
    lemma_project_none(m);
    lemma_project_push(m, f0, "kind"@);
    let f1 = f0.push("kind"@);
    lemma_project_push(m, f1, "cond"@);
    let f2 = f1.push("cond"@);
    assert(f2 =~= hash::effect_fields(step));
}

proof fn lemma_effect_foreach(step: StepIR)
    requires
        step is Foreach,
    ensures
        hash::project(step::step_members(step), hash::effect_fields(step)) == effect_members(step),
{
    broadcast use keyed::lemma_get_after_with, keyed::lemma_get_after_with_some,
        keyed::lemma_sorted_after_with, keyed::lemma_sorted_after_with_some;

    lemma_step_keys();
    let m = step::step_members(step);
    let f0 = Seq::<Seq<char>>::empty();
    lemma_project_none(m);
    lemma_project_push(m, f0, "kind"@);
    let f1 = f0.push("kind"@);
    lemma_project_push(m, f1, "items"@);
    let f2 = f1.push("items"@);
    lemma_project_push(m, f2, "as"@);
    let f3 = f2.push("as"@);
    assert(f3 =~= hash::effect_fields(step));
}

proof fn lemma_effect_let(step: StepIR)
    requires
        step is Let,
    ensures
        hash::project(step::step_members(step), hash::effect_fields(step)) == effect_members(step),
{
    broadcast use keyed::lemma_get_after_with, keyed::lemma_get_after_with_some,
        keyed::lemma_sorted_after_with, keyed::lemma_sorted_after_with_some;

    lemma_step_keys();
    let m = step::step_members(step);
    let f0 = Seq::<Seq<char>>::empty();
    lemma_project_none(m);
    lemma_project_push(m, f0, "kind"@);
    let f1 = f0.push("kind"@);
    lemma_project_push(m, f1, "bindings"@);
    let f2 = f1.push("bindings"@);
    assert(f2 =~= hash::effect_fields(step));
}

/// The effect hash covers exactly the step's effect members: no identity, no
/// budget, no strategy, no label, no assertion and no subtree enters it.
pub proof fn law_effect_domain(step: StepIR)
    ensures
        hash::effect_domain(step) == effect_members(step).object(),
{
    match step {
        StepIR::Action(_) => lemma_effect_action(step),
        StepIR::Assert(_) => lemma_effect_assert(step),
        StepIR::Call(_) => lemma_effect_call(step),
        StepIR::Human(_) => lemma_effect_human(step),
        StepIR::If(_) => lemma_effect_if(step),
        StepIR::Foreach(_) => lemma_effect_foreach(step),
        StepIR::Let(_) => lemma_effect_let(step),
    }
}

proof fn lemma_judge_action(step: StepIR)
    requires
        step is Action,
    ensures
        hash::project(step::step_members(step), hash::judge_fields(step)) == judge_members(step),
        hash::project(
            step::step_members(step),
            hash::judge_fields(step).filter(|f: Seq<char>| f != "preflight"@),
        ) == judge_rest_members(step),
{
    broadcast use keyed::lemma_get_after_with, keyed::lemma_get_after_with_some,
        keyed::lemma_sorted_after_with, keyed::lemma_sorted_after_with_some;

    lemma_step_keys();
    let keep = |f: Seq<char>| f != "preflight"@;
    let m = step::step_members(step);
    let f0 = Seq::<Seq<char>>::empty();
    let r0 = Seq::<Seq<char>>::empty();
    lemma_project_none(m);
    lemma_filter_none(keep);
    lemma_project_push(m, f0, "preflight"@);
    lemma_filter_push(f0, "preflight"@, keep);
    let f1 = f0.push("preflight"@);
    lemma_project_push(m, f1, "assertions"@);
    lemma_filter_push(f1, "assertions"@, keep);
    let f2 = f1.push("assertions"@);
    lemma_project_push(m, r0, "assertions"@);
    let r1 = r0.push("assertions"@);
    assert(f2 =~= hash::judge_fields(step));
    assert(hash::judge_fields(step).filter(keep) == r1);
}

proof fn lemma_judge_assert(step: StepIR)
    requires
        step is Assert,
    ensures
        hash::project(step::step_members(step), hash::judge_fields(step)) == judge_members(step),
        hash::project(
            step::step_members(step),
            hash::judge_fields(step).filter(|f: Seq<char>| f != "preflight"@),
        ) == judge_rest_members(step),
{
    broadcast use keyed::lemma_get_after_with, keyed::lemma_get_after_with_some,
        keyed::lemma_sorted_after_with, keyed::lemma_sorted_after_with_some;

    lemma_step_keys();
    let keep = |f: Seq<char>| f != "preflight"@;
    let m = step::step_members(step);
    let f0 = Seq::<Seq<char>>::empty();
    let r0 = Seq::<Seq<char>>::empty();
    lemma_project_none(m);
    lemma_filter_none(keep);
    lemma_project_push(m, f0, "preflight"@);
    lemma_filter_push(f0, "preflight"@, keep);
    let f1 = f0.push("preflight"@);
    lemma_project_push(m, f1, "observe"@);
    lemma_filter_push(f1, "observe"@, keep);
    let f2 = f1.push("observe"@);
    lemma_project_push(m, r0, "observe"@);
    let r1 = r0.push("observe"@);
    lemma_project_push(m, f2, "assertions"@);
    lemma_filter_push(f2, "assertions"@, keep);
    let f3 = f2.push("assertions"@);
    lemma_project_push(m, r1, "assertions"@);
    let r2 = r1.push("assertions"@);
    assert(f3 =~= hash::judge_fields(step));
    assert(hash::judge_fields(step).filter(keep) == r2);
}

proof fn lemma_judge_call(step: StepIR)
    requires
        step is Call,
    ensures
        hash::project(step::step_members(step), hash::judge_fields(step)) == judge_members(step),
        hash::project(
            step::step_members(step),
            hash::judge_fields(step).filter(|f: Seq<char>| f != "preflight"@),
        ) == judge_rest_members(step),
{
    broadcast use keyed::lemma_get_after_with, keyed::lemma_get_after_with_some,
        keyed::lemma_sorted_after_with, keyed::lemma_sorted_after_with_some;

    lemma_step_keys();
    let keep = |f: Seq<char>| f != "preflight"@;
    let m = step::step_members(step);
    let f0 = Seq::<Seq<char>>::empty();
    let r0 = Seq::<Seq<char>>::empty();
    lemma_project_none(m);
    lemma_filter_none(keep);
    lemma_project_push(m, f0, "preflight"@);
    lemma_filter_push(f0, "preflight"@, keep);
    let f1 = f0.push("preflight"@);
    assert(f1 =~= hash::judge_fields(step));
    assert(hash::judge_fields(step).filter(keep) == r0);
}

proof fn lemma_judge_human(step: StepIR)
    requires
        step is Human,
    ensures
        hash::project(step::step_members(step), hash::judge_fields(step)) == judge_members(step),
        hash::project(
            step::step_members(step),
            hash::judge_fields(step).filter(|f: Seq<char>| f != "preflight"@),
        ) == judge_rest_members(step),
{
    broadcast use keyed::lemma_get_after_with, keyed::lemma_get_after_with_some,
        keyed::lemma_sorted_after_with, keyed::lemma_sorted_after_with_some;

    lemma_step_keys();
    let keep = |f: Seq<char>| f != "preflight"@;
    let m = step::step_members(step);
    let f0 = Seq::<Seq<char>>::empty();
    let r0 = Seq::<Seq<char>>::empty();
    lemma_project_none(m);
    lemma_filter_none(keep);
    lemma_project_push(m, f0, "preflight"@);
    lemma_filter_push(f0, "preflight"@, keep);
    let f1 = f0.push("preflight"@);
    assert(f1 =~= hash::judge_fields(step));
    assert(hash::judge_fields(step).filter(keep) == r0);
}

proof fn lemma_judge_if(step: StepIR)
    requires
        step is If,
    ensures
        hash::project(step::step_members(step), hash::judge_fields(step)) == judge_members(step),
        hash::project(
            step::step_members(step),
            hash::judge_fields(step).filter(|f: Seq<char>| f != "preflight"@),
        ) == judge_rest_members(step),
{
    broadcast use keyed::lemma_get_after_with, keyed::lemma_get_after_with_some,
        keyed::lemma_sorted_after_with, keyed::lemma_sorted_after_with_some;

    lemma_step_keys();
    let keep = |f: Seq<char>| f != "preflight"@;
    let m = step::step_members(step);
    let f0 = Seq::<Seq<char>>::empty();
    let r0 = Seq::<Seq<char>>::empty();
    lemma_project_none(m);
    lemma_filter_none(keep);
    lemma_project_push(m, f0, "preflight"@);
    lemma_filter_push(f0, "preflight"@, keep);
    let f1 = f0.push("preflight"@);
    assert(f1 =~= hash::judge_fields(step));
    assert(hash::judge_fields(step).filter(keep) == r0);
}

proof fn lemma_judge_foreach(step: StepIR)
    requires
        step is Foreach,
    ensures
        hash::project(step::step_members(step), hash::judge_fields(step)) == judge_members(step),
        hash::project(
            step::step_members(step),
            hash::judge_fields(step).filter(|f: Seq<char>| f != "preflight"@),
        ) == judge_rest_members(step),
{
    broadcast use keyed::lemma_get_after_with, keyed::lemma_get_after_with_some,
        keyed::lemma_sorted_after_with, keyed::lemma_sorted_after_with_some;

    lemma_step_keys();
    let keep = |f: Seq<char>| f != "preflight"@;
    let m = step::step_members(step);
    let f0 = Seq::<Seq<char>>::empty();
    let r0 = Seq::<Seq<char>>::empty();
    lemma_project_none(m);
    lemma_filter_none(keep);
    lemma_project_push(m, f0, "preflight"@);
    lemma_filter_push(f0, "preflight"@, keep);
    let f1 = f0.push("preflight"@);
    assert(f1 =~= hash::judge_fields(step));
    assert(hash::judge_fields(step).filter(keep) == r0);
}

proof fn lemma_judge_let(step: StepIR)
    requires
        step is Let,
    ensures
        hash::project(step::step_members(step), hash::judge_fields(step)) == judge_members(step),
        hash::project(
            step::step_members(step),
            hash::judge_fields(step).filter(|f: Seq<char>| f != "preflight"@),
        ) == judge_rest_members(step),
{
    broadcast use keyed::lemma_get_after_with, keyed::lemma_get_after_with_some,
        keyed::lemma_sorted_after_with, keyed::lemma_sorted_after_with_some;

    lemma_step_keys();
    let keep = |f: Seq<char>| f != "preflight"@;
    let m = step::step_members(step);
    let f0 = Seq::<Seq<char>>::empty();
    let r0 = Seq::<Seq<char>>::empty();
    lemma_project_none(m);
    lemma_filter_none(keep);
    lemma_project_push(m, f0, "preflight"@);
    lemma_filter_push(f0, "preflight"@, keep);
    let f1 = f0.push("preflight"@);
    assert(f1 =~= hash::judge_fields(step));
    assert(hash::judge_fields(step).filter(keep) == r0);
}

/// The judge hash covers exactly the probes, the observation source and the
/// assertions; without the probes the rest is left.
pub proof fn law_judge_domain(step: StepIR)
    ensures
        hash::judge_domain(step) == judge_members(step).object(),
        hash::judge_rest(step) == judge_rest_members(step).object(),
{
    match step {
        StepIR::Action(_) => lemma_judge_action(step),
        StepIR::Assert(_) => lemma_judge_assert(step),
        StepIR::Call(_) => lemma_judge_call(step),
        StepIR::Human(_) => lemma_judge_human(step),
        StepIR::If(_) => lemma_judge_if(step),
        StepIR::Foreach(_) => lemma_judge_foreach(step),
        StepIR::Let(_) => lemma_judge_let(step),
    }
}

/// `step` with another envelope.
pub open spec fn with_base(step: StepIR, base: StepBase) -> StepIR {
    match step {
        StepIR::Action(s) => StepIR::Action(ActionStepIR { base, ..s }),
        StepIR::Assert(s) => StepIR::Assert(AssertStepIR { base, ..s }),
        StepIR::Call(s) => StepIR::Call(CallStepIR { base, ..s }),
        StepIR::Human(s) => StepIR::Human(HumanStepIR { base, ..s }),
        StepIR::If(s) => StepIR::If(IfStepIR { base, ..s }),
        StepIR::Foreach(s) => StepIR::Foreach(ForeachStepIR { base, ..s }),
        StepIR::Let(s) => StepIR::Let(LetStepIR { base, ..s }),
    }
}

/// The step id, the stored hashes, the retry policy, the budget, the handlers
/// and the checkpoint flag of the envelope move neither hash.
pub proof fn law_identity_and_budgets_move_neither_hash(step: StepIR, base: StepBase)
    requires
        base.preflight == step.spec_base().preflight,
    ensures
        hash::effect_hash_of(with_base(step, base)) == hash::effect_hash_of(step),
        hash::judge_hash_of(with_base(step, base)) == hash::judge_hash_of(step),
        hash::judge_rest(with_base(step, base)) == hash::judge_rest(step),
{
    law_effect_domain(step);
    law_effect_domain(with_base(step, base));
    law_judge_domain(step);
    law_judge_domain(with_base(step, base));
}

/// Probes enter the judge hash only: no envelope moves the effect hash, nor
/// what judging again offline evaluates.
pub proof fn law_preflight_is_judged_only(step: StepIR, base: StepBase)
    ensures
        hash::effect_hash_of(with_base(step, base)) == hash::effect_hash_of(step),
        hash::judge_rest(with_base(step, base)) == hash::judge_rest(step),
{
    law_effect_domain(step);
    law_effect_domain(with_base(step, base));
    law_judge_domain(step);
    law_judge_domain(with_base(step, base));
}

/// Steps of one kind that agree on what judging again offline evaluates can
/// have different judge hashes only where their probes differ.
pub proof fn law_judge_hashes_differ_by_probes(a: StepIR, b: StepIR)
    requires
        a.spec_kind() == b.spec_kind(),
        hash::judge_rest(a) == hash::judge_rest(b),
        wire::wire_some(a.spec_base().preflight) == wire::wire_some(b.spec_base().preflight),
    ensures
        hash::judge_hash_of(a) == hash::judge_hash_of(b),
{
    broadcast use keyed::lemma_get_after_with, keyed::lemma_get_after_with_some,
        keyed::lemma_sorted_after_with, keyed::lemma_sorted_after_with_some;

    lemma_step_keys();
    lemma_kinds();
    law_judge_domain(a);
    law_judge_domain(b);
    let ra = judge_rest_members(a);
    let rb = judge_rest_members(b);
    assert(ra == rb);
    assert(ra.get("assertions"@) == rb.get("assertions"@));
    assert(ra.get("observe"@) == rb.get("observe"@));
}

/// The kinds of steps differ from one another.
proof fn lemma_kinds()
    ensures
        keyed::key_code("action"@) == 6097111110,
        keyed::key_code("assert"@) == 6097114116,
        keyed::key_code("call"@) == 4099108108,
        keyed::key_code("human"@) == 5104097110,
        keyed::key_code("if"@) == 2105102102,
        keyed::key_code("foreach"@) == 7102099104,
        keyed::key_code("let"@) == 3108116116,
{
    reveal_strlit("action");
    reveal_strlit("assert");
    reveal_strlit("call");
    reveal_strlit("human");
    reveal_strlit("if");
    reveal_strlit("foreach");
    reveal_strlit("let");
}

/// The verb of an action moves neither hash.
pub proof fn law_verb_moves_neither_hash(s: ActionStepIR, verb: Option<CanonicalVerb>)
    ensures
        hash::effect_hash_of(StepIR::Action(ActionStepIR { verb, ..s })) == hash::effect_hash_of(
            StepIR::Action(s),
        ),
        hash::judge_hash_of(StepIR::Action(ActionStepIR { verb, ..s })) == hash::judge_hash_of(
            StepIR::Action(s),
        ),
{
    law_effect_domain(StepIR::Action(s));
    law_effect_domain(StepIR::Action(ActionStepIR { verb, ..s }));
    law_judge_domain(StepIR::Action(s));
    law_judge_domain(StepIR::Action(ActionStepIR { verb, ..s }));
}

/// The assertions of an action leave its effect hash as it is.
pub proof fn law_assertions_leave_effect_hash(s: ActionStepIR, assertions: Vec<AssertionIR>)
    ensures
        hash::effect_hash_of(StepIR::Action(ActionStepIR { assertions, ..s }))
            == hash::effect_hash_of(StepIR::Action(s)),
{
    law_effect_domain(StepIR::Action(s));
    law_effect_domain(StepIR::Action(ActionStepIR { assertions, ..s }));
}

/// What an action does (its effect class, idempotence, binding and output
/// contract) leaves its judge hash as it is.
pub proof fn law_effect_leaves_judge_hash(s: ActionStepIR, other: ActionStepIR)
    requires
        s.base.preflight == other.base.preflight,
        s.assertions == other.assertions,
    ensures
        hash::judge_hash_of(StepIR::Action(s)) == hash::judge_hash_of(StepIR::Action(other)),
{
    law_judge_domain(StepIR::Action(s));
    law_judge_domain(StepIR::Action(other));
}

/// All assert steps have one effect hash.
pub proof fn law_assert_steps_share_effect_hash(a: AssertStepIR, b: AssertStepIR)
    ensures
        hash::effect_hash_of(StepIR::Assert(a)) == hash::effect_hash_of(StepIR::Assert(b)),
{
    law_effect_domain(StepIR::Assert(a));
    law_effect_domain(StepIR::Assert(b));
}

/// Steps other than actions and asserts are judged by their probes alone: a
/// callee, its inputs, a question, a condition, a collection, bindings and
/// subtrees leave the judge hash as it is.
pub proof fn law_other_kinds_are_judged_by_probes(a: StepIR, b: StepIR)
    requires
        a.spec_kind() == b.spec_kind(),
        a !is Action,
        a !is Assert,
        a.spec_base().preflight == b.spec_base().preflight,
    ensures
        hash::judge_hash_of(a) == hash::judge_hash_of(b),
{
    lemma_kinds();
    law_judge_domain(a);
    law_judge_domain(b);
}

/// The branches of an if step move neither of its hashes.
pub proof fn law_if_hashes_exclude_the_branches(
    s: IfStepIR,
    then_steps: Vec<StepIR>,
    else_steps: Option<Vec<StepIR>>,
)
    ensures
        hash::effect_hash_of(StepIR::If(IfStepIR { then_steps, else_steps, ..s }))
            == hash::effect_hash_of(StepIR::If(s)),
        hash::judge_hash_of(StepIR::If(IfStepIR { then_steps, else_steps, ..s }))
            == hash::judge_hash_of(StepIR::If(s)),
{
    law_effect_domain(StepIR::If(s));
    law_effect_domain(StepIR::If(IfStepIR { then_steps, else_steps, ..s }));
    law_judge_domain(StepIR::If(s));
    law_judge_domain(StepIR::If(IfStepIR { then_steps, else_steps, ..s }));
}

/// The body of a foreach step moves neither of its hashes.
pub proof fn law_foreach_hashes_exclude_the_body(s: ForeachStepIR, body: Vec<StepIR>)
    ensures
        hash::effect_hash_of(StepIR::Foreach(ForeachStepIR { body, ..s }))
            == hash::effect_hash_of(StepIR::Foreach(s)),
        hash::judge_hash_of(StepIR::Foreach(ForeachStepIR { body, ..s }))
            == hash::judge_hash_of(StepIR::Foreach(s)),
{
    law_effect_domain(StepIR::Foreach(s));
    law_effect_domain(StepIR::Foreach(ForeachStepIR { body, ..s }));
    law_judge_domain(StepIR::Foreach(s));
    law_judge_domain(StepIR::Foreach(ForeachStepIR { body, ..s }));
}

/// What the flow hash covers: every member but `irHash` and `sourceMap`.
pub open spec fn ir_members(flow: FlowIR) -> Members {
    Members::none().with(
        "irVersion"@,
        flow.ir_version.wire_json(),
    ).with(
        "flowId"@,
        flow.flow_id.wire_json(),
    ).with(
        "provider"@,
        flow.provider.wire_json(),
    ).with(
        "requiredFeatures"@,
        flow.required_features.wire_json(),
    ).with(
        "lockfileDigest"@,
        flow.lockfile_digest.wire_json(),
    ).with(
        "params"@,
        flow.params.wire_json(),
    ).with(
        "outputs"@,
        flow.outputs.wire_json(),
    ).with(
        "body"@,
        JsonV::Array(step::steps_wire(flow.body@)),
    ).with_some(
        "handlers"@,
        step::opt_handlers_wire(flow.handlers),
    ).with(
        "verdictPolicy"@,
        flow.verdict_policy.wire_json(),
    ).with(
        "subflows"@,
        flow.subflows.wire_json(),
    )
}

/// The flow hash covers exactly the members of the flow but `irHash` and
/// `sourceMap`; the hashes that the steps carry and the pins of the callees
/// are among them.
pub proof fn law_ir_domain(flow: FlowIR)
    ensures
        flow::flow_members(flow).without("irHash"@).without("sourceMap"@) == ir_members(flow),
{
    broadcast use keyed::lemma_sorted_after_with, keyed::lemma_sorted_after_with_some;

    lemma_flow_keys();
    let all = flow::flow_members(flow);
    let fewer = all.without("irHash"@);
    let least = fewer.without("sourceMap"@);
    keyed::lemma_without_sorted(all, "irHash"@);
    keyed::lemma_without_sorted(fewer, "sourceMap"@);
    assert forall|key: Seq<char>| least.get(key) == ir_members(flow).get(key) by {
        lemma_ir_member(flow, key);
    }
    keyed::lemma_same_entries(least, ir_members(flow));
}

proof fn lemma_ir_member(flow: FlowIR, key: Seq<char>)
    ensures
        flow::flow_members(flow).without("irHash"@).without("sourceMap"@).get(key) == ir_members(
            flow,
        ).get(key),
{
    broadcast use keyed::lemma_get_after_with, keyed::lemma_get_after_with_some,
        keyed::lemma_sorted_after_with, keyed::lemma_sorted_after_with_some;

    lemma_flow_keys();
    let all = flow::flow_members(flow);
    let fewer = all.without("irHash"@);
    keyed::law_removed(all, "irHash"@, key);
    keyed::law_removed(fewer, "sourceMap"@, key);
}

/// The stored flow hash and the source map do not move the flow hash.
pub proof fn law_ir_hash_ignores_itself_and_the_source_map(
    flow: FlowIR,
    ir_hash: crate::ir::primitives::Hash,
    source_map: Vec<SourceMapEntry>,
)
    ensures
        hash::ir_hash_of(FlowIR { ir_hash, source_map, ..flow }) == hash::ir_hash_of(flow),
{
    law_ir_domain(flow);
    law_ir_domain(FlowIR { ir_hash, source_map, ..flow });
}

/// A change of anything that the flow hash covers changes the bytes that are
/// hashed; the pins of the callees are covered, so the flow hash stands for the
/// callees too.
pub proof fn law_covered_members_move_the_flow_hash(a: FlowIR, b: FlowIR, key: Seq<char>)
    requires
        canonical_laws::normal(ir_members(a).object()),
        canonical_laws::normal(ir_members(b).object()),
        ir_members(a).get(key) != ir_members(b).get(key),
    ensures
        encode_utf8(
            hash::preimage(
                hash::ir_tag(),
                flow::flow_members(a).without("irHash"@).without("sourceMap"@).object(),
            ),
        ) != encode_utf8(
            hash::preimage(
                hash::ir_tag(),
                flow::flow_members(b).without("irHash"@).without("sourceMap"@).object(),
            ),
        ),
{
    law_ir_domain(a);
    law_ir_domain(b);
    canonical_laws::law_hashed_bytes_tell_contents_apart(
        hash::ir_tag(),
        ir_members(a).object(),
        ir_members(b).object(),
    );
}

/// A change of anything that the effect hash or the judge hash covers changes
/// the bytes that are hashed, for steps of one kind.
pub proof fn law_covered_members_move_the_step_hashes(a: StepIR, b: StepIR, key: Seq<char>)
    requires
        a.spec_kind() == b.spec_kind(),
        canonical_laws::normal(hash::effect_domain(a)),
        canonical_laws::normal(hash::effect_domain(b)),
        canonical_laws::normal(hash::judge_domain(a)),
        canonical_laws::normal(hash::judge_domain(b)),
    ensures
        effect_members(a).get(key) != effect_members(b).get(key) ==> encode_utf8(
            hash::preimage(hash::effect_tag(a.spec_kind()), hash::effect_domain(a)),
        ) != encode_utf8(
            hash::preimage(hash::effect_tag(b.spec_kind()), hash::effect_domain(b)),
        ),
        judge_members(a).get(key) != judge_members(b).get(key) ==> encode_utf8(
            hash::preimage(hash::judge_tag(a.spec_kind()), hash::judge_domain(a)),
        ) != encode_utf8(hash::preimage(hash::judge_tag(b.spec_kind()), hash::judge_domain(b))),
{
    law_effect_domain(a);
    law_effect_domain(b);
    law_judge_domain(a);
    law_judge_domain(b);
    if effect_members(a).get(key) != effect_members(b).get(key) {
        canonical_laws::law_hashed_bytes_tell_contents_apart(
            hash::effect_tag(a.spec_kind()),
            hash::effect_domain(a),
            hash::effect_domain(b),
        );
    }
    if judge_members(a).get(key) != judge_members(b).get(key) {
        canonical_laws::law_hashed_bytes_tell_contents_apart(
            hash::judge_tag(a.spec_kind()),
            hash::judge_domain(a),
            hash::judge_domain(b),
        );
    }
}

/// What is hashed differs between the domains, whatever the subtrees: no
/// flow hash, effect hash or judge hash shares its input with another domain.
pub proof fn law_domains_are_apart(kind: Seq<char>, other: Seq<char>, a: JsonV, b: JsonV)
    ensures
        hash::preimage(hash::ir_tag(), a) != hash::preimage(hash::effect_tag(kind), b),
        hash::preimage(hash::ir_tag(), a) != hash::preimage(hash::judge_tag(kind), b),
        hash::preimage(hash::effect_tag(kind), a) != hash::preimage(hash::judge_tag(other), b),
{
    reveal_strlit("/irHash");
    reveal_strlit("/effectHash/");
    reveal_strlit("/judgeHash/");
    let at = hash::tag_prefix().len() as int + 1;
    assert(hash::preimage(hash::ir_tag(), a)[at] == 'i');
    assert(hash::preimage(hash::effect_tag(kind), a)[at] == 'e');
    assert(hash::preimage(hash::effect_tag(kind), b)[at] == 'e');
    assert(hash::preimage(hash::judge_tag(kind), b)[at] == 'j');
    assert(hash::preimage(hash::judge_tag(other), b)[at] == 'j');
}

/// Different tags without a line feed give different hash inputs: steps of
/// different kinds never share one.
pub proof fn law_tags_are_apart(tag: Seq<char>, other: Seq<char>, a: JsonV, b: JsonV)
    requires
        tag != other,
        !tag.contains('\n'),
        !other.contains('\n'),
    ensures
        hash::preimage(tag, a) != hash::preimage(other, b),
{
    reveal_strlit("\n");
    let x = hash::preimage(tag, a);
    let y = hash::preimage(other, b);
    if x == y {
        assert(x[tag.len() as int] == '\n');
        assert(y[other.len() as int] == '\n');
        if tag.len() < other.len() {
            assert(other[tag.len() as int] == y[tag.len() as int]);
        } else if other.len() < tag.len() {
            assert(tag[other.len() as int] == x[other.len() as int]);
        } else {
            assert forall|i: int| 0 <= i < tag.len() implies tag[i] == other[i] by {
                assert(x[i] == y[i]);
            }
            assert(tag =~= other);
        }
    }
}

} // verus!
