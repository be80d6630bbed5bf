//! The JSON forms of selectors, predicates, policies and declarations tell them
//! apart.

use vstd::prelude::*;
use vstd::string::*;

use crate::ir::assertion::{AssertionIR, PredicateIR};
use crate::ir::expr::{Expr, ExprMap};
use crate::ir::expr;
use crate::ir::flow::Subflows;
use crate::ir::flow::{FlowRef, OutputDecl, ParamDecl, ProviderRef};
use crate::ir::handler::BackoffMs;
use crate::ir::handler::{BackoffSchedule, RetryPolicy};
use crate::ir::selector::{ElementSelectorIR, RectIR, SelectorContext, TextMatchIR};
use crate::ir::source_map::{MacroOriginFrame, SourceMapEntry, SourceSpan};
use crate::ir::step::ObservationSource;
use crate::ir::step::{ActionBinding, BoundAttempt, ObservationFromStep};
use crate::json::JsonV;
use crate::keyed;
use crate::text;
use crate::told::Told;
use crate::told;
use crate::wire::Wire;
use crate::wire;

verus! {

proof fn lemma_selector_context_keys()
    ensures
        keyed::key_code("contextId"@) == 9099116100,
        keyed::key_code("contextKind"@) == 11099105100,
{
    reveal_strlit("contextId");
    reveal_strlit("contextKind");
}

/// The JSON form of [`SelectorContext`] holds every field under its name, and nothing else.
pub proof fn law_selector_context_form(v: SelectorContext)
    ensures
        v.wire_json() is Object,
        v.wire_json().member("contextKind"@) == Some(v.context_kind.wire_json()),
        v.wire_json().member("contextId"@) == wire::wire_some(v.context_id),
        forall|key: Seq<char>| #[trigger]
            v.wire_json().member(key) is Some ==> key == "contextKind"@ || key == "contextId"@,
{
    broadcast use
        keyed::lemma_get_after_with,
        keyed::lemma_get_after_with_some,
        keyed::lemma_sorted_after_with,
        keyed::lemma_sorted_after_with_some,
    ;

    lemma_selector_context_keys();
}

impl Told for SelectorContext {
    open spec fn ordered(&self) -> bool {
        true
    }

    open spec fn same(&self, other: &Self) -> bool {
        &&& self.context_kind.same(&other.context_kind)
        &&& told::same_some(self.context_id, other.context_id)
    }

    proof fn told(a: &Self, b: &Self) {
        law_selector_context_form(*a);
        law_selector_context_form(*b);
        assert(a.wire_json().member("contextKind"@) == b.wire_json().member("contextKind"@));
        Told::told(&a.context_kind, &b.context_kind);
        assert(a.wire_json().member("contextId"@) == b.wire_json().member("contextId"@));
        told::law_optional_values_are_told(a.context_id, b.context_id);
    }
}

proof fn lemma_text_match_keys()
    ensures
        keyed::key_code("mode"@) == 4109101101,
        keyed::key_code("value"@) == 5118117101,
        keyed::key_code("caseSensitive"@) == 13099116101,
{
    reveal_strlit("mode");
    reveal_strlit("value");
    reveal_strlit("caseSensitive");
}

/// The JSON form of [`TextMatchIR`] holds every field under its name, and nothing else.
pub proof fn law_text_match_form(v: TextMatchIR)
    ensures
        v.wire_json() is Object,
        v.wire_json().member("value"@) == Some(v.value.wire_json()),
        v.wire_json().member("mode"@) == Some(v.mode.wire_json()),
        v.wire_json().member("caseSensitive"@) == Some(v.case_sensitive.wire_json()),
        forall|key: Seq<char>| #[trigger]
            v.wire_json().member(key) is Some ==> key == "value"@ || key == "mode"@
                || key == "caseSensitive"@,
{
    broadcast use
        keyed::lemma_get_after_with,
        keyed::lemma_get_after_with_some,
        keyed::lemma_sorted_after_with,
        keyed::lemma_sorted_after_with_some,
    ;

    lemma_text_match_keys();
}

impl Told for TextMatchIR {
    open spec fn ordered(&self) -> bool {
        true
    }

    open spec fn same(&self, other: &Self) -> bool {
        &&& self.value.same(&other.value)
        &&& self.mode.same(&other.mode)
        &&& self.case_sensitive.same(&other.case_sensitive)
    }

    proof fn told(a: &Self, b: &Self) {
        law_text_match_form(*a);
        law_text_match_form(*b);
        assert(a.wire_json().member("value"@) == b.wire_json().member("value"@));
        Told::told(&a.value, &b.value);
        assert(a.wire_json().member("mode"@) == b.wire_json().member("mode"@));
        Told::told(&a.mode, &b.mode);
        assert(a.wire_json().member("caseSensitive"@) == b.wire_json().member("caseSensitive"@));
        Told::told(&a.case_sensitive, &b.case_sensitive);
    }
}

proof fn lemma_element_selector_keys()
    ensures
        keyed::key_code("css"@) == 3099115115,
        keyed::key_code("name"@) == 4110101101,
        keyed::key_code("role"@) == 4114101101,
        keyed::key_code("text"@) == 4116116116,
        keyed::key_code("value"@) == 5118117101,
        keyed::key_code("context"@) == 7099120116,
        keyed::key_code("identifier"@) == 10105105114,
{
    reveal_strlit("css");
    reveal_strlit("name");
    reveal_strlit("role");
    reveal_strlit("text");
    reveal_strlit("value");
    reveal_strlit("context");
    reveal_strlit("identifier");
}

/// The JSON form of [`ElementSelectorIR`] holds every field under its name, and nothing else.
pub proof fn law_element_selector_form(v: ElementSelectorIR)
    ensures
        v.wire_json() is Object,
        v.wire_json().member("context"@) == wire::wire_some(v.context),
        v.wire_json().member("role"@) == wire::wire_some(v.role),
        v.wire_json().member("name"@) == wire::wire_some(v.name),
        v.wire_json().member("identifier"@) == wire::wire_some(v.identifier),
        v.wire_json().member("text"@) == wire::wire_some(v.text),
        v.wire_json().member("value"@) == wire::wire_some(v.value),
        v.wire_json().member("css"@) == wire::wire_some(v.css),
        forall|key: Seq<char>| #[trigger]
            v.wire_json().member(key) is Some ==> key == "context"@ || key == "role"@
                || key == "name"@ || key == "identifier"@ || key == "text"@ || key == "value"@
                || key == "css"@,
{
    broadcast use
        keyed::lemma_get_after_with,
        keyed::lemma_get_after_with_some,
        keyed::lemma_sorted_after_with,
        keyed::lemma_sorted_after_with_some,
    ;

    lemma_element_selector_keys();
}

impl Told for ElementSelectorIR {
    open spec fn ordered(&self) -> bool {
        true
    }

    open spec fn same(&self, other: &Self) -> bool {
        &&& told::same_some(self.context, other.context)
        &&& told::same_some(self.role, other.role)
        &&& told::same_some(self.name, other.name)
        &&& told::same_some(self.identifier, other.identifier)
        &&& told::same_some(self.text, other.text)
        &&& told::same_some(self.value, other.value)
        &&& told::same_some(self.css, other.css)
    }

    proof fn told(a: &Self, b: &Self) {
        law_element_selector_form(*a);
        law_element_selector_form(*b);
        assert(a.wire_json().member("context"@) == b.wire_json().member("context"@));
        told::law_optional_values_are_told(a.context, b.context);
        assert(a.wire_json().member("role"@) == b.wire_json().member("role"@));
        told::law_optional_values_are_told(a.role, b.role);
        assert(a.wire_json().member("name"@) == b.wire_json().member("name"@));
        told::law_optional_values_are_told(a.name, b.name);
        assert(a.wire_json().member("identifier"@) == b.wire_json().member("identifier"@));
        told::law_optional_values_are_told(a.identifier, b.identifier);
        assert(a.wire_json().member("text"@) == b.wire_json().member("text"@));
        told::law_optional_values_are_told(a.text, b.text);
        assert(a.wire_json().member("value"@) == b.wire_json().member("value"@));
        told::law_optional_values_are_told(a.value, b.value);
        assert(a.wire_json().member("css"@) == b.wire_json().member("css"@));
        told::law_optional_values_are_told(a.css, b.css);
    }
}

proof fn lemma_rect_keys()
    ensures
        keyed::key_code("x"@) == 1120120120,
        keyed::key_code("y"@) == 1121121121,
        keyed::key_code("width"@) == 5119116104,
        keyed::key_code("height"@) == 6104104116,
{
    reveal_strlit("x");
    reveal_strlit("y");
    reveal_strlit("width");
    reveal_strlit("height");
}

/// The JSON form of [`RectIR`] holds every field under its name, and nothing else.
pub proof fn law_rect_form(v: RectIR)
    ensures
        v.wire_json() is Object,
        v.wire_json().member("x"@) == Some(v.x.wire_json()),
        v.wire_json().member("y"@) == Some(v.y.wire_json()),
        v.wire_json().member("width"@) == Some(v.width.wire_json()),
        v.wire_json().member("height"@) == Some(v.height.wire_json()),
        forall|key: Seq<char>| #[trigger]
            v.wire_json().member(key) is Some ==> key == "x"@ || key == "y"@ || key == "width"@
                || key == "height"@,
{
    broadcast use
        keyed::lemma_get_after_with,
        keyed::lemma_get_after_with_some,
        keyed::lemma_sorted_after_with,
        keyed::lemma_sorted_after_with_some,
    ;

    lemma_rect_keys();
}

impl Told for RectIR {
    open spec fn ordered(&self) -> bool {
        true
    }

    open spec fn same(&self, other: &Self) -> bool {
        &&& self.x.same(&other.x)
        &&& self.y.same(&other.y)
        &&& self.width.same(&other.width)
        &&& self.height.same(&other.height)
    }

    proof fn told(a: &Self, b: &Self) {
        law_rect_form(*a);
        law_rect_form(*b);
        assert(a.wire_json().member("x"@) == b.wire_json().member("x"@));
        Told::told(&a.x, &b.x);
        assert(a.wire_json().member("y"@) == b.wire_json().member("y"@));
        Told::told(&a.y, &b.y);
        assert(a.wire_json().member("width"@) == b.wire_json().member("width"@));
        Told::told(&a.width, &b.width);
        assert(a.wire_json().member("height"@) == b.wire_json().member("height"@));
        Told::told(&a.height, &b.height);
    }
}

proof fn lemma_predicate_keys()
    ensures
        keyed::key_code("expr"@) == 4101114114,
        keyed::key_code("type"@) == 4116101101,
        keyed::key_code("match"@) == 5109099104,
        keyed::key_code("state"@) == 5115116101,
        keyed::key_code("prompt"@) == 6112112116,
        keyed::key_code("region"@) == 6114111110,
        keyed::key_code("selector"@) == 8115111114,
{
    reveal_strlit("expr");
    reveal_strlit("type");
    reveal_strlit("match");
    reveal_strlit("state");
    reveal_strlit("prompt");
    reveal_strlit("region");
    reveal_strlit("selector");
}

proof fn lemma_predicate_tags()
    ensures
        keyed::key_code("expr"@) == 4101114114,
        keyed::key_code("visual"@) == 6118097108,
        keyed::key_code("elementText"@) == 11101101116,
        keyed::key_code("elementState"@) == 12101097101,
{
    reveal_strlit("expr");
    reveal_strlit("visual");
    reveal_strlit("elementText");
    reveal_strlit("elementState");
}

/// The JSON form of [`PredicateIR`] names its kind and holds every field of that kind
/// under its name, and nothing else.
pub proof fn law_predicate_form(v: PredicateIR)
    ensures
        v.wire_json() is Object,
        match v {
            PredicateIR::ElementState { selector, state } => {
                &&& v.wire_json().member("type"@) == Some(JsonV::Text("elementState"@))
                &&& v.wire_json().member("selector"@) == Some(selector.wire_json())
                &&& v.wire_json().member("state"@) == Some(state.wire_json())
                &&& forall|key: Seq<char>| #[trigger]
                    v.wire_json().member(key) is Some ==> key == "type"@ || key == "selector"@
                        || key == "state"@
            },
            PredicateIR::ElementText { selector, matcher } => {
                &&& v.wire_json().member("type"@) == Some(JsonV::Text("elementText"@))
                &&& v.wire_json().member("selector"@) == Some(selector.wire_json())
                &&& v.wire_json().member("match"@) == Some(matcher.wire_json())
                &&& forall|key: Seq<char>| #[trigger]
                    v.wire_json().member(key) is Some ==> key == "type"@ || key == "selector"@
                        || key == "match"@
            },
            PredicateIR::Expr { expr } => {
                &&& v.wire_json().member("type"@) == Some(JsonV::Text("expr"@))
                &&& v.wire_json().member("expr"@) == Some(expr.wire_json())
                &&& forall|key: Seq<char>| #[trigger]
                    v.wire_json().member(key) is Some ==> key == "type"@ || key == "expr"@
            },
            PredicateIR::Visual { prompt, region } => {
                &&& v.wire_json().member("type"@) == Some(JsonV::Text("visual"@))
                &&& v.wire_json().member("prompt"@) == Some(prompt.wire_json())
                &&& v.wire_json().member("region"@) == wire::wire_some(region)
                &&& forall|key: Seq<char>| #[trigger]
                    v.wire_json().member(key) is Some ==> key == "type"@ || key == "prompt"@
                        || key == "region"@
            },
        },
{
    broadcast use
        keyed::lemma_get_after_with,
        keyed::lemma_get_after_with_some,
        keyed::lemma_sorted_after_with,
        keyed::lemma_sorted_after_with_some,
    ;

    lemma_predicate_keys();
}

impl Told for PredicateIR {
    open spec fn ordered(&self) -> bool {
        true
    }

    open spec fn same(&self, other: &Self) -> bool {
        match (*self, *other) {
            (
                PredicateIR::ElementState { selector: a_selector, state: a_state },
                PredicateIR::ElementState { selector: b_selector, state: b_state },
            ) => {
                &&& a_selector.same(&b_selector)
                &&& a_state.same(&b_state)
            },
            (
                PredicateIR::ElementText { selector: a_selector, matcher: a_matcher },
                PredicateIR::ElementText { selector: b_selector, matcher: b_matcher },
            ) => {
                &&& a_selector.same(&b_selector)
                &&& a_matcher.same(&b_matcher)
            },
            (
                PredicateIR::Expr { expr: a_expr },
                PredicateIR::Expr { expr: b_expr },
            ) => a_expr.same(&b_expr),
            (
                PredicateIR::Visual { prompt: a_prompt, region: a_region },
                PredicateIR::Visual { prompt: b_prompt, region: b_region },
            ) => {
                &&& a_prompt.same(&b_prompt)
                &&& told::same_some(a_region, b_region)
            },
            _ => false,
        }
    }

    proof fn told(a: &Self, b: &Self) {
        law_predicate_form(*a);
        law_predicate_form(*b);
        lemma_predicate_tags();
        assert(a.wire_json().member("type"@) == b.wire_json().member("type"@));
        match (*a, *b) {
            (
                PredicateIR::ElementState { selector: a_selector, state: a_state },
                PredicateIR::ElementState { selector: b_selector, state: b_state },
            ) => {
                assert(a.wire_json().member("selector"@) == b.wire_json().member("selector"@));
                Told::told(&a_selector, &b_selector);
                assert(a.wire_json().member("state"@) == b.wire_json().member("state"@));
                Told::told(&a_state, &b_state);
            },
            (
                PredicateIR::ElementText { selector: a_selector, matcher: a_matcher },
                PredicateIR::ElementText { selector: b_selector, matcher: b_matcher },
            ) => {
                assert(a.wire_json().member("selector"@) == b.wire_json().member("selector"@));
                Told::told(&a_selector, &b_selector);
                assert(a.wire_json().member("match"@) == b.wire_json().member("match"@));
                Told::told(&a_matcher, &b_matcher);
            },
            (PredicateIR::Expr { expr: a_expr }, PredicateIR::Expr { expr: b_expr }) => {
                assert(a.wire_json().member("expr"@) == b.wire_json().member("expr"@));
                Told::told(&a_expr, &b_expr);
            },
            (
                PredicateIR::Visual { prompt: a_prompt, region: a_region },
                PredicateIR::Visual { prompt: b_prompt, region: b_region },
            ) => {
                assert(a.wire_json().member("prompt"@) == b.wire_json().member("prompt"@));
                Told::told(&a_prompt, &b_prompt);
                assert(a.wire_json().member("region"@) == b.wire_json().member("region"@));
                told::law_optional_values_are_told(a_region, b_region);
            },
            _ => {},
        }
    }
}

proof fn lemma_assertion_keys()
    ensures
        keyed::key_code("assertId"@) == 8097073100,
        keyed::key_code("predicate"@) == 9112097101,
        keyed::key_code("verifyVia"@) == 9118086097,
        keyed::key_code("visionPrompt"@) == 12118109116,
        keyed::key_code("onMissingInput"@) == 14111110116,
{
    reveal_strlit("assertId");
    reveal_strlit("predicate");
    reveal_strlit("verifyVia");
    reveal_strlit("visionPrompt");
    reveal_strlit("onMissingInput");
}

/// The JSON form of [`AssertionIR`] holds every field under its name, and nothing else.
pub proof fn law_assertion_form(v: AssertionIR)
    ensures
        v.wire_json() is Object,
        v.wire_json().member("assertId"@) == Some(v.assert_id.wire_json()),
        v.wire_json().member("predicate"@) == Some(v.predicate.wire_json()),
        v.wire_json().member("verifyVia"@) == Some(v.verify_via.wire_json()),
        v.wire_json().member("visionPrompt"@) == wire::wire_some(v.vision_prompt),
        v.wire_json().member("onMissingInput"@) == Some(v.on_missing_input.wire_json()),
        forall|key: Seq<char>| #[trigger]
            v.wire_json().member(key) is Some ==> key == "assertId"@ || key == "predicate"@
                || key == "verifyVia"@ || key == "visionPrompt"@ || key == "onMissingInput"@,
{
    broadcast use
        keyed::lemma_get_after_with,
        keyed::lemma_get_after_with_some,
        keyed::lemma_sorted_after_with,
        keyed::lemma_sorted_after_with_some,
    ;

    lemma_assertion_keys();
}

impl Told for AssertionIR {
    open spec fn ordered(&self) -> bool {
        true
    }

    open spec fn same(&self, other: &Self) -> bool {
        &&& self.assert_id.same(&other.assert_id)
        &&& self.predicate.same(&other.predicate)
        &&& self.verify_via.same(&other.verify_via)
        &&& told::same_some(self.vision_prompt, other.vision_prompt)
        &&& self.on_missing_input.same(&other.on_missing_input)
    }

    proof fn told(a: &Self, b: &Self) {
        law_assertion_form(*a);
        law_assertion_form(*b);
        assert(a.wire_json().member("assertId"@) == b.wire_json().member("assertId"@));
        Told::told(&a.assert_id, &b.assert_id);
        assert(a.wire_json().member("predicate"@) == b.wire_json().member("predicate"@));
        Told::told(&a.predicate, &b.predicate);
        assert(a.wire_json().member("verifyVia"@) == b.wire_json().member("verifyVia"@));
        Told::told(&a.verify_via, &b.verify_via);
        assert(a.wire_json().member("visionPrompt"@) == b.wire_json().member("visionPrompt"@));
        told::law_optional_values_are_told(a.vision_prompt, b.vision_prompt);
        assert(a.wire_json().member("onMissingInput"@) == b.wire_json().member("onMissingInput"@));
        Told::told(&a.on_missing_input, &b.on_missing_input);
    }
}

proof fn lemma_backoff_schedule_keys()
    ensures
        keyed::key_code("max"@) == 3109120120,
        keyed::key_code("factor"@) == 6102111114,
        keyed::key_code("initial"@) == 7105097108,
{
    reveal_strlit("max");
    reveal_strlit("factor");
    reveal_strlit("initial");
}

/// The JSON form of [`BackoffSchedule`] holds every field under its name, and nothing else.
pub proof fn law_backoff_schedule_form(v: BackoffSchedule)
    ensures
        v.wire_json() is Object,
        v.wire_json().member("initial"@) == Some(v.initial.wire_json()),
        v.wire_json().member("factor"@) == Some(v.factor.wire_json()),
        v.wire_json().member("max"@) == Some(v.max.wire_json()),
        forall|key: Seq<char>| #[trigger]
            v.wire_json().member(key) is Some ==> key == "initial"@ || key == "factor"@
                || key == "max"@,
{
    broadcast use
        keyed::lemma_get_after_with,
        keyed::lemma_get_after_with_some,
        keyed::lemma_sorted_after_with,
        keyed::lemma_sorted_after_with_some,
    ;

    lemma_backoff_schedule_keys();
}

impl Told for BackoffSchedule {
    open spec fn ordered(&self) -> bool {
        true
    }

    open spec fn same(&self, other: &Self) -> bool {
        &&& self.initial.same(&other.initial)
        &&& self.factor.same(&other.factor)
        &&& self.max.same(&other.max)
    }

    proof fn told(a: &Self, b: &Self) {
        law_backoff_schedule_form(*a);
        law_backoff_schedule_form(*b);
        assert(a.wire_json().member("initial"@) == b.wire_json().member("initial"@));
        Told::told(&a.initial, &b.initial);
        assert(a.wire_json().member("factor"@) == b.wire_json().member("factor"@));
        Told::told(&a.factor, &b.factor);
        assert(a.wire_json().member("max"@) == b.wire_json().member("max"@));
        Told::told(&a.max, &b.max);
    }
}

proof fn lemma_retry_policy_keys()
    ensures
        keyed::key_code("retryOn"@) == 7114079110,
        keyed::key_code("backoffMs"@) == 9098102115,
        keyed::key_code("maxAttempts"@) == 11109112115,
{
    reveal_strlit("retryOn");
    reveal_strlit("backoffMs");
    reveal_strlit("maxAttempts");
}

/// The JSON form of [`RetryPolicy`] holds every field under its name, and nothing else.
pub proof fn law_retry_policy_form(v: RetryPolicy)
    ensures
        v.wire_json() is Object,
        v.wire_json().member("maxAttempts"@) == Some(v.max_attempts.wire_json()),
        v.wire_json().member("backoffMs"@) == Some(v.backoff_ms.wire_json()),
        v.wire_json().member("retryOn"@) == Some(v.retry_on.wire_json()),
        forall|key: Seq<char>| #[trigger]
            v.wire_json().member(key) is Some ==> key == "maxAttempts"@ || key == "backoffMs"@
                || key == "retryOn"@,
{
    broadcast use
        keyed::lemma_get_after_with,
        keyed::lemma_get_after_with_some,
        keyed::lemma_sorted_after_with,
        keyed::lemma_sorted_after_with_some,
    ;

    lemma_retry_policy_keys();
}

impl Told for RetryPolicy {
    open spec fn ordered(&self) -> bool {
        true
    }

    open spec fn same(&self, other: &Self) -> bool {
        &&& self.max_attempts.same(&other.max_attempts)
        &&& self.backoff_ms.same(&other.backoff_ms)
        &&& self.retry_on.same(&other.retry_on)
    }

    proof fn told(a: &Self, b: &Self) {
        law_retry_policy_form(*a);
        law_retry_policy_form(*b);
        assert(a.wire_json().member("maxAttempts"@) == b.wire_json().member("maxAttempts"@));
        Told::told(&a.max_attempts, &b.max_attempts);
        assert(a.wire_json().member("backoffMs"@) == b.wire_json().member("backoffMs"@));
        Told::told(&a.backoff_ms, &b.backoff_ms);
        assert(a.wire_json().member("retryOn"@) == b.wire_json().member("retryOn"@));
        Told::told(&a.retry_on, &b.retry_on);
    }
}

proof fn lemma_source_span_keys()
    ensures
        keyed::key_code("endCol"@) == 6101111108,
        keyed::key_code("endLine"@) == 7101110101,
        keyed::key_code("startCol"@) == 8115111108,
        keyed::key_code("startLine"@) == 9115105101,
{
    reveal_strlit("endCol");
    reveal_strlit("endLine");
    reveal_strlit("startCol");
    reveal_strlit("startLine");
}

/// The JSON form of [`SourceSpan`] holds every field under its name, and nothing else.
pub proof fn law_source_span_form(v: SourceSpan)
    ensures
        v.wire_json() is Object,
        v.wire_json().member("startLine"@) == Some(v.start_line.wire_json()),
        v.wire_json().member("startCol"@) == Some(v.start_col.wire_json()),
        v.wire_json().member("endLine"@) == Some(v.end_line.wire_json()),
        v.wire_json().member("endCol"@) == Some(v.end_col.wire_json()),
        forall|key: Seq<char>| #[trigger]
            v.wire_json().member(key) is Some ==> key == "startLine"@ || key == "startCol"@
                || key == "endLine"@ || key == "endCol"@,
{
    broadcast use
        keyed::lemma_get_after_with,
        keyed::lemma_get_after_with_some,
        keyed::lemma_sorted_after_with,
        keyed::lemma_sorted_after_with_some,
    ;

    lemma_source_span_keys();
}

impl Told for SourceSpan {
    open spec fn ordered(&self) -> bool {
        true
    }

    open spec fn same(&self, other: &Self) -> bool {
        &&& self.start_line.same(&other.start_line)
        &&& self.start_col.same(&other.start_col)
        &&& self.end_line.same(&other.end_line)
        &&& self.end_col.same(&other.end_col)
    }

    proof fn told(a: &Self, b: &Self) {
        law_source_span_form(*a);
        law_source_span_form(*b);
        assert(a.wire_json().member("startLine"@) == b.wire_json().member("startLine"@));
        Told::told(&a.start_line, &b.start_line);
        assert(a.wire_json().member("startCol"@) == b.wire_json().member("startCol"@));
        Told::told(&a.start_col, &b.start_col);
        assert(a.wire_json().member("endLine"@) == b.wire_json().member("endLine"@));
        Told::told(&a.end_line, &b.end_line);
        assert(a.wire_json().member("endCol"@) == b.wire_json().member("endCol"@));
        Told::told(&a.end_col, &b.end_col);
    }
}

proof fn lemma_macro_origin_frame_keys()
    ensures
        keyed::key_code("file"@) == 4102101101,
        keyed::key_code("span"@) == 4115110110,
        keyed::key_code("macro"@) == 5109114111,
{
    reveal_strlit("file");
    reveal_strlit("span");
    reveal_strlit("macro");
}

/// The JSON form of [`MacroOriginFrame`] holds every field under its name, and nothing else.
pub proof fn law_macro_origin_frame_form(v: MacroOriginFrame)
    ensures
        v.wire_json() is Object,
        v.wire_json().member("macro"@) == Some(v.macro_name.wire_json()),
        v.wire_json().member("file"@) == Some(v.file.wire_json()),
        v.wire_json().member("span"@) == Some(v.span.wire_json()),
        forall|key: Seq<char>| #[trigger]
            v.wire_json().member(key) is Some ==> key == "macro"@ || key == "file"@
                || key == "span"@,
{
    broadcast use
        keyed::lemma_get_after_with,
        keyed::lemma_get_after_with_some,
        keyed::lemma_sorted_after_with,
        keyed::lemma_sorted_after_with_some,
    ;

    lemma_macro_origin_frame_keys();
}

impl Told for MacroOriginFrame {
    open spec fn ordered(&self) -> bool {
        true
    }

    open spec fn same(&self, other: &Self) -> bool {
        &&& self.macro_name.same(&other.macro_name)
        &&& self.file.same(&other.file)
        &&& self.span.same(&other.span)
    }

    proof fn told(a: &Self, b: &Self) {
        law_macro_origin_frame_form(*a);
        law_macro_origin_frame_form(*b);
        assert(a.wire_json().member("macro"@) == b.wire_json().member("macro"@));
        Told::told(&a.macro_name, &b.macro_name);
        assert(a.wire_json().member("file"@) == b.wire_json().member("file"@));
        Told::told(&a.file, &b.file);
        assert(a.wire_json().member("span"@) == b.wire_json().member("span"@));
        Told::told(&a.span, &b.span);
    }
}

proof fn lemma_source_map_entry_keys()
    ensures
        keyed::key_code("file"@) == 4102101101,
        keyed::key_code("span"@) == 4115110110,
        keyed::key_code("irPath"@) == 6105116104,
        keyed::key_code("origin"@) == 6111105110,
{
    reveal_strlit("file");
    reveal_strlit("span");
    reveal_strlit("irPath");
    reveal_strlit("origin");
}

/// The JSON form of [`SourceMapEntry`] holds every field under its name, and nothing else.
pub proof fn law_source_map_entry_form(v: SourceMapEntry)
    ensures
        v.wire_json() is Object,
        v.wire_json().member("irPath"@) == Some(v.ir_path.wire_json()),
        v.wire_json().member("file"@) == Some(v.file.wire_json()),
        v.wire_json().member("span"@) == Some(v.span.wire_json()),
        v.wire_json().member("origin"@) == wire::wire_some(v.origin),
        forall|key: Seq<char>| #[trigger]
            v.wire_json().member(key) is Some ==> key == "irPath"@ || key == "file"@
                || key == "span"@ || key == "origin"@,
{
    broadcast use
        keyed::lemma_get_after_with,
        keyed::lemma_get_after_with_some,
        keyed::lemma_sorted_after_with,
        keyed::lemma_sorted_after_with_some,
    ;

    lemma_source_map_entry_keys();
}

impl Told for SourceMapEntry {
    open spec fn ordered(&self) -> bool {
        true
    }

    open spec fn same(&self, other: &Self) -> bool {
        &&& self.ir_path.same(&other.ir_path)
        &&& self.file.same(&other.file)
        &&& self.span.same(&other.span)
        &&& told::same_some(self.origin, other.origin)
    }

    proof fn told(a: &Self, b: &Self) {
        law_source_map_entry_form(*a);
        law_source_map_entry_form(*b);
        assert(a.wire_json().member("irPath"@) == b.wire_json().member("irPath"@));
        Told::told(&a.ir_path, &b.ir_path);
        assert(a.wire_json().member("file"@) == b.wire_json().member("file"@));
        Told::told(&a.file, &b.file);
        assert(a.wire_json().member("span"@) == b.wire_json().member("span"@));
        Told::told(&a.span, &b.span);
        assert(a.wire_json().member("origin"@) == b.wire_json().member("origin"@));
        told::law_optional_values_are_told(a.origin, b.origin);
    }
}

proof fn lemma_provider_ref_keys()
    ensures
        keyed::key_code("name"@) == 4110101101,
        keyed::key_code("version"@) == 7118111110,
{
    reveal_strlit("name");
    reveal_strlit("version");
}

/// The JSON form of [`ProviderRef`] holds every field under its name, and nothing else.
pub proof fn law_provider_ref_form(v: ProviderRef)
    ensures
        v.wire_json() is Object,
        v.wire_json().member("name"@) == Some(v.name.wire_json()),
        v.wire_json().member("version"@) == Some(v.version.wire_json()),
        forall|key: Seq<char>| #[trigger]
            v.wire_json().member(key) is Some ==> key == "name"@ || key == "version"@,
{
    broadcast use
        keyed::lemma_get_after_with,
        keyed::lemma_get_after_with_some,
        keyed::lemma_sorted_after_with,
        keyed::lemma_sorted_after_with_some,
    ;

    lemma_provider_ref_keys();
}

impl Told for ProviderRef {
    open spec fn ordered(&self) -> bool {
        true
    }

    open spec fn same(&self, other: &Self) -> bool {
        &&& self.name.same(&other.name)
        &&& self.version.same(&other.version)
    }

    proof fn told(a: &Self, b: &Self) {
        law_provider_ref_form(*a);
        law_provider_ref_form(*b);
        assert(a.wire_json().member("name"@) == b.wire_json().member("name"@));
        Told::told(&a.name, &b.name);
        assert(a.wire_json().member("version"@) == b.wire_json().member("version"@));
        Told::told(&a.version, &b.version);
    }
}

proof fn lemma_param_decl_keys()
    ensures
        keyed::key_code("name"@) == 4110101101,
        keyed::key_code("schema"@) == 6115109097,
        keyed::key_code("default"@) == 7100108116,
        keyed::key_code("required"@) == 8114101100,
{
    reveal_strlit("name");
    reveal_strlit("schema");
    reveal_strlit("default");
    reveal_strlit("required");
}

/// The JSON form of [`ParamDecl`] holds every field under its name, and nothing else.
pub proof fn law_param_decl_form(v: ParamDecl)
    ensures
        v.wire_json() is Object,
        v.wire_json().member("name"@) == Some(v.name.wire_json()),
        v.wire_json().member("schema"@) == Some(v.schema.wire_json()),
        v.wire_json().member("required"@) == Some(v.required.wire_json()),
        v.wire_json().member("default"@) == wire::wire_some(v.default),
        forall|key: Seq<char>| #[trigger]
            v.wire_json().member(key) is Some ==> key == "name"@ || key == "schema"@
                || key == "required"@ || key == "default"@,
{
    broadcast use
        keyed::lemma_get_after_with,
        keyed::lemma_get_after_with_some,
        keyed::lemma_sorted_after_with,
        keyed::lemma_sorted_after_with_some,
    ;

    lemma_param_decl_keys();
}

impl Told for ParamDecl {
    open spec fn ordered(&self) -> bool {
        true
    }

    open spec fn same(&self, other: &Self) -> bool {
        &&& self.name.same(&other.name)
        &&& self.schema.same(&other.schema)
        &&& self.required.same(&other.required)
        &&& told::same_some(self.default, other.default)
    }

    proof fn told(a: &Self, b: &Self) {
        law_param_decl_form(*a);
        law_param_decl_form(*b);
        assert(a.wire_json().member("name"@) == b.wire_json().member("name"@));
        Told::told(&a.name, &b.name);
        assert(a.wire_json().member("schema"@) == b.wire_json().member("schema"@));
        Told::told(&a.schema, &b.schema);
        assert(a.wire_json().member("required"@) == b.wire_json().member("required"@));
        Told::told(&a.required, &b.required);
        assert(a.wire_json().member("default"@) == b.wire_json().member("default"@));
        told::law_optional_values_are_told(a.default, b.default);
    }
}

proof fn lemma_output_decl_keys()
    ensures
        keyed::key_code("from"@) == 4102109109,
        keyed::key_code("name"@) == 4110101101,
        keyed::key_code("schema"@) == 6115109097,
{
    reveal_strlit("from");
    reveal_strlit("name");
    reveal_strlit("schema");
}

/// The JSON form of [`OutputDecl`] holds every field under its name, and nothing else.
pub proof fn law_output_decl_form(v: OutputDecl)
    ensures
        v.wire_json() is Object,
        v.wire_json().member("name"@) == Some(v.name.wire_json()),
        v.wire_json().member("schema"@) == Some(v.schema.wire_json()),
        v.wire_json().member("from"@) == Some(v.from.wire_json()),
        forall|key: Seq<char>| #[trigger]
            v.wire_json().member(key) is Some ==> key == "name"@ || key == "schema"@
                || key == "from"@,
{
    broadcast use
        keyed::lemma_get_after_with,
        keyed::lemma_get_after_with_some,
        keyed::lemma_sorted_after_with,
        keyed::lemma_sorted_after_with_some,
    ;

    lemma_output_decl_keys();
}

impl Told for OutputDecl {
    open spec fn ordered(&self) -> bool {
        true
    }

    open spec fn same(&self, other: &Self) -> bool {
        &&& self.name.same(&other.name)
        &&& self.schema.same(&other.schema)
        &&& self.from.same(&other.from)
    }

    proof fn told(a: &Self, b: &Self) {
        law_output_decl_form(*a);
        law_output_decl_form(*b);
        assert(a.wire_json().member("name"@) == b.wire_json().member("name"@));
        Told::told(&a.name, &b.name);
        assert(a.wire_json().member("schema"@) == b.wire_json().member("schema"@));
        Told::told(&a.schema, &b.schema);
        assert(a.wire_json().member("from"@) == b.wire_json().member("from"@));
        Told::told(&a.from, &b.from);
    }
}

proof fn lemma_flow_ref_keys()
    ensures
        keyed::key_code("flowId"@) == 6102073100,
        keyed::key_code("irHash"@) == 6105115104,
{
    reveal_strlit("flowId");
    reveal_strlit("irHash");
}

/// The JSON form of [`FlowRef`] holds every field under its name, and nothing else.
pub proof fn law_flow_ref_form(v: FlowRef)
    ensures
        v.wire_json() is Object,
        v.wire_json().member("flowId"@) == Some(v.flow_id.wire_json()),
        v.wire_json().member("irHash"@) == Some(v.ir_hash.wire_json()),
        forall|key: Seq<char>| #[trigger]
            v.wire_json().member(key) is Some ==> key == "flowId"@ || key == "irHash"@,
{
    broadcast use
        keyed::lemma_get_after_with,
        keyed::lemma_get_after_with_some,
        keyed::lemma_sorted_after_with,
        keyed::lemma_sorted_after_with_some,
    ;

    lemma_flow_ref_keys();
}

impl Told for FlowRef {
    open spec fn ordered(&self) -> bool {
        true
    }

    open spec fn same(&self, other: &Self) -> bool {
        &&& self.flow_id.same(&other.flow_id)
        &&& self.ir_hash.same(&other.ir_hash)
    }

    proof fn told(a: &Self, b: &Self) {
        law_flow_ref_form(*a);
        law_flow_ref_form(*b);
        assert(a.wire_json().member("flowId"@) == b.wire_json().member("flowId"@));
        Told::told(&a.flow_id, &b.flow_id);
        assert(a.wire_json().member("irHash"@) == b.wire_json().member("irHash"@));
        Told::told(&a.ir_hash, &b.ir_hash);
    }
}

proof fn lemma_action_binding_keys()
    ensures
        keyed::key_code("attempts"@) == 8097116115,
{
    reveal_strlit("attempts");
}

/// The JSON form of [`ActionBinding`] holds every field under its name, and nothing else.
pub proof fn law_action_binding_form(v: ActionBinding)
    ensures
        v.wire_json() is Object,
        v.wire_json().member("attempts"@) == Some(v.attempts.wire_json()),
        forall|key: Seq<char>| #[trigger]
            v.wire_json().member(key) is Some ==> key == "attempts"@,
{
    broadcast use
        keyed::lemma_get_after_with,
        keyed::lemma_get_after_with_some,
        keyed::lemma_sorted_after_with,
        keyed::lemma_sorted_after_with_some,
    ;

    lemma_action_binding_keys();
}

impl Told for ActionBinding {
    open spec fn ordered(&self) -> bool {
        self.attempts.ordered()
    }

    open spec fn same(&self, other: &Self) -> bool {
        self.attempts.same(&other.attempts)
    }

    proof fn told(a: &Self, b: &Self) {
        law_action_binding_form(*a);
        law_action_binding_form(*b);
        assert(a.wire_json().member("attempts"@) == b.wire_json().member("attempts"@));
        Told::told(&a.attempts, &b.attempts);
    }
}

proof fn lemma_bound_attempt_keys()
    ensures
        keyed::key_code("args"@) == 4097115115,
        keyed::key_code("channel"@) == 7099101108,
        keyed::key_code("actionName"@) == 10097097101,
        keyed::key_code("protection"@) == 10112105110,
        keyed::key_code("requiresFeature"@) == 15114116101,
        keyed::key_code("acceptExecutionModes"@) == 20097077115,
{
    reveal_strlit("args");
    reveal_strlit("channel");
    reveal_strlit("actionName");
    reveal_strlit("protection");
    reveal_strlit("requiresFeature");
    reveal_strlit("acceptExecutionModes");
}

/// The JSON form of [`BoundAttempt`] holds every field under its name, and nothing else.
pub proof fn law_bound_attempt_form(v: BoundAttempt)
    ensures
        v.wire_json() is Object,
        v.wire_json().member("channel"@) == Some(v.channel.wire_json()),
        v.wire_json().member("actionName"@) == Some(v.action_name.wire_json()),
        v.wire_json().member("args"@) == Some(v.args.wire_json()),
        v.wire_json().member("requiresFeature"@) == wire::wire_some(v.requires_feature),
        v.wire_json().member("acceptExecutionModes"@) == Some(v.accept_execution_modes.wire_json()),
        v.wire_json().member("protection"@) == Some(v.protection.wire_json()),
        forall|key: Seq<char>| #[trigger]
            v.wire_json().member(key) is Some ==> key == "channel"@ || key == "actionName"@
                || key == "args"@ || key == "requiresFeature"@ || key == "acceptExecutionModes"@
                || key == "protection"@,
{
    broadcast use
        keyed::lemma_get_after_with,
        keyed::lemma_get_after_with_some,
        keyed::lemma_sorted_after_with,
        keyed::lemma_sorted_after_with_some,
    ;

    lemma_bound_attempt_keys();
}

impl Told for BoundAttempt {
    open spec fn ordered(&self) -> bool {
        self.args.ordered()
    }

    open spec fn same(&self, other: &Self) -> bool {
        &&& self.channel.same(&other.channel)
        &&& self.action_name.same(&other.action_name)
        &&& self.args.same(&other.args)
        &&& told::same_some(self.requires_feature, other.requires_feature)
        &&& self.accept_execution_modes.same(&other.accept_execution_modes)
        &&& self.protection.same(&other.protection)
    }

    proof fn told(a: &Self, b: &Self) {
        law_bound_attempt_form(*a);
        law_bound_attempt_form(*b);
        assert(a.wire_json().member("channel"@) == b.wire_json().member("channel"@));
        Told::told(&a.channel, &b.channel);
        assert(a.wire_json().member("actionName"@) == b.wire_json().member("actionName"@));
        Told::told(&a.action_name, &b.action_name);
        assert(a.wire_json().member("args"@) == b.wire_json().member("args"@));
        Told::told(&a.args, &b.args);
        assert(a.wire_json().member("requiresFeature"@)
            == b.wire_json().member("requiresFeature"@));
        told::law_optional_values_are_told(a.requires_feature, b.requires_feature);
        assert(a.wire_json().member("acceptExecutionModes"@)
            == b.wire_json().member("acceptExecutionModes"@));
        Told::told(&a.accept_execution_modes, &b.accept_execution_modes);
        assert(a.wire_json().member("protection"@) == b.wire_json().member("protection"@));
        Told::told(&a.protection, &b.protection);
    }
}

proof fn lemma_observation_from_step_keys()
    ensures
        keyed::key_code("which"@) == 5119099104,
        keyed::key_code("fromStep"@) == 8102101112,
{
    reveal_strlit("which");
    reveal_strlit("fromStep");
}

/// The JSON form of [`ObservationFromStep`] holds every field under its name, and nothing else.
pub proof fn law_observation_from_step_form(v: ObservationFromStep)
    ensures
        v.wire_json() is Object,
        v.wire_json().member("fromStep"@) == Some(v.from_step.wire_json()),
        v.wire_json().member("which"@) == Some(v.which.wire_json()),
        forall|key: Seq<char>| #[trigger]
            v.wire_json().member(key) is Some ==> key == "fromStep"@ || key == "which"@,
{
    broadcast use
        keyed::lemma_get_after_with,
        keyed::lemma_get_after_with_some,
        keyed::lemma_sorted_after_with,
        keyed::lemma_sorted_after_with_some,
    ;

    lemma_observation_from_step_keys();
}

impl Told for ObservationFromStep {
    open spec fn ordered(&self) -> bool {
        true
    }

    open spec fn same(&self, other: &Self) -> bool {
        &&& self.from_step.same(&other.from_step)
        &&& self.which.same(&other.which)
    }

    proof fn told(a: &Self, b: &Self) {
        law_observation_from_step_form(*a);
        law_observation_from_step_form(*b);
        assert(a.wire_json().member("fromStep"@) == b.wire_json().member("fromStep"@));
        Told::told(&a.from_step, &b.from_step);
        assert(a.wire_json().member("which"@) == b.wire_json().member("which"@));
        Told::told(&a.which, &b.which);
    }
}

/// Two predicates with one JSON form are of one type and agree on their
/// selectors, states, match texts, match modes, case sensitivity, expressions,
/// prompts and regions.
pub proof fn law_predicates_are_told_apart(a: PredicateIR, b: PredicateIR)
    requires
        a.wire_json() == b.wire_json(),
    ensures
        match (a, b) {
            (
                PredicateIR::ElementState { selector: s, state: x },
                PredicateIR::ElementState { selector: t, state: y },
            ) => same_selector(s, t) && x == y,
            (
                PredicateIR::ElementText { selector: s, matcher: x },
                PredicateIR::ElementText { selector: t, matcher: y },
            ) => same_selector(s, t) && same_matcher(x, y),
            (PredicateIR::Expr { expr: x }, PredicateIR::Expr { expr: y }) => same_expr(x, y),
            (
                PredicateIR::Visual { prompt: p, region: x },
                PredicateIR::Visual { prompt: q, region: y },
            ) => p@ == q@ && (x is Some <==> y is Some) && (x is Some ==> x->0.x@ == y->0.x@
                && x->0.y@ == y->0.y@ && x->0.width@ == y->0.width@ && x->0.height@
                == y->0.height@),
            _ => false,
        },
{
    Told::told(&a, &b);
    match (a, b) {
        (
            PredicateIR::ElementState { selector: s, .. },
            PredicateIR::ElementState { selector: t, .. },
        ) => lemma_same_selector(s, t),
        (
            PredicateIR::ElementText { selector: s, .. },
            PredicateIR::ElementText { selector: t, .. },
        ) => lemma_same_selector(s, t),
        _ => {},
    }
}

/// Whether two matchers agree on their text, mode and case sensitivity.
pub open spec fn same_matcher(a: TextMatchIR, b: TextMatchIR) -> bool {
    a.value@ == b.value@ && a.mode == b.mode && a.case_sensitive == b.case_sensitive
}

/// Whether two selectors agree on everything that they select by.
pub open spec fn same_selector(a: ElementSelectorIR, b: ElementSelectorIR) -> bool {
    &&& a.context is Some <==> b.context is Some
    &&& a.context is Some ==> a.context->0.context_kind == b.context->0.context_kind
        && text::opt_text(a.context->0.context_id) == text::opt_text(b.context->0.context_id)
    &&& text::opt_text(a.role) == text::opt_text(b.role)
    &&& text::opt_text(a.name) == text::opt_text(b.name)
    &&& text::opt_text(a.identifier) == text::opt_text(b.identifier)
    &&& a.text is Some <==> b.text is Some
    &&& a.text is Some ==> same_matcher(a.text->0, b.text->0)
    &&& text::opt_text(a.value) == text::opt_text(b.value)
    &&& text::opt_text(a.css) == text::opt_text(b.css)
}

proof fn lemma_same_selector(a: ElementSelectorIR, b: ElementSelectorIR)
    requires
        a.same(&b),
    ensures
        same_selector(a, b),
{
}

/// Whether two expressions are the same: literals by their values, references by
/// their paths, applications by their functions and arguments.
pub open spec fn same_expr(a: Expr, b: Expr) -> bool
    decreases a,
{
    match (a, b) {
        (Expr::Lit(x), Expr::Lit(y)) => x.lit@ == y.lit@,
        (Expr::Ref(x), Expr::Ref(y)) => x.reference@ == y.reference@,
        (Expr::Fn(x), Expr::Fn(y)) => x.function == y.function && same_exprs(x.args@, y.args@),
        _ => false,
    }
}

/// Whether two lists of expressions are the same, item by item.
pub open spec fn same_exprs(a: Seq<Expr>, b: Seq<Expr>) -> bool
    decreases a,
{
    &&& a.len() == b.len()
    &&& a.len() > 0 ==> same_exprs(a.drop_last(), b.drop_last()) && same_expr(a.last(), b.last())
}

proof fn lemma_expr_keys()
    ensures
        keyed::key_code("fn"@) == 2102110110,
        keyed::key_code("lit"@) == 3108116116,
        keyed::key_code("ref"@) == 3114102102,
        keyed::key_code("args"@) == 4097115115,
{
    reveal_strlit("fn");
    reveal_strlit("lit");
    reveal_strlit("ref");
    reveal_strlit("args");
}

/// Expressions are told by their JSON forms.
pub proof fn law_expressions_are_told_apart(a: Expr, b: Expr)
    requires
        expr::expr_wire(a) == expr::expr_wire(b),
    ensures
        same_expr(a, b),
    decreases a,
{
    broadcast use keyed::lemma_get_after_with, keyed::lemma_sorted_after_with;

    lemma_expr_keys();
    let x = expr::expr_wire(a)->Object_0;
    let y = expr::expr_wire(b)->Object_0;
    assert(x.get("lit"@) == y.get("lit"@));
    assert(x.get("ref"@) == y.get("ref"@));
    assert(x.get("fn"@) == y.get("fn"@));
    assert(x.get("args"@) == y.get("args"@));
    match (a, b) {
        (Expr::Fn(f), Expr::Fn(g)) => {
            Told::told(&f.function, &g.function);
            lemma_exprs_told(f.args@, g.args@);
        },
        _ => {},
    }
}

proof fn lemma_exprs_len(es: Seq<Expr>)
    ensures
        expr::exprs_wire(es).len() == es.len(),
    decreases es.len(),
{
    if es.len() > 0 {
        lemma_exprs_len(es.drop_last());
    }
}

proof fn lemma_exprs_told(a: Seq<Expr>, b: Seq<Expr>)
    requires
        expr::exprs_wire(a) == expr::exprs_wire(b),
    ensures
        same_exprs(a, b),
    decreases a,
{
    lemma_exprs_len(a);
    lemma_exprs_len(b);
    if a.len() > 0 {
        let x = expr::exprs_wire(a);
        let y = expr::exprs_wire(b);
        assert(x.drop_last() =~= expr::exprs_wire(a.drop_last()));
        assert(y.drop_last() =~= expr::exprs_wire(b.drop_last()));
        assert(x.last() == expr::expr_wire(a.last()));
        assert(y.last() == expr::expr_wire(b.last()));
        lemma_exprs_told(a.drop_last(), b.drop_last());
        law_expressions_are_told_apart(a.last(), b.last());
    }
}

/// The JSON form of an expression has the one member of its kind; an application
/// has its function and its arguments, in order.
pub proof fn law_expression_form(e: Expr)
    ensures
        match e {
            Expr::Lit(l) => {
                &&& e.wire_json().member("lit"@) == Some(l.lit@)
                &&& forall|key: Seq<char>| #[trigger]
                    e.wire_json().member(key) is Some ==> key == "lit"@
            },
            Expr::Ref(r) => {
                &&& e.wire_json().member("ref"@) == Some(JsonV::Text(r.reference@))
                &&& forall|key: Seq<char>| #[trigger]
                    e.wire_json().member(key) is Some ==> key == "ref"@
            },
            Expr::Fn(f) => {
                &&& e.wire_json().member("fn"@) == Some(JsonV::Text(f.function.wire()))
                &&& e.wire_json().member("args"@) matches Some(JsonV::Array(forms))
                &&& forms.len() == f.args@.len()
                &&& forall|i: int|
                    0 <= i < forms.len() ==> #[trigger] forms[i] == f.args@[i].wire_json()
                &&& forall|key: Seq<char>| #[trigger]
                    e.wire_json().member(key) is Some ==> key == "fn"@ || key == "args"@
            },
        },
{
    broadcast use keyed::lemma_get_after_with, keyed::lemma_sorted_after_with;

    lemma_expr_keys();
    if let Expr::Fn(f) = e {
        lemma_exprs_items(f.args@);
    }
}

proof fn lemma_exprs_items(es: Seq<Expr>)
    ensures
        expr::exprs_wire(es).len() == es.len(),
        forall|i: int|
            0 <= i < es.len() ==> #[trigger] expr::exprs_wire(es)[i] == es[i].wire_json(),
    decreases es.len(),
{
    if es.len() > 0 {
        lemma_exprs_items(es.drop_last());
        let front = expr::exprs_wire(es.drop_last());
        assert forall|i: int| 0 <= i < es.len() implies #[trigger] expr::exprs_wire(es)[i]
            == es[i].wire_json() by {
            if i < es.len() - 1 {
                assert(expr::exprs_wire(es)[i] == front[i]);
                assert(es.drop_last()[i] == es[i]);
            }
        }
    }
}

impl Told for Expr {
    open spec fn ordered(&self) -> bool {
        true
    }

    open spec fn same(&self, other: &Self) -> bool {
        same_expr(*self, *other)
    }

    proof fn told(a: &Self, b: &Self) {
        law_expressions_are_told_apart(*a, *b);
    }
}

impl Told for ExprMap {
    open spec fn ordered(&self) -> bool {
        told::map_in_order(self@)
    }

    open spec fn same(&self, other: &Self) -> bool {
        told::same_map(self@, other@)
    }

    proof fn told(a: &Self, b: &Self) {
        told::law_maps_are_told(a@, b@);
    }
}

impl Told for Subflows {
    open spec fn ordered(&self) -> bool {
        told::map_in_order(self@)
    }

    open spec fn same(&self, other: &Self) -> bool {
        told::same_map(self@, other@)
    }

    proof fn told(a: &Self, b: &Self) {
        told::law_maps_are_told(a@, b@);
    }
}

impl Told for BackoffMs {
    open spec fn ordered(&self) -> bool {
        true
    }

    open spec fn same(&self, other: &Self) -> bool {
        match (*self, *other) {
            (BackoffMs::Fixed(a), BackoffMs::Fixed(b)) => a.same(&b),
            (BackoffMs::Schedule(a), BackoffMs::Schedule(b)) => a.same(&b),
            _ => false,
        }
    }

    proof fn told(a: &Self, b: &Self) {
        match (*a, *b) {
            (BackoffMs::Fixed(x), BackoffMs::Fixed(y)) => Told::told(&x, &y),
            (BackoffMs::Schedule(x), BackoffMs::Schedule(y)) => Told::told(&x, &y),
            (BackoffMs::Fixed(_), BackoffMs::Schedule(y)) => law_backoff_schedule_form(y),
            (BackoffMs::Schedule(x), BackoffMs::Fixed(_)) => law_backoff_schedule_form(x),
        }
    }
}

/// A backoff is written as its number, or as its schedule.
pub proof fn law_backoff_form(v: BackoffMs)
    ensures
        match v {
            BackoffMs::Fixed(n) => v.wire_json() == JsonV::Number(n@),
            BackoffMs::Schedule(s) => v.wire_json() == s.wire_json() && v.wire_json() is Object,
        },
{
    if let BackoffMs::Schedule(s) = v {
        law_backoff_schedule_form(s);
    }
}

impl Told for ObservationSource {
    open spec fn ordered(&self) -> bool {
        true
    }

    open spec fn same(&self, other: &Self) -> bool {
        match (*self, *other) {
            (ObservationSource::Fresh, ObservationSource::Fresh) => true,
            (ObservationSource::FromStep(a), ObservationSource::FromStep(b)) => a.same(&b),
            _ => false,
        }
    }

    proof fn told(a: &Self, b: &Self) {
        match (*a, *b) {
            (ObservationSource::FromStep(x), ObservationSource::FromStep(y)) => Told::told(&x, &y),
            (ObservationSource::FromStep(x), _) => law_observation_from_step_form(x),
            (_, ObservationSource::FromStep(y)) => law_observation_from_step_form(y),
            _ => {},
        }
    }
}

/// A new observation is asked for by a word, an archived one by its step and its
/// place there.
pub proof fn law_observation_source_form(v: ObservationSource)
    ensures
        match v {
            ObservationSource::Fresh => v.wire_json() == JsonV::Text("fresh"@),
            ObservationSource::FromStep(o) => v.wire_json() == o.wire_json() && v.wire_json()
                is Object,
        },
{
    if let ObservationSource::FromStep(o) = v {
        law_observation_from_step_form(o);
    }
}

} // verus!
