//! Assertions: pure predicates over observations and outputs.

use vstd::prelude::*;

use crate::ir::expr::Expr;
use crate::ir::primitives::{AssertId, OnMissingInput};
use crate::ir::selector::{ElementSelectorIR, RectIR, TextMatchIR};
use crate::ir::vocab::{ElementState, VerifyChannel};
use crate::json::{Json, JsonMap, JsonV, Members};
use crate::wire;
use crate::wire::{some_json, Wire};

verus! {

/// The four predicate types.
#[allow(inconsistent_fields)]
#[derive(Debug, PartialEq, Eq, Clone)]
pub enum PredicateIR {
    /// Element state check.
    ElementState {
        /// The element to check.
        selector: ElementSelectorIR,
        /// The expected state.
        state: ElementState,
    },
    /// Element text check.
    ElementText {
        /// The element to check.
        selector: ElementSelectorIR,
        /// The text matcher.
        matcher: TextMatchIR,
    },
    /// Pure expression over outputs; consumes no observation channel.
    Expr {
        /// The boolean expression to evaluate.
        expr: Expr,
    },
    /// Visual assertion.
    Visual {
        /// Author-written vision prompt.
        prompt: String,
        /// Optional region of interest.
        region: Option<RectIR>,
    },
}

impl Wire for PredicateIR {
    open spec fn wire_json(&self) -> JsonV {
        match self {
            PredicateIR::ElementState { selector, state } => Members::none().with(
                "type"@,
                JsonV::Text("elementState"@),
            ).with("selector"@, selector.wire_json()).with("state"@, state.wire_json()).object(),
            PredicateIR::ElementText { selector, matcher } => Members::none().with(
                "type"@,
                JsonV::Text("elementText"@),
            ).with("selector"@, selector.wire_json()).with("match"@, matcher.wire_json()).object(),
            PredicateIR::Expr { expr } => Members::none().with("type"@, JsonV::Text("expr"@)).with(
                "expr"@,
                expr.wire_json(),
            ).object(),
            PredicateIR::Visual { prompt, region } => Members::none().with(
                "type"@,
                JsonV::Text("visual"@),
            ).with("prompt"@, prompt.wire_json()).with_some("region"@, wire::wire_some(*region)).object(),
        }
    }

    fn to_json(&self) -> (r: Json) {
        match self {
            PredicateIR::ElementState { selector, state } => JsonMap::new().with(
                "type",
                Json::text("elementState"),
            ).with("selector", selector.to_json()).with("state", state.to_json()).object(),
            PredicateIR::ElementText { selector, matcher } => JsonMap::new().with(
                "type",
                Json::text("elementText"),
            ).with("selector", selector.to_json()).with("match", matcher.to_json()).object(),
            PredicateIR::Expr { expr } => JsonMap::new().with("type", Json::text("expr")).with(
                "expr",
                expr.to_json(),
            ).object(),
            PredicateIR::Visual { prompt, region } => JsonMap::new().with(
                "type",
                Json::text("visual"),
            ).with("prompt", prompt.to_json()).with_some("region", some_json(region)).object(),
        }
    }
}

/// A single assertion with its ordered verify chain.
#[derive(Debug, PartialEq, Eq, Clone)]
pub struct AssertionIR {
    /// Stable assertion id, unique within the step.
    pub assert_id: AssertId,
    /// The predicate to evaluate.
    pub predicate: PredicateIR,
    /// Ordered verify chain; the order is the degradation order.
    pub verify_via: Vec<VerifyChannel>,
    /// Vision prompt, when vision is the degraded tail of the chain.
    pub vision_prompt: Option<String>,
    /// A channel that cannot evaluate yields unknown.
    pub on_missing_input: OnMissingInput,
}

impl Wire for AssertionIR {
    open spec fn wire_json(&self) -> JsonV {
        Members::none()
            .with("assertId"@, self.assert_id.wire_json())
            .with("predicate"@, self.predicate.wire_json())
            .with("verifyVia"@, self.verify_via.wire_json())
            .with_some("visionPrompt"@, wire::wire_some(self.vision_prompt))
            .with("onMissingInput"@, self.on_missing_input.wire_json())
            .object()
    }

    fn to_json(&self) -> (r: Json) {
        JsonMap::new()
            .with("assertId", self.assert_id.to_json())
            .with("predicate", self.predicate.to_json())
            .with("verifyVia", self.verify_via.to_json())
            .with_some("visionPrompt", some_json(&self.vision_prompt))
            .with("onMissingInput", self.on_missing_input.to_json())
            .object()
    }
}

} // verus!
