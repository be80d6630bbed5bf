//! Element selectors and geometric types.

use vstd::prelude::*;

use crate::ir::vocab::{TextMatchMode, UiContextKind};
use crate::json::{Json, JsonMap, JsonNumber, JsonV, Members};
use crate::wire;
use crate::wire::{some_json, Wire};

verus! {

/// UI context reference inside a selector.
#[derive(Debug, PartialEq, Eq, Clone)]
pub struct SelectorContext {
    /// Context kind.
    pub context_kind: UiContextKind,
    /// Optional concrete context id.
    pub context_id: Option<String>,
}

impl Wire for SelectorContext {
    open spec fn wire_json(&self) -> JsonV {
        Members::none().with("contextKind"@, self.context_kind.wire_json()).with_some(
            "contextId"@,
            wire::wire_some(self.context_id),
        ).object()
    }

    fn to_json(&self) -> (r: Json) {
        JsonMap::new().with("contextKind", self.context_kind.to_json()).with_some(
            "contextId",
            some_json(&self.context_id),
        ).object()
    }
}

/// Text matcher.
#[derive(Debug, PartialEq, Eq, Clone)]
pub struct TextMatchIR {
    /// The text to match.
    pub value: String,
    /// Match mode.
    pub mode: TextMatchMode,
    /// Case sensitivity.
    pub case_sensitive: bool,
}

impl Wire for TextMatchIR {
    open spec fn wire_json(&self) -> JsonV {
        Members::none()
            .with("value"@, self.value.wire_json())
            .with("mode"@, self.mode.wire_json())
            .with("caseSensitive"@, self.case_sensitive.wire_json())
            .object()
    }

    fn to_json(&self) -> (r: Json) {
        JsonMap::new()
            .with("value", self.value.to_json())
            .with("mode", self.mode.to_json())
            .with("caseSensitive", self.case_sensitive.to_json())
            .object()
    }
}

/// Structured element selector.
#[derive(Debug, PartialEq, Eq, Clone)]
pub struct ElementSelectorIR {
    /// UI context scoping.
    pub context: Option<SelectorContext>,
    /// Accessibility role.
    pub role: Option<String>,
    /// Accessible name.
    pub name: Option<String>,
    /// Stable identifier (resource id or test id).
    pub identifier: Option<String>,
    /// Text content match.
    pub text: Option<TextMatchIR>,
    /// Current value match.
    pub value: Option<String>,
    /// CSS selector (web contexts).
    pub css: Option<String>,
}

impl Wire for ElementSelectorIR {
    open spec fn wire_json(&self) -> JsonV {
        Members::none().with_some(
            "context"@,
            wire::wire_some(self.context),
        ).with_some(
            "role"@,
            wire::wire_some(self.role),
        ).with_some(
            "name"@,
            wire::wire_some(self.name),
        ).with_some(
            "identifier"@,
            wire::wire_some(self.identifier),
        ).with_some(
            "text"@,
            wire::wire_some(self.text),
        ).with_some(
            "value"@,
            wire::wire_some(self.value),
        ).with_some(
            "css"@,
            wire::wire_some(self.css),
        ).object()
    }

    fn to_json(&self) -> (r: Json) {
        JsonMap::new().with_some(
            "context",
            some_json(&self.context),
        ).with_some(
            "role",
            some_json(&self.role),
        ).with_some(
            "name",
            some_json(&self.name),
        ).with_some(
            "identifier",
            some_json(&self.identifier),
        ).with_some(
            "text",
            some_json(&self.text),
        ).with_some(
            "value",
            some_json(&self.value),
        ).with_some(
            "css",
            some_json(&self.css),
        ).object()
    }
}

/// Rectangular region.
#[derive(Debug, PartialEq, Eq, Clone)]
pub struct RectIR {
    /// X origin.
    pub x: JsonNumber,
    /// Y origin.
    pub y: JsonNumber,
    /// Width.
    pub width: JsonNumber,
    /// Height.
    pub height: JsonNumber,
}

impl Wire for RectIR {
    open spec fn wire_json(&self) -> JsonV {
        Members::none()
            .with("x"@, self.x.wire_json())
            .with("y"@, self.y.wire_json())
            .with("width"@, self.width.wire_json())
            .with("height"@, self.height.wire_json())
            .object()
    }

    fn to_json(&self) -> (r: Json) {
        JsonMap::new()
            .with("x", self.x.to_json())
            .with("y", self.y.to_json())
            .with("width", self.width.to_json())
            .with("height", self.height.to_json())
            .object()
    }
}

} // verus!
