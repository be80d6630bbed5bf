//! Source mapping from flow documents to their source files. Pure diagnostics:
//! it takes no part in content hashes.

use vstd::prelude::*;

use crate::ir::primitives::{Identifier, JsonPointer};
use crate::json::{Json, JsonMap, JsonV, Members};
use crate::wire;
use crate::wire::{some_json, Wire};

verus! {

/// A one-based line and column span in a source file.
#[derive(Debug, Clone, Copy, PartialEq, Eq, Structural)]
pub struct SourceSpan {
    /// Start line.
    pub start_line: u32,
    /// Start column.
    pub start_col: u32,
    /// End line.
    pub end_line: u32,
    /// End column.
    pub end_col: u32,
}

impl Wire for SourceSpan {
    open spec fn wire_json(&self) -> JsonV {
        Members::none()
            .with("startLine"@, self.start_line.wire_json())
            .with("startCol"@, self.start_col.wire_json())
            .with("endLine"@, self.end_line.wire_json())
            .with("endCol"@, self.end_col.wire_json())
            .object()
    }

    fn to_json(&self) -> (r: Json) {
        JsonMap::new()
            .with("startLine", self.start_line.to_json())
            .with("startCol", self.start_col.to_json())
            .with("endLine", self.end_line.to_json())
            .with("endCol", self.end_col.to_json())
            .object()
    }
}

/// One frame of a macro expansion chain.
#[derive(Debug, PartialEq, Eq, Clone)]
pub struct MacroOriginFrame {
    /// The macro's name.
    pub macro_name: Identifier,
    /// The file with the expansion site.
    pub file: String,
    /// The span of the expansion site.
    pub span: SourceSpan,
}

impl Wire for MacroOriginFrame {
    open spec fn wire_json(&self) -> JsonV {
        Members::none()
            .with("macro"@, self.macro_name.wire_json())
            .with("file"@, self.file.wire_json())
            .with("span"@, self.span.wire_json())
            .object()
    }

    fn to_json(&self) -> (r: Json) {
        JsonMap::new()
            .with("macro", self.macro_name.to_json())
            .with("file", self.file.to_json())
            .with("span", self.span.to_json())
            .object()
    }
}

/// One source-map entry.
#[derive(Debug, PartialEq, Eq, Clone)]
pub struct SourceMapEntry {
    /// Pointer into the flow document.
    pub ir_path: JsonPointer,
    /// The source file.
    pub file: String,
    /// The source span.
    pub span: SourceSpan,
    /// Macro expansion chain, innermost first; present only for expanded nodes.
    pub origin: Option<Vec<MacroOriginFrame>>,
}

impl Wire for SourceMapEntry {
    open spec fn wire_json(&self) -> JsonV {
        Members::none()
            .with("irPath"@, self.ir_path.wire_json())
            .with("file"@, self.file.wire_json())
            .with("span"@, self.span.wire_json())
            .with_some("origin"@, wire::wire_some(self.origin))
            .object()
    }

    fn to_json(&self) -> (r: Json) {
        JsonMap::new()
            .with("irPath", self.ir_path.to_json())
            .with("file", self.file.to_json())
            .with("span", self.span.to_json())
            .with_some("origin", some_json(&self.origin))
            .object()
    }
}

} // verus!
