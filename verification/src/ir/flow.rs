//! The flow root type and its declarations.

use vstd::prelude::*;

use crate::ir::expr::Expr;
use crate::ir::handler::HandlerBinding;
use crate::ir::primitives::{
    FeatureId, FlowId, Identifier, IrVersion, JsonSchemaDocument, ProviderName,
};
use crate::ir::source_map::SourceMapEntry;
use crate::ir::step::{handlers_json, steps_json, StepIR};
use crate::ir::vocab::VerdictPolicy;
use crate::json::{Json, JsonMap, JsonV, Members};
use crate::keyed::{Keyed, TextMap};
use crate::sets::TextSet;
use crate::wire;
use crate::wire::{some_json, Duplicate, Wire};

verus! {

/// The provider that a flow is bound to.
#[derive(Debug, PartialEq, Eq, Clone)]
pub struct ProviderRef {
    /// The provider.
    pub name: ProviderName,
    /// The provider package version that the manifest came from.
    pub version: String,
}

impl Wire for ProviderRef {
    open spec fn wire_json(&self) -> JsonV {
        Members::none()
            .with("name"@, self.name.wire_json())
            .with("version"@, self.version.wire_json())
            .object()
    }

    fn to_json(&self) -> (r: Json) {
        JsonMap::new()
            .with("name", self.name.to_json())
            .with("version", self.version.to_json())
            .object()
    }
}

/// One declared flow parameter.
#[derive(Debug, PartialEq, Eq, Clone)]
pub struct ParamDecl {
    /// Parameter name.
    pub name: Identifier,
    /// JSON Schema contract of the value.
    pub schema: JsonSchemaDocument,
    /// Whether a run must supply this parameter.
    pub required: bool,
    /// Default value.
    pub default: Option<Json>,
}

impl Wire for ParamDecl {
    open spec fn wire_json(&self) -> JsonV {
        Members::none()
            .with("name"@, self.name.wire_json())
            .with("schema"@, self.schema.wire_json())
            .with("required"@, self.required.wire_json())
            .with_some("default"@, wire::wire_some(self.default))
            .object()
    }

    fn to_json(&self) -> (r: Json) {
        JsonMap::new()
            .with("name", self.name.to_json())
            .with("schema", self.schema.to_json())
            .with("required", self.required.to_json())
            .with_some("default", some_json(&self.default))
            .object()
    }
}

/// One declared flow output.
#[derive(Debug, PartialEq, Eq, Clone)]
pub struct OutputDecl {
    /// Output name.
    pub name: Identifier,
    /// JSON Schema contract of the value.
    pub schema: JsonSchemaDocument,
    /// Projection expression that gives the value.
    pub from: Expr,
}

impl Wire for OutputDecl {
    open spec fn wire_json(&self) -> JsonV {
        Members::none()
            .with("name"@, self.name.wire_json())
            .with("schema"@, self.schema.wire_json())
            .with("from"@, self.from.wire_json())
            .object()
    }

    fn to_json(&self) -> (r: Json) {
        JsonMap::new()
            .with("name", self.name.to_json())
            .with("schema", self.schema.to_json())
            .with("from", self.from.to_json())
            .object()
    }
}

/// Content-pinned reference to a compiled flow.
#[derive(Debug, PartialEq, Eq, Clone)]
pub struct FlowRef {
    /// The callee's flow id.
    pub flow_id: FlowId,
    /// The callee's content hash.
    pub ir_hash: crate::ir::primitives::Hash,
}

impl Wire for FlowRef {
    open spec fn wire_json(&self) -> JsonV {
        Members::none()
            .with("flowId"@, self.flow_id.wire_json())
            .with("irHash"@, self.ir_hash.wire_json())
            .object()
    }

    fn to_json(&self) -> (r: Json) {
        JsonMap::new()
            .with("flowId", self.flow_id.to_json())
            .with("irHash", self.ir_hash.to_json())
            .object()
    }
}

/// Set of feature ids, in ascending order.
#[derive(Debug, PartialEq, Eq)]
pub struct FeatureSet {
    ids: TextSet,
}

impl FeatureSet {
    /// The members, in ascending order.
    pub closed spec fn view(&self) -> Seq<Seq<char>> {
        self.ids@
    }

    /// The set, as a map with empty values.
    pub closed spec fn as_map(&self) -> Keyed<()> {
        self.ids.as_map()
    }

    /// The empty set.
    pub fn new() -> (r: Self)
        ensures
            r@ == Seq::<Seq<char>>::empty(),
            r.as_map() == Keyed::<()>::none(),
    {
        FeatureSet { ids: TextSet::new() }
    }

    /// Adds a feature.
    pub fn insert(&mut self, feature: &FeatureId)
        ensures
            final(self).as_map() == old(self).as_map().with(feature@, ()),
            final(self)@ == crate::sets::keys_of(final(self).as_map()),
    {
        self.ids.insert(feature.as_str());
    }

    /// Whether `feature` is a member.
    pub fn contains(&self, feature: &FeatureId) -> (r: bool)
        ensures
            r == self.as_map().has(feature@),
    {
        self.ids.contains(feature.as_str())
    }

    /// Whether a feature with this name is a member.
    pub fn has(&self, name: &str) -> (r: bool)
        ensures
            r == self.as_map().has(name@),
    {
        self.ids.contains(name)
    }
}

impl Wire for FeatureSet {
    open spec fn wire_json(&self) -> JsonV {
        crate::json::text_array(self@)
    }

    fn to_json(&self) -> (r: Json) {
        self.ids.to_json()
    }
}

impl Duplicate for FeatureSet {
    fn duplicate(&self) -> (r: Self)
        ensures
            r.as_map() == self.as_map(),
    {
        FeatureSet { ids: self.ids.clone() }
    }
}

impl Clone for FeatureSet {
    fn clone(&self) -> (r: Self)
        ensures
            r.as_map() == self.as_map(),
            r@ == self@,
    {
        FeatureSet { ids: self.ids.clone() }
    }
}

/// Callees by flow id.
#[derive(Debug, PartialEq, Eq)]
pub struct Subflows {
    entries: TextMap<FlowRef>,
}

impl Subflows {
    /// The map, as contracts see it.
    pub closed spec fn view(&self) -> Keyed<FlowRef> {
        self.entries@
    }

    /// No callees.
    pub fn new() -> (r: Self)
        ensures
            r@ == Keyed::<FlowRef>::none(),
    {
        Subflows { entries: TextMap::new() }
    }

    /// Sets the callee `flow_id`.
    pub fn insert(&mut self, flow_id: FlowId, flow_ref: FlowRef)
        ensures
            final(self)@ == old(self)@.with(flow_id@, flow_ref),
    {
        self.entries.insert(flow_id.as_str(), flow_ref);
    }

    /// The callee under `flow_id`.
    pub fn get(&self, flow_id: &FlowId) -> (r: Option<&FlowRef>)
        ensures
            r is Some <==> self@.get(flow_id@) is Some,
            r matches Some(f) ==> Some(*f) == self@.get(flow_id@),
    {
        self.entries.get(flow_id.as_str())
    }
}

impl Wire for Subflows {
    open spec fn wire_json(&self) -> JsonV {
        crate::wire::wire_members(self@.entries).object()
    }

    fn to_json(&self) -> (r: Json) {
        self.entries.to_json()
    }
}

/// A compiled flow: the input of a run.
#[derive(Debug, PartialEq, Eq)]
pub struct FlowIR {
    /// Generation number.
    pub ir_version: IrVersion,
    /// The flow's name.
    pub flow_id: FlowId,
    /// Hash of the whole tree without `irHash` and `sourceMap`.
    pub ir_hash: crate::ir::primitives::Hash,
    /// The provider that the flow was compiled against.
    pub provider: ProviderRef,
    /// Features that the whole flow requires.
    pub required_features: FeatureSet,
    /// Digest of the lockfile that the flow was bound with.
    pub lockfile_digest: crate::ir::primitives::Hash,
    /// Input contract.
    pub params: Vec<ParamDecl>,
    /// Output contract.
    pub outputs: Vec<OutputDecl>,
    /// The steps.
    pub body: Vec<StepIR>,
    /// Flow-level handlers.
    pub handlers: Option<Vec<HandlerBinding>>,
    /// How verdicts fold.
    pub verdict_policy: VerdictPolicy,
    /// Source mapping: diagnostics only.
    pub source_map: Vec<SourceMapEntry>,
    /// Callees, pinned by their hashes.
    pub subflows: Subflows,
}

/// The JSON members of a flow.
pub open spec fn flow_members(f: FlowIR) -> Members {
    Members::none().with("irVersion"@, f.ir_version.wire_json()).with(
        "flowId"@,
        f.flow_id.wire_json(),
    ).with("irHash"@, f.ir_hash.wire_json()).with("provider"@, f.provider.wire_json()).with(
        "requiredFeatures"@,
        f.required_features.wire_json(),
    ).with("lockfileDigest"@, f.lockfile_digest.wire_json()).with(
        "params"@,
        f.params.wire_json(),
    ).with("outputs"@, f.outputs.wire_json()).with(
        "body"@,
        JsonV::Array(crate::ir::step::steps_wire(f.body@)),
    ).with_some("handlers"@, crate::ir::step::opt_handlers_wire(f.handlers)).with(
        "verdictPolicy"@,
        f.verdict_policy.wire_json(),
    ).with("sourceMap"@, f.source_map.wire_json()).with("subflows"@, f.subflows.wire_json())
}

/// The JSON members of a flow.
pub fn flow_map(f: &FlowIR) -> (r: JsonMap)
    ensures
        r@ == flow_members(*f),
{
    let handlers = match &f.handlers {
        Some(v) => Some(handlers_json(v)),
        None => None,
    };
    JsonMap::new().with("irVersion", f.ir_version.to_json()).with(
        "flowId",
        f.flow_id.to_json(),
    ).with("irHash", f.ir_hash.to_json()).with("provider", f.provider.to_json()).with(
        "requiredFeatures",
        f.required_features.to_json(),
    ).with("lockfileDigest", f.lockfile_digest.to_json()).with(
        "params",
        f.params.to_json(),
    ).with("outputs", f.outputs.to_json()).with("body", steps_json(&f.body)).with_some(
        "handlers",
        handlers,
    ).with("verdictPolicy", f.verdict_policy.to_json()).with(
        "sourceMap",
        f.source_map.to_json(),
    ).with("subflows", f.subflows.to_json())
}

impl Wire for FlowIR {
    open spec fn wire_json(&self) -> JsonV {
        flow_members(*self).object()
    }

    fn to_json(&self) -> (r: Json) {
        flow_map(self).object()
    }
}

} // verus!
