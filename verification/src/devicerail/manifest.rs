//! The static capability declaration of the provider.

use vstd::prelude::*;

use crate::ir::primitives;
use crate::ir::primitives::FeatureId;
use crate::ir::vocab::{CanonicalVerb, Channel};
use crate::json;
use crate::json::{Json, JsonMap, JsonV, Members};
use crate::keyed;
use crate::keyed::TextMap;
use crate::kit::fake::schema;
use crate::kit::manifest::{
    ActionDefinitionStatic, ActionProtection, ChannelRole, ChannelSupport, ConditionalFeature,
    FeatureDeclarations, PlatformKind, ProtocolRange, ProviderManifest, VerbBinding,
};
use crate::kit::names;
use crate::kit::names::{action, feature};
use crate::text;
use crate::wire;
use crate::wire::Wire;

verus! {

/// The name of the provider.
pub const PROVIDER_NAME: &'static str = "devicerail";

/// The version of the provider.
pub const PROVIDER_VERSION: &'static str = "0.1.0";

/// Features that every handshake requires, whatever the flow.
pub const INFRA_REQUIRED_FEATURES: [&'static str; 3] = [
    "device.routing.v1",
    "events.snapshot.v1",
    "request.control.v1",
];

/// Features that every handshake offers beyond the required ones, so that what
/// is enabled depends on the daemon alone.
pub const OFFERED_OPTIONAL_FEATURES: [&'static str; 6] = [
    "device.semanticActions.v1",
    "observation.uiSnapshot.v1",
    "verdict.record.v1",
    "events.stream.v1",
    "media.stream.v1",
    "session.export.page.v1",
];

fn list1(a: &str) -> (r: Json)
    ensures
        r@ == json::text_array(seq![a@]),
{
    let items = vec![a.to_owned()];
    assert(text::texts(items@) =~= seq![a@]);
    Json::texts(&items)
}

fn list2(a: &str, b: &str) -> (r: Json)
    ensures
        r@ == json::text_array(seq![a@, b@]),
{
    let items = vec![a.to_owned(), b.to_owned()];
    assert(text::texts(items@) =~= seq![a@, b@]);
    Json::texts(&items)
}

fn list3(a: &str, b: &str, c: &str) -> (r: Json)
    ensures
        r@ == json::text_array(seq![a@, b@, c@]),
{
    let items = vec![a.to_owned(), b.to_owned(), c.to_owned()];
    assert(text::texts(items@) =~= seq![a@, b@, c@]);
    Json::texts(&items)
}

fn list4(a: &str, b: &str, c: &str, d: &str) -> (r: Json)
    ensures
        r@ == json::text_array(seq![a@, b@, c@, d@]),
{
    let items = vec![a.to_owned(), b.to_owned(), c.to_owned(), d.to_owned()];
    assert(text::texts(items@) =~= seq![a@, b@, c@, d@]);
    Json::texts(&items)
}

/// The schema of the context of an element selector.
pub open spec fn selector_context_form() -> JsonV {
    Members::none()
        .with("type"@, JsonV::Text("object"@))
        .with("additionalProperties"@, JsonV::Bool(false))
        .with("required"@, json::text_array(seq!["contextKind"@]))
        .with(
            "properties"@,
            Members::none()
                .with(
                    "contextKind"@,
                    Members::none()
                        .with("enum"@, json::text_array(seq!["native"@, "web"@]))
                        .object(),
                )
                .with(
                    "contextId"@,
                    Members::none()
                        .with("type"@, JsonV::Text("string"@))
                        .with("minLength"@, json::uint(1))
                        .with("maxLength"@, json::uint(4096))
                        .object(),
                )
                .object(),
        )
        .object()
}

fn selector_context_schema() -> (r: Json)
    ensures
        r@ == selector_context_form(),
{
    JsonMap::new()
        .with("type", Json::text("object"))
        .with("additionalProperties", Json::Bool(false))
        .with("required", list1("contextKind"))
        .with(
            "properties",
            JsonMap::new()
                .with(
                    "contextKind",
                    JsonMap::new()
                        .with("enum", list2("native", "web"))
                        .object(),
                )
                .with(
                    "contextId",
                    JsonMap::new()
                        .with("type", Json::text("string"))
                        .with("minLength", Json::uint(1))
                        .with("maxLength", Json::uint(4096))
                        .object(),
                )
                .object(),
        )
        .object()
}

/// The schema of the text of an element selector.
pub open spec fn selector_text_form() -> JsonV {
    Members::none()
        .with("type"@, JsonV::Text("object"@))
        .with("additionalProperties"@, JsonV::Bool(false))
        .with("required"@, json::text_array(seq!["value"@]))
        .with(
            "properties"@,
            Members::none()
                .with(
                    "value"@,
                    Members::none()
                        .with("type"@, JsonV::Text("string"@))
                        .with("minLength"@, json::uint(1))
                        .with("maxLength"@, json::uint(65536))
                        .object(),
                )
                .with(
                    "mode"@,
                    Members::none()
                        .with("enum"@, json::text_array(seq!["exact"@, "contains"@]))
                        .object(),
                )
                .with(
                    "caseSensitive"@,
                    Members::none()
                        .with("type"@, JsonV::Text("boolean"@))
                        .object(),
                )
                .object(),
        )
        .object()
}

fn selector_text_schema() -> (r: Json)
    ensures
        r@ == selector_text_form(),
{
    JsonMap::new()
        .with("type", Json::text("object"))
        .with("additionalProperties", Json::Bool(false))
        .with("required", list1("value"))
        .with(
            "properties",
            JsonMap::new()
                .with(
                    "value",
                    JsonMap::new()
                        .with("type", Json::text("string"))
                        .with("minLength", Json::uint(1))
                        .with("maxLength", Json::uint(65536))
                        .object(),
                )
                .with(
                    "mode",
                    JsonMap::new()
                        .with("enum", list2("exact", "contains"))
                        .object(),
                )
                .with(
                    "caseSensitive",
                    JsonMap::new()
                        .with("type", Json::text("boolean"))
                        .object(),
                )
                .object(),
        )
        .object()
}

/// The schema of an element selector.
pub open spec fn element_selector_form() -> JsonV {
    Members::none()
        .with("type"@, JsonV::Text("object"@))
        .with("additionalProperties"@, JsonV::Bool(false))
        .with(
            "properties"@,
            Members::none()
                .with("context"@, selector_context_form())
                .with(
                    "role"@,
                    Members::none()
                        .with("type"@, JsonV::Text("string"@))
                        .with("minLength"@, json::uint(1))
                        .with("maxLength"@, json::uint(256))
                        .object(),
                )
                .with(
                    "name"@,
                    Members::none()
                        .with("type"@, JsonV::Text("string"@))
                        .with("minLength"@, json::uint(1))
                        .with("maxLength"@, json::uint(65536))
                        .object(),
                )
                .with(
                    "value"@,
                    Members::none()
                        .with("type"@, JsonV::Text("string"@))
                        .with("maxLength"@, json::uint(65536))
                        .object(),
                )
                .with(
                    "identifier"@,
                    Members::none()
                        .with("type"@, JsonV::Text("string"@))
                        .with("minLength"@, json::uint(1))
                        .with("maxLength"@, json::uint(4096))
                        .object(),
                )
                .with("text"@, selector_text_form())
                .with(
                    "css"@,
                    Members::none()
                        .with("type"@, JsonV::Text("string"@))
                        .with("minLength"@, json::uint(1))
                        .with("maxLength"@, json::uint(65536))
                        .object(),
                )
                .object(),
        )
        .object()
}

fn element_selector_schema() -> (r: Json)
    ensures
        r@ == element_selector_form(),
{
    JsonMap::new()
        .with("type", Json::text("object"))
        .with("additionalProperties", Json::Bool(false))
        .with(
            "properties",
            JsonMap::new()
                .with("context", selector_context_schema())
                .with(
                    "role",
                    JsonMap::new()
                        .with("type", Json::text("string"))
                        .with("minLength", Json::uint(1))
                        .with("maxLength", Json::uint(256))
                        .object(),
                )
                .with(
                    "name",
                    JsonMap::new()
                        .with("type", Json::text("string"))
                        .with("minLength", Json::uint(1))
                        .with("maxLength", Json::uint(65536))
                        .object(),
                )
                .with(
                    "value",
                    JsonMap::new()
                        .with("type", Json::text("string"))
                        .with("maxLength", Json::uint(65536))
                        .object(),
                )
                .with(
                    "identifier",
                    JsonMap::new()
                        .with("type", Json::text("string"))
                        .with("minLength", Json::uint(1))
                        .with("maxLength", Json::uint(4096))
                        .object(),
                )
                .with("text", selector_text_schema())
                .with(
                    "css",
                    JsonMap::new()
                        .with("type", Json::text("string"))
                        .with("minLength", Json::uint(1))
                        .with("maxLength", Json::uint(65536))
                        .object(),
                )
                .object(),
        )
        .object()
}

/// The schema of the context of a node, with the token that tells a stale node.
pub open spec fn node_context_form() -> JsonV {
    Members::none()
        .with("type"@, JsonV::Text("object"@))
        .with("additionalProperties"@, JsonV::Bool(false))
        .with("required"@, json::text_array(seq!["contextKind"@, "contextId"@, "documentEpoch"@]))
        .with(
            "properties"@,
            Members::none()
                .with(
                    "contextKind"@,
                    Members::none()
                        .with("enum"@, json::text_array(seq!["native"@, "web"@]))
                        .object(),
                )
                .with(
                    "contextId"@,
                    Members::none()
                        .with("type"@, JsonV::Text("string"@))
                        .with("minLength"@, json::uint(1))
                        .with("maxLength"@, json::uint(4096))
                        .object(),
                )
                .with(
                    "documentEpoch"@,
                    Members::none()
                        .with("type"@, JsonV::Text("string"@))
                        .with("minLength"@, json::uint(1))
                        .with("maxLength"@, json::uint(4096))
                        .object(),
                )
                .object(),
        )
        .object()
}

fn node_context_schema() -> (r: Json)
    ensures
        r@ == node_context_form(),
{
    JsonMap::new()
        .with("type", Json::text("object"))
        .with("additionalProperties", Json::Bool(false))
        .with("required", list3("contextKind", "contextId", "documentEpoch"))
        .with(
            "properties",
            JsonMap::new()
                .with(
                    "contextKind",
                    JsonMap::new()
                        .with("enum", list2("native", "web"))
                        .object(),
                )
                .with(
                    "contextId",
                    JsonMap::new()
                        .with("type", Json::text("string"))
                        .with("minLength", Json::uint(1))
                        .with("maxLength", Json::uint(4096))
                        .object(),
                )
                .with(
                    "documentEpoch",
                    JsonMap::new()
                        .with("type", Json::text("string"))
                        .with("minLength", Json::uint(1))
                        .with("maxLength", Json::uint(4096))
                        .object(),
                )
                .object(),
        )
        .object()
}

/// The schema of a reference to a node.
pub open spec fn ui_node_ref_form() -> JsonV {
    Members::none()
        .with("type"@, JsonV::Text("object"@))
        .with("additionalProperties"@, JsonV::Bool(false))
        .with("required"@, json::text_array(seq!["observationId"@, "context"@, "stableNodeId"@]))
        .with(
            "properties"@,
            Members::none()
                .with(
                    "observationId"@,
                    Members::none()
                        .with("type"@, JsonV::Text("string"@))
                        .with("format"@, JsonV::Text("uuid"@))
                        .object(),
                )
                .with("context"@, node_context_form())
                .with(
                    "stableNodeId"@,
                    Members::none()
                        .with("type"@, JsonV::Text("string"@))
                        .with("minLength"@, json::uint(1))
                        .with("maxLength"@, json::uint(4096))
                        .object(),
                )
                .object(),
        )
        .object()
}

fn ui_node_ref_schema() -> (r: Json)
    ensures
        r@ == ui_node_ref_form(),
{
    JsonMap::new()
        .with("type", Json::text("object"))
        .with("additionalProperties", Json::Bool(false))
        .with("required", list3("observationId", "context", "stableNodeId"))
        .with(
            "properties",
            JsonMap::new()
                .with(
                    "observationId",
                    JsonMap::new()
                        .with("type", Json::text("string"))
                        .with("format", Json::text("uuid"))
                        .object(),
                )
                .with("context", node_context_schema())
                .with(
                    "stableNodeId",
                    JsonMap::new()
                        .with("type", Json::text("string"))
                        .with("minLength", Json::uint(1))
                        .with("maxLength", Json::uint(4096))
                        .object(),
                )
                .object(),
        )
        .object()
}

/// The schema of a reference to an asset.
pub open spec fn asset_ref_form() -> JsonV {
    Members::none()
        .with("type"@, JsonV::Text("object"@))
        .with("additionalProperties"@, JsonV::Bool(false))
        .with("required"@, json::text_array(seq!["id"@, "mediaType"@, "uri"@]))
        .with(
            "properties"@,
            Members::none()
                .with(
                    "id"@,
                    Members::none()
                        .with("type"@, JsonV::Text("string"@))
                        .with("minLength"@, json::uint(1))
                        .with("maxLength"@, json::uint(4096))
                        .object(),
                )
                .with(
                    "mediaType"@,
                    Members::none()
                        .with("type"@, JsonV::Text("string"@))
                        .with("minLength"@, json::uint(1))
                        .with("maxLength"@, json::uint(255))
                        .object(),
                )
                .with(
                    "uri"@,
                    Members::none()
                        .with("type"@, JsonV::Text("string"@))
                        .with("minLength"@, json::uint(1))
                        .with("maxLength"@, json::uint(8192))
                        .object(),
                )
                .with(
                    "sha256"@,
                    Members::none()
                        .with("type"@, JsonV::Text("string"@))
                        .with("pattern"@, JsonV::Text("^sha256:[0-9a-f]{64}$"@))
                        .object(),
                )
                .object(),
        )
        .object()
}

fn asset_ref_schema() -> (r: Json)
    ensures
        r@ == asset_ref_form(),
{
    JsonMap::new()
        .with("type", Json::text("object"))
        .with("additionalProperties", Json::Bool(false))
        .with("required", list3("id", "mediaType", "uri"))
        .with(
            "properties",
            JsonMap::new()
                .with(
                    "id",
                    JsonMap::new()
                        .with("type", Json::text("string"))
                        .with("minLength", Json::uint(1))
                        .with("maxLength", Json::uint(4096))
                        .object(),
                )
                .with(
                    "mediaType",
                    JsonMap::new()
                        .with("type", Json::text("string"))
                        .with("minLength", Json::uint(1))
                        .with("maxLength", Json::uint(255))
                        .object(),
                )
                .with(
                    "uri",
                    JsonMap::new()
                        .with("type", Json::text("string"))
                        .with("minLength", Json::uint(1))
                        .with("maxLength", Json::uint(8192))
                        .object(),
                )
                .with(
                    "sha256",
                    JsonMap::new()
                        .with("type", Json::text("string"))
                        .with("pattern", Json::text("^sha256:[0-9a-f]{64}$"))
                        .object(),
                )
                .object(),
        )
        .object()
}

/// The schema of a reference to a UI snapshot.
pub open spec fn snapshot_ref_form() -> JsonV {
    Members::none()
        .with("type"@, JsonV::Text("object"@))
        .with("additionalProperties"@, JsonV::Bool(false))
        .with("required"@, json::text_array(seq!["observationId"@]))
        .with(
            "properties"@,
            Members::none()
                .with(
                    "observationId"@,
                    Members::none()
                        .with("type"@, JsonV::Text("string"@))
                        .with("minLength"@, json::uint(1))
                        .with("maxLength"@, json::uint(4096))
                        .object(),
                )
                .object(),
        )
        .object()
}

fn snapshot_ref_schema() -> (r: Json)
    ensures
        r@ == snapshot_ref_form(),
{
    JsonMap::new()
        .with("type", Json::text("object"))
        .with("additionalProperties", Json::Bool(false))
        .with("required", list1("observationId"))
        .with(
            "properties",
            JsonMap::new()
                .with(
                    "observationId",
                    JsonMap::new()
                        .with("type", Json::text("string"))
                        .with("minLength", Json::uint(1))
                        .with("maxLength", Json::uint(4096))
                        .object(),
                )
                .object(),
        )
        .object()
}

/// The schema of what an observation action gives back: the id of the
/// observation, and each part with the reason why it may be missing.
pub open spec fn observation_projection_form(screenshot: bool, ui_snapshot: bool) -> JsonV {
    let id = Members::none().with("observationId"@, Members::none()
        .with("type"@, JsonV::Text("string"@))
        .with("minLength"@, json::uint(1))
        .with("maxLength"@, json::uint(4096))
        .object());
    let seen = if screenshot {
        id
            .with("screenshot"@, asset_ref_form())
            .with(
                "screenshotOmission"@,
                Members::none()
                    .with("enum"@, json::text_array(seq!["policy"@, "protectedAction"@]))
                    .object(),
            )
    } else {
        id
    };
    let all = if ui_snapshot {
        seen
            .with("uiSnapshot"@, snapshot_ref_form())
            .with(
                "uiSnapshotOmission"@,
                Members::none()
                    .with(
                        "enum"@,
                        json::text_array(seq!["driverUnsupported"@, "policy"@, "protectedAction"@]),
                    )
                    .object(),
            )
    } else {
        seen
    };
    Members::none()
        .with("type"@, JsonV::Text("object"@))
        .with("additionalProperties"@, JsonV::Bool(false))
        .with("required"@, json::text_array(seq!["observationId"@]))
        .with("properties"@, all.object())
        .object()
}

fn observation_projection_schema(screenshot: bool, ui_snapshot: bool) -> (r: Json)
    ensures
        r@ == observation_projection_form(screenshot, ui_snapshot),
{
    let id = JsonMap::new().with("observationId", JsonMap::new()
        .with("type", Json::text("string"))
        .with("minLength", Json::uint(1))
        .with("maxLength", Json::uint(4096))
        .object());
    let seen = if screenshot {
        id
            .with("screenshot", asset_ref_schema())
            .with(
                "screenshotOmission",
                JsonMap::new().with("enum", list2("policy", "protectedAction")).object(),
            )
    } else {
        id
    };
    let all = if ui_snapshot {
        let reasons = list3("driverUnsupported", "policy", "protectedAction");
        seen
            .with("uiSnapshot", snapshot_ref_schema())
            .with("uiSnapshotOmission", JsonMap::new().with("enum", reasons).object())
    } else {
        seen
    };
    JsonMap::new()
        .with("type", Json::text("object"))
        .with("additionalProperties", Json::Bool(false))
        .with("required", list1("observationId"))
        .with("properties", all.object())
        .object()
}

/// The schema of a target that a selector names.
pub open spec fn target_selector_form() -> JsonV {
    Members::none()
        .with("type"@, JsonV::Text("object"@))
        .with("additionalProperties"@, JsonV::Bool(false))
        .with("required"@, json::text_array(seq!["kind"@, "selector"@]))
        .with(
            "properties"@,
            Members::none()
                .with(
                    "kind"@,
                    Members::none()
                        .with("const"@, JsonV::Text("selector"@))
                        .object(),
                )
                .with("selector"@, element_selector_form())
                .object(),
        )
        .object()
}

fn target_selector_schema() -> (r: Json)
    ensures
        r@ == target_selector_form(),
{
    JsonMap::new()
        .with("type", Json::text("object"))
        .with("additionalProperties", Json::Bool(false))
        .with("required", list2("kind", "selector"))
        .with(
            "properties",
            JsonMap::new()
                .with(
                    "kind",
                    JsonMap::new()
                        .with("const", Json::text("selector"))
                        .object(),
                )
                .with("selector", element_selector_schema())
                .object(),
        )
        .object()
}

/// The schema of a target that a node reference names.
pub open spec fn target_node_form() -> JsonV {
    Members::none()
        .with("type"@, JsonV::Text("object"@))
        .with("additionalProperties"@, JsonV::Bool(false))
        .with("required"@, json::text_array(seq!["kind"@, "node"@]))
        .with(
            "properties"@,
            Members::none()
                .with(
                    "kind"@,
                    Members::none()
                        .with("const"@, JsonV::Text("node"@))
                        .object(),
                )
                .with("node"@, ui_node_ref_form())
                .object(),
        )
        .object()
}

fn target_node_schema() -> (r: Json)
    ensures
        r@ == target_node_form(),
{
    JsonMap::new()
        .with("type", Json::text("object"))
        .with("additionalProperties", Json::Bool(false))
        .with("required", list2("kind", "node"))
        .with(
            "properties",
            JsonMap::new()
                .with(
                    "kind",
                    JsonMap::new()
                        .with("const", Json::text("node"))
                        .object(),
                )
                .with("node", ui_node_ref_schema())
                .object(),
        )
        .object()
}

/// The schema of an element target: a selector or a node.
pub open spec fn element_target_form() -> JsonV {
    Members::none()
        .with("oneOf"@, JsonV::Array(seq![target_selector_form(), target_node_form()]))
        .object()
}

fn element_target_schema() -> (r: Json)
    ensures
        r@ == element_target_form(),
{
    let forms = vec![target_selector_schema(), target_node_schema()];
    assert(json::json_views(forms@) =~= seq![target_selector_form(), target_node_form()]);
    JsonMap::new().with("oneOf", Json::array(forms)).object()
}

/// The schema of arguments that name a target.
pub open spec fn target_input_form() -> JsonV {
    Members::none()
        .with("type"@, JsonV::Text("object"@))
        .with("additionalProperties"@, JsonV::Bool(false))
        .with("required"@, json::text_array(seq!["target"@]))
        .with(
            "properties"@,
            Members::none()
                .with("target"@, element_target_form())
                .object(),
        )
        .object()
}

fn target_input_schema() -> (r: Json)
    ensures
        r@ == target_input_form(),
{
    JsonMap::new()
        .with("type", Json::text("object"))
        .with("additionalProperties", Json::Bool(false))
        .with("required", list1("target"))
        .with(
            "properties",
            JsonMap::new()
                .with("target", element_target_schema())
                .object(),
        )
        .object()
}

/// The schema of arguments that name a selector.
pub open spec fn selector_input_form() -> JsonV {
    Members::none()
        .with("type"@, JsonV::Text("object"@))
        .with("additionalProperties"@, JsonV::Bool(false))
        .with("required"@, json::text_array(seq!["selector"@]))
        .with(
            "properties"@,
            Members::none()
                .with("selector"@, element_selector_form())
                .object(),
        )
        .object()
}

fn selector_input_schema() -> (r: Json)
    ensures
        r@ == selector_input_form(),
{
    JsonMap::new()
        .with("type", Json::text("object"))
        .with("additionalProperties", Json::Bool(false))
        .with("required", list1("selector"))
        .with(
            "properties",
            JsonMap::new()
                .with("selector", element_selector_schema())
                .object(),
        )
        .object()
}

/// The schema of arguments that name a target and a value.
pub open spec fn value_input_form() -> JsonV {
    Members::none()
        .with("type"@, JsonV::Text("object"@))
        .with("additionalProperties"@, JsonV::Bool(false))
        .with("required"@, json::text_array(seq!["target"@, "value"@]))
        .with(
            "properties"@,
            Members::none()
                .with("target"@, element_target_form())
                .with(
                    "value"@,
                    Members::none()
                        .with("type"@, JsonV::Text("string"@))
                        .with("maxLength"@, json::uint(65536))
                        .object(),
                )
                .object(),
        )
        .object()
}

fn value_input_schema() -> (r: Json)
    ensures
        r@ == value_input_form(),
{
    JsonMap::new()
        .with("type", Json::text("object"))
        .with("additionalProperties", Json::Bool(false))
        .with("required", list2("target", "value"))
        .with(
            "properties",
            JsonMap::new()
                .with("target", element_target_schema())
                .with(
                    "value",
                    JsonMap::new()
                        .with("type", Json::text("string"))
                        .with("maxLength", Json::uint(65536))
                        .object(),
                )
                .object(),
        )
        .object()
}

/// The schema of arguments that name a selector and a condition.
pub open spec fn wait_input_form() -> JsonV {
    Members::none()
        .with("type"@, JsonV::Text("object"@))
        .with("additionalProperties"@, JsonV::Bool(false))
        .with("required"@, json::text_array(seq!["selector"@]))
        .with(
            "properties"@,
            Members::none()
                .with("selector"@, element_selector_form())
                .with(
                    "condition"@,
                    Members::none()
                        .with(
                            "enum"@,
                            json::text_array(seq!["present"@, "visible"@, "enabled"@, "absent"@]),
                        )
                        .object(),
                )
                .object(),
        )
        .object()
}

fn wait_input_schema() -> (r: Json)
    ensures
        r@ == wait_input_form(),
{
    JsonMap::new()
        .with("type", Json::text("object"))
        .with("additionalProperties", Json::Bool(false))
        .with("required", list1("selector"))
        .with(
            "properties",
            JsonMap::new()
                .with("selector", element_selector_schema())
                .with(
                    "condition",
                    JsonMap::new()
                        .with("enum", list4("present", "visible", "enabled", "absent"))
                        .object(),
                )
                .object(),
        )
        .object()
}

/// The schema of an output that names an element.
pub open spec fn element_output_form() -> JsonV {
    Members::none()
        .with("type"@, JsonV::Text("object"@))
        .with("additionalProperties"@, JsonV::Bool(false))
        .with("required"@, json::text_array(seq!["element"@]))
        .with(
            "properties"@,
            Members::none()
                .with("element"@, ui_node_ref_form())
                .object(),
        )
        .object()
}

fn element_output_schema() -> (r: Json)
    ensures
        r@ == element_output_form(),
{
    JsonMap::new()
        .with("type", Json::text("object"))
        .with("additionalProperties", Json::Bool(false))
        .with("required", list1("element"))
        .with(
            "properties",
            JsonMap::new()
                .with("element", ui_node_ref_schema())
                .object(),
        )
        .object()
}

/// The schema of the output of a wait. No match is a success with `matched` false.
pub open spec fn wait_output_form() -> JsonV {
    Members::none()
        .with("type"@, JsonV::Text("object"@))
        .with("additionalProperties"@, JsonV::Bool(false))
        .with("required"@, json::text_array(seq!["matched"@, "condition"@]))
        .with(
            "properties"@,
            Members::none()
                .with(
                    "matched"@,
                    Members::none()
                        .with("type"@, JsonV::Text("boolean"@))
                        .object(),
                )
                .with(
                    "condition"@,
                    Members::none()
                        .with(
                            "enum"@,
                            json::text_array(seq!["present"@, "visible"@, "enabled"@, "absent"@]),
                        )
                        .object(),
                )
                .with("element"@, ui_node_ref_form())
                .object(),
        )
        .object()
}

fn wait_output_schema() -> (r: Json)
    ensures
        r@ == wait_output_form(),
{
    JsonMap::new()
        .with("type", Json::text("object"))
        .with("additionalProperties", Json::Bool(false))
        .with("required", list2("matched", "condition"))
        .with(
            "properties",
            JsonMap::new()
                .with(
                    "matched",
                    JsonMap::new()
                        .with("type", Json::text("boolean"))
                        .object(),
                )
                .with(
                    "condition",
                    JsonMap::new()
                        .with("enum", list4("present", "visible", "enabled", "absent"))
                        .object(),
                )
                .with("element", ui_node_ref_schema())
                .object(),
        )
        .object()
}

/// The schema of the arguments of `observe`: a non-empty list of parts.
pub open spec fn observe_input_form() -> JsonV {
    Members::none()
        .with("type"@, JsonV::Text("object"@))
        .with("additionalProperties"@, JsonV::Bool(false))
        .with("required"@, json::text_array(seq!["wants"@]))
        .with(
            "properties"@,
            Members::none()
                .with(
                    "wants"@,
                    Members::none()
                        .with("type"@, JsonV::Text("array"@))
                        .with("minItems"@, json::uint(1))
                        .with("uniqueItems"@, JsonV::Bool(true))
                        .with(
                            "items"@,
                            Members::none()
                                .with("enum"@, json::text_array(seq!["screenshot"@, "uiSnapshot"@]))
                                .object(),
                        )
                        .object(),
                )
                .object(),
        )
        .object()
}

fn observe_input_schema() -> (r: Json)
    ensures
        r@ == observe_input_form(),
{
    JsonMap::new()
        .with("type", Json::text("object"))
        .with("additionalProperties", Json::Bool(false))
        .with("required", list1("wants"))
        .with(
            "properties",
            JsonMap::new()
                .with(
                    "wants",
                    JsonMap::new()
                        .with("type", Json::text("array"))
                        .with("minItems", Json::uint(1))
                        .with("uniqueItems", Json::Bool(true))
                        .with(
                            "items",
                            JsonMap::new()
                                .with("enum", list2("screenshot", "uiSnapshot"))
                                .object(),
                        )
                        .object(),
                )
                .object(),
        )
        .object()
}

/// The schema of an action without arguments.
pub open spec fn no_input_form() -> JsonV {
    Members::none()
        .with("type"@, JsonV::Text("object"@))
        .with("additionalProperties"@, JsonV::Bool(false))
        .with("properties"@, Members::none().object())
        .object()
}

fn no_input_schema() -> (r: Json)
    ensures
        r@ == no_input_form(),
{
    JsonMap::new()
        .with("type", Json::text("object"))
        .with("additionalProperties", Json::Bool(false))
        .with("properties", JsonMap::new().object())
        .object()
}

/// The JSON form of an action.
pub open spec fn action_form(
    name: Seq<char>,
    input: JsonV,
    output: JsonV,
    synthetic: bool,
) -> JsonV {
    Members::none()
        .with("name"@, JsonV::Text(name))
        .with("inputSchema"@, input)
        .with_some("outputSchema"@, Some(output))
        .with("protection"@, JsonV::Text("standard"@))
        .with_some("synthetic"@, wire::wire_if_true(synthetic))
        .object()
}

fn define(name: &str, input: Json, output: Json, synthetic: bool) -> (r: ActionDefinitionStatic)
    requires
        primitives::action_name_fault(name@) is None,
        primitives::is_schema_document(input@),
        primitives::is_schema_document(output@),
    ensures
        r.wire_json() == action_form(name@, input@, output@, synthetic),
{
    ActionDefinitionStatic {
        name: action(name),
        input_schema: schema(input),
        output_schema: Some(schema(output)),
        protection: ActionProtection::Standard,
        synthetic,
    }
}

/// The actions on elements.
pub open spec fn semantic_actions_form() -> Seq<JsonV> {
    seq![
        action_form("findElement"@, selector_input_form(), element_output_form(), false),
        action_form("tapElement"@, target_input_form(), element_output_form(), false),
        action_form("clearElement"@, target_input_form(), element_output_form(), false),
        action_form("setElementValue"@, value_input_form(), element_output_form(), false),
        action_form("waitForElement"@, wait_input_form(), wait_output_form(), false),
    ]
}

fn semantic_actions() -> (r: Vec<ActionDefinitionStatic>)
    ensures
        wire::wire_items(r@) == semantic_actions_form(),
{
    proof {
        names::lemma_find_element();
        names::lemma_tap_element();
        names::lemma_clear_element();
        names::lemma_set_element_value();
        names::lemma_wait_for_element();
    }
    let r = vec![
        define("findElement", selector_input_schema(), element_output_schema(), false),
        define("tapElement", target_input_schema(), element_output_schema(), false),
        define("clearElement", target_input_schema(), element_output_schema(), false),
        define("setElementValue", value_input_schema(), element_output_schema(), false),
        define("waitForElement", wait_input_schema(), wait_output_schema(), false),
    ];
    assert(wire::wire_items(r@) =~= semantic_actions_form());
    r
}

/// The actions that the provider serves by an observation. They change
/// nothing, so they can always be replayed.
pub open spec fn synthetic_observation_actions_form() -> Seq<JsonV> {
    seq![
        action_form("observe"@, observe_input_form(), observation_projection_form(true, true), true),
        action_form("screenshot"@, no_input_form(), observation_projection_form(true, false), true),
    ]
}

fn synthetic_observation_actions() -> (r: Vec<ActionDefinitionStatic>)
    ensures
        wire::wire_items(r@) == synthetic_observation_actions_form(),
{
    proof {
        names::lemma_observe();
        names::lemma_screenshot();
    }
    let r = vec![
        define("observe", observe_input_schema(), observation_projection_schema(true, true), true),
        define("screenshot", no_input_schema(), observation_projection_schema(true, false), true),
    ];
    assert(wire::wire_items(r@) =~= synthetic_observation_actions_form());
    r
}

/// The JSON form of a feature that the daemon may enable on every platform.
pub open spec fn anywhere_form(feature: Seq<char>) -> JsonV {
    Members::none()
        .with("feature"@, JsonV::Text(feature))
        .with_some("requiresPlatform"@, None)
        .object()
}

/// The JSON form of a feature that needs a driver for semantic UI.
pub open spec fn semantic_form(feature: Seq<char>) -> JsonV {
    Members::none()
        .with("feature"@, JsonV::Text(feature))
        .with_some(
            "requiresPlatform"@,
            Some(
                JsonV::Array(
                    seq![
                        PlatformKind::Android.wire_json(),
                        PlatformKind::Ios.wire_json(),
                        PlatformKind::HarmonyOs.wire_json(),
                    ],
                ),
            ),
        )
        .object()
}

fn anywhere(id: &str) -> (r: ConditionalFeature)
    requires
        primitives::feature_id_fault(id@) is None,
    ensures
        r.wire_json() == anywhere_form(id@),
{
    ConditionalFeature { feature: feature(id), requires_platform: None }
}

fn with_semantic_driver(id: &str) -> (r: ConditionalFeature)
    requires
        primitives::feature_id_fault(id@) is None,
    ensures
        r.wire_json() == semantic_form(id@),
{
    let platforms = vec![PlatformKind::Android, PlatformKind::Ios, PlatformKind::HarmonyOs];
    assert(wire::wire_items(platforms@) =~= seq![
        PlatformKind::Android.wire_json(),
        PlatformKind::Ios.wire_json(),
        PlatformKind::HarmonyOs.wire_json(),
    ]);
    ConditionalFeature { feature: feature(id), requires_platform: Some(platforms) }
}

/// The features that a daemon may enable. None is guaranteed: what is enabled
/// is in the lockfile.
pub open spec fn conditional_features_form() -> Seq<JsonV> {
    seq![
        anywhere_form("device.routing.v1"@),
        anywhere_form("events.snapshot.v1"@),
        anywhere_form("request.control.v1"@),
        anywhere_form("verdict.record.v1"@),
        anywhere_form("session.export.page.v1"@),
        anywhere_form("events.stream.v1"@),
        anywhere_form("media.stream.v1"@),
        semantic_form("device.semanticActions.v1"@),
        semantic_form("observation.uiSnapshot.v1"@),
    ]
}

fn conditional_features() -> (r: Vec<ConditionalFeature>)
    ensures
        wire::wire_items(r@) == conditional_features_form(),
{
    proof {
        names::lemma_device_routing_v1();
        names::lemma_events_snapshot_v1();
        names::lemma_request_control_v1();
        names::lemma_verdict_record_v1();
        names::lemma_session_export_page_v1();
        names::lemma_events_stream_v1();
        names::lemma_media_stream_v1();
        names::lemma_device_semantic_actions_v1();
        names::lemma_observation_ui_snapshot_v1();
    }
    let r = vec![
        anywhere("device.routing.v1"),
        anywhere("events.snapshot.v1"),
        anywhere("request.control.v1"),
        anywhere("verdict.record.v1"),
        anywhere("session.export.page.v1"),
        anywhere("events.stream.v1"),
        anywhere("media.stream.v1"),
        with_semantic_driver("device.semanticActions.v1"),
        with_semantic_driver("observation.uiSnapshot.v1"),
    ];
    assert(wire::wire_items(r@) =~= conditional_features_form());
    r
}

/// The JSON form of a verb binding.
pub open spec fn binding_form(
    verb: CanonicalVerb,
    name: Seq<char>,
    feature: Option<Seq<char>>,
    args: Members,
) -> JsonV {
    Members::none()
        .with("verb"@, verb.wire_json())
        .with("actionName"@, JsonV::Text(name))
        .with_some(
            "requiresFeature"@,
            match feature {
                Some(id) => Some(JsonV::Text(id)),
                None => None,
            },
        )
        .with("argMap"@, args.object())
        .object()
}

fn bind(verb: CanonicalVerb, name: &str, requires_feature: Option<FeatureId>, arg_map: TextMap<String>) -> (r:
    VerbBinding)
    requires
        primitives::action_name_fault(name@) is None,
    ensures
        r.wire_json() == binding_form(
            verb,
            name@,
            match requires_feature {
                Some(id) => Some(id@),
                None => None,
            },
            wire::wire_members(arg_map@.entries),
        ),
{
    VerbBinding { verb, action_name: action(name), requires_feature, arg_map }
}

/// One argument: the surface name and the native name.
pub open spec fn one_arg(surface: Seq<char>, native: Seq<char>) -> Members {
    Members::none().with(surface, JsonV::Text(native))
}

fn no_args() -> (r: TextMap<String>)
    ensures
        wire::wire_members(r@.entries) == Members::none(),
{
    TextMap::new()
}

fn with_arg(args: TextMap<String>, surface: &str, native: &str) -> (r: TextMap<String>)
    ensures
        wire::wire_members(r@.entries) == wire::wire_members(args@.entries).with(
            surface@,
            JsonV::Text(native@),
        ),
{
    let value = native.to_owned();
    proof {
        let form = |v: String| v.wire_json();
        keyed::lemma_mapped(args@, form, surface@, value);
    }
    args.in_order();
    let ghost before = args@;
    let r = args.with(surface, value);
    r.in_order();
    proof {
        wire::lemma_wire_members(before);
        wire::lemma_wire_members(r@);
    }
    r
}

/// The verb bindings: surface argument names on the left, native ones on the
/// right. A tap is bound twice, by element and by coordinates.
pub open spec fn verb_bindings_form() -> Seq<JsonV> {
    let semantic = Some("device.semanticActions.v1"@);
    seq![
        binding_form(
            CanonicalVerb::Tap,
            "tapElement"@,
            semantic,
            one_arg("element"@, "target"@),
        ),
        binding_form(
            CanonicalVerb::SetValue,
            "setElementValue"@,
            semantic,
            one_arg("element"@, "target"@).with("value"@, JsonV::Text("value"@)),
        ),
        binding_form(
            CanonicalVerb::Clear,
            "clearElement"@,
            semantic,
            one_arg("element"@, "target"@),
        ),
        binding_form(
            CanonicalVerb::WaitFor,
            "waitForElement"@,
            semantic,
            one_arg("element"@, "selector"@).with("state"@, JsonV::Text("condition"@)),
        ),
        binding_form(
            CanonicalVerb::Find,
            "findElement"@,
            semantic,
            one_arg("element"@, "selector"@),
        ),
        binding_form(
            CanonicalVerb::Observe,
            "observe"@,
            None,
            one_arg("wants"@, "wants"@),
        ),
        binding_form(
            CanonicalVerb::Screenshot,
            "screenshot"@,
            None,
            Members::none(),
        ),
        binding_form(
            CanonicalVerb::Tap,
            "tap"@,
            None,
            one_arg("x"@, "x"@).with("y"@, JsonV::Text("y"@)),
        ),
    ]
}

fn semantic_feature() -> (r: Option<FeatureId>)
    ensures
        r matches Some(id) && id@ == "device.semanticActions.v1"@,
{
    proof {
        names::lemma_device_semantic_actions_v1();
    }
    Some(feature("device.semanticActions.v1"))
}

fn verb_bindings() -> (r: Vec<VerbBinding>)
    ensures
        wire::wire_items(r@) == verb_bindings_form(),
{
    proof {
        names::lemma_clear_element();
        names::lemma_find_element();
        names::lemma_observe();
        names::lemma_screenshot();
        names::lemma_set_element_value();
        names::lemma_tap();
        names::lemma_tap_element();
        names::lemma_wait_for_element();
    }
    let r = vec![
        bind(
            CanonicalVerb::Tap,
            "tapElement",
            semantic_feature(),
            with_arg(no_args(), "element", "target"),
        ),
        bind(
            CanonicalVerb::SetValue,
            "setElementValue",
            semantic_feature(),
            with_arg(with_arg(no_args(), "element", "target"), "value", "value"),
        ),
        bind(
            CanonicalVerb::Clear,
            "clearElement",
            semantic_feature(),
            with_arg(no_args(), "element", "target"),
        ),
        bind(
            CanonicalVerb::WaitFor,
            "waitForElement",
            semantic_feature(),
            with_arg(with_arg(no_args(), "element", "selector"), "state", "condition"),
        ),
        bind(
            CanonicalVerb::Find,
            "findElement",
            semantic_feature(),
            with_arg(no_args(), "element", "selector"),
        ),
        bind(
            CanonicalVerb::Observe,
            "observe",
            None,
            with_arg(no_args(), "wants", "wants"),
        ),
        bind(
            CanonicalVerb::Screenshot,
            "screenshot",
            None,
            no_args(),
        ),
        bind(
            CanonicalVerb::Tap,
            "tap",
            None,
            with_arg(with_arg(no_args(), "x", "x"), "y", "y"),
        ),
    ];
    assert(wire::wire_items(r@) =~= verb_bindings_form());
    r
}

/// The JSON form of a channel.
pub open spec fn channel_form(
    channel: Channel,
    role: ChannelRole,
    feature: Option<Seq<char>>,
) -> JsonV {
    Members::none()
        .with("channel"@, channel.wire_json())
        .with("role"@, role.wire_json())
        .with_some(
            "requiresFeature"@,
            match feature {
                Some(id) => Some(JsonV::Text(id)),
                None => None,
            },
        )
        .with_some("requiresPlatform"@, None)
        .object()
}

fn support(channel: Channel, role: ChannelRole, requires_feature: Option<FeatureId>) -> (r:
    ChannelSupport)
    ensures
        r.wire_json() == channel_form(
            channel,
            role,
            match requires_feature {
                Some(id) => Some(id@),
                None => None,
            },
        ),
{
    ChannelSupport { channel, role, requires_feature, requires_platform: None }
}

/// The channels: the UI tree and the DOM act and verify, coordinates only act,
/// and vision only verifies.
pub open spec fn channels_form() -> Seq<JsonV> {
    seq![
        channel_form(Channel::UiTree, ChannelRole::Both, Some("observation.uiSnapshot.v1"@)),
        channel_form(Channel::Dom, ChannelRole::Both, Some("device.semanticActions.v1"@)),
        channel_form(Channel::Coordinate, ChannelRole::Act, None),
        channel_form(Channel::Vision, ChannelRole::Verify, None),
    ]
}

fn channels() -> (r: Vec<ChannelSupport>)
    ensures
        wire::wire_items(r@) == channels_form(),
{
    proof {
        names::lemma_observation_ui_snapshot_v1();
    }
    let r = vec![
        support(
            Channel::UiTree,
            ChannelRole::Both,
            Some(feature("observation.uiSnapshot.v1")),
        ),
        support(Channel::Dom, ChannelRole::Both, semantic_feature()),
        support(Channel::Coordinate, ChannelRole::Act, None),
        support(Channel::Vision, ChannelRole::Verify, None),
    ];
    assert(wire::wire_items(r@) =~= channels_form());
    r
}

/// The JSON form of the manifest.
pub open spec fn manifest_form() -> JsonV {
    Members::none()
        .with("name"@, JsonV::Text(PROVIDER_NAME@))
        .with("version"@, JsonV::Text(PROVIDER_VERSION@))
        .with("protocol"@, (ProtocolRange { major: 1, min_minor: 5, max_minor: 5 }).wire_json())
        .with(
            "features"@,
            Members::none()
                .with("guaranteed"@, JsonV::Array(Seq::empty()))
                .with("conditional"@, JsonV::Array(conditional_features_form()))
                .object(),
        )
        .with("verbBindings"@, JsonV::Array(verb_bindings_form()))
        .with("channels"@, JsonV::Array(channels_form()))
        .with(
            "knownActions"@,
            JsonV::Array(semantic_actions_form() + synthetic_observation_actions_form()),
        )
        .object()
}

/// The manifest of the provider.
pub fn devicerail_manifest() -> (r: ProviderManifest)
    ensures
        r.wire_json() == manifest_form(),
{
    let guaranteed: Vec<FeatureId> = Vec::new();
    assert(wire::wire_items(guaranteed@) =~= Seq::empty());
    let mut known_actions = semantic_actions();
    let ghost semantic = known_actions@;
    let mut synthetic = synthetic_observation_actions();
    let ghost observing = synthetic@;
    known_actions.append(&mut synthetic);
    assert(known_actions@ =~= semantic + observing);
    assert(wire::wire_items(known_actions@) =~= wire::wire_items(semantic) + wire::wire_items(
        observing,
    ));
    ProviderManifest {
        name: PROVIDER_NAME.to_owned(),
        version: PROVIDER_VERSION.to_owned(),
        protocol: ProtocolRange { major: 1, min_minor: 5, max_minor: 5 },
        features: FeatureDeclarations { guaranteed, conditional: conditional_features() },
        verb_bindings: verb_bindings(),
        channels: channels(),
        known_actions,
    }
}

} // verus!
