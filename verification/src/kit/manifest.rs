//! The static capability declaration that ships with a provider.

use vstd::prelude::*;

use crate::ir::primitives::{ActionName, FeatureId, JsonSchemaDocument};
use crate::ir::vocab::{CanonicalVerb, Channel};
use crate::json::{Json, JsonMap, JsonV, Members};
use crate::keyed::TextMap;
use crate::wire;
use crate::wire::{duplicate_some, if_true_json, some_json, Duplicate, Wire};

verus! {

/// Platform of a device.
#[derive(Debug, Clone, Copy, PartialEq, Eq, PartialOrd, Ord, Hash, Structural)]
pub enum PlatformKind {
    /// Android device.
    Android,
    /// iOS device.
    Ios,
    /// Web browser.
    Web,
    /// HarmonyOS device.
    HarmonyOs,
    /// macOS desktop.
    MacOs,
    /// Windows desktop.
    Windows,
    /// Linux desktop.
    Linux,
    /// Desktop over RDP.
    Rdp,
}

impl PlatformKind {
    /// The wire spelling.
    pub open spec fn wire(self) -> Seq<char> {
        match self {
            PlatformKind::Android => "android"@,
            PlatformKind::Ios => "ios"@,
            PlatformKind::Web => "web"@,
            PlatformKind::HarmonyOs => "harmonyOs"@,
            PlatformKind::MacOs => "macOs"@,
            PlatformKind::Windows => "windows"@,
            PlatformKind::Linux => "linux"@,
            PlatformKind::Rdp => "rdp"@,
        }
    }

    /// The wire spelling.
    pub fn wire_name(self) -> (r: &'static str)
        ensures
            r@ == self.wire(),
    {
        match self {
            PlatformKind::Android => "android",
            PlatformKind::Ios => "ios",
            PlatformKind::Web => "web",
            PlatformKind::HarmonyOs => "harmonyOs",
            PlatformKind::MacOs => "macOs",
            PlatformKind::Windows => "windows",
            PlatformKind::Linux => "linux",
            PlatformKind::Rdp => "rdp",
        }
    }
}

impl Wire for PlatformKind {
    open spec fn wire_json(&self) -> JsonV {
        JsonV::Text(self.wire())
    }

    fn to_json(&self) -> (r: Json) {
        Json::text(self.wire_name())
    }
}

impl Duplicate for PlatformKind {
    fn duplicate(&self) -> (r: Self) {
        *self
    }
}

/// Protection level that the protocol gives an action.
#[derive(Debug, Clone, Copy, PartialEq, Eq, PartialOrd, Ord, Hash, Structural)]
pub enum ActionProtection {
    /// Regular action.
    Standard,
    /// Protected action.
    Protected,
}

impl ActionProtection {
    /// The wire spelling.
    pub open spec fn wire(self) -> Seq<char> {
        match self {
            ActionProtection::Standard => "standard"@,
            ActionProtection::Protected => "protected"@,
        }
    }

    /// The wire spelling.
    pub fn wire_name(self) -> (r: &'static str)
        ensures
            r@ == self.wire(),
    {
        match self {
            ActionProtection::Standard => "standard",
            ActionProtection::Protected => "protected",
        }
    }
}

impl Wire for ActionProtection {
    open spec fn wire_json(&self) -> JsonV {
        JsonV::Text(self.wire())
    }

    fn to_json(&self) -> (r: Json) {
        Json::text(self.wire_name())
    }
}

impl Duplicate for ActionProtection {
    fn duplicate(&self) -> (r: Self) {
        *self
    }
}

/// Role that a channel plays for a provider.
#[derive(Debug, Clone, Copy, PartialEq, Eq, PartialOrd, Ord, Hash, Structural)]
pub enum ChannelRole {
    /// Locates and acts only.
    Act,
    /// Verifies only.
    Verify,
    /// Acts and verifies.
    Both,
}

impl ChannelRole {
    /// The wire spelling.
    pub open spec fn wire(self) -> Seq<char> {
        match self {
            ChannelRole::Act => "act"@,
            ChannelRole::Verify => "verify"@,
            ChannelRole::Both => "both"@,
        }
    }

    /// The wire spelling.
    pub fn wire_name(self) -> (r: &'static str)
        ensures
            r@ == self.wire(),
    {
        match self {
            ChannelRole::Act => "act",
            ChannelRole::Verify => "verify",
            ChannelRole::Both => "both",
        }
    }
}

impl Wire for ChannelRole {
    open spec fn wire_json(&self) -> JsonV {
        JsonV::Text(self.wire())
    }

    fn to_json(&self) -> (r: Json) {
        Json::text(self.wire_name())
    }
}

impl Duplicate for ChannelRole {
    fn duplicate(&self) -> (r: Self) {
        *self
    }
}

/// The protocol versions that a provider supports.
#[derive(Debug, Clone, Copy, PartialEq, Eq, Structural)]
pub struct ProtocolRange {
    /// Supported major version.
    pub major: u64,
    /// Lowest supported minor version.
    pub min_minor: u64,
    /// Highest supported minor version.
    pub max_minor: u64,
}

impl Wire for ProtocolRange {
    open spec fn wire_json(&self) -> JsonV {
        Members::none()
            .with("major"@, self.major.wire_json())
            .with("minMinor"@, self.min_minor.wire_json())
            .with("maxMinor"@, self.max_minor.wire_json())
            .object()
    }

    fn to_json(&self) -> (r: Json) {
        JsonMap::new()
            .with("major", self.major.to_json())
            .with("minMinor", self.min_minor.to_json())
            .with("maxMinor", self.max_minor.to_json())
            .object()
    }
}

impl Duplicate for ProtocolRange {
    fn duplicate(&self) -> (r: Self) {
        *self
    }
}

/// A feature that is offered under a condition.
#[derive(Debug, PartialEq, Eq)]
pub struct ConditionalFeature {
    /// The feature.
    pub feature: FeatureId,
    /// Platforms that offer it; absent when another condition applies.
    pub requires_platform: Option<Vec<PlatformKind>>,
}

impl Wire for ConditionalFeature {
    open spec fn wire_json(&self) -> JsonV {
        Members::none()
            .with("feature"@, self.feature.wire_json())
            .with_some("requiresPlatform"@, wire::wire_some(self.requires_platform))
            .object()
    }

    fn to_json(&self) -> (r: Json) {
        JsonMap::new()
            .with("feature", self.feature.to_json())
            .with_some("requiresPlatform", some_json(&self.requires_platform))
            .object()
    }
}

impl Duplicate for ConditionalFeature {
    fn duplicate(&self) -> (r: Self) {
        ConditionalFeature {
            feature: self.feature.duplicate(),
            requires_platform: duplicate_some(&self.requires_platform),
        }
    }
}

impl Clone for ConditionalFeature {
    fn clone(&self) -> (r: Self)
        ensures
            r.wire_json() == self.wire_json(),
    {
        self.duplicate()
    }
}

/// The features of a provider.
#[derive(Debug, PartialEq, Eq)]
pub struct FeatureDeclarations {
    /// Features that are always offered.
    pub guaranteed: Vec<FeatureId>,
    /// Features that are offered under conditions.
    pub conditional: Vec<ConditionalFeature>,
}

impl Wire for FeatureDeclarations {
    open spec fn wire_json(&self) -> JsonV {
        Members::none()
            .with("guaranteed"@, self.guaranteed.wire_json())
            .with("conditional"@, self.conditional.wire_json())
            .object()
    }

    fn to_json(&self) -> (r: Json) {
        JsonMap::new()
            .with("guaranteed", self.guaranteed.to_json())
            .with("conditional", self.conditional.to_json())
            .object()
    }
}

impl Duplicate for FeatureDeclarations {
    fn duplicate(&self) -> (r: Self) {
        FeatureDeclarations {
            guaranteed: self.guaranteed.duplicate(),
            conditional: self.conditional.duplicate(),
        }
    }
}

impl Clone for FeatureDeclarations {
    fn clone(&self) -> (r: Self)
        ensures
            r.wire_json() == self.wire_json(),
    {
        self.duplicate()
    }
}

/// Maps a canonical verb to a native action.
#[derive(Debug, PartialEq, Eq)]
pub struct VerbBinding {
    /// The verb.
    pub verb: CanonicalVerb,
    /// The native action.
    pub action_name: ActionName,
    /// Feature that gates the binding.
    pub requires_feature: Option<FeatureId>,
    /// Native argument name for each argument name of the verb.
    pub arg_map: TextMap<String>,
}

impl Wire for VerbBinding {
    open spec fn wire_json(&self) -> JsonV {
        Members::none()
            .with("verb"@, self.verb.wire_json())
            .with("actionName"@, self.action_name.wire_json())
            .with_some("requiresFeature"@, wire::wire_some(self.requires_feature))
            .with("argMap"@, self.arg_map.wire_json())
            .object()
    }

    fn to_json(&self) -> (r: Json) {
        JsonMap::new()
            .with("verb", self.verb.to_json())
            .with("actionName", self.action_name.to_json())
            .with_some("requiresFeature", some_json(&self.requires_feature))
            .with("argMap", self.arg_map.to_json())
            .object()
    }
}

impl Duplicate for VerbBinding {
    fn duplicate(&self) -> (r: Self) {
        VerbBinding {
            verb: self.verb.duplicate(),
            action_name: self.action_name.duplicate(),
            requires_feature: duplicate_some(&self.requires_feature),
            arg_map: self.arg_map.duplicate(),
        }
    }
}

impl Clone for VerbBinding {
    fn clone(&self) -> (r: Self)
        ensures
            r.wire_json() == self.wire_json(),
    {
        self.duplicate()
    }
}

/// A channel that a provider supports.
#[derive(Debug, PartialEq, Eq)]
pub struct ChannelSupport {
    /// The channel.
    pub channel: Channel,
    /// Its role; vision only verifies.
    pub role: ChannelRole,
    /// Feature that gates the channel.
    pub requires_feature: Option<FeatureId>,
    /// Platforms that have the channel.
    pub requires_platform: Option<Vec<PlatformKind>>,
}

impl Wire for ChannelSupport {
    open spec fn wire_json(&self) -> JsonV {
        Members::none()
            .with("channel"@, self.channel.wire_json())
            .with("role"@, self.role.wire_json())
            .with_some("requiresFeature"@, wire::wire_some(self.requires_feature))
            .with_some("requiresPlatform"@, wire::wire_some(self.requires_platform))
            .object()
    }

    fn to_json(&self) -> (r: Json) {
        JsonMap::new()
            .with("channel", self.channel.to_json())
            .with("role", self.role.to_json())
            .with_some("requiresFeature", some_json(&self.requires_feature))
            .with_some("requiresPlatform", some_json(&self.requires_platform))
            .object()
    }
}

impl Duplicate for ChannelSupport {
    fn duplicate(&self) -> (r: Self) {
        ChannelSupport {
            channel: self.channel.duplicate(),
            role: self.role.duplicate(),
            requires_feature: duplicate_some(&self.requires_feature),
            requires_platform: duplicate_some(&self.requires_platform),
        }
    }
}

impl Clone for ChannelSupport {
    fn clone(&self) -> (r: Self)
        ensures
            r.wire_json() == self.wire_json(),
    {
        self.duplicate()
    }
}

/// Definition of one action.
#[derive(Debug, PartialEq, Eq)]
pub struct ActionDefinitionStatic {
    /// Native action name.
    pub name: ActionName,
    /// JSON Schema of the arguments.
    pub input_schema: JsonSchemaDocument,
    /// JSON Schema of the output.
    pub output_schema: Option<JsonSchemaDocument>,
    /// Protection level.
    pub protection: ActionProtection,
    /// Whether the provider itself serves the action.
    pub synthetic: bool,
}

impl Wire for ActionDefinitionStatic {
    open spec fn wire_json(&self) -> JsonV {
        Members::none()
            .with("name"@, self.name.wire_json())
            .with("inputSchema"@, self.input_schema.wire_json())
            .with_some("outputSchema"@, wire::wire_some(self.output_schema))
            .with("protection"@, self.protection.wire_json())
            .with_some("synthetic"@, wire::wire_if_true(self.synthetic))
            .object()
    }

    fn to_json(&self) -> (r: Json) {
        JsonMap::new()
            .with("name", self.name.to_json())
            .with("inputSchema", self.input_schema.to_json())
            .with_some("outputSchema", some_json(&self.output_schema))
            .with("protection", self.protection.to_json())
            .with_some("synthetic", if_true_json(self.synthetic))
            .object()
    }
}

impl Duplicate for ActionDefinitionStatic {
    fn duplicate(&self) -> (r: Self) {
        ActionDefinitionStatic {
            name: self.name.duplicate(),
            input_schema: self.input_schema.duplicate(),
            output_schema: duplicate_some(&self.output_schema),
            protection: self.protection.duplicate(),
            synthetic: self.synthetic,
        }
    }
}

impl Clone for ActionDefinitionStatic {
    fn clone(&self) -> (r: Self)
        ensures
            r.wire_json() == self.wire_json(),
    {
        self.duplicate()
    }
}

/// The capability declaration of a provider.
#[derive(Debug, PartialEq, Eq)]
pub struct ProviderManifest {
    /// Provider name.
    pub name: String,
    /// Provider package version.
    pub version: String,
    /// Supported protocol versions.
    pub protocol: ProtocolRange,
    /// Features.
    pub features: FeatureDeclarations,
    /// Verbs and their native actions.
    pub verb_bindings: Vec<VerbBinding>,
    /// Supported channels.
    pub channels: Vec<ChannelSupport>,
    /// Built-in action definitions.
    pub known_actions: Vec<ActionDefinitionStatic>,
}

impl Wire for ProviderManifest {
    open spec fn wire_json(&self) -> JsonV {
        Members::none()
            .with("name"@, self.name.wire_json())
            .with("version"@, self.version.wire_json())
            .with("protocol"@, self.protocol.wire_json())
            .with("features"@, self.features.wire_json())
            .with("verbBindings"@, self.verb_bindings.wire_json())
            .with("channels"@, self.channels.wire_json())
            .with("knownActions"@, self.known_actions.wire_json())
            .object()
    }

    fn to_json(&self) -> (r: Json) {
        JsonMap::new()
            .with("name", self.name.to_json())
            .with("version", self.version.to_json())
            .with("protocol", self.protocol.to_json())
            .with("features", self.features.to_json())
            .with("verbBindings", self.verb_bindings.to_json())
            .with("channels", self.channels.to_json())
            .with("knownActions", self.known_actions.to_json())
            .object()
    }
}

impl Duplicate for ProviderManifest {
    fn duplicate(&self) -> (r: Self) {
        ProviderManifest {
            name: self.name.duplicate(),
            version: self.version.duplicate(),
            protocol: self.protocol.duplicate(),
            features: self.features.duplicate(),
            verb_bindings: self.verb_bindings.duplicate(),
            channels: self.channels.duplicate(),
            known_actions: self.known_actions.duplicate(),
        }
    }
}

impl Clone for ProviderManifest {
    fn clone(&self) -> (r: Self)
        ensures
            r.wire_json() == self.wire_json(),
    {
        self.duplicate()
    }
}

} // verus!
