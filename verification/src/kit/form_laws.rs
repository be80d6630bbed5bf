//! The JSON forms of the provider contract tell its values apart.

use vstd::prelude::*;
use vstd::string::*;

use crate::keyed;
use crate::kit::error::ProviderError;
use crate::kit::lockfile::{
    CapabilityAttestation, CapabilityLockfile, LockfileDevice, LockfileHello, LockfileProvider,
    PeerInfo, ProtocolVersion,
};
use crate::kit::manifest::{
    ActionDefinitionStatic, ChannelSupport, ConditionalFeature, FeatureDeclarations, ProtocolRange,
    ProviderManifest, VerbBinding,
};
use crate::kit::spi::{
    BoundActionCall, ObserveRequest, OpenSessionOptions, SessionHealth, VerdictWrite,
};
use crate::told::Told;
use crate::told;
use crate::wire::Wire;
use crate::wire;

verus! {

proof fn lemma_protocol_range_keys()
    ensures
        keyed::key_code("major"@) == 5109111114,
        keyed::key_code("maxMinor"@) == 8109111114,
        keyed::key_code("minMinor"@) == 8109111114,
        "maxMinor"@ != "minMinor"@,
{
    reveal_strlit("major");
    reveal_strlit("maxMinor");
    reveal_strlit("minMinor");
    assert("maxMinor"@[1] != "minMinor"@[1]);
}

/// The JSON form of [`ProtocolRange`] holds every field under its name, and nothing else.
pub proof fn law_protocol_range_form(v: ProtocolRange)
    ensures
        v.wire_json() is Object,
        v.wire_json().member("major"@) == Some(v.major.wire_json()),
        v.wire_json().member("minMinor"@) == Some(v.min_minor.wire_json()),
        v.wire_json().member("maxMinor"@) == Some(v.max_minor.wire_json()),
        forall|key: Seq<char>| #[trigger]
            v.wire_json().member(key) is Some ==> key == "major"@ || key == "minMinor"@
                || key == "maxMinor"@,
{
    broadcast use
        keyed::lemma_get_after_with,
        keyed::lemma_get_after_with_some,
        keyed::lemma_sorted_after_with,
        keyed::lemma_sorted_after_with_some,
    ;

    lemma_protocol_range_keys();
}

impl Told for ProtocolRange {
    open spec fn ordered(&self) -> bool {
        true
    }

    open spec fn same(&self, other: &Self) -> bool {
        &&& self.major.same(&other.major)
        &&& self.min_minor.same(&other.min_minor)
        &&& self.max_minor.same(&other.max_minor)
    }

    proof fn told(a: &Self, b: &Self) {
        law_protocol_range_form(*a);
        law_protocol_range_form(*b);
        assert(a.wire_json().member("major"@) == b.wire_json().member("major"@));
        Told::told(&a.major, &b.major);
        assert(a.wire_json().member("minMinor"@) == b.wire_json().member("minMinor"@));
        Told::told(&a.min_minor, &b.min_minor);
        assert(a.wire_json().member("maxMinor"@) == b.wire_json().member("maxMinor"@));
        Told::told(&a.max_minor, &b.max_minor);
    }
}

proof fn lemma_conditional_feature_keys()
    ensures
        keyed::key_code("feature"@) == 7102114101,
        keyed::key_code("requiresPlatform"@) == 16114102109,
{
    reveal_strlit("feature");
    reveal_strlit("requiresPlatform");
}

/// The JSON form of [`ConditionalFeature`] holds every field under its name, and nothing else.
pub proof fn law_conditional_feature_form(v: ConditionalFeature)
    ensures
        v.wire_json() is Object,
        v.wire_json().member("feature"@) == Some(v.feature.wire_json()),
        v.wire_json().member("requiresPlatform"@) == wire::wire_some(v.requires_platform),
        forall|key: Seq<char>| #[trigger]
            v.wire_json().member(key) is Some ==> key == "feature"@ || key == "requiresPlatform"@,
{
    broadcast use
        keyed::lemma_get_after_with,
        keyed::lemma_get_after_with_some,
        keyed::lemma_sorted_after_with,
        keyed::lemma_sorted_after_with_some,
    ;

    lemma_conditional_feature_keys();
}

impl Told for ConditionalFeature {
    open spec fn ordered(&self) -> bool {
        true
    }

    open spec fn same(&self, other: &Self) -> bool {
        &&& self.feature.same(&other.feature)
        &&& told::same_some(self.requires_platform, other.requires_platform)
    }

    proof fn told(a: &Self, b: &Self) {
        law_conditional_feature_form(*a);
        law_conditional_feature_form(*b);
        assert(a.wire_json().member("feature"@) == b.wire_json().member("feature"@));
        Told::told(&a.feature, &b.feature);
        assert(a.wire_json().member("requiresPlatform"@)
            == b.wire_json().member("requiresPlatform"@));
        told::law_optional_values_are_told(a.requires_platform, b.requires_platform);
    }
}

proof fn lemma_feature_declarations_keys()
    ensures
        keyed::key_code("guaranteed"@) == 10103101100,
        keyed::key_code("conditional"@) == 11099110108,
{
    reveal_strlit("guaranteed");
    reveal_strlit("conditional");
}

/// The JSON form of [`FeatureDeclarations`] holds every field under its name, and nothing else.
pub proof fn law_feature_declarations_form(v: FeatureDeclarations)
    ensures
        v.wire_json() is Object,
        v.wire_json().member("guaranteed"@) == Some(v.guaranteed.wire_json()),
        v.wire_json().member("conditional"@) == Some(v.conditional.wire_json()),
        forall|key: Seq<char>| #[trigger]
            v.wire_json().member(key) is Some ==> key == "guaranteed"@ || key == "conditional"@,
{
    broadcast use
        keyed::lemma_get_after_with,
        keyed::lemma_get_after_with_some,
        keyed::lemma_sorted_after_with,
        keyed::lemma_sorted_after_with_some,
    ;

    lemma_feature_declarations_keys();
}

impl Told for FeatureDeclarations {
    open spec fn ordered(&self) -> bool {
        true
    }

    open spec fn same(&self, other: &Self) -> bool {
        &&& self.guaranteed.same(&other.guaranteed)
        &&& self.conditional.same(&other.conditional)
    }

    proof fn told(a: &Self, b: &Self) {
        law_feature_declarations_form(*a);
        law_feature_declarations_form(*b);
        assert(a.wire_json().member("guaranteed"@) == b.wire_json().member("guaranteed"@));
        Told::told(&a.guaranteed, &b.guaranteed);
        assert(a.wire_json().member("conditional"@) == b.wire_json().member("conditional"@));
        Told::told(&a.conditional, &b.conditional);
    }
}

proof fn lemma_verb_binding_keys()
    ensures
        keyed::key_code("verb"@) == 4118098098,
        keyed::key_code("argMap"@) == 6097097112,
        keyed::key_code("actionName"@) == 10097097101,
        keyed::key_code("requiresFeature"@) == 15114116101,
{
    reveal_strlit("verb");
    reveal_strlit("argMap");
    reveal_strlit("actionName");
    reveal_strlit("requiresFeature");
}

/// The JSON form of [`VerbBinding`] holds every field under its name, and nothing else.
pub proof fn law_verb_binding_form(v: VerbBinding)
    ensures
        v.wire_json() is Object,
        v.wire_json().member("verb"@) == Some(v.verb.wire_json()),
        v.wire_json().member("actionName"@) == Some(v.action_name.wire_json()),
        v.wire_json().member("requiresFeature"@) == wire::wire_some(v.requires_feature),
        v.wire_json().member("argMap"@) == Some(v.arg_map.wire_json()),
        forall|key: Seq<char>| #[trigger]
            v.wire_json().member(key) is Some ==> key == "verb"@ || key == "actionName"@
                || key == "requiresFeature"@ || key == "argMap"@,
{
    broadcast use
        keyed::lemma_get_after_with,
        keyed::lemma_get_after_with_some,
        keyed::lemma_sorted_after_with,
        keyed::lemma_sorted_after_with_some,
    ;

    lemma_verb_binding_keys();
}

impl Told for VerbBinding {
    open spec fn ordered(&self) -> bool {
        self.arg_map.ordered()
    }

    open spec fn same(&self, other: &Self) -> bool {
        &&& self.verb.same(&other.verb)
        &&& self.action_name.same(&other.action_name)
        &&& told::same_some(self.requires_feature, other.requires_feature)
        &&& self.arg_map.same(&other.arg_map)
    }

    proof fn told(a: &Self, b: &Self) {
        law_verb_binding_form(*a);
        law_verb_binding_form(*b);
        assert(a.wire_json().member("verb"@) == b.wire_json().member("verb"@));
        Told::told(&a.verb, &b.verb);
        assert(a.wire_json().member("actionName"@) == b.wire_json().member("actionName"@));
        Told::told(&a.action_name, &b.action_name);
        assert(a.wire_json().member("requiresFeature"@)
            == b.wire_json().member("requiresFeature"@));
        told::law_optional_values_are_told(a.requires_feature, b.requires_feature);
        assert(a.wire_json().member("argMap"@) == b.wire_json().member("argMap"@));
        Told::told(&a.arg_map, &b.arg_map);
    }
}

proof fn lemma_channel_support_keys()
    ensures
        keyed::key_code("role"@) == 4114101101,
        keyed::key_code("channel"@) == 7099101108,
        keyed::key_code("requiresFeature"@) == 15114116101,
        keyed::key_code("requiresPlatform"@) == 16114102109,
{
    reveal_strlit("role");
    reveal_strlit("channel");
    reveal_strlit("requiresFeature");
    reveal_strlit("requiresPlatform");
}

/// The JSON form of [`ChannelSupport`] holds every field under its name, and nothing else.
pub proof fn law_channel_support_form(v: ChannelSupport)
    ensures
        v.wire_json() is Object,
        v.wire_json().member("channel"@) == Some(v.channel.wire_json()),
        v.wire_json().member("role"@) == Some(v.role.wire_json()),
        v.wire_json().member("requiresFeature"@) == wire::wire_some(v.requires_feature),
        v.wire_json().member("requiresPlatform"@) == wire::wire_some(v.requires_platform),
        forall|key: Seq<char>| #[trigger]
            v.wire_json().member(key) is Some ==> key == "channel"@ || key == "role"@
                || key == "requiresFeature"@ || key == "requiresPlatform"@,
{
    broadcast use
        keyed::lemma_get_after_with,
        keyed::lemma_get_after_with_some,
        keyed::lemma_sorted_after_with,
        keyed::lemma_sorted_after_with_some,
    ;

    lemma_channel_support_keys();
}

impl Told for ChannelSupport {
    open spec fn ordered(&self) -> bool {
        true
    }

    open spec fn same(&self, other: &Self) -> bool {
        &&& self.channel.same(&other.channel)
        &&& self.role.same(&other.role)
        &&& told::same_some(self.requires_feature, other.requires_feature)
        &&& told::same_some(self.requires_platform, other.requires_platform)
    }

    proof fn told(a: &Self, b: &Self) {
        law_channel_support_form(*a);
        law_channel_support_form(*b);
        assert(a.wire_json().member("channel"@) == b.wire_json().member("channel"@));
        Told::told(&a.channel, &b.channel);
        assert(a.wire_json().member("role"@) == b.wire_json().member("role"@));
        Told::told(&a.role, &b.role);
        assert(a.wire_json().member("requiresFeature"@)
            == b.wire_json().member("requiresFeature"@));
        told::law_optional_values_are_told(a.requires_feature, b.requires_feature);
        assert(a.wire_json().member("requiresPlatform"@)
            == b.wire_json().member("requiresPlatform"@));
        told::law_optional_values_are_told(a.requires_platform, b.requires_platform);
    }
}

proof fn lemma_action_definition_static_keys()
    ensures
        keyed::key_code("name"@) == 4110101101,
        keyed::key_code("synthetic"@) == 9115116099,
        keyed::key_code("protection"@) == 10112105110,
        keyed::key_code("inputSchema"@) == 11105101097,
        keyed::key_code("outputSchema"@) == 12111101097,
{
    reveal_strlit("name");
    reveal_strlit("synthetic");
    reveal_strlit("protection");
    reveal_strlit("inputSchema");
    reveal_strlit("outputSchema");
}

/// The JSON form of [`ActionDefinitionStatic`] holds every field under its name, and nothing else.
pub proof fn law_action_definition_static_form(v: ActionDefinitionStatic)
    ensures
        v.wire_json() is Object,
        v.wire_json().member("name"@) == Some(v.name.wire_json()),
        v.wire_json().member("inputSchema"@) == Some(v.input_schema.wire_json()),
        v.wire_json().member("outputSchema"@) == wire::wire_some(v.output_schema),
        v.wire_json().member("protection"@) == Some(v.protection.wire_json()),
        v.wire_json().member("synthetic"@) == wire::wire_if_true(v.synthetic),
        forall|key: Seq<char>| #[trigger]
            v.wire_json().member(key) is Some ==> key == "name"@ || key == "inputSchema"@
                || key == "outputSchema"@ || key == "protection"@ || key == "synthetic"@,
{
    broadcast use
        keyed::lemma_get_after_with,
        keyed::lemma_get_after_with_some,
        keyed::lemma_sorted_after_with,
        keyed::lemma_sorted_after_with_some,
    ;

    lemma_action_definition_static_keys();
}

impl Told for ActionDefinitionStatic {
    open spec fn ordered(&self) -> bool {
        true
    }

    open spec fn same(&self, other: &Self) -> bool {
        &&& self.name.same(&other.name)
        &&& self.input_schema.same(&other.input_schema)
        &&& told::same_some(self.output_schema, other.output_schema)
        &&& self.protection.same(&other.protection)
        &&& self.synthetic == other.synthetic
    }

    proof fn told(a: &Self, b: &Self) {
        law_action_definition_static_form(*a);
        law_action_definition_static_form(*b);
        assert(a.wire_json().member("name"@) == b.wire_json().member("name"@));
        Told::told(&a.name, &b.name);
        assert(a.wire_json().member("inputSchema"@) == b.wire_json().member("inputSchema"@));
        Told::told(&a.input_schema, &b.input_schema);
        assert(a.wire_json().member("outputSchema"@) == b.wire_json().member("outputSchema"@));
        told::law_optional_values_are_told(a.output_schema, b.output_schema);
        assert(a.wire_json().member("protection"@) == b.wire_json().member("protection"@));
        Told::told(&a.protection, &b.protection);
        assert(a.wire_json().member("synthetic"@) == b.wire_json().member("synthetic"@));
    }
}

proof fn lemma_provider_manifest_keys()
    ensures
        keyed::key_code("name"@) == 4110101101,
        keyed::key_code("version"@) == 7118111110,
        keyed::key_code("channels"@) == 8099108115,
        keyed::key_code("features"@) == 8102101115,
        keyed::key_code("protocol"@) == 8112111108,
        keyed::key_code("knownActions"@) == 12107111115,
        keyed::key_code("verbBindings"@) == 12118110115,
{
    reveal_strlit("name");
    reveal_strlit("version");
    reveal_strlit("channels");
    reveal_strlit("features");
    reveal_strlit("protocol");
    reveal_strlit("knownActions");
    reveal_strlit("verbBindings");
}

/// The JSON form of [`ProviderManifest`] holds every field under its name, and nothing else.
pub proof fn law_provider_manifest_form(v: ProviderManifest)
    ensures
        v.wire_json() is Object,
        v.wire_json().member("name"@) == Some(v.name.wire_json()),
        v.wire_json().member("version"@) == Some(v.version.wire_json()),
        v.wire_json().member("protocol"@) == Some(v.protocol.wire_json()),
        v.wire_json().member("features"@) == Some(v.features.wire_json()),
        v.wire_json().member("verbBindings"@) == Some(v.verb_bindings.wire_json()),
        v.wire_json().member("channels"@) == Some(v.channels.wire_json()),
        v.wire_json().member("knownActions"@) == Some(v.known_actions.wire_json()),
        forall|key: Seq<char>| #[trigger]
            v.wire_json().member(key) is Some ==> key == "name"@ || key == "version"@
                || key == "protocol"@ || key == "features"@ || key == "verbBindings"@
                || key == "channels"@ || key == "knownActions"@,
{
    broadcast use
        keyed::lemma_get_after_with,
        keyed::lemma_get_after_with_some,
        keyed::lemma_sorted_after_with,
        keyed::lemma_sorted_after_with_some,
    ;

    lemma_provider_manifest_keys();
}

impl Told for ProviderManifest {
    open spec fn ordered(&self) -> bool {
        self.verb_bindings.ordered()
    }

    open spec fn same(&self, other: &Self) -> bool {
        &&& self.name.same(&other.name)
        &&& self.version.same(&other.version)
        &&& self.protocol.same(&other.protocol)
        &&& self.features.same(&other.features)
        &&& self.verb_bindings.same(&other.verb_bindings)
        &&& self.channels.same(&other.channels)
        &&& self.known_actions.same(&other.known_actions)
    }

    proof fn told(a: &Self, b: &Self) {
        law_provider_manifest_form(*a);
        law_provider_manifest_form(*b);
        assert(a.wire_json().member("name"@) == b.wire_json().member("name"@));
        Told::told(&a.name, &b.name);
        assert(a.wire_json().member("version"@) == b.wire_json().member("version"@));
        Told::told(&a.version, &b.version);
        assert(a.wire_json().member("protocol"@) == b.wire_json().member("protocol"@));
        Told::told(&a.protocol, &b.protocol);
        assert(a.wire_json().member("features"@) == b.wire_json().member("features"@));
        Told::told(&a.features, &b.features);
        assert(a.wire_json().member("verbBindings"@) == b.wire_json().member("verbBindings"@));
        Told::told(&a.verb_bindings, &b.verb_bindings);
        assert(a.wire_json().member("channels"@) == b.wire_json().member("channels"@));
        Told::told(&a.channels, &b.channels);
        assert(a.wire_json().member("knownActions"@) == b.wire_json().member("knownActions"@));
        Told::told(&a.known_actions, &b.known_actions);
    }
}

proof fn lemma_lockfile_provider_keys()
    ensures
        keyed::key_code("name"@) == 4110101101,
        keyed::key_code("version"@) == 7118111110,
{
    reveal_strlit("name");
    reveal_strlit("version");
}

/// The JSON form of [`LockfileProvider`] holds every field under its name, and nothing else.
pub proof fn law_lockfile_provider_form(v: LockfileProvider)
    ensures
        v.wire_json() is Object,
        v.wire_json().member("name"@) == Some(v.name.wire_json()),
        v.wire_json().member("version"@) == Some(v.version.wire_json()),
        forall|key: Seq<char>| #[trigger]
            v.wire_json().member(key) is Some ==> key == "name"@ || key == "version"@,
{
    broadcast use
        keyed::lemma_get_after_with,
        keyed::lemma_get_after_with_some,
        keyed::lemma_sorted_after_with,
        keyed::lemma_sorted_after_with_some,
    ;

    lemma_lockfile_provider_keys();
}

impl Told for LockfileProvider {
    open spec fn ordered(&self) -> bool {
        true
    }

    open spec fn same(&self, other: &Self) -> bool {
        &&& self.name.same(&other.name)
        &&& self.version.same(&other.version)
    }

    proof fn told(a: &Self, b: &Self) {
        law_lockfile_provider_form(*a);
        law_lockfile_provider_form(*b);
        assert(a.wire_json().member("name"@) == b.wire_json().member("name"@));
        Told::told(&a.name, &b.name);
        assert(a.wire_json().member("version"@) == b.wire_json().member("version"@));
        Told::told(&a.version, &b.version);
    }
}

proof fn lemma_protocol_version_keys()
    ensures
        keyed::key_code("major"@) == 5109111114,
        keyed::key_code("minor"@) == 5109111114,
        "major"@ != "minor"@,
{
    reveal_strlit("major");
    reveal_strlit("minor");
    assert("major"@[1] != "minor"@[1]);
}

/// The JSON form of [`ProtocolVersion`] holds every field under its name, and nothing else.
pub proof fn law_protocol_version_form(v: ProtocolVersion)
    ensures
        v.wire_json() is Object,
        v.wire_json().member("major"@) == Some(v.major.wire_json()),
        v.wire_json().member("minor"@) == Some(v.minor.wire_json()),
        forall|key: Seq<char>| #[trigger]
            v.wire_json().member(key) is Some ==> key == "major"@ || key == "minor"@,
{
    broadcast use
        keyed::lemma_get_after_with,
        keyed::lemma_get_after_with_some,
        keyed::lemma_sorted_after_with,
        keyed::lemma_sorted_after_with_some,
    ;

    lemma_protocol_version_keys();
}

impl Told for ProtocolVersion {
    open spec fn ordered(&self) -> bool {
        true
    }

    open spec fn same(&self, other: &Self) -> bool {
        &&& self.major.same(&other.major)
        &&& self.minor.same(&other.minor)
    }

    proof fn told(a: &Self, b: &Self) {
        law_protocol_version_form(*a);
        law_protocol_version_form(*b);
        assert(a.wire_json().member("major"@) == b.wire_json().member("major"@));
        Told::told(&a.major, &b.major);
        assert(a.wire_json().member("minor"@) == b.wire_json().member("minor"@));
        Told::told(&a.minor, &b.minor);
    }
}

proof fn lemma_peer_info_keys()
    ensures
        keyed::key_code("name"@) == 4110101101,
        keyed::key_code("version"@) == 7118111110,
{
    reveal_strlit("name");
    reveal_strlit("version");
}

/// The JSON form of [`PeerInfo`] holds every field under its name, and nothing else.
pub proof fn law_peer_info_form(v: PeerInfo)
    ensures
        v.wire_json() is Object,
        v.wire_json().member("name"@) == Some(v.name.wire_json()),
        v.wire_json().member("version"@) == Some(v.version.wire_json()),
        forall|key: Seq<char>| #[trigger]
            v.wire_json().member(key) is Some ==> key == "name"@ || key == "version"@,
{
    broadcast use
        keyed::lemma_get_after_with,
        keyed::lemma_get_after_with_some,
        keyed::lemma_sorted_after_with,
        keyed::lemma_sorted_after_with_some,
    ;

    lemma_peer_info_keys();
}

impl Told for PeerInfo {
    open spec fn ordered(&self) -> bool {
        true
    }

    open spec fn same(&self, other: &Self) -> bool {
        &&& self.name.same(&other.name)
        &&& self.version.same(&other.version)
    }

    proof fn told(a: &Self, b: &Self) {
        law_peer_info_form(*a);
        law_peer_info_form(*b);
        assert(a.wire_json().member("name"@) == b.wire_json().member("name"@));
        Told::told(&a.name, &b.name);
        assert(a.wire_json().member("version"@) == b.wire_json().member("version"@));
        Told::told(&a.version, &b.version);
    }
}

proof fn lemma_lockfile_hello_keys()
    ensures
        keyed::key_code("server"@) == 6115101114,
        keyed::key_code("featuresEnabled"@) == 15102098100,
        keyed::key_code("protocolSelected"@) == 16112099100,
{
    reveal_strlit("server");
    reveal_strlit("featuresEnabled");
    reveal_strlit("protocolSelected");
}

/// The JSON form of [`LockfileHello`] holds every field under its name, and nothing else.
pub proof fn law_lockfile_hello_form(v: LockfileHello)
    ensures
        v.wire_json() is Object,
        v.wire_json().member("protocolSelected"@) == Some(v.protocol_selected.wire_json()),
        v.wire_json().member("featuresEnabled"@) == Some(v.features_enabled.wire_json()),
        v.wire_json().member("server"@) == Some(v.server.wire_json()),
        forall|key: Seq<char>| #[trigger]
            v.wire_json().member(key) is Some ==> key == "protocolSelected"@
                || key == "featuresEnabled"@ || key == "server"@,
{
    broadcast use
        keyed::lemma_get_after_with,
        keyed::lemma_get_after_with_some,
        keyed::lemma_sorted_after_with,
        keyed::lemma_sorted_after_with_some,
    ;

    lemma_lockfile_hello_keys();
}

impl Told for LockfileHello {
    open spec fn ordered(&self) -> bool {
        true
    }

    open spec fn same(&self, other: &Self) -> bool {
        &&& self.protocol_selected.same(&other.protocol_selected)
        &&& self.features_enabled.same(&other.features_enabled)
        &&& self.server.same(&other.server)
    }

    proof fn told(a: &Self, b: &Self) {
        law_lockfile_hello_form(*a);
        law_lockfile_hello_form(*b);
        assert(a.wire_json().member("protocolSelected"@)
            == b.wire_json().member("protocolSelected"@));
        Told::told(&a.protocol_selected, &b.protocol_selected);
        assert(a.wire_json().member("featuresEnabled"@)
            == b.wire_json().member("featuresEnabled"@));
        Told::told(&a.features_enabled, &b.features_enabled);
        assert(a.wire_json().member("server"@) == b.wire_json().member("server"@));
        Told::told(&a.server, &b.server);
    }
}

proof fn lemma_lockfile_device_keys()
    ensures
        keyed::key_code("actions"@) == 7097110115,
        keyed::key_code("platform"@) == 8112114109,
{
    reveal_strlit("actions");
    reveal_strlit("platform");
}

/// The JSON form of [`LockfileDevice`] holds every field under its name, and nothing else.
pub proof fn law_lockfile_device_form(v: LockfileDevice)
    ensures
        v.wire_json() is Object,
        v.wire_json().member("platform"@) == Some(v.platform.wire_json()),
        v.wire_json().member("actions"@) == Some(v.actions.wire_json()),
        forall|key: Seq<char>| #[trigger]
            v.wire_json().member(key) is Some ==> key == "platform"@ || key == "actions"@,
{
    broadcast use
        keyed::lemma_get_after_with,
        keyed::lemma_get_after_with_some,
        keyed::lemma_sorted_after_with,
        keyed::lemma_sorted_after_with_some,
    ;

    lemma_lockfile_device_keys();
}

impl Told for LockfileDevice {
    open spec fn ordered(&self) -> bool {
        true
    }

    open spec fn same(&self, other: &Self) -> bool {
        &&& self.platform.same(&other.platform)
        &&& self.actions.same(&other.actions)
    }

    proof fn told(a: &Self, b: &Self) {
        law_lockfile_device_form(*a);
        law_lockfile_device_form(*b);
        assert(a.wire_json().member("platform"@) == b.wire_json().member("platform"@));
        Told::told(&a.platform, &b.platform);
        assert(a.wire_json().member("actions"@) == b.wire_json().member("actions"@));
        Told::told(&a.actions, &b.actions);
    }
}

proof fn lemma_capability_lockfile_keys()
    ensures
        keyed::key_code("hello"@) == 5104108111,
        keyed::key_code("device"@) == 6100099101,
        keyed::key_code("digest"@) == 6100115116,
        keyed::key_code("provider"@) == 8112101114,
        keyed::key_code("attestedAt"@) == 10097100116,
{
    reveal_strlit("hello");
    reveal_strlit("device");
    reveal_strlit("digest");
    reveal_strlit("provider");
    reveal_strlit("attestedAt");
}

/// The JSON form of [`CapabilityLockfile`] holds every field under its name, and nothing else.
pub proof fn law_capability_lockfile_form(v: CapabilityLockfile)
    ensures
        v.wire_json() is Object,
        v.wire_json().member("provider"@) == Some(v.provider.wire_json()),
        v.wire_json().member("attestedAt"@) == Some(v.attested_at.wire_json()),
        v.wire_json().member("hello"@) == Some(v.hello.wire_json()),
        v.wire_json().member("device"@) == Some(v.device.wire_json()),
        v.wire_json().member("digest"@) == Some(v.digest.wire_json()),
        forall|key: Seq<char>| #[trigger]
            v.wire_json().member(key) is Some ==> key == "provider"@ || key == "attestedAt"@
                || key == "hello"@ || key == "device"@ || key == "digest"@,
{
    broadcast use
        keyed::lemma_get_after_with,
        keyed::lemma_get_after_with_some,
        keyed::lemma_sorted_after_with,
        keyed::lemma_sorted_after_with_some,
    ;

    lemma_capability_lockfile_keys();
}

impl Told for CapabilityLockfile {
    open spec fn ordered(&self) -> bool {
        true
    }

    open spec fn same(&self, other: &Self) -> bool {
        &&& self.provider.same(&other.provider)
        &&& self.attested_at.same(&other.attested_at)
        &&& self.hello.same(&other.hello)
        &&& self.device.same(&other.device)
        &&& self.digest.same(&other.digest)
    }

    proof fn told(a: &Self, b: &Self) {
        law_capability_lockfile_form(*a);
        law_capability_lockfile_form(*b);
        assert(a.wire_json().member("provider"@) == b.wire_json().member("provider"@));
        Told::told(&a.provider, &b.provider);
        assert(a.wire_json().member("attestedAt"@) == b.wire_json().member("attestedAt"@));
        Told::told(&a.attested_at, &b.attested_at);
        assert(a.wire_json().member("hello"@) == b.wire_json().member("hello"@));
        Told::told(&a.hello, &b.hello);
        assert(a.wire_json().member("device"@) == b.wire_json().member("device"@));
        Told::told(&a.device, &b.device);
        assert(a.wire_json().member("digest"@) == b.wire_json().member("digest"@));
        Told::told(&a.digest, &b.digest);
    }
}

proof fn lemma_capability_attestation_keys()
    ensures
        keyed::key_code("actions"@) == 7097110115,
        keyed::key_code("attestedAt"@) == 10097100116,
        keyed::key_code("providerId"@) == 10112114100,
        keyed::key_code("lockfileDigest"@) == 14108103116,
        keyed::key_code("featuresEnabled"@) == 15102098100,
        keyed::key_code("protocolSelected"@) == 16112099100,
{
    reveal_strlit("actions");
    reveal_strlit("attestedAt");
    reveal_strlit("providerId");
    reveal_strlit("lockfileDigest");
    reveal_strlit("featuresEnabled");
    reveal_strlit("protocolSelected");
}

/// The JSON form of [`CapabilityAttestation`] holds every field under its name, and nothing else.
pub proof fn law_capability_attestation_form(v: CapabilityAttestation)
    ensures
        v.wire_json() is Object,
        v.wire_json().member("providerId"@) == Some(v.provider_id.wire_json()),
        v.wire_json().member("protocolSelected"@) == Some(v.protocol_selected.wire_json()),
        v.wire_json().member("featuresEnabled"@) == Some(v.features_enabled.wire_json()),
        v.wire_json().member("actions"@) == Some(v.actions.wire_json()),
        v.wire_json().member("lockfileDigest"@) == Some(v.lockfile_digest.wire_json()),
        v.wire_json().member("attestedAt"@) == Some(v.attested_at.wire_json()),
        forall|key: Seq<char>| #[trigger]
            v.wire_json().member(key) is Some ==> key == "providerId"@ || key == "protocolSelected"@
                || key == "featuresEnabled"@ || key == "actions"@ || key == "lockfileDigest"@
                || key == "attestedAt"@,
{
    broadcast use
        keyed::lemma_get_after_with,
        keyed::lemma_get_after_with_some,
        keyed::lemma_sorted_after_with,
        keyed::lemma_sorted_after_with_some,
    ;

    lemma_capability_attestation_keys();
}

impl Told for CapabilityAttestation {
    open spec fn ordered(&self) -> bool {
        self.actions.ordered()
    }

    open spec fn same(&self, other: &Self) -> bool {
        &&& self.provider_id.same(&other.provider_id)
        &&& self.protocol_selected.same(&other.protocol_selected)
        &&& self.features_enabled.same(&other.features_enabled)
        &&& self.actions.same(&other.actions)
        &&& self.lockfile_digest.same(&other.lockfile_digest)
        &&& self.attested_at.same(&other.attested_at)
    }

    proof fn told(a: &Self, b: &Self) {
        law_capability_attestation_form(*a);
        law_capability_attestation_form(*b);
        assert(a.wire_json().member("providerId"@) == b.wire_json().member("providerId"@));
        Told::told(&a.provider_id, &b.provider_id);
        assert(a.wire_json().member("protocolSelected"@)
            == b.wire_json().member("protocolSelected"@));
        Told::told(&a.protocol_selected, &b.protocol_selected);
        assert(a.wire_json().member("featuresEnabled"@)
            == b.wire_json().member("featuresEnabled"@));
        Told::told(&a.features_enabled, &b.features_enabled);
        assert(a.wire_json().member("actions"@) == b.wire_json().member("actions"@));
        Told::told(&a.actions, &b.actions);
        assert(a.wire_json().member("lockfileDigest"@) == b.wire_json().member("lockfileDigest"@));
        Told::told(&a.lockfile_digest, &b.lockfile_digest);
        assert(a.wire_json().member("attestedAt"@) == b.wire_json().member("attestedAt"@));
        Told::told(&a.attested_at, &b.attested_at);
    }
}

proof fn lemma_provider_error_keys()
    ensures
        keyed::key_code("wire"@) == 4119101101,
        keyed::key_code("message"@) == 7109103101,
        keyed::key_code("clientCode"@) == 10099111101,
        keyed::key_code("errorClass"@) == 10101097115,
        keyed::key_code("retryableSource"@) == 15114117101,
{
    reveal_strlit("wire");
    reveal_strlit("message");
    reveal_strlit("clientCode");
    reveal_strlit("errorClass");
    reveal_strlit("retryableSource");
}

/// The JSON form of [`ProviderError`] holds every field under its name, and nothing else.
pub proof fn law_provider_error_form(v: ProviderError)
    ensures
        v.wire_json() is Object,
        v.wire_json().member("errorClass"@) == Some(v.error_class.wire_json()),
        v.wire_json().member("message"@) == Some(v.message.wire_json()),
        v.wire_json().member("wire"@) == wire::wire_some(v.wire),
        v.wire_json().member("clientCode"@) == wire::wire_some(v.client_code),
        v.wire_json().member("retryableSource"@) == Some(v.retryable_source.wire_json()),
        forall|key: Seq<char>| #[trigger]
            v.wire_json().member(key) is Some ==> key == "errorClass"@ || key == "message"@
                || key == "wire"@ || key == "clientCode"@ || key == "retryableSource"@,
{
    broadcast use
        keyed::lemma_get_after_with,
        keyed::lemma_get_after_with_some,
        keyed::lemma_sorted_after_with,
        keyed::lemma_sorted_after_with_some,
    ;

    lemma_provider_error_keys();
}

impl Told for ProviderError {
    open spec fn ordered(&self) -> bool {
        true
    }

    open spec fn same(&self, other: &Self) -> bool {
        &&& self.error_class.same(&other.error_class)
        &&& self.message.same(&other.message)
        &&& told::same_some(self.wire, other.wire)
        &&& told::same_some(self.client_code, other.client_code)
        &&& self.retryable_source.same(&other.retryable_source)
    }

    proof fn told(a: &Self, b: &Self) {
        law_provider_error_form(*a);
        law_provider_error_form(*b);
        assert(a.wire_json().member("errorClass"@) == b.wire_json().member("errorClass"@));
        Told::told(&a.error_class, &b.error_class);
        assert(a.wire_json().member("message"@) == b.wire_json().member("message"@));
        Told::told(&a.message, &b.message);
        assert(a.wire_json().member("wire"@) == b.wire_json().member("wire"@));
        told::law_optional_values_are_told(a.wire, b.wire);
        assert(a.wire_json().member("clientCode"@) == b.wire_json().member("clientCode"@));
        told::law_optional_values_are_told(a.client_code, b.client_code);
        assert(a.wire_json().member("retryableSource"@)
            == b.wire_json().member("retryableSource"@));
        Told::told(&a.retryable_source, &b.retryable_source);
    }
}

proof fn lemma_open_session_options_keys()
    ensures
        keyed::key_code("deviceId"@) == 8100073100,
        keyed::key_code("endpoint"@) == 8101110116,
        keyed::key_code("lockfileDigest"@) == 14108103116,
        keyed::key_code("requiredFeatures"@) == 16114117115,
{
    reveal_strlit("deviceId");
    reveal_strlit("endpoint");
    reveal_strlit("lockfileDigest");
    reveal_strlit("requiredFeatures");
}

/// The JSON form of [`OpenSessionOptions`] holds every field under its name, and nothing else.
pub proof fn law_open_session_options_form(v: OpenSessionOptions)
    ensures
        v.wire_json() is Object,
        v.wire_json().member("endpoint"@) == Some(v.endpoint.wire_json()),
        v.wire_json().member("deviceId"@) == Some(v.device_id.wire_json()),
        v.wire_json().member("requiredFeatures"@) == Some(v.required_features.wire_json()),
        v.wire_json().member("lockfileDigest"@) == Some(v.lockfile_digest.wire_json()),
        forall|key: Seq<char>| #[trigger]
            v.wire_json().member(key) is Some ==> key == "endpoint"@ || key == "deviceId"@
                || key == "requiredFeatures"@ || key == "lockfileDigest"@,
{
    broadcast use
        keyed::lemma_get_after_with,
        keyed::lemma_get_after_with_some,
        keyed::lemma_sorted_after_with,
        keyed::lemma_sorted_after_with_some,
    ;

    lemma_open_session_options_keys();
}

impl Told for OpenSessionOptions {
    open spec fn ordered(&self) -> bool {
        true
    }

    open spec fn same(&self, other: &Self) -> bool {
        &&& self.endpoint.same(&other.endpoint)
        &&& self.device_id.same(&other.device_id)
        &&& self.required_features.same(&other.required_features)
        &&& self.lockfile_digest.same(&other.lockfile_digest)
    }

    proof fn told(a: &Self, b: &Self) {
        law_open_session_options_form(*a);
        law_open_session_options_form(*b);
        assert(a.wire_json().member("endpoint"@) == b.wire_json().member("endpoint"@));
        Told::told(&a.endpoint, &b.endpoint);
        assert(a.wire_json().member("deviceId"@) == b.wire_json().member("deviceId"@));
        Told::told(&a.device_id, &b.device_id);
        assert(a.wire_json().member("requiredFeatures"@)
            == b.wire_json().member("requiredFeatures"@));
        Told::told(&a.required_features, &b.required_features);
        assert(a.wire_json().member("lockfileDigest"@) == b.wire_json().member("lockfileDigest"@));
        Told::told(&a.lockfile_digest, &b.lockfile_digest);
    }
}

proof fn lemma_bound_action_call_keys()
    ensures
        keyed::key_code("callId"@) == 6099073100,
        keyed::key_code("arguments"@) == 9097110115,
        keyed::key_code("actionName"@) == 10097097101,
        keyed::key_code("actionTimeoutMs"@) == 15097117115,
        keyed::key_code("requestTimeoutMs"@) == 16114117115,
{
    reveal_strlit("callId");
    reveal_strlit("arguments");
    reveal_strlit("actionName");
    reveal_strlit("actionTimeoutMs");
    reveal_strlit("requestTimeoutMs");
}

/// The JSON form of [`BoundActionCall`] holds every field under its name, and nothing else.
pub proof fn law_bound_action_call_form(v: BoundActionCall)
    ensures
        v.wire_json() is Object,
        v.wire_json().member("callId"@) == Some(v.call_id.wire_json()),
        v.wire_json().member("actionName"@) == Some(v.action_name.wire_json()),
        v.wire_json().member("arguments"@) == Some(v.arguments.wire_json()),
        v.wire_json().member("actionTimeoutMs"@) == wire::wire_some(v.action_timeout_ms),
        v.wire_json().member("requestTimeoutMs"@) == wire::wire_some(v.request_timeout_ms),
        forall|key: Seq<char>| #[trigger]
            v.wire_json().member(key) is Some ==> key == "callId"@ || key == "actionName"@
                || key == "arguments"@ || key == "actionTimeoutMs"@ || key == "requestTimeoutMs"@,
{
    broadcast use
        keyed::lemma_get_after_with,
        keyed::lemma_get_after_with_some,
        keyed::lemma_sorted_after_with,
        keyed::lemma_sorted_after_with_some,
    ;

    lemma_bound_action_call_keys();
}

impl Told for BoundActionCall {
    open spec fn ordered(&self) -> bool {
        true
    }

    open spec fn same(&self, other: &Self) -> bool {
        &&& self.call_id.same(&other.call_id)
        &&& self.action_name.same(&other.action_name)
        &&& self.arguments.same(&other.arguments)
        &&& told::same_some(self.action_timeout_ms, other.action_timeout_ms)
        &&& told::same_some(self.request_timeout_ms, other.request_timeout_ms)
    }

    proof fn told(a: &Self, b: &Self) {
        law_bound_action_call_form(*a);
        law_bound_action_call_form(*b);
        assert(a.wire_json().member("callId"@) == b.wire_json().member("callId"@));
        Told::told(&a.call_id, &b.call_id);
        assert(a.wire_json().member("actionName"@) == b.wire_json().member("actionName"@));
        Told::told(&a.action_name, &b.action_name);
        assert(a.wire_json().member("arguments"@) == b.wire_json().member("arguments"@));
        Told::told(&a.arguments, &b.arguments);
        assert(a.wire_json().member("actionTimeoutMs"@)
            == b.wire_json().member("actionTimeoutMs"@));
        told::law_optional_values_are_told(a.action_timeout_ms, b.action_timeout_ms);
        assert(a.wire_json().member("requestTimeoutMs"@)
            == b.wire_json().member("requestTimeoutMs"@));
        told::law_optional_values_are_told(a.request_timeout_ms, b.request_timeout_ms);
    }
}

proof fn lemma_observe_request_keys()
    ensures
        keyed::key_code("wants"@) == 5119116115,
{
    reveal_strlit("wants");
}

/// The JSON form of [`ObserveRequest`] holds every field under its name, and nothing else.
pub proof fn law_observe_request_form(v: ObserveRequest)
    ensures
        v.wire_json() is Object,
        v.wire_json().member("wants"@) == Some(v.wants.wire_json()),
        forall|key: Seq<char>| #[trigger]
            v.wire_json().member(key) is Some ==> key == "wants"@,
{
    broadcast use
        keyed::lemma_get_after_with,
        keyed::lemma_get_after_with_some,
        keyed::lemma_sorted_after_with,
        keyed::lemma_sorted_after_with_some,
    ;

    lemma_observe_request_keys();
}

impl Told for ObserveRequest {
    open spec fn ordered(&self) -> bool {
        true
    }

    open spec fn same(&self, other: &Self) -> bool {
        self.wants.same(&other.wants)
    }

    proof fn told(a: &Self, b: &Self) {
        law_observe_request_form(*a);
        law_observe_request_form(*b);
        assert(a.wire_json().member("wants"@) == b.wire_json().member("wants"@));
        Told::told(&a.wants, &b.wants);
    }
}

proof fn lemma_verdict_write_keys()
    ensures
        keyed::key_code("status"@) == 6115117115,
        keyed::key_code("summary"@) == 7115114121,
        keyed::key_code("evidence"@) == 8101099101,
{
    reveal_strlit("status");
    reveal_strlit("summary");
    reveal_strlit("evidence");
}

/// The JSON form of [`VerdictWrite`] holds every field under its name, and nothing else.
pub proof fn law_verdict_write_form(v: VerdictWrite)
    ensures
        v.wire_json() is Object,
        v.wire_json().member("status"@) == Some(v.status.wire_json()),
        v.wire_json().member("summary"@) == Some(v.summary.wire_json()),
        v.wire_json().member("evidence"@) == Some(v.evidence.wire_json()),
        forall|key: Seq<char>| #[trigger]
            v.wire_json().member(key) is Some ==> key == "status"@ || key == "summary"@
                || key == "evidence"@,
{
    broadcast use
        keyed::lemma_get_after_with,
        keyed::lemma_get_after_with_some,
        keyed::lemma_sorted_after_with,
        keyed::lemma_sorted_after_with_some,
    ;

    lemma_verdict_write_keys();
}

impl Told for VerdictWrite {
    open spec fn ordered(&self) -> bool {
        true
    }

    open spec fn same(&self, other: &Self) -> bool {
        &&& self.status.same(&other.status)
        &&& self.summary.same(&other.summary)
        &&& self.evidence.same(&other.evidence)
    }

    proof fn told(a: &Self, b: &Self) {
        law_verdict_write_form(*a);
        law_verdict_write_form(*b);
        assert(a.wire_json().member("status"@) == b.wire_json().member("status"@));
        Told::told(&a.status, &b.status);
        assert(a.wire_json().member("summary"@) == b.wire_json().member("summary"@));
        Told::told(&a.summary, &b.summary);
        assert(a.wire_json().member("evidence"@) == b.wire_json().member("evidence"@));
        Told::told(&a.evidence, &b.evidence);
    }
}

proof fn lemma_session_health_keys()
    ensures
        keyed::key_code("ok"@) == 2111107107,
        keyed::key_code("degraded"@) == 8100101100,
{
    reveal_strlit("ok");
    reveal_strlit("degraded");
}

/// The JSON form of [`SessionHealth`] holds every field under its name, and nothing else.
pub proof fn law_session_health_form(v: SessionHealth)
    ensures
        v.wire_json() is Object,
        v.wire_json().member("ok"@) == Some(v.ok.wire_json()),
        v.wire_json().member("degraded"@) == wire::wire_some(v.degraded),
        forall|key: Seq<char>| #[trigger]
            v.wire_json().member(key) is Some ==> key == "ok"@ || key == "degraded"@,
{
    broadcast use
        keyed::lemma_get_after_with,
        keyed::lemma_get_after_with_some,
        keyed::lemma_sorted_after_with,
        keyed::lemma_sorted_after_with_some,
    ;

    lemma_session_health_keys();
}

impl Told for SessionHealth {
    open spec fn ordered(&self) -> bool {
        true
    }

    open spec fn same(&self, other: &Self) -> bool {
        &&& self.ok.same(&other.ok)
        &&& told::same_some(self.degraded, other.degraded)
    }

    proof fn told(a: &Self, b: &Self) {
        law_session_health_form(*a);
        law_session_health_form(*b);
        assert(a.wire_json().member("ok"@) == b.wire_json().member("ok"@));
        Told::told(&a.ok, &b.ok);
        assert(a.wire_json().member("degraded"@) == b.wire_json().member("degraded"@));
        told::law_optional_values_are_told(a.degraded, b.degraded);
    }
}

} // verus!
