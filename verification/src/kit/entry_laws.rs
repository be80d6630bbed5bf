//! The manifests: what each entry says, and which entries there are.

use vstd::prelude::*;
use vstd::string::*;

use crate::devicerail::manifest;
use crate::ir::vocab::{CanonicalVerb, Channel};
use crate::json::{JsonV, Members};
use crate::keyed;
use crate::kit::fake;
use crate::kit::lockfile;
use crate::kit::lockfile::{CapabilityAttestation, CapabilityLockfile};
use crate::kit::manifest::{ChannelRole, PlatformKind, ProviderManifest};
use crate::wire;
use crate::wire::Wire;

verus! {

proof fn lemma_entry_keys()
    ensures
        keyed::key_code("name"@) == 4110101101,
        keyed::key_code("role"@) == 4114101101,
        keyed::key_code("verb"@) == 4118098098,
        keyed::key_code("argMap"@) == 6097097112,
        keyed::key_code("channel"@) == 7099101108,
        keyed::key_code("feature"@) == 7102114101,
        keyed::key_code("synthetic"@) == 9115116099,
        keyed::key_code("actionName"@) == 10097097101,
        keyed::key_code("protection"@) == 10112105110,
        keyed::key_code("inputSchema"@) == 11105101097,
        keyed::key_code("outputSchema"@) == 12111101097,
        keyed::key_code("requiresFeature"@) == 15114116101,
        keyed::key_code("requiresPlatform"@) == 16114102109,
{
    reveal_strlit("name");
    reveal_strlit("role");
    reveal_strlit("verb");
    reveal_strlit("argMap");
    reveal_strlit("channel");
    reveal_strlit("feature");
    reveal_strlit("synthetic");
    reveal_strlit("actionName");
    reveal_strlit("protection");
    reveal_strlit("inputSchema");
    reveal_strlit("outputSchema");
    reveal_strlit("requiresFeature");
    reveal_strlit("requiresPlatform");
}

/// An optional text, as a member.
pub open spec fn text_member(t: Option<Seq<char>>) -> Option<JsonV> {
    match t {
        Some(s) => Some(JsonV::Text(s)),
        None => None,
    }
}

/// The entry of an action has its name, its schemas and standard protection, and says that the
/// provider serves it itself just where it does.
pub proof fn law_action_entries(
    name: Seq<char>,
    input: JsonV,
    output: JsonV,
    synthetic: bool,
)
    ensures
        ({
            let a = manifest::action_form(name, input, output, synthetic);
            let b = fake::action_json(name, input, synthetic);
            &&& a.member("name"@) == Some(JsonV::Text(name))
            &&& a.member("inputSchema"@) == Some(input)
            &&& a.member("outputSchema"@) == Some(output)
            &&& a.member("protection"@) == Some(JsonV::Text("standard"@))
            &&& a.member("synthetic"@) == (if synthetic {
                Some(JsonV::Bool(true))
            } else {
                None
            })
            &&& b.member("name"@) == Some(JsonV::Text(name))
            &&& b.member("inputSchema"@) == Some(input)
            &&& b.member("outputSchema"@) is None
            &&& b.member("protection"@) == Some(JsonV::Text("standard"@))
            &&& b.member("synthetic"@) == (if synthetic {
                Some(JsonV::Bool(true))
            } else {
                None
            })
        }),
{
    broadcast use
        keyed::lemma_get_after_with,
        keyed::lemma_get_after_with_some,
        keyed::lemma_sorted_after_with,
        keyed::lemma_sorted_after_with_some,
    ;

    lemma_entry_keys();
}

/// The entry of a binding has its verb, the action that it is bound to, the feature that it
/// needs if it needs one, and its arguments, each surface name with its native one.
pub proof fn law_binding_entries(
    verb: CanonicalVerb,
    name: Seq<char>,
    feature: Option<Seq<char>>,
    args: Members,
    arg: Seq<char>,
    native: Seq<char>,
)
    ensures
        ({
            let a = manifest::binding_form(verb, name, feature, args);
            let b = fake::binding_json(verb, name, feature, Some(arg));
            let c = fake::binding_json(verb, name, feature, None);
            &&& a.member("verb"@) == Some(JsonV::Text(verb.wire()))
            &&& a.member("actionName"@) == Some(JsonV::Text(name))
            &&& a.member("requiresFeature"@) == text_member(feature)
            &&& a.member("argMap"@) == Some(JsonV::Object(args))
            &&& b.member("verb"@) == Some(JsonV::Text(verb.wire()))
            &&& b.member("actionName"@) == Some(JsonV::Text(name))
            &&& b.member("requiresFeature"@) == text_member(feature)
            &&& b.member("argMap"@) is Some
            &&& b.member("argMap"@)->0.member(arg) == Some(JsonV::Text(arg))
            &&& c.member("argMap"@) == Some(JsonV::Object(Members::none()))
            &&& manifest::one_arg(arg, native).get(arg) == Some(JsonV::Text(native))
        }),
{
    broadcast use
        keyed::lemma_get_after_with,
        keyed::lemma_get_after_with_some,
        keyed::lemma_sorted_after_with,
        keyed::lemma_sorted_after_with_some,
    ;

    lemma_entry_keys();
}

/// The entry of a channel has its name, its role and the feature that it needs; the entry of a
/// feature its id, and the mobile platforms where it needs a driver for semantic UI.
pub proof fn law_channel_and_feature_entries(
    channel: Channel,
    role: ChannelRole,
    feature: Option<Seq<char>>,
    id: Seq<char>,
)
    ensures
        ({
            let a = manifest::channel_form(channel, role, feature);
            let b = fake::channel_json(channel, role, feature);
            let c = manifest::anywhere_form(id);
            let d = manifest::semantic_form(id);
            &&& a.member("channel"@) == Some(JsonV::Text(channel.wire()))
            &&& a.member("role"@) == Some(JsonV::Text(role.wire()))
            &&& a.member("requiresFeature"@) == text_member(feature)
            &&& a.member("requiresPlatform"@) is None
            &&& b.member("channel"@) == Some(JsonV::Text(channel.wire()))
            &&& b.member("role"@) == Some(JsonV::Text(role.wire()))
            &&& b.member("requiresFeature"@) == text_member(feature)
            &&& c.member("feature"@) == Some(JsonV::Text(id))
            &&& c.member("requiresPlatform"@) is None
            &&& d.member("feature"@) == Some(JsonV::Text(id))
            &&& d.member("requiresPlatform"@) == Some(
                JsonV::Array(
                    seq![
                        PlatformKind::Android.wire_json(),
                        PlatformKind::Ios.wire_json(),
                        PlatformKind::HarmonyOs.wire_json(),
                    ],
                ),
            )
        }),
{
    broadcast use
        keyed::lemma_get_after_with,
        keyed::lemma_get_after_with_some,
        keyed::lemma_sorted_after_with,
        keyed::lemma_sorted_after_with_some,
    ;

    lemma_entry_keys();
}

/// Each verb is bound to its own action: what acts on an element to the action that takes one,
/// under the feature for semantic actions, and an observation to the action that makes one.
pub proof fn law_verbs_are_bound_to_their_actions()
    ensures
        ({
            let b = manifest::verb_bindings_form();
            let pair = |i: int, verb: CanonicalVerb, name: Seq<char>, semantic: bool|
                b[i].member("verb"@) == Some(JsonV::Text(verb.wire())) && b[i].member(
                    "actionName"@,
                ) == Some(JsonV::Text(name)) && b[i].member("requiresFeature"@) == (if semantic {
                    Some(JsonV::Text("device.semanticActions.v1"@))
                } else {
                    None
                });
            &&& b.len() == 8
            &&& pair(0, CanonicalVerb::Tap, "tapElement"@, true)
            &&& pair(1, CanonicalVerb::SetValue, "setElementValue"@, true)
            &&& pair(2, CanonicalVerb::Clear, "clearElement"@, true)
            &&& pair(3, CanonicalVerb::WaitFor, "waitForElement"@, true)
            &&& pair(4, CanonicalVerb::Find, "findElement"@, true)
            &&& pair(5, CanonicalVerb::Observe, "observe"@, false)
            &&& pair(6, CanonicalVerb::Screenshot, "screenshot"@, false)
            &&& pair(7, CanonicalVerb::Tap, "tap"@, false)
        }),
{
    let semantic = Some("device.semanticActions.v1"@);
    let el = manifest::one_arg("element"@, "target"@);
    let none: Option<Seq<char>> = None;
    law_binding_entries(
        CanonicalVerb::Tap,
        "tapElement"@,
        semantic,
        el,
        "x"@,
        "x"@,
    );
    law_binding_entries(
        CanonicalVerb::SetValue,
        "setElementValue"@,
        semantic,
        el.with("value"@, JsonV::Text("value"@)),
        "x"@,
        "x"@,
    );
    law_binding_entries(
        CanonicalVerb::Clear,
        "clearElement"@,
        semantic,
        el,
        "x"@,
        "x"@,
    );
    law_binding_entries(
        CanonicalVerb::WaitFor,
        "waitForElement"@,
        semantic,
        manifest::one_arg("element"@, "selector"@).with("state"@, JsonV::Text("condition"@)),
        "x"@,
        "x"@,
    );
    law_binding_entries(
        CanonicalVerb::Find,
        "findElement"@,
        semantic,
        manifest::one_arg("element"@, "selector"@),
        "x"@,
        "x"@,
    );
    law_binding_entries(
        CanonicalVerb::Observe,
        "observe"@,
        none,
        manifest::one_arg("wants"@, "wants"@),
        "x"@,
        "x"@,
    );
    law_binding_entries(
        CanonicalVerb::Screenshot,
        "screenshot"@,
        none,
        Members::none(),
        "x"@,
        "x"@,
    );
    law_binding_entries(
        CanonicalVerb::Tap,
        "tap"@,
        none,
        manifest::one_arg("x"@, "x"@).with("y"@, JsonV::Text("y"@)),
        "x"@,
        "x"@,
    );
}

/// The lockfile that goes with the fake provider has the manifest's name, version and features,
/// an Android device, the driver's actions, and the digest of its content.
pub proof fn law_default_lockfiles(l: CapabilityLockfile, m: ProviderManifest)
    requires
        fake::is_default_lockfile(l, m),
    ensures
        l.provider.name@ == m.name@,
        l.provider.version@ == m.version@,
        l.attested_at@ == "1970-01-01T00:00:00Z"@,
        l.hello.protocol_selected.major == 1,
        l.hello.protocol_selected.minor == 5,
        l.hello.server.name@ == "fake-daemon"@,
        l.hello.server.version@ == m.version@,
        l.device.platform == PlatformKind::Android,
        l.hello.features_enabled@.len() == m.features.guaranteed@.len(),
        wire::wire_items(l.device.actions@) == fake::driver_actions(m.known_actions@),
        lockfile::digest_of(l) == l.digest@,
{
    assert(wire::wire_items(l.hello.features_enabled@).len() == l.hello.features_enabled@.len());
    assert(wire::wire_items(m.features.guaranteed@).len() == m.features.guaranteed@.len());
}

/// An attestation of the fake provider is of its lockfile, one second after the epoch.
pub proof fn law_fake_attestations(a: CapabilityAttestation, l: CapabilityLockfile)
    requires
        fake::is_attestation_of(a, l),
    ensures
        a.provider_id@ == l.provider.name@,
        a.protocol_selected == l.hello.protocol_selected,
        a.lockfile_digest@ == l.digest@,
        a.attested_at@ == "1970-01-01T00:00:01Z"@,
        a.features_enabled.as_map() == lockfile::feature_set(l.hello.features_enabled@),
        wire::wire_members(a.actions@.entries) == lockfile::actions_by_name(l.device.actions@),
{
}

} // verus!
