//! The digest of a lockfile tells worlds apart: two lockfiles have the same
//! hash input exactly if they lock the same provider, handshake and device.

use vstd::prelude::*;
use vstd::string::*;
use vstd::utf8::*;

use crate::ir::canonical_laws;
use crate::ir::digest_laws;
use crate::ir::hash;
use crate::ir::primitives::FeatureId;
use crate::json::{JsonV, Members};
use crate::keyed;
use crate::kit::lockfile;
use crate::kit::lockfile::{
    CapabilityLockfile, LockfileDevice, LockfileHello, LockfileProvider, PeerInfo, ProtocolVersion,
    LOCKFILE_DIGEST_DOMAIN_TAG,
};
use crate::kit::manifest::{ActionDefinitionStatic, ActionProtection, PlatformKind};
use crate::wire;
use crate::wire::Wire;

verus! {

/// Whether the schemas of an action are in normal form.
pub open spec fn schemas_normal(action: ActionDefinitionStatic) -> bool {
    &&& canonical_laws::normal(action.input_schema@)
    &&& action.output_schema matches Some(schema) ==> canonical_laws::normal(schema@)
}

proof fn lemma_normal_action(action: ActionDefinitionStatic)
    requires
        schemas_normal(action),
    ensures
        canonical_laws::normal(action.wire_json()),
{
    broadcast use
        canonical_laws::lemma_normal_with,
        canonical_laws::lemma_normal_with_some,
    ;

    canonical_laws::lemma_normal_none();
    let named = Members::none().with("name"@, action.name.wire_json());
    assert(canonical_laws::normal(named.object()));
    let taking = named.with("inputSchema"@, action.input_schema.wire_json());
    assert(canonical_laws::normal(taking.object()));
    let giving = taking.with_some("outputSchema"@, wire::wire_some(action.output_schema));
    assert(canonical_laws::normal(giving.object()));
    let guarded = giving.with("protection"@, action.protection.wire_json());
    assert(canonical_laws::normal(guarded.object()));
}

proof fn lemma_normal_content(locked: CapabilityLockfile)
    requires
        forall|i: int|
            0 <= i < locked.device.actions@.len() ==> schemas_normal(
                #[trigger] locked.device.actions@[i],
            ),
    ensures
        canonical_laws::normal(lockfile::lockfile_content(locked)),
{
    broadcast use canonical_laws::lemma_normal_with;

    canonical_laws::lemma_normal_none();
    lockfile::law_digest_covers_content(locked);
    let none = Members::none();
    let provider = none.with("name"@, locked.provider.name.wire_json());
    assert(canonical_laws::normal(provider.object()));
    assert(canonical_laws::normal(locked.provider.wire_json()));
    let version = none.with("major"@, locked.hello.protocol_selected.major.wire_json());
    assert(canonical_laws::normal(version.object()));
    assert(canonical_laws::normal(locked.hello.protocol_selected.wire_json()));
    let server = none.with("name"@, locked.hello.server.name.wire_json());
    assert(canonical_laws::normal(server.object()));
    assert(canonical_laws::normal(locked.hello.server.wire_json()));
    let features = wire::wire_items(locked.hello.features_enabled@);
    assert forall|i: int| 0 <= i < features.len() implies canonical_laws::normal(
        #[trigger] features[i],
    ) by {
        assert(features[i] == JsonV::Text(locked.hello.features_enabled@[i]@));
    }
    assert(canonical_laws::normal(locked.hello.features_enabled.wire_json()));
    let selected = none.with("protocolSelected"@, locked.hello.protocol_selected.wire_json());
    assert(canonical_laws::normal(selected.object()));
    let enabled = selected.with("featuresEnabled"@, locked.hello.features_enabled.wire_json());
    assert(canonical_laws::normal(enabled.object()));
    assert(canonical_laws::normal(locked.hello.wire_json()));
    let actions = wire::wire_items(locked.device.actions@);
    assert forall|i: int| 0 <= i < actions.len() implies canonical_laws::normal(
        #[trigger] actions[i],
    ) by {
        lemma_normal_action(locked.device.actions@[i]);
    }
    assert(canonical_laws::normal(locked.device.actions.wire_json()));
    let platform = none.with("platform"@, locked.device.platform.wire_json());
    assert(canonical_laws::normal(platform.object()));
    assert(canonical_laws::normal(locked.device.wire_json()));
    let made = none.with("provider"@, locked.provider.wire_json());
    assert(canonical_laws::normal(made.object()));
    let greeted = made.with("hello"@, locked.hello.wire_json());
    assert(canonical_laws::normal(greeted.object()));
}

/// The JSON form of an optional schema.
pub open spec fn schema_view(action: ActionDefinitionStatic) -> Option<JsonV> {
    wire::wire_some(action.output_schema)
}

/// Whether two actions are the same.
pub open spec fn same_action(a: ActionDefinitionStatic, b: ActionDefinitionStatic) -> bool {
    &&& a.name@ == b.name@
    &&& a.input_schema@ == b.input_schema@
    &&& schema_view(a) == schema_view(b)
    &&& a.protection == b.protection
    &&& a.synthetic == b.synthetic
}

/// Whether two peers are the same.
pub open spec fn same_peer(a: PeerInfo, b: PeerInfo) -> bool {
    a.name@ == b.name@ && a.version@ == b.version@
}

/// Whether two handshakes gave the same.
pub open spec fn same_hello(a: LockfileHello, b: LockfileHello) -> bool {
    &&& a.protocol_selected == b.protocol_selected
    &&& a.features_enabled@.len() == b.features_enabled@.len()
    &&& forall|i: int|
        0 <= i < a.features_enabled@.len() ==> (#[trigger] a.features_enabled@[i])@
            == b.features_enabled@[i]@
    &&& same_peer(a.server, b.server)
}

/// Whether two devices are the same.
pub open spec fn same_device(a: LockfileDevice, b: LockfileDevice) -> bool {
    &&& a.platform == b.platform
    &&& a.actions@.len() == b.actions@.len()
    &&& forall|i: int|
        0 <= i < a.actions@.len() ==> same_action(#[trigger] a.actions@[i], b.actions@[i])
}

/// Whether two lockfiles lock the same world, whenever they were made.
pub open spec fn same_world(a: CapabilityLockfile, b: CapabilityLockfile) -> bool {
    &&& a.provider.name@ == b.provider.name@
    &&& a.provider.version@ == b.provider.version@
    &&& same_hello(a.hello, b.hello)
    &&& same_device(a.device, b.device)
}

proof fn lemma_keys()
    ensures
        keyed::key_code("name"@) == 4110101101,
        keyed::key_code("version"@) == 7118111110,
        keyed::key_code("protocolSelected"@) == 16112099100,
        keyed::key_code("featuresEnabled"@) == 15102098100,
        keyed::key_code("server"@) == 6115101114,
        keyed::key_code("platform"@) == 8112114109,
        keyed::key_code("actions"@) == 7097110115,
        keyed::key_code("inputSchema"@) == 11105101097,
        keyed::key_code("outputSchema"@) == 12111101097,
        keyed::key_code("protection"@) == 10112105110,
        keyed::key_code("synthetic"@) == 9115116099,
        keyed::key_code("provider"@) == 8112101114,
        keyed::key_code("hello"@) == 5104108111,
        keyed::key_code("device"@) == 6100099101,
        "major"@ != "minor"@,
{
    reveal_strlit("name");
    reveal_strlit("version");
    reveal_strlit("protocolSelected");
    reveal_strlit("featuresEnabled");
    reveal_strlit("server");
    reveal_strlit("platform");
    reveal_strlit("actions");
    reveal_strlit("inputSchema");
    reveal_strlit("outputSchema");
    reveal_strlit("protection");
    reveal_strlit("synthetic");
    reveal_strlit("provider");
    reveal_strlit("hello");
    reveal_strlit("device");
    reveal_strlit("major");
    reveal_strlit("minor");
    assert("major"@[1] != "minor"@[1]);
}

/// Two platforms with one spelling are the same.
proof fn lemma_platform_spelling(a: PlatformKind, b: PlatformKind)
    requires
        a.wire() == b.wire(),
    ensures
        a == b,
{
    reveal_strlit("android");
    reveal_strlit("ios");
    reveal_strlit("web");
    reveal_strlit("harmonyOs");
    reveal_strlit("macOs");
    reveal_strlit("windows");
    reveal_strlit("linux");
    reveal_strlit("rdp");
    assert("android"@.len() == 7 && "android"@[0] == 'a');
    assert("windows"@.len() == 7 && "windows"@[0] == 'w');
    assert("ios"@.len() == 3 && "ios"@[0] == 'i');
    assert("web"@.len() == 3 && "web"@[0] == 'w');
    assert("rdp"@.len() == 3 && "rdp"@[0] == 'r');
    assert("macOs"@.len() == 5 && "macOs"@[0] == 'm');
    assert("linux"@.len() == 5 && "linux"@[0] == 'l');
    assert("harmonyOs"@.len() == 9);
}

/// Two protection classes with one spelling are the same.
proof fn lemma_protection_spelling(a: ActionProtection, b: ActionProtection)
    requires
        a.wire() == b.wire(),
    ensures
        a == b,
{
    reveal_strlit("standard");
    reveal_strlit("protected");
    assert("standard"@.len() == 8);
    assert("protected"@.len() == 9);
}

proof fn lemma_named(name: Seq<char>, version: Seq<char>)
    ensures
        ({
            let m = Members::none().with("name"@, JsonV::Text(name)).with(
                "version"@,
                JsonV::Text(version),
            );
            m.get("name"@) == Some(JsonV::Text(name)) && m.get("version"@) == Some(
                JsonV::Text(version),
            )
        }),
{
    broadcast use keyed::lemma_get_after_with, keyed::lemma_sorted_after_with;

    lemma_keys();
}

proof fn lemma_version_form(a: ProtocolVersion, b: ProtocolVersion)
    requires
        a.wire_json() == b.wire_json(),
    ensures
        a == b,
{
    broadcast use keyed::lemma_get_after_with, keyed::lemma_sorted_after_with;

    lemma_keys();
    let x = Members::none().with("major"@, a.major.wire_json()).with("minor"@, a.minor.wire_json());
    let y = Members::none().with("major"@, b.major.wire_json()).with("minor"@, b.minor.wire_json());
    assert(x.get("major"@) == y.get("major"@));
    assert(x.get("minor"@) == y.get("minor"@));
}

proof fn lemma_action_form(a: ActionDefinitionStatic, b: ActionDefinitionStatic)
    ensures
        a.wire_json() == b.wire_json() <==> same_action(a, b),
{
    broadcast use
        keyed::lemma_get_after_with,
        keyed::lemma_get_after_with_some,
        keyed::lemma_sorted_after_with,
        keyed::lemma_sorted_after_with_some,
    ;

    lemma_keys();
    if a.wire_json() == b.wire_json() {
        let x = a.wire_json()->Object_0;
        let y = b.wire_json()->Object_0;
        assert(x.get("name"@) == Some(JsonV::Text(a.name@)));
        assert(y.get("name"@) == Some(JsonV::Text(b.name@)));
        assert(x.get("inputSchema"@) == Some(a.input_schema@));
        assert(y.get("inputSchema"@) == Some(b.input_schema@));
        assert(x.get("outputSchema"@) == schema_view(a));
        assert(y.get("outputSchema"@) == schema_view(b));
        assert(x.get("protection"@) == Some(JsonV::Text(a.protection.wire())));
        assert(y.get("protection"@) == Some(JsonV::Text(b.protection.wire())));
        assert(x.get("synthetic"@) == wire::wire_if_true(a.synthetic));
        assert(y.get("synthetic"@) == wire::wire_if_true(b.synthetic));
        lemma_protection_spelling(a.protection, b.protection);
    }
}

proof fn lemma_provider_form(a: LockfileProvider, b: LockfileProvider)
    ensures
        a.wire_json() == b.wire_json() <==> a.name@ == b.name@ && a.version@ == b.version@,
{
    lemma_named(a.name@, a.version@);
    lemma_named(b.name@, b.version@);
}

proof fn lemma_peer_form(a: PeerInfo, b: PeerInfo)
    ensures
        a.wire_json() == b.wire_json() <==> same_peer(a, b),
{
    lemma_named(a.name@, a.version@);
    lemma_named(b.name@, b.version@);
}

proof fn lemma_features_form(a: Seq<FeatureId>, b: Seq<FeatureId>)
    ensures
        wire::wire_items(a) == wire::wire_items(b) <==> a.len() == b.len() && forall|i: int|
            0 <= i < a.len() ==> (#[trigger] a[i])@ == b[i]@,
{
    let x = wire::wire_items(a);
    let y = wire::wire_items(b);
    assert forall|i: int| 0 <= i < x.len() implies #[trigger] x[i] == JsonV::Text(a[i]@) by {}
    assert forall|i: int| 0 <= i < y.len() implies #[trigger] y[i] == JsonV::Text(b[i]@) by {}
    if x == y {
        assert forall|i: int| 0 <= i < a.len() implies (#[trigger] a[i])@ == b[i]@ by {
            assert(x[i] == y[i]);
        }
    }
    if a.len() == b.len() && forall|i: int| 0 <= i < a.len() ==> (#[trigger] a[i])@ == b[i]@ {
        assert forall|i: int| 0 <= i < x.len() implies x[i] == y[i] by {
            assert(a[i]@ == b[i]@);
        }
        assert(x =~= y);
    }
}

proof fn lemma_hello_form(a: LockfileHello, b: LockfileHello)
    ensures
        a.wire_json() == b.wire_json() <==> same_hello(a, b),
{
    broadcast use keyed::lemma_get_after_with, keyed::lemma_sorted_after_with;

    lemma_keys();
    lemma_features_form(a.features_enabled@, b.features_enabled@);
    lemma_peer_form(a.server, b.server);
    if a.wire_json() == b.wire_json() {
        let x = a.wire_json()->Object_0;
        let y = b.wire_json()->Object_0;
        assert(x.get("protocolSelected"@) == Some(a.protocol_selected.wire_json()));
        assert(y.get("protocolSelected"@) == Some(b.protocol_selected.wire_json()));
        assert(x.get("featuresEnabled"@) == Some(a.features_enabled.wire_json()));
        assert(y.get("featuresEnabled"@) == Some(b.features_enabled.wire_json()));
        assert(x.get("server"@) == Some(a.server.wire_json()));
        assert(y.get("server"@) == Some(b.server.wire_json()));
        lemma_version_form(a.protocol_selected, b.protocol_selected);
    }
}

#[verifier::spinoff_prover]
proof fn lemma_actions_form(a: Seq<ActionDefinitionStatic>, b: Seq<ActionDefinitionStatic>)
    ensures
        wire::wire_items(a) == wire::wire_items(b) <==> a.len() == b.len() && forall|i: int|
            0 <= i < a.len() ==> same_action(#[trigger] a[i], b[i]),
{
    let x = wire::wire_items(a);
    let y = wire::wire_items(b);
    assert(x.len() == a.len() && y.len() == b.len());
    if x == y {
        assert forall|i: int| 0 <= i < a.len() implies same_action(#[trigger] a[i], b[i]) by {
            assert(x[i] == y[i]);
            assert(x[i] == a[i].wire_json());
            assert(y[i] == b[i].wire_json());
            lemma_action_form(a[i], b[i]);
        }
    }
    if a.len() == b.len() && forall|i: int|
        0 <= i < a.len() ==> same_action(#[trigger] a[i], b[i]) {
        assert forall|i: int| 0 <= i < x.len() implies x[i] == y[i] by {
            assert(same_action(a[i], b[i]));
            assert(x[i] == a[i].wire_json());
            assert(y[i] == b[i].wire_json());
            lemma_action_form(a[i], b[i]);
        }
        assert(x =~= y);
    }
}

proof fn lemma_device_form(a: LockfileDevice, b: LockfileDevice)
    ensures
        a.wire_json() == b.wire_json() <==> same_device(a, b),
{
    broadcast use keyed::lemma_get_after_with, keyed::lemma_sorted_after_with;

    lemma_keys();
    lemma_actions_form(a.actions@, b.actions@);
    if a.wire_json() == b.wire_json() {
        let x = a.wire_json()->Object_0;
        let y = b.wire_json()->Object_0;
        assert(x.get("platform"@) == Some(JsonV::Text(a.platform.wire())));
        assert(y.get("platform"@) == Some(JsonV::Text(b.platform.wire())));
        assert(x.get("actions"@) == Some(a.actions.wire_json()));
        assert(y.get("actions"@) == Some(b.actions.wire_json()));
        lemma_platform_spelling(a.platform, b.platform);
    }
}

proof fn lemma_content_form(a: CapabilityLockfile, b: CapabilityLockfile)
    ensures
        lockfile::lockfile_content(a) == lockfile::lockfile_content(b) <==> same_world(a, b),
{
    broadcast use keyed::lemma_get_after_with, keyed::lemma_sorted_after_with;

    lemma_keys();
    lockfile::law_digest_covers_content(a);
    lockfile::law_digest_covers_content(b);
    lemma_provider_form(a.provider, b.provider);
    lemma_hello_form(a.hello, b.hello);
    lemma_device_form(a.device, b.device);
    let x = lockfile::content_members(a);
    let y = lockfile::content_members(b);
    assert(x.get("provider"@) == Some(a.provider.wire_json()));
    assert(y.get("provider"@) == Some(b.provider.wire_json()));
    assert(x.get("hello"@) == Some(a.hello.wire_json()));
    assert(y.get("hello"@) == Some(b.hello.wire_json()));
    assert(x.get("device"@) == Some(a.device.wire_json()));
    assert(y.get("device"@) == Some(b.device.wire_json()));
}

/// Any drift changes what the digest is computed from, and nothing else does:
/// two lockfiles have the same hash input exactly if provider, protocol,
/// features, server, platform and actions are the same. The numbers in the
/// schemas of the actions are in normal form, as numbers that were read from a
/// JSON text are.
pub proof fn law_drift_changes_what_is_hashed(a: CapabilityLockfile, b: CapabilityLockfile)
    requires
        forall|i: int|
            0 <= i < a.device.actions@.len() ==> schemas_normal(#[trigger] a.device.actions@[i]),
        forall|i: int|
            0 <= i < b.device.actions@.len() ==> schemas_normal(#[trigger] b.device.actions@[i]),
    ensures
        encode_utf8(hash::preimage(LOCKFILE_DIGEST_DOMAIN_TAG@, lockfile::lockfile_content(a)))
            == encode_utf8(
            hash::preimage(LOCKFILE_DIGEST_DOMAIN_TAG@, lockfile::lockfile_content(b)),
        ) <==> same_world(a, b),
        same_world(a, b) ==> lockfile::digest_of(a) == lockfile::digest_of(b),
{
    lemma_normal_content(a);
    lemma_normal_content(b);
    lemma_content_form(a, b);
    if !same_world(a, b) {
        canonical_laws::law_hashed_bytes_tell_contents_apart(
            LOCKFILE_DIGEST_DOMAIN_TAG@,
            lockfile::lockfile_content(a),
            lockfile::lockfile_content(b),
        );
    }
}

/// Another world has another digest, up to a collision of SHA-256; so a lockfile
/// whose world was changed under its digest is inconsistent, such as one that
/// lost an enabled feature.
pub proof fn law_other_worlds_have_other_digests(a: CapabilityLockfile, b: CapabilityLockfile)
    requires
        forall|i: int|
            0 <= i < a.device.actions@.len() ==> schemas_normal(#[trigger] a.device.actions@[i]),
        forall|i: int|
            0 <= i < b.device.actions@.len() ==> schemas_normal(#[trigger] b.device.actions@[i]),
        !same_world(a, b),
        digest_laws::no_collision(
            digest_laws::hashed_bytes(LOCKFILE_DIGEST_DOMAIN_TAG@, lockfile::lockfile_content(a)),
            digest_laws::hashed_bytes(LOCKFILE_DIGEST_DOMAIN_TAG@, lockfile::lockfile_content(b)),
        ),
    ensures
        lockfile::digest_of(a) != lockfile::digest_of(b),
        a.digest@ == lockfile::digest_of(a) && b.digest@ == a.digest@ ==> b.digest@
            != lockfile::digest_of(b),
{
    lemma_normal_content(a);
    lemma_normal_content(b);
    lemma_content_form(a, b);
    digest_laws::law_other_contents_have_other_hashes(
        LOCKFILE_DIGEST_DOMAIN_TAG@,
        lockfile::lockfile_content(a),
        lockfile::lockfile_content(b),
    );
}

} // verus!
