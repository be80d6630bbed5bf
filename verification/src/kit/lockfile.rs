//! The capability lockfile and the attestation of a session.

use vstd::prelude::*;

use crate::ir::flow::FeatureSet;
use crate::ir::hash;
use crate::ir::hash::domain_hash;
use crate::ir::primitives::FeatureId;
use crate::json::{Json, JsonMap, JsonV, Members};
use crate::keyed;
use crate::keyed::{Keyed, TextMap};
use crate::kit::manifest::{ActionDefinitionStatic, PlatformKind};
use crate::text::same_text;
use crate::wire;
use crate::wire::{Duplicate, Wire};

verus! {

/// Domain tag of the lockfile digest.
pub const LOCKFILE_DIGEST_DOMAIN_TAG: &'static str = "pointlock-lockfile/1";

/// The provider that made a lockfile.
#[derive(Debug, PartialEq, Eq)]
pub struct LockfileProvider {
    /// Provider name.
    pub name: String,
    /// Provider package version.
    pub version: String,
}

impl Wire for LockfileProvider {
    open spec fn wire_json(&self) -> JsonV {
        Members::none()
            .with("name"@, self.name.wire_json())
            .with("version"@, self.version.wire_json())
            .object()
    }

    fn to_json(&self) -> (r: Json) {
        JsonMap::new()
            .with("name", self.name.to_json())
            .with("version", self.version.to_json())
            .object()
    }
}

impl Duplicate for LockfileProvider {
    fn duplicate(&self) -> (r: Self) {
        LockfileProvider {
            name: self.name.duplicate(),
            version: self.version.duplicate(),
        }
    }
}

impl Clone for LockfileProvider {
    fn clone(&self) -> (r: Self)
        ensures
            r.wire_json() == self.wire_json(),
    {
        self.duplicate()
    }
}

/// A negotiated protocol version.
#[derive(Debug, Clone, Copy, PartialEq, Eq, Structural)]
pub struct ProtocolVersion {
    /// Major version.
    pub major: u64,
    /// Minor version.
    pub minor: u64,
}

impl Wire for ProtocolVersion {
    open spec fn wire_json(&self) -> JsonV {
        Members::none()
            .with("major"@, self.major.wire_json())
            .with("minor"@, self.minor.wire_json())
            .object()
    }

    fn to_json(&self) -> (r: Json) {
        JsonMap::new()
            .with("major", self.major.to_json())
            .with("minor", self.minor.to_json())
            .object()
    }
}

impl Duplicate for ProtocolVersion {
    fn duplicate(&self) -> (r: Self) {
        *self
    }
}

/// Identity of a daemon.
#[derive(Debug, PartialEq, Eq)]
pub struct PeerInfo {
    /// Server name.
    pub name: String,
    /// Server version.
    pub version: String,
}

impl Wire for PeerInfo {
    open spec fn wire_json(&self) -> JsonV {
        Members::none()
            .with("name"@, self.name.wire_json())
            .with("version"@, self.version.wire_json())
            .object()
    }

    fn to_json(&self) -> (r: Json) {
        JsonMap::new()
            .with("name", self.name.to_json())
            .with("version", self.version.to_json())
            .object()
    }
}

impl Duplicate for PeerInfo {
    fn duplicate(&self) -> (r: Self) {
        PeerInfo {
            name: self.name.duplicate(),
            version: self.version.duplicate(),
        }
    }
}

impl Clone for PeerInfo {
    fn clone(&self) -> (r: Self)
        ensures
            r.wire_json() == self.wire_json(),
    {
        self.duplicate()
    }
}

/// What a handshake gave.
#[derive(Debug, PartialEq, Eq)]
pub struct LockfileHello {
    /// Negotiated protocol version.
    pub protocol_selected: ProtocolVersion,
    /// Enabled features.
    pub features_enabled: Vec<FeatureId>,
    /// The daemon.
    pub server: PeerInfo,
}

impl Wire for LockfileHello {
    open spec fn wire_json(&self) -> JsonV {
        Members::none()
            .with("protocolSelected"@, self.protocol_selected.wire_json())
            .with("featuresEnabled"@, self.features_enabled.wire_json())
            .with("server"@, self.server.wire_json())
            .object()
    }

    fn to_json(&self) -> (r: Json) {
        JsonMap::new()
            .with("protocolSelected", self.protocol_selected.to_json())
            .with("featuresEnabled", self.features_enabled.to_json())
            .with("server", self.server.to_json())
            .object()
    }
}

impl Duplicate for LockfileHello {
    fn duplicate(&self) -> (r: Self) {
        LockfileHello {
            protocol_selected: self.protocol_selected.duplicate(),
            features_enabled: self.features_enabled.duplicate(),
            server: self.server.duplicate(),
        }
    }
}

impl Clone for LockfileHello {
    fn clone(&self) -> (r: Self)
        ensures
            r.wire_json() == self.wire_json(),
    {
        self.duplicate()
    }
}

/// What a device can do.
#[derive(Debug, PartialEq, Eq)]
pub struct LockfileDevice {
    /// Platform of the device.
    pub platform: PlatformKind,
    /// Its actions.
    pub actions: Vec<ActionDefinitionStatic>,
}

impl Wire for LockfileDevice {
    open spec fn wire_json(&self) -> JsonV {
        Members::none()
            .with("platform"@, self.platform.wire_json())
            .with("actions"@, self.actions.wire_json())
            .object()
    }

    fn to_json(&self) -> (r: Json) {
        JsonMap::new()
            .with("platform", self.platform.to_json())
            .with("actions", self.actions.to_json())
            .object()
    }
}

impl Duplicate for LockfileDevice {
    fn duplicate(&self) -> (r: Self) {
        LockfileDevice {
            platform: self.platform.duplicate(),
            actions: self.actions.duplicate(),
        }
    }
}

impl Clone for LockfileDevice {
    fn clone(&self) -> (r: Self)
        ensures
            r.wire_json() == self.wire_json(),
    {
        self.duplicate()
    }
}

/// The frozen capabilities of a daemon and a device.
#[derive(Debug, PartialEq, Eq)]
pub struct CapabilityLockfile {
    /// The provider that made this lockfile.
    pub provider: LockfileProvider,
    /// Time of the lock run.
    pub attested_at: String,
    /// What the handshake gave.
    pub hello: LockfileHello,
    /// What the device can do.
    pub device: LockfileDevice,
    /// Digest of the content.
    pub digest: crate::ir::primitives::Hash,
}

impl Wire for CapabilityLockfile {
    open spec fn wire_json(&self) -> JsonV {
        Members::none()
            .with("provider"@, self.provider.wire_json())
            .with("attestedAt"@, self.attested_at.wire_json())
            .with("hello"@, self.hello.wire_json())
            .with("device"@, self.device.wire_json())
            .with("digest"@, self.digest.wire_json())
            .object()
    }

    fn to_json(&self) -> (r: Json) {
        JsonMap::new()
            .with("provider", self.provider.to_json())
            .with("attestedAt", self.attested_at.to_json())
            .with("hello", self.hello.to_json())
            .with("device", self.device.to_json())
            .with("digest", self.digest.to_json())
            .object()
    }
}

impl Duplicate for CapabilityLockfile {
    fn duplicate(&self) -> (r: Self) {
        CapabilityLockfile {
            provider: self.provider.duplicate(),
            attested_at: self.attested_at.duplicate(),
            hello: self.hello.duplicate(),
            device: self.device.duplicate(),
            digest: self.digest.duplicate(),
        }
    }
}

impl Clone for CapabilityLockfile {
    fn clone(&self) -> (r: Self)
        ensures
            r.wire_json() == self.wire_json(),
    {
        self.duplicate()
    }
}

/// What the digest of a lockfile covers: its JSON form but for `digest` itself
/// and the time of the lock run.
pub open spec fn lockfile_content(lockfile: CapabilityLockfile) -> JsonV {
    Members::none().with("provider"@, lockfile.provider.wire_json()).with(
        "attestedAt"@,
        lockfile.attested_at.wire_json(),
    ).with("hello"@, lockfile.hello.wire_json()).with("device"@, lockfile.device.wire_json()).with(
        "digest"@,
        lockfile.digest.wire_json(),
    ).without("digest"@).without("attestedAt"@).object()
}

/// The digest that a lockfile should carry.
pub open spec fn digest_of(lockfile: CapabilityLockfile) -> Seq<char> {
    hash::content_hash(LOCKFILE_DIGEST_DOMAIN_TAG@, lockfile_content(lockfile))
}

impl CapabilityLockfile {
    /// Whether the stored digest is the digest of the content.
    pub fn digest_consistent(&self) -> (r: bool)
        ensures
            r == (digest_of(*self) == self.digest@),
    {
        same_text(lockfile_digest(self).as_str(), self.digest.as_str())
    }

    /// Stores the digest of the content.
    pub fn seal(&mut self)
        ensures
            final(self).digest@ == digest_of(*old(self)),
            *final(self) == (CapabilityLockfile { digest: final(self).digest, ..*old(self) }),
    {
        self.digest = lockfile_digest(self);
    }
}

/// Computes the digest of a lockfile's content.
pub fn lockfile_digest(lockfile: &CapabilityLockfile) -> (r: crate::ir::primitives::Hash)
    ensures
        r@ == digest_of(*lockfile),
{
    let content = JsonMap::new().with("provider", lockfile.provider.to_json()).with(
        "attestedAt",
        lockfile.attested_at.to_json(),
    ).with("hello", lockfile.hello.to_json()).with("device", lockfile.device.to_json()).with(
        "digest",
        lockfile.digest.to_json(),
    ).without("digest").without("attestedAt").object();
    domain_hash(LOCKFILE_DIGEST_DOMAIN_TAG, &content)
}

/// What the digest covers, member by member.
pub open spec fn content_members(lockfile: CapabilityLockfile) -> Members {
    Members::none().with("provider"@, lockfile.provider.wire_json()).with(
        "hello"@,
        lockfile.hello.wire_json(),
    ).with("device"@, lockfile.device.wire_json())
}

/// The member names of a lockfile differ from one another.
proof fn lemma_lockfile_keys()
    ensures
        keyed::key_code("provider"@) == 8112101114,
        keyed::key_code("attestedAt"@) == 10097100116,
        keyed::key_code("hello"@) == 5104108111,
        keyed::key_code("device"@) == 6100099101,
        keyed::key_code("digest"@) == 6100115116,
{
    reveal_strlit("provider");
    reveal_strlit("attestedAt");
    reveal_strlit("hello");
    reveal_strlit("device");
    reveal_strlit("digest");
}

/// The digest covers exactly the provider, the handshake and the device.
pub proof fn law_digest_covers_content(lockfile: CapabilityLockfile)
    ensures
        lockfile_content(lockfile) == content_members(lockfile).object(),
{
    broadcast use keyed::lemma_sorted_after_with;

    lemma_lockfile_keys();
    let all = Members::none().with("provider"@, lockfile.provider.wire_json()).with(
        "attestedAt"@,
        lockfile.attested_at.wire_json(),
    ).with("hello"@, lockfile.hello.wire_json()).with("device"@, lockfile.device.wire_json()).with(
        "digest"@,
        lockfile.digest.wire_json(),
    );
    let fewer = all.without("digest"@);
    let least = fewer.without("attestedAt"@);
    keyed::lemma_without_sorted(all, "digest"@);
    keyed::lemma_without_sorted(fewer, "attestedAt"@);
    assert forall|key: Seq<char>| least.get(key) == content_members(lockfile).get(key) by {
        lemma_content_member(lockfile, key);
    }
    keyed::lemma_same_entries(least, content_members(lockfile));
}

proof fn lemma_content_member(lockfile: CapabilityLockfile, key: Seq<char>)
    ensures
        (lockfile_content(lockfile)->Object_0).get(key) == content_members(lockfile).get(key),
{
    broadcast use keyed::lemma_get_after_with, keyed::lemma_sorted_after_with;

    lemma_lockfile_keys();
    let all = Members::none().with("provider"@, lockfile.provider.wire_json()).with(
        "attestedAt"@,
        lockfile.attested_at.wire_json(),
    ).with("hello"@, lockfile.hello.wire_json()).with("device"@, lockfile.device.wire_json()).with(
        "digest"@,
        lockfile.digest.wire_json(),
    );
    keyed::law_removed(all, "digest"@, key);
    keyed::law_removed(all.without("digest"@), "attestedAt"@, key);
}

/// Locking an unchanged daemon again gives the same digest: neither the stored
/// digest nor the time of the lock run moves it.
pub proof fn law_digest_ignores_itself_and_the_time(
    lockfile: CapabilityLockfile,
    digest: crate::ir::primitives::Hash,
    attested_at: String,
)
    ensures
        digest_of(CapabilityLockfile { digest, attested_at, ..lockfile }) == digest_of(lockfile),
{
    law_digest_covers_content(lockfile);
    law_digest_covers_content(CapabilityLockfile { digest, attested_at, ..lockfile });
}

/// A sealed lockfile is consistent.
pub proof fn law_sealed_is_consistent(before: CapabilityLockfile, after: CapabilityLockfile)
    requires
        after.digest@ == digest_of(before),
        after == (CapabilityLockfile { digest: after.digest, ..before }),
    ensures
        digest_of(after) == after.digest@,
{
    law_digest_covers_content(before);
    law_digest_covers_content(after);
}

/// What a session was attested with.
#[derive(Debug, PartialEq, Eq)]
pub struct CapabilityAttestation {
    /// Provider name.
    pub provider_id: String,
    /// Protocol version of the handshake.
    pub protocol_selected: ProtocolVersion,
    /// Features of the handshake.
    pub features_enabled: FeatureSet,
    /// Attested actions by name.
    pub actions: TextMap<ActionDefinitionStatic>,
    /// Digest that the live world was checked against.
    pub lockfile_digest: crate::ir::primitives::Hash,
    /// Time of the attestation.
    pub attested_at: String,
}

impl Wire for CapabilityAttestation {
    open spec fn wire_json(&self) -> JsonV {
        Members::none()
            .with("providerId"@, self.provider_id.wire_json())
            .with("protocolSelected"@, self.protocol_selected.wire_json())
            .with("featuresEnabled"@, self.features_enabled.wire_json())
            .with("actions"@, self.actions.wire_json())
            .with("lockfileDigest"@, self.lockfile_digest.wire_json())
            .with("attestedAt"@, self.attested_at.wire_json())
            .object()
    }

    fn to_json(&self) -> (r: Json) {
        JsonMap::new()
            .with("providerId", self.provider_id.to_json())
            .with("protocolSelected", self.protocol_selected.to_json())
            .with("featuresEnabled", self.features_enabled.to_json())
            .with("actions", self.actions.to_json())
            .with("lockfileDigest", self.lockfile_digest.to_json())
            .with("attestedAt", self.attested_at.to_json())
            .object()
    }
}

impl Duplicate for CapabilityAttestation {
    fn duplicate(&self) -> (r: Self) {
        CapabilityAttestation {
            provider_id: self.provider_id.duplicate(),
            protocol_selected: self.protocol_selected,
            features_enabled: self.features_enabled.duplicate(),
            actions: self.actions.duplicate(),
            lockfile_digest: self.lockfile_digest.duplicate(),
            attested_at: self.attested_at.duplicate(),
        }
    }
}

impl Clone for CapabilityAttestation {
    fn clone(&self) -> (r: Self)
        ensures
            r.wire_json() == self.wire_json(),
    {
        self.duplicate()
    }
}

/// The JSON forms of the actions by name; of two actions with one name the
/// later one stands.
pub open spec fn actions_by_name(actions: Seq<ActionDefinitionStatic>) -> Members
    decreases actions.len(),
{
    if actions.len() == 0 {
        Members::none()
    } else {
        actions_by_name(actions.drop_last()).with(actions.last().name@, actions.last().wire_json())
    }
}

/// The set of the given features.
pub open spec fn feature_set(features: Seq<FeatureId>) -> Keyed<()>
    decreases features.len(),
{
    if features.len() == 0 {
        Keyed::none()
    } else {
        feature_set(features.drop_last()).with(features.last()@, ())
    }
}

impl CapabilityAttestation {
    /// Whether an action is attested.
    pub open spec fn attests(&self, name: Seq<char>) -> bool {
        self.actions@.has(name)
    }

    /// The attestation of a lockfile, at the given time.
    pub fn from_lockfile(lockfile: &CapabilityLockfile, attested_at: String) -> (r: Self)
        ensures
            r.provider_id@ == lockfile.provider.name@,
            r.protocol_selected == lockfile.hello.protocol_selected,
            r.features_enabled.as_map() == feature_set(lockfile.hello.features_enabled@),
            wire::wire_members(r.actions@.entries) == actions_by_name(lockfile.device.actions@),
            forall|name: Seq<char>| #[trigger]
                r.attests(name) == actions_by_name(lockfile.device.actions@).has(name),
            r.lockfile_digest@ == lockfile.digest@,
            r.attested_at == attested_at,
    {
        let listed = &lockfile.hello.features_enabled;
        let mut features_enabled = FeatureSet::new();
        let mut i: usize = 0;
        while i < listed.len()
            invariant
                i <= listed@.len(),
                features_enabled.as_map() == feature_set(listed@.take(i as int)),
            decreases listed@.len() - i,
        {
            assert(listed@.take(i + 1).drop_last() =~= listed@.take(i as int));
            features_enabled.insert(&listed[i]);
            i = i + 1;
        }
        assert(listed@.take(i as int) =~= listed@);
        let defined = &lockfile.device.actions;
        let ghost form = |v: ActionDefinitionStatic| v.wire_json();
        let mut actions: TextMap<ActionDefinitionStatic> = TextMap::new();
        assert(keyed::mapped(actions@, form).entries =~= Members::none().entries);
        let mut j: usize = 0;
        while j < defined.len()
            invariant
                form == (|v: ActionDefinitionStatic| v.wire_json()),
                j <= defined@.len(),
                keyed::mapped(actions@, form) == actions_by_name(defined@.take(j as int)),
            decreases defined@.len() - j,
        {
            assert(defined@.take(j + 1).drop_last() =~= defined@.take(j as int));
            let copy = defined[j].duplicate();
            proof {
                keyed::lemma_mapped(actions@, form, defined@[j as int].name@, copy);
            }
            actions.insert(defined[j].name.as_str(), copy);
            j = j + 1;
        }
        assert(defined@.take(j as int) =~= defined@);
        actions.in_order();
        proof {
            wire::lemma_wire_members(actions@);
            assert forall|name: Seq<char>| #[trigger]
                actions@.has(name) == actions_by_name(defined@).has(name) by {
                if defined@.len() > 0 {
                    keyed::lemma_mapped(actions@, form, name, defined@[0]);
                }
            }
        }
        CapabilityAttestation {
            provider_id: lockfile.provider.name.clone(),
            protocol_selected: lockfile.hello.protocol_selected,
            features_enabled,
            actions,
            lockfile_digest: lockfile.digest.clone(),
            attested_at,
        }
    }
}

} // verus!
