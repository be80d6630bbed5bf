//! The handshake that the provider offers, and the capability lockfile of a
//! live device.
//!
//! The lock run and the attestation of a session build the lockfile with the
//! same function, so any drift of the live world shows in the digest.

use vstd::prelude::*;

use crate::devicerail::convert;
use crate::devicerail::convert::{action_definition_from_wire, platform_kind_from_wire};
use crate::devicerail::manifest::{
    INFRA_REQUIRED_FEATURES, OFFERED_OPTIONAL_FEATURES, PROVIDER_NAME, PROVIDER_VERSION,
};
use crate::devicerail::wire::{ActionDefinition, DeviceInfo, HelloResult};
use crate::ir::primitives;
use crate::ir::primitives::FeatureId;
use crate::ir::vocab::ErrorClass;
use crate::keyed::Keyed;
use crate::kit::error::{ProviderError, ProviderErrorV};
use crate::kit::lockfile;
use crate::kit::lockfile::{
    CapabilityLockfile, LockfileDevice, LockfileHello, LockfileProvider, PeerInfo, ProtocolVersion,
};
use crate::kit::manifest::{ActionDefinitionStatic, ProtocolRange};
use crate::sets;
use crate::sets::{left_over, TextSet};
use crate::text;
use crate::text::{concat, owned_texts};
use crate::wire;
use crate::wire::Wire;

verus! {

/// What the provider says in the handshake.
#[derive(Debug, PartialEq, Eq)]
pub struct HelloParams {
    /// Name of the client.
    pub client_name: String,
    /// Version of the client.
    pub client_version: String,
    /// The only protocol range that is offered.
    pub protocol: ProtocolRange,
    /// Features without which the handshake fails.
    pub required: TextSet,
    /// Further features that the daemon may enable.
    pub optional: TextSet,
}

/// The texts of feature ids.
pub open spec fn feature_texts(features: Seq<FeatureId>) -> Seq<Seq<char>> {
    features.map_values(|f: FeatureId| f@)
}

/// The features that a handshake requires: those of the provider and those of
/// the flow.
pub open spec fn required_features(extra: Seq<FeatureId>) -> Keyed<()> {
    sets::set_of(text::slice_texts(INFRA_REQUIRED_FEATURES@) + feature_texts(extra))
}

/// The features that a handshake offers beyond the required ones.
pub open spec fn optional_features(extra: Seq<FeatureId>) -> Keyed<()> {
    sets::set_of(
        sets::not_in(text::slice_texts(OFFERED_OPTIONAL_FEATURES@), required_features(extra)),
    )
}

/// The handshake for a flow that requires these features. Protocol 1.5 is
/// pinned: an older daemon must fail here and not later.
pub fn hello_params(extra_required: &Vec<FeatureId>) -> (r: HelloParams)
    ensures
        r.client_name@ == "pointlock-provider-devicerail"@,
        r.client_version@ == PROVIDER_VERSION@,
        r.protocol == (ProtocolRange { major: 1, min_minor: 5, max_minor: 5 }),
        r.required.as_map() == required_features(extra_required@),
        r.optional.as_map() == optional_features(extra_required@),
{
    let mut wanted = owned_texts(&INFRA_REQUIRED_FEATURES);
    let ghost infra = text::slice_texts(INFRA_REQUIRED_FEATURES@);
    let mut i: usize = 0;
    assert(text::texts(wanted@) =~= infra + feature_texts(extra_required@.take(0)));
    while i < extra_required.len()
        invariant
            i <= extra_required@.len(),
            text::texts(wanted@) == infra + feature_texts(extra_required@.take(i as int)),
        decreases extra_required@.len() - i,
    {
        let ghost before = wanted@;
        let copy = extra_required[i].as_str().to_owned();
        let ghost added = copy@;
        wanted.push(copy);
        assert(text::texts(wanted@) =~= text::texts(before).push(added));
        assert(infra + feature_texts(extra_required@.take(i + 1)) =~= (infra + feature_texts(
            extra_required@.take(i as int),
        )).push(added));
        i = i + 1;
    }
    assert(extra_required@.take(i as int) =~= extra_required@);
    let required = TextSet::of(&wanted);
    let optional = TextSet::of(&left_over(&owned_texts(&OFFERED_OPTIONAL_FEATURES), &required));
    HelloParams {
        client_name: "pointlock-provider-devicerail".to_owned(),
        client_version: PROVIDER_VERSION.to_owned(),
        protocol: ProtocolRange { major: 1, min_minor: 5, max_minor: 5 },
        required,
        optional,
    }
}

/// What a handshake covers does not depend on the flow: every feature that the
/// provider knows is either required or optional, and never both.
pub proof fn law_offer_covers_the_known_features(extra: Seq<FeatureId>, name: Seq<char>)
    ensures
        required_features(extra).has(name) == (text::slice_texts(
            INFRA_REQUIRED_FEATURES@,
        ).contains(name) || feature_texts(extra).contains(name)),
        optional_features(extra).has(name) == (text::slice_texts(
            OFFERED_OPTIONAL_FEATURES@,
        ).contains(name) && !required_features(extra).has(name)),
        text::slice_texts(OFFERED_OPTIONAL_FEATURES@).contains(name) || text::slice_texts(
            INFRA_REQUIRED_FEATURES@,
        ).contains(name) ==> required_features(extra).has(name) != optional_features(extra).has(
            name,
        ),
{
    let infra = text::slice_texts(INFRA_REQUIRED_FEATURES@);
    let own = feature_texts(extra);
    let offered = text::slice_texts(OFFERED_OPTIONAL_FEATURES@);
    sets::law_set_holds_its_items(infra + own, name);
    sets::law_set_holds_its_items(sets::not_in(offered, required_features(extra)), name);
    sets::law_left_over_texts(offered, required_features(extra), name);
    if infra.contains(name) {
        let i = choose|i: int| 0 <= i < infra.len() && infra[i] == name;
        assert((infra + own)[i] == name);
    }
    if own.contains(name) {
        let i = choose|i: int| 0 <= i < own.len() && own[i] == name;
        assert((infra + own)[infra.len() + i] == name);
    }
    if (infra + own).contains(name) {
        let i = choose|i: int| 0 <= i < (infra + own).len() && (infra + own)[i] == name;
        if i < infra.len() {
            assert(infra[i] == name);
        } else {
            assert(own[i - infra.len()] == name);
        }
    }
}

/// Why the first unusable one of the actions of a device cannot be listed.
pub open spec fn actions_fault(actions: Seq<ActionDefinition>) -> Option<Seq<char>>
    decreases actions.len(),
{
    if actions.len() == 0 {
        None
    } else {
        match actions_fault(actions.drop_last()) {
            Some(fault) => Some(fault),
            None => convert::definition_fault(actions.last()),
        }
    }
}

/// Why the first unusable one of the enabled features cannot be listed.
pub open spec fn features_fault(enabled: Seq<Seq<char>>) -> Option<Seq<char>>
    decreases enabled.len(),
{
    if enabled.len() == 0 {
        None
    } else {
        match features_fault(enabled.drop_last()) {
            Some(fault) => Some(fault),
            None => match primitives::feature_id_fault(enabled.last()) {
                Some(reason) => Some(
                    "negotiated feature id is outside the FeatureId grammar: "@
                        + primitives::rejection("FeatureId"@, reason, enabled.last()),
                ),
                None => None,
            },
        }
    }
}

/// Why a live device cannot be locked: its actions, else the enabled features,
/// else its platform.
pub open spec fn lock_fault(
    hello: HelloResult,
    device: DeviceInfo,
    actions: Seq<ActionDefinition>,
) -> Option<ProviderErrorV> {
    match actions_fault(actions) {
        Some(fault) => Some(ProviderErrorV::concluded(ErrorClass::CapabilityDrift, fault)),
        None => match features_fault(hello.enabled@) {
            Some(fault) => Some(ProviderErrorV::concluded(ErrorClass::CapabilityDrift, fault)),
            None => match convert::platform_of(device.platform) {
                Err(fault) => Some(fault),
                Ok(_) => None,
            },
        },
    }
}

/// Whether `l` is the sealed lockfile of a live device.
pub open spec fn locks(
    l: CapabilityLockfile,
    hello: HelloResult,
    device: DeviceInfo,
    actions: Seq<ActionDefinition>,
) -> bool {
    &&& l.hello.protocol_selected == (ProtocolVersion {
        major: hello.major as u64,
        minor: hello.minor as u64,
    })
    &&& feature_texts(l.hello.features_enabled@) == hello.enabled@
    &&& l.hello.server.name@ == hello.server_name@
    &&& l.hello.server.version@ == hello.server_version@
    &&& convert::platform_of(device.platform) == Ok::<_, ProviderErrorV>(l.device.platform)
    &&& l.device.actions@.len() == actions.len()
    &&& forall|i: int| 0 <= i < actions.len() ==> convert::lists(
        #[trigger] l.device.actions@[i],
        actions[i],
    )
    &&& l.digest@ == lockfile::digest_of(l)
}

fn listed_actions(actions: &Vec<ActionDefinition>) -> (r: Result<
    Vec<ActionDefinitionStatic>,
    ProviderError,
>)
    ensures
        match actions_fault(actions@) {
            Some(fault) => r matches Err(e) && e@ == ProviderErrorV::concluded(
                ErrorClass::CapabilityDrift,
                fault,
            ),
            None => {
                &&& r matches Ok(list)
                &&& list@.len() == actions@.len()
                &&& forall|i: int| 0 <= i < actions@.len() ==> convert::lists(
                    #[trigger] list@[i],
                    actions@[i],
                )
            },
        },
{
    let mut out: Vec<ActionDefinitionStatic> = Vec::new();
    let mut i: usize = 0;
    while i < actions.len()
        invariant
            i <= actions@.len(),
            actions_fault(actions@.take(i as int)) is None,
            out@.len() == i,
            forall|j: int| 0 <= j < i ==> convert::lists(#[trigger] out@[j], actions@[j]),
        decreases actions@.len() - i,
    {
        assert(actions@.take(i + 1).drop_last() =~= actions@.take(i as int));
        match action_definition_from_wire(&actions[i]) {
            Ok(listed) => {
                out.push(listed);
            },
            Err(error) => {
                proof {
                    lemma_actions_fault_stays(actions@, i + 1);
                }
                return Err(error);
            },
        }
        i = i + 1;
    }
    assert(actions@.take(i as int) =~= actions@);
    Ok(out)
}

proof fn lemma_actions_fault_stays(actions: Seq<ActionDefinition>, n: int)
    requires
        0 <= n <= actions.len(),
        actions_fault(actions.take(n)) is Some,
    ensures
        actions_fault(actions) == actions_fault(actions.take(n)),
    decreases actions.len() - n,
{
    if n < actions.len() {
        assert(actions.take(n + 1).drop_last() =~= actions.take(n));
        lemma_actions_fault_stays(actions, n + 1);
    } else {
        assert(actions.take(n) =~= actions);
    }
}

proof fn lemma_features_fault_stays(enabled: Seq<Seq<char>>, n: int)
    requires
        0 <= n <= enabled.len(),
        features_fault(enabled.take(n)) is Some,
    ensures
        features_fault(enabled) == features_fault(enabled.take(n)),
    decreases enabled.len() - n,
{
    if n < enabled.len() {
        assert(enabled.take(n + 1).drop_last() =~= enabled.take(n));
        lemma_features_fault_stays(enabled, n + 1);
    } else {
        assert(enabled.take(n) =~= enabled);
    }
}

/// The handshake part of a lockfile, with the enabled features in ascending
/// order.
fn lockfile_hello_from_live(hello: &HelloResult) -> (r: Result<LockfileHello, ProviderError>)
    ensures
        match features_fault(hello.enabled@) {
            Some(fault) => r matches Err(e) && e@ == ProviderErrorV::concluded(
                ErrorClass::CapabilityDrift,
                fault,
            ),
            None => {
                &&& r matches Ok(h)
                &&& h.protocol_selected == (ProtocolVersion {
                    major: hello.major as u64,
                    minor: hello.minor as u64,
                })
                &&& feature_texts(h.features_enabled@) == hello.enabled@
                &&& h.server.name@ == hello.server_name@
                &&& h.server.version@ == hello.server_version@
            },
        },
{
    let ghost names = hello.enabled@;
    let mut features_enabled: Vec<FeatureId> = Vec::new();
    let mut i: usize = 0;
    assert(names.take(0) =~= Seq::<Seq<char>>::empty());
    while i < hello.enabled.len()
        invariant
            names == hello.enabled@,
            i <= names.len(),
            features_fault(names.take(i as int)) is None,
            features_enabled@.len() == i,
            forall|j: int| 0 <= j < i ==> #[trigger] features_enabled@[j]@ == names[j],
        decreases names.len() - i,
    {
        assert(names.take(i + 1).drop_last() =~= names.take(i as int));
        match FeatureId::new(hello.enabled.at(i)) {
            Ok(feature) => {
                features_enabled.push(feature);
            },
            Err(error) => {
                proof {
                    lemma_features_fault_stays(names, i + 1);
                }
                return Err(
                    ProviderError::concluded(
                        ErrorClass::CapabilityDrift,
                        concat(
                            "negotiated feature id is outside the FeatureId grammar: ",
                            error.message().as_str(),
                        ),
                    ),
                );
            },
        }
        i = i + 1;
    }
    assert(names.take(i as int) =~= names);
    assert(feature_texts(features_enabled@) =~= names);
    Ok(
        LockfileHello {
            protocol_selected: ProtocolVersion {
                major: hello.major as u64,
                minor: hello.minor as u64,
            },
            features_enabled,
            server: PeerInfo {
                name: hello.server_name.clone(),
                version: hello.server_version.clone(),
            },
        },
    )
}

/// The sealed lockfile of a live device.
pub fn make_lockfile(
    provider: LockfileProvider,
    attested_at: String,
    hello: &HelloResult,
    device: &DeviceInfo,
    actions: &Vec<ActionDefinition>,
) -> (r: Result<CapabilityLockfile, ProviderError>)
    ensures
        match lock_fault(*hello, *device, actions@) {
            Some(fault) => r matches Err(e) && e@ == fault,
            None => {
                &&& r matches Ok(l)
                &&& l.provider == provider
                &&& l.attested_at == attested_at
                &&& locks(l, *hello, *device, actions@)
            },
        },
{
    let listed = match listed_actions(actions) {
        Ok(listed) => listed,
        Err(error) => {
            return Err(error);
        },
    };
    let live_hello = match lockfile_hello_from_live(hello) {
        Ok(live_hello) => live_hello,
        Err(error) => {
            return Err(error);
        },
    };
    let platform = match platform_kind_from_wire(&device.platform) {
        Ok(platform) => platform,
        Err(error) => {
            return Err(error);
        },
    };
    let mut live = CapabilityLockfile {
        provider,
        attested_at,
        hello: live_hello,
        device: LockfileDevice { platform, actions: listed },
        digest: crate::ir::primitives::Hash::zero(),
    };
    let ghost before = live;
    live.seal();
    proof {
        lockfile::law_sealed_is_consistent(before, live);
    }
    Ok(live)
}

/// The provider identity of a fresh lockfile.
pub fn lockfile_provider_identity() -> (r: LockfileProvider)
    ensures
        r.name@ == PROVIDER_NAME@,
        r.version@ == PROVIDER_VERSION@,
{
    LockfileProvider { name: PROVIDER_NAME.to_owned(), version: PROVIDER_VERSION.to_owned() }
}

/// Two lockfiles of one live world by one provider carry the same digest,
/// whenever they were made.
pub proof fn law_one_world_has_one_digest(
    a: CapabilityLockfile,
    b: CapabilityLockfile,
    hello: HelloResult,
    device: DeviceInfo,
    actions: Seq<ActionDefinition>,
)
    requires
        locks(a, hello, device, actions),
        locks(b, hello, device, actions),
        a.provider.name@ == b.provider.name@,
        a.provider.version@ == b.provider.version@,
    ensures
        a.digest@ == b.digest@,
{
    assert(wire::wire_items(a.hello.features_enabled@) =~= wire::wire_items(
        b.hello.features_enabled@,
    )) by {
        let x = a.hello.features_enabled@;
        let y = b.hello.features_enabled@;
        assert(feature_texts(x).len() == feature_texts(y).len());
        assert forall|i: int| 0 <= i < x.len() implies (#[trigger] x[i]).wire_json()
            == y[i].wire_json() by {
            assert(feature_texts(x)[i] == x[i]@);
            assert(feature_texts(y)[i] == y[i]@);
        }
    }
    assert(wire::wire_items(a.device.actions@) =~= wire::wire_items(b.device.actions@)) by {
        assert forall|i: int| 0 <= i < actions.len() implies (
        #[trigger] a.device.actions@[i]).wire_json() == b.device.actions@[i].wire_json() by {
            assert(convert::lists(a.device.actions@[i], actions[i]));
            assert(convert::lists(b.device.actions@[i], actions[i]));
        }
    }
    assert(a.hello.wire_json() == b.hello.wire_json());
    assert(a.device.wire_json() == b.device.wire_json());
    assert(a.provider.wire_json() == b.provider.wire_json());
    lockfile::law_digest_covers_content(a);
    lockfile::law_digest_covers_content(b);
}

} // verus!
