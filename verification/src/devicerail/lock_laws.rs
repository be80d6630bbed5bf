//! What a lockfile of a live device holds: the live world, field by field.

use vstd::prelude::*;
use vstd::string::*;

use crate::devicerail::convert;
use crate::devicerail::lock;
use crate::devicerail::wire::{ActionDefinition, DeviceInfo, HelloResult, Platform};
use crate::ir::primitives;
use crate::json::JsonV;
use crate::keyed;
use crate::kit::error::ProviderErrorV;
use crate::kit::lockfile;
use crate::kit::lockfile::CapabilityLockfile;
use crate::kit::lockfile_laws;
use crate::kit::manifest::PlatformKind;
use crate::wire::Wire;

verus! {

/// The name by which the daemon calls a platform.
pub open spec fn daemon_name(platform: Platform) -> Seq<char> {
    match platform {
        Platform::Web => "web"@,
        Platform::Android => "android"@,
        Platform::Ios => "ios"@,
        Platform::HarmonyOs => "harmonyOs"@,
        Platform::MacOs => "macOs"@,
        Platform::Windows => "windows"@,
        Platform::Linux => "linux"@,
        Platform::Rdp => "rdp"@,
        Platform::Mock => "mock"@,
        Platform::Other(name) => name@,
    }
}

proof fn lemma_keys()
    ensures
        keyed::key_code("hello"@) == 5104108111,
        keyed::key_code("device"@) == 6100099101,
        keyed::key_code("digest"@) == 6100115116,
        keyed::key_code("actions"@) == 7097110115,
        keyed::key_code("platform"@) == 8112114109,
        keyed::key_code("provider"@) == 8112101114,
        keyed::key_code("attestedAt"@) == 10097100116,
{
    reveal_strlit("hello");
    reveal_strlit("device");
    reveal_strlit("digest");
    reveal_strlit("actions");
    reveal_strlit("platform");
    reveal_strlit("provider");
    reveal_strlit("attestedAt");
}

/// A platform that is not simulated keeps its name, a simulated one counts as
/// Linux, and one that the protocol has no name for has no kind.
pub proof fn law_platforms_keep_their_names(platform: Platform)
    ensures
        convert::platform_of(platform) is Err <==> platform is Other,
        platform !is Mock ==> (convert::platform_of(platform) matches Ok(kind) ==> kind.wire()
            == daemon_name(platform)),
        platform is Mock ==> convert::platform_of(platform) == Ok::<_, ProviderErrorV>(
            PlatformKind::Linux,
        ),
{
}

/// Two platforms, neither of them simulated, never get the same kind.
pub proof fn law_platforms_are_told_apart(a: Platform, b: Platform)
    requires
        a !is Mock,
        b !is Mock,
        convert::platform_of(a) is Ok,
        convert::platform_of(b) is Ok,
        a != b,
    ensures
        convert::platform_of(a) != convert::platform_of(b),
{
}

/// A lockfile names the platform of the device that was locked, also in its JSON
/// form; the simulated device counts as Linux.
pub proof fn law_lockfiles_name_the_platform(
    l: CapabilityLockfile,
    hello: HelloResult,
    device: DeviceInfo,
    actions: Seq<ActionDefinition>,
)
    requires
        lock::locks(l, hello, device, actions),
        device.platform !is Mock,
    ensures
        l.device.platform.wire() == daemon_name(device.platform),
        l.wire_json().member("device"@) == Some(l.device.wire_json()),
        l.device.wire_json().member("platform"@) == Some(
            JsonV::Text(daemon_name(device.platform)),
        ),
{
    broadcast use keyed::lemma_get_after_with, keyed::lemma_sorted_after_with;

    lemma_keys();
    law_platforms_keep_their_names(device.platform);
}

/// Devices of different platforms, neither of them simulated, lock different
/// worlds, so what their digests are computed from differs.
pub proof fn law_other_platforms_are_other_worlds(
    a: CapabilityLockfile,
    b: CapabilityLockfile,
    hello: HelloResult,
    one: DeviceInfo,
    other: DeviceInfo,
    actions: Seq<ActionDefinition>,
)
    requires
        lock::locks(a, hello, one, actions),
        lock::locks(b, hello, other, actions),
        one.platform !is Mock,
        other.platform !is Mock,
        one.platform != other.platform,
    ensures
        a.device.platform != b.device.platform,
        !lockfile_laws::same_world(a, b),
{
    law_platforms_are_told_apart(one.platform, other.platform);
}

/// A lockfile holds the live world: the selected protocol, the enabled features
/// and no others, the server, and every action with its name, schema and
/// protection, in the order of the device, none of them served by the provider.
pub proof fn law_lockfiles_hold_the_live_world(
    l: CapabilityLockfile,
    hello: HelloResult,
    device: DeviceInfo,
    actions: Seq<ActionDefinition>,
)
    requires
        lock::locks(l, hello, device, actions),
    ensures
        l.hello.protocol_selected.major == hello.major,
        l.hello.protocol_selected.minor == hello.minor,
        l.hello.server.name@ == hello.server_name@,
        l.hello.server.version@ == hello.server_version@,
        l.hello.features_enabled@.len() == hello.enabled@.len(),
        forall|i: int|
            0 <= i < hello.enabled@.len() ==> (#[trigger] l.hello.features_enabled@[i])@
                == hello.enabled@[i],
        l.device.actions@.len() == actions.len(),
        forall|i: int|
            0 <= i < actions.len() ==> {
                let d = #[trigger] l.device.actions@[i];
                &&& d.name@ == actions[i].name@
                &&& d.input_schema@ == actions[i].input_schema@
                &&& d.protection == actions[i].protection
                &&& d.output_schema is None
                &&& !d.synthetic
            },
        l.digest@ == lockfile::digest_of(l),
{
    let texts = lock::feature_texts(l.hello.features_enabled@);
    assert(texts.len() == l.hello.features_enabled@.len());
    assert forall|i: int| 0 <= i < hello.enabled@.len() implies (
    #[trigger] l.hello.features_enabled@[i])@ == hello.enabled@[i] by {
        assert(texts[i] == l.hello.features_enabled@[i]@);
    }
    assert forall|i: int| 0 <= i < actions.len() implies convert::lists(
        #[trigger] l.device.actions@[i],
        actions[i],
    ) by {}
}

proof fn lemma_actions_fault(actions: Seq<ActionDefinition>)
    ensures
        lock::actions_fault(actions) is None <==> forall|i: int|
            0 <= i < actions.len() ==> convert::definition_fault(#[trigger] actions[i]) is None,
    decreases actions.len(),
{
    if actions.len() > 0 {
        let front = actions.drop_last();
        lemma_actions_fault(front);
        assert(actions.last() == actions[actions.len() - 1]);
        assert(forall|i: int| 0 <= i < front.len() ==> #[trigger] front[i] == actions[i]);
        if lock::actions_fault(actions) is None {
            assert forall|i: int| 0 <= i < actions.len() implies convert::definition_fault(
                #[trigger] actions[i],
            ) is None by {
                if i < front.len() {
                    assert(convert::definition_fault(front[i]) is None);
                }
            }
        }
    }
}

proof fn lemma_features_fault(enabled: Seq<Seq<char>>)
    ensures
        lock::features_fault(enabled) is None <==> forall|i: int|
            0 <= i < enabled.len() ==> primitives::feature_id_fault(#[trigger] enabled[i]) is None,
    decreases enabled.len(),
{
    if enabled.len() > 0 {
        let front = enabled.drop_last();
        lemma_features_fault(front);
        assert(enabled.last() == enabled[enabled.len() - 1]);
        assert(forall|i: int| 0 <= i < front.len() ==> #[trigger] front[i] == enabled[i]);
        if lock::features_fault(enabled) is None {
            assert forall|i: int| 0 <= i < enabled.len() implies primitives::feature_id_fault(
                #[trigger] enabled[i],
            ) is None by {
                if i < front.len() {
                    assert(primitives::feature_id_fault(front[i]) is None);
                }
            }
        }
    }
}

/// A device can be locked exactly if every action has a name in the grammar and
/// a schema that is an object or a boolean, every enabled feature is a feature
/// id, and the platform has a kind. What stands in the way is drift.
pub proof fn law_what_can_be_locked(
    hello: HelloResult,
    device: DeviceInfo,
    actions: Seq<ActionDefinition>,
)
    ensures
        lock::lock_fault(hello, device, actions) is None <==> {
            &&& forall|i: int|
                0 <= i < actions.len() ==> primitives::action_name_fault(
                    (#[trigger] actions[i]).name@,
                ) is None && (actions[i].input_schema@ is Object || actions[i].input_schema@
                    is Bool)
            &&& forall|i: int|
                0 <= i < hello.enabled@.len() ==> primitives::feature_id_fault(
                    #[trigger] hello.enabled@[i],
                ) is None
            &&& device.platform !is Other
        },
        lock::lock_fault(hello, device, actions) matches Some(fault) ==> fault.error_class
            == crate::ir::vocab::ErrorClass::CapabilityDrift,
{
    lemma_actions_fault(actions);
    lemma_features_fault(hello.enabled@);
    if forall|i: int|
        0 <= i < actions.len() ==> convert::definition_fault(#[trigger] actions[i]) is None {
        assert forall|i: int| 0 <= i < actions.len() implies primitives::action_name_fault(
            (#[trigger] actions[i]).name@,
        ) is None && (actions[i].input_schema@ is Object || actions[i].input_schema@ is Bool) by {
            assert(convert::definition_fault(actions[i]) is None);
        }
    }
}

} // verus!
