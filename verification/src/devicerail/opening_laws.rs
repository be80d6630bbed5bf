//! What an opening makes of the daemon's replies, and what drift says.

use vstd::prelude::*;
use vstd::string::*;

use crate::devicerail::budget::BoundedError;
use crate::devicerail::drift;
use crate::devicerail::lock;
use crate::devicerail::manifest;
use crate::devicerail::provider;
use crate::devicerail::provider::{OpenCall, OpenEvent, OpenGoal, OpenStage, Opening};
use crate::devicerail::wire::DeviceInfo;
use crate::ir::primitives::FeatureId;
use crate::ir::vocab::ErrorClass;
use crate::kit::lockfile;
use crate::kit::lockfile::{CapabilityAttestation, CapabilityLockfile, PeerInfo, ProtocolVersion};
use crate::kit::manifest::{ActionDefinitionStatic, PlatformKind};
use crate::kit::attestation_laws;
use crate::text;

verus! {

/// Whether a stage is a failure with what a call failed with.
pub open spec fn fails_as(next: OpenStage, error: BoundedError, context: Seq<char>) -> bool {
    next is Failed && next->Failed_0@ == error.error_in(context)
}

/// A lockfile is held just where it is this provider's own and its digest is that of its
/// content.
pub proof fn law_what_is_held(l: CapabilityLockfile)
    ensures
        provider::holding_fault(l) is None <==> l.provider.name@ == "devicerail"@
            && lockfile::digest_of(l) == l.digest@,
        provider::holding_fault(l) is Some && l.provider.name@ == "devicerail"@
            ==> provider::holding_fault(l)->0
            == "lockfile digest is inconsistent with its content; re-run `pointlock lock`"@,
{
}

/// A wanted device can be had just where the daemon lists one with its id. Else the error
/// can be retried, and names the device.
pub proof fn law_devices_are_found_by_id(devices: Seq<DeviceInfo>, wanted: Seq<char>)
    ensures
        provider::device_fault(devices, wanted) is None <==> exists|i: int|
            0 <= i < devices.len() && (#[trigger] devices[i]).id@ == wanted,
        provider::device_fault(devices, wanted) matches Some(e) ==> e.error_class
            == ErrorClass::ActionFailedRetryable && e.wire is None && e.client_code is None,
{
}

/// What the caller does next goes with the stage: the calls that can hang have fifteen
/// seconds, an open session keeps its connection, and one that is over closes it.
pub proof fn law_stages_ask_for_their_call(stage: OpenStage)
    ensures
        stage.call() == OpenCall::ListDevices <==> stage is ListDevices,
        stage.call() == OpenCall::SelectDevice <==> stage is SelectDevice,
        stage.call() == OpenCall::ConnectDevice(15000) <==> stage is ConnectDevice,
        stage.call() == OpenCall::ReadCapabilities(15000) <==> stage is ReadCapabilities,
        stage.call() == OpenCall::StartSession <==> stage is StartSession,
        stage.call() == OpenCall::Keep <==> stage is Opened,
        stage.call() == OpenCall::Close <==> stage is Locked || stage is Failed,
{
}

/// A reply to the call of the stage moves the opening on, and a failed call fails it with
/// what failed; the devices must hold the wanted one. A connected device is the one whose
/// capabilities are read, and a started session has the daemon's id, is not ended and
/// remembers nothing.
pub proof fn law_replies_move_an_opening(before: Opening<'_>, event: OpenEvent, next: OpenStage)
    requires
        provider::moves(before, event, next),
    ensures
        before.stage is ListDevices && event is Devices ==> match event->Devices_0 {
            Err(e) => fails_as(next, e, "devices.list"@),
            Ok(devices) => {
                let known = exists|i: int|
                    0 <= i < devices@.len() && (#[trigger] devices@[i]).id@ == before.device_id@;
                &&& known <==> next is SelectDevice
                &&& !known <==> next is Failed
                &&& !known ==> next->Failed_0.error_class == ErrorClass::ActionFailedRetryable
            },
        },
        before.stage is SelectDevice && event is Selected ==> match event->Selected_0 {
            Err(e) => fails_as(next, e, "device.select"@),
            Ok(_) => next is ConnectDevice,
        },
        before.stage is ConnectDevice && event is Connected ==> match event->Connected_0 {
            Err(e) => fails_as(next, e, "device.connect"@),
            Ok(device) => next is ReadCapabilities && next->ReadCapabilities_0 == device,
        },
        before.stage is ReadCapabilities && event is Capabilities ==> match event->Capabilities_0 {
            Err(e) => fails_as(next, e, "device.capabilities"@),
            Ok(_) => next is Failed || (next is Locked && before.goal is Lock) || (
            next is StartSession && before.goal is Session),
        },
        before.stage is StartSession && event is Started ==> match event->Started_0 {
            Err(e) => fails_as(next, e, "session.start"@),
            Ok(id) => next is Opened && next->Opened_0.session_id@ == id@ && !next->Opened_0.ended
                && next->Opened_0.degraded is None && next->Opened_0.watermark is None
                && next->Opened_0.dispatched.as_map().entries.len() == 0,
        },
        !(before.stage is ListDevices && event is Devices) && !(before.stage is SelectDevice
            && event is Selected) && !(before.stage is ConnectDevice && event is Connected) && !(
        before.stage is ReadCapabilities && event is Capabilities) && !(before.stage is StartSession
            && event is Started) ==> next == before.stage,
{
    if before.stage is StartSession && event is Started && event->Started_0 is Ok {
        assert(next->Opened_0@.degraded is None);
    }
}

/// On a device that can be locked, a lock run ends with the lockfile of the live world, made
/// for this provider at its time. A session starts just where the live world, made for the
/// held lockfile's provider and time, has the digest that the flow expects; else it fails as
/// drift. A device that cannot be locked fails the opening.
pub proof fn law_capabilities_decide(before: Opening<'_>, event: OpenEvent, next: OpenStage)
    requires
        provider::moves(before, event, next),
        before.stage is ReadCapabilities,
        event is Capabilities,
        event->Capabilities_0 is Ok,
    ensures
        ({
            let device = before.stage->ReadCapabilities_0;
            let actions = event->Capabilities_0->Ok_0@;
            let fault = lock::lock_fault(before.hello, device, actions);
            &&& fault is Some ==> next is Failed && next->Failed_0@ == fault->0
            &&& fault is None ==> match before.goal {
                OpenGoal::Lock { attested_at } => {
                    &&& next is Locked
                    &&& next->Locked_0.provider.name@ == "devicerail"@
                    &&& next->Locked_0.attested_at@ == attested_at@
                    &&& lock::locks(next->Locked_0, before.hello, device, actions)
                },
                OpenGoal::Session { held, expected } => {
                    &&& next is StartSession ==> next->StartSession_0.digest@ == expected@
                        && next->StartSession_0.provider.name@ == held.provider.name@
                        && next->StartSession_0.provider.version@ == held.provider.version@
                        && next->StartSession_0.attested_at@ == held.attested_at@ && lock::locks(
                        next->StartSession_0,
                        before.hello,
                        device,
                        actions,
                    )
                    &&& next is Failed ==> next->Failed_0.error_class
                        == ErrorClass::CapabilityDrift
                    &&& next is StartSession || next is Failed
                },
            }
        }),
{
}

/// An attestation of a live world has its provider, its protocol, its digest, just its
/// features, and just its actions.
pub proof fn law_attestations_are_of_the_live_world(
    a: CapabilityAttestation,
    live: CapabilityLockfile,
    name: Seq<char>,
)
    requires
        provider::attests_live(a, live),
    ensures
        a.provider_id@ == live.provider.name@,
        a.protocol_selected == live.hello.protocol_selected,
        a.lockfile_digest@ == live.digest@,
        a.features_enabled.as_map().has(name) <==> exists|i: int|
            0 <= i < live.hello.features_enabled@.len() && (
            #[trigger] live.hello.features_enabled@[i])@ == name,
        a.attests(name) <==> exists|i: int|
            0 <= i < live.device.actions@.len() && (#[trigger] live.device.actions@[i]).name@
                == name,
{
    attestation_laws::law_features_are_the_listed_ones(live.hello.features_enabled@, name);
    attestation_laws::law_actions_are_the_listed_ones(live.device.actions@, name);
}

/// The first definition with a name has that name and is one of the actions; there is none
/// just where no action has it.
pub proof fn law_definitions_are_found_by_name(
    actions: Seq<ActionDefinitionStatic>,
    name: Seq<char>,
)
    ensures
        match drift::defined(actions, name) {
            Some(d) => exists|i: int|
                0 <= i < actions.len() && #[trigger] actions[i] == d && d.name@ == name && forall|
                    j: int,
                |
                    0 <= j < i ==> (#[trigger] actions[j]).name@ != name,
            None => forall|i: int| 0 <= i < actions.len() ==> (#[trigger] actions[i]).name@ != name,
        },
    decreases actions.len(),
{
    if actions.len() > 0 {
        let front = actions.drop_last();
        law_definitions_are_found_by_name(front, name);
        assert forall|j: int| 0 <= j < front.len() implies front[j] == #[trigger] actions[j] by {}
        match drift::defined(front, name) {
            Some(d) => {
                let i = choose|i: int|
                    0 <= i < front.len() && #[trigger] front[i] == d && d.name@ == name && forall|
                        j: int,
                    |
                        0 <= j < i ==> (#[trigger] front[j]).name@ != name;
                assert(actions[i] == d);
                assert forall|j: int| 0 <= j < i implies (#[trigger] actions[j]).name@ != name by {
                    assert(front[j].name@ != name);
                }
            },
            None => {
                let n = actions.len() - 1;
                assert(actions[n] == actions.last());
                assert forall|j: int| 0 <= j < n implies (#[trigger] actions[j]).name@ != name by {
                    assert(front[j].name@ != name);
                }
            },
        }
    }
}

/// Whether two definitions differ in their schemas, their protection or in who serves them.
pub open spec fn differs(a: ActionDefinitionStatic, b: ActionDefinitionStatic) -> bool {
    ||| a.name@ != b.name@
    ||| a.input_schema@ != b.input_schema@
    ||| a.output_schema is Some != b.output_schema is Some
    ||| a.output_schema is Some && b.output_schema is Some && a.output_schema->0@
        != b.output_schema->0@
    ||| a.protection != b.protection
    ||| a.synthetic != b.synthetic
}

/// An action is listed as changed just where the lockfile has it and the live world's first
/// definition of that name differs from it.
pub proof fn law_changed_actions_are_listed(
    expected: Seq<ActionDefinitionStatic>,
    live: Seq<ActionDefinitionStatic>,
    name: Seq<char>,
)
    ensures
        drift::changed_actions(expected, live).contains(name) <==> exists|i: int|
            0 <= i < expected.len() && (#[trigger] expected[i]).name@ == name && drift::defined(
                live,
                name,
            ) is Some && differs(drift::defined(live, name)->0, expected[i]),
    decreases expected.len(),
{
    if expected.len() > 0 {
        let front = expected.drop_last();
        let n = expected.len() - 1;
        law_changed_actions_are_listed(front, live, name);
        let before = drift::changed_actions(front, live);
        let all = drift::changed_actions(expected, live);
        assert forall|i: int| 0 <= i < front.len() implies front[i] == #[trigger] expected[i] by {}
        assert(expected[n] == expected.last());
        if all.contains(name) {
            let k = choose|k: int| 0 <= k < all.len() && all[k] == name;
            if k < before.len() {
                assert(before[k] == name);
                assert(before.contains(name));
                let i = choose|i: int|
                    0 <= i < front.len() && (#[trigger] front[i]).name@ == name && drift::defined(
                        live,
                        name,
                    ) is Some && differs(drift::defined(live, name)->0, front[i]);
                assert(expected[i].name@ == name);
            }
        }
        if exists|i: int|
            0 <= i < expected.len() && (#[trigger] expected[i]).name@ == name && drift::defined(
                live,
                name,
            ) is Some && differs(drift::defined(live, name)->0, expected[i]) {
            let i = choose|i: int|
                0 <= i < expected.len() && (#[trigger] expected[i]).name@ == name
                    && drift::defined(live, name) is Some && differs(
                    drift::defined(live, name)->0,
                    expected[i],
                );
            if i < n {
                assert(front[i].name@ == name);
                assert(before.contains(name));
                let k = choose|k: int| 0 <= k < before.len() && before[k] == name;
                assert(all[k] == name);
            } else {
                assert(all[all.len() - 1] == name);
            }
        }
    }
}

/// Drift has one note for each of these that changed, and no other: the protocol, the
/// server, lost features, gained features, the platform, vanished actions, actions that
/// appeared, changed definitions.
#[verifier::spinoff_prover]
pub proof fn law_drift_notes_what_changed(e: CapabilityLockfile, l: CapabilityLockfile)
    ensures
        ({
            let ef = lock::feature_texts(e.hello.features_enabled@);
            let lf = lock::feature_texts(l.hello.features_enabled@);
            let ea = drift::action_names(e.device.actions@);
            let la = drift::action_names(l.device.actions@);
            let one = |b: bool| if b { 1int } else { 0int };
            &&& drift::drift_notes(e, l).len() == one(
                e.hello.protocol_selected != l.hello.protocol_selected,
            ) + one(
                e.hello.server.name@ != l.hello.server.name@ || e.hello.server.version@
                    != l.hello.server.version@,
            ) + one(drift::beyond(ef, lf).len() > 0) + one(drift::beyond(lf, ef).len() > 0) + one(
                e.device.platform != l.device.platform,
            ) + one(drift::beyond(ea, la).len() > 0) + one(drift::beyond(la, ea).len() > 0) + one(
                drift::changed_actions(e.device.actions@, l.device.actions@).len() > 0,
            )
            &&& e.hello.protocol_selected != l.hello.protocol_selected ==> drift::drift_notes(
                e,
                l,
            ).first() == "protocol "@ + text::decimal(e.hello.protocol_selected.major as nat) + "."@
                + text::decimal(e.hello.protocol_selected.minor as nat) + " -> "@ + (text::decimal(
                l.hello.protocol_selected.major as nat,
            ) + "."@ + text::decimal(l.hello.protocol_selected.minor as nat))
            &&& drift::changed_actions(e.device.actions@, l.device.actions@).len() > 0
                ==> drift::drift_notes(e, l).last() == "action definitions changed: "@
                + text::debug_texts(
                drift::changed_actions(e.device.actions@, l.device.actions@),
            )
        }),
{
    let ef = lock::feature_texts(e.hello.features_enabled@);
    let lf = lock::feature_texts(l.hello.features_enabled@);
    let ea = drift::action_names(e.device.actions@);
    let la = drift::action_names(l.device.actions@);
    if e.hello.protocol_selected != l.hello.protocol_selected {
        assert("protocol "@ + drift::version_text(e.hello.protocol_selected) + " -> "@
            + drift::version_text(l.hello.protocol_selected) =~= "protocol "@ + text::decimal(
            e.hello.protocol_selected.major as nat,
        ) + "."@ + text::decimal(e.hello.protocol_selected.minor as nat) + " -> "@ + (
        text::decimal(l.hello.protocol_selected.major as nat) + "."@ + text::decimal(
            l.hello.protocol_selected.minor as nat,
        )));
    }
}

/// What differs in a note differs in its words: versions, peers and platforms are shown by
/// all that they are.
pub proof fn law_notes_show_what_changed(
    v: ProtocolVersion,
    p: PeerInfo,
    there: bool,
    note: Seq<char>,
)
    ensures
        drift::version_text(v) == text::decimal(v.major as nat) + "."@ + text::decimal(
            v.minor as nat,
        ),
        drift::peer_text(p) == p.name@ + "@"@ + p.version@,
        drift::note_if(there, note).len() == 1 <==> there,
        drift::note_if(there, note).len() == 0 <==> !there,
        there ==> drift::note_if(there, note)[0] == note,
{
}

/// The text of a mismatch names the live digest and the expected one.
pub proof fn law_mismatches_name_the_digests(
    held: CapabilityLockfile,
    live: CapabilityLockfile,
    expected: Seq<char>,
)
    ensures
        ({
            let said = provider::mismatch_text(held, live, expected);
            let start = "attestation mismatch: the live world's canonical digest "@ + live.digest@
                + " does not match the expected lockfileDigest "@ + expected + "; "@;
            &&& said.len() >= start.len()
            &&& said.take(start.len() as int) == start
            &&& provider::drifted(said).error_class == ErrorClass::CapabilityDrift
            &&& provider::drifted(said).message == said
        }),
{
    let said = provider::mismatch_text(held, live, expected);
    let start = "attestation mismatch: the live world's canonical digest "@ + live.digest@
        + " does not match the expected lockfileDigest "@ + expected + "; "@;
    assert(said.take(start.len() as int) =~= start);
}

/// Platforms are shown by their own names, each by another.
pub proof fn law_platforms_are_shown_by_name(a: PlatformKind, b: PlatformKind)
    ensures
        drift::platform_label(a) == drift::platform_label(b) ==> a == b,
        drift::platform_label(PlatformKind::Android) == "Android"@,
        drift::platform_label(PlatformKind::Ios) == "Ios"@,
        drift::platform_label(PlatformKind::Web) == "Web"@,
        drift::platform_label(PlatformKind::HarmonyOs) == "HarmonyOs"@,
        drift::platform_label(PlatformKind::MacOs) == "MacOs"@,
        drift::platform_label(PlatformKind::Windows) == "Windows"@,
        drift::platform_label(PlatformKind::Linux) == "Linux"@,
        drift::platform_label(PlatformKind::Rdp) == "Rdp"@,
{
    reveal_strlit("Android");
    reveal_strlit("Ios");
    reveal_strlit("Web");
    reveal_strlit("HarmonyOs");
    reveal_strlit("MacOs");
    reveal_strlit("Windows");
    reveal_strlit("Linux");
    reveal_strlit("Rdp");
    let x = drift::platform_label(a);
    let y = drift::platform_label(b);
    if x == y {
        assert(x[0] == y[0]);
        assert(x.len() == y.len());
    }
}

/// The summary of drift is that nothing changed just where there is no note; else it is the
/// notes in order. Lists are shown with what they list, and just where they list something.
pub proof fn law_summaries_join_the_notes(
    e: CapabilityLockfile,
    l: CapabilityLockfile,
    label: Seq<char>,
    items: Seq<Seq<char>>,
)
    ensures
        drift::drift_notes(e, l).len() == 0 ==> drift::drift_text(e, l)
            == "no field-level diff detected at summary granularity"@,
        drift::drift_notes(e, l).len() > 0 ==> drift::drift_text(e, l) == "drift: "@ + text::join(
            drift::drift_notes(e, l),
            "; "@,
        ),
        drift::list_note(label, items).len() == 1 <==> items.len() > 0,
        drift::list_note(label, items).len() == 0 <==> items.len() == 0,
        items.len() > 0 ==> drift::list_note(label, items)[0] == label + text::debug_texts(items),
{
}

/// A flow that was compiled against another lockfile is told both digests.
pub proof fn law_foreign_flows_are_told_the_digests(expected: Seq<char>, held: Seq<char>)
    ensures
        provider::foreign_digest(expected, held) == "the IR's lockfileDigest "@ + expected
            + " does not match the held lockfile digest "@ + held
            + "; recompile against the current lockfile"@,
{
}

/// A handshake requires the features that the provider cannot do without, and those of the flow.
/// It offers the others that the provider knows.
pub proof fn law_handshakes_name_the_features(extra: Seq<FeatureId>, name: Seq<char>)
    ensures
        lock::required_features(extra).has(name) <==> name == "device.routing.v1"@ || name
            == "events.snapshot.v1"@ || name == "request.control.v1"@ || exists|i: int|
            0 <= i < extra.len() && (#[trigger] extra[i])@ == name,
        lock::optional_features(extra).has(name) <==> (name == "device.semanticActions.v1"@ || name
            == "observation.uiSnapshot.v1"@ || name == "verdict.record.v1"@ || name
            == "events.stream.v1"@ || name == "media.stream.v1"@ || name
            == "session.export.page.v1"@) && !lock::required_features(extra).has(name),
{
    lock::law_offer_covers_the_known_features(extra, name);
    let infra = text::slice_texts(manifest::INFRA_REQUIRED_FEATURES@);
    let offered = text::slice_texts(manifest::OFFERED_OPTIONAL_FEATURES@);
    assert(infra =~= seq!["device.routing.v1"@, "events.snapshot.v1"@, "request.control.v1"@]);
    assert(offered =~= seq![
        "device.semanticActions.v1"@,
        "observation.uiSnapshot.v1"@,
        "verdict.record.v1"@,
        "events.stream.v1"@,
        "media.stream.v1"@,
        "session.export.page.v1"@,
    ]);
    assert(infra[0] == "device.routing.v1"@);
    assert(infra[1] == "events.snapshot.v1"@);
    assert(infra[2] == "request.control.v1"@);
    assert(offered[0] == "device.semanticActions.v1"@);
    assert(offered[1] == "observation.uiSnapshot.v1"@);
    assert(offered[2] == "verdict.record.v1"@);
    assert(offered[3] == "events.stream.v1"@);
    assert(offered[4] == "media.stream.v1"@);
    assert(offered[5] == "session.export.page.v1"@);
    let own = lock::feature_texts(extra);
    if own.contains(name) {
        let i = choose|i: int| 0 <= i < own.len() && own[i] == name;
        assert(extra[i]@ == name);
    }
    if exists|i: int| 0 <= i < extra.len() && (#[trigger] extra[i])@ == name {
        let i = choose|i: int| 0 <= i < extra.len() && (#[trigger] extra[i])@ == name;
        assert(own[i] == name);
    }
}

} // verus!
