//! The provider: the lockfile that it holds, and the opening of a session.
//!
//! An opening runs in a fixed order: list the devices, select the wanted one,
//! connect it, read its capabilities, attest them, start the session. Whatever
//! fails ends the opening, and the daemon that was spawned for it is closed: a
//! session is open as a whole or not at all. A lock run takes the same way up
//! to the capabilities.

use vstd::prelude::*;

use crate::devicerail::budget;
use crate::devicerail::budget::{clamp_timeout, BoundedError, DEFAULT_CALL_BUDGET_MS};
use crate::devicerail::calendar;
use crate::devicerail::calendar::now_utc_iso;
use crate::devicerail::drift;
use crate::devicerail::drift::describe_drift;
use crate::devicerail::endpoint;
use crate::devicerail::endpoint::{parse_spawn_endpoint, EndpointFields, SpawnSpec};
use crate::devicerail::lock;
use crate::devicerail::lock::{hello_params, lockfile_provider_identity, make_lockfile, HelloParams};
use crate::devicerail::manifest::{PROVIDER_NAME, PROVIDER_VERSION};
use crate::devicerail::session::{DeviceRailSession, SessionV};
use crate::devicerail::wire::{ActionDefinition, DeviceInfo, HelloResult};
use crate::ir::primitives::FeatureId;
use crate::ir::vocab::ErrorClass;
use crate::keyed::Keyed;
use crate::kit::error::{ProviderError, ProviderErrorV};
use crate::kit::lockfile;
use crate::kit::lockfile::{CapabilityAttestation, CapabilityLockfile, LockfileProvider};
use crate::text;
use crate::text::{concat5, quote_texts, same_text};

verus! {

/// The provider. It holds the lockfile that flows were compiled against.
#[derive(Debug, PartialEq, Eq)]
pub struct DeviceRailProvider {
    lockfile: CapabilityLockfile,
}

/// Why a lockfile cannot be held: it is another provider's, or its digest is
/// not that of its content.
pub open spec fn holding_fault(l: CapabilityLockfile) -> Option<Seq<char>> {
    if l.provider.name@ != PROVIDER_NAME@ {
        Some(
            "lockfile was produced by provider `"@ + l.provider.name@ + "`; this provider is `"@
                + PROVIDER_NAME@ + "`"@,
        )
    } else if lockfile::digest_of(l) != l.digest@ {
        Some("lockfile digest is inconsistent with its content; re-run `pointlock lock`"@)
    } else {
        None
    }
}

/// The error of drift.
pub open spec fn drifted(message: Seq<char>) -> ProviderErrorV {
    ProviderErrorV::concluded(ErrorClass::CapabilityDrift, message)
}

/// Why a flow cannot be run: it was compiled against another lockfile.
pub open spec fn foreign_digest(expected: Seq<char>, held: Seq<char>) -> Seq<char> {
    "the IR's lockfileDigest "@ + expected + " does not match the held lockfile digest "@ + held
        + "; recompile against the current lockfile"@
}

/// What to spawn for a session, and what to say in the handshake.
#[derive(Debug, PartialEq, Eq)]
pub struct SpawnPlan {
    /// The daemon to spawn.
    pub spawn: SpawnSpec,
    /// The handshake.
    pub hello: HelloParams,
}

impl DeviceRailProvider {
    /// The lockfile that the provider holds.
    pub closed spec fn held(&self) -> CapabilityLockfile {
        self.lockfile
    }

    #[verifier::type_invariant]
    spec fn sound(self) -> bool {
        holding_fault(self.lockfile) is None
    }

    /// A provider around a lockfile of its own that is consistent.
    pub fn new(lockfile: CapabilityLockfile) -> (r: Result<Self, ProviderError>)
        ensures
            match holding_fault(lockfile) {
                Some(fault) => r matches Err(e) && e@ == drifted(fault),
                None => r matches Ok(provider) && provider.held() == lockfile,
            },
    {
        if !same_text(lockfile.provider.name.as_str(), PROVIDER_NAME) {
            return Err(
                ProviderError::concluded(
                    ErrorClass::CapabilityDrift,
                    concat5(
                        "lockfile was produced by provider `",
                        lockfile.provider.name.as_str(),
                        "`; this provider is `",
                        PROVIDER_NAME,
                        "`",
                    ),
                ),
            );
        }
        if !lockfile.digest_consistent() {
            return Err(
                ProviderError::concluded(
                    ErrorClass::CapabilityDrift,
                    "lockfile digest is inconsistent with its content; re-run `pointlock lock`".to_owned(),
                ),
            );
        }
        Ok(DeviceRailProvider { lockfile })
    }

    /// The lockfile that the provider holds: its own, and consistent.
    pub fn lockfile(&self) -> (r: &CapabilityLockfile)
        ensures
            *r == self.held(),
            holding_fault(*r) is None,
    {
        proof {
            use_type_invariant(self);
        }
        &self.lockfile
    }

    /// What to spawn for a session. A flow that was compiled against another
    /// lockfile is refused before anything is spawned.
    pub fn begin_open(
        &self,
        lockfile_digest: &crate::ir::primitives::Hash,
        endpoint: Result<EndpointFields, String>,
        required_features: &Vec<FeatureId>,
    ) -> (r: Result<SpawnPlan, ProviderError>)
        ensures
            if lockfile_digest@ != self.held().digest@ {
                r matches Err(e) && e@ == drifted(
                    foreign_digest(lockfile_digest@, self.held().digest@),
                )
            } else {
                match endpoint::endpoint_fault(endpoint) {
                    Some(fault) => r matches Err(e) && e@ == ProviderErrorV::concluded(
                        ErrorClass::BindArgumentsInvalid,
                        "invalid DeviceRail endpoint: "@ + fault,
                    ),
                    None => {
                        &&& r matches Ok(plan)
                        &&& plan.spawn.fills(endpoint->Ok_0.spawn->0)
                        &&& plan.hello.client_name@ == "pointlock-provider-devicerail"@
                        &&& plan.hello.client_version@ == PROVIDER_VERSION@
                        &&& plan.hello.protocol == (crate::kit::manifest::ProtocolRange {
                            major: 1,
                            min_minor: 5,
                            max_minor: 5,
                        })
                        &&& plan.hello.required.as_map() == lock::required_features(
                            required_features@,
                        )
                        &&& plan.hello.optional.as_map() == lock::optional_features(
                            required_features@,
                        )
                    },
                }
            },
    {
        if !same_text(lockfile_digest.as_str(), self.lockfile.digest.as_str()) {
            return Err(
                ProviderError::concluded(
                    ErrorClass::CapabilityDrift,
                    concat5(
                        "the IR's lockfileDigest ",
                        lockfile_digest.as_str(),
                        " does not match the held lockfile digest ",
                        self.lockfile.digest.as_str(),
                        "; recompile against the current lockfile",
                    ),
                ),
            );
        }
        match parse_spawn_endpoint(endpoint) {
            Ok(spawn) => Ok(SpawnPlan { spawn, hello: hello_params(required_features) }),
            Err(error) => Err(error),
        }
    }
}

/// Why the wanted device cannot be had: the daemon does not know it.
pub open spec fn device_fault(devices: Seq<DeviceInfo>, wanted: Seq<char>) -> Option<
    ProviderErrorV,
> {
    if exists|i: int| 0 <= i < devices.len() && (#[trigger] devices[i]).id@ == wanted {
        None
    } else {
        Some(
            ProviderErrorV::concluded(
                ErrorClass::ActionFailedRetryable,
                "device `"@ + wanted + "` is not present in devices.list (known: "@
                    + text::debug_texts(devices.map_values(|d: DeviceInfo| d.id@)) + ")"@,
            ),
        )
    }
}

/// Checks that the daemon knows the wanted device.
pub fn find_device(devices: &Vec<DeviceInfo>, wanted: &str) -> (r: Result<(), ProviderError>)
    ensures
        match device_fault(devices@, wanted@) {
            Some(fault) => r matches Err(e) && e@ == fault,
            None => r is Ok,
        },
{
    let mut known: Vec<String> = Vec::new();
    let mut i: usize = 0;
    while i < devices.len()
        invariant
            i <= devices@.len(),
            known@.len() == i,
            forall|j: int| 0 <= j < i ==> #[trigger] known@[j]@ == devices@[j].id@,
            forall|j: int| 0 <= j < i ==> (#[trigger] devices@[j]).id@ != wanted@,
        decreases devices@.len() - i,
    {
        if same_text(devices[i].id.as_str(), wanted) {
            return Ok(());
        }
        known.push(devices[i].id.clone());
        i = i + 1;
    }
    assert(text::texts(known@) =~= devices@.map_values(|d: DeviceInfo| d.id@));
    Err(
        ProviderError::concluded(
            ErrorClass::ActionFailedRetryable,
            concat5(
                "device `",
                wanted,
                "` is not present in devices.list (known: ",
                quote_texts(&known).as_str(),
                ")",
            ),
        ),
    )
}

/// What an opening is for.
pub enum OpenGoal<'a> {
    /// A session under the lockfile that the provider holds.
    Session {
        /// The lockfile that the provider holds.
        held: &'a CapabilityLockfile,
        /// The digest that the flow expects.
        expected: &'a crate::ir::primitives::Hash,
    },
    /// A lockfile of the live world.
    Lock {
        /// Time of the lock run.
        attested_at: String,
    },
}

/// How far an opening has come.
pub enum OpenStage {
    /// The devices are to be listed.
    ListDevices,
    /// The device is to be selected.
    SelectDevice,
    /// The device is to be connected.
    ConnectDevice,
    /// The capabilities of the connected device are to be read.
    ReadCapabilities(DeviceInfo),
    /// The session is to be started under this attested lockfile.
    StartSession(CapabilityLockfile),
    /// The session is open.
    Opened(DeviceRailSession),
    /// The lockfile is made.
    Locked(CapabilityLockfile),
    /// The opening failed.
    Failed(ProviderError),
}

/// An opening under way.
pub struct Opening<'a> {
    /// What it is for.
    pub goal: OpenGoal<'a>,
    /// The wanted device.
    pub device_id: String,
    /// What the handshake settled.
    pub hello: HelloResult,
    /// How far it has come.
    pub stage: OpenStage,
}

/// What the caller has to do next for an opening.
#[derive(Debug, Clone, Copy, PartialEq, Eq, Structural)]
pub enum OpenCall {
    /// List the devices.
    ListDevices,
    /// Select the wanted device.
    SelectDevice,
    /// Connect the device within this budget.
    ConnectDevice(u64),
    /// Read the capabilities within this budget.
    ReadCapabilities(u64),
    /// Start the session.
    StartSession,
    /// Close the connection.
    Close,
    /// Keep the connection for the open session.
    Keep,
}

/// A reply of the daemon to an opening.
pub enum OpenEvent {
    /// The devices.
    Devices(Result<Vec<DeviceInfo>, BoundedError>),
    /// The device was selected.
    Selected(Result<(), BoundedError>),
    /// The device was connected.
    Connected(Result<DeviceInfo, BoundedError>),
    /// The capabilities.
    Capabilities(Result<Vec<ActionDefinition>, BoundedError>),
    /// The session was started and has this id.
    Started(Result<String, BoundedError>),
}

impl OpenStage {
    /// What the caller has to do in this stage.
    pub open spec fn call(self) -> OpenCall {
        match self {
            OpenStage::ListDevices => OpenCall::ListDevices,
            OpenStage::SelectDevice => OpenCall::SelectDevice,
            OpenStage::ConnectDevice => OpenCall::ConnectDevice(
                budget::clamped(DEFAULT_CALL_BUDGET_MS),
            ),
            OpenStage::ReadCapabilities(_) => OpenCall::ReadCapabilities(
                budget::clamped(DEFAULT_CALL_BUDGET_MS),
            ),
            OpenStage::StartSession(_) => OpenCall::StartSession,
            OpenStage::Opened(_) => OpenCall::Keep,
            OpenStage::Locked(_) | OpenStage::Failed(_) => OpenCall::Close,
        }
    }

    /// The place of this stage in the order of an opening.
    pub open spec fn rank(self) -> nat {
        match self {
            OpenStage::ListDevices => 0,
            OpenStage::SelectDevice => 1,
            OpenStage::ConnectDevice => 2,
            OpenStage::ReadCapabilities(_) => 3,
            OpenStage::StartSession(_) => 4,
            OpenStage::Opened(_) => 5,
            OpenStage::Locked(_) => 5,
            OpenStage::Failed(_) => 5,
        }
    }

    /// Whether this stage is a failure with this error.
    pub open spec fn fails_with(self, error: ProviderErrorV) -> bool {
        self matches OpenStage::Failed(e) && e@ == error
    }
}

/// Whether `attestation` attests the live lockfile.
pub open spec fn attests_live(attestation: CapabilityAttestation, live: CapabilityLockfile) -> bool {
    &&& attestation.provider_id@ == live.provider.name@
    &&& attestation.protocol_selected == live.hello.protocol_selected
    &&& attestation.features_enabled.as_map() == lockfile::feature_set(live.hello.features_enabled@)
    &&& crate::wire::wire_members(attestation.actions@.entries) == lockfile::actions_by_name(
        live.device.actions@,
    )
    &&& forall|name: Seq<char>| #[trigger]
        attestation.attests(name) == lockfile::actions_by_name(live.device.actions@).has(name)
    &&& attestation.lockfile_digest@ == live.digest@
    &&& exists|secs: u64| attestation.attested_at@ == #[trigger] calendar::iso_text(secs as nat)
}

/// Whether `live` was made from the live world for a provider.
pub open spec fn is_live(
    live: CapabilityLockfile,
    name: Seq<char>,
    version: Seq<char>,
    attested_at: Seq<char>,
    hello: HelloResult,
    device: DeviceInfo,
    actions: Seq<ActionDefinition>,
) -> bool {
    &&& live.provider.name@ == name
    &&& live.provider.version@ == version
    &&& live.attested_at@ == attested_at
    &&& lock::locks(live, hello, device, actions)
}

/// What the capabilities of the connected device make of an opening.
pub open spec fn after_capabilities(
    goal: OpenGoal<'_>,
    hello: HelloResult,
    device: DeviceInfo,
    actions: Seq<ActionDefinition>,
    next: OpenStage,
) -> bool {
    match lock::lock_fault(hello, device, actions) {
        Some(fault) => next.fails_with(fault),
        None => match goal {
            OpenGoal::Lock { attested_at } => next matches OpenStage::Locked(live) && is_live(
                live,
                PROVIDER_NAME@,
                PROVIDER_VERSION@,
                attested_at@,
                hello,
                device,
                actions,
            ),
            OpenGoal::Session { held, expected } => exists|live: CapabilityLockfile| #[trigger]
                is_live(
                    live,
                    held.provider.name@,
                    held.provider.version@,
                    held.attested_at@,
                    hello,
                    device,
                    actions,
                ) && (if live.digest@ == expected@ {
                    next == OpenStage::StartSession(live)
                } else {
                    next.fails_with(drifted(mismatch_text(*held, live, expected@)))
                }),
        },
    }
}

/// What is said where the live world is not what the flow expects.
pub open spec fn mismatch_text(
    held: CapabilityLockfile,
    live: CapabilityLockfile,
    expected: Seq<char>,
) -> Seq<char> {
    "attestation mismatch: the live world's canonical digest "@ + live.digest@
        + " does not match the expected lockfileDigest "@ + expected + "; "@ + drift::drift_text(
        held,
        live,
    ) + " — re-run `pointlock lock` and recompile"@
}

/// What a reply makes of an opening. A reply that does not belong to the stage
/// changes nothing.
pub open spec fn moves(before: Opening<'_>, event: OpenEvent, next: OpenStage) -> bool {
    match (before.stage, event) {
        (OpenStage::ListDevices, OpenEvent::Devices(reply)) => match reply {
            Err(e) => next.fails_with(e.error_in("devices.list"@)),
            Ok(devices) => match device_fault(devices@, before.device_id@) {
                Some(fault) => next.fails_with(fault),
                None => next == OpenStage::SelectDevice,
            },
        },
        (OpenStage::SelectDevice, OpenEvent::Selected(reply)) => match reply {
            Err(e) => next.fails_with(e.error_in("device.select"@)),
            Ok(_) => next == OpenStage::ConnectDevice,
        },
        (OpenStage::ConnectDevice, OpenEvent::Connected(reply)) => match reply {
            Err(e) => next.fails_with(e.error_in("device.connect"@)),
            Ok(device) => next == OpenStage::ReadCapabilities(device),
        },
        (OpenStage::ReadCapabilities(device), OpenEvent::Capabilities(reply)) => match reply {
            Err(e) => next.fails_with(e.error_in("device.capabilities"@)),
            Ok(actions) => after_capabilities(before.goal, before.hello, device, actions@, next),
        },
        (OpenStage::StartSession(live), OpenEvent::Started(reply)) => match reply {
            Err(e) => next.fails_with(e.error_in("session.start"@)),
            Ok(id) => {
                &&& next matches OpenStage::Opened(session)
                &&& attests_live(session.attestation, live)
                &&& session@ == (SessionV {
                    session_id: id@,
                    ended: false,
                    degraded: None,
                    dispatched: Keyed::none(),
                    watermark: None,
                })
            },
        },
        _ => next == before.stage,
    }
}

impl<'a> Opening<'a> {
    /// An opening after the handshake.
    pub fn begin(goal: OpenGoal<'a>, device_id: String, hello: HelloResult) -> (r: Self)
        ensures
            r == (Opening { goal, device_id, hello, stage: OpenStage::ListDevices }),
    {
        Opening { goal, device_id, hello, stage: OpenStage::ListDevices }
    }

    /// What the caller has to do next.
    pub fn next_call(&self) -> (r: OpenCall)
        ensures
            r == self.stage.call(),
    {
        match &self.stage {
            OpenStage::ListDevices => OpenCall::ListDevices,
            OpenStage::SelectDevice => OpenCall::SelectDevice,
            OpenStage::ConnectDevice => OpenCall::ConnectDevice(
                clamp_timeout(DEFAULT_CALL_BUDGET_MS),
            ),
            OpenStage::ReadCapabilities(_) => OpenCall::ReadCapabilities(
                clamp_timeout(DEFAULT_CALL_BUDGET_MS),
            ),
            OpenStage::StartSession(_) => OpenCall::StartSession,
            OpenStage::Opened(_) => OpenCall::Keep,
            OpenStage::Locked(_) | OpenStage::Failed(_) => OpenCall::Close,
        }
    }

    /// Takes a reply of the daemon.
    pub fn take(self, event: OpenEvent) -> (r: Self)
        ensures
            moves(self, event, r.stage),
            r.goal == self.goal,
            r.device_id == self.device_id,
            r.hello == self.hello,
    {
        let Opening { goal, device_id, hello, stage } = self;
        let next = match (stage, event) {
            (OpenStage::ListDevices, OpenEvent::Devices(reply)) => match reply {
                Err(error) => OpenStage::Failed(error.into_provider_error("devices.list")),
                Ok(devices) => match find_device(&devices, device_id.as_str()) {
                    Err(error) => OpenStage::Failed(error),
                    Ok(_) => OpenStage::SelectDevice,
                },
            },
            (OpenStage::SelectDevice, OpenEvent::Selected(reply)) => match reply {
                Err(error) => OpenStage::Failed(error.into_provider_error("device.select")),
                Ok(_) => OpenStage::ConnectDevice,
            },
            (OpenStage::ConnectDevice, OpenEvent::Connected(reply)) => match reply {
                Err(error) => OpenStage::Failed(error.into_provider_error("device.connect")),
                Ok(device) => OpenStage::ReadCapabilities(device),
            },
            (OpenStage::ReadCapabilities(device), OpenEvent::Capabilities(reply)) => match reply {
                Err(error) => OpenStage::Failed(error.into_provider_error("device.capabilities")),
                Ok(actions) => attested(&goal, &hello, &device, &actions),
            },
            (OpenStage::StartSession(live), OpenEvent::Started(reply)) => match reply {
                Err(error) => OpenStage::Failed(error.into_provider_error("session.start")),
                Ok(session_id) => OpenStage::Opened(
                    DeviceRailSession::new(
                        CapabilityAttestation::from_lockfile(&live, now_utc_iso()),
                        session_id,
                    ),
                ),
            },
            (stage, _) => stage,
        };
        Opening { goal, device_id, hello, stage: next }
    }
}

fn attested(
    goal: &OpenGoal<'_>,
    hello: &HelloResult,
    device: &DeviceInfo,
    actions: &Vec<ActionDefinition>,
) -> (r: OpenStage)
    ensures
        after_capabilities(*goal, *hello, *device, actions@, r),
{
    match goal {
        OpenGoal::Lock { attested_at } => {
            match make_lockfile(
                lockfile_provider_identity(),
                attested_at.clone(),
                hello,
                device,
                actions,
            ) {
                Ok(live) => OpenStage::Locked(live),
                Err(error) => OpenStage::Failed(error),
            }
        },
        OpenGoal::Session { held, expected } => {
            let identity = LockfileProvider {
                name: held.provider.name.clone(),
                version: held.provider.version.clone(),
            };
            match make_lockfile(identity, held.attested_at.clone(), hello, device, actions) {
                Err(error) => OpenStage::Failed(error),
                Ok(live) => {
                    assert(is_live(
                        live,
                        held.provider.name@,
                        held.provider.version@,
                        held.attested_at@,
                        *hello,
                        *device,
                        actions@,
                    ));
                    if same_text(live.digest.as_str(), expected.as_str()) {
                        OpenStage::StartSession(live)
                    } else {
                        let digests = concat5(
                            "attestation mismatch: the live world's canonical digest ",
                            live.digest.as_str(),
                            " does not match the expected lockfileDigest ",
                            expected.as_str(),
                            "; ",
                        );
                        let summary = describe_drift(held, &live);
                        OpenStage::Failed(
                            ProviderError::concluded(
                                ErrorClass::CapabilityDrift,
                                text::concat3(
                                    digests.as_str(),
                                    summary.as_str(),
                                    " — re-run `pointlock lock` and recompile",
                                ),
                            ),
                        )
                    }
                },
            }
        },
    }
}

/// An opening moves forward, one stage at a time, or fails, or stays where it
/// is on a reply that does not belong to its stage.
pub proof fn law_openings_move_forward(before: Opening<'_>, event: OpenEvent, next: OpenStage)
    requires
        moves(before, event, next),
    ensures
        next.rank() == before.stage.rank() + 1 || next is Failed || next is Locked || next
            == before.stage,
        next.rank() >= before.stage.rank(),
{
}

/// A failed opening asks for the connection to be closed, and stays failed.
pub proof fn law_failed_openings_are_closed(before: Opening<'_>, event: OpenEvent, next: OpenStage)
    requires
        before.stage is Failed,
        moves(before, event, next),
    ensures
        next == before.stage,
        next.call() == OpenCall::Close,
{
}

/// A session only starts under a live world with the digest that the flow
/// expects, and it is attested with just that world.
pub proof fn law_sessions_are_attested(before: Opening<'_>, event: OpenEvent, next: OpenStage)
    requires
        moves(before, event, next),
    ensures
        next is StartSession && before.stage !is StartSession ==> (before.goal matches
            OpenGoal::Session { expected, .. } && next->StartSession_0.digest@ == expected@
            && next->StartSession_0.digest@ == lockfile::digest_of(next->StartSession_0)),
        next is Opened && before.stage !is Opened ==> before.stage is StartSession && attests_live(
            next->Opened_0.attestation,
            before.stage->StartSession_0,
        ),
{
}

} // verus!
