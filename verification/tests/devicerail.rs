use pointlock::devicerail::budget::{execute_budgets, BoundedError};
use pointlock::devicerail::drift::describe_drift;
use pointlock::devicerail::endpoint::{EndpointFields, SpawnFields};
use pointlock::devicerail::lock::{hello_params, lockfile_provider_identity, make_lockfile};
use pointlock::devicerail::manifest::{
    devicerail_manifest, INFRA_REQUIRED_FEATURES, OFFERED_OPTIONAL_FEATURES, PROVIDER_NAME, PROVIDER_VERSION,
};
use pointlock::devicerail::provider::{
    DeviceRailProvider, OpenCall, OpenEvent, OpenGoal, OpenStage, Opening,
};
use pointlock::devicerail::scan::{
    latest_sequence, CallFate, CallScan, CursorStep, ScanStep, SCAN_PAGE_LIMIT,
};
use pointlock::devicerail::session::{
    CursorProgress, DeviceRailSession, ExecutePlan, ExecuteRequest, ReconcileStep,
};
use pointlock::devicerail::wire::{
    ActionDefinition, ClientError, ClientFailure, DeviceInfo, HelloResult, LogEvent, LogPayload,
    Platform, RpcError, WireActionOutcome, WireObservation, WireViewport,
};
use pointlock::ir::primitives::{ActionName, FeatureId};
use pointlock::ir::record::EventCursor;
use pointlock::ir::runtime::{ActionOutcome, AssetRef, ErrorInfo, ReconcileResult};
use pointlock::ir::vocab::{
    CanonicalVerb, Channel, ErrorClass, ScreenshotOmissionReason, UiSnapshotOmissionReason,
    VerdictStatus,
};
use pointlock::json::{parse_json, Json, JsonNumber};
use pointlock::keyed::TextMap;
use pointlock::kit::lockfile::{
    CapabilityAttestation, CapabilityLockfile, LockfileDevice, LockfileHello, LockfileProvider,
    PeerInfo, ProtocolVersion,
};
use pointlock::kit::manifest::{ActionProtection, ChannelRole, PlatformKind, ProtocolRange};
use pointlock::kit::spi::{
    BoundActionCall, ObserveWant, SessionOutcome, UiSnapshotOutcome, VerdictWrite,
};
use pointlock::sets::TextSet;
use pointlock::wire::Wire;

fn json(text: &str) -> Json {
    parse_json(text).expect("a JSON text")
}

/// The value at a path of member names and array positions.
fn get<'a>(value: &'a Json, path: &[&str]) -> Option<&'a Json> {
    let mut at = value;
    for part in path {
        at = match at {
            Json::Object(_) => at.member(part)?,
            Json::Array(items) => items.get(part.parse::<usize>().ok()?)?,
            _ => return None,
        };
    }
    Some(at)
}

const CALL_A: &str = "4a1f2c9e-0000-4000-8000-000000000001";
const CALL_B: &str = "4a1f2c9e-0000-4000-8000-000000000002";
const SESSION: &str = "11111111-0000-4000-8000-000000000001";

fn live_hello(enabled: &[&str]) -> HelloResult {
    let names: Vec<String> = enabled.iter().map(|name| (*name).to_owned()).collect();
    HelloResult {
        major: 1,
        minor: 5,
        server_name: "devicerail-daemon".to_owned(),
        server_version: "0.9.0".to_owned(),
        enabled: TextSet::of(&names),
    }
}

fn mock_device() -> DeviceInfo {
    DeviceInfo {
        id: "mock-1".to_owned(),
        name: "DeviceRail Mock Device".to_owned(),
        platform: Platform::Mock,
        os_version: Some("0.1".to_owned()),
        connected: true,
    }
}

fn tap_action() -> ActionDefinition {
    ActionDefinition {
        name: "tap".to_owned(),
        description: "Tap a point".to_owned(),
        input_schema: json(r#"{ "type": "object" }"#),
        protection: ActionProtection::Standard,
    }
}

fn lock(hello: &HelloResult, actions: Vec<ActionDefinition>) -> CapabilityLockfile {
    make_lockfile(
        lockfile_provider_identity(),
        "2026-01-01T00:00:00Z".to_owned(),
        hello,
        &mock_device(),
        &actions,
    )
    .expect("lockfile")
}

#[test]
fn hello_offer_bundles_infra_required_and_the_feature_universe() {
    let params = hello_params(&vec![FeatureId::new("device.semanticActions.v1").unwrap()]);
    assert_eq!(
        params.protocol,
        ProtocolRange {
            major: 1,
            min_minor: 5,
            max_minor: 5
        }
    );
    for infra in INFRA_REQUIRED_FEATURES {
        assert!(params.required.contains(infra), "missing {infra}");
    }
    assert!(params.required.contains("device.semanticActions.v1"));
    assert!(!params.optional.contains("device.semanticActions.v1"));
    assert!(params.optional.contains("observation.uiSnapshot.v1"));
    assert!(!params.optional.contains("action.protected.v1"));
    assert_eq!(params.client_name, "pointlock-provider-devicerail");
    assert_eq!(params.client_version, "0.1.0");
}

#[test]
fn every_offered_feature_is_required_or_optional() {
    let params = hello_params(&vec![FeatureId::new("media.stream.v1").unwrap()]);
    for name in OFFERED_OPTIONAL_FEATURES {
        assert_ne!(
            params.required.contains(name),
            params.optional.contains(name),
            "{name}"
        );
    }
    assert_eq!(params.required.len() + params.optional.len(), 9);
}

#[test]
fn make_lockfile_is_deterministic_for_the_same_live_world() {
    let hello = live_hello(&[
        "device.routing.v1",
        "events.snapshot.v1",
        "request.control.v1",
        "verdict.record.v1",
    ]);
    let first = lock(&hello, vec![tap_action()]);
    let second = lock(&hello, vec![tap_action()]);
    assert!(first.digest_consistent());
    assert_eq!(first.digest, second.digest);
    assert_eq!(
        first.hello.protocol_selected,
        ProtocolVersion { major: 1, minor: 5 }
    );
    assert_eq!(
        first
            .hello
            .features_enabled
            .iter()
            .map(FeatureId::as_str)
            .collect::<Vec<_>>(),
        [
            "device.routing.v1",
            "events.snapshot.v1",
            "request.control.v1",
            "verdict.record.v1"
        ]
    );
}

#[test]
fn any_live_drift_changes_the_digest() {
    let baseline = lock(&live_hello(&["events.snapshot.v1"]), vec![tap_action()]);

    let drifted = lock(
        &live_hello(&["events.snapshot.v1", "media.stream.v1"]),
        vec![tap_action()],
    );
    assert_ne!(baseline.digest, drifted.digest);

    let mut changed_action = tap_action();
    changed_action.input_schema = json(r#"{ "type": "object", "required": ["x"] }"#);
    let drifted = lock(&live_hello(&["events.snapshot.v1"]), vec![changed_action]);
    assert_ne!(baseline.digest, drifted.digest);
}

#[test]
fn unusable_live_worlds_are_drift() {
    let refuse = |hello: &HelloResult, device: &DeviceInfo, actions: Vec<ActionDefinition>| {
        make_lockfile(
            lockfile_provider_identity(),
            String::new(),
            hello,
            device,
            &actions,
        )
        .expect_err("refused")
    };
    let odd = live_hello(&["Odd Feature"]);
    let error = refuse(&odd, &mock_device(), vec![]);
    assert_eq!(error.error_class, ErrorClass::CapabilityDrift);
    assert!(error
        .message
        .starts_with("negotiated feature id is outside the FeatureId grammar: "));
    let mut fridge = mock_device();
    fridge.platform = Platform::Other("fridge".to_owned());
    assert!(refuse(&live_hello(&[]), &fridge, vec![])
        .message
        .contains("fridge"));
    // An unusable action is reported before anything else.
    let mut bad = tap_action();
    bad.name = "9tap".to_owned();
    assert!(refuse(&odd, &fridge, vec![tap_action(), bad])
        .message
        .contains("9tap"));
}

#[test]
fn manifest_declares_the_semantic_five_and_wire_names_verbatim() {
    let manifest = devicerail_manifest();
    assert_eq!(manifest.name, "devicerail");
    assert_eq!(manifest.protocol.major, 1);
    assert_eq!(manifest.protocol.min_minor, 5);
    assert_eq!(manifest.protocol.max_minor, 5);
    assert!(manifest.features.guaranteed.is_empty());

    let bindings: Vec<(CanonicalVerb, &str)> = manifest
        .verb_bindings
        .iter()
        .map(|binding| (binding.verb, binding.action_name.as_str()))
        .collect();
    for expected in [
        (CanonicalVerb::Tap, "tapElement"),
        (CanonicalVerb::SetValue, "setElementValue"),
        (CanonicalVerb::Clear, "clearElement"),
        (CanonicalVerb::WaitFor, "waitForElement"),
        (CanonicalVerb::Find, "findElement"),
        (CanonicalVerb::Tap, "tap"),
        (CanonicalVerb::Observe, "observe"),
        (CanonicalVerb::Screenshot, "screenshot"),
    ] {
        assert!(bindings.contains(&expected), "missing binding {expected:?}");
    }

    let known: Vec<&str> = manifest
        .known_actions
        .iter()
        .map(|action| action.name.as_str())
        .collect();
    assert_eq!(
        known,
        [
            "findElement",
            "tapElement",
            "clearElement",
            "setElementValue",
            "waitForElement",
            "observe",
            "screenshot",
        ]
    );
    let synthetic: Vec<&str> = manifest
        .known_actions
        .iter()
        .filter(|action| action.synthetic)
        .map(|action| action.name.as_str())
        .collect();
    assert_eq!(synthetic, ["observe", "screenshot"]);
}

#[test]
fn semantic_bindings_map_surface_args_per_04_9_4() {
    let manifest = devicerail_manifest();
    let native = |verb: CanonicalVerb, action: &str, surface: &str| -> Option<String> {
        manifest
            .verb_bindings
            .iter()
            .find(|binding| binding.verb == verb && binding.action_name.as_str() == action)
            .expect("binding present")
            .arg_map
            .get(surface)
            .cloned()
    };
    for (verb, action, surface, expected) in [
        (CanonicalVerb::Tap, "tapElement", "element", "target"),
        (CanonicalVerb::SetValue, "setElementValue", "value", "value"),
        (CanonicalVerb::WaitFor, "waitForElement", "element", "selector"),
        (CanonicalVerb::WaitFor, "waitForElement", "state", "condition"),
        (CanonicalVerb::Find, "findElement", "element", "selector"),
        (CanonicalVerb::Tap, "tap", "x", "x"),
        (CanonicalVerb::Tap, "tap", "y", "y"),
    ] {
        assert_eq!(native(verb, action, surface).as_deref(), Some(expected));
    }
}

#[test]
fn channels_respect_role_restrictions() {
    let manifest = devicerail_manifest();
    let role = |channel: Channel| {
        manifest
            .channels
            .iter()
            .find(|support| support.channel == channel)
            .map(|support| support.role)
    };
    assert_eq!(role(Channel::UiTree), Some(ChannelRole::Both));
    assert_eq!(role(Channel::Dom), Some(ChannelRole::Both));
    assert_eq!(role(Channel::Coordinate), Some(ChannelRole::Act));
    assert_eq!(role(Channel::Vision), Some(ChannelRole::Verify));
    let ui_tree = manifest
        .channels
        .iter()
        .find(|support| support.channel == Channel::UiTree)
        .unwrap();
    assert_eq!(
        ui_tree.requires_feature.as_ref().map(FeatureId::as_str),
        Some("observation.uiSnapshot.v1")
    );
}

#[test]
fn manifest_serializes_to_the_spine_wire_shape() {
    let wire = devicerail_manifest().to_json();
    assert_eq!(get(&wire, &["name"]), Some(&Json::text("devicerail")));
    assert_eq!(get(&wire, &["protocol", "minMinor"]), Some(&Json::uint(5)));
    assert_eq!(
        get(&wire, &["verbBindings", "0", "argMap", "element"]),
        Some(&Json::text("target"))
    );
    assert_eq!(
        get(&wire, &["knownActions", "0", "name"]),
        Some(&Json::text("findElement"))
    );
    assert_eq!(
        get(&wire, &["knownActions", "0", "protection"]),
        Some(&Json::text("standard"))
    );
    assert_eq!(
        get(&wire, &["knownActions", "6", "outputSchema"]),
        Some(&json(
            r#"{
                "type": "object",
                "additionalProperties": false,
                "required": ["observationId"],
                "properties": {
                    "observationId": { "type": "string", "minLength": 1, "maxLength": 4096 },
                    "screenshot": {
                        "type": "object",
                        "additionalProperties": false,
                        "required": ["id", "mediaType", "uri"],
                        "properties": {
                            "id": { "type": "string", "minLength": 1, "maxLength": 4096 },
                            "mediaType": { "type": "string", "minLength": 1, "maxLength": 255 },
                            "uri": { "type": "string", "minLength": 1, "maxLength": 8192 },
                            "sha256": { "type": "string", "pattern": "^sha256:[0-9a-f]{64}$" }
                        }
                    },
                    "screenshotOmission": { "enum": ["policy", "protectedAction"] }
                }
            }"#
        ))
    );
}

fn sample_lockfile(name: &str) -> CapabilityLockfile {
    let mut lockfile = CapabilityLockfile {
        provider: LockfileProvider {
            name: name.to_owned(),
            version: "0.1.0".to_owned(),
        },
        attested_at: "2026-01-01T00:00:00Z".to_owned(),
        hello: LockfileHello {
            protocol_selected: ProtocolVersion { major: 1, minor: 5 },
            features_enabled: vec![FeatureId::new("events.snapshot.v1").unwrap()],
            server: PeerInfo {
                name: "devicerail-daemon".to_owned(),
                version: "0.9.0".to_owned(),
            },
        },
        device: LockfileDevice {
            platform: PlatformKind::Linux,
            actions: Vec::new(),
        },
        digest:
            pointlock::ir::primitives::Hash::new(&format!("sha256:{}", "0".repeat(64))).unwrap(),
    };
    lockfile.seal();
    lockfile
}

#[test]
fn provider_construction_fails_closed_on_bad_lockfiles() {
    let error = DeviceRailProvider::new(sample_lockfile("fake")).expect_err("name check");
    assert_eq!(error.error_class, ErrorClass::CapabilityDrift);

    let mut tampered = sample_lockfile(PROVIDER_NAME);
    tampered.digest =
        pointlock::ir::primitives::Hash::new(&format!("sha256:{}", "f".repeat(64))).unwrap();
    let error = DeviceRailProvider::new(tampered).expect_err("digest check");
    assert_eq!(error.error_class, ErrorClass::CapabilityDrift);

    let provider = DeviceRailProvider::new(sample_lockfile(PROVIDER_NAME)).expect("consistent");
    assert_eq!(provider.lockfile().provider.name, PROVIDER_NAME);
}

fn spawn_endpoint() -> Result<EndpointFields, String> {
    Ok(EndpointFields {
        spawn: Some(SpawnFields {
            command: Some("/nonexistent/devicerail".to_owned()),
            args: None,
            env: None,
            cwd: None,
            shutdown_grace_ms: None,
        }),
        attach: None,
    })
}

#[test]
fn open_session_rejects_a_foreign_lockfile_digest_before_spawning() {
    let provider = DeviceRailProvider::new(sample_lockfile(PROVIDER_NAME)).unwrap();
    let foreign =
        pointlock::ir::primitives::Hash::new(&format!("sha256:{}", "e".repeat(64))).unwrap();
    let error = provider
        .begin_open(&foreign, spawn_endpoint(), &Vec::new())
        .expect_err("digest gate");
    assert_eq!(error.error_class, ErrorClass::CapabilityDrift);
    assert!(error.message.contains("recompile"));

    let own = provider.lockfile().digest.clone();
    let plan = provider
        .begin_open(&own, spawn_endpoint(), &Vec::new())
        .expect("plan");
    assert_eq!(plan.spawn.command, "/nonexistent/devicerail");
    assert!(plan.hello.required.contains("events.snapshot.v1"));
    assert_eq!(
        (
            plan.hello.protocol.major,
            plan.hello.protocol.min_minor,
            plan.hello.protocol.max_minor
        ),
        (1, 5, 5)
    );
    assert_eq!(plan.hello.client_name, "pointlock-provider-devicerail");
    assert_eq!(plan.hello.client_version, PROVIDER_VERSION);
}

#[test]
fn drift_description_names_the_differences() {
    let expected = sample_lockfile(PROVIDER_NAME);
    let mut live = expected.clone();
    live.hello.features_enabled = vec![
        FeatureId::new("events.snapshot.v1").unwrap(),
        FeatureId::new("media.stream.v1").unwrap(),
    ];
    live.hello.server.version = "1.0.0".to_owned();
    live.seal();
    let summary = describe_drift(&expected, &live);
    assert!(summary.contains("features gained"), "{summary}");
    assert!(summary.contains("media.stream.v1"), "{summary}");
    assert!(summary.contains("server"), "{summary}");
}

#[test]
fn drift_descriptions_cover_every_part() {
    let mut old = lock(&live_hello(&["events.snapshot.v1"]), vec![tap_action()]);
    let mut press = tap_action();
    press.name = "press".to_owned();
    let mut other_tap = tap_action();
    other_tap.input_schema = json("true");
    let mut new = lock(&live_hello(&["media.stream.v1"]), vec![press, other_tap]);
    old.hello.protocol_selected = ProtocolVersion { major: 1, minor: 4 };
    new.device.platform = PlatformKind::Android;
    assert_eq!(
        describe_drift(&old, &new),
        "drift: protocol 1.4 -> 1.5; features lost: [\"events.snapshot.v1\"]; features gained: \
         [\"media.stream.v1\"]; platform Linux -> Android; actions appeared: [\"press\"]; action \
         definitions changed: [\"tap\"]"
    );
    assert_eq!(
        describe_drift(&old, &old),
        "no field-level diff detected at summary granularity"
    );
}

fn attestation(features: &[&str]) -> CapabilityAttestation {
    CapabilityAttestation::from_lockfile(
        &lock(&live_hello(features), vec![tap_action()]),
        "2026-01-01T00:00:00Z".to_owned(),
    )
}

fn session(features: &[&str]) -> DeviceRailSession {
    DeviceRailSession::new(attestation(features), SESSION.to_owned())
}

fn call(action_ms: Option<u64>, request_ms: Option<u64>) -> BoundActionCall {
    BoundActionCall {
        call_id: CALL_A.to_owned(),
        action_name: ActionName::new("tap").unwrap(),
        arguments: json("{}"),
        action_timeout_ms: action_ms,
        request_timeout_ms: request_ms,
    }
}

fn rpc(code: &str, numeric: i32, details: Option<Json>) -> ClientError {
    ClientError {
        failure: ClientFailure::RemoteRpc(RpcError {
            code: numeric,
            message: "m".to_owned(),
            data: ErrorInfo {
                code: code.to_owned(),
                message: format!("{code} happened"),
                retryable: false,
                details,
            },
        }),
        text: "remote".to_owned(),
    }
}

#[test]
fn record_verdict_without_the_feature_is_capability_drift() {
    let error = DeviceRailSession::verdict_record_gate(false).expect_err("drift");
    assert_eq!(error.error_class, ErrorClass::CapabilityDrift);
    assert!(error.message.contains("verdict.record.v1"));
    DeviceRailSession::verdict_record_gate(true).expect("negotiated");
}

#[test]
fn envelope_budget_is_derived_from_the_action_budget() {
    let (action, envelope) = execute_budgets(&call(Some(15_000), None)).unwrap();
    assert_eq!(action, Some(15_000));
    assert_eq!(envelope, Some(20_000));

    let (action, envelope) = execute_budgets(&call(Some(1_000), Some(30_000))).unwrap();
    assert_eq!(action, Some(1_000));
    assert_eq!(envelope, Some(30_000));

    let (action, envelope) = execute_budgets(&call(Some(u64::MAX - 1), None)).unwrap();
    assert!(action.unwrap() < envelope.unwrap());

    let (action, envelope) = execute_budgets(&call(None, None)).unwrap();
    assert_eq!(action, None);
    assert_eq!(envelope, None);
}

#[test]
fn budget_invariant_one_fails_closed() {
    for (action, envelope) in [(5_000, 5_000), (6_000, 5_000)] {
        let error =
            execute_budgets(&call(Some(action), Some(envelope))).expect_err("invariant 1");
        assert_eq!(
            error.message,
            format!(
                "budget invariant violated: actionTimeoutMs ({action}) must be strictly below \
                 the request envelope timeoutMs ({envelope}) (04 §9.7 invariant 1)"
            )
        );
        assert_eq!(error.error_class, ErrorClass::BindArgumentsInvalid);
    }
}

#[test]
fn calls_are_planned_dispatched_once_and_settled() {
    let mut session = session(&[]);
    let plan = session
        .begin_execute(call(Some(15_000), None), false)
        .expect("plan");
    assert_eq!(
        plan,
        ExecutePlan::Dispatch(ExecuteRequest {
            id: CALL_A.to_owned(),
            name: "tap".to_owned(),
            arguments: json("{}"),
            action_timeout_ms: Some(15_000),
            timeout_ms: Some(20_000),
        })
    );
    // The same id in another spelling is the same id.
    let mut again = call(None, None);
    again.call_id = CALL_A.to_uppercase();
    let error = session.begin_execute(again, false).expect_err("duplicate");
    assert_eq!(error.error_class, ErrorClass::BindArgumentsInvalid);
    assert_eq!(
        error.message,
        format!("duplicate callId {CALL_A}: a retry is a new callId with a new WAL intent (04 §3)")
    );

    let mut odd = call(None, None);
    odd.call_id = "call-1".to_owned();
    let error = session.begin_execute(odd, false).expect_err("no id");
    assert!(error
        .message
        .starts_with("callId must be the runner-generated UUID: "));

    let mut rogue = call(None, None);
    rogue.action_name = ActionName::new("launchMissiles").unwrap();
    let error = session.begin_execute(rogue, false).expect_err("rogue");
    assert_eq!(error.error_class, ErrorClass::CapabilityDrift);

    let error = session
        .begin_execute(call(None, None), true)
        .expect_err("cancelled");
    assert_eq!(error.error_class, ErrorClass::ActionCancelled);

    let outcome = session
        .finish_execute(Err(rpc("element_not_found", -32000, None)))
        .expect("terminal");
    assert_eq!(outcome.kind(), "failed");
    let error = session
        .finish_execute(Err(rpc("session_degraded", -32006, None)))
        .expect_err("open fate");
    assert_eq!(error.error_class, ErrorClass::SessionDegraded);
    let health = session.finish_health(Ok(SESSION.to_owned()));
    assert!(health.ok);
    assert_eq!(health.degraded.as_deref(), Some("session_degraded happened"));
}

#[test]
fn planning_takes_the_parsed_id() {
    let mut session = session(&[]);
    let plan = session
        .plan_execute(call(None, None), false, Ok("canonical".to_owned()))
        .expect("plan");
    let ExecutePlan::Dispatch(request) = plan else {
        panic!("expected a dispatch");
    };
    assert_eq!(request.id, "canonical");
    let error = session
        .plan_execute(call(None, None), false, Err("bad id".to_owned()))
        .expect_err("refused");
    assert_eq!(
        error.message,
        "callId must be the runner-generated UUID: bad id"
    );
}

#[test]
fn observation_actions_are_served_by_observing() {
    let mut session = session(&[]);
    let mut shot = call(None, None);
    shot.action_name = ActionName::new("screenshot").unwrap();
    let plan = session.begin_execute(shot, false).expect("plan");
    let ExecutePlan::Observe { call_id, wants } = plan else {
        panic!("expected an observation");
    };
    assert_eq!(session.begin_observe(false), Ok(15_000));
    let observation = session
        .finish_observe(&wants, Ok(seen()))
        .expect("observation");
    assert_eq!(
        observation.screenshot_omission,
        Some(ScreenshotOmissionReason::Policy)
    );
    assert_eq!(observation.ui_snapshot_omission, None);
    let outcome =
        DeviceRailSession::observed_outcome(call_id, &wants, observation.clone(), 10, 20);
    let ActionOutcome::Succeeded { result } = outcome else {
        panic!("expected succeeded");
    };
    assert_eq!(result.call_id, CALL_A);
    assert_eq!((result.started_at_ms, result.finished_at_ms), (10, 20));
    assert_eq!(
        result.output,
        json(r#"{"observationId": "obs", "screenshotOmission": "policy"}"#)
    );
    assert_eq!(result.after, Some(observation.clone()));
    let outcome =
        DeviceRailSession::execute_observation(CALL_A.to_owned(), &wants, observation, 10);
    assert_eq!(outcome.kind(), "succeeded");

    let both = vec![ObserveWant::Screenshot, ObserveWant::UiSnapshot];
    let observation = session.finish_observe(&both, Ok(seen())).expect("both");
    assert_eq!(
        observation.ui_snapshot_omission,
        Some(UiSnapshotOmissionReason::DriverUnsupported)
    );
    let error = session
        .finish_observe(&both, Err(rpc("device_unavailable", -32000, None)))
        .expect_err("failure");
    assert_eq!(error.error_class, ErrorClass::ActionFailedRetryable);
}

fn seen() -> WireObservation {
    WireObservation {
        id: "obs".to_owned(),
        device_id: "mock-1".to_owned(),
        captured_at_ms: 1,
        viewport: WireViewport {
            width: 1,
            height: 1,
            scale_factor: JsonNumber::Unsigned(1),
        },
        screenshot: None,
        screenshot_omission: None,
        ui_snapshot: None,
        ui_snapshot_omission: None,
        metadata: TextMap::new(),
    }
}

#[test]
fn ui_snapshots_are_gated_and_typed() {
    let closed = session(&[]);
    let error = closed.begin_ui_snapshot(CALL_A).expect_err("gate");
    assert_eq!(error.error_class, ErrorClass::CapabilityDrift);
    let open = session(&["observation.uiSnapshot.v1"]);
    assert_eq!(
        open.begin_ui_snapshot(&CALL_A.to_uppercase()),
        Ok(CALL_A.to_owned())
    );
    let error = open.begin_ui_snapshot("obs-1").expect_err("no id");
    assert!(error
        .message
        .starts_with("observationId must be the provider-issued UUID: "));
    assert_eq!(
        open.plan_ui_snapshot(Err("bad id".to_owned()))
            .unwrap_err()
            .message,
        "observationId must be the provider-issued UUID: bad id"
    );

    let reply = DeviceRailSession::finish_ui_snapshot(Ok(Ok(json("{}"))));
    assert_eq!(
        reply,
        Ok(UiSnapshotOutcome::Available {
            snapshot: json("{}")
        })
    );
    for (details, reason) in [
        (None, UiSnapshotOmissionReason::DriverUnsupported),
        (
            Some(r#"{"omissionReason": "policy"}"#),
            UiSnapshotOmissionReason::Policy,
        ),
        (
            Some(r#"{"omissionReason": {"protectedAction": null}}"#),
            UiSnapshotOmissionReason::ProtectedAction,
        ),
        (
            Some(r#"{"omissionReason": "sunspots"}"#),
            UiSnapshotOmissionReason::DriverUnsupported,
        ),
    ] {
        let error = rpc("ui_snapshot_unavailable", -32010, details.map(json));
        assert_eq!(
            DeviceRailSession::finish_ui_snapshot(Err(BoundedError::Client(error))),
            Ok(UiSnapshotOutcome::Unavailable { reason })
        );
    }
    let error = DeviceRailSession::finish_ui_snapshot(Err(BoundedError::Elapsed { budget_ms: 1 }))
        .expect_err("elapsed");
    assert_eq!(error.error_class, ErrorClass::ActionTimedOut);
    let error = DeviceRailSession::finish_ui_snapshot(Ok(Err("odd".to_owned())))
        .expect_err("unwritable");
    assert_eq!(
        error.message,
        "ui.snapshot.get result failed to re-serialize: odd"
    );
}

fn event(sequence: u64, payload: LogPayload) -> LogEvent {
    LogEvent { sequence, payload }
}

fn started(sequence: u64, call_id: &str) -> LogEvent {
    event(
        sequence,
        LogPayload::ActionStarted {
            call_id: call_id.to_owned(),
        },
    )
}

fn completed(sequence: u64, call_id: &str) -> LogEvent {
    event(
        sequence,
        LogPayload::ActionCompleted {
            call_id: call_id.to_owned(),
            outcome: WireActionOutcome::Failed {
                error: ErrorInfo {
                    code: "element_not_found".to_owned(),
                    message: "not found".to_owned(),
                    retryable: false,
                    details: None,
                },
            },
        },
    )
}

fn full_filler_page(base: u64) -> Vec<LogEvent> {
    (0..u64::from(SCAN_PAGE_LIMIT))
        .map(|offset| event(base + offset, LogPayload::Other))
        .collect()
}

/// Runs a search over scripted pages and records the cursors it asks for.
fn scan(call_id: &str, pages: Vec<Vec<LogEvent>>) -> (CallFate, Vec<Option<u64>>) {
    let mut search = CallScan::begin(call_id.to_owned(), None);
    let mut cursors = Vec::new();
    let mut pages = pages.into_iter();
    loop {
        cursors.push(search.after);
        match search.take_page(pages.next().unwrap_or_default()) {
            ScanStep::Done(fate) => return (fate, cursors),
            ScanStep::More(next) => search = next,
        }
    }
}

#[test]
fn scan_follows_pagination_and_advances_the_one_based_cursor() {
    let mut second_page = full_filler_page(1001);
    second_page.push(started(2001, CALL_A));
    let third_page = vec![completed(2002, CALL_A)];
    let (fate, cursors) = scan(CALL_A, vec![full_filler_page(1), second_page, third_page]);
    assert!(matches!(fate, CallFate::Completed(_)));
    assert_eq!(cursors, vec![None, Some(1000), Some(2001)]);
}

#[test]
fn completed_terminal_is_adopted_verbatim() {
    let (fate, _) = scan(
        CALL_A,
        vec![vec![started(1, CALL_A), completed(2, CALL_A)]],
    );
    let CallFate::Completed(outcome) = fate else {
        panic!("expected completed, got {fate:?}");
    };
    let WireActionOutcome::Failed { error } = outcome else {
        panic!("archived failed terminal must come back unfolded");
    };
    assert_eq!(error.code, "element_not_found");
}

#[test]
fn started_without_terminal_and_no_trace_are_distinguished() {
    let (fate, _) = scan(CALL_A, vec![vec![started(1, CALL_A)]]);
    assert_eq!(fate, CallFate::StartedNoTerminal);

    let (fate, _) = scan(
        CALL_A,
        vec![vec![started(1, CALL_B), completed(2, CALL_B)]],
    );
    assert_eq!(fate, CallFate::NoTrace);
}

#[test]
fn scan_errors_propagate() {
    let search = CallScan::begin(CALL_A.to_owned(), None);
    let failed = BoundedError::Client(ClientError {
        failure: ClientFailure::Closed,
        text: "client is closed".to_owned(),
    });
    assert_eq!(
        DeviceRailSession::page_read(search, Err(failed)),
        ReconcileStep::Answer(ReconcileResult::LogUnavailable {
            reason: "event log scan failed mid-range: client is closed".to_owned()
        })
    );
}

#[test]
fn latest_sequence_follows_to_the_end() {
    let mut cursors = vec![None];
    let mut pages = vec![full_filler_page(1), vec![event(1001, LogPayload::Other)]].into_iter();
    let mut after = None;
    let latest = loop {
        match latest_sequence(after, &pages.next().unwrap_or_default()) {
            CursorStep::Done(latest) => break latest,
            CursorStep::More(next) => {
                cursors.push(next);
                after = next;
            }
        }
    };
    assert_eq!(latest, Some(1001));
    assert_eq!(cursors, vec![None, Some(1000)]);
    assert_eq!(
        latest_sequence(Some(7), &Vec::new()),
        CursorStep::Done(Some(7))
    );
}

#[test]
fn the_highest_sequence_stays() {
    let page = vec![event(9, LogPayload::Other), event(8, LogPayload::Other)];
    assert_eq!(latest_sequence(None, &page), CursorStep::Done(Some(9)));
    assert_eq!(latest_sequence(Some(12), &page), CursorStep::Done(Some(12)));
}

fn cursor(session_id: &str, last_sequence: u64) -> EventCursor {
    EventCursor {
        session_id: session_id.to_owned(),
        last_sequence,
    }
}

#[test]
fn reconciliation_never_guesses() {
    let mut session = session(&[]);
    let own = cursor(SESSION, 5);
    let ReconcileStep::Answer(ReconcileResult::LogUnavailable { reason }) =
        session.begin_reconcile(&cursor("other", 5))
    else {
        panic!("a foreign cursor cannot be read");
    };
    assert!(reason.starts_with("the issuing session other is not this session"));
    assert_eq!(session.begin_reconcile(&own), ReconcileStep::ListSessions);

    let unreadable = session.sessions_listed(
        CALL_A,
        &own,
        Err(BoundedError::Elapsed { budget_ms: 15_000 }),
    );
    assert!(matches!(
        unreadable,
        ReconcileStep::Answer(ReconcileResult::LogUnavailable { .. })
    ));
    let absent = session.sessions_listed(CALL_A, &own, Ok(vec!["other".to_owned()]));
    assert!(matches!(
        absent,
        ReconcileStep::Answer(ReconcileResult::LogUnavailable { .. })
    ));
    assert_eq!(
        session.sessions_listed("call-1", &own, Ok(vec![SESSION.to_owned()])),
        ReconcileStep::Answer(ReconcileResult::NeverDispatched)
    );
    assert_eq!(
        session.locate(Err("bad".to_owned()), 5, Ok(vec![SESSION.to_owned()])),
        ReconcileStep::Answer(ReconcileResult::NeverDispatched)
    );
    let step = session.sessions_listed(
        &CALL_A.to_uppercase(),
        &own,
        Ok(vec![SESSION.to_owned()]),
    );
    let ReconcileStep::ReadPage(search) = step else {
        panic!("expected a search, got {step:?}");
    };
    assert_eq!(search.after, Some(5));
    let answer = DeviceRailSession::page_read(
        search,
        Ok(vec![started(6, CALL_A), completed(7, CALL_A)]),
    );
    let ReconcileStep::Answer(ReconcileResult::Completed { outcome }) = answer else {
        panic!("expected the terminal, got {answer:?}");
    };
    assert_eq!(outcome.kind(), "failed");

    session.begin_end(SessionOutcome::Completed, None);
    assert!(matches!(
        session.begin_reconcile(&own),
        ReconcileStep::Answer(ReconcileResult::LogUnavailable { .. })
    ));
}

#[test]
fn cursors_follow_the_log_and_are_remembered() {
    let mut session = session(&[]);
    assert_eq!(session.begin_cursor(), Ok(None));
    assert_eq!(
        session.cursor_page(None, Ok(full_filler_page(1))),
        Ok(CursorProgress::More(Some(1000)))
    );
    assert_eq!(
        session.cursor_page(Some(1000), Ok(vec![])),
        Ok(CursorProgress::Done(cursor(SESSION, 1000)))
    );
    assert_eq!(session.begin_cursor(), Ok(Some(1000)));
    let error = session
        .cursor_page(Some(1000), Err(BoundedError::Elapsed { budget_ms: 2 }))
        .expect_err("unreadable");
    assert_eq!(error.error_class, ErrorClass::ActionTimedOut);
    assert_eq!(session.begin_cursor(), Ok(Some(1000)));
}

#[test]
fn an_empty_log_gives_the_cursor_zero() {
    let mut session = session(&[]);
    assert_eq!(
        session.cursor_page(None, Ok(vec![])),
        Ok(CursorProgress::Done(cursor(SESSION, 0)))
    );
    assert_eq!(session.begin_cursor(), Ok(None));
}

#[test]
fn health_never_fails_and_ending_is_idempotent() {
    let mut session = session(&["verdict.record.v1"]);
    assert_eq!(session.begin_health(), None);
    let strayed = session.finish_health(Ok("other".to_owned()));
    assert!(!strayed.ok);
    assert_eq!(
        strayed.degraded,
        Some(format!(
            "daemon's active session other is not the bound session {SESSION}"
        ))
    );
    let lost = session.finish_health(Err(BoundedError::Elapsed { budget_ms: 3 }));
    assert!(!lost.ok);

    let end = session
        .begin_end(SessionOutcome::Completed, Some("done".to_owned()))
        .expect("first end");
    assert_eq!(end.reason.as_deref(), Some("done"));
    assert_eq!(session.begin_end(SessionOutcome::Failed, None), None);
    assert_eq!(session.begin_health().map(|health| health.ok), Some(false));
    for error in [
        session.begin_execute(call(None, None), false).unwrap_err(),
        session.begin_observe(false).unwrap_err(),
        session.begin_ui_snapshot(CALL_A).unwrap_err(),
        session.begin_cursor().unwrap_err(),
        session.begin_record_verdict(&verdict("ok", 0)).unwrap_err(),
        session.fetch_evidence(&asset()).unwrap_err(),
    ] {
        assert_eq!(error.error_class, ErrorClass::TransportLost);
        assert_eq!(error.client_code.as_deref(), Some("transport_closed"));
    }
}

fn asset() -> AssetRef {
    AssetRef {
        id: "a".to_owned(),
        media_type: "image/png".to_owned(),
        uri: "devicerail://assets/sha256/a".to_owned(),
        sha256: None,
    }
}

fn verdict(summary: &str, evidence: usize) -> VerdictWrite {
    VerdictWrite {
        status: VerdictStatus::Pass,
        summary: summary.to_owned(),
        evidence: (0..evidence).map(|_| asset()).collect(),
    }
}

#[test]
fn verdicts_are_capped_and_gated() {
    let open = session(&["verdict.record.v1"]);
    assert_eq!(open.begin_record_verdict(&verdict("ok", 64)), Ok(()));
    let error = open
        .begin_record_verdict(&verdict(&"x".repeat(16385), 0))
        .unwrap_err();
    assert_eq!(
        error.message,
        "verdict summary is 16385 chars; the wire cap is 16384 (fail-closed, 04 §5)"
    );
    let error = open.begin_record_verdict(&verdict("ok", 65)).unwrap_err();
    assert_eq!(
        error.message,
        "verdict cites 65 evidence entries; the wire cap is 64 (fail-closed, 04 §5)"
    );
    let gated = session(&[]).begin_record_verdict(&verdict("ok", 0));
    assert_eq!(gated.unwrap_err().error_class, ErrorClass::CapabilityDrift);
    assert_eq!(DeviceRailSession::finish_record_verdict(Ok(())), Ok(()));
    assert!(DeviceRailSession::finish_record_verdict(Err(BoundedError::Elapsed {
        budget_ms: 1
    }))
    .is_err());
    let error = open.fetch_evidence(&asset()).unwrap_err();
    assert_eq!(error.error_class, ErrorClass::ActionFailedFinal);
    assert!(error.message.contains("devicerail://assets/sha256/a"));
}

#[test]
fn openings_run_in_order_and_attest_the_live_world() {
    let hello = || live_hello(&["events.snapshot.v1"]);
    let held = lock(&hello(), vec![tap_action()]);
    let digest = held.digest.clone();
    let goal = || OpenGoal::Session {
        held: &held,
        expected: &digest,
    };
    let mut opening = Opening::begin(goal(), "mock-1".to_owned(), hello());
    assert_eq!(opening.next_call(), OpenCall::ListDevices);
    // A reply that does not belong here changes nothing.
    opening = opening.take(OpenEvent::Selected(Ok(())));
    assert_eq!(opening.next_call(), OpenCall::ListDevices);
    opening = opening.take(OpenEvent::Devices(Ok(vec![mock_device()])));
    assert_eq!(opening.next_call(), OpenCall::SelectDevice);
    opening = opening.take(OpenEvent::Selected(Ok(())));
    assert_eq!(opening.next_call(), OpenCall::ConnectDevice(15_000));
    opening = opening.take(OpenEvent::Connected(Ok(mock_device())));
    assert_eq!(opening.next_call(), OpenCall::ReadCapabilities(15_000));
    opening = opening.take(OpenEvent::Capabilities(Ok(vec![tap_action()])));
    assert_eq!(opening.next_call(), OpenCall::StartSession);
    opening = opening.take(OpenEvent::Started(Ok(SESSION.to_owned())));
    assert_eq!(opening.next_call(), OpenCall::Keep);
    let OpenStage::Opened(session) = opening.stage else {
        panic!("expected an open session");
    };
    assert_eq!(session.session_id, SESSION);
    assert_eq!(session.attestation().lockfile_digest, digest);

    // Drift of the live world ends the opening.
    let mut opening = Opening::begin(goal(), "mock-1".to_owned(), hello());
    opening = opening.take(OpenEvent::Devices(Ok(vec![mock_device()])));
    opening = opening.take(OpenEvent::Selected(Ok(())));
    opening = opening.take(OpenEvent::Connected(Ok(mock_device())));
    opening = opening.take(OpenEvent::Capabilities(Ok(vec![])));
    assert_eq!(opening.next_call(), OpenCall::Close);
    let OpenStage::Failed(error) = opening.stage else {
        panic!("expected a failure");
    };
    assert_eq!(error.error_class, ErrorClass::CapabilityDrift);
    assert!(error.message.contains("actions vanished: [\"tap\"]"));

    // An unknown device ends it too.
    let opening = Opening::begin(goal(), "mock-2".to_owned(), hello())
        .take(OpenEvent::Devices(Ok(vec![mock_device()])));
    let OpenStage::Failed(error) = opening.stage else {
        panic!("expected a failure");
    };
    assert_eq!(error.error_class, ErrorClass::ActionFailedRetryable);
    assert_eq!(
        error.message,
        "device `mock-2` is not present in devices.list (known: [\"mock-1\"])"
    );
}

#[test]
fn a_lock_run_ends_with_a_lockfile() {
    let goal = OpenGoal::Lock {
        attested_at: "2026-01-01T00:00:00Z".to_owned(),
    };
    let mut opening = Opening::begin(goal, "mock-1".to_owned(), live_hello(&[]));
    opening = opening.take(OpenEvent::Devices(Ok(vec![mock_device()])));
    opening = opening.take(OpenEvent::Selected(Ok(())));
    opening = opening.take(OpenEvent::Connected(Ok(mock_device())));
    opening = opening.take(OpenEvent::Capabilities(Ok(vec![tap_action()])));
    assert_eq!(opening.next_call(), OpenCall::Close);
    let OpenStage::Locked(made) = opening.stage else {
        panic!("expected a lockfile");
    };
    assert_eq!(made, lock(&live_hello(&[]), vec![tap_action()]));
}
