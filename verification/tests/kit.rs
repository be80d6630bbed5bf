use pointlock::ir::primitives::{ActionName, FeatureId, JsonSchemaDocument};
use pointlock::ir::runtime::ErrorInfo;
use pointlock::ir::vocab::{CanonicalVerb, Channel, ErrorClass};
use pointlock::json::{parse_json, Json};
use pointlock::keyed::TextMap;
use pointlock::kit::error::{ProviderError, RetryableSource};
use pointlock::kit::lockfile::{
    lockfile_digest, CapabilityAttestation, CapabilityLockfile, LockfileDevice, LockfileHello,
    LockfileProvider, PeerInfo, ProtocolVersion,
};
use pointlock::kit::manifest::{
    ActionDefinitionStatic, ActionProtection, ChannelRole, ChannelSupport, ConditionalFeature,
    FeatureDeclarations, PlatformKind, ProtocolRange, ProviderManifest, VerbBinding,
};
use pointlock::kit::spi::{
    epoch_millis, now_ms, synthetic_observation_wants, BoundActionCall, ObserveWant,
    SessionOutcome,
};
use pointlock::wire::Wire;

fn json(text: &str) -> Json {
    parse_json(text).expect("a JSON text")
}

/// The value at a path of member names and array positions.
fn get<'a>(value: &'a Json, path: &[&str]) -> Option<&'a Json> {
    let mut at = value;
    for part in path {
        at = match at {
            Json::Object(_) => at.member(part)?,
            Json::Array(items) => items.get(part.parse::<usize>().ok()?)?,
            _ => return None,
        };
    }
    Some(at)
}

fn placeholder_hash() -> pointlock::ir::primitives::Hash {
    pointlock::ir::primitives::Hash::new(&format!("sha256:{}", "0".repeat(64))).unwrap()
}

#[test]
fn provider_error_wire_shape() {
    let error = ProviderError::new(
        ErrorClass::TransportLost,
        "daemon exited".to_owned(),
        RetryableSource::Classifier,
    )
    .with_wire(ErrorInfo {
        code: "session_degraded".to_owned(),
        message: "adb bridge lost".to_owned(),
        retryable: true,
        details: None,
    })
    .with_client_code("transport_closed".to_owned());

    let wire = error.to_json();
    assert_eq!(get(&wire, &["errorClass"]), Some(&Json::text("transport_lost")));
    assert_eq!(get(&wire, &["retryableSource"]), Some(&Json::text("classifier")));
    assert_eq!(get(&wire, &["clientCode"]), Some(&Json::text("transport_closed")));
    assert_eq!(get(&wire, &["wire", "code"]), Some(&Json::text("session_degraded")));
    assert_eq!(
        wire,
        json(
            r#"{
                "errorClass": "transport_lost",
                "message": "daemon exited",
                "wire": {
                    "code": "session_degraded",
                    "message": "adb bridge lost",
                    "retryable": true
                },
                "clientCode": "transport_closed",
                "retryableSource": "classifier"
            }"#
        )
    );
}

#[test]
fn provider_error_optional_fields_absent_when_none() {
    let error = ProviderError::new(
        ErrorClass::CapabilityDrift,
        "digest mismatch".to_owned(),
        RetryableSource::Classifier,
    );
    assert_eq!(
        error.to_json(),
        json(
            r#"{
                "errorClass": "capability_drift",
                "message": "digest mismatch",
                "retryableSource": "classifier"
            }"#
        )
    );
}

#[test]
fn provider_error_display_uses_wire_class_spelling() {
    let error = ProviderError::new(
        ErrorClass::ActionTimedOut,
        "budget elapsed".to_owned(),
        RetryableSource::Daemon,
    );
    assert_eq!(
        error.describe(),
        "provider error [action_timed_out]: budget elapsed"
    );
}

fn sample_lockfile() -> CapabilityLockfile {
    let mut lockfile = CapabilityLockfile {
        provider: LockfileProvider {
            name: "devicerail".to_owned(),
            version: "0.1.0".to_owned(),
        },
        attested_at: "2026-01-01T00:00:00Z".to_owned(),
        hello: LockfileHello {
            protocol_selected: ProtocolVersion { major: 1, minor: 5 },
            features_enabled: vec![
                FeatureId::new("device.semanticActions.v1").unwrap(),
                FeatureId::new("verdict.record.v1").unwrap(),
            ],
            server: PeerInfo {
                name: "devicerail-daemon".to_owned(),
                version: "1.5.0".to_owned(),
            },
        },
        device: LockfileDevice {
            platform: PlatformKind::Android,
            actions: vec![ActionDefinitionStatic {
                name: ActionName::new("tapElement").unwrap(),
                input_schema: JsonSchemaDocument::new(json(r#"{ "type": "object" }"#)).unwrap(),
                output_schema: None,
                protection: ActionProtection::Standard,
                synthetic: false,
            }],
        },
        digest: placeholder_hash(),
    };
    lockfile.seal();
    lockfile
}

#[test]
fn lockfile_digest_is_deterministic_and_excludes_digest_field() {
    let lockfile = sample_lockfile();
    assert!(lockfile.digest_consistent());
    assert_eq!(lockfile_digest(&lockfile), lockfile.digest);

    let mut tampered = lockfile.clone();
    tampered.hello.features_enabled.pop();
    assert!(!tampered.digest_consistent());

    let mut redigested = lockfile.clone();
    redigested.digest = placeholder_hash();
    assert_eq!(lockfile_digest(&redigested), lockfile.digest);

    let mut relocked = lockfile.clone();
    relocked.attested_at = "2027-01-01T00:00:00Z".to_owned();
    assert_eq!(lockfile_digest(&relocked), lockfile.digest);
}

#[test]
fn lockfile_wire_shape_round_trips() {
    let lockfile = sample_lockfile();
    let wire = lockfile.to_json();
    assert_eq!(
        get(&wire, &["hello", "protocolSelected", "minor"]),
        Some(&Json::uint(5))
    );
    assert_eq!(
        get(&wire, &["hello", "featuresEnabled", "0"]),
        Some(&Json::text("device.semanticActions.v1"))
    );
    assert_eq!(get(&wire, &["device", "platform"]), Some(&Json::text("android")));
    assert_eq!(
        get(&wire, &["attestedAt"]),
        Some(&Json::text("2026-01-01T00:00:00Z"))
    );
    let expected = r#"{
        "provider": { "name": "devicerail", "version": "0.1.0" },
        "attestedAt": "2026-01-01T00:00:00Z",
        "hello": {
            "protocolSelected": { "major": 1, "minor": 5 },
            "featuresEnabled": ["device.semanticActions.v1", "verdict.record.v1"],
            "server": { "name": "devicerail-daemon", "version": "1.5.0" }
        },
        "device": {
            "platform": "android",
            "actions": [
                {
                    "name": "tapElement",
                    "inputSchema": { "type": "object" },
                    "protection": "standard"
                }
            ]
        },
        "digest": "DIGEST"
    }"#;
    assert_eq!(
        wire,
        json(&expected.replace("DIGEST", lockfile.digest.as_str()))
    );
}

#[test]
fn attestation_projects_lockfile_and_round_trips() {
    let lockfile = sample_lockfile();
    let attestation =
        CapabilityAttestation::from_lockfile(&lockfile, "2026-01-02T00:00:00Z".to_owned());
    assert_eq!(attestation.provider_id, "devicerail");
    assert_eq!(attestation.lockfile_digest, lockfile.digest);
    assert!(attestation.actions.get("tapElement").is_some());
    let wire = attestation.to_json();
    assert_eq!(get(&wire, &["providerId"]), Some(&Json::text("devicerail")));
    assert_eq!(
        get(&wire, &["actions", "tapElement", "protection"]),
        Some(&Json::text("standard"))
    );
    let expected = r#"{
        "providerId": "devicerail",
        "protocolSelected": { "major": 1, "minor": 5 },
        "featuresEnabled": ["device.semanticActions.v1", "verdict.record.v1"],
        "actions": {
            "tapElement": {
                "name": "tapElement",
                "inputSchema": { "type": "object" },
                "protection": "standard"
            }
        },
        "lockfileDigest": "DIGEST",
        "attestedAt": "2026-01-02T00:00:00Z"
    }"#;
    assert_eq!(
        wire,
        json(&expected.replace("DIGEST", lockfile.digest.as_str()))
    );
}

fn sample_manifest() -> ProviderManifest {
    ProviderManifest {
        name: "devicerail".to_owned(),
        version: "0.1.0".to_owned(),
        protocol: ProtocolRange {
            major: 1,
            min_minor: 5,
            max_minor: 5,
        },
        features: FeatureDeclarations {
            guaranteed: vec![FeatureId::new("device.semanticActions.v1").unwrap()],
            conditional: vec![ConditionalFeature {
                feature: FeatureId::new("observation.uiSnapshot.v1").unwrap(),
                requires_platform: Some(vec![PlatformKind::Android, PlatformKind::HarmonyOs]),
            }],
        },
        verb_bindings: vec![VerbBinding {
            verb: CanonicalVerb::Tap,
            action_name: ActionName::new("tapElement").unwrap(),
            requires_feature: Some(FeatureId::new("device.semanticActions.v1").unwrap()),
            arg_map: TextMap::new().with("element", "element".to_owned()),
        }],
        channels: vec![ChannelSupport {
            channel: Channel::UiTree,
            role: ChannelRole::Both,
            requires_feature: Some(FeatureId::new("observation.uiSnapshot.v1").unwrap()),
            requires_platform: None,
        }],
        known_actions: vec![ActionDefinitionStatic {
            name: ActionName::new("tapElement").unwrap(),
            input_schema: JsonSchemaDocument::new(Json::Bool(true)).unwrap(),
            output_schema: None,
            protection: ActionProtection::Standard,
            synthetic: false,
        }],
    }
}

#[test]
fn manifest_wire_shape_is_camel_case() {
    let wire = sample_manifest().to_json();
    assert_eq!(get(&wire, &["protocol", "minMinor"]), Some(&Json::uint(5)));
    assert_eq!(
        get(&wire, &["verbBindings", "0", "verb"]),
        Some(&Json::text("tap"))
    );
    assert_eq!(
        get(&wire, &["verbBindings", "0", "actionName"]),
        Some(&Json::text("tapElement"))
    );
    assert_eq!(
        get(&wire, &["verbBindings", "0", "argMap", "element"]),
        Some(&Json::text("element"))
    );
    assert_eq!(
        get(&wire, &["features", "conditional", "0", "requiresPlatform"]),
        Some(&json(r#"["android", "harmonyOs"]"#))
    );
    assert_eq!(get(&wire, &["channels", "0", "role"]), Some(&Json::text("both")));
    assert_eq!(
        get(&wire, &["knownActions", "0", "protection"]),
        Some(&Json::text("standard"))
    );
    assert_eq!(
        wire,
        json(
            r#"{
                "name": "devicerail",
                "version": "0.1.0",
                "protocol": { "major": 1, "minMinor": 5, "maxMinor": 5 },
                "features": {
                    "guaranteed": ["device.semanticActions.v1"],
                    "conditional": [
                        {
                            "feature": "observation.uiSnapshot.v1",
                            "requiresPlatform": ["android", "harmonyOs"]
                        }
                    ]
                },
                "verbBindings": [
                    {
                        "verb": "tap",
                        "actionName": "tapElement",
                        "requiresFeature": "device.semanticActions.v1",
                        "argMap": { "element": "element" }
                    }
                ],
                "channels": [
                    {
                        "channel": "uiTree",
                        "role": "both",
                        "requiresFeature": "observation.uiSnapshot.v1"
                    }
                ],
                "knownActions": [
                    { "name": "tapElement", "inputSchema": true, "protection": "standard" }
                ]
            }"#
        )
    );
}

#[test]
fn platform_kind_wire_literals() {
    for (kind, literal) in [
        (PlatformKind::Android, "android"),
        (PlatformKind::Ios, "ios"),
        (PlatformKind::Web, "web"),
        (PlatformKind::HarmonyOs, "harmonyOs"),
        (PlatformKind::MacOs, "macOs"),
        (PlatformKind::Windows, "windows"),
        (PlatformKind::Linux, "linux"),
        (PlatformKind::Rdp, "rdp"),
    ] {
        assert_eq!(kind.to_json(), Json::text(literal));
    }
}

#[test]
fn bound_action_call_wire_shape() {
    let call = BoundActionCall {
        call_id: "4a1f2c9e-0000-4000-8000-000000000001".to_owned(),
        action_name: ActionName::new("tapElement").unwrap(),
        arguments: json(r#"{ "element": { "byText": "OK" } }"#),
        action_timeout_ms: Some(5000),
        request_timeout_ms: None,
    };
    let wire = call.to_json();
    assert_eq!(
        get(&wire, &["callId"]),
        Some(&Json::text("4a1f2c9e-0000-4000-8000-000000000001"))
    );
    assert_eq!(get(&wire, &["actionName"]), Some(&Json::text("tapElement")));
    assert_eq!(get(&wire, &["actionTimeoutMs"]), Some(&Json::uint(5000)));
    assert!(get(&wire, &["requestTimeoutMs"]).is_none());
    assert_eq!(
        wire,
        json(
            r#"{
                "callId": "4a1f2c9e-0000-4000-8000-000000000001",
                "actionName": "tapElement",
                "arguments": { "element": { "byText": "OK" } },
                "actionTimeoutMs": 5000
            }"#
        )
    );
}

#[test]
fn observe_want_wire_literals() {
    assert_eq!(ObserveWant::UiSnapshot.to_json(), Json::text("uiSnapshot"));
    assert_eq!(ObserveWant::Screenshot.to_json(), Json::text("screenshot"));
}

#[test]
fn session_outcome_wire_literals() {
    for (outcome, literal) in [
        (SessionOutcome::Completed, "completed"),
        (SessionOutcome::Failed, "failed"),
        (SessionOutcome::Cancelled, "cancelled"),
        (SessionOutcome::Shutdown, "shutdown"),
    ] {
        assert_eq!(outcome.to_json(), Json::text(literal));
    }
}

fn observation_call(action: &str, arguments: &str) -> BoundActionCall {
    BoundActionCall {
        call_id: "c".to_owned(),
        action_name: ActionName::new(action).unwrap(),
        arguments: json(arguments),
        action_timeout_ms: None,
        request_timeout_ms: None,
    }
}

#[test]
fn observation_actions_declare_their_parts() {
    assert_eq!(
        synthetic_observation_wants(&observation_call("screenshot", "{}")),
        Ok(Some(vec![ObserveWant::Screenshot]))
    );
    assert_eq!(
        synthetic_observation_wants(&observation_call(
            "observe",
            r#"{"wants": ["uiSnapshot", "screenshot"]}"#
        )),
        Ok(Some(vec![ObserveWant::UiSnapshot, ObserveWant::Screenshot]))
    );
    assert_eq!(
        synthetic_observation_wants(&observation_call("tapElement", "{}")),
        Ok(None)
    );
    for (arguments, message) in [
        ("{}", "`observe` requires a `wants` array"),
        (r#"{"wants": []}"#, "`observe` needs at least one part"),
        (
            r#"{"wants": ["sound"]}"#,
            "`observe` wants an entry outside the closed vocabulary: Some(\"sound\")",
        ),
        (
            r#"{"wants": [3]}"#,
            "`observe` wants an entry outside the closed vocabulary: None",
        ),
    ] {
        let error =
            synthetic_observation_wants(&observation_call("observe", arguments)).unwrap_err();
        assert_eq!(error.error_class, ErrorClass::BindArgumentsInvalid);
        assert_eq!(error.message, message);
    }
}

#[test]
fn times_since_the_epoch_are_bounded() {
    assert_eq!(epoch_millis(None), 0);
    assert_eq!(epoch_millis(Some(42)), 42);
    assert_eq!(epoch_millis(Some(u128::MAX)), u64::MAX);
    assert!(now_ms() > 1_600_000_000_000);
}
