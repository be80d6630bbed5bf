use pointlock::devicerail::budget::{clamp_timeout, opt_clamp};
use pointlock::devicerail::calendar::{civil_from_days, epoch_seconds_to_iso, now_utc_iso};
use pointlock::devicerail::convert::{
    action_definition_from_wire, action_outcome_from_wire, action_result_from_wire,
    observation_from_wire, platform_kind_from_wire,
};
use pointlock::devicerail::endpoint::{parse_spawn_endpoint, EndpointFields, SpawnFields};
use pointlock::devicerail::scan::{floor_after, SCAN_PAGE_LIMIT};
use pointlock::devicerail::wire::{
    ActionDefinition, Platform, WireActionOutcome, WireActionResult, WireObservation,
    WireUiSnapshotRef, WireViewport,
};
use pointlock::ir::runtime::{ActionExecution, ActionOutcome, AssetRef, ErrorInfo, UiContextRef};
use pointlock::ir::vocab::{
    CoordinateFallbackReason, ErrorClass, UiContextKind, UiSnapshotOmissionReason,
};
use pointlock::json::{parse_json, Json, JsonNumber};
use pointlock::keyed::TextMap;
use pointlock::kit::manifest::{ActionProtection, PlatformKind};
use pointlock::wire::Wire;

fn json(text: &str) -> Json {
    parse_json(text).expect("a JSON text")
}

fn wire_observation() -> WireObservation {
    WireObservation {
        id: "00000000-0000-0000-0000-000000000000".to_owned(),
        device_id: "mock-1".to_owned(),
        captured_at_ms: 42,
        viewport: WireViewport {
            width: 1280,
            height: 720,
            scale_factor: JsonNumber::Decimal("2.0".to_owned()),
        },
        screenshot: Some(AssetRef {
            id: "asset-1".to_owned(),
            media_type: "image/png".to_owned(),
            uri: "devicerail://assets/sha256/abc".to_owned(),
            sha256: Some("abc".to_owned()),
        }),
        screenshot_omission: None,
        ui_snapshot: None,
        ui_snapshot_omission: Some(UiSnapshotOmissionReason::DriverUnsupported),
        metadata: TextMap::new().with("frameSequence", Json::uint(7)),
    }
}

#[test]
fn observation_transcribes_field_by_field() {
    let converted = observation_from_wire(wire_observation());
    assert_eq!(converted.id, "00000000-0000-0000-0000-000000000000");
    assert_eq!(converted.device_id, "mock-1");
    assert_eq!(converted.captured_at_ms, 42);
    assert_eq!(converted.viewport.width, 1280);
    assert_eq!(
        converted.viewport.scale_factor,
        JsonNumber::Decimal("2.0".to_owned())
    );
    let screenshot = converted.screenshot.expect("screenshot mapped");
    assert_eq!(screenshot.uri, "devicerail://assets/sha256/abc");
    assert_eq!(screenshot.sha256.as_deref(), Some("abc"));
    assert_eq!(
        converted.ui_snapshot_omission,
        Some(UiSnapshotOmissionReason::DriverUnsupported)
    );
    assert_eq!(converted.metadata.get("frameSequence"), Some(&Json::uint(7)));
}

#[test]
fn ui_snapshots_keep_only_their_evidence() {
    let mut seen = wire_observation();
    seen.ui_snapshot = Some(WireUiSnapshotRef {
        format_version: 1,
        context: UiContextRef {
            context_kind: UiContextKind::Native,
            context_id: "ctx-1".to_owned(),
            document_epoch: "epoch-1".to_owned(),
        },
        node_count: 3,
        byte_length: 99,
        evidence: AssetRef {
            id: "tree".to_owned(),
            media_type: "application/json".to_owned(),
            uri: "devicerail://assets/sha256/tree".to_owned(),
            sha256: None,
        },
    });
    let kept = observation_from_wire(seen).ui_snapshot.expect("snapshot");
    assert_eq!(kept.evidence.id, "tree");
}

#[test]
fn action_result_round_trips_through_the_ir_wire_shape() {
    let result = WireActionResult {
        call_id: "4a1f2c9e-0000-4000-8000-000000000001".to_owned(),
        started_at_ms: 1,
        finished_at_ms: 2,
        output: json(r#"{ "accepted": true }"#),
        before: None,
        after: Some(wire_observation()),
        evidence: vec![AssetRef {
            id: "asset-2".to_owned(),
            media_type: "image/png".to_owned(),
            uri: "devicerail://assets/sha256/def".to_owned(),
            sha256: None,
        }],
        execution: Some(ActionExecution::CoordinateFallback {
            context: UiContextRef {
                context_kind: UiContextKind::Native,
                context_id: "ctx-1".to_owned(),
                document_epoch: "epoch-1".to_owned(),
            },
            fallback_reason: CoordinateFallbackReason::PlatformLimitation,
        }),
    };
    let converted = action_result_from_wire(result);
    assert_eq!(converted.call_id, "4a1f2c9e-0000-4000-8000-000000000001");
    assert_eq!(converted.output, json(r#"{ "accepted": true }"#));
    assert_eq!(converted.evidence.len(), 1);
    assert!(converted.after.is_some());
    assert_eq!(
        converted.execution.expect("execution").to_json(),
        json(
            r#"{
                "mode": "coordinateFallback",
                "fallbackReason": "platformLimitation",
                "context": {
                    "contextKind": "native",
                    "contextId": "ctx-1",
                    "documentEpoch": "epoch-1"
                }
            }"#
        )
    );
}

#[test]
fn four_way_outcomes_transcribe_verbatim() {
    let error = ErrorInfo {
        code: "action_timeout".to_owned(),
        message: "budget elapsed".to_owned(),
        retryable: true,
        details: Some(json(r#"{ "scope": "action" }"#)),
    };
    let timed_out = WireActionOutcome::TimedOut {
        error: error.clone(),
        timeout_ms: 10,
    };
    let converted = action_outcome_from_wire(timed_out);
    assert_eq!(converted.kind(), "timedOut");
    let ActionOutcome::TimedOut { error: kept } = converted else {
        unreachable!();
    };
    assert_eq!(kept.code, "action_timeout");
    assert_eq!(kept.details, Some(json(r#"{ "scope": "action" }"#)));

    let cancelled = WireActionOutcome::Cancelled { error };
    assert_eq!(action_outcome_from_wire(cancelled).kind(), "cancelled");
}

#[test]
fn platform_mapping_covers_the_closed_kinds_and_flags_other() {
    assert_eq!(
        platform_kind_from_wire(&Platform::Android),
        Ok(PlatformKind::Android)
    );
    assert_eq!(
        platform_kind_from_wire(&Platform::HarmonyOs),
        Ok(PlatformKind::HarmonyOs)
    );
    assert_eq!(
        platform_kind_from_wire(&Platform::Mock),
        Ok(PlatformKind::Linux)
    );
    let error = platform_kind_from_wire(&Platform::Other("fridge".to_owned()))
        .expect_err("open platform");
    assert_eq!(error.error_class, ErrorClass::CapabilityDrift);
    assert!(error.message.contains("`fridge`"));
}

#[test]
fn action_definition_transcription_drops_description_only() {
    let action = ActionDefinition {
        name: "tap".to_owned(),
        description: "Tap a point".to_owned(),
        input_schema: json(r#"{ "type": "object" }"#),
        protection: ActionProtection::Standard,
    };
    let converted = action_definition_from_wire(&action).expect("transcribes");
    assert_eq!(converted.name.as_str(), "tap");
    assert_eq!(
        converted.input_schema.as_value(),
        &json(r#"{ "type": "object" }"#)
    );
    assert_eq!(converted.protection, ActionProtection::Standard);
    assert!(!converted.synthetic);
}

#[test]
fn unusable_action_definitions_are_drift() {
    let action = |name: &str, schema: Json| ActionDefinition {
        name: name.to_owned(),
        description: String::new(),
        input_schema: schema,
        protection: ActionProtection::Standard,
    };
    let error = action_definition_from_wire(&action("9tap", json("{}"))).expect_err("name");
    assert_eq!(error.error_class, ErrorClass::CapabilityDrift);
    assert!(error
        .message
        .starts_with("device action name is outside the ActionName grammar: invalid ActionName"));
    let error = action_definition_from_wire(&action("tap", json("7"))).expect_err("schema");
    assert_eq!(
        error.message,
        "device action `tap` carries a non-document inputSchema: invalid JsonSchemaDocument: a \
         JSON Schema document must be an object or a boolean (value: \"7\")"
    );
}

#[test]
fn iso_timestamp_formatting_matches_known_vectors() {
    assert_eq!(epoch_seconds_to_iso(0), "1970-01-01T00:00:00Z");
    assert_eq!(epoch_seconds_to_iso(951_782_400), "2000-02-29T00:00:00Z");
    assert_eq!(epoch_seconds_to_iso(1_767_225_599), "2025-12-31T23:59:59Z");
}

#[test]
fn civil_dates_match_known_days() {
    assert_eq!(civil_from_days(0), (1970, 1, 1));
    assert_eq!(civil_from_days(-1), (1969, 12, 31));
    assert_eq!(civil_from_days(11_016), (2000, 2, 29));
    assert_eq!(civil_from_days(-719_468), (0, 3, 1));
    assert_eq!(civil_from_days(-719_469), (0, 2, 29));
    assert_eq!(civil_from_days(-1_000_000), (-768, 2, 4));
    // Every day follows the day before it, over two eras.
    let mut last = civil_from_days(-146_100);
    for day in -146_099..146_100 {
        let next = civil_from_days(day);
        let same_month = (next.0, next.1) == (last.0, last.1) && next.2 == last.2 + 1;
        let next_month = next.2 == 1
            && ((next.0 == last.0 && next.1 == last.1 + 1)
                || (next.0 == last.0 + 1 && next.1 == 1 && last.1 == 12));
        assert!(same_month || next_month, "{last:?} -> {next:?}");
        last = next;
    }
    assert!(now_utc_iso().starts_with("20"));
    assert_eq!(now_utc_iso().len(), 20);
}

#[test]
fn clamp_respects_the_wire_domain() {
    assert_eq!(clamp_timeout(0), 1);
    assert_eq!(clamp_timeout(15_000), 15_000);
    assert_eq!(
        clamp_timeout(u64::MAX),
        devicerail_client::protocol::RequestTimeoutMs::MAX
    );
    assert_eq!(opt_clamp(Some(0)), Some(1));
    assert_eq!(opt_clamp(None), None);
    assert_eq!(SCAN_PAGE_LIMIT, devicerail_client::protocol::MAX_EVENTS_LIST_PAGE_SIZE);
    assert_eq!(floor_after(0), None);
    assert_eq!(floor_after(1), Some(1));
    assert_eq!(floor_after(u64::MAX), None);
}

fn fields() -> SpawnFields {
    SpawnFields {
        command: None,
        args: None,
        env: None,
        cwd: None,
        shutdown_grace_ms: None,
    }
}

#[test]
fn spawn_endpoint_defaults_apply() {
    let spec = parse_spawn_endpoint(Ok(EndpointFields {
        spawn: Some(fields()),
        attach: None,
    }))
    .expect("parse");
    assert_eq!(spec.command, "devicerail-daemon");
    assert!(spec.args.is_empty());
    assert_eq!(spec.shutdown_grace_ms, 5_000);
}

#[test]
fn spawn_endpoint_round_trips_explicit_fields() {
    let spec = parse_spawn_endpoint(Ok(EndpointFields {
        spawn: Some(SpawnFields {
            command: Some("/opt/devicerail/bin/devicerail-daemon".to_owned()),
            args: Some(vec!["--verbose".to_owned()]),
            env: Some(TextMap::new().with("DEVICERAIL_ANDROID", "off".to_owned())),
            cwd: Some("/tmp/run".to_owned()),
            shutdown_grace_ms: Some(250),
        }),
        attach: None,
    }))
    .expect("parse");
    assert_eq!(spec.command, "/opt/devicerail/bin/devicerail-daemon");
    assert_eq!(spec.args, ["--verbose"]);
    assert_eq!(
        spec.env.get("DEVICERAIL_ANDROID").map(String::as_str),
        Some("off")
    );
    assert_eq!(spec.cwd.as_deref(), Some("/tmp/run"));
    assert_eq!(spec.shutdown_grace_ms, 250);
    assert_eq!(spec.close_grace_ms(), 250);
}

#[test]
fn attach_and_malformed_endpoints_are_rejected_typed() {
    for endpoint in [
        Ok(EndpointFields {
            spawn: None,
            attach: Some(json(r#"{ "transport": "socket" }"#)),
        }),
        Ok(EndpointFields {
            spawn: None,
            attach: None,
        }),
        Ok(EndpointFields {
            spawn: Some(fields()),
            attach: Some(json("{}")),
        }),
        Err("unknown field `spwan`, expected `spawn` or `attach`".to_owned()),
    ] {
        let error = parse_spawn_endpoint(endpoint).expect_err("rejected");
        assert_eq!(error.error_class, ErrorClass::BindArgumentsInvalid);
        assert!(error.message.starts_with("invalid DeviceRail endpoint: "));
    }
}

#[test]
fn a_daemon_gets_at_least_a_millisecond_to_close() {
    let spec = parse_spawn_endpoint(Ok(EndpointFields {
        spawn: Some(SpawnFields {
            shutdown_grace_ms: Some(0),
            ..fields()
        }),
        attach: None,
    }))
    .expect("parse");
    assert_eq!(spec.close_grace_ms(), 1);
}
