use pointlock::ir::runtime::{
    ActionExecution, ActionOutcome, ErrorInfo, Observation, ReconcileResult, UiContextRef,
    Viewport,
};
use pointlock::ir::vocab::{
    CoordinateFallbackReason, ScreenshotOmissionReason, UiContextKind, UiSnapshotOmissionReason,
};
use pointlock::json::{parse_json, Json, JsonNumber};
use pointlock::keyed::TextMap;
use pointlock::wire::Wire;

fn json(text: &str) -> Json {
    parse_json(text).expect("a JSON text")
}

/// The value at a path of member names and array positions.
fn get<'a>(value: &'a Json, path: &[&str]) -> Option<&'a Json> {
    let mut at = value;
    for part in path {
        at = match at {
            Json::Object(_) => at.member(part)?,
            Json::Array(items) => items.get(part.parse::<usize>().ok()?)?,
            _ => return None,
        };
    }
    Some(at)
}

fn error_info(code: &str, message: &str) -> ErrorInfo {
    ErrorInfo {
        code: code.to_owned(),
        message: message.to_owned(),
        retryable: true,
        details: None,
    }
}

#[test]
fn action_outcome_wire_discriminants_round_trip() {
    let timed_out = ActionOutcome::TimedOut {
        error: error_info("action_timeout", "budget elapsed"),
    };
    let wire = timed_out.to_json();
    assert_eq!(get(&wire, &["outcome"]), Some(&Json::text("timedOut")));
    assert_eq!(get(&wire, &["error", "retryable"]), Some(&Json::Bool(true)));
    assert_eq!(timed_out.kind(), "timedOut");
    assert_eq!(
        wire,
        json(
            r#"{
                "outcome": "timedOut",
                "error": {
                    "code": "action_timeout",
                    "message": "budget elapsed",
                    "retryable": true
                }
            }"#
        )
    );

    let cancelled = ActionOutcome::Cancelled {
        error: error_info("action_timeout", "budget elapsed"),
    };
    assert_eq!(
        get(&cancelled.to_json(), &["outcome"]),
        Some(&Json::text("cancelled"))
    );
}

#[test]
fn reconcile_fates_round_trip() {
    let unavailable = ReconcileResult::LogUnavailable {
        reason: "session deleted".to_owned(),
    };
    assert_eq!(
        unavailable.to_json(),
        json(r#"{"fate": "logUnavailable", "reason": "session deleted"}"#)
    );
    assert_eq!(
        ReconcileResult::NeverDispatched.to_json(),
        json(r#"{"fate": "neverDispatched"}"#)
    );
}

#[test]
fn reconcile_completed_carries_the_four_way_outcome_verbatim() {
    let completed = ReconcileResult::Completed {
        outcome: Box::new(ActionOutcome::Failed {
            error: error_info("device_unavailable", "device went away"),
        }),
    };
    let wire = completed.to_json();
    assert_eq!(get(&wire, &["fate"]), Some(&Json::text("completed")));
    assert_eq!(
        get(&wire, &["outcome", "outcome"]),
        Some(&Json::text("failed"))
    );
    assert_eq!(
        get(&wire, &["outcome", "error", "retryable"]),
        Some(&Json::Bool(true))
    );
    assert_eq!(
        wire,
        json(
            r#"{
                "fate": "completed",
                "outcome": {
                    "outcome": "failed",
                    "error": {
                        "code": "device_unavailable",
                        "message": "device went away",
                        "retryable": true
                    }
                }
            }"#
        )
    );
}

#[test]
fn observation_omissions_are_camel_case_and_absent_when_none() {
    let observation = Observation {
        id: "obs-1".to_owned(),
        device_id: "dev-1".to_owned(),
        captured_at_ms: 1,
        viewport: Viewport {
            width: 1080,
            height: 2400,
            scale_factor: JsonNumber::Decimal("2.0".to_owned()),
        },
        screenshot: None,
        screenshot_omission: Some(ScreenshotOmissionReason::ProtectedAction),
        ui_snapshot: None,
        ui_snapshot_omission: Some(UiSnapshotOmissionReason::DriverUnsupported),
        metadata: TextMap::new(),
    };
    let wire = observation.to_json();
    assert_eq!(
        get(&wire, &["screenshotOmission"]),
        Some(&Json::text("protectedAction"))
    );
    assert_eq!(
        get(&wire, &["uiSnapshotOmission"]),
        Some(&Json::text("driverUnsupported"))
    );
    assert!(get(&wire, &["screenshot"]).is_none());
    assert!(get(&wire, &["metadata"]).is_none());
    assert_eq!(get(&wire, &["viewport", "scaleFactor"]), Some(&json("2.0")));
    assert_eq!(
        wire,
        json(
            r#"{
                "id": "obs-1",
                "deviceId": "dev-1",
                "capturedAtMs": 1,
                "viewport": { "width": 1080, "height": 2400, "scaleFactor": 2.0 },
                "screenshotOmission": "protectedAction",
                "uiSnapshotOmission": "driverUnsupported"
            }"#
        )
    );
}

#[test]
fn execution_mode_fallback_reason_round_trips() {
    let execution = ActionExecution::CoordinateFallback {
        context: UiContextRef {
            context_kind: UiContextKind::Native,
            context_id: "ctx-1".to_owned(),
            document_epoch: "epoch-1".to_owned(),
        },
        fallback_reason: CoordinateFallbackReason::SemanticInteractionUnavailable,
    };
    let wire = execution.to_json();
    assert_eq!(get(&wire, &["mode"]), Some(&Json::text("coordinateFallback")));
    assert_eq!(
        get(&wire, &["fallbackReason"]),
        Some(&Json::text("semanticInteractionUnavailable"))
    );
    assert_eq!(
        wire,
        json(
            r#"{
                "mode": "coordinateFallback",
                "context": {
                    "contextKind": "native",
                    "contextId": "ctx-1",
                    "documentEpoch": "epoch-1"
                },
                "fallbackReason": "semanticInteractionUnavailable"
            }"#
        )
    );
}
