use pointlock::devicerail::budget::BoundedError;
use pointlock::devicerail::error_map::{
    classify_remote_rpc, classify_wire_code, execute_terminal_from_rpc, provider_error_from_client,
    DRIVER_ERROR_RPC_CODE,
};
use pointlock::devicerail::wire::{ClientError, ClientFailure, RpcError};
use pointlock::ir::runtime::{ActionOutcome, ErrorInfo};
use pointlock::ir::vocab::ErrorClass;
use pointlock::kit::error::RetryableSource;

fn wire_error(code: &str, numeric: i32, retryable: bool) -> RpcError {
    RpcError {
        code: numeric,
        message: format!("test {code}"),
        data: ErrorInfo {
            code: code.to_owned(),
            message: format!("test {code}"),
            retryable,
            details: None,
        },
    }
}

fn client(failure: ClientFailure) -> ClientError {
    ClientError {
        failure,
        text: "client text".to_owned(),
    }
}

#[test]
fn action_layer_table_rows_map_exactly() {
    let rows = [
        ("element_not_found", false, ErrorClass::ActionFailedFinal),
        ("element_ambiguous", false, ErrorClass::ActionFailedFinal),
        ("element_stale", true, ErrorClass::TargetStale),
        ("ui_context_changed", true, ErrorClass::TargetStale),
        ("device_unavailable", true, ErrorClass::ActionFailedRetryable),
        ("session_degraded", true, ErrorClass::SessionDegraded),
        ("invalid_arguments", false, ErrorClass::BindArgumentsInvalid),
        ("action_timeout", true, ErrorClass::ActionTimedOut),
        ("action_timed_out", true, ErrorClass::ActionTimedOut),
        ("request_timed_out", true, ErrorClass::ActionTimedOut),
        ("action_cancelled", false, ErrorClass::ActionCancelled),
        ("request_cancelled", true, ErrorClass::ActionCancelled),
    ];
    for (code, retryable, expected) in rows {
        let (class, _) = classify_wire_code(code, retryable);
        assert_eq!(class, expected, "row {code}");
    }
}

#[test]
fn table_rows_pin_the_class_regardless_of_the_wire_flag() {
    let (class, source) = classify_wire_code("element_not_found", true);
    assert_eq!(class, ErrorClass::ActionFailedFinal);
    assert_eq!(source, RetryableSource::Classifier);
}

#[test]
fn open_set_codes_follow_the_daemon_retryable_bit() {
    let (class, source) = classify_wire_code("device_not_connected", true);
    assert_eq!(class, ErrorClass::ActionFailedRetryable);
    assert_eq!(source, RetryableSource::Daemon);

    let (class, source) = classify_wire_code("unknown_action", false);
    assert_eq!(class, ErrorClass::ActionFailedFinal);
    assert_eq!(source, RetryableSource::Daemon);
}

#[test]
fn capability_rows_outrank_the_open_set_in_envelope_errors() {
    for code in [
        "feature_not_negotiated",
        "required_feature_unsupported",
        "semantic_snapshot_dependency_unsatisfied",
    ] {
        let (class, _) = classify_remote_rpc(&wire_error(code, -32004, true));
        assert_eq!(class, ErrorClass::CapabilityDrift, "row {code}");
    }
    let (class, _) = classify_remote_rpc(&wire_error("invalid_params", -32602, false));
    assert_eq!(class, ErrorClass::BindArgumentsInvalid);
    let (class, _) = classify_remote_rpc(&wire_error("session_degraded", -32006, true));
    assert_eq!(class, ErrorClass::SessionDegraded);
}

#[test]
fn remote_rpc_carrier_keeps_the_wire_error_and_client_code() {
    let error = client(ClientFailure::RemoteRpc(wire_error(
        "device_unavailable",
        -32000,
        true,
    )));
    let carrier = provider_error_from_client(error, "device.execute");
    assert_eq!(carrier.error_class, ErrorClass::ActionFailedRetryable);
    assert_eq!(carrier.retryable_source, RetryableSource::Daemon);
    assert_eq!(carrier.client_code.as_deref(), Some("remote_rpc_error"));
    assert_eq!(carrier.message, "device.execute: client text");
    let wire = carrier.wire.expect("wire error attached");
    assert_eq!(wire.code, "device_unavailable");
    assert!(wire.retryable);
}

#[test]
fn transport_family_maps_to_transport_lost() {
    for (failure, code) in [
        (ClientFailure::Transport, "transport_closed"),
        (ClientFailure::Closed, "transport_closed"),
        (ClientFailure::ProtocolViolation, "protocol_violation"),
        (ClientFailure::Framing, "ndjson_frame_error"),
        (ClientFailure::Serialization, "serialization"),
        (ClientFailure::PendingRequestLimit, "write_queue_overflow"),
        (ClientFailure::AbandonedRequestLimit, "write_queue_overflow"),
        (ClientFailure::WriteQueueFull, "write_queue_overflow"),
        (ClientFailure::WriteFrameTooLarge, "write_frame_too_large"),
    ] {
        let carrier = provider_error_from_client(client(failure), "ctx");
        assert_eq!(carrier.error_class, ErrorClass::TransportLost);
        assert_eq!(carrier.client_code.as_deref(), Some(code));
        assert_eq!(carrier.wire, None);
    }
}

#[test]
fn feature_not_negotiated_is_capability_drift() {
    let carrier =
        provider_error_from_client(client(ClientFailure::FeatureNotNegotiated), "ui.snapshot.get");
    assert_eq!(carrier.error_class, ErrorClass::CapabilityDrift);
    assert_eq!(
        carrier.client_code.as_deref(),
        Some("feature_not_negotiated")
    );
}

#[test]
fn client_bug_family_is_final_but_terminal_phases_are_transport() {
    for phase in ["closed", "failed", "closing"] {
        let error = client(ClientFailure::HandshakeState(phase.to_owned()));
        let carrier = provider_error_from_client(error, "ctx");
        assert_eq!(carrier.error_class, ErrorClass::TransportLost, "{phase}");
        assert_eq!(carrier.client_code, Some(format!("handshake_state:{phase}")));
    }
    let error = client(ClientFailure::HandshakeState("ready".to_owned()));
    let carrier = provider_error_from_client(error, "ctx");
    assert_eq!(carrier.error_class, ErrorClass::ActionFailedFinal);
    assert_eq!(carrier.client_code.as_deref(), Some("handshake_state"));
    for failure in [ClientFailure::Internal, ClientFailure::RuntimeUnavailable] {
        let carrier = provider_error_from_client(client(failure), "ctx");
        assert_eq!(carrier.error_class, ErrorClass::ActionFailedFinal);
        assert_eq!(carrier.client_code.as_deref(), Some("internal"));
    }
}

#[test]
fn execute_rpc_failures_extract_definite_terminals() {
    for code in ["request_cancelled", "action_cancelled"] {
        let outcome = execute_terminal_from_rpc(&wire_error(code, -32007, true))
            .expect("cancelled terminal");
        assert_eq!(outcome.kind(), "cancelled");
    }
    for code in ["request_timed_out", "action_timed_out", "action_timeout"] {
        let outcome = execute_terminal_from_rpc(&wire_error(code, -32008, true))
            .expect("timedOut terminal");
        assert_eq!(outcome.kind(), "timedOut");
    }
    let outcome = execute_terminal_from_rpc(&wire_error(
        "element_not_found",
        DRIVER_ERROR_RPC_CODE,
        false,
    ))
    .expect("failed terminal");
    let ActionOutcome::Failed { error } = outcome else {
        panic!("expected failed terminal");
    };
    assert_eq!(error.code, "element_not_found");

    assert!(execute_terminal_from_rpc(&wire_error("session_required", -32005, true)).is_none());
    assert!(execute_terminal_from_rpc(&wire_error(
        "semantic_channel_unavailable",
        DRIVER_ERROR_RPC_CODE,
        false
    ))
    .is_none());
    assert!(execute_terminal_from_rpc(&wire_error("invalid_params", -32602, false)).is_none());
}

#[test]
fn local_budget_expiry_is_classified_as_timed_out() {
    let elapsed = BoundedError::Elapsed { budget_ms: 15_000 };
    assert_eq!(
        elapsed.describe(),
        "provider-local 15000ms budget elapsed while waiting for the response"
    );
    let error = elapsed.into_provider_error("events.list");
    assert_eq!(error.error_class, ErrorClass::ActionTimedOut);
    assert_eq!(error.retryable_source, RetryableSource::Classifier);
    assert_eq!(
        error.message,
        "events.list: provider-local 15000ms budget elapsed; the response may still be in flight (04 §9.7)"
    );
    let failed = BoundedError::Client(client(ClientFailure::Closed));
    assert_eq!(failed.describe(), "client text");
    assert_eq!(
        failed.into_provider_error("events.list").error_class,
        ErrorClass::TransportLost
    );
}
