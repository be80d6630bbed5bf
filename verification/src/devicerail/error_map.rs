//! Classification of daemon and client errors.
//!
//! Where the identity of a code decides the class, the judgement is the
//! classifier's, whatever the daemon's flag says. Codes outside the table
//! follow the flag, and the judgement is the daemon's.

use vstd::prelude::*;

use crate::devicerail::wire::{ClientError, ClientFailure, RpcError};
use crate::ir::runtime::{ActionOutcome, ActionOutcomeV};
use crate::ir::vocab::ErrorClass;
use crate::kit::error::{ProviderError, ProviderErrorV, RetryableSource};
use crate::text::{concat, concat3, same_text};
use crate::wire::{Duplicate, Wire};

verus! {

/// The numeric code with which a daemon reports that the driver failed an
/// action. Such an action reached the driver and has a recorded terminal.
pub const DRIVER_ERROR_RPC_CODE: i32 = -32000;

/// The class that the table pins for a code, if it has a row.
pub open spec fn table_row(code: Seq<char>) -> Option<(ErrorClass, RetryableSource)> {
    if code == "element_not_found"@ || code == "element_ambiguous"@ {
        Some((ErrorClass::ActionFailedFinal, RetryableSource::Classifier))
    } else if code == "element_stale"@ || code == "ui_context_changed"@ {
        Some((ErrorClass::TargetStale, RetryableSource::Classifier))
    } else if code == "device_unavailable"@ {
        Some((ErrorClass::ActionFailedRetryable, RetryableSource::Daemon))
    } else if code == "session_degraded"@ {
        Some((ErrorClass::SessionDegraded, RetryableSource::Classifier))
    } else if code == "invalid_arguments"@ {
        Some((ErrorClass::BindArgumentsInvalid, RetryableSource::Classifier))
    } else if is_timeout(code) {
        Some((ErrorClass::ActionTimedOut, RetryableSource::Classifier))
    } else if is_cancellation(code) {
        Some((ErrorClass::ActionCancelled, RetryableSource::Classifier))
    } else {
        None
    }
}

/// The codes that say that a budget ran out.
pub open spec fn is_timeout(code: Seq<char>) -> bool {
    code == "action_timeout"@ || code == "action_timed_out"@ || code == "request_timed_out"@
}

/// The codes that say that a call was cancelled.
pub open spec fn is_cancellation(code: Seq<char>) -> bool {
    code == "action_cancelled"@ || code == "request_cancelled"@
}

/// The class of an action error: the row of the table, else the daemon's flag.
pub open spec fn wire_class(code: Seq<char>, retryable: bool) -> (ErrorClass, RetryableSource) {
    match table_row(code) {
        Some(row) => row,
        None => if retryable {
            (ErrorClass::ActionFailedRetryable, RetryableSource::Daemon)
        } else {
            (ErrorClass::ActionFailedFinal, RetryableSource::Daemon)
        },
    }
}

fn names_timeout(code: &str) -> (r: bool)
    ensures
        r == is_timeout(code@),
{
    same_text(code, "action_timeout") || same_text(code, "action_timed_out") || same_text(
        code,
        "request_timed_out",
    )
}

fn names_cancellation(code: &str) -> (r: bool)
    ensures
        r == is_cancellation(code@),
{
    same_text(code, "action_cancelled") || same_text(code, "request_cancelled")
}

/// Classifies an action error by its code. The set of codes is open: one
/// without a row in the table follows the daemon's flag.
pub fn classify_wire_code(code: &str, retryable: bool) -> (r: (ErrorClass, RetryableSource))
    ensures
        r == wire_class(code@, retryable),
{
    if same_text(code, "element_not_found") || same_text(code, "element_ambiguous") {
        (ErrorClass::ActionFailedFinal, RetryableSource::Classifier)
    } else if same_text(code, "element_stale") || same_text(code, "ui_context_changed") {
        (ErrorClass::TargetStale, RetryableSource::Classifier)
    } else if same_text(code, "device_unavailable") {
        (ErrorClass::ActionFailedRetryable, RetryableSource::Daemon)
    } else if same_text(code, "session_degraded") {
        (ErrorClass::SessionDegraded, RetryableSource::Classifier)
    } else if same_text(code, "invalid_arguments") {
        (ErrorClass::BindArgumentsInvalid, RetryableSource::Classifier)
    } else if names_timeout(code) {
        (ErrorClass::ActionTimedOut, RetryableSource::Classifier)
    } else if names_cancellation(code) {
        (ErrorClass::ActionCancelled, RetryableSource::Classifier)
    } else if retryable {
        (ErrorClass::ActionFailedRetryable, RetryableSource::Daemon)
    } else {
        (ErrorClass::ActionFailedFinal, RetryableSource::Daemon)
    }
}

/// The codes that say that a capability is missing.
pub open spec fn is_capability_code(code: Seq<char>) -> bool {
    code == "feature_not_negotiated"@ || code == "required_feature_unsupported"@ || code
        == "semantic_snapshot_dependency_unsatisfied"@
}

/// The class of an error reply: capability codes and undecodable parameters
/// first, then the class of the action error.
pub open spec fn rpc_class(code: Seq<char>, retryable: bool) -> (ErrorClass, RetryableSource) {
    if is_capability_code(code) {
        (ErrorClass::CapabilityDrift, RetryableSource::Classifier)
    } else if code == "invalid_params"@ {
        (ErrorClass::BindArgumentsInvalid, RetryableSource::Classifier)
    } else {
        wire_class(code, retryable)
    }
}

/// Classifies an error reply of the daemon.
pub fn classify_remote_rpc(error: &RpcError) -> (r: (ErrorClass, RetryableSource))
    ensures
        r == rpc_class(error.data.code@, error.data.retryable),
{
    let code = error.data.code.as_str();
    if same_text(code, "feature_not_negotiated") || same_text(code, "required_feature_unsupported")
        || same_text(code, "semantic_snapshot_dependency_unsatisfied") {
        (ErrorClass::CapabilityDrift, RetryableSource::Classifier)
    } else if same_text(code, "invalid_params") {
        (ErrorClass::BindArgumentsInvalid, RetryableSource::Classifier)
    } else {
        classify_wire_code(code, error.data.retryable)
    }
}

/// The phases of a connection in which it is gone.
pub open spec fn is_terminal_phase(phase: Seq<char>) -> bool {
    phase == "failed"@ || phase == "closed"@ || phase == "closing"@
}

/// The class of a client failure.
pub open spec fn failure_class(failure: ClientFailure) -> (ErrorClass, RetryableSource) {
    match failure {
        ClientFailure::RemoteRpc(error) => rpc_class(error.data.code@, error.data.retryable),
        ClientFailure::FeatureNotNegotiated => (
            ErrorClass::CapabilityDrift,
            RetryableSource::Classifier,
        ),
        ClientFailure::HandshakeState(phase) => if is_terminal_phase(phase@) {
            (ErrorClass::TransportLost, RetryableSource::Classifier)
        } else {
            (ErrorClass::ActionFailedFinal, RetryableSource::Classifier)
        },
        ClientFailure::RuntimeUnavailable | ClientFailure::Internal => (
            ErrorClass::ActionFailedFinal,
            RetryableSource::Classifier,
        ),
        _ => (ErrorClass::TransportLost, RetryableSource::Classifier),
    }
}

/// The client code of a client failure.
pub open spec fn failure_code(failure: ClientFailure) -> Seq<char> {
    match failure {
        ClientFailure::RemoteRpc(_) => "remote_rpc_error"@,
        ClientFailure::FeatureNotNegotiated => "feature_not_negotiated"@,
        ClientFailure::Transport | ClientFailure::Closed => "transport_closed"@,
        ClientFailure::Framing => "ndjson_frame_error"@,
        ClientFailure::ProtocolViolation => "protocol_violation"@,
        ClientFailure::Serialization => "serialization"@,
        ClientFailure::PendingRequestLimit
        | ClientFailure::AbandonedRequestLimit
        | ClientFailure::WriteQueueFull => "write_queue_overflow"@,
        ClientFailure::WriteFrameTooLarge => "write_frame_too_large"@,
        ClientFailure::HandshakeState(phase) => if is_terminal_phase(phase@) {
            "handshake_state:"@ + phase@
        } else {
            "handshake_state"@
        },
        ClientFailure::RuntimeUnavailable | ClientFailure::Internal => "internal"@,
    }
}

/// The provider error for a client failure in the given context.
pub open spec fn client_error_view(error: ClientError, context: Seq<char>) -> ProviderErrorV {
    ProviderErrorV {
        error_class: failure_class(error.failure).0,
        message: context + ": "@ + error.text@,
        wire: match error.failure {
            ClientFailure::RemoteRpc(rpc) => Some(rpc.data.wire_json()),
            _ => None,
        },
        client_code: Some(failure_code(error.failure)),
        retryable_source: failure_class(error.failure).1,
    }
}

/// The provider error for a client failure. An error reply keeps the error
/// that the daemon sent.
pub fn provider_error_from_client(error: ClientError, context: &str) -> (r: ProviderError)
    ensures
        r@ == client_error_view(error, context@),
{
    let message = concat3(context, ": ", error.text.as_str());
    let lost = ErrorClass::TransportLost;
    let last = ErrorClass::ActionFailedFinal;
    let (class, code) = match error.failure {
        ClientFailure::RemoteRpc(rpc) => {
            let (class, source) = classify_remote_rpc(&rpc);
            return ProviderError::new(class, message, source).with_wire(
                rpc.data,
            ).with_client_code("remote_rpc_error".to_owned());
        },
        ClientFailure::FeatureNotNegotiated => (
            ErrorClass::CapabilityDrift,
            "feature_not_negotiated".to_owned(),
        ),
        ClientFailure::Transport | ClientFailure::Closed => (lost, "transport_closed".to_owned()),
        ClientFailure::Framing => (lost, "ndjson_frame_error".to_owned()),
        ClientFailure::ProtocolViolation => (lost, "protocol_violation".to_owned()),
        ClientFailure::Serialization => (lost, "serialization".to_owned()),
        ClientFailure::PendingRequestLimit
        | ClientFailure::AbandonedRequestLimit
        | ClientFailure::WriteQueueFull => (lost, "write_queue_overflow".to_owned()),
        ClientFailure::WriteFrameTooLarge => (lost, "write_frame_too_large".to_owned()),
        ClientFailure::HandshakeState(phase) => {
            if same_text(phase.as_str(), "failed") || same_text(phase.as_str(), "closed")
                || same_text(phase.as_str(), "closing") {
                (lost, concat("handshake_state:", phase.as_str()))
            } else {
                (last, "handshake_state".to_owned())
            }
        },
        ClientFailure::RuntimeUnavailable | ClientFailure::Internal => (last, "internal".to_owned()),
    };
    ProviderError::new(class, message, RetryableSource::Classifier).with_client_code(code)
}

/// The terminal that an error reply to an action stands for, if any.
pub open spec fn terminal_of(error: RpcError) -> Option<ActionOutcomeV> {
    let code = error.data.code@;
    if is_cancellation(code) {
        Some(ActionOutcomeV::Cancelled(error.data@))
    } else if is_timeout(code) {
        Some(ActionOutcomeV::TimedOut(error.data@))
    } else if code != "semantic_channel_unavailable"@ && error.code == DRIVER_ERROR_RPC_CODE {
        Some(ActionOutcomeV::Failed(error.data@))
    } else {
        None
    }
}

/// An optional terminal, as contracts see it.
pub open spec fn opt_outcome(outcome: Option<ActionOutcome>) -> Option<ActionOutcomeV> {
    match outcome {
        Some(o) => Some(o@),
        None => None,
    }
}

/// The terminal that an error reply to an action stands for. Cancellations and
/// timeouts are recorded as terminals, and so is every failure of the driver,
/// with the driver's error unchanged. None says that the request never became
/// an action.
pub fn execute_terminal_from_rpc(error: &RpcError) -> (r: Option<ActionOutcome>)
    ensures
        opt_outcome(r) == terminal_of(*error),
{
    let code = error.data.code.as_str();
    if names_cancellation(code) {
        Some(ActionOutcome::Cancelled { error: error.data.duplicate() })
    } else if names_timeout(code) {
        Some(ActionOutcome::TimedOut { error: error.data.duplicate() })
    } else if !same_text(code, "semantic_channel_unavailable") && error.code
        == DRIVER_ERROR_RPC_CODE {
        Some(ActionOutcome::Failed { error: error.data.duplicate() })
    } else {
        None
    }
}

/// The error for a call whose token is already cancelled: nothing was sent.
pub open spec fn cancelled_view() -> ProviderErrorV {
    ProviderErrorV::concluded(
        ErrorClass::ActionCancelled,
        "cancellation token was already cancelled; no wire request was sent"@,
    )
}

pub(crate) fn cancelled_before_dispatch() -> (r: ProviderError)
    ensures
        r@ == cancelled_view(),
{
    ProviderError::concluded(
        ErrorClass::ActionCancelled,
        "cancellation token was already cancelled; no wire request was sent".to_owned(),
    )
}

/// The error for a method of a session that has ended.
pub open spec fn gone_view(method: Seq<char>) -> ProviderErrorV {
    ProviderErrorV {
        client_code: Some("transport_closed"@),
        ..ProviderErrorV::concluded(
            ErrorClass::TransportLost,
            "provider session has ended; "@ + method + " is unavailable"@,
        )
    }
}

pub(crate) fn session_gone(method: &str) -> (r: ProviderError)
    ensures
        r@ == gone_view(method@),
{
    ProviderError::concluded(
        ErrorClass::TransportLost,
        concat3("provider session has ended; ", method, " is unavailable"),
    ).with_client_code("transport_closed".to_owned())
}

/// A row of the table pins the class, whatever the daemon's flag says.
pub proof fn law_rows_ignore_the_flag(code: Seq<char>)
    requires
        table_row(code) is Some,
    ensures
        wire_class(code, true) == wire_class(code, false),
        Some(wire_class(code, true)) == table_row(code),
{
}

/// A code without a row follows the daemon's flag, and the judgement is the
/// daemon's.
pub proof fn law_open_codes_follow_the_flag(code: Seq<char>, retryable: bool)
    requires
        table_row(code) is None,
    ensures
        wire_class(code, retryable).1 == RetryableSource::Daemon,
        wire_class(code, retryable).0 == (if retryable {
            ErrorClass::ActionFailedRetryable
        } else {
            ErrorClass::ActionFailedFinal
        }),
{
}

/// A missing capability is drift in every error reply, whatever the flag says.
pub proof fn law_capability_codes_come_first(code: Seq<char>, retryable: bool)
    requires
        is_capability_code(code),
    ensures
        rpc_class(code, retryable) == (ErrorClass::CapabilityDrift, RetryableSource::Classifier),
{
}

/// Only an error reply of the daemon carries a wire error, and it is the one
/// that the daemon sent.
pub proof fn law_only_replies_carry_a_wire_error(error: ClientError, context: Seq<char>)
    ensures
        client_error_view(error, context).wire == (match error.failure {
            ClientFailure::RemoteRpc(rpc) => Some(rpc.data.wire_json()),
            _ => None,
        }),
        error.failure !is RemoteRpc ==> client_error_view(error, context).retryable_source
            == RetryableSource::Classifier,
{
}

/// The terminal of an error reply carries the daemon's error unchanged.
pub proof fn law_terminals_carry_the_error(error: RpcError)
    ensures
        match terminal_of(error) {
            Some(ActionOutcomeV::Failed(info))
            | Some(ActionOutcomeV::Cancelled(info))
            | Some(ActionOutcomeV::TimedOut(info)) => info == error.data@,
            Some(ActionOutcomeV::Succeeded(_)) => false,
            None => true,
        },
{
}

} // verus!
