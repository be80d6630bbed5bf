//! What errors are judged to be: each class with the codes that lead to it.

use vstd::prelude::*;
use vstd::string::*;

use crate::devicerail::budget;
use crate::devicerail::budget::BoundedError;
use crate::devicerail::endpoint;
use crate::devicerail::endpoint::{EndpointFields, SpawnSpec};
use crate::devicerail::error_map;
use crate::devicerail::scan;
use crate::devicerail::wire::{ClientError, ClientFailure, RpcError};
use crate::ir::runtime::{ActionOutcome, ActionOutcomeV, ErrorInfo};
use crate::ir::vocab::ErrorClass;
use crate::keyed;
use crate::kit::error::{ProviderError, ProviderErrorV, RetryableSource};
use crate::kit::spi;
use crate::text;
use crate::wire::Wire;

verus! {

proof fn lemma_codes()
    ensures
        keyed::key_code("element_stale"@) == 13101116101,
        keyed::key_code("action_timeout"@) == 14097101116,
        keyed::key_code("invalid_params"@) == 14105114115,
        keyed::key_code("action_cancelled"@) == 16097108100,
        keyed::key_code("action_timed_out"@) == 16097095116,
        keyed::key_code("session_degraded"@) == 16115097100,
        keyed::key_code("element_ambiguous"@) == 17101103115,
        keyed::key_code("element_not_found"@) == 17101102100,
        keyed::key_code("invalid_arguments"@) == 17105109115,
        keyed::key_code("request_cancelled"@) == 17114101100,
        keyed::key_code("request_timed_out"@) == 17114100116,
        keyed::key_code("device_unavailable"@) == 18100108101,
        keyed::key_code("ui_context_changed"@) == 18117097100,
        keyed::key_code("feature_not_negotiated"@) == 22102116100,
        keyed::key_code("required_feature_unsupported"@) == 28114112100,
        keyed::key_code("semantic_snapshot_dependency_unsatisfied"@) == 40115110100,
{
    reveal_strlit("element_stale");
    reveal_strlit("action_timeout");
    reveal_strlit("invalid_params");
    reveal_strlit("action_cancelled");
    reveal_strlit("action_timed_out");
    reveal_strlit("session_degraded");
    reveal_strlit("element_ambiguous");
    reveal_strlit("element_not_found");
    reveal_strlit("invalid_arguments");
    reveal_strlit("request_cancelled");
    reveal_strlit("request_timed_out");
    reveal_strlit("device_unavailable");
    reveal_strlit("ui_context_changed");
    reveal_strlit("feature_not_negotiated");
    reveal_strlit("required_feature_unsupported");
    reveal_strlit("semantic_snapshot_dependency_unsatisfied");
}

proof fn lemma_phases()
    ensures
        keyed::key_code("closed"@) == 6099101100,
        keyed::key_code("failed"@) == 6102101100,
        keyed::key_code("closing"@) == 7099110103,
{
    reveal_strlit("closed");
    reveal_strlit("failed");
    reveal_strlit("closing");
}

/// Whether no class is fixed for a code, so that the daemon's flag decides.
pub open spec fn is_open(code: Seq<char>) -> bool {
    !(code == "element_not_found"@ || code == "element_ambiguous"@ || code == "element_stale"@
        || code == "ui_context_changed"@ || code == "device_unavailable"@
        || code == "session_degraded"@ || code == "invalid_arguments"@ || code == "action_timeout"@
        || code == "action_timed_out"@ || code == "request_timed_out"@
        || code == "action_cancelled"@ || code == "request_cancelled"@)
}

/// Each class of an action error comes from its own codes, and from no other: of
/// the codes that are fixed for none, the flag tells retryable from final. The
/// judgement is the daemon's just where the flag or the daemon's own word decides.
pub proof fn law_action_codes_have_their_class(code: Seq<char>, retryable: bool)
    ensures
        ({
            let class = error_map::wire_class(code, retryable).0;
            let source = error_map::wire_class(code, retryable).1;
            &&& class == ErrorClass::TargetStale <==> code == "element_stale"@
                || code == "ui_context_changed"@
            &&& class == ErrorClass::SessionDegraded <==> code == "session_degraded"@
            &&& class == ErrorClass::BindArgumentsInvalid <==> code == "invalid_arguments"@
            &&& class == ErrorClass::ActionTimedOut <==> code == "action_timeout"@
                || code == "action_timed_out"@ || code == "request_timed_out"@
            &&& class == ErrorClass::ActionCancelled <==> code == "action_cancelled"@
                || code == "request_cancelled"@
            &&& class == ErrorClass::ActionFailedRetryable <==> code == "device_unavailable"@ || (
            retryable && is_open(code))
            &&& class == ErrorClass::ActionFailedFinal <==> code == "element_not_found"@ || code
                == "element_ambiguous"@ || (!retryable && is_open(code))
            &&& source == RetryableSource::Daemon <==> code == "device_unavailable"@
                || is_open(code)
        }),
{
    lemma_codes();
}

/// In an error reply a missing capability is drift, undecodable parameters are
/// invalid arguments, and every other code is judged as that of an action error.
pub proof fn law_reply_codes_have_their_class(code: Seq<char>, retryable: bool)
    ensures
        ({
            let class = error_map::rpc_class(code, retryable).0;
            let source = error_map::rpc_class(code, retryable).1;
            let missing = code == "feature_not_negotiated"@
                || code == "required_feature_unsupported"@
                || code == "semantic_snapshot_dependency_unsatisfied"@;
            &&& class == ErrorClass::CapabilityDrift <==> missing
            &&& class == ErrorClass::BindArgumentsInvalid <==> code == "invalid_params"@ || code
                == "invalid_arguments"@
            &&& missing || code == "invalid_params"@ ==> source == RetryableSource::Classifier
            &&& !missing && code != "invalid_params"@ ==> class == error_map::wire_class(
                code,
                retryable,
            ).0 && source == error_map::wire_class(code, retryable).1
        }),
{
    lemma_codes();
    law_action_codes_have_their_class(code, retryable);
}

/// Whether a connection in this phase is gone.
pub open spec fn is_gone(phase: Seq<char>) -> bool {
    phase == "failed"@ || phase == "closed"@ || phase == "closing"@
}

/// A client failure other than an error reply is drift where a feature is missing,
/// final where the client itself is at fault or the connection is not up yet, and
/// a lost transport in every other case. An error reply is judged by its code and
/// flag.
pub proof fn law_failures_have_their_class(failure: ClientFailure)
    ensures
        ({
            let class = error_map::failure_class(failure).0;
            let source = error_map::failure_class(failure).1;
            let idle = failure is HandshakeState && !is_gone(failure->HandshakeState_0@);
            let own = failure is RuntimeUnavailable || failure is Internal || idle;
            &&& failure is RemoteRpc ==> class == error_map::rpc_class(
                failure->RemoteRpc_0.data.code@,
                failure->RemoteRpc_0.data.retryable,
            ).0 && source == error_map::rpc_class(
                failure->RemoteRpc_0.data.code@,
                failure->RemoteRpc_0.data.retryable,
            ).1
            &&& failure !is RemoteRpc ==> source == RetryableSource::Classifier
            &&& failure !is RemoteRpc ==> (class == ErrorClass::CapabilityDrift <==> failure is
                FeatureNotNegotiated)
            &&& failure !is RemoteRpc ==> (class == ErrorClass::ActionFailedFinal <==> own)
            &&& failure !is RemoteRpc ==> (class == ErrorClass::TransportLost <==> !own
                && failure !is FeatureNotNegotiated)
        }),
{
}

proof fn lemma_client_codes()
    ensures
        keyed::key_code("internal"@) == 8105097108,
        keyed::key_code("serialization"@) == 13115116110,
        keyed::key_code("handshake_state"@) == 15104116101,
        keyed::key_code("remote_rpc_error"@) == 16114114114,
        keyed::key_code("transport_closed"@) == 16116111100,
        keyed::key_code("ndjson_frame_error"@) == 18110101114,
        keyed::key_code("protocol_violation"@) == 18112097110,
        keyed::key_code("write_queue_overflow"@) == 20119114119,
        keyed::key_code("write_frame_too_large"@) == 21119095101,
        keyed::key_code("feature_not_negotiated"@) == 22102116100,
{
    reveal_strlit("internal");
    reveal_strlit("serialization");
    reveal_strlit("handshake_state");
    reveal_strlit("remote_rpc_error");
    reveal_strlit("transport_closed");
    reveal_strlit("ndjson_frame_error");
    reveal_strlit("protocol_violation");
    reveal_strlit("write_queue_overflow");
    reveal_strlit("write_frame_too_large");
    reveal_strlit("feature_not_negotiated");
}

/// A code that starts with the word for a handshake and goes on is none of the
/// plain codes.
proof fn lemma_phase_codes(phase: Seq<char>)
    requires
        phase.len() > 0,
    ensures
        ({
            let code = "handshake_state:"@ + phase;
            &&& code != "remote_rpc_error"@
            &&& code != "feature_not_negotiated"@
            &&& code != "transport_closed"@
            &&& code != "ndjson_frame_error"@
            &&& code != "protocol_violation"@
            &&& code != "serialization"@
            &&& code != "write_queue_overflow"@
            &&& code != "write_frame_too_large"@
            &&& code != "handshake_state"@
            &&& code != "internal"@
        }),
{
    let code = "handshake_state:"@ + phase;
    reveal_strlit("handshake_state:");
    assert(code[0] == 'h');
    assert(code.len() > 16);
    reveal_strlit("remote_rpc_error");
    assert("remote_rpc_error"@[0] == 'r');
    reveal_strlit("feature_not_negotiated");
    assert("feature_not_negotiated"@[0] == 'f');
    reveal_strlit("transport_closed");
    assert("transport_closed"@[0] == 't');
    reveal_strlit("ndjson_frame_error");
    assert("ndjson_frame_error"@[0] == 'n');
    reveal_strlit("protocol_violation");
    assert("protocol_violation"@[0] == 'p');
    reveal_strlit("serialization");
    assert("serialization"@[0] == 's');
    reveal_strlit("write_queue_overflow");
    assert("write_queue_overflow"@[0] == 'w');
    reveal_strlit("write_frame_too_large");
    assert("write_frame_too_large"@[0] == 'w');
    reveal_strlit("handshake_state");
    assert("handshake_state"@[0] == 'h');
    reveal_strlit("internal");
    assert("internal"@[0] == 'i');
}

/// The client code tells what failed: each code comes from its own failures, and
/// from no other. Where the connection is gone the code names the phase.
pub proof fn law_failures_have_their_code(failure: ClientFailure)
    ensures
        ({
            let code = error_map::failure_code(failure);
            let gone = failure is HandshakeState && is_gone(failure->HandshakeState_0@);
            &&& code == "remote_rpc_error"@ <==> failure is RemoteRpc
            &&& code == "feature_not_negotiated"@ <==> failure is FeatureNotNegotiated
            &&& code == "transport_closed"@ <==> failure is Transport || failure is Closed
            &&& code == "ndjson_frame_error"@ <==> failure is Framing
            &&& code == "protocol_violation"@ <==> failure is ProtocolViolation
            &&& code == "serialization"@ <==> failure is Serialization
            &&& code == "write_queue_overflow"@ <==> failure is PendingRequestLimit || failure is
                AbandonedRequestLimit || failure is WriteQueueFull
            &&& code == "write_frame_too_large"@ <==> failure is WriteFrameTooLarge
            &&& code == "internal"@ <==> failure is RuntimeUnavailable || failure is Internal
            &&& code == "handshake_state"@ <==> failure is HandshakeState && !gone
            &&& gone ==> code == "handshake_state:"@ + failure->HandshakeState_0@
        }),
{
    lemma_client_codes();
    reveal_strlit("failed");
    reveal_strlit("closed");
    reveal_strlit("closing");
    if failure is HandshakeState && is_gone(failure->HandshakeState_0@) {
        lemma_phase_codes(failure->HandshakeState_0@);
    }
}

/// The provider error for a client failure has the class and the source that the
/// failure is judged to have, names the failure, and says where it came up and what
/// the client said of it. Just an error reply hands on the daemon's error.
pub proof fn law_client_errors_say_what_failed(error: ClientError, context: Seq<char>)
    ensures
        ({
            let e = error_map::client_error_view(error, context);
            &&& e.error_class == error_map::failure_class(error.failure).0
            &&& e.retryable_source == error_map::failure_class(error.failure).1
            &&& e.client_code == Some(error_map::failure_code(error.failure))
            &&& e.message == context + ": "@ + error.text@
            &&& e.wire is Some <==> error.failure is RemoteRpc
            &&& error.failure matches ClientFailure::RemoteRpc(rpc) ==> e.wire == Some(
                rpc.data.wire_json(),
            )
        }),
{
}

/// An error reply to an action stands for a cancelled terminal just for the codes of
/// a cancellation, for a timed-out one just for those of a timeout, and for a failed
/// one just where the driver failed the action; the channel that is not there is no
/// terminal. The terminal carries the daemon's error.
pub proof fn law_replies_stand_for_terminals(error: RpcError)
    ensures
        ({
            let code = error.data.code@;
            let r = error_map::terminal_of(error);
            let cancelled = code == "action_cancelled"@ || code == "request_cancelled"@;
            let late = code == "action_timeout"@ || code == "action_timed_out"@ || code
                == "request_timed_out"@;
            &&& r == Some(ActionOutcomeV::Cancelled(error.data@)) <==> cancelled
            &&& r == Some(ActionOutcomeV::TimedOut(error.data@)) <==> late
            &&& r == Some(ActionOutcomeV::Failed(error.data@)) <==> !cancelled && !late && code
                != "semantic_channel_unavailable"@ && error.code == -32000
            &&& r is None <==> !cancelled && !late && (code == "semantic_channel_unavailable"@
                || error.code != -32000)
        }),
{
    lemma_codes();
}

/// A call whose token was cancelled fails as cancelled, and a method of an ended
/// session as lost, with a message that names the method.
pub proof fn law_refused_calls_say_why(method: Seq<char>)
    ensures
        ({
            let cancelled = error_map::cancelled_view();
            let gone = error_map::gone_view(method);
            &&& cancelled.error_class == ErrorClass::ActionCancelled
            &&& cancelled.message
                == "cancellation token was already cancelled; no wire request was sent"@
            &&& cancelled.wire is None
            &&& cancelled.client_code is None
            &&& cancelled.retryable_source == RetryableSource::Classifier
            &&& gone.error_class == ErrorClass::TransportLost
            &&& gone.message == "provider session has ended; "@ + method + " is unavailable"@
            &&& gone.wire is None
            &&& gone.client_code == Some("transport_closed"@)
            &&& gone.retryable_source == RetryableSource::Classifier
        }),
{
}

/// A conclusion of the classifier has the class and the message that it was given,
/// and nothing from the wire; its text names the class and the message.
pub proof fn law_conclusions_are_the_classifiers(class: ErrorClass, message: Seq<char>)
    ensures
        ({
            let e = ProviderErrorV::concluded(class, message);
            &&& e.error_class == class
            &&& e.message == message
            &&& e.wire is None
            &&& e.client_code is None
            &&& e.retryable_source == RetryableSource::Classifier
            &&& e.text() == "provider error ["@ + class.wire() + "]: "@ + message
        }),
{
}

/// What contracts see of an error is all that it says.
pub proof fn law_errors_are_seen_whole(e: ProviderError, info: ErrorInfo)
    ensures
        e@.error_class == e.error_class,
        e@.message == e.message@,
        e@.wire is Some <==> e.wire is Some,
        e.wire matches Some(w) ==> e@.wire == Some(w.wire_json()),
        e@.client_code is Some <==> e.client_code is Some,
        e.client_code matches Some(c) ==> e@.client_code == Some(c@),
        e@.retryable_source == e.retryable_source,
        info@.code == info.code@,
        info@.message == info.message@,
        info@.retryable == info.retryable,
        info@.details is Some <==> info.details is Some,
        info.details matches Some(d) ==> info@.details == Some(d@),
{
}

/// What contracts see of a terminal is all that it says.
pub proof fn law_terminals_are_seen_whole(o: ActionOutcome)
    ensures
        match o {
            ActionOutcome::Succeeded { result } => {
                &&& o@ is Succeeded
                &&& o@->Succeeded_0.call_id == result.call_id@
                &&& o@->Succeeded_0.started_at_ms == result.started_at_ms
                &&& o@->Succeeded_0.finished_at_ms == result.finished_at_ms
                &&& o@->Succeeded_0.output == result.output@
                &&& o@->Succeeded_0.before is Some <==> result.before is Some
                &&& result.before matches Some(b) ==> o@->Succeeded_0.before == Some(b.wire_json())
                &&& o@->Succeeded_0.after is Some <==> result.after is Some
                &&& result.after matches Some(a) ==> o@->Succeeded_0.after == Some(a.wire_json())
                &&& o@->Succeeded_0.evidence.len() == result.evidence@.len()
                &&& o@->Succeeded_0.execution is Some <==> result.execution is Some
            },
            ActionOutcome::Failed { error } => o@ == ActionOutcomeV::Failed(error@),
            ActionOutcome::Cancelled { error } => o@ == ActionOutcomeV::Cancelled(error@),
            ActionOutcome::TimedOut { error } => o@ == ActionOutcomeV::TimedOut(error@),
        },
{
}

/// A failed call says what failed: the client's own words, or the budget that ran
/// out. A budget that ran out counts as a timeout.
pub proof fn law_bounded_failures_say_what_failed(error: BoundedError, context: Seq<char>)
    ensures
        match error {
            BoundedError::Client(failed) => {
                &&& error.text() == failed.text@
                &&& error.error_in(context) == error_map::client_error_view(failed, context)
            },
            BoundedError::Elapsed { budget_ms } => {
                &&& error.text() == "provider-local "@ + text::decimal(budget_ms as nat)
                    + "ms budget elapsed while waiting for the response"@
                &&& error.error_in(context).error_class == ErrorClass::ActionTimedOut
                &&& error.error_in(context).message == context + ": provider-local "@
                    + text::decimal(budget_ms as nat)
                    + "ms budget elapsed; the response may still be in flight (04 §9.7)"@
                &&& error.error_in(context).wire is None
                &&& error.error_in(context).client_code is None
                &&& error.error_in(context).retryable_source == RetryableSource::Classifier
            },
        },
{
}

/// The limits of requests, pages, verdicts and shutdowns.
pub proof fn law_limits()
    ensures
        budget::ENVELOPE_MARGIN_MS == 5000,
        budget::DEFAULT_CALL_BUDGET_MS == 15000,
        budget::MIN_REQUEST_TIMEOUT_MS == 1,
        budget::MAX_REQUEST_TIMEOUT_MS == 0x1f_ffff_ffff_ffff,
        scan::SCAN_PAGE_LIMIT == 1000,
        scan::MAX_SEQUENCE == 0x1f_ffff_ffff_ffff,
        endpoint::DEFAULT_SHUTDOWN_GRACE_MS == 5000,
        spi::VERDICT_SUMMARY_MAX_CHARS == 16384,
        spi::VERDICT_EVIDENCE_MAX_ENTRIES == 64,
{
}

/// Budgets are refused just where both are given and the action's is not below the
/// request's. The action's budget stands as it is given. So does the request's; where
/// only the action's is given, the request has five seconds more, as far as a number
/// goes, and where none is given there is none.
pub proof fn law_budgets_are_the_callers(action_ms: Option<u64>, request_ms: Option<u64>)
    ensures
        ({
            let r = budget::budgets_of(action_ms, request_ms);
            let crossed = action_ms is Some && request_ms is Some && request_ms->0 <= action_ms->0;
            &&& r is Err <==> crossed
            &&& r matches Err(e) ==> e.error_class == ErrorClass::BindArgumentsInvalid
                && e.retryable_source == RetryableSource::Classifier && e.wire is None
                && e.client_code is None && e.message
                == "budget invariant violated: actionTimeoutMs ("@ + text::decimal(
                action_ms->0 as nat,
            ) + ") must be strictly below the request envelope timeoutMs ("@ + text::decimal(
                request_ms->0 as nat,
            ) + ") (04 §9.7 invariant 1)"@
            &&& r matches Ok((action, envelope)) ==> {
                &&& action == action_ms
                &&& request_ms is Some ==> envelope == request_ms
                &&& request_ms is None && action_ms is None ==> envelope is None
                &&& request_ms is None && action_ms is Some ==> envelope is Some && (
                envelope->0 - action_ms->0 == 5000 || (envelope->0 == u64::MAX && action_ms->0
                    > u64::MAX - 5000))
            }
        }),
{
}

/// A budget that a request carries is the nearest one to what was asked for, from one
/// millisecond to the greatest exact number; no budget stays none.
pub proof fn law_clamping_takes_the_nearest(ms: u64, other: u64)
    requires
        1 <= other <= 0x1f_ffff_ffff_ffff,
    ensures
        1 <= budget::clamped(ms) <= 0x1f_ffff_ffff_ffff,
        ms <= other ==> ms <= budget::clamped(ms) <= other || budget::clamped(ms) == 1,
        other <= ms ==> other <= budget::clamped(ms) <= ms,
        1 <= ms <= 0x1f_ffff_ffff_ffff ==> budget::clamped(ms) == ms,
        budget::opt_clamped(Some(ms)) == Some(budget::clamped(ms)),
        budget::opt_clamped(None) is None,
{
}

/// An endpoint is taken just where it was read and holds the spawning form and no
/// other. What is said of a refused one tells the four reasons apart.
pub proof fn law_just_the_spawning_form_is_taken(endpoint: Result<EndpointFields, String>)
    ensures
        ({
            let fault = endpoint::endpoint_fault(endpoint);
            &&& fault is None <==> endpoint is Ok && endpoint->Ok_0.spawn is Some
                && endpoint->Ok_0.attach is None
            &&& endpoint matches Err(detail) ==> fault == Some(detail@)
            &&& endpoint is Ok && endpoint->Ok_0.spawn is None && endpoint->Ok_0.attach is Some
                ==> fault == Some(
                "the attach endpoint form is reserved for a later milestone; M1 implements spawn only (04 §9.1)"@,
            )
            &&& endpoint is Ok && endpoint->Ok_0.spawn is Some && endpoint->Ok_0.attach is Some
                ==> fault == Some("endpoint must be exactly one of { spawn } | { attach }"@)
            &&& endpoint is Ok && endpoint->Ok_0.spawn is None && endpoint->Ok_0.attach is None
                ==> fault == Some("endpoint must carry a { spawn: SpawnSpec } object"@)
        }),
{
}

/// A spawning endpoint is what its fields say. What is not given is the daemon's own
/// command, no arguments, no environment, no directory and five seconds of grace.
pub proof fn law_endpoints_are_what_is_given(spec: SpawnSpec, fields: endpoint::SpawnFields)
    requires
        spec.fills(fields),
    ensures
        fields.command matches Some(command) ==> spec.command@ == command@,
        fields.command is None ==> spec.command@ == "devicerail-daemon"@,
        fields.args matches Some(args) ==> spec.args == args,
        fields.args is None ==> spec.args@.len() == 0,
        fields.env matches Some(env) ==> spec.env == env,
        fields.env is None ==> spec.env@.entries.len() == 0,
        spec.cwd == fields.cwd,
        fields.shutdown_grace_ms matches Some(ms) ==> spec.shutdown_grace_ms == ms,
        fields.shutdown_grace_ms is None ==> spec.shutdown_grace_ms == 5000,
{
}

} // verus!
