//! Time budgets of daemon calls.

use vstd::prelude::*;

use crate::devicerail::error_map;
use crate::devicerail::error_map::provider_error_from_client;
use crate::devicerail::wire::ClientError;
use crate::ir::vocab::ErrorClass;
use crate::kit::error::{ProviderError, ProviderErrorV};
use crate::kit::spi::BoundActionCall;
use crate::text;
use crate::text::{concat3, concat4, concat5, decimal_text};

verus! {

/// What a request envelope gets on top of the budget of its action, so that
/// the action's own timeout comes first.
pub const ENVELOPE_MARGIN_MS: u64 = 5_000;

/// The budget of a call that the caller gives none.
pub const DEFAULT_CALL_BUDGET_MS: u64 = 15_000;

/// The least budget that a request can carry.
pub const MIN_REQUEST_TIMEOUT_MS: u64 = 1;

/// The greatest budget that a request can carry: the greatest integer that
/// every JSON reader holds exactly.
pub const MAX_REQUEST_TIMEOUT_MS: u64 = 9_007_199_254_740_991;

/// `RequestTimeoutMs::new` of `devicerail-client`: a budget between one
/// millisecond and the greatest exact JSON integer is taken as it is, and any
/// other number is refused.
#[verifier::external_body]
fn request_timeout(ms: u64) -> (r: Option<u64>)
    ensures
        r == (if MIN_REQUEST_TIMEOUT_MS <= ms <= MAX_REQUEST_TIMEOUT_MS {
            Some(ms)
        } else {
            None
        }),
{
    match devicerail_client::protocol::RequestTimeoutMs::new(ms) {
        Some(timeout) => Some(timeout.get()),
        None => None,
    }
}

/// The nearest budget that a request can carry.
pub open spec fn clamped(ms: u64) -> u64 {
    if ms < MIN_REQUEST_TIMEOUT_MS {
        MIN_REQUEST_TIMEOUT_MS
    } else if ms > MAX_REQUEST_TIMEOUT_MS {
        MAX_REQUEST_TIMEOUT_MS
    } else {
        ms
    }
}

/// An optional budget, brought into range.
pub open spec fn opt_clamped(ms: Option<u64>) -> Option<u64> {
    match ms {
        Some(v) => Some(clamped(v)),
        None => None,
    }
}

/// Brings a budget into the range that a request can carry.
pub fn clamp_timeout(ms: u64) -> (r: u64)
    ensures
        r == clamped(ms),
{
    let near = if ms < MIN_REQUEST_TIMEOUT_MS {
        MIN_REQUEST_TIMEOUT_MS
    } else if ms > MAX_REQUEST_TIMEOUT_MS {
        MAX_REQUEST_TIMEOUT_MS
    } else {
        ms
    };
    match request_timeout(near) {
        Some(timeout) => timeout,
        None => {
            vstd::pervasive::unreached()
        },
    }
}

/// Brings an optional budget into the range that a request can carry.
pub fn opt_clamp(ms: Option<u64>) -> (r: Option<u64>)
    ensures
        r == opt_clamped(ms),
{
    match ms {
        Some(v) => Some(clamp_timeout(v)),
        None => None,
    }
}

/// A failed call with a local budget.
#[derive(Debug, PartialEq, Eq)]
pub enum BoundedError {
    /// The call itself failed.
    Client(ClientError),
    /// The local budget ran out; a reply may still come.
    Elapsed {
        /// The budget.
        budget_ms: u64,
    },
}

impl BoundedError {
    /// The text of the failure.
    pub open spec fn text(self) -> Seq<char> {
        match self {
            BoundedError::Client(error) => error.text@,
            BoundedError::Elapsed { budget_ms } => "provider-local "@ + text::decimal(
                budget_ms as nat,
            ) + "ms budget elapsed while waiting for the response"@,
        }
    }

    /// The provider error in the given context.
    pub open spec fn error_in(self, context: Seq<char>) -> ProviderErrorV {
        match self {
            BoundedError::Client(error) => error_map::client_error_view(error, context),
            BoundedError::Elapsed { budget_ms } => ProviderErrorV::concluded(
                ErrorClass::ActionTimedOut,
                context + ": provider-local "@ + text::decimal(budget_ms as nat)
                    + "ms budget elapsed; the response may still be in flight (04 §9.7)"@,
            ),
        }
    }

    /// The text of the failure.
    pub fn describe(&self) -> (r: String)
        ensures
            r@ == self.text(),
    {
        match self {
            BoundedError::Client(error) => error.text.clone(),
            BoundedError::Elapsed { budget_ms } => concat3(
                "provider-local ",
                decimal_text(*budget_ms).as_str(),
                "ms budget elapsed while waiting for the response",
            ),
        }
    }

    /// The provider error in the given context. A local budget that ran out
    /// leaves the outcome open and counts as a timeout.
    pub fn into_provider_error(self, context: &str) -> (r: ProviderError)
        ensures
            r@ == self.error_in(context@),
    {
        match self {
            BoundedError::Client(error) => provider_error_from_client(error, context),
            BoundedError::Elapsed { budget_ms } => ProviderError::concluded(
                ErrorClass::ActionTimedOut,
                concat4(
                    context,
                    ": provider-local ",
                    decimal_text(budget_ms).as_str(),
                    "ms budget elapsed; the response may still be in flight (04 §9.7)",
                ),
            ),
        }
    }
}

/// The budgets of an action and of its request, or why they cannot be. A
/// request budget that the caller gives stands; else it is the action's budget
/// and the margin.
pub open spec fn budgets_of(action_ms: Option<u64>, request_ms: Option<u64>) -> Result<
    (Option<u64>, Option<u64>),
    ProviderErrorV,
> {
    match (action_ms, request_ms) {
        (Some(action), Some(envelope)) => if action >= envelope {
            Err(
                ProviderErrorV::concluded(
                    ErrorClass::BindArgumentsInvalid,
                    "budget invariant violated: actionTimeoutMs ("@ + text::decimal(action as nat)
                        + ") must be strictly below the request envelope timeoutMs ("@
                        + text::decimal(envelope as nat) + ") (04 §9.7 invariant 1)"@,
                ),
            )
        } else {
            Ok((Some(action), Some(envelope)))
        },
        (None, Some(envelope)) => Ok((None, Some(envelope))),
        (Some(action), None) => Ok(
            (
                Some(action),
                Some(
                    if action + ENVELOPE_MARGIN_MS <= u64::MAX {
                        (action + ENVELOPE_MARGIN_MS) as u64
                    } else {
                        u64::MAX
                    },
                ),
            ),
        ),
        (None, None) => Ok((None, None)),
    }
}

/// The budgets of an action and of its request.
pub fn execute_budgets(call: &BoundActionCall) -> (r: Result<
    (Option<u64>, Option<u64>),
    ProviderError,
>)
    ensures
        crate::devicerail::convert::with_view(r) == budgets_of(
            call.action_timeout_ms,
            call.request_timeout_ms,
        ),
{
    match (call.action_timeout_ms, call.request_timeout_ms) {
        (Some(action), Some(envelope)) => {
            if action >= envelope {
                return Err(
                    ProviderError::concluded(
                        ErrorClass::BindArgumentsInvalid,
                        concat5(
                            "budget invariant violated: actionTimeoutMs (",
                            decimal_text(action).as_str(),
                            ") must be strictly below the request envelope timeoutMs (",
                            decimal_text(envelope).as_str(),
                            ") (04 §9.7 invariant 1)",
                        ),
                    ),
                );
            }
            Ok((Some(action), Some(envelope)))
        },
        (None, Some(envelope)) => Ok((None, Some(envelope))),
        (Some(action), None) => Ok((Some(action), Some(action.saturating_add(ENVELOPE_MARGIN_MS)))),
        (None, None) => Ok((None, None)),
    }
}

/// The budget of an action lies strictly below that of its request, so a
/// timeout is the action's own. The greatest number without a request budget
/// is left out: no request budget can be greater.
pub proof fn law_action_times_out_first(action_ms: Option<u64>, request_ms: Option<u64>)
    requires
        !(action_ms == Some(u64::MAX) && request_ms is None),
    ensures
        budgets_of(action_ms, request_ms) matches Ok((Some(a), Some(e))) ==> a < e,
        budgets_of(action_ms, request_ms) matches Ok((Some(a), e)) ==> e is Some,
{
}

/// A budget that a request carries is in range, and bringing it into range
/// again changes nothing.
pub proof fn law_clamped_budgets_are_in_range(ms: u64)
    ensures
        MIN_REQUEST_TIMEOUT_MS <= clamped(ms) <= MAX_REQUEST_TIMEOUT_MS,
        clamped(clamped(ms)) == clamped(ms),
        MIN_REQUEST_TIMEOUT_MS <= ms <= MAX_REQUEST_TIMEOUT_MS ==> clamped(ms) == ms,
{
}

} // verus!
