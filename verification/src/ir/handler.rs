//! Handlers and retry policies. A handler is a strategy mounted on a hook; it
//! yields a disposition and never data.

use vstd::prelude::*;

use crate::ir::flow::FlowRef;
use crate::ir::step::HumanStepIR;
use crate::ir::vocab::{ErrorClass, HandlerHook};
use crate::json::{Json, JsonMap, JsonNumber, JsonV, Members};
use crate::sets::OrdinalSet;
use crate::wire::Wire;

verus! {

/// A handler mounted on a hook.
#[derive(Debug, PartialEq, Eq)]
pub struct HandlerBinding {
    /// The hook this handler fires on.
    pub hook: HandlerHook,
    /// Filter on error classes; legal on `onError` only.
    pub error_classes: Option<OrdinalSet<ErrorClass>>,
    /// What to do when the hook fires.
    pub action: HandlerAction,
    /// Trigger budget.
    pub max_triggers: u32,
}

/// The disposition of a handler. No variant carries data.
#[derive(Debug, PartialEq, Eq)]
pub enum HandlerAction {
    /// Enter the step again from `acting`, with a retry budget of its own.
    Retry {
        /// The retry policy of the new entry.
        policy: RetryPolicy,
    },
    /// Record and move on.
    Continue,
    /// Escalate to a human.
    Escalate {
        /// The embedded human step.
        human: Box<HumanStepIR>,
    },
    /// Abort the run.
    Abort,
    /// Run a repair subflow.
    Repair {
        /// The repair subflow, pinned by its hash.
        flow_ref: FlowRef,
    },
}

/// Retry policy of the act phase.
#[derive(Debug, PartialEq, Eq, Clone)]
pub struct RetryPolicy {
    /// Attempt budget.
    pub max_attempts: u32,
    /// Fixed milliseconds or an exponential schedule.
    pub backoff_ms: BackoffMs,
    /// The error classes that are retried.
    pub retry_on: OrdinalSet<ErrorClass>,
}

impl Wire for RetryPolicy {
    open spec fn wire_json(&self) -> JsonV {
        Members::none()
            .with("maxAttempts"@, self.max_attempts.wire_json())
            .with("backoffMs"@, self.backoff_ms.wire_json())
            .with("retryOn"@, self.retry_on.wire_json())
            .object()
    }

    fn to_json(&self) -> (r: Json) {
        JsonMap::new()
            .with("maxAttempts", self.max_attempts.to_json())
            .with("backoffMs", self.backoff_ms.to_json())
            .with("retryOn", self.retry_on.to_json())
            .object()
    }
}

/// Backoff: a number of milliseconds, or an exponential schedule.
#[derive(Debug, PartialEq, Eq, Clone)]
pub enum BackoffMs {
    /// Fixed backoff in milliseconds.
    Fixed(JsonNumber),
    /// Exponential schedule.
    Schedule(BackoffSchedule),
}

impl Wire for BackoffMs {
    open spec fn wire_json(&self) -> JsonV {
        match self {
            BackoffMs::Fixed(n) => n.wire_json(),
            BackoffMs::Schedule(s) => s.wire_json(),
        }
    }

    fn to_json(&self) -> (r: Json) {
        match self {
            BackoffMs::Fixed(n) => n.to_json(),
            BackoffMs::Schedule(s) => s.to_json(),
        }
    }
}

/// Exponential backoff schedule.
#[derive(Debug, PartialEq, Eq, Clone)]
pub struct BackoffSchedule {
    /// Initial delay in milliseconds.
    pub initial: JsonNumber,
    /// Multiplication factor.
    pub factor: JsonNumber,
    /// Delay ceiling in milliseconds.
    pub max: JsonNumber,
}

impl Wire for BackoffSchedule {
    open spec fn wire_json(&self) -> JsonV {
        Members::none()
            .with("initial"@, self.initial.wire_json())
            .with("factor"@, self.factor.wire_json())
            .with("max"@, self.max.wire_json())
            .object()
    }

    fn to_json(&self) -> (r: Json) {
        JsonMap::new()
            .with("initial", self.initial.to_json())
            .with("factor", self.factor.to_json())
            .with("max", self.max.to_json())
            .object()
    }
}

} // verus!
