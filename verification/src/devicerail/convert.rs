//! Transcription of daemon values, field by field.
//!
//! Two values narrow on the way: of a UI snapshot only the evidence is kept,
//! and a timeout loses its budget, which the caller set in the first place.

use vstd::prelude::*;

use crate::devicerail::wire::{
    ActionDefinition, Platform, WireActionOutcome, WireActionResult, WireObservation,
    WireUiSnapshotRef, WireViewport,
};
use crate::ir::primitives;
use crate::ir::primitives::{ActionName, JsonSchemaDocument};
use crate::ir::runtime::{ActionOutcome, ActionResult, Observation, UiSnapshotRef, Viewport};
use crate::ir::vocab::ErrorClass;
use crate::json;
use crate::kit::error::{ProviderError, ProviderErrorV};
use crate::kit::manifest::{ActionDefinitionStatic, PlatformKind};
use crate::text::{concat, concat3, concat4};

verus! {

/// A viewport, transcribed.
pub open spec fn viewport_of(v: WireViewport) -> Viewport {
    Viewport { width: v.width as u64, height: v.height as u64, scale_factor: v.scale_factor }
}

/// A reference to a UI snapshot, transcribed.
pub open spec fn ui_snapshot_of(s: Option<WireUiSnapshotRef>) -> Option<UiSnapshotRef> {
    match s {
        Some(snapshot) => Some(UiSnapshotRef { evidence: snapshot.evidence }),
        None => None,
    }
}

/// An observation, transcribed.
pub open spec fn observation_of(o: WireObservation) -> Observation {
    Observation {
        id: o.id,
        device_id: o.device_id,
        captured_at_ms: o.captured_at_ms,
        viewport: viewport_of(o.viewport),
        screenshot: o.screenshot,
        screenshot_omission: o.screenshot_omission,
        ui_snapshot: ui_snapshot_of(o.ui_snapshot),
        ui_snapshot_omission: o.ui_snapshot_omission,
        metadata: o.metadata,
    }
}

/// Transcribes an observation.
pub fn observation_from_wire(observation: WireObservation) -> (r: Observation)
    ensures
        r == observation_of(observation),
{
    let viewport = observation.viewport;
    Observation {
        id: observation.id,
        device_id: observation.device_id,
        captured_at_ms: observation.captured_at_ms,
        viewport: Viewport {
            width: viewport.width as u64,
            height: viewport.height as u64,
            scale_factor: viewport.scale_factor,
        },
        screenshot: observation.screenshot,
        screenshot_omission: observation.screenshot_omission,
        ui_snapshot: match observation.ui_snapshot {
            Some(snapshot) => Some(UiSnapshotRef { evidence: snapshot.evidence }),
            None => None,
        },
        ui_snapshot_omission: observation.ui_snapshot_omission,
        metadata: observation.metadata,
    }
}

/// An optional observation, transcribed.
pub open spec fn opt_observation_of(o: Option<WireObservation>) -> Option<Observation> {
    match o {
        Some(observation) => Some(observation_of(observation)),
        None => None,
    }
}

fn opt_observation(o: Option<WireObservation>) -> (r: Option<Observation>)
    ensures
        r == opt_observation_of(o),
{
    match o {
        Some(observation) => Some(observation_from_wire(observation)),
        None => None,
    }
}

/// The result of an action, transcribed.
pub open spec fn action_result_of(a: WireActionResult) -> ActionResult {
    ActionResult {
        call_id: a.call_id,
        started_at_ms: a.started_at_ms,
        finished_at_ms: a.finished_at_ms,
        output: a.output,
        before: opt_observation_of(a.before),
        after: opt_observation_of(a.after),
        evidence: a.evidence,
        execution: a.execution,
    }
}

/// Transcribes the result of an action. How the action was carried out passes
/// through as it is.
pub fn action_result_from_wire(result: WireActionResult) -> (r: ActionResult)
    ensures
        r == action_result_of(result),
{
    ActionResult {
        call_id: result.call_id,
        started_at_ms: result.started_at_ms,
        finished_at_ms: result.finished_at_ms,
        output: result.output,
        before: opt_observation(result.before),
        after: opt_observation(result.after),
        evidence: result.evidence,
        execution: result.execution,
    }
}

/// A terminal, transcribed.
pub open spec fn outcome_of(o: WireActionOutcome) -> ActionOutcome {
    match o {
        WireActionOutcome::Succeeded { result } => ActionOutcome::Succeeded {
            result: Box::new(action_result_of(*result)),
        },
        WireActionOutcome::Failed { error } => ActionOutcome::Failed { error },
        WireActionOutcome::Cancelled { error } => ActionOutcome::Cancelled { error },
        WireActionOutcome::TimedOut { error, timeout_ms } => ActionOutcome::TimedOut { error },
    }
}

/// Transcribes a terminal.
pub fn action_outcome_from_wire(outcome: WireActionOutcome) -> (r: ActionOutcome)
    ensures
        r == outcome_of(outcome),
{
    match outcome {
        WireActionOutcome::Succeeded { result } => ActionOutcome::Succeeded {
            result: Box::new(action_result_from_wire(*result)),
        },
        WireActionOutcome::Failed { error } => ActionOutcome::Failed { error },
        WireActionOutcome::Cancelled { error } => ActionOutcome::Cancelled { error },
        WireActionOutcome::TimedOut { error, timeout_ms: _ } => ActionOutcome::TimedOut { error },
    }
}

/// The platform kind of a device, or why it has none. A simulated device
/// counts as Linux.
pub open spec fn platform_of(platform: Platform) -> Result<PlatformKind, ProviderErrorV> {
    match platform {
        Platform::Web => Ok(PlatformKind::Web),
        Platform::Android => Ok(PlatformKind::Android),
        Platform::Ios => Ok(PlatformKind::Ios),
        Platform::HarmonyOs => Ok(PlatformKind::HarmonyOs),
        Platform::MacOs => Ok(PlatformKind::MacOs),
        Platform::Windows => Ok(PlatformKind::Windows),
        Platform::Linux => Ok(PlatformKind::Linux),
        Platform::Rdp => Ok(PlatformKind::Rdp),
        Platform::Mock => Ok(PlatformKind::Linux),
        Platform::Other(name) => Err(
            ProviderErrorV::concluded(
                ErrorClass::CapabilityDrift,
                "device platform `"@ + name@
                    + "` has no PlatformKind counterpart; the capability lockfile cannot represent it"@,
            ),
        ),
    }
}

/// A result, with its error as contracts see it.
pub open spec fn with_view<T>(r: Result<T, ProviderError>) -> Result<T, ProviderErrorV> {
    match r {
        Ok(value) => Ok(value),
        Err(e) => Err(e@),
    }
}

/// The platform kind of a device. The lock and the attestation use the same
/// mapping, so the substitution for a simulated device cancels out.
pub fn platform_kind_from_wire(platform: &Platform) -> (r: Result<PlatformKind, ProviderError>)
    ensures
        with_view(r) == platform_of(*platform),
{
    match platform {
        Platform::Web => Ok(PlatformKind::Web),
        Platform::Android => Ok(PlatformKind::Android),
        Platform::Ios => Ok(PlatformKind::Ios),
        Platform::HarmonyOs => Ok(PlatformKind::HarmonyOs),
        Platform::MacOs => Ok(PlatformKind::MacOs),
        Platform::Windows => Ok(PlatformKind::Windows),
        Platform::Linux => Ok(PlatformKind::Linux),
        Platform::Rdp => Ok(PlatformKind::Rdp),
        Platform::Mock => Ok(PlatformKind::Linux),
        Platform::Other(name) => Err(
            ProviderError::concluded(
                ErrorClass::CapabilityDrift,
                concat3(
                    "device platform `",
                    name.as_str(),
                    "` has no PlatformKind counterpart; the capability lockfile cannot represent it",
                ),
            ),
        ),
    }
}

/// Why an action of a device cannot be listed in a lockfile.
pub open spec fn definition_fault(action: ActionDefinition) -> Option<Seq<char>> {
    match primitives::action_name_fault(action.name@) {
        Some(reason) => Some(
            "device action name is outside the ActionName grammar: "@ + primitives::rejection(
                "ActionName"@,
                reason,
                action.name@,
            ),
        ),
        None => if primitives::is_schema_document(action.input_schema@) {
            None
        } else {
            Some(
                "device action `"@ + action.name@ + "` carries a non-document inputSchema: "@
                    + primitives::rejection(
                    "JsonSchemaDocument"@,
                    "a JSON Schema document must be an object or a boolean"@,
                    json::compact(action.input_schema@),
                ),
            )
        },
    }
}

/// Whether `d` lists the action of a device: everything but the description,
/// and not served by the provider itself.
pub open spec fn lists(d: ActionDefinitionStatic, action: ActionDefinition) -> bool {
    &&& d.name@ == action.name@
    &&& d.input_schema@ == action.input_schema@
    &&& d.output_schema is None
    &&& d.protection == action.protection
    &&& !d.synthetic
}

/// Transcribes an action of a device. Its description is dropped.
pub fn action_definition_from_wire(action: &ActionDefinition) -> (r: Result<
    ActionDefinitionStatic,
    ProviderError,
>)
    ensures
        match definition_fault(*action) {
            Some(fault) => r matches Err(e) && e@ == ProviderErrorV::concluded(
                ErrorClass::CapabilityDrift,
                fault,
            ),
            None => r matches Ok(d) && lists(d, *action),
        },
{
    let name = match ActionName::new(action.name.as_str()) {
        Ok(name) => name,
        Err(error) => {
            return Err(
                ProviderError::concluded(
                    ErrorClass::CapabilityDrift,
                    concat(
                        "device action name is outside the ActionName grammar: ",
                        error.message().as_str(),
                    ),
                ),
            );
        },
    };
    let input_schema = match JsonSchemaDocument::new(action.input_schema.clone()) {
        Ok(schema) => schema,
        Err(error) => {
            return Err(
                ProviderError::concluded(
                    ErrorClass::CapabilityDrift,
                    concat4(
                        "device action `",
                        action.name.as_str(),
                        "` carries a non-document inputSchema: ",
                        error.message().as_str(),
                    ),
                ),
            );
        },
    };
    Ok(
        ActionDefinitionStatic {
            name,
            input_schema,
            output_schema: None,
            protection: action.protection,
            synthetic: false,
        },
    )
}

} // verus!
