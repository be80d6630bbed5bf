//! The decisions of one open session.
//!
//! Each operation is split where the daemon is asked: what is decided before
//! the request, and what is made of the reply.

use vstd::prelude::*;

use crate::devicerail::budget;
use crate::devicerail::budget::{
    clamp_timeout, execute_budgets, opt_clamp, BoundedError, DEFAULT_CALL_BUDGET_MS,
};
use crate::devicerail::convert;
use crate::devicerail::convert::{
    action_outcome_from_wire, action_result_from_wire, observation_from_wire,
};
use crate::devicerail::error_map;
use crate::devicerail::error_map::{
    cancelled_before_dispatch, execute_terminal_from_rpc, provider_error_from_client, session_gone,
};
use crate::devicerail::scan;
use crate::devicerail::scan::{
    floor_after, latest_sequence, CallFate, CallScan, CursorStep, ScanStep,
};
use crate::devicerail::wire::{
    ClientError, ClientFailure, LogEvent, WireActionResult, WireObservation,
};
use crate::ids;
use crate::ids::parse_uuid;
use crate::ir::record::EventCursor;
use crate::ir::runtime;
use crate::ir::runtime::{
    ActionOutcome, ActionOutcomeV, ActionResult, ActionResultV, AssetRef, FateV, Observation,
    ReconcileResult,
};
use crate::ir::vocab::{ErrorClass, ScreenshotOmissionReason, UiSnapshotOmissionReason};
use crate::json::{Json, JsonV};
use crate::keyed::Keyed;
use crate::kit::error::{ProviderError, ProviderErrorV};
use crate::kit::lockfile::CapabilityAttestation;
use crate::kit::spi;
use crate::kit::spi::{
    has_want, now_ms, observation_projection, synthetic_observation_wants, BoundActionCall,
    ObserveWant, SessionHealth, SessionOutcome, UiSnapshotOutcome, UiSnapshotV, VerdictWrite,
    VERDICT_EVIDENCE_MAX_ENTRIES, VERDICT_SUMMARY_MAX_CHARS,
};
use crate::sets::TextSet;
use crate::text;
use crate::text::{chars_of, concat, concat3, concat5, decimal_text, same_text};
use crate::wire::Wire;

verus! {

/// One open session: what was attested, and what the session remembers.
#[derive(Debug, PartialEq, Eq)]
pub struct DeviceRailSession {
    /// What the session was attested with.
    pub attestation: CapabilityAttestation,
    /// The id that the daemon gave the session.
    pub session_id: String,
    /// Whether the session has ended.
    pub ended: bool,
    /// The degradation that the daemon reported last.
    pub degraded: Option<String>,
    /// Ids of the actions that were dispatched.
    pub dispatched: TextSet,
    /// Last event sequence that was handed out.
    pub watermark: Option<u64>,
}

/// A session, as contracts see it.
pub struct SessionV {
    /// Id of the session.
    pub session_id: Seq<char>,
    /// Whether the session has ended.
    pub ended: bool,
    /// The degradation that the daemon reported last.
    pub degraded: Option<Seq<char>>,
    /// Ids of the actions that were dispatched.
    pub dispatched: Keyed<()>,
    /// Last event sequence that was handed out.
    pub watermark: Option<u64>,
}

impl DeviceRailSession {
    /// The session, as contracts see it.
    pub open spec fn view(&self) -> SessionV {
        SessionV {
            session_id: self.session_id@,
            ended: self.ended,
            degraded: text::opt_text(self.degraded),
            dispatched: self.dispatched.as_map(),
            watermark: self.watermark,
        }
    }

    /// Whether a feature was negotiated.
    pub open spec fn negotiated(&self, feature: Seq<char>) -> bool {
        self.attestation.features_enabled.as_map().has(feature)
    }
}

/// What `execute` is asked for, as contracts see it.
pub struct CallV {
    /// Action id, as the caller wrote it.
    pub call_id: Seq<char>,
    /// Action name.
    pub name: Seq<char>,
    /// Arguments.
    pub arguments: JsonV,
    /// Budget of the action.
    pub action_ms: Option<u64>,
    /// Budget of the request.
    pub request_ms: Option<u64>,
}

/// A call, as contracts see it.
pub open spec fn call_view(call: BoundActionCall) -> CallV {
    CallV {
        call_id: call.call_id@,
        name: call.action_name@,
        arguments: call.arguments@,
        action_ms: call.action_timeout_ms,
        request_ms: call.request_timeout_ms,
    }
}

/// A request to run an action on the device.
#[derive(Debug, PartialEq, Eq)]
pub struct ExecuteRequest {
    /// Action id.
    pub id: String,
    /// Action name.
    pub name: String,
    /// Arguments.
    pub arguments: Json,
    /// Budget of the action.
    pub action_timeout_ms: Option<u64>,
    /// Budget of the request.
    pub timeout_ms: Option<u64>,
}

/// How a call is served.
#[derive(Debug, PartialEq, Eq)]
pub enum ExecutePlan {
    /// By an observation.
    Observe {
        /// Action id.
        call_id: String,
        /// The parts that are wanted.
        wants: Vec<ObserveWant>,
    },
    /// By an action on the device.
    Dispatch(ExecuteRequest),
}

/// How a call is served, as contracts see it.
pub enum PlanV {
    /// By an observation with these parts.
    Observe(Seq<char>, Seq<ObserveWant>),
    /// By an action on the device.
    Dispatch {
        /// Action id.
        id: Seq<char>,
        /// Action name.
        name: Seq<char>,
        /// Arguments.
        arguments: JsonV,
        /// Budget of the action.
        action_timeout_ms: Option<u64>,
        /// Budget of the request.
        timeout_ms: Option<u64>,
    },
}

impl ExecutePlan {
    /// The plan, as contracts see it.
    pub open spec fn view(&self) -> PlanV {
        match self {
            ExecutePlan::Observe { call_id, wants } => PlanV::Observe(call_id@, wants@),
            ExecutePlan::Dispatch(request) => PlanV::Dispatch {
                id: request.id@,
                name: request.name@,
                arguments: request.arguments@,
                action_timeout_ms: request.action_timeout_ms,
                timeout_ms: request.timeout_ms,
            },
        }
    }
}

/// A plan or a refusal, as contracts see it.
pub open spec fn plan_view(r: Result<ExecutePlan, ProviderError>) -> Result<PlanV, ProviderErrorV> {
    match r {
        Ok(plan) => Ok(plan@),
        Err(e) => Err(e@),
    }
}

/// How a call is served, or why it is refused. An action that is not attested
/// can only be one that an observation serves.
pub open spec fn planned(
    s: SessionV,
    attested: bool,
    call: CallV,
    cancelled: bool,
    parsed: Result<Seq<char>, Seq<char>>,
) -> Result<PlanV, ProviderErrorV> {
    if s.ended {
        Err(error_map::gone_view("execute"@))
    } else if cancelled {
        Err(error_map::cancelled_view())
    } else if !attested {
        match spi::observation_wants(call.name, call.arguments) {
            Err(e) => Err(e),
            Ok(Some(wants)) => Ok(PlanV::Observe(call.call_id, wants)),
            Ok(None) => Err(
                ProviderErrorV::concluded(
                    ErrorClass::CapabilityDrift,
                    "actionName `"@ + call.name
                        + "` is not in the attested action set; refusing to dispatch"@,
                ),
            ),
        }
    } else {
        match parsed {
            Err(refusal) => Err(
                ProviderErrorV::concluded(
                    ErrorClass::BindArgumentsInvalid,
                    "callId must be the runner-generated UUID: "@ + refusal,
                ),
            ),
            Ok(id) => match budget::budgets_of(call.action_ms, call.request_ms) {
                Err(e) => Err(e),
                Ok((action_ms, envelope_ms)) => if s.dispatched.has(id) {
                    Err(
                        ProviderErrorV::concluded(
                            ErrorClass::BindArgumentsInvalid,
                            "duplicate callId "@ + id
                                + ": a retry is a new callId with a new WAL intent (04 §3)"@,
                        ),
                    )
                } else {
                    Ok(
                        PlanV::Dispatch {
                            id,
                            name: call.name,
                            arguments: call.arguments,
                            action_timeout_ms: budget::opt_clamped(action_ms),
                            timeout_ms: budget::opt_clamped(envelope_ms),
                        },
                    )
                },
            },
        }
    }
}

/// The session after a call was planned: a dispatch is remembered.
pub open spec fn after_plan(s: SessionV, plan: Result<PlanV, ProviderErrorV>) -> SessionV {
    match plan {
        Ok(PlanV::Dispatch { id, .. }) => SessionV { dispatched: s.dispatched.with(id, ()), ..s },
        _ => s,
    }
}

/// The session after a failed call: a reported degradation is remembered.
pub open spec fn after_failure(s: SessionV, error: ClientError) -> SessionV {
    match error.failure {
        ClientFailure::RemoteRpc(rpc) => if rpc.data.code@ == "session_degraded"@ {
            SessionV { degraded: Some(rpc.data.message@), ..s }
        } else {
            s
        },
        _ => s,
    }
}

/// The terminal that a failed action stands for, if any.
pub open spec fn failure_terminal(error: ClientError) -> Option<ActionOutcomeV> {
    match error.failure {
        ClientFailure::RemoteRpc(rpc) => error_map::terminal_of(rpc),
        _ => None,
    }
}

/// An observation with the reasons for what is wanted and missing: where the
/// daemon says nothing, a screenshot is missing by policy and a UI snapshot
/// because the driver has none.
pub open spec fn with_omissions(o: Observation, wants: Seq<ObserveWant>) -> Observation {
    Observation {
        screenshot_omission: if wants.contains(ObserveWant::Screenshot) && o.screenshot is None
            && o.screenshot_omission is None {
            Some(ScreenshotOmissionReason::Policy)
        } else {
            o.screenshot_omission
        },
        ui_snapshot_omission: if wants.contains(ObserveWant::UiSnapshot) && o.ui_snapshot is None
            && o.ui_snapshot_omission is None {
            Some(UiSnapshotOmissionReason::DriverUnsupported)
        } else {
            o.ui_snapshot_omission
        },
        ..o
    }
}

/// The omission reason that a name spells.
pub open spec fn named_reason(name: Seq<char>) -> Option<UiSnapshotOmissionReason> {
    if name == "driverUnsupported"@ {
        Some(UiSnapshotOmissionReason::DriverUnsupported)
    } else if name == "policy"@ {
        Some(UiSnapshotOmissionReason::Policy)
    } else if name == "protectedAction"@ {
        Some(UiSnapshotOmissionReason::ProtectedAction)
    } else {
        None
    }
}

/// The omission reason that a JSON value spells: its name, or an object whose
/// only member has that name and no value.
pub open spec fn spelled_reason(value: JsonV) -> Option<UiSnapshotOmissionReason> {
    match value {
        JsonV::Text(name) => named_reason(name),
        JsonV::Object(m) => if m.entries.len() == 1 && m.entries[0].1 == JsonV::Null {
            named_reason(m.entries[0].0)
        } else {
            None
        },
        _ => None,
    }
}

/// Why a UI snapshot is missing, from the details of the error reply.
pub open spec fn reason_in(details: Option<JsonV>) -> UiSnapshotOmissionReason {
    let reason = match details {
        Some(value) => match value.member("omissionReason"@) {
            Some(named) => spelled_reason(named),
            None => None,
        },
        None => None,
    };
    match reason {
        Some(r) => r,
        None => UiSnapshotOmissionReason::DriverUnsupported,
    }
}

fn reason_named(name: &str) -> (r: Option<UiSnapshotOmissionReason>)
    ensures
        r == named_reason(name@),
{
    if same_text(name, "driverUnsupported") {
        Some(UiSnapshotOmissionReason::DriverUnsupported)
    } else if same_text(name, "policy") {
        Some(UiSnapshotOmissionReason::Policy)
    } else if same_text(name, "protectedAction") {
        Some(UiSnapshotOmissionReason::ProtectedAction)
    } else {
        None
    }
}

fn reason_spelled(value: &Json) -> (r: Option<UiSnapshotOmissionReason>)
    ensures
        r == spelled_reason(value@),
{
    match value {
        Json::Text(name) => reason_named(name.as_str()),
        Json::Object(m) => {
            if m.len() == 1 {
                match m.value_at(0) {
                    Json::Null => reason_named(m.key_at(0)),
                    _ => None,
                }
            } else {
                None
            }
        },
        _ => None,
    }
}

fn omission_reason(details: &Option<Json>) -> (r: UiSnapshotOmissionReason)
    ensures
        r == reason_in(crate::json::opt_json(*details)),
{
    let reason = match details {
        Some(value) => match value.member("omissionReason") {
            Some(named) => reason_spelled(named),
            None => None,
        },
        None => None,
    };
    match reason {
        Some(r) => r,
        None => UiSnapshotOmissionReason::DriverUnsupported,
    }
}

/// A snapshot or an error, as contracts see it.
pub open spec fn snapshot_view(r: Result<UiSnapshotOutcome, ProviderError>) -> Result<
    UiSnapshotV,
    ProviderErrorV,
> {
    match r {
        Ok(outcome) => Ok(outcome@),
        Err(e) => Err(e@),
    }
}

/// What a reply on a UI snapshot says. The daemon's word that there is none is
/// an omission with a reason, and no error.
pub open spec fn snapshot_reply(reply: Result<Result<Json, String>, BoundedError>) -> Result<
    UiSnapshotV,
    ProviderErrorV,
> {
    match reply {
        Ok(Ok(snapshot)) => Ok(UiSnapshotV::Available(snapshot@)),
        Ok(Err(detail)) => Err(
            ProviderErrorV::concluded(
                ErrorClass::TransportLost,
                "ui.snapshot.get result failed to re-serialize: "@ + detail@,
            ),
        ),
        Err(error) => match error {
            BoundedError::Client(ClientError { failure: ClientFailure::RemoteRpc(rpc), .. }) => {
                if rpc.data.code@ == "ui_snapshot_unavailable"@ {
                    Ok(UiSnapshotV::Unavailable(reason_in(crate::json::opt_json(rpc.data.details))))
                } else {
                    Err(error.error_in("ui.snapshot.get"@))
                }
            },
            _ => Err(error.error_in("ui.snapshot.get"@)),
        },
    }
}

/// Why a UI snapshot is not asked for, if it is not.
pub open spec fn snapshot_refusal(
    s: SessionV,
    negotiated: bool,
    parsed: Result<Seq<char>, Seq<char>>,
) -> Option<ProviderErrorV> {
    if s.ended {
        Some(error_map::gone_view("uiSnapshot"@))
    } else if !negotiated {
        Some(
            ProviderErrorV::concluded(
                ErrorClass::CapabilityDrift,
                "ui.snapshot.get requires observation.uiSnapshot.v1, which this session did not negotiate (04 §9.2: reaching this is capability drift)"@,
            ),
        )
    } else {
        match parsed {
            Err(refusal) => Some(
                ProviderErrorV::concluded(
                    ErrorClass::BindArgumentsInvalid,
                    "observationId must be the provider-issued UUID: "@ + refusal,
                ),
            ),
            Ok(_) => None,
        }
    }
}

/// Why a verdict is not written, if it is not.
pub open spec fn verdict_refusal(
    s: SessionV,
    negotiated: bool,
    summary: Seq<char>,
    evidence: nat,
) -> Option<ProviderErrorV> {
    if s.ended {
        Some(error_map::gone_view("recordVerdict"@))
    } else if summary.len() > VERDICT_SUMMARY_MAX_CHARS {
        Some(
            ProviderErrorV::concluded(
                ErrorClass::BindArgumentsInvalid,
                "verdict summary is "@ + text::decimal(summary.len())
                    + " chars; the wire cap is 16384 (fail-closed, 04 §5)"@,
            ),
        )
    } else if evidence > VERDICT_EVIDENCE_MAX_ENTRIES {
        Some(
            ProviderErrorV::concluded(
                ErrorClass::BindArgumentsInvalid,
                "verdict cites "@ + text::decimal(evidence)
                    + " evidence entries; the wire cap is 64 (fail-closed, 04 §5)"@,
            ),
        )
    } else if !negotiated {
        Some(gate_view())
    } else {
        None
    }
}

/// The error where verdicts were not negotiated.
pub open spec fn gate_view() -> ProviderErrorV {
    ProviderErrorV::concluded(
        ErrorClass::CapabilityDrift,
        "verdict.record.v1 was not negotiated in this session; the compiler guarantees every IR requires it (04 §9.2) — reaching recordVerdict without it is capability drift"@,
    )
}

/// A step of a reconciliation.
#[derive(Debug, PartialEq, Eq)]
pub enum ReconcileStep {
    /// The answer.
    Answer(ReconcileResult),
    /// The sessions of the daemon are needed.
    ListSessions,
    /// The next page of the event log is needed.
    ReadPage(CallScan),
}

/// A step of a reconciliation, as contracts see it.
pub enum StepV {
    /// The answer.
    Answer(FateV),
    /// The sessions of the daemon are needed.
    ListSessions,
    /// The next page of the event log is needed: the action id, the sequence
    /// to read after, and whether a start has been seen.
    ReadPage(Seq<char>, Option<u64>, bool),
}

impl ReconcileStep {
    /// The step, as contracts see it.
    pub open spec fn view(&self) -> StepV {
        match self {
            ReconcileStep::Answer(result) => StepV::Answer(runtime::fate_view(*result)),
            ReconcileStep::ListSessions => StepV::ListSessions,
            ReconcileStep::ReadPage(search) => StepV::ReadPage(
                search.call_id@,
                search.after,
                search.started,
            ),
        }
    }
}

/// The first step: a cursor of another session and an ended session are
/// answered at once, as their log cannot be read.
pub open spec fn first_step(s: SessionV, issuing: Seq<char>) -> StepV {
    if issuing != s.session_id {
        StepV::Answer(
            FateV::LogUnavailable(
                "the issuing session "@ + issuing + " is not this session ("@ + s.session_id
                    + "); cross-generation log retrieval is not implemented in v0.1"@,
            ),
        )
    } else if s.ended {
        StepV::Answer(
            FateV::LogUnavailable(
                "the provider session has ended; the issuing session's event log is no longer reachable through this connection"@,
            ),
        )
    } else {
        StepV::ListSessions
    }
}

/// The listed session ids or the text of the failure, as contracts see them.
pub open spec fn listed_view(listed: Result<Vec<String>, BoundedError>) -> Result<
    Seq<Seq<char>>,
    Seq<char>,
> {
    match listed {
        Ok(ids) => Ok(text::texts(ids@)),
        Err(e) => Err(e.text()),
    }
}

/// The step after the sessions were listed: without an index that names this
/// session the log cannot be trusted; a text that is no id was never an action.
pub open spec fn listed_step(
    s: SessionV,
    last_sequence: u64,
    parsed: Result<Seq<char>, Seq<char>>,
    listed: Result<Seq<Seq<char>>, Seq<char>>,
) -> StepV {
    match listed {
        Err(failure) => StepV::Answer(
            FateV::LogUnavailable("the daemon's session index is unreadable: "@ + failure),
        ),
        Ok(ids) => if !ids.contains(s.session_id) {
            StepV::Answer(
                FateV::LogUnavailable(
                    "issuing session "@ + s.session_id
                        + " is absent from the daemon's session index (event log cleared or deleted)"@,
                ),
            )
        } else {
            match parsed {
                Err(_) => StepV::Answer(FateV::NeverDispatched),
                Ok(id) => StepV::ReadPage(id, scan::floor_of(last_sequence), false),
            }
        },
    }
}

/// The answer that goes with what the log says.
pub open spec fn answer_of(fate: CallFate) -> FateV {
    match fate {
        CallFate::Completed(outcome) => FateV::Completed(convert::outcome_of(outcome)@),
        CallFate::StartedNoTerminal => FateV::StartedNoTerminal,
        CallFate::NoTrace => FateV::NeverDispatched,
    }
}

/// The step after a page was read, or could not be.
pub open spec fn page_step(
    id: Seq<char>,
    after: Option<u64>,
    started: bool,
    page: Result<Seq<LogEvent>, Seq<char>>,
) -> StepV {
    match page {
        Err(failure) => StepV::Answer(
            FateV::LogUnavailable("event log scan failed mid-range: "@ + failure),
        ),
        Ok(events) => match scan::scan_page(started, events, id) {
            Some(fate) => StepV::Answer(answer_of(fate)),
            None => StepV::ReadPage(
                id,
                scan::after_page(after, events),
                started || scan::has_start(events, id),
            ),
        },
    }
}

/// A page or the text of the failure, as contracts see it.
pub open spec fn page_view(page: Result<Vec<LogEvent>, BoundedError>) -> Result<
    Seq<LogEvent>,
    Seq<char>,
> {
    match page {
        Ok(events) => Ok(events@),
        Err(e) => Err(e.text()),
    }
}

/// A step of a read to the end of the log.
#[derive(Debug, PartialEq, Eq)]
pub enum CursorProgress {
    /// The next page starts after this sequence.
    More(Option<u64>),
    /// The cursor at the end.
    Done(EventCursor),
}

/// The health of a session that the daemon was asked about.
pub open spec fn probed_health(s: SessionV, probe: Result<Seq<char>, Seq<char>>) -> (
    bool,
    Option<Seq<char>>,
) {
    match probe {
        Ok(current) => if current == s.session_id {
            (true, s.degraded)
        } else {
            (
                false,
                Some(
                    "daemon's active session "@ + current + " is not the bound session "@
                        + s.session_id,
                ),
            )
        },
        Err(failure) => (false, Some(failure)),
    }
}

/// A probe of the active session, as contracts see it.
pub open spec fn probe_view(probe: Result<String, BoundedError>) -> Result<Seq<char>, Seq<char>> {
    match probe {
        Ok(current) => Ok(current@),
        Err(e) => Err(e.text()),
    }
}

/// How a session is to be ended.
#[derive(Debug, PartialEq, Eq)]
pub struct SessionEnd {
    /// The outcome.
    pub outcome: SessionOutcome,
    /// The reason.
    pub reason: Option<String>,
}

impl DeviceRailSession {
    /// A session that has just been opened.
    pub fn new(attestation: CapabilityAttestation, session_id: String) -> (r: Self)
        ensures
            r.attestation == attestation,
            r@ == (SessionV {
                session_id: session_id@,
                ended: false,
                degraded: None,
                dispatched: Keyed::none(),
                watermark: None,
            }),
    {
        DeviceRailSession {
            attestation,
            session_id,
            ended: false,
            degraded: None,
            dispatched: TextSet::new(),
            watermark: None,
        }
    }

    /// What the session was attested with.
    pub fn attestation(&self) -> (r: &CapabilityAttestation)
        ensures
            *r == self.attestation,
    {
        &self.attestation
    }

    fn note_degradation(&mut self, error: &ClientError)
        ensures
            final(self)@ == after_failure(old(self)@, *error),
            final(self).attestation == old(self).attestation,
    {
        match &error.failure {
            ClientFailure::RemoteRpc(rpc) => {
                if same_text(rpc.data.code.as_str(), "session_degraded") {
                    self.degraded = Some(rpc.data.message.clone());
                }
            },
            _ => {},
        }
    }

    /// Plans a call: checks it, decides how it is served, and remembers a
    /// dispatch. The caller's id is the one that goes to the device.
    pub fn begin_execute(&mut self, call: BoundActionCall, cancelled: bool) -> (r: Result<
        ExecutePlan,
        ProviderError,
    >)
        ensures
            plan_view(r) == planned(
                old(self)@,
                old(self).attestation.attests(call.action_name@),
                call_view(call),
                cancelled,
                ids::parsed_uuid(call.call_id@),
            ),
            plan_view(r) matches Ok(PlanV::Dispatch { id, .. }) ==> ids::is_written_id(id),
            final(self)@ == after_plan(old(self)@, plan_view(r)),
            final(self).attestation == old(self).attestation,
    {
        let parsed = parse_uuid(call.call_id.as_str());
        self.plan_execute(call, cancelled, parsed)
    }

    /// Plans a call whose action id was parsed.
    pub fn plan_execute(
        &mut self,
        call: BoundActionCall,
        cancelled: bool,
        parsed: Result<String, String>,
    ) -> (r: Result<ExecutePlan, ProviderError>)
        ensures
            plan_view(r) == planned(
                old(self)@,
                old(self).attestation.attests(call.action_name@),
                call_view(call),
                cancelled,
                ids::parsed_view(parsed),
            ),
            final(self)@ == after_plan(old(self)@, plan_view(r)),
            final(self).attestation == old(self).attestation,
    {
        if self.ended {
            return Err(session_gone("execute"));
        }
        if cancelled {
            return Err(cancelled_before_dispatch());
        }
        if self.attestation.actions.get(call.action_name.as_str()).is_none() {
            return match synthetic_observation_wants(&call) {
                Err(error) => Err(error),
                Ok(Some(wants)) => Ok(ExecutePlan::Observe { call_id: call.call_id, wants }),
                Ok(None) => Err(
                    ProviderError::concluded(
                        ErrorClass::CapabilityDrift,
                        concat3(
                            "actionName `",
                            call.action_name.as_str(),
                            "` is not in the attested action set; refusing to dispatch",
                        ),
                    ),
                ),
            };
        }
        let id = match parsed {
            Ok(id) => id,
            Err(refusal) => {
                return Err(
                    ProviderError::concluded(
                        ErrorClass::BindArgumentsInvalid,
                        concat("callId must be the runner-generated UUID: ", refusal.as_str()),
                    ),
                );
            },
        };
        let (action_ms, envelope_ms) = match execute_budgets(&call) {
            Ok(budgets) => budgets,
            Err(error) => {
                return Err(error);
            },
        };
        if self.dispatched.contains(id.as_str()) {
            return Err(
                ProviderError::concluded(
                    ErrorClass::BindArgumentsInvalid,
                    concat3(
                        "duplicate callId ",
                        id.as_str(),
                        ": a retry is a new callId with a new WAL intent (04 §3)",
                    ),
                ),
            );
        }
        self.dispatched.insert(id.as_str());
        Ok(
            ExecutePlan::Dispatch(
                ExecuteRequest {
                    id,
                    name: call.action_name.into_string(),
                    arguments: call.arguments,
                    action_timeout_ms: opt_clamp(action_ms),
                    timeout_ms: opt_clamp(envelope_ms),
                },
            ),
        )
    }

    /// What the reply to an action says. A result is a success. An error reply
    /// that stands for a terminal is that terminal; any other failure leaves
    /// the action's fate open.
    pub fn finish_execute(&mut self, reply: Result<WireActionResult, ClientError>) -> (r: Result<
        ActionOutcome,
        ProviderError,
    >)
        ensures
            match reply {
                Ok(result) => {
                    &&& r == Ok::<ActionOutcome, ProviderError>(
                        ActionOutcome::Succeeded {
                            result: Box::new(convert::action_result_of(result)),
                        },
                    )
                    &&& *final(self) == *old(self)
                },
                Err(error) => match failure_terminal(error) {
                    Some(terminal) => {
                        &&& r matches Ok(outcome)
                        &&& outcome@ == terminal
                        &&& *final(self) == *old(self)
                    },
                    None => {
                        &&& r matches Err(e)
                        &&& e@ == error_map::client_error_view(error, "device.execute"@)
                        &&& final(self)@ == after_failure(old(self)@, error)
                        &&& final(self).attestation == old(self).attestation
                    },
                },
            },
    {
        match reply {
            Ok(result) => Ok(
                ActionOutcome::Succeeded { result: Box::new(action_result_from_wire(result)) },
            ),
            Err(error) => {
                let terminal = match &error.failure {
                    ClientFailure::RemoteRpc(rpc) => execute_terminal_from_rpc(rpc),
                    _ => None,
                };
                match terminal {
                    Some(outcome) => Ok(outcome),
                    None => {
                        self.note_degradation(&error);
                        Err(provider_error_from_client(error, "device.execute"))
                    },
                }
            },
        }
    }

    /// The success of a call that an observation served: its projection is the
    /// output, and the observation itself the state after the action.
    pub fn observed_outcome(
        call_id: String,
        wants: &Vec<ObserveWant>,
        observation: Observation,
        started_at_ms: u64,
        finished_at_ms: u64,
    ) -> (r: ActionOutcome)
        ensures
            r@ == ActionOutcomeV::Succeeded(
                ActionResultV {
                    call_id: call_id@,
                    started_at_ms,
                    finished_at_ms,
                    output: spi::projected(observation@, wants@),
                    before: None,
                    after: Some(observation.wire_json()),
                    evidence: Seq::empty(),
                    execution: None,
                },
            ),
    {
        let output = observation_projection(&observation, wants);
        let result = ActionResult {
            call_id,
            started_at_ms,
            finished_at_ms,
            output,
            before: None,
            after: Some(observation),
            evidence: Vec::new(),
            execution: None,
        };
        assert(result@.evidence =~= Seq::empty());
        ActionOutcome::Succeeded { result: Box::new(result) }
    }

    /// The success of a call that an observation served, finished now.
    pub fn execute_observation(
        call_id: String,
        wants: &Vec<ObserveWant>,
        observation: Observation,
        started_at_ms: u64,
    ) -> (r: ActionOutcome)
        ensures
            r@ matches ActionOutcomeV::Succeeded(result) && result == (ActionResultV {
                call_id: call_id@,
                started_at_ms,
                finished_at_ms: result.finished_at_ms,
                output: spi::projected(observation@, wants@),
                before: None,
                after: Some(observation.wire_json()),
                evidence: Seq::empty(),
                execution: None,
            }),
    {
        Self::observed_outcome(call_id, wants, observation, started_at_ms, now_ms())
    }

    /// The budget of an observation request, or why none is sent.
    pub fn begin_observe(&self, cancelled: bool) -> (r: Result<u64, ProviderError>)
        ensures
            convert::with_view(r) == (if self.ended {
                Err(error_map::gone_view("observe"@))
            } else if cancelled {
                Err(error_map::cancelled_view())
            } else {
                Ok(budget::clamped(DEFAULT_CALL_BUDGET_MS))
            }),
    {
        if self.ended {
            return Err(session_gone("observe"));
        }
        if cancelled {
            return Err(cancelled_before_dispatch());
        }
        Ok(clamp_timeout(DEFAULT_CALL_BUDGET_MS))
    }

    /// What the reply to an observation says, with a reason for every part
    /// that is wanted and missing.
    pub fn finish_observe(
        &mut self,
        wants: &Vec<ObserveWant>,
        reply: Result<WireObservation, ClientError>,
    ) -> (r: Result<Observation, ProviderError>)
        ensures
            match reply {
                Ok(observation) => {
                    &&& r == Ok::<Observation, ProviderError>(
                        with_omissions(convert::observation_of(observation), wants@),
                    )
                    &&& *final(self) == *old(self)
                },
                Err(error) => {
                    &&& r matches Err(e)
                    &&& e@ == error_map::client_error_view(error, "device.observe"@)
                    &&& final(self)@ == after_failure(old(self)@, error)
                    &&& final(self).attestation == old(self).attestation
                },
            },
    {
        match reply {
            Ok(seen) => {
                let mut observation = observation_from_wire(seen);
                if has_want(wants, ObserveWant::Screenshot) && observation.screenshot.is_none()
                    && observation.screenshot_omission.is_none() {
                    observation.screenshot_omission = Some(ScreenshotOmissionReason::Policy);
                }
                if has_want(wants, ObserveWant::UiSnapshot) && observation.ui_snapshot.is_none()
                    && observation.ui_snapshot_omission.is_none() {
                    observation.ui_snapshot_omission = Some(
                        UiSnapshotOmissionReason::DriverUnsupported,
                    );
                }
                Ok(observation)
            },
            Err(error) => {
                self.note_degradation(&error);
                Err(provider_error_from_client(error, "device.observe"))
            },
        }
    }

    /// The id under which a UI snapshot is asked for, or why it is not.
    pub fn begin_ui_snapshot(&self, observation_id: &str) -> (r: Result<String, ProviderError>)
        ensures
            match snapshot_refusal(
                self@,
                self.negotiated("observation.uiSnapshot.v1"@),
                ids::parsed_uuid(observation_id@),
            ) {
                Some(refusal) => r matches Err(e) && e@ == refusal,
                None => r matches Ok(id) && Ok::<_, Seq<char>>(id@) == ids::parsed_uuid(observation_id@)
                    && ids::is_written_id(id@),
            },
    {
        self.plan_ui_snapshot(parse_uuid(observation_id))
    }

    /// The parsed id under which a UI snapshot is asked for, or why it is not.
    pub fn plan_ui_snapshot(&self, parsed: Result<String, String>) -> (r: Result<
        String,
        ProviderError,
    >)
        ensures
            match snapshot_refusal(
                self@,
                self.negotiated("observation.uiSnapshot.v1"@),
                ids::parsed_view(parsed),
            ) {
                Some(refusal) => r matches Err(e) && e@ == refusal,
                None => r matches Ok(id) && Ok::<String, String>(id) == parsed,
            },
    {
        if self.ended {
            return Err(session_gone("uiSnapshot"));
        }
        if !self.attestation.features_enabled.has("observation.uiSnapshot.v1") {
            return Err(
                ProviderError::concluded(
                    ErrorClass::CapabilityDrift,
                    "ui.snapshot.get requires observation.uiSnapshot.v1, which this session did not negotiate (04 §9.2: reaching this is capability drift)".to_owned(),
                ),
            );
        }
        match parsed {
            Ok(id) => Ok(id),
            Err(refusal) => Err(
                ProviderError::concluded(
                    ErrorClass::BindArgumentsInvalid,
                    concat("observationId must be the provider-issued UUID: ", refusal.as_str()),
                ),
            ),
        }
    }

    /// What the reply on a UI snapshot says: the tree as it could be written,
    /// or the text of the failure to write it.
    pub fn finish_ui_snapshot(reply: Result<Result<Json, String>, BoundedError>) -> (r: Result<
        UiSnapshotOutcome,
        ProviderError,
    >)
        ensures
            snapshot_view(r) == snapshot_reply(reply),
    {
        match reply {
            Ok(Ok(snapshot)) => Ok(UiSnapshotOutcome::Available { snapshot }),
            Ok(Err(detail)) => Err(
                ProviderError::concluded(
                    ErrorClass::TransportLost,
                    concat(
                        "ui.snapshot.get result failed to re-serialize: ",
                        detail.as_str(),
                    ),
                ),
            ),
            Err(error) => {
                match &error {
                    BoundedError::Client(failed) => match &failed.failure {
                        ClientFailure::RemoteRpc(rpc) => {
                            if same_text(rpc.data.code.as_str(), "ui_snapshot_unavailable") {
                                return Ok(
                                    UiSnapshotOutcome::Unavailable {
                                        reason: omission_reason(&rpc.data.details),
                                    },
                                );
                            }
                        },
                        _ => {},
                    },
                    BoundedError::Elapsed { budget_ms: _ } => {},
                }
                Err(error.into_provider_error("ui.snapshot.get"))
            },
        }
    }

    /// The first step of a reconciliation.
    pub fn begin_reconcile(&self, issuing: &EventCursor) -> (r: ReconcileStep)
        ensures
            r@ == first_step(self@, issuing.session_id@),
    {
        if !same_text(issuing.session_id.as_str(), self.session_id.as_str()) {
            return ReconcileStep::Answer(
                ReconcileResult::LogUnavailable {
                    reason: concat5(
                        "the issuing session ",
                        issuing.session_id.as_str(),
                        " is not this session (",
                        self.session_id.as_str(),
                        "); cross-generation log retrieval is not implemented in v0.1",
                    ),
                },
            );
        }
        if self.ended {
            return ReconcileStep::Answer(
                ReconcileResult::LogUnavailable {
                    reason: "the provider session has ended; the issuing session's event log is no longer reachable through this connection".to_owned(),
                },
            );
        }
        ReconcileStep::ListSessions
    }

    /// The step after the sessions of the daemon were listed.
    pub fn sessions_listed(
        &self,
        call_id: &str,
        issuing: &EventCursor,
        listed: Result<Vec<String>, BoundedError>,
    ) -> (r: ReconcileStep)
        ensures
            r@ == listed_step(
                self@,
                issuing.last_sequence,
                ids::parsed_uuid(call_id@),
                listed_view(listed),
            ),
    {
        self.locate(parse_uuid(call_id), issuing.last_sequence, listed)
    }

    /// The step after the sessions of the daemon were listed, for a parsed
    /// action id.
    pub fn locate(
        &self,
        parsed: Result<String, String>,
        last_sequence: u64,
        listed: Result<Vec<String>, BoundedError>,
    ) -> (r: ReconcileStep)
        ensures
            r@ == listed_step(self@, last_sequence, ids::parsed_view(parsed), listed_view(listed)),
    {
        let ids = match listed {
            Ok(ids) => ids,
            Err(error) => {
                return ReconcileStep::Answer(
                    ReconcileResult::LogUnavailable {
                        reason: concat(
                            "the daemon's session index is unreadable: ",
                            error.describe().as_str(),
                        ),
                    },
                );
            },
        };
        if !lists_text(&ids, self.session_id.as_str()) {
            return ReconcileStep::Answer(
                ReconcileResult::LogUnavailable {
                    reason: concat3(
                        "issuing session ",
                        self.session_id.as_str(),
                        " is absent from the daemon's session index (event log cleared or deleted)",
                    ),
                },
            );
        }
        match parsed {
            Err(_) => ReconcileStep::Answer(ReconcileResult::NeverDispatched),
            Ok(id) => ReconcileStep::ReadPage(CallScan::begin(id, floor_after(last_sequence))),
        }
    }

    /// The step after a page of the event log was read, or could not be. A
    /// recorded terminal is adopted as it is.
    pub fn page_read(search: CallScan, page: Result<Vec<LogEvent>, BoundedError>) -> (r:
        ReconcileStep)
        ensures
            r@ == page_step(search.call_id@, search.after, search.started, page_view(page)),
    {
        match page {
            Err(error) => ReconcileStep::Answer(
                ReconcileResult::LogUnavailable {
                    reason: concat(
                        "event log scan failed mid-range: ",
                        error.describe().as_str(),
                    ),
                },
            ),
            Ok(events) => match search.take_page(events) {
                ScanStep::More(next) => ReconcileStep::ReadPage(next),
                ScanStep::Done(CallFate::Completed(outcome)) => ReconcileStep::Answer(
                    ReconcileResult::Completed {
                        outcome: Box::new(action_outcome_from_wire(outcome)),
                    },
                ),
                ScanStep::Done(CallFate::StartedNoTerminal) => ReconcileStep::Answer(
                    ReconcileResult::StartedNoTerminal,
                ),
                ScanStep::Done(CallFate::NoTrace) => ReconcileStep::Answer(
                    ReconcileResult::NeverDispatched,
                ),
            },
        }
    }

    /// Evidence bytes cannot be had from a daemon: this always fails.
    pub fn fetch_evidence(&self, asset: &AssetRef) -> (r: Result<Vec<u8>, ProviderError>)
        ensures
            r matches Err(e) && e@ == (if self.ended {
                error_map::gone_view("fetchEvidence"@)
            } else {
                ProviderErrorV::concluded(
                    ErrorClass::ActionFailedFinal,
                    "fetchEvidence is unsupported by the DeviceRail wire surface: no byte channel exists for asset URI `"@
                        + asset.uri@
                        + "` (devicerail:// assets are daemon-internal; devicerail-client has no fetch API)"@,
                )
            }),
    {
        if self.ended {
            return Err(session_gone("fetchEvidence"));
        }
        Err(
            ProviderError::concluded(
                ErrorClass::ActionFailedFinal,
                concat3(
                    "fetchEvidence is unsupported by the DeviceRail wire surface: no byte channel exists for asset URI `",
                    asset.uri.as_str(),
                    "` (devicerail:// assets are daemon-internal; devicerail-client has no fetch API)",
                ),
            ),
        )
    }

    /// Whether verdicts may be written: without the feature it is drift.
    pub fn verdict_record_gate(negotiated: bool) -> (r: Result<(), ProviderError>)
        ensures
            convert::with_view(r) == (if negotiated {
                Ok(())
            } else {
                Err(gate_view())
            }),
    {
        if negotiated {
            return Ok(());
        }
        Err(
            ProviderError::concluded(
                ErrorClass::CapabilityDrift,
                "verdict.record.v1 was not negotiated in this session; the compiler guarantees every IR requires it (04 §9.2) — reaching recordVerdict without it is capability drift".to_owned(),
            ),
        )
    }

    /// Whether a verdict may be written. The caps of the wire are checked
    /// before anything is sent.
    pub fn begin_record_verdict(&self, verdict: &VerdictWrite) -> (r: Result<(), ProviderError>)
        ensures
            match verdict_refusal(
                self@,
                self.negotiated("verdict.record.v1"@),
                verdict.summary@,
                verdict.evidence@.len(),
            ) {
                Some(refusal) => r matches Err(e) && e@ == refusal,
                None => r is Ok,
            },
    {
        if self.ended {
            return Err(session_gone("recordVerdict"));
        }
        let summary_chars = chars_of(verdict.summary.as_str()).len();
        if summary_chars > VERDICT_SUMMARY_MAX_CHARS {
            return Err(
                ProviderError::concluded(
                    ErrorClass::BindArgumentsInvalid,
                    concat3(
                        "verdict summary is ",
                        decimal_text(summary_chars as u64).as_str(),
                        " chars; the wire cap is 16384 (fail-closed, 04 §5)",
                    ),
                ),
            );
        }
        if verdict.evidence.len() > VERDICT_EVIDENCE_MAX_ENTRIES {
            return Err(
                ProviderError::concluded(
                    ErrorClass::BindArgumentsInvalid,
                    concat3(
                        "verdict cites ",
                        decimal_text(verdict.evidence.len() as u64).as_str(),
                        " evidence entries; the wire cap is 64 (fail-closed, 04 §5)",
                    ),
                ),
            );
        }
        Self::verdict_record_gate(self.attestation.features_enabled.has("verdict.record.v1"))
    }

    /// What the reply to a written verdict says.
    pub fn finish_record_verdict(reply: Result<(), BoundedError>) -> (r: Result<(), ProviderError>)
        ensures
            match reply {
                Ok(_) => r is Ok,
                Err(error) => r matches Err(e) && e@ == error.error_in("verdict.record"@),
            },
    {
        match reply {
            Ok(_) => Ok(()),
            Err(error) => Err(error.into_provider_error("verdict.record")),
        }
    }

    /// The sequence after which the log is read for the cursor.
    pub fn begin_cursor(&self) -> (r: Result<Option<u64>, ProviderError>)
        ensures
            convert::with_view(r) == (if self.ended {
                Err(error_map::gone_view("currentCursor"@))
            } else {
                Ok(self.watermark)
            }),
    {
        if self.ended {
            return Err(session_gone("currentCursor"));
        }
        Ok(self.watermark)
    }

    /// Takes a page that was read after `after`. At the end of the log the
    /// highest sequence is remembered and handed out.
    pub fn cursor_page(
        &mut self,
        after: Option<u64>,
        page: Result<Vec<LogEvent>, BoundedError>,
    ) -> (r: Result<CursorProgress, ProviderError>)
        ensures
            final(self).attestation == old(self).attestation,
            match page {
                Err(error) => {
                    &&& r matches Err(e)
                    &&& e@ == error.error_in("events.list"@)
                    &&& final(self)@ == old(self)@
                },
                Ok(events) => {
                    let latest = scan::highest(after, events@);
                    if scan::is_last_page(events@) {
                        &&& r matches Ok(CursorProgress::Done(cursor))
                        &&& cursor.session_id@ == old(self)@.session_id
                        &&& cursor.last_sequence == (match latest {
                            Some(sequence) => sequence,
                            None => 0,
                        })
                        &&& final(self)@ == (SessionV {
                            watermark: if latest is Some {
                                latest
                            } else {
                                old(self)@.watermark
                            },
                            ..old(self)@
                        })
                    } else {
                        &&& r == Ok::<CursorProgress, ProviderError>(CursorProgress::More(latest))
                        &&& final(self)@ == old(self)@
                    }
                },
            },
    {
        match page {
            Err(error) => Err(error.into_provider_error("events.list")),
            Ok(events) => match latest_sequence(after, &events) {
                CursorStep::More(next) => Ok(CursorProgress::More(next)),
                CursorStep::Done(latest) => {
                    let last_sequence = match latest {
                        Some(sequence) => {
                            self.watermark = Some(sequence);
                            sequence
                        },
                        None => 0,
                    };
                    Ok(
                        CursorProgress::Done(
                            EventCursor { session_id: self.session_id.clone(), last_sequence },
                        ),
                    )
                },
            },
        }
    }

    /// The health of an ended session; an active one has to be probed.
    pub fn begin_health(&self) -> (r: Option<SessionHealth>)
        ensures
            match r {
                Some(health) => self.ended && !health.ok && text::opt_text(health.degraded)
                    == self@.degraded,
                None => !self.ended,
            },
    {
        if self.ended {
            Some(SessionHealth { ok: false, degraded: self.degraded.clone() })
        } else {
            None
        }
    }

    /// The health of a session whose daemon was asked for its active session.
    /// A probe that fails is bad health and no error.
    pub fn finish_health(&self, probe: Result<String, BoundedError>) -> (r: SessionHealth)
        ensures
            (r.ok, text::opt_text(r.degraded)) == probed_health(self@, probe_view(probe)),
    {
        match probe {
            Ok(current) => {
                if same_text(current.as_str(), self.session_id.as_str()) {
                    SessionHealth { ok: true, degraded: self.degraded.clone() }
                } else {
                    let tail = concat(
                        " is not the bound session ",
                        self.session_id.as_str(),
                    );
                    SessionHealth {
                        ok: false,
                        degraded: Some(
                            concat3("daemon's active session ", current.as_str(), tail.as_str()),
                        ),
                    }
                }
            },
            Err(error) => SessionHealth { ok: false, degraded: Some(error.describe()) },
        }
    }

    /// Ends the session and says what to tell the daemon. Ending an ended
    /// session changes nothing and tells nothing.
    pub fn begin_end(&mut self, outcome: SessionOutcome, reason: Option<String>) -> (r: Option<
        SessionEnd,
    >)
        ensures
            final(self)@ == (SessionV { ended: true, ..old(self)@ }),
            final(self).attestation == old(self).attestation,
            r == (if old(self).ended {
                None
            } else {
                Some(SessionEnd { outcome, reason })
            }),
    {
        if self.ended {
            return None;
        }
        self.ended = true;
        Some(SessionEnd { outcome, reason })
    }
}

fn lists_text(ids: &Vec<String>, id: &str) -> (r: bool)
    ensures
        r == text::texts(ids@).contains(id@),
{
    let ghost all = text::texts(ids@);
    let mut i: usize = 0;
    while i < ids.len()
        invariant
            all == text::texts(ids@),
            i <= ids@.len(),
            forall|j: int| 0 <= j < i ==> #[trigger] all[j] != id@,
        decreases ids@.len() - i,
    {
        assert(all[i as int] == ids@[i as int]@);
        if same_text(ids[i].as_str(), id) {
            return true;
        }
        i = i + 1;
    }
    false
}

} // verus!
