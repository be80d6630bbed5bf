//! What a run asks of a provider: the values that go in and come out, and the
//! actions that a provider serves from its own observations.

use vstd::prelude::*;

use crate::ir::primitives::{ActionName, FeatureId};
use crate::ir::runtime::{AssetRef, Observation, ObservationV};
use crate::ir::vocab::{ErrorClass, UiSnapshotOmissionReason, VerdictStatus};
use crate::json;
use crate::json::{Json, JsonMap, JsonV, Members};
use crate::kit::error::{ProviderError, ProviderErrorV};
use crate::text;
use crate::text::{concat, concat3, quote_text, same_text};
use crate::wire;
use crate::wire::{duplicate_some, some_json, Duplicate, Wire};

verus! {

/// Cap on the summary of a recorded verdict, in characters.
pub const VERDICT_SUMMARY_MAX_CHARS: usize = 16384;

/// Cap on the evidence entries of a recorded verdict.
pub const VERDICT_EVIDENCE_MAX_ENTRIES: usize = 64;

/// How to open a session.
#[derive(Debug, PartialEq, Eq)]
pub struct OpenSessionOptions {
    /// Endpoint in the shape that the provider defines.
    pub endpoint: Json,
    /// Device to bind.
    pub device_id: String,
    /// Features that the flow requires.
    pub required_features: Vec<FeatureId>,
    /// Digest that the live world must match.
    pub lockfile_digest: crate::ir::primitives::Hash,
}

impl Wire for OpenSessionOptions {
    open spec fn wire_json(&self) -> JsonV {
        Members::none()
            .with("endpoint"@, self.endpoint.wire_json())
            .with("deviceId"@, self.device_id.wire_json())
            .with("requiredFeatures"@, self.required_features.wire_json())
            .with("lockfileDigest"@, self.lockfile_digest.wire_json())
            .object()
    }

    fn to_json(&self) -> (r: Json) {
        JsonMap::new()
            .with("endpoint", self.endpoint.to_json())
            .with("deviceId", self.device_id.to_json())
            .with("requiredFeatures", self.required_features.to_json())
            .with("lockfileDigest", self.lockfile_digest.to_json())
            .object()
    }
}

impl Duplicate for OpenSessionOptions {
    fn duplicate(&self) -> (r: Self) {
        OpenSessionOptions {
            endpoint: self.endpoint.duplicate(),
            device_id: self.device_id.duplicate(),
            required_features: self.required_features.duplicate(),
            lockfile_digest: self.lockfile_digest.duplicate(),
        }
    }
}

impl Clone for OpenSessionOptions {
    fn clone(&self) -> (r: Self)
        ensures
            r.wire_json() == self.wire_json(),
    {
        self.duplicate()
    }
}

/// An action call that is ready to be dispatched.
#[derive(Debug, PartialEq, Eq)]
pub struct BoundActionCall {
    /// Action id; used as it is.
    pub call_id: String,
    /// Native action name.
    pub action_name: ActionName,
    /// Evaluated arguments.
    pub arguments: Json,
    /// Budget of the action in milliseconds.
    pub action_timeout_ms: Option<u64>,
    /// Budget of the request in milliseconds.
    pub request_timeout_ms: Option<u64>,
}

impl Wire for BoundActionCall {
    open spec fn wire_json(&self) -> JsonV {
        Members::none()
            .with("callId"@, self.call_id.wire_json())
            .with("actionName"@, self.action_name.wire_json())
            .with("arguments"@, self.arguments.wire_json())
            .with_some("actionTimeoutMs"@, wire::wire_some(self.action_timeout_ms))
            .with_some("requestTimeoutMs"@, wire::wire_some(self.request_timeout_ms))
            .object()
    }

    fn to_json(&self) -> (r: Json) {
        JsonMap::new()
            .with("callId", self.call_id.to_json())
            .with("actionName", self.action_name.to_json())
            .with("arguments", self.arguments.to_json())
            .with_some("actionTimeoutMs", some_json(&self.action_timeout_ms))
            .with_some("requestTimeoutMs", some_json(&self.request_timeout_ms))
            .object()
    }
}

impl Duplicate for BoundActionCall {
    fn duplicate(&self) -> (r: Self) {
        BoundActionCall {
            call_id: self.call_id.duplicate(),
            action_name: self.action_name.duplicate(),
            arguments: self.arguments.duplicate(),
            action_timeout_ms: self.action_timeout_ms,
            request_timeout_ms: self.request_timeout_ms,
        }
    }
}

impl Clone for BoundActionCall {
    fn clone(&self) -> (r: Self)
        ensures
            r.wire_json() == self.wire_json(),
    {
        self.duplicate()
    }
}

/// A part that an explicit observation should hold.
#[derive(Debug, Clone, Copy, PartialEq, Eq, PartialOrd, Ord, Hash, Structural)]
pub enum ObserveWant {
    /// A screenshot.
    Screenshot,
    /// A UI-tree snapshot.
    UiSnapshot,
}

impl ObserveWant {
    /// The wire spelling.
    pub open spec fn wire(self) -> Seq<char> {
        match self {
            ObserveWant::Screenshot => "screenshot"@,
            ObserveWant::UiSnapshot => "uiSnapshot"@,
        }
    }

    /// The wire spelling.
    pub fn wire_name(self) -> (r: &'static str)
        ensures
            r@ == self.wire(),
    {
        match self {
            ObserveWant::Screenshot => "screenshot",
            ObserveWant::UiSnapshot => "uiSnapshot",
        }
    }
}

impl Wire for ObserveWant {
    open spec fn wire_json(&self) -> JsonV {
        JsonV::Text(self.wire())
    }

    fn to_json(&self) -> (r: Json) {
        Json::text(self.wire_name())
    }
}

impl Duplicate for ObserveWant {
    fn duplicate(&self) -> (r: Self) {
        *self
    }
}

/// What an observation should hold.
#[derive(Debug, PartialEq, Eq)]
pub struct ObserveRequest {
    /// The parts that the caller needs.
    pub wants: Vec<ObserveWant>,
}

impl Wire for ObserveRequest {
    open spec fn wire_json(&self) -> JsonV {
        Members::none().with("wants"@, self.wants.wire_json()).object()
    }

    fn to_json(&self) -> (r: Json) {
        JsonMap::new().with("wants", self.wants.to_json()).object()
    }
}

impl Duplicate for ObserveRequest {
    fn duplicate(&self) -> (r: Self) {
        ObserveRequest {
            wants: self.wants.duplicate(),
        }
    }
}

impl Clone for ObserveRequest {
    fn clone(&self) -> (r: Self)
        ensures
            r.wire_json() == self.wire_json(),
    {
        self.duplicate()
    }
}

/// What dereferencing the UI tree of an observation gave.
#[derive(Debug, PartialEq, Eq)]
pub enum UiSnapshotOutcome {
    /// The tree.
    Available {
        /// The normalized UI tree.
        snapshot: Json,
    },
    /// A typed omission.
    Unavailable {
        /// Why the tree cannot be read.
        reason: UiSnapshotOmissionReason,
    },
}

/// What dereferencing a UI tree gave, as contracts see it.
pub enum UiSnapshotV {
    /// The tree.
    Available(JsonV),
    /// A typed omission.
    Unavailable(UiSnapshotOmissionReason),
}

impl UiSnapshotOutcome {
    /// The outcome, as contracts see it.
    pub open spec fn view(&self) -> UiSnapshotV {
        match self {
            UiSnapshotOutcome::Available { snapshot } => UiSnapshotV::Available(snapshot@),
            UiSnapshotOutcome::Unavailable { reason } => UiSnapshotV::Unavailable(*reason),
        }
    }
}

/// A verdict that is written back to a provider.
#[derive(Debug, PartialEq, Eq)]
pub struct VerdictWrite {
    /// Three-valued status.
    pub status: VerdictStatus,
    /// Summary.
    pub summary: String,
    /// Cited evidence.
    pub evidence: Vec<AssetRef>,
}

impl Wire for VerdictWrite {
    open spec fn wire_json(&self) -> JsonV {
        Members::none()
            .with("status"@, self.status.wire_json())
            .with("summary"@, self.summary.wire_json())
            .with("evidence"@, self.evidence.wire_json())
            .object()
    }

    fn to_json(&self) -> (r: Json) {
        JsonMap::new()
            .with("status", self.status.to_json())
            .with("summary", self.summary.to_json())
            .with("evidence", self.evidence.to_json())
            .object()
    }
}

impl Duplicate for VerdictWrite {
    fn duplicate(&self) -> (r: Self) {
        VerdictWrite {
            status: self.status,
            summary: self.summary.duplicate(),
            evidence: self.evidence.duplicate(),
        }
    }
}

impl Clone for VerdictWrite {
    fn clone(&self) -> (r: Self)
        ensures
            r.wire_json() == self.wire_json(),
    {
        self.duplicate()
    }
}

/// Health of a session.
#[derive(Debug, PartialEq, Eq)]
pub struct SessionHealth {
    /// Whether the session is usable.
    pub ok: bool,
    /// Last degradation reason.
    pub degraded: Option<String>,
}

impl Wire for SessionHealth {
    open spec fn wire_json(&self) -> JsonV {
        Members::none()
            .with("ok"@, self.ok.wire_json())
            .with_some("degraded"@, wire::wire_some(self.degraded))
            .object()
    }

    fn to_json(&self) -> (r: Json) {
        JsonMap::new()
            .with("ok", self.ok.to_json())
            .with_some("degraded", some_json(&self.degraded))
            .object()
    }
}

impl Duplicate for SessionHealth {
    fn duplicate(&self) -> (r: Self) {
        SessionHealth {
            ok: self.ok,
            degraded: duplicate_some(&self.degraded),
        }
    }
}

impl Clone for SessionHealth {
    fn clone(&self) -> (r: Self)
        ensures
            r.wire_json() == self.wire_json(),
    {
        self.duplicate()
    }
}

/// Terminal outcome of a session.
#[derive(Debug, Clone, Copy, PartialEq, Eq, PartialOrd, Ord, Hash, Structural)]
pub enum SessionOutcome {
    /// The run finished.
    Completed,
    /// The run failed.
    Failed,
    /// The run was cancelled.
    Cancelled,
    /// Orderly shutdown.
    Shutdown,
}

impl SessionOutcome {
    /// The wire spelling.
    pub open spec fn wire(self) -> Seq<char> {
        match self {
            SessionOutcome::Completed => "completed"@,
            SessionOutcome::Failed => "failed"@,
            SessionOutcome::Cancelled => "cancelled"@,
            SessionOutcome::Shutdown => "shutdown"@,
        }
    }

    /// The wire spelling.
    pub fn wire_name(self) -> (r: &'static str)
        ensures
            r@ == self.wire(),
    {
        match self {
            SessionOutcome::Completed => "completed",
            SessionOutcome::Failed => "failed",
            SessionOutcome::Cancelled => "cancelled",
            SessionOutcome::Shutdown => "shutdown",
        }
    }
}

impl Wire for SessionOutcome {
    open spec fn wire_json(&self) -> JsonV {
        JsonV::Text(self.wire())
    }

    fn to_json(&self) -> (r: Json) {
        Json::text(self.wire_name())
    }
}

impl Duplicate for SessionOutcome {
    fn duplicate(&self) -> (r: Self) {
        *self
    }
}

/// `std::time::SystemTime::elapsed` of the epoch: the time since then, or
/// nothing when the clock stands before it. Nothing holds of every outcome.
#[verifier::external_body]
fn since_epoch() -> (r: Option<std::time::Duration>)
{
    std::time::UNIX_EPOCH.elapsed().ok()
}

/// `std::time::Duration::as_millis`: the whole milliseconds of a duration. A
/// duration is opaque, so nothing is said of the number.
pub assume_specification[ std::time::Duration::as_millis ](d: &std::time::Duration) -> (r: u128)
;

/// `std::time::Duration::as_secs`: the whole seconds of a duration. A duration
/// is opaque, so nothing is said of the number.
pub assume_specification[ std::time::Duration::as_secs ](d: &std::time::Duration) -> (r: u64)
;

/// A time since the epoch as a number of milliseconds: zero before the epoch,
/// and the greatest number where it does not fit.
pub fn epoch_millis(elapsed: Option<u128>) -> (r: u64)
    ensures
        r == (match elapsed {
            None => 0,
            Some(ms) => if ms <= u64::MAX {
                ms as u64
            } else {
                u64::MAX
            },
        }),
{
    match elapsed {
        None => 0,
        Some(ms) => if ms <= 0xffff_ffff_ffff_ffff_u128 {
            ms as u64
        } else {
            u64::MAX
        },
    }
}

/// Wall clock in seconds since the epoch; zero before it.
pub(crate) fn now_seconds() -> u64 {
    match since_epoch() {
        Some(elapsed) => elapsed.as_secs(),
        None => 0,
    }
}

/// Wall clock in milliseconds since the epoch.
pub fn now_ms() -> u64 {
    match since_epoch() {
        Some(elapsed) => epoch_millis(Some(elapsed.as_millis())),
        None => epoch_millis(None),
    }
}

/// The part that an entry of `wants` names.
pub open spec fn want_of(entry: JsonV) -> Option<ObserveWant> {
    if entry == JsonV::Text("screenshot"@) {
        Some(ObserveWant::Screenshot)
    } else if entry == JsonV::Text("uiSnapshot"@) {
        Some(ObserveWant::UiSnapshot)
    } else {
        None
    }
}

/// The parts that the entries name, or the first entry that names none.
pub open spec fn wants_of(entries: Seq<JsonV>) -> Result<Seq<ObserveWant>, JsonV>
    decreases entries.len(),
{
    if entries.len() == 0 {
        Ok(Seq::empty())
    } else {
        match wants_of(entries.drop_last()) {
            Err(stranger) => Err(stranger),
            Ok(wants) => match want_of(entries.last()) {
                Some(want) => Ok(wants.push(want)),
                None => Err(entries.last()),
            },
        }
    }
}

/// How an entry that names no part is shown: as its text, or as nothing where
/// it is not a text.
pub open spec fn shown_entry(entry: JsonV) -> Seq<char> {
    match entry {
        JsonV::Text(t) => "Some("@ + text::debug_text(t) + ")"@,
        _ => "None"@,
    }
}

/// The parts that a call of an observation action asks for; nothing where the
/// call is of another action.
pub open spec fn observation_wants(action: Seq<char>, arguments: JsonV) -> Result<
    Option<Seq<ObserveWant>>,
    ProviderErrorV,
> {
    if action == "screenshot"@ {
        Ok(Some(seq![ObserveWant::Screenshot]))
    } else if action == "observe"@ {
        match arguments.member("wants"@) {
            Some(JsonV::Array(entries)) => match wants_of(entries) {
                Err(stranger) => Err(
                    ProviderErrorV::concluded(
                        ErrorClass::BindArgumentsInvalid,
                        "`observe` wants an entry outside the closed vocabulary: "@ + shown_entry(
                            stranger,
                        ),
                    ),
                ),
                Ok(wants) => if wants.len() == 0 {
                    Err(
                        ProviderErrorV::concluded(
                            ErrorClass::BindArgumentsInvalid,
                            "`observe` needs at least one part"@,
                        ),
                    )
                } else {
                    Ok(Some(wants))
                },
            },
            _ => Err(
                ProviderErrorV::concluded(
                    ErrorClass::BindArgumentsInvalid,
                    "`observe` requires a `wants` array"@,
                ),
            ),
        }
    } else {
        Ok(None)
    }
}

/// The parts of a call, as contracts see them.
pub open spec fn wants_view(r: Result<Option<Vec<ObserveWant>>, ProviderError>) -> Result<
    Option<Seq<ObserveWant>>,
    ProviderErrorV,
> {
    match r {
        Ok(Some(wants)) => Ok(Some(wants@)),
        Ok(None) => Ok(None),
        Err(e) => Err(e@),
    }
}

fn invalid(detail: String) -> (r: ProviderError)
    ensures
        r@ == ProviderErrorV::concluded(ErrorClass::BindArgumentsInvalid, detail@),
{
    ProviderError::concluded(ErrorClass::BindArgumentsInvalid, detail)
}

/// The parts that a call of an observation action asks for; nothing where the
/// call is of another action. `screenshot` asks for a screenshot; `observe`
/// declares its parts in `wants`.
pub fn synthetic_observation_wants(call: &BoundActionCall) -> (r: Result<
    Option<Vec<ObserveWant>>,
    ProviderError,
>)
    ensures
        wants_view(r) == observation_wants(call.action_name@, call.arguments@),
{
    if same_text(call.action_name.as_str(), "screenshot") {
        let mut wants: Vec<ObserveWant> = Vec::new();
        wants.push(ObserveWant::Screenshot);
        assert(wants@ =~= seq![ObserveWant::Screenshot]);
        return Ok(Some(wants));
    }
    if !same_text(call.action_name.as_str(), "observe") {
        return Ok(None);
    }
    match call.arguments.member("wants") {
        Some(Json::Array(raw)) => {
            proof {
                json::lemma_array_view(*raw);
            }
            let ghost entries = json::json_views(raw@);
            let mut wants: Vec<ObserveWant> = Vec::new();
            let mut i: usize = 0;
            assert(entries.take(0) =~= Seq::<JsonV>::empty());
            while i < raw.len()
                invariant
                    entries == json::json_views(raw@),
                    call.action_name@ == "observe"@,
                    call.action_name@ != "screenshot"@,
                    call.arguments@.member("wants"@) == Some(JsonV::Array(entries)),
                    i <= raw@.len(),
                    wants_of(entries.take(i as int)) == Ok::<Seq<ObserveWant>, JsonV>(wants@),
                decreases raw@.len() - i,
            {
                assert(entries.take(i + 1).drop_last() =~= entries.take(i as int));
                assert(entries.take(i + 1).last() == raw@[i as int]@);
                if raw[i].is_text("screenshot") {
                    wants.push(ObserveWant::Screenshot);
                } else if raw[i].is_text("uiSnapshot") {
                    wants.push(ObserveWant::UiSnapshot);
                } else {
                    proof {
                        lemma_stranger_stays(entries, i + 1);
                    }
                    let shown = match &raw[i] {
                        Json::Text(t) => concat3("Some(", quote_text(t.as_str()).as_str(), ")"),
                        _ => "None".to_owned(),
                    };
                    return Err(
                        invalid(
                            concat(
                                "`observe` wants an entry outside the closed vocabulary: ",
                                shown.as_str(),
                            ),
                        ),
                    );
                }
                i = i + 1;
            }
            assert(entries.take(i as int) =~= entries);
            if wants.len() == 0 {
                return Err(invalid("`observe` needs at least one part".to_owned()));
            }
            Ok(Some(wants))
        },
        _ => Err(invalid("`observe` requires a `wants` array".to_owned())),
    }
}

proof fn lemma_stranger_stays(entries: Seq<JsonV>, n: int)
    requires
        0 <= n <= entries.len(),
        wants_of(entries.take(n)) is Err,
    ensures
        wants_of(entries) == wants_of(entries.take(n)),
    decreases entries.len() - n,
{
    if n < entries.len() {
        assert(entries.take(n + 1).drop_last() =~= entries.take(n));
        lemma_stranger_stays(entries, n + 1);
    } else {
        assert(entries.take(n) =~= entries);
    }
}

/// Whether `want` is among `wants`.
pub fn has_want(wants: &Vec<ObserveWant>, want: ObserveWant) -> (r: bool)
    ensures
        r == wants@.contains(want),
{
    let mut i: usize = 0;
    while i < wants.len()
        invariant
            i <= wants@.len(),
            forall|j: int| 0 <= j < i ==> wants@[j] != want,
        decreases wants@.len() - i,
    {
        if wants[i] == want {
            return true;
        }
        i = i + 1;
    }
    false
}

/// What an observation action puts out: the observation's id and the wanted
/// parts, each with the reason of its omission where there is one.
pub open spec fn projected(o: ObservationV, wants: Seq<ObserveWant>) -> JsonV {
    let named = Members::none().with("observationId"@, JsonV::Text(o.id));
    let shot = if wants.contains(ObserveWant::Screenshot) {
        named.with_some("screenshot"@, o.screenshot).with_some(
            "screenshotOmission"@,
            wire::wire_some(o.screenshot_omission),
        )
    } else {
        named
    };
    let full = if wants.contains(ObserveWant::UiSnapshot) {
        shot.with_some("uiSnapshot"@, o.ui_snapshot).with_some(
            "uiSnapshotOmission"@,
            wire::wire_some(o.ui_snapshot_omission),
        )
    } else {
        shot
    };
    full.object()
}

/// Puts out an observation: its id and the wanted parts, each with the reason
/// of its omission where there is one.
pub fn observation_projection(observation: &Observation, wants: &Vec<ObserveWant>) -> (r: Json)
    ensures
        r@ == projected(observation@, wants@),
{
    let mut out = JsonMap::new().with("observationId", Json::text(observation.id.as_str()));
    if has_want(wants, ObserveWant::Screenshot) {
        out = out.with_some("screenshot", some_json(&observation.screenshot)).with_some(
            "screenshotOmission",
            some_json(&observation.screenshot_omission),
        );
    }
    if has_want(wants, ObserveWant::UiSnapshot) {
        out = out.with_some("uiSnapshot", some_json(&observation.ui_snapshot)).with_some(
            "uiSnapshotOmission",
            some_json(&observation.ui_snapshot_omission),
        );
    }
    out.object()
}

} // verus!
