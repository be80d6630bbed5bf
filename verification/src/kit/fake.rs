//! A deterministic, programmable provider: an in-memory world with scripted
//! outcomes and injected faults.
//!
//! Times come from a logical millisecond clock, ids and event sequences from
//! counters, so nothing depends on a wall clock or on chance.
//!
//! A session reads and changes the world through a [`FakeHandle`], which
//! outlives it: what one session journals stays readable to a later one.

use std::collections::VecDeque;
use vstd::prelude::*;
use vstd::string::*;
use vstd::utf8::*;

use crate::ir::canonical;
use crate::ir::canonical::to_canonical_json;
use crate::ir::hash;
use crate::ir::hash::hex_sha256;
use crate::ir::primitives;
use crate::ir::primitives::{FeatureId, JsonSchemaDocument};
use crate::ir::record::EventCursor;
use crate::ir::runtime;
use crate::ir::runtime::{
    ActionOutcome, ActionOutcomeV, ActionResult, ActionResultV, AssetRef, ErrorInfo, ErrorInfoV,
    FateV, Observation, ObservationV, ReconcileResult, UiSnapshotRef, Viewport,
};
use crate::ir::vocab::{
    CanonicalVerb, Channel, ErrorClass, ScreenshotOmissionReason, UiSnapshotOmissionReason,
};
use crate::json;
use crate::json::{Json, JsonMap, JsonNumber, JsonV, Members, NumberV};
use crate::keyed;
use crate::keyed::{Keyed, TextMap};
use crate::kit::error::{ProviderError, ProviderErrorV};
use crate::kit::lockfile;
use crate::kit::lockfile::{
    CapabilityAttestation, CapabilityLockfile, LockfileDevice, LockfileHello, LockfileProvider,
    PeerInfo, ProtocolVersion,
};
use crate::kit::manifest::{
    ActionDefinitionStatic, ActionProtection, ChannelRole, ChannelSupport, FeatureDeclarations,
    PlatformKind, ProtocolRange, ProviderManifest, VerbBinding,
};
use crate::kit::names;
use crate::kit::names::{action, feature};
use crate::kit::spi;
use crate::kit::spi::{
    has_want, observation_projection, synthetic_observation_wants, BoundActionCall,
    ObserveRequest, ObserveWant, OpenSessionOptions, SessionHealth, SessionOutcome,
    UiSnapshotOutcome, UiSnapshotV, VerdictWrite, VERDICT_EVIDENCE_MAX_ENTRIES,
    VERDICT_SUMMARY_MAX_CHARS,
};
use crate::text;
use crate::text::{chars_of, concat, concat3, concat4, concat5, decimal_text, same_text};
use crate::wire;
use crate::wire::{Duplicate, Wire};

verus! {

/// One scripted behaviour of `execute`.
#[derive(Debug, PartialEq, Eq)]
pub enum ScriptedOutcome {
    /// Return this terminal. The dispatch is journaled with it. A success gets
    /// the call id and times of the logical clock.
    Terminal(ActionOutcome),
    /// The transport breaks after the dispatch: it is journaled without a
    /// terminal.
    TransportLostAfterDispatch,
    /// The transport breaks before the dispatch: nothing is journaled.
    TransportLostBeforeDispatch,
}

/// A scripted behaviour, as contracts see it.
pub enum ScriptedV {
    /// Return this terminal.
    Terminal(ActionOutcomeV),
    /// The transport breaks after the dispatch.
    TransportLostAfterDispatch,
    /// The transport breaks before the dispatch.
    TransportLostBeforeDispatch,
}

impl ScriptedOutcome {
    /// The behaviour, as contracts see it.
    pub open spec fn view(&self) -> ScriptedV {
        match self {
            ScriptedOutcome::Terminal(outcome) => ScriptedV::Terminal(outcome@),
            ScriptedOutcome::TransportLostAfterDispatch => ScriptedV::TransportLostAfterDispatch,
            ScriptedOutcome::TransportLostBeforeDispatch => ScriptedV::TransportLostBeforeDispatch,
        }
    }

    /// A minimal success.
    pub fn succeeded() -> (r: Self)
        ensures
            r@ == ScriptedV::Terminal(
                ActionOutcomeV::Succeeded(
                    ActionResultV {
                        call_id: ""@,
                        started_at_ms: 0,
                        finished_at_ms: 0,
                        output: Members::none().object(),
                        before: None,
                        after: None,
                        evidence: Seq::empty(),
                        execution: None,
                    },
                ),
            ),
    {
        let result = ActionResult {
            call_id: "".to_owned(),
            started_at_ms: 0,
            finished_at_ms: 0,
            output: JsonMap::new().object(),
            before: None,
            after: None,
            evidence: Vec::new(),
            execution: None,
        };
        assert(result@.evidence =~= Seq::empty());
        ScriptedOutcome::Terminal(ActionOutcome::Succeeded { result: Box::new(result) })
    }

    /// A failure with the given code.
    pub fn failed(code: &str, retryable: bool) -> (r: Self)
        ensures
            r@ == ScriptedV::Terminal(
                ActionOutcomeV::Failed(
                    error_info(code@, "scripted failure: "@ + code@, retryable),
                ),
            ),
    {
        ScriptedOutcome::Terminal(
            ActionOutcome::Failed {
                error: plain_error(code, concat("scripted failure: ", code), retryable),
            },
        )
    }

    /// A cancellation.
    pub fn cancelled() -> (r: Self)
        ensures
            r@ == ScriptedV::Terminal(
                ActionOutcomeV::Cancelled(
                    error_info("action_cancelled"@, "scripted cancellation"@, false),
                ),
            ),
    {
        ScriptedOutcome::Terminal(
            ActionOutcome::Cancelled {
                error: plain_error("action_cancelled", "scripted cancellation".to_owned(), false),
            },
        )
    }

    /// A timeout.
    pub fn timed_out() -> (r: Self)
        ensures
            r@ == ScriptedV::Terminal(
                ActionOutcomeV::TimedOut(
                    error_info("action_timeout"@, "scripted action budget expiry"@, true),
                ),
            ),
    {
        ScriptedOutcome::Terminal(
            ActionOutcome::TimedOut {
                error: plain_error(
                    "action_timeout",
                    "scripted action budget expiry".to_owned(),
                    true,
                ),
            },
        )
    }
}

/// An error without details.
pub open spec fn error_info(code: Seq<char>, message: Seq<char>, retryable: bool) -> ErrorInfoV {
    ErrorInfoV { code, message, retryable, details: None }
}

fn plain_error(code: &str, message: String, retryable: bool) -> (r: ErrorInfo)
    ensures
        r@ == error_info(code@, message@, retryable),
{
    ErrorInfo { code: code.to_owned(), message, retryable, details: None }
}

/// One dispatch in the journal.
#[derive(Debug, PartialEq, Eq)]
pub struct JournalEntry {
    /// The action id.
    pub call_id: String,
    /// The terminal; none where the action started and never settled.
    pub terminal: Option<ActionOutcome>,
}

/// A dispatch, as contracts see it.
pub struct JournalV {
    /// The action id.
    pub call_id: Seq<char>,
    /// The terminal.
    pub terminal: Option<ActionOutcomeV>,
}

impl JournalEntry {
    /// The dispatch, as contracts see it.
    pub open spec fn view(&self) -> JournalV {
        JournalV {
            call_id: self.call_id@,
            terminal: match self.terminal {
                Some(outcome) => Some(outcome@),
                None => None,
            },
        }
    }
}

/// The world of a fake provider, for sessions to act on and for tests to
/// program and inspect.
#[derive(Debug, PartialEq, Eq)]
pub struct FakeHandle {
    script: VecDeque<ScriptedOutcome>,
    journal: Vec<JournalEntry>,
    verdicts: Vec<VerdictWrite>,
    sequence: u64,
    clock_ms: u64,
    observation_counter: u64,
    session_counter: u64,
    screenshot_omission: Option<ScreenshotOmissionReason>,
    ui_snapshot_omission: Option<UiSnapshotOmissionReason>,
    log_unavailable: Option<String>,
    fetch_unsupported: Option<String>,
    record_verdict_error: Option<String>,
    evidence_store: TextMap<Vec<u8>>,
    injected_ui_snapshot: Option<Json>,
    ui_snapshots: JsonMap,
    ended: Option<(SessionOutcome, Option<String>)>,
}

/// The world, as contracts see it.
pub struct WorldV {
    /// Scripted behaviours that are left.
    pub script: Seq<ScriptedV>,
    /// Dispatches, oldest first.
    pub journal: Seq<JournalV>,
    /// JSON forms of the recorded verdicts, oldest first.
    pub verdicts: Seq<JsonV>,
    /// Event sequence.
    pub sequence: u64,
    /// Logical clock in milliseconds.
    pub clock_ms: u64,
    /// Number of observations.
    pub observation_counter: u64,
    /// Number of sessions.
    pub session_counter: u64,
    /// Injected omission of screenshots.
    pub screenshot_omission: Option<ScreenshotOmissionReason>,
    /// Injected omission of UI snapshots.
    pub ui_snapshot_omission: Option<UiSnapshotOmissionReason>,
    /// Why the event log cannot be read.
    pub log_unavailable: Option<Seq<char>>,
    /// Why evidence cannot be fetched.
    pub fetch_unsupported: Option<Seq<char>>,
    /// Why verdicts cannot be recorded.
    pub record_verdict_error: Option<Seq<char>>,
    /// Evidence bytes by asset id.
    pub evidence_store: Keyed<Seq<u8>>,
    /// The UI snapshot that observations serve.
    pub injected_ui_snapshot: Option<JsonV>,
    /// Served UI snapshots by observation id.
    pub ui_snapshots: Members,
    /// How the session ended.
    pub ended: Option<(SessionOutcome, Option<Seq<char>>)>,
}

/// An ending, as contracts see it.
pub open spec fn ending_view(ended: Option<(SessionOutcome, Option<String>)>) -> Option<
    (SessionOutcome, Option<Seq<char>>),
> {
    match ended {
        Some((outcome, reason)) => Some((outcome, text::opt_text(reason))),
        None => None,
    }
}

/// Evidence bytes by asset id, as contracts see them.
pub open spec fn bytes_view(m: Keyed<Vec<u8>>) -> Keyed<Seq<u8>> {
    keyed::mapped(m, |v: Vec<u8>| v@)
}

impl WorldV {
    /// Whether the counters can still advance.
    pub open spec fn has_room(self) -> bool {
        &&& self.sequence < u64::MAX - 2
        &&& self.clock_ms < u64::MAX - 2
        &&& self.observation_counter < u64::MAX
        &&& self.session_counter < u64::MAX
    }

    /// One millisecond later.
    pub open spec fn ticked(self) -> WorldV {
        WorldV { clock_ms: (self.clock_ms + 1) as u64, ..self }
    }

    /// One event later.
    pub open spec fn bumped(self) -> WorldV {
        WorldV { sequence: (self.sequence + 1) as u64, ..self }
    }

    /// Whether a dispatch with this id is in the journal.
    pub open spec fn journaled(self, call_id: Seq<char>) -> bool {
        exists|i: int| 0 <= i < self.journal.len() && #[trigger] self.journal[i].call_id == call_id
    }

    /// The id of the next observation.
    pub open spec fn next_observation_id(self) -> Seq<char> {
        "obs-"@ + text::decimal((self.observation_counter + 1) as nat)
    }

    /// With evidence bytes registered.
    pub open spec fn with_evidence(self, id: Seq<char>, bytes: Seq<u8>) -> WorldV {
        WorldV { evidence_store: self.evidence_store.with(id, bytes), ..self }
    }
}

/// The JSON form of an asset with these bytes.
pub open spec fn asset_json(id: Seq<char>, media_type: Seq<char>, bytes: Seq<u8>) -> JsonV {
    Members::none().with("id"@, JsonV::Text(id)).with("mediaType"@, JsonV::Text(media_type)).with(
        "uri"@,
        JsonV::Text("fake://assets/"@ + id),
    ).with("sha256"@, JsonV::Text(hash::sha256_hex(bytes))).object()
}

/// The JSON form of the viewport.
pub open spec fn viewport_json() -> JsonV {
    Members::none().with("width"@, json::uint(1080)).with("height"@, json::uint(2400)).with(
        "scaleFactor"@,
        JsonV::Number(NumberV::Decimal("2.0"@)),
    ).object()
}

/// The bytes of the screenshot of an observation.
pub open spec fn screenshot_bytes(observation_id: Seq<char>) -> Seq<u8> {
    encode_utf8("fake-screenshot:"@ + observation_id)
}

/// The bytes of a UI snapshot that was not injected.
pub open spec fn placeholder_bytes(observation_id: Seq<char>) -> Seq<u8> {
    encode_utf8("fake-uitree:"@ + observation_id)
}

/// The bytes of an injected UI snapshot.
pub open spec fn snapshot_bytes(snapshot: JsonV) -> Seq<u8> {
    encode_utf8(canonical::canonical(snapshot))
}

/// The world after it made an observation with a screenshot and, where one is
/// given, a UI snapshot, and that observation.
pub open spec fn synthesized(w: WorldV, device_id: Seq<char>, snapshot: Option<JsonV>) -> (
    WorldV,
    ObservationV,
) {
    let id = w.next_observation_id();
    let shot_id = id + "-screenshot"@;
    let tree_id = id + "-uitree"@;
    let counted = WorldV {
        observation_counter: (w.observation_counter + 1) as u64,
        ..w
    }.ticked();
    let shot = counted.with_evidence(shot_id, screenshot_bytes(id));
    let (after, ui_snapshot) = match snapshot {
        Some(tree) => {
            let stored = shot.with_evidence(tree_id, snapshot_bytes(tree));
            (
                WorldV { ui_snapshots: stored.ui_snapshots.with(id, tree), ..stored },
                Some(
                    snapshot_ref_json(
                        asset_json(tree_id, "application/json"@, snapshot_bytes(tree)),
                    ),
                ),
            )
        },
        None => (shot, None),
    };
    (
        after,
        ObservationV {
            id,
            device_id,
            captured_at_ms: counted.clock_ms,
            viewport: viewport_json(),
            screenshot: Some(asset_json(shot_id, "image/png"@, screenshot_bytes(id))),
            screenshot_omission: None,
            ui_snapshot,
            ui_snapshot_omission: None,
            metadata: Members::none(),
        },
    )
}

/// The JSON form of a reference to UI-tree evidence.
pub open spec fn snapshot_ref_json(evidence: JsonV) -> JsonV {
    Members::none().with("evidence"@, evidence).object()
}

/// The world after an observation with these wants, and that observation. A
/// wanted part is there unless its omission was injected; then the reason is.
pub open spec fn observed(w: WorldV, device_id: Seq<char>, wants: Seq<ObserveWant>) -> (
    WorldV,
    ObservationV,
) {
    let id = w.next_observation_id();
    let shot_id = id + "-screenshot"@;
    let tree_id = id + "-uitree"@;
    let wants_shot = wants.contains(ObserveWant::Screenshot);
    let wants_tree = wants.contains(ObserveWant::UiSnapshot);
    let counted = WorldV {
        observation_counter: (w.observation_counter + 1) as u64,
        ..w
    }.ticked();
    let (shot, screenshot) = if wants_shot && w.screenshot_omission is None {
        (
            counted.with_evidence(shot_id, screenshot_bytes(id)),
            Some(asset_json(shot_id, "image/png"@, screenshot_bytes(id))),
        )
    } else {
        (counted, None)
    };
    let (tree, ui_snapshot) = if wants_tree && w.ui_snapshot_omission is None {
        match w.injected_ui_snapshot {
            Some(injected) => {
                let served = WorldV { ui_snapshots: shot.ui_snapshots.with(id, injected), ..shot };
                (
                    served.with_evidence(tree_id, snapshot_bytes(injected)),
                    Some(
                        snapshot_ref_json(
                            asset_json(tree_id, "application/json"@, snapshot_bytes(injected)),
                        ),
                    ),
                )
            },
            None => (
                shot.with_evidence(tree_id, placeholder_bytes(id)),
                Some(
                    snapshot_ref_json(
                        asset_json(tree_id, "application/json"@, placeholder_bytes(id)),
                    ),
                ),
            ),
        }
    } else {
        (shot, None)
    };
    (
        tree.bumped(),
        ObservationV {
            id,
            device_id,
            captured_at_ms: counted.clock_ms,
            viewport: viewport_json(),
            screenshot,
            screenshot_omission: if wants_shot {
                w.screenshot_omission
            } else {
                None
            },
            ui_snapshot,
            ui_snapshot_omission: if wants_tree {
                w.ui_snapshot_omission
            } else {
                None
            },
            metadata: Members::none(),
        },
    )
}

/// The error of a broken transport.
pub open spec fn transport_lost(context: Seq<char>) -> ProviderErrorV {
    ProviderErrorV {
        client_code: Some("transport_closed"@),
        ..ProviderErrorV::concluded(ErrorClass::TransportLost, "fake transport lost: "@ + context)
    }
}

/// The error of a method on a session that has ended.
pub open spec fn session_ended(method: Seq<char>) -> ProviderErrorV {
    transport_lost("session already ended; "@ + method + " unavailable"@)
}

/// The error of a call whose cancellation came first.
pub open spec fn cancelled_before_dispatch() -> ProviderErrorV {
    ProviderErrorV::concluded(
        ErrorClass::ActionCancelled,
        "cancellation token was already cancelled; no wire request was sent"@,
    )
}

/// The terminal as it is returned: a success gets the call id and the times.
pub open spec fn stamped(outcome: ActionOutcomeV, call_id: Seq<char>, start: u64, end: u64) -> ActionOutcomeV {
    match outcome {
        ActionOutcomeV::Succeeded(result) => ActionOutcomeV::Succeeded(
            ActionResultV { call_id, started_at_ms: start, finished_at_ms: end, ..result },
        ),
        other => other,
    }
}

/// What `execute` does next: the head of the script, or a failure where the
/// script is exhausted.
pub open spec fn next_scripted(script: Seq<ScriptedV>) -> ScriptedV {
    if script.len() > 0 {
        script[0]
    } else {
        ScriptedV::Terminal(
            ActionOutcomeV::Failed(
                error_info(
                    "fake_script_exhausted"@,
                    "FakeProvider script exhausted; push more ScriptedOutcomes"@,
                    false,
                ),
            ),
        )
    }
}

/// What is left of a script after one step.
pub open spec fn script_rest(script: Seq<ScriptedV>) -> Seq<ScriptedV> {
    if script.len() > 0 {
        script.skip(1)
    } else {
        script
    }
}

/// The world after a call of a driver action, and what the call gave. An ended
/// session, a cancelled call, an action that is not attested and an id that is
/// in the journal are refused without touching the world.
pub open spec fn executed(
    w: WorldV,
    attested: bool,
    call_id: Seq<char>,
    action_name: Seq<char>,
    cancelled: bool,
) -> (WorldV, Result<ActionOutcomeV, ProviderErrorV>) {
    if w.ended is Some {
        (w, Err(session_ended("execute"@)))
    } else if cancelled {
        (w, Err(cancelled_before_dispatch()))
    } else if !attested {
        (
            w,
            Err(
                ProviderErrorV::concluded(
                    ErrorClass::CapabilityDrift,
                    "actionName "@ + action_name + " is not attested; refusing to dispatch"@,
                ),
            ),
        )
    } else if w.journaled(call_id) {
        (
            w,
            Err(
                ProviderErrorV::concluded(
                    ErrorClass::BindArgumentsInvalid,
                    "duplicate callId "@ + call_id
                        + ": a retry must be a new callId with a new WAL intent"@,
                ),
            ),
        )
    } else {
        let rest = WorldV { script: script_rest(w.script), ..w };
        match next_scripted(w.script) {
            ScriptedV::Terminal(outcome) => {
                let done = stamped(
                    outcome,
                    call_id,
                    (w.clock_ms + 1) as u64,
                    (w.clock_ms + 2) as u64,
                );
                (
                    WorldV {
                        journal: rest.journal.push(JournalV { call_id, terminal: Some(done) }),
                        ..rest.ticked().ticked().bumped().bumped()
                    },
                    Ok(done),
                )
            },
            ScriptedV::TransportLostAfterDispatch => (
                WorldV {
                    journal: rest.journal.push(JournalV { call_id, terminal: None }),
                    ..rest.bumped()
                },
                Err(transport_lost("connection dropped after dispatch"@)),
            ),
            ScriptedV::TransportLostBeforeDispatch => (
                rest,
                Err(transport_lost("connection dropped before dispatch"@)),
            ),
        }
    }
}

/// The world after a call that an observation serves, and what the call gave.
/// The call starts when the clock stands where it was; the capture moves it on,
/// and the call finishes with the capture.
pub open spec fn served(
    w: WorldV,
    device_id: Seq<char>,
    call_id: Seq<char>,
    wants: Seq<ObserveWant>,
) -> (WorldV, Result<ActionOutcomeV, ProviderErrorV>) {
    let (seen, observation) = observed(w, device_id, wants);
    (
        seen,
        Ok(
            ActionOutcomeV::Succeeded(
                ActionResultV {
                    call_id,
                    started_at_ms: w.clock_ms,
                    finished_at_ms: seen.clock_ms,
                    output: spi::projected(observation, wants),
                    before: None,
                    after: Some(observation.json()),
                    evidence: Seq::empty(),
                    execution: None,
                },
            ),
        ),
    )
}

/// The world after any call, and what the call gave. An ended session refuses
/// whatever is called. On an open one an observation action that is not attested
/// has its arguments read first, so that a fault in them is said even of a
/// cancelled call; otherwise a cancelled call is refused as cancelled. An action
/// that is attested, or that no observation serves, goes by the script.
pub open spec fn performed(
    w: WorldV,
    device_id: Seq<char>,
    attested: bool,
    call_id: Seq<char>,
    action_name: Seq<char>,
    arguments: JsonV,
    cancelled: bool,
) -> (WorldV, Result<ActionOutcomeV, ProviderErrorV>) {
    if attested || w.ended is Some {
        executed(w, attested, call_id, action_name, cancelled)
    } else {
        match spi::observation_wants(action_name, arguments) {
            Err(e) => (w, Err(e)),
            Ok(Some(wants)) => if cancelled {
                (w, Err(cancelled_before_dispatch()))
            } else {
                served(w, device_id, call_id, wants)
            },
            Ok(None) => executed(w, attested, call_id, action_name, cancelled),
        }
    }
}

/// An outcome or an error, as contracts see it.
pub open spec fn outcome_view(r: Result<ActionOutcome, ProviderError>) -> Result<
    ActionOutcomeV,
    ProviderErrorV,
> {
    match r {
        Ok(outcome) => Ok(outcome@),
        Err(e) => Err(e@),
    }
}

/// The first dispatch with this id.
pub open spec fn first_dispatch(journal: Seq<JournalV>, call_id: Seq<char>) -> Option<JournalV>
    decreases journal.len(),
{
    if journal.len() == 0 {
        None
    } else if first_dispatch(journal.drop_last(), call_id) is Some {
        first_dispatch(journal.drop_last(), call_id)
    } else if journal.last().call_id == call_id {
        Some(journal.last())
    } else {
        None
    }
}

/// The fate of a call in this world. A terminal on record is adopted as it is,
/// whatever its kind.
pub open spec fn reconciled(w: WorldV, call_id: Seq<char>) -> FateV {
    match w.log_unavailable {
        Some(reason) => FateV::LogUnavailable(reason),
        None => match first_dispatch(w.journal, call_id) {
            None => FateV::NeverDispatched,
            Some(entry) => match entry.terminal {
                Some(outcome) => FateV::Completed(outcome),
                None => FateV::StartedNoTerminal,
            },
        },
    }
}

/// The error of evidence that cannot be had.
pub open spec fn evidence_error(message: Seq<char>) -> ProviderErrorV {
    ProviderErrorV::concluded(ErrorClass::ActionFailedFinal, message)
}

/// The bytes of an asset, checked against its declared digest.
pub open spec fn fetched(w: WorldV, id: Seq<char>, sha256: Option<Seq<char>>) -> Result<
    Seq<u8>,
    ProviderErrorV,
> {
    if w.ended is Some {
        Err(session_ended("fetch_evidence"@))
    } else if w.fetch_unsupported is Some {
        Err(
            ProviderErrorV {
                client_code: Some("asset_fetch_unsupported"@),
                ..evidence_error("fetch_evidence unsupported: "@ + w.fetch_unsupported->0)
            },
        )
    } else {
        match w.evidence_store.get(id) {
            None => Err(evidence_error("unknown evidence asset: "@ + id)),
            Some(bytes) => match sha256 {
                Some(expected) => if hash::sha256_hex(bytes) != expected {
                    Err(
                        evidence_error(
                            "evidence integrity failure for "@ + id + ": sha256 "@
                                + hash::sha256_hex(bytes) + " != declared "@ + expected,
                        ),
                    )
                } else {
                    Ok(bytes)
                },
                None => Ok(bytes),
            },
        }
    }
}

/// Why a verdict is over the caps, if it is.
pub open spec fn verdict_fault(summary: Seq<char>, evidence: nat) -> Option<Seq<char>> {
    if summary.len() > VERDICT_SUMMARY_MAX_CHARS {
        Some(
            "verdict summary is "@ + text::decimal(summary.len()) + " chars; wire cap is "@
                + text::decimal(VERDICT_SUMMARY_MAX_CHARS as nat)
                + " (fail-closed; compaction is the runner's job)"@,
        )
    } else if evidence > VERDICT_EVIDENCE_MAX_ENTRIES {
        Some(
            "verdict cites "@ + text::decimal(evidence) + " evidence entries; wire cap is "@
                + text::decimal(VERDICT_EVIDENCE_MAX_ENTRIES as nat),
        )
    } else {
        None
    }
}

/// The world after a verdict was written, and whether it was taken.
pub open spec fn recorded(w: WorldV, summary: Seq<char>, evidence: nat, verdict: JsonV) -> (
    WorldV,
    Result<(), ProviderErrorV>,
) {
    if w.ended is Some {
        (w, Err(session_ended("record_verdict"@)))
    } else if w.record_verdict_error is Some {
        (
            w,
            Err(
                ProviderErrorV::concluded(
                    ErrorClass::TransportLost,
                    "scripted verdict.record failure: "@ + w.record_verdict_error->0,
                ),
            ),
        )
    } else {
        match verdict_fault(summary, evidence) {
            Some(fault) => (
                w,
                Err(ProviderErrorV::concluded(ErrorClass::BindArgumentsInvalid, fault)),
            ),
            None => (WorldV { verdicts: w.verdicts.push(verdict), ..w }.bumped(), Ok(())),
        }
    }
}

/// The UI snapshot that an observation id gives.
pub open spec fn snapshot_of(w: WorldV, observation_id: Seq<char>) -> Result<
    UiSnapshotV,
    ProviderErrorV,
> {
    if w.ended is Some {
        Err(session_ended("ui_snapshot"@))
    } else if w.ui_snapshot_omission is Some {
        Ok(UiSnapshotV::Unavailable(w.ui_snapshot_omission->0))
    } else {
        Ok(
            UiSnapshotV::Available(
                match w.ui_snapshots.get(observation_id) {
                    Some(snapshot) => snapshot,
                    None => Members::none()
                        .with("observationId"@, JsonV::Text(observation_id))
                        .with("contexts"@, JsonV::Array(Seq::empty()))
                        .with("nodes"@, JsonV::Array(Seq::empty()))
                        .object(),
                },
            ),
        )
    }
}

/// The session id and the watermark of a session's cursor.
pub open spec fn cursor_of(w: WorldV, session_id: Seq<char>) -> Result<
    (Seq<char>, u64),
    ProviderErrorV,
> {
    if w.ended is Some {
        Err(session_ended("current_cursor"@))
    } else {
        Ok((session_id, w.sequence))
    }
}

/// The world after a session was ended: the first ending stays.
pub open spec fn ended_with(w: WorldV, outcome: SessionOutcome, reason: Option<Seq<char>>) -> WorldV {
    if w.ended is Some {
        w
    } else {
        WorldV { ended: Some((outcome, reason)), ..w }.bumped()
    }
}

fn text_bytes(s: &str) -> (r: Vec<u8>)
    ensures
        r@ == encode_utf8(s@),
{
    vstd::slice::slice_to_vec(s.as_bytes())
}

impl FakeHandle {
    /// The world, as contracts see it.
    pub closed spec fn view(&self) -> WorldV {
        WorldV {
            script: self.script@.map_values(|s: ScriptedOutcome| s@),
            journal: self.journal@.map_values(|e: JournalEntry| e@),
            verdicts: wire::wire_items(self.verdicts@),
            sequence: self.sequence,
            clock_ms: self.clock_ms,
            observation_counter: self.observation_counter,
            session_counter: self.session_counter,
            screenshot_omission: self.screenshot_omission,
            ui_snapshot_omission: self.ui_snapshot_omission,
            log_unavailable: text::opt_text(self.log_unavailable),
            fetch_unsupported: text::opt_text(self.fetch_unsupported),
            record_verdict_error: text::opt_text(self.record_verdict_error),
            evidence_store: bytes_view(self.evidence_store@),
            injected_ui_snapshot: json::opt_json(self.injected_ui_snapshot),
            ui_snapshots: self.ui_snapshots@,
            ended: ending_view(self.ended),
        }
    }

    fn new(script: VecDeque<ScriptedOutcome>) -> (r: Self)
        ensures
            r@ == new_world(script@.map_values(|s: ScriptedOutcome| s@)),
    {
        let r = FakeHandle {
            script,
            journal: Vec::new(),
            verdicts: Vec::new(),
            sequence: 0,
            clock_ms: 0,
            observation_counter: 0,
            session_counter: 0,
            screenshot_omission: None,
            ui_snapshot_omission: None,
            log_unavailable: None,
            fetch_unsupported: None,
            record_verdict_error: None,
            evidence_store: TextMap::new(),
            injected_ui_snapshot: None,
            ui_snapshots: JsonMap::new(),
            ended: None,
        };
        assert(r@.journal =~= Seq::empty());
        assert(r@.verdicts =~= Seq::empty());
        assert(r@.evidence_store.entries =~= Seq::empty());
        r
    }

    /// Whether the counters can still advance.
    pub fn has_room(&self) -> (r: bool)
        ensures
            r == self@.has_room(),
    {
        self.sequence < u64::MAX - 2 && self.clock_ms < u64::MAX - 2 && self.observation_counter
            < u64::MAX && self.session_counter < u64::MAX
    }

    fn tick_ms(&mut self) -> (r: u64)
        requires
            old(self)@.clock_ms < u64::MAX,
        ensures
            final(self)@ == old(self)@.ticked(),
            r == final(self)@.clock_ms,
    {
        self.clock_ms = self.clock_ms + 1;
        self.clock_ms
    }

    fn bump_sequence(&mut self)
        requires
            old(self)@.sequence < u64::MAX,
        ensures
            final(self)@ == old(self)@.bumped(),
    {
        self.sequence = self.sequence + 1;
    }

    /// Makes an asset and registers its bytes.
    fn make_asset(&mut self, id: &str, media_type: &str, bytes: Vec<u8>) -> (r: AssetRef)
        ensures
            final(self)@ == old(self)@.with_evidence(id@, bytes@),
            r.wire_json() == asset_json(id@, media_type@, bytes@),
    {
        let sha256 = hex_sha256(&bytes);
        proof {
            keyed::lemma_mapped(self.evidence_store@, |v: Vec<u8>| v@, id@, bytes);
        }
        self.evidence_store.insert(id, bytes);
        AssetRef {
            id: id.to_owned(),
            media_type: media_type.to_owned(),
            uri: concat("fake://assets/", id),
            sha256: Some(sha256),
        }
    }

    fn next_id(&mut self) -> (r: String)
        requires
            old(self)@.observation_counter < u64::MAX,
        ensures
            r@ == old(self)@.next_observation_id(),
            final(self)@ == (WorldV {
                observation_counter: (old(self)@.observation_counter + 1) as u64,
                ..old(self)@
            }),
    {
        self.observation_counter = self.observation_counter + 1;
        concat("obs-", decimal_text(self.observation_counter).as_str())
    }

    fn serve_snapshot(&mut self, observation_id: &str, snapshot: Json)
        ensures
            final(self)@ == (WorldV {
                ui_snapshots: old(self)@.ui_snapshots.with(observation_id@, snapshot@),
                ..old(self)@
            }),
    {
        let mut taken = JsonMap::new();
        std::mem::swap(&mut taken, &mut self.ui_snapshots);
        self.ui_snapshots = taken.with(observation_id, snapshot);
    }

    /// Makes an observation with a screenshot and, where one is given, a UI
    /// snapshot.
    fn synthesize_observation(&mut self, device_id: &str, ui_snapshot: Option<Json>) -> (r: Observation)
        requires
            old(self)@.clock_ms < u64::MAX,
            old(self)@.observation_counter < u64::MAX,
        ensures
            final(self)@ == synthesized(old(self)@, device_id@, json::opt_json(ui_snapshot)).0,
            r@ == synthesized(old(self)@, device_id@, json::opt_json(ui_snapshot)).1,
    {
        let id = self.next_id();
        let captured_at_ms = self.tick_ms();
        let shot_id = concat(id.as_str(), "-screenshot");
        let shot_bytes = text_bytes(concat("fake-screenshot:", id.as_str()).as_str());
        let screenshot = self.make_asset(shot_id.as_str(), "image/png", shot_bytes);
        let ui_snapshot = match ui_snapshot {
            Some(snapshot) => {
                let bytes = text_bytes(to_canonical_json(&snapshot).as_str());
                let tree_id = concat(id.as_str(), "-uitree");
                let evidence = self.make_asset(tree_id.as_str(), "application/json", bytes);
                self.serve_snapshot(id.as_str(), snapshot);
                Some(UiSnapshotRef { evidence })
            },
            None => None,
        };
        Observation {
            id,
            device_id: device_id.to_owned(),
            captured_at_ms,
            viewport: viewport(),
            screenshot: Some(screenshot),
            screenshot_omission: None,
            ui_snapshot,
            ui_snapshot_omission: None,
            metadata: TextMap::new(),
        }
    }

    /// Appends a scripted behaviour.
    pub fn push_script(&mut self, outcome: ScriptedOutcome)
        ensures
            final(self)@ == (WorldV { script: old(self)@.script.push(outcome@), ..old(self)@ }),
    {
        self.script.push_back(outcome);
        assert(self@.script =~= old(self)@.script.push(outcome@));
    }

    /// Makes the event log unreadable.
    pub fn set_log_unavailable(&mut self, reason: String)
        ensures
            final(self)@ == (WorldV { log_unavailable: Some(reason@), ..old(self)@ }),
    {
        self.log_unavailable = Some(reason);
    }

    /// Makes the event log readable again.
    pub fn clear_log_unavailable(&mut self)
        ensures
            final(self)@ == (WorldV { log_unavailable: None, ..old(self)@ }),
    {
        self.log_unavailable = None;
    }

    /// Makes fetching evidence fail with this reason; none restores it.
    pub fn set_fetch_evidence_unsupported(&mut self, reason: Option<String>)
        ensures
            final(self)@ == (WorldV { fetch_unsupported: text::opt_text(reason), ..old(self)@ }),
    {
        self.fetch_unsupported = reason;
    }

    /// Makes recording verdicts fail with this reason; none restores it.
    pub fn set_record_verdict_error(&mut self, reason: Option<String>)
        ensures
            final(self)@ == (WorldV { record_verdict_error: text::opt_text(reason), ..old(self)@ }),
    {
        self.record_verdict_error = reason;
    }

    /// Makes observations omit their screenshot.
    pub fn set_screenshot_omission(&mut self, reason: Option<ScreenshotOmissionReason>)
        ensures
            final(self)@ == (WorldV { screenshot_omission: reason, ..old(self)@ }),
    {
        self.screenshot_omission = reason;
    }

    /// Makes observations omit their UI snapshot.
    pub fn set_ui_snapshot_omission(&mut self, reason: Option<UiSnapshotOmissionReason>)
        ensures
            final(self)@ == (WorldV { ui_snapshot_omission: reason, ..old(self)@ }),
    {
        self.ui_snapshot_omission = reason;
    }

    /// Registers evidence bytes.
    pub fn insert_evidence(&mut self, asset_id: &str, bytes: Vec<u8>)
        ensures
            final(self)@ == old(self)@.with_evidence(asset_id@, bytes@),
    {
        proof {
            keyed::lemma_mapped(self.evidence_store@, |v: Vec<u8>| v@, asset_id@, bytes);
        }
        self.evidence_store.insert(asset_id, bytes);
    }

    /// Sets the UI snapshot that observations serve; none restores the
    /// placeholder.
    pub fn inject_ui_snapshot(&mut self, snapshot: Option<Json>)
        ensures
            final(self)@ == (WorldV {
                injected_ui_snapshot: json::opt_json(snapshot),
                ..old(self)@
            }),
    {
        self.injected_ui_snapshot = snapshot;
    }

    /// Makes an observation of the default device, with a screenshot and, where
    /// one is given, a UI snapshot.
    pub fn make_observation(&mut self, ui_snapshot: Option<Json>) -> (r: Observation)
        requires
            old(self)@.clock_ms < u64::MAX,
            old(self)@.observation_counter < u64::MAX,
        ensures
            final(self)@ == synthesized(
                old(self)@,
                "fake-device-1"@,
                json::opt_json(ui_snapshot),
            ).0,
            r@ == synthesized(old(self)@, "fake-device-1"@, json::opt_json(ui_snapshot)).1,
    {
        self.make_observation_for("fake-device-1", ui_snapshot)
    }

    /// Makes an observation of the given device.
    pub fn make_observation_for(&mut self, device_id: &str, ui_snapshot: Option<Json>) -> (r: Observation)
        requires
            old(self)@.clock_ms < u64::MAX,
            old(self)@.observation_counter < u64::MAX,
        ensures
            final(self)@ == synthesized(old(self)@, device_id@, json::opt_json(ui_snapshot)).0,
            r@ == synthesized(old(self)@, device_id@, json::opt_json(ui_snapshot)).1,
    {
        self.synthesize_observation(device_id, ui_snapshot)
    }

    /// The verdicts that were taken so far.
    pub fn recorded_verdicts(&self) -> (r: Vec<VerdictWrite>)
        ensures
            wire::wire_items(r@) == self@.verdicts,
    {
        self.verdicts.duplicate()
    }

    /// The ids of the dispatches, oldest first.
    pub fn dispatched_call_ids(&self) -> (r: Vec<String>)
        ensures
            text::texts(r@) == self@.journal.map_values(|e: JournalV| e.call_id),
    {
        let mut out: Vec<String> = Vec::new();
        let mut i: usize = 0;
        while i < self.journal.len()
            invariant
                i <= self.journal@.len(),
                out@.len() == i,
                forall|j: int| 0 <= j < i ==> #[trigger] out@[j]@ == self.journal@[j].call_id@,
            decreases self.journal@.len() - i,
        {
            out.push(self.journal[i].call_id.clone());
            i = i + 1;
        }
        assert(text::texts(out@) =~= self@.journal.map_values(|e: JournalV| e.call_id));
        out
    }

    /// How the session ended, if it did.
    pub fn ended_outcome(&self) -> (r: Option<(SessionOutcome, Option<String>)>)
        ensures
            ending_view(r) == self@.ended,
    {
        match &self.ended {
            Some((outcome, reason)) => {
                let reason = match reason {
                    Some(t) => Some(t.clone()),
                    None => None,
                };
                Some((*outcome, reason))
            },
            None => None,
        }
    }

    fn is_journaled(&self, call_id: &str) -> (r: bool)
        ensures
            r == self@.journaled(call_id@),
    {
        let mut i: usize = 0;
        while i < self.journal.len()
            invariant
                i <= self.journal@.len(),
                self@.journal.len() == self.journal@.len(),
                forall|j: int| 0 <= j < i ==> (#[trigger] self@.journal[j]).call_id != call_id@,
            decreases self.journal@.len() - i,
        {
            assert(self@.journal[i as int] == self.journal@[i as int]@);
            if same_text(self.journal[i].call_id.as_str(), call_id) {
                assert(self@.journal[i as int].call_id == call_id@);
                return true;
            }
            i = i + 1;
        }
        false
    }

    fn journal_dispatch(&mut self, call_id: String, terminal: Option<ActionOutcome>)
        ensures
            final(self)@ == (WorldV {
                journal: old(self)@.journal.push(JournalEntry { call_id, terminal }@),
                ..old(self)@
            }),
    {
        self.journal.push(JournalEntry { call_id, terminal });
        assert(self@.journal =~= old(self)@.journal.push(JournalEntry { call_id, terminal }@));
    }

    fn next_step(&mut self) -> (r: ScriptedOutcome)
        ensures
            final(self)@ == (WorldV { script: script_rest(old(self)@.script), ..old(self)@ }),
            r@ == next_scripted(old(self)@.script),
    {
        match self.script.pop_front() {
            Some(step) => {
                assert(self@.script =~= script_rest(old(self)@.script));
                step
            },
            None => {
                assert(self@.script =~= script_rest(old(self)@.script));
                ScriptedOutcome::Terminal(
                    ActionOutcome::Failed {
                        error: plain_error(
                            "fake_script_exhausted",
                            "FakeProvider script exhausted; push more ScriptedOutcomes".to_owned(),
                            false,
                        ),
                    },
                )
            },
        }
    }
}

/// A world in which nothing has happened yet.
pub open spec fn new_world(script: Seq<ScriptedV>) -> WorldV {
    WorldV {
        script,
        journal: Seq::empty(),
        verdicts: Seq::empty(),
        sequence: 0,
        clock_ms: 0,
        observation_counter: 0,
        session_counter: 0,
        screenshot_omission: None,
        ui_snapshot_omission: None,
        log_unavailable: None,
        fetch_unsupported: None,
        record_verdict_error: None,
        evidence_store: Keyed::none(),
        injected_ui_snapshot: None,
        ui_snapshots: Members::none(),
        ended: None,
    }
}

fn viewport() -> (r: Viewport)
    ensures
        r.wire_json() == viewport_json(),
{
    Viewport { width: 1080, height: 2400, scale_factor: JsonNumber::Decimal("2.0".to_owned()) }
}

/// A session over the world of a fake provider.
#[derive(Debug, PartialEq, Eq)]
pub struct FakeProviderSession {
    /// Session id.
    pub session_id: String,
    /// The bound device.
    pub device_id: String,
    /// What the session was attested with.
    pub attestation: CapabilityAttestation,
}

impl FakeProviderSession {
    fn transport_lost(context: &str) -> (r: ProviderError)
        ensures
            r@ == transport_lost(context@),
    {
        ProviderError::concluded(
            ErrorClass::TransportLost,
            concat("fake transport lost: ", context),
        ).with_client_code("transport_closed".to_owned())
    }

    fn ensure_active(world: &FakeHandle, method: &str) -> (r: Result<(), ProviderError>)
        ensures
            r is Ok <==> world@.ended is None,
            r matches Err(e) ==> e@ == session_ended(method@),
    {
        match world.ended {
            Some(_) => Err(
                Self::transport_lost(
                    concat3("session already ended; ", method, " unavailable").as_str(),
                ),
            ),
            None => Ok(()),
        }
    }

    fn cancelled_before_dispatch() -> (r: ProviderError)
        ensures
            r@ == cancelled_before_dispatch(),
    {
        ProviderError::concluded(
            ErrorClass::ActionCancelled,
            "cancellation token was already cancelled; no wire request was sent".to_owned(),
        )
    }

    /// What the session was attested with.
    pub fn attestation(&self) -> (r: &CapabilityAttestation)
        ensures
            *r == self.attestation,
    {
        &self.attestation
    }

    /// Executes a call. `cancelled` says whether the call was cancelled before
    /// it was made. An action that is attested, or that no observation serves,
    /// goes by the script; other observation actions are served from an
    /// observation. All times come from the logical clock.
    pub fn execute(&self, world: &mut FakeHandle, call: BoundActionCall, cancelled: bool) -> (r: Result<
        ActionOutcome,
        ProviderError,
    >)
        requires
            old(world)@.has_room(),
        ensures
            (final(world)@, outcome_view(r)) == performed(
                old(world)@,
                self.device_id@,
                self.attestation.attests(call.action_name@),
                call.call_id@,
                call.action_name@,
                call.arguments@,
                cancelled,
            ),
    {
        match Self::ensure_active(world, "execute") {
            Err(e) => {
                return Err(e);
            },
            Ok(_) => {},
        }
        let attested = self.attestation.actions.get(call.action_name.as_str()).is_some();
        if !attested {
            match synthetic_observation_wants(&call) {
                Err(e) => {
                    return Err(e);
                },
                Ok(Some(wants)) => {
                    if cancelled {
                        return Err(Self::cancelled_before_dispatch());
                    }
                    return self.execute_observation(world, call.call_id, wants);
                },
                Ok(None) => {},
            }
        }
        if cancelled {
            return Err(Self::cancelled_before_dispatch());
        }
        if !attested {
            return Err(
                ProviderError::concluded(
                    ErrorClass::CapabilityDrift,
                    concat3(
                        "actionName ",
                        call.action_name.as_str(),
                        " is not attested; refusing to dispatch",
                    ),
                ),
            );
        }
        if world.is_journaled(call.call_id.as_str()) {
            return Err(
                ProviderError::concluded(
                    ErrorClass::BindArgumentsInvalid,
                    concat3(
                        "duplicate callId ",
                        call.call_id.as_str(),
                        ": a retry must be a new callId with a new WAL intent",
                    ),
                ),
            );
        }
        match world.next_step() {
            ScriptedOutcome::Terminal(outcome) => {
                let started_at_ms = world.tick_ms();
                let finished_at_ms = world.tick_ms();
                let outcome = match outcome {
                    ActionOutcome::Succeeded { result } => {
                        let result = *result;
                        ActionOutcome::Succeeded {
                            result: Box::new(
                                ActionResult {
                                    call_id: call.call_id.clone(),
                                    started_at_ms,
                                    finished_at_ms,
                                    ..result
                                },
                            ),
                        }
                    },
                    other => other,
                };
                world.bump_sequence();
                world.bump_sequence();
                world.journal_dispatch(call.call_id, Some(outcome.duplicate()));
                Ok(outcome)
            },
            ScriptedOutcome::TransportLostAfterDispatch => {
                world.bump_sequence();
                world.journal_dispatch(call.call_id, None);
                Err(Self::transport_lost("connection dropped after dispatch"))
            },
            ScriptedOutcome::TransportLostBeforeDispatch => {
                Err(Self::transport_lost("connection dropped before dispatch"))
            },
        }
    }

    /// Serves a call from an observation.
    fn execute_observation(
        &self,
        world: &mut FakeHandle,
        call_id: String,
        wants: Vec<ObserveWant>,
    ) -> (r: Result<ActionOutcome, ProviderError>)
        requires
            old(world)@.has_room(),
            old(world)@.ended is None,
        ensures
            (final(world)@, outcome_view(r)) == served(
                old(world)@,
                self.device_id@,
                call_id@,
                wants@,
            ),
    {
        let started_at_ms = world.clock_ms;
        let request = ObserveRequest { wants };
        match self.observe(world, &request, false) {
            Err(e) => Err(e),
            Ok(observation) => {
                let finished_at_ms = world.clock_ms;
                let output = observation_projection(&observation, &request.wants);
                proof {
                    runtime::lemma_observation_json(observation);
                }
                let result = ActionResult {
                    call_id,
                    started_at_ms,
                    finished_at_ms,
                    output,
                    before: None,
                    after: Some(observation),
                    evidence: Vec::new(),
                    execution: None,
                };
                assert(result@.evidence =~= Seq::empty());
                Ok(ActionOutcome::Succeeded { result: Box::new(result) })
            },
        }
    }

    /// Takes an observation. A wanted part is there unless its omission was
    /// injected; then the reason is.
    pub fn observe(&self, world: &mut FakeHandle, req: &ObserveRequest, cancelled: bool) -> (r: Result<
        Observation,
        ProviderError,
    >)
        requires
            old(world)@.sequence < u64::MAX,
            old(world)@.clock_ms < u64::MAX,
            old(world)@.observation_counter < u64::MAX,
        ensures
            r is Ok <==> old(world)@.ended is None && !cancelled,
            r matches Ok(o) ==> final(world)@ == observed(
                old(world)@,
                self.device_id@,
                req.wants@,
            ).0 && o@ == observed(old(world)@, self.device_id@, req.wants@).1,
            r matches Err(e) ==> final(world)@ == old(world)@ && e@ == (if old(world)@.ended is Some {
                session_ended("observe"@)
            } else {
                cancelled_before_dispatch()
            }),
    {
        match Self::ensure_active(world, "observe") {
            Err(e) => {
                return Err(e);
            },
            Ok(_) => {},
        }
        if cancelled {
            return Err(Self::cancelled_before_dispatch());
        }
        let id = world.next_id();
        let captured_at_ms = world.tick_ms();
        let wants_screenshot = has_want(&req.wants, ObserveWant::Screenshot);
        let wants_ui_snapshot = has_want(&req.wants, ObserveWant::UiSnapshot);
        let screenshot_omission = world.screenshot_omission;
        let screenshot = if wants_screenshot && screenshot_omission.is_none() {
            let shot_id = concat(id.as_str(), "-screenshot");
            let bytes = text_bytes(concat("fake-screenshot:", id.as_str()).as_str());
            Some(world.make_asset(shot_id.as_str(), "image/png", bytes))
        } else {
            None
        };
        let ui_snapshot_omission = world.ui_snapshot_omission;
        let ui_snapshot = if wants_ui_snapshot && ui_snapshot_omission.is_none() {
            let tree_id = concat(id.as_str(), "-uitree");
            let injected = match &world.injected_ui_snapshot {
                Some(snapshot) => Some(snapshot.clone()),
                None => None,
            };
            let bytes = match injected {
                Some(snapshot) => {
                    let bytes = text_bytes(to_canonical_json(&snapshot).as_str());
                    world.serve_snapshot(id.as_str(), snapshot);
                    bytes
                },
                None => text_bytes(concat("fake-uitree:", id.as_str()).as_str()),
            };
            Some(
                UiSnapshotRef {
                    evidence: world.make_asset(tree_id.as_str(), "application/json", bytes),
                },
            )
        } else {
            None
        };
        world.bump_sequence();
        Ok(
            Observation {
                id,
                device_id: self.device_id.clone(),
                captured_at_ms,
                viewport: viewport(),
                screenshot,
                screenshot_omission: if wants_screenshot {
                    screenshot_omission
                } else {
                    None
                },
                ui_snapshot,
                ui_snapshot_omission: if wants_ui_snapshot {
                    ui_snapshot_omission
                } else {
                    None
                },
                metadata: TextMap::new(),
            },
        )
    }

    /// Dereferences the UI tree of an observation.
    pub fn ui_snapshot(&self, world: &FakeHandle, observation_id: &str) -> (r: Result<
        UiSnapshotOutcome,
        ProviderError,
    >)
        ensures
            match r {
                Ok(outcome) => snapshot_of(world@, observation_id@) == Ok::<
                    UiSnapshotV,
                    ProviderErrorV,
                >(outcome@),
                Err(e) => snapshot_of(world@, observation_id@) == Err::<UiSnapshotV, ProviderErrorV>(
                    e@,
                ),
            },
    {
        match Self::ensure_active(world, "ui_snapshot") {
            Err(e) => {
                return Err(e);
            },
            Ok(_) => {},
        }
        if let Some(reason) = world.ui_snapshot_omission {
            return Ok(UiSnapshotOutcome::Unavailable { reason });
        }
        match world.ui_snapshots.get(observation_id) {
            Some(snapshot) => Ok(UiSnapshotOutcome::Available { snapshot: snapshot.clone() }),
            None => {
                let contexts = Json::array(Vec::new());
                let nodes = Json::array(Vec::new());
                assert(contexts@->Array_0 =~= Seq::empty());
                assert(nodes@->Array_0 =~= Seq::empty());
                Ok(
                    UiSnapshotOutcome::Available {
                        snapshot: JsonMap::new().with(
                            "observationId",
                            Json::text(observation_id),
                        ).with("contexts", contexts).with("nodes", nodes).object(),
                    },
                )
            },
        }
    }

    /// Tells the fate of a call. The journal holds the dispatches of all
    /// sessions, so any issuing cursor reads it.
    pub fn reconcile(&self, world: &FakeHandle, call_id: &str, issuing: &EventCursor) -> (r: Result<
        ReconcileResult,
        ProviderError,
    >)
        ensures
            r matches Ok(fate) && runtime::fate_view(fate) == reconciled(world@, call_id@),
    {
        if let Some(reason) = &world.log_unavailable {
            return Ok(ReconcileResult::LogUnavailable { reason: reason.clone() });
        }
        let ghost journal = world@.journal;
        let mut i: usize = 0;
        assert(journal.take(0) =~= Seq::empty());
        while i < world.journal.len()
            invariant
                journal == world@.journal,
                world@.log_unavailable is None,
                i <= world.journal@.len(),
                journal.len() == world.journal@.len(),
                first_dispatch(journal.take(i as int), call_id@) is None,
            decreases world.journal@.len() - i,
        {
            assert(journal[i as int] == world.journal@[i as int]@);
            assert(journal.take(i + 1).drop_last() =~= journal.take(i as int));
            assert(journal.take(i + 1).last() == journal[i as int]);
            if same_text(world.journal[i].call_id.as_str(), call_id) {
                proof {
                    lemma_first_stays(journal, call_id@, i + 1);
                }
                return match &world.journal[i].terminal {
                    Some(outcome) => Ok(
                        ReconcileResult::Completed { outcome: Box::new(outcome.duplicate()) },
                    ),
                    None => Ok(ReconcileResult::StartedNoTerminal),
                };
            }
            i = i + 1;
        }
        assert(journal.take(i as int) =~= journal);
        Ok(ReconcileResult::NeverDispatched)
    }

    /// Fetches the bytes of an asset, checked against its declared digest.
    pub fn fetch_evidence(&self, world: &FakeHandle, asset: &AssetRef) -> (r: Result<
        Vec<u8>,
        ProviderError,
    >)
        ensures
            match r {
                Ok(bytes) => fetched(world@, asset.id@, text::opt_text(asset.sha256)) == Ok::<
                    Seq<u8>,
                    ProviderErrorV,
                >(bytes@),
                Err(e) => fetched(world@, asset.id@, text::opt_text(asset.sha256)) == Err::<
                    Seq<u8>,
                    ProviderErrorV,
                >(e@),
            },
    {
        match Self::ensure_active(world, "fetch_evidence") {
            Err(e) => {
                return Err(e);
            },
            Ok(_) => {},
        }
        if let Some(reason) = &world.fetch_unsupported {
            return Err(
                ProviderError::concluded(
                    ErrorClass::ActionFailedFinal,
                    concat("fetch_evidence unsupported: ", reason.as_str()),
                ).with_client_code("asset_fetch_unsupported".to_owned()),
            );
        }
        proof {
            keyed::lemma_mapped(
                world.evidence_store@,
                |v: Vec<u8>| v@,
                asset.id@,
                world.evidence_store@.get(asset.id@)->0,
            );
        }
        match world.evidence_store.get(asset.id.as_str()) {
            None => Err(
                ProviderError::concluded(
                    ErrorClass::ActionFailedFinal,
                    concat("unknown evidence asset: ", asset.id.as_str()),
                ),
            ),
            Some(stored) => {
                let bytes = vstd::slice::slice_to_vec(stored.as_slice());
                if let Some(expected) = &asset.sha256 {
                    let actual = hex_sha256(&bytes);
                    if !same_text(actual.as_str(), expected.as_str()) {
                        return Err(
                            ProviderError::concluded(
                                ErrorClass::ActionFailedFinal,
                                concat(
                                    concat5(
                                        "evidence integrity failure for ",
                                        asset.id.as_str(),
                                        ": sha256 ",
                                        actual.as_str(),
                                        " != declared ",
                                    ).as_str(),
                                    expected.as_str(),
                                ),
                            ),
                        );
                    }
                }
                Ok(bytes)
            },
        }
    }

    /// Records a verdict. A summary or an evidence list over its cap is
    /// refused.
    pub fn record_verdict(&self, world: &mut FakeHandle, verdict: VerdictWrite) -> (r: Result<
        (),
        ProviderError,
    >)
        requires
            old(world)@.sequence < u64::MAX,
        ensures
            final(world)@ == recorded(
                old(world)@,
                verdict.summary@,
                verdict.evidence@.len(),
                verdict.wire_json(),
            ).0,
            unit_view(r) == recorded(
                old(world)@,
                verdict.summary@,
                verdict.evidence@.len(),
                verdict.wire_json(),
            ).1,
    {
        match Self::ensure_active(world, "record_verdict") {
            Err(e) => {
                return Err(e);
            },
            Ok(_) => {},
        }
        if let Some(reason) = &world.record_verdict_error {
            return Err(
                ProviderError::concluded(
                    ErrorClass::TransportLost,
                    concat("scripted verdict.record failure: ", reason.as_str()),
                ),
            );
        }
        match over_caps(&verdict) {
            Some(fault) => Err(ProviderError::concluded(ErrorClass::BindArgumentsInvalid, fault)),
            None => {
                let ghost form = verdict.wire_json();
                world.verdicts.push(verdict);
                assert(world@.verdicts =~= old(world)@.verdicts.push(form));
                world.bump_sequence();
                Ok(())
            },
        }
    }

    /// The cursor of this session. An ended session has none.
    pub fn current_cursor(&self, world: &FakeHandle) -> (r: Result<EventCursor, ProviderError>)
        ensures
            match r {
                Ok(cursor) => cursor_of(world@, self.session_id@) == Ok::<
                    (Seq<char>, u64),
                    ProviderErrorV,
                >((cursor.session_id@, cursor.last_sequence)),
                Err(e) => cursor_of(world@, self.session_id@) == Err::<
                    (Seq<char>, u64),
                    ProviderErrorV,
                >(e@),
            },
    {
        match Self::ensure_active(world, "current_cursor") {
            Err(e) => {
                return Err(e);
            },
            Ok(_) => {},
        }
        Ok(EventCursor { session_id: self.session_id.clone(), last_sequence: world.sequence })
    }

    /// The health of this session.
    pub fn health(&self, world: &FakeHandle) -> (r: Result<SessionHealth, ProviderError>)
        ensures
            r matches Ok(health) && health.ok == (world@.ended is None) && health.degraded is None,
    {
        Ok(SessionHealth { ok: world.ended.is_none(), degraded: None })
    }

    /// Ends the session. Ending an ended session changes nothing.
    pub fn end(&self, world: &mut FakeHandle, outcome: SessionOutcome, reason: Option<String>) -> (r: Result<
        (),
        ProviderError,
    >)
        requires
            old(world)@.sequence < u64::MAX,
        ensures
            r is Ok,
            final(world)@ == ended_with(old(world)@, outcome, text::opt_text(reason)),
    {
        if world.ended.is_some() {
            return Ok(());
        }
        world.ended = Some((outcome, reason));
        world.bump_sequence();
        Ok(())
    }
}

/// Why a verdict is over the caps, if it is.
pub fn over_caps(verdict: &VerdictWrite) -> (r: Option<String>)
    ensures
        text::opt_text(r) == verdict_fault(verdict.summary@, verdict.evidence@.len()),
{
    let summary_chars = chars_of(verdict.summary.as_str()).len();
    if summary_chars > VERDICT_SUMMARY_MAX_CHARS {
        return Some(
            concat5(
                "verdict summary is ",
                decimal_text(summary_chars as u64).as_str(),
                " chars; wire cap is ",
                decimal_text(VERDICT_SUMMARY_MAX_CHARS as u64).as_str(),
                " (fail-closed; compaction is the runner's job)",
            ),
        );
    }
    if verdict.evidence.len() > VERDICT_EVIDENCE_MAX_ENTRIES {
        return Some(
            concat4(
                "verdict cites ",
                decimal_text(verdict.evidence.len() as u64).as_str(),
                " evidence entries; wire cap is ",
                decimal_text(VERDICT_EVIDENCE_MAX_ENTRIES as u64).as_str(),
            ),
        );
    }
    None
}

/// A result without value, as contracts see it.
pub open spec fn unit_view(r: Result<(), ProviderError>) -> Result<(), ProviderErrorV> {
    match r {
        Ok(_) => Ok(()),
        Err(e) => Err(e@),
    }
}

proof fn lemma_first_stays(journal: Seq<JournalV>, call_id: Seq<char>, n: int)
    requires
        0 <= n <= journal.len(),
        first_dispatch(journal.take(n), call_id) is Some,
    ensures
        first_dispatch(journal, call_id) == first_dispatch(journal.take(n), call_id),
    decreases journal.len() - n,
{
    if n < journal.len() {
        assert(journal.take(n + 1).drop_last() =~= journal.take(n));
        lemma_first_stays(journal, call_id, n + 1);
    } else {
        assert(journal.take(n) =~= journal);
    }
}

/// A JSON Schema document from a value that is one.
pub(crate) fn schema(value: Json) -> (r: JsonSchemaDocument)
    requires
        primitives::is_schema_document(value@),
    ensures
        r@ == value@,
{
    match JsonSchemaDocument::new(value) {
        Ok(document) => document,
        Err(_) => vstd::pervasive::unreached(),
    }
}

/// The JSON form of an action without an output schema.
pub open spec fn action_json(name: Seq<char>, input_schema: JsonV, synthetic: bool) -> JsonV {
    Members::none().with("name"@, JsonV::Text(name)).with("inputSchema"@, input_schema).with(
        "protection"@,
        JsonV::Text("standard"@),
    ).with_some("synthetic"@, wire::wire_if_true(synthetic)).object()
}

/// `{"type": "object"}`.
pub open spec fn any_object_schema() -> JsonV {
    Members::none().with("type"@, JsonV::Text("object"@)).object()
}

/// The schema of the arguments of `observe`: a non-empty list of parts.
pub open spec fn observe_schema() -> JsonV {
    Members::none().with("type"@, JsonV::Text("object"@)).with(
        "additionalProperties"@,
        JsonV::Bool(false),
    ).with("required"@, json::text_array(seq!["wants"@])).with(
        "properties"@,
        Members::none().with(
            "wants"@,
            Members::none().with("type"@, JsonV::Text("array"@)).with(
                "minItems"@,
                json::uint(1),
            ).with("uniqueItems"@, JsonV::Bool(true)).with(
                "items"@,
                Members::none().with(
                    "enum"@,
                    json::text_array(seq!["screenshot"@, "uiSnapshot"@]),
                ).object(),
            ).object(),
        ).object(),
    ).object()
}

/// The schema of an action without arguments.
pub open spec fn no_arguments_schema() -> JsonV {
    Members::none().with("type"@, JsonV::Text("object"@)).with(
        "additionalProperties"@,
        JsonV::Bool(false),
    ).with("properties"@, Members::none().object()).object()
}

/// The JSON form of a verb binding; an argument keeps its name.
pub open spec fn binding_json(
    verb: CanonicalVerb,
    action_name: Seq<char>,
    feature: Option<Seq<char>>,
    arg: Option<Seq<char>>,
) -> JsonV {
    Members::none().with("verb"@, JsonV::Text(verb.wire())).with(
        "actionName"@,
        JsonV::Text(action_name),
    ).with_some(
        "requiresFeature"@,
        match feature {
            Some(f) => Some(JsonV::Text(f)),
            None => None,
        },
    ).with(
        "argMap"@,
        match arg {
            Some(a) => Members::none().with(a, JsonV::Text(a)).object(),
            None => Members::none().object(),
        },
    ).object()
}

/// The JSON form of a channel that all platforms have.
pub open spec fn channel_json(channel: Channel, role: ChannelRole, feature: Option<Seq<char>>) -> JsonV {
    Members::none().with("channel"@, JsonV::Text(channel.wire())).with(
        "role"@,
        JsonV::Text(role.wire()),
    ).with_some(
        "requiresFeature"@,
        match feature {
            Some(f) => Some(JsonV::Text(f)),
            None => None,
        },
    ).object()
}

/// The features of the fake provider.
pub open spec fn fake_features() -> Seq<JsonV> {
    seq![
        JsonV::Text("device.semanticActions.v1"@),
        JsonV::Text("observation.uiSnapshot.v1"@),
        JsonV::Text("verdict.record.v1"@),
        JsonV::Text("events.snapshot.v1"@),
        JsonV::Text("request.control.v1"@),
    ]
}

/// The verb bindings of the fake provider.
pub open spec fn fake_bindings() -> Seq<JsonV> {
    let semantic = Some("device.semanticActions.v1"@);
    let element = Some("element"@);
    seq![
        binding_json(CanonicalVerb::Tap, "tapElement"@, semantic, element),
        binding_json(CanonicalVerb::SetValue, "setElementValue"@, semantic, element),
        binding_json(CanonicalVerb::Clear, "clearElement"@, semantic, element),
        binding_json(CanonicalVerb::WaitFor, "waitForElement"@, semantic, element),
        binding_json(CanonicalVerb::Find, "findElement"@, semantic, element),
        binding_json(CanonicalVerb::Observe, "observe"@, semantic, Some("wants"@)),
        binding_json(CanonicalVerb::Screenshot, "screenshot"@, None, None),
    ]
}

/// The channels of the fake provider.
pub open spec fn fake_channels() -> Seq<JsonV> {
    seq![
        channel_json(Channel::UiTree, ChannelRole::Both, Some("observation.uiSnapshot.v1"@)),
        channel_json(Channel::Vision, ChannelRole::Verify, None),
    ]
}

/// The actions of the fake provider: five of its driver, two of its own.
pub open spec fn fake_actions() -> Seq<JsonV> {
    seq![
        action_json("findElement"@, any_object_schema(), false),
        action_json("tapElement"@, any_object_schema(), false),
        action_json("clearElement"@, any_object_schema(), false),
        action_json("setElementValue"@, any_object_schema(), false),
        action_json("waitForElement"@, any_object_schema(), false),
        action_json("observe"@, observe_schema(), true),
        action_json("screenshot"@, no_arguments_schema(), true),
    ]
}

/// The JSON form of the fake provider's manifest.
pub open spec fn fake_manifest() -> JsonV {
    Members::none()
        .with("name"@, JsonV::Text("fake"@))
        .with("version"@, JsonV::Text("0.1.0"@))
        .with(
            "protocol"@,
            Members::none()
                .with("major"@, json::uint(1))
                .with("minMinor"@, json::uint(5))
                .with("maxMinor"@, json::uint(5))
                .object(),
        )
        .with(
            "features"@,
            Members::none()
                .with("guaranteed"@, JsonV::Array(fake_features()))
                .with("conditional"@, JsonV::Array(Seq::empty()))
                .object(),
        )
        .with("verbBindings"@, JsonV::Array(fake_bindings()))
        .with("channels"@, JsonV::Array(fake_channels()))
        .with("knownActions"@, JsonV::Array(fake_actions()))
        .object()
}

/// The JSON forms of the actions that are not the provider's own.
pub open spec fn driver_actions(actions: Seq<ActionDefinitionStatic>) -> Seq<JsonV>
    decreases actions.len(),
{
    if actions.len() == 0 {
        Seq::empty()
    } else if actions.last().synthetic {
        driver_actions(actions.drop_last())
    } else {
        driver_actions(actions.drop_last()).push(actions.last().wire_json())
    }
}

/// Whether `features` holds `feature`.
pub open spec fn lists(features: Seq<FeatureId>, feature: Seq<char>) -> bool {
    exists|i: int| 0 <= i < features.len() && #[trigger] features[i]@ == feature
}

/// The first required feature that is not enabled.
pub open spec fn first_missing(required: Seq<FeatureId>, enabled: Seq<FeatureId>) -> Option<Seq<char>>
    decreases required.len(),
{
    if required.len() == 0 {
        None
    } else if first_missing(required.drop_last(), enabled) is Some {
        first_missing(required.drop_last(), enabled)
    } else if lists(enabled, required.last()@) {
        None
    } else {
        Some(required.last()@)
    }
}

/// Why a session cannot be opened, if it cannot: the world does not have the
/// expected digest, or a required feature is missing.
pub open spec fn open_fault(
    lockfile: CapabilityLockfile,
    digest: Seq<char>,
    required: Seq<FeatureId>,
) -> Option<Seq<char>> {
    if digest != lockfile.digest@ {
        Some(
            "attestation mismatch: live world digest "@ + lockfile.digest@
                + " != expected lockfileDigest "@ + digest,
        )
    } else {
        match first_missing(required, lockfile.hello.features_enabled@) {
            Some(feature) => Some("required feature not negotiated: "@ + feature),
            None => None,
        }
    }
}

/// A deterministic, programmable provider.
#[derive(Debug, PartialEq, Eq)]
pub struct FakeProvider {
    /// The static capability declaration.
    pub manifest: ProviderManifest,
    /// The lockfile that sessions are attested against.
    pub lockfile: CapabilityLockfile,
    /// The world.
    pub world: FakeHandle,
}

impl FakeProvider {
    /// A provider that serves `script` from `execute`, front to back.
    pub fn new(script: VecDeque<ScriptedOutcome>) -> (r: Self)
        ensures
            r.manifest.wire_json() == fake_manifest(),
            is_default_lockfile(r.lockfile, r.manifest),
            r.world@ == new_world(script@.map_values(|s: ScriptedOutcome| s@)),
    {
        let manifest = Self::default_manifest();
        let lockfile = Self::default_lockfile(&manifest);
        FakeProvider { manifest, lockfile, world: FakeHandle::new(script) }
    }

    /// The world, to program and inspect.
    pub fn handle(&mut self) -> (r: &mut FakeHandle)
        ensures
            *r == old(self).world,
            *final(self) == (FakeProvider { world: *final(r), ..*old(self) }),
    {
        &mut self.world
    }

    /// The lockfile that sessions are attested against.
    pub fn lockfile(&self) -> (r: &CapabilityLockfile)
        ensures
            *r == self.lockfile,
    {
        &self.lockfile
    }

    /// The static capability declaration.
    pub fn manifest(&self) -> (r: &ProviderManifest)
        ensures
            *r == self.manifest,
    {
        &self.manifest
    }

    /// Options that open a session.
    pub fn default_open_options(&self) -> (r: OpenSessionOptions)
        ensures
            r.endpoint@ == Members::none().with("fake"@, JsonV::Bool(true)).object(),
            r.device_id@ == "fake-device-1"@,
            wire::wire_items(r.required_features@) == wire::wire_items(
                self.lockfile.hello.features_enabled@,
            ),
            r.lockfile_digest@ == self.lockfile.digest@,
            open_fault(self.lockfile, r.lockfile_digest@, r.required_features@) is None,
    {
        let endpoint = JsonMap::new().with("fake", Json::Bool(true)).object();
        let required_features = self.lockfile.hello.features_enabled.duplicate();
        proof {
            lemma_copy_is_listed(required_features@, self.lockfile.hello.features_enabled@);
        }
        OpenSessionOptions {
            endpoint,
            device_id: "fake-device-1".to_owned(),
            required_features,
            lockfile_digest: self.lockfile.digest.clone(),
        }
    }

    fn semantic_action(name: &str) -> (r: ActionDefinitionStatic)
        requires
            primitives::action_name_fault(name@) is None,
        ensures
            r.wire_json() == action_json(name@, any_object_schema(), false),
            !r.synthetic,
    {
        ActionDefinitionStatic {
            name: action(name),
            input_schema: schema(JsonMap::new().with("type", Json::text("object")).object()),
            output_schema: None,
            protection: ActionProtection::Standard,
            synthetic: false,
        }
    }

    fn synthetic_action(name: &str, input_schema: Json) -> (r: ActionDefinitionStatic)
        requires
            primitives::action_name_fault(name@) is None,
            primitives::is_schema_document(input_schema@),
        ensures
            r.wire_json() == action_json(name@, input_schema@, true),
            r.synthetic,
    {
        ActionDefinitionStatic {
            name: action(name),
            input_schema: schema(input_schema),
            output_schema: None,
            protection: ActionProtection::Standard,
            synthetic: true,
        }
    }

    fn verb_binding(verb: CanonicalVerb, name: &str, arg: &str) -> (r: VerbBinding)
        requires
            primitives::action_name_fault(name@) is None,
        ensures
            r.wire_json() == binding_json(
                verb,
                name@,
                Some("device.semanticActions.v1"@),
                Some(arg@),
            ),
    {
        proof {
            names::lemma_device_semantic_actions_v1();
        }
        let value = arg.to_owned();
        let ghost held = value;
        let arg_map: TextMap<String> = TextMap::new().with(arg, value);
        assert(arg_map@.entries =~= seq![(arg@, held)]);
        assert(arg_map@.entries.drop_last() =~= Seq::empty());
        assert(wire::wire_members(Seq::<(Seq<char>, String)>::empty()) == Members::none());
        VerbBinding {
            verb,
            action_name: action(name),
            requires_feature: Some(feature("device.semanticActions.v1")),
            arg_map,
        }
    }

    fn default_features() -> (r: Vec<FeatureId>)
        ensures
            wire::wire_items(r@) == fake_features(),
    {
        proof {
            names::lemma_device_semantic_actions_v1();
            names::lemma_observation_ui_snapshot_v1();
            names::lemma_verdict_record_v1();
            names::lemma_events_snapshot_v1();
            names::lemma_request_control_v1();
        }
        let r = vec![
            feature("device.semanticActions.v1"),
            feature("observation.uiSnapshot.v1"),
            feature("verdict.record.v1"),
            feature("events.snapshot.v1"),
            feature("request.control.v1"),
        ];
        assert(wire::wire_items(r@) =~= fake_features());
        r
    }

    fn default_bindings() -> (r: Vec<VerbBinding>)
        ensures
            wire::wire_items(r@) == fake_bindings(),
    {
        proof {
            names::lemma_tap_element();
            names::lemma_set_element_value();
            names::lemma_clear_element();
            names::lemma_wait_for_element();
            names::lemma_find_element();
            names::lemma_observe();
            names::lemma_screenshot();
        }
        let bare = VerbBinding {
            verb: CanonicalVerb::Screenshot,
            action_name: action("screenshot"),
            requires_feature: None,
            arg_map: TextMap::new(),
        };
        assert(bare.wire_json() == binding_json(
            CanonicalVerb::Screenshot,
            "screenshot"@,
            None,
            None,
        ));
        let r = vec![
            Self::verb_binding(CanonicalVerb::Tap, "tapElement", "element"),
            Self::verb_binding(CanonicalVerb::SetValue, "setElementValue", "element"),
            Self::verb_binding(CanonicalVerb::Clear, "clearElement", "element"),
            Self::verb_binding(CanonicalVerb::WaitFor, "waitForElement", "element"),
            Self::verb_binding(CanonicalVerb::Find, "findElement", "element"),
            Self::verb_binding(CanonicalVerb::Observe, "observe", "wants"),
            bare,
        ];
        assert(wire::wire_items(r@) =~= fake_bindings());
        r
    }

    fn default_channels() -> (r: Vec<ChannelSupport>)
        ensures
            wire::wire_items(r@) == fake_channels(),
    {
        proof {
            names::lemma_observation_ui_snapshot_v1();
        }
        let r = vec![
            ChannelSupport {
                channel: Channel::UiTree,
                role: ChannelRole::Both,
                requires_feature: Some(feature("observation.uiSnapshot.v1")),
                requires_platform: None,
            },
            ChannelSupport {
                channel: Channel::Vision,
                role: ChannelRole::Verify,
                requires_feature: None,
                requires_platform: None,
            },
        ];
        assert(r@[0].wire_json() == fake_channels()[0]);
        assert(r@[1].wire_json() == fake_channels()[1]);
        assert(wire::wire_items(r@) =~= fake_channels());
        r
    }

    fn default_actions() -> (r: Vec<ActionDefinitionStatic>)
        ensures
            wire::wire_items(r@) == fake_actions(),
    {
        proof {
            names::lemma_tap_element();
            names::lemma_set_element_value();
            names::lemma_clear_element();
            names::lemma_wait_for_element();
            names::lemma_find_element();
            names::lemma_observe();
            names::lemma_screenshot();
        }
        let r = vec![
            Self::semantic_action("findElement"),
            Self::semantic_action("tapElement"),
            Self::semantic_action("clearElement"),
            Self::semantic_action("setElementValue"),
            Self::semantic_action("waitForElement"),
            Self::synthetic_action("observe", observe_input()),
            Self::synthetic_action("screenshot", no_arguments()),
        ];
        assert(wire::wire_items(r@) =~= fake_actions());
        r
    }

    fn default_manifest() -> (r: ProviderManifest)
        ensures
            r.wire_json() == fake_manifest(),
    {
        let conditional = Vec::new();
        let features = FeatureDeclarations { guaranteed: Self::default_features(), conditional };
        assert(wire::wire_items(features.conditional@) =~= Seq::empty());
        ProviderManifest {
            name: "fake".to_owned(),
            version: "0.1.0".to_owned(),
            protocol: ProtocolRange { major: 1, min_minor: 5, max_minor: 5 },
            features,
            verb_bindings: Self::default_bindings(),
            channels: Self::default_channels(),
            known_actions: Self::default_actions(),
        }
    }

    fn default_lockfile(manifest: &ProviderManifest) -> (r: CapabilityLockfile)
        ensures
            is_default_lockfile(r, *manifest),
    {
        let known = &manifest.known_actions;
        let mut actions: Vec<ActionDefinitionStatic> = Vec::new();
        let mut i: usize = 0;
        assert(wire::wire_items(actions@) =~= driver_actions(known@.take(0)));
        while i < known.len()
            invariant
                i <= known@.len(),
                wire::wire_items(actions@) == driver_actions(known@.take(i as int)),
            decreases known@.len() - i,
        {
            let ghost before = actions@;
            assert(known@.take(i + 1).drop_last() =~= known@.take(i as int));
            if !known[i].synthetic {
                let copy = known[i].duplicate();
                let ghost form = copy.wire_json();
                actions.push(copy);
                assert(wire::wire_items(actions@) =~= wire::wire_items(before).push(form));
            }
            i = i + 1;
        }
        assert(known@.take(i as int) =~= known@);
        let mut lockfile = CapabilityLockfile {
            provider: LockfileProvider {
                name: manifest.name.clone(),
                version: manifest.version.clone(),
            },
            attested_at: "1970-01-01T00:00:00Z".to_owned(),
            hello: LockfileHello {
                protocol_selected: ProtocolVersion { major: 1, minor: 5 },
                features_enabled: manifest.features.guaranteed.duplicate(),
                server: PeerInfo {
                    name: "fake-daemon".to_owned(),
                    version: manifest.version.clone(),
                },
            },
            device: LockfileDevice { platform: PlatformKind::Android, actions },
            digest: crate::ir::primitives::Hash::zero(),
        };
        let ghost before = lockfile;
        lockfile.seal();
        proof {
            lockfile::law_sealed_is_consistent(before, lockfile);
        }
        lockfile
    }

    /// Opens a session. The world must have the expected digest and all
    /// required features; then a new session begins and the world is open
    /// again.
    pub fn open_session(&mut self, opts: OpenSessionOptions) -> (r: Result<
        FakeProviderSession,
        ProviderError,
    >)
        requires
            old(self).world@.session_counter < u64::MAX,
        ensures
            final(self).manifest == old(self).manifest,
            final(self).lockfile == old(self).lockfile,
            match open_fault(old(self).lockfile, opts.lockfile_digest@, opts.required_features@) {
                Some(fault) => {
                    &&& r matches Err(e)
                    &&& e@ == ProviderErrorV::concluded(ErrorClass::CapabilityDrift, fault)
                    &&& final(self).world@ == old(self).world@
                },
                None => {
                    &&& r matches Ok(session)
                    &&& session.session_id@ == "fake-session-"@ + text::decimal(
                        (old(self).world@.session_counter + 1) as nat,
                    )
                    &&& session.device_id@ == opts.device_id@
                    &&& is_attestation_of(session.attestation, old(self).lockfile)
                    &&& final(self).world@ == (WorldV {
                        session_counter: (old(self).world@.session_counter + 1) as u64,
                        ended: None,
                        ..old(self).world@
                    })
                },
            },
    {
        if !same_text(opts.lockfile_digest.as_str(), self.lockfile.digest.as_str()) {
            return Err(
                ProviderError::concluded(
                    ErrorClass::CapabilityDrift,
                    concat4(
                        "attestation mismatch: live world digest ",
                        self.lockfile.digest.as_str(),
                        " != expected lockfileDigest ",
                        opts.lockfile_digest.as_str(),
                    ),
                ),
            );
        }
        match missing_feature(&opts.required_features, &self.lockfile.hello.features_enabled) {
            Some(missing) => {
                return Err(
                    ProviderError::concluded(
                        ErrorClass::CapabilityDrift,
                        concat("required feature not negotiated: ", missing.as_str()),
                    ),
                );
            },
            None => {},
        }
        self.world.session_counter = self.world.session_counter + 1;
        self.world.ended = None;
        let session_id = concat(
            "fake-session-",
            decimal_text(self.world.session_counter).as_str(),
        );
        let attestation = CapabilityAttestation::from_lockfile(
            &self.lockfile,
            "1970-01-01T00:00:01Z".to_owned(),
        );
        Ok(FakeProviderSession { session_id, device_id: opts.device_id, attestation })
    }
}

/// Whether `a` attests what the lockfile lists.
pub open spec fn is_attestation_of(a: CapabilityAttestation, lockfile: CapabilityLockfile) -> bool {
    &&& a.provider_id@ == lockfile.provider.name@
    &&& a.protocol_selected == lockfile.hello.protocol_selected
    &&& a.features_enabled.as_map() == lockfile::feature_set(lockfile.hello.features_enabled@)
    &&& wire::wire_members(a.actions@.entries) == lockfile::actions_by_name(lockfile.device.actions@)
    &&& forall|name: Seq<char>| #[trigger]
        a.attests(name) == lockfile::actions_by_name(lockfile.device.actions@).has(name)
    &&& a.lockfile_digest@ == lockfile.digest@
    &&& a.attested_at@ == "1970-01-01T00:00:01Z"@
}

/// Whether `l` is the sealed lockfile that goes with the manifest: its features
/// and its driver actions, on an Android device.
pub open spec fn is_default_lockfile(l: CapabilityLockfile, manifest: ProviderManifest) -> bool {
    &&& l.provider.name@ == manifest.name@
    &&& l.provider.version@ == manifest.version@
    &&& l.attested_at@ == "1970-01-01T00:00:00Z"@
    &&& l.hello.protocol_selected == (ProtocolVersion { major: 1, minor: 5 })
    &&& wire::wire_items(l.hello.features_enabled@) == wire::wire_items(
        manifest.features.guaranteed@,
    )
    &&& l.hello.server.name@ == "fake-daemon"@
    &&& l.hello.server.version@ == manifest.version@
    &&& l.device.platform == PlatformKind::Android
    &&& wire::wire_items(l.device.actions@) == driver_actions(manifest.known_actions@)
    &&& lockfile::digest_of(l) == l.digest@
}

fn observe_input() -> (r: Json)
    ensures
        r@ == observe_schema(),
{
    let required = vec!["wants".to_owned()];
    let parts = vec!["screenshot".to_owned(), "uiSnapshot".to_owned()];
    assert(text::texts(required@) =~= seq!["wants"@]);
    assert(text::texts(parts@) =~= seq!["screenshot"@, "uiSnapshot"@]);
    let wants = JsonMap::new()
        .with("type", Json::text("array"))
        .with("minItems", Json::uint(1))
        .with("uniqueItems", Json::Bool(true))
        .with("items", JsonMap::new().with("enum", Json::texts(&parts)).object())
        .object();
    JsonMap::new()
        .with("type", Json::text("object"))
        .with("additionalProperties", Json::Bool(false))
        .with("required", Json::texts(&required))
        .with("properties", JsonMap::new().with("wants", wants).object())
        .object()
}

fn no_arguments() -> (r: Json)
    ensures
        r@ == no_arguments_schema(),
{
    JsonMap::new()
        .with("type", Json::text("object"))
        .with("additionalProperties", Json::Bool(false))
        .with("properties", JsonMap::new().object())
        .object()
}

fn is_listed(features: &Vec<FeatureId>, feature: &FeatureId) -> (r: bool)
    ensures
        r == lists(features@, feature@),
{
    let mut i: usize = 0;
    while i < features.len()
        invariant
            i <= features@.len(),
            forall|j: int| 0 <= j < i ==> #[trigger] features@[j]@ != feature@,
        decreases features@.len() - i,
    {
        if same_text(features[i].as_str(), feature.as_str()) {
            return true;
        }
        i = i + 1;
    }
    false
}

/// The first required feature that is not enabled.
pub(crate) fn missing_feature(required: &Vec<FeatureId>, enabled: &Vec<FeatureId>) -> (r: Option<String>)
    ensures
        text::opt_text(r) == first_missing(required@, enabled@),
{
    let mut i: usize = 0;
    assert(required@.take(0) =~= Seq::empty());
    while i < required.len()
        invariant
            i <= required@.len(),
            first_missing(required@.take(i as int), enabled@) is None,
        decreases required@.len() - i,
    {
        assert(required@.take(i + 1).drop_last() =~= required@.take(i as int));
        if !is_listed(enabled, &required[i]) {
            proof {
                lemma_missing_stays(required@, enabled@, i + 1);
            }
            return Some(required[i].as_str().to_owned());
        }
        i = i + 1;
    }
    assert(required@.take(i as int) =~= required@);
    None
}

proof fn lemma_missing_stays(required: Seq<FeatureId>, enabled: Seq<FeatureId>, n: int)
    requires
        0 <= n <= required.len(),
        first_missing(required.take(n), enabled) is Some,
    ensures
        first_missing(required, enabled) == first_missing(required.take(n), enabled),
    decreases required.len() - n,
{
    if n < required.len() {
        assert(required.take(n + 1).drop_last() =~= required.take(n));
        lemma_missing_stays(required, enabled, n + 1);
    } else {
        assert(required.take(n) =~= required);
    }
}

proof fn lemma_copy_is_listed(copy: Seq<FeatureId>, features: Seq<FeatureId>)
    requires
        wire::wire_items(copy) == wire::wire_items(features),
    ensures
        first_missing(copy, features) is None,
{
    assert(copy.take(copy.len() as int) =~= copy);
    lemma_listed_prefix(copy, features, copy.len() as int);
}

proof fn lemma_listed_prefix(copy: Seq<FeatureId>, features: Seq<FeatureId>, n: int)
    requires
        0 <= n <= copy.len(),
        wire::wire_items(copy) == wire::wire_items(features),
    ensures
        first_missing(copy.take(n), features) is None,
    decreases n,
{
    if n > 0 {
        lemma_listed_prefix(copy, features, n - 1);
        assert(copy.take(n).drop_last() =~= copy.take(n - 1));
        assert(wire::wire_items(copy).len() == copy.len());
        assert(wire::wire_items(features).len() == features.len());
        assert(wire::wire_items(copy)[n - 1] == copy[n - 1].wire_json());
        assert(wire::wire_items(features)[n - 1] == features[n - 1].wire_json());
        assert(features[n - 1]@ == copy[n - 1]@);
    }
}

} // verus!
