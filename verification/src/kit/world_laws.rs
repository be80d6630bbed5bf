//! What the fake provider does, told from its script and its world.

use vstd::prelude::*;
use vstd::string::*;

use crate::ir::hash;
use crate::ir::primitives::FeatureId;
use crate::ir::runtime::ActionOutcomeV;
use crate::ir::vocab::ErrorClass;
use crate::json;
use crate::json::JsonV;
use crate::keyed;
use crate::kit::error::RetryableSource;
use crate::kit::fake;
use crate::kit::fake::{ScriptedV, WorldV};
use crate::kit::lockfile::CapabilityLockfile;
use crate::kit::manifest::ActionDefinitionStatic;
use crate::kit::spi;
use crate::kit::spi::{ObserveWant, SessionOutcome, UiSnapshotV};
use crate::text;
use crate::wire::Wire;

verus! {

proof fn lemma_asset_keys()
    ensures
        keyed::key_code("id"@) == 2105100100,
        keyed::key_code("uri"@) == 3117105105,
        keyed::key_code("sha256"@) == 6115053054,
        keyed::key_code("mediaType"@) == 9109121101,
{
    reveal_strlit("id");
    reveal_strlit("uri");
    reveal_strlit("sha256");
    reveal_strlit("mediaType");
}

proof fn lemma_viewport_keys()
    ensures
        keyed::key_code("width"@) == 5119116104,
        keyed::key_code("height"@) == 6104104116,
        keyed::key_code("scaleFactor"@) == 11115116114,
{
    reveal_strlit("width");
    reveal_strlit("height");
    reveal_strlit("scaleFactor");
}

proof fn lemma_snapshot_keys()
    ensures
        keyed::key_code("nodes"@) == 5110101115,
        keyed::key_code("contexts"@) == 8099116115,
        keyed::key_code("observationId"@) == 13111111100,
{
    reveal_strlit("nodes");
    reveal_strlit("contexts");
    reveal_strlit("observationId");
}

/// Whether a call reaches the script.
pub open spec fn reaches_the_script(
    w: WorldV,
    attested: bool,
    call_id: Seq<char>,
    cancelled: bool,
) -> bool {
    w.ended is None && !cancelled && attested && !w.journaled(call_id)
}

/// A plain error has the code, the message and the flag that it was given, and no details;
/// a scripted terminal is seen as it is written.
pub proof fn law_scripts_are_seen_whole(
    code: Seq<char>,
    message: Seq<char>,
    retryable: bool,
    scripted: fake::ScriptedOutcome,
)
    ensures
        fake::error_info(code, message, retryable).code == code,
        fake::error_info(code, message, retryable).message == message,
        fake::error_info(code, message, retryable).retryable == retryable,
        fake::error_info(code, message, retryable).details is None,
        scripted matches fake::ScriptedOutcome::Terminal(outcome) ==> scripted@
            == ScriptedV::Terminal(outcome@),
        scripted is TransportLostAfterDispatch <==> scripted@ is TransportLostAfterDispatch,
        scripted is TransportLostBeforeDispatch <==> scripted@ is TransportLostBeforeDispatch,
{
}

/// A new world has its script and nothing else.
pub proof fn law_worlds_begin_empty(script: Seq<ScriptedV>)
    ensures
        ({
            let w = fake::new_world(script);
            &&& w.script == script
            &&& w.journal.len() == 0
            &&& w.verdicts.len() == 0
            &&& w.sequence == 0
            &&& w.clock_ms == 0
            &&& w.observation_counter == 0
            &&& w.session_counter == 0
            &&& w.screenshot_omission is None
            &&& w.ui_snapshot_omission is None
            &&& w.log_unavailable is None
            &&& w.fetch_unsupported is None
            &&& w.record_verdict_error is None
            &&& w.evidence_store.entries.len() == 0
            &&& w.injected_ui_snapshot is None
            &&& w.ui_snapshots.entries.len() == 0
            &&& w.ended is None
        }),
{
}

/// A call that does not reach the script is refused and leaves the world as it is. The
/// class says why, in this order: the session has ended, the token is cancelled, the
/// action is not attested, the id was dispatched before.
pub proof fn law_refused_calls_have_their_class(
    w: WorldV,
    attested: bool,
    call_id: Seq<char>,
    name: Seq<char>,
    cancelled: bool,
)
    requires
        !reaches_the_script(w, attested, call_id, cancelled),
    ensures
        ({
            let r = fake::executed(w, attested, call_id, name, cancelled);
            &&& r.0 == w
            &&& r.1 is Err
            &&& r.1->Err_0.error_class == ErrorClass::TransportLost <==> w.ended is Some
            &&& r.1->Err_0.error_class == ErrorClass::ActionCancelled <==> w.ended is None
                && cancelled
            &&& r.1->Err_0.error_class == ErrorClass::CapabilityDrift <==> w.ended is None
                && !cancelled && !attested
            &&& r.1->Err_0.error_class == ErrorClass::BindArgumentsInvalid <==> w.ended is None
                && !cancelled && attested
            &&& r.1->Err_0.client_code is Some <==> w.ended is Some
            &&& r.1->Err_0.wire is None
        }),
{
}

/// A call that reaches the script takes its first entry, and no other. A scripted
/// terminal is handed out and put in the journal: a success with the caller's id, the
/// two next milliseconds and everything else as scripted, any other terminal with the
/// scripted error.
pub proof fn law_scripts_are_played_as_written(
    w: WorldV,
    attested: bool,
    call_id: Seq<char>,
    name: Seq<char>,
    cancelled: bool,
)
    requires
        reaches_the_script(w, attested, call_id, cancelled),
        w.script.len() > 0,
        w.script[0] is Terminal,
        w.has_room(),
    ensures
        ({
            let (next, r) = fake::executed(w, attested, call_id, name, cancelled);
            let scripted = w.script[0]->Terminal_0;
            &&& r is Ok
            &&& match scripted {
                ActionOutcomeV::Succeeded(result) => {
                    &&& r->Ok_0 is Succeeded
                    &&& r->Ok_0->Succeeded_0.call_id == call_id
                    &&& r->Ok_0->Succeeded_0.started_at_ms == w.clock_ms + 1
                    &&& r->Ok_0->Succeeded_0.finished_at_ms == w.clock_ms + 2
                    &&& r->Ok_0->Succeeded_0.output == result.output
                    &&& r->Ok_0->Succeeded_0.before == result.before
                    &&& r->Ok_0->Succeeded_0.after == result.after
                    &&& r->Ok_0->Succeeded_0.evidence == result.evidence
                    &&& r->Ok_0->Succeeded_0.execution == result.execution
                },
                ActionOutcomeV::Failed(e) => r->Ok_0 == ActionOutcomeV::Failed(e),
                ActionOutcomeV::Cancelled(e) => r->Ok_0 == ActionOutcomeV::Cancelled(e),
                ActionOutcomeV::TimedOut(e) => r->Ok_0 == ActionOutcomeV::TimedOut(e),
            }
            &&& next.script == w.script.skip(1)
            &&& next.journal.len() == w.journal.len() + 1
            &&& next.journal.drop_last() == w.journal
            &&& next.journal.last().call_id == call_id
            &&& next.journal.last().terminal == Some(r->Ok_0)
            &&& next.clock_ms == w.clock_ms + 2
            &&& next.sequence == w.sequence + 2
            &&& next == (WorldV {
                script: next.script,
                journal: next.journal,
                clock_ms: next.clock_ms,
                sequence: next.sequence,
                ..w
            })
        }),
{
    let (next, r) = fake::executed(w, attested, call_id, name, cancelled);
    assert(next.journal.drop_last() =~= w.journal);
}

/// Where the transport is scripted to be lost, the call fails as lost. After the
/// dispatch the call is in the journal without a terminal, and one event later; before it
/// there is no trace of the call but that the script went on.
pub proof fn law_lost_transports_are_played_as_written(
    w: WorldV,
    attested: bool,
    call_id: Seq<char>,
    name: Seq<char>,
    cancelled: bool,
)
    requires
        reaches_the_script(w, attested, call_id, cancelled),
        w.script.len() > 0,
        w.script[0] !is Terminal,
        w.has_room(),
    ensures
        ({
            let (next, r) = fake::executed(w, attested, call_id, name, cancelled);
            &&& r is Err
            &&& r->Err_0.error_class == ErrorClass::TransportLost
            &&& r->Err_0.client_code == Some("transport_closed"@)
            &&& r->Err_0.retryable_source == RetryableSource::Classifier
            &&& next.script == w.script.skip(1)
            &&& w.script[0] is TransportLostAfterDispatch ==> {
                &&& next.journal.drop_last() == w.journal
                &&& next.journal.last().call_id == call_id
                &&& next.journal.last().terminal is None
                &&& next.sequence == w.sequence + 1
                &&& r->Err_0.message == "fake transport lost: "@
                    + "connection dropped after dispatch"@
            }
            &&& w.script[0] is TransportLostBeforeDispatch ==> {
                &&& next.journal == w.journal
                &&& next.sequence == w.sequence
                &&& r->Err_0.message == "fake transport lost: "@
                    + "connection dropped before dispatch"@
            }
            &&& next == (WorldV {
                script: next.script,
                journal: next.journal,
                sequence: next.sequence,
                ..w
            })
        }),
{
    let (next, r) = fake::executed(w, attested, call_id, name, cancelled);
    if w.script[0] is TransportLostAfterDispatch {
        assert(next.journal.drop_last() =~= w.journal);
    }
}

/// Where the script has run out, every call fails for good and says so.
pub proof fn law_exhausted_scripts_fail(
    w: WorldV,
    attested: bool,
    call_id: Seq<char>,
    name: Seq<char>,
    cancelled: bool,
)
    requires
        reaches_the_script(w, attested, call_id, cancelled),
        w.script.len() == 0,
    ensures
        ({
            let (next, r) = fake::executed(w, attested, call_id, name, cancelled);
            &&& r is Ok
            &&& r->Ok_0 is Failed
            &&& r->Ok_0->Failed_0.code == "fake_script_exhausted"@
            &&& r->Ok_0->Failed_0.message
                == "FakeProvider script exhausted; push more ScriptedOutcomes"@
            &&& !r->Ok_0->Failed_0.retryable
            &&& r->Ok_0->Failed_0.details is None
            &&& next.script.len() == 0
            &&& next.journal.last().terminal == Some(r->Ok_0)
            &&& next.journal.last().call_id == call_id
        }),
{
}

/// An action that is attested goes by the script. One that is not goes by an observation
/// where it asks for one that there is, on an open session and with a live token; a fault
/// in what it asks for comes before a cancelled token. Any other call is refused.
pub proof fn law_how_calls_are_served(
    w: WorldV,
    device_id: Seq<char>,
    attested: bool,
    call_id: Seq<char>,
    name: Seq<char>,
    arguments: JsonV,
    cancelled: bool,
)
    ensures
        ({
            let r = fake::performed(w, device_id, attested, call_id, name, arguments, cancelled);
            let asked = spi::observation_wants(name, arguments);
            let open = w.ended is None && !attested;
            &&& attested ==> r == fake::executed(w, attested, call_id, name, cancelled)
            &&& w.ended is Some ==> r.0 == w && r.1 is Err && r.1->Err_0.error_class
                == ErrorClass::TransportLost
            &&& open && asked is Err ==> r.0 == w && r.1 is Err && r.1->Err_0 == asked->Err_0
            &&& open && asked is Ok && cancelled ==> r.0 == w && r.1 is Err
                && r.1->Err_0.error_class == ErrorClass::ActionCancelled
            &&& open && asked is Ok && !cancelled && asked->Ok_0 is None ==> r.0 == w && r.1 is Err
                && r.1->Err_0.error_class == ErrorClass::CapabilityDrift
            &&& open && asked is Ok && !cancelled && asked->Ok_0 is Some ==> {
                let seen = fake::observed(w, device_id, asked->Ok_0->0);
                &&& r.0 == seen.0
                &&& r.1 is Ok
                &&& r.1->Ok_0 is Succeeded
                &&& r.1->Ok_0->Succeeded_0.call_id == call_id
                &&& r.1->Ok_0->Succeeded_0.started_at_ms == w.clock_ms
                &&& r.1->Ok_0->Succeeded_0.finished_at_ms == seen.0.clock_ms
                &&& r.1->Ok_0->Succeeded_0.output == spi::projected(seen.1, asked->Ok_0->0)
                &&& r.1->Ok_0->Succeeded_0.before is None
                &&& r.1->Ok_0->Succeeded_0.after == Some(seen.1.json())
                &&& r.1->Ok_0->Succeeded_0.evidence.len() == 0
                &&& r.1->Ok_0->Succeeded_0.execution is None
            }
        }),
{
}

/// An asset names its id, its media type, where it is and the digest of its bytes.
pub proof fn law_assets_name_their_bytes(id: Seq<char>, media_type: Seq<char>, bytes: Seq<u8>)
    ensures
        ({
            let asset = fake::asset_json(id, media_type, bytes);
            &&& asset.member("id"@) == Some(JsonV::Text(id))
            &&& asset.member("mediaType"@) == Some(JsonV::Text(media_type))
            &&& asset.member("uri"@) == Some(JsonV::Text("fake://assets/"@ + id))
            &&& asset.member("sha256"@) == Some(JsonV::Text(hash::sha256_hex(bytes)))
            &&& fake::snapshot_ref_json(asset).member("evidence"@) == Some(asset)
            &&& fake::viewport_json().member("width"@) == Some(json::uint(1080))
            &&& fake::viewport_json().member("height"@) == Some(json::uint(2400))
        }),
{
    broadcast use keyed::lemma_get_after_with, keyed::lemma_sorted_after_with;

    lemma_asset_keys();
    lemma_viewport_keys();
}

/// The number of a new observation is the next one, and it is in its id. An observation
/// is of the device, taken one millisecond later, one event on. Of each part it has what is
/// wanted and not left out; a part that is wanted and left out has its reason, and one that
/// is not wanted has neither.
#[verifier::spinoff_prover]
pub proof fn law_observations_hold_what_is_wanted(
    w: WorldV,
    device_id: Seq<char>,
    wants: Seq<ObserveWant>,
)
    requires
        w.has_room(),
    ensures
        ({
            let (next, o) = fake::observed(w, device_id, wants);
            let shot = wants.contains(ObserveWant::Screenshot);
            let tree = wants.contains(ObserveWant::UiSnapshot);
            &&& next.observation_counter == w.observation_counter + 1
            &&& next.clock_ms == w.clock_ms + 1
            &&& next.sequence == w.sequence + 1
            &&& o.id == "obs-"@ + text::decimal(next.observation_counter as nat)
            &&& o.device_id == device_id
            &&& o.captured_at_ms == next.clock_ms
            &&& o.viewport == fake::viewport_json()
            &&& o.metadata.entries.len() == 0
            &&& o.screenshot is Some <==> shot && w.screenshot_omission is None
            &&& o.ui_snapshot is Some <==> tree && w.ui_snapshot_omission is None
            &&& shot ==> o.screenshot_omission == w.screenshot_omission
            &&& !shot ==> o.screenshot_omission is None
            &&& tree ==> o.ui_snapshot_omission == w.ui_snapshot_omission
            &&& !tree ==> o.ui_snapshot_omission is None
            &&& next == (WorldV {
                observation_counter: next.observation_counter,
                clock_ms: next.clock_ms,
                sequence: next.sequence,
                evidence_store: next.evidence_store,
                ui_snapshots: next.ui_snapshots,
                ..w
            })
        }),
{
}

/// The parts of an observation can be had: the screenshot and the tree are stored under
/// the ids that the observation names, with the bytes whose digests it names. An injected
/// tree is stored and served as it is.
#[verifier::spinoff_prover]
pub proof fn law_observed_parts_are_stored(
    w: WorldV,
    device_id: Seq<char>,
    wants: Seq<ObserveWant>,
)
    requires
        w.has_room(),
        w.evidence_store.sorted(),
        w.ui_snapshots.sorted(),
    ensures
        ({
            let (next, o) = fake::observed(w, device_id, wants);
            let shot_id = o.id + "-screenshot"@;
            let tree_id = o.id + "-uitree"@;
            let tree_bytes = match w.injected_ui_snapshot {
                Some(tree) => vstd::utf8::encode_utf8(crate::ir::canonical::canonical(tree)),
                None => vstd::utf8::encode_utf8("fake-uitree:"@ + o.id),
            };
            &&& o.screenshot matches Some(asset) ==> next.evidence_store.get(shot_id) == Some(
                vstd::utf8::encode_utf8("fake-screenshot:"@ + o.id),
            ) && asset == fake::asset_json(
                shot_id,
                "image/png"@,
                vstd::utf8::encode_utf8("fake-screenshot:"@ + o.id),
            )
            &&& o.ui_snapshot matches Some(tree) ==> next.evidence_store.get(tree_id) == Some(
                tree_bytes,
            ) && tree == fake::snapshot_ref_json(
                fake::asset_json(tree_id, "application/json"@, tree_bytes),
            )
            &&& o.ui_snapshot is Some && w.injected_ui_snapshot is Some ==> next.ui_snapshots.get(
                o.id,
            ) == w.injected_ui_snapshot
            &&& o.ui_snapshot is None || w.injected_ui_snapshot is None ==> next.ui_snapshots
                == w.ui_snapshots
        }),
{
    broadcast use keyed::lemma_get_after_with, keyed::lemma_sorted_after_with;

    let id = w.next_observation_id();
    reveal_strlit("-screenshot");
    reveal_strlit("-uitree");
    assert((id + "-screenshot"@).len() != (id + "-uitree"@).len());
}

/// Evidence is handed out just where the session is open, fetching works, the bytes are
/// there, and the digest is the declared one, if one is declared; and then it is the bytes.
pub proof fn law_evidence_is_what_is_stored(w: WorldV, id: Seq<char>, sha256: Option<Seq<char>>)
    ensures
        ({
            let r = fake::fetched(w, id, sha256);
            let bytes = w.evidence_store.get(id);
            let usable = w.ended is None && w.fetch_unsupported is None;
            &&& r is Ok <==> usable && bytes is Some && (sha256 is None || sha256->0
                == hash::sha256_hex(bytes->0))
            &&& r matches Ok(got) ==> Some(got) == bytes
            &&& r matches Err(e) ==> {
                &&& e.error_class == ErrorClass::TransportLost <==> w.ended is Some
                &&& e.error_class == ErrorClass::ActionFailedFinal <==> w.ended is None
                &&& e.client_code == Some("asset_fetch_unsupported"@) ==> w.fetch_unsupported is Some
                &&& w.ended is None && w.fetch_unsupported is Some ==> e.client_code == Some(
                    "asset_fetch_unsupported"@,
                ) && e.message == "fetch_evidence unsupported: "@ + w.fetch_unsupported->0
                &&& usable && bytes is None ==> e.message == "unknown evidence asset: "@ + id
            }
        }),
{
    reveal_strlit("transport_closed");
    reveal_strlit("asset_fetch_unsupported");
    assert("transport_closed"@.len() != "asset_fetch_unsupported"@.len());
}

/// A verdict is taken just where the session is open, no failure is scripted, the summary
/// has at most 16384 characters and at most 64 pieces of evidence are cited. One that is
/// taken is put behind the others, one event later; one that is not changes nothing.
pub proof fn law_verdicts_are_recorded(
    w: WorldV,
    summary: Seq<char>,
    evidence: nat,
    verdict: JsonV,
)
    requires
        w.has_room(),
    ensures
        ({
            let (next, r) = fake::recorded(w, summary, evidence, verdict);
            let fits = summary.len() <= 16384 && evidence <= 64;
            &&& r is Ok <==> w.ended is None && w.record_verdict_error is None && fits
            &&& r is Ok ==> next.verdicts == w.verdicts.push(verdict) && next.sequence
                == w.sequence + 1 && next == (WorldV {
                verdicts: next.verdicts,
                sequence: next.sequence,
                ..w
            })
            &&& r matches Err(e) ==> {
                &&& next == w
                &&& e.error_class == ErrorClass::TransportLost <==> w.ended is Some
                    || w.record_verdict_error is Some
                &&& e.error_class == ErrorClass::BindArgumentsInvalid <==> w.ended is None
                    && w.record_verdict_error is None
                &&& w.ended is None && w.record_verdict_error is Some ==> e.message
                    == "scripted verdict.record failure: "@ + w.record_verdict_error->0
            }
        }),
{
}

/// A UI snapshot is refused just on an ended session. It is left out just where an
/// omission is injected, with that reason. Else it is what was served under the id, or an
/// empty tree that names the id.
pub proof fn law_snapshots_are_what_was_served(w: WorldV, id: Seq<char>)
    ensures
        ({
            let r = fake::snapshot_of(w, id);
            let served = w.ui_snapshots.get(id);
            &&& r is Err <==> w.ended is Some
            &&& r matches Err(e) ==> e.error_class == ErrorClass::TransportLost
            &&& w.ended is None && w.ui_snapshot_omission is Some ==> r->Ok_0
                == UiSnapshotV::Unavailable(w.ui_snapshot_omission->0)
            &&& w.ended is None && w.ui_snapshot_omission is None ==> r->Ok_0 is Available
            &&& w.ended is None && w.ui_snapshot_omission is None && served is Some
                ==> r->Ok_0->Available_0 == served->0
            &&& w.ended is None && w.ui_snapshot_omission is None && served is None ==> {
                let tree = r->Ok_0->Available_0;
                &&& tree.member("observationId"@) == Some(JsonV::Text(id))
                &&& tree.member("contexts"@) == Some(JsonV::Array(Seq::empty()))
                &&& tree.member("nodes"@) == Some(JsonV::Array(Seq::empty()))
            }
        }),
{
    broadcast use keyed::lemma_get_after_with, keyed::lemma_sorted_after_with;

    lemma_snapshot_keys();
}

/// The cursor of an open session is its own id and the events so far. An ending is kept
/// with its outcome and reason, one event later; a second one changes nothing.
pub proof fn law_cursors_and_endings(
    w: WorldV,
    session_id: Seq<char>,
    outcome: SessionOutcome,
    reason: Option<Seq<char>>,
)
    requires
        w.has_room(),
    ensures
        ({
            let cursor = fake::cursor_of(w, session_id);
            let next = fake::ended_with(w, outcome, reason);
            &&& cursor is Ok <==> w.ended is None
            &&& cursor matches Ok((id, last)) ==> id == session_id && last == w.sequence
            &&& w.ended is Some ==> next == w
            &&& w.ended is None ==> next.ended == Some((outcome, reason)) && next.sequence
                == w.sequence + 1 && next == (WorldV {
                ended: next.ended,
                sequence: next.sequence,
                ..w
            })
        }),
{
}

/// A session can be opened just where the digest is that of the lockfile and every
/// required feature is enabled.
pub proof fn law_sessions_open_on_the_expected_world(
    lockfile: CapabilityLockfile,
    digest: Seq<char>,
    required: Seq<FeatureId>,
)
    ensures
        fake::open_fault(lockfile, digest, required) is None <==> digest == lockfile.digest@
            && forall|i: int|
            0 <= i < required.len() ==> exists|j: int|
                0 <= j < lockfile.hello.features_enabled@.len() && #[trigger]
                lockfile.hello.features_enabled@[j]@ == (#[trigger] required[i])@,
{
    lemma_first_missing(required, lockfile.hello.features_enabled@);
    let enabled = lockfile.hello.features_enabled@;
    if forall|i: int| 0 <= i < required.len() ==> fake::lists(enabled, (#[trigger] required[i])@) {
        assert forall|i: int| 0 <= i < required.len() implies exists|j: int|
            0 <= j < enabled.len() && #[trigger] enabled[j]@ == (#[trigger] required[i])@ by {
            assert(fake::lists(enabled, required[i]@));
        }
    } else {
        let i = choose|i: int|
            0 <= i < required.len() && !fake::lists(enabled, (#[trigger] required[i])@);
        assert(forall|j: int| 0 <= j < enabled.len() ==> enabled[j]@ != required[i]@);
    }
}

proof fn lemma_first_missing(required: Seq<FeatureId>, enabled: Seq<FeatureId>)
    ensures
        fake::first_missing(required, enabled) is None <==> forall|i: int|
            0 <= i < required.len() ==> fake::lists(enabled, (#[trigger] required[i])@),
    decreases required.len(),
{
    if required.len() > 0 {
        let front = required.drop_last();
        lemma_first_missing(front, enabled);
        if fake::first_missing(required, enabled) is None {
            assert forall|i: int| 0 <= i < required.len() implies fake::lists(
                enabled,
                (#[trigger] required[i])@,
            ) by {
                if i < front.len() {
                    assert(fake::lists(enabled, front[i]@));
                }
            }
        } else if fake::first_missing(front, enabled) is Some {
            let i = choose|i: int|
                0 <= i < front.len() && !fake::lists(enabled, (#[trigger] front[i])@);
            assert(!fake::lists(enabled, required[i]@));
        } else {
            assert(!fake::lists(enabled, required[required.len() - 1]@));
        }
    }
}

/// The actions of the driver are those that the provider does not serve itself, each with
/// its own form.
pub proof fn law_driver_actions_are_not_the_providers(
    actions: Seq<ActionDefinitionStatic>,
    form: JsonV,
)
    ensures
        fake::driver_actions(actions).contains(form) <==> exists|i: int|
            0 <= i < actions.len() && !(#[trigger] actions[i]).synthetic && actions[i].wire_json()
                == form,
    decreases actions.len(),
{
    if actions.len() > 0 {
        let front = actions.drop_last();
        let last = actions.last();
        law_driver_actions_are_not_the_providers(front, form);
        let before = fake::driver_actions(front);
        let all = fake::driver_actions(actions);
        assert forall|i: int| 0 <= i < front.len() implies front[i] == actions[i] by {}
        if all.contains(form) {
            let k = choose|k: int| 0 <= k < all.len() && all[k] == form;
            if k < before.len() {
                assert(before[k] == form);
                assert(before.contains(form));
                let i = choose|i: int|
                    0 <= i < front.len() && !(#[trigger] front[i]).synthetic && front[i].wire_json()
                        == form;
                assert(!actions[i].synthetic && actions[i].wire_json() == form);
            } else {
                assert(!actions[actions.len() - 1].synthetic);
            }
        }
        if exists|i: int|
            0 <= i < actions.len() && !(#[trigger] actions[i]).synthetic && actions[i].wire_json()
                == form {
            let i = choose|i: int|
                0 <= i < actions.len() && !(#[trigger] actions[i]).synthetic
                    && actions[i].wire_json() == form;
            if i < front.len() {
                assert(!front[i].synthetic);
                assert(before.contains(form));
                let k = choose|k: int| 0 <= k < before.len() && before[k] == form;
                assert(all[k] == form);
            } else {
                assert(all[all.len() - 1] == form);
            }
        }
    }
}

/// An observation that the world makes on its own has a screenshot, and a UI snapshot just where
/// one is given. It counts as one, one millisecond later, and is stored as one that is asked for.
#[verifier::spinoff_prover]
pub proof fn law_synthesized_observations(
    w: WorldV,
    device_id: Seq<char>,
    snapshot: Option<JsonV>,
)
    requires
        w.has_room(),
        w.evidence_store.sorted(),
        w.ui_snapshots.sorted(),
    ensures
        ({
            let (next, o) = fake::synthesized(w, device_id, snapshot);
            let shot_id = o.id + "-screenshot"@;
            let tree_id = o.id + "-uitree"@;
            &&& next.observation_counter == w.observation_counter + 1
            &&& next.clock_ms == w.clock_ms + 1
            &&& next.sequence == w.sequence
            &&& o.id == "obs-"@ + text::decimal(next.observation_counter as nat)
            &&& o.device_id == device_id
            &&& o.captured_at_ms == next.clock_ms
            &&& o.screenshot == Some(
                fake::asset_json(
                    shot_id,
                    "image/png"@,
                    vstd::utf8::encode_utf8("fake-screenshot:"@ + o.id),
                ),
            )
            &&& next.evidence_store.get(shot_id) == Some(
                vstd::utf8::encode_utf8("fake-screenshot:"@ + o.id),
            )
            &&& o.screenshot_omission is None
            &&& o.ui_snapshot_omission is None
            &&& o.ui_snapshot is Some <==> snapshot is Some
            &&& snapshot matches Some(tree) ==> {
                let bytes = vstd::utf8::encode_utf8(crate::ir::canonical::canonical(tree));
                &&& next.ui_snapshots.get(o.id) == Some(tree)
                &&& next.evidence_store.get(tree_id) == Some(bytes)
                &&& o.ui_snapshot == Some(
                    fake::snapshot_ref_json(fake::asset_json(tree_id, "application/json"@, bytes)),
                )
            }
            &&& next.journal == w.journal
            &&& next.script == w.script
        }),
{
    broadcast use keyed::lemma_get_after_with, keyed::lemma_sorted_after_with;

    let id = w.next_observation_id();
    reveal_strlit("-screenshot");
    reveal_strlit("-uitree");
    assert((id + "-screenshot"@).len() != (id + "-uitree"@).len());
}

} // verus!
