use std::collections::VecDeque;
use pointlock::ir::hash::hex_sha256;
use pointlock::ir::primitives::{ActionName, FeatureId};
use pointlock::ir::record::EventCursor;
use pointlock::ir::runtime::{ActionOutcome, AssetRef, ReconcileResult};
use pointlock::ir::vocab::{
    ErrorClass, ScreenshotOmissionReason, UiSnapshotOmissionReason, VerdictStatus,
};
use pointlock::json::{parse_json, Json};
use pointlock::kit::fake::{FakeProvider, FakeProviderSession, ScriptedOutcome};
use pointlock::kit::spi::{
    BoundActionCall, ObserveRequest, ObserveWant, SessionOutcome, UiSnapshotOutcome, VerdictWrite,
    VERDICT_SUMMARY_MAX_CHARS,
};

fn json(text: &str) -> Json {
    parse_json(text).expect("a JSON text")
}

fn call(call_id: &str) -> BoundActionCall {
    BoundActionCall {
        call_id: call_id.to_owned(),
        action_name: ActionName::new("tapElement").unwrap(),
        arguments: json("{}"),
        action_timeout_ms: None,
        request_timeout_ms: None,
    }
}

fn provider(script: Vec<ScriptedOutcome>) -> FakeProvider {
    FakeProvider::new(VecDeque::from(script))
}

fn open(provider: &mut FakeProvider) -> FakeProviderSession {
    let options = provider.default_open_options();
    provider.open_session(options).expect("open_session")
}

fn fate(provider: &mut FakeProvider, session: &FakeProviderSession, id: &str) -> ReconcileResult {
    let cursor = session.current_cursor(provider.handle()).expect("cursor");
    session
        .reconcile(provider.handle(), id, &cursor)
        .expect("reconcile")
}

#[test]
fn execute_stamps_call_id_and_journals_terminal() {
    let mut provider = provider(vec![ScriptedOutcome::succeeded()]);
    let session = open(&mut provider);
    let outcome = session
        .execute(provider.handle(), call("call-1"), false)
        .expect("execute");
    let ActionOutcome::Succeeded { result } = outcome else {
        panic!("expected succeeded, got {outcome:?}");
    };
    assert_eq!(result.call_id, "call-1");
    assert!(result.finished_at_ms > result.started_at_ms);
    assert_eq!(provider.handle().dispatched_call_ids(), vec!["call-1"]);

    let fate = fate(&mut provider, &session, "call-1");
    let ReconcileResult::Completed { outcome } = fate else {
        panic!("expected completed, got {fate:?}");
    };
    let ActionOutcome::Succeeded { result } = *outcome else {
        panic!("expected a succeeded terminal, got {outcome:?}");
    };
    assert_eq!(result.call_id, "call-1");
}

#[test]
fn a_foreign_issuing_credential_reads_the_world_journal() {
    let mut provider = provider(vec![]);
    let session = open(&mut provider);
    let foreign = EventCursor {
        session_id: "some-earlier-generation".to_owned(),
        last_sequence: 3,
    };
    let fate = session
        .reconcile(provider.handle(), "never-seen", &foreign)
        .expect("reconcile");
    assert!(
        matches!(fate, ReconcileResult::NeverDispatched),
        "got {fate:?}"
    );
}

#[test]
fn reconcile_adopts_archived_non_succeeded_terminals_verbatim() {
    let mut provider = provider(vec![
        ScriptedOutcome::failed("device_unavailable", true),
        ScriptedOutcome::timed_out(),
    ]);
    let session = open(&mut provider);
    session
        .execute(provider.handle(), call("call-f"), false)
        .expect("failed terminal");
    session
        .execute(provider.handle(), call("call-t"), false)
        .expect("timedOut terminal");

    for (call_id, kind) in [("call-f", "failed"), ("call-t", "timedOut")] {
        let fate = fate(&mut provider, &session, call_id);
        let ReconcileResult::Completed { outcome } = fate else {
            panic!("expected completed for {call_id}, got {fate:?}");
        };
        assert_eq!(outcome.kind(), kind);
    }
}

#[test]
fn transport_loss_variants_map_to_reconcile_fates() {
    let mut provider = provider(vec![
        ScriptedOutcome::TransportLostAfterDispatch,
        ScriptedOutcome::TransportLostBeforeDispatch,
    ]);
    let session = open(&mut provider);

    let error = session
        .execute(provider.handle(), call("hung"), false)
        .unwrap_err();
    assert_eq!(error.error_class, ErrorClass::TransportLost);
    assert_eq!(
        fate(&mut provider, &session, "hung"),
        ReconcileResult::StartedNoTerminal
    );

    let error = session
        .execute(provider.handle(), call("lost"), false)
        .unwrap_err();
    assert_eq!(error.error_class, ErrorClass::TransportLost);
    assert_eq!(
        fate(&mut provider, &session, "lost"),
        ReconcileResult::NeverDispatched
    );
}

#[test]
fn duplicate_call_id_is_rejected_without_consuming_script() {
    let mut provider = provider(vec![
        ScriptedOutcome::succeeded(),
        ScriptedOutcome::failed("device_unavailable", true),
    ]);
    let session = open(&mut provider);
    session
        .execute(provider.handle(), call("dup"), false)
        .expect("first");
    let error = session
        .execute(provider.handle(), call("dup"), false)
        .unwrap_err();
    assert_eq!(error.error_class, ErrorClass::BindArgumentsInvalid);
    let outcome = session
        .execute(provider.handle(), call("fresh"), false)
        .expect("second");
    assert_eq!(outcome.kind(), "failed");
}

#[test]
fn pre_cancelled_token_prevents_dispatch() {
    let mut provider = provider(vec![ScriptedOutcome::succeeded()]);
    let session = open(&mut provider);
    let error = session
        .execute(provider.handle(), call("never-sent"), true)
        .unwrap_err();
    assert_eq!(error.error_class, ErrorClass::ActionCancelled);
    assert_eq!(
        fate(&mut provider, &session, "never-sent"),
        ReconcileResult::NeverDispatched
    );
}

#[test]
fn unattested_action_is_refused_fail_closed() {
    let mut provider = provider(vec![ScriptedOutcome::succeeded()]);
    let session = open(&mut provider);
    let mut bogus = call("bogus");
    bogus.action_name = ActionName::new("launchMissiles").unwrap();
    let error = session
        .execute(provider.handle(), bogus, false)
        .unwrap_err();
    assert_eq!(error.error_class, ErrorClass::CapabilityDrift);
    assert!(provider.handle().dispatched_call_ids().is_empty());
}

#[test]
fn observe_honors_wants_and_injected_omissions() {
    let mut provider = provider(vec![]);
    let session = open(&mut provider);
    let both = ObserveRequest {
        wants: vec![ObserveWant::Screenshot, ObserveWant::UiSnapshot],
    };
    let observation = session
        .observe(provider.handle(), &both, false)
        .expect("observe");
    assert!(observation.screenshot.is_some());
    assert!(observation.ui_snapshot.is_some());
    assert!(observation.screenshot_omission.is_none());

    provider
        .handle()
        .set_screenshot_omission(Some(ScreenshotOmissionReason::ProtectedAction));
    let one = ObserveRequest {
        wants: vec![ObserveWant::Screenshot],
    };
    let observation = session
        .observe(provider.handle(), &one, false)
        .expect("observe");
    assert!(observation.screenshot.is_none());
    assert_eq!(
        observation.screenshot_omission,
        Some(ScreenshotOmissionReason::ProtectedAction)
    );
    assert!(observation.ui_snapshot.is_none());
    assert!(observation.ui_snapshot_omission.is_none());
}

#[test]
fn ui_snapshot_omission_yields_typed_unavailable() {
    let mut provider = provider(vec![]);
    let session = open(&mut provider);
    provider
        .handle()
        .set_ui_snapshot_omission(Some(UiSnapshotOmissionReason::DriverUnsupported));
    let outcome = session
        .ui_snapshot(provider.handle(), "obs-1")
        .expect("ui_snapshot");
    assert_eq!(
        outcome,
        UiSnapshotOutcome::Unavailable {
            reason: UiSnapshotOmissionReason::DriverUnsupported
        }
    );
}

#[test]
fn injected_ui_snapshot_is_served_on_both_dereference_routes() {
    let mut provider = provider(vec![]);
    let session = open(&mut provider);
    let text = r#"{
        "formatVersion": 1,
        "observationId": "ignored",
        "context": { "contextKind": "native", "contextId": "ctx-1", "documentEpoch": "e1" },
        "rootStableNodeIds": ["n1"],
        "nodes": [ { "stableNodeId": "n1", "role": "switch", "identifier": "wifi" } ]
    }"#;
    let tree = json(text);

    provider.handle().inject_ui_snapshot(Some(tree.clone()));
    let request = ObserveRequest {
        wants: vec![ObserveWant::UiSnapshot],
    };
    let observation = session
        .observe(provider.handle(), &request, false)
        .expect("observe");
    let snapshot_ref = observation.ui_snapshot.expect("ui snapshot ref");
    let outcome = session
        .ui_snapshot(provider.handle(), &observation.id)
        .expect("ui_snapshot");
    assert_eq!(
        outcome,
        UiSnapshotOutcome::Available {
            snapshot: tree.clone()
        }
    );
    let bytes = session
        .fetch_evidence(provider.handle(), &snapshot_ref.evidence)
        .expect("evidence");
    let parsed: serde_json::Value = serde_json::from_str(text).expect("valid JSON");
    assert_eq!(bytes, serde_json::to_vec(&parsed).expect("serialize"));

    let synthesized = provider.handle().make_observation(Some(tree.clone()));
    assert!(synthesized.screenshot.is_some());
    let outcome = session
        .ui_snapshot(provider.handle(), &synthesized.id)
        .expect("ui_snapshot");
    assert_eq!(outcome, UiSnapshotOutcome::Available { snapshot: tree });
}

#[test]
fn fetch_evidence_streams_bytes_and_verifies_sha256() {
    let mut provider = provider(vec![]);
    let session = open(&mut provider);
    let request = ObserveRequest {
        wants: vec![ObserveWant::Screenshot],
    };
    let observation = session
        .observe(provider.handle(), &request, false)
        .expect("observe");
    let asset = observation.screenshot.expect("screenshot asset");

    let bytes = session
        .fetch_evidence(provider.handle(), &asset)
        .expect("evidence");
    assert_eq!(Some(hex_sha256(&bytes)), asset.sha256);

    let mut tampered = asset.clone();
    tampered.sha256 = Some("0".repeat(64));
    let error = session
        .fetch_evidence(provider.handle(), &tampered)
        .expect_err("integrity failure");
    assert_eq!(error.error_class, ErrorClass::ActionFailedFinal);
}

#[test]
fn record_verdict_caps_fail_closed() {
    let mut provider = provider(vec![]);
    let session = open(&mut provider);

    let oversized = VerdictWrite {
        status: VerdictStatus::Pass,
        summary: "x".repeat(VERDICT_SUMMARY_MAX_CHARS + 1),
        evidence: Vec::new(),
    };
    let error = session
        .record_verdict(provider.handle(), oversized)
        .unwrap_err();
    assert_eq!(error.error_class, ErrorClass::BindArgumentsInvalid);

    let valid = VerdictWrite {
        status: VerdictStatus::Unknown,
        summary: "verify chain degraded".to_owned(),
        evidence: Vec::new(),
    };
    session
        .record_verdict(provider.handle(), valid.clone())
        .expect("write");
    assert_eq!(provider.handle().recorded_verdicts(), vec![valid]);
}

#[test]
fn end_is_idempotent_and_breaks_other_methods() {
    let mut provider = provider(vec![ScriptedOutcome::succeeded()]);
    let session = open(&mut provider);
    session
        .end(
            provider.handle(),
            SessionOutcome::Completed,
            Some("done".to_owned()),
        )
        .expect("end");
    session
        .end(provider.handle(), SessionOutcome::Failed, None)
        .expect("idempotent end");
    assert_eq!(
        provider.handle().ended_outcome(),
        Some((SessionOutcome::Completed, Some("done".to_owned())))
    );
    let health = session.health(provider.handle()).expect("health");
    assert!(!health.ok);
    let error = session
        .execute(provider.handle(), call("late"), false)
        .unwrap_err();
    assert_eq!(error.error_class, ErrorClass::TransportLost);
    let error = session.current_cursor(provider.handle()).unwrap_err();
    assert_eq!(error.error_class, ErrorClass::TransportLost);
    assert_eq!(
        error.message,
        "fake transport lost: session already ended; current_cursor unavailable"
    );
}

#[test]
fn open_session_fails_closed_on_digest_or_feature_drift() {
    let mut provider = provider(vec![]);

    let mut drifted = provider.default_open_options();
    drifted.lockfile_digest =
        pointlock::ir::primitives::Hash::new(&format!("sha256:{}", "f".repeat(64))).unwrap();
    let error = provider.open_session(drifted).err().expect("drift");
    assert_eq!(error.error_class, ErrorClass::CapabilityDrift);

    let mut unsatisfiable = provider.default_open_options();
    unsatisfiable
        .required_features
        .push(FeatureId::new("media.stream.v1").unwrap());
    let error = provider
        .open_session(unsatisfiable)
        .err()
        .expect("missing feature");
    assert_eq!(error.error_class, ErrorClass::CapabilityDrift);
    assert_eq!(
        error.message,
        "required feature not negotiated: media.stream.v1"
    );
}

#[test]
fn observation_actions_are_served_without_a_dispatch() {
    let mut provider = provider(vec![]);
    let session = open(&mut provider);
    let mut shot = call("shot-1");
    shot.action_name = ActionName::new("screenshot").unwrap();
    let outcome = session
        .execute(provider.handle(), shot, false)
        .expect("execute");
    let ActionOutcome::Succeeded { result } = outcome else {
        panic!("expected succeeded, got {outcome:?}");
    };
    assert_eq!(result.call_id, "shot-1");
    let after = result.after.expect("observation");
    assert_eq!(
        result.output.member("observationId"),
        Some(&Json::text(&after.id))
    );
    assert!(result.output.member("screenshot").is_some());
    assert!(provider.handle().dispatched_call_ids().is_empty());
}

#[test]
fn a_hidden_log_is_said_to_be_unavailable() {
    let mut provider = provider(vec![ScriptedOutcome::succeeded()]);
    let session = open(&mut provider);
    session
        .execute(provider.handle(), call("x"), false)
        .expect("execute");
    provider.handle().set_log_unavailable("gone".to_owned());
    assert_eq!(
        fate(&mut provider, &session, "x"),
        ReconcileResult::LogUnavailable {
            reason: "gone".to_owned()
        }
    );
    provider.handle().clear_log_unavailable();
    assert!(matches!(
        fate(&mut provider, &session, "x"),
        ReconcileResult::Completed { .. }
    ));
}

#[test]
fn injected_faults_are_reported() {
    let mut provider = provider(vec![]);
    let session = open(&mut provider);
    provider
        .handle()
        .set_record_verdict_error(Some("disk full".to_owned()));
    let verdict = VerdictWrite {
        status: VerdictStatus::Pass,
        summary: "ok".to_owned(),
        evidence: Vec::new(),
    };
    assert!(session
        .record_verdict(provider.handle(), verdict)
        .unwrap_err()
        .message
        .contains("disk full"));
    provider
        .handle()
        .set_fetch_evidence_unsupported(Some("no bytes".to_owned()));
    let asset = AssetRef {
        id: "a".to_owned(),
        media_type: "image/png".to_owned(),
        uri: "fake://a".to_owned(),
        sha256: None,
    };
    assert!(session
        .fetch_evidence(provider.handle(), &asset)
        .unwrap_err()
        .message
        .contains("no bytes"));
    provider.handle().set_fetch_evidence_unsupported(None);
    provider.handle().insert_evidence("a", vec![1, 2, 3]);
    assert_eq!(
        session.fetch_evidence(provider.handle(), &asset),
        Ok(vec![1, 2, 3])
    );
}

#[test]
fn equal_runs_give_equal_results() {
    let run = || {
        let mut provider = provider(vec![
            ScriptedOutcome::succeeded(),
            ScriptedOutcome::timed_out(),
        ]);
        let session = open(&mut provider);
        ["tapElement", "screenshot", "observe", "tapElement"]
            .iter()
            .enumerate()
            .map(|(n, name)| {
                let mut next = call(&format!("call-{n}"));
                next.action_name = ActionName::new(name).unwrap();
                session.execute(provider.handle(), next, false)
            })
            .collect::<Vec<_>>()
    };
    assert_eq!(run(), run());
}

#[test]
fn served_times_come_from_the_logical_clock() {
    let mut provider = provider(vec![]);
    let session = open(&mut provider);
    let mut shot = call("shot-1");
    shot.action_name = ActionName::new("screenshot").unwrap();
    let outcome = session
        .execute(provider.handle(), shot, false)
        .expect("execute");
    let ActionOutcome::Succeeded { result } = outcome else {
        panic!("expected succeeded, got {outcome:?}");
    };
    assert_eq!((result.started_at_ms, result.finished_at_ms), (0, 1));
    assert_eq!(result.after.expect("observation").captured_at_ms, 1);
    let next = session
        .observe(provider.handle(), &ObserveRequest { wants: vec![] }, false)
        .expect("observe");
    assert_eq!(next.captured_at_ms, 2);
}

#[test]
fn arguments_are_read_before_the_cancellation_and_after_the_end() {
    let mut provider = provider(vec![]);
    let session = open(&mut provider);
    let malformed = || {
        let mut bad = call("bad");
        bad.action_name = ActionName::new("observe").unwrap();
        bad
    };
    let error = session
        .execute(provider.handle(), malformed(), false)
        .unwrap_err();
    assert_eq!(error.error_class, ErrorClass::BindArgumentsInvalid);
    let error = session
        .execute(provider.handle(), malformed(), true)
        .unwrap_err();
    assert_eq!(error.error_class, ErrorClass::BindArgumentsInvalid);
    let mut shot = call("shot");
    shot.action_name = ActionName::new("screenshot").unwrap();
    let error = session
        .execute(provider.handle(), shot, true)
        .unwrap_err();
    assert_eq!(error.error_class, ErrorClass::ActionCancelled);
    session
        .end(provider.handle(), SessionOutcome::Completed, None)
        .expect("end");
    let error = session
        .execute(provider.handle(), malformed(), true)
        .unwrap_err();
    assert_eq!(error.error_class, ErrorClass::TransportLost);
}

#[test]
fn snapshot_evidence_is_canonical_json() {
    let mut provider = provider(vec![]);
    let session = open(&mut provider);
    let tree = json("{\"\u{ff61}\": 1, \"\u{1f600}\": 2}");
    let observation = provider.handle().make_observation(Some(tree));
    let evidence = observation.ui_snapshot.expect("ui snapshot ref").evidence;
    assert_eq!(
        session
            .fetch_evidence(provider.handle(), &evidence)
            .expect("evidence"),
        "{\"\u{1f600}\":2,\"\u{ff61}\":1}".as_bytes()
    );
}

#[test]
fn later_calls_keep_the_fate() {
    let mut provider = provider(vec![
        ScriptedOutcome::TransportLostAfterDispatch,
        ScriptedOutcome::succeeded(),
        ScriptedOutcome::succeeded(),
    ]);
    let session = open(&mut provider);
    session
        .execute(provider.handle(), call("lost"), false)
        .unwrap_err();
    session
        .execute(provider.handle(), call("done"), false)
        .expect("execute");
    let lost = fate(&mut provider, &session, "lost");
    let done = fate(&mut provider, &session, "done");
    assert!(matches!(lost, ReconcileResult::StartedNoTerminal));
    assert!(matches!(done, ReconcileResult::Completed { .. }));
    session
        .execute(provider.handle(), call("later"), false)
        .expect("execute");
    session
        .execute(provider.handle(), call("lost"), false)
        .unwrap_err();
    let mut shot = call("shot");
    shot.action_name = ActionName::new("screenshot").unwrap();
    session
        .execute(provider.handle(), shot, false)
        .expect("execute");
    assert_eq!(fate(&mut provider, &session, "lost"), lost);
    assert_eq!(fate(&mut provider, &session, "done"), done);
}
