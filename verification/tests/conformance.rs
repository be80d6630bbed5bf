use std::collections::VecDeque;

use pointlock::ir::primitives::ActionName;
use pointlock::ir::runtime::{ActionOutcome, ErrorInfo, ReconcileResult};
use pointlock::ir::vocab::{ErrorClass, ScreenshotOmissionReason};
use pointlock::kit::conformance::{
    expect_bind_arguments_invalid, judge_completed, judge_duplicate, judge_foreign, judge_never,
    judge_terminal, CheckStatus, ConformanceOptions, ConformanceReport, Suite, SuiteCall,
    SuiteEvent,
};
use pointlock::kit::error::ProviderError;
use pointlock::kit::fake::{FakeProvider, FakeProviderSession, ScriptedOutcome};
use pointlock::kit::spi::SessionOutcome;

/// Runs the suite against a fake provider.
fn run(provider: &mut FakeProvider, options: ConformanceOptions) -> ConformanceReport {
    let mut session: Option<FakeProviderSession> = None;
    let mut suite = Suite::start(&options);
    loop {
        let event = match suite.next_call() {
            SuiteCall::Open => {
                let opened = provider.open_session(options.open.clone());
                SuiteEvent::Opened(opened.map(|s| {
                    let name = s.attestation().actions.key_at(0).to_owned();
                    session = Some(s);
                    ActionName::new(&name).expect("attested action name")
                }))
            }
            SuiteCall::Nothing => return suite.into_report(),
            SuiteCall::CountDispatches => {
                SuiteEvent::Counted(provider.handle().dispatched_call_ids().len() as u64)
            }
            SuiteCall::InjectOmission => {
                provider
                    .handle()
                    .set_screenshot_omission(Some(ScreenshotOmissionReason::Policy));
                SuiteEvent::Injected
            }
            SuiteCall::HideLog => {
                provider.handle().set_log_unavailable(
                    "session log deleted by conformance fault injection".to_owned(),
                );
                SuiteEvent::Injected
            }
            other => {
                let s = session.as_ref().expect("open session");
                let world = provider.handle();
                match other {
                    SuiteCall::ReadCursor => SuiteEvent::Cursor(s.current_cursor(world)),
                    SuiteCall::Execute { call, cancelled } => {
                        SuiteEvent::Executed(s.execute(world, call, cancelled))
                    }
                    SuiteCall::Observe(request) => {
                        SuiteEvent::Observed(s.observe(world, &request, false))
                    }
                    SuiteCall::Reconcile { call_id, issuing } => {
                        let fate = s.reconcile(world, &call_id, &issuing);
                        let shown = format!("{fate:?}");
                        SuiteEvent::Reconciled(fate, shown)
                    }
                    SuiteCall::RecordVerdict(verdict) => {
                        SuiteEvent::Recorded(s.record_verdict(world, verdict))
                    }
                    _ => SuiteEvent::Ended(s.end(world, SessionOutcome::Completed, None)),
                }
            }
        };
        suite = suite.advance(event);
    }
}

#[test]
fn conformance_suite_is_all_green_on_fake_provider() {
    let mut provider = FakeProvider::new(VecDeque::from([
        ScriptedOutcome::succeeded(),
        ScriptedOutcome::failed("device_unavailable", true),
        ScriptedOutcome::cancelled(),
        ScriptedOutcome::timed_out(),
        ScriptedOutcome::failed("transient_glitch", true),
    ]));
    let options = ConformanceOptions {
        open: provider.default_open_options(),
        can_hide_log: true,
        can_count: true,
        can_omit: true,
    };
    let report = run(&mut provider, options);
    report.assert_all_green().expect("all green");
    assert!(report
        .checks
        .iter()
        .all(|check| check.status == CheckStatus::Passed));
}

#[test]
fn conformance_without_fault_hook_skips_only_log_unavailable() {
    let mut provider = FakeProvider::new(VecDeque::from([
        ScriptedOutcome::succeeded(),
        ScriptedOutcome::failed("device_unavailable", false),
        ScriptedOutcome::cancelled(),
        ScriptedOutcome::timed_out(),
    ]));
    let options = ConformanceOptions {
        open: provider.default_open_options(),
        can_hide_log: false,
        can_count: false,
        can_omit: false,
    };
    let report = run(&mut provider, options);
    assert!(report.passed(), "no check may fail: {:#?}", report.checks);
    let skipped: Vec<&str> = report
        .checks
        .iter()
        .filter(|check| check.status == CheckStatus::Skipped)
        .map(|check| check.name)
        .collect();
    assert_eq!(
        skipped,
        vec![
            "execute.noAutonomousRetry",
            "observe.omissionIsNotAnError",
            "reconcile.logUnavailable",
        ]
    );
}

#[test]
fn a_provider_off_script_fails_the_suite() {
    let mut provider = FakeProvider::new(VecDeque::from([
        ScriptedOutcome::failed("device_unavailable", false),
        ScriptedOutcome::succeeded(),
        ScriptedOutcome::cancelled(),
        ScriptedOutcome::timed_out(),
    ]));
    let options = ConformanceOptions {
        open: provider.default_open_options(),
        can_hide_log: false,
        can_count: false,
        can_omit: false,
    };
    let report = run(&mut provider, options);
    assert!(!report.passed());
    let text = report.assert_all_green().expect_err("not green");
    assert!(text.contains("FAIL"), "{text}");
}

#[test]
fn checks_come_in_suite_order() {
    let mut provider = FakeProvider::new(VecDeque::from([ScriptedOutcome::cancelled()]));
    let options = ConformanceOptions {
        open: provider.default_open_options(),
        can_hide_log: false,
        can_count: false,
        can_omit: true,
    };
    let report = run(&mut provider, options);
    let names: Vec<&str> = report.checks.iter().map(|check| check.name).collect();
    assert_eq!(
        names,
        vec![
            "openSession.opens",
            "execute.fourTerminalsReachable",
            "execute.rejectsDuplicateCallId",
            "execute.rejectsUnattestedAction",
            "execute.noAutonomousRetry",
            "observe.omissionIsNotAnError",
            "reconcile.foreignCredentialNeverFabricates",
            "execute.preCancelledSendsNothing",
            "reconcile.completed",
            "reconcile.completedNonSuccess",
            "reconcile.neverDispatched",
            "recordVerdict.rejectsOversizedSummary",
            "recordVerdict.rejectsOversizedEvidence",
            "recordVerdict.acceptsValid",
            "currentCursor.monotonic",
            "reconcile.logUnavailable",
            "end.completes",
        ]
    );
    assert_eq!(report.checks[1].status, CheckStatus::Failed);
    assert_eq!(report.checks[2].status, CheckStatus::Skipped);
}

#[test]
fn a_refused_opening_is_one_failed_check() {
    let mut provider = FakeProvider::new(VecDeque::new());
    let mut open = provider.default_open_options();
    open.lockfile_digest =
        pointlock::ir::primitives::Hash::new(&format!("sha256:{}", "f".repeat(64))).unwrap();
    let options = ConformanceOptions {
        open,
        can_hide_log: false,
        can_count: false,
        can_omit: false,
    };
    let report = run(&mut provider, options);
    assert_eq!(report.checks.len(), 1);
    assert_eq!(report.checks[0].status, CheckStatus::Failed);
}

#[test]
fn drawn_ids_are_written_ids_and_differ() {
    let mut provider = FakeProvider::new(VecDeque::new());
    let options = ConformanceOptions {
        open: provider.default_open_options(),
        can_hide_log: false,
        can_count: false,
        can_omit: false,
    };
    let mut ids: Vec<String> = Vec::new();
    let mut suite = Suite::start(&options);
    let session = provider.open_session(options.open.clone()).expect("open");
    suite = suite.advance(SuiteEvent::Opened(Ok(ActionName::new("tapElement").unwrap())));
    assert!(suite.accepts(&SuiteEvent::Cursor(session.current_cursor(provider.handle()))));
    assert!(!suite.accepts(&SuiteEvent::Counted(0)));
    suite = suite.advance(SuiteEvent::Cursor(session.current_cursor(provider.handle())));
    for outcome in [
        ScriptedOutcome::succeeded(),
        ScriptedOutcome::failed("device_unavailable", false),
        ScriptedOutcome::cancelled(),
        ScriptedOutcome::timed_out(),
    ] {
        let SuiteCall::Execute { call, .. } = suite.next_call() else {
            panic!("expected an execute");
        };
        ids.push(call.call_id.clone());
        provider.handle().push_script(outcome);
        suite = suite.advance(SuiteEvent::Executed(session.execute(
            provider.handle(),
            call,
            false,
        )));
    }
    for (n, id) in ids.iter().enumerate() {
        assert_eq!(uuid::Uuid::parse_str(id).expect("an id").to_string(), *id);
        assert!(!ids[..n].contains(id));
    }
}

fn refused(class: ErrorClass) -> ProviderError {
    ProviderError::concluded(class, "no".to_owned())
}

#[test]
fn judgements_tell_right_from_wrong() {
    let wrong: Result<ActionOutcome, ProviderError> = Err(refused(ErrorClass::TransportLost));
    assert!(judge_terminal(0, "id", &wrong).is_err());
    assert!(judge_duplicate(&wrong).is_ok());
    assert_eq!(
        judge_duplicate(&Ok(ActionOutcome::Failed {
            error: ErrorInfo {
                code: "element_not_found".to_owned(),
                message: "no".to_owned(),
                retryable: false,
                details: None,
            }
        })),
        Err(
            "a repeated callId must be rejected (a retry is a new callId + new WAL intent); \
             got terminal failed"
                .to_owned()
        )
    );
    assert!(judge_never(&Ok(ReconcileResult::NeverDispatched), "").is_ok());
    assert!(judge_never(&Ok(ReconcileResult::StartedNoTerminal), "").is_err());
    assert!(judge_foreign(&Ok(ReconcileResult::StartedNoTerminal)).is_ok());
    assert!(judge_foreign(&Ok(ReconcileResult::NeverDispatched)).is_err());
    assert!(judge_completed("id", &Ok(ReconcileResult::NeverDispatched), "").is_err());
    assert!(expect_bind_arguments_invalid(&Ok(()), "verdict").is_err());
    assert!(
        expect_bind_arguments_invalid(&Err(refused(ErrorClass::BindArgumentsInvalid)), "verdict")
            .is_ok()
    );
}
