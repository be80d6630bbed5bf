use pointlock::human::cli::{
    answer_hint, cli_actor, find_pending, interpret_answer, pending_requests, provided_input,
    read_answer, recorded_line, render, Answer, HumanCliError, PendingRequest,
};
use pointlock::human::webhook::{
    build_notification, signature_for, signature_text, SIGNATURE_HEADER,
};
use pointlock::ir::run_log::{RunLogEvent, RunLogPayload};
use pointlock::ir::vocab::{HumanMode, HumanPurpose};
use pointlock::json::{parse_json, Json};

fn json(text: &str) -> Json {
    parse_json(text).expect("a JSON text")
}

fn request(purpose: HumanPurpose, mode: Option<HumanMode>) -> PendingRequest {
    PendingRequest {
        request_id: "req-1".to_owned(),
        purpose,
        mode,
        prompt: "p".to_owned(),
        presents: json("[]"),
        decisions: Some(vec!["yes".to_owned(), "no".to_owned()]),
        output_schema: None,
        deadline_at_ms: None,
        run_path: Vec::new(),
    }
}

#[test]
fn interprets_the_mode_vocabularies() {
    let judge = request(HumanPurpose::Step, Some(HumanMode::Judge));
    assert_eq!(
        interpret_answer(&judge, "pass\n").expect("judge"),
        json(r#"{ "status": "pass" }"#)
    );
    assert!(interpret_answer(&judge, "yes").is_err());

    let confirm = request(HumanPurpose::Step, Some(HumanMode::Confirm));
    assert_eq!(
        interpret_answer(&confirm, "no").expect("confirm"),
        json(r#"{ "decision": "no" }"#)
    );
    assert!(interpret_answer(&confirm, "maybe").is_err());

    let gate = request(HumanPurpose::Supervision, None);
    assert_eq!(
        interpret_answer(&gate, "suspend").expect("gate"),
        json(r#"{ "decision": "suspend" }"#)
    );

    let provide = request(HumanPurpose::Step, Some(HumanMode::ProvideInput));
    assert_eq!(
        interpret_answer(&provide, r#"{"ssid":"lab"}"#).expect("provide"),
        json(r#"{ "input": { "ssid": "lab" } }"#)
    );
    assert!(interpret_answer(&provide, "not json").is_err());

    let mut repair = request(HumanPurpose::Step, Some(HumanMode::RepairWorld));
    repair.decisions = None;
    assert_eq!(
        interpret_answer(&repair, "done").expect("repair"),
        json(r#"{ "decision": "done" }"#)
    );
    assert_eq!(
        interpret_answer(&repair, "cannotRepair").expect("repair"),
        json(r#"{ "decision": "cannotRepair" }"#)
    );
    assert!(interpret_answer(&repair, "repaired").is_err());
    assert!(interpret_answer(&repair, "abort").is_err());
}

#[test]
fn repair_world_honors_declared_decisions() {
    let mut adjudicate = request(HumanPurpose::Step, Some(HumanMode::RepairWorld));
    adjudicate.decisions = Some(vec![
        "adopt".to_owned(),
        "redo".to_owned(),
        "abort".to_owned(),
    ]);
    assert_eq!(
        interpret_answer(&adjudicate, "adopt").expect("declared"),
        json(r#"{ "decision": "adopt" }"#)
    );
    assert!(interpret_answer(&adjudicate, "done").is_err());
    assert!(answer_hint(&adjudicate).contains("'adopt' | 'redo' | 'abort'"));
}

#[test]
fn cli_actor_carries_the_os_principal() {
    let actor = cli_actor(Some("ada".to_owned()), None, "lab");
    assert!(actor.starts_with("cli:os:"), "{actor}");
    assert!(actor.contains('@'), "{actor}");
    assert_ne!(actor, "cli:os:@");
    assert_eq!(actor, "cli:os:ada@lab");
    assert_eq!(
        cli_actor(None, Some("bob".to_owned()), "lab"),
        "cli:os:bob@lab"
    );
    assert_eq!(cli_actor(None, None, "lab"), "cli:os:unknown@lab");
}

#[test]
fn repair_world_hint_matches_the_accepted_vocabulary() {
    let mut repair = request(HumanPurpose::Step, Some(HumanMode::RepairWorld));
    repair.decisions = None;
    let hint = answer_hint(&repair);
    assert!(hint.contains("done") && hint.contains("cannotRepair"));
    assert!(!hint.contains("repaired"));
}

#[test]
fn refusals_say_what_would_have_been_right() {
    let text = |request: &PendingRequest, line: &str| {
        interpret_answer(request, line).unwrap_err().describe()
    };
    let gate = request(HumanPurpose::Supervision, None);
    assert_eq!(
        text(&gate, "go"),
        "invalid answer: 'go' is not a supervision decision (proceed|abort|suspend)"
    );
    assert_eq!(text(&gate, "  \t\n"), "invalid answer: empty answer");
    let confirm = request(HumanPurpose::Step, Some(HumanMode::Confirm));
    assert_eq!(
        text(&confirm, "maybe"),
        "invalid answer: 'maybe' is not one of the confirm labels [\"yes\", \"no\"]"
    );
    let judge = request(HumanPurpose::Step, Some(HumanMode::Judge));
    assert_eq!(
        text(&judge, "ok"),
        "invalid answer: 'ok' is not a judge status (pass|fail|unknown)"
    );
    let shapeless = request(HumanPurpose::Step, None);
    assert_eq!(
        text(&shapeless, "x"),
        "invalid answer: request carries no mode"
    );
    assert_eq!(answer_hint(&shapeless), "answer: (unknown request shape)");
    let provide = request(HumanPurpose::Step, Some(HumanMode::ProvideInput));
    assert!(text(&provide, "{").starts_with("invalid answer: provideInput answer is not JSON: "));
    assert_eq!(
        HumanCliError::Store("locked".to_owned()).describe(),
        "store: locked"
    );
    assert_eq!(HumanCliError::Io("eof".to_owned()).describe(), "io: eof");
}

#[test]
fn every_hinted_word_is_an_answer() {
    let gate = request(HumanPurpose::Supervision, None);
    for word in ["proceed", "abort", "suspend"] {
        assert!(answer_hint(&gate).contains(word));
        assert_eq!(
            interpret_answer(&gate, &format!("  {word}\r\n")).expect("word"),
            json(&format!("{{\"decision\": \"{word}\"}}"))
        );
    }
}

fn event(seq: u64, payload: RunLogPayload) -> RunLogEvent {
    RunLogEvent {
        run_id: "run-1".to_owned(),
        seq,
        at_ms: 0,
        run_path: Vec::new(),
        payload,
    }
}

fn requested(seq: u64, id: &str, purpose: HumanPurpose) -> RunLogEvent {
    event(
        seq,
        RunLogPayload::HumanRequested {
            request_id: id.to_owned(),
            purpose,
            mode: None,
            prompt: format!("prompt of {id}"),
            presents: json("[]"),
            decisions: None,
            output_schema: None,
            deadline_at_ms: None,
        },
    )
}

fn responded(seq: u64, id: &str, purpose: HumanPurpose, decision: &str) -> RunLogEvent {
    event(
        seq,
        RunLogPayload::HumanResponded {
            request_id: id.to_owned(),
            purpose,
            response: json(&format!("{{\"decision\": \"{decision}\"}}")),
            actor: "cli".to_owned(),
        },
    )
}

#[test]
fn final_answers_settle_and_suspension_does_not() {
    let step = HumanPurpose::Step;
    let gate = HumanPurpose::Supervision;
    let mut events = vec![
        requested(1, "a", step),
        requested(2, "b", gate),
        requested(3, "c", step),
        responded(4, "a", step, "suspend"),
        responded(5, "b", gate, "suspend"),
    ];
    let ids = |events: &Vec<RunLogEvent>| -> Vec<String> {
        pending_requests(events)
            .into_iter()
            .map(|r| r.request_id)
            .collect()
    };
    assert_eq!(ids(&events), ["b", "c"]);
    assert_eq!(
        find_pending(&events, "b").expect("pending").prompt,
        "prompt of b"
    );
    assert_eq!(
        find_pending(&events, "a").unwrap_err().describe(),
        "no pending request 'a' on the ledger"
    );
    events.push(responded(6, "b", gate, "proceed"));
    assert_eq!(ids(&events), ["c"]);
    events.push(requested(7, "a", step));
    assert_eq!(ids(&events), ["c", "a"]);
}

#[test]
fn requests_are_rendered_line_by_line() {
    let mut shown = request(HumanPurpose::Step, Some(HumanMode::Confirm));
    shown.presents = json(r#"[{"x": 1}, "two"]"#);
    shown.deadline_at_ms = Some(99);
    assert_eq!(
        render(&shown),
        "── human request req-1 ──\nkind: human step (confirm)\nprompt: p\npresents:\n  [0] \
         {\"x\":1}\n  [1] \"two\"\ndeadlineAtMs: 99\nanswer: 'yes' | 'no'\n"
    );
    assert_eq!(
        render(&request(HumanPurpose::Supervision, None)),
        "── human request req-1 ──\nkind: supervision gate\nprompt: p\nanswer: proceed | abort | \
         suspend\n"
    );
    assert_eq!(recorded_line(7), "response recorded (seq 7)\n");
}

#[test]
fn signature_matches_the_rfc_4231_vector() {
    assert_eq!(
        signature_for("what do ya want for nothing?", "Jefe"),
        "sha256=5bdcc146bf60754e6a042426089575c75a003f089d2739839dec58b964ec3843"
    );
    assert_ne!(
        signature_for("what do ya want for nothing!", "Jefe"),
        signature_for("what do ya want for nothing?", "Jefe")
    );
}

#[test]
fn notification_envelope_is_versioned_and_signable() {
    let notification = build_notification(Vec::new(), "/tmp/store", "run-1", None);
    let envelope = json(&notification.body);
    assert_eq!(envelope.member("pointlockWebhook"), Some(&Json::uint(1)));
    assert_eq!(envelope.member("runId"), Some(&Json::text("run-1")));
    match envelope.member("respondHint") {
        Some(Json::Text(hint)) => assert!(hint.contains("pointlock resume")),
        other => panic!("expected a hint, got {other:?}"),
    }
    assert_eq!(envelope.member("entries"), Some(&json("[]")));
    assert_eq!(notification.signature, None);
    let signed = build_notification(Vec::new(), "/tmp/store", "run-1", Some("s3cret"));
    assert_eq!(
        signed.signature.as_deref(),
        Some(signature_for(&signed.body, "s3cret").as_str())
    );
}

#[test]
fn notification_bodies_are_compact_json() {
    let notification = build_notification(
        vec![json(r#"{"requestId": "req-1"}"#)],
        "/s",
        "r",
        None,
    );
    assert_eq!(
        notification.body,
        "{\"entries\":[{\"requestId\":\"req-1\"}],\"pointlockWebhook\":1,\"respondHint\":\
         \"pointlock resume r --store /s (responses go through pointlock-human-cli; this webhook \
         never collects)\",\"runId\":\"r\",\"storeDir\":\"/s\"}"
    );
    assert_eq!(signature_text(&vec![0, 255]), "sha256=00ff");
    assert_eq!(SIGNATURE_HEADER, "X-Pointlock-Signature");
}

#[test]
fn inputs_are_read_as_json() {
    let provide = request(HumanPurpose::Step, Some(HumanMode::ProvideInput));
    assert_eq!(
        read_answer(&provide, " [1, -2] \n"),
        Ok(Answer::Input("[1, -2]".to_owned()))
    );
    assert_eq!(
        interpret_answer(&provide, " [1, -2] \n"),
        Ok(json(r#"{"input": [1, -2]}"#))
    );
    assert_eq!(
        provided_input(Ok(Json::Null)),
        Ok(json(r#"{"input": null}"#))
    );
    assert_eq!(
        provided_input(Err("no".to_owned())),
        Err(HumanCliError::InvalidAnswer(
            "provideInput answer is not JSON: no".to_owned()
        ))
    );
    assert_eq!(
        interpret_answer(&provide, "{").unwrap_err().describe(),
        "invalid answer: provideInput answer is not JSON: EOF while parsing an object at line 1 \
         column 1"
    );
}
