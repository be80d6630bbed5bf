use pointlock::ir::primitives::{JsonSchemaDocument, StepId};
use pointlock::ir::run_log::{RunLogEvent, RunLogPayload};
use pointlock::ir::vocab::{HumanMode, HumanPurpose, StepState, SupervisePolicy};
use pointlock::json::{parse_json, Json};
use pointlock::wire::Wire;

fn json(text: &str) -> Json {
    parse_json(text).expect("a JSON text")
}

/// The value at a path of member names and array positions.
fn get<'a>(value: &'a Json, path: &[&str]) -> Option<&'a Json> {
    let mut at = value;
    for part in path {
        at = match at {
            Json::Object(_) => at.member(part)?,
            Json::Array(items) => items.get(part.parse::<usize>().ok()?)?,
            _ => return None,
        };
    }
    Some(at)
}

fn hash(fill: &str) -> pointlock::ir::primitives::Hash {
    pointlock::ir::primitives::Hash::new(&format!("sha256:{}", fill.repeat(64)))
        .expect("valid hash literal")
}

#[test]
fn run_started_serializes_explicit_null_supervise_policy() {
    let payload = RunLogPayload::RunStarted {
        ir_hash: hash("a"),
        lockfile_digest: hash("b"),
        params_snapshot: json("{}"),
        supervise_policy: None,
    };
    let wire = payload.to_json();
    assert_eq!(get(&wire, &["type"]), Some(&Json::text("runStarted")));
    assert_eq!(get(&wire, &["supervisePolicy"]), Some(&Json::Null));

    let supervised = RunLogPayload::RunStarted {
        ir_hash: hash("a"),
        lockfile_digest: hash("b"),
        params_snapshot: json("{}"),
        supervise_policy: Some(SupervisePolicy::Mutating),
    };
    assert_eq!(
        get(&supervised.to_json(), &["supervisePolicy"]),
        Some(&Json::text("mutating"))
    );
}

#[test]
fn step_entered_carries_hashes_and_the_resolved_inputs_snapshot() {
    let payload = RunLogPayload::StepEntered {
        step_id: StepId::new("login").expect("step id"),
        effect_hash: hash("c"),
        judge_hash: hash("d"),
        resolved_inputs: json(r#"{"element": {"identifier": "loginButton"}}"#),
    };
    let wire = payload.to_json();
    assert_eq!(get(&wire, &["type"]), Some(&Json::text("stepEntered")));
    assert_eq!(
        get(&wire, &["effectHash"]),
        Some(&Json::text(&format!("sha256:{}", "c".repeat(64))))
    );
    assert_eq!(
        get(&wire, &["judgeHash"]),
        Some(&Json::text(&format!("sha256:{}", "d".repeat(64))))
    );
    assert_eq!(
        get(&wire, &["resolvedInputs"]),
        Some(&json(r#"{"element": {"identifier": "loginButton"}}"#))
    );

    let unresolved = RunLogPayload::StepEntered {
        step_id: StepId::new("blocked_step").expect("step id"),
        effect_hash: hash("c"),
        judge_hash: hash("d"),
        resolved_inputs: Json::Null,
    };
    assert_eq!(
        get(&unresolved.to_json(), &["resolvedInputs"]),
        Some(&Json::Null)
    );
}

#[test]
fn step_exited_output_is_present_only_when_projected() {
    let with_output = RunLogPayload::StepExited {
        provider_state_summary: None,
        state: StepState::Judged,
        output: Some(json(r#"{"ok": true}"#)),
        localized: Vec::new(),
        localization_gaps: Vec::new(),
    };
    let wire = with_output.to_json();
    assert_eq!(get(&wire, &["type"]), Some(&Json::text("stepExited")));
    assert_eq!(get(&wire, &["output"]), Some(&json(r#"{"ok": true}"#)));

    let without = RunLogPayload::StepExited {
        provider_state_summary: None,
        state: StepState::Blocked,
        output: None,
        localized: Vec::new(),
        localization_gaps: Vec::new(),
    };
    assert!(get(&without.to_json(), &["output"]).is_none());
    assert_eq!(
        without.to_json(),
        json(r#"{ "type": "stepExited", "state": "blocked" }"#)
    );
}

#[test]
fn human_events_carry_the_purpose_discriminator() {
    let requested = RunLogPayload::HumanRequested {
        request_id: "req-1".to_owned(),
        purpose: HumanPurpose::Supervision,
        mode: None,
        prompt: "Approve dispatch".to_owned(),
        presents: json("[]"),
        decisions: None,
        output_schema: None,
        deadline_at_ms: None,
    };
    let wire = requested.to_json();
    assert_eq!(get(&wire, &["type"]), Some(&Json::text("humanRequested")));
    assert_eq!(get(&wire, &["purpose"]), Some(&Json::text("supervision")));
    assert!(get(&wire, &["mode"]).is_none());
    assert!(get(&wire, &["decisions"]).is_none());
    assert!(get(&wire, &["outputSchema"]).is_none());
    assert!(get(&wire, &["deadlineAtMs"]).is_none());
    assert_eq!(
        wire,
        json(
            r#"{
                "type": "humanRequested",
                "requestId": "req-1",
                "purpose": "supervision",
                "prompt": "Approve dispatch",
                "presents": []
            }"#
        )
    );

    let responded = RunLogPayload::HumanResponded {
        request_id: "req-1".to_owned(),
        purpose: HumanPurpose::Supervision,
        response: json(r#"{"decision": "proceed"}"#),
        actor: "cli:dengfengwang".to_owned(),
    };
    assert_eq!(responded.event_type(), "humanResponded");
    assert_eq!(
        responded.to_json(),
        json(
            r#"{
                "type": "humanResponded",
                "requestId": "req-1",
                "purpose": "supervision",
                "response": { "decision": "proceed" },
                "actor": "cli:dengfengwang"
            }"#
        )
    );
}

#[test]
fn human_requested_step_purpose_carries_the_full_request_shape() {
    let schema = JsonSchemaDocument::new(json(
        r#"{"type": "object", "properties": {"code": {"type": "string"}}, "required": ["code"]}"#,
    ))
    .expect("valid schema document");
    let requested = RunLogPayload::HumanRequested {
        request_id: "req-2".to_owned(),
        purpose: HumanPurpose::Step,
        mode: Some(HumanMode::ProvideInput),
        prompt: "Enter the code".to_owned(),
        presents: json(r#"[{"kind": "value", "value": 1}]"#),
        decisions: Some(vec!["approve".to_owned(), "reject".to_owned()]),
        output_schema: Some(schema),
        deadline_at_ms: Some(1_700_000_600_000),
    };
    let wire = requested.to_json();
    assert_eq!(get(&wire, &["mode"]), Some(&Json::text("provideInput")));
    assert_eq!(
        get(&wire, &["decisions"]),
        Some(&json(r#"["approve", "reject"]"#))
    );
    assert_eq!(
        get(&wire, &["outputSchema", "required"]),
        Some(&json(r#"["code"]"#))
    );
    assert_eq!(
        get(&wire, &["deadlineAtMs"]),
        Some(&Json::uint(1_700_000_600_000))
    );
    assert_eq!(
        wire,
        json(
            r#"{
                "type": "humanRequested",
                "requestId": "req-2",
                "purpose": "step",
                "mode": "provideInput",
                "prompt": "Enter the code",
                "presents": [{ "kind": "value", "value": 1 }],
                "decisions": ["approve", "reject"],
                "outputSchema": {
                    "type": "object",
                    "properties": { "code": { "type": "string" } },
                    "required": ["code"]
                },
                "deadlineAtMs": 1700000600000
            }"#
        )
    );
}

#[test]
fn all_seventeen_discriminants_are_distinct_and_stable() {
    let mut seen = std::collections::BTreeSet::new();
    for name in RunLogPayload::EVENT_TYPES {
        assert!(seen.insert(name), "duplicate event type {name}");
    }
    assert_eq!(seen.len(), 17);
}

#[test]
fn envelope_round_trips() {
    let event = RunLogEvent {
        run_id: "run-1".to_owned(),
        seq: 7,
        at_ms: 1_700_000_000_000,
        run_path: vec![],
        payload: RunLogPayload::ActionIntent {
            call_id: "c-1".to_owned(),
            args_snapshot: json(r#"{"x": 1}"#),
            chain_index: None,
            channel: None,
            action_name: None,
        },
    };
    let wire = event.to_json();
    assert_eq!(
        get(&wire, &["payload", "type"]),
        Some(&Json::text("actionIntent"))
    );
    assert_eq!(get(&wire, &["seq"]), Some(&Json::uint(7)));
    assert_eq!(
        wire,
        json(
            r#"{
                "runId": "run-1",
                "seq": 7,
                "atMs": 1700000000000,
                "runPath": [],
                "payload": {
                    "type": "actionIntent",
                    "callId": "c-1",
                    "argsSnapshot": { "x": 1 }
                }
            }"#
        )
    );
}
