use pointlock::ir::primitives::FlowId;
use pointlock::ir::record::{
    BindingState, CallFrame, CheckpointView, EventCursor, Frontier, HumanPending, IterState,
    PendingIntent,
};
use pointlock::ir::vocab::{HumanMode, HumanPurpose, StepState};
use pointlock::json::{parse_json, Json};
use pointlock::keyed::TextMap;
use pointlock::wire::Wire;

fn json(text: &str) -> Json {
    parse_json(text).expect("a JSON text")
}

/// The value at a path of member names and array positions.
fn get<'a>(value: &'a Json, path: &[&str]) -> Option<&'a Json> {
    let mut at = value;
    for part in path {
        at = match at {
            Json::Object(_) => at.member(part)?,
            Json::Array(items) => items.get(part.parse::<usize>().ok()?)?,
            _ => return None,
        };
    }
    Some(at)
}

fn hash(fill: &str) -> pointlock::ir::primitives::Hash {
    pointlock::ir::primitives::Hash::new(&format!("sha256:{}", fill.repeat(64)))
        .expect("valid hash literal")
}

#[test]
fn iter_state_uses_the_as_keyword_on_the_wire() {
    let iter = IterState {
        var: "item".to_owned(),
        index: 2,
        key: None,
    };
    assert_eq!(iter.to_json(), json(r#"{"as": "item", "index": 2}"#));
}

#[test]
fn checkpoint_view_round_trips_with_absent_optionals() {
    let view = CheckpointView {
        run_id: "run-1".to_owned(),
        ir_hash: hash("a"),
        lockfile_digest: hash("b"),
        params_snapshot: json(r#"{"user": "alice"}"#),
        binding: BindingState {
            device_id: "dev-1".to_owned(),
            session_lineage: vec!["s-1".to_owned()],
            event_cursor: EventCursor {
                session_id: "s-1".to_owned(),
                last_sequence: 42,
            },
        },
        completed: vec![],
        frames: vec![CallFrame {
            flow_id: FlowId::new("checkout").expect("flow id"),
            ir_hash: hash("a"),
            call_step_id: None,
            inputs_snapshot: json("{}"),
            vars: TextMap::new(),
            iter_stack: vec![],
            next_index: 3,
        }],
        frontier: Frontier {
            run_path: vec![],
            state: StepState::Acting,
            pending_intent: Some(PendingIntent {
                call_id: "c-1".to_owned(),
                args_snapshot: json(r#"{"x": 1}"#),
            }),
        },
        human_pending: None,
    };
    let wire = view.to_json();
    assert_eq!(get(&wire, &["frontier", "state"]), Some(&Json::text("acting")));
    assert_eq!(
        get(&wire, &["binding", "eventCursor", "lastSequence"]),
        Some(&Json::uint(42))
    );
    assert!(get(&wire, &["humanPending"]).is_none());
    assert!(get(&wire, &["frames", "0", "callStepId"]).is_none());
    let expected = r#"{
        "runId": "run-1",
        "irHash": "HASH-A",
        "lockfileDigest": "HASH-B",
        "paramsSnapshot": { "user": "alice" },
        "binding": {
            "deviceId": "dev-1",
            "sessionLineage": ["s-1"],
            "eventCursor": { "sessionId": "s-1", "lastSequence": 42 }
        },
        "completed": [],
        "frames": [
            {
                "flowId": "checkout",
                "irHash": "HASH-A",
                "inputsSnapshot": {},
                "vars": {},
                "iterStack": [],
                "nextIndex": 3
            }
        ],
        "frontier": {
            "runPath": [],
            "state": "acting",
            "pendingIntent": { "callId": "c-1", "argsSnapshot": { "x": 1 } }
        }
    }"#;
    assert_eq!(
        wire,
        json(
            &expected
                .replace("HASH-A", hash("a").as_str())
                .replace("HASH-B", hash("b").as_str())
        )
    );
}

#[test]
fn human_pending_purpose_discriminates_supervision() {
    let pending = HumanPending {
        run_path: vec![],
        request_id: "req-1".to_owned(),
        purpose: HumanPurpose::Supervision,
        mode: None,
        prompt: "Approve mutating dispatch of tapPay".to_owned(),
        deadline_at_ms: None,
    };
    let wire = pending.to_json();
    assert_eq!(get(&wire, &["purpose"]), Some(&Json::text("supervision")));
    assert!(get(&wire, &["mode"]).is_none());
    assert!(get(&wire, &["deadlineAtMs"]).is_none());
    assert_eq!(
        wire,
        json(
            r#"{
                "runPath": [],
                "requestId": "req-1",
                "purpose": "supervision",
                "prompt": "Approve mutating dispatch of tapPay"
            }"#
        )
    );
}

#[test]
fn human_pending_step_purpose_carries_mode_and_deadline() {
    let pending = HumanPending {
        run_path: vec![],
        request_id: "req-2".to_owned(),
        purpose: HumanPurpose::Step,
        mode: Some(HumanMode::Confirm),
        prompt: "Confirm the transfer".to_owned(),
        deadline_at_ms: Some(1_700_000_600_000),
    };
    let wire = pending.to_json();
    assert_eq!(get(&wire, &["mode"]), Some(&Json::text("confirm")));
    assert_eq!(
        get(&wire, &["deadlineAtMs"]),
        Some(&Json::uint(1_700_000_600_000))
    );
    assert_eq!(
        wire,
        json(
            r#"{
                "runPath": [],
                "requestId": "req-2",
                "purpose": "step",
                "mode": "confirm",
                "prompt": "Confirm the transfer",
                "deadlineAtMs": 1700000600000
            }"#
        )
    );
}
