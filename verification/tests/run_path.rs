use pointlock::ir::primitives::{AssertId, FlowId, StepId};
use pointlock::ir::run_path::{
    parse_run_path, render_parsed_run_path, render_run_path, ParsedPathFrame, PathFrame,
};
use pointlock::ir::vocab::{HandlerHook, Phase};

#[test]
fn rejects_malformed_paths() {
    for bad in [
        "",
        "checkout",
        "checkout@a1f3",
        "checkout@A1F3C9D2",
        "checkout@a1f3c9d2/x#",
        "checkout@a1f3c9d2/x#1:sleep",
        "checkout@a1f3c9d2/eachItem[2]:act",
        "checkout@a1f3c9d2/eachItem[a]",
        "checkout@a1f3c9d2/eachItem[2",
        "checkout@a1f3c9d2/hook:onFoo:1",
        "checkout@a1f3c9d2/hook:onFail",
        "checkout@a1f3c9d2/call→x@11223344",
        "checkout@a1f3c9d2/9bad",
        "checkout@a1f3c9d2//x",
    ] {
        assert!(parse_run_path(bad).is_err(), "expected reject: {bad:?}");
    }
}

fn hash_with_prefix(prefix: &str) -> pointlock::ir::primitives::Hash {
    pointlock::ir::primitives::Hash::new(&format!("sha256:{prefix}{}", "0".repeat(64 - prefix.len())))
        .expect("valid hash literal")
}

fn flow(id: &str, prefix: &str) -> PathFrame {
    PathFrame::Flow {
        flow_id: FlowId::new(id).expect("valid flow id"),
        ir_hash: hash_with_prefix(prefix),
    }
}

fn step(id: &str) -> PathFrame {
    PathFrame::Step {
        step_id: StepId::new(id).expect("valid step id"),
    }
}

fn call(id: &str, callee: &str, prefix: &str) -> PathFrame {
    PathFrame::Call {
        step_id: Some(StepId::new(id).expect("valid step id")),
        callee_flow_id: FlowId::new(callee).expect("valid flow id"),
        callee_ir_hash: hash_with_prefix(prefix),
    }
}

fn attempt(n: u64) -> PathFrame {
    PathFrame::Attempt { n }
}

fn phase(phase: Phase) -> PathFrame {
    PathFrame::Phase { phase }
}

fn assertion(id: &str) -> PathFrame {
    PathFrame::Assertion {
        assert_id: AssertId::new(id).expect("valid assert id"),
    }
}

/// Rendering and parsing back must reproduce the text, and the parsed frames
/// must be the frames with truncated hashes.
fn assert_round_trip(frames: Vec<PathFrame>, expected: &str) {
    let rendered = render_run_path(&frames);
    assert_eq!(rendered, expected);
    let parsed = parse_run_path(&rendered).expect("canonical rendering must parse");
    let truncated: Vec<ParsedPathFrame> = frames.iter().map(ParsedPathFrame::of).collect();
    assert_eq!(parsed, truncated);
    assert_eq!(render_parsed_run_path(&parsed), rendered);
}

#[test]
fn renders_step_attempt_phase() {
    assert_round_trip(
        vec![
            flow("checkout", "a1f3c9d2"),
            step("loadCart"),
            attempt(1),
            phase(Phase::Act),
        ],
        "checkout@a1f3c9d2/loadCart#1:act",
    );
}

#[test]
fn renders_iteration_and_assertion() {
    assert_round_trip(
        vec![
            flow("checkout", "a1f3c9d2"),
            step("eachItem"),
            PathFrame::Iteration {
                index: 2,
                key: None,
            },
            step("addToCart"),
            attempt(3),
            assertion("itemInCart"),
        ],
        "checkout@a1f3c9d2/eachItem[2]/addToCart#3!itemInCart",
    );
}

#[test]
fn renders_call_crossing_into_callee() {
    assert_round_trip(
        vec![
            flow("checkout", "a1f3c9d2"),
            call("purchase", "login", "9c2e77b0"),
            step("enterPassword"),
            attempt(2),
            assertion("tokenVisible"),
        ],
        "checkout@a1f3c9d2/purchase/call→login@9c2e77b0/enterPassword#2!tokenVisible",
    );
}

#[test]
fn call_attempt_attaches_to_the_call_step_segment() {
    assert_round_trip(
        vec![
            flow("checkout", "a1f3c9d2"),
            call("purchase", "login", "9c2e77b0"),
            attempt(2),
            step("focusAccount"),
            attempt(1),
            phase(Phase::Preflight),
        ],
        "checkout@a1f3c9d2/purchase#2/call→login@9c2e77b0/focusAccount#1:preflight",
    );
}

#[test]
fn path_may_end_at_the_call_frame() {
    assert_round_trip(
        vec![
            flow("checkout", "a1f3c9d2"),
            call("purchase", "login", "9c2e77b0"),
        ],
        "checkout@a1f3c9d2/purchase/call→login@9c2e77b0",
    );
}

#[test]
fn keyed_iteration_round_trips() {
    assert_round_trip(
        vec![
            flow("checkout", "a1f3c9d2"),
            step("eachItem"),
            PathFrame::Iteration {
                index: 3,
                key: Some("sku-42".to_owned()),
            },
            step("addToCart"),
        ],
        "checkout@a1f3c9d2/eachItem[3:sku-42]/addToCart",
    );
}

#[test]
fn synthesized_step_ids_keep_their_colons() {
    assert_round_trip(
        vec![
            flow("checkout", "a1f3c9d2"),
            step("pay"),
            PathFrame::Hook {
                hook: HandlerHook::OnUnknown,
                trigger: 1,
            },
            step("pay:onUnknown:escalate"),
        ],
        "checkout@a1f3c9d2/pay/hook:onUnknown:1/pay:onUnknown:escalate",
    );
}

#[test]
fn hook_launched_subflow_parses_with_step_less_call_frame() {
    let input = "checkout@a1f3c9d2/pay/hook:onFail:1/call→repairCart@55d0ab12/clearStale#1:act";
    let parsed = parse_run_path(input).expect("must parse");
    assert_eq!(
        parsed,
        vec![
            ParsedPathFrame::Flow {
                flow_id: FlowId::new("checkout").unwrap(),
                ir_hash_prefix: "a1f3c9d2".to_owned(),
            },
            ParsedPathFrame::Step {
                step_id: StepId::new("pay").unwrap()
            },
            ParsedPathFrame::Hook {
                hook: HandlerHook::OnFail,
                trigger: 1
            },
            ParsedPathFrame::Call {
                step_id: None,
                callee_flow_id: FlowId::new("repairCart").unwrap(),
                callee_ir_hash_prefix: "55d0ab12".to_owned(),
            },
            ParsedPathFrame::Step {
                step_id: StepId::new("clearStale").unwrap()
            },
            ParsedPathFrame::Attempt { n: 1 },
            ParsedPathFrame::Phase { phase: Phase::Act },
        ],
    );
    assert_eq!(render_parsed_run_path(&parsed), input);
}

#[test]
fn parse_errors_point_at_the_segment() {
    let error = parse_run_path("checkout@a1f3c9d2/x#1:sleep").unwrap_err();
    assert_eq!(error.offset, 18);
    assert!(error.describe().contains(&error.message));
}

#[test]
fn every_accepted_text_is_rendered_back() {
    for text in [
        "f@11223344",
        "f@11223344/x#1:act",
        "f@11223344/x[0]#10!a",
        "f@11223344/x[0:k:1]",
        "f@11223344/x/hook:onError:20/call→g@aabbccdd/y",
        "f@11223344/x#2/call→g@aabbccdd/y#18446744073709551615",
    ] {
        let frames = parse_run_path(text).expect("a canonical text");
        assert_eq!(render_parsed_run_path(&frames), text);
    }
}

#[test]
fn numbers_are_written_in_one_way() {
    for bad in [
        "f@11223344/x#01",
        "f@11223344/x#00",
        "f@11223344/x[00]",
        "f@11223344/x[+1]",
        "f@11223344/x[]",
        "f@11223344/x/hook:onFail:01",
        "f@11223344/x/hook:onFail:+1",
        "f@11223344/x#18446744073709551616",
    ] {
        assert!(parse_run_path(bad).is_err(), "expected reject: {bad:?}");
    }
}

#[test]
fn attempts_and_triggers_count_from_one() {
    assert_eq!(
        parse_run_path("f@11223344/x#0").expect_err("no attempt").describe(),
        "invalid RunPath string at byte 11: attempt number out of range: \"0\""
    );
    assert_eq!(
        parse_run_path("f@11223344/x/hook:onFail:0")
            .expect_err("no trigger")
            .describe(),
        "invalid RunPath string at byte 13: hook trigger must be at least 1"
    );
    assert!(parse_run_path("f@11223344/x[0]").is_ok());
}

#[test]
fn an_assertion_is_the_path_tail() {
    assert!(parse_run_path("f@11223344/x!a").is_ok());
    for bad in ["f@11223344/x!a/y", "f@11223344/x!a/hook:onFail:1"] {
        assert_eq!(
            parse_run_path(bad).expect_err("nothing follows").describe(),
            "invalid RunPath string at byte 15: an assertion ends its path"
        );
    }
    assert!(parse_run_path("f@11223344/x!a/call→g@aabbccdd").is_err());
}
