use pointlock::ir::assertion::{AssertionIR, PredicateIR};
use pointlock::ir::expr::{Expr, ExprMap};
use pointlock::ir::flow::{
    FeatureSet, FlowIR, FlowRef, OutputDecl, ParamDecl, ProviderRef, Subflows,
};
use pointlock::ir::hash::{
    domain_hash, effect_hash, effect_hash_domain_tag, ir_hash, ir_hash_domain_tag, judge_hash,
    judge_hash_domain_tag, judge_subdomain_sans_preflight,
};
use pointlock::ir::primitives::{
    ActionName, AssertId, FeatureId, FlowId, Identifier, IrVersion, JsonPointer, JsonSchemaDocument,
    OnMissingInput, OnTimeout, Protection, ProviderName, RefPath, StepId,
};
use pointlock::ir::selector::ElementSelectorIR;
use pointlock::ir::source_map::{SourceMapEntry, SourceSpan};
use pointlock::ir::step::{
    ActionBinding, ActionStepIR, AssertStepIR, BoundAttempt, CallStepIR, ForeachStepIR,
    HumanStepIR, IfStepIR, LetStepIR, ObservationSource, StepBase, StepIR,
};
use pointlock::ir::vocab::{
    ActChannel, CanonicalVerb, EffectClassAction, ElementState, ExecutionMode, HumanMode,
    ObservationWhich, VerdictPolicy, VerifyChannel,
};
use pointlock::json::{parse_json, Json};
use pointlock::sets::OrdinalSet;
use pointlock::wire::Wire;

fn json(text: &str) -> Json {
    parse_json(text).expect("a JSON text")
}

fn h64(fill: &str) -> pointlock::ir::primitives::Hash {
    pointlock::ir::primitives::Hash::new(&format!("sha256:{}", fill.repeat(64)))
        .expect("valid hash literal")
}

fn ident(name: &str) -> Identifier {
    Identifier::new(name).expect("valid identifier")
}

fn schema(text: &str) -> JsonSchemaDocument {
    JsonSchemaDocument::new(json(text)).expect("valid schema document")
}

fn base(id: &str, effect: &str, judge: &str, checkpoint: bool) -> StepBase {
    StepBase {
        step_id: StepId::new(id).expect("valid step id"),
        effect_hash: h64(effect),
        judge_hash: h64(judge),
        preflight: None,
        retry: None,
        timeout_ms: None,
        handlers: None,
        checkpoint,
    }
}

fn toggle(assert_id: &str, state: ElementState) -> AssertionIR {
    AssertionIR {
        assert_id: AssertId::new(assert_id).expect("valid assert id"),
        predicate: PredicateIR::ElementState {
            selector: ElementSelectorIR {
                context: None,
                role: None,
                name: None,
                identifier: Some("wifi_toggle".to_owned()),
                text: None,
                value: None,
                css: None,
            },
            state,
        },
        verify_via: vec![VerifyChannel::UiTree],
        vision_prompt: None,
        on_missing_input: OnMissingInput::Value,
    }
}

fn exprs(entries: Vec<(&str, Expr)>) -> ExprMap {
    let mut map = ExprMap::new();
    for (name, expr) in entries {
        map.insert(ident(name), expr);
    }
    map
}

struct Choices {
    state: ElementState,
    element: &'static str,
    preflight: bool,
    step_id: &'static str,
    checkpoint: bool,
    timeout_ms: Option<u64>,
    verb: Option<CanonicalVerb>,
    action_effect_hash: &'static str,
    user: Option<&'static str>,
    callee: &'static str,
}

fn plain() -> Choices {
    Choices {
        state: ElementState::Visible,
        element: "wifi_row",
        preflight: false,
        step_id: "open_wifi",
        checkpoint: true,
        timeout_ms: None,
        verb: None,
        action_effect_hash: "c",
        user: None,
        callee: "1",
    }
}

fn flow_with(choices: Choices) -> FlowIR {
    let modes = OrdinalSet::new().with(ExecutionMode::NativeSemantic);
    let mut action_base = base(
        choices.step_id,
        choices.action_effect_hash,
        "d",
        choices.checkpoint,
    );
    action_base.timeout_ms = choices.timeout_ms;
    if choices.preflight {
        action_base.preflight = Some(vec![toggle("wifi_toggle_visible", choices.state)]);
    }
    let mut required_features = FeatureSet::new();
    required_features.insert(&FeatureId::new("device.semanticActions.v1").expect("feature id"));
    let mut subflows = Subflows::new();
    subflows.insert(
        FlowId::new("ensure_logged_in").expect("flow id"),
        FlowRef {
            flow_id: FlowId::new("ensure_logged_in").expect("flow id"),
            ir_hash: h64(choices.callee),
        },
    );
    let user = match choices.user {
        Some(name) => Expr::lit(Json::text(name)),
        None => Expr::reference(RefPath::new("params.ssid").expect("ref path")),
    };
    FlowIR {
        ir_version: IrVersion,
        flow_id: FlowId::new("checkout").expect("flow id"),
        ir_hash: h64("a"),
        provider: ProviderRef {
            name: ProviderName::Value,
            version: "0.4.2".to_owned(),
        },
        required_features,
        lockfile_digest: h64("b"),
        params: vec![ParamDecl {
            name: ident("ssid"),
            schema: schema(r#"{"type": "string", "minLength": 1}"#),
            required: true,
            default: None,
        }],
        outputs: vec![OutputDecl {
            name: ident("wifi_verdict"),
            schema: schema(r#"{"enum": ["pass", "fail", "unknown"]}"#),
            from: Expr::reference(RefPath::new("steps.open_wifi.verdict").expect("ref path")),
        }],
        body: vec![
            StepIR::Action(ActionStepIR {
                base: action_base,
                verb: choices.verb,
                effect: EffectClassAction::Mutating,
                idempotent: true,
                binding: ActionBinding {
                    attempts: vec![BoundAttempt {
                        channel: ActChannel::UiTree,
                        action_name: ActionName::new("tapElement").expect("action name"),
                        args: exprs(vec![(
                            "elementId",
                            Expr::lit(Json::text(choices.element)),
                        )]),
                        requires_feature: None,
                        accept_execution_modes: modes,
                        protection: Protection::Value,
                    }],
                },
                assertions: vec![toggle("wifi_toggle_visible", choices.state)],
                outputs: None,
                output_schema: None,
            }),
            StepIR::Call(CallStepIR {
                base: base("login", "e", "f", true),
                flow_ref: FlowRef {
                    flow_id: FlowId::new("ensure_logged_in").expect("flow id"),
                    ir_hash: h64("1"),
                },
                inputs: exprs(vec![("user", user)]),
            }),
        ],
        handlers: None,
        verdict_policy: VerdictPolicy::Strict,
        source_map: vec![SourceMapEntry {
            ir_path: JsonPointer::new("/body/0").expect("pointer"),
            file: "checkout.yaml".to_owned(),
            span: SourceSpan {
                start_line: 3,
                start_col: 1,
                end_line: 9,
                end_col: 20,
            },
            origin: None,
        }],
        subflows,
    }
}

fn fixture() -> FlowIR {
    flow_with(plain())
}

#[test]
fn flows_have_the_wire_shape() {
    let text = r#"{
        "irVersion": 1,
        "flowId": "checkout",
        "irHash": "sha256:A64",
        "provider": { "name": "devicerail", "version": "0.4.2" },
        "requiredFeatures": ["device.semanticActions.v1"],
        "lockfileDigest": "sha256:B64",
        "params": [
            { "name": "ssid", "schema": { "type": "string", "minLength": 1 }, "required": true }
        ],
        "outputs": [
            { "name": "wifi_verdict", "schema": { "enum": ["pass", "fail", "unknown"] },
              "from": { "ref": "steps.open_wifi.verdict" } }
        ],
        "body": [
            {
                "kind": "action",
                "stepId": "open_wifi",
                "effectHash": "sha256:C64",
                "judgeHash": "sha256:D64",
                "checkpoint": true,
                "effect": "mutating",
                "idempotent": true,
                "binding": { "attempts": [ {
                    "channel": "uiTree",
                    "actionName": "tapElement",
                    "args": { "elementId": { "lit": "wifi_row" } },
                    "acceptExecutionModes": ["nativeSemantic"],
                    "protection": "standard"
                } ] },
                "assertions": [ {
                    "assertId": "wifi_toggle_visible",
                    "predicate": { "type": "elementState",
                                   "selector": { "identifier": "wifi_toggle" },
                                   "state": "visible" },
                    "verifyVia": ["uiTree"],
                    "onMissingInput": "unknown"
                } ]
            },
            {
                "kind": "call",
                "stepId": "login",
                "effectHash": "sha256:E64",
                "judgeHash": "sha256:F64",
                "checkpoint": true,
                "flowRef": { "flowId": "ensure_logged_in", "irHash": "sha256:164" },
                "inputs": { "user": { "ref": "params.ssid" } }
            }
        ],
        "verdictPolicy": "strict",
        "sourceMap": [
            { "irPath": "/body/0", "file": "checkout.yaml",
              "span": { "startLine": 3, "startCol": 1, "endLine": 9, "endCol": 20 } }
        ],
        "subflows": {
            "ensure_logged_in": { "flowId": "ensure_logged_in", "irHash": "sha256:164" }
        }
    }"#;
    let mut text = text.replace("164", &"1".repeat(64));
    for (mark, digit) in [("A", "a"), ("B", "b"), ("C", "c"), ("D", "d"), ("E", "e"), ("F", "f")] {
        text = text.replace(&format!("{mark}64"), &digit.repeat(64));
    }
    assert_eq!(fixture().to_json(), json(&text));
}

#[test]
fn domain_hash_matches_known_vector() {
    assert_eq!(
        domain_hash("t", &json("{}")).as_str(),
        "sha256:53483cb46c6e871463e91efe3683f0ad7de603f6fff8eafbb2c42f5fef6d124e"
    );
}

#[test]
fn domain_tags_separate_hash_domains() {
    let subtree = json("{}");
    let e = domain_hash(&effect_hash_domain_tag("assert"), &subtree);
    let j = domain_hash(&judge_hash_domain_tag("assert"), &subtree);
    let i = domain_hash(&ir_hash_domain_tag(), &subtree);
    assert_ne!(e, j);
    assert_ne!(e, i);
    assert_ne!(j, i);
    assert_eq!(e, domain_hash(&effect_hash_domain_tag("assert"), &subtree));
    assert_eq!(ir_hash_domain_tag(), "pointlock-ir/1/irHash");
    assert_eq!(
        effect_hash_domain_tag("let"),
        "pointlock-ir/1/effectHash/let"
    );
    assert_eq!(judge_hash_domain_tag("let"), "pointlock-ir/1/judgeHash/let");
}

#[test]
fn reordered_object_keys_do_not_move_ir_hash() {
    let mini = |param_schema: &str| FlowIR {
        ir_version: IrVersion,
        flow_id: FlowId::new("mini").expect("flow id"),
        ir_hash: h64("e"),
        provider: ProviderRef {
            name: ProviderName::Value,
            version: "1.0.0".to_owned(),
        },
        required_features: FeatureSet::new(),
        lockfile_digest: h64("f"),
        params: vec![ParamDecl {
            name: ident("label"),
            schema: schema(param_schema),
            required: false,
            default: Some(Json::text("x")),
        }],
        outputs: vec![],
        body: vec![StepIR::Let(LetStepIR {
            base: base("bind_label", "0", "1", true),
            bindings: exprs(vec![("label", Expr::lit(Json::text("x")))]),
        })],
        handlers: None,
        verdict_policy: VerdictPolicy::Standard,
        source_map: vec![],
        subflows: Subflows::new(),
    };
    let flow_a = mini(r#"{ "type": "string", "minLength": 1 }"#);
    let flow_b = mini(r#"{ "minLength": 1, "type": "string" }"#);
    assert_eq!(flow_a, flow_b);
    assert_eq!(ir_hash(&flow_a), ir_hash(&flow_b));
}

#[test]
fn assertion_change_moves_judge_hash_only() {
    let flow = fixture();
    let changed = flow_with(Choices {
        state: ElementState::Enabled,
        ..plain()
    });
    assert_eq!(effect_hash(&flow.body[0]), effect_hash(&changed.body[0]));
    assert_ne!(judge_hash(&flow.body[0]), judge_hash(&changed.body[0]));
    assert_ne!(ir_hash(&flow), ir_hash(&changed));
}

#[test]
fn argument_change_moves_effect_hash_only() {
    let flow = fixture();
    let changed = flow_with(Choices {
        element: "bluetooth_row",
        ..plain()
    });
    assert_ne!(effect_hash(&flow.body[0]), effect_hash(&changed.body[0]));
    assert_eq!(judge_hash(&flow.body[0]), judge_hash(&changed.body[0]));
}

#[test]
fn preflight_change_moves_judge_hash_only() {
    let flow = fixture();
    let changed = flow_with(Choices {
        preflight: true,
        ..plain()
    });
    assert_eq!(effect_hash(&flow.body[0]), effect_hash(&changed.body[0]));
    assert_ne!(judge_hash(&flow.body[0]), judge_hash(&changed.body[0]));
    // Without the probes the two are judged alike.
    assert_eq!(
        judge_subdomain_sans_preflight(&flow.body[0]),
        judge_subdomain_sans_preflight(&changed.body[0])
    );
}

#[test]
fn identity_and_budget_fields_move_neither_hash() {
    let flow = fixture();
    let changed = flow_with(Choices {
        step_id: "open_wifi_renamed",
        checkpoint: false,
        timeout_ms: Some(9999),
        verb: Some(CanonicalVerb::Tap),
        ..plain()
    });
    assert_eq!(effect_hash(&flow.body[0]), effect_hash(&changed.body[0]));
    assert_eq!(judge_hash(&flow.body[0]), judge_hash(&changed.body[0]));
    assert_ne!(ir_hash(&flow), ir_hash(&changed));
}

#[test]
fn call_inputs_change_moves_effect_hash_only() {
    let flow = fixture();
    let changed = flow_with(Choices {
        user: Some("admin"),
        ..plain()
    });
    assert_ne!(effect_hash(&flow.body[1]), effect_hash(&changed.body[1]));
    assert_eq!(judge_hash(&flow.body[1]), judge_hash(&changed.body[1]));
}

#[test]
fn human_prompt_change_moves_effect_hash_only() {
    let human = |prompt: &str| {
        StepIR::Human(HumanStepIR {
            base: base("approve", "2", "3", true),
            mode: HumanMode::Judge,
            prompt: prompt.to_owned(),
            presents: vec![],
            decisions: Some(vec![
                "pass".to_owned(),
                "fail".to_owned(),
                "unknown".to_owned(),
            ]),
            output_schema: None,
            timeout_ms: 3600000,
            on_timeout: OnTimeout::Value,
        })
    };
    let a = human("Approve the run?");
    let b = human("Approve the release?");
    assert_ne!(effect_hash(&a), effect_hash(&b));
    assert_eq!(judge_hash(&a), judge_hash(&b));
}

fn if_step(child: &str, cond: bool) -> StepIR {
    StepIR::If(IfStepIR {
        base: base("branch", "4", "5", true),
        cond: Expr::lit(Json::Bool(cond)),
        then_steps: vec![StepIR::Let(LetStepIR {
            base: base("bind", "6", "7", false),
            bindings: exprs(vec![("x", Expr::lit(Json::text(child)))]),
        })],
        else_steps: None,
    })
}

#[test]
fn container_hashes_exclude_the_subtree() {
    let a = if_step("a", true);
    let b = if_step("b", true);
    assert_eq!(effect_hash(&a), effect_hash(&b));
    assert_eq!(judge_hash(&a), judge_hash(&b));
    assert_ne!(effect_hash(&a), effect_hash(&if_step("a", false)));
}

#[test]
fn foreach_hashes_exclude_the_body() {
    let each = |child: &str, items: &str| {
        StepIR::Foreach(ForeachStepIR {
            base: base("each", "4", "5", true),
            items: Expr::reference(RefPath::new(items).expect("ref path")),
            item_name: ident("item"),
            body: vec![if_step(child, true)],
        })
    };
    assert_eq!(
        effect_hash(&each("a", "params.list")),
        effect_hash(&each("b", "params.list"))
    );
    assert_ne!(
        effect_hash(&each("a", "params.list")),
        effect_hash(&each("a", "params.other"))
    );
}

#[test]
fn assert_step_effect_domain_is_kind_only() {
    let assert_step = |observe: ObservationSource, state: ElementState| {
        StepIR::Assert(AssertStepIR {
            base: base("check", "8", "9", true),
            observe,
            assertions: vec![toggle("toggle_state", state)],
        })
    };
    let a = assert_step(ObservationSource::fresh(), ElementState::Visible);
    let b = assert_step(
        ObservationSource::from_step(
            StepId::new("open_wifi").expect("step id"),
            ObservationWhich::After,
        ),
        ElementState::Enabled,
    );
    assert_eq!(effect_hash(&a), effect_hash(&b));
    assert_eq!(
        effect_hash(&a).as_str(),
        "sha256:9c76efbea403620940da9e87d44460e22c1b6f6081c9a95821838d1d34991d67"
    );
    assert_ne!(judge_hash(&a), judge_hash(&b));
}

#[test]
fn ir_hash_excludes_ir_hash_and_source_map() {
    let flow = fixture();
    let mut cosmetic = fixture();
    cosmetic.ir_hash = h64("9");
    cosmetic.source_map.clear();
    assert_eq!(ir_hash(&flow), ir_hash(&cosmetic));

    let step_hash_changed = flow_with(Choices {
        action_effect_hash: "9",
        ..plain()
    });
    assert_ne!(ir_hash(&flow), ir_hash(&step_hash_changed));
}

#[test]
fn ir_hash_covers_subflow_pins() {
    let repinned = flow_with(Choices {
        callee: "2",
        ..plain()
    });
    assert_ne!(ir_hash(&fixture()), ir_hash(&repinned));
}
