use pointlock::ir::primitives::{
    ActionName, AssertId, FeatureId, FlowId, Identifier, IrVersion, JsonPointer, JsonSchemaDocument,
    RefPath, StepId,
};
use pointlock::json::Json;
use pointlock::wire::Wire;

fn hash_of(algorithm: &str, digit: &str) -> Result<pointlock::ir::primitives::Hash, String> {
    pointlock::ir::primitives::Hash::new(&format!("{algorithm}:{}", digit.repeat(64)))
        .map_err(|e| e.message())
}

#[test]
fn hash_grammar() {
    assert!(hash_of("sha256", "a").is_ok());
    assert!(hash_of("sha256", "A").is_err());
    assert!(pointlock::ir::primitives::Hash::new("sha256:abcd").is_err());
    assert!(hash_of("sha1", "a").is_err());
}

#[test]
fn step_id_grammar() {
    assert!(StepId::new("open_wifi_settings").is_ok());
    assert!(StepId::new("set_ssid:field").is_ok());
    assert!(StepId::new("flow:onUnknown:escalate").is_ok());
    assert!(StepId::new("9bad").is_err());
    assert!(StepId::new("a:").is_err());
    assert!(StepId::new(":a").is_err());
    assert!(StepId::new("a..b").is_err());
    assert!(StepId::new("").is_err());
    assert!(!StepId::new("plain").unwrap().is_synthesized());
    assert!(StepId::new("m:x").unwrap().is_synthesized());
}

#[test]
fn ref_path_grammar() {
    for ok in [
        "params.ssid",
        "params.a.b.c",
        "env.deviceId",
        "vars.report_label",
        "iter.item",
        "steps.wifi_on_visible.verdict",
        "steps.wait_connected.output",
        "steps.wait_connected.output.matched",
        "steps.x.output.a.b",
    ] {
        assert!(RefPath::new(ok).is_ok(), "expected accept: {ok}");
    }
    for bad in [
        "secrets.token",
        "params.",
        "env.a.b",
        "steps.x",
        "steps.x.outputs",
        "steps.x.verdict.status",
        "steps.set_ssid:field.output",
        "steps..output",
        "output.x",
        "",
    ] {
        assert!(RefPath::new(bad).is_err(), "expected reject: {bad}");
    }
    assert_eq!(
        RefPath::new("steps.wait_connected.output.matched")
            .unwrap()
            .referenced_step()
            .as_deref(),
        Some("wait_connected")
    );
    assert_eq!(RefPath::new("params.ssid").unwrap().referenced_step(), None);
}

#[test]
fn feature_id_grammar() {
    assert!(FeatureId::new("device.semanticActions.v1").is_ok());
    assert!(FeatureId::new("verdict.record.v1").is_ok());
    assert!(FeatureId::new("session.export.page.v1").is_ok());
    assert!(FeatureId::new("Device.foo.v1").is_err());
    assert!(FeatureId::new("device.foo").is_err());
    assert!(FeatureId::new("device..v1").is_err());
    assert!(FeatureId::new("v1").is_err());
}

#[test]
fn json_pointer_grammar() {
    assert!(JsonPointer::new("").is_ok());
    assert!(JsonPointer::new("/body/0").is_ok());
    assert!(JsonPointer::new("/a~0b/~1c").is_ok());
    assert!(JsonPointer::new("body/0").is_err());
    assert!(JsonPointer::new("/a~2b").is_err());
    assert!(JsonPointer::new("/a~").is_err());
}

#[test]
fn ir_version_round_trip() {
    assert_eq!(IrVersion.to_json(), Json::uint(1));
    assert!(IrVersion::from_number(1).is_some());
    assert!(IrVersion::from_number(2).is_none());
}

#[test]
fn rejections_name_the_type_the_reason_and_the_value() {
    let error = StepId::new("9bad").unwrap_err();
    assert_eq!(error.kind, "StepId");
    assert_eq!(error.value, "9bad");
    assert_eq!(
        error.message(),
        format!("invalid StepId: {} (value: \"9bad\")", error.reason)
    );
    // The quoted value is escaped.
    assert!(Identifier::new("a\n").unwrap_err().message().contains("\"a\\n\""));
}

#[test]
fn schema_documents_are_objects_or_booleans() {
    assert!(JsonSchemaDocument::new(Json::Bool(true)).is_ok());
    let error = JsonSchemaDocument::new(Json::uint(3)).unwrap_err();
    assert_eq!(error.kind, "JsonSchemaDocument");
    assert_eq!(error.value, "3");
    assert_eq!(
        error.reason,
        "a JSON Schema document must be an object or a boolean"
    );
}

#[test]
fn valid_values_keep_their_text() {
    assert_eq!(FlowId::new("check-out.v2").unwrap().as_str(), "check-out.v2");
    assert_eq!(AssertId::new("wifi_on").unwrap().into_string(), "wifi_on");
    assert_eq!(ActionName::new("tapElement").unwrap().as_str(), "tapElement");
    assert!(ActionName::new("9tap").is_err());
    assert!(ActionName::new("tap-element").is_err());
    let hash = hash_of("sha256", "b").unwrap();
    assert_eq!(hash.hex(), "b".repeat(64));
    assert_eq!(hash.hex_prefix8(), "bbbbbbbb");
    assert_eq!(RefPath::new("vars.a").unwrap().scope_root(), "vars");
}
