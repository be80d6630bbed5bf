use pointlock::ir::schema_gen::{flow_ir_schema, strip_option_null, FLOW_IR_SCHEMA_ID};
use pointlock::json::{parse_json, Json};

fn json(text: &str) -> Json {
    parse_json(text).expect("a JSON text")
}

#[test]
fn null_names_leave_the_type_list() {
    assert_eq!(
        strip_option_null(&json(r#"{"type": ["string", "null"]}"#)),
        json(r#"{"type": "string"}"#)
    );
    assert_eq!(
        strip_option_null(&json(r#"{"type": ["string", "integer", "null"]}"#)),
        json(r#"{"type": ["string", "integer"]}"#)
    );
    assert_eq!(
        strip_option_null(&json(r#"{"type": ["string", "integer"]}"#)),
        json(r#"{"type": ["string", "integer"]}"#)
    );
}

#[test]
fn nullable_branches_collapse_at_every_depth() {
    assert_eq!(
        strip_option_null(&json(
            r##"{"items": [{"anyOf": [{"$ref": "#/x"}, {"type": "null"}], "description": "d"}]}"##
        )),
        json(r##"{"items": [{"$ref": "#/x", "description": "d"}]}"##)
    );
    assert_eq!(strip_option_null(&json("null")), json("null"));
}

#[test]
fn no_null_is_left_in_the_kept_branch() {
    assert_eq!(
        strip_option_null(&json(
            r#"{"anyOf": [{"type": ["string", "null"]}, {"type": "null"}], "title": "t"}"#
        )),
        json(r#"{"type": "string", "title": "t"}"#)
    );
    assert_eq!(
        strip_option_null(&json(
            r##"{"anyOf": [{"type": "null"}, {"anyOf": [{"$ref": "#/x"}, {"type": "null"}]}]}"##
        )),
        json(r##"{"$ref": "#/x"}"##)
    );
    assert_eq!(
        strip_option_null(&json(
            r#"{"anyOf": [{"type": "string", "title": "a"}, {"type": "null"}], "title": "b", "description": "d"}"#
        )),
        json(r#"{"type": "string", "title": "a", "description": "d"}"#)
    );
    assert_eq!(
        strip_option_null(&json(r#"{"anyOf": [{"type": "null"}, {"type": "null"}]}"#)),
        json("{}")
    );
}

#[test]
fn the_root_gets_its_id_and_title() {
    assert_eq!(
        FLOW_IR_SCHEMA_ID,
        "urn:pointlock:schema:ir:v0.1:flow-ir"
    );
    assert_eq!(
        flow_ir_schema(&json(r#"{"title": "Other", "type": ["object", "null"]}"#)),
        json(
            r#"{"$id": "urn:pointlock:schema:ir:v0.1:flow-ir", "title": "FlowIR", "type": "object"}"#
        )
    );
    assert_eq!(flow_ir_schema(&json("true")), json("true"));
}
