use pointlock::ir::canonical::to_canonical_json;
use pointlock::json::{parse_json, same_json, write_compact, Json, JsonMap, JsonNumber};

fn json(text: &str) -> Json {
    parse_json(text).expect("a JSON text")
}

#[test]
fn sorts_keys_and_strips_whitespace() {
    let v = json(r#"{ "b" : 2, "a" : [1, {"y": 0, "x": 1}] }"#);
    assert_eq!(to_canonical_json(&v), r#"{"a":[1,{"x":1,"y":0}],"b":2}"#);
}

#[test]
fn sorts_keys_by_utf16_code_units_not_code_points() {
    let map = JsonMap::new()
        .with("\u{ff61}", Json::uint(1))
        .with("\u{1f600}", Json::uint(2));
    assert_eq!(
        to_canonical_json(&map.object()),
        "{\"\u{1f600}\":2,\"\u{ff61}\":1}"
    );
}

#[test]
fn escapes_strings_canonically() {
    let v = JsonMap::new()
        .with("k", Json::text("a\"b\\c\n\u{0007}€"))
        .object();
    assert_eq!(to_canonical_json(&v), "{\"k\":\"a\\\"b\\\\c\\n\\u0007€\"}");
}

#[test]
fn numbers_use_serde_json_default_formatting() {
    assert_eq!(to_canonical_json(&json("[1, -3, 1.5]")), "[1,-3,1.5]");
    assert_eq!(to_canonical_json(&json("1.0")), "1.0");
}

#[test]
fn every_kind_of_value_has_its_canonical_text() {
    assert_eq!(to_canonical_json(&Json::Null), "null");
    assert_eq!(to_canonical_json(&Json::Bool(true)), "true");
    assert_eq!(to_canonical_json(&Json::Bool(false)), "false");
    assert_eq!(to_canonical_json(&json("[]")), "[]");
    assert_eq!(to_canonical_json(&json("{}")), "{}");
    assert_eq!(
        to_canonical_json(&Json::Number(JsonNumber::Signed(i64::MIN))),
        "-9223372036854775808"
    );
    assert_eq!(
        to_canonical_json(&Json::Number(JsonNumber::Unsigned(u64::MAX))),
        "18446744073709551615"
    );
}

#[test]
fn insertion_order_of_members_does_not_matter() {
    let a = JsonMap::new()
        .with("x", Json::uint(1))
        .with("y", Json::uint(2));
    let b = JsonMap::new()
        .with("y", Json::uint(2))
        .with("x", Json::uint(1));
    assert_eq!(
        to_canonical_json(&a.object()),
        to_canonical_json(&b.object())
    );
}

#[test]
fn compact_text_keeps_code_point_order() {
    let map = JsonMap::new()
        .with("\u{ff61}", Json::uint(1))
        .with("\u{1f600}", Json::uint(2));
    assert_eq!(
        write_compact(&map.object()),
        "{\"\u{ff61}\":1,\"\u{1f600}\":2}"
    );
    assert!(same_json(&json("[1,{\"a\":null}]"), &json("[1,{\"a\":null}]")));
    assert!(!same_json(&json("[1]"), &json("[2]")));
}

#[test]
fn json_texts_are_read() {
    let members = JsonMap::new()
        .with("z", Json::Bool(true))
        .with(
            "a",
            Json::Array(vec![
                Json::Null,
                Json::Number(JsonNumber::Unsigned(u64::MAX)),
                Json::Number(JsonNumber::Signed(-3)),
                Json::Number(JsonNumber::Decimal("1.5".to_owned())),
                Json::text("q\"\n"),
            ]),
        );
    assert_eq!(
        parse_json(r#" {"z": true, "a": [null, 18446744073709551615, -3, 1.5, "q\"\n"]} "#),
        Ok(members.object())
    );
    assert_eq!(
        parse_json("nope"),
        Err("expected ident at line 1 column 2".to_owned())
    );
}

#[test]
fn different_values_have_different_texts() {
    let texts = [
        "null", "true", "false", "0", "-1", "1.0", "\"\"", "\"0\"", "[]", "[[]]", "[0]", "[0,0]",
        "{}", "{\"a\":0}", "{\"a\":[0]}", "{\"a\":0,\"b\":0}", "{\"a\\\"\":0}",
    ];
    for (i, a) in texts.iter().enumerate() {
        for (j, b) in texts.iter().enumerate() {
            let same = to_canonical_json(&json(a)) == to_canonical_json(&json(b));
            assert_eq!(same, i == j, "{a} {b}");
        }
    }
}

#[test]
fn canonical_texts_are_read_back() {
    let mut nested = json("[]");
    for _ in 0..126 {
        nested = Json::array(vec![nested]);
    }
    for value in [
        json("null"),
        json(r#"{"b": [1, -3, true, {"": "x"}], "a": {}}"#),
        json("[0, 18446744073709551615, -9223372036854775808]"),
        JsonMap::new()
            .with("\u{ff61}", Json::text("a\"b\\c\n\u{0007}€"))
            .with("\u{1f600}", Json::text("\u{7f}\u{2028}"))
            .object(),
        nested,
    ] {
        let text = to_canonical_json(&value);
        let read = parse_json(&text).expect("a canonical text");
        assert_eq!(read, value);
        assert_eq!(to_canonical_json(&read), text);
    }
    let deeper = "[".repeat(128) + &"]".repeat(128);
    assert!(parse_json(&deeper).is_err());
}
