use llm_gateway::json::{complaint_text, parse_json, schema_error, Json};

fn text_of(value: &Json) -> &str {
    match value {
        Json::Text(t) => t.as_str(),
        other => panic!("no string: {:?}", other),
    }
}

#[test]
fn parses_scalars() {
    assert!(matches!(parse_json("null"), Ok(Json::Null)));
    assert!(matches!(parse_json("true"), Ok(Json::Bool(true))));
    assert!(matches!(parse_json(" false "), Ok(Json::Bool(false))));
    match parse_json("\"a\\nb\"") {
        Ok(Json::Text(t)) => assert_eq!(t, "a\nb"),
        other => panic!("unexpected: {:?}", other),
    }
}

#[test]
fn parses_numbers_with_their_integer_value_and_text() {
    match parse_json("42") {
        Ok(Json::Number { integer, text }) => {
            assert_eq!(integer, Some(42));
            assert_eq!(text, "42");
        }
        other => panic!("unexpected: {:?}", other),
    }
    match parse_json("-7") {
        Ok(Json::Number { integer, text }) => {
            assert_eq!(integer, Some(-7));
            assert_eq!(text, "-7");
        }
        other => panic!("unexpected: {:?}", other),
    }
    match parse_json("1.5") {
        Ok(Json::Number { integer, text }) => {
            assert_eq!(integer, None);
            assert_eq!(text, "1.5");
        }
        other => panic!("unexpected: {:?}", other),
    }
    match parse_json("18446744073709551615") {
        Ok(Json::Number { integer, text }) => {
            assert_eq!(integer, None);
            assert_eq!(text, "18446744073709551615");
        }
        other => panic!("unexpected: {:?}", other),
    }
}

#[test]
fn parses_arrays_and_objects() {
    let doc = parse_json("{\"b\": [1, \"x\", null], \"a\": {\"c\": true}}").unwrap();
    let items = doc.get("b").and_then(|b| b.as_array()).unwrap();
    assert_eq!(items.len(), 3);
    assert_eq!(items[0].as_i64(), Some(1));
    assert_eq!(items[1].as_str(), Some("x"));
    assert!(matches!(items[2], Json::Null));
    let inner = doc.get("a").unwrap();
    assert!(inner.is_object());
    assert!(matches!(inner.get("c"), Some(Json::Bool(true))));
    assert!(doc.get("missing").is_none());
    assert!(items[0].get("a").is_none());
}

#[test]
fn rejects_what_is_no_document() {
    assert!(parse_json("").is_err());
    assert!(parse_json("{").is_err());
    assert!(parse_json("{\"a\":1},").is_err());
    assert!(parse_json("[DONE]").is_err());
    assert!(parse_json("{\"a\":1} x").is_err());
}

#[test]
fn get_finds_the_first_member_with_the_key() {
    let doc = Json::Object(vec![
        ("k".to_string(), Json::Text("first".to_string())),
        ("other".to_string(), Json::Null),
        ("k".to_string(), Json::Text("second".to_string())),
    ]);
    assert_eq!(text_of(doc.get("k").unwrap()), "first");
    assert!(matches!(doc.get("other"), Some(Json::Null)));
    assert!(doc.get_optional("other").is_none());
    assert!(doc.get_optional("absent").is_none());
    assert_eq!(text_of(doc.get_optional("k").unwrap()), "first");
}

#[test]
fn typed_fields_accept_only_their_type() {
    let doc = parse_json(
        "{\"s\":\"x\",\"n\":5,\"big\":3000000000,\"f\":1.0,\"z\":null,\"neg\":-2147483648}",
    )
    .unwrap();
    assert_eq!(doc.text_field("s").unwrap(), "x");
    assert!(doc.text_field("n").is_err());
    assert!(doc.text_field("absent").is_err());
    assert!(doc.text_field("z").is_err());
    assert_eq!(doc.optional_text_field("s").unwrap(), Some("x".to_string()));
    assert_eq!(doc.optional_text_field("z").unwrap(), None);
    assert_eq!(doc.optional_text_field("absent").unwrap(), None);
    assert!(doc.optional_text_field("n").is_err());
    assert_eq!(doc.i32_field("n").unwrap(), 5);
    assert_eq!(doc.i32_field("neg").unwrap(), i32::MIN);
    assert!(doc.i32_field("big").is_err());
    assert!(doc.i32_field("f").is_err());
    assert!(doc.i32_field("s").is_err());
    assert!(doc.i32_field("absent").is_err());
    assert_eq!(doc.i64_field("big").unwrap(), 3_000_000_000);
    assert!(doc.i64_field("f").is_err());
    assert!(doc.field("z").is_ok());
    assert!(doc.field("absent").is_err());
}

#[test]
fn as_i32_keeps_to_the_range() {
    let inside = Json::Number { integer: Some(2147483647), text: "2147483647".to_string() };
    let above = Json::Number { integer: Some(2147483648), text: "2147483648".to_string() };
    let below = Json::Number { integer: Some(-2147483649), text: "-2147483649".to_string() };
    assert_eq!(inside.as_i32(), Some(i32::MAX));
    assert_eq!(above.as_i32(), None);
    assert_eq!(below.as_i32(), None);
    assert_eq!(Json::Null.as_i32(), None);
}

#[test]
fn clone_copies_the_whole_tree() {
    let doc = parse_json("{\"a\":[1,{\"b\":\"c\"}],\"d\":null}").unwrap();
    let copy = doc.clone();
    assert_eq!(format!("{:?}", copy), format!("{:?}", doc));
    let items = Json::clone_items(doc.get("a").unwrap().as_array().unwrap());
    assert_eq!(items.len(), 2);
    assert_eq!(items[1].get("b").unwrap().as_str(), Some("c"));
}

#[test]
fn complaints_name_the_problem_and_what_it_is_about() {
    assert_eq!(complaint_text("missing field", "index"), "missing field `index`");
    assert_eq!(complaint_text("", ""), " ``");
    assert_eq!(schema_error("unknown variant", "x").to_string(), "unknown variant `x`");
}

#[test]
fn the_first_member_at_fault_gives_the_error() {
    let doc = parse_json("{\"a\":1,\"b\":\"x\",\"list\":{},\"n\":null}").unwrap();
    assert_eq!(doc.text_field("a").unwrap_err().to_string(), "invalid type: expected a string for field `a`");
    assert_eq!(doc.text_field("zz").unwrap_err().to_string(), "missing field `zz`");
    assert_eq!(doc.i32_field("b").unwrap_err().to_string(), "invalid value: expected an i32 for field `b`");
    assert_eq!(doc.i64_field("b").unwrap_err().to_string(), "invalid value: expected an i64 for field `b`");
    assert_eq!(doc.array_field("list").unwrap_err().to_string(), "invalid type: expected an array for field `list`");
    assert_eq!(doc.array_field("zz").unwrap_err().to_string(), "missing field `zz`");
    assert!(doc.optional_array_field("n").unwrap().is_none());
    assert!(doc.optional_array_field("zz").unwrap().is_none());
    assert_eq!(doc.optional_array_field("a").unwrap_err().to_string(), "invalid type: expected an array for field `a`");
    assert_eq!(doc.optional_text_field("a").unwrap_err().to_string(), "invalid type: expected a string for field `a`");
    assert!(doc.expect_object("doc").is_ok());
    assert_eq!(
        Json::Null.expect_object("delta").unwrap_err().to_string(),
        "invalid type: expected an object for `delta`"
    );
    assert_eq!(doc.field("zz").unwrap_err().to_string(), "missing field `zz`");
}

#[test]
fn numbers_keep_the_text_that_serde_json_writes() {
    for (text, expected) in [("1e2", "100.0"), ("-0", "-0.0"), ("0.10", "0.1"), ("12", "12"), ("-9223372036854775808", "-9223372036854775808")] {
        match parse_json(text) {
            Ok(Json::Number { text: kept, .. }) => assert_eq!(kept, expected),
            other => panic!("unexpected: {:?}", other),
        }
    }
}
