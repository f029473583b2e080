//! The exact bytes documents serialize to.

use capsolver::json::{to_json_bytes, Decimal, JsonValue};

fn s(text: &str) -> JsonValue {
    JsonValue::Str(text.to_string())
}

fn obj(fields: Vec<(&str, JsonValue)>) -> JsonValue {
    JsonValue::Obj(fields.into_iter().map(|(k, v)| (k.to_string(), v)).collect())
}

fn rendered(v: &JsonValue) -> String {
    String::from_utf8(to_json_bytes(v)).unwrap()
}

#[test]
fn scalars_render_as_json() {
    assert_eq!(rendered(&JsonValue::Null), "null");
    assert_eq!(rendered(&JsonValue::Bool(true)), "true");
    assert_eq!(rendered(&JsonValue::Bool(false)), "false");
    assert_eq!(rendered(&JsonValue::Num { units: 0, scale: 0 }), "0");
    assert_eq!(rendered(&JsonValue::Num { units: 12345, scale: 0 }), "12345");
    assert_eq!(rendered(&JsonValue::Num { units: -7, scale: 0 }), "-7");
    assert_eq!(rendered(&s("hello")), "\"hello\"");
    assert_eq!(rendered(&s("")), "\"\"");
}

#[test]
fn decimals_render_with_their_scale() {
    assert_eq!(rendered(&JsonValue::Num { units: 8, scale: 1 }), "0.8");
    assert_eq!(rendered(&JsonValue::Num { units: 5, scale: 2 }), "0.05");
    assert_eq!(rendered(&JsonValue::Num { units: -5, scale: 1 }), "-0.5");
    assert_eq!(rendered(&JsonValue::Num { units: 105, scale: 1 }), "10.5");
    assert_eq!(rendered(&JsonValue::Num { units: 99999, scale: 5 }), "0.99999");
    assert_eq!(rendered(&JsonValue::Num { units: 1, scale: 0 }), "1");
}

#[test]
fn strings_escape_quotes_backslashes_and_controls() {
    assert_eq!(rendered(&s("a\"b")), "\"a\\\"b\"");
    assert_eq!(rendered(&s("a\\b")), "\"a\\\\b\"");
    assert_eq!(rendered(&s("a\nb\tc\rd")), "\"a\\nb\\tc\\rd\"");
    assert_eq!(rendered(&s("a\u{8}b\u{c}c")), "\"a\\bb\\fc\"");
    assert_eq!(rendered(&s("a\u{1}b\u{1f}c")), "\"a\\u0001b\\u001fc\"");
    assert_eq!(rendered(&s("héllo")), "\"héllo\"");
}

#[test]
fn arrays_and_objects_render_in_order() {
    assert_eq!(rendered(&JsonValue::Arr(vec![])), "[]");
    assert_eq!(rendered(&JsonValue::Arr(vec![s("a"), s("b")])), "[\"a\",\"b\"]");
    assert_eq!(rendered(&obj(vec![])), "{}");
    assert_eq!(
        rendered(&obj(vec![("b", s("x")), ("a", JsonValue::Num { units: 1, scale: 0 })])),
        "{\"b\":\"x\",\"a\":1}"
    );
    let nested = obj(vec![("outer", obj(vec![("inner", JsonValue::Arr(vec![s("y")]))]))]);
    assert_eq!(rendered(&nested), "{\"outer\":{\"inner\":[\"y\"]}}");
}

#[test]
fn rendered_documents_agree_with_a_reference_parser() {
    let v = obj(vec![
        ("name", s("wid\"get\\\n")),
        ("count", JsonValue::Num { units: 42, scale: 0 }),
        ("ratio", JsonValue::Num { units: 8, scale: 1 }),
        ("tags", JsonValue::Arr(vec![s("a"), s("b")])),
        ("flag", JsonValue::Bool(true)),
        ("gap", JsonValue::Null),
    ]);
    let text = rendered(&v);
    let parsed: serde_json::Value = serde_json::from_str(&text).unwrap();
    assert_eq!(parsed["name"], serde_json::Value::String("wid\"get\\\n".to_string()));
    assert_eq!(parsed["count"].as_i64(), Some(42));
    assert_eq!(parsed["ratio"].as_f64(), Some(0.8));
    assert_eq!(parsed["tags"].as_array().unwrap().len(), 2);
    assert_eq!(parsed["flag"].as_bool(), Some(true));
    assert!(parsed["gap"].is_null());
}

#[test]
fn lookup_finds_the_first_member() {
    let v = obj(vec![("k", s("first")), ("k", s("second")), ("other", s("x"))]);
    let got = v.get("k").unwrap();
    match got {
        JsonValue::Str(t) => assert_eq!(t, "first"),
        _ => panic!("expected a string"),
    }
    assert!(v.get("missing").is_none());
    assert!(JsonValue::Null.get("k").is_none());
}

#[test]
fn accessors_read_only_their_own_shape() {
    let n = JsonValue::Num { units: 3, scale: 0 };
    assert_eq!(n.as_int(), Some(3));
    assert_eq!(JsonValue::Num { units: 3, scale: 1 }.as_int(), None);
    assert_eq!(n.as_num(), Some(Decimal { units: 3, scale: 0 }));
    assert!(s("x").as_int().is_none());
    assert_eq!(s("x").as_str().map(|t| t.as_str()), Some("x"));
    assert!(n.as_str().is_none());
    assert!(JsonValue::Arr(vec![]).as_arr().is_some());
    assert!(n.as_arr().is_none());
}

#[test]
fn deep_clone_reproduces_the_tree() {
    let v = obj(vec![
        ("a", JsonValue::Arr(vec![s("x"), JsonValue::Num { units: 1, scale: 0 }])),
        ("b", obj(vec![("c", JsonValue::Bool(false))])),
    ]);
    let c = v.deep_clone();
    assert_eq!(rendered(&c), rendered(&v));
}
