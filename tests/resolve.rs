use data_ingester::resolve::{parse_body, resolve, snippet, ResponseShape};
use serde_json::Value;

fn json(text: &str) -> Value {
    serde_json::from_str(text).unwrap()
}

#[test]
fn empty_object_yields_no_items() {
    assert!(resolve(json("{}")).is_empty());
}

#[test]
fn bare_array_keeps_order() {
    let items = resolve(json(r#"[{"n": "a"}, {"n": "b"}, {"n": "c"}]"#));
    assert_eq!(items, vec![json(r#"{"n": "a"}"#), json(r#"{"n": "b"}"#), json(r#"{"n": "c"}"#)]);
}

#[test]
fn collection_with_null_next_link_yields_its_values() {
    let shape = ResponseShape::resolve(json(r#"{"value": [{"n": "a"}, {"n": "b"}], "nextLink": null}"#));
    assert!(matches!(shape, ResponseShape::Collection { .. }));
    assert!(shape.next_link().is_none());
    assert_eq!(shape.items(), vec![json(r#"{"n": "a"}"#), json(r#"{"n": "b"}"#)]);
}

#[test]
fn collection_reports_its_next_link() {
    let shape = ResponseShape::resolve(json(r#"{"value": [], "@odata.nextLink": "https://graph/next"}"#));
    assert_eq!(shape.next_link().as_deref(), Some("https://graph/next"));
    assert!(shape.items().is_empty());
}

#[test]
fn value_field_that_is_no_array_is_a_single_record() {
    let body = json(r#"{"value": 3, "id": "x"}"#);
    assert_eq!(resolve(body.clone()), vec![body]);
}

#[test]
fn numeric_next_link_is_no_collection() {
    let body = json(r#"{"value": [1], "nextLink": 7}"#);
    assert_eq!(resolve(body.clone()), vec![body]);
}

#[test]
fn single_object_is_one_item() {
    let body = json(r#"{"id": "42", "type": "Microsoft.Security/settings"}"#);
    assert_eq!(resolve(body.clone()), vec![body]);
}

#[test]
fn scalar_body_is_one_item() {
    assert_eq!(resolve(json("true")), vec![Value::Bool(true)]);
}

#[test]
fn empty_body_reads_as_empty_object() {
    let v = parse_body("").ok().unwrap();
    assert_eq!(v, json("{}"));
    assert!(resolve(v).is_empty());
}

#[test]
fn parse_body_decodes_json() {
    assert_eq!(parse_body(r#"[1, 2]"#).ok().unwrap(), json("[1, 2]"));
}

#[test]
fn invalid_body_fails_with_snippet() {
    let body = "<html>".to_string() + &"x".repeat(200);
    let err = parse_body(&body).err().unwrap();
    assert_eq!(err.snippet.chars().count(), 100);
    assert!(body.starts_with(&err.snippet));

    let short = parse_body("not json").err().unwrap();
    assert_eq!(short.snippet, "not json");
}

#[test]
fn snippet_counts_characters() {
    let text = "é".repeat(150);
    assert_eq!(snippet(&text), "é".repeat(100));
    assert_eq!(snippet("abc"), "abc");
}
