use data_ingester::emit::{emit, join_lines, AdoResponse, EmitError, EventStamp, GithubResponse};
use data_ingester::metadata::AdoMetadata;
use data_ingester::resolve::ResponseShape;
use serde_json::Value;

fn json(text: &str) -> Value {
    serde_json::from_str(text).unwrap()
}

fn metadata() -> AdoMetadata {
    AdoMetadata::new("tenant", "https://dev.azure.com/o", Some("o"), None, None, vec![200], "repos", "docs")
}

#[test]
fn valid_items_become_one_event_each() {
    let items = vec![json(r#"{"id": 1}"#), json(r#"{"id": 2}"#), json(r#"{"id": 3}"#)];
    let response = AdoResponse { value: items, metadata: Some(metadata()) };
    let events = response.to_hec_events(77).ok().unwrap();
    assert_eq!(events.len(), 3);
    for (i, ev) in events.iter().enumerate() {
        assert_eq!(ev.source, "tenant:https://dev.azure.com/o");
        assert_eq!(ev.sourcetype, "ADO");
        assert_eq!(ev.body["SSPHP_DEBUG"], metadata().to_json());
        assert_eq!(ev.body["SSPHP_RUN"], Value::from(77u64));
        assert_eq!(ev.body["id"], Value::from(i as u64 + 1));
        assert_eq!(ev.body.as_object().unwrap().len(), 3);
    }
}

#[test]
fn one_malformed_item_fails_the_batch() {
    let items = vec![json(r#"{"id": 1}"#), json("[1]"), json(r#"{"id": 3}"#)];
    let response = AdoResponse { value: items, metadata: Some(metadata()) };
    let err = response.to_hec_events(1).err().unwrap();
    assert_eq!(err.message, "tenant:https://dev.azure.com/o: record is not a JSON object");
}

#[test]
fn failures_are_joined_by_newline() {
    let stamp = EventStamp::Ado { metadata: None, run_id: 5 };
    let err = emit(&stamp, vec![json("1"), json("{}"), json("null")]).err().unwrap();
    assert_eq!(
        err.message,
        "NO ADOMETADATA FOR SOURCE: record is not a JSON object\nNO ADOMETADATA FOR SOURCE: record is not a JSON object"
    );
}

#[test]
fn missing_metadata_is_noted() {
    let stamp = EventStamp::Ado { metadata: None, run_id: 9 };
    let events = emit(&stamp, vec![json(r#"{"a": "b", "SSPHP_RUN": 1}"#)]).ok().unwrap();
    assert_eq!(events[0].source, "NO ADOMETADATA FOR SOURCE");
    assert_eq!(events[0].sourcetype, "NO ADOMETADATA FOR SOURCETYPE");
    assert_eq!(events[0].body, json(r#"{"a": "b", "SSPHP_DEBUG": "No AdoMetadata", "SSPHP_RUN": 9}"#));
}

#[test]
fn empty_batch_is_no_event() {
    let stamp = EventStamp::Ado { metadata: None, run_id: 9 };
    assert!(emit(&stamp, vec![]).ok().unwrap().is_empty());
}

#[test]
fn github_records_carry_status() {
    let response = GithubResponse {
        response: vec![json(r#"{"name": "a"}"#), json(r#"{"name": "b"}"#)],
        source: "/repos/o/r/keys".to_string(),
        ssphp_http_status: 404,
    };
    let events = response.to_hec_events().ok().unwrap();
    assert_eq!(events.len(), 2);
    assert_eq!(events[1].body, json(r#"{"name": "b", "ssphp_http_status": 404}"#));
    assert_eq!(events[1].source, "/repos/o/r/keys");
    assert_eq!(events[1].sourcetype, "github");
}

#[test]
fn github_scalar_record_is_reported() {
    let response = GithubResponse { response: vec![json("\"text\"")], source: "/x".to_string(), ssphp_http_status: 200 };
    assert_eq!(response.to_hec_events().err().unwrap().message, "/x: record is not a JSON object");
}

#[test]
fn azure_records_take_their_type() {
    let shape = ResponseShape::resolve(json(r#"{"value": [{"type": "Microsoft.Security/settings", "id": "1"}]}"#));
    let events = match shape.to_hec_events("https://management.azure.com/x".to_string()) {
        Ok(events) => events,
        Err(_) => panic!("records with a type encode"),
    };
    assert_eq!(events.len(), 1);
    assert_eq!(events[0].sourcetype, "Microsoft.Security/settings");
    assert_eq!(events[0].source, "https://management.azure.com/x");
    assert_eq!(events[0].body, json(r#"{"type": "Microsoft.Security/settings", "id": "1"}"#));
}

#[test]
fn azure_record_without_type_fails() {
    let shape = ResponseShape::resolve(json(r#"[{"id": "1"}, {"type": 3}]"#));
    match shape.to_hec_events("s".to_string()) {
        Err(EmitError::Encode(e)) => assert_eq!(
            e.message,
            "s: record has no string field \"type\"\ns: record has no string field \"type\""
        ),
        _ => panic!("records without a string type fail"),
    }
}

#[test]
fn azure_next_link_fails() {
    let shape = ResponseShape::resolve(json(r#"{"value": [{"type": "t"}], "@odata.nextLink": "https://next"}"#));
    match shape.to_hec_events("s".to_string()) {
        Err(EmitError::NotImplemented { link }) => assert_eq!(link, "https://next"),
        _ => panic!("an embedded next link is not followed"),
    }
}

#[test]
fn join_lines_with_newlines() {
    assert_eq!(join_lines(&vec![]), "");
    assert_eq!(join_lines(&vec!["a".to_string()]), "a");
    assert_eq!(join_lines(&vec!["a".to_string(), "b".to_string(), "c".to_string()]), "a\nb\nc");
}
