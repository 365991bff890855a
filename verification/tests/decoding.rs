use htmx_lsp_core::json::text_member;
use htmx_lsp_core::sync::{decode_change, decode_entries, DocumentChange};
use serde_json::Value;

fn json(text: &str) -> Value {
    serde_json::from_str(text).unwrap()
}

#[test]
fn text_member_reads_a_string_member() {
    let value = json(r#"{"uri": "file:///a.html", "n": 3}"#);
    assert_eq!(text_member(&value, "uri"), Some("file:///a.html".to_string()));
}

#[test]
fn text_member_refuses_what_is_no_string() {
    let value = json(r#"{"uri": 3, "nothing": null, "list": ["x"]}"#);
    assert_eq!(text_member(&value, "uri"), None);
    assert_eq!(text_member(&value, "nothing"), None);
    assert_eq!(text_member(&value, "list"), None);
    assert_eq!(text_member(&value, "absent"), None);
}

#[test]
fn text_member_of_a_value_that_is_no_object() {
    assert_eq!(text_member(&json(r#""uri""#), "uri"), None);
    assert_eq!(text_member(&json(r#"["uri"]"#), "uri"), None);
    assert_eq!(text_member(&json("null"), "uri"), None);
}

#[test]
fn decode_entries_keeps_every_text_in_order() {
    let list = json(r#"[{"text": "one"}, {"text": "two", "range": null}, {"text": ""}]"#);
    let entries = list.as_array().unwrap();
    assert_eq!(
        decode_entries(entries),
        Some(vec!["one".to_string(), "two".to_string(), String::new()])
    );
}

#[test]
fn decode_entries_of_an_empty_list() {
    let entries: Vec<Value> = Vec::new();
    assert_eq!(decode_entries(&entries), Some(Vec::new()));
}

#[test]
fn decode_entries_is_spoilt_by_one_bad_entry() {
    let list = json(r#"[{"text": "one"}, {"txt": "two"}]"#);
    assert_eq!(decode_entries(list.as_array().unwrap()), None);
    let list = json(r#"[{"text": "one"}, {"text": 2}]"#);
    assert_eq!(decode_entries(list.as_array().unwrap()), None);
    let list = json(r#"["one"]"#);
    assert_eq!(decode_entries(list.as_array().unwrap()), None);
}

#[test]
fn decode_change_reads_uri_and_texts() {
    let params = json(
        r#"{"textDocument": {"uri": "file:///a.html", "version": 4},
            "contentChanges": [{"text": "<div hx->"}]}"#,
    );
    assert_eq!(
        decode_change(&params),
        Some(DocumentChange {
            uri: "file:///a.html".to_string(),
            texts: vec!["<div hx->".to_string()],
        })
    );
}

#[test]
fn decode_change_accepts_no_content_change() {
    let params = json(r#"{"textDocument": {"uri": "u"}, "contentChanges": []}"#);
    assert_eq!(
        decode_change(&params),
        Some(DocumentChange { uri: "u".to_string(), texts: Vec::new() })
    );
}

#[test]
fn decode_change_needs_the_document() {
    let params = json(r#"{"contentChanges": [{"text": "x"}]}"#);
    assert_eq!(decode_change(&params), None);
    let params = json(r#"{"textDocument": {}, "contentChanges": [{"text": "x"}]}"#);
    assert_eq!(decode_change(&params), None);
    let params = json(r#"{"textDocument": {"uri": 7}, "contentChanges": [{"text": "x"}]}"#);
    assert_eq!(decode_change(&params), None);
    let params = json(r#"{"textDocument": "file:///a.html", "contentChanges": [{"text": "x"}]}"#);
    assert_eq!(decode_change(&params), None);
}

#[test]
fn decode_change_needs_the_list_of_changes() {
    let params = json(r#"{"textDocument": {"uri": "u"}}"#);
    assert_eq!(decode_change(&params), None);
    let params = json(r#"{"textDocument": {"uri": "u"}, "contentChanges": {"text": "x"}}"#);
    assert_eq!(decode_change(&params), None);
    let params = json(r#"{"textDocument": {"uri": "u"}, "contentChanges": [{"text": "x"}, {}]}"#);
    assert_eq!(decode_change(&params), None);
}

#[test]
fn decode_change_of_a_payload_that_is_no_object() {
    assert_eq!(decode_change(&json("null")), None);
    assert_eq!(decode_change(&json("[]")), None);
    assert_eq!(decode_change(&json("17")), None);
}
