use s1_mcp_client_rust::json::{JsonNumber, JsonValue};
use s1_mcp_client_rust::models::{ErrorResponse, Response};
use s1_mcp_client_rust::replies::{call_reply, error_reply, format_logs, load_save_reply, saves_reply};
use s1_mcp_client_rust::tools::ReplyStyle;

fn obj(entries: Vec<(&str, JsonValue)>) -> JsonValue {
    JsonValue::Object(entries.into_iter().map(|(k, v)| (k.to_string(), v)).collect())
}

fn s(t: &str) -> JsonValue {
    JsonValue::String(t.to_string())
}

fn n(v: u64) -> JsonValue {
    JsonValue::Number(JsonNumber::PosInt(v))
}

#[test]
fn error_reply_text() {
    let e = ErrorResponse { code: -32601, message: "Method not found".to_string() };
    assert_eq!(error_reply(&e), "Error: Method not found (code: -32601)");
}

#[test]
fn format_logs_with_lines_and_filters() {
    let result = obj(vec![
        ("lines", JsonValue::Array(vec![
            obj(vec![("line_number", n(1)), ("timestamp", s("12:00:01")), ("content", s("Loaded"))]),
            obj(vec![("line_number", n(2)), ("content", s("No time"))]),
            s("raw"),
        ])),
        ("total_lines_in_file", n(50)),
        ("filtered_count", n(3)),
        ("filters_applied", JsonValue::Array(vec![s("keyword=Loaded")])),
        ("warning", s("Log truncated")),
    ]);
    assert_eq!(
        format_logs(&result),
        "Warning: Log truncated\n\nLog Summary: 3 lines returned (3 after filters, 50 total)\nFilters: keyword=Loaded\n\n--- Log Lines ---\n[1] [12:00:01] Loaded\n[2] No time\n[?] raw"
    );
}

#[test]
fn format_logs_without_lines() {
    let result = obj(vec![("lines", JsonValue::Array(vec![]))]);
    assert_eq!(format_logs(&result), "Log Summary: 0 lines returned (0 after filters, 0 total)\n(No lines matched)");
    assert_eq!(format_logs(&s("plain")), "plain");
}

#[test]
fn saves_and_load_replies() {
    let result = obj(vec![("saves", JsonValue::Array(vec![])), ("count", n(2))]);
    assert_eq!(saves_reply(&result, "{}"), "Found 2 save(s):\n\n{}");
    let result = obj(vec![("saves", JsonValue::Array(vec![]))]);
    assert_eq!(saves_reply(&result, "{}"), "Found 0 save(s):\n\n{}");
    assert_eq!(saves_reply(&obj(vec![]), "{}"), "{}");

    let loaded = obj(vec![("message", s("Loaded slot 1")), ("returned_to_menu", JsonValue::Bool(true))]);
    assert_eq!(load_save_reply(&loaded).unwrap(), "\u{2713} Loaded slot 1\n  Note: Returned to menu first.");
    let loaded = obj(vec![("message", s("Loaded"))]);
    assert_eq!(load_save_reply(&loaded).unwrap(), "\u{2713} Loaded");
    assert!(load_save_reply(&JsonValue::Null).is_none());
}

#[test]
fn call_reply_by_style() {
    let failed = Response { id: 1, result: None, error: Some(ErrorResponse { code: -32000, message: "Boom".to_string() }) };
    assert_eq!(call_reply(failed, ReplyStyle::Pretty), "Error: Boom (code: -32000)");

    let ok = Response { id: 1, result: Some(obj(vec![("health", n(100))])), error: None };
    assert_eq!(call_reply(ok, ReplyStyle::Pretty), "{\n  \"health\": 100\n}");

    let none = Response { id: 1, result: None, error: None };
    assert_eq!(call_reply(none, ReplyStyle::Pretty), "null");

    let floats = Response {
        id: 1,
        result: Some(JsonValue::Array(vec![JsonValue::Number(JsonNumber::Float("2.5".to_string()))])),
        error: None,
    };
    assert_eq!(call_reply(floats, ReplyStyle::Pretty), "[\n  2.5\n]");

    let saves = Response { id: 1, result: Some(obj(vec![("saves", JsonValue::Array(vec![])), ("count", n(0))])), error: None };
    assert_eq!(call_reply(saves, ReplyStyle::Saves), "Found 0 save(s):\n\n{\n  \"count\": 0,\n  \"saves\": []\n}");

    let loaded = Response { id: 1, result: Some(s("done")), error: None };
    assert_eq!(call_reply(loaded, ReplyStyle::LoadSave), "\"done\"");

    let logs = Response { id: 1, result: Some(obj(vec![("lines", JsonValue::Array(vec![]))])), error: None };
    assert_eq!(call_reply(logs, ReplyStyle::Logs), "Log Summary: 0 lines returned (0 after filters, 0 total)\n(No lines matched)");
}
