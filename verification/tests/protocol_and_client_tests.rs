use s1_mcp_client_rust::json::JsonValue;
use s1_mcp_client_rust::models::{default_status, Response};
use s1_mcp_client_rust::protocol::{is_server_heartbeat, map_error_code};

fn obj(entries: Vec<(&str, JsonValue)>) -> JsonValue {
    JsonValue::Object(entries.into_iter().map(|(k, v)| (k.to_string(), v)).collect())
}

fn make_response_with_result(result: JsonValue) -> Response {
    Response { id: 1, result: Some(result), error: None }
}

fn s(text: &str) -> JsonValue {
    JsonValue::String(text.to_string())
}

#[test]
fn heartbeat_requires_type_exactly() {
    let r = make_response_with_result(obj(vec![("type", s("server_heartbeat"))]));
    assert!(is_server_heartbeat(&r));
}

#[test]
fn heartbeat_wrong_type_value() {
    let r = make_response_with_result(obj(vec![("type", s("client_heartbeat"))]));
    assert!(!is_server_heartbeat(&r));
}

#[test]
fn heartbeat_type_field_missing() {
    let r = make_response_with_result(obj(vec![("other", s("server_heartbeat"))]));
    assert!(!is_server_heartbeat(&r));
}

#[test]
fn heartbeat_result_null() {
    let r = Response { id: 1, result: None, error: None };
    assert!(!is_server_heartbeat(&r));
}

#[test]
fn heartbeat_result_not_object() {
    let r = make_response_with_result(s("server_heartbeat"));
    assert!(!is_server_heartbeat(&r));
}

#[test]
fn map_error_code_preserves_parse_error() {
    assert_eq!(map_error_code(-32700), -32700);
}

#[test]
fn map_error_code_preserves_internal_error() {
    assert_eq!(map_error_code(-32603), -32603);
}

#[test]
fn map_error_code_preserves_server_defined_range_boundaries() {
    assert_eq!(map_error_code(-32099), -32099);
    assert_eq!(map_error_code(-32000), -32000);
}

#[test]
fn map_error_code_remaps_out_of_range_positive() {
    assert_eq!(map_error_code(0), -32603);
    assert_eq!(map_error_code(999), -32603);
}

#[test]
fn map_error_code_remaps_too_negative() {
    assert_eq!(map_error_code(-99999), -32603);
    assert_eq!(map_error_code(-32100), -32603);
}

#[test]
fn map_error_code_is_idempotent_on_examples() {
    for code in [-32700, -32604, -32050, 5, i32::MIN, i32::MAX] {
        assert_eq!(map_error_code(map_error_code(code)), map_error_code(code));
    }
}

#[test]
fn acknowledgment_default_status_is_received() {
    assert_eq!(default_status(), "received");
}
