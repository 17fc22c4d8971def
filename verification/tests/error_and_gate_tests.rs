use s1_mcp_client_rust::json::{JsonValue};
use s1_mcp_client_rust::models::{ErrorResponse, Response};
use s1_mcp_client_rust::protocol::{create_request, is_server_heartbeat, map_error_code, ProtocolError};
use s1_mcp_client_rust::state::{access_after_handshake, tool_access, handshake_outcome, AccessDecision, HandshakeOutcome};
use s1_mcp_client_rust::tcp::{after_failed_attempt, call_attempts, RetryStep, TcpClientError};

fn obj(entries: Vec<(&str, JsonValue)>) -> JsonValue {
    JsonValue::Object(entries.into_iter().map(|(k, v)| (k.to_string(), v)).collect())
}

#[test]
fn map_error_code_preserves_known_jsonrpc_and_server_ranges() {
    assert_eq!(map_error_code(-32700), -32700);
    assert_eq!(map_error_code(-32602), -32602);
    assert_eq!(map_error_code(-32042), -32042);

    assert_eq!(map_error_code(123), -32603);
    assert_eq!(map_error_code(-320100), -32603);
}

#[test]
fn create_request_defaults_params_to_empty_object() {
    let request = create_request(1, "handshake", None);
    match request.params {
        JsonValue::Object(entries) => assert!(entries.is_empty()),
        other => panic!("params must be an empty object, got {other:?}"),
    }
    assert_eq!(request.id, 1);
    assert_eq!(request.method, "handshake");
}

#[test]
fn heartbeat_detection_matches_expected_payload_shape() {
    let heartbeat = Response {
        id: 99,
        result: Some(obj(vec![("type", JsonValue::String("server_heartbeat".to_string()))])),
        error: None,
    };
    let normal = Response {
        id: 100,
        result: Some(obj(vec![("type", JsonValue::String("other".to_string()))])),
        error: None,
    };

    assert!(is_server_heartbeat(&heartbeat));
    assert!(!is_server_heartbeat(&normal));
}

#[test]
fn tcp_retryable_classification_matches_policy() {
    let io_error = TcpClientError::Io(std::io::Error::new(std::io::ErrorKind::ConnectionReset, "boom"));
    let protocol_error = TcpClientError::Protocol(ProtocolError::MessageTooShort { actual: 0 });

    assert!(TcpClientError::Connection("offline".to_string()).is_retryable_connection());
    assert!(TcpClientError::AddressResolution("bad host".to_string()).is_retryable_connection());
    assert!(TcpClientError::NotConnected.is_retryable_connection());
    assert!(io_error.is_retryable_connection());
    assert!(!protocol_error.is_retryable_connection());
}

#[test]
fn connection_gate_allows_s1_game_without_handshake() {
    assert_eq!(tool_access("s1_game", false, false), AccessDecision::Allow);
}

#[test]
fn connection_gate_blocks_non_game_tool_when_disconnected() {
    assert_eq!(tool_access("s1_player", false, false), AccessDecision::Handshake);
    let error = access_after_handshake(false).expect_err("non-game tool should be gated");
    assert!(error.contains("Error: Game is not connected."));
}

#[test]
fn connection_gate_allows_tools_when_both_sides_connected() {
    assert_eq!(tool_access("s1_player", true, true), AccessDecision::Allow);
    assert_eq!(tool_access("s1_player", true, false), AccessDecision::Handshake);
    assert_eq!(tool_access("s1_player", false, true), AccessDecision::Handshake);
    assert!(access_after_handshake(true).is_ok());
}

#[test]
fn handshake_error_is_rejected_with_message_and_code() {
    let response = Response {
        id: 1,
        result: None,
        error: Some(ErrorResponse { code: -32601, message: "Method not found".to_string() }),
    };
    match handshake_outcome(&response) {
        HandshakeOutcome::Rejected(text) => assert_eq!(text, "Method not found (-32601)"),
        other => panic!("unexpected outcome {other:?}"),
    }
}

#[test]
fn handshake_keeps_instructions_string() {
    let with = Response {
        id: 1,
        result: Some(obj(vec![("instructions", JsonValue::String("Use tools wisely".to_string()))])),
        error: None,
    };
    match handshake_outcome(&with) {
        HandshakeOutcome::Connected(Some(text)) => assert_eq!(text, "Use tools wisely"),
        other => panic!("unexpected outcome {other:?}"),
    }
    let without = Response { id: 1, result: Some(obj(vec![("instructions", JsonValue::Null)])), error: None };
    assert!(matches!(handshake_outcome(&without), HandshakeOutcome::Connected(None)));
}

#[test]
fn call_retry_policy() {
    assert_eq!(call_attempts(0), 1);
    assert_eq!(call_attempts(3), 3);
    assert_eq!(after_failed_attempt(0, 3, true), RetryStep::Reconnect);
    assert_eq!(after_failed_attempt(2, 3, true), RetryStep::GiveUp);
    assert_eq!(after_failed_attempt(0, 3, false), RetryStep::Fail);
}

#[test]
fn retries_end_with_the_last_attempt() {
    for max_retries in [0usize, 1, 3] {
        let attempts = call_attempts(max_retries);
        let mut calls = 0;
        let mut last = RetryStep::Reconnect;
        for attempt in 0..attempts {
            calls += 1;
            last = after_failed_attempt(attempt, attempts, true);
            if last != RetryStep::Reconnect {
                break;
            }
        }
        assert_eq!(calls, attempts);
        assert_eq!(last, RetryStep::GiveUp);
    }
    assert_eq!(after_failed_attempt(1, 3, false), RetryStep::Fail);
}
