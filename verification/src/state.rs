//! The connection check in front of game tools, and what a handshake reply means.

use vstd::prelude::*;
use crate::json::{value_get, value_get_field, JsonValue};
use crate::models::Response;
use crate::text::{push_signed_decimal, push_str, str_equal, string_from_chars};

verus! {

/// Whether a tool call may proceed before any handshake.
#[derive(Debug, Clone, Copy, PartialEq, Eq, Structural)]
pub enum AccessDecision {
    /// The call may go ahead.
    Allow,
    /// The game is not known to be connected: try a handshake first.
    Handshake,
}

/// The tool that stays callable whatever the connection state.
pub open spec fn is_lifecycle_tool(tool_name: Seq<char>) -> bool {
    tool_name == "s1_game"@
}

/// The decision for `tool_name` in a connection state.
pub open spec fn access_decision(tool_name: Seq<char>, server_connected: bool, client_connected: bool) -> AccessDecision {
    if is_lifecycle_tool(tool_name) || (server_connected && client_connected) {
        AccessDecision::Allow
    } else {
        AccessDecision::Handshake
    }
}

/// `s1_game` is always allowed; any other tool only while both the server's
/// flag and the TCP client say the game is connected.
pub fn tool_access(tool_name: &str, server_connected: bool, client_connected: bool) -> (r: AccessDecision)
    ensures
        r == access_decision(tool_name@, server_connected, client_connected),
{
    if str_equal(tool_name, "s1_game") {
        return AccessDecision::Allow;
    }
    if server_connected && client_connected {
        AccessDecision::Allow
    } else {
        AccessDecision::Handshake
    }
}

/// The error a held-back tool answers when the game is not connected.
pub open spec fn not_connected_text() -> Seq<char> {
    "Error: Game is not connected.\nIf the game is already running, wait a moment and retry.\nOtherwise use s1_game with action='launch'."@
}

/// The error a held-back tool answers when the game is not connected.
pub fn not_connected_message() -> (r: String)
    ensures
        r@ == not_connected_text(),
{
    String::from_str("Error: Game is not connected.\nIf the game is already running, wait a moment and retry.\nOtherwise use s1_game with action='launch'.")
}

/// The answer to a held-back tool call after the lazy handshake.
pub fn access_after_handshake(handshake_succeeded: bool) -> (r: Result<(), String>)
    ensures
        handshake_succeeded ==> r is Ok,
        !handshake_succeeded ==> (r matches Err(m) && m@ == not_connected_text()),
{
    if handshake_succeeded { Ok(()) } else { Err(not_connected_message()) }
}

/// What a handshake reply means for the connection.
#[derive(Debug)]
pub enum HandshakeOutcome {
    /// The mod answered with an error: the game counts as not connected.
    Rejected(String),
    /// The game is connected; the instructions it sent, if any.
    Connected(Option<String>),
}

/// The instructions text a handshake result carries: its `instructions` string.
pub open spec fn instructions_of(result: Option<JsonValue>) -> Option<Seq<char>> {
    match result {
        Some(r) => match value_get(r, "instructions"@) {
            Some(JsonValue::String(s)) => Some(s@),
            _ => None,
        },
        None => None,
    }
}

/// Reads a handshake reply: an error becomes `Rejected("{message} ({code})")`;
/// otherwise the game is connected, with the `instructions` string of the result.
pub fn handshake_outcome(response: &Response) -> (r: HandshakeOutcome)
    ensures
        match response.error {
            Some(e) => r matches HandshakeOutcome::Rejected(m)
                && m@ == e.message@ + " ("@ + crate::text::signed_decimal(e.code as int) + ")"@,
            None => r matches HandshakeOutcome::Connected(i) && match (i, instructions_of(response.result)) {
                (Some(t), Some(u)) => t@ == u,
                (None, None) => true,
                _ => false,
            },
        },
{
    match &response.error {
        Some(error) => {
            let mut m: Vec<char> = Vec::new();
            push_str(&mut m, error.message.as_str());
            push_str(&mut m, " (");
            push_signed_decimal(&mut m, error.code as i64);
            push_str(&mut m, ")");
            HandshakeOutcome::Rejected(string_from_chars(&m))
        },
        None => {
            let instructions = match &response.result {
                Some(result) => match value_get_field(result, "instructions") {
                    Some(JsonValue::String(text)) => Some(String::from_str(text.as_str())),
                    _ => None,
                },
                None => None,
            };
            HandshakeOutcome::Connected(instructions)
        },
    }
}

/// `s1_game` may be called in every connection state; every other tool, when
/// the game is not known to be connected, first triggers a handshake, and a
/// failed handshake answers the not-connected error.
pub proof fn lemma_lifecycle_tool_always_allowed(tool_name: Seq<char>, server_connected: bool, client_connected: bool)
    ensures
        access_decision("s1_game"@, server_connected, client_connected) == AccessDecision::Allow,
        tool_name != "s1_game"@ && !(server_connected && client_connected)
            ==> access_decision(tool_name, server_connected, client_connected) == AccessDecision::Handshake,
{
}

} // verus!
