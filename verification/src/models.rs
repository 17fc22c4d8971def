//! JSON-RPC messages exchanged with the game mod.

use vstd::prelude::*;
use crate::json::JsonValue;

verus! {

/// A request sent to the mod.
#[derive(Debug)]
pub struct Request {
    pub id: u64,
    pub method: String,
    pub params: JsonValue,
}

/// The error part of a response.
#[derive(Debug, Clone)]
pub struct ErrorResponse {
    pub code: i32,
    pub message: String,
}

/// A response from the mod: a result or an error.
#[derive(Debug)]
pub struct Response {
    pub id: u64,
    pub result: Option<JsonValue>,
    pub error: Option<ErrorResponse>,
}

/// Acknowledges that a message with the given id was received.
#[derive(Debug, Clone)]
pub struct Acknowledgment {
    pub id: u64,
    pub status: String,
}

/// The status an acknowledgment carries when none is given.
pub fn default_status() -> (r: String)
    ensures
        r@ == "received"@,
{
    String::from_str("received")
}

} // verus!
