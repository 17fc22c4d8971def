//! Verified core of the Schedule I MCP bridge: wire framing, JSON-RPC
//! helpers, configuration decoding, tool routing and argument checks,
//! game-lifecycle decisions and the text rendering that tools reply with.

pub mod text;
pub mod protocol;
pub mod json;
pub mod models;
pub mod config;
pub mod state;
pub mod tcp;
pub mod tools;
pub mod lifecycle;
pub mod docs;
pub mod replies;
