# s1_mcp_client_rust

An MCP server for Schedule I that talks to the in-game mod over TCP with
length-prefixed JSON messages. The decision-making core is a library verified
with Verus; the binary around it does the I/O.

## Layout

- `src/` — the verified library
  - `protocol.rs`: frame encoding and decoding (4-byte little-endian length,
    10 MiB limit), reading and writing frames, error-code mapping, heartbeat
    detection, request construction
  - `json.rs`: the JSON value model, Python-like rendering, truthiness
  - `models.rs`: requests, responses, acknowledgments
  - `config.rs`: default settings and the report for loading a config file
  - `state.rs`: which tool calls may proceed, and what a handshake reply means
  - `tcp.rs`: TCP client errors and the retry policy
  - `tools.rs`: the six tools, routing, and the plan of each tool call
  - `replies.rs`: texts for mod errors, log summaries and save listings
  - `lifecycle.rs`: game build selection, PowerShell/tasklist commands, the
    launch, close and connection-polling steps, the process listing, launch reports
  - `docs.rs`: documentation search checks, backoff and outcome handling
  - `text.rs`: character-level string helpers (trim, decimal, join)
- `app/` — the binary: stdio MCP server (rmcp), tokio TCP actor, process
  control, HTTP documentation search, config file reading, serde glue
- `tests/` — tests of the library
