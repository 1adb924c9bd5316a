# fast_time_server

An MCP server exposing time-related tools (current time in a zone, conversion
between zones), resources and prompts over stdio, HTTP JSON-RPC, SSE and a REST API.

Layout:

- `src/` — the verified library. `json` is the JSON document model and its
  mathematical view; `clock` holds time zones and instants and the calls into
  `chrono`/`chrono_tz`; `zone_cache` remembers looked-up zones; `tools`,
  `resources`, `prompts`, `openapi`, `tools_list` build the MCP content; `mcp` the
  JSON-RPC responses; `server` decides what each request is answered with and
  whether a request is authorized.
- `app/` — the binary: argument parsing, logging, stdin/stdout, the axum routers,
  and conversion between the library's documents and `serde_json` values.
- `tests/` — executable tests of the library.
