# codex_tools

A verified library for the tool layer of a coding agent: the tools a session offers
a model, their JSON schemas, the registry of handlers behind them, code mode (tools
called from JavaScript), project instructions (`AGENTS.md`), and the request checks
of the app server. Every function in `src/` carries a contract that Verus proves.

## Layout

- `src/` — the verified library.
  - `json`, `schema`, `schema_json`, `sanitize`: JSON values, the tool-schema
    subset, reading and writing schemas (with a round-trip law), and sanitizing
    arbitrary JSON Schema into that subset; `sanitize_laws` proves the shape of
    every sanitized schema and that sanitizing twice changes nothing.
  - `tool`, `tool_json`, `builtin`, `agent_tools`, `misc_tools`, `builders`,
    `texts`: the tool specs and their wire JSON.
  - `config`, `toolset`, `registry`, `sorting`: the session's tool configuration,
    the tool set built from it, and the handler registry; `toolset_laws` states
    which tools a configuration offers (flags, web search, search and
    suggestions).
  - `mcp`, `discoverable`: MCP and app tools as function tools.
  - `code_mode`, `code_mode_runtime`, `code_mode_session`, `typescript`: code
    mode's TypeScript declarations, nested tool calls, wait arguments and the
    outcome of the script runner's reports.
  - `project_doc`: the project doc search and the session instructions.
  - `app_server`, `app_list`, `threads`, `command_exec`: request checks of the app
    server (dynamic tools, app lists and the steps of loading them, review
    targets, thread reading, resumption and unarchiving, git metadata, one-off commands).
  - `strings`, `text`: string helpers and their specifications.
- `tests/` — tests run against the compiled library.
- `app/` — the unverified edge: `serde_json` and `rmcp` conversions, reading
  project docs from disk, and the wire forms of replies.

Outside calls sit behind a few trusted wrappers, each documented where it stands:
JSON string quoting (`serde_json`), random request ids and reading thread ids (`uuid`), and path
comparison (`std::path`).
