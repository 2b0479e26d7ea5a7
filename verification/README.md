# agent_runtime_rs

An agent runtime: sessions with history limits and expiry, a tool registry
with eight builtin tools, Markdown skills, MCP (Model Context Protocol)
clients over stdio, an OpenAI-compatible chat model, and an HTTP API. The
rules of each part are stated as contracts and proved with Verus.

## Layout

- `src/` — the library, verified with Verus.
  - `session/` — sessions, messages, the session manager (history limit,
    time-to-live, persistence work) and the file names of stored sessions.
  - `tools/` — tool metadata and results, the registry, and the builtin
    tools: what each reads from its parameters and how it words its result.
  - `skill/`, `skills/` — Markdown skills with front matter, code blocks as
    scripts; skill folders with `_meta.json` and `SKILL.md`; search.
  - `mcp/` — JSON-RPC messages, server configuration, the stdio client's
    handshake state.
  - `llm/` — chat messages, tool definitions, request bodies, HTTP errors.
  - `config/` — configuration checks and `${ENV:NAME}` substitution.
  - `api/` — the routes, what each handler decides, a conversation turn, and
    the records and reply text of the tools a run called.
  - `runtime/` — the runtime's state, what it decides at start-up, and a
    chat turn (agent configuration, triggered skill and history for the model).
  - `json.rs`, `text.rs`, `keyed.rs` — JSON values, text helpers, and the
    keyed list the registries are built on.
  - `patterns.rs`, `clock.rs` — the calls into `regex` and `chrono`.
- `app/` — the server: reading files and the environment, HTTP with axum and
  reqwest, MCP server processes with tokio, logging.
- `tests/` — tests of the library.
