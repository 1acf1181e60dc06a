# aichdl — 知乎日常助手 (verified library + MCP server)

An MCP server (stdio, JSON-RPC 2.0) that reads DeepSeek chat exports
(`chat_*.json`), summarises them, and pairs them with Zhihu's recommended
questions in a brief for an assistant.

- `src/` is the library, written in Verus and verified: every function
  carries a contract over `Seq<char>`, `Map` and the types' views.
  - `text` — decimal rendering, search, trimming, truncation.
  - `types` — the export format and the summaries/details derived from it.
  - `ds_parser` — questions, summaries, the most recent sessions (a stable
    sort by update time), and the detail of a session found by title.
  - `analyzer` — the Markdown overview, session detail and daily brief.
  - `config` — the request headers, built in a `reqwest` `HeaderMap`.
  - `zhihu` — the endpoints, and the recommended questions read from the
    creator API's JSON (parsed by `serde_json`).
  - `logger`, `settings`, `server` — log entries, settings updates, and the
    server's routing and replies.
- `app/` is the program around it: stdin/stdout, the files (exports,
  `settings.toml`, `mcp.log`, `mcp.lock`), the HTTP request, and serde.
- `tests/` runs the library on concrete values.
