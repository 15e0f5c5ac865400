# ctx-hub

A local context hub: records (service addresses, commands, runbooks,
notes) kept in SQLite with full-text, CJK n-gram and trigram search,
looked up by keyword, exact tag or unique key, and served read-only to AI
assistants over MCP.

- `src/` is the library, verified with Verus: search-query quoting, CJK
  n-grams, merging of search hits, tag counting, output formatting, JSONL
  records, the MCP tool set and JSON-RPC routing, and the SQLite store
  (SQLite, serde_json, time and uuid are reached through small trusted
  wrappers whose contracts are stated in their doc comments).
- `app/` is the `ctx` command: argument parsing, files, stdin/stdout,
  the clipboard, and JSON (de)serialisation.
- `tests/` exercise the library with the real SQLite.
