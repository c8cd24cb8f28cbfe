# agent_sessions

An index of the conversations that coding agents (Codex, Cursor, ...) keep on
disk, with the logic verified by Verus.

- `src/adapters/` reads each agent's files: which directory entries a scan
  visits, and how the text of a Codex JSON-lines file becomes a session with
  numbered messages.
- `src/db/` stores sessions and messages in SQLite: the statements and the
  values bound to them, and how result rows are read back. A connection
  carries a ghost record of every call made through it; only the wrappers in
  `src/db/sqlite.rs` that call rusqlite extend it, and each query method
  states the one call it adds and how SQLite's answer becomes its result.
- `src/models.rs` holds the session, message and filter types.
- `src/text.rs`, `src/time.rs`, `src/json.rs`, `src/ids.rs` hold the text
  helpers and the thin, specified wrappers around chrono, serde_json and uuid.
- `app/` opens the index database, creates its tables, and reports which
  agents it finds under the home directory and how many session files each
  holds; it also holds the file-system side of each agent (walking its data
  directory, reading a session file).
