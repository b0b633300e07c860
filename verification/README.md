# morrow

The native bridge logic of Morrow, a Mac-local scheduling assistant, as a
library verified with Verus.

- `src/` is the library. Every function in it is verified against its
  contract; the few calls into std and the `sha2` crate that Verus cannot
  read stand behind small wrappers whose contracts say what the library
  relies on.
  - `app_shell`: the menu-bar state, its menu model, and pause/resume.
  - `messages`, `sender_identity`, `sender_read_recent`, `preview`:
    reading the Messages database through `sqlite3` (queries, read-only
    arguments, decoding of hex columns and rows into chats), private sender
    keys, the read that records who sent each message and falls back to
    the attributed body's text, and message previews.
  - `codex_auth`, `codex_setup`, `codex_provider`, `openai_provider`: Codex
    CLI discovery, readiness and setup receipts, the `codex exec` request
    and how its runs are judged, and the OpenAI response reading.
  - `eventkit`, `permissions`, `keychain`, `delete_data`, `runtime_identity`,
    `decision_evidence`, `list_intake`, `paths`, `crash_log`,
    `production_scan`, `fake_bridge`: EventKit requests and results,
    privacy permissions, the token vault rules, data deletion receipts, the
    app's own identity, decision evidence reports, the list intake review,
    and small helpers.
- `tests/` runs the library on concrete values.
- `app/` is the command-line host: child processes, the environment, the
  file system, and the JSON forms of the command types.
