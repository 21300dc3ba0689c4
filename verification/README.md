# memd

A persistent, versioned memory store. Memory is organised into **volumes**
(isolated namespaces). Each volume holds **entries** (text snippets) and an
append-only event log. A **snapshot** bookmarks a volume's log; a **clone**
of a snapshot is a new volume holding a copy of every entry the log recorded
up to that bookmark, each under its event's sequence number.

## Layout

- `src/` — the verified library.
  - `text` — Unicode white space, blank text, substring search.
  - `time` — UTC instants and their RFC 3339 text (through chrono).
  - `domain` — volumes, entries, events, snapshots and their rules.
  - `storage` — the statements the engine asks of the store, the store's
    answers, stored rows, and the engine's errors.
  - `rows` — stored rows read back as domain values; listings and search.
  - `engine` — the write operations (create a volume, add an entry, take a
    snapshot, clone a volume) as step-by-step exchanges with the store, and
    the proof that a clone replays the source log.
  - `protocol` — the memory tools' requests and responses.
- `app/` — the `memd` program: SQLite storage (rusqlite), the command line
  (clap) and the memory tools served over MCP on stdio (rmcp, tokio).
- `tests/` — tests of the library, including a run against SQLite.
