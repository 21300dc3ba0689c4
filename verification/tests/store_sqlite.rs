//! The engine run against SQLite, statement by statement, with the same
//! schema and statements as the command-line and tool front ends.

use memd::domain::{Entry, EntrySource, Snapshot, Volume};
use memd::engine::{add_entry, clone_volume, create_volume, snapshot};
use memd::rows::{list_entries, search};
use memd::storage::{Command, EngineError, EntryRow, Outcome, Step, StorageError};
use memd::time::Timestamp;
use rusqlite::Connection;

fn open() -> Connection {
    let conn = Connection::open_in_memory().unwrap();
    conn.execute_batch(
        "PRAGMA foreign_keys = ON;
        CREATE TABLE volumes (id INTEGER PRIMARY KEY, name TEXT NOT NULL UNIQUE, created_at TEXT NOT NULL);
        CREATE TABLE entries (id INTEGER PRIMARY KEY, volume_id INTEGER NOT NULL REFERENCES volumes(id),
            content TEXT NOT NULL, created_at TEXT NOT NULL,
            source TEXT NOT NULL CHECK (source IN ('user', 'agent', 'tool')));
        CREATE TABLE events (seq INTEGER NOT NULL, volume_id INTEGER NOT NULL REFERENCES volumes(id),
            event_type TEXT NOT NULL CHECK (event_type IN ('put_entry')),
            entry_id INTEGER NOT NULL REFERENCES entries(id), created_at TEXT NOT NULL,
            PRIMARY KEY (volume_id, seq));
        CREATE TABLE snapshots (id INTEGER PRIMARY KEY, volume_id INTEGER NOT NULL REFERENCES volumes(id),
            event_seq_pointer INTEGER NOT NULL, created_at TEXT NOT NULL, label TEXT NOT NULL);",
    )
    .unwrap();
    conn
}

fn run(conn: &Connection, command: Command) -> rusqlite::Result<Outcome> {
    Ok(match command {
        Command::InsertVolume { name, created_at } => {
            conn.execute("INSERT INTO volumes (name, created_at) VALUES (?1, ?2)", (&name, &created_at))?;
            Outcome::Inserted { rowid: conn.last_insert_rowid() }
        }
        Command::InsertEntry { volume_id, content, created_at, source } => {
            conn.execute(
                "INSERT INTO entries (volume_id, content, created_at, source) VALUES (?1, ?2, ?3, ?4)",
                (volume_id, &content, &created_at, &source),
            )?;
            Outcome::Inserted { rowid: conn.last_insert_rowid() }
        }
        Command::LatestSeq { volume_id } => Outcome::LatestSeq {
            seq: conn.query_row(
                "SELECT COALESCE(MAX(seq), 0) FROM events WHERE volume_id = ?1",
                [volume_id],
                |row| row.get(0),
            )?,
        },
        Command::InsertEvent { seq, volume_id, event_type, entry_id, created_at } => {
            conn.execute(
                "INSERT INTO events (seq, volume_id, event_type, entry_id, created_at) VALUES (?1, ?2, ?3, ?4, ?5)",
                (seq, volume_id, &event_type, entry_id, &created_at),
            )?;
            Outcome::Written
        }
        Command::InsertSnapshot { volume_id, event_seq_pointer, created_at, label } => {
            conn.execute(
                "INSERT INTO snapshots (volume_id, event_seq_pointer, created_at, label) VALUES (?1, ?2, ?3, ?4)",
                (volume_id, event_seq_pointer, &created_at, &label),
            )?;
            Outcome::Inserted { rowid: conn.last_insert_rowid() }
        }
        Command::FindSnapshot { snapshot_id } => {
            let (volume_id, event_seq_pointer) = conn.query_row(
                "SELECT volume_id, event_seq_pointer FROM snapshots WHERE id = ?1",
                [snapshot_id],
                |row| Ok((row.get(0)?, row.get(1)?)),
            )?;
            Outcome::Snapshot { volume_id, event_seq_pointer }
        }
        Command::FindVolumeName { volume_id } => Outcome::VolumeName {
            name: conn.query_row("SELECT name FROM volumes WHERE id = ?1", [volume_id], |row| row.get(0))?,
        },
        Command::EventsUpTo { volume_id, last_seq } => {
            let mut stmt = conn.prepare(
                "SELECT seq, entry_id FROM events WHERE volume_id = ?1 AND seq <= ?2 ORDER BY seq ASC",
            )?;
            let events = stmt
                .query_map((volume_id, last_seq), |row| Ok((row.get(0)?, row.get(1)?)))?
                .collect::<rusqlite::Result<Vec<(i64, i64)>>>()?;
            Outcome::Events { events }
        }
        Command::FindEntry { entry_id } => {
            let (content, created_at, source) = conn.query_row(
                "SELECT content, created_at, source FROM entries WHERE id = ?1",
                [entry_id],
                |row| Ok((row.get(0)?, row.get(1)?, row.get(2)?)),
            )?;
            Outcome::Entry { content, created_at, source }
        }
    })
}

fn drive<T>(conn: &Connection, mut step: Step<T>, mut resume: impl FnMut(Outcome) -> Step<T>) -> Result<T, EngineError> {
    loop {
        match step {
            Step::Done(r) => return r,
            Step::Run(c) => {
                let outcome = run(conn, c)
                    .unwrap_or_else(|e| Outcome::Failed(StorageError { message: e.to_string() }));
                step = resume(outcome);
            }
        }
    }
}

fn at(secs: i64) -> Timestamp {
    Timestamp::from_parts(secs, 0).unwrap()
}

fn new_volume(conn: &Connection, name: &str) -> Result<Volume, EngineError> {
    let (mut op, step) = create_volume(name.to_string(), at(1000));
    drive(conn, step, |o| op.resume(o))
}

fn put(conn: &Connection, volume_id: i64, content: &str, secs: i64) -> Result<Entry, EngineError> {
    let (mut op, step) = add_entry(volume_id, content.to_string(), EntrySource::Agent, at(secs));
    drive(conn, step, |o| op.resume(o))
}

fn bookmark(conn: &Connection, volume_id: i64, label: &str) -> Result<Snapshot, EngineError> {
    let (mut op, step) = snapshot(volume_id, label.to_string(), at(2000));
    drive(conn, step, |o| op.resume(o))
}

fn branch(conn: &Connection, snapshot_id: i64) -> Result<Volume, EngineError> {
    let (mut op, step) = clone_volume(snapshot_id, at(3000));
    drive(conn, step, |o| op.resume(o))
}

fn entry_rows(conn: &Connection, volume_id: i64) -> Vec<EntryRow> {
    let mut stmt = conn
        .prepare("SELECT id, volume_id, content, created_at, source FROM entries WHERE volume_id = ?1 ORDER BY id ASC")
        .unwrap();
    stmt.query_map([volume_id], |row| {
        Ok(EntryRow {
            id: row.get(0)?,
            volume_id: row.get(1)?,
            content: row.get(2)?,
            created_at: row.get(3)?,
            source: row.get(4)?,
        })
    })
    .unwrap()
    .collect::<rusqlite::Result<Vec<_>>>()
    .unwrap()
}

fn seqs(conn: &Connection, volume_id: i64) -> Vec<i64> {
    let mut stmt = conn.prepare("SELECT seq FROM events WHERE volume_id = ?1 ORDER BY seq").unwrap();
    stmt.query_map([volume_id], |row| row.get(0)).unwrap().collect::<rusqlite::Result<Vec<_>>>().unwrap()
}

#[test]
fn log_numbers_entries_from_one() {
    let conn = open();
    let v = new_volume(&conn, "work-notes").unwrap();
    put(&conn, v.id(), "auth bug is in middleware.rs line 42", 1).unwrap();
    put(&conn, v.id(), "use postgres not sqlite in prod", 2).unwrap();
    put(&conn, v.id(), "switched to axum", 3).unwrap();
    assert_eq!(seqs(&conn, v.id()), vec![1, 2, 3]);
}

#[test]
fn clone_holds_the_entries_up_to_the_snapshot() {
    let conn = open();
    let v = new_volume(&conn, "work-notes").unwrap();
    put(&conn, v.id(), "auth bug is in middleware.rs line 42", 1).unwrap();
    put(&conn, v.id(), "use postgres not sqlite in prod", 2).unwrap();
    let s = bookmark(&conn, v.id(), "before-refactor").unwrap();
    assert_eq!(s.event_seq_pointer(), 2);
    put(&conn, v.id(), "switched to axum for the HTTP layer", 3).unwrap();

    let c = branch(&conn, s.id()).unwrap();
    assert_eq!(c.name(), "work-notes_clone");
    assert_ne!(c.id(), v.id());
    let copied = list_entries(&entry_rows(&conn, c.id())).unwrap();
    let contents: Vec<&str> = copied.iter().map(|e| e.content()).collect();
    assert_eq!(contents, vec!["auth bug is in middleware.rs line 42", "use postgres not sqlite in prod"]);
    assert_eq!(copied[0].created_at().timestamp(), 1);
    assert_eq!(copied[1].source(), EntrySource::Agent);
    assert_eq!(seqs(&conn, c.id()), vec![1, 2]);

    // The clone is independent: writing to it leaves the source alone.
    put(&conn, c.id(), "only in the clone", 4).unwrap();
    assert_eq!(seqs(&conn, c.id()), vec![1, 2, 3]);
    assert_eq!(list_entries(&entry_rows(&conn, v.id())).unwrap().len(), 3);
}

#[test]
fn snapshot_of_an_empty_volume_is_refused() {
    let conn = open();
    let v = new_volume(&conn, "empty").unwrap();
    assert!(matches!(
        bookmark(&conn, v.id(), "nothing yet"),
        Err(EngineError::Domain(memd::domain::DomainError::InvalidSeqNumber))
    ));
    assert_eq!(count(&conn, "snapshots"), 0);
}

fn count(conn: &Connection, table: &str) -> i64 {
    conn.query_row(&format!("SELECT COUNT(*) FROM {table}"), [], |row| row.get(0)).unwrap()
}

#[test]
fn blank_names_and_labels_leave_no_rows() {
    let conn = open();
    assert!(matches!(
        new_volume(&conn, " \t"),
        Err(EngineError::Domain(memd::domain::DomainError::EmptyVolumeName))
    ));
    assert_eq!(count(&conn, "volumes"), 0);
    let v = new_volume(&conn, "notes").unwrap();
    put(&conn, v.id(), "a fact", 1).unwrap();
    assert!(matches!(
        bookmark(&conn, v.id(), "  "),
        Err(EngineError::Domain(memd::domain::DomainError::EmptySnapshotLabel))
    ));
    assert_eq!(count(&conn, "snapshots"), 0);
    let empty = new_volume(&conn, "empty").unwrap();
    assert!(matches!(
        bookmark(&conn, empty.id(), "  "),
        Err(EngineError::Domain(memd::domain::DomainError::InvalidSeqNumber))
    ));
    assert_eq!(count(&conn, "snapshots"), 0);
}

#[test]
fn duplicate_volume_names_are_refused_by_the_store() {
    let conn = open();
    new_volume(&conn, "notes").unwrap();
    assert!(matches!(new_volume(&conn, "notes"), Err(EngineError::Storage(_))));
}

#[test]
fn cloning_a_missing_snapshot_fails() {
    let conn = open();
    assert!(matches!(branch(&conn, 99), Err(EngineError::Storage(_))));
}

#[test]
fn search_finds_entries_by_substring() {
    let conn = open();
    let v = new_volume(&conn, "work-notes").unwrap();
    put(&conn, v.id(), "auth bug is in middleware.rs line 42", 1).unwrap();
    put(&conn, v.id(), "use postgres not sqlite in prod", 2).unwrap();
    let hits = search(&entry_rows(&conn, v.id()), "postgres").unwrap();
    assert_eq!(hits.len(), 1);
    assert!(search(&entry_rows(&conn, v.id()), "Postgres").unwrap().is_empty());
    assert_eq!(hits[0].content(), "use postgres not sqlite in prod");
}

#[test]
fn cloning_a_snapshot_twice_is_refused_by_the_store() {
    let conn = open();
    let v = new_volume(&conn, "notes").unwrap();
    put(&conn, v.id(), "a fact", 1).unwrap();
    let s = bookmark(&conn, v.id(), "v1").unwrap();
    let c = branch(&conn, s.id()).unwrap();
    assert_eq!(c.name(), "notes_clone");
    assert!(matches!(branch(&conn, s.id()), Err(EngineError::Storage(_))));
}

#[test]
fn snapshot_of_a_clone_covers_the_copied_log() {
    let conn = open();
    let v = new_volume(&conn, "notes").unwrap();
    put(&conn, v.id(), "one", 1).unwrap();
    put(&conn, v.id(), "two", 2).unwrap();
    let s = bookmark(&conn, v.id(), "v1").unwrap();
    let c = branch(&conn, s.id()).unwrap();
    let cs = bookmark(&conn, c.id(), "copy").unwrap();
    assert_eq!(cs.event_seq_pointer(), 2);
    let cc = branch(&conn, cs.id()).unwrap();
    assert_eq!(cc.name(), "notes_clone_clone");
    assert_eq!(seqs(&conn, cc.id()), vec![1, 2]);
}
