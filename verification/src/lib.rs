//! A persistent, versioned memory store: volumes of text entries, an
//! append-only event log per volume, snapshots that bookmark the log, and
//! clones that replay a volume's log up to a snapshot.
//!
//! The storage statements themselves are executed by the caller; this crate
//! decides every step and checks every value.

pub mod text;
pub mod time;
pub mod domain;
pub mod storage;
pub mod rows;
pub mod engine;
pub mod protocol;
