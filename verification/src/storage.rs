//! The statements that the engine asks of the store, what the store answers,
//! the rows it hands back, and the engine's errors.

use vstd::prelude::*;

use crate::domain::{domain_message, DomainError};
use crate::time::{timestamp_message, ParseFailure, TimestampError};

verus! {

/// A failure reported by the store, in its own words.
#[derive(Debug)]
pub struct StorageError {
    pub message: String,
}

/// Why an engine operation failed.
#[derive(Debug)]
pub enum EngineError {
    /// A value broke a domain rule.
    Domain(DomainError),
    /// The store refused a statement.
    Storage(StorageError),
    /// A stored date and time could not be read.
    Timestamp(TimestampError),
    /// The volume's log already holds the largest sequence number there is.
    SequenceExhausted,
    /// The store answered with something the pending statement cannot give.
    UnexpectedOutcome,
}

/// The message that describes each engine error that is not the store's,
/// a domain rule's or a timestamp's.
pub open spec fn engine_message(e: EngineError) -> Seq<char> {
    match e {
        EngineError::SequenceExhausted => "event sequence numbers are exhausted"@,
        EngineError::UnexpectedOutcome => "the store answered out of turn"@,
        _ => Seq::empty(),
    }
}

impl EngineError {
    /// The human-readable message of this error.
    pub fn message(&self) -> (m: String)
        ensures
            self matches EngineError::Domain(d) ==> m@ == domain_message(*d),
            self matches EngineError::Storage(s) ==> m@ == s.message@,
            self matches EngineError::Timestamp(t) ==> m@ == timestamp_message(*t),
            self is SequenceExhausted || self is UnexpectedOutcome ==> m@ == engine_message(*self),
    {
        match self {
            EngineError::Domain(d) => d.message(),
            EngineError::Storage(s) => s.message.clone(),
            EngineError::Timestamp(t) => t.message(),
            EngineError::SequenceExhausted => "event sequence numbers are exhausted".to_owned(),
            EngineError::UnexpectedOutcome => "the store answered out of turn".to_owned(),
        }
    }
}

/// One statement for the store to carry out.
#[derive(Debug)]
pub enum Command {
    /// Add a volume row; answered by `Inserted` with the new row id.
    InsertVolume { name: String, created_at: String },
    /// Add an entry row; answered by `Inserted` with the new row id.
    InsertEntry { volume_id: i64, content: String, created_at: String, source: String },
    /// The largest sequence number in the volume's log, 0 for an empty log;
    /// answered by `LatestSeq`.
    LatestSeq { volume_id: i64 },
    /// Add an event row; answered by `Written`.
    InsertEvent {
        seq: i64,
        volume_id: i64,
        event_type: String,
        entry_id: i64,
        created_at: String,
    },
    /// Add a snapshot row; answered by `Inserted` with the new row id.
    InsertSnapshot { volume_id: i64, event_seq_pointer: i64, created_at: String, label: String },
    /// The volume and pointer of a snapshot; answered by `Snapshot`.
    FindSnapshot { snapshot_id: i64 },
    /// The name of a volume; answered by `VolumeName`.
    FindVolumeName { volume_id: i64 },
    /// The `(seq, entry_id)` pairs of the volume's log with `seq <= last_seq`,
    /// by ascending `seq`; answered by `Events`.
    EventsUpTo { volume_id: i64, last_seq: i64 },
    /// The content, creation time and source of an entry; answered by `Entry`.
    FindEntry { entry_id: i64 },
}

/// A statement as plain values.
pub enum CommandView {
    InsertVolume { name: Seq<char>, created_at: Seq<char> },
    InsertEntry { volume_id: i64, content: Seq<char>, created_at: Seq<char>, source: Seq<char> },
    LatestSeq { volume_id: i64 },
    InsertEvent {
        seq: i64,
        volume_id: i64,
        event_type: Seq<char>,
        entry_id: i64,
        created_at: Seq<char>,
    },
    InsertSnapshot {
        volume_id: i64,
        event_seq_pointer: i64,
        created_at: Seq<char>,
        label: Seq<char>,
    },
    FindSnapshot { snapshot_id: i64 },
    FindVolumeName { volume_id: i64 },
    EventsUpTo { volume_id: i64, last_seq: i64 },
    FindEntry { entry_id: i64 },
}

impl View for Command {
    type V = CommandView;

    open spec fn view(&self) -> CommandView {
        match self {
            Command::InsertVolume { name, created_at } => CommandView::InsertVolume {
                name: name@,
                created_at: created_at@,
            },
            Command::InsertEntry { volume_id, content, created_at, source } =>
                CommandView::InsertEntry {
                    volume_id: *volume_id,
                    content: content@,
                    created_at: created_at@,
                    source: source@,
                },
            Command::LatestSeq { volume_id } => CommandView::LatestSeq { volume_id: *volume_id },
            Command::InsertEvent { seq, volume_id, event_type, entry_id, created_at } =>
                CommandView::InsertEvent {
                    seq: *seq,
                    volume_id: *volume_id,
                    event_type: event_type@,
                    entry_id: *entry_id,
                    created_at: created_at@,
                },
            Command::InsertSnapshot { volume_id, event_seq_pointer, created_at, label } =>
                CommandView::InsertSnapshot {
                    volume_id: *volume_id,
                    event_seq_pointer: *event_seq_pointer,
                    created_at: created_at@,
                    label: label@,
                },
            Command::FindSnapshot { snapshot_id } => CommandView::FindSnapshot {
                snapshot_id: *snapshot_id,
            },
            Command::FindVolumeName { volume_id } => CommandView::FindVolumeName {
                volume_id: *volume_id,
            },
            Command::EventsUpTo { volume_id, last_seq } => CommandView::EventsUpTo {
                volume_id: *volume_id,
                last_seq: *last_seq,
            },
            Command::FindEntry { entry_id } => CommandView::FindEntry { entry_id: *entry_id },
        }
    }
}

/// What the store answers to a statement.
#[derive(Debug)]
pub enum Outcome {
    /// A row was added under this row id.
    Inserted { rowid: i64 },
    /// A row was added.
    Written,
    /// The largest sequence number of a log, 0 for an empty log.
    LatestSeq { seq: i64 },
    /// A snapshot's volume and pointer.
    Snapshot { volume_id: i64, event_seq_pointer: i64 },
    /// A volume's name.
    VolumeName { name: String },
    /// `(seq, entry_id)` pairs of a log.
    Events { events: Vec<(i64, i64)> },
    /// An entry's content, creation time and source, as stored.
    Entry { content: String, created_at: String, source: String },
    /// The statement failed.
    Failed(StorageError),
}

/// An answer as plain values.
pub enum OutcomeView {
    Inserted { rowid: i64 },
    Written,
    LatestSeq { seq: i64 },
    Snapshot { volume_id: i64, event_seq_pointer: i64 },
    VolumeName { name: Seq<char> },
    Events { events: Seq<(i64, i64)> },
    Entry { content: Seq<char>, created_at: Seq<char>, source: Seq<char> },
    Failed(Seq<char>),
}

impl View for Outcome {
    type V = OutcomeView;

    open spec fn view(&self) -> OutcomeView {
        match self {
            Outcome::Inserted { rowid } => OutcomeView::Inserted { rowid: *rowid },
            Outcome::Written => OutcomeView::Written,
            Outcome::LatestSeq { seq } => OutcomeView::LatestSeq { seq: *seq },
            Outcome::Snapshot { volume_id, event_seq_pointer } => OutcomeView::Snapshot {
                volume_id: *volume_id,
                event_seq_pointer: *event_seq_pointer,
            },
            Outcome::VolumeName { name } => OutcomeView::VolumeName { name: name@ },
            Outcome::Events { events } => OutcomeView::Events { events: events@ },
            Outcome::Entry { content, created_at, source } => OutcomeView::Entry {
                content: content@,
                created_at: created_at@,
                source: source@,
            },
            Outcome::Failed(e) => OutcomeView::Failed(e.message@),
        }
    }
}

/// An engine error as plain values.
pub enum ErrorView {
    Domain(DomainError),
    Storage(Seq<char>),
    UnreadableTimestamp(ParseFailure),
    TimestampOutOfRange,
    SequenceExhausted,
    UnexpectedOutcome,
}

impl View for EngineError {
    type V = ErrorView;

    open spec fn view(&self) -> ErrorView {
        match self {
            EngineError::Domain(d) => ErrorView::Domain(*d),
            EngineError::Storage(s) => ErrorView::Storage(s.message@),
            EngineError::Timestamp(TimestampError::Unparsable(f)) => ErrorView::UnreadableTimestamp(
                *f,
            ),
            EngineError::Timestamp(TimestampError::OutOfRange) => ErrorView::TimestampOutOfRange,
            EngineError::SequenceExhausted => ErrorView::SequenceExhausted,
            EngineError::UnexpectedOutcome => ErrorView::UnexpectedOutcome,
        }
    }
}

/// What an operation asks for next: a statement, or its end.
#[derive(Debug)]
pub enum Step<T> {
    Run(Command),
    Done(Result<T, EngineError>),
}

/// A step as plain values.
pub enum StepView<V> {
    Run(CommandView),
    Done(Result<V, ErrorView>),
}

impl<T: View> View for Step<T> {
    type V = StepView<T::V>;

    open spec fn view(&self) -> StepView<T::V> {
        match self {
            Step::Run(c) => StepView::Run(c@),
            Step::Done(Ok(v)) => StepView::Done(Ok(v@)),
            Step::Done(Err(e)) => StepView::Done(Err(e@)),
        }
    }
}

/// A volume as stored.
#[derive(Debug)]
pub struct VolumeRow {
    pub id: i64,
    pub name: String,
    pub created_at: String,
}

/// An entry as stored.
#[derive(Debug)]
pub struct EntryRow {
    pub id: i64,
    pub volume_id: i64,
    pub content: String,
    pub created_at: String,
    pub source: String,
}

/// A snapshot as stored.
#[derive(Debug)]
pub struct SnapshotRow {
    pub id: i64,
    pub volume_id: i64,
    pub event_seq_pointer: i64,
    pub created_at: String,
    pub label: String,
}

} // verus!
