//! Adding an entry to a volume and appending its event to the log.

use vstd::prelude::*;

use super::{lemma_run_three, run};
use crate::domain::{
    event_type_text, source_text, DomainError, Entry, EntrySource, EntryView, EventType,
};
use crate::storage::{Command, CommandView, EngineError, ErrorView, Outcome, OutcomeView, Step, StepView};
use crate::text::is_blank;
use crate::time::{rfc3339_of, Timestamp};

verus! {

/// Where adding an entry stands.
pub enum AddEntryStage {
    AwaitEntryId,
    AwaitLatestSeq { entry_id: i64 },
    AwaitEventWritten { entry_id: i64 },
    Finished,
}

/// What an entry addition in progress knows.
pub struct AddEntryState {
    pub volume_id: i64,
    pub content: Seq<char>,
    pub source: EntrySource,
    pub created_at: (i64, u32),
    pub stage: AddEntryStage,
}

/// The result of building an entry from these values.
pub open spec fn entry_result(
    id: i64,
    volume_id: i64,
    content: Seq<char>,
    created_at: (i64, u32),
    source: EntrySource,
) -> Result<EntryView, ErrorView> {
    if is_blank(content) {
        Err(ErrorView::Domain(DomainError::EmptyEntryContent))
    } else {
        Ok(EntryView { id, volume_id, content, created_at, source })
    }
}

/// How an entry addition starts: blank content is refused before the store is
/// asked anything; otherwise the entry row is inserted.
pub open spec fn add_entry_start(
    volume_id: i64,
    content: Seq<char>,
    source: EntrySource,
    created_at: (i64, u32),
) -> (AddEntryState, StepView<EntryView>) {
    let s = AddEntryState { volume_id, content, source, created_at, stage: AddEntryStage::AwaitEntryId };
    if is_blank(content) {
        (
            AddEntryState { stage: AddEntryStage::Finished, ..s },
            StepView::Done(Err(ErrorView::Domain(DomainError::EmptyEntryContent))),
        )
    } else {
        (
            s,
            StepView::Run(
                CommandView::InsertEntry {
                    volume_id,
                    content,
                    created_at: rfc3339_of(created_at),
                    source: source_text(source),
                },
            ),
        )
    }
}

/// How an entry addition answers the store.
pub open spec fn add_entry_step(s: AddEntryState, o: OutcomeView) -> (
    AddEntryState,
    StepView<EntryView>,
) {
    let ended = AddEntryState { stage: AddEntryStage::Finished, ..s };
    match (s.stage, o) {
        (AddEntryStage::AwaitEntryId, OutcomeView::Inserted { rowid }) => (
            AddEntryState { stage: AddEntryStage::AwaitLatestSeq { entry_id: rowid }, ..s },
            StepView::Run(CommandView::LatestSeq { volume_id: s.volume_id }),
        ),
        (AddEntryStage::AwaitLatestSeq { entry_id }, OutcomeView::LatestSeq { seq }) => {
            if seq == i64::MAX {
                (ended, StepView::Done(Err(ErrorView::SequenceExhausted)))
            } else {
                (
                    AddEntryState { stage: AddEntryStage::AwaitEventWritten { entry_id }, ..s },
                    StepView::Run(
                        CommandView::InsertEvent {
                            seq: (seq + 1) as i64,
                            volume_id: s.volume_id,
                            event_type: event_type_text(EventType::PutEntry),
                            entry_id,
                            created_at: rfc3339_of(s.created_at),
                        },
                    ),
                )
            }
        },
        (AddEntryStage::AwaitEventWritten { entry_id }, OutcomeView::Written) => (
            ended,
            StepView::Done(entry_result(entry_id, s.volume_id, s.content, s.created_at, s.source)),
        ),
        (AddEntryStage::Finished, _) => (s, StepView::Done(Err(ErrorView::UnexpectedOutcome))),
        (_, OutcomeView::Failed(message)) => (ended, StepView::Done(Err(ErrorView::Storage(message)))),
        _ => (ended, StepView::Done(Err(ErrorView::UnexpectedOutcome))),
    }
}

/// Adding an entry: insert it, read the log's latest sequence number, append
/// a `PutEntry` event under the next one.
pub struct AddEntry {
    volume_id: i64,
    content: String,
    source: EntrySource,
    created_at: Timestamp,
    stage: AddEntryStage,
}

impl View for AddEntry {
    type V = AddEntryState;

    closed spec fn view(&self) -> AddEntryState {
        AddEntryState {
            volume_id: self.volume_id,
            content: self.content@,
            source: self.source,
            created_at: self.created_at@,
            stage: self.stage,
        }
    }
}

impl AddEntry {
    /// Takes the store's answer to the pending statement.
    pub fn resume(&mut self, outcome: Outcome) -> (step: Step<Entry>)
        ensures
            ({
                let (next, expected) = add_entry_step(old(self)@, outcome@);
                final(self)@ == next && step@ == expected
            }),
    {
        match (&self.stage, outcome) {
            (AddEntryStage::AwaitEntryId, Outcome::Inserted { rowid }) => {
                self.stage = AddEntryStage::AwaitLatestSeq { entry_id: rowid };
                Step::Run(Command::LatestSeq { volume_id: self.volume_id })
            },
            (AddEntryStage::AwaitLatestSeq { entry_id }, Outcome::LatestSeq { seq }) => {
                let entry_id = *entry_id;
                if seq == i64::MAX {
                    self.stage = AddEntryStage::Finished;
                    Step::Done(Err(EngineError::SequenceExhausted))
                } else {
                    self.stage = AddEntryStage::AwaitEventWritten { entry_id };
                    Step::Run(
                        Command::InsertEvent {
                            seq: seq + 1,
                            volume_id: self.volume_id,
                            event_type: EventType::PutEntry.as_text(),
                            entry_id,
                            created_at: self.created_at.to_rfc3339(),
                        },
                    )
                }
            },
            (AddEntryStage::AwaitEventWritten { entry_id }, Outcome::Written) => {
                let entry_id = *entry_id;
                self.stage = AddEntryStage::Finished;
                match Entry::new(
                    entry_id,
                    self.volume_id,
                    self.content.clone(),
                    self.created_at.clone(),
                    self.source,
                ) {
                    Ok(e) => Step::Done(Ok(e)),
                    Err(e) => Step::Done(Err(EngineError::Domain(e))),
                }
            },
            (AddEntryStage::Finished, _) => Step::Done(Err(EngineError::UnexpectedOutcome)),
            (_, Outcome::Failed(e)) => {
                self.stage = AddEntryStage::Finished;
                Step::Done(Err(EngineError::Storage(e)))
            },
            _ => {
                self.stage = AddEntryStage::Finished;
                Step::Done(Err(EngineError::UnexpectedOutcome))
            },
        }
    }
}

/// Stores a new entry in volume `volume_id` at `now`: refuses blank content
/// before touching the store; otherwise inserts the entry, then appends a
/// `PutEntry` event to the volume's log under the next sequence number.
pub fn add_entry(volume_id: i64, content: String, source: EntrySource, now: Timestamp) -> (r: (
    AddEntry,
    Step<Entry>,
))
    ensures
        (r.0@, r.1@) == add_entry_start(volume_id, content@, source, now@),
{
    if crate::text::blank(content.as_str()) {
        let machine = AddEntry {
            volume_id,
            content,
            source,
            created_at: now,
            stage: AddEntryStage::Finished,
        };
        return (machine, Step::Done(Err(EngineError::Domain(DomainError::EmptyEntryContent))));
    }
    let command = Command::InsertEntry {
        volume_id,
        content: content.clone(),
        created_at: now.to_rfc3339(),
        source: source.as_text(),
    };
    let machine = AddEntry {
        volume_id,
        content,
        source,
        created_at: now,
        stage: AddEntryStage::AwaitEntryId,
    };
    (machine, Step::Run(command))
}

/// An entry addition appends under the next sequence number: answered with
/// the new entry's row id `entry_id`, the log's latest sequence number
/// `latest` and the event written, adding non-blank `content` reads the
/// latest sequence number, appends a `PutEntry` event under `latest + 1` for
/// the new entry, and ends with the entry.
pub proof fn lemma_add_entry_appends_next_seq(
    volume_id: i64,
    content: Seq<char>,
    source: EntrySource,
    now: (i64, u32),
    entry_id: i64,
    latest: i64,
)
    requires
        !is_blank(content),
        latest < i64::MAX,
    ensures
        ({
            let (s, first) = add_entry_start(volume_id, content, source, now);
            let answers = seq![
                OutcomeView::Inserted { rowid: entry_id },
                OutcomeView::LatestSeq { seq: latest },
                OutcomeView::Written,
            ];
            &&& first == StepView::<EntryView>::Run(
                CommandView::InsertEntry {
                    volume_id,
                    content,
                    created_at: rfc3339_of(now),
                    source: source_text(source),
                },
            )
            &&& run(|s, o| add_entry_step(s, o), s, answers).1 == seq![
                StepView::Run(CommandView::LatestSeq { volume_id }),
                StepView::Run(
                    CommandView::InsertEvent {
                        seq: (latest + 1) as i64,
                        volume_id,
                        event_type: event_type_text(EventType::PutEntry),
                        entry_id,
                        created_at: rfc3339_of(now),
                    },
                ),
                StepView::Done(
                    Ok(EntryView { id: entry_id, volume_id, content, created_at: now, source }),
                ),
            ]
        }),
{
    let (s, first) = add_entry_start(volume_id, content, source, now);
    lemma_run_three(
        |s, o| add_entry_step(s, o),
        s,
        OutcomeView::Inserted { rowid: entry_id },
        OutcomeView::LatestSeq { seq: latest },
        OutcomeView::Written,
    );
}

} // verus!
