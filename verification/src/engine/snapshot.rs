//! Taking a snapshot of a volume's log.

use vstd::prelude::*;

use super::run;
use crate::domain::{DomainError, Snapshot, SnapshotView};
use crate::storage::{Command, CommandView, EngineError, ErrorView, Outcome, OutcomeView, Step, StepView};
use crate::text::is_blank;
use crate::time::{rfc3339_of, Timestamp};

verus! {

/// Where taking a snapshot stands.
pub enum SnapshotStage {
    AwaitLatestSeq,
    AwaitSnapshotId { event_seq_pointer: i64 },
    Finished,
}

/// What a snapshot in progress knows.
pub struct SnapshotState {
    pub volume_id: i64,
    pub label: Seq<char>,
    pub created_at: (i64, u32),
    pub stage: SnapshotStage,
}

/// The result of building a snapshot from these values: the pointer is
/// checked before the label.
pub open spec fn snapshot_result(
    id: i64,
    volume_id: i64,
    event_seq_pointer: i64,
    created_at: (i64, u32),
    label: Seq<char>,
) -> Result<SnapshotView, ErrorView> {
    if event_seq_pointer < 1 {
        Err(ErrorView::Domain(DomainError::InvalidSeqNumber))
    } else if is_blank(label) {
        Err(ErrorView::Domain(DomainError::EmptySnapshotLabel))
    } else {
        Ok(SnapshotView { id, volume_id, event_seq_pointer, created_at, label })
    }
}

/// How a snapshot starts: the log's latest sequence number is read.
pub open spec fn snapshot_start(volume_id: i64, label: Seq<char>, created_at: (i64, u32)) -> (
    SnapshotState,
    StepView<SnapshotView>,
) {
    (
        SnapshotState { volume_id, label, created_at, stage: SnapshotStage::AwaitLatestSeq },
        StepView::Run(CommandView::LatestSeq { volume_id }),
    )
}

/// How a snapshot answers the store: once the latest sequence number is
/// known, the pointer and then the label are checked, as building the
/// snapshot checks them, before anything is inserted.
pub open spec fn snapshot_step(s: SnapshotState, o: OutcomeView) -> (
    SnapshotState,
    StepView<SnapshotView>,
) {
    let ended = SnapshotState { stage: SnapshotStage::Finished, ..s };
    match (s.stage, o) {
        (SnapshotStage::AwaitLatestSeq, OutcomeView::LatestSeq { seq }) => {
            if seq < 1 {
                (ended, StepView::Done(Err(ErrorView::Domain(DomainError::InvalidSeqNumber))))
            } else if is_blank(s.label) {
                (ended, StepView::Done(Err(ErrorView::Domain(DomainError::EmptySnapshotLabel))))
            } else {
                (
                    SnapshotState {
                        stage: SnapshotStage::AwaitSnapshotId { event_seq_pointer: seq },
                        ..s
                    },
                    StepView::Run(
                        CommandView::InsertSnapshot {
                            volume_id: s.volume_id,
                            event_seq_pointer: seq,
                            created_at: rfc3339_of(s.created_at),
                            label: s.label,
                        },
                    ),
                )
            }
        },
        (SnapshotStage::AwaitSnapshotId { event_seq_pointer }, OutcomeView::Inserted { rowid }) => (
            ended,
            StepView::Done(
                snapshot_result(rowid, s.volume_id, event_seq_pointer, s.created_at, s.label),
            ),
        ),
        (SnapshotStage::Finished, _) => (s, StepView::Done(Err(ErrorView::UnexpectedOutcome))),
        (_, OutcomeView::Failed(message)) => (ended, StepView::Done(Err(ErrorView::Storage(message)))),
        _ => (ended, StepView::Done(Err(ErrorView::UnexpectedOutcome))),
    }
}

/// Taking a snapshot: read the log's latest sequence number, insert the
/// snapshot pointing at it.
pub struct TakeSnapshot {
    volume_id: i64,
    label: String,
    created_at: Timestamp,
    stage: SnapshotStage,
}

impl View for TakeSnapshot {
    type V = SnapshotState;

    closed spec fn view(&self) -> SnapshotState {
        SnapshotState {
            volume_id: self.volume_id,
            label: self.label@,
            created_at: self.created_at@,
            stage: self.stage,
        }
    }
}

impl TakeSnapshot {
    /// Takes the store's answer to the pending statement.
    pub fn resume(&mut self, outcome: Outcome) -> (step: Step<Snapshot>)
        ensures
            ({
                let (next, expected) = snapshot_step(old(self)@, outcome@);
                final(self)@ == next && step@ == expected
            }),
    {
        match (&self.stage, outcome) {
            (SnapshotStage::AwaitLatestSeq, Outcome::LatestSeq { seq }) => {
                if seq < 1 {
                    self.stage = SnapshotStage::Finished;
                    return Step::Done(Err(EngineError::Domain(DomainError::InvalidSeqNumber)));
                }
                if crate::text::blank(self.label.as_str()) {
                    self.stage = SnapshotStage::Finished;
                    return Step::Done(Err(EngineError::Domain(DomainError::EmptySnapshotLabel)));
                }
                self.stage = SnapshotStage::AwaitSnapshotId { event_seq_pointer: seq };
                Step::Run(
                    Command::InsertSnapshot {
                        volume_id: self.volume_id,
                        event_seq_pointer: seq,
                        created_at: self.created_at.to_rfc3339(),
                        label: self.label.clone(),
                    },
                )
            },
            (SnapshotStage::AwaitSnapshotId { event_seq_pointer }, Outcome::Inserted { rowid }) => {
                let pointer = *event_seq_pointer;
                self.stage = SnapshotStage::Finished;
                match Snapshot::new(
                    rowid,
                    self.volume_id,
                    pointer,
                    self.created_at.clone(),
                    self.label.clone(),
                ) {
                    Ok(s) => Step::Done(Ok(s)),
                    Err(e) => Step::Done(Err(EngineError::Domain(e))),
                }
            },
            (SnapshotStage::Finished, _) => Step::Done(Err(EngineError::UnexpectedOutcome)),
            (_, Outcome::Failed(e)) => {
                self.stage = SnapshotStage::Finished;
                Step::Done(Err(EngineError::Storage(e)))
            },
            _ => {
                self.stage = SnapshotStage::Finished;
                Step::Done(Err(EngineError::UnexpectedOutcome))
            },
        }
    }
}

/// Bookmarks the current state of volume `volume_id` at `now`: reads the
/// latest sequence number of its log, refuses an empty log and then a blank
/// label, and otherwise inserts a snapshot labelled `label` pointing at the
/// latest sequence number; nothing is inserted for a refused snapshot.
pub fn snapshot(volume_id: i64, label: String, now: Timestamp) -> (r: (TakeSnapshot, Step<Snapshot>))
    ensures
        (r.0@, r.1@) == snapshot_start(volume_id, label@, now@),
{
    let machine = TakeSnapshot {
        volume_id,
        label,
        created_at: now,
        stage: SnapshotStage::AwaitLatestSeq,
    };
    (machine, Step::Run(Command::LatestSeq { volume_id }))
}

/// A snapshot bookmarks the latest sequence number: a snapshot of volume
/// `volume_id` first reads the log's latest sequence number `latest`; where
/// the log is empty, and else where the label is blank, it ends refused
/// without inserting anything, and otherwise, answered with the new row id,
/// it inserts a snapshot pointing at `latest` and ends with that snapshot.
pub proof fn lemma_snapshot_points_at_latest_seq(
    volume_id: i64,
    label: Seq<char>,
    now: (i64, u32),
    latest: i64,
    snapshot_id: i64,
)
    ensures
        ({
            let (s, first) = snapshot_start(volume_id, label, now);
            let step = |s, o| snapshot_step(s, o);
            &&& first == StepView::<SnapshotView>::Run(CommandView::LatestSeq { volume_id })
            &&& latest < 1 ==> run(step, s, seq![OutcomeView::LatestSeq { seq: latest }]).1
                == seq![
                StepView::<SnapshotView>::Done(
                    Err(ErrorView::Domain(DomainError::InvalidSeqNumber)),
                ),
            ]
            &&& latest >= 1 && is_blank(label) ==> run(
                step,
                s,
                seq![OutcomeView::LatestSeq { seq: latest }],
            ).1 == seq![
                StepView::<SnapshotView>::Done(
                    Err(ErrorView::Domain(DomainError::EmptySnapshotLabel)),
                ),
            ]
            &&& latest >= 1 && !is_blank(label) ==> run(
                step,
                s,
                seq![
                    OutcomeView::LatestSeq { seq: latest },
                    OutcomeView::Inserted { rowid: snapshot_id },
                ],
            ).1 == seq![
                StepView::Run(
                    CommandView::InsertSnapshot {
                        volume_id,
                        event_seq_pointer: latest,
                        created_at: rfc3339_of(now),
                        label,
                    },
                ),
                StepView::Done(
                    Ok(
                        SnapshotView {
                            id: snapshot_id,
                            volume_id,
                            event_seq_pointer: latest,
                            created_at: now,
                            label,
                        },
                    ),
                ),
            ]
        }),
{
    let (s, first) = snapshot_start(volume_id, label, now);
    let step = |s, o| snapshot_step(s, o);
    let a = OutcomeView::LatestSeq { seq: latest };
    let b = OutcomeView::Inserted { rowid: snapshot_id };
    let empty = Seq::<OutcomeView>::empty();
    let (s1, x1) = step(s, a);
    let (s2, x2) = step(s1, b);
    assert(run(step, s1, empty) == (s1, Seq::<StepView<SnapshotView>>::empty()));
    assert(run(step, s2, empty) == (s2, Seq::<StepView<SnapshotView>>::empty()));
    assert(seq![a].drop_first() =~= empty);
    assert(run(step, s, seq![a]).1 =~= seq![x1]);
    assert(seq![b].drop_first() =~= empty);
    assert(run(step, s1, seq![b]).1 =~= seq![x2]);
    assert(seq![a, b].drop_first() =~= seq![b]);
    assert(run(step, s, seq![a, b]).1 =~= seq![x1, x2]);
}

} // verus!
