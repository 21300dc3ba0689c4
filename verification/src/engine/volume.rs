//! Creating a volume.

use vstd::prelude::*;

use super::run;

use crate::domain::{DomainError, Volume, VolumeView};
use crate::storage::{Command, CommandView, EngineError, ErrorView, Outcome, OutcomeView, Step, StepView};
use crate::text::{is_blank, is_white_space};
use crate::time::{rfc3339_of, Timestamp};

verus! {

/// Where creating a volume stands.
pub enum CreateVolumeStage {
    AwaitVolumeId,
    Finished,
}

/// What a volume creation in progress knows.
pub struct CreateVolumeState {
    pub name: Seq<char>,
    pub created_at: (i64, u32),
    pub stage: CreateVolumeStage,
}

/// The result of building a volume from these values.
pub open spec fn volume_result(id: i64, name: Seq<char>, created_at: (i64, u32)) -> Result<
    VolumeView,
    ErrorView,
> {
    if is_blank(name) {
        Err(ErrorView::Domain(DomainError::EmptyVolumeName))
    } else {
        Ok(VolumeView { id, name, created_at })
    }
}

/// How a volume creation starts: a blank name is refused before the store is
/// asked anything; otherwise the volume row is inserted.
pub open spec fn create_volume_start(name: Seq<char>, created_at: (i64, u32)) -> (
    CreateVolumeState,
    StepView<VolumeView>,
) {
    if is_blank(name) {
        (
            CreateVolumeState { name, created_at, stage: CreateVolumeStage::Finished },
            StepView::Done(Err(ErrorView::Domain(DomainError::EmptyVolumeName))),
        )
    } else {
        (
            CreateVolumeState { name, created_at, stage: CreateVolumeStage::AwaitVolumeId },
            StepView::Run(CommandView::InsertVolume { name, created_at: rfc3339_of(created_at) }),
        )
    }
}

/// How a volume creation answers the store.
pub open spec fn create_volume_step(s: CreateVolumeState, o: OutcomeView) -> (
    CreateVolumeState,
    StepView<VolumeView>,
) {
    let ended = CreateVolumeState { stage: CreateVolumeStage::Finished, ..s };
    match (s.stage, o) {
        (CreateVolumeStage::AwaitVolumeId, OutcomeView::Inserted { rowid }) => (
            ended,
            StepView::Done(volume_result(rowid, s.name, s.created_at)),
        ),
        (CreateVolumeStage::Finished, _) => (s, StepView::Done(Err(ErrorView::UnexpectedOutcome))),
        (_, OutcomeView::Failed(message)) => (ended, StepView::Done(Err(ErrorView::Storage(message)))),
        _ => (ended, StepView::Done(Err(ErrorView::UnexpectedOutcome))),
    }
}

/// Any name with a character that is not white space is accepted as it is:
/// creating the volume inserts exactly that name with the creation time, and
/// the store's new row id gives the volume under that id, name and time. A
/// name made of white space only (the empty name too) is refused before the
/// store is asked anything.
pub proof fn lemma_create_volume_accepts_every_non_blank_name(
    name: Seq<char>,
    now: (i64, u32),
    rowid: i64,
)
    ensures
        (exists|i: int| 0 <= i < name.len() && !is_white_space(#[trigger] name[i])) ==> {
            let (s, first) = create_volume_start(name, now);
            &&& first == StepView::<VolumeView>::Run(
                CommandView::InsertVolume { name, created_at: rfc3339_of(now) },
            )
            &&& run(|s, o| create_volume_step(s, o), s, seq![OutcomeView::Inserted { rowid }]).1
                == seq![
                StepView::<VolumeView>::Done(Ok(VolumeView { id: rowid, name, created_at: now })),
            ]
        },
        (forall|i: int| 0 <= i < name.len() ==> is_white_space(#[trigger] name[i]))
            ==> create_volume_start(name, now).1 == StepView::<VolumeView>::Done(
            Err(ErrorView::Domain(DomainError::EmptyVolumeName)),
        ),
{
    reveal_with_fuel(run, 2);
    let step = |s, o| create_volume_step(s, o);
    let (s, first) = create_volume_start(name, now);
    let answers = seq![OutcomeView::Inserted { rowid }];
    assert(answers.drop_first() =~= Seq::<OutcomeView>::empty());
    let (t, one) = step(s, answers[0]);
    assert(run(step, t, answers.drop_first()).1 =~= Seq::<StepView<VolumeView>>::empty());
    assert(run(step, s, answers).1 =~= seq![one]);
}

/// Creating a volume: one insert, then the volume under the new row id.
pub struct CreateVolume {
    name: String,
    created_at: Timestamp,
    stage: CreateVolumeStage,
}

impl View for CreateVolume {
    type V = CreateVolumeState;

    closed spec fn view(&self) -> CreateVolumeState {
        CreateVolumeState { name: self.name@, created_at: self.created_at@, stage: self.stage }
    }
}

impl CreateVolume {
    /// Takes the store's answer to the pending statement.
    pub fn resume(&mut self, outcome: Outcome) -> (step: Step<Volume>)
        ensures
            ({
                let (next, expected) = create_volume_step(old(self)@, outcome@);
                final(self)@ == next && step@ == expected
            }),
    {
        match (&self.stage, outcome) {
            (CreateVolumeStage::AwaitVolumeId, Outcome::Inserted { rowid }) => {
                self.stage = CreateVolumeStage::Finished;
                match Volume::new(rowid, self.name.clone(), self.created_at.clone()) {
                    Ok(v) => Step::Done(Ok(v)),
                    Err(e) => Step::Done(Err(EngineError::Domain(e))),
                }
            },
            (CreateVolumeStage::Finished, _) => Step::Done(Err(EngineError::UnexpectedOutcome)),
            (_, Outcome::Failed(e)) => {
                self.stage = CreateVolumeStage::Finished;
                Step::Done(Err(EngineError::Storage(e)))
            },
            _ => {
                self.stage = CreateVolumeStage::Finished;
                Step::Done(Err(EngineError::UnexpectedOutcome))
            },
        }
    }
}

/// Creates a new isolated memory namespace named `name` at `now`: refuses a
/// blank name before touching the store; otherwise inserts the volume row,
/// then gives the volume under its new row id.
pub fn create_volume(name: String, now: Timestamp) -> (r: (CreateVolume, Step<Volume>))
    ensures
        (r.0@, r.1@) == create_volume_start(name@, now@),
        (exists|i: int| 0 <= i < name@.len() && !is_white_space(#[trigger] name@[i])) ==> r.1@
            == StepView::<VolumeView>::Run(
            CommandView::InsertVolume { name: name@, created_at: rfc3339_of(now@) },
        ),
        (forall|i: int| 0 <= i < name@.len() ==> is_white_space(#[trigger] name@[i])) ==> r.1@
            == StepView::<VolumeView>::Done(Err(ErrorView::Domain(DomainError::EmptyVolumeName))),
{
    if crate::text::blank(name.as_str()) {
        let machine = CreateVolume { name, created_at: now, stage: CreateVolumeStage::Finished };
        return (machine, Step::Done(Err(EngineError::Domain(DomainError::EmptyVolumeName))));
    }
    let created_at = now.to_rfc3339();
    let command = Command::InsertVolume { name: name.clone(), created_at };
    (
        CreateVolume { name, created_at: now, stage: CreateVolumeStage::AwaitVolumeId },
        Step::Run(command),
    )
}

} // verus!
