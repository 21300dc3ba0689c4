//! Cloning a volume from a snapshot by replaying its log.

use vstd::prelude::*;

use super::volume::volume_result;
use super::{lemma_run_append, lemma_run_three, run};
use crate::domain::{event_type_text, EventType, Volume, VolumeView};
use crate::storage::{Command, CommandView, EngineError, ErrorView, Outcome, OutcomeView, Step, StepView};
use crate::text::is_blank;
use crate::time::{rfc3339_of, Timestamp};

verus! {

/// The name of a volume cloned from a volume named `name`.
pub open spec fn clone_name_of(name: Seq<char>) -> Seq<char> {
    name + "_clone"@
}

/// A clone's name is never blank, so the clone is always built once its row
/// is in.
pub proof fn lemma_clone_name_not_blank(name: Seq<char>)
    ensures
        !is_blank(clone_name_of(name)),
{
    reveal_strlit("_clone");
    let s = clone_name_of(name);
    assert(s[name.len() as int] == '_');
}

/// A clone is named by the whole source name followed by `_clone`: the
/// source name is kept to its last character, and exactly the six characters
/// `_clone` come after it.
pub proof fn lemma_clone_name_keeps_whole_source_name(name: Seq<char>)
    ensures
        clone_name_of(name).len() == name.len() + 6,
        clone_name_of(name).subrange(0, name.len() as int) == name,
        clone_name_of(name).subrange(name.len() as int, name.len() + 6int) == seq![
            '_',
            'c',
            'l',
            'o',
            'n',
            'e',
        ],
{
    reveal_strlit("_clone");
    let s = clone_name_of(name);
    assert(s.subrange(0, name.len() as int) =~= name);
    assert(s.subrange(name.len() as int, name.len() + 6int) =~= seq!['_', 'c', 'l', 'o', 'n', 'e']);
}

/// Where cloning a volume stands; `index` counts the log events copied so far.
pub enum CloneStage {
    AwaitSnapshot,
    AwaitSourceName,
    AwaitVolumeId,
    AwaitEvents,
    AwaitEntry { index: usize },
    AwaitEntryId { index: usize },
    AwaitEventWritten { index: usize },
    Finished,
}

/// What a clone in progress knows.
pub struct CloneState {
    pub created_at: (i64, u32),
    pub source_volume: i64,
    pub last_seq: i64,
    pub clone_name: Seq<char>,
    pub volume: Option<VolumeView>,
    pub events: Seq<(i64, i64)>,
    pub pending_created_at: Seq<char>,
    pub stage: CloneStage,
}

/// A clone that has just begun at `created_at`.
pub open spec fn clone_start(created_at: (i64, u32)) -> CloneState {
    CloneState {
        created_at,
        source_volume: 0,
        last_seq: 0,
        clone_name: Seq::empty(),
        volume: None,
        events: Seq::empty(),
        pending_created_at: Seq::empty(),
        stage: CloneStage::AwaitSnapshot,
    }
}

/// The same clone, ended.
pub open spec fn clone_ended(s: CloneState) -> CloneState {
    CloneState { stage: CloneStage::Finished, ..s }
}

/// How a clone answers the store: its next state and next step.
pub open spec fn clone_step(s: CloneState, o: OutcomeView) -> (CloneState, StepView<VolumeView>) {
    match (s.stage, o) {
        (CloneStage::AwaitSnapshot, OutcomeView::Snapshot { volume_id, event_seq_pointer }) => (
            CloneState {
                source_volume: volume_id,
                last_seq: event_seq_pointer,
                stage: CloneStage::AwaitSourceName,
                ..s
            },
            StepView::Run(CommandView::FindVolumeName { volume_id }),
        ),
        (CloneStage::AwaitSourceName, OutcomeView::VolumeName { name }) => (
            CloneState { clone_name: clone_name_of(name), stage: CloneStage::AwaitVolumeId, ..s },
            StepView::Run(
                CommandView::InsertVolume {
                    name: clone_name_of(name),
                    created_at: rfc3339_of(s.created_at),
                },
            ),
        ),
        (CloneStage::AwaitVolumeId, OutcomeView::Inserted { rowid }) => match volume_result(
            rowid,
            s.clone_name,
            s.created_at,
        ) {
            Ok(v) => (
                CloneState { volume: Some(v), stage: CloneStage::AwaitEvents, ..s },
                StepView::Run(
                    CommandView::EventsUpTo { volume_id: s.source_volume, last_seq: s.last_seq },
                ),
            ),
            Err(e) => (clone_ended(s), StepView::Done(Err(e))),
        },
        (CloneStage::AwaitEvents, OutcomeView::Events { events }) => {
            if events.len() == 0 {
                (
                    CloneState { events, stage: CloneStage::Finished, ..s },
                    StepView::Done(Ok(s.volume->0)),
                )
            } else {
                (
                    CloneState { events, stage: CloneStage::AwaitEntry { index: 0 }, ..s },
                    StepView::Run(CommandView::FindEntry { entry_id: events[0].1 }),
                )
            }
        },
        (CloneStage::AwaitEntry { index }, OutcomeView::Entry { content, created_at, source }) => (
            CloneState {
                pending_created_at: created_at,
                stage: CloneStage::AwaitEntryId { index },
                ..s
            },
            StepView::Run(
                CommandView::InsertEntry {
                    volume_id: s.volume->0.id,
                    content,
                    created_at,
                    source,
                },
            ),
        ),
        (CloneStage::AwaitEntryId { index }, OutcomeView::Inserted { rowid }) => (
            CloneState { stage: CloneStage::AwaitEventWritten { index }, ..s },
            StepView::Run(
                CommandView::InsertEvent {
                    seq: s.events[index as int].0,
                    volume_id: s.volume->0.id,
                    event_type: event_type_text(EventType::PutEntry),
                    entry_id: rowid,
                    created_at: s.pending_created_at,
                },
            ),
        ),
        (CloneStage::AwaitEventWritten { index }, OutcomeView::Written) => {
            if index + 1 < s.events.len() {
                (
                    CloneState { stage: CloneStage::AwaitEntry { index: (index + 1) as usize }, ..s },
                    StepView::Run(CommandView::FindEntry { entry_id: s.events[index + 1].1 }),
                )
            } else {
                (clone_ended(s), StepView::Done(Ok(s.volume->0)))
            }
        },
        (CloneStage::Finished, _) => (s, StepView::Done(Err(ErrorView::UnexpectedOutcome))),
        (_, OutcomeView::Failed(message)) => (
            clone_ended(s),
            StepView::Done(Err(ErrorView::Storage(message))),
        ),
        _ => (clone_ended(s), StepView::Done(Err(ErrorView::UnexpectedOutcome))),
    }
}

/// Cloning a volume from a snapshot: read the snapshot and the source
/// volume's name, create the clone, read the source log up to the snapshot's
/// pointer, then copy each of its events' entries in turn, keeping each
/// event's sequence number.
pub struct CloneVolume {
    created_at: Timestamp,
    source_volume: i64,
    last_seq: i64,
    name: String,
    volume: Option<Volume>,
    events: Vec<(i64, i64)>,
    pending_created_at: String,
    stage: CloneStage,
}

impl View for CloneVolume {
    type V = CloneState;

    closed spec fn view(&self) -> CloneState {
        CloneState {
            created_at: self.created_at@,
            source_volume: self.source_volume,
            last_seq: self.last_seq,
            clone_name: self.name@,
            volume: match self.volume {
                Some(v) => Some(v@),
                None => None,
            },
            events: self.events@,
            pending_created_at: self.pending_created_at@,
            stage: self.stage,
        }
    }
}

impl CloneVolume {
    #[verifier::type_invariant]
    spec fn wf(self) -> bool {
        &&& self.stage is AwaitEvents ==> self.volume is Some
        &&& self.stage matches CloneStage::AwaitEntry { index } ==> index < self.events@.len()
            && self.volume is Some
        &&& self.stage matches CloneStage::AwaitEntryId { index } ==> index < self.events@.len()
            && self.volume is Some
        &&& self.stage matches CloneStage::AwaitEventWritten { index } ==> index
            < self.events@.len() && self.volume is Some
    }

    fn finish_with_clone(&mut self) -> (step: Step<Volume>)
        requires
            old(self)@.volume is Some,
        ensures
            final(self)@ == clone_ended(old(self)@),
            step@ == StepView::Done(Ok(old(self)@.volume->0)),
    {
        self.stage = CloneStage::Finished;
        match &self.volume {
            Some(v) => Step::Done(Ok(v.clone())),
            None => Step::Done(Err(EngineError::UnexpectedOutcome)),
        }
    }

    fn fail(&mut self, error: EngineError) -> (step: Step<Volume>)
        ensures
            final(self)@ == clone_ended(old(self)@),
            step@ == StepView::<VolumeView>::Done(Err(error@)),
    {
        self.stage = CloneStage::Finished;
        Step::Done(Err(error))
    }

    fn clone_id(&self) -> (id: i64)
        requires
            self@.volume is Some,
        ensures
            id == self@.volume->0.id,
    {
        match &self.volume {
            Some(v) => v.id(),
            None => 0,
        }
    }

    /// Takes the store's answer to the pending statement.
    pub fn resume(&mut self, outcome: Outcome) -> (step: Step<Volume>)
        ensures
            ({
                let (next, expected) = clone_step(old(self)@, outcome@);
                final(self)@ == next && step@ == expected
            }),
            old(self)@.stage is AwaitSourceName ==> (outcome@ matches OutcomeView::VolumeName {
                name,
            } ==> step@ == StepView::<VolumeView>::Run(
                CommandView::InsertVolume {
                    name: name + "_clone"@,
                    created_at: rfc3339_of(old(self)@.created_at),
                },
            )),
    {
        proof {
            use_type_invariant(&*self);
        }
        match (&self.stage, outcome) {
            (CloneStage::AwaitSnapshot, Outcome::Snapshot { volume_id, event_seq_pointer }) => {
                self.source_volume = volume_id;
                self.last_seq = event_seq_pointer;
                self.stage = CloneStage::AwaitSourceName;
                Step::Run(Command::FindVolumeName { volume_id })
            },
            (CloneStage::AwaitSourceName, Outcome::VolumeName { name }) => {
                let mut clone_name = name.clone();
                clone_name.append("_clone");
                self.name = clone_name.clone();
                self.stage = CloneStage::AwaitVolumeId;
                Step::Run(
                    Command::InsertVolume {
                        name: clone_name,
                        created_at: self.created_at.to_rfc3339(),
                    },
                )
            },
            (CloneStage::AwaitVolumeId, Outcome::Inserted { rowid }) => {
                match Volume::new(rowid, self.name.clone(), self.created_at.clone()) {
                    Ok(v) => {
                        self.volume = Some(v);
                        self.stage = CloneStage::AwaitEvents;
                        Step::Run(
                            Command::EventsUpTo {
                                volume_id: self.source_volume,
                                last_seq: self.last_seq,
                            },
                        )
                    },
                    Err(e) => self.fail(EngineError::Domain(e)),
                }
            },
            (CloneStage::AwaitEvents, Outcome::Events { events }) => {
                self.events = events;
                if self.events.len() == 0 {
                    self.finish_with_clone()
                } else {
                    self.stage = CloneStage::AwaitEntry { index: 0 };
                    Step::Run(Command::FindEntry { entry_id: self.events[0].1 })
                }
            },
            (CloneStage::AwaitEntry { index }, Outcome::Entry { content, created_at, source }) => {
                let index = *index;
                let volume_id = self.clone_id();
                self.pending_created_at = created_at.clone();
                self.stage = CloneStage::AwaitEntryId { index };
                Step::Run(Command::InsertEntry { volume_id, content, created_at, source })
            },
            (CloneStage::AwaitEntryId { index }, Outcome::Inserted { rowid }) => {
                let index = *index;
                let volume_id = self.clone_id();
                self.stage = CloneStage::AwaitEventWritten { index };
                Step::Run(
                    Command::InsertEvent {
                        seq: self.events[index].0,
                        volume_id,
                        event_type: EventType::PutEntry.as_text(),
                        entry_id: rowid,
                        created_at: self.pending_created_at.clone(),
                    },
                )
            },
            (CloneStage::AwaitEventWritten { index }, Outcome::Written) => {
                let index = *index;
                assert(index < self.events.len());
                if index + 1 < self.events.len() {
                    self.stage = CloneStage::AwaitEntry { index: index + 1 };
                    Step::Run(Command::FindEntry { entry_id: self.events[index + 1].1 })
                } else {
                    self.finish_with_clone()
                }
            },
            (CloneStage::Finished, _) => Step::Done(Err(EngineError::UnexpectedOutcome)),
            (_, Outcome::Failed(e)) => self.fail(EngineError::Storage(e)),
            _ => self.fail(EngineError::UnexpectedOutcome),
        }
    }
}

/// Creates a new volume from snapshot `snapshot_id` at `now`: the clone is
/// named after the snapshot's volume with `_clone` appended, and receives a
/// copy of every entry that the source log records up to the snapshot's
/// pointer, each under its source event's sequence number and with its own
/// creation time.
pub fn clone_volume(snapshot_id: i64, now: Timestamp) -> (r: (CloneVolume, Step<Volume>))
    ensures
        r.0@ == clone_start(now@),
        r.1@ == StepView::<VolumeView>::Run(CommandView::FindSnapshot { snapshot_id }),
{
    let machine = CloneVolume {
        created_at: now,
        source_volume: 0,
        last_seq: 0,
        name: String::new(),
        volume: None,
        events: Vec::new(),
        pending_created_at: String::new(),
        stage: CloneStage::AwaitSnapshot,
    };
    (machine, Step::Run(Command::FindSnapshot { snapshot_id }))
}

// ---------------------------------------------------------------- a whole clone

/// An entry as the store holds it.
pub struct StoredEntry {
    pub content: Seq<char>,
    pub created_at: Seq<char>,
    pub source: Seq<char>,
}

/// The store's answers while a clone copies the entries of events `k..`:
/// each stored entry, the row id of its copy, and the event written.
pub open spec fn copy_answers(entries: Seq<StoredEntry>, new_ids: Seq<i64>, k: nat) -> Seq<
    OutcomeView,
>
    decreases entries.len() - k,
{
    if k >= entries.len() {
        Seq::empty()
    } else {
        seq![
            OutcomeView::Entry {
                content: entries[k as int].content,
                created_at: entries[k as int].created_at,
                source: entries[k as int].source,
            },
            OutcomeView::Inserted { rowid: new_ids[k as int] },
            OutcomeView::Written,
        ] + copy_answers(entries, new_ids, k + 1)
    }
}

/// The steps by which the clone `clone` copies the entries of events `k..`:
/// a copy of each entry into the clone, an event under the source event's
/// sequence number with the entry's own creation time, then the next entry
/// or, after the last, the clone itself.
pub open spec fn copy_steps(
    clone: VolumeView,
    events: Seq<(i64, i64)>,
    entries: Seq<StoredEntry>,
    new_ids: Seq<i64>,
    k: nat,
) -> Seq<StepView<VolumeView>>
    decreases entries.len() - k,
{
    if k >= entries.len() {
        Seq::empty()
    } else {
        seq![
            StepView::Run(
                CommandView::InsertEntry {
                    volume_id: clone.id,
                    content: entries[k as int].content,
                    created_at: entries[k as int].created_at,
                    source: entries[k as int].source,
                },
            ),
            StepView::Run(
                CommandView::InsertEvent {
                    seq: events[k as int].0,
                    volume_id: clone.id,
                    event_type: event_type_text(EventType::PutEntry),
                    entry_id: new_ids[k as int],
                    created_at: entries[k as int].created_at,
                },
            ),
            if k + 1 < entries.len() {
                StepView::Run(CommandView::FindEntry { entry_id: events[k + 1 as int].1 })
            } else {
                StepView::Done(Ok(clone))
            },
        ] + copy_steps(clone, events, entries, new_ids, k + 1)
    }
}

/// From the point where it asks for the entry of event `k`, a clone copies
/// the entries of events `k..` as `copy_steps` says.
proof fn lemma_clone_copies(
    s: CloneState,
    clone: VolumeView,
    events: Seq<(i64, i64)>,
    entries: Seq<StoredEntry>,
    new_ids: Seq<i64>,
    k: nat,
)
    requires
        s.stage == (CloneStage::AwaitEntry { index: k as usize }),
        s.events == events,
        s.volume == Some(clone),
        events.len() == entries.len(),
        new_ids.len() == entries.len(),
        entries.len() <= usize::MAX,
        k < entries.len(),
    ensures
        run(|s, o| clone_step(s, o), s, copy_answers(entries, new_ids, k)).1 == copy_steps(
            clone,
            events,
            entries,
            new_ids,
            k,
        ),
    decreases entries.len() - k,
{
    let step = |s, o| clone_step(s, o);
    let e = entries[k as int];
    let a = OutcomeView::Entry { content: e.content, created_at: e.created_at, source: e.source };
    let b = OutcomeView::Inserted { rowid: new_ids[k as int] };
    let c = OutcomeView::Written;
    let rest = copy_answers(entries, new_ids, k + 1);
    assert(copy_answers(entries, new_ids, k) == seq![a, b, c] + rest);
    lemma_run_append(step, s, seq![a, b, c], rest);
    lemma_run_three(step, s, a, b, c);
    let (s1, st1) = clone_step(s, a);
    let (s2, st2) = clone_step(s1, b);
    let (s3, st3) = clone_step(s2, c);
    if k + 1 < entries.len() {
        lemma_clone_copies(s3, clone, events, entries, new_ids, k + 1);
    } else {
        assert(rest =~= Seq::<OutcomeView>::empty());
    }
    let tail = copy_steps(clone, events, entries, new_ids, k + 1);
    assert(run(step, s3, rest).1 == tail);
    assert(copy_steps(clone, events, entries, new_ids, k) =~= seq![st1, st2, st3] + tail);
}

/// A clone replays the source log up to the snapshot. Answered with the
/// snapshot's volume `source_volume` and pointer `pointer`, the source's name
/// `name`, the clone's row id `clone_id`, the log events `events` up to the
/// pointer, and for each of them its stored entry and the row id of the copy,
/// a clone begun at `now` asks for the source's name, inserts the volume
/// `name` + `_clone`, reads the log up to the pointer, copies each event's
/// entry in log order under the event's sequence number and the entry's own
/// creation time, and ends with the clone.
pub proof fn lemma_clone_replays_log(
    now: (i64, u32),
    source_volume: i64,
    pointer: i64,
    name: Seq<char>,
    clone_id: i64,
    events: Seq<(i64, i64)>,
    entries: Seq<StoredEntry>,
    new_ids: Seq<i64>,
)
    requires
        events.len() == entries.len(),
        new_ids.len() == entries.len(),
        entries.len() <= usize::MAX,
    ensures
        ({
            let clone = VolumeView { id: clone_id, name: clone_name_of(name), created_at: now };
            let answers = seq![
                OutcomeView::Snapshot { volume_id: source_volume, event_seq_pointer: pointer },
                OutcomeView::VolumeName { name },
                OutcomeView::Inserted { rowid: clone_id },
                OutcomeView::Events { events },
            ] + copy_answers(entries, new_ids, 0);
            run(|s, o| clone_step(s, o), clone_start(now), answers).1 == seq![
                StepView::Run(CommandView::FindVolumeName { volume_id: source_volume }),
                StepView::Run(
                    CommandView::InsertVolume {
                        name: clone_name_of(name),
                        created_at: rfc3339_of(now),
                    },
                ),
                StepView::Run(CommandView::EventsUpTo { volume_id: source_volume, last_seq: pointer }),
                if events.len() == 0 {
                    StepView::Done(Ok(clone))
                } else {
                    StepView::Run(CommandView::FindEntry { entry_id: events[0].1 })
                },
            ] + copy_steps(clone, events, entries, new_ids, 0)
        }),
{
    lemma_clone_name_not_blank(name);
    let step = |s, o| clone_step(s, o);
    let clone = VolumeView { id: clone_id, name: clone_name_of(name), created_at: now };
    let a0 = OutcomeView::Snapshot { volume_id: source_volume, event_seq_pointer: pointer };
    let a1 = OutcomeView::VolumeName { name };
    let a2 = OutcomeView::Inserted { rowid: clone_id };
    let a3 = OutcomeView::Events { events };
    let rest = copy_answers(entries, new_ids, 0);
    let s0 = clone_start(now);
    lemma_run_append(step, s0, seq![a0, a1, a2, a3], rest);
    assert(seq![a0] + seq![a1, a2, a3] =~= seq![a0, a1, a2, a3]);
    let (s1, st1) = clone_step(s0, a0);
    let (s2, st2) = clone_step(s1, a1);
    let (s3, st3) = clone_step(s2, a2);
    let (s4, st4) = clone_step(s3, a3);
    assert(seq![a0].drop_first() =~= Seq::<OutcomeView>::empty());
    assert(run(step, s1, Seq::<OutcomeView>::empty()) == (s1, Seq::<StepView<VolumeView>>::empty()));
    assert(run(step, s0, seq![a0]).0 == s1);
    assert(run(step, s0, seq![a0]).1 =~= seq![st1]);
    lemma_run_three(step, s1, a1, a2, a3);
    lemma_run_append(step, s0, seq![a0], seq![a1, a2, a3]);
    assert(run(step, s0, seq![a0, a1, a2, a3]).0 == s4);
    assert(run(step, s0, seq![a0, a1, a2, a3]).1 =~= seq![st1, st2, st3, st4]);
    assert(s3.volume == Some(clone));
    if entries.len() > 0 {
        lemma_clone_copies(s4, clone, events, entries, new_ids, 0);
    } else {
        assert(rest =~= Seq::<OutcomeView>::empty());
        assert(copy_steps(clone, events, entries, new_ids, 0) =~= Seq::<StepView<VolumeView>>::empty());
    }
}

} // verus!
