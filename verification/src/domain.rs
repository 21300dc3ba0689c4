//! The domain types: volumes, entries, events and snapshots, each checked
//! where it is built, and the errors of those checks.

use vstd::prelude::*;

use crate::text::{blank, is_blank};
use crate::time::Timestamp;

verus! {

broadcast use vstd::string::group_string_axioms;

pub type VolumeId = i64;

pub type EntryId = i64;

pub type SnapshotId = i64;

pub type SeqNumber = i64;

/// What can be checked of a value without looking at the store.
#[derive(Debug, Clone, Copy, PartialEq, Eq, Structural)]
pub enum DomainError {
    EmptyVolumeName,
    EmptyEntryContent,
    EmptySnapshotLabel,
    InvalidSeqNumber,
}

/// The message that describes each domain error.
pub open spec fn domain_message(e: DomainError) -> Seq<char> {
    match e {
        DomainError::EmptyVolumeName => "volume name must not be empty"@,
        DomainError::EmptyEntryContent => "entry content must not be empty"@,
        DomainError::EmptySnapshotLabel => "snapshot label must not be empty"@,
        DomainError::InvalidSeqNumber => "sequence number must be >= 1"@,
    }
}

impl DomainError {
    /// The human-readable message of this error.
    pub fn message(&self) -> (m: String)
        ensures
            m@ == domain_message(*self),
    {
        match self {
            DomainError::EmptyVolumeName => "volume name must not be empty".to_owned(),
            DomainError::EmptyEntryContent => "entry content must not be empty".to_owned(),
            DomainError::EmptySnapshotLabel => "snapshot label must not be empty".to_owned(),
            DomainError::InvalidSeqNumber => "sequence number must be >= 1".to_owned(),
        }
    }
}

/// Who produced an entry.
#[derive(Debug, Clone, Copy, PartialEq, Eq, Structural)]
pub enum EntrySource {
    User,
    Agent,
    Tool,
}

/// The text under which a source is stored.
pub open spec fn source_text(s: EntrySource) -> Seq<char> {
    match s {
        EntrySource::User => "user"@,
        EntrySource::Agent => "agent"@,
        EntrySource::Tool => "tool"@,
    }
}

/// The source that a stored or typed text names: `agent` and `tool` name
/// themselves, anything else is read as the user.
pub open spec fn source_named(t: Seq<char>) -> EntrySource {
    if t == "agent"@ {
        EntrySource::Agent
    } else if t == "tool"@ {
        EntrySource::Tool
    } else {
        EntrySource::User
    }
}

impl EntrySource {
    /// The text under which this source is stored.
    pub fn as_text(&self) -> (t: String)
        ensures
            t@ == source_text(*self),
    {
        match self {
            EntrySource::User => "user".to_owned(),
            EntrySource::Agent => "agent".to_owned(),
            EntrySource::Tool => "tool".to_owned(),
        }
    }
}

/// Reads a source from its text: `agent` and `tool` name themselves,
/// anything else is read as the user.
pub fn parse_source(source: &str) -> (s: EntrySource)
    ensures
        s == source_named(source@),
{
    let given = source.to_owned();
    if given == "agent".to_owned() {
        EntrySource::Agent
    } else if given == "tool".to_owned() {
        EntrySource::Tool
    } else {
        EntrySource::User
    }
}

/// Reading back the text of a source gives that source.
pub proof fn lemma_source_text_round_trip(s: EntrySource)
    ensures
        source_named(source_text(s)) == s,
{
    reveal_strlit("user");
    reveal_strlit("agent");
    reveal_strlit("tool");
    assert("user"@.len() == 4);
    assert("agent"@.len() == 5);
    assert("tool"@.len() == 4);
    assert("user"@[0] != "tool"@[0]);
}

/// The kind of an event in a volume's log.
#[derive(Debug, Clone, Copy, PartialEq, Eq, Structural)]
pub enum EventType {
    PutEntry,
}

/// The text under which an event type is stored.
pub open spec fn event_type_text(t: EventType) -> Seq<char> {
    match t {
        EventType::PutEntry => "put_entry"@,
    }
}

impl EventType {
    /// The text under which this event type is stored.
    pub fn as_text(&self) -> (t: String)
        ensures
            t@ == event_type_text(*self),
    {
        match self {
            EventType::PutEntry => "put_entry".to_owned(),
        }
    }
}

} // verus!

verus! {

/// What a volume holds.
pub struct VolumeView {
    pub id: VolumeId,
    pub name: Seq<char>,
    pub created_at: (i64, u32),
}

/// An isolated memory namespace.
#[derive(Debug)]
pub struct Volume {
    id: VolumeId,
    name: String,
    created_at: Timestamp,
}

impl View for Volume {
    type V = VolumeView;

    closed spec fn view(&self) -> VolumeView {
        VolumeView { id: self.id, name: self.name@, created_at: self.created_at@ }
    }
}

impl Volume {
    #[verifier::type_invariant]
    spec fn wf(self) -> bool {
        !is_blank(self.name@)
    }

    /// A volume; its name must not be blank.
    pub fn new(id: VolumeId, name: String, created_at: Timestamp) -> (r: Result<Self, DomainError>)
        ensures
            is_blank(name@) ==> r == Err::<Volume, DomainError>(DomainError::EmptyVolumeName),
            !is_blank(name@) ==> (r matches Ok(v) && v@ == (VolumeView {
                id,
                name: name@,
                created_at: created_at@,
            })),
    {
        if blank(name.as_str()) {
            return Err(DomainError::EmptyVolumeName);
        }
        Ok(Volume { id, name, created_at })
    }

    pub fn id(&self) -> (r: VolumeId)
        ensures
            r == self@.id,
    {
        self.id
    }

    /// The volume's name, which is never blank.
    pub fn name(&self) -> (r: &str)
        ensures
            r@ == self@.name,
            !is_blank(r@),
    {
        proof {
            use_type_invariant(self);
        }
        self.name.as_str()
    }

    pub fn created_at(&self) -> (r: Timestamp)
        ensures
            r@ == self@.created_at,
    {
        self.created_at.clone()
    }
}

impl Clone for Volume {
    fn clone(&self) -> (r: Self)
        ensures
            r@ == self@,
    {
        proof {
            use_type_invariant(self);
        }
        Volume { id: self.id, name: self.name.clone(), created_at: self.created_at.clone() }
    }
}

/// What an entry holds.
pub struct EntryView {
    pub id: EntryId,
    pub volume_id: VolumeId,
    pub content: Seq<char>,
    pub created_at: (i64, u32),
    pub source: EntrySource,
}

/// A single memory item stored in a volume.
#[derive(Debug)]
pub struct Entry {
    id: EntryId,
    volume_id: VolumeId,
    content: String,
    created_at: Timestamp,
    source: EntrySource,
}

impl View for Entry {
    type V = EntryView;

    closed spec fn view(&self) -> EntryView {
        EntryView {
            id: self.id,
            volume_id: self.volume_id,
            content: self.content@,
            created_at: self.created_at@,
            source: self.source,
        }
    }
}

impl Entry {
    #[verifier::type_invariant]
    spec fn wf(self) -> bool {
        !is_blank(self.content@)
    }

    /// An entry; its content must not be blank.
    pub fn new(
        id: EntryId,
        volume_id: VolumeId,
        content: String,
        created_at: Timestamp,
        source: EntrySource,
    ) -> (r: Result<Self, DomainError>)
        ensures
            is_blank(content@) ==> r == Err::<Entry, DomainError>(DomainError::EmptyEntryContent),
            !is_blank(content@) ==> (r matches Ok(e) && e@ == (EntryView {
                id,
                volume_id,
                content: content@,
                created_at: created_at@,
                source,
            })),
    {
        if blank(content.as_str()) {
            return Err(DomainError::EmptyEntryContent);
        }
        Ok(Entry { id, volume_id, content, created_at, source })
    }

    pub fn id(&self) -> (r: EntryId)
        ensures
            r == self@.id,
    {
        self.id
    }

    pub fn volume_id(&self) -> (r: VolumeId)
        ensures
            r == self@.volume_id,
    {
        self.volume_id
    }

    /// The entry's content, which is never blank.
    pub fn content(&self) -> (r: &str)
        ensures
            r@ == self@.content,
            !is_blank(r@),
    {
        proof {
            use_type_invariant(self);
        }
        self.content.as_str()
    }

    pub fn created_at(&self) -> (r: Timestamp)
        ensures
            r@ == self@.created_at,
    {
        self.created_at.clone()
    }

    pub fn source(&self) -> (r: EntrySource)
        ensures
            r == self@.source,
    {
        self.source
    }
}

impl Clone for Entry {
    fn clone(&self) -> (r: Self)
        ensures
            r@ == self@,
    {
        proof {
            use_type_invariant(self);
        }
        Entry {
            id: self.id,
            volume_id: self.volume_id,
            content: self.content.clone(),
            created_at: self.created_at.clone(),
            source: self.source,
        }
    }
}

/// What an event holds.
pub struct EventView {
    pub seq: SeqNumber,
    pub volume_id: VolumeId,
    pub event_type: EventType,
    pub entry_id: EntryId,
    pub created_at: (i64, u32),
}

/// One record of a volume's append-only log.
#[derive(Debug)]
pub struct Event {
    seq: SeqNumber,
    volume_id: VolumeId,
    event_type: EventType,
    entry_id: EntryId,
    created_at: Timestamp,
}

impl View for Event {
    type V = EventView;

    closed spec fn view(&self) -> EventView {
        EventView {
            seq: self.seq,
            volume_id: self.volume_id,
            event_type: self.event_type,
            entry_id: self.entry_id,
            created_at: self.created_at@,
        }
    }
}

impl Event {
    #[verifier::type_invariant]
    spec fn wf(self) -> bool {
        self.seq >= 1
    }

    /// An event; its sequence number must be at least 1.
    pub fn new(
        seq: SeqNumber,
        volume_id: VolumeId,
        event_type: EventType,
        entry_id: EntryId,
        created_at: Timestamp,
    ) -> (r: Result<Self, DomainError>)
        ensures
            seq < 1 ==> r == Err::<Event, DomainError>(DomainError::InvalidSeqNumber),
            seq >= 1 ==> (r matches Ok(e) && e@ == (EventView {
                seq,
                volume_id,
                event_type,
                entry_id,
                created_at: created_at@,
            })),
    {
        if seq < 1 {
            return Err(DomainError::InvalidSeqNumber);
        }
        Ok(Event { seq, volume_id, event_type, entry_id, created_at })
    }

    /// The event's sequence number, which is at least 1.
    pub fn seq(&self) -> (r: SeqNumber)
        ensures
            r == self@.seq,
            r >= 1,
    {
        proof {
            use_type_invariant(self);
        }
        self.seq
    }

    pub fn volume_id(&self) -> (r: VolumeId)
        ensures
            r == self@.volume_id,
    {
        self.volume_id
    }

    pub fn event_type(&self) -> (r: EventType)
        ensures
            r == self@.event_type,
    {
        self.event_type
    }

    pub fn entry_id(&self) -> (r: EntryId)
        ensures
            r == self@.entry_id,
    {
        self.entry_id
    }

    pub fn created_at(&self) -> (r: Timestamp)
        ensures
            r@ == self@.created_at,
    {
        self.created_at.clone()
    }
}

impl Clone for Event {
    fn clone(&self) -> (r: Self)
        ensures
            r@ == self@,
    {
        proof {
            use_type_invariant(self);
        }
        Event {
            seq: self.seq,
            volume_id: self.volume_id,
            event_type: self.event_type,
            entry_id: self.entry_id,
            created_at: self.created_at.clone(),
        }
    }
}

/// What a snapshot holds.
pub struct SnapshotView {
    pub id: SnapshotId,
    pub volume_id: VolumeId,
    pub event_seq_pointer: SeqNumber,
    pub created_at: (i64, u32),
    pub label: Seq<char>,
}

/// A bookmark of a volume: the sequence number of the latest event it covers.
#[derive(Debug)]
pub struct Snapshot {
    id: SnapshotId,
    volume_id: VolumeId,
    event_seq_pointer: SeqNumber,
    created_at: Timestamp,
    label: String,
}

impl View for Snapshot {
    type V = SnapshotView;

    closed spec fn view(&self) -> SnapshotView {
        SnapshotView {
            id: self.id,
            volume_id: self.volume_id,
            event_seq_pointer: self.event_seq_pointer,
            created_at: self.created_at@,
            label: self.label@,
        }
    }
}

impl Snapshot {
    #[verifier::type_invariant]
    spec fn wf(self) -> bool {
        self.event_seq_pointer >= 1 && !is_blank(self.label@)
    }

    /// A snapshot; its pointer must be at least 1 and its label must not be
    /// blank, checked in that order.
    pub fn new(
        id: SnapshotId,
        volume_id: VolumeId,
        event_seq_pointer: SeqNumber,
        created_at: Timestamp,
        label: String,
    ) -> (r: Result<Self, DomainError>)
        ensures
            event_seq_pointer < 1 ==> r == Err::<Snapshot, DomainError>(
                DomainError::InvalidSeqNumber,
            ),
            event_seq_pointer >= 1 && is_blank(label@) ==> r == Err::<Snapshot, DomainError>(
                DomainError::EmptySnapshotLabel,
            ),
            event_seq_pointer >= 1 && !is_blank(label@) ==> (r matches Ok(s) && s@ == (
            SnapshotView {
                id,
                volume_id,
                event_seq_pointer,
                created_at: created_at@,
                label: label@,
            })),
    {
        if event_seq_pointer < 1 {
            return Err(DomainError::InvalidSeqNumber);
        }
        if blank(label.as_str()) {
            return Err(DomainError::EmptySnapshotLabel);
        }
        Ok(Snapshot { id, volume_id, event_seq_pointer, created_at, label })
    }

    pub fn id(&self) -> (r: SnapshotId)
        ensures
            r == self@.id,
    {
        self.id
    }

    pub fn volume_id(&self) -> (r: VolumeId)
        ensures
            r == self@.volume_id,
    {
        self.volume_id
    }

    /// The sequence number the snapshot points at, which is at least 1.
    pub fn event_seq_pointer(&self) -> (r: SeqNumber)
        ensures
            r == self@.event_seq_pointer,
            r >= 1,
    {
        proof {
            use_type_invariant(self);
        }
        self.event_seq_pointer
    }

    pub fn created_at(&self) -> (r: Timestamp)
        ensures
            r@ == self@.created_at,
    {
        self.created_at.clone()
    }

    /// The snapshot's label, which is never blank.
    pub fn label(&self) -> (r: &str)
        ensures
            r@ == self@.label,
            !is_blank(r@),
    {
        proof {
            use_type_invariant(self);
        }
        self.label.as_str()
    }
}

impl Clone for Snapshot {
    fn clone(&self) -> (r: Self)
        ensures
            r@ == self@,
    {
        proof {
            use_type_invariant(self);
        }
        Snapshot {
            id: self.id,
            volume_id: self.volume_id,
            event_seq_pointer: self.event_seq_pointer,
            created_at: self.created_at.clone(),
            label: self.label.clone(),
        }
    }
}

} // verus!
