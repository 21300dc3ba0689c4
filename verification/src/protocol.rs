//! The requests and responses of the memory tools, and how domain values
//! become responses.

use vstd::prelude::*;

use crate::domain::{Entry, EntrySource, Snapshot, Volume};
use crate::time::rfc3339_of;

verus! {

/// Create a memory volume.
#[derive(Debug)]
pub struct CreateVolumeRequest {
    pub name: String,
}

/// A volume, with its creation time as RFC 3339 text.
#[derive(Debug)]
pub struct VolumeResponse {
    pub id: i64,
    pub name: String,
    pub created_at: String,
}

/// List the entries of a volume.
#[derive(Debug)]
pub struct ListMemoryRequest {
    pub volume_id: i64,
}

/// Store an entry in a volume.
#[derive(Debug)]
pub struct RememberRequest {
    pub volume_id: i64,
    pub content: String,
    pub source: EntrySource,
}

/// An entry, with its creation time as RFC 3339 text.
#[derive(Debug)]
pub struct EntryResponse {
    pub id: i64,
    pub volume_id: i64,
    pub content: String,
    pub created_at: String,
    pub source: EntrySource,
}

/// Search the entries of a volume.
#[derive(Debug)]
pub struct SearchMemoryRequest {
    pub volume_id: i64,
    pub query: String,
}

/// Snapshot a volume.
#[derive(Debug)]
pub struct CreateSnapshotRequest {
    pub volume_id: i64,
    pub label: String,
}

/// Clone a volume from a snapshot.
#[derive(Debug)]
pub struct BranchFromSnapshotRequest {
    pub snapshot_id: i64,
}

/// List the snapshots of a volume.
#[derive(Debug)]
pub struct ListSnapshotsRequest {
    pub volume_id: i64,
}

/// A snapshot, with its creation time as RFC 3339 text.
#[derive(Debug)]
pub struct SnapshotResponse {
    pub id: i64,
    pub volume_id: i64,
    pub event_seq_pointer: i64,
    pub label: String,
    pub created_at: String,
}

/// A list of volumes.
#[derive(Debug)]
pub struct VolumeListResponse {
    pub volumes: Vec<VolumeResponse>,
}

/// A list of entries.
#[derive(Debug)]
pub struct EntryListResponse {
    pub entries: Vec<EntryResponse>,
}

/// A list of snapshots.
#[derive(Debug)]
pub struct SnapshotListResponse {
    pub snapshots: Vec<SnapshotResponse>,
}

/// `r` describes the volume `v`.
pub open spec fn describes_volume(r: VolumeResponse, v: Volume) -> bool {
    &&& r.id == v@.id
    &&& r.name@ == v@.name
    &&& r.created_at@ == rfc3339_of(v@.created_at)
}

/// `r` describes the entry `e`.
pub open spec fn describes_entry(r: EntryResponse, e: Entry) -> bool {
    &&& r.id == e@.id
    &&& r.volume_id == e@.volume_id
    &&& r.content@ == e@.content
    &&& r.created_at@ == rfc3339_of(e@.created_at)
    &&& r.source == e@.source
}

/// `r` describes the snapshot `s`.
pub open spec fn describes_snapshot(r: SnapshotResponse, s: Snapshot) -> bool {
    &&& r.id == s@.id
    &&& r.volume_id == s@.volume_id
    &&& r.event_seq_pointer == s@.event_seq_pointer
    &&& r.label@ == s@.label
    &&& r.created_at@ == rfc3339_of(s@.created_at)
}

impl VolumeResponse {
    /// The response that describes a volume.
    pub fn from(v: &Volume) -> (r: VolumeResponse)
        ensures
            describes_volume(r, *v),
    {
        let name = v.name().to_owned();
        VolumeResponse { id: v.id(), name, created_at: v.created_at().to_rfc3339() }
    }
}

impl EntryResponse {
    /// The response that describes an entry.
    pub fn from(e: &Entry) -> (r: EntryResponse)
        ensures
            describes_entry(r, *e),
    {
        let content = e.content().to_owned();
        EntryResponse {
            id: e.id(),
            volume_id: e.volume_id(),
            content,
            created_at: e.created_at().to_rfc3339(),
            source: e.source(),
        }
    }
}

impl SnapshotResponse {
    /// The response that describes a snapshot.
    pub fn from(s: &Snapshot) -> (r: SnapshotResponse)
        ensures
            describes_snapshot(r, *s),
    {
        let label = s.label().to_owned();
        SnapshotResponse {
            id: s.id(),
            volume_id: s.volume_id(),
            event_seq_pointer: s.event_seq_pointer(),
            label,
            created_at: s.created_at().to_rfc3339(),
        }
    }
}

impl VolumeListResponse {
    /// The response that lists these volumes, in order.
    pub fn from_volumes(vs: &Vec<Volume>) -> (r: VolumeListResponse)
        ensures
            r.volumes.len() == vs.len(),
            forall|i: int| 0 <= i < vs.len() ==> describes_volume(#[trigger] r.volumes@[i], vs@[i]),
    {
        let mut volumes: Vec<VolumeResponse> = Vec::new();
        for i in 0..vs.len()
            invariant
                volumes.len() == i,
                forall|j: int| 0 <= j < i ==> describes_volume(#[trigger] volumes@[j], vs@[j]),
        {
            volumes.push(VolumeResponse::from(&vs[i]));
        }
        VolumeListResponse { volumes }
    }
}

impl EntryListResponse {
    /// The response that lists these entries, in order.
    pub fn from_entries(es: &Vec<Entry>) -> (r: EntryListResponse)
        ensures
            r.entries.len() == es.len(),
            forall|i: int| 0 <= i < es.len() ==> describes_entry(#[trigger] r.entries@[i], es@[i]),
    {
        let mut entries: Vec<EntryResponse> = Vec::new();
        for i in 0..es.len()
            invariant
                entries.len() == i,
                forall|j: int| 0 <= j < i ==> describes_entry(#[trigger] entries@[j], es@[j]),
        {
            entries.push(EntryResponse::from(&es[i]));
        }
        EntryListResponse { entries }
    }
}

impl SnapshotListResponse {
    /// The response that lists these snapshots, in order.
    pub fn from_snapshots(ss: &Vec<Snapshot>) -> (r: SnapshotListResponse)
        ensures
            r.snapshots.len() == ss.len(),
            forall|i: int|
                0 <= i < ss.len() ==> describes_snapshot(#[trigger] r.snapshots@[i], ss@[i]),
    {
        let mut snapshots: Vec<SnapshotResponse> = Vec::new();
        for i in 0..ss.len()
            invariant
                snapshots.len() == i,
                forall|j: int| 0 <= j < i ==> describes_snapshot(#[trigger] snapshots@[j], ss@[j]),
        {
            snapshots.push(SnapshotResponse::from(&ss[i]));
        }
        SnapshotListResponse { snapshots }
    }
}

} // verus!
