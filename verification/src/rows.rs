//! Reading stored rows back as domain values: the listings of volumes,
//! entries and snapshots, and the search over a volume's entries.

use vstd::prelude::*;

use crate::domain::{
    lemma_source_text_round_trip, source_named, source_text, EntrySource, parse_source, DomainError, Entry, EntryView, Snapshot, SnapshotView, Volume,
    VolumeView,
};
use crate::storage::{EngineError, EntryRow, SnapshotRow, VolumeRow};
use crate::text::{
    contains_text, contains_substring, is_blank, lemma_contains_text_transitive, occurs_at,
};
use crate::time::{reads_back, rfc3339_of, rfc3339_parse, rfc3339_text, Timestamp, TimestampError};

verus! {

broadcast use vstd::seq_lib::group_seq_properties;

/// The instant that a stored date and time names, where it can be read.
pub open spec fn stored_instant(text: Seq<char>) -> Option<(i64, u32)> {
    match rfc3339_parse(text) {
        Ok(p) => if rfc3339_text(p.0, p.1) is Some {
            Some(p)
        } else {
            None
        },
        Err(_) => None,
    }
}

/// `e` is the error that reading the stored date and time `text` gives.
pub open spec fn timestamp_error_of(text: Seq<char>, e: EngineError) -> bool {
    match rfc3339_parse(text) {
        Err(f) => e matches EngineError::Timestamp(TimestampError::Unparsable(g)) && g == f,
        Ok(_) => e matches EngineError::Timestamp(TimestampError::OutOfRange),
    }
}

/// Reads a stored date and time.
pub fn parse_datetime(s: String) -> (r: Result<Timestamp, EngineError>)
    ensures
        match stored_instant(s@) {
            Some(p) => r matches Ok(t) && t@ == p,
            None => r matches Err(e) && timestamp_error_of(s@, e),
        },
{
    match Timestamp::parse(s.as_str()) {
        Ok(t) => Ok(t),
        Err(e) => Err(EngineError::Timestamp(e)),
    }
}

// ---------------------------------------------------------------- volumes

/// A stored volume reads back as a volume.
pub open spec fn volume_row_readable(row: VolumeRow) -> bool {
    &&& stored_instant(row.created_at@) is Some
    &&& !is_blank(row.name@)
}

/// The volume that a readable row holds.
pub open spec fn volume_of_row(row: VolumeRow) -> VolumeView {
    VolumeView { id: row.id, name: row.name@, created_at: stored_instant(row.created_at@)->0 }
}

/// `e` is the error that reading the unreadable row gives.
pub open spec fn volume_row_error(row: VolumeRow, e: EngineError) -> bool {
    if stored_instant(row.created_at@) is None {
        timestamp_error_of(row.created_at@, e)
    } else {
        e matches EngineError::Domain(DomainError::EmptyVolumeName)
    }
}

/// Reads one stored volume.
pub fn volume_from_row(row: &VolumeRow) -> (r: Result<Volume, EngineError>)
    ensures
        volume_row_readable(*row) ==> (r matches Ok(v) && v@ == volume_of_row(*row)),
        !volume_row_readable(*row) ==> (r matches Err(e) && volume_row_error(*row, e)),
{
    let created_at = parse_datetime(row.created_at.clone())?;
    match Volume::new(row.id, row.name.clone(), created_at) {
        Ok(v) => Ok(v),
        Err(e) => Err(EngineError::Domain(e)),
    }
}

/// Reads stored volumes, in the order given; the first unreadable row ends
/// the listing with its error.
pub fn list_volumes(rows: &Vec<VolumeRow>) -> (r: Result<Vec<Volume>, EngineError>)
    ensures
        match r {
            Ok(vs) => {
                &&& vs.len() == rows.len()
                &&& forall|i: int|
                    0 <= i < rows.len() ==> volume_row_readable(#[trigger] rows@[i]) && vs@[i]@
                        == volume_of_row(rows@[i])
            },
            Err(e) => exists|k: int|
                {
                    &&& 0 <= k < rows.len()
                    &&& forall|i: int| 0 <= i < k ==> volume_row_readable(#[trigger] rows@[i])
                    &&& !volume_row_readable(#[trigger] rows@[k])
                    &&& volume_row_error(rows@[k], e)
                },
        },
{
    let mut out: Vec<Volume> = Vec::new();
    let mut i: usize = 0;
    while i < rows.len()
        invariant
            i <= rows.len(),
            out.len() == i,
            forall|j: int|
                0 <= j < i ==> volume_row_readable(#[trigger] rows@[j]) && out@[j]@ == volume_of_row(
                    rows@[j],
                ),
        decreases rows.len() - i,
    {
        match volume_from_row(&rows[i]) {
            Ok(v) => out.push(v),
            Err(e) => {
                assert(!volume_row_readable(rows@[i as int]));
                return Err(e);
            },
        }
        i = i + 1;
    }
    Ok(out)
}

// ---------------------------------------------------------------- entries

/// A stored entry reads back as an entry.
pub open spec fn entry_row_readable(row: EntryRow) -> bool {
    &&& stored_instant(row.created_at@) is Some
    &&& !is_blank(row.content@)
}

/// The entry that a readable row holds.
pub open spec fn entry_of_row(row: EntryRow) -> EntryView {
    EntryView {
        id: row.id,
        volume_id: row.volume_id,
        content: row.content@,
        created_at: stored_instant(row.created_at@)->0,
        source: source_named(row.source@),
    }
}

/// `e` is the error that reading the unreadable row gives.
pub open spec fn entry_row_error(row: EntryRow, e: EngineError) -> bool {
    if stored_instant(row.created_at@) is None {
        timestamp_error_of(row.created_at@, e)
    } else {
        e matches EngineError::Domain(DomainError::EmptyEntryContent)
    }
}

/// Reads one stored entry.
pub fn entry_from_row(row: &EntryRow) -> (r: Result<Entry, EngineError>)
    ensures
        entry_row_readable(*row) ==> (r matches Ok(v) && v@ == entry_of_row(*row)),
        !entry_row_readable(*row) ==> (r matches Err(e) && entry_row_error(*row, e)),
{
    let source = parse_source(row.source.as_str());
    let created_at = parse_datetime(row.created_at.clone())?;
    match Entry::new(row.id, row.volume_id, row.content.clone(), created_at, source) {
        Ok(v) => Ok(v),
        Err(e) => Err(EngineError::Domain(e)),
    }
}

/// Reads stored entries, in the order given; the first unreadable row ends
/// the listing with its error.
pub fn list_entries(rows: &Vec<EntryRow>) -> (r: Result<Vec<Entry>, EngineError>)
    ensures
        match r {
            Ok(vs) => {
                &&& vs.len() == rows.len()
                &&& forall|i: int|
                    0 <= i < rows.len() ==> entry_row_readable(#[trigger] rows@[i]) && vs@[i]@
                        == entry_of_row(rows@[i])
            },
            Err(e) => exists|k: int|
                {
                    &&& 0 <= k < rows.len()
                    &&& forall|i: int| 0 <= i < k ==> entry_row_readable(#[trigger] rows@[i])
                    &&& !entry_row_readable(#[trigger] rows@[k])
                    &&& entry_row_error(rows@[k], e)
                },
        },
{
    let mut out: Vec<Entry> = Vec::new();
    let mut i: usize = 0;
    while i < rows.len()
        invariant
            i <= rows.len(),
            out.len() == i,
            forall|j: int|
                0 <= j < i ==> entry_row_readable(#[trigger] rows@[j]) && out@[j]@ == entry_of_row(
                    rows@[j],
                ),
        decreases rows.len() - i,
    {
        match entry_from_row(&rows[i]) {
            Ok(v) => out.push(v),
            Err(e) => {
                assert(!entry_row_readable(rows@[i as int]));
                return Err(e);
            },
        }
        i = i + 1;
    }
    Ok(out)
}

/// The stored entries whose content contains `query` as a substring.
pub open spec fn search_hits(rows: Seq<EntryRow>, query: Seq<char>) -> Seq<EntryRow> {
    rows.filter(|row: EntryRow| contains_text(row.content@, query))
}

/// The empty query occurs in every text.
pub proof fn lemma_empty_query_occurs_everywhere(hay: Seq<char>)
    ensures
        contains_text(hay, Seq::empty()),
{
    assert(occurs_at(hay, Seq::empty(), 0));
}

/// Searching with the empty query keeps every stored entry: the search then
/// gives the listing.
pub proof fn lemma_empty_query_keeps_every_entry(rows: Seq<EntryRow>)
    ensures
        search_hits(rows, Seq::empty()) == rows,
    decreases rows.len(),
{
    let pred = |row: EntryRow| contains_text(row.content@, Seq::<char>::empty());
    if rows.len() > 0 {
        let init = rows.drop_last();
        lemma_empty_query_keeps_every_entry(init);
        lemma_empty_query_occurs_everywhere(rows.last().content@);
        init.lemma_filter_push(rows.last(), pred);
        assert(init.push(rows.last()) =~= rows);
    } else {
        reveal(Seq::filter);
    }
}

/// A search finds only listed entries, each of which holds the query.
pub proof fn lemma_search_hits_are_listed(rows: Seq<EntryRow>, query: Seq<char>)
    ensures
        forall|i: int|
            0 <= i < search_hits(rows, query).len() ==> {
                &&& rows.contains(#[trigger] search_hits(rows, query)[i])
                &&& contains_text(search_hits(rows, query)[i].content@, query)
            },
{
    let pred = |row: EntryRow| contains_text(row.content@, query);
    assert forall|i: int| 0 <= i < search_hits(rows, query).len() implies {
        &&& rows.contains(#[trigger] search_hits(rows, query)[i])
        &&& contains_text(search_hits(rows, query)[i].content@, query)
    } by {
        assert(rows.filter(pred).contains(rows.filter(pred)[i]));
        rows.lemma_filter_contains_rev(pred, search_hits(rows, query)[i]);
        rows.lemma_filter_pred(pred, i);
    }
}

/// Searching for a longer query finds no entry that searching for a part of
/// it misses: every hit for `longer` is a hit for `part`.
pub proof fn lemma_longer_query_finds_fewer(
    rows: Seq<EntryRow>,
    part: Seq<char>,
    longer: Seq<char>,
)
    requires
        contains_text(longer, part),
    ensures
        forall|i: int|
            0 <= i < search_hits(rows, longer).len() ==> search_hits(rows, part).contains(
                #[trigger] search_hits(rows, longer)[i],
            ),
{
    let pred = |row: EntryRow| contains_text(row.content@, part);
    lemma_search_hits_are_listed(rows, longer);
    assert forall|i: int| 0 <= i < search_hits(rows, longer).len() implies search_hits(
        rows,
        part,
    ).contains(#[trigger] search_hits(rows, longer)[i]) by {
        let row = search_hits(rows, longer)[i];
        lemma_contains_text_transitive(row.content@, longer, part);
        let j = choose|j: int| 0 <= j < rows.len() && rows[j] == row;
        rows.lemma_filter_contains(pred, j);
    }
}

/// A search misses no entry: every stored entry whose content contains the
/// query, wherever in the content and however long the content is, is a hit.
pub proof fn lemma_search_finds_every_match(rows: Seq<EntryRow>, query: Seq<char>)
    ensures
        forall|i: int|
            0 <= i < rows.len() && contains_text(#[trigger] rows[i].content@, query)
                ==> search_hits(rows, query).contains(rows[i]),
{
    let pred = |row: EntryRow| contains_text(row.content@, query);
    assert forall|i: int|
        0 <= i < rows.len() && contains_text(#[trigger] rows[i].content@, query) implies search_hits(
        rows,
        query,
    ).contains(rows[i]) by {
        rows.lemma_filter_contains(pred, i);
    }
}

fn copy_entry_row(row: &EntryRow) -> (r: EntryRow)
    ensures
        r == *row,
{
    EntryRow {
        id: row.id,
        volume_id: row.volume_id,
        content: row.content.clone(),
        created_at: row.created_at.clone(),
        source: row.source.clone(),
    }
}

/// The stored entries of a volume whose content contains `query` as a
/// substring, read back in the order given; the first unreadable one of them
/// ends the search with its error.
pub fn search(rows: &Vec<EntryRow>, query: &str) -> (r: Result<Vec<Entry>, EngineError>)
    ensures
        r matches Ok(vs) ==> forall|i: int|
            0 <= i < rows@.len() && contains_text(#[trigger] rows@[i].content@, query@)
                ==> exists|j: int| 0 <= j < vs.len() && vs@[j]@ == entry_of_row(rows@[i]),
        r matches Ok(vs) ==> forall|j: int|
            0 <= j < vs.len() ==> exists|i: int|
                0 <= i < rows@.len() && contains_text(rows@[i].content@, query@)
                    && entry_row_readable(rows@[i]) && #[trigger] vs@[j]@ == entry_of_row(rows@[i]),
        ({
            let hits = search_hits(rows@, query@);
            match r {
                Ok(vs) => {
                    &&& vs.len() == hits.len()
                    &&& forall|i: int|
                        0 <= i < hits.len() ==> entry_row_readable(#[trigger] hits[i]) && vs@[i]@
                            == entry_of_row(hits[i])
                },
                Err(e) => exists|k: int|
                    {
                        &&& 0 <= k < hits.len()
                        &&& forall|i: int| 0 <= i < k ==> entry_row_readable(#[trigger] hits[i])
                        &&& !entry_row_readable(#[trigger] hits[k])
                        &&& entry_row_error(hits[k], e)
                    },
            }
        }),
{
    let ghost pred = |row: EntryRow| contains_text(row.content@, query@);
    let mut hits: Vec<EntryRow> = Vec::new();
    let mut i: usize = 0;
    while i < rows.len()
        invariant
            i <= rows.len(),
            hits@ == rows@.take(i as int).filter(pred),
            pred == (|row: EntryRow| contains_text(row.content@, query@)),
        decreases rows.len() - i,
    {
        proof {
            assert(rows@.take(i + 1) == rows@.take(i as int).push(rows@[i as int]));
            rows@.take(i as int).lemma_filter_push(rows@[i as int], pred);
        }
        if contains_substring(rows[i].content.as_str(), query) {
            hits.push(copy_entry_row(&rows[i]));
        }
        i = i + 1;
    }
    assert(rows@.take(rows.len() as int) == rows@);
    let r = list_entries(&hits);
    proof {
        lemma_search_finds_every_match(rows@, query@);
        lemma_search_hits_are_listed(rows@, query@);
        if let Ok(vs) = &r {
            let found = search_hits(rows@, query@);
            assert forall|i: int|
                0 <= i < rows@.len() && contains_text(#[trigger] rows@[i].content@, query@)
                    implies exists|j: int| 0 <= j < vs.len() && vs@[j]@ == entry_of_row(rows@[i]) by {
                assert(found.contains(rows@[i]));
                let j = choose|j: int| 0 <= j < found.len() && found[j] == rows@[i];
                assert(entry_row_readable(found[j]));
            }
            assert forall|j: int| 0 <= j < vs.len() implies exists|i: int|
                0 <= i < rows@.len() && contains_text(rows@[i].content@, query@)
                    && entry_row_readable(rows@[i]) && #[trigger] vs@[j]@ == entry_of_row(rows@[i]) by {
                assert(entry_row_readable(found[j]));
                assert(rows@.contains(found[j]));
                let i = choose|i: int| 0 <= i < rows@.len() && rows@[i] == found[j];
                assert(contains_text(found[j].content@, query@));
            }
        }
    }
    r
}

// ---------------------------------------------------------------- snapshots

/// A stored snapshot reads back as a snapshot.
pub open spec fn snapshot_row_readable(row: SnapshotRow) -> bool {
    &&& stored_instant(row.created_at@) is Some
    &&& row.event_seq_pointer >= 1
    &&& !is_blank(row.label@)
}

/// The snapshot that a readable row holds.
pub open spec fn snapshot_of_row(row: SnapshotRow) -> SnapshotView {
    SnapshotView {
        id: row.id,
        volume_id: row.volume_id,
        event_seq_pointer: row.event_seq_pointer,
        created_at: stored_instant(row.created_at@)->0,
        label: row.label@,
    }
}

/// `e` is the error that reading the unreadable row gives.
pub open spec fn snapshot_row_error(row: SnapshotRow, e: EngineError) -> bool {
    if stored_instant(row.created_at@) is None {
        timestamp_error_of(row.created_at@, e)
    } else if row.event_seq_pointer < 1 {
        e matches EngineError::Domain(DomainError::InvalidSeqNumber)
    } else {
        e matches EngineError::Domain(DomainError::EmptySnapshotLabel)
    }
}

/// Reads one stored snapshot.
pub fn snapshot_from_row(row: &SnapshotRow) -> (r: Result<Snapshot, EngineError>)
    ensures
        snapshot_row_readable(*row) ==> (r matches Ok(v) && v@ == snapshot_of_row(*row)),
        !snapshot_row_readable(*row) ==> (r matches Err(e) && snapshot_row_error(*row, e)),
{
    let created_at = parse_datetime(row.created_at.clone())?;
    match Snapshot::new(
        row.id,
        row.volume_id,
        row.event_seq_pointer,
        created_at,
        row.label.clone(),
    ) {
        Ok(v) => Ok(v),
        Err(e) => Err(EngineError::Domain(e)),
    }
}

/// Reads stored snapshots, in the order given; the first unreadable row ends
/// the listing with its error.
pub fn list_snapshots(rows: &Vec<SnapshotRow>) -> (r: Result<Vec<Snapshot>, EngineError>)
    ensures
        match r {
            Ok(vs) => {
                &&& vs.len() == rows.len()
                &&& forall|i: int|
                    0 <= i < rows.len() ==> snapshot_row_readable(#[trigger] rows@[i]) && vs@[i]@
                        == snapshot_of_row(rows@[i])
            },
            Err(e) => exists|k: int|
                {
                    &&& 0 <= k < rows.len()
                    &&& forall|i: int| 0 <= i < k ==> snapshot_row_readable(#[trigger] rows@[i])
                    &&& !snapshot_row_readable(#[trigger] rows@[k])
                    &&& snapshot_row_error(rows@[k], e)
                },
        },
{
    let mut out: Vec<Snapshot> = Vec::new();
    let mut i: usize = 0;
    while i < rows.len()
        invariant
            i <= rows.len(),
            out.len() == i,
            forall|j: int|
                0 <= j < i ==> snapshot_row_readable(#[trigger] rows@[j]) && out@[j]@
                    == snapshot_of_row(rows@[j]),
        decreases rows.len() - i,
    {
        match snapshot_from_row(&rows[i]) {
            Ok(v) => out.push(v),
            Err(e) => {
                assert(!snapshot_row_readable(rows@[i as int]));
                return Err(e);
            },
        }
        i = i + 1;
    }
    Ok(out)
}

// ---------------------------------------------------------------- read after write

/// A stored date and time written as the RFC 3339 text of a timestamp reads
/// back as that timestamp.
pub proof fn lemma_written_instant_reads_back(t: (i64, u32))
    requires
        reads_back(t),
    ensures
        stored_instant(rfc3339_of(t)) == Some(t),
{
}

/// A volume row holding what creating a volume writes (a non-blank name and
/// the RFC 3339 text of its creation time) reads back as that volume.
pub proof fn lemma_written_volume_reads_back(row: VolumeRow, name: Seq<char>, t: (i64, u32))
    requires
        !is_blank(name),
        reads_back(t),
        row.name@ == name,
        row.created_at@ == rfc3339_of(t),
    ensures
        volume_row_readable(row),
        volume_of_row(row) == (VolumeView { id: row.id, name, created_at: t }),
{
}

/// An entry row holding what adding an entry writes (non-blank content, the
/// RFC 3339 text of its creation time, the text of its source) reads back as
/// that entry.
pub proof fn lemma_written_entry_reads_back(
    row: EntryRow,
    content: Seq<char>,
    t: (i64, u32),
    source: EntrySource,
)
    requires
        !is_blank(content),
        reads_back(t),
        row.content@ == content,
        row.created_at@ == rfc3339_of(t),
        row.source@ == source_text(source),
    ensures
        entry_row_readable(row),
        entry_of_row(row) == (EntryView {
            id: row.id,
            volume_id: row.volume_id,
            content,
            created_at: t,
            source,
        }),
{
    lemma_source_text_round_trip(source);
}

/// A snapshot row holding what taking a snapshot writes (a pointer of at
/// least 1, the RFC 3339 text of its creation time, a non-blank label) reads
/// back as that snapshot.
pub proof fn lemma_written_snapshot_reads_back(row: SnapshotRow, label: Seq<char>, t: (i64, u32))
    requires
        !is_blank(label),
        reads_back(t),
        row.event_seq_pointer >= 1,
        row.label@ == label,
        row.created_at@ == rfc3339_of(t),
    ensures
        snapshot_row_readable(row),
        snapshot_of_row(row) == (SnapshotView {
            id: row.id,
            volume_id: row.volume_id,
            event_seq_pointer: row.event_seq_pointer,
            created_at: t,
            label,
        }),
{
}

/// An entry that a clone copies (content, creation time and source text taken
/// over as stored) reads back as the source entry does, under its own row id
/// and volume.
pub proof fn lemma_copied_entry_reads_back_alike(source_row: EntryRow, copy: EntryRow)
    requires
        copy.content@ == source_row.content@,
        copy.created_at@ == source_row.created_at@,
        copy.source@ == source_row.source@,
    ensures
        entry_row_readable(copy) == entry_row_readable(source_row),
        entry_of_row(copy) == (EntryView {
            id: copy.id,
            volume_id: copy.volume_id,
            ..entry_of_row(source_row)
        }),
{
}

} // verus!
