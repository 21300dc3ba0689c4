use memd::domain::{DomainError, EntrySource};
use memd::rows::{
    entry_from_row, list_entries, list_snapshots, list_volumes, parse_datetime, search,
    snapshot_from_row, volume_from_row,
};
use memd::storage::{EngineError, EntryRow, SnapshotRow, VolumeRow};
use memd::time::TimestampError;

const T0: &str = "2024-01-02T03:04:05+00:00";
const T1: &str = "2024-01-02T03:04:06.5+00:00";

fn vrow(id: i64, name: &str, at: &str) -> VolumeRow {
    VolumeRow { id, name: name.to_string(), created_at: at.to_string() }
}

fn erow(id: i64, content: &str, at: &str, source: &str) -> EntryRow {
    EntryRow {
        id,
        volume_id: 4,
        content: content.to_string(),
        created_at: at.to_string(),
        source: source.to_string(),
    }
}

fn srow(id: i64, pointer: i64, label: &str, at: &str) -> SnapshotRow {
    SnapshotRow {
        id,
        volume_id: 2,
        event_seq_pointer: pointer,
        created_at: at.to_string(),
        label: label.to_string(),
    }
}

#[test]
fn parse_datetime_reads_stored_text() {
    let t = parse_datetime(T1.to_string()).unwrap();
    assert_eq!(t.timestamp(), 1_704_164_646);
    assert_eq!(t.timestamp_subsec_nanos(), 500_000_000);
    assert!(matches!(
        parse_datetime("not a date".to_string()),
        Err(EngineError::Timestamp(TimestampError::Unparsable(_)))
    ));
}

#[test]
fn list_volumes_reads_rows_in_order() {
    let rows = vec![vrow(2, "b", T0), vrow(1, "a", T1)];
    let vs = list_volumes(&rows).unwrap();
    assert_eq!(vs.len(), 2);
    assert_eq!(vs[0].id(), 2);
    assert_eq!(vs[0].name(), "b");
    assert_eq!(vs[0].created_at().to_rfc3339(), T0);
    assert_eq!(vs[1].id(), 1);
    assert_eq!(vs[1].created_at().timestamp_subsec_nanos(), 500_000_000);
    assert_eq!(list_volumes(&vec![]).unwrap().len(), 0);
}

#[test]
fn list_volumes_stops_at_the_first_unreadable_row() {
    let rows = vec![vrow(1, "a", T0), vrow(2, " ", T0), vrow(3, "c", "bad")];
    assert!(matches!(
        list_volumes(&rows),
        Err(EngineError::Domain(DomainError::EmptyVolumeName))
    ));
    let rows = vec![vrow(1, "a", T0), vrow(3, " ", "bad"), vrow(2, " ", T0)];
    assert!(matches!(
        list_volumes(&rows),
        Err(EngineError::Timestamp(TimestampError::Unparsable(_)))
    ));
    assert!(volume_from_row(&vrow(1, "ok", T0)).is_ok());
}

#[test]
fn list_entries_reads_sources_and_defaults_to_user() {
    let rows = vec![
        erow(1, "one", T0, "user"),
        erow(2, "two", T0, "agent"),
        erow(3, "three", T0, "tool"),
        erow(4, "four", T0, "robot"),
    ];
    let es = list_entries(&rows).unwrap();
    let sources: Vec<EntrySource> = es.iter().map(|e| e.source()).collect();
    assert_eq!(
        sources,
        vec![EntrySource::User, EntrySource::Agent, EntrySource::Tool, EntrySource::User]
    );
    assert_eq!(es[2].content(), "three");
    assert_eq!(es[2].volume_id(), 4);
    assert_eq!(es[3].id(), 4);
}

#[test]
fn list_entries_refuses_blank_content_and_bad_times() {
    assert!(matches!(
        list_entries(&vec![erow(1, "ok", T0, "user"), erow(2, "", T0, "user")]),
        Err(EngineError::Domain(DomainError::EmptyEntryContent))
    ));
    assert!(matches!(
        entry_from_row(&erow(1, "ok", "2024-01-02", "user")),
        Err(EngineError::Timestamp(TimestampError::Unparsable(_)))
    ));
}

#[test]
fn search_keeps_matching_entries_in_order() {
    let rows = vec![
        erow(1, "auth bug is in middleware.rs line 42", T0, "user"),
        erow(2, "use postgres not sqlite in prod", T0, "agent"),
        erow(3, "AUTH tokens expire hourly; auth again", T1, "tool"),
    ];
    let hits = search(&rows, "auth").unwrap();
    let ids: Vec<i64> = hits.iter().map(|e| e.id()).collect();
    assert_eq!(ids, vec![1, 3]);
    assert_eq!(search(&rows, "AUTH").unwrap().len(), 1);
    assert_eq!(search(&rows, "SQLite").unwrap().len(), 0);
    assert_eq!(search(&rows, "sqlite").unwrap().len(), 1);
    assert_eq!(search(&rows, "mongo").unwrap().len(), 0);
    assert_eq!(search(&rows, "").unwrap().len(), 3);
}

#[test]
fn a_longer_query_finds_no_entry_its_part_misses() {
    let rows = vec![
        erow(1, "middleware auth check", T0, "user"),
        erow(2, "auth", T0, "agent"),
        erow(3, "authority of the lead", T1, "tool"),
        erow(4, "nothing here", T1, "user"),
    ];
    let part: Vec<i64> = search(&rows, "auth").unwrap().iter().map(|e| e.id()).collect();
    let longer: Vec<i64> =
        search(&rows, "auth check").unwrap().iter().map(|e| e.id()).collect();
    assert_eq!(part, vec![1, 2, 3]);
    assert_eq!(longer, vec![1]);
    assert!(longer.iter().all(|id| part.contains(id)));
}

#[test]
fn search_reads_only_the_matching_rows() {
    let rows = vec![erow(1, "alpha", T0, "user"), erow(2, "beta", "bad", "user")];
    let hits = search(&rows, "alp").unwrap();
    assert_eq!(hits.len(), 1);
    assert!(matches!(
        search(&rows, "bet"),
        Err(EngineError::Timestamp(TimestampError::Unparsable(_)))
    ));
}

#[test]
fn list_snapshots_checks_pointer_then_label() {
    let ss = list_snapshots(&vec![srow(1, 3, "v1", T0), srow(2, 5, "v2", T1)]).unwrap();
    assert_eq!(ss.len(), 2);
    assert_eq!(ss[1].event_seq_pointer(), 5);
    assert_eq!(ss[1].label(), "v2");
    assert_eq!(ss[0].volume_id(), 2);
    assert!(matches!(
        snapshot_from_row(&srow(1, 0, "", T0)),
        Err(EngineError::Domain(DomainError::InvalidSeqNumber))
    ));
    assert!(matches!(
        list_snapshots(&vec![srow(1, 2, " ", T0)]),
        Err(EngineError::Domain(DomainError::EmptySnapshotLabel))
    ));
}
