use memd::domain::{Entry, EntrySource, Snapshot, Volume};
use memd::protocol::{
    EntryListResponse, EntryResponse, SnapshotListResponse, SnapshotResponse, VolumeListResponse,
    VolumeResponse,
};
use memd::time::Timestamp;

fn at(secs: i64) -> Timestamp {
    Timestamp::from_parts(secs, 0).unwrap()
}

#[test]
fn volume_response_describes_the_volume() {
    let v = Volume::new(3, "notes".to_string(), at(0)).unwrap();
    let r = VolumeResponse::from(&v);
    assert_eq!(r.id, 3);
    assert_eq!(r.name, "notes");
    assert_eq!(r.created_at, "1970-01-01T00:00:00+00:00");
}

#[test]
fn entry_response_describes_the_entry() {
    let e = Entry::new(4, 3, "fact".to_string(), at(60), EntrySource::Agent).unwrap();
    let r = EntryResponse::from(&e);
    assert_eq!(r.id, 4);
    assert_eq!(r.volume_id, 3);
    assert_eq!(r.content, "fact");
    assert_eq!(r.created_at, "1970-01-01T00:01:00+00:00");
    assert_eq!(r.source, EntrySource::Agent);
}

#[test]
fn snapshot_response_describes_the_snapshot() {
    let s = Snapshot::new(9, 3, 2, at(3600), "v1".to_string()).unwrap();
    let r = SnapshotResponse::from(&s);
    assert_eq!(r.id, 9);
    assert_eq!(r.volume_id, 3);
    assert_eq!(r.event_seq_pointer, 2);
    assert_eq!(r.label, "v1");
    assert_eq!(r.created_at, "1970-01-01T01:00:00+00:00");
}

#[test]
fn list_responses_keep_order() {
    let vs = vec![
        Volume::new(2, "b".to_string(), at(0)).unwrap(),
        Volume::new(1, "a".to_string(), at(0)).unwrap(),
    ];
    let r = VolumeListResponse::from_volumes(&vs);
    assert_eq!(r.volumes.iter().map(|v| v.id).collect::<Vec<_>>(), vec![2, 1]);
    let es = vec![Entry::new(5, 1, "x".to_string(), at(0), EntrySource::User).unwrap()];
    let r = EntryListResponse::from_entries(&es);
    assert_eq!(r.entries.len(), 1);
    assert_eq!(r.entries[0].content, "x");
    let ss: Vec<Snapshot> = vec![];
    assert!(SnapshotListResponse::from_snapshots(&ss).snapshots.is_empty());
}
