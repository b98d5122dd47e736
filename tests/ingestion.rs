use xsnotif::config::{NotificationStrategy, NotifierConfig};
use xsnotif::listener::{forwarded_id, ingestion_strategy, ChangeEvent, ChangeKind, IngestionError};
use xsnotif::polling::{new_ids, SnapshotDiff};

#[test]
fn first_snapshot_is_a_baseline() {
    let mut d = SnapshotDiff::new();
    assert!(d.observe(vec![1, 2, 3]).is_empty());
}

#[test]
fn later_snapshots_emit_only_arrivals() {
    let mut d = SnapshotDiff::new();
    assert!(d.observe(vec![1, 2]).is_empty());
    assert_eq!(d.observe(vec![1, 2, 3]), vec![3]);
    assert!(d.observe(vec![1, 2, 3]).is_empty());
    assert_eq!(d.observe(vec![5, 2, 4]), vec![5, 4]);
}

#[test]
fn reappearing_id_counts_as_new() {
    let mut d = SnapshotDiff::new();
    d.observe(vec![1]);
    assert!(d.observe(vec![]).is_empty());
    assert_eq!(d.observe(vec![1]), vec![1]);
}

#[test]
fn new_ids_keeps_order_of_current_snapshot() {
    assert_eq!(new_ids(&vec![2], &vec![9, 2, 7, 1]), vec![9, 7, 1]);
    assert!(new_ids(&vec![1, 2], &vec![2, 1]).is_empty());
    assert_eq!(new_ids(&vec![], &vec![4, 5]), vec![4, 5]);
}

#[test]
fn added_events_are_forwarded_in_order() {
    let events: Vec<ChangeEvent> = (10..15).map(|id| ChangeEvent { kind: ChangeKind::Added, id }).collect();
    let ids: Vec<u32> = events.iter().filter_map(|e| forwarded_id(*e)).collect();
    assert_eq!(ids, vec![10, 11, 12, 13, 14]);
}

#[test]
fn removed_events_are_ignored() {
    assert_eq!(forwarded_id(ChangeEvent { kind: ChangeKind::Removed, id: 4 }), None);
    assert_eq!(forwarded_id(ChangeEvent { kind: ChangeKind::Added, id: 4 }), Some(4));
}

#[test]
fn denied_access_is_fatal() {
    let mut c = NotifierConfig::default();
    assert_eq!(ingestion_strategy(false, &c), Err(IngestionError::PermissionDenied));
    assert_eq!(ingestion_strategy(true, &c), Ok(NotificationStrategy::Listener));
    c.notification_strategy = NotificationStrategy::Polling;
    assert_eq!(ingestion_strategy(true, &c), Ok(NotificationStrategy::Polling));
}
