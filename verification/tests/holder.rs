use std::sync::Arc;

use site_supervisor::holder::{Holder, Slot};
use site_supervisor::snapshot::Snapshot;

#[test]
fn snapshot_reports_its_counts() {
    let snapshot = Snapshot::new(12, 3);
    assert_eq!(snapshot.record_count(), 12);
    assert_eq!(snapshot.artifact_count(), 3);
    assert!(!snapshot.is_empty());
    assert!(Snapshot::new(0, 0).is_empty());
    assert!(!Snapshot::new(0, 1).is_empty());
    assert!(!Snapshot::new(1, 0).is_empty());
}

#[test]
fn slot_starts_empty_and_keeps_the_last_snapshot() {
    assert_eq!(Slot::empty().read(), None);
    let mut slot = Slot::empty();
    slot.publish(Arc::new(Snapshot::new(1, 2)));
    slot.publish(Arc::new(Snapshot::new(3, 4)));
    assert_eq!(slot.read(), Some(Arc::new(Snapshot::new(3, 4))));
}

#[test]
fn holder_starts_empty() {
    let holder = Holder::new();
    assert_eq!(holder.read(), None);
    assert_eq!(holder.read(), None);
}

#[test]
fn read_after_publish_sees_the_snapshot() {
    let holder = Holder::new();
    let snapshot = Arc::new(Snapshot::new(7, 2));
    holder.publish(snapshot.clone());
    let seen = holder.read().unwrap();
    assert!(Arc::ptr_eq(&seen, &snapshot));
    assert_eq!(*seen, Snapshot::new(7, 2));
}

#[test]
fn later_publish_replaces_the_earlier_one() {
    let holder = Holder::new();
    holder.publish(Arc::new(Snapshot::new(1, 1)));
    holder.publish(Arc::new(Snapshot::new(2, 5)));
    assert_eq!(holder.read(), Some(Arc::new(Snapshot::new(2, 5))));
}

#[test]
fn handle_outlives_a_later_publish() {
    let holder = Holder::new();
    holder.publish(Arc::new(Snapshot::new(1, 1)));
    let first = holder.read().unwrap();
    holder.publish(Arc::new(Snapshot::new(9, 9)));
    assert_eq!(*first, Snapshot::new(1, 1));
    assert_eq!(*holder.read().unwrap(), Snapshot::new(9, 9));
}

#[test]
fn interleaved_reads_see_nothing_or_the_whole_snapshot() {
    let holder = Holder::new();
    let published = Arc::new(Snapshot::new(1000, 17));
    let mut seen = Vec::new();
    for round in 0..6usize {
        if round == 2 || round == 4 {
            holder.publish(published.clone());
        }
        seen.push(holder.read());
    }
    assert_eq!(seen[0], None);
    assert_eq!(seen[1], None);
    for later in &seen[2..] {
        assert!(Arc::ptr_eq(later.as_ref().unwrap(), &published));
    }
}

#[test]
fn holder_is_shared_by_reference() {
    let holder = Arc::new(Holder::new());
    let writer = holder.clone();
    let reader = holder.clone();
    assert_eq!(reader.read(), None);
    writer.publish(Arc::new(Snapshot::new(4, 0)));
    assert_eq!(reader.read(), Some(Arc::new(Snapshot::new(4, 0))));
}
