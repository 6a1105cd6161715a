use std::collections::HashMap;
use waste_management::index::StatusIndex;
use waste_management::ops::Pallet;
use waste_management::store::RecordStore;
use waste_management::types::{Error, Event, WasteData, WasteStatus};

fn record(id: u64, status: WasteStatus, reporter: u64) -> WasteData {
    WasteData {
        report_id: id,
        waste_type: 3,
        waste_amount: 40,
        status,
        location_x: 1,
        location_y: 2,
        reporter,
    }
}

#[test]
fn allocate_commits_the_counter_before_any_insert() {
    let mut s = RecordStore::new();
    assert_eq!(s.allocate_id(), Ok(1));
    assert_eq!(s.allocate_id(), Ok(2));
    assert_eq!(s.count, 2);
    // Neither allocation was followed by an insert: the identifiers stay
    // used up, and the next one moves past the gap.
    assert_eq!(s.allocate_id(), Ok(3));
}

#[test]
fn allocate_fails_when_the_identifier_space_is_exhausted() {
    let mut s = RecordStore { count: u64::MAX, records: HashMap::new() };
    assert_eq!(s.allocate_id(), Err(Error::BoundsOverflow));
    assert_eq!(s.count, u64::MAX);
}

#[test]
fn create_fails_with_bounds_overflow_on_an_exhausted_tracker() {
    let mut p = Pallet::new();
    p.store.count = u64::MAX;
    let r = p.create_waste_data(7, 1, 100, 5, 5);
    assert_eq!(r, Err(Error::BoundsOverflow));
    assert_eq!(p.store.count, u64::MAX);
    assert!(p.get_report(1).is_none());
    assert!(p.events().is_empty());
}

#[test]
fn duplicate_insert_is_rejected_and_keeps_the_first_record() {
    let mut s = RecordStore::new();
    let first = record(4, WasteStatus::Reported, 11);
    let second = record(4, WasteStatus::Collected, 22);
    assert_eq!(s.insert(4, first), Ok(()));
    assert_eq!(s.insert(4, second), Err(Error::DuplicateReport));
    assert_eq!(s.get(4), Some(first));
}

#[test]
fn set_status_changes_only_the_status_field() {
    let mut s = RecordStore::new();
    let rec = record(1, WasteStatus::Reported, 11);
    s.insert(1, rec).unwrap();

    let prev = s.set_status(1, WasteStatus::Transported).unwrap();
    assert_eq!(prev, rec);

    let now = s.get(1).unwrap();
    assert_eq!(now.status, WasteStatus::Transported);
    assert_eq!(now.reporter, rec.reporter);
    assert_eq!(now.waste_type, rec.waste_type);
    assert_eq!(now.waste_amount, rec.waste_amount);
    assert_eq!(now.location_x, rec.location_x);
    assert_eq!(now.location_y, rec.location_y);

    assert_eq!(s.set_status(2, WasteStatus::Utilized), Err(Error::ReportNotFound));
}

#[test]
fn reinsert_moves_an_entry_and_skips_equal_statuses() {
    let mut ix = StatusIndex::new();
    let rec = record(1, WasteStatus::Reported, 11);
    ix.insert(WasteStatus::Reported, 1, rec);
    assert_eq!(ix.get(WasteStatus::Reported, 1), Some(rec));

    let moved = record(1, WasteStatus::Collected, 11);
    ix.reinsert(WasteStatus::Reported, WasteStatus::Collected, 1, moved);
    assert_eq!(ix.get(WasteStatus::Reported, 1), None);
    assert_eq!(ix.get(WasteStatus::Collected, 1), Some(moved));

    // Equal statuses: a pure no-op, even with a different record value.
    let other = record(1, WasteStatus::Collected, 99);
    ix.reinsert(WasteStatus::Collected, WasteStatus::Collected, 1, other);
    assert_eq!(ix.get(WasteStatus::Collected, 1), Some(moved));
}

#[test]
fn index_remove_deletes_only_the_named_key() {
    let mut ix = StatusIndex::new();
    ix.insert(WasteStatus::Reported, 1, record(1, WasteStatus::Reported, 11));
    ix.insert(WasteStatus::Reported, 2, record(2, WasteStatus::Reported, 11));
    ix.insert(WasteStatus::Utilized, 1, record(1, WasteStatus::Utilized, 11));

    ix.remove(WasteStatus::Reported, 1);
    assert_eq!(ix.get(WasteStatus::Reported, 1), None);
    assert!(ix.get(WasteStatus::Reported, 2).is_some());
    assert!(ix.get(WasteStatus::Utilized, 1).is_some());
}

#[test]
fn reporter_survives_every_status_change() {
    let mut p = Pallet::new();
    let id = p.create_waste_data(77, 1, 100, 5, 5).unwrap();
    let statuses = [
        WasteStatus::Collected,
        WasteStatus::Transported,
        WasteStatus::Utilized,
        WasteStatus::Reported,
        WasteStatus::Utilized,
    ];
    for s in statuses {
        p.update_waste_status(88, id, s).unwrap();
        assert_eq!(p.get_report(id).unwrap().reporter, 77);
    }
    assert_eq!(p.get_report(id).unwrap().status, WasteStatus::Utilized);
}

#[test]
fn every_status_is_reachable_from_every_other() {
    let mut p = Pallet::new();
    let id = p.create_waste_data(7, 1, 100, 5, 5).unwrap();
    // The lifecycle imposes no ordering: walk backwards as well as forwards.
    p.update_waste_status(8, id, WasteStatus::Utilized).unwrap();
    p.update_waste_status(8, id, WasteStatus::Reported).unwrap();
    assert_eq!(p.get_report(id).unwrap().status, WasteStatus::Reported);
    let listed = p.list_by_status(WasteStatus::Reported);
    assert_eq!(listed.len(), 1);
    assert!(p.list_by_status(WasteStatus::Utilized).is_empty());
}

#[test]
fn list_by_status_partitions_all_records_in_id_order() {
    let mut p = Pallet::new();
    for i in 0..5u64 {
        let id = p.create_waste_data(10 + i, i as u32, 100 * i, 0, 0).unwrap();
        assert_eq!(id, i + 1);
    }
    p.update_waste_status(9, 2, WasteStatus::Collected).unwrap();
    p.update_waste_status(9, 4, WasteStatus::Collected).unwrap();
    p.update_waste_status(9, 5, WasteStatus::Transported).unwrap();

    let reported: Vec<u64> =
        p.list_by_status(WasteStatus::Reported).iter().map(|r| r.report_id).collect();
    let collected: Vec<u64> =
        p.list_by_status(WasteStatus::Collected).iter().map(|r| r.report_id).collect();
    let transported: Vec<u64> =
        p.list_by_status(WasteStatus::Transported).iter().map(|r| r.report_id).collect();

    assert_eq!(reported, vec![1, 3]);
    assert_eq!(collected, vec![2, 4]);
    assert_eq!(transported, vec![5]);
    assert!(p.list_by_status(WasteStatus::Utilized).is_empty());
}

#[test]
fn events_are_logged_in_operation_order() {
    let mut p = Pallet::new();
    let id = p.create_waste_data(31, 1, 100, 5, 5).unwrap();
    p.update_waste_status(32, id, WasteStatus::Collected).unwrap();
    // A failed operation emits nothing.
    let _ = p.update_waste_status(33, 999, WasteStatus::Utilized);

    assert_eq!(
        p.events().as_slice(),
        &[
            Event::WasteDataCreated { report_id: 1, reporter: 31 },
            Event::WasteStatusUpdated { report_id: 1, operator: 32 },
        ]
    );
}
