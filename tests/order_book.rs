use ccx_binance::order_book::{SequenceError, UpdateSequence};

#[test]
fn first_event_must_reach_past_snapshot() {
    let mut s = UpdateSequence::new(100);
    // Already covered by the snapshot: dropped, nothing changes.
    assert_eq!(s.accept(90, 100), Ok(false));
    assert_eq!(s, UpdateSequence { last_update_id: 100, dirty: true });
    // Starts beyond the update right after the snapshot.
    assert_eq!(
        s.accept(102, 110),
        Err(SequenceError::AheadOfSnapshot { first_update_id: 102, last_update_id: 100 })
    );
    assert_eq!(s, UpdateSequence { last_update_id: 100, dirty: true });
    // Straddles the snapshot: applied.
    assert_eq!(s.accept(99, 105), Ok(true));
    assert_eq!(s, UpdateSequence { last_update_id: 105, dirty: false });
}

#[test]
fn later_events_must_be_contiguous() {
    let mut s = UpdateSequence::new(10);
    assert_eq!(s.accept(11, 11), Ok(true));
    assert_eq!(s.accept(12, 20), Ok(true));
    assert_eq!(s.last_update_id, 20);
    assert_eq!(s.accept(22, 25), Err(SequenceError::Gap { first_update_id: 22, last_update_id: 20 }));
    assert_eq!(s.accept(15, 25), Err(SequenceError::Gap { first_update_id: 15, last_update_id: 20 }));
    assert_eq!(s.accept(21, 21), Ok(true));
    assert_eq!(s, UpdateSequence { last_update_id: 21, dirty: false });
}

#[test]
fn snapshot_at_largest_id_drops_everything() {
    let mut s = UpdateSequence::new(u64::MAX);
    assert_eq!(s.accept(1, u64::MAX), Ok(false));
    assert_eq!(s, UpdateSequence::new(u64::MAX));
}
