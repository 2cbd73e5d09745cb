use dantesync::pairer::SyncPairer;

#[test]
fn test_pair_produced_exactly_once() {
    let mut p = SyncPairer::new();
    p.record_sync(7, 1_000_000_000, 0xAABBCCDDEEFF);
    assert_eq!(p.len(), 1);

    // The matching FollowUp consumes the entry exactly once.
    let first = p.match_followup(7, 0xAABBCCDDEEFF);
    assert_eq!(first, Some(1_000_000_000));
    assert_eq!(p.len(), 0);

    // A second identical FollowUp finds nothing.
    let second = p.match_followup(7, 0xAABBCCDDEEFF);
    assert_eq!(second, None);
}

#[test]
fn test_duplicate_sync_supersedes() {
    let mut p = SyncPairer::new();
    p.record_sync(3, 100, 0x01);
    p.record_sync(3, 200, 0x01);
    assert_eq!(p.len(), 1);
    assert_eq!(p.match_followup(3, 0x01), Some(200));
}

#[test]
fn test_uuid_mismatch() {
    let mut p = SyncPairer::new();
    p.record_sync(9, 42, 0xAA);

    // FollowUp from another clock: nothing is emitted and the entry remains.
    assert_eq!(p.match_followup(9, 0xBB), None);
    assert_eq!(p.len(), 1);

    // The rightful FollowUp still completes the pair afterwards.
    assert_eq!(p.match_followup(9, 0xAA), Some(42));
}

#[test]
fn test_garbage_collection() {
    let mut p = SyncPairer::new();
    for sid in 0..150u16 {
        p.record_sync(sid, 0, 0x01);
    }
    assert_eq!(p.len(), 150);

    // Six seconds later every entry is older than the 5 s bound.
    p.gc(6_000_000_000);
    assert_eq!(p.len(), 0);
}

#[test]
fn test_gc_keeps_young_entries() {
    let mut p = SyncPairer::new();
    p.record_sync(1, 0, 0x01); // enqueued at t = 0
    p.record_sync(2, 4_000_000_000, 0x01); // enqueued at t = 4 s

    p.gc(5_000_000_000); // entry 1 is exactly 5 s old: evicted
    assert_eq!(p.len(), 1);
    assert_eq!(p.match_followup(2, 0x01), Some(4_000_000_000));
    assert_eq!(p.match_followup(1, 0x01), None);
}
