use audio_core::borrow::BorrowLedger;

#[test]
fn write_fails_while_read_outstanding() {
    let mut ledger = BorrowLedger::new(3);
    let read = ledger.try_acquire_read(1).unwrap();
    assert_eq!(read.slot(), 1);
    // A write view cannot coexist with the read view.
    assert!(ledger.try_acquire_write(1).is_none());
    // Other slots are unaffected.
    let other = ledger.try_acquire_write(2).unwrap();
    assert_eq!(other.slot(), 2);
    // Releasing the read view allows a write view again.
    ledger.release_read(read);
    assert!(ledger.try_acquire_write(1).is_some());
}

#[test]
fn write_fails_while_write_outstanding() {
    let mut ledger = BorrowLedger::new(1);
    let w = ledger.try_acquire_write(0).unwrap();
    assert!(ledger.try_acquire_write(0).is_none());
    assert!(ledger.try_acquire_read(0).is_none());
    ledger.release_write(w);
    assert!(ledger.try_acquire_write(0).is_some());
}

#[test]
fn many_readers_may_coexist() {
    let mut ledger = BorrowLedger::new(1);
    let r1 = ledger.try_acquire_read(0).unwrap();
    let r2 = ledger.try_acquire_read(0).unwrap();
    let r3 = ledger.try_acquire_read(0).unwrap();
    assert!(ledger.try_acquire_write(0).is_none());
    ledger.release_read(r1);
    ledger.release_read(r2);
    // One reader still outstanding: the write view must still fail.
    assert!(ledger.try_acquire_write(0).is_none());
    ledger.release_read(r3);
    assert!(ledger.try_acquire_write(0).is_some());
}

#[test]
fn fresh_ledger_admits_any_claim() {
    let mut ledger = BorrowLedger::new(2);
    assert_eq!(ledger.slot_count(), 2);
    assert!(!ledger.state_of(0).writer);
    assert_eq!(ledger.state_of(0).readers, 0);
    let w = ledger.try_acquire_write(0).unwrap();
    let r = ledger.try_acquire_read(1).unwrap();
    ledger.release_write(w);
    ledger.release_read(r);
    assert_eq!(ledger.state_of(0).readers, 0);
    assert!(!ledger.state_of(1).writer);
}
