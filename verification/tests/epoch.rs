use yaay::epoch::{Epoch, ACTIVE_COUNT_BITS, ACTIVE_COUNT_MASK, EPOCH, MAX_DURATION_NANOS};

#[test]
fn epoch_new_packs_thread_count() {
    let e = Epoch::new(4);
    assert_eq!(e.get_status(), 4);
    assert_eq!(Epoch::active_count(e.get_status()), 4);
    assert_eq!(Epoch::epoch(e.get_status()), 0);
}

#[test]
fn epoch_layout_constants() {
    assert_eq!(ACTIVE_COUNT_BITS, 9);
    assert_eq!(ACTIVE_COUNT_MASK, 511);
    assert_eq!(EPOCH, 512);
    assert_eq!(MAX_DURATION_NANOS, 1_000_000);
}

#[test]
fn epoch_status_decomposes() {
    let status = 7 * 512 + 3;
    assert_eq!(Epoch::active_count(status), 3);
    assert_eq!(Epoch::epoch(status), 7);
    assert_eq!(Epoch::active_count(u32::MAX), 511);
    assert_eq!(Epoch::epoch(u32::MAX), (1 << 23) - 1);
}

#[test]
fn epoch_set_inactive_then_active_restores() {
    let mut e = Epoch::new(2);
    assert_eq!(e.set_inactive(), 1);
    assert_eq!(e.set_inactive(), 0);
    // from 0 active workers, the first one to become active wakes all parked ones
    assert_eq!(e.set_active(), (1, true));
    assert_eq!(e.set_active(), (2, false));
    assert_eq!(e.get_status(), 2);
}

#[test]
fn epoch_next_epoch_keeps_active_count() {
    let mut e = Epoch::new(3);
    assert!(!e.next_epoch());
    assert_eq!(Epoch::active_count(e.get_status()), 3);
    assert_eq!(Epoch::epoch(e.get_status()), 1);
    let mut idle = Epoch::new(0);
    assert!(idle.next_epoch());
    assert_eq!(Epoch::active_count(idle.get_status()), 0);
    assert_eq!(Epoch::epoch(idle.get_status()), 1);
}

#[test]
fn epoch_counter_wraps_without_touching_count() {
    let mut e = Epoch::from_status(u32::MAX - 511 + 5);
    assert_eq!(Epoch::epoch(e.get_status()), (1 << 23) - 1);
    e.next_epoch();
    assert_eq!(Epoch::epoch(e.get_status()), 0);
    assert_eq!(Epoch::active_count(e.get_status()), 5);
}

#[test]
fn epoch_set_inactive_wraps_like_the_counter() {
    let mut e = Epoch::from_status(0);
    assert_eq!(e.set_inactive(), u32::MAX);
    assert_eq!(e.set_active(), (0, false));
}

#[test]
fn epoch_wait_and_park_checks() {
    let e = Epoch::from_status(1024);
    assert!(e.should_wait(1024));
    assert!(!e.should_wait(512));
    assert!(e.may_park(1024, 0));
    assert!(e.may_park(1024, 1_000_000));
    assert!(!e.may_park(1024, 1_000_001));
    assert!(!e.may_park(512, 10));
}
