use yaay::dispatcher::{Dispatcher, IO_MUTED, IO_NOTIFIED};
use yaay::dispatcher_table::{DispatcherTable, Slot};

#[test]
fn dispatcher_wait_suspends_without_report() {
    let mut d = Dispatcher::new();
    assert_eq!(d.status(), IO_MUTED);
    assert!(d.wait_io());
    assert_eq!(d.status(), 0);
    // a report now wakes the suspended task
    assert!(d.notify());
    assert_eq!(d.status(), IO_MUTED | IO_NOTIFIED);
}

#[test]
fn dispatcher_report_before_wait_is_not_lost() {
    let mut d = Dispatcher::new();
    d.prepare_io();
    assert!(!d.notify());
    assert!(!d.wait_io());
    assert_eq!(d.status(), 3);
    d.prepare_io();
    assert_eq!(d.status(), 1);
}

#[test]
fn dispatcher_repeated_reports_wake_once() {
    let mut d = Dispatcher::from_status(0);
    assert!(d.notify());
    assert!(!d.notify());
}

#[test]
fn table_register_gives_fresh_keys() {
    let mut t = DispatcherTable::new();
    let a = t.register();
    let b = t.register();
    assert_ne!(a, b);
    let s = t.slot(a).unwrap();
    assert_eq!(s.readable_dispatcher, None);
    assert_eq!(s.writable_dispatcher, None);
    assert!(t.slot(b + 100).is_none());
}

#[test]
fn table_attach_and_notify() {
    let mut t = DispatcherTable::new();
    let k = t.register();
    t.attach(k, true, 10);
    t.attach(k, false, 20);
    let s: Slot = t.slot(k).unwrap();
    assert_eq!(s.readable_dispatcher, Some(10));
    assert_eq!(s.writable_dispatcher, Some(20));
    assert_eq!(t.notify_targets(k, true, true), (Some(10), Some(20)));
    assert_eq!(t.notify_targets(k, true, false), (Some(10), None));
    assert_eq!(t.notify_targets(k, false, true), (None, Some(20)));
    assert_eq!(t.notify_targets(k + 1, true, true), (None, None));
}

#[test]
fn table_detach_each_side() {
    let mut t = DispatcherTable::new();
    let k = t.register();
    t.attach(k, true, 10);
    t.attach(k, false, 20);
    t.detach(k, 20);
    assert_eq!(t.slot(k).unwrap().writable_dispatcher, None);
    assert_eq!(t.slot(k).unwrap().readable_dispatcher, Some(10));
    t.detach(k, 10);
    assert_eq!(t.slot(k).unwrap().readable_dispatcher, None);
}

#[test]
fn table_release_then_drain_removes_only_released() {
    let mut t = DispatcherTable::new();
    let a = t.register();
    let b = t.register();
    let c = t.register();
    t.attach(b, true, 1);
    assert!(t.can_release(a));
    assert!(!t.can_release(b));
    t.release(a);
    assert!(!t.can_release(a));
    assert!(t.can_release(c));
    t.release(c);
    // released keys stay until the event loop drains them
    assert!(t.slot(a).is_some());
    t.drain_deferred();
    assert!(t.slot(a).is_none());
    assert!(t.slot(c).is_none());
    assert_eq!(t.slot(b).unwrap().readable_dispatcher, Some(1));
    assert!(!t.can_release(a));
    // a freed key can be handed out again
    let d = t.register();
    assert!(d == a || d == c);
}
