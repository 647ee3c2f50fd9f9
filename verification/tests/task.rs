use yaay::task_list::TaskList;
use yaay::task_status::{RefCount, TaskStatus, DROPPED, MUTED, NOTIFIED};

fn drain(list: &mut TaskList<u32>) -> Vec<u32> {
    let mut out = vec![];
    while let Some(t) = list.pop_front() {
        out.push(t);
    }
    out
}

#[test]
fn task_list_fifo_order() {
    let mut l = TaskList::new();
    assert!(l.is_empty());
    l.push_back(1);
    l.push_back(2);
    l.push_back(3);
    assert!(!l.is_empty());
    assert_eq!(l.pop_front(), Some(1));
    assert_eq!(drain(&mut l), vec![2, 3]);
    assert_eq!(l.pop_front(), None);
    assert!(l.is_empty());
}

#[test]
fn task_list_push_front_pops_first() {
    let mut l = TaskList::new();
    l.push_back(1);
    l.push_front(0);
    assert_eq!(l.pop_front(), Some(0));
    assert_eq!(l.next(), Some(1));
    assert_eq!(l.next(), None);
}

#[test]
fn task_list_batches() {
    let mut l = TaskList::new();
    l.push_back(3);
    let mut back = TaskList::new();
    back.push_back(4);
    back.push_back(5);
    l.push_back_batch(back);
    let mut front = TaskList::new();
    front.push_back(1);
    front.push_back(2);
    l.push_front_batch(front);
    l.push_front_batch(TaskList::new());
    l.push_back_batch(TaskList::new());
    assert_eq!(drain(&mut l), vec![1, 2, 3, 4, 5]);
}

#[test]
fn task_list_pop_all_empties() {
    let mut l = TaskList::new();
    l.push_back(7);
    l.push_back(8);
    let mut all = l.pop_all();
    assert!(l.is_empty());
    assert_eq!(drain(&mut all), vec![7, 8]);
    let mut none = l.pop_all();
    assert!(none.is_empty());
    assert_eq!(none.pop_front(), None);
}

#[test]
fn task_status_bits() {
    assert_eq!(MUTED, 1);
    assert_eq!(NOTIFIED, 2);
    assert_eq!(DROPPED, 4);
    assert_eq!(TaskStatus::new().bits(), 3);
}

#[test]
fn task_status_wake_from_idle_schedules_once() {
    let mut s = TaskStatus::from_bits(0);
    assert!(s.wake());
    assert_eq!(s.bits(), 3);
    assert!(!s.wake());
    assert_eq!(s.bits(), 3);
}

#[test]
fn task_status_new_task_is_not_requeued() {
    let mut s = TaskStatus::new();
    assert!(!s.wake());
}

#[test]
fn task_status_poll_cycle_without_wake() {
    let mut s = TaskStatus::new();
    s.begin_poll();
    assert_eq!(s.bits(), MUTED);
    assert!(!s.finish_pending());
    assert_eq!(s.bits(), 0);
    assert!(s.wake());
}

#[test]
fn task_status_wake_during_poll_repolls() {
    let mut s = TaskStatus::new();
    s.begin_poll();
    assert!(!s.wake());
    assert!(s.finish_pending());
    assert_eq!(s.bits(), MUTED);
    assert!(!s.finish_pending());
    assert_eq!(s.bits(), 0);
}

#[test]
fn task_status_dropped_never_scheduled() {
    let mut s = TaskStatus::from_bits(0);
    assert!(s.mark_dropped());
    assert_eq!(s.bits(), DROPPED);
    assert!(!s.wake());
    assert_eq!(s.bits(), DROPPED | MUTED | NOTIFIED);
    assert!(!s.mark_dropped());
}

#[test]
fn ref_count_releases_at_last_reference() {
    let mut rc = RefCount::new();
    assert_eq!(rc.get(), 1);
    rc.rc_inc();
    assert_eq!(rc.get(), 2);
    assert!(!rc.rc_dec());
    assert_eq!(rc.get(), 1);
    assert!(rc.rc_dec());
    assert_eq!(rc.get(), 0);
    let mut big = RefCount::from_count(usize::MAX);
    big.rc_inc();
    assert_eq!(big.get(), 0);
}
