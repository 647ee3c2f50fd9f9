use yaay::task_list::TaskList;
use yaay::worker::{
    should_push_batch, wake_route, BuildProgress, WakeRoute, WorkerSlots,
    drain_all, new_local_lists, other_workers, pick_event_loop, seed_after_steal, shutdown_targets,
    steal_victim, take_batches,
};
use yaay::worker_loop::{WorkerAction, WorkerEvent, WorkerState};

#[test]
fn steal_victim_is_seed_modulo_others() {
    assert_eq!(steal_victim(10, 4), 1);
    assert_eq!(steal_victim(0, 2), 0);
    assert_eq!(steal_victim(u32::MAX, 8), u32::MAX % 7);
}

#[test]
fn seed_advances_only_on_failed_steal() {
    assert_eq!(seed_after_steal(1, true), 1);
    assert_eq!(seed_after_steal(1, false), 1078337569);
}

#[test]
fn other_workers_skips_self() {
    let ws = vec![10, 11, 12, 13];
    assert_eq!(other_workers(&ws, 0), vec![11, 12, 13]);
    assert_eq!(other_workers(&ws, 2), vec![10, 11, 13]);
    assert_eq!(other_workers(&ws, 3), vec![10, 11, 12]);
    assert_eq!(other_workers(&vec![5], 0), Vec::<i32>::new());
}

#[test]
fn shutdown_targets_lists_running_workers() {
    assert_eq!(shutdown_targets(&vec![false, true, false]), vec![0, 2]);
    assert_eq!(shutdown_targets(&vec![true, true]), Vec::<usize>::new());
    assert_eq!(shutdown_targets(&vec![]), Vec::<usize>::new());
}

#[test]
fn pick_event_loop_round_robin() {
    assert_eq!(pick_event_loop(0, 3), 0);
    assert_eq!(pick_event_loop(4, 3), 1);
    assert_eq!(pick_event_loop(5, 1), 0);
}

fn contents(mut l: TaskList<u32>) -> Vec<u32> {
    let mut v = vec![];
    while let Some(t) = l.pop_front() {
        v.push(t);
    }
    v
}

#[test]
fn take_batches_per_non_empty_worker() {
    let mut lists: Vec<TaskList<u32>> = new_local_lists(3);
    assert_eq!(lists.len(), 3);
    assert!(lists.iter().all(|l| l.is_empty()));
    lists[0].push_back(1);
    lists[2].push_back(2);
    lists[2].push_back(3);
    let batches = take_batches(&mut lists);
    assert_eq!(batches.len(), 2);
    let mut it = batches.into_iter();
    let (w0, b0) = it.next().unwrap();
    let (w2, b2) = it.next().unwrap();
    assert_eq!((w0, contents(b0)), (0, vec![1]));
    assert_eq!((w2, contents(b2)), (2, vec![2, 3]));
    assert!(lists.iter().all(|l| l.is_empty()));
    assert!(take_batches(&mut lists).is_empty());
}

#[test]
fn drain_all_concatenates_in_worker_order() {
    let mut lists: Vec<TaskList<u32>> = new_local_lists(3);
    lists[0].push_back(1);
    lists[1].push_back(2);
    lists[1].push_back(3);
    lists[2].push_back(4);
    let all = drain_all(&mut lists);
    assert_eq!(contents(all), vec![1, 2, 3, 4]);
    assert!(lists.iter().all(|l| l.is_empty()));
}

fn is(a: WorkerAction, b: &str) -> bool {
    let name = match a {
        WorkerAction::PopLocal => "pop",
        WorkerAction::PollTask => "poll",
        WorkerAction::SetInactive => "inactive",
        WorkerAction::TrySteal => "steal",
        WorkerAction::WaitNextEpoch { .. } => "wait",
        WorkerAction::ReadStatus => "read",
        WorkerAction::SetActive => "active",
        WorkerAction::Exit => "exit",
    };
    name == b
}

#[test]
fn worker_loop_drains_then_polls() {
    let (s, a) = WorkerState::start();
    assert!(is(a, "pop"));
    let ev = WorkerEvent::Popped { found: true };
    assert!(s.accepts(ev));
    let (s, a) = s.step(ev);
    assert!(is(a, "poll"));
    let (s, a) = s.step(WorkerEvent::Polled { shutdown: false });
    assert!(is(a, "pop"));
    let (s, a) = s.step(WorkerEvent::Popped { found: false });
    assert!(is(a, "inactive"));
    assert!(!s.accepts(WorkerEvent::Waited));
}

#[test]
fn worker_loop_steals_while_others_active() {
    let (s, _) = WorkerState::start();
    let (s, _) = s.step(WorkerEvent::Popped { found: false });
    let (s, a) = s.step(WorkerEvent::WentInactive { status: 512 * 3 + 2 });
    assert!(is(a, "steal"));
    let (s2, a2) = s.step(WorkerEvent::Stolen { found: true });
    assert!(is(a2, "active"));
    let (_, a3) = s2.step(WorkerEvent::WentActive);
    assert!(is(a3, "poll"));
    let (s, a) = s.step(WorkerEvent::Stolen { found: false });
    assert!(is(a, "read"));
    // same epoch, nobody active any more: recheck the own queue
    let (s, a) = s.step(WorkerEvent::StatusRead { status: 512 * 3 });
    assert!(is(a, "pop"));
    let (s, a) = s.step(WorkerEvent::Popped { found: false });
    match a {
        WorkerAction::WaitNextEpoch { old_status } => assert_eq!(old_status, 512 * 3),
        _ => panic!("expected a wait"),
    }
    let (s, a) = s.step(WorkerEvent::Waited);
    assert!(is(a, "read"));
    // the epoch moved: look at the own queue before anything else
    let (s, a) = s.step(WorkerEvent::StatusRead { status: 512 * 4 });
    assert!(is(a, "pop"));
    let (_, a) = s.step(WorkerEvent::Popped { found: false });
    assert!(is(a, "pop"));
}

#[test]
fn worker_loop_exits_on_shutdown() {
    let (s, _) = WorkerState::start();
    let (s, _) = s.step(WorkerEvent::Popped { found: true });
    let (s, a) = s.step(WorkerEvent::Polled { shutdown: true });
    assert!(is(a, "exit"));
    assert!(!s.accepts(WorkerEvent::Popped { found: true }));
}

#[test]
fn worker_slots_report_when_all_registered() {
    let mut slots: WorkerSlots<u32> = WorkerSlots::new(3);
    assert!(!slots.all_registered());
    assert!(slots.workers().is_none());
    assert!(slots.is_free(2));
    assert!(!slots.is_free(3));
    assert!(!slots.register(2, 20));
    assert!(!slots.is_free(2));
    assert!(!slots.register(0, 0));
    assert!(slots.workers().is_none());
    assert!(slots.register(1, 10));
    assert!(slots.all_registered());
    assert_eq!(slots.workers(), Some(vec![0, 10, 20]));
}

#[test]
fn build_progress_last_worker() {
    let mut p = BuildProgress::new(2);
    assert!(!p.all_built());
    assert!(!p.built_one());
    assert!(p.built_one());
    assert!(p.all_built());
}

#[test]
fn wake_route_and_batch_push() {
    assert!(matches!(wake_route(true), WakeRoute::LocalBatch));
    assert!(matches!(wake_route(false), WakeRoute::WorkerQueue));
    assert!(should_push_batch(3));
    assert!(!should_push_batch(0));
}
