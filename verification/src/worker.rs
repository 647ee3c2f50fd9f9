use crate::rng::{next_seed, spec_next_seed};
use crate::task_list::TaskList;
use vstd::prelude::*;

verus! {

/// Index, among the other workers, of the worker to steal from: the seed
/// modulo the number of other workers.
pub fn steal_victim(seed: u32, n_workers: u32) -> (r: u32)
    requires
        n_workers >= 2,
    ensures
        r == seed % ((n_workers - 1) as u32),
        r < n_workers - 1,
{
    seed % (n_workers - 1)
}

/// The seed after a steal attempt: kept when a task was found, advanced
/// otherwise so that the next attempt picks another victim.
pub fn seed_after_steal(seed: u32, found: bool) -> (r: u32)
    ensures
        r == (if found { seed } else { spec_next_seed(seed) }),
{
    if found {
        seed
    } else {
        next_seed(seed)
    }
}

/// The handles of all workers but `worker_id`, in their order.
pub fn other_workers<T: Copy>(workers: &Vec<T>, worker_id: usize) -> (r: Vec<T>)
    requires
        worker_id < workers@.len(),
    ensures
        r@ == workers@.remove(worker_id as int),
{
    let mut r: Vec<T> = Vec::new();
    let mut j: usize = 0;
    while j < workers.len()
        invariant
            worker_id < workers@.len(),
            0 <= j <= workers@.len(),
            j <= worker_id ==> r@ == workers@.subrange(0, j as int),
            j > worker_id ==> r@ == workers@.subrange(0, worker_id as int) + workers@.subrange(
                worker_id + 1,
                j as int,
            ),
        decreases workers@.len() - j,
    {
        if j != worker_id {
            r.push(workers[j]);
        }
        proof {
            if j + 1 <= worker_id {
                assert(r@ =~= workers@.subrange(0, j + 1));
            } else if j == worker_id {
                assert(workers@.subrange(worker_id + 1, j + 1) =~= Seq::<T>::empty());
                assert(r@ =~= workers@.subrange(0, worker_id as int) + workers@.subrange(
                    worker_id + 1,
                    j + 1,
                ));
            } else {
                assert(r@ =~= workers@.subrange(0, worker_id as int) + workers@.subrange(
                    worker_id + 1,
                    j + 1,
                ));
            }
        }
        j = j + 1;
    }
    proof {
        assert(r@ =~= workers@.remove(worker_id as int));
    }
    r
}

/// The indices, in order, of the other workers that are not shut down yet:
/// each of them gets a shutdown task.
pub fn shutdown_targets(shut_down: &Vec<bool>) -> (r: Vec<usize>)
    ensures
        r@.len() <= shut_down@.len(),
        forall|i: int| 0 <= i < r@.len() ==> #[trigger] r@[i] < shut_down@.len() && !shut_down@[r@[i] as int],
        forall|i: int, j: int| 0 <= i < j < r@.len() ==> r@[i] < r@[j],
        forall|k: int| 0 <= k < shut_down@.len() && !shut_down@[k] ==> r@.contains(k as usize),
{
    let mut r: Vec<usize> = Vec::new();
    let mut k: usize = 0;
    while k < shut_down.len()
        invariant
            0 <= k <= shut_down@.len(),
            r@.len() <= k,
            forall|i: int| 0 <= i < r@.len() ==> #[trigger] r@[i] < k && !shut_down@[r@[i] as int],
            forall|i: int, j: int| 0 <= i < j < r@.len() ==> r@[i] < r@[j],
            forall|m: int| 0 <= m < k && !shut_down@[m] ==> r@.contains(m as usize),
        decreases shut_down@.len() - k,
    {
        if !shut_down[k] {
            let ghost old_r = r@;
            r.push(k);
            proof {
                assert(r@[r@.len() - 1] == k);
                assert forall|m: int| 0 <= m < k + 1 && !shut_down@[m] implies r@.contains(m as usize) by {
                    if m < k {
                        assert(old_r.contains(m as usize));
                        let i = choose|i: int| 0 <= i < old_r.len() && old_r[i] == m as usize;
                        assert(r@[i] == m as usize);
                    } else {
                        assert(r@[r@.len() - 1] == m as usize);
                    }
                }
            }
        }
        k = k + 1;
    }
    r
}

/// Where a woken task goes.
pub enum WakeRoute {
    /// Into the waking thread's batch list for the task's worker; the batch
    /// is pushed, with one new epoch, later.
    LocalBatch,
    /// Straight into the worker's queue, followed by a new epoch.
    WorkerQueue,
}

/// A woken task goes to the waking thread's batch when that thread collects
/// one, and otherwise to its worker's queue.
pub fn wake_route(collects_batch: bool) -> (r: WakeRoute)
    ensures
        collects_batch ==> r is LocalBatch,
        !collects_batch ==> r is WorkerQueue,
{
    if collects_batch {
        WakeRoute::LocalBatch
    } else {
        WakeRoute::WorkerQueue
    }
}

/// An event loop pushes its batch to the workers only after a poll that
/// returned events: only then can it have woken tasks.
pub fn should_push_batch(n_events: usize) -> (r: bool)
    ensures
        r == (n_events > 0),
{
    n_events > 0
}

/// Event-loop thread that serves the next registered source, round robin
/// over `n_loops` threads.
pub fn pick_event_loop(counter: usize, n_loops: usize) -> (r: usize)
    requires
        n_loops > 0,
    ensures
        r == counter % n_loops,
        r < n_loops,
{
    counter % n_loops
}

/// A worker-local list per worker, all empty: where a thread collects the
/// tasks it wakes, to push them to the workers in batches.
pub fn new_local_lists<T>(n_workers: usize) -> (r: Vec<TaskList<T>>)
    ensures
        r@.len() == n_workers,
        forall|i: int| 0 <= i < n_workers ==> (#[trigger] r@[i])@ == Seq::<T>::empty(),
{
    let mut r: Vec<TaskList<T>> = Vec::new();
    let mut i: usize = 0;
    while i < n_workers
        invariant
            0 <= i <= n_workers,
            r@.len() == i,
            forall|j: int| 0 <= j < i ==> (#[trigger] r@[j])@ == Seq::<T>::empty(),
        decreases n_workers - i,
    {
        r.push(TaskList::new());
        i = i + 1;
    }
    r
}

/// All tasks of all lists, in list order, leaving every list empty.
pub open spec fn concat_lists<T>(lists: Seq<TaskList<T>>) -> Seq<T>
    decreases lists.len(),
{
    if lists.len() == 0 {
        Seq::empty()
    } else {
        concat_lists(lists.drop_last()) + lists.last()@
    }
}

/// Takes every task out of `lists` into one list, in list order, and leaves
/// each list empty (what shutting the runtime down does with the queues).
pub fn drain_all<T>(lists: &mut Vec<TaskList<T>>) -> (r: TaskList<T>)
    ensures
        r@ == concat_lists(old(lists)@),
        final(lists)@.len() == old(lists)@.len(),
        forall|i: int| 0 <= i < final(lists)@.len() ==> (#[trigger] final(lists)@[i])@ == Seq::<T>::empty(),
{
    let mut r: TaskList<T> = TaskList::new();
    let ghost orig = lists@;
    let mut i: usize = 0;
    while i < lists.len()
        invariant
            lists@.len() == orig.len(),
            0 <= i <= lists@.len(),
            r@ == concat_lists(orig.subrange(0, i as int)),
            forall|j: int| 0 <= j < i ==> (#[trigger] lists@[j])@ == Seq::<T>::empty(),
            forall|j: int| i <= j < lists@.len() ==> #[trigger] lists@[j] == orig[j],
        decreases lists@.len() - i,
    {
        let tasks = lists[i].pop_all();
        proof {
            assert(orig.subrange(0, i + 1).drop_last() =~= orig.subrange(0, i as int));
        }
        r.push_back_batch(tasks);
        i = i + 1;
    }
    proof {
        assert(orig.subrange(0, orig.len() as int) =~= orig);
    }
    r
}

/// Takes the tasks a thread collected for each worker: one batch per worker
/// whose list is not empty, in worker order, each with that worker's index.
/// Every list is left empty. An empty result means that nothing was pushed,
/// so no new epoch is needed.
pub fn take_batches<T>(lists: &mut Vec<TaskList<T>>) -> (r: Vec<(usize, TaskList<T>)>)
    ensures
        final(lists)@.len() == old(lists)@.len(),
        forall|i: int| 0 <= i < final(lists)@.len() ==> (#[trigger] final(lists)@[i])@ == Seq::<T>::empty(),
        forall|k: int| 0 <= k < r@.len() ==> {
            &&& #[trigger] r@[k].0 < old(lists)@.len()
            &&& r@[k].1@ == old(lists)@[r@[k].0 as int]@
            &&& r@[k].1@.len() > 0
        },
        forall|k: int, l: int| 0 <= k < l < r@.len() ==> r@[k].0 < r@[l].0,
        forall|i: int| 0 <= i < old(lists)@.len() && (#[trigger] old(lists)@[i])@.len() > 0
            ==> exists|k: int| 0 <= k < r@.len() && r@[k].0 == i,
{
    let ghost orig = lists@;
    let mut r: Vec<(usize, TaskList<T>)> = Vec::new();
    let mut i: usize = 0;
    while i < lists.len()
        invariant
            lists@.len() == orig.len(),
            0 <= i <= lists@.len(),
            forall|j: int| 0 <= j < i ==> (#[trigger] lists@[j])@ == Seq::<T>::empty(),
            forall|j: int| i <= j < lists@.len() ==> #[trigger] lists@[j] == orig[j],
            forall|k: int| 0 <= k < r@.len() ==> {
                &&& #[trigger] r@[k].0 < i
                &&& r@[k].1@ == orig[r@[k].0 as int]@
                &&& r@[k].1@.len() > 0
            },
            forall|k: int, l: int| 0 <= k < l < r@.len() ==> r@[k].0 < r@[l].0,
            forall|j: int| 0 <= j < i && (#[trigger] orig[j])@.len() > 0
                ==> exists|k: int| 0 <= k < r@.len() && r@[k].0 == j,
        decreases lists@.len() - i,
    {
        if !lists[i].is_empty() {
            let tasks = lists[i].pop_all();
            let ghost old_r = r@;
            r.push((i, tasks));
            proof {
                assert(r@[r@.len() - 1].0 == i);
                assert forall|j: int| 0 <= j < i + 1 && (#[trigger] orig[j])@.len() > 0
                    implies exists|k: int| 0 <= k < r@.len() && r@[k].0 == j by {
                    if j < i {
                        let k = choose|k: int| 0 <= k < old_r.len() && old_r[k].0 == j;
                        assert(r@[k].0 == j);
                    } else {
                        assert(r@[r@.len() - 1].0 == j);
                    }
                }
            }
        }
        i = i + 1;
    }
    r
}

/// The handles of the workers of a runtime as their threads register them:
/// one place per worker, empty until that worker's thread has built it.
pub struct WorkerSlots<T> {
    slots: Vec<Option<T>>,
}

impl<T: Copy> WorkerSlots<T> {
    /// The places, in worker order.
    pub closed spec fn view(&self) -> Seq<Option<T>> {
        self.slots@
    }

    /// Whether every worker has registered.
    pub open spec fn spec_all_registered(&self) -> bool {
        forall|i: int| 0 <= i < self@.len() ==> (#[trigger] self@[i]) is Some
    }

    /// `n_workers` empty places.
    pub fn new(n_workers: usize) -> (r: WorkerSlots<T>)
        ensures
            r@.len() == n_workers,
            forall|i: int| 0 <= i < n_workers ==> (#[trigger] r@[i]) is None,
    {
        let mut slots: Vec<Option<T>> = Vec::new();
        let mut i: usize = 0;
        while i < n_workers
            invariant
                0 <= i <= n_workers,
                slots@.len() == i,
                forall|j: int| 0 <= j < i ==> (#[trigger] slots@[j]) is None,
            decreases n_workers - i,
        {
            slots.push(None);
            i = i + 1;
        }
        WorkerSlots { slots }
    }

    /// Whether every worker has registered.
    pub fn all_registered(&self) -> (r: bool)
        ensures
            r == self.spec_all_registered(),
    {
        let mut i: usize = 0;
        while i < self.slots.len()
            invariant
                0 <= i <= self@.len(),
                forall|j: int| 0 <= j < i ==> (#[trigger] self@[j]) is Some,
            decreases self@.len() - i,
        {
            if self.slots[i].is_none() {
                return false;
            }
            i = i + 1;
        }
        true
    }

    /// Whether `worker_id` names a worker that has not registered yet.
    pub fn is_free(&self, worker_id: usize) -> (r: bool)
        ensures
            r == (worker_id < self@.len() && self@[worker_id as int] is None),
    {
        worker_id < self.slots.len() && self.slots[worker_id].is_none()
    }

    /// Worker `worker_id` registers its handle; a worker registers once.
    /// Returns whether every worker has now registered, which is when the
    /// waiting threads are told to go on.
    pub fn register(&mut self, worker_id: usize, worker: T) -> (all: bool)
        requires
            worker_id < old(self)@.len(),
            old(self)@[worker_id as int] is None,
        ensures
            final(self)@ == old(self)@.update(worker_id as int, Some(worker)),
            all == final(self).spec_all_registered(),
    {
        self.slots.set(worker_id, Some(worker));
        self.all_registered()
    }

    /// All handles in worker order, once every worker has registered.
    pub fn workers(&self) -> (r: Option<Vec<T>>)
        ensures
            self.spec_all_registered() ==> r is Some && r->Some_0@.len() == self@.len()
                && forall|i: int| 0 <= i < self@.len() ==> self@[i] == Some(#[trigger] r->Some_0@[i]),
            !self.spec_all_registered() ==> r is None,
    {
        let mut r: Vec<T> = Vec::new();
        let mut i: usize = 0;
        while i < self.slots.len()
            invariant
                0 <= i <= self@.len(),
                r@.len() == i,
                forall|j: int| 0 <= j < i ==> self@[j] == Some(#[trigger] r@[j]),
            decreases self@.len() - i,
        {
            match self.slots[i] {
                Some(w) => r.push(w),
                None => return None,
            }
            i = i + 1;
        }
        assert forall|j: int| 0 <= j < self@.len() implies (#[trigger] self@[j]) is Some by {
            assert(self@[j] == Some(r@[j]));
        }
        Some(r)
    }
}

/// How many workers have finished building; the runtime starts when all have.
pub struct BuildProgress {
    n_workers: u32,
    n_built: u32,
}

impl BuildProgress {
    /// The number of workers.
    pub closed spec fn spec_n_workers(&self) -> u32 {
        self.n_workers
    }

    /// The number of workers built so far.
    pub closed spec fn spec_n_built(&self) -> u32 {
        self.n_built
    }

    /// No worker built yet, out of `n_workers`.
    pub fn new(n_workers: u32) -> (r: BuildProgress)
        ensures
            r.spec_n_workers() == n_workers,
            r.spec_n_built() == 0,
    {
        BuildProgress { n_workers, n_built: 0 }
    }

    /// One more worker is built. Returns whether it was the last one, which
    /// is when the waiting threads are told to go on.
    pub fn built_one(&mut self) -> (last: bool)
        requires
            old(self).spec_n_built() < old(self).spec_n_workers(),
        ensures
            final(self).spec_n_workers() == old(self).spec_n_workers(),
            final(self).spec_n_built() == old(self).spec_n_built() + 1,
            last == (final(self).spec_n_built() == final(self).spec_n_workers()),
    {
        self.n_built = self.n_built + 1;
        self.n_built == self.n_workers
    }

    /// Whether every worker is built.
    pub fn all_built(&self) -> (r: bool)
        ensures
            r == (self.spec_n_built() == self.spec_n_workers()),
    {
        self.n_built == self.n_workers
    }
}

} // verus!
