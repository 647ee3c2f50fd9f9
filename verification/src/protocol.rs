use vstd::prelude::*;

verus! {

/// A status (active count, epoch) as a worker saw it. The model counts the
/// epoch without bound: the packed 23-bit counter can come back to an old
/// value only after 2^23 epochs, which the age check on parking rules out.
pub struct Seen {
    pub active: nat,
    pub epoch: nat,
}

/// Where a worker stands, for the parking protocol.
pub enum Phase {
    /// Active: counted in the active count, polling its own queue.
    Running,
    /// Inactive, having seen the status `Seen`; stealing or rechecking.
    Searching(Seen),
    /// Inactive, holding a task it popped or stole, not yet active again.
    Holding,
    /// Inactive, saw no active worker, and found its own queue empty on the
    /// recheck; about to park if the status is still the one it saw.
    Armed(Seen),
    /// Parked until a wake-up.
    Parked(Seen),
}

/// The runtime as the parking protocol sees it: the epoch, each worker's
/// phase, the tasks in each worker's queue, and for each queue the pushes
/// whose producer has not started the next epoch yet.
pub struct System {
    pub epoch: nat,
    pub phases: Seq<Phase>,
    pub queues: Seq<nat>,
    pub pending: Seq<nat>,
}

/// The number of active workers.
pub open spec fn running_count(phases: Seq<Phase>) -> nat
    decreases phases.len(),
{
    if phases.len() == 0 {
        0
    } else {
        running_count(phases.drop_last()) + (if phases.last() is Running { 1nat } else { 0nat })
    }
}

/// The active count of the status word.
pub open spec fn active(s: System) -> nat {
    running_count(s.phases)
}

/// Every parked worker goes back to searching: what `unpark_all` does.
pub open spec fn unpark_all(phases: Seq<Phase>) -> Seq<Phase> {
    Seq::new(
        phases.len(),
        |i: int|
            match phases[i] {
                Phase::Parked(seen) => Phase::Searching(seen),
                p => p,
            },
    )
}

/// A worker becomes active; when none was active, every parked worker is
/// woken (as `Epoch::set_active` asks).
pub open spec fn activate(phases: Seq<Phase>, w: int) -> Seq<Phase> {
    if running_count(phases) == 0 {
        unpark_all(phases).update(w, Phase::Running)
    } else {
        phases.update(w, Phase::Running)
    }
}

/// One atomic step of some thread.
pub enum Step {
    /// A producer pushes a task to queue `target`.
    Push { target: int },
    /// A producer starts the next epoch after its pushes; the pushes to the
    /// queues in `cleared` are now published. When no worker is active,
    /// every parked worker is woken (as `Epoch::next_epoch` asks).
    Publish { cleared: Set<int> },
    /// An active worker pops and polls a task of its own queue.
    Drain { w: int },
    /// An active worker pushes a deferred task to its own queue.
    Defer { w: int },
    /// An active worker becomes inactive and sees the new status.
    GoInactive { w: int },
    /// A searching worker reads the status afresh.
    Refresh { w: int },
    /// A searching worker pops its own queue: it holds the task it found,
    /// or, when it saw no active worker, it is armed to park.
    PopLocal { w: int },
    /// A searching worker steals a task from worker `v`.
    Steal { w: int, v: int },
    /// A worker holding a task becomes active.
    Activate { w: int },
    /// An armed worker parks: the parking lot checks that the status is
    /// still the one it saw (as `Epoch::may_park` asks).
    Park { w: int },
    /// An armed worker does not park (the status changed, or its view was
    /// too old) and searches again.
    SkipPark { w: int },
}

/// Whether `t` follows `s` by `step`.
pub open spec fn next_by(s: System, t: System, step: Step) -> bool {
    let n = s.phases.len();
    match step {
        Step::Push { target } => {
            &&& 0 <= target < n
            &&& t == System {
                queues: s.queues.update(target, s.queues[target] + 1),
                pending: s.pending.update(target, s.pending[target] + 1),
                ..s
            }
        },
        Step::Publish { cleared } => {
            &&& t.epoch == s.epoch + 1
            &&& t.queues == s.queues
            &&& t.pending.len() == n
            &&& forall|i: int| 0 <= i < n ==> #[trigger] t.pending[i] == (if cleared.contains(i) { 0 } else { s.pending[i] })
            &&& t.phases == (if active(s) == 0 { unpark_all(s.phases) } else { s.phases })
        },
        Step::Drain { w } => {
            &&& 0 <= w < n
            &&& s.phases[w] is Running
            &&& s.queues[w] > 0
            &&& t == System { queues: s.queues.update(w, (s.queues[w] - 1) as nat), ..s }
        },
        Step::Defer { w } => {
            &&& 0 <= w < n
            &&& s.phases[w] is Running
            &&& t == System { queues: s.queues.update(w, s.queues[w] + 1), ..s }
        },
        Step::GoInactive { w } => {
            &&& 0 <= w < n
            &&& s.phases[w] is Running
            &&& t == System {
                phases: s.phases.update(
                    w,
                    Phase::Searching(Seen { active: (active(s) - 1) as nat, epoch: s.epoch }),
                ),
                ..s
            }
        },
        Step::Refresh { w } => {
            &&& 0 <= w < n
            &&& s.phases[w] is Searching
            &&& t == System {
                phases: s.phases.update(w, Phase::Searching(Seen { active: active(s), epoch: s.epoch })),
                ..s
            }
        },
        Step::PopLocal { w } => {
            &&& 0 <= w < n
            &&& s.phases[w] matches Phase::Searching(seen)
            &&& if s.queues[w] > 0 {
                t == System {
                    phases: s.phases.update(w, Phase::Holding),
                    queues: s.queues.update(w, (s.queues[w] - 1) as nat),
                    ..s
                }
            } else if seen.active == 0 {
                t == System { phases: s.phases.update(w, Phase::Armed(seen)), ..s }
            } else {
                t == s
            }
        },
        Step::Steal { w, v } => {
            &&& 0 <= w < n
            &&& 0 <= v < n
            &&& s.phases[w] is Searching
            &&& s.queues[v] > 0
            &&& t == System {
                phases: s.phases.update(w, Phase::Holding),
                queues: s.queues.update(v, (s.queues[v] - 1) as nat),
                ..s
            }
        },
        Step::Activate { w } => {
            &&& 0 <= w < n
            &&& s.phases[w] is Holding
            &&& t == System { phases: activate(s.phases, w), ..s }
        },
        Step::Park { w } => {
            &&& 0 <= w < n
            &&& s.phases[w] matches Phase::Armed(seen)
            &&& seen.active == active(s)
            &&& seen.epoch == s.epoch
            &&& t == System { phases: s.phases.update(w, Phase::Parked(seen)), ..s }
        },
        Step::SkipPark { w } => {
            &&& 0 <= w < n
            &&& s.phases[w] matches Phase::Armed(seen)
            &&& t == System { phases: s.phases.update(w, Phase::Searching(seen)), ..s }
        },
    }
}

/// A runtime that starts: every worker active, nothing pending, epoch 0.
pub open spec fn init(s: System, n: nat) -> bool {
    &&& s.epoch == 0
    &&& s.phases.len() == n
    &&& s.queues.len() == n
    &&& s.pending.len() == n
    &&& forall|i: int| 0 <= i < n ==> #[trigger] s.phases[i] is Running
    &&& forall|i: int| 0 <= i < n ==> #[trigger] s.pending[i] == 0
}

/// The invariant of the parking protocol.
pub open spec fn inv(s: System) -> bool {
    &&& s.queues.len() == s.phases.len()
    &&& s.pending.len() == s.phases.len()
    &&& forall|i: int| 0 <= i < s.phases.len() ==> inv_at(s, i)
}

/// What the invariant says of worker `i`. A worker armed to park either has
/// an empty queue, or a push to it is still unpublished, or the epoch has
/// moved on since it looked. A parked worker sees no active worker and the
/// epoch it saw, and its queue is empty unless a push to it is unpublished.
pub open spec fn inv_at(s: System, i: int) -> bool {
    match s.phases[i] {
        Phase::Searching(seen) => seen.epoch <= s.epoch,
        Phase::Armed(seen) => {
            &&& seen.epoch <= s.epoch
            &&& seen.active == 0
            &&& s.queues[i] == 0 || s.pending[i] > 0 || s.epoch > seen.epoch
        },
        Phase::Parked(seen) => {
            &&& seen.epoch == s.epoch
            &&& seen.active == 0
            &&& active(s) == 0
            &&& s.queues[i] == 0 || s.pending[i] > 0
        },
        _ => true,
    }
}

pub(crate) proof fn lemma_running_count_update(phases: Seq<Phase>, i: int, p: Phase)
    requires
        0 <= i < phases.len(),
    ensures
        running_count(phases.update(i, p)) + (if phases[i] is Running { 1int } else { 0int })
            == running_count(phases) + (if p is Running { 1int } else { 0int }),
    decreases phases.len(),
{
    let u = phases.update(i, p);
    if i == phases.len() - 1 {
        assert(u.drop_last() =~= phases.drop_last());
    } else {
        assert(u.drop_last() =~= phases.drop_last().update(i, p));
        lemma_running_count_update(phases.drop_last(), i, p);
    }
}

pub(crate) proof fn lemma_running_count_positive(phases: Seq<Phase>, i: int)
    requires
        0 <= i < phases.len(),
        phases[i] is Running,
    ensures
        running_count(phases) >= 1,
    decreases phases.len(),
{
    if i < phases.len() - 1 {
        lemma_running_count_positive(phases.drop_last(), i);
    }
}

pub(crate) proof fn lemma_running_count_unpark(phases: Seq<Phase>)
    ensures
        running_count(unpark_all(phases)) == running_count(phases),
    decreases phases.len(),
{
    if phases.len() > 0 {
        assert(unpark_all(phases).drop_last() =~= unpark_all(phases.drop_last()));
        lemma_running_count_unpark(phases.drop_last());
    }
}

pub(crate) proof fn lemma_no_parked_when_active(s: System)
    requires
        inv(s),
        active(s) > 0,
    ensures
        forall|i: int| 0 <= i < s.phases.len() ==> !(#[trigger] s.phases[i] is Parked),
{
    assert forall|i: int| 0 <= i < s.phases.len() implies !(#[trigger] s.phases[i] is Parked) by {
        assert(inv_at(s, i));
    }
}

/// A starting runtime satisfies the invariant.
pub proof fn lemma_init_inv(s: System, n: nat)
    requires
        init(s, n),
    ensures
        inv(s),
{
    assert forall|i: int| 0 <= i < s.phases.len() implies inv_at(s, i) by {
        assert(s.phases[i] is Running);
    }
}

/// Every step keeps the invariant.
pub proof fn lemma_step_inv(s: System, t: System, step: Step)
    requires
        inv(s),
        next_by(s, t, step),
    ensures
        inv(t),
{
    let n = s.phases.len();
    match step {
        Step::Push { target } => {
            assert forall|i: int| 0 <= i < n implies inv_at(t, i) by {
                assert(inv_at(s, i));
            }
        },
        Step::Publish { cleared } => {
            if active(s) == 0 {
                lemma_running_count_unpark(s.phases);
            } else {
                lemma_no_parked_when_active(s);
            }
            assert forall|i: int| 0 <= i < n implies inv_at(t, i) by {
                assert(inv_at(s, i));
            }
        },
        Step::Drain { w } => {
            assert forall|i: int| 0 <= i < n implies inv_at(t, i) by {
                assert(inv_at(s, i));
            }
        },
        Step::Defer { w } => {
            assert forall|i: int| 0 <= i < n implies inv_at(t, i) by {
                assert(inv_at(s, i));
            }
        },
        Step::GoInactive { w } => {
            lemma_running_count_positive(s.phases, w);
            lemma_no_parked_when_active(s);
            lemma_running_count_update(s.phases, w, t.phases[w]);
            assert forall|i: int| 0 <= i < n implies inv_at(t, i) by {
                assert(inv_at(s, i));
            }
        },
        Step::Refresh { w } => {
            lemma_running_count_update(s.phases, w, t.phases[w]);
            assert forall|i: int| 0 <= i < n implies inv_at(t, i) by {
                assert(inv_at(s, i));
            }
        },
        Step::PopLocal { w } => {
            lemma_running_count_update(s.phases, w, t.phases[w]);
            assert forall|i: int| 0 <= i < n implies inv_at(t, i) by {
                assert(inv_at(s, i));
            }
        },
        Step::Steal { w, v } => {
            lemma_running_count_update(s.phases, w, t.phases[w]);
            assert forall|i: int| 0 <= i < n implies inv_at(t, i) by {
                assert(inv_at(s, i));
            }
        },
        Step::Activate { w } => {
            if active(s) == 0 {
                lemma_running_count_unpark(s.phases);
                lemma_running_count_update(unpark_all(s.phases), w, Phase::Running);
            } else {
                lemma_no_parked_when_active(s);
                lemma_running_count_update(s.phases, w, Phase::Running);
            }
            lemma_running_count_positive(t.phases, w);
            assert forall|i: int| 0 <= i < n implies inv_at(t, i) by {
                assert(inv_at(s, i));
            }
        },
        Step::Park { w } => {
            lemma_running_count_update(s.phases, w, t.phases[w]);
            assert(inv_at(s, w));
            assert forall|i: int| 0 <= i < n implies inv_at(t, i) by {
                assert(inv_at(s, i));
            }
        },
        Step::SkipPark { w } => {
            lemma_running_count_update(s.phases, w, t.phases[w]);
            assert forall|i: int| 0 <= i < n implies inv_at(t, i) by {
                assert(inv_at(s, i));
            }
        },
    }
}

/// No deadlock: when every worker is parked and no push is waiting to be
/// published, every queue is empty. So while a queue holds a task, some
/// worker runs or will be woken.
pub proof fn lemma_all_parked_means_no_work(s: System)
    requires
        inv(s),
        forall|i: int| 0 <= i < s.phases.len() ==> #[trigger] s.phases[i] is Parked,
        forall|i: int| 0 <= i < s.pending.len() ==> #[trigger] s.pending[i] == 0,
    ensures
        forall|i: int| 0 <= i < s.queues.len() ==> #[trigger] s.queues[i] == 0,
{
    assert forall|i: int| 0 <= i < s.queues.len() implies #[trigger] s.queues[i] == 0 by {
        assert(inv_at(s, i));
        assert(s.phases[i] is Parked);
        assert(s.pending[i] == 0);
    }
}

/// A new epoch started while no worker is active wakes every parked worker.
pub proof fn lemma_publish_wakes_parked(s: System, t: System, cleared: Set<int>)
    requires
        inv(s),
        next_by(s, t, Step::Publish { cleared }),
        active(s) == 0,
    ensures
        forall|i: int| 0 <= i < t.phases.len() ==> !(#[trigger] t.phases[i] is Parked),
{
}

/// The first worker to become active wakes every parked worker; when some
/// worker is already active, none is parked.
pub proof fn lemma_activate_wakes_parked(s: System, t: System, w: int)
    requires
        inv(s),
        next_by(s, t, Step::Activate { w }),
    ensures
        forall|i: int| 0 <= i < t.phases.len() ==> !(#[trigger] t.phases[i] is Parked),
{
    if active(s) != 0 {
        lemma_no_parked_when_active(s);
    }
}

/// Parked workers and active workers never coexist: a worker becomes
/// active only by waking every parked worker, or while none is parked.
pub proof fn lemma_parked_only_when_none_active(s: System, i: int)
    requires
        inv(s),
        0 <= i < s.phases.len(),
        s.phases[i] is Parked,
    ensures
        active(s) == 0,
{
    assert(inv_at(s, i));
}

} // verus!
