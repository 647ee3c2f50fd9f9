use vstd::prelude::*;

verus! {

/// The task is queued or being polled: further wake-ups do not queue it again.
pub const MUTED: u8 = 1u8;

/// The task was woken since its current poll began.
pub const NOTIFIED: u8 = 2u8;

/// The task's future has been dropped: it is never polled or queued again.
pub const DROPPED: u8 = 4u8;

/// Whether the `MUTED` bit is set in `bits`.
pub open spec fn is_muted(bits: u8) -> bool {
    bits & 1u8 != 0
}

/// Whether the `NOTIFIED` bit is set in `bits`.
pub open spec fn is_notified(bits: u8) -> bool {
    bits & 2u8 != 0
}

/// Whether the `DROPPED` bit is set in `bits`.
pub open spec fn is_dropped(bits: u8) -> bool {
    bits & 4u8 != 0
}

/// Status after a wake-up.
pub open spec fn after_wake(bits: u8) -> u8 {
    bits | 3u8
}

/// Whether a wake-up on `bits` must queue the task: it was neither muted nor dropped.
pub open spec fn wake_schedules(bits: u8) -> bool {
    bits & 5u8 == 0
}

/// Status when a poll begins: `NOTIFIED` cleared.
pub open spec fn after_begin_poll(bits: u8) -> u8 {
    bits & 0xfdu8
}

/// Status after a poll that returned pending.
pub open spec fn after_pending(bits: u8) -> u8 {
    if bits == MUTED { 0 } else { MUTED }
}

/// Whether a poll that returned pending must be followed by another poll:
/// something woke the task during the poll.
pub open spec fn pending_repolls(bits: u8) -> bool {
    bits != MUTED
}

/// Scheduling status of a task, a set of the bits `MUTED`, `NOTIFIED` and
/// `DROPPED`. Each method is one atomic step on the status byte.
pub struct TaskStatus {
    bits: u8,
}

impl TaskStatus {
    /// The status byte.
    pub closed spec fn view(&self) -> u8 {
        self.bits
    }

    /// Status of a new task, which is queued right away: muted and notified.
    pub fn new() -> (r: TaskStatus)
        ensures
            r@ == MUTED | NOTIFIED,
            r@ == 3u8,
    {
        assert(MUTED | NOTIFIED == 3u8) by (bit_vector);
        TaskStatus { bits: MUTED | NOTIFIED }
    }

    /// The status whose byte is `bits`, as last read from a shared status.
    pub fn from_bits(bits: u8) -> (r: TaskStatus)
        ensures
            r@ == bits,
    {
        TaskStatus { bits }
    }

    /// The status byte.
    pub fn bits(&self) -> (r: u8)
        ensures
            r == self@,
    {
        self.bits
    }

    /// Wakes the task: sets `MUTED` and `NOTIFIED`. Returns whether the
    /// caller must queue the task, which holds exactly when it was neither
    /// muted nor dropped.
    pub fn wake(&mut self) -> (schedule: bool)
        ensures
            final(self)@ == after_wake(old(self)@),
            schedule == wake_schedules(old(self)@),
    {
        assert(MUTED | NOTIFIED == 3u8 && MUTED | DROPPED == 5u8) by (bit_vector);
        let prev = self.bits;
        self.bits = prev | (MUTED | NOTIFIED);
        prev & (MUTED | DROPPED) == 0
    }

    /// A poll begins: clears `NOTIFIED`, so that wake-ups during the poll are seen.
    pub fn begin_poll(&mut self)
        ensures
            final(self)@ == after_begin_poll(old(self)@),
    {
        assert(!NOTIFIED == 0xfdu8) by (bit_vector);
        self.bits = self.bits & !NOTIFIED;
    }

    /// The poll returned pending. If nothing woke the task meanwhile (the
    /// status is exactly `MUTED`) it becomes idle (0); otherwise it stays
    /// muted and must be polled again. Returns whether to poll again.
    pub fn finish_pending(&mut self) -> (repoll: bool)
        ensures
            final(self)@ == after_pending(old(self)@),
            repoll == pending_repolls(old(self)@),
    {
        if self.bits == MUTED {
            self.bits = 0;
            false
        } else {
            self.bits = MUTED;
            true
        }
    }

    /// Marks the future as dropped. Returns whether the caller must drop it,
    /// which holds exactly when it had not been dropped before.
    pub fn mark_dropped(&mut self) -> (run_drop: bool)
        ensures
            final(self)@ == old(self)@ | DROPPED,
            run_drop == !is_dropped(old(self)@),
    {
        let prev = self.bits;
        self.bits = prev | DROPPED;
        assert(prev & 4u8 == 0 <==> !(prev & 4u8 != 0)) by (bit_vector);
        prev & DROPPED == 0
    }
}

/// Reference count of a task: one reference for the runtime and one per waker.
pub struct RefCount {
    count: usize,
}

impl RefCount {
    /// The count.
    pub closed spec fn view(&self) -> usize {
        self.count
    }

    /// The count of a new task: the runtime's own reference.
    pub fn new() -> (r: RefCount)
        ensures
            r@ == 1,
    {
        RefCount { count: 1 }
    }

    /// The count `count`, as last read from a shared counter.
    pub fn from_count(count: usize) -> (r: RefCount)
        ensures
            r@ == count,
    {
        RefCount { count }
    }

    /// The count.
    pub fn get(&self) -> (r: usize)
        ensures
            r == self@,
    {
        self.count
    }

    /// One more reference (a waker was cloned). Wraps as the atomic counter does.
    pub fn rc_inc(&mut self)
        ensures
            final(self)@ == vstd::wrapping::usize_specs::wrapping_add(old(self)@, 1),
    {
        self.count = self.count.wrapping_add(1);
    }

    /// One reference fewer. Returns whether the memory must be released,
    /// which holds exactly when the last reference went away.
    pub fn rc_dec(&mut self) -> (release: bool)
        ensures
            final(self)@ == vstd::wrapping::usize_specs::wrapping_sub(old(self)@, 1),
            release == (old(self)@ == 1),
    {
        let prev = self.count;
        self.count = prev.wrapping_sub(1);
        prev == 1
    }
}

/// Waking a task queues it only from the idle state: neither muted nor dropped.
pub proof fn lemma_wake_schedules_only_idle(bits: u8)
    ensures
        wake_schedules(bits) <==> (!is_muted(bits) && !is_dropped(bits)),
{
    assert((bits & 5u8 == 0) <==> (bits & 1u8 == 0 && bits & 4u8 == 0)) by (bit_vector);
}

/// After a wake-up the task is muted and notified, so another wake-up before
/// the next poll does not queue it again: many wake-ups share one poll, and
/// a task is never in two queues at once.
pub proof fn lemma_wake_twice_schedules_once(bits: u8)
    ensures
        is_muted(after_wake(bits)),
        is_notified(after_wake(bits)),
        !wake_schedules(after_wake(bits)),
        after_wake(after_wake(bits)) == after_wake(bits),
{
    assert(((bits | 3u8) & 1u8 != 0) && ((bits | 3u8) & 2u8 != 0) && ((bits | 3u8) & 5u8 != 0)
        && ((bits | 3u8) | 3u8 == bits | 3u8)) by (bit_vector);
}

/// A dropped task stays dropped through wake-ups and the start of a poll,
/// and no wake-up queues it again.
pub proof fn lemma_dropped_never_scheduled(bits: u8)
    requires
        is_dropped(bits),
    ensures
        is_dropped(after_wake(bits)),
        !wake_schedules(bits),
        is_dropped(after_begin_poll(bits)),
{
    assert(bits & 4u8 != 0 ==> ((bits | 3u8) & 4u8 != 0 && bits & 5u8 != 0 && (bits & 0xfdu8) & 4u8 != 0))
        by (bit_vector);
}

/// A poll of a queued task: when nothing wakes it during the poll, a pending
/// result leaves it idle, and the next wake-up queues it again; when a
/// wake-up comes during the poll, the task is polled once more.
pub proof fn lemma_poll_cycle()
    ensures
        after_begin_poll(MUTED | NOTIFIED) == MUTED,
        !pending_repolls(MUTED),
        after_pending(MUTED) == 0,
        wake_schedules(0),
        !wake_schedules(after_wake(MUTED)),
        pending_repolls(after_wake(MUTED)),
        after_pending(after_wake(MUTED)) == MUTED,
{
    assert((1u8 | 2u8) & 0xfdu8 == 1u8) by (bit_vector);
    assert((1u8 | 3u8) != 1u8) by (bit_vector);
    assert((1u8 | 3u8) & 5u8 != 0u8) by (bit_vector);
    assert(0u8 & 5u8 == 0u8) by (bit_vector);
}

/// The drop of a future runs at most once: after the first mark, marking
/// again asks for no drop.
pub proof fn lemma_drop_runs_once(bits: u8)
    ensures
        is_dropped(bits | DROPPED),
{
    assert((bits | 4u8) & 4u8 != 0) by (bit_vector);
}

/// A waker clone followed by its drop leaves the count as it was.
pub proof fn lemma_inc_then_dec(count: usize)
    ensures
        vstd::wrapping::usize_specs::wrapping_sub(vstd::wrapping::usize_specs::wrapping_add(count, 1), 1) == count,
{
}

} // verus!
