use vstd::prelude::*;

verus! {

/// Number of low bits of the status that hold the active count.
pub const ACTIVE_COUNT_BITS: u32 = 9;

/// Mask of the active count: the low `ACTIVE_COUNT_BITS` bits.
pub const ACTIVE_COUNT_MASK: u32 = 0x1ffu32;

/// The unit of the epoch counter inside the status word.
pub const EPOCH: u32 = 512u32;

/// Longest time, in nanoseconds, that an observed status may be trusted
/// before parking on it (1000 microseconds).
pub const MAX_DURATION_NANOS: u128 = 1_000_000u128;

/// The number of active workers packed in a status word.
pub open spec fn spec_active_count(status: u32) -> u32 {
    (status % 512) as u32
}

/// The epoch number packed in a status word.
pub open spec fn spec_epoch(status: u32) -> u32 {
    (status / 512) as u32
}

/// `status + delta`, modulo 2^32, as the atomic counter computes it.
pub open spec fn status_add(status: u32, delta: int) -> u32 {
    ((status + delta) % 0x1_0000_0000) as u32
}

/// Packed status of the runtime's workers: a 9-bit count of active workers
/// in the low bits and a 23-bit epoch counter in the high bits. Each method
/// is one atomic step on the status word.
pub struct Epoch {
    status: u32,
}

impl Epoch {
    /// The status word.
    pub closed spec fn view(&self) -> u32 {
        self.status
    }

    /// Status with `n_threads` active workers at epoch 0.
    pub fn new(n_threads: u32) -> (r: Epoch)
        requires
            n_threads < EPOCH,
        ensures
            r@ == n_threads,
            spec_active_count(r@) == n_threads,
            spec_epoch(r@) == 0,
    {
        Epoch { status: n_threads }
    }

    /// The state whose status word is `status`, as last read from a shared counter.
    pub fn from_status(status: u32) -> (r: Epoch)
        ensures
            r@ == status,
    {
        Epoch { status }
    }

    /// The current status word.
    pub fn get_status(&self) -> (r: u32)
        ensures
            r == self@,
    {
        self.status
    }

    /// One more worker becomes active. Returns the status after the step and
    /// whether all parked workers must be woken (the count was 0 before).
    pub fn set_active(&mut self) -> (r: (u32, bool))
        ensures
            final(self)@ == status_add(old(self)@, 1),
            r.0 == final(self)@,
            r.1 == (spec_active_count(old(self)@) == 0),
    {
        let prev = self.status;
        self.status = prev.wrapping_add(1);
        (self.status, Epoch::active_count(prev) == 0)
    }

    /// One worker becomes inactive. Returns the status after the step.
    pub fn set_inactive(&mut self) -> (r: u32)
        ensures
            final(self)@ == status_add(old(self)@, -1),
            r == final(self)@,
    {
        self.status = self.status.wrapping_sub(1);
        self.status
    }

    /// Moves to the next epoch after tasks were pushed. Returns whether all
    /// parked workers must be woken (no worker was active).
    pub fn next_epoch(&mut self) -> (wake_all: bool)
        ensures
            final(self)@ == status_add(old(self)@, 512),
            wake_all == (spec_active_count(old(self)@) == 0),
    {
        let prev = self.status;
        self.status = prev.wrapping_add(EPOCH);
        Epoch::active_count(prev) == 0
    }

    /// Whether a worker that saw `old_status` may go on to wait for the next
    /// epoch: only while the status is still the one it saw.
    pub fn should_wait(&self, old_status: u32) -> (r: bool)
        ensures
            r == (self@ == old_status),
    {
        self.status == old_status
    }

    /// Whether a worker may park: the status must still be `old_status` and
    /// the observation must be at most `MAX_DURATION_NANOS` old.
    pub fn may_park(&self, old_status: u32, elapsed_nanos: u128) -> (r: bool)
        ensures
            r == (self@ == old_status && elapsed_nanos <= MAX_DURATION_NANOS),
    {
        self.status == old_status && elapsed_nanos <= MAX_DURATION_NANOS
    }

    /// Number of active workers in `status`.
    pub fn active_count(status: u32) -> (r: u32)
        ensures
            r == spec_active_count(status),
    {
        assert(status & 0x1ffu32 == status % 512) by (bit_vector);
        status & ACTIVE_COUNT_MASK
    }

    /// Epoch number in `status`.
    pub fn epoch(status: u32) -> (r: u32)
        ensures
            r == spec_epoch(status),
    {
        assert(status >> 9u32 == status / 512) by (bit_vector);
        status >> ACTIVE_COUNT_BITS
    }
}

/// A status word is its epoch times `EPOCH` plus its active count; the
/// count is below 512 and the epoch below 2^23.
pub proof fn lemma_status_layout(status: u32)
    ensures
        status == spec_epoch(status) * 512 + spec_active_count(status),
        spec_active_count(status) < 512,
        spec_epoch(status) < 0x80_0000,
{
}

/// Moving to the next epoch never changes the active count, and the epoch
/// counter advances by one modulo 2^23: it cannot overflow into the count.
pub proof fn lemma_next_epoch_keeps_active_count(status: u32)
    ensures
        spec_active_count(status_add(status, 512)) == spec_active_count(status),
        spec_epoch(status_add(status, 512)) == (spec_epoch(status) + 1) % 0x80_0000,
{
    let s = status as int;
    if s + 512 < 0x1_0000_0000 {
        assert(status_add(status, 512) == s + 512);
    } else {
        assert(status_add(status, 512) == s + 512 - 0x1_0000_0000);
    }
}

/// With fewer than 511 active workers, `set_active` adds one to the count
/// and keeps the epoch.
pub proof fn lemma_set_active_counts(status: u32)
    requires
        spec_active_count(status) < 511,
    ensures
        spec_active_count(status_add(status, 1)) == spec_active_count(status) + 1,
        spec_epoch(status_add(status, 1)) == spec_epoch(status),
{
    assert(status_add(status, 1) == status + 1);
}

/// With at least one active worker, `set_inactive` takes one from the count
/// and keeps the epoch.
pub proof fn lemma_set_inactive_counts(status: u32)
    requires
        spec_active_count(status) > 0,
    ensures
        spec_active_count(status_add(status, -1)) == spec_active_count(status) - 1,
        spec_epoch(status_add(status, -1)) == spec_epoch(status),
{
    assert(status_add(status, -1) == status - 1);
}

/// `set_inactive` followed by `set_active` gives back the status it started from.
pub proof fn lemma_inactive_then_active(status: u32)
    ensures
        status_add(status_add(status, -1), 1) == status,
{
}

} // verus!
