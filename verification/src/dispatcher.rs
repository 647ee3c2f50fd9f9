use vstd::prelude::*;

verus! {

/// The task has prepared an I/O operation and will retry it before waiting.
pub const IO_MUTED: u8 = 1u8;

/// The event loop reported readiness since the last `prepare_io`.
pub const IO_NOTIFIED: u8 = 2u8;

/// Readiness status that one I/O dispatcher shares between the task doing the
/// I/O and the event loop: 0 (the task waits for readiness), `IO_MUTED`, or
/// `IO_MUTED | IO_NOTIFIED`. Each method is one atomic step on the byte.
pub struct Dispatcher {
    status: u8,
}

impl Dispatcher {
    /// The status byte.
    pub closed spec fn view(&self) -> u8 {
        self.status
    }

    /// A new dispatcher: muted, the task is about to try its I/O.
    pub fn new() -> (r: Dispatcher)
        ensures
            r@ == IO_MUTED,
    {
        Dispatcher { status: IO_MUTED }
    }

    /// The dispatcher whose byte is `status`, as last read from a shared status.
    pub fn from_status(status: u8) -> (r: Dispatcher)
        ensures
            r@ == status,
    {
        Dispatcher { status }
    }

    /// The status byte.
    pub fn status(&self) -> (r: u8)
        ensures
            r == self@,
    {
        self.status
    }

    /// Before each I/O attempt: forget earlier notifications.
    pub fn prepare_io(&mut self)
        ensures
            final(self)@ == IO_MUTED,
    {
        self.status = IO_MUTED;
    }

    /// The I/O attempt would block. If no readiness was reported since
    /// `prepare_io` the status drops to 0 and the task must suspend until it
    /// is woken; otherwise the task retries at once. Returns whether to suspend.
    pub fn wait_io(&mut self) -> (suspend: bool)
        ensures
            final(self)@ == after_wait_io(old(self)@),
            suspend == wait_io_suspends(old(self)@),
    {
        if self.status == IO_MUTED {
            self.status = 0;
            true
        } else {
            false
        }
    }

    /// The event loop reports readiness. Returns whether the task must be
    /// woken, which holds exactly when it was waiting (neither bit set).
    pub fn notify(&mut self) -> (wake: bool)
        ensures
            final(self)@ == IO_MUTED | IO_NOTIFIED,
            wake == notify_wakes(old(self)@),
    {
        assert(IO_MUTED | IO_NOTIFIED == 3u8) by (bit_vector);
        let prev = self.status;
        self.status = IO_MUTED | IO_NOTIFIED;
        prev & (IO_MUTED | IO_NOTIFIED) == 0
    }
}

/// Status after `wait_io` from `status`.
pub open spec fn after_wait_io(status: u8) -> u8 {
    if status == IO_MUTED { 0 } else { status }
}

/// Whether `wait_io` from `status` suspends the task.
pub open spec fn wait_io_suspends(status: u8) -> bool {
    status == IO_MUTED
}

/// Whether `notify` on `status` wakes the task.
pub open spec fn notify_wakes(status: u8) -> bool {
    status & 3u8 == 0
}

/// No wake-up is lost. After `prepare_io`, whichever of one readiness report
/// and one `wait_io` comes first: if the report comes first, `wait_io` does
/// not suspend the task; if `wait_io` suspends it first, the report wakes it.
pub proof fn lemma_no_lost_wakeup()
    ensures
        !wait_io_suspends(IO_MUTED | IO_NOTIFIED),
        wait_io_suspends(IO_MUTED) ==> notify_wakes(after_wait_io(IO_MUTED)),
{
    assert((1u8 | 2u8) != 1u8) by (bit_vector);
    assert(0u8 & 3u8 == 0u8) by (bit_vector);
}

/// Readiness reported while the task is not waiting (muted, with or without
/// an earlier report) never asks for a wake-up: the task retries on its own.
pub proof fn lemma_notify_while_active_no_wake(status: u8)
    requires
        status == IO_MUTED || status == (IO_MUTED | IO_NOTIFIED),
    ensures
        !notify_wakes(status),
{
    assert(1u8 & 3u8 != 0u8) by (bit_vector);
    assert((1u8 | 2u8) & 3u8 != 0u8) by (bit_vector);
}

} // verus!
