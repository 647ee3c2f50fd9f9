use crate::epoch::{spec_active_count, spec_epoch, Epoch};
use vstd::prelude::*;

verus! {

/// Where a worker thread stands in its main loop.
#[derive(Clone, Copy)]
pub enum WorkerState {
    /// Popping tasks from its own queue.
    Draining,
    /// Its queue was empty; it is marking itself inactive.
    GoingInactive,
    /// Inactive while other workers are active: stealing from one of them.
    Stealing { old_status: u32 },
    /// Inactive while no worker is active: looking at its own queue once
    /// more before it waits for the next epoch.
    Rechecking { old_status: u32 },
    /// Waiting for the next epoch.
    Waiting { old_status: u32 },
    /// Reading a fresh status after a failed steal or a wait.
    Refreshing { old_status: u32 },
    /// The epoch moved forward: looking at its own queue again.
    CatchingUp { new_status: u32 },
    /// It found a task while inactive and is marking itself active.
    Activating,
    /// Polling a task.
    Polling,
    /// Shut down.
    Exited,
}

/// What the worker thread must do next; the outcome comes back as an event.
#[derive(Clone, Copy)]
pub enum WorkerAction {
    /// Pop a task from its own queue (answer: `Popped`).
    PopLocal,
    /// Poll the task it holds (answer: `Polled`).
    PollTask,
    /// Note the time, then mark itself inactive in the epoch (answer: `WentInactive`).
    SetInactive,
    /// Try to steal a task from another worker (answer: `Stolen`).
    TrySteal,
    /// Wait for the next epoch, if the status is still `old_status` (answer: `Waited`).
    WaitNextEpoch { old_status: u32 },
    /// Note the time, then read the status (answer: `StatusRead`).
    ReadStatus,
    /// Mark itself active in the epoch (answer: `WentActive`).
    SetActive,
    /// Leave the main loop.
    Exit,
}

/// The outcome of the last action.
#[derive(Clone, Copy)]
pub enum WorkerEvent {
    Popped { found: bool },
    Polled { shutdown: bool },
    WentInactive { status: u32 },
    Stolen { found: bool },
    Waited,
    StatusRead { status: u32 },
    WentActive,
}

/// The search step taken with the status `status`: steal while some
/// worker is active, otherwise look at the own queue before waiting.
pub open spec fn search_with(status: u32) -> (WorkerState, WorkerAction) {
    if spec_active_count(status) != 0 {
        (WorkerState::Stealing { old_status: status }, WorkerAction::TrySteal)
    } else {
        (WorkerState::Rechecking { old_status: status }, WorkerAction::PopLocal)
    }
}

/// Whether `event` answers the action that led to `state`.
pub open spec fn spec_accepts(state: WorkerState, event: WorkerEvent) -> bool {
    match state {
        WorkerState::Draining => event is Popped,
        WorkerState::GoingInactive => event is WentInactive,
        WorkerState::Stealing { .. } => event is Stolen,
        WorkerState::Rechecking { .. } => event is Popped,
        WorkerState::Waiting { .. } => event is Waited,
        WorkerState::Refreshing { .. } => event is StatusRead,
        WorkerState::CatchingUp { .. } => event is Popped,
        WorkerState::Activating => event is WentActive,
        WorkerState::Polling => event is Polled,
        WorkerState::Exited => false,
    }
}

/// One step of the main loop: the next state and the next action.
pub open spec fn spec_step(state: WorkerState, event: WorkerEvent) -> (WorkerState, WorkerAction) {
    match (state, event) {
        (WorkerState::Draining, WorkerEvent::Popped { found }) => if found {
            (WorkerState::Polling, WorkerAction::PollTask)
        } else {
            (WorkerState::GoingInactive, WorkerAction::SetInactive)
        },
        (WorkerState::GoingInactive, WorkerEvent::WentInactive { status }) => search_with(status),
        (WorkerState::Stealing { old_status }, WorkerEvent::Stolen { found }) => if found {
            (WorkerState::Activating, WorkerAction::SetActive)
        } else {
            (WorkerState::Refreshing { old_status }, WorkerAction::ReadStatus)
        },
        (WorkerState::Rechecking { old_status }, WorkerEvent::Popped { found }) => if found {
            (WorkerState::Activating, WorkerAction::SetActive)
        } else {
            (WorkerState::Waiting { old_status }, WorkerAction::WaitNextEpoch { old_status })
        },
        (WorkerState::Waiting { old_status }, WorkerEvent::Waited) => (
            WorkerState::Refreshing { old_status },
            WorkerAction::ReadStatus,
        ),
        (WorkerState::Refreshing { old_status }, WorkerEvent::StatusRead { status }) => if spec_epoch(
            status,
        ) > spec_epoch(old_status) {
            (WorkerState::CatchingUp { new_status: status }, WorkerAction::PopLocal)
        } else {
            search_with(status)
        },
        (WorkerState::CatchingUp { new_status }, WorkerEvent::Popped { found }) => if found {
            (WorkerState::Activating, WorkerAction::SetActive)
        } else {
            search_with(new_status)
        },
        (WorkerState::Activating, WorkerEvent::WentActive) => (
            WorkerState::Polling,
            WorkerAction::PollTask,
        ),
        (WorkerState::Polling, WorkerEvent::Polled { shutdown }) => if shutdown {
            (WorkerState::Exited, WorkerAction::Exit)
        } else {
            (WorkerState::Draining, WorkerAction::PopLocal)
        },
        _ => (state, WorkerAction::Exit),
    }
}

/// What the worker's state says of the status it last saw: it steals only
/// while some worker is active, and rechecks or waits only while none is.
pub open spec fn spec_state_wf(state: WorkerState) -> bool {
    match state {
        WorkerState::Stealing { old_status } => spec_active_count(old_status) != 0,
        WorkerState::Rechecking { old_status } => spec_active_count(old_status) == 0,
        WorkerState::Waiting { old_status } => spec_active_count(old_status) == 0,
        _ => true,
    }
}

impl WorkerState {
    /// A worker starts by draining its queue; its first action is `PopLocal`.
    pub fn start() -> (r: (WorkerState, WorkerAction))
        ensures
            r.0 is Draining,
            r.1 is PopLocal,
    {
        (WorkerState::Draining, WorkerAction::PopLocal)
    }

    /// Whether `event` answers the action that led to this state.
    pub fn accepts(&self, event: WorkerEvent) -> (r: bool)
        ensures
            r == spec_accepts(*self, event),
    {
        match *self {
            WorkerState::Draining => matches!(event, WorkerEvent::Popped { .. }),
            WorkerState::GoingInactive => matches!(event, WorkerEvent::WentInactive { .. }),
            WorkerState::Stealing { .. } => matches!(event, WorkerEvent::Stolen { .. }),
            WorkerState::Rechecking { .. } => matches!(event, WorkerEvent::Popped { .. }),
            WorkerState::Waiting { .. } => matches!(event, WorkerEvent::Waited),
            WorkerState::Refreshing { .. } => matches!(event, WorkerEvent::StatusRead { .. }),
            WorkerState::CatchingUp { .. } => matches!(event, WorkerEvent::Popped { .. }),
            WorkerState::Activating => matches!(event, WorkerEvent::WentActive),
            WorkerState::Polling => matches!(event, WorkerEvent::Polled { .. }),
            WorkerState::Exited => false,
        }
    }

    /// One step of the worker's main loop.
    pub fn step(self, event: WorkerEvent) -> (r: (WorkerState, WorkerAction))
        requires
            spec_accepts(self, event),
        ensures
            r == spec_step(self, event),
    {
        match (self, event) {
            (WorkerState::Draining, WorkerEvent::Popped { found }) => if found {
                (WorkerState::Polling, WorkerAction::PollTask)
            } else {
                (WorkerState::GoingInactive, WorkerAction::SetInactive)
            },
            (WorkerState::GoingInactive, WorkerEvent::WentInactive { status }) => search(status),
            (WorkerState::Stealing { old_status }, WorkerEvent::Stolen { found }) => if found {
                (WorkerState::Activating, WorkerAction::SetActive)
            } else {
                (WorkerState::Refreshing { old_status }, WorkerAction::ReadStatus)
            },
            (WorkerState::Rechecking { old_status }, WorkerEvent::Popped { found }) => if found {
                (WorkerState::Activating, WorkerAction::SetActive)
            } else {
                (WorkerState::Waiting { old_status }, WorkerAction::WaitNextEpoch { old_status })
            },
            (WorkerState::Waiting { old_status }, WorkerEvent::Waited) => (
                WorkerState::Refreshing { old_status },
                WorkerAction::ReadStatus,
            ),
            (WorkerState::Refreshing { old_status }, WorkerEvent::StatusRead { status }) => {
                if Epoch::epoch(status) > Epoch::epoch(old_status) {
                    (WorkerState::CatchingUp { new_status: status }, WorkerAction::PopLocal)
                } else {
                    search(status)
                }
            },
            (WorkerState::CatchingUp { new_status }, WorkerEvent::Popped { found }) => if found {
                (WorkerState::Activating, WorkerAction::SetActive)
            } else {
                search(new_status)
            },
            (WorkerState::Activating, WorkerEvent::WentActive) => (
                WorkerState::Polling,
                WorkerAction::PollTask,
            ),
            (WorkerState::Polling, WorkerEvent::Polled { shutdown }) => if shutdown {
                (WorkerState::Exited, WorkerAction::Exit)
            } else {
                (WorkerState::Draining, WorkerAction::PopLocal)
            },
            _ => (self, WorkerAction::Exit),
        }
    }
}

/// The search step taken with the status `status`.
fn search(status: u32) -> (r: (WorkerState, WorkerAction))
    ensures
        r == search_with(status),
{
    if Epoch::active_count(status) != 0 {
        (WorkerState::Stealing { old_status: status }, WorkerAction::TrySteal)
    } else {
        (WorkerState::Rechecking { old_status: status }, WorkerAction::PopLocal)
    }
}

/// Every step keeps the worker's state consistent with the status it saw.
pub proof fn lemma_step_keeps_wf(state: WorkerState, event: WorkerEvent)
    requires
        spec_state_wf(state),
        spec_accepts(state, event),
    ensures
        spec_state_wf(spec_step(state, event).0),
{
}

/// A worker waits for the next epoch only right after it found its own
/// queue empty once more, and only while no worker is active, with the
/// status it saw last: the recheck that rules out a deadlock.
pub proof fn lemma_wait_only_after_recheck(state: WorkerState, event: WorkerEvent, old_status: u32)
    requires
        spec_state_wf(state),
        spec_accepts(state, event),
        spec_step(state, event).1 == (WorkerAction::WaitNextEpoch { old_status }),
    ensures
        state == (WorkerState::Rechecking { old_status }),
        event == (WorkerEvent::Popped { found: false }),
        spec_active_count(old_status) == 0,
{
}

/// A task found while inactive is polled only after the worker marked
/// itself active again.
pub proof fn lemma_active_before_poll(state: WorkerState, event: WorkerEvent)
    requires
        spec_accepts(state, event),
        spec_step(state, event).1 is PollTask,
    ensures
        state is Draining || state is Activating,
        state is Activating ==> event is WentActive,
{
}

/// After a task was found while inactive, the next action marks the worker
/// active; a steal is tried only while some worker is active.
pub proof fn lemma_found_then_activate(state: WorkerState, event: WorkerEvent)
    requires
        spec_state_wf(state),
        spec_accepts(state, event),
        !(state is Draining),
        event == (WorkerEvent::Popped { found: true }) || event == (WorkerEvent::Stolen { found: true }),
    ensures
        spec_step(state, event) == (WorkerState::Activating, WorkerAction::SetActive),
{
}

/// The worker leaves its loop only after a poll that saw the shutdown flag.
pub proof fn lemma_exit_only_on_shutdown(state: WorkerState, event: WorkerEvent)
    requires
        spec_accepts(state, event),
        spec_step(state, event).1 is Exit,
    ensures
        state is Polling,
        event == (WorkerEvent::Polled { shutdown: true }),
{
}

/// Reading a status whose epoch moved forward sends the worker to its own
/// queue first: tasks pushed in the new epoch are seen.
pub proof fn lemma_new_epoch_rechecks(old_status: u32, status: u32)
    requires
        spec_epoch(status) > spec_epoch(old_status),
    ensures
        spec_step(
            WorkerState::Refreshing { old_status },
            WorkerEvent::StatusRead { status },
        ) == (WorkerState::CatchingUp { new_status: status }, WorkerAction::PopLocal),
{
}


/// After a status read in which the epoch did not move, the worker goes on
/// searching with the status it just read: it steals while some worker is
/// active, and otherwise rechecks its own queue. It never reads the status
/// again before doing one of the two.
pub proof fn lemma_status_read_resumes_search(old_status: u32, status: u32)
    requires
        spec_epoch(status) <= spec_epoch(old_status),
    ensures
        spec_active_count(status) != 0 ==> spec_step(
            WorkerState::Refreshing { old_status },
            WorkerEvent::StatusRead { status },
        ) == (WorkerState::Stealing { old_status: status }, WorkerAction::TrySteal),
        spec_active_count(status) == 0 ==> spec_step(
            WorkerState::Refreshing { old_status },
            WorkerEvent::StatusRead { status },
        ) == (WorkerState::Rechecking { old_status: status }, WorkerAction::PopLocal),
{
}

/// A status read never asks for another status read.
pub proof fn lemma_status_read_never_rereads(old_status: u32, status: u32)
    ensures
        !(spec_step(WorkerState::Refreshing { old_status }, WorkerEvent::StatusRead { status }).1 is ReadStatus),
{
}

/// When the own queue is still empty after the epoch moved to `new_status`,
/// the worker searches with that status: it steals while some worker is
/// active, and otherwise rechecks its queue once more before waiting.
pub proof fn lemma_catching_up_empty_resumes_search(new_status: u32)
    ensures
        spec_active_count(new_status) != 0 ==> spec_step(
            WorkerState::CatchingUp { new_status },
            WorkerEvent::Popped { found: false },
        ) == (WorkerState::Stealing { old_status: new_status }, WorkerAction::TrySteal),
        spec_active_count(new_status) == 0 ==> spec_step(
            WorkerState::CatchingUp { new_status },
            WorkerEvent::Popped { found: false },
        ) == (WorkerState::Rechecking { old_status: new_status }, WorkerAction::PopLocal),
{
}

/// With no worker active, two empty pops after the epoch moved bring the
/// worker to wait for the next epoch with the status it saw: it does not
/// keep popping its empty queue.
pub proof fn lemma_catching_up_then_waits(new_status: u32)
    requires
        spec_active_count(new_status) == 0,
    ensures
        ({
            let first = spec_step(WorkerState::CatchingUp { new_status }, WorkerEvent::Popped { found: false });
            &&& spec_accepts(first.0, WorkerEvent::Popped { found: false })
            &&& spec_step(first.0, WorkerEvent::Popped { found: false }) == (
                WorkerState::Waiting { old_status: new_status },
                WorkerAction::WaitNextEpoch { old_status: new_status },
            )
        }),
{
}

/// Whatever the worker saw, it never stays catching up after an empty pop.
pub proof fn lemma_catching_up_leaves_on_empty(new_status: u32)
    ensures
        !(spec_step(WorkerState::CatchingUp { new_status }, WorkerEvent::Popped { found: false }).0 is CatchingUp),
{
}

/// A worker that finds nothing keeps making progress toward a steal or a
/// wait: after an empty pop in a new epoch, or a status read in the same
/// epoch, it steals at once or, after one more empty pop, waits.
pub proof fn lemma_failed_search_steals_or_waits(old_status: u32, status: u32)
    requires
        spec_epoch(status) <= spec_epoch(old_status),
    ensures
        ({
            let (s1, a1) = spec_step(WorkerState::Refreshing { old_status }, WorkerEvent::StatusRead { status });
            a1 is TrySteal || (a1 is PopLocal && spec_step(s1, WorkerEvent::Popped { found: false }).1
                is WaitNextEpoch)
        }),
        ({
            let (s1, a1) = spec_step(WorkerState::CatchingUp { new_status: status }, WorkerEvent::Popped { found: false });
            a1 is TrySteal || (a1 is PopLocal && spec_step(s1, WorkerEvent::Popped { found: false }).1
                is WaitNextEpoch)
        }),
{
}

} // verus!
