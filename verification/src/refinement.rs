use crate::epoch::{
    lemma_next_epoch_keeps_active_count, lemma_set_active_counts, lemma_set_inactive_counts,
    lemma_status_layout, spec_active_count, spec_epoch, status_add,
};
use crate::protocol::{
    active, lemma_running_count_positive, lemma_running_count_unpark, lemma_running_count_update,
    next_by, running_count, unpark_all, inv, Phase, Seen, Step, System,
};
use crate::worker_loop::{spec_accepts, spec_state_wf, spec_step, WorkerEvent, WorkerState};
use vstd::prelude::*;

verus! {

/// The status word describes `s`: its active count is the number of active
/// workers and its epoch is the model's epoch. This holds while the 23-bit
/// epoch counter has not gone round; the age check on parking covers the
/// counter going round.
pub open spec fn status_matches(status: u32, s: System) -> bool {
    &&& spec_active_count(status) == active(s)
    &&& spec_epoch(status) == s.epoch
}

/// The status that a worker saw, as the model records it.
pub open spec fn seen_of(status: u32) -> Seen {
    Seen { active: spec_active_count(status) as nat, epoch: spec_epoch(status) as nat }
}

/// The model phase of a worker in state `state`: active while it drains,
/// polls or is about to go inactive; holding a task while it activates;
/// searching with the status it saw while it steals, rechecks, refreshes or
/// catches up; armed while it waits for the next epoch.
pub open spec fn phase_of(state: WorkerState) -> Phase {
    match state {
        WorkerState::Draining => Phase::Running,
        WorkerState::GoingInactive => Phase::Running,
        WorkerState::Polling => Phase::Running,
        WorkerState::Exited => Phase::Running,
        WorkerState::Activating => Phase::Holding,
        WorkerState::Stealing { old_status } => Phase::Searching(seen_of(old_status)),
        WorkerState::Rechecking { old_status } => Phase::Searching(seen_of(old_status)),
        WorkerState::Refreshing { old_status } => Phase::Searching(seen_of(old_status)),
        WorkerState::CatchingUp { new_status } => Phase::Searching(seen_of(new_status)),
        WorkerState::Waiting { old_status } => Phase::Armed(seen_of(old_status)),
    }
}

/// Whether `event` can be what worker `w` observed when the runtime was `s`
/// with status word `status`: a pop finds a task exactly when the queue holds
/// one; a successful steal took from `victim`, whose queue holds a task;
/// the status after going inactive is one less; a status read is the status.
pub open spec fn event_fits(s: System, w: int, event: WorkerEvent, status: u32, victim: int) -> bool {
    match event {
        WorkerEvent::Popped { found } => found == (s.queues[w] > 0),
        WorkerEvent::Stolen { found } => found ==> 0 <= victim < s.phases.len() && s.queues[victim] > 0,
        WorkerEvent::WentInactive { status: after } => after == status_add(status, -1),
        WorkerEvent::StatusRead { status: read } => read == status,
        _ => true,
    }
}

/// The status word after the worker's own action: one less after going
/// inactive, one more after going active, otherwise unchanged.
pub open spec fn status_after(status: u32, event: WorkerEvent) -> u32 {
    match event {
        WorkerEvent::WentInactive { status: after } => after,
        WorkerEvent::WentActive => status_add(status, 1),
        _ => status,
    }
}

/// Whether `step` is a step of worker `w`.
pub open spec fn step_of_worker(step: Step, w: int) -> bool {
    match step {
        Step::Drain { w: x } => x == w,
        Step::GoInactive { w: x } => x == w,
        Step::Refresh { w: x } => x == w,
        Step::PopLocal { w: x } => x == w,
        Step::Steal { w: x, .. } => x == w,
        Step::Activate { w: x } => x == w,
        Step::Park { w: x } => x == w,
        Step::SkipPark { w: x } => x == w,
        _ => false,
    }
}

proof fn lemma_running_count_below(phases: Seq<Phase>, i: int)
    requires
        0 <= i < phases.len(),
        !(phases[i] is Running),
    ensures
        running_count(phases) < phases.len(),
    decreases phases.len(),
{
    lemma_running_count_at_most(phases.drop_last());
    if i < phases.len() - 1 {
        lemma_running_count_below(phases.drop_last(), i);
    }
}

proof fn lemma_running_count_at_most(phases: Seq<Phase>)
    ensures
        running_count(phases) <= phases.len(),
    decreases phases.len(),
{
    if phases.len() > 0 {
        lemma_running_count_at_most(phases.drop_last());
    }
}

/// Each step of `WorkerState::step` is a step of worker `w` in the parking
/// model, or changes nothing the model sees: the model phase of the new
/// state is the phase the model step gives, and the status word after the
/// worker's own epoch action still describes the model. So the worker loop
/// follows the model in which no deadlock is proved.
pub proof fn lemma_worker_step_refines(
    s: System,
    w: int,
    state: WorkerState,
    event: WorkerEvent,
    status: u32,
    victim: int,
) -> (r: (System, Option<Step>))
    requires
        inv(s),
        0 <= w < s.phases.len(),
        s.phases.len() < 512,
        spec_state_wf(state),
        spec_accepts(state, event),
        s.phases[w] == phase_of(state),
        status_matches(status, s),
        event_fits(s, w, event, status, victim),
    ensures
        r.0.phases.len() == s.phases.len(),
        r.0.phases[w] == phase_of(spec_step(state, event).0),
        status_matches(status_after(status, event), r.0),
        match r.1 {
            None => r.0 == s,
            Some(step) => next_by(s, r.0, step) && step_of_worker(step, w),
        },
{
    match (state, event) {
        (WorkerState::Draining, WorkerEvent::Popped { found }) => {
            if found {
                let t = System { queues: s.queues.update(w, (s.queues[w] - 1) as nat), ..s };
                (t, Some(Step::Drain { w }))
            } else {
                (s, None)
            }
        },
        (WorkerState::GoingInactive, WorkerEvent::WentInactive { status: after }) => {
            lemma_running_count_positive(s.phases, w);
            lemma_set_inactive_counts(status);
            let p = Phase::Searching(Seen { active: (active(s) - 1) as nat, epoch: s.epoch });
            let t = System { phases: s.phases.update(w, p), ..s };
            lemma_running_count_update(s.phases, w, p);
            assert(seen_of(after) == Seen { active: (active(s) - 1) as nat, epoch: s.epoch });
            (t, Some(Step::GoInactive { w }))
        },
        (WorkerState::Stealing { old_status }, WorkerEvent::Stolen { found }) => {
            if found {
                let t = System {
                    phases: s.phases.update(w, Phase::Holding),
                    queues: s.queues.update(victim, (s.queues[victim] - 1) as nat),
                    ..s
                };
                lemma_running_count_update(s.phases, w, Phase::Holding);
                (t, Some(Step::Steal { w, v: victim }))
            } else {
                (s, None)
            }
        },
        (WorkerState::Rechecking { old_status }, WorkerEvent::Popped { found }) => {
            if found {
                let t = System {
                    phases: s.phases.update(w, Phase::Holding),
                    queues: s.queues.update(w, (s.queues[w] - 1) as nat),
                    ..s
                };
                lemma_running_count_update(s.phases, w, Phase::Holding);
                (t, Some(Step::PopLocal { w }))
            } else {
                let p = Phase::Armed(seen_of(old_status));
                let t = System { phases: s.phases.update(w, p), ..s };
                lemma_running_count_update(s.phases, w, p);
                (t, Some(Step::PopLocal { w }))
            }
        },
        (WorkerState::Waiting { old_status }, WorkerEvent::Waited) => {
            let p = Phase::Searching(seen_of(old_status));
            let t = System { phases: s.phases.update(w, p), ..s };
            lemma_running_count_update(s.phases, w, p);
            (t, Some(Step::SkipPark { w }))
        },
        (WorkerState::Refreshing { old_status }, WorkerEvent::StatusRead { status: read }) => {
            let p = Phase::Searching(Seen { active: active(s), epoch: s.epoch });
            let t = System { phases: s.phases.update(w, p), ..s };
            lemma_running_count_update(s.phases, w, p);
            assert(seen_of(read) == Seen { active: active(s), epoch: s.epoch });
            (t, Some(Step::Refresh { w }))
        },
        (WorkerState::CatchingUp { new_status }, WorkerEvent::Popped { found }) => {
            if found {
                let t = System {
                    phases: s.phases.update(w, Phase::Holding),
                    queues: s.queues.update(w, (s.queues[w] - 1) as nat),
                    ..s
                };
                lemma_running_count_update(s.phases, w, Phase::Holding);
                (t, Some(Step::PopLocal { w }))
            } else {
                (s, None)
            }
        },
        (WorkerState::Activating, WorkerEvent::WentActive) => {
            lemma_running_count_below(s.phases, w);
            lemma_set_active_counts(status);
            let t = System { phases: crate::protocol::activate(s.phases, w), ..s };
            if active(s) == 0 {
                lemma_running_count_unpark(s.phases);
                lemma_running_count_update(unpark_all(s.phases), w, Phase::Running);
            } else {
                lemma_running_count_update(s.phases, w, Phase::Running);
            }
            (t, Some(Step::Activate { w }))
        },
        (WorkerState::Polling, WorkerEvent::Polled { shutdown }) => (s, None),
        _ => (s, None),
    }
}

/// A worker that parked and was then woken stands in the model as searching
/// with the status it saw; its `Waited` event then takes it to refreshing
/// with that status, which the model sees as no change.
pub proof fn lemma_woken_wait_refines(s: System, w: int, old_status: u32)
    requires
        0 <= w < s.phases.len(),
        s.phases[w] == Phase::Searching(seen_of(old_status)),
    ensures
        spec_accepts(WorkerState::Waiting { old_status }, WorkerEvent::Waited),
        phase_of(spec_step(WorkerState::Waiting { old_status }, WorkerEvent::Waited).0) == s.phases[w],
{
}

/// An armed worker that the parking lot lets park (its status word is still
/// the one it saw, as `Epoch::may_park` checks) makes the model's `Park` step.
pub proof fn lemma_park_refines(s: System, w: int, old_status: u32, status: u32)
    requires
        inv(s),
        0 <= w < s.phases.len(),
        s.phases[w] == Phase::Armed(seen_of(old_status)),
        status_matches(status, s),
        status == old_status,
    ensures
        next_by(
            s,
            System { phases: s.phases.update(w, Phase::Parked(seen_of(old_status))), ..s },
            Step::Park { w },
        ),
{
}

/// A producer's `Epoch::next_epoch` after its pushes is the model's
/// `Publish` step: the new status word describes the model after the step,
/// and it wakes all parked workers exactly when the model does, when no
/// worker is active.
pub proof fn lemma_next_epoch_refines(s: System, t: System, cleared: Set<int>, status: u32)
    requires
        inv(s),
        status_matches(status, s),
        s.epoch + 1 < 0x80_0000,
        next_by(s, t, Step::Publish { cleared }),
    ensures
        status_matches(status_add(status, 512), t),
        (spec_active_count(status) == 0) == (active(s) == 0),
{
    lemma_next_epoch_keeps_active_count(status);
    if active(s) == 0 {
        lemma_running_count_unpark(s.phases);
    }
}

/// `Epoch::set_active` wakes all parked workers exactly when the model's
/// `Activate` step does: when no worker was active.
pub proof fn lemma_set_active_wake_refines(s: System, status: u32)
    requires
        status_matches(status, s),
    ensures
        (spec_active_count(status) == 0) == (active(s) == 0),
{
}

} // verus!
