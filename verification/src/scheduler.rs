use vstd::prelude::*;

use crate::target::Target;

verus! {

/// What the controller must do next.
pub enum SchedulerAction {
    /// Spawn a compile job for this target, then report back with
    /// `spawned` or `spawn_failed`.
    Spawn(Target),
    /// Wait out one in-flight job, then report back with `job_done`.
    Wait,
    /// Every queued target was compiled and every job drained.
    Done,
    /// A failure was recorded and every in-flight sibling has been
    /// drained: propagate the failure.
    Abort,
}

/// The batch-synchronous bounded compile scheduler.
///
/// Up to `capacity` jobs run at once. Targets are consumed from the tail
/// of `pending`, so spawn order is the reverse of the queue's order. Once
/// the in-flight count reaches `capacity` while targets remain, the whole
/// in-flight batch is drained before anything new is spawned. A spawn
/// failure or a nonzero exit is fatal: nothing further is spawned, but
/// jobs already in flight are still waited out, never killed.
///
/// The scheduler only decides; the controller owns the job handles,
/// performs each action, and reports its outcome back.
pub struct Scheduler {
    pub pending: Vec<Target>,
    pub in_flight: usize,
    pub capacity: usize,
    pub draining: bool,
    pub failed: bool,
}

impl Scheduler {
    /// The scheduler invariant: the worker budget is at least one, the
    /// in-flight count never exceeds it, and a batch drain only runs
    /// while jobs are in flight.
    pub open spec fn wf(self) -> bool {
        &&& self.capacity >= 1
        &&& self.in_flight <= self.capacity
        &&& (self.draining ==> self.in_flight >= 1)
    }

    /// The decision taken in a given state.
    pub open spec fn spec_decision(self) -> SchedulerAction {
        if self.failed {
            if self.in_flight > 0 {
                SchedulerAction::Wait
            } else {
                SchedulerAction::Abort
            }
        } else if self.draining {
            SchedulerAction::Wait
        } else if self.pending@.len() > 0 {
            if self.in_flight < self.capacity {
                SchedulerAction::Spawn(self.pending@.last())
            } else {
                SchedulerAction::Wait
            }
        } else if self.in_flight > 0 {
            SchedulerAction::Wait
        } else {
            SchedulerAction::Done
        }
    }

    pub fn new(queue: Vec<Target>, capacity: usize) -> (s: Scheduler)
        requires
            capacity >= 1,
        ensures
            s.wf(),
            s.pending == queue,
            s.in_flight == 0,
            s.capacity == capacity,
            !s.draining,
            !s.failed,
    {
        Scheduler { pending: queue, in_flight: 0, capacity, draining: false, failed: false }
    }

    /// Decides the next action and updates the bookkeeping that the
    /// decision itself implies: a spawned target leaves the queue, and a
    /// full batch flips the scheduler into draining.
    pub fn next(&mut self) -> (a: SchedulerAction)
        requires
            old(self).wf(),
        ensures
            final(self).wf(),
            a == old(self).spec_decision(),
            final(self).capacity == old(self).capacity,
            final(self).failed == old(self).failed,
            final(self).in_flight == old(self).in_flight,
            (a is Spawn) ==> final(self).pending@ == old(self).pending@.drop_last(),
            (a is Spawn) ==> final(self).draining == old(self).draining,
            !(a is Spawn) ==> final(self).pending == old(self).pending,
            !(a is Spawn) ==> final(self).draining == (old(self).draining || (!old(self).failed
                && old(self).pending@.len() > 0 && old(self).in_flight == old(self).capacity)),
    {
        if self.failed {
            if self.in_flight > 0 {
                SchedulerAction::Wait
            } else {
                SchedulerAction::Abort
            }
        } else if self.draining {
            SchedulerAction::Wait
        } else if self.pending.len() > 0 {
            if self.in_flight < self.capacity {
                let t = self.pending.pop().unwrap();
                SchedulerAction::Spawn(t)
            } else {
                self.draining = true;
                SchedulerAction::Wait
            }
        } else if self.in_flight > 0 {
            SchedulerAction::Wait
        } else {
            SchedulerAction::Done
        }
    }

    /// Report that the job for the last `Spawn` action was started.
    pub fn spawned(&mut self)
        requires
            old(self).wf(),
            old(self).in_flight < old(self).capacity,
        ensures
            final(self).wf(),
            *final(self) == (Scheduler {
                in_flight: (old(self).in_flight + 1) as usize,
                ..*old(self)
            }),
    {
        self.in_flight = self.in_flight + 1;
    }

    /// Report that the job for the last `Spawn` action could not be
    /// started: the failure is recorded and nothing further is spawned.
    pub fn spawn_failed(&mut self)
        requires
            old(self).wf(),
        ensures
            final(self).wf(),
            *final(self) == (Scheduler { failed: true, ..*old(self) }),
    {
        self.failed = true;
    }

    /// Report that one in-flight job was waited out; `ok` is false on a
    /// nonzero exit or a wait error. Draining ends when the batch is
    /// empty; a failure is recorded but already-running siblings keep
    /// being awaited.
    pub fn job_done(&mut self, ok: bool)
        requires
            old(self).wf(),
            old(self).in_flight > 0,
        ensures
            final(self).wf(),
            final(self).in_flight == old(self).in_flight - 1,
            final(self).failed == (old(self).failed || !ok),
            final(self).pending == old(self).pending,
            final(self).capacity == old(self).capacity,
            final(self).draining == (old(self).draining && old(self).in_flight > 1),
    {
        self.in_flight = self.in_flight - 1;
        if !ok {
            self.failed = true;
        }
        if self.in_flight == 0 {
            self.draining = false;
        }
    }
}

/// The in-flight job count never exceeds the worker budget.
pub proof fn lemma_in_flight_bounded(s: Scheduler)
    requires
        s.wf(),
    ensures
        s.in_flight <= s.capacity,
{
}

/// A worker budget of one forces strictly sequential execution: at most
/// one job is ever in flight.
pub proof fn lemma_single_worker_sequential(s: Scheduler)
    requires
        s.wf(),
        s.capacity == 1,
    ensures
        s.in_flight <= 1,
{
}

/// With a worker budget no smaller than what remains to run, every
/// queued target is spawned before anything is waited on: as long as
/// targets remain under that budget, the decision is always `Spawn`, and
/// spawning preserves the condition.
pub proof fn lemma_wide_budget_spawns_first(s: Scheduler)
    requires
        s.wf(),
        !s.failed,
        !s.draining,
        s.pending@.len() > 0,
        s.in_flight + s.pending@.len() <= s.capacity,
    ensures
        s.spec_decision() == SchedulerAction::Spawn(s.pending@.last()),
{
}

/// Spawning under a wide budget keeps the budget wide: `after` is the
/// state reached from `before` by taking the decided `Spawn` and
/// reporting the job started. The remaining work still fits the budget
/// and, while targets remain, the decision stays `Spawn` — so by
/// induction every queued target is spawned before anything is waited
/// on.
pub proof fn lemma_wide_budget_preserved(before: Scheduler, after: Scheduler)
    requires
        before.wf(),
        !before.failed,
        !before.draining,
        before.pending@.len() > 0,
        before.in_flight + before.pending@.len() <= before.capacity,
        after.pending@ == before.pending@.drop_last(),
        after.in_flight == before.in_flight + 1,
        after.capacity == before.capacity,
        after.failed == before.failed,
        after.draining == before.draining,
    ensures
        after.wf(),
        after.in_flight + after.pending@.len() <= after.capacity,
        after.pending@.len() > 0 ==> after.spec_decision() == SchedulerAction::Spawn(
            after.pending@.last(),
        ),
{
}

/// A recorded failure halts all spawning: the decision is never `Spawn`
/// again, and while siblings of the failing batch are still in flight
/// the decision is to wait them out.
pub proof fn lemma_failure_halts_spawning(s: Scheduler)
    requires
        s.wf(),
        s.failed,
    ensures
        !(s.spec_decision() is Spawn),
        s.in_flight > 0 ==> s.spec_decision() == SchedulerAction::Wait,
        s.in_flight == 0 ==> s.spec_decision() == SchedulerAction::Abort,
{
}

} // verus!
