//! Interface model of the generic scheduler core that both executors drive.
//!
//! The core itself (task storage, futures, the waker protocol) is an
//! external collaborator; this layer depends only on its interface:
//! construct with a wake primitive, enqueue a task that became runnable,
//! and run one non-blocking poll pass. The model keeps exactly what that
//! interface exposes — the owning pender and the insertion-ordered queue of
//! runnable tasks. Running a task's code is the caller's business: a poll
//! pass hands back, in order, the tasks it polled.

use vstd::prelude::*;
use crate::pender::{Pender, WakeAction};

verus! {

/// Identifier of one task known to the scheduler core.
pub type TaskId = u64;

/// One scheduler-core instance: the wake primitive it was constructed with
/// and its queue of currently-runnable tasks, in insertion order.
pub struct SchedulerCore {
    pender: Pender,
    ready: Vec<TaskId>,
}

/// Task-submission handle scoped to one executor, usable only from the
/// context that owns that executor.
#[derive(Clone, Copy, PartialEq, Eq, Structural, Debug)]
pub struct Spawner {
    /// The wake primitive of the executor this handle submits to.
    pub pender: Pender,
}

/// Cross-context task-submission handle: the same capability as [`Spawner`],
/// marked as safe to hand to another execution context.
#[derive(Clone, Copy, PartialEq, Eq, Structural, Debug)]
pub struct SendSpawner {
    /// The wake primitive of the executor this handle submits to.
    pub pender: Pender,
}

impl Spawner {
    /// Convert this handle into its cross-context form.
    pub fn make_send(self) -> (s: SendSpawner)
        ensures
            s.pender == self.pender,
    {
        SendSpawner { pender: self.pender }
    }
}

impl SchedulerCore {
    /// The wake primitive this core was constructed with; never changes.
    pub closed spec fn pender(self) -> Pender {
        self.pender
    }

    /// The runnable tasks, oldest first.
    pub closed spec fn ready(self) -> Seq<TaskId> {
        self.ready@
    }

    /// Construct a core bound to `pender`, with no runnable task.
    pub fn new(pender: Pender) -> (c: Self)
        ensures
            c.pender() == pender,
            c.ready() =~= Seq::<TaskId>::empty(),
    {
        SchedulerCore { pender, ready: Vec::new() }
    }

    /// Obtain a task-submission handle scoped to this core's executor.
    pub fn spawner(&self) -> (s: Spawner)
        ensures
            s.pender == self.pender(),
    {
        Spawner { pender: self.pender }
    }

    /// Mark `task` runnable and request the owning executor's wake.
    ///
    /// This is the step the core takes when task code schedules a future
    /// wake, and also how a submission handle enqueues a new task. The
    /// returned action must be performed by whoever owns the hardware;
    /// performing it is what makes the owning executor poll again.
    pub fn wake(&mut self, task: TaskId) -> (a: WakeAction)
        ensures
            final(self).pender() == old(self).pender(),
            final(self).ready() =~= old(self).ready().push(task),
            a == old(self).pender().wake_action(),
    {
        self.ready.push(task);
        self.pender.pend()
    }

    /// Run one non-blocking poll pass: every currently-runnable task is
    /// polled once, in insertion order, and the queue is drained.
    ///
    /// Tasks a pass polls may become runnable again before the next pass;
    /// that re-entry goes through [`SchedulerCore::wake`], driven by the
    /// task code itself, so a single pass never observes it.
    pub fn poll(&mut self) -> (ran: Vec<TaskId>)
        ensures
            final(self).pender() == old(self).pender(),
            final(self).ready() =~= Seq::<TaskId>::empty(),
            ran@ =~= old(self).ready(),
    {
        let mut ran: Vec<TaskId> = Vec::new();
        let mut i: usize = 0;
        while i < self.ready.len()
            invariant
                i <= self.ready.len(),
                self.ready@ == old(self).ready(),
                self.pender == old(self).pender(),
                ran@ =~= old(self).ready().take(i as int),
            decreases self.ready.len() - i,
        {
            ran.push(self.ready[i]);
            i = i + 1;
        }
        self.ready = Vec::new();
        ran
    }
}

} // verus!
