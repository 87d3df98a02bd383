//! Thread-mode executor: owns one scheduler core bound to the broadcast
//! wake primitive, and drives it with an unbounded poll/sleep loop on the
//! single context that runs it.
//!
//! The loop itself never returns and its sleep is a processor instruction,
//! so the unverified shell runs it; every decision the loop takes stands
//! here. One call of [`Executor::run_iteration`] is one turn of that loop:
//! a poll pass over the core, then entry into the wait-for-event state.

use vstd::prelude::*;
use crate::event::EventRegister;
use crate::pender::{Pender, ThreadPender, WakeAction};
use crate::sched::{SchedulerCore, Spawner, TaskId};

verus! {

/// Thread-mode executor, sleeping on wait-for-event and woken by the
/// signal-event broadcast.
///
/// It must be driven by exactly one logical thread: the core's queue is
/// mutated without a lock, and exclusivity of `&mut self` is what a correct
/// shell provides by never sharing the executor across contexts.
pub struct Executor {
    inner: SchedulerCore,
}

/// What one turn of the drive loop did: the tasks its poll pass ran, in
/// insertion order, and whether the context then slept because no event
/// was pending when it entered the wait state.
#[derive(PartialEq, Eq, Debug)]
pub struct LoopTurn {
    /// The tasks the poll pass polled, oldest first.
    pub ran: Vec<TaskId>,
    /// Whether the wait-for-event entry found no pending event and the
    /// processor therefore entered its low-power state.
    pub slept: bool,
}

impl Executor {
    /// The runnable tasks of the owned core, oldest first.
    pub closed spec fn ready(self) -> Seq<TaskId> {
        self.inner.ready()
    }

    /// The wake primitive of the owned core.
    pub closed spec fn pender(self) -> Pender {
        self.inner.pender()
    }

    /// Create a new executor: one scheduler core bound to a broadcast
    /// pender, with no runnable task.
    pub fn new() -> (e: Self)
        ensures
            e.pender() == Pender::Thread(ThreadPender),
            e.ready() =~= Seq::<TaskId>::empty(),
    {
        Executor { inner: SchedulerCore::new(Pender::Thread(ThreadPender)) }
    }

    /// Obtain the task-submission handle scoped to this executor, as the
    /// run loop passes it to the caller's initialization closure.
    pub fn spawner(&self) -> (s: Spawner)
        ensures
            s.pender == self.pender(),
    {
        self.inner.spawner()
    }

    /// Mark `task` runnable on this executor.
    ///
    /// This is the path a submission through [`Executor::spawner`]'s handle
    /// takes, and equally the path task code takes when a registered wake
    /// fires. The returned action is always the signal-event broadcast;
    /// performing it is what ends the loop's current sleep, if any.
    pub fn wake(&mut self, task: TaskId) -> (a: WakeAction)
        ensures
            final(self).pender() == old(self).pender(),
            final(self).ready() =~= old(self).ready().push(task),
            a == old(self).pender().wake_action(),
    {
        self.inner.wake(task)
    }

    /// One turn of the unbounded drive loop: run one non-blocking poll pass
    /// over every runnable task, then enter the wait-for-event state.
    ///
    /// The turn drains the queue, consumes the event register, and sleeps
    /// exactly when no event was pending at wait entry — so a wake that
    /// arrived at any point since the previous wait is never missed.
    pub fn run_iteration(&mut self, events: &mut EventRegister) -> (turn: LoopTurn)
        ensures
            final(self).pender() == old(self).pender(),
            final(self).ready() =~= Seq::<TaskId>::empty(),
            turn.ran@ =~= old(self).ready(),
            !final(events).set,
            turn.slept == !old(events).set,
    {
        let ran = self.inner.poll();
        let woke = events.wait_for_event();
        LoopTurn { ran, slept: !woke }
    }
}

} // verus!
