//! Interrupt-mode executor: a lazily-initialized, cross-context-shareable
//! wrapper around one scheduler core whose poll pass runs exclusively
//! inside the handler of the interrupt line it was started on.
//!
//! The lifecycle has two states. Until `start`, the core's storage is
//! vacant and only `start` is a valid operation; `start` performs the
//! one-time transition — claim, construct the core bound to a targeted
//! pender, unmask the line — and the state is terminal from then on. On
//! hardware the claim is an acquire/release atomic exchange, so the
//! construction is visible to any context that later observes the claim;
//! here the transition is the single assignment below, and the lemmas at
//! the end state what the guard guarantees: the transition is claimed
//! exactly once, and no poll pass precedes a completed `start`.

use vstd::prelude::*;
use crate::controller::{InterruptController, LineState};
use crate::pender::{InterruptPender, Pender, WakeAction};
use crate::sched::{SchedulerCore, SendSpawner, TaskId};

verus! {

/// A contract violation an interrupt-mode executor reports instead of
/// proceeding; the shell aborts the program on either.
#[derive(Clone, Copy, PartialEq, Eq, Structural, Debug)]
pub enum ExecError {
    /// The one-time start transition was already claimed.
    AlreadyStarted,
    /// The executor has not been started, so no scheduler core exists.
    NotStarted,
}

/// Interrupt-mode executor: vacant storage until `start`, afterwards one
/// scheduler core bound to a targeted pender for the started line.
///
/// An instance is meant to live in program-lifetime storage and be shared
/// across contexts; before `start` no operation but `start` is valid, and
/// after it the core is mutated only by `on_interrupt`, which the hardware
/// guarantees never to run twice concurrently for one line on one core.
pub struct InterruptExecutor {
    core: Option<SchedulerCore>,
}

impl InterruptExecutor {
    /// Whether the one-time start transition has completed.
    pub closed spec fn is_started(self) -> bool {
        self.core is Some
    }

    /// The wake primitive of the constructed core.
    pub closed spec fn pender(self) -> Pender
        recommends
            self.is_started(),
    {
        self.core->0.pender()
    }

    /// The runnable tasks of the constructed core, oldest first.
    pub closed spec fn ready(self) -> Seq<TaskId>
        recommends
            self.is_started(),
    {
        self.core->0.ready()
    }

    /// Create a new, not started executor: the core's storage is vacant.
    pub fn new() -> (e: Self)
        ensures
            !e.is_started(),
    {
        InterruptExecutor { core: None }
    }

    /// Whether the one-time start transition has completed — the read of
    /// the guard flag that gates every operation other than `start`.
    pub fn started(&self) -> (b: bool)
        ensures
            b == self.is_started(),
    {
        self.core.is_some()
    }

    /// Claim the one-time start transition, construct the scheduler core
    /// bound to a targeted pender for `irq`, and unmask `irq` at the
    /// controller — in that order, so the core is fully constructed before
    /// the handler can first fire. Returns the cross-context submission
    /// handle on the first call; every later call observes the claim and
    /// reports [`ExecError::AlreadyStarted`], changing nothing.
    ///
    /// The line's priority must be configured before this call and not
    /// changed afterwards; the preemption relations tasks run under depend
    /// on it.
    pub fn start(&mut self, irq: u16, controller: &mut InterruptController) -> (r: Result<
        SendSpawner,
        ExecError,
    >)
        requires
            old(controller).valid_line(irq),
        ensures
            final(self).is_started(),
            old(self).is_started() ==> {
                &&& r == Err::<SendSpawner, ExecError>(ExecError::AlreadyStarted)
                &&& *final(self) == *old(self)
                &&& *final(controller) == *old(controller)
            },
            !old(self).is_started() ==> {
                &&& (r matches Ok(s) && s.pender == Pender::Interrupt(InterruptPender(irq)))
                &&& final(self).pender() == Pender::Interrupt(InterruptPender(irq))
                &&& final(self).ready() =~= Seq::<TaskId>::empty()
                &&& final(controller).lines() =~= old(controller).lines().update(
                    irq as int,
                    (LineState { enabled: true, ..old(controller).lines()[irq as int] }),
                )
            },
    {
        if self.core.is_some() {
            Err(ExecError::AlreadyStarted)
        } else {
            let core = SchedulerCore::new(Pender::Interrupt(InterruptPender(irq)));
            let handle = core.spawner().make_send();
            self.core = Some(core);
            controller.unmask(irq);
            Ok(handle)
        }
    }

    /// Run one non-blocking poll pass over the scheduler core, returning
    /// the tasks it polled, oldest first.
    ///
    /// Must be called only from the handler of the started line: the
    /// precondition stands for what on hardware the controller enforces,
    /// the single active handler instance per line that gives this call
    /// exclusive access to the core.
    pub fn on_interrupt(&mut self) -> (ran: Vec<TaskId>)
        requires
            old(self).is_started(),
        ensures
            final(self).is_started(),
            final(self).pender() == old(self).pender(),
            final(self).ready() =~= Seq::<TaskId>::empty(),
            ran@ =~= old(self).ready(),
    {
        match &mut self.core {
            Some(core) => core.poll(),
            None => {
                proof {
                    assert(false);
                }
                Vec::new()
            },
        }
    }

    /// Obtain a cross-context task-submission handle.
    ///
    /// Valid only once `start` has completed; on a still-vacant executor it
    /// reports [`ExecError::NotStarted`] — always, there is no third state.
    pub fn spawner(&self) -> (r: Result<SendSpawner, ExecError>)
        ensures
            self.is_started() ==> (r matches Ok(s) && s.pender == self.pender()),
            !self.is_started() ==> r == Err::<SendSpawner, ExecError>(ExecError::NotStarted),
    {
        match &self.core {
            Some(core) => Ok(core.spawner().make_send()),
            None => Err(ExecError::NotStarted),
        }
    }

    /// Mark `task` runnable on this executor and request its wake: the
    /// returned action is the software pend of the started line. This is
    /// the path both a submission through the handle and a task's
    /// registered wake take.
    pub fn wake(&mut self, task: TaskId) -> (a: WakeAction)
        requires
            old(self).is_started(),
        ensures
            final(self).is_started(),
            final(self).pender() == old(self).pender(),
            final(self).ready() =~= old(self).ready().push(task),
            a == old(self).pender().wake_action(),
    {
        match &mut self.core {
            Some(core) => core.wake(task),
            None => {
                proof {
                    assert(false);
                }
                WakeAction::SignalEvent
            },
        }
    }
}

/// The guard flag after one start attempt on a flag holding `started`:
/// the exchange leaves it claimed whether this attempt claimed it (the
/// flag was clear) or an earlier attempt already had (it was set).
pub open spec fn after_start_attempt(started: bool) -> bool {
    true
}

/// The guard flag after `n` serialized start attempts on one fresh
/// executor.
pub open spec fn started_after_attempts(n: nat) -> bool
    decreases n,
{
    if n == 0 {
        false
    } else {
        after_start_attempt(started_after_attempts((n - 1) as nat))
    }
}

/// Whether the attempt numbered `k` (counting from zero) claims the
/// transition: exactly the attempts that find the flag still clear do, as
/// `start`'s contract returns `Ok` exactly on a not-yet-started executor.
pub open spec fn attempt_claims(k: nat) -> bool {
    !started_after_attempts(k)
}

/// One-shot start: of any number of serialized start attempts on one
/// executor — and the atomic exchange on hardware serializes concurrent
/// callers — exactly the first claims the transition and succeeds; every
/// other attempt observes the duplicate-start condition.
pub proof fn lemma_start_exactly_once(k: nat)
    ensures
        attempt_claims(k) <==> k == 0,
{
}

/// One recorded step of an interrupt-mode executor's life: its one-time
/// start completing, or one poll pass of its handler.
#[derive(Clone, Copy, PartialEq, Eq, Structural, Debug)]
pub enum LifecycleOp {
    /// A completed, successful `start`.
    Start,
    /// One poll pass, as `on_interrupt` performs.
    Poll,
}

/// The lifecycle flag before step `i` of a history that begins at a fresh
/// executor: clear at the start, set from the first completed `Start` on.
pub open spec fn started_at(history: Seq<LifecycleOp>, i: int) -> bool
    decreases i,
{
    if i <= 0 {
        false
    } else {
        started_at(history, i - 1) || history[i - 1] is Start
    }
}

/// A history an interrupt-mode executor can exhibit: every poll pass runs
/// on a started executor. Verified callers are held to this by
/// `on_interrupt`'s precondition; the hardware path is held to it by the
/// acquire/release guard, which makes the completed construction visible
/// before the unmask lets the handler fire.
pub open spec fn admissible_history(history: Seq<LifecycleOp>) -> bool {
    forall|i: int|
        0 <= i < history.len() && history[i] is Poll ==> started_at(history, i)
}

/// Happens-before of start and poll: in every admissible history, a
/// completed `Start` stands strictly before any poll pass — the core is
/// never polled before its constructing `start` has completed.
pub proof fn lemma_no_poll_before_start(history: Seq<LifecycleOp>, i: int)
    requires
        admissible_history(history),
        0 <= i < history.len(),
        history[i] is Poll,
    ensures
        exists|j: int| 0 <= j < i && history[j] is Start,
{
    lemma_started_at_has_start(history, i);
}

/// A set lifecycle flag witnesses an earlier completed `Start`.
proof fn lemma_started_at_has_start(history: Seq<LifecycleOp>, i: int)
    requires
        started_at(history, i),
    ensures
        exists|j: int| 0 <= j < i && history[j] is Start,
    decreases i,
{
    if history[i - 1] is Start {
        assert(0 <= i - 1 < i && history[i - 1] is Start);
    } else {
        lemma_started_at_has_start(history, i - 1);
        let j = choose|j: int| 0 <= j < i - 1 && history[j] is Start;
        assert(0 <= j < i && history[j] is Start);
    }
}

} // verus!
