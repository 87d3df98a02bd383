//! Wake primitive: a copyable token that knows how to signal "a task is
//! ready" from any execution context.
//!
//! A pender never performs the hardware operation itself: `pend` returns the
//! [`WakeAction`] the hardware is asked to carry out, and the unverified
//! shell that owns the real processor performs it. The action is a pure
//! function of the pender, fixed at executor-construction time.

use vstd::prelude::*;

verus! {

/// The hardware operation that one `pend` call requests.
#[derive(Clone, Copy, PartialEq, Eq, Structural, Debug)]
pub enum WakeAction {
    /// Execute the global signal-event instruction, waking every context
    /// that waits on the wait-for-event instruction on this processor.
    SignalEvent,
    /// Set the pending bit of the named interrupt line at the interrupt
    /// controller, which then schedules that line's handler by priority.
    SetPending(u16),
}

/// Wake primitive of the thread-mode executor: a stateless broadcast.
#[derive(Clone, Copy, PartialEq, Eq, Structural, Debug)]
pub struct ThreadPender;

impl ThreadPender {
    /// Request a global signal-event broadcast.
    ///
    /// The request never fails, never blocks, and is safe from any context;
    /// waking more contexts than intended is acceptable because a sleeping
    /// loop re-checks for real work after every wake.
    pub fn pend(self) -> (a: WakeAction)
        ensures
            a == WakeAction::SignalEvent,
    {
        WakeAction::SignalEvent
    }
}

/// Wake primitive of an interrupt-mode executor: a targeted software pend
/// of one named interrupt line.
#[derive(Clone, Copy, PartialEq, Eq, Structural, Debug)]
pub struct InterruptPender(pub u16);

impl InterruptPender {
    /// Request that this pender's interrupt line be marked pending.
    ///
    /// The request is best-effort, idempotent and coalescing: several
    /// requests before the handler runs are equivalent to one, and it is
    /// safe even from inside the very handler it targets.
    pub fn pend(self) -> (a: WakeAction)
        ensures
            a == WakeAction::SetPending(self.0),
    {
        WakeAction::SetPending(self.0)
    }

    /// The interrupt line this pender targets.
    pub fn number(self) -> (n: u16)
        ensures
            n == self.0,
    {
        self.0
    }
}

/// Wake primitive of one executor: either variant, fixed at construction.
#[derive(Clone, Copy, PartialEq, Eq, Structural, Debug)]
pub enum Pender {
    /// Global signal-event broadcast (thread-mode executor).
    Thread(ThreadPender),
    /// Software pend of one interrupt line (interrupt-mode executor).
    Interrupt(InterruptPender),
}

impl Pender {
    /// The hardware operation every `pend` on this pender requests.
    pub open spec fn wake_action(self) -> WakeAction {
        match self {
            Pender::Thread(_) => WakeAction::SignalEvent,
            Pender::Interrupt(p) => WakeAction::SetPending(p.0),
        }
    }

    /// Request the wake operation of whichever variant this pender holds.
    pub fn pend(self) -> (a: WakeAction)
        ensures
            a == self.wake_action(),
    {
        match self {
            Pender::Thread(p) => p.pend(),
            Pender::Interrupt(p) => p.pend(),
        }
    }
}

} // verus!
