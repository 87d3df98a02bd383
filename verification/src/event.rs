//! Model of the processor's event register, the state behind the
//! wait-for-event / signal-event instruction pair that the thread-mode
//! executor sleeps and wakes on.
//!
//! The register is a single sticky bit. A signal from any context sets it;
//! a wait consumes it: if the bit was set the waiting context continues at
//! once, otherwise the processor sleeps until the next signal arrives. The
//! model makes the "otherwise" visible as the return value of
//! [`EventRegister::wait_for_event`]; the unverified shell is what actually
//! halts the processor when that value says no event was pending.

use vstd::prelude::*;

verus! {

/// The processor-wide event register: one sticky event bit.
#[derive(Clone, Copy, PartialEq, Eq, Structural, Debug)]
pub struct EventRegister {
    /// Whether an event has been signalled since the last wait consumed one.
    pub set: bool,
}

/// The register after one signal-event broadcast: the bit is set, whatever
/// it held before.
pub open spec fn signaled(r: EventRegister) -> EventRegister {
    EventRegister { set: true }
}

/// The register after `n` consecutive signal-event broadcasts.
pub open spec fn after_signals(r: EventRegister, n: nat) -> EventRegister
    decreases n,
{
    if n == 0 {
        r
    } else {
        signaled(after_signals(r, (n - 1) as nat))
    }
}

impl EventRegister {
    /// A register with no event pending, as after the last wait returned.
    pub fn new() -> (r: Self)
        ensures
            !r.set,
    {
        EventRegister { set: false }
    }

    /// Record a signal-event broadcast. Never blocks, never fails, safe
    /// from any context; signalling an already-set register changes nothing.
    pub fn signal_event(&mut self)
        ensures
            *final(self) == signaled(*old(self)),
    {
        self.set = true;
    }

    /// Enter the wait-for-event state: consume the event bit and report
    /// whether an event was already pending.
    ///
    /// When the result is `true` the waiting context continues immediately;
    /// when it is `false` the processor sleeps here until the next signal,
    /// which is the low-power state the thread-mode executor rests in.
    pub fn wait_for_event(&mut self) -> (woke: bool)
        ensures
            !final(self).set,
            woke == old(self).set,
    {
        let was_set = self.set;
        self.set = false;
        was_set
    }
}

/// Signals coalesce: any positive number of broadcasts leaves the register
/// exactly as one broadcast does.
pub proof fn lemma_signals_coalesce(r: EventRegister, n: nat)
    requires
        n >= 1,
    ensures
        after_signals(r, n) == after_signals(r, 1),
    decreases n,
{
    if n > 1 {
        lemma_signals_coalesce(r, (n - 1) as nat);
    }
}

/// No missed wakeup: if at least one broadcast was signalled after the
/// previous wait consumed the register, the event bit is set, so the next
/// wait-for-event returns awake instead of sleeping — whatever the register
/// held before the broadcasts and however many there were.
pub proof fn lemma_no_missed_wakeup(r: EventRegister, n: nat)
    requires
        n >= 1,
    ensures
        after_signals(r, n).set,
    decreases n,
{
    if n > 1 {
        lemma_no_missed_wakeup(r, (n - 1) as nat);
    }
}

} // verus!
