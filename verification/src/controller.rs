//! Model of the interrupt controller that the interrupt-mode executor is
//! driven by: a fixed array of interrupt lines, each with a static priority,
//! an enable (unmask) bit and a pending bit.
//!
//! The controller dispatches, among the lines that are both enabled and
//! pending, the one with the most urgent priority — the lowest priority
//! value, ties broken towards the lowest line number. That arbitration is
//! the whole scheduling hierarchy across executors: a higher-priority
//! executor preempts a lower-priority one exactly because its line wins
//! here. The unverified shell mirrors these operations onto the real
//! controller; tests drive the model directly.

use vstd::prelude::*;

verus! {

/// One interrupt line: its configured priority (lower value = more urgent),
/// whether it is unmasked, and whether it is pending.
#[derive(Clone, Copy, PartialEq, Eq, Structural, Debug)]
pub struct LineState {
    /// Priority value; a lower value preempts a higher one.
    pub priority: u8,
    /// Whether the line is unmasked at the controller.
    pub enabled: bool,
    /// Whether a pend of this line is outstanding.
    pub pending: bool,
}

/// The interrupt controller: one [`LineState`] per line, indexed by line
/// number.
pub struct InterruptController {
    lines: Vec<LineState>,
}

impl InterruptController {
    /// The state of every line, indexed by line number.
    pub closed spec fn lines(self) -> Seq<LineState> {
        self.lines@
    }

    /// Whether `id` names a line this controller has.
    pub open spec fn valid_line(self, id: u16) -> bool {
        id < self.lines().len()
    }

    /// Every line's number fits the line-number type;
    /// [`InterruptController::new`] establishes this and every operation
    /// keeps the line count unchanged.
    pub open spec fn wf(self) -> bool {
        self.lines().len() <= 0x1_0000
    }

    /// Whether line `id` is enabled and pending, so a dispatch of its
    /// handler is outstanding.
    pub open spec fn dispatchable(self, id: int) -> bool {
        &&& 0 <= id < self.lines().len()
        &&& self.lines()[id].enabled
        &&& self.lines()[id].pending
    }

    /// Whether line `a` wins arbitration against line `b`: strictly more
    /// urgent priority, or equal priority and the lower line number.
    pub open spec fn beats(self, a: int, b: int) -> bool {
        ||| self.lines()[a].priority < self.lines()[b].priority
        ||| (self.lines()[a].priority == self.lines()[b].priority && a <= b)
    }

    /// A controller with `count` lines, all masked, none pending, every
    /// priority at its reset value of zero.
    pub fn new(count: u16) -> (c: Self)
        ensures
            c.wf(),
            c.lines().len() == count,
            forall|i: int| 0 <= i < count ==> c.lines()[i] == (LineState {
                priority: 0,
                enabled: false,
                pending: false,
            }),
    {
        let mut lines: Vec<LineState> = Vec::new();
        let mut i: u16 = 0;
        while i < count
            invariant
                i <= count,
                lines@.len() == i,
                forall|j: int| 0 <= j < i ==> lines@[j] == (LineState {
                    priority: 0,
                    enabled: false,
                    pending: false,
                }),
            decreases count - i,
        {
            lines.push(LineState { priority: 0, enabled: false, pending: false });
            i = i + 1;
        }
        InterruptController { lines }
    }

    /// The number of lines this controller has; line numbers run below it.
    pub fn line_count(&self) -> (n: usize)
        ensures
            n == self.lines().len(),
    {
        self.lines.len()
    }

    /// Configure the priority of line `id`, as the application does once,
    /// before the executor on that line is started.
    pub fn set_priority(&mut self, id: u16, priority: u8)
        requires
            old(self).valid_line(id),
        ensures
            final(self).lines() =~= old(self).lines().update(id as int, (LineState {
                priority,
                ..old(self).lines()[id as int]
            })),
    {
        let line = self.lines[id as usize];
        self.lines.set(id as usize, LineState { priority, ..line });
    }

    /// Unmask line `id`: its handler may fire as soon as the line is (or
    /// already was) pending. Priority and pending state are untouched.
    pub fn unmask(&mut self, id: u16)
        requires
            old(self).valid_line(id),
        ensures
            final(self).lines() =~= old(self).lines().update(id as int, (LineState {
                enabled: true,
                ..old(self).lines()[id as int]
            })),
    {
        let line = self.lines[id as usize];
        self.lines.set(id as usize, LineState { enabled: true, ..line });
    }

    /// Software-pend line `id`: mark it pending exactly as a hardware event
    /// on that line would. Idempotent and coalescing — pending is one bit.
    pub fn set_pending(&mut self, id: u16)
        requires
            old(self).valid_line(id),
        ensures
            final(self).lines() =~= old(self).lines().update(id as int, (LineState {
                pending: true,
                ..old(self).lines()[id as int]
            })),
    {
        let line = self.lines[id as usize];
        self.lines.set(id as usize, LineState { pending: true, ..line });
    }

    /// The line whose handler the controller schedules next: among the
    /// enabled pending lines, the one that wins arbitration against all of
    /// them; `None` exactly when no enabled line is pending.
    pub fn next_line(&self) -> (r: Option<u16>)
        requires
            self.wf(),
        ensures
            match r {
                Some(id) => {
                    &&& self.dispatchable(id as int)
                    &&& forall|j: int| self.dispatchable(j) ==> self.beats(id as int, j)
                },
                None => forall|j: int| !self.dispatchable(j),
            },
    {
        let mut best: Option<u16> = None;
        let mut i: usize = 0;
        while i < self.lines.len()
            invariant
                self.wf(),
                i <= self.lines().len(),
                match best {
                    Some(id) => {
                        &&& id < i
                        &&& self.dispatchable(id as int)
                        &&& forall|j: int| 0 <= j < i && self.dispatchable(j)
                            ==> self.beats(id as int, j)
                    },
                    None => forall|j: int| 0 <= j < i ==> !self.dispatchable(j),
                },
            decreases self.lines().len() - i,
        {
            let line = self.lines[i];
            if line.enabled && line.pending {
                match best {
                    None => {
                        best = Some(i as u16);
                    },
                    Some(b) => {
                        let best_line = self.lines[b as usize];
                        if line.priority < best_line.priority {
                            best = Some(i as u16);
                        }
                    },
                }
            }
            i = i + 1;
        }
        best
    }

    /// Dispatch the next handler: pick the winning line as
    /// [`InterruptController::next_line`] does and clear its pending bit,
    /// as the controller does on handler entry. `None`, with nothing
    /// changed, exactly when no enabled line is pending.
    pub fn take_next(&mut self) -> (r: Option<u16>)
        requires
            old(self).wf(),
        ensures
            match r {
                Some(id) => {
                    &&& old(self).dispatchable(id as int)
                    &&& forall|j: int| old(self).dispatchable(j)
                        ==> old(self).beats(id as int, j)
                    &&& final(self).lines() =~= old(self).lines().update(id as int, (LineState {
                        pending: false,
                        ..old(self).lines()[id as int]
                    }))
                },
                None => {
                    &&& forall|j: int| !old(self).dispatchable(j)
                    &&& final(self).lines() =~= old(self).lines()
                },
            },
    {
        let next = self.next_line();
        match next {
            Some(id) => {
                let line = self.lines[id as usize];
                self.lines.set(id as usize, LineState { pending: false, ..line });
                Some(id)
            },
            None => None,
        }
    }
}

} // verus!
