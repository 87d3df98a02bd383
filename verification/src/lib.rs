//! Architecture-facing wake/drive layer of a cooperative, poll-based task
//! scheduler for bare-metal targets.
//!
//! The layer bridges a generic scheduler core to the processor's low-power
//! and interrupt-controller primitives, so that a task becoming runnable
//! reliably wakes the executor that owns it, from any execution context.
//! Two executors are offered: a thread-mode executor that sleeps on the
//! processor's wait-for-event instruction, and an interrupt-mode executor
//! whose poll pass runs inside a hardware interrupt handler.
//!
//! Everything the processor itself does — the signal-event instruction, the
//! interrupt controller's pending bits, the low-power wait — is modelled
//! here as plain data with exact contracts; an unverified shell performs
//! the corresponding hardware operations.

pub mod controller;
pub mod event;
pub mod interrupt;
pub mod pender;
pub mod sched;
pub mod thread;
