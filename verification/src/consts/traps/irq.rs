//! Interrupts, as values of `scause`.
use vstd::prelude::*;

verus! {

/// `Interrupt` bit in `scause`
pub const INTC_IRQ_BASE: u64 = 0x8000_0000_0000_0000;

/// Supervisor software interrupt in `scause`
pub const S_SOFT: u64 = INTC_IRQ_BASE + 1;

/// Supervisor timer interrupt in `scause`
pub const S_TIMER: u64 = INTC_IRQ_BASE + 5;

/// Supervisor external interrupt in `scause`
pub const S_EXT: u64 = INTC_IRQ_BASE + 9;

/// The maximum number of IRQs.
pub const MAX_IRQ_COUNT: usize = 1024;

/// The timer IRQ number (supervisor timer interrupt in `scause`).
pub const TIMER_IRQ_NUM: u64 = S_TIMER;

} // verus!
