//! Interrupts, as their bits in the interrupt registers.
use vstd::prelude::*;

verus! {

/// User software interrupt.
pub const USER_SOFT: u64 = 1 << 0;

/// Supervisor software interrupt.
pub const SUPERVISOR_SOFT: u64 = 1 << 1;

/// Virtual supervisor software interrupt.
pub const VIRTUAL_SUPERVISOR_SOFT: u64 = 1 << 2;

/// Machine software interrupt.
pub const MACHINE_SOFT: u64 = 1 << 3;

/// User timer interrupt.
pub const USER_TIMER: u64 = 1 << 4;

/// Supervisor timer interrupt.
pub const SUPERVISOR_TIMER: u64 = 1 << 5;

/// Virtual supervisor timer interrupt.
pub const VIRTUAL_SUPERVISOR_TIMER: u64 = 1 << 6;

/// Machine timer interrupt.
pub const MACHINE_TIMER: u64 = 1 << 7;

/// User external interrupt.
pub const USER_EXTERNAL: u64 = 1 << 8;

/// Supervisor external interrupt.
pub const SUPERVISOR_EXTERNAL: u64 = 1 << 9;

/// Virtual supervisor external interrupt.
pub const VIRTUAL_SUPERVISOR_EXTERNAL: u64 = 1 << 10;

/// Machine external interrupt.
pub const MACHINEL_EXTERNAL: u64 = 1 << 11;

/// Supervisor guest external interrupt.
pub const SUPERVISOR_GUEST_EXTERNEL: u64 = 1 << 12;

} // verus!
