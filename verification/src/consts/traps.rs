//! Constants about traps.

pub mod exception;
pub mod interrupt;
pub mod irq;
