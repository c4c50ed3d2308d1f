//! Constants of the trap architecture.

pub mod traps;
