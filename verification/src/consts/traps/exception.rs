//! Exceptions, as their bits in the exception delegation registers.
use vstd::prelude::*;

verus! {

/// Instruction address misaligned.
pub const INST_ADDR_MISALIGN: u64 = 1 << 0;

/// Instruction access fault.
pub const INST_ACCESSS_FAULT: u64 = 1 << 1;

/// Illegal instruction.
pub const ILLEGAL_INST: u64 = 1 << 2;

/// Breakpoint.
pub const BREAKPOINT: u64 = 1 << 3;

/// Load address misaligned.
pub const LOAD_ADDR_MISALIGNED: u64 = 1 << 4;

/// Load access fault.
pub const LOAD_ACCESS_FAULT: u64 = 1 << 5;

/// Store address misaligned.
pub const STORE_ADDR_MISALIGNED: u64 = 1 << 6;

/// Store access fault.
pub const STORE_ACCESS_FAULT: u64 = 1 << 7;

/// Environment call from U-mode or VU-mode.
pub const ENV_CALL_FROM_U_OR_VU: u64 = 1 << 8;

/// Environment call from HS-mode.
pub const ENV_CALL_FROM_HS: u64 = 1 << 9;

/// Environment call from VS-mode.
pub const ENV_CALL_FROM_VS: u64 = 1 << 10;

/// Environment call from M-mode.
pub const ENV_CALL_FROM_M: u64 = 1 << 11;

/// Instruction page fault.
pub const INST_PAGE_FAULT: u64 = 1 << 12;

/// Load page fault.
pub const LOAD_PAGE_FAULT: u64 = 1 << 13;

/// Store page fault.
pub const STORE_PAGE_FAULT: u64 = 1 << 15;

/// Instruction guest page fault.
pub const INST_GUEST_PAGE_FAULT: u64 = 1 << 20;

/// Load guest page fault.
pub const LOAD_GUEST_PAGE_FAULT: u64 = 1 << 21;

/// Virtual instruction.
pub const VIRTUAL_INST: u64 = 1 << 22;

/// Store guest page fault.
pub const STORE_GUEST_PAGE_FAULT: u64 = 1 << 23;

} // verus!
