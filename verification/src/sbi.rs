//! The supervisor binary interface as a guest sees it: the identifiers that
//! the exit handler tells apart, and the reply to a call.
use vstd::prelude::*;

pub mod rfnc;

verus! {

/// Legacy extension: program the timer.
pub const LEGACY_SET_TIMER: u64 = 0;

/// Legacy extension: write a byte to the console.
pub const LEGACY_CONSOLE_PUTCHAR: u64 = 1;

/// Legacy extension: read a byte from the console.
pub const LEGACY_CONSOLE_GETCHAR: u64 = 2;

/// Legacy extension: clear a pending inter-processor interrupt.
pub const LEGACY_CLEAR_IPI: u64 = 3;

/// Legacy extension: send an inter-processor interrupt.
pub const LEGACY_SEND_IPI: u64 = 4;

/// Legacy extension: `FENCE.I` on remote harts.
pub const LEGACY_REMOTE_FENCE_I: u64 = 5;

/// Legacy extension: `SFENCE.VMA` on remote harts.
pub const LEGACY_REMOTE_SFENCE_VMA: u64 = 6;

/// Legacy extension: `SFENCE.VMA` with an address space on remote harts.
pub const LEGACY_REMOTE_SFENCE_VMA_ASID: u64 = 7;

/// Legacy extension: shut the system down.
pub const LEGACY_SHUTDOWN: u64 = 8;

/// Extension identifier of hart state management: the ASCII bytes of "HSM".
pub const EID_HSM: u64 = 0x48534D;

/// Hart state management: start a hart.
pub const HART_START: u64 = 0;

/// Hart state management: stop the calling hart.
pub const HART_STOP: u64 = 1;

/// Hart state management: status of a hart.
pub const HART_GET_STATUS: u64 = 2;

/// Hart state management: suspend the calling hart.
pub const HART_SUSPEND: u64 = 3;

/// Error code of a call that is not supported: -2 as a machine word.
pub const RET_ERR_NOT_SUPPORTED: u64 = 0xffff_ffff_ffff_fffe;

/// The two words that an SBI call returns, in `a0` and `a1`.
#[derive(Clone, Copy, Debug, PartialEq, Eq, Structural)]
pub struct SbiRet {
    /// Error code; for a legacy call, the one word that it returns.
    pub error: u64,
    /// Value.
    pub value: u64,
}

} // verus!
