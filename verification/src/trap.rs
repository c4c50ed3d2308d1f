//! Trap causes: how the `scause` register is read.
use vstd::prelude::*;

verus! {

/// Mask of the code field of `scause`: every bit but the topmost.
pub const SCAUSE_CODE_MASK: u64 = 0x7fff_ffff_ffff_ffff;

/// Exception code of an environment call from VS-mode.
pub const EXCEPTION_VIRTUAL_SUPERVISOR_ENV_CALL: u64 = 10;

/// Exception code of a guest-page fault on a load.
pub const EXCEPTION_LOAD_GUEST_PAGE_FAULT: u64 = 21;

/// Exception code of a guest-page fault on a store.
pub const EXCEPTION_STORE_GUEST_PAGE_FAULT: u64 = 23;

/// Interrupt code of the supervisor timer interrupt.
pub const INTERRUPT_SUPERVISOR_TIMER: u64 = 5;

/// Interrupt code of the supervisor external interrupt.
pub const INTERRUPT_SUPERVISOR_EXTERNAL: u64 = 9;

/// A trap cause as `scause` encodes it: an interrupt or an exception, with its code.
#[derive(Clone, Copy, Debug, PartialEq, Eq, Structural)]
pub enum Trap {
    Interrupt(u64),
    Exception(u64),
}

/// The trap that the `scause` value `bits` stands for: the topmost bit tells
/// an interrupt from an exception, the other 63 bits are the code.
pub open spec fn trap_of(bits: u64) -> Trap {
    if (bits >> 63) & 1 != 0 {
        Trap::Interrupt(bits & SCAUSE_CODE_MASK)
    } else {
        Trap::Exception(bits & SCAUSE_CODE_MASK)
    }
}

/// `Scause::from_bits` followed by `Scause::cause` of the `riscv` crate, on a
/// 64-bit target: `from_bits` keeps every bit, and `cause` returns
/// `Trap::Interrupt` where bit 63 is set, `Trap::Exception` where it is not,
/// each with bits 0 to 62 as the code.
#[verifier::external_body]
fn scause_cause(bits: u64) -> (trap: Trap)
    ensures
        trap == trap_of(bits),
{
    match riscv::register::scause::Scause::from_bits(bits as usize).cause() {
        riscv::interrupt::Trap::Interrupt(code) => Trap::Interrupt(code as u64),
        riscv::interrupt::Trap::Exception(code) => Trap::Exception(code as u64),
    }
}

impl Trap {
    /// Decodes a value of the `scause` register.
    pub fn from_scause(bits: u64) -> (trap: Trap)
        ensures
            trap == trap_of(bits),
    {
        scause_cause(bits)
    }
}

/// How `scause` lays a trap out: an exception is encoded by its code, an
/// interrupt by its code with 2^63 added, and every code is below 2^63.
pub proof fn lemma_scause_layout(bits: u64)
    ensures
        match trap_of(bits) {
            Trap::Exception(code) => bits == code && code <= SCAUSE_CODE_MASK,
            Trap::Interrupt(code) => bits == code + 0x8000_0000_0000_0000 && code
                <= SCAUSE_CODE_MASK,
        },
{
    assert((bits >> 63) & 1 == 0 ==> bits & 0x7fff_ffff_ffff_ffff == bits && bits
        <= 0x7fff_ffff_ffff_ffff) by (bit_vector);
    assert((bits >> 63) & 1 != 0 ==> (bits & 0x7fff_ffff_ffff_ffff) + 0x8000_0000_0000_0000 == bits
        && bits & 0x7fff_ffff_ffff_ffff <= 0x7fff_ffff_ffff_ffff) by (bit_vector);
}

} // verus!
