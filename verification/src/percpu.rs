//! What a physical hart needs before it can run guests.
use vstd::prelude::*;
use crate::consts::traps::exception::{
    BREAKPOINT, ENV_CALL_FROM_U_OR_VU, ILLEGAL_INST, INST_ADDR_MISALIGN, INST_PAGE_FAULT,
    LOAD_PAGE_FAULT, STORE_PAGE_FAULT,
};
use crate::consts::traps::interrupt::{
    VIRTUAL_SUPERVISOR_EXTERNAL, VIRTUAL_SUPERVISOR_SOFT, VIRTUAL_SUPERVISOR_TIMER,
};
use crate::csrs::defs::{hvip, sie};
use crate::csrs::FieldValue;

verus! {

/// What the host writes to its CSRs to bring a hart into a state in which it
/// can run guests, in the order in which it is written.
#[derive(Clone, Copy, Debug, PartialEq, Eq, Structural)]
pub struct CsrSetup {
    /// Value of `hedeleg`: the exceptions that go to the guest.
    pub hedeleg: u64,
    /// Value of `hideleg`: the interrupts that go to the guest.
    pub hideleg: u64,
    /// Bits to clear in `hvip`: no virtual interrupt is pending.
    pub hvip_clear: u64,
    /// Value of `hcounteren`: the guest may read every counter.
    pub hcounteren: u64,
    /// Bits to set in `sie`: the interrupts that the host takes.
    pub sie_set: u64,
}

/// The exceptions that are delegated to the guest: a misaligned instruction
/// address, an illegal instruction, a breakpoint, an environment call from
/// user mode, and the page faults on an instruction, a load and a store.
pub const HEDELEG_GUEST: u64 = 0xb10d;

/// The interrupts that are delegated to the guest, which are also those that
/// can be pending for it: VS-level software, timer and external interrupt.
pub const HIDELEG_GUEST: u64 = 0x444;

/// The interrupts that the host takes: supervisor software, timer and external interrupt.
pub const SIE_HOST: u64 = 0x222;

/// The CSR values with which a hart starts out.
pub open spec fn csr_setup() -> CsrSetup {
    CsrSetup {
        hedeleg: HEDELEG_GUEST,
        hideleg: HIDELEG_GUEST,
        hvip_clear: HIDELEG_GUEST,
        hcounteren: 0xffff_ffff_ffff_ffff,
        sie_set: SIE_HOST,
    }
}

/// Initialize (H)S-level CSRs to a reasonable state.
pub fn setup_csrs() -> (setup: CsrSetup)
    ensures
        setup == csr_setup(),
{
    // Delegate some synchronous exceptions.
    let hedeleg = INST_ADDR_MISALIGN | BREAKPOINT | ENV_CALL_FROM_U_OR_VU | INST_PAGE_FAULT
        | LOAD_PAGE_FAULT | STORE_PAGE_FAULT | ILLEGAL_INST;
    // Delegate all interrupts.
    let hideleg = VIRTUAL_SUPERVISOR_TIMER | VIRTUAL_SUPERVISOR_EXTERNAL | VIRTUAL_SUPERVISOR_SOFT;
    // Clear all interrupts.
    let pending = hvip::vssoft().set().and(hvip::vstimer().set()).and(hvip::vsext().set());
    // Enable interrupts.
    let enabled = sie::sext().set().and(sie::ssoft().set()).and(sie::stimer().set());
    proof {
        FieldValue::<hvip::Register>::lemma_spec_new(0x1, 2, 0x1);
        FieldValue::<hvip::Register>::lemma_spec_new(0x1, 6, 0x1);
        FieldValue::<hvip::Register>::lemma_spec_new(0x1, 10, 0x1);
        FieldValue::<sie::Register>::lemma_spec_new(0x1, 1, 0x1);
        FieldValue::<sie::Register>::lemma_spec_new(0x1, 5, 0x1);
        FieldValue::<sie::Register>::lemma_spec_new(0x1, 9, 0x1);
        assert((1u64 << 0) | (1u64 << 3) | (1u64 << 8) | (1u64 << 12) | (1u64 << 13) | (1u64 << 15)
            | (1u64 << 2) == 0xb10d) by (bit_vector);
        assert((1u64 << 6) | (1u64 << 10) | (1u64 << 2) == 0x444) by (bit_vector);
        assert(((0x1u64 << 2usize) | (0x1u64 << 6usize)) | (0x1u64 << 10usize) == 0x444)
            by (bit_vector);
        assert(((0x1u64 << 9usize) | (0x1u64 << 1usize)) | (0x1u64 << 5usize) == 0x222)
            by (bit_vector);
    }
    CsrSetup {
        hedeleg,
        hideleg,
        hvip_clear: pending.mask(),
        hcounteren: 0xffff_ffff_ffff_ffff,
        sie_set: enabled.mask(),
    }
}

/// Why a hart cannot run guests.
#[derive(Clone, Copy, Debug, PartialEq, Eq, Structural)]
pub enum PerCpuError {
    /// The hart lacks the hypervisor extension.
    Unsupported,
}

/// Risc-V per-CPU state.
#[derive(Clone, Copy, Debug)]
pub struct RISCVPerCpu {}

impl RISCVPerCpu {
    /// The state of the hart `cpu_id`, and the CSR values that the host
    /// writes on that hart before a guest runs on it.
    pub fn new(_cpu_id: usize) -> (r: (RISCVPerCpu, CsrSetup))
        ensures
            r.1 == csr_setup(),
    {
        (RISCVPerCpu {  }, setup_csrs())
    }

    /// Enables the hart for guests: this succeeds where the hart has the
    /// hypervisor extension, which the caller has probed for.
    pub fn hardware_enable(&mut self, has_hardware_support: bool) -> (r: Result<(), PerCpuError>)
        ensures
            r == (if has_hardware_support {
                Ok::<(), PerCpuError>(())
            } else {
                Err::<(), PerCpuError>(PerCpuError::Unsupported)
            }),
            *final(self) == *old(self),
    {
        if has_hardware_support {
            Ok(())
        } else {
            Err(PerCpuError::Unsupported)
        }
    }
}

} // verus!
