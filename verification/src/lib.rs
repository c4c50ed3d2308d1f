//! State and exit handling of a virtual CPU for the RISC-V hypervisor extension.
//!
//! A vCPU is the register and CSR state of one guest hart ([`regs`]) together
//! with the rules by which the hypervisor changes it ([`vcpu`]): how a vCPU is
//! created and configured, and what a trap out of the guest means for the
//! guest's registers and for the caller. [`percpu`] holds what a physical
//! hart is set up with before it runs guests, [`sbi`] the identifiers of the
//! supervisor binary interface, [`csrs`] and [`consts`] the numbers and bit
//! fields of the registers involved.
//!
//! The library reads and writes no hardware register. Whoever drives it
//! hands it what the registers held, and carries out what it decides.
use vstd::prelude::*;

pub mod addr;
pub mod consts;
pub mod csrs;
pub mod percpu;
pub mod regs;
pub mod sbi;
pub mod trap;
pub mod vcpu;

pub use crate::percpu::RISCVPerCpu;
pub use crate::vcpu::RISCVVCpu;

use crate::addr::GuestPhysAddr;

verus! {

/// Extension identifier of the hypercall extension: the ASCII bytes of "HVC".
pub const EID_HVC: u64 = 0x485643;

/// Address at which the device tree blob is put where none is configured.
pub const DEFAULT_DTB_ADDR: u64 = 0x9000_0000;

/// Configuration for creating a new `RISCVVCpu`
#[derive(Clone, Copy, Debug)]
pub struct RISCVVCpuCreateConfig {
    /// The ID of the vCPU, default to `0`.
    pub hart_id: u64,
    /// The physical address of the device tree blob.
    /// Default to `0x9000_0000`.
    pub dtb_addr: GuestPhysAddr,
}

impl Default for RISCVVCpuCreateConfig {
    fn default() -> (config: RISCVVCpuCreateConfig)
        ensures
            config.hart_id == 0,
            config.dtb_addr == GuestPhysAddr(DEFAULT_DTB_ADDR),
    {
        RISCVVCpuCreateConfig { hart_id: 0, dtb_addr: GuestPhysAddr(DEFAULT_DTB_ADDR) }
    }
}

} // verus!
