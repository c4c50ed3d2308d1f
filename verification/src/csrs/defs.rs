//! Numbers of the CSRs, and the bit fields of the hypervisor's registers.
use vstd::prelude::*;

pub mod hcounteren;
pub mod hedeleg;
pub mod hideleg;
pub mod hie;
pub mod hstatus;
pub mod hvip;
pub mod sie;

verus! {

/// Number of the `sstatus` register.
pub const CSR_SSTATUS: u16 = 0x100;

/// Number of the `sedeleg` register.
pub const CSR_SEDELEG: u16 = 0x102;

/// Number of the `sideleg` register.
pub const CSR_SIDELEG: u16 = 0x103;

/// Number of the `sie` register.
pub const CSR_SIE: u16 = 0x104;

/// Number of the `stvec` register.
pub const CSR_STVEC: u16 = 0x105;

/// Number of the `scounteren` register.
pub const CSR_SCOUNTEREN: u16 = 0x106;

/// Number of the `senvcfg` register.
pub const CSR_SENVCFG: u16 = 0x10a;

/// Number of the `sscratch` register.
pub const CSR_SSCRATCH: u16 = 0x140;

/// Number of the `sepc` register.
pub const CSR_SEPC: u16 = 0x141;

/// Number of the `scause` register.
pub const CSR_SCAUSE: u16 = 0x142;

/// Number of the `stval` register.
pub const CSR_STVAL: u16 = 0x143;

/// Number of the `sip` register.
pub const CSR_SIP: u16 = 0x144;

/// Number of the `stimecmp` register.
pub const CSR_STIMECMP: u16 = 0x14d;

/// Number of the `siselect` register.
pub const CSR_SISELECT: u16 = 0x150;

/// Number of the `sireg` register.
pub const CSR_SIREG: u16 = 0x151;

/// Number of the `stopei` register.
pub const CSR_STOPEI: u16 = 0x15c;

/// Number of the `satp` register.
pub const CSR_SATP: u16 = 0x180;

/// Number of the `stopi` register.
pub const CSR_STOPI: u16 = 0xdb0;

/// Number of the `scontext` register.
pub const CSR_SCONTEXT: u16 = 0x5a8;

/// Number of the `vsstatus` register.
pub const CSR_VSSTATUS: u16 = 0x200;

/// Number of the `vsie` register.
pub const CSR_VSIE: u16 = 0x204;

/// Number of the `vstvec` register.
pub const CSR_VSTVEC: u16 = 0x205;

/// Number of the `vsscratch` register.
pub const CSR_VSSCRATCH: u16 = 0x240;

/// Number of the `vsepc` register.
pub const CSR_VSEPC: u16 = 0x241;

/// Number of the `vscause` register.
pub const CSR_VSCAUSE: u16 = 0x242;

/// Number of the `vstval` register.
pub const CSR_VSTVAL: u16 = 0x243;

/// Number of the `vsip` register.
pub const CSR_VSIP: u16 = 0x244;

/// Number of the `vstimecmp` register.
pub const CSR_VSTIMECMP: u16 = 0x24d;

/// Number of the `vsiselect` register.
pub const CSR_VSISELECT: u16 = 0x250;

/// Number of the `vsireg` register.
pub const CSR_VSIREG: u16 = 0x251;

/// Number of the `vstopei` register.
pub const CSR_VSTOPEI: u16 = 0x25c;

/// Number of the `vsatp` register.
pub const CSR_VSATP: u16 = 0x280;

/// Number of the `vstopi` register.
pub const CSR_VSTOPI: u16 = 0xeb0;

/// Number of the `hstatus` register.
pub const CSR_HSTATUS: u16 = 0x600;

/// Number of the `hedeleg` register.
pub const CSR_HEDELEG: u16 = 0x602;

/// Number of the `hideleg` register.
pub const CSR_HIDELEG: u16 = 0x603;

/// Number of the `hie` register.
pub const CSR_HIE: u16 = 0x604;

/// Number of the `htimedelta` register.
pub const CSR_HTIMEDELTA: u16 = 0x605;

/// Number of the `hcounteren` register.
pub const CSR_HCOUNTEREN: u16 = 0x606;

/// Number of the `hgeie` register.
pub const CSR_HGEIE: u16 = 0x607;

/// Number of the `hvictl` register.
pub const CSR_HVICTL: u16 = 0x609;

/// Number of the `henvcfg` register.
pub const CSR_HENVCFG: u16 = 0x60a;

/// Number of the `htval` register.
pub const CSR_HTVAL: u16 = 0x643;

/// Number of the `hip` register.
pub const CSR_HIP: u16 = 0x644;

/// Number of the `hvip` register.
pub const CSR_HVIP: u16 = 0x645;

/// Number of the `htinst` register.
pub const CSR_HTINST: u16 = 0x64a;

/// Number of the `hgatp` register.
pub const CSR_HGATP: u16 = 0x680;

/// Number of the `hcontext` register.
pub const CSR_HCONTEXT: u16 = 0x6a8;

/// Number of the `hgeip` register.
pub const CSR_HGEIP: u16 = 0xe12;

} // verus!
