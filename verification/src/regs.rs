//! Register and CSR state of one virtual CPU.
//!
//! Machine words are 64 bits wide: the state is that of an RV64 hart.
use vstd::prelude::*;

verus! {

/// Number of general purpose registers of a hart.
pub const GPR_COUNT: usize = 32;

/// Symbolic index of a general purpose register.
#[derive(Clone, Copy, Debug, PartialEq, Eq, Structural)]
pub enum GprIndex {
    Zero,
    RA,
    SP,
    GP,
    TP,
    T0,
    T1,
    T2,
    S0,
    S1,
    A0,
    A1,
    A2,
    A3,
    A4,
    A5,
    A6,
    A7,
    S2,
    S3,
    S4,
    S5,
    S6,
    S7,
    S8,
    S9,
    S10,
    S11,
    T3,
    T4,
    T5,
    T6,
}

impl GprIndex {
    /// The architectural number of the register, `x0` to `x31`.
    pub open spec fn spec_index(self) -> int {
        match self {
            GprIndex::Zero => 0,
            GprIndex::RA => 1,
            GprIndex::SP => 2,
            GprIndex::GP => 3,
            GprIndex::TP => 4,
            GprIndex::T0 => 5,
            GprIndex::T1 => 6,
            GprIndex::T2 => 7,
            GprIndex::S0 => 8,
            GprIndex::S1 => 9,
            GprIndex::A0 => 10,
            GprIndex::A1 => 11,
            GprIndex::A2 => 12,
            GprIndex::A3 => 13,
            GprIndex::A4 => 14,
            GprIndex::A5 => 15,
            GprIndex::A6 => 16,
            GprIndex::A7 => 17,
            GprIndex::S2 => 18,
            GprIndex::S3 => 19,
            GprIndex::S4 => 20,
            GprIndex::S5 => 21,
            GprIndex::S6 => 22,
            GprIndex::S7 => 23,
            GprIndex::S8 => 24,
            GprIndex::S9 => 25,
            GprIndex::S10 => 26,
            GprIndex::S11 => 27,
            GprIndex::T3 => 28,
            GprIndex::T4 => 29,
            GprIndex::T5 => 30,
            GprIndex::T6 => 31,
        }
    }

    /// The architectural number of the register.
    pub fn index(self) -> (i: usize)
        ensures
            i == self.spec_index(),
            i < GPR_COUNT,
    {
        match self {
            GprIndex::Zero => 0,
            GprIndex::RA => 1,
            GprIndex::SP => 2,
            GprIndex::GP => 3,
            GprIndex::TP => 4,
            GprIndex::T0 => 5,
            GprIndex::T1 => 6,
            GprIndex::T2 => 7,
            GprIndex::S0 => 8,
            GprIndex::S1 => 9,
            GprIndex::A0 => 10,
            GprIndex::A1 => 11,
            GprIndex::A2 => 12,
            GprIndex::A3 => 13,
            GprIndex::A4 => 14,
            GprIndex::A5 => 15,
            GprIndex::A6 => 16,
            GprIndex::A7 => 17,
            GprIndex::S2 => 18,
            GprIndex::S3 => 19,
            GprIndex::S4 => 20,
            GprIndex::S5 => 21,
            GprIndex::S6 => 22,
            GprIndex::S7 => 23,
            GprIndex::S8 => 24,
            GprIndex::S9 => 25,
            GprIndex::S10 => 26,
            GprIndex::S11 => 27,
            GprIndex::T3 => 28,
            GprIndex::T4 => 29,
            GprIndex::T5 => 30,
            GprIndex::T6 => 31,
        }
    }

    /// The register with architectural number `raw`, if there is one.
    pub fn from_raw(raw: u32) -> (r: Option<GprIndex>)
        ensures
            match r {
                Some(i) => i.spec_index() == raw,
                None => raw >= GPR_COUNT,
            },
    {
        match raw {
            0 => Some(GprIndex::Zero),
            1 => Some(GprIndex::RA),
            2 => Some(GprIndex::SP),
            3 => Some(GprIndex::GP),
            4 => Some(GprIndex::TP),
            5 => Some(GprIndex::T0),
            6 => Some(GprIndex::T1),
            7 => Some(GprIndex::T2),
            8 => Some(GprIndex::S0),
            9 => Some(GprIndex::S1),
            10 => Some(GprIndex::A0),
            11 => Some(GprIndex::A1),
            12 => Some(GprIndex::A2),
            13 => Some(GprIndex::A3),
            14 => Some(GprIndex::A4),
            15 => Some(GprIndex::A5),
            16 => Some(GprIndex::A6),
            17 => Some(GprIndex::A7),
            18 => Some(GprIndex::S2),
            19 => Some(GprIndex::S3),
            20 => Some(GprIndex::S4),
            21 => Some(GprIndex::S5),
            22 => Some(GprIndex::S6),
            23 => Some(GprIndex::S7),
            24 => Some(GprIndex::S8),
            25 => Some(GprIndex::S9),
            26 => Some(GprIndex::S10),
            27 => Some(GprIndex::S11),
            28 => Some(GprIndex::T3),
            29 => Some(GprIndex::T4),
            30 => Some(GprIndex::T5),
            31 => Some(GprIndex::T6),
            _ => None,
        }
    }
}

/// No two registers share an architectural number.
pub proof fn lemma_index_injective(a: GprIndex, b: GprIndex)
    requires
        a.spec_index() == b.spec_index(),
    ensures
        a == b,
{
}

/// A register file as a sequence of words: 32 of them, the first one zero.
pub open spec fn gprs_wf(regs: Seq<u64>) -> bool {
    regs.len() == GPR_COUNT && regs[0] == 0
}

/// The register file in which every register holds zero.
pub open spec fn zeroed_gprs() -> Seq<u64> {
    Seq::new(GPR_COUNT as nat, |i: int| 0u64)
}

/// The word that register `index` holds in the register file `regs`.
pub open spec fn read_reg(regs: Seq<u64>, index: GprIndex) -> u64 {
    regs[index.spec_index()]
}

/// The register file `regs` after `val` was written to register `index`.
/// The zero register takes no write.
pub open spec fn write_reg(regs: Seq<u64>, index: GprIndex, val: u64) -> Seq<u64> {
    if index is Zero {
        regs
    } else {
        regs.update(index.spec_index(), val)
    }
}

/// Register zero reads as zero after every write, also after one to register
/// zero itself; any other register holds what was last written to it, and a
/// write changes no register but the one written.
pub proof fn lemma_read_after_write(regs: Seq<u64>, index: GprIndex, val: u64, other: GprIndex)
    requires
        gprs_wf(regs),
    ensures
        gprs_wf(write_reg(regs, index, val)),
        read_reg(write_reg(regs, GprIndex::Zero, val), GprIndex::Zero) == 0,
        read_reg(write_reg(regs, index, val), GprIndex::Zero) == 0,
        index !is Zero ==> read_reg(write_reg(regs, index, val), index) == val,
        other != index ==> read_reg(write_reg(regs, index, val), other) == read_reg(regs, other),
{
}

/// The general purpose registers of one execution context.
/// Register zero is hard-wired: it reads as zero whatever was written to it.
#[derive(Clone, Copy, Debug)]
pub struct GeneralPurposeRegisters([u64; 32]);

impl View for GeneralPurposeRegisters {
    type V = Seq<u64>;

    closed spec fn view(&self) -> Seq<u64> {
        self.0@.update(0, 0)
    }
}

impl GeneralPurposeRegisters {
    #[verifier::type_invariant]
    spec fn zero_is_zero(self) -> bool {
        self.0@[0] == 0
    }

    /// Every register file has 32 registers, and its register zero holds zero.
    pub proof fn lemma_wf(self)
        ensures
            gprs_wf(self@),
    {
    }

    /// A register file in which every register holds zero.
    pub fn new() -> (regs: GeneralPurposeRegisters)
        ensures
            regs@ == zeroed_gprs(),
            gprs_wf(regs@),
    {
        let regs = GeneralPurposeRegisters([0u64; 32]);
        assert(regs@ =~= zeroed_gprs());
        regs
    }

    /// Reads register `reg_index`.
    pub fn reg(&self, reg_index: GprIndex) -> (val: u64)
        ensures
            val == read_reg(self@, reg_index),
            reg_index is Zero ==> val == 0,
            gprs_wf(self@),
    {
        proof {
            use_type_invariant(self);
        }
        self.0[reg_index.index()]
    }

    /// Writes `val` to register `reg_index`; a write to the zero register is dropped.
    pub fn set_reg(&mut self, reg_index: GprIndex, val: u64)
        ensures
            final(self)@ == write_reg(old(self)@, reg_index, val),
            gprs_wf(final(self)@),
    {
        proof {
            use_type_invariant(&*self);
        }
        if reg_index == GprIndex::Zero {
            return ;
        }
        let i = reg_index.index();
        self.0[i] = val;
    }

    /// The argument registers `a0` to `a7`, in this order.
    pub fn a_regs(&self) -> (a: [u64; 8])
        ensures
            a@ == self@.subrange(10, 18),
            gprs_wf(self@),
    {
        proof {
            use_type_invariant(self);
        }
        let a = [
            self.0[10],
            self.0[11],
            self.0[12],
            self.0[13],
            self.0[14],
            self.0[15],
            self.0[16],
            self.0[17],
        ];
        assert(a@ =~= self@.subrange(10, 18));
        a
    }
}

impl Default for GeneralPurposeRegisters {
    fn default() -> (regs: GeneralPurposeRegisters)
        ensures
            regs@ == zeroed_gprs(),
            gprs_wf(regs@),
    {
        GeneralPurposeRegisters::new()
    }
}

/// What the hypervisor keeps of its own context while a guest runs:
/// the registers and CSRs that the guest may clobber.
#[derive(Clone, Copy, Debug)]
pub struct HypervisorCpuState {
    pub gprs: GeneralPurposeRegisters,
    pub sstatus: u64,
    pub hstatus: u64,
    pub scounteren: u64,
    pub stvec: u64,
    pub sscratch: u64,
}

/// Mathematical model of a [`HypervisorCpuState`].
pub struct HypervisorCpuModel {
    pub gprs: Seq<u64>,
    pub sstatus: u64,
    pub hstatus: u64,
    pub scounteren: u64,
    pub stvec: u64,
    pub sscratch: u64,
}

impl View for HypervisorCpuState {
    type V = HypervisorCpuModel;

    open spec fn view(&self) -> HypervisorCpuModel {
        HypervisorCpuModel {
            gprs: self.gprs@,
            sstatus: self.sstatus,
            hstatus: self.hstatus,
            scounteren: self.scounteren,
            stvec: self.stvec,
            sscratch: self.sscratch,
        }
    }
}

impl Default for HypervisorCpuState {
    fn default() -> (s: HypervisorCpuState)
        ensures
            s@ == (HypervisorCpuModel {
                gprs: zeroed_gprs(),
                sstatus: 0,
                hstatus: 0,
                scounteren: 0,
                stvec: 0,
                sscratch: 0,
            }),
    {
        HypervisorCpuState {
            gprs: GeneralPurposeRegisters::new(),
            sstatus: 0,
            hstatus: 0,
            scounteren: 0,
            stvec: 0,
            sscratch: 0,
        }
    }
}

/// The guest context that is live while the guest runs: its registers,
/// its view of three CSRs, and its program counter.
#[derive(Clone, Copy, Debug)]
pub struct GuestCpuState {
    pub gprs: GeneralPurposeRegisters,
    pub sstatus: u64,
    pub hstatus: u64,
    pub scounteren: u64,
    pub sepc: u64,
}

/// Mathematical model of a [`GuestCpuState`].
pub struct GuestCpuModel {
    pub gprs: Seq<u64>,
    pub sstatus: u64,
    pub hstatus: u64,
    pub scounteren: u64,
    pub sepc: u64,
}

impl View for GuestCpuState {
    type V = GuestCpuModel;

    open spec fn view(&self) -> GuestCpuModel {
        GuestCpuModel {
            gprs: self.gprs@,
            sstatus: self.sstatus,
            hstatus: self.hstatus,
            scounteren: self.scounteren,
            sepc: self.sepc,
        }
    }
}

impl Default for GuestCpuState {
    fn default() -> (s: GuestCpuState)
        ensures
            s@ == (GuestCpuModel {
                gprs: zeroed_gprs(),
                sstatus: 0,
                hstatus: 0,
                scounteren: 0,
                sepc: 0,
            }),
    {
        GuestCpuState {
            gprs: GeneralPurposeRegisters::new(),
            sstatus: 0,
            hstatus: 0,
            scounteren: 0,
            sepc: 0,
        }
    }
}

/// The VS-level CSRs of a guest. They are banked by the hardware, so they
/// are exchanged when a vCPU is activated or deactivated, not on every exit.
#[derive(Clone, Copy, Debug, PartialEq, Eq, Structural)]
pub struct GuestVsCsrs {
    pub htimedelta: u64,
    pub vsstatus: u64,
    pub vsie: u64,
    pub vstvec: u64,
    pub vsscratch: u64,
    pub vsepc: u64,
    pub vscause: u64,
    pub vstval: u64,
    pub vsatp: u64,
    pub vstimecmp: u64,
}

impl Default for GuestVsCsrs {
    fn default() -> (s: GuestVsCsrs)
        ensures
            s == (GuestVsCsrs {
                htimedelta: 0,
                vsstatus: 0,
                vsie: 0,
                vstvec: 0,
                vsscratch: 0,
                vsepc: 0,
                vscause: 0,
                vstval: 0,
                vsatp: 0,
                vstimecmp: 0,
            }),
    {
        GuestVsCsrs {
            htimedelta: 0,
            vsstatus: 0,
            vsie: 0,
            vstvec: 0,
            vsscratch: 0,
            vsepc: 0,
            vscause: 0,
            vstval: 0,
            vsatp: 0,
            vstimecmp: 0,
        }
    }
}

/// The HS-level state that is emulated for a guest.
#[derive(Clone, Copy, Debug, PartialEq, Eq, Structural)]
pub struct GuestVirtualHsCsrs {
    pub hie: u64,
    pub hgeie: u64,
    pub hgatp: u64,
}

impl Default for GuestVirtualHsCsrs {
    fn default() -> (s: GuestVirtualHsCsrs)
        ensures
            s == (GuestVirtualHsCsrs { hie: 0, hgeie: 0, hgatp: 0 }),
    {
        GuestVirtualHsCsrs { hie: 0, hgeie: 0, hgatp: 0 }
    }
}

/// The registers that describe the most recent trap out of the guest.
#[derive(Clone, Copy, Debug, PartialEq, Eq, Structural)]
pub struct VmCpuTrapState {
    pub scause: u64,
    pub stval: u64,
    pub htval: u64,
    pub htinst: u64,
}

impl Default for VmCpuTrapState {
    fn default() -> (s: VmCpuTrapState)
        ensures
            s == (VmCpuTrapState { scause: 0, stval: 0, htval: 0, htinst: 0 }),
    {
        VmCpuTrapState { scause: 0, stval: 0, htval: 0, htinst: 0 }
    }
}

/// Everything that is saved and restored when control passes between the
/// hypervisor and one guest vCPU.
#[derive(Clone, Copy, Debug)]
pub struct VmCpuRegisters {
    pub hyp_regs: HypervisorCpuState,
    pub guest_regs: GuestCpuState,
    pub vs_csrs: GuestVsCsrs,
    pub virtual_hs_csrs: GuestVirtualHsCsrs,
    pub trap_csrs: VmCpuTrapState,
}

/// Mathematical model of a [`VmCpuRegisters`].
pub struct VmCpuModel {
    pub hyp_regs: HypervisorCpuModel,
    pub guest_regs: GuestCpuModel,
    pub vs_csrs: GuestVsCsrs,
    pub virtual_hs_csrs: GuestVirtualHsCsrs,
    pub trap_csrs: VmCpuTrapState,
}

impl VmCpuModel {
    /// Both register files have 32 registers, and register zero holds zero.
    pub open spec fn wf(self) -> bool {
        gprs_wf(self.hyp_regs.gprs) && gprs_wf(self.guest_regs.gprs)
    }

    /// The state in which every register and CSR holds zero.
    pub open spec fn zeroed() -> VmCpuModel {
        VmCpuModel {
            hyp_regs: HypervisorCpuModel {
                gprs: zeroed_gprs(),
                sstatus: 0,
                hstatus: 0,
                scounteren: 0,
                stvec: 0,
                sscratch: 0,
            },
            guest_regs: GuestCpuModel {
                gprs: zeroed_gprs(),
                sstatus: 0,
                hstatus: 0,
                scounteren: 0,
                sepc: 0,
            },
            vs_csrs: GuestVsCsrs {
                htimedelta: 0,
                vsstatus: 0,
                vsie: 0,
                vstvec: 0,
                vsscratch: 0,
                vsepc: 0,
                vscause: 0,
                vstval: 0,
                vsatp: 0,
                vstimecmp: 0,
            },
            virtual_hs_csrs: GuestVirtualHsCsrs { hie: 0, hgeie: 0, hgatp: 0 },
            trap_csrs: VmCpuTrapState { scause: 0, stval: 0, htval: 0, htinst: 0 },
        }
    }
}

impl VmCpuRegisters {
    /// The model of every register record is well-formed.
    pub proof fn lemma_wf(self)
        ensures
            self@.wf(),
    {
        self.hyp_regs.gprs.lemma_wf();
        self.guest_regs.gprs.lemma_wf();
    }
}

impl View for VmCpuRegisters {
    type V = VmCpuModel;

    open spec fn view(&self) -> VmCpuModel {
        VmCpuModel {
            hyp_regs: self.hyp_regs@,
            guest_regs: self.guest_regs@,
            vs_csrs: self.vs_csrs,
            virtual_hs_csrs: self.virtual_hs_csrs,
            trap_csrs: self.trap_csrs,
        }
    }
}

impl Default for VmCpuRegisters {
    fn default() -> (s: VmCpuRegisters)
        ensures
            s@ == VmCpuModel::zeroed(),
    {
        VmCpuRegisters {
            hyp_regs: HypervisorCpuState::default(),
            guest_regs: GuestCpuState::default(),
            vs_csrs: GuestVsCsrs::default(),
            virtual_hs_csrs: GuestVirtualHsCsrs::default(),
            trap_csrs: VmCpuTrapState::default(),
        }
    }
}


} // verus!
