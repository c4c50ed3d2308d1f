//! One virtual CPU: its state, and what the hypervisor does when the guest traps.
//!
//! The guest runs until it traps. The host then reads the trap registers and
//! hands them to [`RISCVVCpu::vmexit_handler`], which decides what the trap
//! means. Either the exit is settled at once, or the host has work to do for
//! the guest first (an SBI call, a timer interrupt to pass on); it reports
//! the outcome to [`RISCVVCpu::complete`], which writes the guest's return
//! registers and settles the exit.
use vstd::prelude::*;
use vstd::pervasive::unreached;
use crate::regs::{
    gprs_wf, read_reg, write_reg, zeroed_gprs, GprIndex, GuestCpuModel, VmCpuModel,
    VmCpuRegisters, VmCpuTrapState,
};
use crate::sbi::{
    SbiRet, EID_HSM, HART_START, HART_STOP, HART_SUSPEND, LEGACY_CONSOLE_GETCHAR,
    LEGACY_CONSOLE_PUTCHAR, LEGACY_SET_TIMER, LEGACY_SHUTDOWN, RET_ERR_NOT_SUPPORTED,
};
use crate::consts::traps::interrupt::{SUPERVISOR_TIMER, VIRTUAL_SUPERVISOR_TIMER};
use crate::consts::traps::irq::{S_EXT, S_TIMER};
use crate::trap::{
    lemma_scause_layout, Trap, EXCEPTION_LOAD_GUEST_PAGE_FAULT,
    EXCEPTION_STORE_GUEST_PAGE_FAULT, EXCEPTION_VIRTUAL_SUPERVISOR_ENV_CALL,
    INTERRUPT_SUPERVISOR_EXTERNAL, INTERRUPT_SUPERVISOR_TIMER,
};
use crate::{EID_HVC, RISCVVCpuCreateConfig};
use crate::addr::{GuestPhysAddr, HostPhysAddr, MappingFlags};
use crate::csrs::defs::hstatus::{spv, spvp, Register};
use crate::csrs::defs::{hvip, sie};
use crate::csrs::{field_read, FieldValue};

verus! {

/// Width in bytes of the `ecall` instruction.
pub const ECALL_INSTR_LEN: u64 = 4;

/// Translation mode of `hgatp` for a three-level guest page table with 39-bit addresses.
pub const HGATP_MODE_SV39X4: u64 = 8;

/// The architecture dependent configuration of a vCPU.
#[derive(Clone, Copy, Debug, Default)]
pub struct VCpuConfig {}

/// Why the guest stopped running and control is back with the caller.
#[derive(Clone, Copy, Debug, PartialEq, Eq)]
pub enum ExitReason {
    /// Nothing for the caller to do: the guest can be resumed.
    Nothing,
    /// The guest asks the hypervisor for service `nr`.
    Hypercall { nr: u64, args: [u64; 6] },
    /// The guest asks that another of its harts be started.
    CpuUp { target_cpu: u64, entry_point: GuestPhysAddr, arg: u64 },
    /// The guest stops this hart.
    CpuDown,
    /// The guest suspends this hart.
    Halt,
    /// The guest shuts the system down.
    SystemDown,
    /// An external interrupt arrived for the host.
    ExternalInterrupt { vector: u64 },
    /// The guest touched a guest-physical address that is not mapped.
    NestedPageFault { addr: GuestPhysAddr, access_flags: MappingFlags },
}

/// Work that only the host can do, and that is due before the guest resumes.
#[derive(Clone, Copy, Debug, PartialEq, Eq)]
pub enum HostAction {
    /// Program the timer to fire at `stime_value`, then clear the bits
    /// `hvip_clear` of `hvip`: the guest's virtual timer interrupt is no
    /// longer pending.
    SetTimer { stime_value: u64, hvip_clear: u64 },
    /// Write the byte `ch` to the console.
    ConsolePutchar { ch: u64 },
    /// Read a byte from the console.
    ConsoleGetchar,
    /// Pass the call on to the SBI implementation below the hypervisor.
    Forward { extension_id: u64, function_id: u64, params: [u64; 6] },
    /// The host's timer fired. Set the bits `hvip_set` of `hvip`, which
    /// makes the guest's virtual timer interrupt pending, then clear the
    /// bits `sie_clear` of `sie`, which keeps the host's timer interrupt off
    /// until the guest is entered again.
    InjectTimer { hvip_set: u64, sie_clear: u64 },
}

/// What the exit handler decided.
#[derive(Clone, Copy, Debug, PartialEq, Eq)]
pub enum VmExit {
    /// The exit is settled.
    Exit(ExitReason),
    /// The host performs the action and reports to [`RISCVVCpu::complete`].
    Action(HostAction),
}

/// The kinds of trap that the exit handler knows.
#[derive(Clone, Copy, Debug, PartialEq, Eq, Structural)]
pub enum ExitCause {
    /// Environment call from the guest's supervisor mode.
    GuestEnvCall,
    /// Timer interrupt for the host.
    HostTimer,
    /// External interrupt for the host.
    HostExternal,
    /// Guest-page fault on a load or a store.
    GuestPageFault,
}

/// The kind of trap that the `scause` value stands for, if the exit handler
/// knows it: an exception is encoded by its code, an interrupt by its code
/// with 2^63 added.
pub open spec fn exit_cause(scause: u64) -> Option<ExitCause> {
    if scause == EXCEPTION_VIRTUAL_SUPERVISOR_ENV_CALL {
        Some(ExitCause::GuestEnvCall)
    } else if scause == EXCEPTION_LOAD_GUEST_PAGE_FAULT || scause
        == EXCEPTION_STORE_GUEST_PAGE_FAULT {
        Some(ExitCause::GuestPageFault)
    } else if scause == S_TIMER {
        Some(ExitCause::HostTimer)
    } else if scause == S_EXT {
        Some(ExitCause::HostExternal)
    } else {
        None
    }
}

impl ExitCause {
    /// The kind of trap that `scause` stands for, if the exit handler knows it.
    pub fn from_scause(scause: u64) -> (cause: Option<ExitCause>)
        ensures
            cause == exit_cause(scause),
    {
        proof {
            lemma_scause_layout(scause);
        }
        match Trap::from_scause(scause) {
            Trap::Exception(code) => {
                if code == EXCEPTION_VIRTUAL_SUPERVISOR_ENV_CALL {
                    Some(ExitCause::GuestEnvCall)
                } else if code == EXCEPTION_LOAD_GUEST_PAGE_FAULT || code
                    == EXCEPTION_STORE_GUEST_PAGE_FAULT {
                    Some(ExitCause::GuestPageFault)
                } else {
                    None
                }
            },
            Trap::Interrupt(code) => {
                if code == INTERRUPT_SUPERVISOR_TIMER {
                    Some(ExitCause::HostTimer)
                } else if code == INTERRUPT_SUPERVISOR_EXTERNAL {
                    Some(ExitCause::HostExternal)
                } else {
                    None
                }
            },
        }
    }
}

/// Argument register `a<n>` of the register file `gprs`.
pub open spec fn arg_reg(gprs: Seq<u64>, n: int) -> u64 {
    gprs[10 + n]
}

/// The six call arguments `a0` to `a5` of the register file `gprs`.
pub open spec fn call_params(gprs: Seq<u64>) -> [u64; 6] {
    [
        arg_reg(gprs, 0),
        arg_reg(gprs, 1),
        arg_reg(gprs, 2),
        arg_reg(gprs, 3),
        arg_reg(gprs, 4),
        arg_reg(gprs, 5),
    ]
}

/// What an environment call means. The extension is named by `a7`, the
/// function by `a6`; `a0` to `a5` are the arguments.
pub open spec fn ecall_exit(gprs: Seq<u64>) -> VmExit {
    let extension_id = arg_reg(gprs, 7);
    let function_id = arg_reg(gprs, 6);
    if extension_id == LEGACY_SET_TIMER {
        VmExit::Action(
            HostAction::SetTimer {
                stime_value: arg_reg(gprs, 0),
                hvip_clear: VIRTUAL_SUPERVISOR_TIMER,
            },
        )
    } else if extension_id == LEGACY_CONSOLE_PUTCHAR {
        VmExit::Action(HostAction::ConsolePutchar { ch: arg_reg(gprs, 0) })
    } else if extension_id == LEGACY_CONSOLE_GETCHAR {
        VmExit::Action(HostAction::ConsoleGetchar)
    } else if extension_id == LEGACY_SHUTDOWN {
        VmExit::Exit(ExitReason::SystemDown)
    } else if extension_id < LEGACY_SHUTDOWN {
        VmExit::Exit(ExitReason::Nothing)
    } else if extension_id == EID_HSM && function_id == HART_START {
        VmExit::Exit(
            ExitReason::CpuUp {
                target_cpu: arg_reg(gprs, 0),
                entry_point: GuestPhysAddr(arg_reg(gprs, 1)),
                arg: arg_reg(gprs, 2),
            },
        )
    } else if extension_id == EID_HSM && function_id == HART_STOP {
        VmExit::Exit(ExitReason::CpuDown)
    } else if extension_id == EID_HSM && function_id == HART_SUSPEND {
        VmExit::Exit(ExitReason::Halt)
    } else if extension_id == EID_HVC {
        VmExit::Exit(ExitReason::Hypercall { nr: function_id, args: call_params(gprs) })
    } else {
        VmExit::Action(
            HostAction::Forward { extension_id, function_id, params: call_params(gprs) },
        )
    }
}

/// The guest-physical address of a guest-page fault: `htval` holds it
/// without its two lowest bits, which are those of `stval`.
pub open spec fn fault_addr(htval: u64, stval: u64) -> u64 {
    (htval << 2) | (stval & 0x3)
}

/// What a trap of a known kind means, for the guest registers `gprs`.
pub open spec fn vmexit_of(cause: ExitCause, gprs: Seq<u64>, trap: VmCpuTrapState) -> VmExit {
    match cause {
        ExitCause::GuestEnvCall => ecall_exit(gprs),
        ExitCause::HostTimer => VmExit::Action(
            HostAction::InjectTimer {
                hvip_set: VIRTUAL_SUPERVISOR_TIMER,
                sie_clear: SUPERVISOR_TIMER,
            },
        ),
        ExitCause::HostExternal => VmExit::Exit(ExitReason::ExternalInterrupt { vector: 0 }),
        ExitCause::GuestPageFault => VmExit::Exit(
            ExitReason::NestedPageFault {
                addr: GuestPhysAddr(fault_addr(trap.htval, trap.stval)),
                access_flags: MappingFlags(0),
            },
        ),
    }
}

/// The guest state `g` with its program counter moved on by `len` bytes, modulo 2^64.
pub open spec fn advanced(g: GuestCpuModel, len: u64) -> GuestCpuModel {
    GuestCpuModel { sepc: g.sepc.wrapping_add(len), ..g }
}

/// Whether `extension_id` lies in the range of the legacy extensions, but
/// names none that is carried out.
pub open spec fn unsupported_legacy(extension_id: u64) -> bool {
    LEGACY_CONSOLE_GETCHAR < extension_id < LEGACY_SHUTDOWN
}

/// The guest state as the exit handler leaves it after an environment call.
/// Where the host has work to do first, and where the guest shuts down,
/// nothing changes. Else the call is settled, and the guest continues
/// behind it; a legacy call that is not supported returns that error.
pub open spec fn ecall_guest(g: GuestCpuModel) -> GuestCpuModel {
    let exit = ecall_exit(g.gprs);
    if exit is Action || exit == VmExit::Exit(ExitReason::SystemDown) {
        g
    } else if unsupported_legacy(arg_reg(g.gprs, 7)) {
        advanced(
            GuestCpuModel { gprs: write_reg(g.gprs, GprIndex::A0, RET_ERR_NOT_SUPPORTED), ..g },
            ECALL_INSTR_LEN,
        )
    } else {
        advanced(g, ECALL_INSTR_LEN)
    }
}

/// The vCPU state after the exit handler has seen `trap`: the trap registers
/// are those of `trap`, and only an environment call changes anything else.
pub open spec fn vmexit_state(s: VmCpuModel, cause: ExitCause, trap: VmCpuTrapState) -> VmCpuModel {
    VmCpuModel {
        guest_regs: if cause == ExitCause::GuestEnvCall {
            ecall_guest(s.guest_regs)
        } else {
            s.guest_regs
        },
        trap_csrs: trap,
        ..s
    }
}

/// The guest state after the host has performed `action` with the reply `ret`.
pub open spec fn completed_guest(g: GuestCpuModel, action: HostAction, ret: SbiRet) -> GuestCpuModel {
    match action {
        HostAction::SetTimer { .. } => advanced(
            GuestCpuModel { gprs: write_reg(g.gprs, GprIndex::A0, 0), ..g },
            ECALL_INSTR_LEN,
        ),
        HostAction::ConsolePutchar { .. } => advanced(g, ECALL_INSTR_LEN),
        HostAction::ConsoleGetchar => advanced(
            GuestCpuModel { gprs: write_reg(g.gprs, GprIndex::A0, ret.error), ..g },
            ECALL_INSTR_LEN,
        ),
        HostAction::Forward { .. } => advanced(
            GuestCpuModel {
                gprs: write_reg(
                    write_reg(g.gprs, GprIndex::A0, ret.error),
                    GprIndex::A1,
                    ret.value,
                ),
                ..g
            },
            ECALL_INSTR_LEN,
        ),
        HostAction::InjectTimer { .. } => g,
    }
}

/// `sstatus.SIE`: interrupts are enabled in supervisor mode. The host clears
/// the bit before it enters the guest, and sets it again once it is back.
pub const SSTATUS_SIE: u64 = 1 << 1;

/// `sstatus.SPP`: the privilege mode before the trap was supervisor mode.
pub const SSTATUS_SPP: u64 = 1 << 8;

/// The `sstatus` that a guest starts with, where the host's is `sstatus`.
pub open spec fn guest_sstatus(sstatus: u64) -> u64 {
    sstatus | SSTATUS_SPP
}

/// The `hstatus` that a guest starts with, where the host's is `hstatus`:
/// bit 7 (`SPV`) and bit 8 (`SPVP`) are set.
pub open spec fn guest_hstatus(hstatus: u64) -> u64 {
    hstatus | (1u64 << 7) | (1u64 << 8)
}

/// The value of `hgatp` for a guest page table rooted at `root`: the
/// translation mode in the top four bits, the root's page number below.
pub open spec fn hgatp_of(root: u64) -> u64 {
    (HGATP_MODE_SV39X4 << 60) | (root >> 12)
}

/// The state of a vCPU that was just created for `config`.
pub open spec fn created(config: RISCVVCpuCreateConfig) -> VmCpuModel {
    VmCpuModel {
        guest_regs: GuestCpuModel {
            gprs: write_reg(
                write_reg(zeroed_gprs(), GprIndex::A0, config.hart_id),
                GprIndex::A1,
                config.dtb_addr.0,
            ),
            ..VmCpuModel::zeroed().guest_regs
        },
        ..VmCpuModel::zeroed()
    }
}

/// After an environment call the guest continues behind the `ecall`
/// instruction, four bytes on, whatever the call was and whatever the host
/// replied; only a guest that shuts the system down stays where it is.
pub proof fn lemma_ecall_advances_pc(s: VmCpuModel, trap: VmCpuTrapState, ret: SbiRet)
    ensures
        ({
            let pc = s.guest_regs.sepc;
            let next = pc.wrapping_add(ECALL_INSTR_LEN);
            let after = vmexit_state(s, ExitCause::GuestEnvCall, trap).guest_regs;
            &&& pc + 4 <= u64::MAX ==> next == pc + 4
            &&& match vmexit_of(ExitCause::GuestEnvCall, s.guest_regs.gprs, trap) {
                VmExit::Exit(ExitReason::SystemDown) => after.sepc == pc,
                VmExit::Exit(_) => after.sepc == next,
                VmExit::Action(action) => after.sepc == pc && completed_guest(
                    after,
                    action,
                    ret,
                ).sepc == next,
            }
        }),
{
}

/// A call to the hypercall extension reaches the caller as it was made: the
/// function identifier of `a6` and the six words of `a0` to `a5`, unchanged;
/// and the guest continues behind the call.
pub proof fn lemma_hypercall_passthrough(s: VmCpuModel, trap: VmCpuTrapState)
    requires
        arg_reg(s.guest_regs.gprs, 7) == EID_HVC,
    ensures
        vmexit_of(ExitCause::GuestEnvCall, s.guest_regs.gprs, trap) == VmExit::Exit(
            ExitReason::Hypercall {
                nr: arg_reg(s.guest_regs.gprs, 6),
                args: [
                    arg_reg(s.guest_regs.gprs, 0),
                    arg_reg(s.guest_regs.gprs, 1),
                    arg_reg(s.guest_regs.gprs, 2),
                    arg_reg(s.guest_regs.gprs, 3),
                    arg_reg(s.guest_regs.gprs, 4),
                    arg_reg(s.guest_regs.gprs, 5),
                ],
            },
        ),
        vmexit_state(s, ExitCause::GuestEnvCall, trap).guest_regs == advanced(
            s.guest_regs,
            ECALL_INSTR_LEN,
        ),
{
}

/// Handling an exit leaves the hypervisor's saved context as it was, and
/// with it the VS-level and the emulated HS-level CSRs of the guest.
pub proof fn lemma_exit_keeps_host_state(
    s: VmCpuModel,
    cause: ExitCause,
    trap: VmCpuTrapState,
    action: HostAction,
    ret: SbiRet,
)
    ensures
        ({
            let after = vmexit_state(s, cause, trap);
            &&& after.hyp_regs == s.hyp_regs
            &&& after.vs_csrs == s.vs_csrs
            &&& after.virtual_hs_csrs == s.virtual_hs_csrs
            &&& s.wf() ==> after.wf()
            &&& after.wf() ==> gprs_wf(completed_guest(after.guest_regs, action, ret).gprs)
        }),
{
}

/// The address of a guest-page fault is made of `htval`, which lacks the two
/// lowest bits, and of the two lowest bits of `stval`; no other bit of
/// `stval` goes into it.
pub proof fn lemma_fault_addr(htval: u64, stval: u64)
    ensures
        stval < 4 ==> fault_addr(htval, stval) == (htval << 2) | stval,
        fault_addr(htval, stval) == fault_addr(htval, stval & 0x3),
        fault_addr(htval, stval) >> 2 == htval & 0x3fff_ffff_ffff_ffff,
        fault_addr(htval, stval) & 0x3 == stval & 0x3,
        htval < 0x4000_0000_0000_0000 ==> fault_addr(htval, stval) == 4 * htval + stval % 4,
{
    assert(stval < 4 ==> (htval << 2) | (stval & 0x3) == (htval << 2) | stval) by (bit_vector);
    assert((htval << 2) | (stval & 0x3) == (htval << 2) | ((stval & 0x3) & 0x3)) by (bit_vector);
    assert(((htval << 2) | (stval & 0x3)) >> 2 == htval & 0x3fff_ffff_ffff_ffff) by (bit_vector);
    assert(((htval << 2) | (stval & 0x3)) & 0x3 == stval & 0x3) by (bit_vector);
    assert(htval < 0x4000_0000_0000_0000 ==> (htval << 2) | (stval & 0x3) == 4 * htval + stval % 4)
        by (bit_vector);
}

/// The status registers that a guest starts with say that it was in
/// supervisor mode with virtualization on; every other bit is the host's.
pub proof fn lemma_guest_status(sstatus: u64, hstatus: u64)
    ensures
        field_read(0x1, 8, guest_sstatus(sstatus)) == 1,
        guest_sstatus(sstatus) & !SSTATUS_SPP == sstatus & !SSTATUS_SPP,
        field_read(spv::MASK, spv::SHIFT, guest_hstatus(hstatus)) == spv::Value::Supervisor.number(),
        field_read(spvp::MASK, spvp::SHIFT, guest_hstatus(hstatus))
            == spvp::Value::Supervisor.number(),
        guest_hstatus(hstatus) & !0x180 == hstatus & !0x180,
{
    assert(((sstatus | (1u64 << 8)) & (0x1u64 << 8usize)) >> 8usize == 1) by (bit_vector);
    assert((sstatus | (1u64 << 8)) & !(1u64 << 8) == sstatus & !(1u64 << 8)) by (bit_vector);
    assert(((hstatus | (1u64 << 7) | (1u64 << 8)) & (0x1u64 << 7usize)) >> 7usize == 1)
        by (bit_vector);
    assert(((hstatus | (1u64 << 7) | (1u64 << 8)) & (0x1u64 << 8usize)) >> 8usize == 1)
        by (bit_vector);
    assert((hstatus | (1u64 << 7) | (1u64 << 8)) & !0x180 == hstatus & !0x180) by (bit_vector);
}

/// The value of `hgatp` has the translation mode, 8, in its top four bits
/// and the page number of the root, which is the root shifted right by 12,
/// in the 60 bits below.
pub proof fn lemma_hgatp_encoding(root: u64)
    ensures
        hgatp_of(root) >> 60 == HGATP_MODE_SV39X4,
        hgatp_of(root) & 0x0fff_ffff_ffff_ffff == root >> 12,
{
    assert(((8u64 << 60) | (root >> 12)) >> 60 == 8) by (bit_vector);
    assert(((8u64 << 60) | (root >> 12)) & 0x0fff_ffff_ffff_ffff == root >> 12) by (bit_vector);
}

/// A virtual CPU within a guest.
pub struct RISCVVCpu {
    regs: VmCpuRegisters,
}

impl View for RISCVVCpu {
    type V = VmCpuModel;

    closed spec fn view(&self) -> VmCpuModel {
        self.regs@
    }
}

impl RISCVVCpu {
    /// The state of every vCPU is well-formed.
    pub proof fn lemma_wf(self)
        ensures
            self@.wf(),
    {
        self.regs.lemma_wf();
    }

    /// Creates the vCPU of hart `config.hart_id`. All of its state is zero,
    /// but for the guest's `a0`, which holds the hart's identifier, and its
    /// `a1`, which holds the address of the device tree blob.
    pub fn new(config: RISCVVCpuCreateConfig) -> (vcpu: RISCVVCpu)
        ensures
            vcpu@ == created(config),
            vcpu@.wf(),
    {
        let mut regs = VmCpuRegisters::default();
        regs.guest_regs.gprs.set_reg(GprIndex::A0, config.hart_id);
        regs.guest_regs.gprs.set_reg(GprIndex::A1, config.dtb_addr.0);
        RISCVVCpu { regs }
    }

    /// Sets the guest's program counter to `entry`.
    pub fn set_entry(&mut self, entry: GuestPhysAddr)
        ensures
            final(self)@ == (VmCpuModel {
                guest_regs: GuestCpuModel { sepc: entry.0, ..old(self)@.guest_regs },
                ..old(self)@
            }),
    {
        self.regs.guest_regs.sepc = entry.0;
    }

    /// Records `ept_root` as the root of the guest's second-stage page table.
    /// The hardware register is written when the vCPU is bound.
    pub fn set_ept_root(&mut self, ept_root: HostPhysAddr)
        ensures
            final(self)@ == (VmCpuModel {
                virtual_hs_csrs: crate::regs::GuestVirtualHsCsrs {
                    hgatp: hgatp_of(ept_root.0),
                    ..old(self)@.virtual_hs_csrs
                },
                ..old(self)@
            }),
    {
        self.regs.virtual_hs_csrs.hgatp = HGATP_MODE_SV39X4 << 60 | ept_root.0 >> 12;
    }

    /// The value that the host writes to `hgatp` to bind this vCPU to the
    /// hart that will run it.
    pub fn bind(&self) -> (hgatp: u64)
        ensures
            hgatp == self@.virtual_hs_csrs.hgatp,
    {
        self.regs.virtual_hs_csrs.hgatp
    }

    /// Releases the vCPU from the hart that it was bound to. Nothing is to
    /// be done for that yet.
    pub fn unbind(&mut self)
        ensures
            final(self)@ == old(self)@,
    {
    }

    /// Gets one of the vCPU's general purpose registers.
    pub fn get_gpr(&self, index: GprIndex) -> (val: u64)
        ensures
            val == read_reg(self@.guest_regs.gprs, index),
            index is Zero ==> val == 0,
    {
        self.regs.guest_regs.gprs.reg(index)
    }

    /// Set one of the vCPU's general purpose register.
    pub fn set_gpr_from_gpr_index(&mut self, index: GprIndex, val: u64)
        ensures
            final(self)@ == (VmCpuModel {
                guest_regs: GuestCpuModel {
                    gprs: write_reg(old(self)@.guest_regs.gprs, index, val),
                    ..old(self)@.guest_regs
                },
                ..old(self)@
            }),
    {
        self.regs.guest_regs.gprs.set_reg(index, val);
    }

    /// Advance guest pc by `instr_len` bytes
    pub fn advance_pc(&mut self, instr_len: u64)
        ensures
            final(self)@ == (VmCpuModel {
                guest_regs: advanced(old(self)@.guest_regs, instr_len),
                ..old(self)@
            }),
    {
        self.regs.guest_regs.sepc = self.regs.guest_regs.sepc.wrapping_add(instr_len);
    }

    /// Gets the vCPU's registers.
    pub fn regs(&mut self) -> (regs: &mut VmCpuRegisters)
        ensures
            regs@ == old(self)@,
            final(self)@ == final(regs)@,
    {
        &mut self.regs
    }

    /// Takes the host's `sstatus` and `hstatus` as the templates of the
    /// guest's: the guest starts in supervisor mode (`sstatus.SPP`), with
    /// virtualization on (`hstatus.SPV`), and the hypervisor's accesses to
    /// guest memory are made as supervisor accesses (`hstatus.SPVP`).
    pub fn setup(&mut self, sstatus: u64, hstatus: u64)
        ensures
            final(self)@ == (VmCpuModel {
                guest_regs: GuestCpuModel {
                    sstatus: guest_sstatus(sstatus),
                    hstatus: guest_hstatus(hstatus),
                    ..old(self)@.guest_regs
                },
                ..old(self)@
            }),
    {
        self.regs.guest_regs.sstatus = sstatus | SSTATUS_SPP;
        let spv: FieldValue<Register> = FieldValue::from(spv::Value::Supervisor);
        let spvp: FieldValue<Register> = FieldValue::from(spvp::Value::Supervisor);
        let template = spv.and(spvp);
        proof {
            FieldValue::<Register>::lemma_spec_new(spv::MASK, spv::SHIFT, 1);
            FieldValue::<Register>::lemma_spec_new(spvp::MASK, spvp::SHIFT, 1);
            assert((hstatus & !((0x1u64 << 7usize) | (0x1u64 << 8usize))) | (((1u64 & 0x1u64)
                << 7usize) | ((1u64 & 0x1u64) << 8usize)) == hstatus | (1u64 << 7) | (1u64 << 8))
                by (bit_vector);
        }
        self.regs.guest_regs.hstatus = template.modify(hstatus);
    }

    /// Set one of the vCPU's general purpose register: `index` counts the
    /// argument registers, from 0 for `a0` to 7 for `a7`. Any other index
    /// names no register: nothing is written, and the result is `false`.
    pub fn set_gpr(&mut self, index: usize, val: u64) -> (written: bool)
        ensures
            written == (index < 8),
            final(self)@ == (if index < 8 {
                VmCpuModel {
                    guest_regs: GuestCpuModel {
                        gprs: old(self)@.guest_regs.gprs.update(10 + index, val),
                        ..old(self)@.guest_regs
                    },
                    ..old(self)@
                }
            } else {
                old(self)@
            }),
    {
        if index < 8 {
            match GprIndex::from_raw(index as u32 + 10) {
                Some(reg_index) => {
                    self.set_gpr_from_gpr_index(reg_index, val);
                    true
                },
                None => unreached(),
            }
        } else {
            false
        }
    }

    /// Decides what the trap described by `trap` means. The trap registers
    /// of the vCPU are overwritten with `trap` first. The cause must be one
    /// that the handler knows: there is nothing it could do with another.
    pub fn vmexit_handler(&mut self, trap: VmCpuTrapState) -> (exit: VmExit)
        requires
            exit_cause(trap.scause) is Some,
        ensures
            exit == vmexit_of(exit_cause(trap.scause).unwrap(), old(self)@.guest_regs.gprs, trap),
            final(self)@ == vmexit_state(old(self)@, exit_cause(trap.scause).unwrap(), trap),
    {
        self.regs.trap_csrs = trap;
        match ExitCause::from_scause(trap.scause) {
            Some(ExitCause::GuestEnvCall) => self.ecall_handler(),
            Some(ExitCause::HostTimer) => {
                let pending = hvip::vstimer().set();
                let host_timer = sie::stimer().set();
                proof {
                    FieldValue::<hvip::Register>::lemma_spec_new(0x1, 6, 0x1);
                    FieldValue::<sie::Register>::lemma_spec_new(0x1, 5, 0x1);
                    assert(0x1u64 << 6usize == 1u64 << 6 && 0x1u64 << 5usize == 1u64 << 5)
                        by (bit_vector);
                }
                VmExit::Action(
                    HostAction::InjectTimer {
                        hvip_set: pending.mask(),
                        sie_clear: host_timer.mask(),
                    },
                )
            },
            Some(ExitCause::HostExternal) => VmExit::Exit(
                ExitReason::ExternalInterrupt { vector: 0 },
            ),
            Some(ExitCause::GuestPageFault) => {
                let fault_addr = trap.htval << 2 | trap.stval & 0x3;
                VmExit::Exit(
                    ExitReason::NestedPageFault {
                        addr: GuestPhysAddr(fault_addr),
                        access_flags: MappingFlags(0),
                    },
                )
            },
            None => unreached(),
        }
    }

    /// Decides what the guest's environment call asks for, and settles the
    /// call where the host has nothing to do for it.
    fn ecall_handler(&mut self) -> (exit: VmExit)
        ensures
            exit == ecall_exit(old(self)@.guest_regs.gprs),
            final(self)@ == (VmCpuModel {
                guest_regs: ecall_guest(old(self)@.guest_regs),
                ..old(self)@
            }),
    {
        let exit = self.ecall_dispatch();
        match exit {
            VmExit::Action(_) => {},
            VmExit::Exit(ExitReason::SystemDown) => {},
            VmExit::Exit(ExitReason::Nothing) => {
                self.set_gpr_from_gpr_index(GprIndex::A0, RET_ERR_NOT_SUPPORTED);
                self.advance_pc(ECALL_INSTR_LEN);
            },
            VmExit::Exit(_) => {
                self.advance_pc(ECALL_INSTR_LEN);
            },
        }
        exit
    }

    /// Decides what the guest's environment call asks for.
    fn ecall_dispatch(&self) -> (exit: VmExit)
        ensures
            exit == ecall_exit(self@.guest_regs.gprs),
    {
        let a = self.regs.guest_regs.gprs.a_regs();
        let param = [a[0], a[1], a[2], a[3], a[4], a[5]];
        let extension_id = a[7];
        let function_id = a[6];
        if extension_id <= LEGACY_SHUTDOWN {
            // Compatibility with the legacy extensions.
            if extension_id == LEGACY_SET_TIMER {
                let pending = hvip::vstimer().set();
                proof {
                    FieldValue::<hvip::Register>::lemma_spec_new(0x1, 6, 0x1);
                    assert(0x1u64 << 6usize == 1u64 << 6) by (bit_vector);
                }
                VmExit::Action(
                    HostAction::SetTimer { stime_value: param[0], hvip_clear: pending.mask() },
                )
            } else if extension_id == LEGACY_CONSOLE_PUTCHAR {
                VmExit::Action(HostAction::ConsolePutchar { ch: param[0] })
            } else if extension_id == LEGACY_CONSOLE_GETCHAR {
                VmExit::Action(HostAction::ConsoleGetchar)
            } else if extension_id == LEGACY_SHUTDOWN {
                VmExit::Exit(ExitReason::SystemDown)
            } else {
                VmExit::Exit(ExitReason::Nothing)
            }
        } else if extension_id == EID_HSM && function_id == HART_START {
            VmExit::Exit(
                ExitReason::CpuUp {
                    target_cpu: a[0],
                    entry_point: GuestPhysAddr(a[1]),
                    arg: a[2],
                },
            )
        } else if extension_id == EID_HSM && function_id == HART_STOP {
            VmExit::Exit(ExitReason::CpuDown)
        } else if extension_id == EID_HSM && function_id == HART_SUSPEND {
            VmExit::Exit(ExitReason::Halt)
        } else if extension_id == EID_HVC {
            VmExit::Exit(ExitReason::Hypercall { nr: function_id, args: param })
        } else {
            // Everything else goes to the SBI implementation below.
            VmExit::Action(HostAction::Forward { extension_id, function_id, params: param })
        }
    }

    /// Settles an exit for which the host has performed `action`: `ret` is
    /// what the host's call returned, and goes to the guest's return
    /// registers where the action has a result. The guest then continues
    /// behind its environment call.
    pub fn complete(&mut self, action: HostAction, ret: SbiRet) -> (reason: ExitReason)
        ensures
            reason == ExitReason::Nothing,
            final(self)@ == (VmCpuModel {
                guest_regs: completed_guest(old(self)@.guest_regs, action, ret),
                ..old(self)@
            }),
    {
        match action {
            HostAction::SetTimer { .. } => {
                self.set_gpr_from_gpr_index(GprIndex::A0, 0);
                self.advance_pc(ECALL_INSTR_LEN);
            },
            HostAction::ConsolePutchar { .. } => {
                self.advance_pc(ECALL_INSTR_LEN);
            },
            HostAction::ConsoleGetchar => {
                self.set_gpr_from_gpr_index(GprIndex::A0, ret.error);
                self.advance_pc(ECALL_INSTR_LEN);
            },
            HostAction::Forward { .. } => {
                self.set_gpr_from_gpr_index(GprIndex::A0, ret.error);
                self.set_gpr_from_gpr_index(GprIndex::A1, ret.value);
                self.advance_pc(ECALL_INSTR_LEN);
            },
            HostAction::InjectTimer { .. } => {},
        }
        ExitReason::Nothing
    }
}

impl Default for RISCVVCpu {
    /// A vCPU whose state is all zero.
    fn default() -> (vcpu: RISCVVCpu)
        ensures
            vcpu@ == VmCpuModel::zeroed(),
    {
        RISCVVCpu { regs: VmCpuRegisters::default() }
    }
}

} // verus!
