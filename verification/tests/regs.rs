use riscv_vcpu::regs::{
    GeneralPurposeRegisters, GprIndex, GuestCpuState, GuestVirtualHsCsrs, GuestVsCsrs,
    HypervisorCpuState, VmCpuRegisters, VmCpuTrapState, GPR_COUNT,
};

const ALL: [GprIndex; 32] = [
    GprIndex::Zero,
    GprIndex::RA,
    GprIndex::SP,
    GprIndex::GP,
    GprIndex::TP,
    GprIndex::T0,
    GprIndex::T1,
    GprIndex::T2,
    GprIndex::S0,
    GprIndex::S1,
    GprIndex::A0,
    GprIndex::A1,
    GprIndex::A2,
    GprIndex::A3,
    GprIndex::A4,
    GprIndex::A5,
    GprIndex::A6,
    GprIndex::A7,
    GprIndex::S2,
    GprIndex::S3,
    GprIndex::S4,
    GprIndex::S5,
    GprIndex::S6,
    GprIndex::S7,
    GprIndex::S8,
    GprIndex::S9,
    GprIndex::S10,
    GprIndex::S11,
    GprIndex::T3,
    GprIndex::T4,
    GprIndex::T5,
    GprIndex::T6,
];

#[test]
fn zero_register_reads_zero_after_write() {
    let mut regs = GeneralPurposeRegisters::default();
    regs.set_reg(GprIndex::Zero, 0xdead_beef);
    assert_eq!(regs.reg(GprIndex::Zero), 0);
    regs.set_reg(GprIndex::Zero, u64::MAX);
    assert_eq!(regs.reg(GprIndex::Zero), 0);
}

#[test]
fn zero_register_stays_zero_when_others_are_written() {
    let mut regs = GeneralPurposeRegisters::new();
    for (n, index) in ALL.iter().enumerate() {
        regs.set_reg(*index, 0x1000 + n as u64);
    }
    assert_eq!(regs.reg(GprIndex::Zero), 0);
}

#[test]
fn fresh_register_file_is_all_zero() {
    let regs = GeneralPurposeRegisters::new();
    for index in ALL.iter() {
        assert_eq!(regs.reg(*index), 0);
    }
}

#[test]
fn register_holds_what_was_written() {
    let mut regs = GeneralPurposeRegisters::default();
    for (n, index) in ALL.iter().enumerate().skip(1) {
        regs.set_reg(*index, 0xa000 + n as u64);
    }
    for (n, index) in ALL.iter().enumerate().skip(1) {
        assert_eq!(regs.reg(*index), 0xa000 + n as u64);
    }
}

#[test]
fn write_changes_one_register_only() {
    let mut regs = GeneralPurposeRegisters::default();
    regs.set_reg(GprIndex::S3, 7);
    regs.set_reg(GprIndex::T6, 9);
    regs.set_reg(GprIndex::S3, 8);
    for index in ALL.iter() {
        let expected = match index {
            GprIndex::S3 => 8,
            GprIndex::T6 => 9,
            _ => 0,
        };
        assert_eq!(regs.reg(*index), expected);
    }
}

#[test]
fn index_numbers_follow_the_architecture() {
    assert_eq!(GPR_COUNT, 32);
    for (n, index) in ALL.iter().enumerate() {
        assert_eq!(index.index(), n);
    }
    assert_eq!(GprIndex::RA.index(), 1);
    assert_eq!(GprIndex::SP.index(), 2);
    assert_eq!(GprIndex::T2.index(), 7);
    assert_eq!(GprIndex::S1.index(), 9);
    assert_eq!(GprIndex::A0.index(), 10);
    assert_eq!(GprIndex::A7.index(), 17);
    assert_eq!(GprIndex::S2.index(), 18);
    assert_eq!(GprIndex::S11.index(), 27);
    assert_eq!(GprIndex::T3.index(), 28);
    assert_eq!(GprIndex::T6.index(), 31);
}

#[test]
fn from_raw_inverts_index() {
    for (n, index) in ALL.iter().enumerate() {
        assert_eq!(GprIndex::from_raw(n as u32), Some(*index));
    }
}

#[test]
fn from_raw_rejects_numbers_from_32_on() {
    assert_eq!(GprIndex::from_raw(32), None);
    assert_eq!(GprIndex::from_raw(99), None);
    assert_eq!(GprIndex::from_raw(u32::MAX), None);
}

#[test]
fn a_regs_are_registers_10_to_17() {
    let mut regs = GeneralPurposeRegisters::default();
    for (n, index) in ALL.iter().enumerate() {
        regs.set_reg(*index, 100 + n as u64);
    }
    assert_eq!(regs.a_regs(), [110, 111, 112, 113, 114, 115, 116, 117]);
}

#[test]
fn default_state_is_all_zero() {
    let regs = VmCpuRegisters::default();
    for index in ALL.iter() {
        assert_eq!(regs.hyp_regs.gprs.reg(*index), 0);
        assert_eq!(regs.guest_regs.gprs.reg(*index), 0);
    }
    assert_eq!(regs.hyp_regs.sstatus, 0);
    assert_eq!(regs.hyp_regs.hstatus, 0);
    assert_eq!(regs.hyp_regs.scounteren, 0);
    assert_eq!(regs.hyp_regs.stvec, 0);
    assert_eq!(regs.hyp_regs.sscratch, 0);
    assert_eq!(regs.guest_regs.sstatus, 0);
    assert_eq!(regs.guest_regs.hstatus, 0);
    assert_eq!(regs.guest_regs.scounteren, 0);
    assert_eq!(regs.guest_regs.sepc, 0);
    assert_eq!(regs.vs_csrs, GuestVsCsrs::default());
    assert_eq!(regs.vs_csrs.vsatp, 0);
    assert_eq!(regs.vs_csrs.vstimecmp, 0);
    assert_eq!(regs.virtual_hs_csrs, GuestVirtualHsCsrs { hie: 0, hgeie: 0, hgatp: 0 });
    assert_eq!(regs.trap_csrs, VmCpuTrapState { scause: 0, stval: 0, htval: 0, htinst: 0 });
}

#[test]
fn default_of_each_part_is_zero() {
    let host = HypervisorCpuState::default();
    assert_eq!(host.gprs.a_regs(), [0; 8]);
    assert_eq!((host.sstatus, host.hstatus, host.scounteren, host.stvec, host.sscratch), (0, 0, 0, 0, 0));
    let guest = GuestCpuState::default();
    assert_eq!(guest.gprs.a_regs(), [0; 8]);
    assert_eq!((guest.sstatus, guest.hstatus, guest.scounteren, guest.sepc), (0, 0, 0, 0));
    let vs = GuestVsCsrs::default();
    assert_eq!(
        (vs.htimedelta, vs.vsstatus, vs.vsie, vs.vstvec, vs.vsscratch),
        (0, 0, 0, 0, 0)
    );
    assert_eq!((vs.vsepc, vs.vscause, vs.vstval, vs.vsatp, vs.vstimecmp), (0, 0, 0, 0, 0));
    assert_eq!(VmCpuTrapState::default().scause, 0);
}
