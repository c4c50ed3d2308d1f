use riscv_vcpu::csrs::defs::hstatus::{spv, spvp, vsxl};
use riscv_vcpu::csrs::defs::{hcounteren, hedeleg, hideleg, hie, hstatus, hvip, sie};
use riscv_vcpu::csrs::{defs, traps, Field, FieldValue};

fn tock_field(mask: u64, shift: usize) -> tock_registers::fields::Field<u64, ()> {
    tock_registers::fields::Field::<u64, ()>::new(mask, shift)
}

const SAMPLES: [u64; 8] = [
    0,
    1,
    0x444,
    0x8020_0000,
    0x0123_4567_89ab_cdef,
    0xfedc_ba98_7654_3210,
    0x8000_0000_0000_0000,
    u64::MAX,
];

fn check<R: Copy>(field: Field<R>, mask: u64, shift: usize) {
    assert_eq!(field.mask(), mask);
    assert_eq!(field.shift(), shift);
    let theirs = tock_field(mask, shift);
    for val in SAMPLES {
        assert_eq!(field.read(val), theirs.read(val));
        assert_eq!(field.is_set(val), theirs.is_set(val));
        for value in [0, 1, 2, 3, 0x3f, u64::MAX] {
            let ours = field.val(value);
            let fv = theirs.val(value);
            assert_eq!(ours.mask(), fv.mask());
            assert_eq!(ours.value(), fv.value);
            assert_eq!(ours.modify(val), fv.modify(val));
            assert_eq!(ours.matches_all(val), fv.matches_all(val));
        }
        assert_eq!(field.set().modify(val), val | (mask << shift));
        assert_eq!(field.clear().modify(val), val & !(mask << shift));
        assert_eq!(field.set().modify(val), theirs.val(mask).modify(val));
        assert_eq!(field.clear().modify(val), theirs.val(0).modify(val));
    }
}

#[test]
fn csr_numbers() {
    assert_eq!(defs::CSR_SSTATUS, 0x100);
    assert_eq!(defs::CSR_SEDELEG, 0x102);
    assert_eq!(defs::CSR_SIDELEG, 0x103);
    assert_eq!(defs::CSR_SIE, 0x104);
    assert_eq!(defs::CSR_STVEC, 0x105);
    assert_eq!(defs::CSR_SCOUNTEREN, 0x106);
    assert_eq!(defs::CSR_SENVCFG, 0x10a);
    assert_eq!(defs::CSR_SSCRATCH, 0x140);
    assert_eq!(defs::CSR_SEPC, 0x141);
    assert_eq!(defs::CSR_SCAUSE, 0x142);
    assert_eq!(defs::CSR_STVAL, 0x143);
    assert_eq!(defs::CSR_SIP, 0x144);
    assert_eq!(defs::CSR_STIMECMP, 0x14d);
    assert_eq!(defs::CSR_SISELECT, 0x150);
    assert_eq!(defs::CSR_SIREG, 0x151);
    assert_eq!(defs::CSR_STOPEI, 0x15c);
    assert_eq!(defs::CSR_SATP, 0x180);
    assert_eq!(defs::CSR_STOPI, 0xdb0);
    assert_eq!(defs::CSR_SCONTEXT, 0x5a8);
    assert_eq!(defs::CSR_VSSTATUS, 0x200);
    assert_eq!(defs::CSR_VSIE, 0x204);
    assert_eq!(defs::CSR_VSTVEC, 0x205);
    assert_eq!(defs::CSR_VSSCRATCH, 0x240);
    assert_eq!(defs::CSR_VSEPC, 0x241);
    assert_eq!(defs::CSR_VSCAUSE, 0x242);
    assert_eq!(defs::CSR_VSTVAL, 0x243);
    assert_eq!(defs::CSR_VSIP, 0x244);
    assert_eq!(defs::CSR_VSTIMECMP, 0x24d);
    assert_eq!(defs::CSR_VSISELECT, 0x250);
    assert_eq!(defs::CSR_VSIREG, 0x251);
    assert_eq!(defs::CSR_VSTOPEI, 0x25c);
    assert_eq!(defs::CSR_VSATP, 0x280);
    assert_eq!(defs::CSR_VSTOPI, 0xeb0);
    assert_eq!(defs::CSR_HSTATUS, 0x600);
    assert_eq!(defs::CSR_HEDELEG, 0x602);
    assert_eq!(defs::CSR_HIDELEG, 0x603);
    assert_eq!(defs::CSR_HIE, 0x604);
    assert_eq!(defs::CSR_HTIMEDELTA, 0x605);
    assert_eq!(defs::CSR_HCOUNTEREN, 0x606);
    assert_eq!(defs::CSR_HGEIE, 0x607);
    assert_eq!(defs::CSR_HVICTL, 0x609);
    assert_eq!(defs::CSR_HENVCFG, 0x60a);
    assert_eq!(defs::CSR_HTVAL, 0x643);
    assert_eq!(defs::CSR_HIP, 0x644);
    assert_eq!(defs::CSR_HVIP, 0x645);
    assert_eq!(defs::CSR_HTINST, 0x64a);
    assert_eq!(defs::CSR_HGATP, 0x680);
    assert_eq!(defs::CSR_HCONTEXT, 0x6a8);
    assert_eq!(defs::CSR_HGEIP, 0xe12);
}

#[test]
fn hedeleg_fields() {
    check(hedeleg::instr_misaligned(), 1, 0);
    check(hedeleg::instr_fault(), 1, 1);
    check(hedeleg::illegal_instr(), 1, 2);
    check(hedeleg::breakpoint(), 1, 3);
    check(hedeleg::load_misaligned(), 1, 4);
    check(hedeleg::load_fault(), 1, 5);
    check(hedeleg::store_misaligned(), 1, 6);
    check(hedeleg::store_fault(), 1, 7);
    check(hedeleg::u_ecall(), 1, 8);
    check(hedeleg::instr_page_fault(), 1, 12);
    check(hedeleg::load_page_fault(), 1, 13);
    check(hedeleg::store_page_fault(), 1, 15);
}

#[test]
fn sie_fields() {
    check(sie::ssoft(), 1, 1);
    check(sie::stimer(), 1, 5);
    check(sie::sext(), 1, 9);
}

#[test]
fn hstatus_fields() {
    check(hstatus::vsbe(), 1, 6);
    check(hstatus::gva(), 1, 6);
    check(hstatus::spv(), 1, 7);
    check(hstatus::spvp(), 1, 8);
    check(hstatus::hu(), 1, 9);
    check(hstatus::vgein(), 0x3f, 12);
    check(hstatus::vtvm(), 1, 20);
    check(hstatus::vtw(), 1, 21);
    check(hstatus::vtsr(), 1, 22);
    check(hstatus::vsxl(), 0x3, 32);
}

#[test]
fn hideleg_fields() {
    check(hideleg::vssoft(), 1, 2);
    check(hideleg::vstimer(), 1, 6);
    check(hideleg::vsext(), 1, 10);
}

#[test]
fn hie_fields() {
    check(hie::vssoft(), 1, 2);
    check(hie::vstimer(), 1, 6);
    check(hie::vsext(), 1, 10);
    check(hie::sgext(), 1, 12);
}

#[test]
fn hcounteren_fields() {
    check(hcounteren::cycle(), 1, 0);
    check(hcounteren::time(), 1, 1);
    check(hcounteren::instret(), 1, 2);
    check(hcounteren::hpm(), 0x1fff_ffff, 3);
}

#[test]
fn hvip_fields() {
    check(hvip::vssoft(), 1, 2);
    check(hvip::vstimer(), 1, 6);
    check(hvip::vsext(), 1, 10);
}

#[test]
fn field_read_takes_the_bits_of_the_field() {
    assert_eq!(hstatus::vgein().read(0x0003_f000), 0x3f);
    assert_eq!(hstatus::vgein().read(0x0001_5abc), 0x15);
    assert_eq!(hstatus::vsxl().read(0x2_0000_0000), 2);
    assert_eq!(hvip::vstimer().read(0x40), 1);
    assert_eq!(hvip::vstimer().read(!0x40), 0);
    assert!(hvip::vstimer().is_set(0x40));
    assert!(!hvip::vstimer().is_set(0x404));
}

#[test]
fn field_value_drops_bits_beyond_the_field() {
    let fv = hstatus::vgein().val(0x1ff);
    assert_eq!(fv.mask(), 0x3f000);
    assert_eq!(fv.value(), 0x3f000);
    let fv = hvip::vsext().val(2);
    assert_eq!(fv.mask(), 0x400);
    assert_eq!(fv.value(), 0);
}

#[test]
fn field_value_new_places_mask_and_value() {
    let fv: FieldValue<hstatus::Register> = FieldValue::new(0x3, 32, 2);
    assert_eq!(fv.mask(), 0x3_0000_0000);
    assert_eq!(fv.value(), 0x2_0000_0000);
    assert_eq!(fv.modify(0x1_0000_00ff), 0x2_0000_00ff);
    assert!(fv.matches_all(0x2_0000_1234));
    assert!(!fv.matches_all(0x3_0000_1234));
}

#[test]
fn written_field_reads_back() {
    for (field_mask, shift) in [(1u64, 0usize), (1, 63), (0x3f, 12), (0x1fff_ffff, 3), (3, 32)] {
        let ours: Field<hstatus::Register> = Field::new(field_mask, shift);
        for val in SAMPLES {
            for value in [0u64, 1, 2, 0x15, 0x1234_5678, u64::MAX] {
                let written = ours.val(value).modify(val);
                assert_eq!(ours.read(written), value & field_mask);
                assert_eq!(written & !(field_mask << shift), val & !(field_mask << shift));
            }
        }
    }
}

#[test]
fn field_values_combine() {
    let both = sie::sext().set().and(sie::ssoft().set()).and(sie::stimer().set());
    assert_eq!(both.mask(), 0x222);
    assert_eq!(both.value(), 0x222);
    assert_eq!(both.modify(0x1), 0x223);
    let mixed = hie::vssoft().set().and(hie::sgext().clear());
    assert_eq!(mixed.mask(), 0x1004);
    assert_eq!(mixed.value(), 0x4);
    assert_eq!(mixed.modify(0xffff), 0xefff);
    let a = tock_registers::fields::FieldValue::<u64, ()>::new(1, 2, 1);
    let b = tock_registers::fields::FieldValue::<u64, ()>::new(1, 12, 0);
    assert_eq!(mixed.modify(0xffff), (a + b).modify(0xffff));
    assert_eq!(mixed.mask(), (a + b).mask());
}

#[test]
fn field_and_field_value_are_copied() {
    let field = hvip::vsext();
    let copy = field;
    assert_eq!(field.clone().shift(), copy.shift());
    let fv = field.set();
    let copy = fv;
    assert_eq!(fv.clone().value(), copy.value());
}

#[test]
fn spv_values() {
    assert_eq!((spv::MASK, spv::SHIFT), (1, 7));
    assert_eq!(spv::Value::try_from_value(0), Some(spv::Value::User));
    assert_eq!(spv::Value::try_from_value(1), Some(spv::Value::Supervisor));
    assert_eq!(spv::Value::try_from_value(2), None);
    assert_eq!(spv::Value::try_from_value(u64::MAX), None);
    assert_eq!(spv::Value::User.number(), 0);
    assert_eq!(spv::Value::Supervisor.number(), 1);
    let fv = FieldValue::from(spv::Value::Supervisor);
    assert_eq!((fv.mask(), fv.value()), (0x80, 0x80));
    let fv = FieldValue::from(spv::Value::User);
    assert_eq!((fv.mask(), fv.value()), (0x80, 0));
    assert_eq!(fv.modify(u64::MAX), !0x80);
}

#[test]
fn spvp_values() {
    assert_eq!((spvp::MASK, spvp::SHIFT), (1, 8));
    assert_eq!(spvp::Value::try_from_value(0), Some(spvp::Value::User));
    assert_eq!(spvp::Value::try_from_value(1), Some(spvp::Value::Supervisor));
    assert_eq!(spvp::Value::try_from_value(2), None);
    assert_eq!(spvp::Value::User.number(), 0);
    assert_eq!(spvp::Value::Supervisor.number(), 1);
    let fv = FieldValue::from(spvp::Value::Supervisor);
    assert_eq!((fv.mask(), fv.value()), (0x100, 0x100));
    let fv = FieldValue::from(spvp::Value::User);
    assert_eq!((fv.mask(), fv.value()), (0x100, 0));
}

#[test]
fn vsxl_values() {
    assert_eq!((vsxl::MASK, vsxl::SHIFT), (3, 32));
    assert_eq!(vsxl::Value::try_from_value(0), None);
    assert_eq!(vsxl::Value::try_from_value(1), Some(vsxl::Value::Xlen32));
    assert_eq!(vsxl::Value::try_from_value(2), Some(vsxl::Value::Xlen64));
    assert_eq!(vsxl::Value::try_from_value(3), None);
    assert_eq!(vsxl::Value::Xlen32.number(), 1);
    assert_eq!(vsxl::Value::Xlen64.number(), 2);
    let fv = FieldValue::from(vsxl::Value::Xlen64);
    assert_eq!((fv.mask(), fv.value()), (0x3_0000_0000, 0x2_0000_0000));
    let fv = FieldValue::from(vsxl::Value::Xlen32);
    assert_eq!((fv.mask(), fv.value()), (0x3_0000_0000, 0x1_0000_0000));
}

#[test]
fn named_values_are_read_back_from_a_register() {
    let hstatus_value = 0x2_0000_0080u64;
    assert_eq!(
        spv::Value::try_from_value(hstatus::spv().read(hstatus_value)),
        Some(spv::Value::Supervisor)
    );
    assert_eq!(
        spvp::Value::try_from_value(hstatus::spvp().read(hstatus_value)),
        Some(spvp::Value::User)
    );
    assert_eq!(
        vsxl::Value::try_from_value(hstatus::vsxl().read(hstatus_value)),
        Some(vsxl::Value::Xlen64)
    );
}

#[test]
fn trap_constants_are_reachable_from_the_csrs() {
    assert_eq!(traps::interrupt::SUPERVISOR_TIMER, 1 << 5);
    assert_eq!(traps::exception::ENV_CALL_FROM_VS, 1 << 10);
}
