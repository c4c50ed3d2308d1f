use riscv_vcpu::sbi::rfnc::{RemoteFenceFunction, REMOTE_FENCE_I, REMOTE_SFENCE_VMA};
use riscv_vcpu::sbi::{
    SbiRet, EID_HSM, HART_GET_STATUS, HART_START, HART_STOP, HART_SUSPEND, LEGACY_CLEAR_IPI,
    LEGACY_CONSOLE_GETCHAR, LEGACY_CONSOLE_PUTCHAR, LEGACY_REMOTE_FENCE_I,
    LEGACY_REMOTE_SFENCE_VMA, LEGACY_REMOTE_SFENCE_VMA_ASID, LEGACY_SEND_IPI, LEGACY_SET_TIMER,
    LEGACY_SHUTDOWN, RET_ERR_NOT_SUPPORTED,
};
use riscv_vcpu::EID_HVC;

#[test]
fn legacy_identifiers_are_those_of_the_sbi_specification() {
    assert_eq!(LEGACY_SET_TIMER, sbi_spec::legacy::LEGACY_SET_TIMER as u64);
    assert_eq!(LEGACY_CONSOLE_PUTCHAR, sbi_spec::legacy::LEGACY_CONSOLE_PUTCHAR as u64);
    assert_eq!(LEGACY_CONSOLE_GETCHAR, sbi_spec::legacy::LEGACY_CONSOLE_GETCHAR as u64);
    assert_eq!(LEGACY_CLEAR_IPI, sbi_spec::legacy::LEGACY_CLEAR_IPI as u64);
    assert_eq!(LEGACY_SEND_IPI, sbi_spec::legacy::LEGACY_SEND_IPI as u64);
    assert_eq!(LEGACY_REMOTE_FENCE_I, sbi_spec::legacy::LEGACY_REMOTE_FENCE_I as u64);
    assert_eq!(LEGACY_REMOTE_SFENCE_VMA, sbi_spec::legacy::LEGACY_REMOTE_SFENCE_VMA as u64);
    assert_eq!(
        LEGACY_REMOTE_SFENCE_VMA_ASID,
        sbi_spec::legacy::LEGACY_REMOTE_SFENCE_VMA_ASID as u64
    );
    assert_eq!(LEGACY_SHUTDOWN, sbi_spec::legacy::LEGACY_SHUTDOWN as u64);
}

#[test]
fn hsm_identifiers_are_those_of_the_sbi_specification() {
    assert_eq!(EID_HSM, sbi_spec::hsm::EID_HSM as u64);
    assert_eq!(HART_START, sbi_spec::hsm::HART_START as u64);
    assert_eq!(HART_STOP, sbi_spec::hsm::HART_STOP as u64);
    assert_eq!(HART_GET_STATUS, sbi_spec::hsm::HART_GET_STATUS as u64);
    assert_eq!(HART_SUSPEND, sbi_spec::hsm::HART_SUSPEND as u64);
}

#[test]
fn rfnc_identifiers_are_those_of_the_sbi_specification() {
    assert_eq!(REMOTE_FENCE_I, sbi_spec::rfnc::REMOTE_FENCE_I as u64);
    assert_eq!(REMOTE_SFENCE_VMA, sbi_spec::rfnc::REMOTE_SFENCE_VMA as u64);
}

#[test]
fn not_supported_is_the_error_of_the_sbi_specification() {
    assert_eq!(RET_ERR_NOT_SUPPORTED, sbi_spec::binary::RET_ERR_NOT_SUPPORTED as u64);
    assert_eq!(RET_ERR_NOT_SUPPORTED as i64, -2);
}

#[test]
fn hypercall_extension_spells_hvc() {
    assert_eq!(EID_HVC, 0x485643);
    assert_eq!(EID_HVC.to_be_bytes()[5..], *b"HVC");
}

#[test]
fn from_args_decodes_fence_i() {
    let args = [0b1011, 4, 0x8000_0000, 0x1000, 0, 0, REMOTE_FENCE_I];
    let decoded = RemoteFenceFunction::from_args(&args).unwrap();
    assert_eq!(decoded, RemoteFenceFunction::FenceI { hart_mask: 0b1011, hart_mask_base: 4 });
}

#[test]
fn from_args_decodes_sfence_vma() {
    let args = [0xff, 8, 0x8020_0000, 0x2000, 55, 66, REMOTE_SFENCE_VMA, 77];
    let decoded = RemoteFenceFunction::from_args(&args).unwrap();
    assert_eq!(
        decoded,
        RemoteFenceFunction::RemoteSFenceVMA {
            hart_mask: 0xff,
            hart_mask_base: 8,
            start_addr: 0x8020_0000,
            size: 0x2000,
        }
    );
}

#[test]
fn only_two_fence_functions_are_supported() {
    assert!(RemoteFenceFunction::is_supported(0));
    assert!(RemoteFenceFunction::is_supported(1));
    for function_id in 2..16 {
        assert!(!RemoteFenceFunction::is_supported(function_id));
    }
    assert!(!RemoteFenceFunction::is_supported(u64::MAX));
}

#[test]
fn sbi_ret_is_two_words() {
    let ret = SbiRet { error: 3, value: 4 };
    assert_eq!((ret.error, ret.value), (3, 4));
    assert_eq!(ret, SbiRet { error: 3, value: 4 });
}
