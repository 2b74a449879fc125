//! The SBI dispatch surface: base-extension constants, extension
//! probing, and the per-extension return pairs and actions.

use rustsbi_jh7100::hsm::Hsm;
use rustsbi_jh7100::sbi::ecall;
use rustsbi_jh7100::sbi::hart_in_ipi_mask;
use rustsbi_jh7100::sbi::MachineInfo;
use rustsbi_jh7100::sbi::probe_extension;
use rustsbi_jh7100::sbi::SbiAction;
use rustsbi_jh7100::sbi::EXT_BASE;
use rustsbi_jh7100::sbi::EXT_HSM;
use rustsbi_jh7100::sbi::EXT_IPI;
use rustsbi_jh7100::sbi::EXT_SRST;
use rustsbi_jh7100::sbi::EXT_TIME;
use rustsbi_jh7100::sbi::IMPL_ID;
use rustsbi_jh7100::sbi::IMPL_VERSION;
use rustsbi_jh7100::sbi::SPEC_VERSION;
use rustsbi_jh7100::sbiret::SBI_ERR_NOT_SUPPORTED;
use rustsbi_jh7100::sbiret::SBI_SUCCESS;

fn info() -> MachineInfo {
    MachineInfo {
        mvendorid: 0x489,
        marchid: 0x8000000000000007,
        mimpid: 0x20181004,
    }
}

fn base_call(function: u64, arg: u64) -> (u64, u64) {
    let mut hsm = Hsm::new();
    let (ret, action) = ecall(EXT_BASE, function, arg, 0, 0, 0, 0, &info(), &mut hsm);
    assert_eq!(action, SbiAction::Nothing);
    (ret.error, ret.value)
}

#[test]
fn base_extension_constants() {
    assert_eq!(base_call(0, 0), (SBI_SUCCESS, SPEC_VERSION));
    assert_eq!(base_call(1, 0), (SBI_SUCCESS, IMPL_ID));
    assert_eq!(base_call(2, 0), (SBI_SUCCESS, IMPL_VERSION));
    assert_eq!(base_call(4, 0), (SBI_SUCCESS, 0x489));
    assert_eq!(base_call(5, 0), (SBI_SUCCESS, 0x8000000000000007));
    assert_eq!(base_call(6, 0), (SBI_SUCCESS, 0x20181004));
    assert_eq!(base_call(7, 0), (SBI_ERR_NOT_SUPPORTED, 0));
}

#[test]
fn base_getters_are_constant_across_calls() {
    for _ in 0..3 {
        assert_eq!(base_call(0, 0), (SBI_SUCCESS, 3));
        assert_eq!(base_call(1, 0), (SBI_SUCCESS, 4));
        assert_eq!(base_call(4, 0), (SBI_SUCCESS, 0x489));
    }
}

#[test]
fn probe_reports_exactly_the_supported_extensions() {
    for id in [EXT_BASE, EXT_TIME, EXT_IPI, EXT_HSM, EXT_SRST] {
        assert_eq!(probe_extension(id), 1);
    }
    for id in 0x00..=0x08u64 {
        assert_eq!(probe_extension(id), 1);
    }
    for id in [0x09u64, 0x0F, 0x11, 0x4442434E, 0xFFFF_FFFF] {
        assert_eq!(probe_extension(id), 0);
    }
}

#[test]
fn probe_through_the_base_extension() {
    assert_eq!(base_call(3, EXT_HSM), (SBI_SUCCESS, 1));
    assert_eq!(base_call(3, 0x09), (SBI_SUCCESS, 0));
}

#[test]
fn set_timer_yields_the_timer_action() {
    let mut hsm = Hsm::new();
    let (ret, action) = ecall(EXT_TIME, 0, 0xDEAD_0000, 0, 0, 0, 0, &info(), &mut hsm);
    assert_eq!(ret.error, SBI_SUCCESS);
    assert_eq!(action, SbiAction::SetTimer { stime_value: 0xDEAD_0000 });
}

#[test]
fn send_ipi_yields_the_mask_action() {
    let mut hsm = Hsm::new();
    let (ret, action) = ecall(EXT_IPI, 0, 0b10, 0, 0, 0, 0, &info(), &mut hsm);
    assert_eq!(ret.error, SBI_SUCCESS);
    assert_eq!(action, SbiAction::SendIpiMask { mask: 0b10, base: 0 });
}

#[test]
fn system_reset_yields_the_reset_action() {
    let mut hsm = Hsm::new();
    let (ret, action) = ecall(EXT_SRST, 0, 0, 1, 0, 0, 0, &info(), &mut hsm);
    assert_eq!(ret.error, SBI_SUCCESS);
    assert_eq!(action, SbiAction::Reset { reset_type: 0, reason: 1 });
}

#[test]
fn legacy_putchar_passes_registers_through() {
    let mut hsm = Hsm::new();
    let (ret, action) = ecall(0x01, 0, 0x41, 7, 0, 0, 0, &info(), &mut hsm);
    assert_eq!(ret.error, 0x41);
    assert_eq!(ret.value, 7);
    assert_eq!(action, SbiAction::PutChar { byte: 0x41 });
}

#[test]
fn legacy_getchar_reports_the_console_byte() {
    let mut hsm = Hsm::new();
    let (ret, action) = ecall(0x02, 0, 0, 0, 0, 0, 0x61, &info(), &mut hsm);
    assert_eq!(ret.error, 0x61);
    assert_eq!(action, SbiAction::GetChar);
}

#[test]
fn legacy_send_ipi_reads_the_mask_in_memory() {
    let mut hsm = Hsm::new();
    let (_, action) = ecall(0x04, 0, 0x8022_0000, 0, 0, 0, 0, &info(), &mut hsm);
    assert_eq!(action, SbiAction::LegacySendIpi { mask_addr: 0x8022_0000 });
}

#[test]
fn legacy_shutdown_yields_the_shutdown_action() {
    let mut hsm = Hsm::new();
    let (_, action) = ecall(0x08, 0, 0, 0, 0, 0, 0, &info(), &mut hsm);
    assert_eq!(action, SbiAction::Shutdown);
}

#[test]
fn ipi_mask_names_exactly_its_harts() {
    // mask 0b10, base 0: hart 1 and no other.
    assert!(!hart_in_ipi_mask(0b10, 0, 0));
    assert!(hart_in_ipi_mask(0b10, 0, 1));
    assert!(!hart_in_ipi_mask(0b10, 0, 2));
    // The base shifts the window.
    assert!(hart_in_ipi_mask(0b1, 1, 1));
    assert!(!hart_in_ipi_mask(0b1, 1, 0));
    assert!(!hart_in_ipi_mask(0b1, 2, 1));
    // Beyond the 64-hart window nothing is named.
    assert!(!hart_in_ipi_mask(u64::MAX, 0, 64));
    assert!(hart_in_ipi_mask(u64::MAX, 0, 63));
}

#[test]
fn unknown_extension_is_not_supported() {
    let mut hsm = Hsm::new();
    let (ret, action) = ecall(0x0A0A_0A0A, 0, 0, 0, 0, 0, 0, &info(), &mut hsm);
    assert_eq!(ret.error, SBI_ERR_NOT_SUPPORTED);
    assert_eq!(action, SbiAction::Nothing);
}

#[test]
fn unknown_function_of_a_known_extension_is_not_supported() {
    let mut hsm = Hsm::new();
    let (ret, _) = ecall(EXT_TIME, 9, 0, 0, 0, 0, 0, &info(), &mut hsm);
    assert_eq!(ret.error, SBI_ERR_NOT_SUPPORTED);
    let (ret, _) = ecall(EXT_HSM, 9, 0, 0, 0, 0, 0, &info(), &mut hsm);
    assert_eq!(ret.error, SBI_ERR_NOT_SUPPORTED);
}
