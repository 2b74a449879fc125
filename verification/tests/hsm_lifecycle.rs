//! Hart lifecycle scenarios: start, stop, suspend and resume, and the
//! status codes a peer observes.

use rustsbi_jh7100::context::SupervisorContext;
use rustsbi_jh7100::context::REG_A0;
use rustsbi_jh7100::context::REG_A1;
use rustsbi_jh7100::context::REG_A2;
use rustsbi_jh7100::context::REG_A6;
use rustsbi_jh7100::context::REG_A7;
use rustsbi_jh7100::csr::MachineCsrs;
use rustsbi_jh7100::csr::MSTATUS_SIE;
use rustsbi_jh7100::execute::handle_sbi_call;
use rustsbi_jh7100::execute::resume_after_park;
use rustsbi_jh7100::hsm::HartState;
use rustsbi_jh7100::hsm::Hsm;
use rustsbi_jh7100::hsm::HsmCommand;
use rustsbi_jh7100::sbi::MachineInfo;
use rustsbi_jh7100::sbi::SbiAction;
use rustsbi_jh7100::sbi::EXT_HSM;
use rustsbi_jh7100::sbiret::SBI_ERR_ALREADY_AVAILABLE;
use rustsbi_jh7100::sbiret::SBI_ERR_ALREADY_STOPPED;
use rustsbi_jh7100::sbiret::SBI_ERR_INVALID_ADDRESS;
use rustsbi_jh7100::sbiret::SBI_ERR_INVALID_PARAM;
use rustsbi_jh7100::sbiret::SBI_SUCCESS;
use rustsbi_jh7100::sbiret::HSM_RESUME_SENTINEL;

fn info() -> MachineInfo {
    MachineInfo { mvendorid: 0, marchid: 0, mimpid: 0 }
}

fn csrs() -> MachineCsrs {
    MachineCsrs {
        mstatus: MSTATUS_SIE | 0x800,
        mip: 0,
        mie: 0x808,
        medeleg: 0xB1AB,
        mideleg: 0x333,
        satp: 0x8000000000080202,
        scause: 0,
        sepc: 0,
        stval: 0,
        stvec: 0x8020_1000,
    }
}

/// A monitor with both harts running, as after hart 1 has been started
/// and has acknowledged.
fn both_started() -> Hsm {
    let mut hsm = Hsm::new();
    let (ret, wake) = hsm.hart_start(1, 0x8020_0000, 0x8060_0000);
    assert_eq!(ret.error, SBI_SUCCESS);
    assert!(wake);
    assert_eq!(hsm.state_of(1), HartState::StartPending);
    hsm.record_current_start_finished(1);
    assert_eq!(hsm.state_of(1), HartState::Started);
    hsm
}

#[test]
fn hart_start_rejects_bad_targets_and_addresses() {
    let mut hsm = Hsm::new();
    let (ret, wake) = hsm.hart_start(2, 0x8020_0000, 0);
    assert_eq!(ret.error, SBI_ERR_INVALID_PARAM);
    assert!(!wake);
    let (ret, _) = hsm.hart_start(1, 0x1000_0000, 0);
    assert_eq!(ret.error, SBI_ERR_INVALID_PARAM);
    let (ret, _) = hsm.hart_start(0, 0x8020_0000, 0);
    assert_eq!(ret.error, SBI_ERR_ALREADY_AVAILABLE);
}

#[test]
fn hart_stop_of_a_stopped_hart_is_already_stopped() {
    let mut hsm = Hsm::new();
    let (ret, wake) = hsm.hart_stop(1);
    assert_eq!(ret.error, SBI_ERR_ALREADY_STOPPED);
    assert!(!wake);
}

#[test]
fn hart_stop_posts_the_stop_command() {
    let mut hsm = Hsm::new();
    let (ret, wake) = hsm.hart_stop(0);
    assert_eq!(ret.error, SBI_SUCCESS);
    assert!(wake);
    assert_eq!(hsm.state_of(0), HartState::StopPending);
    assert_eq!(hsm.take_command(0), Some(HsmCommand::Stop));
}

#[test]
fn retentive_suspend_changes_nothing() {
    let mut hsm = both_started();
    let ret = hsm.hart_suspend(1, 0x0000_0000, 0, 0);
    assert_eq!(ret.error, SBI_SUCCESS);
    assert_eq!(hsm.state_of(1), HartState::Started);
}

#[test]
fn non_retentive_suspend_rejects_an_unreachable_resume_address() {
    let mut hsm = both_started();
    let ret = hsm.hart_suspend(1, 0x8000_0000, 0x0200_0000, 0);
    assert_eq!(ret.error, SBI_ERR_INVALID_ADDRESS);
    assert_eq!(hsm.state_of(1), HartState::Started);
}

#[test]
fn non_retentive_suspend_returns_the_sentinel() {
    let mut hsm = both_started();
    let ret = hsm.hart_suspend(1, 0x8000_0000, 0x8030_0000, 0x55);
    assert_eq!(ret.error, HSM_RESUME_SENTINEL);
    assert_eq!(hsm.state_of(1), HartState::Suspended);
}

/// Hart 1 suspends non-retentively with a resume address and an opaque
/// value; the handled call rewrites the context so that the hart
/// re-enters S-mode at the resume address with `a0 = 1`, `a1 = opaque`,
/// `satp = 0` and S-mode interrupts off.
#[test]
fn suspend_resume_register_contract() {
    let resume_addr: u64 = 0x8030_0000;
    let opaque: u64 = 0x1234_5678;
    let mut hsm = both_started();
    let mut cs = csrs();
    let mut ctx = SupervisorContext::new_supervisor(0x8020_0400, cs.mstatus, 0x8000_0000, resume_addr);
    ctx.set_reg(REG_A2, opaque);
    ctx.set_reg(REG_A6, 3);
    ctx.set_reg(REG_A7, EXT_HSM);
    let action = handle_sbi_call(&mut ctx, &mut cs, &mut hsm, 1, 0, &info());
    assert_eq!(action, SbiAction::WaitForWake);
    assert_eq!(ctx.mepc, resume_addr);
    assert_eq!(ctx.reg(REG_A0), 1);
    assert_eq!(ctx.reg(REG_A1), opaque);
    assert_eq!(cs.satp, 0);
    assert_eq!(cs.mstatus & MSTATUS_SIE, 0);
    assert_eq!(ctx.mstatus, cs.mstatus);
    assert_eq!(hsm.state_of(1), HartState::Started);
}

/// After the resume of the previous scenario, a peer reading hart 1's
/// status sees `STARTED` (status value 0).
#[test]
fn get_status_after_resume_is_started() {
    let mut hsm = both_started();
    let mut cs = csrs();
    let mut ctx = SupervisorContext::new_supervisor(0x8020_0400, cs.mstatus, 0x8000_0000, 0x8030_0000);
    ctx.set_reg(REG_A6, 3);
    ctx.set_reg(REG_A7, EXT_HSM);
    let _ = handle_sbi_call(&mut ctx, &mut cs, &mut hsm, 1, 0, &info());
    let ret = hsm.hart_get_status(1);
    assert_eq!(ret.error, SBI_SUCCESS);
    assert_eq!(ret.value, 0);
    let ret = hsm.hart_get_status(2);
    assert_eq!(ret.error, SBI_ERR_INVALID_PARAM);
}

#[test]
fn status_codes_cover_the_lifecycle() {
    let mut hsm = Hsm::new();
    assert_eq!(hsm.hart_get_status(0).value, 0);
    assert_eq!(hsm.hart_get_status(1).value, 1);
    let (_, _) = hsm.hart_start(1, 0x8020_0000, 0);
    assert_eq!(hsm.hart_get_status(1).value, 2);
    hsm.record_current_start_finished(1);
    let (_, _) = hsm.hart_stop(1);
    assert_eq!(hsm.hart_get_status(1).value, 3);
    let _ = hsm.take_command(1);
    hsm.record_current_stop_finished(1);
    assert_eq!(hsm.hart_get_status(1).value, 1);
    let (_, _) = hsm.hart_start(1, 0x8020_0000, 0);
    hsm.record_current_start_finished(1);
    let ret = hsm.hart_suspend(1, 0x8000_0000, 0x8030_0000, 0);
    assert_eq!(ret.error, HSM_RESUME_SENTINEL);
    assert_eq!(hsm.hart_get_status(1).value, 4);
}

/// A hart parked by a stop command wakes when a start command arrives:
/// the context is rewritten to the new entry point.
#[test]
fn park_and_restart() {
    let mut hsm = Hsm::new();
    let mut cs = csrs();
    let mut ctx = SupervisorContext::new_supervisor(0x8020_0400, cs.mstatus, 0, 0);
    // Hart 1 is stopped; nothing arrived yet, so the hart parks again.
    assert!(!resume_after_park(&mut ctx, &mut cs, &mut hsm, 1));
    // A start command arrives with a fresh entry point.
    let (ret, _) = hsm.hart_start(1, 0x8040_0000, 0x77);
    assert_eq!(ret.error, SBI_SUCCESS);
    assert!(resume_after_park(&mut ctx, &mut cs, &mut hsm, 1));
    assert_eq!(ctx.mepc, 0x8040_0000);
    assert_eq!(ctx.reg(REG_A0), 1);
    assert_eq!(ctx.reg(REG_A1), 0x77);
    assert_eq!(cs.satp, 0);
    assert_eq!(hsm.state_of(1), HartState::Started);
}
