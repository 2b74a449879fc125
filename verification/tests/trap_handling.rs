//! Trap classification and the execute loop's handlers: illegal
//! instructions, timer and software interrupts, and the IPI fan-out.

use rustsbi_jh7100::context::SupervisorContext;
use rustsbi_jh7100::context::REG_A0;
use rustsbi_jh7100::context::REG_A1;
use rustsbi_jh7100::context::REG_A6;
use rustsbi_jh7100::context::REG_A7;
use rustsbi_jh7100::csr::MachineCsrs;
use rustsbi_jh7100::csr::CAUSE_INTERRUPT_FLAG;
use rustsbi_jh7100::csr::MIE_MTIE;
use rustsbi_jh7100::csr::MIP_STIP;
use rustsbi_jh7100::csr::MSTATUS_SIE;
use rustsbi_jh7100::delegate::delegate_interrupt_exception;
use rustsbi_jh7100::execute::handle_illegal_instruction;
use rustsbi_jh7100::execute::handle_machine_soft;
use rustsbi_jh7100::execute::handle_machine_trap;
use rustsbi_jh7100::execute::SoftOutcome;
use rustsbi_jh7100::execute::StepOutcome;
use rustsbi_jh7100::hsm::Hsm;
use rustsbi_jh7100::rdtime::emulate_rdtime;
use rustsbi_jh7100::sbi::MachineInfo;
use rustsbi_jh7100::sbi::SbiAction;
use rustsbi_jh7100::sbi::EXT_IPI;
use rustsbi_jh7100::sbiret::SBI_SUCCESS;
use rustsbi_jh7100::trap::classify_mcause;
use rustsbi_jh7100::trap::MachineTrap;

fn info() -> MachineInfo {
    MachineInfo { mvendorid: 0, marchid: 0, mimpid: 0 }
}

fn zero_csrs() -> MachineCsrs {
    MachineCsrs {
        mstatus: 0x800,
        mip: 0,
        mie: 0,
        medeleg: 0,
        mideleg: 0,
        satp: 0,
        scause: 0,
        sepc: 0,
        stval: 0,
        stvec: 0x8020_1000,
    }
}

/// `csrw mcycle, x0`: a four-byte instruction no firmware can emulate.
const CSRW_MCYCLE_X0: u32 = 0xB000_1073;
/// `rdtime a0` (`csrrs a0, time, x0`).
const RDTIME_A0: u32 = 0xC010_2573;

#[test]
fn mcause_classification() {
    assert_eq!(classify_mcause(9), Some(MachineTrap::SbiCall));
    assert_eq!(classify_mcause(2), Some(MachineTrap::IllegalInstruction));
    assert_eq!(
        classify_mcause(CAUSE_INTERRUPT_FLAG | 7),
        Some(MachineTrap::MachineTimer)
    );
    assert_eq!(
        classify_mcause(CAUSE_INTERRUPT_FLAG | 3),
        Some(MachineTrap::MachineSoft)
    );
    assert_eq!(classify_mcause(8), None);
    assert_eq!(classify_mcause(CAUSE_INTERRUPT_FLAG | 11), None);
}

#[test]
fn boot_delegation_masks() {
    let mut cs = zero_csrs();
    delegate_interrupt_exception(&mut cs);
    assert_eq!(cs.mideleg, 0x333);
    assert_eq!(cs.medeleg, 0xB1AB);
    assert_eq!(cs.mie, 0x808);
}

/// S-mode executes `csrw mcycle, x0`; the firmware determines it is not
/// emulable and, with the illegal-instruction delegation bit set, hands
/// the trap to the S-mode vector with `scause = 2` and `sepc` at the
/// faulting pc.
#[test]
fn illegal_instruction_is_delegated() {
    let mut cs = zero_csrs();
    cs.medeleg = 1 << 2;
    let faulting_pc: u64 = 0x8020_2000;
    let mut ctx = SupervisorContext::new_supervisor(faulting_pc, cs.mstatus | MSTATUS_SIE, 0, 0);
    assert!(handle_illegal_instruction(&mut ctx, &mut cs, CSRW_MCYCLE_X0, 0));
    assert_eq!(cs.scause, 2);
    assert_eq!(cs.sepc, faulting_pc);
    assert_eq!(cs.stval, CSRW_MCYCLE_X0 as u64);
    assert_eq!(ctx.mepc, 0x8020_1000);
    // SIE moved to SPIE and was cleared; the mret returns to S-mode.
    assert_eq!(ctx.mstatus & MSTATUS_SIE, 0);
    assert_ne!(ctx.mstatus & 0x20, 0);
    assert_eq!(ctx.mstatus & 0x1800, 0x800);
}

#[test]
fn illegal_instruction_without_delegation_is_fatal() {
    let mut cs = zero_csrs();
    let mut ctx = SupervisorContext::new_supervisor(0x8020_2000, cs.mstatus, 0, 0);
    assert!(!handle_illegal_instruction(&mut ctx, &mut cs, CSRW_MCYCLE_X0, 0));
    assert_eq!(ctx.mepc, 0x8020_2000);
    let mut hsm = Hsm::new();
    let r = handle_machine_trap(
        MachineTrap::IllegalInstruction,
        &mut ctx,
        &mut cs,
        &mut hsm,
        0,
        CSRW_MCYCLE_X0,
        0,
        0,
        &info(),
    );
    assert_eq!(r, StepOutcome::Fatal);
}

/// S-mode reads the `time` CSR twice; both reads are emulated without a
/// visible exception, and the second value is at least the first.
#[test]
fn rdtime_reads_are_emulated_and_nondecreasing() {
    let mut ctx = SupervisorContext::new_supervisor(0x8020_2000, 0x800, 0, 0);
    assert!(emulate_rdtime(&mut ctx, RDTIME_A0, 1000));
    assert_eq!(ctx.reg(REG_A0), 1000);
    assert_eq!(ctx.mepc, 0x8020_2004);
    assert!(emulate_rdtime(&mut ctx, RDTIME_A0, 1462));
    let first = 1000u64;
    let second = ctx.reg(REG_A0);
    assert_eq!(second, 1462);
    assert!(second >= first);
    assert_eq!(ctx.mepc, 0x8020_2008);
}

#[test]
fn rdtime_to_x0_is_recognised_but_discards_the_value() {
    let mut ctx = SupervisorContext::new_supervisor(0x8020_2000, 0x800, 0, 0);
    assert!(emulate_rdtime(&mut ctx, 0xC010_2073, 777));
    assert_eq!(ctx.reg(0), 0);
    assert_eq!(ctx.mepc, 0x8020_2004);
}

#[test]
fn machine_timer_is_handed_to_s_mode() {
    let mut cs = zero_csrs();
    cs.mie = 0x888;
    let mut ctx = SupervisorContext::new_supervisor(0x8020_2000, cs.mstatus, 0, 0);
    let mut hsm = Hsm::new();
    let r = handle_machine_trap(
        MachineTrap::MachineTimer,
        &mut ctx,
        &mut cs,
        &mut hsm,
        0,
        0,
        0,
        0,
        &info(),
    );
    assert_eq!(r, StepOutcome::Resume { action: SbiAction::Nothing });
    assert_ne!(cs.mip & MIP_STIP, 0);
    assert_eq!(cs.mie & MIE_MTIE, 0);
}

/// `sbi_send_ipi(mask = 0b10, base = 0)` from hart 0 raises hart 1's
/// software interrupt; hart 1, with no command pending, passes it to its
/// S-mode handler as a supervisor software interrupt, once, clearing the
/// pending bit.
#[test]
fn ipi_fan_out_reaches_the_s_mode_handler_once() {
    // Hart 0 issues the IPI call.
    let mut hsm = Hsm::new();
    let mut cs0 = zero_csrs();
    delegate_interrupt_exception(&mut cs0);
    let mut ctx0 = SupervisorContext::new_supervisor(0x8020_2000, cs0.mstatus, 0b10, 0);
    ctx0.set_reg(REG_A6, 0);
    ctx0.set_reg(REG_A7, EXT_IPI);
    let r = handle_machine_trap(
        MachineTrap::SbiCall,
        &mut ctx0,
        &mut cs0,
        &mut hsm,
        0,
        0,
        0,
        0,
        &info(),
    );
    assert_eq!(
        r,
        StepOutcome::Resume { action: SbiAction::SendIpiMask { mask: 0b10, base: 0 } }
    );
    assert_eq!(ctx0.reg(REG_A0), SBI_SUCCESS);
    assert_eq!(ctx0.mepc, 0x8020_2004);
    // The shell raises CLINT msip[1]; hart 1 traps with an empty mailbox.
    let mut cs1 = zero_csrs();
    delegate_interrupt_exception(&mut cs1);
    let mut ctx1 = SupervisorContext::new_supervisor(0x8030_0000, cs1.mstatus | MSTATUS_SIE, 0, 0);
    // Make hart 1 a running hart for this scenario: start it and let it
    // acknowledge, consuming the start command.
    let (started, _) = hsm.hart_start(1, 0x8030_0000, 0);
    assert_eq!(started.error, SBI_SUCCESS);
    let _ = hsm.take_command(1);
    hsm.record_current_start_finished(1);
    let r = handle_machine_trap(
        MachineTrap::MachineSoft,
        &mut ctx1,
        &mut cs1,
        &mut hsm,
        1,
        0,
        0,
        0,
        &info(),
    );
    // Delivered exactly once: the handler transfers it and has the
    // shell clear the pending bit before re-entering S-mode.
    assert_eq!(
        r,
        StepOutcome::Resume { action: SbiAction::ClearIpi { hart: 1 } }
    );
    assert_eq!(cs1.scause, CAUSE_INTERRUPT_FLAG | 1);
    assert_eq!(ctx1.mepc, 0x8020_1000);
}

#[test]
fn machine_soft_with_a_stop_command_parks_the_hart() {
    let mut hsm = Hsm::new();
    let (ret, _) = hsm.hart_stop(0);
    assert_eq!(ret.error, SBI_SUCCESS);
    let mut cs = zero_csrs();
    let mut ctx = SupervisorContext::new_supervisor(0x8020_2000, cs.mstatus, 0, 0);
    let r = handle_machine_soft(&mut ctx, &mut cs, &mut hsm, 0);
    assert_eq!(r, SoftOutcome::Park);
    assert_eq!(hsm.hart_get_status(0).value, 1);
}

#[test]
fn machine_soft_with_a_stray_start_is_fatal() {
    let mut hsm = Hsm::new();
    // A start command observed in the soft handler instead of at the
    // park: the execute loop treats it as an invariant violation.
    let (ret, _) = hsm.hart_start(1, 0x8020_0000, 0);
    assert_eq!(ret.error, SBI_SUCCESS);
    let mut cs = zero_csrs();
    let mut ctx = SupervisorContext::new_supervisor(0x8020_2000, cs.mstatus, 0, 0);
    let r = handle_machine_soft(&mut ctx, &mut cs, &mut hsm, 1);
    assert_eq!(r, SoftOutcome::StrayStart);
}

#[test]
fn machine_soft_without_command_or_delegation_is_fatal() {
    let mut hsm = Hsm::new();
    let mut cs = zero_csrs();
    let mut ctx = SupervisorContext::new_supervisor(0x8020_2000, cs.mstatus, 0, 0);
    let r = handle_machine_soft(&mut ctx, &mut cs, &mut hsm, 0);
    assert_eq!(r, SoftOutcome::NoCommandFatal);
}
