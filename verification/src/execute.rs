//! The execute loop's trap handlers: what the supervisor driver decides
//! for each classified trap the runtime yields.
//!
//! The loop itself — resuming S-mode with `mret`, catching the next trap —
//! is the shell's; each handler here consumes one yielded trap, mutates the
//! saved context and the CSR state, and tells the shell what to do next.
//! Hardware values a decision needs (the fetched instruction word, the
//! CLINT `mtime`, a console byte) come in as arguments.

use vstd::prelude::*;

use crate::context::REG_A0;
use crate::context::REG_A1;
use crate::context::REG_A2;
use crate::context::SupervisorContext;
use crate::csr::MSTATUS_SIE;
use crate::csr::MachineCsrs;
use crate::hsm::HART_COUNT;
use crate::hsm::HartState;
use crate::hsm::Hsm;
use crate::hsm::HsmCommand;
use crate::hsm::HsmEvent;
use crate::hsm::hsm_step;
use crate::pmp::dram_reachable;
use crate::sbi::EXT_HSM;
use crate::sbi::HSM_HART_SUSPEND;
use crate::sbi::MachineInfo;
use crate::sbi::SbiAction;
use crate::sbi::ecall;
use crate::sbiret::HSM_RESUME_SENTINEL;
use vstd::wrapping::u64_specs;

verus! {

/// Whether the call registers of a trapped `ecall` name a non-retentive
/// suspend that will go through: exactly then the handler rewrites the
/// context to the resume address instead of stepping past the `ecall`.
pub open spec fn suspend_rewrite_triggered(ctx: SupervisorContext) -> bool {
    &&& ctx.a7() == EXT_HSM
    &&& ctx.a6() == HSM_HART_SUSPEND
    &&& ctx.a0() & 0x8000_0000 != 0
    &&& dram_reachable(ctx.a1())
}

/// The register contract of a non-retentive resume, as the SBI spec
/// mandates it: the hart re-enters S-mode at `start_addr` with
/// `a0 = hartid` and `a1 = opaque`, address translation off (`satp = 0`)
/// and S-mode interrupts disabled (`sstatus.SIE = 0`, which is the SIE
/// bit of `mstatus`); the saved `mstatus` is resynchronised from the
/// modified CSR.
pub open spec fn resume_rewrite(
    pre_ctx: SupervisorContext,
    post_ctx: SupervisorContext,
    pre_csrs: MachineCsrs,
    post_csrs: MachineCsrs,
    hart_id: usize,
    start_addr: u64,
    opaque: u64,
) -> bool {
    &&& post_ctx.mepc == start_addr
    &&& post_ctx.regs@ == pre_ctx.regs@.update(REG_A0 as int, hart_id as u64).update(
        REG_A1 as int,
        opaque,
    )
    &&& post_csrs == (MachineCsrs {
        satp: 0,
        mstatus: (pre_csrs.mstatus & !MSTATUS_SIE),
        ..pre_csrs
    })
    &&& post_ctx.mstatus == post_csrs.mstatus
}

/// Perform the non-retentive resume rewrite for a start command taken
/// from this hart's own mailbox, and record the hart as running again.
fn non_retentive_resume(
    ctx: &mut SupervisorContext,
    csrs: &mut MachineCsrs,
    hsm: &mut Hsm,
    hart_id: usize,
    start_addr: u64,
    opaque: u64,
)
    requires
        old(ctx).wf(),
        old(hsm).wf(),
        hart_id < HART_COUNT,
        hsm_step(old(hsm).cells[hart_id as int].state, HsmEvent::AckStart, HartState::Started),
    ensures
        final(ctx).wf(),
        final(hsm).wf(),
        resume_rewrite(
            *old(ctx),
            *final(ctx),
            *old(csrs),
            *final(csrs),
            hart_id,
            start_addr,
            opaque,
        ),
        final(hsm).cells[hart_id as int].state == HartState::Started,
        final(hsm).cells[hart_id as int].mailbox == old(hsm).cells[hart_id as int].mailbox,
        forall|i: int|
            0 <= i < HART_COUNT && i != hart_id ==> final(hsm).cells[i] == old(hsm).cells[i],
{
    csrs.satp = 0;
    csrs.mstatus = csrs.mstatus & !MSTATUS_SIE;
    hsm.record_current_start_finished(hart_id);
    ctx.mstatus = csrs.mstatus;
    ctx.set_reg(REG_A0, hart_id as u64);
    ctx.set_reg(REG_A1, opaque);
    ctx.mepc = start_addr;
}

/// Handle a yielded SBI call: dispatch it and write the outcome back
/// into the saved context.
///
/// Exactly one of two things happens. Either the call was a
/// non-retentive suspend that went through — then the context is
/// rewritten per `resume_rewrite` to the resume address with
/// `(a0, a1) = (hartid, opaque)` — or `mepc` advances over the four-byte
/// `ecall` and `(a0, a1)` receive the dispatch's return pair, whose
/// values `ecall`'s contract pins per extension. The returned action is
/// what the shell performs before re-entering S-mode.
pub fn handle_sbi_call(
    ctx: &mut SupervisorContext,
    csrs: &mut MachineCsrs,
    hsm: &mut Hsm,
    hart_id: usize,
    console_char: u64,
    info: &MachineInfo,
) -> (r: SbiAction)
    requires
        old(ctx).wf(),
        old(hsm).wf(),
        hart_id < HART_COUNT,
        old(hsm).cells[hart_id as int].state == HartState::Started,
    ensures
        final(ctx).wf(),
        final(hsm).wf(),
        // (b) the rewrite: mepc goes to the resume address, a0/a1 to
        // (hartid, opaque), and the hart runs again.
        suspend_rewrite_triggered(*old(ctx)) ==> {
            &&& resume_rewrite(
                *old(ctx),
                *final(ctx),
                *old(csrs),
                *final(csrs),
                hart_id,
                old(ctx).a1(),
                old(ctx).regs[REG_A2 as int],
            )
            &&& final(hsm).cells[hart_id as int].state == HartState::Started
            &&& final(hsm).cells[hart_id as int].mailbox is None
            &&& forall|i: int|
                0 <= i < HART_COUNT && i != hart_id ==> final(hsm).cells[i] == old(hsm).cells[i]
            &&& r == SbiAction::WaitForWake
        },
        // (a) the ordinary return: mepc advances by four and a0/a1 hold
        // the dispatch pair; nothing else in the context changes.
        !suspend_rewrite_triggered(*old(ctx)) ==> {
            &&& final(ctx).mepc == u64_specs::wrapping_add(old(ctx).mepc, 4)
            &&& final(ctx).mstatus == old(ctx).mstatus
            &&& *final(csrs) == *old(csrs)
            &&& forall|i: int|
                0 <= i < 32 && i != REG_A0 && i != REG_A1 ==> final(ctx).regs[i] == old(ctx).regs[i]
        },
        // The dispatch pair and the monitor's moves, per extension, as
        // `ecall` decides them on the old register values.
        !suspend_rewrite_triggered(*old(ctx)) ==> sbi_return_relation(
            *old(ctx),
            *final(ctx),
            *old(hsm),
            *final(hsm),
            hart_id,
            console_char,
            *info,
            r,
        ),
{
    let a7 = ctx.reg(crate::context::REG_A7);
    let a6 = ctx.reg(crate::context::REG_A6);
    let a0 = ctx.reg(REG_A0);
    let a1 = ctx.reg(REG_A1);
    let a2 = ctx.reg(REG_A2);
    let (ans, action) = ecall(a7, a6, a0, a1, a2, hart_id, console_char, info, hsm);
    if a7 == EXT_HSM && ans.error == HSM_RESUME_SENTINEL {
        let cmd = hsm.take_command(hart_id);
        if let Some(HsmCommand::Start { start_addr, opaque }) = cmd {
            non_retentive_resume(ctx, csrs, hsm, hart_id, start_addr, opaque);
        } else {
            proof {
                assert(false);
            }
        }
        action
    } else {
        ctx.set_reg(REG_A0, ans.error);
        ctx.set_reg(REG_A1, ans.value);
        ctx.mepc = ctx.mepc.wrapping_add(4);
        action
    }
}

/// What the ordinary (non-rewrite) SBI return leaves in `a0`/`a1`, what
/// the monitor now holds, and which action is owed, per extension — the
/// visible half of `ecall`'s contract, restated over the saved context.
pub open spec fn sbi_return_relation(
    pre_ctx: SupervisorContext,
    post_ctx: SupervisorContext,
    pre_hsm: Hsm,
    post_hsm: Hsm,
    hart_id: usize,
    console_char: u64,
    info: MachineInfo,
    action: SbiAction,
) -> bool {
    let ext = pre_ctx.a7();
    let func = pre_ctx.a6();
    let a0 = pre_ctx.a0();
    let a1 = pre_ctx.a1();
    let a2 = pre_ctx.regs[REG_A2 as int];
    let e = post_ctx.a0();
    let v = post_ctx.a1();
    &&& (ext == crate::sbi::EXT_BASE ==> e == crate::sbi::base_result(func, a0, info).error && v
        == crate::sbi::base_result(func, a0, info).value && action == SbiAction::Nothing
        && post_hsm.cells@ == pre_hsm.cells@)
    &&& (ext == crate::sbi::EXT_TIME && func == 0 ==> e == crate::sbiret::SBI_SUCCESS && action
        == (SbiAction::SetTimer { stime_value: a0 }) && post_hsm.cells@ == pre_hsm.cells@)
    &&& (ext == crate::sbi::EXT_IPI && func == 0 ==> e == crate::sbiret::SBI_SUCCESS && action
        == (SbiAction::SendIpiMask { mask: a0, base: a1 }) && post_hsm.cells@ == pre_hsm.cells@)
    &&& (ext == EXT_HSM && func == crate::sbi::HSM_HART_START ==> {
        &&& (e == crate::sbiret::SBI_SUCCESS <==> a0 < HART_COUNT && dram_reachable(a1)
            && pre_hsm.cells[a0 as int].state == HartState::Stopped)
        &&& (e == crate::sbiret::SBI_SUCCESS ==> post_hsm.cells[a0 as int].state
            == HartState::StartPending && post_hsm.cells[a0 as int].mailbox == Some(
            HsmCommand::Start { start_addr: a1, opaque: a2 },
        ) && action == (SbiAction::WakeHart { hart: a0 as usize }) && forall|i: int|
            0 <= i < HART_COUNT && i != a0 ==> post_hsm.cells[i] == pre_hsm.cells[i])
        &&& (e != crate::sbiret::SBI_SUCCESS ==> post_hsm.cells@ == pre_hsm.cells@ && action
            == SbiAction::Nothing)
    })
    &&& (ext == EXT_HSM && func == crate::sbi::HSM_HART_STOP ==> e == crate::sbiret::SBI_SUCCESS
        && post_hsm.cells[hart_id as int].state == HartState::StopPending
        && post_hsm.cells[hart_id as int].mailbox == Some(HsmCommand::Stop) && action
        == (SbiAction::WakeHart { hart: hart_id }) && forall|i: int|
        0 <= i < HART_COUNT && i != hart_id ==> post_hsm.cells[i] == pre_hsm.cells[i])
    &&& (ext == EXT_HSM && func == crate::sbi::HSM_HART_GET_STATUS ==> post_hsm.cells@
        == pre_hsm.cells@ && action == SbiAction::Nothing && (a0 < HART_COUNT ==> e
        == crate::sbiret::SBI_SUCCESS && v == crate::hsm::status_code(
        pre_hsm.cells[a0 as int].state,
    )) && (a0 >= HART_COUNT ==> e == crate::sbiret::SBI_ERR_INVALID_PARAM))
    &&& (ext == EXT_HSM && func == HSM_HART_SUSPEND && a0 & 0x8000_0000 == 0 ==> e
        == crate::sbiret::SBI_SUCCESS && action == SbiAction::Wfi && post_hsm.cells@
        == pre_hsm.cells@)
    &&& (ext == EXT_HSM && func == HSM_HART_SUSPEND && a0 & 0x8000_0000 != 0 && !dram_reachable(
        a1,
    ) ==> e == crate::sbiret::SBI_ERR_INVALID_ADDRESS && action == SbiAction::Nothing
        && post_hsm.cells@ == pre_hsm.cells@)
    &&& (ext == crate::sbi::EXT_SRST && func == crate::sbi::SRST_SYSTEM_RESET ==> e
        == crate::sbiret::SBI_SUCCESS && action == (SbiAction::Reset {
        reset_type: a0,
        reason: a1,
    }) && post_hsm.cells@ == pre_hsm.cells@)
    &&& (ext == crate::sbi::LEGACY_SET_TIMER ==> e == a0 && v == a1 && action
        == (SbiAction::SetTimer { stime_value: a0 }) && post_hsm.cells@ == pre_hsm.cells@)
    &&& (ext == crate::sbi::LEGACY_CONSOLE_PUTCHAR ==> e == a0 && v == a1 && action
        == (SbiAction::PutChar { byte: a0 }) && post_hsm.cells@ == pre_hsm.cells@)
    &&& (ext == crate::sbi::LEGACY_CONSOLE_GETCHAR ==> e == console_char && v == a1 && action
        == SbiAction::GetChar && post_hsm.cells@ == pre_hsm.cells@)
    &&& (ext == crate::sbi::LEGACY_SEND_IPI ==> e == a0 && v == a1 && action
        == (SbiAction::LegacySendIpi { mask_addr: a0 }) && post_hsm.cells@ == pre_hsm.cells@)
    &&& (ext == crate::sbi::LEGACY_SHUTDOWN ==> e == a0 && v == a1 && action
        == SbiAction::Shutdown && post_hsm.cells@ == pre_hsm.cells@)
    &&& (ext == crate::sbi::EXT_TIME && func != 0 ==> e == crate::sbiret::SBI_ERR_NOT_SUPPORTED
        && action == SbiAction::Nothing && post_hsm.cells@ == pre_hsm.cells@)
    &&& (ext == crate::sbi::EXT_IPI && func != 0 ==> e == crate::sbiret::SBI_ERR_NOT_SUPPORTED
        && action == SbiAction::Nothing && post_hsm.cells@ == pre_hsm.cells@)
    &&& (ext == EXT_HSM && func > HSM_HART_SUSPEND ==> e == crate::sbiret::SBI_ERR_NOT_SUPPORTED
        && action == SbiAction::Nothing && post_hsm.cells@ == pre_hsm.cells@)
    &&& (ext == crate::sbi::EXT_SRST && func != crate::sbi::SRST_SYSTEM_RESET ==> e
        == crate::sbiret::SBI_ERR_NOT_SUPPORTED && action == SbiAction::Nothing && post_hsm.cells@
        == pre_hsm.cells@)
    &&& (ext == 0x03 || ext == 0x05 || ext == 0x06 || ext == 0x07 ==> e
        == crate::sbiret::SBI_ERR_NOT_SUPPORTED && action == SbiAction::Nothing && post_hsm.cells@
        == pre_hsm.cells@)
    &&& (!crate::sbi::supported_extension(ext) ==> e == crate::sbiret::SBI_ERR_NOT_SUPPORTED
        && action == SbiAction::Nothing && post_hsm.cells@ == pre_hsm.cells@)
}

/// Handle a yielded illegal-instruction trap. `ins` is the 32-bit word
/// the shell fetched from `mepc` under S-mode translation, `mtime` the
/// CLINT time at the trap. A `rdtime` read is emulated in place; any
/// other instruction is transferred to the S-mode handler when its
/// delegation bit is set; otherwise the trap is fatal at machine level
/// and the handler reports failure without touching anything.
pub fn handle_illegal_instruction(
    ctx: &mut SupervisorContext,
    csrs: &mut MachineCsrs,
    ins: u32,
    mtime: u64,
) -> (r: bool)
    requires
        old(ctx).wf(),
    ensures
        final(ctx).wf(),
        r == (crate::rdtime::is_rdtime(ins) || crate::delegate::delegable(
            *old(csrs),
            crate::csr::EXC_ILLEGAL_INSTRUCTION,
        )),
        crate::rdtime::is_rdtime(ins) ==> crate::rdtime::rdtime_emulation(
            *old(ctx),
            *final(ctx),
            ins,
            mtime,
        ) && *final(csrs) == *old(csrs),
        !crate::rdtime::is_rdtime(ins) && crate::delegate::delegable(
            *old(csrs),
            crate::csr::EXC_ILLEGAL_INSTRUCTION,
        ) ==> crate::delegate::trap_transferred(
            *old(ctx),
            *final(ctx),
            *old(csrs),
            *final(csrs),
            crate::csr::EXC_ILLEGAL_INSTRUCTION,
            ins as u64,
        ),
        !r ==> *final(ctx) == *old(ctx) && *final(csrs) == *old(csrs),
{
    if crate::rdtime::emulate_rdtime(ctx, ins, mtime) {
        true
    } else if crate::delegate::should_transfer_trap(csrs, crate::csr::EXC_ILLEGAL_INSTRUCTION) {
        proof {
            assert(2u64 & 0x8000_0000_0000_0000u64 == 0) by (bit_vector);
        }
        crate::delegate::do_transfer_trap(ctx, csrs, crate::csr::EXC_ILLEGAL_INSTRUCTION, ins as u64);
        true
    } else {
        false
    }
}

/// The `mcause` value of a supervisor software interrupt, as delegated.
pub open spec fn ssoft_cause() -> u64 {
    crate::csr::CAUSE_INTERRUPT_FLAG | crate::csr::INT_SUPERVISOR_SOFT
}

/// What the machine-software-interrupt handler decided.
#[derive(Clone, Copy, PartialEq, Eq, Structural, Debug)]
pub enum SoftOutcome {
    /// A start command arrived while the hart was running: an invariant
    /// violation, fatal at machine level.
    StrayStart,
    /// A stop command was acknowledged; the shell parks the hart in the
    /// idle loop and calls `resume_after_park` on wake.
    Park,
    /// No command was pending: the IPI was meant for S-mode and has been
    /// transferred as a supervisor software interrupt. The shell clears
    /// the CLINT pending bit (`SbiAction::ClearIpi`) and resumes.
    DelegatedIpi,
    /// No command and no delegation: fatal at machine level.
    NoCommandFatal,
}

/// Handle a yielded machine software interrupt: inspect this hart's
/// mailbox and either acknowledge a stop, report a stray start, or pass
/// the IPI on to S-mode.
pub fn handle_machine_soft(
    ctx: &mut SupervisorContext,
    csrs: &mut MachineCsrs,
    hsm: &mut Hsm,
    hart_id: usize,
) -> (r: SoftOutcome)
    requires
        old(ctx).wf(),
        old(hsm).wf(),
        hart_id < HART_COUNT,
        // A pending stop command is posted only together with the
        // stop-pending state (see `Hsm::hart_stop`).
        old(hsm).cells[hart_id as int].mailbox == Some(HsmCommand::Stop) ==> old(hsm).cells[hart_id as int].state == HartState::StopPending,
    ensures
        final(ctx).wf(),
        final(hsm).wf(),
        r == SoftOutcome::StrayStart <==> old(hsm).cells[hart_id as int].mailbox matches Some(
            HsmCommand::Start { .. },
        ),
        r == SoftOutcome::StrayStart ==> *final(ctx) == *old(ctx) && *final(csrs) == *old(csrs)
            && final(hsm).cells[hart_id as int].state == old(hsm).cells[hart_id as int].state,
        r == SoftOutcome::Park <==> old(hsm).cells[hart_id as int].mailbox == Some(
            HsmCommand::Stop,
        ),
        r == SoftOutcome::Park ==> *final(ctx) == *old(ctx) && *final(csrs) == *old(csrs)
            && final(hsm).cells[hart_id as int].state == HartState::Stopped
            && final(hsm).cells[hart_id as int].mailbox is None,
        old(hsm).cells[hart_id as int].mailbox is None ==> final(hsm).cells@ == old(hsm).cells@
            && (r == SoftOutcome::DelegatedIpi || r == SoftOutcome::NoCommandFatal),
        r == SoftOutcome::DelegatedIpi <==> old(hsm).cells[hart_id as int].mailbox is None
            && crate::delegate::delegable(*old(csrs), ssoft_cause()),
        r == SoftOutcome::DelegatedIpi ==> crate::delegate::trap_transferred(
            *old(ctx),
            *final(ctx),
            *old(csrs),
            *final(csrs),
            ssoft_cause(),
            0,
        ),
        r == SoftOutcome::NoCommandFatal ==> *final(ctx) == *old(ctx) && *final(csrs) == *old(csrs),
        forall|i: int|
            0 <= i < HART_COUNT && i != hart_id ==> final(hsm).cells[i] == old(hsm).cells[i],
{
    let cmd = hsm.take_command(hart_id);
    match cmd {
        Some(HsmCommand::Start { .. }) => SoftOutcome::StrayStart,
        Some(HsmCommand::Stop) => {
            hsm.record_current_stop_finished(hart_id);
            SoftOutcome::Park
        },
        None => {
            let cause = crate::csr::CAUSE_INTERRUPT_FLAG | crate::csr::INT_SUPERVISOR_SOFT;
            if crate::delegate::should_transfer_trap(csrs, cause) {
                proof {
                    assert((0x8000_0000_0000_0000u64 | 3u64) & !0x8000_0000_0000_0000u64 < 64)
                        by (bit_vector);
                    assert((0x8000_0000_0000_0000u64 | 1u64) & !0x8000_0000_0000_0000u64 < 64)
                        by (bit_vector);
                }
                crate::delegate::do_transfer_trap(ctx, csrs, cause, 0);
                SoftOutcome::DelegatedIpi
            } else {
                SoftOutcome::NoCommandFatal
            }
        },
    }
}

/// After a parked hart wakes from the idle loop: if a start command was
/// posted while it slept, rewrite the context per `resume_rewrite` and
/// run again; otherwise report that nothing arrived, and the shell parks
/// the hart once more.
pub fn resume_after_park(
    ctx: &mut SupervisorContext,
    csrs: &mut MachineCsrs,
    hsm: &mut Hsm,
    hart_id: usize,
) -> (r: bool)
    requires
        old(ctx).wf(),
        old(hsm).wf(),
        hart_id < HART_COUNT,
        // A start command in the mailbox of a parked hart comes with the
        // start-pending state (posted by a remote `hart_start`).
        (old(hsm).cells[hart_id as int].mailbox matches Some(HsmCommand::Start { .. })) ==> old(hsm).cells[hart_id as int].state == HartState::StartPending,
    ensures
        final(ctx).wf(),
        final(hsm).wf(),
        r <==> old(hsm).cells[hart_id as int].mailbox matches Some(HsmCommand::Start { .. }),
        r ==> {
            &&& old(hsm).cells[hart_id as int].mailbox matches Some(
                HsmCommand::Start { start_addr, opaque },
            ) && resume_rewrite(
                *old(ctx),
                *final(ctx),
                *old(csrs),
                *final(csrs),
                hart_id,
                start_addr,
                opaque,
            )
            &&& final(hsm).cells[hart_id as int].state == HartState::Started
            &&& final(hsm).cells[hart_id as int].mailbox is None
        },
        !r ==> *final(ctx) == *old(ctx) && *final(csrs) == *old(csrs)
            && final(hsm).cells[hart_id as int].state == old(hsm).cells[hart_id as int].state,
        forall|i: int|
            0 <= i < HART_COUNT && i != hart_id ==> final(hsm).cells[i] == old(hsm).cells[i],
{
    let cmd = hsm.take_command(hart_id);
    if let Some(HsmCommand::Start { start_addr, opaque }) = cmd {
        non_retentive_resume(ctx, csrs, hsm, hart_id, start_addr, opaque);
        true
    } else {
        false
    }
}

/// What the execute loop does after one handled trap.
#[derive(Clone, Copy, PartialEq, Eq, Structural, Debug)]
pub enum StepOutcome {
    /// Perform `action`, then restore the context and `mret` into S-mode.
    Resume {
        /// The owed hardware action, possibly `SbiAction::Nothing`.
        action: SbiAction,
    },
    /// Park the hart in the idle loop; on wake, call `resume_after_park`.
    Park,
    /// The trap is fatal at machine level: report and halt.
    Fatal,
}

/// Consume one classified trap, as the execute loop does: dispatch it to
/// the handler for its kind and say what the shell does next.
///
/// The event inputs are the hardware values the decision may need: `ins`
/// is the instruction word at `mepc` (read for an illegal-instruction
/// trap), `mtime` the CLINT time at the trap, `console_char` the byte a
/// legacy console read would yield.
pub fn handle_machine_trap(
    tr: crate::trap::MachineTrap,
    ctx: &mut SupervisorContext,
    csrs: &mut MachineCsrs,
    hsm: &mut Hsm,
    hart_id: usize,
    ins: u32,
    mtime: u64,
    console_char: u64,
    info: &MachineInfo,
) -> (r: StepOutcome)
    requires
        old(ctx).wf(),
        old(hsm).wf(),
        hart_id < HART_COUNT,
        tr == crate::trap::MachineTrap::SbiCall ==> old(hsm).cells[hart_id as int].state
            == HartState::Started,
        tr == crate::trap::MachineTrap::MachineSoft && old(hsm).cells[hart_id as int].mailbox
            == Some(HsmCommand::Stop) ==> old(hsm).cells[hart_id as int].state
            == HartState::StopPending,
    ensures
        final(ctx).wf(),
        final(hsm).wf(),
        // An SBI call: the two register outcomes of `handle_sbi_call`.
        tr == crate::trap::MachineTrap::SbiCall ==> (r matches StepOutcome::Resume { action } && {
            &&& suspend_rewrite_triggered(*old(ctx)) ==> action == SbiAction::WaitForWake
                && resume_rewrite(
                *old(ctx),
                *final(ctx),
                *old(csrs),
                *final(csrs),
                hart_id,
                old(ctx).a1(),
                old(ctx).regs[REG_A2 as int],
            ) && final(hsm).cells[hart_id as int].state == HartState::Started
                && final(hsm).cells[hart_id as int].mailbox is None
            &&& !suspend_rewrite_triggered(*old(ctx)) ==> final(ctx).mepc
                == u64_specs::wrapping_add(old(ctx).mepc, 4) && final(ctx).mstatus == old(ctx).mstatus && *final(csrs) == *old(csrs) && sbi_return_relation(
                *old(ctx),
                *final(ctx),
                *old(hsm),
                *final(hsm),
                hart_id,
                console_char,
                *info,
                action,
            )
        }),
        // An illegal instruction: emulate, delegate, or die.
        tr == crate::trap::MachineTrap::IllegalInstruction ==> {
            &&& crate::rdtime::is_rdtime(ins) ==> r == (StepOutcome::Resume {
                action: SbiAction::Nothing,
            }) && crate::rdtime::rdtime_emulation(*old(ctx), *final(ctx), ins, mtime) && *final(csrs) == *old(csrs)
            &&& !crate::rdtime::is_rdtime(ins) && crate::delegate::delegable(
                *old(csrs),
                crate::csr::EXC_ILLEGAL_INSTRUCTION,
            ) ==> r == (StepOutcome::Resume { action: SbiAction::Nothing })
                && crate::delegate::trap_transferred(
                *old(ctx),
                *final(ctx),
                *old(csrs),
                *final(csrs),
                crate::csr::EXC_ILLEGAL_INSTRUCTION,
                ins as u64,
            )
            &&& !crate::rdtime::is_rdtime(ins) && !crate::delegate::delegable(
                *old(csrs),
                crate::csr::EXC_ILLEGAL_INSTRUCTION,
            ) ==> r == StepOutcome::Fatal && *final(ctx) == *old(ctx) && *final(csrs) == *old(csrs)
            &&& final(hsm).cells@ == old(hsm).cells@
        },
        // The machine timer: hand it to S-mode and stop listening.
        tr == crate::trap::MachineTrap::MachineTimer ==> r == (StepOutcome::Resume {
            action: SbiAction::Nothing,
        }) && *final(ctx) == *old(ctx) && final(hsm).cells@ == old(hsm).cells@ && final(csrs).mip
            == old(csrs).mip | crate::csr::MIP_STIP && final(csrs).mie == old(csrs).mie
            & !crate::csr::MIE_MTIE && *final(csrs) == (MachineCsrs {
            mip: final(csrs).mip,
            mie: final(csrs).mie,
            ..*old(csrs)
        }),
        // A machine software interrupt: the mailbox decides.
        tr == crate::trap::MachineTrap::MachineSoft ==> {
            &&& (old(hsm).cells[hart_id as int].mailbox matches Some(HsmCommand::Start { .. }))
                ==> r == StepOutcome::Fatal && *final(ctx) == *old(ctx) && *final(csrs) == *old(csrs)
            &&& old(hsm).cells[hart_id as int].mailbox == Some(HsmCommand::Stop) ==> r
                == StepOutcome::Park && *final(ctx) == *old(ctx) && *final(csrs) == *old(csrs)
                && final(hsm).cells[hart_id as int].state == HartState::Stopped
                && final(hsm).cells[hart_id as int].mailbox is None
            &&& old(hsm).cells[hart_id as int].mailbox is None && crate::delegate::delegable(
                *old(csrs),
                ssoft_cause(),
            ) ==> r == (StepOutcome::Resume { action: (SbiAction::ClearIpi { hart: hart_id }) })
                && crate::delegate::trap_transferred(
                *old(ctx),
                *final(ctx),
                *old(csrs),
                *final(csrs),
                ssoft_cause(),
                0,
            )
            &&& old(hsm).cells[hart_id as int].mailbox is None && !crate::delegate::delegable(
                *old(csrs),
                ssoft_cause(),
            ) ==> r == StepOutcome::Fatal && *final(ctx) == *old(ctx) && *final(csrs) == *old(csrs)
        },
{
    match tr {
        crate::trap::MachineTrap::SbiCall => {
            let action = handle_sbi_call(ctx, csrs, hsm, hart_id, console_char, info);
            StepOutcome::Resume { action }
        },
        crate::trap::MachineTrap::IllegalInstruction => {
            if handle_illegal_instruction(ctx, csrs, ins, mtime) {
                StepOutcome::Resume { action: SbiAction::Nothing }
            } else {
                StepOutcome::Fatal
            }
        },
        crate::trap::MachineTrap::MachineTimer => {
            csrs.transfer_machine_timer();
            StepOutcome::Resume { action: SbiAction::Nothing }
        },
        crate::trap::MachineTrap::MachineSoft => {
            match handle_machine_soft(ctx, csrs, hsm, hart_id) {
                SoftOutcome::StrayStart => StepOutcome::Fatal,
                SoftOutcome::Park => StepOutcome::Park,
                SoftOutcome::DelegatedIpi => StepOutcome::Resume {
                    action: SbiAction::ClearIpi { hart: hart_id },
                },
                SoftOutcome::NoCommandFatal => StepOutcome::Fatal,
            }
        },
    }
}

} // verus!
