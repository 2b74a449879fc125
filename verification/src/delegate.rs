//! Trap delegation: the boot-time delegation masks and the transfer of a
//! machine-level trap to S-mode.
//!
//! Boot delegates the supervisor- and user-level interrupts and the
//! exceptions S-mode can handle itself; the machine timer stays with the
//! firmware because timer arming is caller-driven. At run time a trap the
//! firmware does not service is transferred to S-mode by hand, following
//! the architectural sequence, and only when its delegation bit is set.

use vstd::prelude::*;

use crate::context::SupervisorContext;
use crate::csr::MachineCsrs;
use crate::csr::MIE_MEIE;
use crate::csr::MIE_MSIE;
use crate::csr::MSTATUS_MPP_MASK;
use crate::csr::MSTATUS_MPP_S;
use crate::csr::MSTATUS_SIE;
use crate::csr::MSTATUS_SPIE;
use crate::csr::MSTATUS_SPP;
use crate::trap::cause_code;
use vstd::wrapping::u64_specs;
use crate::trap::is_interrupt;

verus! {

/// Interrupt delegation written at boot: the supervisor and user
/// software, timer and external interrupts (`mideleg` bits 0, 1, 4, 5,
/// 8, 9).
pub const BOOT_MIDELEG: u64 = 0x333;

/// Exception delegation written at boot: instruction misaligned (0),
/// instruction access fault (1), breakpoint (3), load access fault (5),
/// store access fault (7), user environment call (8), instruction page
/// fault (12), load page fault (13) and store page fault (15).
pub const BOOT_MEDELEG: u64 = 0xB1AB;

/// Machine interrupt enables written at boot: external and software.
/// The machine timer (`MTIE`) is deliberately left off: it is armed on
/// demand by SBI `set_timer`.
pub const BOOT_MIE: u64 = MIE_MEIE | MIE_MSIE;

/// Program the boot delegation: set the delegation bits and the machine
/// interrupt enables, leaving every other bit as it was.
pub fn delegate_interrupt_exception(csrs: &mut MachineCsrs)
    ensures
        final(csrs).mideleg == old(csrs).mideleg | BOOT_MIDELEG,
        final(csrs).medeleg == old(csrs).medeleg | BOOT_MEDELEG,
        final(csrs).mie == old(csrs).mie | BOOT_MIE,
        *final(csrs) == (MachineCsrs {
            mideleg: final(csrs).mideleg,
            medeleg: final(csrs).medeleg,
            mie: final(csrs).mie,
            ..*old(csrs)
        }),
{
    csrs.mideleg = csrs.mideleg | BOOT_MIDELEG;
    csrs.medeleg = csrs.medeleg | BOOT_MEDELEG;
    csrs.mie = csrs.mie | BOOT_MIE;
}

/// Whether the trap with cause `mcause` may be transferred to S-mode:
/// its bit is set in `mideleg` (interrupts) or `medeleg` (exceptions).
pub open spec fn delegable(csrs: MachineCsrs, mcause: u64) -> bool {
    if is_interrupt(mcause) {
        cause_code(mcause) < 64 && csrs.mideleg & (1u64 << cause_code(mcause)) != 0
    } else {
        cause_code(mcause) < 64 && csrs.medeleg & (1u64 << cause_code(mcause)) != 0
    }
}

/// Decide `delegable` for a concrete trap.
pub fn should_transfer_trap(csrs: &MachineCsrs, mcause: u64) -> (r: bool)
    ensures
        r == delegable(*csrs, mcause),
{
    let interrupt = mcause & crate::csr::CAUSE_INTERRUPT_FLAG != 0;
    let code = mcause & !crate::csr::CAUSE_INTERRUPT_FLAG;
    if code >= 64 {
        return false;
    }
    if interrupt {
        csrs.mideleg & (1u64 << code) != 0
    } else {
        csrs.medeleg & (1u64 << code) != 0
    }
}

/// The S-mode entry address for a trap under `stvec`: the vector base,
/// plus four bytes per cause code when the vector is in vectored mode
/// and the trap is an interrupt.
pub open spec fn stvec_target(stvec: u64, mcause: u64) -> u64 {
    if stvec & 0x3 == 1 && is_interrupt(mcause) {
        u64_specs::wrapping_add(stvec & !0x3u64, ((4 * cause_code(mcause)) as u64))
    } else {
        stvec & !0x3u64
    }
}

/// The saved `mstatus` after a trap transfer: SPIE takes the old SIE,
/// SIE is cleared, SPP records the interrupted privilege, and MPP is
/// set to S for the coming `mret`.
pub open spec fn transferred_mstatus(mstatus: u64) -> u64 {
    (mstatus & !(MSTATUS_SIE | MSTATUS_SPIE | MSTATUS_SPP | MSTATUS_MPP_MASK)) | (if mstatus
        & MSTATUS_SIE != 0 {
        MSTATUS_SPIE
    } else {
        0
    }) | (if mstatus & MSTATUS_MPP_MASK == MSTATUS_MPP_S {
        MSTATUS_SPP
    } else {
        0
    }) | MSTATUS_MPP_S
}

/// The relation between the states before and after a trap transfer to
/// S-mode: the S-mode trap CSRs carry the cause, the faulting pc and the
/// trap value; the saved `mstatus` is restacked; and the saved `mepc`
/// points at the S-mode vector.
pub open spec fn trap_transferred(
    pre_ctx: SupervisorContext,
    post_ctx: SupervisorContext,
    pre_csrs: MachineCsrs,
    post_csrs: MachineCsrs,
    mcause: u64,
    tval: u64,
) -> bool {
    &&& post_csrs == (MachineCsrs { scause: mcause, sepc: pre_ctx.mepc, stval: tval, ..pre_csrs })
    &&& post_ctx.mstatus == transferred_mstatus(pre_ctx.mstatus)
    &&& post_ctx.mepc == stvec_target(pre_csrs.stvec, mcause)
    &&& post_ctx.regs@ == pre_ctx.regs@
}

/// Transfer the trap `mcause` (with trap value `tval`) to S-mode:
/// write the S-mode trap CSRs, stack the interrupt-enable and privilege
/// bits in the saved `mstatus`, and point the saved `mepc` at the
/// S-mode vector, so that the next `mret` enters the S-mode handler in
/// S-mode with interrupts disabled.
pub fn do_transfer_trap(ctx: &mut SupervisorContext, csrs: &mut MachineCsrs, mcause: u64, tval: u64)
    requires
        old(ctx).wf(),
        is_interrupt(mcause) ==> cause_code(mcause) < 64,
    ensures
        final(ctx).wf(),
        trap_transferred(*old(ctx), *final(ctx), *old(csrs), *final(csrs), mcause, tval),
{
    csrs.scause = mcause;
    csrs.sepc = ctx.mepc;
    csrs.stval = tval;
    let old_mstatus = ctx.mstatus;
    let spie: u64 = if old_mstatus & MSTATUS_SIE != 0 {
        MSTATUS_SPIE
    } else {
        0
    };
    let spp: u64 = if old_mstatus & MSTATUS_MPP_MASK == MSTATUS_MPP_S {
        MSTATUS_SPP
    } else {
        0
    };
    ctx.mstatus = (old_mstatus & !(MSTATUS_SIE | MSTATUS_SPIE | MSTATUS_SPP | MSTATUS_MPP_MASK))
        | spie | spp | MSTATUS_MPP_S;
    let interrupt = mcause & crate::csr::CAUSE_INTERRUPT_FLAG != 0;
    let code = mcause & !crate::csr::CAUSE_INTERRUPT_FLAG;
    let base = csrs.stvec & !0x3u64;
    if csrs.stvec & 0x3 == 1 && interrupt {
        proof {
            assert(cause_code(mcause) < 64 ==> 4 * (mcause & !crate::csr::CAUSE_INTERRUPT_FLAG)
                < 256) by (bit_vector);
        }
        ctx.mepc = base.wrapping_add(4 * code);
    } else {
        ctx.mepc = base;
    }
}

} // verus!
