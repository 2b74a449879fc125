//! Emulation of the `rdtime` CSR read, which the JH7100 hardware lacks.
//!
//! When S-mode executes `rdtime rd` (`csrrs rd, time, x0`), the hardware
//! raises an illegal-instruction trap. The firmware recognises the
//! instruction and completes it: the destination register receives the
//! CLINT `mtime` value read at the trap, and `mepc` steps over the
//! four-byte instruction.

use vstd::prelude::*;

use crate::context::SupervisorContext;
use vstd::wrapping::u64_specs;

verus! {

/// Whether `ins` is a `rdtime rd` instruction: `csrrs rd, time, x0`
/// (CSR 0xC01, rs1 = x0, funct3 = CSRRS, SYSTEM opcode), any `rd`.
pub open spec fn is_rdtime(ins: u32) -> bool {
    ins & 0xFFFF_F07F == 0xC010_2073
}

/// The destination register field of an instruction word.
pub open spec fn ins_rd(ins: u32) -> u32 {
    (ins >> 7) & 0x1F
}

/// The relation between the context before and after a successful
/// `rdtime` emulation with the CLINT value `mtime` read at the trap:
/// the destination register holds exactly `mtime` (a write to `x0` is
/// discarded), `mepc` has stepped over the instruction, and nothing
/// else changed.
pub open spec fn rdtime_emulation(
    pre: SupervisorContext,
    post: SupervisorContext,
    ins: u32,
    mtime: u64,
) -> bool {
    &&& post.mepc == u64_specs::wrapping_add(pre.mepc, 4)
    &&& post.mstatus == pre.mstatus
    &&& (ins_rd(ins) != 0 ==> post.regs@ == pre.regs@.update(ins_rd(ins) as int, mtime))
    &&& (ins_rd(ins) == 0 ==> post.regs@ == pre.regs@)
}

/// Try to emulate `ins` as a `rdtime` read; `mtime` is the CLINT time
/// at the instant of the trap. Returns whether the instruction was
/// recognised; on success the context satisfies `rdtime_emulation`.
pub fn emulate_rdtime(ctx: &mut SupervisorContext, ins: u32, mtime: u64) -> (r: bool)
    requires
        old(ctx).wf(),
    ensures
        final(ctx).wf(),
        r == is_rdtime(ins),
        !r ==> *final(ctx) == *old(ctx),
        r ==> rdtime_emulation(*old(ctx), *final(ctx), ins, mtime),
{
    if ins & 0xFFFF_F07F == 0xC010_2073 {
        let rd = ((ins >> 7) & 0x1F) as usize;
        proof {
            assert(((ins >> 7) & 0x1F) < 32) by (bit_vector);
        }
        ctx.set_reg(rd, mtime);
        ctx.mepc = ctx.mepc.wrapping_add(4);
        true
    } else {
        false
    }
}

/// Two `rdtime` reads on one hart observe the CLINT at their own trap
/// instants; the CLINT counter never decreases, so the values S-mode
/// reads are non-decreasing: if both emulations wrote a real register,
/// the later read is at least the earlier one.
pub proof fn lemma_rdtime_reads_nondecreasing(
    pre1: SupervisorContext,
    post1: SupervisorContext,
    pre2: SupervisorContext,
    post2: SupervisorContext,
    ins1: u32,
    ins2: u32,
    t1: u64,
    t2: u64,
)
    requires
        pre1.wf(),
        pre2.wf(),
        rdtime_emulation(pre1, post1, ins1, t1),
        rdtime_emulation(pre2, post2, ins2, t2),
        ins_rd(ins1) != 0,
        ins_rd(ins2) != 0,
        t1 <= t2,
    ensures
        post1.regs@[ins_rd(ins1) as int] <= post2.regs@[ins_rd(ins2) as int],
{
    assert(ins_rd(ins1) < 32) by (bit_vector);
    assert(ins_rd(ins2) < 32) by (bit_vector);
}

} // verus!
