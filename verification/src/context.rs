//! The supervisor register context saved at a machine trap.
//!
//! On every trap the vector saves the 31 general-purpose integer registers,
//! `mstatus` and `mepc`. Between a yield and the next resume this record is
//! the sole authoritative copy of S-mode register state; the trap handler
//! mutates it, and resuming restores it and executes `mret`.

use vstd::prelude::*;

verus! {

/// Register index of `a0` in the `x0..x31` file.
pub const REG_A0: usize = 10;
/// Register index of `a1`.
pub const REG_A1: usize = 11;
/// Register index of `a2`.
pub const REG_A2: usize = 12;
/// Register index of `a3`.
pub const REG_A3: usize = 13;
/// Register index of `a4`.
pub const REG_A4: usize = 14;
/// Register index of `a5`.
pub const REG_A5: usize = 15;
/// Register index of `a6`, the SBI function id.
pub const REG_A6: usize = 16;
/// Register index of `a7`, the SBI extension id.
pub const REG_A7: usize = 17;

/// Saved S-mode register state: the `x0..x31` integer register file
/// (index 0 is the hardwired zero register), `mstatus`, and `mepc`.
pub struct SupervisorContext {
    /// The integer register file, indexed by architectural number.
    pub regs: Vec<u64>,
    /// The `mstatus` CSR value to restore on `mret`.
    pub mstatus: u64,
    /// The machine exception program counter: where S-mode resumes.
    pub mepc: u64,
}

impl SupervisorContext {
    /// A context is well formed when it holds all 32 register slots and
    /// keeps `x0` hardwired to zero.
    pub open spec fn wf(self) -> bool {
        &&& self.regs.len() == 32
        &&& self.regs[0] == 0
    }

    /// The value of register `a0` (SBI argument 0 / error slot).
    pub open spec fn a0(self) -> u64 {
        self.regs[REG_A0 as int]
    }

    /// The value of register `a1` (SBI argument 1 / value slot).
    pub open spec fn a1(self) -> u64 {
        self.regs[REG_A1 as int]
    }

    /// The value of register `a6` (SBI function id).
    pub open spec fn a6(self) -> u64 {
        self.regs[REG_A6 as int]
    }

    /// The value of register `a7` (SBI extension id).
    pub open spec fn a7(self) -> u64 {
        self.regs[REG_A7 as int]
    }

    /// A fresh context for entering S-mode at `mepc` with arguments
    /// `a0` and `a1`; every other register is zero.
    pub fn new_supervisor(mepc: u64, mstatus: u64, a0: u64, a1: u64) -> (r: SupervisorContext)
        ensures
            r.wf(),
            r.mepc == mepc,
            r.mstatus == mstatus,
            r.a0() == a0,
            r.a1() == a1,
            forall|i: int| 0 <= i < 32 && i != REG_A0 && i != REG_A1 ==> r.regs[i] == 0,
    {
        let mut regs: Vec<u64> = Vec::new();
        let mut i: usize = 0;
        while i < 32
            invariant
                i <= 32,
                regs.len() == i,
                forall|j: int| 0 <= j < i ==> regs[j] == 0,
            decreases 32 - i,
        {
            regs.push(0);
            i += 1;
        }
        regs.set(REG_A0, a0);
        regs.set(REG_A1, a1);
        SupervisorContext { regs, mstatus, mepc }
    }

    /// Read a register by architectural number.
    pub fn reg(&self, i: usize) -> (r: u64)
        requires
            self.wf(),
            i < 32,
        ensures
            r == self.regs[i as int],
    {
        self.regs[i]
    }

    /// Write a register by architectural number. A write to `x0` is
    /// discarded, as the hardware discards it.
    pub fn set_reg(&mut self, i: usize, v: u64)
        requires
            old(self).wf(),
            i < 32,
        ensures
            final(self).wf(),
            i != 0 ==> final(self).regs@ == old(self).regs@.update(i as int, v),
            i == 0 ==> final(self).regs@ == old(self).regs@,
            final(self).mstatus == old(self).mstatus,
            final(self).mepc == old(self).mepc,
    {
        if i != 0 {
            self.regs.set(i, v);
        }
    }
}

} // verus!
