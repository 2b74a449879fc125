//! Model of the machine-level CSR state a trap handler reads and writes.
//!
//! The hardware CSRs are reachable only through privileged instructions on
//! the target; here each relevant CSR is a plain 64-bit value, and the
//! verified handlers say exactly which bits they change. The shell that runs
//! on hardware mirrors every change with the corresponding `csrw`.

use vstd::prelude::*;

verus! {

/// `mstatus.SIE`: S-mode interrupt enable.
pub const MSTATUS_SIE: u64 = 0x2;
/// `mstatus.SPIE`: S-mode previous interrupt enable.
pub const MSTATUS_SPIE: u64 = 0x20;
/// `mstatus.SPP`: S-mode previous privilege (1 = S, 0 = U).
pub const MSTATUS_SPP: u64 = 0x100;
/// `mstatus.MPP`: both bits of the machine previous privilege field.
pub const MSTATUS_MPP_MASK: u64 = 0x1800;
/// `mstatus.MPP` encoding of supervisor mode.
pub const MSTATUS_MPP_S: u64 = 0x800;
/// `mstatus.MPRV`: modify-privilege bit used for the guarded fetch.
pub const MSTATUS_MPRV: u64 = 0x2_0000;

/// `mip.SSIP`: supervisor software interrupt pending.
pub const MIP_SSIP: u64 = 0x2;
/// `mip.MSIP`: machine software interrupt pending.
pub const MIP_MSIP: u64 = 0x8;
/// `mip.STIP`: supervisor timer interrupt pending.
pub const MIP_STIP: u64 = 0x20;

/// `mie.SSIE`: supervisor software interrupt enable.
pub const MIE_SSIE: u64 = 0x2;
/// `mie.MSIE`: machine software interrupt enable.
pub const MIE_MSIE: u64 = 0x8;
/// `mie.MTIE`: machine timer interrupt enable.
pub const MIE_MTIE: u64 = 0x80;
/// `mie.MEIE`: machine external interrupt enable.
pub const MIE_MEIE: u64 = 0x800;

/// Exception code: illegal instruction.
pub const EXC_ILLEGAL_INSTRUCTION: u64 = 2;
/// Exception code: environment call from S-mode.
pub const EXC_SUPERVISOR_ECALL: u64 = 9;
/// Interrupt code: supervisor software interrupt.
pub const INT_SUPERVISOR_SOFT: u64 = 1;
/// Interrupt code: machine software interrupt.
pub const INT_MACHINE_SOFT: u64 = 3;
/// Interrupt code: machine timer interrupt.
pub const INT_MACHINE_TIMER: u64 = 7;

/// The interrupt flag in `mcause` / `scause` on RV64: the top bit.
pub const CAUSE_INTERRUPT_FLAG: u64 = 0x8000_0000_0000_0000;

/// The machine- and supervisor-level CSRs the firmware core reads and
/// writes, as one record per hart.
pub struct MachineCsrs {
    /// Machine status register (its S-mode view is `sstatus`).
    pub mstatus: u64,
    /// Machine interrupt pending bits.
    pub mip: u64,
    /// Machine interrupt enable bits.
    pub mie: u64,
    /// Machine exception delegation bits.
    pub medeleg: u64,
    /// Machine interrupt delegation bits.
    pub mideleg: u64,
    /// S-mode address translation and protection register.
    pub satp: u64,
    /// S-mode trap cause.
    pub scause: u64,
    /// S-mode exception program counter.
    pub sepc: u64,
    /// S-mode trap value.
    pub stval: u64,
    /// S-mode trap vector base and mode.
    pub stvec: u64,
}

impl MachineCsrs {
    /// Transfer a fired machine timer interrupt to S-mode: mark the
    /// supervisor timer pending and stop listening for the machine timer,
    /// so S-mode takes the interrupt and re-arms via `set_timer`.
    pub fn transfer_machine_timer(&mut self)
        ensures
            final(self).mip == old(self).mip | MIP_STIP,
            final(self).mie == old(self).mie & !MIE_MTIE,
            *final(self) == (MachineCsrs {
                mip: final(self).mip,
                mie: final(self).mie,
                ..*old(self)
            }),
    {
        self.mip = self.mip | MIP_STIP;
        self.mie = self.mie & !MIE_MTIE;
    }

    /// Arm the machine timer after SBI `set_timer`: clear the supervisor
    /// timer pending bit and listen for the machine timer again. The CLINT
    /// `mtimecmp` write itself is the shell's `SetTimer` action.
    pub fn arm_machine_timer(&mut self)
        ensures
            final(self).mip == old(self).mip & !MIP_STIP,
            final(self).mie == old(self).mie | MIE_MTIE,
            *final(self) == (MachineCsrs {
                mip: final(self).mip,
                mie: final(self).mie,
                ..*old(self)
            }),
    {
        self.mip = self.mip & !MIP_STIP;
        self.mie = self.mie | MIE_MTIE;
    }
}

} // verus!
