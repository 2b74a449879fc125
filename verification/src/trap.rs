//! Classification of a machine trap from its `mcause` value.
//!
//! The trap vector re-enters the runtime with the raw `mcause`; the runtime
//! yields one of four classified traps to the execute loop. Any other cause
//! is unexpected at machine level and is fatal.

use vstd::prelude::*;

use crate::csr::CAUSE_INTERRUPT_FLAG;
use crate::csr::EXC_ILLEGAL_INSTRUCTION;
use crate::csr::EXC_SUPERVISOR_ECALL;
use crate::csr::INT_MACHINE_SOFT;
use crate::csr::INT_MACHINE_TIMER;

verus! {

/// The classified machine trap the runtime yields to the execute loop.
#[derive(Clone, Copy, PartialEq, Eq, Structural, Debug)]
pub enum MachineTrap {
    /// An `ecall` from S-mode: an SBI call.
    SbiCall,
    /// An illegal instruction reached machine level.
    IllegalInstruction,
    /// The machine timer interrupt fired.
    MachineTimer,
    /// A machine software interrupt (CLINT IPI) arrived.
    MachineSoft,
}

/// Whether `mcause` reports an interrupt rather than an exception.
pub open spec fn is_interrupt(mcause: u64) -> bool {
    mcause & CAUSE_INTERRUPT_FLAG != 0
}

/// The cause code of `mcause`, with the interrupt flag stripped.
pub open spec fn cause_code(mcause: u64) -> u64 {
    mcause & !CAUSE_INTERRUPT_FLAG
}

/// Classify a raw `mcause` into the trap the execute loop consumes, or
/// `None` for a cause the firmware does not handle (fatal at M-level).
pub fn classify_mcause(mcause: u64) -> (r: Option<MachineTrap>)
    ensures
        r == Some(MachineTrap::SbiCall) <==> !is_interrupt(mcause) && cause_code(mcause)
            == EXC_SUPERVISOR_ECALL,
        r == Some(MachineTrap::IllegalInstruction) <==> !is_interrupt(mcause) && cause_code(mcause)
            == EXC_ILLEGAL_INSTRUCTION,
        r == Some(MachineTrap::MachineTimer) <==> is_interrupt(mcause) && cause_code(mcause)
            == INT_MACHINE_TIMER,
        r == Some(MachineTrap::MachineSoft) <==> is_interrupt(mcause) && cause_code(mcause)
            == INT_MACHINE_SOFT,
{
    let interrupt = mcause & CAUSE_INTERRUPT_FLAG != 0;
    let code = mcause & !CAUSE_INTERRUPT_FLAG;
    if interrupt {
        if code == INT_MACHINE_TIMER {
            Some(MachineTrap::MachineTimer)
        } else if code == INT_MACHINE_SOFT {
            Some(MachineTrap::MachineSoft)
        } else {
            None
        }
    } else {
        if code == EXC_SUPERVISOR_ECALL {
            Some(MachineTrap::SbiCall)
        } else if code == EXC_ILLEGAL_INSTRUCTION {
            Some(MachineTrap::IllegalInstruction)
        } else {
            None
        }
    }
}

} // verus!
