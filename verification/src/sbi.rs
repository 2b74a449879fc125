//! The SBI dispatch surface: Base, TIME, IPI, HSM, SRST and the legacy
//! extensions.
//!
//! `ecall` consumes the call registers of a trapped `ecall` from S-mode
//! (`a7` = extension, `a6` = function, `a0..a5` = arguments) and decides
//! the `(error, value)` return pair together with the one hardware action
//! the shell must perform (arm the CLINT timer, raise an IPI, drive the
//! UART, reset). Hardware inputs a call needs — here only the byte a legacy
//! `console_getchar` would read — come in as arguments, so the decision is
//! a function of its inputs and of the monitor state alone.

use vstd::prelude::*;

use crate::hsm::HartState;
use crate::hsm::Hsm;
use crate::hsm::HART_COUNT;
use crate::hsm::HsmCommand;
use crate::hsm::status_code;
use crate::pmp::dram_reachable;
use crate::sbiret::HSM_RESUME_SENTINEL;
use crate::sbiret::SBI_ERR_NOT_SUPPORTED;
use crate::sbiret::SBI_SUCCESS;
use crate::sbiret::SbiRet;

verus! {

/// Extension id of the SBI base extension.
pub const EXT_BASE: u64 = 0x10;
/// Extension id of the timer extension ("TIME").
pub const EXT_TIME: u64 = 0x5449_4D45;
/// Extension id of the inter-processor-interrupt extension ("sPI").
pub const EXT_IPI: u64 = 0x73_5049;
/// Extension id of the hart state monitor extension ("HSM").
pub const EXT_HSM: u64 = 0x48_534D;
/// Extension id of the system reset extension ("SRST").
pub const EXT_SRST: u64 = 0x5352_5354;

/// Highest legacy extension id; legacy ids are `0x00..=0x08`.
pub const EXT_LEGACY_MAX: u64 = 0x08;
/// Legacy extension id: set the timer.
pub const LEGACY_SET_TIMER: u64 = 0x00;
/// Legacy extension id: write one byte to the console.
pub const LEGACY_CONSOLE_PUTCHAR: u64 = 0x01;
/// Legacy extension id: read one byte from the console.
pub const LEGACY_CONSOLE_GETCHAR: u64 = 0x02;
/// Legacy extension id: send an IPI to a mask of harts.
pub const LEGACY_SEND_IPI: u64 = 0x04;
/// Legacy extension id: shut the platform down.
pub const LEGACY_SHUTDOWN: u64 = 0x08;

/// Base extension function: SBI specification version.
pub const BASE_GET_SPEC_VERSION: u64 = 0;
/// Base extension function: implementation id.
pub const BASE_GET_IMPL_ID: u64 = 1;
/// Base extension function: implementation version.
pub const BASE_GET_IMPL_VERSION: u64 = 2;
/// Base extension function: probe whether an extension is present.
pub const BASE_PROBE_EXTENSION: u64 = 3;
/// Base extension function: machine vendor id.
pub const BASE_GET_MVENDORID: u64 = 4;
/// Base extension function: machine architecture id.
pub const BASE_GET_MARCHID: u64 = 5;
/// Base extension function: machine implementation id.
pub const BASE_GET_MIMPID: u64 = 6;

/// HSM function: start a stopped hart.
pub const HSM_HART_START: u64 = 0;
/// HSM function: stop the calling hart.
pub const HSM_HART_STOP: u64 = 1;
/// HSM function: read a hart's lifecycle state.
pub const HSM_HART_GET_STATUS: u64 = 2;
/// HSM function: suspend the calling hart.
pub const HSM_HART_SUSPEND: u64 = 3;

/// SRST function: reset the system.
pub const SRST_SYSTEM_RESET: u64 = 0;

/// The SBI specification version implemented: v0.3 (major 0, minor 3).
pub const SPEC_VERSION: u64 = 3;
/// The registered implementation id of RustSBI.
pub const IMPL_ID: u64 = 4;
/// The implementation version reported by the base extension.
pub const IMPL_VERSION: u64 = 0x200;

/// The values of the machine identity CSRs, read once at boot and then
/// fixed: every base-extension query reports these same values.
#[derive(Clone, Copy, PartialEq, Eq, Structural, Debug)]
pub struct MachineInfo {
    /// The `mvendorid` CSR value.
    pub mvendorid: u64,
    /// The `marchid` CSR value.
    pub marchid: u64,
    /// The `mimpid` CSR value.
    pub mimpid: u64,
}

/// The one hardware action an SBI call asks the shell to perform.
#[derive(Clone, Copy, PartialEq, Eq, Structural, Debug)]
pub enum SbiAction {
    /// Nothing beyond the register return.
    Nothing,
    /// Write the CLINT `mtimecmp` of the calling hart, then re-enable the
    /// machine timer and clear the pending supervisor timer
    /// (`MachineCsrs::arm_machine_timer`).
    SetTimer {
        /// Absolute time at which the next timer interrupt is due.
        stime_value: u64,
    },
    /// Raise the CLINT software interrupt of every hart whose bit is set
    /// in `mask`, counting from hart `base`.
    SendIpiMask {
        /// Bit `i` set means hart `base + i` receives the IPI.
        mask: u64,
        /// Hart id of bit 0 of `mask`.
        base: u64,
    },
    /// Raise the CLINT software interrupt of one hart (HSM wake).
    WakeHart {
        /// The hart to wake.
        hart: usize,
    },
    /// Write one byte to the bound console.
    PutChar {
        /// The byte, in the low eight bits.
        byte: u64,
    },
    /// A byte was read from the bound console (already reported in the
    /// return registers); the shell consumes it from the UART.
    GetChar,
    /// Legacy IPI: the hart mask lies in S-mode memory at this address;
    /// the shell reads it there and raises the CLINT bits.
    LegacySendIpi {
        /// Physical address of the hart mask word.
        mask_addr: u64,
    },
    /// Retentive suspend: idle in `wfi` until an interrupt, then return
    /// to the call site unchanged.
    Wfi,
    /// Non-retentive suspend: park until the wake IPI, then resume with
    /// the context the execute loop has rewritten.
    WaitForWake,
    /// Reset the system; the firmware logs and halts.
    Reset {
        /// The requested reset type.
        reset_type: u64,
        /// The requested reset reason.
        reason: u64,
    },
    /// Legacy shutdown.
    Shutdown,
    /// Clear the CLINT software-interrupt pending bit of one hart (used
    /// by the machine-software trap handler, not by an SBI call).
    ClearIpi {
        /// The hart whose pending bit is cleared.
        hart: usize,
    },
}

/// Whether extension `id` is present: exactly the implemented extensions
/// and the legacy range answer a probe with a non-zero value.
pub open spec fn supported_extension(id: u64) -> bool {
    ||| id == EXT_BASE
    ||| id == EXT_TIME
    ||| id == EXT_IPI
    ||| id == EXT_HSM
    ||| id == EXT_SRST
    ||| id <= EXT_LEGACY_MAX
}

/// The `(error, value)` pair of a base-extension call: every function is a
/// constant of the implementation or of the fixed machine identity; the
/// probe reports presence as 1.
pub open spec fn base_result(function: u64, probe_id: u64, info: MachineInfo) -> SbiRet {
    if function == BASE_GET_SPEC_VERSION {
        SbiRet { error: SBI_SUCCESS, value: SPEC_VERSION }
    } else if function == BASE_GET_IMPL_ID {
        SbiRet { error: SBI_SUCCESS, value: IMPL_ID }
    } else if function == BASE_GET_IMPL_VERSION {
        SbiRet { error: SBI_SUCCESS, value: IMPL_VERSION }
    } else if function == BASE_PROBE_EXTENSION {
        SbiRet {
            error: SBI_SUCCESS,
            value: if supported_extension(probe_id) {
                1u64
            } else {
                0u64
            },
        }
    } else if function == BASE_GET_MVENDORID {
        SbiRet { error: SBI_SUCCESS, value: info.mvendorid }
    } else if function == BASE_GET_MARCHID {
        SbiRet { error: SBI_SUCCESS, value: info.marchid }
    } else if function == BASE_GET_MIMPID {
        SbiRet { error: SBI_SUCCESS, value: info.mimpid }
    } else {
        SbiRet { error: SBI_ERR_NOT_SUPPORTED, value: 0 }
    }
}

/// Whether `hart` is named by an SBI hart mask: masks address the 64
/// harts from `base` upward, one bit each.
pub open spec fn ipi_targeted(mask: u64, base: u64, hart: u64) -> bool {
    &&& base <= hart
    &&& hart - base < 64
    &&& mask & (1u64 << (((hart - base)) as u64)) != 0
}

/// Decide whether `hart` receives the IPI `send_ipi(mask, base)` asks
/// for; the shell raises the CLINT bit of every hart for which this
/// holds, and of no other.
pub fn hart_in_ipi_mask(mask: u64, base: u64, hart: u64) -> (r: bool)
    ensures
        r == ipi_targeted(mask, base, hart),
{
    if hart < base {
        return false;
    }
    let off = hart - base;
    if off >= 64 {
        return false;
    }
    mask & (1u64 << off) != 0
}

/// Decide whether extension `id` answers a probe as present.
pub fn probe_extension(id: u64) -> (r: u64)
    ensures
        r != 0 <==> supported_extension(id),
        supported_extension(id) ==> r == 1,
{
    if id == EXT_BASE || id == EXT_TIME || id == EXT_IPI || id == EXT_HSM || id == EXT_SRST || id
        <= EXT_LEGACY_MAX {
        1
    } else {
        0
    }
}

/// Dispatch one base-extension call.
fn base_ecall(function: u64, probe_id: u64, info: &MachineInfo) -> (r: SbiRet)
    ensures
        r == base_result(function, probe_id, *info),
{
    if function == BASE_GET_SPEC_VERSION {
        SbiRet::ok(SPEC_VERSION)
    } else if function == BASE_GET_IMPL_ID {
        SbiRet::ok(IMPL_ID)
    } else if function == BASE_GET_IMPL_VERSION {
        SbiRet::ok(IMPL_VERSION)
    } else if function == BASE_PROBE_EXTENSION {
        SbiRet::ok(probe_extension(probe_id))
    } else if function == BASE_GET_MVENDORID {
        SbiRet::ok(info.mvendorid)
    } else if function == BASE_GET_MARCHID {
        SbiRet::ok(info.marchid)
    } else if function == BASE_GET_MIMPID {
        SbiRet::ok(info.mimpid)
    } else {
        SbiRet::err(SBI_ERR_NOT_SUPPORTED)
    }
}

/// Dispatch one SBI call.
///
/// `extension` and `function` come from `a7` and `a6`; `a0..a2` are the
/// arguments the implemented calls read. `console_char` is the byte the
/// environment delivers for a legacy `console_getchar` (all-ones when no
/// byte waits); it is read only by that call. The result is the return
/// pair and the owed hardware action; the sentinel error
/// `HSM_RESUME_SENTINEL` escapes only from a non-retentive suspend, and
/// then the caller's own mailbox holds the start command to resume with.
pub fn ecall(
    extension: u64,
    function: u64,
    a0: u64,
    a1: u64,
    a2: u64,
    hart_id: usize,
    console_char: u64,
    info: &MachineInfo,
    hsm: &mut Hsm,
) -> (r: (SbiRet, SbiAction))
    requires
        old(hsm).wf(),
        hart_id < HART_COUNT,
        old(hsm).cells[hart_id as int].state == HartState::Started,
    ensures
        final(hsm).wf(),
        // The sentinel is private to the HSM extension (a legacy call
        // passes `a0` through, which may coincide with it), and within
        // the extension it escapes only from a non-retentive suspend,
        // with the resume command in place:
        extension == EXT_HSM ==> (r.0.error == HSM_RESUME_SENTINEL <==> function
            == HSM_HART_SUSPEND && a0 & 0x8000_0000 != 0 && dram_reachable(a1)),
        extension == EXT_HSM && r.0.error == HSM_RESUME_SENTINEL ==> {
            &&& final(hsm).cells[hart_id as int].state == HartState::Suspended
            &&& final(hsm).cells[hart_id as int].mailbox == Some(
                HsmCommand::Start { start_addr: a1, opaque: a2 },
            )
            &&& r.1 == SbiAction::WaitForWake
            &&& forall|i: int|
                0 <= i < HART_COUNT && i != hart_id ==> final(hsm).cells[i] == old(hsm).cells[i]
        },
        // Base extension: pure, constant answers.
        extension == EXT_BASE ==> r.0 == base_result(function, a0, *info) && r.1
            == SbiAction::Nothing && *final(hsm) == *old(hsm),
        // Timer extension.
        extension == EXT_TIME && function == 0 ==> r.0.error == SBI_SUCCESS && r.1
            == (SbiAction::SetTimer { stime_value: a0 }) && *final(hsm) == *old(hsm),
        extension == EXT_TIME && function != 0 ==> r.0.error == SBI_ERR_NOT_SUPPORTED && r.1
            == SbiAction::Nothing && *final(hsm) == *old(hsm),
        // IPI extension.
        extension == EXT_IPI && function == 0 ==> r.0.error == SBI_SUCCESS && r.1
            == (SbiAction::SendIpiMask { mask: a0, base: a1 }) && *final(hsm) == *old(hsm),
        extension == EXT_IPI && function != 0 ==> r.0.error == SBI_ERR_NOT_SUPPORTED && r.1
            == SbiAction::Nothing && *final(hsm) == *old(hsm),
        // HSM extension: the monitor's own contracts pin the transitions.
        extension == EXT_HSM && function == HSM_HART_START ==> {
            &&& (r.0.error == SBI_SUCCESS <==> a0 < HART_COUNT && dram_reachable(a1) && old(
                hsm,
            ).cells[a0 as int].state == HartState::Stopped)
            &&& (r.0.error == SBI_SUCCESS ==> final(hsm).cells[a0 as int].state
                == HartState::StartPending && final(hsm).cells[a0 as int].mailbox == Some(
                HsmCommand::Start { start_addr: a1, opaque: a2 },
            ) && r.1 == (SbiAction::WakeHart { hart: a0 as usize }) && forall|i: int|
                0 <= i < HART_COUNT && i != a0 ==> final(hsm).cells[i] == old(hsm).cells[i])
            &&& (r.0.error != SBI_SUCCESS ==> *final(hsm) == *old(hsm) && r.1
                == SbiAction::Nothing)
        },
        extension == EXT_HSM && function == HSM_HART_STOP ==> {
            &&& r.0.error == SBI_SUCCESS
            &&& final(hsm).cells[hart_id as int].state == HartState::StopPending
            &&& final(hsm).cells[hart_id as int].mailbox == Some(HsmCommand::Stop)
            &&& r.1 == (SbiAction::WakeHart { hart: hart_id })
            &&& forall|i: int|
                0 <= i < HART_COUNT && i != hart_id ==> final(hsm).cells[i] == old(hsm).cells[i]
        },
        extension == EXT_HSM && function == HSM_HART_GET_STATUS ==> *final(hsm) == *old(hsm) && r.1
            == SbiAction::Nothing && (a0 < HART_COUNT ==> r.0.error == SBI_SUCCESS && r.0.value
            == status_code(old(hsm).cells[a0 as int].state)) && (a0 >= HART_COUNT ==> r.0.error
            == crate::sbiret::SBI_ERR_INVALID_PARAM),
        extension == EXT_HSM && function == HSM_HART_SUSPEND && a0 & 0x8000_0000 == 0 ==> r.0.error
            == SBI_SUCCESS && r.1 == SbiAction::Wfi && *final(hsm) == *old(hsm),
        extension == EXT_HSM && function == HSM_HART_SUSPEND && a0 & 0x8000_0000 != 0
            && !dram_reachable(a1) ==> r.0.error == crate::sbiret::SBI_ERR_INVALID_ADDRESS && r.1
            == SbiAction::Nothing && *final(hsm) == *old(hsm),
        extension == EXT_HSM && function > HSM_HART_SUSPEND ==> r.0.error == SBI_ERR_NOT_SUPPORTED
            && r.1 == SbiAction::Nothing && *final(hsm) == *old(hsm),
        // Legacy ids without an implementation behind them.
        extension == 0x03 || extension == 0x05 || extension == 0x06 || extension == 0x07
            ==> r.0.error == SBI_ERR_NOT_SUPPORTED && r.1 == SbiAction::Nothing && *final(hsm)
            == *old(hsm),
        // System reset: the shell logs and halts.
        extension == EXT_SRST && function == SRST_SYSTEM_RESET ==> r.0.error == SBI_SUCCESS && r.1
            == (SbiAction::Reset { reset_type: a0, reason: a1 }) && *final(hsm) == *old(hsm),
        extension == EXT_SRST && function != SRST_SYSTEM_RESET ==> r.0.error
            == SBI_ERR_NOT_SUPPORTED && r.1 == SbiAction::Nothing && *final(hsm) == *old(hsm),
        // Legacy extensions: the return registers pass through unchanged,
        // except that a getchar reports the byte read in the error slot.
        extension == LEGACY_SET_TIMER ==> r.0 == (SbiRet { error: a0, value: a1 }) && r.1
            == (SbiAction::SetTimer { stime_value: a0 }) && *final(hsm) == *old(hsm),
        extension == LEGACY_CONSOLE_PUTCHAR ==> r.0 == (SbiRet { error: a0, value: a1 }) && r.1
            == (SbiAction::PutChar { byte: a0 }) && *final(hsm) == *old(hsm),
        extension == LEGACY_CONSOLE_GETCHAR ==> r.0 == (SbiRet { error: console_char, value: a1 })
            && r.1 == SbiAction::GetChar && *final(hsm) == *old(hsm),
        extension == LEGACY_SEND_IPI ==> r.0 == (SbiRet { error: a0, value: a1 }) && r.1
            == (SbiAction::LegacySendIpi { mask_addr: a0 }) && *final(hsm) == *old(hsm),
        extension == LEGACY_SHUTDOWN ==> r.0 == (SbiRet { error: a0, value: a1 }) && r.1
            == SbiAction::Shutdown && *final(hsm) == *old(hsm),
        // Everything else is not supported.
        !supported_extension(extension) ==> r.0.error == SBI_ERR_NOT_SUPPORTED && r.1
            == SbiAction::Nothing && *final(hsm) == *old(hsm),
{
    if extension == EXT_BASE {
        (base_ecall(function, a0, info), SbiAction::Nothing)
    } else if extension == EXT_TIME {
        if function == 0 {
            (SbiRet::ok(0), SbiAction::SetTimer { stime_value: a0 })
        } else {
            (SbiRet::err(SBI_ERR_NOT_SUPPORTED), SbiAction::Nothing)
        }
    } else if extension == EXT_IPI {
        if function == 0 {
            (SbiRet::ok(0), SbiAction::SendIpiMask { mask: a0, base: a1 })
        } else {
            (SbiRet::err(SBI_ERR_NOT_SUPPORTED), SbiAction::Nothing)
        }
    } else if extension == EXT_HSM {
        if function == HSM_HART_START {
            if a0 >= HART_COUNT as u64 {
                return (
                    SbiRet::err(crate::sbiret::SBI_ERR_INVALID_PARAM),
                    SbiAction::Nothing,
                );
            }
            let (ret, wake) = hsm.hart_start(a0 as usize, a1, a2);
            if wake {
                (ret, SbiAction::WakeHart { hart: a0 as usize })
            } else {
                (ret, SbiAction::Nothing)
            }
        } else if function == HSM_HART_STOP {
            let (ret, wake) = hsm.hart_stop(hart_id);
            if wake {
                (ret, SbiAction::WakeHart { hart: hart_id })
            } else {
                (ret, SbiAction::Nothing)
            }
        } else if function == HSM_HART_GET_STATUS {
            if a0 >= HART_COUNT as u64 {
                return (
                    SbiRet::err(crate::sbiret::SBI_ERR_INVALID_PARAM),
                    SbiAction::Nothing,
                );
            }
            (hsm.hart_get_status(a0 as usize), SbiAction::Nothing)
        } else if function == HSM_HART_SUSPEND {
            let ret = hsm.hart_suspend(hart_id, a0, a1, a2);
            if ret.error == HSM_RESUME_SENTINEL {
                (ret, SbiAction::WaitForWake)
            } else if ret.error == SBI_SUCCESS {
                (ret, SbiAction::Wfi)
            } else {
                (ret, SbiAction::Nothing)
            }
        } else {
            (SbiRet::err(SBI_ERR_NOT_SUPPORTED), SbiAction::Nothing)
        }
    } else if extension == EXT_SRST {
        if function == SRST_SYSTEM_RESET {
            (SbiRet::ok(0), SbiAction::Reset { reset_type: a0, reason: a1 })
        } else {
            (SbiRet::err(SBI_ERR_NOT_SUPPORTED), SbiAction::Nothing)
        }
    } else if extension == LEGACY_SET_TIMER {
        (SbiRet { error: a0, value: a1 }, SbiAction::SetTimer { stime_value: a0 })
    } else if extension == LEGACY_CONSOLE_PUTCHAR {
        (SbiRet { error: a0, value: a1 }, SbiAction::PutChar { byte: a0 })
    } else if extension == LEGACY_CONSOLE_GETCHAR {
        (SbiRet { error: console_char, value: a1 }, SbiAction::GetChar)
    } else if extension == LEGACY_SEND_IPI {
        (SbiRet { error: a0, value: a1 }, SbiAction::LegacySendIpi { mask_addr: a0 })
    } else if extension == LEGACY_SHUTDOWN {
        (SbiRet { error: a0, value: a1 }, SbiAction::Shutdown)
    } else if extension <= EXT_LEGACY_MAX {
        // Probed as present for compatibility, but not implemented:
        // legacy ids 0x03 and 0x05..0x07 have no effect here.
        (SbiRet::err(SBI_ERR_NOT_SUPPORTED), SbiAction::Nothing)
    } else {
        (SbiRet::err(SBI_ERR_NOT_SUPPORTED), SbiAction::Nothing)
    }
}

} // verus!
