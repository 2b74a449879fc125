//! The SBI return value and the standard SBI error codes.
//!
//! An SBI call returns a pair `(error, value)` in registers `a0` and `a1`.
//! Registers are 64-bit, so the negative error codes of the SBI spec are
//! carried in two's complement.

use vstd::prelude::*;

verus! {

/// No error: the call succeeded.
pub const SBI_SUCCESS: u64 = 0;
/// The call failed for an unspecified reason (-1).
pub const SBI_ERR_FAILED: u64 = 0xFFFF_FFFF_FFFF_FFFF;
/// The extension or function is not supported (-2).
pub const SBI_ERR_NOT_SUPPORTED: u64 = 0xFFFF_FFFF_FFFF_FFFE;
/// An argument is invalid (-3).
pub const SBI_ERR_INVALID_PARAM: u64 = 0xFFFF_FFFF_FFFF_FFFD;
/// The call was denied (-4).
pub const SBI_ERR_DENIED: u64 = 0xFFFF_FFFF_FFFF_FFFC;
/// An address argument is invalid (-5).
pub const SBI_ERR_INVALID_ADDRESS: u64 = 0xFFFF_FFFF_FFFF_FFFB;
/// The resource is already available (-6).
pub const SBI_ERR_ALREADY_AVAILABLE: u64 = 0xFFFF_FFFF_FFFF_FFFA;
/// The hart is already started (-7).
pub const SBI_ERR_ALREADY_STARTED: u64 = 0xFFFF_FFFF_FFFF_FFF9;
/// The hart is already stopped (-8).
pub const SBI_ERR_ALREADY_STOPPED: u64 = 0xFFFF_FFFF_FFFF_FFF8;

/// Private sentinel in the error slot: the call was a non-retentive
/// suspend (or the start that ends one), and the calling hart must be
/// re-entered at a fresh supervisor address instead of at the call site.
pub const HSM_RESUME_SENTINEL: u64 = 0x233;

/// The `(error, value)` pair an SBI call hands back to S-mode.
#[derive(Clone, Copy, PartialEq, Eq, Structural, Debug)]
pub struct SbiRet {
    /// Error code, `SBI_SUCCESS` or one of the negative codes above.
    pub error: u64,
    /// Result value; meaningful only when `error` is `SBI_SUCCESS`.
    pub value: u64,
}

impl SbiRet {
    /// A successful return carrying `value`.
    pub fn ok(value: u64) -> (r: SbiRet)
        ensures
            r.error == SBI_SUCCESS,
            r.value == value,
    {
        SbiRet { error: SBI_SUCCESS, value }
    }

    /// A failed return carrying `error` and value 0.
    pub fn err(error: u64) -> (r: SbiRet)
        ensures
            r.error == error,
            r.value == 0,
    {
        SbiRet { error, value: 0 }
    }
}

} // verus!
