//! Verified core of an SBI (Supervisor Binary Interface) firmware for the
//! StarFive JH7100 SoC (dual-hart RV64).
//!
//! The firmware's hardware edges — CSR reads and writes, MMIO to the UART and
//! the CLINT, `wfi`, `mret` — cannot run off-target; they are the environment.
//! Everything the firmware *decides* is here, verified: how a machine trap is
//! classified and handled, how an SBI call is dispatched and answered, how the
//! hart state monitor moves each hart through its lifecycle, which delegation
//! and PMP values boot must program, and the register rewrites mandated by the
//! SBI spec on non-retentive resume. Each hardware step is represented as a
//! plain value (a register write, an action to perform), so an unverified
//! shell can carry the decisions out on real hardware or in a simulator.

pub mod boot;
pub mod context;
pub mod csr;
pub mod delegate;
pub mod dist;
pub mod execute;
pub mod hsm;
pub mod pause;
pub mod pmp;
pub mod rdtime;
pub mod sbi;
pub mod sbiret;
pub mod trap;
pub mod uart;
