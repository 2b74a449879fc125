//! Boot: the per-hart entry arithmetic, the one-time global
//! initialisation plan, and the write-once provider bindings.
//!
//! The naked entry stub computes a per-hart stack top and jumps to the
//! boot routine; hart 0 alone performs global initialisation and then
//! releases hart 1, while every other hart parks until released. Both
//! then program PMP and delegation and enter the supervisor. The memory
//! and MMIO work is the shell's; the plan — what happens, in which
//! order, with which addresses — is decided and verified here.

use vstd::prelude::*;

verus! {

/// Bytes of machine stack for each hart.
pub const PER_HART_STACK_SIZE: u64 = 0x4000;
/// Bytes of the whole machine stack: one slice per hart.
pub const SBI_STACK_SIZE: u64 = 2 * PER_HART_STACK_SIZE;
/// Bytes of the firmware heap, used only for boot-time binding.
pub const SBI_HEAP_SIZE: u64 = 0x1_0000;
/// Physical address at which S-mode is entered.
pub const SUPERVISOR_ENTRY: u64 = 0x8020_0000;
/// Offset of the payload in the flashed image: the firmware occupies
/// the first 128 KiB.
pub const PAYLOAD_IMAGE_OFFSET: u64 = 0x2_0000;

/// The stack-top offset of a hart within the shared stack area:
/// `(hart_id + 1)` slices of `PER_HART_STACK_SIZE`, as the entry stub
/// computes it.
pub fn stack_top_offset(hart_id: u64) -> (r: u64)
    requires
        hart_id < 2,
    ensures
        r == (hart_id + 1) * PER_HART_STACK_SIZE,
        r <= SBI_STACK_SIZE,
{
    (hart_id + 1) * PER_HART_STACK_SIZE
}

/// One step of the boot sequence, to be carried out by the shell.
#[derive(Clone, Copy, PartialEq, Eq, Structural, Debug)]
pub enum BootAction {
    /// Zero the uninitialised data section and copy the initialised
    /// data from its load address.
    InitBss,
    /// Hand the heap area to the allocator.
    InitHeap,
    /// Bind the UART as the legacy stdio provider (once).
    BindStdio,
    /// Copy the embedded payload to `SUPERVISOR_ENTRY`.
    LoadKernel,
    /// Print the firmware banner, naming the implementation.
    PrintBanner,
    /// Bind the CLINT as the IPI and timer provider (once).
    BindClint,
    /// Read `chosen/stdout-path` from the device tree and log it.
    PeekDeviceTree,
    /// Raise the CLINT software interrupt of a hart, releasing it.
    WakeHart {
        /// The hart released from its boot-time park.
        hart: u64,
    },
    /// Park in the idle sequence until released by an IPI.
    Park,
    /// Program the three PMP regions (`crate::pmp::pmp_boot_values`)
    /// and fence.
    SetPmp,
    /// Program the delegation masks
    /// (`crate::delegate::delegate_interrupt_exception`).
    Delegate,
    /// Install the trap runtime and enter the execute loop at
    /// `mepc` with `a0 = hart_id` and `a1 = opaque`.
    EnterSupervisor {
        /// The supervisor entry address.
        mepc: u64,
        /// The hart id handed to S-mode in `a0`.
        a0: u64,
        /// The device-tree pointer handed to S-mode in `a1`.
        a1: u64,
    },
}

/// The implementation name the banner carries.
pub fn implementation_name() -> (r: String)
    ensures
        r@ == "RustSBI-JH7100"@,
{
    let r = String::from_str("RustSBI-JH7100");
    r
}

/// The boot plan of one hart. Hart 0 performs the global
/// initialisation — memory, heap, stdio, payload, banner, CLINT
/// binding, device-tree peek — then releases hart 1; every other hart
/// parks until released. Both finish alike: PMP, delegation, and the
/// supervisor entry at `SUPERVISOR_ENTRY` with `a0 = hart_id` and
/// `a1 = opaque`.
pub fn boot_plan(hart_id: u64, opaque: u64) -> (r: Vec<BootAction>)
    requires
        hart_id < 2,
    ensures
        hart_id == 0 ==> r@ =~= seq![
            BootAction::InitBss,
            BootAction::InitHeap,
            BootAction::BindStdio,
            BootAction::LoadKernel,
            BootAction::PrintBanner,
            BootAction::BindClint,
            BootAction::PeekDeviceTree,
            BootAction::WakeHart { hart: 1 },
            BootAction::SetPmp,
            BootAction::Delegate,
            BootAction::EnterSupervisor { mepc: SUPERVISOR_ENTRY, a0: 0, a1: opaque },
        ],
        hart_id != 0 ==> r@ =~= seq![
            BootAction::Park,
            BootAction::SetPmp,
            BootAction::Delegate,
            BootAction::EnterSupervisor { mepc: SUPERVISOR_ENTRY, a0: hart_id, a1: opaque },
        ],
{
    let mut plan: Vec<BootAction> = Vec::new();
    if hart_id == 0 {
        plan.push(BootAction::InitBss);
        plan.push(BootAction::InitHeap);
        plan.push(BootAction::BindStdio);
        plan.push(BootAction::LoadKernel);
        plan.push(BootAction::PrintBanner);
        plan.push(BootAction::BindClint);
        plan.push(BootAction::PeekDeviceTree);
        plan.push(BootAction::WakeHart { hart: 1 });
    } else {
        plan.push(BootAction::Park);
    }
    plan.push(BootAction::SetPmp);
    plan.push(BootAction::Delegate);
    plan.push(BootAction::EnterSupervisor { mepc: SUPERVISOR_ENTRY, a0: hart_id, a1: opaque });
    plan
}

/// The write-once registrations of the SBI providers: stdio, IPI and
/// timer are bound exactly once, by hart 0, after the heap is up; a
/// second binding is rejected.
pub struct SbiBindings {
    /// Whether the legacy stdio provider is bound.
    pub stdio_bound: bool,
    /// Whether the IPI provider is bound.
    pub ipi_bound: bool,
    /// Whether the timer provider is bound.
    pub timer_bound: bool,
}

impl SbiBindings {
    /// Fresh table: nothing bound yet.
    pub fn new() -> (r: SbiBindings)
        ensures
            !r.stdio_bound,
            !r.ipi_bound,
            !r.timer_bound,
    {
        SbiBindings { stdio_bound: false, ipi_bound: false, timer_bound: false }
    }

    /// Bind the UART as the legacy stdio provider. Succeeds exactly
    /// once: a re-binding is rejected and changes nothing.
    pub fn init_rustsbi_stdio(&mut self) -> (r: bool)
        ensures
            r == !old(self).stdio_bound,
            final(self).stdio_bound,
            final(self).ipi_bound == old(self).ipi_bound,
            final(self).timer_bound == old(self).timer_bound,
    {
        if self.stdio_bound {
            return false;
        }
        self.stdio_bound = true;
        true
    }

    /// Bind the CLINT as both the IPI and the timer provider. Succeeds
    /// exactly once: a re-binding is rejected and changes nothing.
    pub fn init_rustsbi_clint(&mut self) -> (r: bool)
        ensures
            r == (!old(self).ipi_bound && !old(self).timer_bound),
            r ==> final(self).ipi_bound && final(self).timer_bound,
            !r ==> *final(self) == *old(self),
            final(self).stdio_bound == old(self).stdio_bound,
    {
        if self.ipi_bound || self.timer_bound {
            return false;
        }
        self.ipi_bound = true;
        self.timer_bound = true;
        true
    }
}

} // verus!
