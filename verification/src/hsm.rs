//! The hart state monitor (HSM): a per-hart lifecycle state machine.
//!
//! Each hart is in one of five states. Transitions are driven either by the
//! owning hart acknowledging a phase (`record_current_start_finished`,
//! `record_current_stop_finished`) or by a command posted into its mailbox
//! through the CLINT IPI path. The mailbox holds at most one pending
//! command; a new command supersedes an older unobserved one.

use vstd::prelude::*;

verus! {

/// Number of harts on the JH7100 (dual-core U74).
pub const HART_COUNT: usize = 2;

/// Lifecycle state of one hart, as defined by the SBI HSM extension.
#[derive(Clone, Copy, PartialEq, Eq, Structural, Debug)]
pub enum HartState {
    /// Not running; the initial state of every non-boot hart.
    Stopped,
    /// A start command was posted; the hart has not yet acknowledged it.
    StartPending,
    /// Running S-mode under the execute loop.
    Started,
    /// A stop command was posted; the hart has not yet parked.
    StopPending,
    /// Parked by a non-retentive suspend, waiting for a wake IPI.
    Suspended,
}

/// SBI status code reported for `HartState::Started`.
pub const HART_STATUS_STARTED: u64 = 0;
/// SBI status code reported for `HartState::Stopped`.
pub const HART_STATUS_STOPPED: u64 = 1;
/// SBI status code reported for `HartState::StartPending`.
pub const HART_STATUS_START_PENDING: u64 = 2;
/// SBI status code reported for `HartState::StopPending`.
pub const HART_STATUS_STOP_PENDING: u64 = 3;
/// SBI status code reported for `HartState::Suspended`.
pub const HART_STATUS_SUSPENDED: u64 = 4;

/// A command posted into a hart's mailbox.
#[derive(Clone, Copy, PartialEq, Eq, Structural, Debug)]
pub enum HsmCommand {
    /// Enter S-mode at `start_addr` with `a0 = hartid`, `a1 = opaque`.
    Start {
        /// Physical address at which the target hart enters S-mode.
        start_addr: u64,
        /// Value handed to the target in `a1`.
        opaque: u64,
    },
    /// Park the hart in the idle loop until the next start command.
    Stop,
}

/// The event that drives one HSM transition.
#[derive(Clone, Copy, PartialEq, Eq, Structural, Debug)]
pub enum HsmEvent {
    /// A start command was posted to a stopped hart.
    StartCommand,
    /// A stop command was posted to a running hart.
    StopCommand,
    /// The running hart entered a non-retentive suspend.
    SuspendNonRetentive,
    /// The owning hart acknowledged a pending or suspended start.
    AckStart,
    /// The owning hart acknowledged a pending stop and parked.
    AckStop,
}

/// The HSM transition relation: exactly the (state, event, state) edges the
/// lifecycle allows. Any pair not listed is no transition.
pub open spec fn hsm_step(s: HartState, e: HsmEvent, t: HartState) -> bool {
    match (s, e) {
        (HartState::Stopped, HsmEvent::StartCommand) => t == HartState::StartPending,
        (HartState::StartPending, HsmEvent::AckStart) => t == HartState::Started,
        (HartState::Started, HsmEvent::StopCommand) => t == HartState::StopPending,
        (HartState::StopPending, HsmEvent::AckStop) => t == HartState::Stopped,
        (HartState::Started, HsmEvent::SuspendNonRetentive) => t == HartState::Suspended,
        (HartState::Suspended, HsmEvent::AckStart) => t == HartState::Started,
        _ => false,
    }
}

/// Per (state, event) pair the lifecycle graph names at most one successor
/// state: the transition system is deterministic, so the exec transitions
/// below are fully pinned by the relation.
pub proof fn lemma_hsm_step_deterministic(s: HartState, e: HsmEvent, t1: HartState, t2: HartState)
    requires
        hsm_step(s, e, t1),
        hsm_step(s, e, t2),
    ensures
        t1 == t2,
{
}

/// Per-hart monitor cell: the lifecycle state and the single-slot mailbox.
#[derive(Clone, Copy, PartialEq, Eq, Structural, Debug)]
pub struct HsmCell {
    /// Current lifecycle state of this hart.
    pub state: HartState,
    /// The at-most-one pending command for this hart.
    pub mailbox: Option<HsmCommand>,
}

/// The whole monitor: one cell per hart.
pub struct Hsm {
    /// The per-hart cells, indexed by hart id.
    pub cells: Vec<HsmCell>,
}

impl Hsm {
    /// Well-formed: one cell per physical hart.
    pub open spec fn wf(self) -> bool {
        self.cells.len() == HART_COUNT
    }

    /// A fresh monitor: the boot hart (hart 0) starts life running, every
    /// other hart is stopped until released.
    pub fn new() -> (r: Hsm)
        ensures
            r.wf(),
            r.cells[0].state == HartState::Started,
            forall|i: int| 1 <= i < HART_COUNT ==> r.cells[i].state == HartState::Stopped,
            forall|i: int| 0 <= i < HART_COUNT ==> r.cells[i].mailbox is None,
    {
        let mut cells: Vec<HsmCell> = Vec::new();
        cells.push(HsmCell { state: HartState::Started, mailbox: None });
        cells.push(HsmCell { state: HartState::Stopped, mailbox: None });
        Hsm { cells }
    }

    /// The state of `hart`, as a read-only snapshot.
    pub fn state_of(&self, hart: usize) -> (r: HartState)
        requires
            self.wf(),
            hart < HART_COUNT,
        ensures
            r == self.cells[hart as int].state,
    {
        self.cells[hart].state
    }

    /// Read and consume the pending command of `hart`, leaving the
    /// mailbox empty. Only the owning hart calls this.
    pub fn take_command(&mut self, hart: usize) -> (r: Option<HsmCommand>)
        requires
            old(self).wf(),
            hart < HART_COUNT,
        ensures
            final(self).wf(),
            r == old(self).cells[hart as int].mailbox,
            final(self).cells[hart as int].mailbox is None,
            final(self).cells[hart as int].state == old(self).cells[hart as int].state,
            forall|i: int|
                0 <= i < HART_COUNT && i != hart ==> final(self).cells[i] == old(self).cells[i],
    {
        let cell = self.cells[hart];
        self.cells.set(hart, HsmCell { state: cell.state, mailbox: None });
        cell.mailbox
    }

    /// The owning hart acknowledges a start: it is now running. Allowed
    /// from `StartPending` (a remote start) and from `Suspended` (a
    /// non-retentive resume), per the `AckStart` edges of `hsm_step`.
    pub fn record_current_start_finished(&mut self, hart: usize)
        requires
            old(self).wf(),
            hart < HART_COUNT,
            hsm_step(old(self).cells[hart as int].state, HsmEvent::AckStart, HartState::Started),
        ensures
            final(self).wf(),
            final(self).cells[hart as int].state == HartState::Started,
            final(self).cells[hart as int].mailbox == old(self).cells[hart as int].mailbox,
            forall|i: int|
                0 <= i < HART_COUNT && i != hart ==> final(self).cells[i] == old(self).cells[i],
    {
        let cell = self.cells[hart];
        self.cells.set(hart, HsmCell { state: HartState::Started, mailbox: cell.mailbox });
    }

    /// The owning hart acknowledges a stop just before parking, per the
    /// `AckStop` edge of `hsm_step`.
    pub fn record_current_stop_finished(&mut self, hart: usize)
        requires
            old(self).wf(),
            hart < HART_COUNT,
            hsm_step(old(self).cells[hart as int].state, HsmEvent::AckStop, HartState::Stopped),
        ensures
            final(self).wf(),
            final(self).cells[hart as int].state == HartState::Stopped,
            final(self).cells[hart as int].mailbox == old(self).cells[hart as int].mailbox,
            forall|i: int|
                0 <= i < HART_COUNT && i != hart ==> final(self).cells[i] == old(self).cells[i],
    {
        let cell = self.cells[hart];
        self.cells.set(hart, HsmCell { state: HartState::Stopped, mailbox: cell.mailbox });
    }

    /// Post `cmd` into the mailbox of `hart` and move it along `edge` of
    /// the lifecycle graph. A new command supersedes an unobserved one.
    fn post(&mut self, hart: usize, cmd: HsmCommand, next: HartState)
        requires
            old(self).wf(),
            hart < HART_COUNT,
        ensures
            final(self).wf(),
            final(self).cells[hart as int].state == next,
            final(self).cells[hart as int].mailbox == Some(cmd),
            forall|i: int|
                0 <= i < HART_COUNT && i != hart ==> final(self).cells[i] == old(self).cells[i],
    {
        self.cells.set(hart, HsmCell { state: next, mailbox: Some(cmd) });
    }

    /// SBI `hart_start(hartid, start_addr, opaque)`, invoked on behalf of a
    /// remote caller. Success exactly when the target exists, the address
    /// is reachable and the target was stopped; then a start command is
    /// posted (edge `StartCommand`) and the wake IPI is owed to the shell.
    pub fn hart_start(&mut self, target: usize, start_addr: u64, opaque: u64) -> (r: (
        crate::sbiret::SbiRet,
        bool,
    ))
        requires
            old(self).wf(),
        ensures
            final(self).wf(),
            // the returned flag says whether the shell must send the wake IPI
            r.1 <==> r.0.error == crate::sbiret::SBI_SUCCESS,
            r.0.error == crate::sbiret::SBI_SUCCESS <==> target < HART_COUNT
                && crate::pmp::dram_reachable(start_addr) && old(self).cells[target as int].state
                == HartState::Stopped,
            target >= HART_COUNT || !crate::pmp::dram_reachable(start_addr) ==> r.0.error
                == crate::sbiret::SBI_ERR_INVALID_PARAM && *final(self) == *old(self),
            target < HART_COUNT && crate::pmp::dram_reachable(start_addr) && old(
                self,
            ).cells[target as int].state != HartState::Stopped ==> r.0.error
                == crate::sbiret::SBI_ERR_ALREADY_AVAILABLE && *final(self) == *old(self),
            r.0.error == crate::sbiret::SBI_SUCCESS ==> {
                &&& final(self).cells[target as int].state == HartState::StartPending
                &&& final(self).cells[target as int].mailbox == Some(
                    HsmCommand::Start { start_addr, opaque },
                )
                &&& hsm_step(
                    old(self).cells[target as int].state,
                    HsmEvent::StartCommand,
                    final(self).cells[target as int].state,
                )
                &&& forall|i: int|
                    0 <= i < HART_COUNT && i != target ==> final(self).cells[i] == old(
                        self,
                    ).cells[i]
            },
    {
        if target >= HART_COUNT || !crate::pmp::dram_reachable_exec(start_addr) {
            return (crate::sbiret::SbiRet::err(crate::sbiret::SBI_ERR_INVALID_PARAM), false);
        }
        let state = self.cells[target].state;
        if !matches!(state, HartState::Stopped) {
            return (crate::sbiret::SbiRet::err(crate::sbiret::SBI_ERR_ALREADY_AVAILABLE), false);
        }
        self.post(target, HsmCommand::Start { start_addr, opaque }, HartState::StartPending);
        (crate::sbiret::SbiRet::ok(0), true)
    }

    /// SBI `hart_stop()`, invoked by the running hart on itself: post a
    /// stop command (edge `StopCommand`). The call does not return to the
    /// caller; the execute loop parks the hart on the self-IPI. A hart not
    /// in `Started` reports `SBI_ERR_ALREADY_STOPPED`.
    pub fn hart_stop(&mut self, hart: usize) -> (r: (crate::sbiret::SbiRet, bool))
        requires
            old(self).wf(),
            hart < HART_COUNT,
        ensures
            final(self).wf(),
            r.1 <==> r.0.error == crate::sbiret::SBI_SUCCESS,
            r.0.error == crate::sbiret::SBI_SUCCESS <==> old(self).cells[hart as int].state
                == HartState::Started,
            old(self).cells[hart as int].state != HartState::Started ==> r.0.error
                == crate::sbiret::SBI_ERR_ALREADY_STOPPED && *final(self) == *old(self),
            r.0.error == crate::sbiret::SBI_SUCCESS ==> {
                &&& final(self).cells[hart as int].state == HartState::StopPending
                &&& final(self).cells[hart as int].mailbox == Some(HsmCommand::Stop)
                &&& hsm_step(
                    old(self).cells[hart as int].state,
                    HsmEvent::StopCommand,
                    final(self).cells[hart as int].state,
                )
                &&& forall|i: int|
                    0 <= i < HART_COUNT && i != hart ==> final(self).cells[i] == old(self).cells[i]
            },
    {
        let state = self.cells[hart].state;
        if !matches!(state, HartState::Started) {
            return (crate::sbiret::SbiRet::err(crate::sbiret::SBI_ERR_ALREADY_STOPPED), false);
        }
        self.post(hart, HsmCommand::Stop, HartState::StopPending);
        (crate::sbiret::SbiRet::ok(0), true)
    }

    /// SBI `hart_suspend(kind, resume_addr, opaque)`, invoked by the
    /// running hart on itself. A retentive kind (top bit of the 32-bit
    /// kind clear) changes nothing: the caller just idles and the call
    /// returns success. A non-retentive kind parks the hart: its own
    /// mailbox receives the start command it will resume with (edge
    /// `SuspendNonRetentive`), and the sentinel error tells the execute
    /// loop to rewrite the context instead of returning to the call site.
    pub fn hart_suspend(&mut self, hart: usize, kind: u64, resume_addr: u64, opaque: u64) -> (r:
        crate::sbiret::SbiRet)
        requires
            old(self).wf(),
            hart < HART_COUNT,
            old(self).cells[hart as int].state == HartState::Started,
        ensures
            final(self).wf(),
            kind & 0x8000_0000 == 0 ==> r.error == crate::sbiret::SBI_SUCCESS && *final(self)
                == *old(self),
            kind & 0x8000_0000 != 0 && !crate::pmp::dram_reachable(resume_addr) ==> r.error
                == crate::sbiret::SBI_ERR_INVALID_ADDRESS && *final(self) == *old(self),
            kind & 0x8000_0000 != 0 && crate::pmp::dram_reachable(resume_addr) ==> {
                &&& r.error == crate::sbiret::HSM_RESUME_SENTINEL
                &&& final(self).cells[hart as int].state == HartState::Suspended
                &&& final(self).cells[hart as int].mailbox == Some(
                    HsmCommand::Start { start_addr: resume_addr, opaque },
                )
                &&& hsm_step(
                    old(self).cells[hart as int].state,
                    HsmEvent::SuspendNonRetentive,
                    final(self).cells[hart as int].state,
                )
                &&& forall|i: int|
                    0 <= i < HART_COUNT && i != hart ==> final(self).cells[i] == old(self).cells[i]
            },
            r.error == crate::sbiret::HSM_RESUME_SENTINEL <==> kind & 0x8000_0000 != 0
                && crate::pmp::dram_reachable(resume_addr),
    {
        if kind & 0x8000_0000 == 0 {
            return crate::sbiret::SbiRet::ok(0);
        }
        if !crate::pmp::dram_reachable_exec(resume_addr) {
            return crate::sbiret::SbiRet::err(crate::sbiret::SBI_ERR_INVALID_ADDRESS);
        }
        self.post(hart, HsmCommand::Start { start_addr: resume_addr, opaque }, HartState::Suspended);
        crate::sbiret::SbiRet { error: crate::sbiret::HSM_RESUME_SENTINEL, value: 0 }
    }

    /// SBI `hart_get_status(hartid)`: a read-only snapshot of the peer's
    /// state, in the SBI status encoding; invalid hart ids are rejected.
    pub fn hart_get_status(&self, target: usize) -> (r: crate::sbiret::SbiRet)
        requires
            self.wf(),
        ensures
            r.error == crate::sbiret::SBI_SUCCESS <==> target < HART_COUNT,
            target >= HART_COUNT ==> r.error == crate::sbiret::SBI_ERR_INVALID_PARAM,
            target < HART_COUNT ==> r.value == status_code(self.cells[target as int].state),
    {
        if target >= HART_COUNT {
            return crate::sbiret::SbiRet::err(crate::sbiret::SBI_ERR_INVALID_PARAM);
        }
        let code = match self.cells[target].state {
            HartState::Started => HART_STATUS_STARTED,
            HartState::Stopped => HART_STATUS_STOPPED,
            HartState::StartPending => HART_STATUS_START_PENDING,
            HartState::StopPending => HART_STATUS_STOP_PENDING,
            HartState::Suspended => HART_STATUS_SUSPENDED,
        };
        crate::sbiret::SbiRet::ok(code)
    }
}

/// The SBI status encoding of a hart state.
pub open spec fn status_code(s: HartState) -> u64 {
    match s {
        HartState::Started => HART_STATUS_STARTED,
        HartState::Stopped => HART_STATUS_STOPPED,
        HartState::StartPending => HART_STATUS_START_PENDING,
        HartState::StopPending => HART_STATUS_STOP_PENDING,
        HartState::Suspended => HART_STATUS_SUSPENDED,
    }
}

} // verus!
