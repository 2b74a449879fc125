//! The idle sequence: how a hart waits, stopped, until the next IPI.
//!
//! The canonical "idle until woken" primitive clears any stale wake
//! signal, enables the machine software interrupt, loops in `wfi` until
//! `mip.MSIP` shows, restores the previous enable, and clears the signal
//! again. Because the CLINT software interrupt is level-sensitive, a
//! command posted before the bit was cleared is still observed, and
//! because `wfi` may be a no-op, only the observed bit ends the loop.
//!
//! The `wfi` instruction and the CLINT writes are the shell's; here the
//! CSR bookkeeping around the loop and the exit decision of the loop are
//! verified. The loop consumes the sequence of `mip.MSIP` values the
//! hart observes after each `wfi`.

use vstd::prelude::*;

use crate::csr::MIE_MSIE;
use crate::csr::MIP_MSIP;
use crate::csr::MachineCsrs;

verus! {

/// Enter the idle sequence: clear the stale machine-software pending bit
/// and start listening for software interrupts. Returns whether the
/// enable bit was already set, so that `pause_finish` can restore it.
/// The shell clears the CLINT pending word before calling this.
pub fn pause_prepare(csrs: &mut MachineCsrs) -> (r: bool)
    ensures
        r == (old(csrs).mie & MIE_MSIE != 0),
        final(csrs).mip == old(csrs).mip & !MIP_MSIP,
        final(csrs).mie == old(csrs).mie | MIE_MSIE,
        *final(csrs) == (MachineCsrs { mip: final(csrs).mip, mie: final(csrs).mie, ..*old(csrs) }),
{
    let prev_msie = csrs.mie & MIE_MSIE != 0;
    csrs.mip = csrs.mip & !MIP_MSIP;
    csrs.mie = csrs.mie | MIE_MSIE;
    prev_msie
}

/// Where the wait loop exits, given the `mip.MSIP` values observed
/// after each `wfi`: at the first observation showing the bit, or
/// never, if none does.
pub open spec fn pause_exit(observations: Seq<bool>, r: Option<usize>) -> bool {
    match r {
        Some(i) => {
            &&& i < observations.len()
            &&& observations[i as int]
            &&& forall|j: int| 0 <= j < i ==> !observations[j]
        },
        None => forall|j: int| 0 <= j < observations.len() ==> !observations[j],
    }
}

/// The wait loop of the idle sequence: `wfi`, then test `mip.MSIP`;
/// break when the bit shows. `msip_observations[j]` is the bit's value
/// the hart observes after its `j`-th `wfi`; the result says after
/// which `wfi` the loop exits (`None`: the sequence ended with no wake,
/// so the hart is still waiting).
pub fn pause(msip_observations: &Vec<bool>) -> (r: Option<usize>)
    ensures
        pause_exit(msip_observations@, r),
{
    let mut j: usize = 0;
    while j < msip_observations.len()
        invariant
            j <= msip_observations.len(),
            forall|k: int| 0 <= k < j ==> !msip_observations@[k],
        decreases msip_observations.len() - j,
    {
        if msip_observations[j] {
            return Some(j);
        }
        j += 1;
    }
    None
}

/// Leave the idle sequence: stop listening for software interrupts
/// again if the hart was not listening before. The shell clears the
/// CLINT pending word after this.
pub fn pause_finish(csrs: &mut MachineCsrs, prev_msie: bool)
    ensures
        !prev_msie ==> final(csrs).mie == old(csrs).mie & !MIE_MSIE,
        prev_msie ==> final(csrs).mie == old(csrs).mie,
        *final(csrs) == (MachineCsrs { mie: final(csrs).mie, ..*old(csrs) }),
{
    if !prev_msie {
        csrs.mie = csrs.mie & !MIE_MSIE;
    }
}

/// An IPI wakes a paused hart within bounded time: once some
/// observation shows `mip.MSIP` — which an IPI posted through the
/// level-sensitive CLINT guarantees — the wait loop exits, no later
/// than that observation.
pub proof fn lemma_pause_wakes(observations: Seq<bool>, r: Option<usize>, j: int)
    requires
        pause_exit(observations, r),
        0 <= j < observations.len(),
        observations[j],
    ensures
        r is Some,
        r matches Some(i) ==> i <= j,
{
}

} // verus!
