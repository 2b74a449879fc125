//! Physical memory protection: the boot-time NAPOT regions.
//!
//! Boot programs three naturally-aligned power-of-two (NAPOT) regions so
//! that S-mode may reach the peripheral MMIO window and the CLINT
//! read-write, and the DRAM read-write-execute. A NAPOT region over
//! `[base, base + size)` is encoded as `pmpaddr = (base >> 2) | ((size >> 2) - 1)`.

use vstd::prelude::*;

verus! {

/// Base of the peripheral MMIO region.
pub const PMP_PERIPHERAL_BASE: u64 = 0x1000_0000;
/// Size of the peripheral MMIO region.
pub const PMP_PERIPHERAL_SIZE: u64 = 0x800_0000;
/// Base of the CLINT region.
pub const PMP_CLINT_BASE: u64 = 0x200_0000;
/// Size of the CLINT region.
pub const PMP_CLINT_SIZE: u64 = 0x1_0000;
/// Base of the DRAM region.
pub const PMP_DRAM_BASE: u64 = 0x8000_0000;
/// Size of the DRAM region.
pub const PMP_DRAM_SIZE: u64 = 0x2_0000_0000;

/// PMP entry configuration: readable, writable, NAPOT address matching.
pub const PMPCFG_RW_NAPOT: u64 = 0b11011;
/// PMP entry configuration: readable, writable, executable, NAPOT.
pub const PMPCFG_RWX_NAPOT: u64 = 0b11111;

/// The NAPOT encoding of the region `[base, base + size)`.
pub open spec fn napot_addr(base: u64, size: u64) -> u64 {
    (base >> 2) | (((size >> 2) - 1) as u64)
}

/// The bits a NAPOT entry ignores when matching: the trailing ones of the
/// encoded address together with the lowest zero above them.
pub open spec fn napot_mask(a: u64) -> u64 {
    a ^ (((a + 1)) as u64)
}

/// Whether the NAPOT entry encoded as `a` matches the byte address `y`:
/// the hardware compares `y >> 2` with the entry above the ignored bits.
pub open spec fn napot_match(a: u64, y: u64) -> bool {
    ((y >> 2) | napot_mask(a)) == (a | napot_mask(a))
}

/// Compute the NAPOT encoding of `[base, base + size)`.
pub fn calc_pmpaddr(base: u64, size: u64) -> (r: u64)
    requires
        size >= 4,
    ensures
        r == napot_addr(base, size),
{
    proof {
        assert(size >= 4 ==> (size >> 2) >= 1) by (bit_vector);
    }
    (base >> 2) | ((size >> 2) - 1)
}

/// The three PMP values boot writes, in CSR order: `pmpcfg0`, then
/// `pmpaddr0` (peripherals, RW), `pmpaddr1` (CLINT, RW), `pmpaddr2`
/// (DRAM, RWX). After writing them the shell issues `sfence.vma`.
pub fn pmp_boot_values() -> (r: (u64, u64, u64, u64))
    ensures
        r.0 == PMPCFG_RW_NAPOT | (PMPCFG_RW_NAPOT << 8) | (PMPCFG_RWX_NAPOT << 16),
        r.1 == napot_addr(PMP_PERIPHERAL_BASE, PMP_PERIPHERAL_SIZE),
        r.2 == napot_addr(PMP_CLINT_BASE, PMP_CLINT_SIZE),
        r.3 == napot_addr(PMP_DRAM_BASE, PMP_DRAM_SIZE),
{
    let pmpcfg0: u64 = PMPCFG_RW_NAPOT | (PMPCFG_RW_NAPOT << 8) | (PMPCFG_RWX_NAPOT << 16);
    let pmpaddr0 = calc_pmpaddr(PMP_PERIPHERAL_BASE, PMP_PERIPHERAL_SIZE);
    let pmpaddr1 = calc_pmpaddr(PMP_CLINT_BASE, PMP_CLINT_SIZE);
    let pmpaddr2 = calc_pmpaddr(PMP_DRAM_BASE, PMP_DRAM_SIZE);
    (pmpcfg0, pmpaddr0, pmpaddr1, pmpaddr2)
}

/// Every byte address of the peripheral MMIO range is matched by the
/// peripheral PMP entry.
pub proof fn lemma_pmp_covers_peripherals(y: u64)
    requires
        PMP_PERIPHERAL_BASE <= y < PMP_PERIPHERAL_BASE + PMP_PERIPHERAL_SIZE,
    ensures
        napot_match(napot_addr(PMP_PERIPHERAL_BASE, PMP_PERIPHERAL_SIZE), y),
{
    assert(0x1000_0000 <= y < 0x1800_0000 ==> napot_match(napot_addr(0x1000_0000, 0x800_0000), y))
        by (bit_vector);
}

/// Every byte address of the CLINT range is matched by the CLINT PMP entry.
pub proof fn lemma_pmp_covers_clint(y: u64)
    requires
        PMP_CLINT_BASE <= y < PMP_CLINT_BASE + PMP_CLINT_SIZE,
    ensures
        napot_match(napot_addr(PMP_CLINT_BASE, PMP_CLINT_SIZE), y),
{
    assert(0x200_0000 <= y < 0x201_0000 ==> napot_match(napot_addr(0x200_0000, 0x1_0000), y))
        by (bit_vector);
}

/// Every byte address of the DRAM range is matched by the DRAM PMP entry.
/// (DRAM is 8 GiB at 2 GiB, so its base is not naturally aligned to its
/// size; the encoded entry decodes to a larger power-of-two region, which
/// still contains all of DRAM.)
pub proof fn lemma_pmp_covers_dram(y: u64)
    requires
        PMP_DRAM_BASE <= y < PMP_DRAM_BASE + PMP_DRAM_SIZE,
    ensures
        napot_match(napot_addr(PMP_DRAM_BASE, PMP_DRAM_SIZE), y),
{
    assert(0x8000_0000 <= y < 0x2_8000_0000 ==> napot_match(
        napot_addr(0x8000_0000, 0x2_0000_0000),
        y,
    )) by (bit_vector);
}

/// Whether `addr` lies in DRAM, the only memory a hart may be started or
/// resumed in.
pub open spec fn dram_reachable(addr: u64) -> bool {
    PMP_DRAM_BASE <= addr < PMP_DRAM_BASE + PMP_DRAM_SIZE
}

/// Decide `dram_reachable` for a concrete address.
pub fn dram_reachable_exec(addr: u64) -> (r: bool)
    ensures
        r == dram_reachable(addr),
{
    addr >= PMP_DRAM_BASE && addr < PMP_DRAM_BASE + PMP_DRAM_SIZE
}

} // verus!
