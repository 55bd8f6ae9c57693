//! System-wide properties proved once and for all, stated over the
//! spec-level models the components' contracts use.

use crate::mapper4::Mmc3Irq;
use crate::mapper4::spec_irq_edge;
use vstd::prelude::*;
use vstd::wrapping::u8_specs;

verus! {

/// Pushing the status with both break bits (as PHP does) and popping
/// it into the accumulator (as PLA does) returns exactly the pushed
/// byte: every status bit other than the two break bits round-trips,
/// and bits 4 and 5 come back set. The indices are the stack slots the
/// push and pop contracts use, so the statement composes directly with
/// `stack_push` followed by `stack_pop` at the same stack pointer.
pub proof fn lemma_php_pla_roundtrip(ram: Seq<u8>, s: u8, p: u8)
    requires
        ram.len() == 0x800,
        s >= 1,
    ensures
        ram.update(0x100 + s as int, p | 0x30)[0x100 + u8_specs::wrapping_add(
            u8_specs::wrapping_sub(s, 1),
            1,
        ) as int] == (p | 0x30),
        (p | 0x30) & 0x30 == 0x30,
        (p | 0x30) & 0xCF == p & 0xCF,
{
    assert((p | 0x30) & 0x30 == 0x30 && (p | 0x30) & 0xCF == p & 0xCF) by (bit_vector);
}

/// The number of A12 rising edges after `start` at which the MMC3's
/// IRQ first fires, counted through `spec_irq_edge`: with a reload
/// scheduled, a latch of `n`, IRQs enabled and no IRQ pending, the
/// counter reloads to `n` on the first edge and the IRQ asserts on
/// edge `n + 1` exactly, never earlier.
pub proof fn lemma_mmc3_irq_after_reload(start: Mmc3Irq, k: nat)
    requires
        start.reload_scheduled,
        start.enabled,
        !start.triggered,
        start.latch >= 1,
        1 <= k <= start.latch,
    ensures
        !spec_irq_edges(start, k).triggered,
        spec_irq_edges(start, k).counter == start.latch - (k - 1),
        spec_irq_edges(start, k).enabled,
        !spec_irq_edges(start, k).reload_scheduled,
        spec_irq_edges(start, k).latch == start.latch,
        spec_irq_edges(start, (start.latch + 1) as nat).triggered,
    decreases start.latch + 1 - k,
{
    if k == 1 {
        assert(spec_irq_edges(start, 0) == start);
        assert(spec_irq_edges(start, 1) == spec_irq_edge(spec_irq_edges(start, 0)));
    } else {
        lemma_mmc3_irq_edges_from(start, (k - 1) as nat);
    }
    if k == start.latch {
        let at_k = spec_irq_edges(start, k);
        assert(at_k.counter == 1);
        assert(spec_irq_edges(start, (k + 1) as nat) == spec_irq_edge(at_k));
        assert(spec_irq_edge(at_k).counter == 0 && spec_irq_edge(at_k).triggered);
    } else {
        lemma_mmc3_irq_edges_from(start, start.latch as nat);
    }
}

/// Helper for the induction above, stepping from edge `k` to `k + 1`.
proof fn lemma_mmc3_irq_edges_from(start: Mmc3Irq, k: nat)
    requires
        start.reload_scheduled,
        start.enabled,
        !start.triggered,
        start.latch >= 1,
        1 <= k <= start.latch,
    ensures
        !spec_irq_edges(start, k).triggered,
        spec_irq_edges(start, k).counter == start.latch - (k - 1),
        spec_irq_edges(start, k).enabled,
        !spec_irq_edges(start, k).reload_scheduled,
        spec_irq_edges(start, k).latch == start.latch,
        k == start.latch ==> spec_irq_edges(start, (start.latch + 1) as nat).triggered,
    decreases k,
{
    if k == 1 {
        assert(spec_irq_edges(start, 0) == start);
        assert(spec_irq_edges(start, 1) == spec_irq_edge(spec_irq_edges(start, 0)));
    } else {
        lemma_mmc3_irq_edges_from(start, (k - 1) as nat);
        assert(spec_irq_edges(start, k) == spec_irq_edge(spec_irq_edges(start, (k - 1) as nat)));
    }
    if k == start.latch {
        let at_k = spec_irq_edges(start, k);
        assert(at_k.counter == 1);
        assert(spec_irq_edges(start, (k + 1) as nat) == spec_irq_edge(at_k));
    }
}

/// The scanline-counter state after `k` A12 rising edges.
pub open spec fn spec_irq_edges(s: Mmc3Irq, k: nat) -> Mmc3Irq
    decreases k,
{
    if k == 0 {
        s
    } else {
        spec_irq_edge(spec_irq_edges(s, (k - 1) as nat))
    }
}

/// A PPUDATA access at VRAM address `v` moves the bus address by the
/// configured increment and wraps at the top of the PPU address
/// space: from any 14-bit address the next address is again 14-bit,
/// and equals the old one plus the increment modulo `0x4000`.
pub proof fn lemma_ppudata_increment_wraps(v: u16, incr: int)
    requires
        incr == 1 || incr == 32,
        v < 0x4000,
    ensures
        (v + incr) % 0x4000 < 0x4000,
        v + incr < 0x4000 ==> (v + incr) % 0x4000 == v + incr,
        v + incr >= 0x4000 ==> (v + incr) % 0x4000 == v + incr - 0x4000,
{
}

} // verus!
