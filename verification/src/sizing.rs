//! Swapfile size estimation.
//!
//! ## Formula
//!
//! ```text
//! compressed_ram_kb = must_save_kb / zswap_ratio                      (rounded down)
//! safety_kb         = compressed_ram_kb × SIZING_SAFETY_MARGIN_PERCENT / 100   (rounded down)
//! swapfile_kb       = compressed_ram_kb + safety_kb + vram_kb + HIBERNATE_HEADER_OVERHEAD_KB
//! ```
//!
//! The sum saturates at `u64::MAX`. `must_save_kb` is the non-reclaimable RAM
//! (`MemProbe`), `zswap_ratio` the live pool ratio (1 when unusable,
//! `ZswapProbe`), `vram_kb` the used NVIDIA VRAM (0 when the GPU is off,
//! `VramProbe`), added **uncompressed**.

use vstd::prelude::*;
use crate::config::{HIBERNATE_HEADER_OVERHEAD_KB, SIZING_SAFETY_MARGIN_PERCENT};
use crate::probe::{MemProbe, VramProbe, ZswapProbe};

verus! {

/// RAM to save, divided by the ratio `uncompressed / compressed`, rounded down.
pub open spec fn compressed_kb(must_save: int, ratio: (int, int)) -> int {
    must_save * ratio.1 / ratio.0
}

/// The safety margin on the compressed estimate, rounded down.
pub open spec fn safety_kb(compressed: int) -> int {
    compressed * SIZING_SAFETY_MARGIN_PERCENT / 100
}

/// The swapfile size in kilobytes the formula gives, saturated at `u64::MAX`.
pub open spec fn swapfile_kb(must_save: int, ratio: (int, int), vram: int) -> int {
    let c = compressed_kb(must_save, ratio);
    let total = c + safety_kb(c) + vram + HIBERNATE_HEADER_OVERHEAD_KB;
    if total <= u64::MAX {
        total
    } else {
        u64::MAX as int
    }
}

proof fn lemma_compressed_le(m: int, c: int, u: int)
    requires
        0 <= m,
        0 < c <= u,
    ensures
        0 <= m * c / u <= m,
{
    assert(0 <= m * c) by (nonlinear_arith)
        requires
            0 <= m,
            0 < c,
    ;
    assert(m * c <= m * u) by (nonlinear_arith)
        requires
            0 <= m,
            c <= u,
    ;
    assert(m * c / u <= m) by (nonlinear_arith)
        requires
            0 <= m * c <= m * u,
            0 < u,
    ;
    assert(0 <= m * c / u) by (nonlinear_arith)
        requires
            0 <= m * c,
            0 < u,
    ;
}

/// Compute the minimum required swapfile size in kilobytes.
pub fn compute_swapfile_kb(mem: &MemProbe, zswap: &ZswapProbe, vram: &VramProbe) -> (kb: u64)
    requires
        mem.reclaimable() <= u64::MAX,
        vram.used() <= u64::MAX,
    ensures
        kb == swapfile_kb(mem.must_save(), zswap.ratio(), vram.used()),
{
    let must_save_kb = mem.must_save_kb();
    let ratio = zswap.compression_ratio();
    let vram_kb = vram.used_kb();
    proof {
        lemma_compressed_le(
            must_save_kb as int,
            ratio.compressed_bytes as int,
            ratio.uncompressed_bytes as int,
        );
    }
    assert(must_save_kb as u128 * ratio.compressed_bytes as u128 <= u128::MAX) by (nonlinear_arith)
        requires
            must_save_kb <= u64::MAX,
            ratio.compressed_bytes <= u64::MAX,
    ;
    let compressed_ram_kb = (must_save_kb as u128 * ratio.compressed_bytes as u128
        / ratio.uncompressed_bytes) as u64;
    let safety = (compressed_ram_kb as u128 * SIZING_SAFETY_MARGIN_PERCENT as u128 / 100) as u64;
    compressed_ram_kb.saturating_add(safety).saturating_add(vram_kb).saturating_add(
        HIBERNATE_HEADER_OVERHEAD_KB,
    )
}


/// The estimate never drops below what must be written uncompressed: the
/// VRAM and the header overhead (saturating at `u64::MAX`); without a usable
/// zswap sample (ratio 1) the RAM to save is counted in full, plus 10 %.
pub proof fn law_estimate_covers_uncompressed_parts(must_save: int, ratio: (int, int), vram: int)
    requires
        0 <= must_save,
        0 <= vram,
        0 < ratio.1 <= ratio.0,
    ensures
        swapfile_kb(must_save, ratio, vram) >= if vram + HIBERNATE_HEADER_OVERHEAD_KB <= u64::MAX {
            vram + HIBERNATE_HEADER_OVERHEAD_KB
        } else {
            u64::MAX as int
        },
        ratio == (1int, 1int) ==> swapfile_kb(must_save, ratio, vram) == if must_save + must_save
            * SIZING_SAFETY_MARGIN_PERCENT / 100 + vram + HIBERNATE_HEADER_OVERHEAD_KB <= u64::MAX {
            must_save + must_save * SIZING_SAFETY_MARGIN_PERCENT / 100 + vram
                + HIBERNATE_HEADER_OVERHEAD_KB
        } else {
            u64::MAX as int
        },
{
    lemma_compressed_le(must_save, ratio.1, ratio.0);
    if ratio == (1int, 1int) {
        assert(must_save * 1 / 1 == must_save) by (nonlinear_arith);
    }
}

proof fn lemma_div_monotone(a: int, b: int, c: int, u: int)
    requires
        0 <= a <= b,
        0 <= c,
        0 < u,
    ensures
        a * c / u <= b * c / u,
{
    assert(a * c <= b * c) by (nonlinear_arith)
        requires
            0 <= a <= b,
            0 <= c,
    ;
    assert(a * c / u <= b * c / u) by (nonlinear_arith)
        requires
            a * c <= b * c,
            0 < u,
    ;
}

/// More RAM to save, or more VRAM, never makes the estimate smaller.
pub proof fn law_estimate_monotone(m1: int, m2: int, v1: int, v2: int, ratio: (int, int))
    requires
        0 <= m1 <= m2,
        0 <= v1 <= v2,
        0 < ratio.1 <= ratio.0,
    ensures
        swapfile_kb(m1, ratio, v1) <= swapfile_kb(m2, ratio, v2),
{
    lemma_div_monotone(m1, m2, ratio.1, ratio.0);
    let c1 = compressed_kb(m1, ratio);
    let c2 = compressed_kb(m2, ratio);
    lemma_compressed_le(m1, ratio.1, ratio.0);
    lemma_div_monotone(c1, c2, SIZING_SAFETY_MARGIN_PERCENT as int, 100);
}

proof fn lemma_compressed_two_ratios(m1: int, m2: int, r1: (int, int), r2: (int, int))
    requires
        0 <= m1 <= m2,
        0 < r1.1 <= r1.0,
        0 < r2.1 <= r2.0,
        r1.1 * r2.0 <= r2.1 * r1.0,
    ensures
        compressed_kb(m1, r1) <= compressed_kb(m2, r2),
{
    let (u1, c1) = r1;
    let (u2, c2) = r2;
    let q1 = m1 * c1 / u1;
    vstd::arithmetic::div_mod::lemma_fundamental_div_mod(m1 * c1, u1);
    vstd::arithmetic::div_mod::lemma_mod_pos_bound(m1 * c1, u1);
    assert(u1 * q1 <= m1 * c1);
    assert(q1 * u1 * u2 <= m1 * c1 * u2) by (nonlinear_arith)
        requires
            u1 * q1 <= m1 * c1,
            0 < u2,
    ;
    assert(m1 * c1 * u2 <= m2 * c1 * u2) by (nonlinear_arith)
        requires
            0 <= m1 <= m2,
            0 < c1,
            0 < u2,
    ;
    assert(m2 * c1 * u2 <= m2 * c2 * u1) by (nonlinear_arith)
        requires
            0 <= m2,
            c1 * u2 <= c2 * u1,
    ;
    assert(q1 * u2 <= m2 * c2) by (nonlinear_arith)
        requires
            q1 * u1 * u2 <= m2 * c2 * u1,
            0 < u1,
    ;
    vstd::arithmetic::div_mod::lemma_div_is_ordered(q1 * u2, m2 * c2, u2);
    vstd::arithmetic::div_mod::lemma_div_multiples_vanish(q1, u2);
    assert(u2 * q1 == q1 * u2) by (nonlinear_arith);
}

/// A worse compression ratio never makes the estimate smaller: with at least
/// as much RAM to save and VRAM, and a ratio `r2` no better than `r1` (as
/// fractions `uncompressed / compressed`, `r2.0 / r2.1 <= r1.0 / r1.1`), the
/// estimate is at least as large.
pub proof fn law_estimate_grows_with_worse_ratio(
    m1: int,
    m2: int,
    v1: int,
    v2: int,
    r1: (int, int),
    r2: (int, int),
)
    requires
        0 <= m1 <= m2,
        0 <= v1 <= v2,
        0 < r1.1 <= r1.0,
        0 < r2.1 <= r2.0,
        r1.1 * r2.0 <= r2.1 * r1.0,
    ensures
        swapfile_kb(m1, r1, v1) <= swapfile_kb(m2, r2, v2),
{
    lemma_compressed_two_ratios(m1, m2, r1, r2);
    let c1 = compressed_kb(m1, r1);
    let c2 = compressed_kb(m2, r2);
    lemma_compressed_le(m1, r1.1, r1.0);
    lemma_div_monotone(c1, c2, SIZING_SAFETY_MARGIN_PERCENT as int, 100);
}

} // verus!
