use vstd::arithmetic::power2::{lemma_pow2_strictly_increases, pow2};
use vstd::bits::{lemma_u32_pow2_no_overflow, lemma_u32_shl_is_mul};
use vstd::prelude::*;

verus! {

/// The smallest whole bit depth a quantizer is built from.
pub const MIN_BITS: u32 = 1;

/// The largest whole bit depth whose level count fits an `i32`.
pub const MAX_BITS: u32 = 31;

/// The depth a freshly built quantizer starts at (fifteen levels).
pub const DEFAULT_BITS: u32 = 4;

/// A whole bit depth raised to at least one bit.
pub open spec fn clamped_bits(bits: nat) -> nat {
    if bits < MIN_BITS {
        MIN_BITS as nat
    } else {
        bits
    }
}

/// Number of quantization levels at a whole bit depth: `2^bits - 1`, where
/// depths under one bit count as one bit, so that the count is never zero.
pub open spec fn level_count(bits: nat) -> int {
    pow2(clamped_bits(bits)) - 1
}

/// Number of quantization levels at the whole depth `bits`.
pub fn levels_for_bits(bits: u32) -> (r: i32)
    requires
        bits <= MAX_BITS,
    ensures
        r == level_count(bits as nat),
        r >= 1,
{
    let b: u32 = if bits < MIN_BITS {
        MIN_BITS
    } else {
        bits
    };
    proof {
        lemma_u32_pow2_no_overflow(b as nat);
        lemma_u32_shl_is_mul(1, b);
        lemma_pow2_strictly_increases(b as nat, 32);
        vstd::arithmetic::power2::lemma2_to64();
    }
    let p: u32 = 1u32 << b;
    (p - 1) as i32
}

/// The level counts of the two quantizers that a fractional bit depth
/// blends: `low` at the depth rounded down, `high` at the depth rounded up.
#[derive(Clone, Copy, Debug, PartialEq, Eq, Structural)]
pub struct DepthLevels {
    pub low: i32,
    pub high: i32,
}

/// The level counts for a depth whose whole parts below and above are
/// `bit_floor` and `bit_ceil`. Both quantizers change together, so that no
/// sample sees one at the new depth and the other at the old one.
pub fn depth_levels(bit_floor: u32, bit_ceil: u32) -> (r: DepthLevels)
    requires
        bit_floor <= MAX_BITS,
        bit_ceil <= MAX_BITS,
    ensures
        r.low == level_count(bit_floor as nat),
        r.high == level_count(bit_ceil as nat),
{
    DepthLevels { low: levels_for_bits(bit_floor), high: levels_for_bits(bit_ceil) }
}

/// Every whole depth gives at least one level, so a quantizer's step
/// `1 / levels` is always defined.
pub proof fn lemma_level_count_positive(bits: nat)
    ensures
        level_count(bits) >= 1,
{
    lemma_pow2_strictly_increases(0, clamped_bits(bits));
    vstd::arithmetic::power2::lemma2_to64();
}

/// A deeper bit depth never has fewer levels: the quantizer rounded up is
/// at least as fine as the one rounded down.
pub proof fn lemma_level_count_monotone(a: nat, b: nat)
    requires
        a <= b,
    ensures
        level_count(a) <= level_count(b),
{
    if clamped_bits(a) < clamped_bits(b) {
        lemma_pow2_strictly_increases(clamped_bits(a), clamped_bits(b));
    }
}

} // verus!
