//! Sizes of the levels of a mipmap chain.
use crate::error::GpuError;
use vstd::arithmetic::div_mod::{lemma_basic_div, lemma_div_denominator, lemma_div_is_ordered};
use vstd::arithmetic::logarithm::{lemma_log0, lemma_log_s, log};
use vstd::arithmetic::power2::{lemma2_to64, lemma_pow2_pos, lemma_pow2_strictly_increases, lemma_pow2_unfold, pow2};
use vstd::bits::lemma_u32_shr_is_div;
use vstd::prelude::*;

verus! {

/// Extent of one axis at mip level `level`: the base extent divided by
/// `2^level`, rounded down, and never less than one texel. For a `u32` base and
/// a level below 32 this is `max(1, base >> level)`.
pub open spec fn mip_extent(base: nat, level: nat) -> nat {
    if base / pow2(level) == 0 {
        1
    } else {
        base / pow2(level)
    }
}

/// The larger of two extents.
pub open spec fn larger_axis(width: nat, height: nat) -> nat {
    if width >= height {
        width
    } else {
        height
    }
}

/// How many mip levels a `width` by `height` texture can have:
/// `floor(log2(max(width, height))) + 1`.
pub open spec fn mip_level_limit(width: nat, height: nat) -> nat {
    (log(2, larger_axis(width, height) as int) + 1) as nat
}

/// Whether `mip_count` levels can be allocated for a `width` by `height` texture.
pub open spec fn mip_count_allowed(width: nat, height: nat, mip_count: nat) -> bool {
    1 <= mip_count <= mip_level_limit(width, height)
}

/// Extent of one axis at a mip level.
pub fn mip_level_size(base: u32, level: u32) -> (r: u32)
    ensures
        r == mip_extent(base as nat, level as nat),
        r >= 1,
        level < 32 ==> r == (if base >> level == 0 { 1u32 } else { base >> level }),
{
    if level >= 32 {
        proof {
            lemma2_to64();
            if level > 32 {
                lemma_pow2_strictly_increases(32, level as nat);
            }
            lemma_basic_div(base as int, pow2(level as nat) as int);
        }
        1
    } else {
        let shifted = base >> level;
        proof {
            lemma_u32_shr_is_div(base, level);
        }
        if shifted == 0 {
            1
        } else {
            shifted
        }
    }
}

/// Width and height of a mip level of a `width` by `height` texture.
pub fn mip_level_dimensions(width: u32, height: u32, level: u32) -> (r: (u32, u32))
    ensures
        r.0 == mip_extent(width as nat, level as nat),
        r.1 == mip_extent(height as nat, level as nat),
{
    (mip_level_size(width, level), mip_level_size(height, level))
}

/// The number of levels in the full mip chain of a `width` by `height` texture.
pub fn max_mip_levels(width: u32, height: u32) -> (r: u32)
    ensures
        r == mip_level_limit(width as nat, height as nat),
        1 <= r <= 32,
{
    let largest: u32 = if width >= height { width } else { height };
    let mut rest: u32 = largest;
    let mut count: u32 = 1;
    proof {
        lemma2_to64();
    }
    while rest > 1
        invariant
            1 <= count <= 32,
            rest < pow2((33 - count) as nat),
            log(2, rest as int) + count == log(2, largest as int) + 1,
        decreases rest,
    {
        proof {
            lemma_log_s(2, rest as int);
            lemma_pow2_unfold((33 - count) as nat);
            if count == 32 {
                lemma2_to64();
            }
        }
        rest = rest / 2;
        count = count + 1;
    }
    proof {
        lemma_log0(2, rest as int);
    }
    count
}

/// Accepts a mip level count of at least one and at most the length of the
/// full chain; anything else is `InvalidMipCount`.
pub fn check_mip_count(width: u32, height: u32, mip_count: u32) -> (r: Result<(), GpuError>)
    ensures
        r is Ok <==> mip_count_allowed(width as nat, height as nat, mip_count as nat),
        r is Err ==> r == Err::<(), GpuError>(GpuError::InvalidMipCount),
        mip_count > mip_level_limit(width as nat, height as nat) ==> r is Err,
{
    if mip_count == 0 || mip_count > max_mip_levels(width, height) {
        Err(GpuError::InvalidMipCount)
    } else {
        Ok(())
    }
}

/// Each level is half the level before it, rounded down, with a floor of one.
pub proof fn lemma_mip_extent_halves(base: nat, level: nat)
    ensures
        mip_extent(base, 0) == (if base == 0 { 1 } else { base }),
        mip_extent(base, level + 1) == (if mip_extent(base, level) / 2 == 0 {
            1
        } else {
            mip_extent(base, level) / 2
        }),
{
    lemma2_to64();
    lemma_pow2_pos(level);
    lemma_pow2_unfold(level + 1);
    lemma_div_denominator(base as int, pow2(level) as int, 2);
    assert(pow2(level) * 2 == pow2(level + 1));
}

/// No level is larger than the base level.
pub proof fn lemma_mip_extent_bounded(base: nat, level: nat)
    ensures
        1 <= mip_extent(base, level),
        mip_extent(base, level) <= (if base == 0 { 1 } else { base }),
{
    lemma_pow2_pos(level);
    let d = pow2(level) as int;
    assert(base as int / d <= base) by (nonlinear_arith)
        requires
            d >= 1,
            base >= 0,
    ;
}

/// `2^log2(n) <= n < 2^(log2(n) + 1)` for every positive `n`.
pub proof fn lemma_log2_brackets(n: nat)
    requires
        n >= 1,
    ensures
        log(2, n as int) >= 0,
        pow2(log(2, n as int) as nat) <= n < pow2((log(2, n as int) + 1) as nat),
    decreases n,
{
    lemma2_to64();
    if n < 2 {
        lemma_log0(2, n as int);
    } else {
        lemma_log_s(2, n as int);
        lemma_log2_brackets(n / 2);
        let k = log(2, (n / 2) as int);
        lemma_pow2_unfold((k + 1) as nat);
        lemma_pow2_unfold((k + 2) as nat);
    }
}

/// The full chain ends exactly where both axes have shrunk to one texel: the
/// last allowed level is 1 by 1, and every level before it still has an axis of
/// two texels or more.
pub proof fn lemma_full_chain_ends_at_one(width: nat, height: nat, level: nat)
    requires
        width >= 1 || height >= 1,
    ensures
        level + 1 >= mip_level_limit(width, height) ==> mip_extent(width, level) == 1
            && mip_extent(height, level) == 1,
        level + 1 < mip_level_limit(width, height) ==> larger_axis(
            mip_extent(width, level),
            mip_extent(height, level),
        ) >= 2,
{
    let largest = larger_axis(width, height);
    let top = log(2, largest as int);
    lemma_log2_brackets(largest);
    lemma_pow2_pos(level);
    let d = pow2(level) as int;
    if level >= top {
        if level > top {
            lemma_pow2_strictly_increases(top as nat, level);
        }
        lemma_pow2_unfold((top + 1) as nat);
        assert(largest < 2 * d);
        assert(largest / (d as nat) <= 1) by (nonlinear_arith)
            requires
                largest < 2 * d,
                d > 0,
        ;
        lemma_div_is_ordered(width as int, largest as int, d);
        lemma_div_is_ordered(height as int, largest as int, d);
    } else {
        if level + 1 < top {
            lemma_pow2_strictly_increases(level + 1, top as nat);
        }
        lemma_pow2_unfold(level + 1);
        assert(largest >= 2 * d);
        assert(largest / (d as nat) >= 2) by (nonlinear_arith)
            requires
                largest >= 2 * d,
                d > 0,
        ;
    }
}

} // verus!
