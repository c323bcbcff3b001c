//! Rounding stream lengths up to whole parallel blocks.
//!
//! Regions whose downstream stage processes fixed-size parallel blocks are
//! padded with zeroes so no block-parallel kernel ever reads a partial block.
//! Every block size used is a power of two.

use vstd::prelude::*;
use vstd::arithmetic::div_mod::lemma_fundamental_div_mod;
use vstd::arithmetic::div_mod::lemma_mod_bound;
use vstd::arithmetic::div_mod::lemma_mod_multiples_basic;
use vstd::arithmetic::div_mod::lemma_small_mod;
use vstd::arithmetic::div_mod::lemma_sub_mod_noop;
use vstd::arithmetic::mul::lemma_mul_is_distributive_add;
use vstd::arithmetic::mul::lemma_mul_is_commutative;

verus! {

/// True when `a` is a positive power of two.
pub open spec fn is_pow2(a: usize) -> bool {
    a != 0 && a & ((a - 1) as usize) == 0
}

/// Number of zero entries appended after a stream of length `x` so that the
/// padded length is a whole number of blocks of size `a`.
pub open spec fn pad_spec(x: int, a: int) -> int
    recommends
        0 < a,
{
    if x % a == 0 {
        0
    } else {
        a - x % a
    }
}

/// Length of a stream of length `x` rounded up to a whole number of blocks of
/// size `a`.
pub open spec fn align_up_spec(x: int, a: int) -> int
    recommends
        0 < a,
{
    x + pad_spec(x, a)
}

/// The rounded length is a multiple of the block size, at least the raw
/// length, and less than one whole block above it.
pub proof fn lemma_align_up_props(x: int, a: int)
    requires
        0 <= x,
        0 < a,
    ensures
        0 <= pad_spec(x, a) < a,
        align_up_spec(x, a) % a == 0,
        x <= align_up_spec(x, a) < x + a,
{
    lemma_mod_bound(x, a);
    if x % a == 0 {
    } else {
        let q = x / a;
        lemma_fundamental_div_mod(x, a);
        lemma_mul_is_distributive_add(a, q, 1);
        assert(align_up_spec(x, a) == a * (q + 1));
        lemma_mul_is_commutative(a, q + 1);
        lemma_mod_multiples_basic(q + 1, a);
    }
}

/// Two multiples of `a` inside one window of width `a` are equal.
proof fn lemma_multiple_unique_in_window(x: int, a: int, r1: int, r2: int)
    requires
        0 <= x,
        0 < a,
        r1 % a == 0,
        r2 % a == 0,
        x <= r1 < x + a,
        x <= r2 < x + a,
    ensures
        r1 == r2,
{
    if r1 < r2 {
        lemma_sub_mod_noop(r2, r1, a);
        lemma_small_mod(0nat, a as nat);
        lemma_small_mod((r2 - r1) as nat, a as nat);
    } else if r2 < r1 {
        lemma_sub_mod_noop(r1, r2, a);
        lemma_small_mod(0nat, a as nat);
        lemma_small_mod((r1 - r2) as nat, a as nat);
    }
}

/// Padding law: the rounded length is the smallest multiple of the block size
/// that is at least the raw length.
pub proof fn lemma_align_up_least(x: int, a: int)
    requires
        0 <= x,
        0 < a,
    ensures
        align_up_spec(x, a) % a == 0,
        x <= align_up_spec(x, a),
        forall|m: int| #[trigger] (m % a) == 0 && x <= m ==> align_up_spec(x, a) <= m,
{
    lemma_align_up_props(x, a);
    assert forall|m: int| #[trigger] (m % a) == 0 && x <= m implies align_up_spec(x, a) <= m by {
        if m < align_up_spec(x, a) {
            lemma_multiple_unique_in_window(x, a, align_up_spec(x, a), m);
        }
    }
}

/// Rounds `x` up to a whole number of blocks of size `align`, a power of two.
pub fn align_up(x: usize, align: usize) -> (r: usize)
    requires
        is_pow2(align),
        x + align - 1 <= usize::MAX,
    ensures
        r == align_up_spec(x as int, align as int),
{
    let m = x % align;
    if m == 0 {
        x
    } else {
        x + (align - m)
    }
}

/// Every block size in the layout-constants table is a power of two.
pub proof fn lemma_part_sizes_pow2()
    ensures
        is_pow2(crate::params::DRAW_PART_SIZE),
        is_pow2(crate::params::TRANSFORM_PART_SIZE),
        is_pow2(crate::params::PATHSEG_PART_SIZE),
        is_pow2(crate::params::CLIP_PART_SIZE),
{
    assert(2048usize & 2047 == 0) by (bit_vector);
    assert(256usize & 255 == 0) by (bit_vector);
}

/// Number of zero entries that `align_up` would add after a stream of length
/// `x`: the distance from `x` up to the next whole block.
pub fn padding(x: usize, align: usize) -> (r: usize)
    requires
        is_pow2(align),
    ensures
        r == pad_spec(x as int, align as int),
        r < align,
{
    let m = x % align;
    if m == 0 {
        0
    } else {
        align - m
    }
}

} // verus!
