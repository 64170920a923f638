//! Binary digits of integers and of four-limb values.
use vstd::prelude::*;
use vstd::arithmetic::div_mod::{
    lemma_div_denominator, lemma_fundamental_div_mod_converse, lemma_hoist_over_denominator,
    lemma_mod_multiples_vanish, lemma_basic_div,
};
use vstd::arithmetic::mul::lemma_mul_is_commutative;
use vstd::arithmetic::power2::{
    pow2, lemma2_to64, lemma_pow2_adds, lemma_pow2_pos, lemma_pow2_strictly_increases,
    lemma_pow2_unfold,
};
use vstd::bits::lemma_u64_shr_is_div;
use crate::limbs::limbs4;

verus! {

/// The binary digit of weight `2^j` in `v`.
pub open spec fn bit_of(v: int, j: nat) -> int {
    (v / (pow2(j) as int)) % 2
}

/// The digit `w + s` of `lo + 2^w * (x + 2^64 * hi)` is the digit `s` of the
/// word `x`.
proof fn lemma_bit_of_window(lo: int, x: int, hi: int, weight: int, w: nat, s: nat)
    requires
        weight == pow2(w),
        0 <= lo < weight,
        0 <= x < 0x1_0000_0000_0000_0000,
        0 <= hi,
        s < 64,
    ensures
        bit_of(lo + weight * (x + 0x1_0000_0000_0000_0000 * hi), w + s) == bit_of(x, s),
{
    let b = pow2(s) as int;
    let c = pow2((63 - s) as nat) as int;
    let h = x + 0x1_0000_0000_0000_0000 * hi;
    let v = lo + weight * h;
    lemma_pow2_pos(s);
    lemma_pow2_pos((63 - s) as nat);
    lemma_pow2_adds(w, s);
    lemma_pow2_adds(s, (64 - s) as nat);
    lemma_pow2_unfold((64 - s) as nat);
    lemma2_to64();
    assert(b * (2 * c) == 0x1_0000_0000_0000_0000);
    assert(v >= 0) by (nonlinear_arith)
        requires
            v == lo + weight * h,
            lo >= 0,
            weight > 0,
            h >= 0,
    ;
    lemma_div_denominator(v, weight, b);
    lemma_mul_is_commutative(weight, h);
    lemma_fundamental_div_mod_converse(v, weight, h, lo);
    assert(v / weight == h);
    // h == x + (2 * c * hi) * b
    assert(0x1_0000_0000_0000_0000 * hi == (2 * (c * hi)) * b) by (nonlinear_arith)
        requires
            b * (2 * c) == 0x1_0000_0000_0000_0000,
    ;
    lemma_hoist_over_denominator(x, 2 * (c * hi), b as nat);
    assert(h / b == x / b + 2 * (c * hi));
    lemma_mod_multiples_vanish(c * hi, x / b, 2);
}

/// A binary digit of a four-limb value is a digit of one of its limbs.
pub proof fn lemma_bit_of_limbs4(a: [u64; 4], j: nat)
    requires
        j < 256,
    ensures
        bit_of(limbs4(a), j) == bit_of(a[(j / 64) as int] as int, j % 64),
{
    lemma2_to64();
    lemma_pow2_adds(64, 64);
    lemma_pow2_adds(64, 128);
    let s = j % 64;
    if j < 64 {
        lemma_bit_of_window(
            0,
            a[0] as int,
            a[1] + a[2] * 0x1_0000_0000_0000_0000int + a[3]
                * 0x1_0000_0000_0000_0000_0000_0000_0000_0000int,
            1,
            0,
            s,
        );
    } else if j < 128 {
        lemma_bit_of_window(
            a[0] as int,
            a[1] as int,
            a[2] + a[3] * 0x1_0000_0000_0000_0000int,
            0x1_0000_0000_0000_0000int,
            64,
            s,
        );
    } else if j < 192 {
        lemma_bit_of_window(
            a[0] + a[1] * 0x1_0000_0000_0000_0000int,
            a[2] as int,
            a[3] as int,
            0x1_0000_0000_0000_0000_0000_0000_0000_0000int,
            128,
            s,
        );
    } else {
        lemma_bit_of_window(
            a[0] + a[1] * 0x1_0000_0000_0000_0000int + a[2]
                * 0x1_0000_0000_0000_0000_0000_0000_0000_0000int,
            a[3] as int,
            0,
            0x1_0000_0000_0000_0000_0000_0000_0000_0000_0000_0000_0000_0000int,
            192,
            s,
        );
    }
}

/// Dropping one digit fewer from the low end doubles the value and adds the
/// digit that is kept.
pub proof fn lemma_prefix_step(e: int, k: nat)
    requires
        0 <= e,
    ensures
        e / (pow2(k) as int) == 2 * (e / (pow2(k + 1) as int)) + bit_of(e, k),
{
    lemma_pow2_pos(k);
    lemma_pow2_unfold(k + 1);
    lemma_mul_is_commutative(pow2(k) as int, 2);
    lemma_div_denominator(e, pow2(k) as int, 2);
}

/// A value below `2^k` has no digits of weight `2^k` or more.
pub proof fn lemma_no_high_bits(e: int, k: nat, j: nat)
    requires
        0 <= e < pow2(k),
        k <= j,
    ensures
        e / (pow2(j) as int) == 0,
        bit_of(e, j) == 0,
{
    if k < j {
        lemma_pow2_strictly_increases(k, j);
    }
    lemma_basic_div(e, pow2(j) as int);
}

/// The binary digit of weight `2^j` of a four-limb value, for `j` below 256.
pub fn bit_at(val: &[u64; 4], j: usize) -> (r: u8)
    requires
        j < 256,
    ensures
        r == bit_of(limbs4(*val), j as nat),
{
    let limb = val[j / 64];
    let s = (j % 64) as u64;
    let shifted = limb >> s;
    let low = shifted & 1;
    proof {
        lemma_u64_shr_is_div(limb, s);
        assert(low == shifted % 2) by (bit_vector)
            requires
                low == shifted & 1,
        ;
        lemma_bit_of_limbs4(*val, j as nat);
    }
    low as u8
}

} // verus!
