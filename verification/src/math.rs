//! Single-word arithmetic with carries, the building blocks of the
//! multi-precision routines.
use vstd::prelude::*;

verus! {

/// The low and the high word of a double-width value.
pub fn split(s: u128) -> (r: (u64, u64))
    ensures
        r.0 == s % 0x1_0000_0000_0000_0000,
        r.1 == s / 0x1_0000_0000_0000_0000,
        r.0 + r.1 * 0x1_0000_0000_0000_0000int == s,
{
    let lo = #[verifier::truncate] (s as u64);
    let hi = #[verifier::truncate] ((s >> 64) as u64);
    assert(lo == s % 0x1_0000_0000_0000_0000 && hi == s / 0x1_0000_0000_0000_0000) by (bit_vector)
        requires
            lo == s as u64,
            hi == (s >> 64) as u64,
    ;
    (lo, hi)
}

/// Adds two words and an incoming carry; returns the sum's low word and the
/// outgoing carry.
pub fn adc(a: u64, b: u64, carry: u64) -> (r: (u64, u64))
    ensures
        r.0 + r.1 * 0x1_0000_0000_0000_0000int == a + b + carry,
        r.1 <= 2,
{
    split(a as u128 + b as u128 + carry as u128)
}

/// Computes `a + b * c + carry` as a low word and a high word. The value
/// always fits in two words.
pub fn mac(a: u64, b: u64, c: u64, carry: u64) -> (r: (u64, u64))
    ensures
        r.0 + r.1 * 0x1_0000_0000_0000_0000int == a + b * c + carry,
{
    assert(b * c <= 0xffff_ffff_ffff_ffff * 0xffff_ffff_ffff_ffff) by (nonlinear_arith)
        requires
            b <= 0xffff_ffff_ffff_ffff,
            c <= 0xffff_ffff_ffff_ffff,
    ;
    split(a as u128 + b as u128 * c as u128 + carry as u128)
}

/// Subtracts `b` and a borrow from `a`. The incoming borrow is taken from the
/// top bit of `brw`; the outgoing borrow is all ones when the subtraction
/// wrapped and zero otherwise.
pub fn sbb(a: u64, b: u64, brw: u64) -> (r: (u64, u64))
    ensures
        r.1 == 0 || r.1 == u64::MAX,
        r.0 - (if r.1 == 0 { 0 } else { 0x1_0000_0000_0000_0000int }) == a - b - borrow_bit(brw),
{
    let bin = brw >> 63;
    assert(bin == borrow_bit(brw)) by (bit_vector)
        requires
            bin == brw >> 63,
    ;
    let t = (a as u128).wrapping_sub(b as u128 + bin as u128);
    let r = split(t);
    proof {
        if a >= b + bin {
            assert(t == a - b - bin);
        } else {
            assert(t == a - b - bin + 0x1_0000_0000_0000_0000_0000_0000_0000_0000);
        }
    }
    r
}

/// The borrow that a borrow word stands for: its top bit.
pub open spec fn borrow_bit(brw: u64) -> int {
    if brw >= 0x8000_0000_0000_0000 {
        1
    } else {
        0
    }
}

/// Keeps `x` when the mask is all ones and gives zero when the mask is zero.
pub fn select(x: u64, mask: u64) -> (r: u64)
    requires
        mask == 0 || mask == u64::MAX,
    ensures
        r == (if mask == 0 { 0 } else { x }),
{
    let r = x & mask;
    assert(r == (if mask == 0 { 0 } else { x })) by (bit_vector)
        requires
            r == x & mask,
            mask == 0 || mask == 0xffff_ffff_ffff_ffffu64,
    ;
    r
}

} // verus!
