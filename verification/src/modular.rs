//! Facts about residues modulo an odd modulus and about the Montgomery
//! radix, used to state and prove what the limb routines compute.
use vstd::prelude::*;
use vstd::arithmetic::div_mod::{
    lemma_fundamental_div_mod, lemma_fundamental_div_mod_converse, lemma_mod_bound,
    lemma_mul_mod_noop_general, lemma_mul_mod_noop_left, lemma_mul_mod_noop_right, lemma_small_mod,
    lemma_add_mod_noop, lemma_sub_mod_noop,
};
use vstd::arithmetic::mul::{lemma_mul_is_associative, lemma_mul_is_commutative};
use vstd::arithmetic::power::{
    pow, lemma1_pow, lemma_pow_distributes, lemma_pow_mod_noop, lemma_pow1, lemma_pow_adds,
};
use vstd::arithmetic::power2::{pow2, lemma2_to64, lemma_pow2, lemma_pow2_adds};

verus! {

/// Two to the power 256: one more than the largest value of four limbs, and
/// the Montgomery radix.
pub open spec fn radix() -> int {
    0x1_0000_0000_0000_0000_0000_0000_0000_0000_0000_0000_0000_0000_0000_0000_0000_0000int
}

/// The inverse of the radix modulo an odd modulus `m`: the 256th power of
/// one half, where one half is `(m + 1) / 2`.
pub open spec fn radix_inv(m: int) -> int {
    pow((m + 1) / 2, 256) % m
}

/// The power `e` of `b`, modulo `m`.
pub open spec fn pow_mod(b: int, e: nat, m: int) -> int {
    pow(b, e) % m
}

/// The sum of two residues.
pub open spec fn add_mod(x: int, y: int, m: int) -> int {
    (x + y) % m
}

/// The difference of two residues.
pub open spec fn sub_mod(x: int, y: int, m: int) -> int {
    (x - y) % m
}

/// The product of two residues.
pub open spec fn mul_mod(x: int, y: int, m: int) -> int {
    (x * y) % m
}

/// The negative of a residue.
pub open spec fn neg_mod(x: int, m: int) -> int {
    (-x) % m
}

/// The Montgomery form of `v` modulo `m`: `v` times the radix, as a residue.
pub open spec fn mont_form(v: int, m: int) -> int {
    (v * radix()) % m
}

/// Montgomery reduction of `t` modulo `m`: `t` divided by the radix, as a
/// residue.
pub open spec fn mont_reduce(t: int, m: int) -> int {
    (t * radix_inv(m)) % m
}

/// `x` is `k * m + r` with `r` a residue: then `r` is `x` modulo `m`.
pub proof fn lemma_mod_from_parts(x: int, m: int, k: int, r: int)
    requires
        0 <= r < m,
        x == k * m + r,
    ensures
        x % m == r,
{
    lemma_fundamental_div_mod_converse(x, m, k, r);
}

/// The radix is the 256th power of two.
pub proof fn lemma_radix_is_pow2()
    ensures
        radix() == pow(2, 256),
{
    lemma2_to64();
    lemma_pow2_adds(64, 64);
    assert(pow2(128) == 0x1_0000_0000_0000_0000_0000_0000_0000_0000int);
    lemma_pow2_adds(128, 128);
    assert(pow2(256) == radix());
    lemma_pow2(256);
}

/// The radix times its inverse is one modulo an odd modulus above one.
pub proof fn lemma_radix_inv(m: int)
    requires
        m > 1,
        m % 2 == 1,
    ensures
        0 <= radix_inv(m) < m,
        (radix() * radix_inv(m)) % m == 1,
{
    let h = (m + 1) / 2;
    assert(2 * h == m + 1);
    lemma_mod_bound(pow(h, 256), m);
    lemma_radix_is_pow2();
    lemma_pow_distributes(2, h, 256);
    assert(pow(2 * h, 256) == radix() * pow(h, 256));
    lemma_mod_from_parts(2 * h, m, 1, 1);
    lemma_pow_mod_noop(2 * h, 256, m);
    lemma1_pow(256);
    lemma_small_mod(1, m as nat);
    assert((radix() * pow(h, 256)) % m == 1);
    lemma_mul_mod_noop_right(radix(), pow(h, 256), m);
}

/// Montgomery reduction undoes a multiplication by the radix: a residue `v`
/// whose multiple by the radix is congruent to `t` is the reduction of `t`.
pub proof fn lemma_mont_reduce_unique(v: int, t: int, m: int)
    requires
        m > 1,
        m % 2 == 1,
        0 <= v < m,
        (v * radix()) % m == t % m,
    ensures
        v == mont_reduce(t, m),
{
    let ri = radix_inv(m);
    lemma_radix_inv(m);
    lemma_small_mod(v as nat, m as nat);
    // v == v * (radix * ri) mod m
    lemma_mul_mod_noop_right(v, radix() * ri, m);
    assert((v * (radix() * ri)) % m == (v * 1) % m);
    lemma_mul_is_associative(v, radix(), ri);
    // (v * radix) * ri == t * ri mod m
    lemma_mul_mod_noop_left(v * radix(), ri, m);
    lemma_mul_mod_noop_left(t, ri, m);
}

/// Montgomery multiplication multiplies the values behind two residues:
/// reducing the reduced product gives the product of the reductions.
pub proof fn lemma_mont_reduce_product(x: int, y: int, m: int)
    requires
        m > 0,
    ensures
        mont_reduce(mont_reduce(x * y, m), m) == (mont_reduce(x, m) * mont_reduce(y, m)) % m,
{
    let ri = radix_inv(m);
    lemma_mul_mod_noop_left((x * y) * ri, ri, m);
    lemma_mul_mod_noop_general(x * ri, y * ri, m);
    assert(((x * y) * ri) * ri == (x * ri) * (y * ri)) by (nonlinear_arith);
}

/// Reduction commutes with addition of residues.
pub proof fn lemma_mont_reduce_sum(x: int, y: int, m: int)
    requires
        m > 0,
    ensures
        mont_reduce((x + y) % m, m) == (mont_reduce(x, m) + mont_reduce(y, m)) % m,
{
    let ri = radix_inv(m);
    lemma_mul_mod_noop_left(x + y, ri, m);
    assert((x + y) * ri == x * ri + y * ri) by (nonlinear_arith);
    lemma_add_mod_noop(x * ri, y * ri, m);
}

/// Reduction commutes with subtraction of residues.
pub proof fn lemma_mont_reduce_difference(x: int, y: int, m: int)
    requires
        m > 0,
    ensures
        mont_reduce((x - y) % m, m) == (mont_reduce(x, m) - mont_reduce(y, m)) % m,
{
    let ri = radix_inv(m);
    lemma_mul_mod_noop_left(x - y, ri, m);
    assert((x - y) * ri == x * ri - y * ri) by (nonlinear_arith);
    lemma_sub_mod_noop(x * ri, y * ri, m);
}

/// The radix modulo `m` stands for one.
pub proof fn lemma_mont_reduce_one(m: int)
    requires
        m > 1,
        m % 2 == 1,
    ensures
        mont_reduce(radix() % m, m) == 1,
{
    lemma_radix_inv(m);
    lemma_mul_mod_noop_left(radix(), radix_inv(m), m);
}

/// Reduction undoes the Montgomery form.
pub proof fn lemma_reduce_of_form(v: int, m: int)
    requires
        m > 1,
        m % 2 == 1,
    ensures
        mont_reduce(mont_form(v, m), m) == v % m,
{
    lemma_mod_bound(v, m);
    lemma_mod_bound(v * radix(), m);
    lemma_mul_mod_noop_left(v, radix(), m);
    lemma_small_mod(mont_form(v, m) as nat, m as nat);
    lemma_mont_reduce_unique(v % m, mont_form(v, m), m);
}

/// The Montgomery form undoes reduction.
pub proof fn lemma_form_of_reduce(l: int, m: int)
    requires
        m > 1,
        m % 2 == 1,
        0 <= l < m,
    ensures
        mont_form(mont_reduce(l, m), m) == l,
        0 <= mont_reduce(l, m) < m,
{
    let ri = radix_inv(m);
    lemma_radix_inv(m);
    lemma_mod_bound(l * ri, m);
    lemma_mul_mod_noop_left(l * ri, radix(), m);
    lemma_mul_is_associative(l, ri, radix());
    lemma_mul_is_commutative(ri, radix());
    lemma_mul_mod_noop_right(l, radix() * ri, m);
    assert((l * 1) % m == l) by {
        lemma_small_mod(l as nat, m as nat);
    }
}

/// Multiplying by the second power of the radix and reducing twice gives
/// the residue of the factor: the Montgomery form, reduced.
pub proof fn lemma_lift_then_reduce(raw: int, m: int)
    requires
        m > 1,
        m % 2 == 1,
    ensures
        mont_reduce(raw * ((radix() * radix()) % m), m) == mont_form(raw, m),
        mont_reduce(mont_reduce(raw * ((radix() * radix()) % m), m), m) == raw % m,
{
    let ri = radix_inv(m);
    let rr = (radix() * radix()) % m;
    lemma_radix_inv(m);
    // raw * rr * ri == raw * radix (mod m)
    lemma_mul_is_associative(raw, rr, ri);
    lemma_mul_mod_noop_right(raw, rr * ri, m);
    lemma_mul_mod_noop_left(radix() * radix(), ri, m);
    lemma_mul_is_associative(radix(), radix(), ri);
    lemma_mul_mod_noop_right(radix(), radix() * ri, m);
    assert((radix() * 1) % m == radix() % m);
    assert((rr * ri) % m == radix() % m);
    lemma_mul_mod_noop_right(raw, radix(), m);
    lemma_reduce_of_form(raw, m);
}

/// The wide reduction: the low half lifted by the second power of the radix
/// plus the high half lifted by the third, reduced, stands for the whole
/// 512-bit value.
pub proof fn lemma_wide_reduce(lo: int, hi: int, m: int)
    requires
        m > 1,
        m % 2 == 1,
    ensures
        mont_reduce(
            (mont_reduce(lo * ((radix() * radix()) % m), m) + mont_reduce(
                hi * ((radix() * radix() * radix()) % m),
                m,
            )) % m,
            m,
        ) == (lo + hi * radix()) % m,
{
    let ri = radix_inv(m);
    let r2 = (radix() * radix()) % m;
    let r3 = (radix() * radix() * radix()) % m;
    let a = mont_reduce(lo * r2, m);
    let b = mont_reduce(hi * r3, m);
    lemma_mont_reduce_sum(a, b, m);
    // the low half stands for lo
    lemma_lift_then_reduce(lo, m);
    // the high half: r3 is r2 times the radix, so b is hi * r2
    lemma_mul_mod_noop_left(radix() * radix(), radix(), m);
    lemma_mul_mod_noop_right(hi, r2 * radix(), m);
    lemma_mul_mod_noop_right(hi, r3, m);
    lemma_mul_is_associative(hi, r2, radix());
    lemma_mul_mod_noop_left(hi * r3, ri, m);
    lemma_mul_mod_noop_left((hi * r2) * radix(), ri, m);
    lemma_reduce_of_form(hi * r2, m);
    assert(b == (hi * r2) % m);
    // and b stands for hi times the radix
    lemma_mul_mod_noop_left(hi * r2, ri, m);
    lemma_lift_then_reduce(hi, m);
    assert(mont_reduce(b, m) == mont_form(hi, m));
    lemma_add_mod_noop(lo, hi * radix(), m);
}

/// One step of square-and-multiply: squaring doubles the exponent, and a
/// further multiplication by the base adds one to it.
pub proof fn lemma_pow_mod_step(x: int, n: nat, m: int)
    requires
        m > 0,
    ensures
        mul_mod(pow_mod(x, n, m), pow_mod(x, n, m), m) == pow_mod(x, 2 * n, m),
        mul_mod(pow_mod(x, 2 * n, m), x, m) == pow_mod(x, 2 * n + 1, m),
{
    lemma_pow_adds(x, n, n);
    lemma_mul_mod_noop_general(pow(x, n), pow(x, n), m);
    lemma_pow1(x);
    lemma_pow_adds(x, 2 * n, 1);
    lemma_mul_mod_noop_left(pow(x, 2 * n), x, m);
}

/// A residue and its negative have the same square.
pub proof fn lemma_neg_square(x: int, m: int)
    requires
        m > 0,
    ensures
        mul_mod(neg_mod(x, m), neg_mod(x, m), m) == mul_mod(x, x, m),
{
    lemma_mul_mod_noop_general(-x, -x, m);
    assert((-x) * (-x) == x * x) by (nonlinear_arith);
}

/// The negative of a multiple of `m` is a multiple of `m`.
pub proof fn lemma_neg_multiple(x: int, m: int)
    requires
        m > 0,
    ensures
        x % m == 0 <==> (-x) % m == 0,
{
    lemma_fundamental_div_mod(x, m);
    lemma_fundamental_div_mod(-x, m);
    if x % m == 0 {
        let k = x / m;
        assert(-x == (-k) * m + 0) by (nonlinear_arith)
            requires
                x == m * k,
        ;
        lemma_mod_from_parts(-x, m, -k, 0);
    }
    if (-x) % m == 0 {
        let k = (-x) / m;
        assert(x == (-k) * m + 0) by (nonlinear_arith)
            requires
                -x == m * k,
        ;
        lemma_mod_from_parts(x, m, -k, 0);
    }
}

} // verus!
