//! Arithmetic on 256-bit values held as four 64-bit limbs, least significant
//! limb first, modulo a modulus that is passed in the same form.
use vstd::prelude::*;
use vstd::arithmetic::div_mod::{
    lemma_small_mod, lemma_mul_mod_noop_left, lemma_mod_multiples_basic, lemma_add_mod_noop,
    lemma_mod_multiples_vanish,
};
use vstd::arithmetic::mul::lemma_mul_is_commutative;
use crate::math::{adc, mac, sbb, select};
use vstd::arithmetic::power::{lemma_pow0, lemma0_pow};
use vstd::arithmetic::power2::{pow2, lemma_pow2_pos};
use vstd::arithmetic::div_mod::lemma_div_pos_is_pos;
use crate::bits::{bit_of, bit_at, lemma_prefix_step, lemma_no_high_bits};
use crate::modular::{
    radix, mont_reduce, lemma_mod_from_parts, lemma_mont_reduce_unique, lemma_mont_reduce_product,
    lemma_mont_reduce_one, lemma_radix_is_pow2, lemma_pow_mod_step, pow_mod,
};

verus! {

/// The integer that four limbs stand for.
pub open spec fn limbs4(a: [u64; 4]) -> int {
    a[0] + a[1] * 0x1_0000_0000_0000_0000int + a[2] * 0x1_0000_0000_0000_0000_0000_0000_0000_0000int
        + a[3] * 0x1_0000_0000_0000_0000_0000_0000_0000_0000_0000_0000_0000_0000int
}

/// The integer that eight limbs stand for.
pub open spec fn limbs8(a: [u64; 8]) -> int {
    limbs4([a[0], a[1], a[2], a[3]]) + limbs4([a[4], a[5], a[6], a[7]]) * radix()
}

/// The four limbs of an integer below the radix.
pub open spec fn limbs_of(n: int) -> [u64; 4] {
    [
        (n % 0x1_0000_0000_0000_0000int) as u64,
        ((n / 0x1_0000_0000_0000_0000int) % 0x1_0000_0000_0000_0000int) as u64,
        ((n / 0x1_0000_0000_0000_0000_0000_0000_0000_0000int) % 0x1_0000_0000_0000_0000int) as u64,
        ((n / 0x1_0000_0000_0000_0000_0000_0000_0000_0000_0000_0000_0000_0000int)
            % 0x1_0000_0000_0000_0000int) as u64,
    ]
}

/// The limbs of an integer below the radix stand for that integer.
pub proof fn lemma_limbs_of(n: int)
    requires
        0 <= n < radix(),
    ensures
        limbs4(limbs_of(n)) == n,
{
}

/// Four limbs are determined by the integer they stand for.
pub proof fn lemma_limbs_unique(a: [u64; 4])
    ensures
        limbs_of(limbs4(a)) == a,
        0 <= limbs4(a) < radix(),
{
    let v = limbs4(a);
    let w = 0x1_0000_0000_0000_0000int;
    let h2 = a[2] + w * a[3];
    let h1 = a[1] + w * h2;
    lemma_mod_from_parts(v, w, h1, a[0] as int);
    vstd::arithmetic::div_mod::lemma_fundamental_div_mod_converse(v, w, h1, a[0] as int);
    vstd::arithmetic::div_mod::lemma_fundamental_div_mod_converse(
        v,
        0x1_0000_0000_0000_0000_0000_0000_0000_0000int,
        h2,
        a[0] + w * a[1],
    );
    vstd::arithmetic::div_mod::lemma_fundamental_div_mod_converse(
        v,
        0x1_0000_0000_0000_0000_0000_0000_0000_0000_0000_0000_0000_0000int,
        a[3] as int,
        a[0] + w * a[1] + 0x1_0000_0000_0000_0000_0000_0000_0000_0000int * a[2],
    );
    vstd::arithmetic::div_mod::lemma_fundamental_div_mod_converse(h1, w, h2, a[1] as int);
    vstd::arithmetic::div_mod::lemma_fundamental_div_mod_converse(h2, w, a[3] as int, a[2] as int);
    lemma_small_mod(a[3] as nat, w as nat);
    assert(limbs_of(v)[0] == a[0]);
    assert(limbs_of(v)[1] == a[1]);
    assert(limbs_of(v)[2] == a[2]);
    assert(limbs_of(v)[3] == a[3]);
    assert(limbs_of(v) =~= a);
}

/// A modulus below half the radix, so that the sum of two reduced values
/// still fits in four limbs.
pub open spec fn narrow(p: [u64; 4]) -> bool {
    0 < limbs4(p) && 2 * limbs4(p) <= radix()
}

/// What Montgomery reduction asks of a modulus and its word inverse: the
/// modulus is above one and below half the radix, and `inv` is the negated
/// inverse of its lowest limb modulo the word size (so the modulus is odd).
pub open spec fn montgomery_ready(p: [u64; 4], inv: u64) -> bool {
    narrow(p) && limbs4(p) > 1 && (p[0] * inv + 1) % 0x1_0000_0000_0000_0000int == 0
}

/// A modulus with a word inverse is odd.
pub proof fn lemma_ready_modulus_is_odd(p: [u64; 4], inv: u64)
    requires
        montgomery_ready(p, inv),
    ensures
        limbs4(p) % 2 == 1,
{
    let p0 = p[0] as int;
    let i = inv as int;
    if p0 % 2 == 0 {
        let j = p0 / 2;
        assert(p0 * i == 2 * (j * i)) by (nonlinear_arith)
            requires
                p0 == 2 * j,
        ;
        let k = (p0 * i + 1) / 0x1_0000_0000_0000_0000int;
        assert(p0 * i + 1 == k * 0x1_0000_0000_0000_0000int);
    }
}

/// A multiple of a four-limb value, limb by limb.
pub proof fn lemma_scale_limbs4(k: int, b: [u64; 4])
    ensures
        k * limbs4(b) == k * b[0] + (k * b[1]) * 0x1_0000_0000_0000_0000int + (k * b[2])
            * 0x1_0000_0000_0000_0000_0000_0000_0000_0000int + (k * b[3])
            * 0x1_0000_0000_0000_0000_0000_0000_0000_0000_0000_0000_0000_0000int,
{
    let (b0, b1, b2, b3) = (b[0] as int, b[1] as int, b[2] as int, b[3] as int);
    assert(k * (b0 + b1 * 0x1_0000_0000_0000_0000int + b2
        * 0x1_0000_0000_0000_0000_0000_0000_0000_0000int + b3
        * 0x1_0000_0000_0000_0000_0000_0000_0000_0000_0000_0000_0000_0000int) == k * b0 + (k * b1)
        * 0x1_0000_0000_0000_0000int + (k * b2) * 0x1_0000_0000_0000_0000_0000_0000_0000_0000int + (k
        * b3) * 0x1_0000_0000_0000_0000_0000_0000_0000_0000_0000_0000_0000_0000int)
        by (nonlinear_arith);
}

/// The product of two words is at most the square of the largest word.
pub proof fn lemma_word_product(x: u64, y: u64)
    ensures
        0 <= x * y <= 0xffff_ffff_ffff_fffe_0000_0000_0000_0001,
{
    assert(0 <= x * y <= 0xffff_ffff_ffff_ffff * 0xffff_ffff_ffff_ffff) by (nonlinear_arith)
        requires
            0 <= x <= 0xffff_ffff_ffff_ffff,
            0 <= y <= 0xffff_ffff_ffff_ffff,
    ;
}

/// Limb-wise `a - b`: the difference modulo the radix and a borrow word that
/// is all ones when `a < b` and zero otherwise.
pub fn sub_limbs(a: [u64; 4], b: [u64; 4]) -> (r: ([u64; 4], u64))
    ensures
        r.1 == 0 || r.1 == u64::MAX,
        (r.1 == 0) == (limbs4(a) >= limbs4(b)),
        limbs4(r.0) == limbs4(a) - limbs4(b) + (if r.1 == 0 { 0 } else { radix() }),
{
    let (l0, brw) = sbb(a[0], b[0], 0);
    let (l1, brw) = sbb(a[1], b[1], brw);
    let (l2, brw) = sbb(a[2], b[2], brw);
    let (l3, brw) = sbb(a[3], b[3], brw);
    ([l0, l1, l2, l3], brw)
}

/// Adds `p` to `l` when the mask is all ones and nothing when it is zero,
/// modulo the radix.
fn add_masked(l: [u64; 4], p: [u64; 4], mask: u64) -> (r: [u64; 4])
    requires
        mask == 0 || mask == u64::MAX,
    ensures
        limbs4(r) == (limbs4(l) + (if mask == 0 { 0 } else { limbs4(p) })) % radix(),
{
    let (l0, c) = adc(l[0], select(p[0], mask), 0);
    let (l1, c) = adc(l[1], select(p[1], mask), c);
    let (l2, c) = adc(l[2], select(p[2], mask), c);
    let (l3, c) = adc(l[3], select(p[3], mask), c);
    let r = [l0, l1, l2, l3];
    proof {
        let sum = limbs4(l) + (if mask == 0 { 0 } else { limbs4(p) });
        assert(sum == c * radix() + limbs4(r));
        lemma_mod_from_parts(sum, radix(), c as int, limbs4(r));
    }
    r
}

/// Brings a value below twice the modulus into the range of residues.
fn reduce_once(l: [u64; 4], p: [u64; 4]) -> (r: [u64; 4])
    requires
        limbs4(l) < 2 * limbs4(p),
    ensures
        limbs4(r) < limbs4(p),
        limbs4(r) == limbs4(l) % limbs4(p),
        limbs4(r) == (if limbs4(l) >= limbs4(p) { limbs4(l) - limbs4(p) } else { limbs4(l) }),
{
    let (d, brw) = sub_limbs(l, p);
    let r = add_masked(d, p, brw);
    proof {
        if brw == 0 {
            lemma_small_mod(limbs4(d) as nat, radix() as nat);
            lemma_mod_from_parts(limbs4(l), limbs4(p), 1, limbs4(l) - limbs4(p));
        } else {
            lemma_mod_from_parts(limbs4(d) + limbs4(p), radix(), 1, limbs4(l));
            lemma_small_mod(limbs4(l) as nat, limbs4(p) as nat);
        }
    }
    r
}

/// Modular addition: `(a + b) mod p` for residues `a` and `b`.
pub fn add(a: [u64; 4], b: [u64; 4], p: [u64; 4]) -> (r: [u64; 4])
    requires
        narrow(p),
        limbs4(a) < limbs4(p),
        limbs4(b) < limbs4(p),
    ensures
        limbs4(r) < limbs4(p),
        limbs4(r) == (limbs4(a) + limbs4(b)) % limbs4(p),
{
    let (l0, c) = adc(a[0], b[0], 0);
    let (l1, c) = adc(a[1], b[1], c);
    let (l2, c) = adc(a[2], b[2], c);
    let (l3, c) = adc(a[3], b[3], c);
    let sum = [l0, l1, l2, l3];
    assert(limbs4(sum) + c * radix() == limbs4(a) + limbs4(b));
    reduce_once(sum, p)
}

/// Modular subtraction: `(a - b) mod p` for residues `a` and `b`.
pub fn sub(a: [u64; 4], b: [u64; 4], p: [u64; 4]) -> (r: [u64; 4])
    requires
        limbs4(a) < limbs4(p),
        limbs4(b) < limbs4(p),
    ensures
        limbs4(r) < limbs4(p),
        limbs4(r) == (limbs4(a) - limbs4(b)) % limbs4(p),
{
    let (d, brw) = sub_limbs(a, b);
    let r = add_masked(d, p, brw);
    proof {
        if brw == 0 {
            lemma_small_mod(limbs4(d) as nat, radix() as nat);
            lemma_small_mod(limbs4(d) as nat, limbs4(p) as nat);
        } else {
            let v = limbs4(a) - limbs4(b) + limbs4(p);
            lemma_mod_from_parts(limbs4(d) + limbs4(p), radix(), 1, v);
            lemma_mod_from_parts(limbs4(a) - limbs4(b), limbs4(p), -1, v);
        }
    }
    r
}

/// One limb of a left shift by one bit: `x` shifted, with the top bit of
/// the limb below moved in.
fn shl1(x: u64, below: u64) -> (r: u64)
    ensures
        r == (x % 0x8000_0000_0000_0000) * 2 + below / 0x8000_0000_0000_0000,
{
    let r = x << 1 | below >> 63;
    assert(r == (x % 0x8000_0000_0000_0000) * 2 + below / 0x8000_0000_0000_0000) by (bit_vector)
        requires
            r == x << 1 | below >> 63,
    ;
    r
}

/// Modular doubling: `2 * a mod p` for a residue `a`.
pub fn double(a: [u64; 4], p: [u64; 4]) -> (r: [u64; 4])
    requires
        narrow(p),
        limbs4(a) < limbs4(p),
    ensures
        limbs4(r) < limbs4(p),
        limbs4(r) == (2 * limbs4(a)) % limbs4(p),
{
    let l0 = shl1(a[0], 0);
    let l1 = shl1(a[1], a[0]);
    let l2 = shl1(a[2], a[1]);
    let l3 = shl1(a[3], a[2]);
    let twice = [l0, l1, l2, l3];
    assert(limbs4(twice) == 2 * limbs4(a));
    reduce_once(twice, p)
}

/// Modular negation: zero for zero, `p - a` otherwise.
pub fn neg(a: [u64; 4], p: [u64; 4]) -> (r: [u64; 4])
    requires
        limbs4(a) < limbs4(p),
    ensures
        limbs4(r) < limbs4(p),
        limbs4(r) == (-limbs4(a)) % limbs4(p),
        limbs4(r) == (if limbs4(a) == 0 { 0 } else { limbs4(p) - limbs4(a) }),
{
    if (a[0] | a[1] | a[2] | a[3]) == 0 {
        proof {
            let (a0, a1, a2, a3) = (a[0], a[1], a[2], a[3]);
            assert(a0 == 0 && a1 == 0 && a2 == 0 && a3 == 0) by (bit_vector)
                requires
                    (a0 | a1 | a2 | a3) == 0,
            ;
            lemma_small_mod(0, limbs4(p) as nat);
        }
        a
    } else {
        proof {
            let (a0, a1, a2, a3) = (a[0], a[1], a[2], a[3]);
            assert(a0 != 0 || a1 != 0 || a2 != 0 || a3 != 0) by (bit_vector)
                requires
                    (a0 | a1 | a2 | a3) != 0,
            ;
        }
        let (d, brw) = sub_limbs(p, a);
        proof {
            lemma_mod_from_parts(-limbs4(a), limbs4(p), -1, limbs4(p) - limbs4(a));
        }
        d
    }
}

/// Adding `k * p0` to a limb clears it when `k` is the limb times the word
/// inverse of the modulus.
proof fn lemma_low_limb_vanishes(l0: u64, p0: u64, inv: u64, k: u64)
    requires
        k == (l0 * inv) % 0x1_0000_0000_0000_0000int,
        (p0 * inv + 1) % 0x1_0000_0000_0000_0000int == 0,
    ensures
        (l0 + k * p0) % 0x1_0000_0000_0000_0000int == 0,
{
    let w = 0x1_0000_0000_0000_0000int;
    let (l, p, i) = (l0 as int, p0 as int, inv as int);
    lemma_mul_mod_noop_left(l * i, p, w);
    lemma_add_mod_noop(l, k * p, w);
    lemma_add_mod_noop(l, (l * i) * p, w);
    let c = (p * i + 1) / w;
    assert(p * i + 1 == c * w);
    assert(l + (l * i) * p == (l * c) * w) by (nonlinear_arith)
        requires
            p * i + 1 == c * w,
    ;
    lemma_mod_multiples_basic(l * c, w);
}

/// One round of Montgomery reduction on a window of four limbs: adds the
/// multiple `k * p` that clears the lowest limb and shifts the window down
/// by one limb. Returns the new window and `k`.
fn mont_round(l: [u64; 4], p: [u64; 4], inv: u64) -> (r: ([u64; 4], u64))
    requires
        (p[0] * inv + 1) % 0x1_0000_0000_0000_0000int == 0,
    ensures
        limbs4(l) + r.1 * limbs4(p) == 0x1_0000_0000_0000_0000int * limbs4(r.0),
{
    let k = l[0].wrapping_mul(inv);
    let (z, d) = mac(l[0], k, p[0], 0);
    proof {
        lemma_low_limb_vanishes(l[0], p[0], inv, k);
        lemma_mod_from_parts(l[0] + k * p[0], 0x1_0000_0000_0000_0000int, d as int, z as int);
    }
    let (n1, d) = mac(l[1], k, p[1], d);
    let (n2, d) = mac(l[2], k, p[2], d);
    let (n3, d) = mac(l[3], k, p[3], d);
    proof {
        lemma_scale_limbs4(k as int, p);
    }
    ([n1, n2, n3, d], k)
}

/// Montgomery reduction of an eight-limb value below `p` times the radix:
/// the value divided by the radix, modulo `p`.
pub fn mont(a: [u64; 8], p: [u64; 4], inv: u64) -> (r: [u64; 4])
    requires
        montgomery_ready(p, inv),
        limbs8(a) < limbs4(p) * radix(),
    ensures
        limbs4(r) < limbs4(p),
        limbs4(r) == mont_reduce(limbs8(a), limbs4(p)),
{
    let (w1, k0) = mont_round([a[0], a[1], a[2], a[3]], p, inv);
    let (l4, e) = adc(a[4], w1[3], 0);
    let (w2, k1) = mont_round([w1[0], w1[1], w1[2], l4], p, inv);
    let (l5, e) = adc(a[5], e, w2[3]);
    let (w3, k2) = mont_round([w2[0], w2[1], w2[2], l5], p, inv);
    let (l6, e) = adc(a[6], e, w3[3]);
    let (w4, k3) = mont_round([w3[0], w3[1], w3[2], l6], p, inv);
    let ghost k = k0 + k1 * 0x1_0000_0000_0000_0000int + k2
        * 0x1_0000_0000_0000_0000_0000_0000_0000_0000int + k3
        * 0x1_0000_0000_0000_0000_0000_0000_0000_0000_0000_0000_0000_0000int;
    let ghost top = a[7] + e + w4[3];
    let ghost v = w4[0] + w4[1] * 0x1_0000_0000_0000_0000int + w4[2]
        * 0x1_0000_0000_0000_0000_0000_0000_0000_0000int + top
        * 0x1_0000_0000_0000_0000_0000_0000_0000_0000_0000_0000_0000_0000int;
    proof {
        let m = limbs4(p);
        assert(k * m == k0 * m + (k1 * m) * 0x1_0000_0000_0000_0000int + (k2 * m)
            * 0x1_0000_0000_0000_0000_0000_0000_0000_0000int + (k3 * m)
            * 0x1_0000_0000_0000_0000_0000_0000_0000_0000_0000_0000_0000_0000int) by (nonlinear_arith)
            requires
                k == k0 + k1 * 0x1_0000_0000_0000_0000int + k2
                    * 0x1_0000_0000_0000_0000_0000_0000_0000_0000int + k3
                    * 0x1_0000_0000_0000_0000_0000_0000_0000_0000_0000_0000_0000_0000int,
        ;
        assert(limbs8(a) + k * m == v * radix());
        assert(k * m < radix() * m) by (nonlinear_arith)
            requires
                0 <= k < radix(),
                m > 0,
        ;
        assert(v < 2 * m) by (nonlinear_arith)
            requires
                v * radix() < 2 * (m * radix()),
                radix() > 0,
        ;
    }
    let l7 = a[7] + e + w4[3];
    let r = reduce_once([w4[0], w4[1], w4[2], l7], p);
    proof {
        let m = limbs4(p);
        lemma_ready_modulus_is_odd(p, inv);
        lemma_mul_mod_noop_left(v, radix(), m);
        lemma_mod_multiples_vanish(k, limbs8(a), m);
        lemma_mul_is_commutative(k, m);
        lemma_mont_reduce_unique(limbs4(r), limbs8(a), m);
    }
    r
}

/// The product of two four-limb values, limb by limb.
proof fn lemma_product_limbs4(a: [u64; 4], b: [u64; 4])
    ensures
        limbs4(a) * limbs4(b) == a[0] * limbs4(b) + (a[1] * limbs4(b)) * 0x1_0000_0000_0000_0000int
            + (a[2] * limbs4(b)) * 0x1_0000_0000_0000_0000_0000_0000_0000_0000int + (a[3] * limbs4(
            b,
        )) * 0x1_0000_0000_0000_0000_0000_0000_0000_0000_0000_0000_0000_0000int,
{
    let (a0, a1, a2, a3) = (a[0] as int, a[1] as int, a[2] as int, a[3] as int);
    let y = limbs4(b);
    assert((a0 + a1 * 0x1_0000_0000_0000_0000int + a2
        * 0x1_0000_0000_0000_0000_0000_0000_0000_0000int + a3
        * 0x1_0000_0000_0000_0000_0000_0000_0000_0000_0000_0000_0000_0000int) * y == a0 * y + (a1 * y)
        * 0x1_0000_0000_0000_0000int + (a2 * y) * 0x1_0000_0000_0000_0000_0000_0000_0000_0000int + (a3
        * y) * 0x1_0000_0000_0000_0000_0000_0000_0000_0000_0000_0000_0000_0000int)
        by (nonlinear_arith);
}

/// The square of a four-limb value: the squares of the limbs and twice the
/// products of two different limbs, each at its weight.
proof fn lemma_square_limbs4(a: [u64; 4])
    ensures
        limbs4(a) * limbs4(a) == a[0] * a[0] + (2 * (a[1] * a[0])) * 0x1_0000_0000_0000_0000int + (a[1]
            * a[1] + 2 * (a[2] * a[0])) * 0x1_0000_0000_0000_0000_0000_0000_0000_0000int + (2 * (a[3]
            * a[0] + a[1] * a[2])) * 0x1_0000_0000_0000_0000_0000_0000_0000_0000_0000_0000_0000_0000int
            + (a[2] * a[2] + 2 * (a[1] * a[3]))
            * 0x1_0000_0000_0000_0000_0000_0000_0000_0000_0000_0000_0000_0000_0000_0000_0000_0000int
            + (2 * (a[2] * a[3]))
            * 0x1_0000_0000_0000_0000_0000_0000_0000_0000_0000_0000_0000_0000_0000_0000_0000_0000_0000_0000_0000_0000int
            + (a[3] * a[3])
            * 0x1_0000_0000_0000_0000_0000_0000_0000_0000_0000_0000_0000_0000_0000_0000_0000_0000_0000_0000_0000_0000_0000_0000_0000_0000int,
{
    lemma_scale_limbs4(a[0] as int, a);
    lemma_scale_limbs4(a[1] as int, a);
    lemma_scale_limbs4(a[2] as int, a);
    lemma_scale_limbs4(a[3] as int, a);
    lemma_product_limbs4(a, a);
    lemma_mul_is_commutative(a[0] as int, a[1] as int);
    lemma_mul_is_commutative(a[0] as int, a[2] as int);
    lemma_mul_is_commutative(a[0] as int, a[3] as int);
    lemma_mul_is_commutative(a[1] as int, a[2] as int);
    lemma_mul_is_commutative(a[1] as int, a[3] as int);
    lemma_mul_is_commutative(a[2] as int, a[3] as int);
}

/// A product with one factor below the modulus is below the modulus times
/// the radix.
proof fn lemma_product_reducible(x: int, y: int, m: int)
    requires
        0 <= x < radix(),
        0 <= y < radix(),
        m > 0,
        x < m || y < m,
    ensures
        0 <= x * y < m * radix(),
{
    assert(0 <= x * y < m * radix()) by (nonlinear_arith)
        requires
            0 <= x < radix(),
            0 <= y < radix(),
            m > 0,
            x < m || y < m,
    ;
}

/// Adds the multiple `k * b` to a window of four limbs. Returns the low four
/// limbs of the sum and the limb that overflows them.
fn mul_row(acc: [u64; 4], k: u64, b: [u64; 4]) -> (r: ([u64; 4], u64))
    ensures
        limbs4(acc) + k * limbs4(b) == limbs4(r.0) + r.1 * radix(),
{
    let (n0, c) = mac(acc[0], k, b[0], 0);
    let (n1, c) = mac(acc[1], k, b[1], c);
    let (n2, c) = mac(acc[2], k, b[2], c);
    let (n3, c) = mac(acc[3], k, b[3], c);
    proof {
        lemma_scale_limbs4(k as int, b);
    }
    ([n0, n1, n2, n3], c)
}

/// Montgomery multiplication: the product of `a` and `b` divided by the
/// radix, modulo `p`. One of the factors has to be below the modulus.
pub fn mul(a: [u64; 4], b: [u64; 4], p: [u64; 4], inv: u64) -> (r: [u64; 4])
    requires
        montgomery_ready(p, inv),
        limbs4(a) < limbs4(p) || limbs4(b) < limbs4(p),
    ensures
        limbs4(r) < limbs4(p),
        limbs4(r) == mont_reduce(limbs4(a) * limbs4(b), limbs4(p)),
{
    let (w0, c0) = mul_row([0, 0, 0, 0], a[0], b);
    let (w1, c1) = mul_row([w0[1], w0[2], w0[3], c0], a[1], b);
    let (w2, c2) = mul_row([w1[1], w1[2], w1[3], c1], a[2], b);
    let (w3, c3) = mul_row([w2[1], w2[2], w2[3], c2], a[3], b);
    let t = [w0[0], w1[0], w2[0], w3[0], w3[1], w3[2], w3[3], c3];
    proof {
        lemma_product_limbs4(a, b);
        assert(limbs8(t) == limbs4(a) * limbs4(b));
        lemma_product_reducible(limbs4(a), limbs4(b), limbs4(p));
    }
    mont(t, p, inv)
}

/// The top bit of a word, as a word.
fn top_bit(x: u64) -> (r: u64)
    ensures
        r == x / 0x8000_0000_0000_0000,
{
    let r = x >> 63;
    assert(r == x / 0x8000_0000_0000_0000) by (bit_vector)
        requires
            r == x >> 63,
    ;
    r
}

/// The sum of the products of two different limbs of `a`, each at its
/// weight, as the six limbs of weight one word and up.
fn cross_products(a: [u64; 4]) -> (r: [u64; 6])
    ensures
        r[0] + r[1] * 0x1_0000_0000_0000_0000int + r[2] * 0x1_0000_0000_0000_0000_0000_0000_0000_0000int
            + r[3] * 0x1_0000_0000_0000_0000_0000_0000_0000_0000_0000_0000_0000_0000int + r[4]
            * 0x1_0000_0000_0000_0000_0000_0000_0000_0000_0000_0000_0000_0000_0000_0000_0000_0000int
            + r[5]
            * 0x1_0000_0000_0000_0000_0000_0000_0000_0000_0000_0000_0000_0000_0000_0000_0000_0000_0000_0000_0000_0000int
            == a[1] * a[0] + (a[2] * a[0]) * 0x1_0000_0000_0000_0000int + (a[3] * a[0] + a[1] * a[2])
            * 0x1_0000_0000_0000_0000_0000_0000_0000_0000int + (a[1] * a[3])
            * 0x1_0000_0000_0000_0000_0000_0000_0000_0000_0000_0000_0000_0000int + (a[2] * a[3])
            * 0x1_0000_0000_0000_0000_0000_0000_0000_0000_0000_0000_0000_0000_0000_0000_0000_0000int,
{
    proof {
        lemma_word_product(a[1], a[0]);
        lemma_word_product(a[2], a[0]);
        lemma_word_product(a[3], a[0]);
        lemma_word_product(a[1], a[2]);
        lemma_word_product(a[1], a[3]);
        lemma_word_product(a[2], a[3]);
    }
    let (l1, c) = mac(0, a[1], a[0], 0);
    let (l2, c) = mac(0, a[2], a[0], c);
    let (l3, c) = mac(0, a[3], a[0], c);
    let (l4, c) = mac(0, a[1], a[3], c);
    let (l5, l6) = mac(0, a[2], a[3], c);
    let (l3, c) = mac(l3, a[1], a[2], 0);
    let (l4, c) = adc(l4, 0, c);
    let (l5, c) = adc(l5, 0, c);
    let l6 = l6 + c;
    [l1, l2, l3, l4, l5, l6]
}

/// Twice a six-limb value, as seven limbs.
fn double_wide(l: [u64; 6]) -> (r: [u64; 7])
    ensures
        r[0] + r[1] * 0x1_0000_0000_0000_0000int + r[2] * 0x1_0000_0000_0000_0000_0000_0000_0000_0000int
            + r[3] * 0x1_0000_0000_0000_0000_0000_0000_0000_0000_0000_0000_0000_0000int + r[4]
            * 0x1_0000_0000_0000_0000_0000_0000_0000_0000_0000_0000_0000_0000_0000_0000_0000_0000int
            + r[5]
            * 0x1_0000_0000_0000_0000_0000_0000_0000_0000_0000_0000_0000_0000_0000_0000_0000_0000_0000_0000_0000_0000int
            + r[6]
            * 0x1_0000_0000_0000_0000_0000_0000_0000_0000_0000_0000_0000_0000_0000_0000_0000_0000_0000_0000_0000_0000_0000_0000_0000_0000int
            == 2 * (l[0] + l[1] * 0x1_0000_0000_0000_0000int + l[2]
            * 0x1_0000_0000_0000_0000_0000_0000_0000_0000int + l[3]
            * 0x1_0000_0000_0000_0000_0000_0000_0000_0000_0000_0000_0000_0000int + l[4]
            * 0x1_0000_0000_0000_0000_0000_0000_0000_0000_0000_0000_0000_0000_0000_0000_0000_0000int
            + l[5]
            * 0x1_0000_0000_0000_0000_0000_0000_0000_0000_0000_0000_0000_0000_0000_0000_0000_0000_0000_0000_0000_0000int),
{
    let d6 = top_bit(l[5]);
    let d5 = shl1(l[5], l[4]);
    let d4 = shl1(l[4], l[3]);
    let d3 = shl1(l[3], l[2]);
    let d2 = shl1(l[2], l[1]);
    let d1 = shl1(l[1], l[0]);
    let d0 = shl1(l[0], 0);
    [d0, d1, d2, d3, d4, d5, d6]
}

/// Montgomery squaring: the square of `a` divided by the radix, modulo `p`.
/// The products of two different limbs are computed once and doubled, then
/// the squares of the limbs are added.
pub fn square(a: [u64; 4], p: [u64; 4], inv: u64) -> (r: [u64; 4])
    requires
        montgomery_ready(p, inv),
        limbs4(a) < limbs4(p),
    ensures
        limbs4(r) < limbs4(p),
        limbs4(r) == mont_reduce(limbs4(a) * limbs4(a), limbs4(p)),
{
    let d = double_wide(cross_products(a));
    proof {
        lemma_square_limbs4(a);
        assert(limbs4(a) * limbs4(a) < radix() * radix()) by (nonlinear_arith)
            requires
                0 <= limbs4(a) < radix(),
        ;
    }
    let (l0, c) = mac(0, a[0], a[0], 0);
    let (l1, c) = adc(d[0], 0, c);
    let (l2, c) = mac(d[1], a[1], a[1], c);
    let (l3, c) = adc(d[2], 0, c);
    let (l4, c) = mac(d[3], a[2], a[2], c);
    let (l5, c) = adc(d[4], 0, c);
    let (l6, c) = mac(d[5], a[3], a[3], c);
    let l7 = d[6] + c;
    let t = [l0, l1, l2, l3, l4, l5, l6, l7];
    proof {
        assert(limbs8(t) == limbs4(a) * limbs4(a));
        lemma_product_reducible(limbs4(a), limbs4(a), limbs4(p));
    }
    mont(t, p, inv)
}

/// Reduces a 512-bit value into Montgomery form: the low half times `r2`
/// plus the high half times `r3`, each product divided by the radix, where
/// `r2` and `r3` stand for the second and third power of the radix.
pub fn from_u512(limbs: [u64; 8], r2: [u64; 4], r3: [u64; 4], p: [u64; 4], inv: u64) -> (r: [u64; 4])
    requires
        montgomery_ready(p, inv),
        limbs4(r2) < limbs4(p),
        limbs4(r3) < limbs4(p),
    ensures
        limbs4(r) < limbs4(p),
        limbs4(r) == (mont_reduce(limbs4([limbs[0], limbs[1], limbs[2], limbs[3]]) * limbs4(r2), limbs4(p))
            + mont_reduce(limbs4([limbs[4], limbs[5], limbs[6], limbs[7]]) * limbs4(r3), limbs4(p)))
            % limbs4(p),
{
    let a = self::mul([limbs[0], limbs[1], limbs[2], limbs[3]], r2, p, inv);
    let b = self::mul([limbs[4], limbs[5], limbs[6], limbs[7]], r3, p, inv);
    self::add(a, b, p)
}

/// The binary digits of a four-limb value, most significant first: 256
/// entries, each zero or one.
pub fn to_bits(val: [u64; 4]) -> (bits: Vec<u8>)
    ensures
        bits@.len() == 256,
        forall|i: int| 0 <= i < 256 ==> bits@[i] == bit_of(limbs4(val), (255 - i) as nat),
{
    let mut bits: Vec<u8> = Vec::new();
    let mut i: usize = 0;
    while i < 256
        invariant
            i <= 256,
            bits@.len() == i,
            forall|k: int| 0 <= k < i ==> bits@[k] == bit_of(limbs4(val), (255 - k) as nat),
        decreases 256 - i,
    {
        bits.push(bit_at(&val, 255 - i));
        i += 1;
    }
    bits
}

/// Whether all four limbs are zero.
pub fn is_zero(a: &[u64; 4]) -> (r: bool)
    ensures
        r == (limbs4(*a) == 0),
{
    a[0] == 0 && a[1] == 0 && a[2] == 0 && a[3] == 0
}

/// The exponent that inverts by Fermat's little theorem: `p - 2`.
pub fn little_fermat(p: [u64; 4]) -> (r: [u64; 4])
    requires
        limbs4(p) > 2,
    ensures
        limbs4(r) == limbs4(p) - 2,
{
    let r = self::sub([0, 0, 0, 0], [2, 0, 0, 0], p);
    proof {
        lemma_mod_from_parts(0 - 2, limbs4(p), -1, limbs4(p) - 2);
    }
    r
}

/// Modular exponentiation in Montgomery form, by squaring and multiplying
/// over the binary digits of the exponent from the top. `identity` is the
/// Montgomery form of one. The result stands for the power `b` of what `a`
/// stands for.
pub fn pow(a: [u64; 4], b: [u64; 4], identity: [u64; 4], p: [u64; 4], inv: u64) -> (r: [u64; 4])
    requires
        montgomery_ready(p, inv),
        limbs4(a) < limbs4(p),
        limbs4(identity) == radix() % limbs4(p),
    ensures
        limbs4(r) < limbs4(p),
        mont_reduce(limbs4(r), limbs4(p)) == pow_mod(
            mont_reduce(limbs4(a), limbs4(p)),
            limbs4(b) as nat,
            limbs4(p),
        ),
{
    let ghost m = limbs4(p);
    let ghost x = mont_reduce(limbs4(a), m);
    let ghost e = limbs4(b);
    proof {
        lemma_ready_modulus_is_odd(p, inv);
        lemma_mont_reduce_one(m);
        lemma_small_mod(1, m as nat);
        lemma_small_mod(0, m as nat);
        vstd::arithmetic::div_mod::lemma_mod_bound(radix(), m);
    }
    if is_zero(&b) {
        proof {
            lemma_pow0(x);
        }
        return identity;
    } else if is_zero(&a) {
        proof {
            assert(limbs4(a) * crate::modular::radix_inv(m) == 0) by (nonlinear_arith)
                requires
                    limbs4(a) == 0,
            ;
            assert(x == 0);
            lemma0_pow(e as nat);
            assert(vstd::arithmetic::power::pow(0, e as nat) == 0);
        }
        return a;
    }
    let bits = to_bits(b);
    let mut acc = identity;
    let mut i: usize = 0;
    proof {
        lemma_radix_is_pow2();
        vstd::arithmetic::power2::lemma_pow2(256);
        lemma_no_high_bits(e, 256, 256);
        lemma_pow0(x);
    }
    while i < 256
        invariant
            i <= 256,
            montgomery_ready(p, inv),
            m == limbs4(p),
            m > 1,
            x == mont_reduce(limbs4(a), m),
            e == limbs4(b),
            limbs4(a) < m,
            limbs4(acc) < m,
            bits@.len() == 256,
            forall|k: int| 0 <= k < 256 ==> bits@[k] == bit_of(e, (255 - k) as nat),
            mont_reduce(limbs4(acc), m) == pow_mod(x, (e / (pow2((256 - i) as nat) as int)) as nat, m),
        decreases 256 - i,
    {
        let ghost n = e / (pow2((256 - i) as nat) as int);
        let ghost v = mont_reduce(limbs4(acc), m);
        proof {
            lemma_pow2_pos((256 - i) as nat);
            lemma_div_pos_is_pos(e, pow2((256 - i) as nat) as int);
            lemma_prefix_step(e, (255 - i) as nat);
            lemma_mont_reduce_product(limbs4(acc), limbs4(acc), m);
            lemma_pow_mod_step(x, n as nat, m);
        }
        acc = square(acc, p, inv);
        assert(mont_reduce(limbs4(acc), m) == pow_mod(x, (2 * n) as nat, m));
        if bits[i] == 1 {
            proof {
                lemma_mont_reduce_product(limbs4(acc), limbs4(a), m);
            }
            acc = self::mul(acc, a, p, inv);
        }
        i += 1;
    }
    proof {
        vstd::arithmetic::power2::lemma2_to64();
        let d = pow2((256 - i) as nat) as int;
        assert(e / d == e) by (nonlinear_arith)
            requires
                d == 1,
        ;
    }
    acc
}

/// Inversion by Fermat's little theorem: the power `little_fermat` of `a`,
/// or nothing when `a` is zero.
pub fn invert(a: [u64; 4], little_fermat: [u64; 4], identity: [u64; 4], p: [u64; 4], inv: u64) -> (r:
    Option<[u64; 4]>)
    requires
        montgomery_ready(p, inv),
        limbs4(a) < limbs4(p),
        limbs4(identity) == radix() % limbs4(p),
    ensures
        r.is_none() == (limbs4(a) == 0),
        r matches Some(x) ==> limbs4(x) < limbs4(p) && mont_reduce(limbs4(x), limbs4(p)) == pow_mod(
            mont_reduce(limbs4(a), limbs4(p)),
            limbs4(little_fermat) as nat,
            limbs4(p),
        ),
{
    if is_zero(&a) {
        None
    } else {
        Some(self::pow(a, little_fermat, identity, p, inv))
    }
}

} // verus!
