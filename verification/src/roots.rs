//! Squares and square roots modulo a prime: what the search for a square
//! root rests on.
use vstd::prelude::*;
use vstd::arithmetic::div_mod::{
    lemma_fundamental_div_mod, lemma_mod_bound, lemma_mod_multiples_basic,
    lemma_mul_mod_noop_general, lemma_mul_mod_noop_left, lemma_mul_mod_noop_right, lemma_small_mod,
};
use vstd::arithmetic::mul::lemma_mul_is_associative;
use vstd::arithmetic::power::{pow, lemma_pow1, lemma_pow_adds, lemma_pow_distributes};
use vstd::arithmetic::power2::{pow2, lemma2_to64, lemma_pow2_adds, lemma_pow2_unfold};
use crate::modular::{mul_mod, pow_mod, lemma_mod_from_parts};
use crate::primes::{
    is_prime, is_primitive_root, lemma_bezout, lemma_fermat, lemma_pow_mod_adds,
    lemma_pow_mod_compose,
};

verus! {

/// Whether the residue `a` is the square of a residue modulo `p`.
pub open spec fn is_square(a: int, p: int) -> bool {
    exists|y: int| 0 <= y < p && #[trigger] mul_mod(y, y, p) == a
}

/// The residue `b` squared `k` times: `b^(2^k)` modulo `p`.
pub open spec fn tower(b: int, k: nat, p: int) -> int {
    pow_mod(b, pow2(k), p)
}

/// A prime that divides a product divides one of the factors.
pub proof fn lemma_prime_divides_product(p: int, a: int, b: int)
    requires
        is_prime(p),
        0 <= a,
        0 <= b,
        (a * b) % p == 0,
    ensures
        a % p == 0 || b % p == 0,
{
    if a % p != 0 {
        let (d, u, v) = lemma_bezout(p, a);
        if d != 1 {
            let c = p / d;
            lemma_fundamental_div_mod(p, d);
            assert(d <= p) by (nonlinear_arith)
                requires
                    p == d * c,
                    d > 0,
                    p > 0,
            ;
            if d < p {
                assert(p % d != 0);
            }
        }
        let k = (a * b) / p;
        lemma_fundamental_div_mod(a * b, p);
        assert(b == (u * b + v * k) * p) by (nonlinear_arith)
            requires
                1 == u * p + v * a,
                a * b == p * k,
        ;
        lemma_mod_multiples_basic(u * b + v * k, p);
    }
}

/// Modulo a prime, one has the square roots one and minus one only.
pub proof fn lemma_square_root_of_one(p: int, x: int)
    requires
        is_prime(p),
        0 <= x < p,
        mul_mod(x, x, p) == 1,
    ensures
        x == 1 || x == p - 1,
{
    if x == 0 {
        assert(x * x == 0) by (nonlinear_arith)
            requires
                x == 0,
        ;
        lemma_small_mod(0, p as nat);
    }
    let k = (x * x) / p;
    lemma_fundamental_div_mod(x * x, p);
    assert((x - 1) * (x + 1) == k * p) by (nonlinear_arith)
        requires
            x * x == p * k + 1,
    ;
    lemma_mod_multiples_basic(k, p);
    lemma_prime_divides_product(p, x - 1, x + 1);
    if (x - 1) % p == 0 {
        lemma_small_mod((x - 1) as nat, p as nat);
    } else {
        if x + 1 < p {
            lemma_small_mod((x + 1) as nat, p as nat);
        }
    }
}

/// Euler's criterion, one way: the power `(p - 1) / 2` of a square other
/// than zero is one.
pub proof fn lemma_euler(g: int, p: int, a: int)
    requires
        is_primitive_root(g, p),
        p % 2 == 1,
        0 < a < p,
        is_square(a, p),
    ensures
        pow_mod(a, ((p - 1) / 2) as nat, p) == 1,
{
    let y = choose|y: int| 0 <= y < p && #[trigger] mul_mod(y, y, p) == a;
    if y == 0 {
        assert(y * y == 0) by (nonlinear_arith)
            requires
                y == 0,
        ;
        lemma_small_mod(0, p as nat);
    }
    lemma_fermat(g, p, y);
    let h = ((p - 1) / 2) as nat;
    // a == y^2, so a^h == y^(2h) == y^(p-1)
    vstd::arithmetic::power::lemma_pow_multiplies(y, 2, h);
    assert(pow(y, 2) == y * y) by {
        lemma_pow1(y);
        lemma_pow_adds(y, 1, 1);
    }
    vstd::arithmetic::power::lemma_pow_mod_noop(y * y, h, p);
    assert(2 * h == p - 1);
}

/// No residue is a square root of a non-square.
pub proof fn lemma_square_has_root(p: int, x: int, a: int)
    requires
        0 <= x < p,
        mul_mod(x, x, p) == a,
    ensures
        is_square(a, p),
{
}

/// The start of a tower: squared no times, a residue is itself.
pub proof fn lemma_tower_start(b: int, p: int)
    requires
        0 <= b < p,
    ensures
        tower(b, 0, p) == b,
{
    lemma2_to64();
    lemma_pow1(b);
    lemma_small_mod(b as nat, p as nat);
}

/// One more squaring: the square of the tower of height `k` is the tower of
/// height `k + 1`.
pub proof fn lemma_tower_step(b: int, k: nat, p: int)
    requires
        p > 0,
    ensures
        mul_mod(tower(b, k, p), tower(b, k, p), p) == tower(b, k + 1, p),
{
    lemma_pow_mod_adds(b, pow2(k), pow2(k), p);
    lemma_pow2_unfold(k + 1);
}

/// The tower of a product is the product of the towers.
pub proof fn lemma_tower_of_product(b: int, z: int, k: nat, p: int)
    requires
        p > 0,
    ensures
        tower(mul_mod(b, z, p), k, p) == mul_mod(tower(b, k, p), tower(z, k, p), p),
{
    let e = pow2(k);
    vstd::arithmetic::power::lemma_pow_mod_noop(b * z, e, p);
    lemma_pow_distributes(b, z, e);
    lemma_mul_mod_noop_general(pow(b, e), pow(z, e), p);
}

/// A tower on a tower is a tower of the sum of the heights.
pub proof fn lemma_tower_of_tower(z: int, i: nat, k: nat, p: int)
    requires
        p > 0,
    ensures
        tower(tower(z, i, p), k, p) == tower(z, i + k, p),
{
    lemma_pow_mod_compose(z, pow2(i), pow2(k), p);
    lemma_pow2_adds(i, k);
}

/// A tower that has reached one stays at one.
pub proof fn lemma_tower_stays_one(b: int, i: nat, k: nat, p: int)
    requires
        p >= 2,
        tower(b, i, p) == 1,
        i <= k,
    ensures
        tower(b, k, p) == 1,
    decreases k - i,
{
    if i < k {
        lemma_tower_step(b, i, p);
        lemma_small_mod(1, p as nat);
        lemma_tower_stays_one(b, i + 1, k, p);
    }
}

/// The state of the search for a square root of `a` while it is under way:
/// `x^2 = a b`, the order of `z` is `2^v`, and the order of `b` divides
/// `2^(v-1)`.
pub open spec fn search_open(a: int, x: int, b: int, z: int, v: int, p: int) -> bool {
    v >= 1 && mul_mod(x, x, p) == mul_mod(a, b, p) && tower(z, (v - 1) as nat, p) == p - 1 && tower(
        b,
        (v - 1) as nat,
        p,
    ) == 1
}

/// The state of the search for a square root of `a` once it has ended:
/// `x^2 = a`, and `z` and `b` are square roots of one.
pub open spec fn search_closed(a: int, x: int, b: int, z: int, v: int, p: int) -> bool {
    v == 1 && mul_mod(x, x, p) == a && mul_mod(z, z, p) == 1 && mul_mod(b, b, p) == 1
}

/// How often `z` has been squared when the inner loop of the search stands
/// before the round `j`, where `b` reaches one at the height `k`: once for
/// each round after `k` and below `v`.
pub open spec fn squarings(j: int, v: int, k: int) -> int {
    let m = if j < v {
        j - 1
    } else {
        v - 1
    };
    if m > k {
        m - k
    } else {
        0
    }
}

/// The state of the inner loop of the search before the round `j`: `tmp` is
/// the tower of `b` of height `k`, no lower tower from height one is one,
/// either `k` is the round before or `tmp` is one, and `z` is the tower of
/// the `z` that the loop began with.
#[verifier::opaque]
pub open spec fn scan(b: int, z_in: int, v: int, j: int, tmp: int, k: int, z: int, p: int) -> bool {
    1 <= k < j && k <= v - 1 && tmp == tower(b, k as nat, p) && (k == j - 1 || tmp == 1) && (forall|
        i: int,
    |
        1 <= i < k ==> #[trigger] tower(b, i as nat, p) != 1) && z == tower(
        z_in,
        squarings(j, v, k) as nat,
        p,
    )
}

/// The search begins open: with `w = a^h`, `x = w a` and `b = x w`, where
/// `p - 1` is `2^s (2 h + 1)` and `a` is a square other than zero.
pub proof fn lemma_search_begins(g: int, p: int, a: int, h: nat, s: nat)
    requires
        is_primitive_root(g, p),
        p % 2 == 1,
        s >= 1,
        p - 1 == pow2(s) * (2 * h + 1),
        0 < a < p,
        is_square(a, p),
    ensures
        ({
            let w = pow_mod(a, h, p);
            let x = mul_mod(w, a, p);
            let b = mul_mod(x, w, p);
            mul_mod(x, x, p) == mul_mod(a, b, p) && tower(b, (s - 1) as nat, p) == 1
        }),
{
    let w = pow_mod(a, h, p);
    let x = mul_mod(w, a, p);
    let b = mul_mod(x, w, p);
    // x^2 == a * b
    lemma_mul_mod_noop_general(w * a, w * a, p);
    lemma_mul_mod_noop_left(w * a, w, p);
    lemma_mul_mod_noop_right(a, (w * a) * w, p);
    assert((w * a) * (w * a) == a * ((w * a) * w)) by (nonlinear_arith);
    // b == a^(2h + 1)
    lemma_pow1(a);
    lemma_small_mod(a as nat, p as nat);
    lemma_pow_mod_adds(a, h, 1, p);
    lemma_pow_mod_adds(a, h + 1, h, p);
    assert(b == pow_mod(a, 2 * h + 1, p));
    // b^(2^(s-1)) == a^((p-1)/2)
    lemma_pow_mod_compose(a, 2 * h + 1, pow2((s - 1) as nat), p);
    lemma_pow2_unfold(s);
    let half = pow2((s - 1) as nat);
    assert((2 * h + 1) * half == (p - 1) / 2) by (nonlinear_arith)
        requires
            p - 1 == (2 * half) * (2 * h + 1),
    ;
    lemma_euler(g, p, a);
}

/// An open search with `v` at one is closed.
pub proof fn lemma_open_at_one_is_closed(a: int, x: int, b: int, z: int, p: int)
    requires
        p >= 3,
        0 <= a < p,
        0 <= b < p,
        0 <= z < p,
        search_open(a, x, b, z, 1, p),
    ensures
        search_closed(a, x, b, z, 1, p),
{
    lemma_tower_start(b, p);
    lemma_tower_start(z, p);
    lemma_small_mod(a as nat, p as nat);
    lemma_small_mod(1, p as nat);
    assert(a * 1 == a);
    assert(1 * 1 == 1);
    lemma_minus_one_squared(p);
}

/// Minus one squared is one.
pub proof fn lemma_minus_one_squared(p: int)
    requires
        p >= 2,
    ensures
        mul_mod(p - 1, p - 1, p) == 1,
{
    assert((p - 1) * (p - 1) == (p - 2) * p + 1) by (nonlinear_arith);
    lemma_mod_from_parts((p - 1) * (p - 1), p, p - 2, 1);
}

/// The inner loop begins.
pub proof fn lemma_scan_begins(b: int, z_in: int, v: int, p: int)
    requires
        p >= 2,
        0 <= b < p,
        0 <= z_in < p,
        v >= 2,
    ensures
        scan(b, z_in, v, 2, mul_mod(b, b, p), 1, z_in, p),
{
    reveal(scan);
    lemma_tower_start(b, p);
    lemma_tower_step(b, 0, p);
    lemma_tower_start(z_in, p);
}

/// A round of the inner loop in which `tmp` is one: `z` is squared while
/// the round is below `v`.
pub proof fn lemma_scan_found(b: int, z_in: int, v: int, j: int, tmp: int, k: int, z: int, p: int)
    requires
        p >= 2,
        scan(b, z_in, v, j, tmp, k, z, p),
        tmp == 1,
    ensures
        scan(b, z_in, v, j + 1, tmp, k, if j < v { mul_mod(z, z, p) } else { z }, p),
        k == (if tmp == 1 { k } else { j }),
{
    reveal(scan);
    if j < v {
        lemma_tower_step(z_in, squarings(j, v, k) as nat, p);
    }
}

/// A round of the inner loop in which `tmp` is not one: the round is below
/// `v - 1`, and `tmp` is squared.
pub proof fn lemma_scan_goes_on(b: int, z_in: int, v: int, j: int, tmp: int, k: int, z: int, p: int)
    requires
        p >= 2,
        scan(b, z_in, v, j, tmp, k, z, p),
        tmp != 1,
        v >= 2,
        tower(b, (v - 1) as nat, p) == 1,
    ensures
        j <= v - 1,
        k == j - 1,
        scan(b, z_in, v, j + 1, mul_mod(tmp, tmp, p), j, z, p),
{
    reveal(scan);
    lemma_tower_step(b, k as nat, p);
    if j > v - 1 {
        assert(k == v - 1);
    }
}

/// The end of the inner loop, at a round from `v` on: `tmp` is one, and `z`
/// has been squared `v - 1 - k` times.
pub proof fn lemma_scan_ends(b: int, z_in: int, v: int, j: int, tmp: int, k: int, z: int, p: int)
    requires
        p >= 2,
        scan(b, z_in, v, j, tmp, k, z, p),
        j >= v,
        v >= 2,
        tower(b, (v - 1) as nat, p) == 1,
    ensures
        tmp == 1,
        1 <= k <= v - 1,
        tower(b, k as nat, p) == 1,
        forall|i: int| 1 <= i < k ==> #[trigger] tower(b, i as nat, p) != 1,
        z == tower(z_in, (v - 1 - k) as nat, p),
{
    reveal(scan);
    if tmp != 1 {
        assert(k == j - 1);
        lemma_tower_stays_one(b, (v - 1) as nat, k as nat, p);
    }
}

/// The step of an open search after the inner loop, where `b` reaches one
/// at the height `k` and `zt` is `z` squared `v - 1 - k` times. If `b` is
/// one the search is closed; otherwise it stays open with `v` at `k`.
pub proof fn lemma_search_step(a: int, x: int, b: int, z: int, v: int, k: int, zt: int, p: int)
    requires
        is_prime(p),
        p >= 3,
        0 <= a < p,
        0 <= b < p,
        0 <= z < p,
        search_open(a, x, b, z, v, p),
        v >= 2,
        1 <= k <= v - 1,
        tower(b, k as nat, p) == 1,
        forall|i: int| 1 <= i < k ==> #[trigger] tower(b, i as nat, p) != 1,
        zt == tower(z, (v - 1 - k) as nat, p),
    ensures
        ({
            let z2 = mul_mod(zt, zt, p);
            let b2 = mul_mod(b, z2, p);
            if b == 1 {
                search_closed(a, x, b2, z2, k, p)
            } else {
                search_open(a, mul_mod(x, zt, p), b2, z2, k, p)
            }
        }),
{
    let z2 = mul_mod(zt, zt, p);
    let b2 = mul_mod(b, z2, p);
    lemma_tower_step(z, (v - 1 - k) as nat, p);
    assert(z2 == tower(z, (v - k) as nat, p));
    lemma_minus_one_squared(p);
    lemma_small_mod(1, p as nat);
    lemma_mod_bound(zt * zt, p);
    if b == 1 {
        lemma_tower_start(b, p);
        lemma_tower_step(b, 0, p);
        assert(1 * 1 == 1);
        assert(tower(b, 1, p) == 1);
        assert(k == 1);
        assert(1 * z2 == z2);
        lemma_small_mod(z2 as nat, p as nat);
        lemma_small_mod(a as nat, p as nat);
        assert(a * 1 == a);
    } else {
        // the tower of b below k is minus one
        let top = tower(b, (k - 1) as nat, p);
        lemma_mod_bound(pow(b, pow2((k - 1) as nat)), p);
        lemma_tower_step(b, (k - 1) as nat, p);
        lemma_square_root_of_one(p, top);
        if k == 1 {
            lemma_tower_start(b, p);
        }
        assert(top == p - 1);
        lemma_tower_of_tower(z, (v - k) as nat, (k - 1) as nat, p);
        lemma_tower_of_product(b, z2, (k - 1) as nat, p);
        // x^2 zt^2 == a b z2
        let x2 = mul_mod(x, zt, p);
        lemma_mul_mod_noop_general(x * zt, x * zt, p);
        assert((x * zt) * (x * zt) == (x * x) * (zt * zt)) by (nonlinear_arith);
        lemma_mul_mod_noop_general(x * x, zt * zt, p);
        lemma_mul_mod_noop_left(a * b, z2, p);
        lemma_mul_mod_noop_right(a, b * z2, p);
        lemma_mul_is_associative(a, b, z2);
    }
}

/// The step of a closed search after the inner loop, where `zt` is a square
/// root of one: the search stays closed, whether `x` is multiplied by `zt`
/// or not.
pub proof fn lemma_closed_step(a: int, x: int, b: int, zt: int, p: int)
    requires
        p >= 2,
        0 <= a < p,
        0 <= b < p,
        mul_mod(x, x, p) == a,
        mul_mod(b, b, p) == 1,
        mul_mod(zt, zt, p) == 1,
    ensures
        ({
            let z2 = mul_mod(zt, zt, p);
            let b2 = mul_mod(b, z2, p);
            search_closed(a, x, b2, z2, 1, p) && search_closed(a, mul_mod(x, zt, p), b2, z2, 1, p)
        }),
{
    lemma_small_mod(1, p as nat);
    lemma_small_mod(a as nat, p as nat);
    lemma_small_mod(b as nat, p as nat);
    assert(1 * 1 == 1);
    assert(b * 1 == b);
    assert(a * 1 == a);
    lemma_mul_mod_noop_general(x * zt, x * zt, p);
    assert((x * zt) * (x * zt) == (x * x) * (zt * zt)) by (nonlinear_arith);
    lemma_mul_mod_noop_general(x * x, zt * zt, p);
}

} // verus!
