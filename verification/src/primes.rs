//! Primes and primitive roots: what makes the residues modulo a prime a
//! field, proved from a certificate for the prime.
use vstd::prelude::*;
use vstd::arithmetic::div_mod::{
    lemma_fundamental_div_mod, lemma_fundamental_div_mod_converse, lemma_mod_bound,
    lemma_mul_mod_noop_general, lemma_mul_mod_noop_left, lemma_small_mod,
    lemma_mod_multiples_basic,
};
use vstd::arithmetic::mul::lemma_mul_is_commutative;
use vstd::arithmetic::power::{
    pow, lemma_pow0, lemma_pow1, lemma1_pow, lemma_pow_adds, lemma_pow_multiplies,
    lemma_pow_mod_noop,
};
use vstd::set_lib::{set_int_range, lemma_int_range, lemma_map_size, lemma_subset_equality};
use vstd::relations::injective_on;
use crate::modular::{mul_mod, pow_mod, lemma_mod_from_parts};

verus! {

/// A prime: an integer from two up with no divisor strictly between one and
/// itself.
pub open spec fn is_prime(p: int) -> bool {
    p >= 2 && forall|d: int| 1 < d < p ==> #[trigger] (p % d) != 0
}

/// `d` is the order of `g` modulo `p`: the least positive exponent that
/// takes `g` to one.
pub open spec fn has_order(g: int, d: int, p: int) -> bool {
    d > 0 && pow_mod(g, d as nat, p) == 1 && forall|j: int|
        0 < j < d ==> #[trigger] pow_mod(g, j as nat, p) != 1
}

/// `g` is a primitive root modulo `p`: its order is `p - 1`.
pub open spec fn is_primitive_root(g: int, p: int) -> bool {
    p >= 2 && has_order(g, p - 1, p)
}

/// A power of a power is the power by the product of the exponents.
pub proof fn lemma_pow_mod_compose(g: int, a: nat, b: nat, p: int)
    requires
        p > 0,
    ensures
        pow_mod(pow_mod(g, a, p), b, p) == pow_mod(g, a * b, p),
{
    lemma_pow_mod_noop(pow(g, a), b, p);
    lemma_pow_multiplies(g, a, b);
}

/// The product of two powers is the power by the sum of the exponents.
pub proof fn lemma_pow_mod_adds(g: int, a: nat, b: nat, p: int)
    requires
        p > 0,
    ensures
        mul_mod(pow_mod(g, a, p), pow_mod(g, b, p), p) == pow_mod(g, a + b, p),
{
    lemma_pow_adds(g, a, b);
    lemma_mul_mod_noop_general(pow(g, a), pow(g, b), p);
}

/// Every power of one is one.
pub proof fn lemma_pow_mod_of_one(b: nat, p: int)
    requires
        p >= 2,
    ensures
        pow_mod(1, b, p) == 1,
{
    lemma1_pow(b);
    lemma_small_mod(1, p as nat);
}

/// Where `g^d` is one, the exponent `d * s + t` gives what `t` gives.
pub proof fn lemma_pow_mod_periodic(g: int, d: nat, s: nat, t: nat, p: int)
    requires
        p >= 2,
        pow_mod(g, d, p) == 1,
    ensures
        pow_mod(g, d * s + t, p) == pow_mod(g, t, p),
{
    lemma_pow_mod_compose(g, d, s, p);
    lemma_pow_mod_of_one(s, p);
    lemma_pow_mod_adds(g, d * s, t, p);
    lemma_mod_bound(pow(g, t), p);
    lemma_mul_mod_noop_left(1, pow_mod(g, t, p), p);
    lemma_small_mod(pow_mod(g, t, p) as nat, p as nat);
    assert(1 * pow_mod(g, t, p) == pow_mod(g, t, p));
}

/// Searches upwards from `k` for the order of `g`.
proof fn lemma_order_from(g: int, n: int, p: int, k: int) -> (d: int)
    requires
        0 < k <= n,
        pow_mod(g, n as nat, p) == 1,
        forall|j: int| 0 < j < k ==> #[trigger] pow_mod(g, j as nat, p) != 1,
    ensures
        has_order(g, d, p),
        d <= n,
    decreases n - k,
{
    if pow_mod(g, k as nat, p) == 1 {
        k
    } else {
        lemma_order_from(g, n, p, k + 1)
    }
}

/// An element with a positive exponent that takes it to one has an order.
pub proof fn lemma_order_exists(g: int, n: int, p: int) -> (d: int)
    requires
        0 < n,
        pow_mod(g, n as nat, p) == 1,
    ensures
        has_order(g, d, p),
        d <= n,
{
    lemma_order_from(g, n, p, 1)
}

/// The order divides every exponent that takes the element to one.
pub proof fn lemma_order_divides(g: int, d: int, n: int, p: int)
    requires
        p >= 2,
        has_order(g, d, p),
        0 <= n,
        pow_mod(g, n as nat, p) == 1,
    ensures
        n % d == 0,
{
    let s = n / d;
    let t = n % d;
    lemma_fundamental_div_mod(n, d);
    lemma_mod_bound(n, d);
    vstd::arithmetic::div_mod::lemma_div_pos_is_pos(n, d);
    lemma_pow_mod_periodic(g, d as nat, s as nat, t as nat, p);
    if t != 0 {
        assert(pow_mod(g, t as nat, p) != 1);
    }
}

/// Bezout's identity: a common divisor of `a` and `b` that is a combination
/// of them with integer coefficients. Returns the divisor and the
/// coefficients of `a` and `b`.
pub proof fn lemma_bezout(a: int, b: int) -> (r: (int, int, int))
    requires
        0 <= a,
        0 <= b,
        a + b > 0,
    ensures
        r.0 > 0,
        r.0 == r.1 * a + r.2 * b,
        a % r.0 == 0,
        b % r.0 == 0,
    decreases b,
{
    if b == 0 {
        assert(a % a == 0) by {
            lemma_mod_from_parts(a, a, 1, 0);
        }
        assert(0int % a == 0) by {
            lemma_small_mod(0, a as nat);
        }
        (a, 1, 0)
    } else {
        let m = a % b;
        let k = a / b;
        lemma_fundamental_div_mod(a, b);
        lemma_mod_bound(a, b);
        let (d, u, v) = lemma_bezout(b, m);
        // d == u * b + v * m, m == a - b * k
        assert(d == v * a + (u - v * k) * b) by (nonlinear_arith)
            requires
                d == u * b + v * m,
                a == b * k + m,
        ;
        // d divides a == b * k + m
        let bq = b / d;
        let mq = m / d;
        lemma_fundamental_div_mod(b, d);
        lemma_fundamental_div_mod(m, d);
        assert(a == (bq * k + mq) * d) by (nonlinear_arith)
            requires
                a == b * k + m,
                b == d * bq,
                m == d * mq,
        ;
        lemma_mod_multiples_basic(bq * k + mq, d);
        (d, v, u - v * k)
    }
}

/// Euclid's lemma, for a divisor `m` of `f * rest` with `f` prime: `f`
/// divides `m`, or `m` divides `rest`.
pub proof fn lemma_euclid(m: int, f: int, rest: int)
    requires
        is_prime(f),
        m >= 1,
        rest >= 0,
        (f * rest) % m == 0,
    ensures
        m % f == 0 || rest % m == 0,
{
    if m % f != 0 {
        let (d, u, v) = lemma_bezout(f, m);
        // d divides the prime f and is not f: it is one
        if d != 1 {
            let c = f / d;
            lemma_fundamental_div_mod(f, d);
            assert(d <= f) by (nonlinear_arith)
                requires
                    f == d * c,
                    d > 0,
                    f > 0,
            ;
            if d < f {
                assert(f % d != 0);
            } else {
                assert(m % f == 0);
            }
        }
        // rest == u * f * rest + v * m * rest
        let k = (f * rest) / m;
        lemma_fundamental_div_mod(f * rest, m);
        assert(rest == (u * k + v * rest) * m) by (nonlinear_arith)
            requires
                1 == u * f + v * m,
                f * rest == m * k,
        ;
        lemma_mod_multiples_basic(u * k + v * rest, m);
    }
}

/// The prime factor `f` of `n` divides `m`, and the power `n / f` of `g` is
/// not one: `m` cannot be the quotient of `n` by the order of `g`.
pub open spec fn refutes(g: int, n: int, p: int, m: int, f: int) -> bool {
    f >= 2 && m % f == 0 && n % f == 0 && pow_mod(g, (n / f) as nat, p) != 1
}

/// Lucas' test: `g^(p-1)` is one, and every divisor of `p - 1` from two up
/// has a factor `f` for which `g^((p-1)/f)` is not one. Then `g` is a
/// primitive root modulo `p`.
pub proof fn lemma_lucas(p: int, n: int, g: int)
    requires
        p >= 2,
        n == p - 1,
        pow_mod(g, n as nat, p) == 1,
        forall|m: int|
            m >= 2 && #[trigger] (n % m) == 0 ==> exists|f: int| #[trigger] refutes(g, n, p, m, f),
    ensures
        is_primitive_root(g, p),
{
    if n == 0 {
        assert(p == 1);
    }
    let d = lemma_order_exists(g, n, p);
    lemma_order_divides(g, d, n, p);
    if d < n {
        let m = n / d;
        lemma_fundamental_div_mod(n, d);
        assert(m >= 2) by (nonlinear_arith)
            requires
                n == d * m,
                0 < d < n,
        ;
        assert(n % m == 0) by {
            lemma_mul_is_commutative(d, m);
            lemma_mod_multiples_basic(d, m);
        }
        let f = choose|f: int| #[trigger] refutes(g, n, p, m, f);
        let c = m / f;
        lemma_fundamental_div_mod(m, f);
        assert(n == (d * c) * f) by (nonlinear_arith)
            requires
                n == d * m,
                m == f * c,
        ;
        assert(c >= 0) by (nonlinear_arith)
            requires
                m == f * c,
                m >= 2,
                f >= 2,
        ;
        lemma_fundamental_div_mod_converse(n, f, d * c, 0);
        lemma_pow_mod_periodic(g, d as nat, c as nat, 0, p);
        lemma_pow0(g);
        lemma_small_mod(1, p as nat);
        assert(pow_mod(g, (n / f) as nat, p) == 1);
    }
}

/// The power `i` of an element of order `n` has the power `n - i` as its
/// inverse, and is not zero.
pub proof fn lemma_power_inverse(g: int, n: int, i: int, p: int)
    requires
        p >= 2,
        0 <= i <= n,
        pow_mod(g, n as nat, p) == 1,
    ensures
        mul_mod(pow_mod(g, i as nat, p), pow_mod(g, (n - i) as nat, p), p) == 1,
        0 < pow_mod(g, i as nat, p) < p,
{
    lemma_pow_mod_adds(g, i as nat, (n - i) as nat, p);
    lemma_mod_bound(pow(g, i as nat), p);
    if pow_mod(g, i as nat, p) == 0 {
        assert(0 * pow_mod(g, (n - i) as nat, p) == 0);
        lemma_small_mod(0, p as nat);
    }
}

/// Different exponents below the order give different powers.
pub proof fn lemma_powers_distinct(g: int, n: int, i: int, j: int, p: int)
    requires
        p >= 2,
        has_order(g, n, p),
        0 <= i < j < n,
    ensures
        pow_mod(g, i as nat, p) != pow_mod(g, j as nat, p),
{
    if pow_mod(g, i as nat, p) == pow_mod(g, j as nat, p) {
        lemma_power_inverse(g, n, i, p);
        lemma_pow_mod_adds(g, j as nat, (n - i) as nat, p);
        lemma_pow_mod_periodic(g, n as nat, 1, (j - i) as nat, p);
        assert(n * 1 + (j - i) == j + (n - i));
        assert(pow_mod(g, (j - i) as nat, p) == 1);
    }
}

/// Every residue from one up is a power of a primitive root. Returns the
/// exponent.
pub proof fn lemma_discrete_log(g: int, p: int, a: int) -> (i: int)
    requires
        is_primitive_root(g, p),
        0 < a < p,
    ensures
        0 <= i < p - 1,
        pow_mod(g, i as nat, p) == a,
{
    let n = p - 1;
    let f = |i: int| pow_mod(g, i as nat, p);
    let dom = set_int_range(0, n);
    let all = set_int_range(1, p);
    let image = dom.map(f);
    lemma_int_range(0, n);
    lemma_int_range(1, p);
    assert(injective_on(f, dom)) by {
        assert forall|x1: int, x2: int|
            dom.contains(x1) && dom.contains(x2) && #[trigger] f(x1) == #[trigger] f(x2) implies x1
            == x2 by {
            if x1 < x2 {
                lemma_powers_distinct(g, n, x1, x2, p);
            } else if x2 < x1 {
                lemma_powers_distinct(g, n, x2, x1, p);
            }
        }
    }
    lemma_map_size(dom, image, f);
    assert(image.subset_of(all)) by {
        assert forall|b: int| image.contains(b) implies all.contains(b) by {
            let x = choose|x: int| dom.contains(x) && f(x) == b;
            lemma_power_inverse(g, n, x, p);
        }
    }
    lemma_subset_equality(image, all);
    assert(all.contains(a));
    assert(image.contains(a));
    choose|x: int| dom.contains(x) && f(x) == a
}

/// A modulus with a primitive root is prime.
pub proof fn lemma_root_gives_prime(g: int, p: int)
    requires
        is_primitive_root(g, p),
    ensures
        is_prime(p),
{
    assert forall|d: int| 1 < d < p implies #[trigger] (p % d) != 0 by {
        if p % d == 0 {
            let i = lemma_discrete_log(g, p, d);
            lemma_power_inverse(g, p - 1, i, p);
            let y = pow_mod(g, (p - 1 - i) as nat, p);
            let k = (d * y) / p;
            let c = p / d;
            lemma_fundamental_div_mod(d * y, p);
            lemma_fundamental_div_mod(p, d);
            assert(d * (y - k * c) == 1) by (nonlinear_arith)
                requires
                    d * y == p * k + 1,
                    p == d * c,
            ;
            assert(false) by (nonlinear_arith)
                requires
                    d * (y - k * c) == 1,
                    d > 1,
            ;
        }
    }
}

/// Fermat's little theorem, for a modulus with a primitive root: the power
/// `p - 1` of every residue from one up is one.
pub proof fn lemma_fermat(g: int, p: int, a: int)
    requires
        is_primitive_root(g, p),
        0 < a < p,
    ensures
        pow_mod(a, (p - 1) as nat, p) == 1,
{
    let n = (p - 1) as nat;
    let i = lemma_discrete_log(g, p, a) as nat;
    lemma_pow_mod_compose(g, i, n, p);
    lemma_pow_mod_compose(g, n, i, p);
    lemma_mul_is_commutative(i as int, n as int);
    lemma_pow_mod_of_one(i, p);
}

/// The power `p - 2` of a residue from one up is its inverse, for a modulus
/// with a primitive root.
pub proof fn lemma_fermat_inverse(g: int, p: int, a: int)
    requires
        is_primitive_root(g, p),
        0 < a < p,
    ensures
        mul_mod(a, pow_mod(a, (p - 2) as nat, p), p) == 1,
{
    lemma_fermat(g, p, a);
    lemma_pow1(a);
    lemma_small_mod(a as nat, p as nat);
    assert(pow_mod(a, 1, p) == a);
    lemma_pow_mod_adds(a, 1, (p - 2) as nat, p);
    assert(1 + (p - 2) as nat == (p - 1) as nat);
}

/// Two is prime.
pub proof fn lemma_two_is_prime()
    ensures
        is_prime(2),
{
}

/// The start of a chain of powers: the power zero is one.
pub proof fn lemma_chain_start(p: int, g: int)
    requires
        p >= 2,
    ensures
        pow_mod(g, 0, p) == 1,
{
    lemma_pow0(g);
    lemma_small_mod(1, p as nat);
}

/// A squaring step of a chain of powers: from `g^e = h` to `g^(2e) = r`,
/// where `r` is the remainder of `h * h` with the quotient `k`. Returns the
/// new exponent.
pub proof fn lemma_chain_square(p: int, g: int, e: nat, h: int, k: int, r: int) -> (e2: nat)
    requires
        p > 0,
        pow_mod(g, e, p) == h,
        h * h == k * p + r,
        0 <= r < p,
    ensures
        e2 == 2 * e,
        pow_mod(g, e2, p) == r,
{
    crate::modular::lemma_pow_mod_step(g, e, p);
    lemma_mod_from_parts(h * h, p, k, r);
    2 * e
}

/// A multiplying step of a chain of powers: from `g^e = h` to
/// `g^(e+1) = r`, where `r` is the remainder of `h * g` with the quotient
/// `k`. Returns the new exponent.
pub proof fn lemma_chain_multiply(p: int, g: int, e: nat, h: int, k: int, r: int) -> (e2: nat)
    requires
        p > 0,
        pow_mod(g, e, p) == h,
        h * g == k * p + r,
        0 <= r < p,
    ensures
        e2 == e + 1,
        pow_mod(g, e2, p) == r,
{
    lemma_pow1(g);
    lemma_pow_adds(g, e, 1);
    lemma_mul_mod_noop_left(pow(g, e), g, p);
    lemma_mod_from_parts(h * g, p, k, r);
    e + 1
}

/// A change of base in a chain of powers: where `g^a = b` and `b^c = r`,
/// `g^(a c) = r`.
pub proof fn lemma_chain_rebase(p: int, g: int, a: nat, b: int, c: nat, r: int)
    requires
        p > 0,
        pow_mod(g, a, p) == b,
        pow_mod(b, c, p) == r,
    ensures
        pow_mod(g, a * c, p) == r,
{
    lemma_pow_mod_compose(g, a, c, p);
}

} // verus!
