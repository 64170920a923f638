//! Monomials in the coordinates of up to three points and the curve
//! constant: the atoms that polynomial identities of the group law are
//! checked over.
use vstd::prelude::*;
use vstd::arithmetic::power::{pow, lemma_pow0, lemma_pow1, lemma_pow_adds};

verus! {

/// The coordinates of three affine points and the curve constant, as
/// integers.
pub struct Vars {
    pub x1: int,
    pub y1: int,
    pub x2: int,
    pub y2: int,
    pub x3: int,
    pub y3: int,
    pub d: int,
}

/// The monomial with the given exponents of `x1`, `y1`, `x2`, `y2`, `x3`,
/// `y3` and `d`.
pub closed spec fn mono(v: Vars, a: nat, b: nat, c: nat, e: nat, f: nat, g: nat, k: nat) -> int {
    pow(v.x1, a) * pow(v.y1, b) * pow(v.x2, c) * pow(v.y2, e) * pow(v.x3, f) * pow(v.y3, g) * pow(
        v.d,
        k,
    )
}

/// A product of two products, regrouped: `(a b)(c d) = (a c)(b d)`.
proof fn lemma_regroup(a: int, b: int, c: int, d: int)
    ensures
        (a * b) * (c * d) == (a * c) * (b * d),
{
    assert((a * b) * (c * d) == (a * c) * (b * d)) by (nonlinear_arith);
}

/// The product of two monomials is the monomial of the sums of the
/// exponents.
pub proof fn lemma_mono_mul(
    v: Vars,
    a: nat,
    b: nat,
    c: nat,
    e: nat,
    f: nat,
    g: nat,
    k: nat,
    a2: nat,
    b2: nat,
    c2: nat,
    e2: nat,
    f2: nat,
    g2: nat,
    k2: nat,
)
    ensures
        mono(v, a, b, c, e, f, g, k) * mono(v, a2, b2, c2, e2, f2, g2, k2) == mono(
            v,
            a + a2,
            b + b2,
            c + c2,
            e + e2,
            f + f2,
            g + g2,
            k + k2,
        ),
{
    lemma_pow_adds(v.x1, a, a2);
    lemma_pow_adds(v.y1, b, b2);
    lemma_pow_adds(v.x2, c, c2);
    lemma_pow_adds(v.y2, e, e2);
    lemma_pow_adds(v.x3, f, f2);
    lemma_pow_adds(v.y3, g, g2);
    lemma_pow_adds(v.d, k, k2);
    let p1 = pow(v.x1, a);
    let p2 = pow(v.x1, a) * pow(v.y1, b);
    let p3 = p2 * pow(v.x2, c);
    let p4 = p3 * pow(v.y2, e);
    let p5 = p4 * pow(v.x3, f);
    let p6 = p5 * pow(v.y3, g);
    let q1 = pow(v.x1, a2);
    let q2 = pow(v.x1, a2) * pow(v.y1, b2);
    let q3 = q2 * pow(v.x2, c2);
    let q4 = q3 * pow(v.y2, e2);
    let q5 = q4 * pow(v.x3, f2);
    let q6 = q5 * pow(v.y3, g2);
    lemma_regroup(p1, pow(v.y1, b), q1, pow(v.y1, b2));
    lemma_regroup(p2, pow(v.x2, c), q2, pow(v.x2, c2));
    lemma_regroup(p3, pow(v.y2, e), q3, pow(v.y2, e2));
    lemma_regroup(p4, pow(v.x3, f), q4, pow(v.x3, f2));
    lemma_regroup(p5, pow(v.y3, g), q5, pow(v.y3, g2));
    lemma_regroup(p6, pow(v.d, k), q6, pow(v.d, k2));
}

/// The variables and one, as monomials.
pub proof fn lemma_mono_vars(v: Vars)
    ensures
        mono(v, 0, 0, 0, 0, 0, 0, 0) == 1,
        mono(v, 1, 0, 0, 0, 0, 0, 0) == v.x1,
        mono(v, 0, 1, 0, 0, 0, 0, 0) == v.y1,
        mono(v, 0, 0, 1, 0, 0, 0, 0) == v.x2,
        mono(v, 0, 0, 0, 1, 0, 0, 0) == v.y2,
        mono(v, 0, 0, 0, 0, 1, 0, 0) == v.x3,
        mono(v, 0, 0, 0, 0, 0, 1, 0) == v.y3,
        mono(v, 0, 0, 0, 0, 0, 0, 1) == v.d,
{
    lemma_pow0(v.x1);
    lemma_pow0(v.y1);
    lemma_pow0(v.x2);
    lemma_pow0(v.y2);
    lemma_pow0(v.x3);
    lemma_pow0(v.y3);
    lemma_pow0(v.d);
    lemma_pow1(v.x1);
    lemma_pow1(v.y1);
    lemma_pow1(v.x2);
    lemma_pow1(v.y2);
    lemma_pow1(v.x3);
    lemma_pow1(v.y3);
    lemma_pow1(v.d);
}

} // verus!
