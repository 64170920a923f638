//! The group law of the curve: sums and doubles of points of the curve are
//! points of the curve with an affine form.
use vstd::prelude::*;
use vstd::arithmetic::div_mod::{
    lemma_fundamental_div_mod, lemma_mod_bound, lemma_small_mod, lemma_mod_equivalence,
};
use crate::base::q;
use crate::curve::{
    AffinePoint, ExtendedPoint, affine_negative, affine_sum, affine_wf, assemble, d, doubled,
    extend, extended_negative, extended_on_curve, extended_sum, extended_wf, fadd, finv, fmul,
    fneg, fsub, mixed_sum, on_curve, to_affine, lemma_d_is_no_square, lemma_doubled_shape,
    lemma_doubled_has_affine_form, lemma_finv, lemma_fmul_four, lemma_fmul_laws, lemma_fmul_unit,
    lemma_fneg_laws, lemma_minus_one_is_square, lemma_no_zero_divisors, lemma_quotient_is_square,
};
use crate::modular::mul_mod;
use crate::modular::lemma_mod_from_parts;

verus! {

/// Congruence modulo `m`: the difference is a multiple of `m`.
pub open spec fn cong(a: int, b: int, m: int) -> bool {
    (a - b) % m == 0
}

/// Congruence is reflexive, and equal integers are congruent.
pub proof fn lemma_cong_refl(a: int, m: int)
    requires
        m > 0,
    ensures
        cong(a, a, m),
{
    lemma_small_mod(0, m as nat);
}

/// Congruence is symmetric.
pub proof fn lemma_cong_sym(a: int, b: int, m: int)
    requires
        m > 0,
        cong(a, b, m),
    ensures
        cong(b, a, m),
{
    crate::modular::lemma_neg_multiple(a - b, m);
}

/// Congruence is transitive.
pub proof fn lemma_cong_trans(a: int, b: int, c: int, m: int)
    requires
        m > 0,
        cong(a, b, m),
        cong(b, c, m),
    ensures
        cong(a, c, m),
{
    lemma_fundamental_div_mod(a - b, m);
    lemma_fundamental_div_mod(b - c, m);
    let k = (a - b) / m + (b - c) / m;
    assert(a - c == k * m + 0) by (nonlinear_arith)
        requires
            a - b == m * ((a - b) / m),
            b - c == m * ((b - c) / m),
            k == (a - b) / m + (b - c) / m,
    ;
    lemma_mod_from_parts(a - c, m, k, 0);
}

/// Sums of congruent integers are congruent.
pub proof fn lemma_cong_add(a: int, a2: int, b: int, b2: int, m: int)
    requires
        m > 0,
        cong(a, a2, m),
        cong(b, b2, m),
    ensures
        cong(a + b, a2 + b2, m),
        cong(a - b, a2 - b2, m),
{
    lemma_fundamental_div_mod(a - a2, m);
    lemma_fundamental_div_mod(b - b2, m);
    let ka = (a - a2) / m;
    let kb = (b - b2) / m;
    assert((a + b) - (a2 + b2) == (ka + kb) * m + 0) by (nonlinear_arith)
        requires
            a - a2 == m * ka,
            b - b2 == m * kb,
    ;
    assert((a - b) - (a2 - b2) == (ka - kb) * m + 0) by (nonlinear_arith)
        requires
            a - a2 == m * ka,
            b - b2 == m * kb,
    ;
    lemma_mod_from_parts((a + b) - (a2 + b2), m, ka + kb, 0);
    lemma_mod_from_parts((a - b) - (a2 - b2), m, ka - kb, 0);
}

/// Products of congruent integers are congruent.
pub proof fn lemma_cong_mul(a: int, a2: int, b: int, b2: int, m: int)
    requires
        m > 0,
        cong(a, a2, m),
        cong(b, b2, m),
    ensures
        cong(a * b, a2 * b2, m),
{
    lemma_fundamental_div_mod(a - a2, m);
    lemma_fundamental_div_mod(b - b2, m);
    let ka = (a - a2) / m;
    let kb = (b - b2) / m;
    assert(a * b - a2 * b2 == (a * kb + b2 * ka) * m + 0) by (nonlinear_arith)
        requires
            a - a2 == m * ka,
            b - b2 == m * kb,
    ;
    lemma_mod_from_parts(a * b - a2 * b2, m, a * kb + b2 * ka, 0);
}

/// A residue is congruent to what it is the residue of.
pub proof fn lemma_cong_mod(a: int, m: int)
    requires
        m > 0,
    ensures
        cong(a % m, a, m),
        cong(a, a % m, m),
{
    lemma_fundamental_div_mod(a, m);
    let k = a / m;
    assert(a - a % m == k * m + 0) by (nonlinear_arith)
        requires
            a == m * k + a % m,
    ;
    lemma_mod_from_parts(a - a % m, m, k, 0);
    lemma_cong_sym(a, a % m, m);
}

/// Congruent integers have the same residue.
pub proof fn lemma_cong_residue(a: int, b: int, m: int)
    requires
        m > 0,
        cong(a, b, m),
    ensures
        a % m == b % m,
{
    lemma_mod_equivalence(a, b, m);
}

/// Integers with the same residue are congruent.
pub proof fn lemma_residue_cong(a: int, b: int, m: int)
    requires
        m > 0,
        a % m == b % m,
    ensures
        cong(a, b, m),
{
    lemma_mod_equivalence(a, b, m);
}

/// What vanishes modulo `q` exactly where the point `(e f, g h, e h, f g)`
/// satisfies the curve equation: `(g h)^2 - (e f)^2 - (f g)^2 - d (e h)^2`.
pub open spec fn curve_norm(e: int, f: int, g: int, h: int) -> int {
    (g * h) * (g * h) - (e * f) * (e * f) - (f * g) * (f * g) - d() * ((e * h) * (e * h))
}

/// The square of a product of residues, as a residue, is congruent to the
/// square of the product.
proof fn lemma_square_of_product(a: int, b: int)
    ensures
        cong(fmul(fmul(a, b), fmul(a, b)), (a * b) * (a * b), q()),
{
    let m = q();
    lemma_cong_mod(a * b, m);
    lemma_cong_mul(fmul(a, b), a * b, fmul(a, b), a * b, m);
    lemma_cong_mod(fmul(a, b) * fmul(a, b), m);
    lemma_cong_trans(fmul(fmul(a, b), fmul(a, b)), fmul(a, b) * fmul(a, b), (a * b) * (a * b), m);
}

/// An assembled point satisfies the curve equation exactly where its norm
/// vanishes modulo `q`.
pub proof fn lemma_assembled_on_curve(e: int, f: int, g: int, h: int)
    ensures
        extended_on_curve(assemble(e, f, g, h)) <==> cong(curve_norm(e, f, g, h), 0, q()),
{
    let m = q();
    let p = assemble(e, f, g, h);
    let y2 = fmul(p.y, p.y);
    let x2 = fmul(p.x, p.x);
    let z2 = fmul(p.z, p.z);
    let t2 = fmul(p.t, p.t);
    lemma_square_of_product(g, h);
    lemma_square_of_product(e, f);
    lemma_square_of_product(f, g);
    lemma_square_of_product(e, h);
    let l0 = (g * h) * (g * h) - (e * f) * (e * f);
    let r0 = (f * g) * (f * g) + d() * ((e * h) * (e * h));
    // the left side
    lemma_cong_add(y2, (g * h) * (g * h), x2, (e * f) * (e * f), m);
    lemma_cong_residue(y2 - x2, l0, m);
    assert(fsub(y2, x2) == l0 % m);
    // the right side
    lemma_cong_refl(d(), m);
    lemma_cong_mul(d(), d(), t2, (e * h) * (e * h), m);
    lemma_cong_mod(d() * t2, m);
    lemma_cong_trans(fmul(d(), t2), d() * t2, d() * ((e * h) * (e * h)), m);
    lemma_cong_add(z2, (f * g) * (f * g), fmul(d(), t2), d() * ((e * h) * (e * h)), m);
    lemma_cong_residue(z2 + fmul(d(), t2), r0, m);
    assert(fadd(z2, fmul(d(), t2)) == r0 % m);
    lemma_mod_equivalence(l0, r0, m);
    assert(l0 - r0 == curve_norm(e, f, g, h));
}

/// The norm of congruent terms is congruent.
proof fn lemma_norm_cong(e: int, f: int, g: int, h: int, e0: int, f0: int, g0: int, h0: int)
    requires
        cong(e, e0, q()),
        cong(f, f0, q()),
        cong(g, g0, q()),
        cong(h, h0, q()),
    ensures
        cong(curve_norm(e, f, g, h), curve_norm(e0, f0, g0, h0), q()),
{
    let m = q();
    lemma_cong_mul(g, g0, h, h0, m);
    lemma_cong_mul(e, e0, f, f0, m);
    lemma_cong_mul(f, f0, g, g0, m);
    lemma_cong_mul(e, e0, h, h0, m);
    lemma_cong_mul(g * h, g0 * h0, g * h, g0 * h0, m);
    lemma_cong_mul(e * f, e0 * f0, e * f, e0 * f0, m);
    lemma_cong_mul(f * g, f0 * g0, f * g, f0 * g0, m);
    lemma_cong_mul(e * h, e0 * h0, e * h, e0 * h0, m);
    lemma_cong_refl(d(), m);
    lemma_cong_mul(d(), d(), (e * h) * (e * h), (e0 * h0) * (e0 * h0), m);
    lemma_cong_add((g * h) * (g * h), (g0 * h0) * (g0 * h0), (e * f) * (e * f), (e0 * f0) * (e0 * f0), m);
    lemma_cong_add(
        (g * h) * (g * h) - (e * f) * (e * f),
        (g0 * h0) * (g0 * h0) - (e0 * f0) * (e0 * f0),
        (f * g) * (f * g),
        (f0 * g0) * (f0 * g0),
        m,
    );
    lemma_cong_add(
        (g * h) * (g * h) - (e * f) * (e * f) - (f * g) * (f * g),
        (g0 * h0) * (g0 * h0) - (e0 * f0) * (e0 * f0) - (f0 * g0) * (f0 * g0),
        d() * ((e * h) * (e * h)),
        d() * ((e0 * h0) * (e0 * h0)),
        m,
    );
}

/// The terms of the sum of two extended points, up to congruence:
/// `E = X1 Y2 + Y1 X2`, `H = X1 X2 + Y1 Y2`, `F = Z1 Z2 - d T1 T2` and
/// `G = Z1 Z2 + d T1 T2`.
pub proof fn lemma_sum_terms(p0: ExtendedPoint, p1: ExtendedPoint)
    ensures
        ({
            let a = fmul(p0.x, p1.x);
            let b = fmul(p0.y, p1.y);
            let c = fmul(fmul(d(), p0.t), p1.t);
            let dd = fmul(p0.z, p1.z);
            let h = fadd(a, b);
            let e = fsub(fmul(fadd(p0.x, p0.y), fadd(p1.x, p1.y)), h);
            let f = fsub(dd, c);
            let g = fadd(dd, c);
            extended_sum(p0, p1) == assemble(e, f, g, h) && cong(
                e,
                p0.x * p1.y + p0.y * p1.x,
                q(),
            ) && cong(h, p0.x * p1.x + p0.y * p1.y, q()) && cong(
                f,
                p0.z * p1.z - d() * (p0.t * p1.t),
                q(),
            ) && cong(g, p0.z * p1.z + d() * (p0.t * p1.t), q())
        }),
{
    let m = q();
    let a = fmul(p0.x, p1.x);
    let b = fmul(p0.y, p1.y);
    let c = fmul(fmul(d(), p0.t), p1.t);
    let dd = fmul(p0.z, p1.z);
    let h = fadd(a, b);
    let s0 = fadd(p0.x, p0.y);
    let s1 = fadd(p1.x, p1.y);
    let e = fsub(fmul(s0, s1), h);
    let f = fsub(dd, c);
    let g = fadd(dd, c);
    // a, b, dd
    lemma_cong_mod(p0.x * p1.x, m);
    lemma_cong_mod(p0.y * p1.y, m);
    lemma_cong_mod(p0.z * p1.z, m);
    // h
    lemma_cong_add(a, p0.x * p1.x, b, p0.y * p1.y, m);
    lemma_cong_mod(a + b, m);
    lemma_cong_trans(h, a + b, p0.x * p1.x + p0.y * p1.y, m);
    // c
    lemma_cong_mod(d() * p0.t, m);
    lemma_cong_refl(p1.t, m);
    lemma_cong_mul(fmul(d(), p0.t), d() * p0.t, p1.t, p1.t, m);
    lemma_cong_mod(fmul(d(), p0.t) * p1.t, m);
    lemma_cong_trans(c, fmul(d(), p0.t) * p1.t, (d() * p0.t) * p1.t, m);
    assert((d() * p0.t) * p1.t == d() * (p0.t * p1.t)) by (nonlinear_arith);
    // f, g
    lemma_cong_add(dd, p0.z * p1.z, c, d() * (p0.t * p1.t), m);
    lemma_cong_mod(dd - c, m);
    lemma_cong_mod(dd + c, m);
    lemma_cong_trans(f, dd - c, p0.z * p1.z - d() * (p0.t * p1.t), m);
    lemma_cong_trans(g, dd + c, p0.z * p1.z + d() * (p0.t * p1.t), m);
    // e
    lemma_cong_mod(p0.x + p0.y, m);
    lemma_cong_mod(p1.x + p1.y, m);
    lemma_cong_mul(s0, p0.x + p0.y, s1, p1.x + p1.y, m);
    lemma_cong_mod(s0 * s1, m);
    lemma_cong_trans(fmul(s0, s1), s0 * s1, (p0.x + p0.y) * (p1.x + p1.y), m);
    lemma_cong_add(fmul(s0, s1), (p0.x + p0.y) * (p1.x + p1.y), h, p0.x * p1.x + p0.y * p1.y, m);
    lemma_cong_mod(fmul(s0, s1) - h, m);
    lemma_cong_trans(
        e,
        fmul(s0, s1) - h,
        (p0.x + p0.y) * (p1.x + p1.y) - (p0.x * p1.x + p0.y * p1.y),
        m,
    );
    assert((p0.x + p0.y) * (p1.x + p1.y) - (p0.x * p1.x + p0.y * p1.y) == p0.x * p1.y + p0.y * p1.x)
        by (nonlinear_arith);
}

/// The relations of a well-formed point of the curve, as congruences:
/// `Y^2 - X^2 = Z^2 + d T^2` and `X Y = T Z`.
proof fn lemma_point_relations(p: ExtendedPoint)
    requires
        extended_wf(p),
        extended_on_curve(p),
    ensures
        cong(p.y * p.y - p.x * p.x, p.z * p.z + d() * (p.t * p.t), q()),
        cong(p.x * p.y, p.t * p.z, q()),
        cong((p.x * p.x) * (p.y * p.y), (p.t * p.t) * (p.z * p.z), q()),
{
    let m = q();
    lemma_residue_cong(p.x * p.y, p.t * p.z, m);
    lemma_cong_mul(p.x * p.y, p.t * p.z, p.x * p.y, p.t * p.z, m);
    assert((p.x * p.y) * (p.x * p.y) == (p.x * p.x) * (p.y * p.y)) by (nonlinear_arith);
    assert((p.t * p.z) * (p.t * p.z) == (p.t * p.t) * (p.z * p.z)) by (nonlinear_arith);
    // the curve equation
    let y2 = fmul(p.y, p.y);
    let x2 = fmul(p.x, p.x);
    let z2 = fmul(p.z, p.z);
    let t2 = fmul(p.t, p.t);
    lemma_cong_mod(p.y * p.y, m);
    lemma_cong_mod(p.x * p.x, m);
    lemma_cong_mod(p.z * p.z, m);
    lemma_cong_mod(p.t * p.t, m);
    lemma_cong_add(p.y * p.y, y2, p.x * p.x, x2, m);
    lemma_cong_mod(y2 - x2, m);
    lemma_cong_trans(p.y * p.y - p.x * p.x, y2 - x2, fsub(y2, x2), m);
    lemma_cong_refl(d(), m);
    lemma_cong_mul(d(), d(), t2, p.t * p.t, m);
    lemma_cong_mod(d() * t2, m);
    lemma_cong_trans(fmul(d(), t2), d() * t2, d() * (p.t * p.t), m);
    lemma_cong_add(z2, p.z * p.z, fmul(d(), t2), d() * (p.t * p.t), m);
    lemma_cong_mod(z2 + fmul(d(), t2), m);
    lemma_cong_trans(fadd(z2, fmul(d(), t2)), z2 + fmul(d(), t2), p.z * p.z + d() * (p.t * p.t), m);
    lemma_cong_trans(
        p.y * p.y - p.x * p.x,
        fsub(y2, x2),
        p.z * p.z + d() * (p.t * p.t),
        m,
    );
}

/// The norm of a sum, with the differences and products of the squared
/// coordinates as placeholders: `da` and `dc` stand for `Y^2 - X^2` of the
/// two points, `m` for `X1 Y1 X2 Y2`, and `ab` and `ce` for `X^2 Y^2`.
pub open spec fn sum_norm(
    big_a: int,
    big_b: int,
    s: int,
    n: int,
    dd: int,
    da: int,
    dc: int,
    m: int,
    ab: int,
    ce: int,
) -> int {
    big_a * (da * dc) + 2 * dd * n * (s + 4 * m) - big_b * big_b - dd * (ce * (da * da + 2 * ab) + ab * (
        dc * dc + 2 * ce) + 2 * m * s + 4 * (m * m))
}

/// A product of two products, regrouped: `(a b)(c d) = (a c)(b d)`.
proof fn lemma_regroup(a: int, b: int, c: int, d: int)
    ensures
        (a * b) * (c * d) == (a * c) * (b * d),
{
    assert((a * b) * (c * d) == (a * c) * (b * d)) by (nonlinear_arith);
}

/// The square of a sum of two products of coordinates:
/// `(p r + s t)^2 = p^2 r^2 + s^2 t^2 + 2 (p s)(r t)`.
proof fn lemma_square_of_terms(p: int, r: int, s: int, t: int)
    ensures
        (p * r + s * t) * (p * r + s * t) == (p * p) * (r * r) + (s * s) * (t * t) + 2 * ((p * s) * (r
            * t)),
{
    let u = p * r;
    let v = s * t;
    assert((u + v) * (u + v) == u * u + v * v + 2 * (u * v)) by (nonlinear_arith);
    lemma_regroup(p, r, p, r);
    lemma_regroup(s, t, s, t);
    lemma_regroup(p, r, s, t);
}

/// The product of the squares of the terms `E` and `H` of a sum, in the
/// squares `a`, `b`, `c`, `e` of the coordinates and the product `m` of all
/// four.
proof fn lemma_product_of_squares(a: int, b: int, c: int, e: int, m: int)
    ensures
        (a * e + b * c + 2 * m) * (a * c + b * e + 2 * m) == (c * e) * ((b - a) * (b - a) + 2 * (a * b))
            + (a * b) * ((e - c) * (e - c) + 2 * (c * e)) + 2 * m * ((a + b) * (c + e)) + 4 * (m
            * m),
{
    let u = a * e + b * c;
    let v = a * c + b * e;
    assert((u + 2 * m) * (v + 2 * m) == u * v + 2 * m * (u + v) + 4 * (m * m)) by (nonlinear_arith);
    assert(u + v == (a + b) * (c + e)) by (nonlinear_arith)
        requires
            u == a * e + b * c,
            v == a * c + b * e,
    ;
    let (p1, p2, p3, p4) = (a * e, b * c, a * c, b * e);
    assert((p1 + p2) * (p3 + p4) == p1 * p3 + p1 * p4 + p2 * p3 + p2 * p4) by (nonlinear_arith);
    lemma_regroup(a, e, a, c);
    lemma_regroup(a, e, b, e);
    lemma_regroup(b, c, a, c);
    lemma_regroup(b, c, b, e);
    // p1 p3 == (a a)(e c), p1 p4 == (a b)(e e), p2 p3 == (b a)(c c), p2 p4 == (b b)(c e)
    let (aa, bb, cc, ee, ab, ce) = (a * a, b * b, c * c, e * e, a * b, c * e);
    assert(e * c == ce && b * a == ab) by (nonlinear_arith)
        requires
            ce == c * e,
            ab == a * b,
    ;
    assert(u * v == aa * ce + ab * ee + ab * cc + bb * ce);
    assert(aa + bb == (b - a) * (b - a) + 2 * ab) by (nonlinear_arith)
        requires
            aa == a * a,
            bb == b * b,
            ab == a * b,
    ;
    assert(cc + ee == (e - c) * (e - c) + 2 * ce) by (nonlinear_arith)
        requires
            cc == c * c,
            ee == e * e,
            ce == c * e,
    ;
    assert(aa * ce + ab * ee + ab * cc + bb * ce == ce * (aa + bb) + ab * (cc + ee))
        by (nonlinear_arith);
}

/// The norm in the terms `F = zeta - tau` and `G = zeta + tau`.
proof fn lemma_norm_in_zeta(e: int, h: int, zeta: int, tau: int, dd: int)
    ensures
        ({
            let f = zeta - tau;
            let g = zeta + tau;
            (g * h) * (g * h) - (e * f) * (e * f) - (f * g) * (f * g) - dd * ((e * h) * (e * h)) == (
            zeta * zeta + tau * tau) * (h * h - e * e) + 2 * (zeta * tau) * (h * h + e * e) - (zeta
                * zeta - tau * tau) * (zeta * zeta - tau * tau) - dd * ((e * e) * (h * h))
        }),
{
    let f = zeta - tau;
    let g = zeta + tau;
    let (e2, h2) = (e * e, h * h);
    let (p, qq, r) = (zeta * zeta, zeta * tau, tau * tau);
    lemma_regroup(g, h, g, h);
    lemma_regroup(e, f, e, f);
    lemma_regroup(f, g, f, g);
    lemma_regroup(e, h, e, h);
    assert(g * g == p + 2 * qq + r) by (nonlinear_arith)
        requires
            g == zeta + tau,
            p == zeta * zeta,
            qq == zeta * tau,
            r == tau * tau,
    ;
    assert(f * f == p - 2 * qq + r) by (nonlinear_arith)
        requires
            f == zeta - tau,
            p == zeta * zeta,
            qq == zeta * tau,
            r == tau * tau,
    ;
    lemma_regroup(zeta, tau, zeta, tau);
    assert(qq * qq == p * r);
    let (gg, ff) = (g * g, f * f);
    assert(ff * gg == (p + r) * (p + r) - 4 * (qq * qq)) by (nonlinear_arith)
        requires
            gg == p + 2 * qq + r,
            ff == p - 2 * qq + r,
    ;
    assert((p - r) * (p - r) == (p + r) * (p + r) - 4 * (p * r)) by (nonlinear_arith);
    assert(gg * h2 - e2 * ff == (p + r) * (h2 - e2) + 2 * qq * (h2 + e2)) by (nonlinear_arith)
        requires
            gg == p + 2 * qq + r,
            ff == p - 2 * qq + r,
    ;
}

/// The norm of the sum of two points, expanded in the squares of their
/// coordinates.
proof fn lemma_norm_expands(
    x1: int,
    y1: int,
    z1: int,
    t1: int,
    x2: int,
    y2: int,
    z2: int,
    t2: int,
    dd: int,
)
    ensures
        ({
            let e = x1 * y2 + y1 * x2;
            let h = x1 * x2 + y1 * y2;
            let f = z1 * z2 - dd * (t1 * t2);
            let g = z1 * z2 + dd * (t1 * t2);
            let (a, b, c, ee) = (x1 * x1, y1 * y1, x2 * x2, y2 * y2);
            let (w1, w2, u1, u2) = (z1 * z1, z2 * z2, t1 * t1, t2 * t2);
            (g * h) * (g * h) - (e * f) * (e * f) - (f * g) * (f * g) - dd * ((e * h) * (e * h))
                == sum_norm(
                w1 * w2 + dd * dd * (u1 * u2),
                w1 * w2 - dd * dd * (u1 * u2),
                (a + b) * (c + ee),
                (z1 * z2) * (t1 * t2),
                dd,
                b - a,
                ee - c,
                (x1 * y1) * (x2 * y2),
                a * b,
                c * ee,
            )
        }),
{
    let e = x1 * y2 + y1 * x2;
    let h = x1 * x2 + y1 * y2;
    let zeta = z1 * z2;
    let tau = dd * (t1 * t2);
    let (a, b, c, ee) = (x1 * x1, y1 * y1, x2 * x2, y2 * y2);
    let (w1, w2, u1, u2) = (z1 * z1, z2 * z2, t1 * t1, t2 * t2);
    let m = (x1 * y1) * (x2 * y2);
    let n = (z1 * z2) * (t1 * t2);
    let e2 = e * e;
    let h2 = h * h;
    lemma_norm_in_zeta(e, h, zeta, tau, dd);
    // the squares of e and h
    lemma_square_of_terms(x1, y2, y1, x2);
    lemma_regroup(x1, y1, y2, x2);
    assert(y2 * x2 == x2 * y2) by (nonlinear_arith);
    assert(e2 == a * ee + b * c + 2 * m);
    lemma_square_of_terms(x1, x2, y1, y2);
    assert(h2 == a * c + b * ee + 2 * m);
    assert(h2 - e2 == (b - a) * (ee - c)) by (nonlinear_arith)
        requires
            e2 == a * ee + b * c + 2 * m,
            h2 == a * c + b * ee + 2 * m,
    ;
    assert(h2 + e2 == (a + b) * (c + ee) + 4 * m) by (nonlinear_arith)
        requires
            e2 == a * ee + b * c + 2 * m,
            h2 == a * c + b * ee + 2 * m,
    ;
    lemma_product_of_squares(a, b, c, ee, m);
    // zeta and tau
    lemma_regroup(z1, z2, z1, z2);
    assert(zeta * zeta == w1 * w2);
    let tt = t1 * t2;
    lemma_regroup(t1, t2, t1, t2);
    lemma_regroup(dd, tt, dd, tt);
    assert(tau * tau == (dd * dd) * (u1 * u2));
    assert((dd * dd) * (u1 * u2) == dd * dd * (u1 * u2));
    assert(zeta * tau == dd * n) by (nonlinear_arith)
        requires
            tau == dd * tt,
            n == zeta * tt,
    ;
    let big_a = w1 * w2 + dd * dd * (u1 * u2);
    let big_b = w1 * w2 - dd * dd * (u1 * u2);
    let s = (a + b) * (c + ee);
    let zt = zeta * tau;
    assert(2 * zt * (h2 + e2) == 2 * dd * n * (s + 4 * m)) by (nonlinear_arith)
        requires
            zt == dd * n,
            h2 + e2 == s + 4 * m,
    ;
}


/// The norm of a sum respects congruence in its placeholders.
proof fn lemma_sum_norm_cong(
    big_a: int,
    big_b: int,
    s: int,
    n: int,
    dd: int,
    da: int,
    dc: int,
    m: int,
    ab: int,
    ce: int,
    da2: int,
    dc2: int,
    m2: int,
    ab2: int,
    ce2: int,
)
    requires
        cong(da, da2, q()),
        cong(dc, dc2, q()),
        cong(m, m2, q()),
        cong(ab, ab2, q()),
        cong(ce, ce2, q()),
    ensures
        cong(
            sum_norm(big_a, big_b, s, n, dd, da, dc, m, ab, ce),
            sum_norm(big_a, big_b, s, n, dd, da2, dc2, m2, ab2, ce2),
            q(),
        ),
{
    let p = q();
    lemma_cong_refl(big_a, p);
    lemma_cong_refl(big_b * big_b, p);
    lemma_cong_refl(s, p);
    lemma_cong_refl(dd, p);
    lemma_cong_refl(2 * dd * n, p);
    lemma_cong_refl(2, p);
    lemma_cong_refl(4, p);
    // big_a * (da * dc)
    lemma_cong_mul(da, da2, dc, dc2, p);
    lemma_cong_mul(big_a, big_a, da * dc, da2 * dc2, p);
    // 2 dd n (s + 4 m)
    lemma_cong_mul(4, 4, m, m2, p);
    lemma_cong_add(s, s, 4 * m, 4 * m2, p);
    lemma_cong_mul(2 * dd * n, 2 * dd * n, s + 4 * m, s + 4 * m2, p);
    // ce (da da + 2 ab)
    lemma_cong_mul(da, da2, da, da2, p);
    lemma_cong_mul(2, 2, ab, ab2, p);
    lemma_cong_add(da * da, da2 * da2, 2 * ab, 2 * ab2, p);
    lemma_cong_mul(ce, ce2, da * da + 2 * ab, da2 * da2 + 2 * ab2, p);
    // ab (dc dc + 2 ce)
    lemma_cong_mul(dc, dc2, dc, dc2, p);
    lemma_cong_mul(2, 2, ce, ce2, p);
    lemma_cong_add(dc * dc, dc2 * dc2, 2 * ce, 2 * ce2, p);
    lemma_cong_mul(ab, ab2, dc * dc + 2 * ce, dc2 * dc2 + 2 * ce2, p);
    // 2 m s + 4 (m m)
    lemma_cong_mul(2, 2, m, m2, p);
    lemma_cong_mul(2 * m, 2 * m2, s, s, p);
    lemma_cong_mul(m, m2, m, m2, p);
    lemma_cong_mul(4, 4, m * m, m2 * m2, p);
    let t1 = ce * (da * da + 2 * ab);
    let t1b = ce2 * (da2 * da2 + 2 * ab2);
    let t2 = ab * (dc * dc + 2 * ce);
    let t2b = ab2 * (dc2 * dc2 + 2 * ce2);
    let t3 = 2 * m * s;
    let t3b = 2 * m2 * s;
    let t4 = 4 * (m * m);
    let t4b = 4 * (m2 * m2);
    lemma_cong_add(t1, t1b, t2, t2b, p);
    lemma_cong_add(t1 + t2, t1b + t2b, t3, t3b, p);
    lemma_cong_add(t1 + t2 + t3, t1b + t2b + t3b, t4, t4b, p);
    lemma_cong_mul(dd, dd, t1 + t2 + t3 + t4, t1b + t2b + t3b + t4b, p);
    let h1 = big_a * (da * dc);
    let h1b = big_a * (da2 * dc2);
    let h2 = 2 * dd * n * (s + 4 * m);
    let h2b = 2 * dd * n * (s + 4 * m2);
    lemma_cong_add(h1, h1b, h2, h2b, p);
    lemma_cong_add(h1 + h2, h1b + h2b, big_b * big_b, big_b * big_b, p);
    lemma_cong_add(
        h1 + h2 - big_b * big_b,
        h1b + h2b - big_b * big_b,
        dd * (t1 + t2 + t3 + t4),
        dd * (t1b + t2b + t3b + t4b),
        p,
    );
}

/// The norm of a sum vanishes once the relations of the two points are put
/// in: with `w` for `Z^2` and `u` for `T^2`.
proof fn lemma_sum_norm_vanishes(w1: int, w2: int, u1: int, u2: int, s: int, n: int, dd: int)
    requires
        n * n == (w1 * w2) * (u1 * u2),
    ensures
        sum_norm(
            w1 * w2 + dd * dd * (u1 * u2),
            w1 * w2 - dd * dd * (u1 * u2),
            s,
            n,
            dd,
            w1 + dd * u1,
            w2 + dd * u2,
            n,
            u1 * w1,
            u2 * w2,
        ) == 0,
{
    let (s1, s2) = (dd * u1, dd * u2);
    let (p, qq, r, t) = (w1 * w2, s1 * s2, w1 * s2, s1 * w2);
    let (k1, k2) = (w1 + s1, w2 + s2);
    let (ab, ce) = (u1 * w1, u2 * w2);
    let big_a = w1 * w2 + dd * dd * (u1 * u2);
    let big_b = w1 * w2 - dd * dd * (u1 * u2);
    let nn = n * n;
    // dd dd (u1 u2) == s1 s2
    lemma_regroup(dd, u1, dd, u2);
    assert(dd * dd * (u1 * u2) == qq);
    assert(big_a == p + qq && big_b == p - qq);
    // k1 k2
    assert(k1 * k2 == p + r + t + qq) by (nonlinear_arith)
        requires
            k1 == w1 + s1,
            k2 == w2 + s2,
            p == w1 * w2,
            qq == s1 * s2,
            r == w1 * s2,
            t == s1 * w2,
    ;
    // dd ce k1^2 == p r + 2 p qq + qq t
    let dce = dd * ce;
    assert(dce == s2 * w2) by (nonlinear_arith)
        requires
            dce == dd * (u2 * w2),
            s2 == dd * u2,
    ;
    let dab = dd * ab;
    assert(dab == s1 * w1) by (nonlinear_arith)
        requires
            dab == dd * (u1 * w1),
            s1 == dd * u1,
    ;
    assert(k1 * k1 == w1 * w1 + 2 * (w1 * s1) + s1 * s1) by (nonlinear_arith)
        requires
            k1 == w1 + s1,
    ;
    assert(k2 * k2 == w2 * w2 + 2 * (w2 * s2) + s2 * s2) by (nonlinear_arith)
        requires
            k2 == w2 + s2,
    ;
    lemma_regroup(s2, w2, w1, w1);
    lemma_regroup(s2, w2, w1, s1);
    lemma_regroup(s2, w2, s1, s1);
    lemma_regroup(s1, w1, w2, w2);
    lemma_regroup(s1, w1, w2, s2);
    lemma_regroup(s1, w1, s2, s2);
    assert((s2 * w1) * (w2 * w1) == p * r && (s2 * w1) * (w2 * s1) == r * t && (s2 * s1) * (w2 * s1)
        == qq * t) by (nonlinear_arith)
        requires
            p == w1 * w2,
            qq == s1 * s2,
            r == w1 * s2,
            t == s1 * w2,
    ;
    assert((s1 * w2) * (w1 * w2) == p * t && (s1 * w2) * (w1 * s2) == r * t && (s1 * s2) * (w1 * s2)
        == qq * r) by (nonlinear_arith)
        requires
            p == w1 * w2,
            qq == s1 * s2,
            r == w1 * s2,
            t == s1 * w2,
    ;
    let dk1 = dce * (k1 * k1);
    let dk2 = dab * (k2 * k2);
    assert(dk1 == p * r + 2 * (r * t) + qq * t) by (nonlinear_arith)
        requires
            dk1 == (s2 * w2) * (w1 * w1 + 2 * (w1 * s1) + s1 * s1),
            (s2 * w2) * (w1 * w1) == p * r,
            (s2 * w2) * (w1 * s1) == r * t,
            (s2 * w2) * (s1 * s1) == qq * t,
    ;
    assert(dk2 == p * t + 2 * (r * t) + qq * r) by (nonlinear_arith)
        requires
            dk2 == (s1 * w1) * (w2 * w2 + 2 * (w2 * s2) + s2 * s2),
            (s1 * w1) * (w2 * w2) == p * t,
            (s1 * w1) * (w2 * s2) == r * t,
            (s1 * w1) * (s2 * s2) == qq * r,
    ;
    // r t == p qq
    lemma_regroup(w1, s2, s1, w2);
    lemma_regroup(w1, w2, s1, s2);
    assert(s2 * w2 == w2 * s2) by (nonlinear_arith);
    assert(r * t == p * qq);
    // the main part: A k1 k2 - B^2 - dk1 - dk2 == 0
    assert(big_a * (k1 * k2) - big_b * big_b - dk1 - dk2 == 0) by (nonlinear_arith)
        requires
            big_a == p + qq,
            big_b == p - qq,
            k1 * k2 == p + r + t + qq,
            dk1 == p * r + 2 * (r * t) + qq * t,
            dk2 == p * t + 2 * (r * t) + qq * r,
            r * t == p * qq,
    ;
    // the part with n: dd ab ce == dd n n
    lemma_regroup(u1, w1, u2, w2);
    assert(ab * ce == nn) by (nonlinear_arith)
        requires
            ab * ce == (u1 * u2) * (w1 * w2),
            nn == (w1 * w2) * (u1 * u2),
    ;
    let v = sum_norm(big_a, big_b, s, n, dd, k1, k2, n, ab, ce);
    let kk1 = k1 * k1;
    let kk2 = k2 * k2;
    let t1 = ce * (kk1 + 2 * ab);
    let t2 = ab * (kk2 + 2 * ce);
    let rest = 2 * n * s + 4 * nn;
    assert(t1 == ce * kk1 + 2 * nn) by (nonlinear_arith)
        requires
            t1 == ce * (kk1 + 2 * ab),
            ab * ce == nn,
    ;
    assert(t2 == ab * kk2 + 2 * nn) by (nonlinear_arith)
        requires
            t2 == ab * (kk2 + 2 * ce),
            ab * ce == nn,
    ;
    vstd::arithmetic::mul::lemma_mul_is_associative(dd, ce, kk1);
    vstd::arithmetic::mul::lemma_mul_is_associative(dd, ab, kk2);
    let total = t1 + t2 + rest;
    assert(dd * total == dk1 + dk2 + dd * (4 * nn + rest)) by (nonlinear_arith)
        requires
            total == ce * kk1 + 2 * nn + (ab * kk2 + 2 * nn) + rest,
            dk1 == dd * (ce * kk1),
            dk2 == dd * (ab * kk2),
    ;
    let x = 2 * dd * n * (s + 4 * n);
    assert(x == dd * (4 * nn + rest)) by (nonlinear_arith)
        requires
            x == 2 * dd * n * (s + 4 * n),
            rest == 2 * n * s + 4 * nn,
            nn == n * n,
    ;
    assert(v == big_a * (k1 * k2) + x - big_b * big_b - dd * total);
}

/// The sum of two points of the curve is a point of the curve.
pub proof fn lemma_sum_on_curve(p0: ExtendedPoint, p1: ExtendedPoint)
    requires
        extended_wf(p0),
        extended_wf(p1),
        extended_on_curve(p0),
        extended_on_curve(p1),
    ensures
        extended_on_curve(extended_sum(p0, p1)),
{
    let m = q();
    let a = fmul(p0.x, p1.x);
    let b = fmul(p0.y, p1.y);
    let c = fmul(fmul(d(), p0.t), p1.t);
    let dd = fmul(p0.z, p1.z);
    let h = fadd(a, b);
    let e = fsub(fmul(fadd(p0.x, p0.y), fadd(p1.x, p1.y)), h);
    let f = fsub(dd, c);
    let g = fadd(dd, c);
    lemma_sum_terms(p0, p1);
    let e0 = p0.x * p1.y + p0.y * p1.x;
    let h0 = p0.x * p1.x + p0.y * p1.y;
    let f0 = p0.z * p1.z - d() * (p0.t * p1.t);
    let g0 = p0.z * p1.z + d() * (p0.t * p1.t);
    lemma_norm_cong(e, f, g, h, e0, f0, g0, h0);
    lemma_norm_expands(p0.x, p0.y, p0.z, p0.t, p1.x, p1.y, p1.z, p1.t, d());
    let (sa, sb, sc, se) = (p0.x * p0.x, p0.y * p0.y, p1.x * p1.x, p1.y * p1.y);
    let (w1, w2, u1, u2) = (p0.z * p0.z, p1.z * p1.z, p0.t * p0.t, p1.t * p1.t);
    let big_a = w1 * w2 + d() * d() * (u1 * u2);
    let big_b = w1 * w2 - d() * d() * (u1 * u2);
    let s = (sa + sb) * (sc + se);
    let n = (p0.z * p1.z) * (p0.t * p1.t);
    let mm = (p0.x * p0.y) * (p1.x * p1.y);
    // the relations
    lemma_point_relations(p0);
    lemma_point_relations(p1);
    lemma_cong_mul(p0.x * p0.y, p0.t * p0.z, p1.x * p1.y, p1.t * p1.z, m);
    lemma_regroup(p0.t, p0.z, p1.t, p1.z);
    assert((p0.t * p0.z) * (p1.t * p1.z) == n) by (nonlinear_arith)
        requires
            (p0.t * p0.z) * (p1.t * p1.z) == (p0.t * p1.t) * (p0.z * p1.z),
            n == (p0.z * p1.z) * (p0.t * p1.t),
    ;
    lemma_sum_norm_cong(
        big_a,
        big_b,
        s,
        n,
        d(),
        sb - sa,
        se - sc,
        mm,
        sa * sb,
        sc * se,
        w1 + d() * u1,
        w2 + d() * u2,
        n,
        u1 * w1,
        u2 * w2,
    );
    lemma_regroup(p0.z, p1.z, p0.z, p1.z);
    lemma_regroup(p0.t, p1.t, p0.t, p1.t);
    assert(n * n == (w1 * w2) * (u1 * u2)) by {
        lemma_regroup(p0.z * p1.z, p0.t * p1.t, p0.z * p1.z, p0.t * p1.t);
    }
    lemma_sum_norm_vanishes(w1, w2, u1, u2, s, n, d());
    lemma_cong_trans(
        curve_norm(e, f, g, h),
        curve_norm(e0, f0, g0, h0),
        0,
        m,
    );
    lemma_assembled_on_curve(e, f, g, h);
}

/// The square of `y + i s x`, where `i` squares to minus one, `s` is a sign,
/// and the point satisfies the relations of the curve: it is congruent to
/// `Z^2 + d T^2 + 2 i s T Z`.
proof fn lemma_twisted_square(x: int, y: int, z: int, t: int, i: int, s: int, dd: int, m: int)
    requires
        m > 0,
        cong(y * y - x * x, z * z + dd * (t * t), m),
        cong(x * y, t * z, m),
        cong(i * i, -1, m),
        s * s == 1,
    ensures
        cong((y + i * s * x) * (y + i * s * x), z * z + dd * (t * t) + 2 * (i * s) * (t * z), m),
{
    let u = y + i * s * x;
    let k = i * s;
    let xx = x * x;
    let xy = x * y;
    let ii = i * i;
    assert(u == y + k * x);
    let kx = k * x;
    assert(u * u == y * y + 2 * (y * kx) + kx * kx) by (nonlinear_arith)
        requires
            u == y + kx,
    ;
    lemma_regroup(k, x, k, x);
    lemma_regroup(i, s, i, s);
    assert(y * kx == k * xy) by (nonlinear_arith)
        requires
            kx == k * x,
            xy == x * y,
    ;
    assert(kx * kx == (ii * xx) * (s * s)) by (nonlinear_arith)
        requires
            kx * kx == (k * k) * xx,
            k * k == ii * (s * s),
    ;
    assert(2 * (y * kx) == 2 * k * xy) by (nonlinear_arith)
        requires
            y * kx == k * xy,
    ;
    assert(u * u == y * y + 2 * k * xy + (ii * xx) * (s * s));
    assert((ii * xx) * (s * s) == ii * xx) by (nonlinear_arith)
        requires
            s * s == 1,
    ;
    // i i x x == -(x x), and x y == t z
    lemma_cong_refl(xx, m);
    lemma_cong_mul(ii, -1, xx, xx, m);
    lemma_cong_refl(2 * k, m);
    lemma_cong_mul(2 * k, 2 * k, xy, t * z, m);
    lemma_cong_refl(y * y, m);
    lemma_cong_add(y * y, y * y, 2 * k * xy, 2 * k * (t * z), m);
    lemma_cong_add(y * y + 2 * k * xy, y * y + 2 * k * (t * z), ii * xx, (-1) * xx, m);
    assert(y * y + 2 * k * (t * z) + (-1) * xx == (y * y - xx) + 2 * k * (t * z)) by (nonlinear_arith);
    // the curve equation
    lemma_cong_refl(2 * k * (t * z), m);
    lemma_cong_add(y * y - xx, z * z + dd * (t * t), 2 * k * (t * z), 2 * k * (t * z), m);
    lemma_cong_trans(
        u * u,
        (y * y - xx) + 2 * k * (t * z),
        z * z + dd * (t * t) + 2 * k * (t * z),
        m,
    );
}

/// The congruence that an exceptional pair of points would satisfy: where
/// `Z1 Z2 = eps d T1 T2` for a sign `eps`, the square of
/// `(Y1 + i s' eps X1) Z2` is `d` times that of `T1 (Y2 + i s' X2)`.
proof fn lemma_exceptional_squares(
    x1: int,
    y1: int,
    z1: int,
    t1: int,
    x2: int,
    y2: int,
    z2: int,
    t2: int,
    i: int,
    eps: int,
    sp: int,
    dd: int,
    m: int,
)
    requires
        m > 0,
        cong(y1 * y1 - x1 * x1, z1 * z1 + dd * (t1 * t1), m),
        cong(x1 * y1, t1 * z1, m),
        cong(y2 * y2 - x2 * x2, z2 * z2 + dd * (t2 * t2), m),
        cong(x2 * y2, t2 * z2, m),
        cong(i * i, -1, m),
        cong(z1 * z2, eps * (dd * (t1 * t2)), m),
        eps * eps == 1,
        sp * sp == 1,
    ensures
        ({
            let u = y1 + i * (sp * eps) * x1;
            let v = y2 + i * sp * x2;
            cong((u * z2) * (u * z2), dd * ((t1 * v) * (t1 * v)), m)
        }),
{
    let s = sp * eps;
    assert(s * s == 1) by (nonlinear_arith)
        requires
            s == sp * eps,
            eps * eps == 1,
            sp * sp == 1,
    ;
    let u = y1 + i * s * x1;
    let v = y2 + i * sp * x2;
    let zeta = z1 * z2;
    let tau = dd * (t1 * t2);
    let uq = z1 * z1 + dd * (t1 * t1) + 2 * (i * s) * (t1 * z1);
    let vq = z2 * z2 + dd * (t2 * t2) + 2 * (i * sp) * (t2 * z2);
    lemma_twisted_square(x1, y1, z1, t1, i, s, dd, m);
    lemma_twisted_square(x2, y2, z2, t2, i, sp, dd, m);
    // the left side: (u z2)^2 == u^2 z2^2, congruent to uq z2^2
    lemma_regroup(u, z2, u, z2);
    lemma_cong_refl(z2 * z2, m);
    lemma_cong_mul(u * u, uq, z2 * z2, z2 * z2, m);
    // the right side: d (t1 v)^2 == (d t1^2) v^2, congruent to (d t1^2) vq
    lemma_regroup(t1, v, t1, v);
    let dt = dd * (t1 * t1);
    assert(dd * ((t1 * v) * (t1 * v)) == dt * (v * v)) by (nonlinear_arith)
        requires
            (t1 * v) * (t1 * v) == (t1 * t1) * (v * v),
            dt == dd * (t1 * t1),
    ;
    lemma_cong_refl(dt, m);
    lemma_cong_mul(dt, dt, v * v, vq, m);
    // uq z2^2 == zeta^2 + dt z2^2 + 2 (i s) (t1 z2) zeta
    let w = t1 * z2;
    let zz = z2 * z2;
    lemma_regroup(z1, z1, z2, z2);
    assert((z1 * z1) * zz == zeta * zeta);
    assert((t1 * z1) * zz == w * zeta) by (nonlinear_arith)
        requires
            zz == z2 * z2,
            w == t1 * z2,
            zeta == z1 * z2,
    ;
    let a1 = 2 * (i * s);
    assert(uq * zz == zeta * zeta + dt * zz + a1 * (w * zeta)) by (nonlinear_arith)
        requires
            uq == z1 * z1 + dt + a1 * (t1 * z1),
            (z1 * z1) * zz == zeta * zeta,
            (t1 * z1) * zz == w * zeta,
    ;
    // dt vq == dt z2^2 + tau^2 + 2 (i sp) w tau
    let a2 = 2 * (i * sp);
    assert(dt * (dd * (t2 * t2)) == tau * tau) by (nonlinear_arith)
        requires
            dt == dd * (t1 * t1),
            tau == dd * (t1 * t2),
    ;
    assert(dt * (t2 * z2) == w * tau) by (nonlinear_arith)
        requires
            dt == dd * (t1 * t1),
            tau == dd * (t1 * t2),
            w == t1 * z2,
    ;
    assert(dt * vq == dt * zz + tau * tau + a2 * (w * tau)) by (nonlinear_arith)
        requires
            vq == zz + dd * (t2 * t2) + a2 * (t2 * z2),
            dt * (dd * (t2 * t2)) == tau * tau,
            dt * (t2 * z2) == w * tau,
    ;
    // zeta == eps tau
    let et = eps * tau;
    lemma_cong_mul(zeta, et, zeta, et, m);
    assert(et * et == tau * tau) by (nonlinear_arith)
        requires
            et == eps * tau,
            eps * eps == 1,
    ;
    lemma_cong_refl(w, m);
    lemma_cong_mul(w, w, zeta, et, m);
    lemma_cong_refl(a1, m);
    lemma_cong_mul(a1, a1, w * zeta, w * et, m);
    assert(a1 * (w * et) == a2 * (w * tau)) by (nonlinear_arith)
        requires
            a1 == 2 * (i * s),
            a2 == 2 * (i * sp),
            s == sp * eps,
            et == eps * tau,
            eps * eps == 1,
    ;
    lemma_cong_refl(dt * zz, m);
    lemma_cong_add(zeta * zeta, tau * tau, dt * zz, dt * zz, m);
    lemma_cong_add(zeta * zeta + dt * zz, tau * tau + dt * zz, a1 * (w * zeta), a2 * (w * tau), m);
    // chain the two sides
    lemma_cong_trans((u * z2) * (u * z2), uq * zz, dt * vq, m);
    lemma_cong_sym(dt * (v * v), dt * vq, m);
    lemma_cong_trans((u * z2) * (u * z2), dt * vq, dt * (v * v), m);
}

/// The residue of a product of an integer and a residue, from the residue
/// of the integer.
proof fn lemma_fmul_of_residue(a: int, b: int)
    ensures
        cong(fmul(a % q(), b), a * b, q()),
{
    let m = q();
    lemma_cong_mod(a, m);
    lemma_cong_refl(b, m);
    lemma_cong_mul(a % m, a, b, b, m);
    lemma_cong_mod((a % m) * b, m);
    lemma_cong_trans(fmul(a % m, b), (a % m) * b, a * b, m);
}

/// No pair of points of the curve is exceptional: `Z1 Z2` is neither
/// `d T1 T2` nor its negative, because `d` is not a square.
proof fn lemma_no_exceptional_pair(p0: ExtendedPoint, p1: ExtendedPoint, eps: int)
    requires
        extended_wf(p0),
        extended_wf(p1),
        extended_on_curve(p0),
        extended_on_curve(p1),
        p0.z != 0,
        p1.z != 0,
        eps == 1 || eps == -1,
    ensures
        !cong(p0.z * p1.z, eps * (d() * (p0.t * p1.t)), q()),
{
    if cong(p0.z * p1.z, eps * (d() * (p0.t * p1.t)), q()) {
        lemma_exceptional_pair(p0, p1, eps);
        lemma_d_is_no_square();
    }
}

/// An exceptional pair of points of the curve would make `d` a square.
proof fn lemma_exceptional_pair(p0: ExtendedPoint, p1: ExtendedPoint, eps: int)
    requires
        extended_wf(p0),
        extended_wf(p1),
        extended_on_curve(p0),
        extended_on_curve(p1),
        p0.z != 0,
        p1.z != 0,
        eps == 1 || eps == -1,
        cong(p0.z * p1.z, eps * (d() * (p0.t * p1.t)), q()),
    ensures
        crate::roots::is_square(d(), q()),
{
    let m = q();
    lemma_minus_one_is_square();
    let i = choose|y: int| 0 <= y < m && #[trigger] mul_mod(y, y, m) == m - 1;
    assert(cong(i * i, -1, m)) by {
        lemma_mod_from_parts(-1, m, -1, m - 1);
        lemma_residue_cong(i * i, -1, m);
    }
    lemma_point_relations(p0);
    lemma_point_relations(p1);
    // neither T is zero
    if p0.t == 0 || p1.t == 0 {
        assert(p0.t * p1.t == 0) by (nonlinear_arith)
            requires
                p0.t == 0 || p1.t == 0,
        ;
        assert(eps * (d() * (p0.t * p1.t)) == 0) by (nonlinear_arith)
            requires
                p0.t * p1.t == 0,
        ;
        assert(fmul(p0.z, p1.z) == 0);
        lemma_no_zero_divisors(p0.z, p1.z);
    }
    // the second coordinate of the second point is not zero
    if fmul(p1.t, p1.z) == 0 {
        lemma_no_zero_divisors(p1.t, p1.z);
    }
    if p1.y == 0 {
        lemma_fmul_unit(p1.x);
    }
    // one of y + i x and y - i x is not zero
    let vp = p1.y + i * 1 * p1.x;
    let vm = p1.y + i * (-1) * p1.x;
    if cong(vp, 0, m) && cong(vm, 0, m) {
        lemma_cong_add(vp, 0, vm, 0, m);
        assert(vp + vm == 2 * p1.y) by (nonlinear_arith)
            requires
                vp == p1.y + i * 1 * p1.x,
                vm == p1.y + i * (-1) * p1.x,
        ;
        assert(fmul(2, p1.y) == 0);
        lemma_no_zero_divisors(2, p1.y);
    }
    let sp: int = if cong(vp, 0, m) {
        -1
    } else {
        1
    };
    let v = p1.y + i * sp * p1.x;
    let u = p0.y + i * (sp * eps) * p0.x;
    assert(eps * eps == 1 && sp * sp == 1) by (nonlinear_arith)
        requires
            eps == 1 || eps == -1,
            sp == 1 || sp == -1,
    ;
    lemma_exceptional_squares(
        p0.x,
        p0.y,
        p0.z,
        p0.t,
        p1.x,
        p1.y,
        p1.z,
        p1.t,
        i,
        eps,
        sp,
        d(),
        m,
    );
    // as residues
    let vr = v % m;
    let ur = u % m;
    let zr = fmul(ur, p1.z);
    let tr = fmul(p0.t, vr);
    lemma_mod_bound(v, m);
    lemma_mod_bound(u, m);
    lemma_mod_bound(ur * p1.z, m);
    lemma_mod_bound(p0.t * vr, m);
    assert(vr != 0);
    if tr == 0 {
        lemma_no_zero_divisors(p0.t, vr);
    }
    lemma_fmul_of_residue(u, p1.z);
    lemma_cong_mul(zr, u * p1.z, zr, u * p1.z, m);
    lemma_cong_mod(zr * zr, m);
    lemma_cong_trans(fmul(zr, zr), zr * zr, (u * p1.z) * (u * p1.z), m);
    lemma_fmul_of_residue(v, p0.t);
    assert(vr * p0.t == p0.t * vr && v * p0.t == p0.t * v) by (nonlinear_arith);
    assert(fmul(vr, p0.t) == tr);
    lemma_cong_mul(tr, p0.t * v, tr, p0.t * v, m);
    lemma_cong_mod(tr * tr, m);
    lemma_cong_trans(fmul(tr, tr), tr * tr, (p0.t * v) * (p0.t * v), m);
    lemma_cong_refl(d(), m);
    lemma_cong_mul(d(), d(), fmul(tr, tr), (p0.t * v) * (p0.t * v), m);
    lemma_cong_mod(d() * fmul(tr, tr), m);
    lemma_cong_trans(
        fmul(d(), fmul(tr, tr)),
        d() * fmul(tr, tr),
        d() * ((p0.t * v) * (p0.t * v)),
        m,
    );
    lemma_cong_sym(fmul(d(), fmul(tr, tr)), d() * ((p0.t * v) * (p0.t * v)), m);
    lemma_cong_trans(
        fmul(zr, zr),
        (u * p1.z) * (u * p1.z),
        d() * ((p0.t * v) * (p0.t * v)),
        m,
    );
    lemma_cong_trans(
        fmul(zr, zr),
        d() * ((p0.t * v) * (p0.t * v)),
        fmul(d(), fmul(tr, tr)),
        m,
    );
    lemma_cong_residue(fmul(zr, zr), fmul(d(), fmul(tr, tr)), m);
    lemma_mod_bound(zr * zr, m);
    lemma_mod_bound(d() * fmul(tr, tr), m);
    lemma_small_mod(fmul(zr, zr) as nat, m as nat);
    lemma_small_mod(fmul(d(), fmul(tr, tr)) as nat, m as nat);
    lemma_quotient_is_square(d(), zr, tr);
}

/// The sum of two points of the curve has an affine form where both points
/// have one: the addition law is complete.
pub proof fn lemma_sum_has_affine_form(p0: ExtendedPoint, p1: ExtendedPoint)
    requires
        extended_wf(p0),
        extended_wf(p1),
        extended_on_curve(p0),
        extended_on_curve(p1),
        p0.z != 0,
        p1.z != 0,
    ensures
        extended_sum(p0, p1).z != 0,
{
    let m = q();
    let c = fmul(fmul(d(), p0.t), p1.t);
    let dd = fmul(p0.z, p1.z);
    let f = fsub(dd, c);
    let g = fadd(dd, c);
    lemma_sum_terms(p0, p1);
    let zeta = p0.z * p1.z;
    let tau = d() * (p0.t * p1.t);
    if f == 0 {
        lemma_cong_sym(0, zeta - tau, m);
        assert(1 * tau == tau);
        assert(cong(zeta, 1 * tau, m));
        lemma_no_exceptional_pair(p0, p1, 1);
    }
    if g == 0 {
        lemma_cong_sym(0, zeta + tau, m);
        assert((-1) * tau == -tau) by (nonlinear_arith);
        assert(cong(zeta, (-1) * tau, m));
        lemma_no_exceptional_pair(p0, p1, -1);
    }
    lemma_mod_bound(dd - c, m);
    lemma_mod_bound(dd + c, m);
    if fmul(f, g) == 0 {
        lemma_no_zero_divisors(f, g);
    }
}

/// The point of the curve that an extended point must be to count as a
/// point of the group: well formed, on the curve, with an affine form.
pub open spec fn extended_valid(p: ExtendedPoint) -> bool {
    extended_wf(p) && extended_on_curve(p) && p.z != 0
}

/// The affine counterpart: well formed and on the curve.
pub open spec fn affine_valid(p: AffinePoint) -> bool {
    affine_wf(p) && on_curve(p)
}

/// The neutral element is a point of the group.
pub proof fn lemma_identity_valid()
    ensures
        affine_valid(crate::curve::affine_identity()),
        extended_valid(crate::curve::extended_identity()),
{
    lemma_fmul_unit(0);
    lemma_fmul_unit(1);
    lemma_fmul_unit(d());
    lemma_small_mod(1, q() as nat);
}

/// The sum of two points of the group is a point of the group.
pub proof fn lemma_sum_valid(p0: ExtendedPoint, p1: ExtendedPoint)
    requires
        extended_valid(p0),
        extended_valid(p1),
    ensures
        extended_valid(extended_sum(p0, p1)),
{
    lemma_sum_terms(p0, p1);
    let a = fmul(p0.x, p1.x);
    let b = fmul(p0.y, p1.y);
    let c = fmul(fmul(d(), p0.t), p1.t);
    let dd = fmul(p0.z, p1.z);
    let h = fadd(a, b);
    let e = fsub(fmul(fadd(p0.x, p0.y), fadd(p1.x, p1.y)), h);
    crate::curve::lemma_assemble_wf(e, fsub(dd, c), fadd(dd, c), h);
    lemma_sum_on_curve(p0, p1);
    lemma_sum_has_affine_form(p0, p1);
}

/// Twice a point of the group is a point of the group.
pub proof fn lemma_doubled_valid(p: ExtendedPoint)
    requires
        extended_valid(p),
    ensures
        extended_valid(doubled(p)),
{
    let m = q();
    let x2 = fmul(p.x, p.x);
    let y2 = fmul(p.y, p.y);
    let z2 = fmul(p.z, p.z);
    let dt = fmul(d(), fmul(p.t, p.t));
    let h = fadd(x2, y2);
    let e = fmul(2, fmul(p.x, p.y));
    let f = fsub(z2, dt);
    let g = fadd(z2, dt);
    lemma_doubled_shape(p);
    crate::curve::lemma_assemble_wf(e, fneg(f), g, fneg(h));
    lemma_doubled_has_affine_form(p);
    // the norm does not see the signs of f and h
    lemma_sum_on_curve(p, p);
    lemma_assembled_on_curve(e, f, g, h);
    lemma_assembled_on_curve(e, fneg(f), g, fneg(h));
    lemma_cong_refl(e, m);
    lemma_cong_refl(g, m);
    lemma_cong_mod(-f, m);
    lemma_cong_mod(-h, m);
    lemma_norm_cong(e, fneg(f), g, fneg(h), e, -f, g, -h);
    lemma_regroup(g, -h, g, -h);
    lemma_regroup(g, h, g, h);
    lemma_regroup(e, -f, e, -f);
    lemma_regroup(e, f, e, f);
    lemma_regroup(-f, g, -f, g);
    lemma_regroup(f, g, f, g);
    lemma_regroup(e, -h, e, -h);
    lemma_regroup(e, h, e, h);
    assert((-h) * (-h) == h * h && (-f) * (-f) == f * f) by (nonlinear_arith);
    assert(curve_norm(e, -f, g, -h) == curve_norm(e, f, g, h));
    lemma_cong_trans(curve_norm(e, fneg(f), g, fneg(h)), curve_norm(e, f, g, h), 0, m);
}

/// An affine point of the curve is a point of the group in extended
/// coordinates.
pub proof fn lemma_extend_valid(p: AffinePoint)
    requires
        affine_valid(p),
    ensures
        extended_valid(extend(p)),
{
    lemma_fmul_laws(p.x, p.y, 0);
    lemma_fmul_unit(fmul(p.x, p.y));
    lemma_fmul_unit(1);
    lemma_fmul_four(p.x, p.y, p.x, p.y);
}

/// The negative of a point of the group is a point of the group.
pub proof fn lemma_negative_valid(p: ExtendedPoint)
    requires
        extended_valid(p),
    ensures
        extended_valid(extended_negative(p)),
{
    lemma_fneg_laws(p.x, p.y);
    lemma_fneg_laws(p.t, p.z);
    lemma_fneg_laws(p.x, p.x);
    lemma_fneg_laws(p.t, p.t);
    lemma_fmul_laws(fneg(p.x), p.y, 0);
    lemma_fmul_laws(fneg(p.t), p.z, 0);
}

/// The negative of an affine point of the curve is a point of the curve.
pub proof fn lemma_affine_negative_valid(p: AffinePoint)
    requires
        affine_valid(p),
    ensures
        affine_valid(affine_negative(p)),
{
    lemma_fneg_laws(p.x, p.x);
}

/// The sum of two affine points is the sum of the points in extended
/// coordinates, and a point of the group.
pub proof fn lemma_affine_sum_valid(p0: AffinePoint, p1: AffinePoint)
    requires
        affine_valid(p0),
        affine_valid(p1),
    ensures
        affine_sum(p0, p1) == extended_sum(extend(p0), extend(p1)),
        extended_valid(affine_sum(p0, p1)),
{
    let a = fmul(p0.x, p1.x);
    let b = fmul(p0.y, p1.y);
    lemma_fmul_laws(d(), a, b);
    lemma_fmul_four(p0.x, p1.x, p0.y, p1.y);
    lemma_fmul_laws(d(), fmul(p0.x, p0.y), fmul(p1.x, p1.y));
    lemma_fmul_unit(1);
    assert(fmul(fmul(d(), a), b) == fmul(fmul(d(), fmul(p0.x, p0.y)), fmul(p1.x, p1.y)));
    lemma_extend_valid(p0);
    lemma_extend_valid(p1);
    lemma_sum_valid(extend(p0), extend(p1));
}

/// The sum of an affine and an extended point is the sum of the points in
/// extended coordinates, and a point of the group.
pub proof fn lemma_mixed_sum_valid(p0: AffinePoint, p1: ExtendedPoint)
    requires
        affine_valid(p0),
        extended_valid(p1),
    ensures
        mixed_sum(p0, p1) == extended_sum(extend(p0), p1),
        extended_valid(mixed_sum(p0, p1)),
{
    lemma_fmul_laws(d(), p0.x, p0.y);
    lemma_fmul_unit(p1.z);
    lemma_extend_valid(p0);
    lemma_sum_valid(extend(p0), p1);
}

/// The affine form of a point of the group is a point of the curve.
pub proof fn lemma_to_affine_valid(p: ExtendedPoint)
    requires
        extended_valid(p),
    ensures
        to_affine(p) matches Some(a) && affine_valid(a),
{
    let m = q();
    let zi = finv(p.z);
    lemma_finv(p.z);
    let x = fmul(p.x, zi);
    let y = fmul(p.y, zi);
    lemma_fmul_laws(p.x, zi, 0);
    lemma_fmul_laws(p.y, zi, 0);
    lemma_point_relations(p);
    // p.z zi == 1
    assert(cong(p.z * zi, 1, m)) by {
        lemma_small_mod(1, m as nat);
        lemma_residue_cong(p.z * zi, 1, m);
    }
    let zi2 = zi * zi;
    // (p.z p.z)(zi zi) == 1 and so on
    lemma_cong_mul(p.z * zi, 1, p.z * zi, 1, m);
    lemma_regroup(p.z, zi, p.z, zi);
    assert(cong((p.z * p.z) * zi2, 1, m));
    // x == X zi, y == Y zi
    lemma_cong_mod(p.x * zi, m);
    lemma_cong_mod(p.y * zi, m);
    lemma_cong_mul(x, p.x * zi, x, p.x * zi, m);
    lemma_cong_mul(y, p.y * zi, y, p.y * zi, m);
    lemma_regroup(p.x, zi, p.x, zi);
    lemma_regroup(p.y, zi, p.y, zi);
    let xx = p.x * p.x;
    let yy = p.y * p.y;
    let tt = p.t * p.t;
    let zz = p.z * p.z;
    // y^2 - x^2 == (Y^2 - X^2) zi^2 == (Z^2 + d T^2) zi^2 == 1 + d T^2 zi^2
    lemma_cong_add(y * y, yy * zi2, x * x, xx * zi2, m);
    assert(yy * zi2 - xx * zi2 == (yy - xx) * zi2) by (nonlinear_arith);
    lemma_cong_refl(zi2, m);
    lemma_cong_mul(yy - xx, zz + d() * tt, zi2, zi2, m);
    assert((zz + d() * tt) * zi2 == zz * zi2 + d() * (tt * zi2)) by (nonlinear_arith);
    lemma_cong_refl(d() * (tt * zi2), m);
    lemma_cong_add(zz * zi2, 1, d() * (tt * zi2), d() * (tt * zi2), m);
    lemma_cong_trans(y * y - x * x, (yy - xx) * zi2, zz * zi2 + d() * (tt * zi2), m);
    lemma_cong_trans(y * y - x * x, zz * zi2 + d() * (tt * zi2), 1 + d() * (tt * zi2), m);
    // d x^2 y^2 == d (X^2 Y^2) zi^4 == d (T^2 Z^2) zi^4 == d T^2 zi^2
    lemma_cong_mul(x * x, xx * zi2, y * y, yy * zi2, m);
    lemma_regroup(xx, zi2, yy, zi2);
    lemma_cong_refl(zi2 * zi2, m);
    lemma_cong_mul(xx * yy, tt * zz, zi2 * zi2, zi2 * zi2, m);
    lemma_regroup(tt, zz, zi2, zi2);
    lemma_cong_refl(tt * zi2, m);
    lemma_cong_mul(tt * zi2, tt * zi2, zz * zi2, 1, m);
    lemma_cong_trans((x * x) * (y * y), (xx * yy) * (zi2 * zi2), (tt * zz) * (zi2 * zi2), m);
    assert((tt * zi2) * 1 == tt * zi2);
    lemma_cong_trans((x * x) * (y * y), (tt * zi2) * (zz * zi2), tt * zi2, m);
    lemma_cong_refl(d(), m);
    lemma_cong_mul(d(), d(), (x * x) * (y * y), tt * zi2, m);
    lemma_cong_refl(1, m);
    lemma_cong_add(1, 1, d() * ((x * x) * (y * y)), d() * (tt * zi2), m);
    lemma_cong_sym(1 + d() * ((x * x) * (y * y)), 1 + d() * (tt * zi2), m);
    lemma_cong_trans(y * y - x * x, 1 + d() * (tt * zi2), 1 + d() * ((x * x) * (y * y)), m);
    // back to residues
    lemma_affine_on_curve(x, y);
}

/// An affine point satisfies the curve equation exactly where
/// `y^2 - x^2` and `1 + d x^2 y^2` are congruent.
pub proof fn lemma_affine_on_curve(x: int, y: int)
    ensures
        on_curve(AffinePoint { x, y }) <==> cong(y * y - x * x, 1 + d() * ((x * x) * (y * y)), q()),
{
    let m = q();
    let x2 = fmul(x, x);
    let y2 = fmul(y, y);
    lemma_cong_mod(x * x, m);
    lemma_cong_mod(y * y, m);
    lemma_cong_sym(x * x, x2, m);
    lemma_cong_sym(y * y, y2, m);
    // the left side
    lemma_cong_add(y2, y * y, x2, x * x, m);
    lemma_cong_residue(y2 - x2, y * y - x * x, m);
    // the right side
    lemma_cong_mul(x2, x * x, y2, y * y, m);
    lemma_cong_mod(x2 * y2, m);
    lemma_cong_trans(fmul(x2, y2), x2 * y2, (x * x) * (y * y), m);
    lemma_cong_refl(d(), m);
    lemma_cong_mul(d(), d(), fmul(x2, y2), (x * x) * (y * y), m);
    lemma_cong_mod(d() * fmul(x2, y2), m);
    lemma_cong_trans(fmul(d(), fmul(x2, y2)), d() * fmul(x2, y2), d() * ((x * x) * (y * y)), m);
    lemma_cong_refl(1, m);
    lemma_cong_add(1, 1, fmul(d(), fmul(x2, y2)), d() * ((x * x) * (y * y)), m);
    lemma_cong_residue(1 + fmul(d(), fmul(x2, y2)), 1 + d() * ((x * x) * (y * y)), m);
    lemma_mod_equivalence(y * y - x * x, 1 + d() * ((x * x) * (y * y)), m);
}

/// The term `E` of the sum of two points, over the integers.
pub open spec fn int_e(p0: ExtendedPoint, p1: ExtendedPoint) -> int {
    p0.x * p1.y + p0.y * p1.x
}

/// The term `H` of the sum of two points, over the integers.
pub open spec fn int_h(p0: ExtendedPoint, p1: ExtendedPoint) -> int {
    p0.x * p1.x + p0.y * p1.y
}

/// The term `F` of the sum of two points, over the integers.
pub open spec fn int_f(p0: ExtendedPoint, p1: ExtendedPoint, dd: int) -> int {
    p0.z * p1.z - dd * (p0.t * p1.t)
}

/// The term `G` of the sum of two points, over the integers.
pub open spec fn int_g(p0: ExtendedPoint, p1: ExtendedPoint, dd: int) -> int {
    p0.z * p1.z + dd * (p0.t * p1.t)
}

/// The sum of two points, over the integers: no reduction modulo `q`.
pub open spec fn int_sum(p0: ExtendedPoint, p1: ExtendedPoint, dd: int) -> ExtendedPoint {
    ExtendedPoint {
        x: int_e(p0, p1) * int_f(p0, p1, dd),
        y: int_g(p0, p1, dd) * int_h(p0, p1),
        t: int_e(p0, p1) * int_h(p0, p1),
        z: int_f(p0, p1, dd) * int_g(p0, p1, dd),
    }
}

/// An affine point in extended coordinates, over the integers.
pub open spec fn int_extend(x: int, y: int) -> ExtendedPoint {
    ExtendedPoint { x, y, t: x * y, z: 1 }
}

/// What vanishes modulo `q` at the points of the curve:
/// `y^2 - x^2 - (1 + d x^2 y^2)`.
pub open spec fn curve_defect(x: int, y: int, dd: int) -> int {
    (y * y - x * x) - (1 + dd * ((x * x) * (y * y)))
}

} // verus!
