//! The addition of points of the curve is associative and commutative, and
//! does not depend on the coordinates that stand for a point.
use vstd::prelude::*;
use vstd::arithmetic::div_mod::{lemma_mod_bound, lemma_small_mod};
use crate::associative::{lemma_associative_x, lemma_associative_y};
use crate::base::q;
use crate::curve::{
    AffinePoint, ExtendedPoint, affine_sum, assemble, d, doubled, extend, extended_sum, fadd, finv,
    fmul, fsub, to_affine, lemma_finv, lemma_fmul_laws, lemma_fmul_unit, lemma_same_fraction,
    lemma_double_is_sum,
};
use crate::group::{
    affine_valid, cong, curve_defect, extended_valid, int_e, int_extend, int_f, int_g, int_h,
    int_sum, lemma_affine_on_curve, lemma_affine_sum_valid, lemma_cong_add, lemma_cong_mod,
    lemma_cong_mul, lemma_cong_refl, lemma_cong_residue, lemma_cong_sym, lemma_cong_trans,
    lemma_doubled_valid, lemma_extend_valid, lemma_residue_cong, lemma_sum_terms, lemma_sum_valid,
    lemma_to_affine_valid,
};
use crate::monomial::Vars;

verus! {

/// The four terms of the sum of two extended points, as residues.
pub open spec fn sum_terms(p0: ExtendedPoint, p1: ExtendedPoint) -> (int, int, int, int) {
    let a = fmul(p0.x, p1.x);
    let b = fmul(p0.y, p1.y);
    let c = fmul(fmul(d(), p0.t), p1.t);
    let dd = fmul(p0.z, p1.z);
    let h = fadd(a, b);
    let e = fsub(fmul(fadd(p0.x, p0.y), fadd(p1.x, p1.y)), h);
    (e, fsub(dd, c), fadd(dd, c), h)
}

/// Coordinate by coordinate, `p` is congruent to `i`.
pub open spec fn point_cong(p: ExtendedPoint, i: ExtendedPoint) -> bool {
    cong(p.x, i.x, q()) && cong(p.y, i.y, q()) && cong(p.t, i.t, q()) && cong(p.z, i.z, q())
}

/// A regrouping of a product of two products.
proof fn lemma_regroup(a: int, b: int, c: int, d: int)
    ensures
        (a * b) * (c * d) == (a * c) * (b * d),
        (a * b) * (c * d) == (a * d) * (b * c),
{
    assert((a * b) * (c * d) == (a * c) * (b * d)) by (nonlinear_arith);
    assert((a * b) * (c * d) == (a * d) * (b * c)) by (nonlinear_arith);
}

/// The terms of the sum of points that are congruent to integer points are
/// congruent to the integer terms, and so is the sum.
pub proof fn lemma_sum_terms_cong(
    p0: ExtendedPoint,
    p1: ExtendedPoint,
    i0: ExtendedPoint,
    i1: ExtendedPoint,
)
    requires
        point_cong(p0, i0),
        point_cong(p1, i1),
    ensures
        ({
            let (e, f, g, h) = sum_terms(p0, p1);
            extended_sum(p0, p1) == assemble(e, f, g, h) && cong(e, int_e(i0, i1), q()) && cong(
                f,
                int_f(i0, i1, d()),
                q(),
            ) && cong(g, int_g(i0, i1, d()), q()) && cong(h, int_h(i0, i1), q()) && point_cong(
                extended_sum(p0, p1),
                int_sum(i0, i1, d()),
            )
        }),
{
    let m = q();
    let (e, f, g, h) = sum_terms(p0, p1);
    lemma_sum_terms(p0, p1);
    // e
    lemma_cong_mul(p0.x, i0.x, p1.y, i1.y, m);
    lemma_cong_mul(p0.y, i0.y, p1.x, i1.x, m);
    lemma_cong_add(p0.x * p1.y, i0.x * i1.y, p0.y * p1.x, i0.y * i1.x, m);
    lemma_cong_trans(e, p0.x * p1.y + p0.y * p1.x, int_e(i0, i1), m);
    // h
    lemma_cong_mul(p0.x, i0.x, p1.x, i1.x, m);
    lemma_cong_mul(p0.y, i0.y, p1.y, i1.y, m);
    lemma_cong_add(p0.x * p1.x, i0.x * i1.x, p0.y * p1.y, i0.y * i1.y, m);
    lemma_cong_trans(h, p0.x * p1.x + p0.y * p1.y, int_h(i0, i1), m);
    // f and g
    lemma_cong_mul(p0.z, i0.z, p1.z, i1.z, m);
    lemma_cong_mul(p0.t, i0.t, p1.t, i1.t, m);
    lemma_cong_refl(d(), m);
    lemma_cong_mul(d(), d(), p0.t * p1.t, i0.t * i1.t, m);
    lemma_cong_add(p0.z * p1.z, i0.z * i1.z, d() * (p0.t * p1.t), d() * (i0.t * i1.t), m);
    lemma_cong_trans(f, p0.z * p1.z - d() * (p0.t * p1.t), int_f(i0, i1, d()), m);
    lemma_cong_trans(g, p0.z * p1.z + d() * (p0.t * p1.t), int_g(i0, i1, d()), m);
    // the coordinates
    lemma_product_cong(e, f, int_e(i0, i1), int_f(i0, i1, d()));
    lemma_product_cong(g, h, int_g(i0, i1, d()), int_h(i0, i1));
    lemma_product_cong(e, h, int_e(i0, i1), int_h(i0, i1));
    lemma_product_cong(f, g, int_f(i0, i1, d()), int_g(i0, i1, d()));
}

/// The product of residues, as a residue, is congruent to the product of
/// what the residues are congruent to.
proof fn lemma_product_cong(a: int, b: int, a2: int, b2: int)
    requires
        cong(a, a2, q()),
        cong(b, b2, q()),
    ensures
        cong(fmul(a, b), a2 * b2, q()),
{
    let m = q();
    lemma_cong_mul(a, a2, b, b2, m);
    lemma_cong_mod(a * b, m);
    lemma_cong_trans(fmul(a, b), a * b, a2 * b2, m);
}

/// An affine point in extended coordinates is congruent to its integer
/// counterpart.
proof fn lemma_extend_cong(p: AffinePoint)
    ensures
        point_cong(extend(p), int_extend(p.x, p.y)),
{
    let m = q();
    lemma_cong_refl(p.x, m);
    lemma_cong_refl(p.y, m);
    lemma_cong_refl(1, m);
    lemma_cong_mod(p.x * p.y, m);
}

/// Two assembled points stand for the same affine point where their terms
/// have congruent cross products: `E G' = E' G` and `H F' = H' F`.
pub proof fn lemma_same_affine_form(
    e: int,
    f: int,
    g: int,
    h: int,
    e2: int,
    f2: int,
    g2: int,
    h2: int,
)
    requires
        assemble(e, f, g, h).z != 0,
        assemble(e2, f2, g2, h2).z != 0,
        cong(e * g2, e2 * g, q()),
        cong(h * f2, h2 * f, q()),
    ensures
        to_affine(assemble(e, f, g, h)) == to_affine(assemble(e2, f2, g2, h2)),
{
    let m = q();
    let l = assemble(e, f, g, h);
    let r = assemble(e2, f2, g2, h2);
    lemma_mod_bound(e * f, m);
    lemma_mod_bound(g * h, m);
    lemma_mod_bound(f * g, m);
    lemma_mod_bound(e2 * f2, m);
    lemma_mod_bound(g2 * h2, m);
    lemma_mod_bound(f2 * g2, m);
    // x: (e f)(f2 g2) == (e g2)(f f2) and (e2 f2)(f g) == (e2 g)(f f2)
    lemma_cong_mod(e * f, m);
    lemma_cong_mod(f2 * g2, m);
    lemma_cong_mod(e2 * f2, m);
    lemma_cong_mod(f * g, m);
    lemma_cong_mod(g * h, m);
    lemma_cong_mod(g2 * h2, m);
    lemma_cong_mul(l.x, e * f, r.z, f2 * g2, m);
    lemma_cong_mul(r.x, e2 * f2, l.z, f * g, m);
    lemma_regroup(e, f, f2, g2);
    lemma_regroup(e2, f2, f, g);
    lemma_cong_refl(f * f2, m);
    lemma_cong_mul(e * g2, e2 * g, f * f2, f * f2, m);
    assert((e2 * f2) * (f * g) == (e2 * g) * (f * f2)) by (nonlinear_arith)
        requires
            (e2 * f2) * (f * g) == (e2 * g) * (f2 * f),
    ;
    assert((e * f) * (f2 * g2) == (e * g2) * (f * f2));
    lemma_cong_trans(l.x * r.z, (e * g2) * (f * f2), (e2 * g) * (f * f2), m);
    lemma_cong_sym(r.x * l.z, (e2 * f2) * (f * g), m);
    lemma_cong_trans(l.x * r.z, (e2 * g) * (f * f2), r.x * l.z, m);
    lemma_cong_residue(l.x * r.z, r.x * l.z, m);
    lemma_same_fraction(l.x, l.z, r.x, r.z);
    // y: (g h)(f2 g2) == (h f2)(g g2) and (g2 h2)(f g) == (h2 f)(g g2)
    lemma_cong_mul(l.y, g * h, r.z, f2 * g2, m);
    lemma_cong_mul(r.y, g2 * h2, l.z, f * g, m);
    assert((g * h) * (f2 * g2) == (h * f2) * (g * g2)) by (nonlinear_arith);
    assert((g2 * h2) * (f * g) == (h2 * f) * (g * g2)) by (nonlinear_arith);
    lemma_cong_refl(g * g2, m);
    lemma_cong_mul(h * f2, h2 * f, g * g2, g * g2, m);
    lemma_cong_trans(l.y * r.z, (h * f2) * (g * g2), (h2 * f) * (g * g2), m);
    lemma_cong_sym(r.y * l.z, (g2 * h2) * (f * g), m);
    lemma_cong_trans(l.y * r.z, (h2 * f) * (g * g2), r.y * l.z, m);
    lemma_cong_residue(l.y * r.z, r.y * l.z, m);
    lemma_same_fraction(l.y, l.z, r.y, r.z);
}

/// The defect of a point of the curve vanishes modulo `q`.
proof fn lemma_defect_vanishes(p: AffinePoint, k: int)
    requires
        affine_valid(p),
    ensures
        cong(k * curve_defect(p.x, p.y, d()), 0, q()),
{
    let m = q();
    lemma_affine_on_curve(p.x, p.y);
    lemma_cong_refl(k, m);
    lemma_cong_mul(k, k, curve_defect(p.x, p.y, d()), 0, m);
    assert(k * 0 == 0);
}

/// The addition of affine points of the curve is associative:
/// `(P1 + P2) + P3` and `P1 + (P2 + P3)` are the same point.
pub proof fn lemma_affine_associative(p1: AffinePoint, p2: AffinePoint, p3: AffinePoint)
    requires
        affine_valid(p1),
        affine_valid(p2),
        affine_valid(p3),
    ensures
        to_affine(extended_sum(affine_sum(p1, p2), extend(p3))) == to_affine(
            extended_sum(extend(p1), affine_sum(p2, p3)),
        ),
{
    let m = q();
    let v = Vars { x1: p1.x, y1: p1.y, x2: p2.x, y2: p2.y, x3: p3.x, y3: p3.y, d: d() };
    let (i1, i2, i3) = (int_extend(p1.x, p1.y), int_extend(p2.x, p2.y), int_extend(p3.x, p3.y));
    let il = int_sum(i1, i2, d());
    let ir = int_sum(i2, i3, d());
    lemma_extend_cong(p1);
    lemma_extend_cong(p2);
    lemma_extend_cong(p3);
    lemma_affine_sum_valid(p1, p2);
    lemma_affine_sum_valid(p2, p3);
    lemma_extend_valid(p1);
    lemma_extend_valid(p3);
    let l1 = affine_sum(p1, p2);
    let r1 = affine_sum(p2, p3);
    lemma_sum_terms_cong(extend(p1), extend(p2), i1, i2);
    lemma_sum_terms_cong(extend(p2), extend(p3), i2, i3);
    lemma_sum_terms_cong(l1, extend(p3), il, i3);
    lemma_sum_terms_cong(extend(p1), r1, i1, ir);
    lemma_sum_valid(l1, extend(p3));
    lemma_sum_valid(extend(p1), r1);
    let (el, fl, gl, hl) = sum_terms(l1, extend(p3));
    let (er, fr, gr, hr) = sum_terms(extend(p1), r1);
    // the first coordinate
    let qx = lemma_associative_x(v);
    lemma_defect_vanishes(p1, qx.0);
    lemma_defect_vanishes(p2, qx.1);
    lemma_defect_vanishes(p3, qx.2);
    lemma_cong_add(
        qx.0 * curve_defect(p1.x, p1.y, d()),
        0,
        qx.1 * curve_defect(p2.x, p2.y, d()),
        0,
        m,
    );
    lemma_cong_add(
        qx.0 * curve_defect(p1.x, p1.y, d()) + qx.1 * curve_defect(p2.x, p2.y, d()),
        0,
        qx.2 * curve_defect(p3.x, p3.y, d()),
        0,
        m,
    );
    let (ax, bx) = (int_e(il, i3) * int_g(i1, ir, d()), int_e(i1, ir) * int_g(il, i3, d()));
    assert(cong(ax, bx, m));
    lemma_cong_mul(el, int_e(il, i3), gr, int_g(i1, ir, d()), m);
    lemma_cong_mul(er, int_e(i1, ir), gl, int_g(il, i3, d()), m);
    lemma_cong_trans(el * gr, ax, bx, m);
    lemma_cong_sym(er * gl, bx, m);
    lemma_cong_trans(el * gr, bx, er * gl, m);
    // the second coordinate
    let qy = lemma_associative_y(v);
    lemma_defect_vanishes(p1, qy.0);
    lemma_defect_vanishes(p2, qy.1);
    lemma_defect_vanishes(p3, qy.2);
    lemma_cong_add(
        qy.0 * curve_defect(p1.x, p1.y, d()),
        0,
        qy.1 * curve_defect(p2.x, p2.y, d()),
        0,
        m,
    );
    lemma_cong_add(
        qy.0 * curve_defect(p1.x, p1.y, d()) + qy.1 * curve_defect(p2.x, p2.y, d()),
        0,
        qy.2 * curve_defect(p3.x, p3.y, d()),
        0,
        m,
    );
    let (ay, by) = (int_h(il, i3) * int_f(i1, ir, d()), int_h(i1, ir) * int_f(il, i3, d()));
    assert(cong(ay, by, m));
    lemma_cong_mul(hl, int_h(il, i3), fr, int_f(i1, ir, d()), m);
    lemma_cong_mul(hr, int_h(i1, ir), fl, int_f(il, i3, d()), m);
    lemma_cong_trans(hl * fr, ay, by, m);
    lemma_cong_sym(hr * fl, by, m);
    lemma_cong_trans(hl * fr, by, hr * fl, m);
    lemma_same_affine_form(el, fl, gl, hl, er, fr, gr, hr);
}

/// An integer point with every coordinate multiplied by `k`.
pub open spec fn scaled(p: ExtendedPoint, k: int) -> ExtendedPoint {
    ExtendedPoint { x: k * p.x, y: k * p.y, t: k * p.t, z: k * p.z }
}

/// A point is congruent to itself.
proof fn lemma_point_cong_refl(p: ExtendedPoint)
    ensures
        point_cong(p, p),
{
    lemma_cong_refl(p.x, q());
    lemma_cong_refl(p.y, q());
    lemma_cong_refl(p.t, q());
    lemma_cong_refl(p.z, q());
}

/// Points of the group with the same affine form differ by a factor: the
/// coordinates of the second are congruent to those of the first times a
/// residue. Returns the factor.
pub proof fn lemma_same_form_scales(p: ExtendedPoint, p2: ExtendedPoint) -> (k: int)
    requires
        extended_valid(p),
        extended_valid(p2),
        to_affine(p) == to_affine(p2),
    ensures
        point_cong(p2, scaled(p, k)),
{
    let m = q();
    let zi = finv(p.z);
    let zi2 = finv(p2.z);
    lemma_finv(p.z);
    lemma_finv(p2.z);
    let k = fmul(p2.z, zi);
    lemma_small_mod(1, m as nat);
    lemma_residue_cong(p.z * zi, 1, m);
    lemma_residue_cong(p2.z * zi2, 1, m);
    lemma_cong_mod(p2.z * zi, m);
    // the affine forms
    lemma_cong_mod(p.x * zi, m);
    lemma_cong_mod(p2.x * zi2, m);
    lemma_cong_mod(p.y * zi, m);
    lemma_cong_mod(p2.y * zi2, m);
    lemma_cong_trans(p.x * zi, fmul(p.x, zi), p2.x * zi2, m);
    lemma_cong_trans(p.y * zi, fmul(p.y, zi), p2.y * zi2, m);
    // k x == z2 (x zi) == z2 (x2 zi2) == x2 (z2 zi2) == x2
    lemma_scale_coordinate(k, p.x, p2.x, p.z, p2.z, zi, zi2);
    lemma_scale_coordinate(k, p.y, p2.y, p.z, p2.z, zi, zi2);
    // k z == z2 (zi z) == z2
    lemma_cong_refl(p.z, m);
    lemma_cong_mul(k, p2.z * zi, p.z, p.z, m);
    assert((p2.z * zi) * p.z == p2.z * (p.z * zi)) by (nonlinear_arith);
    lemma_cong_refl(p2.z, m);
    lemma_cong_mul(p2.z, p2.z, p.z * zi, 1, m);
    assert(p2.z * 1 == p2.z);
    lemma_cong_trans(k * p.z, p2.z * (p.z * zi), p2.z, m);
    lemma_cong_sym(k * p.z, p2.z, m);
    // k t == t2: both times z2 are k^2 x y
    lemma_cong_sym(k * p.x, p2.x, m);
    lemma_cong_sym(k * p.y, p2.y, m);
    lemma_cong_sym(p2.x, k * p.x, m);
    lemma_cong_sym(p2.y, k * p.y, m);
    lemma_residue_cong(p.x * p.y, p.t * p.z, m);
    lemma_residue_cong(p2.x * p2.y, p2.t * p2.z, m);
    lemma_cong_mul(k * p.x, p2.x, k * p.y, p2.y, m);
    lemma_regroup(k, p.x, k, p.y);
    lemma_cong_refl(k * k, m);
    lemma_cong_mul(k * k, k * k, p.x * p.y, p.t * p.z, m);
    lemma_regroup(k, k, p.t, p.z);
    lemma_cong_refl(k * p.t, m);
    lemma_cong_mul(k * p.t, k * p.t, k * p.z, p2.z, m);
    // (k t) z2 == (k t)(k z) == k^2 (t z) == k^2 (x y) == (k x)(k y) == x2 y2 == t2 z2
    lemma_cong_sym((k * p.t) * (k * p.z), (k * p.t) * p2.z, m);
    lemma_cong_sym((k * k) * (p.x * p.y), (k * k) * (p.t * p.z), m);
    lemma_cong_trans((k * p.t) * p2.z, (k * k) * (p.t * p.z), (k * k) * (p.x * p.y), m);
    lemma_cong_trans((k * p.t) * p2.z, (k * p.x) * (k * p.y), p2.x * p2.y, m);
    lemma_cong_trans((k * p.t) * p2.z, p2.x * p2.y, p2.t * p2.z, m);
    // cancel z2
    lemma_cong_refl(zi2, m);
    lemma_cong_mul((k * p.t) * p2.z, p2.t * p2.z, zi2, zi2, m);
    assert(((k * p.t) * p2.z) * zi2 == (k * p.t) * (p2.z * zi2)) by (nonlinear_arith);
    assert((p2.t * p2.z) * zi2 == p2.t * (p2.z * zi2)) by (nonlinear_arith);
    lemma_cong_mul(k * p.t, k * p.t, p2.z * zi2, 1, m);
    lemma_cong_refl(p2.t, m);
    lemma_cong_mul(p2.t, p2.t, p2.z * zi2, 1, m);
    assert((k * p.t) * 1 == k * p.t && p2.t * 1 == p2.t);
    lemma_cong_sym((k * p.t) * (p2.z * zi2), k * p.t, m);
    lemma_cong_trans(k * p.t, (k * p.t) * (p2.z * zi2), p2.t * (p2.z * zi2), m);
    lemma_cong_trans(k * p.t, p2.t * (p2.z * zi2), p2.t, m);
    lemma_cong_sym(k * p.t, p2.t, m);
    k
}

/// One coordinate of two points with the same affine form: where
/// `x / z = x2 / z2`, the factor `z2 / z` takes `x` to `x2`.
proof fn lemma_scale_coordinate(k: int, x: int, x2: int, z: int, z2: int, zi: int, zi2: int)
    requires
        cong(k, z2 * zi, q()),
        cong(x * zi, x2 * zi2, q()),
        cong(z2 * zi2, 1, q()),
    ensures
        cong(k * x, x2, q()),
{
    let m = q();
    lemma_cong_refl(x, m);
    lemma_cong_mul(k, z2 * zi, x, x, m);
    assert((z2 * zi) * x == z2 * (x * zi)) by (nonlinear_arith);
    lemma_cong_refl(z2, m);
    lemma_cong_mul(z2, z2, x * zi, x2 * zi2, m);
    assert(z2 * (x2 * zi2) == x2 * (z2 * zi2)) by (nonlinear_arith);
    lemma_cong_refl(x2, m);
    lemma_cong_mul(x2, x2, z2 * zi2, 1, m);
    assert(x2 * 1 == x2);
    lemma_cong_trans(k * x, z2 * (x * zi), x2 * (z2 * zi2), m);
    lemma_cong_trans(k * x, x2 * (z2 * zi2), x2, m);
}

/// The sum does not depend on the coordinates that stand for the points:
/// points with the same affine forms have sums with the same affine form.
pub proof fn lemma_sum_respects(
    p: ExtendedPoint,
    r: ExtendedPoint,
    p2: ExtendedPoint,
    r2: ExtendedPoint,
)
    requires
        extended_valid(p),
        extended_valid(r),
        extended_valid(p2),
        extended_valid(r2),
        to_affine(p) == to_affine(p2),
        to_affine(r) == to_affine(r2),
    ensures
        to_affine(extended_sum(p, r)) == to_affine(extended_sum(p2, r2)),
{
    let m = q();
    let k = lemma_same_form_scales(p, p2);
    let j = lemma_same_form_scales(r, r2);
    lemma_point_cong_refl(p);
    lemma_point_cong_refl(r);
    lemma_sum_terms_cong(p, r, p, r);
    lemma_sum_terms_cong(p2, r2, scaled(p, k), scaled(r, j));
    lemma_sum_valid(p, r);
    lemma_sum_valid(p2, r2);
    let (e, f, g, h) = sum_terms(p, r);
    let (e2, f2, g2, h2) = sum_terms(p2, r2);
    let kj = k * j;
    let (ie, ih) = (int_e(p, r), int_h(p, r));
    let (ig, jf) = (int_g(p, r, d()), int_f(p, r, d()));
    // the integer terms of the scaled points are the terms times k j
    lemma_regroup(k, p.x, j, r.y);
    lemma_regroup(k, p.y, j, r.x);
    lemma_regroup(k, p.x, j, r.x);
    lemma_regroup(k, p.y, j, r.y);
    let (xy, yx, xx, yy) = (p.x * r.y, p.y * r.x, p.x * r.x, p.y * r.y);
    assert(kj * (xy + yx) == kj * xy + kj * yx && kj * (xx + yy) == kj * xx + kj * yy)
        by (nonlinear_arith);
    assert(int_e(scaled(p, k), scaled(r, j)) == kj * ie);
    assert(int_h(scaled(p, k), scaled(r, j)) == kj * ih);
    let zz = p.z * r.z;
    let tt = p.t * r.t;
    lemma_regroup(k, p.z, j, r.z);
    lemma_regroup(k, p.t, j, r.t);
    assert(int_g(scaled(p, k), scaled(r, j), d()) == kj * ig) by (nonlinear_arith)
        requires
            ig == zz + d() * tt,
            int_g(scaled(p, k), scaled(r, j), d()) == kj * zz + d() * (kj * tt),
    ;
    assert(int_f(scaled(p, k), scaled(r, j), d()) == kj * jf) by (nonlinear_arith)
        requires
            jf == zz - d() * tt,
            int_f(scaled(p, k), scaled(r, j), d()) == kj * zz - d() * (kj * tt),
    ;
    // e g2 == e (kj g) and e2 g == (kj e) g
    lemma_cong_mul(e, ie, g2, kj * ig, m);
    lemma_cong_mul(e2, kj * ie, g, ig, m);
    assert(ie * (kj * ig) == (kj * ie) * ig) by (nonlinear_arith);
    lemma_cong_sym(e2 * g, (kj * ie) * ig, m);
    lemma_cong_trans(e * g2, ie * (kj * ig), e2 * g, m);
    lemma_cong_mul(h, ih, f2, kj * jf, m);
    lemma_cong_mul(h2, kj * ih, f, jf, m);
    assert(ih * (kj * jf) == (kj * ih) * jf) by (nonlinear_arith);
    lemma_cong_sym(h2 * f, (kj * ih) * jf, m);
    lemma_cong_trans(h * f2, ih * (kj * jf), h2 * f, m);
    lemma_same_affine_form(e, f, g, h, e2, f2, g2, h2);
}

/// A point of the group stands for the same affine point as its affine
/// form in extended coordinates.
pub proof fn lemma_extend_of_affine_form(p: ExtendedPoint) -> (a: AffinePoint)
    requires
        extended_valid(p),
    ensures
        to_affine(p) == Some(a),
        affine_valid(a),
        extended_valid(extend(a)),
        to_affine(extend(a)) == Some(a),
{
    lemma_to_affine_valid(p);
    let a = to_affine(p).unwrap();
    lemma_extend_valid(a);
    lemma_finv(1);
    lemma_fmul_unit(finv(1));
    lemma_fmul_unit(a.x);
    lemma_fmul_unit(a.y);
    a
}

/// The addition of points of the group is associative: `(P + R) + S` and
/// `P + (R + S)` are the same point.
pub proof fn lemma_associative(p: ExtendedPoint, r: ExtendedPoint, s: ExtendedPoint)
    requires
        extended_valid(p),
        extended_valid(r),
        extended_valid(s),
    ensures
        to_affine(extended_sum(extended_sum(p, r), s)) == to_affine(
            extended_sum(p, extended_sum(r, s)),
        ),
{
    let a = lemma_extend_of_affine_form(p);
    let b = lemma_extend_of_affine_form(r);
    let c = lemma_extend_of_affine_form(s);
    lemma_affine_sum_valid(a, b);
    lemma_affine_sum_valid(b, c);
    lemma_sum_valid(p, r);
    lemma_sum_valid(r, s);
    lemma_sum_respects(p, r, extend(a), extend(b));
    lemma_sum_respects(r, s, extend(b), extend(c));
    lemma_sum_respects(extended_sum(p, r), s, affine_sum(a, b), extend(c));
    lemma_sum_respects(p, extended_sum(r, s), extend(a), affine_sum(b, c));
    lemma_affine_associative(a, b, c);
}

/// The addition of points is commutative: `P + R` and `R + P` have the same
/// coordinates.
pub proof fn lemma_commutative(p: ExtendedPoint, r: ExtendedPoint)
    ensures
        extended_sum(p, r) == extended_sum(r, p),
{
    lemma_fmul_laws(p.x, r.x, 0);
    lemma_fmul_laws(p.y, r.y, 0);
    lemma_fmul_laws(p.z, r.z, 0);
    lemma_fmul_laws(d(), p.t, r.t);
    lemma_fmul_laws(d(), r.t, p.t);
    lemma_fmul_laws(p.t, r.t, 0);
    lemma_fmul_laws(fadd(p.x, p.y), fadd(r.x, r.y), 0);
}

/// Doubling agrees with addition: `A + A + B + B` and
/// `A.double() + B.double()` are the same point.
pub proof fn lemma_doubling_agreement(a: ExtendedPoint, b: ExtendedPoint)
    requires
        extended_valid(a),
        extended_valid(b),
    ensures
        to_affine(extended_sum(extended_sum(extended_sum(a, a), b), b)) == to_affine(
            extended_sum(doubled(a), doubled(b)),
        ),
{
    let s = extended_sum(a, a);
    let t = extended_sum(b, b);
    lemma_sum_valid(a, a);
    lemma_sum_valid(b, b);
    lemma_doubled_valid(a);
    lemma_doubled_valid(b);
    lemma_double_is_sum(a);
    lemma_double_is_sum(b);
    lemma_sum_respects(doubled(a), doubled(b), s, t);
    lemma_associative(s, b, b);
}

} // verus!
