//! The twisted Edwards curve `-x^2 + y^2 = 1 + d x^2 y^2` over the base
//! field, as formulas on integers modulo `q`. The executable point
//! arithmetic is specified by these.
use vstd::prelude::*;
use vstd::arithmetic::div_mod::{
    lemma_add_mod_noop, lemma_mod_bound, lemma_mul_mod_noop_general, lemma_mul_mod_noop_left,
    lemma_mul_mod_noop_right, lemma_small_mod, lemma_sub_mod_noop,
};
use vstd::arithmetic::power2::lemma2_to64;
use crate::bits::lemma_no_high_bits;
use crate::naf::{naf_digit, naf_of, is_naf_of, lemma_naf_unique};
use crate::modular::lemma_mod_from_parts;
use crate::roots::is_square;
use crate::base::q;
use crate::modular::{add_mod, sub_mod, mul_mod, neg_mod, pow_mod};
use crate::naf::Naf;
use crate::bytes::le_bytes;

verus! {

/// A point in affine coordinates, each a residue modulo `q`.
pub struct AffinePoint {
    pub x: int,
    pub y: int,
}

/// A point in extended coordinates `(X, Y, T, Z)`, standing for the affine
/// point `(X / Z, Y / Z)`, with `T = X Y / Z`.
pub struct ExtendedPoint {
    pub x: int,
    pub y: int,
    pub t: int,
    pub z: int,
}

/// The curve constant `d`.
pub open spec fn d() -> int {
    0x2a9318e74bfa2b48f5fd9207e6bd7fd4292d7f6d37579d2601065fd6d6343eb1int
}

/// Addition in the base field.
pub open spec fn fadd(a: int, b: int) -> int {
    add_mod(a, b, q())
}

/// Subtraction in the base field.
pub open spec fn fsub(a: int, b: int) -> int {
    sub_mod(a, b, q())
}

/// Multiplication in the base field.
pub open spec fn fmul(a: int, b: int) -> int {
    mul_mod(a, b, q())
}

/// Negation in the base field.
pub open spec fn fneg(a: int) -> int {
    neg_mod(a, q())
}

/// Whether an integer is a residue modulo `q`.
pub open spec fn is_residue(a: int) -> bool {
    0 <= a < q()
}

/// The coordinates of an affine point are residues.
pub open spec fn affine_wf(p: AffinePoint) -> bool {
    is_residue(p.x) && is_residue(p.y)
}

/// The coordinates of an extended point are residues, and `X Y = T Z`.
pub open spec fn extended_wf(p: ExtendedPoint) -> bool {
    is_residue(p.x) && is_residue(p.y) && is_residue(p.t) && is_residue(p.z) && fmul(p.x, p.y) == fmul(
        p.t,
        p.z,
    )
}

/// Whether an affine point satisfies the curve equation.
pub open spec fn on_curve(p: AffinePoint) -> bool {
    fsub(fmul(p.y, p.y), fmul(p.x, p.x)) == fadd(1, fmul(d(), fmul(fmul(p.x, p.x), fmul(p.y, p.y))))
}

/// The neutral element in affine coordinates.
pub open spec fn affine_identity() -> AffinePoint {
    AffinePoint { x: 0, y: 1 }
}

/// The neutral element in extended coordinates.
pub open spec fn extended_identity() -> ExtendedPoint {
    ExtendedPoint { x: 0, y: 1, t: 0, z: 1 }
}

/// An affine point in extended coordinates.
pub open spec fn extend(p: AffinePoint) -> ExtendedPoint {
    ExtendedPoint { x: p.x, y: p.y, t: fmul(p.x, p.y), z: 1 }
}

/// The extended point `(E F, G H, E H, F G)` that every addition and
/// doubling formula ends in.
pub open spec fn assemble(e: int, f: int, g: int, h: int) -> ExtendedPoint {
    ExtendedPoint { x: fmul(e, f), y: fmul(g, h), t: fmul(e, h), z: fmul(f, g) }
}

/// The sum of two affine points.
pub open spec fn affine_sum(p0: AffinePoint, p1: AffinePoint) -> ExtendedPoint {
    let a = fmul(p0.x, p1.x);
    let b = fmul(p0.y, p1.y);
    let c = fmul(fmul(d(), a), b);
    let h = fadd(a, b);
    let e = fsub(fmul(fadd(p0.x, p0.y), fadd(p1.x, p1.y)), h);
    let f = fsub(1, c);
    let g = fadd(1, c);
    assemble(e, f, g, h)
}

/// Twice an extended point. The formula does not read `T`.
pub open spec fn doubled(p: ExtendedPoint) -> ExtendedPoint {
    let a = fneg(fmul(p.x, p.x));
    let b = fmul(p.y, p.y);
    let c = fmul(2, fmul(p.z, p.z));
    let d = fsub(a, b);
    let e = fmul(2, fmul(p.x, p.y));
    let g = fadd(a, b);
    let f = fsub(g, c);
    assemble(e, f, g, d)
}

/// The sum of an affine and an extended point.
pub open spec fn mixed_sum(p0: AffinePoint, p1: ExtendedPoint) -> ExtendedPoint {
    let a = fmul(p0.x, p1.x);
    let b = fmul(p0.y, p1.y);
    let c = fmul(fmul(fmul(d(), p0.x), p0.y), p1.t);
    let h = fadd(a, b);
    let e = fsub(fmul(fadd(p0.x, p0.y), fadd(p1.x, p1.y)), h);
    let f = fsub(p1.z, c);
    let g = fadd(p1.z, c);
    assemble(e, f, g, h)
}

/// The sum of two extended points.
pub open spec fn extended_sum(p0: ExtendedPoint, p1: ExtendedPoint) -> ExtendedPoint {
    let a = fmul(p0.x, p1.x);
    let b = fmul(p0.y, p1.y);
    let c = fmul(fmul(d(), p0.t), p1.t);
    let d = fmul(p0.z, p1.z);
    let h = fadd(a, b);
    let e = fsub(fmul(fadd(p0.x, p0.y), fadd(p1.x, p1.y)), h);
    let f = fsub(d, c);
    let g = fadd(d, c);
    assemble(e, f, g, h)
}

/// The negative of an affine point.
pub open spec fn affine_negative(p: AffinePoint) -> AffinePoint {
    AffinePoint { x: fneg(p.x), y: p.y }
}

/// The negative of an extended point.
pub open spec fn extended_negative(p: ExtendedPoint) -> ExtendedPoint {
    ExtendedPoint { x: fneg(p.x), y: p.y, t: fneg(p.t), z: p.z }
}

/// The affine point that an extended point stands for: `X` and `Y` times
/// the inverse of `Z`. There is none when `Z` is zero.
pub open spec fn to_affine(p: ExtendedPoint) -> Option<AffinePoint> {
    if p.z == 0 {
        None
    } else {
        let zi = pow_mod(p.z, (q() - 2) as nat, q());
        Some(AffinePoint { x: fmul(p.x, zi), y: fmul(p.y, zi) })
    }
}

/// The 32 bytes that encode an affine point: the second coordinate, least
/// significant byte first, with the parity of the first coordinate in the
/// top bit of the last byte.
pub open spec fn encode(p: AffinePoint) -> Seq<u8> {
    le_bytes(code(p))
}

/// The integer that the encoding of an affine point stands for: the second
/// coordinate, with the parity of the first at the weight `2^255`.
pub open spec fn code(p: AffinePoint) -> int {
    p.y + (p.x % 2) * 0x8000_0000_0000_0000_0000_0000_0000_0000_0000_0000_0000_0000_0000_0000_0000_0000int
}

/// Whether the integer `n` is the code of the point `p` of the curve.
pub open spec fn decodes(n: int, p: AffinePoint) -> bool {
    affine_wf(p) && on_curve(p) && code(p) == n
}

/// The multiple of an extended point that a sequence of signed digits
/// stands for, most significant digit first: for each digit the
/// accumulator is doubled, then the point is added or subtracted.
pub open spec fn multiple(p: ExtendedPoint, digits: Seq<Naf>) -> ExtendedPoint
    decreases digits.len(),
{
    if digits.len() == 0 {
        extended_identity()
    } else {
        let acc = doubled(multiple(p, digits.drop_last()));
        match digits.last() {
            Naf::Zero => acc,
            Naf::Plus => extended_sum(acc, p),
            Naf::Minus => extended_sum(acc, extended_negative(p)),
        }
    }
}

/// The multiple of an affine point that a sequence of signed digits stands
/// for, most significant digit first.
pub open spec fn affine_multiple(p: AffinePoint, digits: Seq<Naf>) -> ExtendedPoint
    decreases digits.len(),
{
    if digits.len() == 0 {
        extended_identity()
    } else {
        let acc = doubled(affine_multiple(p, digits.drop_last()));
        match digits.last() {
            Naf::Zero => acc,
            Naf::Plus => mixed_sum(p, acc),
            Naf::Minus => mixed_sum(affine_negative(p), acc),
        }
    }
}

/// Every assembled point is well formed: its coordinates are residues and
/// `(E F)(G H) = (E H)(F G)`.
pub proof fn lemma_assemble_wf(e: int, f: int, g: int, h: int)
    ensures
        extended_wf(assemble(e, f, g, h)),
{
    let m = q();
    lemma_mod_bound(e * f, m);
    lemma_mod_bound(g * h, m);
    lemma_mod_bound(e * h, m);
    lemma_mod_bound(f * g, m);
    lemma_mul_mod_noop_general(e * f, g * h, m);
    lemma_mul_mod_noop_general(e * h, f * g, m);
    assert((e * f) * (g * h) == (e * h) * (f * g)) by (nonlinear_arith);
}

/// The inverse of a residue other than zero: its power `q - 2`.
pub open spec fn finv(a: int) -> int {
    pow_mod(a, (q() - 2) as nat, q())
}

/// The inverse is an inverse, and a residue other than zero.
pub proof fn lemma_finv(a: int)
    requires
        0 < a < q(),
    ensures
        fmul(a, finv(a)) == 1,
        0 < finv(a) < q(),
{
    crate::pratt_q::lemma_root_q();
    crate::primes::lemma_fermat_inverse(7, q(), a);
    lemma_mod_bound(vstd::arithmetic::power::pow(a, (q() - 2) as nat), q());
    if finv(a) == 0 {
        assert(a * finv(a) == 0) by (nonlinear_arith)
            requires
                finv(a) == 0,
        ;
    }
}

/// A product of residues is zero only where a factor is zero.
pub proof fn lemma_no_zero_divisors(a: int, b: int)
    requires
        is_residue(a),
        is_residue(b),
        fmul(a, b) == 0,
    ensures
        a == 0 || b == 0,
{
    crate::pratt_q::lemma_prime_q();
    crate::roots::lemma_prime_divides_product(q(), a, b);
    lemma_small_mod(a as nat, q() as nat);
    lemma_small_mod(b as nat, q() as nat);
}

/// Multiplication of residues is associative and commutative.
pub proof fn lemma_fmul_laws(a: int, b: int, c: int)
    ensures
        fmul(a, b) == fmul(b, a),
        fmul(fmul(a, b), c) == fmul(a, fmul(b, c)),
        is_residue(fmul(a, b)),
{
    let m = q();
    lemma_mod_bound(a * b, m);
    assert(a * b == b * a) by (nonlinear_arith);
    lemma_mul_mod_noop_left(a * b, c, m);
    lemma_mul_mod_noop_right(a, b * c, m);
    assert((a * b) * c == a * (b * c)) by (nonlinear_arith);
}

/// One is the unit of multiplication, and zero absorbs.
pub proof fn lemma_fmul_unit(a: int)
    requires
        is_residue(a),
    ensures
        fmul(a, 1) == a,
        fmul(1, a) == a,
        fmul(a, 0) == 0,
        fmul(0, a) == 0,
{
    lemma_small_mod(a as nat, q() as nat);
    lemma_small_mod(0, q() as nat);
    assert(a * 1 == a && 1 * a == a && a * 0 == 0 && 0 * a == 0) by (nonlinear_arith);
}

/// Fractions with the same cross products are the same: where
/// `x1 z2 = x2 z1` and neither denominator is zero, `x1 / z1 = x2 / z2`.
pub proof fn lemma_same_fraction(x1: int, z1: int, x2: int, z2: int)
    requires
        is_residue(x1),
        is_residue(x2),
        0 < z1 < q(),
        0 < z2 < q(),
        fmul(x1, z2) == fmul(x2, z1),
    ensures
        fmul(x1, finv(z1)) == fmul(x2, finv(z2)),
{
    let (i1, i2) = (finv(z1), finv(z2));
    lemma_finv(z1);
    lemma_finv(z2);
    // x1 i1 == x1 i1 (z2 i2) == (x1 z2) (i1 i2) == (x2 z1) (i1 i2) == x2 i2 (z1 i1) == x2 i2
    lemma_fmul_laws(x1, i1, fmul(z2, i2));
    lemma_fmul_unit(fmul(x1, i1));
    lemma_fmul_laws(x2, i2, fmul(z1, i1));
    lemma_fmul_unit(fmul(x2, i2));
    lemma_fmul_four(x1, i1, z2, i2);
    lemma_fmul_four(x2, i2, z1, i1);
    lemma_fmul_laws(i1, i2, 0);
}

/// A product of two products, regrouped: `(a b)(c d) = (a c)(b d)`.
pub proof fn lemma_fmul_four(a: int, b: int, c: int, d: int)
    ensures
        fmul(fmul(a, b), fmul(c, d)) == fmul(fmul(a, c), fmul(b, d)),
{
    let m = q();
    lemma_mul_mod_noop_general(a * b, c * d, m);
    lemma_mul_mod_noop_general(a * c, b * d, m);
    assert((a * b) * (c * d) == (a * c) * (b * d)) by (nonlinear_arith);
}

/// Adding the neutral element to an affine point gives the point back, in
/// extended coordinates.
pub proof fn lemma_affine_sum_identity(p: AffinePoint)
    requires
        affine_wf(p),
    ensures
        affine_sum(p, affine_identity()) == extend(p),
{
    let m = q();
    lemma_fmul_unit(p.x);
    lemma_fmul_unit(p.y);
    lemma_fmul_unit(d());
    lemma_fmul_unit(fmul(d(), 0));
    lemma_small_mod(p.x as nat, m as nat);
    lemma_small_mod(p.y as nat, m as nat);
    lemma_small_mod(1, m as nat);
    let s = fadd(p.x, p.y);
    lemma_mod_bound(p.x + p.y, m);
    lemma_fmul_unit(s);
    // e == (x + y) - y
    lemma_sub_mod_noop(p.x + p.y, p.y, m);
    lemma_fmul_unit(fmul(p.x, p.y));
    lemma_fmul_laws(p.x, p.y, 1);
    assert(affine_sum(p, affine_identity()).x == p.x);
    assert(affine_sum(p, affine_identity()).y == p.y);
    assert(affine_sum(p, affine_identity()).z == 1);
    assert(affine_sum(p, affine_identity()).t == fmul(p.x, p.y));
}

/// Minus one times a residue is its negative, the negative of the negative
/// is the residue, and the product of two negatives is the product.
pub proof fn lemma_fneg_laws(a: int, b: int)
    requires
        is_residue(a),
        is_residue(b),
    ensures
        fmul(a, q() - 1) == fneg(a),
        fmul(q() - 1, a) == fneg(a),
        fneg(fneg(a)) == a,
        fmul(fneg(a), fneg(b)) == fmul(a, b),
        fmul(fneg(a), b) == fneg(fmul(a, b)),
        is_residue(fneg(a)),
{
    let m = q();
    lemma_mod_bound(-a, m);
    lemma_small_mod(a as nat, m as nat);
    assert(a * (m - 1) == a * m + (-a)) by (nonlinear_arith);
    assert((m - 1) * a == a * m + (-a)) by (nonlinear_arith);
    vstd::arithmetic::div_mod::lemma_mod_multiples_vanish(a, -a, m);
    assert(a * m == m * a) by (nonlinear_arith);
    lemma_sub_mod_noop(0, -a, m);
    lemma_mul_mod_noop_general(-a, -b, m);
    assert((-a) * (-b) == a * b) by (nonlinear_arith);
    lemma_mul_mod_noop_left(-a, b, m);
    assert((-a) * b == -(a * b)) by (nonlinear_arith);
    lemma_sub_mod_noop(0, a * b, m);
}

/// Twice the neutral element is the neutral element with both nonzero
/// coordinates negated.
pub proof fn lemma_doubled_identity()
    ensures
        doubled(extended_identity()) == (ExtendedPoint { x: 0, y: q() - 1, t: 0, z: q() - 1 }),
{
    let m = q();
    assert(fmul(0, 0) == 0);
    assert(fneg(0) == 0);
    assert(fmul(1, 1) == 1);
    assert(fmul(2, 1) == 2);
    assert(fsub(0, 1) == m - 1);
    assert(fmul(0, 1) == 0);
    assert(fmul(2, 0) == 0);
    assert(fadd(0, 1) == 1);
    assert(fsub(1, 2) == m - 1);
    lemma_fmul_unit(m - 1);
}

/// The negative of a sum less the negative of its second term is the
/// negative of the first.
proof fn lemma_cancel_negatives(x: int, y: int)
    requires
        is_residue(x),
        is_residue(y),
    ensures
        fsub(fmul(fadd(x, y), q() - 1), fneg(y)) == fneg(x),
{
    let m = q();
    let s = fadd(x, y);
    lemma_mod_bound(x + y, m);
    lemma_fneg_laws(s, x);
    lemma_sub_mod_noop(-s, -y, m);
    lemma_sub_mod_noop(0, s, m);
    lemma_sub_mod_noop(0, x + y, m);
    lemma_sub_mod_noop(-(x + y), -y, m);
    lemma_small_mod(s as nat, m as nat);
    lemma_mod_bound(-s, m);
    lemma_small_mod(fneg(s) as nat, m as nat);
}

/// The terms of the sum of an affine point and twice the neutral element.
proof fn lemma_first_step_terms(x: int, y: int)
    requires
        is_residue(x),
        is_residue(y),
    ensures
        fmul(x, 0) == 0,
        fmul(y, q() - 1) == fneg(y),
        fmul(fmul(fmul(d(), x), y), 0) == 0,
        fadd(0, fneg(y)) == fneg(y),
        fadd(0, q() - 1) == q() - 1,
        fsub(q() - 1, 0) == q() - 1,
        fsub(fmul(fadd(x, y), q() - 1), fneg(y)) == fneg(x),
        fmul(fneg(x), q() - 1) == x,
        fmul(q() - 1, fneg(y)) == y,
        fmul(fneg(x), fneg(y)) == fmul(x, y),
        fmul(q() - 1, q() - 1) == 1,
{
    let m = q();
    lemma_fmul_unit(x);
    lemma_fmul_laws(fmul(d(), x), y, 0);
    lemma_fmul_unit(fmul(fmul(d(), x), y));
    lemma_fneg_laws(y, x);
    lemma_fneg_laws(x, y);
    lemma_small_mod(fneg(y) as nat, m as nat);
    lemma_small_mod((m - 1) as nat, m as nat);
    lemma_cancel_negatives(x, y);
    lemma_fneg_laws(fneg(x), y);
    lemma_fneg_laws(fneg(y), x);
    crate::roots::lemma_minus_one_squared(m);
}

/// The first step of a multiple of an affine point: the point added to
/// twice the neutral element is the point, in extended coordinates.
pub proof fn lemma_first_step(p: AffinePoint)
    requires
        affine_wf(p),
    ensures
        mixed_sum(p, doubled(extended_identity())) == extend(p),
{
    let m = q();
    let w = ExtendedPoint { x: 0, y: m - 1, t: 0, z: m - 1 };
    lemma_doubled_identity();
    lemma_first_step_terms(p.x, p.y);
    let r = mixed_sum(p, w);
    assert(r.x == p.x);
    assert(r.y == p.y);
    assert(r.t == fmul(p.x, p.y));
    assert(r.z == 1);
}

/// The non-adjacent form of nine: plus, zero, zero, plus.
pub proof fn lemma_naf_of_nine()
    ensures
        naf_of(9) == seq![Naf::Plus, Naf::Zero, Naf::Zero, Naf::Plus],
{
    let s = seq![Naf::Plus, Naf::Zero, Naf::Zero, Naf::Plus];
    lemma2_to64();
    assert(naf_digit(9, 1) == 1);
    assert(naf_digit(9, 2) == 0);
    assert(naf_digit(9, 3) == 0);
    assert(naf_digit(9, 4) == 1);
    assert forall|i: nat| 4 < i implies #[trigger] naf_digit(9, i) == 0 by {
        lemma_no_high_bits(9, 5, i);
        lemma_no_high_bits(27, 5, i);
    }
    assert(is_naf_of(9, s));
    lemma_naf_unique(9, s);
}

/// Nine times an affine point, by its non-adjacent form, is the point
/// doubled three times with the point added:
/// `P * 9 == P.double().double().double() + P`.
pub proof fn lemma_times_nine(p: AffinePoint)
    requires
        affine_wf(p),
    ensures
        affine_multiple(p, naf_of(9)) == mixed_sum(p, doubled(doubled(doubled(extend(p))))),
{
    let s = seq![Naf::Plus, Naf::Zero, Naf::Zero, Naf::Plus];
    lemma_naf_of_nine();
    lemma_first_step(p);
    let s3 = s.drop_last();
    let s2 = s3.drop_last();
    let s1 = s2.drop_last();
    let s0 = s1.drop_last();
    assert(s0.len() == 0);
    assert(s1.last() == Naf::Plus && s2.last() == Naf::Zero && s3.last() == Naf::Zero && s.last()
        == Naf::Plus);
    assert(affine_multiple(p, s0) == extended_identity());
    assert(affine_multiple(p, s1) == extend(p));
    assert(affine_multiple(p, s2) == doubled(extend(p)));
    assert(affine_multiple(p, s3) == doubled(doubled(extend(p))));
}

/// Whether an extended point satisfies the curve equation in its
/// projective form, `Y^2 - X^2 = Z^2 + d T^2`.
pub open spec fn extended_on_curve(p: ExtendedPoint) -> bool {
    fsub(fmul(p.y, p.y), fmul(p.x, p.x)) == fadd(fmul(p.z, p.z), fmul(d(), fmul(p.t, p.t)))
}

/// Adding zero changes no residue, and adding a negative is subtracting.
pub proof fn lemma_fadd_laws(a: int, b: int)
    requires
        is_residue(a),
        is_residue(b),
    ensures
        fadd(a, 0) == a,
        fadd(0, a) == a,
        fsub(a, 0) == a,
        fadd(fneg(a), b) == fsub(b, a),
        fsub(b, fneg(a)) == fadd(b, a),
        fsub(a, a) == 0,
{
    let m = q();
    lemma_small_mod(a as nat, m as nat);
    lemma_small_mod(0, m as nat);
    lemma_add_mod_noop(-a, b, m);
    lemma_small_mod(b as nat, m as nat);
    lemma_sub_mod_noop(b, -a, m);
}

/// The product of a sum and a difference, less the difference of the
/// squares, is zero.
pub proof fn lemma_difference_of_squares(x: int, y: int)
    requires
        is_residue(x),
        is_residue(y),
    ensures
        fsub(fmul(fadd(x, y), fadd(fneg(x), y)), fadd(fneg(fmul(x, x)), fmul(y, y))) == 0,
{
    let m = q();
    let lhs = (x + y) * (-x + y);
    let rhs = -(x * x) + y * y;
    assert((x + y) * (-x + y) == -(x * x) + y * y) by (nonlinear_arith);
    // the product
    lemma_add_mod_noop(-x, y, m);
    lemma_mul_mod_noop_general(x + y, -x + y, m);
    lemma_mul_mod_noop_general(fadd(x, y), fadd(fneg(x), y), m);
    assert(fmul(fadd(x, y), fadd(fneg(x), y)) == lhs % m);
    // the squares
    lemma_sub_mod_noop(0, x * x, m);
    lemma_add_mod_noop(-(x * x), y * y, m);
    lemma_add_mod_noop(-fmul(x, x), fmul(y, y), m);
    lemma_add_mod_noop(fneg(fmul(x, x)), fmul(y, y), m);
    assert(fadd(fneg(fmul(x, x)), fmul(y, y)) == rhs % m);
    lemma_sub_mod_noop(lhs, rhs, m);
    lemma_small_mod(0, m as nat);
}

/// What adding the neutral element to an extended point gives: the
/// coordinates scaled by `Z`.
pub open spec fn scaled_by_z(p: ExtendedPoint) -> ExtendedPoint {
    ExtendedPoint { x: fmul(p.x, p.z), y: fmul(p.z, p.y), t: fmul(p.x, p.y), z: fmul(p.z, p.z) }
}

/// A point scaled by its `Z` stands for the same affine point.
pub proof fn lemma_scaled_by_z(p: ExtendedPoint)
    requires
        extended_wf(p),
    ensures
        to_affine(scaled_by_z(p)) == to_affine(p),
{
    let s = scaled_by_z(p);
    lemma_fmul_laws(p.x, p.z, p.z);
    lemma_fmul_laws(p.z, p.y, p.z);
    lemma_fmul_laws(p.y, p.z, p.z);
    lemma_fmul_laws(p.z, p.z, 0);
    if p.z == 0 {
        lemma_fmul_unit(0);
    } else {
        if s.z == 0 {
            lemma_no_zero_divisors(p.z, p.z);
        }
        lemma_same_fraction(s.x, s.z, p.x, p.z);
        lemma_same_fraction(s.y, s.z, p.y, p.z);
    }
}

/// Adding the neutral element to an extended point gives the same affine
/// point: `P + O == P`.
pub proof fn lemma_extended_sum_identity(p: ExtendedPoint)
    requires
        extended_wf(p),
    ensures
        extended_sum(p, extended_identity()) == scaled_by_z(p),
        to_affine(extended_sum(p, extended_identity())) == to_affine(p),
{
    let o = extended_identity();
    lemma_fmul_unit(p.x);
    lemma_fmul_unit(p.y);
    lemma_fmul_unit(p.z);
    lemma_fmul_unit(fmul(d(), p.t));
    lemma_fmul_laws(d(), p.t, 0);
    lemma_fadd_laws(p.y, p.z);
    lemma_fadd_laws(p.z, p.y);
    lemma_fadd_laws(p.x, p.y);
    lemma_fadd_laws(1, p.x);
    let s = fadd(p.x, p.y);
    lemma_mod_bound(p.x + p.y, q());
    lemma_fmul_unit(s);
    assert(fsub(s, p.y) == p.x) by {
        lemma_sub_mod_noop(p.x + p.y, p.y, q());
        lemma_small_mod(p.x as nat, q() as nat);
        lemma_small_mod(p.y as nat, q() as nat);
    }
    assert(extended_sum(p, o) == assemble(p.x, p.z, p.z, p.y));
    lemma_scaled_by_z(p);
}

/// Adding an extended point to the affine neutral element gives the same
/// affine point.
pub proof fn lemma_mixed_sum_identity(p: ExtendedPoint)
    requires
        extended_wf(p),
    ensures
        mixed_sum(affine_identity(), p) == scaled_by_z(p),
        to_affine(mixed_sum(affine_identity(), p)) == to_affine(p),
{
    let o = affine_identity();
    lemma_fmul_unit(p.x);
    lemma_fmul_unit(p.y);
    lemma_fmul_unit(p.t);
    lemma_fmul_unit(d());
    lemma_fmul_unit(0);
    lemma_fadd_laws(p.y, p.z);
    lemma_fadd_laws(p.z, p.y);
    lemma_fadd_laws(1, p.x);
    let s = fadd(p.x, p.y);
    lemma_mod_bound(p.x + p.y, q());
    lemma_fmul_unit(s);
    assert(fsub(s, p.y) == p.x) by {
        lemma_sub_mod_noop(p.x + p.y, p.y, q());
        lemma_small_mod(p.x as nat, q() as nat);
        lemma_small_mod(p.y as nat, q() as nat);
    }
    assert(mixed_sum(o, p) == assemble(p.x, p.z, p.z, p.y));
    lemma_scaled_by_z(p);
}

/// A point with the first coordinate zero and the second equal to `Z`,
/// other than zero, stands for the neutral element.
pub proof fn lemma_is_identity(p: ExtendedPoint)
    requires
        p.x == 0,
        p.y == p.z,
        0 < p.z < q(),
    ensures
        to_affine(p) == Some(affine_identity()),
{
    lemma_finv(p.z);
    lemma_fmul_unit(finv(p.z));
}

/// The curve constant `d` is not a square.
pub proof fn lemma_d_is_no_square()
    ensures
        !is_square(d(), q()),
{
    crate::pratt_q::lemma_root_q();
    crate::euler_d::lemma_power_of_d();
    if is_square(d(), q()) {
        crate::roots::lemma_euler(7, q(), d());
    }
}

/// Minus one is a square.
pub proof fn lemma_minus_one_is_square()
    ensures
        is_square(q() - 1, q()),
{
    let m = q();
    crate::base::lemma_root_of_unity();
    let i = crate::roots::tower(crate::base::root_of_unity(), 30, m);
    crate::roots::lemma_tower_step(crate::base::root_of_unity(), 30, m);
    lemma_mod_bound(
        vstd::arithmetic::power::pow(crate::base::root_of_unity(), vstd::arithmetic::power2::pow2(30)),
        m,
    );
    crate::roots::lemma_square_has_root(m, i, m - 1);
}

/// The negative of the curve constant `d` is not a square.
pub proof fn lemma_minus_d_is_no_square()
    ensures
        !is_square(fneg(d()), q()),
{
    let m = q();
    lemma_d_is_no_square();
    lemma_minus_one_is_square();
    if is_square(fneg(d()), m) {
        let s = choose|y: int| 0 <= y < m && #[trigger] mul_mod(y, y, m) == fneg(d());
        let i = choose|y: int| 0 <= y < m && #[trigger] mul_mod(y, y, m) == m - 1;
        let y = fmul(s, i);
        lemma_fmul_laws(s, i, 0);
        lemma_fmul_four(s, i, s, i);
        lemma_fneg_laws(d(), d());
        lemma_fneg_laws(fneg(d()), d());
        crate::roots::lemma_square_has_root(m, y, d());
    }
}

/// A residue `a` for which `z^2 = a t^2` with `t` other than zero is a
/// square.
pub proof fn lemma_quotient_is_square(a: int, z: int, t: int)
    requires
        is_residue(a),
        is_residue(z),
        0 < t < q(),
        fmul(z, z) == fmul(a, fmul(t, t)),
    ensures
        is_square(a, q()),
{
    let m = q();
    let it = finv(t);
    lemma_finv(t);
    let y = fmul(z, it);
    lemma_fmul_laws(z, it, 0);
    lemma_fmul_four(z, it, z, it);
    lemma_fmul_four(t, it, t, it);
    lemma_fmul_laws(a, fmul(t, t), fmul(it, it));
    lemma_fmul_unit(1);
    lemma_fmul_unit(a);
    assert(fmul(y, y) == a);
    crate::roots::lemma_square_has_root(m, y, a);
}

/// The denominators of the difference of a point and itself are not zero:
/// neither `z^2 + d t^2` nor `z^2 - d t^2` vanishes where `z` does not,
/// because neither `d` nor its negative is a square.
pub proof fn lemma_denominators(z: int, t: int)
    requires
        0 < z < q(),
        is_residue(t),
    ensures
        fadd(fmul(z, z), fmul(d(), fmul(t, t))) != 0,
        fsub(fmul(z, z), fmul(d(), fmul(t, t))) != 0,
{
    let m = q();
    let z2 = fmul(z, z);
    let t2 = fmul(t, t);
    let dt = fmul(d(), t2);
    lemma_fmul_laws(z, z, 0);
    lemma_fmul_laws(t, t, 0);
    lemma_fmul_laws(d(), t2, 0);
    if z2 == 0 {
        lemma_no_zero_divisors(z, z);
    }
    if t == 0 {
        lemma_fmul_unit(0);
        lemma_fmul_unit(d());
        lemma_fadd_laws(z2, 0);
    } else {
        if fsub(z2, dt) == 0 {
            if z2 >= dt {
                lemma_small_mod((z2 - dt) as nat, m as nat);
            } else {
                lemma_mod_from_parts(z2 - dt, m, -1, z2 - dt + m);
            }
            lemma_d_is_no_square();
            lemma_quotient_is_square(d(), z, t);
        }
        if fadd(z2, dt) == 0 {
            // z2 == -dt == (-d) t2
            lemma_fneg_laws(d(), t2);
            lemma_fneg_laws(dt, t2);
            if z2 + dt < m {
                lemma_small_mod((z2 + dt) as nat, m as nat);
            } else {
                lemma_mod_from_parts(z2 + dt, m, 1, z2 + dt - m);
            }
            lemma_mod_from_parts(-dt, m, -1, m - dt);
            assert(z2 == fneg(dt));
            lemma_minus_d_is_no_square();
            lemma_quotient_is_square(fneg(d()), z, t);
        }
    }
}

/// A point of the curve less itself is the neutral element: `P - P`
/// converts to `(0, 1)`.
pub proof fn lemma_extended_difference(p: ExtendedPoint)
    requires
        extended_wf(p),
        extended_on_curve(p),
        p.z != 0,
    ensures
        to_affine(extended_sum(p, extended_negative(p))) == Some(affine_identity()),
{
    let n = extended_negative(p);
    let a = fmul(p.x, n.x);
    let b = fmul(p.y, n.y);
    let c = fmul(fmul(d(), p.t), n.t);
    let dd = fmul(p.z, n.z);
    let h = fadd(a, b);
    let e = fsub(fmul(fadd(p.x, p.y), fadd(n.x, n.y)), h);
    let f = fsub(dd, c);
    let g = fadd(dd, c);
    lemma_fmul_laws(p.x, p.x, 0);
    lemma_fmul_laws(p.y, p.y, 0);
    lemma_fmul_laws(p.z, p.z, 0);
    lemma_fmul_laws(d(), p.t, p.t);
    lemma_fmul_laws(fmul(d(), p.t), p.t, 0);
    lemma_fmul_laws(fmul(d(), p.t), fneg(p.t), 0);
    lemma_fneg_laws(p.x, p.x);
    lemma_fneg_laws(p.t, fmul(d(), p.t));
    assert(a == fneg(fmul(p.x, p.x))) by {
        lemma_fmul_laws(p.x, fneg(p.x), 0);
    }
    assert(c == fneg(fmul(d(), fmul(p.t, p.t)))) by {
        lemma_fmul_laws(fneg(p.t), fmul(d(), p.t), 0);
    }
    assert(e == 0) by {
        lemma_difference_of_squares(p.x, p.y);
    }
    assert(h == fsub(fmul(p.y, p.y), fmul(p.x, p.x))) by {
        lemma_fadd_laws(fmul(p.x, p.x), fmul(p.y, p.y));
    }
    assert(f == fadd(fmul(p.z, p.z), fmul(d(), fmul(p.t, p.t)))) by {
        lemma_fadd_laws(fmul(d(), fmul(p.t, p.t)), fmul(p.z, p.z));
    }
    assert(h == f);
    assert(g == fsub(fmul(p.z, p.z), fmul(d(), fmul(p.t, p.t)))) by {
        lemma_fadd_laws(fmul(d(), fmul(p.t, p.t)), fmul(p.z, p.z));
    }
    lemma_denominators(p.z, p.t);
    lemma_mod_bound(dd - c, q());
    lemma_mod_bound(dd + c, q());
    if fmul(f, g) == 0 {
        lemma_no_zero_divisors(f, g);
    }
    lemma_fmul_unit(f);
    lemma_fmul_unit(h);
    lemma_fmul_laws(f, g, 0);
    let r = extended_sum(p, n);
    assert(r == assemble(e, f, g, h));
    lemma_is_identity(r);
}

/// An affine point of the curve less itself is the neutral element:
/// `P - P` converts to `(0, 1)`.
pub proof fn lemma_affine_difference(p: AffinePoint)
    requires
        affine_wf(p),
        on_curve(p),
    ensures
        to_affine(affine_sum(p, affine_negative(p))) == Some(affine_identity()),
{
    let n = affine_negative(p);
    let a = fmul(p.x, n.x);
    let b = fmul(p.y, n.y);
    let c = fmul(fmul(d(), a), b);
    let h = fadd(a, b);
    let e = fsub(fmul(fadd(p.x, p.y), fadd(n.x, n.y)), h);
    let f = fsub(1, c);
    let g = fadd(1, c);
    let x2 = fmul(p.x, p.x);
    let y2 = fmul(p.y, p.y);
    lemma_fmul_laws(p.x, p.x, 0);
    lemma_fmul_laws(p.y, p.y, 0);
    lemma_fneg_laws(p.x, p.x);
    assert(a == fneg(x2)) by {
        lemma_fmul_laws(p.x, fneg(p.x), 0);
    }
    assert(c == fneg(fmul(d(), fmul(x2, y2)))) by {
        lemma_fneg_laws(x2, d());
        lemma_fmul_laws(d(), fneg(x2), 0);
        lemma_fmul_laws(d(), x2, y2);
        lemma_fmul_laws(fmul(d(), x2), y2, 0);
        lemma_fneg_laws(fmul(d(), x2), y2);
        lemma_fmul_laws(x2, d(), 0);
        lemma_fmul_laws(fneg(x2), d(), 0);
    }
    assert(e == 0) by {
        lemma_difference_of_squares(p.x, p.y);
    }
    assert(h == fsub(y2, x2)) by {
        lemma_fadd_laws(x2, y2);
    }
    lemma_fmul_laws(d(), fmul(x2, y2), 0);
    assert(f == fadd(1, fmul(d(), fmul(x2, y2)))) by {
        lemma_fadd_laws(fmul(d(), fmul(x2, y2)), 1);
    }
    assert(h == f);
    let t = fmul(p.x, p.y);
    lemma_fmul_laws(p.x, p.y, 0);
    lemma_fmul_four(p.x, p.y, p.x, p.y);
    lemma_fmul_unit(1);
    assert(g == fsub(1, fmul(d(), fmul(t, t)))) by {
        lemma_fadd_laws(fmul(d(), fmul(x2, y2)), 1);
    }
    lemma_denominators(1, t);
    lemma_mod_bound(1 - c, q());
    lemma_mod_bound(1 + c, q());
    if fmul(f, g) == 0 {
        lemma_no_zero_divisors(f, g);
    }
    lemma_fmul_unit(f);
    lemma_fmul_unit(h);
    lemma_fmul_laws(f, g, 0);
    let r = affine_sum(p, n);
    assert(r == assemble(e, f, g, h));
    lemma_is_identity(r);
}

/// The denominator of the square of the first coordinate, from the second:
/// `1 + d y^2`.
pub open spec fn denominator(y: int) -> int {
    fadd(1, fmul(d(), fmul(y, y)))
}

/// The numerator of the square of the first coordinate, from the second:
/// `y^2 - 1`.
pub open spec fn numerator(y: int) -> int {
    fsub(fmul(y, y), 1)
}

/// A code splits into the second coordinate and the parity of the first.
pub proof fn lemma_code_splits(p: AffinePoint, n: int, y: int, sign: int)
    requires
        affine_wf(p),
        code(p) == n,
        n == y + sign
            * 0x8000_0000_0000_0000_0000_0000_0000_0000_0000_0000_0000_0000_0000_0000_0000_0000int,
        0 <= y < 0x8000_0000_0000_0000_0000_0000_0000_0000_0000_0000_0000_0000_0000_0000_0000_0000int,
        0 <= sign <= 1,
    ensures
        p.y == y,
        p.x % 2 == sign,
{
}

/// The curve equation, solved for the square of the first coordinate:
/// `x^2 (1 + d y^2) = y^2 - 1`.
pub proof fn lemma_curve_equation(x: int, y: int)
    requires
        is_residue(x),
        is_residue(y),
    ensures
        on_curve(AffinePoint { x, y }) <==> fmul(fmul(x, x), denominator(y)) == numerator(y),
{
    let m = q();
    let x2 = fmul(x, x);
    let y2 = fmul(y, y);
    let prod = d() * (x2 * y2);
    lemma_mod_bound(x * x, m);
    lemma_mod_bound(y * y, m);
    // the curve equation: (y2 - x2) % m == (1 + prod) % m
    lemma_mul_mod_noop_right(d(), x2 * y2, m);
    lemma_add_mod_noop(1, prod, m);
    lemma_small_mod(1, m as nat);
    assert(fadd(1, fmul(d(), fmul(x2, y2))) == (1 + prod) % m);
    // the solved form: (x2 + prod) % m == (y2 - 1) % m
    lemma_add_mod_noop(1, d() * y2, m);
    assert(denominator(y) == (1 + d() * y2) % m);
    lemma_mul_mod_noop_right(x2, 1 + d() * y2, m);
    assert(x2 * (1 + d() * y2) == x2 + prod) by (nonlinear_arith)
        requires
            prod == d() * (x2 * y2),
    ;
    assert(fmul(x2, denominator(y)) == (x2 + prod) % m);
    vstd::arithmetic::div_mod::lemma_mod_equivalence(y2 - x2, 1 + prod, m);
    vstd::arithmetic::div_mod::lemma_mod_equivalence(x2 + prod, y2 - 1, m);
    vstd::arithmetic::div_mod::lemma_mod_equivalence(y2 - x2 - 1 - prod, 0, m);
    vstd::arithmetic::div_mod::lemma_mod_equivalence(x2 + prod - y2 + 1, 0, m);
    crate::modular::lemma_neg_multiple(y2 - x2 - 1 - prod, m);
}

/// The denominator is not zero at a point of the curve.
pub proof fn lemma_denominator(x: int, y: int)
    requires
        is_residue(x),
        is_residue(y),
        on_curve(AffinePoint { x, y }),
    ensures
        denominator(y) != 0,
{
    let m = q();
    if denominator(y) == 0 {
        lemma_curve_equation(x, y);
        lemma_mod_bound(x * x, m);
        lemma_mod_bound(y * y, m);
        lemma_fmul_unit(fmul(x, x));
        let y2 = fmul(y, y);
        // y2 - 1 == 0 (mod m), so y2 == 1
        assert(y2 == 1) by {
            if y2 == 0 {
                assert((0 - 1) % m == m - 1) by {
                    lemma_mod_from_parts(-1, m, -1, m - 1);
                }
            } else {
                lemma_small_mod((y2 - 1) as nat, m as nat);
            }
        }
        lemma_fmul_unit(d());
        assert(fadd(1, d()) != 0);
    }
}

/// The points of the curve with the second coordinate `y` are those whose
/// first coordinate squares to the numerator over the denominator, where
/// the denominator is not zero.
pub proof fn lemma_curve_points(x: int, y: int)
    requires
        is_residue(x),
        is_residue(y),
    ensures
        on_curve(AffinePoint { x, y }) <==> denominator(y) != 0 && fmul(x, x) == fmul(
            numerator(y),
            finv(denominator(y)),
        ),
{
    let m = q();
    let v = denominator(y);
    let u = numerator(y);
    let x2 = fmul(x, x);
    lemma_mod_bound(x * x, m);
    lemma_mod_bound(1 + fmul(d(), fmul(y, y)), m);
    lemma_mod_bound(fmul(y, y) - 1, m);
    lemma_curve_equation(x, y);
    if on_curve(AffinePoint { x, y }) {
        lemma_denominator(x, y);
    }
    if v != 0 {
        lemma_finv(v);
        // (x2 v) / v == x2 and (u / v) v == u
        lemma_fmul_laws(x2, v, finv(v));
        lemma_fmul_laws(u, finv(v), v);
        lemma_fmul_laws(finv(v), v, 0);
        lemma_fmul_unit(x2);
        lemma_fmul_unit(u);
    }
}

/// Residues with the same square are equal or negatives of each other.
pub proof fn lemma_equal_squares(a: int, b: int)
    requires
        is_residue(a),
        is_residue(b),
        fmul(a, a) == fmul(b, b),
    ensures
        a == b || a == fneg(b),
{
    let m = q();
    crate::pratt_q::lemma_prime_q();
    let (hi, lo) = if a >= b {
        (a, b)
    } else {
        (b, a)
    };
    vstd::arithmetic::div_mod::lemma_mod_equivalence(hi * hi, lo * lo, m);
    assert((hi - lo) * (hi + lo) == hi * hi - lo * lo) by (nonlinear_arith);
    crate::roots::lemma_prime_divides_product(m, hi - lo, hi + lo);
    if (hi - lo) % m == 0 {
        lemma_small_mod((hi - lo) as nat, m as nat);
    } else {
        if hi + lo < m {
            lemma_small_mod((hi + lo) as nat, m as nat);
        } else {
            lemma_mod_from_parts(hi + lo, m, 1, hi + lo - m);
        }
        if b != 0 {
            lemma_mod_from_parts(-b, m, -1, m - b);
        } else {
            lemma_small_mod(0, m as nat);
        }
    }
}

/// A residue other than zero and its negative differ in parity.
pub proof fn lemma_negative_parity(a: int)
    requires
        0 < a < q(),
    ensures
        fneg(a) == q() - a,
        fneg(a) % 2 != a % 2,
{
    lemma_mod_from_parts(-a, q(), -1, q() - a);
}

/// An integer is the code of at most one point of the curve.
pub proof fn lemma_decoding_unique(n: int, p1: AffinePoint, p2: AffinePoint)
    requires
        decodes(n, p1),
        decodes(n, p2),
    ensures
        p1 == p2,
{
    let sign = p1.x % 2;
    lemma_code_splits(p2, n, p1.y, sign);
    lemma_curve_points(p1.x, p1.y);
    lemma_curve_points(p2.x, p2.y);
    lemma_equal_squares(p1.x, p2.x);
    if p1.x != p2.x {
        if p2.x == 0 {
            lemma_small_mod(0, q() as nat);
        } else {
            lemma_negative_parity(p2.x);
        }
    }
}

/// An extended point with `X`, `Y` and `Z` negated stands for the same
/// affine point.
pub proof fn lemma_negated_coordinates(p: ExtendedPoint, n: ExtendedPoint)
    requires
        is_residue(p.x),
        is_residue(p.y),
        is_residue(p.z),
        n.x == fneg(p.x),
        n.y == fneg(p.y),
        n.z == fneg(p.z),
    ensures
        to_affine(n) == to_affine(p),
{
    let m = q();
    lemma_fneg_laws(p.x, p.z);
    lemma_fneg_laws(p.y, p.z);
    lemma_fneg_laws(p.z, p.x);
    lemma_fneg_laws(p.z, p.y);
    if p.z == 0 {
        lemma_small_mod(0, m as nat);
    } else {
        lemma_negative_parity(p.z);
        lemma_fmul_laws(p.x, fneg(p.z), 0);
        lemma_fmul_laws(p.y, fneg(p.z), 0);
        lemma_same_fraction(n.x, n.z, p.x, p.z);
        lemma_same_fraction(n.y, n.z, p.y, p.z);
    }
}

/// The terms of doubling and of adding a point to itself: the sum and the
/// difference of the squares, and twice the product.
proof fn lemma_double_terms(x: int, y: int)
    requires
        is_residue(x),
        is_residue(y),
    ensures
        fsub(fneg(fmul(x, x)), fmul(y, y)) == fneg(fadd(fmul(x, x), fmul(y, y))),
        fadd(fneg(fmul(x, x)), fmul(y, y)) == fsub(fmul(y, y), fmul(x, x)),
        fsub(fmul(fadd(x, y), fadd(x, y)), fadd(fmul(x, x), fmul(y, y))) == fmul(2, fmul(x, y)),
{
    let m = q();
    let x2 = fmul(x, x);
    let y2 = fmul(y, y);
    lemma_fmul_laws(x, x, 0);
    lemma_fmul_laws(y, y, 0);
    lemma_fadd_laws(x2, y2);
    // -(x2) - y2 == -(x2 + y2)
    lemma_sub_mod_noop(-x2, y2, m);
    lemma_sub_mod_noop(0, x2 + y2, m);
    lemma_sub_mod_noop(0, fadd(x2, y2), m);
    lemma_small_mod(y2 as nat, m as nat);
    lemma_mod_bound(x2 + y2, m);
    lemma_small_mod(fadd(x2, y2) as nat, m as nat);
    // (x + y)^2 - (x2 + y2) == 2 x y
    lemma_mul_mod_noop_general(x + y, x + y, m);
    lemma_add_mod_noop(x * x, y * y, m);
    lemma_sub_mod_noop((x + y) * (x + y), x * x + y * y, m);
    assert((x + y) * (x + y) - (x * x + y * y) == 2 * (x * y)) by (nonlinear_arith);
    lemma_mul_mod_noop_right(2, x * y, m);
}

/// The shape of a doubled point of the curve: with the terms `E`, `F`, `G`
/// and `H` of the point added to itself, it is assembled from `E`, `-F`,
/// `G` and `-H`.
pub proof fn lemma_doubled_shape(p: ExtendedPoint)
    requires
        extended_wf(p),
        extended_on_curve(p),
    ensures
        ({
            let x2 = fmul(p.x, p.x);
            let y2 = fmul(p.y, p.y);
            let z2 = fmul(p.z, p.z);
            let dt = fmul(d(), fmul(p.t, p.t));
            let h = fadd(x2, y2);
            let e = fmul(2, fmul(p.x, p.y));
            let f = fsub(z2, dt);
            let g = fadd(z2, dt);
            extended_sum(p, p) == assemble(e, f, g, h) && doubled(p) == assemble(
                e,
                fneg(f),
                g,
                fneg(h),
            ) && is_residue(e) && is_residue(f) && is_residue(g) && is_residue(h)
        }),
{
    let m = q();
    let x2 = fmul(p.x, p.x);
    let y2 = fmul(p.y, p.y);
    let z2 = fmul(p.z, p.z);
    let dt = fmul(d(), fmul(p.t, p.t));
    lemma_fmul_laws(p.x, p.x, 0);
    lemma_fmul_laws(p.y, p.y, 0);
    lemma_fmul_laws(p.z, p.z, 0);
    lemma_fmul_laws(d(), p.t, p.t);
    lemma_fmul_laws(d(), fmul(p.t, p.t), 0);
    lemma_double_terms(p.x, p.y);
    let h = fadd(x2, y2);
    let e = fmul(2, fmul(p.x, p.y));
    let f = fsub(z2, dt);
    let g = fadd(z2, dt);
    let s = extended_sum(p, p);
    assert(s == assemble(e, f, g, h));
    let c = fmul(2, z2);
    let df = fsub(fsub(y2, x2), c);
    assert(fsub(y2, x2) == g);
    assert(df == fneg(f)) by {
        lemma_mul_mod_noop_right(2, z2, m);
        lemma_small_mod(z2 as nat, m as nat);
        lemma_sub_mod_noop(z2 + dt, 2 * z2, m);
        lemma_sub_mod_noop(0, z2 - dt, m);
    }
    let w = doubled(p);
    assert(w == assemble(e, fneg(f), g, fneg(h)));
    lemma_mod_bound(z2 - dt, m);
    lemma_mod_bound(z2 + dt, m);
    lemma_mod_bound(x2 + y2, m);
    lemma_fmul_laws(2, fmul(p.x, p.y), 0);
}

/// Doubling a point of the curve is adding it to itself: the doubled point
/// and the sum stand for the same affine point.
pub proof fn lemma_double_is_sum(p: ExtendedPoint)
    requires
        extended_wf(p),
        extended_on_curve(p),
    ensures
        to_affine(doubled(p)) == to_affine(extended_sum(p, p)),
{
    let x2 = fmul(p.x, p.x);
    let y2 = fmul(p.y, p.y);
    let z2 = fmul(p.z, p.z);
    let dt = fmul(d(), fmul(p.t, p.t));
    let h = fadd(x2, y2);
    let e = fmul(2, fmul(p.x, p.y));
    let f = fsub(z2, dt);
    let g = fadd(z2, dt);
    lemma_doubled_shape(p);
    let s = extended_sum(p, p);
    let w = doubled(p);
    lemma_fmul_laws(e, f, 0);
    lemma_fmul_laws(g, h, 0);
    lemma_fmul_laws(f, g, 0);
    lemma_fneg_laws(f, e);
    lemma_fneg_laws(h, g);
    lemma_fneg_laws(f, g);
    lemma_fmul_laws(e, fneg(f), 0);
    lemma_fmul_laws(g, fneg(h), 0);
    lemma_negated_coordinates(s, w);
}

/// Twice a point of the curve has an affine form where the point has one.
pub proof fn lemma_doubled_has_affine_form(p: ExtendedPoint)
    requires
        extended_wf(p),
        extended_on_curve(p),
        p.z != 0,
    ensures
        doubled(p).z != 0,
        to_affine(doubled(p)).is_some(),
{
    let m = q();
    let x2 = fmul(p.x, p.x);
    let y2 = fmul(p.y, p.y);
    let z2 = fmul(p.z, p.z);
    let dt = fmul(d(), fmul(p.t, p.t));
    lemma_fmul_laws(p.x, p.x, 0);
    lemma_fmul_laws(p.y, p.y, 0);
    lemma_fmul_laws(p.z, p.z, 0);
    lemma_fmul_laws(d(), fmul(p.t, p.t), 0);
    lemma_double_terms(p.x, p.y);
    lemma_denominators(p.z, p.t);
    let g = fadd(z2, dt);
    let f = fsub(z2, dt);
    let df = fsub(fsub(y2, x2), fmul(2, z2));
    assert(df == fneg(f)) by {
        lemma_mul_mod_noop_right(2, z2, m);
        lemma_small_mod(z2 as nat, m as nat);
        lemma_sub_mod_noop(z2 + dt, 2 * z2, m);
        lemma_sub_mod_noop(0, z2 - dt, m);
    }
    lemma_mod_bound(z2 - dt, m);
    lemma_mod_bound(z2 + dt, m);
    lemma_negative_parity(f);
    assert(doubled(p).z == fmul(fneg(f), g));
    if fmul(fneg(f), g) == 0 {
        lemma_no_zero_divisors(fneg(f), g);
    }
}

} // verus!
