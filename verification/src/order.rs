//! Doubling and adding points with known coordinates, one step at a time:
//! the steps that the order of the base point is computed with.
use vstd::prelude::*;
use crate::base::q;
use crate::curve::{
    ExtendedPoint, assemble, d, doubled, extended_negative, extended_sum, fadd, fmul, fneg,
};
use crate::group::extended_valid;
use crate::modular::lemma_mod_from_parts;
use crate::multiples::{lemma_times_doubled, lemma_times_next, lemma_times_previous, same_point, times};

verus! {

/// The residue `r` of `x` with the quotient `k`.
pub open spec fn residue_of(x: int, k: int, r: int) -> bool {
    x == k * q() + r && 0 <= r < q()
}

/// A residue with its quotient is the residue.
pub proof fn lemma_residue_of(x: int, k: int, r: int)
    requires
        residue_of(x, k, r),
    ensures
        x % q() == r,
{
    lemma_mod_from_parts(x, q(), k, r);
}

/// The quotients and residues of the steps of doubling a point: each
/// residue with the quotient that witnesses it.
pub struct DoubleWitness {
    pub xx: (int, int),
    pub a: (int, int),
    pub b: (int, int),
    pub zz: (int, int),
    pub c: (int, int),
    pub dif: (int, int),
    pub xy: (int, int),
    pub e: (int, int),
    pub g: (int, int),
    pub f: (int, int),
    pub x3: (int, int),
    pub y3: (int, int),
    pub t3: (int, int),
    pub z3: (int, int),
}

/// The witnesses fit the steps of doubling the point `p`.
pub open spec fn double_witnessed(p: ExtendedPoint, w: DoubleWitness) -> bool {
    &&& residue_of(p.x * p.x, w.xx.0, w.xx.1)
    &&& residue_of(-w.xx.1, w.a.0, w.a.1)
    &&& residue_of(p.y * p.y, w.b.0, w.b.1)
    &&& residue_of(p.z * p.z, w.zz.0, w.zz.1)
    &&& residue_of(2 * w.zz.1, w.c.0, w.c.1)
    &&& residue_of(w.a.1 - w.b.1, w.dif.0, w.dif.1)
    &&& residue_of(p.x * p.y, w.xy.0, w.xy.1)
    &&& residue_of(2 * w.xy.1, w.e.0, w.e.1)
    &&& residue_of(w.a.1 + w.b.1, w.g.0, w.g.1)
    &&& residue_of(w.g.1 - w.c.1, w.f.0, w.f.1)
    &&& residue_of(w.e.1 * w.f.1, w.x3.0, w.x3.1)
    &&& residue_of(w.g.1 * w.dif.1, w.y3.0, w.y3.1)
    &&& residue_of(w.e.1 * w.dif.1, w.t3.0, w.t3.1)
    &&& residue_of(w.f.1 * w.g.1, w.z3.0, w.z3.1)
}

/// Twice a point, from the witnesses of the steps.
pub proof fn lemma_double_values(p: ExtendedPoint, w: DoubleWitness)
    requires
        double_witnessed(p, w),
    ensures
        doubled(p) == (ExtendedPoint { x: w.x3.1, y: w.y3.1, t: w.t3.1, z: w.z3.1 }),
{
    lemma_residue_of(p.x * p.x, w.xx.0, w.xx.1);
    lemma_residue_of(-w.xx.1, w.a.0, w.a.1);
    lemma_residue_of(p.y * p.y, w.b.0, w.b.1);
    lemma_residue_of(p.z * p.z, w.zz.0, w.zz.1);
    lemma_residue_of(2 * w.zz.1, w.c.0, w.c.1);
    lemma_residue_of(w.a.1 - w.b.1, w.dif.0, w.dif.1);
    lemma_residue_of(p.x * p.y, w.xy.0, w.xy.1);
    lemma_residue_of(2 * w.xy.1, w.e.0, w.e.1);
    lemma_residue_of(w.a.1 + w.b.1, w.g.0, w.g.1);
    lemma_residue_of(w.g.1 - w.c.1, w.f.0, w.f.1);
    lemma_residue_of(w.e.1 * w.f.1, w.x3.0, w.x3.1);
    lemma_residue_of(w.g.1 * w.dif.1, w.y3.0, w.y3.1);
    lemma_residue_of(w.e.1 * w.dif.1, w.t3.0, w.t3.1);
    lemma_residue_of(w.f.1 * w.g.1, w.z3.0, w.z3.1);
    assert(fneg(fmul(p.x, p.x)) == w.a.1);
    assert(fmul(2, fmul(p.z, p.z)) == w.c.1);
    assert(fmul(2, fmul(p.x, p.y)) == w.e.1);
    assert(doubled(p) == assemble(w.e.1, w.f.1, w.g.1, w.dif.1));
}

/// The quotients and residues of the steps of adding two points.
pub struct SumWitness {
    pub a: (int, int),
    pub b: (int, int),
    pub dt: (int, int),
    pub c: (int, int),
    pub zz: (int, int),
    pub h: (int, int),
    pub s0: (int, int),
    pub s1: (int, int),
    pub ss: (int, int),
    pub e: (int, int),
    pub f: (int, int),
    pub g: (int, int),
    pub x3: (int, int),
    pub y3: (int, int),
    pub t3: (int, int),
    pub z3: (int, int),
}

/// The witnesses fit the steps of adding the points `p0` and `p1`.
pub open spec fn sum_witnessed(p0: ExtendedPoint, p1: ExtendedPoint, w: SumWitness) -> bool {
    &&& residue_of(p0.x * p1.x, w.a.0, w.a.1)
    &&& residue_of(p0.y * p1.y, w.b.0, w.b.1)
    &&& residue_of(d() * p0.t, w.dt.0, w.dt.1)
    &&& residue_of(w.dt.1 * p1.t, w.c.0, w.c.1)
    &&& residue_of(p0.z * p1.z, w.zz.0, w.zz.1)
    &&& residue_of(w.a.1 + w.b.1, w.h.0, w.h.1)
    &&& residue_of(p0.x + p0.y, w.s0.0, w.s0.1)
    &&& residue_of(p1.x + p1.y, w.s1.0, w.s1.1)
    &&& residue_of(w.s0.1 * w.s1.1, w.ss.0, w.ss.1)
    &&& residue_of(w.ss.1 - w.h.1, w.e.0, w.e.1)
    &&& residue_of(w.zz.1 - w.c.1, w.f.0, w.f.1)
    &&& residue_of(w.zz.1 + w.c.1, w.g.0, w.g.1)
    &&& residue_of(w.e.1 * w.f.1, w.x3.0, w.x3.1)
    &&& residue_of(w.g.1 * w.h.1, w.y3.0, w.y3.1)
    &&& residue_of(w.e.1 * w.h.1, w.t3.0, w.t3.1)
    &&& residue_of(w.f.1 * w.g.1, w.z3.0, w.z3.1)
}

/// The sum of two points, from the witnesses of the steps.
pub proof fn lemma_sum_values(p0: ExtendedPoint, p1: ExtendedPoint, w: SumWitness)
    requires
        sum_witnessed(p0, p1, w),
    ensures
        extended_sum(p0, p1) == (ExtendedPoint { x: w.x3.1, y: w.y3.1, t: w.t3.1, z: w.z3.1 }),
{
    lemma_residue_of(p0.x * p1.x, w.a.0, w.a.1);
    lemma_residue_of(p0.y * p1.y, w.b.0, w.b.1);
    lemma_residue_of(d() * p0.t, w.dt.0, w.dt.1);
    lemma_residue_of(w.dt.1 * p1.t, w.c.0, w.c.1);
    lemma_residue_of(p0.z * p1.z, w.zz.0, w.zz.1);
    lemma_residue_of(w.a.1 + w.b.1, w.h.0, w.h.1);
    lemma_residue_of(p0.x + p0.y, w.s0.0, w.s0.1);
    lemma_residue_of(p1.x + p1.y, w.s1.0, w.s1.1);
    lemma_residue_of(w.s0.1 * w.s1.1, w.ss.0, w.ss.1);
    lemma_residue_of(w.ss.1 - w.h.1, w.e.0, w.e.1);
    lemma_residue_of(w.zz.1 - w.c.1, w.f.0, w.f.1);
    lemma_residue_of(w.zz.1 + w.c.1, w.g.0, w.g.1);
    lemma_residue_of(w.e.1 * w.f.1, w.x3.0, w.x3.1);
    lemma_residue_of(w.g.1 * w.h.1, w.y3.0, w.y3.1);
    lemma_residue_of(w.e.1 * w.h.1, w.t3.0, w.t3.1);
    lemma_residue_of(w.f.1 * w.g.1, w.z3.0, w.z3.1);
    assert(fmul(fmul(d(), p0.t), p1.t) == w.c.1);
    assert(fmul(fadd(p0.x, p0.y), fadd(p1.x, p1.y)) == w.ss.1);
    assert(extended_sum(p0, p1) == assemble(w.e.1, w.f.1, w.g.1, w.h.1));
}

/// A doubling step of a chain of multiples: from the multiple by `n` to
/// the multiple by `2 n`.
pub proof fn lemma_chain_double(base: ExtendedPoint, p: ExtendedPoint, n: nat, w: DoubleWitness)
    requires
        extended_valid(base),
        extended_valid(p),
        same_point(p, times(base, n)),
        double_witnessed(p, w),
    ensures
        ({
            let r = ExtendedPoint { x: w.x3.1, y: w.y3.1, t: w.t3.1, z: w.z3.1 };
            extended_valid(r) && same_point(r, times(base, 2 * n))
        }),
{
    lemma_double_values(p, w);
    lemma_times_doubled(base, p, n);
}

/// An adding step of a chain of multiples: from the multiple by `n` to the
/// multiple by `n + 1`.
pub proof fn lemma_chain_add(base: ExtendedPoint, p: ExtendedPoint, n: nat, w: SumWitness)
    requires
        extended_valid(base),
        extended_valid(p),
        same_point(p, times(base, n)),
        sum_witnessed(p, base, w),
    ensures
        ({
            let r = ExtendedPoint { x: w.x3.1, y: w.y3.1, t: w.t3.1, z: w.z3.1 };
            extended_valid(r) && same_point(r, times(base, n + 1))
        }),
{
    lemma_sum_values(p, base, w);
    lemma_times_next(base, p, n);
}

/// A subtracting step of a chain of multiples: from the multiple by `n` to
/// the multiple by `n - 1`.
pub proof fn lemma_chain_subtract(
    base: ExtendedPoint,
    negative: ExtendedPoint,
    p: ExtendedPoint,
    n: nat,
    w: SumWitness,
)
    requires
        extended_valid(base),
        extended_valid(p),
        negative == extended_negative(base),
        n >= 1,
        same_point(p, times(base, n)),
        sum_witnessed(p, negative, w),
    ensures
        ({
            let r = ExtendedPoint { x: w.x3.1, y: w.y3.1, t: w.t3.1, z: w.z3.1 };
            extended_valid(r) && same_point(r, times(base, (n - 1) as nat))
        }),
{
    lemma_sum_values(p, negative, w);
    lemma_times_previous(base, p, n);
}

} // verus!
