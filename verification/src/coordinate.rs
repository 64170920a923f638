//! The addition and doubling formulas of the curve, and scalar
//! multiplication.
use vstd::prelude::*;
use crate::affine::{Affine, curve_d};
use crate::base::Base;
use crate::curve::{
    affine_sum, doubled, mixed_sum, extended_sum, extended_negative, multiple, extend, assemble,
};
use crate::group::{
    extended_valid, lemma_affine_sum_valid, lemma_doubled_valid, lemma_mixed_sum_valid,
    lemma_sum_valid,
};
use crate::extend::Extended;
use crate::naf::{Naf, naf_of};
use crate::scalar::Scalar;

verus! {

/// The point `(E F, G H, E H, F G)`.
fn assemble_point(e: Base, f: Base, g: Base, h: Base) -> (r: Extended)
    requires
        e.wf(),
        f.wf(),
        g.wf(),
        h.wf(),
        extended_valid(assemble(e@, f@, g@, h@)),
    ensures
        r.wf(),
        r@ == assemble(e@, f@, g@, h@),
{
    Extended::new(e.mul(f), g.mul(h), e.mul(h), f.mul(g))
}

/// The sum of two affine points, in extended coordinates.
pub fn add_affine_point(lhs: Affine, rhs: Affine) -> (r: Extended)
    requires
        lhs.wf(),
        rhs.wf(),
    ensures
        r.wf(),
        r@ == affine_sum(lhs@, rhs@),
{
    let (x0, y0) = (lhs.x, lhs.y);
    let (x1, y1) = (rhs.x, rhs.y);

    let a = x0.mul(x1);
    let b = y0.mul(y1);
    let c = curve_d().mul(a).mul(b);
    let h = a.add(b);
    let e = x0.add(y0).mul(x1.add(y1)).sub(h);
    let f = Base::one().sub(c);
    let g = Base::one().add(c);

    proof {
        lhs.lemma_wf();
        rhs.lemma_wf();
        lemma_affine_sum_valid(lhs@, rhs@);
    }
    assemble_point(e, f, g, h)
}

/// Twice an affine point, in extended coordinates.
pub fn double_affine_point(point: Affine) -> (r: Extended)
    requires
        point.wf(),
    ensures
        r.wf(),
        r@ == doubled(extend(point@)),
{
    double_projective_point(point.extend())
}

/// Twice an extended point.
pub fn double_projective_point(extended: Extended) -> (r: Extended)
    requires
        extended.wf(),
    ensures
        r.wf(),
        r@ == doubled(extended@),
{
    let (x, y, z) = (extended.x, extended.y, extended.z);

    let a = x.square().neg();
    let b = y.square();
    let c = z.square().double();
    let d = a.sub(b);
    let e = x.mul(y).double();
    let g = a.add(b);
    let f = g.sub(c);

    proof {
        extended.lemma_wf();
        lemma_doubled_valid(extended@);
    }
    assemble_point(e, f, g, d)
}

/// The sum of an affine and an extended point.
pub fn add_mixed_point(lhs: Affine, rhs: Extended) -> (r: Extended)
    requires
        lhs.wf(),
        rhs.wf(),
    ensures
        r.wf(),
        r@ == mixed_sum(lhs@, rhs@),
{
    let (x0, y0) = (lhs.x, lhs.y);
    let (x1, y1, z1, t1) = (rhs.x, rhs.y, rhs.z, rhs.t);

    let a = x0.mul(x1);
    let b = y0.mul(y1);
    let c = curve_d().mul(x0).mul(y0).mul(t1);
    let h = a.add(b);
    let e = x0.add(y0).mul(x1.add(y1)).sub(h);
    let f = z1.sub(c);
    let g = z1.add(c);

    proof {
        lhs.lemma_wf();
        rhs.lemma_wf();
        lemma_mixed_sum_valid(lhs@, rhs@);
    }
    assemble_point(e, f, g, h)
}

/// The sum of two extended points.
pub fn add_projective_point(lhs: Extended, rhs: Extended) -> (r: Extended)
    requires
        lhs.wf(),
        rhs.wf(),
    ensures
        r.wf(),
        r@ == extended_sum(lhs@, rhs@),
{
    let (x0, y0, z0, t0) = (lhs.x, lhs.y, lhs.z, lhs.t);
    let (x1, y1, z1, t1) = (rhs.x, rhs.y, rhs.z, rhs.t);

    let a = x0.mul(x1);
    let b = y0.mul(y1);
    let c = curve_d().mul(t0).mul(t1);
    let d = z0.mul(z1);
    let h = a.add(b);
    let e = x0.add(y0).mul(x1.add(y1)).sub(h);
    let f = d.sub(c);
    let g = d.add(c);

    proof {
        lhs.lemma_wf();
        rhs.lemma_wf();
        lemma_sum_valid(lhs@, rhs@);
    }
    assemble_point(e, f, g, h)
}

/// The multiple of an extended point by a scalar, over the non-adjacent
/// form of the scalar from the top: the accumulator is doubled for each
/// digit, and the point added for a plus and subtracted for a minus.
pub fn scalar_point(point: Extended, scalar: Scalar) -> (r: Extended)
    requires
        point.wf(),
        scalar.wf(),
    ensures
        r.wf(),
        r@ == multiple(point@, naf_of(scalar@)),
{
    let nafs = scalar.to_nafs();
    let negated = point.neg();
    let mut res = Extended::identity();
    let mut i: usize = 0;
    while i < nafs.len()
        invariant
            i <= nafs@.len(),
            point.wf(),
            negated.wf(),
            negated@ == extended_negative(point@),
            res.wf(),
            res@ == multiple(point@, nafs@.take(i as int)),
        decreases nafs@.len() - i,
    {
        proof {
            assert(nafs@.take(i + 1).drop_last() =~= nafs@.take(i as int));
        }
        res = double_projective_point(res);
        match nafs[i] {
            Naf::Plus => {
                res = add_projective_point(res, point);
            },
            Naf::Minus => {
                res = add_projective_point(res, negated);
            },
            Naf::Zero => {},
        }
        i += 1;
    }
    proof {
        assert(nafs@.take(i as int) =~= nafs@);
    }
    res
}

} // verus!
