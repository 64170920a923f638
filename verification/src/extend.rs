//! Points of the curve in extended coordinates.
use vstd::prelude::*;
use crate::affine::Affine;
use crate::base::Base;
use crate::coordinate::{add_mixed_point, add_projective_point, double_projective_point};
use crate::curve::{
    ExtendedPoint, extended_wf, extended_identity, doubled, extended_sum, mixed_sum,
    extended_negative, affine_negative, multiple, to_affine, fmul, extended_on_curve,
};
use crate::group::{extended_valid, lemma_negative_valid, lemma_to_affine_valid};
use crate::naf::naf_of;
use crate::scalar::Scalar;

verus! {

/// A point of the curve in extended coordinates `(X, Y, T, Z)`.
#[derive(Clone, Copy, Debug)]
pub struct Extended {
    pub x: Base,
    pub y: Base,
    pub t: Base,
    pub z: Base,
}

impl View for Extended {
    type V = ExtendedPoint;

    open spec fn view(&self) -> ExtendedPoint {
        ExtendedPoint { x: self.x@, y: self.y@, t: self.t@, z: self.z@ }
    }
}

impl core::ops::Add for Extended {
    type Output = Extended;

    fn add(self, rhs: Extended) -> (r: Extended) {
        let r = Extended::add(self, rhs);
        proof {
            r.lemma_wf();
        }
        r
    }
}

impl vstd::std_specs::ops::AddSpecImpl for Extended {
    open spec fn obeys_add_spec() -> bool {
        true
    }

    open spec fn add_req(self, rhs: Extended) -> bool {
        self.wf() && rhs.wf()
    }

    open spec fn add_spec(self, rhs: Extended) -> Extended {
        Extended::from_point(extended_sum(self@, rhs@))
    }
}

impl core::ops::Sub for Extended {
    type Output = Extended;

    fn sub(self, rhs: Extended) -> (r: Extended) {
        let r = Extended::sub(self, rhs);
        proof {
            r.lemma_wf();
        }
        r
    }
}

impl vstd::std_specs::ops::SubSpecImpl for Extended {
    open spec fn obeys_sub_spec() -> bool {
        true
    }

    open spec fn sub_req(self, rhs: Extended) -> bool {
        self.wf() && rhs.wf()
    }

    open spec fn sub_spec(self, rhs: Extended) -> Extended {
        Extended::from_point(extended_sum(self@, extended_negative(rhs@)))
    }
}

impl core::ops::Add<Affine> for Extended {
    type Output = Extended;

    fn add(self, rhs: Affine) -> (r: Extended) {
        let r = Extended::add_affine(self, rhs);
        proof {
            r.lemma_wf();
        }
        r
    }
}

impl vstd::std_specs::ops::AddSpecImpl<Affine> for Extended {
    open spec fn obeys_add_spec() -> bool {
        true
    }

    open spec fn add_req(self, rhs: Affine) -> bool {
        self.wf() && rhs.wf()
    }

    open spec fn add_spec(self, rhs: Affine) -> Extended {
        Extended::from_point(mixed_sum(rhs@, self@))
    }
}

impl core::ops::Sub<Affine> for Extended {
    type Output = Extended;

    fn sub(self, rhs: Affine) -> (r: Extended) {
        let r = Extended::sub_affine(self, rhs);
        proof {
            r.lemma_wf();
        }
        r
    }
}

impl vstd::std_specs::ops::SubSpecImpl<Affine> for Extended {
    open spec fn obeys_sub_spec() -> bool {
        true
    }

    open spec fn sub_req(self, rhs: Affine) -> bool {
        self.wf() && rhs.wf()
    }

    open spec fn sub_spec(self, rhs: Affine) -> Extended {
        Extended::from_point(mixed_sum(affine_negative(rhs@), self@))
    }
}

impl core::ops::Mul<Scalar> for Extended {
    type Output = Extended;

    fn mul(self, rhs: Scalar) -> (r: Extended) {
        let r = Extended::mul(self, rhs);
        proof {
            r.lemma_wf();
        }
        r
    }
}

impl vstd::std_specs::ops::MulSpecImpl<Scalar> for Extended {
    open spec fn obeys_mul_spec() -> bool {
        true
    }

    open spec fn mul_req(self, rhs: Scalar) -> bool {
        self.wf() && rhs.wf()
    }

    open spec fn mul_spec(self, rhs: Scalar) -> Extended {
        Extended::from_point(multiple(self@, naf_of(rhs@)))
    }
}

impl core::ops::Neg for Extended {
    type Output = Extended;

    fn neg(self) -> (r: Extended) {
        let r = Extended::neg(self);
        proof {
            r.lemma_wf();
        }
        r
    }
}

impl vstd::std_specs::ops::NegSpecImpl for Extended {
    open spec fn obeys_neg_spec() -> bool {
        true
    }

    open spec fn neg_req(self) -> bool {
        self.wf()
    }

    open spec fn neg_spec(self) -> Extended {
        Extended::from_point(extended_negative(self@))
    }
}

impl Extended {
    /// The coordinates are well formed, `X Y = T Z`, the point is on the
    /// curve, and `Z` is not zero.
    pub open spec fn wf(self) -> bool {
        self.x.wf() && self.y.wf() && self.t.wf() && self.z.wf() && fmul(self.x@, self.y@) == fmul(
            self.t@,
            self.z@,
        ) && extended_on_curve(self@) && self.z@ != 0
    }

    /// The point that stands for a quadruple of residues.
    pub open spec fn from_point(p: ExtendedPoint) -> Extended {
        Extended {
            x: Base::from_value(p.x),
            y: Base::from_value(p.y),
            t: Base::from_value(p.t),
            z: Base::from_value(p.z),
        }
    }

    /// A well-formed point stands for a well-formed quadruple of residues
    /// and is determined by it.
    pub proof fn lemma_wf(self)
        requires
            self.wf(),
        ensures
            extended_wf(self@),
            extended_valid(self@),
            self == Extended::from_point(self@),
    {
        self.x.lemma_wf();
        self.y.lemma_wf();
        self.t.lemma_wf();
        self.z.lemma_wf();
    }

    /// A point from its four coordinates.
    pub fn new(x: Base, y: Base, t: Base, z: Base) -> (r: Extended)
        requires
            x.wf(),
            y.wf(),
            t.wf(),
            z.wf(),
            fmul(x@, y@) == fmul(t@, z@),
            extended_on_curve(ExtendedPoint { x: x@, y: y@, t: t@, z: z@ }),
            z@ != 0,
        ensures
            r.wf(),
            r == (Extended { x, y, t, z }),
    {
        Extended { x, y, t, z }
    }

    /// The neutral element `(0, 1, 0, 1)`.
    pub fn identity() -> (r: Extended)
        ensures
            r.wf(),
            r@ == extended_identity(),
    {
        proof {
            crate::group::lemma_identity_valid();
        }
        Extended { x: Base::zero(), y: Base::one(), t: Base::zero(), z: Base::one() }
    }

    /// The affine point that the point stands for: `X` and `Y` times the
    /// inverse of `Z`.
    pub fn to_affine(self) -> (r: Affine)
        requires
            self.wf(),
        ensures
            r.wf(),
            Some(r@) == to_affine(self@),
    {
        proof {
            self.lemma_wf();
            lemma_to_affine_valid(self@);
        }
        let z_inv = self.z.invert().unwrap();
        Affine { x: self.x.mul(z_inv), y: self.y.mul(z_inv) }
    }

    /// Twice the point.
    pub fn double(self) -> (r: Extended)
        requires
            self.wf(),
        ensures
            r.wf(),
            r@ == doubled(self@),
    {
        double_projective_point(self)
    }

    /// The sum of two extended points.
    pub fn add(self, rhs: Extended) -> (r: Extended)
        requires
            self.wf(),
            rhs.wf(),
        ensures
            r.wf(),
            r@ == extended_sum(self@, rhs@),
    {
        add_projective_point(self, rhs)
    }

    /// The sum of the point and an affine point.
    pub fn add_affine(self, rhs: Affine) -> (r: Extended)
        requires
            self.wf(),
            rhs.wf(),
        ensures
            r.wf(),
            r@ == mixed_sum(rhs@, self@),
    {
        add_mixed_point(rhs, self)
    }

    /// The negative of the point.
    pub fn neg(self) -> (r: Extended)
        requires
            self.wf(),
        ensures
            r.wf(),
            r@ == extended_negative(self@),
    {
        proof {
            self.lemma_wf();
            lemma_negative_valid(self@);
        }
        Extended { x: self.x.neg(), y: self.y, t: self.t.neg(), z: self.z }
    }

    /// The difference of two extended points.
    pub fn sub(self, rhs: Extended) -> (r: Extended)
        requires
            self.wf(),
            rhs.wf(),
        ensures
            r.wf(),
            r@ == extended_sum(self@, extended_negative(rhs@)),
    {
        add_projective_point(self, rhs.neg())
    }

    /// The difference of the point and an affine point.
    pub fn sub_affine(self, rhs: Affine) -> (r: Extended)
        requires
            self.wf(),
            rhs.wf(),
        ensures
            r.wf(),
            r@ == mixed_sum(affine_negative(rhs@), self@),
    {
        add_mixed_point(rhs.neg(), self)
    }

    /// The multiple of the point by a scalar, over the non-adjacent form of
    /// the scalar from the top.
    pub fn mul(self, scalar: Scalar) -> (r: Extended)
        requires
            self.wf(),
            scalar.wf(),
        ensures
            r.wf(),
            r@ == multiple(self@, naf_of(scalar@)),
    {
        crate::coordinate::scalar_point(self, scalar)
    }
}

} // verus!
