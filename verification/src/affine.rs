//! Points of the curve in affine coordinates.
use vstd::prelude::*;
use crate::base::{Base, q, lemma_constant};
use crate::bytes::{
    le_value, lemma_le_bytes, lemma_replace_last_byte, lemma_first_and_last_byte,
    lemma_value_below,
};
use crate::coordinate::{add_affine_point, add_mixed_point, double_affine_point, double_projective_point};
use crate::curve::{
    AffinePoint, affine_wf, extend, affine_sum, mixed_sum, doubled, affine_negative,
    affine_identity, affine_multiple, fmul, fneg, finv, encode, on_curve, decodes, denominator,
    numerator, lemma_code_splits, lemma_curve_points, lemma_equal_squares,
};
use crate::extend::Extended;
use crate::group::{affine_valid, lemma_affine_negative_valid, lemma_extend_valid};
use crate::modular::lemma_mod_from_parts;
use crate::naf::{Naf, naf_of};
use crate::scalar::Scalar;

verus! {

/// The curve constant `d`, in Montgomery form.
pub const D: [u64; 4] = [
    0x2a522455b974f6b0,
    0xfc6cc9ef0d9acab3,
    0x7a08fb94c27628d1,
    0x57f8f6a8fe0e262e,
];

/// The first coordinate of the generator, in Montgomery form.
pub const X: [u64; 4] = [
    0x50c87a58c166eca5,
    0x8046fd74c0051afc,
    0x406355ee695b0493,
    0x0d5a8d931bdc7e0a,
];

/// The second coordinate of the generator, in Montgomery form.
pub const Y: [u64; 4] = [
    0x00000017ffffffe8,
    0x26389fb800276018,
    0x3293bf3f18d3bf80,
    0x21b85034193c413b,
];

/// The generator, as a pair of integers.
pub open spec fn generator_point() -> AffinePoint {
    AffinePoint {
        x: 0x62edcbb8bf3787c88b0f03ddd60a8187caf55d1b29bf81afe4b3d35df1a7adfeint,
        y: 0xb,
    }
}

/// The generator is a point of the curve.
pub proof fn lemma_generator_on_curve()
    ensures
        on_curve(generator_point()),
{
    lemma_mod_from_parts(
        0x62edcbb8bf3787c88b0f03ddd60a8187caf55d1b29bf81afe4b3d35df1a7adfeint
            * 0x62edcbb8bf3787c88b0f03ddd60a8187caf55d1b29bf81afe4b3d35df1a7adfeint,
        q(),
        0x546c1569cc9869a7719807bfc168455ee6f5b22a6bd3dcbe31d47dd7c780c08bint,
        0x43d799a60d1e14027189623a0331a4f42c6a626ac159e82637a284abec248779int,
    );
    lemma_mod_from_parts(
        0xbint
            * 0xbint,
        q(),
        0x0int,
        0x79int,
    );
    lemma_mod_from_parts(
        0x43d799a60d1e14027189623a0331a4f42c6a626ac159e82637a284abec248779int
            * 0x79int,
        q(),
        0x46int,
        0x5debdebed2273369a81e5b38e035e5f4186daba363f192564bd0b5889d4407ebint,
    );
    lemma_mod_from_parts(
        0x2a9318e74bfa2b48f5fd9207e6bd7fd4292d7f6d37579d2601065fd6d6343eb1int
            * 0x5debdebed2273369a81e5b38e035e5f4186daba363f192564bd0b5889d4407ebint,
        q(),
        0x227e18223b7af5fbee79633848bdfa3bebf96187d8fc93754243ac952fd4ea7bint,
        0x30160dad1c7f6945c1b075ce06703311275341983ea473d8c85d7b5313db7900int,
    );
    lemma_mod_from_parts(
        0x79int
            - 0x43d799a60d1e14027189623a0331a4f42c6a626ac159e82637a284abec248779int,
        q(),
        (-0x1int),
        0x30160dad1c7f6945c1b075ce06703311275341983ea473d8c85d7b5313db7901int,
    );
    lemma_mod_from_parts(
        1
            + 0x30160dad1c7f6945c1b075ce06703311275341983ea473d8c85d7b5313db7900int,
        q(),
        0x0int,
        0x30160dad1c7f6945c1b075ce06703311275341983ea473d8c85d7b5313db7901int,
    );
}

/// The curve constant `d` as a field element.
pub fn curve_d() -> (r: Base)
    ensures
        r.wf(),
        r@ == crate::curve::d(),
{
    proof {
        lemma_constant(D, crate::curve::d());
    }
    Base(D)
}

/// A point of the curve in affine coordinates.
#[derive(Clone, Copy, Debug)]
pub struct Affine {
    pub x: Base,
    pub y: Base,
}

impl View for Affine {
    type V = AffinePoint;

    open spec fn view(&self) -> AffinePoint {
        AffinePoint { x: self.x@, y: self.y@ }
    }
}

impl PartialEq for Affine {
    fn eq(&self, other: &Self) -> (r: bool) {
        self.x == other.x && self.y == other.y
    }
}

impl vstd::std_specs::cmp::PartialEqSpecImpl for Affine {
    open spec fn obeys_eq_spec() -> bool {
        true
    }

    open spec fn eq_spec(&self, other: &Self) -> bool {
        *self == *other
    }
}

impl Eq for Affine {

}

impl core::ops::Add for Affine {
    type Output = Extended;

    fn add(self, rhs: Affine) -> (r: Extended) {
        let r = Affine::add(self, rhs);
        proof {
            r.lemma_wf();
        }
        r
    }
}

impl vstd::std_specs::ops::AddSpecImpl for Affine {
    open spec fn obeys_add_spec() -> bool {
        true
    }

    open spec fn add_req(self, rhs: Affine) -> bool {
        self.wf() && rhs.wf()
    }

    open spec fn add_spec(self, rhs: Affine) -> Extended {
        Extended::from_point(affine_sum(self@, rhs@))
    }
}

impl core::ops::Add<Extended> for Affine {
    type Output = Extended;

    fn add(self, rhs: Extended) -> (r: Extended) {
        let r = Affine::add_extended(self, rhs);
        proof {
            r.lemma_wf();
        }
        r
    }
}

impl vstd::std_specs::ops::AddSpecImpl<Extended> for Affine {
    open spec fn obeys_add_spec() -> bool {
        true
    }

    open spec fn add_req(self, rhs: Extended) -> bool {
        self.wf() && rhs.wf()
    }

    open spec fn add_spec(self, rhs: Extended) -> Extended {
        Extended::from_point(mixed_sum(self@, rhs@))
    }
}

impl core::ops::Mul<Scalar> for Affine {
    type Output = Extended;

    fn mul(self, rhs: Scalar) -> (r: Extended) {
        let r = Affine::mul(self, rhs);
        proof {
            r.lemma_wf();
        }
        r
    }
}

impl vstd::std_specs::ops::MulSpecImpl<Scalar> for Affine {
    open spec fn obeys_mul_spec() -> bool {
        true
    }

    open spec fn mul_req(self, rhs: Scalar) -> bool {
        self.wf() && rhs.wf()
    }

    open spec fn mul_spec(self, rhs: Scalar) -> Extended {
        Extended::from_point(affine_multiple(self@, naf_of(rhs@)))
    }
}

impl core::ops::Neg for Affine {
    type Output = Affine;

    fn neg(self) -> (r: Affine) {
        let r = Affine::neg(self);
        proof {
            r.lemma_wf();
        }
        r
    }
}

impl vstd::std_specs::ops::NegSpecImpl for Affine {
    open spec fn obeys_neg_spec() -> bool {
        true
    }

    open spec fn neg_req(self) -> bool {
        self.wf()
    }

    open spec fn neg_spec(self) -> Affine {
        Affine::from_point(affine_negative(self@))
    }
}

impl Affine {
    /// Both coordinates are well formed, and the point is on the curve.
    pub open spec fn wf(self) -> bool {
        self.x.wf() && self.y.wf() && on_curve(self@)
    }

    /// The point that stands for a pair of residues.
    pub open spec fn from_point(p: AffinePoint) -> Affine {
        Affine { x: Base::from_value(p.x), y: Base::from_value(p.y) }
    }

    /// A well-formed point stands for a pair of residues and is determined
    /// by it.
    pub proof fn lemma_wf(self)
        requires
            self.wf(),
        ensures
            affine_wf(self@),
            affine_valid(self@),
            self == Affine::from_point(self@),
    {
        self.x.lemma_wf();
        self.y.lemma_wf();
    }

    /// Well-formed points that stand for the same pair are equal.
    pub proof fn lemma_equal_values(self, other: Affine)
        requires
            self.wf(),
            other.wf(),
            self@ == other@,
        ensures
            self == other,
    {
        self.x.lemma_equal_values(other.x);
        self.y.lemma_equal_values(other.y);
    }

    /// The generator of the curve group.
    pub fn generator() -> (r: Affine)
        ensures
            r.wf(),
            r@ == generator_point(),
    {
        proof {
            lemma_constant(X, generator_point().x);
            lemma_constant(Y, generator_point().y);
            lemma_generator_on_curve();
        }
        Affine { x: Base(X), y: Base(Y) }
    }

    /// The neutral element `(0, 1)`.
    pub fn identity() -> (r: Affine)
        ensures
            r.wf(),
            r@ == affine_identity(),
    {
        proof {
            crate::group::lemma_identity_valid();
        }
        Affine { x: Base::zero(), y: Base::one() }
    }

    /// The point in extended coordinates.
    pub fn extend(self) -> (r: Extended)
        requires
            self.wf(),
        ensures
            r.wf(),
            r@ == extend(self@),
    {
        let r = Extended { x: self.x, y: self.y, t: self.x.mul(self.y), z: Base::one() };
        proof {
            self.lemma_wf();
            lemma_extend_valid(self@);
        }
        r
    }

    /// The 32 bytes that encode the point: the second coordinate, least
    /// significant byte first, with the parity of the first coordinate in
    /// the top bit of the last byte.
    pub fn to_bytes(self) -> (r: [u8; 32])
        requires
            self.wf(),
        ensures
            r@ == encode(self@),
    {
        let mut tmp = self.y.to_bytes();
        let x = self.x.to_bytes();
        let ghost old_tmp = tmp@;
        let last = tmp[31];
        let first = x[0];
        let marked = last | (first << 7);
        proof {
            self.lemma_wf();
            lemma_first_and_last_byte(old_tmp);
            lemma_first_and_last_byte(x@);
            assert(marked == last + 128 * (first % 2)) by (bit_vector)
                requires
                    last < 128,
                    marked == last | (first << 7),
            ;
        }
        tmp[31] = marked;
        proof {
            assert(tmp@ =~= old_tmp.update(31, marked));
            lemma_replace_last_byte(old_tmp, marked);
            lemma_le_bytes(
                tmp@,
                self.y@ + (self.x@ % 2)
                    * 0x8000_0000_0000_0000_0000_0000_0000_0000_0000_0000_0000_0000_0000_0000_0000_0000int,
            );
        }
        tmp
    }

    /// The point of the curve that 32 bytes encode, or nothing when they
    /// encode none: the second coordinate is read from the bytes without
    /// their top bit, and the first is the square root of
    /// `(y^2 - 1) / (1 + d y^2)` whose parity is the top bit.
    pub fn from_bytes(bytes: [u8; 32]) -> (r: Option<Affine>)
        ensures
            r.is_some() == exists|p: AffinePoint| #[trigger] decodes(le_value(bytes@), p),
            r matches Some(p) ==> p.wf() && decodes(le_value(bytes@), p@) && encode(p@) == bytes@,
    {
        let ghost n = le_value(bytes@);
        let last = bytes[31];
        let sign = last >> 7;
        let cleared = last & 0x7f;
        let mut masked = bytes;
        masked[31] = cleared;
        proof {
            assert(sign <= 1 && cleared < 128 && last == cleared + 128 * sign) by (bit_vector)
                requires
                    sign == last >> 7,
                    cleared == last & 0x7f,
            ;
            assert(masked@ =~= bytes@.update(31, cleared));
            lemma_replace_last_byte(bytes@, cleared);
            lemma_value_below(masked@);
            lemma_le_bytes(bytes@, n);
        }
        let ghost yv = le_value(masked@);
        proof {
            assert forall|p: AffinePoint| #[trigger] decodes(n, p) implies p.y == yv && p.x % 2
                == sign by {
                lemma_code_splits(p, n, yv, sign as int);
            }
        }
        let y = match Base::from_bytes(masked) {
            Some(y) => y,
            None => {
                return None;
            },
        };
        let y2 = y.square();
        let u = y2.sub(Base::one());
        let v = Base::one().add(curve_d().mul(y2));
        proof {
            y.lemma_residue();
            assert(v@ == denominator(yv));
            assert(u@ == numerator(yv));
            assert forall|p: AffinePoint| #[trigger] decodes(n, p) implies denominator(yv) != 0
                && fmul(p.x, p.x) == fmul(numerator(yv), finv(denominator(yv))) by {
                lemma_curve_points(p.x, p.y);
            }
        }
        let v_inv = match v.invert() {
            Some(i) => i,
            None => {
                return None;
            },
        };
        let x2 = u.mul(v_inv);
        let x = match x2.sqrt() {
            Some(x) => x,
            None => {
                proof {
                    assert forall|p: AffinePoint| !#[trigger] decodes(n, p) by {
                        if decodes(n, p) {
                            crate::roots::lemma_square_has_root(q(), p.x, x2@);
                        }
                    }
                }
                return None;
            },
        };
        let wanted = sign == 1;
        proof {
            x.lemma_residue();
            lemma_curve_points(x@, yv);
            assert forall|p: AffinePoint| #[trigger] decodes(n, p) implies p.x == x@ || p.x
                == fneg(x@) by {
                lemma_equal_squares(p.x, x@);
            }
        }
        if x.is_odd() == wanted {
            let p = Affine { x, y };
            proof {
                assert(decodes(n, p@));
            }
            Some(p)
        } else {
            let nx = x.neg();
            proof {
                nx.lemma_residue();
                crate::modular::lemma_neg_square(x@, q());
                lemma_curve_points(nx@, yv);
            }
            if nx.is_odd() == wanted {
                let p = Affine { x: nx, y };
                proof {
                    assert(decodes(n, p@));
                }
                Some(p)
            } else {
                None
            }
        }
    }

    /// Twice the point.
    pub fn double(self) -> (r: Extended)
        requires
            self.wf(),
        ensures
            r.wf(),
            r@ == doubled(extend(self@)),
    {
        double_affine_point(self)
    }

    /// The sum of two affine points.
    pub fn add(self, rhs: Affine) -> (r: Extended)
        requires
            self.wf(),
            rhs.wf(),
        ensures
            r.wf(),
            r@ == affine_sum(self@, rhs@),
    {
        add_affine_point(self, rhs)
    }

    /// The sum of the point and an extended point.
    pub fn add_extended(self, rhs: Extended) -> (r: Extended)
        requires
            self.wf(),
            rhs.wf(),
        ensures
            r.wf(),
            r@ == mixed_sum(self@, rhs@),
    {
        add_mixed_point(self, rhs)
    }

    /// The negative of the point.
    pub fn neg(self) -> (r: Affine)
        requires
            self.wf(),
        ensures
            r.wf(),
            r@ == affine_negative(self@),
    {
        proof {
            self.lemma_wf();
            lemma_affine_negative_valid(self@);
        }
        Affine { x: self.x.neg(), y: self.y }
    }

    /// The multiple of the point by a scalar, over the non-adjacent form of
    /// the scalar from the top: the accumulator is doubled for each digit,
    /// and the point added for a plus and subtracted for a minus.
    pub fn mul(self, scalar: Scalar) -> (r: Extended)
        requires
            self.wf(),
            scalar.wf(),
        ensures
            r.wf(),
            r@ == affine_multiple(self@, naf_of(scalar@)),
    {
        let nafs = scalar.to_nafs();
        let negated = self.neg();
        let mut res = Extended::identity();
        let mut i: usize = 0;
        while i < nafs.len()
            invariant
                i <= nafs@.len(),
                self.wf(),
                negated.wf(),
                negated@ == affine_negative(self@),
                res.wf(),
                res@ == affine_multiple(self@, nafs@.take(i as int)),
            decreases nafs@.len() - i,
        {
            proof {
                assert(nafs@.take(i + 1).drop_last() =~= nafs@.take(i as int));
            }
            res = double_projective_point(res);
            match nafs[i] {
                Naf::Plus => {
                    res = add_mixed_point(self, res);
                },
                Naf::Minus => {
                    res = add_mixed_point(negated, res);
                },
                Naf::Zero => {},
            }
            i += 1;
        }
        proof {
            assert(nafs@.take(i as int) =~= nafs@);
        }
        res
    }
}

} // verus!
