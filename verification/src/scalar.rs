//! The scalar field of the curve: integers modulo the prime `r`, the order
//! of the base point, held in Montgomery form.
use vstd::prelude::*;
use rand_core::RngCore;
use vstd::arithmetic::div_mod::{lemma_mod_bound, lemma_small_mod};
use vstd::arithmetic::power::lemma_pow0;
use vstd::arithmetic::power2::{pow2, lemma2_to64, lemma_pow2, lemma_pow2_pos};
use crate::bits::{bit_at, lemma_prefix_step, lemma_no_high_bits};
use crate::naf::{Naf, is_naf_of, naf_of, to_nafs};
use crate::bytes::{le_value, le_bytes, le_value_wide, load_limbs, limbs_bytes};
use crate::limbs::{
    limbs4, limbs_of, lemma_limbs_of, lemma_limbs_unique, montgomery_ready, sub_limbs,
    little_fermat,
};
use crate::modular::{
    radix, mont_reduce, mont_form, add_mod, sub_mod, mul_mod, neg_mod, pow_mod,
    lemma_radix_is_pow2, lemma_form_of_reduce, lemma_reduce_of_form, lemma_mont_reduce_sum,
    lemma_mont_reduce_difference, lemma_mont_reduce_product, lemma_mont_reduce_one,
    lemma_lift_then_reduce, lemma_wide_reduce,
};

verus! {

/// The modulus `r`.
pub const MODULUS: [u64; 4] = [
    0xd0970e5ed6f72cb7,
    0xa6682093ccc81082,
    0x06673b0101343b00,
    0x0e7db4ea6533afa9,
];

/// The radix modulo `r`: the Montgomery form of one.
pub const R: [u64; 4] = [
    0x25f80bb3b99607d9,
    0xf315d62f66b6e750,
    0x932514eeeb8814f4,
    0x09a6fc6f479155c6,
];

/// The second power of the radix modulo `r`.
pub const R2: [u64; 4] = [
    0x67719aa495e57731,
    0x51b0cef09ce3fc26,
    0x69dab7fac026e9a5,
    0x04f6547b8d127688,
];

/// The third power of the radix modulo `r`.
pub const R3: [u64; 4] = [
    0xe0d6c6563d830544,
    0x323e3883598d0f85,
    0xf0fea3004c2e2ba8,
    0x05874f84946737ec,
];

/// The negated inverse of `r` modulo the word size.
pub const INV: u64 = 0x1ba3a358ef788ef9;

/// The next 64-bit word of a random number generator, by
/// `rand_core::RngCore::next_u64`. Nothing is claimed of the word.
#[verifier::external_body]
fn next_word<G: RngCore>(rand: &mut G) -> u64 {
    rand.next_u64()
}

/// The prime `r`.
pub open spec fn r_prime() -> int {
    0x0e7db4ea6533afa906673b0101343b00a6682093ccc81082d0970e5ed6f72cb7int
}

/// The constants are what their names say.
pub proof fn lemma_constants()
    ensures
        limbs4(MODULUS) == r_prime(),
        montgomery_ready(MODULUS, INV),
        r_prime() % 2 == 1,
        limbs4(R) == radix() % r_prime(),
        limbs4(R2) == (radix() * radix()) % r_prime(),
        limbs4(R3) == (radix() * radix() * radix()) % r_prime(),
{
    assert(limbs4(MODULUS) == r_prime());
    assert(limbs4(R) == 0x09a6fc6f479155c6932514eeeb8814f4f315d62f66b6e75025f80bb3b99607d9int);
    assert(limbs4(R2) == 0x04f6547b8d12768869dab7fac026e9a551b0cef09ce3fc2667719aa495e57731int);
    assert(limbs4(R3) == 0x05874f84946737ecf0fea3004c2e2ba8323e3883598d0f85e0d6c6563d830544int);
}

/// An element of the scalar field. The limbs hold the Montgomery form of the
/// element: its value times the radix, modulo `r`.
#[derive(Clone, Copy, Debug)]
pub struct Scalar(pub [u64; 4]);

impl View for Scalar {
    type V = int;

    /// The integer in `[0, r)` that the element stands for.
    open spec fn view(&self) -> int {
        mont_reduce(limbs4(self.0), r_prime())
    }
}

impl PartialEq for Scalar {
    fn eq(&self, other: &Self) -> (r: bool) {
        let r = self.0[0] == other.0[0] && self.0[1] == other.0[1] && self.0[2] == other.0[2]
            && self.0[3] == other.0[3];
        proof {
            if r {
                assert(self.0 =~= other.0);
            }
        }
        r
    }
}

impl vstd::std_specs::cmp::PartialEqSpecImpl for Scalar {
    open spec fn obeys_eq_spec() -> bool {
        true
    }

    open spec fn eq_spec(&self, other: &Self) -> bool {
        *self == *other
    }
}

impl Eq for Scalar {

}

impl core::ops::Add for Scalar {
    type Output = Scalar;

    fn add(self, rhs: Scalar) -> (r: Scalar) {
        Scalar::add(self, rhs)
    }
}

impl vstd::std_specs::ops::AddSpecImpl for Scalar {
    open spec fn obeys_add_spec() -> bool {
        true
    }

    open spec fn add_req(self, rhs: Scalar) -> bool {
        self.wf() && rhs.wf()
    }

    open spec fn add_spec(self, rhs: Scalar) -> Scalar {
        self.spec_add(rhs)
    }
}

impl core::ops::Sub for Scalar {
    type Output = Scalar;

    fn sub(self, rhs: Scalar) -> (r: Scalar) {
        Scalar::sub(self, rhs)
    }
}

impl vstd::std_specs::ops::SubSpecImpl for Scalar {
    open spec fn obeys_sub_spec() -> bool {
        true
    }

    open spec fn sub_req(self, rhs: Scalar) -> bool {
        self.wf() && rhs.wf()
    }

    open spec fn sub_spec(self, rhs: Scalar) -> Scalar {
        self.spec_sub(rhs)
    }
}

impl core::ops::Mul for Scalar {
    type Output = Scalar;

    fn mul(self, rhs: Scalar) -> (r: Scalar) {
        Scalar::mul(self, rhs)
    }
}

impl vstd::std_specs::ops::MulSpecImpl for Scalar {
    open spec fn obeys_mul_spec() -> bool {
        true
    }

    open spec fn mul_req(self, rhs: Scalar) -> bool {
        self.wf() && rhs.wf()
    }

    open spec fn mul_spec(self, rhs: Scalar) -> Scalar {
        self.spec_mul(rhs)
    }
}

impl core::ops::Neg for Scalar {
    type Output = Scalar;

    fn neg(self) -> (r: Scalar) {
        Scalar::neg(self)
    }
}

impl vstd::std_specs::ops::NegSpecImpl for Scalar {
    open spec fn obeys_neg_spec() -> bool {
        true
    }

    open spec fn neg_req(self) -> bool {
        self.wf()
    }

    open spec fn neg_spec(self) -> Scalar {
        self.spec_neg()
    }
}

impl Scalar {
    /// The limbs are reduced: they stand for a residue modulo `r`.
    pub open spec fn wf(self) -> bool {
        limbs4(self.0) < r_prime()
    }

    /// The element that stands for the integer `v`.
    pub open spec fn from_value(v: int) -> Scalar {
        Scalar(limbs_of(mont_form(v, r_prime())))
    }

    /// The element of a residue is well formed and stands for it.
    pub proof fn lemma_from_value(v: int)
        requires
            0 <= v < r_prime(),
        ensures
            Scalar::from_value(v).wf(),
            Scalar::from_value(v)@ == v,
    {
        lemma_mod_bound(v * radix(), r_prime());
        lemma_limbs_of(mont_form(v, r_prime()));
        lemma_reduce_of_form(v, r_prime());
        lemma_small_mod(v as nat, r_prime() as nat);
    }

    /// A well-formed element stands for a residue and is determined by it.
    pub proof fn lemma_wf(self)
        requires
            self.wf(),
        ensures
            0 <= self@ < r_prime(),
            self == Scalar::from_value(self@),
    {
        lemma_limbs_unique(self.0);
        lemma_form_of_reduce(limbs4(self.0), r_prime());
    }

    /// Well-formed elements that stand for the same integer are equal.
    pub proof fn lemma_equal_values(self, other: Scalar)
        requires
            self.wf(),
            other.wf(),
            self@ == other@,
        ensures
            self == other,
    {
        self.lemma_wf();
        other.lemma_wf();
    }

    /// What `to_mont` returns.
    pub open spec fn spec_to_mont(raw: [u64; 4]) -> Scalar {
        Scalar::from_value(limbs4(raw) % r_prime())
    }

    /// What `to_raw` returns.
    pub open spec fn spec_to_raw(self) -> [u64; 4] {
        limbs_of(self@)
    }

    /// What `add` returns.
    pub open spec fn spec_add(self, rhs: Scalar) -> Scalar {
        Scalar::from_value(add_mod(self@, rhs@, r_prime()))
    }

    /// What `sub` returns.
    pub open spec fn spec_sub(self, rhs: Scalar) -> Scalar {
        Scalar::from_value(sub_mod(self@, rhs@, r_prime()))
    }

    /// What `mul` returns.
    pub open spec fn spec_mul(self, rhs: Scalar) -> Scalar {
        Scalar::from_value(mul_mod(self@, rhs@, r_prime()))
    }

    /// What `neg` returns.
    pub open spec fn spec_neg(self) -> Scalar {
        Scalar::from_value(neg_mod(self@, r_prime()))
    }

    /// What `double` returns.
    pub open spec fn spec_double(self) -> Scalar {
        Scalar::from_value(mul_mod(2, self@, r_prime()))
    }

    /// What `square` returns.
    pub open spec fn spec_square(self) -> Scalar {
        Scalar::from_value(mul_mod(self@, self@, r_prime()))
    }

    /// What `pow_vartime` returns.
    pub open spec fn spec_pow(self, by: [u64; 4]) -> Scalar {
        Scalar::from_value(pow_mod(self@, limbs4(by) as nat, r_prime()))
    }

    /// What `invert` returns: nothing for zero, and otherwise the power
    /// `r - 2`.
    pub open spec fn spec_invert(self) -> Option<Scalar> {
        if self@ == 0 {
            None
        } else {
            Some(Scalar::from_value(pow_mod(self@, (r_prime() - 2) as nat, r_prime())))
        }
    }

    /// What `from_bytes` returns: the element that the bytes stand for, or
    /// nothing when they stand for `r` or more.
    pub open spec fn spec_from_bytes(bytes: Seq<u8>) -> Option<Scalar> {
        if le_value(bytes) < r_prime() {
            Some(Scalar::from_value(le_value(bytes)))
        } else {
            None
        }
    }

    /// What `from_bytes_wide` returns.
    pub open spec fn spec_from_bytes_wide(bytes: Seq<u8>) -> Scalar {
        Scalar::from_value(le_value_wide(bytes) % r_prime())
    }

    /// Going to raw limbs and back into the field gives the element back.
    pub proof fn lemma_raw_round_trip(self)
        requires
            self.wf(),
        ensures
            Scalar::spec_to_mont(self.spec_to_raw()) == self,
    {
        self.lemma_wf();
        lemma_limbs_of(self@);
        lemma_small_mod(self@ as nat, r_prime() as nat);
    }

    /// Decoding the bytes that an element encodes to gives the element back.
    pub proof fn lemma_bytes_round_trip(self, bytes: Seq<u8>)
        requires
            self.wf(),
            le_value(bytes) == self@,
        ensures
            Scalar::spec_from_bytes(bytes) == Some(self),
    {
        self.lemma_wf();
    }

    /// Bytes are rejected exactly when they stand for `r` or more.
    pub proof fn lemma_bytes_rejected(bytes: Seq<u8>)
        ensures
            Scalar::spec_from_bytes(bytes).is_none() <==> le_value(bytes) >= r_prime(),
    {
    }

    /// Adding an element to itself is doubling it:
    /// `a + a + b + b == a.double() + b.double()`.
    pub proof fn lemma_double_is_add(self, b: Scalar)
        requires
            self.wf(),
            b.wf(),
        ensures
            self.spec_add(self).spec_add(b).spec_add(b) == self.spec_double().spec_add(b.spec_double()),
    {
        let m = r_prime();
        let (x, y) = (self@, b@);
        self.lemma_wf();
        b.lemma_wf();
        let s1 = add_mod(x, x, m);
        let s2 = add_mod(s1, y, m);
        let dx = mul_mod(2, x, m);
        let dy = mul_mod(2, y, m);
        lemma_mod_bound(x + x, m);
        lemma_mod_bound(s1 + y, m);
        lemma_mod_bound(2 * y, m);
        Scalar::lemma_from_value(s1);
        Scalar::lemma_from_value(s2);
        Scalar::lemma_from_value(dx);
        Scalar::lemma_from_value(dy);
        vstd::arithmetic::div_mod::lemma_add_mod_noop(x + x, y, m);
        vstd::arithmetic::div_mod::lemma_add_mod_noop(x + x + y, y, m);
        vstd::arithmetic::div_mod::lemma_add_mod_noop(2 * x, 2 * y, m);
        lemma_small_mod(y as nat, m as nat);
        assert(add_mod(s2, y, m) == (x + x + y + y) % m);
        assert(add_mod(dx, dy, m) == (2 * x + 2 * y) % m);
    }

    /// Multiplying an element by itself is squaring it:
    /// `a * a + b * b == a.square() + b.square()`.
    pub proof fn lemma_square_is_mul(self, b: Scalar)
        requires
            self.wf(),
            b.wf(),
        ensures
            self.spec_mul(self).spec_add(b.spec_mul(b)) == self.spec_square().spec_add(b.spec_square()),
    {
    }

    /// The inverse is an inverse: `a * a.invert() == 1` for every element but
    /// zero.
    pub proof fn lemma_invert_is_inverse(self)
        requires
            self.wf(),
            self@ != 0,
        ensures
            self.spec_invert() matches Some(inverse) && self.spec_mul(inverse) == Scalar::from_value(1),
            mul_mod(self@, pow_mod(self@, (r_prime() - 2) as nat, r_prime()), r_prime()) == 1,
    {
        self.lemma_wf();
        crate::pratt_r::lemma_root_r();
        crate::primes::lemma_fermat_inverse(6, r_prime(), self@);
        let inverse = pow_mod(self@, (r_prime() - 2) as nat, r_prime());
        lemma_mod_bound(vstd::arithmetic::power::pow(self@, (r_prime() - 2) as nat), r_prime());
        Scalar::lemma_from_value(inverse);
    }

    /// Lifts raw limbs into the field: the element that stands for their
    /// value modulo `r`.
    pub fn to_mont(raw: [u64; 4]) -> (r: Scalar)
        ensures
            r.wf(),
            r@ == limbs4(raw) % r_prime(),
            r == Scalar::spec_to_mont(raw),
    {
        proof {
            lemma_constants();
            lemma_lift_then_reduce(limbs4(raw), r_prime());
        }
        let r = Scalar(crate::limbs::mul(raw, R2, MODULUS, INV));
        proof {
            r.lemma_wf();
        }
        r
    }

    /// The limbs of the integer that the element stands for.
    pub fn to_raw(self) -> (r: [u64; 4])
        requires
            self.wf(),
        ensures
            limbs4(r) == self@,
            r == self.spec_to_raw(),
    {
        proof {
            lemma_constants();
            assert(limbs4(MODULUS) * radix() > limbs4(self.0)) by (nonlinear_arith)
                requires
                    limbs4(MODULUS) > limbs4(self.0),
                    radix() >= 1,
                    limbs4(self.0) >= 0,
            ;
        }
        let r = crate::limbs::mont(
            [self.0[0], self.0[1], self.0[2], self.0[3], 0, 0, 0, 0],
            MODULUS,
            INV,
        );
        proof {
            lemma_limbs_unique(r);
        }
        r
    }

    /// The zero of the field.
    pub fn zero() -> (r: Scalar)
        ensures
            r.wf(),
            r@ == 0,
            r == Scalar::from_value(0),
    {
        let r = Scalar([0, 0, 0, 0]);
        proof {
            lemma_small_mod(0, r_prime() as nat);
            assert(limbs4(r.0) * crate::modular::radix_inv(r_prime()) == 0) by (nonlinear_arith)
                requires
                    limbs4(r.0) == 0,
            ;
            r.lemma_wf();
        }
        r
    }

    /// The one of the field.
    pub fn one() -> (r: Scalar)
        ensures
            r.wf(),
            r@ == 1,
            r == Scalar::from_value(1),
    {
        let r = Scalar(R);
        proof {
            lemma_constants();
            lemma_mod_bound(radix(), r_prime());
            lemma_mont_reduce_one(r_prime());
            r.lemma_wf();
        }
        r
    }

    /// The sum of two elements.
    pub fn add(self, rhs: Scalar) -> (r: Scalar)
        requires
            self.wf(),
            rhs.wf(),
        ensures
            r.wf(),
            r@ == add_mod(self@, rhs@, r_prime()),
            r == self.spec_add(rhs),
    {
        proof {
            lemma_constants();
            lemma_mont_reduce_sum(limbs4(self.0), limbs4(rhs.0), r_prime());
        }
        let r = Scalar(crate::limbs::add(self.0, rhs.0, MODULUS));
        proof {
            r.lemma_wf();
        }
        r
    }

    /// The difference of two elements.
    pub fn sub(self, rhs: Scalar) -> (r: Scalar)
        requires
            self.wf(),
            rhs.wf(),
        ensures
            r.wf(),
            r@ == sub_mod(self@, rhs@, r_prime()),
            r == self.spec_sub(rhs),
    {
        proof {
            lemma_constants();
            lemma_mont_reduce_difference(limbs4(self.0), limbs4(rhs.0), r_prime());
        }
        let r = Scalar(crate::limbs::sub(self.0, rhs.0, MODULUS));
        proof {
            r.lemma_wf();
        }
        r
    }

    /// The negative of an element.
    pub fn neg(self) -> (r: Scalar)
        requires
            self.wf(),
        ensures
            r.wf(),
            r@ == neg_mod(self@, r_prime()),
            r == self.spec_neg(),
    {
        proof {
            lemma_constants();
            lemma_mont_reduce_difference(0, limbs4(self.0), r_prime());
            lemma_small_mod(0, r_prime() as nat);
            assert(0 * crate::modular::radix_inv(r_prime()) == 0);
        }
        let r = Scalar(crate::limbs::neg(self.0, MODULUS));
        proof {
            r.lemma_wf();
        }
        r
    }

    /// The product of two elements.
    pub fn mul(self, rhs: Scalar) -> (r: Scalar)
        requires
            self.wf(),
            rhs.wf(),
        ensures
            r.wf(),
            r@ == mul_mod(self@, rhs@, r_prime()),
            r == self.spec_mul(rhs),
    {
        proof {
            lemma_constants();
            lemma_mont_reduce_product(limbs4(self.0), limbs4(rhs.0), r_prime());
        }
        let r = Scalar(crate::limbs::mul(self.0, rhs.0, MODULUS, INV));
        proof {
            r.lemma_wf();
        }
        r
    }

    /// Twice an element.
    pub fn double(self) -> (r: Scalar)
        requires
            self.wf(),
        ensures
            r.wf(),
            r@ == mul_mod(2, self@, r_prime()),
            r == self.spec_double(),
    {
        proof {
            lemma_constants();
            lemma_mont_reduce_sum(limbs4(self.0), limbs4(self.0), r_prime());
            self.lemma_wf();
        }
        let r = Scalar(crate::limbs::double(self.0, MODULUS));
        proof {
            r.lemma_wf();
        }
        r
    }

    /// The square of an element.
    pub fn square(self) -> (r: Scalar)
        requires
            self.wf(),
        ensures
            r.wf(),
            r@ == mul_mod(self@, self@, r_prime()),
            r == self.spec_square(),
    {
        proof {
            lemma_constants();
            lemma_mont_reduce_product(limbs4(self.0), limbs4(self.0), r_prime());
        }
        let r = Scalar(crate::limbs::square(self.0, MODULUS, INV));
        proof {
            r.lemma_wf();
        }
        r
    }

    /// The inverse of an element by Fermat's little theorem: its power
    /// `r - 2`. Zero has none.
    pub fn invert(self) -> (r: Option<Scalar>)
        requires
            self.wf(),
        ensures
            r.is_none() == (self@ == 0),
            r matches Some(x) ==> x.wf() && x@ == pow_mod(self@, (r_prime() - 2) as nat, r_prime()),
            r == self.spec_invert(),
    {
        proof {
            lemma_constants();
            self.lemma_wf();
            Scalar::lemma_from_value(0);
            lemma_limbs_of(0);
            if limbs4(self.0) == 0 {
                lemma_limbs_unique(self.0);
                assert(self.0 == limbs_of(0));
                assert(mont_form(0, r_prime()) == 0) by {
                    lemma_small_mod(0, r_prime() as nat);
                }
            }
            if self@ == 0 {
                assert(mont_form(0, r_prime()) == 0) by {
                    lemma_small_mod(0, r_prime() as nat);
                }
            }
        }
        match crate::limbs::invert(self.0, little_fermat(MODULUS), R, MODULUS, INV) {
            Some(x) => {
                let r = Scalar(x);
                proof {
                    r.lemma_wf();
                }
                Some(r)
            },
            None => None,
        }
    }

    /// The 32 bytes of the integer that the element stands for, least
    /// significant first.
    pub fn to_bytes(self) -> (r: [u8; 32])
        requires
            self.wf(),
        ensures
            le_value(r@) == self@,
            r@ == le_bytes(self@),
    {
        limbs_bytes(self.to_raw())
    }

    /// The element that 32 bytes stand for, least significant byte first, or
    /// nothing when they stand for `r` or more.
    pub fn from_bytes(bytes: [u8; 32]) -> (r: Option<Scalar>)
        ensures
            r.is_some() == (le_value(bytes@) < r_prime()),
            r matches Some(x) ==> x.wf() && x@ == le_value(bytes@),
            r == Scalar::spec_from_bytes(bytes@),
    {
        let raw = load_limbs(bytes.as_slice(), 0);
        let (_, borrow) = sub_limbs(raw, MODULUS);
        proof {
            lemma_constants();
        }
        if borrow != 0 {
            let x = Scalar::to_mont(raw);
            proof {
                lemma_small_mod(limbs4(raw) as nat, r_prime() as nat);
            }
            Some(x)
        } else {
            None
        }
    }

    /// The element that 64 bytes stand for, least significant byte first,
    /// reduced modulo `r`.
    pub fn from_bytes_wide(bytes: &[u8; 64]) -> (r: Scalar)
        ensures
            r.wf(),
            r@ == le_value_wide(bytes@) % r_prime(),
            r == Scalar::spec_from_bytes_wide(bytes@),
    {
        let lo = load_limbs(bytes.as_slice(), 0);
        let hi = load_limbs(bytes.as_slice(), 4);
        proof {
            lemma_constants();
            lemma_wide_reduce(limbs4(lo), limbs4(hi), r_prime());
        }
        let r = Scalar(
            crate::limbs::from_u512(
                [lo[0], lo[1], lo[2], lo[3], hi[0], hi[1], hi[2], hi[3]],
                R2,
                R3,
                MODULUS,
                INV,
            ),
        );
        proof {
            r.lemma_wf();
        }
        r
    }

    /// The power `by` of an element, by squaring and multiplying over the
    /// 256 binary digits of the exponent from the top.
    pub fn pow_vartime(&self, by: &[u64; 4]) -> (r: Scalar)
        requires
            self.wf(),
        ensures
            r.wf(),
            r@ == pow_mod(self@, limbs4(*by) as nat, r_prime()),
            r == self.spec_pow(*by),
    {
        let ghost e = limbs4(*by);
        let mut res = Scalar::one();
        let mut i: usize = 0;
        proof {
            lemma_radix_is_pow2();
            lemma_pow2(256);
            lemma_no_high_bits(e, 256, 256);
            lemma_pow0(self@);
            lemma_small_mod(1, r_prime() as nat);
        }
        while i < 256
            invariant
                i <= 256,
                self.wf(),
                res.wf(),
                e == limbs4(*by),
                res@ == pow_mod(self@, (e / (pow2((256 - i) as nat) as int)) as nat, r_prime()),
            decreases 256 - i,
        {
            let ghost n = e / (pow2((256 - i) as nat) as int);
            proof {
                lemma_pow2_pos((256 - i) as nat);
                vstd::arithmetic::div_mod::lemma_div_pos_is_pos(e, pow2((256 - i) as nat) as int);
                lemma_prefix_step(e, (255 - i) as nat);
                crate::modular::lemma_pow_mod_step(self@, n as nat, r_prime());
            }
            res = res.square();
            if bit_at(by, 255 - i) == 1 {
                res = res.mul(*self);
            }
            i += 1;
        }
        proof {
            lemma2_to64();
            let d = pow2((256 - i) as nat) as int;
            assert(e / d == e) by (nonlinear_arith)
                requires
                    d == 1,
            ;
            res.lemma_wf();
        }
        res
    }

    /// The element that eight 64-bit words stand for, least significant
    /// word first, reduced modulo `r`.
    pub fn from_words(words: [u64; 8]) -> (r: Scalar)
        ensures
            r.wf(),
            r@ == (limbs4([words[0], words[1], words[2], words[3]]) + limbs4(
                [words[4], words[5], words[6], words[7]],
            ) * radix()) % r_prime(),
    {
        proof {
            lemma_constants();
            lemma_wide_reduce(
                limbs4([words[0], words[1], words[2], words[3]]),
                limbs4([words[4], words[5], words[6], words[7]]),
                r_prime(),
            );
        }
        Scalar(crate::limbs::from_u512(words, R2, R3, MODULUS, INV))
    }

    /// A random element: 512 bits drawn from the generator, reduced modulo
    /// `r`.
    pub fn random<G: RngCore>(rand: G) -> (r: Scalar)
        ensures
            r.wf(),
    {
        let mut rand = rand;
        let w0 = next_word(&mut rand);
        let w1 = next_word(&mut rand);
        let w2 = next_word(&mut rand);
        let w3 = next_word(&mut rand);
        let w4 = next_word(&mut rand);
        let w5 = next_word(&mut rand);
        let w6 = next_word(&mut rand);
        let w7 = next_word(&mut rand);
        Scalar::from_words([w0, w1, w2, w3, w4, w5, w6, w7])
    }

    /// The non-adjacent form of the integer that the element stands for,
    /// most significant digit first.
    pub fn to_nafs(self) -> (nafs: Vec<Naf>)
        requires
            self.wf(),
        ensures
            is_naf_of(self@, nafs@),
            nafs@ == naf_of(self@),
    {
        to_nafs(self.to_raw())
    }

    /// Whether the integer that the element stands for is odd.
    pub fn is_odd(self) -> (r: bool)
        requires
            self.wf(),
        ensures
            r == (self@ % 2 == 1),
    {
        let raw = self.to_raw();
        (raw[0] % 2) != 0
    }
}

} // verus!
