//! The base point: the generator of the prime-order subgroup that keys and
//! signatures are built on.
use vstd::prelude::*;
use crate::affine::Affine;
use crate::base::{Base, q, lemma_constant};
use crate::curve::{AffinePoint, extend, on_curve};
use crate::group::lemma_extend_valid;
use crate::modular::lemma_mod_from_parts;
use crate::extend::Extended;

verus! {

/// The first coordinate of the base point, in Montgomery form.
pub const BASE_X: [u64; 4] = [
    0x9fea675eb63e8cf6,
    0x15ba8508eb7f13c5,
    0x87a02da79c8b7ef8,
    0x0af4897169c1851e,
];

/// The second coordinate of the base point, in Montgomery form.
pub const BASE_Y: [u64; 4] = [
    0xfb63146264e65a56,
    0x77f3f8c6fd45d5e5,
    0x8770a243986a6eb9,
    0x6dde055ca112d037,
];

/// The product of the coordinates of the base point, in Montgomery form.
pub const BASE_T: [u64; 4] = [
    0x1c78341b5c609fc6,
    0xbb8cd2689521ecae,
    0xb1768e136106271a,
    0x16f2498b4757e919,
];

/// The base point, as a pair of integers.
pub open spec fn base_point() -> AffinePoint {
    AffinePoint {
        x: 0x0926d4f32059c712d418a7ff26753b6ad5b9a7d3ef8e282747bf46920a95a753int,
        y: 0x57a1019e6de9b67553bb37d0c21cfd056d65674dcedbddbc305632adaaf2b530int,
    }
}

/// The base point is a point of the curve.
pub proof fn lemma_base_point_on_curve()
    ensures
        on_curve(base_point()),
{
    lemma_mod_from_parts(
        0x926d4f32059c712d418a7ff26753b6ad5b9a7d3ef8e282747bf46920a95a753int
            * 0x926d4f32059c712d418a7ff26753b6ad5b9a7d3ef8e282747bf46920a95a753int,
        q(),
        0xb8f304c2f08e81832b658296f6454bec8cbbaf734165f33a1868bc6245d422int,
        0x4eacaa28266826778fe2bb4800e108ec9dfef4f6b45a896ecaabb2a04db590c7int,
    );
    lemma_mod_from_parts(
        0x57a1019e6de9b67553bb37d0c21cfd056d65674dcedbddbc305632adaaf2b530int
            * 0x57a1019e6de9b67553bb37d0c21cfd056d65674dcedbddbc305632adaaf2b530int,
        q(),
        0x423cdbc634998cbc16ba3c396ed80bcc636a95668993032f119525156943fcc5int,
        0x6dcc6c89b706c9d3754b1709659c597fad92f73f143a7cc660e5b94e65b8ec3bint,
    );
    lemma_mod_from_parts(
        0x4eacaa28266826778fe2bb4800e108ec9dfef4f6b45a896ecaabb2a04db590c7int
            * 0x6dcc6c89b706c9d3754b1709659c597fad92f73f143a7cc660e5b94e65b8ec3bint,
        q(),
        0x4a83b6008506bda51c2e755e2941d7f5186795bc82676563e8c01d299b956098int,
        0x306d2c392b52e538f0d9068ed40b1aa86162c38aba22ed3d57e89e4440c27145int,
    );
    lemma_mod_from_parts(
        0x2a9318e74bfa2b48f5fd9207e6bd7fd4292d7f6d37579d2601065fd6d6343eb1int
            * 0x306d2c392b52e538f0d9068ed40b1aa86162c38aba22ed3d57e89e4440c27145int,
        q(),
        0x11c8da58a3856ee77745edaf777197a04d8f8f7b0a56d1d06900965075dfab42int,
        0x1f1fc261909ea35be5685bc164bb50930f9402485fdff357963a06ae18035b73int,
    );
    lemma_mod_from_parts(
        0x6dcc6c89b706c9d3754b1709659c597fad92f73f143a7cc660e5b94e65b8ec3bint
            - 0x4eacaa28266826778fe2bb4800e108ec9dfef4f6b45a896ecaabb2a04db590c7int,
        q(),
        0x0int,
        0x1f1fc261909ea35be5685bc164bb50930f9402485fdff357963a06ae18035b74int,
    );
    lemma_mod_from_parts(
        1
            + 0x1f1fc261909ea35be5685bc164bb50930f9402485fdff357963a06ae18035b73int,
        q(),
        0x0int,
        0x1f1fc261909ea35be5685bc164bb50930f9402485fdff357963a06ae18035b74int,
    );
}

/// Scalar multiplication of the base point is additive:
/// `B * (k + m) == B * k + B * m`, where the sum of the scalars is taken in
/// the scalar field.
pub proof fn lemma_base_point_multiples_add(k: int, m: int)
    requires
        0 <= k < crate::scalar::r_prime(),
        0 <= m < crate::scalar::r_prime(),
    ensures
        crate::multiples::same_point(
            crate::curve::affine_multiple(
                base_point(),
                crate::naf::naf_of(crate::modular::add_mod(k, m, crate::scalar::r_prime())),
            ),
            crate::curve::extended_sum(
                crate::curve::affine_multiple(base_point(), crate::naf::naf_of(k)),
                crate::curve::affine_multiple(base_point(), crate::naf::naf_of(m)),
            ),
        ),
{
    lemma_base_point_on_curve();
    crate::order_chain::lemma_base_point_order();
    crate::multiples::lemma_scalar_homomorphism(base_point(), k, m, crate::scalar::r_prime());
}

impl Affine {
    /// The base point.
    pub fn basepoint() -> (r: Affine)
        ensures
            r.wf(),
            r@ == base_point(),
    {
        proof {
            lemma_constant(BASE_X, base_point().x);
            lemma_constant(BASE_Y, base_point().y);
            lemma_base_point_on_curve();
        }
        Affine { x: Base(BASE_X), y: Base(BASE_Y) }
    }
}

impl Extended {
    /// The base point in extended coordinates.
    pub fn basepoint() -> (r: Extended)
        ensures
            r.wf(),
            r@ == extend(base_point()),
    {
        proof {
            lemma_constant(BASE_X, base_point().x);
            lemma_constant(BASE_Y, base_point().y);
            lemma_constant(
                BASE_T,
                0x05539d52ecc710577225482d17a112351d9ce6cfa60e6dc7d2280d93b46f4ab9int,
            );
            lemma_base_point_on_curve();
            lemma_extend_valid(base_point());
        }
        Extended { x: Base(BASE_X), y: Base(BASE_Y), t: Base(BASE_T), z: Base::one() }
    }
}

} // verus!
