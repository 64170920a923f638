//! Arithmetic in the two prime fields of the Jubjub curve, the group of
//! points of the curve, and two signature schemes on top of them: Schnorr
//! signatures and their aggregation between two signers.
//!
//! The layers, from the bottom:
//!
//! - `math`, `limbs`, `bits`, `bytes`, `naf`: arithmetic on 256-bit values
//!   held as four limbs, Montgomery reduction, binary and signed digits, and
//!   little-endian byte strings;
//! - `modular`, `primes`, `roots`, `pratt`, `pratt_q`, `pratt_r`, `euler_d`:
//!   the integers modulo a prime as a field, with certificates that both
//!   field characteristics are prime and that the curve constant is not a
//!   square;
//! - `base`, `scalar`: the base field and the scalar field;
//! - `curve`, `affine`, `extend`, `coordinate`, `cipher`: the curve, its
//!   addition law and its points in affine and extended coordinates;
//! - `group`, `monomial`, `associative`, `abelian`, `multiples`, `order`,
//!   `order_chain`: the points of the curve as a commutative group, scalar
//!   multiplication as repeated addition, and the order of the base point;
//! - `schnorr`, `musig`: keys, signatures, signing and verification.
//!
//! Every function states what it computes over the integers that its
//! arguments stand for. What the hash and the random number generator hand
//! back is taken as given; everything else is proved.
pub mod math;
pub mod modular;
pub mod primes;
pub mod roots;
pub mod pratt;
pub mod pratt_q;
pub mod pratt_r;
pub mod limbs;
pub mod bits;
pub mod naf;
pub mod bytes;
pub mod base;
pub mod scalar;
pub mod euler_d;
pub mod curve;
pub mod group;
pub mod monomial;
pub mod associative;
pub mod abelian;
pub mod multiples;
pub mod order;
pub mod order_chain;
pub mod affine;
pub mod extend;
pub mod coordinate;
pub mod cipher;
pub mod schnorr;
pub mod musig;
