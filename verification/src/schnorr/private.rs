//! The private key of a signer and signing.
use vstd::prelude::*;
use rand_core::RngCore;
use crate::affine::Affine;
use crate::bytes::le_bytes;
use crate::cipher::base_point;
use crate::curve::{affine_multiple, to_affine, encode};
use crate::modular::{mul_mod, sub_mod};
use crate::naf::naf_of;
use crate::scalar::{Scalar, r_prime};
use crate::schnorr::hash::{SchnorrHash, challenge};
use crate::schnorr::public::PublicKey;
use crate::schnorr::signature::Signature;

verus! {

/// A private key: a scalar.
#[derive(Clone, Copy, Debug)]
pub struct PrivateKey(pub Scalar);

impl core::ops::Mul<Scalar> for PrivateKey {
    type Output = Scalar;

    fn mul(self, rhs: Scalar) -> (r: Scalar) {
        PrivateKey::mul(self, rhs)
    }
}

impl vstd::std_specs::ops::MulSpecImpl<Scalar> for PrivateKey {
    open spec fn obeys_mul_spec() -> bool {
        true
    }

    open spec fn mul_req(self, rhs: Scalar) -> bool {
        self.wf() && rhs.wf()
    }

    open spec fn mul_spec(self, rhs: Scalar) -> Scalar {
        self.0.spec_mul(rhs)
    }
}

/// The bytes of the signature on `m` under the private key `sk` with the
/// nonce `k`: with `R` the multiple `k` of the base point and `e` the
/// challenge of `R` and `m`, the scalars `k - sk * e` and `e`.
pub open spec fn signature_of(sk: int, m: Seq<u8>, k: int) -> Option<(Seq<u8>, Seq<u8>)> {
    match to_affine(affine_multiple(base_point(), naf_of(k))) {
        None => None,
        Some(r) => {
            let e = challenge(encode(r) + m);
            let s = sub_mod(k, mul_mod(sk, e, r_prime()), r_prime());
            Some((le_bytes(s), le_bytes(e)))
        },
    }
}

impl PrivateKey {
    /// The scalar is well formed.
    pub open spec fn wf(self) -> bool {
        self.0.wf()
    }

    /// The private key with the given scalar.
    pub fn new(value: Scalar) -> (r: PrivateKey)
        ensures
            r.0 == value,
    {
        PrivateKey(value)
    }

    /// The public key: the multiple of the base point by the private
    /// scalar, in affine coordinates.
    pub fn to_public_key(self) -> (r: PublicKey)
        requires
            self.wf(),
        ensures
            r.wf(),
            Some(r.0@) == to_affine(affine_multiple(base_point(), naf_of(self.0@))),
    {
        let value = Affine::basepoint().mul(self.0);
        PublicKey(value.to_affine())
    }

    /// Signs a message with a nonce drawn from the generator. Whatever the
    /// nonce, the result is the signature under some well-formed nonce.
    pub fn sign<G: RngCore>(&self, m: &[u8], rand: G) -> (r: Signature)
        requires
            self.wf(),
        ensures
            exists|k: Scalar| k.wf() && Some(r@) == #[trigger] signature_of(self.0@, m@, k@),
    {
        let k = Scalar::random(rand);
        self.sign_with(m, k)
    }

    /// Signs a message with the given nonce.
    pub fn sign_with(&self, m: &[u8], k: Scalar) -> (r: Signature)
        requires
            self.wf(),
            k.wf(),
        ensures
            Some(r@) == signature_of(self.0@, m@, k@),
    {
        let r = Affine::basepoint().mul(k);
        let e = SchnorrHash::execute(r.to_affine().to_bytes().as_slice(), m);
        let s = k.sub(self.0.mul(e));
        Signature::new(s, e)
    }

    /// The product of the private scalar and another scalar.
    pub fn mul(self, rhs: Scalar) -> (r: Scalar)
        requires
            self.wf(),
            rhs.wf(),
        ensures
            r.wf(),
            r@ == mul_mod(self.0@, rhs@, r_prime()),
            r == self.0.spec_mul(rhs),
    {
        self.0.mul(rhs)
    }
}

} // verus!
