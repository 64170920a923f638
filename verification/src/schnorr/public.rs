//! The public key of a signer and verification.
use vstd::prelude::*;
use crate::affine::Affine;
use crate::bytes::le_value;
use crate::cipher::base_point;
use crate::multiples::times;
use crate::curve::{extend, AffinePoint, affine_multiple, affine_sum, extended_sum, to_affine, encode};
use crate::extend::Extended;
use crate::naf::naf_of;
use crate::scalar::{Scalar, r_prime};
use crate::schnorr::hash::{SchnorrHash, challenge};
use crate::schnorr::signature::Signature;

verus! {

/// A public key: an affine point, the multiple of the base point by the
/// private scalar.
#[derive(Clone, Copy, Debug)]
pub struct PublicKey(pub Affine);

impl core::ops::Mul<Scalar> for PublicKey {
    type Output = Extended;

    fn mul(self, rhs: Scalar) -> (r: Extended) {
        let r = PublicKey::mul(self, rhs);
        proof {
            r.lemma_wf();
        }
        r
    }
}

impl vstd::std_specs::ops::MulSpecImpl<Scalar> for PublicKey {
    open spec fn obeys_mul_spec() -> bool {
        true
    }

    open spec fn mul_req(self, rhs: Scalar) -> bool {
        self.wf() && rhs.wf()
    }

    open spec fn mul_spec(self, rhs: Scalar) -> Extended {
        Extended::from_point(affine_multiple(self.0@, naf_of(rhs@)))
    }
}

/// Whether the signature bytes `sig` are accepted for the message `m` under
/// the public key `pk`: both scalars are below `r`, and the challenge of
/// the point `R = B s + pk e` and `m` is `e`.
pub open spec fn accepts(pk: AffinePoint, m: Seq<u8>, sig: (Seq<u8>, Seq<u8>)) -> bool {
    let s = le_value(sig.0);
    let e = le_value(sig.1);
    s < r_prime() && e < r_prime() && match to_affine(
        extended_sum(affine_multiple(base_point(), naf_of(s)), affine_multiple(pk, naf_of(e))),
    ) {
        None => false,
        Some(r) => challenge(encode(r) + m) == e,
    }
}

impl PublicKey {
    /// The point is well formed.
    pub open spec fn wf(self) -> bool {
        self.0.wf()
    }

    /// The public key with the given point.
    pub fn new(value: Affine) -> (r: PublicKey)
        ensures
            r.0 == value,
    {
        PublicKey(value)
    }

    /// Whether the signature is accepted for the message. Signatures whose
    /// bytes do not decode are rejected.
    pub fn verify(self, m: &[u8], sig: Signature) -> (r: bool)
        requires
            self.wf(),
        ensures
            r == accepts(self.0@, m@, sig@),
    {
        let s = match sig.get_s() {
            Some(s) => s,
            None => {
                return false;
            },
        };
        let e = match sig.get_e() {
            Some(e) => e,
            None => {
                return false;
            },
        };
        let r_v = Affine::basepoint().mul(s).add(self.0.mul(e));
        let e_v = SchnorrHash::execute(r_v.to_affine().to_bytes().as_slice(), m);
        proof {
            if e_v@ == e@ {
                e_v.lemma_equal_values(e);
            }
        }
        e_v == e
    }

    /// The 32 bytes that encode the point.
    pub fn to_bytes(&self) -> (r: [u8; 32])
        requires
            self.wf(),
        ensures
            r@ == encode(self.0@),
    {
        self.0.to_bytes()
    }

    /// The sum of two public keys, in affine coordinates.
    pub fn add(self, rhs: PublicKey) -> (r: PublicKey)
        requires
            self.wf(),
            rhs.wf(),
        ensures
            r.wf(),
            Some(r.0@) == to_affine(affine_sum(self.0@, rhs.0@)),
    {
        PublicKey(self.0.add(rhs.0).to_affine())
    }

    /// The multiple of the point by a scalar.
    pub fn mul(self, rhs: Scalar) -> (r: Extended)
        requires
            self.wf(),
            rhs.wf(),
        ensures
            r.wf(),
            r@ == affine_multiple(self.0@, naf_of(rhs@)),
    {
        self.0.mul(rhs)
    }
}

/// The response `s = k - sk e` and `sk e` add up to the nonce `k`, modulo
/// the order of the scalars.
proof fn lemma_response(sk: int, k: int, e: int, n: int)
    requires
        n > 0,
        0 <= k < n,
    ensures
        (crate::modular::sub_mod(k, crate::modular::mul_mod(sk, e, n), n) + sk * e) % n == k,
{
    let se = crate::modular::mul_mod(sk, e, n);
    let s = crate::modular::sub_mod(k, se, n);
    crate::group::lemma_cong_mod(k - se, n);
    crate::group::lemma_cong_mod(sk * e, n);
    crate::group::lemma_cong_refl(k, n);
    crate::group::lemma_cong_add(k, k, se, sk * e, n);
    crate::group::lemma_cong_trans(s, k - se, k - sk * e, n);
    crate::group::lemma_cong_refl(sk * e, n);
    crate::group::lemma_cong_add(s, k - sk * e, sk * e, sk * e, n);
    crate::group::lemma_cong_residue(s + sk * e, k, n);
    vstd::arithmetic::div_mod::lemma_small_mod(k as nat, n as nat);
}

/// The point that the verifier computes is the point that the signer
/// committed to: with the public key `pk = B sk` and the response
/// `s = k - sk e`, the point `B s + pk e` is `B k`.
pub proof fn lemma_verifier_point(sk: int, k: int, e: int)
    requires
        0 <= sk < r_prime(),
        0 <= k < r_prime(),
        0 <= e < r_prime(),
    ensures
        ({
            let s = crate::modular::sub_mod(k, crate::modular::mul_mod(sk, e, r_prime()), r_prime());
            to_affine(affine_multiple(base_point(), naf_of(sk))) matches Some(pk) && to_affine(
                extended_sum(
                    affine_multiple(base_point(), naf_of(s)),
                    affine_multiple(pk, naf_of(e)),
                ),
            ) == to_affine(affine_multiple(base_point(), naf_of(k))) && to_affine(
                affine_multiple(base_point(), naf_of(k)),
            ).is_some()
        }),
{
    let n = r_prime();
    let b = base_point();
    let e0 = extend(b);
    let s = crate::modular::sub_mod(k, crate::modular::mul_mod(sk, e, n), n);
    vstd::arithmetic::div_mod::lemma_mod_bound(k - crate::modular::mul_mod(sk, e, n), n);
    crate::cipher::lemma_base_point_on_curve();
    crate::group::lemma_extend_valid(b);
    crate::order_chain::lemma_base_point_order();
    crate::multiples::lemma_scalar_multiple(b, k);
    crate::group::lemma_to_affine_valid(affine_multiple(b, naf_of(k)));
    crate::multiples::lemma_scalar_multiple(b, s);
    crate::multiples::lemma_scalar_multiple_twice(b, sk, e);
    let pk = to_affine(affine_multiple(b, naf_of(sk))).unwrap();
    let s1 = affine_multiple(b, naf_of(s));
    let s2 = affine_multiple(pk, naf_of(e));
    let se = sk * e;
    assert(se >= 0) by (nonlinear_arith)
        requires
            se == sk * e,
            sk >= 0,
            e >= 0,
    ;
    crate::multiples::lemma_times_valid(e0, s as nat);
    crate::multiples::lemma_times_valid(e0, se as nat);
    crate::abelian::lemma_sum_respects(s1, s2, times(e0, s as nat), times(e0, se as nat));
    crate::multiples::lemma_times_adds(e0, s as nat, se as nat);
    crate::multiples::lemma_times_mod(e0, (s + se) as nat, n as nat);
    lemma_response(sk, k, e, n);
    assert(((s + se) as nat) % (n as nat) == k as nat);
    assert(crate::multiples::same_point(extended_sum(s1, s2), times(e0, (s + se) as nat)));
    assert(crate::multiples::same_point(extended_sum(s1, s2), times(e0, k as nat)));
}

/// Every signature verifies: the signature on a message under a private
/// key, whatever the nonce, is accepted under the public key of the
/// private key.
pub proof fn lemma_signature_verifies(sk: int, m: Seq<u8>, k: int)
    requires
        0 <= sk < r_prime(),
        0 <= k < r_prime(),
    ensures
        to_affine(affine_multiple(base_point(), naf_of(sk))) matches Some(pk)
            && crate::schnorr::private::signature_of(sk, m, k) matches Some(sig) && accepts(
            pk,
            m,
            sig,
        ),
{
    let n = r_prime();
    let b = base_point();
    crate::cipher::lemma_base_point_on_curve();
    crate::multiples::lemma_scalar_multiple(b, k);
    let big_r = affine_multiple(b, naf_of(k));
    crate::group::lemma_to_affine_valid(big_r);
    let ra = to_affine(big_r).unwrap();
    let e = challenge(encode(ra) + m);
    vstd::arithmetic::div_mod::lemma_mod_bound(
        crate::bytes::le_value_wide(
            crate::schnorr::hash::blake2b_digest(
                crate::schnorr::hash::DIGEST_LENGTH as nat,
                crate::schnorr::hash::SCHNORR_PERSONAL@,
                encode(ra) + m,
            ),
        ),
        n,
    );
    let se = crate::modular::mul_mod(sk, e, n);
    let s = crate::modular::sub_mod(k, se, n);
    vstd::arithmetic::div_mod::lemma_mod_bound(k - se, n);
    crate::bytes::lemma_le_bytes_value(s);
    crate::bytes::lemma_le_bytes_value(e);
    lemma_verifier_point(sk, k, e);
    let sig = (crate::bytes::le_bytes(s), crate::bytes::le_bytes(e));
    assert(crate::schnorr::private::signature_of(sk, m, k) == Some(sig));
    let pk = to_affine(affine_multiple(b, naf_of(sk))).unwrap();
    assert(le_value(sig.0) == s && le_value(sig.1) == e);
    assert(accepts(pk, m, sig));
}

} // verus!
