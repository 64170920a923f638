//! The public parameters of a two-party signing session, the share of each
//! signer, and the joint signature.
use vstd::prelude::*;
use crate::affine::Affine;
use crate::cipher::base_point;
use crate::curve::{
    AffinePoint, affine_multiple, affine_sum, extended_sum, mixed_sum, to_affine, encode, decodes,
    lemma_decoding_unique,
};
use crate::abelian::{lemma_extend_of_affine_form, lemma_sum_respects};
use crate::curve::extend;
use crate::group::{
    affine_valid, cong, extended_valid, lemma_affine_sum_valid, lemma_cong_add, lemma_cong_mod,
    lemma_cong_mul, lemma_cong_refl, lemma_cong_residue, lemma_cong_trans, lemma_extend_valid,
    lemma_mixed_sum_valid, lemma_sum_valid,
};
use crate::modular::{add_mod, mul_mod};
use crate::multiples::{
    lemma_scalar_multiple, lemma_scalar_multiple_twice, lemma_times_adds, lemma_times_mod,
    lemma_times_respects, lemma_times_times, lemma_times_valid, same_point, times,
};
use crate::musig::signature::Signature;
use crate::naf::naf_of;
use crate::bytes::{le_value, le_bytes};
use crate::scalar::{Scalar, r_prime};
use crate::schnorr::hash::{SchnorrHash, challenge};
use crate::schnorr::private::PrivateKey;
use crate::schnorr::public::PublicKey;

verus! {

/// What both signers of a session agree on: the aggregated randomness `R`,
/// the aggregated public key `X` and the challenge `c`.
pub struct PublicParams {
    pub randomness: Affine,
    pub public_key: PublicKey,
    pub challenge: Scalar,
}

/// The coefficient of the signer with the key `own` in a session of the
/// keys `a` and `b`: the challenge of the two keys and the signer's own.
pub open spec fn coefficient(a: AffinePoint, b: AffinePoint, own: AffinePoint) -> int {
    challenge(encode(a) + encode(b) + encode(own))
}

/// The aggregated public key of the keys `a` and `b`: each key times its
/// coefficient, summed.
pub open spec fn aggregated_key(a: AffinePoint, b: AffinePoint) -> Option<AffinePoint> {
    to_affine(
        extended_sum(
            affine_multiple(a, naf_of(coefficient(a, b, a))),
            affine_multiple(b, naf_of(coefficient(a, b, b))),
        ),
    )
}

/// Whether the joint signature with the point `r` and the scalar `s` holds
/// under the aggregated key `x` and the challenge `c`: `r + x c` and `B s`
/// have the same affine form.
pub open spec fn joint_holds(r: AffinePoint, s: int, x: AffinePoint, c: int) -> bool {
    let lhs = to_affine(mixed_sum(r, affine_multiple(x, naf_of(c))));
    lhs.is_some() && lhs == to_affine(affine_multiple(base_point(), naf_of(s)))
}

impl PublicParams {
    /// The point, the key and the challenge are well formed.
    pub open spec fn wf(self) -> bool {
        self.randomness.wf() && self.public_key.wf() && self.challenge.wf()
    }

    /// The parameters of a session on the message `m` between the signers
    /// with the public keys `a` and `b` and the published randomness `a_r`
    /// and `b_r`.
    pub fn new(m: &[u8], a: PublicKey, b: PublicKey, a_r: Affine, b_r: Affine) -> (r: PublicParams)
        requires
            a.wf(),
            b.wf(),
            a_r.wf(),
            b_r.wf(),
        ensures
            r.wf(),
            Some(r.randomness@) == to_affine(affine_sum(a_r@, b_r@)),
            Some(r.public_key.0@) == aggregated_key(a.0@, b.0@),
            r.challenge@ == challenge(encode(r.randomness@) + encode(r.public_key.0@) + m@),
    {
        let randomness = a_r.add(b_r).to_affine();
        let a_bytes = a.to_bytes();
        let b_bytes = b.to_bytes();
        let a_1 = SchnorrHash::aggregate(a_bytes.as_slice(), b_bytes.as_slice(), a_bytes.as_slice());
        let a_2 = SchnorrHash::aggregate(a_bytes.as_slice(), b_bytes.as_slice(), b_bytes.as_slice());
        let aggregated_point = a.mul(a_1).add(b.mul(a_2));
        let public_key = PublicKey::new(aggregated_point.to_affine());
        let challenge = SchnorrHash::aggregate(
            randomness.to_bytes().as_slice(),
            public_key.to_bytes().as_slice(),
            m,
        );
        PublicParams { randomness, public_key, challenge }
    }

    /// The share of one signer: `r + sk * c * a` for the signer's nonce `r`,
    /// private key `sk` and coefficient `a`.
    pub fn cosign(&self, a: Scalar, r: Scalar, private_key: PrivateKey) -> (s: Scalar)
        requires
            self.wf(),
            a.wf(),
            r.wf(),
            private_key.wf(),
        ensures
            s.wf(),
            s@ == add_mod(
                r@,
                mul_mod(mul_mod(private_key.0@, self.challenge@, r_prime()), a@, r_prime()),
                r_prime(),
            ),
    {
        r.add(private_key.mul(self.challenge).mul(a))
    }

    /// The joint signature: the aggregated randomness and the sum of the
    /// two shares.
    pub fn generate_signature(&self, s_1: Scalar, s_2: Scalar) -> (sig: Signature)
        requires
            self.wf(),
            s_1.wf(),
            s_2.wf(),
        ensures
            sig@ == (encode(self.randomness@), le_bytes(add_mod(s_1@, s_2@, r_prime()))),
    {
        let s = s_1.add(s_2);
        Signature::new(self.randomness, s)
    }

    /// Whether the joint signature `(R, s)` is accepted: its bytes decode to
    /// a point of the curve and a scalar, and `R + X c` and `B s` are the
    /// same point. The message is bound by the challenge and is not read
    /// again.
    pub fn verify(&self, m: &[u8], sig: Signature) -> (ok: bool)
        requires
            self.wf(),
        ensures
            ok == (le_value(sig.s@) < r_prime() && exists|r: AffinePoint|
                decodes(le_value(sig.r@), r) && #[trigger] joint_holds(
                    r,
                    le_value(sig.s@),
                    self.public_key.0@,
                    self.challenge@,
                )),
    {
        let r = match sig.get_r() {
            Some(r) => r,
            None => {
                return false;
            },
        };
        let s = match sig.get_s() {
            Some(s) => s,
            None => {
                return false;
            },
        };
        proof {
            assert forall|other: AffinePoint| decodes(le_value(sig.r@), other) implies other == r@ by {
                lemma_decoding_unique(le_value(sig.r@), other, r@);
            }
        }
        let rc = r.add_extended(self.public_key.mul(self.challenge));
        let gs = Affine::basepoint().mul(s);
        let lhs = rc.to_affine();
        let rhs = gs.to_affine();
        let ok = lhs == rhs;
        proof {
            if ok {
                assert(joint_holds(r@, le_value(sig.s@), self.public_key.0@, self.challenge@));
            } else if lhs@ == rhs@ {
                lhs.lemma_equal_values(rhs);
            }
        }
        ok
    }
}

/// The affine point `B k`: the public key of the private key `k`, or the
/// randomness that a signer publishes for the nonce `k`.
pub open spec fn point_of(k: int) -> Option<AffinePoint> {
    to_affine(affine_multiple(base_point(), naf_of(k)))
}

/// The share of a signer with the nonce `r`, the private key `sk` and the
/// coefficient `a` under the challenge `c`.
pub open spec fn share(r: int, sk: int, c: int, a: int) -> int {
    add_mod(r, mul_mod(mul_mod(sk, c, r_prime()), a, r_prime()), r_prime())
}

/// The affine point `B k` is a point of the curve, and in extended
/// coordinates it is the multiple of the base point by `k`.
proof fn lemma_point_of(k: int) -> (p: AffinePoint)
    requires
        0 <= k < r_prime(),
    ensures
        point_of(k) == Some(p),
        affine_valid(p),
        extended_valid(extend(p)),
        same_point(extend(p), times(extend(base_point()), k as nat)),
{
    crate::cipher::lemma_base_point_on_curve();
    lemma_scalar_multiple(base_point(), k);
    lemma_extend_of_affine_form(affine_multiple(base_point(), naf_of(k)))
}

/// The sum of the shares is the sum of the nonces and the challenge times
/// the sum of the keys times their coefficients, modulo the order of the
/// scalars.
proof fn lemma_shares_add_up(ra: int, rb: int, ska: int, skb: int, c: int, aa: int, ab: int)
    ensures
        cong(
            add_mod(share(ra, ska, c, aa), share(rb, skb, c, ab), r_prime()),
            (ra + rb) + (ska * aa + skb * ab) * c,
            r_prime(),
        ),
{
    let n = r_prime();
    let (sa, sb) = (share(ra, ska, c, aa), share(rb, skb, c, ab));
    lemma_cong_mod(sa + sb, n);
    lemma_share(ra, ska, c, aa);
    lemma_share(rb, skb, c, ab);
    lemma_cong_add(sa, ra + (ska * aa) * c, sb, rb + (skb * ab) * c, n);
    assert((ra + (ska * aa) * c) + (rb + (skb * ab) * c) == (ra + rb) + (ska * aa + skb * ab) * c)
        by (nonlinear_arith);
    lemma_cong_trans(add_mod(sa, sb, n), sa + sb, (ra + rb) + (ska * aa + skb * ab) * c, n);
}

/// A share is the nonce and the key times the coefficient times the
/// challenge, modulo the order of the scalars.
proof fn lemma_share(r: int, sk: int, c: int, a: int)
    ensures
        cong(share(r, sk, c, a), r + (sk * a) * c, r_prime()),
{
    let n = r_prime();
    let t = mul_mod(sk, c, n);
    let u = mul_mod(t, a, n);
    lemma_cong_mod(sk * c, n);
    lemma_cong_refl(a, n);
    lemma_cong_mul(t, sk * c, a, a, n);
    lemma_cong_mod(t * a, n);
    lemma_cong_trans(u, t * a, (sk * c) * a, n);
    assert((sk * c) * a == (sk * a) * c) by (nonlinear_arith);
    lemma_cong_refl(r, n);
    lemma_cong_add(r, r, u, (sk * a) * c, n);
    lemma_cong_mod(r + u, n);
    lemma_cong_trans(share(r, sk, c, a), r + u, r + (sk * a) * c, n);
}

/// Every joint signature verifies: with the public keys and the published
/// randomness of two signers, the sum of their shares and the aggregated
/// randomness are accepted under the aggregated key and the challenge.
pub proof fn lemma_joint_signature_verifies(
    ska: int,
    skb: int,
    ra: int,
    rb: int,
    m: Seq<u8>,
)
    requires
        0 <= ska < r_prime(),
        0 <= skb < r_prime(),
        0 <= ra < r_prime(),
        0 <= rb < r_prime(),
    ensures
        ({
            let xa = point_of(ska).unwrap();
            let xb = point_of(skb).unwrap();
            let big_r = to_affine(affine_sum(point_of(ra).unwrap(), point_of(rb).unwrap())).unwrap();
            let x = aggregated_key(xa, xb).unwrap();
            let c = challenge(encode(big_r) + encode(x) + m);
            let s = add_mod(
                share(ra, ska, c, coefficient(xa, xb, xa)),
                share(rb, skb, c, coefficient(xa, xb, xb)),
                r_prime(),
            );
            le_value(le_bytes(s)) == s && s < r_prime() && le_value(encode(big_r)) == crate::curve::code(
                big_r,
            ) && decodes(crate::curve::code(big_r), big_r) && joint_holds(big_r, s, x, c)
        }),
{
    let n = r_prime();
    let e0 = extend(base_point());
    crate::cipher::lemma_base_point_on_curve();
    lemma_extend_valid(base_point());
    crate::order_chain::lemma_base_point_order();
    let xa = lemma_point_of(ska);
    let xb = lemma_point_of(skb);
    let pa = lemma_point_of(ra);
    let pb = lemma_point_of(rb);
    // the aggregated randomness
    lemma_affine_sum_valid(pa, pb);
    lemma_times_valid(e0, ra as nat);
    lemma_times_valid(e0, rb as nat);
    lemma_sum_respects(extend(pa), extend(pb), times(e0, ra as nat), times(e0, rb as nat));
    lemma_times_adds(e0, ra as nat, rb as nat);
    let big_r = lemma_extend_of_affine_form(affine_sum(pa, pb));
    // the aggregated key
    let aa = coefficient(xa, xb, xa);
    let ab = coefficient(xa, xb, xb);
    lemma_challenge_bound(encode(xa) + encode(xb) + encode(xa));
    lemma_challenge_bound(encode(xa) + encode(xb) + encode(xb));
    lemma_scalar_multiple_twice(base_point(), ska, aa);
    lemma_scalar_multiple_twice(base_point(), skb, ab);
    let ka = affine_multiple(xa, naf_of(aa));
    let kb = affine_multiple(xb, naf_of(ab));
    let (wa, wb) = (ska * aa, skb * ab);
    assert(wa >= 0 && wb >= 0) by (nonlinear_arith)
        requires
            wa == ska * aa,
            wb == skb * ab,
            ska >= 0,
            skb >= 0,
            aa >= 0,
            ab >= 0,
    ;
    lemma_times_valid(e0, wa as nat);
    lemma_times_valid(e0, wb as nat);
    lemma_sum_valid(ka, kb);
    lemma_sum_respects(ka, kb, times(e0, wa as nat), times(e0, wb as nat));
    lemma_times_adds(e0, wa as nat, wb as nat);
    let x = lemma_extend_of_affine_form(extended_sum(ka, kb));
    // the challenge and the key times the challenge
    let c = challenge(encode(big_r) + encode(x) + m);
    lemma_challenge_bound(encode(big_r) + encode(x) + m);
    lemma_scalar_multiple(x, c);
    let w = (wa + wb) as nat;
    lemma_times_valid(e0, w);
    lemma_times_respects(extend(x), times(e0, w), c as nat);
    lemma_times_times(e0, w, c as nat);
    let xc = affine_multiple(x, naf_of(c));
    let wc = w * (c as nat);
    // the left side: R + X c
    lemma_mixed_sum_valid(big_r, xc);
    lemma_times_valid(e0, (ra + rb) as nat);
    lemma_times_valid(e0, wc);
    lemma_sum_respects(extend(big_r), xc, times(e0, (ra + rb) as nat), times(e0, wc));
    lemma_times_adds(e0, (ra + rb) as nat, wc);
    let total = ((ra + rb) + wc) as nat;
    lemma_times_mod(e0, total, n as nat);
    // the right side: B s
    let s = add_mod(share(ra, ska, c, aa), share(rb, skb, c, ab), n);
    vstd::arithmetic::div_mod::lemma_mod_bound(share(ra, ska, c, aa) + share(rb, skb, c, ab), n);
    lemma_scalar_multiple(base_point(), s);
    lemma_shares_add_up(ra, rb, ska, skb, c, aa, ab);
    lemma_cong_residue(s, (ra + rb) + (ska * aa + skb * ab) * c, n);
    vstd::arithmetic::div_mod::lemma_small_mod(s as nat, n as nat);
    assert((total as int) % n == s);
    let lhs = mixed_sum(big_r, xc);
    assert(same_point(lhs, times(e0, s as nat)));
    crate::group::lemma_to_affine_valid(lhs);
    assert(joint_holds(big_r, s, x, c));
    // the bytes
    crate::bytes::lemma_le_bytes_value(s);
    crate::bytes::lemma_le_bytes_value(crate::curve::code(big_r));
}

/// A challenge is a residue modulo the order of the scalars.
proof fn lemma_challenge_bound(input: Seq<u8>)
    ensures
        0 <= challenge(input) < r_prime(),
{
    vstd::arithmetic::div_mod::lemma_mod_bound(
        crate::bytes::le_value_wide(
            crate::schnorr::hash::blake2b_digest(
                crate::schnorr::hash::DIGEST_LENGTH as nat,
                crate::schnorr::hash::SCHNORR_PERSONAL@,
                input,
            ),
        ),
        r_prime(),
    );
}

} // verus!
