//! The hash that turns byte strings into challenges: BLAKE2b with a fixed
//! personalization, reduced into the scalar field.
use vstd::prelude::*;
use blake2b_simd::Params;
use crate::bytes::le_value_wide;
use crate::scalar::{Scalar, r_prime};

verus! {

/// The personalization of the hash: the ASCII bytes of `Schnorr_Sig_Hash`.
pub const SCHNORR_PERSONAL: [u8; 16] = [
    0x53, 0x63, 0x68, 0x6e, 0x6f, 0x72, 0x72, 0x5f, 0x53, 0x69, 0x67, 0x5f, 0x48, 0x61, 0x73, 0x68,
];

/// The length of a digest in bytes.
pub const DIGEST_LENGTH: usize = 64;

/// The BLAKE2b digest of `input` under a digest length and a
/// personalization, with every other parameter at its default.
pub uninterp spec fn blake2b_digest(hash_length: nat, personal: Seq<u8>, input: Seq<u8>) -> Seq<u8>;

/// The BLAKE2b digest of `input`, by `blake2b_simd::Params::hash` on
/// parameters with the given digest length and personalization. The
/// contract names the digest and claims that it has 64 bytes, which is what
/// `Hash::as_array` hands out for a digest length of 64.
#[verifier::external_body]
fn blake2b(hash_length: usize, personal: &[u8], input: &[u8]) -> (digest: [u8; 64])
    requires
        hash_length == 64,
        personal@.len() <= 16,
    ensures
        digest@ == blake2b_digest(hash_length as nat, personal@, input@),
{
    *Params::new().hash_length(hash_length).personal(personal).hash(input).as_array()
}

/// The integer below `r` that a byte string hashes to: its digest, read as
/// a 512-bit integer, modulo `r`.
pub open spec fn challenge(input: Seq<u8>) -> int {
    le_value_wide(blake2b_digest(DIGEST_LENGTH as nat, SCHNORR_PERSONAL@, input)) % r_prime()
}

/// A hash in progress: the bytes absorbed so far.
pub struct SchnorrHash {
    pub input: Vec<u8>,
}

impl View for SchnorrHash {
    type V = Seq<u8>;

    open spec fn view(&self) -> Seq<u8> {
        self.input@
    }
}

impl SchnorrHash {
    /// A hash that has absorbed nothing.
    pub fn new() -> (r: SchnorrHash)
        ensures
            r@ == Seq::<u8>::empty(),
    {
        SchnorrHash { input: Vec::new() }
    }

    /// Absorbs a byte string.
    pub fn update(&mut self, bytes: &[u8])
        ensures
            final(self)@ == old(self)@ + bytes@,
    {
        let ghost before = self.input@;
        let mut i: usize = 0;
        while i < bytes.len()
            invariant
                i <= bytes@.len(),
                self.input@ == before + bytes@.take(i as int),
            decreases bytes@.len() - i,
        {
            self.input.push(bytes[i]);
            proof {
                assert(bytes@.take(i + 1) =~= bytes@.take(i as int).push(bytes@[i as int]));
                assert(self.input@ =~= before + bytes@.take(i + 1));
            }
            i += 1;
        }
        proof {
            assert(bytes@.take(i as int) =~= bytes@);
        }
    }

    /// The scalar that the absorbed bytes hash to.
    pub fn finalize(&self) -> (r: Scalar)
        ensures
            r.wf(),
            r@ == challenge(self@),
    {
        let digest = blake2b(DIGEST_LENGTH, SCHNORR_PERSONAL.as_slice(), self.input.as_slice());
        Scalar::from_bytes_wide(&digest)
    }

    /// The scalar that two byte strings, one after the other, hash to.
    pub fn execute(a: &[u8], b: &[u8]) -> (r: Scalar)
        ensures
            r.wf(),
            r@ == challenge(a@ + b@),
    {
        let mut hash = SchnorrHash::new();
        hash.update(a);
        hash.update(b);
        proof {
            assert(Seq::<u8>::empty() + a@ =~= a@);
        }
        hash.finalize()
    }

    /// The scalar that three byte strings, one after the other, hash to.
    pub fn aggregate(a: &[u8], b: &[u8], c: &[u8]) -> (r: Scalar)
        ensures
            r.wf(),
            r@ == challenge(a@ + b@ + c@),
    {
        let mut hash = SchnorrHash::new();
        hash.update(a);
        hash.update(b);
        hash.update(c);
        proof {
            assert(Seq::<u8>::empty() + a@ =~= a@);
        }
        hash.finalize()
    }
}

} // verus!
