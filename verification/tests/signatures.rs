use jubjub_schnorr::affine::Affine;
use jubjub_schnorr::musig::aggregation::PublicParams;
use jubjub_schnorr::scalar::Scalar;
use jubjub_schnorr::schnorr::hash::SchnorrHash;
use jubjub_schnorr::schnorr::private::PrivateKey;
use jubjub_schnorr::schnorr::public::PublicKey;
use jubjub_schnorr::schnorr::signature::Signature;
use rand_core::{Error, RngCore};

/// A deterministic generator: a counter run through a mixing function.
struct Counter(u64);

impl RngCore for Counter {
    fn next_u32(&mut self) -> u32 {
        self.next_u64() as u32
    }

    fn next_u64(&mut self) -> u64 {
        self.0 = self.0.wrapping_add(0x9e3779b97f4a7c15);
        let mut z = self.0;
        z = (z ^ (z >> 30)).wrapping_mul(0xbf58476d1ce4e5b9);
        z = (z ^ (z >> 27)).wrapping_mul(0x94d049bb133111eb);
        z ^ (z >> 31)
    }

    fn fill_bytes(&mut self, dest: &mut [u8]) {
        for byte in dest.iter_mut() {
            *byte = self.next_u64() as u8;
        }
    }

    fn try_fill_bytes(&mut self, dest: &mut [u8]) -> Result<(), Error> {
        self.fill_bytes(dest);
        Ok(())
    }
}

fn scalar(n: u64) -> Scalar {
    Scalar::to_mont([n, 0, 0, 0])
}

#[test]
fn hash_is_the_personalized_blake2b() {
    let digest = blake2b_simd::Params::new()
        .hash_length(64)
        .personal(b"Schnorr_Sig_Hash")
        .hash(b"abcdef");
    let expected = Scalar::from_bytes_wide(digest.as_array());
    assert_eq!(SchnorrHash::execute(b"abc", b"def"), expected);
    assert_eq!(SchnorrHash::execute(b"abcdef", b""), expected);
    assert_eq!(SchnorrHash::aggregate(b"a", b"bcd", b"ef"), expected);
    assert_ne!(SchnorrHash::execute(b"abc", b"deg"), expected);
    let unpersonalized = blake2b_simd::Params::new().hash_length(64).hash(b"abcdef");
    assert_ne!(Scalar::from_bytes_wide(unpersonalized.as_array()), expected);
    let mut hash = SchnorrHash::new();
    hash.update(b"ab");
    hash.update(b"cdef");
    assert_eq!(hash.finalize(), expected);
}

#[test]
fn random_reads_eight_words() {
    let mut reference = Counter(0);
    let mut words = [0u64; 8];
    for word in words.iter_mut() {
        *word = reference.next_u64();
    }
    assert_eq!(Scalar::random(Counter(0)), Scalar::from_words(words));
    let mut bytes = [0u8; 64];
    for k in 0..8 {
        bytes[8 * k..8 * k + 8].copy_from_slice(&words[k].to_le_bytes());
    }
    assert_eq!(Scalar::random(Counter(0)), Scalar::from_bytes_wide(&bytes));
}

#[test]
fn test_schnorr_signature() {
    let message = b"test";
    let mut key_bytes = [0u8; 32];
    for (i, byte) in key_bytes.iter_mut().enumerate() {
        *byte = (7 * i + 3) as u8;
    }
    key_bytes[31] = 0x0a;
    let private_key = PrivateKey::new(Scalar::from_bytes(key_bytes).unwrap());
    let public_key = private_key.to_public_key();
    let signature = private_key.sign(message, Counter(0));
    assert!(public_key.verify(message, Signature { s: signature.s, e: signature.e }));
    assert!(!public_key.verify(b"tesu", Signature { s: signature.s, e: signature.e }));
    let other = PrivateKey::new(scalar(12345)).to_public_key();
    assert!(!other.verify(message, signature));
}

#[test]
fn schnorr_signatures_of_many_keys() {
    let mut rng = Counter(42);
    for i in 0..8 {
        let private_key = PrivateKey::new(Scalar::random(&mut rng));
        let public_key = private_key.to_public_key();
        let message = [i as u8; 5];
        let signature = private_key.sign(&message, &mut rng);
        assert_eq!(signature.get_s().map(|s| s.to_bytes()), Some(signature.s));
        assert_eq!(signature.get_e().map(|e| e.to_bytes()), Some(signature.e));
        assert!(public_key.verify(&message, signature));
    }
}

#[test]
fn schnorr_signature_with_a_given_nonce() {
    let private_key = PrivateKey::new(scalar(3));
    let nonce = scalar(7);
    let signature = private_key.sign_with(b"test", nonce);
    let r = Affine::basepoint().mul(nonce).to_affine();
    let e = SchnorrHash::execute(&r.to_bytes(), b"test");
    assert_eq!(signature.get_e(), Some(e));
    assert_eq!(signature.get_s(), Some(nonce.sub(scalar(3).mul(e))));
    assert!(private_key.to_public_key().verify(b"test", signature));
}

#[test]
fn schnorr_rejects_bytes_that_do_not_decode() {
    let private_key = PrivateKey::new(scalar(3));
    let public_key = private_key.to_public_key();
    let signature = private_key.sign_with(b"test", scalar(7));
    assert!(!public_key.verify(b"test", Signature { s: [0xff; 32], e: signature.e }));
    assert!(!public_key.verify(b"test", Signature { s: signature.s, e: [0xff; 32] }));
    assert_eq!(Signature { s: [0xff; 32], e: signature.e }.get_s(), None);
    assert_eq!(Signature { s: signature.s, e: [0xff; 32] }.get_e(), None);
}

#[test]
fn public_key_is_the_multiple_of_the_basepoint() {
    let private_key = PrivateKey::new(scalar(5));
    let public_key = private_key.to_public_key();
    assert_eq!(public_key.0, Affine::basepoint().mul(scalar(5)).to_affine());
    assert_eq!(public_key.to_bytes(), public_key.0.to_bytes());
    assert_eq!(private_key.mul(scalar(4)), scalar(20));
    let sum = public_key.add(PrivateKey::new(scalar(6)).to_public_key());
    assert_eq!(sum.0, PrivateKey::new(scalar(11)).to_public_key().0);
    assert_eq!(public_key.mul(scalar(2)).to_affine(), Affine::basepoint().mul(scalar(10)).to_affine());
    assert_eq!(PublicKey::new(public_key.0).0, public_key.0);
}

fn session(
    alice: Scalar,
    bob: Scalar,
    r1: Scalar,
    r2: Scalar,
    message: &[u8],
) -> (PublicParams, jubjub_schnorr::musig::signature::Signature, jubjub_schnorr::musig::signature::Signature) {
    let alice_private_key = PrivateKey::new(alice);
    let alice_public_key = alice_private_key.to_public_key();
    let alice_public_r = Affine::basepoint().mul(r1).to_affine();
    let bob_private_key = PrivateKey::new(bob);
    let bob_public_key = bob_private_key.to_public_key();
    let bob_public_r = Affine::basepoint().mul(r2).to_affine();

    let a1 = SchnorrHash::aggregate(
        &alice_public_key.to_bytes(),
        &bob_public_key.to_bytes(),
        &alice_public_key.to_bytes(),
    );
    let a2 = SchnorrHash::aggregate(
        &alice_public_key.to_bytes(),
        &bob_public_key.to_bytes(),
        &bob_public_key.to_bytes(),
    );

    let public_params =
        PublicParams::new(message, alice_public_key, bob_public_key, alice_public_r, bob_public_r);

    let s_1 = public_params.cosign(a1, r1, alice_private_key);
    let s_2 = public_params.cosign(a2, r2, bob_private_key);
    let signature = public_params.generate_signature(s_1, s_2);

    let swapped_1 = public_params.cosign(a2, r1, alice_private_key);
    let swapped_2 = public_params.cosign(a1, r2, bob_private_key);
    let swapped = public_params.generate_signature(swapped_1, swapped_2);
    (public_params, signature, swapped)
}

#[test]
fn test_signature_aggregation() {
    let (public_params, signature, swapped) = session(scalar(3), scalar(5), scalar(7), scalar(11), b"test");
    assert_eq!(signature.get_r(), Some(public_params.randomness));
    assert_eq!(public_params.randomness, Affine::basepoint().mul(scalar(18)).to_affine());
    assert!(public_params.verify(b"test", signature));
    assert!(!public_params.verify(b"test", swapped));
}

#[test]
fn signature_aggregation_of_many_keys() {
    let mut rng = Counter(7);
    for _ in 0..4 {
        let (public_params, signature, swapped) = session(
            Scalar::random(&mut rng),
            Scalar::random(&mut rng),
            Scalar::random(&mut rng),
            Scalar::random(&mut rng),
            b"test",
        );
        assert!(public_params.verify(b"test", signature));
        assert!(!public_params.verify(b"test", swapped));
    }
}

#[test]
fn joint_signature_rejects_bytes_that_do_not_decode() {
    let (public_params, signature, _) = session(scalar(3), scalar(5), scalar(7), scalar(11), b"test");
    let bad_s = jubjub_schnorr::musig::signature::Signature { r: signature.r, s: [0xff; 32] };
    assert_eq!(bad_s.get_s(), None);
    assert!(!public_params.verify(b"test", bad_s));
    let bad_r = jubjub_schnorr::musig::signature::Signature { r: [0xff; 32], s: signature.s };
    assert_eq!(bad_r.get_r(), None);
    assert!(!public_params.verify(b"test", bad_r));
}
