use jubjub_schnorr::affine::Affine;
use jubjub_schnorr::base::Base;
use jubjub_schnorr::extend::Extended;
use jubjub_schnorr::scalar::Scalar;
use jubjub_schnorr::schnorr::private::PrivateKey;

fn wide(seed: u64) -> [u8; 64] {
    let mut state = seed;
    let mut out = [0u8; 64];
    for byte in out.iter_mut() {
        state = state.wrapping_mul(6364136223846793005).wrapping_add(1442695040888963407);
        *byte = (state >> 56) as u8;
    }
    out
}

#[test]
fn base_operators() {
    for seed in 0..50u64 {
        let a = Base::from_bytes_wide(&wide(seed));
        let b = Base::from_bytes_wide(&wide(seed + 1000));
        assert_eq!(a + a + b + b, a.double() + b.double());
        assert_eq!(a * a + b * b, a.square() + b.square());
        assert_eq!(a - b, a + (-b));
        assert_eq!(a - a, Base::zero());
        assert_eq!(a * (b + Base::one()), a * b + a);
        assert_eq!(a + b, a.add(b));
        assert_eq!(a * b, a.mul(b));
    }
}

#[test]
fn scalar_operators() {
    for seed in 0..50u64 {
        let a = Scalar::from_bytes_wide(&wide(seed));
        let b = Scalar::from_bytes_wide(&wide(seed + 1000));
        assert_eq!(a + a + b + b, a.double() + b.double());
        assert_eq!(a * a + b * b, a.square() + b.square());
        assert_eq!(a - b, a + (-b));
        assert_eq!(a * (b + Scalar::one()), a * b + a);
    }
}

#[test]
fn point_operators() {
    let nine = Scalar::one().double().double().double() + Scalar::one();
    for seed in 0..6u64 {
        let r = Scalar::from_bytes_wide(&wide(seed));
        let a_point = Affine::generator() * r;
        let b_point = Affine::generator() * (r + Scalar::one());
        let additive = a_point + a_point + b_point + b_point;
        let doubling = a_point.double() + b_point.double();
        assert_eq!(additive.to_affine(), doubling.to_affine());

        let r_point = a_point.to_affine();
        let by_scalar = r_point * nine;
        let naive = r_point.double().double().double() + r_point;
        assert_eq!(by_scalar.to_affine(), naive.to_affine());
        assert_eq!((a_point * nine).to_affine(), naive.to_affine());
        assert_eq!((r_point + a_point).to_affine(), r_point.double().to_affine());
        assert_eq!((r_point + r_point).to_affine(), r_point.double().to_affine());
        assert_eq!((a_point - a_point).to_affine(), Affine::identity());
        assert_eq!((a_point - r_point).to_affine(), Affine::identity());
        assert_eq!((a_point + (-a_point)).to_affine(), Affine::identity());
        assert_eq!((r_point + (-r_point)).to_affine(), Affine::identity());
        assert_eq!((a_point + Extended::identity()).to_affine(), r_point);
    }
}

#[test]
fn key_operators() {
    let three = Scalar::to_mont([3, 0, 0, 0]);
    let five = Scalar::to_mont([5, 0, 0, 0]);
    let key = PrivateKey::new(three);
    assert_eq!(key * five, Scalar::to_mont([15, 0, 0, 0]));
    let public = key.to_public_key();
    assert_eq!((public * five).to_affine(), (Affine::basepoint() * (three * five)).to_affine());
}
