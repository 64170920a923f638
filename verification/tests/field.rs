use jubjub_schnorr::base::Base;
use jubjub_schnorr::limbs;
use jubjub_schnorr::scalar::Scalar;

/// A small deterministic generator of test inputs.
struct Stream(u64);

impl Stream {
    fn next(&mut self) -> u64 {
        self.0 ^= self.0 << 13;
        self.0 ^= self.0 >> 7;
        self.0 ^= self.0 << 17;
        self.0
    }

    fn wide(&mut self) -> [u8; 64] {
        let mut out = [0u8; 64];
        for chunk in 0..8 {
            let word = self.next().to_le_bytes();
            for i in 0..8 {
                out[8 * chunk + i] = word[i];
            }
        }
        out
    }
}

fn base_samples() -> Vec<Base> {
    let mut stream = Stream(0x9e3779b97f4a7c15);
    let mut out = vec![Base::zero(), Base::one(), Base::one().neg()];
    for _ in 0..100 {
        out.push(Base::from_bytes_wide(&stream.wide()));
    }
    out
}

fn scalar_samples() -> Vec<Scalar> {
    let mut stream = Stream(0x2545f4914f6cdd1d);
    let mut out = vec![Scalar::zero(), Scalar::one(), Scalar::one().neg()];
    for _ in 0..100 {
        out.push(Scalar::from_bytes_wide(&stream.wide()));
    }
    out
}

#[test]
fn base_raw_and_mont() {
    for a in base_samples() {
        assert_eq!(Base::to_mont(a.to_raw()), a);
    }
}

#[test]
fn scalar_raw_and_mont() {
    for a in scalar_samples() {
        assert_eq!(Scalar::to_mont(a.to_raw()), a);
    }
}

#[test]
fn base_bytes_round_trip() {
    for a in base_samples() {
        assert_eq!(Base::from_bytes(a.to_bytes()), Some(a));
    }
}

#[test]
fn scalar_bytes_round_trip() {
    for a in scalar_samples() {
        assert_eq!(Scalar::from_bytes(a.to_bytes()), Some(a));
    }
}

#[test]
fn base_from_bytes_rejects_the_modulus_and_above() {
    let mut bytes = [0u8; 32];
    let q: [u64; 4] = [
        0xffffffff00000001,
        0x53bda402fffe5bfe,
        0x3339d80809a1d805,
        0x73eda753299d7d48,
    ];
    for k in 0..4 {
        bytes[8 * k..8 * k + 8].copy_from_slice(&q[k].to_le_bytes());
    }
    assert_eq!(Base::from_bytes(bytes), None);
    assert_eq!(Base::from_bytes([0xff; 32]), None);
    bytes[0] = 0;
    let below = Base::from_bytes(bytes).unwrap();
    assert_eq!(below, Base::one().neg());
    assert_eq!(below.to_bytes(), bytes);
}

#[test]
fn scalar_from_bytes_rejects_the_modulus_and_above() {
    let mut bytes = [0u8; 32];
    let r: [u64; 4] = [
        0xd0970e5ed6f72cb7,
        0xa6682093ccc81082,
        0x06673b0101343b00,
        0x0e7db4ea6533afa9,
    ];
    for k in 0..4 {
        bytes[8 * k..8 * k + 8].copy_from_slice(&r[k].to_le_bytes());
    }
    assert_eq!(Scalar::from_bytes(bytes), None);
    assert_eq!(Scalar::from_bytes([0xff; 32]), None);
    bytes[0] = 0xb6;
    let below = Scalar::from_bytes(bytes).unwrap();
    assert_eq!(below, Scalar::one().neg());
}

#[test]
fn base_add_and_double() {
    let samples = base_samples();
    for pair in samples.windows(2) {
        let (a, b) = (pair[0], pair[1]);
        assert_eq!(a.add(a).add(b).add(b), a.double().add(b.double()));
    }
}

#[test]
fn scalar_add_and_double() {
    let samples = scalar_samples();
    for pair in samples.windows(2) {
        let (a, b) = (pair[0], pair[1]);
        assert_eq!(a.add(a).add(b).add(b), a.double().add(b.double()));
    }
}

#[test]
fn base_mul_and_square() {
    let samples = base_samples();
    for pair in samples.windows(2) {
        let (a, b) = (pair[0], pair[1]);
        assert_eq!(a.mul(a).add(b.mul(b)), a.square().add(b.square()));
    }
}

#[test]
fn scalar_mul_and_square() {
    let samples = scalar_samples();
    for pair in samples.windows(2) {
        let (a, b) = (pair[0], pair[1]);
        assert_eq!(a.mul(a).add(b.mul(b)), a.square().add(b.square()));
    }
}

#[test]
fn square_carries_through_every_limb() {
    // The doubled cross products of these limbs carry out of the sixth limb.
    let a = Base([2, (1 << 63) + 1, u64::MAX, 1]);
    assert_eq!(a.square(), a.mul(a));
    let b = Scalar([2, (1 << 63) + 1, u64::MAX, 1]);
    assert_eq!(b.square(), b.mul(b));
}

#[test]
fn base_invert() {
    assert_eq!(Base::zero().invert(), None);
    for a in base_samples() {
        if a != Base::zero() {
            assert_eq!(a.mul(a.invert().unwrap()), Base::one());
        }
    }
}

#[test]
fn scalar_invert() {
    assert_eq!(Scalar::zero().invert(), None);
    for a in scalar_samples() {
        if a != Scalar::zero() {
            assert_eq!(a.mul(a.invert().unwrap()), Scalar::one());
        }
    }
}

#[test]
fn base_sqrt_of_squares() {
    for a in base_samples() {
        let square = a.square();
        let root = square.sqrt().unwrap();
        assert_eq!(root.square(), square);
        assert!(root == a || root == a.neg());
    }
}

#[test]
fn base_sqrt_of_a_non_residue() {
    // Five is not a square modulo q, and a non-residue times a square is none either.
    let five = Base::to_mont([5, 0, 0, 0]);
    assert_eq!(five.sqrt(), None);
    for a in base_samples() {
        if a != Base::zero() {
            assert_eq!(five.mul(a.square()).sqrt(), None);
        }
    }
    assert_eq!(Base::zero().sqrt(), Some(Base::zero()));
}

#[test]
fn base_sqrt_of_small_values() {
    // Four is a square with the roots two and minus two; minus one is a square too.
    let two = Base::to_mont([2, 0, 0, 0]);
    let root = two.square().sqrt().unwrap();
    assert!(root == two || root == two.neg());
    let i = Base::one().neg().sqrt().unwrap();
    assert_eq!(i.square(), Base::one().neg());
    assert_eq!(Base::one().sqrt().map(|r| r.square()), Some(Base::one()));
    // The curve constant is no square.
    let d = Base(jubjub_schnorr::affine::D);
    assert_eq!(d.sqrt(), None);
    assert_eq!(d.neg().sqrt(), None);
}

#[test]
fn base_small_values() {
    let a = Base::one();
    assert_eq!(a.double(), Base::to_mont([2, 0, 0, 0]));
    assert_eq!(a.double().double().add(a), Base::to_mont([5, 0, 0, 0]));
    assert_eq!(a.double().to_raw(), [2, 0, 0, 0]);
    assert_eq!(a.sub(a.double()), a.neg());
    assert_eq!(Base::zero().neg(), Base::zero());
    assert!(a.is_odd());
    assert!(!a.double().is_odd());
}

#[test]
fn scalar_one_round_trips_through_bytes() {
    let one = Scalar::one();
    let mut expected = [0u8; 32];
    expected[0] = 1;
    assert_eq!(one.to_bytes(), expected);
    assert_eq!(Scalar::from_bytes(one.to_bytes()), Some(one));
}

#[test]
fn from_bytes_wide_reduces() {
    let mut wide = [0u8; 64];
    wide[0] = 7;
    assert_eq!(Base::from_bytes_wide(&wide), Base::to_mont([7, 0, 0, 0]));
    assert_eq!(Scalar::from_bytes_wide(&wide), Scalar::to_mont([7, 0, 0, 0]));
    // 2^256 is the radix: its residue is the Montgomery form of one, taken as raw limbs.
    let mut high = [0u8; 64];
    high[32] = 1;
    assert_eq!(Base::from_bytes_wide(&high), Base::to_mont(jubjub_schnorr::base::R));
    assert_eq!(Scalar::from_bytes_wide(&high), Scalar::to_mont(jubjub_schnorr::scalar::R));
    assert_eq!(Scalar::from_words([7, 0, 0, 0, 0, 0, 0, 0]), Scalar::to_mont([7, 0, 0, 0]));
}

#[test]
fn pow_vartime_small_exponents() {
    let three = Base::to_mont([3, 0, 0, 0]);
    assert_eq!(three.pow_vartime(&[0, 0, 0, 0]), Base::one());
    assert_eq!(three.pow_vartime(&[1, 0, 0, 0]), three);
    assert_eq!(three.pow_vartime(&[5, 0, 0, 0]), Base::to_mont([243, 0, 0, 0]));
    assert_eq!(Base::zero().pow_vartime(&[5, 0, 0, 0]), Base::zero());
    let two = Scalar::to_mont([2, 0, 0, 0]);
    assert_eq!(two.pow_vartime(&[10, 0, 0, 0]), Scalar::to_mont([1024, 0, 0, 0]));
}

#[test]
fn limb_routines_on_small_values() {
    let p = jubjub_schnorr::base::MODULUS;
    let inv = jubjub_schnorr::base::INV;
    let one = jubjub_schnorr::base::R;
    assert_eq!(limbs::add([1, 0, 0, 0], [2, 0, 0, 0], p), [3, 0, 0, 0]);
    assert_eq!(limbs::sub([1, 0, 0, 0], [2, 0, 0, 0], p), limbs::neg([1, 0, 0, 0], p));
    assert_eq!(limbs::neg([0, 0, 0, 0], p), [0, 0, 0, 0]);
    assert_eq!(limbs::double([3, 0, 0, 0], p), [6, 0, 0, 0]);
    assert_eq!(limbs::add(limbs::neg([1, 0, 0, 0], p), [1, 0, 0, 0], p), [0, 0, 0, 0]);
    assert_eq!(limbs::mul(one, one, p, inv), one);
    assert_eq!(limbs::square(one, p, inv), one);
    assert_eq!(limbs::mont([one[0], one[1], one[2], one[3], 0, 0, 0, 0], p, inv), [1, 0, 0, 0]);
    assert_eq!(limbs::little_fermat(p), [p[0] - 2, p[1], p[2], p[3]]);
    assert_eq!(limbs::pow(one, [9, 0, 0, 0], one, p, inv), one);
    assert_eq!(limbs::pow([0, 0, 0, 0], [9, 0, 0, 0], one, p, inv), [0, 0, 0, 0]);
    assert_eq!(limbs::pow([0, 0, 0, 0], [0, 0, 0, 0], one, p, inv), one);
    assert_eq!(limbs::invert([0, 0, 0, 0], limbs::little_fermat(p), one, p, inv), None);
    assert_eq!(limbs::invert(one, limbs::little_fermat(p), one, p, inv), Some(one));
}

#[test]
fn to_bits_is_most_significant_first() {
    let bits = limbs::to_bits([5, 0, 0, 1 << 63]);
    assert_eq!(bits.len(), 256);
    assert_eq!(bits[0], 1);
    assert_eq!(bits[1], 0);
    assert_eq!(&bits[252..], &[0, 1, 0, 1]);
    assert_eq!(bits.iter().map(|b| *b as u32).sum::<u32>(), 3);
}
