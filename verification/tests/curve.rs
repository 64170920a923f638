use jubjub_schnorr::affine::Affine;
use jubjub_schnorr::base::Base;
use jubjub_schnorr::coordinate::{
    add_affine_point, add_mixed_point, add_projective_point, double_projective_point, scalar_point,
};
use jubjub_schnorr::extend::Extended;
use jubjub_schnorr::naf::{to_nafs, Naf};
use jubjub_schnorr::scalar::Scalar;

fn scalar(n: u64) -> Scalar {
    Scalar::to_mont([n, 0, 0, 0])
}

fn sample_scalars() -> Vec<Scalar> {
    let mut state: u64 = 0x0123456789abcdef;
    let mut out = Vec::new();
    for _ in 0..12 {
        let mut wide = [0u8; 64];
        for byte in wide.iter_mut() {
            state = state.wrapping_mul(6364136223846793005).wrapping_add(1442695040888963407);
            *byte = (state >> 56) as u8;
        }
        out.push(Scalar::from_bytes_wide(&wide));
    }
    out
}

#[test]
fn test_basepoint() {
    let b = Extended::basepoint();
    assert_eq!(b.x.mul(b.y), b.t);
}

#[test]
fn basepoint_is_the_same_in_both_forms() {
    let a = Affine::basepoint();
    let e = Extended::basepoint();
    assert_eq!(e.x, a.x);
    assert_eq!(e.y, a.y);
    assert_eq!(e.z, Base::one());
    assert_eq!(e.to_affine(), a);
    assert_eq!(a.extend().t, e.t);
}

#[test]
fn nafs_of_small_scalars() {
    let (plus, zero, minus) = (Naf::Plus, Naf::Zero, Naf::Minus);
    assert_eq!(to_nafs([0, 0, 0, 0]), vec![]);
    assert_eq!(to_nafs([1, 0, 0, 0]), vec![plus]);
    assert_eq!(to_nafs([2, 0, 0, 0]), vec![plus, zero]);
    assert_eq!(to_nafs([3, 0, 0, 0]), vec![plus, zero, minus]);
    assert_eq!(to_nafs([7, 0, 0, 0]), vec![plus, zero, zero, minus]);
    assert_eq!(to_nafs([9, 0, 0, 0]), vec![plus, zero, zero, plus]);
    assert_eq!(scalar(9).to_nafs(), vec![plus, zero, zero, plus]);
}

#[test]
fn nafs_stand_for_the_value_and_are_non_adjacent() {
    let values: [[u64; 4]; 4] = [
        [u64::MAX, u64::MAX, u64::MAX, u64::MAX],
        [0xd0970e5ed6f72cb7, 0xa6682093ccc81082, 0x06673b0101343b00, 0x0e7db4ea6533afa9],
        [0, 0, 0, 1 << 63],
        [0x5555555555555555, 0x3333333333333333, 0xaaaaaaaaaaaaaaaa, 0x0123456789abcdef],
    ];
    for value in values {
        let nafs = to_nafs(value);
        assert!(nafs.len() <= 257);
        assert_ne!(nafs[0], Naf::Zero);
        // Horner evaluation in 320 bits: five limbs, two's complement.
        let mut acc = [0u64; 5];
        for (i, digit) in nafs.iter().enumerate() {
            if i > 0 {
                assert!(nafs[i - 1] == Naf::Zero || *digit == Naf::Zero);
            }
            let mut carry = 0u64;
            for limb in acc.iter_mut() {
                let next = *limb >> 63;
                *limb = (*limb << 1) | carry;
                carry = next;
            }
            let delta: [u64; 5] = match digit {
                Naf::Zero => [0; 5],
                Naf::Plus => [1, 0, 0, 0, 0],
                Naf::Minus => [u64::MAX; 5],
            };
            let mut c = 0u128;
            for k in 0..5 {
                let sum = acc[k] as u128 + delta[k] as u128 + c;
                acc[k] = sum as u64;
                c = sum >> 64;
            }
        }
        assert_eq!(acc, [value[0], value[1], value[2], value[3], 0]);
    }
}

#[test]
fn generator_double_is_generator_plus_generator() {
    let g = Affine::generator();
    assert_eq!(g.double().to_affine(), g.add(g).to_affine());
    assert_eq!(g.double().to_affine().to_bytes(), g.add(g).to_affine().to_bytes());
}

#[test]
fn basepoint_times_one() {
    let b = Affine::basepoint();
    assert_eq!(b.mul(Scalar::one()).to_affine(), b);
    assert_eq!(Extended::basepoint().mul(Scalar::one()).to_affine(), b);
    assert_eq!(scalar_point(Extended::basepoint(), Scalar::one()).to_affine(), b);
}

#[test]
fn times_zero_is_the_identity() {
    let b = Affine::basepoint();
    assert_eq!(b.mul(Scalar::zero()).to_affine(), Affine::identity());
    assert_eq!(Extended::identity().to_affine(), Affine::identity());
}

#[test]
fn adding_the_identity() {
    for k in sample_scalars() {
        let p = Affine::generator().mul(k);
        let pa = p.to_affine();
        assert_eq!(p.add(Extended::identity()).to_affine(), pa);
        assert_eq!(p.add_affine(Affine::identity()).to_affine(), pa);
        assert_eq!(add_mixed_point(Affine::identity(), p).to_affine(), pa);
        assert_eq!(add_affine_point(pa, Affine::identity()).to_affine(), pa);
        assert_eq!(p.sub(p).to_affine(), Affine::identity());
        assert_eq!(p.sub_affine(pa).to_affine(), Affine::identity());
        assert_eq!(pa.add(pa.neg()).to_affine(), Affine::identity());
    }
}

#[test]
fn test_add_and_double() {
    let scalars = sample_scalars();
    for pair in scalars.windows(2) {
        let a = Affine::generator().mul(pair[0]);
        let b = Affine::generator().mul(pair[1]);
        let additive = a.add(a).add(b).add(b);
        let doubling = a.double().add(b.double());
        assert_eq!(additive.to_affine(), doubling.to_affine());

        let (pa, pb) = (a.to_affine(), b.to_affine());
        let additive = pa.add(pa).add_affine(pb).add_affine(pb);
        let doubling = pa.double().add(pb.double());
        assert_eq!(additive.to_affine(), doubling.to_affine());
        assert_eq!(double_projective_point(a).to_affine(), add_projective_point(a, a).to_affine());
    }
}

#[test]
fn test_scalar() {
    let nine = Scalar::one().double().double().double().add(Scalar::one());
    assert_eq!(nine, scalar(9));
    for r in sample_scalars() {
        let r_point = Affine::generator().mul(r).to_affine();
        let by_scalar = r_point.mul(nine);
        let naive = r_point.double().double().double().add_affine(r_point);
        assert_eq!(by_scalar.to_affine(), naive.to_affine());
        assert_eq!(r_point.extend().mul(nine).to_affine(), naive.to_affine());
    }
}

#[test]
fn scalar_multiplication_is_additive() {
    let scalars = sample_scalars();
    for pair in scalars.windows(2) {
        let (k, m) = (pair[0], pair[1]);
        let p = Affine::basepoint();
        let together = p.mul(k.add(m));
        let apart = p.mul(k).add(p.mul(m));
        assert_eq!(together.to_affine(), apart.to_affine());
    }
}

#[test]
fn subtracting_a_point_from_itself() {
    let g = Affine::generator();
    assert_eq!(g.add(g.neg()).to_affine(), Affine::identity());
    let b = Extended::basepoint();
    assert_eq!(b.sub(b).to_affine(), Affine::identity());
    assert_eq!(b.sub(b).x, Base::zero());
    assert_eq!(b.neg().neg().to_affine(), b.to_affine());
    // The first step of every multiple: the point added to twice the neutral element.
    let first = add_mixed_point(g, double_projective_point(Extended::identity()));
    assert_eq!(first.x, g.x);
    assert_eq!(first.y, g.y);
    assert_eq!(first.t, g.x.mul(g.y));
    assert_eq!(first.z, Base::one());
}

fn on_curve(p: Affine) -> bool {
    let d = Base(jubjub_schnorr::affine::D);
    let (x2, y2) = (p.x.square(), p.y.square());
    y2.sub(x2) == Base::one().add(d.mul(x2).mul(y2))
}

#[test]
fn points_stay_on_the_curve() {
    assert!(on_curve(Affine::generator()));
    assert!(on_curve(Affine::basepoint()));
    assert!(on_curve(Affine::identity()));
    let scalars = sample_scalars();
    for pair in scalars.windows(2) {
        let a = Affine::generator().mul(pair[0]);
        let b = Affine::basepoint().mul(pair[1]);
        for point in [a, b, a.add(b), a.sub(b), a.double(), a.neg(), b.add_affine(a.to_affine())] {
            assert_ne!(point.z, Base::zero());
            assert_eq!(point.x.mul(point.y), point.t.mul(point.z));
            assert_eq!(
                point.y.square().sub(point.x.square()),
                point.z.square().add(Base(jubjub_schnorr::affine::D).mul(point.t.square()))
            );
            assert!(on_curve(point.to_affine()));
        }
    }
}

#[test]
fn point_bytes_round_trip() {
    let mut identity = [0u8; 32];
    identity[0] = 1;
    assert_eq!(Affine::identity().to_bytes(), identity);
    assert_eq!(Affine::from_bytes(identity), Some(Affine::identity()));
    for k in sample_scalars() {
        let p = Affine::basepoint().mul(k).to_affine();
        let bytes = p.to_bytes();
        assert_eq!(bytes[31] >> 7, p.x.to_bytes()[0] & 1);
        let mut y = p.y.to_bytes();
        y[31] |= bytes[31] & 0x80;
        assert_eq!(y, bytes);
        assert_eq!(Affine::from_bytes(bytes), Some(p));
        assert_eq!(Affine::from_bytes(p.neg().to_bytes()), Some(p.neg()));
    }
}

#[test]
fn point_from_bytes_rejects_what_is_not_a_point() {
    // y = 2 gives a non-residue for x^2.
    let mut count = 0;
    for y in 2u8..40 {
        let mut bytes = [0u8; 32];
        bytes[0] = y;
        match Affine::from_bytes(bytes) {
            Some(p) => {
                assert_eq!(p.to_bytes(), bytes);
            }
            None => count += 1,
        }
    }
    assert!(count > 0);
    assert_eq!(Affine::from_bytes([0xff; 32]), None);
    // The identity has x = 0, which is even: the odd sign has no point.
    let mut odd_identity = [0u8; 32];
    odd_identity[0] = 1;
    odd_identity[31] = 0x80;
    assert_eq!(Affine::from_bytes(odd_identity), None);
}
