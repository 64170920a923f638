//! Multiples of a point by integers, and what scalar multiplication over
//! the non-adjacent form of a scalar computes: the multiple by the scalar.
use vstd::prelude::*;
use crate::abelian::{lemma_associative, lemma_commutative, lemma_sum_respects};
use crate::curve::{multiple, 
    AffinePoint, ExtendedPoint, affine_identity, affine_multiple, affine_negative, doubled, extend,
    extended_identity, extended_negative, extended_sum, to_affine, lemma_double_is_sum,
    lemma_extended_difference, lemma_extended_sum_identity,
};
use crate::group::{
    affine_valid, extended_valid, lemma_affine_negative_valid, lemma_doubled_valid,
    lemma_extend_valid, lemma_identity_valid, lemma_mixed_sum_valid, lemma_negative_valid,
    lemma_sum_valid,
};
use crate::modular::{add_mod, radix};
use crate::naf::{Naf, naf_of, naf_value};

verus! {

/// The multiple of a point by a natural number: the point added to the
/// neutral element that many times.
pub open spec fn times(p: ExtendedPoint, n: nat) -> ExtendedPoint
    decreases n,
{
    if n == 0 {
        extended_identity()
    } else {
        extended_sum(times(p, (n - 1) as nat), p)
    }
}

/// Two points of the group are the same point: they have the same affine
/// form.
pub open spec fn same_point(p: ExtendedPoint, r: ExtendedPoint) -> bool {
    to_affine(p) == to_affine(r)
}

/// The neutral element in extended coordinates stands for the neutral
/// element.
pub proof fn lemma_identity_form()
    ensures
        to_affine(extended_identity()) == Some(affine_identity()),
{
    crate::curve::lemma_finv(1);
    crate::curve::lemma_fmul_unit(crate::curve::finv(1));
    crate::curve::lemma_fmul_unit(0);
    crate::curve::lemma_fmul_unit(1);
}

/// The multiples of a point of the group are points of the group.
pub proof fn lemma_times_valid(p: ExtendedPoint, n: nat)
    requires
        extended_valid(p),
    ensures
        extended_valid(times(p, n)),
    decreases n,
{
    if n == 0 {
        lemma_identity_valid();
    } else {
        lemma_times_valid(p, (n - 1) as nat);
        lemma_sum_valid(times(p, (n - 1) as nat), p);
    }
}

/// The multiple by a sum is the sum of the multiples.
pub proof fn lemma_times_adds(p: ExtendedPoint, a: nat, b: nat)
    requires
        extended_valid(p),
    ensures
        same_point(times(p, a + b), extended_sum(times(p, a), times(p, b))),
    decreases b,
{
    lemma_times_valid(p, a);
    lemma_times_valid(p, b);
    if b == 0 {
        lemma_extended_sum_identity(times(p, a));
    } else {
        let c = (b - 1) as nat;
        lemma_times_valid(p, c);
        lemma_times_valid(p, a + c);
        lemma_times_adds(p, a, c);
        lemma_sum_valid(times(p, a), times(p, c));
        // times(a + b) == times(a + c) + p, the same as (times(a) + times(c)) + p
        lemma_sum_respects(
            times(p, a + c),
            p,
            extended_sum(times(p, a), times(p, c)),
            p,
        );
        lemma_associative(times(p, a), times(p, c), p);
        assert(times(p, a + b) == extended_sum(times(p, (a + c) as nat), p));
    }
}

/// Twice a multiple is the multiple by twice the number.
pub proof fn lemma_times_doubled(p: ExtendedPoint, x: ExtendedPoint, n: nat)
    requires
        extended_valid(p),
        extended_valid(x),
        same_point(x, times(p, n)),
    ensures
        extended_valid(doubled(x)),
        same_point(doubled(x), times(p, 2 * n)),
{
    lemma_times_valid(p, n);
    lemma_doubled_valid(x);
    lemma_double_is_sum(x);
    lemma_sum_respects(x, x, times(p, n), times(p, n));
    lemma_times_adds(p, n, n);
}

/// One more: a multiple with the point added is the next multiple.
pub proof fn lemma_times_next(p: ExtendedPoint, x: ExtendedPoint, n: nat)
    requires
        extended_valid(p),
        extended_valid(x),
        same_point(x, times(p, n)),
    ensures
        extended_valid(extended_sum(x, p)),
        same_point(extended_sum(x, p), times(p, n + 1)),
{
    lemma_times_valid(p, n);
    lemma_sum_valid(x, p);
    lemma_sum_respects(x, p, times(p, n), p);
    assert(times(p, n + 1) == extended_sum(times(p, n), p));
}

/// One less: a multiple with the point subtracted is the multiple before.
pub proof fn lemma_times_previous(p: ExtendedPoint, x: ExtendedPoint, n: nat)
    requires
        extended_valid(p),
        extended_valid(x),
        n >= 1,
        same_point(x, times(p, n)),
    ensures
        extended_valid(extended_sum(x, extended_negative(p))),
        same_point(extended_sum(x, extended_negative(p)), times(p, (n - 1) as nat)),
{
    let c = (n - 1) as nat;
    let np = extended_negative(p);
    lemma_times_valid(p, n);
    lemma_times_valid(p, c);
    lemma_negative_valid(p);
    lemma_sum_valid(x, np);
    lemma_sum_valid(p, np);
    lemma_identity_valid();
    // x - p == (times(c) + p) - p == times(c) + (p - p) == times(c) + O == times(c)
    assert(times(p, n) == extended_sum(times(p, c), p));
    lemma_identity_form();
    lemma_sum_respects(x, np, times(p, n), np);
    lemma_associative(times(p, c), p, np);
    lemma_extended_difference(p);
    lemma_sum_respects(times(p, c), extended_sum(p, np), times(p, c), extended_identity());
    lemma_extended_sum_identity(times(p, c));
}

/// Every prefix of the digits but the empty one stands for a positive
/// integer.
pub open spec fn positive_prefixes(s: Seq<Naf>) -> bool {
    forall|k: int| 1 <= k <= s.len() ==> #[trigger] naf_value(s.take(k)) >= 1
}

/// Scalar multiplication over signed digits computes the multiple by the
/// integer that the digits stand for.
pub proof fn lemma_multiple_is_times(p: AffinePoint, s: Seq<Naf>)
    requires
        affine_valid(p),
        positive_prefixes(s),
    ensures
        naf_value(s) >= 0,
        extended_valid(affine_multiple(p, s)),
        same_point(affine_multiple(p, s), times(extend(p), naf_value(s) as nat)),
    decreases s.len(),
{
    let e = extend(p);
    lemma_extend_valid(p);
    lemma_identity_valid();
    if s.len() == 0 {
    } else {
        let front = s.drop_last();
        assert(s.take(s.len() as int) =~= s);
        assert forall|k: int| 1 <= k <= front.len() implies #[trigger] naf_value(front.take(k))
            >= 1 by {
            assert(front.take(k) =~= s.take(k));
        }
        lemma_multiple_is_times(p, front);
        let acc = affine_multiple(p, front);
        let v = naf_value(front) as nat;
        lemma_times_doubled(e, acc, v);
        let dbl = doubled(acc);
        match s.last() {
            Naf::Zero => {},
            Naf::Plus => {
                lemma_mixed_sum_valid(p, dbl);
                lemma_commutative(e, dbl);
                lemma_times_next(e, dbl, 2 * v);
            },
            Naf::Minus => {
                lemma_affine_negative_valid(p);
                lemma_mixed_sum_valid(affine_negative(p), dbl);
                lemma_commutative(extend(affine_negative(p)), dbl);
                lemma_negative_of_extend(p);
                if front.len() == 0 {
                    assert(naf_value(s) == -1);
                } else {
                    assert(front.take(front.len() as int) =~= front);
                    assert(s.take(front.len() as int) =~= front);
                }
                lemma_times_previous(e, dbl, 2 * v);
            },
        }
    }
}

/// The negative of an affine point in extended coordinates stands for the
/// same point as the negative of the point in extended coordinates.
proof fn lemma_negative_of_extend(p: AffinePoint)
    requires
        affine_valid(p),
    ensures
        extend(affine_negative(p)) == extended_negative(extend(p)),
{
    crate::curve::lemma_fneg_laws(p.x, p.y);
}

/// Scalar multiplication of an extended point over signed digits computes
/// the multiple by the integer that the digits stand for.
pub proof fn lemma_extended_multiple_is_times(p: ExtendedPoint, s: Seq<Naf>)
    requires
        extended_valid(p),
        positive_prefixes(s),
    ensures
        naf_value(s) >= 0,
        extended_valid(multiple(p, s)),
        same_point(multiple(p, s), times(p, naf_value(s) as nat)),
    decreases s.len(),
{
    lemma_identity_valid();
    if s.len() > 0 {
        let front = s.drop_last();
        assert(s.take(s.len() as int) =~= s);
        assert forall|k: int| 1 <= k <= front.len() implies #[trigger] naf_value(front.take(k))
            >= 1 by {
            assert(front.take(k) =~= s.take(k));
        }
        lemma_extended_multiple_is_times(p, front);
        let acc = multiple(p, front);
        let v = naf_value(front) as nat;
        lemma_times_doubled(p, acc, v);
        let dbl = doubled(acc);
        match s.last() {
            Naf::Zero => {},
            Naf::Plus => {
                lemma_times_next(p, dbl, 2 * v);
            },
            Naf::Minus => {
                if front.len() == 0 {
                    assert(naf_value(s) == -1);
                } else {
                    assert(front.take(front.len() as int) =~= front);
                    assert(s.take(front.len() as int) =~= front);
                }
                lemma_times_previous(p, dbl, 2 * v);
            },
        }
    }
}

/// The multiple of an extended point by a scalar, over the non-adjacent
/// form of the scalar, is the point added to itself that many times.
pub proof fn lemma_extended_scalar_multiple(p: ExtendedPoint, k: int)
    requires
        extended_valid(p),
        0 <= k < radix(),
    ensures
        extended_valid(multiple(p, naf_of(k))),
        same_point(multiple(p, naf_of(k)), times(p, k as nat)),
{
    crate::naf::lemma_naf_of(k);
    crate::naf::lemma_naf_prefixes_positive(k, naf_of(k));
    crate::naf::lemma_naf_value(k, naf_of(k));
    lemma_extended_multiple_is_times(p, naf_of(k));
}

/// The multiple of a point by a scalar, over the non-adjacent form of the
/// scalar, is the point added to itself that many times.
pub proof fn lemma_scalar_multiple(p: AffinePoint, k: int)
    requires
        affine_valid(p),
        0 <= k < radix(),
    ensures
        extended_valid(affine_multiple(p, naf_of(k))),
        same_point(affine_multiple(p, naf_of(k)), times(extend(p), k as nat)),
{
    crate::naf::lemma_naf_of(k);
    crate::naf::lemma_naf_prefixes_positive(k, naf_of(k));
    crate::naf::lemma_naf_value(k, naf_of(k));
    lemma_multiple_is_times(p, naf_of(k));
}

/// A multiple by a number that differs by the order of the point is the
/// same point: where the multiple by `n` is the neutral element, the
/// multiple by `a + n` is the multiple by `a`.
pub proof fn lemma_times_wraps(p: ExtendedPoint, a: nat, n: nat)
    requires
        extended_valid(p),
        same_point(times(p, n), extended_identity()),
    ensures
        same_point(times(p, a + n), times(p, a)),
{
    lemma_times_valid(p, a);
    lemma_times_valid(p, n);
    lemma_identity_valid();
    lemma_times_adds(p, a, n);
    lemma_sum_respects(times(p, a), times(p, n), times(p, a), extended_identity());
    lemma_extended_sum_identity(times(p, a));
}

/// Scalar multiplication is additive on the points whose order divides the
/// order `n` of the scalars: `P * (k + m) == P * k + P * m`, where the sum
/// of the scalars is taken modulo `n` and the multiple of `P` by `n` is the
/// neutral element.
pub proof fn lemma_scalar_homomorphism(p: AffinePoint, k: int, m: int, n: int)
    requires
        affine_valid(p),
        0 <= k < n,
        0 <= m < n,
        n < radix(),
        same_point(times(extend(p), n as nat), extended_identity()),
    ensures
        same_point(
            affine_multiple(p, naf_of(add_mod(k, m, n))),
            extended_sum(affine_multiple(p, naf_of(k)), affine_multiple(p, naf_of(m))),
        ),
{
    let e = extend(p);
    let s = add_mod(k, m, n);
    lemma_extend_valid(p);
    vstd::arithmetic::div_mod::lemma_mod_bound(k + m, n);
    lemma_scalar_multiple(p, k);
    lemma_scalar_multiple(p, m);
    lemma_scalar_multiple(p, s);
    lemma_times_valid(e, k as nat);
    lemma_times_valid(e, m as nat);
    // the sum of the multiples is the multiple by k + m
    let total = (k + m) as nat;
    let both = extended_sum(affine_multiple(p, naf_of(k)), affine_multiple(p, naf_of(m)));
    lemma_sum_respects(
        affine_multiple(p, naf_of(k)),
        affine_multiple(p, naf_of(m)),
        times(e, k as nat),
        times(e, m as nat),
    );
    lemma_times_adds(e, k as nat, m as nat);
    assert((k as nat) + (m as nat) == total);
    assert(same_point(both, times(e, total)));
    // and k + m is s or s + n
    if k + m < n {
        vstd::arithmetic::div_mod::lemma_small_mod(total, n as nat);
        assert(s == k + m);
    } else {
        crate::modular::lemma_mod_from_parts(k + m, n, 1, k + m - n);
        assert(s == k + m - n);
        lemma_times_wraps(e, s as nat, n as nat);
        assert((s as nat) + (n as nat) == total);
    }
    assert(same_point(times(e, s as nat), times(e, total)));
}

/// The multiple by one is the point.
pub proof fn lemma_times_one(p: ExtendedPoint)
    requires
        extended_valid(p),
    ensures
        same_point(p, times(p, 1)),
{
    lemma_identity_valid();
    lemma_commutative(extended_identity(), p);
    lemma_extended_sum_identity(p);
    assert(times(p, 1) == extended_sum(times(p, 0), p));
}

/// The multiples of the same point are the same points.
pub proof fn lemma_times_respects(p: ExtendedPoint, p2: ExtendedPoint, n: nat)
    requires
        extended_valid(p),
        extended_valid(p2),
        same_point(p, p2),
    ensures
        same_point(times(p, n), times(p2, n)),
    decreases n,
{
    if n > 0 {
        let c = (n - 1) as nat;
        lemma_times_respects(p, p2, c);
        lemma_times_valid(p, c);
        lemma_times_valid(p2, c);
        lemma_sum_respects(times(p, c), p, times(p2, c), p2);
    }
}

/// A multiple of a multiple is the multiple by the product.
pub proof fn lemma_times_times(p: ExtendedPoint, a: nat, b: nat)
    requires
        extended_valid(p),
    ensures
        same_point(times(times(p, a), b), times(p, a * b)),
    decreases b,
{
    lemma_times_valid(p, a);
    if b == 0 {
        assert(a * 0 == 0);
    } else {
        let c = (b - 1) as nat;
        lemma_times_times(p, a, c);
        lemma_times_valid(times(p, a), c);
        lemma_times_valid(p, a * c);
        lemma_sum_respects(times(times(p, a), c), times(p, a), times(p, a * c), times(p, a));
        lemma_times_adds(p, a * c, a);
        assert(a * c + a == a * b) by (nonlinear_arith)
            requires
                c == b - 1,
        ;
    }
}

/// The multiple by a number is the multiple by its residue modulo the
/// order of the point.
pub proof fn lemma_times_mod(p: ExtendedPoint, x: nat, n: nat)
    requires
        extended_valid(p),
        n > 0,
        same_point(times(p, n), extended_identity()),
    ensures
        same_point(times(p, x), times(p, x % n)),
    decreases x,
{
    if x >= n {
        let y = (x - n) as nat;
        lemma_times_mod(p, y, n);
        lemma_times_wraps(p, y, n);
        vstd::arithmetic::div_mod::lemma_mod_sub_multiples_vanish(x as int, n as int);
    } else {
        vstd::arithmetic::div_mod::lemma_small_mod(x, n);
    }
}

/// The multiple of a multiple by scalars: the multiple of `P * a`, in affine
/// form, by `b` is the multiple of `P` by `a b`.
pub proof fn lemma_scalar_multiple_twice(p: AffinePoint, a: int, b: int)
    requires
        affine_valid(p),
        0 <= a < radix(),
        0 <= b < radix(),
    ensures
        to_affine(affine_multiple(p, naf_of(a))) matches Some(pa) && affine_valid(pa)
            && extended_valid(affine_multiple(pa, naf_of(b))) && same_point(
            affine_multiple(pa, naf_of(b)),
            times(extend(p), (a * b) as nat),
        ),
{
    let e = extend(p);
    lemma_extend_valid(p);
    lemma_scalar_multiple(p, a);
    let big = affine_multiple(p, naf_of(a));
    let pa = crate::abelian::lemma_extend_of_affine_form(big);
    lemma_scalar_multiple(pa, b);
    lemma_times_valid(e, a as nat);
    lemma_times_respects(extend(pa), times(e, a as nat), b as nat);
    lemma_times_times(e, a as nat, b as nat);
    assert(a * b >= 0) by (nonlinear_arith)
        requires
            a >= 0,
            b >= 0,
    ;
}

} // verus!
