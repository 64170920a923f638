//! The non-adjacent form of a scalar: signed binary digits, no two
//! neighbours of which are both nonzero.
use vstd::prelude::*;
use vstd::arithmetic::div_mod::{
    lemma_div_denominator, lemma_fundamental_div_mod, lemma_fundamental_div_mod_converse,
    lemma_mod_breakdown, lemma_mod_bound, lemma_div_pos_is_pos,
};
use vstd::arithmetic::mul::lemma_mul_is_commutative;
use vstd::arithmetic::power2::{pow2, lemma2_to64, lemma_pow2_pos, lemma_pow2_unfold, lemma_pow2_adds};
use crate::bits::{bit_of, bit_at, lemma_no_high_bits, lemma_prefix_step};
use crate::limbs::limbs4;
use crate::modular::{radix, lemma_radix_is_pow2};

verus! {

/// One signed binary digit.
#[derive(Clone, Copy, PartialEq, Eq, Debug, Structural)]
pub enum Naf {
    Zero,
    Plus,
    Minus,
}

impl Naf {
    /// The integer that the digit stands for.
    pub open spec fn value(self) -> int {
        match self {
            Naf::Zero => 0,
            Naf::Plus => 1,
            Naf::Minus => -1,
        }
    }

    /// Whether the digit is zero.
    pub fn is_zero(&self) -> (r: bool)
        ensures
            r == (*self == Naf::Zero),
    {
        match self {
            Naf::Zero => true,
            _ => false,
        }
    }
}

/// The signed digit of weight `2^i` in the expansion of `2 * v` that the
/// non-adjacent form is read from: the binary digit of `3 * v` less the
/// binary digit of `v`.
pub open spec fn naf_digit(v: int, i: nat) -> int {
    bit_of(3 * v, i) - bit_of(v, i)
}

/// The carry into the digit of weight `2^i` when `v` is tripled digit by
/// digit from the low end.
pub open spec fn triple_carry(v: int, i: nat) -> int {
    (3 * (v % (pow2(i) as int))) / (pow2(i) as int)
}

/// `s` is the non-adjacent form of `v`, most significant digit first: its
/// digits are those of weight `2^len` down to `2^1`, the first one is not
/// zero, and every digit above it is zero.
pub open spec fn is_naf_of(v: int, s: Seq<Naf>) -> bool {
    &&& s.len() <= 257
    &&& forall|k: int| 0 <= k < s.len() ==> (#[trigger] s[k]).value() == naf_digit(v, (s.len() - k) as nat)
    &&& (s.len() > 0 ==> s[0] != Naf::Zero)
    &&& forall|i: nat| s.len() < i ==> #[trigger] naf_digit(v, i) == 0
}

/// The weight of the highest nonzero signed digit of `v` among those of
/// weight `2^i` and below, or zero when there is none.
pub open spec fn naf_top(v: int, i: nat) -> nat
    decreases i,
{
    if i == 0 {
        0
    } else if naf_digit(v, i) != 0 {
        i
    } else {
        naf_top(v, (i - 1) as nat)
    }
}

/// The digit that stands for an integer among -1, 0 and 1.
pub open spec fn digit_of(d: int) -> Naf {
    if d == 1 {
        Naf::Plus
    } else if d == -1 {
        Naf::Minus
    } else {
        Naf::Zero
    }
}

/// The non-adjacent form of a value of four limbs, most significant digit
/// first: the signed digits from the highest nonzero one down to the one of
/// weight `2^1`.
pub open spec fn naf_of(v: int) -> Seq<Naf> {
    let len = naf_top(v, 257);
    Seq::new(len, |k: int| digit_of(naf_digit(v, (len - k) as nat)))
}

/// Where the highest nonzero digit is, the search from above finds it.
proof fn lemma_naf_top(v: int, len: nat, i: nat)
    requires
        len <= i,
        len > 0 ==> naf_digit(v, len) != 0,
        forall|j: nat| len < j ==> #[trigger] naf_digit(v, j) == 0,
    ensures
        naf_top(v, i) == len,
    decreases i,
{
    if i > len {
        lemma_naf_top(v, len, (i - 1) as nat);
    }
}

/// A value has one non-adjacent form.
pub proof fn lemma_naf_unique(v: int, s: Seq<Naf>)
    requires
        is_naf_of(v, s),
    ensures
        s == naf_of(v),
{
    if s.len() > 0 {
        assert(s[0].value() == naf_digit(v, s.len()));
    }
    lemma_naf_top(v, s.len(), 257);
    assert forall|k: int| 0 <= k < s.len() implies s[k] == naf_of(v)[k] by {
        assert(s[k].value() == naf_digit(v, (s.len() - k) as nat));
    }
    assert(s =~= naf_of(v));
}

/// Tripling digit by digit: the digit of `3 * v` and the next carry come
/// from the digit of `v` and the carry so far.
pub proof fn lemma_triple_step(v: int, i: nat)
    requires
        0 <= v,
    ensures
        0 <= triple_carry(v, i) <= 2,
        0 <= bit_of(v, i) <= 1,
        bit_of(3 * v, i) == (3 * bit_of(v, i) + triple_carry(v, i)) % 2,
        triple_carry(v, i + 1) == (3 * bit_of(v, i) + triple_carry(v, i)) / 2,
{
    let p = pow2(i) as int;
    lemma_pow2_pos(i);
    lemma_pow2_unfold(i + 1);
    let hi = v / p;
    let lo = v % p;
    lemma_fundamental_div_mod(v, p);
    lemma_mod_bound(v, p);
    lemma_div_pos_is_pos(v, p);
    let b = hi % 2;
    let c = (3 * lo) / p;
    let rest = (3 * lo) % p;
    lemma_fundamental_div_mod(3 * lo, p);
    lemma_mod_bound(3 * lo, p);
    assert(0 <= c <= 2) by (nonlinear_arith)
        requires
            3 * lo == p * c + rest,
            0 <= rest < p,
            0 <= lo < p,
    ;
    // 3 * v == p * (3 * hi + c) + rest
    assert(3 * v == (3 * hi + c) * p + rest) by (nonlinear_arith)
        requires
            v == p * hi + lo,
            3 * lo == p * c + rest,
    ;
    lemma_fundamental_div_mod_converse(3 * v, p, 3 * hi + c, rest);
    // the next carry
    lemma_mod_breakdown(v, p, 2);
    lemma_mul_is_commutative(p, 2);
    let lo2 = v % (2 * p);
    assert(lo2 == p * b + lo);
    assert(3 * lo2 == (3 * b + c) * p + rest) by (nonlinear_arith)
        requires
            lo2 == p * b + lo,
            3 * lo == p * c + rest,
    ;
    lemma_fundamental_div_mod_converse(3 * lo2, p, 3 * b + c, rest);
    lemma_div_denominator(3 * lo2, p, 2);
}

/// Nothing is carried into the lowest digit, and the lowest signed digit is
/// zero.
pub proof fn lemma_triple_start(v: int)
    requires
        0 <= v,
    ensures
        triple_carry(v, 0) == 0,
        naf_digit(v, 0) == 0,
{
    lemma2_to64();
    lemma_triple_step(v, 0);
    let p = pow2(0) as int;
    assert(v % p == 0 && (3 * (v % p)) / p == 0) by (nonlinear_arith)
        requires
            p == 1,
    ;
}

/// No two neighbouring signed digits are both nonzero.
pub proof fn lemma_naf_nonadjacent(v: int, i: nat)
    requires
        0 <= v,
    ensures
        naf_digit(v, i) == 0 || naf_digit(v, i + 1) == 0,
        -1 <= naf_digit(v, i) <= 1,
{
    lemma_triple_step(v, i);
    lemma_triple_step(v, i + 1);
}

/// A value of four limbs has no signed digits of weight `2^258` or more.
pub proof fn lemma_naf_digits_end(v: int, i: nat)
    requires
        0 <= v < radix(),
        258 <= i,
    ensures
        naf_digit(v, i) == 0,
{
    lemma_radix_is_pow2();
    vstd::arithmetic::power2::lemma_pow2(256);
    lemma_pow2_adds(256, 2);
    lemma2_to64();
    lemma_no_high_bits(v, 258, i);
    lemma_no_high_bits(3 * v, 258, i);
}

/// The integer that a sequence of signed digits stands for, most
/// significant digit first.
pub open spec fn naf_value(s: Seq<Naf>) -> int
    decreases s.len(),
{
    if s.len() == 0 {
        0
    } else {
        2 * naf_value(s.drop_last()) + s.last().value()
    }
}

/// What the signed digits of weight `2^j` and up stand for, in units of
/// `2^j`: the binary digits of `3 v` from `j` up less those of `v`.
pub open spec fn naf_tail(v: int, j: nat) -> int {
    (3 * v) / (pow2(j) as int) - v / (pow2(j) as int)
}

/// The tail at `j` is twice the tail above it and the digit at `j`.
proof fn lemma_naf_tail_step(v: int, j: nat)
    requires
        0 <= v,
    ensures
        naf_tail(v, j) == 2 * naf_tail(v, j + 1) + naf_digit(v, j),
{
    lemma_prefix_step(3 * v, j);
    lemma_prefix_step(v, j);
}

/// Above the highest nonzero digit the tail is zero.
proof fn lemma_naf_tail_zero(v: int, len: nat, j: nat)
    requires
        0 <= v < radix(),
        len < j,
        forall|i: nat| len < i ==> #[trigger] naf_digit(v, i) == 0,
    ensures
        naf_tail(v, j) == 0,
    decreases 258 - j,
{
    if j >= 258 {
        lemma_radix_is_pow2();
        vstd::arithmetic::power2::lemma_pow2(256);
        lemma_pow2_adds(256, 2);
        lemma2_to64();
        lemma_no_high_bits(v, 258, j);
        lemma_no_high_bits(3 * v, 258, j);
    } else {
        lemma_naf_tail_zero(v, len, j + 1);
        lemma_naf_tail_step(v, j);
    }
}

/// The first `k` digits of the non-adjacent form stand for the tail at the
/// weight of the last of them.
proof fn lemma_naf_prefix_value(v: int, s: Seq<Naf>, k: nat)
    requires
        0 <= v < radix(),
        is_naf_of(v, s),
        k <= s.len(),
    ensures
        naf_value(s.take(k as int)) == naf_tail(v, (s.len() - k + 1) as nat),
    decreases k,
{
    if k == 0 {
        lemma_naf_tail_zero(v, s.len(), s.len() + 1);
    } else {
        lemma_naf_prefix_value(v, s, (k - 1) as nat);
        let t = s.take(k as int);
        assert(t.drop_last() =~= s.take(k - 1));
        assert(t.last() == s[k - 1]);
        lemma_naf_tail_step(v, (s.len() - k + 1) as nat);
    }
}

/// The tail at a weight from one up to that of the highest nonzero digit
/// is positive.
proof fn lemma_naf_tail_positive(v: int, len: nat, j: nat)
    requires
        0 <= v < radix(),
        1 <= j <= len,
        naf_digit(v, len) != 0,
        forall|i: nat| len < i ==> #[trigger] naf_digit(v, i) == 0,
    ensures
        naf_tail(v, j) >= 1,
    decreases len - j,
{
    lemma_naf_tail_step(v, j);
    lemma_naf_nonadjacent(v, j);
    if j == len {
        lemma_naf_tail_zero(v, len, len + 1);
        lemma_pow2_pos(j);
        vstd::arithmetic::div_mod::lemma_div_is_ordered(v, 3 * v, pow2(j) as int);
    } else {
        lemma_naf_tail_positive(v, len, j + 1);
    }
}

/// Every prefix of the non-adjacent form of a value, but the empty one,
/// stands for a positive integer.
pub proof fn lemma_naf_prefixes_positive(v: int, s: Seq<Naf>)
    requires
        0 <= v < radix(),
        is_naf_of(v, s),
    ensures
        forall|k: int| 1 <= k <= s.len() ==> #[trigger] naf_value(s.take(k)) >= 1,
{
    assert forall|k: int| 1 <= k <= s.len() implies #[trigger] naf_value(s.take(k)) >= 1 by {
        lemma_naf_prefix_value(v, s, k as nat);
        assert(s[0].value() == naf_digit(v, s.len()));
        lemma_naf_tail_positive(v, s.len(), (s.len() - k + 1) as nat);
    }
}

/// The non-adjacent form of a value is a non-adjacent form of it.
pub proof fn lemma_naf_of(v: int)
    requires
        0 <= v < radix(),
    ensures
        is_naf_of(v, naf_of(v)),
{
    let len = naf_top(v, 257);
    let s = naf_of(v);
    lemma_naf_top_is_top(v, 257);
    assert forall|k: int| 0 <= k < s.len() implies (#[trigger] s[k]).value() == naf_digit(
        v,
        (s.len() - k) as nat,
    ) by {
        lemma_naf_nonadjacent(v, (s.len() - k) as nat);
    }
    assert forall|i: nat| s.len() < i implies #[trigger] naf_digit(v, i) == 0 by {
        if i >= 258 {
            lemma_naf_digits_end(v, i);
        }
    }
    if s.len() > 0 {
        lemma_naf_nonadjacent(v, len);
    }
}

/// What the search for the highest nonzero digit finds: a weight at which
/// the digit is not zero, above which every digit up to the start is zero;
/// or zero.
proof fn lemma_naf_top_is_top(v: int, i: nat)
    ensures
        naf_top(v, i) <= i,
        naf_top(v, i) > 0 ==> naf_digit(v, naf_top(v, i)) != 0,
        forall|j: nat| naf_top(v, i) < j <= i ==> #[trigger] naf_digit(v, j) == 0,
    decreases i,
{
    if i > 0 && naf_digit(v, i) == 0 {
        lemma_naf_top_is_top(v, (i - 1) as nat);
    }
}

/// The non-adjacent form of a value stands for the value.
pub proof fn lemma_naf_value(v: int, s: Seq<Naf>)
    requires
        0 <= v < radix(),
        is_naf_of(v, s),
    ensures
        naf_value(s) == v,
{
    lemma_naf_prefix_value(v, s, s.len());
    assert(s.take(s.len() as int) =~= s);
    lemma2_to64();
}

/// No two neighbours in the non-adjacent form of a value are both nonzero.
pub proof fn lemma_naf_is_nonadjacent(v: int, s: Seq<Naf>)
    requires
        0 <= v,
        is_naf_of(v, s),
    ensures
        forall|k: int| 0 <= k < s.len() - 1 ==> s[k] == Naf::Zero || #[trigger] s[k + 1] == Naf::Zero,
{
    assert forall|k: int| 0 <= k < s.len() - 1 implies s[k] == Naf::Zero || #[trigger] s[k + 1]
        == Naf::Zero by {
        lemma_naf_nonadjacent(v, (s.len() - k - 1) as nat);
        assert(s[k].value() == naf_digit(v, (s.len() - k) as nat));
        assert(s[k + 1].value() == naf_digit(v, (s.len() - (k + 1)) as nat));
    }
}

/// The non-adjacent form of a four-limb value, most significant digit first.
pub fn to_nafs(val: [u64; 4]) -> (nafs: Vec<Naf>)
    ensures
        is_naf_of(limbs4(val), nafs@),
        nafs@ == naf_of(limbs4(val)),
        naf_value(nafs@) == limbs4(val),
        forall|k: int|
            0 <= k < nafs@.len() - 1 ==> nafs@[k] == Naf::Zero || #[trigger] nafs@[k + 1] == Naf::Zero,
{
    let ghost v = limbs4(val);
    proof {
        crate::limbs::lemma_limbs_unique(val);
    }
    let mut digits: Vec<Naf> = Vec::new();
    let mut carry: u8 = 0;
    let mut i: usize = 0;
    proof {
        lemma_triple_start(v);
    }
    while i < 258
        invariant
            i <= 258,
            v == limbs4(val),
            digits@.len() == i,
            carry == triple_carry(v, i as nat),
            forall|k: int| 0 <= k < i ==> (#[trigger] digits@[k]).value() == naf_digit(v, k as nat),
        decreases 258 - i,
    {
        let bit: u8 = if i < 256 {
            bit_at(&val, i)
        } else {
            0
        };
        proof {
            lemma_triple_step(v, i as nat);
            if i >= 256 {
                lemma_radix_is_pow2();
                vstd::arithmetic::power2::lemma_pow2(256);
                lemma_no_high_bits(v, 256, i as nat);
            }
        }
        let sum: u8 = 3 * bit + carry;
        let tripled: u8 = sum % 2;
        carry = sum / 2;
        let digit = if tripled == bit {
            Naf::Zero
        } else if tripled == 1 {
            Naf::Plus
        } else {
            Naf::Minus
        };
        digits.push(digit);
        i += 1;
    }
    let mut top: usize = 258;
    while top > 0 && digits[top - 1].is_zero()
        invariant
            top <= 258,
            digits@.len() == 258,
            forall|k: int| top <= k < 258 ==> digits@[k] == Naf::Zero,
        decreases top,
    {
        top -= 1;
    }
    let mut nafs: Vec<Naf> = Vec::new();
    if top == 0 {
        proof {
            assert forall|j: nat| 0 < j implies #[trigger] naf_digit(v, j) == 0 by {
                if j >= 258 {
                    lemma_naf_digits_end(v, j);
                } else {
                    assert(digits@[j as int].value() == naf_digit(v, j));
                }
            }
            lemma_naf_unique(v, nafs@);
            lemma_naf_value(v, nafs@);
        }
        return nafs;
    }
    proof {
        lemma_triple_start(v);
        assert(digits@[0].value() == naf_digit(v, 0));
    }
    let len: usize = top - 1;
    let mut k: usize = 0;
    while k < len
        invariant
            k <= len,
            len == top - 1,
            0 < top <= 258,
            digits@.len() == 258,
            nafs@.len() == k,
            forall|j: int| 0 <= j < k ==> nafs@[j] == digits@[len - j],
        decreases len - k,
    {
        nafs.push(digits[len - k]);
        k += 1;
    }
    proof {
        assert forall|j: int| 0 <= j < nafs@.len() implies (#[trigger] nafs@[j]).value() == naf_digit(
            v,
            (nafs@.len() - j) as nat,
        ) by {
            assert(digits@[len - j].value() == naf_digit(v, (len - j) as nat));
        }
        assert forall|j: nat| nafs@.len() < j implies #[trigger] naf_digit(v, j) == 0 by {
            if j >= 258 {
                lemma_naf_digits_end(v, j);
            } else {
                assert(digits@[j as int].value() == naf_digit(v, j));
            }
        }
        lemma_naf_unique(v, nafs@);
        lemma_naf_value(v, nafs@);
        lemma_naf_is_nonadjacent(v, nafs@);
    }
    nafs
}

} // verus!
