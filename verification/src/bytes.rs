//! Little-endian byte strings and the integers they stand for.
use vstd::prelude::*;
use crate::limbs::limbs4;

verus! {

/// The integer that the eight bytes of word `k` of a byte string stand for,
/// least significant byte first.
pub open spec fn le_word(s: Seq<u8>, k: int) -> int {
    s[8 * k] + s[8 * k + 1] * 0x100 + s[8 * k + 2] * 0x1_0000 + s[8 * k + 3] * 0x100_0000 + s[8 * k
        + 4] * 0x1_0000_0000 + s[8 * k + 5] * 0x100_0000_0000 + s[8 * k + 6] * 0x1_0000_0000_0000
        + s[8 * k + 7] * 0x100_0000_0000_0000
}

/// The integer that the first 32 bytes of a byte string stand for, least
/// significant byte first.
pub open spec fn le_value(s: Seq<u8>) -> int {
    le_word(s, 0) + le_word(s, 1) * 0x1_0000_0000_0000_0000int + le_word(s, 2)
        * 0x1_0000_0000_0000_0000_0000_0000_0000_0000int + le_word(s, 3)
        * 0x1_0000_0000_0000_0000_0000_0000_0000_0000_0000_0000_0000_0000int
}

/// The integer that bytes 32 to 63 of a byte string stand for.
pub open spec fn le_value_high(s: Seq<u8>) -> int {
    le_word(s, 4) + le_word(s, 5) * 0x1_0000_0000_0000_0000int + le_word(s, 6)
        * 0x1_0000_0000_0000_0000_0000_0000_0000_0000int + le_word(s, 7)
        * 0x1_0000_0000_0000_0000_0000_0000_0000_0000_0000_0000_0000_0000int
}

/// The integer that the first 64 bytes of a byte string stand for, least
/// significant byte first.
pub open spec fn le_value_wide(s: Seq<u8>) -> int {
    le_value(s) + le_value_high(s)
        * 0x1_0000_0000_0000_0000_0000_0000_0000_0000_0000_0000_0000_0000_0000_0000_0000_0000int
}

/// The 32 bytes that stand for an integer below `2^256`, least significant
/// byte first.
pub open spec fn le_bytes(n: int) -> Seq<u8> {
    choose|s: Seq<u8>| s.len() == 32 && le_value(s) == n
}

/// A lowest digit below 256 and the rest are determined by their sum.
proof fn lemma_peel_byte(a0: int, a: int, b0: int, b: int)
    requires
        0 <= a0 < 0x100,
        0 <= b0 < 0x100,
        a0 + 0x100 * a == b0 + 0x100 * b,
    ensures
        a0 == b0,
        a == b,
{
}

/// A lowest digit below the word size and the rest are determined by their
/// sum.
proof fn lemma_peel_word(a0: int, a: int, b0: int, b: int)
    requires
        0 <= a0 < 0x1_0000_0000_0000_0000,
        0 <= b0 < 0x1_0000_0000_0000_0000,
        a0 + 0x1_0000_0000_0000_0000 * a == b0 + 0x1_0000_0000_0000_0000 * b,
    ensures
        a0 == b0,
        a == b,
{
}

/// Eight bytes are determined by the integer they stand for.
proof fn lemma_le_word_injective(s1: Seq<u8>, s2: Seq<u8>, k: int)
    requires
        0 <= k,
        8 * k + 8 <= s1.len(),
        8 * k + 8 <= s2.len(),
        le_word(s1, k) == le_word(s2, k),
    ensures
        forall|j: int| 8 * k <= j < 8 * k + 8 ==> s1[j] == s2[j],
{
    let i = 8 * k;
    let a6 = s1[i + 6] + 0x100 * s1[i + 7];
    let a5 = s1[i + 5] + 0x100 * a6;
    let a4 = s1[i + 4] + 0x100 * a5;
    let a3 = s1[i + 3] + 0x100 * a4;
    let a2 = s1[i + 2] + 0x100 * a3;
    let a1 = s1[i + 1] + 0x100 * a2;
    let b6 = s2[i + 6] + 0x100 * s2[i + 7];
    let b5 = s2[i + 5] + 0x100 * b6;
    let b4 = s2[i + 4] + 0x100 * b5;
    let b3 = s2[i + 3] + 0x100 * b4;
    let b2 = s2[i + 2] + 0x100 * b3;
    let b1 = s2[i + 1] + 0x100 * b2;
    assert(le_word(s1, k) == s1[i] + 0x100 * a1);
    assert(le_word(s2, k) == s2[i] + 0x100 * b1);
    lemma_peel_byte(s1[i] as int, a1, s2[i] as int, b1);
    lemma_peel_byte(s1[i + 1] as int, a2, s2[i + 1] as int, b2);
    lemma_peel_byte(s1[i + 2] as int, a3, s2[i + 2] as int, b3);
    lemma_peel_byte(s1[i + 3] as int, a4, s2[i + 3] as int, b4);
    lemma_peel_byte(s1[i + 4] as int, a5, s2[i + 4] as int, b5);
    lemma_peel_byte(s1[i + 5] as int, a6, s2[i + 5] as int, b6);
    lemma_peel_byte(s1[i + 6] as int, s1[i + 7] as int, s2[i + 6] as int, s2[i + 7] as int);
}

/// Thirty-two bytes are determined by the integer they stand for.
pub proof fn lemma_le_value_injective(s1: Seq<u8>, s2: Seq<u8>)
    requires
        s1.len() == 32,
        s2.len() == 32,
        le_value(s1) == le_value(s2),
    ensures
        s1 == s2,
{
    let (a0, a1, a2, a3) = (le_word(s1, 0), le_word(s1, 1), le_word(s1, 2), le_word(s1, 3));
    let (b0, b1, b2, b3) = (le_word(s2, 0), le_word(s2, 1), le_word(s2, 2), le_word(s2, 3));
    let x2 = a2 + 0x1_0000_0000_0000_0000 * a3;
    let x1 = a1 + 0x1_0000_0000_0000_0000 * x2;
    let y2 = b2 + 0x1_0000_0000_0000_0000 * b3;
    let y1 = b1 + 0x1_0000_0000_0000_0000 * y2;
    assert(le_value(s1) == a0 + 0x1_0000_0000_0000_0000 * x1);
    assert(le_value(s2) == b0 + 0x1_0000_0000_0000_0000 * y1);
    lemma_peel_word(a0, x1, b0, y1);
    lemma_peel_word(a1, x2, b1, y2);
    lemma_peel_word(a2, a3, b2, b3);
    lemma_le_word_injective(s1, s2, 0);
    lemma_le_word_injective(s1, s2, 1);
    lemma_le_word_injective(s1, s2, 2);
    lemma_le_word_injective(s1, s2, 3);
    assert(s1 =~= s2);
}

/// The eight bytes of a word, as a sequence: they stand for the word.
proof fn lemma_word_has_bytes(x: int) -> (s: Seq<u8>)
    requires
        0 <= x < 0x1_0000_0000_0000_0000,
    ensures
        s.len() == 8,
        le_word(s, 0) == x,
{
    let r1 = x / 0x100;
    let r2 = r1 / 0x100;
    let r3 = r2 / 0x100;
    let r4 = r3 / 0x100;
    let r5 = r4 / 0x100;
    let r6 = r5 / 0x100;
    let r7 = r6 / 0x100;
    assert(r7 < 0x100);
    let s = seq![
        (x % 0x100) as u8,
        (r1 % 0x100) as u8,
        (r2 % 0x100) as u8,
        (r3 % 0x100) as u8,
        (r4 % 0x100) as u8,
        (r5 % 0x100) as u8,
        (r6 % 0x100) as u8,
        r7 as u8,
    ];
    assert(s[0] == x % 0x100 && s[1] == r1 % 0x100 && s[2] == r2 % 0x100 && s[3] == r3 % 0x100);
    assert(s[4] == r4 % 0x100 && s[5] == r5 % 0x100 && s[6] == r6 % 0x100 && s[7] == r7);
    assert(r6 == s[6] + 0x100 * s[7]);
    assert(r5 == s[5] + 0x100 * r6);
    assert(r4 == s[4] + 0x100 * r5);
    assert(r3 == s[3] + 0x100 * r4);
    assert(r2 == s[2] + 0x100 * r3);
    assert(r1 == s[1] + 0x100 * r2);
    assert(x == s[0] + 0x100 * r1);
    s
}

/// The bytes of an integer below `2^256` are 32 bytes that stand for it.
pub proof fn lemma_le_bytes_value(n: int)
    requires
        0 <= n < 0x1_0000_0000_0000_0000_0000_0000_0000_0000_0000_0000_0000_0000_0000_0000_0000_0000int,
    ensures
        le_bytes(n).len() == 32,
        le_value(le_bytes(n)) == n,
{
    let w0 = n % 0x1_0000_0000_0000_0000int;
    let w1 = (n / 0x1_0000_0000_0000_0000int) % 0x1_0000_0000_0000_0000int;
    let w2 = (n / 0x1_0000_0000_0000_0000_0000_0000_0000_0000int) % 0x1_0000_0000_0000_0000int;
    let w3 = n / 0x1_0000_0000_0000_0000_0000_0000_0000_0000_0000_0000_0000_0000int;
    assert(n == w0 + w1 * 0x1_0000_0000_0000_0000int + w2
        * 0x1_0000_0000_0000_0000_0000_0000_0000_0000int + w3
        * 0x1_0000_0000_0000_0000_0000_0000_0000_0000_0000_0000_0000_0000int);
    let s0 = lemma_word_has_bytes(w0);
    let s1 = lemma_word_has_bytes(w1);
    let s2 = lemma_word_has_bytes(w2);
    let s3 = lemma_word_has_bytes(w3);
    let s = s0 + s1 + s2 + s3;
    assert(s.len() == 32);
    assert forall|i: int| 0 <= i < 8 implies s[i] == s0[i] && s[8 + i] == s1[i] && s[16 + i] == s2[i]
        && s[24 + i] == s3[i] by {}
    assert(le_word(s, 0) == w0);
    assert(le_word(s, 1) == w1);
    assert(le_word(s, 2) == w2);
    assert(le_word(s, 3) == w3);
    assert(le_value(s) == n);
}

/// Thirty-two bytes that stand for `n` are the bytes of `n`.
pub proof fn lemma_le_bytes(s: Seq<u8>, n: int)
    requires
        s.len() == 32,
        le_value(s) == n,
    ensures
        s == le_bytes(n),
{
    lemma_le_value_injective(s, le_bytes(n));
}

/// Replacing the last of 32 bytes changes the integer they stand for by the
/// difference of the bytes at the weight of the last byte.
pub proof fn lemma_replace_last_byte(s: Seq<u8>, b: u8)
    requires
        s.len() == 32,
    ensures
        le_value(s.update(31, b)) == le_value(s) + (b - s[31])
            * 0x100_0000_0000_0000_0000_0000_0000_0000_0000_0000_0000_0000_0000_0000_0000_0000int,
{
    let t = s.update(31, b);
    assert(le_word(t, 0) == le_word(s, 0));
    assert(le_word(t, 1) == le_word(s, 1));
    assert(le_word(t, 2) == le_word(s, 2));
    assert(le_word(t, 3) == le_word(s, 3) + (b - s[31]) * 0x100_0000_0000_0000);
}

/// The parity of the integer that 32 bytes stand for is the parity of the
/// first byte, and an integer below `2^255` leaves the top bit of the last
/// byte clear.
pub proof fn lemma_first_and_last_byte(s: Seq<u8>)
    requires
        s.len() == 32,
    ensures
        le_value(s) % 2 == s[0] % 2,
        le_value(s) < 0x8000_0000_0000_0000_0000_0000_0000_0000_0000_0000_0000_0000_0000_0000_0000_0000int
            ==> s[31] < 128,
{
    let rest = le_value(s) - s[0];
    assert(rest == 2 * (rest / 2)) by {
        assert(le_word(s, 0) - s[0] == 2 * ((le_word(s, 0) - s[0]) / 2));
    }
    let low = le_value(s) - s[31]
        * 0x100_0000_0000_0000_0000_0000_0000_0000_0000_0000_0000_0000_0000_0000_0000_0000int;
    assert(low >= 0);
}

/// Thirty-two bytes whose last is below 128 stand for an integer below
/// `2^255`, and none stands for a negative one.
pub proof fn lemma_value_below(s: Seq<u8>)
    requires
        s.len() == 32,
    ensures
        0 <= le_value(s),
        s[31] < 128 ==> le_value(s)
            < 0x8000_0000_0000_0000_0000_0000_0000_0000_0000_0000_0000_0000_0000_0000_0000_0000int,
{
    assert(0 <= le_word(s, 0) < 0x1_0000_0000_0000_0000);
    assert(0 <= le_word(s, 1) < 0x1_0000_0000_0000_0000);
    assert(0 <= le_word(s, 2) < 0x1_0000_0000_0000_0000);
    assert(0 <= le_word(s, 3) < 0x1_0000_0000_0000_0000);
    if s[31] < 128 {
        assert(le_word(s, 3) < 0x8000_0000_0000_0000);
    }
}

/// Reads word `k` of a byte string.
pub fn load_word(bytes: &[u8], k: usize) -> (r: u64)
    requires
        k < 8,
        8 * k + 8 <= bytes@.len(),
    ensures
        r == le_word(bytes@, k as int),
{
    let b0 = bytes[8 * k] as u64;
    let b1 = bytes[8 * k + 1] as u64;
    let b2 = bytes[8 * k + 2] as u64;
    let b3 = bytes[8 * k + 3] as u64;
    let b4 = bytes[8 * k + 4] as u64;
    let b5 = bytes[8 * k + 5] as u64;
    let b6 = bytes[8 * k + 6] as u64;
    let b7 = bytes[8 * k + 7] as u64;
    let r = b0 | b1 << 8 | b2 << 16 | b3 << 24 | b4 << 32 | b5 << 40 | b6 << 48 | b7 << 56;
    assert(r == b0 + b1 * 0x100 + b2 * 0x1_0000 + b3 * 0x100_0000 + b4 * 0x1_0000_0000 + b5
        * 0x100_0000_0000 + b6 * 0x1_0000_0000_0000 + b7 * 0x100_0000_0000_0000) by (bit_vector)
        requires
            r == b0 | b1 << 8 | b2 << 16 | b3 << 24 | b4 << 32 | b5 << 40 | b6 << 48 | b7 << 56,
            b0 < 256,
            b1 < 256,
            b2 < 256,
            b3 < 256,
            b4 < 256,
            b5 < 256,
            b6 < 256,
            b7 < 256,
    ;
    r
}

/// The four words of a 32-byte string.
pub fn load_limbs(bytes: &[u8], k: usize) -> (r: [u64; 4])
    requires
        k <= 4,
        8 * k + 32 <= bytes@.len(),
    ensures
        r[0] == le_word(bytes@, k as int),
        r[1] == le_word(bytes@, k + 1),
        r[2] == le_word(bytes@, k + 2),
        r[3] == le_word(bytes@, k + 3),
{
    [load_word(bytes, k), load_word(bytes, k + 1), load_word(bytes, k + 2), load_word(bytes, k + 3)]
}

/// The byte of weight `256^j` of a word, for `j` below eight.
fn byte_at(x: u64, j: u32) -> (r: u8)
    requires
        j < 8,
    ensures
        r == (x >> ((8 * j) as u64)) & 0xff,
{
    let shifted = x >> (8 * j);
    let low = shifted & 0xff;
    assert(low < 256) by (bit_vector)
        requires
            low == shifted & 0xff,
    ;
    low as u8
}

/// The eight bytes of a word, least significant first.
pub fn word_bytes(x: u64) -> (r: [u8; 8])
    ensures
        x == r[0] + r[1] * 0x100 + r[2] * 0x1_0000 + r[3] * 0x100_0000 + r[4] * 0x1_0000_0000 + r[5]
            * 0x100_0000_0000 + r[6] * 0x1_0000_0000_0000 + r[7] * 0x100_0000_0000_0000,
{
    let b0 = byte_at(x, 0);
    let b1 = byte_at(x, 1);
    let b2 = byte_at(x, 2);
    let b3 = byte_at(x, 3);
    let b4 = byte_at(x, 4);
    let b5 = byte_at(x, 5);
    let b6 = byte_at(x, 6);
    let b7 = byte_at(x, 7);
    assert(x == b0 + b1 * 0x100 + b2 * 0x1_0000 + b3 * 0x100_0000 + b4 * 0x1_0000_0000 + b5
        * 0x100_0000_0000 + b6 * 0x1_0000_0000_0000 + b7 * 0x100_0000_0000_0000) by (bit_vector)
        requires
            b0 == (x >> 0u64) & 0xff,
            b1 == (x >> 8u64) & 0xff,
            b2 == (x >> 16u64) & 0xff,
            b3 == (x >> 24u64) & 0xff,
            b4 == (x >> 32u64) & 0xff,
            b5 == (x >> 40u64) & 0xff,
            b6 == (x >> 48u64) & 0xff,
            b7 == (x >> 56u64) & 0xff,
    ;
    [b0, b1, b2, b3, b4, b5, b6, b7]
}

/// The 32 bytes of a four-limb value, least significant first.
pub fn limbs_bytes(a: [u64; 4]) -> (r: [u8; 32])
    ensures
        le_value(r@) == limbs4(a),
        r@ == le_bytes(limbs4(a)),
{
    let w0 = word_bytes(a[0]);
    let w1 = word_bytes(a[1]);
    let w2 = word_bytes(a[2]);
    let w3 = word_bytes(a[3]);
    let r = [
        w0[0], w0[1], w0[2], w0[3], w0[4], w0[5], w0[6], w0[7],
        w1[0], w1[1], w1[2], w1[3], w1[4], w1[5], w1[6], w1[7],
        w2[0], w2[1], w2[2], w2[3], w2[4], w2[5], w2[6], w2[7],
        w3[0], w3[1], w3[2], w3[3], w3[4], w3[5], w3[6], w3[7],
    ];
    proof {
        lemma_le_bytes(r@, limbs4(a));
    }
    r
}

} // verus!
