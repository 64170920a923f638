//! Certificates of primality for the primes below the field characteristics:
//! for each prime a primitive root, found from the factors of the prime less
//! one, which are certified before it.
use vstd::prelude::*;
use vstd::arithmetic::div_mod::lemma_small_mod;
use crate::modular::pow_mod;
use crate::primes::{
    is_prime, is_primitive_root, refutes, lemma_chain_multiply, lemma_chain_rebase,
    lemma_chain_square, lemma_chain_start, lemma_euclid, lemma_lucas, lemma_root_gives_prime,
    lemma_two_is_prime,
};

verus! {

/// A power of the root 2 modulo 3.
proof fn lemma_power_3_1()
    ensures
        pow_mod(2, 1, 3) == 2,
{
    let p = 3;
    let g = 2;
    lemma_chain_start(p, g);
    let e: nat = 0;
    let e = lemma_chain_square(p, g, e, 1, 0, 1);
    let e = lemma_chain_multiply(p, g, e, 1, 0, 2);
}

/// A power of a power of the root 2 modulo 3.
proof fn lemma_power_3_2()
    ensures
        pow_mod(2, 2, 3) == 1,
{
    let p = 3;
    let g = 2;
    lemma_chain_start(p, g);
    let e: nat = 0;
    let e = lemma_chain_square(p, g, e, 1, 0, 1);
    let e = lemma_chain_multiply(p, g, e, 1, 0, 2);
    let e = lemma_chain_square(p, g, e, 2, 1, 1);
}

/// 2 is a primitive root modulo 3.
pub proof fn lemma_root_3()
    ensures
        is_primitive_root(2, 3),
{
    let p = 3;
    let g = 2;
    lemma_power_3_1();
    lemma_power_3_2();
    lemma_chain_rebase(p, g, 1, 2, 2, 1);
    lemma_two_is_prime();
    assert forall|m: int| m >= 2 && #[trigger] (2int % m) == 0 implies exists|f: int| #[trigger]
        refutes(2, 2, 3, m, f) by {
        lemma_euclid(m, 2, 1);
        if m % 2 == 0 {
            assert(refutes(2, 2, 3, m, 2));
        } else {
            lemma_small_mod(1, m as nat);
        }
    }
    lemma_lucas(3, 2, 2);
}

/// 3 is prime.
pub proof fn lemma_prime_3()
    ensures
        is_prime(3),
{
    lemma_root_3();
    lemma_root_gives_prime(2, 3);
}

/// A power of the root 2 modulo 5.
proof fn lemma_power_5_1()
    ensures
        pow_mod(2, 2, 5) == 4,
{
    let p = 5;
    let g = 2;
    lemma_chain_start(p, g);
    let e: nat = 0;
    let e = lemma_chain_square(p, g, e, 1, 0, 1);
    let e = lemma_chain_multiply(p, g, e, 1, 0, 2);
    let e = lemma_chain_square(p, g, e, 2, 0, 4);
}

/// A power of a power of the root 2 modulo 5.
proof fn lemma_power_5_2()
    ensures
        pow_mod(4, 2, 5) == 1,
{
    let p = 5;
    let g = 4;
    lemma_chain_start(p, g);
    let e: nat = 0;
    let e = lemma_chain_square(p, g, e, 1, 0, 1);
    let e = lemma_chain_multiply(p, g, e, 1, 0, 4);
    let e = lemma_chain_square(p, g, e, 4, 3, 1);
}

/// 2 is a primitive root modulo 5.
pub proof fn lemma_root_5()
    ensures
        is_primitive_root(2, 5),
{
    let p = 5;
    let g = 2;
    lemma_power_5_1();
    lemma_power_5_2();
    lemma_chain_rebase(p, g, 2, 4, 2, 1);
    lemma_two_is_prime();
    assert forall|m: int| m >= 2 && #[trigger] (4int % m) == 0 implies exists|f: int| #[trigger]
        refutes(2, 4, 5, m, f) by {
        lemma_euclid(m, 2, 2);
        if m % 2 == 0 {
            assert(refutes(2, 4, 5, m, 2));
        } else {
            lemma_euclid(m, 2, 1);
            lemma_small_mod(1, m as nat);
        }
    }
    lemma_lucas(5, 4, 2);
}

/// 5 is prime.
pub proof fn lemma_prime_5()
    ensures
        is_prime(5),
{
    lemma_root_5();
    lemma_root_gives_prime(2, 5);
}

/// A power of the root 2 modulo 11.
proof fn lemma_power_11_1()
    ensures
        pow_mod(2, 5, 0xb) == 0xa,
{
    let p = 0xb;
    let g = 2;
    lemma_chain_start(p, g);
    let e: nat = 0;
    let e = lemma_chain_square(p, g, e, 1, 0, 1);
    let e = lemma_chain_multiply(p, g, e, 1, 0, 2);
    let e = lemma_chain_square(p, g, e, 2, 0, 4);
    let e = lemma_chain_square(p, g, e, 4, 1, 5);
    let e = lemma_chain_multiply(p, g, e, 5, 0, 0xa);
}

/// A power of the root 2 modulo 11.
proof fn lemma_power_11_2()
    ensures
        pow_mod(2, 2, 0xb) == 4,
{
    let p = 0xb;
    let g = 2;
    lemma_chain_start(p, g);
    let e: nat = 0;
    let e = lemma_chain_square(p, g, e, 1, 0, 1);
    let e = lemma_chain_multiply(p, g, e, 1, 0, 2);
    let e = lemma_chain_square(p, g, e, 2, 0, 4);
}

/// A power of a power of the root 2 modulo 11.
proof fn lemma_power_11_3()
    ensures
        pow_mod(0xa, 2, 0xb) == 1,
{
    let p = 0xb;
    let g = 0xa;
    lemma_chain_start(p, g);
    let e: nat = 0;
    let e = lemma_chain_square(p, g, e, 1, 0, 1);
    let e = lemma_chain_multiply(p, g, e, 1, 0, 0xa);
    let e = lemma_chain_square(p, g, e, 0xa, 9, 1);
}

/// 2 is a primitive root modulo 11.
pub proof fn lemma_root_11()
    ensures
        is_primitive_root(2, 0xb),
{
    let p = 0xb;
    let g = 2;
    lemma_power_11_1();
    lemma_power_11_2();
    lemma_power_11_3();
    lemma_chain_rebase(p, g, 5, 0xa, 2, 1);
    lemma_two_is_prime();
    lemma_prime_5();
    assert forall|m: int| m >= 2 && #[trigger] (0xaint % m) == 0 implies exists|f: int| #[trigger]
        refutes(2, 0xa, 0xb, m, f) by {
        lemma_euclid(m, 2, 5);
        if m % 2 == 0 {
            assert(refutes(2, 0xa, 0xb, m, 2));
        } else {
            lemma_euclid(m, 5, 1);
            if m % 5 == 0 {
                assert(refutes(2, 0xa, 0xb, m, 5));
            } else {
                lemma_small_mod(1, m as nat);
            }
        }
    }
    lemma_lucas(0xb, 0xa, 2);
}

/// 11 is prime.
pub proof fn lemma_prime_11()
    ensures
        is_prime(0xb),
{
    lemma_root_11();
    lemma_root_gives_prime(2, 0xb);
}

/// A power of the root 2 modulo 19.
proof fn lemma_power_19_1()
    ensures
        pow_mod(2, 9, 0x13) == 0x12,
{
    let p = 0x13;
    let g = 2;
    lemma_chain_start(p, g);
    let e: nat = 0;
    let e = lemma_chain_square(p, g, e, 1, 0, 1);
    let e = lemma_chain_multiply(p, g, e, 1, 0, 2);
    let e = lemma_chain_square(p, g, e, 2, 0, 4);
    let e = lemma_chain_square(p, g, e, 4, 0, 0x10);
    let e = lemma_chain_square(p, g, e, 0x10, 0xd, 9);
    let e = lemma_chain_multiply(p, g, e, 9, 0, 0x12);
}

/// A power of the root 2 modulo 19.
proof fn lemma_power_19_2()
    ensures
        pow_mod(2, 6, 0x13) == 7,
{
    let p = 0x13;
    let g = 2;
    lemma_chain_start(p, g);
    let e: nat = 0;
    let e = lemma_chain_square(p, g, e, 1, 0, 1);
    let e = lemma_chain_multiply(p, g, e, 1, 0, 2);
    let e = lemma_chain_square(p, g, e, 2, 0, 4);
    let e = lemma_chain_multiply(p, g, e, 4, 0, 8);
    let e = lemma_chain_square(p, g, e, 8, 3, 7);
}

/// A power of a power of the root 2 modulo 19.
proof fn lemma_power_19_3()
    ensures
        pow_mod(0x12, 2, 0x13) == 1,
{
    let p = 0x13;
    let g = 0x12;
    lemma_chain_start(p, g);
    let e: nat = 0;
    let e = lemma_chain_square(p, g, e, 1, 0, 1);
    let e = lemma_chain_multiply(p, g, e, 1, 0, 0x12);
    let e = lemma_chain_square(p, g, e, 0x12, 0x11, 1);
}

/// 2 is a primitive root modulo 19.
pub proof fn lemma_root_19()
    ensures
        is_primitive_root(2, 0x13),
{
    let p = 0x13;
    let g = 2;
    lemma_power_19_1();
    lemma_power_19_2();
    lemma_power_19_3();
    lemma_chain_rebase(p, g, 9, 0x12, 2, 1);
    lemma_two_is_prime();
    lemma_prime_3();
    assert forall|m: int| m >= 2 && #[trigger] (0x12int % m) == 0 implies exists|f: int| #[trigger]
        refutes(2, 0x12, 0x13, m, f) by {
        lemma_euclid(m, 2, 9);
        if m % 2 == 0 {
            assert(refutes(2, 0x12, 0x13, m, 2));
        } else {
            lemma_euclid(m, 3, 3);
            if m % 3 == 0 {
                assert(refutes(2, 0x12, 0x13, m, 3));
            } else {
                lemma_euclid(m, 3, 1);
                lemma_small_mod(1, m as nat);
            }
        }
    }
    lemma_lucas(0x13, 0x12, 2);
}

/// 19 is prime.
pub proof fn lemma_prime_19()
    ensures
        is_prime(0x13),
{
    lemma_root_19();
    lemma_root_gives_prime(2, 0x13);
}

/// A power of the root 2 modulo 13.
proof fn lemma_power_13_1()
    ensures
        pow_mod(2, 6, 0xd) == 0xc,
{
    let p = 0xd;
    let g = 2;
    lemma_chain_start(p, g);
    let e: nat = 0;
    let e = lemma_chain_square(p, g, e, 1, 0, 1);
    let e = lemma_chain_multiply(p, g, e, 1, 0, 2);
    let e = lemma_chain_square(p, g, e, 2, 0, 4);
    let e = lemma_chain_multiply(p, g, e, 4, 0, 8);
    let e = lemma_chain_square(p, g, e, 8, 4, 0xc);
}

/// A power of the root 2 modulo 13.
proof fn lemma_power_13_2()
    ensures
        pow_mod(2, 4, 0xd) == 3,
{
    let p = 0xd;
    let g = 2;
    lemma_chain_start(p, g);
    let e: nat = 0;
    let e = lemma_chain_square(p, g, e, 1, 0, 1);
    let e = lemma_chain_multiply(p, g, e, 1, 0, 2);
    let e = lemma_chain_square(p, g, e, 2, 0, 4);
    let e = lemma_chain_square(p, g, e, 4, 1, 3);
}

/// A power of a power of the root 2 modulo 13.
proof fn lemma_power_13_3()
    ensures
        pow_mod(0xc, 2, 0xd) == 1,
{
    let p = 0xd;
    let g = 0xc;
    lemma_chain_start(p, g);
    let e: nat = 0;
    let e = lemma_chain_square(p, g, e, 1, 0, 1);
    let e = lemma_chain_multiply(p, g, e, 1, 0, 0xc);
    let e = lemma_chain_square(p, g, e, 0xc, 0xb, 1);
}

/// 2 is a primitive root modulo 13.
pub proof fn lemma_root_13()
    ensures
        is_primitive_root(2, 0xd),
{
    let p = 0xd;
    let g = 2;
    lemma_power_13_1();
    lemma_power_13_2();
    lemma_power_13_3();
    lemma_chain_rebase(p, g, 6, 0xc, 2, 1);
    lemma_two_is_prime();
    lemma_prime_3();
    assert forall|m: int| m >= 2 && #[trigger] (0xcint % m) == 0 implies exists|f: int| #[trigger]
        refutes(2, 0xc, 0xd, m, f) by {
        lemma_euclid(m, 2, 6);
        if m % 2 == 0 {
            assert(refutes(2, 0xc, 0xd, m, 2));
        } else {
            lemma_euclid(m, 2, 3);
            lemma_euclid(m, 3, 1);
            if m % 3 == 0 {
                assert(refutes(2, 0xc, 0xd, m, 3));
            } else {
                lemma_small_mod(1, m as nat);
            }
        }
    }
    lemma_lucas(0xd, 0xc, 2);
}

/// 13 is prime.
pub proof fn lemma_prime_13()
    ensures
        is_prime(0xd),
{
    lemma_root_13();
    lemma_root_gives_prime(2, 0xd);
}

/// A power of the root 2 modulo 53.
proof fn lemma_power_53_1()
    ensures
        pow_mod(2, 0x1a, 0x35) == 0x34,
{
    let p = 0x35;
    let g = 2;
    lemma_chain_start(p, g);
    let e: nat = 0;
    let e = lemma_chain_square(p, g, e, 1, 0, 1);
    let e = lemma_chain_multiply(p, g, e, 1, 0, 2);
    let e = lemma_chain_square(p, g, e, 2, 0, 4);
    let e = lemma_chain_multiply(p, g, e, 4, 0, 8);
    let e = lemma_chain_square(p, g, e, 8, 1, 0xb);
    let e = lemma_chain_square(p, g, e, 0xb, 2, 0xf);
    let e = lemma_chain_multiply(p, g, e, 0xf, 0, 0x1e);
    let e = lemma_chain_square(p, g, e, 0x1e, 0x10, 0x34);
}

/// A power of the root 2 modulo 53.
proof fn lemma_power_53_2()
    ensures
        pow_mod(2, 4, 0x35) == 0x10,
{
    let p = 0x35;
    let g = 2;
    lemma_chain_start(p, g);
    let e: nat = 0;
    let e = lemma_chain_square(p, g, e, 1, 0, 1);
    let e = lemma_chain_multiply(p, g, e, 1, 0, 2);
    let e = lemma_chain_square(p, g, e, 2, 0, 4);
    let e = lemma_chain_square(p, g, e, 4, 0, 0x10);
}

/// A power of a power of the root 2 modulo 53.
proof fn lemma_power_53_3()
    ensures
        pow_mod(0x34, 2, 0x35) == 1,
{
    let p = 0x35;
    let g = 0x34;
    lemma_chain_start(p, g);
    let e: nat = 0;
    let e = lemma_chain_square(p, g, e, 1, 0, 1);
    let e = lemma_chain_multiply(p, g, e, 1, 0, 0x34);
    let e = lemma_chain_square(p, g, e, 0x34, 0x33, 1);
}

/// 2 is a primitive root modulo 53.
pub proof fn lemma_root_53()
    ensures
        is_primitive_root(2, 0x35),
{
    let p = 0x35;
    let g = 2;
    lemma_power_53_1();
    lemma_power_53_2();
    lemma_power_53_3();
    lemma_chain_rebase(p, g, 0x1a, 0x34, 2, 1);
    lemma_two_is_prime();
    lemma_prime_13();
    assert forall|m: int| m >= 2 && #[trigger] (0x34int % m) == 0 implies exists|f: int| #[trigger]
        refutes(2, 0x34, 0x35, m, f) by {
        lemma_euclid(m, 2, 0x1a);
        if m % 2 == 0 {
            assert(refutes(2, 0x34, 0x35, m, 2));
        } else {
            lemma_euclid(m, 2, 0xd);
            lemma_euclid(m, 0xd, 1);
            if m % 0xd == 0 {
                assert(refutes(2, 0x34, 0x35, m, 0xd));
            } else {
                lemma_small_mod(1, m as nat);
            }
        }
    }
    lemma_lucas(0x35, 0x34, 2);
}

/// 53 is prime.
pub proof fn lemma_prime_53()
    ensures
        is_prime(0x35),
{
    lemma_root_53();
    lemma_root_gives_prime(2, 0x35);
}

/// A power of the root 7 modulo 10177.
proof fn lemma_power_10177_1()
    ensures
        pow_mod(7, 0x13e0, 0x27c1) == 0x27c0,
{
    let p = 0x27c1;
    let g = 7;
    lemma_chain_start(p, g);
    let e: nat = 0;
    let e = lemma_chain_square(p, g, e, 1, 0, 1);
    let e = lemma_chain_multiply(p, g, e, 1, 0, 7);
    let e = lemma_chain_square(p, g, e, 7, 0, 0x31);
    let e = lemma_chain_square(p, g, e, 0x31, 0, 0x961);
    let e = lemma_chain_square(p, g, e, 0x961, 0x236, 0x120b);
    let e = lemma_chain_multiply(p, g, e, 0x120b, 3, 0x70a);
    let e = lemma_chain_square(p, g, e, 0x70a, 0x13f, 0x2e5);
    let e = lemma_chain_multiply(p, g, e, 0x2e5, 0, 0x1443);
    let e = lemma_chain_square(p, g, e, 0x1443, 0xa53, 0x1bf6);
    let e = lemma_chain_multiply(p, g, e, 0x1bf6, 4, 0x24b6);
    let e = lemma_chain_square(p, g, e, 0x24b6, 0x21e6, 0x18fe);
    let e = lemma_chain_multiply(p, g, e, 0x18fe, 4, 0xfee);
    let e = lemma_chain_square(p, g, e, 0xfee, 0x662, 0x362);
    let e = lemma_chain_multiply(p, g, e, 0x362, 0, 0x17ae);
    let e = lemma_chain_square(p, g, e, 0x17ae, 0xe1a, 0x22aa);
    let e = lemma_chain_square(p, g, e, 0x22aa, 0x1e39, 0x20eb);
    let e = lemma_chain_square(p, g, e, 0x20eb, 0x1b41, 0x24b8);
    let e = lemma_chain_square(p, g, e, 0x24b8, 0x21ea, 0xcd6);
    let e = lemma_chain_square(p, g, e, 0xcd6, 0x424, 0x27c0);
}

/// A power of the root 7 modulo 10177.
proof fn lemma_power_10177_2()
    ensures
        pow_mod(7, 0xd40, 0x27c1) == 0x12a5,
{
    let p = 0x27c1;
    let g = 7;
    lemma_chain_start(p, g);
    let e: nat = 0;
    let e = lemma_chain_square(p, g, e, 1, 0, 1);
    let e = lemma_chain_multiply(p, g, e, 1, 0, 7);
    let e = lemma_chain_square(p, g, e, 7, 0, 0x31);
    let e = lemma_chain_multiply(p, g, e, 0x31, 0, 0x157);
    let e = lemma_chain_square(p, g, e, 0x157, 0xb, 0x1646);
    let e = lemma_chain_square(p, g, e, 0x1646, 0xc7a, 0x1d2a);
    let e = lemma_chain_multiply(p, g, e, 0x1d2a, 5, 0x561);
    let e = lemma_chain_square(p, g, e, 0x561, 0xba, 0xc87);
    let e = lemma_chain_square(p, g, e, 0xc87, 0x3f2, 0x17bf);
    let e = lemma_chain_multiply(p, g, e, 0x17bf, 4, 0x735);
    let e = lemma_chain_square(p, g, e, 0x735, 0x14e, 0x132b);
    let e = lemma_chain_square(p, g, e, 0x132b, 0x93d, 0x273c);
    let e = lemma_chain_square(p, g, e, 0x273c, 0x26b8, 0x1d58);
    let e = lemma_chain_square(p, g, e, 0x1d58, 0x15a8, 0x2298);
    let e = lemma_chain_square(p, g, e, 0x2298, 0x1e1a, 0x12a6);
    let e = lemma_chain_square(p, g, e, 0x12a6, 0x8bf, 0x12a5);
}

/// A power of the root 7 modulo 10177.
proof fn lemma_power_10177_3()
    ensures
        pow_mod(7, 0xc0, 0x27c1) == 0xe20,
{
    let p = 0x27c1;
    let g = 7;
    lemma_chain_start(p, g);
    let e: nat = 0;
    let e = lemma_chain_square(p, g, e, 1, 0, 1);
    let e = lemma_chain_multiply(p, g, e, 1, 0, 7);
    let e = lemma_chain_square(p, g, e, 7, 0, 0x31);
    let e = lemma_chain_multiply(p, g, e, 0x31, 0, 0x157);
    let e = lemma_chain_square(p, g, e, 0x157, 0xb, 0x1646);
    let e = lemma_chain_square(p, g, e, 0x1646, 0xc7a, 0x1d2a);
    let e = lemma_chain_square(p, g, e, 0x1d2a, 0x1565, 0x6bf);
    let e = lemma_chain_square(p, g, e, 0x6bf, 0x125, 0x29c);
    let e = lemma_chain_square(p, g, e, 0x29c, 0x2b, 0x21a5);
    let e = lemma_chain_square(p, g, e, 0x21a5, 0x1c79, 0xe20);
}

/// A power of a power of the root 7 modulo 10177.
proof fn lemma_power_10177_4()
    ensures
        pow_mod(0x27c0, 2, 0x27c1) == 1,
{
    let p = 0x27c1;
    let g = 0x27c0;
    lemma_chain_start(p, g);
    let e: nat = 0;
    let e = lemma_chain_square(p, g, e, 1, 0, 1);
    let e = lemma_chain_multiply(p, g, e, 1, 0, 0x27c0);
    let e = lemma_chain_square(p, g, e, 0x27c0, 0x27bf, 1);
}

/// 7 is a primitive root modulo 10177.
pub proof fn lemma_root_10177()
    ensures
        is_primitive_root(7, 0x27c1),
{
    let p = 0x27c1;
    let g = 7;
    lemma_power_10177_1();
    lemma_power_10177_2();
    lemma_power_10177_3();
    lemma_power_10177_4();
    lemma_chain_rebase(p, g, 0x13e0, 0x27c0, 2, 1);
    lemma_two_is_prime();
    lemma_prime_3();
    lemma_prime_53();
    assert forall|m: int| m >= 2 && #[trigger] (0x27c0int % m) == 0 implies exists|f: int| #[trigger]
        refutes(7, 0x27c0, 0x27c1, m, f) by {
        lemma_euclid(m, 2, 0x13e0);
        if m % 2 == 0 {
            assert(refutes(7, 0x27c0, 0x27c1, m, 2));
        } else {
            lemma_euclid(m, 2, 0x9f0);
            lemma_euclid(m, 2, 0x4f8);
            lemma_euclid(m, 2, 0x27c);
            lemma_euclid(m, 2, 0x13e);
            lemma_euclid(m, 2, 0x9f);
            lemma_euclid(m, 3, 0x35);
            if m % 3 == 0 {
                assert(refutes(7, 0x27c0, 0x27c1, m, 3));
            } else {
                lemma_euclid(m, 0x35, 1);
                if m % 0x35 == 0 {
                    assert(refutes(7, 0x27c0, 0x27c1, m, 0x35));
                } else {
                    lemma_small_mod(1, m as nat);
                }
            }
        }
    }
    lemma_lucas(0x27c1, 0x27c0, 7);
}

/// 10177 is prime.
pub proof fn lemma_prime_10177()
    ensures
        is_prime(0x27c1),
{
    lemma_root_10177();
    lemma_root_gives_prime(7, 0x27c1);
}

/// A power of the root 3 modulo 7.
proof fn lemma_power_7_1()
    ensures
        pow_mod(3, 3, 7) == 6,
{
    let p = 7;
    let g = 3;
    lemma_chain_start(p, g);
    let e: nat = 0;
    let e = lemma_chain_square(p, g, e, 1, 0, 1);
    let e = lemma_chain_multiply(p, g, e, 1, 0, 3);
    let e = lemma_chain_square(p, g, e, 3, 1, 2);
    let e = lemma_chain_multiply(p, g, e, 2, 0, 6);
}

/// A power of the root 3 modulo 7.
proof fn lemma_power_7_2()
    ensures
        pow_mod(3, 2, 7) == 2,
{
    let p = 7;
    let g = 3;
    lemma_chain_start(p, g);
    let e: nat = 0;
    let e = lemma_chain_square(p, g, e, 1, 0, 1);
    let e = lemma_chain_multiply(p, g, e, 1, 0, 3);
    let e = lemma_chain_square(p, g, e, 3, 1, 2);
}

/// A power of a power of the root 3 modulo 7.
proof fn lemma_power_7_3()
    ensures
        pow_mod(6, 2, 7) == 1,
{
    let p = 7;
    let g = 6;
    lemma_chain_start(p, g);
    let e: nat = 0;
    let e = lemma_chain_square(p, g, e, 1, 0, 1);
    let e = lemma_chain_multiply(p, g, e, 1, 0, 6);
    let e = lemma_chain_square(p, g, e, 6, 5, 1);
}

/// 3 is a primitive root modulo 7.
pub proof fn lemma_root_7()
    ensures
        is_primitive_root(3, 7),
{
    let p = 7;
    let g = 3;
    lemma_power_7_1();
    lemma_power_7_2();
    lemma_power_7_3();
    lemma_chain_rebase(p, g, 3, 6, 2, 1);
    lemma_two_is_prime();
    lemma_prime_3();
    assert forall|m: int| m >= 2 && #[trigger] (6int % m) == 0 implies exists|f: int| #[trigger]
        refutes(3, 6, 7, m, f) by {
        lemma_euclid(m, 2, 3);
        if m % 2 == 0 {
            assert(refutes(3, 6, 7, m, 2));
        } else {
            lemma_euclid(m, 3, 1);
            if m % 3 == 0 {
                assert(refutes(3, 6, 7, m, 3));
            } else {
                lemma_small_mod(1, m as nat);
            }
        }
    }
    lemma_lucas(7, 6, 3);
}

/// 7 is prime.
pub proof fn lemma_prime_7()
    ensures
        is_prime(7),
{
    lemma_root_7();
    lemma_root_gives_prime(3, 7);
}

/// A power of the root 2 modulo 29.
proof fn lemma_power_29_1()
    ensures
        pow_mod(2, 0xe, 0x1d) == 0x1c,
{
    let p = 0x1d;
    let g = 2;
    lemma_chain_start(p, g);
    let e: nat = 0;
    let e = lemma_chain_square(p, g, e, 1, 0, 1);
    let e = lemma_chain_multiply(p, g, e, 1, 0, 2);
    let e = lemma_chain_square(p, g, e, 2, 0, 4);
    let e = lemma_chain_multiply(p, g, e, 4, 0, 8);
    let e = lemma_chain_square(p, g, e, 8, 2, 6);
    let e = lemma_chain_multiply(p, g, e, 6, 0, 0xc);
    let e = lemma_chain_square(p, g, e, 0xc, 4, 0x1c);
}

/// A power of the root 2 modulo 29.
proof fn lemma_power_29_2()
    ensures
        pow_mod(2, 4, 0x1d) == 0x10,
{
    let p = 0x1d;
    let g = 2;
    lemma_chain_start(p, g);
    let e: nat = 0;
    let e = lemma_chain_square(p, g, e, 1, 0, 1);
    let e = lemma_chain_multiply(p, g, e, 1, 0, 2);
    let e = lemma_chain_square(p, g, e, 2, 0, 4);
    let e = lemma_chain_square(p, g, e, 4, 0, 0x10);
}

/// A power of a power of the root 2 modulo 29.
proof fn lemma_power_29_3()
    ensures
        pow_mod(0x1c, 2, 0x1d) == 1,
{
    let p = 0x1d;
    let g = 0x1c;
    lemma_chain_start(p, g);
    let e: nat = 0;
    let e = lemma_chain_square(p, g, e, 1, 0, 1);
    let e = lemma_chain_multiply(p, g, e, 1, 0, 0x1c);
    let e = lemma_chain_square(p, g, e, 0x1c, 0x1b, 1);
}

/// 2 is a primitive root modulo 29.
pub proof fn lemma_root_29()
    ensures
        is_primitive_root(2, 0x1d),
{
    let p = 0x1d;
    let g = 2;
    lemma_power_29_1();
    lemma_power_29_2();
    lemma_power_29_3();
    lemma_chain_rebase(p, g, 0xe, 0x1c, 2, 1);
    lemma_two_is_prime();
    lemma_prime_7();
    assert forall|m: int| m >= 2 && #[trigger] (0x1cint % m) == 0 implies exists|f: int| #[trigger]
        refutes(2, 0x1c, 0x1d, m, f) by {
        lemma_euclid(m, 2, 0xe);
        if m % 2 == 0 {
            assert(refutes(2, 0x1c, 0x1d, m, 2));
        } else {
            lemma_euclid(m, 2, 7);
            lemma_euclid(m, 7, 1);
            if m % 7 == 0 {
                assert(refutes(2, 0x1c, 0x1d, m, 7));
            } else {
                lemma_small_mod(1, m as nat);
            }
        }
    }
    lemma_lucas(0x1d, 0x1c, 2);
}

/// 29 is prime.
pub proof fn lemma_prime_29()
    ensures
        is_prime(0x1d),
{
    lemma_root_29();
    lemma_root_gives_prime(2, 0x1d);
}

/// A power of the root 2 modulo 523.
proof fn lemma_power_523_1()
    ensures
        pow_mod(2, 0x105, 0x20b) == 0x20a,
{
    let p = 0x20b;
    let g = 2;
    lemma_chain_start(p, g);
    let e: nat = 0;
    let e = lemma_chain_square(p, g, e, 1, 0, 1);
    let e = lemma_chain_multiply(p, g, e, 1, 0, 2);
    let e = lemma_chain_square(p, g, e, 2, 0, 4);
    let e = lemma_chain_square(p, g, e, 4, 0, 0x10);
    let e = lemma_chain_square(p, g, e, 0x10, 0, 0x100);
    let e = lemma_chain_square(p, g, e, 0x100, 0x7d, 0xa1);
    let e = lemma_chain_square(p, g, e, 0xa1, 0x31, 0x126);
    let e = lemma_chain_square(p, g, e, 0x126, 0xa5, 0x8d);
    let e = lemma_chain_multiply(p, g, e, 0x8d, 0, 0x11a);
    let e = lemma_chain_square(p, g, e, 0x11a, 0x98, 0x1c);
    let e = lemma_chain_square(p, g, e, 0x1c, 1, 0x105);
    let e = lemma_chain_multiply(p, g, e, 0x105, 0, 0x20a);
}

/// A power of the root 2 modulo 523.
proof fn lemma_power_523_2()
    ensures
        pow_mod(2, 0xae, 0x20b) == 0x1ce,
{
    let p = 0x20b;
    let g = 2;
    lemma_chain_start(p, g);
    let e: nat = 0;
    let e = lemma_chain_square(p, g, e, 1, 0, 1);
    let e = lemma_chain_multiply(p, g, e, 1, 0, 2);
    let e = lemma_chain_square(p, g, e, 2, 0, 4);
    let e = lemma_chain_square(p, g, e, 4, 0, 0x10);
    let e = lemma_chain_multiply(p, g, e, 0x10, 0, 0x20);
    let e = lemma_chain_square(p, g, e, 0x20, 1, 0x1f5);
    let e = lemma_chain_square(p, g, e, 0x1f5, 0x1df, 0x1e4);
    let e = lemma_chain_multiply(p, g, e, 0x1e4, 1, 0x1bd);
    let e = lemma_chain_square(p, g, e, 0x1bd, 0x17a, 0x14b);
    let e = lemma_chain_multiply(p, g, e, 0x14b, 1, 0x8b);
    let e = lemma_chain_square(p, g, e, 0x8b, 0x24, 0x1ed);
    let e = lemma_chain_multiply(p, g, e, 0x1ed, 1, 0x1cf);
    let e = lemma_chain_square(p, g, e, 0x1cf, 0x199, 0x1ce);
}

/// A power of the root 2 modulo 523.
proof fn lemma_power_523_3()
    ensures
        pow_mod(2, 0x12, 0x20b) == 0x79,
{
    let p = 0x20b;
    let g = 2;
    lemma_chain_start(p, g);
    let e: nat = 0;
    let e = lemma_chain_square(p, g, e, 1, 0, 1);
    let e = lemma_chain_multiply(p, g, e, 1, 0, 2);
    let e = lemma_chain_square(p, g, e, 2, 0, 4);
    let e = lemma_chain_square(p, g, e, 4, 0, 0x10);
    let e = lemma_chain_square(p, g, e, 0x10, 0, 0x100);
    let e = lemma_chain_multiply(p, g, e, 0x100, 0, 0x200);
    let e = lemma_chain_square(p, g, e, 0x200, 0x1f5, 0x79);
}

/// A power of a power of the root 2 modulo 523.
proof fn lemma_power_523_4()
    ensures
        pow_mod(0x20a, 2, 0x20b) == 1,
{
    let p = 0x20b;
    let g = 0x20a;
    lemma_chain_start(p, g);
    let e: nat = 0;
    let e = lemma_chain_square(p, g, e, 1, 0, 1);
    let e = lemma_chain_multiply(p, g, e, 1, 0, 0x20a);
    let e = lemma_chain_square(p, g, e, 0x20a, 0x209, 1);
}

/// 2 is a primitive root modulo 523.
pub proof fn lemma_root_523()
    ensures
        is_primitive_root(2, 0x20b),
{
    let p = 0x20b;
    let g = 2;
    lemma_power_523_1();
    lemma_power_523_2();
    lemma_power_523_3();
    lemma_power_523_4();
    lemma_chain_rebase(p, g, 0x105, 0x20a, 2, 1);
    lemma_two_is_prime();
    lemma_prime_3();
    lemma_prime_29();
    assert forall|m: int| m >= 2 && #[trigger] (0x20aint % m) == 0 implies exists|f: int| #[trigger]
        refutes(2, 0x20a, 0x20b, m, f) by {
        lemma_euclid(m, 2, 0x105);
        if m % 2 == 0 {
            assert(refutes(2, 0x20a, 0x20b, m, 2));
        } else {
            lemma_euclid(m, 3, 0x57);
            if m % 3 == 0 {
                assert(refutes(2, 0x20a, 0x20b, m, 3));
            } else {
                lemma_euclid(m, 3, 0x1d);
                lemma_euclid(m, 0x1d, 1);
                if m % 0x1d == 0 {
                    assert(refutes(2, 0x20a, 0x20b, m, 0x1d));
                } else {
                    lemma_small_mod(1, m as nat);
                }
            }
        }
    }
    lemma_lucas(0x20b, 0x20a, 2);
}

/// 523 is prime.
pub proof fn lemma_prime_523()
    ensures
        is_prime(0x20b),
{
    lemma_root_523();
    lemma_root_gives_prime(2, 0x20b);
}

/// A power of the root 3 modulo 20921.
proof fn lemma_power_20921_1()
    ensures
        pow_mod(3, 0x28dc, 0x51b9) == 0x51b8,
{
    let p = 0x51b9;
    let g = 3;
    lemma_chain_start(p, g);
    let e: nat = 0;
    let e = lemma_chain_square(p, g, e, 1, 0, 1);
    let e = lemma_chain_multiply(p, g, e, 1, 0, 3);
    let e = lemma_chain_square(p, g, e, 3, 0, 9);
    let e = lemma_chain_square(p, g, e, 9, 0, 0x51);
    let e = lemma_chain_multiply(p, g, e, 0x51, 0, 0xf3);
    let e = lemma_chain_square(p, g, e, 0xf3, 2, 0x4337);
    let e = lemma_chain_square(p, g, e, 0x4337, 0x3748, 0x1ac9);
    let e = lemma_chain_square(p, g, e, 0x1ac9, 0x8c7, 0x2302);
    let e = lemma_chain_square(p, g, e, 0x2302, 0xeff, 0x6bd);
    let e = lemma_chain_multiply(p, g, e, 0x6bd, 0, 0x1437);
    let e = lemma_chain_square(p, g, e, 0x1437, 0x500, 0x6d1);
    let e = lemma_chain_multiply(p, g, e, 0x6d1, 0, 0x1473);
    let e = lemma_chain_square(p, g, e, 0x1473, 0x51d, 0x4cb4);
    let e = lemma_chain_square(p, g, e, 0x4cb4, 0x47fd, 0x4bbb);
    let e = lemma_chain_multiply(p, g, e, 0x4bbb, 2, 0x3fbf);
    let e = lemma_chain_square(p, g, e, 0x3fbf, 0x31b9, 0x18d0);
    let e = lemma_chain_multiply(p, g, e, 0x18d0, 0, 0x4a70);
    let e = lemma_chain_square(p, g, e, 0x4a70, 0x43cd, 0x14db);
    let e = lemma_chain_multiply(p, g, e, 0x14db, 0, 0x3e91);
    let e = lemma_chain_square(p, g, e, 0x3e91, 0x2fe6, 0x2aeb);
    let e = lemma_chain_square(p, g, e, 0x2aeb, 0x1689, 0x51b8);
}

/// A power of the root 3 modulo 20921.
proof fn lemma_power_20921_2()
    ensures
        pow_mod(3, 0x1058, 0x51b9) == 0x1420,
{
    let p = 0x51b9;
    let g = 3;
    lemma_chain_start(p, g);
    let e: nat = 0;
    let e = lemma_chain_square(p, g, e, 1, 0, 1);
    let e = lemma_chain_multiply(p, g, e, 1, 0, 3);
    let e = lemma_chain_square(p, g, e, 3, 0, 9);
    let e = lemma_chain_square(p, g, e, 9, 0, 0x51);
    let e = lemma_chain_square(p, g, e, 0x51, 0, 0x19a1);
    let e = lemma_chain_square(p, g, e, 0x19a1, 0x809, 0x2fc0);
    let e = lemma_chain_square(p, g, e, 0x2fc0, 0x1be6, 0x20ca);
    let e = lemma_chain_square(p, g, e, 0x20ca, 0xd27, 0x4735);
    let e = lemma_chain_multiply(p, g, e, 0x4735, 2, 0x322d);
    let e = lemma_chain_square(p, g, e, 0x322d, 0x1ece, 0x2b0b);
    let e = lemma_chain_square(p, g, e, 0x2b0b, 0x16ab, 0x35e6);
    let e = lemma_chain_multiply(p, g, e, 0x35e6, 1, 0x4ff9);
    let e = lemma_chain_square(p, g, e, 0x4ff9, 0x4e42, 0x307f);
    let e = lemma_chain_multiply(p, g, e, 0x307f, 1, 0x3fc4);
    let e = lemma_chain_square(p, g, e, 0x3fc4, 0x31c1, 0x897);
    let e = lemma_chain_square(p, g, e, 0x897, 0xe7, 0xb22);
    let e = lemma_chain_square(p, g, e, 0xb22, 0x184, 0x1420);
}

/// A power of the root 3 modulo 20921.
proof fn lemma_power_20921_3()
    ensures
        pow_mod(3, 0x28, 0x51b9) == 0x2302,
{
    let p = 0x51b9;
    let g = 3;
    lemma_chain_start(p, g);
    let e: nat = 0;
    let e = lemma_chain_square(p, g, e, 1, 0, 1);
    let e = lemma_chain_multiply(p, g, e, 1, 0, 3);
    let e = lemma_chain_square(p, g, e, 3, 0, 9);
    let e = lemma_chain_square(p, g, e, 9, 0, 0x51);
    let e = lemma_chain_multiply(p, g, e, 0x51, 0, 0xf3);
    let e = lemma_chain_square(p, g, e, 0xf3, 2, 0x4337);
    let e = lemma_chain_square(p, g, e, 0x4337, 0x3748, 0x1ac9);
    let e = lemma_chain_square(p, g, e, 0x1ac9, 0x8c7, 0x2302);
}

/// A power of a power of the root 3 modulo 20921.
proof fn lemma_power_20921_4()
    ensures
        pow_mod(0x51b8, 2, 0x51b9) == 1,
{
    let p = 0x51b9;
    let g = 0x51b8;
    lemma_chain_start(p, g);
    let e: nat = 0;
    let e = lemma_chain_square(p, g, e, 1, 0, 1);
    let e = lemma_chain_multiply(p, g, e, 1, 0, 0x51b8);
    let e = lemma_chain_square(p, g, e, 0x51b8, 0x51b7, 1);
}

/// 3 is a primitive root modulo 20921.
pub proof fn lemma_root_20921()
    ensures
        is_primitive_root(3, 0x51b9),
{
    let p = 0x51b9;
    let g = 3;
    lemma_power_20921_1();
    lemma_power_20921_2();
    lemma_power_20921_3();
    lemma_power_20921_4();
    lemma_chain_rebase(p, g, 0x28dc, 0x51b8, 2, 1);
    lemma_two_is_prime();
    lemma_prime_5();
    lemma_prime_523();
    assert forall|m: int| m >= 2 && #[trigger] (0x51b8int % m) == 0 implies exists|f: int| #[trigger]
        refutes(3, 0x51b8, 0x51b9, m, f) by {
        lemma_euclid(m, 2, 0x28dc);
        if m % 2 == 0 {
            assert(refutes(3, 0x51b8, 0x51b9, m, 2));
        } else {
            lemma_euclid(m, 2, 0x146e);
            lemma_euclid(m, 2, 0xa37);
            lemma_euclid(m, 5, 0x20b);
            if m % 5 == 0 {
                assert(refutes(3, 0x51b8, 0x51b9, m, 5));
            } else {
                lemma_euclid(m, 0x20b, 1);
                if m % 0x20b == 0 {
                    assert(refutes(3, 0x51b8, 0x51b9, m, 0x20b));
                } else {
                    lemma_small_mod(1, m as nat);
                }
            }
        }
    }
    lemma_lucas(0x51b9, 0x51b8, 3);
}

/// 20921 is prime.
pub proof fn lemma_prime_20921()
    ensures
        is_prime(0x51b9),
{
    lemma_root_20921();
    lemma_root_gives_prime(3, 0x51b9);
}

/// A power of the root 5 modulo 125527.
proof fn lemma_power_125527_1()
    ensures
        pow_mod(5, 0xf52b, 0x1ea57) == 0x1ea56,
{
    let p = 0x1ea57;
    let g = 5;
    lemma_chain_start(p, g);
    let e: nat = 0;
    let e = lemma_chain_square(p, g, e, 1, 0, 1);
    let e = lemma_chain_multiply(p, g, e, 1, 0, 5);
    let e = lemma_chain_square(p, g, e, 5, 0, 0x19);
    let e = lemma_chain_multiply(p, g, e, 0x19, 0, 0x7d);
    let e = lemma_chain_square(p, g, e, 0x7d, 0, 0x3d09);
    let e = lemma_chain_multiply(p, g, e, 0x3d09, 0, 0x1312d);
    let e = lemma_chain_square(p, g, e, 0x1312d, 0xbdef, 0x3fb0);
    let e = lemma_chain_multiply(p, g, e, 0x3fb0, 0, 0x13e70);
    let e = lemma_chain_square(p, g, e, 0x13e70, 0xcecc, 0x1b1ac);
    let e = lemma_chain_square(p, g, e, 0x1b1ac, 0x17f8d, 0x110a5);
    let e = lemma_chain_multiply(p, g, e, 0x110a5, 2, 0x17e8b);
    let e = lemma_chain_square(p, g, e, 0x17e8b, 0x12a71, 0x16912);
    let e = lemma_chain_square(p, g, e, 0x16912, 0x109e1, 0xbfcd);
    let e = lemma_chain_multiply(p, g, e, 0xbfcd, 1, 0x1d4aa);
    let e = lemma_chain_square(p, g, e, 0x1d4aa, 0x1bff2, 0x91a6);
    let e = lemma_chain_square(p, g, e, 0x91a6, 0x2b43, 0x85df);
    let e = lemma_chain_square(p, g, e, 0x85df, 0x248c, 0x114ad);
    let e = lemma_chain_multiply(p, g, e, 0x114ad, 2, 0x192b3);
    let e = lemma_chain_square(p, g, e, 0x192b3, 0x14ab9, 0x2a4a);
    let e = lemma_chain_square(p, g, e, 0x2a4a, 0x3a5, 0x14e51);
    let e = lemma_chain_multiply(p, g, e, 0x14e51, 3, 0xc890);
    let e = lemma_chain_square(p, g, e, 0xc890, 0x5209, 0x35f1);
    let e = lemma_chain_square(p, g, e, 0x35f1, 0x5ef, 0x32a8);
    let e = lemma_chain_multiply(p, g, e, 0x32a8, 0, 0xfd48);
    let e = lemma_chain_square(p, g, e, 0xfd48, 0x82d4, 0x12634);
    let e = lemma_chain_multiply(p, g, e, 0x12634, 2, 0x1ea56);
}

/// A power of the root 5 modulo 125527.
proof fn lemma_power_125527_2()
    ensures
        pow_mod(5, 0xa372, 0x1ea57) == 0x14f1,
{
    let p = 0x1ea57;
    let g = 5;
    lemma_chain_start(p, g);
    let e: nat = 0;
    let e = lemma_chain_square(p, g, e, 1, 0, 1);
    let e = lemma_chain_multiply(p, g, e, 1, 0, 5);
    let e = lemma_chain_square(p, g, e, 5, 0, 0x19);
    let e = lemma_chain_square(p, g, e, 0x19, 0, 0x271);
    let e = lemma_chain_multiply(p, g, e, 0x271, 0, 0xc35);
    let e = lemma_chain_square(p, g, e, 0xc35, 0x4d, 0x186ce);
    let e = lemma_chain_square(p, g, e, 0x186ce, 0x13779, 0xd9a5);
    let e = lemma_chain_square(p, g, e, 0xd9a5, 0x609a, 0x18c03);
    let e = lemma_chain_square(p, g, e, 0x18c03, 0x13fd4, 0xcefd);
    let e = lemma_chain_multiply(p, g, e, 0xcefd, 2, 0x3643);
    let e = lemma_chain_square(p, g, e, 0x3643, 0x601, 0x6132);
    let e = lemma_chain_multiply(p, g, e, 0x6132, 0, 0x1e5fa);
    let e = lemma_chain_square(p, g, e, 0x1e5fa, 0x1e1a6, 0x1ccba);
    let e = lemma_chain_square(p, g, e, 0x1ccba, 0x1b0e6, 0x19cfa);
    let e = lemma_chain_multiply(p, g, e, 0x19cfa, 4, 0x6786);
    let e = lemma_chain_square(p, g, e, 0x6786, 0x15db, 0x7eb7);
    let e = lemma_chain_multiply(p, g, e, 0x7eb7, 1, 0x8f3c);
    let e = lemma_chain_square(p, g, e, 0x8f3c, 0x29d7, 0x57ff);
    let e = lemma_chain_multiply(p, g, e, 0x57ff, 0, 0x1b7fb);
    let e = lemma_chain_square(p, g, e, 0x1b7fb, 0x18acb, 0x171c);
    let e = lemma_chain_square(p, g, e, 0x171c, 0x116, 0x19096);
    let e = lemma_chain_square(p, g, e, 0x19096, 0x14742, 0x18c76);
    let e = lemma_chain_multiply(p, g, e, 0x18c76, 4, 0x14f2);
    let e = lemma_chain_square(p, g, e, 0x14f2, 0xe5, 0x14f1);
}

/// A power of the root 5 modulo 125527.
proof fn lemma_power_125527_3()
    ensures
        pow_mod(5, 6, 0x1ea57) == 0x3d09,
{
    let p = 0x1ea57;
    let g = 5;
    lemma_chain_start(p, g);
    let e: nat = 0;
    let e = lemma_chain_square(p, g, e, 1, 0, 1);
    let e = lemma_chain_multiply(p, g, e, 1, 0, 5);
    let e = lemma_chain_square(p, g, e, 5, 0, 0x19);
    let e = lemma_chain_multiply(p, g, e, 0x19, 0, 0x7d);
    let e = lemma_chain_square(p, g, e, 0x7d, 0, 0x3d09);
}

/// A power of a power of the root 5 modulo 125527.
proof fn lemma_power_125527_4()
    ensures
        pow_mod(0x1ea56, 2, 0x1ea57) == 1,
{
    let p = 0x1ea57;
    let g = 0x1ea56;
    lemma_chain_start(p, g);
    let e: nat = 0;
    let e = lemma_chain_square(p, g, e, 1, 0, 1);
    let e = lemma_chain_multiply(p, g, e, 1, 0, 0x1ea56);
    let e = lemma_chain_square(p, g, e, 0x1ea56, 0x1ea55, 1);
}

/// 5 is a primitive root modulo 125527.
pub proof fn lemma_root_125527()
    ensures
        is_primitive_root(5, 0x1ea57),
{
    let p = 0x1ea57;
    let g = 5;
    lemma_power_125527_1();
    lemma_power_125527_2();
    lemma_power_125527_3();
    lemma_power_125527_4();
    lemma_chain_rebase(p, g, 0xf52b, 0x1ea56, 2, 1);
    lemma_two_is_prime();
    lemma_prime_3();
    lemma_prime_20921();
    assert forall|m: int| m >= 2 && #[trigger] (0x1ea56int % m) == 0 implies exists|f: int| #[trigger]
        refutes(5, 0x1ea56, 0x1ea57, m, f) by {
        lemma_euclid(m, 2, 0xf52b);
        if m % 2 == 0 {
            assert(refutes(5, 0x1ea56, 0x1ea57, m, 2));
        } else {
            lemma_euclid(m, 3, 0x51b9);
            if m % 3 == 0 {
                assert(refutes(5, 0x1ea56, 0x1ea57, m, 3));
            } else {
                lemma_euclid(m, 0x51b9, 1);
                if m % 0x51b9 == 0 {
                    assert(refutes(5, 0x1ea56, 0x1ea57, m, 0x51b9));
                } else {
                    lemma_small_mod(1, m as nat);
                }
            }
        }
    }
    lemma_lucas(0x1ea57, 0x1ea56, 5);
}

/// 125527 is prime.
pub proof fn lemma_prime_125527()
    ensures
        is_prime(0x1ea57),
{
    lemma_root_125527();
    lemma_root_gives_prime(5, 0x1ea57);
}

/// A power of the root 3 modulo 17.
proof fn lemma_power_17_1()
    ensures
        pow_mod(3, 8, 0x11) == 0x10,
{
    let p = 0x11;
    let g = 3;
    lemma_chain_start(p, g);
    let e: nat = 0;
    let e = lemma_chain_square(p, g, e, 1, 0, 1);
    let e = lemma_chain_multiply(p, g, e, 1, 0, 3);
    let e = lemma_chain_square(p, g, e, 3, 0, 9);
    let e = lemma_chain_square(p, g, e, 9, 4, 0xd);
    let e = lemma_chain_square(p, g, e, 0xd, 9, 0x10);
}

/// A power of a power of the root 3 modulo 17.
proof fn lemma_power_17_2()
    ensures
        pow_mod(0x10, 2, 0x11) == 1,
{
    let p = 0x11;
    let g = 0x10;
    lemma_chain_start(p, g);
    let e: nat = 0;
    let e = lemma_chain_square(p, g, e, 1, 0, 1);
    let e = lemma_chain_multiply(p, g, e, 1, 0, 0x10);
    let e = lemma_chain_square(p, g, e, 0x10, 0xf, 1);
}

/// 3 is a primitive root modulo 17.
pub proof fn lemma_root_17()
    ensures
        is_primitive_root(3, 0x11),
{
    let p = 0x11;
    let g = 3;
    lemma_power_17_1();
    lemma_power_17_2();
    lemma_chain_rebase(p, g, 8, 0x10, 2, 1);
    lemma_two_is_prime();
    assert forall|m: int| m >= 2 && #[trigger] (0x10int % m) == 0 implies exists|f: int| #[trigger]
        refutes(3, 0x10, 0x11, m, f) by {
        lemma_euclid(m, 2, 8);
        if m % 2 == 0 {
            assert(refutes(3, 0x10, 0x11, m, 2));
        } else {
            lemma_euclid(m, 2, 4);
            lemma_euclid(m, 2, 2);
            lemma_euclid(m, 2, 1);
            lemma_small_mod(1, m as nat);
        }
    }
    lemma_lucas(0x11, 0x10, 3);
}

/// 17 is prime.
pub proof fn lemma_prime_17()
    ensures
        is_prime(0x11),
{
    lemma_root_17();
    lemma_root_gives_prime(3, 0x11);
}

/// A power of the root 5 modulo 47737.
proof fn lemma_power_47737_1()
    ensures
        pow_mod(5, 0x5d3c, 0xba79) == 0xba78,
{
    let p = 0xba79;
    let g = 5;
    lemma_chain_start(p, g);
    let e: nat = 0;
    let e = lemma_chain_square(p, g, e, 1, 0, 1);
    let e = lemma_chain_multiply(p, g, e, 1, 0, 5);
    let e = lemma_chain_square(p, g, e, 5, 0, 0x19);
    let e = lemma_chain_square(p, g, e, 0x19, 0, 0x271);
    let e = lemma_chain_multiply(p, g, e, 0x271, 0, 0xc35);
    let e = lemma_chain_square(p, g, e, 0xc35, 0xcc, 0x6a8d);
    let e = lemma_chain_multiply(p, g, e, 0x6a8d, 2, 0x9fcf);
    let e = lemma_chain_square(p, g, e, 0x9fcf, 0x88f5, 0xb94);
    let e = lemma_chain_multiply(p, g, e, 0xb94, 0, 0x39e4);
    let e = lemma_chain_square(p, g, e, 0x39e4, 0x11f8, 0xa4d8);
    let e = lemma_chain_square(p, g, e, 0xa4d8, 0x91b9, 0x2bcf);
    let e = lemma_chain_multiply(p, g, e, 0x2bcf, 1, 0x2092);
    let e = lemma_chain_square(p, g, e, 0x2092, 0x5b0, 0x4314);
    let e = lemma_chain_square(p, g, e, 0x4314, 0x1821, 0x17f7);
    let e = lemma_chain_square(p, g, e, 0x17f7, 0x314, 0x53dd);
    let e = lemma_chain_multiply(p, g, e, 0x53dd, 2, 0x2e5f);
    let e = lemma_chain_square(p, g, e, 0x2e5f, 0xb88, 0x3f9);
    let e = lemma_chain_multiply(p, g, e, 0x3f9, 0, 0x13dd);
    let e = lemma_chain_square(p, g, e, 0x13dd, 0x21d, 0x7b14);
    let e = lemma_chain_multiply(p, g, e, 0x7b14, 3, 0x37f9);
    let e = lemma_chain_square(p, g, e, 0x37f9, 0x10cd, 0xd4c);
    let e = lemma_chain_multiply(p, g, e, 0xd4c, 0, 0x427c);
    let e = lemma_chain_square(p, g, e, 0x427c, 0x17b4, 0x2ffc);
    let e = lemma_chain_square(p, g, e, 0x2ffc, 0xc58, 0xba78);
}

/// A power of the root 5 modulo 47737.
proof fn lemma_power_47737_2()
    ensures
        pow_mod(5, 0x3e28, 0xba79) == 0xa799,
{
    let p = 0xba79;
    let g = 5;
    lemma_chain_start(p, g);
    let e: nat = 0;
    let e = lemma_chain_square(p, g, e, 1, 0, 1);
    let e = lemma_chain_multiply(p, g, e, 1, 0, 5);
    let e = lemma_chain_square(p, g, e, 5, 0, 0x19);
    let e = lemma_chain_multiply(p, g, e, 0x19, 0, 0x7d);
    let e = lemma_chain_square(p, g, e, 0x7d, 0, 0x3d09);
    let e = lemma_chain_multiply(p, g, e, 0x3d09, 1, 0x76b4);
    let e = lemma_chain_square(p, g, e, 0x76b4, 0x4b90, 0x1780);
    let e = lemma_chain_multiply(p, g, e, 0x1780, 0, 0x7580);
    let e = lemma_chain_square(p, g, e, 0x7580, 0x4a09, 0xb7bf);
    let e = lemma_chain_multiply(p, g, e, 0xb7bf, 4, 0xacd7);
    let e = lemma_chain_square(p, g, e, 0xacd7, 0xa034, 0x1bfd);
    let e = lemma_chain_square(p, g, e, 0x1bfd, 0x433, 0x4dee);
    let e = lemma_chain_square(p, g, e, 0x4dee, 0x2091, 0x4abb);
    let e = lemma_chain_square(p, g, e, 0x4abb, 0x1df2, 0xa937);
    let e = lemma_chain_multiply(p, g, e, 0xa937, 4, 0x642f);
    let e = lemma_chain_square(p, g, e, 0x642f, 0x35d3, 0x1e6);
    let e = lemma_chain_square(p, g, e, 0x1e6, 4, 0xb0c0);
    let e = lemma_chain_multiply(p, g, e, 0xb0c0, 4, 0x89dc);
    let e = lemma_chain_square(p, g, e, 0x89dc, 0x65eb, 0x4afd);
    let e = lemma_chain_square(p, g, e, 0x4afd, 0x1e27, 0xa79a);
    let e = lemma_chain_square(p, g, e, 0xa79a, 0x96a3, 0xa799);
}

/// A power of the root 5 modulo 47737.
proof fn lemma_power_47737_3()
    ensures
        pow_mod(5, 0xe58, 0xba79) == 0x6596,
{
    let p = 0xba79;
    let g = 5;
    lemma_chain_start(p, g);
    let e: nat = 0;
    let e = lemma_chain_square(p, g, e, 1, 0, 1);
    let e = lemma_chain_multiply(p, g, e, 1, 0, 5);
    let e = lemma_chain_square(p, g, e, 5, 0, 0x19);
    let e = lemma_chain_multiply(p, g, e, 0x19, 0, 0x7d);
    let e = lemma_chain_square(p, g, e, 0x7d, 0, 0x3d09);
    let e = lemma_chain_multiply(p, g, e, 0x3d09, 1, 0x76b4);
    let e = lemma_chain_square(p, g, e, 0x76b4, 0x4b90, 0x1780);
    let e = lemma_chain_square(p, g, e, 0x1780, 0x2f6, 0x1dba);
    let e = lemma_chain_square(p, g, e, 0x1dba, 0x4bd, 0x1bcf);
    let e = lemma_chain_multiply(p, g, e, 0x1bcf, 0, 0x8b0b);
    let e = lemma_chain_square(p, g, e, 0x8b0b, 0x67ad, 0x3fb4);
    let e = lemma_chain_square(p, g, e, 0x3fb4, 0x15c3, 0x1f65);
    let e = lemma_chain_multiply(p, g, e, 0x1f65, 0, 0x9cf9);
    let e = lemma_chain_square(p, g, e, 0x9cf9, 0x8423, 0x87a6);
    let e = lemma_chain_multiply(p, g, e, 0x87a6, 3, 0x76d3);
    let e = lemma_chain_square(p, g, e, 0x76d3, 0x4bb7, 0x726a);
    let e = lemma_chain_square(p, g, e, 0x726a, 0x4633, 0x57c9);
    let e = lemma_chain_square(p, g, e, 0x57c9, 0x2953, 0x6596);
}

/// A power of the root 5 modulo 47737.
proof fn lemma_power_47737_4()
    ensures
        pow_mod(5, 0xaf8, 0xba79) == 0x5c88,
{
    let p = 0xba79;
    let g = 5;
    lemma_chain_start(p, g);
    let e: nat = 0;
    let e = lemma_chain_square(p, g, e, 1, 0, 1);
    let e = lemma_chain_multiply(p, g, e, 1, 0, 5);
    let e = lemma_chain_square(p, g, e, 5, 0, 0x19);
    let e = lemma_chain_square(p, g, e, 0x19, 0, 0x271);
    let e = lemma_chain_multiply(p, g, e, 0x271, 0, 0xc35);
    let e = lemma_chain_square(p, g, e, 0xc35, 0xcc, 0x6a8d);
    let e = lemma_chain_square(p, g, e, 0x6a8d, 0x3ce2, 0x16d7);
    let e = lemma_chain_multiply(p, g, e, 0x16d7, 0, 0x7233);
    let e = lemma_chain_square(p, g, e, 0x7233, 0x45f0, 0x7b9);
    let e = lemma_chain_multiply(p, g, e, 0x7b9, 0, 0x269d);
    let e = lemma_chain_square(p, g, e, 0x269d, 0x7fe, 0xa93b);
    let e = lemma_chain_multiply(p, g, e, 0xa93b, 4, 0x6443);
    let e = lemma_chain_square(p, g, e, 0x6443, 0x35e8, 0x5ee1);
    let e = lemma_chain_multiply(p, g, e, 0x5ee1, 2, 0x6573);
    let e = lemma_chain_square(p, g, e, 0x6573, 0x3731, 0x4180);
    let e = lemma_chain_multiply(p, g, e, 0x4180, 1, 0x8d07);
    let e = lemma_chain_square(p, g, e, 0x8d07, 0x6aa8, 0x3cc9);
    let e = lemma_chain_square(p, g, e, 0x3cc9, 0x13d0, 0x5881);
    let e = lemma_chain_square(p, g, e, 0x5881, 0x2a01, 0x5c88);
}

/// A power of a power of the root 5 modulo 47737.
proof fn lemma_power_47737_5()
    ensures
        pow_mod(0xba78, 2, 0xba79) == 1,
{
    let p = 0xba79;
    let g = 0xba78;
    lemma_chain_start(p, g);
    let e: nat = 0;
    let e = lemma_chain_square(p, g, e, 1, 0, 1);
    let e = lemma_chain_multiply(p, g, e, 1, 0, 0xba78);
    let e = lemma_chain_square(p, g, e, 0xba78, 0xba77, 1);
}

/// 5 is a primitive root modulo 47737.
pub proof fn lemma_root_47737()
    ensures
        is_primitive_root(5, 0xba79),
{
    let p = 0xba79;
    let g = 5;
    lemma_power_47737_1();
    lemma_power_47737_2();
    lemma_power_47737_3();
    lemma_power_47737_4();
    lemma_power_47737_5();
    lemma_chain_rebase(p, g, 0x5d3c, 0xba78, 2, 1);
    lemma_two_is_prime();
    lemma_prime_3();
    lemma_prime_13();
    lemma_prime_17();
    assert forall|m: int| m >= 2 && #[trigger] (0xba78int % m) == 0 implies exists|f: int| #[trigger]
        refutes(5, 0xba78, 0xba79, m, f) by {
        lemma_euclid(m, 2, 0x5d3c);
        if m % 2 == 0 {
            assert(refutes(5, 0xba78, 0xba79, m, 2));
        } else {
            lemma_euclid(m, 2, 0x2e9e);
            lemma_euclid(m, 2, 0x174f);
            lemma_euclid(m, 3, 0x7c5);
            if m % 3 == 0 {
                assert(refutes(5, 0xba78, 0xba79, m, 3));
            } else {
                lemma_euclid(m, 3, 0x297);
                lemma_euclid(m, 3, 0xdd);
                lemma_euclid(m, 0xd, 0x11);
                if m % 0xd == 0 {
                    assert(refutes(5, 0xba78, 0xba79, m, 0xd));
                } else {
                    lemma_euclid(m, 0x11, 1);
                    if m % 0x11 == 0 {
                        assert(refutes(5, 0xba78, 0xba79, m, 0x11));
                    } else {
                        lemma_small_mod(1, m as nat);
                    }
                }
            }
        }
    }
    lemma_lucas(0xba79, 0xba78, 5);
}

/// 47737 is prime.
pub proof fn lemma_prime_47737()
    ensures
        is_prime(0xba79),
{
    lemma_root_47737();
    lemma_root_gives_prime(5, 0xba79);
}

/// A power of the root 2 modulo 859267.
proof fn lemma_power_859267_1()
    ensures
        pow_mod(2, 0x68e41, 0xd1c83) == 0xd1c82,
{
    let p = 0xd1c83;
    let g = 2;
    lemma_chain_start(p, g);
    let e: nat = 0;
    let e = lemma_chain_square(p, g, e, 1, 0, 1);
    let e = lemma_chain_multiply(p, g, e, 1, 0, 2);
    let e = lemma_chain_square(p, g, e, 2, 0, 4);
    let e = lemma_chain_multiply(p, g, e, 4, 0, 8);
    let e = lemma_chain_square(p, g, e, 8, 0, 0x40);
    let e = lemma_chain_square(p, g, e, 0x40, 0, 0x1000);
    let e = lemma_chain_multiply(p, g, e, 0x1000, 0, 0x2000);
    let e = lemma_chain_square(p, g, e, 0x2000, 0x4e, 0x15016);
    let e = lemma_chain_square(p, g, e, 0x15016, 0x21a6, 0xc61f2);
    let e = lemma_chain_square(p, g, e, 0xc61f2, 0xbb1bf, 0x97007);
    let e = lemma_chain_square(p, g, e, 0x97007, 0x6cb10, 0x47701);
    let e = lemma_chain_multiply(p, g, e, 0x47701, 0, 0x8ee02);
    let e = lemma_chain_square(p, g, e, 0x8ee02, 0x614ec, 0x53340);
    let e = lemma_chain_multiply(p, g, e, 0x53340, 0, 0xa6680);
    let e = lemma_chain_square(p, g, e, 0xa6680, 0x83ffc, 0x5f20c);
    let e = lemma_chain_multiply(p, g, e, 0x5f20c, 0, 0xbe418);
    let e = lemma_chain_square(p, g, e, 0xbe418, 0xac8c1, 0x3eb7d);
    let e = lemma_chain_square(p, g, e, 0x3eb7d, 0x12c02, 0x8fe03);
    let e = lemma_chain_square(p, g, e, 0x8fe03, 0x62acc, 0x7bda5);
    let e = lemma_chain_multiply(p, g, e, 0x7bda5, 1, 0x25ec7);
    let e = lemma_chain_square(p, g, e, 0x25ec7, 0x6db0, 0xb5da1);
    let e = lemma_chain_square(p, g, e, 0xb5da1, 0x9da3e, 0x4e987);
    let e = lemma_chain_square(p, g, e, 0x4e987, 0x1d722, 0xc36cb);
    let e = lemma_chain_square(p, g, e, 0xc36cb, 0xb60cb, 0xa8918);
    let e = lemma_chain_square(p, g, e, 0xa8918, 0x87739, 0x67415);
    let e = lemma_chain_square(p, g, e, 0x67415, 0x32d28, 0x68e41);
    let e = lemma_chain_multiply(p, g, e, 0x68e41, 0, 0xd1c82);
}

/// A power of the root 2 modulo 859267.
proof fn lemma_power_859267_2()
    ensures
        pow_mod(2, 0x45ed6, 0xd1c83) == 0x1d313,
{
    let p = 0xd1c83;
    let g = 2;
    lemma_chain_start(p, g);
    let e: nat = 0;
    let e = lemma_chain_square(p, g, e, 1, 0, 1);
    let e = lemma_chain_multiply(p, g, e, 1, 0, 2);
    let e = lemma_chain_square(p, g, e, 2, 0, 4);
    let e = lemma_chain_square(p, g, e, 4, 0, 0x10);
    let e = lemma_chain_square(p, g, e, 0x10, 0, 0x100);
    let e = lemma_chain_square(p, g, e, 0x100, 0, 0x10000);
    let e = lemma_chain_multiply(p, g, e, 0x10000, 0, 0x20000);
    let e = lemma_chain_square(p, g, e, 0x20000, 0x4e19, 0x84d35);
    let e = lemma_chain_square(p, g, e, 0x84d35, 0x54198, 0x3bc31);
    let e = lemma_chain_multiply(p, g, e, 0x3bc31, 0, 0x77862);
    let e = lemma_chain_square(p, g, e, 0x77862, 0x44196, 0xdc2);
    let e = lemma_chain_multiply(p, g, e, 0xdc2, 0, 0x1b84);
    let e = lemma_chain_square(p, g, e, 0x1b84, 0x39, 0x9c2e5);
    let e = lemma_chain_multiply(p, g, e, 0x9c2e5, 1, 0x66947);
    let e = lemma_chain_square(p, g, e, 0x66947, 0x3228e, 0x71b07);
    let e = lemma_chain_multiply(p, g, e, 0x71b07, 1, 0x1198b);
    let e = lemma_chain_square(p, g, e, 0x1198b, 0x179d, 0x83022);
    let e = lemma_chain_square(p, g, e, 0x83022, 0x51d07, 0x725ef);
    let e = lemma_chain_multiply(p, g, e, 0x725ef, 1, 0x12f5b);
    let e = lemma_chain_square(p, g, e, 0x12f5b, 0x1b6a, 0x8eb1b);
    let e = lemma_chain_multiply(p, g, e, 0x8eb1b, 1, 0x4b9b3);
    let e = lemma_chain_square(p, g, e, 0x4b9b3, 0x1b3fa, 0xbc23b);
    let e = lemma_chain_square(p, g, e, 0xbc23b, 0xa8bac, 0x73095);
    let e = lemma_chain_multiply(p, g, e, 0x73095, 1, 0x144a7);
    let e = lemma_chain_square(p, g, e, 0x144a7, 0x1f66, 0x9ebbf);
    let e = lemma_chain_square(p, g, e, 0x9ebbf, 0x781ba, 0xc7e53);
    let e = lemma_chain_multiply(p, g, e, 0xc7e53, 1, 0xbe023);
    let e = lemma_chain_square(p, g, e, 0xbe023, 0xac195, 0xe98a);
    let e = lemma_chain_multiply(p, g, e, 0xe98a, 0, 0x1d314);
    let e = lemma_chain_square(p, g, e, 0x1d314, 0x40ff, 0x1d313);
}

/// A power of the root 2 modulo 859267.
proof fn lemma_power_859267_3()
    ensures
        pow_mod(2, 0x12, 0xd1c83) == 0x40000,
{
    let p = 0xd1c83;
    let g = 2;
    lemma_chain_start(p, g);
    let e: nat = 0;
    let e = lemma_chain_square(p, g, e, 1, 0, 1);
    let e = lemma_chain_multiply(p, g, e, 1, 0, 2);
    let e = lemma_chain_square(p, g, e, 2, 0, 4);
    let e = lemma_chain_square(p, g, e, 4, 0, 0x10);
    let e = lemma_chain_square(p, g, e, 0x10, 0, 0x100);
    let e = lemma_chain_multiply(p, g, e, 0x100, 0, 0x200);
    let e = lemma_chain_square(p, g, e, 0x200, 0, 0x40000);
}

/// A power of a power of the root 2 modulo 859267.
proof fn lemma_power_859267_4()
    ensures
        pow_mod(0xd1c82, 2, 0xd1c83) == 1,
{
    let p = 0xd1c83;
    let g = 0xd1c82;
    lemma_chain_start(p, g);
    let e: nat = 0;
    let e = lemma_chain_square(p, g, e, 1, 0, 1);
    let e = lemma_chain_multiply(p, g, e, 1, 0, 0xd1c82);
    let e = lemma_chain_square(p, g, e, 0xd1c82, 0xd1c81, 1);
}

/// 2 is a primitive root modulo 859267.
pub proof fn lemma_root_859267()
    ensures
        is_primitive_root(2, 0xd1c83),
{
    let p = 0xd1c83;
    let g = 2;
    lemma_power_859267_1();
    lemma_power_859267_2();
    lemma_power_859267_3();
    lemma_power_859267_4();
    lemma_chain_rebase(p, g, 0x68e41, 0xd1c82, 2, 1);
    lemma_two_is_prime();
    lemma_prime_3();
    lemma_prime_47737();
    assert forall|m: int| m >= 2 && #[trigger] (0xd1c82int % m) == 0 implies exists|f: int| #[trigger]
        refutes(2, 0xd1c82, 0xd1c83, m, f) by {
        lemma_euclid(m, 2, 0x68e41);
        if m % 2 == 0 {
            assert(refutes(2, 0xd1c82, 0xd1c83, m, 2));
        } else {
            lemma_euclid(m, 3, 0x22f6b);
            if m % 3 == 0 {
                assert(refutes(2, 0xd1c82, 0xd1c83, m, 3));
            } else {
                lemma_euclid(m, 3, 0xba79);
                lemma_euclid(m, 0xba79, 1);
                if m % 0xba79 == 0 {
                    assert(refutes(2, 0xd1c82, 0xd1c83, m, 0xba79));
                } else {
                    lemma_small_mod(1, m as nat);
                }
            }
        }
    }
    lemma_lucas(0xd1c83, 0xd1c82, 2);
}

/// 859267 is prime.
pub proof fn lemma_prime_859267()
    ensures
        is_prime(0xd1c83),
{
    lemma_root_859267();
    lemma_root_gives_prime(2, 0xd1c83);
}

/// A power of the root 5 modulo 23.
proof fn lemma_power_23_1()
    ensures
        pow_mod(5, 0xb, 0x17) == 0x16,
{
    let p = 0x17;
    let g = 5;
    lemma_chain_start(p, g);
    let e: nat = 0;
    let e = lemma_chain_square(p, g, e, 1, 0, 1);
    let e = lemma_chain_multiply(p, g, e, 1, 0, 5);
    let e = lemma_chain_square(p, g, e, 5, 1, 2);
    let e = lemma_chain_square(p, g, e, 2, 0, 4);
    let e = lemma_chain_multiply(p, g, e, 4, 0, 0x14);
    let e = lemma_chain_square(p, g, e, 0x14, 0x11, 9);
    let e = lemma_chain_multiply(p, g, e, 9, 1, 0x16);
}

/// A power of the root 5 modulo 23.
proof fn lemma_power_23_2()
    ensures
        pow_mod(5, 2, 0x17) == 2,
{
    let p = 0x17;
    let g = 5;
    lemma_chain_start(p, g);
    let e: nat = 0;
    let e = lemma_chain_square(p, g, e, 1, 0, 1);
    let e = lemma_chain_multiply(p, g, e, 1, 0, 5);
    let e = lemma_chain_square(p, g, e, 5, 1, 2);
}

/// A power of a power of the root 5 modulo 23.
proof fn lemma_power_23_3()
    ensures
        pow_mod(0x16, 2, 0x17) == 1,
{
    let p = 0x17;
    let g = 0x16;
    lemma_chain_start(p, g);
    let e: nat = 0;
    let e = lemma_chain_square(p, g, e, 1, 0, 1);
    let e = lemma_chain_multiply(p, g, e, 1, 0, 0x16);
    let e = lemma_chain_square(p, g, e, 0x16, 0x15, 1);
}

/// 5 is a primitive root modulo 23.
pub proof fn lemma_root_23()
    ensures
        is_primitive_root(5, 0x17),
{
    let p = 0x17;
    let g = 5;
    lemma_power_23_1();
    lemma_power_23_2();
    lemma_power_23_3();
    lemma_chain_rebase(p, g, 0xb, 0x16, 2, 1);
    lemma_two_is_prime();
    lemma_prime_11();
    assert forall|m: int| m >= 2 && #[trigger] (0x16int % m) == 0 implies exists|f: int| #[trigger]
        refutes(5, 0x16, 0x17, m, f) by {
        lemma_euclid(m, 2, 0xb);
        if m % 2 == 0 {
            assert(refutes(5, 0x16, 0x17, m, 2));
        } else {
            lemma_euclid(m, 0xb, 1);
            if m % 0xb == 0 {
                assert(refutes(5, 0x16, 0x17, m, 0xb));
            } else {
                lemma_small_mod(1, m as nat);
            }
        }
    }
    lemma_lucas(0x17, 0x16, 5);
}

/// 23 is prime.
pub proof fn lemma_prime_23()
    ensures
        is_prime(0x17),
{
    lemma_root_23();
    lemma_root_gives_prime(5, 0x17);
}

/// A power of the root 5 modulo 47.
proof fn lemma_power_47_1()
    ensures
        pow_mod(5, 0x17, 0x2f) == 0x2e,
{
    let p = 0x2f;
    let g = 5;
    lemma_chain_start(p, g);
    let e: nat = 0;
    let e = lemma_chain_square(p, g, e, 1, 0, 1);
    let e = lemma_chain_multiply(p, g, e, 1, 0, 5);
    let e = lemma_chain_square(p, g, e, 5, 0, 0x19);
    let e = lemma_chain_square(p, g, e, 0x19, 0xd, 0xe);
    let e = lemma_chain_multiply(p, g, e, 0xe, 1, 0x17);
    let e = lemma_chain_square(p, g, e, 0x17, 0xb, 0xc);
    let e = lemma_chain_multiply(p, g, e, 0xc, 1, 0xd);
    let e = lemma_chain_square(p, g, e, 0xd, 3, 0x1c);
    let e = lemma_chain_multiply(p, g, e, 0x1c, 2, 0x2e);
}

/// A power of the root 5 modulo 47.
proof fn lemma_power_47_2()
    ensures
        pow_mod(5, 2, 0x2f) == 0x19,
{
    let p = 0x2f;
    let g = 5;
    lemma_chain_start(p, g);
    let e: nat = 0;
    let e = lemma_chain_square(p, g, e, 1, 0, 1);
    let e = lemma_chain_multiply(p, g, e, 1, 0, 5);
    let e = lemma_chain_square(p, g, e, 5, 0, 0x19);
}

/// A power of a power of the root 5 modulo 47.
proof fn lemma_power_47_3()
    ensures
        pow_mod(0x2e, 2, 0x2f) == 1,
{
    let p = 0x2f;
    let g = 0x2e;
    lemma_chain_start(p, g);
    let e: nat = 0;
    let e = lemma_chain_square(p, g, e, 1, 0, 1);
    let e = lemma_chain_multiply(p, g, e, 1, 0, 0x2e);
    let e = lemma_chain_square(p, g, e, 0x2e, 0x2d, 1);
}

/// 5 is a primitive root modulo 47.
pub proof fn lemma_root_47()
    ensures
        is_primitive_root(5, 0x2f),
{
    let p = 0x2f;
    let g = 5;
    lemma_power_47_1();
    lemma_power_47_2();
    lemma_power_47_3();
    lemma_chain_rebase(p, g, 0x17, 0x2e, 2, 1);
    lemma_two_is_prime();
    lemma_prime_23();
    assert forall|m: int| m >= 2 && #[trigger] (0x2eint % m) == 0 implies exists|f: int| #[trigger]
        refutes(5, 0x2e, 0x2f, m, f) by {
        lemma_euclid(m, 2, 0x17);
        if m % 2 == 0 {
            assert(refutes(5, 0x2e, 0x2f, m, 2));
        } else {
            lemma_euclid(m, 0x17, 1);
            if m % 0x17 == 0 {
                assert(refutes(5, 0x2e, 0x2f, m, 0x17));
            } else {
                lemma_small_mod(1, m as nat);
            }
        }
    }
    lemma_lucas(0x2f, 0x2e, 5);
}

/// 47 is prime.
pub proof fn lemma_prime_47()
    ensures
        is_prime(0x2f),
{
    lemma_root_47();
    lemma_root_gives_prime(5, 0x2f);
}

/// A power of the root 5 modulo 73.
proof fn lemma_power_73_1()
    ensures
        pow_mod(5, 0x24, 0x49) == 0x48,
{
    let p = 0x49;
    let g = 5;
    lemma_chain_start(p, g);
    let e: nat = 0;
    let e = lemma_chain_square(p, g, e, 1, 0, 1);
    let e = lemma_chain_multiply(p, g, e, 1, 0, 5);
    let e = lemma_chain_square(p, g, e, 5, 0, 0x19);
    let e = lemma_chain_square(p, g, e, 0x19, 8, 0x29);
    let e = lemma_chain_square(p, g, e, 0x29, 0x17, 2);
    let e = lemma_chain_multiply(p, g, e, 2, 0, 0xa);
    let e = lemma_chain_square(p, g, e, 0xa, 1, 0x1b);
    let e = lemma_chain_square(p, g, e, 0x1b, 9, 0x48);
}

/// A power of the root 5 modulo 73.
proof fn lemma_power_73_2()
    ensures
        pow_mod(5, 0x18, 0x49) == 8,
{
    let p = 0x49;
    let g = 5;
    lemma_chain_start(p, g);
    let e: nat = 0;
    let e = lemma_chain_square(p, g, e, 1, 0, 1);
    let e = lemma_chain_multiply(p, g, e, 1, 0, 5);
    let e = lemma_chain_square(p, g, e, 5, 0, 0x19);
    let e = lemma_chain_multiply(p, g, e, 0x19, 1, 0x34);
    let e = lemma_chain_square(p, g, e, 0x34, 0x25, 3);
    let e = lemma_chain_square(p, g, e, 3, 0, 9);
    let e = lemma_chain_square(p, g, e, 9, 1, 8);
}

/// A power of a power of the root 5 modulo 73.
proof fn lemma_power_73_3()
    ensures
        pow_mod(0x48, 2, 0x49) == 1,
{
    let p = 0x49;
    let g = 0x48;
    lemma_chain_start(p, g);
    let e: nat = 0;
    let e = lemma_chain_square(p, g, e, 1, 0, 1);
    let e = lemma_chain_multiply(p, g, e, 1, 0, 0x48);
    let e = lemma_chain_square(p, g, e, 0x48, 0x47, 1);
}

/// 5 is a primitive root modulo 73.
pub proof fn lemma_root_73()
    ensures
        is_primitive_root(5, 0x49),
{
    let p = 0x49;
    let g = 5;
    lemma_power_73_1();
    lemma_power_73_2();
    lemma_power_73_3();
    lemma_chain_rebase(p, g, 0x24, 0x48, 2, 1);
    lemma_two_is_prime();
    lemma_prime_3();
    assert forall|m: int| m >= 2 && #[trigger] (0x48int % m) == 0 implies exists|f: int| #[trigger]
        refutes(5, 0x48, 0x49, m, f) by {
        lemma_euclid(m, 2, 0x24);
        if m % 2 == 0 {
            assert(refutes(5, 0x48, 0x49, m, 2));
        } else {
            lemma_euclid(m, 2, 0x12);
            lemma_euclid(m, 2, 9);
            lemma_euclid(m, 3, 3);
            if m % 3 == 0 {
                assert(refutes(5, 0x48, 0x49, m, 3));
            } else {
                lemma_euclid(m, 3, 1);
                lemma_small_mod(1, m as nat);
            }
        }
    }
    lemma_lucas(0x49, 0x48, 5);
}

/// 73 is prime.
pub proof fn lemma_prime_73()
    ensures
        is_prime(0x49),
{
    lemma_root_73();
    lemma_root_gives_prime(5, 0x49);
}

/// A power of the root 5 modulo 1607.
proof fn lemma_power_1607_1()
    ensures
        pow_mod(5, 0x323, 0x647) == 0x646,
{
    let p = 0x647;
    let g = 5;
    lemma_chain_start(p, g);
    let e: nat = 0;
    let e = lemma_chain_square(p, g, e, 1, 0, 1);
    let e = lemma_chain_multiply(p, g, e, 1, 0, 5);
    let e = lemma_chain_square(p, g, e, 5, 0, 0x19);
    let e = lemma_chain_multiply(p, g, e, 0x19, 0, 0x7d);
    let e = lemma_chain_square(p, g, e, 0x7d, 9, 0x48a);
    let e = lemma_chain_square(p, g, e, 0x48a, 0x348, 0x16c);
    let e = lemma_chain_square(p, g, e, 0x16c, 0x52, 0x2d2);
    let e = lemma_chain_multiply(p, g, e, 0x2d2, 2, 0x18c);
    let e = lemma_chain_square(p, g, e, 0x18c, 0x61, 0x3a9);
    let e = lemma_chain_square(p, g, e, 0x3a9, 0x222, 0x223);
    let e = lemma_chain_square(p, g, e, 0x223, 0xba, 0x133);
    let e = lemma_chain_square(p, g, e, 0x133, 0x3a, 0x413);
    let e = lemma_chain_multiply(p, g, e, 0x413, 3, 0x18a);
    let e = lemma_chain_square(p, g, e, 0x18a, 0x60, 0x3c4);
    let e = lemma_chain_multiply(p, g, e, 0x3c4, 2, 0x646);
}

/// A power of the root 5 modulo 1607.
proof fn lemma_power_1607_2()
    ensures
        pow_mod(5, 0x92, 0x647) == 0x5f2,
{
    let p = 0x647;
    let g = 5;
    lemma_chain_start(p, g);
    let e: nat = 0;
    let e = lemma_chain_square(p, g, e, 1, 0, 1);
    let e = lemma_chain_multiply(p, g, e, 1, 0, 5);
    let e = lemma_chain_square(p, g, e, 5, 0, 0x19);
    let e = lemma_chain_square(p, g, e, 0x19, 0, 0x271);
    let e = lemma_chain_square(p, g, e, 0x271, 0xf3, 0x7c);
    let e = lemma_chain_multiply(p, g, e, 0x7c, 0, 0x26c);
    let e = lemma_chain_square(p, g, e, 0x26c, 0xef, 0x147);
    let e = lemma_chain_square(p, g, e, 0x147, 0x42, 0x363);
    let e = lemma_chain_square(p, g, e, 0x363, 0x1d3, 0x4c4);
    let e = lemma_chain_multiply(p, g, e, 0x4c4, 3, 0x4ff);
    let e = lemma_chain_square(p, g, e, 0x4ff, 0x3f9, 0x5f2);
}

/// A power of the root 5 modulo 1607.
proof fn lemma_power_1607_3()
    ensures
        pow_mod(5, 0x16, 0x647) == 0x11e,
{
    let p = 0x647;
    let g = 5;
    lemma_chain_start(p, g);
    let e: nat = 0;
    let e = lemma_chain_square(p, g, e, 1, 0, 1);
    let e = lemma_chain_multiply(p, g, e, 1, 0, 5);
    let e = lemma_chain_square(p, g, e, 5, 0, 0x19);
    let e = lemma_chain_square(p, g, e, 0x19, 0, 0x271);
    let e = lemma_chain_multiply(p, g, e, 0x271, 1, 0x5ee);
    let e = lemma_chain_square(p, g, e, 0x5ee, 0x599, 0x5d5);
    let e = lemma_chain_multiply(p, g, e, 0x5d5, 4, 0x40d);
    let e = lemma_chain_square(p, g, e, 0x40d, 0x29d, 0x11e);
}

/// A power of a power of the root 5 modulo 1607.
proof fn lemma_power_1607_4()
    ensures
        pow_mod(0x646, 2, 0x647) == 1,
{
    let p = 0x647;
    let g = 0x646;
    lemma_chain_start(p, g);
    let e: nat = 0;
    let e = lemma_chain_square(p, g, e, 1, 0, 1);
    let e = lemma_chain_multiply(p, g, e, 1, 0, 0x646);
    let e = lemma_chain_square(p, g, e, 0x646, 0x645, 1);
}

/// 5 is a primitive root modulo 1607.
pub proof fn lemma_root_1607()
    ensures
        is_primitive_root(5, 0x647),
{
    let p = 0x647;
    let g = 5;
    lemma_power_1607_1();
    lemma_power_1607_2();
    lemma_power_1607_3();
    lemma_power_1607_4();
    lemma_chain_rebase(p, g, 0x323, 0x646, 2, 1);
    lemma_two_is_prime();
    lemma_prime_11();
    lemma_prime_73();
    assert forall|m: int| m >= 2 && #[trigger] (0x646int % m) == 0 implies exists|f: int| #[trigger]
        refutes(5, 0x646, 0x647, m, f) by {
        lemma_euclid(m, 2, 0x323);
        if m % 2 == 0 {
            assert(refutes(5, 0x646, 0x647, m, 2));
        } else {
            lemma_euclid(m, 0xb, 0x49);
            if m % 0xb == 0 {
                assert(refutes(5, 0x646, 0x647, m, 0xb));
            } else {
                lemma_euclid(m, 0x49, 1);
                if m % 0x49 == 0 {
                    assert(refutes(5, 0x646, 0x647, m, 0x49));
                } else {
                    lemma_small_mod(1, m as nat);
                }
            }
        }
    }
    lemma_lucas(0x647, 0x646, 5);
}

/// 1607 is prime.
pub proof fn lemma_prime_1607()
    ensures
        is_prime(0x647),
{
    lemma_root_1607();
    lemma_root_gives_prime(5, 0x647);
}

/// A power of the root 2 modulo 906349.
proof fn lemma_power_906349_1()
    ensures
        pow_mod(2, 0x6ea36, 0xdd46d) == 0xdd46c,
{
    let p = 0xdd46d;
    let g = 2;
    lemma_chain_start(p, g);
    let e: nat = 0;
    let e = lemma_chain_square(p, g, e, 1, 0, 1);
    let e = lemma_chain_multiply(p, g, e, 1, 0, 2);
    let e = lemma_chain_square(p, g, e, 2, 0, 4);
    let e = lemma_chain_multiply(p, g, e, 4, 0, 8);
    let e = lemma_chain_square(p, g, e, 8, 0, 0x40);
    let e = lemma_chain_square(p, g, e, 0x40, 0, 0x1000);
    let e = lemma_chain_multiply(p, g, e, 0x1000, 0, 0x2000);
    let e = lemma_chain_square(p, g, e, 0x2000, 0x4a, 0x987e);
    let e = lemma_chain_multiply(p, g, e, 0x987e, 0, 0x130fc);
    let e = lemma_chain_square(p, g, e, 0x130fc, 0x1a45, 0xa24af);
    let e = lemma_chain_multiply(p, g, e, 0xa24af, 1, 0x674f1);
    let e = lemma_chain_square(p, g, e, 0x674f1, 0x303b8, 0x25589);
    let e = lemma_chain_square(p, g, e, 0x25589, 0x64d9, 0x49eec);
    let e = lemma_chain_multiply(p, g, e, 0x49eec, 0, 0x93dd8);
    let e = lemma_chain_square(p, g, e, 0x93dd8, 0x62cf1, 0xaefa3);
    let e = lemma_chain_square(p, g, e, 0xaefa3, 0x8a5d9, 0x27064);
    let e = lemma_chain_multiply(p, g, e, 0x27064, 0, 0x4e0c8);
    let e = lemma_chain_square(p, g, e, 0x4e0c8, 0x1b878, 0x7b128);
    let e = lemma_chain_square(p, g, e, 0x7b128, 0x4473a, 0x7fa8e);
    let e = lemma_chain_square(p, g, e, 0x7fa8e, 0x49a65, 0xb45c3);
    let e = lemma_chain_square(p, g, e, 0xb45c3, 0x93026, 0xdba5b);
    let e = lemma_chain_multiply(p, g, e, 0xdba5b, 1, 0xda049);
    let e = lemma_chain_square(p, g, e, 0xda049, 0xd6ce9, 0x8019c);
    let e = lemma_chain_multiply(p, g, e, 0x8019c, 1, 0x22ecb);
    let e = lemma_chain_square(p, g, e, 0x22ecb, 0x5832, 0x9faf);
    let e = lemma_chain_square(p, g, e, 0x9faf, 0x733, 0xa8cea);
    let e = lemma_chain_multiply(p, g, e, 0xa8cea, 1, 0x74567);
    let e = lemma_chain_square(p, g, e, 0x74567, 0x3d2a5, 0x5b30);
    let e = lemma_chain_multiply(p, g, e, 0x5b30, 0, 0xb660);
    let e = lemma_chain_square(p, g, e, 0xb660, 0x964, 0xdd46c);
}

/// A power of the root 2 modulo 906349.
proof fn lemma_power_906349_2()
    ensures
        pow_mod(2, 0x49c24, 0xdd46d) == 0x275de,
{
    let p = 0xdd46d;
    let g = 2;
    lemma_chain_start(p, g);
    let e: nat = 0;
    let e = lemma_chain_square(p, g, e, 1, 0, 1);
    let e = lemma_chain_multiply(p, g, e, 1, 0, 2);
    let e = lemma_chain_square(p, g, e, 2, 0, 4);
    let e = lemma_chain_square(p, g, e, 4, 0, 0x10);
    let e = lemma_chain_square(p, g, e, 0x10, 0, 0x100);
    let e = lemma_chain_multiply(p, g, e, 0x100, 0, 0x200);
    let e = lemma_chain_square(p, g, e, 0x200, 0, 0x40000);
    let e = lemma_chain_square(p, g, e, 0x40000, 0x1282c, 0x17544);
    let e = lemma_chain_square(p, g, e, 0x17544, 0x275a, 0x5f0be);
    let e = lemma_chain_multiply(p, g, e, 0x5f0be, 0, 0xbe17c);
    let e = lemma_chain_square(p, g, e, 0xbe17c, 0xa34db, 0x656d1);
    let e = lemma_chain_multiply(p, g, e, 0x656d1, 0, 0xcada2);
    let e = lemma_chain_square(p, g, e, 0xcada2, 0xb9f62, 0xa55ca);
    let e = lemma_chain_multiply(p, g, e, 0xa55ca, 1, 0x6d727);
    let e = lemma_chain_square(p, g, e, 0x6d727, 0x36226, 0x45c3);
    let e = lemma_chain_square(p, g, e, 0x45c3, 0x15f, 0xc7116);
    let e = lemma_chain_square(p, g, e, 0xc7116, 0xb3169, 0x702f);
    let e = lemma_chain_square(p, g, e, 0x702f, 0x38e, 0xd2b);
    let e = lemma_chain_square(p, g, e, 0xd2b, 0xc, 0x7701d);
    let e = lemma_chain_multiply(p, g, e, 0x7701d, 1, 0x10bcd);
    let e = lemma_chain_square(p, g, e, 0x10bcd, 0x1441, 0x9ce7c);
    let e = lemma_chain_square(p, g, e, 0x9ce7c, 0x6f429, 0x6e29b);
    let e = lemma_chain_square(p, g, e, 0x6e29b, 0x36d83, 0xced12);
    let e = lemma_chain_multiply(p, g, e, 0xced12, 1, 0xc05b7);
    let e = lemma_chain_square(p, g, e, 0xc05b7, 0xa737a, 0x275df);
    let e = lemma_chain_square(p, g, e, 0x275df, 0x700f, 0x275de);
}

/// A power of the root 2 modulo 906349.
proof fn lemma_power_906349_3()
    ensures
        pow_mod(2, 0x4b54, 0xdd46d) == 0x10ee0,
{
    let p = 0xdd46d;
    let g = 2;
    lemma_chain_start(p, g);
    let e: nat = 0;
    let e = lemma_chain_square(p, g, e, 1, 0, 1);
    let e = lemma_chain_multiply(p, g, e, 1, 0, 2);
    let e = lemma_chain_square(p, g, e, 2, 0, 4);
    let e = lemma_chain_square(p, g, e, 4, 0, 0x10);
    let e = lemma_chain_square(p, g, e, 0x10, 0, 0x100);
    let e = lemma_chain_multiply(p, g, e, 0x100, 0, 0x200);
    let e = lemma_chain_square(p, g, e, 0x200, 0, 0x40000);
    let e = lemma_chain_square(p, g, e, 0x40000, 0x1282c, 0x17544);
    let e = lemma_chain_multiply(p, g, e, 0x17544, 0, 0x2ea88);
    let e = lemma_chain_square(p, g, e, 0x2ea88, 0x9d69, 0x9ee8b);
    let e = lemma_chain_multiply(p, g, e, 0x9ee8b, 1, 0x608a9);
    let e = lemma_chain_square(p, g, e, 0x608a9, 0x2a1ec, 0x49e15);
    let e = lemma_chain_square(p, g, e, 0x49e15, 0x18aac, 0xb727d);
    let e = lemma_chain_multiply(p, g, e, 0xb727d, 1, 0x9108d);
    let e = lemma_chain_square(p, g, e, 0x9108d, 0x5f0fd, 0x9cdf0);
    let e = lemma_chain_square(p, g, e, 0x9cdf0, 0x6f362, 0xd7846);
    let e = lemma_chain_multiply(p, g, e, 0xd7846, 1, 0xd1c1f);
    let e = lemma_chain_square(p, g, e, 0xd1c1f, 0xc6d69, 0x2420c);
    let e = lemma_chain_square(p, g, e, 0x2420c, 0x5e60, 0xa81b0);
    let e = lemma_chain_multiply(p, g, e, 0xa81b0, 1, 0x72ef3);
    let e = lemma_chain_square(p, g, e, 0x72ef3, 0x3bb2d, 0x54480);
    let e = lemma_chain_square(p, g, e, 0x54480, 0x201a0, 0x10ee0);
}

/// A power of the root 2 modulo 906349.
proof fn lemma_power_906349_4()
    ensures
        pow_mod(2, 0x234, 0xdd46d) == 0x335f1,
{
    let p = 0xdd46d;
    let g = 2;
    lemma_chain_start(p, g);
    let e: nat = 0;
    let e = lemma_chain_square(p, g, e, 1, 0, 1);
    let e = lemma_chain_multiply(p, g, e, 1, 0, 2);
    let e = lemma_chain_square(p, g, e, 2, 0, 4);
    let e = lemma_chain_square(p, g, e, 4, 0, 0x10);
    let e = lemma_chain_square(p, g, e, 0x10, 0, 0x100);
    let e = lemma_chain_square(p, g, e, 0x100, 0, 0x10000);
    let e = lemma_chain_multiply(p, g, e, 0x10000, 0, 0x20000);
    let e = lemma_chain_square(p, g, e, 0x20000, 0x4a0b, 0x5d51);
    let e = lemma_chain_multiply(p, g, e, 0x5d51, 0, 0xbaa2);
    let e = lemma_chain_square(p, g, e, 0xbaa2, 0x9d6, 0x86666);
    let e = lemma_chain_square(p, g, e, 0x86666, 0x51a1e, 0x279de);
    let e = lemma_chain_multiply(p, g, e, 0x279de, 0, 0x4f3bc);
    let e = lemma_chain_square(p, g, e, 0x4f3bc, 0x1c5f1, 0x49673);
    let e = lemma_chain_square(p, g, e, 0x49673, 0x18598, 0x335f1);
}

/// A power of a power of the root 2 modulo 906349.
proof fn lemma_power_906349_5()
    ensures
        pow_mod(0xdd46c, 2, 0xdd46d) == 1,
{
    let p = 0xdd46d;
    let g = 0xdd46c;
    lemma_chain_start(p, g);
    let e: nat = 0;
    let e = lemma_chain_square(p, g, e, 1, 0, 1);
    let e = lemma_chain_multiply(p, g, e, 1, 0, 0xdd46c);
    let e = lemma_chain_square(p, g, e, 0xdd46c, 0xdd46b, 1);
}

/// 2 is a primitive root modulo 906349.
pub proof fn lemma_root_906349()
    ensures
        is_primitive_root(2, 0xdd46d),
{
    let p = 0xdd46d;
    let g = 2;
    lemma_power_906349_1();
    lemma_power_906349_2();
    lemma_power_906349_3();
    lemma_power_906349_4();
    lemma_power_906349_5();
    lemma_chain_rebase(p, g, 0x6ea36, 0xdd46c, 2, 1);
    lemma_two_is_prime();
    lemma_prime_3();
    lemma_prime_47();
    lemma_prime_1607();
    assert forall|m: int| m >= 2 && #[trigger] (0xdd46cint % m) == 0 implies exists|f: int| #[trigger]
        refutes(2, 0xdd46c, 0xdd46d, m, f) by {
        lemma_euclid(m, 2, 0x6ea36);
        if m % 2 == 0 {
            assert(refutes(2, 0xdd46c, 0xdd46d, m, 2));
        } else {
            lemma_euclid(m, 2, 0x3751b);
            lemma_euclid(m, 3, 0x12709);
            if m % 3 == 0 {
                assert(refutes(2, 0xdd46c, 0xdd46d, m, 3));
            } else {
                lemma_euclid(m, 0x2f, 0x647);
                if m % 0x2f == 0 {
                    assert(refutes(2, 0xdd46c, 0xdd46d, m, 0x2f));
                } else {
                    lemma_euclid(m, 0x647, 1);
                    if m % 0x647 == 0 {
                        assert(refutes(2, 0xdd46c, 0xdd46d, m, 0x647));
                    } else {
                        lemma_small_mod(1, m as nat);
                    }
                }
            }
        }
    }
    lemma_lucas(0xdd46d, 0xdd46c, 2);
}

/// 906349 is prime.
pub proof fn lemma_prime_906349()
    ensures
        is_prime(0xdd46d),
{
    lemma_root_906349();
    lemma_root_gives_prime(2, 0xdd46d);
}

/// A power of the root 3 modulo 79.
proof fn lemma_power_79_1()
    ensures
        pow_mod(3, 0x27, 0x4f) == 0x4e,
{
    let p = 0x4f;
    let g = 3;
    lemma_chain_start(p, g);
    let e: nat = 0;
    let e = lemma_chain_square(p, g, e, 1, 0, 1);
    let e = lemma_chain_multiply(p, g, e, 1, 0, 3);
    let e = lemma_chain_square(p, g, e, 3, 0, 9);
    let e = lemma_chain_square(p, g, e, 9, 1, 2);
    let e = lemma_chain_square(p, g, e, 2, 0, 4);
    let e = lemma_chain_multiply(p, g, e, 4, 0, 0xc);
    let e = lemma_chain_square(p, g, e, 0xc, 1, 0x41);
    let e = lemma_chain_multiply(p, g, e, 0x41, 2, 0x25);
    let e = lemma_chain_square(p, g, e, 0x25, 0x11, 0x1a);
    let e = lemma_chain_multiply(p, g, e, 0x1a, 0, 0x4e);
}

/// A power of the root 3 modulo 79.
proof fn lemma_power_79_2()
    ensures
        pow_mod(3, 0x1a, 0x4f) == 0x17,
{
    let p = 0x4f;
    let g = 3;
    lemma_chain_start(p, g);
    let e: nat = 0;
    let e = lemma_chain_square(p, g, e, 1, 0, 1);
    let e = lemma_chain_multiply(p, g, e, 1, 0, 3);
    let e = lemma_chain_square(p, g, e, 3, 0, 9);
    let e = lemma_chain_multiply(p, g, e, 9, 0, 0x1b);
    let e = lemma_chain_square(p, g, e, 0x1b, 9, 0x12);
    let e = lemma_chain_square(p, g, e, 0x12, 4, 8);
    let e = lemma_chain_multiply(p, g, e, 8, 0, 0x18);
    let e = lemma_chain_square(p, g, e, 0x18, 7, 0x17);
}

/// A power of the root 3 modulo 79.
proof fn lemma_power_79_3()
    ensures
        pow_mod(3, 6, 0x4f) == 0x12,
{
    let p = 0x4f;
    let g = 3;
    lemma_chain_start(p, g);
    let e: nat = 0;
    let e = lemma_chain_square(p, g, e, 1, 0, 1);
    let e = lemma_chain_multiply(p, g, e, 1, 0, 3);
    let e = lemma_chain_square(p, g, e, 3, 0, 9);
    let e = lemma_chain_multiply(p, g, e, 9, 0, 0x1b);
    let e = lemma_chain_square(p, g, e, 0x1b, 9, 0x12);
}

/// A power of a power of the root 3 modulo 79.
proof fn lemma_power_79_4()
    ensures
        pow_mod(0x4e, 2, 0x4f) == 1,
{
    let p = 0x4f;
    let g = 0x4e;
    lemma_chain_start(p, g);
    let e: nat = 0;
    let e = lemma_chain_square(p, g, e, 1, 0, 1);
    let e = lemma_chain_multiply(p, g, e, 1, 0, 0x4e);
    let e = lemma_chain_square(p, g, e, 0x4e, 0x4d, 1);
}

/// 3 is a primitive root modulo 79.
pub proof fn lemma_root_79()
    ensures
        is_primitive_root(3, 0x4f),
{
    let p = 0x4f;
    let g = 3;
    lemma_power_79_1();
    lemma_power_79_2();
    lemma_power_79_3();
    lemma_power_79_4();
    lemma_chain_rebase(p, g, 0x27, 0x4e, 2, 1);
    lemma_two_is_prime();
    lemma_prime_3();
    lemma_prime_13();
    assert forall|m: int| m >= 2 && #[trigger] (0x4eint % m) == 0 implies exists|f: int| #[trigger]
        refutes(3, 0x4e, 0x4f, m, f) by {
        lemma_euclid(m, 2, 0x27);
        if m % 2 == 0 {
            assert(refutes(3, 0x4e, 0x4f, m, 2));
        } else {
            lemma_euclid(m, 3, 0xd);
            if m % 3 == 0 {
                assert(refutes(3, 0x4e, 0x4f, m, 3));
            } else {
                lemma_euclid(m, 0xd, 1);
                if m % 0xd == 0 {
                    assert(refutes(3, 0x4e, 0x4f, m, 0xd));
                } else {
                    lemma_small_mod(1, m as nat);
                }
            }
        }
    }
    lemma_lucas(0x4f, 0x4e, 3);
}

/// 79 is prime.
pub proof fn lemma_prime_79()
    ensures
        is_prime(0x4f),
{
    lemma_root_79();
    lemma_root_gives_prime(3, 0x4f);
}

/// A power of the root 11 modulo 2508409.
proof fn lemma_power_2508409_1()
    ensures
        pow_mod(0xb, 0x13233c, 0x264679) == 0x264678,
{
    let p = 0x264679;
    let g = 0xb;
    lemma_chain_start(p, g);
    let e: nat = 0;
    let e = lemma_chain_square(p, g, e, 1, 0, 1);
    let e = lemma_chain_multiply(p, g, e, 1, 0, 0xb);
    let e = lemma_chain_square(p, g, e, 0xb, 0, 0x79);
    let e = lemma_chain_square(p, g, e, 0x79, 0, 0x3931);
    let e = lemma_chain_square(p, g, e, 0x3931, 0x55, 0x117534);
    let e = lemma_chain_multiply(p, g, e, 0x117534, 5, 0xa8df);
    let e = lemma_chain_square(p, g, e, 0xa8df, 0x2e9, 0x25c20);
    let e = lemma_chain_multiply(p, g, e, 0x25c20, 0, 0x19f560);
    let e = lemma_chain_square(p, g, e, 0x19f560, 0x119aed, 0x13dbfb);
    let e = lemma_chain_square(p, g, e, 0x13dbfb, 0xa4dd8, 0x118d01);
    let e = lemma_chain_square(p, g, e, 0x118d01, 0x80c3a, 0xa7697);
    let e = lemma_chain_multiply(p, g, e, 0xa7697, 3, 0x4512);
    let e = lemma_chain_square(p, g, e, 0x4512, 0x7c, 0x1892a8);
    let e = lemma_chain_square(p, g, e, 0x1892a8, 0xfc69f, 0x25b319);
    let e = lemma_chain_square(p, g, e, 0x25b319, 0x2521f0, 0x114e01);
    let e = lemma_chain_square(p, g, e, 0x114e01, 0x7d2db, 0xa107e);
    let e = lemma_chain_multiply(p, g, e, 0xa107e, 2, 0x222878);
    let e = lemma_chain_square(p, g, e, 0x222878, 0x1e7bd7, 0x1665a1);
    let e = lemma_chain_multiply(p, g, e, 0x1665a1, 6, 0x10b715);
    let e = lemma_chain_square(p, g, e, 0x10b715, 0x74cb6, 0x1e01b3);
    let e = lemma_chain_square(p, g, e, 0x1e01b3, 0x178636, 0x21afa3);
    let e = lemma_chain_square(p, g, e, 0x21afa3, 0x1da5a9, 0x20bee8);
    let e = lemma_chain_multiply(p, g, e, 0x20bee8, 9, 0xfb9b7);
    let e = lemma_chain_square(p, g, e, 0xfb9b7, 0x675f8, 0xc6e99);
    let e = lemma_chain_multiply(p, g, e, 0xc6e99, 3, 0x15ed28);
    let e = lemma_chain_square(p, g, e, 0x15ed28, 0xc8f8d, 0x24ae9b);
    let e = lemma_chain_multiply(p, g, e, 0x24ae9b, 0xa, 0x14bfef);
    let e = lemma_chain_square(p, g, e, 0x14bfef, 0xb3fb2, 0x16b9ff);
    let e = lemma_chain_multiply(p, g, e, 0x16b9ff, 6, 0x14571f);
    let e = lemma_chain_square(p, g, e, 0x14571f, 0xacf2d, 0xddb7c);
    let e = lemma_chain_square(p, g, e, 0xddb7c, 0x50458, 0x264678);
}

/// A power of the root 11 modulo 2508409.
proof fn lemma_power_2508409_2()
    ensures
        pow_mod(0xb, 0xcc228, 0x264679) == 0xd5d0b,
{
    let p = 0x264679;
    let g = 0xb;
    lemma_chain_start(p, g);
    let e: nat = 0;
    let e = lemma_chain_square(p, g, e, 1, 0, 1);
    let e = lemma_chain_multiply(p, g, e, 1, 0, 0xb);
    let e = lemma_chain_square(p, g, e, 0xb, 0, 0x79);
    let e = lemma_chain_multiply(p, g, e, 0x79, 0, 0x533);
    let e = lemma_chain_square(p, g, e, 0x533, 0, 0x1b0829);
    let e = lemma_chain_square(p, g, e, 0x1b0829, 0x13175a, 0x23f107);
    let e = lemma_chain_square(p, g, e, 0x23f107, 0x21c002, 0x17e13f);
    let e = lemma_chain_multiply(p, g, e, 0x17e13f, 6, 0x2106df);
    let e = lemma_chain_square(p, g, e, 0x2106df, 0x1c7f82, 0xb65cf);
    let e = lemma_chain_multiply(p, g, e, 0xb65cf, 3, 0xa8c7a);
    let e = lemma_chain_square(p, g, e, 0xa8c7a, 0x2e841, 0x161d6b);
    let e = lemma_chain_square(p, g, e, 0x161d6b, 0xcc716, 0x74d53);
    let e = lemma_chain_square(p, g, e, 0x74d53, 0x1649f, 0x1effc2);
    let e = lemma_chain_square(p, g, e, 0x1effc2, 0x191b26, 0xdd60e);
    let e = lemma_chain_square(p, g, e, 0xdd60e, 0x5006b, 0xaf431);
    let e = lemma_chain_multiply(p, g, e, 0xaf431, 3, 0x5aab0);
    let e = lemma_chain_square(p, g, e, 0x5aab0, 0xd6c7, 0x44af1);
    let e = lemma_chain_square(p, g, e, 0x44af1, 0x7b40, 0xa75a1);
    let e = lemma_chain_square(p, g, e, 0xa75a1, 0x2dbb7, 0x8abc2);
    let e = lemma_chain_square(p, g, e, 0x8abc2, 0x1f6dd, 0x20a28f);
    let e = lemma_chain_multiply(p, g, e, 0x20a28f, 9, 0xe81e4);
    let e = lemma_chain_square(p, g, e, 0xe81e4, 0x57faa, 0x19bfb6);
    let e = lemma_chain_square(p, g, e, 0x19bfb6, 0x11526e, 0xf0b66);
    let e = lemma_chain_multiply(p, g, e, 0xf0b66, 4, 0xc637e);
    let e = lemma_chain_square(p, g, e, 0xc637e, 0x40286, 0xdcae);
    let e = lemma_chain_square(p, g, e, 0xdcae, 0x4f8, 0xd5d0c);
    let e = lemma_chain_square(p, g, e, 0xd5d0c, 0x4aa6d, 0xd5d0b);
}

/// A power of the root 11 modulo 2508409.
proof fn lemma_power_2508409_3()
    ensures
        pow_mod(0xb, 0x577c8, 0x264679) == 0x16c3cf,
{
    let p = 0x264679;
    let g = 0xb;
    lemma_chain_start(p, g);
    let e: nat = 0;
    let e = lemma_chain_square(p, g, e, 1, 0, 1);
    let e = lemma_chain_multiply(p, g, e, 1, 0, 0xb);
    let e = lemma_chain_square(p, g, e, 0xb, 0, 0x79);
    let e = lemma_chain_square(p, g, e, 0x79, 0, 0x3931);
    let e = lemma_chain_multiply(p, g, e, 0x3931, 0, 0x2751b);
    let e = lemma_chain_square(p, g, e, 0x2751b, 0x2864, 0x74195);
    let e = lemma_chain_square(p, g, e, 0x74195, 0x16028, 0x119dd1);
    let e = lemma_chain_multiply(p, g, e, 0x119dd1, 5, 0x2679e);
    let e = lemma_chain_square(p, g, e, 0x2679e, 0x26ad, 0x14efbf);
    let e = lemma_chain_multiply(p, g, e, 0x14efbf, 6, 0xa65f);
    let e = lemma_chain_square(p, g, e, 0xa65f, 0x2d3, 0x64f86);
    let e = lemma_chain_multiply(p, g, e, 0x64f86, 1, 0x1f2449);
    let e = lemma_chain_square(p, g, e, 0x1f2449, 0x195673, 0x234e76);
    let e = lemma_chain_square(p, g, e, 0x234e76, 0x209166, 0x5812e);
    let e = lemma_chain_multiply(p, g, e, 0x5812e, 1, 0x164681);
    let e = lemma_chain_square(p, g, e, 0x164681, 0xcf6bc, 0x16c625);
    let e = lemma_chain_multiply(p, g, e, 0x16c625, 6, 0x14dcc1);
    let e = lemma_chain_square(p, g, e, 0x14dcc1, 0xb5f07, 0x1e7532);
    let e = lemma_chain_multiply(p, g, e, 0x1e7532, 8, 0x1cd55e);
    let e = lemma_chain_square(p, g, e, 0x1cd55e, 0x15b884, 0x154020);
    let e = lemma_chain_multiply(p, g, e, 0x154020, 6, 0x41a8a);
    let e = lemma_chain_square(p, g, e, 0x41a8a, 0x70a2, 0x2c9d2);
    let e = lemma_chain_multiply(p, g, e, 0x2c9d2, 0, 0x1eac06);
    let e = lemma_chain_square(p, g, e, 0x1eac06, 0x18943b, 0x17de41);
    let e = lemma_chain_square(p, g, e, 0x17de41, 0xee24e, 0x2481a3);
    let e = lemma_chain_square(p, g, e, 0x2481a3, 0x22d1ba, 0x13b0df);
    let e = lemma_chain_multiply(p, g, e, 0x13b0df, 5, 0x193938);
    let e = lemma_chain_square(p, g, e, 0x193938, 0x109f52, 0x22427e);
    let e = lemma_chain_square(p, g, e, 0x22427e, 0x1eaa5c, 0x18888);
    let e = lemma_chain_square(p, g, e, 0x18888, 0xfb9, 0x16c3cf);
}

/// A power of the root 11 modulo 2508409.
proof fn lemma_power_2508409_4()
    ensures
        pow_mod(0xb, 0x7c08, 0x264679) == 0x225a09,
{
    let p = 0x264679;
    let g = 0xb;
    lemma_chain_start(p, g);
    let e: nat = 0;
    let e = lemma_chain_square(p, g, e, 1, 0, 1);
    let e = lemma_chain_multiply(p, g, e, 1, 0, 0xb);
    let e = lemma_chain_square(p, g, e, 0xb, 0, 0x79);
    let e = lemma_chain_multiply(p, g, e, 0x79, 0, 0x533);
    let e = lemma_chain_square(p, g, e, 0x533, 0, 0x1b0829);
    let e = lemma_chain_multiply(p, g, e, 0x1b0829, 7, 0x1d6c74);
    let e = lemma_chain_square(p, g, e, 0x1d6c74, 0x169e7a, 0x17d0e6);
    let e = lemma_chain_multiply(p, g, e, 0x17d0e6, 6, 0x20530c);
    let e = lemma_chain_square(p, g, e, 0x20530c, 0x1b4c7a, 0x446e6);
    let e = lemma_chain_multiply(p, g, e, 0x446e6, 1, 0x8c569);
    let e = lemma_chain_square(p, g, e, 0x8c569, 0x2028e, 0x10bbf3);
    let e = lemma_chain_square(p, g, e, 0x10bbf3, 0x750f7, 0x1a19ea);
    let e = lemma_chain_square(p, g, e, 0x1a19ea, 0x11cca0, 0xa1244);
    let e = lemma_chain_square(p, g, e, 0xa1244, 0x2a66a, 0x1ffdf6);
    let e = lemma_chain_square(p, g, e, 0x1ffdf6, 0x1abd80, 0xf96e4);
    let e = lemma_chain_square(p, g, e, 0xf96e4, 0x6597a, 0x145466);
    let e = lemma_chain_square(p, g, e, 0x145466, 0xacc48, 0x1cda9c);
    let e = lemma_chain_multiply(p, g, e, 0x1cda9c, 8, 0xb30ec);
    let e = lemma_chain_square(p, g, e, 0xb30ec, 0x345a8, 0x197d28);
    let e = lemma_chain_square(p, g, e, 0x197d28, 0x10f956, 0x8b89a);
    let e = lemma_chain_square(p, g, e, 0x8b89a, 0x1fcb3, 0x225a09);
}

/// A power of a power of the root 11 modulo 2508409.
proof fn lemma_power_2508409_5()
    ensures
        pow_mod(0x264678, 2, 0x264679) == 1,
{
    let p = 0x264679;
    let g = 0x264678;
    lemma_chain_start(p, g);
    let e: nat = 0;
    let e = lemma_chain_square(p, g, e, 1, 0, 1);
    let e = lemma_chain_multiply(p, g, e, 1, 0, 0x264678);
    let e = lemma_chain_square(p, g, e, 0x264678, 0x264677, 1);
}

/// 11 is a primitive root modulo 2508409.
pub proof fn lemma_root_2508409()
    ensures
        is_primitive_root(0xb, 0x264679),
{
    let p = 0x264679;
    let g = 0xb;
    lemma_power_2508409_1();
    lemma_power_2508409_2();
    lemma_power_2508409_3();
    lemma_power_2508409_4();
    lemma_power_2508409_5();
    lemma_chain_rebase(p, g, 0x13233c, 0x264678, 2, 1);
    lemma_two_is_prime();
    lemma_prime_3();
    lemma_prime_7();
    lemma_prime_79();
    assert forall|m: int| m >= 2 && #[trigger] (0x264678int % m) == 0 implies exists|f: int| #[trigger]
        refutes(0xb, 0x264678, 0x264679, m, f) by {
        lemma_euclid(m, 2, 0x13233c);
        if m % 2 == 0 {
            assert(refutes(0xb, 0x264678, 0x264679, m, 2));
        } else {
            lemma_euclid(m, 2, 0x9919e);
            lemma_euclid(m, 2, 0x4c8cf);
            lemma_euclid(m, 3, 0x19845);
            if m % 3 == 0 {
                assert(refutes(0xb, 0x264678, 0x264679, m, 3));
            } else {
                lemma_euclid(m, 3, 0x8817);
                lemma_euclid(m, 3, 0x2d5d);
                lemma_euclid(m, 3, 0xf1f);
                lemma_euclid(m, 7, 0x229);
                if m % 7 == 0 {
                    assert(refutes(0xb, 0x264678, 0x264679, m, 7));
                } else {
                    lemma_euclid(m, 7, 0x4f);
                    lemma_euclid(m, 0x4f, 1);
                    if m % 0x4f == 0 {
                        assert(refutes(0xb, 0x264678, 0x264679, m, 0x4f));
                    } else {
                        lemma_small_mod(1, m as nat);
                    }
                }
            }
        }
    }
    lemma_lucas(0x264679, 0x264678, 0xb);
}

/// 2508409 is prime.
pub proof fn lemma_prime_2508409()
    ensures
        is_prime(0x264679),
{
    lemma_root_2508409();
    lemma_root_gives_prime(0xb, 0x264679);
}

/// A power of the root 3 modulo 18329.
proof fn lemma_power_18329_1()
    ensures
        pow_mod(3, 0x23cc, 0x4799) == 0x4798,
{
    let p = 0x4799;
    let g = 3;
    lemma_chain_start(p, g);
    let e: nat = 0;
    let e = lemma_chain_square(p, g, e, 1, 0, 1);
    let e = lemma_chain_multiply(p, g, e, 1, 0, 3);
    let e = lemma_chain_square(p, g, e, 3, 0, 9);
    let e = lemma_chain_square(p, g, e, 9, 0, 0x51);
    let e = lemma_chain_square(p, g, e, 0x51, 0, 0x19a1);
    let e = lemma_chain_square(p, g, e, 0x19a1, 0x92c, 0x27f5);
    let e = lemma_chain_multiply(p, g, e, 0x27f5, 1, 0x3046);
    let e = lemma_chain_square(p, g, e, 0x3046, 0x208c, 0xb78);
    let e = lemma_chain_multiply(p, g, e, 0xb78, 0, 0x2268);
    let e = lemma_chain_square(p, g, e, 0x2268, 0x1088, 0x30f8);
    let e = lemma_chain_multiply(p, g, e, 0x30f8, 2, 0x3b6);
    let e = lemma_chain_square(p, g, e, 0x3b6, 0x31, 0x111b);
    let e = lemma_chain_multiply(p, g, e, 0x111b, 0, 0x3351);
    let e = lemma_chain_square(p, g, e, 0x3351, 0x24c7, 0x33b2);
    let e = lemma_chain_square(p, g, e, 0x33b2, 0x2553, 0x1429);
    let e = lemma_chain_square(p, g, e, 0x1429, 0x5ad, 0xf2c);
    let e = lemma_chain_multiply(p, g, e, 0xf2c, 0, 0x2d84);
    let e = lemma_chain_square(p, g, e, 0x2d84, 0x1cef, 0x1839);
    let e = lemma_chain_multiply(p, g, e, 0x1839, 1, 0x112);
    let e = lemma_chain_square(p, g, e, 0x112, 4, 0x6e0);
    let e = lemma_chain_square(p, g, e, 0x6e0, 0xa8, 0x4798);
}

/// A power of the root 3 modulo 18329.
proof fn lemma_power_18329_2()
    ensures
        pow_mod(3, 0x278, 0x4799) == 0x2204,
{
    let p = 0x4799;
    let g = 3;
    lemma_chain_start(p, g);
    let e: nat = 0;
    let e = lemma_chain_square(p, g, e, 1, 0, 1);
    let e = lemma_chain_multiply(p, g, e, 1, 0, 3);
    let e = lemma_chain_square(p, g, e, 3, 0, 9);
    let e = lemma_chain_square(p, g, e, 9, 0, 0x51);
    let e = lemma_chain_square(p, g, e, 0x51, 0, 0x19a1);
    let e = lemma_chain_multiply(p, g, e, 0x19a1, 1, 0x54a);
    let e = lemma_chain_square(p, g, e, 0x54a, 0x64, 0x1a0);
    let e = lemma_chain_multiply(p, g, e, 0x1a0, 0, 0x4e0);
    let e = lemma_chain_square(p, g, e, 0x4e0, 0x54, 0x45cc);
    let e = lemma_chain_multiply(p, g, e, 0x45cc, 2, 0x4232);
    let e = lemma_chain_square(p, g, e, 0x4232, 0x3d33, 0x1949);
    let e = lemma_chain_multiply(p, g, e, 0x1949, 1, 0x442);
    let e = lemma_chain_square(p, g, e, 0x442, 0x40, 0x3ac4);
    let e = lemma_chain_square(p, g, e, 0x3ac4, 0x303b, 0x35cd);
    let e = lemma_chain_square(p, g, e, 0x35cd, 0x286d, 0x2204);
}

/// A power of the root 3 modulo 18329.
proof fn lemma_power_18329_3()
    ensures
        pow_mod(3, 0xe8, 0x4799) == 0x406c,
{
    let p = 0x4799;
    let g = 3;
    lemma_chain_start(p, g);
    let e: nat = 0;
    let e = lemma_chain_square(p, g, e, 1, 0, 1);
    let e = lemma_chain_multiply(p, g, e, 1, 0, 3);
    let e = lemma_chain_square(p, g, e, 3, 0, 9);
    let e = lemma_chain_multiply(p, g, e, 9, 0, 0x1b);
    let e = lemma_chain_square(p, g, e, 0x1b, 0, 0x2d9);
    let e = lemma_chain_multiply(p, g, e, 0x2d9, 0, 0x88b);
    let e = lemma_chain_square(p, g, e, 0x88b, 0x104, 0x4415);
    let e = lemma_chain_square(p, g, e, 0x4415, 0x40bd, 0xdc4);
    let e = lemma_chain_multiply(p, g, e, 0xdc4, 0, 0x294c);
    let e = lemma_chain_square(p, g, e, 0x294c, 0x17d1, 0x3ba7);
    let e = lemma_chain_square(p, g, e, 0x3ba7, 0x31b3, 0xdf6);
    let e = lemma_chain_square(p, g, e, 0xdf6, 0x2b8, 0x406c);
}

/// A power of a power of the root 3 modulo 18329.
proof fn lemma_power_18329_4()
    ensures
        pow_mod(0x4798, 2, 0x4799) == 1,
{
    let p = 0x4799;
    let g = 0x4798;
    lemma_chain_start(p, g);
    let e: nat = 0;
    let e = lemma_chain_square(p, g, e, 1, 0, 1);
    let e = lemma_chain_multiply(p, g, e, 1, 0, 0x4798);
    let e = lemma_chain_square(p, g, e, 0x4798, 0x4797, 1);
}

/// 3 is a primitive root modulo 18329.
pub proof fn lemma_root_18329()
    ensures
        is_primitive_root(3, 0x4799),
{
    let p = 0x4799;
    let g = 3;
    lemma_power_18329_1();
    lemma_power_18329_2();
    lemma_power_18329_3();
    lemma_power_18329_4();
    lemma_chain_rebase(p, g, 0x23cc, 0x4798, 2, 1);
    lemma_two_is_prime();
    lemma_prime_29();
    lemma_prime_79();
    assert forall|m: int| m >= 2 && #[trigger] (0x4798int % m) == 0 implies exists|f: int| #[trigger]
        refutes(3, 0x4798, 0x4799, m, f) by {
        lemma_euclid(m, 2, 0x23cc);
        if m % 2 == 0 {
            assert(refutes(3, 0x4798, 0x4799, m, 2));
        } else {
            lemma_euclid(m, 2, 0x11e6);
            lemma_euclid(m, 2, 0x8f3);
            lemma_euclid(m, 0x1d, 0x4f);
            if m % 0x1d == 0 {
                assert(refutes(3, 0x4798, 0x4799, m, 0x1d));
            } else {
                lemma_euclid(m, 0x4f, 1);
                if m % 0x4f == 0 {
                    assert(refutes(3, 0x4798, 0x4799, m, 0x4f));
                } else {
                    lemma_small_mod(1, m as nat);
                }
            }
        }
    }
    lemma_lucas(0x4799, 0x4798, 3);
}

/// 18329 is prime.
pub proof fn lemma_prime_18329()
    ensures
        is_prime(0x4799),
{
    lemma_root_18329();
    lemma_root_gives_prime(3, 0x4799);
}

/// A power of the root 2 modulo 2529403.
proof fn lemma_power_2529403_1()
    ensures
        pow_mod(2, 0x134c3d, 0x26987b) == 0x26987a,
{
    let p = 0x26987b;
    let g = 2;
    lemma_chain_start(p, g);
    let e: nat = 0;
    let e = lemma_chain_square(p, g, e, 1, 0, 1);
    let e = lemma_chain_multiply(p, g, e, 1, 0, 2);
    let e = lemma_chain_square(p, g, e, 2, 0, 4);
    let e = lemma_chain_square(p, g, e, 4, 0, 0x10);
    let e = lemma_chain_square(p, g, e, 0x10, 0, 0x100);
    let e = lemma_chain_multiply(p, g, e, 0x100, 0, 0x200);
    let e = lemma_chain_square(p, g, e, 0x200, 0, 0x40000);
    let e = lemma_chain_multiply(p, g, e, 0x40000, 0, 0x80000);
    let e = lemma_chain_square(p, g, e, 0x80000, 0x1a881, 0x17205);
    let e = lemma_chain_square(p, g, e, 0x17205, 0xddb, 0xfc3e0);
    let e = lemma_chain_multiply(p, g, e, 0xfc3e0, 0, 0x1f87c0);
    let e = lemma_chain_square(p, g, e, 0x1f87c0, 0x19c220, 0x18caa0);
    let e = lemma_chain_square(p, g, e, 0x18caa0, 0xfecb0, 0x11ab70);
    let e = lemma_chain_square(p, g, e, 0x11ab70, 0x816e6, 0xf407e);
    let e = lemma_chain_multiply(p, g, e, 0xf407e, 0, 0x1e80fc);
    let e = lemma_chain_square(p, g, e, 0x1e80fc, 0x181bc9, 0x22467d);
    let e = lemma_chain_multiply(p, g, e, 0x22467d, 1, 0x1df47f);
    let e = lemma_chain_square(p, g, e, 0x1df47f, 0x173fb7, 0x1e1214);
    let e = lemma_chain_square(p, g, e, 0x1e1214, 0x176db9, 0x1941ad);
    let e = lemma_chain_square(p, g, e, 0x1941ad, 0x108710, 0x20ea39);
    let e = lemma_chain_square(p, g, e, 0x20ea39, 0x1c1202, 0x1269bb);
    let e = lemma_chain_square(p, g, e, 0x1269bb, 0x8c8cd, 0x16bc1a);
    let e = lemma_chain_multiply(p, g, e, 0x16bc1a, 1, 0x6dfb9);
    let e = lemma_chain_square(p, g, e, 0x6dfb9, 0x13968, 0x137eb9);
    let e = lemma_chain_multiply(p, g, e, 0x137eb9, 1, 0x64f7);
    let e = lemma_chain_square(p, g, e, 0x64f7, 0x108, 0x4a779);
    let e = lemma_chain_multiply(p, g, e, 0x4a779, 0, 0x94ef2);
    let e = lemma_chain_square(p, g, e, 0x94ef2, 0x23eb6, 0x82b52);
    let e = lemma_chain_multiply(p, g, e, 0x82b52, 0, 0x1056a4);
    let e = lemma_chain_square(p, g, e, 0x1056a4, 0x6ea9c, 0xb401c);
    let e = lemma_chain_square(p, g, e, 0xb401c, 0x34789, 0x134c3d);
    let e = lemma_chain_multiply(p, g, e, 0x134c3d, 0, 0x26987a);
}

/// A power of the root 2 modulo 2529403.
proof fn lemma_power_2529403_2()
    ensures
        pow_mod(2, 0xcdd7e, 0x26987b) == 0x20f400,
{
    let p = 0x26987b;
    let g = 2;
    lemma_chain_start(p, g);
    let e: nat = 0;
    let e = lemma_chain_square(p, g, e, 1, 0, 1);
    let e = lemma_chain_multiply(p, g, e, 1, 0, 2);
    let e = lemma_chain_square(p, g, e, 2, 0, 4);
    let e = lemma_chain_multiply(p, g, e, 4, 0, 8);
    let e = lemma_chain_square(p, g, e, 8, 0, 0x40);
    let e = lemma_chain_square(p, g, e, 0x40, 0, 0x1000);
    let e = lemma_chain_square(p, g, e, 0x1000, 6, 0x186d1e);
    let e = lemma_chain_multiply(p, g, e, 0x186d1e, 1, 0xa41c1);
    let e = lemma_chain_square(p, g, e, 0xa41c1, 0x2b9cc, 0xf2e7d);
    let e = lemma_chain_multiply(p, g, e, 0xf2e7d, 0, 0x1e5cfa);
    let e = lemma_chain_square(p, g, e, 0x1e5cfa, 0x17e300, 0x1a9324);
    let e = lemma_chain_square(p, g, e, 0x1a9324, 0x124c42, 0x4895a);
    let e = lemma_chain_multiply(p, g, e, 0x4895a, 0, 0x912b4);
    let e = lemma_chain_square(p, g, e, 0x912b4, 0x22205, 0xe7e29);
    let e = lemma_chain_multiply(p, g, e, 0xe7e29, 0, 0x1cfc52);
    let e = lemma_chain_square(p, g, e, 0x1cfc52, 0x15c4b8, 0xec5dc);
    let e = lemma_chain_multiply(p, g, e, 0xec5dc, 0, 0x1d8bb8);
    let e = lemma_chain_square(p, g, e, 0x1d8bb8, 0x169e30, 0x6d330);
    let e = lemma_chain_square(p, g, e, 0x6d330, 0x134f5, 0x143f49);
    let e = lemma_chain_multiply(p, g, e, 0x143f49, 1, 0x1e617);
    let e = lemma_chain_square(p, g, e, 0x1e617, 0x17ea, 0xe8a3);
    let e = lemma_chain_square(p, g, e, 0xe8a3, 0x57a, 0x8c62b);
    let e = lemma_chain_multiply(p, g, e, 0x8c62b, 0, 0x118c56);
    let e = lemma_chain_square(p, g, e, 0x118c56, 0x7fa85, 0x7d6fd);
    let e = lemma_chain_multiply(p, g, e, 0x7d6fd, 0, 0xfadfa);
    let e = lemma_chain_square(p, g, e, 0xfadfa, 0x65eb0, 0x1fd994);
    let e = lemma_chain_multiply(p, g, e, 0x1fd994, 1, 0x191aad);
    let e = lemma_chain_square(p, g, e, 0x191aad, 0x10542d, 0x106f4a);
    let e = lemma_chain_multiply(p, g, e, 0x106f4a, 0, 0x20de94);
    let e = lemma_chain_square(p, g, e, 0x20de94, 0x1bfe29, 0x138fdd);
    let e = lemma_chain_multiply(p, g, e, 0x138fdd, 1, 0x873f);
    let e = lemma_chain_square(p, g, e, 0x873f, 0x1d9, 0x23c63e);
    let e = lemma_chain_multiply(p, g, e, 0x23c63e, 1, 0x20f401);
    let e = lemma_chain_square(p, g, e, 0x20f401, 0x1c22b3, 0x20f400);
}

/// A power of the root 2 modulo 2529403.
proof fn lemma_power_2529403_3()
    ensures
        pow_mod(2, 0x1ad96, 0x26987b) == 0x13f391,
{
    let p = 0x26987b;
    let g = 2;
    lemma_chain_start(p, g);
    let e: nat = 0;
    let e = lemma_chain_square(p, g, e, 1, 0, 1);
    let e = lemma_chain_multiply(p, g, e, 1, 0, 2);
    let e = lemma_chain_square(p, g, e, 2, 0, 4);
    let e = lemma_chain_multiply(p, g, e, 4, 0, 8);
    let e = lemma_chain_square(p, g, e, 8, 0, 0x40);
    let e = lemma_chain_square(p, g, e, 0x40, 0, 0x1000);
    let e = lemma_chain_multiply(p, g, e, 0x1000, 0, 0x2000);
    let e = lemma_chain_square(p, g, e, 0x2000, 0x1a, 0x148382);
    let e = lemma_chain_square(p, g, e, 0x148382, 0xae731, 0x162179);
    let e = lemma_chain_multiply(p, g, e, 0x162179, 1, 0x5aa77);
    let e = lemma_chain_square(p, g, e, 0x5aa77, 0xd4ee, 0xa4f7);
    let e = lemma_chain_multiply(p, g, e, 0xa4f7, 0, 0x149ee);
    let e = lemma_chain_square(p, g, e, 0x149ee, 0xb04, 0xdee58);
    let e = lemma_chain_square(p, g, e, 0xdee58, 0x50744, 0x4e094);
    let e = lemma_chain_multiply(p, g, e, 0x4e094, 0, 0x9c128);
    let e = lemma_chain_square(p, g, e, 0x9c128, 0x2771f, 0x9b25b);
    let e = lemma_chain_multiply(p, g, e, 0x9b25b, 0, 0x1364b6);
    let e = lemma_chain_square(p, g, e, 0x1364b6, 0x9bea6, 0x1d87a2);
    let e = lemma_chain_square(p, g, e, 0x1d87a2, 0x1697ef, 0x55aaf);
    let e = lemma_chain_square(p, g, e, 0x55aaf, 0xbe26, 0xf975f);
    let e = lemma_chain_multiply(p, g, e, 0xf975f, 0, 0x1f2ebe);
    let e = lemma_chain_square(p, g, e, 0x1f2ebe, 0x193180, 0xe0c84);
    let e = lemma_chain_square(p, g, e, 0xe0c84, 0x51d23, 0x18dc3f);
    let e = lemma_chain_multiply(p, g, e, 0x18dc3f, 1, 0xb2003);
    let e = lemma_chain_square(p, g, e, 0xb2003, 0x334ed, 0x1d9a2a);
    let e = lemma_chain_multiply(p, g, e, 0x1d9a2a, 1, 0x149bd9);
    let e = lemma_chain_square(p, g, e, 0x149bd9, 0xb0120, 0x13f391);
}

/// A power of the root 2 modulo 2529403.
proof fn lemma_power_2529403_4()
    ensures
        pow_mod(2, 0x8a, 0x26987b) == 0x1607e2,
{
    let p = 0x26987b;
    let g = 2;
    lemma_chain_start(p, g);
    let e: nat = 0;
    let e = lemma_chain_square(p, g, e, 1, 0, 1);
    let e = lemma_chain_multiply(p, g, e, 1, 0, 2);
    let e = lemma_chain_square(p, g, e, 2, 0, 4);
    let e = lemma_chain_square(p, g, e, 4, 0, 0x10);
    let e = lemma_chain_square(p, g, e, 0x10, 0, 0x100);
    let e = lemma_chain_square(p, g, e, 0x100, 0, 0x10000);
    let e = lemma_chain_multiply(p, g, e, 0x10000, 0, 0x20000);
    let e = lemma_chain_square(p, g, e, 0x20000, 0x1a88, 0x280a8);
    let e = lemma_chain_square(p, g, e, 0x280a8, 0x298a, 0xe88f2);
    let e = lemma_chain_multiply(p, g, e, 0xe88f2, 0, 0x1d11e4);
    let e = lemma_chain_square(p, g, e, 0x1d11e4, 0x15e52a, 0x1607e2);
}

/// A power of a power of the root 2 modulo 2529403.
proof fn lemma_power_2529403_5()
    ensures
        pow_mod(0x26987a, 2, 0x26987b) == 1,
{
    let p = 0x26987b;
    let g = 0x26987a;
    lemma_chain_start(p, g);
    let e: nat = 0;
    let e = lemma_chain_square(p, g, e, 1, 0, 1);
    let e = lemma_chain_multiply(p, g, e, 1, 0, 0x26987a);
    let e = lemma_chain_square(p, g, e, 0x26987a, 0x269879, 1);
}

/// 2 is a primitive root modulo 2529403.
pub proof fn lemma_root_2529403()
    ensures
        is_primitive_root(2, 0x26987b),
{
    let p = 0x26987b;
    let g = 2;
    lemma_power_2529403_1();
    lemma_power_2529403_2();
    lemma_power_2529403_3();
    lemma_power_2529403_4();
    lemma_power_2529403_5();
    lemma_chain_rebase(p, g, 0x134c3d, 0x26987a, 2, 1);
    lemma_two_is_prime();
    lemma_prime_3();
    lemma_prime_23();
    lemma_prime_18329();
    assert forall|m: int| m >= 2 && #[trigger] (0x26987aint % m) == 0 implies exists|f: int| #[trigger]
        refutes(2, 0x26987a, 0x26987b, m, f) by {
        lemma_euclid(m, 2, 0x134c3d);
        if m % 2 == 0 {
            assert(refutes(2, 0x26987a, 0x26987b, m, 2));
        } else {
            lemma_euclid(m, 3, 0x66ebf);
            if m % 3 == 0 {
                assert(refutes(2, 0x26987a, 0x26987b, m, 3));
            } else {
                lemma_euclid(m, 0x17, 0x4799);
                if m % 0x17 == 0 {
                    assert(refutes(2, 0x26987a, 0x26987b, m, 0x17));
                } else {
                    lemma_euclid(m, 0x4799, 1);
                    if m % 0x4799 == 0 {
                        assert(refutes(2, 0x26987a, 0x26987b, m, 0x4799));
                    } else {
                        lemma_small_mod(1, m as nat);
                    }
                }
            }
        }
    }
    lemma_lucas(0x26987b, 0x26987a, 2);
}

/// 2529403 is prime.
pub proof fn lemma_prime_2529403()
    ensures
        is_prime(0x26987b),
{
    lemma_root_2529403();
    lemma_root_gives_prime(2, 0x26987b);
}

/// A power of the root 3 modulo 43.
proof fn lemma_power_43_1()
    ensures
        pow_mod(3, 0x15, 0x2b) == 0x2a,
{
    let p = 0x2b;
    let g = 3;
    lemma_chain_start(p, g);
    let e: nat = 0;
    let e = lemma_chain_square(p, g, e, 1, 0, 1);
    let e = lemma_chain_multiply(p, g, e, 1, 0, 3);
    let e = lemma_chain_square(p, g, e, 3, 0, 9);
    let e = lemma_chain_square(p, g, e, 9, 1, 0x26);
    let e = lemma_chain_multiply(p, g, e, 0x26, 2, 0x1c);
    let e = lemma_chain_square(p, g, e, 0x1c, 0x12, 0xa);
    let e = lemma_chain_square(p, g, e, 0xa, 2, 0xe);
    let e = lemma_chain_multiply(p, g, e, 0xe, 0, 0x2a);
}

/// A power of the root 3 modulo 43.
proof fn lemma_power_43_2()
    ensures
        pow_mod(3, 0xe, 0x2b) == 0x24,
{
    let p = 0x2b;
    let g = 3;
    lemma_chain_start(p, g);
    let e: nat = 0;
    let e = lemma_chain_square(p, g, e, 1, 0, 1);
    let e = lemma_chain_multiply(p, g, e, 1, 0, 3);
    let e = lemma_chain_square(p, g, e, 3, 0, 9);
    let e = lemma_chain_multiply(p, g, e, 9, 0, 0x1b);
    let e = lemma_chain_square(p, g, e, 0x1b, 0x10, 0x29);
    let e = lemma_chain_multiply(p, g, e, 0x29, 2, 0x25);
    let e = lemma_chain_square(p, g, e, 0x25, 0x1f, 0x24);
}

/// A power of the root 3 modulo 43.
proof fn lemma_power_43_3()
    ensures
        pow_mod(3, 6, 0x2b) == 0x29,
{
    let p = 0x2b;
    let g = 3;
    lemma_chain_start(p, g);
    let e: nat = 0;
    let e = lemma_chain_square(p, g, e, 1, 0, 1);
    let e = lemma_chain_multiply(p, g, e, 1, 0, 3);
    let e = lemma_chain_square(p, g, e, 3, 0, 9);
    let e = lemma_chain_multiply(p, g, e, 9, 0, 0x1b);
    let e = lemma_chain_square(p, g, e, 0x1b, 0x10, 0x29);
}

/// A power of a power of the root 3 modulo 43.
proof fn lemma_power_43_4()
    ensures
        pow_mod(0x2a, 2, 0x2b) == 1,
{
    let p = 0x2b;
    let g = 0x2a;
    lemma_chain_start(p, g);
    let e: nat = 0;
    let e = lemma_chain_square(p, g, e, 1, 0, 1);
    let e = lemma_chain_multiply(p, g, e, 1, 0, 0x2a);
    let e = lemma_chain_square(p, g, e, 0x2a, 0x29, 1);
}

/// 3 is a primitive root modulo 43.
pub proof fn lemma_root_43()
    ensures
        is_primitive_root(3, 0x2b),
{
    let p = 0x2b;
    let g = 3;
    lemma_power_43_1();
    lemma_power_43_2();
    lemma_power_43_3();
    lemma_power_43_4();
    lemma_chain_rebase(p, g, 0x15, 0x2a, 2, 1);
    lemma_two_is_prime();
    lemma_prime_3();
    lemma_prime_7();
    assert forall|m: int| m >= 2 && #[trigger] (0x2aint % m) == 0 implies exists|f: int| #[trigger]
        refutes(3, 0x2a, 0x2b, m, f) by {
        lemma_euclid(m, 2, 0x15);
        if m % 2 == 0 {
            assert(refutes(3, 0x2a, 0x2b, m, 2));
        } else {
            lemma_euclid(m, 3, 7);
            if m % 3 == 0 {
                assert(refutes(3, 0x2a, 0x2b, m, 3));
            } else {
                lemma_euclid(m, 7, 1);
                if m % 7 == 0 {
                    assert(refutes(3, 0x2a, 0x2b, m, 7));
                } else {
                    lemma_small_mod(1, m as nat);
                }
            }
        }
    }
    lemma_lucas(0x2b, 0x2a, 3);
}

/// 43 is prime.
pub proof fn lemma_prime_43()
    ensures
        is_prime(0x2b),
{
    lemma_root_43();
    lemma_root_gives_prime(3, 0x2b);
}

/// A power of the root 5 modulo 97.
proof fn lemma_power_97_1()
    ensures
        pow_mod(5, 0x30, 0x61) == 0x60,
{
    let p = 0x61;
    let g = 5;
    lemma_chain_start(p, g);
    let e: nat = 0;
    let e = lemma_chain_square(p, g, e, 1, 0, 1);
    let e = lemma_chain_multiply(p, g, e, 1, 0, 5);
    let e = lemma_chain_square(p, g, e, 5, 0, 0x19);
    let e = lemma_chain_multiply(p, g, e, 0x19, 1, 0x1c);
    let e = lemma_chain_square(p, g, e, 0x1c, 8, 8);
    let e = lemma_chain_square(p, g, e, 8, 0, 0x40);
    let e = lemma_chain_square(p, g, e, 0x40, 0x2a, 0x16);
    let e = lemma_chain_square(p, g, e, 0x16, 4, 0x60);
}

/// A power of the root 5 modulo 97.
proof fn lemma_power_97_2()
    ensures
        pow_mod(5, 0x20, 0x61) == 0x23,
{
    let p = 0x61;
    let g = 5;
    lemma_chain_start(p, g);
    let e: nat = 0;
    let e = lemma_chain_square(p, g, e, 1, 0, 1);
    let e = lemma_chain_multiply(p, g, e, 1, 0, 5);
    let e = lemma_chain_square(p, g, e, 5, 0, 0x19);
    let e = lemma_chain_square(p, g, e, 0x19, 6, 0x2b);
    let e = lemma_chain_square(p, g, e, 0x2b, 0x13, 6);
    let e = lemma_chain_square(p, g, e, 6, 0, 0x24);
    let e = lemma_chain_square(p, g, e, 0x24, 0xd, 0x23);
}

/// A power of a power of the root 5 modulo 97.
proof fn lemma_power_97_3()
    ensures
        pow_mod(0x60, 2, 0x61) == 1,
{
    let p = 0x61;
    let g = 0x60;
    lemma_chain_start(p, g);
    let e: nat = 0;
    let e = lemma_chain_square(p, g, e, 1, 0, 1);
    let e = lemma_chain_multiply(p, g, e, 1, 0, 0x60);
    let e = lemma_chain_square(p, g, e, 0x60, 0x5f, 1);
}

/// 5 is a primitive root modulo 97.
pub proof fn lemma_root_97()
    ensures
        is_primitive_root(5, 0x61),
{
    let p = 0x61;
    let g = 5;
    lemma_power_97_1();
    lemma_power_97_2();
    lemma_power_97_3();
    lemma_chain_rebase(p, g, 0x30, 0x60, 2, 1);
    lemma_two_is_prime();
    lemma_prime_3();
    assert forall|m: int| m >= 2 && #[trigger] (0x60int % m) == 0 implies exists|f: int| #[trigger]
        refutes(5, 0x60, 0x61, m, f) by {
        lemma_euclid(m, 2, 0x30);
        if m % 2 == 0 {
            assert(refutes(5, 0x60, 0x61, m, 2));
        } else {
            lemma_euclid(m, 2, 0x18);
            lemma_euclid(m, 2, 0xc);
            lemma_euclid(m, 2, 6);
            lemma_euclid(m, 2, 3);
            lemma_euclid(m, 3, 1);
            if m % 3 == 0 {
                assert(refutes(5, 0x60, 0x61, m, 3));
            } else {
                lemma_small_mod(1, m as nat);
            }
        }
    }
    lemma_lucas(0x61, 0x60, 5);
}

/// 97 is prime.
pub proof fn lemma_prime_97()
    ensures
        is_prime(0x61),
{
    lemma_root_97();
    lemma_root_gives_prime(5, 0x61);
}

/// A power of the root 3 modulo 449.
proof fn lemma_power_449_1()
    ensures
        pow_mod(3, 0xe0, 0x1c1) == 0x1c0,
{
    let p = 0x1c1;
    let g = 3;
    lemma_chain_start(p, g);
    let e: nat = 0;
    let e = lemma_chain_square(p, g, e, 1, 0, 1);
    let e = lemma_chain_multiply(p, g, e, 1, 0, 3);
    let e = lemma_chain_square(p, g, e, 3, 0, 9);
    let e = lemma_chain_multiply(p, g, e, 9, 0, 0x1b);
    let e = lemma_chain_square(p, g, e, 0x1b, 1, 0x118);
    let e = lemma_chain_multiply(p, g, e, 0x118, 1, 0x187);
    let e = lemma_chain_square(p, g, e, 0x187, 0x154, 0xdd);
    let e = lemma_chain_square(p, g, e, 0xdd, 0x6c, 0x15d);
    let e = lemma_chain_square(p, g, e, 0x15d, 0x10f, 0x7a);
    let e = lemma_chain_square(p, g, e, 0x7a, 0x21, 0x43);
    let e = lemma_chain_square(p, g, e, 0x43, 9, 0x1c0);
}

/// A power of the root 3 modulo 449.
proof fn lemma_power_449_2()
    ensures
        pow_mod(3, 0x40, 0x1c1) == 0x144,
{
    let p = 0x1c1;
    let g = 3;
    lemma_chain_start(p, g);
    let e: nat = 0;
    let e = lemma_chain_square(p, g, e, 1, 0, 1);
    let e = lemma_chain_multiply(p, g, e, 1, 0, 3);
    let e = lemma_chain_square(p, g, e, 3, 0, 9);
    let e = lemma_chain_square(p, g, e, 9, 0, 0x51);
    let e = lemma_chain_square(p, g, e, 0x51, 0xe, 0x113);
    let e = lemma_chain_square(p, g, e, 0x113, 0xa8, 0xc1);
    let e = lemma_chain_square(p, g, e, 0xc1, 0x52, 0x1af);
    let e = lemma_chain_square(p, g, e, 0x1af, 0x19d, 0x144);
}

/// A power of a power of the root 3 modulo 449.
proof fn lemma_power_449_3()
    ensures
        pow_mod(0x1c0, 2, 0x1c1) == 1,
{
    let p = 0x1c1;
    let g = 0x1c0;
    lemma_chain_start(p, g);
    let e: nat = 0;
    let e = lemma_chain_square(p, g, e, 1, 0, 1);
    let e = lemma_chain_multiply(p, g, e, 1, 0, 0x1c0);
    let e = lemma_chain_square(p, g, e, 0x1c0, 0x1bf, 1);
}

/// 3 is a primitive root modulo 449.
pub proof fn lemma_root_449()
    ensures
        is_primitive_root(3, 0x1c1),
{
    let p = 0x1c1;
    let g = 3;
    lemma_power_449_1();
    lemma_power_449_2();
    lemma_power_449_3();
    lemma_chain_rebase(p, g, 0xe0, 0x1c0, 2, 1);
    lemma_two_is_prime();
    lemma_prime_7();
    assert forall|m: int| m >= 2 && #[trigger] (0x1c0int % m) == 0 implies exists|f: int| #[trigger]
        refutes(3, 0x1c0, 0x1c1, m, f) by {
        lemma_euclid(m, 2, 0xe0);
        if m % 2 == 0 {
            assert(refutes(3, 0x1c0, 0x1c1, m, 2));
        } else {
            lemma_euclid(m, 2, 0x70);
            lemma_euclid(m, 2, 0x38);
            lemma_euclid(m, 2, 0x1c);
            lemma_euclid(m, 2, 0xe);
            lemma_euclid(m, 2, 7);
            lemma_euclid(m, 7, 1);
            if m % 7 == 0 {
                assert(refutes(3, 0x1c0, 0x1c1, m, 7));
            } else {
                lemma_small_mod(1, m as nat);
            }
        }
    }
    lemma_lucas(0x1c1, 0x1c0, 3);
}

/// 449 is prime.
pub proof fn lemma_prime_449()
    ensures
        is_prime(0x1c1),
{
    lemma_root_449();
    lemma_root_gives_prime(3, 0x1c1);
}

/// A power of the root 5 modulo 609743.
proof fn lemma_power_609743_1()
    ensures
        pow_mod(5, 0x4a6e7, 0x94dcf) == 0x94dce,
{
    let p = 0x94dcf;
    let g = 5;
    lemma_chain_start(p, g);
    let e: nat = 0;
    let e = lemma_chain_square(p, g, e, 1, 0, 1);
    let e = lemma_chain_multiply(p, g, e, 1, 0, 5);
    let e = lemma_chain_square(p, g, e, 5, 0, 0x19);
    let e = lemma_chain_square(p, g, e, 0x19, 0, 0x271);
    let e = lemma_chain_square(p, g, e, 0x271, 0, 0x5f5e1);
    let e = lemma_chain_multiply(p, g, e, 0x5f5e1, 3, 0x1e3f8);
    let e = lemma_chain_square(p, g, e, 0x1e3f8, 0x6256, 0x85eb6);
    let e = lemma_chain_square(p, g, e, 0x85eb6, 0x7879d, 0x44871);
    let e = lemma_chain_multiply(p, g, e, 0x44871, 2, 0x2ce97);
    let e = lemma_chain_square(p, g, e, 0x2ce97, 0xd8cc, 0x2b41d);
    let e = lemma_chain_square(p, g, e, 0x2b41d, 0xc91d, 0x773d6);
    let e = lemma_chain_square(p, g, e, 0x773d6, 0x5f82e, 0x673b2);
    let e = lemma_chain_multiply(p, g, e, 0x673b2, 3, 0x4590d);
    let e = lemma_chain_square(p, g, e, 0x4590d, 0x20824, 0x6a18d);
    let e = lemma_chain_multiply(p, g, e, 0x6a18d, 3, 0x53e54);
    let e = lemma_chain_square(p, g, e, 0x53e54, 0x2f480, 0x69810);
    let e = lemma_chain_square(p, g, e, 0x69810, 0x4ac62, 0x23c2);
    let e = lemma_chain_multiply(p, g, e, 0x23c2, 0, 0xb2ca);
    let e = lemma_chain_square(p, g, e, 0xb2ca, 0xd6b, 0x67edf);
    let e = lemma_chain_multiply(p, g, e, 0x67edf, 3, 0x490ee);
    let e = lemma_chain_square(p, g, e, 0x490ee, 0x23dae, 0x16792);
    let e = lemma_chain_multiply(p, g, e, 0x16792, 0, 0x705da);
    let e = lemma_chain_square(p, g, e, 0x705da, 0x54d10, 0x71db4);
    let e = lemma_chain_square(p, g, e, 0x71db4, 0x5714f, 0x7e4af);
    let e = lemma_chain_square(p, g, e, 0x7e4af, 0x6b24f, 0x73ec0);
    let e = lemma_chain_multiply(p, g, e, 0x73ec0, 3, 0x85053);
    let e = lemma_chain_square(p, g, e, 0x85053, 0x76dd1, 0x151ea);
    let e = lemma_chain_multiply(p, g, e, 0x151ea, 0, 0x69992);
    let e = lemma_chain_square(p, g, e, 0x69992, 0x4ae85, 0x3b8b9);
    let e = lemma_chain_multiply(p, g, e, 0x3b8b9, 1, 0x94dce);
}

/// A power of the root 5 modulo 609743.
proof fn lemma_power_609743_2()
    ensures
        pow_mod(5, 0x15442, 0x94dcf) == 0x32aad,
{
    let p = 0x94dcf;
    let g = 5;
    lemma_chain_start(p, g);
    let e: nat = 0;
    let e = lemma_chain_square(p, g, e, 1, 0, 1);
    let e = lemma_chain_multiply(p, g, e, 1, 0, 5);
    let e = lemma_chain_square(p, g, e, 5, 0, 0x19);
    let e = lemma_chain_square(p, g, e, 0x19, 0, 0x271);
    let e = lemma_chain_multiply(p, g, e, 0x271, 0, 0xc35);
    let e = lemma_chain_square(p, g, e, 0xc35, 0x10, 0x2609);
    let e = lemma_chain_square(p, g, e, 0x2609, 0x9b, 0x48ffc);
    let e = lemma_chain_multiply(p, g, e, 0x48ffc, 2, 0x4344e);
    let e = lemma_chain_square(p, g, e, 0x4344e, 0x1e65d, 0x78991);
    let e = lemma_chain_square(p, g, e, 0x78991, 0x61b31, 0x3ca82);
    let e = lemma_chain_multiply(p, g, e, 0x3ca82, 2, 0x58ec);
    let e = lemma_chain_square(p, g, e, 0x58ec, 0x351, 0x80e11);
    let e = lemma_chain_square(p, g, e, 0x80e11, 0x6f93f, 0x36030);
    let e = lemma_chain_square(p, g, e, 0x36030, 0x1398d, 0x216fd);
    let e = lemma_chain_square(p, g, e, 0x216fd, 0x782a, 0x4aa13);
    let e = lemma_chain_multiply(p, g, e, 0x4aa13, 2, 0x4b6c1);
    let e = lemma_chain_square(p, g, e, 0x4b6c1, 0x26368, 0x25469);
    let e = lemma_chain_square(p, g, e, 0x25469, 0x9557, 0x626b8);
    let e = lemma_chain_square(p, g, e, 0x626b8, 0x4111d, 0x694cd);
    let e = lemma_chain_square(p, g, e, 0x694cd, 0x4a7c3, 0x55e7c);
    let e = lemma_chain_square(p, g, e, 0x55e7c, 0x3192e, 0x519de);
    let e = lemma_chain_multiply(p, g, e, 0x519de, 2, 0x6e5b8);
    let e = lemma_chain_square(p, g, e, 0x6e5b8, 0x51cfd, 0x32aad);
}

/// A power of the root 5 modulo 609743.
proof fn lemma_power_609743_3()
    ensures
        pow_mod(5, 0x188e, 0x94dcf) == 0x84d45,
{
    let p = 0x94dcf;
    let g = 5;
    lemma_chain_start(p, g);
    let e: nat = 0;
    let e = lemma_chain_square(p, g, e, 1, 0, 1);
    let e = lemma_chain_multiply(p, g, e, 1, 0, 5);
    let e = lemma_chain_square(p, g, e, 5, 0, 0x19);
    let e = lemma_chain_multiply(p, g, e, 0x19, 0, 0x7d);
    let e = lemma_chain_square(p, g, e, 0x7d, 0, 0x3d09);
    let e = lemma_chain_square(p, g, e, 0x3d09, 0x190, 0x3b6e1);
    let e = lemma_chain_square(p, g, e, 0x3b6e1, 0x17b9d, 0x484ce);
    let e = lemma_chain_square(p, g, e, 0x484ce, 0x231d7, 0x21deb);
    let e = lemma_chain_multiply(p, g, e, 0x21deb, 1, 0x147c8);
    let e = lemma_chain_square(p, g, e, 0x147c8, 0x2d1b, 0x7f46b);
    let e = lemma_chain_square(p, g, e, 0x7f46b, 0x6cd1c, 0x8df15);
    let e = lemma_chain_square(p, g, e, 0x8df15, 0x87580, 0x71539);
    let e = lemma_chain_square(p, g, e, 0x71539, 0x5645e, 0x5f8af);
    let e = lemma_chain_multiply(p, g, e, 0x5f8af, 3, 0x1f1fe);
    let e = lemma_chain_square(p, g, e, 0x1f1fe, 0x681e, 0x901c2);
    let e = lemma_chain_multiply(p, g, e, 0x901c2, 4, 0x7d18e);
    let e = lemma_chain_square(p, g, e, 0x7d18e, 0x69202, 0x8126);
    let e = lemma_chain_multiply(p, g, e, 0x8126, 0, 0x285be);
    let e = lemma_chain_square(p, g, e, 0x285be, 0xaf11, 0x84d45);
}

/// A power of the root 5 modulo 609743.
proof fn lemma_power_609743_4()
    ensures
        pow_mod(5, 0x54e, 0x94dcf) == 0x741f0,
{
    let p = 0x94dcf;
    let g = 5;
    lemma_chain_start(p, g);
    let e: nat = 0;
    let e = lemma_chain_square(p, g, e, 1, 0, 1);
    let e = lemma_chain_multiply(p, g, e, 1, 0, 5);
    let e = lemma_chain_square(p, g, e, 5, 0, 0x19);
    let e = lemma_chain_square(p, g, e, 0x19, 0, 0x271);
    let e = lemma_chain_multiply(p, g, e, 0x271, 0, 0xc35);
    let e = lemma_chain_square(p, g, e, 0xc35, 0x10, 0x2609);
    let e = lemma_chain_square(p, g, e, 0x2609, 0x9b, 0x48ffc);
    let e = lemma_chain_multiply(p, g, e, 0x48ffc, 2, 0x4344e);
    let e = lemma_chain_square(p, g, e, 0x4344e, 0x1e65d, 0x78991);
    let e = lemma_chain_square(p, g, e, 0x78991, 0x61b31, 0x3ca82);
    let e = lemma_chain_square(p, g, e, 0x3ca82, 0x18b73, 0x11107);
    let e = lemma_chain_multiply(p, g, e, 0x11107, 0, 0x55523);
    let e = lemma_chain_square(p, g, e, 0x55523, 0x30e6e, 0x81d7);
    let e = lemma_chain_multiply(p, g, e, 0x81d7, 0, 0x28933);
    let e = lemma_chain_square(p, g, e, 0x28933, 0xb0f3, 0x74ac);
    let e = lemma_chain_multiply(p, g, e, 0x74ac, 0, 0x2475c);
    let e = lemma_chain_square(p, g, e, 0x2475c, 0x8ee0, 0x741f0);
}

/// A power of a power of the root 5 modulo 609743.
proof fn lemma_power_609743_5()
    ensures
        pow_mod(0x94dce, 2, 0x94dcf) == 1,
{
    let p = 0x94dcf;
    let g = 0x94dce;
    lemma_chain_start(p, g);
    let e: nat = 0;
    let e = lemma_chain_square(p, g, e, 1, 0, 1);
    let e = lemma_chain_multiply(p, g, e, 1, 0, 0x94dce);
    let e = lemma_chain_square(p, g, e, 0x94dce, 0x94dcd, 1);
}

/// 5 is a primitive root modulo 609743.
pub proof fn lemma_root_609743()
    ensures
        is_primitive_root(5, 0x94dcf),
{
    let p = 0x94dcf;
    let g = 5;
    lemma_power_609743_1();
    lemma_power_609743_2();
    lemma_power_609743_3();
    lemma_power_609743_4();
    lemma_power_609743_5();
    lemma_chain_rebase(p, g, 0x4a6e7, 0x94dce, 2, 1);
    lemma_two_is_prime();
    lemma_prime_7();
    lemma_prime_97();
    lemma_prime_449();
    assert forall|m: int| m >= 2 && #[trigger] (0x94dceint % m) == 0 implies exists|f: int| #[trigger]
        refutes(5, 0x94dce, 0x94dcf, m, f) by {
        lemma_euclid(m, 2, 0x4a6e7);
        if m % 2 == 0 {
            assert(refutes(5, 0x94dce, 0x94dcf, m, 2));
        } else {
            lemma_euclid(m, 7, 0xaa21);
            if m % 7 == 0 {
                assert(refutes(5, 0x94dce, 0x94dcf, m, 7));
            } else {
                lemma_euclid(m, 0x61, 0x1c1);
                if m % 0x61 == 0 {
                    assert(refutes(5, 0x94dce, 0x94dcf, m, 0x61));
                } else {
                    lemma_euclid(m, 0x1c1, 1);
                    if m % 0x1c1 == 0 {
                        assert(refutes(5, 0x94dce, 0x94dcf, m, 0x1c1));
                    } else {
                        lemma_small_mod(1, m as nat);
                    }
                }
            }
        }
    }
    lemma_lucas(0x94dcf, 0x94dce, 5);
}

/// 609743 is prime.
pub proof fn lemma_prime_609743()
    ensures
        is_prime(0x94dcf),
{
    lemma_root_609743();
    lemma_root_gives_prime(5, 0x94dcf);
}

/// A power of the root 2 modulo 52437899.
proof fn lemma_power_52437899_1()
    ensures
        pow_mod(2, 0x19011c5, 0x320238b) == 0x320238a,
{
    let p = 0x320238b;
    let g = 2;
    lemma_chain_start(p, g);
    let e: nat = 0;
    let e = lemma_chain_square(p, g, e, 1, 0, 1);
    let e = lemma_chain_multiply(p, g, e, 1, 0, 2);
    let e = lemma_chain_square(p, g, e, 2, 0, 4);
    let e = lemma_chain_multiply(p, g, e, 4, 0, 8);
    let e = lemma_chain_square(p, g, e, 8, 0, 0x40);
    let e = lemma_chain_square(p, g, e, 0x40, 0, 0x1000);
    let e = lemma_chain_square(p, g, e, 0x1000, 0, 0x1000000);
    let e = lemma_chain_multiply(p, g, e, 0x1000000, 0, 0x2000000);
    let e = lemma_chain_square(p, g, e, 0x2000000, 0x1479f86, 0x8d103e);
    let e = lemma_chain_square(p, g, e, 0x8d103e, 0x18de8a, 0x2261c16);
    let e = lemma_chain_square(p, g, e, 0x2261c16, 0x17a35d1, 0x1c60669);
    let e = lemma_chain_square(p, g, e, 0x1c60669, 0x101a0f3, 0x517a20);
    let e = lemma_chain_square(p, g, e, 0x517a20, 0x84bf4, 0x11eea84);
    let e = lemma_chain_square(p, g, e, 0x11eea84, 0x66e218, 0x1ff8908);
    let e = lemma_chain_square(p, g, e, 0x1ff8908, 0x1470756, 0x2f7d28e);
    let e = lemma_chain_square(p, g, e, 0x2f7d28e, 0x2d1899b, 0x13b5e9b);
    let e = lemma_chain_multiply(p, g, e, 0x13b5e9b, 0, 0x276bd36);
    let e = lemma_chain_square(p, g, e, 0x276bd36, 0x1f13417, 0x1aa59e7);
    let e = lemma_chain_square(p, g, e, 0x1aa59e7, 0xe32e03, 0x5a09d0);
    let e = lemma_chain_square(p, g, e, 0x5a09d0, 0xa21c2, 0x426eaa);
    let e = lemma_chain_square(p, g, e, 0x426eaa, 0x583fe, 0x1b423fa);
    let e = lemma_chain_multiply(p, g, e, 0x1b423fa, 1, 0x482469);
    let e = lemma_chain_square(p, g, e, 0x482469, 0x68126, 0x24d616f);
    let e = lemma_chain_multiply(p, g, e, 0x24d616f, 1, 0x17a9f53);
    let e = lemma_chain_square(p, g, e, 0x17a9f53, 0xb3299a, 0x30c904b);
    let e = lemma_chain_multiply(p, g, e, 0x30c904b, 1, 0x2f8fd0b);
    let e = lemma_chain_square(p, g, e, 0x2f8fd0b, 0x2d3c0f0, 0x1142c29);
    let e = lemma_chain_square(p, g, e, 0x1142c29, 0x5f5290, 0x1fa9a61);
    let e = lemma_chain_square(p, g, e, 0x1fa9a61, 0x140c0ac, 0x28cb75d);
    let e = lemma_chain_square(p, g, e, 0x28cb75d, 0x21474ab, 0x19f5df0);
    let e = lemma_chain_multiply(p, g, e, 0x19f5df0, 1, 0x1e9855);
    let e = lemma_chain_square(p, g, e, 0x1e9855, 0x12b7c, 0x17c7be5);
    let e = lemma_chain_square(p, g, e, 0x17c7be5, 0xb4edbc, 0x19011c5);
    let e = lemma_chain_multiply(p, g, e, 0x19011c5, 0, 0x320238a);
}

/// A power of the root 2 modulo 52437899.
proof fn lemma_power_52437899_2()
    ensures
        pow_mod(2, 0x129b9e, 0x320238b) == 0xb36ca5,
{
    let p = 0x320238b;
    let g = 2;
    lemma_chain_start(p, g);
    let e: nat = 0;
    let e = lemma_chain_square(p, g, e, 1, 0, 1);
    let e = lemma_chain_multiply(p, g, e, 1, 0, 2);
    let e = lemma_chain_square(p, g, e, 2, 0, 4);
    let e = lemma_chain_square(p, g, e, 4, 0, 0x10);
    let e = lemma_chain_square(p, g, e, 0x10, 0, 0x100);
    let e = lemma_chain_multiply(p, g, e, 0x100, 0, 0x200);
    let e = lemma_chain_square(p, g, e, 0x200, 0, 0x40000);
    let e = lemma_chain_square(p, g, e, 0x40000, 0x51e, 0x18a1eb6);
    let e = lemma_chain_multiply(p, g, e, 0x18a1eb6, 0, 0x3143d6c);
    let e = lemma_chain_square(p, g, e, 0x3143d6c, 0x3088499, 0x1bbbb7d);
    let e = lemma_chain_square(p, g, e, 0x1bbbb7d, 0xf6148f, 0x2a12464);
    let e = lemma_chain_square(p, g, e, 0x2a12464, 0x2364d5a, 0x1a4f932);
    let e = lemma_chain_multiply(p, g, e, 0x1a4f932, 1, 0x29ced9);
    let e = lemma_chain_square(p, g, e, 0x29ced9, 0x22f3b, 0x29f3de8);
    let e = lemma_chain_multiply(p, g, e, 0x29f3de8, 1, 0x21e5845);
    let e = lemma_chain_square(p, g, e, 0x21e5845, 0x16f9bca, 0x1754deb);
    let e = lemma_chain_square(p, g, e, 0x1754deb, 0xae2a3a, 0x2ee5a3b);
    let e = lemma_chain_multiply(p, g, e, 0x2ee5a3b, 1, 0x2bc90eb);
    let e = lemma_chain_square(p, g, e, 0x2bc90eb, 0x2656275, 0xec332);
    let e = lemma_chain_multiply(p, g, e, 0xec332, 0, 0x1d8664);
    let e = lemma_chain_square(p, g, e, 0x1d8664, 0x116e7, 0x9bd2a3);
    let e = lemma_chain_multiply(p, g, e, 0x9bd2a3, 0, 0x137a546);
    let e = lemma_chain_square(p, g, e, 0x137a546, 0x7961f5, 0x2daa01d);
    let e = lemma_chain_square(p, g, e, 0x2daa01d, 0x29b26b0, 0x30031b9);
    let e = lemma_chain_square(p, g, e, 0x30031b9, 0x2e18664, 0x154b365);
    let e = lemma_chain_multiply(p, g, e, 0x154b365, 0, 0x2a966ca);
    let e = lemma_chain_square(p, g, e, 0x2a966ca, 0x24448c9, 0x2d29741);
    let e = lemma_chain_multiply(p, g, e, 0x2d29741, 1, 0x2850af7);
    let e = lemma_chain_square(p, g, e, 0x2850af7, 0x2080293, 0x30abb80);
    let e = lemma_chain_multiply(p, g, e, 0x30abb80, 1, 0x2f55375);
    let e = lemma_chain_square(p, g, e, 0x2f55375, 0x2cccdcf, 0xf00714);
    let e = lemma_chain_multiply(p, g, e, 0xf00714, 0, 0x1e00e28);
    let e = lemma_chain_square(p, g, e, 0x1e00e28, 0x1200431, 0xb36ca5);
}

/// A power of the root 2 modulo 52437899.
proof fn lemma_power_52437899_3()
    ensures
        pow_mod(2, 0x56, 0x320238b) == 0x19c81eb,
{
    let p = 0x320238b;
    let g = 2;
    lemma_chain_start(p, g);
    let e: nat = 0;
    let e = lemma_chain_square(p, g, e, 1, 0, 1);
    let e = lemma_chain_multiply(p, g, e, 1, 0, 2);
    let e = lemma_chain_square(p, g, e, 2, 0, 4);
    let e = lemma_chain_square(p, g, e, 4, 0, 0x10);
    let e = lemma_chain_multiply(p, g, e, 0x10, 0, 0x20);
    let e = lemma_chain_square(p, g, e, 0x20, 0, 0x400);
    let e = lemma_chain_square(p, g, e, 0x400, 0, 0x100000);
    let e = lemma_chain_multiply(p, g, e, 0x100000, 0, 0x200000);
    let e = lemma_chain_square(p, g, e, 0x200000, 0x1479f, 0x1a35fab);
    let e = lemma_chain_multiply(p, g, e, 0x1a35fab, 1, 0x269bcb);
    let e = lemma_chain_square(p, g, e, 0x269bcb, 0x1dcea, 0x19c81eb);
}

/// A power of a power of the root 2 modulo 52437899.
proof fn lemma_power_52437899_4()
    ensures
        pow_mod(0x320238a, 2, 0x320238b) == 1,
{
    let p = 0x320238b;
    let g = 0x320238a;
    lemma_chain_start(p, g);
    let e: nat = 0;
    let e = lemma_chain_square(p, g, e, 1, 0, 1);
    let e = lemma_chain_multiply(p, g, e, 1, 0, 0x320238a);
    let e = lemma_chain_square(p, g, e, 0x320238a, 0x3202389, 1);
}

/// 2 is a primitive root modulo 52437899.
pub proof fn lemma_root_52437899()
    ensures
        is_primitive_root(2, 0x320238b),
{
    let p = 0x320238b;
    let g = 2;
    lemma_power_52437899_1();
    lemma_power_52437899_2();
    lemma_power_52437899_3();
    lemma_power_52437899_4();
    lemma_chain_rebase(p, g, 0x19011c5, 0x320238a, 2, 1);
    lemma_two_is_prime();
    lemma_prime_43();
    lemma_prime_609743();
    assert forall|m: int| m >= 2 && #[trigger] (0x320238aint % m) == 0 implies exists|f: int| #[trigger]
        refutes(2, 0x320238a, 0x320238b, m, f) by {
        lemma_euclid(m, 2, 0x19011c5);
        if m % 2 == 0 {
            assert(refutes(2, 0x320238a, 0x320238b, m, 2));
        } else {
            lemma_euclid(m, 0x2b, 0x94dcf);
            if m % 0x2b == 0 {
                assert(refutes(2, 0x320238a, 0x320238b, m, 0x2b));
            } else {
                lemma_euclid(m, 0x94dcf, 1);
                if m % 0x94dcf == 0 {
                    assert(refutes(2, 0x320238a, 0x320238b, m, 0x94dcf));
                } else {
                    lemma_small_mod(1, m as nat);
                }
            }
        }
    }
    lemma_lucas(0x320238b, 0x320238a, 2);
}

/// 52437899 is prime.
pub proof fn lemma_prime_52437899()
    ensures
        is_prime(0x320238b),
{
    lemma_root_52437899();
    lemma_root_gives_prime(2, 0x320238b);
}

/// A power of the root 3 modulo 89.
proof fn lemma_power_89_1()
    ensures
        pow_mod(3, 0x2c, 0x59) == 0x58,
{
    let p = 0x59;
    let g = 3;
    lemma_chain_start(p, g);
    let e: nat = 0;
    let e = lemma_chain_square(p, g, e, 1, 0, 1);
    let e = lemma_chain_multiply(p, g, e, 1, 0, 3);
    let e = lemma_chain_square(p, g, e, 3, 0, 9);
    let e = lemma_chain_square(p, g, e, 9, 0, 0x51);
    let e = lemma_chain_multiply(p, g, e, 0x51, 2, 0x41);
    let e = lemma_chain_square(p, g, e, 0x41, 0x2f, 0x2a);
    let e = lemma_chain_multiply(p, g, e, 0x2a, 1, 0x25);
    let e = lemma_chain_square(p, g, e, 0x25, 0xf, 0x22);
    let e = lemma_chain_square(p, g, e, 0x22, 0xc, 0x58);
}

/// A power of the root 3 modulo 89.
proof fn lemma_power_89_2()
    ensures
        pow_mod(3, 8, 0x59) == 0x40,
{
    let p = 0x59;
    let g = 3;
    lemma_chain_start(p, g);
    let e: nat = 0;
    let e = lemma_chain_square(p, g, e, 1, 0, 1);
    let e = lemma_chain_multiply(p, g, e, 1, 0, 3);
    let e = lemma_chain_square(p, g, e, 3, 0, 9);
    let e = lemma_chain_square(p, g, e, 9, 0, 0x51);
    let e = lemma_chain_square(p, g, e, 0x51, 0x49, 0x40);
}

/// A power of a power of the root 3 modulo 89.
proof fn lemma_power_89_3()
    ensures
        pow_mod(0x58, 2, 0x59) == 1,
{
    let p = 0x59;
    let g = 0x58;
    lemma_chain_start(p, g);
    let e: nat = 0;
    let e = lemma_chain_square(p, g, e, 1, 0, 1);
    let e = lemma_chain_multiply(p, g, e, 1, 0, 0x58);
    let e = lemma_chain_square(p, g, e, 0x58, 0x57, 1);
}

/// 3 is a primitive root modulo 89.
pub proof fn lemma_root_89()
    ensures
        is_primitive_root(3, 0x59),
{
    let p = 0x59;
    let g = 3;
    lemma_power_89_1();
    lemma_power_89_2();
    lemma_power_89_3();
    lemma_chain_rebase(p, g, 0x2c, 0x58, 2, 1);
    lemma_two_is_prime();
    lemma_prime_11();
    assert forall|m: int| m >= 2 && #[trigger] (0x58int % m) == 0 implies exists|f: int| #[trigger]
        refutes(3, 0x58, 0x59, m, f) by {
        lemma_euclid(m, 2, 0x2c);
        if m % 2 == 0 {
            assert(refutes(3, 0x58, 0x59, m, 2));
        } else {
            lemma_euclid(m, 2, 0x16);
            lemma_euclid(m, 2, 0xb);
            lemma_euclid(m, 0xb, 1);
            if m % 0xb == 0 {
                assert(refutes(3, 0x58, 0x59, m, 0xb));
            } else {
                lemma_small_mod(1, m as nat);
            }
        }
    }
    lemma_lucas(0x59, 0x58, 3);
}

/// 89 is prime.
pub proof fn lemma_prime_89()
    ensures
        is_prime(0x59),
{
    lemma_root_89();
    lemma_root_gives_prime(3, 0x59);
}

/// A power of the root 2 modulo 179.
proof fn lemma_power_179_1()
    ensures
        pow_mod(2, 0x59, 0xb3) == 0xb2,
{
    let p = 0xb3;
    let g = 2;
    lemma_chain_start(p, g);
    let e: nat = 0;
    let e = lemma_chain_square(p, g, e, 1, 0, 1);
    let e = lemma_chain_multiply(p, g, e, 1, 0, 2);
    let e = lemma_chain_square(p, g, e, 2, 0, 4);
    let e = lemma_chain_square(p, g, e, 4, 0, 0x10);
    let e = lemma_chain_multiply(p, g, e, 0x10, 0, 0x20);
    let e = lemma_chain_square(p, g, e, 0x20, 5, 0x81);
    let e = lemma_chain_multiply(p, g, e, 0x81, 1, 0x4f);
    let e = lemma_chain_square(p, g, e, 0x4f, 0x22, 0x9b);
    let e = lemma_chain_square(p, g, e, 0x9b, 0x86, 0x27);
    let e = lemma_chain_square(p, g, e, 0x27, 8, 0x59);
    let e = lemma_chain_multiply(p, g, e, 0x59, 0, 0xb2);
}

/// A power of the root 2 modulo 179.
proof fn lemma_power_179_2()
    ensures
        pow_mod(2, 2, 0xb3) == 4,
{
    let p = 0xb3;
    let g = 2;
    lemma_chain_start(p, g);
    let e: nat = 0;
    let e = lemma_chain_square(p, g, e, 1, 0, 1);
    let e = lemma_chain_multiply(p, g, e, 1, 0, 2);
    let e = lemma_chain_square(p, g, e, 2, 0, 4);
}

/// A power of a power of the root 2 modulo 179.
proof fn lemma_power_179_3()
    ensures
        pow_mod(0xb2, 2, 0xb3) == 1,
{
    let p = 0xb3;
    let g = 0xb2;
    lemma_chain_start(p, g);
    let e: nat = 0;
    let e = lemma_chain_square(p, g, e, 1, 0, 1);
    let e = lemma_chain_multiply(p, g, e, 1, 0, 0xb2);
    let e = lemma_chain_square(p, g, e, 0xb2, 0xb1, 1);
}

/// 2 is a primitive root modulo 179.
pub proof fn lemma_root_179()
    ensures
        is_primitive_root(2, 0xb3),
{
    let p = 0xb3;
    let g = 2;
    lemma_power_179_1();
    lemma_power_179_2();
    lemma_power_179_3();
    lemma_chain_rebase(p, g, 0x59, 0xb2, 2, 1);
    lemma_two_is_prime();
    lemma_prime_89();
    assert forall|m: int| m >= 2 && #[trigger] (0xb2int % m) == 0 implies exists|f: int| #[trigger]
        refutes(2, 0xb2, 0xb3, m, f) by {
        lemma_euclid(m, 2, 0x59);
        if m % 2 == 0 {
            assert(refutes(2, 0xb2, 0xb3, m, 2));
        } else {
            lemma_euclid(m, 0x59, 1);
            if m % 0x59 == 0 {
                assert(refutes(2, 0xb2, 0xb3, m, 0x59));
            } else {
                lemma_small_mod(1, m as nat);
            }
        }
    }
    lemma_lucas(0xb3, 0xb2, 2);
}

/// 179 is prime.
pub proof fn lemma_prime_179()
    ensures
        is_prime(0xb3),
{
    lemma_root_179();
    lemma_root_gives_prime(2, 0xb3);
}

/// A power of the root 7 modulo 359.
proof fn lemma_power_359_1()
    ensures
        pow_mod(7, 0xb3, 0x167) == 0x166,
{
    let p = 0x167;
    let g = 7;
    lemma_chain_start(p, g);
    let e: nat = 0;
    let e = lemma_chain_square(p, g, e, 1, 0, 1);
    let e = lemma_chain_multiply(p, g, e, 1, 0, 7);
    let e = lemma_chain_square(p, g, e, 7, 0, 0x31);
    let e = lemma_chain_square(p, g, e, 0x31, 6, 0xf7);
    let e = lemma_chain_multiply(p, g, e, 0xf7, 4, 0x125);
    let e = lemma_chain_square(p, g, e, 0x125, 0xef, 0x30);
    let e = lemma_chain_multiply(p, g, e, 0x30, 0, 0x150);
    let e = lemma_chain_square(p, g, e, 0x150, 0x13a, 0xaa);
    let e = lemma_chain_square(p, g, e, 0xaa, 0x50, 0xb4);
    let e = lemma_chain_square(p, g, e, 0xb4, 0x5a, 0x5a);
    let e = lemma_chain_multiply(p, g, e, 0x5a, 1, 0x10f);
    let e = lemma_chain_square(p, g, e, 0x10f, 0xcc, 0xcd);
    let e = lemma_chain_multiply(p, g, e, 0xcd, 3, 0x166);
}

/// A power of the root 7 modulo 359.
proof fn lemma_power_359_2()
    ensures
        pow_mod(7, 2, 0x167) == 0x31,
{
    let p = 0x167;
    let g = 7;
    lemma_chain_start(p, g);
    let e: nat = 0;
    let e = lemma_chain_square(p, g, e, 1, 0, 1);
    let e = lemma_chain_multiply(p, g, e, 1, 0, 7);
    let e = lemma_chain_square(p, g, e, 7, 0, 0x31);
}

/// A power of a power of the root 7 modulo 359.
proof fn lemma_power_359_3()
    ensures
        pow_mod(0x166, 2, 0x167) == 1,
{
    let p = 0x167;
    let g = 0x166;
    lemma_chain_start(p, g);
    let e: nat = 0;
    let e = lemma_chain_square(p, g, e, 1, 0, 1);
    let e = lemma_chain_multiply(p, g, e, 1, 0, 0x166);
    let e = lemma_chain_square(p, g, e, 0x166, 0x165, 1);
}

/// 7 is a primitive root modulo 359.
pub proof fn lemma_root_359()
    ensures
        is_primitive_root(7, 0x167),
{
    let p = 0x167;
    let g = 7;
    lemma_power_359_1();
    lemma_power_359_2();
    lemma_power_359_3();
    lemma_chain_rebase(p, g, 0xb3, 0x166, 2, 1);
    lemma_two_is_prime();
    lemma_prime_179();
    assert forall|m: int| m >= 2 && #[trigger] (0x166int % m) == 0 implies exists|f: int| #[trigger]
        refutes(7, 0x166, 0x167, m, f) by {
        lemma_euclid(m, 2, 0xb3);
        if m % 2 == 0 {
            assert(refutes(7, 0x166, 0x167, m, 2));
        } else {
            lemma_euclid(m, 0xb3, 1);
            if m % 0xb3 == 0 {
                assert(refutes(7, 0x166, 0x167, m, 0xb3));
            } else {
                lemma_small_mod(1, m as nat);
            }
        }
    }
    lemma_lucas(0x167, 0x166, 7);
}

/// 359 is prime.
pub proof fn lemma_prime_359()
    ensures
        is_prime(0x167),
{
    lemma_root_359();
    lemma_root_gives_prime(7, 0x167);
}

/// A power of the root 3 modulo 110573.
proof fn lemma_power_110573_1()
    ensures
        pow_mod(3, 0xd7f6, 0x1afed) == 0x1afec,
{
    let p = 0x1afed;
    let g = 3;
    lemma_chain_start(p, g);
    let e: nat = 0;
    let e = lemma_chain_square(p, g, e, 1, 0, 1);
    let e = lemma_chain_multiply(p, g, e, 1, 0, 3);
    let e = lemma_chain_square(p, g, e, 3, 0, 9);
    let e = lemma_chain_multiply(p, g, e, 9, 0, 0x1b);
    let e = lemma_chain_square(p, g, e, 0x1b, 0, 0x2d9);
    let e = lemma_chain_square(p, g, e, 0x2d9, 4, 0x15c3d);
    let e = lemma_chain_multiply(p, g, e, 0x15c3d, 2, 0xb4dd);
    let e = lemma_chain_square(p, g, e, 0xb4dd, 0x4bbb, 0x195aa);
    let e = lemma_chain_square(p, g, e, 0x195aa, 0x17cff, 0x14bd1);
    let e = lemma_chain_multiply(p, g, e, 0x14bd1, 2, 0x8399);
    let e = lemma_chain_square(p, g, e, 0x8399, 0x2818, 0x6b39);
    let e = lemma_chain_multiply(p, g, e, 0x6b39, 0, 0x141ab);
    let e = lemma_chain_square(p, g, e, 0x141ab, 0xef8e, 0x6fc3);
    let e = lemma_chain_multiply(p, g, e, 0x6fc3, 0, 0x14f49);
    let e = lemma_chain_square(p, g, e, 0x14f49, 0x10444, 0xb3dd);
    let e = lemma_chain_multiply(p, g, e, 0xb3dd, 1, 0x6baa);
    let e = lemma_chain_square(p, g, e, 0x6baa, 0x1ad6, 0x6ac6);
    let e = lemma_chain_multiply(p, g, e, 0x6ac6, 0, 0x14052);
    let e = lemma_chain_square(p, g, e, 0x14052, 0xed8d, 0xcbbb);
    let e = lemma_chain_multiply(p, g, e, 0xcbbb, 1, 0xb344);
    let e = lemma_chain_square(p, g, e, 0xb344, 0x4a66, 0x18fa2);
    let e = lemma_chain_multiply(p, g, e, 0x18fa2, 2, 0x14f0c);
    let e = lemma_chain_square(p, g, e, 0x14f0c, 0x103e5, 0x1428f);
    let e = lemma_chain_square(p, g, e, 0x1428f, 0xf0e2, 0x8ca7);
    let e = lemma_chain_multiply(p, g, e, 0x8ca7, 0, 0x1a5f5);
    let e = lemma_chain_square(p, g, e, 0x1a5f5, 0x19c37, 0x1848e);
    let e = lemma_chain_multiply(p, g, e, 0x1848e, 2, 0x12dd0);
    let e = lemma_chain_square(p, g, e, 0x12dd0, 0xd2e4, 0x1afec);
}

/// A power of the root 3 modulo 110573.
proof fn lemma_power_110573_2()
    ensures
        pow_mod(3, 0x3db4, 0x1afed) == 0x10cea,
{
    let p = 0x1afed;
    let g = 3;
    lemma_chain_start(p, g);
    let e: nat = 0;
    let e = lemma_chain_square(p, g, e, 1, 0, 1);
    let e = lemma_chain_multiply(p, g, e, 1, 0, 3);
    let e = lemma_chain_square(p, g, e, 3, 0, 9);
    let e = lemma_chain_multiply(p, g, e, 9, 0, 0x1b);
    let e = lemma_chain_square(p, g, e, 0x1b, 0, 0x2d9);
    let e = lemma_chain_multiply(p, g, e, 0x2d9, 0, 0x88b);
    let e = lemma_chain_square(p, g, e, 0x88b, 0x2b, 0x6eaa);
    let e = lemma_chain_multiply(p, g, e, 0x6eaa, 0, 0x14bfe);
    let e = lemma_chain_square(p, g, e, 0x14bfe, 0xff2e, 0x206e);
    let e = lemma_chain_square(p, g, e, 0x206e, 0x26f, 0x8d81);
    let e = lemma_chain_multiply(p, g, e, 0x8d81, 0, 0x1a883);
    let e = lemma_chain_square(p, g, e, 0x1a883, 0x1a139, 0xfa44);
    let e = lemma_chain_multiply(p, g, e, 0xfa44, 1, 0x13edf);
    let e = lemma_chain_square(p, g, e, 0x13edf, 0xeb68, 0xbef9);
    let e = lemma_chain_square(p, g, e, 0xbef9, 0x546f, 0x1826e);
    let e = lemma_chain_multiply(p, g, e, 0x1826e, 2, 0x12770);
    let e = lemma_chain_square(p, g, e, 0x12770, 0xca14, 0x907c);
    let e = lemma_chain_multiply(p, g, e, 0x907c, 1, 0x187);
    let e = lemma_chain_square(p, g, e, 0x187, 1, 0xa544);
    let e = lemma_chain_square(p, g, e, 0xa544, 0x3f3c, 0x2b84);
    let e = lemma_chain_multiply(p, g, e, 0x2b84, 0, 0x828c);
    let e = lemma_chain_square(p, g, e, 0x828c, 0x2774, 0x1aa2c);
    let e = lemma_chain_square(p, g, e, 0x1aa2c, 0x1a47e, 0x10cea);
}

/// A power of the root 3 modulo 110573.
proof fn lemma_power_110573_3()
    ensures
        pow_mod(3, 0x2744, 0x1afed) == 0xe6bc,
{
    let p = 0x1afed;
    let g = 3;
    lemma_chain_start(p, g);
    let e: nat = 0;
    let e = lemma_chain_square(p, g, e, 1, 0, 1);
    let e = lemma_chain_multiply(p, g, e, 1, 0, 3);
    let e = lemma_chain_square(p, g, e, 3, 0, 9);
    let e = lemma_chain_square(p, g, e, 9, 0, 0x51);
    let e = lemma_chain_square(p, g, e, 0x51, 0, 0x19a1);
    let e = lemma_chain_multiply(p, g, e, 0x19a1, 0, 0x4ce3);
    let e = lemma_chain_square(p, g, e, 0x4ce3, 0xdaf, 0x14546);
    let e = lemma_chain_multiply(p, g, e, 0x14546, 2, 0x6ff8);
    let e = lemma_chain_square(p, g, e, 0x6ff8, 0x1d06, 0x107b2);
    let e = lemma_chain_multiply(p, g, e, 0x107b2, 1, 0x16729);
    let e = lemma_chain_square(p, g, e, 0x16729, 0x12aa7, 0x5ef6);
    let e = lemma_chain_square(p, g, e, 0x5ef6, 0x14e0, 0x12104);
    let e = lemma_chain_multiply(p, g, e, 0x12104, 2, 0x332);
    let e = lemma_chain_square(p, g, e, 0x332, 6, 0x1636);
    let e = lemma_chain_square(p, g, e, 0x1636, 0x124, 0xa910);
    let e = lemma_chain_square(p, g, e, 0xa910, 0x422c, 0xca44);
    let e = lemma_chain_square(p, g, e, 0xca44, 0x5eb7, 0x199a5);
    let e = lemma_chain_multiply(p, g, e, 0x199a5, 2, 0x16d15);
    let e = lemma_chain_square(p, g, e, 0x16d15, 0x13495, 0x5ac8);
    let e = lemma_chain_square(p, g, e, 0x5ac8, 0x1314, 0xe6bc);
}

/// A power of the root 3 modulo 110573.
proof fn lemma_power_110573_4()
    ensures
        pow_mod(3, 0x134, 0x1afed) == 0xbed0,
{
    let p = 0x1afed;
    let g = 3;
    lemma_chain_start(p, g);
    let e: nat = 0;
    let e = lemma_chain_square(p, g, e, 1, 0, 1);
    let e = lemma_chain_multiply(p, g, e, 1, 0, 3);
    let e = lemma_chain_square(p, g, e, 3, 0, 9);
    let e = lemma_chain_square(p, g, e, 9, 0, 0x51);
    let e = lemma_chain_square(p, g, e, 0x51, 0, 0x19a1);
    let e = lemma_chain_multiply(p, g, e, 0x19a1, 0, 0x4ce3);
    let e = lemma_chain_square(p, g, e, 0x4ce3, 0xdaf, 0x14546);
    let e = lemma_chain_multiply(p, g, e, 0x14546, 2, 0x6ff8);
    let e = lemma_chain_square(p, g, e, 0x6ff8, 0x1d06, 0x107b2);
    let e = lemma_chain_square(p, g, e, 0x107b2, 0xa0fd, 0x3a8b);
    let e = lemma_chain_multiply(p, g, e, 0x3a8b, 0, 0xafa1);
    let e = lemma_chain_square(p, g, e, 0xafa1, 0x4769, 0x1a00c);
    let e = lemma_chain_square(p, g, e, 0x1a00c, 0x190c0, 0xbed0);
}

/// A power of a power of the root 3 modulo 110573.
proof fn lemma_power_110573_5()
    ensures
        pow_mod(0x1afec, 2, 0x1afed) == 1,
{
    let p = 0x1afed;
    let g = 0x1afec;
    lemma_chain_start(p, g);
    let e: nat = 0;
    let e = lemma_chain_square(p, g, e, 1, 0, 1);
    let e = lemma_chain_multiply(p, g, e, 1, 0, 0x1afec);
    let e = lemma_chain_square(p, g, e, 0x1afec, 0x1afeb, 1);
}

/// 3 is a primitive root modulo 110573.
pub proof fn lemma_root_110573()
    ensures
        is_primitive_root(3, 0x1afed),
{
    let p = 0x1afed;
    let g = 3;
    lemma_power_110573_1();
    lemma_power_110573_2();
    lemma_power_110573_3();
    lemma_power_110573_4();
    lemma_power_110573_5();
    lemma_chain_rebase(p, g, 0xd7f6, 0x1afec, 2, 1);
    lemma_two_is_prime();
    lemma_prime_7();
    lemma_prime_11();
    lemma_prime_359();
    assert forall|m: int| m >= 2 && #[trigger] (0x1afecint % m) == 0 implies exists|f: int| #[trigger]
        refutes(3, 0x1afec, 0x1afed, m, f) by {
        lemma_euclid(m, 2, 0xd7f6);
        if m % 2 == 0 {
            assert(refutes(3, 0x1afec, 0x1afed, m, 2));
        } else {
            lemma_euclid(m, 2, 0x6bfb);
            lemma_euclid(m, 7, 0xf6d);
            if m % 7 == 0 {
                assert(refutes(3, 0x1afec, 0x1afed, m, 7));
            } else {
                lemma_euclid(m, 0xb, 0x167);
                if m % 0xb == 0 {
                    assert(refutes(3, 0x1afec, 0x1afed, m, 0xb));
                } else {
                    lemma_euclid(m, 0x167, 1);
                    if m % 0x167 == 0 {
                        assert(refutes(3, 0x1afec, 0x1afed, m, 0x167));
                    } else {
                        lemma_small_mod(1, m as nat);
                    }
                }
            }
        }
    }
    lemma_lucas(0x1afed, 0x1afec, 3);
}

/// 110573 is prime.
pub proof fn lemma_prime_110573()
    ensures
        is_prime(0x1afed),
{
    lemma_root_110573();
    lemma_root_gives_prime(3, 0x1afed);
}

/// A power of the root 5 modulo 2653753.
proof fn lemma_power_2653753_1()
    ensures
        pow_mod(5, 0x143f1c, 0x287e39) == 0x287e38,
{
    let p = 0x287e39;
    let g = 5;
    lemma_chain_start(p, g);
    let e: nat = 0;
    let e = lemma_chain_square(p, g, e, 1, 0, 1);
    let e = lemma_chain_multiply(p, g, e, 1, 0, 5);
    let e = lemma_chain_square(p, g, e, 5, 0, 0x19);
    let e = lemma_chain_square(p, g, e, 0x19, 0, 0x271);
    let e = lemma_chain_multiply(p, g, e, 0x271, 0, 0xc35);
    let e = lemma_chain_square(p, g, e, 0xc35, 3, 0x1b884e);
    let e = lemma_chain_square(p, g, e, 0x1b884e, 0x12b85a, 0xf9fba);
    let e = lemma_chain_square(p, g, e, 0xf9fba, 0x60743, 0x11fb39);
    let e = lemma_chain_square(p, g, e, 0x11fb39, 0x7fc1b, 0x666ae);
    let e = lemma_chain_square(p, g, e, 0x666ae, 0x1030a, 0xe850a);
    let e = lemma_chain_multiply(p, g, e, 0xe850a, 1, 0x201af9);
    let e = lemma_chain_square(p, g, e, 0x201af9, 0x197480, 0x1595b1);
    let e = lemma_chain_multiply(p, g, e, 0x1595b1, 2, 0x1af003);
    let e = lemma_chain_square(p, g, e, 0x1af003, 0x11eb7e, 0xc2cfb);
    let e = lemma_chain_multiply(p, g, e, 0xc2cfb, 1, 0x1462ae);
    let e = lemma_chain_square(p, g, e, 0x1462ae, 0xa433e, 0x283176);
    let e = lemma_chain_multiply(p, g, e, 0x283176, 4, 0x26fe6a);
    let e = lemma_chain_square(p, g, e, 0x26fe6a, 0x258cd0, 0x23c994);
    let e = lemma_chain_multiply(p, g, e, 0x23c994, 4, 0x10f700);
    let e = lemma_chain_square(p, g, e, 0x10f700, 0x71b87, 0x176cf1);
    let e = lemma_chain_multiply(p, g, e, 0x176cf1, 2, 0x242443);
    let e = lemma_chain_square(p, g, e, 0x242443, 0x204201, 0x27b950);
    let e = lemma_chain_square(p, g, e, 0x27b950, 0x26f824, 0x15c0fc);
    let e = lemma_chain_square(p, g, e, 0x15c0fc, 0xbafca, 0x236816);
    let e = lemma_chain_square(p, g, e, 0x236816, 0x1ef583, 0x22bdb9);
    let e = lemma_chain_multiply(p, g, e, 0x22bdb9, 4, 0xbbbb9);
    let e = lemma_chain_square(p, g, e, 0xbbbb9, 0x3665c, 0xab935);
    let e = lemma_chain_multiply(p, g, e, 0xab935, 1, 0xd1fd0);
    let e = lemma_chain_square(p, g, e, 0xd1fd0, 0x440f4, 0x97aac);
    let e = lemma_chain_multiply(p, g, e, 0x97aac, 1, 0x6e723);
    let e = lemma_chain_square(p, g, e, 0x6e723, 0x12d3e, 0x1c97fb);
    let e = lemma_chain_square(p, g, e, 0x1c97fb, 0x1430e9, 0x287e38);
}

/// A power of the root 5 modulo 2653753.
proof fn lemma_power_2653753_2()
    ensures
        pow_mod(5, 0xd7f68, 0x287e39) == 0x1fb037,
{
    let p = 0x287e39;
    let g = 5;
    lemma_chain_start(p, g);
    let e: nat = 0;
    let e = lemma_chain_square(p, g, e, 1, 0, 1);
    let e = lemma_chain_multiply(p, g, e, 1, 0, 5);
    let e = lemma_chain_square(p, g, e, 5, 0, 0x19);
    let e = lemma_chain_multiply(p, g, e, 0x19, 0, 0x7d);
    let e = lemma_chain_square(p, g, e, 0x7d, 0, 0x3d09);
    let e = lemma_chain_square(p, g, e, 0x3d09, 0x5b, 0x286c0e);
    let e = lemma_chain_multiply(p, g, e, 0x286c0e, 4, 0x282362);
    let e = lemma_chain_square(p, g, e, 0x282362, 0x27c956, 0x1fc95e);
    let e = lemma_chain_square(p, g, e, 0x1fc95e, 0x18f3bd, 0x1b736f);
    let e = lemma_chain_multiply(p, g, e, 0x1b736f, 3, 0xfc680);
    let e = lemma_chain_square(p, g, e, 0xfc680, 0x62554, 0xc984c);
    let e = lemma_chain_multiply(p, g, e, 0xc984c, 1, 0x167b43);
    let e = lemma_chain_square(p, g, e, 0x167b43, 0xc7b49, 0x1248);
    let e = lemma_chain_multiply(p, g, e, 0x1248, 0, 0x5b68);
    let e = lemma_chain_square(p, g, e, 0x5b68, 0xce, 0xd8862);
    let e = lemma_chain_multiply(p, g, e, 0xd8862, 1, 0x1b2bb1);
    let e = lemma_chain_square(p, g, e, 0x1b2bb1, 0x123b3d, 0xbb9cc);
    let e = lemma_chain_multiply(p, g, e, 0xbb9cc, 1, 0x1222c3);
    let e = lemma_chain_square(p, g, e, 0x1222c3, 0x81f5f, 0xca262);
    let e = lemma_chain_multiply(p, g, e, 0xca262, 1, 0x16adb1);
    let e = lemma_chain_square(p, g, e, 0x16adb1, 0xcb386, 0x24c78b);
    let e = lemma_chain_multiply(p, g, e, 0x24c78b, 4, 0x15ecd3);
    let e = lemma_chain_square(p, g, e, 0x15ecd3, 0xbdf14, 0x233275);
    let e = lemma_chain_square(p, g, e, 0x233275, 0x1e9801, 0x279340);
    let e = lemma_chain_multiply(p, g, e, 0x279340, 4, 0x23e75c);
    let e = lemma_chain_square(p, g, e, 0x23e75c, 0x1fd5a6, 0x10e31a);
    let e = lemma_chain_multiply(p, g, e, 0x10e31a, 2, 0x37310);
    let e = lemma_chain_square(p, g, e, 0x37310, 0x4b39, 0x18934f);
    let e = lemma_chain_square(p, g, e, 0x18934f, 0xeea39, 0x119db0);
    let e = lemma_chain_multiply(p, g, e, 0x119db0, 2, 0x717fe);
    let e = lemma_chain_square(p, g, e, 0x717fe, 0x13e21, 0x208cab);
    let e = lemma_chain_square(p, g, e, 0x208cab, 0x1a2a09, 0x1fb038);
    let e = lemma_chain_square(p, g, e, 0x1fb038, 0x18cc51, 0x1fb037);
}

/// A power of the root 5 modulo 2653753.
proof fn lemma_power_2653753_3()
    ensures
        pow_mod(5, 0x18, 0x287e39) == 0x62171,
{
    let p = 0x287e39;
    let g = 5;
    lemma_chain_start(p, g);
    let e: nat = 0;
    let e = lemma_chain_square(p, g, e, 1, 0, 1);
    let e = lemma_chain_multiply(p, g, e, 1, 0, 5);
    let e = lemma_chain_square(p, g, e, 5, 0, 0x19);
    let e = lemma_chain_multiply(p, g, e, 0x19, 0, 0x7d);
    let e = lemma_chain_square(p, g, e, 0x7d, 0, 0x3d09);
    let e = lemma_chain_square(p, g, e, 0x3d09, 0x5b, 0x286c0e);
    let e = lemma_chain_square(p, g, e, 0x286c0e, 0x2859eb, 0x62171);
}

/// A power of a power of the root 5 modulo 2653753.
proof fn lemma_power_2653753_4()
    ensures
        pow_mod(0x287e38, 2, 0x287e39) == 1,
{
    let p = 0x287e39;
    let g = 0x287e38;
    lemma_chain_start(p, g);
    let e: nat = 0;
    let e = lemma_chain_square(p, g, e, 1, 0, 1);
    let e = lemma_chain_multiply(p, g, e, 1, 0, 0x287e38);
    let e = lemma_chain_square(p, g, e, 0x287e38, 0x287e37, 1);
}

/// 5 is a primitive root modulo 2653753.
pub proof fn lemma_root_2653753()
    ensures
        is_primitive_root(5, 0x287e39),
{
    let p = 0x287e39;
    let g = 5;
    lemma_power_2653753_1();
    lemma_power_2653753_2();
    lemma_power_2653753_3();
    lemma_power_2653753_4();
    lemma_chain_rebase(p, g, 0x143f1c, 0x287e38, 2, 1);
    lemma_two_is_prime();
    lemma_prime_3();
    lemma_prime_110573();
    assert forall|m: int| m >= 2 && #[trigger] (0x287e38int % m) == 0 implies exists|f: int| #[trigger]
        refutes(5, 0x287e38, 0x287e39, m, f) by {
        lemma_euclid(m, 2, 0x143f1c);
        if m % 2 == 0 {
            assert(refutes(5, 0x287e38, 0x287e39, m, 2));
        } else {
            lemma_euclid(m, 2, 0xa1f8e);
            lemma_euclid(m, 2, 0x50fc7);
            lemma_euclid(m, 3, 0x1afed);
            if m % 3 == 0 {
                assert(refutes(5, 0x287e38, 0x287e39, m, 3));
            } else {
                lemma_euclid(m, 0x1afed, 1);
                if m % 0x1afed == 0 {
                    assert(refutes(5, 0x287e38, 0x287e39, m, 0x1afed));
                } else {
                    lemma_small_mod(1, m as nat);
                }
            }
        }
    }
    lemma_lucas(0x287e39, 0x287e38, 5);
}

/// 2653753 is prime.
pub proof fn lemma_prime_2653753()
    ensures
        is_prime(0x287e39),
{
    lemma_root_2653753();
    lemma_root_gives_prime(5, 0x287e39);
}

/// A power of the root 7 modulo 63690073.
proof fn lemma_power_63690073_1()
    ensures
        pow_mod(7, 0x1e5eaac, 0x3cbd559) == 0x3cbd558,
{
    let p = 0x3cbd559;
    let g = 7;
    lemma_chain_start(p, g);
    let e: nat = 0;
    let e = lemma_chain_square(p, g, e, 1, 0, 1);
    let e = lemma_chain_multiply(p, g, e, 1, 0, 7);
    let e = lemma_chain_square(p, g, e, 7, 0, 0x31);
    let e = lemma_chain_multiply(p, g, e, 0x31, 0, 0x157);
    let e = lemma_chain_square(p, g, e, 0x157, 0, 0x1cb91);
    let e = lemma_chain_multiply(p, g, e, 0x1cb91, 0, 0xc90f7);
    let e = lemma_chain_square(p, g, e, 0xc90f7, 0x2998, 0x30ce079);
    let e = lemma_chain_multiply(p, g, e, 0x30ce079, 5, 0x25ef892);
    let e = lemma_chain_square(p, g, e, 0x25ef892, 0x17b176b, 0x3730811);
    let e = lemma_chain_square(p, g, e, 0x3730811, 0x322580d, 0x204a39c);
    let e = lemma_chain_square(p, g, e, 0x204a39c, 0x112a6e7, 0x2e8cdc1);
    let e = lemma_chain_multiply(p, g, e, 0x2e8cdc1, 5, 0x162758a);
    let e = lemma_chain_square(p, g, e, 0x162758a, 0x814861, 0x1898fab);
    let e = lemma_chain_square(p, g, e, 0x1898fab, 0x9f612d, 0x2b44294);
    let e = lemma_chain_multiply(p, g, e, 0x2b44294, 4, 0x3be7ca8);
    let e = lemma_chain_square(p, g, e, 0x3be7ca8, 0x3b152e3, 0x757e55);
    let e = lemma_chain_multiply(p, g, e, 0x757e55, 0, 0x3367453);
    let e = lemma_chain_square(p, g, e, 0x3367453, 0x2b80944, 0x3428645);
    let e = lemma_chain_multiply(p, g, e, 0x3428645, 6, 0xaabcd);
    let e = lemma_chain_square(p, g, e, 0xaabcd, 0x1dff, 0x1ae982);
    let e = lemma_chain_multiply(p, g, e, 0x1ae982, 0, 0xbc628e);
    let e = lemma_chain_square(p, g, e, 0xbc628e, 0x248479, 0xa34bb3);
    let e = lemma_chain_square(p, g, e, 0xa34bb3, 0x1b7036, 0x19b6e63);
    let e = lemma_chain_multiply(p, g, e, 0x19b6e63, 2, 0x3a85a03);
    let e = lemma_chain_square(p, g, e, 0x3a85a03, 0x3862a4f, 0x118ab92);
    let e = lemma_chain_square(p, g, e, 0x118ab92, 0x510f14, 0x3c67d50);
    let e = lemma_chain_multiply(p, g, e, 0x3c67d50, 6, 0x3a66d1a);
    let e = lemma_chain_square(p, g, e, 0x3a66d1a, 0x3827575, 0x15af7f7);
    let e = lemma_chain_square(p, g, e, 0x15af7f7, 0x7be05b, 0x1f4d9ae);
    let e = lemma_chain_multiply(p, g, e, 0x1f4d9ae, 3, 0x24e73b7);
    let e = lemma_chain_square(p, g, e, 0x24e73b7, 0x166bcee, 0x12e3813);
    let e = lemma_chain_square(p, g, e, 0x12e3813, 0x5dfbc9, 0x28e8b88);
    let e = lemma_chain_multiply(p, g, e, 0x28e8b88, 4, 0x2b67b54);
    let e = lemma_chain_square(p, g, e, 0x2b67b54, 0x1f04895, 0xc59ec3);
    let e = lemma_chain_square(p, g, e, 0xc59ec3, 0x282f84, 0x365efa5);
    let e = lemma_chain_multiply(p, g, e, 0x365efa5, 6, 0x1028d6d);
    let e = lemma_chain_square(p, g, e, 0x1028d6d, 0x44c96f, 0x24cddd2);
    let e = lemma_chain_multiply(p, g, e, 0x24cddd2, 4, 0xeabb5a);
    let e = lemma_chain_square(p, g, e, 0xeabb5a, 0x38b22b, 0x97e3b1);
    let e = lemma_chain_square(p, g, e, 0x97e3b1, 0x17bd31, 0x3cbd558);
}

/// A power of the root 7 modulo 63690073.
proof fn lemma_power_63690073_2()
    ensures
        pow_mod(7, 0x143f1c8, 0x3cbd559) == 0x2691f8,
{
    let p = 0x3cbd559;
    let g = 7;
    lemma_chain_start(p, g);
    let e: nat = 0;
    let e = lemma_chain_square(p, g, e, 1, 0, 1);
    let e = lemma_chain_multiply(p, g, e, 1, 0, 7);
    let e = lemma_chain_square(p, g, e, 7, 0, 0x31);
    let e = lemma_chain_square(p, g, e, 0x31, 0, 0x961);
    let e = lemma_chain_multiply(p, g, e, 0x961, 0, 0x41a7);
    let e = lemma_chain_square(p, g, e, 0x41a7, 4, 0x1a6e58d);
    let e = lemma_chain_square(p, g, e, 0x1a6e58d, 0xb80664, 0x1a22e5);
    let e = lemma_chain_square(p, g, e, 0x1a22e5, 0xb3f1, 0x2348d10);
    let e = lemma_chain_square(p, g, e, 0x2348d10, 0x147f48b, 0x85f5ad);
    let e = lemma_chain_square(p, g, e, 0x85f5ad, 0x12771d, 0x3010cd4);
    let e = lemma_chain_multiply(p, g, e, 0x3010cd4, 5, 0x20c2f0f);
    let e = lemma_chain_square(p, g, e, 0x20c2f0f, 0x11abb77, 0x16c5382);
    let e = lemma_chain_multiply(p, g, e, 0x16c5382, 2, 0x25e9ddc);
    let e = lemma_chain_square(p, g, e, 0x25e9ddc, 0x17aa625, 0xb00933);
    let e = lemma_chain_multiply(p, g, e, 0xb00933, 1, 0x1046b0c);
    let e = lemma_chain_square(p, g, e, 0x1046b0c, 0x45c87d, 0x2f1541b);
    let e = lemma_chain_multiply(p, g, e, 0x2f1541b, 5, 0x19e2200);
    let e = lemma_chain_square(p, g, e, 0x19e2200, 0xb07a0b, 0x1e56b2d);
    let e = lemma_chain_multiply(p, g, e, 0x1e56b2d, 3, 0x1e26e30);
    let e = lemma_chain_square(p, g, e, 0x1e26e30, 0xef7c0d, 0x165577b);
    let e = lemma_chain_multiply(p, g, e, 0x165577b, 2, 0x22db9ab);
    let e = lemma_chain_square(p, g, e, 0x22db9ab, 0x14012a5, 0x225d3dc);
    let e = lemma_chain_square(p, g, e, 0x225d3dc, 0x137127c, 0x211cbf4);
    let e = lemma_chain_square(p, g, e, 0x211cbf4, 0x120d1d1, 0x22e09e7);
    let e = lemma_chain_square(p, g, e, 0x22e09e7, 0x1406ec3, 0x2364da6);
    let e = lemma_chain_multiply(p, g, e, 0x2364da6, 4, 0x4cca26);
    let e = lemma_chain_square(p, g, e, 0x4cca26, 0x6114b, 0x379391);
    let e = lemma_chain_multiply(p, g, e, 0x379391, 0, 0x18508f7);
    let e = lemma_chain_square(p, g, e, 0x18508f7, 0x9bbc19, 0x27e2ca0);
    let e = lemma_chain_multiply(p, g, e, 0x27e2ca0, 4, 0x243e2fc);
    let e = lemma_chain_square(p, g, e, 0x243e2fc, 0x15a03bc, 0x1af2fb4);
    let e = lemma_chain_square(p, g, e, 0x1af2fb4, 0xbf4f6a, 0x257c8b6);
    let e = lemma_chain_square(p, g, e, 0x257c8b6, 0x1722acf, 0x39cc46d);
    let e = lemma_chain_multiply(p, g, e, 0x39cc46d, 6, 0x2825ee5);
    let e = lemma_chain_square(p, g, e, 0x2825ee5, 0x1a89981, 0x204600);
    let e = lemma_chain_square(p, g, e, 0x204600, 0x1125f, 0x2691f9);
    let e = lemma_chain_square(p, g, e, 0x2691f9, 0x187e1, 0x2691f8);
}

/// A power of the root 7 modulo 63690073.
proof fn lemma_power_63690073_3()
    ensures
        pow_mod(7, 0x18, 0x3cbd559) == 0x22bef85,
{
    let p = 0x3cbd559;
    let g = 7;
    lemma_chain_start(p, g);
    let e: nat = 0;
    let e = lemma_chain_square(p, g, e, 1, 0, 1);
    let e = lemma_chain_multiply(p, g, e, 1, 0, 7);
    let e = lemma_chain_square(p, g, e, 7, 0, 0x31);
    let e = lemma_chain_multiply(p, g, e, 0x31, 0, 0x157);
    let e = lemma_chain_square(p, g, e, 0x157, 0, 0x1cb91);
    let e = lemma_chain_square(p, g, e, 0x1cb91, 0xd9, 0x1396fb0);
    let e = lemma_chain_square(p, g, e, 0x1396fb0, 0x6516f3, 0x22bef85);
}

/// A power of a power of the root 7 modulo 63690073.
proof fn lemma_power_63690073_4()
    ensures
        pow_mod(0x3cbd558, 2, 0x3cbd559) == 1,
{
    let p = 0x3cbd559;
    let g = 0x3cbd558;
    lemma_chain_start(p, g);
    let e: nat = 0;
    let e = lemma_chain_square(p, g, e, 1, 0, 1);
    let e = lemma_chain_multiply(p, g, e, 1, 0, 0x3cbd558);
    let e = lemma_chain_square(p, g, e, 0x3cbd558, 0x3cbd557, 1);
}

/// 7 is a primitive root modulo 63690073.
pub proof fn lemma_root_63690073()
    ensures
        is_primitive_root(7, 0x3cbd559),
{
    let p = 0x3cbd559;
    let g = 7;
    lemma_power_63690073_1();
    lemma_power_63690073_2();
    lemma_power_63690073_3();
    lemma_power_63690073_4();
    lemma_chain_rebase(p, g, 0x1e5eaac, 0x3cbd558, 2, 1);
    lemma_two_is_prime();
    lemma_prime_3();
    lemma_prime_2653753();
    assert forall|m: int| m >= 2 && #[trigger] (0x3cbd558int % m) == 0 implies exists|f: int| #[trigger]
        refutes(7, 0x3cbd558, 0x3cbd559, m, f) by {
        lemma_euclid(m, 2, 0x1e5eaac);
        if m % 2 == 0 {
            assert(refutes(7, 0x3cbd558, 0x3cbd559, m, 2));
        } else {
            lemma_euclid(m, 2, 0xf2f556);
            lemma_euclid(m, 2, 0x797aab);
            lemma_euclid(m, 3, 0x287e39);
            if m % 3 == 0 {
                assert(refutes(7, 0x3cbd558, 0x3cbd559, m, 3));
            } else {
                lemma_euclid(m, 0x287e39, 1);
                if m % 0x287e39 == 0 {
                    assert(refutes(7, 0x3cbd558, 0x3cbd559, m, 0x287e39));
                } else {
                    lemma_small_mod(1, m as nat);
                }
            }
        }
    }
    lemma_lucas(0x3cbd559, 0x3cbd558, 7);
}

/// 63690073 is prime.
pub proof fn lemma_prime_63690073()
    ensures
        is_prime(0x3cbd559),
{
    lemma_root_63690073();
    lemma_root_gives_prime(7, 0x3cbd559);
}

/// A power of the root 2 modulo 254760293.
proof fn lemma_power_254760293_1()
    ensures
        pow_mod(2, 0x797aab2, 0xf2f5565) == 0xf2f5564,
{
    let p = 0xf2f5565;
    let g = 2;
    lemma_chain_start(p, g);
    let e: nat = 0;
    let e = lemma_chain_square(p, g, e, 1, 0, 1);
    let e = lemma_chain_multiply(p, g, e, 1, 0, 2);
    let e = lemma_chain_square(p, g, e, 2, 0, 4);
    let e = lemma_chain_multiply(p, g, e, 4, 0, 8);
    let e = lemma_chain_square(p, g, e, 8, 0, 0x40);
    let e = lemma_chain_multiply(p, g, e, 0x40, 0, 0x80);
    let e = lemma_chain_square(p, g, e, 0x80, 0, 0x4000);
    let e = lemma_chain_multiply(p, g, e, 0x4000, 0, 0x8000);
    let e = lemma_chain_square(p, g, e, 0x8000, 4, 0x342aa6c);
    let e = lemma_chain_square(p, g, e, 0x342aa6c, 0xb336ee, 0x97febaa);
    let e = lemma_chain_square(p, g, e, 0x97febaa, 0x5f16995, 0x1f56c1b);
    let e = lemma_chain_multiply(p, g, e, 0x1f56c1b, 0, 0x3ead836);
    let e = lemma_chain_square(p, g, e, 0x3ead836, 0x102b619, 0xb340687);
    let e = lemma_chain_square(p, g, e, 0xb340687, 0x843fe2e, 0xe580d0b);
    let e = lemma_chain_multiply(p, g, e, 0xe580d0b, 1, 0xd80c4b1);
    let e = lemma_chain_square(p, g, e, 0xd80c4b1, 0xc01e498, 0x491da69);
    let e = lemma_chain_multiply(p, g, e, 0x491da69, 0, 0x923b4d2);
    let e = lemma_chain_square(p, g, e, 0x923b4d2, 0x58038a3, 0x3d284f5);
    let e = lemma_chain_multiply(p, g, e, 0x3d284f5, 0, 0x7a509ea);
    let e = lemma_chain_square(p, g, e, 0x7a509ea, 0x3d94057, 0x3fa0491);
    let e = lemma_chain_multiply(p, g, e, 0x3fa0491, 0, 0x7f40922);
    let e = lemma_chain_square(p, g, e, 0x7f40922, 0x42a65a8, 0xad0853c);
    let e = lemma_chain_square(p, g, e, 0xad0853c, 0x7b3b67b, 0xbc49089);
    let e = lemma_chain_multiply(p, g, e, 0xbc49089, 1, 0x859cbad);
    let e = lemma_chain_square(p, g, e, 0x859cbad, 0x497a822, 0x96f337f);
    let e = lemma_chain_square(p, g, e, 0x96f337f, 0x5dc90a2, 0x8b4ff17);
    let e = lemma_chain_multiply(p, g, e, 0x8b4ff17, 1, 0x23aa8c9);
    let e = lemma_chain_square(p, g, e, 0x23aa8c9, 0x53c5c9, 0x5bca884);
    let e = lemma_chain_square(p, g, e, 0x5bca884, 0x22ade36, 0xc31eac2);
    let e = lemma_chain_multiply(p, g, e, 0xc31eac2, 1, 0x934801f);
    let e = lemma_chain_square(p, g, e, 0x934801f, 0x5948288, 0x8d05c19);
    let e = lemma_chain_square(p, g, e, 0x8d05c19, 0x51dadd6, 0x60a5703);
    let e = lemma_chain_multiply(p, g, e, 0x60a5703, 0, 0xc14ae06);
    let e = lemma_chain_square(p, g, e, 0xc14ae06, 0x99c785b, 0xad5753d);
    let e = lemma_chain_square(p, g, e, 0xad5753d, 0x7bac082, 0xcbbb33f);
    let e = lemma_chain_multiply(p, g, e, 0xcbbb33f, 1, 0xa481119);
    let e = lemma_chain_square(p, g, e, 0xa481119, 0x6f62408, 0x4a97549);
    let e = lemma_chain_multiply(p, g, e, 0x4a97549, 0, 0x952ea92);
    let e = lemma_chain_square(p, g, e, 0x952ea92, 0x5b99fbe, 0x64f1f4e);
    let e = lemma_chain_square(p, g, e, 0x64f1f4e, 0x29f0e6e, 0xd3ac45e);
    let e = lemma_chain_square(p, g, e, 0xd3ac45e, 0xb86a865, 0x5a319ab);
    let e = lemma_chain_multiply(p, g, e, 0x5a319ab, 0, 0xb463356);
    let e = lemma_chain_square(p, g, e, 0xb463356, 0x85ee580, 0xf2f5564);
}

/// A power of the root 2 modulo 254760293.
proof fn lemma_power_254760293_2()
    ensures
        pow_mod(2, 4, 0xf2f5565) == 0x10,
{
    let p = 0xf2f5565;
    let g = 2;
    lemma_chain_start(p, g);
    let e: nat = 0;
    let e = lemma_chain_square(p, g, e, 1, 0, 1);
    let e = lemma_chain_multiply(p, g, e, 1, 0, 2);
    let e = lemma_chain_square(p, g, e, 2, 0, 4);
    let e = lemma_chain_square(p, g, e, 4, 0, 0x10);
}

/// A power of a power of the root 2 modulo 254760293.
proof fn lemma_power_254760293_3()
    ensures
        pow_mod(0xf2f5564, 2, 0xf2f5565) == 1,
{
    let p = 0xf2f5565;
    let g = 0xf2f5564;
    lemma_chain_start(p, g);
    let e: nat = 0;
    let e = lemma_chain_square(p, g, e, 1, 0, 1);
    let e = lemma_chain_multiply(p, g, e, 1, 0, 0xf2f5564);
    let e = lemma_chain_square(p, g, e, 0xf2f5564, 0xf2f5563, 1);
}

/// 2 is a primitive root modulo 254760293.
pub proof fn lemma_root_254760293()
    ensures
        is_primitive_root(2, 0xf2f5565),
{
    let p = 0xf2f5565;
    let g = 2;
    lemma_power_254760293_1();
    lemma_power_254760293_2();
    lemma_power_254760293_3();
    lemma_chain_rebase(p, g, 0x797aab2, 0xf2f5564, 2, 1);
    lemma_two_is_prime();
    lemma_prime_63690073();
    assert forall|m: int| m >= 2 && #[trigger] (0xf2f5564int % m) == 0 implies exists|f: int| #[trigger]
        refutes(2, 0xf2f5564, 0xf2f5565, m, f) by {
        lemma_euclid(m, 2, 0x797aab2);
        if m % 2 == 0 {
            assert(refutes(2, 0xf2f5564, 0xf2f5565, m, 2));
        } else {
            lemma_euclid(m, 2, 0x3cbd559);
            lemma_euclid(m, 0x3cbd559, 1);
            if m % 0x3cbd559 == 0 {
                assert(refutes(2, 0xf2f5564, 0xf2f5565, m, 0x3cbd559));
            } else {
                lemma_small_mod(1, m as nat);
            }
        }
    }
    lemma_lucas(0xf2f5565, 0xf2f5564, 2);
}

/// 254760293 is prime.
pub proof fn lemma_prime_254760293()
    ensures
        is_prime(0xf2f5565),
{
    lemma_root_254760293();
    lemma_root_gives_prime(2, 0xf2f5565);
}

/// A power of the root 5 modulo 307.
proof fn lemma_power_307_1()
    ensures
        pow_mod(5, 0x99, 0x133) == 0x132,
{
    let p = 0x133;
    let g = 5;
    lemma_chain_start(p, g);
    let e: nat = 0;
    let e = lemma_chain_square(p, g, e, 1, 0, 1);
    let e = lemma_chain_multiply(p, g, e, 1, 0, 5);
    let e = lemma_chain_square(p, g, e, 5, 0, 0x19);
    let e = lemma_chain_square(p, g, e, 0x19, 2, 0xb);
    let e = lemma_chain_square(p, g, e, 0xb, 0, 0x79);
    let e = lemma_chain_multiply(p, g, e, 0x79, 1, 0x12a);
    let e = lemma_chain_square(p, g, e, 0x12a, 0x121, 0x51);
    let e = lemma_chain_multiply(p, g, e, 0x51, 1, 0x62);
    let e = lemma_chain_square(p, g, e, 0x62, 0x1f, 0x57);
    let e = lemma_chain_square(p, g, e, 0x57, 0x18, 0xc9);
    let e = lemma_chain_square(p, g, e, 0xc9, 0x83, 0xb8);
    let e = lemma_chain_multiply(p, g, e, 0xb8, 2, 0x132);
}

/// A power of the root 5 modulo 307.
proof fn lemma_power_307_2()
    ensures
        pow_mod(5, 0x66, 0x133) == 0x121,
{
    let p = 0x133;
    let g = 5;
    lemma_chain_start(p, g);
    let e: nat = 0;
    let e = lemma_chain_square(p, g, e, 1, 0, 1);
    let e = lemma_chain_multiply(p, g, e, 1, 0, 5);
    let e = lemma_chain_square(p, g, e, 5, 0, 0x19);
    let e = lemma_chain_multiply(p, g, e, 0x19, 0, 0x7d);
    let e = lemma_chain_square(p, g, e, 0x7d, 0x32, 0x113);
    let e = lemma_chain_square(p, g, e, 0x113, 0xf6, 0x67);
    let e = lemma_chain_square(p, g, e, 0x67, 0x22, 0xab);
    let e = lemma_chain_multiply(p, g, e, 0xab, 2, 0xf1);
    let e = lemma_chain_square(p, g, e, 0xf1, 0xbd, 0x3a);
    let e = lemma_chain_multiply(p, g, e, 0x3a, 0, 0x122);
    let e = lemma_chain_square(p, g, e, 0x122, 0x111, 0x121);
}

/// A power of the root 5 modulo 307.
proof fn lemma_power_307_3()
    ensures
        pow_mod(5, 0x12, 0x133) == 0x51,
{
    let p = 0x133;
    let g = 5;
    lemma_chain_start(p, g);
    let e: nat = 0;
    let e = lemma_chain_square(p, g, e, 1, 0, 1);
    let e = lemma_chain_multiply(p, g, e, 1, 0, 5);
    let e = lemma_chain_square(p, g, e, 5, 0, 0x19);
    let e = lemma_chain_square(p, g, e, 0x19, 2, 0xb);
    let e = lemma_chain_square(p, g, e, 0xb, 0, 0x79);
    let e = lemma_chain_multiply(p, g, e, 0x79, 1, 0x12a);
    let e = lemma_chain_square(p, g, e, 0x12a, 0x121, 0x51);
}

/// A power of a power of the root 5 modulo 307.
proof fn lemma_power_307_4()
    ensures
        pow_mod(0x132, 2, 0x133) == 1,
{
    let p = 0x133;
    let g = 0x132;
    lemma_chain_start(p, g);
    let e: nat = 0;
    let e = lemma_chain_square(p, g, e, 1, 0, 1);
    let e = lemma_chain_multiply(p, g, e, 1, 0, 0x132);
    let e = lemma_chain_square(p, g, e, 0x132, 0x131, 1);
}

/// 5 is a primitive root modulo 307.
pub proof fn lemma_root_307()
    ensures
        is_primitive_root(5, 0x133),
{
    let p = 0x133;
    let g = 5;
    lemma_power_307_1();
    lemma_power_307_2();
    lemma_power_307_3();
    lemma_power_307_4();
    lemma_chain_rebase(p, g, 0x99, 0x132, 2, 1);
    lemma_two_is_prime();
    lemma_prime_3();
    lemma_prime_17();
    assert forall|m: int| m >= 2 && #[trigger] (0x132int % m) == 0 implies exists|f: int| #[trigger]
        refutes(5, 0x132, 0x133, m, f) by {
        lemma_euclid(m, 2, 0x99);
        if m % 2 == 0 {
            assert(refutes(5, 0x132, 0x133, m, 2));
        } else {
            lemma_euclid(m, 3, 0x33);
            if m % 3 == 0 {
                assert(refutes(5, 0x132, 0x133, m, 3));
            } else {
                lemma_euclid(m, 3, 0x11);
                lemma_euclid(m, 0x11, 1);
                if m % 0x11 == 0 {
                    assert(refutes(5, 0x132, 0x133, m, 0x11));
                } else {
                    lemma_small_mod(1, m as nat);
                }
            }
        }
    }
    lemma_lucas(0x133, 0x132, 5);
}

/// 307 is prime.
pub proof fn lemma_prime_307()
    ensures
        is_prime(0x133),
{
    lemma_root_307();
    lemma_root_gives_prime(5, 0x133);
}

/// A power of the root 3 modulo 12281.
proof fn lemma_power_12281_1()
    ensures
        pow_mod(3, 0x17fc, 0x2ff9) == 0x2ff8,
{
    let p = 0x2ff9;
    let g = 3;
    lemma_chain_start(p, g);
    let e: nat = 0;
    let e = lemma_chain_square(p, g, e, 1, 0, 1);
    let e = lemma_chain_multiply(p, g, e, 1, 0, 3);
    let e = lemma_chain_square(p, g, e, 3, 0, 9);
    let e = lemma_chain_square(p, g, e, 9, 0, 0x51);
    let e = lemma_chain_multiply(p, g, e, 0x51, 0, 0xf3);
    let e = lemma_chain_square(p, g, e, 0xf3, 4, 0x26c5);
    let e = lemma_chain_multiply(p, g, e, 0x26c5, 2, 0x145d);
    let e = lemma_chain_square(p, g, e, 0x145d, 0x8a4, 0x2645);
    let e = lemma_chain_multiply(p, g, e, 0x2645, 2, 0x12dd);
    let e = lemma_chain_square(p, g, e, 0x12dd, 0x76a, 0x26af);
    let e = lemma_chain_multiply(p, g, e, 0x26af, 2, 0x141b);
    let e = lemma_chain_square(p, g, e, 0x141b, 0x86d, 0x5d4);
    let e = lemma_chain_multiply(p, g, e, 0x5d4, 0, 0x117c);
    let e = lemma_chain_square(p, g, e, 0x117c, 0x65f, 0x10a9);
    let e = lemma_chain_multiply(p, g, e, 0x10a9, 1, 0x202);
    let e = lemma_chain_square(p, g, e, 0x202, 0x15, 0x1897);
    let e = lemma_chain_multiply(p, g, e, 0x1897, 1, 0x19cc);
    let e = lemma_chain_square(p, g, e, 0x19cc, 0xddf, 0xba9);
    let e = lemma_chain_multiply(p, g, e, 0xba9, 0, 0x22fb);
    let e = lemma_chain_square(p, g, e, 0x22fb, 0x1981, 0x24a0);
    let e = lemma_chain_multiply(p, g, e, 0x24a0, 2, 0xdee);
    let e = lemma_chain_square(p, g, e, 0xdee, 0x40b, 0x1591);
    let e = lemma_chain_square(p, g, e, 0x1591, 0x9b1, 0x2ff8);
}

/// A power of the root 3 modulo 12281.
proof fn lemma_power_12281_2()
    ensures
        pow_mod(3, 0x998, 0x2ff9) == 0x2534,
{
    let p = 0x2ff9;
    let g = 3;
    lemma_chain_start(p, g);
    let e: nat = 0;
    let e = lemma_chain_square(p, g, e, 1, 0, 1);
    let e = lemma_chain_multiply(p, g, e, 1, 0, 3);
    let e = lemma_chain_square(p, g, e, 3, 0, 9);
    let e = lemma_chain_square(p, g, e, 9, 0, 0x51);
    let e = lemma_chain_square(p, g, e, 0x51, 0, 0x19a1);
    let e = lemma_chain_multiply(p, g, e, 0x19a1, 1, 0x1cea);
    let e = lemma_chain_square(p, g, e, 0x1cea, 0x116d, 0xfdf);
    let e = lemma_chain_multiply(p, g, e, 0xfdf, 0, 0x2f9d);
    let e = lemma_chain_square(p, g, e, 0x2f9d, 0x2f41, 0x2110);
    let e = lemma_chain_square(p, g, e, 0x2110, 0x16c9, 0x107f);
    let e = lemma_chain_square(p, g, e, 0x107f, 0x5ac, 0x6b5);
    let e = lemma_chain_multiply(p, g, e, 0x6b5, 0, 0x141f);
    let e = lemma_chain_square(p, g, e, 0x141f, 0x870, 0x16d1);
    let e = lemma_chain_multiply(p, g, e, 0x16d1, 1, 0x147a);
    let e = lemma_chain_square(p, g, e, 0x147a, 0x8bd, 0x174f);
    let e = lemma_chain_square(p, g, e, 0x174f, 0xb53, 0x9a6);
    let e = lemma_chain_square(p, g, e, 0x9a6, 0x1f0, 0x2534);
}

/// A power of the root 3 modulo 12281.
proof fn lemma_power_12281_3()
    ensures
        pow_mod(3, 0x28, 0x2ff9) == 0x9ba,
{
    let p = 0x2ff9;
    let g = 3;
    lemma_chain_start(p, g);
    let e: nat = 0;
    let e = lemma_chain_square(p, g, e, 1, 0, 1);
    let e = lemma_chain_multiply(p, g, e, 1, 0, 3);
    let e = lemma_chain_square(p, g, e, 3, 0, 9);
    let e = lemma_chain_square(p, g, e, 9, 0, 0x51);
    let e = lemma_chain_multiply(p, g, e, 0x51, 0, 0xf3);
    let e = lemma_chain_square(p, g, e, 0xf3, 4, 0x26c5);
    let e = lemma_chain_square(p, g, e, 0x26c5, 0x1f54, 0x2ee5);
    let e = lemma_chain_square(p, g, e, 0x2ee5, 0x2dd7, 0x9ba);
}

/// A power of a power of the root 3 modulo 12281.
proof fn lemma_power_12281_4()
    ensures
        pow_mod(0x2ff8, 2, 0x2ff9) == 1,
{
    let p = 0x2ff9;
    let g = 0x2ff8;
    lemma_chain_start(p, g);
    let e: nat = 0;
    let e = lemma_chain_square(p, g, e, 1, 0, 1);
    let e = lemma_chain_multiply(p, g, e, 1, 0, 0x2ff8);
    let e = lemma_chain_square(p, g, e, 0x2ff8, 0x2ff7, 1);
}

/// 3 is a primitive root modulo 12281.
pub proof fn lemma_root_12281()
    ensures
        is_primitive_root(3, 0x2ff9),
{
    let p = 0x2ff9;
    let g = 3;
    lemma_power_12281_1();
    lemma_power_12281_2();
    lemma_power_12281_3();
    lemma_power_12281_4();
    lemma_chain_rebase(p, g, 0x17fc, 0x2ff8, 2, 1);
    lemma_two_is_prime();
    lemma_prime_5();
    lemma_prime_307();
    assert forall|m: int| m >= 2 && #[trigger] (0x2ff8int % m) == 0 implies exists|f: int| #[trigger]
        refutes(3, 0x2ff8, 0x2ff9, m, f) by {
        lemma_euclid(m, 2, 0x17fc);
        if m % 2 == 0 {
            assert(refutes(3, 0x2ff8, 0x2ff9, m, 2));
        } else {
            lemma_euclid(m, 2, 0xbfe);
            lemma_euclid(m, 2, 0x5ff);
            lemma_euclid(m, 5, 0x133);
            if m % 5 == 0 {
                assert(refutes(3, 0x2ff8, 0x2ff9, m, 5));
            } else {
                lemma_euclid(m, 0x133, 1);
                if m % 0x133 == 0 {
                    assert(refutes(3, 0x2ff8, 0x2ff9, m, 0x133));
                } else {
                    lemma_small_mod(1, m as nat);
                }
            }
        }
    }
    lemma_lucas(0x2ff9, 0x2ff8, 3);
}

/// 12281 is prime.
pub proof fn lemma_prime_12281()
    ensures
        is_prime(0x2ff9),
{
    lemma_root_12281();
    lemma_root_gives_prime(3, 0x2ff9);
}

/// A power of the root 3 modulo 283.
proof fn lemma_power_283_1()
    ensures
        pow_mod(3, 0x8d, 0x11b) == 0x11a,
{
    let p = 0x11b;
    let g = 3;
    lemma_chain_start(p, g);
    let e: nat = 0;
    let e = lemma_chain_square(p, g, e, 1, 0, 1);
    let e = lemma_chain_multiply(p, g, e, 1, 0, 3);
    let e = lemma_chain_square(p, g, e, 3, 0, 9);
    let e = lemma_chain_square(p, g, e, 9, 0, 0x51);
    let e = lemma_chain_square(p, g, e, 0x51, 0x17, 0x34);
    let e = lemma_chain_square(p, g, e, 0x34, 9, 0x9d);
    let e = lemma_chain_multiply(p, g, e, 0x9d, 1, 0xbc);
    let e = lemma_chain_square(p, g, e, 0xbc, 0x7c, 0xfc);
    let e = lemma_chain_multiply(p, g, e, 0xfc, 2, 0xbe);
    let e = lemma_chain_square(p, g, e, 0xbe, 0x7f, 0x9f);
    let e = lemma_chain_square(p, g, e, 0x9f, 0x59, 0x5e);
    let e = lemma_chain_multiply(p, g, e, 0x5e, 0, 0x11a);
}

/// A power of the root 3 modulo 283.
proof fn lemma_power_283_2()
    ensures
        pow_mod(3, 0x5e, 0x11b) == 0xee,
{
    let p = 0x11b;
    let g = 3;
    lemma_chain_start(p, g);
    let e: nat = 0;
    let e = lemma_chain_square(p, g, e, 1, 0, 1);
    let e = lemma_chain_multiply(p, g, e, 1, 0, 3);
    let e = lemma_chain_square(p, g, e, 3, 0, 9);
    let e = lemma_chain_square(p, g, e, 9, 0, 0x51);
    let e = lemma_chain_multiply(p, g, e, 0x51, 0, 0xf3);
    let e = lemma_chain_square(p, g, e, 0xf3, 0xd0, 0xb9);
    let e = lemma_chain_multiply(p, g, e, 0xb9, 1, 0x110);
    let e = lemma_chain_square(p, g, e, 0x110, 0x105, 0x79);
    let e = lemma_chain_multiply(p, g, e, 0x79, 1, 0x50);
    let e = lemma_chain_square(p, g, e, 0x50, 0x16, 0xae);
    let e = lemma_chain_multiply(p, g, e, 0xae, 1, 0xef);
    let e = lemma_chain_square(p, g, e, 0xef, 0xc9, 0xee);
}

/// A power of the root 3 modulo 283.
proof fn lemma_power_283_3()
    ensures
        pow_mod(3, 6, 0x11b) == 0xa3,
{
    let p = 0x11b;
    let g = 3;
    lemma_chain_start(p, g);
    let e: nat = 0;
    let e = lemma_chain_square(p, g, e, 1, 0, 1);
    let e = lemma_chain_multiply(p, g, e, 1, 0, 3);
    let e = lemma_chain_square(p, g, e, 3, 0, 9);
    let e = lemma_chain_multiply(p, g, e, 9, 0, 0x1b);
    let e = lemma_chain_square(p, g, e, 0x1b, 2, 0xa3);
}

/// A power of a power of the root 3 modulo 283.
proof fn lemma_power_283_4()
    ensures
        pow_mod(0x11a, 2, 0x11b) == 1,
{
    let p = 0x11b;
    let g = 0x11a;
    lemma_chain_start(p, g);
    let e: nat = 0;
    let e = lemma_chain_square(p, g, e, 1, 0, 1);
    let e = lemma_chain_multiply(p, g, e, 1, 0, 0x11a);
    let e = lemma_chain_square(p, g, e, 0x11a, 0x119, 1);
}

/// 3 is a primitive root modulo 283.
pub proof fn lemma_root_283()
    ensures
        is_primitive_root(3, 0x11b),
{
    let p = 0x11b;
    let g = 3;
    lemma_power_283_1();
    lemma_power_283_2();
    lemma_power_283_3();
    lemma_power_283_4();
    lemma_chain_rebase(p, g, 0x8d, 0x11a, 2, 1);
    lemma_two_is_prime();
    lemma_prime_3();
    lemma_prime_47();
    assert forall|m: int| m >= 2 && #[trigger] (0x11aint % m) == 0 implies exists|f: int| #[trigger]
        refutes(3, 0x11a, 0x11b, m, f) by {
        lemma_euclid(m, 2, 0x8d);
        if m % 2 == 0 {
            assert(refutes(3, 0x11a, 0x11b, m, 2));
        } else {
            lemma_euclid(m, 3, 0x2f);
            if m % 3 == 0 {
                assert(refutes(3, 0x11a, 0x11b, m, 3));
            } else {
                lemma_euclid(m, 0x2f, 1);
                if m % 0x2f == 0 {
                    assert(refutes(3, 0x11a, 0x11b, m, 0x2f));
                } else {
                    lemma_small_mod(1, m as nat);
                }
            }
        }
    }
    lemma_lucas(0x11b, 0x11a, 3);
}

/// 283 is prime.
pub proof fn lemma_prime_283()
    ensures
        is_prime(0x11b),
{
    lemma_root_283();
    lemma_root_gives_prime(3, 0x11b);
}

/// A power of the root 3 modulo 1699.
proof fn lemma_power_1699_1()
    ensures
        pow_mod(3, 0x351, 0x6a3) == 0x6a2,
{
    let p = 0x6a3;
    let g = 3;
    lemma_chain_start(p, g);
    let e: nat = 0;
    let e = lemma_chain_square(p, g, e, 1, 0, 1);
    let e = lemma_chain_multiply(p, g, e, 1, 0, 3);
    let e = lemma_chain_square(p, g, e, 3, 0, 9);
    let e = lemma_chain_multiply(p, g, e, 9, 0, 0x1b);
    let e = lemma_chain_square(p, g, e, 0x1b, 0, 0x2d9);
    let e = lemma_chain_square(p, g, e, 0x2d9, 0x138, 0x549);
    let e = lemma_chain_multiply(p, g, e, 0x549, 2, 0x295);
    let e = lemma_chain_square(p, g, e, 0x295, 0x101, 0x116);
    let e = lemma_chain_square(p, g, e, 0x116, 0x2d, 0x33d);
    let e = lemma_chain_multiply(p, g, e, 0x33d, 1, 0x314);
    let e = lemma_chain_square(p, g, e, 0x314, 0x16d, 0x329);
    let e = lemma_chain_square(p, g, e, 0x329, 0x181, 0x16e);
    let e = lemma_chain_square(p, g, e, 0x16e, 0x4e, 0x59a);
    let e = lemma_chain_square(p, g, e, 0x59a, 0x4ba, 0x236);
    let e = lemma_chain_multiply(p, g, e, 0x236, 0, 0x6a2);
}

/// A power of the root 3 modulo 1699.
proof fn lemma_power_1699_2()
    ensures
        pow_mod(3, 0x236, 0x6a3) == 0x18d,
{
    let p = 0x6a3;
    let g = 3;
    lemma_chain_start(p, g);
    let e: nat = 0;
    let e = lemma_chain_square(p, g, e, 1, 0, 1);
    let e = lemma_chain_multiply(p, g, e, 1, 0, 3);
    let e = lemma_chain_square(p, g, e, 3, 0, 9);
    let e = lemma_chain_square(p, g, e, 9, 0, 0x51);
    let e = lemma_chain_square(p, g, e, 0x51, 3, 0x5b8);
    let e = lemma_chain_square(p, g, e, 0x5b8, 0x4ed, 0x359);
    let e = lemma_chain_multiply(p, g, e, 0x359, 1, 0x368);
    let e = lemma_chain_square(p, g, e, 0x368, 0x1bf, 0x3a3);
    let e = lemma_chain_multiply(p, g, e, 0x3a3, 1, 0x446);
    let e = lemma_chain_square(p, g, e, 0x446, 0x2c0, 0x2e4);
    let e = lemma_chain_square(p, g, e, 0x2e4, 0x142, 0x20a);
    let e = lemma_chain_multiply(p, g, e, 0x20a, 0, 0x61e);
    let e = lemma_chain_square(p, g, e, 0x61e, 0x5a3, 0x2bb);
    let e = lemma_chain_multiply(p, g, e, 0x2bb, 1, 0x18e);
    let e = lemma_chain_square(p, g, e, 0x18e, 0x5d, 0x18d);
}

/// A power of the root 3 modulo 1699.
proof fn lemma_power_1699_3()
    ensures
        pow_mod(3, 6, 0x6a3) == 0x2d9,
{
    let p = 0x6a3;
    let g = 3;
    lemma_chain_start(p, g);
    let e: nat = 0;
    let e = lemma_chain_square(p, g, e, 1, 0, 1);
    let e = lemma_chain_multiply(p, g, e, 1, 0, 3);
    let e = lemma_chain_square(p, g, e, 3, 0, 9);
    let e = lemma_chain_multiply(p, g, e, 9, 0, 0x1b);
    let e = lemma_chain_square(p, g, e, 0x1b, 0, 0x2d9);
}

/// A power of a power of the root 3 modulo 1699.
proof fn lemma_power_1699_4()
    ensures
        pow_mod(0x6a2, 2, 0x6a3) == 1,
{
    let p = 0x6a3;
    let g = 0x6a2;
    lemma_chain_start(p, g);
    let e: nat = 0;
    let e = lemma_chain_square(p, g, e, 1, 0, 1);
    let e = lemma_chain_multiply(p, g, e, 1, 0, 0x6a2);
    let e = lemma_chain_square(p, g, e, 0x6a2, 0x6a1, 1);
}

/// 3 is a primitive root modulo 1699.
pub proof fn lemma_root_1699()
    ensures
        is_primitive_root(3, 0x6a3),
{
    let p = 0x6a3;
    let g = 3;
    lemma_power_1699_1();
    lemma_power_1699_2();
    lemma_power_1699_3();
    lemma_power_1699_4();
    lemma_chain_rebase(p, g, 0x351, 0x6a2, 2, 1);
    lemma_two_is_prime();
    lemma_prime_3();
    lemma_prime_283();
    assert forall|m: int| m >= 2 && #[trigger] (0x6a2int % m) == 0 implies exists|f: int| #[trigger]
        refutes(3, 0x6a2, 0x6a3, m, f) by {
        lemma_euclid(m, 2, 0x351);
        if m % 2 == 0 {
            assert(refutes(3, 0x6a2, 0x6a3, m, 2));
        } else {
            lemma_euclid(m, 3, 0x11b);
            if m % 3 == 0 {
                assert(refutes(3, 0x6a2, 0x6a3, m, 3));
            } else {
                lemma_euclid(m, 0x11b, 1);
                if m % 0x11b == 0 {
                    assert(refutes(3, 0x6a2, 0x6a3, m, 0x11b));
                } else {
                    lemma_small_mod(1, m as nat);
                }
            }
        }
    }
    lemma_lucas(0x6a3, 0x6a2, 3);
}

/// 1699 is prime.
pub proof fn lemma_prime_1699()
    ensures
        is_prime(0x6a3),
{
    lemma_root_1699();
    lemma_root_gives_prime(3, 0x6a3);
}

/// A power of the root 6 modulo 41.
proof fn lemma_power_41_1()
    ensures
        pow_mod(6, 0x14, 0x29) == 0x28,
{
    let p = 0x29;
    let g = 6;
    lemma_chain_start(p, g);
    let e: nat = 0;
    let e = lemma_chain_square(p, g, e, 1, 0, 1);
    let e = lemma_chain_multiply(p, g, e, 1, 0, 6);
    let e = lemma_chain_square(p, g, e, 6, 0, 0x24);
    let e = lemma_chain_square(p, g, e, 0x24, 0x1f, 0x19);
    let e = lemma_chain_multiply(p, g, e, 0x19, 3, 0x1b);
    let e = lemma_chain_square(p, g, e, 0x1b, 0x11, 0x20);
    let e = lemma_chain_square(p, g, e, 0x20, 0x18, 0x28);
}

/// A power of the root 6 modulo 41.
proof fn lemma_power_41_2()
    ensures
        pow_mod(6, 8, 0x29) == 0xa,
{
    let p = 0x29;
    let g = 6;
    lemma_chain_start(p, g);
    let e: nat = 0;
    let e = lemma_chain_square(p, g, e, 1, 0, 1);
    let e = lemma_chain_multiply(p, g, e, 1, 0, 6);
    let e = lemma_chain_square(p, g, e, 6, 0, 0x24);
    let e = lemma_chain_square(p, g, e, 0x24, 0x1f, 0x19);
    let e = lemma_chain_square(p, g, e, 0x19, 0xf, 0xa);
}

/// A power of a power of the root 6 modulo 41.
proof fn lemma_power_41_3()
    ensures
        pow_mod(0x28, 2, 0x29) == 1,
{
    let p = 0x29;
    let g = 0x28;
    lemma_chain_start(p, g);
    let e: nat = 0;
    let e = lemma_chain_square(p, g, e, 1, 0, 1);
    let e = lemma_chain_multiply(p, g, e, 1, 0, 0x28);
    let e = lemma_chain_square(p, g, e, 0x28, 0x27, 1);
}

/// 6 is a primitive root modulo 41.
pub proof fn lemma_root_41()
    ensures
        is_primitive_root(6, 0x29),
{
    let p = 0x29;
    let g = 6;
    lemma_power_41_1();
    lemma_power_41_2();
    lemma_power_41_3();
    lemma_chain_rebase(p, g, 0x14, 0x28, 2, 1);
    lemma_two_is_prime();
    lemma_prime_5();
    assert forall|m: int| m >= 2 && #[trigger] (0x28int % m) == 0 implies exists|f: int| #[trigger]
        refutes(6, 0x28, 0x29, m, f) by {
        lemma_euclid(m, 2, 0x14);
        if m % 2 == 0 {
            assert(refutes(6, 0x28, 0x29, m, 2));
        } else {
            lemma_euclid(m, 2, 0xa);
            lemma_euclid(m, 2, 5);
            lemma_euclid(m, 5, 1);
            if m % 5 == 0 {
                assert(refutes(6, 0x28, 0x29, m, 5));
            } else {
                lemma_small_mod(1, m as nat);
            }
        }
    }
    lemma_lucas(0x29, 0x28, 6);
}

/// 41 is prime.
pub proof fn lemma_prime_41()
    ensures
        is_prime(0x29),
{
    lemma_root_41();
    lemma_root_gives_prime(6, 0x29);
}

/// A power of the root 2 modulo 83.
proof fn lemma_power_83_1()
    ensures
        pow_mod(2, 0x29, 0x53) == 0x52,
{
    let p = 0x53;
    let g = 2;
    lemma_chain_start(p, g);
    let e: nat = 0;
    let e = lemma_chain_square(p, g, e, 1, 0, 1);
    let e = lemma_chain_multiply(p, g, e, 1, 0, 2);
    let e = lemma_chain_square(p, g, e, 2, 0, 4);
    let e = lemma_chain_square(p, g, e, 4, 0, 0x10);
    let e = lemma_chain_multiply(p, g, e, 0x10, 0, 0x20);
    let e = lemma_chain_square(p, g, e, 0x20, 0xc, 0x1c);
    let e = lemma_chain_square(p, g, e, 0x1c, 9, 0x25);
    let e = lemma_chain_square(p, g, e, 0x25, 0x10, 0x29);
    let e = lemma_chain_multiply(p, g, e, 0x29, 0, 0x52);
}

/// A power of the root 2 modulo 83.
proof fn lemma_power_83_2()
    ensures
        pow_mod(2, 2, 0x53) == 4,
{
    let p = 0x53;
    let g = 2;
    lemma_chain_start(p, g);
    let e: nat = 0;
    let e = lemma_chain_square(p, g, e, 1, 0, 1);
    let e = lemma_chain_multiply(p, g, e, 1, 0, 2);
    let e = lemma_chain_square(p, g, e, 2, 0, 4);
}

/// A power of a power of the root 2 modulo 83.
proof fn lemma_power_83_3()
    ensures
        pow_mod(0x52, 2, 0x53) == 1,
{
    let p = 0x53;
    let g = 0x52;
    lemma_chain_start(p, g);
    let e: nat = 0;
    let e = lemma_chain_square(p, g, e, 1, 0, 1);
    let e = lemma_chain_multiply(p, g, e, 1, 0, 0x52);
    let e = lemma_chain_square(p, g, e, 0x52, 0x51, 1);
}

/// 2 is a primitive root modulo 83.
pub proof fn lemma_root_83()
    ensures
        is_primitive_root(2, 0x53),
{
    let p = 0x53;
    let g = 2;
    lemma_power_83_1();
    lemma_power_83_2();
    lemma_power_83_3();
    lemma_chain_rebase(p, g, 0x29, 0x52, 2, 1);
    lemma_two_is_prime();
    lemma_prime_41();
    assert forall|m: int| m >= 2 && #[trigger] (0x52int % m) == 0 implies exists|f: int| #[trigger]
        refutes(2, 0x52, 0x53, m, f) by {
        lemma_euclid(m, 2, 0x29);
        if m % 2 == 0 {
            assert(refutes(2, 0x52, 0x53, m, 2));
        } else {
            lemma_euclid(m, 0x29, 1);
            if m % 0x29 == 0 {
                assert(refutes(2, 0x52, 0x53, m, 0x29));
            } else {
                lemma_small_mod(1, m as nat);
            }
        }
    }
    lemma_lucas(0x53, 0x52, 2);
}

/// 83 is prime.
pub proof fn lemma_prime_83()
    ensures
        is_prime(0x53),
{
    lemma_root_83();
    lemma_root_gives_prime(2, 0x53);
}

/// A power of the root 7 modulo 499.
proof fn lemma_power_499_1()
    ensures
        pow_mod(7, 0xf9, 0x1f3) == 0x1f2,
{
    let p = 0x1f3;
    let g = 7;
    lemma_chain_start(p, g);
    let e: nat = 0;
    let e = lemma_chain_square(p, g, e, 1, 0, 1);
    let e = lemma_chain_multiply(p, g, e, 1, 0, 7);
    let e = lemma_chain_square(p, g, e, 7, 0, 0x31);
    let e = lemma_chain_multiply(p, g, e, 0x31, 0, 0x157);
    let e = lemma_chain_square(p, g, e, 0x157, 0xeb, 0x180);
    let e = lemma_chain_multiply(p, g, e, 0x180, 5, 0xc1);
    let e = lemma_chain_square(p, g, e, 0xc1, 0x4a, 0x143);
    let e = lemma_chain_multiply(p, g, e, 0x143, 4, 0x109);
    let e = lemma_chain_square(p, g, e, 0x109, 0x8c, 0x16d);
    let e = lemma_chain_multiply(p, g, e, 0x16d, 5, 0x3c);
    let e = lemma_chain_square(p, g, e, 0x3c, 7, 0x6b);
    let e = lemma_chain_square(p, g, e, 0x6b, 0x16, 0x1d7);
    let e = lemma_chain_square(p, g, e, 0x1d7, 0x1bc, 0x11d);
    let e = lemma_chain_multiply(p, g, e, 0x11d, 3, 0x1f2);
}

/// A power of the root 7 modulo 499.
proof fn lemma_power_499_2()
    ensures
        pow_mod(7, 0xa6, 0x1f3) == 0x8b,
{
    let p = 0x1f3;
    let g = 7;
    lemma_chain_start(p, g);
    let e: nat = 0;
    let e = lemma_chain_square(p, g, e, 1, 0, 1);
    let e = lemma_chain_multiply(p, g, e, 1, 0, 7);
    let e = lemma_chain_square(p, g, e, 7, 0, 0x31);
    let e = lemma_chain_square(p, g, e, 0x31, 4, 0x195);
    let e = lemma_chain_multiply(p, g, e, 0x195, 5, 0x154);
    let e = lemma_chain_square(p, g, e, 0x154, 0xe7, 0x14b);
    let e = lemma_chain_square(p, g, e, 0x14b, 0xdb, 0x118);
    let e = lemma_chain_square(p, g, e, 0x118, 0x9d, 0x39);
    let e = lemma_chain_multiply(p, g, e, 0x39, 0, 0x18f);
    let e = lemma_chain_square(p, g, e, 0x18f, 0x13f, 0x14);
    let e = lemma_chain_multiply(p, g, e, 0x14, 0, 0x8c);
    let e = lemma_chain_square(p, g, e, 0x8c, 0x27, 0x8b);
}

/// A power of the root 7 modulo 499.
proof fn lemma_power_499_3()
    ensures
        pow_mod(7, 6, 0x1f3) == 0x180,
{
    let p = 0x1f3;
    let g = 7;
    lemma_chain_start(p, g);
    let e: nat = 0;
    let e = lemma_chain_square(p, g, e, 1, 0, 1);
    let e = lemma_chain_multiply(p, g, e, 1, 0, 7);
    let e = lemma_chain_square(p, g, e, 7, 0, 0x31);
    let e = lemma_chain_multiply(p, g, e, 0x31, 0, 0x157);
    let e = lemma_chain_square(p, g, e, 0x157, 0xeb, 0x180);
}

/// A power of a power of the root 7 modulo 499.
proof fn lemma_power_499_4()
    ensures
        pow_mod(0x1f2, 2, 0x1f3) == 1,
{
    let p = 0x1f3;
    let g = 0x1f2;
    lemma_chain_start(p, g);
    let e: nat = 0;
    let e = lemma_chain_square(p, g, e, 1, 0, 1);
    let e = lemma_chain_multiply(p, g, e, 1, 0, 0x1f2);
    let e = lemma_chain_square(p, g, e, 0x1f2, 0x1f1, 1);
}

/// 7 is a primitive root modulo 499.
pub proof fn lemma_root_499()
    ensures
        is_primitive_root(7, 0x1f3),
{
    let p = 0x1f3;
    let g = 7;
    lemma_power_499_1();
    lemma_power_499_2();
    lemma_power_499_3();
    lemma_power_499_4();
    lemma_chain_rebase(p, g, 0xf9, 0x1f2, 2, 1);
    lemma_two_is_prime();
    lemma_prime_3();
    lemma_prime_83();
    assert forall|m: int| m >= 2 && #[trigger] (0x1f2int % m) == 0 implies exists|f: int| #[trigger]
        refutes(7, 0x1f2, 0x1f3, m, f) by {
        lemma_euclid(m, 2, 0xf9);
        if m % 2 == 0 {
            assert(refutes(7, 0x1f2, 0x1f3, m, 2));
        } else {
            lemma_euclid(m, 3, 0x53);
            if m % 3 == 0 {
                assert(refutes(7, 0x1f2, 0x1f3, m, 3));
            } else {
                lemma_euclid(m, 0x53, 1);
                if m % 0x53 == 0 {
                    assert(refutes(7, 0x1f2, 0x1f3, m, 0x53));
                } else {
                    lemma_small_mod(1, m as nat);
                }
            }
        }
    }
    lemma_lucas(0x1f3, 0x1f2, 7);
}

/// 499 is prime.
pub proof fn lemma_prime_499()
    ensures
        is_prime(0x1f3),
{
    lemma_root_499();
    lemma_root_gives_prime(7, 0x1f3);
}

/// A power of the root 2 modulo 37.
proof fn lemma_power_37_1()
    ensures
        pow_mod(2, 0x12, 0x25) == 0x24,
{
    let p = 0x25;
    let g = 2;
    lemma_chain_start(p, g);
    let e: nat = 0;
    let e = lemma_chain_square(p, g, e, 1, 0, 1);
    let e = lemma_chain_multiply(p, g, e, 1, 0, 2);
    let e = lemma_chain_square(p, g, e, 2, 0, 4);
    let e = lemma_chain_square(p, g, e, 4, 0, 0x10);
    let e = lemma_chain_square(p, g, e, 0x10, 6, 0x22);
    let e = lemma_chain_multiply(p, g, e, 0x22, 1, 0x1f);
    let e = lemma_chain_square(p, g, e, 0x1f, 0x19, 0x24);
}

/// A power of the root 2 modulo 37.
proof fn lemma_power_37_2()
    ensures
        pow_mod(2, 0xc, 0x25) == 0x1a,
{
    let p = 0x25;
    let g = 2;
    lemma_chain_start(p, g);
    let e: nat = 0;
    let e = lemma_chain_square(p, g, e, 1, 0, 1);
    let e = lemma_chain_multiply(p, g, e, 1, 0, 2);
    let e = lemma_chain_square(p, g, e, 2, 0, 4);
    let e = lemma_chain_multiply(p, g, e, 4, 0, 8);
    let e = lemma_chain_square(p, g, e, 8, 1, 0x1b);
    let e = lemma_chain_square(p, g, e, 0x1b, 0x13, 0x1a);
}

/// A power of a power of the root 2 modulo 37.
proof fn lemma_power_37_3()
    ensures
        pow_mod(0x24, 2, 0x25) == 1,
{
    let p = 0x25;
    let g = 0x24;
    lemma_chain_start(p, g);
    let e: nat = 0;
    let e = lemma_chain_square(p, g, e, 1, 0, 1);
    let e = lemma_chain_multiply(p, g, e, 1, 0, 0x24);
    let e = lemma_chain_square(p, g, e, 0x24, 0x23, 1);
}

/// 2 is a primitive root modulo 37.
pub proof fn lemma_root_37()
    ensures
        is_primitive_root(2, 0x25),
{
    let p = 0x25;
    let g = 2;
    lemma_power_37_1();
    lemma_power_37_2();
    lemma_power_37_3();
    lemma_chain_rebase(p, g, 0x12, 0x24, 2, 1);
    lemma_two_is_prime();
    lemma_prime_3();
    assert forall|m: int| m >= 2 && #[trigger] (0x24int % m) == 0 implies exists|f: int| #[trigger]
        refutes(2, 0x24, 0x25, m, f) by {
        lemma_euclid(m, 2, 0x12);
        if m % 2 == 0 {
            assert(refutes(2, 0x24, 0x25, m, 2));
        } else {
            lemma_euclid(m, 2, 9);
            lemma_euclid(m, 3, 3);
            if m % 3 == 0 {
                assert(refutes(2, 0x24, 0x25, m, 3));
            } else {
                lemma_euclid(m, 3, 1);
                lemma_small_mod(1, m as nat);
            }
        }
    }
    lemma_lucas(0x25, 0x24, 2);
}

/// 37 is prime.
pub proof fn lemma_prime_37()
    ensures
        is_prime(0x25),
{
    lemma_root_37();
    lemma_root_gives_prime(2, 0x25);
}

/// A power of the root 5 modulo 167.
proof fn lemma_power_167_1()
    ensures
        pow_mod(5, 0x53, 0xa7) == 0xa6,
{
    let p = 0xa7;
    let g = 5;
    lemma_chain_start(p, g);
    let e: nat = 0;
    let e = lemma_chain_square(p, g, e, 1, 0, 1);
    let e = lemma_chain_multiply(p, g, e, 1, 0, 5);
    let e = lemma_chain_square(p, g, e, 5, 0, 0x19);
    let e = lemma_chain_square(p, g, e, 0x19, 3, 0x7c);
    let e = lemma_chain_multiply(p, g, e, 0x7c, 3, 0x77);
    let e = lemma_chain_square(p, g, e, 0x77, 0x54, 0x85);
    let e = lemma_chain_square(p, g, e, 0x85, 0x69, 0x9a);
    let e = lemma_chain_square(p, g, e, 0x9a, 0x8e, 2);
    let e = lemma_chain_multiply(p, g, e, 2, 0, 0xa);
    let e = lemma_chain_square(p, g, e, 0xa, 0, 0x64);
    let e = lemma_chain_multiply(p, g, e, 0x64, 2, 0xa6);
}

/// A power of the root 5 modulo 167.
proof fn lemma_power_167_2()
    ensures
        pow_mod(5, 2, 0xa7) == 0x19,
{
    let p = 0xa7;
    let g = 5;
    lemma_chain_start(p, g);
    let e: nat = 0;
    let e = lemma_chain_square(p, g, e, 1, 0, 1);
    let e = lemma_chain_multiply(p, g, e, 1, 0, 5);
    let e = lemma_chain_square(p, g, e, 5, 0, 0x19);
}

/// A power of a power of the root 5 modulo 167.
proof fn lemma_power_167_3()
    ensures
        pow_mod(0xa6, 2, 0xa7) == 1,
{
    let p = 0xa7;
    let g = 0xa6;
    lemma_chain_start(p, g);
    let e: nat = 0;
    let e = lemma_chain_square(p, g, e, 1, 0, 1);
    let e = lemma_chain_multiply(p, g, e, 1, 0, 0xa6);
    let e = lemma_chain_square(p, g, e, 0xa6, 0xa5, 1);
}

/// 5 is a primitive root modulo 167.
pub proof fn lemma_root_167()
    ensures
        is_primitive_root(5, 0xa7),
{
    let p = 0xa7;
    let g = 5;
    lemma_power_167_1();
    lemma_power_167_2();
    lemma_power_167_3();
    lemma_chain_rebase(p, g, 0x53, 0xa6, 2, 1);
    lemma_two_is_prime();
    lemma_prime_83();
    assert forall|m: int| m >= 2 && #[trigger] (0xa6int % m) == 0 implies exists|f: int| #[trigger]
        refutes(5, 0xa6, 0xa7, m, f) by {
        lemma_euclid(m, 2, 0x53);
        if m % 2 == 0 {
            assert(refutes(5, 0xa6, 0xa7, m, 2));
        } else {
            lemma_euclid(m, 0x53, 1);
            if m % 0x53 == 0 {
                assert(refutes(5, 0xa6, 0xa7, m, 0x53));
            } else {
                lemma_small_mod(1, m as nat);
            }
        }
    }
    lemma_lucas(0xa7, 0xa6, 5);
}

/// 167 is prime.
pub proof fn lemma_prime_167()
    ensures
        is_prime(0xa7),
{
    lemma_root_167();
    lemma_root_gives_prime(5, 0xa7);
}

/// A power of the root 2 modulo 74149.
proof fn lemma_power_74149_1()
    ensures
        pow_mod(2, 0x90d2, 0x121a5) == 0x121a4,
{
    let p = 0x121a5;
    let g = 2;
    lemma_chain_start(p, g);
    let e: nat = 0;
    let e = lemma_chain_square(p, g, e, 1, 0, 1);
    let e = lemma_chain_multiply(p, g, e, 1, 0, 2);
    let e = lemma_chain_square(p, g, e, 2, 0, 4);
    let e = lemma_chain_square(p, g, e, 4, 0, 0x10);
    let e = lemma_chain_square(p, g, e, 0x10, 0, 0x100);
    let e = lemma_chain_multiply(p, g, e, 0x100, 0, 0x200);
    let e = lemma_chain_square(p, g, e, 0x200, 3, 0x9b11);
    let e = lemma_chain_square(p, g, e, 0x9b11, 0x5304, 0x918d);
    let e = lemma_chain_square(p, g, e, 0x918d, 0x4924, 0x3f75);
    let e = lemma_chain_square(p, g, e, 0x3f75, 0xde7, 0xe96);
    let e = lemma_chain_square(p, g, e, 0xe96, 0xbc, 0xab8);
    let e = lemma_chain_multiply(p, g, e, 0xab8, 0, 0x1570);
    let e = lemma_chain_square(p, g, e, 0x1570, 0x196, 0x3552);
    let e = lemma_chain_multiply(p, g, e, 0x3552, 0, 0x6aa4);
    let e = lemma_chain_square(p, g, e, 0x6aa4, 0x2743, 0x47e1);
    let e = lemma_chain_square(p, g, e, 0x47e1, 0x11d6, 0x7ed3);
    let e = lemma_chain_multiply(p, g, e, 0x7ed3, 0, 0xfda6);
    let e = lemma_chain_square(p, g, e, 0xfda6, 0xde20, 0x3d04);
    let e = lemma_chain_square(p, g, e, 0x3d04, 0xcda, 0x858e);
    let e = lemma_chain_square(p, g, e, 0x858e, 0x3d94, 0x11660);
    let e = lemma_chain_multiply(p, g, e, 0x11660, 1, 0x10b1b);
    let e = lemma_chain_square(p, g, e, 0x10b1b, 0xf651, 0x121a4);
}

/// A power of the root 2 modulo 74149.
proof fn lemma_power_74149_2()
    ensures
        pow_mod(2, 0x608c, 0x121a5) == 0x114bf,
{
    let p = 0x121a5;
    let g = 2;
    lemma_chain_start(p, g);
    let e: nat = 0;
    let e = lemma_chain_square(p, g, e, 1, 0, 1);
    let e = lemma_chain_multiply(p, g, e, 1, 0, 2);
    let e = lemma_chain_square(p, g, e, 2, 0, 4);
    let e = lemma_chain_multiply(p, g, e, 4, 0, 8);
    let e = lemma_chain_square(p, g, e, 8, 0, 0x40);
    let e = lemma_chain_square(p, g, e, 0x40, 0, 0x1000);
    let e = lemma_chain_square(p, g, e, 0x1000, 0xe2, 0x4c56);
    let e = lemma_chain_square(p, g, e, 0x4c56, 0x141e, 0x578e);
    let e = lemma_chain_square(p, g, e, 0x578e, 0x1a77, 0x6d11);
    let e = lemma_chain_square(p, g, e, 0x6d11, 0x2911, 0xd22c);
    let e = lemma_chain_multiply(p, g, e, 0xd22c, 1, 0x82b3);
    let e = lemma_chain_square(p, g, e, 0x82b3, 0x3afa, 0xc07);
    let e = lemma_chain_square(p, g, e, 0xc07, 0x7f, 0xf756);
    let e = lemma_chain_square(p, g, e, 0xf756, 0xd335, 0x1abb);
    let e = lemma_chain_square(p, g, e, 0x1abb, 0x277, 0x96e6);
    let e = lemma_chain_multiply(p, g, e, 0x96e6, 1, 0xc27);
    let e = lemma_chain_square(p, g, e, 0xc27, 0x82, 0x9827);
    let e = lemma_chain_multiply(p, g, e, 0x9827, 1, 0xea9);
    let e = lemma_chain_square(p, g, e, 0xea9, 0xbd, 0x114c0);
    let e = lemma_chain_square(p, g, e, 0x114c0, 0x1086d, 0x114bf);
}

/// A power of the root 2 modulo 74149.
proof fn lemma_power_74149_3()
    ensures
        pow_mod(2, 0x7d4, 0x121a5) == 0x93e,
{
    let p = 0x121a5;
    let g = 2;
    lemma_chain_start(p, g);
    let e: nat = 0;
    let e = lemma_chain_square(p, g, e, 1, 0, 1);
    let e = lemma_chain_multiply(p, g, e, 1, 0, 2);
    let e = lemma_chain_square(p, g, e, 2, 0, 4);
    let e = lemma_chain_multiply(p, g, e, 4, 0, 8);
    let e = lemma_chain_square(p, g, e, 8, 0, 0x40);
    let e = lemma_chain_multiply(p, g, e, 0x40, 0, 0x80);
    let e = lemma_chain_square(p, g, e, 0x80, 0, 0x4000);
    let e = lemma_chain_multiply(p, g, e, 0x4000, 0, 0x8000);
    let e = lemma_chain_square(p, g, e, 0x8000, 0x3890, 0xfb30);
    let e = lemma_chain_multiply(p, g, e, 0xfb30, 1, 0xd4bb);
    let e = lemma_chain_square(p, g, e, 0xd4bb, 0x9c3d, 0xb048);
    let e = lemma_chain_square(p, g, e, 0xb048, 0x6b49, 0x8533);
    let e = lemma_chain_multiply(p, g, e, 0x8533, 0, 0x10a66);
    let e = lemma_chain_square(p, g, e, 0x10a66, 0xf504, 0xb110);
    let e = lemma_chain_square(p, g, e, 0xb110, 0x6c3d, 0x80af);
    let e = lemma_chain_multiply(p, g, e, 0x80af, 0, 0x1015e);
    let e = lemma_chain_square(p, g, e, 0x1015e, 0xe4af, 0xeab9);
    let e = lemma_chain_square(p, g, e, 0xeab9, 0xbe37, 0x93e);
}

/// A power of the root 2 modulo 74149.
proof fn lemma_power_74149_4()
    ensures
        pow_mod(2, 0x1bc, 0x121a5) == 0xb389,
{
    let p = 0x121a5;
    let g = 2;
    lemma_chain_start(p, g);
    let e: nat = 0;
    let e = lemma_chain_square(p, g, e, 1, 0, 1);
    let e = lemma_chain_multiply(p, g, e, 1, 0, 2);
    let e = lemma_chain_square(p, g, e, 2, 0, 4);
    let e = lemma_chain_multiply(p, g, e, 4, 0, 8);
    let e = lemma_chain_square(p, g, e, 8, 0, 0x40);
    let e = lemma_chain_square(p, g, e, 0x40, 0, 0x1000);
    let e = lemma_chain_multiply(p, g, e, 0x1000, 0, 0x2000);
    let e = lemma_chain_square(p, g, e, 0x2000, 0x389, 0xfb3);
    let e = lemma_chain_multiply(p, g, e, 0xfb3, 0, 0x1f66);
    let e = lemma_chain_square(p, g, e, 0x1f66, 0x367, 0x6441);
    let e = lemma_chain_multiply(p, g, e, 0x6441, 0, 0xc882);
    let e = lemma_chain_square(p, g, e, 0xc882, 0x8acd, 0x7ee3);
    let e = lemma_chain_multiply(p, g, e, 0x7ee3, 0, 0xfdc6);
    let e = lemma_chain_square(p, g, e, 0xfdc6, 0xde58, 0x4e6c);
    let e = lemma_chain_square(p, g, e, 0x4e6c, 0x153b, 0xb389);
}

/// A power of a power of the root 2 modulo 74149.
proof fn lemma_power_74149_5()
    ensures
        pow_mod(0x121a4, 2, 0x121a5) == 1,
{
    let p = 0x121a5;
    let g = 0x121a4;
    lemma_chain_start(p, g);
    let e: nat = 0;
    let e = lemma_chain_square(p, g, e, 1, 0, 1);
    let e = lemma_chain_multiply(p, g, e, 1, 0, 0x121a4);
    let e = lemma_chain_square(p, g, e, 0x121a4, 0x121a3, 1);
}

/// 2 is a primitive root modulo 74149.
pub proof fn lemma_root_74149()
    ensures
        is_primitive_root(2, 0x121a5),
{
    let p = 0x121a5;
    let g = 2;
    lemma_power_74149_1();
    lemma_power_74149_2();
    lemma_power_74149_3();
    lemma_power_74149_4();
    lemma_power_74149_5();
    lemma_chain_rebase(p, g, 0x90d2, 0x121a4, 2, 1);
    lemma_two_is_prime();
    lemma_prime_3();
    lemma_prime_37();
    lemma_prime_167();
    assert forall|m: int| m >= 2 && #[trigger] (0x121a4int % m) == 0 implies exists|f: int| #[trigger]
        refutes(2, 0x121a4, 0x121a5, m, f) by {
        lemma_euclid(m, 2, 0x90d2);
        if m % 2 == 0 {
            assert(refutes(2, 0x121a4, 0x121a5, m, 2));
        } else {
            lemma_euclid(m, 2, 0x4869);
            lemma_euclid(m, 3, 0x1823);
            if m % 3 == 0 {
                assert(refutes(2, 0x121a4, 0x121a5, m, 3));
            } else {
                lemma_euclid(m, 0x25, 0xa7);
                if m % 0x25 == 0 {
                    assert(refutes(2, 0x121a4, 0x121a5, m, 0x25));
                } else {
                    lemma_euclid(m, 0xa7, 1);
                    if m % 0xa7 == 0 {
                        assert(refutes(2, 0x121a4, 0x121a5, m, 0xa7));
                    } else {
                        lemma_small_mod(1, m as nat);
                    }
                }
            }
        }
    }
    lemma_lucas(0x121a5, 0x121a4, 2);
}

/// 74149 is prime.
pub proof fn lemma_prime_74149()
    ensures
        is_prime(0x121a5),
{
    lemma_root_74149();
    lemma_root_gives_prime(2, 0x121a5);
}

/// A power of the root 2 modulo 1036009829.
proof fn lemma_power_1036009829_1()
    ensures
        pow_mod(2, 0x1ee020b2, 0x3dc04165) == 0x3dc04164,
{
    let p = 0x3dc04165;
    let g = 2;
    lemma_chain_start(p, g);
    let e: nat = 0;
    let e = lemma_chain_square(p, g, e, 1, 0, 1);
    let e = lemma_chain_multiply(p, g, e, 1, 0, 2);
    let e = lemma_chain_square(p, g, e, 2, 0, 4);
    let e = lemma_chain_multiply(p, g, e, 4, 0, 8);
    let e = lemma_chain_square(p, g, e, 8, 0, 0x40);
    let e = lemma_chain_multiply(p, g, e, 0x40, 0, 0x80);
    let e = lemma_chain_square(p, g, e, 0x80, 0, 0x4000);
    let e = lemma_chain_multiply(p, g, e, 0x4000, 0, 0x8000);
    let e = lemma_chain_square(p, g, e, 0x8000, 1, 0x23fbe9b);
    let e = lemma_chain_square(p, g, e, 0x23fbe9b, 0x14f80a, 0x5740be7);
    let e = lemma_chain_multiply(p, g, e, 0x5740be7, 0, 0xae817ce);
    let e = lemma_chain_square(p, g, e, 0xae817ce, 0x1ed2576, 0x1003ec36);
    let e = lemma_chain_multiply(p, g, e, 0x1003ec36, 0, 0x2007d86c);
    let e = lemma_chain_square(p, g, e, 0x2007d86c, 0x109d503a, 0xfef0cae);
    let e = lemma_chain_multiply(p, g, e, 0xfef0cae, 0, 0x1fde195c);
    let e = lemma_chain_square(p, g, e, 0x1fde195c, 0x10721d8d, 0xccca36f);
    let e = lemma_chain_square(p, g, e, 0xccca36f, 0x2a7295b, 0x188b1e3a);
    let e = lemma_chain_square(p, g, e, 0x188b1e3a, 0x9c14696, 0x1be0b5f6);
    let e = lemma_chain_square(p, g, e, 0x1be0b5f6, 0xc95e6c4, 0x619f910);
    let e = lemma_chain_square(p, g, e, 0x619f910, 0x9a55a2, 0x174e3616);
    let e = lemma_chain_square(p, g, e, 0x174e3616, 0x8cbb6e5, 0x645fc8b);
    let e = lemma_chain_square(p, g, e, 0x645fc8b, 0xa327a0, 0x1aa1b159);
    let e = lemma_chain_square(p, g, e, 0x1aa1b159, 0xb7c4b85, 0x34d7a078);
    let e = lemma_chain_multiply(p, g, e, 0x34d7a078, 1, 0x2beeff8b);
    let e = lemma_chain_square(p, g, e, 0x2beeff8b, 0x1f41d46a, 0x3a227da7);
    let e = lemma_chain_square(p, g, e, 0x3a227da7, 0x36baf0e0, 0x331e9a91);
    let e = lemma_chain_square(p, g, e, 0x331e9a91, 0x2a51877f, 0x157d1206);
    let e = lemma_chain_square(p, g, e, 0x157d1206, 0x77a4d52, 0xebe84ca);
    let e = lemma_chain_square(p, g, e, 0xebe84ca, 0x3853cc8, 0x2b92c7c);
    let e = lemma_chain_square(p, g, e, 0x2b92c7c, 0x1ebf25, 0x3b890d77);
    let e = lemma_chain_multiply(p, g, e, 0x3b890d77, 1, 0x3951d989);
    let e = lemma_chain_square(p, g, e, 0x3951d989, 0x3534d970, 0x367c5221);
    let e = lemma_chain_square(p, g, e, 0x367c5221, 0x301337ee, 0x1508a95b);
    let e = lemma_chain_multiply(p, g, e, 0x1508a95b, 0, 0x2a1152b6);
    let e = lemma_chain_square(p, g, e, 0x2a1152b6, 0x1ca89110, 0x178ece14);
    let e = lemma_chain_multiply(p, g, e, 0x178ece14, 0, 0x2f1d9c28);
    let e = lemma_chain_square(p, g, e, 0x2f1d9c28, 0x23f2f0c9, 0x1694bdf3);
    let e = lemma_chain_square(p, g, e, 0x1694bdf3, 0x841e4e3, 0x338bc41a);
    let e = lemma_chain_square(p, g, e, 0x338bc41a, 0x2b0704f9, 0x14aba367);
    let e = lemma_chain_multiply(p, g, e, 0x14aba367, 0, 0x295746ce);
    let e = lemma_chain_square(p, g, e, 0x295746ce, 0x1bad44e0, 0x3dc04164);
}

/// A power of the root 2 modulo 1036009829.
proof fn lemma_power_1036009829_2()
    ensures
        pow_mod(2, 0x8d2527c, 0x3dc04165) == 0x839b12f,
{
    let p = 0x3dc04165;
    let g = 2;
    lemma_chain_start(p, g);
    let e: nat = 0;
    let e = lemma_chain_square(p, g, e, 1, 0, 1);
    let e = lemma_chain_multiply(p, g, e, 1, 0, 2);
    let e = lemma_chain_square(p, g, e, 2, 0, 4);
    let e = lemma_chain_square(p, g, e, 4, 0, 0x10);
    let e = lemma_chain_square(p, g, e, 0x10, 0, 0x100);
    let e = lemma_chain_square(p, g, e, 0x100, 0, 0x10000);
    let e = lemma_chain_multiply(p, g, e, 0x10000, 0, 0x20000);
    let e = lemma_chain_square(p, g, e, 0x20000, 0x10, 0x23fbe9b0);
    let e = lemma_chain_multiply(p, g, e, 0x23fbe9b0, 1, 0xa3791fb);
    let e = lemma_chain_square(p, g, e, 0xa3791fb, 0x1b0c2ff, 0x1a989e7e);
    let e = lemma_chain_square(p, g, e, 0x1a989e7e, 0xb747947, 0x37c0e601);
    let e = lemma_chain_multiply(p, g, e, 0x37c0e601, 1, 0x31c18a9d);
    let e = lemma_chain_square(p, g, e, 0x31c18a9d, 0x28174e53, 0x2472aa8a);
    let e = lemma_chain_square(p, g, e, 0x2472aa8a, 0x15835551, 0x549586f);
    let e = lemma_chain_square(p, g, e, 0x549586f, 0x73dc26, 0x20beff23);
    let e = lemma_chain_multiply(p, g, e, 0x20beff23, 1, 0x3bdbce1);
    let e = lemma_chain_square(p, g, e, 0x3bdbce1, 0x3a0633, 0x15ddd8a2);
    let e = lemma_chain_square(p, g, e, 0x15ddd8a2, 0x7be3f7b, 0xb987ffd);
    let e = lemma_chain_square(p, g, e, 0xb987ffd, 0x22d6e04, 0x1e919475);
    let e = lemma_chain_multiply(p, g, e, 0x1e919475, 0, 0x3d2328ea);
    let e = lemma_chain_square(p, g, e, 0x3d2328ea, 0x3c87a016, 0x1ade3736);
    let e = lemma_chain_square(p, g, e, 0x1ade3736, 0xbb0bb0c, 0x245867a8);
    let e = lemma_chain_multiply(p, g, e, 0x245867a8, 1, 0xaf08deb);
    let e = lemma_chain_square(p, g, e, 0xaf08deb, 0x1f023ca, 0xcf84d07);
    let e = lemma_chain_square(p, g, e, 0xcf84d07, 0x2b961e0, 0xfbfb8d1);
    let e = lemma_chain_square(p, g, e, 0xfbfb8d1, 0x4043f14, 0xe9a23bd);
    let e = lemma_chain_multiply(p, g, e, 0xe9a23bd, 0, 0x1d34477a);
    let e = lemma_chain_square(p, g, e, 0x1d34477a, 0xdcfcb85, 0x371cd5ab);
    let e = lemma_chain_square(p, g, e, 0x371cd5ab, 0x31301aeb, 0x1badb682);
    let e = lemma_chain_square(p, g, e, 0x1badb682, 0xc6804fe, 0x702a3ce);
    let e = lemma_chain_multiply(p, g, e, 0x702a3ce, 0, 0xe05479c);
    let e = lemma_chain_square(p, g, e, 0xe05479c, 0x32ef30e, 0x2263748a);
    let e = lemma_chain_multiply(p, g, e, 0x2263748a, 1, 0x706a7af);
    let e = lemma_chain_square(p, g, e, 0x706a7af, 0xcca667, 0x3ccbfbfe);
    let e = lemma_chain_multiply(p, g, e, 0x3ccbfbfe, 1, 0x3bd7b697);
    let e = lemma_chain_square(p, g, e, 0x3bd7b697, 0x39fe44e1, 0x174ebf4c);
    let e = lemma_chain_multiply(p, g, e, 0x174ebf4c, 0, 0x2e9d7e98);
    let e = lemma_chain_square(p, g, e, 0x2e9d7e98, 0x233079e0, 0x2bf804e0);
    let e = lemma_chain_multiply(p, g, e, 0x2bf804e0, 1, 0x1a2fc85b);
    let e = lemma_chain_square(p, g, e, 0x1a2fc85b, 0xb1adce1, 0x30ca0a94);
    let e = lemma_chain_square(p, g, e, 0x30ca0a94, 0x268c554d, 0x839b12f);
}

/// A power of the root 2 modulo 1036009829.
proof fn lemma_power_1036009829_3()
    ensures
        pow_mod(2, 0x1fae0c, 0x3dc04165) == 0xcb97a5f,
{
    let p = 0x3dc04165;
    let g = 2;
    lemma_chain_start(p, g);
    let e: nat = 0;
    let e = lemma_chain_square(p, g, e, 1, 0, 1);
    let e = lemma_chain_multiply(p, g, e, 1, 0, 2);
    let e = lemma_chain_square(p, g, e, 2, 0, 4);
    let e = lemma_chain_multiply(p, g, e, 4, 0, 8);
    let e = lemma_chain_square(p, g, e, 8, 0, 0x40);
    let e = lemma_chain_multiply(p, g, e, 0x40, 0, 0x80);
    let e = lemma_chain_square(p, g, e, 0x80, 0, 0x4000);
    let e = lemma_chain_multiply(p, g, e, 0x4000, 0, 0x8000);
    let e = lemma_chain_square(p, g, e, 0x8000, 1, 0x23fbe9b);
    let e = lemma_chain_multiply(p, g, e, 0x23fbe9b, 0, 0x47f7d36);
    let e = lemma_chain_square(p, g, e, 0x47f7d36, 0x53e028, 0x15d02f9c);
    let e = lemma_chain_multiply(p, g, e, 0x15d02f9c, 0, 0x2ba05f38);
    let e = lemma_chain_square(p, g, e, 0x2ba05f38, 0x1ed25764, 0x93dbdcc);
    let e = lemma_chain_square(p, g, e, 0x93dbdcc, 0x16209e0, 0x1fbf1530);
    let e = lemma_chain_multiply(p, g, e, 0x1fbf1530, 1, 0x1bde8fb);
    let e = lemma_chain_square(p, g, e, 0x1bde8fb, 0xc93f5, 0x3d5e5170);
    let e = lemma_chain_square(p, g, e, 0x3d5e5170, 0x3cfcfccf, 0xde7c455);
    let e = lemma_chain_multiply(p, g, e, 0xde7c455, 0, 0x1bcf88aa);
    let e = lemma_chain_square(p, g, e, 0x1bcf88aa, 0xc86692e, 0x3da4e3be);
    let e = lemma_chain_multiply(p, g, e, 0x3da4e3be, 1, 0x3d898617);
    let e = lemma_chain_square(p, g, e, 0x3d898617, 0x3d52fb4b, 0x260ee67a);
    let e = lemma_chain_multiply(p, g, e, 0x260ee67a, 1, 0xe5d8b8f);
    let e = lemma_chain_square(p, g, e, 0xe5d8b8f, 0x3578615, 0x3aa75e98);
    let e = lemma_chain_square(p, g, e, 0x3aa75e98, 0x37b6407d, 0x53ccbef);
    let e = lemma_chain_square(p, g, e, 0x53ccbef, 0x71b8a7, 0x3b7ca83e);
    let e = lemma_chain_square(p, g, e, 0x3b7ca83e, 0x394e4f3b, 0x55e31bd);
    let e = lemma_chain_square(p, g, e, 0x55e31bd, 0x77750b, 0x75ced32);
    let e = lemma_chain_square(p, g, e, 0x75ced32, 0xe0c0b0, 0x361ce854);
    let e = lemma_chain_multiply(p, g, e, 0x361ce854, 1, 0x2e798f43);
    let e = lemma_chain_square(p, g, e, 0x2e798f43, 0x22fa4dd2, 0xf7ee5af);
    let e = lemma_chain_multiply(p, g, e, 0xf7ee5af, 0, 0x1efdcb5e);
    let e = lemma_chain_square(p, g, e, 0x1efdcb5e, 0xf8dc945, 0x198f494b);
    let e = lemma_chain_square(p, g, e, 0x198f494b, 0xa945e92, 0xcb97a5f);
}

/// A power of the root 2 modulo 1036009829.
proof fn lemma_power_1036009829_4()
    ensures
        pow_mod(2, 0x3694, 0x3dc04165) == 0x3a941f32,
{
    let p = 0x3dc04165;
    let g = 2;
    lemma_chain_start(p, g);
    let e: nat = 0;
    let e = lemma_chain_square(p, g, e, 1, 0, 1);
    let e = lemma_chain_multiply(p, g, e, 1, 0, 2);
    let e = lemma_chain_square(p, g, e, 2, 0, 4);
    let e = lemma_chain_multiply(p, g, e, 4, 0, 8);
    let e = lemma_chain_square(p, g, e, 8, 0, 0x40);
    let e = lemma_chain_square(p, g, e, 0x40, 0, 0x1000);
    let e = lemma_chain_multiply(p, g, e, 0x1000, 0, 0x2000);
    let e = lemma_chain_square(p, g, e, 0x2000, 0, 0x4000000);
    let e = lemma_chain_multiply(p, g, e, 0x4000000, 0, 0x8000000);
    let e = lemma_chain_square(p, g, e, 0x8000000, 0x10952da, 0x23c8f5fe);
    let e = lemma_chain_square(p, g, e, 0x23c8f5fe, 0x14bcd246, 0x3add6c66);
    let e = lemma_chain_multiply(p, g, e, 0x3add6c66, 1, 0x37fa9767);
    let e = lemma_chain_square(p, g, e, 0x37fa9767, 0x32bf0d04, 0x120884dd);
    let e = lemma_chain_square(p, g, e, 0x120884dd, 0x5442c09, 0x17f0fe3c);
    let e = lemma_chain_square(p, g, e, 0x17f0fe3c, 0x9484311, 0x18b1575b);
    let e = lemma_chain_multiply(p, g, e, 0x18b1575b, 0, 0x3162aeb6);
    let e = lemma_chain_square(p, g, e, 0x3162aeb6, 0x277f026a, 0x5b0b92);
    let e = lemma_chain_square(p, g, e, 0x5b0b92, 0x863c, 0x1f07ad98);
    let e = lemma_chain_multiply(p, g, e, 0x1f07ad98, 1, 0x4f19cb);
    let e = lemma_chain_square(p, g, e, 0x4f19cb, 0x6553, 0xec13a3a);
    let e = lemma_chain_square(p, g, e, 0xec13a3a, 0x386880a, 0x3a941f32);
}

/// A power of a power of the root 2 modulo 1036009829.
proof fn lemma_power_1036009829_5()
    ensures
        pow_mod(0x3dc04164, 2, 0x3dc04165) == 1,
{
    let p = 0x3dc04165;
    let g = 0x3dc04164;
    lemma_chain_start(p, g);
    let e: nat = 0;
    let e = lemma_chain_square(p, g, e, 1, 0, 1);
    let e = lemma_chain_multiply(p, g, e, 1, 0, 0x3dc04164);
    let e = lemma_chain_square(p, g, e, 0x3dc04164, 0x3dc04163, 1);
}

/// 2 is a primitive root modulo 1036009829.
pub proof fn lemma_root_1036009829()
    ensures
        is_primitive_root(2, 0x3dc04165),
{
    let p = 0x3dc04165;
    let g = 2;
    lemma_power_1036009829_1();
    lemma_power_1036009829_2();
    lemma_power_1036009829_3();
    lemma_power_1036009829_4();
    lemma_power_1036009829_5();
    lemma_chain_rebase(p, g, 0x1ee020b2, 0x3dc04164, 2, 1);
    lemma_two_is_prime();
    lemma_prime_7();
    lemma_prime_499();
    lemma_prime_74149();
    assert forall|m: int| m >= 2 && #[trigger] (0x3dc04164int % m) == 0 implies exists|f: int| #[trigger]
        refutes(2, 0x3dc04164, 0x3dc04165, m, f) by {
        lemma_euclid(m, 2, 0x1ee020b2);
        if m % 2 == 0 {
            assert(refutes(2, 0x3dc04164, 0x3dc04165, m, 2));
        } else {
            lemma_euclid(m, 2, 0xf701059);
            lemma_euclid(m, 7, 0x234949f);
            if m % 7 == 0 {
                assert(refutes(2, 0x3dc04164, 0x3dc04165, m, 7));
            } else {
                lemma_euclid(m, 0x1f3, 0x121a5);
                if m % 0x1f3 == 0 {
                    assert(refutes(2, 0x3dc04164, 0x3dc04165, m, 0x1f3));
                } else {
                    lemma_euclid(m, 0x121a5, 1);
                    if m % 0x121a5 == 0 {
                        assert(refutes(2, 0x3dc04164, 0x3dc04165, m, 0x121a5));
                    } else {
                        lemma_small_mod(1, m as nat);
                    }
                }
            }
        }
    }
    lemma_lucas(0x3dc04165, 0x3dc04164, 2);
}

/// 1036009829 is prime.
pub proof fn lemma_prime_1036009829()
    ensures
        is_prime(0x3dc04165),
{
    lemma_root_1036009829();
    lemma_root_gives_prime(2, 0x3dc04165);
}

/// A power of the root 2 modulo 0x20047ae81a2d.
proof fn lemma_power_35203613989421_1()
    ensures
        pow_mod(2, 0x10023d740d16, 0x20047ae81a2d) == 0x20047ae81a2c,
{
    let p = 0x20047ae81a2d;
    let g = 2;
    lemma_chain_start(p, g);
    let e: nat = 0;
    let e = lemma_chain_square(p, g, e, 1, 0, 1);
    let e = lemma_chain_multiply(p, g, e, 1, 0, 2);
    let e = lemma_chain_square(p, g, e, 2, 0, 4);
    let e = lemma_chain_square(p, g, e, 4, 0, 0x10);
    let e = lemma_chain_square(p, g, e, 0x10, 0, 0x100);
    let e = lemma_chain_square(p, g, e, 0x100, 0, 0x10000);
    let e = lemma_chain_square(p, g, e, 0x10000, 0, 0x100000000);
    let e = lemma_chain_square(p, g, e, 0x100000000, 0x7fee1, 0xdc4f8cd5873);
    let e = lemma_chain_square(p, g, e, 0xdc4f8cd5873, 0x5ebf2596f35, 0x36ddb15558);
    let e = lemma_chain_square(p, g, e, 0x36ddb15558, 0x5e050c9e, 0x10a54ac84a7a);
    let e = lemma_chain_square(p, g, e, 0x10a54ac84a7a, 0x8a76a69d2f7, 0x187da26b96b9);
    let e = lemma_chain_square(p, g, e, 0x187da26b96b9, 0x12bbc175a22f, 0x115b26a5096e);
    let e = lemma_chain_square(p, g, e, 0x115b26a5096e, 0x9688b7f11f9, 0x123d6f53787f);
    let e = lemma_chain_multiply(p, g, e, 0x123d6f53787f, 1, 0x47663bed6d1);
    let e = lemma_chain_square(p, g, e, 0x47663bed6d1, 0x9f38a5ec7a, 0x165ef6bf212f);
    let e = lemma_chain_square(p, g, e, 0x165ef6bf212f, 0xfa17cdf3796, 0x5cb619d2543);
    let e = lemma_chain_square(p, g, e, 0x5cb619d2543, 0x10c758af281, 0x12537aa4b4dc);
    let e = lemma_chain_square(p, g, e, 0x12537aa4b4dc, 0xa7d4bcc1875, 0x14d6f041ee7f);
    let e = lemma_chain_multiply(p, g, e, 0x14d6f041ee7f, 1, 0x9a9659bc2d1);
    let e = lemma_chain_square(p, g, e, 0x9a9659bc2d1, 0x2ea6163381b, 0x14457ebbd3e2);
    let e = lemma_chain_multiply(p, g, e, 0x14457ebbd3e2, 1, 0x886828f8d97);
    let e = lemma_chain_square(p, g, e, 0x886828f8d97, 0x24525528df7, 0x181a893ba4a6);
    let e = lemma_chain_multiply(p, g, e, 0x181a893ba4a6, 1, 0x1030978f2f1f);
    let e = lemma_chain_square(p, g, e, 0x1030978f2f1f, 0x82fbbefcf3d, 0x4c6f9d2c608);
    let e = lemma_chain_multiply(p, g, e, 0x4c6f9d2c608, 0, 0x98df3a58c10);
    let e = lemma_chain_square(p, g, e, 0x98df3a58c10, 0x2d9e88efa1d, 0xd6f567097e7);
    let e = lemma_chain_square(p, g, e, 0xd6f567097e7, 0x5a32f8f171e, 0x10395492362b);
    let e = lemma_chain_multiply(p, g, e, 0x10395492362b, 1, 0x6e2e3c5229);
    let e = lemma_chain_square(p, g, e, 0x6e2e3c5229, 0x17b290c16, 0x12e71834eeb3);
    let e = lemma_chain_square(p, g, e, 0x12e71834eeb3, 0xb28f02610ce, 0x26dec3370f3);
    let e = lemma_chain_multiply(p, g, e, 0x26dec3370f3, 0, 0x4dbd866e1e6);
    let e = lemma_chain_square(p, g, e, 0x4dbd866e1e6, 0xbcc20c31ad, 0x17c01aa5cd3b);
    let e = lemma_chain_multiply(p, g, e, 0x17c01aa5cd3b, 1, 0xf7bba638049);
    let e = lemma_chain_square(p, g, e, 0xf7bba638049, 0x77cd0c61f13, 0x1870838bb07a);
    let e = lemma_chain_multiply(p, g, e, 0x1870838bb07a, 1, 0x10dc8c2f46c7);
    let e = lemma_chain_square(p, g, e, 0x10dc8c2f46c7, 0x8e13df653a7, 0x1a946a7fc456);
    let e = lemma_chain_square(p, g, e, 0x1a946a7fc456, 0x1610c6914c74, 0x10c161799480);
    let e = lemma_chain_multiply(p, g, e, 0x10c161799480, 1, 0x17e480b0ed3);
    let e = lemma_chain_square(p, g, e, 0x17e480b0ed3, 0x11d459a417, 0xa05ddb993de);
    let e = lemma_chain_square(p, g, e, 0xa05ddb993de, 0x3233b32ccae, 0x1eff5ddd0dee);
    let e = lemma_chain_square(p, g, e, 0x1eff5ddd0dee, 0x1e029249be5d, 0x8d3ef1a20eb);
    let e = lemma_chain_square(p, g, e, 0x8d3ef1a20eb, 0x26f1bf0737a, 0x124c5e68e747);
    let e = lemma_chain_square(p, g, e, 0x124c5e68e747, 0xa7529a7cf3e, 0x105a24e57bcb);
    let e = lemma_chain_square(p, g, e, 0x105a24e57bcb, 0x859f782ae1e, 0x1a6fee330bb3);
    let e = lemma_chain_square(p, g, e, 0x1a6fee330bb3, 0x15d45c32e6e5, 0x1b8bbed06e8);
    let e = lemma_chain_multiply(p, g, e, 0x1b8bbed06e8, 0, 0x37177da0dd0);
    let e = lemma_chain_square(p, g, e, 0x37177da0dd0, 0x5ecb8b8e75, 0xac16f6dc6f);
    let e = lemma_chain_multiply(p, g, e, 0xac16f6dc6f, 0, 0x1582dedb8de);
    let e = lemma_chain_square(p, g, e, 0x1582dedb8de, 0xe73d5bbc8, 0x5c04da78e5c);
    let e = lemma_chain_square(p, g, e, 0x5c04da78e5c, 0x10876e253db, 0x840246d3591);
    let e = lemma_chain_multiply(p, g, e, 0x840246d3591, 0, 0x108048da6b22);
    let e = lemma_chain_square(p, g, e, 0x108048da6b22, 0x8811a54b66a, 0x7e3b3429be2);
    let e = lemma_chain_square(p, g, e, 0x7e3b3429be2, 0x1f1acfb34c6, 0x152bb07f10b6);
    let e = lemma_chain_square(p, g, e, 0x152bb07f10b6, 0xdff9d9524cc, 0xd5d6bd71188);
    let e = lemma_chain_square(p, g, e, 0xd5d6bd71188, 0x59430677f56, 0x145cbc933a22);
    let e = lemma_chain_multiply(p, g, e, 0x145cbc933a22, 1, 0x8b4fe3e5a17);
    let e = lemma_chain_square(p, g, e, 0x8b4fe3e5a17, 0x25e29f5e329, 0xdc1a66515dc);
    let e = lemma_chain_square(p, g, e, 0xdc1a66515dc, 0x5e9173e3732, 0x42e509b0d46);
    let e = lemma_chain_multiply(p, g, e, 0x42e509b0d46, 0, 0x85ca1361a8c);
    let e = lemma_chain_square(p, g, e, 0x85ca1361a8c, 0x22f0e782366, 0x185edeaa27a2);
    let e = lemma_chain_multiply(p, g, e, 0x185edeaa27a2, 1, 0x10b9426c3517);
    let e = lemma_chain_square(p, g, e, 0x10b9426c3517, 0x8bc39e08d99, 0x20047ae81a2c);
}

/// A power of the root 2 modulo 0x20047ae81a2d.
proof fn lemma_power_35203613989421_2()
    ensures
        pow_mod(2, 0x6674bc8053c, 0x20047ae81a2d) == 0xd8c2563c6d4,
{
    let p = 0x20047ae81a2d;
    let g = 2;
    lemma_chain_start(p, g);
    let e: nat = 0;
    let e = lemma_chain_square(p, g, e, 1, 0, 1);
    let e = lemma_chain_multiply(p, g, e, 1, 0, 2);
    let e = lemma_chain_square(p, g, e, 2, 0, 4);
    let e = lemma_chain_multiply(p, g, e, 4, 0, 8);
    let e = lemma_chain_square(p, g, e, 8, 0, 0x40);
    let e = lemma_chain_square(p, g, e, 0x40, 0, 0x1000);
    let e = lemma_chain_square(p, g, e, 0x1000, 0, 0x1000000);
    let e = lemma_chain_multiply(p, g, e, 0x1000000, 0, 0x2000000);
    let e = lemma_chain_square(p, g, e, 0x2000000, 0x1f, 0x1f751de4d48d);
    let e = lemma_chain_multiply(p, g, e, 0x1f751de4d48d, 1, 0x1ee5c0e18eed);
    let e = lemma_chain_square(p, g, e, 0x1ee5c0e18eed, 0x1dd10e94f49e, 0x1dde602ebba3);
    let e = lemma_chain_square(p, g, e, 0x1dde602ebba3, 0x1bdd3100d83f, 0x44c85e720b6);
    let e = lemma_chain_square(p, g, e, 0x44c85e720b6, 0x93c3c7ff29, 0x1f60a767fd2f);
    let e = lemma_chain_multiply(p, g, e, 0x1f60a767fd2f, 1, 0x1ebcd3e7e031);
    let e = lemma_chain_square(p, g, e, 0x1ebcd3e7e031, 0x1d8245f2b284, 0xf798159002d);
    let e = lemma_chain_multiply(p, g, e, 0xf798159002d, 0, 0x1ef302b2005a);
    let e = lemma_chain_square(p, g, e, 0x1ef302b2005a, 0x1deaaa41c12a, 0x8ca37eae742);
    let e = lemma_chain_multiply(p, g, e, 0x8ca37eae742, 0, 0x11946fd5ce84);
    let e = lemma_chain_square(p, g, e, 0x11946fd5ce84, 0x9a70d6a987b, 0xb5cc98f6871);
    let e = lemma_chain_square(p, g, e, 0xb5cc98f6871, 0x4084718d481, 0x71836ff8d34);
    let e = lemma_chain_multiply(p, g, e, 0x71836ff8d34, 0, 0xe306dff1a68);
    let e = lemma_chain_square(p, g, e, 0xe306dff1a68, 0x649c82ac1f8, 0x1955adf201a8);
    let e = lemma_chain_square(p, g, e, 0x1955adf201a8, 0x140bf6b40f94, 0x680e446f93c);
    let e = lemma_chain_square(p, g, e, 0x680e446f93c, 0x1522d6aa25b, 0x1422cec1fe11);
    let e = lemma_chain_multiply(p, g, e, 0x1422cec1fe11, 1, 0x841229be1f5);
    let e = lemma_chain_square(p, g, e, 0x841229be1f5, 0x220c99d0bf3, 0x34c7414ccc2);
    let e = lemma_chain_square(p, g, e, 0x34c7414ccc2, 0x57003ebe77, 0x1ba1b5de3219);
    let e = lemma_chain_multiply(p, g, e, 0x1ba1b5de3219, 1, 0x173ef0d44a05);
    let e = lemma_chain_square(p, g, e, 0x173ef0d44a05, 0x10e09917a0b9, 0x1152ec8cd994);
    let e = lemma_chain_multiply(p, g, e, 0x1152ec8cd994, 1, 0x2a15e3198fb);
    let e = lemma_chain_square(p, g, e, 0x2a15e3198fb, 0x3751c469ee, 0x96f81883b43);
    let e = lemma_chain_multiply(p, g, e, 0x96f81883b43, 0, 0x12df03107686);
    let e = lemma_chain_square(p, g, e, 0x12df03107686, 0xb1f66fff5a3, 0xabcc7f7127d);
    let e = lemma_chain_multiply(p, g, e, 0xabcc7f7127d, 0, 0x15798fee24fa);
    let e = lemma_chain_square(p, g, e, 0x15798fee24fa, 0xe6756764f77, 0x14721793639);
    let e = lemma_chain_square(p, g, e, 0x14721793639, 0xd0e604ebc, 0x17ebe1129a5);
    let e = lemma_chain_square(p, g, e, 0x17ebe1129a5, 0x11df5db1c0, 0x14f11d2a8599);
    let e = lemma_chain_multiply(p, g, e, 0x14f11d2a8599, 1, 0x9ddbf6cf105);
    let e = lemma_chain_square(p, g, e, 0x9ddbf6cf105, 0x30a4f568aea, 0x157b90c03af7);
    let e = lemma_chain_square(p, g, e, 0x157b90c03af7, 0xe6a06820c65, 0x364a86e6a90);
    let e = lemma_chain_square(p, g, e, 0x364a86e6a90, 0x5c0f515c51, 0x194188061cc3);
    let e = lemma_chain_square(p, g, e, 0x194188061cc3, 0x13ec20b394a1, 0x9cf23cdc23c);
    let e = lemma_chain_square(p, g, e, 0x9cf23cdc23c, 0x30155459166, 0x1fb1a1081322);
    let e = lemma_chain_square(p, g, e, 0x1fb1a1081322, 0x1f5f9d8c6fa9, 0xc67475f45cf);
    let e = lemma_chain_square(p, g, e, 0xc67475f45cf, 0x4ce16a423f3, 0x1c8aabf23daa);
    let e = lemma_chain_square(p, g, e, 0x1c8aabf23daa, 0x197175eeb64d, 0x138bdf00975b);
    let e = lemma_chain_square(p, g, e, 0x138bdf00975b, 0xbeed08102b8, 0x1144fbc85001);
    let e = lemma_chain_multiply(p, g, e, 0x1144fbc85001, 1, 0x2857ca885d5);
    let e = lemma_chain_square(p, g, e, 0x2857ca885d5, 0x32d54d479d, 0xb135637aa0);
    let e = lemma_chain_square(p, g, e, 0xb135637aa0, 0x3d4cda4c0, 0x1684399b6e40);
    let e = lemma_chain_multiply(p, g, e, 0x1684399b6e40, 1, 0xd03f84ec253);
    let e = lemma_chain_square(p, g, e, 0xd03f84ec253, 0x54a7c9c247a, 0x522d85f1977);
    let e = lemma_chain_square(p, g, e, 0x522d85f1977, 0xd2ec079a64, 0x6d4e33629bd);
    let e = lemma_chain_square(p, g, e, 0x6d4e33629bd, 0x175293ec2e4, 0x1968ea16ab75);
    let e = lemma_chain_multiply(p, g, e, 0x1968ea16ab75, 1, 0x12cd59453cbd);
    let e = lemma_chain_square(p, g, e, 0x12cd59453cbd, 0xb0a9e724417, 0x10551672d57e);
    let e = lemma_chain_multiply(p, g, e, 0x10551672d57e, 1, 0xa5b1fd90cf);
    let e = lemma_chain_square(p, g, e, 0xa5b1fd90cf, 0x3597f577e, 0x77cc89a5a3b);
    let e = lemma_chain_multiply(p, g, e, 0x77cc89a5a3b, 0, 0xef99134b476);
    let e = lemma_chain_square(p, g, e, 0xef99134b476, 0x700fe66116f, 0x945b2d7cfe1);
    let e = lemma_chain_multiply(p, g, e, 0x945b2d7cfe1, 0, 0x128b65af9fc2);
    let e = lemma_chain_square(p, g, e, 0x128b65af9fc2, 0xabdb0ab0d9e, 0x13f3d24b1e3e);
    let e = lemma_chain_square(p, g, e, 0x13f3d24b1e3e, 0xc6f0ddd1ef0, 0xd8c2563c6d4);
}

/// A power of the root 2 modulo 0x20047ae81a2d.
proof fn lemma_power_35203613989421_3()
    ensures
        pow_mod(2, 0x4d3051be4, 0x20047ae81a2d) == 0x7205164f46b,
{
    let p = 0x20047ae81a2d;
    let g = 2;
    lemma_chain_start(p, g);
    let e: nat = 0;
    let e = lemma_chain_square(p, g, e, 1, 0, 1);
    let e = lemma_chain_multiply(p, g, e, 1, 0, 2);
    let e = lemma_chain_square(p, g, e, 2, 0, 4);
    let e = lemma_chain_square(p, g, e, 4, 0, 0x10);
    let e = lemma_chain_square(p, g, e, 0x10, 0, 0x100);
    let e = lemma_chain_multiply(p, g, e, 0x100, 0, 0x200);
    let e = lemma_chain_square(p, g, e, 0x200, 0, 0x40000);
    let e = lemma_chain_multiply(p, g, e, 0x40000, 0, 0x80000);
    let e = lemma_chain_square(p, g, e, 0x80000, 0, 0x4000000000);
    let e = lemma_chain_square(p, g, e, 0x4000000000, 0x7fee16e1, 0x10bb5eeb2073);
    let e = lemma_chain_multiply(p, g, e, 0x10bb5eeb2073, 1, 0x17242ee26b9);
    let e = lemma_chain_square(p, g, e, 0x17242ee26b9, 0x10b9d4d6d5, 0xfdeee940c40);
    let e = lemma_chain_square(p, g, e, 0xfdeee940c40, 0x7ddf6c9de98, 0x18ea1ebe7f48);
    let e = lemma_chain_square(p, g, e, 0x18ea1ebe7f48, 0x13632823d239, 0xd2aaedac63b);
    let e = lemma_chain_multiply(p, g, e, 0xd2aaedac63b, 0, 0x1a555db58c76);
    let e = lemma_chain_square(p, g, e, 0x1a555db58c76, 0x15a893bfa7fe, 0x1dceedfcf2be);
    let e = lemma_chain_multiply(p, g, e, 0x1dceedfcf2be, 1, 0x1b996111cb4f);
    let e = lemma_chain_square(p, g, e, 0x1b996111cb4f, 0x17ca5e4b881e, 0x1bcc99aa691b);
    let e = lemma_chain_square(p, g, e, 0x1bcc99aa691b, 0x1822fe656800, 0xca6c49fe0d9);
    let e = lemma_chain_square(p, g, e, 0xca6c49fe0d9, 0x4ffc5688b6b, 0x3b3b2891822);
    let e = lemma_chain_square(p, g, e, 0x3b3b2891822, 0x6d933bb2cc, 0x19cfec233ea8);
    let e = lemma_chain_square(p, g, e, 0x19cfec233ea8, 0x14cf3e201803, 0x16bf927947b9);
    let e = lemma_chain_square(p, g, e, 0x16bf927947b9, 0x1029a0fdd850, 0xf44a7e2fda1);
    let e = lemma_chain_multiply(p, g, e, 0xf44a7e2fda1, 0, 0x1e894fc5fb42);
    let e = lemma_chain_square(p, g, e, 0x1e894fc5fb42, 0x1d1faef525fe, 0x1e3f450b035e);
    let e = lemma_chain_square(p, g, e, 0x1e3f450b035e, 0x1c931e692393, 0x1112a4cf27ad);
    let e = lemma_chain_multiply(p, g, e, 0x1112a4cf27ad, 1, 0x220ceb6352d);
    let e = lemma_chain_square(p, g, e, 0x220ceb6352d, 0x243667875a, 0x8e47185bb17);
    let e = lemma_chain_square(p, g, e, 0x8e47185bb17, 0x2783f11e570, 0x1b2407ade761);
    let e = lemma_chain_square(p, g, e, 0x1b2407ade761, 0x1701bcf1a19b, 0x128c4df0c82);
    let e = lemma_chain_square(p, g, e, 0x128c4df0c82, 0xabebdbcbf, 0x5f8fb7ade71);
    let e = lemma_chain_multiply(p, g, e, 0x5f8fb7ade71, 0, 0xbf1f6f5bce2);
    let e = lemma_chain_square(p, g, e, 0xbf1f6f5bce2, 0x474dfa65cc1, 0xf2b2d5ecf97);
    let e = lemma_chain_multiply(p, g, e, 0xf2b2d5ecf97, 0, 0x1e565abd9f2e);
    let e = lemma_chain_square(p, g, e, 0x1e565abd9f2e, 0x1cbecceabd95, 0x3861759b713);
    let e = lemma_chain_square(p, g, e, 0x3861759b713, 0x63485e12f3, 0x1b57f77428b2);
    let e = lemma_chain_multiply(p, g, e, 0x1b57f77428b2, 1, 0x16ab74003737);
    let e = lemma_chain_square(p, g, e, 0x16ab74003737, 0x100d16d8848a, 0xd5b01535d8f);
    let e = lemma_chain_multiply(p, g, e, 0xd5b01535d8f, 0, 0x1ab602a6bb1e);
    let e = lemma_chain_square(p, g, e, 0x1ab602a6bb1e, 0x1648b0e0393e, 0x15fa62427b9e);
    let e = lemma_chain_multiply(p, g, e, 0x15fa62427b9e, 1, 0xbf0499cdd0f);
    let e = lemma_chain_square(p, g, e, 0xbf0499cdd0f, 0x4739f5facca, 0x1b9920bd035f);
    let e = lemma_chain_multiply(p, g, e, 0x1b9920bd035f, 1, 0x172dc691ec91);
    let e = lemma_chain_square(p, g, e, 0x172dc691ec91, 0x10c7b583449f, 0xa67efba742e);
    let e = lemma_chain_multiply(p, g, e, 0xa67efba742e, 0, 0x14cfdf74e85c);
    let e = lemma_chain_square(p, g, e, 0x14cfdf74e85c, 0xd8738ce718a, 0x7171164e7ce);
    let e = lemma_chain_square(p, g, e, 0x7171164e7ce, 0x191eff76aca, 0x1447ec6f2042);
    let e = lemma_chain_square(p, g, e, 0x1447ec6f2042, 0xcd8bcc3d25a, 0x15f015f37332);
    let e = lemma_chain_multiply(p, g, e, 0x15f015f37332, 1, 0xbdbb0fecc37);
    let e = lemma_chain_square(p, g, e, 0xbdbb0fecc37, 0x46450893fd8, 0x1c809baf8ad9);
    let e = lemma_chain_square(p, g, e, 0x1c809baf8ad9, 0x195f87ee675e, 0x7205164f46b);
}

/// A power of the root 2 modulo 0x20047ae81a2d.
proof fn lemma_power_35203613989421_4()
    ensures
        pow_mod(2, 0x84bc, 0x20047ae81a2d) == 0x68abd38c38,
{
    let p = 0x20047ae81a2d;
    let g = 2;
    lemma_chain_start(p, g);
    let e: nat = 0;
    let e = lemma_chain_square(p, g, e, 1, 0, 1);
    let e = lemma_chain_multiply(p, g, e, 1, 0, 2);
    let e = lemma_chain_square(p, g, e, 2, 0, 4);
    let e = lemma_chain_square(p, g, e, 4, 0, 0x10);
    let e = lemma_chain_square(p, g, e, 0x10, 0, 0x100);
    let e = lemma_chain_square(p, g, e, 0x100, 0, 0x10000);
    let e = lemma_chain_square(p, g, e, 0x10000, 0, 0x100000000);
    let e = lemma_chain_multiply(p, g, e, 0x100000000, 0, 0x200000000);
    let e = lemma_chain_square(p, g, e, 0x200000000, 0x1ffb85, 0x170f684d479f);
    let e = lemma_chain_square(p, g, e, 0x170f684d479f, 0x109bda1449e5, 0x36ddb155580);
    let e = lemma_chain_square(p, g, e, 0x36ddb155580, 0x5e050c9e85, 0x2f6edb4e09f);
    let e = lemma_chain_multiply(p, g, e, 0x2f6edb4e09f, 0, 0x5eddb69c13e);
    let e = lemma_chain_square(p, g, e, 0x5eddb69c13e, 0x1191536bcda, 0x1488d75d34b2);
    let e = lemma_chain_square(p, g, e, 0x1488d75d34b2, 0xd2b7e5ba040, 0x13b011cb2084);
    let e = lemma_chain_multiply(p, g, e, 0x13b011cb2084, 1, 0x75ba8ae26db);
    let e = lemma_chain_square(p, g, e, 0x75ba8ae26db, 0x1b0e3bbe916, 0xc3971f58a7b);
    let e = lemma_chain_multiply(p, g, e, 0xc3971f58a7b, 0, 0x1872e3eb14f6);
    let e = lemma_chain_square(p, g, e, 0x1872e3eb14f6, 0x12ab553f9b56, 0x1c598d765246);
    let e = lemma_chain_multiply(p, g, e, 0x1c598d765246, 1, 0x18aea0048a5f);
    let e = lemma_chain_square(p, g, e, 0x18aea0048a5f, 0x1306ff01926b, 0x52eb2a4f472);
    let e = lemma_chain_multiply(p, g, e, 0x52eb2a4f472, 0, 0xa5d6549e8e4);
    let e = lemma_chain_square(p, g, e, 0xa5d6549e8e4, 0x35af7a21524, 0x1b183fa2abbc);
    let e = lemma_chain_square(p, g, e, 0x1b183fa2abbc, 0x16edc7f89c38, 0x68abd38c38);
}

/// A power of a power of the root 2 modulo 0x20047ae81a2d.
proof fn lemma_power_35203613989421_5()
    ensures
        pow_mod(0x20047ae81a2c, 2, 0x20047ae81a2d) == 1,
{
    let p = 0x20047ae81a2d;
    let g = 0x20047ae81a2c;
    lemma_chain_start(p, g);
    let e: nat = 0;
    let e = lemma_chain_square(p, g, e, 1, 0, 1);
    let e = lemma_chain_multiply(p, g, e, 1, 0, 0x20047ae81a2c);
    let e = lemma_chain_square(p, g, e, 0x20047ae81a2c, 0x20047ae81a2b, 1);
}

/// 2 is a primitive root modulo 0x20047ae81a2d.
pub proof fn lemma_root_35203613989421()
    ensures
        is_primitive_root(2, 0x20047ae81a2d),
{
    let p = 0x20047ae81a2d;
    let g = 2;
    lemma_power_35203613989421_1();
    lemma_power_35203613989421_2();
    lemma_power_35203613989421_3();
    lemma_power_35203613989421_4();
    lemma_power_35203613989421_5();
    lemma_chain_rebase(p, g, 0x10023d740d16, 0x20047ae81a2c, 2, 1);
    lemma_two_is_prime();
    lemma_prime_5();
    lemma_prime_1699();
    lemma_prime_1036009829();
    assert forall|m: int| m >= 2 && #[trigger] (0x20047ae81a2cint % m) == 0 implies exists|f: int| #[trigger]
        refutes(2, 0x20047ae81a2c, 0x20047ae81a2d, m, f) by {
        lemma_euclid(m, 2, 0x10023d740d16);
        if m % 2 == 0 {
            assert(refutes(2, 0x20047ae81a2c, 0x20047ae81a2d, m, 2));
        } else {
            lemma_euclid(m, 2, 0x8011eba068b);
            lemma_euclid(m, 5, 0x199d2f2014f);
            if m % 5 == 0 {
                assert(refutes(2, 0x20047ae81a2c, 0x20047ae81a2d, m, 5));
            } else {
                lemma_euclid(m, 0x6a3, 0x3dc04165);
                if m % 0x6a3 == 0 {
                    assert(refutes(2, 0x20047ae81a2c, 0x20047ae81a2d, m, 0x6a3));
                } else {
                    lemma_euclid(m, 0x3dc04165, 1);
                    if m % 0x3dc04165 == 0 {
                        assert(refutes(2, 0x20047ae81a2c, 0x20047ae81a2d, m, 0x3dc04165));
                    } else {
                        lemma_small_mod(1, m as nat);
                    }
                }
            }
        }
    }
    lemma_lucas(0x20047ae81a2d, 0x20047ae81a2c, 2);
}

/// 0x20047ae81a2d is prime.
pub proof fn lemma_prime_35203613989421()
    ensures
        is_prime(0x20047ae81a2d),
{
    lemma_root_35203613989421();
    lemma_root_gives_prime(2, 0x20047ae81a2d);
}

/// A power of the root 3 modulo 0x2e0670ada5a0b1: the steps from the exponent
/// 0
/// to the exponent
/// 0xb819c2b6968.
proof fn lemma_power_12954929948106929_1_part_1(p: int, g: int)
    requires
        p == 0x2e0670ada5a0b1,
        g == 3,
        pow_mod(g, 0, p) == 1,
    ensures
        pow_mod(g, 0xb819c2b6968, p) == 0x13fc51895b3ef3,
{
    let e: nat = 0;
    let e = lemma_chain_square(p, g, e, 1, 0, 1);
    let e = lemma_chain_multiply(p, g, e, 1, 0, 3);
    let e = lemma_chain_square(p, g, e, 3, 0, 9);
    let e = lemma_chain_square(p, g, e, 9, 0, 0x51);
    let e = lemma_chain_multiply(p, g, e, 0x51, 0, 0xf3);
    let e = lemma_chain_square(p, g, e, 0xf3, 0, 0xe6a9);
    let e = lemma_chain_multiply(p, g, e, 0xe6a9, 0, 0x2b3fb);
    let e = lemma_chain_square(p, g, e, 0x2b3fb, 0, 0x74e74f819);
    let e = lemma_chain_multiply(p, g, e, 0x74e74f819, 0, 0x15eb5ee84b);
    let e = lemma_chain_square(p, g, e, 0x15eb5ee84b, 0xa7068, 0xecbbfd35b4e11);
    let e = lemma_chain_square(p, g, e, 0xecbbfd35b4e11, 0x4c1a9cdbc71a9, 0x216c6d20a32748);
    let e = lemma_chain_square(p, g, e, 0x216c6d20a32748, 0x1845b0a49cd594, 0x27d0ee8966d8ec);
    let e = lemma_chain_square(p, g, e, 0x27d0ee8966d8ec, 0x2271db168185d4, 0x17e017230911fc);
    let e = lemma_chain_square(p, g, e, 0x17e017230911fc, 0xc629ee713223e, 0x16e9a27b640332);
    let e = lemma_chain_square(p, g, e, 0x16e9a27b640332, 0xb6814890b35c5, 0x1d79d2ffc5e88f);
    let e = lemma_chain_square(p, g, e, 0x1d79d2ffc5e88f, 0x12e091d6e82b5a, 0x14af722cb946a7);
    let e = lemma_chain_multiply(p, g, e, 0x14af722cb946a7, 1, 0x1007e5d8863344);
    let e = lemma_chain_square(p, g, e, 0x1007e5d8863344, 0x59569d2651c64, 0x807bfeb5908ec);
    let e = lemma_chain_multiply(p, g, e, 0x807bfeb5908ec, 0, 0x18173fc20b1ac4);
    let e = lemma_chain_square(p, g, e, 0x18173fc20b1ac4, 0xc9c1b07e518e5, 0x1a3b38ee160fbb);
    let e = lemma_chain_square(p, g, e, 0x1a3b38ee160fbb, 0xef33d1f81faf7, 0x21fe92b72f8dd2);
    let e = lemma_chain_square(p, g, e, 0x21fe92b72f8dd2, 0x191bc4530009b3, 0x23a49dfd376b81);
    let e = lemma_chain_multiply(p, g, e, 0x23a49dfd376b81, 2, 0xee0f89c5b0121);
    let e = lemma_chain_square(p, g, e, 0xee0f89c5b0121, 0x4cf589698fe4c, 0x10c19503c3f3b5);
    let e = lemma_chain_multiply(p, g, e, 0x10c19503c3f3b5, 1, 0x43e4e5da63a6e);
    let e = lemma_chain_square(p, g, e, 0x43e4e5da63a6e, 0x64277a456972, 0x7a4d5d39edf72);
    let e = lemma_chain_multiply(p, g, e, 0x7a4d5d39edf72, 0, 0x16ee817adc9e56);
    let e = lemma_chain_square(p, g, e, 0x16ee817adc9e56, 0xb6ceea2144ad6, 0x171a24e502c6ee);
    let e = lemma_chain_square(p, g, e, 0x171a24e502c6ee, 0xb989424968c85, 0x2d4363aba9bd4f);
    let e = lemma_chain_square(p, g, e, 0x2d4363aba9bd4f, 0x2c839145a3d027, 0xa445fbcd736a);
    let e = lemma_chain_square(p, g, e, 0xa445fbcd736a, 0x24a536dc936, 0x2040736d54898e);
    let e = lemma_chain_square(p, g, e, 0x2040736d54898e, 0x1699a45dc45f73, 0x2620ffae8c6c41);
    let e = lemma_chain_multiply(p, g, e, 0x2620ffae8c6c41, 2, 0x16561db05a0361);
    let e = lemma_chain_square(p, g, e, 0x16561db05a0361, 0xad70c93b2a021, 0x2b8b7c7b6513f0);
    let e = lemma_chain_square(p, g, e, 0x2b8b7c7b6513f0, 0x2932bffbaa8a25, 0x296313bad3dd6b);
    let e = lemma_chain_multiply(p, g, e, 0x296313bad3dd6b, 2, 0x201c59d53056df);
    let e = lemma_chain_square(p, g, e, 0x201c59d53056df, 0x166728bc0a0eab, 0x2374d877c49206);
    let e = lemma_chain_square(p, g, e, 0x2374d877c49206, 0x1b5088f89361d0, 0x166ba9ea623754);
    let e = lemma_chain_multiply(p, g, e, 0x166ba9ea623754, 1, 0x153c8d1181054b);
    let e = lemma_chain_square(p, g, e, 0x153c8d1181054b, 0x9cc7c70d638c8, 0x1431d6a32fc1b1);
    let e = lemma_chain_multiply(p, g, e, 0x1431d6a32fc1b1, 1, 0xe8f133be9a462);
    let e = lemma_chain_square(p, g, e, 0xe8f133be9a462, 0x49af7233ec9e2, 0x1d09e15ab0e042);
    let e = lemma_chain_square(p, g, e, 0x1d09e15ab0e042, 0x12523fb38ce0ae, 0x21b3e1f03978b6);
    let e = lemma_chain_multiply(p, g, e, 0x21b3e1f03978b6, 2, 0x90ec4756128c0);
    let e = lemma_chain_square(p, g, e, 0x90ec4756128c0, 0x1c85482c20770, 0x17bee23fff6b90);
    let e = lemma_chain_multiply(p, g, e, 0x17bee23fff6b90, 1, 0x1936361258a1ff);
    let e = lemma_chain_square(p, g, e, 0x1936361258a1ff, 0xdcf808cab4270, 0x1799f7d3b3cc91);
    let e = lemma_chain_square(p, g, e, 0x1799f7d3b3cc91, 0xc1a496880a15d, 0x19d6973c82b8d4);
    let e = lemma_chain_multiply(p, g, e, 0x19d6973c82b8d4, 1, 0x1f7d5507e289cb);
    let e = lemma_chain_square(p, g, e, 0x1f7d5507e289cb, 0x158b6ade4c2d9b, 0x563403b837ece);
    let e = lemma_chain_square(p, g, e, 0x563403b837ece, 0xa1747664650b, 0x591abcffbb129);
    let e = lemma_chain_square(p, g, e, 0x591abcffbb129, 0xac8176397705, 0xfb6ac6fa84e1c);
    let e = lemma_chain_multiply(p, g, e, 0xfb6ac6fa84e1c, 1, 0x11d94a15349a3);
    let e = lemma_chain_square(p, g, e, 0x11d94a15349a3, 0x6ebfe4ba38f, 0xbb3db42fe7ea);
    let e = lemma_chain_square(p, g, e, 0xbb3db42fe7ea, 0x2f9bd7180a6, 0x1ca8d105246f1e);
    let e = lemma_chain_multiply(p, g, e, 0x1ca8d105246f1e, 1, 0x27f40261c7aca9);
    let e = lemma_chain_square(p, g, e, 0x27f40261c7aca9, 0x22aea6a9b18306, 0xd105b2eb4306b);
    let e = lemma_chain_multiply(p, g, e, 0xd105b2eb4306b, 0, 0x2731118c1c9141);
    let e = lemma_chain_square(p, g, e, 0x2731118c1c9141, 0x215f6e55eab79b, 0x26898900b1e056);
    let e = lemma_chain_square(p, g, e, 0x26898900b1e056, 0x20447ea318ee3a, 0x2794b6e4ffa6ca);
    let e = lemma_chain_multiply(p, g, e, 0x2794b6e4ffa6ca, 2, 0x1ab14353b3b2fc);
    let e = lemma_chain_square(p, g, e, 0x1ab14353b3b2fc, 0xf7af8e461e64b, 0x18b8bdfc954e35);
    let e = lemma_chain_square(p, g, e, 0x18b8bdfc954e35, 0xd4760f7b23691, 0xca446accefcb8);
    let e = lemma_chain_square(p, g, e, 0xca446accefcb8, 0x378e7f5a7b55d, 0x13fc51895b3ef3);
}

/// A power of the root 3 modulo 0x2e0670ada5a0b1: the steps from the exponent
/// 0xb819c2b6968
/// to the exponent
/// 0x17033856d2d058.
proof fn lemma_power_12954929948106929_1_part_2(p: int, g: int)
    requires
        p == 0x2e0670ada5a0b1,
        g == 3,
        pow_mod(g, 0xb819c2b6968, p) == 0x13fc51895b3ef3,
    ensures
        pow_mod(g, 0x17033856d2d058, p) == 0x2e0670ada5a0b0,
{
    let e: nat = 0xb819c2b6968;
    let e = lemma_chain_square(p, g, e, 0x13fc51895b3ef3, 0x8adabfb154f3e, 0xd1c6d020410cb);
    let e = lemma_chain_square(p, g, e, 0xd1c6d020410cb, 0x3bc225c4b3f25, 0x96365281b3864);
    let e = lemma_chain_square(p, g, e, 0x96365281b3864, 0x1ea3f4810a5fa, 0x18ac5c0a22e536);
    let e = lemma_chain_multiply(p, g, e, 0x18ac5c0a22e536, 1, 0x1bfea370c30ef1);
    let e = lemma_chain_square(p, g, e, 0x1bfea370c30ef1, 0x110716cfc61aac, 0x7de01be854df5);
    let e = lemma_chain_square(p, g, e, 0x7de01be854df5, 0x1584292b02f32, 0x229e0305c56ae7);
    let e = lemma_chain_multiply(p, g, e, 0x229e0305c56ae7, 2, 0xbcd27b604ff53);
    let e = lemma_chain_square(p, g, e, 0xbcd27b604ff53, 0x306a8cfd309d8, 0x1dc8a515f5a691);
    let e = lemma_chain_multiply(p, g, e, 0x1dc8a515f5a691, 1, 0x2b537e943b5302);
    let e = lemma_chain_square(p, g, e, 0x2b537e943b5302, 0x28c911328ecfb3, 0x18ba7ca1e9d141);
    let e = lemma_chain_square(p, g, e, 0x18ba7ca1e9d141, 0xd4940d9b8e5c8, 0xf6cdbfb015339);
    let e = lemma_chain_square(p, g, e, 0xf6cdbfb015339, 0x52b739ecdaa51, 0x2e0670ada5a0b0);
}

/// A power of the root 3 modulo 0x2e0670ada5a0b1.
proof fn lemma_power_12954929948106929_1()
    ensures
        pow_mod(3, 0x17033856d2d058, 0x2e0670ada5a0b1) == 0x2e0670ada5a0b0,
{
    let p = 0x2e0670ada5a0b1;
    let g = 3;
    lemma_chain_start(p, g);
    lemma_power_12954929948106929_1_part_1(p, g);
    lemma_power_12954929948106929_1_part_2(p, g);
}

/// A power of the root 3 modulo 0x2e0670ada5a0b1: the steps from the exponent
/// 0
/// to the exponent
/// 0x20047ae81a2d.
proof fn lemma_power_12954929948106929_2_part_1(p: int, g: int)
    requires
        p == 0x2e0670ada5a0b1,
        g == 3,
        pow_mod(g, 0, p) == 1,
    ensures
        pow_mod(g, 0x20047ae81a2d, p) == 0x1c6d2bdd51c535,
{
    let e: nat = 0;
    let e = lemma_chain_square(p, g, e, 1, 0, 1);
    let e = lemma_chain_multiply(p, g, e, 1, 0, 3);
    let e = lemma_chain_square(p, g, e, 3, 0, 9);
    let e = lemma_chain_square(p, g, e, 9, 0, 0x51);
    let e = lemma_chain_square(p, g, e, 0x51, 0, 0x19a1);
    let e = lemma_chain_square(p, g, e, 0x19a1, 0, 0x290d741);
    let e = lemma_chain_square(p, g, e, 0x290d741, 0, 0x6954fe21e3e81);
    let e = lemma_chain_square(p, g, e, 0x6954fe21e3e81, 0xf10f6569601c, 0xa9567a185c9a5);
    let e = lemma_chain_square(p, g, e, 0xa9567a185c9a5, 0x26f08ffddf256, 0x298cbdbeee36e3);
    let e = lemma_chain_square(p, g, e, 0x298cbdbeee36e3, 0x25827290ee5c33, 0x6f845fb8bee06);
    let e = lemma_chain_square(p, g, e, 0x6f845fb8bee06, 0x10e338ce953d8, 0x235835d7e12fcc);
    let e = lemma_chain_square(p, g, e, 0x235835d7e12fcc, 0x1b247c31036f32, 0x197b1a376b68fe);
    let e = lemma_chain_square(p, g, e, 0x197b1a376b68fe, 0xe1b61333538af, 0x232e649c5ecb05);
    let e = lemma_chain_multiply(p, g, e, 0x232e649c5ecb05, 2, 0xd7e4c79d11fad);
    let e = lemma_chain_square(p, g, e, 0xd7e4c79d11fad, 0x3f4b56de4d590, 0x2978e4fe3b259);
    let e = lemma_chain_square(p, g, e, 0x2978e4fe3b259, 0x255ea5b39d61, 0x2ddec4e40472e0);
    let e = lemma_chain_square(p, g, e, 0x2ddec4e40472e0, 0x2db73b4c181da0, 0x208693e33bc860);
    let e = lemma_chain_square(p, g, e, 0x208693e33bc860, 0x16fc574d7f2f2d, 0xb113955a965e3);
    let e = lemma_chain_multiply(p, g, e, 0xb113955a965e3, 0, 0x2133ac00fc31a9);
    let e = lemma_chain_square(p, g, e, 0x2133ac00fc31a9, 0x17f3887bcf8d0f, 0x93b216e053a32);
    let e = lemma_chain_multiply(p, g, e, 0x93b216e053a32, 0, 0x1bb1644a0fae96);
    let e = lemma_chain_square(p, g, e, 0x1bb1644a0fae96, 0x10a9a017538ce6, 0x12051f0d9214de);
    let e = lemma_chain_multiply(p, g, e, 0x12051f0d9214de, 1, 0x808ec7b109de9);
    let e = lemma_chain_square(p, g, e, 0x808ec7b109de9, 0x1671694d4cfe2, 0x1c4e4264cca2cf);
    let e = lemma_chain_multiply(p, g, e, 0x1c4e4264cca2cf, 1, 0x26e45680c047bc);
    let e = lemma_chain_square(p, g, e, 0x26e45680c047bc, 0x20dd41152bf51d, 0x14fe92fcd23903);
    let e = lemma_chain_square(p, g, e, 0x14fe92fcd23903, 0x9939e51ee2baa, 0x1ac3bf615e57f);
    let e = lemma_chain_multiply(p, g, e, 0x1ac3bf615e57f, 0, 0x504b3e241b07d);
    let e = lemma_chain_square(p, g, e, 0x504b3e241b07d, 0x8c13f97cd8a7, 0x1f8e97c7c8f192);
    let e = lemma_chain_square(p, g, e, 0x1f8e97c7c8f192, 0x15a30fcc6bf186, 0x26d76d4d20799e);
    let e = lemma_chain_multiply(p, g, e, 0x26d76d4d20799e, 2, 0x1879668c162b78);
    let e = lemma_chain_square(p, g, e, 0x1879668c162b78, 0xd03ac6eb08d6a, 0x1403f4183b81f6);
    let e = lemma_chain_multiply(p, g, e, 0x1403f4183b81f6, 1, 0xe056b9b0ce531);
    let e = lemma_chain_square(p, g, e, 0xe056b9b0ce531, 0x4457c863f2af4, 0x2686a7bfff80ad);
    let e = lemma_chain_multiply(p, g, e, 0x2686a7bfff80ad, 2, 0x178715e4b340a5);
    let e = lemma_chain_square(p, g, e, 0x178715e4b340a5, 0xc06f3872781da, 0x17ac4b3815e29f);
    let e = lemma_chain_square(p, g, e, 0x17ac4b3815e29f, 0xc2d1c24a6342b, 0x579a0a0772d06);
    let e = lemma_chain_multiply(p, g, e, 0x579a0a0772d06, 0, 0x106ce1e1658712);
    let e = lemma_chain_square(p, g, e, 0x106ce1e1658712, 0x5dca03ecc48e0, 0x22e2600e4d9a64);
    let e = lemma_chain_square(p, g, e, 0x22e2600e4d9a64, 0x1a70aed4a26740, 0x1a492fdc3313d0);
    let e = lemma_chain_square(p, g, e, 0x1a492fdc3313d0, 0xf032c50687e5d, 0xeef4b343e0ab3);
    let e = lemma_chain_square(p, g, e, 0xeef4b343e0ab3, 0x4d89faed8b4f8, 0x230e1c565e59b1);
    let e = lemma_chain_square(p, g, e, 0x230e1c565e59b1, 0x1ab3249866c1bf, 0x2add7a5e2a3752);
    let e = lemma_chain_square(p, g, e, 0x2add7a5e2a3752, 0x27ec0ecc3ef43f, 0x15aa9db1316b5);
    let e = lemma_chain_square(p, g, e, 0x15aa9db1316b5, 0xa3315ad20ec, 0x29074c297e58cd);
    let e = lemma_chain_multiply(p, g, e, 0x29074c297e58cd, 2, 0x1f0903212fc905);
    let e = lemma_chain_square(p, g, e, 0x1f0903212fc905, 0x14ed65d801fc35, 0x17a89c1855974);
    let e = lemma_chain_multiply(p, g, e, 0x17a89c1855974, 0, 0x46f9d44900c5c);
    let e = lemma_chain_square(p, g, e, 0x46f9d44900c5c, 0x6d73e43932ee, 0x710499351ca82);
    let e = lemma_chain_square(p, g, e, 0x710499351ca82, 0x11586003e1623, 0x2486c02e233bd1);
    let e = lemma_chain_multiply(p, g, e, 0x2486c02e233bd1, 2, 0x11875f2f1e7211);
    let e = lemma_chain_square(p, g, e, 0x11875f2f1e7211, 0x6ad06db415b9f, 0x2c91be3ae06c32);
    let e = lemma_chain_square(p, g, e, 0x2c91be3ae06c32, 0x2b28d5c388c42a, 0x299be3affe58ba);
    let e = lemma_chain_square(p, g, e, 0x299be3affe58ba, 0x259dd14515e17a, 0x169526452941ca);
    let e = lemma_chain_square(p, g, e, 0x169526452941ca, 0xb149156786e81, 0x2664d093222c33);
    let e = lemma_chain_multiply(p, g, e, 0x2664d093222c33, 2, 0x1721905e1b4337);
    let e = lemma_chain_square(p, g, e, 0x1721905e1b4337, 0xba00834113ce4, 0x1dcea8a523c2d);
    let e = lemma_chain_square(p, g, e, 0x1dcea8a523c2d, 0x134dd77536eb, 0x2a809ab024476e);
    let e = lemma_chain_multiply(p, g, e, 0x2a809ab024476e, 2, 0x2374eeb52194e8);
    let e = lemma_chain_square(p, g, e, 0x2374eeb52194e8, 0x1b50ab3c9e0200, 0x2c1aded5edb040);
    let e = lemma_chain_multiply(p, g, e, 0x2c1aded5edb040, 2, 0x2843bb267dcf5e);
    let e = lemma_chain_square(p, g, e, 0x2843bb267dcf5e, 0x2339995293c56b, 0x621a2113fc789);
    let e = lemma_chain_square(p, g, e, 0x621a2113fc789, 0xd11a76bc540a, 0x979b949c5ec67);
    let e = lemma_chain_multiply(p, g, e, 0x979b949c5ec67, 0, 0x1c6d2bdd51c535);
}

/// A power of the root 3 modulo 0x2e0670ada5a0b1: the steps from the exponent
/// 0x20047ae81a2d
/// to the exponent
/// 0x20047ae81a2d0.
proof fn lemma_power_12954929948106929_2_part_2(p: int, g: int)
    requires
        p == 0x2e0670ada5a0b1,
        g == 3,
        pow_mod(g, 0x20047ae81a2d, p) == 0x1c6d2bdd51c535,
    ensures
        pow_mod(g, 0x20047ae81a2d0, p) == 0x2a66b8f24bc6e8,
{
    let e: nat = 0x20047ae81a2d;
    let e = lemma_chain_square(p, g, e, 0x1c6d2bdd51c535, 0x118e96b77f8496, 0x14ea1b80be3143);
    let e = lemma_chain_square(p, g, e, 0x14ea1b80be3143, 0x980fb6d493920, 0x2ca2c163fa3869);
    let e = lemma_chain_square(p, g, e, 0x2ca2c163fa3869, 0x2b49ceda223342, 0x709c9a496a6f);
    let e = lemma_chain_square(p, g, e, 0x709c9a496a6f, 0x113882e5f09, 0x2a66b8f24bc6e8);
}

/// A power of the root 3 modulo 0x2e0670ada5a0b1.
proof fn lemma_power_12954929948106929_2()
    ensures
        pow_mod(3, 0x20047ae81a2d0, 0x2e0670ada5a0b1) == 0x2a66b8f24bc6e8,
{
    let p = 0x2e0670ada5a0b1;
    let g = 3;
    lemma_chain_start(p, g);
    lemma_power_12954929948106929_2_part_1(p, g);
    lemma_power_12954929948106929_2_part_2(p, g);
}

/// A power of the root 3 modulo 0x2e0670ada5a0b1.
proof fn lemma_power_12954929948106929_3()
    ensures
        pow_mod(3, 0x170, 0x2e0670ada5a0b1) == 0x17e017230911fc,
{
    let p = 0x2e0670ada5a0b1;
    let g = 3;
    lemma_chain_start(p, g);
    let e: nat = 0;
    let e = lemma_chain_square(p, g, e, 1, 0, 1);
    let e = lemma_chain_multiply(p, g, e, 1, 0, 3);
    let e = lemma_chain_square(p, g, e, 3, 0, 9);
    let e = lemma_chain_square(p, g, e, 9, 0, 0x51);
    let e = lemma_chain_multiply(p, g, e, 0x51, 0, 0xf3);
    let e = lemma_chain_square(p, g, e, 0xf3, 0, 0xe6a9);
    let e = lemma_chain_multiply(p, g, e, 0xe6a9, 0, 0x2b3fb);
    let e = lemma_chain_square(p, g, e, 0x2b3fb, 0, 0x74e74f819);
    let e = lemma_chain_multiply(p, g, e, 0x74e74f819, 0, 0x15eb5ee84b);
    let e = lemma_chain_square(p, g, e, 0x15eb5ee84b, 0xa7068, 0xecbbfd35b4e11);
    let e = lemma_chain_square(p, g, e, 0xecbbfd35b4e11, 0x4c1a9cdbc71a9, 0x216c6d20a32748);
    let e = lemma_chain_square(p, g, e, 0x216c6d20a32748, 0x1845b0a49cd594, 0x27d0ee8966d8ec);
    let e = lemma_chain_square(p, g, e, 0x27d0ee8966d8ec, 0x2271db168185d4, 0x17e017230911fc);
}

/// A power of a power of the root 3 modulo 0x2e0670ada5a0b1.
proof fn lemma_power_12954929948106929_4()
    ensures
        pow_mod(0x2e0670ada5a0b0, 2, 0x2e0670ada5a0b1) == 1,
{
    let p = 0x2e0670ada5a0b1;
    let g = 0x2e0670ada5a0b0;
    lemma_chain_start(p, g);
    let e: nat = 0;
    let e = lemma_chain_square(p, g, e, 1, 0, 1);
    let e = lemma_chain_multiply(p, g, e, 1, 0, 0x2e0670ada5a0b0);
    let e = lemma_chain_square(p, g, e, 0x2e0670ada5a0b0, 0x2e0670ada5a0af, 1);
}

/// 3 is a primitive root modulo 0x2e0670ada5a0b1.
pub proof fn lemma_root_12954929948106929()
    ensures
        is_primitive_root(3, 0x2e0670ada5a0b1),
{
    let p = 0x2e0670ada5a0b1;
    let g = 3;
    lemma_power_12954929948106929_1();
    lemma_power_12954929948106929_2();
    lemma_power_12954929948106929_3();
    lemma_power_12954929948106929_4();
    lemma_chain_rebase(p, g, 0x17033856d2d058, 0x2e0670ada5a0b0, 2, 1);
    lemma_two_is_prime();
    lemma_prime_23();
    lemma_prime_35203613989421();
    assert forall|m: int| m >= 2 && #[trigger] (0x2e0670ada5a0b0int % m) == 0 implies exists|f: int| #[trigger]
        refutes(3, 0x2e0670ada5a0b0, 0x2e0670ada5a0b1, m, f) by {
        lemma_euclid(m, 2, 0x17033856d2d058);
        if m % 2 == 0 {
            assert(refutes(3, 0x2e0670ada5a0b0, 0x2e0670ada5a0b1, m, 2));
        } else {
            lemma_euclid(m, 2, 0xb819c2b69682c);
            lemma_euclid(m, 2, 0x5c0ce15b4b416);
            lemma_euclid(m, 2, 0x2e0670ada5a0b);
            lemma_euclid(m, 0x17, 0x20047ae81a2d);
            if m % 0x17 == 0 {
                assert(refutes(3, 0x2e0670ada5a0b0, 0x2e0670ada5a0b1, m, 0x17));
            } else {
                lemma_euclid(m, 0x20047ae81a2d, 1);
                if m % 0x20047ae81a2d == 0 {
                    assert(refutes(3, 0x2e0670ada5a0b0, 0x2e0670ada5a0b1, m, 0x20047ae81a2d));
                } else {
                    lemma_small_mod(1, m as nat);
                }
            }
        }
    }
    lemma_lucas(0x2e0670ada5a0b1, 0x2e0670ada5a0b0, 3);
}

/// 0x2e0670ada5a0b1 is prime.
pub proof fn lemma_prime_12954929948106929()
    ensures
        is_prime(0x2e0670ada5a0b1),
{
    lemma_root_12954929948106929();
    lemma_root_gives_prime(3, 0x2e0670ada5a0b1);
}

/// A power of the root 6 modulo 0x17bb52198966db45: the steps from the exponent
/// 0
/// to the exponent
/// 0x5eed4866258.
proof fn lemma_power_1710050753150114629_1_part_1(p: int, g: int)
    requires
        p == 0x17bb52198966db45,
        g == 6,
        pow_mod(g, 0, p) == 1,
    ensures
        pow_mod(g, 0x5eed4866258, p) == 0x48c8377fb3c8734,
{
    let e: nat = 0;
    let e = lemma_chain_square(p, g, e, 1, 0, 1);
    let e = lemma_chain_multiply(p, g, e, 1, 0, 6);
    let e = lemma_chain_square(p, g, e, 6, 0, 0x24);
    let e = lemma_chain_square(p, g, e, 0x24, 0, 0x510);
    let e = lemma_chain_multiply(p, g, e, 0x510, 0, 0x1e60);
    let e = lemma_chain_square(p, g, e, 0x1e60, 0, 0x39aa400);
    let e = lemma_chain_multiply(p, g, e, 0x39aa400, 0, 0x159fd800);
    let e = lemma_chain_square(p, g, e, 0x159fd800, 0, 0x1d39d3e06400000);
    let e = lemma_chain_multiply(p, g, e, 0x1d39d3e06400000, 0, 0xaf5af7425800000);
    let e = lemma_chain_square(p, g, e, 0xaf5af7425800000, 0x50fb6757a3e3ea6, 0x148a4439017d1b42);
    let e = lemma_chain_multiply(p, g, e, 0x148a4439017d1b42, 5, 0x494fed659ec5b33);
    let e = lemma_chain_square(p, g, e, 0x494fed659ec5b33, 0xe27a066ed2af24, 0x169f02b95904b75);
    let e = lemma_chain_square(p, g, e, 0x169f02b95904b75, 0x1590016e62610c, 0x1435055a2b8c573d);
    let e = lemma_chain_multiply(p, g, e, 0x1435055a2b8c573d, 5, 0x295859d5647c315);
    let e = lemma_chain_square(p, g, e, 0x295859d5647c315, 0x4807ede6bfb84f, 0x144ee5affb7cbd6e);
    let e = lemma_chain_multiply(p, g, e, 0x144ee5affb7cbd6e, 5, 0x330c7a035ea283b);
    let e = lemma_chain_square(p, g, e, 0x330c7a035ea283b, 0x6dcf4959e7cde5, 0xb97dafee15317e0);
    let e = lemma_chain_multiply(p, g, e, 0xb97dafee15317e0, 2, 0x16187dc63524d8b6);
    let e = lemma_chain_square(p, g, e, 0x16187dc63524d8b6, 0x1492892949f64828, 0x1689d1843f97f69c);
    let e = lemma_chain_square(p, g, e, 0x1689d1843f97f69c, 0x1567adb6a9e6a537, 0x1453832442d9a3d);
    let e = lemma_chain_multiply(p, g, e, 0x1453832442d9a3d, 0, 0x79f512d99119d6e);
    let e = lemma_chain_square(p, g, e, 0x79f512d99119d6e, 0x272bd19a6278427, 0x15785bbba82e1fc1);
    let e = lemma_chain_multiply(p, g, e, 0x15785bbba82e1fc1, 5, 0xa298be64212762d);
    let e = lemma_chain_square(p, g, e, 0xa298be64212762d, 0x45a05c417fc0469, 0x1015f1ba0758809c);
    let e = lemma_chain_square(p, g, e, 0x1015f1ba0758809c, 0xae73473253fc0f1, 0x37ced39c699331b);
    let e = lemma_chain_multiply(p, g, e, 0x37ced39c699331b, 0, 0x14ed8f5aa79732a2);
    let e = lemma_chain_square(p, g, e, 0x14ed8f5aa79732a2, 0x1274991fe6193fb5, 0x16303fff43b3abbb);
    let e = lemma_chain_square(p, g, e, 0x16303fff43b3abbb, 0x14bedec84223b0de, 0x12f9806bda54c4c3);
    let e = lemma_chain_multiply(p, g, e, 0x12f9806bda54c4c3, 4, 0x12ebba20f8612f7e);
    let e = lemma_chain_square(p, g, e, 0x12ebba20f8612f7e, 0xf15cd934455d027, 0x5180bdd838f0a81);
    let e = lemma_chain_square(p, g, e, 0x5180bdd838f0a81, 0x117e8b38c5993f1, 0xa541b8b61d24a0c);
    let e = lemma_chain_square(p, g, e, 0xa541b8b61d24a0c, 0x47ec576e0c9954a, 0x15eb551b8a93659e);
    let e = lemma_chain_multiply(p, g, e, 0x15eb551b8a93659e, 5, 0xcdb64259072195b);
    let e = lemma_chain_square(p, g, e, 0xcdb64259072195b, 0x6f7286b3604584f, 0xfc098df3a5d840e);
    let e = lemma_chain_square(p, g, e, 0xfc098df3a5d840e, 0xa74b46af554b000, 0x14b1cfc1dbe700c4);
    let e = lemma_chain_square(p, g, e, 0x14b1cfc1dbe700c4, 0x120bce8364f18274, 0x1325be26dbcf30cc);
    let e = lemma_chain_square(p, g, e, 0x1325be26dbcf30cc, 0xf72ddd28dc48669, 0x7381e38e76b1543);
    let e = lemma_chain_square(p, g, e, 0x7381e38e76b1543, 0x23232fdcbd9b8dc, 0x1cc50851b4b083d);
    let e = lemma_chain_multiply(p, g, e, 0x1cc50851b4b083d, 0, 0xac9e31ea3c2316e);
    let e = lemma_chain_square(p, g, e, 0xac9e31ea3c2316e, 0x4e793339f2824b7, 0x73898743b1ed8f1);
    let e = lemma_chain_multiply(p, g, e, 0x73898743b1ed8f1, 1, 0x1398409fd9523a61);
    let e = lemma_chain_square(p, g, e, 0x1398409fd9523a61, 0x102dcddd29a92c63, 0x314a8cc47707112);
    let e = lemma_chain_square(p, g, e, 0x314a8cc47707112, 0x6660f43a262850, 0xc512ea1ed0b97b4);
    let e = lemma_chain_square(p, g, e, 0xc512ea1ed0b97b4, 0x6648c727df3e74a, 0x10452b075048319e);
    let e = lemma_chain_multiply(p, g, e, 0x10452b075048319e, 4, 0x2b1b9c5bc15bca0);
    let e = lemma_chain_square(p, g, e, 0x2b1b9c5bc15bca0, 0x4e4dce8be7d51c, 0xd533ba18f47ff74);
    let e = lemma_chain_multiply(p, g, e, 0xd533ba18f47ff74, 3, 0x8c16f7cbf7b6ae9);
    let e = lemma_chain_square(p, g, e, 0x8c16f7cbf7b6ae9, 0x33af52a3fd26de2, 0xa5fa20ba4c7d427);
    let e = lemma_chain_square(p, g, e, 0xa5fa20ba4c7d427, 0x488d34d5a3ac952, 0xfd0c4f2c7b534d7);
    let e = lemma_chain_square(p, g, e, 0xfd0c4f2c7b534d7, 0xa8a3787c0edf4f3, 0x96044a2d06d2612);
    let e = lemma_chain_square(p, g, e, 0x96044a2d06d2612, 0x3b44f5814399db8, 0x169d53cfa4396eac);
    let e = lemma_chain_multiply(p, g, e, 0x169d53cfa4396eac, 5, 0x11075c5e2a564faf);
    let e = lemma_chain_square(p, g, e, 0x11075c5e2a564faf, 0xc3811d8bd865913, 0x1489502862663682);
    let e = lemma_chain_square(p, g, e, 0x1489502862663682, 0x11c572149ede1dfc, 0xa8d7f8c5f467118);
    let e = lemma_chain_square(p, g, e, 0xa8d7f8c5f467118, 0x4b144cac45b0e03, 0x31491ded95cda71);
    let e = lemma_chain_multiply(p, g, e, 0x31491ded95cda71, 0, 0x127b6b39182d1ea6);
    let e = lemma_chain_square(p, g, e, 0x127b6b39182d1ea6, 0xe64cc10311d5acf, 0x13e099bb9af4c4d9);
    let e = lemma_chain_square(p, g, e, 0x13e099bb9af4c4d9, 0x10a623541e247ea8, 0x10ee29b331e524a9);
    let e = lemma_chain_multiply(p, g, e, 0x10ee29b331e524a9, 4, 0x6a7b1cd05c36ee2);
    let e = lemma_chain_square(p, g, e, 0x6a7b1cd05c36ee2, 0x1ddc3d1587606a8, 0x11e6946291e17c3c);
    let e = lemma_chain_multiply(p, g, e, 0x11e6946291e17c3c, 4, 0xc7a31e945ad7c54);
    let e = lemma_chain_square(p, g, e, 0xc7a31e945ad7c54, 0x68f65e3c8e71c5d, 0x9bed6e3a04d477f);
    let e = lemma_chain_square(p, g, e, 0x9bed6e3a04d477f, 0x400826da124a2cc, 0x111ad1e206f14c05);
    let e = lemma_chain_square(p, g, e, 0x111ad1e206f14c05, 0xc540ecc59d1c921, 0x48c8377fb3c8734);
}

/// A power of the root 6 modulo 0x17bb52198966db45: the steps from the exponent
/// 0x5eed4866258
/// to the exponent
/// 0xbdda90cc4b36da2.
proof fn lemma_power_1710050753150114629_1_part_2(p: int, g: int)
    requires
        p == 0x17bb52198966db45,
        g == 6,
        pow_mod(g, 0x5eed4866258, p) == 0x48c8377fb3c8734,
    ensures
        pow_mod(g, 0xbdda90cc4b36da2, p) == 0x17bb52198966db44,
{
    let e: nat = 0x5eed4866258;
    let e = lemma_chain_multiply(p, g, e, 0x48c8377fb3c8734, 1, 0x38fc2b65a044ff3);
    let e = lemma_chain_square(p, g, e, 0x38fc2b65a044ff3, 0x88d5601e46de8e, 0x6950fca007e6a63);
    let e = lemma_chain_multiply(p, g, e, 0x6950fca007e6a63, 1, 0xfc30ca2798fa30d);
    let e = lemma_chain_square(p, g, e, 0xfc30ca2798fa30d, 0xa77f60c2584c647, 0x1386dbdd28ad6086);
    let e = lemma_chain_square(p, g, e, 0x1386dbdd28ad6086, 0x1011218748be323b, 0x125837d392c2c33d);
    let e = lemma_chain_multiply(p, g, e, 0x125837d392c2c33d, 4, 0xf24068f4af5265a);
    let e = lemma_chain_square(p, g, e, 0xf24068f4af5265a, 0x9a8e2c77cd74873, 0xde311223c2fefa5);
    let e = lemma_chain_multiply(p, g, e, 0xde311223c2fefa5, 3, 0xc207080cceb0c0f);
    let e = lemma_chain_square(p, g, e, 0xc207080cceb0c0f, 0x63257e39df3f042, 0x16692456be873117);
    let e = lemma_chain_square(p, g, e, 0x16692456be873117, 0x1529c9a653ddf908, 0x1518ada4f39dd8e9);
    let e = lemma_chain_multiply(p, g, e, 0x1518ada4f39dd8e9, 5, 0x7eb775e06b0cd1d);
    let e = lemma_chain_square(p, g, e, 0x7eb775e06b0cd1d, 0x2a49c061e2db850, 0xf93f3e2895857b9);
    let e = lemma_chain_multiply(p, g, e, 0xf93f3e2895857b9, 3, 0x1645c1029bdd7c87);
    let e = lemma_chain_square(p, g, e, 0x1645c1029bdd7c87, 0x14e7285339ff8478, 0xddb2a107fa7b2d9);
    let e = lemma_chain_square(p, g, e, 0xddb2a107fa7b2d9, 0x817103e76dce64c, 0xa1c273ab13b6575);
    let e = lemma_chain_multiply(p, g, e, 0xa1c273ab13b6575, 2, 0xd32472d1496aa34);
    let e = lemma_chain_square(p, g, e, 0xd32472d1496aa34, 0x7568b7bbd94e456, 0xc700e188d5dfd62);
    let e = lemma_chain_multiply(p, g, e, 0xc700e188d5dfd62, 3, 0x36e5e46b3ff5e7d);
    let e = lemma_chain_square(p, g, e, 0x36e5e46b3ff5e7d, 0x7efe875517e132, 0x99b840d54e4908f);
    let e = lemma_chain_square(p, g, e, 0x99b840d54e4908f, 0x3e3b418d45ef423, 0x694ad302ef57172);
    let e = lemma_chain_multiply(p, g, e, 0x694ad302ef57172, 1, 0xfc0bd079059cd67);
    let e = lemma_chain_square(p, g, e, 0xfc0bd079059cd67, 0xa74e46b45fc5a9a, 0x10d5065b1489f5ef);
    let e = lemma_chain_square(p, g, e, 0x10d5065b1489f5ef, 0xbf03fd5905d05d9, 0x11c99c3e8b881ea4);
    let e = lemma_chain_square(p, g, e, 0x11c99c3e8b881ea4, 0xd550c88f06e0f24, 0x516960768f4f85c);
    let e = lemma_chain_square(p, g, e, 0x516960768f4f85c, 0x117484e4ec523ec, 0xda6e1eda36cce74);
    let e = lemma_chain_multiply(p, g, e, 0xda6e1eda36cce74, 3, 0xab75545385844e9);
    let e = lemma_chain_square(p, g, e, 0xab75545385844e9, 0x4d6c3127cc2e3e9, 0x17bb52198966db44);
}

/// A power of the root 6 modulo 0x17bb52198966db45.
proof fn lemma_power_1710050753150114629_1()
    ensures
        pow_mod(6, 0xbdda90cc4b36da2, 0x17bb52198966db45) == 0x17bb52198966db44,
{
    let p = 0x17bb52198966db45;
    let g = 6;
    lemma_chain_start(p, g);
    lemma_power_1710050753150114629_1_part_1(p, g);
    lemma_power_1710050753150114629_1_part_2(p, g);
}

/// A power of the root 6 modulo 0x17bb52198966db45: the steps from the exponent
/// 0
/// to the exponent
/// 0xfd236bbb0e.
proof fn lemma_power_1710050753150114629_2_part_1(p: int, g: int)
    requires
        p == 0x17bb52198966db45,
        g == 6,
        pow_mod(g, 0, p) == 1,
    ensures
        pow_mod(g, 0xfd236bbb0e, p) == 0x142698340b024530,
{
    let e: nat = 0;
    let e = lemma_chain_square(p, g, e, 1, 0, 1);
    let e = lemma_chain_multiply(p, g, e, 1, 0, 6);
    let e = lemma_chain_square(p, g, e, 6, 0, 0x24);
    let e = lemma_chain_multiply(p, g, e, 0x24, 0, 0xd8);
    let e = lemma_chain_square(p, g, e, 0xd8, 0, 0xb640);
    let e = lemma_chain_multiply(p, g, e, 0xb640, 0, 0x44580);
    let e = lemma_chain_square(p, g, e, 0x44580, 0, 0x123ede4000);
    let e = lemma_chain_multiply(p, g, e, 0x123ede4000, 0, 0x6d79358000);
    let e = lemma_chain_square(p, g, e, 0x6d79358000, 0x1f8ff, 0x3b9903be2dbbe45);
    let e = lemma_chain_multiply(p, g, e, 0x3b9903be2dbbe45, 0, 0x165961675126759e);
    let e = lemma_chain_square(p, g, e, 0x165961675126759e, 0x150c0f7385f73a95, 0xfb99e336dd38c5b);
    let e = lemma_chain_multiply(p, g, e, 0xfb99e336dd38c5b, 3, 0x1727bee7f6c0b853);
    let e = lemma_chain_square(p, g, e, 0x1727bee7f6c0b853, 0x1697c1672301e22c, 0x8954e49cfb1d10d);
    let e = lemma_chain_square(p, g, e, 0x8954e49cfb1d10d, 0x31ab73922fc1cea, 0xa324ae4eac44197);
    let e = lemma_chain_multiply(p, g, e, 0xa324ae4eac44197, 2, 0xdb71d2a6dcbd300);
    let e = lemma_chain_square(p, g, e, 0xdb71d2a6dcbd300, 0x7ed2e2770af4b3c, 0x54cfbf7e56564d4);
    let e = lemma_chain_square(p, g, e, 0x54cfbf7e56564d4, 0x12f189cad720a24, 0x122184a7623cc7dc);
    let e = lemma_chain_square(p, g, e, 0x122184a7623cc7dc, 0xdda19714e8aee9a, 0x139b28aa3a3bb78e);
    let e = lemma_chain_multiply(p, g, e, 0x139b28aa3a3bb78e, 4, 0x16b5ab9737cae040);
    let e = lemma_chain_square(p, g, e, 0x16b5ab9737cae040, 0x15bb49de3238c043, 0x96d3cbc9df8ecf1);
    let e = lemma_chain_square(p, g, e, 0x96d3cbc9df8ecf1, 0x3be95e029e398f8, 0xfb0379edf38d809);
    let e = lemma_chain_square(p, g, e, 0xfb0379edf38d809, 0xa5f010a38356ba3, 0x199e375f0d2bc62);
    let e = lemma_chain_square(p, g, e, 0x199e375f0d2bc62, 0x1ba77ea7579ca3, 0x2d83c53a9d96c95);
    let e = lemma_chain_multiply(p, g, e, 0x2d83c53a9d96c95, 0, 0x111169f5fb188b7e);
    let e = lemma_chain_square(p, g, e, 0x111169f5fb188b7e, 0xc46837b1a4fa1b0, 0x13af7bedb4b9ed94);
    let e = lemma_chain_multiply(p, g, e, 0x13af7bedb4b9ed94, 4, 0x172f9f2c16c02464);
    let e = lemma_chain_square(p, g, e, 0x172f9f2c16c02464, 0x16a722985d5674ec, 0x2682ddccad0df74);
    let e = lemma_chain_square(p, g, e, 0x2682ddccad0df74, 0x3e7eb3c4692981, 0x7b94a3f764bc1cb);
    let e = lemma_chain_multiply(p, g, e, 0x7b94a3f764bc1cb, 1, 0x169c6b633c5faf7d);
    let e = lemma_chain_square(p, g, e, 0x169c6b633c5faf7d, 0x158b11205a38ea58, 0xf13711ed631b151);
    let e = lemma_chain_multiply(p, g, e, 0xf13711ed631b151, 3, 0x1342b06c68f59617);
    let e = lemma_chain_square(p, g, e, 0x1342b06c68f59617, 0xfa1b6c4ae619293, 0x5ff1c16c5c2b372);
    let e = lemma_chain_square(p, g, e, 0x5ff1c16c5c2b372, 0x183e414aa9a5784, 0xfdf761d63811c30);
    let e = lemma_chain_multiply(p, g, e, 0xfdf761d63811c30, 4, 0x4f7c4a2f6b3c0c);
    let e = lemma_chain_square(p, g, e, 0x4f7c4a2f6b3c0c, 0x10a3941f6647a, 0x10da1f2fc6242dae);
    let e = lemma_chain_square(p, g, e, 0x10da1f2fc6242dae, 0xbf77be0411f9386, 0x14f37de4fafc3d26);
    let e = lemma_chain_multiply(p, g, e, 0x14f37de4fafc3d26, 5, 0x70c58de32e7268b);
    let e = lemma_chain_square(p, g, e, 0x70c58de32e7268b, 0x217e25d6736671b, 0x8f4a5e2fd07ac32);
    let e = lemma_chain_multiply(p, g, e, 0x8f4a5e2fd07ac32, 2, 0x6453f1edb6052a2);
    let e = lemma_chain_square(p, g, e, 0x6453f1edb6052a2, 0x1a8251ac558b899, 0x4abff78bb618a47);
    let e = lemma_chain_multiply(p, g, e, 0x4abff78bb618a47, 1, 0x44caabadae26265);
    let e = lemma_chain_square(p, g, e, 0x44caabadae26265, 0xc76873d0257ca9, 0x1215ef1b9c104f4c);
    let e = lemma_chain_square(p, g, e, 0x1215ef1b9c104f4c, 0xdc86bc4e41b49f4, 0x1ca2a3ac33953cc);
    let e = lemma_chain_multiply(p, g, e, 0x1ca2a3ac33953cc, 0, 0xabcfd609357f6c8);
    let e = lemma_chain_square(p, g, e, 0xabcfd609357f6c8, 0x4dbe03761c45b91, 0xd6c4dacf0cd432b);
    let e = lemma_chain_multiply(p, g, e, 0xd6c4dacf0cd432b, 3, 0x957dbc1089b0133);
    let e = lemma_chain_square(p, g, e, 0x957dbc1089b0133, 0x3adad2e709d19de, 0x3322dac7d68d53);
    let e = lemma_chain_multiply(p, g, e, 0x3322dac7d68d53, 0, 0x132d120af074ff2);
    let e = lemma_chain_square(p, g, e, 0x132d120af074ff2, 0xf7eb3215264d7, 0xb65a66ea01025d1);
    let e = lemma_chain_square(p, g, e, 0xb65a66ea01025d1, 0x57930cb1b9f0501, 0x5efea63fd2be05c);
    let e = lemma_chain_multiply(p, g, e, 0x5efea63fd2be05c, 1, 0xbe42c3e65a066e3);
    let e = lemma_chain_square(p, g, e, 0xbe42c3e65a066e3, 0x5f55981867c273a, 0xe6a768ec2f87ca7);
    let e = lemma_chain_multiply(p, g, e, 0xe6a768ec2f87ca7, 3, 0xf4cd10bf59e5a1b);
    let e = lemma_chain_square(p, g, e, 0xf4cd10bf59e5a1b, 0x9dd3567f115db14, 0x14c370945bc4d675);
    let e = lemma_chain_square(p, g, e, 0x14c370945bc4d675, 0x122a9a2a6ab26ed8, 0xc4e04e11bd52941);
    let e = lemma_chain_square(p, g, e, 0xc4e04e11bd52941, 0x6614452223962fc, 0xe87cb96c542a095);
    let e = lemma_chain_square(p, g, e, 0xe87cb96c542a095, 0x8e58e125d52e01b, 0x16a106b8b8bf1672);
    let e = lemma_chain_square(p, g, e, 0x16a106b8b8bf1672, 0x1593d94d7b07c665, 0x8ea18827704ea8b);
    let e = lemma_chain_multiply(p, g, e, 0x8ea18827704ea8b, 2, 0x605eedbb74fc8b8);
    let e = lemma_chain_square(p, g, e, 0x605eedbb74fc8b8, 0x18758c9dfb64a2b, 0x139b5f54c1393da9);
    let e = lemma_chain_multiply(p, g, e, 0x139b5f54c1393da9, 4, 0x16b6f39661bc04e2);
    let e = lemma_chain_square(p, g, e, 0x16b6f39661bc04e2, 0x15bdbdadad647f1e, 0x96b337e073eea6e);
    let e = lemma_chain_multiply(p, g, e, 0x96b337e073eea6e, 2, 0x90c90c118abc80a);
    let e = lemma_chain_square(p, g, e, 0x90c90c118abc80a, 0x37352e59f0e07a4, 0x142698340b024530);
}

/// A power of the root 6 modulo 0x17bb52198966db45: the steps from the exponent
/// 0xfd236bbb0e
/// to the exponent
/// 0x7e91b5dd8779e6c.
proof fn lemma_power_1710050753150114629_2_part_2(p: int, g: int)
    requires
        p == 0x17bb52198966db45,
        g == 6,
        pow_mod(g, 0xfd236bbb0e, p) == 0x142698340b024530,
    ensures
        pow_mod(g, 0x7e91b5dd8779e6c, p) == 0xf4c4341f618bce8,
{
    let e: nat = 0xfd236bbb0e;
    let e = lemma_chain_square(p, g, e, 0x142698340b024530, 0x111c324522bdfc82, 0x12aacb96356ea3f6);
    let e = lemma_chain_multiply(p, g, e, 0x12aacb96356ea3f6, 4, 0x11137d1f1afc6ab0);
    let e = lemma_chain_square(p, g, e, 0x11137d1f1afc6ab0, 0xc497fb0f967a42c, 0xe692eac1f0d5524);
    let e = lemma_chain_multiply(p, g, e, 0xe692eac1f0d5524, 3, 0xf4521bc1e1b6d09);
    let e = lemma_chain_square(p, g, e, 0xf4521bc1e1b6d09, 0x9d34f349849c5a8, 0x9624aae796dac09);
    let e = lemma_chain_multiply(p, g, e, 0x9624aae796dac09, 2, 0x8d71be3c5c451ac);
    let e = lemma_chain_square(p, g, e, 0x8d71be3c5c451ac, 0x34b0706af62d0a7, 0x5d89d1991c3318d);
    let e = lemma_chain_multiply(p, g, e, 0x5d89d1991c3318d, 1, 0xb585c7fe12c4e09);
    let e = lemma_chain_square(p, g, e, 0xb585c7fe12c4e09, 0x56c74b423d69903, 0x81c37dfecf2ad82);
    let e = lemma_chain_square(p, g, e, 0x81c37dfecf2ad82, 0x2c58a34f7a4af98, 0x3a146e13f369a0c);
    let e = lemma_chain_square(p, g, e, 0x3a146e13f369a0c, 0x8e243cb559105b, 0xbf7e6eef8812f09);
    let e = lemma_chain_multiply(p, g, e, 0xbf7e6eef8812f09, 3, 0x9d734d36d28867);
    let e = lemma_chain_square(p, g, e, 0x9d734d36d28867, 0x4149eaee8b895, 0x203cc3102aa6248);
    let e = lemma_chain_multiply(p, g, e, 0x203cc3102aa6248, 0, 0xc16c9260ffe4db0);
    let e = lemma_chain_square(p, g, e, 0xc16c9260ffe4db0, 0x6287e21d0784cd6, 0xb34cf91a3679152);
    let e = lemma_chain_multiply(p, g, e, 0xb34cf91a3679152, 2, 0x13c63936c19fb162);
    let e = lemma_chain_square(p, g, e, 0x13c63936c19fb162, 0x107a11059aeaa56a, 0x478dd0477a865f2);
    let e = lemma_chain_multiply(p, g, e, 0x478dd0477a865f2, 1, 0x319dc01448b8867);
    let e = lemma_chain_square(p, g, e, 0x319dc01448b8867, 0x67bbb605754d16, 0xaccb073d2340083);
    let e = lemma_chain_square(p, g, e, 0xaccb073d2340083, 0x4ea1fbe0cb24313, 0x1341b63c5138edea);
    let e = lemma_chain_square(p, g, e, 0x1341b63c5138edea, 0xfa020b4fcba9f0a, 0xe985e798b24ae32);
    let e = lemma_chain_multiply(p, g, e, 0xe985e798b24ae32, 3, 0x1060408ca6a7835d);
    let e = lemma_chain_square(p, g, e, 0x1060408ca6a7835d, 0xb4cd908a8fa5242, 0x2e07b997a9badff);
    let e = lemma_chain_multiply(p, g, e, 0x2e07b997a9badff, 0, 0x1142e598dfa613fa);
    let e = lemma_chain_square(p, g, e, 0x1142e598dfa613fa, 0xc8e17f753609ca2, 0x1157994b3c32427a);
    let e = lemma_chain_square(p, g, e, 0x1157994b3c32427a, 0xcac4783f4e0bb04, 0x3f9d67250c44e10);
    let e = lemma_chain_multiply(p, g, e, 0x3f9d67250c44e10, 1, 0x1fb4945b32f91b);
    let e = lemma_chain_square(p, g, e, 0x1fb4945b32f91b, 0x2a5baf523ed5, 0xe33193d0286270);
    let e = lemma_chain_multiply(p, g, e, 0xe33193d0286270, 0, 0x5532976e0f24ea0);
    let e = lemma_chain_square(p, g, e, 0x5532976e0f24ea0, 0x131dcb4d6a8f0ab, 0xf4c4341f618bce9);
    let e = lemma_chain_square(p, g, e, 0xf4c4341f618bce9, 0x9dc7e97ed50f095, 0xf4c4341f618bce8);
}

/// A power of the root 6 modulo 0x17bb52198966db45.
proof fn lemma_power_1710050753150114629_2()
    ensures
        pow_mod(6, 0x7e91b5dd8779e6c, 0x17bb52198966db45) == 0xf4c4341f618bce8,
{
    let p = 0x17bb52198966db45;
    let g = 6;
    lemma_chain_start(p, g);
    lemma_power_1710050753150114629_2_part_1(p, g);
    lemma_power_1710050753150114629_2_part_2(p, g);
}

/// A power of the root 6 modulo 0x17bb52198966db45: the steps from the exponent
/// 0
/// to the exponent
/// 0x4509a9047870.
proof fn lemma_power_1710050753150114629_3_part_1(p: int, g: int)
    requires
        p == 0x17bb52198966db45,
        g == 6,
        pow_mod(g, 0, p) == 1,
    ensures
        pow_mod(g, 0x4509a9047870, p) == 0xa3c2bcf24b6adb4,
{
    let e: nat = 0;
    let e = lemma_chain_square(p, g, e, 1, 0, 1);
    let e = lemma_chain_multiply(p, g, e, 1, 0, 6);
    let e = lemma_chain_square(p, g, e, 6, 0, 0x24);
    let e = lemma_chain_square(p, g, e, 0x24, 0, 0x510);
    let e = lemma_chain_square(p, g, e, 0x510, 0, 0x19a100);
    let e = lemma_chain_square(p, g, e, 0x19a100, 0, 0x290d7410000);
    let e = lemma_chain_multiply(p, g, e, 0x290d7410000, 0, 0xf650b860000);
    let e = lemma_chain_square(p, g, e, 0xf650b860000, 0x9fc8bbb, 0x9e014ec83e35d99);
    let e = lemma_chain_square(p, g, e, 0x9e014ec83e35d99, 0x41bfe4f28c83540, 0x2b49b13fa8a6b31);
    let e = lemma_chain_multiply(p, g, e, 0x2b49b13fa8a6b31, 0, 0x103ba277df3e8326);
    let e = lemma_chain_square(p, g, e, 0x103ba277df3e8326, 0xb1a886f605f9dfa, 0x12ebdc8f7c117742);
    let e = lemma_chain_square(p, g, e, 0x12ebdc8f7c117742, 0xf16047ab883478a, 0x1d7717799c116d2);
    let e = lemma_chain_square(p, g, e, 0x1d7717799c116d2, 0x24957842e9162d, 0xd8cd55d14f34b23);
    let e = lemma_chain_square(p, g, e, 0xd8cd55d14f34b23, 0x7bc9aaadcd888e3, 0x392f1b56996709a);
    let e = lemma_chain_square(p, g, e, 0x392f1b56996709a, 0x89ca6ceed306dd, 0x42fa28993313413);
    let e = lemma_chain_multiply(p, g, e, 0x42fa28993313413, 1, 0x1627d1fe9c05d2d);
    let e = lemma_chain_square(p, g, e, 0x1627d1fe9c05d2d, 0x14af1e6f9daab3, 0x96625b70a9196aa);
    let e = lemma_chain_square(p, g, e, 0x96625b70a9196aa, 0x3b8f611a056d884, 0x2290d55e2066150);
    let e = lemma_chain_square(p, g, e, 0x2290d55e2066150, 0x3258837de52380, 0x10006a2a5b9ca780);
    let e = lemma_chain_multiply(p, g, e, 0x10006a2a5b9ca780, 4, 0x115349800107fec);
    let e = lemma_chain_square(p, g, e, 0x115349800107fec, 0xca5fb153b1caa, 0xe57e8fb8d3bd9be);
    let e = lemma_chain_multiply(p, g, e, 0xe57e8fb8d3bd9be, 3, 0xedd7f98b33288a5);
    let e = lemma_chain_square(p, g, e, 0xedd7f98b33288a5, 0x94fb66a381c8097, 0x10bf1d73da89e4a6);
    let e = lemma_chain_square(p, g, e, 0x10bf1d73da89e4a6, 0xbd13fa431dcb7a8, 0x3e7d349e759e35c);
    let e = lemma_chain_multiply(p, g, e, 0x3e7d349e759e35c, 0, 0x176ef3bb6c1b5428);
    let e = lemma_chain_square(p, g, e, 0x176ef3bb6c1b5428, 0x17238b1e5838b1f9, 0xb64de902a5c4b23);
    let e = lemma_chain_square(p, g, e, 0xb64de902a5c4b23, 0x57870d8ae17bc01, 0x2bb1ecde794ff84);
    let e = lemma_chain_multiply(p, g, e, 0x2bb1ecde794ff84, 0, 0x1062b8d36d7dfd18);
    let e = lemma_chain_square(p, g, e, 0x1062b8d36d7dfd18, 0xb5041e40f8425e9, 0x144b24a78cc5e773);
    let e = lemma_chain_square(p, g, e, 0x144b24a78cc5e773, 0x115a7bce3763b77b, 0x3a0d647a6661082);
    let e = lemma_chain_square(p, g, e, 0x3a0d647a6661082, 0x8e01cc8224a476, 0x1179449ea7133c36);
    let e = lemma_chain_multiply(p, g, e, 0x1179449ea7133c36, 4, 0x9ea5351c4d7fc30);
    let e = lemma_chain_square(p, g, e, 0x9ea5351c4d7fc30, 0x4248935c206acd8, 0xe093c0999552ac8);
    let e = lemma_chain_square(p, g, e, 0xe093c0999552ac8, 0x84d35d850ece020, 0x1246f58d9fa273a0);
    let e = lemma_chain_square(p, g, e, 0x1246f58d9fa273a0, 0xe138a276e55abf9, 0xbc27c777d4dc6e3);
    let e = lemma_chain_square(p, g, e, 0xbc27c777d4dc6e3, 0x5d3c70ec8883840, 0x1b6c3bbaebc0409);
    let e = lemma_chain_square(p, g, e, 0x1b6c3bbaebc0409, 0x1fb01c6a5270c0, 0x100df62b4e1ba491);
    let e = lemma_chain_square(p, g, e, 0x100df62b4e1ba491, 0xadc64d3981cec4a, 0xd2fc29dfef51c2f);
    let e = lemma_chain_multiply(p, g, e, 0xd2fc29dfef51c2f, 3, 0x7ec99675d8a174b);
    let e = lemma_chain_square(p, g, e, 0x7ec99675d8a174b, 0x2a55da931a23a23, 0xcb88c888f92f38a);
    let e = lemma_chain_square(p, g, e, 0xcb88c888f92f38a, 0x6d19aeb46235db4, 0x9267ed40aae08e0);
    let e = lemma_chain_square(p, g, e, 0x9267ed40aae08e0, 0x387358619fea120, 0x28080d16896f660);
    let e = lemma_chain_square(p, g, e, 0x28080d16896f660, 0x4386c01280f041, 0x4aa000ed86e477b);
    let e = lemma_chain_multiply(p, g, e, 0x4aa000ed86e477b, 1, 0x440ae3f892ed19d);
    let e = lemma_chain_square(p, g, e, 0x440ae3f892ed19d, 0xc316abed9b0633, 0xdfbf8849da56d8a);
    let e = lemma_chain_multiply(p, g, e, 0xdfbf8849da56d8a, 3, 0xcb5dccf15abff6d);
    let e = lemma_chain_square(p, g, e, 0xcb5dccf15abff6d, 0x6ceb9f13f5c0c89, 0x123cf9bffa59c07c);
    let e = lemma_chain_multiply(p, g, e, 0x123cf9bffa59c07c, 4, 0xe809219b87f15d4);
    let e = lemma_chain_square(p, g, e, 0xe809219b87f15d4, 0x8dcb77676c245bd, 0x141f952a47e0fc9f);
    let e = lemma_chain_multiply(p, g, e, 0x141f952a47e0fc9f, 5, 0x214e47e0043a361);
    let e = lemma_chain_square(p, g, e, 0x214e47e0043a361, 0x2ebe076bbdd604, 0xaf768a013328fad);
    let e = lemma_chain_square(p, g, e, 0xaf768a013328fad, 0x5114e10a25f9bcc, 0xefd02c850e238ed);
    let e = lemma_chain_square(p, g, e, 0xefd02c850e238ed, 0x9775a9c576347b5, 0xdbdb94bc3e460a0);
    let e = lemma_chain_square(p, g, e, 0xdbdb94bc3e460a0, 0x7f4d3dce413b020, 0xb9aa6d063be8b60);
    let e = lemma_chain_square(p, g, e, 0xb9aa6d063be8b60, 0x5ac8f7e9800d525, 0x1551437506134a07);
    let e = lemma_chain_multiply(p, g, e, 0x1551437506134a07, 5, 0x93efa3e757173d1);
    let e = lemma_chain_square(p, g, e, 0x93efa3e757173d1, 0x39a2fe7b7fc2a4c, 0xc4154ffa7790625);
    let e = lemma_chain_multiply(p, g, e, 0xc4154ffa7790625, 3, 0x25607b150a1930f);
    let e = lemma_chain_square(p, g, e, 0x25607b150a1930f, 0x3ade1f4049a82d, 0x104515783fb167c0);
    let e = lemma_chain_multiply(p, g, e, 0x104515783fb167c0, 4, 0x2b1386b588d016c);
    let e = lemma_chain_square(p, g, e, 0x2b1386b588d016c, 0x4e30726845e752, 0x12bdf13bdc938676);
    let e = lemma_chain_square(p, g, e, 0x12bdf13bdc938676, 0xecd2440f182672b, 0xcd5da08bd9a26cd);
    let e = lemma_chain_square(p, g, e, 0xcd5da08bd9a26cd, 0x6f129258739b42a, 0xbb8a9f541c02d7);
    let e = lemma_chain_square(p, g, e, 0xbb8a9f541c02d7, 0x5ca0f1bc916b9, 0xa3c2bcf24b6adb4);
}

/// A power of the root 6 modulo 0x17bb52198966db45: the steps from the exponent
/// 0x4509a9047870
/// to the exponent
/// 0x2284d4823c3884c.
proof fn lemma_power_1710050753150114629_3_part_2(p: int, g: int)
    requires
        p == 0x17bb52198966db45,
        g == 6,
        pow_mod(g, 0x4509a9047870, p) == 0xa3c2bcf24b6adb4,
    ensures
        pow_mod(g, 0x2284d4823c3884c, p) == 0x8fe6e0c5e09aa99,
{
    let e: nat = 0x4509a9047870;
    let e = lemma_chain_multiply(p, g, e, 0xa3c2bcf24b6adb4, 2, 0xdf262a7c97a5bae);
    let e = lemma_chain_square(p, g, e, 0xdf262a7c97a5bae, 0x83244a31949bf5e, 0x6bd5e549a32bee);
    let e = lemma_chain_square(p, g, e, 0x6bd5e549a32bee, 0x1e9ff8bf43909, 0x140e828a8469bed7);
    let e = lemma_chain_square(p, g, e, 0x140e828a8469bed7, 0x10f3641ac7634034, 0xefaf482c43d0e8d);
    let e = lemma_chain_square(p, g, e, 0xefaf482c43d0e8d, 0x974c207c955abc4, 0x8b48783f5e5c1d5);
    let e = lemma_chain_square(p, g, e, 0x8b48783f5e5c1d5, 0x331763dea108dda, 0x296f67b9d292177);
    let e = lemma_chain_multiply(p, g, e, 0x296f67b9d292177, 0, 0xf89c6e5aef6c8ca);
    let e = lemma_chain_square(p, g, e, 0xf89c6e5aef6c8ca, 0xa2c6c798b902217, 0x935712b4a876231);
    let e = lemma_chain_square(p, g, e, 0x935712b4a876231, 0x392c59ff2b03f32, 0x12f27e2ce9dabee7);
    let e = lemma_chain_square(p, g, e, 0x12f27e2ce9dabee7, 0xf20995a951dff81, 0x49a5d8e7cb87bac);
    let e = lemma_chain_multiply(p, g, e, 0x49a5d8e7cb87bac, 1, 0x3e2df3d62ec0ac3);
    let e = lemma_chain_square(p, g, e, 0x3e2df3d62ec0ac3, 0xa2eaa3c119f77f, 0xdf469484da8764e);
    let e = lemma_chain_multiply(p, g, e, 0xdf469484da8764e, 3, 0xc88816535be3405);
    let e = lemma_chain_square(p, g, e, 0xc88816535be3405, 0x69e7ac994cc6ea5, 0xf778165f37f0ea0);
    let e = lemma_chain_square(p, g, e, 0xf778165f37f0ea0, 0xa148d6afe5bb6bb, 0x8fe6e0c5e09aa99);
}

/// A power of the root 6 modulo 0x17bb52198966db45.
proof fn lemma_power_1710050753150114629_3()
    ensures
        pow_mod(6, 0x2284d4823c3884c, 0x17bb52198966db45) == 0x8fe6e0c5e09aa99,
{
    let p = 0x17bb52198966db45;
    let g = 6;
    lemma_chain_start(p, g);
    lemma_power_1710050753150114629_3_part_1(p, g);
    lemma_power_1710050753150114629_3_part_2(p, g);
}

/// A power of the root 6 modulo 0x17bb52198966db45.
proof fn lemma_power_1710050753150114629_4()
    ensures
        pow_mod(6, 0x84, 0x17bb52198966db45) == 0x9ea84e1a1628f2e,
{
    let p = 0x17bb52198966db45;
    let g = 6;
    lemma_chain_start(p, g);
    let e: nat = 0;
    let e = lemma_chain_square(p, g, e, 1, 0, 1);
    let e = lemma_chain_multiply(p, g, e, 1, 0, 6);
    let e = lemma_chain_square(p, g, e, 6, 0, 0x24);
    let e = lemma_chain_square(p, g, e, 0x24, 0, 0x510);
    let e = lemma_chain_square(p, g, e, 0x510, 0, 0x19a100);
    let e = lemma_chain_square(p, g, e, 0x19a100, 0, 0x290d7410000);
    let e = lemma_chain_square(p, g, e, 0x290d7410000, 0x4703e1, 0xf6fadec37e4795b);
    let e = lemma_chain_multiply(p, g, e, 0xf6fadec37e4795b, 3, 0x156c1d3cb3264653);
    let e = lemma_chain_square(p, g, e, 0x156c1d3cb3264653, 0x1356708e852fb3bf, 0x11dfbac57c3ba76e);
    let e = lemma_chain_square(p, g, e, 0x11dfbac57c3ba76e, 0xd764992aac0ca1e, 0x9ea84e1a1628f2e);
}

/// A power of a power of the root 6 modulo 0x17bb52198966db45.
proof fn lemma_power_1710050753150114629_5()
    ensures
        pow_mod(0x17bb52198966db44, 2, 0x17bb52198966db45) == 1,
{
    let p = 0x17bb52198966db45;
    let g = 0x17bb52198966db44;
    lemma_chain_start(p, g);
    let e: nat = 0;
    let e = lemma_chain_square(p, g, e, 1, 0, 1);
    let e = lemma_chain_multiply(p, g, e, 1, 0, 0x17bb52198966db44);
    let e = lemma_chain_square(p, g, e, 0x17bb52198966db44, 0x17bb52198966db43, 1);
}

/// 6 is a primitive root modulo 0x17bb52198966db45.
pub proof fn lemma_root_1710050753150114629()
    ensures
        is_primitive_root(6, 0x17bb52198966db45),
{
    let p = 0x17bb52198966db45;
    let g = 6;
    lemma_power_1710050753150114629_1();
    lemma_power_1710050753150114629_2();
    lemma_power_1710050753150114629_3();
    lemma_power_1710050753150114629_4();
    lemma_power_1710050753150114629_5();
    lemma_chain_rebase(p, g, 0xbdda90cc4b36da2, 0x17bb52198966db44, 2, 1);
    lemma_two_is_prime();
    lemma_prime_3();
    lemma_prime_11();
    lemma_prime_12954929948106929();
    assert forall|m: int| m >= 2 && #[trigger] (0x17bb52198966db44int % m) == 0 implies exists|f: int| #[trigger]
        refutes(6, 0x17bb52198966db44, 0x17bb52198966db45, m, f) by {
        lemma_euclid(m, 2, 0xbdda90cc4b36da2);
        if m % 2 == 0 {
            assert(refutes(6, 0x17bb52198966db44, 0x17bb52198966db45, m, 2));
        } else {
            lemma_euclid(m, 2, 0x5eed4866259b6d1);
            lemma_euclid(m, 3, 0x1fa46d7761de79b);
            if m % 3 == 0 {
                assert(refutes(6, 0x17bb52198966db44, 0x17bb52198966db45, m, 3));
            } else {
                lemma_euclid(m, 0xb, 0x2e0670ada5a0b1);
                if m % 0xb == 0 {
                    assert(refutes(6, 0x17bb52198966db44, 0x17bb52198966db45, m, 0xb));
                } else {
                    lemma_euclid(m, 0x2e0670ada5a0b1, 1);
                    if m % 0x2e0670ada5a0b1 == 0 {
                        assert(refutes(6, 0x17bb52198966db44, 0x17bb52198966db45, m, 0x2e0670ada5a0b1));
                    } else {
                        lemma_small_mod(1, m as nat);
                    }
                }
            }
        }
    }
    lemma_lucas(0x17bb52198966db45, 0x17bb52198966db44, 6);
}

/// 0x17bb52198966db45 is prime.
pub proof fn lemma_prime_1710050753150114629()
    ensures
        is_prime(0x17bb52198966db45),
{
    lemma_root_1710050753150114629();
    lemma_root_gives_prime(6, 0x17bb52198966db45);
}

/// A power of the root 2 modulo 44371.
proof fn lemma_power_44371_1()
    ensures
        pow_mod(2, 0x56a9, 0xad53) == 0xad52,
{
    let p = 0xad53;
    let g = 2;
    lemma_chain_start(p, g);
    let e: nat = 0;
    let e = lemma_chain_square(p, g, e, 1, 0, 1);
    let e = lemma_chain_multiply(p, g, e, 1, 0, 2);
    let e = lemma_chain_square(p, g, e, 2, 0, 4);
    let e = lemma_chain_square(p, g, e, 4, 0, 0x10);
    let e = lemma_chain_multiply(p, g, e, 0x10, 0, 0x20);
    let e = lemma_chain_square(p, g, e, 0x20, 0, 0x400);
    let e = lemma_chain_square(p, g, e, 0x400, 0x17, 0x6d8b);
    let e = lemma_chain_multiply(p, g, e, 0x6d8b, 1, 0x2dc3);
    let e = lemma_chain_square(p, g, e, 0x2dc3, 0xc15, 0x6ba);
    let e = lemma_chain_multiply(p, g, e, 0x6ba, 0, 0xd74);
    let e = lemma_chain_square(p, g, e, 0xd74, 0x10b, 0x36ff);
    let e = lemma_chain_square(p, g, e, 0x36ff, 0x1173, 0x32b8);
    let e = lemma_chain_multiply(p, g, e, 0x32b8, 0, 0x6570);
    let e = lemma_chain_square(p, g, e, 0x6570, 0x3b5d, 0x78d9);
    let e = lemma_chain_square(p, g, e, 0x78d9, 0x5442, 0x3c8b);
    let e = lemma_chain_multiply(p, g, e, 0x3c8b, 0, 0x7916);
    let e = lemma_chain_square(p, g, e, 0x7916, 0x5497, 0x55ef);
    let e = lemma_chain_square(p, g, e, 0x55ef, 0x2a9b, 0x5e0);
    let e = lemma_chain_multiply(p, g, e, 0x5e0, 0, 0xbc0);
    let e = lemma_chain_square(p, g, e, 0xbc0, 0xcb, 0x9f2f);
    let e = lemma_chain_square(p, g, e, 0x9f2f, 0x9232, 0x3a6b);
    let e = lemma_chain_square(p, g, e, 0x3a6b, 0x13b0, 0x56a9);
    let e = lemma_chain_multiply(p, g, e, 0x56a9, 0, 0xad52);
}

/// A power of the root 2 modulo 44371.
proof fn lemma_power_44371_2()
    ensures
        pow_mod(2, 0x39c6, 0xad53) == 0x1359,
{
    let p = 0xad53;
    let g = 2;
    lemma_chain_start(p, g);
    let e: nat = 0;
    let e = lemma_chain_square(p, g, e, 1, 0, 1);
    let e = lemma_chain_multiply(p, g, e, 1, 0, 2);
    let e = lemma_chain_square(p, g, e, 2, 0, 4);
    let e = lemma_chain_multiply(p, g, e, 4, 0, 8);
    let e = lemma_chain_square(p, g, e, 8, 0, 0x40);
    let e = lemma_chain_multiply(p, g, e, 0x40, 0, 0x80);
    let e = lemma_chain_square(p, g, e, 0x80, 0, 0x4000);
    let e = lemma_chain_square(p, g, e, 0x4000, 0x17a1, 0x89cd);
    let e = lemma_chain_square(p, g, e, 0x89cd, 0x6d8e, 0x931f);
    let e = lemma_chain_multiply(p, g, e, 0x931f, 1, 0x78eb);
    let e = lemma_chain_square(p, g, e, 0x78eb, 0x545b, 0x4f38);
    let e = lemma_chain_multiply(p, g, e, 0x4f38, 0, 0x9e70);
    let e = lemma_chain_square(p, g, e, 0x9e70, 0x90d4, 0x3844);
    let e = lemma_chain_multiply(p, g, e, 0x3844, 0, 0x7088);
    let e = lemma_chain_square(p, g, e, 0x7088, 0x490f, 0x7563);
    let e = lemma_chain_square(p, g, e, 0x7563, 0x4f80, 0x5dc9);
    let e = lemma_chain_square(p, g, e, 0x5dc9, 0x32bf, 0x20e4);
    let e = lemma_chain_square(p, g, e, 0x20e4, 0x63d, 0x8c49);
    let e = lemma_chain_multiply(p, g, e, 0x8c49, 1, 0x6b3f);
    let e = lemma_chain_square(p, g, e, 0x6b3f, 0x425c, 0x9ad);
    let e = lemma_chain_multiply(p, g, e, 0x9ad, 0, 0x135a);
    let e = lemma_chain_square(p, g, e, 0x135a, 0x229, 0x1359);
}

/// A power of the root 2 modulo 44371.
proof fn lemma_power_44371_3()
    ensures
        pow_mod(2, 0x22aa, 0xad53) == 0x1fb1,
{
    let p = 0xad53;
    let g = 2;
    lemma_chain_start(p, g);
    let e: nat = 0;
    let e = lemma_chain_square(p, g, e, 1, 0, 1);
    let e = lemma_chain_multiply(p, g, e, 1, 0, 2);
    let e = lemma_chain_square(p, g, e, 2, 0, 4);
    let e = lemma_chain_square(p, g, e, 4, 0, 0x10);
    let e = lemma_chain_square(p, g, e, 0x10, 0, 0x100);
    let e = lemma_chain_square(p, g, e, 0x100, 1, 0x52ad);
    let e = lemma_chain_multiply(p, g, e, 0x52ad, 0, 0xa55a);
    let e = lemma_chain_square(p, g, e, 0xa55a, 0x9dbe, 0x990a);
    let e = lemma_chain_square(p, g, e, 0x990a, 0x8720, 0x8504);
    let e = lemma_chain_multiply(p, g, e, 0x8504, 1, 0x5cb5);
    let e = lemma_chain_square(p, g, e, 0x5cb5, 0x3196, 0x2657);
    let e = lemma_chain_square(p, g, e, 0x2657, 0x87b, 0x12b0);
    let e = lemma_chain_multiply(p, g, e, 0x12b0, 0, 0x2560);
    let e = lemma_chain_square(p, g, e, 0x2560, 0x80f, 0x2423);
    let e = lemma_chain_square(p, g, e, 0x2423, 0x788, 0x83b1);
    let e = lemma_chain_multiply(p, g, e, 0x83b1, 1, 0x5a0f);
    let e = lemma_chain_square(p, g, e, 0x5a0f, 0x2ecb, 0x3210);
    let e = lemma_chain_square(p, g, e, 0x3210, 0xe75, 0x8011);
    let e = lemma_chain_multiply(p, g, e, 0x8011, 1, 0x52cf);
    let e = lemma_chain_square(p, g, e, 0x52cf, 0x2790, 0x1fb1);
}

/// A power of the root 2 modulo 44371.
proof fn lemma_power_44371_4()
    ensures
        pow_mod(2, 0xa32, 0xad53) == 0x27fa,
{
    let p = 0xad53;
    let g = 2;
    lemma_chain_start(p, g);
    let e: nat = 0;
    let e = lemma_chain_square(p, g, e, 1, 0, 1);
    let e = lemma_chain_multiply(p, g, e, 1, 0, 2);
    let e = lemma_chain_square(p, g, e, 2, 0, 4);
    let e = lemma_chain_square(p, g, e, 4, 0, 0x10);
    let e = lemma_chain_multiply(p, g, e, 0x10, 0, 0x20);
    let e = lemma_chain_square(p, g, e, 0x20, 0, 0x400);
    let e = lemma_chain_square(p, g, e, 0x400, 0x17, 0x6d8b);
    let e = lemma_chain_square(p, g, e, 0x6d8b, 0x453b, 0x5858);
    let e = lemma_chain_square(p, g, e, 0x5858, 0x2d07, 0x49fb);
    let e = lemma_chain_multiply(p, g, e, 0x49fb, 0, 0x93f6);
    let e = lemma_chain_square(p, g, e, 0x93f6, 0x7e4f, 0x19c7);
    let e = lemma_chain_multiply(p, g, e, 0x19c7, 0, 0x338e);
    let e = lemma_chain_square(p, g, e, 0x338e, 0xf55, 0x7935);
    let e = lemma_chain_square(p, g, e, 0x7935, 0x54c2, 0x9013);
    let e = lemma_chain_square(p, g, e, 0x9013, 0x77c2, 0x7383);
    let e = lemma_chain_multiply(p, g, e, 0x7383, 1, 0x39b3);
    let e = lemma_chain_square(p, g, e, 0x39b3, 0x1335, 0x27fa);
}

/// A power of the root 2 modulo 44371.
proof fn lemma_power_44371_5()
    ensures
        pow_mod(2, 0x5fa, 0xad53) == 0x7ce3,
{
    let p = 0xad53;
    let g = 2;
    lemma_chain_start(p, g);
    let e: nat = 0;
    let e = lemma_chain_square(p, g, e, 1, 0, 1);
    let e = lemma_chain_multiply(p, g, e, 1, 0, 2);
    let e = lemma_chain_square(p, g, e, 2, 0, 4);
    let e = lemma_chain_square(p, g, e, 4, 0, 0x10);
    let e = lemma_chain_multiply(p, g, e, 0x10, 0, 0x20);
    let e = lemma_chain_square(p, g, e, 0x20, 0, 0x400);
    let e = lemma_chain_multiply(p, g, e, 0x400, 0, 0x800);
    let e = lemma_chain_square(p, g, e, 0x800, 0x5e, 0x5b86);
    let e = lemma_chain_multiply(p, g, e, 0x5b86, 1, 0x9b9);
    let e = lemma_chain_square(p, g, e, 0x9b9, 0x8b, 0x6ba0);
    let e = lemma_chain_multiply(p, g, e, 0x6ba0, 1, 0x29ed);
    let e = lemma_chain_square(p, g, e, 0x29ed, 0xa24, 0x27bd);
    let e = lemma_chain_multiply(p, g, e, 0x27bd, 0, 0x4f7a);
    let e = lemma_chain_square(p, g, e, 0x4f7a, 0x2471, 0x5881);
    let e = lemma_chain_multiply(p, g, e, 0x5881, 1, 0x3af);
    let e = lemma_chain_square(p, g, e, 0x3af, 0x14, 0x725);
    let e = lemma_chain_square(p, g, e, 0x725, 0x4b, 0x4408);
    let e = lemma_chain_multiply(p, g, e, 0x4408, 0, 0x8810);
    let e = lemma_chain_square(p, g, e, 0x8810, 0x6acf, 0x7ce3);
}

/// A power of a power of the root 2 modulo 44371.
proof fn lemma_power_44371_6()
    ensures
        pow_mod(0xad52, 2, 0xad53) == 1,
{
    let p = 0xad53;
    let g = 0xad52;
    lemma_chain_start(p, g);
    let e: nat = 0;
    let e = lemma_chain_square(p, g, e, 1, 0, 1);
    let e = lemma_chain_multiply(p, g, e, 1, 0, 0xad52);
    let e = lemma_chain_square(p, g, e, 0xad52, 0xad51, 1);
}

/// 2 is a primitive root modulo 44371.
pub proof fn lemma_root_44371()
    ensures
        is_primitive_root(2, 0xad53),
{
    let p = 0xad53;
    let g = 2;
    lemma_power_44371_1();
    lemma_power_44371_2();
    lemma_power_44371_3();
    lemma_power_44371_4();
    lemma_power_44371_5();
    lemma_power_44371_6();
    lemma_chain_rebase(p, g, 0x56a9, 0xad52, 2, 1);
    lemma_two_is_prime();
    lemma_prime_3();
    lemma_prime_5();
    lemma_prime_17();
    lemma_prime_29();
    assert forall|m: int| m >= 2 && #[trigger] (0xad52int % m) == 0 implies exists|f: int| #[trigger]
        refutes(2, 0xad52, 0xad53, m, f) by {
        lemma_euclid(m, 2, 0x56a9);
        if m % 2 == 0 {
            assert(refutes(2, 0xad52, 0xad53, m, 2));
        } else {
            lemma_euclid(m, 3, 0x1ce3);
            if m % 3 == 0 {
                assert(refutes(2, 0xad52, 0xad53, m, 3));
            } else {
                lemma_euclid(m, 3, 0x9a1);
                lemma_euclid(m, 5, 0x1ed);
                if m % 5 == 0 {
                    assert(refutes(2, 0xad52, 0xad53, m, 5));
                } else {
                    lemma_euclid(m, 0x11, 0x1d);
                    if m % 0x11 == 0 {
                        assert(refutes(2, 0xad52, 0xad53, m, 0x11));
                    } else {
                        lemma_euclid(m, 0x1d, 1);
                        if m % 0x1d == 0 {
                            assert(refutes(2, 0xad52, 0xad53, m, 0x1d));
                        } else {
                            lemma_small_mod(1, m as nat);
                        }
                    }
                }
            }
        }
    }
    lemma_lucas(0xad53, 0xad52, 2);
}

/// 44371 is prime.
pub proof fn lemma_prime_44371()
    ensures
        is_prime(0xad53),
{
    lemma_root_44371();
    lemma_root_gives_prime(2, 0xad53);
}

/// A power of the root 2 modulo 6566909.
proof fn lemma_power_6566909_1()
    ensures
        pow_mod(2, 0x3219fe, 0x6433fd) == 0x6433fc,
{
    let p = 0x6433fd;
    let g = 2;
    lemma_chain_start(p, g);
    let e: nat = 0;
    let e = lemma_chain_square(p, g, e, 1, 0, 1);
    let e = lemma_chain_multiply(p, g, e, 1, 0, 2);
    let e = lemma_chain_square(p, g, e, 2, 0, 4);
    let e = lemma_chain_multiply(p, g, e, 4, 0, 8);
    let e = lemma_chain_square(p, g, e, 8, 0, 0x40);
    let e = lemma_chain_square(p, g, e, 0x40, 0, 0x1000);
    let e = lemma_chain_square(p, g, e, 0x1000, 2, 0x379806);
    let e = lemma_chain_multiply(p, g, e, 0x379806, 1, 0xafc0f);
    let e = lemma_chain_square(p, g, e, 0xafc0f, 0x13444, 0x2f55ad);
    let e = lemma_chain_square(p, g, e, 0x2f55ad, 0x165c3c, 0x493b9d);
    let e = lemma_chain_square(p, g, e, 0x493b9d, 0x358596, 0x51d70b);
    let e = lemma_chain_square(p, g, e, 0x51d70b, 0x42d795, 0x63bd38);
    let e = lemma_chain_square(p, g, e, 0x63bd38, 0x6346ff, 0x4dc53d);
    let e = lemma_chain_multiply(p, g, e, 0x4dc53d, 1, 0x37567d);
    let e = lemma_chain_square(p, g, e, 0x37567d, 0x1e8f8a, 0x39dfa7);
    let e = lemma_chain_multiply(p, g, e, 0x39dfa7, 1, 0xf8b51);
    let e = lemma_chain_square(p, g, e, 0xf8b51, 0x2694c, 0x42db85);
    let e = lemma_chain_square(p, g, e, 0x42db85, 0x2c9bd1, 0xc328c);
    let e = lemma_chain_square(p, g, e, 0xc328c, 0x17c19, 0x265cdb);
    let e = lemma_chain_multiply(p, g, e, 0x265cdb, 0, 0x4cb9b6);
    let e = lemma_chain_square(p, g, e, 0x4cb9b6, 0x3abfa5, 0x174853);
    let e = lemma_chain_multiply(p, g, e, 0x174853, 0, 0x2e90a6);
    let e = lemma_chain_square(p, g, e, 0x2e90a6, 0x15a39a, 0x40ce72);
    let e = lemma_chain_multiply(p, g, e, 0x40ce72, 1, 0x1d68e7);
    let e = lemma_chain_square(p, g, e, 0x1d68e7, 0x8a1be, 0x59cdab);
    let e = lemma_chain_multiply(p, g, e, 0x59cdab, 1, 0x4f6759);
    let e = lemma_chain_square(p, g, e, 0x4f6759, 0x3eebf4, 0x25f0cd);
    let e = lemma_chain_multiply(p, g, e, 0x25f0cd, 0, 0x4be19a);
    let e = lemma_chain_square(p, g, e, 0x4be19a, 0x397684, 0x15a430);
    let e = lemma_chain_multiply(p, g, e, 0x15a430, 0, 0x2b4860);
    let e = lemma_chain_square(p, g, e, 0x2b4860, 0x12b22a, 0x55b27e);
    let e = lemma_chain_multiply(p, g, e, 0x55b27e, 1, 0x4730ff);
    let e = lemma_chain_square(p, g, e, 0x4730ff, 0x329455, 0x151700);
    let e = lemma_chain_multiply(p, g, e, 0x151700, 0, 0x2a2e00);
    let e = lemma_chain_square(p, g, e, 0x2a2e00, 0x11c154, 0x6433fc);
}

/// A power of the root 2 modulo 6566909.
proof fn lemma_power_6566909_2()
    ensures
        pow_mod(2, 0x2b54c, 0x6433fd) == 0x5f58bc,
{
    let p = 0x6433fd;
    let g = 2;
    lemma_chain_start(p, g);
    let e: nat = 0;
    let e = lemma_chain_square(p, g, e, 1, 0, 1);
    let e = lemma_chain_multiply(p, g, e, 1, 0, 2);
    let e = lemma_chain_square(p, g, e, 2, 0, 4);
    let e = lemma_chain_square(p, g, e, 4, 0, 0x10);
    let e = lemma_chain_multiply(p, g, e, 0x10, 0, 0x20);
    let e = lemma_chain_square(p, g, e, 0x20, 0, 0x400);
    let e = lemma_chain_square(p, g, e, 0x400, 0, 0x100000);
    let e = lemma_chain_multiply(p, g, e, 0x100000, 0, 0x200000);
    let e = lemma_chain_square(p, g, e, 0x200000, 0xa3820, 0x382860);
    let e = lemma_chain_multiply(p, g, e, 0x382860, 1, 0xc1cc3);
    let e = lemma_chain_square(p, g, e, 0xc1cc3, 0x176d0, 0x2560f9);
    let e = lemma_chain_square(p, g, e, 0x2560f9, 0xdf184, 0x40b6bd);
    let e = lemma_chain_multiply(p, g, e, 0x40b6bd, 1, 0x1d397d);
    let e = lemma_chain_square(p, g, e, 0x1d397d, 0x88600, 0x1c7909);
    let e = lemma_chain_square(p, g, e, 0x1c7909, 0x8172f, 0x383bde);
    let e = lemma_chain_multiply(p, g, e, 0x383bde, 1, 0xc43bf);
    let e = lemma_chain_square(p, g, e, 0xc43bf, 0x1804c, 0x1a9965);
    let e = lemma_chain_square(p, g, e, 0x1a9965, 0x70f92, 0x51688f);
    let e = lemma_chain_multiply(p, g, e, 0x51688f, 1, 0x3e9d21);
    let e = lemma_chain_square(p, g, e, 0x3e9d21, 0x27201a, 0x35968f);
    let e = lemma_chain_square(p, g, e, 0x35968f, 0x1ca89e, 0x1fc5bb);
    let e = lemma_chain_square(p, g, e, 0x1fc5bb, 0xa130a, 0x5b87b7);
    let e = lemma_chain_multiply(p, g, e, 0x5b87b7, 1, 0x52db71);
    let e = lemma_chain_square(p, g, e, 0x52db71, 0x448395, 0x5dcea0);
    let e = lemma_chain_multiply(p, g, e, 0x5dcea0, 1, 0x576943);
    let e = lemma_chain_square(p, g, e, 0x576943, 0x4c4096, 0x514b);
    let e = lemma_chain_square(p, g, e, 0x514b, 0x41, 0x5f58bc);
}

/// A power of the root 2 modulo 6566909.
proof fn lemma_power_6566909_3()
    ensures
        pow_mod(2, 0x94, 0x6433fd) == 0x2e1f9f,
{
    let p = 0x6433fd;
    let g = 2;
    lemma_chain_start(p, g);
    let e: nat = 0;
    let e = lemma_chain_square(p, g, e, 1, 0, 1);
    let e = lemma_chain_multiply(p, g, e, 1, 0, 2);
    let e = lemma_chain_square(p, g, e, 2, 0, 4);
    let e = lemma_chain_square(p, g, e, 4, 0, 0x10);
    let e = lemma_chain_square(p, g, e, 0x10, 0, 0x100);
    let e = lemma_chain_multiply(p, g, e, 0x100, 0, 0x200);
    let e = lemma_chain_square(p, g, e, 0x200, 0, 0x40000);
    let e = lemma_chain_square(p, g, e, 0x40000, 0x28e0, 0x32faa0);
    let e = lemma_chain_multiply(p, g, e, 0x32faa0, 1, 0x1c143);
    let e = lemma_chain_square(p, g, e, 0x1c143, 0x7de, 0x1b1723);
    let e = lemma_chain_square(p, g, e, 0x1b1723, 0x752f2, 0x2e1f9f);
}

/// A power of a power of the root 2 modulo 6566909.
proof fn lemma_power_6566909_4()
    ensures
        pow_mod(0x6433fc, 2, 0x6433fd) == 1,
{
    let p = 0x6433fd;
    let g = 0x6433fc;
    lemma_chain_start(p, g);
    let e: nat = 0;
    let e = lemma_chain_square(p, g, e, 1, 0, 1);
    let e = lemma_chain_multiply(p, g, e, 1, 0, 0x6433fc);
    let e = lemma_chain_square(p, g, e, 0x6433fc, 0x6433fb, 1);
}

/// 2 is a primitive root modulo 6566909.
pub proof fn lemma_root_6566909()
    ensures
        is_primitive_root(2, 0x6433fd),
{
    let p = 0x6433fd;
    let g = 2;
    lemma_power_6566909_1();
    lemma_power_6566909_2();
    lemma_power_6566909_3();
    lemma_power_6566909_4();
    lemma_chain_rebase(p, g, 0x3219fe, 0x6433fc, 2, 1);
    lemma_two_is_prime();
    lemma_prime_37();
    lemma_prime_44371();
    assert forall|m: int| m >= 2 && #[trigger] (0x6433fcint % m) == 0 implies exists|f: int| #[trigger]
        refutes(2, 0x6433fc, 0x6433fd, m, f) by {
        lemma_euclid(m, 2, 0x3219fe);
        if m % 2 == 0 {
            assert(refutes(2, 0x6433fc, 0x6433fd, m, 2));
        } else {
            lemma_euclid(m, 2, 0x190cff);
            lemma_euclid(m, 0x25, 0xad53);
            if m % 0x25 == 0 {
                assert(refutes(2, 0x6433fc, 0x6433fd, m, 0x25));
            } else {
                lemma_euclid(m, 0xad53, 1);
                if m % 0xad53 == 0 {
                    assert(refutes(2, 0x6433fc, 0x6433fd, m, 0xad53));
                } else {
                    lemma_small_mod(1, m as nat);
                }
            }
        }
    }
    lemma_lucas(0x6433fd, 0x6433fc, 2);
}

/// 6566909 is prime.
pub proof fn lemma_prime_6566909()
    ensures
        is_prime(0x6433fd),
{
    lemma_root_6566909();
    lemma_root_gives_prime(2, 0x6433fd);
}

/// A power of the root 13 modulo 457.
proof fn lemma_power_457_1()
    ensures
        pow_mod(0xd, 0xe4, 0x1c9) == 0x1c8,
{
    let p = 0x1c9;
    let g = 0xd;
    lemma_chain_start(p, g);
    let e: nat = 0;
    let e = lemma_chain_square(p, g, e, 1, 0, 1);
    let e = lemma_chain_multiply(p, g, e, 1, 0, 0xd);
    let e = lemma_chain_square(p, g, e, 0xd, 0, 0xa9);
    let e = lemma_chain_multiply(p, g, e, 0xa9, 4, 0x171);
    let e = lemma_chain_square(p, g, e, 0x171, 0x129, 0x1b0);
    let e = lemma_chain_multiply(p, g, e, 0x1b0, 0xc, 0x84);
    let e = lemma_chain_square(p, g, e, 0x84, 0x26, 0x3a);
    let e = lemma_chain_square(p, g, e, 0x3a, 7, 0xa5);
    let e = lemma_chain_square(p, g, e, 0xa5, 0x3b, 0x106);
    let e = lemma_chain_multiply(p, g, e, 0x106, 7, 0xcf);
    let e = lemma_chain_square(p, g, e, 0xcf, 0x5d, 0x15c);
    let e = lemma_chain_square(p, g, e, 0x15c, 0x108, 0x1c8);
}

/// A power of the root 13 modulo 457.
proof fn lemma_power_457_2()
    ensures
        pow_mod(0xd, 0x98, 0x1c9) == 0x143,
{
    let p = 0x1c9;
    let g = 0xd;
    lemma_chain_start(p, g);
    let e: nat = 0;
    let e = lemma_chain_square(p, g, e, 1, 0, 1);
    let e = lemma_chain_multiply(p, g, e, 1, 0, 0xd);
    let e = lemma_chain_square(p, g, e, 0xd, 0, 0xa9);
    let e = lemma_chain_square(p, g, e, 0xa9, 0x3e, 0xe3);
    let e = lemma_chain_square(p, g, e, 0xe3, 0x70, 0x159);
    let e = lemma_chain_multiply(p, g, e, 0x159, 9, 0x174);
    let e = lemma_chain_square(p, g, e, 0x174, 0x12e, 0x172);
    let e = lemma_chain_multiply(p, g, e, 0x172, 0xa, 0xf0);
    let e = lemma_chain_square(p, g, e, 0xf0, 0x7e, 0x12);
    let e = lemma_chain_square(p, g, e, 0x12, 0, 0x144);
    let e = lemma_chain_square(p, g, e, 0x144, 0xe5, 0x143);
}

/// A power of the root 13 modulo 457.
proof fn lemma_power_457_3()
    ensures
        pow_mod(0xd, 0x18, 0x1c9) == 0x15b,
{
    let p = 0x1c9;
    let g = 0xd;
    lemma_chain_start(p, g);
    let e: nat = 0;
    let e = lemma_chain_square(p, g, e, 1, 0, 1);
    let e = lemma_chain_multiply(p, g, e, 1, 0, 0xd);
    let e = lemma_chain_square(p, g, e, 0xd, 0, 0xa9);
    let e = lemma_chain_multiply(p, g, e, 0xa9, 4, 0x171);
    let e = lemma_chain_square(p, g, e, 0x171, 0x129, 0x1b0);
    let e = lemma_chain_square(p, g, e, 0x1b0, 0x198, 0xa8);
    let e = lemma_chain_square(p, g, e, 0xa8, 0x3d, 0x15b);
}

/// A power of a power of the root 13 modulo 457.
proof fn lemma_power_457_4()
    ensures
        pow_mod(0x1c8, 2, 0x1c9) == 1,
{
    let p = 0x1c9;
    let g = 0x1c8;
    lemma_chain_start(p, g);
    let e: nat = 0;
    let e = lemma_chain_square(p, g, e, 1, 0, 1);
    let e = lemma_chain_multiply(p, g, e, 1, 0, 0x1c8);
    let e = lemma_chain_square(p, g, e, 0x1c8, 0x1c7, 1);
}

/// 13 is a primitive root modulo 457.
pub proof fn lemma_root_457()
    ensures
        is_primitive_root(0xd, 0x1c9),
{
    let p = 0x1c9;
    let g = 0xd;
    lemma_power_457_1();
    lemma_power_457_2();
    lemma_power_457_3();
    lemma_power_457_4();
    lemma_chain_rebase(p, g, 0xe4, 0x1c8, 2, 1);
    lemma_two_is_prime();
    lemma_prime_3();
    lemma_prime_19();
    assert forall|m: int| m >= 2 && #[trigger] (0x1c8int % m) == 0 implies exists|f: int| #[trigger]
        refutes(0xd, 0x1c8, 0x1c9, m, f) by {
        lemma_euclid(m, 2, 0xe4);
        if m % 2 == 0 {
            assert(refutes(0xd, 0x1c8, 0x1c9, m, 2));
        } else {
            lemma_euclid(m, 2, 0x72);
            lemma_euclid(m, 2, 0x39);
            lemma_euclid(m, 3, 0x13);
            if m % 3 == 0 {
                assert(refutes(0xd, 0x1c8, 0x1c9, m, 3));
            } else {
                lemma_euclid(m, 0x13, 1);
                if m % 0x13 == 0 {
                    assert(refutes(0xd, 0x1c8, 0x1c9, m, 0x13));
                } else {
                    lemma_small_mod(1, m as nat);
                }
            }
        }
    }
    lemma_lucas(0x1c9, 0x1c8, 0xd);
}

/// 457 is prime.
pub proof fn lemma_prime_457()
    ensures
        is_prime(0x1c9),
{
    lemma_root_457();
    lemma_root_gives_prime(0xd, 0x1c9);
}

/// A power of the root 5 modulo 157.
proof fn lemma_power_157_1()
    ensures
        pow_mod(5, 0x4e, 0x9d) == 0x9c,
{
    let p = 0x9d;
    let g = 5;
    lemma_chain_start(p, g);
    let e: nat = 0;
    let e = lemma_chain_square(p, g, e, 1, 0, 1);
    let e = lemma_chain_multiply(p, g, e, 1, 0, 5);
    let e = lemma_chain_square(p, g, e, 5, 0, 0x19);
    let e = lemma_chain_square(p, g, e, 0x19, 3, 0x9a);
    let e = lemma_chain_square(p, g, e, 0x9a, 0x97, 9);
    let e = lemma_chain_multiply(p, g, e, 9, 0, 0x2d);
    let e = lemma_chain_square(p, g, e, 0x2d, 0xc, 0x8d);
    let e = lemma_chain_multiply(p, g, e, 0x8d, 4, 0x4d);
    let e = lemma_chain_square(p, g, e, 0x4d, 0x25, 0x78);
    let e = lemma_chain_multiply(p, g, e, 0x78, 3, 0x81);
    let e = lemma_chain_square(p, g, e, 0x81, 0x69, 0x9c);
}

/// A power of the root 5 modulo 157.
proof fn lemma_power_157_2()
    ensures
        pow_mod(5, 0x34, 0x9d) == 0xc,
{
    let p = 0x9d;
    let g = 5;
    lemma_chain_start(p, g);
    let e: nat = 0;
    let e = lemma_chain_square(p, g, e, 1, 0, 1);
    let e = lemma_chain_multiply(p, g, e, 1, 0, 5);
    let e = lemma_chain_square(p, g, e, 5, 0, 0x19);
    let e = lemma_chain_multiply(p, g, e, 0x19, 0, 0x7d);
    let e = lemma_chain_square(p, g, e, 0x7d, 0x63, 0x52);
    let e = lemma_chain_square(p, g, e, 0x52, 0x2a, 0x82);
    let e = lemma_chain_multiply(p, g, e, 0x82, 4, 0x16);
    let e = lemma_chain_square(p, g, e, 0x16, 3, 0xd);
    let e = lemma_chain_square(p, g, e, 0xd, 1, 0xc);
}

/// A power of the root 5 modulo 157.
proof fn lemma_power_157_3()
    ensures
        pow_mod(5, 0xc, 0x9d) == 0x82,
{
    let p = 0x9d;
    let g = 5;
    lemma_chain_start(p, g);
    let e: nat = 0;
    let e = lemma_chain_square(p, g, e, 1, 0, 1);
    let e = lemma_chain_multiply(p, g, e, 1, 0, 5);
    let e = lemma_chain_square(p, g, e, 5, 0, 0x19);
    let e = lemma_chain_multiply(p, g, e, 0x19, 0, 0x7d);
    let e = lemma_chain_square(p, g, e, 0x7d, 0x63, 0x52);
    let e = lemma_chain_square(p, g, e, 0x52, 0x2a, 0x82);
}

/// A power of a power of the root 5 modulo 157.
proof fn lemma_power_157_4()
    ensures
        pow_mod(0x9c, 2, 0x9d) == 1,
{
    let p = 0x9d;
    let g = 0x9c;
    lemma_chain_start(p, g);
    let e: nat = 0;
    let e = lemma_chain_square(p, g, e, 1, 0, 1);
    let e = lemma_chain_multiply(p, g, e, 1, 0, 0x9c);
    let e = lemma_chain_square(p, g, e, 0x9c, 0x9b, 1);
}

/// 5 is a primitive root modulo 157.
pub proof fn lemma_root_157()
    ensures
        is_primitive_root(5, 0x9d),
{
    let p = 0x9d;
    let g = 5;
    lemma_power_157_1();
    lemma_power_157_2();
    lemma_power_157_3();
    lemma_power_157_4();
    lemma_chain_rebase(p, g, 0x4e, 0x9c, 2, 1);
    lemma_two_is_prime();
    lemma_prime_3();
    lemma_prime_13();
    assert forall|m: int| m >= 2 && #[trigger] (0x9cint % m) == 0 implies exists|f: int| #[trigger]
        refutes(5, 0x9c, 0x9d, m, f) by {
        lemma_euclid(m, 2, 0x4e);
        if m % 2 == 0 {
            assert(refutes(5, 0x9c, 0x9d, m, 2));
        } else {
            lemma_euclid(m, 2, 0x27);
            lemma_euclid(m, 3, 0xd);
            if m % 3 == 0 {
                assert(refutes(5, 0x9c, 0x9d, m, 3));
            } else {
                lemma_euclid(m, 0xd, 1);
                if m % 0xd == 0 {
                    assert(refutes(5, 0x9c, 0x9d, m, 0xd));
                } else {
                    lemma_small_mod(1, m as nat);
                }
            }
        }
    }
    lemma_lucas(0x9d, 0x9c, 5);
}

/// 157 is prime.
pub proof fn lemma_prime_157()
    ensures
        is_prime(0x9d),
{
    lemma_root_157();
    lemma_root_gives_prime(5, 0x9d);
}

/// A power of the root 2 modulo 1571.
proof fn lemma_power_1571_1()
    ensures
        pow_mod(2, 0x311, 0x623) == 0x622,
{
    let p = 0x623;
    let g = 2;
    lemma_chain_start(p, g);
    let e: nat = 0;
    let e = lemma_chain_square(p, g, e, 1, 0, 1);
    let e = lemma_chain_multiply(p, g, e, 1, 0, 2);
    let e = lemma_chain_square(p, g, e, 2, 0, 4);
    let e = lemma_chain_multiply(p, g, e, 4, 0, 8);
    let e = lemma_chain_square(p, g, e, 8, 0, 0x40);
    let e = lemma_chain_square(p, g, e, 0x40, 2, 0x3ba);
    let e = lemma_chain_square(p, g, e, 0x3ba, 0x243, 0x1fb);
    let e = lemma_chain_square(p, g, e, 0x1fb, 0xa3, 0x3d0);
    let e = lemma_chain_multiply(p, g, e, 0x3d0, 1, 0x17d);
    let e = lemma_chain_square(p, g, e, 0x17d, 0x5c, 0x275);
    let e = lemma_chain_square(p, g, e, 0x275, 0xfb, 0x528);
    let e = lemma_chain_square(p, g, e, 0x528, 0x455, 0xa1);
    let e = lemma_chain_square(p, g, e, 0xa1, 0x10, 0x311);
    let e = lemma_chain_multiply(p, g, e, 0x311, 0, 0x622);
}

/// A power of the root 2 modulo 1571.
proof fn lemma_power_1571_2()
    ensures
        pow_mod(2, 0x13a, 0x623) == 0x2ea,
{
    let p = 0x623;
    let g = 2;
    lemma_chain_start(p, g);
    let e: nat = 0;
    let e = lemma_chain_square(p, g, e, 1, 0, 1);
    let e = lemma_chain_multiply(p, g, e, 1, 0, 2);
    let e = lemma_chain_square(p, g, e, 2, 0, 4);
    let e = lemma_chain_square(p, g, e, 4, 0, 0x10);
    let e = lemma_chain_square(p, g, e, 0x10, 0, 0x100);
    let e = lemma_chain_multiply(p, g, e, 0x100, 0, 0x200);
    let e = lemma_chain_square(p, g, e, 0x200, 0xa6, 0x54e);
    let e = lemma_chain_multiply(p, g, e, 0x54e, 1, 0x479);
    let e = lemma_chain_square(p, g, e, 0x479, 0x342, 0x32b);
    let e = lemma_chain_multiply(p, g, e, 0x32b, 1, 0x33);
    let e = lemma_chain_square(p, g, e, 0x33, 1, 0x406);
    let e = lemma_chain_square(p, g, e, 0x406, 0x2a3, 0x1db);
    let e = lemma_chain_multiply(p, g, e, 0x1db, 0, 0x3b6);
    let e = lemma_chain_square(p, g, e, 0x3b6, 0x23e, 0x2ea);
}

/// A power of the root 2 modulo 1571.
proof fn lemma_power_1571_3()
    ensures
        pow_mod(2, 0xa, 0x623) == 0x400,
{
    let p = 0x623;
    let g = 2;
    lemma_chain_start(p, g);
    let e: nat = 0;
    let e = lemma_chain_square(p, g, e, 1, 0, 1);
    let e = lemma_chain_multiply(p, g, e, 1, 0, 2);
    let e = lemma_chain_square(p, g, e, 2, 0, 4);
    let e = lemma_chain_square(p, g, e, 4, 0, 0x10);
    let e = lemma_chain_multiply(p, g, e, 0x10, 0, 0x20);
    let e = lemma_chain_square(p, g, e, 0x20, 0, 0x400);
}

/// A power of a power of the root 2 modulo 1571.
proof fn lemma_power_1571_4()
    ensures
        pow_mod(0x622, 2, 0x623) == 1,
{
    let p = 0x623;
    let g = 0x622;
    lemma_chain_start(p, g);
    let e: nat = 0;
    let e = lemma_chain_square(p, g, e, 1, 0, 1);
    let e = lemma_chain_multiply(p, g, e, 1, 0, 0x622);
    let e = lemma_chain_square(p, g, e, 0x622, 0x621, 1);
}

/// 2 is a primitive root modulo 1571.
pub proof fn lemma_root_1571()
    ensures
        is_primitive_root(2, 0x623),
{
    let p = 0x623;
    let g = 2;
    lemma_power_1571_1();
    lemma_power_1571_2();
    lemma_power_1571_3();
    lemma_power_1571_4();
    lemma_chain_rebase(p, g, 0x311, 0x622, 2, 1);
    lemma_two_is_prime();
    lemma_prime_5();
    lemma_prime_157();
    assert forall|m: int| m >= 2 && #[trigger] (0x622int % m) == 0 implies exists|f: int| #[trigger]
        refutes(2, 0x622, 0x623, m, f) by {
        lemma_euclid(m, 2, 0x311);
        if m % 2 == 0 {
            assert(refutes(2, 0x622, 0x623, m, 2));
        } else {
            lemma_euclid(m, 5, 0x9d);
            if m % 5 == 0 {
                assert(refutes(2, 0x622, 0x623, m, 5));
            } else {
                lemma_euclid(m, 0x9d, 1);
                if m % 0x9d == 0 {
                    assert(refutes(2, 0x622, 0x623, m, 0x9d));
                } else {
                    lemma_small_mod(1, m as nat);
                }
            }
        }
    }
    lemma_lucas(0x623, 0x622, 2);
}

/// 1571 is prime.
pub proof fn lemma_prime_1571()
    ensures
        is_prime(0x623),
{
    lemma_root_1571();
    lemma_root_gives_prime(2, 0x623);
}

/// A power of the root 2 modulo 2837227.
proof fn lemma_power_2837227_1()
    ensures
        pow_mod(2, 0x15a575, 0x2b4aeb) == 0x2b4aea,
{
    let p = 0x2b4aeb;
    let g = 2;
    lemma_chain_start(p, g);
    let e: nat = 0;
    let e = lemma_chain_square(p, g, e, 1, 0, 1);
    let e = lemma_chain_multiply(p, g, e, 1, 0, 2);
    let e = lemma_chain_square(p, g, e, 2, 0, 4);
    let e = lemma_chain_square(p, g, e, 4, 0, 0x10);
    let e = lemma_chain_multiply(p, g, e, 0x10, 0, 0x20);
    let e = lemma_chain_square(p, g, e, 0x20, 0, 0x400);
    let e = lemma_chain_square(p, g, e, 0x400, 0, 0x100000);
    let e = lemma_chain_multiply(p, g, e, 0x100000, 0, 0x200000);
    let e = lemma_chain_square(p, g, e, 0x200000, 0x17a729, 0x14b35d);
    let e = lemma_chain_multiply(p, g, e, 0x14b35d, 0, 0x2966ba);
    let e = lemma_chain_square(p, g, e, 0x2966ba, 0x2797b0, 0xba094);
    let e = lemma_chain_square(p, g, e, 0xba094, 0x31f6e, 0x3af96);
    let e = lemma_chain_multiply(p, g, e, 0x3af96, 0, 0x75f2c);
    let e = lemma_chain_square(p, g, e, 0x75f2c, 0x14157, 0x228eb3);
    let e = lemma_chain_square(p, g, e, 0x228eb3, 0x1b95af, 0x1b1384);
    let e = lemma_chain_square(p, g, e, 0x1b1384, 0x10ef21, 0x1ecec5);
    let e = lemma_chain_multiply(p, g, e, 0x1ecec5, 1, 0x12529f);
    let e = lemma_chain_square(p, g, e, 0x12529f, 0x7c135, 0x27911a);
    let e = lemma_chain_square(p, g, e, 0x27911a, 0x24295f, 0xe066f);
    let e = lemma_chain_multiply(p, g, e, 0xe066f, 0, 0x1c0cde);
    let e = lemma_chain_square(p, g, e, 0x1c0cde, 0x122ca4, 0x132df8);
    let e = lemma_chain_square(p, g, e, 0x132df8, 0x87f38, 0x1627d8);
    let e = lemma_chain_multiply(p, g, e, 0x1627d8, 1, 0x104c5);
    let e = lemma_chain_square(p, g, e, 0x104c5, 0x622, 0x1f4a63);
    let e = lemma_chain_multiply(p, g, e, 0x1f4a63, 1, 0x1349db);
    let e = lemma_chain_square(p, g, e, 0x1349db, 0x897ff, 0x286444);
    let e = lemma_chain_multiply(p, g, e, 0x286444, 1, 0x257d9d);
    let e = lemma_chain_square(p, g, e, 0x257d9d, 0x20775d, 0x173dea);
    let e = lemma_chain_square(p, g, e, 0x173dea, 0xc7a3c, 0x27ccd0);
    let e = lemma_chain_multiply(p, g, e, 0x27ccd0, 1, 0x244eb5);
    let e = lemma_chain_square(p, g, e, 0x244eb5, 0x1e7305, 0x10c462);
    let e = lemma_chain_square(p, g, e, 0x10c462, 0x67e6d, 0x15a575);
    let e = lemma_chain_multiply(p, g, e, 0x15a575, 0, 0x2b4aea);
}

/// A power of the root 2 modulo 2837227.
proof fn lemma_power_2837227_2()
    ensures
        pow_mod(2, 0xe6e4e, 0x2b4aeb) == 0x2a2ccb,
{
    let p = 0x2b4aeb;
    let g = 2;
    lemma_chain_start(p, g);
    let e: nat = 0;
    let e = lemma_chain_square(p, g, e, 1, 0, 1);
    let e = lemma_chain_multiply(p, g, e, 1, 0, 2);
    let e = lemma_chain_square(p, g, e, 2, 0, 4);
    let e = lemma_chain_multiply(p, g, e, 4, 0, 8);
    let e = lemma_chain_square(p, g, e, 8, 0, 0x40);
    let e = lemma_chain_multiply(p, g, e, 0x40, 0, 0x80);
    let e = lemma_chain_square(p, g, e, 0x80, 0, 0x4000);
    let e = lemma_chain_square(p, g, e, 0x4000, 0x5e, 0x1a7db6);
    let e = lemma_chain_square(p, g, e, 0x1a7db6, 0x1035c6, 0x4a4a2);
    let e = lemma_chain_multiply(p, g, e, 0x4a4a2, 0, 0x94944);
    let e = lemma_chain_square(p, g, e, 0x94944, 0x1fdeb, 0xcd557);
    let e = lemma_chain_multiply(p, g, e, 0xcd557, 0, 0x19aaae);
    let e = lemma_chain_square(p, g, e, 0x19aaae, 0xf3787, 0x158f57);
    let e = lemma_chain_square(p, g, e, 0x158f57, 0xabca7, 0x17dc44);
    let e = lemma_chain_multiply(p, g, e, 0x17dc44, 1, 0x46d9d);
    let e = lemma_chain_square(p, g, e, 0x46d9d, 0x73f3, 0x176438);
    let e = lemma_chain_multiply(p, g, e, 0x176438, 1, 0x37d85);
    let e = lemma_chain_square(p, g, e, 0x37d85, 0x4809, 0x116cd6);
    let e = lemma_chain_multiply(p, g, e, 0x116cd6, 0, 0x22d9ac);
    let e = lemma_chain_square(p, g, e, 0x22d9ac, 0x1c0de2, 0xaf91a);
    let e = lemma_chain_square(p, g, e, 0xaf91a, 0x2c800, 0xdfea4);
    let e = lemma_chain_square(p, g, e, 0xdfea4, 0x4861d, 0x275a71);
    let e = lemma_chain_multiply(p, g, e, 0x275a71, 1, 0x2369f7);
    let e = lemma_chain_square(p, g, e, 0x2369f7, 0x1cf812, 0x139fcb);
    let e = lemma_chain_square(p, g, e, 0x139fcb, 0x8e53e, 0x76f0f);
    let e = lemma_chain_square(p, g, e, 0x76f0f, 0x146c6, 0x1ccf1f);
    let e = lemma_chain_multiply(p, g, e, 0x1ccf1f, 1, 0xe5353);
    let e = lemma_chain_square(p, g, e, 0xe5353, 0x4bd83, 0x1017a8);
    let e = lemma_chain_multiply(p, g, e, 0x1017a8, 0, 0x202f50);
    let e = lemma_chain_square(p, g, e, 0x202f50, 0x17ed4e, 0x151666);
    let e = lemma_chain_multiply(p, g, e, 0x151666, 0, 0x2a2ccc);
    let e = lemma_chain_square(p, g, e, 0x2a2ccc, 0x29160f, 0x2a2ccb);
}

/// A power of the root 2 modulo 2837227.
proof fn lemma_power_2837227_3()
    ensures
        pow_mod(2, 0x62f46, 0x2b4aeb) == 0x277052,
{
    let p = 0x2b4aeb;
    let g = 2;
    lemma_chain_start(p, g);
    let e: nat = 0;
    let e = lemma_chain_square(p, g, e, 1, 0, 1);
    let e = lemma_chain_multiply(p, g, e, 1, 0, 2);
    let e = lemma_chain_square(p, g, e, 2, 0, 4);
    let e = lemma_chain_multiply(p, g, e, 4, 0, 8);
    let e = lemma_chain_square(p, g, e, 8, 0, 0x40);
    let e = lemma_chain_square(p, g, e, 0x40, 0, 0x1000);
    let e = lemma_chain_square(p, g, e, 0x1000, 5, 0x278969);
    let e = lemma_chain_square(p, g, e, 0x278969, 0x241b51, 0x1a0fb6);
    let e = lemma_chain_multiply(p, g, e, 0x1a0fb6, 1, 0x8d481);
    let e = lemma_chain_square(p, g, e, 0x8d481, 0x1cd0f, 0x3563c);
    let e = lemma_chain_square(p, g, e, 0x3563c, 0x41d7, 0x12c7b3);
    let e = lemma_chain_multiply(p, g, e, 0x12c7b3, 0, 0x258f66);
    let e = lemma_chain_square(p, g, e, 0x258f66, 0x209632, 0x14c8be);
    let e = lemma_chain_multiply(p, g, e, 0x14c8be, 0, 0x29917c);
    let e = lemma_chain_square(p, g, e, 0x29917c, 0x27e9a2, 0x3685a);
    let e = lemma_chain_multiply(p, g, e, 0x3685a, 0, 0x6d0b4);
    let e = lemma_chain_square(p, g, e, 0x6d0b4, 0x112a7, 0x279943);
    let e = lemma_chain_multiply(p, g, e, 0x279943, 1, 0x23e79b);
    let e = lemma_chain_square(p, g, e, 0x23e79b, 0x1dc70c, 0x7e7d5);
    let e = lemma_chain_square(p, g, e, 0x7e7d5, 0x17191, 0x15ed1e);
    let e = lemma_chain_multiply(p, g, e, 0x15ed1e, 1, 0x8f51);
    let e = lemma_chain_square(p, g, e, 0x8f51, 0x1da, 0x12e083);
    let e = lemma_chain_square(p, g, e, 0x12e083, 0x83b21, 0x20b1be);
    let e = lemma_chain_square(p, g, e, 0x20b1be, 0x18b0c5, 0xe122d);
    let e = lemma_chain_square(p, g, e, 0xe122d, 0x492c7, 0x29193c);
    let e = lemma_chain_multiply(p, g, e, 0x29193c, 1, 0x26e78d);
    let e = lemma_chain_square(p, g, e, 0x26e78d, 0x22f60c, 0x106ea5);
    let e = lemma_chain_multiply(p, g, e, 0x106ea5, 0, 0x20dd4a);
    let e = lemma_chain_square(p, g, e, 0x20dd4a, 0x18f2b6, 0x277052);
}

/// A power of the root 2 modulo 2837227.
proof fn lemma_power_2837227_4()
    ensures
        pow_mod(2, 0x101be, 0x2b4aeb) == 0x154951,
{
    let p = 0x2b4aeb;
    let g = 2;
    lemma_chain_start(p, g);
    let e: nat = 0;
    let e = lemma_chain_square(p, g, e, 1, 0, 1);
    let e = lemma_chain_multiply(p, g, e, 1, 0, 2);
    let e = lemma_chain_square(p, g, e, 2, 0, 4);
    let e = lemma_chain_square(p, g, e, 4, 0, 0x10);
    let e = lemma_chain_square(p, g, e, 0x10, 0, 0x100);
    let e = lemma_chain_square(p, g, e, 0x100, 0, 0x10000);
    let e = lemma_chain_square(p, g, e, 0x10000, 0x5e9, 0x22391d);
    let e = lemma_chain_square(p, g, e, 0x22391d, 0x1b0db6, 0x13bb37);
    let e = lemma_chain_square(p, g, e, 0x13bb37, 0x8fe2b, 0x20a658);
    let e = lemma_chain_square(p, g, e, 0x20a658, 0x189f91, 0xda25);
    let e = lemma_chain_multiply(p, g, e, 0xda25, 0, 0x1b44a);
    let e = lemma_chain_square(p, g, e, 0x1b44a, 0x112c, 0x21aa00);
    let e = lemma_chain_multiply(p, g, e, 0x21aa00, 1, 0x180915);
    let e = lemma_chain_square(p, g, e, 0x180915, 0xd581b, 0x1ccf0);
    let e = lemma_chain_square(p, g, e, 0x1ccf0, 0x132b, 0x1a5a87);
    let e = lemma_chain_multiply(p, g, e, 0x1a5a87, 1, 0x96a23);
    let e = lemma_chain_square(p, g, e, 0x96a23, 0x20c1e, 0xb353f);
    let e = lemma_chain_multiply(p, g, e, 0xb353f, 0, 0x166a7e);
    let e = lemma_chain_square(p, g, e, 0x166a7e, 0xb9b43, 0x2ab183);
    let e = lemma_chain_multiply(p, g, e, 0x2ab183, 1, 0x2a181b);
    let e = lemma_chain_square(p, g, e, 0x2a181b, 0x28edc9, 0xfb156);
    let e = lemma_chain_multiply(p, g, e, 0xfb156, 0, 0x1f62ac);
    let e = lemma_chain_square(p, g, e, 0x1f62ac, 0x16c0d0, 0x2104a0);
    let e = lemma_chain_multiply(p, g, e, 0x2104a0, 1, 0x16be55);
    let e = lemma_chain_square(p, g, e, 0x16be55, 0xbf2b8, 0x154951);
}

/// A power of the root 2 modulo 2837227.
proof fn lemma_power_2837227_5()
    ensures
        pow_mod(2, 0x70e, 0x2b4aeb) == 0xfa9f1,
{
    let p = 0x2b4aeb;
    let g = 2;
    lemma_chain_start(p, g);
    let e: nat = 0;
    let e = lemma_chain_square(p, g, e, 1, 0, 1);
    let e = lemma_chain_multiply(p, g, e, 1, 0, 2);
    let e = lemma_chain_square(p, g, e, 2, 0, 4);
    let e = lemma_chain_multiply(p, g, e, 4, 0, 8);
    let e = lemma_chain_square(p, g, e, 8, 0, 0x40);
    let e = lemma_chain_multiply(p, g, e, 0x40, 0, 0x80);
    let e = lemma_chain_square(p, g, e, 0x80, 0, 0x4000);
    let e = lemma_chain_square(p, g, e, 0x4000, 0x5e, 0x1a7db6);
    let e = lemma_chain_square(p, g, e, 0x1a7db6, 0x1035c6, 0x4a4a2);
    let e = lemma_chain_square(p, g, e, 0x4a4a2, 0x7f7a, 0x23ad86);
    let e = lemma_chain_square(p, g, e, 0x23ad86, 0x1d6702, 0x283f4e);
    let e = lemma_chain_multiply(p, g, e, 0x283f4e, 1, 0x2533b1);
    let e = lemma_chain_square(p, g, e, 0x2533b1, 0x1ff7d4, 0x238c5);
    let e = lemma_chain_multiply(p, g, e, 0x238c5, 0, 0x4718a);
    let e = lemma_chain_square(p, g, e, 0x4718a, 0x74c1, 0x152739);
    let e = lemma_chain_multiply(p, g, e, 0x152739, 0, 0x2a4e72);
    let e = lemma_chain_square(p, g, e, 0x2a4e72, 0x2957b9, 0xfa9f1);
}

/// A power of a power of the root 2 modulo 2837227.
proof fn lemma_power_2837227_6()
    ensures
        pow_mod(0x2b4aea, 2, 0x2b4aeb) == 1,
{
    let p = 0x2b4aeb;
    let g = 0x2b4aea;
    lemma_chain_start(p, g);
    let e: nat = 0;
    let e = lemma_chain_square(p, g, e, 1, 0, 1);
    let e = lemma_chain_multiply(p, g, e, 1, 0, 0x2b4aea);
    let e = lemma_chain_square(p, g, e, 0x2b4aea, 0x2b4ae9, 1);
}

/// 2 is a primitive root modulo 2837227.
pub proof fn lemma_root_2837227()
    ensures
        is_primitive_root(2, 0x2b4aeb),
{
    let p = 0x2b4aeb;
    let g = 2;
    lemma_power_2837227_1();
    lemma_power_2837227_2();
    lemma_power_2837227_3();
    lemma_power_2837227_4();
    lemma_power_2837227_5();
    lemma_power_2837227_6();
    lemma_chain_rebase(p, g, 0x15a575, 0x2b4aea, 2, 1);
    lemma_two_is_prime();
    lemma_prime_3();
    lemma_prime_7();
    lemma_prime_43();
    lemma_prime_1571();
    assert forall|m: int| m >= 2 && #[trigger] (0x2b4aeaint % m) == 0 implies exists|f: int| #[trigger]
        refutes(2, 0x2b4aea, 0x2b4aeb, m, f) by {
        lemma_euclid(m, 2, 0x15a575);
        if m % 2 == 0 {
            assert(refutes(2, 0x2b4aea, 0x2b4aeb, m, 2));
        } else {
            lemma_euclid(m, 3, 0x73727);
            if m % 3 == 0 {
                assert(refutes(2, 0x2b4aea, 0x2b4aeb, m, 3));
            } else {
                lemma_euclid(m, 7, 0x107e1);
                if m % 7 == 0 {
                    assert(refutes(2, 0x2b4aea, 0x2b4aeb, m, 7));
                } else {
                    lemma_euclid(m, 0x2b, 0x623);
                    if m % 0x2b == 0 {
                        assert(refutes(2, 0x2b4aea, 0x2b4aeb, m, 0x2b));
                    } else {
                        lemma_euclid(m, 0x623, 1);
                        if m % 0x623 == 0 {
                            assert(refutes(2, 0x2b4aea, 0x2b4aeb, m, 0x623));
                        } else {
                            lemma_small_mod(1, m as nat);
                        }
                    }
                }
            }
        }
    }
    lemma_lucas(0x2b4aeb, 0x2b4aea, 2);
}

/// 2837227 is prime.
pub proof fn lemma_prime_2837227()
    ensures
        is_prime(0x2b4aeb),
{
    lemma_root_2837227();
    lemma_root_gives_prime(2, 0x2b4aeb);
}

/// A power of the root 5 modulo 187256983.
proof fn lemma_power_187256983_1()
    ensures
        pow_mod(5, 0x594a84b, 0xb295097) == 0xb295096,
{
    let p = 0xb295097;
    let g = 5;
    lemma_chain_start(p, g);
    let e: nat = 0;
    let e = lemma_chain_square(p, g, e, 1, 0, 1);
    let e = lemma_chain_multiply(p, g, e, 1, 0, 5);
    let e = lemma_chain_square(p, g, e, 5, 0, 0x19);
    let e = lemma_chain_square(p, g, e, 0x19, 0, 0x271);
    let e = lemma_chain_multiply(p, g, e, 0x271, 0, 0xc35);
    let e = lemma_chain_square(p, g, e, 0xc35, 0, 0x9502f9);
    let e = lemma_chain_multiply(p, g, e, 0x9502f9, 0, 0x2e90edd);
    let e = lemma_chain_square(p, g, e, 0x2e90edd, 0xc246ff, 0x6885a60);
    let e = lemma_chain_square(p, g, e, 0x6885a60, 0x3d2cf08, 0x3950648);
    let e = lemma_chain_square(p, g, e, 0x3950648, 0x1264f26, 0xa8ce4d6);
    let e = lemma_chain_multiply(p, g, e, 0xa8ce4d6, 4, 0x81b35d2);
    let e = lemma_chain_square(p, g, e, 0x81b35d2, 0x5e32ef5, 0x1b25dc1);
    let e = lemma_chain_square(p, g, e, 0x1b25dc1, 0x42082c, 0x82d398d);
    let e = lemma_chain_multiply(p, g, e, 0x82d398d, 3, 0x7662dfc);
    let e = lemma_chain_square(p, g, e, 0x7662dfc, 0x4e7b1f8, 0x1316c8);
    let e = lemma_chain_square(p, g, e, 0x1316c8, 0x20a5, 0x8032aed);
    let e = lemma_chain_square(p, g, e, 0x8032aed, 0x5c07665, 0x20e39d6);
    let e = lemma_chain_multiply(p, g, e, 0x20e39d6, 0, 0xa47212e);
    let e = lemma_chain_square(p, g, e, 0xa47212e, 0x976d968, 0x11e27ec);
    let e = lemma_chain_square(p, g, e, 0x11e27ec, 0x1ca879, 0x59b9231);
    let e = lemma_chain_multiply(p, g, e, 0x59b9231, 2, 0x5b739c7);
    let e = lemma_chain_square(p, g, e, 0x5b739c7, 0x2ed50b1, 0x301504a);
    let e = lemma_chain_square(p, g, e, 0x301504a, 0xcf21fb, 0x6c3da57);
    let e = lemma_chain_multiply(p, g, e, 0x6c3da57, 3, 0x5751ee);
    let e = lemma_chain_square(p, g, e, 0x5751ee, 0x2ab23, 0x953979f);
    let e = lemma_chain_square(p, g, e, 0x953979f, 0x7cb16bd, 0x5bc7b46);
    let e = lemma_chain_square(p, g, e, 0x5bc7b46, 0x2f2b538, 0x269f31c);
    let e = lemma_chain_square(p, g, e, 0x269f31c, 0x85a4c1, 0x39cad39);
    let e = lemma_chain_square(p, g, e, 0x39cad39, 0x12b3dcd, 0x792c6);
    let e = lemma_chain_multiply(p, g, e, 0x792c6, 0, 0x25ddde);
    let e = lemma_chain_square(p, g, e, 0x25ddde, 0x8077, 0x9f51653);
    let e = lemma_chain_square(p, g, e, 0x9f51653, 0x8e21bed, 0x4c2d61e);
    let e = lemma_chain_square(p, g, e, 0x4c2d61e, 0x207ea5b, 0xb137fd7);
    let e = lemma_chain_multiply(p, g, e, 0xb137fd7, 4, 0xabc3cd7);
    let e = lemma_chain_square(p, g, e, 0xabc3cd7, 0xa535312, 0x13fdcf3);
    let e = lemma_chain_square(p, g, e, 0x13fdcf3, 0x23cea3, 0x57fbc84);
    let e = lemma_chain_multiply(p, g, e, 0x57fbc84, 2, 0x52c0d66);
    let e = lemma_chain_square(p, g, e, 0x52c0d66, 0x2658d9d, 0x476ed09);
    let e = lemma_chain_multiply(p, g, e, 0x476ed09, 1, 0xb295096);
}

/// A power of the root 5 modulo 187256983.
proof fn lemma_power_187256983_2()
    ensures
        pow_mod(5, 0x3b87032, 0xb295097) == 0xaf4007,
{
    let p = 0xb295097;
    let g = 5;
    lemma_chain_start(p, g);
    let e: nat = 0;
    let e = lemma_chain_square(p, g, e, 1, 0, 1);
    let e = lemma_chain_multiply(p, g, e, 1, 0, 5);
    let e = lemma_chain_square(p, g, e, 5, 0, 0x19);
    let e = lemma_chain_multiply(p, g, e, 0x19, 0, 0x7d);
    let e = lemma_chain_square(p, g, e, 0x7d, 0, 0x3d09);
    let e = lemma_chain_multiply(p, g, e, 0x3d09, 0, 0x1312d);
    let e = lemma_chain_square(p, g, e, 0x1312d, 0x20, 0x6a22f09);
    let e = lemma_chain_square(p, g, e, 0x6a22f09, 0x3f14770, 0x1742b41);
    let e = lemma_chain_multiply(p, g, e, 0x1742b41, 0, 0x744d845);
    let e = lemma_chain_square(p, g, e, 0x744d845, 0x4bbe322, 0x91ce98b);
    let e = lemma_chain_multiply(p, g, e, 0x91ce98b, 4, 0xeb4d5b);
    let e = lemma_chain_square(p, g, e, 0xeb4d5b, 0x136098, 0x27c64b1);
    let e = lemma_chain_multiply(p, g, e, 0x27c64b1, 1, 0x144a6de);
    let e = lemma_chain_square(p, g, e, 0x144a6de, 0x24e32a, 0x23b8abe);
    let e = lemma_chain_square(p, g, e, 0x23b8abe, 0x7252fe, 0x4b91132);
    let e = lemma_chain_square(p, g, e, 0x4b91132, 0x1ff9d49, 0x8ce17b5);
    let e = lemma_chain_square(p, g, e, 0x8ce17b5, 0x6f2383e, 0x31d7967);
    let e = lemma_chain_square(p, g, e, 0x31d7967, 0xde930c, 0x2c00b5d);
    let e = lemma_chain_multiply(p, g, e, 0x2c00b5d, 1, 0x296e83a);
    let e = lemma_chain_square(p, g, e, 0x296e83a, 0x99cbfa, 0xb21bcae);
    let e = lemma_chain_multiply(p, g, e, 0xb21bcae, 4, 0xb036d0a);
    let e = lemma_chain_square(p, g, e, 0xb036d0a, 0xade0a1b, 0x53a1e77);
    let e = lemma_chain_multiply(p, g, e, 0x53a1e77, 2, 0x3cff725);
    let e = lemma_chain_square(p, g, e, 0x3cff725, 0x14d5b9f, 0x7b4b090);
    let e = lemma_chain_square(p, g, e, 0x7b4b090, 0x551f1d5, 0x3411c5d);
    let e = lemma_chain_square(p, g, e, 0x3411c5d, 0xf2e940, 0x4f2e509);
    let e = lemma_chain_square(p, g, e, 0x4f2e509, 0x231b953, 0x563da5c);
    let e = lemma_chain_square(p, g, e, 0x563da5c, 0x29a5b9d, 0x496b775);
    let e = lemma_chain_square(p, g, e, 0x496b775, 0x1e2f4e6, 0x45827cf);
    let e = lemma_chain_square(p, g, e, 0x45827cf, 0x1b0e2a9, 0x64537b2);
    let e = lemma_chain_multiply(p, g, e, 0x64537b2, 2, 0x907754c);
    let e = lemma_chain_square(p, g, e, 0x907754c, 0x74de190, 0x26982a0);
    let e = lemma_chain_multiply(p, g, e, 0x26982a0, 1, 0xe63c89);
    let e = lemma_chain_square(p, g, e, 0xe63c89, 0x128d4e, 0x1e4c84f);
    let e = lemma_chain_square(p, g, e, 0x1e4c84f, 0x523ffd, 0x46bba26);
    let e = lemma_chain_square(p, g, e, 0x46bba26, 0x1c04157, 0x25e8353);
    let e = lemma_chain_multiply(p, g, e, 0x25e8353, 1, 0xaf4008);
    let e = lemma_chain_square(p, g, e, 0xaf4008, 0xabfaf, 0xaf4007);
}

/// A power of the root 5 modulo 187256983.
proof fn lemma_power_187256983_3()
    ensures
        pow_mod(5, 0x103c182, 0xb295097) == 0x2e90c10,
{
    let p = 0xb295097;
    let g = 5;
    lemma_chain_start(p, g);
    let e: nat = 0;
    let e = lemma_chain_square(p, g, e, 1, 0, 1);
    let e = lemma_chain_multiply(p, g, e, 1, 0, 5);
    let e = lemma_chain_square(p, g, e, 5, 0, 0x19);
    let e = lemma_chain_square(p, g, e, 0x19, 0, 0x271);
    let e = lemma_chain_square(p, g, e, 0x271, 0, 0x5f5e1);
    let e = lemma_chain_square(p, g, e, 0x5f5e1, 0x32e, 0x9942f9f);
    let e = lemma_chain_square(p, g, e, 0x9942f9f, 0x8387fc1, 0x48b19ea);
    let e = lemma_chain_square(p, g, e, 0x48b19ea, 0x1d973fc, 0x3dd6040);
    let e = lemma_chain_square(p, g, e, 0x3dd6040, 0x1569502, 0x6bb8bd2);
    let e = lemma_chain_multiply(p, g, e, 0x6bb8bd2, 3, 0x2dc955);
    let e = lemma_chain_square(p, g, e, 0x2dc955, 0xbbd3, 0x54cdcc4);
    let e = lemma_chain_multiply(p, g, e, 0x54cdcc4, 2, 0x42daea6);
    let e = lemma_chain_square(p, g, e, 0x42daea6, 0x19073f2, 0x5500fe6);
    let e = lemma_chain_multiply(p, g, e, 0x5500fe6, 2, 0x43dae50);
    let e = lemma_chain_square(p, g, e, 0x43dae50, 0x19c856f, 0x8047487);
    let e = lemma_chain_multiply(p, g, e, 0x8047487, 3, 0x69a54de);
    let e = lemma_chain_square(p, g, e, 0x69a54de, 0x3e7f78f, 0x923bb2b);
    let e = lemma_chain_square(p, g, e, 0x923bb2b, 0x77be780, 0x6ac4cb9);
    let e = lemma_chain_square(p, g, e, 0x6ac4cb9, 0x3fd56db, 0x3f0b284);
    let e = lemma_chain_square(p, g, e, 0x3f0b284, 0x16417da, 0x293a27a);
    let e = lemma_chain_square(p, g, e, 0x293a27a, 0x984837, 0x907d9b3);
    let e = lemma_chain_square(p, g, e, 0x907d9b3, 0x74e8405, 0x28c8436);
    let e = lemma_chain_multiply(p, g, e, 0x28c8436, 1, 0x1954477);
    let e = lemma_chain_square(p, g, e, 0x1954477, 0x397b2b, 0x78d58f4);
    let e = lemma_chain_multiply(p, g, e, 0x78d58f4, 3, 0x446caff);
    let e = lemma_chain_square(p, g, e, 0x446caff, 0x1a3798d, 0x86da7d6);
    let e = lemma_chain_square(p, g, e, 0x86da7d6, 0x65d51b3, 0x906c64f);
    let e = lemma_chain_square(p, g, e, 0x906c64f, 0x74cc67c, 0x926793d);
    let e = lemma_chain_square(p, g, e, 0x926793d, 0x78065f7, 0x35e63d8);
    let e = lemma_chain_square(p, g, e, 0x35e63d8, 0x10448fd, 0x9b5a905);
    let e = lemma_chain_square(p, g, e, 0x9b5a905, 0x87258e4, 0xaebeb9d);
    let e = lemma_chain_multiply(p, g, e, 0xaebeb9d, 4, 0x9f657b5);
    let e = lemma_chain_square(p, g, e, 0x9f657b5, 0x8e4597f, 0x2e90c10);
}

/// A power of the root 5 modulo 187256983.
proof fn lemma_power_187256983_4()
    ensures
        pow_mod(5, 0x42, 0xb295097) == 0x753e188,
{
    let p = 0xb295097;
    let g = 5;
    lemma_chain_start(p, g);
    let e: nat = 0;
    let e = lemma_chain_square(p, g, e, 1, 0, 1);
    let e = lemma_chain_multiply(p, g, e, 1, 0, 5);
    let e = lemma_chain_square(p, g, e, 5, 0, 0x19);
    let e = lemma_chain_square(p, g, e, 0x19, 0, 0x271);
    let e = lemma_chain_square(p, g, e, 0x271, 0, 0x5f5e1);
    let e = lemma_chain_square(p, g, e, 0x5f5e1, 0x32e, 0x9942f9f);
    let e = lemma_chain_square(p, g, e, 0x9942f9f, 0x8387fc1, 0x48b19ea);
    let e = lemma_chain_multiply(p, g, e, 0x48b19ea, 2, 0x64e064);
    let e = lemma_chain_square(p, g, e, 0x64e064, 0x38fb8, 0x753e188);
}

/// A power of a power of the root 5 modulo 187256983.
proof fn lemma_power_187256983_5()
    ensures
        pow_mod(0xb295096, 2, 0xb295097) == 1,
{
    let p = 0xb295097;
    let g = 0xb295096;
    lemma_chain_start(p, g);
    let e: nat = 0;
    let e = lemma_chain_square(p, g, e, 1, 0, 1);
    let e = lemma_chain_multiply(p, g, e, 1, 0, 0xb295096);
    let e = lemma_chain_square(p, g, e, 0xb295096, 0xb295095, 1);
}

/// 5 is a primitive root modulo 187256983.
pub proof fn lemma_root_187256983()
    ensures
        is_primitive_root(5, 0xb295097),
{
    let p = 0xb295097;
    let g = 5;
    lemma_power_187256983_1();
    lemma_power_187256983_2();
    lemma_power_187256983_3();
    lemma_power_187256983_4();
    lemma_power_187256983_5();
    lemma_chain_rebase(p, g, 0x594a84b, 0xb295096, 2, 1);
    lemma_two_is_prime();
    lemma_prime_3();
    lemma_prime_11();
    lemma_prime_2837227();
    assert forall|m: int| m >= 2 && #[trigger] (0xb295096int % m) == 0 implies exists|f: int| #[trigger]
        refutes(5, 0xb295096, 0xb295097, m, f) by {
        lemma_euclid(m, 2, 0x594a84b);
        if m % 2 == 0 {
            assert(refutes(5, 0xb295096, 0xb295097, m, 2));
        } else {
            lemma_euclid(m, 3, 0x1dc3819);
            if m % 3 == 0 {
                assert(refutes(5, 0xb295096, 0xb295097, m, 3));
            } else {
                lemma_euclid(m, 0xb, 0x2b4aeb);
                if m % 0xb == 0 {
                    assert(refutes(5, 0xb295096, 0xb295097, m, 0xb));
                } else {
                    lemma_euclid(m, 0x2b4aeb, 1);
                    if m % 0x2b4aeb == 0 {
                        assert(refutes(5, 0xb295096, 0xb295097, m, 0x2b4aeb));
                    } else {
                        lemma_small_mod(1, m as nat);
                    }
                }
            }
        }
    }
    lemma_lucas(0xb295097, 0xb295096, 5);
}

/// 187256983 is prime.
pub proof fn lemma_prime_187256983()
    ensures
        is_prime(0xb295097),
{
    lemma_root_187256983();
    lemma_root_gives_prime(5, 0xb295097);
}

/// A power of the root 2 modulo 0x255be99f6c3: the steps from the exponent
/// 0
/// to the exponent
/// 0x12adf4cfb60.
proof fn lemma_power_2567293236931_1_part_1(p: int, g: int)
    requires
        p == 0x255be99f6c3,
        g == 2,
        pow_mod(g, 0, p) == 1,
    ensures
        pow_mod(g, 0x12adf4cfb60, p) == 0x12adf4cfb61,
{
    let e: nat = 0;
    let e = lemma_chain_square(p, g, e, 1, 0, 1);
    let e = lemma_chain_multiply(p, g, e, 1, 0, 2);
    let e = lemma_chain_square(p, g, e, 2, 0, 4);
    let e = lemma_chain_square(p, g, e, 4, 0, 0x10);
    let e = lemma_chain_square(p, g, e, 0x10, 0, 0x100);
    let e = lemma_chain_multiply(p, g, e, 0x100, 0, 0x200);
    let e = lemma_chain_square(p, g, e, 0x200, 0, 0x40000);
    let e = lemma_chain_square(p, g, e, 0x40000, 0, 0x1000000000);
    let e = lemma_chain_multiply(p, g, e, 0x1000000000, 0, 0x2000000000);
    let e = lemma_chain_square(p, g, e, 0x2000000000, 0x1b68e2457, 0x7610cfb7bb);
    let e = lemma_chain_square(p, g, e, 0x7610cfb7bb, 0x1751f6740b, 0x14d3d76ec38);
    let e = lemma_chain_multiply(p, g, e, 0x14d3d76ec38, 1, 0x44bc53e1ad);
    let e = lemma_chain_square(p, g, e, 0x44bc53e1ad, 0x7e76e74c2, 0x5b03d83323);
    let e = lemma_chain_square(p, g, e, 0x5b03d83323, 0xddbbaae7b, 0x20ed2e6dd18);
    let e = lemma_chain_multiply(p, g, e, 0x20ed2e6dd18, 1, 0x1c7e733c36d);
    let e = lemma_chain_square(p, g, e, 0x1c7e733c36d, 0x15bb84b0011, 0x220d42d976);
    let e = lemma_chain_multiply(p, g, e, 0x220d42d976, 0, 0x441a85b2ec);
    let e = lemma_chain_square(p, g, e, 0x441a85b2ec, 0x7c263d792, 0x1b220cf895a);
    let e = lemma_chain_square(p, g, e, 0x1b220cf895a, 0x13b4c1ec5ae, 0x8c12d9ac1a);
    let e = lemma_chain_multiply(p, g, e, 0x8c12d9ac1a, 0, 0x11825b35834);
    let e = lemma_chain_square(p, g, e, 0x11825b35834, 0x834c370849, 0x5c6d9954f5);
    let e = lemma_chain_multiply(p, g, e, 0x5c6d9954f5, 0, 0xb8db32a9ea);
    let e = lemma_chain_square(p, g, e, 0xb8db32a9ea, 0x392afecf23, 0x19bcb20603b);
    let e = lemma_chain_multiply(p, g, e, 0x19bcb20603b, 1, 0xe1d7a6c9b3);
    let e = lemma_chain_square(p, g, e, 0xe1d7a6c9b3, 0x555427e866, 0x9d0608977);
    let e = lemma_chain_multiply(p, g, e, 0x9d0608977, 0, 0x13a0c112ee);
    let e = lemma_chain_square(p, g, e, 0x13a0c112ee, 0xa4ff09f3, 0x11fe333f2b);
    let e = lemma_chain_multiply(p, g, e, 0x11fe333f2b, 0, 0x23fc667e56);
    let e = lemma_chain_square(p, g, e, 0x23fc667e56, 0x22a9cec0b, 0x20cbdf36683);
    let e = lemma_chain_square(p, g, e, 0x20cbdf36683, 0x1cca7bebe02, 0x4d17abff83);
    let e = lemma_chain_multiply(p, g, e, 0x4d17abff83, 0, 0x9a2f57ff06);
    let e = lemma_chain_square(p, g, e, 0x9a2f57ff06, 0x27c56ada88, 0xe5ee75ce8c);
    let e = lemma_chain_square(p, g, e, 0xe5ee75ce8c, 0x5872561e90, 0x185c595f4e0);
    let e = lemma_chain_square(p, g, e, 0x185c595f4e0, 0xfe28ab2d05, 0x69a158ab31);
    let e = lemma_chain_multiply(p, g, e, 0x69a158ab31, 0, 0xd342b15662);
    let e = lemma_chain_square(p, g, e, 0xd342b15662, 0x4aaa6a7b44, 0x198d376c0b8);
    let e = lemma_chain_multiply(p, g, e, 0x198d376c0b8, 1, 0xdbe8538aad);
    let e = lemma_chain_square(p, g, e, 0xdbe8538aad, 0x50e72a4296, 0x15cf67a1ca7);
    let e = lemma_chain_square(p, g, e, 0x15cf67a1ca7, 0xcbb96621cd, 0x1d08f9537ca);
    let e = lemma_chain_square(p, g, e, 0x1d08f9537ca, 0x1690d4983f7, 0x1dfb4de8c3f);
    let e = lemma_chain_multiply(p, g, e, 0x1dfb4de8c3f, 1, 0x169ab2321bb);
    let e = lemma_chain_square(p, g, e, 0x169ab2321bb, 0xdad456bde7, 0x21105f61da4);
    let e = lemma_chain_multiply(p, g, e, 0x21105f61da4, 1, 0x1cc4d524485);
    let e = lemma_chain_square(p, g, e, 0x1cc4d524485, 0x162766009eb, 0x2162d688d18);
    let e = lemma_chain_multiply(p, g, e, 0x2162d688d18, 1, 0x1d69c37236d);
    let e = lemma_chain_square(p, g, e, 0x1d69c37236d, 0x172841f419d, 0x196ac0c23d2);
    let e = lemma_chain_multiply(p, g, e, 0x196ac0c23d2, 1, 0xd7997e50e1);
    let e = lemma_chain_square(p, g, e, 0xd7997e50e1, 0x4dc3a89dd2, 0xc696f62cb);
    let e = lemma_chain_multiply(p, g, e, 0xc696f62cb, 0, 0x18d2dec596);
    let e = lemma_chain_square(p, g, e, 0x18d2dec596, 0x107e94315, 0x19685f6ece5);
    let e = lemma_chain_square(p, g, e, 0x19685f6ece5, 0x114798095ce, 0xe58c4ef4ef);
    let e = lemma_chain_multiply(p, g, e, 0xe58c4ef4ef, 0, 0x1cb189de9de);
    let e = lemma_chain_square(p, g, e, 0x1cb189de9de, 0x1609b8d8f19, 0x29b7aad679);
    let e = lemma_chain_multiply(p, g, e, 0x29b7aad679, 0, 0x536f55acf2);
    let e = lemma_chain_square(p, g, e, 0x536f55acf2, 0xba565b861, 0xeb3de86ce1);
    let e = lemma_chain_square(p, g, e, 0xeb3de86ce1, 0x5c94472a5e, 0x1cd55050427);
    let e = lemma_chain_multiply(p, g, e, 0x1cd55050427, 1, 0x144eb70118b);
    let e = lemma_chain_square(p, g, e, 0x144eb70118b, 0xb09e5bf4f0, 0x1f80bf98ea9);
    let e = lemma_chain_multiply(p, g, e, 0x1f80bf98ea9, 1, 0x19a5959268f);
    let e = lemma_chain_square(p, g, e, 0x19a5959268f, 0x119b3eb5392, 0x149c66bcfab);
    let e = lemma_chain_square(p, g, e, 0x149c66bcfab, 0xb5efc49f23, 0x1ef1bcc2290);
    let e = lemma_chain_square(p, g, e, 0x1ef1bcc2290, 0x19a1884c37b, 0xbc1aae784f);
    let e = lemma_chain_square(p, g, e, 0xbc1aae784f, 0x3b31cbe377, 0x23eb0ec8abc);
    let e = lemma_chain_square(p, g, e, 0x23eb0ec8abc, 0x22886dbd1a5, 0x12adf4cfb61);
}

/// A power of the root 2 modulo 0x255be99f6c3: the steps from the exponent
/// 0x12adf4cfb60
/// to the exponent
/// 0x12adf4cfb61.
proof fn lemma_power_2567293236931_1_part_2(p: int, g: int)
    requires
        p == 0x255be99f6c3,
        g == 2,
        pow_mod(g, 0x12adf4cfb60, p) == 0x12adf4cfb61,
    ensures
        pow_mod(g, 0x12adf4cfb61, p) == 0x255be99f6c2,
{
    let e: nat = 0x12adf4cfb60;
    let e = lemma_chain_multiply(p, g, e, 0x12adf4cfb61, 0, 0x255be99f6c2);
}

/// A power of the root 2 modulo 0x255be99f6c3.
proof fn lemma_power_2567293236931_1()
    ensures
        pow_mod(2, 0x12adf4cfb61, 0x255be99f6c3) == 0x255be99f6c2,
{
    let p = 0x255be99f6c3;
    let g = 2;
    lemma_chain_start(p, g);
    lemma_power_2567293236931_1_part_1(p, g);
    lemma_power_2567293236931_1_part_2(p, g);
}

/// A power of the root 2 modulo 0x255be99f6c3.
proof fn lemma_power_2567293236931_2()
    ensures
        pow_mod(2, 0xc73f88a796, 0x255be99f6c3) == 0xce67114cc2,
{
    let p = 0x255be99f6c3;
    let g = 2;
    lemma_chain_start(p, g);
    let e: nat = 0;
    let e = lemma_chain_square(p, g, e, 1, 0, 1);
    let e = lemma_chain_multiply(p, g, e, 1, 0, 2);
    let e = lemma_chain_square(p, g, e, 2, 0, 4);
    let e = lemma_chain_multiply(p, g, e, 4, 0, 8);
    let e = lemma_chain_square(p, g, e, 8, 0, 0x40);
    let e = lemma_chain_square(p, g, e, 0x40, 0, 0x1000);
    let e = lemma_chain_square(p, g, e, 0x1000, 0, 0x1000000);
    let e = lemma_chain_square(p, g, e, 0x1000000, 0x6d, 0x17dd871eef9);
    let e = lemma_chain_multiply(p, g, e, 0x17dd871eef9, 1, 0xa5f249e72f);
    let e = lemma_chain_square(p, g, e, 0xa5f249e72f, 0x2e11f9cb5f, 0xdcbd19a744);
    let e = lemma_chain_multiply(p, g, e, 0xdcbd19a744, 0, 0x1b97a334e88);
    let e = lemma_chain_square(p, g, e, 0x1b97a334e88, 0x14610127805, 0x21b93e3ee71);
    let e = lemma_chain_multiply(p, g, e, 0x21b93e3ee71, 1, 0x1e1692de61f);
    let e = lemma_chain_square(p, g, e, 0x1e1692de61f, 0x183b7d96ed3, 0x23b52888b08);
    let e = lemma_chain_square(p, g, e, 0x23b52888b08, 0x22211753688, 0x22cae0a76a8);
    let e = lemma_chain_square(p, g, e, 0x22cae0a76a8, 0x2066fafd8d3, 0x22b9eb76387);
    let e = lemma_chain_multiply(p, g, e, 0x22b9eb76387, 1, 0x2017ed4d04b);
    let e = lemma_chain_square(p, g, e, 0x2017ed4d04b, 0x1b91eee3419, 0x179533f40ee);
    let e = lemma_chain_multiply(p, g, e, 0x179533f40ee, 1, 0x9ce7e48b19);
    let e = lemma_chain_square(p, g, e, 0x9ce7e48b19, 0x292fee18bf, 0x10353d0c4f4);
    let e = lemma_chain_multiply(p, g, e, 0x10353d0c4f4, 0, 0x206a7a189e8);
    let e = lemma_chain_square(p, g, e, 0x206a7a189e8, 0x1c2079c2ae1, 0x1c1f47842dd);
    let e = lemma_chain_multiply(p, g, e, 0x1c1f47842dd, 1, 0x12e2a568ef7);
    let e = lemma_chain_square(p, g, e, 0x12e2a568ef7, 0x98bf550ea0, 0xeb72530e71);
    let e = lemma_chain_multiply(p, g, e, 0xeb72530e71, 0, 0x1d6e4a61ce2);
    let e = lemma_chain_square(p, g, e, 0x1d6e4a61ce2, 0x172f6362b7f, 0x172e640bc7);
    let e = lemma_chain_multiply(p, g, e, 0x172e640bc7, 0, 0x2e5cc8178e);
    let e = lemma_chain_square(p, g, e, 0x2e5cc8178e, 0x39891dab0, 0x1172d9c1eb4);
    let e = lemma_chain_multiply(p, g, e, 0x1172d9c1eb4, 0, 0x22e5b383d68);
    let e = lemma_chain_square(p, g, e, 0x22e5b383d68, 0x209904792ec, 0x147377b087c);
    let e = lemma_chain_square(p, g, e, 0x147377b087c, 0xb31fe93d4a, 0xfe72a730b2);
    let e = lemma_chain_square(p, g, e, 0xfe72a730b2, 0x6c5037eee3, 0x216ffab22db);
    let e = lemma_chain_square(p, g, e, 0x216ffab22db, 0x1ded6e09ffd, 0x43f444eba2);
    let e = lemma_chain_multiply(p, g, e, 0x43f444eba2, 0, 0x87e889d744);
    let e = lemma_chain_square(p, g, e, 0x87e889d744, 0x1ee6bb4b3e, 0x17ba4c565d6);
    let e = lemma_chain_square(p, g, e, 0x17ba4c565d6, 0xf11f340a70, 0x1a3f042fb94);
    let e = lemma_chain_square(p, g, e, 0x1a3f042fb94, 0x12705e0ade6, 0x19e2bd6135e);
    let e = lemma_chain_square(p, g, e, 0x19e2bd6135e, 0x11ef9a1addc, 0x5e42ea3ff0);
    let e = lemma_chain_multiply(p, g, e, 0x5e42ea3ff0, 0, 0xbc85d47fe0);
    let e = lemma_chain_square(p, g, e, 0xbc85d47fe0, 0x3b754f01d1, 0x2485009cbcd);
    let e = lemma_chain_square(p, g, e, 0x2485009cbcd, 0x23b2ebe2e03, 0x24201c9d3e0);
    let e = lemma_chain_multiply(p, g, e, 0x24201c9d3e0, 1, 0x22e44f9b0fd);
    let e = lemma_chain_square(p, g, e, 0x22e44f9b0fd, 0x20966b9c93c, 0x14c9ac6e955);
    let e = lemma_chain_square(p, g, e, 0x14c9ac6e955, 0xb912732345, 0x260c52aaaa);
    let e = lemma_chain_square(p, g, e, 0x260c52aaaa, 0x26bffcb98, 0x116275a141c);
    let e = lemma_chain_multiply(p, g, e, 0x116275a141c, 0, 0x22c4eb42838);
    let e = lemma_chain_square(p, g, e, 0x22c4eb42838, 0x205be2bd649, 0x1f27a222ca5);
    let e = lemma_chain_multiply(p, g, e, 0x1f27a222ca5, 1, 0x18f35aa6287);
    let e = lemma_chain_square(p, g, e, 0x18f35aa6287, 0x10a9dba1630, 0x1bf0e769ca1);
    let e = lemma_chain_multiply(p, g, e, 0x1bf0e769ca1, 1, 0x1285e53427f);
    let e = lemma_chain_square(p, g, e, 0x1285e53427f, 0x92f15c1a0f, 0x15f64767794);
    let e = lemma_chain_multiply(p, g, e, 0x15f64767794, 1, 0x690a52f865);
    let e = lemma_chain_square(p, g, e, 0x690a52f865, 0x127560981a, 0x20b8771000b);
    let e = lemma_chain_square(p, g, e, 0x20b8771000b, 0x1ca87339126, 0x84263dec87);
    let e = lemma_chain_square(p, g, e, 0x84263dec87, 0x1d3730e6aa, 0x142975e1fb3);
    let e = lemma_chain_multiply(p, g, e, 0x142975e1fb3, 1, 0x2f702248a3);
    let e = lemma_chain_square(p, g, e, 0x2f702248a3, 0x3c3c774a4, 0x1c5c6e0a6dd);
    let e = lemma_chain_square(p, g, e, 0x1c5c6e0a6dd, 0x1587be90579, 0x6aea70e99e);
    let e = lemma_chain_multiply(p, g, e, 0x6aea70e99e, 0, 0xd5d4e1d33c);
    let e = lemma_chain_square(p, g, e, 0xd5d4e1d33c, 0x4c7e7e77af, 0x19212d5a1c3);
    let e = lemma_chain_multiply(p, g, e, 0x19212d5a1c3, 1, 0xce67114cc3);
    let e = lemma_chain_square(p, g, e, 0xce67114cc3, 0x4745749aad, 0xce67114cc2);
}

/// A power of the root 2 modulo 0x255be99f6c3.
proof fn lemma_power_2567293236931_3()
    ensures
        pow_mod(2, 0x778c85315a, 0x255be99f6c3) == 0x24724972afc,
{
    let p = 0x255be99f6c3;
    let g = 2;
    lemma_chain_start(p, g);
    let e: nat = 0;
    let e = lemma_chain_square(p, g, e, 1, 0, 1);
    let e = lemma_chain_multiply(p, g, e, 1, 0, 2);
    let e = lemma_chain_square(p, g, e, 2, 0, 4);
    let e = lemma_chain_multiply(p, g, e, 4, 0, 8);
    let e = lemma_chain_square(p, g, e, 8, 0, 0x40);
    let e = lemma_chain_multiply(p, g, e, 0x40, 0, 0x80);
    let e = lemma_chain_square(p, g, e, 0x80, 0, 0x4000);
    let e = lemma_chain_square(p, g, e, 0x4000, 0, 0x10000000);
    let e = lemma_chain_multiply(p, g, e, 0x10000000, 0, 0x20000000);
    let e = lemma_chain_square(p, g, e, 0x20000000, 0x1b68e, 0x54da677dd6);
    let e = lemma_chain_multiply(p, g, e, 0x54da677dd6, 0, 0xa9b4cefbac);
    let e = lemma_chain_square(p, g, e, 0xa9b4cefbac, 0x302e7625c8, 0xf3ef65c438);
    let e = lemma_chain_multiply(p, g, e, 0xf3ef65c438, 0, 0x1e7decb8870);
    let e = lemma_chain_square(p, g, e, 0x1e7decb8870, 0x18e314b21be, 0xddfd21e946);
    let e = lemma_chain_multiply(p, g, e, 0xddfd21e946, 0, 0x1bbfa43d28c);
    let e = lemma_chain_square(p, g, e, 0x1bbfa43d28c, 0x149c437802b, 0x169034f09cf);
    let e = lemma_chain_square(p, g, e, 0x169034f09cf, 0xda096e8eaf, 0x23653385c14);
    let e = lemma_chain_square(p, g, e, 0x23653385c14, 0x2188ea040e9, 0x17a062c0a15);
    let e = lemma_chain_square(p, g, e, 0x17a062c0a15, 0xef11ae39b2, 0xebf914a723);
    let e = lemma_chain_multiply(p, g, e, 0xebf914a723, 0, 0x1d7f2294e46);
    let e = lemma_chain_square(p, g, e, 0x1d7f2294e46, 0x1749f52357c, 0x14c283ad5b0);
    let e = lemma_chain_multiply(p, g, e, 0x14c283ad5b0, 1, 0x4291dbb49d);
    let e = lemma_chain_square(p, g, e, 0x4291dbb49d, 0x769ebfb59, 0x18ba5922d7e);
    let e = lemma_chain_square(p, g, e, 0x18ba5922d7e, 0x105e0dc51d2, 0x4196d96b0e);
    let e = lemma_chain_square(p, g, e, 0x4196d96b0e, 0x7326cb8dc, 0x20d6c907d30);
    let e = lemma_chain_multiply(p, g, e, 0x20d6c907d30, 1, 0x1c51a87039d);
    let e = lemma_chain_square(p, g, e, 0x1c51a87039d, 0x157766cf753, 0xe85e5de810);
    let e = lemma_chain_square(p, g, e, 0xe85e5de810, 0x5a54ded77c, 0x2389411b58c);
    let e = lemma_chain_square(p, g, e, 0x2389411b58c, 0x21cd5db3924, 0x18a0fee2624);
    let e = lemma_chain_square(p, g, e, 0x18a0fee2624, 0x103c8f2fd90, 0x19d2ccf3060);
    let e = lemma_chain_square(p, g, e, 0x19d2ccf3060, 0x11d98a53818, 0x17de44b59b8);
    let e = lemma_chain_multiply(p, g, e, 0x17de44b59b8, 1, 0xa609fcbcad);
    let e = lemma_chain_square(p, g, e, 0xa609fcbcad, 0x2e1f234b8b, 0xc637197008);
    let e = lemma_chain_square(p, g, e, 0xc637197008, 0x41baadb8fa, 0x1774718ddd2);
    let e = lemma_chain_multiply(p, g, e, 0x1774718ddd2, 1, 0x98cf97c4e1);
    let e = lemma_chain_square(p, g, e, 0x98cf97c4e1, 0x2710c2f33b, 0x10745a55d0);
    let e = lemma_chain_square(p, g, e, 0x10745a55d0, 0x73f4c862, 0x150e86efa5a);
    let e = lemma_chain_square(p, g, e, 0x150e86efa5a, 0xbde460551c, 0xfc0d462b50);
    let e = lemma_chain_multiply(p, g, e, 0xfc0d462b50, 0, 0x1f81a8c56a0);
    let e = lemma_chain_square(p, g, e, 0x1f81a8c56a0, 0x1a921e23303, 0x217793326b7);
    let e = lemma_chain_multiply(p, g, e, 0x217793326b7, 1, 0x1d933cc56ab);
    let e = lemma_chain_square(p, g, e, 0x1d933cc56ab, 0x1769be3f23a, 0x1dc5d0180b);
    let e = lemma_chain_square(p, g, e, 0x1dc5d0180b, 0x17ba161e3, 0x23ec7795e90);
    let e = lemma_chain_square(p, g, e, 0x23ec7795e90, 0x228b2390a05, 0xdc22fda131);
    let e = lemma_chain_square(p, g, e, 0xdc22fda131, 0x51125a3108, 0xfa20bfa249);
    let e = lemma_chain_multiply(p, g, e, 0xfa20bfa249, 0, 0x1f4417f4492);
    let e = lemma_chain_square(p, g, e, 0x1f4417f4492, 0x1a2aac0b200, 0x23a1664d44);
    let e = lemma_chain_square(p, g, e, 0x23a1664d44, 0x21fb5c7d8, 0x1e39be93088);
    let e = lemma_chain_multiply(p, g, e, 0x1e39be93088, 1, 0x17179386a4d);
    let e = lemma_chain_square(p, g, e, 0x17179386a4d, 0xe460548e84, 0x23bb194749d);
    let e = lemma_chain_square(p, g, e, 0x23bb194749d, 0x222c7350f95, 0x10b84359bca);
    let e = lemma_chain_multiply(p, g, e, 0x10b84359bca, 0, 0x217086b3794);
    let e = lemma_chain_square(p, g, e, 0x217086b3794, 0x1dee68aa0c1, 0x679e5e048d);
    let e = lemma_chain_multiply(p, g, e, 0x679e5e048d, 0, 0xcf3cbc091a);
    let e = lemma_chain_square(p, g, e, 0xcf3cbc091a, 0x47d9502feb, 0x15beaef84a3);
    let e = lemma_chain_square(p, g, e, 0x15beaef84a3, 0xca817c5e17, 0xfa772dba44);
    let e = lemma_chain_multiply(p, g, e, 0xfa772dba44, 0, 0x1f4ee5b7488);
    let e = lemma_chain_square(p, g, e, 0x1f4ee5b7488, 0x1a3cc48816c, 0x24724972afc);
}

/// A power of the root 2 modulo 0x255be99f6c3.
proof fn lemma_power_2567293236931_4()
    ensures
        pow_mod(2, 0x14ed771b2, 0x255be99f6c3) == 0x8e9ce5029c,
{
    let p = 0x255be99f6c3;
    let g = 2;
    lemma_chain_start(p, g);
    let e: nat = 0;
    let e = lemma_chain_square(p, g, e, 1, 0, 1);
    let e = lemma_chain_multiply(p, g, e, 1, 0, 2);
    let e = lemma_chain_square(p, g, e, 2, 0, 4);
    let e = lemma_chain_square(p, g, e, 4, 0, 0x10);
    let e = lemma_chain_multiply(p, g, e, 0x10, 0, 0x20);
    let e = lemma_chain_square(p, g, e, 0x20, 0, 0x400);
    let e = lemma_chain_square(p, g, e, 0x400, 0, 0x100000);
    let e = lemma_chain_square(p, g, e, 0x100000, 0, 0x10000000000);
    let e = lemma_chain_multiply(p, g, e, 0x10000000000, 0, 0x20000000000);
    let e = lemma_chain_square(p, g, e, 0x20000000000, 0x1b68e245732, 0x15195a588ea);
    let e = lemma_chain_multiply(p, g, e, 0x15195a588ea, 1, 0x4d6cb11b11);
    let e = lemma_chain_square(p, g, e, 0x4d6cb11b11, 0xa0754ff2b, 0x721ab9e760);
    let e = lemma_chain_multiply(p, g, e, 0x721ab9e760, 0, 0xe43573cec0);
    let e = lemma_chain_square(p, g, e, 0xe43573cec0, 0x572053a3d3, 0x1ee653c0447);
    let e = lemma_chain_square(p, g, e, 0x1ee653c0447, 0x198ea4df8a6, 0x91d1d0613f);
    let e = lemma_chain_multiply(p, g, e, 0x91d1d0613f, 0, 0x123a3a0c27e);
    let e = lemma_chain_square(p, g, e, 0x123a3a0c27e, 0x8e4a625157, 0x232d336a6bf);
    let e = lemma_chain_multiply(p, g, e, 0x232d336a6bf, 1, 0x20fe7d356bb);
    let e = lemma_chain_square(p, g, e, 0x20fe7d356bb, 0x1d239f5fb85, 0x23a0116c84a);
    let e = lemma_chain_square(p, g, e, 0x23a0116c84a, 0x21f8d253840, 0x13737c45ca4);
    let e = lemma_chain_multiply(p, g, e, 0x13737c45ca4, 1, 0x18b0eec285);
    let e = lemma_chain_square(p, g, e, 0x18b0eec285, 0x1051994a2, 0x1039af7f5b3);
    let e = lemma_chain_square(p, g, e, 0x1039af7f5b3, 0x70bfac95b2, 0x8dfb890893);
    let e = lemma_chain_multiply(p, g, e, 0x8dfb890893, 0, 0x11bf7121126);
    let e = lemma_chain_square(p, g, e, 0x11bf7121126, 0x86e697d9ef, 0x12e8b906697);
    let e = lemma_chain_multiply(p, g, e, 0x12e8b906697, 1, 0x75886d66b);
    let e = lemma_chain_square(p, g, e, 0x75886d66b, 0x171c351d, 0x219c1bfbda2);
    let e = lemma_chain_multiply(p, g, e, 0x219c1bfbda2, 1, 0x1ddc4e58481);
    let e = lemma_chain_square(p, g, e, 0x1ddc4e58481, 0x17ddfd8f47b, 0x7576abdd50);
    let e = lemma_chain_square(p, g, e, 0x7576abdd50, 0x17153a1736, 0xac375fa6de);
    let e = lemma_chain_multiply(p, g, e, 0xac375fa6de, 0, 0x1586ebf4dbc);
    let e = lemma_chain_square(p, g, e, 0x1586ebf4dbc, 0xc67816f607, 0x1c9e00b80bb);
    let e = lemma_chain_multiply(p, g, e, 0x1c9e00b80bb, 1, 0x13e017d0ab3);
    let e = lemma_chain_square(p, g, e, 0x13e017d0ab3, 0xa92ea08162, 0xb20917bf83);
    let e = lemma_chain_multiply(p, g, e, 0xb20917bf83, 0, 0x164122f7f06);
    let e = lemma_chain_square(p, g, e, 0x164122f7f06, 0xd41bba3580, 0x1a7b37b33a4);
    let e = lemma_chain_square(p, g, e, 0x1a7b37b33a4, 0x12c5556a01c, 0x1cd4a6fe3bc);
    let e = lemma_chain_square(p, g, e, 0x1cd4a6fe3bc, 0x163fc9ff561, 0xd02f02d32d);
    let e = lemma_chain_square(p, g, e, 0xd02f02d32d, 0x4881b0d337, 0x23be607904);
    let e = lemma_chain_multiply(p, g, e, 0x23be607904, 0, 0x477cc0f208);
    let e = lemma_chain_square(p, g, e, 0x477cc0f208, 0x88cae3614, 0x1bbf634b704);
    let e = lemma_chain_multiply(p, g, e, 0x1bbf634b704, 1, 0x1222dcf7745);
    let e = lemma_chain_square(p, g, e, 0x1222dcf7745, 0x8cde86ccf7, 0x8e7fe4be74);
    let e = lemma_chain_square(p, g, e, 0x8e7fe4be74, 0x21f8a419af, 0xfe930baa43);
    let e = lemma_chain_multiply(p, g, e, 0xfe930baa43, 0, 0x1fd26175486);
    let e = lemma_chain_square(p, g, e, 0x1fd26175486, 0x1b1af3646c2, 0xff2fb3e45e);
    let e = lemma_chain_multiply(p, g, e, 0xff2fb3e45e, 0, 0x1fe5f67c8bc);
    let e = lemma_chain_square(p, g, e, 0x1fe5f67c8bc, 0x1b3c59af0ed, 0x13160800789);
    let e = lemma_chain_square(p, g, e, 0x13160800789, 0x9c02f87559, 0x24c1502de86);
    let e = lemma_chain_square(p, g, e, 0x24c1502de86, 0x2429368004d, 0xcbaafd757d);
    let e = lemma_chain_multiply(p, g, e, 0xcbaafd757d, 0, 0x19755faeafa);
    let e = lemma_chain_square(p, g, e, 0x19755faeafa, 0x11594b9d7d8, 0x8e9ce5029c);
}

/// A power of the root 2 modulo 0x255be99f6c3.
proof fn lemma_power_2567293236931_5()
    ensures
        pow_mod(2, 0x358e, 0x255be99f6c3) == 0xc2a4eaabd7,
{
    let p = 0x255be99f6c3;
    let g = 2;
    lemma_chain_start(p, g);
    let e: nat = 0;
    let e = lemma_chain_square(p, g, e, 1, 0, 1);
    let e = lemma_chain_multiply(p, g, e, 1, 0, 2);
    let e = lemma_chain_square(p, g, e, 2, 0, 4);
    let e = lemma_chain_multiply(p, g, e, 4, 0, 8);
    let e = lemma_chain_square(p, g, e, 8, 0, 0x40);
    let e = lemma_chain_square(p, g, e, 0x40, 0, 0x1000);
    let e = lemma_chain_multiply(p, g, e, 0x1000, 0, 0x2000);
    let e = lemma_chain_square(p, g, e, 0x2000, 0, 0x4000000);
    let e = lemma_chain_square(p, g, e, 0x4000000, 0x6da, 0x84151b4bf2);
    let e = lemma_chain_multiply(p, g, e, 0x84151b4bf2, 0, 0x1082a3697e4);
    let e = lemma_chain_square(p, g, e, 0x1082a3697e4, 0x74be77340e, 0x1411d1ea866);
    let e = lemma_chain_multiply(p, g, e, 0x1411d1ea866, 1, 0x2c7ba35a09);
    let e = lemma_chain_square(p, g, e, 0x2c7ba35a09, 0x34f720671, 0x1889f8bd63e);
    let e = lemma_chain_square(p, g, e, 0x1889f8bd63e, 0x101e41f6b93, 0x24f0476840b);
    let e = lemma_chain_square(p, g, e, 0x24f0476840b, 0x2485db4a755, 0x3b450b34ba);
    let e = lemma_chain_square(p, g, e, 0x3b450b34ba, 0x5e07dea28, 0x2036044aac);
    let e = lemma_chain_multiply(p, g, e, 0x2036044aac, 0, 0x406c089558);
    let e = lemma_chain_square(p, g, e, 0x406c089558, 0x6f16e6d55, 0x1a47aa59881);
    let e = lemma_chain_multiply(p, g, e, 0x1a47aa59881, 1, 0xf336b13a3f);
    let e = lemma_chain_square(p, g, e, 0xf336b13a3f, 0x62f5cae9ac, 0x17ca677557d);
    let e = lemma_chain_multiply(p, g, e, 0x17ca677557d, 1, 0xa38e54b437);
    let e = lemma_chain_square(p, g, e, 0xa38e54b437, 0x2cc0a36c7e, 0xc2a4eaabd7);
}

/// A power of a power of the root 2 modulo 0x255be99f6c3.
proof fn lemma_power_2567293236931_6()
    ensures
        pow_mod(0x255be99f6c2, 2, 0x255be99f6c3) == 1,
{
    let p = 0x255be99f6c3;
    let g = 0x255be99f6c2;
    lemma_chain_start(p, g);
    let e: nat = 0;
    let e = lemma_chain_square(p, g, e, 1, 0, 1);
    let e = lemma_chain_multiply(p, g, e, 1, 0, 0x255be99f6c2);
    let e = lemma_chain_square(p, g, e, 0x255be99f6c2, 0x255be99f6c1, 1);
}

/// 2 is a primitive root modulo 0x255be99f6c3.
pub proof fn lemma_root_2567293236931()
    ensures
        is_primitive_root(2, 0x255be99f6c3),
{
    let p = 0x255be99f6c3;
    let g = 2;
    lemma_power_2567293236931_1();
    lemma_power_2567293236931_2();
    lemma_power_2567293236931_3();
    lemma_power_2567293236931_4();
    lemma_power_2567293236931_5();
    lemma_power_2567293236931_6();
    lemma_chain_rebase(p, g, 0x12adf4cfb61, 0x255be99f6c2, 2, 1);
    lemma_two_is_prime();
    lemma_prime_3();
    lemma_prime_5();
    lemma_prime_457();
    lemma_prime_187256983();
    assert forall|m: int| m >= 2 && #[trigger] (0x255be99f6c2int % m) == 0 implies exists|f: int| #[trigger]
        refutes(2, 0x255be99f6c2, 0x255be99f6c3, m, f) by {
        lemma_euclid(m, 2, 0x12adf4cfb61);
        if m % 2 == 0 {
            assert(refutes(2, 0x255be99f6c2, 0x255be99f6c3, m, 2));
        } else {
            lemma_euclid(m, 3, 0x639fc453cb);
            if m % 3 == 0 {
                assert(refutes(2, 0x255be99f6c2, 0x255be99f6c3, m, 3));
            } else {
                lemma_euclid(m, 5, 0x13ecc0dd8f);
                if m % 5 == 0 {
                    assert(refutes(2, 0x255be99f6c2, 0x255be99f6c3, m, 5));
                } else {
                    lemma_euclid(m, 0x1c9, 0xb295097);
                    if m % 0x1c9 == 0 {
                        assert(refutes(2, 0x255be99f6c2, 0x255be99f6c3, m, 0x1c9));
                    } else {
                        lemma_euclid(m, 0xb295097, 1);
                        if m % 0xb295097 == 0 {
                            assert(refutes(2, 0x255be99f6c2, 0x255be99f6c3, m, 0xb295097));
                        } else {
                            lemma_small_mod(1, m as nat);
                        }
                    }
                }
            }
        }
    }
    lemma_lucas(0x255be99f6c3, 0x255be99f6c2, 2);
}

/// 0x255be99f6c3 is prime.
pub proof fn lemma_prime_2567293236931()
    ensures
        is_prime(0x255be99f6c3),
{
    lemma_root_2567293236931();
    lemma_root_gives_prime(2, 0x255be99f6c3);
}

/// A power of the root 13 modulo 0x188451509eff9: the steps from the exponent
/// 0
/// to the exponent
/// 0xc4228a84f7e.
proof fn lemma_power_431305263804409_1_part_1(p: int, g: int)
    requires
        p == 0x188451509eff9,
        g == 0xd,
        pow_mod(g, 0, p) == 1,
    ensures
        pow_mod(g, 0xc4228a84f7e, p) == 0x179f199d53467,
{
    let e: nat = 0;
    let e = lemma_chain_square(p, g, e, 1, 0, 1);
    let e = lemma_chain_multiply(p, g, e, 1, 0, 0xd);
    let e = lemma_chain_square(p, g, e, 0xd, 0, 0xa9);
    let e = lemma_chain_multiply(p, g, e, 0xa9, 0, 0x895);
    let e = lemma_chain_square(p, g, e, 0x895, 0, 0x49a6b9);
    let e = lemma_chain_square(p, g, e, 0x49a6b9, 0, 0x1530821671b1);
    let e = lemma_chain_square(p, g, e, 0x1530821671b1, 0x12504df8fc4, 0x6ac5ea5aeabd);
    let e = lemma_chain_square(p, g, e, 0x6ac5ea5aeabd, 0x1d1019b3e0f3, 0x1715fa19e662e);
    let e = lemma_chain_multiply(p, g, e, 0x1715fa19e662e, 0xc, 0x5e9e3893f0aa);
    let e = lemma_chain_square(p, g, e, 0x5e9e3893f0aa, 0x16d28ed4d0f7, 0x12d486db657a5);
    let e = lemma_chain_square(p, g, e, 0x12d486db657a5, 0xe766808cd4ae, 0x7d50faf6411b);
    let e = lemma_chain_square(p, g, e, 0x7d50faf6411b, 0x2808bcc4aa91, 0x11431d1d272d0);
    let e = lemma_chain_square(p, g, e, 0x11431d1d272d0, 0xc2777ff4dad9, 0x12f5aa4a374ef);
    let e = lemma_chain_square(p, g, e, 0x12f5aa4a374ef, 0xea97c3aee558, 0x284070713c89);
    let e = lemma_chain_multiply(p, g, e, 0x284070713c89, 1, 0x8300a0b622fc);
    let e = lemma_chain_square(p, g, e, 0x8300a0b622fc, 0x2bbfe4ad88c1, 0xb6d6afd8b557);
    let e = lemma_chain_square(p, g, e, 0xb6d6afd8b557, 0x5538caf23d77, 0x2c7bfc1541d2);
    let e = lemma_chain_square(p, g, e, 0x2c7bfc1541d2, 0x50b6c8b2ed8, 0x1cbe6bac182c);
    let e = lemma_chain_square(p, g, e, 0x1cbe6bac182c, 0x21b316e6030, 0x129e6d38fe8e0);
    let e = lemma_chain_multiply(p, g, e, 0x129e6d38fe8e0, 9, 0x1564b00f5639f);
    let e = lemma_chain_square(p, g, e, 0x1564b00f5639f, 0x12aaef22db551, 0x1bcf958561f8);
    let e = lemma_chain_square(p, g, e, 0x1bcf958561f8, 0x1f8c262e055, 0x8f6063955293);
    let e = lemma_chain_multiply(p, g, e, 0x8f6063955293, 4, 0x126d0ba6d7193);
    let e = lemma_chain_square(p, g, e, 0x126d0ba6d7193, 0xdd927a93b8a7, 0x13c70319f96fa);
    let e = lemma_chain_square(p, g, e, 0x13c70319f96fa, 0xff441affc93d, 0x53a473c63ccf);
    let e = lemma_chain_square(p, g, e, 0x53a473c63ccf, 0x11d5b4ab35ee, 0x9c3c1b6708e3);
    let e = lemma_chain_square(p, g, e, 0x9c3c1b6708e3, 0x3e39cee63557, 0x7871dc33deaa);
    let e = lemma_chain_multiply(p, g, e, 0x7871dc33deaa, 3, 0x184f8ef847eb7);
    let e = lemma_chain_square(p, g, e, 0x184f8ef847eb7, 0x181b3e28f865f, 0x15e94bd0d436a);
    let e = lemma_chain_square(p, g, e, 0x15e94bd0d436a, 0x139529ba6dd57, 0x76a755842545);
    let e = lemma_chain_multiply(p, g, e, 0x76a755842545, 3, 0x16db018981496);
    let e = lemma_chain_square(p, g, e, 0x16db018981496, 0x154e83f1e2b31, 0x21d27b64063b);
    let e = lemma_chain_square(p, g, e, 0x21d27b64063b, 0x2ea8cad2f02, 0x101e93bd73aa7);
    let e = lemma_chain_multiply(p, g, e, 0x101e93bd73aa7, 8, 0xd6af619e7ab3);
    let e = lemma_chain_square(p, g, e, 0xd6af619e7ab3, 0x757eae140b98, 0x14f756d18ea51);
    let e = lemma_chain_square(p, g, e, 0x14f756d18ea51, 0x11ee014849ced, 0x15d7a06d5481c);
    let e = lemma_chain_square(p, g, e, 0x15d7a06d5481c, 0x1375a123dcf9a, 0x15b69018e1046);
    let e = lemma_chain_square(p, g, e, 0x15b69018e1046, 0x133ae3d698adc, 0x17a2d68a95f28);
    let e = lemma_chain_square(p, g, e, 0x17a2d68a95f28, 0x16c9757c1e7b3, 0x12e3b0ef93c25);
    let e = lemma_chain_multiply(p, g, e, 0x12e3b0ef93c25, 0xa, 0x64cf044ae27);
    let e = lemma_chain_square(p, g, e, 0x64cf044ae27, 0x19e818361f, 0x97974f0674ca);
    let e = lemma_chain_square(p, g, e, 0x97974f0674ca, 0x3a94ec36b689, 0x14556dd4d3d23);
    let e = lemma_chain_square(p, g, e, 0x14556dd4d3d23, 0x10dd4268aa24a, 0x118e992b2c2cf);
    let e = lemma_chain_multiply(p, g, e, 0x118e992b2c2cf, 9, 0x796eb5ba74c2);
    let e = lemma_chain_square(p, g, e, 0x796eb5ba74c2, 0x259750314601, 0xd4d6a7d75d0b);
    let e = lemma_chain_multiply(p, g, e, 0xd4d6a7d75d0b, 7, 0x1502f2aa29c0);
    let e = lemma_chain_square(p, g, e, 0x1502f2aa29c0, 0x1201e1aa7a3, 0x35130ba5d575);
    let e = lemma_chain_multiply(p, g, e, 0x35130ba5d575, 1, 0x129b28261e6f8);
    let e = lemma_chain_square(p, g, e, 0x129b28261e6f8, 0xe1ece062a61d, 0x127192744eb0b);
    let e = lemma_chain_multiply(p, g, e, 0x127192744eb0b, 9, 0x131d941267fce);
    let e = lemma_chain_square(p, g, e, 0x131d941267fce, 0xee778a50eb6b, 0xc186aab529b1);
    let e = lemma_chain_square(p, g, e, 0xc186aab529b1, 0x5f79d6902f16, 0x146304b1ad5fb);
    let e = lemma_chain_multiply(p, g, e, 0x146304b1ad5fb, 0xa, 0x13dc0fdf97e05);
    let e = lemma_chain_square(p, g, e, 0x13dc0fdf97e05, 0x101649d854ec7, 0xc906828e838a);
    let e = lemma_chain_multiply(p, g, e, 0xc906828e838a, 6, 0x103b623010e2c);
    let e = lemma_chain_square(p, g, e, 0x103b623010e2c, 0xabf2b5767c5c, 0x23cb1b8bfe14);
    let e = lemma_chain_multiply(p, g, e, 0x23cb1b8bfe14, 1, 0x490b5111f70b);
    let e = lemma_chain_square(p, g, e, 0x490b5111f70b, 0xd99fb80e44b, 0x197d90b92886);
    let e = lemma_chain_multiply(p, g, e, 0x197d90b92886, 0, 0x14b6059670ece);
    let e = lemma_chain_square(p, g, e, 0x14b6059670ece, 0x117ef83318090, 0xe9bcff62b1b4);
    let e = lemma_chain_multiply(p, g, e, 0xe9bcff62b1b4, 7, 0x124b564bd7655);
    let e = lemma_chain_square(p, g, e, 0x124b564bd7655, 0xda6ab016f092, 0x146cd382a2c37);
    let e = lemma_chain_multiply(p, g, e, 0x146cd382a2c37, 0xa, 0x145b907c0df11);
    let e = lemma_chain_square(p, g, e, 0x145b907c0df11, 0x10e77144f230a, 0x179f199d53467);
}

/// A power of the root 13 modulo 0x188451509eff9: the steps from the exponent
/// 0xc4228a84f7e
/// to the exponent
/// 0xc4228a84f7fc.
proof fn lemma_power_431305263804409_1_part_2(p: int, g: int)
    requires
        p == 0x188451509eff9,
        g == 0xd,
        pow_mod(g, 0xc4228a84f7e, p) == 0x179f199d53467,
    ensures
        pow_mod(g, 0xc4228a84f7fc, p) == 0x188451509eff8,
{
    let e: nat = 0xc4228a84f7e;
    let e = lemma_chain_multiply(p, g, e, 0x179f199d53467, 0xc, 0xce07d35c698f);
    let e = lemma_chain_square(p, g, e, 0xce07d35c698f, 0x6c36761729e6, 0xbfb8f093232b);
    let e = lemma_chain_multiply(p, g, e, 0xbfb8f093232b, 6, 0x8ac5b93d2959);
    let e = lemma_chain_square(p, g, e, 0x8ac5b93d2959, 0x3117d971b097, 0x13df72156e512);
    let e = lemma_chain_multiply(p, g, e, 0x13df72156e512, 0xa, 0xd2d9df064230);
    let e = lemma_chain_square(p, g, e, 0xd2d9df064230, 0x7155eeeb48a2, 0xf4ee801e56e);
    let e = lemma_chain_square(p, g, e, 0xf4ee801e56e, 0x98ef2d50ac, 0x188451509eff8);
}

/// A power of the root 13 modulo 0x188451509eff9.
proof fn lemma_power_431305263804409_1()
    ensures
        pow_mod(0xd, 0xc4228a84f7fc, 0x188451509eff9) == 0x188451509eff8,
{
    let p = 0x188451509eff9;
    let g = 0xd;
    lemma_chain_start(p, g);
    lemma_power_431305263804409_1_part_1(p, g);
    lemma_power_431305263804409_1_part_2(p, g);
}

/// A power of the root 13 modulo 0x188451509eff9: the steps from the exponent
/// 0
/// to the exponent
/// 0x4160d8d6fd4.
proof fn lemma_power_431305263804409_2_part_1(p: int, g: int)
    requires
        p == 0x188451509eff9,
        g == 0xd,
        pow_mod(g, 0, p) == 1,
    ensures
        pow_mod(g, 0x4160d8d6fd4, p) == 0x1174e58f196c4,
{
    let e: nat = 0;
    let e = lemma_chain_square(p, g, e, 1, 0, 1);
    let e = lemma_chain_multiply(p, g, e, 1, 0, 0xd);
    let e = lemma_chain_square(p, g, e, 0xd, 0, 0xa9);
    let e = lemma_chain_square(p, g, e, 0xa9, 0, 0x6f91);
    let e = lemma_chain_square(p, g, e, 0x6f91, 0, 0x309f1021);
    let e = lemma_chain_square(p, g, e, 0x309f1021, 0x606, 0x138c4b026ae6b);
    let e = lemma_chain_square(p, g, e, 0x138c4b026ae6b, 0xf9611fe0d11a, 0x12137fdccf86f);
    let e = lemma_chain_square(p, g, e, 0x12137fdccf86f, 0xd53d5659a036, 0x36ba8e5a019b);
    let e = lemma_chain_multiply(p, g, e, 0x36ba8e5a019b, 1, 0x13f34258824e6);
    let e = lemma_chain_square(p, g, e, 0x13f34258824e6, 0x103bf494f0a9b, 0x5695867678e1);
    let e = lemma_chain_square(p, g, e, 0x5695867678e1, 0x131c80ee159b, 0xb1460d4dfcfe);
    let e = lemma_chain_multiply(p, g, e, 0xb1460d4dfcfe, 5, 0x1573543c42909);
    let e = lemma_chain_square(p, g, e, 0x1573543c42909, 0x12c48529d5625, 0x1187843998d54);
    let e = lemma_chain_multiply(p, g, e, 0x1187843998d54, 9, 0x73adb172bd83);
    let e = lemma_chain_square(p, g, e, 0x73adb172bd83, 0x221cef75a7d5, 0xa865a5997dc);
    let e = lemma_chain_square(p, g, e, 0xa865a5997dc, 0x484a7d2f99, 0x850b1479223f);
    let e = lemma_chain_square(p, g, e, 0x850b1479223f, 0x2d1f915452a9, 0x1b6763019e20);
    let e = lemma_chain_square(p, g, e, 0x1b6763019e20, 0x1ea17c2ecb1, 0x2e356f210cd7);
    let e = lemma_chain_square(p, g, e, 0x2e356f210cd7, 0x5717cc52dc2, 0xe94cabf3cdf);
    let e = lemma_chain_square(p, g, e, 0xe94cabf3cdf, 0x8ac0cad7d1, 0x171a62f1a40f8);
    let e = lemma_chain_multiply(p, g, e, 0x171a62f1a40f8, 0xc, 0x623367de0cec);
    let e = lemma_chain_square(p, g, e, 0x623367de0cec, 0x18956596d5b2, 0xc711937df16e);
    let e = lemma_chain_multiply(p, g, e, 0xc711937df16e, 6, 0xea45ff29a2c0);
    let e = lemma_chain_square(p, g, e, 0xea45ff29a2c0, 0x8be9facdff3b, 0x52aff53f3a9d);
    let e = lemma_chain_square(p, g, e, 0x52aff53f3a9d, 0x116e091e685a, 0x5d071987febf);
    let e = lemma_chain_multiply(p, g, e, 0x5d071987febf, 3, 0x208d0cca1fc8);
    let e = lemma_chain_square(p, g, e, 0x208d0cca1fc8, 0x2b37c4955d5, 0xb63d139eb513);
    let e = lemma_chain_multiply(p, g, e, 0xb63d139eb513, 6, 0xf7b80d39221);
    let e = lemma_chain_square(p, g, e, 0xf7b80d39221, 0x9c6f52ecde, 0x676bf9360253);
    let e = lemma_chain_square(p, g, e, 0x676bf9360253, 0x1b4460eb108d, 0x16cae91fdaac4);
    let e = lemma_chain_square(p, g, e, 0x16cae91fdaac4, 0x15308c1f24814, 0x29d4feaa1e9c);
    let e = lemma_chain_square(p, g, e, 0x29d4feaa1e9c, 0x476045124cc, 0x117d3f65b0a4);
    let e = lemma_chain_multiply(p, g, e, 0x117d3f65b0a4, 0, 0xe35c3829f854);
    let e = lemma_chain_square(p, g, e, 0xe35c3829f854, 0x83c7422596b8, 0xdc0e690d7a98);
    let e = lemma_chain_multiply(p, g, e, 0xdc0e690d7a98, 7, 0x72d7c269a9e9);
    let e = lemma_chain_square(p, g, e, 0x72d7c269a9e9, 0x219f3710586e, 0x155c10294c113);
    let e = lemma_chain_square(p, g, e, 0x155c10294c113, 0x129be4f6ec2f3, 0x9b74a74e2c0e);
    let e = lemma_chain_multiply(p, g, e, 0x9b74a74e2c0e, 5, 0x3b9315c68cd9);
    let e = lemma_chain_square(p, g, e, 0x3b9315c68cd9, 0x90c33ed2ed2, 0x14c2ef75f77af);
    let e = lemma_chain_square(p, g, e, 0x14c2ef75f77af, 0x1194d061d1acb, 0x117e20760952e);
    let e = lemma_chain_multiply(p, g, e, 0x117e20760952e, 9, 0x6c0ca28e2395);
    let e = lemma_chain_square(p, g, e, 0x6c0ca28e2395, 0x1dc306611c28, 0x34c4ef1859d1);
    let e = lemma_chain_multiply(p, g, e, 0x34c4ef1859d1, 1, 0x125bb0f329fa4);
    let e = lemma_chain_square(p, g, e, 0x125bb0f329fa4, 0xdbf1e0222732, 0xce8990b536e);
    let e = lemma_chain_square(p, g, e, 0xce8990b536e, 0x6cbeea118c, 0x11d3070abbe18);
    let e = lemma_chain_multiply(p, g, e, 0x11d3070abbe18, 9, 0xb107fb5f3777);
    let e = lemma_chain_square(p, g, e, 0xb107fb5f3777, 0x4fe4e2587c53, 0x13a109e48ef96);
    let e = lemma_chain_multiply(p, g, e, 0x13a109e48ef96, 0xa, 0xa0253750cae4);
    let e = lemma_chain_square(p, g, e, 0xa0253750cae4, 0x41613d5eacd7, 0x5c409c4ac4f1);
    let e = lemma_chain_multiply(p, g, e, 0x5c409c4ac4f1, 3, 0x1678b0ae3052);
    let e = lemma_chain_square(p, g, e, 0x1678b0ae3052, 0x1498bf9a0a5, 0x193217028ec7);
    let e = lemma_chain_multiply(p, g, e, 0x193217028ec7, 0, 0x1478b2b21401b);
    let e = lemma_chain_square(p, g, e, 0x1478b2b21401b, 0x1117f5cc1cabe, 0x1d0acd8fee0b);
    let e = lemma_chain_multiply(p, g, e, 0x1d0acd8fee0b, 0, 0x1798c704f168f);
    let e = lemma_chain_square(p, g, e, 0x1798c704f168f, 0x16b6139f707b9, 0x145b69a41a9f0);
    let e = lemma_chain_multiply(p, g, e, 0x145b69a41a9f0, 0xa, 0x1379302f24176);
    let e = lemma_chain_square(p, g, e, 0x1379302f24176, 0xf77a9ae78ef1, 0x1631806af1afb);
    let e = lemma_chain_square(p, g, e, 0x1631806af1afb, 0x14170ea6920a4, 0x102d9ea841695);
    let e = lemma_chain_multiply(p, g, e, 0x102d9ea841695, 8, 0xe2e84065a5c9);
    let e = lemma_chain_square(p, g, e, 0xe2e84065a5c9, 0x8340f646d34a, 0x50b092371ed7);
    let e = lemma_chain_square(p, g, e, 0x50b092371ed7, 0x10990c1e4631, 0xcf76f66613e8);
    let e = lemma_chain_multiply(p, g, e, 0xcf76f66613e8, 6, 0x1576c04f362f2);
    let e = lemma_chain_square(p, g, e, 0x1576c04f362f2, 0x12ca82a534487, 0x89a829f37c75);
    let e = lemma_chain_square(p, g, e, 0x89a829f37c75, 0x304e9e2ce39d, 0x1174e58f196c4);
}

/// A power of the root 13 modulo 0x188451509eff9: the steps from the exponent
/// 0x4160d8d6fd4
/// to the exponent
/// 0x82c1b1adfaa8.
proof fn lemma_power_431305263804409_2_part_2(p: int, g: int)
    requires
        p == 0x188451509eff9,
        g == 0xd,
        pow_mod(g, 0x4160d8d6fd4, p) == 0x1174e58f196c4,
    ensures
        pow_mod(g, 0x82c1b1adfaa8, p) == 0x10a4dfa1af877,
{
    let e: nat = 0x4160d8d6fd4;
    let e = lemma_chain_multiply(p, g, e, 0x1174e58f196c4, 9, 0x648cc6eb3833);
    let e = lemma_chain_square(p, g, e, 0x648cc6eb3833, 0x19c617b6658e, 0x166028cc2010b);
    let e = lemma_chain_square(p, g, e, 0x166028cc2010b, 0x146be03aeeb0e, 0x12df509a63db);
    let e = lemma_chain_multiply(p, g, e, 0x12df509a63db, 0, 0xf55717d7121f);
    let e = lemma_chain_square(p, g, e, 0xf55717d7121f, 0x9971e67fa338, 0x11a1052db5649);
    let e = lemma_chain_square(p, g, e, 0x11a1052db5649, 0xcad1c962d361, 0x10a4dfa1af878);
    let e = lemma_chain_square(p, g, e, 0x10a4dfa1af878, 0xb4ca06a7e251, 0x10a4dfa1af877);
}

/// A power of the root 13 modulo 0x188451509eff9.
proof fn lemma_power_431305263804409_2()
    ensures
        pow_mod(0xd, 0x82c1b1adfaa8, 0x188451509eff9) == 0x10a4dfa1af877,
{
    let p = 0x188451509eff9;
    let g = 0xd;
    lemma_chain_start(p, g);
    lemma_power_431305263804409_2_part_1(p, g);
    lemma_power_431305263804409_2_part_2(p, g);
}

/// A power of the root 13 modulo 0x188451509eff9: the steps from the exponent
/// 0
/// to the exponent
/// 0x7013bcde449.
proof fn lemma_power_431305263804409_3_part_1(p: int, g: int)
    requires
        p == 0x188451509eff9,
        g == 0xd,
        pow_mod(g, 0, p) == 1,
    ensures
        pow_mod(g, 0x7013bcde449, p) == 0xf89edfc40c29,
{
    let e: nat = 0;
    let e = lemma_chain_square(p, g, e, 1, 0, 1);
    let e = lemma_chain_multiply(p, g, e, 1, 0, 0xd);
    let e = lemma_chain_square(p, g, e, 0xd, 0, 0xa9);
    let e = lemma_chain_multiply(p, g, e, 0xa9, 0, 0x895);
    let e = lemma_chain_square(p, g, e, 0x895, 0, 0x49a6b9);
    let e = lemma_chain_multiply(p, g, e, 0x49a6b9, 0, 0x3bd7765);
    let e = lemma_chain_square(p, g, e, 0x3bd7765, 9, 0x329823779e18);
    let e = lemma_chain_square(p, g, e, 0x329823779e18, 0x6868b687ce9, 0x28e245819c9f);
    let e = lemma_chain_square(p, g, e, 0x28e245819c9f, 0x442d5c7db5f, 0x4c90e7871a5a);
    let e = lemma_chain_square(p, g, e, 0x4c90e7871a5a, 0xef1d836bb73, 0x26b8cd5ab7c9);
    let e = lemma_chain_square(p, g, e, 0x26b8cd5ab7c9, 0x3d2841fd517, 0x1d850b8f3f72);
    let e = lemma_chain_square(p, g, e, 0x1d850b8f3f72, 0x238b1d41d53, 0xa2a9e7794c09);
    let e = lemma_chain_square(p, g, e, 0xa2a9e7794c09, 0x4373c535580c, 0xcd86829580a5);
    let e = lemma_chain_square(p, g, e, 0xcd86829580a5, 0x6baec9b34750, 0xacaaf3f35d89);
    let e = lemma_chain_multiply(p, g, e, 0xacaaf3f35d89, 5, 0x11b54fa2a1018);
    let e = lemma_chain_square(p, g, e, 0x11b54fa2a1018, 0xcca5b959e104, 0x5f29ba40695c);
    let e = lemma_chain_square(p, g, e, 0x5f29ba40695c, 0x17160d302717, 0x7aea7e391ab1);
    let e = lemma_chain_square(p, g, e, 0x7aea7e391ab1, 0x2683e2364b31, 0x77d6c0df8cb8);
    let e = lemma_chain_multiply(p, g, e, 0x77d6c0df8cb8, 3, 0x17d188c3c556d);
    let e = lemma_chain_square(p, g, e, 0x17d188c3c556d, 0x1723d7f32998b, 0x20af9d267336);
    let e = lemma_chain_multiply(p, g, e, 0x20af9d267336, 1, 0x20a5e5e9e9c5);
    let e = lemma_chain_square(p, g, e, 0x20a5e5e9e9c5, 0x2b79d90fe55, 0xb556469c75ec);
    let e = lemma_chain_multiply(p, g, e, 0xb556469c75ec, 6, 0x3c317b65d26);
    let e = lemma_chain_square(p, g, e, 0x3c317b65d26, 0x93c9089bd, 0xe5b0361a35cf);
    let e = lemma_chain_square(p, g, e, 0xe5b0361a35cf, 0x867dabdbbd56, 0x176e448d6eabb);
    let e = lemma_chain_multiply(p, g, e, 0x176e448d6eabb, 0xc, 0xa65ab672abd3);
    let e = lemma_chain_square(p, g, e, 0xa65ab672abd3, 0x468c3b88a1c6, 0x1129e1a5c5c53);
    let e = lemma_chain_multiply(p, g, e, 0x1129e1a5c5c53, 9, 0x279999574076);
    let e = lemma_chain_square(p, g, e, 0x279999574076, 0x3ff6657dd5f, 0x12504c5f633fd);
    let e = lemma_chain_multiply(p, g, e, 0x12504c5f633fd, 9, 0x116d050273418);
    let e = lemma_chain_square(p, g, e, 0x116d050273418, 0xc62c2819b5d0, 0x14d4b73dabaf0);
    let e = lemma_chain_multiply(p, g, e, 0x14d4b73dabaf0, 0xb, 0x11dcfaae2e7d);
    let e = lemma_chain_square(p, g, e, 0x11dcfaae2e7d, 0xd03e9823c8, 0x161f9c8f2a381);
    let e = lemma_chain_square(p, g, e, 0x161f9c8f2a381, 0x13f6b81174a2d, 0x172477dd55e3c);
    let e = lemma_chain_square(p, g, e, 0x172477dd55e3c, 0x15d857eb11262, 0x2ddf50b1bebe);
    let e = lemma_chain_multiply(p, g, e, 0x2ddf50b1bebe, 1, 0xcc1203fcbfad);
    let e = lemma_chain_square(p, g, e, 0xcc1203fcbfad, 0x6a29d743237d, 0x133bb6b476354);
    let e = lemma_chain_multiply(p, g, e, 0x133bb6b476354, 0xa, 0x4dd1a03cab8a);
    let e = lemma_chain_square(p, g, e, 0x4dd1a03cab8a, 0xf7012013a56, 0x1364e97f39ebe);
    let e = lemma_chain_square(p, g, e, 0x1364e97f39ebe, 0xf5784acd53c8, 0xd30d162cdf7c);
    let e = lemma_chain_multiply(p, g, e, 0xd30d162cdf7c, 6, 0x1860ba20bb976);
    let e = lemma_chain_square(p, g, e, 0x1860ba20bb976, 0x183d569b58c68, 0x2334072d193c);
    let e = lemma_chain_multiply(p, g, e, 0x2334072d193c, 1, 0x415f48405813);
    let e = lemma_chain_square(p, g, e, 0x415f48405813, 0xae4f3f336e3, 0x322f303c19e);
    let e = lemma_chain_multiply(p, g, e, 0x322f303c19e, 0, 0x28c65730d506);
    let e = lemma_chain_square(p, g, e, 0x28c65730d506, 0x43d054d7c51, 0x17354243c725b);
    let e = lemma_chain_multiply(p, g, e, 0x17354243c725b, 0xc, 0x7808da9a8ef3);
    let e = lemma_chain_square(p, g, e, 0x7808da9a8ef3, 0x24bb07b7cc84, 0x690609d55245);
    let e = lemma_chain_square(p, g, e, 0x690609d55245, 0x1c1e47aa2999, 0x8fc94688f9c8);
    let e = lemma_chain_square(p, g, e, 0x8fc94688f9c8, 0x34b469db183a, 0x22529a73f5d6);
    let e = lemma_chain_multiply(p, g, e, 0x22529a73f5d6, 1, 0x35ecc2d98be5);
    let e = lemma_chain_square(p, g, e, 0x35ecc2d98be5, 0x769b92bc847, 0x7a4db19d64ca);
    let e = lemma_chain_square(p, g, e, 0x7a4db19d64ca, 0x2621dd219f3e, 0x1750f2e5aa16);
    let e = lemma_chain_square(p, g, e, 0x1750f2e5aa16, 0x162ca1f9217, 0x167463c75a885);
    let e = lemma_chain_square(p, g, e, 0x167463c75a885, 0x1490de3f416c0, 0x5a47aa197459);
    let e = lemma_chain_multiply(p, g, e, 0x5a47aa197459, 2, 0x1851979370893);
    let e = lemma_chain_square(p, g, e, 0x1851979370893, 0x181f46c9d48d3, 0x73214b0fb22e);
    let e = lemma_chain_square(p, g, e, 0x73214b0fb22e, 0x21ca533cdccf, 0x14eaccac8f9ed);
    let e = lemma_chain_square(p, g, e, 0x14eaccac8f9ed, 0x11d8953c83c6a, 0x1234e3a6b2c4f);
    let e = lemma_chain_multiply(p, g, e, 0x1234e3a6b2c4f, 9, 0x1008b3a17d042);
    let e = lemma_chain_square(p, g, e, 0x1008b3a17d042, 0xa7c77e4479c4, 0x841be31ae560);
    let e = lemma_chain_square(p, g, e, 0x841be31ae560, 0x2c7de309e9f7, 0x37561243b9c1);
    let e = lemma_chain_square(p, g, e, 0x37561243b9c1, 0x7ce5c6c8fcf, 0x314c9cad622a);
    let e = lemma_chain_multiply(p, g, e, 0x314c9cad622a, 1, 0xf89edfc40c29);
}

/// A power of the root 13 modulo 0x188451509eff9: the steps from the exponent
/// 0x7013bcde449
/// to the exponent
/// 0x3809de6f2248.
proof fn lemma_power_431305263804409_3_part_2(p: int, g: int)
    requires
        p == 0x188451509eff9,
        g == 0xd,
        pow_mod(g, 0x7013bcde449, p) == 0xf89edfc40c29,
    ensures
        pow_mod(g, 0x3809de6f2248, p) == 0xe02bbd5a9a33,
{
    let e: nat = 0x7013bcde449;
    let e = lemma_chain_square(p, g, e, 0xf89edfc40c29, 0x9d936243ffe9, 0xeea6e11c6df0);
    let e = lemma_chain_square(p, g, e, 0xeea6e11c6df0, 0x913154530bd1, 0x8abaff8ea3b7);
    let e = lemma_chain_square(p, g, e, 0x8abaff8ea3b7, 0x311043122b0e, 0xe02bbd5a9a33);
}

/// A power of the root 13 modulo 0x188451509eff9.
proof fn lemma_power_431305263804409_3()
    ensures
        pow_mod(0xd, 0x3809de6f2248, 0x188451509eff9) == 0xe02bbd5a9a33,
{
    let p = 0x188451509eff9;
    let g = 0xd;
    lemma_chain_start(p, g);
    lemma_power_431305263804409_3_part_1(p, g);
    lemma_power_431305263804409_3_part_2(p, g);
}

/// A power of the root 13 modulo 0x188451509eff9.
proof fn lemma_power_431305263804409_4()
    ensures
        pow_mod(0xd, 0xa8, 0x188451509eff9) == 0xc6cf94597851,
{
    let p = 0x188451509eff9;
    let g = 0xd;
    lemma_chain_start(p, g);
    let e: nat = 0;
    let e = lemma_chain_square(p, g, e, 1, 0, 1);
    let e = lemma_chain_multiply(p, g, e, 1, 0, 0xd);
    let e = lemma_chain_square(p, g, e, 0xd, 0, 0xa9);
    let e = lemma_chain_square(p, g, e, 0xa9, 0, 0x6f91);
    let e = lemma_chain_multiply(p, g, e, 0x6f91, 0, 0x5aa5d);
    let e = lemma_chain_square(p, g, e, 0x5aa5d, 0, 0x201901a5c9);
    let e = lemma_chain_square(p, g, e, 0x201901a5c9, 0x2a05c5a, 0xceb51392de47);
    let e = lemma_chain_multiply(p, g, e, 0xceb51392de47, 6, 0x14d938039a9c5);
    let e = lemma_chain_square(p, g, e, 0x14d938039a9c5, 0x11baa22390885, 0x9d044c353d3c);
    let e = lemma_chain_square(p, g, e, 0x9d044c353d3c, 0x3ed9ac383357, 0x172a1dd67d71);
    let e = lemma_chain_square(p, g, e, 0x172a1dd67d71, 0x15e3030b410, 0xc6cf94597851);
}

/// A power of a power of the root 13 modulo 0x188451509eff9.
proof fn lemma_power_431305263804409_5()
    ensures
        pow_mod(0x188451509eff8, 2, 0x188451509eff9) == 1,
{
    let p = 0x188451509eff9;
    let g = 0x188451509eff8;
    lemma_chain_start(p, g);
    let e: nat = 0;
    let e = lemma_chain_square(p, g, e, 1, 0, 1);
    let e = lemma_chain_multiply(p, g, e, 1, 0, 0x188451509eff8);
    let e = lemma_chain_square(p, g, e, 0x188451509eff8, 0x188451509eff7, 1);
}

/// 13 is a primitive root modulo 0x188451509eff9.
pub proof fn lemma_root_431305263804409()
    ensures
        is_primitive_root(0xd, 0x188451509eff9),
{
    let p = 0x188451509eff9;
    let g = 0xd;
    lemma_power_431305263804409_1();
    lemma_power_431305263804409_2();
    lemma_power_431305263804409_3();
    lemma_power_431305263804409_4();
    lemma_power_431305263804409_5();
    lemma_chain_rebase(p, g, 0xc4228a84f7fc, 0x188451509eff8, 2, 1);
    lemma_two_is_prime();
    lemma_prime_3();
    lemma_prime_7();
    lemma_prime_2567293236931();
    assert forall|m: int| m >= 2 && #[trigger] (0x188451509eff8int % m) == 0 implies exists|f: int| #[trigger]
        refutes(0xd, 0x188451509eff8, 0x188451509eff9, m, f) by {
        lemma_euclid(m, 2, 0xc4228a84f7fc);
        if m % 2 == 0 {
            assert(refutes(0xd, 0x188451509eff8, 0x188451509eff9, m, 2));
        } else {
            lemma_euclid(m, 2, 0x621145427bfe);
            lemma_euclid(m, 2, 0x3108a2a13dff);
            lemma_euclid(m, 3, 0x10583635bf55);
            if m % 3 == 0 {
                assert(refutes(0xd, 0x188451509eff8, 0x188451509eff9, m, 3));
            } else {
                lemma_euclid(m, 7, 0x255be99f6c3);
                if m % 7 == 0 {
                    assert(refutes(0xd, 0x188451509eff8, 0x188451509eff9, m, 7));
                } else {
                    lemma_euclid(m, 0x255be99f6c3, 1);
                    if m % 0x255be99f6c3 == 0 {
                        assert(refutes(0xd, 0x188451509eff8, 0x188451509eff9, m, 0x255be99f6c3));
                    } else {
                        lemma_small_mod(1, m as nat);
                    }
                }
            }
        }
    }
    lemma_lucas(0x188451509eff9, 0x188451509eff8, 0xd);
}

/// 0x188451509eff9 is prime.
pub proof fn lemma_prime_431305263804409()
    ensures
        is_prime(0x188451509eff9),
{
    lemma_root_431305263804409();
    lemma_root_gives_prime(0xd, 0x188451509eff9);
}

/// A power of the root 5 modulo 0x2b2efe9710e4d05725e9.
proof fn lemma_power_203928654140967434528233_1()
    ensures
        pow_mod(5, 0xc, 0x2b2efe9710e4d05725e9int) == 0xe8d4a51,
{
    let p = 0x2b2efe9710e4d05725e9int;
    let g = 5;
    lemma_chain_start(p, g);
    let e: nat = 0;
    let e = lemma_chain_square(p, g, e, 1, 0, 1);
    let e = lemma_chain_multiply(p, g, e, 1, 0, 5);
    let e = lemma_chain_square(p, g, e, 5, 0, 0x19);
    let e = lemma_chain_multiply(p, g, e, 0x19, 0, 0x7d);
    let e = lemma_chain_square(p, g, e, 0x7d, 0, 0x3d09);
    let e = lemma_chain_square(p, g, e, 0x3d09, 0, 0xe8d4a51);
}

/// A power of a power of the root 5 modulo 0x2b2efe9710e4d05725e9: the steps from the exponent
/// 0
/// to the exponent
/// 0x12633cfc772.
proof fn lemma_power_203928654140967434528233_2_part_1(p: int, g: int)
    requires
        p == 0x2b2efe9710e4d05725e9int,
        g == 0xe8d4a51,
        pow_mod(g, 0, p) == 1,
    ensures
        pow_mod(g, 0x12633cfc772, p) == 0x128ac98f062464eaddf7int,
{
    let e: nat = 0;
    let e = lemma_chain_square(p, g, e, 1, 0, 1);
    let e = lemma_chain_multiply(p, g, e, 1, 0, 0xe8d4a51);
    let e = lemma_chain_square(p, g, e, 0xe8d4a51, 0, 0xd3c21bcecceda1);
    let e = lemma_chain_square(p, g, e, 0xd3c21bcecceda1, 0x40e64cbce, 0x110e8fbecf5a62f73ac3int);
    let e = lemma_chain_square(p, g, e, 0x110e8fbecf5a62f73ac3int, 0x6bcba632d481f8aca82int, 0x55a76ad472b8701d637int);
    let e = lemma_chain_multiply(p, g, e, 0x55a76ad472b8701d637int, 0x1cdd0ed, 0xfdc5c21d57b49bb44b2int);
    let e = lemma_chain_square(p, g, e, 0xfdc5c21d57b49bb44b2int, 0x5d351a4bcab5ac8b876int, 0x1458774b77f3bf081a5eint);
    let e = lemma_chain_square(p, g, e, 0x1458774b77f3bf081a5eint, 0x995ec957477abd20917int, 0x1f228331a90d684ba195int);
    let e = lemma_chain_square(p, g, e, 0x1f228331a90d684ba195int, 0x1672a3bce172d71d27d0int, 0xf22721aa1a49b507469int);
    let e = lemma_chain_multiply(p, g, e, 0xf22721aa1a49b507469int, 0x5199a64, 0x18cc63b860b232563635int);
    let e = lemma_chain_square(p, g, e, 0x18cc63b860b232563635int, 0xe3d98b6b9c061835e82int, 0x22e8fc46e181afae98a7int);
    let e = lemma_chain_multiply(p, g, e, 0x22e8fc46e181afae98a7int, 0xbc3915a, 0x7ed6ba2adec5c245edint);
    let e = lemma_chain_square(p, g, e, 0x7ed6ba2adec5c245edint, 0x1748d0327a2bfc14eint, 0x153618abdecde754676bint);
    let e = lemma_chain_square(p, g, e, 0x153618abdecde754676bint, 0xa6b34b6560bc2a125dbint, 0x2070c1f0256de56e2b66int);
    let e = lemma_chain_square(p, g, e, 0x2070c1f0256de56e2b66int, 0x185eb7ed877cf75ed7e8int, 0x188b19316e2414a4627cint);
    let e = lemma_chain_square(p, g, e, 0x188b19316e2414a4627cint, 0xdf2fe9e1aeb42980626int, 0x24c9f7f4da912898157aint);
    let e = lemma_chain_multiply(p, g, e, 0x24c9f7f4da912898157aint, 0xc65a605, 0x23ff3be0cee0d9503c0dint);
    let e = lemma_chain_square(p, g, e, 0x23ff3be0cee0d9503c0dint, 0x1e01a4f31e955582d191int, 0x25ea6b37a78ddb9466b0int);
    let e = lemma_chain_multiply(p, g, e, 0x25ea6b37a78ddb9466b0int, 0xcc6d994, 0x106006ca21a4fed8f1fcint);
    let e = lemma_chain_square(p, g, e, 0x106006ca21a4fed8f1fcint, 0x6359b27769b382df66fint, 0x19716677fdcf97d01a09int);
    let e = lemma_chain_square(p, g, e, 0x19716677fdcf97d01a09int, 0xefd937db2cc93f21860int, 0x23c8a6a70e4601c7c4f1int);
    let e = lemma_chain_square(p, g, e, 0x23c8a6a70e4601c7c4f1int, 0x1da6ea4f19ae565274a2int, 0x1348afdc5401e93a596fint);
    let e = lemma_chain_multiply(p, g, e, 0x1348afdc5401e93a596fint, 0x67f8e18, 0x10d14cdfe0e9d9a99647int);
    let e = lemma_chain_square(p, g, e, 0x10d14cdfe0e9d9a99647int, 0x68cac48a2d9b541082eint, 0x163c2ffb764a99f42fd3int);
    let e = lemma_chain_multiply(p, g, e, 0x163c2ffb764a99f42fd3int, 0x77e2462, 0x946d3be926522edd891int);
    let e = lemma_chain_square(p, g, e, 0x946d3be926522edd891int, 0x1fe28adf9f23166e2a4int, 0x19eaa33f562c1c8d06ddint);
    let e = lemma_chain_multiply(p, g, e, 0x19eaa33f562c1c8d06ddint, 0x8bbba26, 0x2832cb74ca1472a62357int);
    let e = lemma_chain_square(p, g, e, 0x2832cb74ca1472a62357int, 0x256b6c0329140ec2a1caint, 0x22ea1eb10bfea98774b7int);
    let e = lemma_chain_multiply(p, g, e, 0x22ea1eb10bfea98774b7int, 0xbc3f337, 0x190a148eca3b73383d8int);
    let e = lemma_chain_square(p, g, e, 0x190a148eca3b73383d8int, 0xe84cb15f19391a739int, 0x295f67cf5971adb565fint);
    let e = lemma_chain_square(p, g, e, 0x295f67cf5971adb565fint, 0x27a341ccfda6104fd2int, 0x2a3b8de3e03feeedf71fint);
    let e = lemma_chain_square(p, g, e, 0x2a3b8de3e03feeedf71fint, 0x294d798b4ea8ca4ce53cint, 0x1bbaf47715433d708625int);
    let e = lemma_chain_multiply(p, g, e, 0x1bbaf47715433d708625int, 0x958311e, 0x17cf8f4db35d8e321967int);
    let e = lemma_chain_square(p, g, e, 0x17cf8f4db35d8e321967int, 0xd21004a4e2fd4ac04c6int, 0x39a2a985ede4636513bint);
    let e = lemma_chain_multiply(p, g, e, 0x39a2a985ede4636513bint, 0x136bff3, 0x26b719d1ded13201ee80int);
    let e = lemma_chain_square(p, g, e, 0x26b719d1ded13201ee80int, 0x22b591c0eeebe94f9ff1int, 0xbfd2a32216b4b4d8a7int);
    let e = lemma_chain_multiply(p, g, e, 0xbfd2a32216b4b4d8a7int, 0x40a3db, 0x1c399daa8ab0b7e30984int);
    let e = lemma_chain_square(p, g, e, 0x1c399daa8ab0b7e30984int, 0x1272b59247ddaadedda2int, 0x13e92d3fa9e8eb84699eint);
    let e = lemma_chain_multiply(p, g, e, 0x13e92d3fa9e8eb84699eint, 0x6b5a2f7, 0x288f7f519b5e2da3112fint);
    let e = lemma_chain_square(p, g, e, 0x288f7f519b5e2da3112fint, 0x2618c9b6949e96ab8edfint, 0x1676bc354d50bd6d02aaint);
    let e = lemma_chain_multiply(p, g, e, 0x1676bc354d50bd6d02aaint, 0x791df16, 0x6b8a90beff18c68c2c4int);
    let e = lemma_chain_square(p, g, e, 0x6b8a90beff18c68c2c4int, 0x10bd02546238dcca964int, 0x2537058edbd3beb0060cint);
    let e = lemma_chain_multiply(p, g, e, 0x2537058edbd3beb0060cint, 0xc8a65a4, 0x6f22e3eecdcfeaa2b88int);
    let e = lemma_chain_square(p, g, e, 0x6f22e3eecdcfeaa2b88int, 0x11e0495b9b4aee83f13int, 0x2eb54540d6c1612d0f5int);
    let e = lemma_chain_square(p, g, e, 0x2eb54540d6c1612d0f5int, 0x3285300a30df251316int, 0x316f97bc29558087d73int);
    let e = lemma_chain_square(p, g, e, 0x316f97bc29558087d73int, 0x3897ef05328d976902int, 0x19dc8faf575d13ffa4d7int);
    let e = lemma_chain_square(p, g, e, 0x19dc8faf575d13ffa4d7int, 0xf7ce3b5e0e75c5ff912int, 0x16b6dce7620680fee12fint);
    let e = lemma_chain_multiply(p, g, e, 0x16b6dce7620680fee12fint, 0x7a77b27, 0x67b17143260231c60int);
    let e = lemma_chain_square(p, g, e, 0x67b17143260231c60int, 0xf8fd5f2c37555d, 0x11cfc2853f97f517015bint);
    let e = lemma_chain_multiply(p, g, e, 0x11cfc2853f97f517015bint, 0x60089f5, 0x19378b24a24e6f19c2ceint);
    let e = lemma_chain_square(p, g, e, 0x19378b24a24e6f19c2ceint, 0xeb9b3e2149aa4e5749eint, 0x5e22f4777060414e3f6int);
    let e = lemma_chain_multiply(p, g, e, 0x5e22f4777060414e3f6int, 0x1fb8d18, 0xd4af8ed9142ba7f59feint);
    let e = lemma_chain_square(p, g, e, 0xd4af8ed9142ba7f59feint, 0x41782a5517172cfcf64int, 0x197f43ab190d3e8d6200int);
    let e = lemma_chain_square(p, g, e, 0x197f43ab190d3e8d6200int, 0xf0dee305b2b449d77fbint, 0x1c9d4558b3b52d8d858dint);
    let e = lemma_chain_multiply(p, g, e, 0x1c9d4558b3b52d8d858dint, 0x9a47493, 0xfc5f5fc25c9fd8eaad2int);
    let e = lemma_chain_square(p, g, e, 0xfc5f5fc25c9fd8eaad2int, 0x5c2e91a1b0af56e3550int, 0xb6651819d7199c07e74int);
    let e = lemma_chain_multiply(p, g, e, 0xb6651819d7199c07e74int, 0x3d768c0, 0x193100ba3e710de773f4int);
    let e = lemma_chain_square(p, g, e, 0x193100ba3e710de773f4int, 0xeb211547db638d4ecacint, 0xcdf0c245889068dc04int);
    let e = lemma_chain_multiply(p, g, e, 0xcdf0c245889068dc04int, 0x4565bc, 0x23e2fb67ea04cd390128int);
    let e = lemma_chain_square(p, g, e, 0x23e2fb67ea04cd390128int, 0x1dd29dbaad5a92515d9aint, 0xae62fd2d05ab5e5e316int);
    let e = lemma_chain_square(p, g, e, 0xae62fd2d05ab5e5e316int, 0x2c0382fa1a490cf5fccint, 0x279119af9f5016e15938int);
    let e = lemma_chain_square(p, g, e, 0x279119af9f5016e15938int, 0x2440c0c67a50dcefe310int, 0x11512aae98e8a6f102b0int);
    let e = lemma_chain_multiply(p, g, e, 0x11512aae98e8a6f102b0int, 0x5d5e13a, 0x221df030c78eb40b59e6int);
    let e = lemma_chain_square(p, g, e, 0x221df030c78eb40b59e6int, 0x1af4334c70e76ce81225int, 0x128ac98f062464eaddf7int);
}

/// A power of a power of the root 5 modulo 0x2b2efe9710e4d05725e9: the steps from the exponent
/// 0x12633cfc772
/// to the exponent
/// 0x498cf3f1dcfeb.
proof fn lemma_power_203928654140967434528233_2_part_2(p: int, g: int)
    requires
        p == 0x2b2efe9710e4d05725e9int,
        g == 0xe8d4a51,
        pow_mod(g, 0x12633cfc772, p) == 0x128ac98f062464eaddf7int,
    ensures
        pow_mod(g, 0x498cf3f1dcfeb, p) == 0x26cb8eb64e7a5cd6a3c2int,
{
    let e: nat = 0x12633cfc772;
    let e = lemma_chain_multiply(p, g, e, 0x128ac98f062464eaddf7int, 0x63f9024, 0x1ee631a77e7b79993c63int);
    let e = lemma_chain_square(p, g, e, 0x1ee631a77e7b79993c63int, 0x161bfdad55e960559121int, 0x24115b1c3138a482b240int);
    let e = lemma_chain_multiply(p, g, e, 0x24115b1c3138a482b240int, 0xc277027, 0x25b302503325f1c52fc1int);
    let e = lemma_chain_square(p, g, e, 0x25b302503325f1c52fc1int, 0x20e95472fe42ff2af8a4int, 0x14788eef220ab62a6e3dint);
    let e = lemma_chain_multiply(p, g, e, 0x14788eef220ab62a6e3dint, 0x6e5f3fa, 0x11f3313d6b63675f52c3int);
    let e = lemma_chain_square(p, g, e, 0x11f3313d6b63675f52c3int, 0x77611710f5b809c7e30int, 0x1bc4ba4a6a94e27fb6d9int);
    let e = lemma_chain_multiply(p, g, e, 0x1bc4ba4a6a94e27fb6d9int, 0x95b7c2d, 0x2a0a53589279a8470eb4int);
    let e = lemma_chain_square(p, g, e, 0x2a0a53589279a8470eb4int, 0x28ed679cf0680200a54aint, 0x1e0e7331abcd32100c36int);
    let e = lemma_chain_multiply(p, g, e, 0x1e0e7331abcd32100c36int, 0xa20dc51, 0x136c3a13b21681123e5dint);
    let e = lemma_chain_square(p, g, e, 0x136c3a13b21681123e5dint, 0x8bc5e4d47fe4cae9ea7int, 0x145fa3547b9deba7a4caint);
    let e = lemma_chain_multiply(p, g, e, 0x145fa3547b9deba7a4caint, 0x6dd8e31, 0x3be59a1abf36d150851int);
    let e = lemma_chain_square(p, g, e, 0x3be59a1abf36d150851int, 0x531427fb2736ded87dint, 0xa6f4b1254010ef70edcint);
    let e = lemma_chain_square(p, g, e, 0xa6f4b1254010ef70edcint, 0x2857b91c90e649d1c90int, 0x15cf89751647c054fe00int);
    let e = lemma_chain_multiply(p, g, e, 0x15cf89751647c054fe00int, 0x759877f, 0x288e706d83497515b069int);
    let e = lemma_chain_square(p, g, e, 0x288e706d83497515b069int, 0x2616ccdda5bc27f19a20int, 0x139f401bb81cbdbea3f1int);
    let e = lemma_chain_square(p, g, e, 0x139f401bb81cbdbea3f1int, 0x8ea8075dde5f2c8b69dint, 0x206db94e1bf7024ae2fcint);
    let e = lemma_chain_multiply(p, g, e, 0x206db94e1bf7024ae2fcint, 0xaed7fa2, 0x13477e061f29e671154aint);
    let e = lemma_chain_square(p, g, e, 0x13477e061f29e671154aint, 0x89b7230f84ad0667213int, 0x1eed877f7d4614e9a719int);
    let e = lemma_chain_multiply(p, g, e, 0x1eed877f7d4614e9a719int, 0xa6c088f, 0x26cb8eb64e7a5cd6a3c2int);
}

/// A power of a power of the root 5 modulo 0x2b2efe9710e4d05725e9.
proof fn lemma_power_203928654140967434528233_2()
    ensures
        pow_mod(0xe8d4a51, 0x498cf3f1dcfeb, 0x2b2efe9710e4d05725e9int) == 0x26cb8eb64e7a5cd6a3c2int,
{
    let p = 0x2b2efe9710e4d05725e9int;
    let g = 0xe8d4a51;
    lemma_chain_start(p, g);
    lemma_power_203928654140967434528233_2_part_1(p, g);
    lemma_power_203928654140967434528233_2_part_2(p, g);
}

/// A power of a power of the root 5 modulo 0x2b2efe9710e4d05725e9.
proof fn lemma_power_203928654140967434528233_3()
    ensures
        pow_mod(0x26cb8eb64e7a5cd6a3c2int, 0x6433fd, 0x2b2efe9710e4d05725e9int) == 0x2b2efe9710e4d05725e8int,
{
    let p = 0x2b2efe9710e4d05725e9int;
    let g = 0x26cb8eb64e7a5cd6a3c2int;
    lemma_chain_start(p, g);
    let e: nat = 0;
    let e = lemma_chain_square(p, g, e, 1, 0, 1);
    let e = lemma_chain_multiply(p, g, e, 1, 0, 0x26cb8eb64e7a5cd6a3c2int);
    let e = lemma_chain_square(p, g, e, 0x26cb8eb64e7a5cd6a3c2int, 0x22da49798a0bfc032088int, 0x16d89d703d9e40545b3cint);
    let e = lemma_chain_multiply(p, g, e, 0x16d89d703d9e40545b3cint, 0x1486437fd644dffb37faint, 0x1710b7f09f35f97942eeint);
    let e = lemma_chain_square(p, g, e, 0x1710b7f09f35f97942eeint, 0xc51d76e83e7ddcf925aint, 0x228938f0e67b93d25f5aint);
    let e = lemma_chain_square(p, g, e, 0x228938f0e67b93d25f5aint, 0x1b9ec296075aac4c23f6int, 0x2add180400400412a2beint);
    let e = lemma_chain_square(p, g, e, 0x2add180400400412a2beint, 0x2a8bccc584d51a7bf23dint, 0x365cbe5ff63529fba7fint);
    let e = lemma_chain_multiply(p, g, e, 0x365cbe5ff63529fba7fint, 0x30d67d019982dabeb1aint, 0x7c76bc9503c6aaa7494int);
    let e = lemma_chain_square(p, g, e, 0x7c76bc9503c6aaa7494int, 0x166baded4052a4b6747int, 0x10b0358cf8d36bf732f1int);
    let e = lemma_chain_square(p, g, e, 0x10b0358cf8d36bf732f1int, 0x672ff6e1bc6be8fe568int, 0x23f713dffd3519b93339int);
    let e = lemma_chain_square(p, g, e, 0x23f713dffd3519b93339int, 0x1df40d734d7c315237b5int, 0x17e9c3ed9b04703ce5f4int);
    let e = lemma_chain_square(p, g, e, 0x17e9c3ed9b04703ce5f4int, 0xd3df643ccab7b4d2d4eint, 0xffa5c0718eaf2a1ee92int);
    let e = lemma_chain_square(p, g, e, 0xffa5c0718eaf2a1ee92int, 0x5e96ff1085dc0d6aea7int, 0x1fc630f5f2956493b245int);
    let e = lemma_chain_multiply(p, g, e, 0x1fc630f5f2956493b245int, 0x1c8b92e341cb5fe3408fint, 0xfb66a7925a8d5599a23int);
    let e = lemma_chain_square(p, g, e, 0xfb66a7925a8d5599a23int, 0x5b7939338127f786838int, 0x328a50780f70752dd1int);
    let e = lemma_chain_multiply(p, g, e, 0x328a50780f70752dd1int, 0x2d677d4f7ed2d47bd7int, 0x1c6dfb64bd1bde5301b3int);
    let e = lemma_chain_square(p, g, e, 0x1c6dfb64bd1bde5301b3int, 0x12b769367998e4c6bdebint, 0x151d0174e74020e21146int);
    let e = lemma_chain_square(p, g, e, 0x151d0174e74020e21146int, 0xa529d42a0db88ae779eint, 0x19f7e24283305bfbaa56int);
    let e = lemma_chain_square(p, g, e, 0x19f7e24283305bfbaa56int, 0xf9daec064e950f5c958int, 0xc2d98f02c3377445bccint);
    let e = lemma_chain_multiply(p, g, e, 0xc2d98f02c3377445bccint, 0xaf0c77543267d0a7a87int, 0x133f88e22ed74ea86cb9int);
    let e = lemma_chain_square(p, g, e, 0x133f88e22ed74ea86cb9int, 0x89458b2ddcd9564d52bint, 0x155184305855afca628eint);
    let e = lemma_chain_multiply(p, g, e, 0x155184305855afca628eint, 0x1326e8d440def9219327int, 0xc59741b47b32be881dint);
    let e = lemma_chain_square(p, g, e, 0xc59741b47b32be881dint, 0x38818dbbcad76d358int, 0x1042bce5119246d0c031int);
    let e = lemma_chain_multiply(p, g, e, 0x1042bce5119246d0c031int, 0xe9bb5b0635b02c157e5int, 0xa87428cfc8e7706bfb5int);
    let e = lemma_chain_square(p, g, e, 0xa87428cfc8e7706bfb5int, 0x2911dfc5883f90f43edint, 0x1a907ee84da248ca8244int);
    let e = lemma_chain_multiply(p, g, e, 0x1a907ee84da248ca8244int, 0x17dd696dfcc1cb8151f0int, 0x188b072151c3ad24c018int);
    let e = lemma_chain_square(p, g, e, 0x188b072151c3ad24c018int, 0xdf2ea15ea10a2718c8dint, 0x13e57757a07b704fb4ebint);
    let e = lemma_chain_multiply(p, g, e, 0x13e57757a07b704fb4ebint, 0x11dfdae2dfb906e9f17eint, 0x480ea38d05b0064b968int);
    let e = lemma_chain_square(p, g, e, 0x480ea38d05b0064b968int, 0x783c8545818b716d2fint, 0x248a9294163c58a4f79int);
    let e = lemma_chain_multiply(p, g, e, 0x248a9294163c58a4f79int, 0x20d3efd27bdf296daf8int, 0x43c6a4f803b2b5520faint);
    let e = lemma_chain_square(p, g, e, 0x43c6a4f803b2b5520faint, 0x6a5f920970900284e2int, 0x1fecba739640adf5d872int);
    let e = lemma_chain_multiply(p, g, e, 0x1fecba739640adf5d872int, 0x1cae31d268b47be30a1aint, 0x26065321fb5237aa8baint);
    let e = lemma_chain_square(p, g, e, 0x26065321fb5237aa8baint, 0x217b6d4ec1facf8da1int, 0x1e8b6da39d1ee4657a9bint);
    let e = lemma_chain_multiply(p, g, e, 0x1e8b6da39d1ee4657a9bint, 0x1b70cc3e8facc8e0be8cint, 0xcae358eb86a11ddf10aint);
    let e = lemma_chain_square(p, g, e, 0xcae358eb86a11ddf10aint, 0x3b93911dd4d48d10d25int, 0x6287a20012a5d7984b7int);
    let e = lemma_chain_square(p, g, e, 0x6287a20012a5d7984b7int, 0xe0cf832ad51bc9da8dint, 0x200aa59ccc6d6291ef7cint);
    let e = lemma_chain_multiply(p, g, e, 0x200aa59ccc6d6291ef7cint, 0x1cc912a3a3f124f1df90int, 0x2b2efe9710e4d05725e8int);
}

/// A power of a power of the root 5 modulo 0x2b2efe9710e4d05725e9.
proof fn lemma_power_203928654140967434528233_4()
    ensures
        pow_mod(0x26cb8eb64e7a5cd6a3c2int, 2, 0x2b2efe9710e4d05725e9int) == 0x16d89d703d9e40545b3cint,
{
    let p = 0x2b2efe9710e4d05725e9int;
    let g = 0x26cb8eb64e7a5cd6a3c2int;
    lemma_chain_start(p, g);
    let e: nat = 0;
    let e = lemma_chain_square(p, g, e, 1, 0, 1);
    let e = lemma_chain_multiply(p, g, e, 1, 0, 0x26cb8eb64e7a5cd6a3c2int);
    let e = lemma_chain_square(p, g, e, 0x26cb8eb64e7a5cd6a3c2int, 0x22da49798a0bfc032088int, 0x16d89d703d9e40545b3cint);
}

/// A power of a power of the root 5 modulo 0x2b2efe9710e4d05725e9.
proof fn lemma_power_203928654140967434528233_5()
    ensures
        pow_mod(0xe8d4a51, 0xc867fa, 0x2b2efe9710e4d05725e9int) == 0x26cb0186372984f2d4d3int,
{
    let p = 0x2b2efe9710e4d05725e9int;
    let g = 0xe8d4a51;
    lemma_chain_start(p, g);
    let e: nat = 0;
    let e = lemma_chain_square(p, g, e, 1, 0, 1);
    let e = lemma_chain_multiply(p, g, e, 1, 0, 0xe8d4a51);
    let e = lemma_chain_square(p, g, e, 0xe8d4a51, 0, 0xd3c21bcecceda1);
    let e = lemma_chain_multiply(p, g, e, 0xd3c21bcecceda1, 0x47, 0xf744bd6e0fb93093652int);
    let e = lemma_chain_square(p, g, e, 0xf744bd6e0fb93093652int, 0x587db2121ea236dfd17int, 0x4141de9a3ca31ca0555int);
    let e = lemma_chain_square(p, g, e, 0x4141de9a3ca31ca0555int, 0x629d3f7a0ee9f0491eint, 0x2a88ae2fa36f14ca8bebint);
    let e = lemma_chain_square(p, g, e, 0x2a88ae2fa36f14ca8bebint, 0x29e4de4fe2a6d6c428b1int, 0x154d2c7ccba65cc36ba0int);
    let e = lemma_chain_multiply(p, g, e, 0x154d2c7ccba65cc36ba0int, 0x72d998a, 0x20a4a99b70c170799d06int);
    let e = lemma_chain_square(p, g, e, 0x20a4a99b70c170799d06int, 0x18acf24ce15e7741b147int, 0x1833f26fa5671771bf85int);
    let e = lemma_chain_square(p, g, e, 0x1833f26fa5671771bf85int, 0xd909de594b0d30d79f9int, 0x29cc22617016bb2dba78int);
    let e = lemma_chain_square(p, g, e, 0x29cc22617016bb2dba78int, 0x2874aa3a64d68628f643int, 0x9b02dcab6e43e5dc645int);
    let e = lemma_chain_square(p, g, e, 0x9b02dcab6e43e5dc645int, 0x22c6d1393031d4434ccint, 0x9129c27176e3a744edint);
    let e = lemma_chain_square(p, g, e, 0x9129c27176e3a744edint, 0x1e7f8959a4bc18362int, 0x23b4257942d61c590537int);
    let e = lemma_chain_multiply(p, g, e, 0x23b4257942d61c590537int, 0xc08074e, 0x297b79c285579d18a069int);
    let e = lemma_chain_square(p, g, e, 0x297b79c285579d18a069int, 0x27d91d438cf9311b2850int, 0x1c58c29f5d5af0782a41int);
    let e = lemma_chain_multiply(p, g, e, 0x1c58c29f5d5af0782a41int, 0x98d5e69, 0x8aacc221519200a0e00int);
    let e = lemma_chain_square(p, g, e, 0x8aacc221519200a0e00int, 0x1bd531e33a847727b65int, 0x22b28fd4674a86691813int);
    let e = lemma_chain_square(p, g, e, 0x22b28fd4674a86691813int, 0x1be10978f38f565ce017int, 0x1dbc97b62c44c71d497aint);
    let e = lemma_chain_square(p, g, e, 0x1dbc97b62c44c71d497aint, 0x147a1dc39d6c10257b6fint, 0x1ad385f2ced2270d6b1dint);
    let e = lemma_chain_multiply(p, g, e, 0x1ad385f2ced2270d6b1dint, 0x90a3458, 0xa5411def151d36bea15int);
    let e = lemma_chain_square(p, g, e, 0xa5411def151d36bea15int, 0x27864b37779d3f0f876int, 0x2973cc16e94617433453int);
    let e = lemma_chain_multiply(p, g, e, 0x2973cc16e94617433453int, 0xdf7f14b, 0xbf4cb0bc299a8131800int);
    let e = lemma_chain_square(p, g, e, 0xbf4cb0bc299a8131800int, 0x34f70e016ed443359d7int, 0x1ca161103e2fdb762851int);
    let e = lemma_chain_multiply(p, g, e, 0x1ca161103e2fdb762851int, 0x9a5d6fb, 0x79b716fa9db7b573a2eint);
    let e = lemma_chain_square(p, g, e, 0x79b716fa9db7b573a2eint, 0x1570f8d1b108c0d34b4int, 0x29620f63ac6842ade470int);
    let e = lemma_chain_multiply(p, g, e, 0x29620f63ac6842ade470int, 0xdf1f72d, 0x16d44f9aa054147f2e7bint);
    let e = lemma_chain_square(p, g, e, 0x16d44f9aa054147f2e7bint, 0xc11a43dcb488fc285ebint, 0x23f76df0021f6369536int);
    let e = lemma_chain_multiply(p, g, e, 0x23f76df0021f6369536int, 0xc1eb39, 0x836e81e943dd9477e35int);
    let e = lemma_chain_square(p, g, e, 0x836e81e943dd9477e35int, 0x190051173970c1d63b7int, 0x24f06ab86df74044026aint);
    let e = lemma_chain_multiply(p, g, e, 0x24f06ab86df74044026aint, 0xc729ad1, 0x11ee31af14adcce34a51int);
    let e = lemma_chain_square(p, g, e, 0x11ee31af14adcce34a51int, 0x771ea485e022cc4b09fint, 0x29bc2cf6fd4f96a431eaint);
    let e = lemma_chain_multiply(p, g, e, 0x29bc2cf6fd4f96a431eaint, 0xe10551e, 0x905ee705d61f3e6a0bcint);
    let e = lemma_chain_square(p, g, e, 0x905ee705d61f3e6a0bcint, 0x1e2a87be100808db6acint, 0x17eaa174e993cde56b84int);
    let e = lemma_chain_multiply(p, g, e, 0x17eaa174e993cde56b84int, 0x80f3129, 0x2970c8d525b559818173int);
    let e = lemma_chain_square(p, g, e, 0x2970c8d525b559818173int, 0x27c495b3cead86bd6246int, 0x8627f22d72d65fe89f3int);
    let e = lemma_chain_square(p, g, e, 0x8627f22d72d65fe89f3int, 0x1a0c674d2e6feb47658int, 0xb803218127427478e91int);
    let e = lemma_chain_multiply(p, g, e, 0xb803218127427478e91int, 0x3e02117, 0x20e383aba133b61f94f2int);
    let e = lemma_chain_square(p, g, e, 0x20e383aba133b61f94f2int, 0x190c534ba22c48debcc9int, 0x26cb0186372984f2d4d3int);
}

/// A power of a power of the root 5 modulo 0x2b2efe9710e4d05725e9: the steps from the exponent
/// 0
/// to the exponent
/// 0xc4228a84f7e.
proof fn lemma_power_203928654140967434528233_6_part_1(p: int, g: int)
    requires
        p == 0x2b2efe9710e4d05725e9int,
        g == 0x26cb0186372984f2d4d3int,
        pow_mod(g, 0, p) == 1,
    ensures
        pow_mod(g, 0xc4228a84f7e, p) == 0xf86abd11ff5a07e6d77int,
{
    let e: nat = 0;
    let e = lemma_chain_square(p, g, e, 1, 0, 1);
    let e = lemma_chain_multiply(p, g, e, 1, 0, 0x26cb0186372984f2d4d3int);
    let e = lemma_chain_square(p, g, e, 0x26cb0186372984f2d4d3int, 0x22d94bcd458625a34e11int, 0x6bab8c46bcc7428a370int);
    let e = lemma_chain_multiply(p, g, e, 0x6bab8c46bcc7428a370int, 0x60b91816a1867908e33int, 0x1320d34d9711ba43a9e5int);
    let e = lemma_chain_square(p, g, e, 0x1320d34d9711ba43a9e5int, 0x8790e4394ad151bcd5eint, 0xc71f0ae3a90bcafa64bint);
    let e = lemma_chain_square(p, g, e, 0xc71f0ae3a90bcafa64bint, 0x396280e4446177e9582int, 0x1114687522abd18f7ca7int);
    let e = lemma_chain_square(p, g, e, 0x1114687522abd18f7ca7int, 0x6c15989b550334b2eb6int, 0x2972ae4a610de03c634bint);
    let e = lemma_chain_square(p, g, e, 0x2972ae4a610de03c634bint, 0x27c839833f388fa286c6int, 0x1354dfabaa4e0bf9cfc3int);
    let e = lemma_chain_multiply(p, g, e, 0x1354dfabaa4e0bf9cfc3int, 0x115db5a36a5f2325c1fdint, 0x11e85a36874ec1e79974int);
    let e = lemma_chain_square(p, g, e, 0x11e85a36874ec1e79974int, 0x76d1130c42ecb7587daint, 0xf2fef144e1dbda2b526int);
    let e = lemma_chain_square(p, g, e, 0xf2fef144e1dbda2b526int, 0x5575936b68fbc7b3e89int, 0x279a0277b9f38209f3int);
    let e = lemma_chain_square(p, g, e, 0x279a0277b9f38209f3int, 0x2451162144dc8782, 0xcc2e8ce141833b3dd57int);
    let e = lemma_chain_square(p, g, e, 0xcc2e8ce141833b3dd57int, 0x3c56b2781eac3a188c7int, 0x19a9288117aa5e9e1372int);
    let e = lemma_chain_square(p, g, e, 0x19a9288117aa5e9e1372int, 0xf3f8f7c432cc419308eint, 0x1936eab8f0babafe6786int);
    let e = lemma_chain_multiply(p, g, e, 0x1936eab8f0babafe6786int, 0x16a6a12bcfdf75802080int, 0x1694b9dfe3c7404636f2int);
    let e = lemma_chain_square(p, g, e, 0x1694b9dfe3c7404636f2int, 0xbcec729b9553e059460int, 0x9521a5c047769fd1164int);
    let e = lemma_chain_square(p, g, e, 0x9521a5c047769fd1164int, 0x20303d35b0a8bcb29a1int, 0x1d35645fc357da324687int);
    let e = lemma_chain_square(p, g, e, 0x1d35645fc357da324687int, 0x13c1918c2acca544d056int, 0x1be72e29bb5981320eebint);
    let e = lemma_chain_square(p, g, e, 0x1be72e29bb5981320eebint, 0x1207902a40bd84a6fb72int, 0x2a5124660afab89a36f7int);
    let e = lemma_chain_multiply(p, g, e, 0x2a5124660afab89a36f7int, 0x2603b5bcfbdf3dc42365int, 0x1d9a8841dfb9862909a8int);
    let e = lemma_chain_square(p, g, e, 0x1d9a8841dfb9862909a8int, 0x144b500066babe3a246fint, 0x918e2fcddd1dc450a39int);
    let e = lemma_chain_square(p, g, e, 0x918e2fcddd1dc450a39int, 0x1ea9cad07419a3e1ed2int, 0x41b32db4a1304c6198fint);
    let e = lemma_chain_multiply(p, g, e, 0x41b32db4a1304c6198fint, 0x3b0521964d93bbfe9a2int, 0x270bb074a74bbd216e6bint);
    let e = lemma_chain_square(p, g, e, 0x270bb074a74bbd216e6bint, 0x234de3608569da6a097dint, 0x192e28044f1dbdd96cf4int);
    let e = lemma_chain_square(p, g, e, 0x192e28044f1dbdd96cf4int, 0xeaebf524b035bff8e9bint, 0xdb85958aeb41a24967dint);
    let e = lemma_chain_square(p, g, e, 0xdb85958aeb41a24967dint, 0x45bedfa28a4dbf5b1f0int, 0x117308d252eae1b81599int);
    let e = lemma_chain_square(p, g, e, 0x117308d252eae1b81599int, 0x70d030d579884a4fa60int, 0x18d591c8b80e56cab411int);
    let e = lemma_chain_multiply(p, g, e, 0x18d591c8b80e56cab411int, 0x164f2e018981ef7389edint, 0xa6525e9cb9a4f9fb44eint);
    let e = lemma_chain_square(p, g, e, 0xa6525e9cb9a4f9fb44eint, 0x28096d09fef1bbdfeffint, 0x668e37c9f420d70d6adint);
    let e = lemma_chain_square(p, g, e, 0x668e37c9f420d70d6adint, 0xf38e74feb1608f27faint, 0x27540ea9708ed45d2c5fint);
    let e = lemma_chain_multiply(p, g, e, 0x27540ea9708ed45d2c5fint, 0x235469bf3caec4704d41int, 0xa80898e007a08e08924int);
    let e = lemma_chain_square(p, g, e, 0xa80898e007a08e08924int, 0x28dd7dbbb4e5cbbf2a7int, 0x16ae6d27f055d0949011int);
    let e = lemma_chain_square(p, g, e, 0x16ae6d27f055d0949011int, 0xbe9b7274bb63bdf4995int, 0x1e5269446eb9af3b9f84int);
    let e = lemma_chain_multiply(p, g, e, 0x1e5269446eb9af3b9f84int, 0x1b3d300e7ab5212122f8int, 0x152c487a4b855871e14int);
    let e = lemma_chain_square(p, g, e, 0x152c487a4b855871e14int, 0xa6193043029655029int, 0x1ba1c098c12524e5cf3fint);
    let e = lemma_chain_square(p, g, e, 0x1ba1c098c12524e5cf3fint, 0x11ae4705851391f52249int, 0x24df450684b5e99d3010int);
    let e = lemma_chain_square(p, g, e, 0x24df450684b5e99d3010int, 0x1f7bb03caf969d8bc12aint, 0x235f46a7a2edc0421fc6int);
    let e = lemma_chain_square(p, g, e, 0x235f46a7a2edc0421fc6int, 0x1cf94876790f008334f0int, 0x23508dcb6644fa67aeb4int);
    let e = lemma_chain_square(p, g, e, 0x23508dcb6644fa67aeb4int, 0x1ce12f3f0a13fa68dfeaint, 0x28995d327f7b51ba9096int);
    let e = lemma_chain_multiply(p, g, e, 0x28995d327f7b51ba9096int, 0x2478a5260098163b21c6int, 0x2aa5b96175bec050086cint);
    let e = lemma_chain_square(p, g, e, 0x2aa5b96175bec050086cint, 0x2a1e28856faf863ad0d7int, 0x2050324181a7eefec6e1int);
    let e = lemma_chain_square(p, g, e, 0x2050324181a7eefec6e1int, 0x182de494895b23c18bbdint, 0x18a7348e16250b6751bcint);
    let e = lemma_chain_square(p, g, e, 0x18a7348e16250b6751bcint, 0xe1303de90edd5a348a7int, 0x1f96e59748779b823f11int);
    let e = lemma_chain_multiply(p, g, e, 0x1f96e59748779b823f11int, 0x1c60ae9e75c2ed3b4a7bint, 0x62c770285d0ae1e7e10int);
    let e = lemma_chain_square(p, g, e, 0x62c770285d0ae1e7e10int, 0xe1f30b1db586230535int, 0xd1c3959ad0f8f305ac3int);
    let e = lemma_chain_multiply(p, g, e, 0xd1c3959ad0f8f305ac3int, 0xbc6fd0b6d40f699c821int, 0x1580d7845d1de93f5fb0int);
    let e = lemma_chain_square(p, g, e, 0x1580d7845d1de93f5fb0int, 0xab523c15532a7282f1eint, 0x1dae7c29d0d346cfe0b2int);
    let e = lemma_chain_multiply(p, g, e, 0x1dae7c29d0d346cfe0b2int, 0x1aa9eda5ecc812af3ab8int, 0x12e886b17db8ea2c913eint);
    let e = lemma_chain_square(p, g, e, 0x12e886b17db8ea2c913eint, 0x847777da33a8ae1a80bint, 0x1b0af433eb07874ec201int);
    let e = lemma_chain_multiply(p, g, e, 0x1b0af433eb07874ec201int, 0x184b148351c311061a23int, 0xb99dbf3ef6af54ae1f8int);
    let e = lemma_chain_square(p, g, e, 0xb99dbf3ef6af54ae1f8int, 0x31dd5cee846850ed171int, 0x17d758e12788deaceb67int);
    let e = lemma_chain_square(p, g, e, 0x17d758e12788deaceb67int, 0xd299826a5c07725f10dint, 0x76e4c525dcb6613fd9cint);
    let e = lemma_chain_multiply(p, g, e, 0x76e4c525dcb6613fd9cint, 0x6ace304cc7a6868b66dint, 0x212c1c82097125406d5fint);
    let e = lemma_chain_square(p, g, e, 0x212c1c82097125406d5fint, 0x197b61de0b03ae84ac2fint, 0x6107b17f8469c9d877aint);
    let e = lemma_chain_multiply(p, g, e, 0x6107b17f8469c9d877aint, 0x572a2e3584c8dcb2c1fint, 0xcc4a5295d87e9870e57int);
    let e = lemma_chain_square(p, g, e, 0xcc4a5295d87e9870e57int, 0x3c671da015e3e3892bdint, 0xcc6cd84fa9041a1c28cint);
    let e = lemma_chain_multiply(p, g, e, 0xcc6cd84fa9041a1c28cint, 0xb7a4091eec050c99ba8int, 0x28d18972d9314b1557cint);
    let e = lemma_chain_square(p, g, e, 0x28d18972d9314b1557cint, 0x26953d28577a3cffc2int, 0x1e33bb6195011499c27eint);
    let e = lemma_chain_multiply(p, g, e, 0x1e33bb6195011499c27eint, 0x1b21a0b1c3547085b0d6int, 0x3b22756f6f16df0c514int);
    let e = lemma_chain_square(p, g, e, 0x3b22756f6f16df0c514int, 0x50fa4315908fb279b3int, 0x147fa38978a0c45b26a5int);
    let e = lemma_chain_multiply(p, g, e, 0x147fa38978a0c45b26a5int, 0x126a193399105f250852int, 0x24f36dde2d9a8855115dint);
    let e = lemma_chain_square(p, g, e, 0x24f36dde2d9a8855115dint, 0x1f9e26c8abd053e82bd6int, 0x2112242905c1a68fa803int);
    let e = lemma_chain_multiply(p, g, e, 0x2112242905c1a68fa803int, 0x1db55e28509f3975ccb4int, 0x274652bfe907a66a2a5int);
    let e = lemma_chain_square(p, g, e, 0x274652bfe907a66a2a5int, 0x23b83af646f9bc6292int, 0xf86abd11ff5a07e6d77int);
}

/// A power of a power of the root 5 modulo 0x2b2efe9710e4d05725e9: the steps from the exponent
/// 0xc4228a84f7e
/// to the exponent
/// 0x188451509eff9.
proof fn lemma_power_203928654140967434528233_6_part_2(p: int, g: int)
    requires
        p == 0x2b2efe9710e4d05725e9int,
        g == 0x26cb0186372984f2d4d3int,
        pow_mod(g, 0xc4228a84f7e, p) == 0xf86abd11ff5a07e6d77int,
    ensures
        pow_mod(g, 0x188451509eff9, p) == 0xd55767e44dae9906e1cint,
{
    let e: nat = 0xc4228a84f7e;
    let e = lemma_chain_multiply(p, g, e, 0xf86abd11ff5a07e6d77int, 0xdf28e79cf6c6d08d8e0int, 0x16ec95fde63698d30135int);
    let e = lemma_chain_square(p, g, e, 0x16ec95fde63698d30135int, 0xc2b5c755b852c78ab97int, 0x116b757b072a026d758aint);
    let e = lemma_chain_multiply(p, g, e, 0x116b757b072a026d758aint, 0xfa60e02c2b545ad83c1int, 0xf6f66d56bd9d4735915int);
    let e = lemma_chain_square(p, g, e, 0xf6f66d56bd9d4735915int, 0x5845ad8fccc48080f85int, 0x1edd8bb20cf9e01642acint);
    let e = lemma_chain_multiply(p, g, e, 0x1edd8bb20cf9e01642acint, 0x1bba2d12453ce59d2421int, 0x2746e49acbbb0eb1bcbbint);
    let e = lemma_chain_square(p, g, e, 0x2746e49acbbb0eb1bcbbint, 0x23b94446527dca67a039int, 0x20d629bfb65503e11fb8int);
    let e = lemma_chain_square(p, g, e, 0x20d629bfb65503e11fb8int, 0x18f80139f03abcd60d2aint, 0xcb41723294dad5f0706int);
    let e = lemma_chain_square(p, g, e, 0xcb41723294dad5f0706int, 0x3bcae12c330d7e71c6cint, 0x6025ed8cae5017cd9d8int);
    let e = lemma_chain_multiply(p, g, e, 0x6025ed8cae5017cd9d8int, 0x565f5e845bc499b780cint, 0xd55767e44dae9906e1cint);
}

/// A power of a power of the root 5 modulo 0x2b2efe9710e4d05725e9.
proof fn lemma_power_203928654140967434528233_6()
    ensures
        pow_mod(0x26cb0186372984f2d4d3int, 0x188451509eff9, 0x2b2efe9710e4d05725e9int) == 0xd55767e44dae9906e1cint,
{
    let p = 0x2b2efe9710e4d05725e9int;
    let g = 0x26cb0186372984f2d4d3int;
    lemma_chain_start(p, g);
    lemma_power_203928654140967434528233_6_part_1(p, g);
    lemma_power_203928654140967434528233_6_part_2(p, g);
}

/// A power of a power of the root 5 modulo 0x2b2efe9710e4d05725e9.
proof fn lemma_power_203928654140967434528233_7()
    ensures
        pow_mod(0x26cb0186372984f2d4d3int, 3, 0x2b2efe9710e4d05725e9int) == 0x1320d34d9711ba43a9e5int,
{
    let p = 0x2b2efe9710e4d05725e9int;
    let g = 0x26cb0186372984f2d4d3int;
    lemma_chain_start(p, g);
    let e: nat = 0;
    let e = lemma_chain_square(p, g, e, 1, 0, 1);
    let e = lemma_chain_multiply(p, g, e, 1, 0, 0x26cb0186372984f2d4d3int);
    let e = lemma_chain_square(p, g, e, 0x26cb0186372984f2d4d3int, 0x22d94bcd458625a34e11int, 0x6bab8c46bcc7428a370int);
    let e = lemma_chain_multiply(p, g, e, 0x6bab8c46bcc7428a370int, 0x60b91816a1867908e33int, 0x1320d34d9711ba43a9e5int);
}

/// A power of a power of the root 5 modulo 0x2b2efe9710e4d05725e9.
proof fn lemma_power_203928654140967434528233_8()
    ensures
        pow_mod(0x2b2efe9710e4d05725e8int, 2, 0x2b2efe9710e4d05725e9int) == 1,
{
    let p = 0x2b2efe9710e4d05725e9int;
    let g = 0x2b2efe9710e4d05725e8int;
    lemma_chain_start(p, g);
    let e: nat = 0;
    let e = lemma_chain_square(p, g, e, 1, 0, 1);
    let e = lemma_chain_multiply(p, g, e, 1, 0, 0x2b2efe9710e4d05725e8int);
    let e = lemma_chain_square(p, g, e, 0x2b2efe9710e4d05725e8int, 0x2b2efe9710e4d05725e7int, 1);
}

/// 5 is a primitive root modulo 0x2b2efe9710e4d05725e9.
pub proof fn lemma_root_203928654140967434528233()
    ensures
        is_primitive_root(5, 0x2b2efe9710e4d05725e9int),
{
    let p = 0x2b2efe9710e4d05725e9int;
    let g = 5;
    lemma_power_203928654140967434528233_1();
    lemma_power_203928654140967434528233_2();
    lemma_chain_rebase(p, g, 0xc, 0xe8d4a51, 0x498cf3f1dcfeb, 0x26cb8eb64e7a5cd6a3c2int);
    lemma_power_203928654140967434528233_3();
    lemma_chain_rebase(p, g, 0x3729b6f565bf04, 0x26cb8eb64e7a5cd6a3c2int, 0x6433fd, 0x2b2efe9710e4d05725e8int);
    lemma_power_203928654140967434528233_4();
    lemma_chain_rebase(p, g, 0x3729b6f565bf04, 0x26cb8eb64e7a5cd6a3c2int, 2, 0x16d89d703d9e40545b3cint);
    lemma_power_203928654140967434528233_5();
    lemma_chain_rebase(p, g, 0xc, 0xe8d4a51, 0xc867fa, 0x26cb0186372984f2d4d3int);
    lemma_power_203928654140967434528233_6();
    lemma_chain_rebase(p, g, 0x964dfb8, 0x26cb0186372984f2d4d3int, 0x188451509eff9, 0xd55767e44dae9906e1cint);
    lemma_power_203928654140967434528233_7();
    lemma_chain_rebase(p, g, 0x964dfb8, 0x26cb0186372984f2d4d3int, 3, 0x1320d34d9711ba43a9e5int);
    lemma_power_203928654140967434528233_8();
    lemma_chain_rebase(p, g, 0x15977f4b8872682b92f4nat, 0x2b2efe9710e4d05725e8int, 2, 1);
    lemma_two_is_prime();
    lemma_prime_3();
    lemma_prime_6566909();
    lemma_prime_431305263804409();
    assert forall|m: int| m >= 2 && #[trigger] (0x2b2efe9710e4d05725e8int % m) == 0 implies exists|f: int| #[trigger]
        refutes(5, 0x2b2efe9710e4d05725e8int, 0x2b2efe9710e4d05725e9int, m, f) by {
        lemma_euclid(m, 2, 0x15977f4b8872682b92f4int);
        if m % 2 == 0 {
            assert(refutes(5, 0x2b2efe9710e4d05725e8int, 0x2b2efe9710e4d05725e9int, m, 2));
        } else {
            lemma_euclid(m, 2, 0xacbbfa5c4393415c97aint);
            lemma_euclid(m, 2, 0x565dfd2e21c9a0ae4bdint);
            lemma_euclid(m, 3, 0x1cc9ff0f60988ae4c3fint);
            if m % 3 == 0 {
                assert(refutes(5, 0x2b2efe9710e4d05725e8int, 0x2b2efe9710e4d05725e9int, m, 3));
            } else {
                lemma_euclid(m, 3, 0x998aa5a75882e4c415int);
                lemma_euclid(m, 0x6433fd, 0x188451509eff9);
                if m % 0x6433fd == 0 {
                    assert(refutes(5, 0x2b2efe9710e4d05725e8int, 0x2b2efe9710e4d05725e9int, m, 0x6433fd));
                } else {
                    lemma_euclid(m, 0x188451509eff9, 1);
                    if m % 0x188451509eff9 == 0 {
                        assert(refutes(5, 0x2b2efe9710e4d05725e8int, 0x2b2efe9710e4d05725e9int, m, 0x188451509eff9));
                    } else {
                        lemma_small_mod(1, m as nat);
                    }
                }
            }
        }
    }
    lemma_lucas(0x2b2efe9710e4d05725e9int, 0x2b2efe9710e4d05725e8int, 5);
}

/// 0x2b2efe9710e4d05725e9 is prime.
pub proof fn lemma_prime_203928654140967434528233()
    ensures
        is_prime(0x2b2efe9710e4d05725e9int),
{
    lemma_root_203928654140967434528233();
    lemma_root_gives_prime(5, 0x2b2efe9710e4d05725e9int);
}

/// A power of the root 3 modulo 31.
proof fn lemma_power_31_1()
    ensures
        pow_mod(3, 0xf, 0x1f) == 0x1e,
{
    let p = 0x1f;
    let g = 3;
    lemma_chain_start(p, g);
    let e: nat = 0;
    let e = lemma_chain_square(p, g, e, 1, 0, 1);
    let e = lemma_chain_multiply(p, g, e, 1, 0, 3);
    let e = lemma_chain_square(p, g, e, 3, 0, 9);
    let e = lemma_chain_multiply(p, g, e, 9, 0, 0x1b);
    let e = lemma_chain_square(p, g, e, 0x1b, 0x17, 0x10);
    let e = lemma_chain_multiply(p, g, e, 0x10, 1, 0x11);
    let e = lemma_chain_square(p, g, e, 0x11, 9, 0xa);
    let e = lemma_chain_multiply(p, g, e, 0xa, 0, 0x1e);
}

/// A power of the root 3 modulo 31.
proof fn lemma_power_31_2()
    ensures
        pow_mod(3, 0xa, 0x1f) == 0x19,
{
    let p = 0x1f;
    let g = 3;
    lemma_chain_start(p, g);
    let e: nat = 0;
    let e = lemma_chain_square(p, g, e, 1, 0, 1);
    let e = lemma_chain_multiply(p, g, e, 1, 0, 3);
    let e = lemma_chain_square(p, g, e, 3, 0, 9);
    let e = lemma_chain_square(p, g, e, 9, 2, 0x13);
    let e = lemma_chain_multiply(p, g, e, 0x13, 1, 0x1a);
    let e = lemma_chain_square(p, g, e, 0x1a, 0x15, 0x19);
}

/// A power of the root 3 modulo 31.
proof fn lemma_power_31_3()
    ensures
        pow_mod(3, 6, 0x1f) == 0x10,
{
    let p = 0x1f;
    let g = 3;
    lemma_chain_start(p, g);
    let e: nat = 0;
    let e = lemma_chain_square(p, g, e, 1, 0, 1);
    let e = lemma_chain_multiply(p, g, e, 1, 0, 3);
    let e = lemma_chain_square(p, g, e, 3, 0, 9);
    let e = lemma_chain_multiply(p, g, e, 9, 0, 0x1b);
    let e = lemma_chain_square(p, g, e, 0x1b, 0x17, 0x10);
}

/// A power of a power of the root 3 modulo 31.
proof fn lemma_power_31_4()
    ensures
        pow_mod(0x1e, 2, 0x1f) == 1,
{
    let p = 0x1f;
    let g = 0x1e;
    lemma_chain_start(p, g);
    let e: nat = 0;
    let e = lemma_chain_square(p, g, e, 1, 0, 1);
    let e = lemma_chain_multiply(p, g, e, 1, 0, 0x1e);
    let e = lemma_chain_square(p, g, e, 0x1e, 0x1d, 1);
}

/// 3 is a primitive root modulo 31.
pub proof fn lemma_root_31()
    ensures
        is_primitive_root(3, 0x1f),
{
    let p = 0x1f;
    let g = 3;
    lemma_power_31_1();
    lemma_power_31_2();
    lemma_power_31_3();
    lemma_power_31_4();
    lemma_chain_rebase(p, g, 0xf, 0x1e, 2, 1);
    lemma_two_is_prime();
    lemma_prime_3();
    lemma_prime_5();
    assert forall|m: int| m >= 2 && #[trigger] (0x1eint % m) == 0 implies exists|f: int| #[trigger]
        refutes(3, 0x1e, 0x1f, m, f) by {
        lemma_euclid(m, 2, 0xf);
        if m % 2 == 0 {
            assert(refutes(3, 0x1e, 0x1f, m, 2));
        } else {
            lemma_euclid(m, 3, 5);
            if m % 3 == 0 {
                assert(refutes(3, 0x1e, 0x1f, m, 3));
            } else {
                lemma_euclid(m, 5, 1);
                if m % 5 == 0 {
                    assert(refutes(3, 0x1e, 0x1f, m, 5));
                } else {
                    lemma_small_mod(1, m as nat);
                }
            }
        }
    }
    lemma_lucas(0x1f, 0x1e, 3);
}

/// 31 is prime.
pub proof fn lemma_prime_31()
    ensures
        is_prime(0x1f),
{
    lemma_root_31();
    lemma_root_gives_prime(3, 0x1f);
}

/// A power of the root 17 modulo 311.
proof fn lemma_power_311_1()
    ensures
        pow_mod(0x11, 0x9b, 0x137) == 0x136,
{
    let p = 0x137;
    let g = 0x11;
    lemma_chain_start(p, g);
    let e: nat = 0;
    let e = lemma_chain_square(p, g, e, 1, 0, 1);
    let e = lemma_chain_multiply(p, g, e, 1, 0, 0x11);
    let e = lemma_chain_square(p, g, e, 0x11, 0, 0x121);
    let e = lemma_chain_square(p, g, e, 0x121, 0x10c, 0xad);
    let e = lemma_chain_square(p, g, e, 0xad, 0x60, 0x49);
    let e = lemma_chain_multiply(p, g, e, 0x49, 3, 0x134);
    let e = lemma_chain_square(p, g, e, 0x134, 0x131, 9);
    let e = lemma_chain_multiply(p, g, e, 9, 0, 0x99);
    let e = lemma_chain_square(p, g, e, 0x99, 0x4b, 0x54);
    let e = lemma_chain_square(p, g, e, 0x54, 0x16, 0xd6);
    let e = lemma_chain_multiply(p, g, e, 0xd6, 0xb, 0xd9);
    let e = lemma_chain_square(p, g, e, 0xd9, 0x97, 0x80);
    let e = lemma_chain_multiply(p, g, e, 0x80, 6, 0x136);
}

/// A power of the root 17 modulo 311.
proof fn lemma_power_311_2()
    ensures
        pow_mod(0x11, 0x3e, 0x137) == 0x24,
{
    let p = 0x137;
    let g = 0x11;
    lemma_chain_start(p, g);
    let e: nat = 0;
    let e = lemma_chain_square(p, g, e, 1, 0, 1);
    let e = lemma_chain_multiply(p, g, e, 1, 0, 0x11);
    let e = lemma_chain_square(p, g, e, 0x11, 0, 0x121);
    let e = lemma_chain_multiply(p, g, e, 0x121, 0xf, 0xf8);
    let e = lemma_chain_square(p, g, e, 0xf8, 0xc5, 0xed);
    let e = lemma_chain_multiply(p, g, e, 0xed, 0xc, 0x129);
    let e = lemma_chain_square(p, g, e, 0x129, 0x11b, 0xc4);
    let e = lemma_chain_multiply(p, g, e, 0xc4, 0xa, 0xde);
    let e = lemma_chain_square(p, g, e, 0xde, 0x9e, 0x92);
    let e = lemma_chain_multiply(p, g, e, 0x92, 7, 0x131);
    let e = lemma_chain_square(p, g, e, 0x131, 0x12b, 0x24);
}

/// A power of the root 17 modulo 311.
proof fn lemma_power_311_3()
    ensures
        pow_mod(0x11, 0xa, 0x137) == 0x104,
{
    let p = 0x137;
    let g = 0x11;
    lemma_chain_start(p, g);
    let e: nat = 0;
    let e = lemma_chain_square(p, g, e, 1, 0, 1);
    let e = lemma_chain_multiply(p, g, e, 1, 0, 0x11);
    let e = lemma_chain_square(p, g, e, 0x11, 0, 0x121);
    let e = lemma_chain_square(p, g, e, 0x121, 0x10c, 0xad);
    let e = lemma_chain_multiply(p, g, e, 0xad, 9, 0x8e);
    let e = lemma_chain_square(p, g, e, 0x8e, 0x40, 0x104);
}

/// A power of a power of the root 17 modulo 311.
proof fn lemma_power_311_4()
    ensures
        pow_mod(0x136, 2, 0x137) == 1,
{
    let p = 0x137;
    let g = 0x136;
    lemma_chain_start(p, g);
    let e: nat = 0;
    let e = lemma_chain_square(p, g, e, 1, 0, 1);
    let e = lemma_chain_multiply(p, g, e, 1, 0, 0x136);
    let e = lemma_chain_square(p, g, e, 0x136, 0x135, 1);
}

/// 17 is a primitive root modulo 311.
pub proof fn lemma_root_311()
    ensures
        is_primitive_root(0x11, 0x137),
{
    let p = 0x137;
    let g = 0x11;
    lemma_power_311_1();
    lemma_power_311_2();
    lemma_power_311_3();
    lemma_power_311_4();
    lemma_chain_rebase(p, g, 0x9b, 0x136, 2, 1);
    lemma_two_is_prime();
    lemma_prime_5();
    lemma_prime_31();
    assert forall|m: int| m >= 2 && #[trigger] (0x136int % m) == 0 implies exists|f: int| #[trigger]
        refutes(0x11, 0x136, 0x137, m, f) by {
        lemma_euclid(m, 2, 0x9b);
        if m % 2 == 0 {
            assert(refutes(0x11, 0x136, 0x137, m, 2));
        } else {
            lemma_euclid(m, 5, 0x1f);
            if m % 5 == 0 {
                assert(refutes(0x11, 0x136, 0x137, m, 5));
            } else {
                lemma_euclid(m, 0x1f, 1);
                if m % 0x1f == 0 {
                    assert(refutes(0x11, 0x136, 0x137, m, 0x1f));
                } else {
                    lemma_small_mod(1, m as nat);
                }
            }
        }
    }
    lemma_lucas(0x137, 0x136, 0x11);
}

/// 311 is prime.
pub proof fn lemma_prime_311()
    ensures
        is_prime(0x137),
{
    lemma_root_311();
    lemma_root_gives_prime(0x11, 0x137);
}

/// A power of the root 11 modulo 5521.
proof fn lemma_power_5521_1()
    ensures
        pow_mod(0xb, 0xac8, 0x1591) == 0x1590,
{
    let p = 0x1591;
    let g = 0xb;
    lemma_chain_start(p, g);
    let e: nat = 0;
    let e = lemma_chain_square(p, g, e, 1, 0, 1);
    let e = lemma_chain_multiply(p, g, e, 1, 0, 0xb);
    let e = lemma_chain_square(p, g, e, 0xb, 0, 0x79);
    let e = lemma_chain_square(p, g, e, 0x79, 2, 0xe0f);
    let e = lemma_chain_multiply(p, g, e, 0xe0f, 7, 0x3ae);
    let e = lemma_chain_square(p, g, e, 0x3ae, 0xa0, 0xfa4);
    let e = lemma_chain_square(p, g, e, 0xfa4, 0xb57, 0x11c9);
    let e = lemma_chain_multiply(p, g, e, 0x11c9, 9, 0x18a);
    let e = lemma_chain_square(p, g, e, 0x18a, 0x1c, 0x288);
    let e = lemma_chain_multiply(p, g, e, 0x288, 1, 0x647);
    let e = lemma_chain_square(p, g, e, 0x647, 0x1d3, 0x102e);
    let e = lemma_chain_square(p, g, e, 0x102e, 0xc23, 0x971);
    let e = lemma_chain_square(p, g, e, 0x971, 0x422, 0x29f);
    let e = lemma_chain_multiply(p, g, e, 0x29f, 1, 0x744);
    let e = lemma_chain_square(p, g, e, 0x744, 0x272, 0xd7e);
    let e = lemma_chain_square(p, g, e, 0xd7e, 0x870, 0x1294);
    let e = lemma_chain_square(p, g, e, 0x1294, 0x1000, 0x1590);
}

/// A power of the root 11 modulo 5521.
proof fn lemma_power_5521_2()
    ensures
        pow_mod(0xb, 0x730, 0x1591) == 0x143c,
{
    let p = 0x1591;
    let g = 0xb;
    lemma_chain_start(p, g);
    let e: nat = 0;
    let e = lemma_chain_square(p, g, e, 1, 0, 1);
    let e = lemma_chain_multiply(p, g, e, 1, 0, 0xb);
    let e = lemma_chain_square(p, g, e, 0xb, 0, 0x79);
    let e = lemma_chain_multiply(p, g, e, 0x79, 0, 0x533);
    let e = lemma_chain_square(p, g, e, 0x533, 0x140, 0x12e9);
    let e = lemma_chain_multiply(p, g, e, 0x12e9, 9, 0xdea);
    let e = lemma_chain_square(p, g, e, 0xdea, 0x8fa, 0x24a);
    let e = lemma_chain_square(p, g, e, 0x24a, 0x3e, 0x446);
    let e = lemma_chain_square(p, g, e, 0x446, 0xd8, 0x10cc);
    let e = lemma_chain_multiply(p, g, e, 0x10cc, 8, 0xc3c);
    let e = lemma_chain_square(p, g, e, 0xc3c, 0x6f0, 0x1020);
    let e = lemma_chain_multiply(p, g, e, 0x1020, 8, 0x4d8);
    let e = lemma_chain_square(p, g, e, 0x4d8, 0x116, 0xaca);
    let e = lemma_chain_square(p, g, e, 0xaca, 0x565, 0x102f);
    let e = lemma_chain_square(p, g, e, 0x102f, 0xc24, 0x143d);
    let e = lemma_chain_square(p, g, e, 0x143d, 0x12fd, 0x143c);
}

/// A power of the root 11 modulo 5521.
proof fn lemma_power_5521_3()
    ensures
        pow_mod(0xb, 0x450, 0x1591) == 0x55e,
{
    let p = 0x1591;
    let g = 0xb;
    lemma_chain_start(p, g);
    let e: nat = 0;
    let e = lemma_chain_square(p, g, e, 1, 0, 1);
    let e = lemma_chain_multiply(p, g, e, 1, 0, 0xb);
    let e = lemma_chain_square(p, g, e, 0xb, 0, 0x79);
    let e = lemma_chain_square(p, g, e, 0x79, 2, 0xe0f);
    let e = lemma_chain_square(p, g, e, 0xe0f, 0x92a, 0x217);
    let e = lemma_chain_square(p, g, e, 0x217, 0x33, 0x122e);
    let e = lemma_chain_multiply(p, g, e, 0x122e, 9, 0x5e1);
    let e = lemma_chain_square(p, g, e, 0x5e1, 0x19a, 0x587);
    let e = lemma_chain_square(p, g, e, 0x587, 0x16a, 0xe27);
    let e = lemma_chain_multiply(p, g, e, 0xe27, 7, 0x4b6);
    let e = lemma_chain_square(p, g, e, 0x4b6, 0x107, 0x96d);
    let e = lemma_chain_square(p, g, e, 0x96d, 0x41e, 0xd6b);
    let e = lemma_chain_square(p, g, e, 0xd6b, 0x859, 0x350);
    let e = lemma_chain_square(p, g, e, 0x350, 0x82, 0x55e);
}

/// A power of the root 11 modulo 5521.
proof fn lemma_power_5521_4()
    ensures
        pow_mod(0xb, 0xf0, 0x1591) == 0x1e5,
{
    let p = 0x1591;
    let g = 0xb;
    lemma_chain_start(p, g);
    let e: nat = 0;
    let e = lemma_chain_square(p, g, e, 1, 0, 1);
    let e = lemma_chain_multiply(p, g, e, 1, 0, 0xb);
    let e = lemma_chain_square(p, g, e, 0xb, 0, 0x79);
    let e = lemma_chain_multiply(p, g, e, 0x79, 0, 0x533);
    let e = lemma_chain_square(p, g, e, 0x533, 0x140, 0x12e9);
    let e = lemma_chain_multiply(p, g, e, 0x12e9, 9, 0xdea);
    let e = lemma_chain_square(p, g, e, 0xdea, 0x8fa, 0x24a);
    let e = lemma_chain_multiply(p, g, e, 0x24a, 1, 0x39d);
    let e = lemma_chain_square(p, g, e, 0x39d, 0x9a, 0x150f);
    let e = lemma_chain_square(p, g, e, 0x150f, 0x1490, 0x151);
    let e = lemma_chain_square(p, g, e, 0x151, 0x14, 0xc4d);
    let e = lemma_chain_square(p, g, e, 0xc4d, 0x704, 0x1e5);
}

/// A power of a power of the root 11 modulo 5521.
proof fn lemma_power_5521_5()
    ensures
        pow_mod(0x1590, 2, 0x1591) == 1,
{
    let p = 0x1591;
    let g = 0x1590;
    lemma_chain_start(p, g);
    let e: nat = 0;
    let e = lemma_chain_square(p, g, e, 1, 0, 1);
    let e = lemma_chain_multiply(p, g, e, 1, 0, 0x1590);
    let e = lemma_chain_square(p, g, e, 0x1590, 0x158f, 1);
}

/// 11 is a primitive root modulo 5521.
pub proof fn lemma_root_5521()
    ensures
        is_primitive_root(0xb, 0x1591),
{
    let p = 0x1591;
    let g = 0xb;
    lemma_power_5521_1();
    lemma_power_5521_2();
    lemma_power_5521_3();
    lemma_power_5521_4();
    lemma_power_5521_5();
    lemma_chain_rebase(p, g, 0xac8, 0x1590, 2, 1);
    lemma_two_is_prime();
    lemma_prime_3();
    lemma_prime_5();
    lemma_prime_23();
    assert forall|m: int| m >= 2 && #[trigger] (0x1590int % m) == 0 implies exists|f: int| #[trigger]
        refutes(0xb, 0x1590, 0x1591, m, f) by {
        lemma_euclid(m, 2, 0xac8);
        if m % 2 == 0 {
            assert(refutes(0xb, 0x1590, 0x1591, m, 2));
        } else {
            lemma_euclid(m, 2, 0x564);
            lemma_euclid(m, 2, 0x2b2);
            lemma_euclid(m, 2, 0x159);
            lemma_euclid(m, 3, 0x73);
            if m % 3 == 0 {
                assert(refutes(0xb, 0x1590, 0x1591, m, 3));
            } else {
                lemma_euclid(m, 5, 0x17);
                if m % 5 == 0 {
                    assert(refutes(0xb, 0x1590, 0x1591, m, 5));
                } else {
                    lemma_euclid(m, 0x17, 1);
                    if m % 0x17 == 0 {
                        assert(refutes(0xb, 0x1590, 0x1591, m, 0x17));
                    } else {
                        lemma_small_mod(1, m as nat);
                    }
                }
            }
        }
    }
    lemma_lucas(0x1591, 0x1590, 0xb);
}

/// 5521 is prime.
pub proof fn lemma_prime_5521()
    ensures
        is_prime(0x1591),
{
    lemma_root_5521();
    lemma_root_gives_prime(0xb, 0x1591);
}

/// A power of the root 3 modulo 331.
proof fn lemma_power_331_1()
    ensures
        pow_mod(3, 0xa5, 0x14b) == 0x14a,
{
    let p = 0x14b;
    let g = 3;
    lemma_chain_start(p, g);
    let e: nat = 0;
    let e = lemma_chain_square(p, g, e, 1, 0, 1);
    let e = lemma_chain_multiply(p, g, e, 1, 0, 3);
    let e = lemma_chain_square(p, g, e, 3, 0, 9);
    let e = lemma_chain_square(p, g, e, 9, 0, 0x51);
    let e = lemma_chain_multiply(p, g, e, 0x51, 0, 0xf3);
    let e = lemma_chain_square(p, g, e, 0xf3, 0xb2, 0x83);
    let e = lemma_chain_square(p, g, e, 0x83, 0x33, 0x118);
    let e = lemma_chain_square(p, g, e, 0x118, 0xec, 0x11c);
    let e = lemma_chain_multiply(p, g, e, 0x11c, 2, 0xbe);
    let e = lemma_chain_square(p, g, e, 0xbe, 0x6d, 0x15);
    let e = lemma_chain_square(p, g, e, 0x15, 1, 0x6e);
    let e = lemma_chain_multiply(p, g, e, 0x6e, 0, 0x14a);
}

/// A power of the root 3 modulo 331.
proof fn lemma_power_331_2()
    ensures
        pow_mod(3, 0x6e, 0x14b) == 0x12b,
{
    let p = 0x14b;
    let g = 3;
    lemma_chain_start(p, g);
    let e: nat = 0;
    let e = lemma_chain_square(p, g, e, 1, 0, 1);
    let e = lemma_chain_multiply(p, g, e, 1, 0, 3);
    let e = lemma_chain_square(p, g, e, 3, 0, 9);
    let e = lemma_chain_multiply(p, g, e, 9, 0, 0x1b);
    let e = lemma_chain_square(p, g, e, 0x1b, 2, 0x43);
    let e = lemma_chain_square(p, g, e, 0x43, 0xd, 0xba);
    let e = lemma_chain_multiply(p, g, e, 0xba, 1, 0xe3);
    let e = lemma_chain_square(p, g, e, 0xe3, 0x9b, 0xe0);
    let e = lemma_chain_multiply(p, g, e, 0xe0, 2, 0xa);
    let e = lemma_chain_square(p, g, e, 0xa, 0, 0x64);
    let e = lemma_chain_multiply(p, g, e, 0x64, 0, 0x12c);
    let e = lemma_chain_square(p, g, e, 0x12c, 0x10f, 0x12b);
}

/// A power of the root 3 modulo 331.
proof fn lemma_power_331_3()
    ensures
        pow_mod(3, 0x42, 0x14b) == 0x40,
{
    let p = 0x14b;
    let g = 3;
    lemma_chain_start(p, g);
    let e: nat = 0;
    let e = lemma_chain_square(p, g, e, 1, 0, 1);
    let e = lemma_chain_multiply(p, g, e, 1, 0, 3);
    let e = lemma_chain_square(p, g, e, 3, 0, 9);
    let e = lemma_chain_square(p, g, e, 9, 0, 0x51);
    let e = lemma_chain_square(p, g, e, 0x51, 0x13, 0x110);
    let e = lemma_chain_square(p, g, e, 0x110, 0xdf, 0xab);
    let e = lemma_chain_square(p, g, e, 0xab, 0x58, 0x71);
    let e = lemma_chain_multiply(p, g, e, 0x71, 1, 8);
    let e = lemma_chain_square(p, g, e, 8, 0, 0x40);
}

/// A power of the root 3 modulo 331.
proof fn lemma_power_331_4()
    ensures
        pow_mod(3, 0x1e, 0x14b) == 0x10e,
{
    let p = 0x14b;
    let g = 3;
    lemma_chain_start(p, g);
    let e: nat = 0;
    let e = lemma_chain_square(p, g, e, 1, 0, 1);
    let e = lemma_chain_multiply(p, g, e, 1, 0, 3);
    let e = lemma_chain_square(p, g, e, 3, 0, 9);
    let e = lemma_chain_multiply(p, g, e, 9, 0, 0x1b);
    let e = lemma_chain_square(p, g, e, 0x1b, 2, 0x43);
    let e = lemma_chain_multiply(p, g, e, 0x43, 0, 0xc9);
    let e = lemma_chain_square(p, g, e, 0xc9, 0x7a, 0x13);
    let e = lemma_chain_multiply(p, g, e, 0x13, 0, 0x39);
    let e = lemma_chain_square(p, g, e, 0x39, 9, 0x10e);
}

/// A power of a power of the root 3 modulo 331.
proof fn lemma_power_331_5()
    ensures
        pow_mod(0x14a, 2, 0x14b) == 1,
{
    let p = 0x14b;
    let g = 0x14a;
    lemma_chain_start(p, g);
    let e: nat = 0;
    let e = lemma_chain_square(p, g, e, 1, 0, 1);
    let e = lemma_chain_multiply(p, g, e, 1, 0, 0x14a);
    let e = lemma_chain_square(p, g, e, 0x14a, 0x149, 1);
}

/// 3 is a primitive root modulo 331.
pub proof fn lemma_root_331()
    ensures
        is_primitive_root(3, 0x14b),
{
    let p = 0x14b;
    let g = 3;
    lemma_power_331_1();
    lemma_power_331_2();
    lemma_power_331_3();
    lemma_power_331_4();
    lemma_power_331_5();
    lemma_chain_rebase(p, g, 0xa5, 0x14a, 2, 1);
    lemma_two_is_prime();
    lemma_prime_3();
    lemma_prime_5();
    lemma_prime_11();
    assert forall|m: int| m >= 2 && #[trigger] (0x14aint % m) == 0 implies exists|f: int| #[trigger]
        refutes(3, 0x14a, 0x14b, m, f) by {
        lemma_euclid(m, 2, 0xa5);
        if m % 2 == 0 {
            assert(refutes(3, 0x14a, 0x14b, m, 2));
        } else {
            lemma_euclid(m, 3, 0x37);
            if m % 3 == 0 {
                assert(refutes(3, 0x14a, 0x14b, m, 3));
            } else {
                lemma_euclid(m, 5, 0xb);
                if m % 5 == 0 {
                    assert(refutes(3, 0x14a, 0x14b, m, 5));
                } else {
                    lemma_euclid(m, 0xb, 1);
                    if m % 0xb == 0 {
                        assert(refutes(3, 0x14a, 0x14b, m, 0xb));
                    } else {
                        lemma_small_mod(1, m as nat);
                    }
                }
            }
        }
    }
    lemma_lucas(0x14b, 0x14a, 3);
}

/// 331 is prime.
pub proof fn lemma_prime_331()
    ensures
        is_prime(0x14b),
{
    lemma_root_331();
    lemma_root_gives_prime(3, 0x14b);
}

/// A power of the root 11 modulo 19861.
proof fn lemma_power_19861_1()
    ensures
        pow_mod(0xb, 0x26ca, 0x4d95) == 0x4d94,
{
    let p = 0x4d95;
    let g = 0xb;
    lemma_chain_start(p, g);
    let e: nat = 0;
    let e = lemma_chain_square(p, g, e, 1, 0, 1);
    let e = lemma_chain_multiply(p, g, e, 1, 0, 0xb);
    let e = lemma_chain_square(p, g, e, 0xb, 0, 0x79);
    let e = lemma_chain_square(p, g, e, 0x79, 0, 0x3931);
    let e = lemma_chain_square(p, g, e, 0x3931, 0x2a28, 0x4a19);
    let e = lemma_chain_multiply(p, g, e, 0x4a19, 0xa, 0x2741);
    let e = lemma_chain_square(p, g, e, 0x2741, 0x13dc, 0x2375);
    let e = lemma_chain_multiply(p, g, e, 0x2375, 5, 0x21e);
    let e = lemma_chain_square(p, g, e, 0x21e, 0xe, 0x3d5e);
    let e = lemma_chain_square(p, g, e, 0x3d5e, 0x308a, 0x2c32);
    let e = lemma_chain_multiply(p, g, e, 0x2c32, 6, 0x14a8);
    let e = lemma_chain_square(p, g, e, 0x14a8, 0x57f, 0x4855);
    let e = lemma_chain_multiply(p, g, e, 0x4855, 0xa, 0x13d5);
    let e = lemma_chain_square(p, g, e, 0x13d5, 0x511, 0x3f54);
    let e = lemma_chain_square(p, g, e, 0x3f54, 0x33b1, 0x208b);
    let e = lemma_chain_square(p, g, e, 0x208b, 0xda6, 0x2bdb);
    let e = lemma_chain_multiply(p, g, e, 0x2bdb, 6, 0x10eb);
    let e = lemma_chain_square(p, g, e, 0x10eb, 0x3b0, 0x2249);
    let e = lemma_chain_square(p, g, e, 0x2249, 0xf26, 0x39b3);
    let e = lemma_chain_multiply(p, g, e, 0x39b3, 8, 0xe09);
    let e = lemma_chain_square(p, g, e, 0xe09, 0x289, 0x4d94);
}

/// A power of the root 11 modulo 19861.
proof fn lemma_power_19861_2()
    ensures
        pow_mod(0xb, 0x19dc, 0x4d95) == 0x1893,
{
    let p = 0x4d95;
    let g = 0xb;
    lemma_chain_start(p, g);
    let e: nat = 0;
    let e = lemma_chain_square(p, g, e, 1, 0, 1);
    let e = lemma_chain_multiply(p, g, e, 1, 0, 0xb);
    let e = lemma_chain_square(p, g, e, 0xb, 0, 0x79);
    let e = lemma_chain_multiply(p, g, e, 0x79, 0, 0x533);
    let e = lemma_chain_square(p, g, e, 0x533, 0x59, 0xf5c);
    let e = lemma_chain_square(p, g, e, 0xf5c, 0x30a, 0x223e);
    let e = lemma_chain_square(p, g, e, 0x223e, 0xf1d, 0x223);
    let e = lemma_chain_multiply(p, g, e, 0x223, 0, 0x1781);
    let e = lemma_chain_square(p, g, e, 0x1781, 0x71e, 0x448b);
    let e = lemma_chain_multiply(p, g, e, 0x448b, 9, 0x37bc);
    let e = lemma_chain_square(p, g, e, 0x37bc, 0x280a, 0x23e);
    let e = lemma_chain_multiply(p, g, e, 0x23e, 0, 0x18aa);
    let e = lemma_chain_square(p, g, e, 0x18aa, 0x7d7, 0x15c1);
    let e = lemma_chain_square(p, g, e, 0x15c1, 0x619, 0x29f4);
    let e = lemma_chain_multiply(p, g, e, 0x29f4, 5, 0x4993);
    let e = lemma_chain_square(p, g, e, 0x4993, 0x45c6, 0x2b);
    let e = lemma_chain_multiply(p, g, e, 0x2b, 0, 0x1d9);
    let e = lemma_chain_square(p, g, e, 0x1d9, 0xb, 0x148a);
    let e = lemma_chain_multiply(p, g, e, 0x148a, 2, 0x46c4);
    let e = lemma_chain_square(p, g, e, 0x46c4, 0x408c, 0x1894);
    let e = lemma_chain_square(p, g, e, 0x1894, 0x7c9, 0x1893);
}

/// A power of the root 11 modulo 19861.
proof fn lemma_power_19861_3()
    ensures
        pow_mod(0xb, 0xf84, 0x4d95) == 0x45e6,
{
    let p = 0x4d95;
    let g = 0xb;
    lemma_chain_start(p, g);
    let e: nat = 0;
    let e = lemma_chain_square(p, g, e, 1, 0, 1);
    let e = lemma_chain_multiply(p, g, e, 1, 0, 0xb);
    let e = lemma_chain_square(p, g, e, 0xb, 0, 0x79);
    let e = lemma_chain_multiply(p, g, e, 0x79, 0, 0x533);
    let e = lemma_chain_square(p, g, e, 0x533, 0x59, 0xf5c);
    let e = lemma_chain_multiply(p, g, e, 0xf5c, 2, 0xdca);
    let e = lemma_chain_square(p, g, e, 0xdca, 0x273, 0x1f75);
    let e = lemma_chain_multiply(p, g, e, 0x1f75, 4, 0x23b3);
    let e = lemma_chain_square(p, g, e, 0x23b3, 0x106d, 0x16b8);
    let e = lemma_chain_multiply(p, g, e, 0x16b8, 3, 0x1129);
    let e = lemma_chain_square(p, g, e, 0x1129, 0x3cb, 0x346a);
    let e = lemma_chain_square(p, g, e, 0x346a, 0x2369, 0xac7);
    let e = lemma_chain_square(p, g, e, 0xac7, 0x17f, 0x14c6);
    let e = lemma_chain_square(p, g, e, 0x14c6, 0x58f, 0x49e9);
    let e = lemma_chain_square(p, g, e, 0x49e9, 0x4669, 0x25f4);
    let e = lemma_chain_multiply(p, g, e, 0x25f4, 5, 0x1d93);
    let e = lemma_chain_square(p, g, e, 0x1d93, 0xb46, 0x4ab);
    let e = lemma_chain_square(p, g, e, 0x4ab, 0x47, 0x45e6);
}

/// A power of the root 11 modulo 19861.
proof fn lemma_power_19861_4()
    ensures
        pow_mod(0xb, 0x3c, 0x4d95) == 0xa0d,
{
    let p = 0x4d95;
    let g = 0xb;
    lemma_chain_start(p, g);
    let e: nat = 0;
    let e = lemma_chain_square(p, g, e, 1, 0, 1);
    let e = lemma_chain_multiply(p, g, e, 1, 0, 0xb);
    let e = lemma_chain_square(p, g, e, 0xb, 0, 0x79);
    let e = lemma_chain_multiply(p, g, e, 0x79, 0, 0x533);
    let e = lemma_chain_square(p, g, e, 0x533, 0x59, 0xf5c);
    let e = lemma_chain_multiply(p, g, e, 0xf5c, 2, 0xdca);
    let e = lemma_chain_square(p, g, e, 0xdca, 0x273, 0x1f75);
    let e = lemma_chain_multiply(p, g, e, 0x1f75, 4, 0x23b3);
    let e = lemma_chain_square(p, g, e, 0x23b3, 0x106d, 0x16b8);
    let e = lemma_chain_square(p, g, e, 0x16b8, 0x6a7, 0xa0d);
}

/// A power of a power of the root 11 modulo 19861.
proof fn lemma_power_19861_5()
    ensures
        pow_mod(0x4d94, 2, 0x4d95) == 1,
{
    let p = 0x4d95;
    let g = 0x4d94;
    lemma_chain_start(p, g);
    let e: nat = 0;
    let e = lemma_chain_square(p, g, e, 1, 0, 1);
    let e = lemma_chain_multiply(p, g, e, 1, 0, 0x4d94);
    let e = lemma_chain_square(p, g, e, 0x4d94, 0x4d93, 1);
}

/// 11 is a primitive root modulo 19861.
pub proof fn lemma_root_19861()
    ensures
        is_primitive_root(0xb, 0x4d95),
{
    let p = 0x4d95;
    let g = 0xb;
    lemma_power_19861_1();
    lemma_power_19861_2();
    lemma_power_19861_3();
    lemma_power_19861_4();
    lemma_power_19861_5();
    lemma_chain_rebase(p, g, 0x26ca, 0x4d94, 2, 1);
    lemma_two_is_prime();
    lemma_prime_3();
    lemma_prime_5();
    lemma_prime_331();
    assert forall|m: int| m >= 2 && #[trigger] (0x4d94int % m) == 0 implies exists|f: int| #[trigger]
        refutes(0xb, 0x4d94, 0x4d95, m, f) by {
        lemma_euclid(m, 2, 0x26ca);
        if m % 2 == 0 {
            assert(refutes(0xb, 0x4d94, 0x4d95, m, 2));
        } else {
            lemma_euclid(m, 2, 0x1365);
            lemma_euclid(m, 3, 0x677);
            if m % 3 == 0 {
                assert(refutes(0xb, 0x4d94, 0x4d95, m, 3));
            } else {
                lemma_euclid(m, 5, 0x14b);
                if m % 5 == 0 {
                    assert(refutes(0xb, 0x4d94, 0x4d95, m, 5));
                } else {
                    lemma_euclid(m, 0x14b, 1);
                    if m % 0x14b == 0 {
                        assert(refutes(0xb, 0x4d94, 0x4d95, m, 0x14b));
                    } else {
                        lemma_small_mod(1, m as nat);
                    }
                }
            }
        }
    }
    lemma_lucas(0x4d95, 0x4d94, 0xb);
}

/// 19861 is prime.
pub proof fn lemma_prime_19861()
    ensures
        is_prime(0x4d95),
{
    lemma_root_19861();
    lemma_root_gives_prime(0xb, 0x4d95);
}

/// A power of the root 3 modulo 1361.
proof fn lemma_power_1361_1()
    ensures
        pow_mod(3, 0x2a8, 0x551) == 0x550,
{
    let p = 0x551;
    let g = 3;
    lemma_chain_start(p, g);
    let e: nat = 0;
    let e = lemma_chain_square(p, g, e, 1, 0, 1);
    let e = lemma_chain_multiply(p, g, e, 1, 0, 3);
    let e = lemma_chain_square(p, g, e, 3, 0, 9);
    let e = lemma_chain_square(p, g, e, 9, 0, 0x51);
    let e = lemma_chain_multiply(p, g, e, 0x51, 0, 0xf3);
    let e = lemma_chain_square(p, g, e, 0xf3, 0x2b, 0x20e);
    let e = lemma_chain_square(p, g, e, 0x20e, 0xcb, 0x189);
    let e = lemma_chain_multiply(p, g, e, 0x189, 0, 0x49b);
    let e = lemma_chain_square(p, g, e, 0x49b, 0x3fd, 0x1cc);
    let e = lemma_chain_square(p, g, e, 0x1cc, 0x9b, 0x285);
    let e = lemma_chain_multiply(p, g, e, 0x285, 1, 0x23e);
    let e = lemma_chain_square(p, g, e, 0x23e, 0xf2, 0x72);
    let e = lemma_chain_square(p, g, e, 0x72, 9, 0x2eb);
    let e = lemma_chain_square(p, g, e, 0x2eb, 0x199, 0x550);
}

/// A power of the root 3 modulo 1361.
proof fn lemma_power_1361_2()
    ensures
        pow_mod(3, 0x110, 0x551) == 0xd3,
{
    let p = 0x551;
    let g = 3;
    lemma_chain_start(p, g);
    let e: nat = 0;
    let e = lemma_chain_square(p, g, e, 1, 0, 1);
    let e = lemma_chain_multiply(p, g, e, 1, 0, 3);
    let e = lemma_chain_square(p, g, e, 3, 0, 9);
    let e = lemma_chain_square(p, g, e, 9, 0, 0x51);
    let e = lemma_chain_square(p, g, e, 0x51, 4, 0x45d);
    let e = lemma_chain_square(p, g, e, 0x45d, 0x394, 0x3f5);
    let e = lemma_chain_multiply(p, g, e, 0x3f5, 2, 0x13d);
    let e = lemma_chain_square(p, g, e, 0x13d, 0x49, 0x470);
    let e = lemma_chain_square(p, g, e, 0x470, 0x3b4, 0x10c);
    let e = lemma_chain_square(p, g, e, 0x10c, 0x34, 0x41c);
    let e = lemma_chain_square(p, g, e, 0x41c, 0x32d, 0xd3);
}

/// A power of the root 3 modulo 1361.
proof fn lemma_power_1361_3()
    ensures
        pow_mod(3, 0x50, 0x551) == 0x104,
{
    let p = 0x551;
    let g = 3;
    lemma_chain_start(p, g);
    let e: nat = 0;
    let e = lemma_chain_square(p, g, e, 1, 0, 1);
    let e = lemma_chain_multiply(p, g, e, 1, 0, 3);
    let e = lemma_chain_square(p, g, e, 3, 0, 9);
    let e = lemma_chain_square(p, g, e, 9, 0, 0x51);
    let e = lemma_chain_multiply(p, g, e, 0x51, 0, 0xf3);
    let e = lemma_chain_square(p, g, e, 0xf3, 0x2b, 0x20e);
    let e = lemma_chain_square(p, g, e, 0x20e, 0xcb, 0x189);
    let e = lemma_chain_square(p, g, e, 0x189, 0x71, 0x290);
    let e = lemma_chain_square(p, g, e, 0x290, 0x13c, 0x104);
}

/// A power of a power of the root 3 modulo 1361.
proof fn lemma_power_1361_4()
    ensures
        pow_mod(0x550, 2, 0x551) == 1,
{
    let p = 0x551;
    let g = 0x550;
    lemma_chain_start(p, g);
    let e: nat = 0;
    let e = lemma_chain_square(p, g, e, 1, 0, 1);
    let e = lemma_chain_multiply(p, g, e, 1, 0, 0x550);
    let e = lemma_chain_square(p, g, e, 0x550, 0x54f, 1);
}

/// 3 is a primitive root modulo 1361.
pub proof fn lemma_root_1361()
    ensures
        is_primitive_root(3, 0x551),
{
    let p = 0x551;
    let g = 3;
    lemma_power_1361_1();
    lemma_power_1361_2();
    lemma_power_1361_3();
    lemma_power_1361_4();
    lemma_chain_rebase(p, g, 0x2a8, 0x550, 2, 1);
    lemma_two_is_prime();
    lemma_prime_5();
    lemma_prime_17();
    assert forall|m: int| m >= 2 && #[trigger] (0x550int % m) == 0 implies exists|f: int| #[trigger]
        refutes(3, 0x550, 0x551, m, f) by {
        lemma_euclid(m, 2, 0x2a8);
        if m % 2 == 0 {
            assert(refutes(3, 0x550, 0x551, m, 2));
        } else {
            lemma_euclid(m, 2, 0x154);
            lemma_euclid(m, 2, 0xaa);
            lemma_euclid(m, 2, 0x55);
            lemma_euclid(m, 5, 0x11);
            if m % 5 == 0 {
                assert(refutes(3, 0x550, 0x551, m, 5));
            } else {
                lemma_euclid(m, 0x11, 1);
                if m % 0x11 == 0 {
                    assert(refutes(3, 0x550, 0x551, m, 0x11));
                } else {
                    lemma_small_mod(1, m as nat);
                }
            }
        }
    }
    lemma_lucas(0x551, 0x550, 3);
}

/// 1361 is prime.
pub proof fn lemma_prime_1361()
    ensures
        is_prime(0x551),
{
    lemma_root_1361();
    lemma_root_gives_prime(3, 0x551);
}

/// A power of the root 2 modulo 62701.
proof fn lemma_power_62701_1()
    ensures
        pow_mod(2, 0x7a76, 0xf4ed) == 0xf4ec,
{
    let p = 0xf4ed;
    let g = 2;
    lemma_chain_start(p, g);
    let e: nat = 0;
    let e = lemma_chain_square(p, g, e, 1, 0, 1);
    let e = lemma_chain_multiply(p, g, e, 1, 0, 2);
    let e = lemma_chain_square(p, g, e, 2, 0, 4);
    let e = lemma_chain_multiply(p, g, e, 4, 0, 8);
    let e = lemma_chain_square(p, g, e, 8, 0, 0x40);
    let e = lemma_chain_multiply(p, g, e, 0x40, 0, 0x80);
    let e = lemma_chain_square(p, g, e, 0x80, 0, 0x4000);
    let e = lemma_chain_multiply(p, g, e, 0x4000, 0, 0x8000);
    let e = lemma_chain_square(p, g, e, 0x8000, 0x42e4, 0xc2ec);
    let e = lemma_chain_square(p, g, e, 0xc2ec, 0x9b20, 0x6cf0);
    let e = lemma_chain_multiply(p, g, e, 0x6cf0, 0, 0xd9e0);
    let e = lemma_chain_square(p, g, e, 0xd9e0, 0xc1cf, 0xcb5d);
    let e = lemma_chain_square(p, g, e, 0xcb5d, 0xa8da, 0x85f7);
    let e = lemma_chain_square(p, g, e, 0x85f7, 0x4946, 0x683);
    let e = lemma_chain_multiply(p, g, e, 0x683, 0, 0xd06);
    let e = lemma_chain_square(p, g, e, 0xd06, 0xb1, 0x4447);
    let e = lemma_chain_multiply(p, g, e, 0x4447, 0, 0x888e);
    let e = lemma_chain_square(p, g, e, 0x888e, 0x4c22, 0x4b4a);
    let e = lemma_chain_multiply(p, g, e, 0x4b4a, 0, 0x9694);
    let e = lemma_chain_square(p, g, e, 0x9694, 0x5c92, 0xea66);
    let e = lemma_chain_square(p, g, e, 0xea66, 0xe052, 0xccba);
    let e = lemma_chain_multiply(p, g, e, 0xccba, 1, 0xa487);
    let e = lemma_chain_square(p, g, e, 0xa487, 0x6e85, 0x2a10);
    let e = lemma_chain_multiply(p, g, e, 0x2a10, 0, 0x5420);
    let e = lemma_chain_square(p, g, e, 0x5420, 0x1ce4, 0xf4ec);
}

/// A power of the root 2 modulo 62701.
proof fn lemma_power_62701_2()
    ensures
        pow_mod(2, 0x51a4, 0xf4ed) == 0x296,
{
    let p = 0xf4ed;
    let g = 2;
    lemma_chain_start(p, g);
    let e: nat = 0;
    let e = lemma_chain_square(p, g, e, 1, 0, 1);
    let e = lemma_chain_multiply(p, g, e, 1, 0, 2);
    let e = lemma_chain_square(p, g, e, 2, 0, 4);
    let e = lemma_chain_square(p, g, e, 4, 0, 0x10);
    let e = lemma_chain_multiply(p, g, e, 0x10, 0, 0x20);
    let e = lemma_chain_square(p, g, e, 0x20, 0, 0x400);
    let e = lemma_chain_square(p, g, e, 0x400, 0x10, 0xb130);
    let e = lemma_chain_square(p, g, e, 0xb130, 0x802e, 0xe66a);
    let e = lemma_chain_square(p, g, e, 0xe66a, 0xd8c3, 0x1b5d);
    let e = lemma_chain_multiply(p, g, e, 0x1b5d, 0, 0x36ba);
    let e = lemma_chain_square(p, g, e, 0x36ba, 0xc3a, 0x6572);
    let e = lemma_chain_multiply(p, g, e, 0x6572, 0, 0xcae4);
    let e = lemma_chain_square(p, g, e, 0xcae4, 0xa811, 0xcf53);
    let e = lemma_chain_square(p, g, e, 0xcf53, 0xaf7e, 0xc543);
    let e = lemma_chain_multiply(p, g, e, 0xc543, 1, 0x9599);
    let e = lemma_chain_square(p, g, e, 0x9599, 0x5b5f, 0x527e);
    let e = lemma_chain_square(p, g, e, 0x527e, 0x1bc8, 0x9ddc);
    let e = lemma_chain_square(p, g, e, 0x9ddc, 0x65be, 0x4c2a);
    let e = lemma_chain_multiply(p, g, e, 0x4c2a, 0, 0x9854);
    let e = lemma_chain_square(p, g, e, 0x9854, 0x5ebd, 0x297);
    let e = lemma_chain_square(p, g, e, 0x297, 7, 0x296);
}

/// A power of the root 2 modulo 62701.
proof fn lemma_power_62701_3()
    ensures
        pow_mod(2, 0x30fc, 0xf4ed) == 0x60d5,
{
    let p = 0xf4ed;
    let g = 2;
    lemma_chain_start(p, g);
    let e: nat = 0;
    let e = lemma_chain_square(p, g, e, 1, 0, 1);
    let e = lemma_chain_multiply(p, g, e, 1, 0, 2);
    let e = lemma_chain_square(p, g, e, 2, 0, 4);
    let e = lemma_chain_multiply(p, g, e, 4, 0, 8);
    let e = lemma_chain_square(p, g, e, 8, 0, 0x40);
    let e = lemma_chain_square(p, g, e, 0x40, 0, 0x1000);
    let e = lemma_chain_square(p, g, e, 0x1000, 0x10b, 0x8cd1);
    let e = lemma_chain_square(p, g, e, 0x8cd1, 0x50f5, 0xcbd0);
    let e = lemma_chain_square(p, g, e, 0xcbd0, 0xa999, 0xb25b);
    let e = lemma_chain_multiply(p, g, e, 0xb25b, 1, 0x6fc9);
    let e = lemma_chain_square(p, g, e, 0x6fc9, 0x3304, 0xe11d);
    let e = lemma_chain_multiply(p, g, e, 0xe11d, 1, 0xcd4d);
    let e = lemma_chain_square(p, g, e, 0xcd4d, 0xac16, 0x20cb);
    let e = lemma_chain_multiply(p, g, e, 0x20cb, 0, 0x4196);
    let e = lemma_chain_square(p, g, e, 0x4196, 0x1190, 0x194);
    let e = lemma_chain_multiply(p, g, e, 0x194, 0, 0x328);
    let e = lemma_chain_square(p, g, e, 0x328, 0xa, 0x64fe);
    let e = lemma_chain_multiply(p, g, e, 0x64fe, 0, 0xc9fc);
    let e = lemma_chain_square(p, g, e, 0xc9fc, 0xa692, 0x52e6);
    let e = lemma_chain_multiply(p, g, e, 0x52e6, 0, 0xa5cc);
    let e = lemma_chain_square(p, g, e, 0xa5cc, 0x703b, 0x77f1);
    let e = lemma_chain_square(p, g, e, 0x77f1, 0x3abc, 0x60d5);
}

/// A power of the root 2 modulo 62701.
proof fn lemma_power_62701_4()
    ensures
        pow_mod(2, 0x1644, 0xf4ed) == 0x7f45,
{
    let p = 0xf4ed;
    let g = 2;
    lemma_chain_start(p, g);
    let e: nat = 0;
    let e = lemma_chain_square(p, g, e, 1, 0, 1);
    let e = lemma_chain_multiply(p, g, e, 1, 0, 2);
    let e = lemma_chain_square(p, g, e, 2, 0, 4);
    let e = lemma_chain_square(p, g, e, 4, 0, 0x10);
    let e = lemma_chain_multiply(p, g, e, 0x10, 0, 0x20);
    let e = lemma_chain_square(p, g, e, 0x20, 0, 0x400);
    let e = lemma_chain_multiply(p, g, e, 0x400, 0, 0x800);
    let e = lemma_chain_square(p, g, e, 0x800, 0x42, 0xdae6);
    let e = lemma_chain_square(p, g, e, 0xdae6, 0xc3a3, 0xcbd);
    let e = lemma_chain_square(p, g, e, 0xcbd, 0xa9, 0x9314);
    let e = lemma_chain_multiply(p, g, e, 0x9314, 1, 0x313b);
    let e = lemma_chain_square(p, g, e, 0x313b, 0x9e5, 0x3698);
    let e = lemma_chain_square(p, g, e, 0x3698, 0xc2b, 0x3a71);
    let e = lemma_chain_square(p, g, e, 0x3a71, 0xdf1, 0xc9c4);
    let e = lemma_chain_square(p, g, e, 0xc9c4, 0xa636, 0x612);
    let e = lemma_chain_multiply(p, g, e, 0x612, 0, 0xc24);
    let e = lemma_chain_square(p, g, e, 0xc24, 0x9a, 0xe7e);
    let e = lemma_chain_square(p, g, e, 0xe7e, 0xdb, 0x7f45);
}

/// A power of the root 2 modulo 62701.
proof fn lemma_power_62701_5()
    ensures
        pow_mod(2, 0xce4, 0xf4ed) == 0x56ba,
{
    let p = 0xf4ed;
    let g = 2;
    lemma_chain_start(p, g);
    let e: nat = 0;
    let e = lemma_chain_square(p, g, e, 1, 0, 1);
    let e = lemma_chain_multiply(p, g, e, 1, 0, 2);
    let e = lemma_chain_square(p, g, e, 2, 0, 4);
    let e = lemma_chain_multiply(p, g, e, 4, 0, 8);
    let e = lemma_chain_square(p, g, e, 8, 0, 0x40);
    let e = lemma_chain_square(p, g, e, 0x40, 0, 0x1000);
    let e = lemma_chain_square(p, g, e, 0x1000, 0x10b, 0x8cd1);
    let e = lemma_chain_multiply(p, g, e, 0x8cd1, 1, 0x24b5);
    let e = lemma_chain_square(p, g, e, 0x24b5, 0x580, 0x5079);
    let e = lemma_chain_multiply(p, g, e, 0x5079, 0, 0xa0f2);
    let e = lemma_chain_square(p, g, e, 0xa0f2, 0x69c2, 0x942a);
    let e = lemma_chain_multiply(p, g, e, 0x942a, 1, 0x3367);
    let e = lemma_chain_square(p, g, e, 0x3367, 0xac9, 0xa35c);
    let e = lemma_chain_square(p, g, e, 0xa35c, 0x6cf4, 0xdb2c);
    let e = lemma_chain_square(p, g, e, 0xdb2c, 0xc420, 0x3df0);
    let e = lemma_chain_multiply(p, g, e, 0x3df0, 0, 0x7be0);
    let e = lemma_chain_square(p, g, e, 0x7be0, 0x3ea6, 0xcc52);
    let e = lemma_chain_square(p, g, e, 0xcc52, 0xaa72, 0x56ba);
}

/// A power of a power of the root 2 modulo 62701.
proof fn lemma_power_62701_6()
    ensures
        pow_mod(0xf4ec, 2, 0xf4ed) == 1,
{
    let p = 0xf4ed;
    let g = 0xf4ec;
    lemma_chain_start(p, g);
    let e: nat = 0;
    let e = lemma_chain_square(p, g, e, 1, 0, 1);
    let e = lemma_chain_multiply(p, g, e, 1, 0, 0xf4ec);
    let e = lemma_chain_square(p, g, e, 0xf4ec, 0xf4eb, 1);
}

/// 2 is a primitive root modulo 62701.
pub proof fn lemma_root_62701()
    ensures
        is_primitive_root(2, 0xf4ed),
{
    let p = 0xf4ed;
    let g = 2;
    lemma_power_62701_1();
    lemma_power_62701_2();
    lemma_power_62701_3();
    lemma_power_62701_4();
    lemma_power_62701_5();
    lemma_power_62701_6();
    lemma_chain_rebase(p, g, 0x7a76, 0xf4ec, 2, 1);
    lemma_two_is_prime();
    lemma_prime_3();
    lemma_prime_5();
    lemma_prime_11();
    lemma_prime_19();
    assert forall|m: int| m >= 2 && #[trigger] (0xf4ecint % m) == 0 implies exists|f: int| #[trigger]
        refutes(2, 0xf4ec, 0xf4ed, m, f) by {
        lemma_euclid(m, 2, 0x7a76);
        if m % 2 == 0 {
            assert(refutes(2, 0xf4ec, 0xf4ed, m, 2));
        } else {
            lemma_euclid(m, 2, 0x3d3b);
            lemma_euclid(m, 3, 0x1469);
            if m % 3 == 0 {
                assert(refutes(2, 0xf4ec, 0xf4ed, m, 3));
            } else {
                lemma_euclid(m, 5, 0x415);
                if m % 5 == 0 {
                    assert(refutes(2, 0xf4ec, 0xf4ed, m, 5));
                } else {
                    lemma_euclid(m, 5, 0xd1);
                    lemma_euclid(m, 0xb, 0x13);
                    if m % 0xb == 0 {
                        assert(refutes(2, 0xf4ec, 0xf4ed, m, 0xb));
                    } else {
                        lemma_euclid(m, 0x13, 1);
                        if m % 0x13 == 0 {
                            assert(refutes(2, 0xf4ec, 0xf4ed, m, 0x13));
                        } else {
                            lemma_small_mod(1, m as nat);
                        }
                    }
                }
            }
        }
    }
    lemma_lucas(0xf4ed, 0xf4ec, 2);
}

/// 62701 is prime.
pub proof fn lemma_prime_62701()
    ensures
        is_prime(0xf4ed),
{
    lemma_root_62701();
    lemma_root_gives_prime(2, 0xf4ed);
}

/// A power of the root 2 modulo 23629.
proof fn lemma_power_23629_1()
    ensures
        pow_mod(2, 0x2e26, 0x5c4d) == 0x5c4c,
{
    let p = 0x5c4d;
    let g = 2;
    lemma_chain_start(p, g);
    let e: nat = 0;
    let e = lemma_chain_square(p, g, e, 1, 0, 1);
    let e = lemma_chain_multiply(p, g, e, 1, 0, 2);
    let e = lemma_chain_square(p, g, e, 2, 0, 4);
    let e = lemma_chain_square(p, g, e, 4, 0, 0x10);
    let e = lemma_chain_multiply(p, g, e, 0x10, 0, 0x20);
    let e = lemma_chain_square(p, g, e, 0x20, 0, 0x400);
    let e = lemma_chain_multiply(p, g, e, 0x400, 0, 0x800);
    let e = lemma_chain_square(p, g, e, 0x800, 0xb1, 0x2ec3);
    let e = lemma_chain_multiply(p, g, e, 0x2ec3, 1, 0x139);
    let e = lemma_chain_square(p, g, e, 0x139, 4, 0xd7d);
    let e = lemma_chain_square(p, g, e, 0xd7d, 0x1f8, 0x3771);
    let e = lemma_chain_square(p, g, e, 0x3771, 0x214d, 0xfb8);
    let e = lemma_chain_square(p, g, e, 0xfb8, 0x2ad, 0x1a37);
    let e = lemma_chain_multiply(p, g, e, 0x1a37, 0, 0x346e);
    let e = lemma_chain_square(p, g, e, 0x346e, 0x1dc8, 0xa1c);
    let e = lemma_chain_square(p, g, e, 0xa1c, 0x11b, 0x29f1);
    let e = lemma_chain_square(p, g, e, 0x29f1, 0x130e, 0x51ab);
    let e = lemma_chain_multiply(p, g, e, 0x51ab, 1, 0x4709);
    let e = lemma_chain_square(p, g, e, 0x4709, 0x36ab, 0x18e2);
    let e = lemma_chain_multiply(p, g, e, 0x18e2, 0, 0x31c4);
    let e = lemma_chain_square(p, g, e, 0x31c4, 0x1ad4, 0x5c4c);
}

/// A power of the root 2 modulo 23629.
proof fn lemma_power_23629_2()
    ensures
        pow_mod(2, 0x1ec4, 0x5c4d) == 0x504e,
{
    let p = 0x5c4d;
    let g = 2;
    lemma_chain_start(p, g);
    let e: nat = 0;
    let e = lemma_chain_square(p, g, e, 1, 0, 1);
    let e = lemma_chain_multiply(p, g, e, 1, 0, 2);
    let e = lemma_chain_square(p, g, e, 2, 0, 4);
    let e = lemma_chain_multiply(p, g, e, 4, 0, 8);
    let e = lemma_chain_square(p, g, e, 8, 0, 0x40);
    let e = lemma_chain_multiply(p, g, e, 0x40, 0, 0x80);
    let e = lemma_chain_square(p, g, e, 0x80, 0, 0x4000);
    let e = lemma_chain_multiply(p, g, e, 0x4000, 1, 0x23b3);
    let e = lemma_chain_square(p, g, e, 0x23b3, 0xdce, 0x4033);
    let e = lemma_chain_square(p, g, e, 0x4033, 0x2ca7, 0x17ee);
    let e = lemma_chain_multiply(p, g, e, 0x17ee, 0, 0x2fdc);
    let e = lemma_chain_square(p, g, e, 0x2fdc, 0x18d0, 0x4e80);
    let e = lemma_chain_multiply(p, g, e, 0x4e80, 1, 0x40b3);
    let e = lemma_chain_square(p, g, e, 0x40b3, 0x2d5a, 0x117);
    let e = lemma_chain_square(p, g, e, 0x117, 3, 0x1b2a);
    let e = lemma_chain_square(p, g, e, 0x1b2a, 0x7fe, 0x337e);
    let e = lemma_chain_square(p, g, e, 0x337e, 0x1cb9, 0x525f);
    let e = lemma_chain_multiply(p, g, e, 0x525f, 1, 0x4871);
    let e = lemma_chain_square(p, g, e, 0x4871, 0x38da, 0x504f);
    let e = lemma_chain_square(p, g, e, 0x504f, 0x45df, 0x504e);
}

/// A power of the root 2 modulo 23629.
proof fn lemma_power_23629_3()
    ensures
        pow_mod(2, 0x864, 0x5c4d) == 0x571b,
{
    let p = 0x5c4d;
    let g = 2;
    lemma_chain_start(p, g);
    let e: nat = 0;
    let e = lemma_chain_square(p, g, e, 1, 0, 1);
    let e = lemma_chain_multiply(p, g, e, 1, 0, 2);
    let e = lemma_chain_square(p, g, e, 2, 0, 4);
    let e = lemma_chain_square(p, g, e, 4, 0, 0x10);
    let e = lemma_chain_square(p, g, e, 0x10, 0, 0x100);
    let e = lemma_chain_square(p, g, e, 0x100, 2, 0x4766);
    let e = lemma_chain_square(p, g, e, 0x4766, 0x373a, 0x4832);
    let e = lemma_chain_multiply(p, g, e, 0x4832, 1, 0x3417);
    let e = lemma_chain_square(p, g, e, 0x3417, 0x1d65, 0x36b0);
    let e = lemma_chain_multiply(p, g, e, 0x36b0, 1, 0x1113);
    let e = lemma_chain_square(p, g, e, 0x1113, 0x328, 0x3461);
    let e = lemma_chain_square(p, g, e, 0x3461, 0x1db9, 0x201c);
    let e = lemma_chain_square(p, g, e, 0x201c, 0xb2b, 0x3321);
    let e = lemma_chain_multiply(p, g, e, 0x3321, 1, 0x9f5);
    let e = lemma_chain_square(p, g, e, 0x9f5, 0x112, 0x5a0f);
    let e = lemma_chain_square(p, g, e, 0x5a0f, 0x57de, 0x571b);
}

/// A power of the root 2 modulo 23629.
proof fn lemma_power_23629_4()
    ensures
        pow_mod(2, 0x84, 0x5c4d) == 0x5252,
{
    let p = 0x5c4d;
    let g = 2;
    lemma_chain_start(p, g);
    let e: nat = 0;
    let e = lemma_chain_square(p, g, e, 1, 0, 1);
    let e = lemma_chain_multiply(p, g, e, 1, 0, 2);
    let e = lemma_chain_square(p, g, e, 2, 0, 4);
    let e = lemma_chain_square(p, g, e, 4, 0, 0x10);
    let e = lemma_chain_square(p, g, e, 0x10, 0, 0x100);
    let e = lemma_chain_square(p, g, e, 0x100, 2, 0x4766);
    let e = lemma_chain_square(p, g, e, 0x4766, 0x373a, 0x4832);
    let e = lemma_chain_multiply(p, g, e, 0x4832, 1, 0x3417);
    let e = lemma_chain_square(p, g, e, 0x3417, 0x1d65, 0x36b0);
    let e = lemma_chain_square(p, g, e, 0x36b0, 0x2066, 0x5252);
}

/// A power of a power of the root 2 modulo 23629.
proof fn lemma_power_23629_5()
    ensures
        pow_mod(0x5c4c, 2, 0x5c4d) == 1,
{
    let p = 0x5c4d;
    let g = 0x5c4c;
    lemma_chain_start(p, g);
    let e: nat = 0;
    let e = lemma_chain_square(p, g, e, 1, 0, 1);
    let e = lemma_chain_multiply(p, g, e, 1, 0, 0x5c4c);
    let e = lemma_chain_square(p, g, e, 0x5c4c, 0x5c4b, 1);
}

/// 2 is a primitive root modulo 23629.
pub proof fn lemma_root_23629()
    ensures
        is_primitive_root(2, 0x5c4d),
{
    let p = 0x5c4d;
    let g = 2;
    lemma_power_23629_1();
    lemma_power_23629_2();
    lemma_power_23629_3();
    lemma_power_23629_4();
    lemma_power_23629_5();
    lemma_chain_rebase(p, g, 0x2e26, 0x5c4c, 2, 1);
    lemma_two_is_prime();
    lemma_prime_3();
    lemma_prime_11();
    lemma_prime_179();
    assert forall|m: int| m >= 2 && #[trigger] (0x5c4cint % m) == 0 implies exists|f: int| #[trigger]
        refutes(2, 0x5c4c, 0x5c4d, m, f) by {
        lemma_euclid(m, 2, 0x2e26);
        if m % 2 == 0 {
            assert(refutes(2, 0x5c4c, 0x5c4d, m, 2));
        } else {
            lemma_euclid(m, 2, 0x1713);
            lemma_euclid(m, 3, 0x7b1);
            if m % 3 == 0 {
                assert(refutes(2, 0x5c4c, 0x5c4d, m, 3));
            } else {
                lemma_euclid(m, 0xb, 0xb3);
                if m % 0xb == 0 {
                    assert(refutes(2, 0x5c4c, 0x5c4d, m, 0xb));
                } else {
                    lemma_euclid(m, 0xb3, 1);
                    if m % 0xb3 == 0 {
                        assert(refutes(2, 0x5c4c, 0x5c4d, m, 0xb3));
                    } else {
                        lemma_small_mod(1, m as nat);
                    }
                }
            }
        }
    }
    lemma_lucas(0x5c4d, 0x5c4c, 2);
}

/// 23629 is prime.
pub proof fn lemma_prime_23629()
    ensures
        is_prime(0x5c4d),
{
    lemma_root_23629();
    lemma_root_gives_prime(2, 0x5c4d);
}

/// A power of the root 7 modulo 567097.
proof fn lemma_power_567097_1()
    ensures
        pow_mod(7, 0x4539c, 0x8a739) == 0x8a738,
{
    let p = 0x8a739;
    let g = 7;
    lemma_chain_start(p, g);
    let e: nat = 0;
    let e = lemma_chain_square(p, g, e, 1, 0, 1);
    let e = lemma_chain_multiply(p, g, e, 1, 0, 7);
    let e = lemma_chain_square(p, g, e, 7, 0, 0x31);
    let e = lemma_chain_square(p, g, e, 0x31, 0, 0x961);
    let e = lemma_chain_square(p, g, e, 0x961, 0xa, 0x16e87);
    let e = lemma_chain_square(p, g, e, 0x16e87, 0x3ca5, 0x12774);
    let e = lemma_chain_multiply(p, g, e, 0x12774, 0, 0x8142c);
    let e = lemma_chain_square(p, g, e, 0x8142c, 0x78ae1, 0x83477);
    let e = lemma_chain_square(p, g, e, 0x83477, 0x7c7a6, 0x7d15b);
    let e = lemma_chain_multiply(p, g, e, 0x7d15b, 6, 0x2ce27);
    let e = lemma_chain_square(p, g, e, 0x2ce27, 0xe8d1, 0x29c68);
    let e = lemma_chain_square(p, g, e, 0x29c68, 0xc9ae, 0x18082);
    let e = lemma_chain_square(p, g, e, 0x18082, 0x42bd, 0x61aef);
    let e = lemma_chain_multiply(p, g, e, 0x61aef, 4, 0x81fa5);
    let e = lemma_chain_square(p, g, e, 0x81fa5, 0x7a05d, 0x200a4);
    let e = lemma_chain_multiply(p, g, e, 0x200a4, 1, 0x55d43);
    let e = lemma_chain_square(p, g, e, 0x55d43, 0x35350, 0x102b9);
    let e = lemma_chain_multiply(p, g, e, 0x102b9, 0, 0x7130f);
    let e = lemma_chain_square(p, g, e, 0x7130f, 0x5c8a2, 0x1e0cf);
    let e = lemma_chain_square(p, g, e, 0x1e0cf, 0x685b, 0x64e1e);
    let e = lemma_chain_square(p, g, e, 0x64e1e, 0x4981f, 0x4339d);
    let e = lemma_chain_multiply(p, g, e, 0x4339d, 3, 0x373a0);
    let e = lemma_chain_square(p, g, e, 0x373a0, 0x16077, 0x50881);
    let e = lemma_chain_multiply(p, g, e, 0x50881, 4, 0x9ea3);
    let e = lemma_chain_square(p, g, e, 0x9ea3, 0xb5c, 0x2104d);
    let e = lemma_chain_multiply(p, g, e, 0x2104d, 1, 0x5cae2);
    let e = lemma_chain_square(p, g, e, 0x5cae2, 0x3e0a6, 0x4208e);
    let e = lemma_chain_square(p, g, e, 0x4208e, 0x1f7ec, 0x8a738);
}

/// A power of the root 7 modulo 567097.
proof fn lemma_power_567097_2()
    ensures
        pow_mod(7, 0x2e268, 0x8a739) == 0x4f002,
{
    let p = 0x8a739;
    let g = 7;
    lemma_chain_start(p, g);
    let e: nat = 0;
    let e = lemma_chain_square(p, g, e, 1, 0, 1);
    let e = lemma_chain_multiply(p, g, e, 1, 0, 7);
    let e = lemma_chain_square(p, g, e, 7, 0, 0x31);
    let e = lemma_chain_square(p, g, e, 0x31, 0, 0x961);
    let e = lemma_chain_multiply(p, g, e, 0x961, 0, 0x41a7);
    let e = lemma_chain_square(p, g, e, 0x41a7, 0x1f2, 0xee0f);
    let e = lemma_chain_multiply(p, g, e, 0xee0f, 0, 0x68269);
    let e = lemma_chain_square(p, g, e, 0x68269, 0x4e590, 0x2c201);
    let e = lemma_chain_multiply(p, g, e, 0x2c201, 2, 0x1ff95);
    let e = lemma_chain_square(p, g, e, 0x1ff95, 0x7624, 0x862b5);
    let e = lemma_chain_square(p, g, e, 0x862b5, 0x8204f, 0x45962);
    let e = lemma_chain_square(p, g, e, 0x45962, 0x22f97, 0x52fe5);
    let e = lemma_chain_square(p, g, e, 0x52fe5, 0x31bfe, 0x3f54b);
    let e = lemma_chain_multiply(p, g, e, 0x3f54b, 3, 0x1bf62);
    let e = lemma_chain_square(p, g, e, 0x1bf62, 0x5a5a, 0x28d7a);
    let e = lemma_chain_square(p, g, e, 0x28d7a, 0xc0c5, 0x42f47);
    let e = lemma_chain_square(p, g, e, 0x42f47, 0x20611, 0x2b4e8);
    let e = lemma_chain_multiply(p, g, e, 0x2b4e8, 2, 0x1a3e6);
    let e = lemma_chain_square(p, g, e, 0x1a3e6, 0x4f97, 0x57905);
    let e = lemma_chain_multiply(p, g, e, 0x57905, 4, 0x3b23f);
    let e = lemma_chain_square(p, g, e, 0x3b23f, 0x19431, 0x7b598);
    let e = lemma_chain_square(p, g, e, 0x7b598, 0x6de52, 0x14bfe);
    let e = lemma_chain_multiply(p, g, e, 0x14bfe, 1, 0x6cb9);
    let e = lemma_chain_square(p, g, e, 0x6cb9, 0x556, 0x538b);
    let e = lemma_chain_square(p, g, e, 0x538b, 0x326, 0x4f003);
    let e = lemma_chain_square(p, g, e, 0x4f003, 0x2d13f, 0x4f002);
}

/// A power of the root 7 modulo 567097.
proof fn lemma_power_567097_3()
    ensures
        pow_mod(7, 0x18, 0x8a739) == 0x555da,
{
    let p = 0x8a739;
    let g = 7;
    lemma_chain_start(p, g);
    let e: nat = 0;
    let e = lemma_chain_square(p, g, e, 1, 0, 1);
    let e = lemma_chain_multiply(p, g, e, 1, 0, 7);
    let e = lemma_chain_square(p, g, e, 7, 0, 0x31);
    let e = lemma_chain_multiply(p, g, e, 0x31, 0, 0x157);
    let e = lemma_chain_square(p, g, e, 0x157, 0, 0x1cb91);
    let e = lemma_chain_square(p, g, e, 0x1cb91, 0x5f57, 0x24cc2);
    let e = lemma_chain_square(p, g, e, 0x24cc2, 0x9c7a, 0x555da);
}

/// A power of a power of the root 7 modulo 567097.
proof fn lemma_power_567097_4()
    ensures
        pow_mod(0x8a738, 2, 0x8a739) == 1,
{
    let p = 0x8a739;
    let g = 0x8a738;
    lemma_chain_start(p, g);
    let e: nat = 0;
    let e = lemma_chain_square(p, g, e, 1, 0, 1);
    let e = lemma_chain_multiply(p, g, e, 1, 0, 0x8a738);
    let e = lemma_chain_square(p, g, e, 0x8a738, 0x8a737, 1);
}

/// 7 is a primitive root modulo 567097.
pub proof fn lemma_root_567097()
    ensures
        is_primitive_root(7, 0x8a739),
{
    let p = 0x8a739;
    let g = 7;
    lemma_power_567097_1();
    lemma_power_567097_2();
    lemma_power_567097_3();
    lemma_power_567097_4();
    lemma_chain_rebase(p, g, 0x4539c, 0x8a738, 2, 1);
    lemma_two_is_prime();
    lemma_prime_3();
    lemma_prime_23629();
    assert forall|m: int| m >= 2 && #[trigger] (0x8a738int % m) == 0 implies exists|f: int| #[trigger]
        refutes(7, 0x8a738, 0x8a739, m, f) by {
        lemma_euclid(m, 2, 0x4539c);
        if m % 2 == 0 {
            assert(refutes(7, 0x8a738, 0x8a739, m, 2));
        } else {
            lemma_euclid(m, 2, 0x229ce);
            lemma_euclid(m, 2, 0x114e7);
            lemma_euclid(m, 3, 0x5c4d);
            if m % 3 == 0 {
                assert(refutes(7, 0x8a738, 0x8a739, m, 3));
            } else {
                lemma_euclid(m, 0x5c4d, 1);
                if m % 0x5c4d == 0 {
                    assert(refutes(7, 0x8a738, 0x8a739, m, 0x5c4d));
                } else {
                    lemma_small_mod(1, m as nat);
                }
            }
        }
    }
    lemma_lucas(0x8a739, 0x8a738, 7);
}

/// 567097 is prime.
pub proof fn lemma_prime_567097()
    ensures
        is_prime(0x8a739),
{
    lemma_root_567097();
    lemma_root_gives_prime(7, 0x8a739);
}

/// A power of the root 2 modulo 0xee049bc45fd: the steps from the exponent
/// 0
/// to the exponent
/// 0x3b8126f117e.
proof fn lemma_power_16356472538621_1_part_1(p: int, g: int)
    requires
        p == 0xee049bc45fd,
        g == 2,
        pow_mod(g, 0, p) == 1,
    ensures
        pow_mod(g, 0x3b8126f117e, p) == 0xa249c3a08a0,
{
    let e: nat = 0;
    let e = lemma_chain_square(p, g, e, 1, 0, 1);
    let e = lemma_chain_multiply(p, g, e, 1, 0, 2);
    let e = lemma_chain_square(p, g, e, 2, 0, 4);
    let e = lemma_chain_multiply(p, g, e, 4, 0, 8);
    let e = lemma_chain_square(p, g, e, 8, 0, 0x40);
    let e = lemma_chain_multiply(p, g, e, 0x40, 0, 0x80);
    let e = lemma_chain_square(p, g, e, 0x80, 0, 0x4000);
    let e = lemma_chain_square(p, g, e, 0x4000, 0, 0x10000000);
    let e = lemma_chain_multiply(p, g, e, 0x10000000, 0, 0x20000000);
    let e = lemma_chain_square(p, g, e, 0x20000000, 0x44d5, 0xbcca3c2907f);
    let e = lemma_chain_multiply(p, g, e, 0xbcca3c2907f, 1, 0x8b8fdc8db01);
    let e = lemma_chain_square(p, g, e, 0x8b8fdc8db01, 0x51d50c147df, 0xa9aa0c3939e);
    let e = lemma_chain_multiply(p, g, e, 0xa9aa0c3939e, 1, 0x654f7cae13f);
    let e = lemma_chain_square(p, g, e, 0x654f7cae13f, 0x2b1f3c98518, 0x42faf3ccc9);
    let e = lemma_chain_square(p, g, e, 0x42faf3ccc9, 0x12d94c353, 0x1c5bcc88dca);
    let e = lemma_chain_square(p, g, e, 0x1c5bcc88dca, 0x360f77da76, 0xe19de2b6ec6);
    let e = lemma_chain_square(p, g, e, 0xe19de2b6ec6, 0xd5dc92a1e6a, 0x2e715c82062);
    let e = lemma_chain_square(p, g, e, 0x2e715c82062, 0x90fe3b0d42, 0x6e7f7d1c14a);
    let e = lemma_chain_square(p, g, e, 0x6e7f7d1c14a, 0x334c3f089bc, 0xe04bcdcde98);
    let e = lemma_chain_square(p, g, e, 0xe04bcdcde98, 0xd35d83cd317, 0xdc2e9e62985);
    let e = lemma_chain_multiply(p, g, e, 0xdc2e9e62985, 1, 0xca58a100d0d);
    let e = lemma_chain_square(p, g, e, 0xca58a100d0d, 0xac0542b4e91, 0xcfdbfd4985c);
    let e = lemma_chain_square(p, g, e, 0xcfdbfd4985c, 0xb585a179132, 0x1aeb4e868a6);
    let e = lemma_chain_square(p, g, e, 0x1aeb4e868a6, 0x30b632e0c7, 0x2f9afa583f9);
    let e = lemma_chain_multiply(p, g, e, 0x2f9afa583f9, 0, 0x5f35f4b07f2);
    let e = lemma_chain_square(p, g, e, 0x5f35f4b07f2, 0x2615f283271, 0xda71fbcd217);
    let e = lemma_chain_square(p, g, e, 0xda71fbcd217, 0xc87b64c56ee, 0x6cd5e89aedb);
    let e = lemma_chain_square(p, g, e, 0x6cd5e89aedb, 0x31c412fd3bb, 0x495512ac88a);
    let e = lemma_chain_multiply(p, g, e, 0x495512ac88a, 0, 0x92aa2559114);
    let e = lemma_chain_square(p, g, e, 0x92aa2559114, 0x5a5f9c2edb8, 0x77d8ea822b8);
    let e = lemma_chain_multiply(p, g, e, 0x77d8ea822b8, 1, 0x1ad393ff73);
    let e = lemma_chain_square(p, g, e, 0x1ad393ff73, 0x30607857, 0xb7ff04decae);
    let e = lemma_chain_square(p, g, e, 0xb7ff04decae, 0x8e3c44525a4, 0xd1f7791df30);
    let e = lemma_chain_multiply(p, g, e, 0xd1f7791df30, 1, 0xb5ea5677863);
    let e = lemma_chain_square(p, g, e, 0xb5ea5677863, 0x8b095c8a25b, 0x78f6d67fb5a);
    let e = lemma_chain_multiply(p, g, e, 0x78f6d67fb5a, 1, 0x3e9113b0b7);
    let e = lemma_chain_square(p, g, e, 0x3e9113b0b7, 0x10725601d, 0x92b06025528);
    let e = lemma_chain_multiply(p, g, e, 0x92b06025528, 1, 0x375c2486453);
    let e = lemma_chain_square(p, g, e, 0x375c2486453, 0xce0422c654, 0xa15527e4de5);
    let e = lemma_chain_multiply(p, g, e, 0xa15527e4de5, 1, 0x54a5b4055cd);
    let e = lemma_chain_square(p, g, e, 0x54a5b4055cd, 0x1e1a7b56121, 0xeb26296e38c);
    let e = lemma_chain_square(p, g, e, 0xeb26296e38c, 0xe850915be38, 0x8b4226f7f38);
    let e = lemma_chain_square(p, g, e, 0x8b4226f7f38, 0x517a043a030, 0xa3781865cd0);
    let e = lemma_chain_square(p, g, e, 0xa3781865cd0, 0x7044fbb79ba, 0x68b28b7ba2e);
    let e = lemma_chain_multiply(p, g, e, 0x68b28b7ba2e, 0, 0xd16516f745c);
    let e = lemma_chain_square(p, g, e, 0xd16516f745c, 0xb836bff8ecb, 0x7f5f78aab71);
    let e = lemma_chain_square(p, g, e, 0x7f5f78aab71, 0x44298f47800, 0x37028b18fe1);
    let e = lemma_chain_square(p, g, e, 0x37028b18fe1, 0xcb6b5fffc0, 0x3970730a301);
    let e = lemma_chain_square(p, g, e, 0x3970730a301, 0xddc862d561, 0x6d68cbe4024);
    let e = lemma_chain_multiply(p, g, e, 0x6d68cbe4024, 0, 0xdad197c8048);
    let e = lemma_chain_square(p, g, e, 0xdad197c8048, 0xc92b09b50b1, 0x36674cda053);
    let e = lemma_chain_square(p, g, e, 0x36674cda053, 0xc6f590fa98, 0xadb3de33ab1);
    let e = lemma_chain_multiply(p, g, e, 0xadb3de33ab1, 1, 0x6d6320a2f65);
    let e = lemma_chain_square(p, g, e, 0x6d6320a2f65, 0x32458c5ed56, 0xba64aee81db);
    let e = lemma_chain_multiply(p, g, e, 0xba64aee81db, 1, 0x86c4c20bdb9);
    let e = lemma_chain_square(p, g, e, 0x86c4c20bdb9, 0x4c4ebbeb8a8, 0x90eec38e9a9);
    let e = lemma_chain_multiply(p, g, e, 0x90eec38e9a9, 1, 0x33d8eb58d55);
    let e = lemma_chain_square(p, g, e, 0x33d8eb58d55, 0xb4b3bba578, 0x209840cdea1);
    let e = lemma_chain_multiply(p, g, e, 0x209840cdea1, 0, 0x4130819bd42);
    let e = lemma_chain_square(p, g, e, 0x4130819bd42, 0x11dab9ca2d2, 0x76d5ce7017a);
    let e = lemma_chain_multiply(p, g, e, 0x76d5ce7017a, 0, 0xedab9ce02f4);
    let e = lemma_chain_square(p, g, e, 0xedab9ce02f4, 0xed52bf4296b, 0x15a3badf2d1);
    let e = lemma_chain_multiply(p, g, e, 0x15a3badf2d1, 0, 0x2b4775be5a2);
    let e = lemma_chain_square(p, g, e, 0x2b4775be5a2, 0x7de97eacb4, 0xa249c3a08a0);
}

/// A power of the root 2 modulo 0xee049bc45fd: the steps from the exponent
/// 0x3b8126f117e
/// to the exponent
/// 0x77024de22fe.
proof fn lemma_power_16356472538621_1_part_2(p: int, g: int)
    requires
        p == 0xee049bc45fd,
        g == 2,
        pow_mod(g, 0x3b8126f117e, p) == 0xa249c3a08a0,
    ensures
        pow_mod(g, 0x77024de22fe, p) == 0xee049bc45fc,
{
    let e: nat = 0x3b8126f117e;
    let e = lemma_chain_multiply(p, g, e, 0xa249c3a08a0, 1, 0x568eeb7cb43);
    let e = lemma_chain_square(p, g, e, 0x568eeb7cb43, 0x1f7a5fab2d1, 0xee049bc45fc);
}

/// A power of the root 2 modulo 0xee049bc45fd.
proof fn lemma_power_16356472538621_1()
    ensures
        pow_mod(2, 0x77024de22fe, 0xee049bc45fd) == 0xee049bc45fc,
{
    let p = 0xee049bc45fd;
    let g = 2;
    lemma_chain_start(p, g);
    lemma_power_16356472538621_1_part_1(p, g);
    lemma_power_16356472538621_1_part_2(p, g);
}

/// A power of the root 2 modulo 0xee049bc45fd.
proof fn lemma_power_16356472538621_2()
    ensures
        pow_mod(2, 0x2f9a858dacc, 0xee049bc45fd) == 0xc6fabecdf32,
{
    let p = 0xee049bc45fd;
    let g = 2;
    lemma_chain_start(p, g);
    let e: nat = 0;
    let e = lemma_chain_square(p, g, e, 1, 0, 1);
    let e = lemma_chain_multiply(p, g, e, 1, 0, 2);
    let e = lemma_chain_square(p, g, e, 2, 0, 4);
    let e = lemma_chain_square(p, g, e, 4, 0, 0x10);
    let e = lemma_chain_multiply(p, g, e, 0x10, 0, 0x20);
    let e = lemma_chain_square(p, g, e, 0x20, 0, 0x400);
    let e = lemma_chain_multiply(p, g, e, 0x400, 0, 0x800);
    let e = lemma_chain_square(p, g, e, 0x800, 0, 0x400000);
    let e = lemma_chain_multiply(p, g, e, 0x400000, 0, 0x800000);
    let e = lemma_chain_square(p, g, e, 0x800000, 4, 0x47ed90ee80c);
    let e = lemma_chain_multiply(p, g, e, 0x47ed90ee80c, 0, 0x8fdb21dd018);
    let e = lemma_chain_square(p, g, e, 0x8fdb21dd018, 0x56f1fe9fe93, 0x1ceb3c4cbf9);
    let e = lemma_chain_multiply(p, g, e, 0x1ceb3c4cbf9, 0, 0x39d678997f2);
    let e = lemma_chain_square(p, g, e, 0x39d678997f2, 0xe0def735ab, 0x73e8ed83fc5);
    let e = lemma_chain_square(p, g, e, 0x73e8ed83fc5, 0x38721b1b077, 0xa4580c314fe);
    let e = lemma_chain_square(p, g, e, 0xa4580c314fe, 0x71796c99117, 0x81887791549);
    let e = lemma_chain_multiply(p, g, e, 0x81887791549, 1, 0x150c535e495);
    let e = lemma_chain_square(p, g, e, 0x150c535e495, 0x1dc7e982ec, 0x3a3d06bbf7d);
    let e = lemma_chain_multiply(p, g, e, 0x3a3d06bbf7d, 0, 0x747a0d77efa);
    let e = lemma_chain_square(p, g, e, 0x747a0d77efa, 0x38ffcc10eef, 0xc351490def1);
    let e = lemma_chain_square(p, g, e, 0xc351490def1, 0xa0470b431ec, 0x6c6506ceca5);
    let e = lemma_chain_multiply(p, g, e, 0x6c6506ceca5, 0, 0xd8ca0d9d94a);
    let e = lemma_chain_square(p, g, e, 0xd8ca0d9d94a, 0xc5743428a06, 0x7171d848376);
    let e = lemma_chain_square(p, g, e, 0x7171d848376, 0x3611fe42c0e, 0xc9f348aaa8e);
    let e = lemma_chain_multiply(p, g, e, 0xc9f348aaa8e, 1, 0xa5e1f590f1f);
    let e = lemma_chain_square(p, g, e, 0xa5e1f590f1f, 0x739bf01847d, 0xb96e8710538);
    let e = lemma_chain_square(p, g, e, 0xb96e8710538, 0x9076ad5d1ca, 0x2423a57759e);
    let e = lemma_chain_square(p, g, e, 0x2423a57759e, 0x57cb71635e, 0x930598e439e);
    let e = lemma_chain_square(p, g, e, 0x930598e439e, 0x5ad0734d2f6, 0xc2e826b4a66);
    let e = lemma_chain_square(p, g, e, 0xc2e826b4a66, 0x9f9aade211b, 0x6321f9c21f5);
    let e = lemma_chain_multiply(p, g, e, 0x6321f9c21f5, 0, 0xc643f3843ea);
    let e = lemma_chain_square(p, g, e, 0xc643f3843ea, 0xa526f2b1589, 0xe8498661c7f);
    let e = lemma_chain_square(p, g, e, 0xe8498661c7f, 0xe2b1c3bbc30, 0x3caa45e1b91);
    let e = lemma_chain_multiply(p, g, e, 0x3caa45e1b91, 0, 0x79548bc3722);
    let e = lemma_chain_square(p, g, e, 0x79548bc3722, 0x3dd9306ba49, 0x66d6957d95f);
    let e = lemma_chain_multiply(p, g, e, 0x66d6957d95f, 0, 0xcdad2afb2be);
    let e = lemma_chain_square(p, g, e, 0xcdad2afb2be, 0xb1bab9fdf1e, 0x78b78662e5e);
    let e = lemma_chain_square(p, g, e, 0x78b78662e5e, 0x3d398295d51, 0x357f3c9dc77);
    let e = lemma_chain_square(p, g, e, 0x357f3c9dc77, 0xc06259134f, 0xae8f17a5f3e);
    let e = lemma_chain_square(p, g, e, 0xae8f17a5f3e, 0x8004ddbfe66, 0x68e7fa32a36);
    let e = lemma_chain_multiply(p, g, e, 0x68e7fa32a36, 0, 0xd1cff46546c);
    let e = lemma_chain_square(p, g, e, 0xd1cff46546c, 0xb8f2f703f2d, 0x50411e57d17);
    let e = lemma_chain_multiply(p, g, e, 0x50411e57d17, 0, 0xa0823cafa2e);
    let e = lemma_chain_square(p, g, e, 0xa0823cafa2e, 0x6c3d6cf4811, 0xb216a531277);
    let e = lemma_chain_square(p, g, e, 0xb216a531277, 0x853f91e99b4, 0x3fddfa3886d);
    let e = lemma_chain_multiply(p, g, e, 0x3fddfa3886d, 0, 0x7fbbf4710da);
    let e = lemma_chain_square(p, g, e, 0x7fbbf4710da, 0x448caeeb3d7, 0x50460c34b29);
    let e = lemma_chain_multiply(p, g, e, 0x50460c34b29, 0, 0xa08c1869652);
    let e = lemma_chain_square(p, g, e, 0xa08c1869652, 0x6c4ab923c35, 0x8fe0c7068e3);
    let e = lemma_chain_square(p, g, e, 0x8fe0c7068e3, 0x56f8d1a5320, 0x5582ad72a9);
    let e = lemma_chain_multiply(p, g, e, 0x5582ad72a9, 0, 0xab055ae552);
    let e = lemma_chain_square(p, g, e, 0xab055ae552, 0x7ae1d202f, 0x891491a54d1);
    let e = lemma_chain_square(p, g, e, 0x891491a54d1, 0x4ef2a9a35af, 0x74f8a2a99ae);
    let e = lemma_chain_multiply(p, g, e, 0x74f8a2a99ae, 0, 0xe9f1455335c);
    let e = lemma_chain_square(p, g, e, 0xe9f1455335c, 0xe5efcc4a8b9, 0x6400cb52d3b);
    let e = lemma_chain_multiply(p, g, e, 0x6400cb52d3b, 0, 0xc80196a5a76);
    let e = lemma_chain_square(p, g, e, 0xc80196a5a76, 0xa810a022475, 0xc487ad19dc3);
    let e = lemma_chain_square(p, g, e, 0xc487ad19dc3, 0xa24609d3740, 0x77d275ae849);
    let e = lemma_chain_square(p, g, e, 0x77d275ae849, 0x3c5204c78e4, 0x6b1107f777d);
    let e = lemma_chain_multiply(p, g, e, 0x6b1107f777d, 0, 0xd6220feeefa);
    let e = lemma_chain_square(p, g, e, 0xd6220feeefa, 0xc0a51b4acc3, 0xc3aaada806d);
    let e = lemma_chain_multiply(p, g, e, 0xc3aaada806d, 1, 0x9950bf8badd);
    let e = lemma_chain_square(p, g, e, 0x9950bf8badd, 0x62c171479fd, 0x7fd83ac22c0);
    let e = lemma_chain_square(p, g, e, 0x7fd83ac22c0, 0x44ab0b46666, 0xc6fabecdf32);
}

/// A power of the root 2 modulo 0xee049bc45fd.
proof fn lemma_power_16356472538621_3()
    ensures
        pow_mod(2, 0xa593e6cb64, 0xee049bc45fd) == 0x2803c1c5196,
{
    let p = 0xee049bc45fd;
    let g = 2;
    lemma_chain_start(p, g);
    let e: nat = 0;
    let e = lemma_chain_square(p, g, e, 1, 0, 1);
    let e = lemma_chain_multiply(p, g, e, 1, 0, 2);
    let e = lemma_chain_square(p, g, e, 2, 0, 4);
    let e = lemma_chain_square(p, g, e, 4, 0, 0x10);
    let e = lemma_chain_multiply(p, g, e, 0x10, 0, 0x20);
    let e = lemma_chain_square(p, g, e, 0x20, 0, 0x400);
    let e = lemma_chain_square(p, g, e, 0x400, 0, 0x100000);
    let e = lemma_chain_square(p, g, e, 0x100000, 0, 0x10000000000);
    let e = lemma_chain_multiply(p, g, e, 0x10000000000, 0, 0x20000000000);
    let e = lemma_chain_square(p, g, e, 0x20000000000, 0x44d5cb0d87, 0xe3f8d8a3e95);
    let e = lemma_chain_square(p, g, e, 0xe3f8d8a3e95, 0xda59a129cd8, 0xc589aa54941);
    let e = lemma_chain_multiply(p, g, e, 0xc589aa54941, 1, 0x9d0eb8e4c85);
    let e = lemma_chain_square(p, g, e, 0x9d0eb8e4c85, 0x67a2a160abd, 0x101d7f1af50);
    let e = lemma_chain_multiply(p, g, e, 0x101d7f1af50, 0, 0x203afe35ea0);
    let e = lemma_chain_square(p, g, e, 0x203afe35ea0, 0x45d481a917, 0x736001e9545);
    let e = lemma_chain_square(p, g, e, 0x736001e9545, 0x37ed0f0c42b, 0x7bd9dcfef1a);
    let e = lemma_chain_square(p, g, e, 0x7bd9dcfef1a, 0x4071ed79d40, 0xc061be4e664);
    let e = lemma_chain_multiply(p, g, e, 0xc061be4e664, 1, 0x92bee0d86cb);
    let e = lemma_chain_square(p, g, e, 0x92bee0d86cb, 0x5a792adb607, 0xbcbf7b65d0e);
    let e = lemma_chain_square(p, g, e, 0xbcbf7b65d0e, 0x95ad49e0d31, 0x8e612fdee57);
    let e = lemma_chain_square(p, g, e, 0x8e612fdee57, 0x552b7c3c380, 0xeebfb22c11);
    let e = lemma_chain_multiply(p, g, e, 0xeebfb22c11, 0, 0x1dd7f645822);
    let e = lemma_chain_square(p, g, e, 0x1dd7f645822, 0x3bded6e875, 0xcc37af01fe3);
    let e = lemma_chain_multiply(p, g, e, 0xcc37af01fe3, 1, 0xaa6ac23f9c9);
    let e = lemma_chain_square(p, g, e, 0xaa6ac23f9c9, 0x7a040d1fe93, 0x18d094698a);
    let e = lemma_chain_multiply(p, g, e, 0x18d094698a, 0, 0x31a128d314);
    let e = lemma_chain_square(p, g, e, 0x31a128d314, 0xa592c85f, 0x8575d7458ad);
    let e = lemma_chain_multiply(p, g, e, 0x8575d7458ad, 1, 0x1ce712c6b5d);
    let e = lemma_chain_square(p, g, e, 0x1ce712c6b5d, 0x3827904105, 0xd26073c44d8);
    let e = lemma_chain_multiply(p, g, e, 0xd26073c44d8, 1, 0xb6bc4bc43b3);
    let e = lemma_chain_square(p, g, e, 0xb6bc4bc43b3, 0x8c4b061f75f, 0x1371f8d1b46);
    let e = lemma_chain_square(p, g, e, 0x1371f8d1b46, 0x196aea1f06, 0xb7ebfde9036);
    let e = lemma_chain_square(p, g, e, 0xb7ebfde9036, 0x8e1edb002c2, 0x5b352bbc7aa);
    let e = lemma_chain_multiply(p, g, e, 0x5b352bbc7aa, 0, 0xb66a5778f54);
    let e = lemma_chain_square(p, g, e, 0xb66a5778f54, 0x8bcd4b97789, 0xc6ac637e42b);
    let e = lemma_chain_multiply(p, g, e, 0xc6ac637e42b, 1, 0x9f542b38259);
    let e = lemma_chain_square(p, g, e, 0x9f542b38259, 0x6aa78536a7e, 0xba7e6284e6b);
    let e = lemma_chain_square(p, g, e, 0xba7e6284e6b, 0x921f7ac956c, 0x6ae0c4f98fd);
    let e = lemma_chain_multiply(p, g, e, 0x6ae0c4f98fd, 0, 0xd5c189f31fa);
    let e = lemma_chain_square(p, g, e, 0xd5c189f31fa, 0xbff795ba7a2, 0x9010d92530a);
    let e = lemma_chain_multiply(p, g, e, 0x9010d92530a, 1, 0x321d1686017);
    let e = lemma_chain_square(p, g, e, 0x321d1686017, 0xa8d1b67cc0, 0xc6df6c83851);
    let e = lemma_chain_square(p, g, e, 0xc6df6c83851, 0xa62a5b8472f, 0xe49721852e);
    let e = lemma_chain_square(p, g, e, 0xe49721852e, 0xdb893fae9, 0x7de290eff);
    let e = lemma_chain_multiply(p, g, e, 0x7de290eff, 0, 0xfbc521dfe);
    let e = lemma_chain_square(p, g, e, 0xfbc521dfe, 0x10a51100, 0xa89dd84bb04);
    let e = lemma_chain_square(p, g, e, 0xa89dd84bb04, 0x77738628887, 0xd8e426d87a5);
    let e = lemma_chain_multiply(p, g, e, 0xd8e426d87a5, 1, 0xc3c3b1ec94d);
    let e = lemma_chain_square(p, g, e, 0xc3c3b1ec94d, 0xa1030722f59, 0xa4b7c5e3934);
    let e = lemma_chain_multiply(p, g, e, 0xa4b7c5e3934, 1, 0x5b6af002c6b);
    let e = lemma_chain_square(p, g, e, 0x5b6af002c6b, 0x231c93e41a4, 0xa7caf0ce1a5);
    let e = lemma_chain_square(p, g, e, 0xa7caf0ce1a5, 0x76496fcb244, 0x9f9e2a2f325);
    let e = lemma_chain_multiply(p, g, e, 0x9f9e2a2f325, 1, 0x5137b89a04d);
    let e = lemma_chain_square(p, g, e, 0x5137b89a04d, 0x1bb6a6f84ea, 0xe005fe8e9e7);
    let e = lemma_chain_multiply(p, g, e, 0xe005fe8e9e7, 1, 0xd2076158dd1);
    let e = lemma_chain_square(p, g, e, 0xd2076158dd1, 0xb954bafa7be, 0x8c6bc82e7db);
    let e = lemma_chain_square(p, g, e, 0x8c6bc82e7db, 0x52d7bde6e53, 0x678e5e58e52);
    let e = lemma_chain_square(p, g, e, 0x678e5e58e52, 0x2d0e0c53fb0, 0x44f5f78b154);
    let e = lemma_chain_multiply(p, g, e, 0x44f5f78b154, 0, 0x89ebef162a8);
    let e = lemma_chain_square(p, g, e, 0x89ebef162a8, 0x4feb7de18c6, 0x4b70bc13492);
    let e = lemma_chain_square(p, g, e, 0x4b70bc13492, 0x17e9378f0c6, 0x2803c1c5196);
}

/// A power of the root 2 modulo 0xee049bc45fd.
proof fn lemma_power_16356472538621_4()
    ensures
        pow_mod(2, 0xf8c7a6c, 0xee049bc45fd) == 0x5cac9ea222b,
{
    let p = 0xee049bc45fd;
    let g = 2;
    lemma_chain_start(p, g);
    let e: nat = 0;
    let e = lemma_chain_square(p, g, e, 1, 0, 1);
    let e = lemma_chain_multiply(p, g, e, 1, 0, 2);
    let e = lemma_chain_square(p, g, e, 2, 0, 4);
    let e = lemma_chain_multiply(p, g, e, 4, 0, 8);
    let e = lemma_chain_square(p, g, e, 8, 0, 0x40);
    let e = lemma_chain_multiply(p, g, e, 0x40, 0, 0x80);
    let e = lemma_chain_square(p, g, e, 0x80, 0, 0x4000);
    let e = lemma_chain_multiply(p, g, e, 0x4000, 0, 0x8000);
    let e = lemma_chain_square(p, g, e, 0x8000, 0, 0x40000000);
    let e = lemma_chain_multiply(p, g, e, 0x40000000, 0, 0x80000000);
    let e = lemma_chain_square(p, g, e, 0x80000000, 0x44d5c, 0xa46c755c014);
    let e = lemma_chain_square(p, g, e, 0xa46c755c014, 0x71959df977d, 0x93b3acc9a07);
    let e = lemma_chain_square(p, g, e, 0x93b3acc9a07, 0x5ba80028757, 0x269ff63836);
    let e = lemma_chain_square(p, g, e, 0x269ff63836, 0x64496c38, 0x478d044a00c);
    let e = lemma_chain_multiply(p, g, e, 0x478d044a00c, 0, 0x8f1a0894018);
    let e = lemma_chain_square(p, g, e, 0x8f1a0894018, 0x560931324c9, 0x961d24a7a9b);
    let e = lemma_chain_multiply(p, g, e, 0x961d24a7a9b, 1, 0x3e35ad8af39);
    let e = lemma_chain_square(p, g, e, 0x3e35ad8af39, 0x10426bf9cf8, 0x6ac4d520199);
    let e = lemma_chain_square(p, g, e, 0x6ac4d520199, 0x2fe4d1dfcc7, 0x17d631e19c6);
    let e = lemma_chain_square(p, g, e, 0x17d631e19c6, 0x2631d3be28, 0x5eed31c8f9c);
    let e = lemma_chain_square(p, g, e, 0x5eed31c8f9c, 0x25dbd2ac82a, 0xc1b6e9c838e);
    let e = lemma_chain_multiply(p, g, e, 0xc1b6e9c838e, 1, 0x956937cc11f);
    let e = lemma_chain_square(p, g, e, 0x956937cc11f, 0x5dca2d24e6d, 0xe4afbb0df08);
    let e = lemma_chain_multiply(p, g, e, 0xe4afbb0df08, 1, 0xdb5ada57813);
    let e = lemma_chain_square(p, g, e, 0xdb5ada57813, 0xca27b935b9c, 0xa6213ed3c3d);
    let e = lemma_chain_multiply(p, g, e, 0xa6213ed3c3d, 1, 0x5e3de1e327d);
    let e = lemma_chain_square(p, g, e, 0x5e3de1e327d, 0x25507db8ecd, 0xb52663baf70);
    let e = lemma_chain_multiply(p, g, e, 0xb52663baf70, 1, 0x7c482bb18e3);
    let e = lemma_chain_square(p, g, e, 0x7c482bb18e3, 0x40e4ec3882c, 0xe50d2cbe9cd);
    let e = lemma_chain_square(p, g, e, 0xe50d2cbe9cd, 0xdc6c36c4fbd, 0x85e2d500f60);
    let e = lemma_chain_multiply(p, g, e, 0x85e2d500f60, 1, 0x1dc10e3d8c3);
    let e = lemma_chain_square(p, g, e, 0x1dc10e3d8c3, 0x3b8312090d, 0xeb2c18c31b0);
    let e = lemma_chain_square(p, g, e, 0xeb2c18c31b0, 0xe85c4b8b353, 0xad2335240f9);
    let e = lemma_chain_square(p, g, e, 0xad2335240f9, 0x7df14dba801, 0x1a66ae82434);
    let e = lemma_chain_multiply(p, g, e, 0x1a66ae82434, 0, 0x34cd5d04868);
    let e = lemma_chain_square(p, g, e, 0x34cd5d04868, 0xbb6b54bd57, 0x83308cf1845);
    let e = lemma_chain_multiply(p, g, e, 0x83308cf1845, 1, 0x185c7e1ea8d);
    let e = lemma_chain_square(p, g, e, 0x185c7e1ea8d, 0x27e4f2382e, 0xa3e6c722633);
    let e = lemma_chain_square(p, g, e, 0xa3e6c722633, 0x70dd3763daa, 0xa0175cd6b27);
    let e = lemma_chain_multiply(p, g, e, 0xa0175cd6b27, 1, 0x522a1de9051);
    let e = lemma_chain_square(p, g, e, 0x522a1de9051, 0x1c5d0a166fb, 0xe489c3ecc92);
    let e = lemma_chain_multiply(p, g, e, 0xe489c3ecc92, 1, 0xdb0eec15327);
    let e = lemma_chain_square(p, g, e, 0xdb0eec15327, 0xc99bdd3dce1, 0xbadecaa6094);
    let e = lemma_chain_square(p, g, e, 0xbadecaa6094, 0x92b6b4f6b89, 0x5cac9ea222b);
}

/// A power of the root 2 modulo 0xee049bc45fd.
proof fn lemma_power_16356472538621_5()
    ensures
        pow_mod(2, 0x1b819dc, 0xee049bc45fd) == 0xcc2a228ddf2,
{
    let p = 0xee049bc45fd;
    let g = 2;
    lemma_chain_start(p, g);
    let e: nat = 0;
    let e = lemma_chain_square(p, g, e, 1, 0, 1);
    let e = lemma_chain_multiply(p, g, e, 1, 0, 2);
    let e = lemma_chain_square(p, g, e, 2, 0, 4);
    let e = lemma_chain_multiply(p, g, e, 4, 0, 8);
    let e = lemma_chain_square(p, g, e, 8, 0, 0x40);
    let e = lemma_chain_square(p, g, e, 0x40, 0, 0x1000);
    let e = lemma_chain_multiply(p, g, e, 0x1000, 0, 0x2000);
    let e = lemma_chain_square(p, g, e, 0x2000, 0, 0x4000000);
    let e = lemma_chain_multiply(p, g, e, 0x4000000, 0, 0x8000000);
    let e = lemma_chain_square(p, g, e, 0x8000000, 0x44d, 0x562e146fee7);
    let e = lemma_chain_multiply(p, g, e, 0x562e146fee7, 0, 0xac5c28dfdce);
    let e = lemma_chain_square(p, g, e, 0xac5c28dfdce, 0x7cd05fa012e, 0x80f8260414e);
    let e = lemma_chain_square(p, g, e, 0x80f8260414e, 0x45e1b3197e8, 0x7964ed40b7c);
    let e = lemma_chain_square(p, g, e, 0x7964ed40b7c, 0x3de9e4d4a8e, 0x5001020efba);
    let e = lemma_chain_square(p, g, e, 0x5001020efba, 0x1ae430cb1bd, 0xd87f3bd3a5b);
    let e = lemma_chain_square(p, g, e, 0xd87f3bd3a5b, 0xc4ec00bce3c, 0xc106f5a5f0d);
    let e = lemma_chain_square(p, g, e, 0xc106f5a5f0d, 0x9c8a6884709, 0x98f32ff05c4);
    let e = lemma_chain_square(p, g, e, 0x98f32ff05c4, 0x62490dfb4c1, 0x261cd0f9653);
    let e = lemma_chain_multiply(p, g, e, 0x261cd0f9653, 0, 0x4c39a1f2ca6);
    let e = lemma_chain_square(p, g, e, 0x4c39a1f2ca6, 0x18693ac41b4, 0xbdd9cdb08c0);
    let e = lemma_chain_multiply(p, g, e, 0xbdd9cdb08c0, 1, 0x8daeff9cb83);
    let e = lemma_chain_square(p, g, e, 0x8daeff9cb83, 0x5456d363893, 0x8381dd57cc2);
    let e = lemma_chain_square(p, g, e, 0x8381dd57cc2, 0x48a8b88992d, 0x746c24c008b);
    let e = lemma_chain_square(p, g, e, 0x746c24c008b, 0x38f22feca10, 0xbc7c88449a9);
    let e = lemma_chain_multiply(p, g, e, 0xbc7c88449a9, 1, 0x8af474c4d55);
    let e = lemma_chain_square(p, g, e, 0x8af474c4d55, 0x511f33114f9, 0xba92dcf6724);
    let e = lemma_chain_multiply(p, g, e, 0xba92dcf6724, 1, 0x87211e2884b);
    let e = lemma_chain_square(p, g, e, 0x87211e2884b, 0x4cb776e80d1, 0x52df92226c);
    let e = lemma_chain_multiply(p, g, e, 0x52df92226c, 0, 0xa5bf2444d8);
    let e = lemma_chain_square(p, g, e, 0xa5bf2444d8, 0x736b6d3df, 0x39f36b4f7dd);
    let e = lemma_chain_square(p, g, e, 0x39f36b4f7dd, 0xe1c048a270, 0x56ce4f37c19);
    let e = lemma_chain_multiply(p, g, e, 0x56ce4f37c19, 0, 0xad9c9e6f832);
    let e = lemma_chain_square(p, g, e, 0xad9c9e6f832, 0x7ea22d9271b, 0xbdd0b7efd15);
    let e = lemma_chain_multiply(p, g, e, 0xbdd0b7efd15, 1, 0x8d9cd41b42d);
    let e = lemma_chain_square(p, g, e, 0x8d9cd41b42d, 0x54413306cb6, 0x8744fd8d20b);
    let e = lemma_chain_multiply(p, g, e, 0x8744fd8d20b, 1, 0x20855f55e19);
    let e = lemma_chain_square(p, g, e, 0x20855f55e19, 0x4718421d83, 0x9d505f0e4fa);
    let e = lemma_chain_square(p, g, e, 0x9d505f0e4fa, 0x67f956c3c9a, 0xcc2a228ddf2);
}

/// A power of a power of the root 2 modulo 0xee049bc45fd.
proof fn lemma_power_16356472538621_6()
    ensures
        pow_mod(0xee049bc45fc, 2, 0xee049bc45fd) == 1,
{
    let p = 0xee049bc45fd;
    let g = 0xee049bc45fc;
    lemma_chain_start(p, g);
    let e: nat = 0;
    let e = lemma_chain_square(p, g, e, 1, 0, 1);
    let e = lemma_chain_multiply(p, g, e, 1, 0, 0xee049bc45fc);
    let e = lemma_chain_square(p, g, e, 0xee049bc45fc, 0xee049bc45fb, 1);
}

/// 2 is a primitive root modulo 0xee049bc45fd.
pub proof fn lemma_root_16356472538621()
    ensures
        is_primitive_root(2, 0xee049bc45fd),
{
    let p = 0xee049bc45fd;
    let g = 2;
    lemma_power_16356472538621_1();
    lemma_power_16356472538621_2();
    lemma_power_16356472538621_3();
    lemma_power_16356472538621_4();
    lemma_power_16356472538621_5();
    lemma_power_16356472538621_6();
    lemma_chain_rebase(p, g, 0x77024de22fe, 0xee049bc45fc, 2, 1);
    lemma_two_is_prime();
    lemma_prime_5();
    lemma_prime_23();
    lemma_prime_62701();
    lemma_prime_567097();
    assert forall|m: int| m >= 2 && #[trigger] (0xee049bc45fcint % m) == 0 implies exists|f: int| #[trigger]
        refutes(2, 0xee049bc45fc, 0xee049bc45fd, m, f) by {
        lemma_euclid(m, 2, 0x77024de22fe);
        if m % 2 == 0 {
            assert(refutes(2, 0xee049bc45fc, 0xee049bc45fd, m, 2));
        } else {
            lemma_euclid(m, 2, 0x3b8126f117f);
            lemma_euclid(m, 5, 0xbe6a1636b3);
            if m % 5 == 0 {
                assert(refutes(2, 0xee049bc45fc, 0xee049bc45fd, m, 5));
            } else {
                lemma_euclid(m, 0x17, 0x8476523c5);
                if m % 0x17 == 0 {
                    assert(refutes(2, 0xee049bc45fc, 0xee049bc45fd, m, 0x17));
                } else {
                    lemma_euclid(m, 0xf4ed, 0x8a739);
                    if m % 0xf4ed == 0 {
                        assert(refutes(2, 0xee049bc45fc, 0xee049bc45fd, m, 0xf4ed));
                    } else {
                        lemma_euclid(m, 0x8a739, 1);
                        if m % 0x8a739 == 0 {
                            assert(refutes(2, 0xee049bc45fc, 0xee049bc45fd, m, 0x8a739));
                        } else {
                            lemma_small_mod(1, m as nat);
                        }
                    }
                }
            }
        }
    }
    lemma_lucas(0xee049bc45fd, 0xee049bc45fc, 2);
}

/// 0xee049bc45fd is prime.
pub proof fn lemma_prime_16356472538621()
    ensures
        is_prime(0xee049bc45fd),
{
    lemma_root_16356472538621();
    lemma_root_gives_prime(2, 0xee049bc45fd);
}

/// A power of the root 2 modulo 0x8a673603642696d: the steps from the exponent
/// 0
/// to the exponent
/// 0x2299cd80d908.
proof fn lemma_power_623312455501769069_1_part_1(p: int, g: int)
    requires
        p == 0x8a673603642696d,
        g == 2,
        pow_mod(g, 0, p) == 1,
    ensures
        pow_mod(g, 0x2299cd80d908, p) == 0x1cb1a4c4c4a63b3,
{
    let e: nat = 0;
    let e = lemma_chain_square(p, g, e, 1, 0, 1);
    let e = lemma_chain_multiply(p, g, e, 1, 0, 2);
    let e = lemma_chain_square(p, g, e, 2, 0, 4);
    let e = lemma_chain_square(p, g, e, 4, 0, 0x10);
    let e = lemma_chain_square(p, g, e, 0x10, 0, 0x100);
    let e = lemma_chain_square(p, g, e, 0x100, 0, 0x10000);
    let e = lemma_chain_multiply(p, g, e, 0x10000, 0, 0x20000);
    let e = lemma_chain_square(p, g, e, 0x20000, 0, 0x400000000);
    let e = lemma_chain_square(p, g, e, 0x400000000, 0x1d9, 0x474d33bbf4b359b);
    let e = lemma_chain_multiply(p, g, e, 0x474d33bbf4b359b, 1, 0x433317485401c9);
    let e = lemma_chain_square(p, g, e, 0x433317485401c9, 0x20a0b3a617435, 0x123e4734418f840);
    let e = lemma_chain_square(p, g, e, 0x123e4734418f840, 0x26799ebc810e14, 0x29a562c71dadd7c);
    let e = lemma_chain_square(p, g, e, 0x29a562c71dadd7c, 0xc880d2cb22666f, 0x7932f1a02882fcd);
    let e = lemma_chain_multiply(p, g, e, 0x7932f1a02882fcd, 1, 0x67fead3cecdf62d);
    let e = lemma_chain_square(p, g, e, 0x67fead3cecdf62d, 0x4e24070355329d9, 0x2a143c83c47b184);
    let e = lemma_chain_multiply(p, g, e, 0x2a143c83c47b184, 0, 0x5428790788f6308);
    let e = lemma_chain_square(p, g, e, 0x5428790788f6308, 0x332c6f947d774a1, 0x6b98064c2a7eb3);
    let e = lemma_chain_square(p, g, e, 0x6b98064c2a7eb3, 0x53a491f5fbc33, 0x7a02f2a3256a472);
    let e = lemma_chain_square(p, g, e, 0x7a02f2a3256a472, 0x6b8faa4bf2e73ea, 0x59ed03abb93ee22);
    let e = lemma_chain_multiply(p, g, e, 0x59ed03abb93ee22, 1, 0x2972d1540e572d7);
    let e = lemma_chain_square(p, g, e, 0x2972d1540e572d7, 0xc69b0fb1a4703b, 0x8156b9bb1e83472);
    let e = lemma_chain_multiply(p, g, e, 0x8156b9bb1e83472, 1, 0x78463d72d8dff77);
    let e = lemma_chain_square(p, g, e, 0x78463d72d8dff77, 0x68852b207911ed7, 0x4c76e023225f8c6);
    let e = lemma_chain_multiply(p, g, e, 0x4c76e023225f8c6, 1, 0xe868a42e09881f);
    let e = lemma_chain_square(p, g, e, 0xe868a42e09881f, 0x18643afcfe3c22, 0x4cf792152e16747);
    let e = lemma_chain_square(p, g, e, 0x4cf792152e16747, 0x2acd4ee0ce9326b, 0x3e5206579e9db22);
    let e = lemma_chain_square(p, g, e, 0x3e5206579e9db22, 0x1c0fce0ccad75c5, 0x37b6b808d843ea3);
    let e = lemma_chain_multiply(p, g, e, 0x37b6b808d843ea3, 0, 0x6f6d7011b087d46);
    let e = lemma_chain_square(p, g, e, 0x6f6d7011b087d46, 0x59b5a505b005dfe, 0x1b50c8b207c3bfe);
    let e = lemma_chain_multiply(p, g, e, 0x1b50c8b207c3bfe, 0, 0x36a191640f877fc);
    let e = lemma_chain_square(p, g, e, 0x36a191640f877fc, 0x15907258647c7df, 0x22cb21e8173af1d);
    let e = lemma_chain_square(p, g, e, 0x22cb21e8173af1d, 0x8bf2f28da55987, 0x4a69f0b55e92bce);
    let e = lemma_chain_multiply(p, g, e, 0x4a69f0b55e92bce, 1, 0xa6cab6758fee2f);
    let e = lemma_chain_square(p, g, e, 0xa6cab6758fee2f, 0xc900e4de921a9, 0x5c9b5d6cd79c6ac);
    let e = lemma_chain_multiply(p, g, e, 0x5c9b5d6cd79c6ac, 1, 0x2ecf84d64b123eb);
    let e = lemma_chain_square(p, g, e, 0x2ecf84d64b123eb, 0xfd50ea5362ec84, 0x60ddf2261d74185);
    let e = lemma_chain_square(p, g, e, 0x60ddf2261d74185, 0x43cbd4cfdbd9bbe, 0x6149922de929133);
    let e = lemma_chain_square(p, g, e, 0x6149922de929133, 0x4462cf471fb68b9, 0x64ddd2db8d55864);
    let e = lemma_chain_square(p, g, e, 0x64ddd2db8d55864, 0x49829f4f18f150b, 0x3e17d31ac896e61);
    let e = lemma_chain_square(p, g, e, 0x3e17d31ac896e61, 0x1bdb7cd110f4d2f, 0x6ace412511f5cbe);
    let e = lemma_chain_square(p, g, e, 0x6ace412511f5cbe, 0x526c025e3275c51, 0x6e11df4141b9587);
    let e = lemma_chain_square(p, g, e, 0x6e11df4141b9587, 0x57896889ced430d, 0x66953f5d0f08ba8);
    let e = lemma_chain_square(p, g, e, 0x66953f5d0f08ba8, 0x4c0890b9625efcc, 0x53ea325cf161864);
    let e = lemma_chain_multiply(p, g, e, 0x53ea325cf161864, 1, 0x1d6d2eb67e9c75b);
    let e = lemma_chain_square(p, g, e, 0x1d6d2eb67e9c75b, 0x641a9928c5d7a3, 0x537c76c3d2feef2);
    let e = lemma_chain_multiply(p, g, e, 0x537c76c3d2feef2, 1, 0x1c91b78441d7477);
    let e = lemma_chain_square(p, g, e, 0x1c91b78441d7477, 0x5e5b2e0288e51c, 0xca3b129c780665);
    let e = lemma_chain_square(p, g, e, 0xca3b129c780665, 0x1277e695be7276, 0x56c9e2dd163c19b);
    let e = lemma_chain_multiply(p, g, e, 0x56c9e2dd163c19b, 1, 0x232c8fb6c8519c9);
    let e = lemma_chain_square(p, g, e, 0x232c8fb6c8519c9, 0x8f0701985aaedb, 0x5ed348d0ea89992);
    let e = lemma_chain_multiply(p, g, e, 0x5ed348d0ea89992, 1, 0x333f5b9e70ec9b7);
    let e = lemma_chain_square(p, g, e, 0x333f5b9e70ec9b7, 0x12f9cb75e271503, 0x833d30dc5ecb38a);
    let e = lemma_chain_square(p, g, e, 0x833d30dc5ecb38a, 0x7c721ad5f7d1b7e, 0x89980e84552e3be);
    let e = lemma_chain_square(p, g, e, 0x89980e84552e3be, 0x88ca1d13e9f16bb, 0x549e44e40d2065);
    let e = lemma_chain_multiply(p, g, e, 0x549e44e40d2065, 0, 0xa93c89c81a40ca);
    let e = lemma_chain_square(p, g, e, 0xa93c89c81a40ca, 0xcef05518dab2b, 0x90b2a8d1d11b15);
    let e = lemma_chain_square(p, g, e, 0x90b2a8d1d11b15, 0x974765f529273, 0x6f622c80d47e9c2);
    let e = lemma_chain_square(p, g, e, 0x6f622c80d47e9c2, 0x59a382dbd0e927f, 0x6fcadc42b063ff1);
    let e = lemma_chain_square(p, g, e, 0x6fcadc42b063ff1, 0x5a4c519f9a179c4, 0x6fe0866c40a446d);
    let e = lemma_chain_square(p, g, e, 0x6fe0866c40a446d, 0x5a6f549ee90502b, 0xc9f97ad164511a);
    let e = lemma_chain_multiply(p, g, e, 0xc9f97ad164511a, 0, 0x193f2f5a2c8a234);
    let e = lemma_chain_square(p, g, e, 0x193f2f5a2c8a234, 0x49afb644636d38, 0x46607bbc97461b8);
    let e = lemma_chain_square(p, g, e, 0x46607bbc97461b8, 0x23c93c5196646c2, 0x80438c9b67741a6);
    let e = lemma_chain_square(p, g, e, 0x80438c9b67741a6, 0x76de0b27b50a615, 0x1cb1a4c4c4a63b3);
}

/// A power of the root 2 modulo 0x8a673603642696d: the steps from the exponent
/// 0x2299cd80d908
/// to the exponent
/// 0x45339b01b2134b6.
proof fn lemma_power_623312455501769069_1_part_2(p: int, g: int)
    requires
        p == 0x8a673603642696d,
        g == 2,
        pow_mod(g, 0x2299cd80d908, p) == 0x1cb1a4c4c4a63b3,
    ensures
        pow_mod(g, 0x45339b01b2134b6, p) == 0x8a673603642696c,
{
    let e: nat = 0x2299cd80d908;
    let e = lemma_chain_multiply(p, g, e, 0x1cb1a4c4c4a63b3, 0, 0x39634989894c766);
    let e = lemma_chain_square(p, g, e, 0x39634989894c766, 0x17cba1f473cf5c6, 0x4f5d307d270e156);
    let e = lemma_chain_multiply(p, g, e, 0x4f5d307d270e156, 1, 0x14532af6e9f593f);
    let e = lemma_chain_square(p, g, e, 0x14532af6e9f593f, 0x2fc195cd7479d7, 0x1f7469c1b5fcdf6);
    let e = lemma_chain_square(p, g, e, 0x1f7469c1b5fcdf6, 0x7261030c4b4170, 0x5ea7190cd861bb4);
    let e = lemma_chain_multiply(p, g, e, 0x5ea7190cd861bb4, 1, 0x32e6fc164c9cdfb);
    let e = lemma_chain_square(p, g, e, 0x32e6fc164c9cdfb, 0x12b891f28bd142e, 0x496be3c643d7e83);
    let e = lemma_chain_square(p, g, e, 0x496be3c643d7e83, 0x26f30642bb0e8d6, 0x7323788bf44deb);
    let e = lemma_chain_square(p, g, e, 0x7323788bf44deb, 0x5fc8d96964fa7, 0x2257dd749f5cc9e);
    let e = lemma_chain_multiply(p, g, e, 0x2257dd749f5cc9e, 0, 0x44afbae93eb993c);
    let e = lemma_chain_square(p, g, e, 0x44afbae93eb993c, 0x22166b10320dbc0, 0x5bba7e3a1417550);
    let e = lemma_chain_square(p, g, e, 0x5bba7e3a1417550, 0x3ccb53692fed63e, 0x4056f7ffc05929a);
    let e = lemma_chain_multiply(p, g, e, 0x4056f7ffc05929a, 0, 0x80adefff80b2534);
    let e = lemma_chain_square(p, g, e, 0x80adefff80b2534, 0x77a38d3b13ec1d3, 0x5637923484200b9);
    let e = lemma_chain_multiply(p, g, e, 0x5637923484200b9, 1, 0x2207ee65a419805);
    let e = lemma_chain_square(p, g, e, 0x2207ee65a419805, 0x85e1d90c7073ee, 0x4c8c4778e05f5c3);
    let e = lemma_chain_square(p, g, e, 0x4c8c4778e05f5c3, 0x2a564d431912a8e, 0x4c593bd47ad7613);
    let e = lemma_chain_multiply(p, g, e, 0x4c593bd47ad7613, 1, 0xe4b41a591882b9);
    let e = lemma_chain_square(p, g, e, 0xe4b41a591882b9, 0x179eb7abad1a04, 0x36e8595c208b1fd);
    let e = lemma_chain_multiply(p, g, e, 0x36e8595c208b1fd, 0, 0x6dd0b2b841163fa);
    let e = lemma_chain_square(p, g, e, 0x6dd0b2b841163fa, 0x5721dd58094c698, 0x8a673603642696c);
}

/// A power of the root 2 modulo 0x8a673603642696d.
proof fn lemma_power_623312455501769069_1()
    ensures
        pow_mod(2, 0x45339b01b2134b6, 0x8a673603642696d) == 0x8a673603642696c,
{
    let p = 0x8a673603642696d;
    let g = 2;
    lemma_chain_start(p, g);
    lemma_power_623312455501769069_1_part_1(p, g);
    lemma_power_623312455501769069_1_part_2(p, g);
}

/// A power of the root 2 modulo 0x8a673603642696d: the steps from the exponent
/// 0
/// to the exponent
/// 0x278b3400f80a.
proof fn lemma_power_623312455501769069_2_part_1(p: int, g: int)
    requires
        p == 0x8a673603642696d,
        g == 2,
        pow_mod(g, 0, p) == 1,
    ensures
        pow_mod(g, 0x278b3400f80a, p) == 0x2b6277df7faf63c,
{
    let e: nat = 0;
    let e = lemma_chain_square(p, g, e, 1, 0, 1);
    let e = lemma_chain_multiply(p, g, e, 1, 0, 2);
    let e = lemma_chain_square(p, g, e, 2, 0, 4);
    let e = lemma_chain_square(p, g, e, 4, 0, 0x10);
    let e = lemma_chain_square(p, g, e, 0x10, 0, 0x100);
    let e = lemma_chain_multiply(p, g, e, 0x100, 0, 0x200);
    let e = lemma_chain_square(p, g, e, 0x200, 0, 0x40000);
    let e = lemma_chain_multiply(p, g, e, 0x40000, 0, 0x80000);
    let e = lemma_chain_square(p, g, e, 0x80000, 0, 0x4000000000);
    let e = lemma_chain_multiply(p, g, e, 0x4000000000, 0, 0x8000000000);
    let e = lemma_chain_square(p, g, e, 0x8000000000, 0x7660f, 0x4a56bed7a1f649d);
    let e = lemma_chain_multiply(p, g, e, 0x4a56bed7a1f649d, 1, 0xa4647abdfc5fcd);
    let e = lemma_chain_square(p, g, e, 0xa4647abdfc5fcd, 0xc343190e52614, 0x4169380ba1a5fa5);
    let e = lemma_chain_square(p, g, e, 0x4169380ba1a5fa5, 0x1ee9fe376db4233, 0x7f0787bf897c5a2);
    let e = lemma_chain_square(p, g, e, 0x7f0787bf897c5a2, 0x749720790eb5d91, 0x8654f1caab56ac7);
    let e = lemma_chain_square(p, g, e, 0x8654f1caab56ac7, 0x82615684f2bf0e6, 0x30563a11b1f7ec3);
    let e = lemma_chain_multiply(p, g, e, 0x30563a11b1f7ec3, 0, 0x60ac742363efd86);
    let e = lemma_chain_square(p, g, e, 0x60ac742363efd86, 0x43869f49256bde6, 0x637b3b8f3dbf136);
    let e = lemma_chain_square(p, g, e, 0x637b3b8f3dbf136, 0x478153f8b214880, 0x85bda8484c258e4);
    let e = lemma_chain_multiply(p, g, e, 0x85bda8484c258e4, 1, 0x81141a8d342485b);
    let e = lemma_chain_square(p, g, e, 0x81141a8d342485b, 0x7861d2b2f26d217, 0x12aea3261be6d8e);
    let e = lemma_chain_multiply(p, g, e, 0x12aea3261be6d8e, 0, 0x255d464c37cdb1c);
    let e = lemma_chain_square(p, g, e, 0x255d464c37cdb1c, 0xa1650236e460a6, 0x851f298acfbae62);
    let e = lemma_chain_square(p, g, e, 0x851f298acfbae62, 0x800ab51e98fd7f9, 0x71b947274ef477f);
    let e = lemma_chain_square(p, g, e, 0x71b947274ef477f, 0x5d71ee1afce05d0, 0x3b42002f05ee771);
    let e = lemma_chain_multiply(p, g, e, 0x3b42002f05ee771, 0, 0x7684005e0bdcee2);
    let e = lemma_chain_square(p, g, e, 0x7684005e0bdcee2, 0x657c5cab1169b64, 0x18bd38fccc051f0);
    let e = lemma_chain_multiply(p, g, e, 0x18bd38fccc051f0, 0, 0x317a71f9980a3e0);
    let e = lemma_chain_square(p, g, e, 0x317a71f9980a3e0, 0x11b02d994b3e251, 0x879f6a6819a6e83);
    let e = lemma_chain_square(p, g, e, 0x879f6a6819a6e83, 0x84e5eb803e651f9, 0x2fb196e626ecf04);
    let e = lemma_chain_multiply(p, g, e, 0x2fb196e626ecf04, 0, 0x5f632dcc4dd9e08);
    let e = lemma_chain_square(p, g, e, 0x5f632dcc4dd9e08, 0x41bdb0a557accd5, 0x7d2e762fb274c8f);
    let e = lemma_chain_square(p, g, e, 0x7d2e762fb274c8f, 0x71390ed897a151f, 0x7e098903cd482ae);
    let e = lemma_chain_square(p, g, e, 0x7e098903cd482ae, 0x72c6b4104a07f5f, 0x4901ef695d2fbd1);
    let e = lemma_chain_square(p, g, e, 0x4901ef695d2fbd1, 0x2682ecfcf3f2518, 0x38e9d18a04ddd69);
    let e = lemma_chain_square(p, g, e, 0x38e9d18a04ddd69, 0x1767511d334bec9, 0x9e27b30b20c87c);
    let e = lemma_chain_square(p, g, e, 0x9e27b30b20c87c, 0xb4b9d0455d6ab, 0x7c0d7a9ec537241);
    let e = lemma_chain_square(p, g, e, 0x7c0d7a9ec537241, 0x6f30a9a9b912ce9, 0x78ad2c39ed6444c);
    let e = lemma_chain_square(p, g, e, 0x78ad2c39ed6444c, 0x69385e19e89b6af, 0x67155ab1199e70d);
    let e = lemma_chain_square(p, g, e, 0x67155ab1199e70d, 0x4cc6ee6adedf5f1, 0x80abe6ad1bee60c);
    let e = lemma_chain_square(p, g, e, 0x80abe6ad1bee60c, 0x779fc3de9ae661e, 0x4f8faf431a9c7ca);
    let e = lemma_chain_square(p, g, e, 0x4f8faf431a9c7ca, 0x2dbc64da75130de, 0x24a36f6c0c6cede);
    let e = lemma_chain_multiply(p, g, e, 0x24a36f6c0c6cede, 0, 0x4946ded818d9dbc);
    let e = lemma_chain_square(p, g, e, 0x4946ded818d9dbc, 0x26cbc9560149f71, 0x269f1114af8e5f3);
    let e = lemma_chain_multiply(p, g, e, 0x269f1114af8e5f3, 0, 0x4d3e22295f1cbe6);
    let e = lemma_chain_square(p, g, e, 0x4d3e22295f1cbe6, 0x2b1bee006de7a42, 0x5e142b9a78f728a);
    let e = lemma_chain_multiply(p, g, e, 0x5e142b9a78f728a, 1, 0x31c121318dc7ba7);
    let e = lemma_chain_square(p, g, e, 0x31c121318dc7ba7, 0x11e2db8ff779003, 0x46723fd80025aaa);
    let e = lemma_chain_multiply(p, g, e, 0x46723fd80025aaa, 1, 0x27d49ac9c24be7);
    let e = lemma_chain_square(p, g, e, 0x27d49ac9c24be7, 0xb76708531a31, 0x351bcf826daea94);
    let e = lemma_chain_multiply(p, g, e, 0x351bcf826daea94, 0, 0x6a379f04db5d528);
    let e = lemma_chain_square(p, g, e, 0x6a379f04db5d528, 0x5184298d1923cba, 0x1fc211811eb710e);
    let e = lemma_chain_square(p, g, e, 0x1fc211811eb710e, 0x74987dbe515021, 0x27854559ca2b5b7);
    let e = lemma_chain_square(p, g, e, 0x27854559ca2b5b7, 0xb48f4741fc57df, 0x20fdec83a9e67de);
    let e = lemma_chain_square(p, g, e, 0x20fdec83a9e67de, 0x7dd4c9b2c75735, 0x3b81166cdd85f3);
    let e = lemma_chain_square(p, g, e, 0x3b81166cdd85f3, 0x1995397dd98b1, 0x7c157e15307c84c);
    let e = lemma_chain_square(p, g, e, 0x7c157e15307c84c, 0x6f3f07a287f1235, 0x9c699c9ca258ff);
    let e = lemma_chain_square(p, g, e, 0x9c699c9ca258ff, 0xb0c3ee07faf91, 0x56b1e05baea1444);
    let e = lemma_chain_square(p, g, e, 0x56b1e05baea1444, 0x364e18f591a3499, 0x252ec5558bd8beb);
    let e = lemma_chain_multiply(p, g, e, 0x252ec5558bd8beb, 0, 0x4a5d8aab17b17d6);
    let e = lemma_chain_square(p, g, e, 0x4a5d8aab17b17d6, 0x27f50f6e6d5297b, 0x88533bb7b600a85);
    let e = lemma_chain_square(p, g, e, 0x88533bb7b600a85, 0x86473e2ccbecbbc, 0x5378a3c14e9ce0d);
    let e = lemma_chain_multiply(p, g, e, 0x5378a3c14e9ce0d, 1, 0x1c8a117f39132ad);
    let e = lemma_chain_square(p, g, e, 0x1c8a117f39132ad, 0x5e28af2e20c641, 0x2b6277df7faf63c);
}

/// A power of the root 2 modulo 0x8a673603642696d: the steps from the exponent
/// 0x278b3400f80a
/// to the exponent
/// 0x13c59a007c05834.
proof fn lemma_power_623312455501769069_2_part_2(p: int, g: int)
    requires
        p == 0x8a673603642696d,
        g == 2,
        pow_mod(g, 0x278b3400f80a, p) == 0x2b6277df7faf63c,
    ensures
        pow_mod(g, 0x13c59a007c05834, p) == 0x18355c2aacd2c3,
{
    let e: nat = 0x278b3400f80a;
    let e = lemma_chain_multiply(p, g, e, 0x2b6277df7faf63c, 0, 0x56c4efbeff5ec78);
    let e = lemma_chain_square(p, g, e, 0x56c4efbeff5ec78, 0x3665fc6ab5a1fa6, 0x1a00b0e6ef6e892);
    let e = lemma_chain_square(p, g, e, 0x1a00b0e6ef6e892, 0x4e2a2b996d8a73, 0x69105e90ecdd54d);
    let e = lemma_chain_square(p, g, e, 0x69105e90ecdd54d, 0x4fc17117266cd3d, 0x35deaf8135dd130);
    let e = lemma_chain_square(p, g, e, 0x35deaf8135dd130, 0x14f7ab3b43fe531, 0x25240cb66f7ba23);
    let e = lemma_chain_square(p, g, e, 0x25240cb66f7ba23, 0x9f781f9d621a72, 0x1ad88ec7ddedc3f);
    let e = lemma_chain_square(p, g, e, 0x1ad88ec7ddedc3f, 0x53510399f061e4, 0xe1ea74c878256d);
    let e = lemma_chain_multiply(p, g, e, 0xe1ea74c878256d, 0, 0x1c3d4e990f04ada);
    let e = lemma_chain_square(p, g, e, 0x1c3d4e990f04ada, 0x5c30d527668ea0, 0x6b9282452386784);
    let e = lemma_chain_multiply(p, g, e, 0x6b9282452386784, 1, 0x4cbdce86e2e659b);
    let e = lemma_chain_square(p, g, e, 0x4cbdce86e2e659b, 0x2a8d2809b938b3d, 0x7583ecf5a5f5de0);
    let e = lemma_chain_square(p, g, e, 0x7583ecf5a5f5de0, 0x63c7a753c10f015, 0x6e8c2587593ae0f);
    let e = lemma_chain_multiply(p, g, e, 0x6e8c2587593ae0f, 1, 0x52b1150b4e4f2b1);
    let e = lemma_chain_square(p, g, e, 0x52b1150b4e4f2b1, 0x3167e3b6196350a, 0x5b99eb128116f1f);
    let e = lemma_chain_square(p, g, e, 0x5b99eb128116f1f, 0x3ca02d501166e36, 0x18355c2aacd2c3);
}

/// A power of the root 2 modulo 0x8a673603642696d.
proof fn lemma_power_623312455501769069_2()
    ensures
        pow_mod(2, 0x13c59a007c05834, 0x8a673603642696d) == 0x18355c2aacd2c3,
{
    let p = 0x8a673603642696d;
    let g = 2;
    lemma_chain_start(p, g);
    lemma_power_623312455501769069_2_part_1(p, g);
    lemma_power_623312455501769069_2_part_2(p, g);
}

/// A power of the root 2 modulo 0x8a673603642696d: the steps from the exponent
/// 0
/// to the exponent
/// 0x34110212f4f4.
proof fn lemma_power_623312455501769069_3_part_1(p: int, g: int)
    requires
        p == 0x8a673603642696d,
        g == 2,
        pow_mod(g, 0, p) == 1,
    ensures
        pow_mod(g, 0x34110212f4f4, p) == 0x655e628b5ac4626,
{
    let e: nat = 0;
    let e = lemma_chain_square(p, g, e, 1, 0, 1);
    let e = lemma_chain_multiply(p, g, e, 1, 0, 2);
    let e = lemma_chain_square(p, g, e, 2, 0, 4);
    let e = lemma_chain_multiply(p, g, e, 4, 0, 8);
    let e = lemma_chain_square(p, g, e, 8, 0, 0x40);
    let e = lemma_chain_square(p, g, e, 0x40, 0, 0x1000);
    let e = lemma_chain_multiply(p, g, e, 0x1000, 0, 0x2000);
    let e = lemma_chain_square(p, g, e, 0x2000, 0, 0x4000000);
    let e = lemma_chain_square(p, g, e, 0x4000000, 0, 0x10000000000000);
    let e = lemma_chain_square(p, g, e, 0x10000000000000, 0x1d983e26024a, 0x82fd0a7bfccac7e);
    let e = lemma_chain_square(p, g, e, 0x82fd0a7bfccac7e, 0x7bf88ff43bba74c, 0x7a7e5c868ed26a8);
    let e = lemma_chain_square(p, g, e, 0x7a7e5c868ed26a8, 0x6c69b088b9bcf80, 0x74d1c2407374c0);
    let e = lemma_chain_square(p, g, e, 0x74d1c2407374c0, 0x6299fe6b9bafb, 0x6da8a4788430021);
    let e = lemma_chain_multiply(p, g, e, 0x6da8a4788430021, 1, 0x50ea12eda4396d5);
    let e = lemma_chain_square(p, g, e, 0x50ea12eda4396d5, 0x2f4e0675b4911fd, 0x4a7045238a4df80);
    let e = lemma_chain_square(p, g, e, 0x4a7045238a4df80, 0x28093232eb5fbe9, 0x8a115657f3f6ccb);
    let e = lemma_chain_square(p, g, e, 0x8a115657f3f6ccb, 0x89bbabf483e2423, 0x5cb29fe31d82b12);
    let e = lemma_chain_square(p, g, e, 0x5cb29fe31d82b12, 0x3e15f7de3707757, 0x540360f835b8e39);
    let e = lemma_chain_multiply(p, g, e, 0x540360f835b8e39, 1, 0x1d9f8bed074b305);
    let e = lemma_chain_square(p, g, e, 0x1d9f8bed074b305, 0x65726767ccf31f, 0x8730d2d5fbec2e6);
    let e = lemma_chain_square(p, g, e, 0x8730d2d5fbec2e6, 0x840d86426cecf57, 0x1d4566b6e426f99);
    let e = lemma_chain_square(p, g, e, 0x1d4566b6e426f99, 0x630ca7aab78486, 0x591791dd37fa663);
    let e = lemma_chain_square(p, g, e, 0x591791dd37fa663, 0x39598dd681fd89a, 0x18c16bafb4426b7);
    let e = lemma_chain_square(p, g, e, 0x18c16bafb4426b7, 0x46d8bb9b575777, 0x60f76cbd354ca26);
    let e = lemma_chain_square(p, g, e, 0x60f76cbd354ca26, 0x43ef83b12e0d7cb, 0x7032d1235fbd935);
    let e = lemma_chain_square(p, g, e, 0x7032d1235fbd935, 0x5af48fc2313c062, 0x30e8efd49a3c93f);
    let e = lemma_chain_multiply(p, g, e, 0x30e8efd49a3c93f, 0, 0x61d1dfa9347927e);
    let e = lemma_chain_square(p, g, e, 0x61d1dfa9347927e, 0x4522f4af3596baf, 0x6d47739525c5581);
    let e = lemma_chain_square(p, g, e, 0x6d47739525c5581, 0x564899e23b5840b, 0x4b0e0c530ff2f52);
    let e = lemma_chain_square(p, g, e, 0x4b0e0c530ff2f52, 0x28b39def64d89fa, 0x8100685130becd2);
    let e = lemma_chain_square(p, g, e, 0x8100685130becd2, 0x783d187442ade0e, 0x4efd137922f924e);
    let e = lemma_chain_square(p, g, e, 0x4efd137922f924e, 0x2d1471be676c160, 0x3b7b16c13a059e4);
    let e = lemma_chain_multiply(p, g, e, 0x3b7b16c13a059e4, 0, 0x76f62d82740b3c8);
    let e = lemma_chain_square(p, g, e, 0x76f62d82740b3c8, 0x6640451be672379, 0x69e6a48479890bb);
    let e = lemma_chain_square(p, g, e, 0x69e6a48479890bb, 0x51080dc1a888947, 0x46518023f24565e);
    let e = lemma_chain_square(p, g, e, 0x46518023f24565e, 0x23ba013394ceb17, 0x40e59674378c2b9);
    let e = lemma_chain_multiply(p, g, e, 0x40e59674378c2b9, 0, 0x81cb2ce86f18572);
    let e = lemma_chain_square(p, g, e, 0x81cb2ce86f18572, 0x79b83e8379b3600, 0x6f64af19bf7a8c4);
    let e = lemma_chain_square(p, g, e, 0x6f64af19bf7a8c4, 0x59a78d328e68ce1, 0x489c4c5af859143);
    let e = lemma_chain_multiply(p, g, e, 0x489c4c5af859143, 1, 0x6d162b28c8b919);
    let e = lemma_chain_square(p, g, e, 0x6d162b28c8b919, 0x55fad84ff0dfb, 0x206d35cc2da3d92);
    let e = lemma_chain_multiply(p, g, e, 0x206d35cc2da3d92, 0, 0x40da6b985b47b24);
    let e = lemma_chain_square(p, g, e, 0x40da6b985b47b24, 0x1e6397824a0856e, 0x3473143c46caf3a);
    let e = lemma_chain_multiply(p, g, e, 0x3473143c46caf3a, 0, 0x68e628788d95e74);
    let e = lemma_chain_square(p, g, e, 0x68e628788d95e74, 0x4f8167d2afcc63f, 0x8625bb225324bd);
    let e = lemma_chain_multiply(p, g, e, 0x8625bb225324bd, 0, 0x10c4b7644a6497a);
    let e = lemma_chain_square(p, g, e, 0x10c4b7644a6497a, 0x2081701a11c0ec, 0x183105248c6dda8);
    let e = lemma_chain_square(p, g, e, 0x183105248c6dda8, 0x43a7a4e530ebfd, 0x1e5e54f43f23e87);
    let e = lemma_chain_multiply(p, g, e, 0x1e5e54f43f23e87, 0, 0x3cbca9e87e47d0e);
    let e = lemma_chain_square(p, g, e, 0x3cbca9e87e47d0e, 0x1aa763a3a9268a8, 0x77051785973353c);
    let e = lemma_chain_square(p, g, e, 0x77051785973353c, 0x6659ea1b1b0598d, 0x3296427c5cef007);
    let e = lemma_chain_square(p, g, e, 0x3296427c5cef007, 0x127d6021be9bb29, 0x72da85e4b769ebc);
    let e = lemma_chain_multiply(p, g, e, 0x72da85e4b769ebc, 1, 0x5b4dd5c60aad40b);
    let e = lemma_chain_square(p, g, e, 0x5b4dd5c60aad40b, 0x3c3ba149df09948, 0x6ccfc02eb5e6cd1);
    let e = lemma_chain_multiply(p, g, e, 0x6ccfc02eb5e6cd1, 1, 0x4f384a5a07a7035);
    let e = lemma_chain_square(p, g, e, 0x4f384a5a07a7035, 0x2d5821d606d56a6, 0x701235d21ce704b);
    let e = lemma_chain_multiply(p, g, e, 0x701235d21ce704b, 1, 0x55bd35a0d5a7729);
    let e = lemma_chain_square(p, g, e, 0x55bd35a0d5a7729, 0x351d45840e3ebbd, 0x294f65868d54018);
    let e = lemma_chain_multiply(p, g, e, 0x294f65868d54018, 0, 0x529ecb0d1aa8030);
    let e = lemma_chain_square(p, g, e, 0x529ecb0d1aa8030, 0x31520b6da61219e, 0x3474c0e0f0eeaba);
    let e = lemma_chain_square(p, g, e, 0x3474c0e0f0eeaba, 0x13e19edadb05f43, 0x4b08897531f849d);
    let e = lemma_chain_multiply(p, g, e, 0x4b08897531f849d, 1, 0xba9dce6ffc9fcd);
    let e = lemma_chain_square(p, g, e, 0xba9dce6ffc9fcd, 0xfb9ffdc38a07f, 0x75d93729ca9dd16);
    let e = lemma_chain_square(p, g, e, 0x75d93729ca9dd16, 0x6458b1d95c26df6, 0x655e628b5ac4626);
}

/// A power of the root 2 modulo 0x8a673603642696d: the steps from the exponent
/// 0x34110212f4f4
/// to the exponent
/// 0x1a0881097a7ac.
proof fn lemma_power_623312455501769069_3_part_2(p: int, g: int)
    requires
        p == 0x8a673603642696d,
        g == 2,
        pow_mod(g, 0x34110212f4f4, p) == 0x655e628b5ac4626,
    ensures
        pow_mod(g, 0x1a0881097a7ac, p) == 0x38c0afaa7ffebcb,
{
    let e: nat = 0x34110212f4f4;
    let e = lemma_chain_multiply(p, g, e, 0x655e628b5ac4626, 1, 0x40558f1351622df);
    let e = lemma_chain_square(p, g, e, 0x40558f1351622df, 0x1de793c176d7ecc, 0x2f8c8cbddb5565);
    let e = lemma_chain_multiply(p, g, e, 0x2f8c8cbddb5565, 0, 0x5f19197bb6aaca);
    let e = lemma_chain_square(p, g, e, 0x5f19197bb6aaca, 0x4157bbe5b8cd5, 0x56c10f68e8093b3);
    let e = lemma_chain_square(p, g, e, 0x56c10f68e8093b3, 0x366120459f1e416, 0x38c0afaa7ffebcb);
}

/// A power of the root 2 modulo 0x8a673603642696d.
proof fn lemma_power_623312455501769069_3()
    ensures
        pow_mod(2, 0x1a0881097a7ac, 0x8a673603642696d) == 0x38c0afaa7ffebcb,
{
    let p = 0x8a673603642696d;
    let g = 2;
    lemma_chain_start(p, g);
    lemma_power_623312455501769069_3_part_1(p, g);
    lemma_power_623312455501769069_3_part_2(p, g);
}

/// A power of the root 2 modulo 0x8a673603642696d.
proof fn lemma_power_623312455501769069_4()
    ensures
        pow_mod(2, 0x94dc, 0x8a673603642696d) == 0x6df66d8b235933c,
{
    let p = 0x8a673603642696d;
    let g = 2;
    lemma_chain_start(p, g);
    let e: nat = 0;
    let e = lemma_chain_square(p, g, e, 1, 0, 1);
    let e = lemma_chain_multiply(p, g, e, 1, 0, 2);
    let e = lemma_chain_square(p, g, e, 2, 0, 4);
    let e = lemma_chain_square(p, g, e, 4, 0, 0x10);
    let e = lemma_chain_square(p, g, e, 0x10, 0, 0x100);
    let e = lemma_chain_multiply(p, g, e, 0x100, 0, 0x200);
    let e = lemma_chain_square(p, g, e, 0x200, 0, 0x40000);
    let e = lemma_chain_square(p, g, e, 0x40000, 0, 0x1000000000);
    let e = lemma_chain_multiply(p, g, e, 0x1000000000, 0, 0x2000000000);
    let e = lemma_chain_square(p, g, e, 0x2000000000, 0x7660, 0x86662e90a803920);
    let e = lemma_chain_square(p, g, e, 0x86662e90a803920, 0x8282ce985d0d486, 0x87168b3fd1dd0f2);
    let e = lemma_chain_square(p, g, e, 0x87168b3fd1dd0f2, 0x83da3461be371d4, 0x44e68731b2eb980);
    let e = lemma_chain_multiply(p, g, e, 0x44e68731b2eb980, 0, 0x89cd0e6365d7300);
    let e = lemma_chain_square(p, g, e, 0x89cd0e6365d7300, 0x893392765efbc36, 0x31604491c77b702);
    let e = lemma_chain_multiply(p, g, e, 0x31604491c77b702, 0, 0x62c089238ef6e04);
    let e = lemma_chain_square(p, g, e, 0x62c089238ef6e04, 0x4675ec8079f1028, 0x51a6aea44152708);
    let e = lemma_chain_square(p, g, e, 0x51a6aea44152708, 0x302b8f7ec463ec1, 0x742d0ea5fdb8f13);
    let e = lemma_chain_multiply(p, g, e, 0x742d0ea5fdb8f13, 1, 0x5df2e748974b4b9);
    let e = lemma_chain_square(p, g, e, 0x5df2e748974b4b9, 0x3fc5e324d3b4849, 0x76f544a0d86f59c);
    let e = lemma_chain_multiply(p, g, e, 0x76f544a0d86f59c, 1, 0x6383533e4cb81cb);
    let e = lemma_chain_square(p, g, e, 0x6383533e4cb81cb, 0x478cf69ce6b8f71, 0x1bebac6defccadc);
    let e = lemma_chain_multiply(p, g, e, 0x1bebac6defccadc, 0, 0x37d758dbdf995b8);
    let e = lemma_chain_square(p, g, e, 0x37d758dbdf995b8, 0x1687b5c08ee1d14, 0x36ee63719081ebc);
    let e = lemma_chain_square(p, g, e, 0x36ee63719081ebc, 0x15cd4254c2451a4, 0x6df66d8b235933c);
}

/// A power of a power of the root 2 modulo 0x8a673603642696d.
proof fn lemma_power_623312455501769069_5()
    ensures
        pow_mod(0x8a673603642696c, 2, 0x8a673603642696d) == 1,
{
    let p = 0x8a673603642696d;
    let g = 0x8a673603642696c;
    lemma_chain_start(p, g);
    let e: nat = 0;
    let e = lemma_chain_square(p, g, e, 1, 0, 1);
    let e = lemma_chain_multiply(p, g, e, 1, 0, 0x8a673603642696c);
    let e = lemma_chain_square(p, g, e, 0x8a673603642696c, 0x8a673603642696b, 1);
}

/// 2 is a primitive root modulo 0x8a673603642696d.
pub proof fn lemma_root_623312455501769069()
    ensures
        is_primitive_root(2, 0x8a673603642696d),
{
    let p = 0x8a673603642696d;
    let g = 2;
    lemma_power_623312455501769069_1();
    lemma_power_623312455501769069_2();
    lemma_power_623312455501769069_3();
    lemma_power_623312455501769069_4();
    lemma_power_623312455501769069_5();
    lemma_chain_rebase(p, g, 0x45339b01b2134b6, 0x8a673603642696c, 2, 1);
    lemma_two_is_prime();
    lemma_prime_7();
    lemma_prime_1361();
    lemma_prime_16356472538621();
    assert forall|m: int| m >= 2 && #[trigger] (0x8a673603642696cint % m) == 0 implies exists|f: int| #[trigger]
        refutes(2, 0x8a673603642696c, 0x8a673603642696d, m, f) by {
        lemma_euclid(m, 2, 0x45339b01b2134b6);
        if m % 2 == 0 {
            assert(refutes(2, 0x8a673603642696c, 0x8a673603642696d, m, 2));
        } else {
            lemma_euclid(m, 2, 0x2299cd80d909a5b);
            lemma_euclid(m, 7, 0x4f166801f0160d);
            if m % 7 == 0 {
                assert(refutes(2, 0x8a673603642696c, 0x8a673603642696d, m, 7));
            } else {
                lemma_euclid(m, 0x551, 0xee049bc45fd);
                if m % 0x551 == 0 {
                    assert(refutes(2, 0x8a673603642696c, 0x8a673603642696d, m, 0x551));
                } else {
                    lemma_euclid(m, 0xee049bc45fd, 1);
                    if m % 0xee049bc45fd == 0 {
                        assert(refutes(2, 0x8a673603642696c, 0x8a673603642696d, m, 0xee049bc45fd));
                    } else {
                        lemma_small_mod(1, m as nat);
                    }
                }
            }
        }
    }
    lemma_lucas(0x8a673603642696d, 0x8a673603642696c, 2);
}

/// 0x8a673603642696d is prime.
pub proof fn lemma_prime_623312455501769069()
    ensures
        is_prime(0x8a673603642696d),
{
    lemma_root_623312455501769069();
    lemma_root_gives_prime(2, 0x8a673603642696d);
}

/// A power of the root 2 modulo 0x3383051b79bb31af491829695.
proof fn lemma_power_255074062430788457494141376149_1()
    ensures
        pow_mod(2, 2, 0x3383051b79bb31af491829695int) == 4,
{
    let p = 0x3383051b79bb31af491829695int;
    let g = 2;
    lemma_chain_start(p, g);
    let e: nat = 0;
    let e = lemma_chain_square(p, g, e, 1, 0, 1);
    let e = lemma_chain_multiply(p, g, e, 1, 0, 2);
    let e = lemma_chain_square(p, g, e, 2, 0, 4);
}

/// A power of a power of the root 2 modulo 0x3383051b79bb31af491829695: the steps from the exponent
/// 0
/// to the exponent
/// 0x117d49d5cea.
proof fn lemma_power_255074062430788457494141376149_2_part_1(p: int, g: int)
    requires
        p == 0x3383051b79bb31af491829695int,
        g == 4,
        pow_mod(g, 0, p) == 1,
    ensures
        pow_mod(g, 0x117d49d5cea, p) == 0x2f273689b3662eae727b910bdint,
{
    let e: nat = 0;
    let e = lemma_chain_square(p, g, e, 1, 0, 1);
    let e = lemma_chain_multiply(p, g, e, 1, 0, 4);
    let e = lemma_chain_square(p, g, e, 4, 0, 0x10);
    let e = lemma_chain_square(p, g, e, 0x10, 0, 0x100);
    let e = lemma_chain_square(p, g, e, 0x100, 0, 0x10000);
    let e = lemma_chain_square(p, g, e, 0x10000, 0, 0x100000000);
    let e = lemma_chain_multiply(p, g, e, 0x100000000, 0, 0x400000000);
    let e = lemma_chain_square(p, g, e, 0x400000000, 0, 0x100000000000000000int);
    let e = lemma_chain_square(p, g, e, 0x100000000000000000int, 0x4f840946f9, 0x28aa62b2ba07efd1da391cb13int);
    let e = lemma_chain_multiply(p, g, e, 0x28aa62b2ba07efd1da391cb13int, 3, 0x8207b787aee2a398d9bf688dint);
    let e = lemma_chain_square(p, g, e, 0x8207b787aee2a398d9bf688dint, 0x1483b7bb3063308cd2140aa1int, 0xb2b20013702a7b179c7257f4int);
    let e = lemma_chain_multiply(p, g, e, 0xb2b20013702a7b179c7257f4int, 0, 0x2cac8004dc0a9ec5e71c95fd0int);
    let e = lemma_chain_square(p, g, e, 0x2cac8004dc0a9ec5e71c95fd0int, 0x26be5aa90c1d3ee95615ac0c5int, 0x2f36bea83b6c548b6e8ac6857int);
    let e = lemma_chain_multiply(p, g, e, 0x2f36bea83b6c548b6e8ac6857int, 3, 0x2251eb4e807fbd1fdee29dd9dint);
    let e = lemma_chain_square(p, g, e, 0x2251eb4e807fbd1fdee29dd9dint, 0x16dda9d268b198336a4d3e01dint, 0x14f67b4ecc0379aac57c60368int);
    let e = lemma_chain_multiply(p, g, e, 0x14f67b4ecc0379aac57c60368int, 1, 0x2056e81fb652b4fbccd95770bint);
    let e = lemma_chain_square(p, g, e, 0x2056e81fb652b4fbccd95770bint, 0x144d8ec38fe52a4d1361fe60fint, 0x30a5e0d1c19f67ccae42d89beint);
    let e = lemma_chain_multiply(p, g, e, 0x30a5e0d1c19f67ccae42d89beint, 3, 0x280e73f4994c0a24ddc2e6339int);
    let e = lemma_chain_square(p, g, e, 0x280e73f4994c0a24ddc2e6339int, 0x1f2609ddd1197311402fcd482int, 0x523d2ddabb49d42c59414707int);
    let e = lemma_chain_square(p, g, e, 0x523d2ddabb49d42c59414707int, 0x834b901c99833b9e845a904int, 0x22bdf04fe82f88537e9a72addint);
    let e = lemma_chain_multiply(p, g, e, 0x22bdf04fe82f88537e9a72addint, 2, 0x23f1b708ad47bdef683977e4aint);
    let e = lemma_chain_square(p, g, e, 0x23f1b708ad47bdef683977e4aint, 0x1914d36a81a780485295cda13int, 0x1d033239c8b736a98fa20de55int);
    let e = lemma_chain_square(p, g, e, 0x1d033239c8b736a98fa20de55int, 0x105725a397f4d2d7372b4262fint, 0xc36c9dc1b1511217063fc4deint);
    let e = lemma_chain_multiply(p, g, e, 0xc36c9dc1b1511217063fc4deint, 0, 0x30db27706c544485c18ff1378int);
    let e = lemma_chain_square(p, g, e, 0x30db27706c544485c18ff1378int, 0x2e5656d0b1cb3a9bb12315730int, 0x236cd11e1fbb5c053545d2950int);
    let e = lemma_chain_square(p, g, e, 0x236cd11e1fbb5c053545d2950int, 0x185cb244c32ff276f841b7d82int, 0x4d255a0e4c63479f2d3c8056int);
    let e = lemma_chain_square(p, g, e, 0x4d255a0e4c63479f2d3c8056int, 0x7389558c0a16d030224337cint, 0x85b41028bd7fa81ce717db8int);
    let e = lemma_chain_multiply(p, g, e, 0x85b41028bd7fa81ce717db8int, 0, 0x216d040a2f5fea0739c5f6e0int);
    let e = lemma_chain_square(p, g, e, 0x216d040a2f5fea0739c5f6e0int, 0x15b09ee1cf94df7ed90dc38int, 0x10dda647a9997d519f00a4768int);
    let e = lemma_chain_square(p, g, e, 0x10dda647a9997d519f00a4768int, 0x585ab93ecbd22749f81ee732int, 0x290148ab13e4322e06932fe26int);
    let e = lemma_chain_square(p, g, e, 0x290148ab13e4322e06932fe26int, 0x20a42b493826d2ad9c8d916c6int, 0x181692fecf83167d69ee92866int);
    let e = lemma_chain_multiply(p, g, e, 0x181692fecf83167d69ee92866int, 1, 0x2cd746dfc45128465ea220b03int);
    let e = lemma_chain_square(p, g, e, 0x2cd746dfc45128465ea220b03int, 0x2708b089453e419437d8d5cfbint, 0xbca1de614f23d87e1f0d11f2int);
    let e = lemma_chain_multiply(p, g, e, 0xbca1de614f23d87e1f0d11f2int, 0, 0x2f28779853c8f61f87c3447c8int);
    let e = lemma_chain_square(p, g, e, 0x2f28779853c8f61f87c3447c8int, 0x2b2c1d7d2f4a23a3532c0343aint, 0x8d35655fc90bf88c75742a7eint);
    let e = lemma_chain_multiply(p, g, e, 0x8d35655fc90bf88c75742a7eint, 0, 0x234d5957f242fe231d5d0a9f8int);
    let e = lemma_chain_square(p, g, e, 0x234d5957f242fe231d5d0a9f8int, 0x18317d743a9f52356c2524094int, 0x7b34d6628ad951768fb121cint);
    let e = lemma_chain_square(p, g, e, 0x7b34d6628ad951768fb121cint, 0x126afab63069cc0661e982int, 0x1b5d36a96d0c3379af85cde66int);
    let e = lemma_chain_multiply(p, g, e, 0x1b5d36a96d0c3379af85cde66int, 2, 0x66ed06ec0ba6a882be6e4c6eint);
    let e = lemma_chain_square(p, g, e, 0x66ed06ec0ba6a882be6e4c6eint, 0xcda813678fb8fefba279c18int, 0x2e67679837b547cafa2a5954cint);
    let e = lemma_chain_square(p, g, e, 0x2e67679837b547cafa2a5954cint, 0x29cd739978ec49e54af59fc34int, 0x1065c94446af346d1ab7b4c4cint);
    let e = lemma_chain_multiply(p, g, e, 0x1065c94446af346d1ab7b4c4cint, 1, 0xe141ff5a101a00521c6a9a9bint);
    let e = lemma_chain_square(p, g, e, 0xe141ff5a101a00521c6a9a9bint, 0x3d909baf2f7a7682e2865a40int, 0xa4a2361ce2793841a826d299int);
    let e = lemma_chain_square(p, g, e, 0xa4a2361ce2793841a826d299int, 0x20e2ce02599a688e171a0a12int, 0x1a55c4f63921d7abff78f6f7int);
    let e = lemma_chain_multiply(p, g, e, 0x1a55c4f63921d7abff78f6f7int, 0, 0x695713d8e4875eaffde3dbdcint);
    let e = lemma_chain_square(p, g, e, 0x695713d8e4875eaffde3dbdcint, 0xd76ae665f12fd5fab84d557int, 0x16d1ce8570e7647c3367aff6dint);
    let e = lemma_chain_multiply(p, g, e, 0x16d1ce8570e7647c3367aff6dint, 1, 0x27c434fa49e2604184869671fint);
    let e = lemma_chain_square(p, g, e, 0x27c434fa49e2604184869671fint, 0x1eb2fc9381b3bc6c6c985cdd7int, 0x1c9ae357ea68c70fa314d2d9eint);
    let e = lemma_chain_multiply(p, g, e, 0x1c9ae357ea68c70fa314d2d9eint, 2, 0xb658328b62cb8dffa22f894eint);
    let e = lemma_chain_square(p, g, e, 0xb658328b62cb8dffa22f894eint, 0x2857956c36db2f65f41ce921int, 0x1414094f093b6707053198d8fint);
    let e = lemma_chain_square(p, g, e, 0x1414094f093b6707053198d8fint, 0x7d37bb759ab91ea8979b7257int, 0x2a92493592fba16e3048e4f3eint);
    let e = lemma_chain_square(p, g, e, 0x2a92493592fba16e3048e4f3eint, 0x232ec8a4a7d17047ce68cbfe5int, 0x2fa074475455f315321a974bbint);
    let e = lemma_chain_multiply(p, g, e, 0x2fa074475455f315321a974bbint, 3, 0x23f8c1cae4263746ed21e0f2dint);
    let e = lemma_chain_square(p, g, e, 0x23f8c1cae4263746ed21e0f2dint, 0x191ea841e6e6dab9f53d8632aint, 0xa46f9a94d65ffc27a711fa77int);
    let e = lemma_chain_multiply(p, g, e, 0xa46f9a94d65ffc27a711fa77int, 0, 0x291be6a53597ff09e9c47e9dcint);
    let e = lemma_chain_square(p, g, e, 0x291be6a53597ff09e9c47e9dcint, 0x20ce99522a1aa4a67a0fc299bint, 0x2b3498ffac779e4c94ecf2bd9int);
    let e = lemma_chain_multiply(p, g, e, 0x2b3498ffac779e4c94ecf2bd9int, 3, 0x124954ac44ace424786b4eba5int);
    let e = lemma_chain_square(p, g, e, 0x124954ac44ace424786b4eba5int, 0x67dd9c3f1170706da3d09612int, 0x214a6081489ded031fd7673dfint);
    let e = lemma_chain_square(p, g, e, 0x214a6081489ded031fd7673dfint, 0x1583c1f1a2091ce529bba6fbaint, 0x21ed9a13a155786a2d49818ffint);
    let e = lemma_chain_multiply(p, g, e, 0x21ed9a13a155786a2d49818ffint, 2, 0x20b05e1791df7e4a22f5b36d2int);
    let e = lemma_chain_square(p, g, e, 0x20b05e1791df7e4a22f5b36d2int, 0x14be7e2ca1a3f8e866099d7edint, 0x1c91a086da15a4e47df9fb953int);
    let e = lemma_chain_square(p, g, e, 0x1c91a086da15a4e47df9fb953int, 0xfd8323cc7522dd37ba921d49int, 0xe2b3b0c0fe0fcb71e8fd3f6cint);
    let e = lemma_chain_multiply(p, g, e, 0xe2b3b0c0fe0fcb71e8fd3f6cint, 1, 0x529e714c5c8c12d31272671bint);
    let e = lemma_chain_square(p, g, e, 0x529e714c5c8c12d31272671bint, 0x8482d8122ef3c5fad0a80acint, 0x2f273689b3662eae727b910bdint);
}

/// A power of a power of the root 2 modulo 0x3383051b79bb31af491829695: the steps from the exponent
/// 0x117d49d5cea
/// to the exponent
/// 0x22fa93ab9d68acaf737.
proof fn lemma_power_255074062430788457494141376149_2_part_2(p: int, g: int)
    requires
        p == 0x3383051b79bb31af491829695int,
        g == 4,
        pow_mod(g, 0x117d49d5cea, p) == 0x2f273689b3662eae727b910bdint,
    ensures
        pow_mod(g, 0x22fa93ab9d68acaf737nat, p) == 0xfd0bc977e9e1c39a7349beb4int,
{
    let e: nat = 0x117d49d5cea;
    let e = lemma_chain_multiply(p, g, e, 0x2f273689b3662eae727b910bdint, 3, 0x2213cad4606725abeea5c7f35int);
    let e = lemma_chain_square(p, g, e, 0x2213cad4606725abeea5c7f35int, 0x168b2bdfab497f1b6e04f9542int, 0xfa0c4067dc5a86e93403158fint);
    let e = lemma_chain_square(p, g, e, 0xfa0c4067dc5a86e93403158fint, 0x4bdc7650a776d68e20e52fb0int, 0x5767bc7ecb4232f54474e471int);
    let e = lemma_chain_multiply(p, g, e, 0x5767bc7ecb4232f54474e471int, 0, 0x15d9ef1fb2d08cbd511d391c4int);
    let e = lemma_chain_square(p, g, e, 0x15d9ef1fb2d08cbd511d391c4int, 0x944f269c83cbc8ec4db43cc7int, 0x95050f9de14719ad3a85a43dint);
    let e = lemma_chain_square(p, g, e, 0x95050f9de14719ad3a85a43dint, 0x1af1a6047ff490a36c1df952int, 0x329312150b85ef09229940dcfint);
    let e = lemma_chain_square(p, g, e, 0x329312150b85ef09229940dcfint, 0x31a77cc67bd1104cde9a68135int, 0x2c240864ea106b127168e6b88int);
    let e = lemma_chain_square(p, g, e, 0x2c240864ea106b127168e6b88int, 0x25d3100d5402e2eb05849d2b7int, 0x3a399d4821f00a858bae19bdint);
    let e = lemma_chain_multiply(p, g, e, 0x3a399d4821f00a858bae19bdint, 0, 0xe8e6752087c02a162eb866f4int);
    let e = lemma_chain_square(p, g, e, 0xe8e6752087c02a162eb866f4int, 0x41d02f22662d180ae617dad6int, 0x313351c1ec1367f919b5f9602int);
    let e = lemma_chain_square(p, g, e, 0x313351c1ec1367f919b5f9602int, 0x2efe2b185bcf389372a35d34cint, 0x161a6e73f764a9550a5a7d4c8int);
    let e = lemma_chain_multiply(p, g, e, 0x161a6e73f764a9550a5a7d4c8int, 1, 0x24e6b4b463d773a4e051cbc8bint);
    let e = lemma_chain_square(p, g, e, 0x24e6b4b463d773a4e051cbc8bint, 0x1a6f47980b5ee26f85b4b96d1int, 0xf9ec2099157fa93cd2c535d4int);
    let e = lemma_chain_square(p, g, e, 0xf9ec2099157fa93cd2c535d4int, 0x4bc8f9948f1c797fe0cde33aint, 0x1a833a653c27c64ebfb2c3aceint);
    let e = lemma_chain_multiply(p, g, e, 0x1a833a653c27c64ebfb2c3aceint, 2, 0x306df5dfd28b5dc6c9abbe0eint);
    let e = lemma_chain_square(p, g, e, 0x306df5dfd28b5dc6c9abbe0eint, 0x2d881d7b7d20dd16c3397b3int, 0x15e3e015b32189d4bcefc9b95int);
    let e = lemma_chain_multiply(p, g, e, 0x15e3e015b32189d4bcefc9b95int, 1, 0x240c7b3b52caf5a3aaa6fd7bfint);
    let e = lemma_chain_square(p, g, e, 0x240c7b3b52caf5a3aaa6fd7bfint, 0x193a3c0e84a7d0d3376742272int, 0x2aa6242fba6559c726bc98827int);
    let e = lemma_chain_square(p, g, e, 0x2aa6242fba6559c726bc98827int, 0x234fa1da103df9507e07fddd4int, 0x30eb899e0f475226f5f99218dint);
    let e = lemma_chain_square(p, g, e, 0x30eb899e0f475226f5f99218dint, 0x2e756fea430af7c7bd11e8d08int, 0x46977e16c8d9d3280174e201int);
    let e = lemma_chain_multiply(p, g, e, 0x46977e16c8d9d3280174e201int, 0, 0x11a5df85b23674ca005d38804int);
    let e = lemma_chain_square(p, g, e, 0x11a5df85b23674ca005d38804int, 0x60bd2c8576fbc875a5aba4cbint, 0x25af26d13bcaab290fd5063e9int);
    let e = lemma_chain_square(p, g, e, 0x25af26d13bcaab290fd5063e9int, 0x1b9182be18d2b25d90e9b7713int, 0x28378476394244d744fb69a02int);
    let e = lemma_chain_multiply(p, g, e, 0x28378476394244d744fb69a02int, 3, 0x655028677d77e4f38a52a449int);
    let e = lemma_chain_square(p, g, e, 0x655028677d77e4f38a52a449int, 0xc7431774a610f4301cddf83int, 0x2e4f31a2a06201c52fae1c392int);
    let e = lemma_chain_square(p, g, e, 0x2e4f31a2a06201c52fae1c392int, 0x29a1e03af20b4f4341032cfe3int, 0x20861f60dd77d1ae62c63be25int);
    let e = lemma_chain_multiply(p, g, e, 0x20861f60dd77d1ae62c63be25int, 2, 0x1b12734c8268e35af8e89cb6aint);
    let e = lemma_chain_square(p, g, e, 0x1b12734c8268e35af8e89cb6aint, 0xe3a4df5f079b7cec828b8b73int, 0x13f6c8ae9b541f0263ec1bbf5int);
    let e = lemma_chain_multiply(p, g, e, 0x13f6c8ae9b541f0263ec1bbf5int, 1, 0x1c581d9ef3954a5a46984593fint);
    let e = lemma_chain_square(p, g, e, 0x1c581d9ef3954a5a46984593fint, 0xf98a7904d192f59e756e8530int, 0x253416e4cae968900e8573891int);
    let e = lemma_chain_multiply(p, g, e, 0x253416e4cae968900e8573891int, 2, 0x2dca515c382f3ee1a7e57b51aint);
    let e = lemma_chain_square(p, g, e, 0x2dca515c382f3ee1a7e57b51aint, 0x28b44d6681892bc2b70a17096int, 0x1dac0c982798f6e9ae7af5b56int);
    let e = lemma_chain_multiply(p, g, e, 0x1dac0c982798f6e9ae7af5b56int, 2, 0xfaa2829aaed784827bb8402eint);
    let e = lemma_chain_square(p, g, e, 0xfaa2829aaed784827bb8402eint, 0x4c37bdf8774c5f59899272a0int, 0x872fa35ee38feb7ccf909124int);
    let e = lemma_chain_square(p, g, e, 0x872fa35ee38feb7ccf909124int, 0x162c74bd6517c9150fb4b741int, 0x271f998618377d540eb390e3bint);
    let e = lemma_chain_multiply(p, g, e, 0x271f998618377d540eb390e3bint, 3, 0x1f556c5f3ac60425f85c752dint);
    let e = lemma_chain_square(p, g, e, 0x1f556c5f3ac60425f85c752dint, 0x130f49077f8d84ae4b33b61int, 0x18685076cf21fabbb649bc474int);
    let e = lemma_chain_multiply(p, g, e, 0x18685076cf21fabbb649bc474int, 1, 0x2e1e3cbfc2ccb93f900ec7b3bint);
    let e = lemma_chain_square(p, g, e, 0x2e1e3cbfc2ccb93f900ec7b3bint, 0x294a0882648f83b6a1e122da5int, 0xe0003d949394be7da5fc8090int);
    let e = lemma_chain_multiply(p, g, e, 0xe0003d949394be7da5fc8090int, 1, 0x47d0a49ab29fdf02066f6babint);
    let e = lemma_chain_square(p, g, e, 0x47d0a49ab29fdf02066f6babint, 0x641ee49d75708900d0e62dbint, 0x22f11e6cddccb60b04a1088c2int);
    let e = lemma_chain_square(p, g, e, 0x22f11e6cddccb60b04a1088c2int, 0x17b3b87256303f222fdb78687int, 0x256f95d98a9c5f2c98d1c4c71int);
    let e = lemma_chain_square(p, g, e, 0x256f95d98a9c5f2c98d1c4c71int, 0x1b34cfbe52b279c79a18ddba1int, 0x43ea91211e8e726f6a881f2cint);
    let e = lemma_chain_multiply(p, g, e, 0x43ea91211e8e726f6a881f2cint, 0, 0x10faa44847a39c9bdaa207cb0int);
    let e = lemma_chain_square(p, g, e, 0x10faa44847a39c9bdaa207cb0int, 0x598b811bf46feb77612e5100int, 0x252f4b1b2ee0ddcc6534fd400int);
    let e = lemma_chain_multiply(p, g, e, 0x252f4b1b2ee0ddcc6534fd400int, 2, 0x2db72235c80d13d302a3a22d6int);
    let e = lemma_chain_square(p, g, e, 0x2db72235c80d13d302a3a22d6int, 0x28923938f00fe49d5c5b0cd6bint, 0x1ef925bad7fccc182721b499dint);
    let e = lemma_chain_square(p, g, e, 0x1ef925bad7fccc182721b499dint, 0x129fabe28fe0526ca0a5076f9int, 0x14e68200c5fbd58b5d64bc55cint);
    let e = lemma_chain_multiply(p, g, e, 0x14e68200c5fbd58b5d64bc55cint, 1, 0x201702e79e34247e2c7ac7edbint);
    let e = lemma_chain_square(p, g, e, 0x201702e79e34247e2c7ac7edbint, 0x13fda3a88f084c46a378ecdfdint, 0x3752cffa45e3676a44da2d18int);
    let e = lemma_chain_multiply(p, g, e, 0x3752cffa45e3676a44da2d18int, 0, 0xdd4b3fe9178d9da91368b460int);
    let e = lemma_chain_square(p, g, e, 0xdd4b3fe9178d9da91368b460int, 0x3b6acf5ea740f4bd80d1ed47int, 0x3f42f25dfa7870e69cd26fadint);
    let e = lemma_chain_multiply(p, g, e, 0x3f42f25dfa7870e69cd26fadint, 0, 0xfd0bc977e9e1c39a7349beb4int);
}

/// A power of a power of the root 2 modulo 0x3383051b79bb31af491829695.
proof fn lemma_power_255074062430788457494141376149_2()
    ensures
        pow_mod(4, 0x22fa93ab9d68acaf737nat, 0x3383051b79bb31af491829695int) == 0xfd0bc977e9e1c39a7349beb4int,
{
    let p = 0x3383051b79bb31af491829695int;
    let g = 4;
    lemma_chain_start(p, g);
    lemma_power_255074062430788457494141376149_2_part_1(p, g);
    lemma_power_255074062430788457494141376149_2_part_2(p, g);
}

/// A power of a power of the root 2 modulo 0x3383051b79bb31af491829695.
proof fn lemma_power_255074062430788457494141376149_3()
    ensures
        pow_mod(0xfd0bc977e9e1c39a7349beb4int, 0x137, 0x3383051b79bb31af491829695int) == 0xa6d06e22ba76ccab68701cddint,
{
    let p = 0x3383051b79bb31af491829695int;
    let g = 0xfd0bc977e9e1c39a7349beb4int;
    lemma_chain_start(p, g);
    let e: nat = 0;
    let e = lemma_chain_square(p, g, e, 1, 0, 1);
    let e = lemma_chain_multiply(p, g, e, 1, 0, 0xfd0bc977e9e1c39a7349beb4int);
    let e = lemma_chain_square(p, g, e, 0xfd0bc977e9e1c39a7349beb4int, 0x4db0f967e9a01e3b0b0724b5int, 0x2dac3c5200c57ca6145234337int);
    let e = lemma_chain_square(p, g, e, 0x2dac3c5200c57ca6145234337int, 0x287ee39ecf6f410b61ecec6b1int, 0xca5fdf01d0c3478db087accint);
    let e = lemma_chain_square(p, g, e, 0xca5fdf01d0c3478db087accint, 0x31b11af4f105617f2bb26dint, 0x29b05281b67c939f8525b1fint);
    let e = lemma_chain_multiply(p, g, e, 0x29b05281b67c939f8525b1fint, 0xccca9c681286ea5de46269int, 0x120f42231607a65e8b87746afint);
    let e = lemma_chain_square(p, g, e, 0x120f42231607a65e8b87746afint, 0x654e021bd31bcafe0992289cint, 0x2824ef26ba8a0aefe292120d5int);
    let e = lemma_chain_multiply(p, g, e, 0x2824ef26ba8a0aefe292120d5int, 0xc5344f7104ce20865f7f0c2fint, 0x248d8b73d7e67c72eb8728a69int);
    let e = lemma_chain_square(p, g, e, 0x248d8b73d7e67c72eb8728a69int, 0x19f0238bb1f9273c044541aebint, 0x4b80201bf91ef310ad4a024aint);
    let e = lemma_chain_square(p, g, e, 0x4b80201bf91ef310ad4a024aint, 0x6ea91a19010d3bf0fb7ee20int, 0x3dff302f1d95508c5ef8e4c4int);
    let e = lemma_chain_multiply(p, g, e, 0x3dff302f1d95508c5ef8e4c4int, 0x1308d7800e5f7343fa77590aint, 0x304d42d41547007f031f7a2feint);
    let e = lemma_chain_square(p, g, e, 0x304d42d41547007f031f7a2feint, 0x2d4ab5edd978114677612bc3fint, 0x23194db2996b5589b2fb7f959int);
    let e = lemma_chain_multiply(p, g, e, 0x23194db2996b5589b2fb7f959int, 0xac6b51057aa98a24ceb8b165int, 0x2ad9adc19d3b6a0765a11f2cbint);
    let e = lemma_chain_square(p, g, e, 0x2ad9adc19d3b6a0765a11f2cbint, 0x23a52c8b1fc641ae9958cd302int, 0xf26e7daa53f5a499099c70cfint);
    let e = lemma_chain_multiply(p, g, e, 0xf26e7daa53f5a499099c70cfint, 0x4a6eb2b52a382b8f38d9bb33int, 0xa6d06e22ba76ccab68701cddint);
}

/// A power of a power of the root 2 modulo 0x3383051b79bb31af491829695.
proof fn lemma_power_255074062430788457494141376149_4()
    ensures
        pow_mod(0xa6d06e22ba76ccab68701cddint, 0x4d95, 0x3383051b79bb31af491829695int) == 0x3383051b79bb31af491829694int,
{
    let p = 0x3383051b79bb31af491829695int;
    let g = 0xa6d06e22ba76ccab68701cddint;
    lemma_chain_start(p, g);
    let e: nat = 0;
    let e = lemma_chain_square(p, g, e, 1, 0, 1);
    let e = lemma_chain_multiply(p, g, e, 1, 0, 0xa6d06e22ba76ccab68701cddint);
    let e = lemma_chain_square(p, g, e, 0xa6d06e22ba76ccab68701cddint, 0x21c34aea9b4782660a2b9499int, 0x260b434682ae75b51417ff3bcint);
    let e = lemma_chain_square(p, g, e, 0x260b434682ae75b51417ff3bcint, 0x1c18ecb080850a29597ce2d30int, 0x277a312945d7b06a1e8bc0520int);
    let e = lemma_chain_square(p, g, e, 0x277a312945d7b06a1e8bc0520int, 0x1e411ffde3304775cefce7fceint, 0x3265aa8a65baade6e606b2d1aint);
    let e = lemma_chain_multiply(p, g, e, 0x3265aa8a65baade6e606b2d1aint, 0xa334597afb75d8daee381a13int, 0x1326d9ee472a5a309ba407863int);
    let e = lemma_chain_square(p, g, e, 0x1326d9ee472a5a309ba407863int, 0x71ed96f3c52b21397c2c9a54int, 0x2fb790f02f7f250caeb11eb65int);
    let e = lemma_chain_multiply(p, g, e, 0x2fb790f02f7f250caeb11eb65int, 0x9a86813ec9039b84257dfa16int, 0x25efe5d9defbd958d05fcf63int);
    let e = lemma_chain_square(p, g, e, 0x25efe5d9defbd958d05fcf63int, 0x1bf08f869d110264ddc5521int, 0x2469d1f6a5c693731c9a5e14int);
    let e = lemma_chain_square(p, g, e, 0x2469d1f6a5c693731c9a5e14int, 0x19bd88fe8c86511fd63c433int, 0x75cde30d2bace44a3db59de1int);
    let e = lemma_chain_multiply(p, g, e, 0x75cde30d2bace44a3db59de1int, 0x17d7e59fb08f6035892cc033int, 0x20cbabbd35611fdff10ee278eint);
    let e = lemma_chain_square(p, g, e, 0x20cbabbd35611fdff10ee278eint, 0x14e133c8b0e51a7074e872137int, 0x231b703a2e366f3446b1a03c1int);
    let e = lemma_chain_multiply(p, g, e, 0x231b703a2e366f3446b1a03c1int, 0x71b0a333b16b2425e39a4210int, 0x2a873ca4eafa2702fe2b0864dint);
    let e = lemma_chain_square(p, g, e, 0x2a873ca4eafa2702fe2b0864dint, 0x231c87bb790ccb6e03bd665f3int, 0x2852ffee467d757520868fabaint);
    let e = lemma_chain_square(p, g, e, 0x2852ffee467d757520868fabaint, 0x1f91004b856c06478e32ece17int, 0x1b7b28c6e86d3d1faf70261c1int);
    let e = lemma_chain_square(p, g, e, 0x1b7b28c6e86d3d1faf70261c1int, 0xea932175ee7aff75917a5dfeint, 0x1435e6011a998837822104aabint);
    let e = lemma_chain_multiply(p, g, e, 0x1435e6011a998837822104aabint, 0x4172fd672c7895c443d4d10aint, 0x27af91f25908de323549da2cdint);
    let e = lemma_chain_square(p, g, e, 0x27af91f25908de323549da2cdint, 0x1e9327fb6a4874073b75f69fdint, 0xacb0706fb8e3b489dcdd29e8int);
    let e = lemma_chain_square(p, g, e, 0xacb0706fb8e3b489dcdd29e8int, 0x242ed49de9f7816f9553060fint, 0x1b9a76084c3421b13ffeed185int);
    let e = lemma_chain_multiply(p, g, e, 0x1b9a76084c3421b13ffeed185int, 0x5963ce160fc9da478adbf200int, 0x190b9d15581f6c6ef2c7591d1int);
    let e = lemma_chain_square(p, g, e, 0x190b9d15581f6c6ef2c7591d1int, 0xc2d5e1c938f57e955bf85391int, 0x31ef57a7ccdec43e6daf6d33cint);
    let e = lemma_chain_square(p, g, e, 0x31ef57a7ccdec43e6daf6d33cint, 0x306805aa2615ad05636ab1f19int, 0x159426b8f1194a1ffcc183683int);
    let e = lemma_chain_multiply(p, g, e, 0x159426b8f1194a1ffcc183683int, 0x45e13ccd97e121f22e8a88b7int, 0x3383051b79bb31af491829694int);
}

/// A power of a power of the root 2 modulo 0x3383051b79bb31af491829695.
proof fn lemma_power_255074062430788457494141376149_5()
    ensures
        pow_mod(0xa6d06e22ba76ccab68701cddint, 2, 0x3383051b79bb31af491829695int) == 0x260b434682ae75b51417ff3bcint,
{
    let p = 0x3383051b79bb31af491829695int;
    let g = 0xa6d06e22ba76ccab68701cddint;
    lemma_chain_start(p, g);
    let e: nat = 0;
    let e = lemma_chain_square(p, g, e, 1, 0, 1);
    let e = lemma_chain_multiply(p, g, e, 1, 0, 0xa6d06e22ba76ccab68701cddint);
    let e = lemma_chain_square(p, g, e, 0xa6d06e22ba76ccab68701cddint, 0x21c34aea9b4782660a2b9499int, 0x260b434682ae75b51417ff3bcint);
}

/// A power of a power of the root 2 modulo 0x3383051b79bb31af491829695.
proof fn lemma_power_255074062430788457494141376149_6()
    ensures
        pow_mod(0xfd0bc977e9e1c39a7349beb4int, 0x9b2a, 0x3383051b79bb31af491829695int) == 0x2cb3b6a6b1c5f1e40347bef87int,
{
    let p = 0x3383051b79bb31af491829695int;
    let g = 0xfd0bc977e9e1c39a7349beb4int;
    lemma_chain_start(p, g);
    let e: nat = 0;
    let e = lemma_chain_square(p, g, e, 1, 0, 1);
    let e = lemma_chain_multiply(p, g, e, 1, 0, 0xfd0bc977e9e1c39a7349beb4int);
    let e = lemma_chain_square(p, g, e, 0xfd0bc977e9e1c39a7349beb4int, 0x4db0f967e9a01e3b0b0724b5int, 0x2dac3c5200c57ca6145234337int);
    let e = lemma_chain_square(p, g, e, 0x2dac3c5200c57ca6145234337int, 0x287ee39ecf6f410b61ecec6b1int, 0xca5fdf01d0c3478db087accint);
    let e = lemma_chain_square(p, g, e, 0xca5fdf01d0c3478db087accint, 0x31b11af4f105617f2bb26dint, 0x29b05281b67c939f8525b1fint);
    let e = lemma_chain_multiply(p, g, e, 0x29b05281b67c939f8525b1fint, 0xccca9c681286ea5de46269int, 0x120f42231607a65e8b87746afint);
    let e = lemma_chain_square(p, g, e, 0x120f42231607a65e8b87746afint, 0x654e021bd31bcafe0992289cint, 0x2824ef26ba8a0aefe292120d5int);
    let e = lemma_chain_multiply(p, g, e, 0x2824ef26ba8a0aefe292120d5int, 0xc5344f7104ce20865f7f0c2fint, 0x248d8b73d7e67c72eb8728a69int);
    let e = lemma_chain_square(p, g, e, 0x248d8b73d7e67c72eb8728a69int, 0x19f0238bb1f9273c044541aebint, 0x4b80201bf91ef310ad4a024aint);
    let e = lemma_chain_square(p, g, e, 0x4b80201bf91ef310ad4a024aint, 0x6ea91a19010d3bf0fb7ee20int, 0x3dff302f1d95508c5ef8e4c4int);
    let e = lemma_chain_multiply(p, g, e, 0x3dff302f1d95508c5ef8e4c4int, 0x1308d7800e5f7343fa77590aint, 0x304d42d41547007f031f7a2feint);
    let e = lemma_chain_square(p, g, e, 0x304d42d41547007f031f7a2feint, 0x2d4ab5edd978114677612bc3fint, 0x23194db2996b5589b2fb7f959int);
    let e = lemma_chain_multiply(p, g, e, 0x23194db2996b5589b2fb7f959int, 0xac6b51057aa98a24ceb8b165int, 0x2ad9adc19d3b6a0765a11f2cbint);
    let e = lemma_chain_square(p, g, e, 0x2ad9adc19d3b6a0765a11f2cbint, 0x23a52c8b1fc641ae9958cd302int, 0xf26e7daa53f5a499099c70cfint);
    let e = lemma_chain_square(p, g, e, 0xf26e7daa53f5a499099c70cfint, 0x474f6ac18b5e0a34ce9fcfa8int, 0x237acbe94aea91f42b9fd7a99int);
    let e = lemma_chain_square(p, g, e, 0x237acbe94aea91f42b9fd7a99int, 0x186ff0642c93e52026f49eb7bint, 0x1d22eb9f94b8e214a59aa0edaint);
    let e = lemma_chain_multiply(p, g, e, 0x1d22eb9f94b8e214a59aa0edaint, 0x8f21208db99b2a265c68b846int, 0x791d667f6d098b630e49f88aint);
    let e = lemma_chain_square(p, g, e, 0x791d667f6d098b630e49f88aint, 0x11cc415530003aad4bb2b0d1int, 0x29e13a94adfcf29fada424abfint);
    let e = lemma_chain_square(p, g, e, 0x29e13a94adfcf29fada424abfint, 0x220c81b696a2c8b6779cc1833int, 0x6025be9cf898acf7457102d2int);
    let e = lemma_chain_multiply(p, g, e, 0x6025be9cf898acf7457102d2int, 0x1d850510b5a74588740d936aint, 0x2782f576964fa0c617154eef6int);
    let e = lemma_chain_square(p, g, e, 0x2782f576964fa0c617154eef6int, 0x1e4e916f24135623e258a3d72int, 0xc521aab8d23d23bb3d23c50aint);
    let e = lemma_chain_square(p, g, e, 0xc521aab8d23d23bb3d23c50aint, 0x2f2680e76037cb8ca4ff10f9int, 0x25cc0140f2f20e81188b9d77int);
    let e = lemma_chain_multiply(p, g, e, 0x25cc0140f2f20e81188b9d77int, 0xb9ac4faaf9996e858c9ab9aint, 0xed9bb87aa5e69c7a06d6ed0aint);
    let e = lemma_chain_square(p, g, e, 0xed9bb87aa5e69c7a06d6ed0aint, 0x44803d035f7de870f80cdb29int, 0x2cb3b6a6b1c5f1e40347bef87int);
}

/// A power of a power of the root 2 modulo 0x3383051b79bb31af491829695.
proof fn lemma_power_255074062430788457494141376149_7()
    ensures
        pow_mod(4, 0xbc8006, 0x3383051b79bb31af491829695int) == 0x216bd04ae457e7f83eb1fca4eint,
{
    let p = 0x3383051b79bb31af491829695int;
    let g = 4;
    lemma_chain_start(p, g);
    let e: nat = 0;
    let e = lemma_chain_square(p, g, e, 1, 0, 1);
    let e = lemma_chain_multiply(p, g, e, 1, 0, 4);
    let e = lemma_chain_square(p, g, e, 4, 0, 0x10);
    let e = lemma_chain_square(p, g, e, 0x10, 0, 0x100);
    let e = lemma_chain_multiply(p, g, e, 0x100, 0, 0x400);
    let e = lemma_chain_square(p, g, e, 0x400, 0, 0x100000);
    let e = lemma_chain_multiply(p, g, e, 0x100000, 0, 0x400000);
    let e = lemma_chain_square(p, g, e, 0x400000, 0, 0x100000000000);
    let e = lemma_chain_multiply(p, g, e, 0x100000000000, 0, 0x400000000000);
    let e = lemma_chain_square(p, g, e, 0x400000000000, 0, 0x100000000000000000000000int);
    let e = lemma_chain_multiply(p, g, e, 0x100000000000000000000000int, 0, 0x400000000000000000000000int);
    let e = lemma_chain_square(p, g, e, 0x400000000000000000000000int, 0x4f840946f9ca18dc94f4d78int, 0x2e8a68a7129cab8ff0e839928int);
    let e = lemma_chain_square(p, g, e, 0x2e8a68a7129cab8ff0e839928int, 0x2a0c9c5bb12c9e0a7ae76a842int, 0x18a8a4bd05fd863cd95663bd6int);
    let e = lemma_chain_square(p, g, e, 0x18a8a4bd05fd863cd95663bd6int, 0xbcddee08fbd76fb70599a3e6int, 0x9fe999c47a75cf560f432e06int);
    let e = lemma_chain_multiply(p, g, e, 0x9fe999c47a75cf560f432e06int, 0, 0x27fa66711e9d73d583d0cb818int);
    let e = lemma_chain_square(p, g, e, 0x27fa66711e9d73d583d0cb818int, 0x1f06e1db33318732bad21e371int, 0x292d16ce2ccfb12431642eb7bint);
    let e = lemma_chain_square(p, g, e, 0x292d16ce2ccfb12431642eb7bint, 0x20ea0e26c0e07c257e9ced002int, 0x30ab08dc2292b2b7061c2cfefint);
    let e = lemma_chain_square(p, g, e, 0x30ab08dc2292b2b7061c2cfefint, 0x2dfb3ccafaae09983c90ff30eint, 0x2c0536fbc32c7a7533351b5fbint);
    let e = lemma_chain_square(p, g, e, 0x2c0536fbc32c7a7533351b5fbint, 0x259e5186f86b6a91123fd317aint, 0x522e8d366ace756724e39c17int);
    let e = lemma_chain_square(p, g, e, 0x522e8d366ace756724e39c17int, 0x831cdf90f0ad67e645f42a9int, 0xc5cfa2581d67e830d8a337b4int);
    let e = lemma_chain_square(p, g, e, 0xc5cfa2581d67e830d8a337b4int, 0x2f79dde7df632dc6abee1607int, 0x31ce435e8cb770e23024dea7dint);
    let e = lemma_chain_square(p, g, e, 0x31ce435e8cb770e23024dea7dint, 0x3027f8caebacb72b9c7e39b85int, 0xf869edb913424eded6d74ea0int);
    let e = lemma_chain_square(p, g, e, 0xf869edb913424eded6d74ea0int, 0x4adf76df4db54f0536fb8648int, 0x706ba34dd4ccce5f4f428c18int);
    let e = lemma_chain_square(p, g, e, 0x706ba34dd4ccce5f4f428c18int, 0xf5594e1407e6f70f61a470aint, 0x501e4727e3bf1b83f90b0d6eint);
    let e = lemma_chain_square(p, g, e, 0x501e4727e3bf1b83f90b0d6eint, 0x7c9c6c09e49d5557609540cint, 0x13e019dc6a983a87f7f636848int);
    let e = lemma_chain_square(p, g, e, 0x13e019dc6a983a87f7f636848int, 0x7ab337adacbd92c66fbc9963int, 0x12ef13acb819f3b86c03f4ba1int);
    let e = lemma_chain_square(p, g, e, 0x12ef13acb819f3b86c03f4ba1int, 0x6f59cb136ed08915b1a079c5int, 0x29c4b4e769818b9b4facb6d98int);
    let e = lemma_chain_square(p, g, e, 0x29c4b4e769818b9b4facb6d98int, 0x21de30c743e08ed3593a2b8e6int, 0xf4d62cbbc7f4922f6d226862int);
    let e = lemma_chain_multiply(p, g, e, 0xf4d62cbbc7f4922f6d226862int, 1, 0x9b286137841f2dc923070af3int);
    let e = lemma_chain_square(p, g, e, 0x9b286137841f2dc923070af3int, 0x1d3590617c58d4ba3347f8daint, 0x2e3ff590ba64d80122e5a4fc7int);
    let e = lemma_chain_multiply(p, g, e, 0x2e3ff590ba64d80122e5a4fc7int, 3, 0x1e76c6f07c61caf6b04e17b5dint);
    let e = lemma_chain_square(p, g, e, 0x1e76c6f07c61caf6b04e17b5dint, 0x12042e5d7bf6cdca1576367cfint, 0x216bd04ae457e7f83eb1fca4eint);
}

/// A power of a power of the root 2 modulo 0x3383051b79bb31af491829695.
proof fn lemma_power_255074062430788457494141376149_8()
    ensures
        pow_mod(0x216bd04ae457e7f83eb1fca4eint, 0x1591, 0x3383051b79bb31af491829695int) == 0x124e45ec48a23e0305a6e76efint,
{
    let p = 0x3383051b79bb31af491829695int;
    let g = 0x216bd04ae457e7f83eb1fca4eint;
    lemma_chain_start(p, g);
    let e: nat = 0;
    let e = lemma_chain_square(p, g, e, 1, 0, 1);
    let e = lemma_chain_multiply(p, g, e, 1, 0, 0x216bd04ae457e7f83eb1fca4eint);
    let e = lemma_chain_square(p, g, e, 0x216bd04ae457e7f83eb1fca4eint, 0x15af0f8487cddc2e4948731c5int, 0x1c65198d9c8dd01844ddfca1bint);
    let e = lemma_chain_square(p, g, e, 0x1c65198d9c8dd01844ddfca1bint, 0xfa6f4cd803ac5a89d15765b0int, 0xcdc860240d0df77397c54f69int);
    let e = lemma_chain_multiply(p, g, e, 0xcdc860240d0df77397c54f69int, 0x858353e1f99a77038af9b079int, 0x2e22c8d684e33ffec98516f91int);
    let e = lemma_chain_square(p, g, e, 0x2e22c8d684e33ffec98516f91int, 0x29522d4f75a6f6d9efb607ec7int, 0x290d88c2d119e106e08e0ac4eint);
    let e = lemma_chain_square(p, g, e, 0x290d88c2d119e106e08e0ac4eint, 0x20b7af0e8cb2bf534b2f8cbc6int, 0x1b5a8c7022b89e7f649b84986int);
    let e = lemma_chain_multiply(p, g, e, 0x1b5a8c7022b89e7f649b84986int, 0x11bf4b1c5c81beadda67baefaint, 0x2117e7bf91d18dfd5f5eccf52int);
    let e = lemma_chain_square(p, g, e, 0x2117e7bf91d18dfd5f5eccf52int, 0x1542b6cc6bdcaf46a71ef428fint, 0x1222419ef5e2903208e362f09int);
    let e = lemma_chain_multiply(p, g, e, 0x1222419ef5e2903208e362f09int, 0xbc3ec1ed243e90488427f8c7int, 0x27d45549dfccc96f4a7a008ebint);
    let e = lemma_chain_square(p, g, e, 0x27d45549dfccc96f4a7a008ebint, 0x1ecbe7a0f094b6463d7ab74e0int, 0x3207edceaf054dd6689094159int);
    let e = lemma_chain_square(p, g, e, 0x3207edceaf054dd6689094159int, 0x3097bc5a8ecdea02331065c9cint, 0xffe89b8d155f359e44c10225int);
    let e = lemma_chain_square(p, g, e, 0xffe89b8d155f359e44c10225int, 0x4f7581d0bbbbe45d2924133dint, 0x1bcd15ff92a4ab6a47c8fa8d8int);
    let e = lemma_chain_multiply(p, g, e, 0x1bcd15ff92a4ab6a47c8fa8d8int, 0x12099b1b28f6b822e33a76fafint, 0x3010b889f3fddd316076556f5int);
    let e = lemma_chain_square(p, g, e, 0x3010b889f3fddd316076556f5int, 0x2cd9741360fd543538bafbfeaint, 0x1280fddd7813e3586da49b747int);
    let e = lemma_chain_square(p, g, e, 0x1280fddd7813e3586da49b747int, 0x6a59ab41a909b1f58ee22020int, 0x2f520a11d96dfee87dd052311int);
    let e = lemma_chain_square(p, g, e, 0x2f520a11d96dfee87dd052311int, 0x2b785d01fd54edba7b92cb1fdint, 0x1dd195171d8d1a6ce16afd0e0int);
    let e = lemma_chain_square(p, g, e, 0x1dd195171d8d1a6ce16afd0e0int, 0x1142dbde95a4a62cd1cbb14bcint, 0x9ac8e200631c3fff622b8a94int);
    let e = lemma_chain_multiply(p, g, e, 0x9ac8e200631c3fff622b8a94int, 0x646cd981872e67a50e0f2445int, 0x124e45ec48a23e0305a6e76efint);
}

/// A power of a power of the root 2 modulo 0x3383051b79bb31af491829695: the steps from the exponent
/// 0
/// to the exponent
/// 0x2299cd80d908.
proof fn lemma_power_255074062430788457494141376149_9_part_1(p: int, g: int)
    requires
        p == 0x3383051b79bb31af491829695int,
        g == 0x124e45ec48a23e0305a6e76efint,
        pow_mod(g, 0, p) == 1,
    ensures
        pow_mod(g, 0x2299cd80d908, p) == 0x3b8057c4469b33cb938947dcint,
{
    let e: nat = 0;
    let e = lemma_chain_square(p, g, e, 1, 0, 1);
    let e = lemma_chain_multiply(p, g, e, 1, 0, 0x124e45ec48a23e0305a6e76efint);
    let e = lemma_chain_square(p, g, e, 0x124e45ec48a23e0305a6e76efint, 0x6815c8e2d2be6cd66290bc43int, 0x2b6989182c2a27864bf125e22int);
    let e = lemma_chain_square(p, g, e, 0x2b6989182c2a27864bf125e22int, 0x2496143f7d5aa8885213763ddint, 0x250d6cd6bc91c7f106e6a5ee3int);
    let e = lemma_chain_square(p, g, e, 0x250d6cd6bc91c7f106e6a5ee3int, 0x1aa6de16ca6153809e9aeab66int, 0x69dc79080eeec6ca043f6ebint);
    let e = lemma_chain_square(p, g, e, 0x69dc79080eeec6ca043f6ebint, 0xd98dd40b3267b77618182int, 0x28a5c2c76fbc36962e983ef0fint);
    let e = lemma_chain_multiply(p, g, e, 0x28a5c2c76fbc36962e983ef0fint, 0xe71e58e29ec9d09b15df2fa0int, 0x2efdfd86094d33a280c0a0e1int);
    let e = lemma_chain_square(p, g, e, 0x2efdfd86094d33a280c0a0e1int, 0x2ade7a809d0f3507f11224fint, 0x237bed6db95eab7da8c68c3c6int);
    let e = lemma_chain_square(p, g, e, 0x237bed6db95eab7da8c68c3c6int, 0x18717f3c92d852323f115e88bint, 0x229e253001fba26b73cff723dint);
    let e = lemma_chain_multiply(p, g, e, 0x229e253001fba26b73cff723dint, 0xc4d5780e090312bbfe305dacint, 0x145db5a2c11ed22a2f2f877d7int);
    let e = lemma_chain_square(p, g, e, 0x145db5a2c11ed22a2f2f877d7int, 0x80d53d738b1dd10505d036d6int, 0x6d9b27b2d3a9ffbf73ac4803int);
    let e = lemma_chain_square(p, g, e, 0x6d9b27b2d3a9ffbf73ac4803int, 0xe937dfdb62005017411bb6aint, 0xa645ceab44a9861262537f57int);
    let e = lemma_chain_square(p, g, e, 0xa645ceab44a9861262537f57int, 0x218b450b86e996071699cb2dint, 0x4925b23fabbcbc867f57d060int);
    let e = lemma_chain_multiply(p, g, e, 0x4925b23fabbcbc867f57d060int, 0x19fe8da6b86534e466d687b9int, 0xd4aa6a7500d629ea62f264f3int);
    let e = lemma_chain_square(p, g, e, 0xd4aa6a7500d629ea62f264f3int, 0x36dfcb45ec82dfcb299e5c29int, 0x29d05907660f6bbb5063d14ccint);
    let e = lemma_chain_multiply(p, g, e, 0x29d05907660f6bbb5063d14ccint, 0xedc016d4bf7a3b9b12e83546int, 0x2c85e0522922eab89de5a6cb6int);
    let e = lemma_chain_square(p, g, e, 0x2c85e0522922eab89de5a6cb6int, 0x267b7952ab0ffb6038027cb08int, 0x33668bfcef28f8452bbf235bcint);
    let e = lemma_chain_square(p, g, e, 0x33668bfcef28f8452bbf235bcint, 0x334a229b7347ed441f0317a0eint, 0x39b79f8a68881e62974b23eaint);
    let e = lemma_chain_square(p, g, e, 0x39b79f8a68881e62974b23eaint, 0x40ab99dd4f13703c5601956int, 0x1d737d6ca0f584b9d58b2aed6int);
    let e = lemma_chain_multiply(p, g, e, 0x1d737d6ca0f584b9d58b2aed6int, 0xa774f4205c74d8ca0743b451int, 0x148641c055a9966972f2a74a5int);
    let e = lemma_chain_square(p, g, e, 0x148641c055a9966972f2a74a5int, 0x82d83a9b74ae7bca37947d06int, 0x31a17dc504b461151d38fa9dbint);
    let e = lemma_chain_multiply(p, g, e, 0x31a17dc504b461151d38fa9dbint, 0x11a326f868220310a8427806bint, 0x2ee0c85396c435114d3f2152eint);
    let e = lemma_chain_square(p, g, e, 0x2ee0c85396c435114d3f2152eint, 0x2aa940c4bf7499ae691a5477cint, 0x13b36609eea19cfe0baab5118int);
    let e = lemma_chain_multiply(p, g, e, 0x13b36609eea19cfe0baab5118int, 0x70045f4cf38c4d292cb99f78int, 0x256cc74119a543c56c737a490int);
    let e = lemma_chain_square(p, g, e, 0x256cc74119a543c56c737a490int, 0x1b30bb6d403740f919a37be2dint, 0x275794e85852e86aa83eec2cfint);
    let e = lemma_chain_square(p, g, e, 0x275794e85852e86aa83eec2cfint, 0x1e0c2ab4d55e7bd90dddc5a65int, 0x3164498fd3c6b8e4d4ca09898int);
    let e = lemma_chain_square(p, g, e, 0x3164498fd3c6b8e4d4ca09898int, 0x2f5be44adad937954305dd6e7int, 0x1c61a5725aa0837e63e1d6bcdint);
    let e = lemma_chain_multiply(p, g, e, 0x1c61a5725aa0837e63e1d6bcdint, 0xa15fe65c25d942a3e81f026dint, 0x17f6ef69409da4a24b36bdaf2int);
    let e = lemma_chain_square(p, g, e, 0x17f6ef69409da4a24b36bdaf2int, 0xb2620842434ad25202a59654int, 0x1a817867ca410141ab26f55e0int);
    let e = lemma_chain_multiply(p, g, e, 0x1a817867ca410141ab26f55e0int, 0x96b5a821e3838340dc11632dint, 0x19710bb68fdf9e49c6db154efint);
    let e = lemma_chain_square(p, g, e, 0x19710bb68fdf9e49c6db154efint, 0xc90c82033110eeccbce01eecint, 0x1844917155bd8785974436fc5int);
    let e = lemma_chain_square(p, g, e, 0x1844917155bd8785974436fc5int, 0xb6ed151feb940a21ce53f21cint, 0x1c1f43d45c99f40324fa1b4dint);
    let e = lemma_chain_multiply(p, g, e, 0x1c1f43d45c99f40324fa1b4dint, 0x9fe675f95807de72bf62aacint, 0xe2fe9f2e54c9f10fb08b5cc7int);
    let e = lemma_chain_square(p, g, e, 0xe2fe9f2e54c9f10fb08b5cc7int, 0x3e849596c011efa0c87ff50eint, 0x1b6aaae06dd8f8292768dcd8bint);
    let e = lemma_chain_multiply(p, g, e, 0x1b6aaae06dd8f8292768dcd8bint, 0x9be398ff9de8dd8d32879d31int, 0x16954412195106a3ec7efc340int);
    let e = lemma_chain_square(p, g, e, 0x16954412195106a3ec7efc340int, 0x9e68a5aa2b5a49085432ee0cint, 0x47729140d69b1bcb1f32fb04int);
    let e = lemma_chain_square(p, g, e, 0x47729140d69b1bcb1f32fb04int, 0x631940f75d31c06d7579f8eint, 0xac61de42d4b285eada17c66aint);
    let e = lemma_chain_square(p, g, e, 0xac61de42d4b285eada17c66aint, 0x240def35b50ebe100ef46d34int, 0x15acef0e50fd7ee43f42c1ca0int);
    let e = lemma_chain_square(p, g, e, 0x15acef0e50fd7ee43f42c1ca0int, 0x91eec195d3615da9fd545a43int, 0x3056c84e9f12e39b932319901int);
    let e = lemma_chain_square(p, g, e, 0x3056c84e9f12e39b932319901int, 0x2d5c92dc1af7e86b6056c863fint, 0x333a0c6b28cd15c81b8032556int);
    let e = lemma_chain_square(p, g, e, 0x333a0c6b28cd15c81b8032556int, 0x32f17b19d84f974fec3e6b746int, 0x3185a1f84c28a3a0993e4926int);
    let e = lemma_chain_square(p, g, e, 0x3185a1f84c28a3a0993e4926int, 0x2f9bec09158444e1ea4d510int, 0xa2340165ca422f0842674f54int);
    let e = lemma_chain_square(p, g, e, 0xa2340165ca422f0842674f54int, 0x1fec10bd696f35876856d616int, 0x3299effd9ee474892750574c2int);
    let e = lemma_chain_multiply(p, g, e, 0x3299effd9ee474892750574c2int, 0x11fb714cf4a4a955868f601b8int, 0x1fef76e59c0366934cfa49d06int);
    let e = lemma_chain_square(p, g, e, 0x1fef76e59c0366934cfa49d06int, 0x13cc7c46d82efc507967c6cadint, 0xa516e1946ff32b00990dbd73int);
    let e = lemma_chain_multiply(p, g, e, 0xa516e1946ff32b00990dbd73int, 0x3aaaf74decea5ae9006dbf1aint, 0x2080b430ba28c908ebb836a3bint);
    let e = lemma_chain_square(p, g, e, 0x2080b430ba28c908ebb836a3bint, 0x14822bd64bccc606d6291f03cint, 0x10d6867789fe57a523a4aeeadint);
    let e = lemma_chain_square(p, g, e, 0x10d6867789fe57a523a4aeeadint, 0x58102450fb0e6c4120118241int, 0xa53b12eb82d8b6985c053b14int);
    let e = lemma_chain_multiply(p, g, e, 0xa53b12eb82d8b6985c053b14int, 0x3ab7d3edfbd12d88a5399437int, 0x22fd0fd0ad8ebb7786a6be1a9int);
    let e = lemma_chain_square(p, g, e, 0x22fd0fd0ad8ebb7786a6be1a9int, 0x17c3ef0a03ef4b8fb81d94dcdint, 0x236ab4127e2d3a97fd8061b40int);
    let e = lemma_chain_multiply(p, g, e, 0x236ab4127e2d3a97fd8061b40int, 0xc960921703bbf097e6cff000int, 0x13b0789ebe8e79f2a61c40c0int);
    let e = lemma_chain_square(p, g, e, 0x13b0789ebe8e79f2a61c40c0int, 0x7869e336f7607a20a9a2ffint, 0x2d6285732ed6ef5b9da54795int);
    let e = lemma_chain_square(p, g, e, 0x2d6285732ed6ef5b9da54795int, 0x27fc957e90f749125747a48int, 0x2c461bb5d8d597efa2f14a0d1int);
    let e = lemma_chain_square(p, g, e, 0x2c461bb5d8d597efa2f14a0d1int, 0x260d8cb65264c28cb5aaaab89int, 0x190ea65efe2d66506c943cde4int);
    let e = lemma_chain_multiply(p, g, e, 0x190ea65efe2d66506c943cde4int, 0x8e793356676b1b4933e44cc6int, 0x2a815b5ed08b42639abc39c9eint);
    let e = lemma_chain_square(p, g, e, 0x2a815b5ed08b42639abc39c9eint, 0x2312d2e343da2ed787577cd6fint, 0x2fe190b64fdb22d204a0d55e9int);
    let e = lemma_chain_square(p, g, e, 0x2fe190b64fdb22d204a0d55e9int, 0x2c819ef5e606cf43567a68591int, 0x7768b5062df8b060afaddaacint);
    let e = lemma_chain_square(p, g, e, 0x7768b5062df8b060afaddaacint, 0x114cd086fec552bb5f5e7360int, 0x28fb8d725178412489eedfcb0int);
    let e = lemma_chain_square(p, g, e, 0x28fb8d725178412489eedfcb0int, 0x209b0c039fceed756585f5ac1int, 0x1084d8e95d06d9a56619c10abint);
    let e = lemma_chain_square(p, g, e, 0x1084d8e95d06d9a56619c10abint, 0x54c1e19b3a5799da7967b67fint, 0x40423619a7b6c749ddb4304eint);
    let e = lemma_chain_multiply(p, g, e, 0x40423619a7b6c749ddb4304eint, 0x16d5e9f66b4abcea161c63caint, 0x1bc6e9dd183dff8839f6e9c40int);
    let e = lemma_chain_square(p, g, e, 0x1bc6e9dd183dff8839f6e9c40int, 0xefa759464595aea350fb8af8int, 0x1e542d8e62134eb0d9698dda8int);
    let e = lemma_chain_square(p, g, e, 0x1e542d8e62134eb0d9698dda8int, 0x11db5920940da8e5e8ecd0b8aint, 0x30e62f9af6fb082328f3ceaeeint);
    let e = lemma_chain_square(p, g, e, 0x30e62f9af6fb082328f3ceaeeint, 0x2e6b464e78823104d489fa5c8int, 0x3b8057c4469b33cb938947dcint);
}

/// A power of a power of the root 2 modulo 0x3383051b79bb31af491829695: the steps from the exponent
/// 0x2299cd80d908
/// to the exponent
/// 0x8a673603642696d.
proof fn lemma_power_255074062430788457494141376149_9_part_2(p: int, g: int)
    requires
        p == 0x3383051b79bb31af491829695int,
        g == 0x124e45ec48a23e0305a6e76efint,
        pow_mod(g, 0x2299cd80d908, p) == 0x3b8057c4469b33cb938947dcint,
    ensures
        pow_mod(g, 0x8a673603642696d, p) == 0x90c2e3178cf4e22127986632int,
{
    let e: nat = 0x2299cd80d908;
    let e = lemma_chain_multiply(p, g, e, 0x3b8057c4469b33cb938947dcint, 0x15251eac7c6d3c2322313c93int, 0x1b696baeaabeb51a877051ad5int);
    let e = lemma_chain_square(p, g, e, 0x1b696baeaabeb51a877051ad5int, 0xe964aee7a055694ca7673481int, 0x9e1e96c85e03f0ce72cad024int);
    let e = lemma_chain_multiply(p, g, e, 0x9e1e96c85e03f0ce72cad024int, 0x3830e1c249930dd4bf4115f3int, 0xdf4de7fc9994d5bd829cc12dint);
    let e = lemma_chain_square(p, g, e, 0xdf4de7fc9994d5bd829cc12dint, 0x3c806f5f3c4920e292f981bdint, 0x4a2f6dde924efd4e0865a0e8int);
    let e = lemma_chain_square(p, g, e, 0x4a2f6dde924efd4e0865a0e8int, 0x6ad6b638b1ea6b913261276int, 0x1e3b37c46c697c694324cef92int);
    let e = lemma_chain_multiply(p, g, e, 0x1e3b37c46c697c694324cef92int, 0xabe49747fb6ee4d7356a79deint, 0x3ddcc24239579af395dff318int);
    let e = lemma_chain_square(p, g, e, 0x3ddcc24239579af395dff318int, 0x4a4aec8a3c1722b44dbacbbint, 0xbdaf4236248c024bed9f7769int);
    let e = lemma_chain_square(p, g, e, 0xbdaf4236248c024bed9f7769int, 0x2ba7c514dfcd1379d7353fe2int, 0x6338f79f5de83e4f0df02e87int);
    let e = lemma_chain_square(p, g, e, 0x6338f79f5de83e4f0df02e87int, 0xbf1f97ae985d2e987d9534bint, 0x103ca43d2732cb3d7cc335e8aint);
    let e = lemma_chain_multiply(p, g, e, 0x103ca43d2732cb3d7cc335e8aint, 0x5c52573a441b178468078afeint, 0x26751001d7ac0011b0a042500int);
    let e = lemma_chain_square(p, g, e, 0x26751001d7ac0011b0a042500int, 0x1cb60ccdc55588eea17b17e1dint, 0x31a46648791b8129eeb6b9b1fint);
    let e = lemma_chain_square(p, g, e, 0x31a46648791b8129eeb6b9b1fint, 0x2fd7268c013e571c2dd952844int, 0xf09287f0d83be3ac9ff8462dint);
    let e = lemma_chain_multiply(p, g, e, 0xf09287f0d83be3ac9ff8462dint, 0x557e03a29d4face84e1422adint, 0x22903788effd23ff8eb94b552int);
    let e = lemma_chain_square(p, g, e, 0x22903788effd23ff8eb94b552int, 0x1730f857331f18def84f40c94int, 0xb7c0bcef0e9f4db91aab0420int);
    let e = lemma_chain_multiply(p, g, e, 0xb7c0bcef0e9f4db91aab0420int, 0x414cdfaa77b30c550e031c04int, 0x2d68885184e573d10470df38cint);
    let e = lemma_chain_square(p, g, e, 0x2d68885184e573d10470df38cint, 0x28072ddbd9a1a2fb2ea81bee0int, 0x25ff8f75114240e4ffacfbc30int);
    let e = lemma_chain_square(p, g, e, 0x25ff8f75114240e4ffacfbc30int, 0x1c07a63add57b27d5e4643515int, 0xaa9ddefa6b6fcf7720df55c7int);
    let e = lemma_chain_multiply(p, g, e, 0xaa9ddefa6b6fcf7720df55c7int, 0x3ca1cfa8df86700f1ebb383bint, 0x2f32a51dcc37f21d6e4ac8272int);
    let e = lemma_chain_square(p, g, e, 0x2f32a51dcc37f21d6e4ac8272int, 0x2b3ec21c677adae319facebd5int, 0x86f0a83114ec5059f2a9e9cbint);
    let e = lemma_chain_multiply(p, g, e, 0x86f0a83114ec5059f2a9e9cbint, 0x2ff423be42b6acd918031395int, 0x1d45392c3774066ff93b122ccint);
    let e = lemma_chain_square(p, g, e, 0x1d45392c3774066ff93b122ccint, 0x10a1da6f41357ec0591d8c633int, 0x872c81aa7f843948fa9f94e1int);
    let e = lemma_chain_square(p, g, e, 0x872c81aa7f843948fa9f94e1int, 0x162b6dc160645ca77abfaf57int, 0x8761cc9135d616d7a696e61eint);
    let e = lemma_chain_multiply(p, g, e, 0x8761cc9135d616d7a696e61eint, 0x301c58d1418722a8a30f5090int, 0x90c2e3178cf4e22127986632int);
}

/// A power of a power of the root 2 modulo 0x3383051b79bb31af491829695.
proof fn lemma_power_255074062430788457494141376149_9()
    ensures
        pow_mod(0x124e45ec48a23e0305a6e76efint, 0x8a673603642696d, 0x3383051b79bb31af491829695int) == 0x90c2e3178cf4e22127986632int,
{
    let p = 0x3383051b79bb31af491829695int;
    let g = 0x124e45ec48a23e0305a6e76efint;
    lemma_chain_start(p, g);
    lemma_power_255074062430788457494141376149_9_part_1(p, g);
    lemma_power_255074062430788457494141376149_9_part_2(p, g);
}

/// A power of a power of the root 2 modulo 0x3383051b79bb31af491829695.
proof fn lemma_power_255074062430788457494141376149_10()
    ensures
        pow_mod(0x124e45ec48a23e0305a6e76efint, 3, 0x3383051b79bb31af491829695int) == 0x1ea1a4a72ac7c721272b7fb4eint,
{
    let p = 0x3383051b79bb31af491829695int;
    let g = 0x124e45ec48a23e0305a6e76efint;
    lemma_chain_start(p, g);
    let e: nat = 0;
    let e = lemma_chain_square(p, g, e, 1, 0, 1);
    let e = lemma_chain_multiply(p, g, e, 1, 0, 0x124e45ec48a23e0305a6e76efint);
    let e = lemma_chain_square(p, g, e, 0x124e45ec48a23e0305a6e76efint, 0x6815c8e2d2be6cd66290bc43int, 0x2b6989182c2a27864bf125e22int);
    let e = lemma_chain_multiply(p, g, e, 0x2b6989182c2a27864bf125e22int, 0xf6d6b2ee73222fac07c6dcb0int, 0x1ea1a4a72ac7c721272b7fb4eint);
}

/// A power of a power of the root 2 modulo 0x3383051b79bb31af491829695: the steps from the exponent
/// 0
/// to the exponent
/// 0xcf9ad105162.
proof fn lemma_power_255074062430788457494141376149_11_part_1(p: int, g: int)
    requires
        p == 0x3383051b79bb31af491829695int,
        g == 0x216bd04ae457e7f83eb1fca4eint,
        pow_mod(g, 0, p) == 1,
    ensures
        pow_mod(g, 0xcf9ad105162, p) == 0x31b9a1c92ec6ce0bb5a998a41int,
{
    let e: nat = 0;
    let e = lemma_chain_square(p, g, e, 1, 0, 1);
    let e = lemma_chain_multiply(p, g, e, 1, 0, 0x216bd04ae457e7f83eb1fca4eint);
    let e = lemma_chain_square(p, g, e, 0x216bd04ae457e7f83eb1fca4eint, 0x15af0f8487cddc2e4948731c5int, 0x1c65198d9c8dd01844ddfca1bint);
    let e = lemma_chain_multiply(p, g, e, 0x1c65198d9c8dd01844ddfca1bint, 0x126c3bbd5c915a95342a092dcint, 0x8b093f91447b184a84b3802eint);
    let e = lemma_chain_square(p, g, e, 0x8b093f91447b184a84b3802eint, 0x177462d03057916279be7cc0int, 0x1b1e52cc15733e4995e0aec84int);
    let e = lemma_chain_square(p, g, e, 0x1b1e52cc15733e4995e0aec84int, 0xe46cb85043530150bb5e264fint, 0x20b8b13fffa6bc75bd9770e15int);
    let e = lemma_chain_square(p, g, e, 0x20b8b13fffa6bc75bd9770e15int, 0x14c910591c3f34286fe6c662dint, 0x1d3db8bb52e6f56b6b97c7788int);
    let e = lemma_chain_multiply(p, g, e, 0x1d3db8bb52e6f56b6b97c7788int, 0x12f8c7601776c710fb33d6855int, 0x20e04a4648b4112f89dac33f7int);
    let e = lemma_chain_square(p, g, e, 0x20e04a4648b4112f89dac33f7int, 0x14fb7d5209019709186c6cdbcint, 0x982f190b00a811caf0ba71e5int);
    let e = lemma_chain_multiply(p, g, e, 0x982f190b00a811caf0ba71e5int, 0x62bce2710155b232e8744fbfint, 0x1e4268aa8a21bddfb57fe119bint);
    let e = lemma_chain_square(p, g, e, 0x1e4268aa8a21bddfb57fe119bint, 0x11c672b7cfe83b5981a0dbf04int, 0x2db0bfaa554318348ced56e85int);
    let e = lemma_chain_multiply(p, g, e, 0x2db0bfaa554318348ced56e85int, 0x1da4eacb3fa1fb630a22f18e2int, 0xf0de8a6f98a8b6fe4495b6fcint);
    let e = lemma_chain_square(p, g, e, 0xf0de8a6f98a8b6fe4495b6fcint, 0x4664e34ddbb60bd3fb4d19bbint, 0x27bda557646ab683df739bc39int);
    let e = lemma_chain_multiply(p, g, e, 0x27bda557646ab683df739bc39int, 0x19c8b828f66995ebcd51347e9int, 0x1c0462c2b65f3138b3255f2c1int);
    let e = lemma_chain_square(p, g, e, 0x1c0462c2b65f3138b3255f2c1int, 0xf3d0abc457c91041f6945155int, 0x19b674e0ea8e475fea0365108int);
    let e = lemma_chain_multiply(p, g, e, 0x19b674e0ea8e475fea0365108int, 0x10aebc3ca9ad97f19478dd19eint, 0x211d8fa06762f461325db6b7aint);
    let e = lemma_chain_square(p, g, e, 0x211d8fa06762f461325db6b7aint, 0x1549fbc6fa8946e850e5e396cint, 0x2816906a12fbb2e126c868248int);
    let e = lemma_chain_square(p, g, e, 0x2816906a12fbb2e126c868248int, 0x1f32a88616d0cf639d42225b7int, 0x1799d3465dd422ba51dc606bdint);
    let e = lemma_chain_square(p, g, e, 0x1799d3465dd422ba51dc606bdint, 0xad026783c09a9228d25dc680int, 0xbbd2b7075feb84448ea5df09int);
    let e = lemma_chain_multiply(p, g, e, 0xbbd2b7075feb84448ea5df09int, 0x79dc56dbbb1e6608f61f0282int, 0x1741a3f29b02fc0604a156d14int);
    let e = lemma_chain_square(p, g, e, 0x1741a3f29b02fc0604a156d14int, 0xa7fef01a5e5f8c39d1c175e0int, 0x12c2851d4d98983ca77572e30int);
    let e = lemma_chain_multiply(p, g, e, 0x12c2851d4d98983ca77572e30int, 0xc2be6fde971acfb57a4ba0feint, 0x78141c4111566e67b17c6acaint);
    let e = lemma_chain_square(p, g, e, 0x78141c4111566e67b17c6acaint, 0x117e9ead6123ec936c118fddint, 0x258ee6bf5632e5783887dadc3int);
    let e = lemma_chain_square(p, g, e, 0x258ee6bf5632e5783887dadc3int, 0x1b62673e4fa23506cfb2fcf2dint, 0x1129e3b697035cfc46e4d2f58int);
    let e = lemma_chain_multiply(p, g, e, 0x1129e3b697035cfc46e4d2f58int, 0xb22c7d10bf158b3bac361cc0int, 0x57b29c558cf66352bcb0a110int);
    let e = lemma_chain_square(p, g, e, 0x57b29c558cf66352bcb0a110int, 0x954dab6cba1bd512475f345int, 0x317a2a1b9154186a2681a1bd7int);
    let e = lemma_chain_square(p, g, e, 0x317a2a1b9154186a2681a1bd7int, 0x2f85e1ad4182a5f1e9a696ae3int, 0x232a94809134030abdc70d672int);
    let e = lemma_chain_multiply(p, g, e, 0x232a94809134030abdc70d672int, 0x16d0ecdbd1c7672d5dc3736f4int, 0x8009d01726fd98ed2f2756b8int);
    let e = lemma_chain_square(p, g, e, 0x8009d01726fd98ed2f2756b8int, 0x13e40eb6733170086f383102int, 0x15a0beb55368f2a4c6c007216int);
    let e = lemma_chain_multiply(p, g, e, 0x15a0beb55368f2a4c6c007216int, 0xe08458b5a86f22f24e124659int, 0x1122f1e43f2d391d0fcc506e7int);
    let e = lemma_chain_square(p, g, e, 0x1122f1e43f2d391d0fcc506e7int, 0x5b369489f42f669e550e322aint, 0x9f271a43541192f551b9d5ffint);
    let e = lemma_chain_square(p, g, e, 0x9f271a43541192f551b9d5ffint, 0x1ebb963fb6caf5664a55c00cint, 0x1dfb187c94a283d8e86e88505int);
    let e = lemma_chain_multiply(p, g, e, 0x1dfb187c94a283d8e86e88505int, 0x1373a551019e783ac7c566649int, 0x255c22c878babdd10fe1f2b09int);
    let e = lemma_chain_square(p, g, e, 0x255c22c878babdd10fe1f2b09int, 0x1b18921339f4b7444ee873372int, 0x4983a717be8766fb90b048f7int);
    let e = lemma_chain_square(p, g, e, 0x4983a717be8766fb90b048f7int, 0x68ea2d8bb9f680ab08a274aint, 0x32e7ce5c20d8a0539b769a43fint);
    let e = lemma_chain_square(p, g, e, 0x32e7ce5c20d8a0539b769a43fint, 0x324e6b4c5fb7febb2777d67ccint, 0x2e5070895f736b1abeea7d5c5int);
    let e = lemma_chain_square(p, g, e, 0x2e5070895f736b1abeea7d5c5int, 0x29a41da5e722f0e97414320cbint, 0x10dee9d6324735744f2286172int);
    let e = lemma_chain_multiply(p, g, e, 0x10dee9d6324735744f2286172int, 0xaf222b85df7b61a0a807b8a8int, 0x140696c7e6681529d7febaf4int);
    let e = lemma_chain_square(p, g, e, 0x140696c7e6681529d7febaf4int, 0x7c90391dfad634334a385cint, 0x176e55341b9e65de94ac6c304int);
    let e = lemma_chain_square(p, g, e, 0x176e55341b9e65de94ac6c304int, 0xaa870b7a120a9782689a2bf3int, 0x1080ec91e16cccd5c62dd21a1int);
    let e = lemma_chain_square(p, g, e, 0x1080ec91e16cccd5c62dd21a1int, 0x5499a3fdb63caaf50b3ef895int, 0xcdb4b0c843d58c79466cea88int);
    let e = lemma_chain_square(p, g, e, 0xcdb4b0c843d58c79466cea88int, 0x33575c8cbc94aa6bbfc8290cint, 0x230866cfdb619c5be8df7fc44int);
    let e = lemma_chain_square(p, g, e, 0x230866cfdb619c5be8df7fc44int, 0x17d35928ba0eea921daf458dcint, 0xd3fc54e3406751f253cd5204int);
    let e = lemma_chain_square(p, g, e, 0xd3fc54e3406751f253cd5204int, 0x36861981b764fafbdd0ab363int, 0x12a8ed7f850295fe8f5122571int);
    let e = lemma_chain_multiply(p, g, e, 0x12a8ed7f850295fe8f5122571int, 0xc1b4c440ebba2790c9e8f17eint, 0xa339420e33de49003eb13018int);
    let e = lemma_chain_square(p, g, e, 0xa339420e33de49003eb13018int, 0x2053383bcefe9e668a6820e5int, 0x1d708d085c138d7612f0daef7int);
    let e = lemma_chain_square(p, g, e, 0x1d708d085c138d7612f0daef7int, 0x10d33c4568e541dc7acc6cc7aint, 0x150cb412398bf8ca6f332334fint);
    let e = lemma_chain_multiply(p, g, e, 0x150cb412398bf8ca6f332334fint, 0xda838b158d35799c8a3d08b3int, 0xe2378c888271d2ba6ad405e3int);
    let e = lemma_chain_square(p, g, e, 0xe2378c888271d2ba6ad405e3int, 0x3e171dd585646f8911860e6aint, 0xd917f615aa09ae04a0ce2797int);
    let e = lemma_chain_square(p, g, e, 0xd917f615aa09ae04a0ce2797int, 0x392edcb465367e5fa3469ff8int, 0xf697c3b8011bae0a5f5cefb9int);
    let e = lemma_chain_square(p, g, e, 0xf697c3b8011bae0a5f5cefb9int, 0x49c77ca214fae9e2b73db12fint, 0x30b9e243c4205b44e15db4956int);
    let e = lemma_chain_square(p, g, e, 0x30b9e243c4205b44e15db4956int, 0x2e17502c1de6c8d9106391152int, 0x22311dce85331a5465d25082aint);
    let e = lemma_chain_multiply(p, g, e, 0x22311dce85331a5465d25082aint, 0x162f1260cdc694f24842e6a14int, 0x1ae33b434a82927fcd17c2b28int);
    let e = lemma_chain_square(p, g, e, 0x1ae33b434a82927fcd17c2b28int, 0xe08d77cda487c746c2512114int, 0x319191805f8627f6763447d9cint);
    let e = lemma_chain_square(p, g, e, 0x319191805f8627f6763447d9cint, 0x2fb2e1ce73e03959c45387309int, 0x16108a32121949417bfad7cd3int);
    let e = lemma_chain_multiply(p, g, e, 0x16108a32121949417bfad7cd3int, 0xe50ce07db05b80e40e84af57int, 0x21abd0c492f96c03096c27ea7int);
    let e = lemma_chain_square(p, g, e, 0x21abd0c492f96c03096c27ea7int, 0x16026bb84968f7739d7f66082int, 0x276da898f4fd0cdec34ce7947int);
    let e = lemma_chain_multiply(p, g, e, 0x276da898f4fd0cdec34ce7947int, 0x1994d2bb61e2efc0264185f8aint, 0x2b69cd655769b8c3ca6f58250int);
    let e = lemma_chain_square(p, g, e, 0x2b69cd655769b8c3ca6f58250int, 0x2496875f8eee69653d1518d36int, 0x263712e279221baa686d48492int);
    let e = lemma_chain_square(p, g, e, 0x263712e279221baa686d48492int, 0x1c59c88246f424d600a314734int, 0x1ded0f9885fdfb5c343a7fa00int);
    let e = lemma_chain_square(p, g, e, 0x1ded0f9885fdfb5c343a7fa00int, 0x1162baab4500bb1f9b4841bb9int, 0x10e7077818129bdaca0f7753int);
    let e = lemma_chain_square(p, g, e, 0x10e7077818129bdaca0f7753int, 0x58bd1aa0c5da23c1a050d5int, 0x9a3bd741fb3f6c20dc826af0int);
    let e = lemma_chain_multiply(p, g, e, 0x9a3bd741fb3f6c20dc826af0int, 0x6411573eb753b049aa7c9797int, 0x5e46bb00294058f49e29403dint);
    let e = lemma_chain_square(p, g, e, 0x5e46bb00294058f49e29403dint, 0xac8b1a565d232eb521b4928int, 0x31b9a1c92ec6ce0bb5a998a41int);
}

/// A power of a power of the root 2 modulo 0x3383051b79bb31af491829695: the steps from the exponent
/// 0xcf9ad105162
/// to the exponent
/// 0x19f35a20a2c73c47.
proof fn lemma_power_255074062430788457494141376149_11_part_2(p: int, g: int)
    requires
        p == 0x3383051b79bb31af491829695int,
        g == 0x216bd04ae457e7f83eb1fca4eint,
        pow_mod(g, 0xcf9ad105162, p) == 0x31b9a1c92ec6ce0bb5a998a41int,
    ensures
        pow_mod(g, 0x19f35a20a2c73c47, p) == 0x196293776ce86e150c8fa5d69int,
{
    let e: nat = 0xcf9ad105162;
    let e = lemma_chain_multiply(p, g, e, 0x31b9a1c92ec6ce0bb5a998a41int, 0x20430ec6bfa0be0b918f8e0dfint, 0x17ca5196b75cd56ad4de2de03int);
    let e = lemma_chain_square(p, g, e, 0x17ca5196b75cd56ad4de2de03int, 0xafcc3b81391a5b775aef4ee9int, 0x1a59ffee92337919c5afdc06cint);
    let e = lemma_chain_multiply(p, g, e, 0x1a59ffee92337919c5afdc06cint, 0x1118d7d1d1491ef9017f59de2int, 0x1f524de183d8a279a58fe885eint);
    let e = lemma_chain_square(p, g, e, 0x1f524de183d8a279a58fe885eint, 0x130b7dcd976aa25c995bc6e68int, 0x250cd8a02692f0481fafecffcint);
    let e = lemma_chain_square(p, g, e, 0x250cd8a02692f0481fafecffcint, 0x1aa608e03e128a1b926daabdcint, 0x23d842fe480c7ce36f1589104int);
    let e = lemma_chain_square(p, g, e, 0x23d842fe480c7ce36f1589104int, 0x18f15a6468c2289bd4870c30eint, 0x29db6e59861766caa55ddcceaint);
    let e = lemma_chain_multiply(p, g, e, 0x29db6e59861766caa55ddcceaint, 0x1b283b91a20cef56769c7c7a9int, 0xafd45668f710b2920e84d7efint);
    let e = lemma_chain_square(p, g, e, 0xafd45668f710b2920e84d7efint, 0x2582c4e6120a5e2b9f418e02int, 0x3309eccea6da287d42f3a7df7int);
    let e = lemma_chain_multiply(p, g, e, 0x3309eccea6da287d42f3a7df7int, 0x211d3f1f0db11158cff301c88int, 0x295e76e11e92e37384c57fc1aint);
    let e = lemma_chain_square(p, g, e, 0x295e76e11e92e37384c57fc1aint, 0x21392d4030fcf677eabb94ab3int, 0xcac9294116a0d5f0eb6bd675int);
    let e = lemma_chain_multiply(p, g, e, 0xcac9294116a0d5f0eb6bd675int, 0x83918df9e767018bdbbb8c7cint, 0xc72d635a18316acfd5cd3d7aint);
    let e = lemma_chain_square(p, g, e, 0xc72d635a18316acfd5cd3d7aint, 0x30225558780ea72f5867d316int, 0xe2563874edb3738896de9e56int);
    let e = lemma_chain_multiply(p, g, e, 0xe2563874edb3738896de9e56int, 0x92d93e1eda1b93377af68c97int, 0x185edfd72e5aface1cb9fcc51int);
    let e = lemma_chain_square(p, g, e, 0x185edfd72e5aface1cb9fcc51int, 0xb87a81214a327a7a58fd9fd6int, 0x2aa04b15361deea841dbdc613int);
    let e = lemma_chain_square(p, g, e, 0x2aa04b15361deea841dbdc613int, 0x2345f37942efacce651cdc20bint, 0xf3f27df8a612f496e450302int);
    let e = lemma_chain_square(p, g, e, 0xf3f27df8a612f496e450302int, 0x48346368d6a5990536096aint, 0x91c74cdc1447cb68d3517552int);
    let e = lemma_chain_square(p, g, e, 0x91c74cdc1447cb68d3517552int, 0x19c8db719d93f68168a852c8int, 0xee91ec89bdeec04ec39eafdcint);
    let e = lemma_chain_multiply(p, g, e, 0xee91ec89bdeec04ec39eafdcint, 0x9ac91c146b7730a22ed536fdint, 0x87f0022ba8dd3e2fa6f5edc7int);
    let e = lemma_chain_square(p, g, e, 0x87f0022ba8dd3e2fa6f5edc7int, 0x166bbce079ef2d38cc0d22c1int, 0x31b25e4115ad42cc3a2bbc05cint);
    let e = lemma_chain_square(p, g, e, 0x31b25e4115ad42cc3a2bbc05cint, 0x2ff216b2dde3f73a92c881484int, 0x31d055b87850ebd3730b0d83cint);
    let e = lemma_chain_square(p, g, e, 0x31d055b87850ebd3730b0d83cint, 0x302bfa72a2c686f823d3ac2f1int, 0x2a5211d9716d66e64f856a1cbint);
    let e = lemma_chain_square(p, g, e, 0x2a5211d9716d66e64f856a1cbint, 0x22c4f46522c941f7975eadb5cint, 0x1a7b959d3f3710166abb3626dint);
    let e = lemma_chain_multiply(p, g, e, 0x1a7b959d3f3710166abb3626dint, 0x112ea20b7bbc01a3f91ab3e24int, 0x5171446ac92df7cbc528bc42int);
    let e = lemma_chain_square(p, g, e, 0x5171446ac92df7cbc528bc42int, 0x80c39f4fba33e206dc068d1int, 0x1ab2cc3adb2b5a36eb987895fint);
    let e = lemma_chain_multiply(p, g, e, 0x1ab2cc3adb2b5a36eb987895fint, 0x115274a9fb71154e3412e788cint, 0xd98d5a132bb55f7ba36b9f76int);
    let e = lemma_chain_square(p, g, e, 0xd98d5a132bb55f7ba36b9f76int, 0x396cc4fad0bd2261cf4e9c23int, 0xa84632a956608b961ef46805int);
    let e = lemma_chain_multiply(p, g, e, 0xa84632a956608b961ef46805int, 0x6d2d614fa627ee882518b769int, 0x196293776ce86e150c8fa5d69int);
}

/// A power of a power of the root 2 modulo 0x3383051b79bb31af491829695.
proof fn lemma_power_255074062430788457494141376149_11()
    ensures
        pow_mod(0x216bd04ae457e7f83eb1fca4eint, 0x19f35a20a2c73c47, 0x3383051b79bb31af491829695int) == 0x196293776ce86e150c8fa5d69int,
{
    let p = 0x3383051b79bb31af491829695int;
    let g = 0x216bd04ae457e7f83eb1fca4eint;
    lemma_chain_start(p, g);
    lemma_power_255074062430788457494141376149_11_part_1(p, g);
    lemma_power_255074062430788457494141376149_11_part_2(p, g);
}

/// A power of a power of the root 2 modulo 0x3383051b79bb31af491829695.
proof fn lemma_power_255074062430788457494141376149_12()
    ensures
        pow_mod(0x3383051b79bb31af491829694int, 2, 0x3383051b79bb31af491829695int) == 1,
{
    let p = 0x3383051b79bb31af491829695int;
    let g = 0x3383051b79bb31af491829694int;
    lemma_chain_start(p, g);
    let e: nat = 0;
    let e = lemma_chain_square(p, g, e, 1, 0, 1);
    let e = lemma_chain_multiply(p, g, e, 1, 0, 0x3383051b79bb31af491829694int);
    let e = lemma_chain_square(p, g, e, 0x3383051b79bb31af491829694int, 0x3383051b79bb31af491829693int, 1);
}

/// 2 is a primitive root modulo 0x3383051b79bb31af491829695.
pub proof fn lemma_root_255074062430788457494141376149()
    ensures
        is_primitive_root(2, 0x3383051b79bb31af491829695int),
{
    let p = 0x3383051b79bb31af491829695int;
    let g = 2;
    lemma_power_255074062430788457494141376149_1();
    lemma_power_255074062430788457494141376149_2();
    lemma_chain_rebase(p, g, 2, 4, 0x22fa93ab9d68acaf737nat, 0xfd0bc977e9e1c39a7349beb4int);
    lemma_power_255074062430788457494141376149_3();
    lemma_chain_rebase(p, g, 0x45f527573ad1595ee6enat, 0xfd0bc977e9e1c39a7349beb4int, 0x137, 0xa6d06e22ba76ccab68701cddint);
    lemma_power_255074062430788457494141376149_4();
    lemma_chain_rebase(p, g, 0x54fcd2caf87453924a7a2nat, 0xa6d06e22ba76ccab68701cddint, 0x4d95, 0x3383051b79bb31af491829694int);
    lemma_power_255074062430788457494141376149_5();
    lemma_chain_rebase(p, g, 0x54fcd2caf87453924a7a2nat, 0xa6d06e22ba76ccab68701cddint, 2, 0x260b434682ae75b51417ff3bcint);
    lemma_power_255074062430788457494141376149_6();
    lemma_chain_rebase(p, g, 0x45f527573ad1595ee6enat, 0xfd0bc977e9e1c39a7349beb4int, 0x9b2a, 0x2cb3b6a6b1c5f1e40347bef87int);
    lemma_power_255074062430788457494141376149_7();
    lemma_chain_rebase(p, g, 2, 4, 0xbc8006, 0x216bd04ae457e7f83eb1fca4eint);
    lemma_power_255074062430788457494141376149_8();
    lemma_chain_rebase(p, g, 0x179000c, 0x216bd04ae457e7f83eb1fca4eint, 0x1591, 0x124e45ec48a23e0305a6e76efint);
    lemma_power_255074062430788457494141376149_9();
    lemma_chain_rebase(p, g, 0x1fc28a02cc, 0x124e45ec48a23e0305a6e76efint, 0x8a673603642696d, 0x90c2e3178cf4e22127986632int);
    lemma_power_255074062430788457494141376149_10();
    lemma_chain_rebase(p, g, 0x1fc28a02cc, 0x124e45ec48a23e0305a6e76efint, 3, 0x1ea1a4a72ac7c721272b7fb4eint);
    lemma_power_255074062430788457494141376149_11();
    lemma_chain_rebase(p, g, 0x179000c, 0x216bd04ae457e7f83eb1fca4eint, 0x19f35a20a2c73c47, 0x196293776ce86e150c8fa5d69int);
    lemma_power_255074062430788457494141376149_12();
    lemma_chain_rebase(p, g, 0x19c1828dbcdd98d7a48c14b4anat, 0x3383051b79bb31af491829694int, 2, 1);
    lemma_two_is_prime();
    lemma_prime_3();
    lemma_prime_311();
    lemma_prime_5521();
    lemma_prime_19861();
    lemma_prime_623312455501769069();
    assert forall|m: int| m >= 2 && #[trigger] (0x3383051b79bb31af491829694int % m) == 0 implies exists|f: int| #[trigger]
        refutes(2, 0x3383051b79bb31af491829694int, 0x3383051b79bb31af491829695int, m, f) by {
        lemma_euclid(m, 2, 0x19c1828dbcdd98d7a48c14b4aint);
        if m % 2 == 0 {
            assert(refutes(2, 0x3383051b79bb31af491829694int, 0x3383051b79bb31af491829695int, m, 2));
        } else {
            lemma_euclid(m, 2, 0xce0c146de6ecc6bd2460a5a5int);
            lemma_euclid(m, 3, 0x44aeb179f7a4423f0c203737int);
            if m % 3 == 0 {
                assert(refutes(2, 0x3383051b79bb31af491829694int, 0x3383051b79bb31af491829695int, m, 3));
            } else {
                lemma_euclid(m, 0x137, 0x388936b85be5df46d47a01int);
                if m % 0x137 == 0 {
                    assert(refutes(2, 0x3383051b79bb31af491829694int, 0x3383051b79bb31af491829695int, m, 0x137));
                } else {
                    lemma_euclid(m, 0x1591, 0x29f199517518e5d2571int);
                    if m % 0x1591 == 0 {
                        assert(refutes(2, 0x3383051b79bb31af491829694int, 0x3383051b79bb31af491829695int, m, 0x1591));
                    } else {
                        lemma_euclid(m, 0x4d95, 0x8a673603642696d);
                        if m % 0x4d95 == 0 {
                            assert(refutes(2, 0x3383051b79bb31af491829694int, 0x3383051b79bb31af491829695int, m, 0x4d95));
                        } else {
                            lemma_euclid(m, 0x8a673603642696d, 1);
                            if m % 0x8a673603642696d == 0 {
                                assert(refutes(2, 0x3383051b79bb31af491829694int, 0x3383051b79bb31af491829695int, m, 0x8a673603642696d));
                            } else {
                                lemma_small_mod(1, m as nat);
                            }
                        }
                    }
                }
            }
        }
    }
    lemma_lucas(0x3383051b79bb31af491829695int, 0x3383051b79bb31af491829694int, 2);
}

/// 0x3383051b79bb31af491829695 is prime.
pub proof fn lemma_prime_255074062430788457494141376149()
    ensures
        is_prime(0x3383051b79bb31af491829695int),
{
    lemma_root_255074062430788457494141376149();
    lemma_root_gives_prime(2, 0x3383051b79bb31af491829695int);
}

} // verus!
