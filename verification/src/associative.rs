//! The addition law is associative: the polynomial identities behind
//! `(P1 + P2) + P3 = P1 + (P2 + P3)`, checked monomial by monomial.
use vstd::prelude::*;
use crate::group::{curve_defect, int_e, int_extend, int_f, int_g, int_h, int_sum};
use crate::monomial::{Vars, mono, lemma_mono_mul, lemma_mono_vars};

verus! {

/// The product of the coordinates of the first point.
proof fn lemma_associative_product_1(v: Vars, p: int, r: int)
    requires
        p == mono(v, 1, 0, 0, 0, 0, 0, 0),
        r == mono(v, 0, 1, 0, 0, 0, 0, 0),
    ensures
        p * r == mono(v, 1, 1, 0, 0, 0, 0, 0),
{
    let m1_0_0_0_0_0_0 = mono(v, 1, 0, 0, 0, 0, 0, 0);
    let m0_1_0_0_0_0_0 = mono(v, 0, 1, 0, 0, 0, 0, 0);
    let m1_1_0_0_0_0_0 = mono(v, 1, 1, 0, 0, 0, 0, 0);
    lemma_mono_mul(v, 1, 0, 0, 0, 0, 0, 0, 0, 1, 0, 0, 0, 0, 0);
    let row0 = m1_0_0_0_0_0_0 * r;
    assert(row0 == m1_1_0_0_0_0_0) by (nonlinear_arith)
        requires
            row0 == m1_0_0_0_0_0_0 * r,
            r == m0_1_0_0_0_0_0,
            m1_0_0_0_0_0_0 * m0_1_0_0_0_0_0 == m1_1_0_0_0_0_0,
    ;
    assert(p * r == row0) by (nonlinear_arith)
        requires
            p == m1_0_0_0_0_0_0,
            row0 == m1_0_0_0_0_0_0 * r,
    ;
}

/// The product of the coordinates of the second point.
proof fn lemma_associative_product_2(v: Vars, p: int, r: int)
    requires
        p == mono(v, 0, 0, 1, 0, 0, 0, 0),
        r == mono(v, 0, 0, 0, 1, 0, 0, 0),
    ensures
        p * r == mono(v, 0, 0, 1, 1, 0, 0, 0),
{
    let m0_0_1_0_0_0_0 = mono(v, 0, 0, 1, 0, 0, 0, 0);
    let m0_0_0_1_0_0_0 = mono(v, 0, 0, 0, 1, 0, 0, 0);
    let m0_0_1_1_0_0_0 = mono(v, 0, 0, 1, 1, 0, 0, 0);
    lemma_mono_mul(v, 0, 0, 1, 0, 0, 0, 0, 0, 0, 0, 1, 0, 0, 0);
    let row0 = m0_0_1_0_0_0_0 * r;
    assert(row0 == m0_0_1_1_0_0_0) by (nonlinear_arith)
        requires
            row0 == m0_0_1_0_0_0_0 * r,
            r == m0_0_0_1_0_0_0,
            m0_0_1_0_0_0_0 * m0_0_0_1_0_0_0 == m0_0_1_1_0_0_0,
    ;
    assert(p * r == row0) by (nonlinear_arith)
        requires
            p == m0_0_1_0_0_0_0,
            row0 == m0_0_1_0_0_0_0 * r,
    ;
}

/// The product of the coordinates of the third point.
proof fn lemma_associative_product_3(v: Vars, p: int, r: int)
    requires
        p == mono(v, 0, 0, 0, 0, 1, 0, 0),
        r == mono(v, 0, 0, 0, 0, 0, 1, 0),
    ensures
        p * r == mono(v, 0, 0, 0, 0, 1, 1, 0),
{
    let m0_0_0_0_1_0_0 = mono(v, 0, 0, 0, 0, 1, 0, 0);
    let m0_0_0_0_0_1_0 = mono(v, 0, 0, 0, 0, 0, 1, 0);
    let m0_0_0_0_1_1_0 = mono(v, 0, 0, 0, 0, 1, 1, 0);
    lemma_mono_mul(v, 0, 0, 0, 0, 1, 0, 0, 0, 0, 0, 0, 0, 1, 0);
    let row0 = m0_0_0_0_1_0_0 * r;
    assert(row0 == m0_0_0_0_1_1_0) by (nonlinear_arith)
        requires
            row0 == m0_0_0_0_1_0_0 * r,
            r == m0_0_0_0_0_1_0,
            m0_0_0_0_1_0_0 * m0_0_0_0_0_1_0 == m0_0_0_0_1_1_0,
    ;
    assert(p * r == row0) by (nonlinear_arith)
        requires
            p == m0_0_0_0_1_0_0,
            row0 == m0_0_0_0_1_0_0 * r,
    ;
}

/// A part of the term E of the sum of the first two points.
proof fn lemma_associative_product_4(v: Vars, p: int, r: int)
    requires
        p == mono(v, 1, 0, 0, 0, 0, 0, 0),
        r == mono(v, 0, 0, 0, 1, 0, 0, 0),
    ensures
        p * r == mono(v, 1, 0, 0, 1, 0, 0, 0),
{
    let m1_0_0_0_0_0_0 = mono(v, 1, 0, 0, 0, 0, 0, 0);
    let m0_0_0_1_0_0_0 = mono(v, 0, 0, 0, 1, 0, 0, 0);
    let m1_0_0_1_0_0_0 = mono(v, 1, 0, 0, 1, 0, 0, 0);
    lemma_mono_mul(v, 1, 0, 0, 0, 0, 0, 0, 0, 0, 0, 1, 0, 0, 0);
    let row0 = m1_0_0_0_0_0_0 * r;
    assert(row0 == m1_0_0_1_0_0_0) by (nonlinear_arith)
        requires
            row0 == m1_0_0_0_0_0_0 * r,
            r == m0_0_0_1_0_0_0,
            m1_0_0_0_0_0_0 * m0_0_0_1_0_0_0 == m1_0_0_1_0_0_0,
    ;
    assert(p * r == row0) by (nonlinear_arith)
        requires
            p == m1_0_0_0_0_0_0,
            row0 == m1_0_0_0_0_0_0 * r,
    ;
}

/// A part of the term E of the sum of the first two points.
proof fn lemma_associative_product_5(v: Vars, p: int, r: int)
    requires
        p == mono(v, 0, 1, 0, 0, 0, 0, 0),
        r == mono(v, 0, 0, 1, 0, 0, 0, 0),
    ensures
        p * r == mono(v, 0, 1, 1, 0, 0, 0, 0),
{
    let m0_1_0_0_0_0_0 = mono(v, 0, 1, 0, 0, 0, 0, 0);
    let m0_0_1_0_0_0_0 = mono(v, 0, 0, 1, 0, 0, 0, 0);
    let m0_1_1_0_0_0_0 = mono(v, 0, 1, 1, 0, 0, 0, 0);
    lemma_mono_mul(v, 0, 1, 0, 0, 0, 0, 0, 0, 0, 1, 0, 0, 0, 0);
    let row0 = m0_1_0_0_0_0_0 * r;
    assert(row0 == m0_1_1_0_0_0_0) by (nonlinear_arith)
        requires
            row0 == m0_1_0_0_0_0_0 * r,
            r == m0_0_1_0_0_0_0,
            m0_1_0_0_0_0_0 * m0_0_1_0_0_0_0 == m0_1_1_0_0_0_0,
    ;
    assert(p * r == row0) by (nonlinear_arith)
        requires
            p == m0_1_0_0_0_0_0,
            row0 == m0_1_0_0_0_0_0 * r,
    ;
}

/// A part of the term H of the sum of the first two points.
proof fn lemma_associative_product_6(v: Vars, p: int, r: int)
    requires
        p == mono(v, 1, 0, 0, 0, 0, 0, 0),
        r == mono(v, 0, 0, 1, 0, 0, 0, 0),
    ensures
        p * r == mono(v, 1, 0, 1, 0, 0, 0, 0),
{
    let m1_0_0_0_0_0_0 = mono(v, 1, 0, 0, 0, 0, 0, 0);
    let m0_0_1_0_0_0_0 = mono(v, 0, 0, 1, 0, 0, 0, 0);
    let m1_0_1_0_0_0_0 = mono(v, 1, 0, 1, 0, 0, 0, 0);
    lemma_mono_mul(v, 1, 0, 0, 0, 0, 0, 0, 0, 0, 1, 0, 0, 0, 0);
    let row0 = m1_0_0_0_0_0_0 * r;
    assert(row0 == m1_0_1_0_0_0_0) by (nonlinear_arith)
        requires
            row0 == m1_0_0_0_0_0_0 * r,
            r == m0_0_1_0_0_0_0,
            m1_0_0_0_0_0_0 * m0_0_1_0_0_0_0 == m1_0_1_0_0_0_0,
    ;
    assert(p * r == row0) by (nonlinear_arith)
        requires
            p == m1_0_0_0_0_0_0,
            row0 == m1_0_0_0_0_0_0 * r,
    ;
}

/// A part of the term H of the sum of the first two points.
proof fn lemma_associative_product_7(v: Vars, p: int, r: int)
    requires
        p == mono(v, 0, 1, 0, 0, 0, 0, 0),
        r == mono(v, 0, 0, 0, 1, 0, 0, 0),
    ensures
        p * r == mono(v, 0, 1, 0, 1, 0, 0, 0),
{
    let m0_1_0_0_0_0_0 = mono(v, 0, 1, 0, 0, 0, 0, 0);
    let m0_0_0_1_0_0_0 = mono(v, 0, 0, 0, 1, 0, 0, 0);
    let m0_1_0_1_0_0_0 = mono(v, 0, 1, 0, 1, 0, 0, 0);
    lemma_mono_mul(v, 0, 1, 0, 0, 0, 0, 0, 0, 0, 0, 1, 0, 0, 0);
    let row0 = m0_1_0_0_0_0_0 * r;
    assert(row0 == m0_1_0_1_0_0_0) by (nonlinear_arith)
        requires
            row0 == m0_1_0_0_0_0_0 * r,
            r == m0_0_0_1_0_0_0,
            m0_1_0_0_0_0_0 * m0_0_0_1_0_0_0 == m0_1_0_1_0_0_0,
    ;
    assert(p * r == row0) by (nonlinear_arith)
        requires
            p == m0_1_0_0_0_0_0,
            row0 == m0_1_0_0_0_0_0 * r,
    ;
}

/// The product of the last coordinates in the sum of the first two points.
proof fn lemma_associative_product_8(v: Vars, p: int, r: int)
    requires
        p == mono(v, 0, 0, 0, 0, 0, 0, 0),
        r == mono(v, 0, 0, 0, 0, 0, 0, 0),
    ensures
        p * r == mono(v, 0, 0, 0, 0, 0, 0, 0),
{
    let m0_0_0_0_0_0_0 = mono(v, 0, 0, 0, 0, 0, 0, 0);
    lemma_mono_mul(v, 0, 0, 0, 0, 0, 0, 0, 0, 0, 0, 0, 0, 0, 0);
    let row0 = m0_0_0_0_0_0_0 * r;
    assert(row0 == m0_0_0_0_0_0_0) by (nonlinear_arith)
        requires
            row0 == m0_0_0_0_0_0_0 * r,
            r == m0_0_0_0_0_0_0,
            m0_0_0_0_0_0_0 * m0_0_0_0_0_0_0 == m0_0_0_0_0_0_0,
    ;
    assert(p * r == row0) by (nonlinear_arith)
        requires
            p == m0_0_0_0_0_0_0,
            row0 == m0_0_0_0_0_0_0 * r,
    ;
}

/// The product of the third coordinates in the sum of the first two points.
proof fn lemma_associative_product_9(v: Vars, p: int, r: int)
    requires
        p == mono(v, 1, 1, 0, 0, 0, 0, 0),
        r == mono(v, 0, 0, 1, 1, 0, 0, 0),
    ensures
        p * r == mono(v, 1, 1, 1, 1, 0, 0, 0),
{
    let m1_1_0_0_0_0_0 = mono(v, 1, 1, 0, 0, 0, 0, 0);
    let m0_0_1_1_0_0_0 = mono(v, 0, 0, 1, 1, 0, 0, 0);
    let m1_1_1_1_0_0_0 = mono(v, 1, 1, 1, 1, 0, 0, 0);
    lemma_mono_mul(v, 1, 1, 0, 0, 0, 0, 0, 0, 0, 1, 1, 0, 0, 0);
    let row0 = m1_1_0_0_0_0_0 * r;
    assert(row0 == m1_1_1_1_0_0_0) by (nonlinear_arith)
        requires
            row0 == m1_1_0_0_0_0_0 * r,
            r == m0_0_1_1_0_0_0,
            m1_1_0_0_0_0_0 * m0_0_1_1_0_0_0 == m1_1_1_1_0_0_0,
    ;
    assert(p * r == row0) by (nonlinear_arith)
        requires
            p == m1_1_0_0_0_0_0,
            row0 == m1_1_0_0_0_0_0 * r,
    ;
}

/// The curve constant times the third coordinates in the sum of the first two points.
proof fn lemma_associative_product_10(v: Vars, p: int, r: int)
    requires
        p == mono(v, 0, 0, 0, 0, 0, 0, 1),
        r == mono(v, 1, 1, 1, 1, 0, 0, 0),
    ensures
        p * r == mono(v, 1, 1, 1, 1, 0, 0, 1),
{
    let m0_0_0_0_0_0_1 = mono(v, 0, 0, 0, 0, 0, 0, 1);
    let m1_1_1_1_0_0_0 = mono(v, 1, 1, 1, 1, 0, 0, 0);
    let m1_1_1_1_0_0_1 = mono(v, 1, 1, 1, 1, 0, 0, 1);
    lemma_mono_mul(v, 0, 0, 0, 0, 0, 0, 1, 1, 1, 1, 1, 0, 0, 0);
    let row0 = m0_0_0_0_0_0_1 * r;
    assert(row0 == m1_1_1_1_0_0_1) by (nonlinear_arith)
        requires
            row0 == m0_0_0_0_0_0_1 * r,
            r == m1_1_1_1_0_0_0,
            m0_0_0_0_0_0_1 * m1_1_1_1_0_0_0 == m1_1_1_1_0_0_1,
    ;
    assert(p * r == row0) by (nonlinear_arith)
        requires
            p == m0_0_0_0_0_0_1,
            row0 == m0_0_0_0_0_0_1 * r,
    ;
}

/// The first coordinate of the sum of the first two points.
proof fn lemma_associative_product_11(v: Vars, p: int, r: int)
    requires
        p == mono(v, 0, 1, 1, 0, 0, 0, 0) + mono(v, 1, 0, 0, 1, 0, 0, 0),
        r == mono(v, 0, 0, 0, 0, 0, 0, 0) - mono(v, 1, 1, 1, 1, 0, 0, 1),
    ensures
        p * r == mono(v, 0, 1, 1, 0, 0, 0, 0) + mono(v, 1, 0, 0, 1, 0, 0, 0) - mono(v, 1, 2, 2, 1, 0,
            0, 1) - mono(v, 2, 1, 1, 2, 0, 0, 1),
{
    let m0_1_1_0_0_0_0 = mono(v, 0, 1, 1, 0, 0, 0, 0);
    let m1_0_0_1_0_0_0 = mono(v, 1, 0, 0, 1, 0, 0, 0);
    let m0_0_0_0_0_0_0 = mono(v, 0, 0, 0, 0, 0, 0, 0);
    let m1_1_1_1_0_0_1 = mono(v, 1, 1, 1, 1, 0, 0, 1);
    let m1_2_2_1_0_0_1 = mono(v, 1, 2, 2, 1, 0, 0, 1);
    let m2_1_1_2_0_0_1 = mono(v, 2, 1, 1, 2, 0, 0, 1);
    lemma_mono_mul(v, 0, 1, 1, 0, 0, 0, 0, 0, 0, 0, 0, 0, 0, 0);
    lemma_mono_mul(v, 0, 1, 1, 0, 0, 0, 0, 1, 1, 1, 1, 0, 0, 1);
    lemma_mono_mul(v, 1, 0, 0, 1, 0, 0, 0, 0, 0, 0, 0, 0, 0, 0);
    lemma_mono_mul(v, 1, 0, 0, 1, 0, 0, 0, 1, 1, 1, 1, 0, 0, 1);
    let row0 = m0_1_1_0_0_0_0 * r;
    assert(row0 == m0_1_1_0_0_0_0 - m1_2_2_1_0_0_1) by (nonlinear_arith)
        requires
            row0 == m0_1_1_0_0_0_0 * r,
            r == m0_0_0_0_0_0_0 - m1_1_1_1_0_0_1,
            m0_1_1_0_0_0_0 * m0_0_0_0_0_0_0 == m0_1_1_0_0_0_0,
            m0_1_1_0_0_0_0 * m1_1_1_1_0_0_1 == m1_2_2_1_0_0_1,
    ;
    let row1 = m1_0_0_1_0_0_0 * r;
    assert(row1 == m1_0_0_1_0_0_0 - m2_1_1_2_0_0_1) by (nonlinear_arith)
        requires
            row1 == m1_0_0_1_0_0_0 * r,
            r == m0_0_0_0_0_0_0 - m1_1_1_1_0_0_1,
            m1_0_0_1_0_0_0 * m0_0_0_0_0_0_0 == m1_0_0_1_0_0_0,
            m1_0_0_1_0_0_0 * m1_1_1_1_0_0_1 == m2_1_1_2_0_0_1,
    ;
    assert(p * r == row0 + row1) by (nonlinear_arith)
        requires
            p == m0_1_1_0_0_0_0 + m1_0_0_1_0_0_0,
            row0 == m0_1_1_0_0_0_0 * r,
            row1 == m1_0_0_1_0_0_0 * r,
    ;
}

/// The second coordinate of the sum of the first two points.
proof fn lemma_associative_product_12(v: Vars, p: int, r: int)
    requires
        p == mono(v, 0, 0, 0, 0, 0, 0, 0) + mono(v, 1, 1, 1, 1, 0, 0, 1),
        r == mono(v, 0, 1, 0, 1, 0, 0, 0) + mono(v, 1, 0, 1, 0, 0, 0, 0),
    ensures
        p * r == mono(v, 0, 1, 0, 1, 0, 0, 0) + mono(v, 1, 0, 1, 0, 0, 0, 0) + mono(v, 1, 2, 1, 2, 0,
            0, 1) + mono(v, 2, 1, 2, 1, 0, 0, 1),
{
    let m0_0_0_0_0_0_0 = mono(v, 0, 0, 0, 0, 0, 0, 0);
    let m1_1_1_1_0_0_1 = mono(v, 1, 1, 1, 1, 0, 0, 1);
    let m0_1_0_1_0_0_0 = mono(v, 0, 1, 0, 1, 0, 0, 0);
    let m1_0_1_0_0_0_0 = mono(v, 1, 0, 1, 0, 0, 0, 0);
    let m1_2_1_2_0_0_1 = mono(v, 1, 2, 1, 2, 0, 0, 1);
    let m2_1_2_1_0_0_1 = mono(v, 2, 1, 2, 1, 0, 0, 1);
    lemma_mono_mul(v, 0, 0, 0, 0, 0, 0, 0, 0, 1, 0, 1, 0, 0, 0);
    lemma_mono_mul(v, 0, 0, 0, 0, 0, 0, 0, 1, 0, 1, 0, 0, 0, 0);
    lemma_mono_mul(v, 1, 1, 1, 1, 0, 0, 1, 0, 1, 0, 1, 0, 0, 0);
    lemma_mono_mul(v, 1, 1, 1, 1, 0, 0, 1, 1, 0, 1, 0, 0, 0, 0);
    let row0 = m0_0_0_0_0_0_0 * r;
    assert(row0 == m0_1_0_1_0_0_0 + m1_0_1_0_0_0_0) by (nonlinear_arith)
        requires
            row0 == m0_0_0_0_0_0_0 * r,
            r == m0_1_0_1_0_0_0 + m1_0_1_0_0_0_0,
            m0_0_0_0_0_0_0 * m0_1_0_1_0_0_0 == m0_1_0_1_0_0_0,
            m0_0_0_0_0_0_0 * m1_0_1_0_0_0_0 == m1_0_1_0_0_0_0,
    ;
    let row1 = m1_1_1_1_0_0_1 * r;
    assert(row1 == m1_2_1_2_0_0_1 + m2_1_2_1_0_0_1) by (nonlinear_arith)
        requires
            row1 == m1_1_1_1_0_0_1 * r,
            r == m0_1_0_1_0_0_0 + m1_0_1_0_0_0_0,
            m1_1_1_1_0_0_1 * m0_1_0_1_0_0_0 == m1_2_1_2_0_0_1,
            m1_1_1_1_0_0_1 * m1_0_1_0_0_0_0 == m2_1_2_1_0_0_1,
    ;
    assert(p * r == row0 + row1) by (nonlinear_arith)
        requires
            p == m0_0_0_0_0_0_0 + m1_1_1_1_0_0_1,
            row0 == m0_0_0_0_0_0_0 * r,
            row1 == m1_1_1_1_0_0_1 * r,
    ;
}

/// The third coordinate of the sum of the first two points.
proof fn lemma_associative_product_13(v: Vars, p: int, r: int)
    requires
        p == mono(v, 0, 1, 1, 0, 0, 0, 0) + mono(v, 1, 0, 0, 1, 0, 0, 0),
        r == mono(v, 0, 1, 0, 1, 0, 0, 0) + mono(v, 1, 0, 1, 0, 0, 0, 0),
    ensures
        p * r == mono(v, 0, 2, 1, 1, 0, 0, 0) + mono(v, 1, 1, 0, 2, 0, 0, 0) + mono(v, 1, 1, 2, 0, 0,
            0, 0) + mono(v, 2, 0, 1, 1, 0, 0, 0),
{
    let m0_1_1_0_0_0_0 = mono(v, 0, 1, 1, 0, 0, 0, 0);
    let m1_0_0_1_0_0_0 = mono(v, 1, 0, 0, 1, 0, 0, 0);
    let m0_1_0_1_0_0_0 = mono(v, 0, 1, 0, 1, 0, 0, 0);
    let m1_0_1_0_0_0_0 = mono(v, 1, 0, 1, 0, 0, 0, 0);
    let m0_2_1_1_0_0_0 = mono(v, 0, 2, 1, 1, 0, 0, 0);
    let m1_1_2_0_0_0_0 = mono(v, 1, 1, 2, 0, 0, 0, 0);
    let m1_1_0_2_0_0_0 = mono(v, 1, 1, 0, 2, 0, 0, 0);
    let m2_0_1_1_0_0_0 = mono(v, 2, 0, 1, 1, 0, 0, 0);
    lemma_mono_mul(v, 0, 1, 1, 0, 0, 0, 0, 0, 1, 0, 1, 0, 0, 0);
    lemma_mono_mul(v, 0, 1, 1, 0, 0, 0, 0, 1, 0, 1, 0, 0, 0, 0);
    lemma_mono_mul(v, 1, 0, 0, 1, 0, 0, 0, 0, 1, 0, 1, 0, 0, 0);
    lemma_mono_mul(v, 1, 0, 0, 1, 0, 0, 0, 1, 0, 1, 0, 0, 0, 0);
    let row0 = m0_1_1_0_0_0_0 * r;
    assert(row0 == m0_2_1_1_0_0_0 + m1_1_2_0_0_0_0) by (nonlinear_arith)
        requires
            row0 == m0_1_1_0_0_0_0 * r,
            r == m0_1_0_1_0_0_0 + m1_0_1_0_0_0_0,
            m0_1_1_0_0_0_0 * m0_1_0_1_0_0_0 == m0_2_1_1_0_0_0,
            m0_1_1_0_0_0_0 * m1_0_1_0_0_0_0 == m1_1_2_0_0_0_0,
    ;
    let row1 = m1_0_0_1_0_0_0 * r;
    assert(row1 == m1_1_0_2_0_0_0 + m2_0_1_1_0_0_0) by (nonlinear_arith)
        requires
            row1 == m1_0_0_1_0_0_0 * r,
            r == m0_1_0_1_0_0_0 + m1_0_1_0_0_0_0,
            m1_0_0_1_0_0_0 * m0_1_0_1_0_0_0 == m1_1_0_2_0_0_0,
            m1_0_0_1_0_0_0 * m1_0_1_0_0_0_0 == m2_0_1_1_0_0_0,
    ;
    assert(p * r == row0 + row1) by (nonlinear_arith)
        requires
            p == m0_1_1_0_0_0_0 + m1_0_0_1_0_0_0,
            row0 == m0_1_1_0_0_0_0 * r,
            row1 == m1_0_0_1_0_0_0 * r,
    ;
}

/// The last coordinate of the sum of the first two points.
proof fn lemma_associative_product_14(v: Vars, p: int, r: int)
    requires
        p == mono(v, 0, 0, 0, 0, 0, 0, 0) - mono(v, 1, 1, 1, 1, 0, 0, 1),
        r == mono(v, 0, 0, 0, 0, 0, 0, 0) + mono(v, 1, 1, 1, 1, 0, 0, 1),
    ensures
        p * r == mono(v, 0, 0, 0, 0, 0, 0, 0) - mono(v, 2, 2, 2, 2, 0, 0, 2),
{
    let m0_0_0_0_0_0_0 = mono(v, 0, 0, 0, 0, 0, 0, 0);
    let m1_1_1_1_0_0_1 = mono(v, 1, 1, 1, 1, 0, 0, 1);
    let m2_2_2_2_0_0_2 = mono(v, 2, 2, 2, 2, 0, 0, 2);
    lemma_mono_mul(v, 0, 0, 0, 0, 0, 0, 0, 0, 0, 0, 0, 0, 0, 0);
    lemma_mono_mul(v, 0, 0, 0, 0, 0, 0, 0, 1, 1, 1, 1, 0, 0, 1);
    lemma_mono_mul(v, 1, 1, 1, 1, 0, 0, 1, 0, 0, 0, 0, 0, 0, 0);
    lemma_mono_mul(v, 1, 1, 1, 1, 0, 0, 1, 1, 1, 1, 1, 0, 0, 1);
    let row0 = m0_0_0_0_0_0_0 * r;
    assert(row0 == m0_0_0_0_0_0_0 + m1_1_1_1_0_0_1) by (nonlinear_arith)
        requires
            row0 == m0_0_0_0_0_0_0 * r,
            r == m0_0_0_0_0_0_0 + m1_1_1_1_0_0_1,
            m0_0_0_0_0_0_0 * m0_0_0_0_0_0_0 == m0_0_0_0_0_0_0,
            m0_0_0_0_0_0_0 * m1_1_1_1_0_0_1 == m1_1_1_1_0_0_1,
    ;
    let row1 = m1_1_1_1_0_0_1 * r;
    assert(row1 == m1_1_1_1_0_0_1 + m2_2_2_2_0_0_2) by (nonlinear_arith)
        requires
            row1 == m1_1_1_1_0_0_1 * r,
            r == m0_0_0_0_0_0_0 + m1_1_1_1_0_0_1,
            m1_1_1_1_0_0_1 * m0_0_0_0_0_0_0 == m1_1_1_1_0_0_1,
            m1_1_1_1_0_0_1 * m1_1_1_1_0_0_1 == m2_2_2_2_0_0_2,
    ;
    assert(p * r == row0 - row1) by (nonlinear_arith)
        requires
            p == m0_0_0_0_0_0_0 - m1_1_1_1_0_0_1,
            row0 == m0_0_0_0_0_0_0 * r,
            row1 == m1_1_1_1_0_0_1 * r,
    ;
}

/// A part of the term E of the sum of the last two points.
proof fn lemma_associative_product_15(v: Vars, p: int, r: int)
    requires
        p == mono(v, 0, 0, 1, 0, 0, 0, 0),
        r == mono(v, 0, 0, 0, 0, 0, 1, 0),
    ensures
        p * r == mono(v, 0, 0, 1, 0, 0, 1, 0),
{
    let m0_0_1_0_0_0_0 = mono(v, 0, 0, 1, 0, 0, 0, 0);
    let m0_0_0_0_0_1_0 = mono(v, 0, 0, 0, 0, 0, 1, 0);
    let m0_0_1_0_0_1_0 = mono(v, 0, 0, 1, 0, 0, 1, 0);
    lemma_mono_mul(v, 0, 0, 1, 0, 0, 0, 0, 0, 0, 0, 0, 0, 1, 0);
    let row0 = m0_0_1_0_0_0_0 * r;
    assert(row0 == m0_0_1_0_0_1_0) by (nonlinear_arith)
        requires
            row0 == m0_0_1_0_0_0_0 * r,
            r == m0_0_0_0_0_1_0,
            m0_0_1_0_0_0_0 * m0_0_0_0_0_1_0 == m0_0_1_0_0_1_0,
    ;
    assert(p * r == row0) by (nonlinear_arith)
        requires
            p == m0_0_1_0_0_0_0,
            row0 == m0_0_1_0_0_0_0 * r,
    ;
}

/// A part of the term E of the sum of the last two points.
proof fn lemma_associative_product_16(v: Vars, p: int, r: int)
    requires
        p == mono(v, 0, 0, 0, 1, 0, 0, 0),
        r == mono(v, 0, 0, 0, 0, 1, 0, 0),
    ensures
        p * r == mono(v, 0, 0, 0, 1, 1, 0, 0),
{
    let m0_0_0_1_0_0_0 = mono(v, 0, 0, 0, 1, 0, 0, 0);
    let m0_0_0_0_1_0_0 = mono(v, 0, 0, 0, 0, 1, 0, 0);
    let m0_0_0_1_1_0_0 = mono(v, 0, 0, 0, 1, 1, 0, 0);
    lemma_mono_mul(v, 0, 0, 0, 1, 0, 0, 0, 0, 0, 0, 0, 1, 0, 0);
    let row0 = m0_0_0_1_0_0_0 * r;
    assert(row0 == m0_0_0_1_1_0_0) by (nonlinear_arith)
        requires
            row0 == m0_0_0_1_0_0_0 * r,
            r == m0_0_0_0_1_0_0,
            m0_0_0_1_0_0_0 * m0_0_0_0_1_0_0 == m0_0_0_1_1_0_0,
    ;
    assert(p * r == row0) by (nonlinear_arith)
        requires
            p == m0_0_0_1_0_0_0,
            row0 == m0_0_0_1_0_0_0 * r,
    ;
}

/// A part of the term H of the sum of the last two points.
proof fn lemma_associative_product_17(v: Vars, p: int, r: int)
    requires
        p == mono(v, 0, 0, 1, 0, 0, 0, 0),
        r == mono(v, 0, 0, 0, 0, 1, 0, 0),
    ensures
        p * r == mono(v, 0, 0, 1, 0, 1, 0, 0),
{
    let m0_0_1_0_0_0_0 = mono(v, 0, 0, 1, 0, 0, 0, 0);
    let m0_0_0_0_1_0_0 = mono(v, 0, 0, 0, 0, 1, 0, 0);
    let m0_0_1_0_1_0_0 = mono(v, 0, 0, 1, 0, 1, 0, 0);
    lemma_mono_mul(v, 0, 0, 1, 0, 0, 0, 0, 0, 0, 0, 0, 1, 0, 0);
    let row0 = m0_0_1_0_0_0_0 * r;
    assert(row0 == m0_0_1_0_1_0_0) by (nonlinear_arith)
        requires
            row0 == m0_0_1_0_0_0_0 * r,
            r == m0_0_0_0_1_0_0,
            m0_0_1_0_0_0_0 * m0_0_0_0_1_0_0 == m0_0_1_0_1_0_0,
    ;
    assert(p * r == row0) by (nonlinear_arith)
        requires
            p == m0_0_1_0_0_0_0,
            row0 == m0_0_1_0_0_0_0 * r,
    ;
}

/// A part of the term H of the sum of the last two points.
proof fn lemma_associative_product_18(v: Vars, p: int, r: int)
    requires
        p == mono(v, 0, 0, 0, 1, 0, 0, 0),
        r == mono(v, 0, 0, 0, 0, 0, 1, 0),
    ensures
        p * r == mono(v, 0, 0, 0, 1, 0, 1, 0),
{
    let m0_0_0_1_0_0_0 = mono(v, 0, 0, 0, 1, 0, 0, 0);
    let m0_0_0_0_0_1_0 = mono(v, 0, 0, 0, 0, 0, 1, 0);
    let m0_0_0_1_0_1_0 = mono(v, 0, 0, 0, 1, 0, 1, 0);
    lemma_mono_mul(v, 0, 0, 0, 1, 0, 0, 0, 0, 0, 0, 0, 0, 1, 0);
    let row0 = m0_0_0_1_0_0_0 * r;
    assert(row0 == m0_0_0_1_0_1_0) by (nonlinear_arith)
        requires
            row0 == m0_0_0_1_0_0_0 * r,
            r == m0_0_0_0_0_1_0,
            m0_0_0_1_0_0_0 * m0_0_0_0_0_1_0 == m0_0_0_1_0_1_0,
    ;
    assert(p * r == row0) by (nonlinear_arith)
        requires
            p == m0_0_0_1_0_0_0,
            row0 == m0_0_0_1_0_0_0 * r,
    ;
}

/// The product of the third coordinates in the sum of the last two points.
proof fn lemma_associative_product_19(v: Vars, p: int, r: int)
    requires
        p == mono(v, 0, 0, 1, 1, 0, 0, 0),
        r == mono(v, 0, 0, 0, 0, 1, 1, 0),
    ensures
        p * r == mono(v, 0, 0, 1, 1, 1, 1, 0),
{
    let m0_0_1_1_0_0_0 = mono(v, 0, 0, 1, 1, 0, 0, 0);
    let m0_0_0_0_1_1_0 = mono(v, 0, 0, 0, 0, 1, 1, 0);
    let m0_0_1_1_1_1_0 = mono(v, 0, 0, 1, 1, 1, 1, 0);
    lemma_mono_mul(v, 0, 0, 1, 1, 0, 0, 0, 0, 0, 0, 0, 1, 1, 0);
    let row0 = m0_0_1_1_0_0_0 * r;
    assert(row0 == m0_0_1_1_1_1_0) by (nonlinear_arith)
        requires
            row0 == m0_0_1_1_0_0_0 * r,
            r == m0_0_0_0_1_1_0,
            m0_0_1_1_0_0_0 * m0_0_0_0_1_1_0 == m0_0_1_1_1_1_0,
    ;
    assert(p * r == row0) by (nonlinear_arith)
        requires
            p == m0_0_1_1_0_0_0,
            row0 == m0_0_1_1_0_0_0 * r,
    ;
}

/// The curve constant times the third coordinates in the sum of the last two points.
proof fn lemma_associative_product_20(v: Vars, p: int, r: int)
    requires
        p == mono(v, 0, 0, 0, 0, 0, 0, 1),
        r == mono(v, 0, 0, 1, 1, 1, 1, 0),
    ensures
        p * r == mono(v, 0, 0, 1, 1, 1, 1, 1),
{
    let m0_0_0_0_0_0_1 = mono(v, 0, 0, 0, 0, 0, 0, 1);
    let m0_0_1_1_1_1_0 = mono(v, 0, 0, 1, 1, 1, 1, 0);
    let m0_0_1_1_1_1_1 = mono(v, 0, 0, 1, 1, 1, 1, 1);
    lemma_mono_mul(v, 0, 0, 0, 0, 0, 0, 1, 0, 0, 1, 1, 1, 1, 0);
    let row0 = m0_0_0_0_0_0_1 * r;
    assert(row0 == m0_0_1_1_1_1_1) by (nonlinear_arith)
        requires
            row0 == m0_0_0_0_0_0_1 * r,
            r == m0_0_1_1_1_1_0,
            m0_0_0_0_0_0_1 * m0_0_1_1_1_1_0 == m0_0_1_1_1_1_1,
    ;
    assert(p * r == row0) by (nonlinear_arith)
        requires
            p == m0_0_0_0_0_0_1,
            row0 == m0_0_0_0_0_0_1 * r,
    ;
}

/// The first coordinate of the sum of the last two points.
proof fn lemma_associative_product_21(v: Vars, p: int, r: int)
    requires
        p == mono(v, 0, 0, 0, 1, 1, 0, 0) + mono(v, 0, 0, 1, 0, 0, 1, 0),
        r == mono(v, 0, 0, 0, 0, 0, 0, 0) - mono(v, 0, 0, 1, 1, 1, 1, 1),
    ensures
        p * r == mono(v, 0, 0, 0, 1, 1, 0, 0) + mono(v, 0, 0, 1, 0, 0, 1, 0) - mono(v, 0, 0, 1, 2, 2,
            1, 1) - mono(v, 0, 0, 2, 1, 1, 2, 1),
{
    let m0_0_0_1_1_0_0 = mono(v, 0, 0, 0, 1, 1, 0, 0);
    let m0_0_1_0_0_1_0 = mono(v, 0, 0, 1, 0, 0, 1, 0);
    let m0_0_0_0_0_0_0 = mono(v, 0, 0, 0, 0, 0, 0, 0);
    let m0_0_1_1_1_1_1 = mono(v, 0, 0, 1, 1, 1, 1, 1);
    let m0_0_1_2_2_1_1 = mono(v, 0, 0, 1, 2, 2, 1, 1);
    let m0_0_2_1_1_2_1 = mono(v, 0, 0, 2, 1, 1, 2, 1);
    lemma_mono_mul(v, 0, 0, 0, 1, 1, 0, 0, 0, 0, 0, 0, 0, 0, 0);
    lemma_mono_mul(v, 0, 0, 0, 1, 1, 0, 0, 0, 0, 1, 1, 1, 1, 1);
    lemma_mono_mul(v, 0, 0, 1, 0, 0, 1, 0, 0, 0, 0, 0, 0, 0, 0);
    lemma_mono_mul(v, 0, 0, 1, 0, 0, 1, 0, 0, 0, 1, 1, 1, 1, 1);
    let row0 = m0_0_0_1_1_0_0 * r;
    assert(row0 == m0_0_0_1_1_0_0 - m0_0_1_2_2_1_1) by (nonlinear_arith)
        requires
            row0 == m0_0_0_1_1_0_0 * r,
            r == m0_0_0_0_0_0_0 - m0_0_1_1_1_1_1,
            m0_0_0_1_1_0_0 * m0_0_0_0_0_0_0 == m0_0_0_1_1_0_0,
            m0_0_0_1_1_0_0 * m0_0_1_1_1_1_1 == m0_0_1_2_2_1_1,
    ;
    let row1 = m0_0_1_0_0_1_0 * r;
    assert(row1 == m0_0_1_0_0_1_0 - m0_0_2_1_1_2_1) by (nonlinear_arith)
        requires
            row1 == m0_0_1_0_0_1_0 * r,
            r == m0_0_0_0_0_0_0 - m0_0_1_1_1_1_1,
            m0_0_1_0_0_1_0 * m0_0_0_0_0_0_0 == m0_0_1_0_0_1_0,
            m0_0_1_0_0_1_0 * m0_0_1_1_1_1_1 == m0_0_2_1_1_2_1,
    ;
    assert(p * r == row0 + row1) by (nonlinear_arith)
        requires
            p == m0_0_0_1_1_0_0 + m0_0_1_0_0_1_0,
            row0 == m0_0_0_1_1_0_0 * r,
            row1 == m0_0_1_0_0_1_0 * r,
    ;
}

/// The second coordinate of the sum of the last two points.
proof fn lemma_associative_product_22(v: Vars, p: int, r: int)
    requires
        p == mono(v, 0, 0, 0, 0, 0, 0, 0) + mono(v, 0, 0, 1, 1, 1, 1, 1),
        r == mono(v, 0, 0, 0, 1, 0, 1, 0) + mono(v, 0, 0, 1, 0, 1, 0, 0),
    ensures
        p * r == mono(v, 0, 0, 0, 1, 0, 1, 0) + mono(v, 0, 0, 1, 0, 1, 0, 0) + mono(v, 0, 0, 1, 2, 1,
            2, 1) + mono(v, 0, 0, 2, 1, 2, 1, 1),
{
    let m0_0_0_0_0_0_0 = mono(v, 0, 0, 0, 0, 0, 0, 0);
    let m0_0_1_1_1_1_1 = mono(v, 0, 0, 1, 1, 1, 1, 1);
    let m0_0_0_1_0_1_0 = mono(v, 0, 0, 0, 1, 0, 1, 0);
    let m0_0_1_0_1_0_0 = mono(v, 0, 0, 1, 0, 1, 0, 0);
    let m0_0_1_2_1_2_1 = mono(v, 0, 0, 1, 2, 1, 2, 1);
    let m0_0_2_1_2_1_1 = mono(v, 0, 0, 2, 1, 2, 1, 1);
    lemma_mono_mul(v, 0, 0, 0, 0, 0, 0, 0, 0, 0, 0, 1, 0, 1, 0);
    lemma_mono_mul(v, 0, 0, 0, 0, 0, 0, 0, 0, 0, 1, 0, 1, 0, 0);
    lemma_mono_mul(v, 0, 0, 1, 1, 1, 1, 1, 0, 0, 0, 1, 0, 1, 0);
    lemma_mono_mul(v, 0, 0, 1, 1, 1, 1, 1, 0, 0, 1, 0, 1, 0, 0);
    let row0 = m0_0_0_0_0_0_0 * r;
    assert(row0 == m0_0_0_1_0_1_0 + m0_0_1_0_1_0_0) by (nonlinear_arith)
        requires
            row0 == m0_0_0_0_0_0_0 * r,
            r == m0_0_0_1_0_1_0 + m0_0_1_0_1_0_0,
            m0_0_0_0_0_0_0 * m0_0_0_1_0_1_0 == m0_0_0_1_0_1_0,
            m0_0_0_0_0_0_0 * m0_0_1_0_1_0_0 == m0_0_1_0_1_0_0,
    ;
    let row1 = m0_0_1_1_1_1_1 * r;
    assert(row1 == m0_0_1_2_1_2_1 + m0_0_2_1_2_1_1) by (nonlinear_arith)
        requires
            row1 == m0_0_1_1_1_1_1 * r,
            r == m0_0_0_1_0_1_0 + m0_0_1_0_1_0_0,
            m0_0_1_1_1_1_1 * m0_0_0_1_0_1_0 == m0_0_1_2_1_2_1,
            m0_0_1_1_1_1_1 * m0_0_1_0_1_0_0 == m0_0_2_1_2_1_1,
    ;
    assert(p * r == row0 + row1) by (nonlinear_arith)
        requires
            p == m0_0_0_0_0_0_0 + m0_0_1_1_1_1_1,
            row0 == m0_0_0_0_0_0_0 * r,
            row1 == m0_0_1_1_1_1_1 * r,
    ;
}

/// The third coordinate of the sum of the last two points.
proof fn lemma_associative_product_23(v: Vars, p: int, r: int)
    requires
        p == mono(v, 0, 0, 0, 1, 1, 0, 0) + mono(v, 0, 0, 1, 0, 0, 1, 0),
        r == mono(v, 0, 0, 0, 1, 0, 1, 0) + mono(v, 0, 0, 1, 0, 1, 0, 0),
    ensures
        p * r == mono(v, 0, 0, 0, 2, 1, 1, 0) + mono(v, 0, 0, 1, 1, 0, 2, 0) + mono(v, 0, 0, 1, 1, 2,
            0, 0) + mono(v, 0, 0, 2, 0, 1, 1, 0),
{
    let m0_0_0_1_1_0_0 = mono(v, 0, 0, 0, 1, 1, 0, 0);
    let m0_0_1_0_0_1_0 = mono(v, 0, 0, 1, 0, 0, 1, 0);
    let m0_0_0_1_0_1_0 = mono(v, 0, 0, 0, 1, 0, 1, 0);
    let m0_0_1_0_1_0_0 = mono(v, 0, 0, 1, 0, 1, 0, 0);
    let m0_0_0_2_1_1_0 = mono(v, 0, 0, 0, 2, 1, 1, 0);
    let m0_0_1_1_2_0_0 = mono(v, 0, 0, 1, 1, 2, 0, 0);
    let m0_0_1_1_0_2_0 = mono(v, 0, 0, 1, 1, 0, 2, 0);
    let m0_0_2_0_1_1_0 = mono(v, 0, 0, 2, 0, 1, 1, 0);
    lemma_mono_mul(v, 0, 0, 0, 1, 1, 0, 0, 0, 0, 0, 1, 0, 1, 0);
    lemma_mono_mul(v, 0, 0, 0, 1, 1, 0, 0, 0, 0, 1, 0, 1, 0, 0);
    lemma_mono_mul(v, 0, 0, 1, 0, 0, 1, 0, 0, 0, 0, 1, 0, 1, 0);
    lemma_mono_mul(v, 0, 0, 1, 0, 0, 1, 0, 0, 0, 1, 0, 1, 0, 0);
    let row0 = m0_0_0_1_1_0_0 * r;
    assert(row0 == m0_0_0_2_1_1_0 + m0_0_1_1_2_0_0) by (nonlinear_arith)
        requires
            row0 == m0_0_0_1_1_0_0 * r,
            r == m0_0_0_1_0_1_0 + m0_0_1_0_1_0_0,
            m0_0_0_1_1_0_0 * m0_0_0_1_0_1_0 == m0_0_0_2_1_1_0,
            m0_0_0_1_1_0_0 * m0_0_1_0_1_0_0 == m0_0_1_1_2_0_0,
    ;
    let row1 = m0_0_1_0_0_1_0 * r;
    assert(row1 == m0_0_1_1_0_2_0 + m0_0_2_0_1_1_0) by (nonlinear_arith)
        requires
            row1 == m0_0_1_0_0_1_0 * r,
            r == m0_0_0_1_0_1_0 + m0_0_1_0_1_0_0,
            m0_0_1_0_0_1_0 * m0_0_0_1_0_1_0 == m0_0_1_1_0_2_0,
            m0_0_1_0_0_1_0 * m0_0_1_0_1_0_0 == m0_0_2_0_1_1_0,
    ;
    assert(p * r == row0 + row1) by (nonlinear_arith)
        requires
            p == m0_0_0_1_1_0_0 + m0_0_1_0_0_1_0,
            row0 == m0_0_0_1_1_0_0 * r,
            row1 == m0_0_1_0_0_1_0 * r,
    ;
}

/// The last coordinate of the sum of the last two points.
proof fn lemma_associative_product_24(v: Vars, p: int, r: int)
    requires
        p == mono(v, 0, 0, 0, 0, 0, 0, 0) - mono(v, 0, 0, 1, 1, 1, 1, 1),
        r == mono(v, 0, 0, 0, 0, 0, 0, 0) + mono(v, 0, 0, 1, 1, 1, 1, 1),
    ensures
        p * r == mono(v, 0, 0, 0, 0, 0, 0, 0) - mono(v, 0, 0, 2, 2, 2, 2, 2),
{
    let m0_0_0_0_0_0_0 = mono(v, 0, 0, 0, 0, 0, 0, 0);
    let m0_0_1_1_1_1_1 = mono(v, 0, 0, 1, 1, 1, 1, 1);
    let m0_0_2_2_2_2_2 = mono(v, 0, 0, 2, 2, 2, 2, 2);
    lemma_mono_mul(v, 0, 0, 0, 0, 0, 0, 0, 0, 0, 0, 0, 0, 0, 0);
    lemma_mono_mul(v, 0, 0, 0, 0, 0, 0, 0, 0, 0, 1, 1, 1, 1, 1);
    lemma_mono_mul(v, 0, 0, 1, 1, 1, 1, 1, 0, 0, 0, 0, 0, 0, 0);
    lemma_mono_mul(v, 0, 0, 1, 1, 1, 1, 1, 0, 0, 1, 1, 1, 1, 1);
    let row0 = m0_0_0_0_0_0_0 * r;
    assert(row0 == m0_0_0_0_0_0_0 + m0_0_1_1_1_1_1) by (nonlinear_arith)
        requires
            row0 == m0_0_0_0_0_0_0 * r,
            r == m0_0_0_0_0_0_0 + m0_0_1_1_1_1_1,
            m0_0_0_0_0_0_0 * m0_0_0_0_0_0_0 == m0_0_0_0_0_0_0,
            m0_0_0_0_0_0_0 * m0_0_1_1_1_1_1 == m0_0_1_1_1_1_1,
    ;
    let row1 = m0_0_1_1_1_1_1 * r;
    assert(row1 == m0_0_1_1_1_1_1 + m0_0_2_2_2_2_2) by (nonlinear_arith)
        requires
            row1 == m0_0_1_1_1_1_1 * r,
            r == m0_0_0_0_0_0_0 + m0_0_1_1_1_1_1,
            m0_0_1_1_1_1_1 * m0_0_0_0_0_0_0 == m0_0_1_1_1_1_1,
            m0_0_1_1_1_1_1 * m0_0_1_1_1_1_1 == m0_0_2_2_2_2_2,
    ;
    assert(p * r == row0 - row1) by (nonlinear_arith)
        requires
            p == m0_0_0_0_0_0_0 - m0_0_1_1_1_1_1,
            row0 == m0_0_0_0_0_0_0 * r,
            row1 == m0_0_1_1_1_1_1 * r,
    ;
}

/// A part of the term E of the left side.
proof fn lemma_associative_product_25(v: Vars, p: int, r: int)
    requires
        p == mono(v, 0, 1, 1, 0, 0, 0, 0) + mono(v, 1, 0, 0, 1, 0, 0, 0) - mono(v, 1, 2, 2, 1, 0,
            0, 1) - mono(v, 2, 1, 1, 2, 0, 0, 1),
        r == mono(v, 0, 0, 0, 0, 0, 1, 0),
    ensures
        p * r == mono(v, 0, 1, 1, 0, 0, 1, 0) + mono(v, 1, 0, 0, 1, 0, 1, 0) - mono(v, 1, 2, 2, 1, 0,
            1, 1) - mono(v, 2, 1, 1, 2, 0, 1, 1),
{
    let m0_1_1_0_0_0_0 = mono(v, 0, 1, 1, 0, 0, 0, 0);
    let m1_0_0_1_0_0_0 = mono(v, 1, 0, 0, 1, 0, 0, 0);
    let m1_2_2_1_0_0_1 = mono(v, 1, 2, 2, 1, 0, 0, 1);
    let m2_1_1_2_0_0_1 = mono(v, 2, 1, 1, 2, 0, 0, 1);
    let m0_0_0_0_0_1_0 = mono(v, 0, 0, 0, 0, 0, 1, 0);
    let m0_1_1_0_0_1_0 = mono(v, 0, 1, 1, 0, 0, 1, 0);
    let m1_0_0_1_0_1_0 = mono(v, 1, 0, 0, 1, 0, 1, 0);
    let m1_2_2_1_0_1_1 = mono(v, 1, 2, 2, 1, 0, 1, 1);
    let m2_1_1_2_0_1_1 = mono(v, 2, 1, 1, 2, 0, 1, 1);
    lemma_mono_mul(v, 0, 1, 1, 0, 0, 0, 0, 0, 0, 0, 0, 0, 1, 0);
    lemma_mono_mul(v, 1, 0, 0, 1, 0, 0, 0, 0, 0, 0, 0, 0, 1, 0);
    lemma_mono_mul(v, 1, 2, 2, 1, 0, 0, 1, 0, 0, 0, 0, 0, 1, 0);
    lemma_mono_mul(v, 2, 1, 1, 2, 0, 0, 1, 0, 0, 0, 0, 0, 1, 0);
    let row0 = m0_1_1_0_0_0_0 * r;
    assert(row0 == m0_1_1_0_0_1_0) by (nonlinear_arith)
        requires
            row0 == m0_1_1_0_0_0_0 * r,
            r == m0_0_0_0_0_1_0,
            m0_1_1_0_0_0_0 * m0_0_0_0_0_1_0 == m0_1_1_0_0_1_0,
    ;
    let row1 = m1_0_0_1_0_0_0 * r;
    assert(row1 == m1_0_0_1_0_1_0) by (nonlinear_arith)
        requires
            row1 == m1_0_0_1_0_0_0 * r,
            r == m0_0_0_0_0_1_0,
            m1_0_0_1_0_0_0 * m0_0_0_0_0_1_0 == m1_0_0_1_0_1_0,
    ;
    let row2 = m1_2_2_1_0_0_1 * r;
    assert(row2 == m1_2_2_1_0_1_1) by (nonlinear_arith)
        requires
            row2 == m1_2_2_1_0_0_1 * r,
            r == m0_0_0_0_0_1_0,
            m1_2_2_1_0_0_1 * m0_0_0_0_0_1_0 == m1_2_2_1_0_1_1,
    ;
    let row3 = m2_1_1_2_0_0_1 * r;
    assert(row3 == m2_1_1_2_0_1_1) by (nonlinear_arith)
        requires
            row3 == m2_1_1_2_0_0_1 * r,
            r == m0_0_0_0_0_1_0,
            m2_1_1_2_0_0_1 * m0_0_0_0_0_1_0 == m2_1_1_2_0_1_1,
    ;
    assert(p * r == row0 + row1 - row2 - row3) by (nonlinear_arith)
        requires
            p == m0_1_1_0_0_0_0 + m1_0_0_1_0_0_0 - m1_2_2_1_0_0_1 - m2_1_1_2_0_0_1,
            row0 == m0_1_1_0_0_0_0 * r,
            row1 == m1_0_0_1_0_0_0 * r,
            row2 == m1_2_2_1_0_0_1 * r,
            row3 == m2_1_1_2_0_0_1 * r,
    ;
}

/// A part of the term E of the left side.
proof fn lemma_associative_product_26(v: Vars, p: int, r: int)
    requires
        p == mono(v, 0, 1, 0, 1, 0, 0, 0) + mono(v, 1, 0, 1, 0, 0, 0, 0) + mono(v, 1, 2, 1, 2, 0,
            0, 1) + mono(v, 2, 1, 2, 1, 0, 0, 1),
        r == mono(v, 0, 0, 0, 0, 1, 0, 0),
    ensures
        p * r == mono(v, 0, 1, 0, 1, 1, 0, 0) + mono(v, 1, 0, 1, 0, 1, 0, 0) + mono(v, 1, 2, 1, 2, 1,
            0, 1) + mono(v, 2, 1, 2, 1, 1, 0, 1),
{
    let m0_1_0_1_0_0_0 = mono(v, 0, 1, 0, 1, 0, 0, 0);
    let m1_0_1_0_0_0_0 = mono(v, 1, 0, 1, 0, 0, 0, 0);
    let m1_2_1_2_0_0_1 = mono(v, 1, 2, 1, 2, 0, 0, 1);
    let m2_1_2_1_0_0_1 = mono(v, 2, 1, 2, 1, 0, 0, 1);
    let m0_0_0_0_1_0_0 = mono(v, 0, 0, 0, 0, 1, 0, 0);
    let m0_1_0_1_1_0_0 = mono(v, 0, 1, 0, 1, 1, 0, 0);
    let m1_0_1_0_1_0_0 = mono(v, 1, 0, 1, 0, 1, 0, 0);
    let m1_2_1_2_1_0_1 = mono(v, 1, 2, 1, 2, 1, 0, 1);
    let m2_1_2_1_1_0_1 = mono(v, 2, 1, 2, 1, 1, 0, 1);
    lemma_mono_mul(v, 0, 1, 0, 1, 0, 0, 0, 0, 0, 0, 0, 1, 0, 0);
    lemma_mono_mul(v, 1, 0, 1, 0, 0, 0, 0, 0, 0, 0, 0, 1, 0, 0);
    lemma_mono_mul(v, 1, 2, 1, 2, 0, 0, 1, 0, 0, 0, 0, 1, 0, 0);
    lemma_mono_mul(v, 2, 1, 2, 1, 0, 0, 1, 0, 0, 0, 0, 1, 0, 0);
    let row0 = m0_1_0_1_0_0_0 * r;
    assert(row0 == m0_1_0_1_1_0_0) by (nonlinear_arith)
        requires
            row0 == m0_1_0_1_0_0_0 * r,
            r == m0_0_0_0_1_0_0,
            m0_1_0_1_0_0_0 * m0_0_0_0_1_0_0 == m0_1_0_1_1_0_0,
    ;
    let row1 = m1_0_1_0_0_0_0 * r;
    assert(row1 == m1_0_1_0_1_0_0) by (nonlinear_arith)
        requires
            row1 == m1_0_1_0_0_0_0 * r,
            r == m0_0_0_0_1_0_0,
            m1_0_1_0_0_0_0 * m0_0_0_0_1_0_0 == m1_0_1_0_1_0_0,
    ;
    let row2 = m1_2_1_2_0_0_1 * r;
    assert(row2 == m1_2_1_2_1_0_1) by (nonlinear_arith)
        requires
            row2 == m1_2_1_2_0_0_1 * r,
            r == m0_0_0_0_1_0_0,
            m1_2_1_2_0_0_1 * m0_0_0_0_1_0_0 == m1_2_1_2_1_0_1,
    ;
    let row3 = m2_1_2_1_0_0_1 * r;
    assert(row3 == m2_1_2_1_1_0_1) by (nonlinear_arith)
        requires
            row3 == m2_1_2_1_0_0_1 * r,
            r == m0_0_0_0_1_0_0,
            m2_1_2_1_0_0_1 * m0_0_0_0_1_0_0 == m2_1_2_1_1_0_1,
    ;
    assert(p * r == row0 + row1 + row2 + row3) by (nonlinear_arith)
        requires
            p == m0_1_0_1_0_0_0 + m1_0_1_0_0_0_0 + m1_2_1_2_0_0_1 + m2_1_2_1_0_0_1,
            row0 == m0_1_0_1_0_0_0 * r,
            row1 == m1_0_1_0_0_0_0 * r,
            row2 == m1_2_1_2_0_0_1 * r,
            row3 == m2_1_2_1_0_0_1 * r,
    ;
}

/// A part of the term H of the left side.
proof fn lemma_associative_product_27(v: Vars, p: int, r: int)
    requires
        p == mono(v, 0, 1, 1, 0, 0, 0, 0) + mono(v, 1, 0, 0, 1, 0, 0, 0) - mono(v, 1, 2, 2, 1, 0,
            0, 1) - mono(v, 2, 1, 1, 2, 0, 0, 1),
        r == mono(v, 0, 0, 0, 0, 1, 0, 0),
    ensures
        p * r == mono(v, 0, 1, 1, 0, 1, 0, 0) + mono(v, 1, 0, 0, 1, 1, 0, 0) - mono(v, 1, 2, 2, 1, 1,
            0, 1) - mono(v, 2, 1, 1, 2, 1, 0, 1),
{
    let m0_1_1_0_0_0_0 = mono(v, 0, 1, 1, 0, 0, 0, 0);
    let m1_0_0_1_0_0_0 = mono(v, 1, 0, 0, 1, 0, 0, 0);
    let m1_2_2_1_0_0_1 = mono(v, 1, 2, 2, 1, 0, 0, 1);
    let m2_1_1_2_0_0_1 = mono(v, 2, 1, 1, 2, 0, 0, 1);
    let m0_0_0_0_1_0_0 = mono(v, 0, 0, 0, 0, 1, 0, 0);
    let m0_1_1_0_1_0_0 = mono(v, 0, 1, 1, 0, 1, 0, 0);
    let m1_0_0_1_1_0_0 = mono(v, 1, 0, 0, 1, 1, 0, 0);
    let m1_2_2_1_1_0_1 = mono(v, 1, 2, 2, 1, 1, 0, 1);
    let m2_1_1_2_1_0_1 = mono(v, 2, 1, 1, 2, 1, 0, 1);
    lemma_mono_mul(v, 0, 1, 1, 0, 0, 0, 0, 0, 0, 0, 0, 1, 0, 0);
    lemma_mono_mul(v, 1, 0, 0, 1, 0, 0, 0, 0, 0, 0, 0, 1, 0, 0);
    lemma_mono_mul(v, 1, 2, 2, 1, 0, 0, 1, 0, 0, 0, 0, 1, 0, 0);
    lemma_mono_mul(v, 2, 1, 1, 2, 0, 0, 1, 0, 0, 0, 0, 1, 0, 0);
    let row0 = m0_1_1_0_0_0_0 * r;
    assert(row0 == m0_1_1_0_1_0_0) by (nonlinear_arith)
        requires
            row0 == m0_1_1_0_0_0_0 * r,
            r == m0_0_0_0_1_0_0,
            m0_1_1_0_0_0_0 * m0_0_0_0_1_0_0 == m0_1_1_0_1_0_0,
    ;
    let row1 = m1_0_0_1_0_0_0 * r;
    assert(row1 == m1_0_0_1_1_0_0) by (nonlinear_arith)
        requires
            row1 == m1_0_0_1_0_0_0 * r,
            r == m0_0_0_0_1_0_0,
            m1_0_0_1_0_0_0 * m0_0_0_0_1_0_0 == m1_0_0_1_1_0_0,
    ;
    let row2 = m1_2_2_1_0_0_1 * r;
    assert(row2 == m1_2_2_1_1_0_1) by (nonlinear_arith)
        requires
            row2 == m1_2_2_1_0_0_1 * r,
            r == m0_0_0_0_1_0_0,
            m1_2_2_1_0_0_1 * m0_0_0_0_1_0_0 == m1_2_2_1_1_0_1,
    ;
    let row3 = m2_1_1_2_0_0_1 * r;
    assert(row3 == m2_1_1_2_1_0_1) by (nonlinear_arith)
        requires
            row3 == m2_1_1_2_0_0_1 * r,
            r == m0_0_0_0_1_0_0,
            m2_1_1_2_0_0_1 * m0_0_0_0_1_0_0 == m2_1_1_2_1_0_1,
    ;
    assert(p * r == row0 + row1 - row2 - row3) by (nonlinear_arith)
        requires
            p == m0_1_1_0_0_0_0 + m1_0_0_1_0_0_0 - m1_2_2_1_0_0_1 - m2_1_1_2_0_0_1,
            row0 == m0_1_1_0_0_0_0 * r,
            row1 == m1_0_0_1_0_0_0 * r,
            row2 == m1_2_2_1_0_0_1 * r,
            row3 == m2_1_1_2_0_0_1 * r,
    ;
}

/// A part of the term H of the left side.
proof fn lemma_associative_product_28(v: Vars, p: int, r: int)
    requires
        p == mono(v, 0, 1, 0, 1, 0, 0, 0) + mono(v, 1, 0, 1, 0, 0, 0, 0) + mono(v, 1, 2, 1, 2, 0,
            0, 1) + mono(v, 2, 1, 2, 1, 0, 0, 1),
        r == mono(v, 0, 0, 0, 0, 0, 1, 0),
    ensures
        p * r == mono(v, 0, 1, 0, 1, 0, 1, 0) + mono(v, 1, 0, 1, 0, 0, 1, 0) + mono(v, 1, 2, 1, 2, 0,
            1, 1) + mono(v, 2, 1, 2, 1, 0, 1, 1),
{
    let m0_1_0_1_0_0_0 = mono(v, 0, 1, 0, 1, 0, 0, 0);
    let m1_0_1_0_0_0_0 = mono(v, 1, 0, 1, 0, 0, 0, 0);
    let m1_2_1_2_0_0_1 = mono(v, 1, 2, 1, 2, 0, 0, 1);
    let m2_1_2_1_0_0_1 = mono(v, 2, 1, 2, 1, 0, 0, 1);
    let m0_0_0_0_0_1_0 = mono(v, 0, 0, 0, 0, 0, 1, 0);
    let m0_1_0_1_0_1_0 = mono(v, 0, 1, 0, 1, 0, 1, 0);
    let m1_0_1_0_0_1_0 = mono(v, 1, 0, 1, 0, 0, 1, 0);
    let m1_2_1_2_0_1_1 = mono(v, 1, 2, 1, 2, 0, 1, 1);
    let m2_1_2_1_0_1_1 = mono(v, 2, 1, 2, 1, 0, 1, 1);
    lemma_mono_mul(v, 0, 1, 0, 1, 0, 0, 0, 0, 0, 0, 0, 0, 1, 0);
    lemma_mono_mul(v, 1, 0, 1, 0, 0, 0, 0, 0, 0, 0, 0, 0, 1, 0);
    lemma_mono_mul(v, 1, 2, 1, 2, 0, 0, 1, 0, 0, 0, 0, 0, 1, 0);
    lemma_mono_mul(v, 2, 1, 2, 1, 0, 0, 1, 0, 0, 0, 0, 0, 1, 0);
    let row0 = m0_1_0_1_0_0_0 * r;
    assert(row0 == m0_1_0_1_0_1_0) by (nonlinear_arith)
        requires
            row0 == m0_1_0_1_0_0_0 * r,
            r == m0_0_0_0_0_1_0,
            m0_1_0_1_0_0_0 * m0_0_0_0_0_1_0 == m0_1_0_1_0_1_0,
    ;
    let row1 = m1_0_1_0_0_0_0 * r;
    assert(row1 == m1_0_1_0_0_1_0) by (nonlinear_arith)
        requires
            row1 == m1_0_1_0_0_0_0 * r,
            r == m0_0_0_0_0_1_0,
            m1_0_1_0_0_0_0 * m0_0_0_0_0_1_0 == m1_0_1_0_0_1_0,
    ;
    let row2 = m1_2_1_2_0_0_1 * r;
    assert(row2 == m1_2_1_2_0_1_1) by (nonlinear_arith)
        requires
            row2 == m1_2_1_2_0_0_1 * r,
            r == m0_0_0_0_0_1_0,
            m1_2_1_2_0_0_1 * m0_0_0_0_0_1_0 == m1_2_1_2_0_1_1,
    ;
    let row3 = m2_1_2_1_0_0_1 * r;
    assert(row3 == m2_1_2_1_0_1_1) by (nonlinear_arith)
        requires
            row3 == m2_1_2_1_0_0_1 * r,
            r == m0_0_0_0_0_1_0,
            m2_1_2_1_0_0_1 * m0_0_0_0_0_1_0 == m2_1_2_1_0_1_1,
    ;
    assert(p * r == row0 + row1 + row2 + row3) by (nonlinear_arith)
        requires
            p == m0_1_0_1_0_0_0 + m1_0_1_0_0_0_0 + m1_2_1_2_0_0_1 + m2_1_2_1_0_0_1,
            row0 == m0_1_0_1_0_0_0 * r,
            row1 == m1_0_1_0_0_0_0 * r,
            row2 == m1_2_1_2_0_0_1 * r,
            row3 == m2_1_2_1_0_0_1 * r,
    ;
}

/// The product of the last coordinates in the left side.
proof fn lemma_associative_product_29(v: Vars, p: int, r: int)
    requires
        p == mono(v, 0, 0, 0, 0, 0, 0, 0) - mono(v, 2, 2, 2, 2, 0, 0, 2),
        r == mono(v, 0, 0, 0, 0, 0, 0, 0),
    ensures
        p * r == mono(v, 0, 0, 0, 0, 0, 0, 0) - mono(v, 2, 2, 2, 2, 0, 0, 2),
{
    let m0_0_0_0_0_0_0 = mono(v, 0, 0, 0, 0, 0, 0, 0);
    let m2_2_2_2_0_0_2 = mono(v, 2, 2, 2, 2, 0, 0, 2);
    lemma_mono_mul(v, 0, 0, 0, 0, 0, 0, 0, 0, 0, 0, 0, 0, 0, 0);
    lemma_mono_mul(v, 2, 2, 2, 2, 0, 0, 2, 0, 0, 0, 0, 0, 0, 0);
    let row0 = m0_0_0_0_0_0_0 * r;
    assert(row0 == m0_0_0_0_0_0_0) by (nonlinear_arith)
        requires
            row0 == m0_0_0_0_0_0_0 * r,
            r == m0_0_0_0_0_0_0,
            m0_0_0_0_0_0_0 * m0_0_0_0_0_0_0 == m0_0_0_0_0_0_0,
    ;
    let row1 = m2_2_2_2_0_0_2 * r;
    assert(row1 == m2_2_2_2_0_0_2) by (nonlinear_arith)
        requires
            row1 == m2_2_2_2_0_0_2 * r,
            r == m0_0_0_0_0_0_0,
            m2_2_2_2_0_0_2 * m0_0_0_0_0_0_0 == m2_2_2_2_0_0_2,
    ;
    assert(p * r == row0 - row1) by (nonlinear_arith)
        requires
            p == m0_0_0_0_0_0_0 - m2_2_2_2_0_0_2,
            row0 == m0_0_0_0_0_0_0 * r,
            row1 == m2_2_2_2_0_0_2 * r,
    ;
}

/// The product of the third coordinates in the left side.
proof fn lemma_associative_product_30(v: Vars, p: int, r: int)
    requires
        p == mono(v, 0, 2, 1, 1, 0, 0, 0) + mono(v, 1, 1, 0, 2, 0, 0, 0) + mono(v, 1, 1, 2, 0, 0,
            0, 0) + mono(v, 2, 0, 1, 1, 0, 0, 0),
        r == mono(v, 0, 0, 0, 0, 1, 1, 0),
    ensures
        p * r == mono(v, 0, 2, 1, 1, 1, 1, 0) + mono(v, 1, 1, 0, 2, 1, 1, 0) + mono(v, 1, 1, 2, 0, 1,
            1, 0) + mono(v, 2, 0, 1, 1, 1, 1, 0),
{
    let m0_2_1_1_0_0_0 = mono(v, 0, 2, 1, 1, 0, 0, 0);
    let m1_1_0_2_0_0_0 = mono(v, 1, 1, 0, 2, 0, 0, 0);
    let m1_1_2_0_0_0_0 = mono(v, 1, 1, 2, 0, 0, 0, 0);
    let m2_0_1_1_0_0_0 = mono(v, 2, 0, 1, 1, 0, 0, 0);
    let m0_0_0_0_1_1_0 = mono(v, 0, 0, 0, 0, 1, 1, 0);
    let m0_2_1_1_1_1_0 = mono(v, 0, 2, 1, 1, 1, 1, 0);
    let m1_1_0_2_1_1_0 = mono(v, 1, 1, 0, 2, 1, 1, 0);
    let m1_1_2_0_1_1_0 = mono(v, 1, 1, 2, 0, 1, 1, 0);
    let m2_0_1_1_1_1_0 = mono(v, 2, 0, 1, 1, 1, 1, 0);
    lemma_mono_mul(v, 0, 2, 1, 1, 0, 0, 0, 0, 0, 0, 0, 1, 1, 0);
    lemma_mono_mul(v, 1, 1, 0, 2, 0, 0, 0, 0, 0, 0, 0, 1, 1, 0);
    lemma_mono_mul(v, 1, 1, 2, 0, 0, 0, 0, 0, 0, 0, 0, 1, 1, 0);
    lemma_mono_mul(v, 2, 0, 1, 1, 0, 0, 0, 0, 0, 0, 0, 1, 1, 0);
    let row0 = m0_2_1_1_0_0_0 * r;
    assert(row0 == m0_2_1_1_1_1_0) by (nonlinear_arith)
        requires
            row0 == m0_2_1_1_0_0_0 * r,
            r == m0_0_0_0_1_1_0,
            m0_2_1_1_0_0_0 * m0_0_0_0_1_1_0 == m0_2_1_1_1_1_0,
    ;
    let row1 = m1_1_0_2_0_0_0 * r;
    assert(row1 == m1_1_0_2_1_1_0) by (nonlinear_arith)
        requires
            row1 == m1_1_0_2_0_0_0 * r,
            r == m0_0_0_0_1_1_0,
            m1_1_0_2_0_0_0 * m0_0_0_0_1_1_0 == m1_1_0_2_1_1_0,
    ;
    let row2 = m1_1_2_0_0_0_0 * r;
    assert(row2 == m1_1_2_0_1_1_0) by (nonlinear_arith)
        requires
            row2 == m1_1_2_0_0_0_0 * r,
            r == m0_0_0_0_1_1_0,
            m1_1_2_0_0_0_0 * m0_0_0_0_1_1_0 == m1_1_2_0_1_1_0,
    ;
    let row3 = m2_0_1_1_0_0_0 * r;
    assert(row3 == m2_0_1_1_1_1_0) by (nonlinear_arith)
        requires
            row3 == m2_0_1_1_0_0_0 * r,
            r == m0_0_0_0_1_1_0,
            m2_0_1_1_0_0_0 * m0_0_0_0_1_1_0 == m2_0_1_1_1_1_0,
    ;
    assert(p * r == row0 + row1 + row2 + row3) by (nonlinear_arith)
        requires
            p == m0_2_1_1_0_0_0 + m1_1_0_2_0_0_0 + m1_1_2_0_0_0_0 + m2_0_1_1_0_0_0,
            row0 == m0_2_1_1_0_0_0 * r,
            row1 == m1_1_0_2_0_0_0 * r,
            row2 == m1_1_2_0_0_0_0 * r,
            row3 == m2_0_1_1_0_0_0 * r,
    ;
}

/// The curve constant times the third coordinates in the left side.
proof fn lemma_associative_product_31(v: Vars, p: int, r: int)
    requires
        p == mono(v, 0, 2, 1, 1, 1, 1, 0) + mono(v, 1, 1, 0, 2, 1, 1, 0) + mono(v, 1, 1, 2, 0, 1,
            1, 0) + mono(v, 2, 0, 1, 1, 1, 1, 0),
        r == mono(v, 0, 0, 0, 0, 0, 0, 1),
    ensures
        p * r == mono(v, 0, 2, 1, 1, 1, 1, 1) + mono(v, 1, 1, 0, 2, 1, 1, 1) + mono(v, 1, 1, 2, 0, 1,
            1, 1) + mono(v, 2, 0, 1, 1, 1, 1, 1),
{
    let m0_2_1_1_1_1_0 = mono(v, 0, 2, 1, 1, 1, 1, 0);
    let m1_1_0_2_1_1_0 = mono(v, 1, 1, 0, 2, 1, 1, 0);
    let m1_1_2_0_1_1_0 = mono(v, 1, 1, 2, 0, 1, 1, 0);
    let m2_0_1_1_1_1_0 = mono(v, 2, 0, 1, 1, 1, 1, 0);
    let m0_0_0_0_0_0_1 = mono(v, 0, 0, 0, 0, 0, 0, 1);
    let m0_2_1_1_1_1_1 = mono(v, 0, 2, 1, 1, 1, 1, 1);
    let m1_1_0_2_1_1_1 = mono(v, 1, 1, 0, 2, 1, 1, 1);
    let m1_1_2_0_1_1_1 = mono(v, 1, 1, 2, 0, 1, 1, 1);
    let m2_0_1_1_1_1_1 = mono(v, 2, 0, 1, 1, 1, 1, 1);
    lemma_mono_mul(v, 0, 2, 1, 1, 1, 1, 0, 0, 0, 0, 0, 0, 0, 1);
    lemma_mono_mul(v, 1, 1, 0, 2, 1, 1, 0, 0, 0, 0, 0, 0, 0, 1);
    lemma_mono_mul(v, 1, 1, 2, 0, 1, 1, 0, 0, 0, 0, 0, 0, 0, 1);
    lemma_mono_mul(v, 2, 0, 1, 1, 1, 1, 0, 0, 0, 0, 0, 0, 0, 1);
    let row0 = m0_2_1_1_1_1_0 * r;
    assert(row0 == m0_2_1_1_1_1_1) by (nonlinear_arith)
        requires
            row0 == m0_2_1_1_1_1_0 * r,
            r == m0_0_0_0_0_0_1,
            m0_2_1_1_1_1_0 * m0_0_0_0_0_0_1 == m0_2_1_1_1_1_1,
    ;
    let row1 = m1_1_0_2_1_1_0 * r;
    assert(row1 == m1_1_0_2_1_1_1) by (nonlinear_arith)
        requires
            row1 == m1_1_0_2_1_1_0 * r,
            r == m0_0_0_0_0_0_1,
            m1_1_0_2_1_1_0 * m0_0_0_0_0_0_1 == m1_1_0_2_1_1_1,
    ;
    let row2 = m1_1_2_0_1_1_0 * r;
    assert(row2 == m1_1_2_0_1_1_1) by (nonlinear_arith)
        requires
            row2 == m1_1_2_0_1_1_0 * r,
            r == m0_0_0_0_0_0_1,
            m1_1_2_0_1_1_0 * m0_0_0_0_0_0_1 == m1_1_2_0_1_1_1,
    ;
    let row3 = m2_0_1_1_1_1_0 * r;
    assert(row3 == m2_0_1_1_1_1_1) by (nonlinear_arith)
        requires
            row3 == m2_0_1_1_1_1_0 * r,
            r == m0_0_0_0_0_0_1,
            m2_0_1_1_1_1_0 * m0_0_0_0_0_0_1 == m2_0_1_1_1_1_1,
    ;
    assert(p * r == row0 + row1 + row2 + row3) by (nonlinear_arith)
        requires
            p == m0_2_1_1_1_1_0 + m1_1_0_2_1_1_0 + m1_1_2_0_1_1_0 + m2_0_1_1_1_1_0,
            row0 == m0_2_1_1_1_1_0 * r,
            row1 == m1_1_0_2_1_1_0 * r,
            row2 == m1_1_2_0_1_1_0 * r,
            row3 == m2_0_1_1_1_1_0 * r,
    ;
}

/// The curve constant times the third coordinates in the left side.
proof fn lemma_associative_product_32(v: Vars, p: int, r: int)
    requires
        p == mono(v, 0, 0, 0, 0, 0, 0, 1),
        r == mono(v, 0, 2, 1, 1, 1, 1, 0) + mono(v, 1, 1, 0, 2, 1, 1, 0) + mono(v, 1, 1, 2, 0, 1,
            1, 0) + mono(v, 2, 0, 1, 1, 1, 1, 0),
    ensures
        p * r == mono(v, 0, 2, 1, 1, 1, 1, 1) + mono(v, 1, 1, 0, 2, 1, 1, 1) + mono(v, 1, 1, 2, 0, 1,
            1, 1) + mono(v, 2, 0, 1, 1, 1, 1, 1),
{
    lemma_associative_product_31(v, r, p);
    assert(p * r == r * p) by (nonlinear_arith);
}

/// A part of the term E of the right side.
proof fn lemma_associative_product_33(v: Vars, p: int, r: int)
    requires
        p == mono(v, 0, 0, 0, 1, 0, 1, 0) + mono(v, 0, 0, 1, 0, 1, 0, 0) + mono(v, 0, 0, 1, 2, 1,
            2, 1) + mono(v, 0, 0, 2, 1, 2, 1, 1),
        r == mono(v, 1, 0, 0, 0, 0, 0, 0),
    ensures
        p * r == mono(v, 1, 0, 0, 1, 0, 1, 0) + mono(v, 1, 0, 1, 0, 1, 0, 0) + mono(v, 1, 0, 1, 2, 1,
            2, 1) + mono(v, 1, 0, 2, 1, 2, 1, 1),
{
    let m0_0_0_1_0_1_0 = mono(v, 0, 0, 0, 1, 0, 1, 0);
    let m0_0_1_0_1_0_0 = mono(v, 0, 0, 1, 0, 1, 0, 0);
    let m0_0_1_2_1_2_1 = mono(v, 0, 0, 1, 2, 1, 2, 1);
    let m0_0_2_1_2_1_1 = mono(v, 0, 0, 2, 1, 2, 1, 1);
    let m1_0_0_0_0_0_0 = mono(v, 1, 0, 0, 0, 0, 0, 0);
    let m1_0_0_1_0_1_0 = mono(v, 1, 0, 0, 1, 0, 1, 0);
    let m1_0_1_0_1_0_0 = mono(v, 1, 0, 1, 0, 1, 0, 0);
    let m1_0_1_2_1_2_1 = mono(v, 1, 0, 1, 2, 1, 2, 1);
    let m1_0_2_1_2_1_1 = mono(v, 1, 0, 2, 1, 2, 1, 1);
    lemma_mono_mul(v, 0, 0, 0, 1, 0, 1, 0, 1, 0, 0, 0, 0, 0, 0);
    lemma_mono_mul(v, 0, 0, 1, 0, 1, 0, 0, 1, 0, 0, 0, 0, 0, 0);
    lemma_mono_mul(v, 0, 0, 1, 2, 1, 2, 1, 1, 0, 0, 0, 0, 0, 0);
    lemma_mono_mul(v, 0, 0, 2, 1, 2, 1, 1, 1, 0, 0, 0, 0, 0, 0);
    let row0 = m0_0_0_1_0_1_0 * r;
    assert(row0 == m1_0_0_1_0_1_0) by (nonlinear_arith)
        requires
            row0 == m0_0_0_1_0_1_0 * r,
            r == m1_0_0_0_0_0_0,
            m0_0_0_1_0_1_0 * m1_0_0_0_0_0_0 == m1_0_0_1_0_1_0,
    ;
    let row1 = m0_0_1_0_1_0_0 * r;
    assert(row1 == m1_0_1_0_1_0_0) by (nonlinear_arith)
        requires
            row1 == m0_0_1_0_1_0_0 * r,
            r == m1_0_0_0_0_0_0,
            m0_0_1_0_1_0_0 * m1_0_0_0_0_0_0 == m1_0_1_0_1_0_0,
    ;
    let row2 = m0_0_1_2_1_2_1 * r;
    assert(row2 == m1_0_1_2_1_2_1) by (nonlinear_arith)
        requires
            row2 == m0_0_1_2_1_2_1 * r,
            r == m1_0_0_0_0_0_0,
            m0_0_1_2_1_2_1 * m1_0_0_0_0_0_0 == m1_0_1_2_1_2_1,
    ;
    let row3 = m0_0_2_1_2_1_1 * r;
    assert(row3 == m1_0_2_1_2_1_1) by (nonlinear_arith)
        requires
            row3 == m0_0_2_1_2_1_1 * r,
            r == m1_0_0_0_0_0_0,
            m0_0_2_1_2_1_1 * m1_0_0_0_0_0_0 == m1_0_2_1_2_1_1,
    ;
    assert(p * r == row0 + row1 + row2 + row3) by (nonlinear_arith)
        requires
            p == m0_0_0_1_0_1_0 + m0_0_1_0_1_0_0 + m0_0_1_2_1_2_1 + m0_0_2_1_2_1_1,
            row0 == m0_0_0_1_0_1_0 * r,
            row1 == m0_0_1_0_1_0_0 * r,
            row2 == m0_0_1_2_1_2_1 * r,
            row3 == m0_0_2_1_2_1_1 * r,
    ;
}

/// A part of the term E of the right side.
proof fn lemma_associative_product_34(v: Vars, p: int, r: int)
    requires
        p == mono(v, 1, 0, 0, 0, 0, 0, 0),
        r == mono(v, 0, 0, 0, 1, 0, 1, 0) + mono(v, 0, 0, 1, 0, 1, 0, 0) + mono(v, 0, 0, 1, 2, 1,
            2, 1) + mono(v, 0, 0, 2, 1, 2, 1, 1),
    ensures
        p * r == mono(v, 1, 0, 0, 1, 0, 1, 0) + mono(v, 1, 0, 1, 0, 1, 0, 0) + mono(v, 1, 0, 1, 2, 1,
            2, 1) + mono(v, 1, 0, 2, 1, 2, 1, 1),
{
    lemma_associative_product_33(v, r, p);
    assert(p * r == r * p) by (nonlinear_arith);
}

/// A part of the term E of the right side.
proof fn lemma_associative_product_35(v: Vars, p: int, r: int)
    requires
        p == mono(v, 0, 0, 0, 1, 1, 0, 0) + mono(v, 0, 0, 1, 0, 0, 1, 0) - mono(v, 0, 0, 1, 2, 2,
            1, 1) - mono(v, 0, 0, 2, 1, 1, 2, 1),
        r == mono(v, 0, 1, 0, 0, 0, 0, 0),
    ensures
        p * r == mono(v, 0, 1, 0, 1, 1, 0, 0) + mono(v, 0, 1, 1, 0, 0, 1, 0) - mono(v, 0, 1, 1, 2, 2,
            1, 1) - mono(v, 0, 1, 2, 1, 1, 2, 1),
{
    let m0_0_0_1_1_0_0 = mono(v, 0, 0, 0, 1, 1, 0, 0);
    let m0_0_1_0_0_1_0 = mono(v, 0, 0, 1, 0, 0, 1, 0);
    let m0_0_1_2_2_1_1 = mono(v, 0, 0, 1, 2, 2, 1, 1);
    let m0_0_2_1_1_2_1 = mono(v, 0, 0, 2, 1, 1, 2, 1);
    let m0_1_0_0_0_0_0 = mono(v, 0, 1, 0, 0, 0, 0, 0);
    let m0_1_0_1_1_0_0 = mono(v, 0, 1, 0, 1, 1, 0, 0);
    let m0_1_1_0_0_1_0 = mono(v, 0, 1, 1, 0, 0, 1, 0);
    let m0_1_1_2_2_1_1 = mono(v, 0, 1, 1, 2, 2, 1, 1);
    let m0_1_2_1_1_2_1 = mono(v, 0, 1, 2, 1, 1, 2, 1);
    lemma_mono_mul(v, 0, 0, 0, 1, 1, 0, 0, 0, 1, 0, 0, 0, 0, 0);
    lemma_mono_mul(v, 0, 0, 1, 0, 0, 1, 0, 0, 1, 0, 0, 0, 0, 0);
    lemma_mono_mul(v, 0, 0, 1, 2, 2, 1, 1, 0, 1, 0, 0, 0, 0, 0);
    lemma_mono_mul(v, 0, 0, 2, 1, 1, 2, 1, 0, 1, 0, 0, 0, 0, 0);
    let row0 = m0_0_0_1_1_0_0 * r;
    assert(row0 == m0_1_0_1_1_0_0) by (nonlinear_arith)
        requires
            row0 == m0_0_0_1_1_0_0 * r,
            r == m0_1_0_0_0_0_0,
            m0_0_0_1_1_0_0 * m0_1_0_0_0_0_0 == m0_1_0_1_1_0_0,
    ;
    let row1 = m0_0_1_0_0_1_0 * r;
    assert(row1 == m0_1_1_0_0_1_0) by (nonlinear_arith)
        requires
            row1 == m0_0_1_0_0_1_0 * r,
            r == m0_1_0_0_0_0_0,
            m0_0_1_0_0_1_0 * m0_1_0_0_0_0_0 == m0_1_1_0_0_1_0,
    ;
    let row2 = m0_0_1_2_2_1_1 * r;
    assert(row2 == m0_1_1_2_2_1_1) by (nonlinear_arith)
        requires
            row2 == m0_0_1_2_2_1_1 * r,
            r == m0_1_0_0_0_0_0,
            m0_0_1_2_2_1_1 * m0_1_0_0_0_0_0 == m0_1_1_2_2_1_1,
    ;
    let row3 = m0_0_2_1_1_2_1 * r;
    assert(row3 == m0_1_2_1_1_2_1) by (nonlinear_arith)
        requires
            row3 == m0_0_2_1_1_2_1 * r,
            r == m0_1_0_0_0_0_0,
            m0_0_2_1_1_2_1 * m0_1_0_0_0_0_0 == m0_1_2_1_1_2_1,
    ;
    assert(p * r == row0 + row1 - row2 - row3) by (nonlinear_arith)
        requires
            p == m0_0_0_1_1_0_0 + m0_0_1_0_0_1_0 - m0_0_1_2_2_1_1 - m0_0_2_1_1_2_1,
            row0 == m0_0_0_1_1_0_0 * r,
            row1 == m0_0_1_0_0_1_0 * r,
            row2 == m0_0_1_2_2_1_1 * r,
            row3 == m0_0_2_1_1_2_1 * r,
    ;
}

/// A part of the term E of the right side.
proof fn lemma_associative_product_36(v: Vars, p: int, r: int)
    requires
        p == mono(v, 0, 1, 0, 0, 0, 0, 0),
        r == mono(v, 0, 0, 0, 1, 1, 0, 0) + mono(v, 0, 0, 1, 0, 0, 1, 0) - mono(v, 0, 0, 1, 2, 2,
            1, 1) - mono(v, 0, 0, 2, 1, 1, 2, 1),
    ensures
        p * r == mono(v, 0, 1, 0, 1, 1, 0, 0) + mono(v, 0, 1, 1, 0, 0, 1, 0) - mono(v, 0, 1, 1, 2, 2,
            1, 1) - mono(v, 0, 1, 2, 1, 1, 2, 1),
{
    lemma_associative_product_35(v, r, p);
    assert(p * r == r * p) by (nonlinear_arith);
}

/// A part of the term H of the right side.
proof fn lemma_associative_product_37(v: Vars, p: int, r: int)
    requires
        p == mono(v, 0, 0, 0, 1, 1, 0, 0) + mono(v, 0, 0, 1, 0, 0, 1, 0) - mono(v, 0, 0, 1, 2, 2,
            1, 1) - mono(v, 0, 0, 2, 1, 1, 2, 1),
        r == mono(v, 1, 0, 0, 0, 0, 0, 0),
    ensures
        p * r == mono(v, 1, 0, 0, 1, 1, 0, 0) + mono(v, 1, 0, 1, 0, 0, 1, 0) - mono(v, 1, 0, 1, 2, 2,
            1, 1) - mono(v, 1, 0, 2, 1, 1, 2, 1),
{
    let m0_0_0_1_1_0_0 = mono(v, 0, 0, 0, 1, 1, 0, 0);
    let m0_0_1_0_0_1_0 = mono(v, 0, 0, 1, 0, 0, 1, 0);
    let m0_0_1_2_2_1_1 = mono(v, 0, 0, 1, 2, 2, 1, 1);
    let m0_0_2_1_1_2_1 = mono(v, 0, 0, 2, 1, 1, 2, 1);
    let m1_0_0_0_0_0_0 = mono(v, 1, 0, 0, 0, 0, 0, 0);
    let m1_0_0_1_1_0_0 = mono(v, 1, 0, 0, 1, 1, 0, 0);
    let m1_0_1_0_0_1_0 = mono(v, 1, 0, 1, 0, 0, 1, 0);
    let m1_0_1_2_2_1_1 = mono(v, 1, 0, 1, 2, 2, 1, 1);
    let m1_0_2_1_1_2_1 = mono(v, 1, 0, 2, 1, 1, 2, 1);
    lemma_mono_mul(v, 0, 0, 0, 1, 1, 0, 0, 1, 0, 0, 0, 0, 0, 0);
    lemma_mono_mul(v, 0, 0, 1, 0, 0, 1, 0, 1, 0, 0, 0, 0, 0, 0);
    lemma_mono_mul(v, 0, 0, 1, 2, 2, 1, 1, 1, 0, 0, 0, 0, 0, 0);
    lemma_mono_mul(v, 0, 0, 2, 1, 1, 2, 1, 1, 0, 0, 0, 0, 0, 0);
    let row0 = m0_0_0_1_1_0_0 * r;
    assert(row0 == m1_0_0_1_1_0_0) by (nonlinear_arith)
        requires
            row0 == m0_0_0_1_1_0_0 * r,
            r == m1_0_0_0_0_0_0,
            m0_0_0_1_1_0_0 * m1_0_0_0_0_0_0 == m1_0_0_1_1_0_0,
    ;
    let row1 = m0_0_1_0_0_1_0 * r;
    assert(row1 == m1_0_1_0_0_1_0) by (nonlinear_arith)
        requires
            row1 == m0_0_1_0_0_1_0 * r,
            r == m1_0_0_0_0_0_0,
            m0_0_1_0_0_1_0 * m1_0_0_0_0_0_0 == m1_0_1_0_0_1_0,
    ;
    let row2 = m0_0_1_2_2_1_1 * r;
    assert(row2 == m1_0_1_2_2_1_1) by (nonlinear_arith)
        requires
            row2 == m0_0_1_2_2_1_1 * r,
            r == m1_0_0_0_0_0_0,
            m0_0_1_2_2_1_1 * m1_0_0_0_0_0_0 == m1_0_1_2_2_1_1,
    ;
    let row3 = m0_0_2_1_1_2_1 * r;
    assert(row3 == m1_0_2_1_1_2_1) by (nonlinear_arith)
        requires
            row3 == m0_0_2_1_1_2_1 * r,
            r == m1_0_0_0_0_0_0,
            m0_0_2_1_1_2_1 * m1_0_0_0_0_0_0 == m1_0_2_1_1_2_1,
    ;
    assert(p * r == row0 + row1 - row2 - row3) by (nonlinear_arith)
        requires
            p == m0_0_0_1_1_0_0 + m0_0_1_0_0_1_0 - m0_0_1_2_2_1_1 - m0_0_2_1_1_2_1,
            row0 == m0_0_0_1_1_0_0 * r,
            row1 == m0_0_1_0_0_1_0 * r,
            row2 == m0_0_1_2_2_1_1 * r,
            row3 == m0_0_2_1_1_2_1 * r,
    ;
}

/// A part of the term H of the right side.
proof fn lemma_associative_product_38(v: Vars, p: int, r: int)
    requires
        p == mono(v, 1, 0, 0, 0, 0, 0, 0),
        r == mono(v, 0, 0, 0, 1, 1, 0, 0) + mono(v, 0, 0, 1, 0, 0, 1, 0) - mono(v, 0, 0, 1, 2, 2,
            1, 1) - mono(v, 0, 0, 2, 1, 1, 2, 1),
    ensures
        p * r == mono(v, 1, 0, 0, 1, 1, 0, 0) + mono(v, 1, 0, 1, 0, 0, 1, 0) - mono(v, 1, 0, 1, 2, 2,
            1, 1) - mono(v, 1, 0, 2, 1, 1, 2, 1),
{
    lemma_associative_product_37(v, r, p);
    assert(p * r == r * p) by (nonlinear_arith);
}

/// A part of the term H of the right side.
proof fn lemma_associative_product_39(v: Vars, p: int, r: int)
    requires
        p == mono(v, 0, 0, 0, 1, 0, 1, 0) + mono(v, 0, 0, 1, 0, 1, 0, 0) + mono(v, 0, 0, 1, 2, 1,
            2, 1) + mono(v, 0, 0, 2, 1, 2, 1, 1),
        r == mono(v, 0, 1, 0, 0, 0, 0, 0),
    ensures
        p * r == mono(v, 0, 1, 0, 1, 0, 1, 0) + mono(v, 0, 1, 1, 0, 1, 0, 0) + mono(v, 0, 1, 1, 2, 1,
            2, 1) + mono(v, 0, 1, 2, 1, 2, 1, 1),
{
    let m0_0_0_1_0_1_0 = mono(v, 0, 0, 0, 1, 0, 1, 0);
    let m0_0_1_0_1_0_0 = mono(v, 0, 0, 1, 0, 1, 0, 0);
    let m0_0_1_2_1_2_1 = mono(v, 0, 0, 1, 2, 1, 2, 1);
    let m0_0_2_1_2_1_1 = mono(v, 0, 0, 2, 1, 2, 1, 1);
    let m0_1_0_0_0_0_0 = mono(v, 0, 1, 0, 0, 0, 0, 0);
    let m0_1_0_1_0_1_0 = mono(v, 0, 1, 0, 1, 0, 1, 0);
    let m0_1_1_0_1_0_0 = mono(v, 0, 1, 1, 0, 1, 0, 0);
    let m0_1_1_2_1_2_1 = mono(v, 0, 1, 1, 2, 1, 2, 1);
    let m0_1_2_1_2_1_1 = mono(v, 0, 1, 2, 1, 2, 1, 1);
    lemma_mono_mul(v, 0, 0, 0, 1, 0, 1, 0, 0, 1, 0, 0, 0, 0, 0);
    lemma_mono_mul(v, 0, 0, 1, 0, 1, 0, 0, 0, 1, 0, 0, 0, 0, 0);
    lemma_mono_mul(v, 0, 0, 1, 2, 1, 2, 1, 0, 1, 0, 0, 0, 0, 0);
    lemma_mono_mul(v, 0, 0, 2, 1, 2, 1, 1, 0, 1, 0, 0, 0, 0, 0);
    let row0 = m0_0_0_1_0_1_0 * r;
    assert(row0 == m0_1_0_1_0_1_0) by (nonlinear_arith)
        requires
            row0 == m0_0_0_1_0_1_0 * r,
            r == m0_1_0_0_0_0_0,
            m0_0_0_1_0_1_0 * m0_1_0_0_0_0_0 == m0_1_0_1_0_1_0,
    ;
    let row1 = m0_0_1_0_1_0_0 * r;
    assert(row1 == m0_1_1_0_1_0_0) by (nonlinear_arith)
        requires
            row1 == m0_0_1_0_1_0_0 * r,
            r == m0_1_0_0_0_0_0,
            m0_0_1_0_1_0_0 * m0_1_0_0_0_0_0 == m0_1_1_0_1_0_0,
    ;
    let row2 = m0_0_1_2_1_2_1 * r;
    assert(row2 == m0_1_1_2_1_2_1) by (nonlinear_arith)
        requires
            row2 == m0_0_1_2_1_2_1 * r,
            r == m0_1_0_0_0_0_0,
            m0_0_1_2_1_2_1 * m0_1_0_0_0_0_0 == m0_1_1_2_1_2_1,
    ;
    let row3 = m0_0_2_1_2_1_1 * r;
    assert(row3 == m0_1_2_1_2_1_1) by (nonlinear_arith)
        requires
            row3 == m0_0_2_1_2_1_1 * r,
            r == m0_1_0_0_0_0_0,
            m0_0_2_1_2_1_1 * m0_1_0_0_0_0_0 == m0_1_2_1_2_1_1,
    ;
    assert(p * r == row0 + row1 + row2 + row3) by (nonlinear_arith)
        requires
            p == m0_0_0_1_0_1_0 + m0_0_1_0_1_0_0 + m0_0_1_2_1_2_1 + m0_0_2_1_2_1_1,
            row0 == m0_0_0_1_0_1_0 * r,
            row1 == m0_0_1_0_1_0_0 * r,
            row2 == m0_0_1_2_1_2_1 * r,
            row3 == m0_0_2_1_2_1_1 * r,
    ;
}

/// A part of the term H of the right side.
proof fn lemma_associative_product_40(v: Vars, p: int, r: int)
    requires
        p == mono(v, 0, 1, 0, 0, 0, 0, 0),
        r == mono(v, 0, 0, 0, 1, 0, 1, 0) + mono(v, 0, 0, 1, 0, 1, 0, 0) + mono(v, 0, 0, 1, 2, 1,
            2, 1) + mono(v, 0, 0, 2, 1, 2, 1, 1),
    ensures
        p * r == mono(v, 0, 1, 0, 1, 0, 1, 0) + mono(v, 0, 1, 1, 0, 1, 0, 0) + mono(v, 0, 1, 1, 2, 1,
            2, 1) + mono(v, 0, 1, 2, 1, 2, 1, 1),
{
    lemma_associative_product_39(v, r, p);
    assert(p * r == r * p) by (nonlinear_arith);
}

/// The product of the last coordinates in the right side.
proof fn lemma_associative_product_41(v: Vars, p: int, r: int)
    requires
        p == mono(v, 0, 0, 0, 0, 0, 0, 0) - mono(v, 0, 0, 2, 2, 2, 2, 2),
        r == mono(v, 0, 0, 0, 0, 0, 0, 0),
    ensures
        p * r == mono(v, 0, 0, 0, 0, 0, 0, 0) - mono(v, 0, 0, 2, 2, 2, 2, 2),
{
    let m0_0_0_0_0_0_0 = mono(v, 0, 0, 0, 0, 0, 0, 0);
    let m0_0_2_2_2_2_2 = mono(v, 0, 0, 2, 2, 2, 2, 2);
    lemma_mono_mul(v, 0, 0, 0, 0, 0, 0, 0, 0, 0, 0, 0, 0, 0, 0);
    lemma_mono_mul(v, 0, 0, 2, 2, 2, 2, 2, 0, 0, 0, 0, 0, 0, 0);
    let row0 = m0_0_0_0_0_0_0 * r;
    assert(row0 == m0_0_0_0_0_0_0) by (nonlinear_arith)
        requires
            row0 == m0_0_0_0_0_0_0 * r,
            r == m0_0_0_0_0_0_0,
            m0_0_0_0_0_0_0 * m0_0_0_0_0_0_0 == m0_0_0_0_0_0_0,
    ;
    let row1 = m0_0_2_2_2_2_2 * r;
    assert(row1 == m0_0_2_2_2_2_2) by (nonlinear_arith)
        requires
            row1 == m0_0_2_2_2_2_2 * r,
            r == m0_0_0_0_0_0_0,
            m0_0_2_2_2_2_2 * m0_0_0_0_0_0_0 == m0_0_2_2_2_2_2,
    ;
    assert(p * r == row0 - row1) by (nonlinear_arith)
        requires
            p == m0_0_0_0_0_0_0 - m0_0_2_2_2_2_2,
            row0 == m0_0_0_0_0_0_0 * r,
            row1 == m0_0_2_2_2_2_2 * r,
    ;
}

/// The product of the last coordinates in the right side.
proof fn lemma_associative_product_42(v: Vars, p: int, r: int)
    requires
        p == mono(v, 0, 0, 0, 0, 0, 0, 0),
        r == mono(v, 0, 0, 0, 0, 0, 0, 0) - mono(v, 0, 0, 2, 2, 2, 2, 2),
    ensures
        p * r == mono(v, 0, 0, 0, 0, 0, 0, 0) - mono(v, 0, 0, 2, 2, 2, 2, 2),
{
    lemma_associative_product_41(v, r, p);
    assert(p * r == r * p) by (nonlinear_arith);
}

/// The product of the third coordinates in the right side.
proof fn lemma_associative_product_43(v: Vars, p: int, r: int)
    requires
        p == mono(v, 0, 0, 0, 2, 1, 1, 0) + mono(v, 0, 0, 1, 1, 0, 2, 0) + mono(v, 0, 0, 1, 1, 2,
            0, 0) + mono(v, 0, 0, 2, 0, 1, 1, 0),
        r == mono(v, 1, 1, 0, 0, 0, 0, 0),
    ensures
        p * r == mono(v, 1, 1, 0, 2, 1, 1, 0) + mono(v, 1, 1, 1, 1, 0, 2, 0) + mono(v, 1, 1, 1, 1, 2,
            0, 0) + mono(v, 1, 1, 2, 0, 1, 1, 0),
{
    let m0_0_0_2_1_1_0 = mono(v, 0, 0, 0, 2, 1, 1, 0);
    let m0_0_1_1_0_2_0 = mono(v, 0, 0, 1, 1, 0, 2, 0);
    let m0_0_1_1_2_0_0 = mono(v, 0, 0, 1, 1, 2, 0, 0);
    let m0_0_2_0_1_1_0 = mono(v, 0, 0, 2, 0, 1, 1, 0);
    let m1_1_0_0_0_0_0 = mono(v, 1, 1, 0, 0, 0, 0, 0);
    let m1_1_0_2_1_1_0 = mono(v, 1, 1, 0, 2, 1, 1, 0);
    let m1_1_1_1_0_2_0 = mono(v, 1, 1, 1, 1, 0, 2, 0);
    let m1_1_1_1_2_0_0 = mono(v, 1, 1, 1, 1, 2, 0, 0);
    let m1_1_2_0_1_1_0 = mono(v, 1, 1, 2, 0, 1, 1, 0);
    lemma_mono_mul(v, 0, 0, 0, 2, 1, 1, 0, 1, 1, 0, 0, 0, 0, 0);
    lemma_mono_mul(v, 0, 0, 1, 1, 0, 2, 0, 1, 1, 0, 0, 0, 0, 0);
    lemma_mono_mul(v, 0, 0, 1, 1, 2, 0, 0, 1, 1, 0, 0, 0, 0, 0);
    lemma_mono_mul(v, 0, 0, 2, 0, 1, 1, 0, 1, 1, 0, 0, 0, 0, 0);
    let row0 = m0_0_0_2_1_1_0 * r;
    assert(row0 == m1_1_0_2_1_1_0) by (nonlinear_arith)
        requires
            row0 == m0_0_0_2_1_1_0 * r,
            r == m1_1_0_0_0_0_0,
            m0_0_0_2_1_1_0 * m1_1_0_0_0_0_0 == m1_1_0_2_1_1_0,
    ;
    let row1 = m0_0_1_1_0_2_0 * r;
    assert(row1 == m1_1_1_1_0_2_0) by (nonlinear_arith)
        requires
            row1 == m0_0_1_1_0_2_0 * r,
            r == m1_1_0_0_0_0_0,
            m0_0_1_1_0_2_0 * m1_1_0_0_0_0_0 == m1_1_1_1_0_2_0,
    ;
    let row2 = m0_0_1_1_2_0_0 * r;
    assert(row2 == m1_1_1_1_2_0_0) by (nonlinear_arith)
        requires
            row2 == m0_0_1_1_2_0_0 * r,
            r == m1_1_0_0_0_0_0,
            m0_0_1_1_2_0_0 * m1_1_0_0_0_0_0 == m1_1_1_1_2_0_0,
    ;
    let row3 = m0_0_2_0_1_1_0 * r;
    assert(row3 == m1_1_2_0_1_1_0) by (nonlinear_arith)
        requires
            row3 == m0_0_2_0_1_1_0 * r,
            r == m1_1_0_0_0_0_0,
            m0_0_2_0_1_1_0 * m1_1_0_0_0_0_0 == m1_1_2_0_1_1_0,
    ;
    assert(p * r == row0 + row1 + row2 + row3) by (nonlinear_arith)
        requires
            p == m0_0_0_2_1_1_0 + m0_0_1_1_0_2_0 + m0_0_1_1_2_0_0 + m0_0_2_0_1_1_0,
            row0 == m0_0_0_2_1_1_0 * r,
            row1 == m0_0_1_1_0_2_0 * r,
            row2 == m0_0_1_1_2_0_0 * r,
            row3 == m0_0_2_0_1_1_0 * r,
    ;
}

/// The product of the third coordinates in the right side.
proof fn lemma_associative_product_44(v: Vars, p: int, r: int)
    requires
        p == mono(v, 1, 1, 0, 0, 0, 0, 0),
        r == mono(v, 0, 0, 0, 2, 1, 1, 0) + mono(v, 0, 0, 1, 1, 0, 2, 0) + mono(v, 0, 0, 1, 1, 2,
            0, 0) + mono(v, 0, 0, 2, 0, 1, 1, 0),
    ensures
        p * r == mono(v, 1, 1, 0, 2, 1, 1, 0) + mono(v, 1, 1, 1, 1, 0, 2, 0) + mono(v, 1, 1, 1, 1, 2,
            0, 0) + mono(v, 1, 1, 2, 0, 1, 1, 0),
{
    lemma_associative_product_43(v, r, p);
    assert(p * r == r * p) by (nonlinear_arith);
}

/// The curve constant times the third coordinates in the right side.
proof fn lemma_associative_product_45(v: Vars, p: int, r: int)
    requires
        p == mono(v, 1, 1, 0, 2, 1, 1, 0) + mono(v, 1, 1, 1, 1, 0, 2, 0) + mono(v, 1, 1, 1, 1, 2,
            0, 0) + mono(v, 1, 1, 2, 0, 1, 1, 0),
        r == mono(v, 0, 0, 0, 0, 0, 0, 1),
    ensures
        p * r == mono(v, 1, 1, 0, 2, 1, 1, 1) + mono(v, 1, 1, 1, 1, 0, 2, 1) + mono(v, 1, 1, 1, 1, 2,
            0, 1) + mono(v, 1, 1, 2, 0, 1, 1, 1),
{
    let m1_1_0_2_1_1_0 = mono(v, 1, 1, 0, 2, 1, 1, 0);
    let m1_1_1_1_0_2_0 = mono(v, 1, 1, 1, 1, 0, 2, 0);
    let m1_1_1_1_2_0_0 = mono(v, 1, 1, 1, 1, 2, 0, 0);
    let m1_1_2_0_1_1_0 = mono(v, 1, 1, 2, 0, 1, 1, 0);
    let m0_0_0_0_0_0_1 = mono(v, 0, 0, 0, 0, 0, 0, 1);
    let m1_1_0_2_1_1_1 = mono(v, 1, 1, 0, 2, 1, 1, 1);
    let m1_1_1_1_0_2_1 = mono(v, 1, 1, 1, 1, 0, 2, 1);
    let m1_1_1_1_2_0_1 = mono(v, 1, 1, 1, 1, 2, 0, 1);
    let m1_1_2_0_1_1_1 = mono(v, 1, 1, 2, 0, 1, 1, 1);
    lemma_mono_mul(v, 1, 1, 0, 2, 1, 1, 0, 0, 0, 0, 0, 0, 0, 1);
    lemma_mono_mul(v, 1, 1, 1, 1, 0, 2, 0, 0, 0, 0, 0, 0, 0, 1);
    lemma_mono_mul(v, 1, 1, 1, 1, 2, 0, 0, 0, 0, 0, 0, 0, 0, 1);
    lemma_mono_mul(v, 1, 1, 2, 0, 1, 1, 0, 0, 0, 0, 0, 0, 0, 1);
    let row0 = m1_1_0_2_1_1_0 * r;
    assert(row0 == m1_1_0_2_1_1_1) by (nonlinear_arith)
        requires
            row0 == m1_1_0_2_1_1_0 * r,
            r == m0_0_0_0_0_0_1,
            m1_1_0_2_1_1_0 * m0_0_0_0_0_0_1 == m1_1_0_2_1_1_1,
    ;
    let row1 = m1_1_1_1_0_2_0 * r;
    assert(row1 == m1_1_1_1_0_2_1) by (nonlinear_arith)
        requires
            row1 == m1_1_1_1_0_2_0 * r,
            r == m0_0_0_0_0_0_1,
            m1_1_1_1_0_2_0 * m0_0_0_0_0_0_1 == m1_1_1_1_0_2_1,
    ;
    let row2 = m1_1_1_1_2_0_0 * r;
    assert(row2 == m1_1_1_1_2_0_1) by (nonlinear_arith)
        requires
            row2 == m1_1_1_1_2_0_0 * r,
            r == m0_0_0_0_0_0_1,
            m1_1_1_1_2_0_0 * m0_0_0_0_0_0_1 == m1_1_1_1_2_0_1,
    ;
    let row3 = m1_1_2_0_1_1_0 * r;
    assert(row3 == m1_1_2_0_1_1_1) by (nonlinear_arith)
        requires
            row3 == m1_1_2_0_1_1_0 * r,
            r == m0_0_0_0_0_0_1,
            m1_1_2_0_1_1_0 * m0_0_0_0_0_0_1 == m1_1_2_0_1_1_1,
    ;
    assert(p * r == row0 + row1 + row2 + row3) by (nonlinear_arith)
        requires
            p == m1_1_0_2_1_1_0 + m1_1_1_1_0_2_0 + m1_1_1_1_2_0_0 + m1_1_2_0_1_1_0,
            row0 == m1_1_0_2_1_1_0 * r,
            row1 == m1_1_1_1_0_2_0 * r,
            row2 == m1_1_1_1_2_0_0 * r,
            row3 == m1_1_2_0_1_1_0 * r,
    ;
}

/// The curve constant times the third coordinates in the right side.
proof fn lemma_associative_product_46(v: Vars, p: int, r: int)
    requires
        p == mono(v, 0, 0, 0, 0, 0, 0, 1),
        r == mono(v, 1, 1, 0, 2, 1, 1, 0) + mono(v, 1, 1, 1, 1, 0, 2, 0) + mono(v, 1, 1, 1, 1, 2,
            0, 0) + mono(v, 1, 1, 2, 0, 1, 1, 0),
    ensures
        p * r == mono(v, 1, 1, 0, 2, 1, 1, 1) + mono(v, 1, 1, 1, 1, 0, 2, 1) + mono(v, 1, 1, 1, 1, 2,
            0, 1) + mono(v, 1, 1, 2, 0, 1, 1, 1),
{
    lemma_associative_product_45(v, r, p);
    assert(p * r == r * p) by (nonlinear_arith);
}

/// A cross product of the two sides.
proof fn lemma_associative_product_47(v: Vars, p: int, r: int)
    requires
        p == mono(v, 0, 1, 0, 1, 1, 0, 0) + mono(v, 0, 1, 1, 0, 0, 1, 0) + mono(v, 1, 0, 0, 1, 0,
            1, 0) + mono(v, 1, 0, 1, 0, 1, 0, 0) + mono(v, 1, 2, 1, 2, 1, 0, 1) - mono(v, 1, 2,
            2, 1, 0, 1, 1),
        r == mono(v, 0, 0, 0, 0, 0, 0, 0) - mono(v, 0, 0, 2, 2, 2, 2, 2) + mono(v, 1, 1, 0, 2, 1,
            1, 1) + mono(v, 1, 1, 1, 1, 0, 2, 1) + mono(v, 1, 1, 1, 1, 2, 0, 1) + mono(v, 1, 1,
            2, 0, 1, 1, 1),
    ensures
        p * r == mono(v, 0, 1, 0, 1, 1, 0, 0) + mono(v, 0, 1, 1, 0, 0, 1, 0) - mono(v, 0, 1, 2, 3, 3,
            2, 2) - mono(v, 0, 1, 3, 2, 2, 3, 2) + mono(v, 1, 0, 0, 1, 0, 1, 0) + mono(v, 1, 0,
            1, 0, 1, 0, 0) - mono(v, 1, 0, 2, 3, 2, 3, 2) - mono(v, 1, 0, 3, 2, 3, 2, 2) +
            mono(v, 1, 2, 0, 3, 2, 1, 1) + mono(v, 1, 2, 1, 2, 1, 0, 1) + 2 * mono(v, 1, 2, 1,
            2, 1, 2, 1) + mono(v, 1, 2, 1, 2, 3, 0, 1) - mono(v, 1, 2, 2, 1, 0, 1, 1) + mono(v,
            1, 2, 2, 1, 0, 3, 1) + 2 * mono(v, 1, 2, 2, 1, 2, 1, 1) + mono(v, 1, 2, 3, 0, 1, 2,
            1) - mono(v, 1, 2, 3, 4, 3, 2, 3) + mono(v, 1, 2, 4, 3, 2, 3, 3) + mono(v, 2, 1, 0,
            3, 1, 2, 1) + mono(v, 2, 1, 1, 2, 0, 3, 1) + 2 * mono(v, 2, 1, 1, 2, 2, 1, 1) + 2 *
            mono(v, 2, 1, 2, 1, 1, 2, 1) + mono(v, 2, 1, 2, 1, 3, 0, 1) + mono(v, 2, 1, 3, 0, 2,
            1, 1) + mono(v, 2, 3, 1, 4, 2, 1, 2) + mono(v, 2, 3, 2, 3, 3, 0, 2) - mono(v, 2, 3,
            3, 2, 0, 3, 2) - mono(v, 2, 3, 4, 1, 1, 2, 2),
{
    let m0_1_0_1_1_0_0 = mono(v, 0, 1, 0, 1, 1, 0, 0);
    let m0_1_1_0_0_1_0 = mono(v, 0, 1, 1, 0, 0, 1, 0);
    let m1_0_0_1_0_1_0 = mono(v, 1, 0, 0, 1, 0, 1, 0);
    let m1_0_1_0_1_0_0 = mono(v, 1, 0, 1, 0, 1, 0, 0);
    let m1_2_1_2_1_0_1 = mono(v, 1, 2, 1, 2, 1, 0, 1);
    let m1_2_2_1_0_1_1 = mono(v, 1, 2, 2, 1, 0, 1, 1);
    let m0_0_0_0_0_0_0 = mono(v, 0, 0, 0, 0, 0, 0, 0);
    let m0_0_2_2_2_2_2 = mono(v, 0, 0, 2, 2, 2, 2, 2);
    let m1_1_0_2_1_1_1 = mono(v, 1, 1, 0, 2, 1, 1, 1);
    let m1_1_1_1_0_2_1 = mono(v, 1, 1, 1, 1, 0, 2, 1);
    let m1_1_1_1_2_0_1 = mono(v, 1, 1, 1, 1, 2, 0, 1);
    let m1_1_2_0_1_1_1 = mono(v, 1, 1, 2, 0, 1, 1, 1);
    let m0_1_2_3_3_2_2 = mono(v, 0, 1, 2, 3, 3, 2, 2);
    let m1_2_0_3_2_1_1 = mono(v, 1, 2, 0, 3, 2, 1, 1);
    let m1_2_1_2_1_2_1 = mono(v, 1, 2, 1, 2, 1, 2, 1);
    let m1_2_1_2_3_0_1 = mono(v, 1, 2, 1, 2, 3, 0, 1);
    let m1_2_2_1_2_1_1 = mono(v, 1, 2, 2, 1, 2, 1, 1);
    let m0_1_3_2_2_3_2 = mono(v, 0, 1, 3, 2, 2, 3, 2);
    let m1_2_2_1_0_3_1 = mono(v, 1, 2, 2, 1, 0, 3, 1);
    let m1_2_3_0_1_2_1 = mono(v, 1, 2, 3, 0, 1, 2, 1);
    let m1_0_2_3_2_3_2 = mono(v, 1, 0, 2, 3, 2, 3, 2);
    let m2_1_0_3_1_2_1 = mono(v, 2, 1, 0, 3, 1, 2, 1);
    let m2_1_1_2_0_3_1 = mono(v, 2, 1, 1, 2, 0, 3, 1);
    let m2_1_1_2_2_1_1 = mono(v, 2, 1, 1, 2, 2, 1, 1);
    let m2_1_2_1_1_2_1 = mono(v, 2, 1, 2, 1, 1, 2, 1);
    let m1_0_3_2_3_2_2 = mono(v, 1, 0, 3, 2, 3, 2, 2);
    let m2_1_2_1_3_0_1 = mono(v, 2, 1, 2, 1, 3, 0, 1);
    let m2_1_3_0_2_1_1 = mono(v, 2, 1, 3, 0, 2, 1, 1);
    let m1_2_3_4_3_2_3 = mono(v, 1, 2, 3, 4, 3, 2, 3);
    let m2_3_1_4_2_1_2 = mono(v, 2, 3, 1, 4, 2, 1, 2);
    let m2_3_2_3_1_2_2 = mono(v, 2, 3, 2, 3, 1, 2, 2);
    let m2_3_2_3_3_0_2 = mono(v, 2, 3, 2, 3, 3, 0, 2);
    let m2_3_3_2_2_1_2 = mono(v, 2, 3, 3, 2, 2, 1, 2);
    let m1_2_4_3_2_3_3 = mono(v, 1, 2, 4, 3, 2, 3, 3);
    let m2_3_3_2_0_3_2 = mono(v, 2, 3, 3, 2, 0, 3, 2);
    let m2_3_4_1_1_2_2 = mono(v, 2, 3, 4, 1, 1, 2, 2);
    lemma_mono_mul(v, 0, 1, 0, 1, 1, 0, 0, 0, 0, 0, 0, 0, 0, 0);
    lemma_mono_mul(v, 0, 1, 0, 1, 1, 0, 0, 0, 0, 2, 2, 2, 2, 2);
    lemma_mono_mul(v, 0, 1, 0, 1, 1, 0, 0, 1, 1, 0, 2, 1, 1, 1);
    lemma_mono_mul(v, 0, 1, 0, 1, 1, 0, 0, 1, 1, 1, 1, 0, 2, 1);
    lemma_mono_mul(v, 0, 1, 0, 1, 1, 0, 0, 1, 1, 1, 1, 2, 0, 1);
    lemma_mono_mul(v, 0, 1, 0, 1, 1, 0, 0, 1, 1, 2, 0, 1, 1, 1);
    lemma_mono_mul(v, 0, 1, 1, 0, 0, 1, 0, 0, 0, 0, 0, 0, 0, 0);
    lemma_mono_mul(v, 0, 1, 1, 0, 0, 1, 0, 0, 0, 2, 2, 2, 2, 2);
    lemma_mono_mul(v, 0, 1, 1, 0, 0, 1, 0, 1, 1, 0, 2, 1, 1, 1);
    lemma_mono_mul(v, 0, 1, 1, 0, 0, 1, 0, 1, 1, 1, 1, 0, 2, 1);
    lemma_mono_mul(v, 0, 1, 1, 0, 0, 1, 0, 1, 1, 1, 1, 2, 0, 1);
    lemma_mono_mul(v, 0, 1, 1, 0, 0, 1, 0, 1, 1, 2, 0, 1, 1, 1);
    lemma_mono_mul(v, 1, 0, 0, 1, 0, 1, 0, 0, 0, 0, 0, 0, 0, 0);
    lemma_mono_mul(v, 1, 0, 0, 1, 0, 1, 0, 0, 0, 2, 2, 2, 2, 2);
    lemma_mono_mul(v, 1, 0, 0, 1, 0, 1, 0, 1, 1, 0, 2, 1, 1, 1);
    lemma_mono_mul(v, 1, 0, 0, 1, 0, 1, 0, 1, 1, 1, 1, 0, 2, 1);
    lemma_mono_mul(v, 1, 0, 0, 1, 0, 1, 0, 1, 1, 1, 1, 2, 0, 1);
    lemma_mono_mul(v, 1, 0, 0, 1, 0, 1, 0, 1, 1, 2, 0, 1, 1, 1);
    lemma_mono_mul(v, 1, 0, 1, 0, 1, 0, 0, 0, 0, 0, 0, 0, 0, 0);
    lemma_mono_mul(v, 1, 0, 1, 0, 1, 0, 0, 0, 0, 2, 2, 2, 2, 2);
    lemma_mono_mul(v, 1, 0, 1, 0, 1, 0, 0, 1, 1, 0, 2, 1, 1, 1);
    lemma_mono_mul(v, 1, 0, 1, 0, 1, 0, 0, 1, 1, 1, 1, 0, 2, 1);
    lemma_mono_mul(v, 1, 0, 1, 0, 1, 0, 0, 1, 1, 1, 1, 2, 0, 1);
    lemma_mono_mul(v, 1, 0, 1, 0, 1, 0, 0, 1, 1, 2, 0, 1, 1, 1);
    lemma_mono_mul(v, 1, 2, 1, 2, 1, 0, 1, 0, 0, 0, 0, 0, 0, 0);
    lemma_mono_mul(v, 1, 2, 1, 2, 1, 0, 1, 0, 0, 2, 2, 2, 2, 2);
    lemma_mono_mul(v, 1, 2, 1, 2, 1, 0, 1, 1, 1, 0, 2, 1, 1, 1);
    lemma_mono_mul(v, 1, 2, 1, 2, 1, 0, 1, 1, 1, 1, 1, 0, 2, 1);
    lemma_mono_mul(v, 1, 2, 1, 2, 1, 0, 1, 1, 1, 1, 1, 2, 0, 1);
    lemma_mono_mul(v, 1, 2, 1, 2, 1, 0, 1, 1, 1, 2, 0, 1, 1, 1);
    lemma_mono_mul(v, 1, 2, 2, 1, 0, 1, 1, 0, 0, 0, 0, 0, 0, 0);
    lemma_mono_mul(v, 1, 2, 2, 1, 0, 1, 1, 0, 0, 2, 2, 2, 2, 2);
    lemma_mono_mul(v, 1, 2, 2, 1, 0, 1, 1, 1, 1, 0, 2, 1, 1, 1);
    lemma_mono_mul(v, 1, 2, 2, 1, 0, 1, 1, 1, 1, 1, 1, 0, 2, 1);
    lemma_mono_mul(v, 1, 2, 2, 1, 0, 1, 1, 1, 1, 1, 1, 2, 0, 1);
    lemma_mono_mul(v, 1, 2, 2, 1, 0, 1, 1, 1, 1, 2, 0, 1, 1, 1);
    let row0 = m0_1_0_1_1_0_0 * r;
    assert(row0 == m0_1_0_1_1_0_0 - m0_1_2_3_3_2_2 + m1_2_0_3_2_1_1 + m1_2_1_2_1_2_1 + m1_2_1_2_3_0_1 +
        m1_2_2_1_2_1_1) by (nonlinear_arith)
        requires
            row0 == m0_1_0_1_1_0_0 * r,
            r == m0_0_0_0_0_0_0 - m0_0_2_2_2_2_2 + m1_1_0_2_1_1_1 + m1_1_1_1_0_2_1 +
                m1_1_1_1_2_0_1 + m1_1_2_0_1_1_1,
            m0_1_0_1_1_0_0 * m0_0_0_0_0_0_0 == m0_1_0_1_1_0_0,
            m0_1_0_1_1_0_0 * m0_0_2_2_2_2_2 == m0_1_2_3_3_2_2,
            m0_1_0_1_1_0_0 * m1_1_0_2_1_1_1 == m1_2_0_3_2_1_1,
            m0_1_0_1_1_0_0 * m1_1_1_1_0_2_1 == m1_2_1_2_1_2_1,
            m0_1_0_1_1_0_0 * m1_1_1_1_2_0_1 == m1_2_1_2_3_0_1,
            m0_1_0_1_1_0_0 * m1_1_2_0_1_1_1 == m1_2_2_1_2_1_1,
    ;
    let row1 = m0_1_1_0_0_1_0 * r;
    assert(row1 == m0_1_1_0_0_1_0 - m0_1_3_2_2_3_2 + m1_2_1_2_1_2_1 + m1_2_2_1_0_3_1 + m1_2_2_1_2_1_1 +
        m1_2_3_0_1_2_1) by (nonlinear_arith)
        requires
            row1 == m0_1_1_0_0_1_0 * r,
            r == m0_0_0_0_0_0_0 - m0_0_2_2_2_2_2 + m1_1_0_2_1_1_1 + m1_1_1_1_0_2_1 +
                m1_1_1_1_2_0_1 + m1_1_2_0_1_1_1,
            m0_1_1_0_0_1_0 * m0_0_0_0_0_0_0 == m0_1_1_0_0_1_0,
            m0_1_1_0_0_1_0 * m0_0_2_2_2_2_2 == m0_1_3_2_2_3_2,
            m0_1_1_0_0_1_0 * m1_1_0_2_1_1_1 == m1_2_1_2_1_2_1,
            m0_1_1_0_0_1_0 * m1_1_1_1_0_2_1 == m1_2_2_1_0_3_1,
            m0_1_1_0_0_1_0 * m1_1_1_1_2_0_1 == m1_2_2_1_2_1_1,
            m0_1_1_0_0_1_0 * m1_1_2_0_1_1_1 == m1_2_3_0_1_2_1,
    ;
    let row2 = m1_0_0_1_0_1_0 * r;
    assert(row2 == m1_0_0_1_0_1_0 - m1_0_2_3_2_3_2 + m2_1_0_3_1_2_1 + m2_1_1_2_0_3_1 + m2_1_1_2_2_1_1 +
        m2_1_2_1_1_2_1) by (nonlinear_arith)
        requires
            row2 == m1_0_0_1_0_1_0 * r,
            r == m0_0_0_0_0_0_0 - m0_0_2_2_2_2_2 + m1_1_0_2_1_1_1 + m1_1_1_1_0_2_1 +
                m1_1_1_1_2_0_1 + m1_1_2_0_1_1_1,
            m1_0_0_1_0_1_0 * m0_0_0_0_0_0_0 == m1_0_0_1_0_1_0,
            m1_0_0_1_0_1_0 * m0_0_2_2_2_2_2 == m1_0_2_3_2_3_2,
            m1_0_0_1_0_1_0 * m1_1_0_2_1_1_1 == m2_1_0_3_1_2_1,
            m1_0_0_1_0_1_0 * m1_1_1_1_0_2_1 == m2_1_1_2_0_3_1,
            m1_0_0_1_0_1_0 * m1_1_1_1_2_0_1 == m2_1_1_2_2_1_1,
            m1_0_0_1_0_1_0 * m1_1_2_0_1_1_1 == m2_1_2_1_1_2_1,
    ;
    let row3 = m1_0_1_0_1_0_0 * r;
    assert(row3 == m1_0_1_0_1_0_0 - m1_0_3_2_3_2_2 + m2_1_1_2_2_1_1 + m2_1_2_1_1_2_1 + m2_1_2_1_3_0_1 +
        m2_1_3_0_2_1_1) by (nonlinear_arith)
        requires
            row3 == m1_0_1_0_1_0_0 * r,
            r == m0_0_0_0_0_0_0 - m0_0_2_2_2_2_2 + m1_1_0_2_1_1_1 + m1_1_1_1_0_2_1 +
                m1_1_1_1_2_0_1 + m1_1_2_0_1_1_1,
            m1_0_1_0_1_0_0 * m0_0_0_0_0_0_0 == m1_0_1_0_1_0_0,
            m1_0_1_0_1_0_0 * m0_0_2_2_2_2_2 == m1_0_3_2_3_2_2,
            m1_0_1_0_1_0_0 * m1_1_0_2_1_1_1 == m2_1_1_2_2_1_1,
            m1_0_1_0_1_0_0 * m1_1_1_1_0_2_1 == m2_1_2_1_1_2_1,
            m1_0_1_0_1_0_0 * m1_1_1_1_2_0_1 == m2_1_2_1_3_0_1,
            m1_0_1_0_1_0_0 * m1_1_2_0_1_1_1 == m2_1_3_0_2_1_1,
    ;
    let row4 = m1_2_1_2_1_0_1 * r;
    assert(row4 == m1_2_1_2_1_0_1 - m1_2_3_4_3_2_3 + m2_3_1_4_2_1_2 + m2_3_2_3_1_2_2 + m2_3_2_3_3_0_2 +
        m2_3_3_2_2_1_2) by (nonlinear_arith)
        requires
            row4 == m1_2_1_2_1_0_1 * r,
            r == m0_0_0_0_0_0_0 - m0_0_2_2_2_2_2 + m1_1_0_2_1_1_1 + m1_1_1_1_0_2_1 +
                m1_1_1_1_2_0_1 + m1_1_2_0_1_1_1,
            m1_2_1_2_1_0_1 * m0_0_0_0_0_0_0 == m1_2_1_2_1_0_1,
            m1_2_1_2_1_0_1 * m0_0_2_2_2_2_2 == m1_2_3_4_3_2_3,
            m1_2_1_2_1_0_1 * m1_1_0_2_1_1_1 == m2_3_1_4_2_1_2,
            m1_2_1_2_1_0_1 * m1_1_1_1_0_2_1 == m2_3_2_3_1_2_2,
            m1_2_1_2_1_0_1 * m1_1_1_1_2_0_1 == m2_3_2_3_3_0_2,
            m1_2_1_2_1_0_1 * m1_1_2_0_1_1_1 == m2_3_3_2_2_1_2,
    ;
    let row5 = m1_2_2_1_0_1_1 * r;
    assert(row5 == m1_2_2_1_0_1_1 - m1_2_4_3_2_3_3 + m2_3_2_3_1_2_2 + m2_3_3_2_0_3_2 + m2_3_3_2_2_1_2 +
        m2_3_4_1_1_2_2) by (nonlinear_arith)
        requires
            row5 == m1_2_2_1_0_1_1 * r,
            r == m0_0_0_0_0_0_0 - m0_0_2_2_2_2_2 + m1_1_0_2_1_1_1 + m1_1_1_1_0_2_1 +
                m1_1_1_1_2_0_1 + m1_1_2_0_1_1_1,
            m1_2_2_1_0_1_1 * m0_0_0_0_0_0_0 == m1_2_2_1_0_1_1,
            m1_2_2_1_0_1_1 * m0_0_2_2_2_2_2 == m1_2_4_3_2_3_3,
            m1_2_2_1_0_1_1 * m1_1_0_2_1_1_1 == m2_3_2_3_1_2_2,
            m1_2_2_1_0_1_1 * m1_1_1_1_0_2_1 == m2_3_3_2_0_3_2,
            m1_2_2_1_0_1_1 * m1_1_1_1_2_0_1 == m2_3_3_2_2_1_2,
            m1_2_2_1_0_1_1 * m1_1_2_0_1_1_1 == m2_3_4_1_1_2_2,
    ;
    assert(p * r == row0 + row1 + row2 + row3 + row4 - row5) by (nonlinear_arith)
        requires
            p == m0_1_0_1_1_0_0 + m0_1_1_0_0_1_0 + m1_0_0_1_0_1_0 + m1_0_1_0_1_0_0 +
                m1_2_1_2_1_0_1 - m1_2_2_1_0_1_1,
            row0 == m0_1_0_1_1_0_0 * r,
            row1 == m0_1_1_0_0_1_0 * r,
            row2 == m1_0_0_1_0_1_0 * r,
            row3 == m1_0_1_0_1_0_0 * r,
            row4 == m1_2_1_2_1_0_1 * r,
            row5 == m1_2_2_1_0_1_1 * r,
    ;
}

/// A cross product of the two sides.
proof fn lemma_associative_product_48(v: Vars, p: int, r: int)
    requires
        p == mono(v, 0, 0, 0, 0, 0, 0, 0) - mono(v, 0, 0, 2, 2, 2, 2, 2) + mono(v, 1, 1, 0, 2, 1,
            1, 1) + mono(v, 1, 1, 1, 1, 0, 2, 1) + mono(v, 1, 1, 1, 1, 2, 0, 1) + mono(v, 1, 1,
            2, 0, 1, 1, 1),
        r == -mono(v, 2, 1, 1, 2, 0, 1, 1) + mono(v, 2, 1, 2, 1, 1, 0, 1),
    ensures
        p * r == -mono(v, 2, 1, 1, 2, 0, 1, 1) + mono(v, 2, 1, 2, 1, 1, 0, 1) + mono(v, 2, 1, 3, 4,
            2, 3, 3) - mono(v, 2, 1, 4, 3, 3, 2, 3) - mono(v, 3, 2, 1, 4, 1, 2, 2) - mono(v, 3,
            2, 2, 3, 0, 3, 2) + mono(v, 3, 2, 3, 2, 3, 0, 2) + mono(v, 3, 2, 4, 1, 2, 1, 2),
{
    let m0_0_0_0_0_0_0 = mono(v, 0, 0, 0, 0, 0, 0, 0);
    let m0_0_2_2_2_2_2 = mono(v, 0, 0, 2, 2, 2, 2, 2);
    let m1_1_0_2_1_1_1 = mono(v, 1, 1, 0, 2, 1, 1, 1);
    let m1_1_1_1_0_2_1 = mono(v, 1, 1, 1, 1, 0, 2, 1);
    let m1_1_1_1_2_0_1 = mono(v, 1, 1, 1, 1, 2, 0, 1);
    let m1_1_2_0_1_1_1 = mono(v, 1, 1, 2, 0, 1, 1, 1);
    let m2_1_1_2_0_1_1 = mono(v, 2, 1, 1, 2, 0, 1, 1);
    let m2_1_2_1_1_0_1 = mono(v, 2, 1, 2, 1, 1, 0, 1);
    let m2_1_3_4_2_3_3 = mono(v, 2, 1, 3, 4, 2, 3, 3);
    let m2_1_4_3_3_2_3 = mono(v, 2, 1, 4, 3, 3, 2, 3);
    let m3_2_1_4_1_2_2 = mono(v, 3, 2, 1, 4, 1, 2, 2);
    let m3_2_2_3_2_1_2 = mono(v, 3, 2, 2, 3, 2, 1, 2);
    let m3_2_2_3_0_3_2 = mono(v, 3, 2, 2, 3, 0, 3, 2);
    let m3_2_3_2_1_2_2 = mono(v, 3, 2, 3, 2, 1, 2, 2);
    let m3_2_3_2_3_0_2 = mono(v, 3, 2, 3, 2, 3, 0, 2);
    let m3_2_4_1_2_1_2 = mono(v, 3, 2, 4, 1, 2, 1, 2);
    lemma_mono_mul(v, 0, 0, 0, 0, 0, 0, 0, 2, 1, 1, 2, 0, 1, 1);
    lemma_mono_mul(v, 0, 0, 0, 0, 0, 0, 0, 2, 1, 2, 1, 1, 0, 1);
    lemma_mono_mul(v, 0, 0, 2, 2, 2, 2, 2, 2, 1, 1, 2, 0, 1, 1);
    lemma_mono_mul(v, 0, 0, 2, 2, 2, 2, 2, 2, 1, 2, 1, 1, 0, 1);
    lemma_mono_mul(v, 1, 1, 0, 2, 1, 1, 1, 2, 1, 1, 2, 0, 1, 1);
    lemma_mono_mul(v, 1, 1, 0, 2, 1, 1, 1, 2, 1, 2, 1, 1, 0, 1);
    lemma_mono_mul(v, 1, 1, 1, 1, 0, 2, 1, 2, 1, 1, 2, 0, 1, 1);
    lemma_mono_mul(v, 1, 1, 1, 1, 0, 2, 1, 2, 1, 2, 1, 1, 0, 1);
    lemma_mono_mul(v, 1, 1, 1, 1, 2, 0, 1, 2, 1, 1, 2, 0, 1, 1);
    lemma_mono_mul(v, 1, 1, 1, 1, 2, 0, 1, 2, 1, 2, 1, 1, 0, 1);
    lemma_mono_mul(v, 1, 1, 2, 0, 1, 1, 1, 2, 1, 1, 2, 0, 1, 1);
    lemma_mono_mul(v, 1, 1, 2, 0, 1, 1, 1, 2, 1, 2, 1, 1, 0, 1);
    let row0 = m0_0_0_0_0_0_0 * r;
    assert(row0 == -m2_1_1_2_0_1_1 + m2_1_2_1_1_0_1) by (nonlinear_arith)
        requires
            row0 == m0_0_0_0_0_0_0 * r,
            r == -m2_1_1_2_0_1_1 + m2_1_2_1_1_0_1,
            m0_0_0_0_0_0_0 * m2_1_1_2_0_1_1 == m2_1_1_2_0_1_1,
            m0_0_0_0_0_0_0 * m2_1_2_1_1_0_1 == m2_1_2_1_1_0_1,
    ;
    let row1 = m0_0_2_2_2_2_2 * r;
    assert(row1 == -m2_1_3_4_2_3_3 + m2_1_4_3_3_2_3) by (nonlinear_arith)
        requires
            row1 == m0_0_2_2_2_2_2 * r,
            r == -m2_1_1_2_0_1_1 + m2_1_2_1_1_0_1,
            m0_0_2_2_2_2_2 * m2_1_1_2_0_1_1 == m2_1_3_4_2_3_3,
            m0_0_2_2_2_2_2 * m2_1_2_1_1_0_1 == m2_1_4_3_3_2_3,
    ;
    let row2 = m1_1_0_2_1_1_1 * r;
    assert(row2 == -m3_2_1_4_1_2_2 + m3_2_2_3_2_1_2) by (nonlinear_arith)
        requires
            row2 == m1_1_0_2_1_1_1 * r,
            r == -m2_1_1_2_0_1_1 + m2_1_2_1_1_0_1,
            m1_1_0_2_1_1_1 * m2_1_1_2_0_1_1 == m3_2_1_4_1_2_2,
            m1_1_0_2_1_1_1 * m2_1_2_1_1_0_1 == m3_2_2_3_2_1_2,
    ;
    let row3 = m1_1_1_1_0_2_1 * r;
    assert(row3 == -m3_2_2_3_0_3_2 + m3_2_3_2_1_2_2) by (nonlinear_arith)
        requires
            row3 == m1_1_1_1_0_2_1 * r,
            r == -m2_1_1_2_0_1_1 + m2_1_2_1_1_0_1,
            m1_1_1_1_0_2_1 * m2_1_1_2_0_1_1 == m3_2_2_3_0_3_2,
            m1_1_1_1_0_2_1 * m2_1_2_1_1_0_1 == m3_2_3_2_1_2_2,
    ;
    let row4 = m1_1_1_1_2_0_1 * r;
    assert(row4 == -m3_2_2_3_2_1_2 + m3_2_3_2_3_0_2) by (nonlinear_arith)
        requires
            row4 == m1_1_1_1_2_0_1 * r,
            r == -m2_1_1_2_0_1_1 + m2_1_2_1_1_0_1,
            m1_1_1_1_2_0_1 * m2_1_1_2_0_1_1 == m3_2_2_3_2_1_2,
            m1_1_1_1_2_0_1 * m2_1_2_1_1_0_1 == m3_2_3_2_3_0_2,
    ;
    let row5 = m1_1_2_0_1_1_1 * r;
    assert(row5 == -m3_2_3_2_1_2_2 + m3_2_4_1_2_1_2) by (nonlinear_arith)
        requires
            row5 == m1_1_2_0_1_1_1 * r,
            r == -m2_1_1_2_0_1_1 + m2_1_2_1_1_0_1,
            m1_1_2_0_1_1_1 * m2_1_1_2_0_1_1 == m3_2_3_2_1_2_2,
            m1_1_2_0_1_1_1 * m2_1_2_1_1_0_1 == m3_2_4_1_2_1_2,
    ;
    assert(p * r == row0 - row1 + row2 + row3 + row4 + row5) by (nonlinear_arith)
        requires
            p == m0_0_0_0_0_0_0 - m0_0_2_2_2_2_2 + m1_1_0_2_1_1_1 + m1_1_1_1_0_2_1 +
                m1_1_1_1_2_0_1 + m1_1_2_0_1_1_1,
            row0 == m0_0_0_0_0_0_0 * r,
            row1 == m0_0_2_2_2_2_2 * r,
            row2 == m1_1_0_2_1_1_1 * r,
            row3 == m1_1_1_1_0_2_1 * r,
            row4 == m1_1_1_1_2_0_1 * r,
            row5 == m1_1_2_0_1_1_1 * r,
    ;
}

/// A cross product of the two sides.
proof fn lemma_associative_product_49(v: Vars, p: int, r: int)
    requires
        p == -mono(v, 2, 1, 1, 2, 0, 1, 1) + mono(v, 2, 1, 2, 1, 1, 0, 1),
        r == mono(v, 0, 0, 0, 0, 0, 0, 0) - mono(v, 0, 0, 2, 2, 2, 2, 2) + mono(v, 1, 1, 0, 2, 1,
            1, 1) + mono(v, 1, 1, 1, 1, 0, 2, 1) + mono(v, 1, 1, 1, 1, 2, 0, 1) + mono(v, 1, 1,
            2, 0, 1, 1, 1),
    ensures
        p * r == -mono(v, 2, 1, 1, 2, 0, 1, 1) + mono(v, 2, 1, 2, 1, 1, 0, 1) + mono(v, 2, 1, 3, 4,
            2, 3, 3) - mono(v, 2, 1, 4, 3, 3, 2, 3) - mono(v, 3, 2, 1, 4, 1, 2, 2) - mono(v, 3,
            2, 2, 3, 0, 3, 2) + mono(v, 3, 2, 3, 2, 3, 0, 2) + mono(v, 3, 2, 4, 1, 2, 1, 2),
{
    lemma_associative_product_48(v, r, p);
    assert(p * r == r * p) by (nonlinear_arith);
}

/// A cross product of the two sides.
proof fn lemma_associative_product_50(v: Vars, p: int, r: int)
    requires
        p == mono(v, 0, 1, 0, 1, 1, 0, 0) + mono(v, 0, 1, 1, 0, 0, 1, 0) + mono(v, 1, 0, 0, 1, 0,
            1, 0) + mono(v, 1, 0, 1, 0, 1, 0, 0) + mono(v, 1, 2, 1, 2, 1, 0, 1) - mono(v, 1, 2,
            2, 1, 0, 1, 1) - mono(v, 2, 1, 1, 2, 0, 1, 1) + mono(v, 2, 1, 2, 1, 1, 0, 1),
        r == mono(v, 0, 0, 0, 0, 0, 0, 0) - mono(v, 0, 0, 2, 2, 2, 2, 2) + mono(v, 1, 1, 0, 2, 1,
            1, 1) + mono(v, 1, 1, 1, 1, 0, 2, 1) + mono(v, 1, 1, 1, 1, 2, 0, 1) + mono(v, 1, 1,
            2, 0, 1, 1, 1),
    ensures
        p * r == mono(v, 0, 1, 0, 1, 1, 0, 0) + mono(v, 0, 1, 1, 0, 0, 1, 0) - mono(v, 0, 1, 2, 3, 3,
            2, 2) - mono(v, 0, 1, 3, 2, 2, 3, 2) + mono(v, 1, 0, 0, 1, 0, 1, 0) + mono(v, 1, 0,
            1, 0, 1, 0, 0) - mono(v, 1, 0, 2, 3, 2, 3, 2) - mono(v, 1, 0, 3, 2, 3, 2, 2) +
            mono(v, 1, 2, 0, 3, 2, 1, 1) + mono(v, 1, 2, 1, 2, 1, 0, 1) + 2 * mono(v, 1, 2, 1,
            2, 1, 2, 1) + mono(v, 1, 2, 1, 2, 3, 0, 1) - mono(v, 1, 2, 2, 1, 0, 1, 1) + mono(v,
            1, 2, 2, 1, 0, 3, 1) + 2 * mono(v, 1, 2, 2, 1, 2, 1, 1) + mono(v, 1, 2, 3, 0, 1, 2,
            1) - mono(v, 1, 2, 3, 4, 3, 2, 3) + mono(v, 1, 2, 4, 3, 2, 3, 3) + mono(v, 2, 1, 0,
            3, 1, 2, 1) - mono(v, 2, 1, 1, 2, 0, 1, 1) + mono(v, 2, 1, 1, 2, 0, 3, 1) + 2 *
            mono(v, 2, 1, 1, 2, 2, 1, 1) + mono(v, 2, 1, 2, 1, 1, 0, 1) + 2 * mono(v, 2, 1, 2,
            1, 1, 2, 1) + mono(v, 2, 1, 2, 1, 3, 0, 1) + mono(v, 2, 1, 3, 0, 2, 1, 1) + mono(v,
            2, 1, 3, 4, 2, 3, 3) - mono(v, 2, 1, 4, 3, 3, 2, 3) + mono(v, 2, 3, 1, 4, 2, 1, 2) +
            mono(v, 2, 3, 2, 3, 3, 0, 2) - mono(v, 2, 3, 3, 2, 0, 3, 2) - mono(v, 2, 3, 4, 1, 1,
            2, 2) - mono(v, 3, 2, 1, 4, 1, 2, 2) - mono(v, 3, 2, 2, 3, 0, 3, 2) + mono(v, 3, 2,
            3, 2, 3, 0, 2) + mono(v, 3, 2, 4, 1, 2, 1, 2),
{
    let p0 = mono(v, 0, 1, 0, 1, 1, 0, 0) + mono(v, 0, 1, 1, 0, 0, 1, 0) + mono(v, 1, 0, 0, 1, 0, 1,
        0) + mono(v, 1, 0, 1, 0, 1, 0, 0) + mono(v, 1, 2, 1, 2, 1, 0, 1) - mono(v, 1, 2, 2, 1,
        0, 1, 1);
    lemma_associative_product_47(v, p0, r);
    let t0 = p0 * r;
    let p1 = -mono(v, 2, 1, 1, 2, 0, 1, 1) + mono(v, 2, 1, 2, 1, 1, 0, 1);
    lemma_associative_product_49(v, p1, r);
    let t1 = p1 * r;
    assert(p * r == t0 + t1) by (nonlinear_arith)
        requires
            p == p0 + p1,
            t0 == p0 * r,
            t1 == p1 * r,
    ;
}

/// A cross product of the two sides.
proof fn lemma_associative_product_51(v: Vars, p: int, r: int)
    requires
        p == mono(v, 0, 1, 0, 1, 1, 0, 0) + mono(v, 0, 1, 1, 0, 0, 1, 0) - mono(v, 0, 1, 1, 2, 2,
            1, 1) - mono(v, 0, 1, 2, 1, 1, 2, 1) + mono(v, 1, 0, 0, 1, 0, 1, 0) + mono(v, 1, 0,
            1, 0, 1, 0, 0),
        r == mono(v, 0, 0, 0, 0, 0, 0, 0) + mono(v, 0, 2, 1, 1, 1, 1, 1) + mono(v, 1, 1, 0, 2, 1,
            1, 1) + mono(v, 1, 1, 2, 0, 1, 1, 1) + mono(v, 2, 0, 1, 1, 1, 1, 1) - mono(v, 2, 2,
            2, 2, 0, 0, 2),
    ensures
        p * r == mono(v, 0, 1, 0, 1, 1, 0, 0) + mono(v, 0, 1, 1, 0, 0, 1, 0) - mono(v, 0, 1, 1, 2, 2,
            1, 1) - mono(v, 0, 1, 2, 1, 1, 2, 1) + mono(v, 0, 3, 1, 2, 2, 1, 1) + mono(v, 0, 3,
            2, 1, 1, 2, 1) - mono(v, 0, 3, 2, 3, 3, 2, 2) - mono(v, 0, 3, 3, 2, 2, 3, 2) +
            mono(v, 1, 0, 0, 1, 0, 1, 0) + mono(v, 1, 0, 1, 0, 1, 0, 0) + mono(v, 1, 2, 0, 3, 2,
            1, 1) + 2 * mono(v, 1, 2, 1, 2, 1, 2, 1) - mono(v, 1, 2, 1, 4, 3, 2, 2) + 2 *
            mono(v, 1, 2, 2, 1, 2, 1, 1) - mono(v, 1, 2, 2, 3, 2, 3, 2) + mono(v, 1, 2, 3, 0, 1,
            2, 1) - mono(v, 1, 2, 3, 2, 3, 2, 2) - mono(v, 1, 2, 4, 1, 2, 3, 2) + mono(v, 2, 1,
            0, 3, 1, 2, 1) + 2 * mono(v, 2, 1, 1, 2, 2, 1, 1) + 2 * mono(v, 2, 1, 2, 1, 1, 2, 1)
            - mono(v, 2, 1, 2, 3, 3, 2, 2) + mono(v, 2, 1, 3, 0, 2, 1, 1) - mono(v, 2, 1, 3, 2,
            2, 3, 2) - mono(v, 2, 3, 2, 3, 1, 0, 2) - mono(v, 2, 3, 3, 2, 0, 1, 2) + mono(v, 2,
            3, 3, 4, 2, 1, 3) + mono(v, 2, 3, 4, 3, 1, 2, 3) + mono(v, 3, 0, 1, 2, 1, 2, 1) +
            mono(v, 3, 0, 2, 1, 2, 1, 1) - mono(v, 3, 2, 2, 3, 0, 1, 2) - mono(v, 3, 2, 3, 2, 1,
            0, 2),
{
    let m0_1_0_1_1_0_0 = mono(v, 0, 1, 0, 1, 1, 0, 0);
    let m0_1_1_0_0_1_0 = mono(v, 0, 1, 1, 0, 0, 1, 0);
    let m0_1_1_2_2_1_1 = mono(v, 0, 1, 1, 2, 2, 1, 1);
    let m0_1_2_1_1_2_1 = mono(v, 0, 1, 2, 1, 1, 2, 1);
    let m1_0_0_1_0_1_0 = mono(v, 1, 0, 0, 1, 0, 1, 0);
    let m1_0_1_0_1_0_0 = mono(v, 1, 0, 1, 0, 1, 0, 0);
    let m0_0_0_0_0_0_0 = mono(v, 0, 0, 0, 0, 0, 0, 0);
    let m0_2_1_1_1_1_1 = mono(v, 0, 2, 1, 1, 1, 1, 1);
    let m1_1_0_2_1_1_1 = mono(v, 1, 1, 0, 2, 1, 1, 1);
    let m1_1_2_0_1_1_1 = mono(v, 1, 1, 2, 0, 1, 1, 1);
    let m2_0_1_1_1_1_1 = mono(v, 2, 0, 1, 1, 1, 1, 1);
    let m2_2_2_2_0_0_2 = mono(v, 2, 2, 2, 2, 0, 0, 2);
    let m0_3_1_2_2_1_1 = mono(v, 0, 3, 1, 2, 2, 1, 1);
    let m1_2_0_3_2_1_1 = mono(v, 1, 2, 0, 3, 2, 1, 1);
    let m1_2_2_1_2_1_1 = mono(v, 1, 2, 2, 1, 2, 1, 1);
    let m2_1_1_2_2_1_1 = mono(v, 2, 1, 1, 2, 2, 1, 1);
    let m2_3_2_3_1_0_2 = mono(v, 2, 3, 2, 3, 1, 0, 2);
    let m0_3_2_1_1_2_1 = mono(v, 0, 3, 2, 1, 1, 2, 1);
    let m1_2_1_2_1_2_1 = mono(v, 1, 2, 1, 2, 1, 2, 1);
    let m1_2_3_0_1_2_1 = mono(v, 1, 2, 3, 0, 1, 2, 1);
    let m2_1_2_1_1_2_1 = mono(v, 2, 1, 2, 1, 1, 2, 1);
    let m2_3_3_2_0_1_2 = mono(v, 2, 3, 3, 2, 0, 1, 2);
    let m0_3_2_3_3_2_2 = mono(v, 0, 3, 2, 3, 3, 2, 2);
    let m1_2_1_4_3_2_2 = mono(v, 1, 2, 1, 4, 3, 2, 2);
    let m1_2_3_2_3_2_2 = mono(v, 1, 2, 3, 2, 3, 2, 2);
    let m2_1_2_3_3_2_2 = mono(v, 2, 1, 2, 3, 3, 2, 2);
    let m2_3_3_4_2_1_3 = mono(v, 2, 3, 3, 4, 2, 1, 3);
    let m0_3_3_2_2_3_2 = mono(v, 0, 3, 3, 2, 2, 3, 2);
    let m1_2_2_3_2_3_2 = mono(v, 1, 2, 2, 3, 2, 3, 2);
    let m1_2_4_1_2_3_2 = mono(v, 1, 2, 4, 1, 2, 3, 2);
    let m2_1_3_2_2_3_2 = mono(v, 2, 1, 3, 2, 2, 3, 2);
    let m2_3_4_3_1_2_3 = mono(v, 2, 3, 4, 3, 1, 2, 3);
    let m2_1_0_3_1_2_1 = mono(v, 2, 1, 0, 3, 1, 2, 1);
    let m3_0_1_2_1_2_1 = mono(v, 3, 0, 1, 2, 1, 2, 1);
    let m3_2_2_3_0_1_2 = mono(v, 3, 2, 2, 3, 0, 1, 2);
    let m2_1_3_0_2_1_1 = mono(v, 2, 1, 3, 0, 2, 1, 1);
    let m3_0_2_1_2_1_1 = mono(v, 3, 0, 2, 1, 2, 1, 1);
    let m3_2_3_2_1_0_2 = mono(v, 3, 2, 3, 2, 1, 0, 2);
    lemma_mono_mul(v, 0, 1, 0, 1, 1, 0, 0, 0, 0, 0, 0, 0, 0, 0);
    lemma_mono_mul(v, 0, 1, 0, 1, 1, 0, 0, 0, 2, 1, 1, 1, 1, 1);
    lemma_mono_mul(v, 0, 1, 0, 1, 1, 0, 0, 1, 1, 0, 2, 1, 1, 1);
    lemma_mono_mul(v, 0, 1, 0, 1, 1, 0, 0, 1, 1, 2, 0, 1, 1, 1);
    lemma_mono_mul(v, 0, 1, 0, 1, 1, 0, 0, 2, 0, 1, 1, 1, 1, 1);
    lemma_mono_mul(v, 0, 1, 0, 1, 1, 0, 0, 2, 2, 2, 2, 0, 0, 2);
    lemma_mono_mul(v, 0, 1, 1, 0, 0, 1, 0, 0, 0, 0, 0, 0, 0, 0);
    lemma_mono_mul(v, 0, 1, 1, 0, 0, 1, 0, 0, 2, 1, 1, 1, 1, 1);
    lemma_mono_mul(v, 0, 1, 1, 0, 0, 1, 0, 1, 1, 0, 2, 1, 1, 1);
    lemma_mono_mul(v, 0, 1, 1, 0, 0, 1, 0, 1, 1, 2, 0, 1, 1, 1);
    lemma_mono_mul(v, 0, 1, 1, 0, 0, 1, 0, 2, 0, 1, 1, 1, 1, 1);
    lemma_mono_mul(v, 0, 1, 1, 0, 0, 1, 0, 2, 2, 2, 2, 0, 0, 2);
    lemma_mono_mul(v, 0, 1, 1, 2, 2, 1, 1, 0, 0, 0, 0, 0, 0, 0);
    lemma_mono_mul(v, 0, 1, 1, 2, 2, 1, 1, 0, 2, 1, 1, 1, 1, 1);
    lemma_mono_mul(v, 0, 1, 1, 2, 2, 1, 1, 1, 1, 0, 2, 1, 1, 1);
    lemma_mono_mul(v, 0, 1, 1, 2, 2, 1, 1, 1, 1, 2, 0, 1, 1, 1);
    lemma_mono_mul(v, 0, 1, 1, 2, 2, 1, 1, 2, 0, 1, 1, 1, 1, 1);
    lemma_mono_mul(v, 0, 1, 1, 2, 2, 1, 1, 2, 2, 2, 2, 0, 0, 2);
    lemma_mono_mul(v, 0, 1, 2, 1, 1, 2, 1, 0, 0, 0, 0, 0, 0, 0);
    lemma_mono_mul(v, 0, 1, 2, 1, 1, 2, 1, 0, 2, 1, 1, 1, 1, 1);
    lemma_mono_mul(v, 0, 1, 2, 1, 1, 2, 1, 1, 1, 0, 2, 1, 1, 1);
    lemma_mono_mul(v, 0, 1, 2, 1, 1, 2, 1, 1, 1, 2, 0, 1, 1, 1);
    lemma_mono_mul(v, 0, 1, 2, 1, 1, 2, 1, 2, 0, 1, 1, 1, 1, 1);
    lemma_mono_mul(v, 0, 1, 2, 1, 1, 2, 1, 2, 2, 2, 2, 0, 0, 2);
    lemma_mono_mul(v, 1, 0, 0, 1, 0, 1, 0, 0, 0, 0, 0, 0, 0, 0);
    lemma_mono_mul(v, 1, 0, 0, 1, 0, 1, 0, 0, 2, 1, 1, 1, 1, 1);
    lemma_mono_mul(v, 1, 0, 0, 1, 0, 1, 0, 1, 1, 0, 2, 1, 1, 1);
    lemma_mono_mul(v, 1, 0, 0, 1, 0, 1, 0, 1, 1, 2, 0, 1, 1, 1);
    lemma_mono_mul(v, 1, 0, 0, 1, 0, 1, 0, 2, 0, 1, 1, 1, 1, 1);
    lemma_mono_mul(v, 1, 0, 0, 1, 0, 1, 0, 2, 2, 2, 2, 0, 0, 2);
    lemma_mono_mul(v, 1, 0, 1, 0, 1, 0, 0, 0, 0, 0, 0, 0, 0, 0);
    lemma_mono_mul(v, 1, 0, 1, 0, 1, 0, 0, 0, 2, 1, 1, 1, 1, 1);
    lemma_mono_mul(v, 1, 0, 1, 0, 1, 0, 0, 1, 1, 0, 2, 1, 1, 1);
    lemma_mono_mul(v, 1, 0, 1, 0, 1, 0, 0, 1, 1, 2, 0, 1, 1, 1);
    lemma_mono_mul(v, 1, 0, 1, 0, 1, 0, 0, 2, 0, 1, 1, 1, 1, 1);
    lemma_mono_mul(v, 1, 0, 1, 0, 1, 0, 0, 2, 2, 2, 2, 0, 0, 2);
    let row0 = m0_1_0_1_1_0_0 * r;
    assert(row0 == m0_1_0_1_1_0_0 + m0_3_1_2_2_1_1 + m1_2_0_3_2_1_1 + m1_2_2_1_2_1_1 + m2_1_1_2_2_1_1 -
        m2_3_2_3_1_0_2) by (nonlinear_arith)
        requires
            row0 == m0_1_0_1_1_0_0 * r,
            r == m0_0_0_0_0_0_0 + m0_2_1_1_1_1_1 + m1_1_0_2_1_1_1 + m1_1_2_0_1_1_1 +
                m2_0_1_1_1_1_1 - m2_2_2_2_0_0_2,
            m0_1_0_1_1_0_0 * m0_0_0_0_0_0_0 == m0_1_0_1_1_0_0,
            m0_1_0_1_1_0_0 * m0_2_1_1_1_1_1 == m0_3_1_2_2_1_1,
            m0_1_0_1_1_0_0 * m1_1_0_2_1_1_1 == m1_2_0_3_2_1_1,
            m0_1_0_1_1_0_0 * m1_1_2_0_1_1_1 == m1_2_2_1_2_1_1,
            m0_1_0_1_1_0_0 * m2_0_1_1_1_1_1 == m2_1_1_2_2_1_1,
            m0_1_0_1_1_0_0 * m2_2_2_2_0_0_2 == m2_3_2_3_1_0_2,
    ;
    let row1 = m0_1_1_0_0_1_0 * r;
    assert(row1 == m0_1_1_0_0_1_0 + m0_3_2_1_1_2_1 + m1_2_1_2_1_2_1 + m1_2_3_0_1_2_1 + m2_1_2_1_1_2_1 -
        m2_3_3_2_0_1_2) by (nonlinear_arith)
        requires
            row1 == m0_1_1_0_0_1_0 * r,
            r == m0_0_0_0_0_0_0 + m0_2_1_1_1_1_1 + m1_1_0_2_1_1_1 + m1_1_2_0_1_1_1 +
                m2_0_1_1_1_1_1 - m2_2_2_2_0_0_2,
            m0_1_1_0_0_1_0 * m0_0_0_0_0_0_0 == m0_1_1_0_0_1_0,
            m0_1_1_0_0_1_0 * m0_2_1_1_1_1_1 == m0_3_2_1_1_2_1,
            m0_1_1_0_0_1_0 * m1_1_0_2_1_1_1 == m1_2_1_2_1_2_1,
            m0_1_1_0_0_1_0 * m1_1_2_0_1_1_1 == m1_2_3_0_1_2_1,
            m0_1_1_0_0_1_0 * m2_0_1_1_1_1_1 == m2_1_2_1_1_2_1,
            m0_1_1_0_0_1_0 * m2_2_2_2_0_0_2 == m2_3_3_2_0_1_2,
    ;
    let row2 = m0_1_1_2_2_1_1 * r;
    assert(row2 == m0_1_1_2_2_1_1 + m0_3_2_3_3_2_2 + m1_2_1_4_3_2_2 + m1_2_3_2_3_2_2 + m2_1_2_3_3_2_2 -
        m2_3_3_4_2_1_3) by (nonlinear_arith)
        requires
            row2 == m0_1_1_2_2_1_1 * r,
            r == m0_0_0_0_0_0_0 + m0_2_1_1_1_1_1 + m1_1_0_2_1_1_1 + m1_1_2_0_1_1_1 +
                m2_0_1_1_1_1_1 - m2_2_2_2_0_0_2,
            m0_1_1_2_2_1_1 * m0_0_0_0_0_0_0 == m0_1_1_2_2_1_1,
            m0_1_1_2_2_1_1 * m0_2_1_1_1_1_1 == m0_3_2_3_3_2_2,
            m0_1_1_2_2_1_1 * m1_1_0_2_1_1_1 == m1_2_1_4_3_2_2,
            m0_1_1_2_2_1_1 * m1_1_2_0_1_1_1 == m1_2_3_2_3_2_2,
            m0_1_1_2_2_1_1 * m2_0_1_1_1_1_1 == m2_1_2_3_3_2_2,
            m0_1_1_2_2_1_1 * m2_2_2_2_0_0_2 == m2_3_3_4_2_1_3,
    ;
    let row3 = m0_1_2_1_1_2_1 * r;
    assert(row3 == m0_1_2_1_1_2_1 + m0_3_3_2_2_3_2 + m1_2_2_3_2_3_2 + m1_2_4_1_2_3_2 + m2_1_3_2_2_3_2 -
        m2_3_4_3_1_2_3) by (nonlinear_arith)
        requires
            row3 == m0_1_2_1_1_2_1 * r,
            r == m0_0_0_0_0_0_0 + m0_2_1_1_1_1_1 + m1_1_0_2_1_1_1 + m1_1_2_0_1_1_1 +
                m2_0_1_1_1_1_1 - m2_2_2_2_0_0_2,
            m0_1_2_1_1_2_1 * m0_0_0_0_0_0_0 == m0_1_2_1_1_2_1,
            m0_1_2_1_1_2_1 * m0_2_1_1_1_1_1 == m0_3_3_2_2_3_2,
            m0_1_2_1_1_2_1 * m1_1_0_2_1_1_1 == m1_2_2_3_2_3_2,
            m0_1_2_1_1_2_1 * m1_1_2_0_1_1_1 == m1_2_4_1_2_3_2,
            m0_1_2_1_1_2_1 * m2_0_1_1_1_1_1 == m2_1_3_2_2_3_2,
            m0_1_2_1_1_2_1 * m2_2_2_2_0_0_2 == m2_3_4_3_1_2_3,
    ;
    let row4 = m1_0_0_1_0_1_0 * r;
    assert(row4 == m1_0_0_1_0_1_0 + m1_2_1_2_1_2_1 + m2_1_0_3_1_2_1 + m2_1_2_1_1_2_1 + m3_0_1_2_1_2_1 -
        m3_2_2_3_0_1_2) by (nonlinear_arith)
        requires
            row4 == m1_0_0_1_0_1_0 * r,
            r == m0_0_0_0_0_0_0 + m0_2_1_1_1_1_1 + m1_1_0_2_1_1_1 + m1_1_2_0_1_1_1 +
                m2_0_1_1_1_1_1 - m2_2_2_2_0_0_2,
            m1_0_0_1_0_1_0 * m0_0_0_0_0_0_0 == m1_0_0_1_0_1_0,
            m1_0_0_1_0_1_0 * m0_2_1_1_1_1_1 == m1_2_1_2_1_2_1,
            m1_0_0_1_0_1_0 * m1_1_0_2_1_1_1 == m2_1_0_3_1_2_1,
            m1_0_0_1_0_1_0 * m1_1_2_0_1_1_1 == m2_1_2_1_1_2_1,
            m1_0_0_1_0_1_0 * m2_0_1_1_1_1_1 == m3_0_1_2_1_2_1,
            m1_0_0_1_0_1_0 * m2_2_2_2_0_0_2 == m3_2_2_3_0_1_2,
    ;
    let row5 = m1_0_1_0_1_0_0 * r;
    assert(row5 == m1_0_1_0_1_0_0 + m1_2_2_1_2_1_1 + m2_1_1_2_2_1_1 + m2_1_3_0_2_1_1 + m3_0_2_1_2_1_1 -
        m3_2_3_2_1_0_2) by (nonlinear_arith)
        requires
            row5 == m1_0_1_0_1_0_0 * r,
            r == m0_0_0_0_0_0_0 + m0_2_1_1_1_1_1 + m1_1_0_2_1_1_1 + m1_1_2_0_1_1_1 +
                m2_0_1_1_1_1_1 - m2_2_2_2_0_0_2,
            m1_0_1_0_1_0_0 * m0_0_0_0_0_0_0 == m1_0_1_0_1_0_0,
            m1_0_1_0_1_0_0 * m0_2_1_1_1_1_1 == m1_2_2_1_2_1_1,
            m1_0_1_0_1_0_0 * m1_1_0_2_1_1_1 == m2_1_1_2_2_1_1,
            m1_0_1_0_1_0_0 * m1_1_2_0_1_1_1 == m2_1_3_0_2_1_1,
            m1_0_1_0_1_0_0 * m2_0_1_1_1_1_1 == m3_0_2_1_2_1_1,
            m1_0_1_0_1_0_0 * m2_2_2_2_0_0_2 == m3_2_3_2_1_0_2,
    ;
    assert(p * r == row0 + row1 - row2 - row3 + row4 + row5) by (nonlinear_arith)
        requires
            p == m0_1_0_1_1_0_0 + m0_1_1_0_0_1_0 - m0_1_1_2_2_1_1 - m0_1_2_1_1_2_1 +
                m1_0_0_1_0_1_0 + m1_0_1_0_1_0_0,
            row0 == m0_1_0_1_1_0_0 * r,
            row1 == m0_1_1_0_0_1_0 * r,
            row2 == m0_1_1_2_2_1_1 * r,
            row3 == m0_1_2_1_1_2_1 * r,
            row4 == m1_0_0_1_0_1_0 * r,
            row5 == m1_0_1_0_1_0_0 * r,
    ;
}

/// A cross product of the two sides.
proof fn lemma_associative_product_52(v: Vars, p: int, r: int)
    requires
        p == mono(v, 0, 0, 0, 0, 0, 0, 0) + mono(v, 0, 2, 1, 1, 1, 1, 1) + mono(v, 1, 1, 0, 2, 1,
            1, 1) + mono(v, 1, 1, 2, 0, 1, 1, 1) + mono(v, 2, 0, 1, 1, 1, 1, 1) - mono(v, 2, 2,
            2, 2, 0, 0, 2),
        r == mono(v, 1, 0, 1, 2, 1, 2, 1) + mono(v, 1, 0, 2, 1, 2, 1, 1),
    ensures
        p * r == mono(v, 1, 0, 1, 2, 1, 2, 1) + mono(v, 1, 0, 2, 1, 2, 1, 1) + mono(v, 1, 2, 2, 3, 2,
            3, 2) + mono(v, 1, 2, 3, 2, 3, 2, 2) + mono(v, 2, 1, 1, 4, 2, 3, 2) + mono(v, 2, 1,
            2, 3, 3, 2, 2) + mono(v, 2, 1, 3, 2, 2, 3, 2) + mono(v, 2, 1, 4, 1, 3, 2, 2) +
            mono(v, 3, 0, 2, 3, 2, 3, 2) + mono(v, 3, 0, 3, 2, 3, 2, 2) - mono(v, 3, 2, 3, 4, 1,
            2, 3) - mono(v, 3, 2, 4, 3, 2, 1, 3),
{
    let m0_0_0_0_0_0_0 = mono(v, 0, 0, 0, 0, 0, 0, 0);
    let m0_2_1_1_1_1_1 = mono(v, 0, 2, 1, 1, 1, 1, 1);
    let m1_1_0_2_1_1_1 = mono(v, 1, 1, 0, 2, 1, 1, 1);
    let m1_1_2_0_1_1_1 = mono(v, 1, 1, 2, 0, 1, 1, 1);
    let m2_0_1_1_1_1_1 = mono(v, 2, 0, 1, 1, 1, 1, 1);
    let m2_2_2_2_0_0_2 = mono(v, 2, 2, 2, 2, 0, 0, 2);
    let m1_0_1_2_1_2_1 = mono(v, 1, 0, 1, 2, 1, 2, 1);
    let m1_0_2_1_2_1_1 = mono(v, 1, 0, 2, 1, 2, 1, 1);
    let m1_2_2_3_2_3_2 = mono(v, 1, 2, 2, 3, 2, 3, 2);
    let m1_2_3_2_3_2_2 = mono(v, 1, 2, 3, 2, 3, 2, 2);
    let m2_1_1_4_2_3_2 = mono(v, 2, 1, 1, 4, 2, 3, 2);
    let m2_1_2_3_3_2_2 = mono(v, 2, 1, 2, 3, 3, 2, 2);
    let m2_1_3_2_2_3_2 = mono(v, 2, 1, 3, 2, 2, 3, 2);
    let m2_1_4_1_3_2_2 = mono(v, 2, 1, 4, 1, 3, 2, 2);
    let m3_0_2_3_2_3_2 = mono(v, 3, 0, 2, 3, 2, 3, 2);
    let m3_0_3_2_3_2_2 = mono(v, 3, 0, 3, 2, 3, 2, 2);
    let m3_2_3_4_1_2_3 = mono(v, 3, 2, 3, 4, 1, 2, 3);
    let m3_2_4_3_2_1_3 = mono(v, 3, 2, 4, 3, 2, 1, 3);
    lemma_mono_mul(v, 0, 0, 0, 0, 0, 0, 0, 1, 0, 1, 2, 1, 2, 1);
    lemma_mono_mul(v, 0, 0, 0, 0, 0, 0, 0, 1, 0, 2, 1, 2, 1, 1);
    lemma_mono_mul(v, 0, 2, 1, 1, 1, 1, 1, 1, 0, 1, 2, 1, 2, 1);
    lemma_mono_mul(v, 0, 2, 1, 1, 1, 1, 1, 1, 0, 2, 1, 2, 1, 1);
    lemma_mono_mul(v, 1, 1, 0, 2, 1, 1, 1, 1, 0, 1, 2, 1, 2, 1);
    lemma_mono_mul(v, 1, 1, 0, 2, 1, 1, 1, 1, 0, 2, 1, 2, 1, 1);
    lemma_mono_mul(v, 1, 1, 2, 0, 1, 1, 1, 1, 0, 1, 2, 1, 2, 1);
    lemma_mono_mul(v, 1, 1, 2, 0, 1, 1, 1, 1, 0, 2, 1, 2, 1, 1);
    lemma_mono_mul(v, 2, 0, 1, 1, 1, 1, 1, 1, 0, 1, 2, 1, 2, 1);
    lemma_mono_mul(v, 2, 0, 1, 1, 1, 1, 1, 1, 0, 2, 1, 2, 1, 1);
    lemma_mono_mul(v, 2, 2, 2, 2, 0, 0, 2, 1, 0, 1, 2, 1, 2, 1);
    lemma_mono_mul(v, 2, 2, 2, 2, 0, 0, 2, 1, 0, 2, 1, 2, 1, 1);
    let row0 = m0_0_0_0_0_0_0 * r;
    assert(row0 == m1_0_1_2_1_2_1 + m1_0_2_1_2_1_1) by (nonlinear_arith)
        requires
            row0 == m0_0_0_0_0_0_0 * r,
            r == m1_0_1_2_1_2_1 + m1_0_2_1_2_1_1,
            m0_0_0_0_0_0_0 * m1_0_1_2_1_2_1 == m1_0_1_2_1_2_1,
            m0_0_0_0_0_0_0 * m1_0_2_1_2_1_1 == m1_0_2_1_2_1_1,
    ;
    let row1 = m0_2_1_1_1_1_1 * r;
    assert(row1 == m1_2_2_3_2_3_2 + m1_2_3_2_3_2_2) by (nonlinear_arith)
        requires
            row1 == m0_2_1_1_1_1_1 * r,
            r == m1_0_1_2_1_2_1 + m1_0_2_1_2_1_1,
            m0_2_1_1_1_1_1 * m1_0_1_2_1_2_1 == m1_2_2_3_2_3_2,
            m0_2_1_1_1_1_1 * m1_0_2_1_2_1_1 == m1_2_3_2_3_2_2,
    ;
    let row2 = m1_1_0_2_1_1_1 * r;
    assert(row2 == m2_1_1_4_2_3_2 + m2_1_2_3_3_2_2) by (nonlinear_arith)
        requires
            row2 == m1_1_0_2_1_1_1 * r,
            r == m1_0_1_2_1_2_1 + m1_0_2_1_2_1_1,
            m1_1_0_2_1_1_1 * m1_0_1_2_1_2_1 == m2_1_1_4_2_3_2,
            m1_1_0_2_1_1_1 * m1_0_2_1_2_1_1 == m2_1_2_3_3_2_2,
    ;
    let row3 = m1_1_2_0_1_1_1 * r;
    assert(row3 == m2_1_3_2_2_3_2 + m2_1_4_1_3_2_2) by (nonlinear_arith)
        requires
            row3 == m1_1_2_0_1_1_1 * r,
            r == m1_0_1_2_1_2_1 + m1_0_2_1_2_1_1,
            m1_1_2_0_1_1_1 * m1_0_1_2_1_2_1 == m2_1_3_2_2_3_2,
            m1_1_2_0_1_1_1 * m1_0_2_1_2_1_1 == m2_1_4_1_3_2_2,
    ;
    let row4 = m2_0_1_1_1_1_1 * r;
    assert(row4 == m3_0_2_3_2_3_2 + m3_0_3_2_3_2_2) by (nonlinear_arith)
        requires
            row4 == m2_0_1_1_1_1_1 * r,
            r == m1_0_1_2_1_2_1 + m1_0_2_1_2_1_1,
            m2_0_1_1_1_1_1 * m1_0_1_2_1_2_1 == m3_0_2_3_2_3_2,
            m2_0_1_1_1_1_1 * m1_0_2_1_2_1_1 == m3_0_3_2_3_2_2,
    ;
    let row5 = m2_2_2_2_0_0_2 * r;
    assert(row5 == m3_2_3_4_1_2_3 + m3_2_4_3_2_1_3) by (nonlinear_arith)
        requires
            row5 == m2_2_2_2_0_0_2 * r,
            r == m1_0_1_2_1_2_1 + m1_0_2_1_2_1_1,
            m2_2_2_2_0_0_2 * m1_0_1_2_1_2_1 == m3_2_3_4_1_2_3,
            m2_2_2_2_0_0_2 * m1_0_2_1_2_1_1 == m3_2_4_3_2_1_3,
    ;
    assert(p * r == row0 + row1 + row2 + row3 + row4 - row5) by (nonlinear_arith)
        requires
            p == m0_0_0_0_0_0_0 + m0_2_1_1_1_1_1 + m1_1_0_2_1_1_1 + m1_1_2_0_1_1_1 +
                m2_0_1_1_1_1_1 - m2_2_2_2_0_0_2,
            row0 == m0_0_0_0_0_0_0 * r,
            row1 == m0_2_1_1_1_1_1 * r,
            row2 == m1_1_0_2_1_1_1 * r,
            row3 == m1_1_2_0_1_1_1 * r,
            row4 == m2_0_1_1_1_1_1 * r,
            row5 == m2_2_2_2_0_0_2 * r,
    ;
}

/// A cross product of the two sides.
proof fn lemma_associative_product_53(v: Vars, p: int, r: int)
    requires
        p == mono(v, 1, 0, 1, 2, 1, 2, 1) + mono(v, 1, 0, 2, 1, 2, 1, 1),
        r == mono(v, 0, 0, 0, 0, 0, 0, 0) + mono(v, 0, 2, 1, 1, 1, 1, 1) + mono(v, 1, 1, 0, 2, 1,
            1, 1) + mono(v, 1, 1, 2, 0, 1, 1, 1) + mono(v, 2, 0, 1, 1, 1, 1, 1) - mono(v, 2, 2,
            2, 2, 0, 0, 2),
    ensures
        p * r == mono(v, 1, 0, 1, 2, 1, 2, 1) + mono(v, 1, 0, 2, 1, 2, 1, 1) + mono(v, 1, 2, 2, 3, 2,
            3, 2) + mono(v, 1, 2, 3, 2, 3, 2, 2) + mono(v, 2, 1, 1, 4, 2, 3, 2) + mono(v, 2, 1,
            2, 3, 3, 2, 2) + mono(v, 2, 1, 3, 2, 2, 3, 2) + mono(v, 2, 1, 4, 1, 3, 2, 2) +
            mono(v, 3, 0, 2, 3, 2, 3, 2) + mono(v, 3, 0, 3, 2, 3, 2, 2) - mono(v, 3, 2, 3, 4, 1,
            2, 3) - mono(v, 3, 2, 4, 3, 2, 1, 3),
{
    lemma_associative_product_52(v, r, p);
    assert(p * r == r * p) by (nonlinear_arith);
}

/// A cross product of the two sides.
proof fn lemma_associative_product_54(v: Vars, p: int, r: int)
    requires
        p == mono(v, 0, 1, 0, 1, 1, 0, 0) + mono(v, 0, 1, 1, 0, 0, 1, 0) - mono(v, 0, 1, 1, 2, 2,
            1, 1) - mono(v, 0, 1, 2, 1, 1, 2, 1) + mono(v, 1, 0, 0, 1, 0, 1, 0) + mono(v, 1, 0,
            1, 0, 1, 0, 0) + mono(v, 1, 0, 1, 2, 1, 2, 1) + mono(v, 1, 0, 2, 1, 2, 1, 1),
        r == mono(v, 0, 0, 0, 0, 0, 0, 0) + mono(v, 0, 2, 1, 1, 1, 1, 1) + mono(v, 1, 1, 0, 2, 1,
            1, 1) + mono(v, 1, 1, 2, 0, 1, 1, 1) + mono(v, 2, 0, 1, 1, 1, 1, 1) - mono(v, 2, 2,
            2, 2, 0, 0, 2),
    ensures
        p * r == mono(v, 0, 1, 0, 1, 1, 0, 0) + mono(v, 0, 1, 1, 0, 0, 1, 0) - mono(v, 0, 1, 1, 2, 2,
            1, 1) - mono(v, 0, 1, 2, 1, 1, 2, 1) + mono(v, 0, 3, 1, 2, 2, 1, 1) + mono(v, 0, 3,
            2, 1, 1, 2, 1) - mono(v, 0, 3, 2, 3, 3, 2, 2) - mono(v, 0, 3, 3, 2, 2, 3, 2) +
            mono(v, 1, 0, 0, 1, 0, 1, 0) + mono(v, 1, 0, 1, 0, 1, 0, 0) + mono(v, 1, 0, 1, 2, 1,
            2, 1) + mono(v, 1, 0, 2, 1, 2, 1, 1) + mono(v, 1, 2, 0, 3, 2, 1, 1) + 2 * mono(v, 1,
            2, 1, 2, 1, 2, 1) - mono(v, 1, 2, 1, 4, 3, 2, 2) + 2 * mono(v, 1, 2, 2, 1, 2, 1, 1)
            + mono(v, 1, 2, 3, 0, 1, 2, 1) - mono(v, 1, 2, 4, 1, 2, 3, 2) + mono(v, 2, 1, 0, 3,
            1, 2, 1) + 2 * mono(v, 2, 1, 1, 2, 2, 1, 1) + mono(v, 2, 1, 1, 4, 2, 3, 2) + 2 *
            mono(v, 2, 1, 2, 1, 1, 2, 1) + mono(v, 2, 1, 3, 0, 2, 1, 1) + mono(v, 2, 1, 4, 1, 3,
            2, 2) - mono(v, 2, 3, 2, 3, 1, 0, 2) - mono(v, 2, 3, 3, 2, 0, 1, 2) + mono(v, 2, 3,
            3, 4, 2, 1, 3) + mono(v, 2, 3, 4, 3, 1, 2, 3) + mono(v, 3, 0, 1, 2, 1, 2, 1) +
            mono(v, 3, 0, 2, 1, 2, 1, 1) + mono(v, 3, 0, 2, 3, 2, 3, 2) + mono(v, 3, 0, 3, 2, 3,
            2, 2) - mono(v, 3, 2, 2, 3, 0, 1, 2) - mono(v, 3, 2, 3, 2, 1, 0, 2) - mono(v, 3, 2,
            3, 4, 1, 2, 3) - mono(v, 3, 2, 4, 3, 2, 1, 3),
{
    let p0 = mono(v, 0, 1, 0, 1, 1, 0, 0) + mono(v, 0, 1, 1, 0, 0, 1, 0) - mono(v, 0, 1, 1, 2, 2, 1,
        1) - mono(v, 0, 1, 2, 1, 1, 2, 1) + mono(v, 1, 0, 0, 1, 0, 1, 0) + mono(v, 1, 0, 1, 0,
        1, 0, 0);
    lemma_associative_product_51(v, p0, r);
    let t0 = p0 * r;
    let p1 = mono(v, 1, 0, 1, 2, 1, 2, 1) + mono(v, 1, 0, 2, 1, 2, 1, 1);
    lemma_associative_product_53(v, p1, r);
    let t1 = p1 * r;
    assert(p * r == t0 + t1) by (nonlinear_arith)
        requires
            p == p0 + p1,
            t0 == p0 * r,
            t1 == p1 * r,
    ;
}

/// The square of a coordinate of the first point.
proof fn lemma_associative_product_55(v: Vars, p: int, r: int)
    requires
        p == mono(v, 1, 0, 0, 0, 0, 0, 0),
        r == mono(v, 1, 0, 0, 0, 0, 0, 0),
    ensures
        p * r == mono(v, 2, 0, 0, 0, 0, 0, 0),
{
    let m1_0_0_0_0_0_0 = mono(v, 1, 0, 0, 0, 0, 0, 0);
    let m2_0_0_0_0_0_0 = mono(v, 2, 0, 0, 0, 0, 0, 0);
    lemma_mono_mul(v, 1, 0, 0, 0, 0, 0, 0, 1, 0, 0, 0, 0, 0, 0);
    let row0 = m1_0_0_0_0_0_0 * r;
    assert(row0 == m2_0_0_0_0_0_0) by (nonlinear_arith)
        requires
            row0 == m1_0_0_0_0_0_0 * r,
            r == m1_0_0_0_0_0_0,
            m1_0_0_0_0_0_0 * m1_0_0_0_0_0_0 == m2_0_0_0_0_0_0,
    ;
    assert(p * r == row0) by (nonlinear_arith)
        requires
            p == m1_0_0_0_0_0_0,
            row0 == m1_0_0_0_0_0_0 * r,
    ;
}

/// The square of a coordinate of the first point.
proof fn lemma_associative_product_56(v: Vars, p: int, r: int)
    requires
        p == mono(v, 0, 1, 0, 0, 0, 0, 0),
        r == mono(v, 0, 1, 0, 0, 0, 0, 0),
    ensures
        p * r == mono(v, 0, 2, 0, 0, 0, 0, 0),
{
    let m0_1_0_0_0_0_0 = mono(v, 0, 1, 0, 0, 0, 0, 0);
    let m0_2_0_0_0_0_0 = mono(v, 0, 2, 0, 0, 0, 0, 0);
    lemma_mono_mul(v, 0, 1, 0, 0, 0, 0, 0, 0, 1, 0, 0, 0, 0, 0);
    let row0 = m0_1_0_0_0_0_0 * r;
    assert(row0 == m0_2_0_0_0_0_0) by (nonlinear_arith)
        requires
            row0 == m0_1_0_0_0_0_0 * r,
            r == m0_1_0_0_0_0_0,
            m0_1_0_0_0_0_0 * m0_1_0_0_0_0_0 == m0_2_0_0_0_0_0,
    ;
    assert(p * r == row0) by (nonlinear_arith)
        requires
            p == m0_1_0_0_0_0_0,
            row0 == m0_1_0_0_0_0_0 * r,
    ;
}

/// The product of the squares of the coordinates of the first point.
proof fn lemma_associative_product_57(v: Vars, p: int, r: int)
    requires
        p == mono(v, 2, 0, 0, 0, 0, 0, 0),
        r == mono(v, 0, 2, 0, 0, 0, 0, 0),
    ensures
        p * r == mono(v, 2, 2, 0, 0, 0, 0, 0),
{
    let m2_0_0_0_0_0_0 = mono(v, 2, 0, 0, 0, 0, 0, 0);
    let m0_2_0_0_0_0_0 = mono(v, 0, 2, 0, 0, 0, 0, 0);
    let m2_2_0_0_0_0_0 = mono(v, 2, 2, 0, 0, 0, 0, 0);
    lemma_mono_mul(v, 2, 0, 0, 0, 0, 0, 0, 0, 2, 0, 0, 0, 0, 0);
    let row0 = m2_0_0_0_0_0_0 * r;
    assert(row0 == m2_2_0_0_0_0_0) by (nonlinear_arith)
        requires
            row0 == m2_0_0_0_0_0_0 * r,
            r == m0_2_0_0_0_0_0,
            m2_0_0_0_0_0_0 * m0_2_0_0_0_0_0 == m2_2_0_0_0_0_0,
    ;
    assert(p * r == row0) by (nonlinear_arith)
        requires
            p == m2_0_0_0_0_0_0,
            row0 == m2_0_0_0_0_0_0 * r,
    ;
}

/// The curve constant times the squares of the coordinates of the first point.
proof fn lemma_associative_product_58(v: Vars, p: int, r: int)
    requires
        p == mono(v, 0, 0, 0, 0, 0, 0, 1),
        r == mono(v, 2, 2, 0, 0, 0, 0, 0),
    ensures
        p * r == mono(v, 2, 2, 0, 0, 0, 0, 1),
{
    let m0_0_0_0_0_0_1 = mono(v, 0, 0, 0, 0, 0, 0, 1);
    let m2_2_0_0_0_0_0 = mono(v, 2, 2, 0, 0, 0, 0, 0);
    let m2_2_0_0_0_0_1 = mono(v, 2, 2, 0, 0, 0, 0, 1);
    lemma_mono_mul(v, 0, 0, 0, 0, 0, 0, 1, 2, 2, 0, 0, 0, 0, 0);
    let row0 = m0_0_0_0_0_0_1 * r;
    assert(row0 == m2_2_0_0_0_0_1) by (nonlinear_arith)
        requires
            row0 == m0_0_0_0_0_0_1 * r,
            r == m2_2_0_0_0_0_0,
            m0_0_0_0_0_0_1 * m2_2_0_0_0_0_0 == m2_2_0_0_0_0_1,
    ;
    assert(p * r == row0) by (nonlinear_arith)
        requires
            p == m0_0_0_0_0_0_1,
            row0 == m0_0_0_0_0_0_1 * r,
    ;
}

/// The square of a coordinate of the second point.
proof fn lemma_associative_product_59(v: Vars, p: int, r: int)
    requires
        p == mono(v, 0, 0, 1, 0, 0, 0, 0),
        r == mono(v, 0, 0, 1, 0, 0, 0, 0),
    ensures
        p * r == mono(v, 0, 0, 2, 0, 0, 0, 0),
{
    let m0_0_1_0_0_0_0 = mono(v, 0, 0, 1, 0, 0, 0, 0);
    let m0_0_2_0_0_0_0 = mono(v, 0, 0, 2, 0, 0, 0, 0);
    lemma_mono_mul(v, 0, 0, 1, 0, 0, 0, 0, 0, 0, 1, 0, 0, 0, 0);
    let row0 = m0_0_1_0_0_0_0 * r;
    assert(row0 == m0_0_2_0_0_0_0) by (nonlinear_arith)
        requires
            row0 == m0_0_1_0_0_0_0 * r,
            r == m0_0_1_0_0_0_0,
            m0_0_1_0_0_0_0 * m0_0_1_0_0_0_0 == m0_0_2_0_0_0_0,
    ;
    assert(p * r == row0) by (nonlinear_arith)
        requires
            p == m0_0_1_0_0_0_0,
            row0 == m0_0_1_0_0_0_0 * r,
    ;
}

/// The square of a coordinate of the second point.
proof fn lemma_associative_product_60(v: Vars, p: int, r: int)
    requires
        p == mono(v, 0, 0, 0, 1, 0, 0, 0),
        r == mono(v, 0, 0, 0, 1, 0, 0, 0),
    ensures
        p * r == mono(v, 0, 0, 0, 2, 0, 0, 0),
{
    let m0_0_0_1_0_0_0 = mono(v, 0, 0, 0, 1, 0, 0, 0);
    let m0_0_0_2_0_0_0 = mono(v, 0, 0, 0, 2, 0, 0, 0);
    lemma_mono_mul(v, 0, 0, 0, 1, 0, 0, 0, 0, 0, 0, 1, 0, 0, 0);
    let row0 = m0_0_0_1_0_0_0 * r;
    assert(row0 == m0_0_0_2_0_0_0) by (nonlinear_arith)
        requires
            row0 == m0_0_0_1_0_0_0 * r,
            r == m0_0_0_1_0_0_0,
            m0_0_0_1_0_0_0 * m0_0_0_1_0_0_0 == m0_0_0_2_0_0_0,
    ;
    assert(p * r == row0) by (nonlinear_arith)
        requires
            p == m0_0_0_1_0_0_0,
            row0 == m0_0_0_1_0_0_0 * r,
    ;
}

/// The product of the squares of the coordinates of the second point.
proof fn lemma_associative_product_61(v: Vars, p: int, r: int)
    requires
        p == mono(v, 0, 0, 2, 0, 0, 0, 0),
        r == mono(v, 0, 0, 0, 2, 0, 0, 0),
    ensures
        p * r == mono(v, 0, 0, 2, 2, 0, 0, 0),
{
    let m0_0_2_0_0_0_0 = mono(v, 0, 0, 2, 0, 0, 0, 0);
    let m0_0_0_2_0_0_0 = mono(v, 0, 0, 0, 2, 0, 0, 0);
    let m0_0_2_2_0_0_0 = mono(v, 0, 0, 2, 2, 0, 0, 0);
    lemma_mono_mul(v, 0, 0, 2, 0, 0, 0, 0, 0, 0, 0, 2, 0, 0, 0);
    let row0 = m0_0_2_0_0_0_0 * r;
    assert(row0 == m0_0_2_2_0_0_0) by (nonlinear_arith)
        requires
            row0 == m0_0_2_0_0_0_0 * r,
            r == m0_0_0_2_0_0_0,
            m0_0_2_0_0_0_0 * m0_0_0_2_0_0_0 == m0_0_2_2_0_0_0,
    ;
    assert(p * r == row0) by (nonlinear_arith)
        requires
            p == m0_0_2_0_0_0_0,
            row0 == m0_0_2_0_0_0_0 * r,
    ;
}

/// The curve constant times the squares of the coordinates of the second point.
proof fn lemma_associative_product_62(v: Vars, p: int, r: int)
    requires
        p == mono(v, 0, 0, 0, 0, 0, 0, 1),
        r == mono(v, 0, 0, 2, 2, 0, 0, 0),
    ensures
        p * r == mono(v, 0, 0, 2, 2, 0, 0, 1),
{
    let m0_0_0_0_0_0_1 = mono(v, 0, 0, 0, 0, 0, 0, 1);
    let m0_0_2_2_0_0_0 = mono(v, 0, 0, 2, 2, 0, 0, 0);
    let m0_0_2_2_0_0_1 = mono(v, 0, 0, 2, 2, 0, 0, 1);
    lemma_mono_mul(v, 0, 0, 0, 0, 0, 0, 1, 0, 0, 2, 2, 0, 0, 0);
    let row0 = m0_0_0_0_0_0_1 * r;
    assert(row0 == m0_0_2_2_0_0_1) by (nonlinear_arith)
        requires
            row0 == m0_0_0_0_0_0_1 * r,
            r == m0_0_2_2_0_0_0,
            m0_0_0_0_0_0_1 * m0_0_2_2_0_0_0 == m0_0_2_2_0_0_1,
    ;
    assert(p * r == row0) by (nonlinear_arith)
        requires
            p == m0_0_0_0_0_0_1,
            row0 == m0_0_0_0_0_0_1 * r,
    ;
}

/// The square of a coordinate of the third point.
proof fn lemma_associative_product_63(v: Vars, p: int, r: int)
    requires
        p == mono(v, 0, 0, 0, 0, 1, 0, 0),
        r == mono(v, 0, 0, 0, 0, 1, 0, 0),
    ensures
        p * r == mono(v, 0, 0, 0, 0, 2, 0, 0),
{
    let m0_0_0_0_1_0_0 = mono(v, 0, 0, 0, 0, 1, 0, 0);
    let m0_0_0_0_2_0_0 = mono(v, 0, 0, 0, 0, 2, 0, 0);
    lemma_mono_mul(v, 0, 0, 0, 0, 1, 0, 0, 0, 0, 0, 0, 1, 0, 0);
    let row0 = m0_0_0_0_1_0_0 * r;
    assert(row0 == m0_0_0_0_2_0_0) by (nonlinear_arith)
        requires
            row0 == m0_0_0_0_1_0_0 * r,
            r == m0_0_0_0_1_0_0,
            m0_0_0_0_1_0_0 * m0_0_0_0_1_0_0 == m0_0_0_0_2_0_0,
    ;
    assert(p * r == row0) by (nonlinear_arith)
        requires
            p == m0_0_0_0_1_0_0,
            row0 == m0_0_0_0_1_0_0 * r,
    ;
}

/// The square of a coordinate of the third point.
proof fn lemma_associative_product_64(v: Vars, p: int, r: int)
    requires
        p == mono(v, 0, 0, 0, 0, 0, 1, 0),
        r == mono(v, 0, 0, 0, 0, 0, 1, 0),
    ensures
        p * r == mono(v, 0, 0, 0, 0, 0, 2, 0),
{
    let m0_0_0_0_0_1_0 = mono(v, 0, 0, 0, 0, 0, 1, 0);
    let m0_0_0_0_0_2_0 = mono(v, 0, 0, 0, 0, 0, 2, 0);
    lemma_mono_mul(v, 0, 0, 0, 0, 0, 1, 0, 0, 0, 0, 0, 0, 1, 0);
    let row0 = m0_0_0_0_0_1_0 * r;
    assert(row0 == m0_0_0_0_0_2_0) by (nonlinear_arith)
        requires
            row0 == m0_0_0_0_0_1_0 * r,
            r == m0_0_0_0_0_1_0,
            m0_0_0_0_0_1_0 * m0_0_0_0_0_1_0 == m0_0_0_0_0_2_0,
    ;
    assert(p * r == row0) by (nonlinear_arith)
        requires
            p == m0_0_0_0_0_1_0,
            row0 == m0_0_0_0_0_1_0 * r,
    ;
}

/// The product of the squares of the coordinates of the third point.
proof fn lemma_associative_product_65(v: Vars, p: int, r: int)
    requires
        p == mono(v, 0, 0, 0, 0, 2, 0, 0),
        r == mono(v, 0, 0, 0, 0, 0, 2, 0),
    ensures
        p * r == mono(v, 0, 0, 0, 0, 2, 2, 0),
{
    let m0_0_0_0_2_0_0 = mono(v, 0, 0, 0, 0, 2, 0, 0);
    let m0_0_0_0_0_2_0 = mono(v, 0, 0, 0, 0, 0, 2, 0);
    let m0_0_0_0_2_2_0 = mono(v, 0, 0, 0, 0, 2, 2, 0);
    lemma_mono_mul(v, 0, 0, 0, 0, 2, 0, 0, 0, 0, 0, 0, 0, 2, 0);
    let row0 = m0_0_0_0_2_0_0 * r;
    assert(row0 == m0_0_0_0_2_2_0) by (nonlinear_arith)
        requires
            row0 == m0_0_0_0_2_0_0 * r,
            r == m0_0_0_0_0_2_0,
            m0_0_0_0_2_0_0 * m0_0_0_0_0_2_0 == m0_0_0_0_2_2_0,
    ;
    assert(p * r == row0) by (nonlinear_arith)
        requires
            p == m0_0_0_0_2_0_0,
            row0 == m0_0_0_0_2_0_0 * r,
    ;
}

/// The curve constant times the squares of the coordinates of the third point.
proof fn lemma_associative_product_66(v: Vars, p: int, r: int)
    requires
        p == mono(v, 0, 0, 0, 0, 0, 0, 1),
        r == mono(v, 0, 0, 0, 0, 2, 2, 0),
    ensures
        p * r == mono(v, 0, 0, 0, 0, 2, 2, 1),
{
    let m0_0_0_0_0_0_1 = mono(v, 0, 0, 0, 0, 0, 0, 1);
    let m0_0_0_0_2_2_0 = mono(v, 0, 0, 0, 0, 2, 2, 0);
    let m0_0_0_0_2_2_1 = mono(v, 0, 0, 0, 0, 2, 2, 1);
    lemma_mono_mul(v, 0, 0, 0, 0, 0, 0, 1, 0, 0, 0, 0, 2, 2, 0);
    let row0 = m0_0_0_0_0_0_1 * r;
    assert(row0 == m0_0_0_0_2_2_1) by (nonlinear_arith)
        requires
            row0 == m0_0_0_0_0_0_1 * r,
            r == m0_0_0_0_2_2_0,
            m0_0_0_0_0_0_1 * m0_0_0_0_2_2_0 == m0_0_0_0_2_2_1,
    ;
    assert(p * r == row0) by (nonlinear_arith)
        requires
            p == m0_0_0_0_0_0_1,
            row0 == m0_0_0_0_0_0_1 * r,
    ;
}

/// A cofactor times the defect of a point.
proof fn lemma_associative_product_67(v: Vars, p: int, r: int)
    requires
        p == -mono(v, 0, 1, 1, 4, 2, 1, 1) - mono(v, 0, 1, 2, 3, 1, 0, 1) - mono(v, 0, 1, 2, 3,
            3, 0, 1) - mono(v, 0, 1, 3, 2, 0, 1, 1) + mono(v, 0, 1, 3, 2, 0, 3, 1) + mono(v, 0,
            1, 3, 4, 2, 1, 2),
        r == -mono(v, 0, 0, 0, 0, 0, 0, 0) + mono(v, 0, 2, 0, 0, 0, 0, 0) - mono(v, 2, 0, 0, 0,
            0, 0, 0) - mono(v, 2, 2, 0, 0, 0, 0, 1),
    ensures
        p * r == mono(v, 0, 1, 1, 4, 2, 1, 1) + mono(v, 0, 1, 2, 3, 1, 0, 1) + mono(v, 0, 1, 2, 3, 3,
            0, 1) + mono(v, 0, 1, 3, 2, 0, 1, 1) - mono(v, 0, 1, 3, 2, 0, 3, 1) - mono(v, 0, 1,
            3, 4, 2, 1, 2) - mono(v, 0, 3, 1, 4, 2, 1, 1) - mono(v, 0, 3, 2, 3, 1, 0, 1) -
            mono(v, 0, 3, 2, 3, 3, 0, 1) - mono(v, 0, 3, 3, 2, 0, 1, 1) + mono(v, 0, 3, 3, 2, 0,
            3, 1) + mono(v, 0, 3, 3, 4, 2, 1, 2) + mono(v, 2, 1, 1, 4, 2, 1, 1) + mono(v, 2, 1,
            2, 3, 1, 0, 1) + mono(v, 2, 1, 2, 3, 3, 0, 1) + mono(v, 2, 1, 3, 2, 0, 1, 1) -
            mono(v, 2, 1, 3, 2, 0, 3, 1) - mono(v, 2, 1, 3, 4, 2, 1, 2) + mono(v, 2, 3, 1, 4, 2,
            1, 2) + mono(v, 2, 3, 2, 3, 1, 0, 2) + mono(v, 2, 3, 2, 3, 3, 0, 2) + mono(v, 2, 3,
            3, 2, 0, 1, 2) - mono(v, 2, 3, 3, 2, 0, 3, 2) - mono(v, 2, 3, 3, 4, 2, 1, 3),
{
    let m0_1_1_4_2_1_1 = mono(v, 0, 1, 1, 4, 2, 1, 1);
    let m0_1_2_3_1_0_1 = mono(v, 0, 1, 2, 3, 1, 0, 1);
    let m0_1_2_3_3_0_1 = mono(v, 0, 1, 2, 3, 3, 0, 1);
    let m0_1_3_2_0_1_1 = mono(v, 0, 1, 3, 2, 0, 1, 1);
    let m0_1_3_2_0_3_1 = mono(v, 0, 1, 3, 2, 0, 3, 1);
    let m0_1_3_4_2_1_2 = mono(v, 0, 1, 3, 4, 2, 1, 2);
    let m0_0_0_0_0_0_0 = mono(v, 0, 0, 0, 0, 0, 0, 0);
    let m0_2_0_0_0_0_0 = mono(v, 0, 2, 0, 0, 0, 0, 0);
    let m2_0_0_0_0_0_0 = mono(v, 2, 0, 0, 0, 0, 0, 0);
    let m2_2_0_0_0_0_1 = mono(v, 2, 2, 0, 0, 0, 0, 1);
    let m0_3_1_4_2_1_1 = mono(v, 0, 3, 1, 4, 2, 1, 1);
    let m2_1_1_4_2_1_1 = mono(v, 2, 1, 1, 4, 2, 1, 1);
    let m2_3_1_4_2_1_2 = mono(v, 2, 3, 1, 4, 2, 1, 2);
    let m0_3_2_3_1_0_1 = mono(v, 0, 3, 2, 3, 1, 0, 1);
    let m2_1_2_3_1_0_1 = mono(v, 2, 1, 2, 3, 1, 0, 1);
    let m2_3_2_3_1_0_2 = mono(v, 2, 3, 2, 3, 1, 0, 2);
    let m0_3_2_3_3_0_1 = mono(v, 0, 3, 2, 3, 3, 0, 1);
    let m2_1_2_3_3_0_1 = mono(v, 2, 1, 2, 3, 3, 0, 1);
    let m2_3_2_3_3_0_2 = mono(v, 2, 3, 2, 3, 3, 0, 2);
    let m0_3_3_2_0_1_1 = mono(v, 0, 3, 3, 2, 0, 1, 1);
    let m2_1_3_2_0_1_1 = mono(v, 2, 1, 3, 2, 0, 1, 1);
    let m2_3_3_2_0_1_2 = mono(v, 2, 3, 3, 2, 0, 1, 2);
    let m0_3_3_2_0_3_1 = mono(v, 0, 3, 3, 2, 0, 3, 1);
    let m2_1_3_2_0_3_1 = mono(v, 2, 1, 3, 2, 0, 3, 1);
    let m2_3_3_2_0_3_2 = mono(v, 2, 3, 3, 2, 0, 3, 2);
    let m0_3_3_4_2_1_2 = mono(v, 0, 3, 3, 4, 2, 1, 2);
    let m2_1_3_4_2_1_2 = mono(v, 2, 1, 3, 4, 2, 1, 2);
    let m2_3_3_4_2_1_3 = mono(v, 2, 3, 3, 4, 2, 1, 3);
    lemma_mono_mul(v, 0, 1, 1, 4, 2, 1, 1, 0, 0, 0, 0, 0, 0, 0);
    lemma_mono_mul(v, 0, 1, 1, 4, 2, 1, 1, 0, 2, 0, 0, 0, 0, 0);
    lemma_mono_mul(v, 0, 1, 1, 4, 2, 1, 1, 2, 0, 0, 0, 0, 0, 0);
    lemma_mono_mul(v, 0, 1, 1, 4, 2, 1, 1, 2, 2, 0, 0, 0, 0, 1);
    lemma_mono_mul(v, 0, 1, 2, 3, 1, 0, 1, 0, 0, 0, 0, 0, 0, 0);
    lemma_mono_mul(v, 0, 1, 2, 3, 1, 0, 1, 0, 2, 0, 0, 0, 0, 0);
    lemma_mono_mul(v, 0, 1, 2, 3, 1, 0, 1, 2, 0, 0, 0, 0, 0, 0);
    lemma_mono_mul(v, 0, 1, 2, 3, 1, 0, 1, 2, 2, 0, 0, 0, 0, 1);
    lemma_mono_mul(v, 0, 1, 2, 3, 3, 0, 1, 0, 0, 0, 0, 0, 0, 0);
    lemma_mono_mul(v, 0, 1, 2, 3, 3, 0, 1, 0, 2, 0, 0, 0, 0, 0);
    lemma_mono_mul(v, 0, 1, 2, 3, 3, 0, 1, 2, 0, 0, 0, 0, 0, 0);
    lemma_mono_mul(v, 0, 1, 2, 3, 3, 0, 1, 2, 2, 0, 0, 0, 0, 1);
    lemma_mono_mul(v, 0, 1, 3, 2, 0, 1, 1, 0, 0, 0, 0, 0, 0, 0);
    lemma_mono_mul(v, 0, 1, 3, 2, 0, 1, 1, 0, 2, 0, 0, 0, 0, 0);
    lemma_mono_mul(v, 0, 1, 3, 2, 0, 1, 1, 2, 0, 0, 0, 0, 0, 0);
    lemma_mono_mul(v, 0, 1, 3, 2, 0, 1, 1, 2, 2, 0, 0, 0, 0, 1);
    lemma_mono_mul(v, 0, 1, 3, 2, 0, 3, 1, 0, 0, 0, 0, 0, 0, 0);
    lemma_mono_mul(v, 0, 1, 3, 2, 0, 3, 1, 0, 2, 0, 0, 0, 0, 0);
    lemma_mono_mul(v, 0, 1, 3, 2, 0, 3, 1, 2, 0, 0, 0, 0, 0, 0);
    lemma_mono_mul(v, 0, 1, 3, 2, 0, 3, 1, 2, 2, 0, 0, 0, 0, 1);
    lemma_mono_mul(v, 0, 1, 3, 4, 2, 1, 2, 0, 0, 0, 0, 0, 0, 0);
    lemma_mono_mul(v, 0, 1, 3, 4, 2, 1, 2, 0, 2, 0, 0, 0, 0, 0);
    lemma_mono_mul(v, 0, 1, 3, 4, 2, 1, 2, 2, 0, 0, 0, 0, 0, 0);
    lemma_mono_mul(v, 0, 1, 3, 4, 2, 1, 2, 2, 2, 0, 0, 0, 0, 1);
    let row0 = m0_1_1_4_2_1_1 * r;
    assert(row0 == -m0_1_1_4_2_1_1 + m0_3_1_4_2_1_1 - m2_1_1_4_2_1_1 - m2_3_1_4_2_1_2) by (nonlinear_arith)
        requires
            row0 == m0_1_1_4_2_1_1 * r,
            r == -m0_0_0_0_0_0_0 + m0_2_0_0_0_0_0 - m2_0_0_0_0_0_0 - m2_2_0_0_0_0_1,
            m0_1_1_4_2_1_1 * m0_0_0_0_0_0_0 == m0_1_1_4_2_1_1,
            m0_1_1_4_2_1_1 * m0_2_0_0_0_0_0 == m0_3_1_4_2_1_1,
            m0_1_1_4_2_1_1 * m2_0_0_0_0_0_0 == m2_1_1_4_2_1_1,
            m0_1_1_4_2_1_1 * m2_2_0_0_0_0_1 == m2_3_1_4_2_1_2,
    ;
    let row1 = m0_1_2_3_1_0_1 * r;
    assert(row1 == -m0_1_2_3_1_0_1 + m0_3_2_3_1_0_1 - m2_1_2_3_1_0_1 - m2_3_2_3_1_0_2) by (nonlinear_arith)
        requires
            row1 == m0_1_2_3_1_0_1 * r,
            r == -m0_0_0_0_0_0_0 + m0_2_0_0_0_0_0 - m2_0_0_0_0_0_0 - m2_2_0_0_0_0_1,
            m0_1_2_3_1_0_1 * m0_0_0_0_0_0_0 == m0_1_2_3_1_0_1,
            m0_1_2_3_1_0_1 * m0_2_0_0_0_0_0 == m0_3_2_3_1_0_1,
            m0_1_2_3_1_0_1 * m2_0_0_0_0_0_0 == m2_1_2_3_1_0_1,
            m0_1_2_3_1_0_1 * m2_2_0_0_0_0_1 == m2_3_2_3_1_0_2,
    ;
    let row2 = m0_1_2_3_3_0_1 * r;
    assert(row2 == -m0_1_2_3_3_0_1 + m0_3_2_3_3_0_1 - m2_1_2_3_3_0_1 - m2_3_2_3_3_0_2) by (nonlinear_arith)
        requires
            row2 == m0_1_2_3_3_0_1 * r,
            r == -m0_0_0_0_0_0_0 + m0_2_0_0_0_0_0 - m2_0_0_0_0_0_0 - m2_2_0_0_0_0_1,
            m0_1_2_3_3_0_1 * m0_0_0_0_0_0_0 == m0_1_2_3_3_0_1,
            m0_1_2_3_3_0_1 * m0_2_0_0_0_0_0 == m0_3_2_3_3_0_1,
            m0_1_2_3_3_0_1 * m2_0_0_0_0_0_0 == m2_1_2_3_3_0_1,
            m0_1_2_3_3_0_1 * m2_2_0_0_0_0_1 == m2_3_2_3_3_0_2,
    ;
    let row3 = m0_1_3_2_0_1_1 * r;
    assert(row3 == -m0_1_3_2_0_1_1 + m0_3_3_2_0_1_1 - m2_1_3_2_0_1_1 - m2_3_3_2_0_1_2) by (nonlinear_arith)
        requires
            row3 == m0_1_3_2_0_1_1 * r,
            r == -m0_0_0_0_0_0_0 + m0_2_0_0_0_0_0 - m2_0_0_0_0_0_0 - m2_2_0_0_0_0_1,
            m0_1_3_2_0_1_1 * m0_0_0_0_0_0_0 == m0_1_3_2_0_1_1,
            m0_1_3_2_0_1_1 * m0_2_0_0_0_0_0 == m0_3_3_2_0_1_1,
            m0_1_3_2_0_1_1 * m2_0_0_0_0_0_0 == m2_1_3_2_0_1_1,
            m0_1_3_2_0_1_1 * m2_2_0_0_0_0_1 == m2_3_3_2_0_1_2,
    ;
    let row4 = m0_1_3_2_0_3_1 * r;
    assert(row4 == -m0_1_3_2_0_3_1 + m0_3_3_2_0_3_1 - m2_1_3_2_0_3_1 - m2_3_3_2_0_3_2) by (nonlinear_arith)
        requires
            row4 == m0_1_3_2_0_3_1 * r,
            r == -m0_0_0_0_0_0_0 + m0_2_0_0_0_0_0 - m2_0_0_0_0_0_0 - m2_2_0_0_0_0_1,
            m0_1_3_2_0_3_1 * m0_0_0_0_0_0_0 == m0_1_3_2_0_3_1,
            m0_1_3_2_0_3_1 * m0_2_0_0_0_0_0 == m0_3_3_2_0_3_1,
            m0_1_3_2_0_3_1 * m2_0_0_0_0_0_0 == m2_1_3_2_0_3_1,
            m0_1_3_2_0_3_1 * m2_2_0_0_0_0_1 == m2_3_3_2_0_3_2,
    ;
    let row5 = m0_1_3_4_2_1_2 * r;
    assert(row5 == -m0_1_3_4_2_1_2 + m0_3_3_4_2_1_2 - m2_1_3_4_2_1_2 - m2_3_3_4_2_1_3) by (nonlinear_arith)
        requires
            row5 == m0_1_3_4_2_1_2 * r,
            r == -m0_0_0_0_0_0_0 + m0_2_0_0_0_0_0 - m2_0_0_0_0_0_0 - m2_2_0_0_0_0_1,
            m0_1_3_4_2_1_2 * m0_0_0_0_0_0_0 == m0_1_3_4_2_1_2,
            m0_1_3_4_2_1_2 * m0_2_0_0_0_0_0 == m0_3_3_4_2_1_2,
            m0_1_3_4_2_1_2 * m2_0_0_0_0_0_0 == m2_1_3_4_2_1_2,
            m0_1_3_4_2_1_2 * m2_2_0_0_0_0_1 == m2_3_3_4_2_1_3,
    ;
    assert(p * r == -row0 - row1 - row2 - row3 + row4 + row5) by (nonlinear_arith)
        requires
            p == -m0_1_1_4_2_1_1 - m0_1_2_3_1_0_1 - m0_1_2_3_3_0_1 - m0_1_3_2_0_1_1 +
                m0_1_3_2_0_3_1 + m0_1_3_4_2_1_2,
            row0 == m0_1_1_4_2_1_1 * r,
            row1 == m0_1_2_3_1_0_1 * r,
            row2 == m0_1_2_3_3_0_1 * r,
            row3 == m0_1_3_2_0_1_1 * r,
            row4 == m0_1_3_2_0_3_1 * r,
            row5 == m0_1_3_4_2_1_2 * r,
    ;
}

/// A cofactor times the defect of a point.
proof fn lemma_associative_product_68(v: Vars, p: int, r: int)
    requires
        p == mono(v, 0, 1, 4, 1, 1, 2, 1) + mono(v, 0, 1, 4, 3, 1, 2, 2) + mono(v, 1, 0, 1, 4, 1,
            2, 1) - mono(v, 1, 0, 2, 3, 0, 1, 1) + mono(v, 1, 0, 2, 3, 0, 3, 1) - mono(v, 1, 0,
            3, 2, 1, 0, 1),
        r == -mono(v, 0, 0, 0, 0, 0, 0, 0) + mono(v, 0, 2, 0, 0, 0, 0, 0) - mono(v, 2, 0, 0, 0,
            0, 0, 0) - mono(v, 2, 2, 0, 0, 0, 0, 1),
    ensures
        p * r == -mono(v, 0, 1, 4, 1, 1, 2, 1) - mono(v, 0, 1, 4, 3, 1, 2, 2) + mono(v, 0, 3, 4, 1,
            1, 2, 1) + mono(v, 0, 3, 4, 3, 1, 2, 2) - mono(v, 1, 0, 1, 4, 1, 2, 1) + mono(v, 1,
            0, 2, 3, 0, 1, 1) - mono(v, 1, 0, 2, 3, 0, 3, 1) + mono(v, 1, 0, 3, 2, 1, 0, 1) +
            mono(v, 1, 2, 1, 4, 1, 2, 1) - mono(v, 1, 2, 2, 3, 0, 1, 1) + mono(v, 1, 2, 2, 3, 0,
            3, 1) - mono(v, 1, 2, 3, 2, 1, 0, 1) - mono(v, 2, 1, 4, 1, 1, 2, 1) - mono(v, 2, 1,
            4, 3, 1, 2, 2) - mono(v, 2, 3, 4, 1, 1, 2, 2) - mono(v, 2, 3, 4, 3, 1, 2, 3) -
            mono(v, 3, 0, 1, 4, 1, 2, 1) + mono(v, 3, 0, 2, 3, 0, 1, 1) - mono(v, 3, 0, 2, 3, 0,
            3, 1) + mono(v, 3, 0, 3, 2, 1, 0, 1) - mono(v, 3, 2, 1, 4, 1, 2, 2) + mono(v, 3, 2,
            2, 3, 0, 1, 2) - mono(v, 3, 2, 2, 3, 0, 3, 2) + mono(v, 3, 2, 3, 2, 1, 0, 2),
{
    let m0_1_4_1_1_2_1 = mono(v, 0, 1, 4, 1, 1, 2, 1);
    let m0_1_4_3_1_2_2 = mono(v, 0, 1, 4, 3, 1, 2, 2);
    let m1_0_1_4_1_2_1 = mono(v, 1, 0, 1, 4, 1, 2, 1);
    let m1_0_2_3_0_1_1 = mono(v, 1, 0, 2, 3, 0, 1, 1);
    let m1_0_2_3_0_3_1 = mono(v, 1, 0, 2, 3, 0, 3, 1);
    let m1_0_3_2_1_0_1 = mono(v, 1, 0, 3, 2, 1, 0, 1);
    let m0_0_0_0_0_0_0 = mono(v, 0, 0, 0, 0, 0, 0, 0);
    let m0_2_0_0_0_0_0 = mono(v, 0, 2, 0, 0, 0, 0, 0);
    let m2_0_0_0_0_0_0 = mono(v, 2, 0, 0, 0, 0, 0, 0);
    let m2_2_0_0_0_0_1 = mono(v, 2, 2, 0, 0, 0, 0, 1);
    let m0_3_4_1_1_2_1 = mono(v, 0, 3, 4, 1, 1, 2, 1);
    let m2_1_4_1_1_2_1 = mono(v, 2, 1, 4, 1, 1, 2, 1);
    let m2_3_4_1_1_2_2 = mono(v, 2, 3, 4, 1, 1, 2, 2);
    let m0_3_4_3_1_2_2 = mono(v, 0, 3, 4, 3, 1, 2, 2);
    let m2_1_4_3_1_2_2 = mono(v, 2, 1, 4, 3, 1, 2, 2);
    let m2_3_4_3_1_2_3 = mono(v, 2, 3, 4, 3, 1, 2, 3);
    let m1_2_1_4_1_2_1 = mono(v, 1, 2, 1, 4, 1, 2, 1);
    let m3_0_1_4_1_2_1 = mono(v, 3, 0, 1, 4, 1, 2, 1);
    let m3_2_1_4_1_2_2 = mono(v, 3, 2, 1, 4, 1, 2, 2);
    let m1_2_2_3_0_1_1 = mono(v, 1, 2, 2, 3, 0, 1, 1);
    let m3_0_2_3_0_1_1 = mono(v, 3, 0, 2, 3, 0, 1, 1);
    let m3_2_2_3_0_1_2 = mono(v, 3, 2, 2, 3, 0, 1, 2);
    let m1_2_2_3_0_3_1 = mono(v, 1, 2, 2, 3, 0, 3, 1);
    let m3_0_2_3_0_3_1 = mono(v, 3, 0, 2, 3, 0, 3, 1);
    let m3_2_2_3_0_3_2 = mono(v, 3, 2, 2, 3, 0, 3, 2);
    let m1_2_3_2_1_0_1 = mono(v, 1, 2, 3, 2, 1, 0, 1);
    let m3_0_3_2_1_0_1 = mono(v, 3, 0, 3, 2, 1, 0, 1);
    let m3_2_3_2_1_0_2 = mono(v, 3, 2, 3, 2, 1, 0, 2);
    lemma_mono_mul(v, 0, 1, 4, 1, 1, 2, 1, 0, 0, 0, 0, 0, 0, 0);
    lemma_mono_mul(v, 0, 1, 4, 1, 1, 2, 1, 0, 2, 0, 0, 0, 0, 0);
    lemma_mono_mul(v, 0, 1, 4, 1, 1, 2, 1, 2, 0, 0, 0, 0, 0, 0);
    lemma_mono_mul(v, 0, 1, 4, 1, 1, 2, 1, 2, 2, 0, 0, 0, 0, 1);
    lemma_mono_mul(v, 0, 1, 4, 3, 1, 2, 2, 0, 0, 0, 0, 0, 0, 0);
    lemma_mono_mul(v, 0, 1, 4, 3, 1, 2, 2, 0, 2, 0, 0, 0, 0, 0);
    lemma_mono_mul(v, 0, 1, 4, 3, 1, 2, 2, 2, 0, 0, 0, 0, 0, 0);
    lemma_mono_mul(v, 0, 1, 4, 3, 1, 2, 2, 2, 2, 0, 0, 0, 0, 1);
    lemma_mono_mul(v, 1, 0, 1, 4, 1, 2, 1, 0, 0, 0, 0, 0, 0, 0);
    lemma_mono_mul(v, 1, 0, 1, 4, 1, 2, 1, 0, 2, 0, 0, 0, 0, 0);
    lemma_mono_mul(v, 1, 0, 1, 4, 1, 2, 1, 2, 0, 0, 0, 0, 0, 0);
    lemma_mono_mul(v, 1, 0, 1, 4, 1, 2, 1, 2, 2, 0, 0, 0, 0, 1);
    lemma_mono_mul(v, 1, 0, 2, 3, 0, 1, 1, 0, 0, 0, 0, 0, 0, 0);
    lemma_mono_mul(v, 1, 0, 2, 3, 0, 1, 1, 0, 2, 0, 0, 0, 0, 0);
    lemma_mono_mul(v, 1, 0, 2, 3, 0, 1, 1, 2, 0, 0, 0, 0, 0, 0);
    lemma_mono_mul(v, 1, 0, 2, 3, 0, 1, 1, 2, 2, 0, 0, 0, 0, 1);
    lemma_mono_mul(v, 1, 0, 2, 3, 0, 3, 1, 0, 0, 0, 0, 0, 0, 0);
    lemma_mono_mul(v, 1, 0, 2, 3, 0, 3, 1, 0, 2, 0, 0, 0, 0, 0);
    lemma_mono_mul(v, 1, 0, 2, 3, 0, 3, 1, 2, 0, 0, 0, 0, 0, 0);
    lemma_mono_mul(v, 1, 0, 2, 3, 0, 3, 1, 2, 2, 0, 0, 0, 0, 1);
    lemma_mono_mul(v, 1, 0, 3, 2, 1, 0, 1, 0, 0, 0, 0, 0, 0, 0);
    lemma_mono_mul(v, 1, 0, 3, 2, 1, 0, 1, 0, 2, 0, 0, 0, 0, 0);
    lemma_mono_mul(v, 1, 0, 3, 2, 1, 0, 1, 2, 0, 0, 0, 0, 0, 0);
    lemma_mono_mul(v, 1, 0, 3, 2, 1, 0, 1, 2, 2, 0, 0, 0, 0, 1);
    let row0 = m0_1_4_1_1_2_1 * r;
    assert(row0 == -m0_1_4_1_1_2_1 + m0_3_4_1_1_2_1 - m2_1_4_1_1_2_1 - m2_3_4_1_1_2_2) by (nonlinear_arith)
        requires
            row0 == m0_1_4_1_1_2_1 * r,
            r == -m0_0_0_0_0_0_0 + m0_2_0_0_0_0_0 - m2_0_0_0_0_0_0 - m2_2_0_0_0_0_1,
            m0_1_4_1_1_2_1 * m0_0_0_0_0_0_0 == m0_1_4_1_1_2_1,
            m0_1_4_1_1_2_1 * m0_2_0_0_0_0_0 == m0_3_4_1_1_2_1,
            m0_1_4_1_1_2_1 * m2_0_0_0_0_0_0 == m2_1_4_1_1_2_1,
            m0_1_4_1_1_2_1 * m2_2_0_0_0_0_1 == m2_3_4_1_1_2_2,
    ;
    let row1 = m0_1_4_3_1_2_2 * r;
    assert(row1 == -m0_1_4_3_1_2_2 + m0_3_4_3_1_2_2 - m2_1_4_3_1_2_2 - m2_3_4_3_1_2_3) by (nonlinear_arith)
        requires
            row1 == m0_1_4_3_1_2_2 * r,
            r == -m0_0_0_0_0_0_0 + m0_2_0_0_0_0_0 - m2_0_0_0_0_0_0 - m2_2_0_0_0_0_1,
            m0_1_4_3_1_2_2 * m0_0_0_0_0_0_0 == m0_1_4_3_1_2_2,
            m0_1_4_3_1_2_2 * m0_2_0_0_0_0_0 == m0_3_4_3_1_2_2,
            m0_1_4_3_1_2_2 * m2_0_0_0_0_0_0 == m2_1_4_3_1_2_2,
            m0_1_4_3_1_2_2 * m2_2_0_0_0_0_1 == m2_3_4_3_1_2_3,
    ;
    let row2 = m1_0_1_4_1_2_1 * r;
    assert(row2 == -m1_0_1_4_1_2_1 + m1_2_1_4_1_2_1 - m3_0_1_4_1_2_1 - m3_2_1_4_1_2_2) by (nonlinear_arith)
        requires
            row2 == m1_0_1_4_1_2_1 * r,
            r == -m0_0_0_0_0_0_0 + m0_2_0_0_0_0_0 - m2_0_0_0_0_0_0 - m2_2_0_0_0_0_1,
            m1_0_1_4_1_2_1 * m0_0_0_0_0_0_0 == m1_0_1_4_1_2_1,
            m1_0_1_4_1_2_1 * m0_2_0_0_0_0_0 == m1_2_1_4_1_2_1,
            m1_0_1_4_1_2_1 * m2_0_0_0_0_0_0 == m3_0_1_4_1_2_1,
            m1_0_1_4_1_2_1 * m2_2_0_0_0_0_1 == m3_2_1_4_1_2_2,
    ;
    let row3 = m1_0_2_3_0_1_1 * r;
    assert(row3 == -m1_0_2_3_0_1_1 + m1_2_2_3_0_1_1 - m3_0_2_3_0_1_1 - m3_2_2_3_0_1_2) by (nonlinear_arith)
        requires
            row3 == m1_0_2_3_0_1_1 * r,
            r == -m0_0_0_0_0_0_0 + m0_2_0_0_0_0_0 - m2_0_0_0_0_0_0 - m2_2_0_0_0_0_1,
            m1_0_2_3_0_1_1 * m0_0_0_0_0_0_0 == m1_0_2_3_0_1_1,
            m1_0_2_3_0_1_1 * m0_2_0_0_0_0_0 == m1_2_2_3_0_1_1,
            m1_0_2_3_0_1_1 * m2_0_0_0_0_0_0 == m3_0_2_3_0_1_1,
            m1_0_2_3_0_1_1 * m2_2_0_0_0_0_1 == m3_2_2_3_0_1_2,
    ;
    let row4 = m1_0_2_3_0_3_1 * r;
    assert(row4 == -m1_0_2_3_0_3_1 + m1_2_2_3_0_3_1 - m3_0_2_3_0_3_1 - m3_2_2_3_0_3_2) by (nonlinear_arith)
        requires
            row4 == m1_0_2_3_0_3_1 * r,
            r == -m0_0_0_0_0_0_0 + m0_2_0_0_0_0_0 - m2_0_0_0_0_0_0 - m2_2_0_0_0_0_1,
            m1_0_2_3_0_3_1 * m0_0_0_0_0_0_0 == m1_0_2_3_0_3_1,
            m1_0_2_3_0_3_1 * m0_2_0_0_0_0_0 == m1_2_2_3_0_3_1,
            m1_0_2_3_0_3_1 * m2_0_0_0_0_0_0 == m3_0_2_3_0_3_1,
            m1_0_2_3_0_3_1 * m2_2_0_0_0_0_1 == m3_2_2_3_0_3_2,
    ;
    let row5 = m1_0_3_2_1_0_1 * r;
    assert(row5 == -m1_0_3_2_1_0_1 + m1_2_3_2_1_0_1 - m3_0_3_2_1_0_1 - m3_2_3_2_1_0_2) by (nonlinear_arith)
        requires
            row5 == m1_0_3_2_1_0_1 * r,
            r == -m0_0_0_0_0_0_0 + m0_2_0_0_0_0_0 - m2_0_0_0_0_0_0 - m2_2_0_0_0_0_1,
            m1_0_3_2_1_0_1 * m0_0_0_0_0_0_0 == m1_0_3_2_1_0_1,
            m1_0_3_2_1_0_1 * m0_2_0_0_0_0_0 == m1_2_3_2_1_0_1,
            m1_0_3_2_1_0_1 * m2_0_0_0_0_0_0 == m3_0_3_2_1_0_1,
            m1_0_3_2_1_0_1 * m2_2_0_0_0_0_1 == m3_2_3_2_1_0_2,
    ;
    assert(p * r == row0 + row1 + row2 - row3 + row4 - row5) by (nonlinear_arith)
        requires
            p == m0_1_4_1_1_2_1 + m0_1_4_3_1_2_2 + m1_0_1_4_1_2_1 - m1_0_2_3_0_1_1 +
                m1_0_2_3_0_3_1 - m1_0_3_2_1_0_1,
            row0 == m0_1_4_1_1_2_1 * r,
            row1 == m0_1_4_3_1_2_2 * r,
            row2 == m1_0_1_4_1_2_1 * r,
            row3 == m1_0_2_3_0_1_1 * r,
            row4 == m1_0_2_3_0_3_1 * r,
            row5 == m1_0_3_2_1_0_1 * r,
    ;
}

/// A cofactor times the defect of a point.
proof fn lemma_associative_product_69(v: Vars, p: int, r: int)
    requires
        p == -mono(v, 1, 0, 3, 2, 3, 0, 1) - mono(v, 1, 0, 3, 4, 1, 2, 2) - mono(v, 1, 0, 4, 1,
            2, 1, 1) - mono(v, 1, 0, 4, 3, 2, 1, 2),
        r == -mono(v, 0, 0, 0, 0, 0, 0, 0) + mono(v, 0, 2, 0, 0, 0, 0, 0) - mono(v, 2, 0, 0, 0,
            0, 0, 0) - mono(v, 2, 2, 0, 0, 0, 0, 1),
    ensures
        p * r == mono(v, 1, 0, 3, 2, 3, 0, 1) + mono(v, 1, 0, 3, 4, 1, 2, 2) + mono(v, 1, 0, 4, 1, 2,
            1, 1) + mono(v, 1, 0, 4, 3, 2, 1, 2) - mono(v, 1, 2, 3, 2, 3, 0, 1) - mono(v, 1, 2,
            3, 4, 1, 2, 2) - mono(v, 1, 2, 4, 1, 2, 1, 1) - mono(v, 1, 2, 4, 3, 2, 1, 2) +
            mono(v, 3, 0, 3, 2, 3, 0, 1) + mono(v, 3, 0, 3, 4, 1, 2, 2) + mono(v, 3, 0, 4, 1, 2,
            1, 1) + mono(v, 3, 0, 4, 3, 2, 1, 2) + mono(v, 3, 2, 3, 2, 3, 0, 2) + mono(v, 3, 2,
            3, 4, 1, 2, 3) + mono(v, 3, 2, 4, 1, 2, 1, 2) + mono(v, 3, 2, 4, 3, 2, 1, 3),
{
    let m1_0_3_2_3_0_1 = mono(v, 1, 0, 3, 2, 3, 0, 1);
    let m1_0_3_4_1_2_2 = mono(v, 1, 0, 3, 4, 1, 2, 2);
    let m1_0_4_1_2_1_1 = mono(v, 1, 0, 4, 1, 2, 1, 1);
    let m1_0_4_3_2_1_2 = mono(v, 1, 0, 4, 3, 2, 1, 2);
    let m0_0_0_0_0_0_0 = mono(v, 0, 0, 0, 0, 0, 0, 0);
    let m0_2_0_0_0_0_0 = mono(v, 0, 2, 0, 0, 0, 0, 0);
    let m2_0_0_0_0_0_0 = mono(v, 2, 0, 0, 0, 0, 0, 0);
    let m2_2_0_0_0_0_1 = mono(v, 2, 2, 0, 0, 0, 0, 1);
    let m1_2_3_2_3_0_1 = mono(v, 1, 2, 3, 2, 3, 0, 1);
    let m3_0_3_2_3_0_1 = mono(v, 3, 0, 3, 2, 3, 0, 1);
    let m3_2_3_2_3_0_2 = mono(v, 3, 2, 3, 2, 3, 0, 2);
    let m1_2_3_4_1_2_2 = mono(v, 1, 2, 3, 4, 1, 2, 2);
    let m3_0_3_4_1_2_2 = mono(v, 3, 0, 3, 4, 1, 2, 2);
    let m3_2_3_4_1_2_3 = mono(v, 3, 2, 3, 4, 1, 2, 3);
    let m1_2_4_1_2_1_1 = mono(v, 1, 2, 4, 1, 2, 1, 1);
    let m3_0_4_1_2_1_1 = mono(v, 3, 0, 4, 1, 2, 1, 1);
    let m3_2_4_1_2_1_2 = mono(v, 3, 2, 4, 1, 2, 1, 2);
    let m1_2_4_3_2_1_2 = mono(v, 1, 2, 4, 3, 2, 1, 2);
    let m3_0_4_3_2_1_2 = mono(v, 3, 0, 4, 3, 2, 1, 2);
    let m3_2_4_3_2_1_3 = mono(v, 3, 2, 4, 3, 2, 1, 3);
    lemma_mono_mul(v, 1, 0, 3, 2, 3, 0, 1, 0, 0, 0, 0, 0, 0, 0);
    lemma_mono_mul(v, 1, 0, 3, 2, 3, 0, 1, 0, 2, 0, 0, 0, 0, 0);
    lemma_mono_mul(v, 1, 0, 3, 2, 3, 0, 1, 2, 0, 0, 0, 0, 0, 0);
    lemma_mono_mul(v, 1, 0, 3, 2, 3, 0, 1, 2, 2, 0, 0, 0, 0, 1);
    lemma_mono_mul(v, 1, 0, 3, 4, 1, 2, 2, 0, 0, 0, 0, 0, 0, 0);
    lemma_mono_mul(v, 1, 0, 3, 4, 1, 2, 2, 0, 2, 0, 0, 0, 0, 0);
    lemma_mono_mul(v, 1, 0, 3, 4, 1, 2, 2, 2, 0, 0, 0, 0, 0, 0);
    lemma_mono_mul(v, 1, 0, 3, 4, 1, 2, 2, 2, 2, 0, 0, 0, 0, 1);
    lemma_mono_mul(v, 1, 0, 4, 1, 2, 1, 1, 0, 0, 0, 0, 0, 0, 0);
    lemma_mono_mul(v, 1, 0, 4, 1, 2, 1, 1, 0, 2, 0, 0, 0, 0, 0);
    lemma_mono_mul(v, 1, 0, 4, 1, 2, 1, 1, 2, 0, 0, 0, 0, 0, 0);
    lemma_mono_mul(v, 1, 0, 4, 1, 2, 1, 1, 2, 2, 0, 0, 0, 0, 1);
    lemma_mono_mul(v, 1, 0, 4, 3, 2, 1, 2, 0, 0, 0, 0, 0, 0, 0);
    lemma_mono_mul(v, 1, 0, 4, 3, 2, 1, 2, 0, 2, 0, 0, 0, 0, 0);
    lemma_mono_mul(v, 1, 0, 4, 3, 2, 1, 2, 2, 0, 0, 0, 0, 0, 0);
    lemma_mono_mul(v, 1, 0, 4, 3, 2, 1, 2, 2, 2, 0, 0, 0, 0, 1);
    let row0 = m1_0_3_2_3_0_1 * r;
    assert(row0 == -m1_0_3_2_3_0_1 + m1_2_3_2_3_0_1 - m3_0_3_2_3_0_1 - m3_2_3_2_3_0_2) by (nonlinear_arith)
        requires
            row0 == m1_0_3_2_3_0_1 * r,
            r == -m0_0_0_0_0_0_0 + m0_2_0_0_0_0_0 - m2_0_0_0_0_0_0 - m2_2_0_0_0_0_1,
            m1_0_3_2_3_0_1 * m0_0_0_0_0_0_0 == m1_0_3_2_3_0_1,
            m1_0_3_2_3_0_1 * m0_2_0_0_0_0_0 == m1_2_3_2_3_0_1,
            m1_0_3_2_3_0_1 * m2_0_0_0_0_0_0 == m3_0_3_2_3_0_1,
            m1_0_3_2_3_0_1 * m2_2_0_0_0_0_1 == m3_2_3_2_3_0_2,
    ;
    let row1 = m1_0_3_4_1_2_2 * r;
    assert(row1 == -m1_0_3_4_1_2_2 + m1_2_3_4_1_2_2 - m3_0_3_4_1_2_2 - m3_2_3_4_1_2_3) by (nonlinear_arith)
        requires
            row1 == m1_0_3_4_1_2_2 * r,
            r == -m0_0_0_0_0_0_0 + m0_2_0_0_0_0_0 - m2_0_0_0_0_0_0 - m2_2_0_0_0_0_1,
            m1_0_3_4_1_2_2 * m0_0_0_0_0_0_0 == m1_0_3_4_1_2_2,
            m1_0_3_4_1_2_2 * m0_2_0_0_0_0_0 == m1_2_3_4_1_2_2,
            m1_0_3_4_1_2_2 * m2_0_0_0_0_0_0 == m3_0_3_4_1_2_2,
            m1_0_3_4_1_2_2 * m2_2_0_0_0_0_1 == m3_2_3_4_1_2_3,
    ;
    let row2 = m1_0_4_1_2_1_1 * r;
    assert(row2 == -m1_0_4_1_2_1_1 + m1_2_4_1_2_1_1 - m3_0_4_1_2_1_1 - m3_2_4_1_2_1_2) by (nonlinear_arith)
        requires
            row2 == m1_0_4_1_2_1_1 * r,
            r == -m0_0_0_0_0_0_0 + m0_2_0_0_0_0_0 - m2_0_0_0_0_0_0 - m2_2_0_0_0_0_1,
            m1_0_4_1_2_1_1 * m0_0_0_0_0_0_0 == m1_0_4_1_2_1_1,
            m1_0_4_1_2_1_1 * m0_2_0_0_0_0_0 == m1_2_4_1_2_1_1,
            m1_0_4_1_2_1_1 * m2_0_0_0_0_0_0 == m3_0_4_1_2_1_1,
            m1_0_4_1_2_1_1 * m2_2_0_0_0_0_1 == m3_2_4_1_2_1_2,
    ;
    let row3 = m1_0_4_3_2_1_2 * r;
    assert(row3 == -m1_0_4_3_2_1_2 + m1_2_4_3_2_1_2 - m3_0_4_3_2_1_2 - m3_2_4_3_2_1_3) by (nonlinear_arith)
        requires
            row3 == m1_0_4_3_2_1_2 * r,
            r == -m0_0_0_0_0_0_0 + m0_2_0_0_0_0_0 - m2_0_0_0_0_0_0 - m2_2_0_0_0_0_1,
            m1_0_4_3_2_1_2 * m0_0_0_0_0_0_0 == m1_0_4_3_2_1_2,
            m1_0_4_3_2_1_2 * m0_2_0_0_0_0_0 == m1_2_4_3_2_1_2,
            m1_0_4_3_2_1_2 * m2_0_0_0_0_0_0 == m3_0_4_3_2_1_2,
            m1_0_4_3_2_1_2 * m2_2_0_0_0_0_1 == m3_2_4_3_2_1_3,
    ;
    assert(p * r == -row0 - row1 - row2 - row3) by (nonlinear_arith)
        requires
            p == -m1_0_3_2_3_0_1 - m1_0_3_4_1_2_2 - m1_0_4_1_2_1_1 - m1_0_4_3_2_1_2,
            row0 == m1_0_3_2_3_0_1 * r,
            row1 == m1_0_3_4_1_2_2 * r,
            row2 == m1_0_4_1_2_1_1 * r,
            row3 == m1_0_4_3_2_1_2 * r,
    ;
}

/// A cofactor times the defect of a point.
proof fn lemma_associative_product_70(v: Vars, p: int, r: int)
    requires
        p == -mono(v, 0, 1, 1, 4, 2, 1, 1) - mono(v, 0, 1, 2, 3, 1, 0, 1) - mono(v, 0, 1, 2, 3,
            3, 0, 1) - mono(v, 0, 1, 3, 2, 0, 1, 1) + mono(v, 0, 1, 3, 2, 0, 3, 1) + mono(v, 0,
            1, 3, 4, 2, 1, 2) + mono(v, 0, 1, 4, 1, 1, 2, 1) + mono(v, 0, 1, 4, 3, 1, 2, 2) +
            mono(v, 1, 0, 1, 4, 1, 2, 1) - mono(v, 1, 0, 2, 3, 0, 1, 1) + mono(v, 1, 0, 2, 3, 0,
            3, 1) - mono(v, 1, 0, 3, 2, 1, 0, 1) - mono(v, 1, 0, 3, 2, 3, 0, 1) - mono(v, 1, 0,
            3, 4, 1, 2, 2) - mono(v, 1, 0, 4, 1, 2, 1, 1) - mono(v, 1, 0, 4, 3, 2, 1, 2),
        r == -mono(v, 0, 0, 0, 0, 0, 0, 0) + mono(v, 0, 2, 0, 0, 0, 0, 0) - mono(v, 2, 0, 0, 0,
            0, 0, 0) - mono(v, 2, 2, 0, 0, 0, 0, 1),
    ensures
        p * r == mono(v, 0, 1, 1, 4, 2, 1, 1) + mono(v, 0, 1, 2, 3, 1, 0, 1) + mono(v, 0, 1, 2, 3, 3,
            0, 1) + mono(v, 0, 1, 3, 2, 0, 1, 1) - mono(v, 0, 1, 3, 2, 0, 3, 1) - mono(v, 0, 1,
            3, 4, 2, 1, 2) - mono(v, 0, 1, 4, 1, 1, 2, 1) - mono(v, 0, 1, 4, 3, 1, 2, 2) -
            mono(v, 0, 3, 1, 4, 2, 1, 1) - mono(v, 0, 3, 2, 3, 1, 0, 1) - mono(v, 0, 3, 2, 3, 3,
            0, 1) - mono(v, 0, 3, 3, 2, 0, 1, 1) + mono(v, 0, 3, 3, 2, 0, 3, 1) + mono(v, 0, 3,
            3, 4, 2, 1, 2) + mono(v, 0, 3, 4, 1, 1, 2, 1) + mono(v, 0, 3, 4, 3, 1, 2, 2) -
            mono(v, 1, 0, 1, 4, 1, 2, 1) + mono(v, 1, 0, 2, 3, 0, 1, 1) - mono(v, 1, 0, 2, 3, 0,
            3, 1) + mono(v, 1, 0, 3, 2, 1, 0, 1) + mono(v, 1, 0, 3, 2, 3, 0, 1) + mono(v, 1, 0,
            3, 4, 1, 2, 2) + mono(v, 1, 0, 4, 1, 2, 1, 1) + mono(v, 1, 0, 4, 3, 2, 1, 2) +
            mono(v, 1, 2, 1, 4, 1, 2, 1) - mono(v, 1, 2, 2, 3, 0, 1, 1) + mono(v, 1, 2, 2, 3, 0,
            3, 1) - mono(v, 1, 2, 3, 2, 1, 0, 1) - mono(v, 1, 2, 3, 2, 3, 0, 1) - mono(v, 1, 2,
            3, 4, 1, 2, 2) - mono(v, 1, 2, 4, 1, 2, 1, 1) - mono(v, 1, 2, 4, 3, 2, 1, 2) +
            mono(v, 2, 1, 1, 4, 2, 1, 1) + mono(v, 2, 1, 2, 3, 1, 0, 1) + mono(v, 2, 1, 2, 3, 3,
            0, 1) + mono(v, 2, 1, 3, 2, 0, 1, 1) - mono(v, 2, 1, 3, 2, 0, 3, 1) - mono(v, 2, 1,
            3, 4, 2, 1, 2) - mono(v, 2, 1, 4, 1, 1, 2, 1) - mono(v, 2, 1, 4, 3, 1, 2, 2) +
            mono(v, 2, 3, 1, 4, 2, 1, 2) + mono(v, 2, 3, 2, 3, 1, 0, 2) + mono(v, 2, 3, 2, 3, 3,
            0, 2) + mono(v, 2, 3, 3, 2, 0, 1, 2) - mono(v, 2, 3, 3, 2, 0, 3, 2) - mono(v, 2, 3,
            3, 4, 2, 1, 3) - mono(v, 2, 3, 4, 1, 1, 2, 2) - mono(v, 2, 3, 4, 3, 1, 2, 3) -
            mono(v, 3, 0, 1, 4, 1, 2, 1) + mono(v, 3, 0, 2, 3, 0, 1, 1) - mono(v, 3, 0, 2, 3, 0,
            3, 1) + mono(v, 3, 0, 3, 2, 1, 0, 1) + mono(v, 3, 0, 3, 2, 3, 0, 1) + mono(v, 3, 0,
            3, 4, 1, 2, 2) + mono(v, 3, 0, 4, 1, 2, 1, 1) + mono(v, 3, 0, 4, 3, 2, 1, 2) -
            mono(v, 3, 2, 1, 4, 1, 2, 2) + mono(v, 3, 2, 2, 3, 0, 1, 2) - mono(v, 3, 2, 2, 3, 0,
            3, 2) + mono(v, 3, 2, 3, 2, 1, 0, 2) + mono(v, 3, 2, 3, 2, 3, 0, 2) + mono(v, 3, 2,
            3, 4, 1, 2, 3) + mono(v, 3, 2, 4, 1, 2, 1, 2) + mono(v, 3, 2, 4, 3, 2, 1, 3),
{
    let p0 = -mono(v, 0, 1, 1, 4, 2, 1, 1) - mono(v, 0, 1, 2, 3, 1, 0, 1) - mono(v, 0, 1, 2, 3, 3, 0,
        1) - mono(v, 0, 1, 3, 2, 0, 1, 1) + mono(v, 0, 1, 3, 2, 0, 3, 1) + mono(v, 0, 1, 3, 4,
        2, 1, 2);
    lemma_associative_product_67(v, p0, r);
    let t0 = p0 * r;
    let p1 = mono(v, 0, 1, 4, 1, 1, 2, 1) + mono(v, 0, 1, 4, 3, 1, 2, 2) + mono(v, 1, 0, 1, 4, 1, 2,
        1) - mono(v, 1, 0, 2, 3, 0, 1, 1) + mono(v, 1, 0, 2, 3, 0, 3, 1) - mono(v, 1, 0, 3, 2,
        1, 0, 1);
    lemma_associative_product_68(v, p1, r);
    let t1 = p1 * r;
    let p2 = -mono(v, 1, 0, 3, 2, 3, 0, 1) - mono(v, 1, 0, 3, 4, 1, 2, 2) - mono(v, 1, 0, 4, 1, 2, 1,
        1) - mono(v, 1, 0, 4, 3, 2, 1, 2);
    lemma_associative_product_69(v, p2, r);
    let t2 = p2 * r;
    assert(p * r == t0 + t1 + t2) by (nonlinear_arith)
        requires
            p == p0 + p1 + p2,
            t0 == p0 * r,
            t1 == p1 * r,
            t2 == p2 * r,
    ;
}

/// A cofactor times the defect of a point.
proof fn lemma_associative_product_71(v: Vars, p: int, r: int)
    requires
        p == mono(v, 0, 1, 0, 1, 1, 0, 0) - mono(v, 0, 1, 0, 1, 1, 2, 0) + mono(v, 0, 1, 0, 1, 3,
            0, 0) + mono(v, 0, 1, 0, 1, 3, 2, 1) + mono(v, 0, 1, 1, 0, 0, 1, 0) - mono(v, 0, 1,
            1, 0, 0, 3, 0),
        r == -mono(v, 0, 0, 0, 0, 0, 0, 0) + mono(v, 0, 0, 0, 2, 0, 0, 0) - mono(v, 0, 0, 2, 0,
            0, 0, 0) - mono(v, 0, 0, 2, 2, 0, 0, 1),
    ensures
        p * r == -mono(v, 0, 1, 0, 1, 1, 0, 0) + mono(v, 0, 1, 0, 1, 1, 2, 0) - mono(v, 0, 1, 0, 1,
            3, 0, 0) - mono(v, 0, 1, 0, 1, 3, 2, 1) + mono(v, 0, 1, 0, 3, 1, 0, 0) - mono(v, 0,
            1, 0, 3, 1, 2, 0) + mono(v, 0, 1, 0, 3, 3, 0, 0) + mono(v, 0, 1, 0, 3, 3, 2, 1) -
            mono(v, 0, 1, 1, 0, 0, 1, 0) + mono(v, 0, 1, 1, 0, 0, 3, 0) + mono(v, 0, 1, 1, 2, 0,
            1, 0) - mono(v, 0, 1, 1, 2, 0, 3, 0) - mono(v, 0, 1, 2, 1, 1, 0, 0) + mono(v, 0, 1,
            2, 1, 1, 2, 0) - mono(v, 0, 1, 2, 1, 3, 0, 0) - mono(v, 0, 1, 2, 1, 3, 2, 1) -
            mono(v, 0, 1, 2, 3, 1, 0, 1) + mono(v, 0, 1, 2, 3, 1, 2, 1) - mono(v, 0, 1, 2, 3, 3,
            0, 1) - mono(v, 0, 1, 2, 3, 3, 2, 2) - mono(v, 0, 1, 3, 0, 0, 1, 0) + mono(v, 0, 1,
            3, 0, 0, 3, 0) - mono(v, 0, 1, 3, 2, 0, 1, 1) + mono(v, 0, 1, 3, 2, 0, 3, 1),
{
    let m0_1_0_1_1_0_0 = mono(v, 0, 1, 0, 1, 1, 0, 0);
    let m0_1_0_1_1_2_0 = mono(v, 0, 1, 0, 1, 1, 2, 0);
    let m0_1_0_1_3_0_0 = mono(v, 0, 1, 0, 1, 3, 0, 0);
    let m0_1_0_1_3_2_1 = mono(v, 0, 1, 0, 1, 3, 2, 1);
    let m0_1_1_0_0_1_0 = mono(v, 0, 1, 1, 0, 0, 1, 0);
    let m0_1_1_0_0_3_0 = mono(v, 0, 1, 1, 0, 0, 3, 0);
    let m0_0_0_0_0_0_0 = mono(v, 0, 0, 0, 0, 0, 0, 0);
    let m0_0_0_2_0_0_0 = mono(v, 0, 0, 0, 2, 0, 0, 0);
    let m0_0_2_0_0_0_0 = mono(v, 0, 0, 2, 0, 0, 0, 0);
    let m0_0_2_2_0_0_1 = mono(v, 0, 0, 2, 2, 0, 0, 1);
    let m0_1_0_3_1_0_0 = mono(v, 0, 1, 0, 3, 1, 0, 0);
    let m0_1_2_1_1_0_0 = mono(v, 0, 1, 2, 1, 1, 0, 0);
    let m0_1_2_3_1_0_1 = mono(v, 0, 1, 2, 3, 1, 0, 1);
    let m0_1_0_3_1_2_0 = mono(v, 0, 1, 0, 3, 1, 2, 0);
    let m0_1_2_1_1_2_0 = mono(v, 0, 1, 2, 1, 1, 2, 0);
    let m0_1_2_3_1_2_1 = mono(v, 0, 1, 2, 3, 1, 2, 1);
    let m0_1_0_3_3_0_0 = mono(v, 0, 1, 0, 3, 3, 0, 0);
    let m0_1_2_1_3_0_0 = mono(v, 0, 1, 2, 1, 3, 0, 0);
    let m0_1_2_3_3_0_1 = mono(v, 0, 1, 2, 3, 3, 0, 1);
    let m0_1_0_3_3_2_1 = mono(v, 0, 1, 0, 3, 3, 2, 1);
    let m0_1_2_1_3_2_1 = mono(v, 0, 1, 2, 1, 3, 2, 1);
    let m0_1_2_3_3_2_2 = mono(v, 0, 1, 2, 3, 3, 2, 2);
    let m0_1_1_2_0_1_0 = mono(v, 0, 1, 1, 2, 0, 1, 0);
    let m0_1_3_0_0_1_0 = mono(v, 0, 1, 3, 0, 0, 1, 0);
    let m0_1_3_2_0_1_1 = mono(v, 0, 1, 3, 2, 0, 1, 1);
    let m0_1_1_2_0_3_0 = mono(v, 0, 1, 1, 2, 0, 3, 0);
    let m0_1_3_0_0_3_0 = mono(v, 0, 1, 3, 0, 0, 3, 0);
    let m0_1_3_2_0_3_1 = mono(v, 0, 1, 3, 2, 0, 3, 1);
    lemma_mono_mul(v, 0, 1, 0, 1, 1, 0, 0, 0, 0, 0, 0, 0, 0, 0);
    lemma_mono_mul(v, 0, 1, 0, 1, 1, 0, 0, 0, 0, 0, 2, 0, 0, 0);
    lemma_mono_mul(v, 0, 1, 0, 1, 1, 0, 0, 0, 0, 2, 0, 0, 0, 0);
    lemma_mono_mul(v, 0, 1, 0, 1, 1, 0, 0, 0, 0, 2, 2, 0, 0, 1);
    lemma_mono_mul(v, 0, 1, 0, 1, 1, 2, 0, 0, 0, 0, 0, 0, 0, 0);
    lemma_mono_mul(v, 0, 1, 0, 1, 1, 2, 0, 0, 0, 0, 2, 0, 0, 0);
    lemma_mono_mul(v, 0, 1, 0, 1, 1, 2, 0, 0, 0, 2, 0, 0, 0, 0);
    lemma_mono_mul(v, 0, 1, 0, 1, 1, 2, 0, 0, 0, 2, 2, 0, 0, 1);
    lemma_mono_mul(v, 0, 1, 0, 1, 3, 0, 0, 0, 0, 0, 0, 0, 0, 0);
    lemma_mono_mul(v, 0, 1, 0, 1, 3, 0, 0, 0, 0, 0, 2, 0, 0, 0);
    lemma_mono_mul(v, 0, 1, 0, 1, 3, 0, 0, 0, 0, 2, 0, 0, 0, 0);
    lemma_mono_mul(v, 0, 1, 0, 1, 3, 0, 0, 0, 0, 2, 2, 0, 0, 1);
    lemma_mono_mul(v, 0, 1, 0, 1, 3, 2, 1, 0, 0, 0, 0, 0, 0, 0);
    lemma_mono_mul(v, 0, 1, 0, 1, 3, 2, 1, 0, 0, 0, 2, 0, 0, 0);
    lemma_mono_mul(v, 0, 1, 0, 1, 3, 2, 1, 0, 0, 2, 0, 0, 0, 0);
    lemma_mono_mul(v, 0, 1, 0, 1, 3, 2, 1, 0, 0, 2, 2, 0, 0, 1);
    lemma_mono_mul(v, 0, 1, 1, 0, 0, 1, 0, 0, 0, 0, 0, 0, 0, 0);
    lemma_mono_mul(v, 0, 1, 1, 0, 0, 1, 0, 0, 0, 0, 2, 0, 0, 0);
    lemma_mono_mul(v, 0, 1, 1, 0, 0, 1, 0, 0, 0, 2, 0, 0, 0, 0);
    lemma_mono_mul(v, 0, 1, 1, 0, 0, 1, 0, 0, 0, 2, 2, 0, 0, 1);
    lemma_mono_mul(v, 0, 1, 1, 0, 0, 3, 0, 0, 0, 0, 0, 0, 0, 0);
    lemma_mono_mul(v, 0, 1, 1, 0, 0, 3, 0, 0, 0, 0, 2, 0, 0, 0);
    lemma_mono_mul(v, 0, 1, 1, 0, 0, 3, 0, 0, 0, 2, 0, 0, 0, 0);
    lemma_mono_mul(v, 0, 1, 1, 0, 0, 3, 0, 0, 0, 2, 2, 0, 0, 1);
    let row0 = m0_1_0_1_1_0_0 * r;
    assert(row0 == -m0_1_0_1_1_0_0 + m0_1_0_3_1_0_0 - m0_1_2_1_1_0_0 - m0_1_2_3_1_0_1) by (nonlinear_arith)
        requires
            row0 == m0_1_0_1_1_0_0 * r,
            r == -m0_0_0_0_0_0_0 + m0_0_0_2_0_0_0 - m0_0_2_0_0_0_0 - m0_0_2_2_0_0_1,
            m0_1_0_1_1_0_0 * m0_0_0_0_0_0_0 == m0_1_0_1_1_0_0,
            m0_1_0_1_1_0_0 * m0_0_0_2_0_0_0 == m0_1_0_3_1_0_0,
            m0_1_0_1_1_0_0 * m0_0_2_0_0_0_0 == m0_1_2_1_1_0_0,
            m0_1_0_1_1_0_0 * m0_0_2_2_0_0_1 == m0_1_2_3_1_0_1,
    ;
    let row1 = m0_1_0_1_1_2_0 * r;
    assert(row1 == -m0_1_0_1_1_2_0 + m0_1_0_3_1_2_0 - m0_1_2_1_1_2_0 - m0_1_2_3_1_2_1) by (nonlinear_arith)
        requires
            row1 == m0_1_0_1_1_2_0 * r,
            r == -m0_0_0_0_0_0_0 + m0_0_0_2_0_0_0 - m0_0_2_0_0_0_0 - m0_0_2_2_0_0_1,
            m0_1_0_1_1_2_0 * m0_0_0_0_0_0_0 == m0_1_0_1_1_2_0,
            m0_1_0_1_1_2_0 * m0_0_0_2_0_0_0 == m0_1_0_3_1_2_0,
            m0_1_0_1_1_2_0 * m0_0_2_0_0_0_0 == m0_1_2_1_1_2_0,
            m0_1_0_1_1_2_0 * m0_0_2_2_0_0_1 == m0_1_2_3_1_2_1,
    ;
    let row2 = m0_1_0_1_3_0_0 * r;
    assert(row2 == -m0_1_0_1_3_0_0 + m0_1_0_3_3_0_0 - m0_1_2_1_3_0_0 - m0_1_2_3_3_0_1) by (nonlinear_arith)
        requires
            row2 == m0_1_0_1_3_0_0 * r,
            r == -m0_0_0_0_0_0_0 + m0_0_0_2_0_0_0 - m0_0_2_0_0_0_0 - m0_0_2_2_0_0_1,
            m0_1_0_1_3_0_0 * m0_0_0_0_0_0_0 == m0_1_0_1_3_0_0,
            m0_1_0_1_3_0_0 * m0_0_0_2_0_0_0 == m0_1_0_3_3_0_0,
            m0_1_0_1_3_0_0 * m0_0_2_0_0_0_0 == m0_1_2_1_3_0_0,
            m0_1_0_1_3_0_0 * m0_0_2_2_0_0_1 == m0_1_2_3_3_0_1,
    ;
    let row3 = m0_1_0_1_3_2_1 * r;
    assert(row3 == -m0_1_0_1_3_2_1 + m0_1_0_3_3_2_1 - m0_1_2_1_3_2_1 - m0_1_2_3_3_2_2) by (nonlinear_arith)
        requires
            row3 == m0_1_0_1_3_2_1 * r,
            r == -m0_0_0_0_0_0_0 + m0_0_0_2_0_0_0 - m0_0_2_0_0_0_0 - m0_0_2_2_0_0_1,
            m0_1_0_1_3_2_1 * m0_0_0_0_0_0_0 == m0_1_0_1_3_2_1,
            m0_1_0_1_3_2_1 * m0_0_0_2_0_0_0 == m0_1_0_3_3_2_1,
            m0_1_0_1_3_2_1 * m0_0_2_0_0_0_0 == m0_1_2_1_3_2_1,
            m0_1_0_1_3_2_1 * m0_0_2_2_0_0_1 == m0_1_2_3_3_2_2,
    ;
    let row4 = m0_1_1_0_0_1_0 * r;
    assert(row4 == -m0_1_1_0_0_1_0 + m0_1_1_2_0_1_0 - m0_1_3_0_0_1_0 - m0_1_3_2_0_1_1) by (nonlinear_arith)
        requires
            row4 == m0_1_1_0_0_1_0 * r,
            r == -m0_0_0_0_0_0_0 + m0_0_0_2_0_0_0 - m0_0_2_0_0_0_0 - m0_0_2_2_0_0_1,
            m0_1_1_0_0_1_0 * m0_0_0_0_0_0_0 == m0_1_1_0_0_1_0,
            m0_1_1_0_0_1_0 * m0_0_0_2_0_0_0 == m0_1_1_2_0_1_0,
            m0_1_1_0_0_1_0 * m0_0_2_0_0_0_0 == m0_1_3_0_0_1_0,
            m0_1_1_0_0_1_0 * m0_0_2_2_0_0_1 == m0_1_3_2_0_1_1,
    ;
    let row5 = m0_1_1_0_0_3_0 * r;
    assert(row5 == -m0_1_1_0_0_3_0 + m0_1_1_2_0_3_0 - m0_1_3_0_0_3_0 - m0_1_3_2_0_3_1) by (nonlinear_arith)
        requires
            row5 == m0_1_1_0_0_3_0 * r,
            r == -m0_0_0_0_0_0_0 + m0_0_0_2_0_0_0 - m0_0_2_0_0_0_0 - m0_0_2_2_0_0_1,
            m0_1_1_0_0_3_0 * m0_0_0_0_0_0_0 == m0_1_1_0_0_3_0,
            m0_1_1_0_0_3_0 * m0_0_0_2_0_0_0 == m0_1_1_2_0_3_0,
            m0_1_1_0_0_3_0 * m0_0_2_0_0_0_0 == m0_1_3_0_0_3_0,
            m0_1_1_0_0_3_0 * m0_0_2_2_0_0_1 == m0_1_3_2_0_3_1,
    ;
    assert(p * r == row0 - row1 + row2 + row3 + row4 - row5) by (nonlinear_arith)
        requires
            p == m0_1_0_1_1_0_0 - m0_1_0_1_1_2_0 + m0_1_0_1_3_0_0 + m0_1_0_1_3_2_1 +
                m0_1_1_0_0_1_0 - m0_1_1_0_0_3_0,
            row0 == m0_1_0_1_1_0_0 * r,
            row1 == m0_1_0_1_1_2_0 * r,
            row2 == m0_1_0_1_3_0_0 * r,
            row3 == m0_1_0_1_3_2_1 * r,
            row4 == m0_1_1_0_0_1_0 * r,
            row5 == m0_1_1_0_0_3_0 * r,
    ;
}

/// A cofactor times the defect of a point.
proof fn lemma_associative_product_72(v: Vars, p: int, r: int)
    requires
        p == mono(v, 0, 1, 1, 0, 2, 1, 0) + mono(v, 0, 1, 1, 0, 2, 3, 1) - mono(v, 0, 1, 1, 2, 2,
            1, 1) - mono(v, 0, 1, 2, 1, 1, 2, 1) - mono(v, 0, 3, 0, 1, 1, 0, 0) + mono(v, 0, 3,
            0, 1, 1, 2, 0),
        r == -mono(v, 0, 0, 0, 0, 0, 0, 0) + mono(v, 0, 0, 0, 2, 0, 0, 0) - mono(v, 0, 0, 2, 0,
            0, 0, 0) - mono(v, 0, 0, 2, 2, 0, 0, 1),
    ensures
        p * r == -mono(v, 0, 1, 1, 0, 2, 1, 0) - mono(v, 0, 1, 1, 0, 2, 3, 1) + mono(v, 0, 1, 1, 2,
            2, 1, 0) + mono(v, 0, 1, 1, 2, 2, 1, 1) + mono(v, 0, 1, 1, 2, 2, 3, 1) - mono(v, 0,
            1, 1, 4, 2, 1, 1) + mono(v, 0, 1, 2, 1, 1, 2, 1) - mono(v, 0, 1, 2, 3, 1, 2, 1) -
            mono(v, 0, 1, 3, 0, 2, 1, 0) - mono(v, 0, 1, 3, 0, 2, 3, 1) - mono(v, 0, 1, 3, 2, 2,
            3, 2) + mono(v, 0, 1, 3, 4, 2, 1, 2) + mono(v, 0, 1, 4, 1, 1, 2, 1) + mono(v, 0, 1,
            4, 3, 1, 2, 2) + mono(v, 0, 3, 0, 1, 1, 0, 0) - mono(v, 0, 3, 0, 1, 1, 2, 0) -
            mono(v, 0, 3, 0, 3, 1, 0, 0) + mono(v, 0, 3, 0, 3, 1, 2, 0) + mono(v, 0, 3, 2, 1, 1,
            0, 0) - mono(v, 0, 3, 2, 1, 1, 2, 0) + mono(v, 0, 3, 2, 3, 1, 0, 1) - mono(v, 0, 3,
            2, 3, 1, 2, 1),
{
    let m0_1_1_0_2_1_0 = mono(v, 0, 1, 1, 0, 2, 1, 0);
    let m0_1_1_0_2_3_1 = mono(v, 0, 1, 1, 0, 2, 3, 1);
    let m0_1_1_2_2_1_1 = mono(v, 0, 1, 1, 2, 2, 1, 1);
    let m0_1_2_1_1_2_1 = mono(v, 0, 1, 2, 1, 1, 2, 1);
    let m0_3_0_1_1_0_0 = mono(v, 0, 3, 0, 1, 1, 0, 0);
    let m0_3_0_1_1_2_0 = mono(v, 0, 3, 0, 1, 1, 2, 0);
    let m0_0_0_0_0_0_0 = mono(v, 0, 0, 0, 0, 0, 0, 0);
    let m0_0_0_2_0_0_0 = mono(v, 0, 0, 0, 2, 0, 0, 0);
    let m0_0_2_0_0_0_0 = mono(v, 0, 0, 2, 0, 0, 0, 0);
    let m0_0_2_2_0_0_1 = mono(v, 0, 0, 2, 2, 0, 0, 1);
    let m0_1_1_2_2_1_0 = mono(v, 0, 1, 1, 2, 2, 1, 0);
    let m0_1_3_0_2_1_0 = mono(v, 0, 1, 3, 0, 2, 1, 0);
    let m0_1_3_2_2_1_1 = mono(v, 0, 1, 3, 2, 2, 1, 1);
    let m0_1_1_2_2_3_1 = mono(v, 0, 1, 1, 2, 2, 3, 1);
    let m0_1_3_0_2_3_1 = mono(v, 0, 1, 3, 0, 2, 3, 1);
    let m0_1_3_2_2_3_2 = mono(v, 0, 1, 3, 2, 2, 3, 2);
    let m0_1_1_4_2_1_1 = mono(v, 0, 1, 1, 4, 2, 1, 1);
    let m0_1_3_4_2_1_2 = mono(v, 0, 1, 3, 4, 2, 1, 2);
    let m0_1_2_3_1_2_1 = mono(v, 0, 1, 2, 3, 1, 2, 1);
    let m0_1_4_1_1_2_1 = mono(v, 0, 1, 4, 1, 1, 2, 1);
    let m0_1_4_3_1_2_2 = mono(v, 0, 1, 4, 3, 1, 2, 2);
    let m0_3_0_3_1_0_0 = mono(v, 0, 3, 0, 3, 1, 0, 0);
    let m0_3_2_1_1_0_0 = mono(v, 0, 3, 2, 1, 1, 0, 0);
    let m0_3_2_3_1_0_1 = mono(v, 0, 3, 2, 3, 1, 0, 1);
    let m0_3_0_3_1_2_0 = mono(v, 0, 3, 0, 3, 1, 2, 0);
    let m0_3_2_1_1_2_0 = mono(v, 0, 3, 2, 1, 1, 2, 0);
    let m0_3_2_3_1_2_1 = mono(v, 0, 3, 2, 3, 1, 2, 1);
    lemma_mono_mul(v, 0, 1, 1, 0, 2, 1, 0, 0, 0, 0, 0, 0, 0, 0);
    lemma_mono_mul(v, 0, 1, 1, 0, 2, 1, 0, 0, 0, 0, 2, 0, 0, 0);
    lemma_mono_mul(v, 0, 1, 1, 0, 2, 1, 0, 0, 0, 2, 0, 0, 0, 0);
    lemma_mono_mul(v, 0, 1, 1, 0, 2, 1, 0, 0, 0, 2, 2, 0, 0, 1);
    lemma_mono_mul(v, 0, 1, 1, 0, 2, 3, 1, 0, 0, 0, 0, 0, 0, 0);
    lemma_mono_mul(v, 0, 1, 1, 0, 2, 3, 1, 0, 0, 0, 2, 0, 0, 0);
    lemma_mono_mul(v, 0, 1, 1, 0, 2, 3, 1, 0, 0, 2, 0, 0, 0, 0);
    lemma_mono_mul(v, 0, 1, 1, 0, 2, 3, 1, 0, 0, 2, 2, 0, 0, 1);
    lemma_mono_mul(v, 0, 1, 1, 2, 2, 1, 1, 0, 0, 0, 0, 0, 0, 0);
    lemma_mono_mul(v, 0, 1, 1, 2, 2, 1, 1, 0, 0, 0, 2, 0, 0, 0);
    lemma_mono_mul(v, 0, 1, 1, 2, 2, 1, 1, 0, 0, 2, 0, 0, 0, 0);
    lemma_mono_mul(v, 0, 1, 1, 2, 2, 1, 1, 0, 0, 2, 2, 0, 0, 1);
    lemma_mono_mul(v, 0, 1, 2, 1, 1, 2, 1, 0, 0, 0, 0, 0, 0, 0);
    lemma_mono_mul(v, 0, 1, 2, 1, 1, 2, 1, 0, 0, 0, 2, 0, 0, 0);
    lemma_mono_mul(v, 0, 1, 2, 1, 1, 2, 1, 0, 0, 2, 0, 0, 0, 0);
    lemma_mono_mul(v, 0, 1, 2, 1, 1, 2, 1, 0, 0, 2, 2, 0, 0, 1);
    lemma_mono_mul(v, 0, 3, 0, 1, 1, 0, 0, 0, 0, 0, 0, 0, 0, 0);
    lemma_mono_mul(v, 0, 3, 0, 1, 1, 0, 0, 0, 0, 0, 2, 0, 0, 0);
    lemma_mono_mul(v, 0, 3, 0, 1, 1, 0, 0, 0, 0, 2, 0, 0, 0, 0);
    lemma_mono_mul(v, 0, 3, 0, 1, 1, 0, 0, 0, 0, 2, 2, 0, 0, 1);
    lemma_mono_mul(v, 0, 3, 0, 1, 1, 2, 0, 0, 0, 0, 0, 0, 0, 0);
    lemma_mono_mul(v, 0, 3, 0, 1, 1, 2, 0, 0, 0, 0, 2, 0, 0, 0);
    lemma_mono_mul(v, 0, 3, 0, 1, 1, 2, 0, 0, 0, 2, 0, 0, 0, 0);
    lemma_mono_mul(v, 0, 3, 0, 1, 1, 2, 0, 0, 0, 2, 2, 0, 0, 1);
    let row0 = m0_1_1_0_2_1_0 * r;
    assert(row0 == -m0_1_1_0_2_1_0 + m0_1_1_2_2_1_0 - m0_1_3_0_2_1_0 - m0_1_3_2_2_1_1) by (nonlinear_arith)
        requires
            row0 == m0_1_1_0_2_1_0 * r,
            r == -m0_0_0_0_0_0_0 + m0_0_0_2_0_0_0 - m0_0_2_0_0_0_0 - m0_0_2_2_0_0_1,
            m0_1_1_0_2_1_0 * m0_0_0_0_0_0_0 == m0_1_1_0_2_1_0,
            m0_1_1_0_2_1_0 * m0_0_0_2_0_0_0 == m0_1_1_2_2_1_0,
            m0_1_1_0_2_1_0 * m0_0_2_0_0_0_0 == m0_1_3_0_2_1_0,
            m0_1_1_0_2_1_0 * m0_0_2_2_0_0_1 == m0_1_3_2_2_1_1,
    ;
    let row1 = m0_1_1_0_2_3_1 * r;
    assert(row1 == -m0_1_1_0_2_3_1 + m0_1_1_2_2_3_1 - m0_1_3_0_2_3_1 - m0_1_3_2_2_3_2) by (nonlinear_arith)
        requires
            row1 == m0_1_1_0_2_3_1 * r,
            r == -m0_0_0_0_0_0_0 + m0_0_0_2_0_0_0 - m0_0_2_0_0_0_0 - m0_0_2_2_0_0_1,
            m0_1_1_0_2_3_1 * m0_0_0_0_0_0_0 == m0_1_1_0_2_3_1,
            m0_1_1_0_2_3_1 * m0_0_0_2_0_0_0 == m0_1_1_2_2_3_1,
            m0_1_1_0_2_3_1 * m0_0_2_0_0_0_0 == m0_1_3_0_2_3_1,
            m0_1_1_0_2_3_1 * m0_0_2_2_0_0_1 == m0_1_3_2_2_3_2,
    ;
    let row2 = m0_1_1_2_2_1_1 * r;
    assert(row2 == -m0_1_1_2_2_1_1 + m0_1_1_4_2_1_1 - m0_1_3_2_2_1_1 - m0_1_3_4_2_1_2) by (nonlinear_arith)
        requires
            row2 == m0_1_1_2_2_1_1 * r,
            r == -m0_0_0_0_0_0_0 + m0_0_0_2_0_0_0 - m0_0_2_0_0_0_0 - m0_0_2_2_0_0_1,
            m0_1_1_2_2_1_1 * m0_0_0_0_0_0_0 == m0_1_1_2_2_1_1,
            m0_1_1_2_2_1_1 * m0_0_0_2_0_0_0 == m0_1_1_4_2_1_1,
            m0_1_1_2_2_1_1 * m0_0_2_0_0_0_0 == m0_1_3_2_2_1_1,
            m0_1_1_2_2_1_1 * m0_0_2_2_0_0_1 == m0_1_3_4_2_1_2,
    ;
    let row3 = m0_1_2_1_1_2_1 * r;
    assert(row3 == -m0_1_2_1_1_2_1 + m0_1_2_3_1_2_1 - m0_1_4_1_1_2_1 - m0_1_4_3_1_2_2) by (nonlinear_arith)
        requires
            row3 == m0_1_2_1_1_2_1 * r,
            r == -m0_0_0_0_0_0_0 + m0_0_0_2_0_0_0 - m0_0_2_0_0_0_0 - m0_0_2_2_0_0_1,
            m0_1_2_1_1_2_1 * m0_0_0_0_0_0_0 == m0_1_2_1_1_2_1,
            m0_1_2_1_1_2_1 * m0_0_0_2_0_0_0 == m0_1_2_3_1_2_1,
            m0_1_2_1_1_2_1 * m0_0_2_0_0_0_0 == m0_1_4_1_1_2_1,
            m0_1_2_1_1_2_1 * m0_0_2_2_0_0_1 == m0_1_4_3_1_2_2,
    ;
    let row4 = m0_3_0_1_1_0_0 * r;
    assert(row4 == -m0_3_0_1_1_0_0 + m0_3_0_3_1_0_0 - m0_3_2_1_1_0_0 - m0_3_2_3_1_0_1) by (nonlinear_arith)
        requires
            row4 == m0_3_0_1_1_0_0 * r,
            r == -m0_0_0_0_0_0_0 + m0_0_0_2_0_0_0 - m0_0_2_0_0_0_0 - m0_0_2_2_0_0_1,
            m0_3_0_1_1_0_0 * m0_0_0_0_0_0_0 == m0_3_0_1_1_0_0,
            m0_3_0_1_1_0_0 * m0_0_0_2_0_0_0 == m0_3_0_3_1_0_0,
            m0_3_0_1_1_0_0 * m0_0_2_0_0_0_0 == m0_3_2_1_1_0_0,
            m0_3_0_1_1_0_0 * m0_0_2_2_0_0_1 == m0_3_2_3_1_0_1,
    ;
    let row5 = m0_3_0_1_1_2_0 * r;
    assert(row5 == -m0_3_0_1_1_2_0 + m0_3_0_3_1_2_0 - m0_3_2_1_1_2_0 - m0_3_2_3_1_2_1) by (nonlinear_arith)
        requires
            row5 == m0_3_0_1_1_2_0 * r,
            r == -m0_0_0_0_0_0_0 + m0_0_0_2_0_0_0 - m0_0_2_0_0_0_0 - m0_0_2_2_0_0_1,
            m0_3_0_1_1_2_0 * m0_0_0_0_0_0_0 == m0_3_0_1_1_2_0,
            m0_3_0_1_1_2_0 * m0_0_0_2_0_0_0 == m0_3_0_3_1_2_0,
            m0_3_0_1_1_2_0 * m0_0_2_0_0_0_0 == m0_3_2_1_1_2_0,
            m0_3_0_1_1_2_0 * m0_0_2_2_0_0_1 == m0_3_2_3_1_2_1,
    ;
    assert(p * r == row0 + row1 - row2 - row3 - row4 + row5) by (nonlinear_arith)
        requires
            p == m0_1_1_0_2_1_0 + m0_1_1_0_2_3_1 - m0_1_1_2_2_1_1 - m0_1_2_1_1_2_1 -
                m0_3_0_1_1_0_0 + m0_3_0_1_1_2_0,
            row0 == m0_1_1_0_2_1_0 * r,
            row1 == m0_1_1_0_2_3_1 * r,
            row2 == m0_1_1_2_2_1_1 * r,
            row3 == m0_1_2_1_1_2_1 * r,
            row4 == m0_3_0_1_1_0_0 * r,
            row5 == m0_3_0_1_1_2_0 * r,
    ;
}

/// A cofactor times the defect of a point.
proof fn lemma_associative_product_73(v: Vars, p: int, r: int)
    requires
        p == -mono(v, 0, 3, 0, 1, 3, 0, 0) - mono(v, 0, 3, 0, 1, 3, 2, 1) - mono(v, 0, 3, 1, 0,
            0, 1, 0) + mono(v, 0, 3, 1, 0, 0, 3, 0) - mono(v, 0, 3, 1, 0, 2, 1, 0) - mono(v, 0,
            3, 1, 0, 2, 3, 1),
        r == -mono(v, 0, 0, 0, 0, 0, 0, 0) + mono(v, 0, 0, 0, 2, 0, 0, 0) - mono(v, 0, 0, 2, 0,
            0, 0, 0) - mono(v, 0, 0, 2, 2, 0, 0, 1),
    ensures
        p * r == mono(v, 0, 3, 0, 1, 3, 0, 0) + mono(v, 0, 3, 0, 1, 3, 2, 1) - mono(v, 0, 3, 0, 3, 3,
            0, 0) - mono(v, 0, 3, 0, 3, 3, 2, 1) + mono(v, 0, 3, 1, 0, 0, 1, 0) - mono(v, 0, 3,
            1, 0, 0, 3, 0) + mono(v, 0, 3, 1, 0, 2, 1, 0) + mono(v, 0, 3, 1, 0, 2, 3, 1) -
            mono(v, 0, 3, 1, 2, 0, 1, 0) + mono(v, 0, 3, 1, 2, 0, 3, 0) - mono(v, 0, 3, 1, 2, 2,
            1, 0) - mono(v, 0, 3, 1, 2, 2, 3, 1) + mono(v, 0, 3, 2, 1, 3, 0, 0) + mono(v, 0, 3,
            2, 1, 3, 2, 1) + mono(v, 0, 3, 2, 3, 3, 0, 1) + mono(v, 0, 3, 2, 3, 3, 2, 2) +
            mono(v, 0, 3, 3, 0, 0, 1, 0) - mono(v, 0, 3, 3, 0, 0, 3, 0) + mono(v, 0, 3, 3, 0, 2,
            1, 0) + mono(v, 0, 3, 3, 0, 2, 3, 1) + mono(v, 0, 3, 3, 2, 0, 1, 1) - mono(v, 0, 3,
            3, 2, 0, 3, 1) + mono(v, 0, 3, 3, 2, 2, 1, 1) + mono(v, 0, 3, 3, 2, 2, 3, 2),
{
    let m0_3_0_1_3_0_0 = mono(v, 0, 3, 0, 1, 3, 0, 0);
    let m0_3_0_1_3_2_1 = mono(v, 0, 3, 0, 1, 3, 2, 1);
    let m0_3_1_0_0_1_0 = mono(v, 0, 3, 1, 0, 0, 1, 0);
    let m0_3_1_0_0_3_0 = mono(v, 0, 3, 1, 0, 0, 3, 0);
    let m0_3_1_0_2_1_0 = mono(v, 0, 3, 1, 0, 2, 1, 0);
    let m0_3_1_0_2_3_1 = mono(v, 0, 3, 1, 0, 2, 3, 1);
    let m0_0_0_0_0_0_0 = mono(v, 0, 0, 0, 0, 0, 0, 0);
    let m0_0_0_2_0_0_0 = mono(v, 0, 0, 0, 2, 0, 0, 0);
    let m0_0_2_0_0_0_0 = mono(v, 0, 0, 2, 0, 0, 0, 0);
    let m0_0_2_2_0_0_1 = mono(v, 0, 0, 2, 2, 0, 0, 1);
    let m0_3_0_3_3_0_0 = mono(v, 0, 3, 0, 3, 3, 0, 0);
    let m0_3_2_1_3_0_0 = mono(v, 0, 3, 2, 1, 3, 0, 0);
    let m0_3_2_3_3_0_1 = mono(v, 0, 3, 2, 3, 3, 0, 1);
    let m0_3_0_3_3_2_1 = mono(v, 0, 3, 0, 3, 3, 2, 1);
    let m0_3_2_1_3_2_1 = mono(v, 0, 3, 2, 1, 3, 2, 1);
    let m0_3_2_3_3_2_2 = mono(v, 0, 3, 2, 3, 3, 2, 2);
    let m0_3_1_2_0_1_0 = mono(v, 0, 3, 1, 2, 0, 1, 0);
    let m0_3_3_0_0_1_0 = mono(v, 0, 3, 3, 0, 0, 1, 0);
    let m0_3_3_2_0_1_1 = mono(v, 0, 3, 3, 2, 0, 1, 1);
    let m0_3_1_2_0_3_0 = mono(v, 0, 3, 1, 2, 0, 3, 0);
    let m0_3_3_0_0_3_0 = mono(v, 0, 3, 3, 0, 0, 3, 0);
    let m0_3_3_2_0_3_1 = mono(v, 0, 3, 3, 2, 0, 3, 1);
    let m0_3_1_2_2_1_0 = mono(v, 0, 3, 1, 2, 2, 1, 0);
    let m0_3_3_0_2_1_0 = mono(v, 0, 3, 3, 0, 2, 1, 0);
    let m0_3_3_2_2_1_1 = mono(v, 0, 3, 3, 2, 2, 1, 1);
    let m0_3_1_2_2_3_1 = mono(v, 0, 3, 1, 2, 2, 3, 1);
    let m0_3_3_0_2_3_1 = mono(v, 0, 3, 3, 0, 2, 3, 1);
    let m0_3_3_2_2_3_2 = mono(v, 0, 3, 3, 2, 2, 3, 2);
    lemma_mono_mul(v, 0, 3, 0, 1, 3, 0, 0, 0, 0, 0, 0, 0, 0, 0);
    lemma_mono_mul(v, 0, 3, 0, 1, 3, 0, 0, 0, 0, 0, 2, 0, 0, 0);
    lemma_mono_mul(v, 0, 3, 0, 1, 3, 0, 0, 0, 0, 2, 0, 0, 0, 0);
    lemma_mono_mul(v, 0, 3, 0, 1, 3, 0, 0, 0, 0, 2, 2, 0, 0, 1);
    lemma_mono_mul(v, 0, 3, 0, 1, 3, 2, 1, 0, 0, 0, 0, 0, 0, 0);
    lemma_mono_mul(v, 0, 3, 0, 1, 3, 2, 1, 0, 0, 0, 2, 0, 0, 0);
    lemma_mono_mul(v, 0, 3, 0, 1, 3, 2, 1, 0, 0, 2, 0, 0, 0, 0);
    lemma_mono_mul(v, 0, 3, 0, 1, 3, 2, 1, 0, 0, 2, 2, 0, 0, 1);
    lemma_mono_mul(v, 0, 3, 1, 0, 0, 1, 0, 0, 0, 0, 0, 0, 0, 0);
    lemma_mono_mul(v, 0, 3, 1, 0, 0, 1, 0, 0, 0, 0, 2, 0, 0, 0);
    lemma_mono_mul(v, 0, 3, 1, 0, 0, 1, 0, 0, 0, 2, 0, 0, 0, 0);
    lemma_mono_mul(v, 0, 3, 1, 0, 0, 1, 0, 0, 0, 2, 2, 0, 0, 1);
    lemma_mono_mul(v, 0, 3, 1, 0, 0, 3, 0, 0, 0, 0, 0, 0, 0, 0);
    lemma_mono_mul(v, 0, 3, 1, 0, 0, 3, 0, 0, 0, 0, 2, 0, 0, 0);
    lemma_mono_mul(v, 0, 3, 1, 0, 0, 3, 0, 0, 0, 2, 0, 0, 0, 0);
    lemma_mono_mul(v, 0, 3, 1, 0, 0, 3, 0, 0, 0, 2, 2, 0, 0, 1);
    lemma_mono_mul(v, 0, 3, 1, 0, 2, 1, 0, 0, 0, 0, 0, 0, 0, 0);
    lemma_mono_mul(v, 0, 3, 1, 0, 2, 1, 0, 0, 0, 0, 2, 0, 0, 0);
    lemma_mono_mul(v, 0, 3, 1, 0, 2, 1, 0, 0, 0, 2, 0, 0, 0, 0);
    lemma_mono_mul(v, 0, 3, 1, 0, 2, 1, 0, 0, 0, 2, 2, 0, 0, 1);
    lemma_mono_mul(v, 0, 3, 1, 0, 2, 3, 1, 0, 0, 0, 0, 0, 0, 0);
    lemma_mono_mul(v, 0, 3, 1, 0, 2, 3, 1, 0, 0, 0, 2, 0, 0, 0);
    lemma_mono_mul(v, 0, 3, 1, 0, 2, 3, 1, 0, 0, 2, 0, 0, 0, 0);
    lemma_mono_mul(v, 0, 3, 1, 0, 2, 3, 1, 0, 0, 2, 2, 0, 0, 1);
    let row0 = m0_3_0_1_3_0_0 * r;
    assert(row0 == -m0_3_0_1_3_0_0 + m0_3_0_3_3_0_0 - m0_3_2_1_3_0_0 - m0_3_2_3_3_0_1) by (nonlinear_arith)
        requires
            row0 == m0_3_0_1_3_0_0 * r,
            r == -m0_0_0_0_0_0_0 + m0_0_0_2_0_0_0 - m0_0_2_0_0_0_0 - m0_0_2_2_0_0_1,
            m0_3_0_1_3_0_0 * m0_0_0_0_0_0_0 == m0_3_0_1_3_0_0,
            m0_3_0_1_3_0_0 * m0_0_0_2_0_0_0 == m0_3_0_3_3_0_0,
            m0_3_0_1_3_0_0 * m0_0_2_0_0_0_0 == m0_3_2_1_3_0_0,
            m0_3_0_1_3_0_0 * m0_0_2_2_0_0_1 == m0_3_2_3_3_0_1,
    ;
    let row1 = m0_3_0_1_3_2_1 * r;
    assert(row1 == -m0_3_0_1_3_2_1 + m0_3_0_3_3_2_1 - m0_3_2_1_3_2_1 - m0_3_2_3_3_2_2) by (nonlinear_arith)
        requires
            row1 == m0_3_0_1_3_2_1 * r,
            r == -m0_0_0_0_0_0_0 + m0_0_0_2_0_0_0 - m0_0_2_0_0_0_0 - m0_0_2_2_0_0_1,
            m0_3_0_1_3_2_1 * m0_0_0_0_0_0_0 == m0_3_0_1_3_2_1,
            m0_3_0_1_3_2_1 * m0_0_0_2_0_0_0 == m0_3_0_3_3_2_1,
            m0_3_0_1_3_2_1 * m0_0_2_0_0_0_0 == m0_3_2_1_3_2_1,
            m0_3_0_1_3_2_1 * m0_0_2_2_0_0_1 == m0_3_2_3_3_2_2,
    ;
    let row2 = m0_3_1_0_0_1_0 * r;
    assert(row2 == -m0_3_1_0_0_1_0 + m0_3_1_2_0_1_0 - m0_3_3_0_0_1_0 - m0_3_3_2_0_1_1) by (nonlinear_arith)
        requires
            row2 == m0_3_1_0_0_1_0 * r,
            r == -m0_0_0_0_0_0_0 + m0_0_0_2_0_0_0 - m0_0_2_0_0_0_0 - m0_0_2_2_0_0_1,
            m0_3_1_0_0_1_0 * m0_0_0_0_0_0_0 == m0_3_1_0_0_1_0,
            m0_3_1_0_0_1_0 * m0_0_0_2_0_0_0 == m0_3_1_2_0_1_0,
            m0_3_1_0_0_1_0 * m0_0_2_0_0_0_0 == m0_3_3_0_0_1_0,
            m0_3_1_0_0_1_0 * m0_0_2_2_0_0_1 == m0_3_3_2_0_1_1,
    ;
    let row3 = m0_3_1_0_0_3_0 * r;
    assert(row3 == -m0_3_1_0_0_3_0 + m0_3_1_2_0_3_0 - m0_3_3_0_0_3_0 - m0_3_3_2_0_3_1) by (nonlinear_arith)
        requires
            row3 == m0_3_1_0_0_3_0 * r,
            r == -m0_0_0_0_0_0_0 + m0_0_0_2_0_0_0 - m0_0_2_0_0_0_0 - m0_0_2_2_0_0_1,
            m0_3_1_0_0_3_0 * m0_0_0_0_0_0_0 == m0_3_1_0_0_3_0,
            m0_3_1_0_0_3_0 * m0_0_0_2_0_0_0 == m0_3_1_2_0_3_0,
            m0_3_1_0_0_3_0 * m0_0_2_0_0_0_0 == m0_3_3_0_0_3_0,
            m0_3_1_0_0_3_0 * m0_0_2_2_0_0_1 == m0_3_3_2_0_3_1,
    ;
    let row4 = m0_3_1_0_2_1_0 * r;
    assert(row4 == -m0_3_1_0_2_1_0 + m0_3_1_2_2_1_0 - m0_3_3_0_2_1_0 - m0_3_3_2_2_1_1) by (nonlinear_arith)
        requires
            row4 == m0_3_1_0_2_1_0 * r,
            r == -m0_0_0_0_0_0_0 + m0_0_0_2_0_0_0 - m0_0_2_0_0_0_0 - m0_0_2_2_0_0_1,
            m0_3_1_0_2_1_0 * m0_0_0_0_0_0_0 == m0_3_1_0_2_1_0,
            m0_3_1_0_2_1_0 * m0_0_0_2_0_0_0 == m0_3_1_2_2_1_0,
            m0_3_1_0_2_1_0 * m0_0_2_0_0_0_0 == m0_3_3_0_2_1_0,
            m0_3_1_0_2_1_0 * m0_0_2_2_0_0_1 == m0_3_3_2_2_1_1,
    ;
    let row5 = m0_3_1_0_2_3_1 * r;
    assert(row5 == -m0_3_1_0_2_3_1 + m0_3_1_2_2_3_1 - m0_3_3_0_2_3_1 - m0_3_3_2_2_3_2) by (nonlinear_arith)
        requires
            row5 == m0_3_1_0_2_3_1 * r,
            r == -m0_0_0_0_0_0_0 + m0_0_0_2_0_0_0 - m0_0_2_0_0_0_0 - m0_0_2_2_0_0_1,
            m0_3_1_0_2_3_1 * m0_0_0_0_0_0_0 == m0_3_1_0_2_3_1,
            m0_3_1_0_2_3_1 * m0_0_0_2_0_0_0 == m0_3_1_2_2_3_1,
            m0_3_1_0_2_3_1 * m0_0_2_0_0_0_0 == m0_3_3_0_2_3_1,
            m0_3_1_0_2_3_1 * m0_0_2_2_0_0_1 == m0_3_3_2_2_3_2,
    ;
    assert(p * r == -row0 - row1 - row2 + row3 - row4 - row5) by (nonlinear_arith)
        requires
            p == -m0_3_0_1_3_0_0 - m0_3_0_1_3_2_1 - m0_3_1_0_0_1_0 + m0_3_1_0_0_3_0 -
                m0_3_1_0_2_1_0 - m0_3_1_0_2_3_1,
            row0 == m0_3_0_1_3_0_0 * r,
            row1 == m0_3_0_1_3_2_1 * r,
            row2 == m0_3_1_0_0_1_0 * r,
            row3 == m0_3_1_0_0_3_0 * r,
            row4 == m0_3_1_0_2_1_0 * r,
            row5 == m0_3_1_0_2_3_1 * r,
    ;
}

/// A cofactor times the defect of a point.
proof fn lemma_associative_product_74(v: Vars, p: int, r: int)
    requires
        p == mono(v, 0, 3, 1, 2, 2, 1, 1) + mono(v, 0, 3, 2, 1, 1, 2, 1) + mono(v, 1, 0, 0, 1, 0,
            1, 0) - mono(v, 1, 0, 0, 1, 0, 3, 0) + mono(v, 1, 0, 0, 1, 2, 1, 0) + mono(v, 1, 0,
            0, 1, 2, 3, 1),
        r == -mono(v, 0, 0, 0, 0, 0, 0, 0) + mono(v, 0, 0, 0, 2, 0, 0, 0) - mono(v, 0, 0, 2, 0,
            0, 0, 0) - mono(v, 0, 0, 2, 2, 0, 0, 1),
    ensures
        p * r == -mono(v, 0, 3, 1, 2, 2, 1, 1) + mono(v, 0, 3, 1, 4, 2, 1, 1) - mono(v, 0, 3, 2, 1,
            1, 2, 1) + mono(v, 0, 3, 2, 3, 1, 2, 1) - mono(v, 0, 3, 3, 2, 2, 1, 1) - mono(v, 0,
            3, 3, 4, 2, 1, 2) - mono(v, 0, 3, 4, 1, 1, 2, 1) - mono(v, 0, 3, 4, 3, 1, 2, 2) -
            mono(v, 1, 0, 0, 1, 0, 1, 0) + mono(v, 1, 0, 0, 1, 0, 3, 0) - mono(v, 1, 0, 0, 1, 2,
            1, 0) - mono(v, 1, 0, 0, 1, 2, 3, 1) + mono(v, 1, 0, 0, 3, 0, 1, 0) - mono(v, 1, 0,
            0, 3, 0, 3, 0) + mono(v, 1, 0, 0, 3, 2, 1, 0) + mono(v, 1, 0, 0, 3, 2, 3, 1) -
            mono(v, 1, 0, 2, 1, 0, 1, 0) + mono(v, 1, 0, 2, 1, 0, 3, 0) - mono(v, 1, 0, 2, 1, 2,
            1, 0) - mono(v, 1, 0, 2, 1, 2, 3, 1) - mono(v, 1, 0, 2, 3, 0, 1, 1) + mono(v, 1, 0,
            2, 3, 0, 3, 1) - mono(v, 1, 0, 2, 3, 2, 1, 1) - mono(v, 1, 0, 2, 3, 2, 3, 2),
{
    let m0_3_1_2_2_1_1 = mono(v, 0, 3, 1, 2, 2, 1, 1);
    let m0_3_2_1_1_2_1 = mono(v, 0, 3, 2, 1, 1, 2, 1);
    let m1_0_0_1_0_1_0 = mono(v, 1, 0, 0, 1, 0, 1, 0);
    let m1_0_0_1_0_3_0 = mono(v, 1, 0, 0, 1, 0, 3, 0);
    let m1_0_0_1_2_1_0 = mono(v, 1, 0, 0, 1, 2, 1, 0);
    let m1_0_0_1_2_3_1 = mono(v, 1, 0, 0, 1, 2, 3, 1);
    let m0_0_0_0_0_0_0 = mono(v, 0, 0, 0, 0, 0, 0, 0);
    let m0_0_0_2_0_0_0 = mono(v, 0, 0, 0, 2, 0, 0, 0);
    let m0_0_2_0_0_0_0 = mono(v, 0, 0, 2, 0, 0, 0, 0);
    let m0_0_2_2_0_0_1 = mono(v, 0, 0, 2, 2, 0, 0, 1);
    let m0_3_1_4_2_1_1 = mono(v, 0, 3, 1, 4, 2, 1, 1);
    let m0_3_3_2_2_1_1 = mono(v, 0, 3, 3, 2, 2, 1, 1);
    let m0_3_3_4_2_1_2 = mono(v, 0, 3, 3, 4, 2, 1, 2);
    let m0_3_2_3_1_2_1 = mono(v, 0, 3, 2, 3, 1, 2, 1);
    let m0_3_4_1_1_2_1 = mono(v, 0, 3, 4, 1, 1, 2, 1);
    let m0_3_4_3_1_2_2 = mono(v, 0, 3, 4, 3, 1, 2, 2);
    let m1_0_0_3_0_1_0 = mono(v, 1, 0, 0, 3, 0, 1, 0);
    let m1_0_2_1_0_1_0 = mono(v, 1, 0, 2, 1, 0, 1, 0);
    let m1_0_2_3_0_1_1 = mono(v, 1, 0, 2, 3, 0, 1, 1);
    let m1_0_0_3_0_3_0 = mono(v, 1, 0, 0, 3, 0, 3, 0);
    let m1_0_2_1_0_3_0 = mono(v, 1, 0, 2, 1, 0, 3, 0);
    let m1_0_2_3_0_3_1 = mono(v, 1, 0, 2, 3, 0, 3, 1);
    let m1_0_0_3_2_1_0 = mono(v, 1, 0, 0, 3, 2, 1, 0);
    let m1_0_2_1_2_1_0 = mono(v, 1, 0, 2, 1, 2, 1, 0);
    let m1_0_2_3_2_1_1 = mono(v, 1, 0, 2, 3, 2, 1, 1);
    let m1_0_0_3_2_3_1 = mono(v, 1, 0, 0, 3, 2, 3, 1);
    let m1_0_2_1_2_3_1 = mono(v, 1, 0, 2, 1, 2, 3, 1);
    let m1_0_2_3_2_3_2 = mono(v, 1, 0, 2, 3, 2, 3, 2);
    lemma_mono_mul(v, 0, 3, 1, 2, 2, 1, 1, 0, 0, 0, 0, 0, 0, 0);
    lemma_mono_mul(v, 0, 3, 1, 2, 2, 1, 1, 0, 0, 0, 2, 0, 0, 0);
    lemma_mono_mul(v, 0, 3, 1, 2, 2, 1, 1, 0, 0, 2, 0, 0, 0, 0);
    lemma_mono_mul(v, 0, 3, 1, 2, 2, 1, 1, 0, 0, 2, 2, 0, 0, 1);
    lemma_mono_mul(v, 0, 3, 2, 1, 1, 2, 1, 0, 0, 0, 0, 0, 0, 0);
    lemma_mono_mul(v, 0, 3, 2, 1, 1, 2, 1, 0, 0, 0, 2, 0, 0, 0);
    lemma_mono_mul(v, 0, 3, 2, 1, 1, 2, 1, 0, 0, 2, 0, 0, 0, 0);
    lemma_mono_mul(v, 0, 3, 2, 1, 1, 2, 1, 0, 0, 2, 2, 0, 0, 1);
    lemma_mono_mul(v, 1, 0, 0, 1, 0, 1, 0, 0, 0, 0, 0, 0, 0, 0);
    lemma_mono_mul(v, 1, 0, 0, 1, 0, 1, 0, 0, 0, 0, 2, 0, 0, 0);
    lemma_mono_mul(v, 1, 0, 0, 1, 0, 1, 0, 0, 0, 2, 0, 0, 0, 0);
    lemma_mono_mul(v, 1, 0, 0, 1, 0, 1, 0, 0, 0, 2, 2, 0, 0, 1);
    lemma_mono_mul(v, 1, 0, 0, 1, 0, 3, 0, 0, 0, 0, 0, 0, 0, 0);
    lemma_mono_mul(v, 1, 0, 0, 1, 0, 3, 0, 0, 0, 0, 2, 0, 0, 0);
    lemma_mono_mul(v, 1, 0, 0, 1, 0, 3, 0, 0, 0, 2, 0, 0, 0, 0);
    lemma_mono_mul(v, 1, 0, 0, 1, 0, 3, 0, 0, 0, 2, 2, 0, 0, 1);
    lemma_mono_mul(v, 1, 0, 0, 1, 2, 1, 0, 0, 0, 0, 0, 0, 0, 0);
    lemma_mono_mul(v, 1, 0, 0, 1, 2, 1, 0, 0, 0, 0, 2, 0, 0, 0);
    lemma_mono_mul(v, 1, 0, 0, 1, 2, 1, 0, 0, 0, 2, 0, 0, 0, 0);
    lemma_mono_mul(v, 1, 0, 0, 1, 2, 1, 0, 0, 0, 2, 2, 0, 0, 1);
    lemma_mono_mul(v, 1, 0, 0, 1, 2, 3, 1, 0, 0, 0, 0, 0, 0, 0);
    lemma_mono_mul(v, 1, 0, 0, 1, 2, 3, 1, 0, 0, 0, 2, 0, 0, 0);
    lemma_mono_mul(v, 1, 0, 0, 1, 2, 3, 1, 0, 0, 2, 0, 0, 0, 0);
    lemma_mono_mul(v, 1, 0, 0, 1, 2, 3, 1, 0, 0, 2, 2, 0, 0, 1);
    let row0 = m0_3_1_2_2_1_1 * r;
    assert(row0 == -m0_3_1_2_2_1_1 + m0_3_1_4_2_1_1 - m0_3_3_2_2_1_1 - m0_3_3_4_2_1_2) by (nonlinear_arith)
        requires
            row0 == m0_3_1_2_2_1_1 * r,
            r == -m0_0_0_0_0_0_0 + m0_0_0_2_0_0_0 - m0_0_2_0_0_0_0 - m0_0_2_2_0_0_1,
            m0_3_1_2_2_1_1 * m0_0_0_0_0_0_0 == m0_3_1_2_2_1_1,
            m0_3_1_2_2_1_1 * m0_0_0_2_0_0_0 == m0_3_1_4_2_1_1,
            m0_3_1_2_2_1_1 * m0_0_2_0_0_0_0 == m0_3_3_2_2_1_1,
            m0_3_1_2_2_1_1 * m0_0_2_2_0_0_1 == m0_3_3_4_2_1_2,
    ;
    let row1 = m0_3_2_1_1_2_1 * r;
    assert(row1 == -m0_3_2_1_1_2_1 + m0_3_2_3_1_2_1 - m0_3_4_1_1_2_1 - m0_3_4_3_1_2_2) by (nonlinear_arith)
        requires
            row1 == m0_3_2_1_1_2_1 * r,
            r == -m0_0_0_0_0_0_0 + m0_0_0_2_0_0_0 - m0_0_2_0_0_0_0 - m0_0_2_2_0_0_1,
            m0_3_2_1_1_2_1 * m0_0_0_0_0_0_0 == m0_3_2_1_1_2_1,
            m0_3_2_1_1_2_1 * m0_0_0_2_0_0_0 == m0_3_2_3_1_2_1,
            m0_3_2_1_1_2_1 * m0_0_2_0_0_0_0 == m0_3_4_1_1_2_1,
            m0_3_2_1_1_2_1 * m0_0_2_2_0_0_1 == m0_3_4_3_1_2_2,
    ;
    let row2 = m1_0_0_1_0_1_0 * r;
    assert(row2 == -m1_0_0_1_0_1_0 + m1_0_0_3_0_1_0 - m1_0_2_1_0_1_0 - m1_0_2_3_0_1_1) by (nonlinear_arith)
        requires
            row2 == m1_0_0_1_0_1_0 * r,
            r == -m0_0_0_0_0_0_0 + m0_0_0_2_0_0_0 - m0_0_2_0_0_0_0 - m0_0_2_2_0_0_1,
            m1_0_0_1_0_1_0 * m0_0_0_0_0_0_0 == m1_0_0_1_0_1_0,
            m1_0_0_1_0_1_0 * m0_0_0_2_0_0_0 == m1_0_0_3_0_1_0,
            m1_0_0_1_0_1_0 * m0_0_2_0_0_0_0 == m1_0_2_1_0_1_0,
            m1_0_0_1_0_1_0 * m0_0_2_2_0_0_1 == m1_0_2_3_0_1_1,
    ;
    let row3 = m1_0_0_1_0_3_0 * r;
    assert(row3 == -m1_0_0_1_0_3_0 + m1_0_0_3_0_3_0 - m1_0_2_1_0_3_0 - m1_0_2_3_0_3_1) by (nonlinear_arith)
        requires
            row3 == m1_0_0_1_0_3_0 * r,
            r == -m0_0_0_0_0_0_0 + m0_0_0_2_0_0_0 - m0_0_2_0_0_0_0 - m0_0_2_2_0_0_1,
            m1_0_0_1_0_3_0 * m0_0_0_0_0_0_0 == m1_0_0_1_0_3_0,
            m1_0_0_1_0_3_0 * m0_0_0_2_0_0_0 == m1_0_0_3_0_3_0,
            m1_0_0_1_0_3_0 * m0_0_2_0_0_0_0 == m1_0_2_1_0_3_0,
            m1_0_0_1_0_3_0 * m0_0_2_2_0_0_1 == m1_0_2_3_0_3_1,
    ;
    let row4 = m1_0_0_1_2_1_0 * r;
    assert(row4 == -m1_0_0_1_2_1_0 + m1_0_0_3_2_1_0 - m1_0_2_1_2_1_0 - m1_0_2_3_2_1_1) by (nonlinear_arith)
        requires
            row4 == m1_0_0_1_2_1_0 * r,
            r == -m0_0_0_0_0_0_0 + m0_0_0_2_0_0_0 - m0_0_2_0_0_0_0 - m0_0_2_2_0_0_1,
            m1_0_0_1_2_1_0 * m0_0_0_0_0_0_0 == m1_0_0_1_2_1_0,
            m1_0_0_1_2_1_0 * m0_0_0_2_0_0_0 == m1_0_0_3_2_1_0,
            m1_0_0_1_2_1_0 * m0_0_2_0_0_0_0 == m1_0_2_1_2_1_0,
            m1_0_0_1_2_1_0 * m0_0_2_2_0_0_1 == m1_0_2_3_2_1_1,
    ;
    let row5 = m1_0_0_1_2_3_1 * r;
    assert(row5 == -m1_0_0_1_2_3_1 + m1_0_0_3_2_3_1 - m1_0_2_1_2_3_1 - m1_0_2_3_2_3_2) by (nonlinear_arith)
        requires
            row5 == m1_0_0_1_2_3_1 * r,
            r == -m0_0_0_0_0_0_0 + m0_0_0_2_0_0_0 - m0_0_2_0_0_0_0 - m0_0_2_2_0_0_1,
            m1_0_0_1_2_3_1 * m0_0_0_0_0_0_0 == m1_0_0_1_2_3_1,
            m1_0_0_1_2_3_1 * m0_0_0_2_0_0_0 == m1_0_0_3_2_3_1,
            m1_0_0_1_2_3_1 * m0_0_2_0_0_0_0 == m1_0_2_1_2_3_1,
            m1_0_0_1_2_3_1 * m0_0_2_2_0_0_1 == m1_0_2_3_2_3_2,
    ;
    assert(p * r == row0 + row1 + row2 - row3 + row4 + row5) by (nonlinear_arith)
        requires
            p == m0_3_1_2_2_1_1 + m0_3_2_1_1_2_1 + m1_0_0_1_0_1_0 - m1_0_0_1_0_3_0 +
                m1_0_0_1_2_1_0 + m1_0_0_1_2_3_1,
            row0 == m0_3_1_2_2_1_1 * r,
            row1 == m0_3_2_1_1_2_1 * r,
            row2 == m1_0_0_1_0_1_0 * r,
            row3 == m1_0_0_1_0_3_0 * r,
            row4 == m1_0_0_1_2_1_0 * r,
            row5 == m1_0_0_1_2_3_1 * r,
    ;
}

/// A cofactor times the defect of a point.
proof fn lemma_associative_product_75(v: Vars, p: int, r: int)
    requires
        p == mono(v, 1, 0, 1, 0, 1, 0, 0) - mono(v, 1, 0, 1, 0, 1, 2, 0) + mono(v, 1, 0, 1, 0, 3,
            0, 0) + mono(v, 1, 0, 1, 0, 3, 2, 1) + mono(v, 1, 0, 1, 2, 1, 2, 1) + mono(v, 1, 0,
            2, 1, 2, 1, 1),
        r == -mono(v, 0, 0, 0, 0, 0, 0, 0) + mono(v, 0, 0, 0, 2, 0, 0, 0) - mono(v, 0, 0, 2, 0,
            0, 0, 0) - mono(v, 0, 0, 2, 2, 0, 0, 1),
    ensures
        p * r == -mono(v, 1, 0, 1, 0, 1, 0, 0) + mono(v, 1, 0, 1, 0, 1, 2, 0) - mono(v, 1, 0, 1, 0,
            3, 0, 0) - mono(v, 1, 0, 1, 0, 3, 2, 1) + mono(v, 1, 0, 1, 2, 1, 0, 0) - mono(v, 1,
            0, 1, 2, 1, 2, 0) - mono(v, 1, 0, 1, 2, 1, 2, 1) + mono(v, 1, 0, 1, 2, 3, 0, 0) +
            mono(v, 1, 0, 1, 2, 3, 2, 1) + mono(v, 1, 0, 1, 4, 1, 2, 1) - mono(v, 1, 0, 2, 1, 2,
            1, 1) + mono(v, 1, 0, 2, 3, 2, 1, 1) - mono(v, 1, 0, 3, 0, 1, 0, 0) + mono(v, 1, 0,
            3, 0, 1, 2, 0) - mono(v, 1, 0, 3, 0, 3, 0, 0) - mono(v, 1, 0, 3, 0, 3, 2, 1) -
            mono(v, 1, 0, 3, 2, 1, 0, 1) - mono(v, 1, 0, 3, 2, 3, 0, 1) - mono(v, 1, 0, 3, 2, 3,
            2, 2) - mono(v, 1, 0, 3, 4, 1, 2, 2) - mono(v, 1, 0, 4, 1, 2, 1, 1) - mono(v, 1, 0,
            4, 3, 2, 1, 2),
{
    let m1_0_1_0_1_0_0 = mono(v, 1, 0, 1, 0, 1, 0, 0);
    let m1_0_1_0_1_2_0 = mono(v, 1, 0, 1, 0, 1, 2, 0);
    let m1_0_1_0_3_0_0 = mono(v, 1, 0, 1, 0, 3, 0, 0);
    let m1_0_1_0_3_2_1 = mono(v, 1, 0, 1, 0, 3, 2, 1);
    let m1_0_1_2_1_2_1 = mono(v, 1, 0, 1, 2, 1, 2, 1);
    let m1_0_2_1_2_1_1 = mono(v, 1, 0, 2, 1, 2, 1, 1);
    let m0_0_0_0_0_0_0 = mono(v, 0, 0, 0, 0, 0, 0, 0);
    let m0_0_0_2_0_0_0 = mono(v, 0, 0, 0, 2, 0, 0, 0);
    let m0_0_2_0_0_0_0 = mono(v, 0, 0, 2, 0, 0, 0, 0);
    let m0_0_2_2_0_0_1 = mono(v, 0, 0, 2, 2, 0, 0, 1);
    let m1_0_1_2_1_0_0 = mono(v, 1, 0, 1, 2, 1, 0, 0);
    let m1_0_3_0_1_0_0 = mono(v, 1, 0, 3, 0, 1, 0, 0);
    let m1_0_3_2_1_0_1 = mono(v, 1, 0, 3, 2, 1, 0, 1);
    let m1_0_1_2_1_2_0 = mono(v, 1, 0, 1, 2, 1, 2, 0);
    let m1_0_3_0_1_2_0 = mono(v, 1, 0, 3, 0, 1, 2, 0);
    let m1_0_3_2_1_2_1 = mono(v, 1, 0, 3, 2, 1, 2, 1);
    let m1_0_1_2_3_0_0 = mono(v, 1, 0, 1, 2, 3, 0, 0);
    let m1_0_3_0_3_0_0 = mono(v, 1, 0, 3, 0, 3, 0, 0);
    let m1_0_3_2_3_0_1 = mono(v, 1, 0, 3, 2, 3, 0, 1);
    let m1_0_1_2_3_2_1 = mono(v, 1, 0, 1, 2, 3, 2, 1);
    let m1_0_3_0_3_2_1 = mono(v, 1, 0, 3, 0, 3, 2, 1);
    let m1_0_3_2_3_2_2 = mono(v, 1, 0, 3, 2, 3, 2, 2);
    let m1_0_1_4_1_2_1 = mono(v, 1, 0, 1, 4, 1, 2, 1);
    let m1_0_3_4_1_2_2 = mono(v, 1, 0, 3, 4, 1, 2, 2);
    let m1_0_2_3_2_1_1 = mono(v, 1, 0, 2, 3, 2, 1, 1);
    let m1_0_4_1_2_1_1 = mono(v, 1, 0, 4, 1, 2, 1, 1);
    let m1_0_4_3_2_1_2 = mono(v, 1, 0, 4, 3, 2, 1, 2);
    lemma_mono_mul(v, 1, 0, 1, 0, 1, 0, 0, 0, 0, 0, 0, 0, 0, 0);
    lemma_mono_mul(v, 1, 0, 1, 0, 1, 0, 0, 0, 0, 0, 2, 0, 0, 0);
    lemma_mono_mul(v, 1, 0, 1, 0, 1, 0, 0, 0, 0, 2, 0, 0, 0, 0);
    lemma_mono_mul(v, 1, 0, 1, 0, 1, 0, 0, 0, 0, 2, 2, 0, 0, 1);
    lemma_mono_mul(v, 1, 0, 1, 0, 1, 2, 0, 0, 0, 0, 0, 0, 0, 0);
    lemma_mono_mul(v, 1, 0, 1, 0, 1, 2, 0, 0, 0, 0, 2, 0, 0, 0);
    lemma_mono_mul(v, 1, 0, 1, 0, 1, 2, 0, 0, 0, 2, 0, 0, 0, 0);
    lemma_mono_mul(v, 1, 0, 1, 0, 1, 2, 0, 0, 0, 2, 2, 0, 0, 1);
    lemma_mono_mul(v, 1, 0, 1, 0, 3, 0, 0, 0, 0, 0, 0, 0, 0, 0);
    lemma_mono_mul(v, 1, 0, 1, 0, 3, 0, 0, 0, 0, 0, 2, 0, 0, 0);
    lemma_mono_mul(v, 1, 0, 1, 0, 3, 0, 0, 0, 0, 2, 0, 0, 0, 0);
    lemma_mono_mul(v, 1, 0, 1, 0, 3, 0, 0, 0, 0, 2, 2, 0, 0, 1);
    lemma_mono_mul(v, 1, 0, 1, 0, 3, 2, 1, 0, 0, 0, 0, 0, 0, 0);
    lemma_mono_mul(v, 1, 0, 1, 0, 3, 2, 1, 0, 0, 0, 2, 0, 0, 0);
    lemma_mono_mul(v, 1, 0, 1, 0, 3, 2, 1, 0, 0, 2, 0, 0, 0, 0);
    lemma_mono_mul(v, 1, 0, 1, 0, 3, 2, 1, 0, 0, 2, 2, 0, 0, 1);
    lemma_mono_mul(v, 1, 0, 1, 2, 1, 2, 1, 0, 0, 0, 0, 0, 0, 0);
    lemma_mono_mul(v, 1, 0, 1, 2, 1, 2, 1, 0, 0, 0, 2, 0, 0, 0);
    lemma_mono_mul(v, 1, 0, 1, 2, 1, 2, 1, 0, 0, 2, 0, 0, 0, 0);
    lemma_mono_mul(v, 1, 0, 1, 2, 1, 2, 1, 0, 0, 2, 2, 0, 0, 1);
    lemma_mono_mul(v, 1, 0, 2, 1, 2, 1, 1, 0, 0, 0, 0, 0, 0, 0);
    lemma_mono_mul(v, 1, 0, 2, 1, 2, 1, 1, 0, 0, 0, 2, 0, 0, 0);
    lemma_mono_mul(v, 1, 0, 2, 1, 2, 1, 1, 0, 0, 2, 0, 0, 0, 0);
    lemma_mono_mul(v, 1, 0, 2, 1, 2, 1, 1, 0, 0, 2, 2, 0, 0, 1);
    let row0 = m1_0_1_0_1_0_0 * r;
    assert(row0 == -m1_0_1_0_1_0_0 + m1_0_1_2_1_0_0 - m1_0_3_0_1_0_0 - m1_0_3_2_1_0_1) by (nonlinear_arith)
        requires
            row0 == m1_0_1_0_1_0_0 * r,
            r == -m0_0_0_0_0_0_0 + m0_0_0_2_0_0_0 - m0_0_2_0_0_0_0 - m0_0_2_2_0_0_1,
            m1_0_1_0_1_0_0 * m0_0_0_0_0_0_0 == m1_0_1_0_1_0_0,
            m1_0_1_0_1_0_0 * m0_0_0_2_0_0_0 == m1_0_1_2_1_0_0,
            m1_0_1_0_1_0_0 * m0_0_2_0_0_0_0 == m1_0_3_0_1_0_0,
            m1_0_1_0_1_0_0 * m0_0_2_2_0_0_1 == m1_0_3_2_1_0_1,
    ;
    let row1 = m1_0_1_0_1_2_0 * r;
    assert(row1 == -m1_0_1_0_1_2_0 + m1_0_1_2_1_2_0 - m1_0_3_0_1_2_0 - m1_0_3_2_1_2_1) by (nonlinear_arith)
        requires
            row1 == m1_0_1_0_1_2_0 * r,
            r == -m0_0_0_0_0_0_0 + m0_0_0_2_0_0_0 - m0_0_2_0_0_0_0 - m0_0_2_2_0_0_1,
            m1_0_1_0_1_2_0 * m0_0_0_0_0_0_0 == m1_0_1_0_1_2_0,
            m1_0_1_0_1_2_0 * m0_0_0_2_0_0_0 == m1_0_1_2_1_2_0,
            m1_0_1_0_1_2_0 * m0_0_2_0_0_0_0 == m1_0_3_0_1_2_0,
            m1_0_1_0_1_2_0 * m0_0_2_2_0_0_1 == m1_0_3_2_1_2_1,
    ;
    let row2 = m1_0_1_0_3_0_0 * r;
    assert(row2 == -m1_0_1_0_3_0_0 + m1_0_1_2_3_0_0 - m1_0_3_0_3_0_0 - m1_0_3_2_3_0_1) by (nonlinear_arith)
        requires
            row2 == m1_0_1_0_3_0_0 * r,
            r == -m0_0_0_0_0_0_0 + m0_0_0_2_0_0_0 - m0_0_2_0_0_0_0 - m0_0_2_2_0_0_1,
            m1_0_1_0_3_0_0 * m0_0_0_0_0_0_0 == m1_0_1_0_3_0_0,
            m1_0_1_0_3_0_0 * m0_0_0_2_0_0_0 == m1_0_1_2_3_0_0,
            m1_0_1_0_3_0_0 * m0_0_2_0_0_0_0 == m1_0_3_0_3_0_0,
            m1_0_1_0_3_0_0 * m0_0_2_2_0_0_1 == m1_0_3_2_3_0_1,
    ;
    let row3 = m1_0_1_0_3_2_1 * r;
    assert(row3 == -m1_0_1_0_3_2_1 + m1_0_1_2_3_2_1 - m1_0_3_0_3_2_1 - m1_0_3_2_3_2_2) by (nonlinear_arith)
        requires
            row3 == m1_0_1_0_3_2_1 * r,
            r == -m0_0_0_0_0_0_0 + m0_0_0_2_0_0_0 - m0_0_2_0_0_0_0 - m0_0_2_2_0_0_1,
            m1_0_1_0_3_2_1 * m0_0_0_0_0_0_0 == m1_0_1_0_3_2_1,
            m1_0_1_0_3_2_1 * m0_0_0_2_0_0_0 == m1_0_1_2_3_2_1,
            m1_0_1_0_3_2_1 * m0_0_2_0_0_0_0 == m1_0_3_0_3_2_1,
            m1_0_1_0_3_2_1 * m0_0_2_2_0_0_1 == m1_0_3_2_3_2_2,
    ;
    let row4 = m1_0_1_2_1_2_1 * r;
    assert(row4 == -m1_0_1_2_1_2_1 + m1_0_1_4_1_2_1 - m1_0_3_2_1_2_1 - m1_0_3_4_1_2_2) by (nonlinear_arith)
        requires
            row4 == m1_0_1_2_1_2_1 * r,
            r == -m0_0_0_0_0_0_0 + m0_0_0_2_0_0_0 - m0_0_2_0_0_0_0 - m0_0_2_2_0_0_1,
            m1_0_1_2_1_2_1 * m0_0_0_0_0_0_0 == m1_0_1_2_1_2_1,
            m1_0_1_2_1_2_1 * m0_0_0_2_0_0_0 == m1_0_1_4_1_2_1,
            m1_0_1_2_1_2_1 * m0_0_2_0_0_0_0 == m1_0_3_2_1_2_1,
            m1_0_1_2_1_2_1 * m0_0_2_2_0_0_1 == m1_0_3_4_1_2_2,
    ;
    let row5 = m1_0_2_1_2_1_1 * r;
    assert(row5 == -m1_0_2_1_2_1_1 + m1_0_2_3_2_1_1 - m1_0_4_1_2_1_1 - m1_0_4_3_2_1_2) by (nonlinear_arith)
        requires
            row5 == m1_0_2_1_2_1_1 * r,
            r == -m0_0_0_0_0_0_0 + m0_0_0_2_0_0_0 - m0_0_2_0_0_0_0 - m0_0_2_2_0_0_1,
            m1_0_2_1_2_1_1 * m0_0_0_0_0_0_0 == m1_0_2_1_2_1_1,
            m1_0_2_1_2_1_1 * m0_0_0_2_0_0_0 == m1_0_2_3_2_1_1,
            m1_0_2_1_2_1_1 * m0_0_2_0_0_0_0 == m1_0_4_1_2_1_1,
            m1_0_2_1_2_1_1 * m0_0_2_2_0_0_1 == m1_0_4_3_2_1_2,
    ;
    assert(p * r == row0 - row1 + row2 + row3 + row4 + row5) by (nonlinear_arith)
        requires
            p == m1_0_1_0_1_0_0 - m1_0_1_0_1_2_0 + m1_0_1_0_3_0_0 + m1_0_1_0_3_2_1 +
                m1_0_1_2_1_2_1 + m1_0_2_1_2_1_1,
            row0 == m1_0_1_0_1_0_0 * r,
            row1 == m1_0_1_0_1_2_0 * r,
            row2 == m1_0_1_0_3_0_0 * r,
            row3 == m1_0_1_0_3_2_1 * r,
            row4 == m1_0_1_2_1_2_1 * r,
            row5 == m1_0_2_1_2_1_1 * r,
    ;
}

/// A cofactor times the defect of a point.
proof fn lemma_associative_product_76(v: Vars, p: int, r: int)
    requires
        p == -mono(v, 1, 2, 0, 1, 0, 1, 0) + mono(v, 1, 2, 0, 1, 0, 3, 0) - mono(v, 1, 2, 0, 1,
            2, 1, 0) - mono(v, 1, 2, 0, 1, 2, 3, 1) - mono(v, 1, 2, 1, 0, 1, 0, 0) + mono(v, 1,
            2, 1, 0, 1, 2, 0),
        r == -mono(v, 0, 0, 0, 0, 0, 0, 0) + mono(v, 0, 0, 0, 2, 0, 0, 0) - mono(v, 0, 0, 2, 0,
            0, 0, 0) - mono(v, 0, 0, 2, 2, 0, 0, 1),
    ensures
        p * r == mono(v, 1, 2, 0, 1, 0, 1, 0) - mono(v, 1, 2, 0, 1, 0, 3, 0) + mono(v, 1, 2, 0, 1, 2,
            1, 0) + mono(v, 1, 2, 0, 1, 2, 3, 1) - mono(v, 1, 2, 0, 3, 0, 1, 0) + mono(v, 1, 2,
            0, 3, 0, 3, 0) - mono(v, 1, 2, 0, 3, 2, 1, 0) - mono(v, 1, 2, 0, 3, 2, 3, 1) +
            mono(v, 1, 2, 1, 0, 1, 0, 0) - mono(v, 1, 2, 1, 0, 1, 2, 0) - mono(v, 1, 2, 1, 2, 1,
            0, 0) + mono(v, 1, 2, 1, 2, 1, 2, 0) + mono(v, 1, 2, 2, 1, 0, 1, 0) - mono(v, 1, 2,
            2, 1, 0, 3, 0) + mono(v, 1, 2, 2, 1, 2, 1, 0) + mono(v, 1, 2, 2, 1, 2, 3, 1) +
            mono(v, 1, 2, 2, 3, 0, 1, 1) - mono(v, 1, 2, 2, 3, 0, 3, 1) + mono(v, 1, 2, 2, 3, 2,
            1, 1) + mono(v, 1, 2, 2, 3, 2, 3, 2) + mono(v, 1, 2, 3, 0, 1, 0, 0) - mono(v, 1, 2,
            3, 0, 1, 2, 0) + mono(v, 1, 2, 3, 2, 1, 0, 1) - mono(v, 1, 2, 3, 2, 1, 2, 1),
{
    let m1_2_0_1_0_1_0 = mono(v, 1, 2, 0, 1, 0, 1, 0);
    let m1_2_0_1_0_3_0 = mono(v, 1, 2, 0, 1, 0, 3, 0);
    let m1_2_0_1_2_1_0 = mono(v, 1, 2, 0, 1, 2, 1, 0);
    let m1_2_0_1_2_3_1 = mono(v, 1, 2, 0, 1, 2, 3, 1);
    let m1_2_1_0_1_0_0 = mono(v, 1, 2, 1, 0, 1, 0, 0);
    let m1_2_1_0_1_2_0 = mono(v, 1, 2, 1, 0, 1, 2, 0);
    let m0_0_0_0_0_0_0 = mono(v, 0, 0, 0, 0, 0, 0, 0);
    let m0_0_0_2_0_0_0 = mono(v, 0, 0, 0, 2, 0, 0, 0);
    let m0_0_2_0_0_0_0 = mono(v, 0, 0, 2, 0, 0, 0, 0);
    let m0_0_2_2_0_0_1 = mono(v, 0, 0, 2, 2, 0, 0, 1);
    let m1_2_0_3_0_1_0 = mono(v, 1, 2, 0, 3, 0, 1, 0);
    let m1_2_2_1_0_1_0 = mono(v, 1, 2, 2, 1, 0, 1, 0);
    let m1_2_2_3_0_1_1 = mono(v, 1, 2, 2, 3, 0, 1, 1);
    let m1_2_0_3_0_3_0 = mono(v, 1, 2, 0, 3, 0, 3, 0);
    let m1_2_2_1_0_3_0 = mono(v, 1, 2, 2, 1, 0, 3, 0);
    let m1_2_2_3_0_3_1 = mono(v, 1, 2, 2, 3, 0, 3, 1);
    let m1_2_0_3_2_1_0 = mono(v, 1, 2, 0, 3, 2, 1, 0);
    let m1_2_2_1_2_1_0 = mono(v, 1, 2, 2, 1, 2, 1, 0);
    let m1_2_2_3_2_1_1 = mono(v, 1, 2, 2, 3, 2, 1, 1);
    let m1_2_0_3_2_3_1 = mono(v, 1, 2, 0, 3, 2, 3, 1);
    let m1_2_2_1_2_3_1 = mono(v, 1, 2, 2, 1, 2, 3, 1);
    let m1_2_2_3_2_3_2 = mono(v, 1, 2, 2, 3, 2, 3, 2);
    let m1_2_1_2_1_0_0 = mono(v, 1, 2, 1, 2, 1, 0, 0);
    let m1_2_3_0_1_0_0 = mono(v, 1, 2, 3, 0, 1, 0, 0);
    let m1_2_3_2_1_0_1 = mono(v, 1, 2, 3, 2, 1, 0, 1);
    let m1_2_1_2_1_2_0 = mono(v, 1, 2, 1, 2, 1, 2, 0);
    let m1_2_3_0_1_2_0 = mono(v, 1, 2, 3, 0, 1, 2, 0);
    let m1_2_3_2_1_2_1 = mono(v, 1, 2, 3, 2, 1, 2, 1);
    lemma_mono_mul(v, 1, 2, 0, 1, 0, 1, 0, 0, 0, 0, 0, 0, 0, 0);
    lemma_mono_mul(v, 1, 2, 0, 1, 0, 1, 0, 0, 0, 0, 2, 0, 0, 0);
    lemma_mono_mul(v, 1, 2, 0, 1, 0, 1, 0, 0, 0, 2, 0, 0, 0, 0);
    lemma_mono_mul(v, 1, 2, 0, 1, 0, 1, 0, 0, 0, 2, 2, 0, 0, 1);
    lemma_mono_mul(v, 1, 2, 0, 1, 0, 3, 0, 0, 0, 0, 0, 0, 0, 0);
    lemma_mono_mul(v, 1, 2, 0, 1, 0, 3, 0, 0, 0, 0, 2, 0, 0, 0);
    lemma_mono_mul(v, 1, 2, 0, 1, 0, 3, 0, 0, 0, 2, 0, 0, 0, 0);
    lemma_mono_mul(v, 1, 2, 0, 1, 0, 3, 0, 0, 0, 2, 2, 0, 0, 1);
    lemma_mono_mul(v, 1, 2, 0, 1, 2, 1, 0, 0, 0, 0, 0, 0, 0, 0);
    lemma_mono_mul(v, 1, 2, 0, 1, 2, 1, 0, 0, 0, 0, 2, 0, 0, 0);
    lemma_mono_mul(v, 1, 2, 0, 1, 2, 1, 0, 0, 0, 2, 0, 0, 0, 0);
    lemma_mono_mul(v, 1, 2, 0, 1, 2, 1, 0, 0, 0, 2, 2, 0, 0, 1);
    lemma_mono_mul(v, 1, 2, 0, 1, 2, 3, 1, 0, 0, 0, 0, 0, 0, 0);
    lemma_mono_mul(v, 1, 2, 0, 1, 2, 3, 1, 0, 0, 0, 2, 0, 0, 0);
    lemma_mono_mul(v, 1, 2, 0, 1, 2, 3, 1, 0, 0, 2, 0, 0, 0, 0);
    lemma_mono_mul(v, 1, 2, 0, 1, 2, 3, 1, 0, 0, 2, 2, 0, 0, 1);
    lemma_mono_mul(v, 1, 2, 1, 0, 1, 0, 0, 0, 0, 0, 0, 0, 0, 0);
    lemma_mono_mul(v, 1, 2, 1, 0, 1, 0, 0, 0, 0, 0, 2, 0, 0, 0);
    lemma_mono_mul(v, 1, 2, 1, 0, 1, 0, 0, 0, 0, 2, 0, 0, 0, 0);
    lemma_mono_mul(v, 1, 2, 1, 0, 1, 0, 0, 0, 0, 2, 2, 0, 0, 1);
    lemma_mono_mul(v, 1, 2, 1, 0, 1, 2, 0, 0, 0, 0, 0, 0, 0, 0);
    lemma_mono_mul(v, 1, 2, 1, 0, 1, 2, 0, 0, 0, 0, 2, 0, 0, 0);
    lemma_mono_mul(v, 1, 2, 1, 0, 1, 2, 0, 0, 0, 2, 0, 0, 0, 0);
    lemma_mono_mul(v, 1, 2, 1, 0, 1, 2, 0, 0, 0, 2, 2, 0, 0, 1);
    let row0 = m1_2_0_1_0_1_0 * r;
    assert(row0 == -m1_2_0_1_0_1_0 + m1_2_0_3_0_1_0 - m1_2_2_1_0_1_0 - m1_2_2_3_0_1_1) by (nonlinear_arith)
        requires
            row0 == m1_2_0_1_0_1_0 * r,
            r == -m0_0_0_0_0_0_0 + m0_0_0_2_0_0_0 - m0_0_2_0_0_0_0 - m0_0_2_2_0_0_1,
            m1_2_0_1_0_1_0 * m0_0_0_0_0_0_0 == m1_2_0_1_0_1_0,
            m1_2_0_1_0_1_0 * m0_0_0_2_0_0_0 == m1_2_0_3_0_1_0,
            m1_2_0_1_0_1_0 * m0_0_2_0_0_0_0 == m1_2_2_1_0_1_0,
            m1_2_0_1_0_1_0 * m0_0_2_2_0_0_1 == m1_2_2_3_0_1_1,
    ;
    let row1 = m1_2_0_1_0_3_0 * r;
    assert(row1 == -m1_2_0_1_0_3_0 + m1_2_0_3_0_3_0 - m1_2_2_1_0_3_0 - m1_2_2_3_0_3_1) by (nonlinear_arith)
        requires
            row1 == m1_2_0_1_0_3_0 * r,
            r == -m0_0_0_0_0_0_0 + m0_0_0_2_0_0_0 - m0_0_2_0_0_0_0 - m0_0_2_2_0_0_1,
            m1_2_0_1_0_3_0 * m0_0_0_0_0_0_0 == m1_2_0_1_0_3_0,
            m1_2_0_1_0_3_0 * m0_0_0_2_0_0_0 == m1_2_0_3_0_3_0,
            m1_2_0_1_0_3_0 * m0_0_2_0_0_0_0 == m1_2_2_1_0_3_0,
            m1_2_0_1_0_3_0 * m0_0_2_2_0_0_1 == m1_2_2_3_0_3_1,
    ;
    let row2 = m1_2_0_1_2_1_0 * r;
    assert(row2 == -m1_2_0_1_2_1_0 + m1_2_0_3_2_1_0 - m1_2_2_1_2_1_0 - m1_2_2_3_2_1_1) by (nonlinear_arith)
        requires
            row2 == m1_2_0_1_2_1_0 * r,
            r == -m0_0_0_0_0_0_0 + m0_0_0_2_0_0_0 - m0_0_2_0_0_0_0 - m0_0_2_2_0_0_1,
            m1_2_0_1_2_1_0 * m0_0_0_0_0_0_0 == m1_2_0_1_2_1_0,
            m1_2_0_1_2_1_0 * m0_0_0_2_0_0_0 == m1_2_0_3_2_1_0,
            m1_2_0_1_2_1_0 * m0_0_2_0_0_0_0 == m1_2_2_1_2_1_0,
            m1_2_0_1_2_1_0 * m0_0_2_2_0_0_1 == m1_2_2_3_2_1_1,
    ;
    let row3 = m1_2_0_1_2_3_1 * r;
    assert(row3 == -m1_2_0_1_2_3_1 + m1_2_0_3_2_3_1 - m1_2_2_1_2_3_1 - m1_2_2_3_2_3_2) by (nonlinear_arith)
        requires
            row3 == m1_2_0_1_2_3_1 * r,
            r == -m0_0_0_0_0_0_0 + m0_0_0_2_0_0_0 - m0_0_2_0_0_0_0 - m0_0_2_2_0_0_1,
            m1_2_0_1_2_3_1 * m0_0_0_0_0_0_0 == m1_2_0_1_2_3_1,
            m1_2_0_1_2_3_1 * m0_0_0_2_0_0_0 == m1_2_0_3_2_3_1,
            m1_2_0_1_2_3_1 * m0_0_2_0_0_0_0 == m1_2_2_1_2_3_1,
            m1_2_0_1_2_3_1 * m0_0_2_2_0_0_1 == m1_2_2_3_2_3_2,
    ;
    let row4 = m1_2_1_0_1_0_0 * r;
    assert(row4 == -m1_2_1_0_1_0_0 + m1_2_1_2_1_0_0 - m1_2_3_0_1_0_0 - m1_2_3_2_1_0_1) by (nonlinear_arith)
        requires
            row4 == m1_2_1_0_1_0_0 * r,
            r == -m0_0_0_0_0_0_0 + m0_0_0_2_0_0_0 - m0_0_2_0_0_0_0 - m0_0_2_2_0_0_1,
            m1_2_1_0_1_0_0 * m0_0_0_0_0_0_0 == m1_2_1_0_1_0_0,
            m1_2_1_0_1_0_0 * m0_0_0_2_0_0_0 == m1_2_1_2_1_0_0,
            m1_2_1_0_1_0_0 * m0_0_2_0_0_0_0 == m1_2_3_0_1_0_0,
            m1_2_1_0_1_0_0 * m0_0_2_2_0_0_1 == m1_2_3_2_1_0_1,
    ;
    let row5 = m1_2_1_0_1_2_0 * r;
    assert(row5 == -m1_2_1_0_1_2_0 + m1_2_1_2_1_2_0 - m1_2_3_0_1_2_0 - m1_2_3_2_1_2_1) by (nonlinear_arith)
        requires
            row5 == m1_2_1_0_1_2_0 * r,
            r == -m0_0_0_0_0_0_0 + m0_0_0_2_0_0_0 - m0_0_2_0_0_0_0 - m0_0_2_2_0_0_1,
            m1_2_1_0_1_2_0 * m0_0_0_0_0_0_0 == m1_2_1_0_1_2_0,
            m1_2_1_0_1_2_0 * m0_0_0_2_0_0_0 == m1_2_1_2_1_2_0,
            m1_2_1_0_1_2_0 * m0_0_2_0_0_0_0 == m1_2_3_0_1_2_0,
            m1_2_1_0_1_2_0 * m0_0_2_2_0_0_1 == m1_2_3_2_1_2_1,
    ;
    assert(p * r == -row0 + row1 - row2 - row3 - row4 + row5) by (nonlinear_arith)
        requires
            p == -m1_2_0_1_0_1_0 + m1_2_0_1_0_3_0 - m1_2_0_1_2_1_0 - m1_2_0_1_2_3_1 -
                m1_2_1_0_1_0_0 + m1_2_1_0_1_2_0,
            row0 == m1_2_0_1_0_1_0 * r,
            row1 == m1_2_0_1_0_3_0 * r,
            row2 == m1_2_0_1_2_1_0 * r,
            row3 == m1_2_0_1_2_3_1 * r,
            row4 == m1_2_1_0_1_0_0 * r,
            row5 == m1_2_1_0_1_2_0 * r,
    ;
}

/// A cofactor times the defect of a point.
proof fn lemma_associative_product_77(v: Vars, p: int, r: int)
    requires
        p == -mono(v, 1, 2, 1, 0, 3, 0, 0) - mono(v, 1, 2, 1, 0, 3, 2, 1) - mono(v, 1, 2, 1, 2,
            1, 2, 1) + mono(v, 1, 2, 1, 2, 3, 2, 2) - mono(v, 1, 2, 2, 1, 2, 1, 1) - mono(v, 1,
            2, 2, 1, 2, 3, 2),
        r == -mono(v, 0, 0, 0, 0, 0, 0, 0) + mono(v, 0, 0, 0, 2, 0, 0, 0) - mono(v, 0, 0, 2, 0,
            0, 0, 0) - mono(v, 0, 0, 2, 2, 0, 0, 1),
    ensures
        p * r == mono(v, 1, 2, 1, 0, 3, 0, 0) + mono(v, 1, 2, 1, 0, 3, 2, 1) + mono(v, 1, 2, 1, 2, 1,
            2, 1) - mono(v, 1, 2, 1, 2, 3, 0, 0) - mono(v, 1, 2, 1, 2, 3, 2, 1) - mono(v, 1, 2,
            1, 2, 3, 2, 2) - mono(v, 1, 2, 1, 4, 1, 2, 1) + mono(v, 1, 2, 1, 4, 3, 2, 2) +
            mono(v, 1, 2, 2, 1, 2, 1, 1) + mono(v, 1, 2, 2, 1, 2, 3, 2) - mono(v, 1, 2, 2, 3, 2,
            1, 1) - mono(v, 1, 2, 2, 3, 2, 3, 2) + mono(v, 1, 2, 3, 0, 3, 0, 0) + mono(v, 1, 2,
            3, 0, 3, 2, 1) + mono(v, 1, 2, 3, 2, 1, 2, 1) + mono(v, 1, 2, 3, 2, 3, 0, 1) +
            mono(v, 1, 2, 3, 4, 1, 2, 2) - mono(v, 1, 2, 3, 4, 3, 2, 3) + mono(v, 1, 2, 4, 1, 2,
            1, 1) + mono(v, 1, 2, 4, 1, 2, 3, 2) + mono(v, 1, 2, 4, 3, 2, 1, 2) + mono(v, 1, 2,
            4, 3, 2, 3, 3),
{
    let m1_2_1_0_3_0_0 = mono(v, 1, 2, 1, 0, 3, 0, 0);
    let m1_2_1_0_3_2_1 = mono(v, 1, 2, 1, 0, 3, 2, 1);
    let m1_2_1_2_1_2_1 = mono(v, 1, 2, 1, 2, 1, 2, 1);
    let m1_2_1_2_3_2_2 = mono(v, 1, 2, 1, 2, 3, 2, 2);
    let m1_2_2_1_2_1_1 = mono(v, 1, 2, 2, 1, 2, 1, 1);
    let m1_2_2_1_2_3_2 = mono(v, 1, 2, 2, 1, 2, 3, 2);
    let m0_0_0_0_0_0_0 = mono(v, 0, 0, 0, 0, 0, 0, 0);
    let m0_0_0_2_0_0_0 = mono(v, 0, 0, 0, 2, 0, 0, 0);
    let m0_0_2_0_0_0_0 = mono(v, 0, 0, 2, 0, 0, 0, 0);
    let m0_0_2_2_0_0_1 = mono(v, 0, 0, 2, 2, 0, 0, 1);
    let m1_2_1_2_3_0_0 = mono(v, 1, 2, 1, 2, 3, 0, 0);
    let m1_2_3_0_3_0_0 = mono(v, 1, 2, 3, 0, 3, 0, 0);
    let m1_2_3_2_3_0_1 = mono(v, 1, 2, 3, 2, 3, 0, 1);
    let m1_2_1_2_3_2_1 = mono(v, 1, 2, 1, 2, 3, 2, 1);
    let m1_2_3_0_3_2_1 = mono(v, 1, 2, 3, 0, 3, 2, 1);
    let m1_2_3_2_3_2_2 = mono(v, 1, 2, 3, 2, 3, 2, 2);
    let m1_2_1_4_1_2_1 = mono(v, 1, 2, 1, 4, 1, 2, 1);
    let m1_2_3_2_1_2_1 = mono(v, 1, 2, 3, 2, 1, 2, 1);
    let m1_2_3_4_1_2_2 = mono(v, 1, 2, 3, 4, 1, 2, 2);
    let m1_2_1_4_3_2_2 = mono(v, 1, 2, 1, 4, 3, 2, 2);
    let m1_2_3_4_3_2_3 = mono(v, 1, 2, 3, 4, 3, 2, 3);
    let m1_2_2_3_2_1_1 = mono(v, 1, 2, 2, 3, 2, 1, 1);
    let m1_2_4_1_2_1_1 = mono(v, 1, 2, 4, 1, 2, 1, 1);
    let m1_2_4_3_2_1_2 = mono(v, 1, 2, 4, 3, 2, 1, 2);
    let m1_2_2_3_2_3_2 = mono(v, 1, 2, 2, 3, 2, 3, 2);
    let m1_2_4_1_2_3_2 = mono(v, 1, 2, 4, 1, 2, 3, 2);
    let m1_2_4_3_2_3_3 = mono(v, 1, 2, 4, 3, 2, 3, 3);
    lemma_mono_mul(v, 1, 2, 1, 0, 3, 0, 0, 0, 0, 0, 0, 0, 0, 0);
    lemma_mono_mul(v, 1, 2, 1, 0, 3, 0, 0, 0, 0, 0, 2, 0, 0, 0);
    lemma_mono_mul(v, 1, 2, 1, 0, 3, 0, 0, 0, 0, 2, 0, 0, 0, 0);
    lemma_mono_mul(v, 1, 2, 1, 0, 3, 0, 0, 0, 0, 2, 2, 0, 0, 1);
    lemma_mono_mul(v, 1, 2, 1, 0, 3, 2, 1, 0, 0, 0, 0, 0, 0, 0);
    lemma_mono_mul(v, 1, 2, 1, 0, 3, 2, 1, 0, 0, 0, 2, 0, 0, 0);
    lemma_mono_mul(v, 1, 2, 1, 0, 3, 2, 1, 0, 0, 2, 0, 0, 0, 0);
    lemma_mono_mul(v, 1, 2, 1, 0, 3, 2, 1, 0, 0, 2, 2, 0, 0, 1);
    lemma_mono_mul(v, 1, 2, 1, 2, 1, 2, 1, 0, 0, 0, 0, 0, 0, 0);
    lemma_mono_mul(v, 1, 2, 1, 2, 1, 2, 1, 0, 0, 0, 2, 0, 0, 0);
    lemma_mono_mul(v, 1, 2, 1, 2, 1, 2, 1, 0, 0, 2, 0, 0, 0, 0);
    lemma_mono_mul(v, 1, 2, 1, 2, 1, 2, 1, 0, 0, 2, 2, 0, 0, 1);
    lemma_mono_mul(v, 1, 2, 1, 2, 3, 2, 2, 0, 0, 0, 0, 0, 0, 0);
    lemma_mono_mul(v, 1, 2, 1, 2, 3, 2, 2, 0, 0, 0, 2, 0, 0, 0);
    lemma_mono_mul(v, 1, 2, 1, 2, 3, 2, 2, 0, 0, 2, 0, 0, 0, 0);
    lemma_mono_mul(v, 1, 2, 1, 2, 3, 2, 2, 0, 0, 2, 2, 0, 0, 1);
    lemma_mono_mul(v, 1, 2, 2, 1, 2, 1, 1, 0, 0, 0, 0, 0, 0, 0);
    lemma_mono_mul(v, 1, 2, 2, 1, 2, 1, 1, 0, 0, 0, 2, 0, 0, 0);
    lemma_mono_mul(v, 1, 2, 2, 1, 2, 1, 1, 0, 0, 2, 0, 0, 0, 0);
    lemma_mono_mul(v, 1, 2, 2, 1, 2, 1, 1, 0, 0, 2, 2, 0, 0, 1);
    lemma_mono_mul(v, 1, 2, 2, 1, 2, 3, 2, 0, 0, 0, 0, 0, 0, 0);
    lemma_mono_mul(v, 1, 2, 2, 1, 2, 3, 2, 0, 0, 0, 2, 0, 0, 0);
    lemma_mono_mul(v, 1, 2, 2, 1, 2, 3, 2, 0, 0, 2, 0, 0, 0, 0);
    lemma_mono_mul(v, 1, 2, 2, 1, 2, 3, 2, 0, 0, 2, 2, 0, 0, 1);
    let row0 = m1_2_1_0_3_0_0 * r;
    assert(row0 == -m1_2_1_0_3_0_0 + m1_2_1_2_3_0_0 - m1_2_3_0_3_0_0 - m1_2_3_2_3_0_1) by (nonlinear_arith)
        requires
            row0 == m1_2_1_0_3_0_0 * r,
            r == -m0_0_0_0_0_0_0 + m0_0_0_2_0_0_0 - m0_0_2_0_0_0_0 - m0_0_2_2_0_0_1,
            m1_2_1_0_3_0_0 * m0_0_0_0_0_0_0 == m1_2_1_0_3_0_0,
            m1_2_1_0_3_0_0 * m0_0_0_2_0_0_0 == m1_2_1_2_3_0_0,
            m1_2_1_0_3_0_0 * m0_0_2_0_0_0_0 == m1_2_3_0_3_0_0,
            m1_2_1_0_3_0_0 * m0_0_2_2_0_0_1 == m1_2_3_2_3_0_1,
    ;
    let row1 = m1_2_1_0_3_2_1 * r;
    assert(row1 == -m1_2_1_0_3_2_1 + m1_2_1_2_3_2_1 - m1_2_3_0_3_2_1 - m1_2_3_2_3_2_2) by (nonlinear_arith)
        requires
            row1 == m1_2_1_0_3_2_1 * r,
            r == -m0_0_0_0_0_0_0 + m0_0_0_2_0_0_0 - m0_0_2_0_0_0_0 - m0_0_2_2_0_0_1,
            m1_2_1_0_3_2_1 * m0_0_0_0_0_0_0 == m1_2_1_0_3_2_1,
            m1_2_1_0_3_2_1 * m0_0_0_2_0_0_0 == m1_2_1_2_3_2_1,
            m1_2_1_0_3_2_1 * m0_0_2_0_0_0_0 == m1_2_3_0_3_2_1,
            m1_2_1_0_3_2_1 * m0_0_2_2_0_0_1 == m1_2_3_2_3_2_2,
    ;
    let row2 = m1_2_1_2_1_2_1 * r;
    assert(row2 == -m1_2_1_2_1_2_1 + m1_2_1_4_1_2_1 - m1_2_3_2_1_2_1 - m1_2_3_4_1_2_2) by (nonlinear_arith)
        requires
            row2 == m1_2_1_2_1_2_1 * r,
            r == -m0_0_0_0_0_0_0 + m0_0_0_2_0_0_0 - m0_0_2_0_0_0_0 - m0_0_2_2_0_0_1,
            m1_2_1_2_1_2_1 * m0_0_0_0_0_0_0 == m1_2_1_2_1_2_1,
            m1_2_1_2_1_2_1 * m0_0_0_2_0_0_0 == m1_2_1_4_1_2_1,
            m1_2_1_2_1_2_1 * m0_0_2_0_0_0_0 == m1_2_3_2_1_2_1,
            m1_2_1_2_1_2_1 * m0_0_2_2_0_0_1 == m1_2_3_4_1_2_2,
    ;
    let row3 = m1_2_1_2_3_2_2 * r;
    assert(row3 == -m1_2_1_2_3_2_2 + m1_2_1_4_3_2_2 - m1_2_3_2_3_2_2 - m1_2_3_4_3_2_3) by (nonlinear_arith)
        requires
            row3 == m1_2_1_2_3_2_2 * r,
            r == -m0_0_0_0_0_0_0 + m0_0_0_2_0_0_0 - m0_0_2_0_0_0_0 - m0_0_2_2_0_0_1,
            m1_2_1_2_3_2_2 * m0_0_0_0_0_0_0 == m1_2_1_2_3_2_2,
            m1_2_1_2_3_2_2 * m0_0_0_2_0_0_0 == m1_2_1_4_3_2_2,
            m1_2_1_2_3_2_2 * m0_0_2_0_0_0_0 == m1_2_3_2_3_2_2,
            m1_2_1_2_3_2_2 * m0_0_2_2_0_0_1 == m1_2_3_4_3_2_3,
    ;
    let row4 = m1_2_2_1_2_1_1 * r;
    assert(row4 == -m1_2_2_1_2_1_1 + m1_2_2_3_2_1_1 - m1_2_4_1_2_1_1 - m1_2_4_3_2_1_2) by (nonlinear_arith)
        requires
            row4 == m1_2_2_1_2_1_1 * r,
            r == -m0_0_0_0_0_0_0 + m0_0_0_2_0_0_0 - m0_0_2_0_0_0_0 - m0_0_2_2_0_0_1,
            m1_2_2_1_2_1_1 * m0_0_0_0_0_0_0 == m1_2_2_1_2_1_1,
            m1_2_2_1_2_1_1 * m0_0_0_2_0_0_0 == m1_2_2_3_2_1_1,
            m1_2_2_1_2_1_1 * m0_0_2_0_0_0_0 == m1_2_4_1_2_1_1,
            m1_2_2_1_2_1_1 * m0_0_2_2_0_0_1 == m1_2_4_3_2_1_2,
    ;
    let row5 = m1_2_2_1_2_3_2 * r;
    assert(row5 == -m1_2_2_1_2_3_2 + m1_2_2_3_2_3_2 - m1_2_4_1_2_3_2 - m1_2_4_3_2_3_3) by (nonlinear_arith)
        requires
            row5 == m1_2_2_1_2_3_2 * r,
            r == -m0_0_0_0_0_0_0 + m0_0_0_2_0_0_0 - m0_0_2_0_0_0_0 - m0_0_2_2_0_0_1,
            m1_2_2_1_2_3_2 * m0_0_0_0_0_0_0 == m1_2_2_1_2_3_2,
            m1_2_2_1_2_3_2 * m0_0_0_2_0_0_0 == m1_2_2_3_2_3_2,
            m1_2_2_1_2_3_2 * m0_0_2_0_0_0_0 == m1_2_4_1_2_3_2,
            m1_2_2_1_2_3_2 * m0_0_2_2_0_0_1 == m1_2_4_3_2_3_3,
    ;
    assert(p * r == -row0 - row1 - row2 + row3 - row4 - row5) by (nonlinear_arith)
        requires
            p == -m1_2_1_0_3_0_0 - m1_2_1_0_3_2_1 - m1_2_1_2_1_2_1 + m1_2_1_2_3_2_2 -
                m1_2_2_1_2_1_1 - m1_2_2_1_2_3_2,
            row0 == m1_2_1_0_3_0_0 * r,
            row1 == m1_2_1_0_3_2_1 * r,
            row2 == m1_2_1_2_1_2_1 * r,
            row3 == m1_2_1_2_3_2_2 * r,
            row4 == m1_2_2_1_2_1_1 * r,
            row5 == m1_2_2_1_2_3_2 * r,
    ;
}

/// A cofactor times the defect of a point.
proof fn lemma_associative_product_78(v: Vars, p: int, r: int)
    requires
        p == mono(v, 2, 1, 0, 1, 1, 0, 0) - mono(v, 2, 1, 0, 1, 1, 2, 0) + mono(v, 2, 1, 0, 1, 3,
            0, 0) + mono(v, 2, 1, 0, 1, 3, 2, 1) + mono(v, 2, 1, 1, 0, 0, 1, 0) - mono(v, 2, 1,
            1, 0, 0, 3, 0),
        r == -mono(v, 0, 0, 0, 0, 0, 0, 0) + mono(v, 0, 0, 0, 2, 0, 0, 0) - mono(v, 0, 0, 2, 0,
            0, 0, 0) - mono(v, 0, 0, 2, 2, 0, 0, 1),
    ensures
        p * r == -mono(v, 2, 1, 0, 1, 1, 0, 0) + mono(v, 2, 1, 0, 1, 1, 2, 0) - mono(v, 2, 1, 0, 1,
            3, 0, 0) - mono(v, 2, 1, 0, 1, 3, 2, 1) + mono(v, 2, 1, 0, 3, 1, 0, 0) - mono(v, 2,
            1, 0, 3, 1, 2, 0) + mono(v, 2, 1, 0, 3, 3, 0, 0) + mono(v, 2, 1, 0, 3, 3, 2, 1) -
            mono(v, 2, 1, 1, 0, 0, 1, 0) + mono(v, 2, 1, 1, 0, 0, 3, 0) + mono(v, 2, 1, 1, 2, 0,
            1, 0) - mono(v, 2, 1, 1, 2, 0, 3, 0) - mono(v, 2, 1, 2, 1, 1, 0, 0) + mono(v, 2, 1,
            2, 1, 1, 2, 0) - mono(v, 2, 1, 2, 1, 3, 0, 0) - mono(v, 2, 1, 2, 1, 3, 2, 1) -
            mono(v, 2, 1, 2, 3, 1, 0, 1) + mono(v, 2, 1, 2, 3, 1, 2, 1) - mono(v, 2, 1, 2, 3, 3,
            0, 1) - mono(v, 2, 1, 2, 3, 3, 2, 2) - mono(v, 2, 1, 3, 0, 0, 1, 0) + mono(v, 2, 1,
            3, 0, 0, 3, 0) - mono(v, 2, 1, 3, 2, 0, 1, 1) + mono(v, 2, 1, 3, 2, 0, 3, 1),
{
    let m2_1_0_1_1_0_0 = mono(v, 2, 1, 0, 1, 1, 0, 0);
    let m2_1_0_1_1_2_0 = mono(v, 2, 1, 0, 1, 1, 2, 0);
    let m2_1_0_1_3_0_0 = mono(v, 2, 1, 0, 1, 3, 0, 0);
    let m2_1_0_1_3_2_1 = mono(v, 2, 1, 0, 1, 3, 2, 1);
    let m2_1_1_0_0_1_0 = mono(v, 2, 1, 1, 0, 0, 1, 0);
    let m2_1_1_0_0_3_0 = mono(v, 2, 1, 1, 0, 0, 3, 0);
    let m0_0_0_0_0_0_0 = mono(v, 0, 0, 0, 0, 0, 0, 0);
    let m0_0_0_2_0_0_0 = mono(v, 0, 0, 0, 2, 0, 0, 0);
    let m0_0_2_0_0_0_0 = mono(v, 0, 0, 2, 0, 0, 0, 0);
    let m0_0_2_2_0_0_1 = mono(v, 0, 0, 2, 2, 0, 0, 1);
    let m2_1_0_3_1_0_0 = mono(v, 2, 1, 0, 3, 1, 0, 0);
    let m2_1_2_1_1_0_0 = mono(v, 2, 1, 2, 1, 1, 0, 0);
    let m2_1_2_3_1_0_1 = mono(v, 2, 1, 2, 3, 1, 0, 1);
    let m2_1_0_3_1_2_0 = mono(v, 2, 1, 0, 3, 1, 2, 0);
    let m2_1_2_1_1_2_0 = mono(v, 2, 1, 2, 1, 1, 2, 0);
    let m2_1_2_3_1_2_1 = mono(v, 2, 1, 2, 3, 1, 2, 1);
    let m2_1_0_3_3_0_0 = mono(v, 2, 1, 0, 3, 3, 0, 0);
    let m2_1_2_1_3_0_0 = mono(v, 2, 1, 2, 1, 3, 0, 0);
    let m2_1_2_3_3_0_1 = mono(v, 2, 1, 2, 3, 3, 0, 1);
    let m2_1_0_3_3_2_1 = mono(v, 2, 1, 0, 3, 3, 2, 1);
    let m2_1_2_1_3_2_1 = mono(v, 2, 1, 2, 1, 3, 2, 1);
    let m2_1_2_3_3_2_2 = mono(v, 2, 1, 2, 3, 3, 2, 2);
    let m2_1_1_2_0_1_0 = mono(v, 2, 1, 1, 2, 0, 1, 0);
    let m2_1_3_0_0_1_0 = mono(v, 2, 1, 3, 0, 0, 1, 0);
    let m2_1_3_2_0_1_1 = mono(v, 2, 1, 3, 2, 0, 1, 1);
    let m2_1_1_2_0_3_0 = mono(v, 2, 1, 1, 2, 0, 3, 0);
    let m2_1_3_0_0_3_0 = mono(v, 2, 1, 3, 0, 0, 3, 0);
    let m2_1_3_2_0_3_1 = mono(v, 2, 1, 3, 2, 0, 3, 1);
    lemma_mono_mul(v, 2, 1, 0, 1, 1, 0, 0, 0, 0, 0, 0, 0, 0, 0);
    lemma_mono_mul(v, 2, 1, 0, 1, 1, 0, 0, 0, 0, 0, 2, 0, 0, 0);
    lemma_mono_mul(v, 2, 1, 0, 1, 1, 0, 0, 0, 0, 2, 0, 0, 0, 0);
    lemma_mono_mul(v, 2, 1, 0, 1, 1, 0, 0, 0, 0, 2, 2, 0, 0, 1);
    lemma_mono_mul(v, 2, 1, 0, 1, 1, 2, 0, 0, 0, 0, 0, 0, 0, 0);
    lemma_mono_mul(v, 2, 1, 0, 1, 1, 2, 0, 0, 0, 0, 2, 0, 0, 0);
    lemma_mono_mul(v, 2, 1, 0, 1, 1, 2, 0, 0, 0, 2, 0, 0, 0, 0);
    lemma_mono_mul(v, 2, 1, 0, 1, 1, 2, 0, 0, 0, 2, 2, 0, 0, 1);
    lemma_mono_mul(v, 2, 1, 0, 1, 3, 0, 0, 0, 0, 0, 0, 0, 0, 0);
    lemma_mono_mul(v, 2, 1, 0, 1, 3, 0, 0, 0, 0, 0, 2, 0, 0, 0);
    lemma_mono_mul(v, 2, 1, 0, 1, 3, 0, 0, 0, 0, 2, 0, 0, 0, 0);
    lemma_mono_mul(v, 2, 1, 0, 1, 3, 0, 0, 0, 0, 2, 2, 0, 0, 1);
    lemma_mono_mul(v, 2, 1, 0, 1, 3, 2, 1, 0, 0, 0, 0, 0, 0, 0);
    lemma_mono_mul(v, 2, 1, 0, 1, 3, 2, 1, 0, 0, 0, 2, 0, 0, 0);
    lemma_mono_mul(v, 2, 1, 0, 1, 3, 2, 1, 0, 0, 2, 0, 0, 0, 0);
    lemma_mono_mul(v, 2, 1, 0, 1, 3, 2, 1, 0, 0, 2, 2, 0, 0, 1);
    lemma_mono_mul(v, 2, 1, 1, 0, 0, 1, 0, 0, 0, 0, 0, 0, 0, 0);
    lemma_mono_mul(v, 2, 1, 1, 0, 0, 1, 0, 0, 0, 0, 2, 0, 0, 0);
    lemma_mono_mul(v, 2, 1, 1, 0, 0, 1, 0, 0, 0, 2, 0, 0, 0, 0);
    lemma_mono_mul(v, 2, 1, 1, 0, 0, 1, 0, 0, 0, 2, 2, 0, 0, 1);
    lemma_mono_mul(v, 2, 1, 1, 0, 0, 3, 0, 0, 0, 0, 0, 0, 0, 0);
    lemma_mono_mul(v, 2, 1, 1, 0, 0, 3, 0, 0, 0, 0, 2, 0, 0, 0);
    lemma_mono_mul(v, 2, 1, 1, 0, 0, 3, 0, 0, 0, 2, 0, 0, 0, 0);
    lemma_mono_mul(v, 2, 1, 1, 0, 0, 3, 0, 0, 0, 2, 2, 0, 0, 1);
    let row0 = m2_1_0_1_1_0_0 * r;
    assert(row0 == -m2_1_0_1_1_0_0 + m2_1_0_3_1_0_0 - m2_1_2_1_1_0_0 - m2_1_2_3_1_0_1) by (nonlinear_arith)
        requires
            row0 == m2_1_0_1_1_0_0 * r,
            r == -m0_0_0_0_0_0_0 + m0_0_0_2_0_0_0 - m0_0_2_0_0_0_0 - m0_0_2_2_0_0_1,
            m2_1_0_1_1_0_0 * m0_0_0_0_0_0_0 == m2_1_0_1_1_0_0,
            m2_1_0_1_1_0_0 * m0_0_0_2_0_0_0 == m2_1_0_3_1_0_0,
            m2_1_0_1_1_0_0 * m0_0_2_0_0_0_0 == m2_1_2_1_1_0_0,
            m2_1_0_1_1_0_0 * m0_0_2_2_0_0_1 == m2_1_2_3_1_0_1,
    ;
    let row1 = m2_1_0_1_1_2_0 * r;
    assert(row1 == -m2_1_0_1_1_2_0 + m2_1_0_3_1_2_0 - m2_1_2_1_1_2_0 - m2_1_2_3_1_2_1) by (nonlinear_arith)
        requires
            row1 == m2_1_0_1_1_2_0 * r,
            r == -m0_0_0_0_0_0_0 + m0_0_0_2_0_0_0 - m0_0_2_0_0_0_0 - m0_0_2_2_0_0_1,
            m2_1_0_1_1_2_0 * m0_0_0_0_0_0_0 == m2_1_0_1_1_2_0,
            m2_1_0_1_1_2_0 * m0_0_0_2_0_0_0 == m2_1_0_3_1_2_0,
            m2_1_0_1_1_2_0 * m0_0_2_0_0_0_0 == m2_1_2_1_1_2_0,
            m2_1_0_1_1_2_0 * m0_0_2_2_0_0_1 == m2_1_2_3_1_2_1,
    ;
    let row2 = m2_1_0_1_3_0_0 * r;
    assert(row2 == -m2_1_0_1_3_0_0 + m2_1_0_3_3_0_0 - m2_1_2_1_3_0_0 - m2_1_2_3_3_0_1) by (nonlinear_arith)
        requires
            row2 == m2_1_0_1_3_0_0 * r,
            r == -m0_0_0_0_0_0_0 + m0_0_0_2_0_0_0 - m0_0_2_0_0_0_0 - m0_0_2_2_0_0_1,
            m2_1_0_1_3_0_0 * m0_0_0_0_0_0_0 == m2_1_0_1_3_0_0,
            m2_1_0_1_3_0_0 * m0_0_0_2_0_0_0 == m2_1_0_3_3_0_0,
            m2_1_0_1_3_0_0 * m0_0_2_0_0_0_0 == m2_1_2_1_3_0_0,
            m2_1_0_1_3_0_0 * m0_0_2_2_0_0_1 == m2_1_2_3_3_0_1,
    ;
    let row3 = m2_1_0_1_3_2_1 * r;
    assert(row3 == -m2_1_0_1_3_2_1 + m2_1_0_3_3_2_1 - m2_1_2_1_3_2_1 - m2_1_2_3_3_2_2) by (nonlinear_arith)
        requires
            row3 == m2_1_0_1_3_2_1 * r,
            r == -m0_0_0_0_0_0_0 + m0_0_0_2_0_0_0 - m0_0_2_0_0_0_0 - m0_0_2_2_0_0_1,
            m2_1_0_1_3_2_1 * m0_0_0_0_0_0_0 == m2_1_0_1_3_2_1,
            m2_1_0_1_3_2_1 * m0_0_0_2_0_0_0 == m2_1_0_3_3_2_1,
            m2_1_0_1_3_2_1 * m0_0_2_0_0_0_0 == m2_1_2_1_3_2_1,
            m2_1_0_1_3_2_1 * m0_0_2_2_0_0_1 == m2_1_2_3_3_2_2,
    ;
    let row4 = m2_1_1_0_0_1_0 * r;
    assert(row4 == -m2_1_1_0_0_1_0 + m2_1_1_2_0_1_0 - m2_1_3_0_0_1_0 - m2_1_3_2_0_1_1) by (nonlinear_arith)
        requires
            row4 == m2_1_1_0_0_1_0 * r,
            r == -m0_0_0_0_0_0_0 + m0_0_0_2_0_0_0 - m0_0_2_0_0_0_0 - m0_0_2_2_0_0_1,
            m2_1_1_0_0_1_0 * m0_0_0_0_0_0_0 == m2_1_1_0_0_1_0,
            m2_1_1_0_0_1_0 * m0_0_0_2_0_0_0 == m2_1_1_2_0_1_0,
            m2_1_1_0_0_1_0 * m0_0_2_0_0_0_0 == m2_1_3_0_0_1_0,
            m2_1_1_0_0_1_0 * m0_0_2_2_0_0_1 == m2_1_3_2_0_1_1,
    ;
    let row5 = m2_1_1_0_0_3_0 * r;
    assert(row5 == -m2_1_1_0_0_3_0 + m2_1_1_2_0_3_0 - m2_1_3_0_0_3_0 - m2_1_3_2_0_3_1) by (nonlinear_arith)
        requires
            row5 == m2_1_1_0_0_3_0 * r,
            r == -m0_0_0_0_0_0_0 + m0_0_0_2_0_0_0 - m0_0_2_0_0_0_0 - m0_0_2_2_0_0_1,
            m2_1_1_0_0_3_0 * m0_0_0_0_0_0_0 == m2_1_1_0_0_3_0,
            m2_1_1_0_0_3_0 * m0_0_0_2_0_0_0 == m2_1_1_2_0_3_0,
            m2_1_1_0_0_3_0 * m0_0_2_0_0_0_0 == m2_1_3_0_0_3_0,
            m2_1_1_0_0_3_0 * m0_0_2_2_0_0_1 == m2_1_3_2_0_3_1,
    ;
    assert(p * r == row0 - row1 + row2 + row3 + row4 - row5) by (nonlinear_arith)
        requires
            p == m2_1_0_1_1_0_0 - m2_1_0_1_1_2_0 + m2_1_0_1_3_0_0 + m2_1_0_1_3_2_1 +
                m2_1_1_0_0_1_0 - m2_1_1_0_0_3_0,
            row0 == m2_1_0_1_1_0_0 * r,
            row1 == m2_1_0_1_1_2_0 * r,
            row2 == m2_1_0_1_3_0_0 * r,
            row3 == m2_1_0_1_3_2_1 * r,
            row4 == m2_1_1_0_0_1_0 * r,
            row5 == m2_1_1_0_0_3_0 * r,
    ;
}

/// A cofactor times the defect of a point.
proof fn lemma_associative_product_79(v: Vars, p: int, r: int)
    requires
        p == mono(v, 2, 1, 1, 0, 2, 1, 0) + mono(v, 2, 1, 1, 0, 2, 3, 1) - mono(v, 2, 1, 1, 2, 2,
            1, 1) - mono(v, 2, 1, 1, 2, 2, 3, 2) - mono(v, 2, 1, 2, 1, 1, 2, 1) + mono(v, 2, 1,
            2, 1, 3, 2, 2),
        r == -mono(v, 0, 0, 0, 0, 0, 0, 0) + mono(v, 0, 0, 0, 2, 0, 0, 0) - mono(v, 0, 0, 2, 0,
            0, 0, 0) - mono(v, 0, 0, 2, 2, 0, 0, 1),
    ensures
        p * r == -mono(v, 2, 1, 1, 0, 2, 1, 0) - mono(v, 2, 1, 1, 0, 2, 3, 1) + mono(v, 2, 1, 1, 2,
            2, 1, 0) + mono(v, 2, 1, 1, 2, 2, 1, 1) + mono(v, 2, 1, 1, 2, 2, 3, 1) + mono(v, 2,
            1, 1, 2, 2, 3, 2) - mono(v, 2, 1, 1, 4, 2, 1, 1) - mono(v, 2, 1, 1, 4, 2, 3, 2) +
            mono(v, 2, 1, 2, 1, 1, 2, 1) - mono(v, 2, 1, 2, 1, 3, 2, 2) - mono(v, 2, 1, 2, 3, 1,
            2, 1) + mono(v, 2, 1, 2, 3, 3, 2, 2) - mono(v, 2, 1, 3, 0, 2, 1, 0) - mono(v, 2, 1,
            3, 0, 2, 3, 1) + mono(v, 2, 1, 3, 4, 2, 1, 2) + mono(v, 2, 1, 3, 4, 2, 3, 3) +
            mono(v, 2, 1, 4, 1, 1, 2, 1) - mono(v, 2, 1, 4, 1, 3, 2, 2) + mono(v, 2, 1, 4, 3, 1,
            2, 2) - mono(v, 2, 1, 4, 3, 3, 2, 3),
{
    let m2_1_1_0_2_1_0 = mono(v, 2, 1, 1, 0, 2, 1, 0);
    let m2_1_1_0_2_3_1 = mono(v, 2, 1, 1, 0, 2, 3, 1);
    let m2_1_1_2_2_1_1 = mono(v, 2, 1, 1, 2, 2, 1, 1);
    let m2_1_1_2_2_3_2 = mono(v, 2, 1, 1, 2, 2, 3, 2);
    let m2_1_2_1_1_2_1 = mono(v, 2, 1, 2, 1, 1, 2, 1);
    let m2_1_2_1_3_2_2 = mono(v, 2, 1, 2, 1, 3, 2, 2);
    let m0_0_0_0_0_0_0 = mono(v, 0, 0, 0, 0, 0, 0, 0);
    let m0_0_0_2_0_0_0 = mono(v, 0, 0, 0, 2, 0, 0, 0);
    let m0_0_2_0_0_0_0 = mono(v, 0, 0, 2, 0, 0, 0, 0);
    let m0_0_2_2_0_0_1 = mono(v, 0, 0, 2, 2, 0, 0, 1);
    let m2_1_1_2_2_1_0 = mono(v, 2, 1, 1, 2, 2, 1, 0);
    let m2_1_3_0_2_1_0 = mono(v, 2, 1, 3, 0, 2, 1, 0);
    let m2_1_3_2_2_1_1 = mono(v, 2, 1, 3, 2, 2, 1, 1);
    let m2_1_1_2_2_3_1 = mono(v, 2, 1, 1, 2, 2, 3, 1);
    let m2_1_3_0_2_3_1 = mono(v, 2, 1, 3, 0, 2, 3, 1);
    let m2_1_3_2_2_3_2 = mono(v, 2, 1, 3, 2, 2, 3, 2);
    let m2_1_1_4_2_1_1 = mono(v, 2, 1, 1, 4, 2, 1, 1);
    let m2_1_3_4_2_1_2 = mono(v, 2, 1, 3, 4, 2, 1, 2);
    let m2_1_1_4_2_3_2 = mono(v, 2, 1, 1, 4, 2, 3, 2);
    let m2_1_3_4_2_3_3 = mono(v, 2, 1, 3, 4, 2, 3, 3);
    let m2_1_2_3_1_2_1 = mono(v, 2, 1, 2, 3, 1, 2, 1);
    let m2_1_4_1_1_2_1 = mono(v, 2, 1, 4, 1, 1, 2, 1);
    let m2_1_4_3_1_2_2 = mono(v, 2, 1, 4, 3, 1, 2, 2);
    let m2_1_2_3_3_2_2 = mono(v, 2, 1, 2, 3, 3, 2, 2);
    let m2_1_4_1_3_2_2 = mono(v, 2, 1, 4, 1, 3, 2, 2);
    let m2_1_4_3_3_2_3 = mono(v, 2, 1, 4, 3, 3, 2, 3);
    lemma_mono_mul(v, 2, 1, 1, 0, 2, 1, 0, 0, 0, 0, 0, 0, 0, 0);
    lemma_mono_mul(v, 2, 1, 1, 0, 2, 1, 0, 0, 0, 0, 2, 0, 0, 0);
    lemma_mono_mul(v, 2, 1, 1, 0, 2, 1, 0, 0, 0, 2, 0, 0, 0, 0);
    lemma_mono_mul(v, 2, 1, 1, 0, 2, 1, 0, 0, 0, 2, 2, 0, 0, 1);
    lemma_mono_mul(v, 2, 1, 1, 0, 2, 3, 1, 0, 0, 0, 0, 0, 0, 0);
    lemma_mono_mul(v, 2, 1, 1, 0, 2, 3, 1, 0, 0, 0, 2, 0, 0, 0);
    lemma_mono_mul(v, 2, 1, 1, 0, 2, 3, 1, 0, 0, 2, 0, 0, 0, 0);
    lemma_mono_mul(v, 2, 1, 1, 0, 2, 3, 1, 0, 0, 2, 2, 0, 0, 1);
    lemma_mono_mul(v, 2, 1, 1, 2, 2, 1, 1, 0, 0, 0, 0, 0, 0, 0);
    lemma_mono_mul(v, 2, 1, 1, 2, 2, 1, 1, 0, 0, 0, 2, 0, 0, 0);
    lemma_mono_mul(v, 2, 1, 1, 2, 2, 1, 1, 0, 0, 2, 0, 0, 0, 0);
    lemma_mono_mul(v, 2, 1, 1, 2, 2, 1, 1, 0, 0, 2, 2, 0, 0, 1);
    lemma_mono_mul(v, 2, 1, 1, 2, 2, 3, 2, 0, 0, 0, 0, 0, 0, 0);
    lemma_mono_mul(v, 2, 1, 1, 2, 2, 3, 2, 0, 0, 0, 2, 0, 0, 0);
    lemma_mono_mul(v, 2, 1, 1, 2, 2, 3, 2, 0, 0, 2, 0, 0, 0, 0);
    lemma_mono_mul(v, 2, 1, 1, 2, 2, 3, 2, 0, 0, 2, 2, 0, 0, 1);
    lemma_mono_mul(v, 2, 1, 2, 1, 1, 2, 1, 0, 0, 0, 0, 0, 0, 0);
    lemma_mono_mul(v, 2, 1, 2, 1, 1, 2, 1, 0, 0, 0, 2, 0, 0, 0);
    lemma_mono_mul(v, 2, 1, 2, 1, 1, 2, 1, 0, 0, 2, 0, 0, 0, 0);
    lemma_mono_mul(v, 2, 1, 2, 1, 1, 2, 1, 0, 0, 2, 2, 0, 0, 1);
    lemma_mono_mul(v, 2, 1, 2, 1, 3, 2, 2, 0, 0, 0, 0, 0, 0, 0);
    lemma_mono_mul(v, 2, 1, 2, 1, 3, 2, 2, 0, 0, 0, 2, 0, 0, 0);
    lemma_mono_mul(v, 2, 1, 2, 1, 3, 2, 2, 0, 0, 2, 0, 0, 0, 0);
    lemma_mono_mul(v, 2, 1, 2, 1, 3, 2, 2, 0, 0, 2, 2, 0, 0, 1);
    let row0 = m2_1_1_0_2_1_0 * r;
    assert(row0 == -m2_1_1_0_2_1_0 + m2_1_1_2_2_1_0 - m2_1_3_0_2_1_0 - m2_1_3_2_2_1_1) by (nonlinear_arith)
        requires
            row0 == m2_1_1_0_2_1_0 * r,
            r == -m0_0_0_0_0_0_0 + m0_0_0_2_0_0_0 - m0_0_2_0_0_0_0 - m0_0_2_2_0_0_1,
            m2_1_1_0_2_1_0 * m0_0_0_0_0_0_0 == m2_1_1_0_2_1_0,
            m2_1_1_0_2_1_0 * m0_0_0_2_0_0_0 == m2_1_1_2_2_1_0,
            m2_1_1_0_2_1_0 * m0_0_2_0_0_0_0 == m2_1_3_0_2_1_0,
            m2_1_1_0_2_1_0 * m0_0_2_2_0_0_1 == m2_1_3_2_2_1_1,
    ;
    let row1 = m2_1_1_0_2_3_1 * r;
    assert(row1 == -m2_1_1_0_2_3_1 + m2_1_1_2_2_3_1 - m2_1_3_0_2_3_1 - m2_1_3_2_2_3_2) by (nonlinear_arith)
        requires
            row1 == m2_1_1_0_2_3_1 * r,
            r == -m0_0_0_0_0_0_0 + m0_0_0_2_0_0_0 - m0_0_2_0_0_0_0 - m0_0_2_2_0_0_1,
            m2_1_1_0_2_3_1 * m0_0_0_0_0_0_0 == m2_1_1_0_2_3_1,
            m2_1_1_0_2_3_1 * m0_0_0_2_0_0_0 == m2_1_1_2_2_3_1,
            m2_1_1_0_2_3_1 * m0_0_2_0_0_0_0 == m2_1_3_0_2_3_1,
            m2_1_1_0_2_3_1 * m0_0_2_2_0_0_1 == m2_1_3_2_2_3_2,
    ;
    let row2 = m2_1_1_2_2_1_1 * r;
    assert(row2 == -m2_1_1_2_2_1_1 + m2_1_1_4_2_1_1 - m2_1_3_2_2_1_1 - m2_1_3_4_2_1_2) by (nonlinear_arith)
        requires
            row2 == m2_1_1_2_2_1_1 * r,
            r == -m0_0_0_0_0_0_0 + m0_0_0_2_0_0_0 - m0_0_2_0_0_0_0 - m0_0_2_2_0_0_1,
            m2_1_1_2_2_1_1 * m0_0_0_0_0_0_0 == m2_1_1_2_2_1_1,
            m2_1_1_2_2_1_1 * m0_0_0_2_0_0_0 == m2_1_1_4_2_1_1,
            m2_1_1_2_2_1_1 * m0_0_2_0_0_0_0 == m2_1_3_2_2_1_1,
            m2_1_1_2_2_1_1 * m0_0_2_2_0_0_1 == m2_1_3_4_2_1_2,
    ;
    let row3 = m2_1_1_2_2_3_2 * r;
    assert(row3 == -m2_1_1_2_2_3_2 + m2_1_1_4_2_3_2 - m2_1_3_2_2_3_2 - m2_1_3_4_2_3_3) by (nonlinear_arith)
        requires
            row3 == m2_1_1_2_2_3_2 * r,
            r == -m0_0_0_0_0_0_0 + m0_0_0_2_0_0_0 - m0_0_2_0_0_0_0 - m0_0_2_2_0_0_1,
            m2_1_1_2_2_3_2 * m0_0_0_0_0_0_0 == m2_1_1_2_2_3_2,
            m2_1_1_2_2_3_2 * m0_0_0_2_0_0_0 == m2_1_1_4_2_3_2,
            m2_1_1_2_2_3_2 * m0_0_2_0_0_0_0 == m2_1_3_2_2_3_2,
            m2_1_1_2_2_3_2 * m0_0_2_2_0_0_1 == m2_1_3_4_2_3_3,
    ;
    let row4 = m2_1_2_1_1_2_1 * r;
    assert(row4 == -m2_1_2_1_1_2_1 + m2_1_2_3_1_2_1 - m2_1_4_1_1_2_1 - m2_1_4_3_1_2_2) by (nonlinear_arith)
        requires
            row4 == m2_1_2_1_1_2_1 * r,
            r == -m0_0_0_0_0_0_0 + m0_0_0_2_0_0_0 - m0_0_2_0_0_0_0 - m0_0_2_2_0_0_1,
            m2_1_2_1_1_2_1 * m0_0_0_0_0_0_0 == m2_1_2_1_1_2_1,
            m2_1_2_1_1_2_1 * m0_0_0_2_0_0_0 == m2_1_2_3_1_2_1,
            m2_1_2_1_1_2_1 * m0_0_2_0_0_0_0 == m2_1_4_1_1_2_1,
            m2_1_2_1_1_2_1 * m0_0_2_2_0_0_1 == m2_1_4_3_1_2_2,
    ;
    let row5 = m2_1_2_1_3_2_2 * r;
    assert(row5 == -m2_1_2_1_3_2_2 + m2_1_2_3_3_2_2 - m2_1_4_1_3_2_2 - m2_1_4_3_3_2_3) by (nonlinear_arith)
        requires
            row5 == m2_1_2_1_3_2_2 * r,
            r == -m0_0_0_0_0_0_0 + m0_0_0_2_0_0_0 - m0_0_2_0_0_0_0 - m0_0_2_2_0_0_1,
            m2_1_2_1_3_2_2 * m0_0_0_0_0_0_0 == m2_1_2_1_3_2_2,
            m2_1_2_1_3_2_2 * m0_0_0_2_0_0_0 == m2_1_2_3_3_2_2,
            m2_1_2_1_3_2_2 * m0_0_2_0_0_0_0 == m2_1_4_1_3_2_2,
            m2_1_2_1_3_2_2 * m0_0_2_2_0_0_1 == m2_1_4_3_3_2_3,
    ;
    assert(p * r == row0 + row1 - row2 - row3 - row4 + row5) by (nonlinear_arith)
        requires
            p == m2_1_1_0_2_1_0 + m2_1_1_0_2_3_1 - m2_1_1_2_2_1_1 - m2_1_1_2_2_3_2 -
                m2_1_2_1_1_2_1 + m2_1_2_1_3_2_2,
            row0 == m2_1_1_0_2_1_0 * r,
            row1 == m2_1_1_0_2_3_1 * r,
            row2 == m2_1_1_2_2_1_1 * r,
            row3 == m2_1_1_2_2_3_2 * r,
            row4 == m2_1_2_1_1_2_1 * r,
            row5 == m2_1_2_1_3_2_2 * r,
    ;
}

/// A cofactor times the defect of a point.
proof fn lemma_associative_product_80(v: Vars, p: int, r: int)
    requires
        p == mono(v, 3, 0, 0, 1, 0, 1, 0) - mono(v, 3, 0, 0, 1, 0, 3, 0) + mono(v, 3, 0, 0, 1, 2,
            1, 0) + mono(v, 3, 0, 0, 1, 2, 3, 1) + mono(v, 3, 0, 1, 0, 1, 0, 0) - mono(v, 3, 0,
            1, 0, 1, 2, 0),
        r == -mono(v, 0, 0, 0, 0, 0, 0, 0) + mono(v, 0, 0, 0, 2, 0, 0, 0) - mono(v, 0, 0, 2, 0,
            0, 0, 0) - mono(v, 0, 0, 2, 2, 0, 0, 1),
    ensures
        p * r == -mono(v, 3, 0, 0, 1, 0, 1, 0) + mono(v, 3, 0, 0, 1, 0, 3, 0) - mono(v, 3, 0, 0, 1,
            2, 1, 0) - mono(v, 3, 0, 0, 1, 2, 3, 1) + mono(v, 3, 0, 0, 3, 0, 1, 0) - mono(v, 3,
            0, 0, 3, 0, 3, 0) + mono(v, 3, 0, 0, 3, 2, 1, 0) + mono(v, 3, 0, 0, 3, 2, 3, 1) -
            mono(v, 3, 0, 1, 0, 1, 0, 0) + mono(v, 3, 0, 1, 0, 1, 2, 0) + mono(v, 3, 0, 1, 2, 1,
            0, 0) - mono(v, 3, 0, 1, 2, 1, 2, 0) - mono(v, 3, 0, 2, 1, 0, 1, 0) + mono(v, 3, 0,
            2, 1, 0, 3, 0) - mono(v, 3, 0, 2, 1, 2, 1, 0) - mono(v, 3, 0, 2, 1, 2, 3, 1) -
            mono(v, 3, 0, 2, 3, 0, 1, 1) + mono(v, 3, 0, 2, 3, 0, 3, 1) - mono(v, 3, 0, 2, 3, 2,
            1, 1) - mono(v, 3, 0, 2, 3, 2, 3, 2) - mono(v, 3, 0, 3, 0, 1, 0, 0) + mono(v, 3, 0,
            3, 0, 1, 2, 0) - mono(v, 3, 0, 3, 2, 1, 0, 1) + mono(v, 3, 0, 3, 2, 1, 2, 1),
{
    let m3_0_0_1_0_1_0 = mono(v, 3, 0, 0, 1, 0, 1, 0);
    let m3_0_0_1_0_3_0 = mono(v, 3, 0, 0, 1, 0, 3, 0);
    let m3_0_0_1_2_1_0 = mono(v, 3, 0, 0, 1, 2, 1, 0);
    let m3_0_0_1_2_3_1 = mono(v, 3, 0, 0, 1, 2, 3, 1);
    let m3_0_1_0_1_0_0 = mono(v, 3, 0, 1, 0, 1, 0, 0);
    let m3_0_1_0_1_2_0 = mono(v, 3, 0, 1, 0, 1, 2, 0);
    let m0_0_0_0_0_0_0 = mono(v, 0, 0, 0, 0, 0, 0, 0);
    let m0_0_0_2_0_0_0 = mono(v, 0, 0, 0, 2, 0, 0, 0);
    let m0_0_2_0_0_0_0 = mono(v, 0, 0, 2, 0, 0, 0, 0);
    let m0_0_2_2_0_0_1 = mono(v, 0, 0, 2, 2, 0, 0, 1);
    let m3_0_0_3_0_1_0 = mono(v, 3, 0, 0, 3, 0, 1, 0);
    let m3_0_2_1_0_1_0 = mono(v, 3, 0, 2, 1, 0, 1, 0);
    let m3_0_2_3_0_1_1 = mono(v, 3, 0, 2, 3, 0, 1, 1);
    let m3_0_0_3_0_3_0 = mono(v, 3, 0, 0, 3, 0, 3, 0);
    let m3_0_2_1_0_3_0 = mono(v, 3, 0, 2, 1, 0, 3, 0);
    let m3_0_2_3_0_3_1 = mono(v, 3, 0, 2, 3, 0, 3, 1);
    let m3_0_0_3_2_1_0 = mono(v, 3, 0, 0, 3, 2, 1, 0);
    let m3_0_2_1_2_1_0 = mono(v, 3, 0, 2, 1, 2, 1, 0);
    let m3_0_2_3_2_1_1 = mono(v, 3, 0, 2, 3, 2, 1, 1);
    let m3_0_0_3_2_3_1 = mono(v, 3, 0, 0, 3, 2, 3, 1);
    let m3_0_2_1_2_3_1 = mono(v, 3, 0, 2, 1, 2, 3, 1);
    let m3_0_2_3_2_3_2 = mono(v, 3, 0, 2, 3, 2, 3, 2);
    let m3_0_1_2_1_0_0 = mono(v, 3, 0, 1, 2, 1, 0, 0);
    let m3_0_3_0_1_0_0 = mono(v, 3, 0, 3, 0, 1, 0, 0);
    let m3_0_3_2_1_0_1 = mono(v, 3, 0, 3, 2, 1, 0, 1);
    let m3_0_1_2_1_2_0 = mono(v, 3, 0, 1, 2, 1, 2, 0);
    let m3_0_3_0_1_2_0 = mono(v, 3, 0, 3, 0, 1, 2, 0);
    let m3_0_3_2_1_2_1 = mono(v, 3, 0, 3, 2, 1, 2, 1);
    lemma_mono_mul(v, 3, 0, 0, 1, 0, 1, 0, 0, 0, 0, 0, 0, 0, 0);
    lemma_mono_mul(v, 3, 0, 0, 1, 0, 1, 0, 0, 0, 0, 2, 0, 0, 0);
    lemma_mono_mul(v, 3, 0, 0, 1, 0, 1, 0, 0, 0, 2, 0, 0, 0, 0);
    lemma_mono_mul(v, 3, 0, 0, 1, 0, 1, 0, 0, 0, 2, 2, 0, 0, 1);
    lemma_mono_mul(v, 3, 0, 0, 1, 0, 3, 0, 0, 0, 0, 0, 0, 0, 0);
    lemma_mono_mul(v, 3, 0, 0, 1, 0, 3, 0, 0, 0, 0, 2, 0, 0, 0);
    lemma_mono_mul(v, 3, 0, 0, 1, 0, 3, 0, 0, 0, 2, 0, 0, 0, 0);
    lemma_mono_mul(v, 3, 0, 0, 1, 0, 3, 0, 0, 0, 2, 2, 0, 0, 1);
    lemma_mono_mul(v, 3, 0, 0, 1, 2, 1, 0, 0, 0, 0, 0, 0, 0, 0);
    lemma_mono_mul(v, 3, 0, 0, 1, 2, 1, 0, 0, 0, 0, 2, 0, 0, 0);
    lemma_mono_mul(v, 3, 0, 0, 1, 2, 1, 0, 0, 0, 2, 0, 0, 0, 0);
    lemma_mono_mul(v, 3, 0, 0, 1, 2, 1, 0, 0, 0, 2, 2, 0, 0, 1);
    lemma_mono_mul(v, 3, 0, 0, 1, 2, 3, 1, 0, 0, 0, 0, 0, 0, 0);
    lemma_mono_mul(v, 3, 0, 0, 1, 2, 3, 1, 0, 0, 0, 2, 0, 0, 0);
    lemma_mono_mul(v, 3, 0, 0, 1, 2, 3, 1, 0, 0, 2, 0, 0, 0, 0);
    lemma_mono_mul(v, 3, 0, 0, 1, 2, 3, 1, 0, 0, 2, 2, 0, 0, 1);
    lemma_mono_mul(v, 3, 0, 1, 0, 1, 0, 0, 0, 0, 0, 0, 0, 0, 0);
    lemma_mono_mul(v, 3, 0, 1, 0, 1, 0, 0, 0, 0, 0, 2, 0, 0, 0);
    lemma_mono_mul(v, 3, 0, 1, 0, 1, 0, 0, 0, 0, 2, 0, 0, 0, 0);
    lemma_mono_mul(v, 3, 0, 1, 0, 1, 0, 0, 0, 0, 2, 2, 0, 0, 1);
    lemma_mono_mul(v, 3, 0, 1, 0, 1, 2, 0, 0, 0, 0, 0, 0, 0, 0);
    lemma_mono_mul(v, 3, 0, 1, 0, 1, 2, 0, 0, 0, 0, 2, 0, 0, 0);
    lemma_mono_mul(v, 3, 0, 1, 0, 1, 2, 0, 0, 0, 2, 0, 0, 0, 0);
    lemma_mono_mul(v, 3, 0, 1, 0, 1, 2, 0, 0, 0, 2, 2, 0, 0, 1);
    let row0 = m3_0_0_1_0_1_0 * r;
    assert(row0 == -m3_0_0_1_0_1_0 + m3_0_0_3_0_1_0 - m3_0_2_1_0_1_0 - m3_0_2_3_0_1_1) by (nonlinear_arith)
        requires
            row0 == m3_0_0_1_0_1_0 * r,
            r == -m0_0_0_0_0_0_0 + m0_0_0_2_0_0_0 - m0_0_2_0_0_0_0 - m0_0_2_2_0_0_1,
            m3_0_0_1_0_1_0 * m0_0_0_0_0_0_0 == m3_0_0_1_0_1_0,
            m3_0_0_1_0_1_0 * m0_0_0_2_0_0_0 == m3_0_0_3_0_1_0,
            m3_0_0_1_0_1_0 * m0_0_2_0_0_0_0 == m3_0_2_1_0_1_0,
            m3_0_0_1_0_1_0 * m0_0_2_2_0_0_1 == m3_0_2_3_0_1_1,
    ;
    let row1 = m3_0_0_1_0_3_0 * r;
    assert(row1 == -m3_0_0_1_0_3_0 + m3_0_0_3_0_3_0 - m3_0_2_1_0_3_0 - m3_0_2_3_0_3_1) by (nonlinear_arith)
        requires
            row1 == m3_0_0_1_0_3_0 * r,
            r == -m0_0_0_0_0_0_0 + m0_0_0_2_0_0_0 - m0_0_2_0_0_0_0 - m0_0_2_2_0_0_1,
            m3_0_0_1_0_3_0 * m0_0_0_0_0_0_0 == m3_0_0_1_0_3_0,
            m3_0_0_1_0_3_0 * m0_0_0_2_0_0_0 == m3_0_0_3_0_3_0,
            m3_0_0_1_0_3_0 * m0_0_2_0_0_0_0 == m3_0_2_1_0_3_0,
            m3_0_0_1_0_3_0 * m0_0_2_2_0_0_1 == m3_0_2_3_0_3_1,
    ;
    let row2 = m3_0_0_1_2_1_0 * r;
    assert(row2 == -m3_0_0_1_2_1_0 + m3_0_0_3_2_1_0 - m3_0_2_1_2_1_0 - m3_0_2_3_2_1_1) by (nonlinear_arith)
        requires
            row2 == m3_0_0_1_2_1_0 * r,
            r == -m0_0_0_0_0_0_0 + m0_0_0_2_0_0_0 - m0_0_2_0_0_0_0 - m0_0_2_2_0_0_1,
            m3_0_0_1_2_1_0 * m0_0_0_0_0_0_0 == m3_0_0_1_2_1_0,
            m3_0_0_1_2_1_0 * m0_0_0_2_0_0_0 == m3_0_0_3_2_1_0,
            m3_0_0_1_2_1_0 * m0_0_2_0_0_0_0 == m3_0_2_1_2_1_0,
            m3_0_0_1_2_1_0 * m0_0_2_2_0_0_1 == m3_0_2_3_2_1_1,
    ;
    let row3 = m3_0_0_1_2_3_1 * r;
    assert(row3 == -m3_0_0_1_2_3_1 + m3_0_0_3_2_3_1 - m3_0_2_1_2_3_1 - m3_0_2_3_2_3_2) by (nonlinear_arith)
        requires
            row3 == m3_0_0_1_2_3_1 * r,
            r == -m0_0_0_0_0_0_0 + m0_0_0_2_0_0_0 - m0_0_2_0_0_0_0 - m0_0_2_2_0_0_1,
            m3_0_0_1_2_3_1 * m0_0_0_0_0_0_0 == m3_0_0_1_2_3_1,
            m3_0_0_1_2_3_1 * m0_0_0_2_0_0_0 == m3_0_0_3_2_3_1,
            m3_0_0_1_2_3_1 * m0_0_2_0_0_0_0 == m3_0_2_1_2_3_1,
            m3_0_0_1_2_3_1 * m0_0_2_2_0_0_1 == m3_0_2_3_2_3_2,
    ;
    let row4 = m3_0_1_0_1_0_0 * r;
    assert(row4 == -m3_0_1_0_1_0_0 + m3_0_1_2_1_0_0 - m3_0_3_0_1_0_0 - m3_0_3_2_1_0_1) by (nonlinear_arith)
        requires
            row4 == m3_0_1_0_1_0_0 * r,
            r == -m0_0_0_0_0_0_0 + m0_0_0_2_0_0_0 - m0_0_2_0_0_0_0 - m0_0_2_2_0_0_1,
            m3_0_1_0_1_0_0 * m0_0_0_0_0_0_0 == m3_0_1_0_1_0_0,
            m3_0_1_0_1_0_0 * m0_0_0_2_0_0_0 == m3_0_1_2_1_0_0,
            m3_0_1_0_1_0_0 * m0_0_2_0_0_0_0 == m3_0_3_0_1_0_0,
            m3_0_1_0_1_0_0 * m0_0_2_2_0_0_1 == m3_0_3_2_1_0_1,
    ;
    let row5 = m3_0_1_0_1_2_0 * r;
    assert(row5 == -m3_0_1_0_1_2_0 + m3_0_1_2_1_2_0 - m3_0_3_0_1_2_0 - m3_0_3_2_1_2_1) by (nonlinear_arith)
        requires
            row5 == m3_0_1_0_1_2_0 * r,
            r == -m0_0_0_0_0_0_0 + m0_0_0_2_0_0_0 - m0_0_2_0_0_0_0 - m0_0_2_2_0_0_1,
            m3_0_1_0_1_2_0 * m0_0_0_0_0_0_0 == m3_0_1_0_1_2_0,
            m3_0_1_0_1_2_0 * m0_0_0_2_0_0_0 == m3_0_1_2_1_2_0,
            m3_0_1_0_1_2_0 * m0_0_2_0_0_0_0 == m3_0_3_0_1_2_0,
            m3_0_1_0_1_2_0 * m0_0_2_2_0_0_1 == m3_0_3_2_1_2_1,
    ;
    assert(p * r == row0 - row1 + row2 + row3 + row4 - row5) by (nonlinear_arith)
        requires
            p == m3_0_0_1_0_1_0 - m3_0_0_1_0_3_0 + m3_0_0_1_2_1_0 + m3_0_0_1_2_3_1 +
                m3_0_1_0_1_0_0 - m3_0_1_0_1_2_0,
            row0 == m3_0_0_1_0_1_0 * r,
            row1 == m3_0_0_1_0_3_0 * r,
            row2 == m3_0_0_1_2_1_0 * r,
            row3 == m3_0_0_1_2_3_1 * r,
            row4 == m3_0_1_0_1_0_0 * r,
            row5 == m3_0_1_0_1_2_0 * r,
    ;
}

/// A cofactor times the defect of a point.
proof fn lemma_associative_product_81(v: Vars, p: int, r: int)
    requires
        p == mono(v, 3, 0, 1, 0, 3, 0, 0) + mono(v, 3, 0, 1, 0, 3, 2, 1) + mono(v, 3, 0, 1, 2, 1,
            2, 1) + mono(v, 3, 0, 2, 1, 2, 1, 1),
        r == -mono(v, 0, 0, 0, 0, 0, 0, 0) + mono(v, 0, 0, 0, 2, 0, 0, 0) - mono(v, 0, 0, 2, 0,
            0, 0, 0) - mono(v, 0, 0, 2, 2, 0, 0, 1),
    ensures
        p * r == -mono(v, 3, 0, 1, 0, 3, 0, 0) - mono(v, 3, 0, 1, 0, 3, 2, 1) - mono(v, 3, 0, 1, 2,
            1, 2, 1) + mono(v, 3, 0, 1, 2, 3, 0, 0) + mono(v, 3, 0, 1, 2, 3, 2, 1) + mono(v, 3,
            0, 1, 4, 1, 2, 1) - mono(v, 3, 0, 2, 1, 2, 1, 1) + mono(v, 3, 0, 2, 3, 2, 1, 1) -
            mono(v, 3, 0, 3, 0, 3, 0, 0) - mono(v, 3, 0, 3, 0, 3, 2, 1) - mono(v, 3, 0, 3, 2, 1,
            2, 1) - mono(v, 3, 0, 3, 2, 3, 0, 1) - mono(v, 3, 0, 3, 2, 3, 2, 2) - mono(v, 3, 0,
            3, 4, 1, 2, 2) - mono(v, 3, 0, 4, 1, 2, 1, 1) - mono(v, 3, 0, 4, 3, 2, 1, 2),
{
    let m3_0_1_0_3_0_0 = mono(v, 3, 0, 1, 0, 3, 0, 0);
    let m3_0_1_0_3_2_1 = mono(v, 3, 0, 1, 0, 3, 2, 1);
    let m3_0_1_2_1_2_1 = mono(v, 3, 0, 1, 2, 1, 2, 1);
    let m3_0_2_1_2_1_1 = mono(v, 3, 0, 2, 1, 2, 1, 1);
    let m0_0_0_0_0_0_0 = mono(v, 0, 0, 0, 0, 0, 0, 0);
    let m0_0_0_2_0_0_0 = mono(v, 0, 0, 0, 2, 0, 0, 0);
    let m0_0_2_0_0_0_0 = mono(v, 0, 0, 2, 0, 0, 0, 0);
    let m0_0_2_2_0_0_1 = mono(v, 0, 0, 2, 2, 0, 0, 1);
    let m3_0_1_2_3_0_0 = mono(v, 3, 0, 1, 2, 3, 0, 0);
    let m3_0_3_0_3_0_0 = mono(v, 3, 0, 3, 0, 3, 0, 0);
    let m3_0_3_2_3_0_1 = mono(v, 3, 0, 3, 2, 3, 0, 1);
    let m3_0_1_2_3_2_1 = mono(v, 3, 0, 1, 2, 3, 2, 1);
    let m3_0_3_0_3_2_1 = mono(v, 3, 0, 3, 0, 3, 2, 1);
    let m3_0_3_2_3_2_2 = mono(v, 3, 0, 3, 2, 3, 2, 2);
    let m3_0_1_4_1_2_1 = mono(v, 3, 0, 1, 4, 1, 2, 1);
    let m3_0_3_2_1_2_1 = mono(v, 3, 0, 3, 2, 1, 2, 1);
    let m3_0_3_4_1_2_2 = mono(v, 3, 0, 3, 4, 1, 2, 2);
    let m3_0_2_3_2_1_1 = mono(v, 3, 0, 2, 3, 2, 1, 1);
    let m3_0_4_1_2_1_1 = mono(v, 3, 0, 4, 1, 2, 1, 1);
    let m3_0_4_3_2_1_2 = mono(v, 3, 0, 4, 3, 2, 1, 2);
    lemma_mono_mul(v, 3, 0, 1, 0, 3, 0, 0, 0, 0, 0, 0, 0, 0, 0);
    lemma_mono_mul(v, 3, 0, 1, 0, 3, 0, 0, 0, 0, 0, 2, 0, 0, 0);
    lemma_mono_mul(v, 3, 0, 1, 0, 3, 0, 0, 0, 0, 2, 0, 0, 0, 0);
    lemma_mono_mul(v, 3, 0, 1, 0, 3, 0, 0, 0, 0, 2, 2, 0, 0, 1);
    lemma_mono_mul(v, 3, 0, 1, 0, 3, 2, 1, 0, 0, 0, 0, 0, 0, 0);
    lemma_mono_mul(v, 3, 0, 1, 0, 3, 2, 1, 0, 0, 0, 2, 0, 0, 0);
    lemma_mono_mul(v, 3, 0, 1, 0, 3, 2, 1, 0, 0, 2, 0, 0, 0, 0);
    lemma_mono_mul(v, 3, 0, 1, 0, 3, 2, 1, 0, 0, 2, 2, 0, 0, 1);
    lemma_mono_mul(v, 3, 0, 1, 2, 1, 2, 1, 0, 0, 0, 0, 0, 0, 0);
    lemma_mono_mul(v, 3, 0, 1, 2, 1, 2, 1, 0, 0, 0, 2, 0, 0, 0);
    lemma_mono_mul(v, 3, 0, 1, 2, 1, 2, 1, 0, 0, 2, 0, 0, 0, 0);
    lemma_mono_mul(v, 3, 0, 1, 2, 1, 2, 1, 0, 0, 2, 2, 0, 0, 1);
    lemma_mono_mul(v, 3, 0, 2, 1, 2, 1, 1, 0, 0, 0, 0, 0, 0, 0);
    lemma_mono_mul(v, 3, 0, 2, 1, 2, 1, 1, 0, 0, 0, 2, 0, 0, 0);
    lemma_mono_mul(v, 3, 0, 2, 1, 2, 1, 1, 0, 0, 2, 0, 0, 0, 0);
    lemma_mono_mul(v, 3, 0, 2, 1, 2, 1, 1, 0, 0, 2, 2, 0, 0, 1);
    let row0 = m3_0_1_0_3_0_0 * r;
    assert(row0 == -m3_0_1_0_3_0_0 + m3_0_1_2_3_0_0 - m3_0_3_0_3_0_0 - m3_0_3_2_3_0_1) by (nonlinear_arith)
        requires
            row0 == m3_0_1_0_3_0_0 * r,
            r == -m0_0_0_0_0_0_0 + m0_0_0_2_0_0_0 - m0_0_2_0_0_0_0 - m0_0_2_2_0_0_1,
            m3_0_1_0_3_0_0 * m0_0_0_0_0_0_0 == m3_0_1_0_3_0_0,
            m3_0_1_0_3_0_0 * m0_0_0_2_0_0_0 == m3_0_1_2_3_0_0,
            m3_0_1_0_3_0_0 * m0_0_2_0_0_0_0 == m3_0_3_0_3_0_0,
            m3_0_1_0_3_0_0 * m0_0_2_2_0_0_1 == m3_0_3_2_3_0_1,
    ;
    let row1 = m3_0_1_0_3_2_1 * r;
    assert(row1 == -m3_0_1_0_3_2_1 + m3_0_1_2_3_2_1 - m3_0_3_0_3_2_1 - m3_0_3_2_3_2_2) by (nonlinear_arith)
        requires
            row1 == m3_0_1_0_3_2_1 * r,
            r == -m0_0_0_0_0_0_0 + m0_0_0_2_0_0_0 - m0_0_2_0_0_0_0 - m0_0_2_2_0_0_1,
            m3_0_1_0_3_2_1 * m0_0_0_0_0_0_0 == m3_0_1_0_3_2_1,
            m3_0_1_0_3_2_1 * m0_0_0_2_0_0_0 == m3_0_1_2_3_2_1,
            m3_0_1_0_3_2_1 * m0_0_2_0_0_0_0 == m3_0_3_0_3_2_1,
            m3_0_1_0_3_2_1 * m0_0_2_2_0_0_1 == m3_0_3_2_3_2_2,
    ;
    let row2 = m3_0_1_2_1_2_1 * r;
    assert(row2 == -m3_0_1_2_1_2_1 + m3_0_1_4_1_2_1 - m3_0_3_2_1_2_1 - m3_0_3_4_1_2_2) by (nonlinear_arith)
        requires
            row2 == m3_0_1_2_1_2_1 * r,
            r == -m0_0_0_0_0_0_0 + m0_0_0_2_0_0_0 - m0_0_2_0_0_0_0 - m0_0_2_2_0_0_1,
            m3_0_1_2_1_2_1 * m0_0_0_0_0_0_0 == m3_0_1_2_1_2_1,
            m3_0_1_2_1_2_1 * m0_0_0_2_0_0_0 == m3_0_1_4_1_2_1,
            m3_0_1_2_1_2_1 * m0_0_2_0_0_0_0 == m3_0_3_2_1_2_1,
            m3_0_1_2_1_2_1 * m0_0_2_2_0_0_1 == m3_0_3_4_1_2_2,
    ;
    let row3 = m3_0_2_1_2_1_1 * r;
    assert(row3 == -m3_0_2_1_2_1_1 + m3_0_2_3_2_1_1 - m3_0_4_1_2_1_1 - m3_0_4_3_2_1_2) by (nonlinear_arith)
        requires
            row3 == m3_0_2_1_2_1_1 * r,
            r == -m0_0_0_0_0_0_0 + m0_0_0_2_0_0_0 - m0_0_2_0_0_0_0 - m0_0_2_2_0_0_1,
            m3_0_2_1_2_1_1 * m0_0_0_0_0_0_0 == m3_0_2_1_2_1_1,
            m3_0_2_1_2_1_1 * m0_0_0_2_0_0_0 == m3_0_2_3_2_1_1,
            m3_0_2_1_2_1_1 * m0_0_2_0_0_0_0 == m3_0_4_1_2_1_1,
            m3_0_2_1_2_1_1 * m0_0_2_2_0_0_1 == m3_0_4_3_2_1_2,
    ;
    assert(p * r == row0 + row1 + row2 + row3) by (nonlinear_arith)
        requires
            p == m3_0_1_0_3_0_0 + m3_0_1_0_3_2_1 + m3_0_1_2_1_2_1 + m3_0_2_1_2_1_1,
            row0 == m3_0_1_0_3_0_0 * r,
            row1 == m3_0_1_0_3_2_1 * r,
            row2 == m3_0_1_2_1_2_1 * r,
            row3 == m3_0_2_1_2_1_1 * r,
    ;
}

/// A cofactor times the defect of a point.
proof fn lemma_associative_product_82(v: Vars, p: int, r: int)
    requires
        p == mono(v, 0, 1, 0, 1, 1, 0, 0) - mono(v, 0, 1, 0, 1, 1, 2, 0) + mono(v, 0, 1, 0, 1, 3,
            0, 0) + mono(v, 0, 1, 0, 1, 3, 2, 1) + mono(v, 0, 1, 1, 0, 0, 1, 0) - mono(v, 0, 1,
            1, 0, 0, 3, 0) + mono(v, 0, 1, 1, 0, 2, 1, 0) + mono(v, 0, 1, 1, 0, 2, 3, 1) -
            mono(v, 0, 1, 1, 2, 2, 1, 1) - mono(v, 0, 1, 2, 1, 1, 2, 1) - mono(v, 0, 3, 0, 1, 1,
            0, 0) + mono(v, 0, 3, 0, 1, 1, 2, 0) - mono(v, 0, 3, 0, 1, 3, 0, 0) - mono(v, 0, 3,
            0, 1, 3, 2, 1) - mono(v, 0, 3, 1, 0, 0, 1, 0) + mono(v, 0, 3, 1, 0, 0, 3, 0) -
            mono(v, 0, 3, 1, 0, 2, 1, 0) - mono(v, 0, 3, 1, 0, 2, 3, 1) + mono(v, 0, 3, 1, 2, 2,
            1, 1) + mono(v, 0, 3, 2, 1, 1, 2, 1) + mono(v, 1, 0, 0, 1, 0, 1, 0) - mono(v, 1, 0,
            0, 1, 0, 3, 0) + mono(v, 1, 0, 0, 1, 2, 1, 0) + mono(v, 1, 0, 0, 1, 2, 3, 1) +
            mono(v, 1, 0, 1, 0, 1, 0, 0) - mono(v, 1, 0, 1, 0, 1, 2, 0) + mono(v, 1, 0, 1, 0, 3,
            0, 0) + mono(v, 1, 0, 1, 0, 3, 2, 1) + mono(v, 1, 0, 1, 2, 1, 2, 1) + mono(v, 1, 0,
            2, 1, 2, 1, 1) - mono(v, 1, 2, 0, 1, 0, 1, 0) + mono(v, 1, 2, 0, 1, 0, 3, 0) -
            mono(v, 1, 2, 0, 1, 2, 1, 0) - mono(v, 1, 2, 0, 1, 2, 3, 1) - mono(v, 1, 2, 1, 0, 1,
            0, 0) + mono(v, 1, 2, 1, 0, 1, 2, 0) - mono(v, 1, 2, 1, 0, 3, 0, 0) - mono(v, 1, 2,
            1, 0, 3, 2, 1) - mono(v, 1, 2, 1, 2, 1, 2, 1) + mono(v, 1, 2, 1, 2, 3, 2, 2) -
            mono(v, 1, 2, 2, 1, 2, 1, 1) - mono(v, 1, 2, 2, 1, 2, 3, 2) + mono(v, 2, 1, 0, 1, 1,
            0, 0) - mono(v, 2, 1, 0, 1, 1, 2, 0) + mono(v, 2, 1, 0, 1, 3, 0, 0) + mono(v, 2, 1,
            0, 1, 3, 2, 1) + mono(v, 2, 1, 1, 0, 0, 1, 0) - mono(v, 2, 1, 1, 0, 0, 3, 0) +
            mono(v, 2, 1, 1, 0, 2, 1, 0) + mono(v, 2, 1, 1, 0, 2, 3, 1) - mono(v, 2, 1, 1, 2, 2,
            1, 1) - mono(v, 2, 1, 1, 2, 2, 3, 2) - mono(v, 2, 1, 2, 1, 1, 2, 1) + mono(v, 2, 1,
            2, 1, 3, 2, 2) + mono(v, 3, 0, 0, 1, 0, 1, 0) - mono(v, 3, 0, 0, 1, 0, 3, 0) +
            mono(v, 3, 0, 0, 1, 2, 1, 0) + mono(v, 3, 0, 0, 1, 2, 3, 1) + mono(v, 3, 0, 1, 0, 1,
            0, 0) - mono(v, 3, 0, 1, 0, 1, 2, 0) + mono(v, 3, 0, 1, 0, 3, 0, 0) + mono(v, 3, 0,
            1, 0, 3, 2, 1) + mono(v, 3, 0, 1, 2, 1, 2, 1) + mono(v, 3, 0, 2, 1, 2, 1, 1),
        r == -mono(v, 0, 0, 0, 0, 0, 0, 0) + mono(v, 0, 0, 0, 2, 0, 0, 0) - mono(v, 0, 0, 2, 0,
            0, 0, 0) - mono(v, 0, 0, 2, 2, 0, 0, 1),
    ensures
        p * r == -mono(v, 0, 1, 0, 1, 1, 0, 0) + mono(v, 0, 1, 0, 1, 1, 2, 0) - mono(v, 0, 1, 0, 1,
            3, 0, 0) - mono(v, 0, 1, 0, 1, 3, 2, 1) + mono(v, 0, 1, 0, 3, 1, 0, 0) - mono(v, 0,
            1, 0, 3, 1, 2, 0) + mono(v, 0, 1, 0, 3, 3, 0, 0) + mono(v, 0, 1, 0, 3, 3, 2, 1) -
            mono(v, 0, 1, 1, 0, 0, 1, 0) + mono(v, 0, 1, 1, 0, 0, 3, 0) - mono(v, 0, 1, 1, 0, 2,
            1, 0) - mono(v, 0, 1, 1, 0, 2, 3, 1) + mono(v, 0, 1, 1, 2, 0, 1, 0) - mono(v, 0, 1,
            1, 2, 0, 3, 0) + mono(v, 0, 1, 1, 2, 2, 1, 0) + mono(v, 0, 1, 1, 2, 2, 1, 1) +
            mono(v, 0, 1, 1, 2, 2, 3, 1) - mono(v, 0, 1, 1, 4, 2, 1, 1) - mono(v, 0, 1, 2, 1, 1,
            0, 0) + mono(v, 0, 1, 2, 1, 1, 2, 0) + mono(v, 0, 1, 2, 1, 1, 2, 1) - mono(v, 0, 1,
            2, 1, 3, 0, 0) - mono(v, 0, 1, 2, 1, 3, 2, 1) - mono(v, 0, 1, 2, 3, 1, 0, 1) -
            mono(v, 0, 1, 2, 3, 3, 0, 1) - mono(v, 0, 1, 2, 3, 3, 2, 2) - mono(v, 0, 1, 3, 0, 0,
            1, 0) + mono(v, 0, 1, 3, 0, 0, 3, 0) - mono(v, 0, 1, 3, 0, 2, 1, 0) - mono(v, 0, 1,
            3, 0, 2, 3, 1) - mono(v, 0, 1, 3, 2, 0, 1, 1) + mono(v, 0, 1, 3, 2, 0, 3, 1) -
            mono(v, 0, 1, 3, 2, 2, 3, 2) + mono(v, 0, 1, 3, 4, 2, 1, 2) + mono(v, 0, 1, 4, 1, 1,
            2, 1) + mono(v, 0, 1, 4, 3, 1, 2, 2) + mono(v, 0, 3, 0, 1, 1, 0, 0) - mono(v, 0, 3,
            0, 1, 1, 2, 0) + mono(v, 0, 3, 0, 1, 3, 0, 0) + mono(v, 0, 3, 0, 1, 3, 2, 1) -
            mono(v, 0, 3, 0, 3, 1, 0, 0) + mono(v, 0, 3, 0, 3, 1, 2, 0) - mono(v, 0, 3, 0, 3, 3,
            0, 0) - mono(v, 0, 3, 0, 3, 3, 2, 1) + mono(v, 0, 3, 1, 0, 0, 1, 0) - mono(v, 0, 3,
            1, 0, 0, 3, 0) + mono(v, 0, 3, 1, 0, 2, 1, 0) + mono(v, 0, 3, 1, 0, 2, 3, 1) -
            mono(v, 0, 3, 1, 2, 0, 1, 0) + mono(v, 0, 3, 1, 2, 0, 3, 0) - mono(v, 0, 3, 1, 2, 2,
            1, 0) - mono(v, 0, 3, 1, 2, 2, 1, 1) - mono(v, 0, 3, 1, 2, 2, 3, 1) + mono(v, 0, 3,
            1, 4, 2, 1, 1) + mono(v, 0, 3, 2, 1, 1, 0, 0) - mono(v, 0, 3, 2, 1, 1, 2, 0) -
            mono(v, 0, 3, 2, 1, 1, 2, 1) + mono(v, 0, 3, 2, 1, 3, 0, 0) + mono(v, 0, 3, 2, 1, 3,
            2, 1) + mono(v, 0, 3, 2, 3, 1, 0, 1) + mono(v, 0, 3, 2, 3, 3, 0, 1) + mono(v, 0, 3,
            2, 3, 3, 2, 2) + mono(v, 0, 3, 3, 0, 0, 1, 0) - mono(v, 0, 3, 3, 0, 0, 3, 0) +
            mono(v, 0, 3, 3, 0, 2, 1, 0) + mono(v, 0, 3, 3, 0, 2, 3, 1) + mono(v, 0, 3, 3, 2, 0,
            1, 1) - mono(v, 0, 3, 3, 2, 0, 3, 1) + mono(v, 0, 3, 3, 2, 2, 3, 2) - mono(v, 0, 3,
            3, 4, 2, 1, 2) - mono(v, 0, 3, 4, 1, 1, 2, 1) - mono(v, 0, 3, 4, 3, 1, 2, 2) -
            mono(v, 1, 0, 0, 1, 0, 1, 0) + mono(v, 1, 0, 0, 1, 0, 3, 0) - mono(v, 1, 0, 0, 1, 2,
            1, 0) - mono(v, 1, 0, 0, 1, 2, 3, 1) + mono(v, 1, 0, 0, 3, 0, 1, 0) - mono(v, 1, 0,
            0, 3, 0, 3, 0) + mono(v, 1, 0, 0, 3, 2, 1, 0) + mono(v, 1, 0, 0, 3, 2, 3, 1) -
            mono(v, 1, 0, 1, 0, 1, 0, 0) + mono(v, 1, 0, 1, 0, 1, 2, 0) - mono(v, 1, 0, 1, 0, 3,
            0, 0) - mono(v, 1, 0, 1, 0, 3, 2, 1) + mono(v, 1, 0, 1, 2, 1, 0, 0) - mono(v, 1, 0,
            1, 2, 1, 2, 0) - mono(v, 1, 0, 1, 2, 1, 2, 1) + mono(v, 1, 0, 1, 2, 3, 0, 0) +
            mono(v, 1, 0, 1, 2, 3, 2, 1) + mono(v, 1, 0, 1, 4, 1, 2, 1) - mono(v, 1, 0, 2, 1, 0,
            1, 0) + mono(v, 1, 0, 2, 1, 0, 3, 0) - mono(v, 1, 0, 2, 1, 2, 1, 0) - mono(v, 1, 0,
            2, 1, 2, 1, 1) - mono(v, 1, 0, 2, 1, 2, 3, 1) - mono(v, 1, 0, 2, 3, 0, 1, 1) +
            mono(v, 1, 0, 2, 3, 0, 3, 1) - mono(v, 1, 0, 2, 3, 2, 3, 2) - mono(v, 1, 0, 3, 0, 1,
            0, 0) + mono(v, 1, 0, 3, 0, 1, 2, 0) - mono(v, 1, 0, 3, 0, 3, 0, 0) - mono(v, 1, 0,
            3, 0, 3, 2, 1) - mono(v, 1, 0, 3, 2, 1, 0, 1) - mono(v, 1, 0, 3, 2, 3, 0, 1) -
            mono(v, 1, 0, 3, 2, 3, 2, 2) - mono(v, 1, 0, 3, 4, 1, 2, 2) - mono(v, 1, 0, 4, 1, 2,
            1, 1) - mono(v, 1, 0, 4, 3, 2, 1, 2) + mono(v, 1, 2, 0, 1, 0, 1, 0) - mono(v, 1, 2,
            0, 1, 0, 3, 0) + mono(v, 1, 2, 0, 1, 2, 1, 0) + mono(v, 1, 2, 0, 1, 2, 3, 1) -
            mono(v, 1, 2, 0, 3, 0, 1, 0) + mono(v, 1, 2, 0, 3, 0, 3, 0) - mono(v, 1, 2, 0, 3, 2,
            1, 0) - mono(v, 1, 2, 0, 3, 2, 3, 1) + mono(v, 1, 2, 1, 0, 1, 0, 0) - mono(v, 1, 2,
            1, 0, 1, 2, 0) + mono(v, 1, 2, 1, 0, 3, 0, 0) + mono(v, 1, 2, 1, 0, 3, 2, 1) -
            mono(v, 1, 2, 1, 2, 1, 0, 0) + mono(v, 1, 2, 1, 2, 1, 2, 0) + mono(v, 1, 2, 1, 2, 1,
            2, 1) - mono(v, 1, 2, 1, 2, 3, 0, 0) - mono(v, 1, 2, 1, 2, 3, 2, 1) - mono(v, 1, 2,
            1, 2, 3, 2, 2) - mono(v, 1, 2, 1, 4, 1, 2, 1) + mono(v, 1, 2, 1, 4, 3, 2, 2) +
            mono(v, 1, 2, 2, 1, 0, 1, 0) - mono(v, 1, 2, 2, 1, 0, 3, 0) + mono(v, 1, 2, 2, 1, 2,
            1, 0) + mono(v, 1, 2, 2, 1, 2, 1, 1) + mono(v, 1, 2, 2, 1, 2, 3, 1) + mono(v, 1, 2,
            2, 1, 2, 3, 2) + mono(v, 1, 2, 2, 3, 0, 1, 1) - mono(v, 1, 2, 2, 3, 0, 3, 1) +
            mono(v, 1, 2, 3, 0, 1, 0, 0) - mono(v, 1, 2, 3, 0, 1, 2, 0) + mono(v, 1, 2, 3, 0, 3,
            0, 0) + mono(v, 1, 2, 3, 0, 3, 2, 1) + mono(v, 1, 2, 3, 2, 1, 0, 1) + mono(v, 1, 2,
            3, 2, 3, 0, 1) + mono(v, 1, 2, 3, 4, 1, 2, 2) - mono(v, 1, 2, 3, 4, 3, 2, 3) +
            mono(v, 1, 2, 4, 1, 2, 1, 1) + mono(v, 1, 2, 4, 1, 2, 3, 2) + mono(v, 1, 2, 4, 3, 2,
            1, 2) + mono(v, 1, 2, 4, 3, 2, 3, 3) - mono(v, 2, 1, 0, 1, 1, 0, 0) + mono(v, 2, 1,
            0, 1, 1, 2, 0) - mono(v, 2, 1, 0, 1, 3, 0, 0) - mono(v, 2, 1, 0, 1, 3, 2, 1) +
            mono(v, 2, 1, 0, 3, 1, 0, 0) - mono(v, 2, 1, 0, 3, 1, 2, 0) + mono(v, 2, 1, 0, 3, 3,
            0, 0) + mono(v, 2, 1, 0, 3, 3, 2, 1) - mono(v, 2, 1, 1, 0, 0, 1, 0) + mono(v, 2, 1,
            1, 0, 0, 3, 0) - mono(v, 2, 1, 1, 0, 2, 1, 0) - mono(v, 2, 1, 1, 0, 2, 3, 1) +
            mono(v, 2, 1, 1, 2, 0, 1, 0) - mono(v, 2, 1, 1, 2, 0, 3, 0) + mono(v, 2, 1, 1, 2, 2,
            1, 0) + mono(v, 2, 1, 1, 2, 2, 1, 1) + mono(v, 2, 1, 1, 2, 2, 3, 1) + mono(v, 2, 1,
            1, 2, 2, 3, 2) - mono(v, 2, 1, 1, 4, 2, 1, 1) - mono(v, 2, 1, 1, 4, 2, 3, 2) -
            mono(v, 2, 1, 2, 1, 1, 0, 0) + mono(v, 2, 1, 2, 1, 1, 2, 0) + mono(v, 2, 1, 2, 1, 1,
            2, 1) - mono(v, 2, 1, 2, 1, 3, 0, 0) - mono(v, 2, 1, 2, 1, 3, 2, 1) - mono(v, 2, 1,
            2, 1, 3, 2, 2) - mono(v, 2, 1, 2, 3, 1, 0, 1) - mono(v, 2, 1, 2, 3, 3, 0, 1) -
            mono(v, 2, 1, 3, 0, 0, 1, 0) + mono(v, 2, 1, 3, 0, 0, 3, 0) - mono(v, 2, 1, 3, 0, 2,
            1, 0) - mono(v, 2, 1, 3, 0, 2, 3, 1) - mono(v, 2, 1, 3, 2, 0, 1, 1) + mono(v, 2, 1,
            3, 2, 0, 3, 1) + mono(v, 2, 1, 3, 4, 2, 1, 2) + mono(v, 2, 1, 3, 4, 2, 3, 3) +
            mono(v, 2, 1, 4, 1, 1, 2, 1) - mono(v, 2, 1, 4, 1, 3, 2, 2) + mono(v, 2, 1, 4, 3, 1,
            2, 2) - mono(v, 2, 1, 4, 3, 3, 2, 3) - mono(v, 3, 0, 0, 1, 0, 1, 0) + mono(v, 3, 0,
            0, 1, 0, 3, 0) - mono(v, 3, 0, 0, 1, 2, 1, 0) - mono(v, 3, 0, 0, 1, 2, 3, 1) +
            mono(v, 3, 0, 0, 3, 0, 1, 0) - mono(v, 3, 0, 0, 3, 0, 3, 0) + mono(v, 3, 0, 0, 3, 2,
            1, 0) + mono(v, 3, 0, 0, 3, 2, 3, 1) - mono(v, 3, 0, 1, 0, 1, 0, 0) + mono(v, 3, 0,
            1, 0, 1, 2, 0) - mono(v, 3, 0, 1, 0, 3, 0, 0) - mono(v, 3, 0, 1, 0, 3, 2, 1) +
            mono(v, 3, 0, 1, 2, 1, 0, 0) - mono(v, 3, 0, 1, 2, 1, 2, 0) - mono(v, 3, 0, 1, 2, 1,
            2, 1) + mono(v, 3, 0, 1, 2, 3, 0, 0) + mono(v, 3, 0, 1, 2, 3, 2, 1) + mono(v, 3, 0,
            1, 4, 1, 2, 1) - mono(v, 3, 0, 2, 1, 0, 1, 0) + mono(v, 3, 0, 2, 1, 0, 3, 0) -
            mono(v, 3, 0, 2, 1, 2, 1, 0) - mono(v, 3, 0, 2, 1, 2, 1, 1) - mono(v, 3, 0, 2, 1, 2,
            3, 1) - mono(v, 3, 0, 2, 3, 0, 1, 1) + mono(v, 3, 0, 2, 3, 0, 3, 1) - mono(v, 3, 0,
            2, 3, 2, 3, 2) - mono(v, 3, 0, 3, 0, 1, 0, 0) + mono(v, 3, 0, 3, 0, 1, 2, 0) -
            mono(v, 3, 0, 3, 0, 3, 0, 0) - mono(v, 3, 0, 3, 0, 3, 2, 1) - mono(v, 3, 0, 3, 2, 1,
            0, 1) - mono(v, 3, 0, 3, 2, 3, 0, 1) - mono(v, 3, 0, 3, 2, 3, 2, 2) - mono(v, 3, 0,
            3, 4, 1, 2, 2) - mono(v, 3, 0, 4, 1, 2, 1, 1) - mono(v, 3, 0, 4, 3, 2, 1, 2),
{
    let p0 = mono(v, 0, 1, 0, 1, 1, 0, 0) - mono(v, 0, 1, 0, 1, 1, 2, 0) + mono(v, 0, 1, 0, 1, 3, 0,
        0) + mono(v, 0, 1, 0, 1, 3, 2, 1) + mono(v, 0, 1, 1, 0, 0, 1, 0) - mono(v, 0, 1, 1, 0,
        0, 3, 0);
    lemma_associative_product_71(v, p0, r);
    let t0 = p0 * r;
    let p1 = mono(v, 0, 1, 1, 0, 2, 1, 0) + mono(v, 0, 1, 1, 0, 2, 3, 1) - mono(v, 0, 1, 1, 2, 2, 1,
        1) - mono(v, 0, 1, 2, 1, 1, 2, 1) - mono(v, 0, 3, 0, 1, 1, 0, 0) + mono(v, 0, 3, 0, 1,
        1, 2, 0);
    lemma_associative_product_72(v, p1, r);
    let t1 = p1 * r;
    let p2 = -mono(v, 0, 3, 0, 1, 3, 0, 0) - mono(v, 0, 3, 0, 1, 3, 2, 1) - mono(v, 0, 3, 1, 0, 0, 1,
        0) + mono(v, 0, 3, 1, 0, 0, 3, 0) - mono(v, 0, 3, 1, 0, 2, 1, 0) - mono(v, 0, 3, 1, 0,
        2, 3, 1);
    lemma_associative_product_73(v, p2, r);
    let t2 = p2 * r;
    let p3 = mono(v, 0, 3, 1, 2, 2, 1, 1) + mono(v, 0, 3, 2, 1, 1, 2, 1) + mono(v, 1, 0, 0, 1, 0, 1,
        0) - mono(v, 1, 0, 0, 1, 0, 3, 0) + mono(v, 1, 0, 0, 1, 2, 1, 0) + mono(v, 1, 0, 0, 1,
        2, 3, 1);
    lemma_associative_product_74(v, p3, r);
    let t3 = p3 * r;
    let p4 = mono(v, 1, 0, 1, 0, 1, 0, 0) - mono(v, 1, 0, 1, 0, 1, 2, 0) + mono(v, 1, 0, 1, 0, 3, 0,
        0) + mono(v, 1, 0, 1, 0, 3, 2, 1) + mono(v, 1, 0, 1, 2, 1, 2, 1) + mono(v, 1, 0, 2, 1,
        2, 1, 1);
    lemma_associative_product_75(v, p4, r);
    let t4 = p4 * r;
    let p5 = -mono(v, 1, 2, 0, 1, 0, 1, 0) + mono(v, 1, 2, 0, 1, 0, 3, 0) - mono(v, 1, 2, 0, 1, 2, 1,
        0) - mono(v, 1, 2, 0, 1, 2, 3, 1) - mono(v, 1, 2, 1, 0, 1, 0, 0) + mono(v, 1, 2, 1, 0,
        1, 2, 0);
    lemma_associative_product_76(v, p5, r);
    let t5 = p5 * r;
    let p6 = -mono(v, 1, 2, 1, 0, 3, 0, 0) - mono(v, 1, 2, 1, 0, 3, 2, 1) - mono(v, 1, 2, 1, 2, 1, 2,
        1) + mono(v, 1, 2, 1, 2, 3, 2, 2) - mono(v, 1, 2, 2, 1, 2, 1, 1) - mono(v, 1, 2, 2, 1,
        2, 3, 2);
    lemma_associative_product_77(v, p6, r);
    let t6 = p6 * r;
    let p7 = mono(v, 2, 1, 0, 1, 1, 0, 0) - mono(v, 2, 1, 0, 1, 1, 2, 0) + mono(v, 2, 1, 0, 1, 3, 0,
        0) + mono(v, 2, 1, 0, 1, 3, 2, 1) + mono(v, 2, 1, 1, 0, 0, 1, 0) - mono(v, 2, 1, 1, 0,
        0, 3, 0);
    lemma_associative_product_78(v, p7, r);
    let t7 = p7 * r;
    let p8 = mono(v, 2, 1, 1, 0, 2, 1, 0) + mono(v, 2, 1, 1, 0, 2, 3, 1) - mono(v, 2, 1, 1, 2, 2, 1,
        1) - mono(v, 2, 1, 1, 2, 2, 3, 2) - mono(v, 2, 1, 2, 1, 1, 2, 1) + mono(v, 2, 1, 2, 1,
        3, 2, 2);
    lemma_associative_product_79(v, p8, r);
    let t8 = p8 * r;
    let p9 = mono(v, 3, 0, 0, 1, 0, 1, 0) - mono(v, 3, 0, 0, 1, 0, 3, 0) + mono(v, 3, 0, 0, 1, 2, 1,
        0) + mono(v, 3, 0, 0, 1, 2, 3, 1) + mono(v, 3, 0, 1, 0, 1, 0, 0) - mono(v, 3, 0, 1, 0,
        1, 2, 0);
    lemma_associative_product_80(v, p9, r);
    let t9 = p9 * r;
    let p10 = mono(v, 3, 0, 1, 0, 3, 0, 0) + mono(v, 3, 0, 1, 0, 3, 2, 1) + mono(v, 3, 0, 1, 2, 1, 2,
        1) + mono(v, 3, 0, 2, 1, 2, 1, 1);
    lemma_associative_product_81(v, p10, r);
    let t10 = p10 * r;
    assert(p * r == t0 + t1 + t2 + t3 + t4 + t5 + t6 + t7 + t8 + t9 + t10) by (nonlinear_arith)
        requires
            p == p0 + p1 + p2 + p3 + p4 + p5 + p6 + p7 + p8 + p9 + p10,
            t0 == p0 * r,
            t1 == p1 * r,
            t2 == p2 * r,
            t3 == p3 * r,
            t4 == p4 * r,
            t5 == p5 * r,
            t6 == p6 * r,
            t7 == p7 * r,
            t8 == p8 * r,
            t9 == p9 * r,
            t10 == p10 * r,
    ;
}

/// A cofactor times the defect of a point.
proof fn lemma_associative_product_83(v: Vars, p: int, r: int)
    requires
        p == -mono(v, 0, 1, 0, 1, 1, 0, 0) + mono(v, 0, 1, 0, 3, 1, 0, 0) - mono(v, 0, 1, 1, 0,
            0, 1, 0) + mono(v, 0, 1, 1, 2, 0, 1, 0) - mono(v, 0, 1, 2, 1, 1, 0, 0) - mono(v, 0,
            1, 3, 0, 0, 1, 0),
        r == -mono(v, 0, 0, 0, 0, 0, 0, 0) + mono(v, 0, 0, 0, 0, 0, 2, 0) - mono(v, 0, 0, 0, 0,
            2, 0, 0) - mono(v, 0, 0, 0, 0, 2, 2, 1),
    ensures
        p * r == mono(v, 0, 1, 0, 1, 1, 0, 0) - mono(v, 0, 1, 0, 1, 1, 2, 0) + mono(v, 0, 1, 0, 1, 3,
            0, 0) + mono(v, 0, 1, 0, 1, 3, 2, 1) - mono(v, 0, 1, 0, 3, 1, 0, 0) + mono(v, 0, 1,
            0, 3, 1, 2, 0) - mono(v, 0, 1, 0, 3, 3, 0, 0) - mono(v, 0, 1, 0, 3, 3, 2, 1) +
            mono(v, 0, 1, 1, 0, 0, 1, 0) - mono(v, 0, 1, 1, 0, 0, 3, 0) + mono(v, 0, 1, 1, 0, 2,
            1, 0) + mono(v, 0, 1, 1, 0, 2, 3, 1) - mono(v, 0, 1, 1, 2, 0, 1, 0) + mono(v, 0, 1,
            1, 2, 0, 3, 0) - mono(v, 0, 1, 1, 2, 2, 1, 0) - mono(v, 0, 1, 1, 2, 2, 3, 1) +
            mono(v, 0, 1, 2, 1, 1, 0, 0) - mono(v, 0, 1, 2, 1, 1, 2, 0) + mono(v, 0, 1, 2, 1, 3,
            0, 0) + mono(v, 0, 1, 2, 1, 3, 2, 1) + mono(v, 0, 1, 3, 0, 0, 1, 0) - mono(v, 0, 1,
            3, 0, 0, 3, 0) + mono(v, 0, 1, 3, 0, 2, 1, 0) + mono(v, 0, 1, 3, 0, 2, 3, 1),
{
    let m0_1_0_1_1_0_0 = mono(v, 0, 1, 0, 1, 1, 0, 0);
    let m0_1_0_3_1_0_0 = mono(v, 0, 1, 0, 3, 1, 0, 0);
    let m0_1_1_0_0_1_0 = mono(v, 0, 1, 1, 0, 0, 1, 0);
    let m0_1_1_2_0_1_0 = mono(v, 0, 1, 1, 2, 0, 1, 0);
    let m0_1_2_1_1_0_0 = mono(v, 0, 1, 2, 1, 1, 0, 0);
    let m0_1_3_0_0_1_0 = mono(v, 0, 1, 3, 0, 0, 1, 0);
    let m0_0_0_0_0_0_0 = mono(v, 0, 0, 0, 0, 0, 0, 0);
    let m0_0_0_0_0_2_0 = mono(v, 0, 0, 0, 0, 0, 2, 0);
    let m0_0_0_0_2_0_0 = mono(v, 0, 0, 0, 0, 2, 0, 0);
    let m0_0_0_0_2_2_1 = mono(v, 0, 0, 0, 0, 2, 2, 1);
    let m0_1_0_1_1_2_0 = mono(v, 0, 1, 0, 1, 1, 2, 0);
    let m0_1_0_1_3_0_0 = mono(v, 0, 1, 0, 1, 3, 0, 0);
    let m0_1_0_1_3_2_1 = mono(v, 0, 1, 0, 1, 3, 2, 1);
    let m0_1_0_3_1_2_0 = mono(v, 0, 1, 0, 3, 1, 2, 0);
    let m0_1_0_3_3_0_0 = mono(v, 0, 1, 0, 3, 3, 0, 0);
    let m0_1_0_3_3_2_1 = mono(v, 0, 1, 0, 3, 3, 2, 1);
    let m0_1_1_0_0_3_0 = mono(v, 0, 1, 1, 0, 0, 3, 0);
    let m0_1_1_0_2_1_0 = mono(v, 0, 1, 1, 0, 2, 1, 0);
    let m0_1_1_0_2_3_1 = mono(v, 0, 1, 1, 0, 2, 3, 1);
    let m0_1_1_2_0_3_0 = mono(v, 0, 1, 1, 2, 0, 3, 0);
    let m0_1_1_2_2_1_0 = mono(v, 0, 1, 1, 2, 2, 1, 0);
    let m0_1_1_2_2_3_1 = mono(v, 0, 1, 1, 2, 2, 3, 1);
    let m0_1_2_1_1_2_0 = mono(v, 0, 1, 2, 1, 1, 2, 0);
    let m0_1_2_1_3_0_0 = mono(v, 0, 1, 2, 1, 3, 0, 0);
    let m0_1_2_1_3_2_1 = mono(v, 0, 1, 2, 1, 3, 2, 1);
    let m0_1_3_0_0_3_0 = mono(v, 0, 1, 3, 0, 0, 3, 0);
    let m0_1_3_0_2_1_0 = mono(v, 0, 1, 3, 0, 2, 1, 0);
    let m0_1_3_0_2_3_1 = mono(v, 0, 1, 3, 0, 2, 3, 1);
    lemma_mono_mul(v, 0, 1, 0, 1, 1, 0, 0, 0, 0, 0, 0, 0, 0, 0);
    lemma_mono_mul(v, 0, 1, 0, 1, 1, 0, 0, 0, 0, 0, 0, 0, 2, 0);
    lemma_mono_mul(v, 0, 1, 0, 1, 1, 0, 0, 0, 0, 0, 0, 2, 0, 0);
    lemma_mono_mul(v, 0, 1, 0, 1, 1, 0, 0, 0, 0, 0, 0, 2, 2, 1);
    lemma_mono_mul(v, 0, 1, 0, 3, 1, 0, 0, 0, 0, 0, 0, 0, 0, 0);
    lemma_mono_mul(v, 0, 1, 0, 3, 1, 0, 0, 0, 0, 0, 0, 0, 2, 0);
    lemma_mono_mul(v, 0, 1, 0, 3, 1, 0, 0, 0, 0, 0, 0, 2, 0, 0);
    lemma_mono_mul(v, 0, 1, 0, 3, 1, 0, 0, 0, 0, 0, 0, 2, 2, 1);
    lemma_mono_mul(v, 0, 1, 1, 0, 0, 1, 0, 0, 0, 0, 0, 0, 0, 0);
    lemma_mono_mul(v, 0, 1, 1, 0, 0, 1, 0, 0, 0, 0, 0, 0, 2, 0);
    lemma_mono_mul(v, 0, 1, 1, 0, 0, 1, 0, 0, 0, 0, 0, 2, 0, 0);
    lemma_mono_mul(v, 0, 1, 1, 0, 0, 1, 0, 0, 0, 0, 0, 2, 2, 1);
    lemma_mono_mul(v, 0, 1, 1, 2, 0, 1, 0, 0, 0, 0, 0, 0, 0, 0);
    lemma_mono_mul(v, 0, 1, 1, 2, 0, 1, 0, 0, 0, 0, 0, 0, 2, 0);
    lemma_mono_mul(v, 0, 1, 1, 2, 0, 1, 0, 0, 0, 0, 0, 2, 0, 0);
    lemma_mono_mul(v, 0, 1, 1, 2, 0, 1, 0, 0, 0, 0, 0, 2, 2, 1);
    lemma_mono_mul(v, 0, 1, 2, 1, 1, 0, 0, 0, 0, 0, 0, 0, 0, 0);
    lemma_mono_mul(v, 0, 1, 2, 1, 1, 0, 0, 0, 0, 0, 0, 0, 2, 0);
    lemma_mono_mul(v, 0, 1, 2, 1, 1, 0, 0, 0, 0, 0, 0, 2, 0, 0);
    lemma_mono_mul(v, 0, 1, 2, 1, 1, 0, 0, 0, 0, 0, 0, 2, 2, 1);
    lemma_mono_mul(v, 0, 1, 3, 0, 0, 1, 0, 0, 0, 0, 0, 0, 0, 0);
    lemma_mono_mul(v, 0, 1, 3, 0, 0, 1, 0, 0, 0, 0, 0, 0, 2, 0);
    lemma_mono_mul(v, 0, 1, 3, 0, 0, 1, 0, 0, 0, 0, 0, 2, 0, 0);
    lemma_mono_mul(v, 0, 1, 3, 0, 0, 1, 0, 0, 0, 0, 0, 2, 2, 1);
    let row0 = m0_1_0_1_1_0_0 * r;
    assert(row0 == -m0_1_0_1_1_0_0 + m0_1_0_1_1_2_0 - m0_1_0_1_3_0_0 - m0_1_0_1_3_2_1) by (nonlinear_arith)
        requires
            row0 == m0_1_0_1_1_0_0 * r,
            r == -m0_0_0_0_0_0_0 + m0_0_0_0_0_2_0 - m0_0_0_0_2_0_0 - m0_0_0_0_2_2_1,
            m0_1_0_1_1_0_0 * m0_0_0_0_0_0_0 == m0_1_0_1_1_0_0,
            m0_1_0_1_1_0_0 * m0_0_0_0_0_2_0 == m0_1_0_1_1_2_0,
            m0_1_0_1_1_0_0 * m0_0_0_0_2_0_0 == m0_1_0_1_3_0_0,
            m0_1_0_1_1_0_0 * m0_0_0_0_2_2_1 == m0_1_0_1_3_2_1,
    ;
    let row1 = m0_1_0_3_1_0_0 * r;
    assert(row1 == -m0_1_0_3_1_0_0 + m0_1_0_3_1_2_0 - m0_1_0_3_3_0_0 - m0_1_0_3_3_2_1) by (nonlinear_arith)
        requires
            row1 == m0_1_0_3_1_0_0 * r,
            r == -m0_0_0_0_0_0_0 + m0_0_0_0_0_2_0 - m0_0_0_0_2_0_0 - m0_0_0_0_2_2_1,
            m0_1_0_3_1_0_0 * m0_0_0_0_0_0_0 == m0_1_0_3_1_0_0,
            m0_1_0_3_1_0_0 * m0_0_0_0_0_2_0 == m0_1_0_3_1_2_0,
            m0_1_0_3_1_0_0 * m0_0_0_0_2_0_0 == m0_1_0_3_3_0_0,
            m0_1_0_3_1_0_0 * m0_0_0_0_2_2_1 == m0_1_0_3_3_2_1,
    ;
    let row2 = m0_1_1_0_0_1_0 * r;
    assert(row2 == -m0_1_1_0_0_1_0 + m0_1_1_0_0_3_0 - m0_1_1_0_2_1_0 - m0_1_1_0_2_3_1) by (nonlinear_arith)
        requires
            row2 == m0_1_1_0_0_1_0 * r,
            r == -m0_0_0_0_0_0_0 + m0_0_0_0_0_2_0 - m0_0_0_0_2_0_0 - m0_0_0_0_2_2_1,
            m0_1_1_0_0_1_0 * m0_0_0_0_0_0_0 == m0_1_1_0_0_1_0,
            m0_1_1_0_0_1_0 * m0_0_0_0_0_2_0 == m0_1_1_0_0_3_0,
            m0_1_1_0_0_1_0 * m0_0_0_0_2_0_0 == m0_1_1_0_2_1_0,
            m0_1_1_0_0_1_0 * m0_0_0_0_2_2_1 == m0_1_1_0_2_3_1,
    ;
    let row3 = m0_1_1_2_0_1_0 * r;
    assert(row3 == -m0_1_1_2_0_1_0 + m0_1_1_2_0_3_0 - m0_1_1_2_2_1_0 - m0_1_1_2_2_3_1) by (nonlinear_arith)
        requires
            row3 == m0_1_1_2_0_1_0 * r,
            r == -m0_0_0_0_0_0_0 + m0_0_0_0_0_2_0 - m0_0_0_0_2_0_0 - m0_0_0_0_2_2_1,
            m0_1_1_2_0_1_0 * m0_0_0_0_0_0_0 == m0_1_1_2_0_1_0,
            m0_1_1_2_0_1_0 * m0_0_0_0_0_2_0 == m0_1_1_2_0_3_0,
            m0_1_1_2_0_1_0 * m0_0_0_0_2_0_0 == m0_1_1_2_2_1_0,
            m0_1_1_2_0_1_0 * m0_0_0_0_2_2_1 == m0_1_1_2_2_3_1,
    ;
    let row4 = m0_1_2_1_1_0_0 * r;
    assert(row4 == -m0_1_2_1_1_0_0 + m0_1_2_1_1_2_0 - m0_1_2_1_3_0_0 - m0_1_2_1_3_2_1) by (nonlinear_arith)
        requires
            row4 == m0_1_2_1_1_0_0 * r,
            r == -m0_0_0_0_0_0_0 + m0_0_0_0_0_2_0 - m0_0_0_0_2_0_0 - m0_0_0_0_2_2_1,
            m0_1_2_1_1_0_0 * m0_0_0_0_0_0_0 == m0_1_2_1_1_0_0,
            m0_1_2_1_1_0_0 * m0_0_0_0_0_2_0 == m0_1_2_1_1_2_0,
            m0_1_2_1_1_0_0 * m0_0_0_0_2_0_0 == m0_1_2_1_3_0_0,
            m0_1_2_1_1_0_0 * m0_0_0_0_2_2_1 == m0_1_2_1_3_2_1,
    ;
    let row5 = m0_1_3_0_0_1_0 * r;
    assert(row5 == -m0_1_3_0_0_1_0 + m0_1_3_0_0_3_0 - m0_1_3_0_2_1_0 - m0_1_3_0_2_3_1) by (nonlinear_arith)
        requires
            row5 == m0_1_3_0_0_1_0 * r,
            r == -m0_0_0_0_0_0_0 + m0_0_0_0_0_2_0 - m0_0_0_0_2_0_0 - m0_0_0_0_2_2_1,
            m0_1_3_0_0_1_0 * m0_0_0_0_0_0_0 == m0_1_3_0_0_1_0,
            m0_1_3_0_0_1_0 * m0_0_0_0_0_2_0 == m0_1_3_0_0_3_0,
            m0_1_3_0_0_1_0 * m0_0_0_0_2_0_0 == m0_1_3_0_2_1_0,
            m0_1_3_0_0_1_0 * m0_0_0_0_2_2_1 == m0_1_3_0_2_3_1,
    ;
    assert(p * r == -row0 + row1 - row2 + row3 - row4 - row5) by (nonlinear_arith)
        requires
            p == -m0_1_0_1_1_0_0 + m0_1_0_3_1_0_0 - m0_1_1_0_0_1_0 + m0_1_1_2_0_1_0 -
                m0_1_2_1_1_0_0 - m0_1_3_0_0_1_0,
            row0 == m0_1_0_1_1_0_0 * r,
            row1 == m0_1_0_3_1_0_0 * r,
            row2 == m0_1_1_0_0_1_0 * r,
            row3 == m0_1_1_2_0_1_0 * r,
            row4 == m0_1_2_1_1_0_0 * r,
            row5 == m0_1_3_0_0_1_0 * r,
    ;
}

/// A cofactor times the defect of a point.
proof fn lemma_associative_product_84(v: Vars, p: int, r: int)
    requires
        p == mono(v, 0, 3, 0, 1, 1, 0, 0) - mono(v, 0, 3, 0, 3, 1, 0, 0) + mono(v, 0, 3, 1, 0, 0,
            1, 0) - mono(v, 0, 3, 1, 2, 0, 1, 0) + mono(v, 0, 3, 2, 1, 1, 0, 0) + mono(v, 0, 3,
            3, 0, 0, 1, 0),
        r == -mono(v, 0, 0, 0, 0, 0, 0, 0) + mono(v, 0, 0, 0, 0, 0, 2, 0) - mono(v, 0, 0, 0, 0,
            2, 0, 0) - mono(v, 0, 0, 0, 0, 2, 2, 1),
    ensures
        p * r == -mono(v, 0, 3, 0, 1, 1, 0, 0) + mono(v, 0, 3, 0, 1, 1, 2, 0) - mono(v, 0, 3, 0, 1,
            3, 0, 0) - mono(v, 0, 3, 0, 1, 3, 2, 1) + mono(v, 0, 3, 0, 3, 1, 0, 0) - mono(v, 0,
            3, 0, 3, 1, 2, 0) + mono(v, 0, 3, 0, 3, 3, 0, 0) + mono(v, 0, 3, 0, 3, 3, 2, 1) -
            mono(v, 0, 3, 1, 0, 0, 1, 0) + mono(v, 0, 3, 1, 0, 0, 3, 0) - mono(v, 0, 3, 1, 0, 2,
            1, 0) - mono(v, 0, 3, 1, 0, 2, 3, 1) + mono(v, 0, 3, 1, 2, 0, 1, 0) - mono(v, 0, 3,
            1, 2, 0, 3, 0) + mono(v, 0, 3, 1, 2, 2, 1, 0) + mono(v, 0, 3, 1, 2, 2, 3, 1) -
            mono(v, 0, 3, 2, 1, 1, 0, 0) + mono(v, 0, 3, 2, 1, 1, 2, 0) - mono(v, 0, 3, 2, 1, 3,
            0, 0) - mono(v, 0, 3, 2, 1, 3, 2, 1) - mono(v, 0, 3, 3, 0, 0, 1, 0) + mono(v, 0, 3,
            3, 0, 0, 3, 0) - mono(v, 0, 3, 3, 0, 2, 1, 0) - mono(v, 0, 3, 3, 0, 2, 3, 1),
{
    let m0_3_0_1_1_0_0 = mono(v, 0, 3, 0, 1, 1, 0, 0);
    let m0_3_0_3_1_0_0 = mono(v, 0, 3, 0, 3, 1, 0, 0);
    let m0_3_1_0_0_1_0 = mono(v, 0, 3, 1, 0, 0, 1, 0);
    let m0_3_1_2_0_1_0 = mono(v, 0, 3, 1, 2, 0, 1, 0);
    let m0_3_2_1_1_0_0 = mono(v, 0, 3, 2, 1, 1, 0, 0);
    let m0_3_3_0_0_1_0 = mono(v, 0, 3, 3, 0, 0, 1, 0);
    let m0_0_0_0_0_0_0 = mono(v, 0, 0, 0, 0, 0, 0, 0);
    let m0_0_0_0_0_2_0 = mono(v, 0, 0, 0, 0, 0, 2, 0);
    let m0_0_0_0_2_0_0 = mono(v, 0, 0, 0, 0, 2, 0, 0);
    let m0_0_0_0_2_2_1 = mono(v, 0, 0, 0, 0, 2, 2, 1);
    let m0_3_0_1_1_2_0 = mono(v, 0, 3, 0, 1, 1, 2, 0);
    let m0_3_0_1_3_0_0 = mono(v, 0, 3, 0, 1, 3, 0, 0);
    let m0_3_0_1_3_2_1 = mono(v, 0, 3, 0, 1, 3, 2, 1);
    let m0_3_0_3_1_2_0 = mono(v, 0, 3, 0, 3, 1, 2, 0);
    let m0_3_0_3_3_0_0 = mono(v, 0, 3, 0, 3, 3, 0, 0);
    let m0_3_0_3_3_2_1 = mono(v, 0, 3, 0, 3, 3, 2, 1);
    let m0_3_1_0_0_3_0 = mono(v, 0, 3, 1, 0, 0, 3, 0);
    let m0_3_1_0_2_1_0 = mono(v, 0, 3, 1, 0, 2, 1, 0);
    let m0_3_1_0_2_3_1 = mono(v, 0, 3, 1, 0, 2, 3, 1);
    let m0_3_1_2_0_3_0 = mono(v, 0, 3, 1, 2, 0, 3, 0);
    let m0_3_1_2_2_1_0 = mono(v, 0, 3, 1, 2, 2, 1, 0);
    let m0_3_1_2_2_3_1 = mono(v, 0, 3, 1, 2, 2, 3, 1);
    let m0_3_2_1_1_2_0 = mono(v, 0, 3, 2, 1, 1, 2, 0);
    let m0_3_2_1_3_0_0 = mono(v, 0, 3, 2, 1, 3, 0, 0);
    let m0_3_2_1_3_2_1 = mono(v, 0, 3, 2, 1, 3, 2, 1);
    let m0_3_3_0_0_3_0 = mono(v, 0, 3, 3, 0, 0, 3, 0);
    let m0_3_3_0_2_1_0 = mono(v, 0, 3, 3, 0, 2, 1, 0);
    let m0_3_3_0_2_3_1 = mono(v, 0, 3, 3, 0, 2, 3, 1);
    lemma_mono_mul(v, 0, 3, 0, 1, 1, 0, 0, 0, 0, 0, 0, 0, 0, 0);
    lemma_mono_mul(v, 0, 3, 0, 1, 1, 0, 0, 0, 0, 0, 0, 0, 2, 0);
    lemma_mono_mul(v, 0, 3, 0, 1, 1, 0, 0, 0, 0, 0, 0, 2, 0, 0);
    lemma_mono_mul(v, 0, 3, 0, 1, 1, 0, 0, 0, 0, 0, 0, 2, 2, 1);
    lemma_mono_mul(v, 0, 3, 0, 3, 1, 0, 0, 0, 0, 0, 0, 0, 0, 0);
    lemma_mono_mul(v, 0, 3, 0, 3, 1, 0, 0, 0, 0, 0, 0, 0, 2, 0);
    lemma_mono_mul(v, 0, 3, 0, 3, 1, 0, 0, 0, 0, 0, 0, 2, 0, 0);
    lemma_mono_mul(v, 0, 3, 0, 3, 1, 0, 0, 0, 0, 0, 0, 2, 2, 1);
    lemma_mono_mul(v, 0, 3, 1, 0, 0, 1, 0, 0, 0, 0, 0, 0, 0, 0);
    lemma_mono_mul(v, 0, 3, 1, 0, 0, 1, 0, 0, 0, 0, 0, 0, 2, 0);
    lemma_mono_mul(v, 0, 3, 1, 0, 0, 1, 0, 0, 0, 0, 0, 2, 0, 0);
    lemma_mono_mul(v, 0, 3, 1, 0, 0, 1, 0, 0, 0, 0, 0, 2, 2, 1);
    lemma_mono_mul(v, 0, 3, 1, 2, 0, 1, 0, 0, 0, 0, 0, 0, 0, 0);
    lemma_mono_mul(v, 0, 3, 1, 2, 0, 1, 0, 0, 0, 0, 0, 0, 2, 0);
    lemma_mono_mul(v, 0, 3, 1, 2, 0, 1, 0, 0, 0, 0, 0, 2, 0, 0);
    lemma_mono_mul(v, 0, 3, 1, 2, 0, 1, 0, 0, 0, 0, 0, 2, 2, 1);
    lemma_mono_mul(v, 0, 3, 2, 1, 1, 0, 0, 0, 0, 0, 0, 0, 0, 0);
    lemma_mono_mul(v, 0, 3, 2, 1, 1, 0, 0, 0, 0, 0, 0, 0, 2, 0);
    lemma_mono_mul(v, 0, 3, 2, 1, 1, 0, 0, 0, 0, 0, 0, 2, 0, 0);
    lemma_mono_mul(v, 0, 3, 2, 1, 1, 0, 0, 0, 0, 0, 0, 2, 2, 1);
    lemma_mono_mul(v, 0, 3, 3, 0, 0, 1, 0, 0, 0, 0, 0, 0, 0, 0);
    lemma_mono_mul(v, 0, 3, 3, 0, 0, 1, 0, 0, 0, 0, 0, 0, 2, 0);
    lemma_mono_mul(v, 0, 3, 3, 0, 0, 1, 0, 0, 0, 0, 0, 2, 0, 0);
    lemma_mono_mul(v, 0, 3, 3, 0, 0, 1, 0, 0, 0, 0, 0, 2, 2, 1);
    let row0 = m0_3_0_1_1_0_0 * r;
    assert(row0 == -m0_3_0_1_1_0_0 + m0_3_0_1_1_2_0 - m0_3_0_1_3_0_0 - m0_3_0_1_3_2_1) by (nonlinear_arith)
        requires
            row0 == m0_3_0_1_1_0_0 * r,
            r == -m0_0_0_0_0_0_0 + m0_0_0_0_0_2_0 - m0_0_0_0_2_0_0 - m0_0_0_0_2_2_1,
            m0_3_0_1_1_0_0 * m0_0_0_0_0_0_0 == m0_3_0_1_1_0_0,
            m0_3_0_1_1_0_0 * m0_0_0_0_0_2_0 == m0_3_0_1_1_2_0,
            m0_3_0_1_1_0_0 * m0_0_0_0_2_0_0 == m0_3_0_1_3_0_0,
            m0_3_0_1_1_0_0 * m0_0_0_0_2_2_1 == m0_3_0_1_3_2_1,
    ;
    let row1 = m0_3_0_3_1_0_0 * r;
    assert(row1 == -m0_3_0_3_1_0_0 + m0_3_0_3_1_2_0 - m0_3_0_3_3_0_0 - m0_3_0_3_3_2_1) by (nonlinear_arith)
        requires
            row1 == m0_3_0_3_1_0_0 * r,
            r == -m0_0_0_0_0_0_0 + m0_0_0_0_0_2_0 - m0_0_0_0_2_0_0 - m0_0_0_0_2_2_1,
            m0_3_0_3_1_0_0 * m0_0_0_0_0_0_0 == m0_3_0_3_1_0_0,
            m0_3_0_3_1_0_0 * m0_0_0_0_0_2_0 == m0_3_0_3_1_2_0,
            m0_3_0_3_1_0_0 * m0_0_0_0_2_0_0 == m0_3_0_3_3_0_0,
            m0_3_0_3_1_0_0 * m0_0_0_0_2_2_1 == m0_3_0_3_3_2_1,
    ;
    let row2 = m0_3_1_0_0_1_0 * r;
    assert(row2 == -m0_3_1_0_0_1_0 + m0_3_1_0_0_3_0 - m0_3_1_0_2_1_0 - m0_3_1_0_2_3_1) by (nonlinear_arith)
        requires
            row2 == m0_3_1_0_0_1_0 * r,
            r == -m0_0_0_0_0_0_0 + m0_0_0_0_0_2_0 - m0_0_0_0_2_0_0 - m0_0_0_0_2_2_1,
            m0_3_1_0_0_1_0 * m0_0_0_0_0_0_0 == m0_3_1_0_0_1_0,
            m0_3_1_0_0_1_0 * m0_0_0_0_0_2_0 == m0_3_1_0_0_3_0,
            m0_3_1_0_0_1_0 * m0_0_0_0_2_0_0 == m0_3_1_0_2_1_0,
            m0_3_1_0_0_1_0 * m0_0_0_0_2_2_1 == m0_3_1_0_2_3_1,
    ;
    let row3 = m0_3_1_2_0_1_0 * r;
    assert(row3 == -m0_3_1_2_0_1_0 + m0_3_1_2_0_3_0 - m0_3_1_2_2_1_0 - m0_3_1_2_2_3_1) by (nonlinear_arith)
        requires
            row3 == m0_3_1_2_0_1_0 * r,
            r == -m0_0_0_0_0_0_0 + m0_0_0_0_0_2_0 - m0_0_0_0_2_0_0 - m0_0_0_0_2_2_1,
            m0_3_1_2_0_1_0 * m0_0_0_0_0_0_0 == m0_3_1_2_0_1_0,
            m0_3_1_2_0_1_0 * m0_0_0_0_0_2_0 == m0_3_1_2_0_3_0,
            m0_3_1_2_0_1_0 * m0_0_0_0_2_0_0 == m0_3_1_2_2_1_0,
            m0_3_1_2_0_1_0 * m0_0_0_0_2_2_1 == m0_3_1_2_2_3_1,
    ;
    let row4 = m0_3_2_1_1_0_0 * r;
    assert(row4 == -m0_3_2_1_1_0_0 + m0_3_2_1_1_2_0 - m0_3_2_1_3_0_0 - m0_3_2_1_3_2_1) by (nonlinear_arith)
        requires
            row4 == m0_3_2_1_1_0_0 * r,
            r == -m0_0_0_0_0_0_0 + m0_0_0_0_0_2_0 - m0_0_0_0_2_0_0 - m0_0_0_0_2_2_1,
            m0_3_2_1_1_0_0 * m0_0_0_0_0_0_0 == m0_3_2_1_1_0_0,
            m0_3_2_1_1_0_0 * m0_0_0_0_0_2_0 == m0_3_2_1_1_2_0,
            m0_3_2_1_1_0_0 * m0_0_0_0_2_0_0 == m0_3_2_1_3_0_0,
            m0_3_2_1_1_0_0 * m0_0_0_0_2_2_1 == m0_3_2_1_3_2_1,
    ;
    let row5 = m0_3_3_0_0_1_0 * r;
    assert(row5 == -m0_3_3_0_0_1_0 + m0_3_3_0_0_3_0 - m0_3_3_0_2_1_0 - m0_3_3_0_2_3_1) by (nonlinear_arith)
        requires
            row5 == m0_3_3_0_0_1_0 * r,
            r == -m0_0_0_0_0_0_0 + m0_0_0_0_0_2_0 - m0_0_0_0_2_0_0 - m0_0_0_0_2_2_1,
            m0_3_3_0_0_1_0 * m0_0_0_0_0_0_0 == m0_3_3_0_0_1_0,
            m0_3_3_0_0_1_0 * m0_0_0_0_0_2_0 == m0_3_3_0_0_3_0,
            m0_3_3_0_0_1_0 * m0_0_0_0_2_0_0 == m0_3_3_0_2_1_0,
            m0_3_3_0_0_1_0 * m0_0_0_0_2_2_1 == m0_3_3_0_2_3_1,
    ;
    assert(p * r == row0 - row1 + row2 - row3 + row4 + row5) by (nonlinear_arith)
        requires
            p == m0_3_0_1_1_0_0 - m0_3_0_3_1_0_0 + m0_3_1_0_0_1_0 - m0_3_1_2_0_1_0 +
                m0_3_2_1_1_0_0 + m0_3_3_0_0_1_0,
            row0 == m0_3_0_1_1_0_0 * r,
            row1 == m0_3_0_3_1_0_0 * r,
            row2 == m0_3_1_0_0_1_0 * r,
            row3 == m0_3_1_2_0_1_0 * r,
            row4 == m0_3_2_1_1_0_0 * r,
            row5 == m0_3_3_0_0_1_0 * r,
    ;
}

/// A cofactor times the defect of a point.
proof fn lemma_associative_product_85(v: Vars, p: int, r: int)
    requires
        p == -mono(v, 1, 0, 0, 1, 0, 1, 0) + mono(v, 1, 0, 0, 3, 0, 1, 0) - mono(v, 1, 0, 1, 0,
            1, 0, 0) + mono(v, 1, 0, 1, 2, 1, 0, 0) - mono(v, 1, 0, 2, 1, 0, 1, 0) - mono(v, 1,
            0, 3, 0, 1, 0, 0),
        r == -mono(v, 0, 0, 0, 0, 0, 0, 0) + mono(v, 0, 0, 0, 0, 0, 2, 0) - mono(v, 0, 0, 0, 0,
            2, 0, 0) - mono(v, 0, 0, 0, 0, 2, 2, 1),
    ensures
        p * r == mono(v, 1, 0, 0, 1, 0, 1, 0) - mono(v, 1, 0, 0, 1, 0, 3, 0) + mono(v, 1, 0, 0, 1, 2,
            1, 0) + mono(v, 1, 0, 0, 1, 2, 3, 1) - mono(v, 1, 0, 0, 3, 0, 1, 0) + mono(v, 1, 0,
            0, 3, 0, 3, 0) - mono(v, 1, 0, 0, 3, 2, 1, 0) - mono(v, 1, 0, 0, 3, 2, 3, 1) +
            mono(v, 1, 0, 1, 0, 1, 0, 0) - mono(v, 1, 0, 1, 0, 1, 2, 0) + mono(v, 1, 0, 1, 0, 3,
            0, 0) + mono(v, 1, 0, 1, 0, 3, 2, 1) - mono(v, 1, 0, 1, 2, 1, 0, 0) + mono(v, 1, 0,
            1, 2, 1, 2, 0) - mono(v, 1, 0, 1, 2, 3, 0, 0) - mono(v, 1, 0, 1, 2, 3, 2, 1) +
            mono(v, 1, 0, 2, 1, 0, 1, 0) - mono(v, 1, 0, 2, 1, 0, 3, 0) + mono(v, 1, 0, 2, 1, 2,
            1, 0) + mono(v, 1, 0, 2, 1, 2, 3, 1) + mono(v, 1, 0, 3, 0, 1, 0, 0) - mono(v, 1, 0,
            3, 0, 1, 2, 0) + mono(v, 1, 0, 3, 0, 3, 0, 0) + mono(v, 1, 0, 3, 0, 3, 2, 1),
{
    let m1_0_0_1_0_1_0 = mono(v, 1, 0, 0, 1, 0, 1, 0);
    let m1_0_0_3_0_1_0 = mono(v, 1, 0, 0, 3, 0, 1, 0);
    let m1_0_1_0_1_0_0 = mono(v, 1, 0, 1, 0, 1, 0, 0);
    let m1_0_1_2_1_0_0 = mono(v, 1, 0, 1, 2, 1, 0, 0);
    let m1_0_2_1_0_1_0 = mono(v, 1, 0, 2, 1, 0, 1, 0);
    let m1_0_3_0_1_0_0 = mono(v, 1, 0, 3, 0, 1, 0, 0);
    let m0_0_0_0_0_0_0 = mono(v, 0, 0, 0, 0, 0, 0, 0);
    let m0_0_0_0_0_2_0 = mono(v, 0, 0, 0, 0, 0, 2, 0);
    let m0_0_0_0_2_0_0 = mono(v, 0, 0, 0, 0, 2, 0, 0);
    let m0_0_0_0_2_2_1 = mono(v, 0, 0, 0, 0, 2, 2, 1);
    let m1_0_0_1_0_3_0 = mono(v, 1, 0, 0, 1, 0, 3, 0);
    let m1_0_0_1_2_1_0 = mono(v, 1, 0, 0, 1, 2, 1, 0);
    let m1_0_0_1_2_3_1 = mono(v, 1, 0, 0, 1, 2, 3, 1);
    let m1_0_0_3_0_3_0 = mono(v, 1, 0, 0, 3, 0, 3, 0);
    let m1_0_0_3_2_1_0 = mono(v, 1, 0, 0, 3, 2, 1, 0);
    let m1_0_0_3_2_3_1 = mono(v, 1, 0, 0, 3, 2, 3, 1);
    let m1_0_1_0_1_2_0 = mono(v, 1, 0, 1, 0, 1, 2, 0);
    let m1_0_1_0_3_0_0 = mono(v, 1, 0, 1, 0, 3, 0, 0);
    let m1_0_1_0_3_2_1 = mono(v, 1, 0, 1, 0, 3, 2, 1);
    let m1_0_1_2_1_2_0 = mono(v, 1, 0, 1, 2, 1, 2, 0);
    let m1_0_1_2_3_0_0 = mono(v, 1, 0, 1, 2, 3, 0, 0);
    let m1_0_1_2_3_2_1 = mono(v, 1, 0, 1, 2, 3, 2, 1);
    let m1_0_2_1_0_3_0 = mono(v, 1, 0, 2, 1, 0, 3, 0);
    let m1_0_2_1_2_1_0 = mono(v, 1, 0, 2, 1, 2, 1, 0);
    let m1_0_2_1_2_3_1 = mono(v, 1, 0, 2, 1, 2, 3, 1);
    let m1_0_3_0_1_2_0 = mono(v, 1, 0, 3, 0, 1, 2, 0);
    let m1_0_3_0_3_0_0 = mono(v, 1, 0, 3, 0, 3, 0, 0);
    let m1_0_3_0_3_2_1 = mono(v, 1, 0, 3, 0, 3, 2, 1);
    lemma_mono_mul(v, 1, 0, 0, 1, 0, 1, 0, 0, 0, 0, 0, 0, 0, 0);
    lemma_mono_mul(v, 1, 0, 0, 1, 0, 1, 0, 0, 0, 0, 0, 0, 2, 0);
    lemma_mono_mul(v, 1, 0, 0, 1, 0, 1, 0, 0, 0, 0, 0, 2, 0, 0);
    lemma_mono_mul(v, 1, 0, 0, 1, 0, 1, 0, 0, 0, 0, 0, 2, 2, 1);
    lemma_mono_mul(v, 1, 0, 0, 3, 0, 1, 0, 0, 0, 0, 0, 0, 0, 0);
    lemma_mono_mul(v, 1, 0, 0, 3, 0, 1, 0, 0, 0, 0, 0, 0, 2, 0);
    lemma_mono_mul(v, 1, 0, 0, 3, 0, 1, 0, 0, 0, 0, 0, 2, 0, 0);
    lemma_mono_mul(v, 1, 0, 0, 3, 0, 1, 0, 0, 0, 0, 0, 2, 2, 1);
    lemma_mono_mul(v, 1, 0, 1, 0, 1, 0, 0, 0, 0, 0, 0, 0, 0, 0);
    lemma_mono_mul(v, 1, 0, 1, 0, 1, 0, 0, 0, 0, 0, 0, 0, 2, 0);
    lemma_mono_mul(v, 1, 0, 1, 0, 1, 0, 0, 0, 0, 0, 0, 2, 0, 0);
    lemma_mono_mul(v, 1, 0, 1, 0, 1, 0, 0, 0, 0, 0, 0, 2, 2, 1);
    lemma_mono_mul(v, 1, 0, 1, 2, 1, 0, 0, 0, 0, 0, 0, 0, 0, 0);
    lemma_mono_mul(v, 1, 0, 1, 2, 1, 0, 0, 0, 0, 0, 0, 0, 2, 0);
    lemma_mono_mul(v, 1, 0, 1, 2, 1, 0, 0, 0, 0, 0, 0, 2, 0, 0);
    lemma_mono_mul(v, 1, 0, 1, 2, 1, 0, 0, 0, 0, 0, 0, 2, 2, 1);
    lemma_mono_mul(v, 1, 0, 2, 1, 0, 1, 0, 0, 0, 0, 0, 0, 0, 0);
    lemma_mono_mul(v, 1, 0, 2, 1, 0, 1, 0, 0, 0, 0, 0, 0, 2, 0);
    lemma_mono_mul(v, 1, 0, 2, 1, 0, 1, 0, 0, 0, 0, 0, 2, 0, 0);
    lemma_mono_mul(v, 1, 0, 2, 1, 0, 1, 0, 0, 0, 0, 0, 2, 2, 1);
    lemma_mono_mul(v, 1, 0, 3, 0, 1, 0, 0, 0, 0, 0, 0, 0, 0, 0);
    lemma_mono_mul(v, 1, 0, 3, 0, 1, 0, 0, 0, 0, 0, 0, 0, 2, 0);
    lemma_mono_mul(v, 1, 0, 3, 0, 1, 0, 0, 0, 0, 0, 0, 2, 0, 0);
    lemma_mono_mul(v, 1, 0, 3, 0, 1, 0, 0, 0, 0, 0, 0, 2, 2, 1);
    let row0 = m1_0_0_1_0_1_0 * r;
    assert(row0 == -m1_0_0_1_0_1_0 + m1_0_0_1_0_3_0 - m1_0_0_1_2_1_0 - m1_0_0_1_2_3_1) by (nonlinear_arith)
        requires
            row0 == m1_0_0_1_0_1_0 * r,
            r == -m0_0_0_0_0_0_0 + m0_0_0_0_0_2_0 - m0_0_0_0_2_0_0 - m0_0_0_0_2_2_1,
            m1_0_0_1_0_1_0 * m0_0_0_0_0_0_0 == m1_0_0_1_0_1_0,
            m1_0_0_1_0_1_0 * m0_0_0_0_0_2_0 == m1_0_0_1_0_3_0,
            m1_0_0_1_0_1_0 * m0_0_0_0_2_0_0 == m1_0_0_1_2_1_0,
            m1_0_0_1_0_1_0 * m0_0_0_0_2_2_1 == m1_0_0_1_2_3_1,
    ;
    let row1 = m1_0_0_3_0_1_0 * r;
    assert(row1 == -m1_0_0_3_0_1_0 + m1_0_0_3_0_3_0 - m1_0_0_3_2_1_0 - m1_0_0_3_2_3_1) by (nonlinear_arith)
        requires
            row1 == m1_0_0_3_0_1_0 * r,
            r == -m0_0_0_0_0_0_0 + m0_0_0_0_0_2_0 - m0_0_0_0_2_0_0 - m0_0_0_0_2_2_1,
            m1_0_0_3_0_1_0 * m0_0_0_0_0_0_0 == m1_0_0_3_0_1_0,
            m1_0_0_3_0_1_0 * m0_0_0_0_0_2_0 == m1_0_0_3_0_3_0,
            m1_0_0_3_0_1_0 * m0_0_0_0_2_0_0 == m1_0_0_3_2_1_0,
            m1_0_0_3_0_1_0 * m0_0_0_0_2_2_1 == m1_0_0_3_2_3_1,
    ;
    let row2 = m1_0_1_0_1_0_0 * r;
    assert(row2 == -m1_0_1_0_1_0_0 + m1_0_1_0_1_2_0 - m1_0_1_0_3_0_0 - m1_0_1_0_3_2_1) by (nonlinear_arith)
        requires
            row2 == m1_0_1_0_1_0_0 * r,
            r == -m0_0_0_0_0_0_0 + m0_0_0_0_0_2_0 - m0_0_0_0_2_0_0 - m0_0_0_0_2_2_1,
            m1_0_1_0_1_0_0 * m0_0_0_0_0_0_0 == m1_0_1_0_1_0_0,
            m1_0_1_0_1_0_0 * m0_0_0_0_0_2_0 == m1_0_1_0_1_2_0,
            m1_0_1_0_1_0_0 * m0_0_0_0_2_0_0 == m1_0_1_0_3_0_0,
            m1_0_1_0_1_0_0 * m0_0_0_0_2_2_1 == m1_0_1_0_3_2_1,
    ;
    let row3 = m1_0_1_2_1_0_0 * r;
    assert(row3 == -m1_0_1_2_1_0_0 + m1_0_1_2_1_2_0 - m1_0_1_2_3_0_0 - m1_0_1_2_3_2_1) by (nonlinear_arith)
        requires
            row3 == m1_0_1_2_1_0_0 * r,
            r == -m0_0_0_0_0_0_0 + m0_0_0_0_0_2_0 - m0_0_0_0_2_0_0 - m0_0_0_0_2_2_1,
            m1_0_1_2_1_0_0 * m0_0_0_0_0_0_0 == m1_0_1_2_1_0_0,
            m1_0_1_2_1_0_0 * m0_0_0_0_0_2_0 == m1_0_1_2_1_2_0,
            m1_0_1_2_1_0_0 * m0_0_0_0_2_0_0 == m1_0_1_2_3_0_0,
            m1_0_1_2_1_0_0 * m0_0_0_0_2_2_1 == m1_0_1_2_3_2_1,
    ;
    let row4 = m1_0_2_1_0_1_0 * r;
    assert(row4 == -m1_0_2_1_0_1_0 + m1_0_2_1_0_3_0 - m1_0_2_1_2_1_0 - m1_0_2_1_2_3_1) by (nonlinear_arith)
        requires
            row4 == m1_0_2_1_0_1_0 * r,
            r == -m0_0_0_0_0_0_0 + m0_0_0_0_0_2_0 - m0_0_0_0_2_0_0 - m0_0_0_0_2_2_1,
            m1_0_2_1_0_1_0 * m0_0_0_0_0_0_0 == m1_0_2_1_0_1_0,
            m1_0_2_1_0_1_0 * m0_0_0_0_0_2_0 == m1_0_2_1_0_3_0,
            m1_0_2_1_0_1_0 * m0_0_0_0_2_0_0 == m1_0_2_1_2_1_0,
            m1_0_2_1_0_1_0 * m0_0_0_0_2_2_1 == m1_0_2_1_2_3_1,
    ;
    let row5 = m1_0_3_0_1_0_0 * r;
    assert(row5 == -m1_0_3_0_1_0_0 + m1_0_3_0_1_2_0 - m1_0_3_0_3_0_0 - m1_0_3_0_3_2_1) by (nonlinear_arith)
        requires
            row5 == m1_0_3_0_1_0_0 * r,
            r == -m0_0_0_0_0_0_0 + m0_0_0_0_0_2_0 - m0_0_0_0_2_0_0 - m0_0_0_0_2_2_1,
            m1_0_3_0_1_0_0 * m0_0_0_0_0_0_0 == m1_0_3_0_1_0_0,
            m1_0_3_0_1_0_0 * m0_0_0_0_0_2_0 == m1_0_3_0_1_2_0,
            m1_0_3_0_1_0_0 * m0_0_0_0_2_0_0 == m1_0_3_0_3_0_0,
            m1_0_3_0_1_0_0 * m0_0_0_0_2_2_1 == m1_0_3_0_3_2_1,
    ;
    assert(p * r == -row0 + row1 - row2 + row3 - row4 - row5) by (nonlinear_arith)
        requires
            p == -m1_0_0_1_0_1_0 + m1_0_0_3_0_1_0 - m1_0_1_0_1_0_0 + m1_0_1_2_1_0_0 -
                m1_0_2_1_0_1_0 - m1_0_3_0_1_0_0,
            row0 == m1_0_0_1_0_1_0 * r,
            row1 == m1_0_0_3_0_1_0 * r,
            row2 == m1_0_1_0_1_0_0 * r,
            row3 == m1_0_1_2_1_0_0 * r,
            row4 == m1_0_2_1_0_1_0 * r,
            row5 == m1_0_3_0_1_0_0 * r,
    ;
}

/// A cofactor times the defect of a point.
proof fn lemma_associative_product_86(v: Vars, p: int, r: int)
    requires
        p == mono(v, 1, 2, 0, 1, 0, 1, 0) - mono(v, 1, 2, 0, 3, 0, 1, 0) + mono(v, 1, 2, 1, 0, 1,
            0, 0) - mono(v, 1, 2, 1, 2, 1, 0, 0) - mono(v, 1, 2, 1, 2, 1, 0, 1) + mono(v, 1, 2,
            2, 1, 0, 1, 0),
        r == -mono(v, 0, 0, 0, 0, 0, 0, 0) + mono(v, 0, 0, 0, 0, 0, 2, 0) - mono(v, 0, 0, 0, 0,
            2, 0, 0) - mono(v, 0, 0, 0, 0, 2, 2, 1),
    ensures
        p * r == -mono(v, 1, 2, 0, 1, 0, 1, 0) + mono(v, 1, 2, 0, 1, 0, 3, 0) - mono(v, 1, 2, 0, 1,
            2, 1, 0) - mono(v, 1, 2, 0, 1, 2, 3, 1) + mono(v, 1, 2, 0, 3, 0, 1, 0) - mono(v, 1,
            2, 0, 3, 0, 3, 0) + mono(v, 1, 2, 0, 3, 2, 1, 0) + mono(v, 1, 2, 0, 3, 2, 3, 1) -
            mono(v, 1, 2, 1, 0, 1, 0, 0) + mono(v, 1, 2, 1, 0, 1, 2, 0) - mono(v, 1, 2, 1, 0, 3,
            0, 0) - mono(v, 1, 2, 1, 0, 3, 2, 1) + mono(v, 1, 2, 1, 2, 1, 0, 0) + mono(v, 1, 2,
            1, 2, 1, 0, 1) - mono(v, 1, 2, 1, 2, 1, 2, 0) - mono(v, 1, 2, 1, 2, 1, 2, 1) +
            mono(v, 1, 2, 1, 2, 3, 0, 0) + mono(v, 1, 2, 1, 2, 3, 0, 1) + mono(v, 1, 2, 1, 2, 3,
            2, 1) + mono(v, 1, 2, 1, 2, 3, 2, 2) - mono(v, 1, 2, 2, 1, 0, 1, 0) + mono(v, 1, 2,
            2, 1, 0, 3, 0) - mono(v, 1, 2, 2, 1, 2, 1, 0) - mono(v, 1, 2, 2, 1, 2, 3, 1),
{
    let m1_2_0_1_0_1_0 = mono(v, 1, 2, 0, 1, 0, 1, 0);
    let m1_2_0_3_0_1_0 = mono(v, 1, 2, 0, 3, 0, 1, 0);
    let m1_2_1_0_1_0_0 = mono(v, 1, 2, 1, 0, 1, 0, 0);
    let m1_2_1_2_1_0_0 = mono(v, 1, 2, 1, 2, 1, 0, 0);
    let m1_2_1_2_1_0_1 = mono(v, 1, 2, 1, 2, 1, 0, 1);
    let m1_2_2_1_0_1_0 = mono(v, 1, 2, 2, 1, 0, 1, 0);
    let m0_0_0_0_0_0_0 = mono(v, 0, 0, 0, 0, 0, 0, 0);
    let m0_0_0_0_0_2_0 = mono(v, 0, 0, 0, 0, 0, 2, 0);
    let m0_0_0_0_2_0_0 = mono(v, 0, 0, 0, 0, 2, 0, 0);
    let m0_0_0_0_2_2_1 = mono(v, 0, 0, 0, 0, 2, 2, 1);
    let m1_2_0_1_0_3_0 = mono(v, 1, 2, 0, 1, 0, 3, 0);
    let m1_2_0_1_2_1_0 = mono(v, 1, 2, 0, 1, 2, 1, 0);
    let m1_2_0_1_2_3_1 = mono(v, 1, 2, 0, 1, 2, 3, 1);
    let m1_2_0_3_0_3_0 = mono(v, 1, 2, 0, 3, 0, 3, 0);
    let m1_2_0_3_2_1_0 = mono(v, 1, 2, 0, 3, 2, 1, 0);
    let m1_2_0_3_2_3_1 = mono(v, 1, 2, 0, 3, 2, 3, 1);
    let m1_2_1_0_1_2_0 = mono(v, 1, 2, 1, 0, 1, 2, 0);
    let m1_2_1_0_3_0_0 = mono(v, 1, 2, 1, 0, 3, 0, 0);
    let m1_2_1_0_3_2_1 = mono(v, 1, 2, 1, 0, 3, 2, 1);
    let m1_2_1_2_1_2_0 = mono(v, 1, 2, 1, 2, 1, 2, 0);
    let m1_2_1_2_3_0_0 = mono(v, 1, 2, 1, 2, 3, 0, 0);
    let m1_2_1_2_3_2_1 = mono(v, 1, 2, 1, 2, 3, 2, 1);
    let m1_2_1_2_1_2_1 = mono(v, 1, 2, 1, 2, 1, 2, 1);
    let m1_2_1_2_3_0_1 = mono(v, 1, 2, 1, 2, 3, 0, 1);
    let m1_2_1_2_3_2_2 = mono(v, 1, 2, 1, 2, 3, 2, 2);
    let m1_2_2_1_0_3_0 = mono(v, 1, 2, 2, 1, 0, 3, 0);
    let m1_2_2_1_2_1_0 = mono(v, 1, 2, 2, 1, 2, 1, 0);
    let m1_2_2_1_2_3_1 = mono(v, 1, 2, 2, 1, 2, 3, 1);
    lemma_mono_mul(v, 1, 2, 0, 1, 0, 1, 0, 0, 0, 0, 0, 0, 0, 0);
    lemma_mono_mul(v, 1, 2, 0, 1, 0, 1, 0, 0, 0, 0, 0, 0, 2, 0);
    lemma_mono_mul(v, 1, 2, 0, 1, 0, 1, 0, 0, 0, 0, 0, 2, 0, 0);
    lemma_mono_mul(v, 1, 2, 0, 1, 0, 1, 0, 0, 0, 0, 0, 2, 2, 1);
    lemma_mono_mul(v, 1, 2, 0, 3, 0, 1, 0, 0, 0, 0, 0, 0, 0, 0);
    lemma_mono_mul(v, 1, 2, 0, 3, 0, 1, 0, 0, 0, 0, 0, 0, 2, 0);
    lemma_mono_mul(v, 1, 2, 0, 3, 0, 1, 0, 0, 0, 0, 0, 2, 0, 0);
    lemma_mono_mul(v, 1, 2, 0, 3, 0, 1, 0, 0, 0, 0, 0, 2, 2, 1);
    lemma_mono_mul(v, 1, 2, 1, 0, 1, 0, 0, 0, 0, 0, 0, 0, 0, 0);
    lemma_mono_mul(v, 1, 2, 1, 0, 1, 0, 0, 0, 0, 0, 0, 0, 2, 0);
    lemma_mono_mul(v, 1, 2, 1, 0, 1, 0, 0, 0, 0, 0, 0, 2, 0, 0);
    lemma_mono_mul(v, 1, 2, 1, 0, 1, 0, 0, 0, 0, 0, 0, 2, 2, 1);
    lemma_mono_mul(v, 1, 2, 1, 2, 1, 0, 0, 0, 0, 0, 0, 0, 0, 0);
    lemma_mono_mul(v, 1, 2, 1, 2, 1, 0, 0, 0, 0, 0, 0, 0, 2, 0);
    lemma_mono_mul(v, 1, 2, 1, 2, 1, 0, 0, 0, 0, 0, 0, 2, 0, 0);
    lemma_mono_mul(v, 1, 2, 1, 2, 1, 0, 0, 0, 0, 0, 0, 2, 2, 1);
    lemma_mono_mul(v, 1, 2, 1, 2, 1, 0, 1, 0, 0, 0, 0, 0, 0, 0);
    lemma_mono_mul(v, 1, 2, 1, 2, 1, 0, 1, 0, 0, 0, 0, 0, 2, 0);
    lemma_mono_mul(v, 1, 2, 1, 2, 1, 0, 1, 0, 0, 0, 0, 2, 0, 0);
    lemma_mono_mul(v, 1, 2, 1, 2, 1, 0, 1, 0, 0, 0, 0, 2, 2, 1);
    lemma_mono_mul(v, 1, 2, 2, 1, 0, 1, 0, 0, 0, 0, 0, 0, 0, 0);
    lemma_mono_mul(v, 1, 2, 2, 1, 0, 1, 0, 0, 0, 0, 0, 0, 2, 0);
    lemma_mono_mul(v, 1, 2, 2, 1, 0, 1, 0, 0, 0, 0, 0, 2, 0, 0);
    lemma_mono_mul(v, 1, 2, 2, 1, 0, 1, 0, 0, 0, 0, 0, 2, 2, 1);
    let row0 = m1_2_0_1_0_1_0 * r;
    assert(row0 == -m1_2_0_1_0_1_0 + m1_2_0_1_0_3_0 - m1_2_0_1_2_1_0 - m1_2_0_1_2_3_1) by (nonlinear_arith)
        requires
            row0 == m1_2_0_1_0_1_0 * r,
            r == -m0_0_0_0_0_0_0 + m0_0_0_0_0_2_0 - m0_0_0_0_2_0_0 - m0_0_0_0_2_2_1,
            m1_2_0_1_0_1_0 * m0_0_0_0_0_0_0 == m1_2_0_1_0_1_0,
            m1_2_0_1_0_1_0 * m0_0_0_0_0_2_0 == m1_2_0_1_0_3_0,
            m1_2_0_1_0_1_0 * m0_0_0_0_2_0_0 == m1_2_0_1_2_1_0,
            m1_2_0_1_0_1_0 * m0_0_0_0_2_2_1 == m1_2_0_1_2_3_1,
    ;
    let row1 = m1_2_0_3_0_1_0 * r;
    assert(row1 == -m1_2_0_3_0_1_0 + m1_2_0_3_0_3_0 - m1_2_0_3_2_1_0 - m1_2_0_3_2_3_1) by (nonlinear_arith)
        requires
            row1 == m1_2_0_3_0_1_0 * r,
            r == -m0_0_0_0_0_0_0 + m0_0_0_0_0_2_0 - m0_0_0_0_2_0_0 - m0_0_0_0_2_2_1,
            m1_2_0_3_0_1_0 * m0_0_0_0_0_0_0 == m1_2_0_3_0_1_0,
            m1_2_0_3_0_1_0 * m0_0_0_0_0_2_0 == m1_2_0_3_0_3_0,
            m1_2_0_3_0_1_0 * m0_0_0_0_2_0_0 == m1_2_0_3_2_1_0,
            m1_2_0_3_0_1_0 * m0_0_0_0_2_2_1 == m1_2_0_3_2_3_1,
    ;
    let row2 = m1_2_1_0_1_0_0 * r;
    assert(row2 == -m1_2_1_0_1_0_0 + m1_2_1_0_1_2_0 - m1_2_1_0_3_0_0 - m1_2_1_0_3_2_1) by (nonlinear_arith)
        requires
            row2 == m1_2_1_0_1_0_0 * r,
            r == -m0_0_0_0_0_0_0 + m0_0_0_0_0_2_0 - m0_0_0_0_2_0_0 - m0_0_0_0_2_2_1,
            m1_2_1_0_1_0_0 * m0_0_0_0_0_0_0 == m1_2_1_0_1_0_0,
            m1_2_1_0_1_0_0 * m0_0_0_0_0_2_0 == m1_2_1_0_1_2_0,
            m1_2_1_0_1_0_0 * m0_0_0_0_2_0_0 == m1_2_1_0_3_0_0,
            m1_2_1_0_1_0_0 * m0_0_0_0_2_2_1 == m1_2_1_0_3_2_1,
    ;
    let row3 = m1_2_1_2_1_0_0 * r;
    assert(row3 == -m1_2_1_2_1_0_0 + m1_2_1_2_1_2_0 - m1_2_1_2_3_0_0 - m1_2_1_2_3_2_1) by (nonlinear_arith)
        requires
            row3 == m1_2_1_2_1_0_0 * r,
            r == -m0_0_0_0_0_0_0 + m0_0_0_0_0_2_0 - m0_0_0_0_2_0_0 - m0_0_0_0_2_2_1,
            m1_2_1_2_1_0_0 * m0_0_0_0_0_0_0 == m1_2_1_2_1_0_0,
            m1_2_1_2_1_0_0 * m0_0_0_0_0_2_0 == m1_2_1_2_1_2_0,
            m1_2_1_2_1_0_0 * m0_0_0_0_2_0_0 == m1_2_1_2_3_0_0,
            m1_2_1_2_1_0_0 * m0_0_0_0_2_2_1 == m1_2_1_2_3_2_1,
    ;
    let row4 = m1_2_1_2_1_0_1 * r;
    assert(row4 == -m1_2_1_2_1_0_1 + m1_2_1_2_1_2_1 - m1_2_1_2_3_0_1 - m1_2_1_2_3_2_2) by (nonlinear_arith)
        requires
            row4 == m1_2_1_2_1_0_1 * r,
            r == -m0_0_0_0_0_0_0 + m0_0_0_0_0_2_0 - m0_0_0_0_2_0_0 - m0_0_0_0_2_2_1,
            m1_2_1_2_1_0_1 * m0_0_0_0_0_0_0 == m1_2_1_2_1_0_1,
            m1_2_1_2_1_0_1 * m0_0_0_0_0_2_0 == m1_2_1_2_1_2_1,
            m1_2_1_2_1_0_1 * m0_0_0_0_2_0_0 == m1_2_1_2_3_0_1,
            m1_2_1_2_1_0_1 * m0_0_0_0_2_2_1 == m1_2_1_2_3_2_2,
    ;
    let row5 = m1_2_2_1_0_1_0 * r;
    assert(row5 == -m1_2_2_1_0_1_0 + m1_2_2_1_0_3_0 - m1_2_2_1_2_1_0 - m1_2_2_1_2_3_1) by (nonlinear_arith)
        requires
            row5 == m1_2_2_1_0_1_0 * r,
            r == -m0_0_0_0_0_0_0 + m0_0_0_0_0_2_0 - m0_0_0_0_2_0_0 - m0_0_0_0_2_2_1,
            m1_2_2_1_0_1_0 * m0_0_0_0_0_0_0 == m1_2_2_1_0_1_0,
            m1_2_2_1_0_1_0 * m0_0_0_0_0_2_0 == m1_2_2_1_0_3_0,
            m1_2_2_1_0_1_0 * m0_0_0_0_2_0_0 == m1_2_2_1_2_1_0,
            m1_2_2_1_0_1_0 * m0_0_0_0_2_2_1 == m1_2_2_1_2_3_1,
    ;
    assert(p * r == row0 - row1 + row2 - row3 - row4 + row5) by (nonlinear_arith)
        requires
            p == m1_2_0_1_0_1_0 - m1_2_0_3_0_1_0 + m1_2_1_0_1_0_0 - m1_2_1_2_1_0_0 -
                m1_2_1_2_1_0_1 + m1_2_2_1_0_1_0,
            row0 == m1_2_0_1_0_1_0 * r,
            row1 == m1_2_0_3_0_1_0 * r,
            row2 == m1_2_1_0_1_0_0 * r,
            row3 == m1_2_1_2_1_0_0 * r,
            row4 == m1_2_1_2_1_0_1 * r,
            row5 == m1_2_2_1_0_1_0 * r,
    ;
}

/// A cofactor times the defect of a point.
proof fn lemma_associative_product_87(v: Vars, p: int, r: int)
    requires
        p == mono(v, 1, 2, 2, 1, 0, 1, 1) + mono(v, 1, 2, 3, 0, 1, 0, 0) - mono(v, 2, 1, 0, 1, 1,
            0, 0) + mono(v, 2, 1, 0, 3, 1, 0, 0) - mono(v, 2, 1, 1, 0, 0, 1, 0) + mono(v, 2, 1,
            1, 2, 0, 1, 0),
        r == -mono(v, 0, 0, 0, 0, 0, 0, 0) + mono(v, 0, 0, 0, 0, 0, 2, 0) - mono(v, 0, 0, 0, 0,
            2, 0, 0) - mono(v, 0, 0, 0, 0, 2, 2, 1),
    ensures
        p * r == -mono(v, 1, 2, 2, 1, 0, 1, 1) + mono(v, 1, 2, 2, 1, 0, 3, 1) - mono(v, 1, 2, 2, 1,
            2, 1, 1) - mono(v, 1, 2, 2, 1, 2, 3, 2) - mono(v, 1, 2, 3, 0, 1, 0, 0) + mono(v, 1,
            2, 3, 0, 1, 2, 0) - mono(v, 1, 2, 3, 0, 3, 0, 0) - mono(v, 1, 2, 3, 0, 3, 2, 1) +
            mono(v, 2, 1, 0, 1, 1, 0, 0) - mono(v, 2, 1, 0, 1, 1, 2, 0) + mono(v, 2, 1, 0, 1, 3,
            0, 0) + mono(v, 2, 1, 0, 1, 3, 2, 1) - mono(v, 2, 1, 0, 3, 1, 0, 0) + mono(v, 2, 1,
            0, 3, 1, 2, 0) - mono(v, 2, 1, 0, 3, 3, 0, 0) - mono(v, 2, 1, 0, 3, 3, 2, 1) +
            mono(v, 2, 1, 1, 0, 0, 1, 0) - mono(v, 2, 1, 1, 0, 0, 3, 0) + mono(v, 2, 1, 1, 0, 2,
            1, 0) + mono(v, 2, 1, 1, 0, 2, 3, 1) - mono(v, 2, 1, 1, 2, 0, 1, 0) + mono(v, 2, 1,
            1, 2, 0, 3, 0) - mono(v, 2, 1, 1, 2, 2, 1, 0) - mono(v, 2, 1, 1, 2, 2, 3, 1),
{
    let m1_2_2_1_0_1_1 = mono(v, 1, 2, 2, 1, 0, 1, 1);
    let m1_2_3_0_1_0_0 = mono(v, 1, 2, 3, 0, 1, 0, 0);
    let m2_1_0_1_1_0_0 = mono(v, 2, 1, 0, 1, 1, 0, 0);
    let m2_1_0_3_1_0_0 = mono(v, 2, 1, 0, 3, 1, 0, 0);
    let m2_1_1_0_0_1_0 = mono(v, 2, 1, 1, 0, 0, 1, 0);
    let m2_1_1_2_0_1_0 = mono(v, 2, 1, 1, 2, 0, 1, 0);
    let m0_0_0_0_0_0_0 = mono(v, 0, 0, 0, 0, 0, 0, 0);
    let m0_0_0_0_0_2_0 = mono(v, 0, 0, 0, 0, 0, 2, 0);
    let m0_0_0_0_2_0_0 = mono(v, 0, 0, 0, 0, 2, 0, 0);
    let m0_0_0_0_2_2_1 = mono(v, 0, 0, 0, 0, 2, 2, 1);
    let m1_2_2_1_0_3_1 = mono(v, 1, 2, 2, 1, 0, 3, 1);
    let m1_2_2_1_2_1_1 = mono(v, 1, 2, 2, 1, 2, 1, 1);
    let m1_2_2_1_2_3_2 = mono(v, 1, 2, 2, 1, 2, 3, 2);
    let m1_2_3_0_1_2_0 = mono(v, 1, 2, 3, 0, 1, 2, 0);
    let m1_2_3_0_3_0_0 = mono(v, 1, 2, 3, 0, 3, 0, 0);
    let m1_2_3_0_3_2_1 = mono(v, 1, 2, 3, 0, 3, 2, 1);
    let m2_1_0_1_1_2_0 = mono(v, 2, 1, 0, 1, 1, 2, 0);
    let m2_1_0_1_3_0_0 = mono(v, 2, 1, 0, 1, 3, 0, 0);
    let m2_1_0_1_3_2_1 = mono(v, 2, 1, 0, 1, 3, 2, 1);
    let m2_1_0_3_1_2_0 = mono(v, 2, 1, 0, 3, 1, 2, 0);
    let m2_1_0_3_3_0_0 = mono(v, 2, 1, 0, 3, 3, 0, 0);
    let m2_1_0_3_3_2_1 = mono(v, 2, 1, 0, 3, 3, 2, 1);
    let m2_1_1_0_0_3_0 = mono(v, 2, 1, 1, 0, 0, 3, 0);
    let m2_1_1_0_2_1_0 = mono(v, 2, 1, 1, 0, 2, 1, 0);
    let m2_1_1_0_2_3_1 = mono(v, 2, 1, 1, 0, 2, 3, 1);
    let m2_1_1_2_0_3_0 = mono(v, 2, 1, 1, 2, 0, 3, 0);
    let m2_1_1_2_2_1_0 = mono(v, 2, 1, 1, 2, 2, 1, 0);
    let m2_1_1_2_2_3_1 = mono(v, 2, 1, 1, 2, 2, 3, 1);
    lemma_mono_mul(v, 1, 2, 2, 1, 0, 1, 1, 0, 0, 0, 0, 0, 0, 0);
    lemma_mono_mul(v, 1, 2, 2, 1, 0, 1, 1, 0, 0, 0, 0, 0, 2, 0);
    lemma_mono_mul(v, 1, 2, 2, 1, 0, 1, 1, 0, 0, 0, 0, 2, 0, 0);
    lemma_mono_mul(v, 1, 2, 2, 1, 0, 1, 1, 0, 0, 0, 0, 2, 2, 1);
    lemma_mono_mul(v, 1, 2, 3, 0, 1, 0, 0, 0, 0, 0, 0, 0, 0, 0);
    lemma_mono_mul(v, 1, 2, 3, 0, 1, 0, 0, 0, 0, 0, 0, 0, 2, 0);
    lemma_mono_mul(v, 1, 2, 3, 0, 1, 0, 0, 0, 0, 0, 0, 2, 0, 0);
    lemma_mono_mul(v, 1, 2, 3, 0, 1, 0, 0, 0, 0, 0, 0, 2, 2, 1);
    lemma_mono_mul(v, 2, 1, 0, 1, 1, 0, 0, 0, 0, 0, 0, 0, 0, 0);
    lemma_mono_mul(v, 2, 1, 0, 1, 1, 0, 0, 0, 0, 0, 0, 0, 2, 0);
    lemma_mono_mul(v, 2, 1, 0, 1, 1, 0, 0, 0, 0, 0, 0, 2, 0, 0);
    lemma_mono_mul(v, 2, 1, 0, 1, 1, 0, 0, 0, 0, 0, 0, 2, 2, 1);
    lemma_mono_mul(v, 2, 1, 0, 3, 1, 0, 0, 0, 0, 0, 0, 0, 0, 0);
    lemma_mono_mul(v, 2, 1, 0, 3, 1, 0, 0, 0, 0, 0, 0, 0, 2, 0);
    lemma_mono_mul(v, 2, 1, 0, 3, 1, 0, 0, 0, 0, 0, 0, 2, 0, 0);
    lemma_mono_mul(v, 2, 1, 0, 3, 1, 0, 0, 0, 0, 0, 0, 2, 2, 1);
    lemma_mono_mul(v, 2, 1, 1, 0, 0, 1, 0, 0, 0, 0, 0, 0, 0, 0);
    lemma_mono_mul(v, 2, 1, 1, 0, 0, 1, 0, 0, 0, 0, 0, 0, 2, 0);
    lemma_mono_mul(v, 2, 1, 1, 0, 0, 1, 0, 0, 0, 0, 0, 2, 0, 0);
    lemma_mono_mul(v, 2, 1, 1, 0, 0, 1, 0, 0, 0, 0, 0, 2, 2, 1);
    lemma_mono_mul(v, 2, 1, 1, 2, 0, 1, 0, 0, 0, 0, 0, 0, 0, 0);
    lemma_mono_mul(v, 2, 1, 1, 2, 0, 1, 0, 0, 0, 0, 0, 0, 2, 0);
    lemma_mono_mul(v, 2, 1, 1, 2, 0, 1, 0, 0, 0, 0, 0, 2, 0, 0);
    lemma_mono_mul(v, 2, 1, 1, 2, 0, 1, 0, 0, 0, 0, 0, 2, 2, 1);
    let row0 = m1_2_2_1_0_1_1 * r;
    assert(row0 == -m1_2_2_1_0_1_1 + m1_2_2_1_0_3_1 - m1_2_2_1_2_1_1 - m1_2_2_1_2_3_2) by (nonlinear_arith)
        requires
            row0 == m1_2_2_1_0_1_1 * r,
            r == -m0_0_0_0_0_0_0 + m0_0_0_0_0_2_0 - m0_0_0_0_2_0_0 - m0_0_0_0_2_2_1,
            m1_2_2_1_0_1_1 * m0_0_0_0_0_0_0 == m1_2_2_1_0_1_1,
            m1_2_2_1_0_1_1 * m0_0_0_0_0_2_0 == m1_2_2_1_0_3_1,
            m1_2_2_1_0_1_1 * m0_0_0_0_2_0_0 == m1_2_2_1_2_1_1,
            m1_2_2_1_0_1_1 * m0_0_0_0_2_2_1 == m1_2_2_1_2_3_2,
    ;
    let row1 = m1_2_3_0_1_0_0 * r;
    assert(row1 == -m1_2_3_0_1_0_0 + m1_2_3_0_1_2_0 - m1_2_3_0_3_0_0 - m1_2_3_0_3_2_1) by (nonlinear_arith)
        requires
            row1 == m1_2_3_0_1_0_0 * r,
            r == -m0_0_0_0_0_0_0 + m0_0_0_0_0_2_0 - m0_0_0_0_2_0_0 - m0_0_0_0_2_2_1,
            m1_2_3_0_1_0_0 * m0_0_0_0_0_0_0 == m1_2_3_0_1_0_0,
            m1_2_3_0_1_0_0 * m0_0_0_0_0_2_0 == m1_2_3_0_1_2_0,
            m1_2_3_0_1_0_0 * m0_0_0_0_2_0_0 == m1_2_3_0_3_0_0,
            m1_2_3_0_1_0_0 * m0_0_0_0_2_2_1 == m1_2_3_0_3_2_1,
    ;
    let row2 = m2_1_0_1_1_0_0 * r;
    assert(row2 == -m2_1_0_1_1_0_0 + m2_1_0_1_1_2_0 - m2_1_0_1_3_0_0 - m2_1_0_1_3_2_1) by (nonlinear_arith)
        requires
            row2 == m2_1_0_1_1_0_0 * r,
            r == -m0_0_0_0_0_0_0 + m0_0_0_0_0_2_0 - m0_0_0_0_2_0_0 - m0_0_0_0_2_2_1,
            m2_1_0_1_1_0_0 * m0_0_0_0_0_0_0 == m2_1_0_1_1_0_0,
            m2_1_0_1_1_0_0 * m0_0_0_0_0_2_0 == m2_1_0_1_1_2_0,
            m2_1_0_1_1_0_0 * m0_0_0_0_2_0_0 == m2_1_0_1_3_0_0,
            m2_1_0_1_1_0_0 * m0_0_0_0_2_2_1 == m2_1_0_1_3_2_1,
    ;
    let row3 = m2_1_0_3_1_0_0 * r;
    assert(row3 == -m2_1_0_3_1_0_0 + m2_1_0_3_1_2_0 - m2_1_0_3_3_0_0 - m2_1_0_3_3_2_1) by (nonlinear_arith)
        requires
            row3 == m2_1_0_3_1_0_0 * r,
            r == -m0_0_0_0_0_0_0 + m0_0_0_0_0_2_0 - m0_0_0_0_2_0_0 - m0_0_0_0_2_2_1,
            m2_1_0_3_1_0_0 * m0_0_0_0_0_0_0 == m2_1_0_3_1_0_0,
            m2_1_0_3_1_0_0 * m0_0_0_0_0_2_0 == m2_1_0_3_1_2_0,
            m2_1_0_3_1_0_0 * m0_0_0_0_2_0_0 == m2_1_0_3_3_0_0,
            m2_1_0_3_1_0_0 * m0_0_0_0_2_2_1 == m2_1_0_3_3_2_1,
    ;
    let row4 = m2_1_1_0_0_1_0 * r;
    assert(row4 == -m2_1_1_0_0_1_0 + m2_1_1_0_0_3_0 - m2_1_1_0_2_1_0 - m2_1_1_0_2_3_1) by (nonlinear_arith)
        requires
            row4 == m2_1_1_0_0_1_0 * r,
            r == -m0_0_0_0_0_0_0 + m0_0_0_0_0_2_0 - m0_0_0_0_2_0_0 - m0_0_0_0_2_2_1,
            m2_1_1_0_0_1_0 * m0_0_0_0_0_0_0 == m2_1_1_0_0_1_0,
            m2_1_1_0_0_1_0 * m0_0_0_0_0_2_0 == m2_1_1_0_0_3_0,
            m2_1_1_0_0_1_0 * m0_0_0_0_2_0_0 == m2_1_1_0_2_1_0,
            m2_1_1_0_0_1_0 * m0_0_0_0_2_2_1 == m2_1_1_0_2_3_1,
    ;
    let row5 = m2_1_1_2_0_1_0 * r;
    assert(row5 == -m2_1_1_2_0_1_0 + m2_1_1_2_0_3_0 - m2_1_1_2_2_1_0 - m2_1_1_2_2_3_1) by (nonlinear_arith)
        requires
            row5 == m2_1_1_2_0_1_0 * r,
            r == -m0_0_0_0_0_0_0 + m0_0_0_0_0_2_0 - m0_0_0_0_2_0_0 - m0_0_0_0_2_2_1,
            m2_1_1_2_0_1_0 * m0_0_0_0_0_0_0 == m2_1_1_2_0_1_0,
            m2_1_1_2_0_1_0 * m0_0_0_0_0_2_0 == m2_1_1_2_0_3_0,
            m2_1_1_2_0_1_0 * m0_0_0_0_2_0_0 == m2_1_1_2_2_1_0,
            m2_1_1_2_0_1_0 * m0_0_0_0_2_2_1 == m2_1_1_2_2_3_1,
    ;
    assert(p * r == row0 + row1 - row2 + row3 - row4 + row5) by (nonlinear_arith)
        requires
            p == m1_2_2_1_0_1_1 + m1_2_3_0_1_0_0 - m2_1_0_1_1_0_0 + m2_1_0_3_1_0_0 -
                m2_1_1_0_0_1_0 + m2_1_1_2_0_1_0,
            row0 == m1_2_2_1_0_1_1 * r,
            row1 == m1_2_3_0_1_0_0 * r,
            row2 == m2_1_0_1_1_0_0 * r,
            row3 == m2_1_0_3_1_0_0 * r,
            row4 == m2_1_1_0_0_1_0 * r,
            row5 == m2_1_1_2_0_1_0 * r,
    ;
}

/// A cofactor times the defect of a point.
proof fn lemma_associative_product_88(v: Vars, p: int, r: int)
    requires
        p == mono(v, 2, 1, 1, 2, 0, 1, 1) - mono(v, 2, 1, 2, 1, 1, 0, 0) - mono(v, 2, 1, 2, 1, 1,
            0, 1) - mono(v, 2, 1, 3, 0, 0, 1, 0) - mono(v, 3, 0, 0, 1, 0, 1, 0) + mono(v, 3, 0,
            0, 3, 0, 1, 0),
        r == -mono(v, 0, 0, 0, 0, 0, 0, 0) + mono(v, 0, 0, 0, 0, 0, 2, 0) - mono(v, 0, 0, 0, 0,
            2, 0, 0) - mono(v, 0, 0, 0, 0, 2, 2, 1),
    ensures
        p * r == -mono(v, 2, 1, 1, 2, 0, 1, 1) + mono(v, 2, 1, 1, 2, 0, 3, 1) - mono(v, 2, 1, 1, 2,
            2, 1, 1) - mono(v, 2, 1, 1, 2, 2, 3, 2) + mono(v, 2, 1, 2, 1, 1, 0, 0) + mono(v, 2,
            1, 2, 1, 1, 0, 1) - mono(v, 2, 1, 2, 1, 1, 2, 0) - mono(v, 2, 1, 2, 1, 1, 2, 1) +
            mono(v, 2, 1, 2, 1, 3, 0, 0) + mono(v, 2, 1, 2, 1, 3, 0, 1) + mono(v, 2, 1, 2, 1, 3,
            2, 1) + mono(v, 2, 1, 2, 1, 3, 2, 2) + mono(v, 2, 1, 3, 0, 0, 1, 0) - mono(v, 2, 1,
            3, 0, 0, 3, 0) + mono(v, 2, 1, 3, 0, 2, 1, 0) + mono(v, 2, 1, 3, 0, 2, 3, 1) +
            mono(v, 3, 0, 0, 1, 0, 1, 0) - mono(v, 3, 0, 0, 1, 0, 3, 0) + mono(v, 3, 0, 0, 1, 2,
            1, 0) + mono(v, 3, 0, 0, 1, 2, 3, 1) - mono(v, 3, 0, 0, 3, 0, 1, 0) + mono(v, 3, 0,
            0, 3, 0, 3, 0) - mono(v, 3, 0, 0, 3, 2, 1, 0) - mono(v, 3, 0, 0, 3, 2, 3, 1),
{
    let m2_1_1_2_0_1_1 = mono(v, 2, 1, 1, 2, 0, 1, 1);
    let m2_1_2_1_1_0_0 = mono(v, 2, 1, 2, 1, 1, 0, 0);
    let m2_1_2_1_1_0_1 = mono(v, 2, 1, 2, 1, 1, 0, 1);
    let m2_1_3_0_0_1_0 = mono(v, 2, 1, 3, 0, 0, 1, 0);
    let m3_0_0_1_0_1_0 = mono(v, 3, 0, 0, 1, 0, 1, 0);
    let m3_0_0_3_0_1_0 = mono(v, 3, 0, 0, 3, 0, 1, 0);
    let m0_0_0_0_0_0_0 = mono(v, 0, 0, 0, 0, 0, 0, 0);
    let m0_0_0_0_0_2_0 = mono(v, 0, 0, 0, 0, 0, 2, 0);
    let m0_0_0_0_2_0_0 = mono(v, 0, 0, 0, 0, 2, 0, 0);
    let m0_0_0_0_2_2_1 = mono(v, 0, 0, 0, 0, 2, 2, 1);
    let m2_1_1_2_0_3_1 = mono(v, 2, 1, 1, 2, 0, 3, 1);
    let m2_1_1_2_2_1_1 = mono(v, 2, 1, 1, 2, 2, 1, 1);
    let m2_1_1_2_2_3_2 = mono(v, 2, 1, 1, 2, 2, 3, 2);
    let m2_1_2_1_1_2_0 = mono(v, 2, 1, 2, 1, 1, 2, 0);
    let m2_1_2_1_3_0_0 = mono(v, 2, 1, 2, 1, 3, 0, 0);
    let m2_1_2_1_3_2_1 = mono(v, 2, 1, 2, 1, 3, 2, 1);
    let m2_1_2_1_1_2_1 = mono(v, 2, 1, 2, 1, 1, 2, 1);
    let m2_1_2_1_3_0_1 = mono(v, 2, 1, 2, 1, 3, 0, 1);
    let m2_1_2_1_3_2_2 = mono(v, 2, 1, 2, 1, 3, 2, 2);
    let m2_1_3_0_0_3_0 = mono(v, 2, 1, 3, 0, 0, 3, 0);
    let m2_1_3_0_2_1_0 = mono(v, 2, 1, 3, 0, 2, 1, 0);
    let m2_1_3_0_2_3_1 = mono(v, 2, 1, 3, 0, 2, 3, 1);
    let m3_0_0_1_0_3_0 = mono(v, 3, 0, 0, 1, 0, 3, 0);
    let m3_0_0_1_2_1_0 = mono(v, 3, 0, 0, 1, 2, 1, 0);
    let m3_0_0_1_2_3_1 = mono(v, 3, 0, 0, 1, 2, 3, 1);
    let m3_0_0_3_0_3_0 = mono(v, 3, 0, 0, 3, 0, 3, 0);
    let m3_0_0_3_2_1_0 = mono(v, 3, 0, 0, 3, 2, 1, 0);
    let m3_0_0_3_2_3_1 = mono(v, 3, 0, 0, 3, 2, 3, 1);
    lemma_mono_mul(v, 2, 1, 1, 2, 0, 1, 1, 0, 0, 0, 0, 0, 0, 0);
    lemma_mono_mul(v, 2, 1, 1, 2, 0, 1, 1, 0, 0, 0, 0, 0, 2, 0);
    lemma_mono_mul(v, 2, 1, 1, 2, 0, 1, 1, 0, 0, 0, 0, 2, 0, 0);
    lemma_mono_mul(v, 2, 1, 1, 2, 0, 1, 1, 0, 0, 0, 0, 2, 2, 1);
    lemma_mono_mul(v, 2, 1, 2, 1, 1, 0, 0, 0, 0, 0, 0, 0, 0, 0);
    lemma_mono_mul(v, 2, 1, 2, 1, 1, 0, 0, 0, 0, 0, 0, 0, 2, 0);
    lemma_mono_mul(v, 2, 1, 2, 1, 1, 0, 0, 0, 0, 0, 0, 2, 0, 0);
    lemma_mono_mul(v, 2, 1, 2, 1, 1, 0, 0, 0, 0, 0, 0, 2, 2, 1);
    lemma_mono_mul(v, 2, 1, 2, 1, 1, 0, 1, 0, 0, 0, 0, 0, 0, 0);
    lemma_mono_mul(v, 2, 1, 2, 1, 1, 0, 1, 0, 0, 0, 0, 0, 2, 0);
    lemma_mono_mul(v, 2, 1, 2, 1, 1, 0, 1, 0, 0, 0, 0, 2, 0, 0);
    lemma_mono_mul(v, 2, 1, 2, 1, 1, 0, 1, 0, 0, 0, 0, 2, 2, 1);
    lemma_mono_mul(v, 2, 1, 3, 0, 0, 1, 0, 0, 0, 0, 0, 0, 0, 0);
    lemma_mono_mul(v, 2, 1, 3, 0, 0, 1, 0, 0, 0, 0, 0, 0, 2, 0);
    lemma_mono_mul(v, 2, 1, 3, 0, 0, 1, 0, 0, 0, 0, 0, 2, 0, 0);
    lemma_mono_mul(v, 2, 1, 3, 0, 0, 1, 0, 0, 0, 0, 0, 2, 2, 1);
    lemma_mono_mul(v, 3, 0, 0, 1, 0, 1, 0, 0, 0, 0, 0, 0, 0, 0);
    lemma_mono_mul(v, 3, 0, 0, 1, 0, 1, 0, 0, 0, 0, 0, 0, 2, 0);
    lemma_mono_mul(v, 3, 0, 0, 1, 0, 1, 0, 0, 0, 0, 0, 2, 0, 0);
    lemma_mono_mul(v, 3, 0, 0, 1, 0, 1, 0, 0, 0, 0, 0, 2, 2, 1);
    lemma_mono_mul(v, 3, 0, 0, 3, 0, 1, 0, 0, 0, 0, 0, 0, 0, 0);
    lemma_mono_mul(v, 3, 0, 0, 3, 0, 1, 0, 0, 0, 0, 0, 0, 2, 0);
    lemma_mono_mul(v, 3, 0, 0, 3, 0, 1, 0, 0, 0, 0, 0, 2, 0, 0);
    lemma_mono_mul(v, 3, 0, 0, 3, 0, 1, 0, 0, 0, 0, 0, 2, 2, 1);
    let row0 = m2_1_1_2_0_1_1 * r;
    assert(row0 == -m2_1_1_2_0_1_1 + m2_1_1_2_0_3_1 - m2_1_1_2_2_1_1 - m2_1_1_2_2_3_2) by (nonlinear_arith)
        requires
            row0 == m2_1_1_2_0_1_1 * r,
            r == -m0_0_0_0_0_0_0 + m0_0_0_0_0_2_0 - m0_0_0_0_2_0_0 - m0_0_0_0_2_2_1,
            m2_1_1_2_0_1_1 * m0_0_0_0_0_0_0 == m2_1_1_2_0_1_1,
            m2_1_1_2_0_1_1 * m0_0_0_0_0_2_0 == m2_1_1_2_0_3_1,
            m2_1_1_2_0_1_1 * m0_0_0_0_2_0_0 == m2_1_1_2_2_1_1,
            m2_1_1_2_0_1_1 * m0_0_0_0_2_2_1 == m2_1_1_2_2_3_2,
    ;
    let row1 = m2_1_2_1_1_0_0 * r;
    assert(row1 == -m2_1_2_1_1_0_0 + m2_1_2_1_1_2_0 - m2_1_2_1_3_0_0 - m2_1_2_1_3_2_1) by (nonlinear_arith)
        requires
            row1 == m2_1_2_1_1_0_0 * r,
            r == -m0_0_0_0_0_0_0 + m0_0_0_0_0_2_0 - m0_0_0_0_2_0_0 - m0_0_0_0_2_2_1,
            m2_1_2_1_1_0_0 * m0_0_0_0_0_0_0 == m2_1_2_1_1_0_0,
            m2_1_2_1_1_0_0 * m0_0_0_0_0_2_0 == m2_1_2_1_1_2_0,
            m2_1_2_1_1_0_0 * m0_0_0_0_2_0_0 == m2_1_2_1_3_0_0,
            m2_1_2_1_1_0_0 * m0_0_0_0_2_2_1 == m2_1_2_1_3_2_1,
    ;
    let row2 = m2_1_2_1_1_0_1 * r;
    assert(row2 == -m2_1_2_1_1_0_1 + m2_1_2_1_1_2_1 - m2_1_2_1_3_0_1 - m2_1_2_1_3_2_2) by (nonlinear_arith)
        requires
            row2 == m2_1_2_1_1_0_1 * r,
            r == -m0_0_0_0_0_0_0 + m0_0_0_0_0_2_0 - m0_0_0_0_2_0_0 - m0_0_0_0_2_2_1,
            m2_1_2_1_1_0_1 * m0_0_0_0_0_0_0 == m2_1_2_1_1_0_1,
            m2_1_2_1_1_0_1 * m0_0_0_0_0_2_0 == m2_1_2_1_1_2_1,
            m2_1_2_1_1_0_1 * m0_0_0_0_2_0_0 == m2_1_2_1_3_0_1,
            m2_1_2_1_1_0_1 * m0_0_0_0_2_2_1 == m2_1_2_1_3_2_2,
    ;
    let row3 = m2_1_3_0_0_1_0 * r;
    assert(row3 == -m2_1_3_0_0_1_0 + m2_1_3_0_0_3_0 - m2_1_3_0_2_1_0 - m2_1_3_0_2_3_1) by (nonlinear_arith)
        requires
            row3 == m2_1_3_0_0_1_0 * r,
            r == -m0_0_0_0_0_0_0 + m0_0_0_0_0_2_0 - m0_0_0_0_2_0_0 - m0_0_0_0_2_2_1,
            m2_1_3_0_0_1_0 * m0_0_0_0_0_0_0 == m2_1_3_0_0_1_0,
            m2_1_3_0_0_1_0 * m0_0_0_0_0_2_0 == m2_1_3_0_0_3_0,
            m2_1_3_0_0_1_0 * m0_0_0_0_2_0_0 == m2_1_3_0_2_1_0,
            m2_1_3_0_0_1_0 * m0_0_0_0_2_2_1 == m2_1_3_0_2_3_1,
    ;
    let row4 = m3_0_0_1_0_1_0 * r;
    assert(row4 == -m3_0_0_1_0_1_0 + m3_0_0_1_0_3_0 - m3_0_0_1_2_1_0 - m3_0_0_1_2_3_1) by (nonlinear_arith)
        requires
            row4 == m3_0_0_1_0_1_0 * r,
            r == -m0_0_0_0_0_0_0 + m0_0_0_0_0_2_0 - m0_0_0_0_2_0_0 - m0_0_0_0_2_2_1,
            m3_0_0_1_0_1_0 * m0_0_0_0_0_0_0 == m3_0_0_1_0_1_0,
            m3_0_0_1_0_1_0 * m0_0_0_0_0_2_0 == m3_0_0_1_0_3_0,
            m3_0_0_1_0_1_0 * m0_0_0_0_2_0_0 == m3_0_0_1_2_1_0,
            m3_0_0_1_0_1_0 * m0_0_0_0_2_2_1 == m3_0_0_1_2_3_1,
    ;
    let row5 = m3_0_0_3_0_1_0 * r;
    assert(row5 == -m3_0_0_3_0_1_0 + m3_0_0_3_0_3_0 - m3_0_0_3_2_1_0 - m3_0_0_3_2_3_1) by (nonlinear_arith)
        requires
            row5 == m3_0_0_3_0_1_0 * r,
            r == -m0_0_0_0_0_0_0 + m0_0_0_0_0_2_0 - m0_0_0_0_2_0_0 - m0_0_0_0_2_2_1,
            m3_0_0_3_0_1_0 * m0_0_0_0_0_0_0 == m3_0_0_3_0_1_0,
            m3_0_0_3_0_1_0 * m0_0_0_0_0_2_0 == m3_0_0_3_0_3_0,
            m3_0_0_3_0_1_0 * m0_0_0_0_2_0_0 == m3_0_0_3_2_1_0,
            m3_0_0_3_0_1_0 * m0_0_0_0_2_2_1 == m3_0_0_3_2_3_1,
    ;
    assert(p * r == row0 - row1 - row2 - row3 - row4 + row5) by (nonlinear_arith)
        requires
            p == m2_1_1_2_0_1_1 - m2_1_2_1_1_0_0 - m2_1_2_1_1_0_1 - m2_1_3_0_0_1_0 -
                m3_0_0_1_0_1_0 + m3_0_0_3_0_1_0,
            row0 == m2_1_1_2_0_1_1 * r,
            row1 == m2_1_2_1_1_0_0 * r,
            row2 == m2_1_2_1_1_0_1 * r,
            row3 == m2_1_3_0_0_1_0 * r,
            row4 == m3_0_0_1_0_1_0 * r,
            row5 == m3_0_0_3_0_1_0 * r,
    ;
}

/// A cofactor times the defect of a point.
proof fn lemma_associative_product_89(v: Vars, p: int, r: int)
    requires
        p == -mono(v, 3, 0, 1, 0, 1, 0, 0) + mono(v, 3, 0, 1, 2, 1, 0, 0) - mono(v, 3, 0, 2, 1,
            0, 1, 0) - mono(v, 3, 0, 3, 0, 1, 0, 0),
        r == -mono(v, 0, 0, 0, 0, 0, 0, 0) + mono(v, 0, 0, 0, 0, 0, 2, 0) - mono(v, 0, 0, 0, 0,
            2, 0, 0) - mono(v, 0, 0, 0, 0, 2, 2, 1),
    ensures
        p * r == mono(v, 3, 0, 1, 0, 1, 0, 0) - mono(v, 3, 0, 1, 0, 1, 2, 0) + mono(v, 3, 0, 1, 0, 3,
            0, 0) + mono(v, 3, 0, 1, 0, 3, 2, 1) - mono(v, 3, 0, 1, 2, 1, 0, 0) + mono(v, 3, 0,
            1, 2, 1, 2, 0) - mono(v, 3, 0, 1, 2, 3, 0, 0) - mono(v, 3, 0, 1, 2, 3, 2, 1) +
            mono(v, 3, 0, 2, 1, 0, 1, 0) - mono(v, 3, 0, 2, 1, 0, 3, 0) + mono(v, 3, 0, 2, 1, 2,
            1, 0) + mono(v, 3, 0, 2, 1, 2, 3, 1) + mono(v, 3, 0, 3, 0, 1, 0, 0) - mono(v, 3, 0,
            3, 0, 1, 2, 0) + mono(v, 3, 0, 3, 0, 3, 0, 0) + mono(v, 3, 0, 3, 0, 3, 2, 1),
{
    let m3_0_1_0_1_0_0 = mono(v, 3, 0, 1, 0, 1, 0, 0);
    let m3_0_1_2_1_0_0 = mono(v, 3, 0, 1, 2, 1, 0, 0);
    let m3_0_2_1_0_1_0 = mono(v, 3, 0, 2, 1, 0, 1, 0);
    let m3_0_3_0_1_0_0 = mono(v, 3, 0, 3, 0, 1, 0, 0);
    let m0_0_0_0_0_0_0 = mono(v, 0, 0, 0, 0, 0, 0, 0);
    let m0_0_0_0_0_2_0 = mono(v, 0, 0, 0, 0, 0, 2, 0);
    let m0_0_0_0_2_0_0 = mono(v, 0, 0, 0, 0, 2, 0, 0);
    let m0_0_0_0_2_2_1 = mono(v, 0, 0, 0, 0, 2, 2, 1);
    let m3_0_1_0_1_2_0 = mono(v, 3, 0, 1, 0, 1, 2, 0);
    let m3_0_1_0_3_0_0 = mono(v, 3, 0, 1, 0, 3, 0, 0);
    let m3_0_1_0_3_2_1 = mono(v, 3, 0, 1, 0, 3, 2, 1);
    let m3_0_1_2_1_2_0 = mono(v, 3, 0, 1, 2, 1, 2, 0);
    let m3_0_1_2_3_0_0 = mono(v, 3, 0, 1, 2, 3, 0, 0);
    let m3_0_1_2_3_2_1 = mono(v, 3, 0, 1, 2, 3, 2, 1);
    let m3_0_2_1_0_3_0 = mono(v, 3, 0, 2, 1, 0, 3, 0);
    let m3_0_2_1_2_1_0 = mono(v, 3, 0, 2, 1, 2, 1, 0);
    let m3_0_2_1_2_3_1 = mono(v, 3, 0, 2, 1, 2, 3, 1);
    let m3_0_3_0_1_2_0 = mono(v, 3, 0, 3, 0, 1, 2, 0);
    let m3_0_3_0_3_0_0 = mono(v, 3, 0, 3, 0, 3, 0, 0);
    let m3_0_3_0_3_2_1 = mono(v, 3, 0, 3, 0, 3, 2, 1);
    lemma_mono_mul(v, 3, 0, 1, 0, 1, 0, 0, 0, 0, 0, 0, 0, 0, 0);
    lemma_mono_mul(v, 3, 0, 1, 0, 1, 0, 0, 0, 0, 0, 0, 0, 2, 0);
    lemma_mono_mul(v, 3, 0, 1, 0, 1, 0, 0, 0, 0, 0, 0, 2, 0, 0);
    lemma_mono_mul(v, 3, 0, 1, 0, 1, 0, 0, 0, 0, 0, 0, 2, 2, 1);
    lemma_mono_mul(v, 3, 0, 1, 2, 1, 0, 0, 0, 0, 0, 0, 0, 0, 0);
    lemma_mono_mul(v, 3, 0, 1, 2, 1, 0, 0, 0, 0, 0, 0, 0, 2, 0);
    lemma_mono_mul(v, 3, 0, 1, 2, 1, 0, 0, 0, 0, 0, 0, 2, 0, 0);
    lemma_mono_mul(v, 3, 0, 1, 2, 1, 0, 0, 0, 0, 0, 0, 2, 2, 1);
    lemma_mono_mul(v, 3, 0, 2, 1, 0, 1, 0, 0, 0, 0, 0, 0, 0, 0);
    lemma_mono_mul(v, 3, 0, 2, 1, 0, 1, 0, 0, 0, 0, 0, 0, 2, 0);
    lemma_mono_mul(v, 3, 0, 2, 1, 0, 1, 0, 0, 0, 0, 0, 2, 0, 0);
    lemma_mono_mul(v, 3, 0, 2, 1, 0, 1, 0, 0, 0, 0, 0, 2, 2, 1);
    lemma_mono_mul(v, 3, 0, 3, 0, 1, 0, 0, 0, 0, 0, 0, 0, 0, 0);
    lemma_mono_mul(v, 3, 0, 3, 0, 1, 0, 0, 0, 0, 0, 0, 0, 2, 0);
    lemma_mono_mul(v, 3, 0, 3, 0, 1, 0, 0, 0, 0, 0, 0, 2, 0, 0);
    lemma_mono_mul(v, 3, 0, 3, 0, 1, 0, 0, 0, 0, 0, 0, 2, 2, 1);
    let row0 = m3_0_1_0_1_0_0 * r;
    assert(row0 == -m3_0_1_0_1_0_0 + m3_0_1_0_1_2_0 - m3_0_1_0_3_0_0 - m3_0_1_0_3_2_1) by (nonlinear_arith)
        requires
            row0 == m3_0_1_0_1_0_0 * r,
            r == -m0_0_0_0_0_0_0 + m0_0_0_0_0_2_0 - m0_0_0_0_2_0_0 - m0_0_0_0_2_2_1,
            m3_0_1_0_1_0_0 * m0_0_0_0_0_0_0 == m3_0_1_0_1_0_0,
            m3_0_1_0_1_0_0 * m0_0_0_0_0_2_0 == m3_0_1_0_1_2_0,
            m3_0_1_0_1_0_0 * m0_0_0_0_2_0_0 == m3_0_1_0_3_0_0,
            m3_0_1_0_1_0_0 * m0_0_0_0_2_2_1 == m3_0_1_0_3_2_1,
    ;
    let row1 = m3_0_1_2_1_0_0 * r;
    assert(row1 == -m3_0_1_2_1_0_0 + m3_0_1_2_1_2_0 - m3_0_1_2_3_0_0 - m3_0_1_2_3_2_1) by (nonlinear_arith)
        requires
            row1 == m3_0_1_2_1_0_0 * r,
            r == -m0_0_0_0_0_0_0 + m0_0_0_0_0_2_0 - m0_0_0_0_2_0_0 - m0_0_0_0_2_2_1,
            m3_0_1_2_1_0_0 * m0_0_0_0_0_0_0 == m3_0_1_2_1_0_0,
            m3_0_1_2_1_0_0 * m0_0_0_0_0_2_0 == m3_0_1_2_1_2_0,
            m3_0_1_2_1_0_0 * m0_0_0_0_2_0_0 == m3_0_1_2_3_0_0,
            m3_0_1_2_1_0_0 * m0_0_0_0_2_2_1 == m3_0_1_2_3_2_1,
    ;
    let row2 = m3_0_2_1_0_1_0 * r;
    assert(row2 == -m3_0_2_1_0_1_0 + m3_0_2_1_0_3_0 - m3_0_2_1_2_1_0 - m3_0_2_1_2_3_1) by (nonlinear_arith)
        requires
            row2 == m3_0_2_1_0_1_0 * r,
            r == -m0_0_0_0_0_0_0 + m0_0_0_0_0_2_0 - m0_0_0_0_2_0_0 - m0_0_0_0_2_2_1,
            m3_0_2_1_0_1_0 * m0_0_0_0_0_0_0 == m3_0_2_1_0_1_0,
            m3_0_2_1_0_1_0 * m0_0_0_0_0_2_0 == m3_0_2_1_0_3_0,
            m3_0_2_1_0_1_0 * m0_0_0_0_2_0_0 == m3_0_2_1_2_1_0,
            m3_0_2_1_0_1_0 * m0_0_0_0_2_2_1 == m3_0_2_1_2_3_1,
    ;
    let row3 = m3_0_3_0_1_0_0 * r;
    assert(row3 == -m3_0_3_0_1_0_0 + m3_0_3_0_1_2_0 - m3_0_3_0_3_0_0 - m3_0_3_0_3_2_1) by (nonlinear_arith)
        requires
            row3 == m3_0_3_0_1_0_0 * r,
            r == -m0_0_0_0_0_0_0 + m0_0_0_0_0_2_0 - m0_0_0_0_2_0_0 - m0_0_0_0_2_2_1,
            m3_0_3_0_1_0_0 * m0_0_0_0_0_0_0 == m3_0_3_0_1_0_0,
            m3_0_3_0_1_0_0 * m0_0_0_0_0_2_0 == m3_0_3_0_1_2_0,
            m3_0_3_0_1_0_0 * m0_0_0_0_2_0_0 == m3_0_3_0_3_0_0,
            m3_0_3_0_1_0_0 * m0_0_0_0_2_2_1 == m3_0_3_0_3_2_1,
    ;
    assert(p * r == -row0 + row1 - row2 - row3) by (nonlinear_arith)
        requires
            p == -m3_0_1_0_1_0_0 + m3_0_1_2_1_0_0 - m3_0_2_1_0_1_0 - m3_0_3_0_1_0_0,
            row0 == m3_0_1_0_1_0_0 * r,
            row1 == m3_0_1_2_1_0_0 * r,
            row2 == m3_0_2_1_0_1_0 * r,
            row3 == m3_0_3_0_1_0_0 * r,
    ;
}

/// A cofactor times the defect of a point.
proof fn lemma_associative_product_90(v: Vars, p: int, r: int)
    requires
        p == -mono(v, 0, 1, 0, 1, 1, 0, 0) + mono(v, 0, 1, 0, 3, 1, 0, 0) - mono(v, 0, 1, 1, 0,
            0, 1, 0) + mono(v, 0, 1, 1, 2, 0, 1, 0) - mono(v, 0, 1, 2, 1, 1, 0, 0) - mono(v, 0,
            1, 3, 0, 0, 1, 0) + mono(v, 0, 3, 0, 1, 1, 0, 0) - mono(v, 0, 3, 0, 3, 1, 0, 0) +
            mono(v, 0, 3, 1, 0, 0, 1, 0) - mono(v, 0, 3, 1, 2, 0, 1, 0) + mono(v, 0, 3, 2, 1, 1,
            0, 0) + mono(v, 0, 3, 3, 0, 0, 1, 0) - mono(v, 1, 0, 0, 1, 0, 1, 0) + mono(v, 1, 0,
            0, 3, 0, 1, 0) - mono(v, 1, 0, 1, 0, 1, 0, 0) + mono(v, 1, 0, 1, 2, 1, 0, 0) -
            mono(v, 1, 0, 2, 1, 0, 1, 0) - mono(v, 1, 0, 3, 0, 1, 0, 0) + mono(v, 1, 2, 0, 1, 0,
            1, 0) - mono(v, 1, 2, 0, 3, 0, 1, 0) + mono(v, 1, 2, 1, 0, 1, 0, 0) - mono(v, 1, 2,
            1, 2, 1, 0, 0) - mono(v, 1, 2, 1, 2, 1, 0, 1) + mono(v, 1, 2, 2, 1, 0, 1, 0) +
            mono(v, 1, 2, 2, 1, 0, 1, 1) + mono(v, 1, 2, 3, 0, 1, 0, 0) - mono(v, 2, 1, 0, 1, 1,
            0, 0) + mono(v, 2, 1, 0, 3, 1, 0, 0) - mono(v, 2, 1, 1, 0, 0, 1, 0) + mono(v, 2, 1,
            1, 2, 0, 1, 0) + mono(v, 2, 1, 1, 2, 0, 1, 1) - mono(v, 2, 1, 2, 1, 1, 0, 0) -
            mono(v, 2, 1, 2, 1, 1, 0, 1) - mono(v, 2, 1, 3, 0, 0, 1, 0) - mono(v, 3, 0, 0, 1, 0,
            1, 0) + mono(v, 3, 0, 0, 3, 0, 1, 0) - mono(v, 3, 0, 1, 0, 1, 0, 0) + mono(v, 3, 0,
            1, 2, 1, 0, 0) - mono(v, 3, 0, 2, 1, 0, 1, 0) - mono(v, 3, 0, 3, 0, 1, 0, 0),
        r == -mono(v, 0, 0, 0, 0, 0, 0, 0) + mono(v, 0, 0, 0, 0, 0, 2, 0) - mono(v, 0, 0, 0, 0,
            2, 0, 0) - mono(v, 0, 0, 0, 0, 2, 2, 1),
    ensures
        p * r == mono(v, 0, 1, 0, 1, 1, 0, 0) - mono(v, 0, 1, 0, 1, 1, 2, 0) + mono(v, 0, 1, 0, 1, 3,
            0, 0) + mono(v, 0, 1, 0, 1, 3, 2, 1) - mono(v, 0, 1, 0, 3, 1, 0, 0) + mono(v, 0, 1,
            0, 3, 1, 2, 0) - mono(v, 0, 1, 0, 3, 3, 0, 0) - mono(v, 0, 1, 0, 3, 3, 2, 1) +
            mono(v, 0, 1, 1, 0, 0, 1, 0) - mono(v, 0, 1, 1, 0, 0, 3, 0) + mono(v, 0, 1, 1, 0, 2,
            1, 0) + mono(v, 0, 1, 1, 0, 2, 3, 1) - mono(v, 0, 1, 1, 2, 0, 1, 0) + mono(v, 0, 1,
            1, 2, 0, 3, 0) - mono(v, 0, 1, 1, 2, 2, 1, 0) - mono(v, 0, 1, 1, 2, 2, 3, 1) +
            mono(v, 0, 1, 2, 1, 1, 0, 0) - mono(v, 0, 1, 2, 1, 1, 2, 0) + mono(v, 0, 1, 2, 1, 3,
            0, 0) + mono(v, 0, 1, 2, 1, 3, 2, 1) + mono(v, 0, 1, 3, 0, 0, 1, 0) - mono(v, 0, 1,
            3, 0, 0, 3, 0) + mono(v, 0, 1, 3, 0, 2, 1, 0) + mono(v, 0, 1, 3, 0, 2, 3, 1) -
            mono(v, 0, 3, 0, 1, 1, 0, 0) + mono(v, 0, 3, 0, 1, 1, 2, 0) - mono(v, 0, 3, 0, 1, 3,
            0, 0) - mono(v, 0, 3, 0, 1, 3, 2, 1) + mono(v, 0, 3, 0, 3, 1, 0, 0) - mono(v, 0, 3,
            0, 3, 1, 2, 0) + mono(v, 0, 3, 0, 3, 3, 0, 0) + mono(v, 0, 3, 0, 3, 3, 2, 1) -
            mono(v, 0, 3, 1, 0, 0, 1, 0) + mono(v, 0, 3, 1, 0, 0, 3, 0) - mono(v, 0, 3, 1, 0, 2,
            1, 0) - mono(v, 0, 3, 1, 0, 2, 3, 1) + mono(v, 0, 3, 1, 2, 0, 1, 0) - mono(v, 0, 3,
            1, 2, 0, 3, 0) + mono(v, 0, 3, 1, 2, 2, 1, 0) + mono(v, 0, 3, 1, 2, 2, 3, 1) -
            mono(v, 0, 3, 2, 1, 1, 0, 0) + mono(v, 0, 3, 2, 1, 1, 2, 0) - mono(v, 0, 3, 2, 1, 3,
            0, 0) - mono(v, 0, 3, 2, 1, 3, 2, 1) - mono(v, 0, 3, 3, 0, 0, 1, 0) + mono(v, 0, 3,
            3, 0, 0, 3, 0) - mono(v, 0, 3, 3, 0, 2, 1, 0) - mono(v, 0, 3, 3, 0, 2, 3, 1) +
            mono(v, 1, 0, 0, 1, 0, 1, 0) - mono(v, 1, 0, 0, 1, 0, 3, 0) + mono(v, 1, 0, 0, 1, 2,
            1, 0) + mono(v, 1, 0, 0, 1, 2, 3, 1) - mono(v, 1, 0, 0, 3, 0, 1, 0) + mono(v, 1, 0,
            0, 3, 0, 3, 0) - mono(v, 1, 0, 0, 3, 2, 1, 0) - mono(v, 1, 0, 0, 3, 2, 3, 1) +
            mono(v, 1, 0, 1, 0, 1, 0, 0) - mono(v, 1, 0, 1, 0, 1, 2, 0) + mono(v, 1, 0, 1, 0, 3,
            0, 0) + mono(v, 1, 0, 1, 0, 3, 2, 1) - mono(v, 1, 0, 1, 2, 1, 0, 0) + mono(v, 1, 0,
            1, 2, 1, 2, 0) - mono(v, 1, 0, 1, 2, 3, 0, 0) - mono(v, 1, 0, 1, 2, 3, 2, 1) +
            mono(v, 1, 0, 2, 1, 0, 1, 0) - mono(v, 1, 0, 2, 1, 0, 3, 0) + mono(v, 1, 0, 2, 1, 2,
            1, 0) + mono(v, 1, 0, 2, 1, 2, 3, 1) + mono(v, 1, 0, 3, 0, 1, 0, 0) - mono(v, 1, 0,
            3, 0, 1, 2, 0) + mono(v, 1, 0, 3, 0, 3, 0, 0) + mono(v, 1, 0, 3, 0, 3, 2, 1) -
            mono(v, 1, 2, 0, 1, 0, 1, 0) + mono(v, 1, 2, 0, 1, 0, 3, 0) - mono(v, 1, 2, 0, 1, 2,
            1, 0) - mono(v, 1, 2, 0, 1, 2, 3, 1) + mono(v, 1, 2, 0, 3, 0, 1, 0) - mono(v, 1, 2,
            0, 3, 0, 3, 0) + mono(v, 1, 2, 0, 3, 2, 1, 0) + mono(v, 1, 2, 0, 3, 2, 3, 1) -
            mono(v, 1, 2, 1, 0, 1, 0, 0) + mono(v, 1, 2, 1, 0, 1, 2, 0) - mono(v, 1, 2, 1, 0, 3,
            0, 0) - mono(v, 1, 2, 1, 0, 3, 2, 1) + mono(v, 1, 2, 1, 2, 1, 0, 0) + mono(v, 1, 2,
            1, 2, 1, 0, 1) - mono(v, 1, 2, 1, 2, 1, 2, 0) - mono(v, 1, 2, 1, 2, 1, 2, 1) +
            mono(v, 1, 2, 1, 2, 3, 0, 0) + mono(v, 1, 2, 1, 2, 3, 0, 1) + mono(v, 1, 2, 1, 2, 3,
            2, 1) + mono(v, 1, 2, 1, 2, 3, 2, 2) - mono(v, 1, 2, 2, 1, 0, 1, 0) - mono(v, 1, 2,
            2, 1, 0, 1, 1) + mono(v, 1, 2, 2, 1, 0, 3, 0) + mono(v, 1, 2, 2, 1, 0, 3, 1) -
            mono(v, 1, 2, 2, 1, 2, 1, 0) - mono(v, 1, 2, 2, 1, 2, 1, 1) - mono(v, 1, 2, 2, 1, 2,
            3, 1) - mono(v, 1, 2, 2, 1, 2, 3, 2) - mono(v, 1, 2, 3, 0, 1, 0, 0) + mono(v, 1, 2,
            3, 0, 1, 2, 0) - mono(v, 1, 2, 3, 0, 3, 0, 0) - mono(v, 1, 2, 3, 0, 3, 2, 1) +
            mono(v, 2, 1, 0, 1, 1, 0, 0) - mono(v, 2, 1, 0, 1, 1, 2, 0) + mono(v, 2, 1, 0, 1, 3,
            0, 0) + mono(v, 2, 1, 0, 1, 3, 2, 1) - mono(v, 2, 1, 0, 3, 1, 0, 0) + mono(v, 2, 1,
            0, 3, 1, 2, 0) - mono(v, 2, 1, 0, 3, 3, 0, 0) - mono(v, 2, 1, 0, 3, 3, 2, 1) +
            mono(v, 2, 1, 1, 0, 0, 1, 0) - mono(v, 2, 1, 1, 0, 0, 3, 0) + mono(v, 2, 1, 1, 0, 2,
            1, 0) + mono(v, 2, 1, 1, 0, 2, 3, 1) - mono(v, 2, 1, 1, 2, 0, 1, 0) - mono(v, 2, 1,
            1, 2, 0, 1, 1) + mono(v, 2, 1, 1, 2, 0, 3, 0) + mono(v, 2, 1, 1, 2, 0, 3, 1) -
            mono(v, 2, 1, 1, 2, 2, 1, 0) - mono(v, 2, 1, 1, 2, 2, 1, 1) - mono(v, 2, 1, 1, 2, 2,
            3, 1) - mono(v, 2, 1, 1, 2, 2, 3, 2) + mono(v, 2, 1, 2, 1, 1, 0, 0) + mono(v, 2, 1,
            2, 1, 1, 0, 1) - mono(v, 2, 1, 2, 1, 1, 2, 0) - mono(v, 2, 1, 2, 1, 1, 2, 1) +
            mono(v, 2, 1, 2, 1, 3, 0, 0) + mono(v, 2, 1, 2, 1, 3, 0, 1) + mono(v, 2, 1, 2, 1, 3,
            2, 1) + mono(v, 2, 1, 2, 1, 3, 2, 2) + mono(v, 2, 1, 3, 0, 0, 1, 0) - mono(v, 2, 1,
            3, 0, 0, 3, 0) + mono(v, 2, 1, 3, 0, 2, 1, 0) + mono(v, 2, 1, 3, 0, 2, 3, 1) +
            mono(v, 3, 0, 0, 1, 0, 1, 0) - mono(v, 3, 0, 0, 1, 0, 3, 0) + mono(v, 3, 0, 0, 1, 2,
            1, 0) + mono(v, 3, 0, 0, 1, 2, 3, 1) - mono(v, 3, 0, 0, 3, 0, 1, 0) + mono(v, 3, 0,
            0, 3, 0, 3, 0) - mono(v, 3, 0, 0, 3, 2, 1, 0) - mono(v, 3, 0, 0, 3, 2, 3, 1) +
            mono(v, 3, 0, 1, 0, 1, 0, 0) - mono(v, 3, 0, 1, 0, 1, 2, 0) + mono(v, 3, 0, 1, 0, 3,
            0, 0) + mono(v, 3, 0, 1, 0, 3, 2, 1) - mono(v, 3, 0, 1, 2, 1, 0, 0) + mono(v, 3, 0,
            1, 2, 1, 2, 0) - mono(v, 3, 0, 1, 2, 3, 0, 0) - mono(v, 3, 0, 1, 2, 3, 2, 1) +
            mono(v, 3, 0, 2, 1, 0, 1, 0) - mono(v, 3, 0, 2, 1, 0, 3, 0) + mono(v, 3, 0, 2, 1, 2,
            1, 0) + mono(v, 3, 0, 2, 1, 2, 3, 1) + mono(v, 3, 0, 3, 0, 1, 0, 0) - mono(v, 3, 0,
            3, 0, 1, 2, 0) + mono(v, 3, 0, 3, 0, 3, 0, 0) + mono(v, 3, 0, 3, 0, 3, 2, 1),
{
    let p0 = -mono(v, 0, 1, 0, 1, 1, 0, 0) + mono(v, 0, 1, 0, 3, 1, 0, 0) - mono(v, 0, 1, 1, 0, 0, 1,
        0) + mono(v, 0, 1, 1, 2, 0, 1, 0) - mono(v, 0, 1, 2, 1, 1, 0, 0) - mono(v, 0, 1, 3, 0,
        0, 1, 0);
    lemma_associative_product_83(v, p0, r);
    let t0 = p0 * r;
    let p1 = mono(v, 0, 3, 0, 1, 1, 0, 0) - mono(v, 0, 3, 0, 3, 1, 0, 0) + mono(v, 0, 3, 1, 0, 0, 1,
        0) - mono(v, 0, 3, 1, 2, 0, 1, 0) + mono(v, 0, 3, 2, 1, 1, 0, 0) + mono(v, 0, 3, 3, 0,
        0, 1, 0);
    lemma_associative_product_84(v, p1, r);
    let t1 = p1 * r;
    let p2 = -mono(v, 1, 0, 0, 1, 0, 1, 0) + mono(v, 1, 0, 0, 3, 0, 1, 0) - mono(v, 1, 0, 1, 0, 1, 0,
        0) + mono(v, 1, 0, 1, 2, 1, 0, 0) - mono(v, 1, 0, 2, 1, 0, 1, 0) - mono(v, 1, 0, 3, 0,
        1, 0, 0);
    lemma_associative_product_85(v, p2, r);
    let t2 = p2 * r;
    let p3 = mono(v, 1, 2, 0, 1, 0, 1, 0) - mono(v, 1, 2, 0, 3, 0, 1, 0) + mono(v, 1, 2, 1, 0, 1, 0,
        0) - mono(v, 1, 2, 1, 2, 1, 0, 0) - mono(v, 1, 2, 1, 2, 1, 0, 1) + mono(v, 1, 2, 2, 1,
        0, 1, 0);
    lemma_associative_product_86(v, p3, r);
    let t3 = p3 * r;
    let p4 = mono(v, 1, 2, 2, 1, 0, 1, 1) + mono(v, 1, 2, 3, 0, 1, 0, 0) - mono(v, 2, 1, 0, 1, 1, 0,
        0) + mono(v, 2, 1, 0, 3, 1, 0, 0) - mono(v, 2, 1, 1, 0, 0, 1, 0) + mono(v, 2, 1, 1, 2,
        0, 1, 0);
    lemma_associative_product_87(v, p4, r);
    let t4 = p4 * r;
    let p5 = mono(v, 2, 1, 1, 2, 0, 1, 1) - mono(v, 2, 1, 2, 1, 1, 0, 0) - mono(v, 2, 1, 2, 1, 1, 0,
        1) - mono(v, 2, 1, 3, 0, 0, 1, 0) - mono(v, 3, 0, 0, 1, 0, 1, 0) + mono(v, 3, 0, 0, 3,
        0, 1, 0);
    lemma_associative_product_88(v, p5, r);
    let t5 = p5 * r;
    let p6 = -mono(v, 3, 0, 1, 0, 1, 0, 0) + mono(v, 3, 0, 1, 2, 1, 0, 0) - mono(v, 3, 0, 2, 1, 0, 1,
        0) - mono(v, 3, 0, 3, 0, 1, 0, 0);
    lemma_associative_product_89(v, p6, r);
    let t6 = p6 * r;
    assert(p * r == t0 + t1 + t2 + t3 + t4 + t5 + t6) by (nonlinear_arith)
        requires
            p == p0 + p1 + p2 + p3 + p4 + p5 + p6,
            t0 == p0 * r,
            t1 == p1 * r,
            t2 == p2 * r,
            t3 == p3 * r,
            t4 == p4 * r,
            t5 == p5 * r,
            t6 == p6 * r,
    ;
}

/// A cross product of the two sides.
proof fn lemma_associative_product_91(v: Vars, p: int, r: int)
    requires
        p == mono(v, 0, 1, 0, 1, 0, 1, 0) + mono(v, 0, 1, 1, 0, 1, 0, 0) + mono(v, 1, 0, 0, 1, 1,
            0, 0) + mono(v, 1, 0, 1, 0, 0, 1, 0) + mono(v, 1, 2, 1, 2, 0, 1, 1) - mono(v, 1, 2,
            2, 1, 1, 0, 1),
        r == mono(v, 0, 0, 0, 0, 0, 0, 0) - mono(v, 0, 0, 2, 2, 2, 2, 2) - mono(v, 1, 1, 0, 2, 1,
            1, 1) - mono(v, 1, 1, 1, 1, 0, 2, 1) - mono(v, 1, 1, 1, 1, 2, 0, 1) - mono(v, 1, 1,
            2, 0, 1, 1, 1),
    ensures
        p * r == mono(v, 0, 1, 0, 1, 0, 1, 0) + mono(v, 0, 1, 1, 0, 1, 0, 0) - mono(v, 0, 1, 2, 3, 2,
            3, 2) - mono(v, 0, 1, 3, 2, 3, 2, 2) + mono(v, 1, 0, 0, 1, 1, 0, 0) + mono(v, 1, 0,
            1, 0, 0, 1, 0) - mono(v, 1, 0, 2, 3, 3, 2, 2) - mono(v, 1, 0, 3, 2, 2, 3, 2) -
            mono(v, 1, 2, 0, 3, 1, 2, 1) + mono(v, 1, 2, 1, 2, 0, 1, 1) - mono(v, 1, 2, 1, 2, 0,
            3, 1) - 2 * mono(v, 1, 2, 1, 2, 2, 1, 1) - mono(v, 1, 2, 2, 1, 1, 0, 1) - 2 *
            mono(v, 1, 2, 2, 1, 1, 2, 1) - mono(v, 1, 2, 2, 1, 3, 0, 1) - mono(v, 1, 2, 3, 0, 2,
            1, 1) - mono(v, 1, 2, 3, 4, 2, 3, 3) + mono(v, 1, 2, 4, 3, 3, 2, 3) - mono(v, 2, 1,
            0, 3, 2, 1, 1) - 2 * mono(v, 2, 1, 1, 2, 1, 2, 1) - mono(v, 2, 1, 1, 2, 3, 0, 1) -
            mono(v, 2, 1, 2, 1, 0, 3, 1) - 2 * mono(v, 2, 1, 2, 1, 2, 1, 1) - mono(v, 2, 1, 3,
            0, 1, 2, 1) - mono(v, 2, 3, 1, 4, 1, 2, 2) - mono(v, 2, 3, 2, 3, 0, 3, 2) + mono(v,
            2, 3, 3, 2, 3, 0, 2) + mono(v, 2, 3, 4, 1, 2, 1, 2),
{
    let m0_1_0_1_0_1_0 = mono(v, 0, 1, 0, 1, 0, 1, 0);
    let m0_1_1_0_1_0_0 = mono(v, 0, 1, 1, 0, 1, 0, 0);
    let m1_0_0_1_1_0_0 = mono(v, 1, 0, 0, 1, 1, 0, 0);
    let m1_0_1_0_0_1_0 = mono(v, 1, 0, 1, 0, 0, 1, 0);
    let m1_2_1_2_0_1_1 = mono(v, 1, 2, 1, 2, 0, 1, 1);
    let m1_2_2_1_1_0_1 = mono(v, 1, 2, 2, 1, 1, 0, 1);
    let m0_0_0_0_0_0_0 = mono(v, 0, 0, 0, 0, 0, 0, 0);
    let m0_0_2_2_2_2_2 = mono(v, 0, 0, 2, 2, 2, 2, 2);
    let m1_1_0_2_1_1_1 = mono(v, 1, 1, 0, 2, 1, 1, 1);
    let m1_1_1_1_0_2_1 = mono(v, 1, 1, 1, 1, 0, 2, 1);
    let m1_1_1_1_2_0_1 = mono(v, 1, 1, 1, 1, 2, 0, 1);
    let m1_1_2_0_1_1_1 = mono(v, 1, 1, 2, 0, 1, 1, 1);
    let m0_1_2_3_2_3_2 = mono(v, 0, 1, 2, 3, 2, 3, 2);
    let m1_2_0_3_1_2_1 = mono(v, 1, 2, 0, 3, 1, 2, 1);
    let m1_2_1_2_0_3_1 = mono(v, 1, 2, 1, 2, 0, 3, 1);
    let m1_2_1_2_2_1_1 = mono(v, 1, 2, 1, 2, 2, 1, 1);
    let m1_2_2_1_1_2_1 = mono(v, 1, 2, 2, 1, 1, 2, 1);
    let m0_1_3_2_3_2_2 = mono(v, 0, 1, 3, 2, 3, 2, 2);
    let m1_2_2_1_3_0_1 = mono(v, 1, 2, 2, 1, 3, 0, 1);
    let m1_2_3_0_2_1_1 = mono(v, 1, 2, 3, 0, 2, 1, 1);
    let m1_0_2_3_3_2_2 = mono(v, 1, 0, 2, 3, 3, 2, 2);
    let m2_1_0_3_2_1_1 = mono(v, 2, 1, 0, 3, 2, 1, 1);
    let m2_1_1_2_1_2_1 = mono(v, 2, 1, 1, 2, 1, 2, 1);
    let m2_1_1_2_3_0_1 = mono(v, 2, 1, 1, 2, 3, 0, 1);
    let m2_1_2_1_2_1_1 = mono(v, 2, 1, 2, 1, 2, 1, 1);
    let m1_0_3_2_2_3_2 = mono(v, 1, 0, 3, 2, 2, 3, 2);
    let m2_1_2_1_0_3_1 = mono(v, 2, 1, 2, 1, 0, 3, 1);
    let m2_1_3_0_1_2_1 = mono(v, 2, 1, 3, 0, 1, 2, 1);
    let m1_2_3_4_2_3_3 = mono(v, 1, 2, 3, 4, 2, 3, 3);
    let m2_3_1_4_1_2_2 = mono(v, 2, 3, 1, 4, 1, 2, 2);
    let m2_3_2_3_0_3_2 = mono(v, 2, 3, 2, 3, 0, 3, 2);
    let m2_3_2_3_2_1_2 = mono(v, 2, 3, 2, 3, 2, 1, 2);
    let m2_3_3_2_1_2_2 = mono(v, 2, 3, 3, 2, 1, 2, 2);
    let m1_2_4_3_3_2_3 = mono(v, 1, 2, 4, 3, 3, 2, 3);
    let m2_3_3_2_3_0_2 = mono(v, 2, 3, 3, 2, 3, 0, 2);
    let m2_3_4_1_2_1_2 = mono(v, 2, 3, 4, 1, 2, 1, 2);
    lemma_mono_mul(v, 0, 1, 0, 1, 0, 1, 0, 0, 0, 0, 0, 0, 0, 0);
    lemma_mono_mul(v, 0, 1, 0, 1, 0, 1, 0, 0, 0, 2, 2, 2, 2, 2);
    lemma_mono_mul(v, 0, 1, 0, 1, 0, 1, 0, 1, 1, 0, 2, 1, 1, 1);
    lemma_mono_mul(v, 0, 1, 0, 1, 0, 1, 0, 1, 1, 1, 1, 0, 2, 1);
    lemma_mono_mul(v, 0, 1, 0, 1, 0, 1, 0, 1, 1, 1, 1, 2, 0, 1);
    lemma_mono_mul(v, 0, 1, 0, 1, 0, 1, 0, 1, 1, 2, 0, 1, 1, 1);
    lemma_mono_mul(v, 0, 1, 1, 0, 1, 0, 0, 0, 0, 0, 0, 0, 0, 0);
    lemma_mono_mul(v, 0, 1, 1, 0, 1, 0, 0, 0, 0, 2, 2, 2, 2, 2);
    lemma_mono_mul(v, 0, 1, 1, 0, 1, 0, 0, 1, 1, 0, 2, 1, 1, 1);
    lemma_mono_mul(v, 0, 1, 1, 0, 1, 0, 0, 1, 1, 1, 1, 0, 2, 1);
    lemma_mono_mul(v, 0, 1, 1, 0, 1, 0, 0, 1, 1, 1, 1, 2, 0, 1);
    lemma_mono_mul(v, 0, 1, 1, 0, 1, 0, 0, 1, 1, 2, 0, 1, 1, 1);
    lemma_mono_mul(v, 1, 0, 0, 1, 1, 0, 0, 0, 0, 0, 0, 0, 0, 0);
    lemma_mono_mul(v, 1, 0, 0, 1, 1, 0, 0, 0, 0, 2, 2, 2, 2, 2);
    lemma_mono_mul(v, 1, 0, 0, 1, 1, 0, 0, 1, 1, 0, 2, 1, 1, 1);
    lemma_mono_mul(v, 1, 0, 0, 1, 1, 0, 0, 1, 1, 1, 1, 0, 2, 1);
    lemma_mono_mul(v, 1, 0, 0, 1, 1, 0, 0, 1, 1, 1, 1, 2, 0, 1);
    lemma_mono_mul(v, 1, 0, 0, 1, 1, 0, 0, 1, 1, 2, 0, 1, 1, 1);
    lemma_mono_mul(v, 1, 0, 1, 0, 0, 1, 0, 0, 0, 0, 0, 0, 0, 0);
    lemma_mono_mul(v, 1, 0, 1, 0, 0, 1, 0, 0, 0, 2, 2, 2, 2, 2);
    lemma_mono_mul(v, 1, 0, 1, 0, 0, 1, 0, 1, 1, 0, 2, 1, 1, 1);
    lemma_mono_mul(v, 1, 0, 1, 0, 0, 1, 0, 1, 1, 1, 1, 0, 2, 1);
    lemma_mono_mul(v, 1, 0, 1, 0, 0, 1, 0, 1, 1, 1, 1, 2, 0, 1);
    lemma_mono_mul(v, 1, 0, 1, 0, 0, 1, 0, 1, 1, 2, 0, 1, 1, 1);
    lemma_mono_mul(v, 1, 2, 1, 2, 0, 1, 1, 0, 0, 0, 0, 0, 0, 0);
    lemma_mono_mul(v, 1, 2, 1, 2, 0, 1, 1, 0, 0, 2, 2, 2, 2, 2);
    lemma_mono_mul(v, 1, 2, 1, 2, 0, 1, 1, 1, 1, 0, 2, 1, 1, 1);
    lemma_mono_mul(v, 1, 2, 1, 2, 0, 1, 1, 1, 1, 1, 1, 0, 2, 1);
    lemma_mono_mul(v, 1, 2, 1, 2, 0, 1, 1, 1, 1, 1, 1, 2, 0, 1);
    lemma_mono_mul(v, 1, 2, 1, 2, 0, 1, 1, 1, 1, 2, 0, 1, 1, 1);
    lemma_mono_mul(v, 1, 2, 2, 1, 1, 0, 1, 0, 0, 0, 0, 0, 0, 0);
    lemma_mono_mul(v, 1, 2, 2, 1, 1, 0, 1, 0, 0, 2, 2, 2, 2, 2);
    lemma_mono_mul(v, 1, 2, 2, 1, 1, 0, 1, 1, 1, 0, 2, 1, 1, 1);
    lemma_mono_mul(v, 1, 2, 2, 1, 1, 0, 1, 1, 1, 1, 1, 0, 2, 1);
    lemma_mono_mul(v, 1, 2, 2, 1, 1, 0, 1, 1, 1, 1, 1, 2, 0, 1);
    lemma_mono_mul(v, 1, 2, 2, 1, 1, 0, 1, 1, 1, 2, 0, 1, 1, 1);
    let row0 = m0_1_0_1_0_1_0 * r;
    assert(row0 == m0_1_0_1_0_1_0 - m0_1_2_3_2_3_2 - m1_2_0_3_1_2_1 - m1_2_1_2_0_3_1 - m1_2_1_2_2_1_1 -
        m1_2_2_1_1_2_1) by (nonlinear_arith)
        requires
            row0 == m0_1_0_1_0_1_0 * r,
            r == m0_0_0_0_0_0_0 - m0_0_2_2_2_2_2 - m1_1_0_2_1_1_1 - m1_1_1_1_0_2_1 -
                m1_1_1_1_2_0_1 - m1_1_2_0_1_1_1,
            m0_1_0_1_0_1_0 * m0_0_0_0_0_0_0 == m0_1_0_1_0_1_0,
            m0_1_0_1_0_1_0 * m0_0_2_2_2_2_2 == m0_1_2_3_2_3_2,
            m0_1_0_1_0_1_0 * m1_1_0_2_1_1_1 == m1_2_0_3_1_2_1,
            m0_1_0_1_0_1_0 * m1_1_1_1_0_2_1 == m1_2_1_2_0_3_1,
            m0_1_0_1_0_1_0 * m1_1_1_1_2_0_1 == m1_2_1_2_2_1_1,
            m0_1_0_1_0_1_0 * m1_1_2_0_1_1_1 == m1_2_2_1_1_2_1,
    ;
    let row1 = m0_1_1_0_1_0_0 * r;
    assert(row1 == m0_1_1_0_1_0_0 - m0_1_3_2_3_2_2 - m1_2_1_2_2_1_1 - m1_2_2_1_1_2_1 - m1_2_2_1_3_0_1 -
        m1_2_3_0_2_1_1) by (nonlinear_arith)
        requires
            row1 == m0_1_1_0_1_0_0 * r,
            r == m0_0_0_0_0_0_0 - m0_0_2_2_2_2_2 - m1_1_0_2_1_1_1 - m1_1_1_1_0_2_1 -
                m1_1_1_1_2_0_1 - m1_1_2_0_1_1_1,
            m0_1_1_0_1_0_0 * m0_0_0_0_0_0_0 == m0_1_1_0_1_0_0,
            m0_1_1_0_1_0_0 * m0_0_2_2_2_2_2 == m0_1_3_2_3_2_2,
            m0_1_1_0_1_0_0 * m1_1_0_2_1_1_1 == m1_2_1_2_2_1_1,
            m0_1_1_0_1_0_0 * m1_1_1_1_0_2_1 == m1_2_2_1_1_2_1,
            m0_1_1_0_1_0_0 * m1_1_1_1_2_0_1 == m1_2_2_1_3_0_1,
            m0_1_1_0_1_0_0 * m1_1_2_0_1_1_1 == m1_2_3_0_2_1_1,
    ;
    let row2 = m1_0_0_1_1_0_0 * r;
    assert(row2 == m1_0_0_1_1_0_0 - m1_0_2_3_3_2_2 - m2_1_0_3_2_1_1 - m2_1_1_2_1_2_1 - m2_1_1_2_3_0_1 -
        m2_1_2_1_2_1_1) by (nonlinear_arith)
        requires
            row2 == m1_0_0_1_1_0_0 * r,
            r == m0_0_0_0_0_0_0 - m0_0_2_2_2_2_2 - m1_1_0_2_1_1_1 - m1_1_1_1_0_2_1 -
                m1_1_1_1_2_0_1 - m1_1_2_0_1_1_1,
            m1_0_0_1_1_0_0 * m0_0_0_0_0_0_0 == m1_0_0_1_1_0_0,
            m1_0_0_1_1_0_0 * m0_0_2_2_2_2_2 == m1_0_2_3_3_2_2,
            m1_0_0_1_1_0_0 * m1_1_0_2_1_1_1 == m2_1_0_3_2_1_1,
            m1_0_0_1_1_0_0 * m1_1_1_1_0_2_1 == m2_1_1_2_1_2_1,
            m1_0_0_1_1_0_0 * m1_1_1_1_2_0_1 == m2_1_1_2_3_0_1,
            m1_0_0_1_1_0_0 * m1_1_2_0_1_1_1 == m2_1_2_1_2_1_1,
    ;
    let row3 = m1_0_1_0_0_1_0 * r;
    assert(row3 == m1_0_1_0_0_1_0 - m1_0_3_2_2_3_2 - m2_1_1_2_1_2_1 - m2_1_2_1_0_3_1 - m2_1_2_1_2_1_1 -
        m2_1_3_0_1_2_1) by (nonlinear_arith)
        requires
            row3 == m1_0_1_0_0_1_0 * r,
            r == m0_0_0_0_0_0_0 - m0_0_2_2_2_2_2 - m1_1_0_2_1_1_1 - m1_1_1_1_0_2_1 -
                m1_1_1_1_2_0_1 - m1_1_2_0_1_1_1,
            m1_0_1_0_0_1_0 * m0_0_0_0_0_0_0 == m1_0_1_0_0_1_0,
            m1_0_1_0_0_1_0 * m0_0_2_2_2_2_2 == m1_0_3_2_2_3_2,
            m1_0_1_0_0_1_0 * m1_1_0_2_1_1_1 == m2_1_1_2_1_2_1,
            m1_0_1_0_0_1_0 * m1_1_1_1_0_2_1 == m2_1_2_1_0_3_1,
            m1_0_1_0_0_1_0 * m1_1_1_1_2_0_1 == m2_1_2_1_2_1_1,
            m1_0_1_0_0_1_0 * m1_1_2_0_1_1_1 == m2_1_3_0_1_2_1,
    ;
    let row4 = m1_2_1_2_0_1_1 * r;
    assert(row4 == m1_2_1_2_0_1_1 - m1_2_3_4_2_3_3 - m2_3_1_4_1_2_2 - m2_3_2_3_0_3_2 - m2_3_2_3_2_1_2 -
        m2_3_3_2_1_2_2) by (nonlinear_arith)
        requires
            row4 == m1_2_1_2_0_1_1 * r,
            r == m0_0_0_0_0_0_0 - m0_0_2_2_2_2_2 - m1_1_0_2_1_1_1 - m1_1_1_1_0_2_1 -
                m1_1_1_1_2_0_1 - m1_1_2_0_1_1_1,
            m1_2_1_2_0_1_1 * m0_0_0_0_0_0_0 == m1_2_1_2_0_1_1,
            m1_2_1_2_0_1_1 * m0_0_2_2_2_2_2 == m1_2_3_4_2_3_3,
            m1_2_1_2_0_1_1 * m1_1_0_2_1_1_1 == m2_3_1_4_1_2_2,
            m1_2_1_2_0_1_1 * m1_1_1_1_0_2_1 == m2_3_2_3_0_3_2,
            m1_2_1_2_0_1_1 * m1_1_1_1_2_0_1 == m2_3_2_3_2_1_2,
            m1_2_1_2_0_1_1 * m1_1_2_0_1_1_1 == m2_3_3_2_1_2_2,
    ;
    let row5 = m1_2_2_1_1_0_1 * r;
    assert(row5 == m1_2_2_1_1_0_1 - m1_2_4_3_3_2_3 - m2_3_2_3_2_1_2 - m2_3_3_2_1_2_2 - m2_3_3_2_3_0_2 -
        m2_3_4_1_2_1_2) by (nonlinear_arith)
        requires
            row5 == m1_2_2_1_1_0_1 * r,
            r == m0_0_0_0_0_0_0 - m0_0_2_2_2_2_2 - m1_1_0_2_1_1_1 - m1_1_1_1_0_2_1 -
                m1_1_1_1_2_0_1 - m1_1_2_0_1_1_1,
            m1_2_2_1_1_0_1 * m0_0_0_0_0_0_0 == m1_2_2_1_1_0_1,
            m1_2_2_1_1_0_1 * m0_0_2_2_2_2_2 == m1_2_4_3_3_2_3,
            m1_2_2_1_1_0_1 * m1_1_0_2_1_1_1 == m2_3_2_3_2_1_2,
            m1_2_2_1_1_0_1 * m1_1_1_1_0_2_1 == m2_3_3_2_1_2_2,
            m1_2_2_1_1_0_1 * m1_1_1_1_2_0_1 == m2_3_3_2_3_0_2,
            m1_2_2_1_1_0_1 * m1_1_2_0_1_1_1 == m2_3_4_1_2_1_2,
    ;
    assert(p * r == row0 + row1 + row2 + row3 + row4 - row5) by (nonlinear_arith)
        requires
            p == m0_1_0_1_0_1_0 + m0_1_1_0_1_0_0 + m1_0_0_1_1_0_0 + m1_0_1_0_0_1_0 +
                m1_2_1_2_0_1_1 - m1_2_2_1_1_0_1,
            row0 == m0_1_0_1_0_1_0 * r,
            row1 == m0_1_1_0_1_0_0 * r,
            row2 == m1_0_0_1_1_0_0 * r,
            row3 == m1_0_1_0_0_1_0 * r,
            row4 == m1_2_1_2_0_1_1 * r,
            row5 == m1_2_2_1_1_0_1 * r,
    ;
}

/// A cross product of the two sides.
proof fn lemma_associative_product_92(v: Vars, p: int, r: int)
    requires
        p == mono(v, 0, 0, 0, 0, 0, 0, 0) - mono(v, 0, 0, 2, 2, 2, 2, 2) - mono(v, 1, 1, 0, 2, 1,
            1, 1) - mono(v, 1, 1, 1, 1, 0, 2, 1) - mono(v, 1, 1, 1, 1, 2, 0, 1) - mono(v, 1, 1,
            2, 0, 1, 1, 1),
        r == -mono(v, 2, 1, 1, 2, 1, 0, 1) + mono(v, 2, 1, 2, 1, 0, 1, 1),
    ensures
        p * r == -mono(v, 2, 1, 1, 2, 1, 0, 1) + mono(v, 2, 1, 2, 1, 0, 1, 1) + mono(v, 2, 1, 3, 4,
            3, 2, 3) - mono(v, 2, 1, 4, 3, 2, 3, 3) + mono(v, 3, 2, 1, 4, 2, 1, 2) + mono(v, 3,
            2, 2, 3, 3, 0, 2) - mono(v, 3, 2, 3, 2, 0, 3, 2) - mono(v, 3, 2, 4, 1, 1, 2, 2),
{
    let m0_0_0_0_0_0_0 = mono(v, 0, 0, 0, 0, 0, 0, 0);
    let m0_0_2_2_2_2_2 = mono(v, 0, 0, 2, 2, 2, 2, 2);
    let m1_1_0_2_1_1_1 = mono(v, 1, 1, 0, 2, 1, 1, 1);
    let m1_1_1_1_0_2_1 = mono(v, 1, 1, 1, 1, 0, 2, 1);
    let m1_1_1_1_2_0_1 = mono(v, 1, 1, 1, 1, 2, 0, 1);
    let m1_1_2_0_1_1_1 = mono(v, 1, 1, 2, 0, 1, 1, 1);
    let m2_1_1_2_1_0_1 = mono(v, 2, 1, 1, 2, 1, 0, 1);
    let m2_1_2_1_0_1_1 = mono(v, 2, 1, 2, 1, 0, 1, 1);
    let m2_1_3_4_3_2_3 = mono(v, 2, 1, 3, 4, 3, 2, 3);
    let m2_1_4_3_2_3_3 = mono(v, 2, 1, 4, 3, 2, 3, 3);
    let m3_2_1_4_2_1_2 = mono(v, 3, 2, 1, 4, 2, 1, 2);
    let m3_2_2_3_1_2_2 = mono(v, 3, 2, 2, 3, 1, 2, 2);
    let m3_2_3_2_0_3_2 = mono(v, 3, 2, 3, 2, 0, 3, 2);
    let m3_2_2_3_3_0_2 = mono(v, 3, 2, 2, 3, 3, 0, 2);
    let m3_2_3_2_2_1_2 = mono(v, 3, 2, 3, 2, 2, 1, 2);
    let m3_2_4_1_1_2_2 = mono(v, 3, 2, 4, 1, 1, 2, 2);
    lemma_mono_mul(v, 0, 0, 0, 0, 0, 0, 0, 2, 1, 1, 2, 1, 0, 1);
    lemma_mono_mul(v, 0, 0, 0, 0, 0, 0, 0, 2, 1, 2, 1, 0, 1, 1);
    lemma_mono_mul(v, 0, 0, 2, 2, 2, 2, 2, 2, 1, 1, 2, 1, 0, 1);
    lemma_mono_mul(v, 0, 0, 2, 2, 2, 2, 2, 2, 1, 2, 1, 0, 1, 1);
    lemma_mono_mul(v, 1, 1, 0, 2, 1, 1, 1, 2, 1, 1, 2, 1, 0, 1);
    lemma_mono_mul(v, 1, 1, 0, 2, 1, 1, 1, 2, 1, 2, 1, 0, 1, 1);
    lemma_mono_mul(v, 1, 1, 1, 1, 0, 2, 1, 2, 1, 1, 2, 1, 0, 1);
    lemma_mono_mul(v, 1, 1, 1, 1, 0, 2, 1, 2, 1, 2, 1, 0, 1, 1);
    lemma_mono_mul(v, 1, 1, 1, 1, 2, 0, 1, 2, 1, 1, 2, 1, 0, 1);
    lemma_mono_mul(v, 1, 1, 1, 1, 2, 0, 1, 2, 1, 2, 1, 0, 1, 1);
    lemma_mono_mul(v, 1, 1, 2, 0, 1, 1, 1, 2, 1, 1, 2, 1, 0, 1);
    lemma_mono_mul(v, 1, 1, 2, 0, 1, 1, 1, 2, 1, 2, 1, 0, 1, 1);
    let row0 = m0_0_0_0_0_0_0 * r;
    assert(row0 == -m2_1_1_2_1_0_1 + m2_1_2_1_0_1_1) by (nonlinear_arith)
        requires
            row0 == m0_0_0_0_0_0_0 * r,
            r == -m2_1_1_2_1_0_1 + m2_1_2_1_0_1_1,
            m0_0_0_0_0_0_0 * m2_1_1_2_1_0_1 == m2_1_1_2_1_0_1,
            m0_0_0_0_0_0_0 * m2_1_2_1_0_1_1 == m2_1_2_1_0_1_1,
    ;
    let row1 = m0_0_2_2_2_2_2 * r;
    assert(row1 == -m2_1_3_4_3_2_3 + m2_1_4_3_2_3_3) by (nonlinear_arith)
        requires
            row1 == m0_0_2_2_2_2_2 * r,
            r == -m2_1_1_2_1_0_1 + m2_1_2_1_0_1_1,
            m0_0_2_2_2_2_2 * m2_1_1_2_1_0_1 == m2_1_3_4_3_2_3,
            m0_0_2_2_2_2_2 * m2_1_2_1_0_1_1 == m2_1_4_3_2_3_3,
    ;
    let row2 = m1_1_0_2_1_1_1 * r;
    assert(row2 == -m3_2_1_4_2_1_2 + m3_2_2_3_1_2_2) by (nonlinear_arith)
        requires
            row2 == m1_1_0_2_1_1_1 * r,
            r == -m2_1_1_2_1_0_1 + m2_1_2_1_0_1_1,
            m1_1_0_2_1_1_1 * m2_1_1_2_1_0_1 == m3_2_1_4_2_1_2,
            m1_1_0_2_1_1_1 * m2_1_2_1_0_1_1 == m3_2_2_3_1_2_2,
    ;
    let row3 = m1_1_1_1_0_2_1 * r;
    assert(row3 == -m3_2_2_3_1_2_2 + m3_2_3_2_0_3_2) by (nonlinear_arith)
        requires
            row3 == m1_1_1_1_0_2_1 * r,
            r == -m2_1_1_2_1_0_1 + m2_1_2_1_0_1_1,
            m1_1_1_1_0_2_1 * m2_1_1_2_1_0_1 == m3_2_2_3_1_2_2,
            m1_1_1_1_0_2_1 * m2_1_2_1_0_1_1 == m3_2_3_2_0_3_2,
    ;
    let row4 = m1_1_1_1_2_0_1 * r;
    assert(row4 == -m3_2_2_3_3_0_2 + m3_2_3_2_2_1_2) by (nonlinear_arith)
        requires
            row4 == m1_1_1_1_2_0_1 * r,
            r == -m2_1_1_2_1_0_1 + m2_1_2_1_0_1_1,
            m1_1_1_1_2_0_1 * m2_1_1_2_1_0_1 == m3_2_2_3_3_0_2,
            m1_1_1_1_2_0_1 * m2_1_2_1_0_1_1 == m3_2_3_2_2_1_2,
    ;
    let row5 = m1_1_2_0_1_1_1 * r;
    assert(row5 == -m3_2_3_2_2_1_2 + m3_2_4_1_1_2_2) by (nonlinear_arith)
        requires
            row5 == m1_1_2_0_1_1_1 * r,
            r == -m2_1_1_2_1_0_1 + m2_1_2_1_0_1_1,
            m1_1_2_0_1_1_1 * m2_1_1_2_1_0_1 == m3_2_3_2_2_1_2,
            m1_1_2_0_1_1_1 * m2_1_2_1_0_1_1 == m3_2_4_1_1_2_2,
    ;
    assert(p * r == row0 - row1 - row2 - row3 - row4 - row5) by (nonlinear_arith)
        requires
            p == m0_0_0_0_0_0_0 - m0_0_2_2_2_2_2 - m1_1_0_2_1_1_1 - m1_1_1_1_0_2_1 -
                m1_1_1_1_2_0_1 - m1_1_2_0_1_1_1,
            row0 == m0_0_0_0_0_0_0 * r,
            row1 == m0_0_2_2_2_2_2 * r,
            row2 == m1_1_0_2_1_1_1 * r,
            row3 == m1_1_1_1_0_2_1 * r,
            row4 == m1_1_1_1_2_0_1 * r,
            row5 == m1_1_2_0_1_1_1 * r,
    ;
}

/// A cross product of the two sides.
proof fn lemma_associative_product_93(v: Vars, p: int, r: int)
    requires
        p == -mono(v, 2, 1, 1, 2, 1, 0, 1) + mono(v, 2, 1, 2, 1, 0, 1, 1),
        r == mono(v, 0, 0, 0, 0, 0, 0, 0) - mono(v, 0, 0, 2, 2, 2, 2, 2) - mono(v, 1, 1, 0, 2, 1,
            1, 1) - mono(v, 1, 1, 1, 1, 0, 2, 1) - mono(v, 1, 1, 1, 1, 2, 0, 1) - mono(v, 1, 1,
            2, 0, 1, 1, 1),
    ensures
        p * r == -mono(v, 2, 1, 1, 2, 1, 0, 1) + mono(v, 2, 1, 2, 1, 0, 1, 1) + mono(v, 2, 1, 3, 4,
            3, 2, 3) - mono(v, 2, 1, 4, 3, 2, 3, 3) + mono(v, 3, 2, 1, 4, 2, 1, 2) + mono(v, 3,
            2, 2, 3, 3, 0, 2) - mono(v, 3, 2, 3, 2, 0, 3, 2) - mono(v, 3, 2, 4, 1, 1, 2, 2),
{
    lemma_associative_product_92(v, r, p);
    assert(p * r == r * p) by (nonlinear_arith);
}

/// A cross product of the two sides.
proof fn lemma_associative_product_94(v: Vars, p: int, r: int)
    requires
        p == mono(v, 0, 1, 0, 1, 0, 1, 0) + mono(v, 0, 1, 1, 0, 1, 0, 0) + mono(v, 1, 0, 0, 1, 1,
            0, 0) + mono(v, 1, 0, 1, 0, 0, 1, 0) + mono(v, 1, 2, 1, 2, 0, 1, 1) - mono(v, 1, 2,
            2, 1, 1, 0, 1) - mono(v, 2, 1, 1, 2, 1, 0, 1) + mono(v, 2, 1, 2, 1, 0, 1, 1),
        r == mono(v, 0, 0, 0, 0, 0, 0, 0) - mono(v, 0, 0, 2, 2, 2, 2, 2) - mono(v, 1, 1, 0, 2, 1,
            1, 1) - mono(v, 1, 1, 1, 1, 0, 2, 1) - mono(v, 1, 1, 1, 1, 2, 0, 1) - mono(v, 1, 1,
            2, 0, 1, 1, 1),
    ensures
        p * r == mono(v, 0, 1, 0, 1, 0, 1, 0) + mono(v, 0, 1, 1, 0, 1, 0, 0) - mono(v, 0, 1, 2, 3, 2,
            3, 2) - mono(v, 0, 1, 3, 2, 3, 2, 2) + mono(v, 1, 0, 0, 1, 1, 0, 0) + mono(v, 1, 0,
            1, 0, 0, 1, 0) - mono(v, 1, 0, 2, 3, 3, 2, 2) - mono(v, 1, 0, 3, 2, 2, 3, 2) -
            mono(v, 1, 2, 0, 3, 1, 2, 1) + mono(v, 1, 2, 1, 2, 0, 1, 1) - mono(v, 1, 2, 1, 2, 0,
            3, 1) - 2 * mono(v, 1, 2, 1, 2, 2, 1, 1) - mono(v, 1, 2, 2, 1, 1, 0, 1) - 2 *
            mono(v, 1, 2, 2, 1, 1, 2, 1) - mono(v, 1, 2, 2, 1, 3, 0, 1) - mono(v, 1, 2, 3, 0, 2,
            1, 1) - mono(v, 1, 2, 3, 4, 2, 3, 3) + mono(v, 1, 2, 4, 3, 3, 2, 3) - mono(v, 2, 1,
            0, 3, 2, 1, 1) - mono(v, 2, 1, 1, 2, 1, 0, 1) - 2 * mono(v, 2, 1, 1, 2, 1, 2, 1) -
            mono(v, 2, 1, 1, 2, 3, 0, 1) + mono(v, 2, 1, 2, 1, 0, 1, 1) - mono(v, 2, 1, 2, 1, 0,
            3, 1) - 2 * mono(v, 2, 1, 2, 1, 2, 1, 1) - mono(v, 2, 1, 3, 0, 1, 2, 1) + mono(v, 2,
            1, 3, 4, 3, 2, 3) - mono(v, 2, 1, 4, 3, 2, 3, 3) - mono(v, 2, 3, 1, 4, 1, 2, 2) -
            mono(v, 2, 3, 2, 3, 0, 3, 2) + mono(v, 2, 3, 3, 2, 3, 0, 2) + mono(v, 2, 3, 4, 1, 2,
            1, 2) + mono(v, 3, 2, 1, 4, 2, 1, 2) + mono(v, 3, 2, 2, 3, 3, 0, 2) - mono(v, 3, 2,
            3, 2, 0, 3, 2) - mono(v, 3, 2, 4, 1, 1, 2, 2),
{
    let p0 = mono(v, 0, 1, 0, 1, 0, 1, 0) + mono(v, 0, 1, 1, 0, 1, 0, 0) + mono(v, 1, 0, 0, 1, 1, 0,
        0) + mono(v, 1, 0, 1, 0, 0, 1, 0) + mono(v, 1, 2, 1, 2, 0, 1, 1) - mono(v, 1, 2, 2, 1,
        1, 0, 1);
    lemma_associative_product_91(v, p0, r);
    let t0 = p0 * r;
    let p1 = -mono(v, 2, 1, 1, 2, 1, 0, 1) + mono(v, 2, 1, 2, 1, 0, 1, 1);
    lemma_associative_product_93(v, p1, r);
    let t1 = p1 * r;
    assert(p * r == t0 + t1) by (nonlinear_arith)
        requires
            p == p0 + p1,
            t0 == p0 * r,
            t1 == p1 * r,
    ;
}

/// A cross product of the two sides.
proof fn lemma_associative_product_95(v: Vars, p: int, r: int)
    requires
        p == mono(v, 0, 1, 0, 1, 0, 1, 0) + mono(v, 0, 1, 1, 0, 1, 0, 0) + mono(v, 0, 1, 1, 2, 1,
            2, 1) + mono(v, 0, 1, 2, 1, 2, 1, 1) + mono(v, 1, 0, 0, 1, 1, 0, 0) + mono(v, 1, 0,
            1, 0, 0, 1, 0),
        r == mono(v, 0, 0, 0, 0, 0, 0, 0) - mono(v, 0, 2, 1, 1, 1, 1, 1) - mono(v, 1, 1, 0, 2, 1,
            1, 1) - mono(v, 1, 1, 2, 0, 1, 1, 1) - mono(v, 2, 0, 1, 1, 1, 1, 1) - mono(v, 2, 2,
            2, 2, 0, 0, 2),
    ensures
        p * r == mono(v, 0, 1, 0, 1, 0, 1, 0) + mono(v, 0, 1, 1, 0, 1, 0, 0) + mono(v, 0, 1, 1, 2, 1,
            2, 1) + mono(v, 0, 1, 2, 1, 2, 1, 1) - mono(v, 0, 3, 1, 2, 1, 2, 1) - mono(v, 0, 3,
            2, 1, 2, 1, 1) - mono(v, 0, 3, 2, 3, 2, 3, 2) - mono(v, 0, 3, 3, 2, 3, 2, 2) +
            mono(v, 1, 0, 0, 1, 1, 0, 0) + mono(v, 1, 0, 1, 0, 0, 1, 0) - mono(v, 1, 2, 0, 3, 1,
            2, 1) - 2 * mono(v, 1, 2, 1, 2, 2, 1, 1) - mono(v, 1, 2, 1, 4, 2, 3, 2) - 2 *
            mono(v, 1, 2, 2, 1, 1, 2, 1) - mono(v, 1, 2, 2, 3, 3, 2, 2) - mono(v, 1, 2, 3, 0, 2,
            1, 1) - mono(v, 1, 2, 3, 2, 2, 3, 2) - mono(v, 1, 2, 4, 1, 3, 2, 2) - mono(v, 2, 1,
            0, 3, 2, 1, 1) - 2 * mono(v, 2, 1, 1, 2, 1, 2, 1) - 2 * mono(v, 2, 1, 2, 1, 2, 1, 1)
            - mono(v, 2, 1, 2, 3, 2, 3, 2) - mono(v, 2, 1, 3, 0, 1, 2, 1) - mono(v, 2, 1, 3, 2,
            3, 2, 2) - mono(v, 2, 3, 2, 3, 0, 1, 2) - mono(v, 2, 3, 3, 2, 1, 0, 2) - mono(v, 2,
            3, 3, 4, 1, 2, 3) - mono(v, 2, 3, 4, 3, 2, 1, 3) - mono(v, 3, 0, 1, 2, 2, 1, 1) -
            mono(v, 3, 0, 2, 1, 1, 2, 1) - mono(v, 3, 2, 2, 3, 1, 0, 2) - mono(v, 3, 2, 3, 2, 0,
            1, 2),
{
    let m0_1_0_1_0_1_0 = mono(v, 0, 1, 0, 1, 0, 1, 0);
    let m0_1_1_0_1_0_0 = mono(v, 0, 1, 1, 0, 1, 0, 0);
    let m0_1_1_2_1_2_1 = mono(v, 0, 1, 1, 2, 1, 2, 1);
    let m0_1_2_1_2_1_1 = mono(v, 0, 1, 2, 1, 2, 1, 1);
    let m1_0_0_1_1_0_0 = mono(v, 1, 0, 0, 1, 1, 0, 0);
    let m1_0_1_0_0_1_0 = mono(v, 1, 0, 1, 0, 0, 1, 0);
    let m0_0_0_0_0_0_0 = mono(v, 0, 0, 0, 0, 0, 0, 0);
    let m0_2_1_1_1_1_1 = mono(v, 0, 2, 1, 1, 1, 1, 1);
    let m1_1_0_2_1_1_1 = mono(v, 1, 1, 0, 2, 1, 1, 1);
    let m1_1_2_0_1_1_1 = mono(v, 1, 1, 2, 0, 1, 1, 1);
    let m2_0_1_1_1_1_1 = mono(v, 2, 0, 1, 1, 1, 1, 1);
    let m2_2_2_2_0_0_2 = mono(v, 2, 2, 2, 2, 0, 0, 2);
    let m0_3_1_2_1_2_1 = mono(v, 0, 3, 1, 2, 1, 2, 1);
    let m1_2_0_3_1_2_1 = mono(v, 1, 2, 0, 3, 1, 2, 1);
    let m1_2_2_1_1_2_1 = mono(v, 1, 2, 2, 1, 1, 2, 1);
    let m2_1_1_2_1_2_1 = mono(v, 2, 1, 1, 2, 1, 2, 1);
    let m2_3_2_3_0_1_2 = mono(v, 2, 3, 2, 3, 0, 1, 2);
    let m0_3_2_1_2_1_1 = mono(v, 0, 3, 2, 1, 2, 1, 1);
    let m1_2_1_2_2_1_1 = mono(v, 1, 2, 1, 2, 2, 1, 1);
    let m1_2_3_0_2_1_1 = mono(v, 1, 2, 3, 0, 2, 1, 1);
    let m2_1_2_1_2_1_1 = mono(v, 2, 1, 2, 1, 2, 1, 1);
    let m2_3_3_2_1_0_2 = mono(v, 2, 3, 3, 2, 1, 0, 2);
    let m0_3_2_3_2_3_2 = mono(v, 0, 3, 2, 3, 2, 3, 2);
    let m1_2_1_4_2_3_2 = mono(v, 1, 2, 1, 4, 2, 3, 2);
    let m1_2_3_2_2_3_2 = mono(v, 1, 2, 3, 2, 2, 3, 2);
    let m2_1_2_3_2_3_2 = mono(v, 2, 1, 2, 3, 2, 3, 2);
    let m2_3_3_4_1_2_3 = mono(v, 2, 3, 3, 4, 1, 2, 3);
    let m0_3_3_2_3_2_2 = mono(v, 0, 3, 3, 2, 3, 2, 2);
    let m1_2_2_3_3_2_2 = mono(v, 1, 2, 2, 3, 3, 2, 2);
    let m1_2_4_1_3_2_2 = mono(v, 1, 2, 4, 1, 3, 2, 2);
    let m2_1_3_2_3_2_2 = mono(v, 2, 1, 3, 2, 3, 2, 2);
    let m2_3_4_3_2_1_3 = mono(v, 2, 3, 4, 3, 2, 1, 3);
    let m2_1_0_3_2_1_1 = mono(v, 2, 1, 0, 3, 2, 1, 1);
    let m3_0_1_2_2_1_1 = mono(v, 3, 0, 1, 2, 2, 1, 1);
    let m3_2_2_3_1_0_2 = mono(v, 3, 2, 2, 3, 1, 0, 2);
    let m2_1_3_0_1_2_1 = mono(v, 2, 1, 3, 0, 1, 2, 1);
    let m3_0_2_1_1_2_1 = mono(v, 3, 0, 2, 1, 1, 2, 1);
    let m3_2_3_2_0_1_2 = mono(v, 3, 2, 3, 2, 0, 1, 2);
    lemma_mono_mul(v, 0, 1, 0, 1, 0, 1, 0, 0, 0, 0, 0, 0, 0, 0);
    lemma_mono_mul(v, 0, 1, 0, 1, 0, 1, 0, 0, 2, 1, 1, 1, 1, 1);
    lemma_mono_mul(v, 0, 1, 0, 1, 0, 1, 0, 1, 1, 0, 2, 1, 1, 1);
    lemma_mono_mul(v, 0, 1, 0, 1, 0, 1, 0, 1, 1, 2, 0, 1, 1, 1);
    lemma_mono_mul(v, 0, 1, 0, 1, 0, 1, 0, 2, 0, 1, 1, 1, 1, 1);
    lemma_mono_mul(v, 0, 1, 0, 1, 0, 1, 0, 2, 2, 2, 2, 0, 0, 2);
    lemma_mono_mul(v, 0, 1, 1, 0, 1, 0, 0, 0, 0, 0, 0, 0, 0, 0);
    lemma_mono_mul(v, 0, 1, 1, 0, 1, 0, 0, 0, 2, 1, 1, 1, 1, 1);
    lemma_mono_mul(v, 0, 1, 1, 0, 1, 0, 0, 1, 1, 0, 2, 1, 1, 1);
    lemma_mono_mul(v, 0, 1, 1, 0, 1, 0, 0, 1, 1, 2, 0, 1, 1, 1);
    lemma_mono_mul(v, 0, 1, 1, 0, 1, 0, 0, 2, 0, 1, 1, 1, 1, 1);
    lemma_mono_mul(v, 0, 1, 1, 0, 1, 0, 0, 2, 2, 2, 2, 0, 0, 2);
    lemma_mono_mul(v, 0, 1, 1, 2, 1, 2, 1, 0, 0, 0, 0, 0, 0, 0);
    lemma_mono_mul(v, 0, 1, 1, 2, 1, 2, 1, 0, 2, 1, 1, 1, 1, 1);
    lemma_mono_mul(v, 0, 1, 1, 2, 1, 2, 1, 1, 1, 0, 2, 1, 1, 1);
    lemma_mono_mul(v, 0, 1, 1, 2, 1, 2, 1, 1, 1, 2, 0, 1, 1, 1);
    lemma_mono_mul(v, 0, 1, 1, 2, 1, 2, 1, 2, 0, 1, 1, 1, 1, 1);
    lemma_mono_mul(v, 0, 1, 1, 2, 1, 2, 1, 2, 2, 2, 2, 0, 0, 2);
    lemma_mono_mul(v, 0, 1, 2, 1, 2, 1, 1, 0, 0, 0, 0, 0, 0, 0);
    lemma_mono_mul(v, 0, 1, 2, 1, 2, 1, 1, 0, 2, 1, 1, 1, 1, 1);
    lemma_mono_mul(v, 0, 1, 2, 1, 2, 1, 1, 1, 1, 0, 2, 1, 1, 1);
    lemma_mono_mul(v, 0, 1, 2, 1, 2, 1, 1, 1, 1, 2, 0, 1, 1, 1);
    lemma_mono_mul(v, 0, 1, 2, 1, 2, 1, 1, 2, 0, 1, 1, 1, 1, 1);
    lemma_mono_mul(v, 0, 1, 2, 1, 2, 1, 1, 2, 2, 2, 2, 0, 0, 2);
    lemma_mono_mul(v, 1, 0, 0, 1, 1, 0, 0, 0, 0, 0, 0, 0, 0, 0);
    lemma_mono_mul(v, 1, 0, 0, 1, 1, 0, 0, 0, 2, 1, 1, 1, 1, 1);
    lemma_mono_mul(v, 1, 0, 0, 1, 1, 0, 0, 1, 1, 0, 2, 1, 1, 1);
    lemma_mono_mul(v, 1, 0, 0, 1, 1, 0, 0, 1, 1, 2, 0, 1, 1, 1);
    lemma_mono_mul(v, 1, 0, 0, 1, 1, 0, 0, 2, 0, 1, 1, 1, 1, 1);
    lemma_mono_mul(v, 1, 0, 0, 1, 1, 0, 0, 2, 2, 2, 2, 0, 0, 2);
    lemma_mono_mul(v, 1, 0, 1, 0, 0, 1, 0, 0, 0, 0, 0, 0, 0, 0);
    lemma_mono_mul(v, 1, 0, 1, 0, 0, 1, 0, 0, 2, 1, 1, 1, 1, 1);
    lemma_mono_mul(v, 1, 0, 1, 0, 0, 1, 0, 1, 1, 0, 2, 1, 1, 1);
    lemma_mono_mul(v, 1, 0, 1, 0, 0, 1, 0, 1, 1, 2, 0, 1, 1, 1);
    lemma_mono_mul(v, 1, 0, 1, 0, 0, 1, 0, 2, 0, 1, 1, 1, 1, 1);
    lemma_mono_mul(v, 1, 0, 1, 0, 0, 1, 0, 2, 2, 2, 2, 0, 0, 2);
    let row0 = m0_1_0_1_0_1_0 * r;
    assert(row0 == m0_1_0_1_0_1_0 - m0_3_1_2_1_2_1 - m1_2_0_3_1_2_1 - m1_2_2_1_1_2_1 - m2_1_1_2_1_2_1 -
        m2_3_2_3_0_1_2) by (nonlinear_arith)
        requires
            row0 == m0_1_0_1_0_1_0 * r,
            r == m0_0_0_0_0_0_0 - m0_2_1_1_1_1_1 - m1_1_0_2_1_1_1 - m1_1_2_0_1_1_1 -
                m2_0_1_1_1_1_1 - m2_2_2_2_0_0_2,
            m0_1_0_1_0_1_0 * m0_0_0_0_0_0_0 == m0_1_0_1_0_1_0,
            m0_1_0_1_0_1_0 * m0_2_1_1_1_1_1 == m0_3_1_2_1_2_1,
            m0_1_0_1_0_1_0 * m1_1_0_2_1_1_1 == m1_2_0_3_1_2_1,
            m0_1_0_1_0_1_0 * m1_1_2_0_1_1_1 == m1_2_2_1_1_2_1,
            m0_1_0_1_0_1_0 * m2_0_1_1_1_1_1 == m2_1_1_2_1_2_1,
            m0_1_0_1_0_1_0 * m2_2_2_2_0_0_2 == m2_3_2_3_0_1_2,
    ;
    let row1 = m0_1_1_0_1_0_0 * r;
    assert(row1 == m0_1_1_0_1_0_0 - m0_3_2_1_2_1_1 - m1_2_1_2_2_1_1 - m1_2_3_0_2_1_1 - m2_1_2_1_2_1_1 -
        m2_3_3_2_1_0_2) by (nonlinear_arith)
        requires
            row1 == m0_1_1_0_1_0_0 * r,
            r == m0_0_0_0_0_0_0 - m0_2_1_1_1_1_1 - m1_1_0_2_1_1_1 - m1_1_2_0_1_1_1 -
                m2_0_1_1_1_1_1 - m2_2_2_2_0_0_2,
            m0_1_1_0_1_0_0 * m0_0_0_0_0_0_0 == m0_1_1_0_1_0_0,
            m0_1_1_0_1_0_0 * m0_2_1_1_1_1_1 == m0_3_2_1_2_1_1,
            m0_1_1_0_1_0_0 * m1_1_0_2_1_1_1 == m1_2_1_2_2_1_1,
            m0_1_1_0_1_0_0 * m1_1_2_0_1_1_1 == m1_2_3_0_2_1_1,
            m0_1_1_0_1_0_0 * m2_0_1_1_1_1_1 == m2_1_2_1_2_1_1,
            m0_1_1_0_1_0_0 * m2_2_2_2_0_0_2 == m2_3_3_2_1_0_2,
    ;
    let row2 = m0_1_1_2_1_2_1 * r;
    assert(row2 == m0_1_1_2_1_2_1 - m0_3_2_3_2_3_2 - m1_2_1_4_2_3_2 - m1_2_3_2_2_3_2 - m2_1_2_3_2_3_2 -
        m2_3_3_4_1_2_3) by (nonlinear_arith)
        requires
            row2 == m0_1_1_2_1_2_1 * r,
            r == m0_0_0_0_0_0_0 - m0_2_1_1_1_1_1 - m1_1_0_2_1_1_1 - m1_1_2_0_1_1_1 -
                m2_0_1_1_1_1_1 - m2_2_2_2_0_0_2,
            m0_1_1_2_1_2_1 * m0_0_0_0_0_0_0 == m0_1_1_2_1_2_1,
            m0_1_1_2_1_2_1 * m0_2_1_1_1_1_1 == m0_3_2_3_2_3_2,
            m0_1_1_2_1_2_1 * m1_1_0_2_1_1_1 == m1_2_1_4_2_3_2,
            m0_1_1_2_1_2_1 * m1_1_2_0_1_1_1 == m1_2_3_2_2_3_2,
            m0_1_1_2_1_2_1 * m2_0_1_1_1_1_1 == m2_1_2_3_2_3_2,
            m0_1_1_2_1_2_1 * m2_2_2_2_0_0_2 == m2_3_3_4_1_2_3,
    ;
    let row3 = m0_1_2_1_2_1_1 * r;
    assert(row3 == m0_1_2_1_2_1_1 - m0_3_3_2_3_2_2 - m1_2_2_3_3_2_2 - m1_2_4_1_3_2_2 - m2_1_3_2_3_2_2 -
        m2_3_4_3_2_1_3) by (nonlinear_arith)
        requires
            row3 == m0_1_2_1_2_1_1 * r,
            r == m0_0_0_0_0_0_0 - m0_2_1_1_1_1_1 - m1_1_0_2_1_1_1 - m1_1_2_0_1_1_1 -
                m2_0_1_1_1_1_1 - m2_2_2_2_0_0_2,
            m0_1_2_1_2_1_1 * m0_0_0_0_0_0_0 == m0_1_2_1_2_1_1,
            m0_1_2_1_2_1_1 * m0_2_1_1_1_1_1 == m0_3_3_2_3_2_2,
            m0_1_2_1_2_1_1 * m1_1_0_2_1_1_1 == m1_2_2_3_3_2_2,
            m0_1_2_1_2_1_1 * m1_1_2_0_1_1_1 == m1_2_4_1_3_2_2,
            m0_1_2_1_2_1_1 * m2_0_1_1_1_1_1 == m2_1_3_2_3_2_2,
            m0_1_2_1_2_1_1 * m2_2_2_2_0_0_2 == m2_3_4_3_2_1_3,
    ;
    let row4 = m1_0_0_1_1_0_0 * r;
    assert(row4 == m1_0_0_1_1_0_0 - m1_2_1_2_2_1_1 - m2_1_0_3_2_1_1 - m2_1_2_1_2_1_1 - m3_0_1_2_2_1_1 -
        m3_2_2_3_1_0_2) by (nonlinear_arith)
        requires
            row4 == m1_0_0_1_1_0_0 * r,
            r == m0_0_0_0_0_0_0 - m0_2_1_1_1_1_1 - m1_1_0_2_1_1_1 - m1_1_2_0_1_1_1 -
                m2_0_1_1_1_1_1 - m2_2_2_2_0_0_2,
            m1_0_0_1_1_0_0 * m0_0_0_0_0_0_0 == m1_0_0_1_1_0_0,
            m1_0_0_1_1_0_0 * m0_2_1_1_1_1_1 == m1_2_1_2_2_1_1,
            m1_0_0_1_1_0_0 * m1_1_0_2_1_1_1 == m2_1_0_3_2_1_1,
            m1_0_0_1_1_0_0 * m1_1_2_0_1_1_1 == m2_1_2_1_2_1_1,
            m1_0_0_1_1_0_0 * m2_0_1_1_1_1_1 == m3_0_1_2_2_1_1,
            m1_0_0_1_1_0_0 * m2_2_2_2_0_0_2 == m3_2_2_3_1_0_2,
    ;
    let row5 = m1_0_1_0_0_1_0 * r;
    assert(row5 == m1_0_1_0_0_1_0 - m1_2_2_1_1_2_1 - m2_1_1_2_1_2_1 - m2_1_3_0_1_2_1 - m3_0_2_1_1_2_1 -
        m3_2_3_2_0_1_2) by (nonlinear_arith)
        requires
            row5 == m1_0_1_0_0_1_0 * r,
            r == m0_0_0_0_0_0_0 - m0_2_1_1_1_1_1 - m1_1_0_2_1_1_1 - m1_1_2_0_1_1_1 -
                m2_0_1_1_1_1_1 - m2_2_2_2_0_0_2,
            m1_0_1_0_0_1_0 * m0_0_0_0_0_0_0 == m1_0_1_0_0_1_0,
            m1_0_1_0_0_1_0 * m0_2_1_1_1_1_1 == m1_2_2_1_1_2_1,
            m1_0_1_0_0_1_0 * m1_1_0_2_1_1_1 == m2_1_1_2_1_2_1,
            m1_0_1_0_0_1_0 * m1_1_2_0_1_1_1 == m2_1_3_0_1_2_1,
            m1_0_1_0_0_1_0 * m2_0_1_1_1_1_1 == m3_0_2_1_1_2_1,
            m1_0_1_0_0_1_0 * m2_2_2_2_0_0_2 == m3_2_3_2_0_1_2,
    ;
    assert(p * r == row0 + row1 + row2 + row3 + row4 + row5) by (nonlinear_arith)
        requires
            p == m0_1_0_1_0_1_0 + m0_1_1_0_1_0_0 + m0_1_1_2_1_2_1 + m0_1_2_1_2_1_1 +
                m1_0_0_1_1_0_0 + m1_0_1_0_0_1_0,
            row0 == m0_1_0_1_0_1_0 * r,
            row1 == m0_1_1_0_1_0_0 * r,
            row2 == m0_1_1_2_1_2_1 * r,
            row3 == m0_1_2_1_2_1_1 * r,
            row4 == m1_0_0_1_1_0_0 * r,
            row5 == m1_0_1_0_0_1_0 * r,
    ;
}

/// A cross product of the two sides.
proof fn lemma_associative_product_96(v: Vars, p: int, r: int)
    requires
        p == mono(v, 0, 0, 0, 0, 0, 0, 0) - mono(v, 0, 2, 1, 1, 1, 1, 1) - mono(v, 1, 1, 0, 2, 1,
            1, 1) - mono(v, 1, 1, 2, 0, 1, 1, 1) - mono(v, 2, 0, 1, 1, 1, 1, 1) - mono(v, 2, 2,
            2, 2, 0, 0, 2),
        r == -mono(v, 1, 0, 1, 2, 2, 1, 1) - mono(v, 1, 0, 2, 1, 1, 2, 1),
    ensures
        p * r == -mono(v, 1, 0, 1, 2, 2, 1, 1) - mono(v, 1, 0, 2, 1, 1, 2, 1) + mono(v, 1, 2, 2, 3,
            3, 2, 2) + mono(v, 1, 2, 3, 2, 2, 3, 2) + mono(v, 2, 1, 1, 4, 3, 2, 2) + mono(v, 2,
            1, 2, 3, 2, 3, 2) + mono(v, 2, 1, 3, 2, 3, 2, 2) + mono(v, 2, 1, 4, 1, 2, 3, 2) +
            mono(v, 3, 0, 2, 3, 3, 2, 2) + mono(v, 3, 0, 3, 2, 2, 3, 2) + mono(v, 3, 2, 3, 4, 2,
            1, 3) + mono(v, 3, 2, 4, 3, 1, 2, 3),
{
    let m0_0_0_0_0_0_0 = mono(v, 0, 0, 0, 0, 0, 0, 0);
    let m0_2_1_1_1_1_1 = mono(v, 0, 2, 1, 1, 1, 1, 1);
    let m1_1_0_2_1_1_1 = mono(v, 1, 1, 0, 2, 1, 1, 1);
    let m1_1_2_0_1_1_1 = mono(v, 1, 1, 2, 0, 1, 1, 1);
    let m2_0_1_1_1_1_1 = mono(v, 2, 0, 1, 1, 1, 1, 1);
    let m2_2_2_2_0_0_2 = mono(v, 2, 2, 2, 2, 0, 0, 2);
    let m1_0_1_2_2_1_1 = mono(v, 1, 0, 1, 2, 2, 1, 1);
    let m1_0_2_1_1_2_1 = mono(v, 1, 0, 2, 1, 1, 2, 1);
    let m1_2_2_3_3_2_2 = mono(v, 1, 2, 2, 3, 3, 2, 2);
    let m1_2_3_2_2_3_2 = mono(v, 1, 2, 3, 2, 2, 3, 2);
    let m2_1_1_4_3_2_2 = mono(v, 2, 1, 1, 4, 3, 2, 2);
    let m2_1_2_3_2_3_2 = mono(v, 2, 1, 2, 3, 2, 3, 2);
    let m2_1_3_2_3_2_2 = mono(v, 2, 1, 3, 2, 3, 2, 2);
    let m2_1_4_1_2_3_2 = mono(v, 2, 1, 4, 1, 2, 3, 2);
    let m3_0_2_3_3_2_2 = mono(v, 3, 0, 2, 3, 3, 2, 2);
    let m3_0_3_2_2_3_2 = mono(v, 3, 0, 3, 2, 2, 3, 2);
    let m3_2_3_4_2_1_3 = mono(v, 3, 2, 3, 4, 2, 1, 3);
    let m3_2_4_3_1_2_3 = mono(v, 3, 2, 4, 3, 1, 2, 3);
    lemma_mono_mul(v, 0, 0, 0, 0, 0, 0, 0, 1, 0, 1, 2, 2, 1, 1);
    lemma_mono_mul(v, 0, 0, 0, 0, 0, 0, 0, 1, 0, 2, 1, 1, 2, 1);
    lemma_mono_mul(v, 0, 2, 1, 1, 1, 1, 1, 1, 0, 1, 2, 2, 1, 1);
    lemma_mono_mul(v, 0, 2, 1, 1, 1, 1, 1, 1, 0, 2, 1, 1, 2, 1);
    lemma_mono_mul(v, 1, 1, 0, 2, 1, 1, 1, 1, 0, 1, 2, 2, 1, 1);
    lemma_mono_mul(v, 1, 1, 0, 2, 1, 1, 1, 1, 0, 2, 1, 1, 2, 1);
    lemma_mono_mul(v, 1, 1, 2, 0, 1, 1, 1, 1, 0, 1, 2, 2, 1, 1);
    lemma_mono_mul(v, 1, 1, 2, 0, 1, 1, 1, 1, 0, 2, 1, 1, 2, 1);
    lemma_mono_mul(v, 2, 0, 1, 1, 1, 1, 1, 1, 0, 1, 2, 2, 1, 1);
    lemma_mono_mul(v, 2, 0, 1, 1, 1, 1, 1, 1, 0, 2, 1, 1, 2, 1);
    lemma_mono_mul(v, 2, 2, 2, 2, 0, 0, 2, 1, 0, 1, 2, 2, 1, 1);
    lemma_mono_mul(v, 2, 2, 2, 2, 0, 0, 2, 1, 0, 2, 1, 1, 2, 1);
    let row0 = m0_0_0_0_0_0_0 * r;
    assert(row0 == -m1_0_1_2_2_1_1 - m1_0_2_1_1_2_1) by (nonlinear_arith)
        requires
            row0 == m0_0_0_0_0_0_0 * r,
            r == -m1_0_1_2_2_1_1 - m1_0_2_1_1_2_1,
            m0_0_0_0_0_0_0 * m1_0_1_2_2_1_1 == m1_0_1_2_2_1_1,
            m0_0_0_0_0_0_0 * m1_0_2_1_1_2_1 == m1_0_2_1_1_2_1,
    ;
    let row1 = m0_2_1_1_1_1_1 * r;
    assert(row1 == -m1_2_2_3_3_2_2 - m1_2_3_2_2_3_2) by (nonlinear_arith)
        requires
            row1 == m0_2_1_1_1_1_1 * r,
            r == -m1_0_1_2_2_1_1 - m1_0_2_1_1_2_1,
            m0_2_1_1_1_1_1 * m1_0_1_2_2_1_1 == m1_2_2_3_3_2_2,
            m0_2_1_1_1_1_1 * m1_0_2_1_1_2_1 == m1_2_3_2_2_3_2,
    ;
    let row2 = m1_1_0_2_1_1_1 * r;
    assert(row2 == -m2_1_1_4_3_2_2 - m2_1_2_3_2_3_2) by (nonlinear_arith)
        requires
            row2 == m1_1_0_2_1_1_1 * r,
            r == -m1_0_1_2_2_1_1 - m1_0_2_1_1_2_1,
            m1_1_0_2_1_1_1 * m1_0_1_2_2_1_1 == m2_1_1_4_3_2_2,
            m1_1_0_2_1_1_1 * m1_0_2_1_1_2_1 == m2_1_2_3_2_3_2,
    ;
    let row3 = m1_1_2_0_1_1_1 * r;
    assert(row3 == -m2_1_3_2_3_2_2 - m2_1_4_1_2_3_2) by (nonlinear_arith)
        requires
            row3 == m1_1_2_0_1_1_1 * r,
            r == -m1_0_1_2_2_1_1 - m1_0_2_1_1_2_1,
            m1_1_2_0_1_1_1 * m1_0_1_2_2_1_1 == m2_1_3_2_3_2_2,
            m1_1_2_0_1_1_1 * m1_0_2_1_1_2_1 == m2_1_4_1_2_3_2,
    ;
    let row4 = m2_0_1_1_1_1_1 * r;
    assert(row4 == -m3_0_2_3_3_2_2 - m3_0_3_2_2_3_2) by (nonlinear_arith)
        requires
            row4 == m2_0_1_1_1_1_1 * r,
            r == -m1_0_1_2_2_1_1 - m1_0_2_1_1_2_1,
            m2_0_1_1_1_1_1 * m1_0_1_2_2_1_1 == m3_0_2_3_3_2_2,
            m2_0_1_1_1_1_1 * m1_0_2_1_1_2_1 == m3_0_3_2_2_3_2,
    ;
    let row5 = m2_2_2_2_0_0_2 * r;
    assert(row5 == -m3_2_3_4_2_1_3 - m3_2_4_3_1_2_3) by (nonlinear_arith)
        requires
            row5 == m2_2_2_2_0_0_2 * r,
            r == -m1_0_1_2_2_1_1 - m1_0_2_1_1_2_1,
            m2_2_2_2_0_0_2 * m1_0_1_2_2_1_1 == m3_2_3_4_2_1_3,
            m2_2_2_2_0_0_2 * m1_0_2_1_1_2_1 == m3_2_4_3_1_2_3,
    ;
    assert(p * r == row0 - row1 - row2 - row3 - row4 - row5) by (nonlinear_arith)
        requires
            p == m0_0_0_0_0_0_0 - m0_2_1_1_1_1_1 - m1_1_0_2_1_1_1 - m1_1_2_0_1_1_1 -
                m2_0_1_1_1_1_1 - m2_2_2_2_0_0_2,
            row0 == m0_0_0_0_0_0_0 * r,
            row1 == m0_2_1_1_1_1_1 * r,
            row2 == m1_1_0_2_1_1_1 * r,
            row3 == m1_1_2_0_1_1_1 * r,
            row4 == m2_0_1_1_1_1_1 * r,
            row5 == m2_2_2_2_0_0_2 * r,
    ;
}

/// A cross product of the two sides.
proof fn lemma_associative_product_97(v: Vars, p: int, r: int)
    requires
        p == -mono(v, 1, 0, 1, 2, 2, 1, 1) - mono(v, 1, 0, 2, 1, 1, 2, 1),
        r == mono(v, 0, 0, 0, 0, 0, 0, 0) - mono(v, 0, 2, 1, 1, 1, 1, 1) - mono(v, 1, 1, 0, 2, 1,
            1, 1) - mono(v, 1, 1, 2, 0, 1, 1, 1) - mono(v, 2, 0, 1, 1, 1, 1, 1) - mono(v, 2, 2,
            2, 2, 0, 0, 2),
    ensures
        p * r == -mono(v, 1, 0, 1, 2, 2, 1, 1) - mono(v, 1, 0, 2, 1, 1, 2, 1) + mono(v, 1, 2, 2, 3,
            3, 2, 2) + mono(v, 1, 2, 3, 2, 2, 3, 2) + mono(v, 2, 1, 1, 4, 3, 2, 2) + mono(v, 2,
            1, 2, 3, 2, 3, 2) + mono(v, 2, 1, 3, 2, 3, 2, 2) + mono(v, 2, 1, 4, 1, 2, 3, 2) +
            mono(v, 3, 0, 2, 3, 3, 2, 2) + mono(v, 3, 0, 3, 2, 2, 3, 2) + mono(v, 3, 2, 3, 4, 2,
            1, 3) + mono(v, 3, 2, 4, 3, 1, 2, 3),
{
    lemma_associative_product_96(v, r, p);
    assert(p * r == r * p) by (nonlinear_arith);
}

/// A cross product of the two sides.
proof fn lemma_associative_product_98(v: Vars, p: int, r: int)
    requires
        p == mono(v, 0, 1, 0, 1, 0, 1, 0) + mono(v, 0, 1, 1, 0, 1, 0, 0) + mono(v, 0, 1, 1, 2, 1,
            2, 1) + mono(v, 0, 1, 2, 1, 2, 1, 1) + mono(v, 1, 0, 0, 1, 1, 0, 0) + mono(v, 1, 0,
            1, 0, 0, 1, 0) - mono(v, 1, 0, 1, 2, 2, 1, 1) - mono(v, 1, 0, 2, 1, 1, 2, 1),
        r == mono(v, 0, 0, 0, 0, 0, 0, 0) - mono(v, 0, 2, 1, 1, 1, 1, 1) - mono(v, 1, 1, 0, 2, 1,
            1, 1) - mono(v, 1, 1, 2, 0, 1, 1, 1) - mono(v, 2, 0, 1, 1, 1, 1, 1) - mono(v, 2, 2,
            2, 2, 0, 0, 2),
    ensures
        p * r == mono(v, 0, 1, 0, 1, 0, 1, 0) + mono(v, 0, 1, 1, 0, 1, 0, 0) + mono(v, 0, 1, 1, 2, 1,
            2, 1) + mono(v, 0, 1, 2, 1, 2, 1, 1) - mono(v, 0, 3, 1, 2, 1, 2, 1) - mono(v, 0, 3,
            2, 1, 2, 1, 1) - mono(v, 0, 3, 2, 3, 2, 3, 2) - mono(v, 0, 3, 3, 2, 3, 2, 2) +
            mono(v, 1, 0, 0, 1, 1, 0, 0) + mono(v, 1, 0, 1, 0, 0, 1, 0) - mono(v, 1, 0, 1, 2, 2,
            1, 1) - mono(v, 1, 0, 2, 1, 1, 2, 1) - mono(v, 1, 2, 0, 3, 1, 2, 1) - 2 * mono(v, 1,
            2, 1, 2, 2, 1, 1) - mono(v, 1, 2, 1, 4, 2, 3, 2) - 2 * mono(v, 1, 2, 2, 1, 1, 2, 1)
            - mono(v, 1, 2, 3, 0, 2, 1, 1) - mono(v, 1, 2, 4, 1, 3, 2, 2) - mono(v, 2, 1, 0, 3,
            2, 1, 1) - 2 * mono(v, 2, 1, 1, 2, 1, 2, 1) + mono(v, 2, 1, 1, 4, 3, 2, 2) - 2 *
            mono(v, 2, 1, 2, 1, 2, 1, 1) - mono(v, 2, 1, 3, 0, 1, 2, 1) + mono(v, 2, 1, 4, 1, 2,
            3, 2) - mono(v, 2, 3, 2, 3, 0, 1, 2) - mono(v, 2, 3, 3, 2, 1, 0, 2) - mono(v, 2, 3,
            3, 4, 1, 2, 3) - mono(v, 2, 3, 4, 3, 2, 1, 3) - mono(v, 3, 0, 1, 2, 2, 1, 1) -
            mono(v, 3, 0, 2, 1, 1, 2, 1) + mono(v, 3, 0, 2, 3, 3, 2, 2) + mono(v, 3, 0, 3, 2, 2,
            3, 2) - mono(v, 3, 2, 2, 3, 1, 0, 2) - mono(v, 3, 2, 3, 2, 0, 1, 2) + mono(v, 3, 2,
            3, 4, 2, 1, 3) + mono(v, 3, 2, 4, 3, 1, 2, 3),
{
    let p0 = mono(v, 0, 1, 0, 1, 0, 1, 0) + mono(v, 0, 1, 1, 0, 1, 0, 0) + mono(v, 0, 1, 1, 2, 1, 2,
        1) + mono(v, 0, 1, 2, 1, 2, 1, 1) + mono(v, 1, 0, 0, 1, 1, 0, 0) + mono(v, 1, 0, 1, 0,
        0, 1, 0);
    lemma_associative_product_95(v, p0, r);
    let t0 = p0 * r;
    let p1 = -mono(v, 1, 0, 1, 2, 2, 1, 1) - mono(v, 1, 0, 2, 1, 1, 2, 1);
    lemma_associative_product_97(v, p1, r);
    let t1 = p1 * r;
    assert(p * r == t0 + t1) by (nonlinear_arith)
        requires
            p == p0 + p1,
            t0 == p0 * r,
            t1 == p1 * r,
    ;
}

/// A cofactor times the defect of a point.
proof fn lemma_associative_product_99(v: Vars, p: int, r: int)
    requires
        p == mono(v, 0, 1, 1, 4, 1, 2, 1) - mono(v, 0, 1, 2, 3, 0, 1, 1) + mono(v, 0, 1, 2, 3, 0,
            3, 1) - mono(v, 0, 1, 3, 2, 1, 0, 1) - mono(v, 0, 1, 3, 2, 3, 0, 1) - mono(v, 0, 1,
            3, 4, 1, 2, 2),
        r == -mono(v, 0, 0, 0, 0, 0, 0, 0) + mono(v, 0, 2, 0, 0, 0, 0, 0) - mono(v, 2, 0, 0, 0,
            0, 0, 0) - mono(v, 2, 2, 0, 0, 0, 0, 1),
    ensures
        p * r == -mono(v, 0, 1, 1, 4, 1, 2, 1) + mono(v, 0, 1, 2, 3, 0, 1, 1) - mono(v, 0, 1, 2, 3,
            0, 3, 1) + mono(v, 0, 1, 3, 2, 1, 0, 1) + mono(v, 0, 1, 3, 2, 3, 0, 1) + mono(v, 0,
            1, 3, 4, 1, 2, 2) + mono(v, 0, 3, 1, 4, 1, 2, 1) - mono(v, 0, 3, 2, 3, 0, 1, 1) +
            mono(v, 0, 3, 2, 3, 0, 3, 1) - mono(v, 0, 3, 3, 2, 1, 0, 1) - mono(v, 0, 3, 3, 2, 3,
            0, 1) - mono(v, 0, 3, 3, 4, 1, 2, 2) - mono(v, 2, 1, 1, 4, 1, 2, 1) + mono(v, 2, 1,
            2, 3, 0, 1, 1) - mono(v, 2, 1, 2, 3, 0, 3, 1) + mono(v, 2, 1, 3, 2, 1, 0, 1) +
            mono(v, 2, 1, 3, 2, 3, 0, 1) + mono(v, 2, 1, 3, 4, 1, 2, 2) - mono(v, 2, 3, 1, 4, 1,
            2, 2) + mono(v, 2, 3, 2, 3, 0, 1, 2) - mono(v, 2, 3, 2, 3, 0, 3, 2) + mono(v, 2, 3,
            3, 2, 1, 0, 2) + mono(v, 2, 3, 3, 2, 3, 0, 2) + mono(v, 2, 3, 3, 4, 1, 2, 3),
{
    let m0_1_1_4_1_2_1 = mono(v, 0, 1, 1, 4, 1, 2, 1);
    let m0_1_2_3_0_1_1 = mono(v, 0, 1, 2, 3, 0, 1, 1);
    let m0_1_2_3_0_3_1 = mono(v, 0, 1, 2, 3, 0, 3, 1);
    let m0_1_3_2_1_0_1 = mono(v, 0, 1, 3, 2, 1, 0, 1);
    let m0_1_3_2_3_0_1 = mono(v, 0, 1, 3, 2, 3, 0, 1);
    let m0_1_3_4_1_2_2 = mono(v, 0, 1, 3, 4, 1, 2, 2);
    let m0_0_0_0_0_0_0 = mono(v, 0, 0, 0, 0, 0, 0, 0);
    let m0_2_0_0_0_0_0 = mono(v, 0, 2, 0, 0, 0, 0, 0);
    let m2_0_0_0_0_0_0 = mono(v, 2, 0, 0, 0, 0, 0, 0);
    let m2_2_0_0_0_0_1 = mono(v, 2, 2, 0, 0, 0, 0, 1);
    let m0_3_1_4_1_2_1 = mono(v, 0, 3, 1, 4, 1, 2, 1);
    let m2_1_1_4_1_2_1 = mono(v, 2, 1, 1, 4, 1, 2, 1);
    let m2_3_1_4_1_2_2 = mono(v, 2, 3, 1, 4, 1, 2, 2);
    let m0_3_2_3_0_1_1 = mono(v, 0, 3, 2, 3, 0, 1, 1);
    let m2_1_2_3_0_1_1 = mono(v, 2, 1, 2, 3, 0, 1, 1);
    let m2_3_2_3_0_1_2 = mono(v, 2, 3, 2, 3, 0, 1, 2);
    let m0_3_2_3_0_3_1 = mono(v, 0, 3, 2, 3, 0, 3, 1);
    let m2_1_2_3_0_3_1 = mono(v, 2, 1, 2, 3, 0, 3, 1);
    let m2_3_2_3_0_3_2 = mono(v, 2, 3, 2, 3, 0, 3, 2);
    let m0_3_3_2_1_0_1 = mono(v, 0, 3, 3, 2, 1, 0, 1);
    let m2_1_3_2_1_0_1 = mono(v, 2, 1, 3, 2, 1, 0, 1);
    let m2_3_3_2_1_0_2 = mono(v, 2, 3, 3, 2, 1, 0, 2);
    let m0_3_3_2_3_0_1 = mono(v, 0, 3, 3, 2, 3, 0, 1);
    let m2_1_3_2_3_0_1 = mono(v, 2, 1, 3, 2, 3, 0, 1);
    let m2_3_3_2_3_0_2 = mono(v, 2, 3, 3, 2, 3, 0, 2);
    let m0_3_3_4_1_2_2 = mono(v, 0, 3, 3, 4, 1, 2, 2);
    let m2_1_3_4_1_2_2 = mono(v, 2, 1, 3, 4, 1, 2, 2);
    let m2_3_3_4_1_2_3 = mono(v, 2, 3, 3, 4, 1, 2, 3);
    lemma_mono_mul(v, 0, 1, 1, 4, 1, 2, 1, 0, 0, 0, 0, 0, 0, 0);
    lemma_mono_mul(v, 0, 1, 1, 4, 1, 2, 1, 0, 2, 0, 0, 0, 0, 0);
    lemma_mono_mul(v, 0, 1, 1, 4, 1, 2, 1, 2, 0, 0, 0, 0, 0, 0);
    lemma_mono_mul(v, 0, 1, 1, 4, 1, 2, 1, 2, 2, 0, 0, 0, 0, 1);
    lemma_mono_mul(v, 0, 1, 2, 3, 0, 1, 1, 0, 0, 0, 0, 0, 0, 0);
    lemma_mono_mul(v, 0, 1, 2, 3, 0, 1, 1, 0, 2, 0, 0, 0, 0, 0);
    lemma_mono_mul(v, 0, 1, 2, 3, 0, 1, 1, 2, 0, 0, 0, 0, 0, 0);
    lemma_mono_mul(v, 0, 1, 2, 3, 0, 1, 1, 2, 2, 0, 0, 0, 0, 1);
    lemma_mono_mul(v, 0, 1, 2, 3, 0, 3, 1, 0, 0, 0, 0, 0, 0, 0);
    lemma_mono_mul(v, 0, 1, 2, 3, 0, 3, 1, 0, 2, 0, 0, 0, 0, 0);
    lemma_mono_mul(v, 0, 1, 2, 3, 0, 3, 1, 2, 0, 0, 0, 0, 0, 0);
    lemma_mono_mul(v, 0, 1, 2, 3, 0, 3, 1, 2, 2, 0, 0, 0, 0, 1);
    lemma_mono_mul(v, 0, 1, 3, 2, 1, 0, 1, 0, 0, 0, 0, 0, 0, 0);
    lemma_mono_mul(v, 0, 1, 3, 2, 1, 0, 1, 0, 2, 0, 0, 0, 0, 0);
    lemma_mono_mul(v, 0, 1, 3, 2, 1, 0, 1, 2, 0, 0, 0, 0, 0, 0);
    lemma_mono_mul(v, 0, 1, 3, 2, 1, 0, 1, 2, 2, 0, 0, 0, 0, 1);
    lemma_mono_mul(v, 0, 1, 3, 2, 3, 0, 1, 0, 0, 0, 0, 0, 0, 0);
    lemma_mono_mul(v, 0, 1, 3, 2, 3, 0, 1, 0, 2, 0, 0, 0, 0, 0);
    lemma_mono_mul(v, 0, 1, 3, 2, 3, 0, 1, 2, 0, 0, 0, 0, 0, 0);
    lemma_mono_mul(v, 0, 1, 3, 2, 3, 0, 1, 2, 2, 0, 0, 0, 0, 1);
    lemma_mono_mul(v, 0, 1, 3, 4, 1, 2, 2, 0, 0, 0, 0, 0, 0, 0);
    lemma_mono_mul(v, 0, 1, 3, 4, 1, 2, 2, 0, 2, 0, 0, 0, 0, 0);
    lemma_mono_mul(v, 0, 1, 3, 4, 1, 2, 2, 2, 0, 0, 0, 0, 0, 0);
    lemma_mono_mul(v, 0, 1, 3, 4, 1, 2, 2, 2, 2, 0, 0, 0, 0, 1);
    let row0 = m0_1_1_4_1_2_1 * r;
    assert(row0 == -m0_1_1_4_1_2_1 + m0_3_1_4_1_2_1 - m2_1_1_4_1_2_1 - m2_3_1_4_1_2_2) by (nonlinear_arith)
        requires
            row0 == m0_1_1_4_1_2_1 * r,
            r == -m0_0_0_0_0_0_0 + m0_2_0_0_0_0_0 - m2_0_0_0_0_0_0 - m2_2_0_0_0_0_1,
            m0_1_1_4_1_2_1 * m0_0_0_0_0_0_0 == m0_1_1_4_1_2_1,
            m0_1_1_4_1_2_1 * m0_2_0_0_0_0_0 == m0_3_1_4_1_2_1,
            m0_1_1_4_1_2_1 * m2_0_0_0_0_0_0 == m2_1_1_4_1_2_1,
            m0_1_1_4_1_2_1 * m2_2_0_0_0_0_1 == m2_3_1_4_1_2_2,
    ;
    let row1 = m0_1_2_3_0_1_1 * r;
    assert(row1 == -m0_1_2_3_0_1_1 + m0_3_2_3_0_1_1 - m2_1_2_3_0_1_1 - m2_3_2_3_0_1_2) by (nonlinear_arith)
        requires
            row1 == m0_1_2_3_0_1_1 * r,
            r == -m0_0_0_0_0_0_0 + m0_2_0_0_0_0_0 - m2_0_0_0_0_0_0 - m2_2_0_0_0_0_1,
            m0_1_2_3_0_1_1 * m0_0_0_0_0_0_0 == m0_1_2_3_0_1_1,
            m0_1_2_3_0_1_1 * m0_2_0_0_0_0_0 == m0_3_2_3_0_1_1,
            m0_1_2_3_0_1_1 * m2_0_0_0_0_0_0 == m2_1_2_3_0_1_1,
            m0_1_2_3_0_1_1 * m2_2_0_0_0_0_1 == m2_3_2_3_0_1_2,
    ;
    let row2 = m0_1_2_3_0_3_1 * r;
    assert(row2 == -m0_1_2_3_0_3_1 + m0_3_2_3_0_3_1 - m2_1_2_3_0_3_1 - m2_3_2_3_0_3_2) by (nonlinear_arith)
        requires
            row2 == m0_1_2_3_0_3_1 * r,
            r == -m0_0_0_0_0_0_0 + m0_2_0_0_0_0_0 - m2_0_0_0_0_0_0 - m2_2_0_0_0_0_1,
            m0_1_2_3_0_3_1 * m0_0_0_0_0_0_0 == m0_1_2_3_0_3_1,
            m0_1_2_3_0_3_1 * m0_2_0_0_0_0_0 == m0_3_2_3_0_3_1,
            m0_1_2_3_0_3_1 * m2_0_0_0_0_0_0 == m2_1_2_3_0_3_1,
            m0_1_2_3_0_3_1 * m2_2_0_0_0_0_1 == m2_3_2_3_0_3_2,
    ;
    let row3 = m0_1_3_2_1_0_1 * r;
    assert(row3 == -m0_1_3_2_1_0_1 + m0_3_3_2_1_0_1 - m2_1_3_2_1_0_1 - m2_3_3_2_1_0_2) by (nonlinear_arith)
        requires
            row3 == m0_1_3_2_1_0_1 * r,
            r == -m0_0_0_0_0_0_0 + m0_2_0_0_0_0_0 - m2_0_0_0_0_0_0 - m2_2_0_0_0_0_1,
            m0_1_3_2_1_0_1 * m0_0_0_0_0_0_0 == m0_1_3_2_1_0_1,
            m0_1_3_2_1_0_1 * m0_2_0_0_0_0_0 == m0_3_3_2_1_0_1,
            m0_1_3_2_1_0_1 * m2_0_0_0_0_0_0 == m2_1_3_2_1_0_1,
            m0_1_3_2_1_0_1 * m2_2_0_0_0_0_1 == m2_3_3_2_1_0_2,
    ;
    let row4 = m0_1_3_2_3_0_1 * r;
    assert(row4 == -m0_1_3_2_3_0_1 + m0_3_3_2_3_0_1 - m2_1_3_2_3_0_1 - m2_3_3_2_3_0_2) by (nonlinear_arith)
        requires
            row4 == m0_1_3_2_3_0_1 * r,
            r == -m0_0_0_0_0_0_0 + m0_2_0_0_0_0_0 - m2_0_0_0_0_0_0 - m2_2_0_0_0_0_1,
            m0_1_3_2_3_0_1 * m0_0_0_0_0_0_0 == m0_1_3_2_3_0_1,
            m0_1_3_2_3_0_1 * m0_2_0_0_0_0_0 == m0_3_3_2_3_0_1,
            m0_1_3_2_3_0_1 * m2_0_0_0_0_0_0 == m2_1_3_2_3_0_1,
            m0_1_3_2_3_0_1 * m2_2_0_0_0_0_1 == m2_3_3_2_3_0_2,
    ;
    let row5 = m0_1_3_4_1_2_2 * r;
    assert(row5 == -m0_1_3_4_1_2_2 + m0_3_3_4_1_2_2 - m2_1_3_4_1_2_2 - m2_3_3_4_1_2_3) by (nonlinear_arith)
        requires
            row5 == m0_1_3_4_1_2_2 * r,
            r == -m0_0_0_0_0_0_0 + m0_2_0_0_0_0_0 - m2_0_0_0_0_0_0 - m2_2_0_0_0_0_1,
            m0_1_3_4_1_2_2 * m0_0_0_0_0_0_0 == m0_1_3_4_1_2_2,
            m0_1_3_4_1_2_2 * m0_2_0_0_0_0_0 == m0_3_3_4_1_2_2,
            m0_1_3_4_1_2_2 * m2_0_0_0_0_0_0 == m2_1_3_4_1_2_2,
            m0_1_3_4_1_2_2 * m2_2_0_0_0_0_1 == m2_3_3_4_1_2_3,
    ;
    assert(p * r == row0 - row1 + row2 - row3 - row4 - row5) by (nonlinear_arith)
        requires
            p == m0_1_1_4_1_2_1 - m0_1_2_3_0_1_1 + m0_1_2_3_0_3_1 - m0_1_3_2_1_0_1 -
                m0_1_3_2_3_0_1 - m0_1_3_4_1_2_2,
            row0 == m0_1_1_4_1_2_1 * r,
            row1 == m0_1_2_3_0_1_1 * r,
            row2 == m0_1_2_3_0_3_1 * r,
            row3 == m0_1_3_2_1_0_1 * r,
            row4 == m0_1_3_2_3_0_1 * r,
            row5 == m0_1_3_4_1_2_2 * r,
    ;
}

/// A cofactor times the defect of a point.
proof fn lemma_associative_product_100(v: Vars, p: int, r: int)
    requires
        p == -mono(v, 0, 1, 4, 1, 2, 1, 1) - mono(v, 0, 1, 4, 3, 2, 1, 2) - mono(v, 1, 0, 1, 4,
            2, 1, 1) - mono(v, 1, 0, 2, 3, 1, 0, 1) - mono(v, 1, 0, 2, 3, 3, 0, 1) - mono(v, 1,
            0, 3, 2, 0, 1, 1),
        r == -mono(v, 0, 0, 0, 0, 0, 0, 0) + mono(v, 0, 2, 0, 0, 0, 0, 0) - mono(v, 2, 0, 0, 0,
            0, 0, 0) - mono(v, 2, 2, 0, 0, 0, 0, 1),
    ensures
        p * r == mono(v, 0, 1, 4, 1, 2, 1, 1) + mono(v, 0, 1, 4, 3, 2, 1, 2) - mono(v, 0, 3, 4, 1, 2,
            1, 1) - mono(v, 0, 3, 4, 3, 2, 1, 2) + mono(v, 1, 0, 1, 4, 2, 1, 1) + mono(v, 1, 0,
            2, 3, 1, 0, 1) + mono(v, 1, 0, 2, 3, 3, 0, 1) + mono(v, 1, 0, 3, 2, 0, 1, 1) -
            mono(v, 1, 2, 1, 4, 2, 1, 1) - mono(v, 1, 2, 2, 3, 1, 0, 1) - mono(v, 1, 2, 2, 3, 3,
            0, 1) - mono(v, 1, 2, 3, 2, 0, 1, 1) + mono(v, 2, 1, 4, 1, 2, 1, 1) + mono(v, 2, 1,
            4, 3, 2, 1, 2) + mono(v, 2, 3, 4, 1, 2, 1, 2) + mono(v, 2, 3, 4, 3, 2, 1, 3) +
            mono(v, 3, 0, 1, 4, 2, 1, 1) + mono(v, 3, 0, 2, 3, 1, 0, 1) + mono(v, 3, 0, 2, 3, 3,
            0, 1) + mono(v, 3, 0, 3, 2, 0, 1, 1) + mono(v, 3, 2, 1, 4, 2, 1, 2) + mono(v, 3, 2,
            2, 3, 1, 0, 2) + mono(v, 3, 2, 2, 3, 3, 0, 2) + mono(v, 3, 2, 3, 2, 0, 1, 2),
{
    let m0_1_4_1_2_1_1 = mono(v, 0, 1, 4, 1, 2, 1, 1);
    let m0_1_4_3_2_1_2 = mono(v, 0, 1, 4, 3, 2, 1, 2);
    let m1_0_1_4_2_1_1 = mono(v, 1, 0, 1, 4, 2, 1, 1);
    let m1_0_2_3_1_0_1 = mono(v, 1, 0, 2, 3, 1, 0, 1);
    let m1_0_2_3_3_0_1 = mono(v, 1, 0, 2, 3, 3, 0, 1);
    let m1_0_3_2_0_1_1 = mono(v, 1, 0, 3, 2, 0, 1, 1);
    let m0_0_0_0_0_0_0 = mono(v, 0, 0, 0, 0, 0, 0, 0);
    let m0_2_0_0_0_0_0 = mono(v, 0, 2, 0, 0, 0, 0, 0);
    let m2_0_0_0_0_0_0 = mono(v, 2, 0, 0, 0, 0, 0, 0);
    let m2_2_0_0_0_0_1 = mono(v, 2, 2, 0, 0, 0, 0, 1);
    let m0_3_4_1_2_1_1 = mono(v, 0, 3, 4, 1, 2, 1, 1);
    let m2_1_4_1_2_1_1 = mono(v, 2, 1, 4, 1, 2, 1, 1);
    let m2_3_4_1_2_1_2 = mono(v, 2, 3, 4, 1, 2, 1, 2);
    let m0_3_4_3_2_1_2 = mono(v, 0, 3, 4, 3, 2, 1, 2);
    let m2_1_4_3_2_1_2 = mono(v, 2, 1, 4, 3, 2, 1, 2);
    let m2_3_4_3_2_1_3 = mono(v, 2, 3, 4, 3, 2, 1, 3);
    let m1_2_1_4_2_1_1 = mono(v, 1, 2, 1, 4, 2, 1, 1);
    let m3_0_1_4_2_1_1 = mono(v, 3, 0, 1, 4, 2, 1, 1);
    let m3_2_1_4_2_1_2 = mono(v, 3, 2, 1, 4, 2, 1, 2);
    let m1_2_2_3_1_0_1 = mono(v, 1, 2, 2, 3, 1, 0, 1);
    let m3_0_2_3_1_0_1 = mono(v, 3, 0, 2, 3, 1, 0, 1);
    let m3_2_2_3_1_0_2 = mono(v, 3, 2, 2, 3, 1, 0, 2);
    let m1_2_2_3_3_0_1 = mono(v, 1, 2, 2, 3, 3, 0, 1);
    let m3_0_2_3_3_0_1 = mono(v, 3, 0, 2, 3, 3, 0, 1);
    let m3_2_2_3_3_0_2 = mono(v, 3, 2, 2, 3, 3, 0, 2);
    let m1_2_3_2_0_1_1 = mono(v, 1, 2, 3, 2, 0, 1, 1);
    let m3_0_3_2_0_1_1 = mono(v, 3, 0, 3, 2, 0, 1, 1);
    let m3_2_3_2_0_1_2 = mono(v, 3, 2, 3, 2, 0, 1, 2);
    lemma_mono_mul(v, 0, 1, 4, 1, 2, 1, 1, 0, 0, 0, 0, 0, 0, 0);
    lemma_mono_mul(v, 0, 1, 4, 1, 2, 1, 1, 0, 2, 0, 0, 0, 0, 0);
    lemma_mono_mul(v, 0, 1, 4, 1, 2, 1, 1, 2, 0, 0, 0, 0, 0, 0);
    lemma_mono_mul(v, 0, 1, 4, 1, 2, 1, 1, 2, 2, 0, 0, 0, 0, 1);
    lemma_mono_mul(v, 0, 1, 4, 3, 2, 1, 2, 0, 0, 0, 0, 0, 0, 0);
    lemma_mono_mul(v, 0, 1, 4, 3, 2, 1, 2, 0, 2, 0, 0, 0, 0, 0);
    lemma_mono_mul(v, 0, 1, 4, 3, 2, 1, 2, 2, 0, 0, 0, 0, 0, 0);
    lemma_mono_mul(v, 0, 1, 4, 3, 2, 1, 2, 2, 2, 0, 0, 0, 0, 1);
    lemma_mono_mul(v, 1, 0, 1, 4, 2, 1, 1, 0, 0, 0, 0, 0, 0, 0);
    lemma_mono_mul(v, 1, 0, 1, 4, 2, 1, 1, 0, 2, 0, 0, 0, 0, 0);
    lemma_mono_mul(v, 1, 0, 1, 4, 2, 1, 1, 2, 0, 0, 0, 0, 0, 0);
    lemma_mono_mul(v, 1, 0, 1, 4, 2, 1, 1, 2, 2, 0, 0, 0, 0, 1);
    lemma_mono_mul(v, 1, 0, 2, 3, 1, 0, 1, 0, 0, 0, 0, 0, 0, 0);
    lemma_mono_mul(v, 1, 0, 2, 3, 1, 0, 1, 0, 2, 0, 0, 0, 0, 0);
    lemma_mono_mul(v, 1, 0, 2, 3, 1, 0, 1, 2, 0, 0, 0, 0, 0, 0);
    lemma_mono_mul(v, 1, 0, 2, 3, 1, 0, 1, 2, 2, 0, 0, 0, 0, 1);
    lemma_mono_mul(v, 1, 0, 2, 3, 3, 0, 1, 0, 0, 0, 0, 0, 0, 0);
    lemma_mono_mul(v, 1, 0, 2, 3, 3, 0, 1, 0, 2, 0, 0, 0, 0, 0);
    lemma_mono_mul(v, 1, 0, 2, 3, 3, 0, 1, 2, 0, 0, 0, 0, 0, 0);
    lemma_mono_mul(v, 1, 0, 2, 3, 3, 0, 1, 2, 2, 0, 0, 0, 0, 1);
    lemma_mono_mul(v, 1, 0, 3, 2, 0, 1, 1, 0, 0, 0, 0, 0, 0, 0);
    lemma_mono_mul(v, 1, 0, 3, 2, 0, 1, 1, 0, 2, 0, 0, 0, 0, 0);
    lemma_mono_mul(v, 1, 0, 3, 2, 0, 1, 1, 2, 0, 0, 0, 0, 0, 0);
    lemma_mono_mul(v, 1, 0, 3, 2, 0, 1, 1, 2, 2, 0, 0, 0, 0, 1);
    let row0 = m0_1_4_1_2_1_1 * r;
    assert(row0 == -m0_1_4_1_2_1_1 + m0_3_4_1_2_1_1 - m2_1_4_1_2_1_1 - m2_3_4_1_2_1_2) by (nonlinear_arith)
        requires
            row0 == m0_1_4_1_2_1_1 * r,
            r == -m0_0_0_0_0_0_0 + m0_2_0_0_0_0_0 - m2_0_0_0_0_0_0 - m2_2_0_0_0_0_1,
            m0_1_4_1_2_1_1 * m0_0_0_0_0_0_0 == m0_1_4_1_2_1_1,
            m0_1_4_1_2_1_1 * m0_2_0_0_0_0_0 == m0_3_4_1_2_1_1,
            m0_1_4_1_2_1_1 * m2_0_0_0_0_0_0 == m2_1_4_1_2_1_1,
            m0_1_4_1_2_1_1 * m2_2_0_0_0_0_1 == m2_3_4_1_2_1_2,
    ;
    let row1 = m0_1_4_3_2_1_2 * r;
    assert(row1 == -m0_1_4_3_2_1_2 + m0_3_4_3_2_1_2 - m2_1_4_3_2_1_2 - m2_3_4_3_2_1_3) by (nonlinear_arith)
        requires
            row1 == m0_1_4_3_2_1_2 * r,
            r == -m0_0_0_0_0_0_0 + m0_2_0_0_0_0_0 - m2_0_0_0_0_0_0 - m2_2_0_0_0_0_1,
            m0_1_4_3_2_1_2 * m0_0_0_0_0_0_0 == m0_1_4_3_2_1_2,
            m0_1_4_3_2_1_2 * m0_2_0_0_0_0_0 == m0_3_4_3_2_1_2,
            m0_1_4_3_2_1_2 * m2_0_0_0_0_0_0 == m2_1_4_3_2_1_2,
            m0_1_4_3_2_1_2 * m2_2_0_0_0_0_1 == m2_3_4_3_2_1_3,
    ;
    let row2 = m1_0_1_4_2_1_1 * r;
    assert(row2 == -m1_0_1_4_2_1_1 + m1_2_1_4_2_1_1 - m3_0_1_4_2_1_1 - m3_2_1_4_2_1_2) by (nonlinear_arith)
        requires
            row2 == m1_0_1_4_2_1_1 * r,
            r == -m0_0_0_0_0_0_0 + m0_2_0_0_0_0_0 - m2_0_0_0_0_0_0 - m2_2_0_0_0_0_1,
            m1_0_1_4_2_1_1 * m0_0_0_0_0_0_0 == m1_0_1_4_2_1_1,
            m1_0_1_4_2_1_1 * m0_2_0_0_0_0_0 == m1_2_1_4_2_1_1,
            m1_0_1_4_2_1_1 * m2_0_0_0_0_0_0 == m3_0_1_4_2_1_1,
            m1_0_1_4_2_1_1 * m2_2_0_0_0_0_1 == m3_2_1_4_2_1_2,
    ;
    let row3 = m1_0_2_3_1_0_1 * r;
    assert(row3 == -m1_0_2_3_1_0_1 + m1_2_2_3_1_0_1 - m3_0_2_3_1_0_1 - m3_2_2_3_1_0_2) by (nonlinear_arith)
        requires
            row3 == m1_0_2_3_1_0_1 * r,
            r == -m0_0_0_0_0_0_0 + m0_2_0_0_0_0_0 - m2_0_0_0_0_0_0 - m2_2_0_0_0_0_1,
            m1_0_2_3_1_0_1 * m0_0_0_0_0_0_0 == m1_0_2_3_1_0_1,
            m1_0_2_3_1_0_1 * m0_2_0_0_0_0_0 == m1_2_2_3_1_0_1,
            m1_0_2_3_1_0_1 * m2_0_0_0_0_0_0 == m3_0_2_3_1_0_1,
            m1_0_2_3_1_0_1 * m2_2_0_0_0_0_1 == m3_2_2_3_1_0_2,
    ;
    let row4 = m1_0_2_3_3_0_1 * r;
    assert(row4 == -m1_0_2_3_3_0_1 + m1_2_2_3_3_0_1 - m3_0_2_3_3_0_1 - m3_2_2_3_3_0_2) by (nonlinear_arith)
        requires
            row4 == m1_0_2_3_3_0_1 * r,
            r == -m0_0_0_0_0_0_0 + m0_2_0_0_0_0_0 - m2_0_0_0_0_0_0 - m2_2_0_0_0_0_1,
            m1_0_2_3_3_0_1 * m0_0_0_0_0_0_0 == m1_0_2_3_3_0_1,
            m1_0_2_3_3_0_1 * m0_2_0_0_0_0_0 == m1_2_2_3_3_0_1,
            m1_0_2_3_3_0_1 * m2_0_0_0_0_0_0 == m3_0_2_3_3_0_1,
            m1_0_2_3_3_0_1 * m2_2_0_0_0_0_1 == m3_2_2_3_3_0_2,
    ;
    let row5 = m1_0_3_2_0_1_1 * r;
    assert(row5 == -m1_0_3_2_0_1_1 + m1_2_3_2_0_1_1 - m3_0_3_2_0_1_1 - m3_2_3_2_0_1_2) by (nonlinear_arith)
        requires
            row5 == m1_0_3_2_0_1_1 * r,
            r == -m0_0_0_0_0_0_0 + m0_2_0_0_0_0_0 - m2_0_0_0_0_0_0 - m2_2_0_0_0_0_1,
            m1_0_3_2_0_1_1 * m0_0_0_0_0_0_0 == m1_0_3_2_0_1_1,
            m1_0_3_2_0_1_1 * m0_2_0_0_0_0_0 == m1_2_3_2_0_1_1,
            m1_0_3_2_0_1_1 * m2_0_0_0_0_0_0 == m3_0_3_2_0_1_1,
            m1_0_3_2_0_1_1 * m2_2_0_0_0_0_1 == m3_2_3_2_0_1_2,
    ;
    assert(p * r == -row0 - row1 - row2 - row3 - row4 - row5) by (nonlinear_arith)
        requires
            p == -m0_1_4_1_2_1_1 - m0_1_4_3_2_1_2 - m1_0_1_4_2_1_1 - m1_0_2_3_1_0_1 -
                m1_0_2_3_3_0_1 - m1_0_3_2_0_1_1,
            row0 == m0_1_4_1_2_1_1 * r,
            row1 == m0_1_4_3_2_1_2 * r,
            row2 == m1_0_1_4_2_1_1 * r,
            row3 == m1_0_2_3_1_0_1 * r,
            row4 == m1_0_2_3_3_0_1 * r,
            row5 == m1_0_3_2_0_1_1 * r,
    ;
}

/// A cofactor times the defect of a point.
proof fn lemma_associative_product_101(v: Vars, p: int, r: int)
    requires
        p == mono(v, 1, 0, 3, 2, 0, 3, 1) + mono(v, 1, 0, 3, 4, 2, 1, 2) + mono(v, 1, 0, 4, 1, 1,
            2, 1) + mono(v, 1, 0, 4, 3, 1, 2, 2),
        r == -mono(v, 0, 0, 0, 0, 0, 0, 0) + mono(v, 0, 2, 0, 0, 0, 0, 0) - mono(v, 2, 0, 0, 0,
            0, 0, 0) - mono(v, 2, 2, 0, 0, 0, 0, 1),
    ensures
        p * r == -mono(v, 1, 0, 3, 2, 0, 3, 1) - mono(v, 1, 0, 3, 4, 2, 1, 2) - mono(v, 1, 0, 4, 1,
            1, 2, 1) - mono(v, 1, 0, 4, 3, 1, 2, 2) + mono(v, 1, 2, 3, 2, 0, 3, 1) + mono(v, 1,
            2, 3, 4, 2, 1, 2) + mono(v, 1, 2, 4, 1, 1, 2, 1) + mono(v, 1, 2, 4, 3, 1, 2, 2) -
            mono(v, 3, 0, 3, 2, 0, 3, 1) - mono(v, 3, 0, 3, 4, 2, 1, 2) - mono(v, 3, 0, 4, 1, 1,
            2, 1) - mono(v, 3, 0, 4, 3, 1, 2, 2) - mono(v, 3, 2, 3, 2, 0, 3, 2) - mono(v, 3, 2,
            3, 4, 2, 1, 3) - mono(v, 3, 2, 4, 1, 1, 2, 2) - mono(v, 3, 2, 4, 3, 1, 2, 3),
{
    let m1_0_3_2_0_3_1 = mono(v, 1, 0, 3, 2, 0, 3, 1);
    let m1_0_3_4_2_1_2 = mono(v, 1, 0, 3, 4, 2, 1, 2);
    let m1_0_4_1_1_2_1 = mono(v, 1, 0, 4, 1, 1, 2, 1);
    let m1_0_4_3_1_2_2 = mono(v, 1, 0, 4, 3, 1, 2, 2);
    let m0_0_0_0_0_0_0 = mono(v, 0, 0, 0, 0, 0, 0, 0);
    let m0_2_0_0_0_0_0 = mono(v, 0, 2, 0, 0, 0, 0, 0);
    let m2_0_0_0_0_0_0 = mono(v, 2, 0, 0, 0, 0, 0, 0);
    let m2_2_0_0_0_0_1 = mono(v, 2, 2, 0, 0, 0, 0, 1);
    let m1_2_3_2_0_3_1 = mono(v, 1, 2, 3, 2, 0, 3, 1);
    let m3_0_3_2_0_3_1 = mono(v, 3, 0, 3, 2, 0, 3, 1);
    let m3_2_3_2_0_3_2 = mono(v, 3, 2, 3, 2, 0, 3, 2);
    let m1_2_3_4_2_1_2 = mono(v, 1, 2, 3, 4, 2, 1, 2);
    let m3_0_3_4_2_1_2 = mono(v, 3, 0, 3, 4, 2, 1, 2);
    let m3_2_3_4_2_1_3 = mono(v, 3, 2, 3, 4, 2, 1, 3);
    let m1_2_4_1_1_2_1 = mono(v, 1, 2, 4, 1, 1, 2, 1);
    let m3_0_4_1_1_2_1 = mono(v, 3, 0, 4, 1, 1, 2, 1);
    let m3_2_4_1_1_2_2 = mono(v, 3, 2, 4, 1, 1, 2, 2);
    let m1_2_4_3_1_2_2 = mono(v, 1, 2, 4, 3, 1, 2, 2);
    let m3_0_4_3_1_2_2 = mono(v, 3, 0, 4, 3, 1, 2, 2);
    let m3_2_4_3_1_2_3 = mono(v, 3, 2, 4, 3, 1, 2, 3);
    lemma_mono_mul(v, 1, 0, 3, 2, 0, 3, 1, 0, 0, 0, 0, 0, 0, 0);
    lemma_mono_mul(v, 1, 0, 3, 2, 0, 3, 1, 0, 2, 0, 0, 0, 0, 0);
    lemma_mono_mul(v, 1, 0, 3, 2, 0, 3, 1, 2, 0, 0, 0, 0, 0, 0);
    lemma_mono_mul(v, 1, 0, 3, 2, 0, 3, 1, 2, 2, 0, 0, 0, 0, 1);
    lemma_mono_mul(v, 1, 0, 3, 4, 2, 1, 2, 0, 0, 0, 0, 0, 0, 0);
    lemma_mono_mul(v, 1, 0, 3, 4, 2, 1, 2, 0, 2, 0, 0, 0, 0, 0);
    lemma_mono_mul(v, 1, 0, 3, 4, 2, 1, 2, 2, 0, 0, 0, 0, 0, 0);
    lemma_mono_mul(v, 1, 0, 3, 4, 2, 1, 2, 2, 2, 0, 0, 0, 0, 1);
    lemma_mono_mul(v, 1, 0, 4, 1, 1, 2, 1, 0, 0, 0, 0, 0, 0, 0);
    lemma_mono_mul(v, 1, 0, 4, 1, 1, 2, 1, 0, 2, 0, 0, 0, 0, 0);
    lemma_mono_mul(v, 1, 0, 4, 1, 1, 2, 1, 2, 0, 0, 0, 0, 0, 0);
    lemma_mono_mul(v, 1, 0, 4, 1, 1, 2, 1, 2, 2, 0, 0, 0, 0, 1);
    lemma_mono_mul(v, 1, 0, 4, 3, 1, 2, 2, 0, 0, 0, 0, 0, 0, 0);
    lemma_mono_mul(v, 1, 0, 4, 3, 1, 2, 2, 0, 2, 0, 0, 0, 0, 0);
    lemma_mono_mul(v, 1, 0, 4, 3, 1, 2, 2, 2, 0, 0, 0, 0, 0, 0);
    lemma_mono_mul(v, 1, 0, 4, 3, 1, 2, 2, 2, 2, 0, 0, 0, 0, 1);
    let row0 = m1_0_3_2_0_3_1 * r;
    assert(row0 == -m1_0_3_2_0_3_1 + m1_2_3_2_0_3_1 - m3_0_3_2_0_3_1 - m3_2_3_2_0_3_2) by (nonlinear_arith)
        requires
            row0 == m1_0_3_2_0_3_1 * r,
            r == -m0_0_0_0_0_0_0 + m0_2_0_0_0_0_0 - m2_0_0_0_0_0_0 - m2_2_0_0_0_0_1,
            m1_0_3_2_0_3_1 * m0_0_0_0_0_0_0 == m1_0_3_2_0_3_1,
            m1_0_3_2_0_3_1 * m0_2_0_0_0_0_0 == m1_2_3_2_0_3_1,
            m1_0_3_2_0_3_1 * m2_0_0_0_0_0_0 == m3_0_3_2_0_3_1,
            m1_0_3_2_0_3_1 * m2_2_0_0_0_0_1 == m3_2_3_2_0_3_2,
    ;
    let row1 = m1_0_3_4_2_1_2 * r;
    assert(row1 == -m1_0_3_4_2_1_2 + m1_2_3_4_2_1_2 - m3_0_3_4_2_1_2 - m3_2_3_4_2_1_3) by (nonlinear_arith)
        requires
            row1 == m1_0_3_4_2_1_2 * r,
            r == -m0_0_0_0_0_0_0 + m0_2_0_0_0_0_0 - m2_0_0_0_0_0_0 - m2_2_0_0_0_0_1,
            m1_0_3_4_2_1_2 * m0_0_0_0_0_0_0 == m1_0_3_4_2_1_2,
            m1_0_3_4_2_1_2 * m0_2_0_0_0_0_0 == m1_2_3_4_2_1_2,
            m1_0_3_4_2_1_2 * m2_0_0_0_0_0_0 == m3_0_3_4_2_1_2,
            m1_0_3_4_2_1_2 * m2_2_0_0_0_0_1 == m3_2_3_4_2_1_3,
    ;
    let row2 = m1_0_4_1_1_2_1 * r;
    assert(row2 == -m1_0_4_1_1_2_1 + m1_2_4_1_1_2_1 - m3_0_4_1_1_2_1 - m3_2_4_1_1_2_2) by (nonlinear_arith)
        requires
            row2 == m1_0_4_1_1_2_1 * r,
            r == -m0_0_0_0_0_0_0 + m0_2_0_0_0_0_0 - m2_0_0_0_0_0_0 - m2_2_0_0_0_0_1,
            m1_0_4_1_1_2_1 * m0_0_0_0_0_0_0 == m1_0_4_1_1_2_1,
            m1_0_4_1_1_2_1 * m0_2_0_0_0_0_0 == m1_2_4_1_1_2_1,
            m1_0_4_1_1_2_1 * m2_0_0_0_0_0_0 == m3_0_4_1_1_2_1,
            m1_0_4_1_1_2_1 * m2_2_0_0_0_0_1 == m3_2_4_1_1_2_2,
    ;
    let row3 = m1_0_4_3_1_2_2 * r;
    assert(row3 == -m1_0_4_3_1_2_2 + m1_2_4_3_1_2_2 - m3_0_4_3_1_2_2 - m3_2_4_3_1_2_3) by (nonlinear_arith)
        requires
            row3 == m1_0_4_3_1_2_2 * r,
            r == -m0_0_0_0_0_0_0 + m0_2_0_0_0_0_0 - m2_0_0_0_0_0_0 - m2_2_0_0_0_0_1,
            m1_0_4_3_1_2_2 * m0_0_0_0_0_0_0 == m1_0_4_3_1_2_2,
            m1_0_4_3_1_2_2 * m0_2_0_0_0_0_0 == m1_2_4_3_1_2_2,
            m1_0_4_3_1_2_2 * m2_0_0_0_0_0_0 == m3_0_4_3_1_2_2,
            m1_0_4_3_1_2_2 * m2_2_0_0_0_0_1 == m3_2_4_3_1_2_3,
    ;
    assert(p * r == row0 + row1 + row2 + row3) by (nonlinear_arith)
        requires
            p == m1_0_3_2_0_3_1 + m1_0_3_4_2_1_2 + m1_0_4_1_1_2_1 + m1_0_4_3_1_2_2,
            row0 == m1_0_3_2_0_3_1 * r,
            row1 == m1_0_3_4_2_1_2 * r,
            row2 == m1_0_4_1_1_2_1 * r,
            row3 == m1_0_4_3_1_2_2 * r,
    ;
}

/// A cofactor times the defect of a point.
proof fn lemma_associative_product_102(v: Vars, p: int, r: int)
    requires
        p == mono(v, 0, 1, 1, 4, 1, 2, 1) - mono(v, 0, 1, 2, 3, 0, 1, 1) + mono(v, 0, 1, 2, 3, 0,
            3, 1) - mono(v, 0, 1, 3, 2, 1, 0, 1) - mono(v, 0, 1, 3, 2, 3, 0, 1) - mono(v, 0, 1,
            3, 4, 1, 2, 2) - mono(v, 0, 1, 4, 1, 2, 1, 1) - mono(v, 0, 1, 4, 3, 2, 1, 2) -
            mono(v, 1, 0, 1, 4, 2, 1, 1) - mono(v, 1, 0, 2, 3, 1, 0, 1) - mono(v, 1, 0, 2, 3, 3,
            0, 1) - mono(v, 1, 0, 3, 2, 0, 1, 1) + mono(v, 1, 0, 3, 2, 0, 3, 1) + mono(v, 1, 0,
            3, 4, 2, 1, 2) + mono(v, 1, 0, 4, 1, 1, 2, 1) + mono(v, 1, 0, 4, 3, 1, 2, 2),
        r == -mono(v, 0, 0, 0, 0, 0, 0, 0) + mono(v, 0, 2, 0, 0, 0, 0, 0) - mono(v, 2, 0, 0, 0,
            0, 0, 0) - mono(v, 2, 2, 0, 0, 0, 0, 1),
    ensures
        p * r == -mono(v, 0, 1, 1, 4, 1, 2, 1) + mono(v, 0, 1, 2, 3, 0, 1, 1) - mono(v, 0, 1, 2, 3,
            0, 3, 1) + mono(v, 0, 1, 3, 2, 1, 0, 1) + mono(v, 0, 1, 3, 2, 3, 0, 1) + mono(v, 0,
            1, 3, 4, 1, 2, 2) + mono(v, 0, 1, 4, 1, 2, 1, 1) + mono(v, 0, 1, 4, 3, 2, 1, 2) +
            mono(v, 0, 3, 1, 4, 1, 2, 1) - mono(v, 0, 3, 2, 3, 0, 1, 1) + mono(v, 0, 3, 2, 3, 0,
            3, 1) - mono(v, 0, 3, 3, 2, 1, 0, 1) - mono(v, 0, 3, 3, 2, 3, 0, 1) - mono(v, 0, 3,
            3, 4, 1, 2, 2) - mono(v, 0, 3, 4, 1, 2, 1, 1) - mono(v, 0, 3, 4, 3, 2, 1, 2) +
            mono(v, 1, 0, 1, 4, 2, 1, 1) + mono(v, 1, 0, 2, 3, 1, 0, 1) + mono(v, 1, 0, 2, 3, 3,
            0, 1) + mono(v, 1, 0, 3, 2, 0, 1, 1) - mono(v, 1, 0, 3, 2, 0, 3, 1) - mono(v, 1, 0,
            3, 4, 2, 1, 2) - mono(v, 1, 0, 4, 1, 1, 2, 1) - mono(v, 1, 0, 4, 3, 1, 2, 2) -
            mono(v, 1, 2, 1, 4, 2, 1, 1) - mono(v, 1, 2, 2, 3, 1, 0, 1) - mono(v, 1, 2, 2, 3, 3,
            0, 1) - mono(v, 1, 2, 3, 2, 0, 1, 1) + mono(v, 1, 2, 3, 2, 0, 3, 1) + mono(v, 1, 2,
            3, 4, 2, 1, 2) + mono(v, 1, 2, 4, 1, 1, 2, 1) + mono(v, 1, 2, 4, 3, 1, 2, 2) -
            mono(v, 2, 1, 1, 4, 1, 2, 1) + mono(v, 2, 1, 2, 3, 0, 1, 1) - mono(v, 2, 1, 2, 3, 0,
            3, 1) + mono(v, 2, 1, 3, 2, 1, 0, 1) + mono(v, 2, 1, 3, 2, 3, 0, 1) + mono(v, 2, 1,
            3, 4, 1, 2, 2) + mono(v, 2, 1, 4, 1, 2, 1, 1) + mono(v, 2, 1, 4, 3, 2, 1, 2) -
            mono(v, 2, 3, 1, 4, 1, 2, 2) + mono(v, 2, 3, 2, 3, 0, 1, 2) - mono(v, 2, 3, 2, 3, 0,
            3, 2) + mono(v, 2, 3, 3, 2, 1, 0, 2) + mono(v, 2, 3, 3, 2, 3, 0, 2) + mono(v, 2, 3,
            3, 4, 1, 2, 3) + mono(v, 2, 3, 4, 1, 2, 1, 2) + mono(v, 2, 3, 4, 3, 2, 1, 3) +
            mono(v, 3, 0, 1, 4, 2, 1, 1) + mono(v, 3, 0, 2, 3, 1, 0, 1) + mono(v, 3, 0, 2, 3, 3,
            0, 1) + mono(v, 3, 0, 3, 2, 0, 1, 1) - mono(v, 3, 0, 3, 2, 0, 3, 1) - mono(v, 3, 0,
            3, 4, 2, 1, 2) - mono(v, 3, 0, 4, 1, 1, 2, 1) - mono(v, 3, 0, 4, 3, 1, 2, 2) +
            mono(v, 3, 2, 1, 4, 2, 1, 2) + mono(v, 3, 2, 2, 3, 1, 0, 2) + mono(v, 3, 2, 2, 3, 3,
            0, 2) + mono(v, 3, 2, 3, 2, 0, 1, 2) - mono(v, 3, 2, 3, 2, 0, 3, 2) - mono(v, 3, 2,
            3, 4, 2, 1, 3) - mono(v, 3, 2, 4, 1, 1, 2, 2) - mono(v, 3, 2, 4, 3, 1, 2, 3),
{
    let p0 = mono(v, 0, 1, 1, 4, 1, 2, 1) - mono(v, 0, 1, 2, 3, 0, 1, 1) + mono(v, 0, 1, 2, 3, 0, 3,
        1) - mono(v, 0, 1, 3, 2, 1, 0, 1) - mono(v, 0, 1, 3, 2, 3, 0, 1) - mono(v, 0, 1, 3, 4,
        1, 2, 2);
    lemma_associative_product_99(v, p0, r);
    let t0 = p0 * r;
    let p1 = -mono(v, 0, 1, 4, 1, 2, 1, 1) - mono(v, 0, 1, 4, 3, 2, 1, 2) - mono(v, 1, 0, 1, 4, 2, 1,
        1) - mono(v, 1, 0, 2, 3, 1, 0, 1) - mono(v, 1, 0, 2, 3, 3, 0, 1) - mono(v, 1, 0, 3, 2,
        0, 1, 1);
    lemma_associative_product_100(v, p1, r);
    let t1 = p1 * r;
    let p2 = mono(v, 1, 0, 3, 2, 0, 3, 1) + mono(v, 1, 0, 3, 4, 2, 1, 2) + mono(v, 1, 0, 4, 1, 1, 2,
        1) + mono(v, 1, 0, 4, 3, 1, 2, 2);
    lemma_associative_product_101(v, p2, r);
    let t2 = p2 * r;
    assert(p * r == t0 + t1 + t2) by (nonlinear_arith)
        requires
            p == p0 + p1 + p2,
            t0 == p0 * r,
            t1 == p1 * r,
            t2 == p2 * r,
    ;
}

/// A cofactor times the defect of a point.
proof fn lemma_associative_product_103(v: Vars, p: int, r: int)
    requires
        p == mono(v, 0, 1, 0, 1, 0, 1, 0) - mono(v, 0, 1, 0, 1, 0, 3, 0) + mono(v, 0, 1, 0, 1, 2,
            1, 0) + mono(v, 0, 1, 0, 1, 2, 3, 1) + mono(v, 0, 1, 1, 0, 1, 0, 0) - mono(v, 0, 1,
            1, 0, 1, 2, 0),
        r == -mono(v, 0, 0, 0, 0, 0, 0, 0) + mono(v, 0, 0, 0, 2, 0, 0, 0) - mono(v, 0, 0, 2, 0,
            0, 0, 0) - mono(v, 0, 0, 2, 2, 0, 0, 1),
    ensures
        p * r == -mono(v, 0, 1, 0, 1, 0, 1, 0) + mono(v, 0, 1, 0, 1, 0, 3, 0) - mono(v, 0, 1, 0, 1,
            2, 1, 0) - mono(v, 0, 1, 0, 1, 2, 3, 1) + mono(v, 0, 1, 0, 3, 0, 1, 0) - mono(v, 0,
            1, 0, 3, 0, 3, 0) + mono(v, 0, 1, 0, 3, 2, 1, 0) + mono(v, 0, 1, 0, 3, 2, 3, 1) -
            mono(v, 0, 1, 1, 0, 1, 0, 0) + mono(v, 0, 1, 1, 0, 1, 2, 0) + mono(v, 0, 1, 1, 2, 1,
            0, 0) - mono(v, 0, 1, 1, 2, 1, 2, 0) - mono(v, 0, 1, 2, 1, 0, 1, 0) + mono(v, 0, 1,
            2, 1, 0, 3, 0) - mono(v, 0, 1, 2, 1, 2, 1, 0) - mono(v, 0, 1, 2, 1, 2, 3, 1) -
            mono(v, 0, 1, 2, 3, 0, 1, 1) + mono(v, 0, 1, 2, 3, 0, 3, 1) - mono(v, 0, 1, 2, 3, 2,
            1, 1) - mono(v, 0, 1, 2, 3, 2, 3, 2) - mono(v, 0, 1, 3, 0, 1, 0, 0) + mono(v, 0, 1,
            3, 0, 1, 2, 0) - mono(v, 0, 1, 3, 2, 1, 0, 1) + mono(v, 0, 1, 3, 2, 1, 2, 1),
{
    let m0_1_0_1_0_1_0 = mono(v, 0, 1, 0, 1, 0, 1, 0);
    let m0_1_0_1_0_3_0 = mono(v, 0, 1, 0, 1, 0, 3, 0);
    let m0_1_0_1_2_1_0 = mono(v, 0, 1, 0, 1, 2, 1, 0);
    let m0_1_0_1_2_3_1 = mono(v, 0, 1, 0, 1, 2, 3, 1);
    let m0_1_1_0_1_0_0 = mono(v, 0, 1, 1, 0, 1, 0, 0);
    let m0_1_1_0_1_2_0 = mono(v, 0, 1, 1, 0, 1, 2, 0);
    let m0_0_0_0_0_0_0 = mono(v, 0, 0, 0, 0, 0, 0, 0);
    let m0_0_0_2_0_0_0 = mono(v, 0, 0, 0, 2, 0, 0, 0);
    let m0_0_2_0_0_0_0 = mono(v, 0, 0, 2, 0, 0, 0, 0);
    let m0_0_2_2_0_0_1 = mono(v, 0, 0, 2, 2, 0, 0, 1);
    let m0_1_0_3_0_1_0 = mono(v, 0, 1, 0, 3, 0, 1, 0);
    let m0_1_2_1_0_1_0 = mono(v, 0, 1, 2, 1, 0, 1, 0);
    let m0_1_2_3_0_1_1 = mono(v, 0, 1, 2, 3, 0, 1, 1);
    let m0_1_0_3_0_3_0 = mono(v, 0, 1, 0, 3, 0, 3, 0);
    let m0_1_2_1_0_3_0 = mono(v, 0, 1, 2, 1, 0, 3, 0);
    let m0_1_2_3_0_3_1 = mono(v, 0, 1, 2, 3, 0, 3, 1);
    let m0_1_0_3_2_1_0 = mono(v, 0, 1, 0, 3, 2, 1, 0);
    let m0_1_2_1_2_1_0 = mono(v, 0, 1, 2, 1, 2, 1, 0);
    let m0_1_2_3_2_1_1 = mono(v, 0, 1, 2, 3, 2, 1, 1);
    let m0_1_0_3_2_3_1 = mono(v, 0, 1, 0, 3, 2, 3, 1);
    let m0_1_2_1_2_3_1 = mono(v, 0, 1, 2, 1, 2, 3, 1);
    let m0_1_2_3_2_3_2 = mono(v, 0, 1, 2, 3, 2, 3, 2);
    let m0_1_1_2_1_0_0 = mono(v, 0, 1, 1, 2, 1, 0, 0);
    let m0_1_3_0_1_0_0 = mono(v, 0, 1, 3, 0, 1, 0, 0);
    let m0_1_3_2_1_0_1 = mono(v, 0, 1, 3, 2, 1, 0, 1);
    let m0_1_1_2_1_2_0 = mono(v, 0, 1, 1, 2, 1, 2, 0);
    let m0_1_3_0_1_2_0 = mono(v, 0, 1, 3, 0, 1, 2, 0);
    let m0_1_3_2_1_2_1 = mono(v, 0, 1, 3, 2, 1, 2, 1);
    lemma_mono_mul(v, 0, 1, 0, 1, 0, 1, 0, 0, 0, 0, 0, 0, 0, 0);
    lemma_mono_mul(v, 0, 1, 0, 1, 0, 1, 0, 0, 0, 0, 2, 0, 0, 0);
    lemma_mono_mul(v, 0, 1, 0, 1, 0, 1, 0, 0, 0, 2, 0, 0, 0, 0);
    lemma_mono_mul(v, 0, 1, 0, 1, 0, 1, 0, 0, 0, 2, 2, 0, 0, 1);
    lemma_mono_mul(v, 0, 1, 0, 1, 0, 3, 0, 0, 0, 0, 0, 0, 0, 0);
    lemma_mono_mul(v, 0, 1, 0, 1, 0, 3, 0, 0, 0, 0, 2, 0, 0, 0);
    lemma_mono_mul(v, 0, 1, 0, 1, 0, 3, 0, 0, 0, 2, 0, 0, 0, 0);
    lemma_mono_mul(v, 0, 1, 0, 1, 0, 3, 0, 0, 0, 2, 2, 0, 0, 1);
    lemma_mono_mul(v, 0, 1, 0, 1, 2, 1, 0, 0, 0, 0, 0, 0, 0, 0);
    lemma_mono_mul(v, 0, 1, 0, 1, 2, 1, 0, 0, 0, 0, 2, 0, 0, 0);
    lemma_mono_mul(v, 0, 1, 0, 1, 2, 1, 0, 0, 0, 2, 0, 0, 0, 0);
    lemma_mono_mul(v, 0, 1, 0, 1, 2, 1, 0, 0, 0, 2, 2, 0, 0, 1);
    lemma_mono_mul(v, 0, 1, 0, 1, 2, 3, 1, 0, 0, 0, 0, 0, 0, 0);
    lemma_mono_mul(v, 0, 1, 0, 1, 2, 3, 1, 0, 0, 0, 2, 0, 0, 0);
    lemma_mono_mul(v, 0, 1, 0, 1, 2, 3, 1, 0, 0, 2, 0, 0, 0, 0);
    lemma_mono_mul(v, 0, 1, 0, 1, 2, 3, 1, 0, 0, 2, 2, 0, 0, 1);
    lemma_mono_mul(v, 0, 1, 1, 0, 1, 0, 0, 0, 0, 0, 0, 0, 0, 0);
    lemma_mono_mul(v, 0, 1, 1, 0, 1, 0, 0, 0, 0, 0, 2, 0, 0, 0);
    lemma_mono_mul(v, 0, 1, 1, 0, 1, 0, 0, 0, 0, 2, 0, 0, 0, 0);
    lemma_mono_mul(v, 0, 1, 1, 0, 1, 0, 0, 0, 0, 2, 2, 0, 0, 1);
    lemma_mono_mul(v, 0, 1, 1, 0, 1, 2, 0, 0, 0, 0, 0, 0, 0, 0);
    lemma_mono_mul(v, 0, 1, 1, 0, 1, 2, 0, 0, 0, 0, 2, 0, 0, 0);
    lemma_mono_mul(v, 0, 1, 1, 0, 1, 2, 0, 0, 0, 2, 0, 0, 0, 0);
    lemma_mono_mul(v, 0, 1, 1, 0, 1, 2, 0, 0, 0, 2, 2, 0, 0, 1);
    let row0 = m0_1_0_1_0_1_0 * r;
    assert(row0 == -m0_1_0_1_0_1_0 + m0_1_0_3_0_1_0 - m0_1_2_1_0_1_0 - m0_1_2_3_0_1_1) by (nonlinear_arith)
        requires
            row0 == m0_1_0_1_0_1_0 * r,
            r == -m0_0_0_0_0_0_0 + m0_0_0_2_0_0_0 - m0_0_2_0_0_0_0 - m0_0_2_2_0_0_1,
            m0_1_0_1_0_1_0 * m0_0_0_0_0_0_0 == m0_1_0_1_0_1_0,
            m0_1_0_1_0_1_0 * m0_0_0_2_0_0_0 == m0_1_0_3_0_1_0,
            m0_1_0_1_0_1_0 * m0_0_2_0_0_0_0 == m0_1_2_1_0_1_0,
            m0_1_0_1_0_1_0 * m0_0_2_2_0_0_1 == m0_1_2_3_0_1_1,
    ;
    let row1 = m0_1_0_1_0_3_0 * r;
    assert(row1 == -m0_1_0_1_0_3_0 + m0_1_0_3_0_3_0 - m0_1_2_1_0_3_0 - m0_1_2_3_0_3_1) by (nonlinear_arith)
        requires
            row1 == m0_1_0_1_0_3_0 * r,
            r == -m0_0_0_0_0_0_0 + m0_0_0_2_0_0_0 - m0_0_2_0_0_0_0 - m0_0_2_2_0_0_1,
            m0_1_0_1_0_3_0 * m0_0_0_0_0_0_0 == m0_1_0_1_0_3_0,
            m0_1_0_1_0_3_0 * m0_0_0_2_0_0_0 == m0_1_0_3_0_3_0,
            m0_1_0_1_0_3_0 * m0_0_2_0_0_0_0 == m0_1_2_1_0_3_0,
            m0_1_0_1_0_3_0 * m0_0_2_2_0_0_1 == m0_1_2_3_0_3_1,
    ;
    let row2 = m0_1_0_1_2_1_0 * r;
    assert(row2 == -m0_1_0_1_2_1_0 + m0_1_0_3_2_1_0 - m0_1_2_1_2_1_0 - m0_1_2_3_2_1_1) by (nonlinear_arith)
        requires
            row2 == m0_1_0_1_2_1_0 * r,
            r == -m0_0_0_0_0_0_0 + m0_0_0_2_0_0_0 - m0_0_2_0_0_0_0 - m0_0_2_2_0_0_1,
            m0_1_0_1_2_1_0 * m0_0_0_0_0_0_0 == m0_1_0_1_2_1_0,
            m0_1_0_1_2_1_0 * m0_0_0_2_0_0_0 == m0_1_0_3_2_1_0,
            m0_1_0_1_2_1_0 * m0_0_2_0_0_0_0 == m0_1_2_1_2_1_0,
            m0_1_0_1_2_1_0 * m0_0_2_2_0_0_1 == m0_1_2_3_2_1_1,
    ;
    let row3 = m0_1_0_1_2_3_1 * r;
    assert(row3 == -m0_1_0_1_2_3_1 + m0_1_0_3_2_3_1 - m0_1_2_1_2_3_1 - m0_1_2_3_2_3_2) by (nonlinear_arith)
        requires
            row3 == m0_1_0_1_2_3_1 * r,
            r == -m0_0_0_0_0_0_0 + m0_0_0_2_0_0_0 - m0_0_2_0_0_0_0 - m0_0_2_2_0_0_1,
            m0_1_0_1_2_3_1 * m0_0_0_0_0_0_0 == m0_1_0_1_2_3_1,
            m0_1_0_1_2_3_1 * m0_0_0_2_0_0_0 == m0_1_0_3_2_3_1,
            m0_1_0_1_2_3_1 * m0_0_2_0_0_0_0 == m0_1_2_1_2_3_1,
            m0_1_0_1_2_3_1 * m0_0_2_2_0_0_1 == m0_1_2_3_2_3_2,
    ;
    let row4 = m0_1_1_0_1_0_0 * r;
    assert(row4 == -m0_1_1_0_1_0_0 + m0_1_1_2_1_0_0 - m0_1_3_0_1_0_0 - m0_1_3_2_1_0_1) by (nonlinear_arith)
        requires
            row4 == m0_1_1_0_1_0_0 * r,
            r == -m0_0_0_0_0_0_0 + m0_0_0_2_0_0_0 - m0_0_2_0_0_0_0 - m0_0_2_2_0_0_1,
            m0_1_1_0_1_0_0 * m0_0_0_0_0_0_0 == m0_1_1_0_1_0_0,
            m0_1_1_0_1_0_0 * m0_0_0_2_0_0_0 == m0_1_1_2_1_0_0,
            m0_1_1_0_1_0_0 * m0_0_2_0_0_0_0 == m0_1_3_0_1_0_0,
            m0_1_1_0_1_0_0 * m0_0_2_2_0_0_1 == m0_1_3_2_1_0_1,
    ;
    let row5 = m0_1_1_0_1_2_0 * r;
    assert(row5 == -m0_1_1_0_1_2_0 + m0_1_1_2_1_2_0 - m0_1_3_0_1_2_0 - m0_1_3_2_1_2_1) by (nonlinear_arith)
        requires
            row5 == m0_1_1_0_1_2_0 * r,
            r == -m0_0_0_0_0_0_0 + m0_0_0_2_0_0_0 - m0_0_2_0_0_0_0 - m0_0_2_2_0_0_1,
            m0_1_1_0_1_2_0 * m0_0_0_0_0_0_0 == m0_1_1_0_1_2_0,
            m0_1_1_0_1_2_0 * m0_0_0_2_0_0_0 == m0_1_1_2_1_2_0,
            m0_1_1_0_1_2_0 * m0_0_2_0_0_0_0 == m0_1_3_0_1_2_0,
            m0_1_1_0_1_2_0 * m0_0_2_2_0_0_1 == m0_1_3_2_1_2_1,
    ;
    assert(p * r == row0 - row1 + row2 + row3 + row4 - row5) by (nonlinear_arith)
        requires
            p == m0_1_0_1_0_1_0 - m0_1_0_1_0_3_0 + m0_1_0_1_2_1_0 + m0_1_0_1_2_3_1 +
                m0_1_1_0_1_0_0 - m0_1_1_0_1_2_0,
            row0 == m0_1_0_1_0_1_0 * r,
            row1 == m0_1_0_1_0_3_0 * r,
            row2 == m0_1_0_1_2_1_0 * r,
            row3 == m0_1_0_1_2_3_1 * r,
            row4 == m0_1_1_0_1_0_0 * r,
            row5 == m0_1_1_0_1_2_0 * r,
    ;
}

/// A cofactor times the defect of a point.
proof fn lemma_associative_product_104(v: Vars, p: int, r: int)
    requires
        p == mono(v, 0, 1, 1, 0, 3, 0, 0) + mono(v, 0, 1, 1, 0, 3, 2, 1) + mono(v, 0, 1, 1, 2, 1,
            2, 1) + mono(v, 0, 1, 2, 1, 2, 1, 1) - mono(v, 0, 3, 0, 1, 0, 1, 0) + mono(v, 0, 3,
            0, 1, 0, 3, 0),
        r == -mono(v, 0, 0, 0, 0, 0, 0, 0) + mono(v, 0, 0, 0, 2, 0, 0, 0) - mono(v, 0, 0, 2, 0,
            0, 0, 0) - mono(v, 0, 0, 2, 2, 0, 0, 1),
    ensures
        p * r == -mono(v, 0, 1, 1, 0, 3, 0, 0) - mono(v, 0, 1, 1, 0, 3, 2, 1) - mono(v, 0, 1, 1, 2,
            1, 2, 1) + mono(v, 0, 1, 1, 2, 3, 0, 0) + mono(v, 0, 1, 1, 2, 3, 2, 1) + mono(v, 0,
            1, 1, 4, 1, 2, 1) - mono(v, 0, 1, 2, 1, 2, 1, 1) + mono(v, 0, 1, 2, 3, 2, 1, 1) -
            mono(v, 0, 1, 3, 0, 3, 0, 0) - mono(v, 0, 1, 3, 0, 3, 2, 1) - mono(v, 0, 1, 3, 2, 1,
            2, 1) - mono(v, 0, 1, 3, 2, 3, 0, 1) - mono(v, 0, 1, 3, 2, 3, 2, 2) - mono(v, 0, 1,
            3, 4, 1, 2, 2) - mono(v, 0, 1, 4, 1, 2, 1, 1) - mono(v, 0, 1, 4, 3, 2, 1, 2) +
            mono(v, 0, 3, 0, 1, 0, 1, 0) - mono(v, 0, 3, 0, 1, 0, 3, 0) - mono(v, 0, 3, 0, 3, 0,
            1, 0) + mono(v, 0, 3, 0, 3, 0, 3, 0) + mono(v, 0, 3, 2, 1, 0, 1, 0) - mono(v, 0, 3,
            2, 1, 0, 3, 0) + mono(v, 0, 3, 2, 3, 0, 1, 1) - mono(v, 0, 3, 2, 3, 0, 3, 1),
{
    let m0_1_1_0_3_0_0 = mono(v, 0, 1, 1, 0, 3, 0, 0);
    let m0_1_1_0_3_2_1 = mono(v, 0, 1, 1, 0, 3, 2, 1);
    let m0_1_1_2_1_2_1 = mono(v, 0, 1, 1, 2, 1, 2, 1);
    let m0_1_2_1_2_1_1 = mono(v, 0, 1, 2, 1, 2, 1, 1);
    let m0_3_0_1_0_1_0 = mono(v, 0, 3, 0, 1, 0, 1, 0);
    let m0_3_0_1_0_3_0 = mono(v, 0, 3, 0, 1, 0, 3, 0);
    let m0_0_0_0_0_0_0 = mono(v, 0, 0, 0, 0, 0, 0, 0);
    let m0_0_0_2_0_0_0 = mono(v, 0, 0, 0, 2, 0, 0, 0);
    let m0_0_2_0_0_0_0 = mono(v, 0, 0, 2, 0, 0, 0, 0);
    let m0_0_2_2_0_0_1 = mono(v, 0, 0, 2, 2, 0, 0, 1);
    let m0_1_1_2_3_0_0 = mono(v, 0, 1, 1, 2, 3, 0, 0);
    let m0_1_3_0_3_0_0 = mono(v, 0, 1, 3, 0, 3, 0, 0);
    let m0_1_3_2_3_0_1 = mono(v, 0, 1, 3, 2, 3, 0, 1);
    let m0_1_1_2_3_2_1 = mono(v, 0, 1, 1, 2, 3, 2, 1);
    let m0_1_3_0_3_2_1 = mono(v, 0, 1, 3, 0, 3, 2, 1);
    let m0_1_3_2_3_2_2 = mono(v, 0, 1, 3, 2, 3, 2, 2);
    let m0_1_1_4_1_2_1 = mono(v, 0, 1, 1, 4, 1, 2, 1);
    let m0_1_3_2_1_2_1 = mono(v, 0, 1, 3, 2, 1, 2, 1);
    let m0_1_3_4_1_2_2 = mono(v, 0, 1, 3, 4, 1, 2, 2);
    let m0_1_2_3_2_1_1 = mono(v, 0, 1, 2, 3, 2, 1, 1);
    let m0_1_4_1_2_1_1 = mono(v, 0, 1, 4, 1, 2, 1, 1);
    let m0_1_4_3_2_1_2 = mono(v, 0, 1, 4, 3, 2, 1, 2);
    let m0_3_0_3_0_1_0 = mono(v, 0, 3, 0, 3, 0, 1, 0);
    let m0_3_2_1_0_1_0 = mono(v, 0, 3, 2, 1, 0, 1, 0);
    let m0_3_2_3_0_1_1 = mono(v, 0, 3, 2, 3, 0, 1, 1);
    let m0_3_0_3_0_3_0 = mono(v, 0, 3, 0, 3, 0, 3, 0);
    let m0_3_2_1_0_3_0 = mono(v, 0, 3, 2, 1, 0, 3, 0);
    let m0_3_2_3_0_3_1 = mono(v, 0, 3, 2, 3, 0, 3, 1);
    lemma_mono_mul(v, 0, 1, 1, 0, 3, 0, 0, 0, 0, 0, 0, 0, 0, 0);
    lemma_mono_mul(v, 0, 1, 1, 0, 3, 0, 0, 0, 0, 0, 2, 0, 0, 0);
    lemma_mono_mul(v, 0, 1, 1, 0, 3, 0, 0, 0, 0, 2, 0, 0, 0, 0);
    lemma_mono_mul(v, 0, 1, 1, 0, 3, 0, 0, 0, 0, 2, 2, 0, 0, 1);
    lemma_mono_mul(v, 0, 1, 1, 0, 3, 2, 1, 0, 0, 0, 0, 0, 0, 0);
    lemma_mono_mul(v, 0, 1, 1, 0, 3, 2, 1, 0, 0, 0, 2, 0, 0, 0);
    lemma_mono_mul(v, 0, 1, 1, 0, 3, 2, 1, 0, 0, 2, 0, 0, 0, 0);
    lemma_mono_mul(v, 0, 1, 1, 0, 3, 2, 1, 0, 0, 2, 2, 0, 0, 1);
    lemma_mono_mul(v, 0, 1, 1, 2, 1, 2, 1, 0, 0, 0, 0, 0, 0, 0);
    lemma_mono_mul(v, 0, 1, 1, 2, 1, 2, 1, 0, 0, 0, 2, 0, 0, 0);
    lemma_mono_mul(v, 0, 1, 1, 2, 1, 2, 1, 0, 0, 2, 0, 0, 0, 0);
    lemma_mono_mul(v, 0, 1, 1, 2, 1, 2, 1, 0, 0, 2, 2, 0, 0, 1);
    lemma_mono_mul(v, 0, 1, 2, 1, 2, 1, 1, 0, 0, 0, 0, 0, 0, 0);
    lemma_mono_mul(v, 0, 1, 2, 1, 2, 1, 1, 0, 0, 0, 2, 0, 0, 0);
    lemma_mono_mul(v, 0, 1, 2, 1, 2, 1, 1, 0, 0, 2, 0, 0, 0, 0);
    lemma_mono_mul(v, 0, 1, 2, 1, 2, 1, 1, 0, 0, 2, 2, 0, 0, 1);
    lemma_mono_mul(v, 0, 3, 0, 1, 0, 1, 0, 0, 0, 0, 0, 0, 0, 0);
    lemma_mono_mul(v, 0, 3, 0, 1, 0, 1, 0, 0, 0, 0, 2, 0, 0, 0);
    lemma_mono_mul(v, 0, 3, 0, 1, 0, 1, 0, 0, 0, 2, 0, 0, 0, 0);
    lemma_mono_mul(v, 0, 3, 0, 1, 0, 1, 0, 0, 0, 2, 2, 0, 0, 1);
    lemma_mono_mul(v, 0, 3, 0, 1, 0, 3, 0, 0, 0, 0, 0, 0, 0, 0);
    lemma_mono_mul(v, 0, 3, 0, 1, 0, 3, 0, 0, 0, 0, 2, 0, 0, 0);
    lemma_mono_mul(v, 0, 3, 0, 1, 0, 3, 0, 0, 0, 2, 0, 0, 0, 0);
    lemma_mono_mul(v, 0, 3, 0, 1, 0, 3, 0, 0, 0, 2, 2, 0, 0, 1);
    let row0 = m0_1_1_0_3_0_0 * r;
    assert(row0 == -m0_1_1_0_3_0_0 + m0_1_1_2_3_0_0 - m0_1_3_0_3_0_0 - m0_1_3_2_3_0_1) by (nonlinear_arith)
        requires
            row0 == m0_1_1_0_3_0_0 * r,
            r == -m0_0_0_0_0_0_0 + m0_0_0_2_0_0_0 - m0_0_2_0_0_0_0 - m0_0_2_2_0_0_1,
            m0_1_1_0_3_0_0 * m0_0_0_0_0_0_0 == m0_1_1_0_3_0_0,
            m0_1_1_0_3_0_0 * m0_0_0_2_0_0_0 == m0_1_1_2_3_0_0,
            m0_1_1_0_3_0_0 * m0_0_2_0_0_0_0 == m0_1_3_0_3_0_0,
            m0_1_1_0_3_0_0 * m0_0_2_2_0_0_1 == m0_1_3_2_3_0_1,
    ;
    let row1 = m0_1_1_0_3_2_1 * r;
    assert(row1 == -m0_1_1_0_3_2_1 + m0_1_1_2_3_2_1 - m0_1_3_0_3_2_1 - m0_1_3_2_3_2_2) by (nonlinear_arith)
        requires
            row1 == m0_1_1_0_3_2_1 * r,
            r == -m0_0_0_0_0_0_0 + m0_0_0_2_0_0_0 - m0_0_2_0_0_0_0 - m0_0_2_2_0_0_1,
            m0_1_1_0_3_2_1 * m0_0_0_0_0_0_0 == m0_1_1_0_3_2_1,
            m0_1_1_0_3_2_1 * m0_0_0_2_0_0_0 == m0_1_1_2_3_2_1,
            m0_1_1_0_3_2_1 * m0_0_2_0_0_0_0 == m0_1_3_0_3_2_1,
            m0_1_1_0_3_2_1 * m0_0_2_2_0_0_1 == m0_1_3_2_3_2_2,
    ;
    let row2 = m0_1_1_2_1_2_1 * r;
    assert(row2 == -m0_1_1_2_1_2_1 + m0_1_1_4_1_2_1 - m0_1_3_2_1_2_1 - m0_1_3_4_1_2_2) by (nonlinear_arith)
        requires
            row2 == m0_1_1_2_1_2_1 * r,
            r == -m0_0_0_0_0_0_0 + m0_0_0_2_0_0_0 - m0_0_2_0_0_0_0 - m0_0_2_2_0_0_1,
            m0_1_1_2_1_2_1 * m0_0_0_0_0_0_0 == m0_1_1_2_1_2_1,
            m0_1_1_2_1_2_1 * m0_0_0_2_0_0_0 == m0_1_1_4_1_2_1,
            m0_1_1_2_1_2_1 * m0_0_2_0_0_0_0 == m0_1_3_2_1_2_1,
            m0_1_1_2_1_2_1 * m0_0_2_2_0_0_1 == m0_1_3_4_1_2_2,
    ;
    let row3 = m0_1_2_1_2_1_1 * r;
    assert(row3 == -m0_1_2_1_2_1_1 + m0_1_2_3_2_1_1 - m0_1_4_1_2_1_1 - m0_1_4_3_2_1_2) by (nonlinear_arith)
        requires
            row3 == m0_1_2_1_2_1_1 * r,
            r == -m0_0_0_0_0_0_0 + m0_0_0_2_0_0_0 - m0_0_2_0_0_0_0 - m0_0_2_2_0_0_1,
            m0_1_2_1_2_1_1 * m0_0_0_0_0_0_0 == m0_1_2_1_2_1_1,
            m0_1_2_1_2_1_1 * m0_0_0_2_0_0_0 == m0_1_2_3_2_1_1,
            m0_1_2_1_2_1_1 * m0_0_2_0_0_0_0 == m0_1_4_1_2_1_1,
            m0_1_2_1_2_1_1 * m0_0_2_2_0_0_1 == m0_1_4_3_2_1_2,
    ;
    let row4 = m0_3_0_1_0_1_0 * r;
    assert(row4 == -m0_3_0_1_0_1_0 + m0_3_0_3_0_1_0 - m0_3_2_1_0_1_0 - m0_3_2_3_0_1_1) by (nonlinear_arith)
        requires
            row4 == m0_3_0_1_0_1_0 * r,
            r == -m0_0_0_0_0_0_0 + m0_0_0_2_0_0_0 - m0_0_2_0_0_0_0 - m0_0_2_2_0_0_1,
            m0_3_0_1_0_1_0 * m0_0_0_0_0_0_0 == m0_3_0_1_0_1_0,
            m0_3_0_1_0_1_0 * m0_0_0_2_0_0_0 == m0_3_0_3_0_1_0,
            m0_3_0_1_0_1_0 * m0_0_2_0_0_0_0 == m0_3_2_1_0_1_0,
            m0_3_0_1_0_1_0 * m0_0_2_2_0_0_1 == m0_3_2_3_0_1_1,
    ;
    let row5 = m0_3_0_1_0_3_0 * r;
    assert(row5 == -m0_3_0_1_0_3_0 + m0_3_0_3_0_3_0 - m0_3_2_1_0_3_0 - m0_3_2_3_0_3_1) by (nonlinear_arith)
        requires
            row5 == m0_3_0_1_0_3_0 * r,
            r == -m0_0_0_0_0_0_0 + m0_0_0_2_0_0_0 - m0_0_2_0_0_0_0 - m0_0_2_2_0_0_1,
            m0_3_0_1_0_3_0 * m0_0_0_0_0_0_0 == m0_3_0_1_0_3_0,
            m0_3_0_1_0_3_0 * m0_0_0_2_0_0_0 == m0_3_0_3_0_3_0,
            m0_3_0_1_0_3_0 * m0_0_2_0_0_0_0 == m0_3_2_1_0_3_0,
            m0_3_0_1_0_3_0 * m0_0_2_2_0_0_1 == m0_3_2_3_0_3_1,
    ;
    assert(p * r == row0 + row1 + row2 + row3 - row4 + row5) by (nonlinear_arith)
        requires
            p == m0_1_1_0_3_0_0 + m0_1_1_0_3_2_1 + m0_1_1_2_1_2_1 + m0_1_2_1_2_1_1 -
                m0_3_0_1_0_1_0 + m0_3_0_1_0_3_0,
            row0 == m0_1_1_0_3_0_0 * r,
            row1 == m0_1_1_0_3_2_1 * r,
            row2 == m0_1_1_2_1_2_1 * r,
            row3 == m0_1_2_1_2_1_1 * r,
            row4 == m0_3_0_1_0_1_0 * r,
            row5 == m0_3_0_1_0_3_0 * r,
    ;
}

/// A cofactor times the defect of a point.
proof fn lemma_associative_product_105(v: Vars, p: int, r: int)
    requires
        p == -mono(v, 0, 3, 0, 1, 2, 1, 0) - mono(v, 0, 3, 0, 1, 2, 3, 1) - mono(v, 0, 3, 1, 0,
            1, 0, 0) + mono(v, 0, 3, 1, 0, 1, 2, 0) - mono(v, 0, 3, 1, 0, 3, 0, 0) - mono(v, 0,
            3, 1, 0, 3, 2, 1),
        r == -mono(v, 0, 0, 0, 0, 0, 0, 0) + mono(v, 0, 0, 0, 2, 0, 0, 0) - mono(v, 0, 0, 2, 0,
            0, 0, 0) - mono(v, 0, 0, 2, 2, 0, 0, 1),
    ensures
        p * r == mono(v, 0, 3, 0, 1, 2, 1, 0) + mono(v, 0, 3, 0, 1, 2, 3, 1) - mono(v, 0, 3, 0, 3, 2,
            1, 0) - mono(v, 0, 3, 0, 3, 2, 3, 1) + mono(v, 0, 3, 1, 0, 1, 0, 0) - mono(v, 0, 3,
            1, 0, 1, 2, 0) + mono(v, 0, 3, 1, 0, 3, 0, 0) + mono(v, 0, 3, 1, 0, 3, 2, 1) -
            mono(v, 0, 3, 1, 2, 1, 0, 0) + mono(v, 0, 3, 1, 2, 1, 2, 0) - mono(v, 0, 3, 1, 2, 3,
            0, 0) - mono(v, 0, 3, 1, 2, 3, 2, 1) + mono(v, 0, 3, 2, 1, 2, 1, 0) + mono(v, 0, 3,
            2, 1, 2, 3, 1) + mono(v, 0, 3, 2, 3, 2, 1, 1) + mono(v, 0, 3, 2, 3, 2, 3, 2) +
            mono(v, 0, 3, 3, 0, 1, 0, 0) - mono(v, 0, 3, 3, 0, 1, 2, 0) + mono(v, 0, 3, 3, 0, 3,
            0, 0) + mono(v, 0, 3, 3, 0, 3, 2, 1) + mono(v, 0, 3, 3, 2, 1, 0, 1) - mono(v, 0, 3,
            3, 2, 1, 2, 1) + mono(v, 0, 3, 3, 2, 3, 0, 1) + mono(v, 0, 3, 3, 2, 3, 2, 2),
{
    let m0_3_0_1_2_1_0 = mono(v, 0, 3, 0, 1, 2, 1, 0);
    let m0_3_0_1_2_3_1 = mono(v, 0, 3, 0, 1, 2, 3, 1);
    let m0_3_1_0_1_0_0 = mono(v, 0, 3, 1, 0, 1, 0, 0);
    let m0_3_1_0_1_2_0 = mono(v, 0, 3, 1, 0, 1, 2, 0);
    let m0_3_1_0_3_0_0 = mono(v, 0, 3, 1, 0, 3, 0, 0);
    let m0_3_1_0_3_2_1 = mono(v, 0, 3, 1, 0, 3, 2, 1);
    let m0_0_0_0_0_0_0 = mono(v, 0, 0, 0, 0, 0, 0, 0);
    let m0_0_0_2_0_0_0 = mono(v, 0, 0, 0, 2, 0, 0, 0);
    let m0_0_2_0_0_0_0 = mono(v, 0, 0, 2, 0, 0, 0, 0);
    let m0_0_2_2_0_0_1 = mono(v, 0, 0, 2, 2, 0, 0, 1);
    let m0_3_0_3_2_1_0 = mono(v, 0, 3, 0, 3, 2, 1, 0);
    let m0_3_2_1_2_1_0 = mono(v, 0, 3, 2, 1, 2, 1, 0);
    let m0_3_2_3_2_1_1 = mono(v, 0, 3, 2, 3, 2, 1, 1);
    let m0_3_0_3_2_3_1 = mono(v, 0, 3, 0, 3, 2, 3, 1);
    let m0_3_2_1_2_3_1 = mono(v, 0, 3, 2, 1, 2, 3, 1);
    let m0_3_2_3_2_3_2 = mono(v, 0, 3, 2, 3, 2, 3, 2);
    let m0_3_1_2_1_0_0 = mono(v, 0, 3, 1, 2, 1, 0, 0);
    let m0_3_3_0_1_0_0 = mono(v, 0, 3, 3, 0, 1, 0, 0);
    let m0_3_3_2_1_0_1 = mono(v, 0, 3, 3, 2, 1, 0, 1);
    let m0_3_1_2_1_2_0 = mono(v, 0, 3, 1, 2, 1, 2, 0);
    let m0_3_3_0_1_2_0 = mono(v, 0, 3, 3, 0, 1, 2, 0);
    let m0_3_3_2_1_2_1 = mono(v, 0, 3, 3, 2, 1, 2, 1);
    let m0_3_1_2_3_0_0 = mono(v, 0, 3, 1, 2, 3, 0, 0);
    let m0_3_3_0_3_0_0 = mono(v, 0, 3, 3, 0, 3, 0, 0);
    let m0_3_3_2_3_0_1 = mono(v, 0, 3, 3, 2, 3, 0, 1);
    let m0_3_1_2_3_2_1 = mono(v, 0, 3, 1, 2, 3, 2, 1);
    let m0_3_3_0_3_2_1 = mono(v, 0, 3, 3, 0, 3, 2, 1);
    let m0_3_3_2_3_2_2 = mono(v, 0, 3, 3, 2, 3, 2, 2);
    lemma_mono_mul(v, 0, 3, 0, 1, 2, 1, 0, 0, 0, 0, 0, 0, 0, 0);
    lemma_mono_mul(v, 0, 3, 0, 1, 2, 1, 0, 0, 0, 0, 2, 0, 0, 0);
    lemma_mono_mul(v, 0, 3, 0, 1, 2, 1, 0, 0, 0, 2, 0, 0, 0, 0);
    lemma_mono_mul(v, 0, 3, 0, 1, 2, 1, 0, 0, 0, 2, 2, 0, 0, 1);
    lemma_mono_mul(v, 0, 3, 0, 1, 2, 3, 1, 0, 0, 0, 0, 0, 0, 0);
    lemma_mono_mul(v, 0, 3, 0, 1, 2, 3, 1, 0, 0, 0, 2, 0, 0, 0);
    lemma_mono_mul(v, 0, 3, 0, 1, 2, 3, 1, 0, 0, 2, 0, 0, 0, 0);
    lemma_mono_mul(v, 0, 3, 0, 1, 2, 3, 1, 0, 0, 2, 2, 0, 0, 1);
    lemma_mono_mul(v, 0, 3, 1, 0, 1, 0, 0, 0, 0, 0, 0, 0, 0, 0);
    lemma_mono_mul(v, 0, 3, 1, 0, 1, 0, 0, 0, 0, 0, 2, 0, 0, 0);
    lemma_mono_mul(v, 0, 3, 1, 0, 1, 0, 0, 0, 0, 2, 0, 0, 0, 0);
    lemma_mono_mul(v, 0, 3, 1, 0, 1, 0, 0, 0, 0, 2, 2, 0, 0, 1);
    lemma_mono_mul(v, 0, 3, 1, 0, 1, 2, 0, 0, 0, 0, 0, 0, 0, 0);
    lemma_mono_mul(v, 0, 3, 1, 0, 1, 2, 0, 0, 0, 0, 2, 0, 0, 0);
    lemma_mono_mul(v, 0, 3, 1, 0, 1, 2, 0, 0, 0, 2, 0, 0, 0, 0);
    lemma_mono_mul(v, 0, 3, 1, 0, 1, 2, 0, 0, 0, 2, 2, 0, 0, 1);
    lemma_mono_mul(v, 0, 3, 1, 0, 3, 0, 0, 0, 0, 0, 0, 0, 0, 0);
    lemma_mono_mul(v, 0, 3, 1, 0, 3, 0, 0, 0, 0, 0, 2, 0, 0, 0);
    lemma_mono_mul(v, 0, 3, 1, 0, 3, 0, 0, 0, 0, 2, 0, 0, 0, 0);
    lemma_mono_mul(v, 0, 3, 1, 0, 3, 0, 0, 0, 0, 2, 2, 0, 0, 1);
    lemma_mono_mul(v, 0, 3, 1, 0, 3, 2, 1, 0, 0, 0, 0, 0, 0, 0);
    lemma_mono_mul(v, 0, 3, 1, 0, 3, 2, 1, 0, 0, 0, 2, 0, 0, 0);
    lemma_mono_mul(v, 0, 3, 1, 0, 3, 2, 1, 0, 0, 2, 0, 0, 0, 0);
    lemma_mono_mul(v, 0, 3, 1, 0, 3, 2, 1, 0, 0, 2, 2, 0, 0, 1);
    let row0 = m0_3_0_1_2_1_0 * r;
    assert(row0 == -m0_3_0_1_2_1_0 + m0_3_0_3_2_1_0 - m0_3_2_1_2_1_0 - m0_3_2_3_2_1_1) by (nonlinear_arith)
        requires
            row0 == m0_3_0_1_2_1_0 * r,
            r == -m0_0_0_0_0_0_0 + m0_0_0_2_0_0_0 - m0_0_2_0_0_0_0 - m0_0_2_2_0_0_1,
            m0_3_0_1_2_1_0 * m0_0_0_0_0_0_0 == m0_3_0_1_2_1_0,
            m0_3_0_1_2_1_0 * m0_0_0_2_0_0_0 == m0_3_0_3_2_1_0,
            m0_3_0_1_2_1_0 * m0_0_2_0_0_0_0 == m0_3_2_1_2_1_0,
            m0_3_0_1_2_1_0 * m0_0_2_2_0_0_1 == m0_3_2_3_2_1_1,
    ;
    let row1 = m0_3_0_1_2_3_1 * r;
    assert(row1 == -m0_3_0_1_2_3_1 + m0_3_0_3_2_3_1 - m0_3_2_1_2_3_1 - m0_3_2_3_2_3_2) by (nonlinear_arith)
        requires
            row1 == m0_3_0_1_2_3_1 * r,
            r == -m0_0_0_0_0_0_0 + m0_0_0_2_0_0_0 - m0_0_2_0_0_0_0 - m0_0_2_2_0_0_1,
            m0_3_0_1_2_3_1 * m0_0_0_0_0_0_0 == m0_3_0_1_2_3_1,
            m0_3_0_1_2_3_1 * m0_0_0_2_0_0_0 == m0_3_0_3_2_3_1,
            m0_3_0_1_2_3_1 * m0_0_2_0_0_0_0 == m0_3_2_1_2_3_1,
            m0_3_0_1_2_3_1 * m0_0_2_2_0_0_1 == m0_3_2_3_2_3_2,
    ;
    let row2 = m0_3_1_0_1_0_0 * r;
    assert(row2 == -m0_3_1_0_1_0_0 + m0_3_1_2_1_0_0 - m0_3_3_0_1_0_0 - m0_3_3_2_1_0_1) by (nonlinear_arith)
        requires
            row2 == m0_3_1_0_1_0_0 * r,
            r == -m0_0_0_0_0_0_0 + m0_0_0_2_0_0_0 - m0_0_2_0_0_0_0 - m0_0_2_2_0_0_1,
            m0_3_1_0_1_0_0 * m0_0_0_0_0_0_0 == m0_3_1_0_1_0_0,
            m0_3_1_0_1_0_0 * m0_0_0_2_0_0_0 == m0_3_1_2_1_0_0,
            m0_3_1_0_1_0_0 * m0_0_2_0_0_0_0 == m0_3_3_0_1_0_0,
            m0_3_1_0_1_0_0 * m0_0_2_2_0_0_1 == m0_3_3_2_1_0_1,
    ;
    let row3 = m0_3_1_0_1_2_0 * r;
    assert(row3 == -m0_3_1_0_1_2_0 + m0_3_1_2_1_2_0 - m0_3_3_0_1_2_0 - m0_3_3_2_1_2_1) by (nonlinear_arith)
        requires
            row3 == m0_3_1_0_1_2_0 * r,
            r == -m0_0_0_0_0_0_0 + m0_0_0_2_0_0_0 - m0_0_2_0_0_0_0 - m0_0_2_2_0_0_1,
            m0_3_1_0_1_2_0 * m0_0_0_0_0_0_0 == m0_3_1_0_1_2_0,
            m0_3_1_0_1_2_0 * m0_0_0_2_0_0_0 == m0_3_1_2_1_2_0,
            m0_3_1_0_1_2_0 * m0_0_2_0_0_0_0 == m0_3_3_0_1_2_0,
            m0_3_1_0_1_2_0 * m0_0_2_2_0_0_1 == m0_3_3_2_1_2_1,
    ;
    let row4 = m0_3_1_0_3_0_0 * r;
    assert(row4 == -m0_3_1_0_3_0_0 + m0_3_1_2_3_0_0 - m0_3_3_0_3_0_0 - m0_3_3_2_3_0_1) by (nonlinear_arith)
        requires
            row4 == m0_3_1_0_3_0_0 * r,
            r == -m0_0_0_0_0_0_0 + m0_0_0_2_0_0_0 - m0_0_2_0_0_0_0 - m0_0_2_2_0_0_1,
            m0_3_1_0_3_0_0 * m0_0_0_0_0_0_0 == m0_3_1_0_3_0_0,
            m0_3_1_0_3_0_0 * m0_0_0_2_0_0_0 == m0_3_1_2_3_0_0,
            m0_3_1_0_3_0_0 * m0_0_2_0_0_0_0 == m0_3_3_0_3_0_0,
            m0_3_1_0_3_0_0 * m0_0_2_2_0_0_1 == m0_3_3_2_3_0_1,
    ;
    let row5 = m0_3_1_0_3_2_1 * r;
    assert(row5 == -m0_3_1_0_3_2_1 + m0_3_1_2_3_2_1 - m0_3_3_0_3_2_1 - m0_3_3_2_3_2_2) by (nonlinear_arith)
        requires
            row5 == m0_3_1_0_3_2_1 * r,
            r == -m0_0_0_0_0_0_0 + m0_0_0_2_0_0_0 - m0_0_2_0_0_0_0 - m0_0_2_2_0_0_1,
            m0_3_1_0_3_2_1 * m0_0_0_0_0_0_0 == m0_3_1_0_3_2_1,
            m0_3_1_0_3_2_1 * m0_0_0_2_0_0_0 == m0_3_1_2_3_2_1,
            m0_3_1_0_3_2_1 * m0_0_2_0_0_0_0 == m0_3_3_0_3_2_1,
            m0_3_1_0_3_2_1 * m0_0_2_2_0_0_1 == m0_3_3_2_3_2_2,
    ;
    assert(p * r == -row0 - row1 - row2 + row3 - row4 - row5) by (nonlinear_arith)
        requires
            p == -m0_3_0_1_2_1_0 - m0_3_0_1_2_3_1 - m0_3_1_0_1_0_0 + m0_3_1_0_1_2_0 -
                m0_3_1_0_3_0_0 - m0_3_1_0_3_2_1,
            row0 == m0_3_0_1_2_1_0 * r,
            row1 == m0_3_0_1_2_3_1 * r,
            row2 == m0_3_1_0_1_0_0 * r,
            row3 == m0_3_1_0_1_2_0 * r,
            row4 == m0_3_1_0_3_0_0 * r,
            row5 == m0_3_1_0_3_2_1 * r,
    ;
}

/// A cofactor times the defect of a point.
proof fn lemma_associative_product_106(v: Vars, p: int, r: int)
    requires
        p == -mono(v, 0, 3, 1, 2, 1, 2, 1) - mono(v, 0, 3, 2, 1, 2, 1, 1) + mono(v, 1, 0, 0, 1,
            1, 0, 0) - mono(v, 1, 0, 0, 1, 1, 2, 0) + mono(v, 1, 0, 0, 1, 3, 0, 0) + mono(v, 1,
            0, 0, 1, 3, 2, 1),
        r == -mono(v, 0, 0, 0, 0, 0, 0, 0) + mono(v, 0, 0, 0, 2, 0, 0, 0) - mono(v, 0, 0, 2, 0,
            0, 0, 0) - mono(v, 0, 0, 2, 2, 0, 0, 1),
    ensures
        p * r == mono(v, 0, 3, 1, 2, 1, 2, 1) - mono(v, 0, 3, 1, 4, 1, 2, 1) + mono(v, 0, 3, 2, 1, 2,
            1, 1) - mono(v, 0, 3, 2, 3, 2, 1, 1) + mono(v, 0, 3, 3, 2, 1, 2, 1) + mono(v, 0, 3,
            3, 4, 1, 2, 2) + mono(v, 0, 3, 4, 1, 2, 1, 1) + mono(v, 0, 3, 4, 3, 2, 1, 2) -
            mono(v, 1, 0, 0, 1, 1, 0, 0) + mono(v, 1, 0, 0, 1, 1, 2, 0) - mono(v, 1, 0, 0, 1, 3,
            0, 0) - mono(v, 1, 0, 0, 1, 3, 2, 1) + mono(v, 1, 0, 0, 3, 1, 0, 0) - mono(v, 1, 0,
            0, 3, 1, 2, 0) + mono(v, 1, 0, 0, 3, 3, 0, 0) + mono(v, 1, 0, 0, 3, 3, 2, 1) -
            mono(v, 1, 0, 2, 1, 1, 0, 0) + mono(v, 1, 0, 2, 1, 1, 2, 0) - mono(v, 1, 0, 2, 1, 3,
            0, 0) - mono(v, 1, 0, 2, 1, 3, 2, 1) - mono(v, 1, 0, 2, 3, 1, 0, 1) + mono(v, 1, 0,
            2, 3, 1, 2, 1) - mono(v, 1, 0, 2, 3, 3, 0, 1) - mono(v, 1, 0, 2, 3, 3, 2, 2),
{
    let m0_3_1_2_1_2_1 = mono(v, 0, 3, 1, 2, 1, 2, 1);
    let m0_3_2_1_2_1_1 = mono(v, 0, 3, 2, 1, 2, 1, 1);
    let m1_0_0_1_1_0_0 = mono(v, 1, 0, 0, 1, 1, 0, 0);
    let m1_0_0_1_1_2_0 = mono(v, 1, 0, 0, 1, 1, 2, 0);
    let m1_0_0_1_3_0_0 = mono(v, 1, 0, 0, 1, 3, 0, 0);
    let m1_0_0_1_3_2_1 = mono(v, 1, 0, 0, 1, 3, 2, 1);
    let m0_0_0_0_0_0_0 = mono(v, 0, 0, 0, 0, 0, 0, 0);
    let m0_0_0_2_0_0_0 = mono(v, 0, 0, 0, 2, 0, 0, 0);
    let m0_0_2_0_0_0_0 = mono(v, 0, 0, 2, 0, 0, 0, 0);
    let m0_0_2_2_0_0_1 = mono(v, 0, 0, 2, 2, 0, 0, 1);
    let m0_3_1_4_1_2_1 = mono(v, 0, 3, 1, 4, 1, 2, 1);
    let m0_3_3_2_1_2_1 = mono(v, 0, 3, 3, 2, 1, 2, 1);
    let m0_3_3_4_1_2_2 = mono(v, 0, 3, 3, 4, 1, 2, 2);
    let m0_3_2_3_2_1_1 = mono(v, 0, 3, 2, 3, 2, 1, 1);
    let m0_3_4_1_2_1_1 = mono(v, 0, 3, 4, 1, 2, 1, 1);
    let m0_3_4_3_2_1_2 = mono(v, 0, 3, 4, 3, 2, 1, 2);
    let m1_0_0_3_1_0_0 = mono(v, 1, 0, 0, 3, 1, 0, 0);
    let m1_0_2_1_1_0_0 = mono(v, 1, 0, 2, 1, 1, 0, 0);
    let m1_0_2_3_1_0_1 = mono(v, 1, 0, 2, 3, 1, 0, 1);
    let m1_0_0_3_1_2_0 = mono(v, 1, 0, 0, 3, 1, 2, 0);
    let m1_0_2_1_1_2_0 = mono(v, 1, 0, 2, 1, 1, 2, 0);
    let m1_0_2_3_1_2_1 = mono(v, 1, 0, 2, 3, 1, 2, 1);
    let m1_0_0_3_3_0_0 = mono(v, 1, 0, 0, 3, 3, 0, 0);
    let m1_0_2_1_3_0_0 = mono(v, 1, 0, 2, 1, 3, 0, 0);
    let m1_0_2_3_3_0_1 = mono(v, 1, 0, 2, 3, 3, 0, 1);
    let m1_0_0_3_3_2_1 = mono(v, 1, 0, 0, 3, 3, 2, 1);
    let m1_0_2_1_3_2_1 = mono(v, 1, 0, 2, 1, 3, 2, 1);
    let m1_0_2_3_3_2_2 = mono(v, 1, 0, 2, 3, 3, 2, 2);
    lemma_mono_mul(v, 0, 3, 1, 2, 1, 2, 1, 0, 0, 0, 0, 0, 0, 0);
    lemma_mono_mul(v, 0, 3, 1, 2, 1, 2, 1, 0, 0, 0, 2, 0, 0, 0);
    lemma_mono_mul(v, 0, 3, 1, 2, 1, 2, 1, 0, 0, 2, 0, 0, 0, 0);
    lemma_mono_mul(v, 0, 3, 1, 2, 1, 2, 1, 0, 0, 2, 2, 0, 0, 1);
    lemma_mono_mul(v, 0, 3, 2, 1, 2, 1, 1, 0, 0, 0, 0, 0, 0, 0);
    lemma_mono_mul(v, 0, 3, 2, 1, 2, 1, 1, 0, 0, 0, 2, 0, 0, 0);
    lemma_mono_mul(v, 0, 3, 2, 1, 2, 1, 1, 0, 0, 2, 0, 0, 0, 0);
    lemma_mono_mul(v, 0, 3, 2, 1, 2, 1, 1, 0, 0, 2, 2, 0, 0, 1);
    lemma_mono_mul(v, 1, 0, 0, 1, 1, 0, 0, 0, 0, 0, 0, 0, 0, 0);
    lemma_mono_mul(v, 1, 0, 0, 1, 1, 0, 0, 0, 0, 0, 2, 0, 0, 0);
    lemma_mono_mul(v, 1, 0, 0, 1, 1, 0, 0, 0, 0, 2, 0, 0, 0, 0);
    lemma_mono_mul(v, 1, 0, 0, 1, 1, 0, 0, 0, 0, 2, 2, 0, 0, 1);
    lemma_mono_mul(v, 1, 0, 0, 1, 1, 2, 0, 0, 0, 0, 0, 0, 0, 0);
    lemma_mono_mul(v, 1, 0, 0, 1, 1, 2, 0, 0, 0, 0, 2, 0, 0, 0);
    lemma_mono_mul(v, 1, 0, 0, 1, 1, 2, 0, 0, 0, 2, 0, 0, 0, 0);
    lemma_mono_mul(v, 1, 0, 0, 1, 1, 2, 0, 0, 0, 2, 2, 0, 0, 1);
    lemma_mono_mul(v, 1, 0, 0, 1, 3, 0, 0, 0, 0, 0, 0, 0, 0, 0);
    lemma_mono_mul(v, 1, 0, 0, 1, 3, 0, 0, 0, 0, 0, 2, 0, 0, 0);
    lemma_mono_mul(v, 1, 0, 0, 1, 3, 0, 0, 0, 0, 2, 0, 0, 0, 0);
    lemma_mono_mul(v, 1, 0, 0, 1, 3, 0, 0, 0, 0, 2, 2, 0, 0, 1);
    lemma_mono_mul(v, 1, 0, 0, 1, 3, 2, 1, 0, 0, 0, 0, 0, 0, 0);
    lemma_mono_mul(v, 1, 0, 0, 1, 3, 2, 1, 0, 0, 0, 2, 0, 0, 0);
    lemma_mono_mul(v, 1, 0, 0, 1, 3, 2, 1, 0, 0, 2, 0, 0, 0, 0);
    lemma_mono_mul(v, 1, 0, 0, 1, 3, 2, 1, 0, 0, 2, 2, 0, 0, 1);
    let row0 = m0_3_1_2_1_2_1 * r;
    assert(row0 == -m0_3_1_2_1_2_1 + m0_3_1_4_1_2_1 - m0_3_3_2_1_2_1 - m0_3_3_4_1_2_2) by (nonlinear_arith)
        requires
            row0 == m0_3_1_2_1_2_1 * r,
            r == -m0_0_0_0_0_0_0 + m0_0_0_2_0_0_0 - m0_0_2_0_0_0_0 - m0_0_2_2_0_0_1,
            m0_3_1_2_1_2_1 * m0_0_0_0_0_0_0 == m0_3_1_2_1_2_1,
            m0_3_1_2_1_2_1 * m0_0_0_2_0_0_0 == m0_3_1_4_1_2_1,
            m0_3_1_2_1_2_1 * m0_0_2_0_0_0_0 == m0_3_3_2_1_2_1,
            m0_3_1_2_1_2_1 * m0_0_2_2_0_0_1 == m0_3_3_4_1_2_2,
    ;
    let row1 = m0_3_2_1_2_1_1 * r;
    assert(row1 == -m0_3_2_1_2_1_1 + m0_3_2_3_2_1_1 - m0_3_4_1_2_1_1 - m0_3_4_3_2_1_2) by (nonlinear_arith)
        requires
            row1 == m0_3_2_1_2_1_1 * r,
            r == -m0_0_0_0_0_0_0 + m0_0_0_2_0_0_0 - m0_0_2_0_0_0_0 - m0_0_2_2_0_0_1,
            m0_3_2_1_2_1_1 * m0_0_0_0_0_0_0 == m0_3_2_1_2_1_1,
            m0_3_2_1_2_1_1 * m0_0_0_2_0_0_0 == m0_3_2_3_2_1_1,
            m0_3_2_1_2_1_1 * m0_0_2_0_0_0_0 == m0_3_4_1_2_1_1,
            m0_3_2_1_2_1_1 * m0_0_2_2_0_0_1 == m0_3_4_3_2_1_2,
    ;
    let row2 = m1_0_0_1_1_0_0 * r;
    assert(row2 == -m1_0_0_1_1_0_0 + m1_0_0_3_1_0_0 - m1_0_2_1_1_0_0 - m1_0_2_3_1_0_1) by (nonlinear_arith)
        requires
            row2 == m1_0_0_1_1_0_0 * r,
            r == -m0_0_0_0_0_0_0 + m0_0_0_2_0_0_0 - m0_0_2_0_0_0_0 - m0_0_2_2_0_0_1,
            m1_0_0_1_1_0_0 * m0_0_0_0_0_0_0 == m1_0_0_1_1_0_0,
            m1_0_0_1_1_0_0 * m0_0_0_2_0_0_0 == m1_0_0_3_1_0_0,
            m1_0_0_1_1_0_0 * m0_0_2_0_0_0_0 == m1_0_2_1_1_0_0,
            m1_0_0_1_1_0_0 * m0_0_2_2_0_0_1 == m1_0_2_3_1_0_1,
    ;
    let row3 = m1_0_0_1_1_2_0 * r;
    assert(row3 == -m1_0_0_1_1_2_0 + m1_0_0_3_1_2_0 - m1_0_2_1_1_2_0 - m1_0_2_3_1_2_1) by (nonlinear_arith)
        requires
            row3 == m1_0_0_1_1_2_0 * r,
            r == -m0_0_0_0_0_0_0 + m0_0_0_2_0_0_0 - m0_0_2_0_0_0_0 - m0_0_2_2_0_0_1,
            m1_0_0_1_1_2_0 * m0_0_0_0_0_0_0 == m1_0_0_1_1_2_0,
            m1_0_0_1_1_2_0 * m0_0_0_2_0_0_0 == m1_0_0_3_1_2_0,
            m1_0_0_1_1_2_0 * m0_0_2_0_0_0_0 == m1_0_2_1_1_2_0,
            m1_0_0_1_1_2_0 * m0_0_2_2_0_0_1 == m1_0_2_3_1_2_1,
    ;
    let row4 = m1_0_0_1_3_0_0 * r;
    assert(row4 == -m1_0_0_1_3_0_0 + m1_0_0_3_3_0_0 - m1_0_2_1_3_0_0 - m1_0_2_3_3_0_1) by (nonlinear_arith)
        requires
            row4 == m1_0_0_1_3_0_0 * r,
            r == -m0_0_0_0_0_0_0 + m0_0_0_2_0_0_0 - m0_0_2_0_0_0_0 - m0_0_2_2_0_0_1,
            m1_0_0_1_3_0_0 * m0_0_0_0_0_0_0 == m1_0_0_1_3_0_0,
            m1_0_0_1_3_0_0 * m0_0_0_2_0_0_0 == m1_0_0_3_3_0_0,
            m1_0_0_1_3_0_0 * m0_0_2_0_0_0_0 == m1_0_2_1_3_0_0,
            m1_0_0_1_3_0_0 * m0_0_2_2_0_0_1 == m1_0_2_3_3_0_1,
    ;
    let row5 = m1_0_0_1_3_2_1 * r;
    assert(row5 == -m1_0_0_1_3_2_1 + m1_0_0_3_3_2_1 - m1_0_2_1_3_2_1 - m1_0_2_3_3_2_2) by (nonlinear_arith)
        requires
            row5 == m1_0_0_1_3_2_1 * r,
            r == -m0_0_0_0_0_0_0 + m0_0_0_2_0_0_0 - m0_0_2_0_0_0_0 - m0_0_2_2_0_0_1,
            m1_0_0_1_3_2_1 * m0_0_0_0_0_0_0 == m1_0_0_1_3_2_1,
            m1_0_0_1_3_2_1 * m0_0_0_2_0_0_0 == m1_0_0_3_3_2_1,
            m1_0_0_1_3_2_1 * m0_0_2_0_0_0_0 == m1_0_2_1_3_2_1,
            m1_0_0_1_3_2_1 * m0_0_2_2_0_0_1 == m1_0_2_3_3_2_2,
    ;
    assert(p * r == -row0 - row1 + row2 - row3 + row4 + row5) by (nonlinear_arith)
        requires
            p == -m0_3_1_2_1_2_1 - m0_3_2_1_2_1_1 + m1_0_0_1_1_0_0 - m1_0_0_1_1_2_0 +
                m1_0_0_1_3_0_0 + m1_0_0_1_3_2_1,
            row0 == m0_3_1_2_1_2_1 * r,
            row1 == m0_3_2_1_2_1_1 * r,
            row2 == m1_0_0_1_1_0_0 * r,
            row3 == m1_0_0_1_1_2_0 * r,
            row4 == m1_0_0_1_3_0_0 * r,
            row5 == m1_0_0_1_3_2_1 * r,
    ;
}

/// A cofactor times the defect of a point.
proof fn lemma_associative_product_107(v: Vars, p: int, r: int)
    requires
        p == mono(v, 1, 0, 1, 0, 0, 1, 0) - mono(v, 1, 0, 1, 0, 0, 3, 0) + mono(v, 1, 0, 1, 0, 2,
            1, 0) + mono(v, 1, 0, 1, 0, 2, 3, 1) - mono(v, 1, 0, 1, 2, 2, 1, 1) - mono(v, 1, 0,
            2, 1, 1, 2, 1),
        r == -mono(v, 0, 0, 0, 0, 0, 0, 0) + mono(v, 0, 0, 0, 2, 0, 0, 0) - mono(v, 0, 0, 2, 0,
            0, 0, 0) - mono(v, 0, 0, 2, 2, 0, 0, 1),
    ensures
        p * r == -mono(v, 1, 0, 1, 0, 0, 1, 0) + mono(v, 1, 0, 1, 0, 0, 3, 0) - mono(v, 1, 0, 1, 0,
            2, 1, 0) - mono(v, 1, 0, 1, 0, 2, 3, 1) + mono(v, 1, 0, 1, 2, 0, 1, 0) - mono(v, 1,
            0, 1, 2, 0, 3, 0) + mono(v, 1, 0, 1, 2, 2, 1, 0) + mono(v, 1, 0, 1, 2, 2, 1, 1) +
            mono(v, 1, 0, 1, 2, 2, 3, 1) - mono(v, 1, 0, 1, 4, 2, 1, 1) + mono(v, 1, 0, 2, 1, 1,
            2, 1) - mono(v, 1, 0, 2, 3, 1, 2, 1) - mono(v, 1, 0, 3, 0, 0, 1, 0) + mono(v, 1, 0,
            3, 0, 0, 3, 0) - mono(v, 1, 0, 3, 0, 2, 1, 0) - mono(v, 1, 0, 3, 0, 2, 3, 1) -
            mono(v, 1, 0, 3, 2, 0, 1, 1) + mono(v, 1, 0, 3, 2, 0, 3, 1) - mono(v, 1, 0, 3, 2, 2,
            3, 2) + mono(v, 1, 0, 3, 4, 2, 1, 2) + mono(v, 1, 0, 4, 1, 1, 2, 1) + mono(v, 1, 0,
            4, 3, 1, 2, 2),
{
    let m1_0_1_0_0_1_0 = mono(v, 1, 0, 1, 0, 0, 1, 0);
    let m1_0_1_0_0_3_0 = mono(v, 1, 0, 1, 0, 0, 3, 0);
    let m1_0_1_0_2_1_0 = mono(v, 1, 0, 1, 0, 2, 1, 0);
    let m1_0_1_0_2_3_1 = mono(v, 1, 0, 1, 0, 2, 3, 1);
    let m1_0_1_2_2_1_1 = mono(v, 1, 0, 1, 2, 2, 1, 1);
    let m1_0_2_1_1_2_1 = mono(v, 1, 0, 2, 1, 1, 2, 1);
    let m0_0_0_0_0_0_0 = mono(v, 0, 0, 0, 0, 0, 0, 0);
    let m0_0_0_2_0_0_0 = mono(v, 0, 0, 0, 2, 0, 0, 0);
    let m0_0_2_0_0_0_0 = mono(v, 0, 0, 2, 0, 0, 0, 0);
    let m0_0_2_2_0_0_1 = mono(v, 0, 0, 2, 2, 0, 0, 1);
    let m1_0_1_2_0_1_0 = mono(v, 1, 0, 1, 2, 0, 1, 0);
    let m1_0_3_0_0_1_0 = mono(v, 1, 0, 3, 0, 0, 1, 0);
    let m1_0_3_2_0_1_1 = mono(v, 1, 0, 3, 2, 0, 1, 1);
    let m1_0_1_2_0_3_0 = mono(v, 1, 0, 1, 2, 0, 3, 0);
    let m1_0_3_0_0_3_0 = mono(v, 1, 0, 3, 0, 0, 3, 0);
    let m1_0_3_2_0_3_1 = mono(v, 1, 0, 3, 2, 0, 3, 1);
    let m1_0_1_2_2_1_0 = mono(v, 1, 0, 1, 2, 2, 1, 0);
    let m1_0_3_0_2_1_0 = mono(v, 1, 0, 3, 0, 2, 1, 0);
    let m1_0_3_2_2_1_1 = mono(v, 1, 0, 3, 2, 2, 1, 1);
    let m1_0_1_2_2_3_1 = mono(v, 1, 0, 1, 2, 2, 3, 1);
    let m1_0_3_0_2_3_1 = mono(v, 1, 0, 3, 0, 2, 3, 1);
    let m1_0_3_2_2_3_2 = mono(v, 1, 0, 3, 2, 2, 3, 2);
    let m1_0_1_4_2_1_1 = mono(v, 1, 0, 1, 4, 2, 1, 1);
    let m1_0_3_4_2_1_2 = mono(v, 1, 0, 3, 4, 2, 1, 2);
    let m1_0_2_3_1_2_1 = mono(v, 1, 0, 2, 3, 1, 2, 1);
    let m1_0_4_1_1_2_1 = mono(v, 1, 0, 4, 1, 1, 2, 1);
    let m1_0_4_3_1_2_2 = mono(v, 1, 0, 4, 3, 1, 2, 2);
    lemma_mono_mul(v, 1, 0, 1, 0, 0, 1, 0, 0, 0, 0, 0, 0, 0, 0);
    lemma_mono_mul(v, 1, 0, 1, 0, 0, 1, 0, 0, 0, 0, 2, 0, 0, 0);
    lemma_mono_mul(v, 1, 0, 1, 0, 0, 1, 0, 0, 0, 2, 0, 0, 0, 0);
    lemma_mono_mul(v, 1, 0, 1, 0, 0, 1, 0, 0, 0, 2, 2, 0, 0, 1);
    lemma_mono_mul(v, 1, 0, 1, 0, 0, 3, 0, 0, 0, 0, 0, 0, 0, 0);
    lemma_mono_mul(v, 1, 0, 1, 0, 0, 3, 0, 0, 0, 0, 2, 0, 0, 0);
    lemma_mono_mul(v, 1, 0, 1, 0, 0, 3, 0, 0, 0, 2, 0, 0, 0, 0);
    lemma_mono_mul(v, 1, 0, 1, 0, 0, 3, 0, 0, 0, 2, 2, 0, 0, 1);
    lemma_mono_mul(v, 1, 0, 1, 0, 2, 1, 0, 0, 0, 0, 0, 0, 0, 0);
    lemma_mono_mul(v, 1, 0, 1, 0, 2, 1, 0, 0, 0, 0, 2, 0, 0, 0);
    lemma_mono_mul(v, 1, 0, 1, 0, 2, 1, 0, 0, 0, 2, 0, 0, 0, 0);
    lemma_mono_mul(v, 1, 0, 1, 0, 2, 1, 0, 0, 0, 2, 2, 0, 0, 1);
    lemma_mono_mul(v, 1, 0, 1, 0, 2, 3, 1, 0, 0, 0, 0, 0, 0, 0);
    lemma_mono_mul(v, 1, 0, 1, 0, 2, 3, 1, 0, 0, 0, 2, 0, 0, 0);
    lemma_mono_mul(v, 1, 0, 1, 0, 2, 3, 1, 0, 0, 2, 0, 0, 0, 0);
    lemma_mono_mul(v, 1, 0, 1, 0, 2, 3, 1, 0, 0, 2, 2, 0, 0, 1);
    lemma_mono_mul(v, 1, 0, 1, 2, 2, 1, 1, 0, 0, 0, 0, 0, 0, 0);
    lemma_mono_mul(v, 1, 0, 1, 2, 2, 1, 1, 0, 0, 0, 2, 0, 0, 0);
    lemma_mono_mul(v, 1, 0, 1, 2, 2, 1, 1, 0, 0, 2, 0, 0, 0, 0);
    lemma_mono_mul(v, 1, 0, 1, 2, 2, 1, 1, 0, 0, 2, 2, 0, 0, 1);
    lemma_mono_mul(v, 1, 0, 2, 1, 1, 2, 1, 0, 0, 0, 0, 0, 0, 0);
    lemma_mono_mul(v, 1, 0, 2, 1, 1, 2, 1, 0, 0, 0, 2, 0, 0, 0);
    lemma_mono_mul(v, 1, 0, 2, 1, 1, 2, 1, 0, 0, 2, 0, 0, 0, 0);
    lemma_mono_mul(v, 1, 0, 2, 1, 1, 2, 1, 0, 0, 2, 2, 0, 0, 1);
    let row0 = m1_0_1_0_0_1_0 * r;
    assert(row0 == -m1_0_1_0_0_1_0 + m1_0_1_2_0_1_0 - m1_0_3_0_0_1_0 - m1_0_3_2_0_1_1) by (nonlinear_arith)
        requires
            row0 == m1_0_1_0_0_1_0 * r,
            r == -m0_0_0_0_0_0_0 + m0_0_0_2_0_0_0 - m0_0_2_0_0_0_0 - m0_0_2_2_0_0_1,
            m1_0_1_0_0_1_0 * m0_0_0_0_0_0_0 == m1_0_1_0_0_1_0,
            m1_0_1_0_0_1_0 * m0_0_0_2_0_0_0 == m1_0_1_2_0_1_0,
            m1_0_1_0_0_1_0 * m0_0_2_0_0_0_0 == m1_0_3_0_0_1_0,
            m1_0_1_0_0_1_0 * m0_0_2_2_0_0_1 == m1_0_3_2_0_1_1,
    ;
    let row1 = m1_0_1_0_0_3_0 * r;
    assert(row1 == -m1_0_1_0_0_3_0 + m1_0_1_2_0_3_0 - m1_0_3_0_0_3_0 - m1_0_3_2_0_3_1) by (nonlinear_arith)
        requires
            row1 == m1_0_1_0_0_3_0 * r,
            r == -m0_0_0_0_0_0_0 + m0_0_0_2_0_0_0 - m0_0_2_0_0_0_0 - m0_0_2_2_0_0_1,
            m1_0_1_0_0_3_0 * m0_0_0_0_0_0_0 == m1_0_1_0_0_3_0,
            m1_0_1_0_0_3_0 * m0_0_0_2_0_0_0 == m1_0_1_2_0_3_0,
            m1_0_1_0_0_3_0 * m0_0_2_0_0_0_0 == m1_0_3_0_0_3_0,
            m1_0_1_0_0_3_0 * m0_0_2_2_0_0_1 == m1_0_3_2_0_3_1,
    ;
    let row2 = m1_0_1_0_2_1_0 * r;
    assert(row2 == -m1_0_1_0_2_1_0 + m1_0_1_2_2_1_0 - m1_0_3_0_2_1_0 - m1_0_3_2_2_1_1) by (nonlinear_arith)
        requires
            row2 == m1_0_1_0_2_1_0 * r,
            r == -m0_0_0_0_0_0_0 + m0_0_0_2_0_0_0 - m0_0_2_0_0_0_0 - m0_0_2_2_0_0_1,
            m1_0_1_0_2_1_0 * m0_0_0_0_0_0_0 == m1_0_1_0_2_1_0,
            m1_0_1_0_2_1_0 * m0_0_0_2_0_0_0 == m1_0_1_2_2_1_0,
            m1_0_1_0_2_1_0 * m0_0_2_0_0_0_0 == m1_0_3_0_2_1_0,
            m1_0_1_0_2_1_0 * m0_0_2_2_0_0_1 == m1_0_3_2_2_1_1,
    ;
    let row3 = m1_0_1_0_2_3_1 * r;
    assert(row3 == -m1_0_1_0_2_3_1 + m1_0_1_2_2_3_1 - m1_0_3_0_2_3_1 - m1_0_3_2_2_3_2) by (nonlinear_arith)
        requires
            row3 == m1_0_1_0_2_3_1 * r,
            r == -m0_0_0_0_0_0_0 + m0_0_0_2_0_0_0 - m0_0_2_0_0_0_0 - m0_0_2_2_0_0_1,
            m1_0_1_0_2_3_1 * m0_0_0_0_0_0_0 == m1_0_1_0_2_3_1,
            m1_0_1_0_2_3_1 * m0_0_0_2_0_0_0 == m1_0_1_2_2_3_1,
            m1_0_1_0_2_3_1 * m0_0_2_0_0_0_0 == m1_0_3_0_2_3_1,
            m1_0_1_0_2_3_1 * m0_0_2_2_0_0_1 == m1_0_3_2_2_3_2,
    ;
    let row4 = m1_0_1_2_2_1_1 * r;
    assert(row4 == -m1_0_1_2_2_1_1 + m1_0_1_4_2_1_1 - m1_0_3_2_2_1_1 - m1_0_3_4_2_1_2) by (nonlinear_arith)
        requires
            row4 == m1_0_1_2_2_1_1 * r,
            r == -m0_0_0_0_0_0_0 + m0_0_0_2_0_0_0 - m0_0_2_0_0_0_0 - m0_0_2_2_0_0_1,
            m1_0_1_2_2_1_1 * m0_0_0_0_0_0_0 == m1_0_1_2_2_1_1,
            m1_0_1_2_2_1_1 * m0_0_0_2_0_0_0 == m1_0_1_4_2_1_1,
            m1_0_1_2_2_1_1 * m0_0_2_0_0_0_0 == m1_0_3_2_2_1_1,
            m1_0_1_2_2_1_1 * m0_0_2_2_0_0_1 == m1_0_3_4_2_1_2,
    ;
    let row5 = m1_0_2_1_1_2_1 * r;
    assert(row5 == -m1_0_2_1_1_2_1 + m1_0_2_3_1_2_1 - m1_0_4_1_1_2_1 - m1_0_4_3_1_2_2) by (nonlinear_arith)
        requires
            row5 == m1_0_2_1_1_2_1 * r,
            r == -m0_0_0_0_0_0_0 + m0_0_0_2_0_0_0 - m0_0_2_0_0_0_0 - m0_0_2_2_0_0_1,
            m1_0_2_1_1_2_1 * m0_0_0_0_0_0_0 == m1_0_2_1_1_2_1,
            m1_0_2_1_1_2_1 * m0_0_0_2_0_0_0 == m1_0_2_3_1_2_1,
            m1_0_2_1_1_2_1 * m0_0_2_0_0_0_0 == m1_0_4_1_1_2_1,
            m1_0_2_1_1_2_1 * m0_0_2_2_0_0_1 == m1_0_4_3_1_2_2,
    ;
    assert(p * r == row0 - row1 + row2 + row3 - row4 - row5) by (nonlinear_arith)
        requires
            p == m1_0_1_0_0_1_0 - m1_0_1_0_0_3_0 + m1_0_1_0_2_1_0 + m1_0_1_0_2_3_1 -
                m1_0_1_2_2_1_1 - m1_0_2_1_1_2_1,
            row0 == m1_0_1_0_0_1_0 * r,
            row1 == m1_0_1_0_0_3_0 * r,
            row2 == m1_0_1_0_2_1_0 * r,
            row3 == m1_0_1_0_2_3_1 * r,
            row4 == m1_0_1_2_2_1_1 * r,
            row5 == m1_0_2_1_1_2_1 * r,
    ;
}

/// A cofactor times the defect of a point.
proof fn lemma_associative_product_108(v: Vars, p: int, r: int)
    requires
        p == -mono(v, 1, 2, 0, 1, 1, 0, 0) + mono(v, 1, 2, 0, 1, 1, 2, 0) - mono(v, 1, 2, 0, 1,
            3, 0, 0) - mono(v, 1, 2, 0, 1, 3, 2, 1) - mono(v, 1, 2, 1, 0, 0, 1, 0) + mono(v, 1,
            2, 1, 0, 0, 3, 0),
        r == -mono(v, 0, 0, 0, 0, 0, 0, 0) + mono(v, 0, 0, 0, 2, 0, 0, 0) - mono(v, 0, 0, 2, 0,
            0, 0, 0) - mono(v, 0, 0, 2, 2, 0, 0, 1),
    ensures
        p * r == mono(v, 1, 2, 0, 1, 1, 0, 0) - mono(v, 1, 2, 0, 1, 1, 2, 0) + mono(v, 1, 2, 0, 1, 3,
            0, 0) + mono(v, 1, 2, 0, 1, 3, 2, 1) - mono(v, 1, 2, 0, 3, 1, 0, 0) + mono(v, 1, 2,
            0, 3, 1, 2, 0) - mono(v, 1, 2, 0, 3, 3, 0, 0) - mono(v, 1, 2, 0, 3, 3, 2, 1) +
            mono(v, 1, 2, 1, 0, 0, 1, 0) - mono(v, 1, 2, 1, 0, 0, 3, 0) - mono(v, 1, 2, 1, 2, 0,
            1, 0) + mono(v, 1, 2, 1, 2, 0, 3, 0) + mono(v, 1, 2, 2, 1, 1, 0, 0) - mono(v, 1, 2,
            2, 1, 1, 2, 0) + mono(v, 1, 2, 2, 1, 3, 0, 0) + mono(v, 1, 2, 2, 1, 3, 2, 1) +
            mono(v, 1, 2, 2, 3, 1, 0, 1) - mono(v, 1, 2, 2, 3, 1, 2, 1) + mono(v, 1, 2, 2, 3, 3,
            0, 1) + mono(v, 1, 2, 2, 3, 3, 2, 2) + mono(v, 1, 2, 3, 0, 0, 1, 0) - mono(v, 1, 2,
            3, 0, 0, 3, 0) + mono(v, 1, 2, 3, 2, 0, 1, 1) - mono(v, 1, 2, 3, 2, 0, 3, 1),
{
    let m1_2_0_1_1_0_0 = mono(v, 1, 2, 0, 1, 1, 0, 0);
    let m1_2_0_1_1_2_0 = mono(v, 1, 2, 0, 1, 1, 2, 0);
    let m1_2_0_1_3_0_0 = mono(v, 1, 2, 0, 1, 3, 0, 0);
    let m1_2_0_1_3_2_1 = mono(v, 1, 2, 0, 1, 3, 2, 1);
    let m1_2_1_0_0_1_0 = mono(v, 1, 2, 1, 0, 0, 1, 0);
    let m1_2_1_0_0_3_0 = mono(v, 1, 2, 1, 0, 0, 3, 0);
    let m0_0_0_0_0_0_0 = mono(v, 0, 0, 0, 0, 0, 0, 0);
    let m0_0_0_2_0_0_0 = mono(v, 0, 0, 0, 2, 0, 0, 0);
    let m0_0_2_0_0_0_0 = mono(v, 0, 0, 2, 0, 0, 0, 0);
    let m0_0_2_2_0_0_1 = mono(v, 0, 0, 2, 2, 0, 0, 1);
    let m1_2_0_3_1_0_0 = mono(v, 1, 2, 0, 3, 1, 0, 0);
    let m1_2_2_1_1_0_0 = mono(v, 1, 2, 2, 1, 1, 0, 0);
    let m1_2_2_3_1_0_1 = mono(v, 1, 2, 2, 3, 1, 0, 1);
    let m1_2_0_3_1_2_0 = mono(v, 1, 2, 0, 3, 1, 2, 0);
    let m1_2_2_1_1_2_0 = mono(v, 1, 2, 2, 1, 1, 2, 0);
    let m1_2_2_3_1_2_1 = mono(v, 1, 2, 2, 3, 1, 2, 1);
    let m1_2_0_3_3_0_0 = mono(v, 1, 2, 0, 3, 3, 0, 0);
    let m1_2_2_1_3_0_0 = mono(v, 1, 2, 2, 1, 3, 0, 0);
    let m1_2_2_3_3_0_1 = mono(v, 1, 2, 2, 3, 3, 0, 1);
    let m1_2_0_3_3_2_1 = mono(v, 1, 2, 0, 3, 3, 2, 1);
    let m1_2_2_1_3_2_1 = mono(v, 1, 2, 2, 1, 3, 2, 1);
    let m1_2_2_3_3_2_2 = mono(v, 1, 2, 2, 3, 3, 2, 2);
    let m1_2_1_2_0_1_0 = mono(v, 1, 2, 1, 2, 0, 1, 0);
    let m1_2_3_0_0_1_0 = mono(v, 1, 2, 3, 0, 0, 1, 0);
    let m1_2_3_2_0_1_1 = mono(v, 1, 2, 3, 2, 0, 1, 1);
    let m1_2_1_2_0_3_0 = mono(v, 1, 2, 1, 2, 0, 3, 0);
    let m1_2_3_0_0_3_0 = mono(v, 1, 2, 3, 0, 0, 3, 0);
    let m1_2_3_2_0_3_1 = mono(v, 1, 2, 3, 2, 0, 3, 1);
    lemma_mono_mul(v, 1, 2, 0, 1, 1, 0, 0, 0, 0, 0, 0, 0, 0, 0);
    lemma_mono_mul(v, 1, 2, 0, 1, 1, 0, 0, 0, 0, 0, 2, 0, 0, 0);
    lemma_mono_mul(v, 1, 2, 0, 1, 1, 0, 0, 0, 0, 2, 0, 0, 0, 0);
    lemma_mono_mul(v, 1, 2, 0, 1, 1, 0, 0, 0, 0, 2, 2, 0, 0, 1);
    lemma_mono_mul(v, 1, 2, 0, 1, 1, 2, 0, 0, 0, 0, 0, 0, 0, 0);
    lemma_mono_mul(v, 1, 2, 0, 1, 1, 2, 0, 0, 0, 0, 2, 0, 0, 0);
    lemma_mono_mul(v, 1, 2, 0, 1, 1, 2, 0, 0, 0, 2, 0, 0, 0, 0);
    lemma_mono_mul(v, 1, 2, 0, 1, 1, 2, 0, 0, 0, 2, 2, 0, 0, 1);
    lemma_mono_mul(v, 1, 2, 0, 1, 3, 0, 0, 0, 0, 0, 0, 0, 0, 0);
    lemma_mono_mul(v, 1, 2, 0, 1, 3, 0, 0, 0, 0, 0, 2, 0, 0, 0);
    lemma_mono_mul(v, 1, 2, 0, 1, 3, 0, 0, 0, 0, 2, 0, 0, 0, 0);
    lemma_mono_mul(v, 1, 2, 0, 1, 3, 0, 0, 0, 0, 2, 2, 0, 0, 1);
    lemma_mono_mul(v, 1, 2, 0, 1, 3, 2, 1, 0, 0, 0, 0, 0, 0, 0);
    lemma_mono_mul(v, 1, 2, 0, 1, 3, 2, 1, 0, 0, 0, 2, 0, 0, 0);
    lemma_mono_mul(v, 1, 2, 0, 1, 3, 2, 1, 0, 0, 2, 0, 0, 0, 0);
    lemma_mono_mul(v, 1, 2, 0, 1, 3, 2, 1, 0, 0, 2, 2, 0, 0, 1);
    lemma_mono_mul(v, 1, 2, 1, 0, 0, 1, 0, 0, 0, 0, 0, 0, 0, 0);
    lemma_mono_mul(v, 1, 2, 1, 0, 0, 1, 0, 0, 0, 0, 2, 0, 0, 0);
    lemma_mono_mul(v, 1, 2, 1, 0, 0, 1, 0, 0, 0, 2, 0, 0, 0, 0);
    lemma_mono_mul(v, 1, 2, 1, 0, 0, 1, 0, 0, 0, 2, 2, 0, 0, 1);
    lemma_mono_mul(v, 1, 2, 1, 0, 0, 3, 0, 0, 0, 0, 0, 0, 0, 0);
    lemma_mono_mul(v, 1, 2, 1, 0, 0, 3, 0, 0, 0, 0, 2, 0, 0, 0);
    lemma_mono_mul(v, 1, 2, 1, 0, 0, 3, 0, 0, 0, 2, 0, 0, 0, 0);
    lemma_mono_mul(v, 1, 2, 1, 0, 0, 3, 0, 0, 0, 2, 2, 0, 0, 1);
    let row0 = m1_2_0_1_1_0_0 * r;
    assert(row0 == -m1_2_0_1_1_0_0 + m1_2_0_3_1_0_0 - m1_2_2_1_1_0_0 - m1_2_2_3_1_0_1) by (nonlinear_arith)
        requires
            row0 == m1_2_0_1_1_0_0 * r,
            r == -m0_0_0_0_0_0_0 + m0_0_0_2_0_0_0 - m0_0_2_0_0_0_0 - m0_0_2_2_0_0_1,
            m1_2_0_1_1_0_0 * m0_0_0_0_0_0_0 == m1_2_0_1_1_0_0,
            m1_2_0_1_1_0_0 * m0_0_0_2_0_0_0 == m1_2_0_3_1_0_0,
            m1_2_0_1_1_0_0 * m0_0_2_0_0_0_0 == m1_2_2_1_1_0_0,
            m1_2_0_1_1_0_0 * m0_0_2_2_0_0_1 == m1_2_2_3_1_0_1,
    ;
    let row1 = m1_2_0_1_1_2_0 * r;
    assert(row1 == -m1_2_0_1_1_2_0 + m1_2_0_3_1_2_0 - m1_2_2_1_1_2_0 - m1_2_2_3_1_2_1) by (nonlinear_arith)
        requires
            row1 == m1_2_0_1_1_2_0 * r,
            r == -m0_0_0_0_0_0_0 + m0_0_0_2_0_0_0 - m0_0_2_0_0_0_0 - m0_0_2_2_0_0_1,
            m1_2_0_1_1_2_0 * m0_0_0_0_0_0_0 == m1_2_0_1_1_2_0,
            m1_2_0_1_1_2_0 * m0_0_0_2_0_0_0 == m1_2_0_3_1_2_0,
            m1_2_0_1_1_2_0 * m0_0_2_0_0_0_0 == m1_2_2_1_1_2_0,
            m1_2_0_1_1_2_0 * m0_0_2_2_0_0_1 == m1_2_2_3_1_2_1,
    ;
    let row2 = m1_2_0_1_3_0_0 * r;
    assert(row2 == -m1_2_0_1_3_0_0 + m1_2_0_3_3_0_0 - m1_2_2_1_3_0_0 - m1_2_2_3_3_0_1) by (nonlinear_arith)
        requires
            row2 == m1_2_0_1_3_0_0 * r,
            r == -m0_0_0_0_0_0_0 + m0_0_0_2_0_0_0 - m0_0_2_0_0_0_0 - m0_0_2_2_0_0_1,
            m1_2_0_1_3_0_0 * m0_0_0_0_0_0_0 == m1_2_0_1_3_0_0,
            m1_2_0_1_3_0_0 * m0_0_0_2_0_0_0 == m1_2_0_3_3_0_0,
            m1_2_0_1_3_0_0 * m0_0_2_0_0_0_0 == m1_2_2_1_3_0_0,
            m1_2_0_1_3_0_0 * m0_0_2_2_0_0_1 == m1_2_2_3_3_0_1,
    ;
    let row3 = m1_2_0_1_3_2_1 * r;
    assert(row3 == -m1_2_0_1_3_2_1 + m1_2_0_3_3_2_1 - m1_2_2_1_3_2_1 - m1_2_2_3_3_2_2) by (nonlinear_arith)
        requires
            row3 == m1_2_0_1_3_2_1 * r,
            r == -m0_0_0_0_0_0_0 + m0_0_0_2_0_0_0 - m0_0_2_0_0_0_0 - m0_0_2_2_0_0_1,
            m1_2_0_1_3_2_1 * m0_0_0_0_0_0_0 == m1_2_0_1_3_2_1,
            m1_2_0_1_3_2_1 * m0_0_0_2_0_0_0 == m1_2_0_3_3_2_1,
            m1_2_0_1_3_2_1 * m0_0_2_0_0_0_0 == m1_2_2_1_3_2_1,
            m1_2_0_1_3_2_1 * m0_0_2_2_0_0_1 == m1_2_2_3_3_2_2,
    ;
    let row4 = m1_2_1_0_0_1_0 * r;
    assert(row4 == -m1_2_1_0_0_1_0 + m1_2_1_2_0_1_0 - m1_2_3_0_0_1_0 - m1_2_3_2_0_1_1) by (nonlinear_arith)
        requires
            row4 == m1_2_1_0_0_1_0 * r,
            r == -m0_0_0_0_0_0_0 + m0_0_0_2_0_0_0 - m0_0_2_0_0_0_0 - m0_0_2_2_0_0_1,
            m1_2_1_0_0_1_0 * m0_0_0_0_0_0_0 == m1_2_1_0_0_1_0,
            m1_2_1_0_0_1_0 * m0_0_0_2_0_0_0 == m1_2_1_2_0_1_0,
            m1_2_1_0_0_1_0 * m0_0_2_0_0_0_0 == m1_2_3_0_0_1_0,
            m1_2_1_0_0_1_0 * m0_0_2_2_0_0_1 == m1_2_3_2_0_1_1,
    ;
    let row5 = m1_2_1_0_0_3_0 * r;
    assert(row5 == -m1_2_1_0_0_3_0 + m1_2_1_2_0_3_0 - m1_2_3_0_0_3_0 - m1_2_3_2_0_3_1) by (nonlinear_arith)
        requires
            row5 == m1_2_1_0_0_3_0 * r,
            r == -m0_0_0_0_0_0_0 + m0_0_0_2_0_0_0 - m0_0_2_0_0_0_0 - m0_0_2_2_0_0_1,
            m1_2_1_0_0_3_0 * m0_0_0_0_0_0_0 == m1_2_1_0_0_3_0,
            m1_2_1_0_0_3_0 * m0_0_0_2_0_0_0 == m1_2_1_2_0_3_0,
            m1_2_1_0_0_3_0 * m0_0_2_0_0_0_0 == m1_2_3_0_0_3_0,
            m1_2_1_0_0_3_0 * m0_0_2_2_0_0_1 == m1_2_3_2_0_3_1,
    ;
    assert(p * r == -row0 + row1 - row2 - row3 - row4 + row5) by (nonlinear_arith)
        requires
            p == -m1_2_0_1_1_0_0 + m1_2_0_1_1_2_0 - m1_2_0_1_3_0_0 - m1_2_0_1_3_2_1 -
                m1_2_1_0_0_1_0 + m1_2_1_0_0_3_0,
            row0 == m1_2_0_1_1_0_0 * r,
            row1 == m1_2_0_1_1_2_0 * r,
            row2 == m1_2_0_1_3_0_0 * r,
            row3 == m1_2_0_1_3_2_1 * r,
            row4 == m1_2_1_0_0_1_0 * r,
            row5 == m1_2_1_0_0_3_0 * r,
    ;
}

/// A cofactor times the defect of a point.
proof fn lemma_associative_product_109(v: Vars, p: int, r: int)
    requires
        p == -mono(v, 1, 2, 1, 0, 2, 1, 0) - mono(v, 1, 2, 1, 0, 2, 3, 1) + mono(v, 1, 2, 1, 2,
            2, 1, 1) + mono(v, 1, 2, 1, 2, 2, 3, 2) + mono(v, 1, 2, 2, 1, 1, 2, 1) - mono(v, 1,
            2, 2, 1, 3, 2, 2),
        r == -mono(v, 0, 0, 0, 0, 0, 0, 0) + mono(v, 0, 0, 0, 2, 0, 0, 0) - mono(v, 0, 0, 2, 0,
            0, 0, 0) - mono(v, 0, 0, 2, 2, 0, 0, 1),
    ensures
        p * r == mono(v, 1, 2, 1, 0, 2, 1, 0) + mono(v, 1, 2, 1, 0, 2, 3, 1) - mono(v, 1, 2, 1, 2, 2,
            1, 0) - mono(v, 1, 2, 1, 2, 2, 1, 1) - mono(v, 1, 2, 1, 2, 2, 3, 1) - mono(v, 1, 2,
            1, 2, 2, 3, 2) + mono(v, 1, 2, 1, 4, 2, 1, 1) + mono(v, 1, 2, 1, 4, 2, 3, 2) -
            mono(v, 1, 2, 2, 1, 1, 2, 1) + mono(v, 1, 2, 2, 1, 3, 2, 2) + mono(v, 1, 2, 2, 3, 1,
            2, 1) - mono(v, 1, 2, 2, 3, 3, 2, 2) + mono(v, 1, 2, 3, 0, 2, 1, 0) + mono(v, 1, 2,
            3, 0, 2, 3, 1) - mono(v, 1, 2, 3, 4, 2, 1, 2) - mono(v, 1, 2, 3, 4, 2, 3, 3) -
            mono(v, 1, 2, 4, 1, 1, 2, 1) + mono(v, 1, 2, 4, 1, 3, 2, 2) - mono(v, 1, 2, 4, 3, 1,
            2, 2) + mono(v, 1, 2, 4, 3, 3, 2, 3),
{
    let m1_2_1_0_2_1_0 = mono(v, 1, 2, 1, 0, 2, 1, 0);
    let m1_2_1_0_2_3_1 = mono(v, 1, 2, 1, 0, 2, 3, 1);
    let m1_2_1_2_2_1_1 = mono(v, 1, 2, 1, 2, 2, 1, 1);
    let m1_2_1_2_2_3_2 = mono(v, 1, 2, 1, 2, 2, 3, 2);
    let m1_2_2_1_1_2_1 = mono(v, 1, 2, 2, 1, 1, 2, 1);
    let m1_2_2_1_3_2_2 = mono(v, 1, 2, 2, 1, 3, 2, 2);
    let m0_0_0_0_0_0_0 = mono(v, 0, 0, 0, 0, 0, 0, 0);
    let m0_0_0_2_0_0_0 = mono(v, 0, 0, 0, 2, 0, 0, 0);
    let m0_0_2_0_0_0_0 = mono(v, 0, 0, 2, 0, 0, 0, 0);
    let m0_0_2_2_0_0_1 = mono(v, 0, 0, 2, 2, 0, 0, 1);
    let m1_2_1_2_2_1_0 = mono(v, 1, 2, 1, 2, 2, 1, 0);
    let m1_2_3_0_2_1_0 = mono(v, 1, 2, 3, 0, 2, 1, 0);
    let m1_2_3_2_2_1_1 = mono(v, 1, 2, 3, 2, 2, 1, 1);
    let m1_2_1_2_2_3_1 = mono(v, 1, 2, 1, 2, 2, 3, 1);
    let m1_2_3_0_2_3_1 = mono(v, 1, 2, 3, 0, 2, 3, 1);
    let m1_2_3_2_2_3_2 = mono(v, 1, 2, 3, 2, 2, 3, 2);
    let m1_2_1_4_2_1_1 = mono(v, 1, 2, 1, 4, 2, 1, 1);
    let m1_2_3_4_2_1_2 = mono(v, 1, 2, 3, 4, 2, 1, 2);
    let m1_2_1_4_2_3_2 = mono(v, 1, 2, 1, 4, 2, 3, 2);
    let m1_2_3_4_2_3_3 = mono(v, 1, 2, 3, 4, 2, 3, 3);
    let m1_2_2_3_1_2_1 = mono(v, 1, 2, 2, 3, 1, 2, 1);
    let m1_2_4_1_1_2_1 = mono(v, 1, 2, 4, 1, 1, 2, 1);
    let m1_2_4_3_1_2_2 = mono(v, 1, 2, 4, 3, 1, 2, 2);
    let m1_2_2_3_3_2_2 = mono(v, 1, 2, 2, 3, 3, 2, 2);
    let m1_2_4_1_3_2_2 = mono(v, 1, 2, 4, 1, 3, 2, 2);
    let m1_2_4_3_3_2_3 = mono(v, 1, 2, 4, 3, 3, 2, 3);
    lemma_mono_mul(v, 1, 2, 1, 0, 2, 1, 0, 0, 0, 0, 0, 0, 0, 0);
    lemma_mono_mul(v, 1, 2, 1, 0, 2, 1, 0, 0, 0, 0, 2, 0, 0, 0);
    lemma_mono_mul(v, 1, 2, 1, 0, 2, 1, 0, 0, 0, 2, 0, 0, 0, 0);
    lemma_mono_mul(v, 1, 2, 1, 0, 2, 1, 0, 0, 0, 2, 2, 0, 0, 1);
    lemma_mono_mul(v, 1, 2, 1, 0, 2, 3, 1, 0, 0, 0, 0, 0, 0, 0);
    lemma_mono_mul(v, 1, 2, 1, 0, 2, 3, 1, 0, 0, 0, 2, 0, 0, 0);
    lemma_mono_mul(v, 1, 2, 1, 0, 2, 3, 1, 0, 0, 2, 0, 0, 0, 0);
    lemma_mono_mul(v, 1, 2, 1, 0, 2, 3, 1, 0, 0, 2, 2, 0, 0, 1);
    lemma_mono_mul(v, 1, 2, 1, 2, 2, 1, 1, 0, 0, 0, 0, 0, 0, 0);
    lemma_mono_mul(v, 1, 2, 1, 2, 2, 1, 1, 0, 0, 0, 2, 0, 0, 0);
    lemma_mono_mul(v, 1, 2, 1, 2, 2, 1, 1, 0, 0, 2, 0, 0, 0, 0);
    lemma_mono_mul(v, 1, 2, 1, 2, 2, 1, 1, 0, 0, 2, 2, 0, 0, 1);
    lemma_mono_mul(v, 1, 2, 1, 2, 2, 3, 2, 0, 0, 0, 0, 0, 0, 0);
    lemma_mono_mul(v, 1, 2, 1, 2, 2, 3, 2, 0, 0, 0, 2, 0, 0, 0);
    lemma_mono_mul(v, 1, 2, 1, 2, 2, 3, 2, 0, 0, 2, 0, 0, 0, 0);
    lemma_mono_mul(v, 1, 2, 1, 2, 2, 3, 2, 0, 0, 2, 2, 0, 0, 1);
    lemma_mono_mul(v, 1, 2, 2, 1, 1, 2, 1, 0, 0, 0, 0, 0, 0, 0);
    lemma_mono_mul(v, 1, 2, 2, 1, 1, 2, 1, 0, 0, 0, 2, 0, 0, 0);
    lemma_mono_mul(v, 1, 2, 2, 1, 1, 2, 1, 0, 0, 2, 0, 0, 0, 0);
    lemma_mono_mul(v, 1, 2, 2, 1, 1, 2, 1, 0, 0, 2, 2, 0, 0, 1);
    lemma_mono_mul(v, 1, 2, 2, 1, 3, 2, 2, 0, 0, 0, 0, 0, 0, 0);
    lemma_mono_mul(v, 1, 2, 2, 1, 3, 2, 2, 0, 0, 0, 2, 0, 0, 0);
    lemma_mono_mul(v, 1, 2, 2, 1, 3, 2, 2, 0, 0, 2, 0, 0, 0, 0);
    lemma_mono_mul(v, 1, 2, 2, 1, 3, 2, 2, 0, 0, 2, 2, 0, 0, 1);
    let row0 = m1_2_1_0_2_1_0 * r;
    assert(row0 == -m1_2_1_0_2_1_0 + m1_2_1_2_2_1_0 - m1_2_3_0_2_1_0 - m1_2_3_2_2_1_1) by (nonlinear_arith)
        requires
            row0 == m1_2_1_0_2_1_0 * r,
            r == -m0_0_0_0_0_0_0 + m0_0_0_2_0_0_0 - m0_0_2_0_0_0_0 - m0_0_2_2_0_0_1,
            m1_2_1_0_2_1_0 * m0_0_0_0_0_0_0 == m1_2_1_0_2_1_0,
            m1_2_1_0_2_1_0 * m0_0_0_2_0_0_0 == m1_2_1_2_2_1_0,
            m1_2_1_0_2_1_0 * m0_0_2_0_0_0_0 == m1_2_3_0_2_1_0,
            m1_2_1_0_2_1_0 * m0_0_2_2_0_0_1 == m1_2_3_2_2_1_1,
    ;
    let row1 = m1_2_1_0_2_3_1 * r;
    assert(row1 == -m1_2_1_0_2_3_1 + m1_2_1_2_2_3_1 - m1_2_3_0_2_3_1 - m1_2_3_2_2_3_2) by (nonlinear_arith)
        requires
            row1 == m1_2_1_0_2_3_1 * r,
            r == -m0_0_0_0_0_0_0 + m0_0_0_2_0_0_0 - m0_0_2_0_0_0_0 - m0_0_2_2_0_0_1,
            m1_2_1_0_2_3_1 * m0_0_0_0_0_0_0 == m1_2_1_0_2_3_1,
            m1_2_1_0_2_3_1 * m0_0_0_2_0_0_0 == m1_2_1_2_2_3_1,
            m1_2_1_0_2_3_1 * m0_0_2_0_0_0_0 == m1_2_3_0_2_3_1,
            m1_2_1_0_2_3_1 * m0_0_2_2_0_0_1 == m1_2_3_2_2_3_2,
    ;
    let row2 = m1_2_1_2_2_1_1 * r;
    assert(row2 == -m1_2_1_2_2_1_1 + m1_2_1_4_2_1_1 - m1_2_3_2_2_1_1 - m1_2_3_4_2_1_2) by (nonlinear_arith)
        requires
            row2 == m1_2_1_2_2_1_1 * r,
            r == -m0_0_0_0_0_0_0 + m0_0_0_2_0_0_0 - m0_0_2_0_0_0_0 - m0_0_2_2_0_0_1,
            m1_2_1_2_2_1_1 * m0_0_0_0_0_0_0 == m1_2_1_2_2_1_1,
            m1_2_1_2_2_1_1 * m0_0_0_2_0_0_0 == m1_2_1_4_2_1_1,
            m1_2_1_2_2_1_1 * m0_0_2_0_0_0_0 == m1_2_3_2_2_1_1,
            m1_2_1_2_2_1_1 * m0_0_2_2_0_0_1 == m1_2_3_4_2_1_2,
    ;
    let row3 = m1_2_1_2_2_3_2 * r;
    assert(row3 == -m1_2_1_2_2_3_2 + m1_2_1_4_2_3_2 - m1_2_3_2_2_3_2 - m1_2_3_4_2_3_3) by (nonlinear_arith)
        requires
            row3 == m1_2_1_2_2_3_2 * r,
            r == -m0_0_0_0_0_0_0 + m0_0_0_2_0_0_0 - m0_0_2_0_0_0_0 - m0_0_2_2_0_0_1,
            m1_2_1_2_2_3_2 * m0_0_0_0_0_0_0 == m1_2_1_2_2_3_2,
            m1_2_1_2_2_3_2 * m0_0_0_2_0_0_0 == m1_2_1_4_2_3_2,
            m1_2_1_2_2_3_2 * m0_0_2_0_0_0_0 == m1_2_3_2_2_3_2,
            m1_2_1_2_2_3_2 * m0_0_2_2_0_0_1 == m1_2_3_4_2_3_3,
    ;
    let row4 = m1_2_2_1_1_2_1 * r;
    assert(row4 == -m1_2_2_1_1_2_1 + m1_2_2_3_1_2_1 - m1_2_4_1_1_2_1 - m1_2_4_3_1_2_2) by (nonlinear_arith)
        requires
            row4 == m1_2_2_1_1_2_1 * r,
            r == -m0_0_0_0_0_0_0 + m0_0_0_2_0_0_0 - m0_0_2_0_0_0_0 - m0_0_2_2_0_0_1,
            m1_2_2_1_1_2_1 * m0_0_0_0_0_0_0 == m1_2_2_1_1_2_1,
            m1_2_2_1_1_2_1 * m0_0_0_2_0_0_0 == m1_2_2_3_1_2_1,
            m1_2_2_1_1_2_1 * m0_0_2_0_0_0_0 == m1_2_4_1_1_2_1,
            m1_2_2_1_1_2_1 * m0_0_2_2_0_0_1 == m1_2_4_3_1_2_2,
    ;
    let row5 = m1_2_2_1_3_2_2 * r;
    assert(row5 == -m1_2_2_1_3_2_2 + m1_2_2_3_3_2_2 - m1_2_4_1_3_2_2 - m1_2_4_3_3_2_3) by (nonlinear_arith)
        requires
            row5 == m1_2_2_1_3_2_2 * r,
            r == -m0_0_0_0_0_0_0 + m0_0_0_2_0_0_0 - m0_0_2_0_0_0_0 - m0_0_2_2_0_0_1,
            m1_2_2_1_3_2_2 * m0_0_0_0_0_0_0 == m1_2_2_1_3_2_2,
            m1_2_2_1_3_2_2 * m0_0_0_2_0_0_0 == m1_2_2_3_3_2_2,
            m1_2_2_1_3_2_2 * m0_0_2_0_0_0_0 == m1_2_4_1_3_2_2,
            m1_2_2_1_3_2_2 * m0_0_2_2_0_0_1 == m1_2_4_3_3_2_3,
    ;
    assert(p * r == -row0 - row1 + row2 + row3 + row4 - row5) by (nonlinear_arith)
        requires
            p == -m1_2_1_0_2_1_0 - m1_2_1_0_2_3_1 + m1_2_1_2_2_1_1 + m1_2_1_2_2_3_2 +
                m1_2_2_1_1_2_1 - m1_2_2_1_3_2_2,
            row0 == m1_2_1_0_2_1_0 * r,
            row1 == m1_2_1_0_2_3_1 * r,
            row2 == m1_2_1_2_2_1_1 * r,
            row3 == m1_2_1_2_2_3_2 * r,
            row4 == m1_2_2_1_1_2_1 * r,
            row5 == m1_2_2_1_3_2_2 * r,
    ;
}

/// A cofactor times the defect of a point.
proof fn lemma_associative_product_110(v: Vars, p: int, r: int)
    requires
        p == mono(v, 2, 1, 0, 1, 0, 1, 0) - mono(v, 2, 1, 0, 1, 0, 3, 0) + mono(v, 2, 1, 0, 1, 2,
            1, 0) + mono(v, 2, 1, 0, 1, 2, 3, 1) + mono(v, 2, 1, 1, 0, 1, 0, 0) - mono(v, 2, 1,
            1, 0, 1, 2, 0),
        r == -mono(v, 0, 0, 0, 0, 0, 0, 0) + mono(v, 0, 0, 0, 2, 0, 0, 0) - mono(v, 0, 0, 2, 0,
            0, 0, 0) - mono(v, 0, 0, 2, 2, 0, 0, 1),
    ensures
        p * r == -mono(v, 2, 1, 0, 1, 0, 1, 0) + mono(v, 2, 1, 0, 1, 0, 3, 0) - mono(v, 2, 1, 0, 1,
            2, 1, 0) - mono(v, 2, 1, 0, 1, 2, 3, 1) + mono(v, 2, 1, 0, 3, 0, 1, 0) - mono(v, 2,
            1, 0, 3, 0, 3, 0) + mono(v, 2, 1, 0, 3, 2, 1, 0) + mono(v, 2, 1, 0, 3, 2, 3, 1) -
            mono(v, 2, 1, 1, 0, 1, 0, 0) + mono(v, 2, 1, 1, 0, 1, 2, 0) + mono(v, 2, 1, 1, 2, 1,
            0, 0) - mono(v, 2, 1, 1, 2, 1, 2, 0) - mono(v, 2, 1, 2, 1, 0, 1, 0) + mono(v, 2, 1,
            2, 1, 0, 3, 0) - mono(v, 2, 1, 2, 1, 2, 1, 0) - mono(v, 2, 1, 2, 1, 2, 3, 1) -
            mono(v, 2, 1, 2, 3, 0, 1, 1) + mono(v, 2, 1, 2, 3, 0, 3, 1) - mono(v, 2, 1, 2, 3, 2,
            1, 1) - mono(v, 2, 1, 2, 3, 2, 3, 2) - mono(v, 2, 1, 3, 0, 1, 0, 0) + mono(v, 2, 1,
            3, 0, 1, 2, 0) - mono(v, 2, 1, 3, 2, 1, 0, 1) + mono(v, 2, 1, 3, 2, 1, 2, 1),
{
    let m2_1_0_1_0_1_0 = mono(v, 2, 1, 0, 1, 0, 1, 0);
    let m2_1_0_1_0_3_0 = mono(v, 2, 1, 0, 1, 0, 3, 0);
    let m2_1_0_1_2_1_0 = mono(v, 2, 1, 0, 1, 2, 1, 0);
    let m2_1_0_1_2_3_1 = mono(v, 2, 1, 0, 1, 2, 3, 1);
    let m2_1_1_0_1_0_0 = mono(v, 2, 1, 1, 0, 1, 0, 0);
    let m2_1_1_0_1_2_0 = mono(v, 2, 1, 1, 0, 1, 2, 0);
    let m0_0_0_0_0_0_0 = mono(v, 0, 0, 0, 0, 0, 0, 0);
    let m0_0_0_2_0_0_0 = mono(v, 0, 0, 0, 2, 0, 0, 0);
    let m0_0_2_0_0_0_0 = mono(v, 0, 0, 2, 0, 0, 0, 0);
    let m0_0_2_2_0_0_1 = mono(v, 0, 0, 2, 2, 0, 0, 1);
    let m2_1_0_3_0_1_0 = mono(v, 2, 1, 0, 3, 0, 1, 0);
    let m2_1_2_1_0_1_0 = mono(v, 2, 1, 2, 1, 0, 1, 0);
    let m2_1_2_3_0_1_1 = mono(v, 2, 1, 2, 3, 0, 1, 1);
    let m2_1_0_3_0_3_0 = mono(v, 2, 1, 0, 3, 0, 3, 0);
    let m2_1_2_1_0_3_0 = mono(v, 2, 1, 2, 1, 0, 3, 0);
    let m2_1_2_3_0_3_1 = mono(v, 2, 1, 2, 3, 0, 3, 1);
    let m2_1_0_3_2_1_0 = mono(v, 2, 1, 0, 3, 2, 1, 0);
    let m2_1_2_1_2_1_0 = mono(v, 2, 1, 2, 1, 2, 1, 0);
    let m2_1_2_3_2_1_1 = mono(v, 2, 1, 2, 3, 2, 1, 1);
    let m2_1_0_3_2_3_1 = mono(v, 2, 1, 0, 3, 2, 3, 1);
    let m2_1_2_1_2_3_1 = mono(v, 2, 1, 2, 1, 2, 3, 1);
    let m2_1_2_3_2_3_2 = mono(v, 2, 1, 2, 3, 2, 3, 2);
    let m2_1_1_2_1_0_0 = mono(v, 2, 1, 1, 2, 1, 0, 0);
    let m2_1_3_0_1_0_0 = mono(v, 2, 1, 3, 0, 1, 0, 0);
    let m2_1_3_2_1_0_1 = mono(v, 2, 1, 3, 2, 1, 0, 1);
    let m2_1_1_2_1_2_0 = mono(v, 2, 1, 1, 2, 1, 2, 0);
    let m2_1_3_0_1_2_0 = mono(v, 2, 1, 3, 0, 1, 2, 0);
    let m2_1_3_2_1_2_1 = mono(v, 2, 1, 3, 2, 1, 2, 1);
    lemma_mono_mul(v, 2, 1, 0, 1, 0, 1, 0, 0, 0, 0, 0, 0, 0, 0);
    lemma_mono_mul(v, 2, 1, 0, 1, 0, 1, 0, 0, 0, 0, 2, 0, 0, 0);
    lemma_mono_mul(v, 2, 1, 0, 1, 0, 1, 0, 0, 0, 2, 0, 0, 0, 0);
    lemma_mono_mul(v, 2, 1, 0, 1, 0, 1, 0, 0, 0, 2, 2, 0, 0, 1);
    lemma_mono_mul(v, 2, 1, 0, 1, 0, 3, 0, 0, 0, 0, 0, 0, 0, 0);
    lemma_mono_mul(v, 2, 1, 0, 1, 0, 3, 0, 0, 0, 0, 2, 0, 0, 0);
    lemma_mono_mul(v, 2, 1, 0, 1, 0, 3, 0, 0, 0, 2, 0, 0, 0, 0);
    lemma_mono_mul(v, 2, 1, 0, 1, 0, 3, 0, 0, 0, 2, 2, 0, 0, 1);
    lemma_mono_mul(v, 2, 1, 0, 1, 2, 1, 0, 0, 0, 0, 0, 0, 0, 0);
    lemma_mono_mul(v, 2, 1, 0, 1, 2, 1, 0, 0, 0, 0, 2, 0, 0, 0);
    lemma_mono_mul(v, 2, 1, 0, 1, 2, 1, 0, 0, 0, 2, 0, 0, 0, 0);
    lemma_mono_mul(v, 2, 1, 0, 1, 2, 1, 0, 0, 0, 2, 2, 0, 0, 1);
    lemma_mono_mul(v, 2, 1, 0, 1, 2, 3, 1, 0, 0, 0, 0, 0, 0, 0);
    lemma_mono_mul(v, 2, 1, 0, 1, 2, 3, 1, 0, 0, 0, 2, 0, 0, 0);
    lemma_mono_mul(v, 2, 1, 0, 1, 2, 3, 1, 0, 0, 2, 0, 0, 0, 0);
    lemma_mono_mul(v, 2, 1, 0, 1, 2, 3, 1, 0, 0, 2, 2, 0, 0, 1);
    lemma_mono_mul(v, 2, 1, 1, 0, 1, 0, 0, 0, 0, 0, 0, 0, 0, 0);
    lemma_mono_mul(v, 2, 1, 1, 0, 1, 0, 0, 0, 0, 0, 2, 0, 0, 0);
    lemma_mono_mul(v, 2, 1, 1, 0, 1, 0, 0, 0, 0, 2, 0, 0, 0, 0);
    lemma_mono_mul(v, 2, 1, 1, 0, 1, 0, 0, 0, 0, 2, 2, 0, 0, 1);
    lemma_mono_mul(v, 2, 1, 1, 0, 1, 2, 0, 0, 0, 0, 0, 0, 0, 0);
    lemma_mono_mul(v, 2, 1, 1, 0, 1, 2, 0, 0, 0, 0, 2, 0, 0, 0);
    lemma_mono_mul(v, 2, 1, 1, 0, 1, 2, 0, 0, 0, 2, 0, 0, 0, 0);
    lemma_mono_mul(v, 2, 1, 1, 0, 1, 2, 0, 0, 0, 2, 2, 0, 0, 1);
    let row0 = m2_1_0_1_0_1_0 * r;
    assert(row0 == -m2_1_0_1_0_1_0 + m2_1_0_3_0_1_0 - m2_1_2_1_0_1_0 - m2_1_2_3_0_1_1) by (nonlinear_arith)
        requires
            row0 == m2_1_0_1_0_1_0 * r,
            r == -m0_0_0_0_0_0_0 + m0_0_0_2_0_0_0 - m0_0_2_0_0_0_0 - m0_0_2_2_0_0_1,
            m2_1_0_1_0_1_0 * m0_0_0_0_0_0_0 == m2_1_0_1_0_1_0,
            m2_1_0_1_0_1_0 * m0_0_0_2_0_0_0 == m2_1_0_3_0_1_0,
            m2_1_0_1_0_1_0 * m0_0_2_0_0_0_0 == m2_1_2_1_0_1_0,
            m2_1_0_1_0_1_0 * m0_0_2_2_0_0_1 == m2_1_2_3_0_1_1,
    ;
    let row1 = m2_1_0_1_0_3_0 * r;
    assert(row1 == -m2_1_0_1_0_3_0 + m2_1_0_3_0_3_0 - m2_1_2_1_0_3_0 - m2_1_2_3_0_3_1) by (nonlinear_arith)
        requires
            row1 == m2_1_0_1_0_3_0 * r,
            r == -m0_0_0_0_0_0_0 + m0_0_0_2_0_0_0 - m0_0_2_0_0_0_0 - m0_0_2_2_0_0_1,
            m2_1_0_1_0_3_0 * m0_0_0_0_0_0_0 == m2_1_0_1_0_3_0,
            m2_1_0_1_0_3_0 * m0_0_0_2_0_0_0 == m2_1_0_3_0_3_0,
            m2_1_0_1_0_3_0 * m0_0_2_0_0_0_0 == m2_1_2_1_0_3_0,
            m2_1_0_1_0_3_0 * m0_0_2_2_0_0_1 == m2_1_2_3_0_3_1,
    ;
    let row2 = m2_1_0_1_2_1_0 * r;
    assert(row2 == -m2_1_0_1_2_1_0 + m2_1_0_3_2_1_0 - m2_1_2_1_2_1_0 - m2_1_2_3_2_1_1) by (nonlinear_arith)
        requires
            row2 == m2_1_0_1_2_1_0 * r,
            r == -m0_0_0_0_0_0_0 + m0_0_0_2_0_0_0 - m0_0_2_0_0_0_0 - m0_0_2_2_0_0_1,
            m2_1_0_1_2_1_0 * m0_0_0_0_0_0_0 == m2_1_0_1_2_1_0,
            m2_1_0_1_2_1_0 * m0_0_0_2_0_0_0 == m2_1_0_3_2_1_0,
            m2_1_0_1_2_1_0 * m0_0_2_0_0_0_0 == m2_1_2_1_2_1_0,
            m2_1_0_1_2_1_0 * m0_0_2_2_0_0_1 == m2_1_2_3_2_1_1,
    ;
    let row3 = m2_1_0_1_2_3_1 * r;
    assert(row3 == -m2_1_0_1_2_3_1 + m2_1_0_3_2_3_1 - m2_1_2_1_2_3_1 - m2_1_2_3_2_3_2) by (nonlinear_arith)
        requires
            row3 == m2_1_0_1_2_3_1 * r,
            r == -m0_0_0_0_0_0_0 + m0_0_0_2_0_0_0 - m0_0_2_0_0_0_0 - m0_0_2_2_0_0_1,
            m2_1_0_1_2_3_1 * m0_0_0_0_0_0_0 == m2_1_0_1_2_3_1,
            m2_1_0_1_2_3_1 * m0_0_0_2_0_0_0 == m2_1_0_3_2_3_1,
            m2_1_0_1_2_3_1 * m0_0_2_0_0_0_0 == m2_1_2_1_2_3_1,
            m2_1_0_1_2_3_1 * m0_0_2_2_0_0_1 == m2_1_2_3_2_3_2,
    ;
    let row4 = m2_1_1_0_1_0_0 * r;
    assert(row4 == -m2_1_1_0_1_0_0 + m2_1_1_2_1_0_0 - m2_1_3_0_1_0_0 - m2_1_3_2_1_0_1) by (nonlinear_arith)
        requires
            row4 == m2_1_1_0_1_0_0 * r,
            r == -m0_0_0_0_0_0_0 + m0_0_0_2_0_0_0 - m0_0_2_0_0_0_0 - m0_0_2_2_0_0_1,
            m2_1_1_0_1_0_0 * m0_0_0_0_0_0_0 == m2_1_1_0_1_0_0,
            m2_1_1_0_1_0_0 * m0_0_0_2_0_0_0 == m2_1_1_2_1_0_0,
            m2_1_1_0_1_0_0 * m0_0_2_0_0_0_0 == m2_1_3_0_1_0_0,
            m2_1_1_0_1_0_0 * m0_0_2_2_0_0_1 == m2_1_3_2_1_0_1,
    ;
    let row5 = m2_1_1_0_1_2_0 * r;
    assert(row5 == -m2_1_1_0_1_2_0 + m2_1_1_2_1_2_0 - m2_1_3_0_1_2_0 - m2_1_3_2_1_2_1) by (nonlinear_arith)
        requires
            row5 == m2_1_1_0_1_2_0 * r,
            r == -m0_0_0_0_0_0_0 + m0_0_0_2_0_0_0 - m0_0_2_0_0_0_0 - m0_0_2_2_0_0_1,
            m2_1_1_0_1_2_0 * m0_0_0_0_0_0_0 == m2_1_1_0_1_2_0,
            m2_1_1_0_1_2_0 * m0_0_0_2_0_0_0 == m2_1_1_2_1_2_0,
            m2_1_1_0_1_2_0 * m0_0_2_0_0_0_0 == m2_1_3_0_1_2_0,
            m2_1_1_0_1_2_0 * m0_0_2_2_0_0_1 == m2_1_3_2_1_2_1,
    ;
    assert(p * r == row0 - row1 + row2 + row3 + row4 - row5) by (nonlinear_arith)
        requires
            p == m2_1_0_1_0_1_0 - m2_1_0_1_0_3_0 + m2_1_0_1_2_1_0 + m2_1_0_1_2_3_1 +
                m2_1_1_0_1_0_0 - m2_1_1_0_1_2_0,
            row0 == m2_1_0_1_0_1_0 * r,
            row1 == m2_1_0_1_0_3_0 * r,
            row2 == m2_1_0_1_2_1_0 * r,
            row3 == m2_1_0_1_2_3_1 * r,
            row4 == m2_1_1_0_1_0_0 * r,
            row5 == m2_1_1_0_1_2_0 * r,
    ;
}

/// A cofactor times the defect of a point.
proof fn lemma_associative_product_111(v: Vars, p: int, r: int)
    requires
        p == mono(v, 2, 1, 1, 0, 3, 0, 0) + mono(v, 2, 1, 1, 0, 3, 2, 1) + mono(v, 2, 1, 1, 2, 1,
            2, 1) - mono(v, 2, 1, 1, 2, 3, 2, 2) + mono(v, 2, 1, 2, 1, 2, 1, 1) + mono(v, 2, 1,
            2, 1, 2, 3, 2),
        r == -mono(v, 0, 0, 0, 0, 0, 0, 0) + mono(v, 0, 0, 0, 2, 0, 0, 0) - mono(v, 0, 0, 2, 0,
            0, 0, 0) - mono(v, 0, 0, 2, 2, 0, 0, 1),
    ensures
        p * r == -mono(v, 2, 1, 1, 0, 3, 0, 0) - mono(v, 2, 1, 1, 0, 3, 2, 1) - mono(v, 2, 1, 1, 2,
            1, 2, 1) + mono(v, 2, 1, 1, 2, 3, 0, 0) + mono(v, 2, 1, 1, 2, 3, 2, 1) + mono(v, 2,
            1, 1, 2, 3, 2, 2) + mono(v, 2, 1, 1, 4, 1, 2, 1) - mono(v, 2, 1, 1, 4, 3, 2, 2) -
            mono(v, 2, 1, 2, 1, 2, 1, 1) - mono(v, 2, 1, 2, 1, 2, 3, 2) + mono(v, 2, 1, 2, 3, 2,
            1, 1) + mono(v, 2, 1, 2, 3, 2, 3, 2) - mono(v, 2, 1, 3, 0, 3, 0, 0) - mono(v, 2, 1,
            3, 0, 3, 2, 1) - mono(v, 2, 1, 3, 2, 1, 2, 1) - mono(v, 2, 1, 3, 2, 3, 0, 1) -
            mono(v, 2, 1, 3, 4, 1, 2, 2) + mono(v, 2, 1, 3, 4, 3, 2, 3) - mono(v, 2, 1, 4, 1, 2,
            1, 1) - mono(v, 2, 1, 4, 1, 2, 3, 2) - mono(v, 2, 1, 4, 3, 2, 1, 2) - mono(v, 2, 1,
            4, 3, 2, 3, 3),
{
    let m2_1_1_0_3_0_0 = mono(v, 2, 1, 1, 0, 3, 0, 0);
    let m2_1_1_0_3_2_1 = mono(v, 2, 1, 1, 0, 3, 2, 1);
    let m2_1_1_2_1_2_1 = mono(v, 2, 1, 1, 2, 1, 2, 1);
    let m2_1_1_2_3_2_2 = mono(v, 2, 1, 1, 2, 3, 2, 2);
    let m2_1_2_1_2_1_1 = mono(v, 2, 1, 2, 1, 2, 1, 1);
    let m2_1_2_1_2_3_2 = mono(v, 2, 1, 2, 1, 2, 3, 2);
    let m0_0_0_0_0_0_0 = mono(v, 0, 0, 0, 0, 0, 0, 0);
    let m0_0_0_2_0_0_0 = mono(v, 0, 0, 0, 2, 0, 0, 0);
    let m0_0_2_0_0_0_0 = mono(v, 0, 0, 2, 0, 0, 0, 0);
    let m0_0_2_2_0_0_1 = mono(v, 0, 0, 2, 2, 0, 0, 1);
    let m2_1_1_2_3_0_0 = mono(v, 2, 1, 1, 2, 3, 0, 0);
    let m2_1_3_0_3_0_0 = mono(v, 2, 1, 3, 0, 3, 0, 0);
    let m2_1_3_2_3_0_1 = mono(v, 2, 1, 3, 2, 3, 0, 1);
    let m2_1_1_2_3_2_1 = mono(v, 2, 1, 1, 2, 3, 2, 1);
    let m2_1_3_0_3_2_1 = mono(v, 2, 1, 3, 0, 3, 2, 1);
    let m2_1_3_2_3_2_2 = mono(v, 2, 1, 3, 2, 3, 2, 2);
    let m2_1_1_4_1_2_1 = mono(v, 2, 1, 1, 4, 1, 2, 1);
    let m2_1_3_2_1_2_1 = mono(v, 2, 1, 3, 2, 1, 2, 1);
    let m2_1_3_4_1_2_2 = mono(v, 2, 1, 3, 4, 1, 2, 2);
    let m2_1_1_4_3_2_2 = mono(v, 2, 1, 1, 4, 3, 2, 2);
    let m2_1_3_4_3_2_3 = mono(v, 2, 1, 3, 4, 3, 2, 3);
    let m2_1_2_3_2_1_1 = mono(v, 2, 1, 2, 3, 2, 1, 1);
    let m2_1_4_1_2_1_1 = mono(v, 2, 1, 4, 1, 2, 1, 1);
    let m2_1_4_3_2_1_2 = mono(v, 2, 1, 4, 3, 2, 1, 2);
    let m2_1_2_3_2_3_2 = mono(v, 2, 1, 2, 3, 2, 3, 2);
    let m2_1_4_1_2_3_2 = mono(v, 2, 1, 4, 1, 2, 3, 2);
    let m2_1_4_3_2_3_3 = mono(v, 2, 1, 4, 3, 2, 3, 3);
    lemma_mono_mul(v, 2, 1, 1, 0, 3, 0, 0, 0, 0, 0, 0, 0, 0, 0);
    lemma_mono_mul(v, 2, 1, 1, 0, 3, 0, 0, 0, 0, 0, 2, 0, 0, 0);
    lemma_mono_mul(v, 2, 1, 1, 0, 3, 0, 0, 0, 0, 2, 0, 0, 0, 0);
    lemma_mono_mul(v, 2, 1, 1, 0, 3, 0, 0, 0, 0, 2, 2, 0, 0, 1);
    lemma_mono_mul(v, 2, 1, 1, 0, 3, 2, 1, 0, 0, 0, 0, 0, 0, 0);
    lemma_mono_mul(v, 2, 1, 1, 0, 3, 2, 1, 0, 0, 0, 2, 0, 0, 0);
    lemma_mono_mul(v, 2, 1, 1, 0, 3, 2, 1, 0, 0, 2, 0, 0, 0, 0);
    lemma_mono_mul(v, 2, 1, 1, 0, 3, 2, 1, 0, 0, 2, 2, 0, 0, 1);
    lemma_mono_mul(v, 2, 1, 1, 2, 1, 2, 1, 0, 0, 0, 0, 0, 0, 0);
    lemma_mono_mul(v, 2, 1, 1, 2, 1, 2, 1, 0, 0, 0, 2, 0, 0, 0);
    lemma_mono_mul(v, 2, 1, 1, 2, 1, 2, 1, 0, 0, 2, 0, 0, 0, 0);
    lemma_mono_mul(v, 2, 1, 1, 2, 1, 2, 1, 0, 0, 2, 2, 0, 0, 1);
    lemma_mono_mul(v, 2, 1, 1, 2, 3, 2, 2, 0, 0, 0, 0, 0, 0, 0);
    lemma_mono_mul(v, 2, 1, 1, 2, 3, 2, 2, 0, 0, 0, 2, 0, 0, 0);
    lemma_mono_mul(v, 2, 1, 1, 2, 3, 2, 2, 0, 0, 2, 0, 0, 0, 0);
    lemma_mono_mul(v, 2, 1, 1, 2, 3, 2, 2, 0, 0, 2, 2, 0, 0, 1);
    lemma_mono_mul(v, 2, 1, 2, 1, 2, 1, 1, 0, 0, 0, 0, 0, 0, 0);
    lemma_mono_mul(v, 2, 1, 2, 1, 2, 1, 1, 0, 0, 0, 2, 0, 0, 0);
    lemma_mono_mul(v, 2, 1, 2, 1, 2, 1, 1, 0, 0, 2, 0, 0, 0, 0);
    lemma_mono_mul(v, 2, 1, 2, 1, 2, 1, 1, 0, 0, 2, 2, 0, 0, 1);
    lemma_mono_mul(v, 2, 1, 2, 1, 2, 3, 2, 0, 0, 0, 0, 0, 0, 0);
    lemma_mono_mul(v, 2, 1, 2, 1, 2, 3, 2, 0, 0, 0, 2, 0, 0, 0);
    lemma_mono_mul(v, 2, 1, 2, 1, 2, 3, 2, 0, 0, 2, 0, 0, 0, 0);
    lemma_mono_mul(v, 2, 1, 2, 1, 2, 3, 2, 0, 0, 2, 2, 0, 0, 1);
    let row0 = m2_1_1_0_3_0_0 * r;
    assert(row0 == -m2_1_1_0_3_0_0 + m2_1_1_2_3_0_0 - m2_1_3_0_3_0_0 - m2_1_3_2_3_0_1) by (nonlinear_arith)
        requires
            row0 == m2_1_1_0_3_0_0 * r,
            r == -m0_0_0_0_0_0_0 + m0_0_0_2_0_0_0 - m0_0_2_0_0_0_0 - m0_0_2_2_0_0_1,
            m2_1_1_0_3_0_0 * m0_0_0_0_0_0_0 == m2_1_1_0_3_0_0,
            m2_1_1_0_3_0_0 * m0_0_0_2_0_0_0 == m2_1_1_2_3_0_0,
            m2_1_1_0_3_0_0 * m0_0_2_0_0_0_0 == m2_1_3_0_3_0_0,
            m2_1_1_0_3_0_0 * m0_0_2_2_0_0_1 == m2_1_3_2_3_0_1,
    ;
    let row1 = m2_1_1_0_3_2_1 * r;
    assert(row1 == -m2_1_1_0_3_2_1 + m2_1_1_2_3_2_1 - m2_1_3_0_3_2_1 - m2_1_3_2_3_2_2) by (nonlinear_arith)
        requires
            row1 == m2_1_1_0_3_2_1 * r,
            r == -m0_0_0_0_0_0_0 + m0_0_0_2_0_0_0 - m0_0_2_0_0_0_0 - m0_0_2_2_0_0_1,
            m2_1_1_0_3_2_1 * m0_0_0_0_0_0_0 == m2_1_1_0_3_2_1,
            m2_1_1_0_3_2_1 * m0_0_0_2_0_0_0 == m2_1_1_2_3_2_1,
            m2_1_1_0_3_2_1 * m0_0_2_0_0_0_0 == m2_1_3_0_3_2_1,
            m2_1_1_0_3_2_1 * m0_0_2_2_0_0_1 == m2_1_3_2_3_2_2,
    ;
    let row2 = m2_1_1_2_1_2_1 * r;
    assert(row2 == -m2_1_1_2_1_2_1 + m2_1_1_4_1_2_1 - m2_1_3_2_1_2_1 - m2_1_3_4_1_2_2) by (nonlinear_arith)
        requires
            row2 == m2_1_1_2_1_2_1 * r,
            r == -m0_0_0_0_0_0_0 + m0_0_0_2_0_0_0 - m0_0_2_0_0_0_0 - m0_0_2_2_0_0_1,
            m2_1_1_2_1_2_1 * m0_0_0_0_0_0_0 == m2_1_1_2_1_2_1,
            m2_1_1_2_1_2_1 * m0_0_0_2_0_0_0 == m2_1_1_4_1_2_1,
            m2_1_1_2_1_2_1 * m0_0_2_0_0_0_0 == m2_1_3_2_1_2_1,
            m2_1_1_2_1_2_1 * m0_0_2_2_0_0_1 == m2_1_3_4_1_2_2,
    ;
    let row3 = m2_1_1_2_3_2_2 * r;
    assert(row3 == -m2_1_1_2_3_2_2 + m2_1_1_4_3_2_2 - m2_1_3_2_3_2_2 - m2_1_3_4_3_2_3) by (nonlinear_arith)
        requires
            row3 == m2_1_1_2_3_2_2 * r,
            r == -m0_0_0_0_0_0_0 + m0_0_0_2_0_0_0 - m0_0_2_0_0_0_0 - m0_0_2_2_0_0_1,
            m2_1_1_2_3_2_2 * m0_0_0_0_0_0_0 == m2_1_1_2_3_2_2,
            m2_1_1_2_3_2_2 * m0_0_0_2_0_0_0 == m2_1_1_4_3_2_2,
            m2_1_1_2_3_2_2 * m0_0_2_0_0_0_0 == m2_1_3_2_3_2_2,
            m2_1_1_2_3_2_2 * m0_0_2_2_0_0_1 == m2_1_3_4_3_2_3,
    ;
    let row4 = m2_1_2_1_2_1_1 * r;
    assert(row4 == -m2_1_2_1_2_1_1 + m2_1_2_3_2_1_1 - m2_1_4_1_2_1_1 - m2_1_4_3_2_1_2) by (nonlinear_arith)
        requires
            row4 == m2_1_2_1_2_1_1 * r,
            r == -m0_0_0_0_0_0_0 + m0_0_0_2_0_0_0 - m0_0_2_0_0_0_0 - m0_0_2_2_0_0_1,
            m2_1_2_1_2_1_1 * m0_0_0_0_0_0_0 == m2_1_2_1_2_1_1,
            m2_1_2_1_2_1_1 * m0_0_0_2_0_0_0 == m2_1_2_3_2_1_1,
            m2_1_2_1_2_1_1 * m0_0_2_0_0_0_0 == m2_1_4_1_2_1_1,
            m2_1_2_1_2_1_1 * m0_0_2_2_0_0_1 == m2_1_4_3_2_1_2,
    ;
    let row5 = m2_1_2_1_2_3_2 * r;
    assert(row5 == -m2_1_2_1_2_3_2 + m2_1_2_3_2_3_2 - m2_1_4_1_2_3_2 - m2_1_4_3_2_3_3) by (nonlinear_arith)
        requires
            row5 == m2_1_2_1_2_3_2 * r,
            r == -m0_0_0_0_0_0_0 + m0_0_0_2_0_0_0 - m0_0_2_0_0_0_0 - m0_0_2_2_0_0_1,
            m2_1_2_1_2_3_2 * m0_0_0_0_0_0_0 == m2_1_2_1_2_3_2,
            m2_1_2_1_2_3_2 * m0_0_0_2_0_0_0 == m2_1_2_3_2_3_2,
            m2_1_2_1_2_3_2 * m0_0_2_0_0_0_0 == m2_1_4_1_2_3_2,
            m2_1_2_1_2_3_2 * m0_0_2_2_0_0_1 == m2_1_4_3_2_3_3,
    ;
    assert(p * r == row0 + row1 + row2 - row3 + row4 + row5) by (nonlinear_arith)
        requires
            p == m2_1_1_0_3_0_0 + m2_1_1_0_3_2_1 + m2_1_1_2_1_2_1 - m2_1_1_2_3_2_2 +
                m2_1_2_1_2_1_1 + m2_1_2_1_2_3_2,
            row0 == m2_1_1_0_3_0_0 * r,
            row1 == m2_1_1_0_3_2_1 * r,
            row2 == m2_1_1_2_1_2_1 * r,
            row3 == m2_1_1_2_3_2_2 * r,
            row4 == m2_1_2_1_2_1_1 * r,
            row5 == m2_1_2_1_2_3_2 * r,
    ;
}

/// A cofactor times the defect of a point.
proof fn lemma_associative_product_112(v: Vars, p: int, r: int)
    requires
        p == mono(v, 3, 0, 0, 1, 1, 0, 0) - mono(v, 3, 0, 0, 1, 1, 2, 0) + mono(v, 3, 0, 0, 1, 3,
            0, 0) + mono(v, 3, 0, 0, 1, 3, 2, 1) + mono(v, 3, 0, 1, 0, 0, 1, 0) - mono(v, 3, 0,
            1, 0, 0, 3, 0),
        r == -mono(v, 0, 0, 0, 0, 0, 0, 0) + mono(v, 0, 0, 0, 2, 0, 0, 0) - mono(v, 0, 0, 2, 0,
            0, 0, 0) - mono(v, 0, 0, 2, 2, 0, 0, 1),
    ensures
        p * r == -mono(v, 3, 0, 0, 1, 1, 0, 0) + mono(v, 3, 0, 0, 1, 1, 2, 0) - mono(v, 3, 0, 0, 1,
            3, 0, 0) - mono(v, 3, 0, 0, 1, 3, 2, 1) + mono(v, 3, 0, 0, 3, 1, 0, 0) - mono(v, 3,
            0, 0, 3, 1, 2, 0) + mono(v, 3, 0, 0, 3, 3, 0, 0) + mono(v, 3, 0, 0, 3, 3, 2, 1) -
            mono(v, 3, 0, 1, 0, 0, 1, 0) + mono(v, 3, 0, 1, 0, 0, 3, 0) + mono(v, 3, 0, 1, 2, 0,
            1, 0) - mono(v, 3, 0, 1, 2, 0, 3, 0) - mono(v, 3, 0, 2, 1, 1, 0, 0) + mono(v, 3, 0,
            2, 1, 1, 2, 0) - mono(v, 3, 0, 2, 1, 3, 0, 0) - mono(v, 3, 0, 2, 1, 3, 2, 1) -
            mono(v, 3, 0, 2, 3, 1, 0, 1) + mono(v, 3, 0, 2, 3, 1, 2, 1) - mono(v, 3, 0, 2, 3, 3,
            0, 1) - mono(v, 3, 0, 2, 3, 3, 2, 2) - mono(v, 3, 0, 3, 0, 0, 1, 0) + mono(v, 3, 0,
            3, 0, 0, 3, 0) - mono(v, 3, 0, 3, 2, 0, 1, 1) + mono(v, 3, 0, 3, 2, 0, 3, 1),
{
    let m3_0_0_1_1_0_0 = mono(v, 3, 0, 0, 1, 1, 0, 0);
    let m3_0_0_1_1_2_0 = mono(v, 3, 0, 0, 1, 1, 2, 0);
    let m3_0_0_1_3_0_0 = mono(v, 3, 0, 0, 1, 3, 0, 0);
    let m3_0_0_1_3_2_1 = mono(v, 3, 0, 0, 1, 3, 2, 1);
    let m3_0_1_0_0_1_0 = mono(v, 3, 0, 1, 0, 0, 1, 0);
    let m3_0_1_0_0_3_0 = mono(v, 3, 0, 1, 0, 0, 3, 0);
    let m0_0_0_0_0_0_0 = mono(v, 0, 0, 0, 0, 0, 0, 0);
    let m0_0_0_2_0_0_0 = mono(v, 0, 0, 0, 2, 0, 0, 0);
    let m0_0_2_0_0_0_0 = mono(v, 0, 0, 2, 0, 0, 0, 0);
    let m0_0_2_2_0_0_1 = mono(v, 0, 0, 2, 2, 0, 0, 1);
    let m3_0_0_3_1_0_0 = mono(v, 3, 0, 0, 3, 1, 0, 0);
    let m3_0_2_1_1_0_0 = mono(v, 3, 0, 2, 1, 1, 0, 0);
    let m3_0_2_3_1_0_1 = mono(v, 3, 0, 2, 3, 1, 0, 1);
    let m3_0_0_3_1_2_0 = mono(v, 3, 0, 0, 3, 1, 2, 0);
    let m3_0_2_1_1_2_0 = mono(v, 3, 0, 2, 1, 1, 2, 0);
    let m3_0_2_3_1_2_1 = mono(v, 3, 0, 2, 3, 1, 2, 1);
    let m3_0_0_3_3_0_0 = mono(v, 3, 0, 0, 3, 3, 0, 0);
    let m3_0_2_1_3_0_0 = mono(v, 3, 0, 2, 1, 3, 0, 0);
    let m3_0_2_3_3_0_1 = mono(v, 3, 0, 2, 3, 3, 0, 1);
    let m3_0_0_3_3_2_1 = mono(v, 3, 0, 0, 3, 3, 2, 1);
    let m3_0_2_1_3_2_1 = mono(v, 3, 0, 2, 1, 3, 2, 1);
    let m3_0_2_3_3_2_2 = mono(v, 3, 0, 2, 3, 3, 2, 2);
    let m3_0_1_2_0_1_0 = mono(v, 3, 0, 1, 2, 0, 1, 0);
    let m3_0_3_0_0_1_0 = mono(v, 3, 0, 3, 0, 0, 1, 0);
    let m3_0_3_2_0_1_1 = mono(v, 3, 0, 3, 2, 0, 1, 1);
    let m3_0_1_2_0_3_0 = mono(v, 3, 0, 1, 2, 0, 3, 0);
    let m3_0_3_0_0_3_0 = mono(v, 3, 0, 3, 0, 0, 3, 0);
    let m3_0_3_2_0_3_1 = mono(v, 3, 0, 3, 2, 0, 3, 1);
    lemma_mono_mul(v, 3, 0, 0, 1, 1, 0, 0, 0, 0, 0, 0, 0, 0, 0);
    lemma_mono_mul(v, 3, 0, 0, 1, 1, 0, 0, 0, 0, 0, 2, 0, 0, 0);
    lemma_mono_mul(v, 3, 0, 0, 1, 1, 0, 0, 0, 0, 2, 0, 0, 0, 0);
    lemma_mono_mul(v, 3, 0, 0, 1, 1, 0, 0, 0, 0, 2, 2, 0, 0, 1);
    lemma_mono_mul(v, 3, 0, 0, 1, 1, 2, 0, 0, 0, 0, 0, 0, 0, 0);
    lemma_mono_mul(v, 3, 0, 0, 1, 1, 2, 0, 0, 0, 0, 2, 0, 0, 0);
    lemma_mono_mul(v, 3, 0, 0, 1, 1, 2, 0, 0, 0, 2, 0, 0, 0, 0);
    lemma_mono_mul(v, 3, 0, 0, 1, 1, 2, 0, 0, 0, 2, 2, 0, 0, 1);
    lemma_mono_mul(v, 3, 0, 0, 1, 3, 0, 0, 0, 0, 0, 0, 0, 0, 0);
    lemma_mono_mul(v, 3, 0, 0, 1, 3, 0, 0, 0, 0, 0, 2, 0, 0, 0);
    lemma_mono_mul(v, 3, 0, 0, 1, 3, 0, 0, 0, 0, 2, 0, 0, 0, 0);
    lemma_mono_mul(v, 3, 0, 0, 1, 3, 0, 0, 0, 0, 2, 2, 0, 0, 1);
    lemma_mono_mul(v, 3, 0, 0, 1, 3, 2, 1, 0, 0, 0, 0, 0, 0, 0);
    lemma_mono_mul(v, 3, 0, 0, 1, 3, 2, 1, 0, 0, 0, 2, 0, 0, 0);
    lemma_mono_mul(v, 3, 0, 0, 1, 3, 2, 1, 0, 0, 2, 0, 0, 0, 0);
    lemma_mono_mul(v, 3, 0, 0, 1, 3, 2, 1, 0, 0, 2, 2, 0, 0, 1);
    lemma_mono_mul(v, 3, 0, 1, 0, 0, 1, 0, 0, 0, 0, 0, 0, 0, 0);
    lemma_mono_mul(v, 3, 0, 1, 0, 0, 1, 0, 0, 0, 0, 2, 0, 0, 0);
    lemma_mono_mul(v, 3, 0, 1, 0, 0, 1, 0, 0, 0, 2, 0, 0, 0, 0);
    lemma_mono_mul(v, 3, 0, 1, 0, 0, 1, 0, 0, 0, 2, 2, 0, 0, 1);
    lemma_mono_mul(v, 3, 0, 1, 0, 0, 3, 0, 0, 0, 0, 0, 0, 0, 0);
    lemma_mono_mul(v, 3, 0, 1, 0, 0, 3, 0, 0, 0, 0, 2, 0, 0, 0);
    lemma_mono_mul(v, 3, 0, 1, 0, 0, 3, 0, 0, 0, 2, 0, 0, 0, 0);
    lemma_mono_mul(v, 3, 0, 1, 0, 0, 3, 0, 0, 0, 2, 2, 0, 0, 1);
    let row0 = m3_0_0_1_1_0_0 * r;
    assert(row0 == -m3_0_0_1_1_0_0 + m3_0_0_3_1_0_0 - m3_0_2_1_1_0_0 - m3_0_2_3_1_0_1) by (nonlinear_arith)
        requires
            row0 == m3_0_0_1_1_0_0 * r,
            r == -m0_0_0_0_0_0_0 + m0_0_0_2_0_0_0 - m0_0_2_0_0_0_0 - m0_0_2_2_0_0_1,
            m3_0_0_1_1_0_0 * m0_0_0_0_0_0_0 == m3_0_0_1_1_0_0,
            m3_0_0_1_1_0_0 * m0_0_0_2_0_0_0 == m3_0_0_3_1_0_0,
            m3_0_0_1_1_0_0 * m0_0_2_0_0_0_0 == m3_0_2_1_1_0_0,
            m3_0_0_1_1_0_0 * m0_0_2_2_0_0_1 == m3_0_2_3_1_0_1,
    ;
    let row1 = m3_0_0_1_1_2_0 * r;
    assert(row1 == -m3_0_0_1_1_2_0 + m3_0_0_3_1_2_0 - m3_0_2_1_1_2_0 - m3_0_2_3_1_2_1) by (nonlinear_arith)
        requires
            row1 == m3_0_0_1_1_2_0 * r,
            r == -m0_0_0_0_0_0_0 + m0_0_0_2_0_0_0 - m0_0_2_0_0_0_0 - m0_0_2_2_0_0_1,
            m3_0_0_1_1_2_0 * m0_0_0_0_0_0_0 == m3_0_0_1_1_2_0,
            m3_0_0_1_1_2_0 * m0_0_0_2_0_0_0 == m3_0_0_3_1_2_0,
            m3_0_0_1_1_2_0 * m0_0_2_0_0_0_0 == m3_0_2_1_1_2_0,
            m3_0_0_1_1_2_0 * m0_0_2_2_0_0_1 == m3_0_2_3_1_2_1,
    ;
    let row2 = m3_0_0_1_3_0_0 * r;
    assert(row2 == -m3_0_0_1_3_0_0 + m3_0_0_3_3_0_0 - m3_0_2_1_3_0_0 - m3_0_2_3_3_0_1) by (nonlinear_arith)
        requires
            row2 == m3_0_0_1_3_0_0 * r,
            r == -m0_0_0_0_0_0_0 + m0_0_0_2_0_0_0 - m0_0_2_0_0_0_0 - m0_0_2_2_0_0_1,
            m3_0_0_1_3_0_0 * m0_0_0_0_0_0_0 == m3_0_0_1_3_0_0,
            m3_0_0_1_3_0_0 * m0_0_0_2_0_0_0 == m3_0_0_3_3_0_0,
            m3_0_0_1_3_0_0 * m0_0_2_0_0_0_0 == m3_0_2_1_3_0_0,
            m3_0_0_1_3_0_0 * m0_0_2_2_0_0_1 == m3_0_2_3_3_0_1,
    ;
    let row3 = m3_0_0_1_3_2_1 * r;
    assert(row3 == -m3_0_0_1_3_2_1 + m3_0_0_3_3_2_1 - m3_0_2_1_3_2_1 - m3_0_2_3_3_2_2) by (nonlinear_arith)
        requires
            row3 == m3_0_0_1_3_2_1 * r,
            r == -m0_0_0_0_0_0_0 + m0_0_0_2_0_0_0 - m0_0_2_0_0_0_0 - m0_0_2_2_0_0_1,
            m3_0_0_1_3_2_1 * m0_0_0_0_0_0_0 == m3_0_0_1_3_2_1,
            m3_0_0_1_3_2_1 * m0_0_0_2_0_0_0 == m3_0_0_3_3_2_1,
            m3_0_0_1_3_2_1 * m0_0_2_0_0_0_0 == m3_0_2_1_3_2_1,
            m3_0_0_1_3_2_1 * m0_0_2_2_0_0_1 == m3_0_2_3_3_2_2,
    ;
    let row4 = m3_0_1_0_0_1_0 * r;
    assert(row4 == -m3_0_1_0_0_1_0 + m3_0_1_2_0_1_0 - m3_0_3_0_0_1_0 - m3_0_3_2_0_1_1) by (nonlinear_arith)
        requires
            row4 == m3_0_1_0_0_1_0 * r,
            r == -m0_0_0_0_0_0_0 + m0_0_0_2_0_0_0 - m0_0_2_0_0_0_0 - m0_0_2_2_0_0_1,
            m3_0_1_0_0_1_0 * m0_0_0_0_0_0_0 == m3_0_1_0_0_1_0,
            m3_0_1_0_0_1_0 * m0_0_0_2_0_0_0 == m3_0_1_2_0_1_0,
            m3_0_1_0_0_1_0 * m0_0_2_0_0_0_0 == m3_0_3_0_0_1_0,
            m3_0_1_0_0_1_0 * m0_0_2_2_0_0_1 == m3_0_3_2_0_1_1,
    ;
    let row5 = m3_0_1_0_0_3_0 * r;
    assert(row5 == -m3_0_1_0_0_3_0 + m3_0_1_2_0_3_0 - m3_0_3_0_0_3_0 - m3_0_3_2_0_3_1) by (nonlinear_arith)
        requires
            row5 == m3_0_1_0_0_3_0 * r,
            r == -m0_0_0_0_0_0_0 + m0_0_0_2_0_0_0 - m0_0_2_0_0_0_0 - m0_0_2_2_0_0_1,
            m3_0_1_0_0_3_0 * m0_0_0_0_0_0_0 == m3_0_1_0_0_3_0,
            m3_0_1_0_0_3_0 * m0_0_0_2_0_0_0 == m3_0_1_2_0_3_0,
            m3_0_1_0_0_3_0 * m0_0_2_0_0_0_0 == m3_0_3_0_0_3_0,
            m3_0_1_0_0_3_0 * m0_0_2_2_0_0_1 == m3_0_3_2_0_3_1,
    ;
    assert(p * r == row0 - row1 + row2 + row3 + row4 - row5) by (nonlinear_arith)
        requires
            p == m3_0_0_1_1_0_0 - m3_0_0_1_1_2_0 + m3_0_0_1_3_0_0 + m3_0_0_1_3_2_1 +
                m3_0_1_0_0_1_0 - m3_0_1_0_0_3_0,
            row0 == m3_0_0_1_1_0_0 * r,
            row1 == m3_0_0_1_1_2_0 * r,
            row2 == m3_0_0_1_3_0_0 * r,
            row3 == m3_0_0_1_3_2_1 * r,
            row4 == m3_0_1_0_0_1_0 * r,
            row5 == m3_0_1_0_0_3_0 * r,
    ;
}

/// A cofactor times the defect of a point.
proof fn lemma_associative_product_113(v: Vars, p: int, r: int)
    requires
        p == mono(v, 3, 0, 1, 0, 2, 1, 0) + mono(v, 3, 0, 1, 0, 2, 3, 1) - mono(v, 3, 0, 1, 2, 2,
            1, 1) - mono(v, 3, 0, 2, 1, 1, 2, 1),
        r == -mono(v, 0, 0, 0, 0, 0, 0, 0) + mono(v, 0, 0, 0, 2, 0, 0, 0) - mono(v, 0, 0, 2, 0,
            0, 0, 0) - mono(v, 0, 0, 2, 2, 0, 0, 1),
    ensures
        p * r == -mono(v, 3, 0, 1, 0, 2, 1, 0) - mono(v, 3, 0, 1, 0, 2, 3, 1) + mono(v, 3, 0, 1, 2,
            2, 1, 0) + mono(v, 3, 0, 1, 2, 2, 1, 1) + mono(v, 3, 0, 1, 2, 2, 3, 1) - mono(v, 3,
            0, 1, 4, 2, 1, 1) + mono(v, 3, 0, 2, 1, 1, 2, 1) - mono(v, 3, 0, 2, 3, 1, 2, 1) -
            mono(v, 3, 0, 3, 0, 2, 1, 0) - mono(v, 3, 0, 3, 0, 2, 3, 1) - mono(v, 3, 0, 3, 2, 2,
            3, 2) + mono(v, 3, 0, 3, 4, 2, 1, 2) + mono(v, 3, 0, 4, 1, 1, 2, 1) + mono(v, 3, 0,
            4, 3, 1, 2, 2),
{
    let m3_0_1_0_2_1_0 = mono(v, 3, 0, 1, 0, 2, 1, 0);
    let m3_0_1_0_2_3_1 = mono(v, 3, 0, 1, 0, 2, 3, 1);
    let m3_0_1_2_2_1_1 = mono(v, 3, 0, 1, 2, 2, 1, 1);
    let m3_0_2_1_1_2_1 = mono(v, 3, 0, 2, 1, 1, 2, 1);
    let m0_0_0_0_0_0_0 = mono(v, 0, 0, 0, 0, 0, 0, 0);
    let m0_0_0_2_0_0_0 = mono(v, 0, 0, 0, 2, 0, 0, 0);
    let m0_0_2_0_0_0_0 = mono(v, 0, 0, 2, 0, 0, 0, 0);
    let m0_0_2_2_0_0_1 = mono(v, 0, 0, 2, 2, 0, 0, 1);
    let m3_0_1_2_2_1_0 = mono(v, 3, 0, 1, 2, 2, 1, 0);
    let m3_0_3_0_2_1_0 = mono(v, 3, 0, 3, 0, 2, 1, 0);
    let m3_0_3_2_2_1_1 = mono(v, 3, 0, 3, 2, 2, 1, 1);
    let m3_0_1_2_2_3_1 = mono(v, 3, 0, 1, 2, 2, 3, 1);
    let m3_0_3_0_2_3_1 = mono(v, 3, 0, 3, 0, 2, 3, 1);
    let m3_0_3_2_2_3_2 = mono(v, 3, 0, 3, 2, 2, 3, 2);
    let m3_0_1_4_2_1_1 = mono(v, 3, 0, 1, 4, 2, 1, 1);
    let m3_0_3_4_2_1_2 = mono(v, 3, 0, 3, 4, 2, 1, 2);
    let m3_0_2_3_1_2_1 = mono(v, 3, 0, 2, 3, 1, 2, 1);
    let m3_0_4_1_1_2_1 = mono(v, 3, 0, 4, 1, 1, 2, 1);
    let m3_0_4_3_1_2_2 = mono(v, 3, 0, 4, 3, 1, 2, 2);
    lemma_mono_mul(v, 3, 0, 1, 0, 2, 1, 0, 0, 0, 0, 0, 0, 0, 0);
    lemma_mono_mul(v, 3, 0, 1, 0, 2, 1, 0, 0, 0, 0, 2, 0, 0, 0);
    lemma_mono_mul(v, 3, 0, 1, 0, 2, 1, 0, 0, 0, 2, 0, 0, 0, 0);
    lemma_mono_mul(v, 3, 0, 1, 0, 2, 1, 0, 0, 0, 2, 2, 0, 0, 1);
    lemma_mono_mul(v, 3, 0, 1, 0, 2, 3, 1, 0, 0, 0, 0, 0, 0, 0);
    lemma_mono_mul(v, 3, 0, 1, 0, 2, 3, 1, 0, 0, 0, 2, 0, 0, 0);
    lemma_mono_mul(v, 3, 0, 1, 0, 2, 3, 1, 0, 0, 2, 0, 0, 0, 0);
    lemma_mono_mul(v, 3, 0, 1, 0, 2, 3, 1, 0, 0, 2, 2, 0, 0, 1);
    lemma_mono_mul(v, 3, 0, 1, 2, 2, 1, 1, 0, 0, 0, 0, 0, 0, 0);
    lemma_mono_mul(v, 3, 0, 1, 2, 2, 1, 1, 0, 0, 0, 2, 0, 0, 0);
    lemma_mono_mul(v, 3, 0, 1, 2, 2, 1, 1, 0, 0, 2, 0, 0, 0, 0);
    lemma_mono_mul(v, 3, 0, 1, 2, 2, 1, 1, 0, 0, 2, 2, 0, 0, 1);
    lemma_mono_mul(v, 3, 0, 2, 1, 1, 2, 1, 0, 0, 0, 0, 0, 0, 0);
    lemma_mono_mul(v, 3, 0, 2, 1, 1, 2, 1, 0, 0, 0, 2, 0, 0, 0);
    lemma_mono_mul(v, 3, 0, 2, 1, 1, 2, 1, 0, 0, 2, 0, 0, 0, 0);
    lemma_mono_mul(v, 3, 0, 2, 1, 1, 2, 1, 0, 0, 2, 2, 0, 0, 1);
    let row0 = m3_0_1_0_2_1_0 * r;
    assert(row0 == -m3_0_1_0_2_1_0 + m3_0_1_2_2_1_0 - m3_0_3_0_2_1_0 - m3_0_3_2_2_1_1) by (nonlinear_arith)
        requires
            row0 == m3_0_1_0_2_1_0 * r,
            r == -m0_0_0_0_0_0_0 + m0_0_0_2_0_0_0 - m0_0_2_0_0_0_0 - m0_0_2_2_0_0_1,
            m3_0_1_0_2_1_0 * m0_0_0_0_0_0_0 == m3_0_1_0_2_1_0,
            m3_0_1_0_2_1_0 * m0_0_0_2_0_0_0 == m3_0_1_2_2_1_0,
            m3_0_1_0_2_1_0 * m0_0_2_0_0_0_0 == m3_0_3_0_2_1_0,
            m3_0_1_0_2_1_0 * m0_0_2_2_0_0_1 == m3_0_3_2_2_1_1,
    ;
    let row1 = m3_0_1_0_2_3_1 * r;
    assert(row1 == -m3_0_1_0_2_3_1 + m3_0_1_2_2_3_1 - m3_0_3_0_2_3_1 - m3_0_3_2_2_3_2) by (nonlinear_arith)
        requires
            row1 == m3_0_1_0_2_3_1 * r,
            r == -m0_0_0_0_0_0_0 + m0_0_0_2_0_0_0 - m0_0_2_0_0_0_0 - m0_0_2_2_0_0_1,
            m3_0_1_0_2_3_1 * m0_0_0_0_0_0_0 == m3_0_1_0_2_3_1,
            m3_0_1_0_2_3_1 * m0_0_0_2_0_0_0 == m3_0_1_2_2_3_1,
            m3_0_1_0_2_3_1 * m0_0_2_0_0_0_0 == m3_0_3_0_2_3_1,
            m3_0_1_0_2_3_1 * m0_0_2_2_0_0_1 == m3_0_3_2_2_3_2,
    ;
    let row2 = m3_0_1_2_2_1_1 * r;
    assert(row2 == -m3_0_1_2_2_1_1 + m3_0_1_4_2_1_1 - m3_0_3_2_2_1_1 - m3_0_3_4_2_1_2) by (nonlinear_arith)
        requires
            row2 == m3_0_1_2_2_1_1 * r,
            r == -m0_0_0_0_0_0_0 + m0_0_0_2_0_0_0 - m0_0_2_0_0_0_0 - m0_0_2_2_0_0_1,
            m3_0_1_2_2_1_1 * m0_0_0_0_0_0_0 == m3_0_1_2_2_1_1,
            m3_0_1_2_2_1_1 * m0_0_0_2_0_0_0 == m3_0_1_4_2_1_1,
            m3_0_1_2_2_1_1 * m0_0_2_0_0_0_0 == m3_0_3_2_2_1_1,
            m3_0_1_2_2_1_1 * m0_0_2_2_0_0_1 == m3_0_3_4_2_1_2,
    ;
    let row3 = m3_0_2_1_1_2_1 * r;
    assert(row3 == -m3_0_2_1_1_2_1 + m3_0_2_3_1_2_1 - m3_0_4_1_1_2_1 - m3_0_4_3_1_2_2) by (nonlinear_arith)
        requires
            row3 == m3_0_2_1_1_2_1 * r,
            r == -m0_0_0_0_0_0_0 + m0_0_0_2_0_0_0 - m0_0_2_0_0_0_0 - m0_0_2_2_0_0_1,
            m3_0_2_1_1_2_1 * m0_0_0_0_0_0_0 == m3_0_2_1_1_2_1,
            m3_0_2_1_1_2_1 * m0_0_0_2_0_0_0 == m3_0_2_3_1_2_1,
            m3_0_2_1_1_2_1 * m0_0_2_0_0_0_0 == m3_0_4_1_1_2_1,
            m3_0_2_1_1_2_1 * m0_0_2_2_0_0_1 == m3_0_4_3_1_2_2,
    ;
    assert(p * r == row0 + row1 - row2 - row3) by (nonlinear_arith)
        requires
            p == m3_0_1_0_2_1_0 + m3_0_1_0_2_3_1 - m3_0_1_2_2_1_1 - m3_0_2_1_1_2_1,
            row0 == m3_0_1_0_2_1_0 * r,
            row1 == m3_0_1_0_2_3_1 * r,
            row2 == m3_0_1_2_2_1_1 * r,
            row3 == m3_0_2_1_1_2_1 * r,
    ;
}

/// A cofactor times the defect of a point.
proof fn lemma_associative_product_114(v: Vars, p: int, r: int)
    requires
        p == mono(v, 0, 1, 0, 1, 0, 1, 0) - mono(v, 0, 1, 0, 1, 0, 3, 0) + mono(v, 0, 1, 0, 1, 2,
            1, 0) + mono(v, 0, 1, 0, 1, 2, 3, 1) + mono(v, 0, 1, 1, 0, 1, 0, 0) - mono(v, 0, 1,
            1, 0, 1, 2, 0) + mono(v, 0, 1, 1, 0, 3, 0, 0) + mono(v, 0, 1, 1, 0, 3, 2, 1) +
            mono(v, 0, 1, 1, 2, 1, 2, 1) + mono(v, 0, 1, 2, 1, 2, 1, 1) - mono(v, 0, 3, 0, 1, 0,
            1, 0) + mono(v, 0, 3, 0, 1, 0, 3, 0) - mono(v, 0, 3, 0, 1, 2, 1, 0) - mono(v, 0, 3,
            0, 1, 2, 3, 1) - mono(v, 0, 3, 1, 0, 1, 0, 0) + mono(v, 0, 3, 1, 0, 1, 2, 0) -
            mono(v, 0, 3, 1, 0, 3, 0, 0) - mono(v, 0, 3, 1, 0, 3, 2, 1) - mono(v, 0, 3, 1, 2, 1,
            2, 1) - mono(v, 0, 3, 2, 1, 2, 1, 1) + mono(v, 1, 0, 0, 1, 1, 0, 0) - mono(v, 1, 0,
            0, 1, 1, 2, 0) + mono(v, 1, 0, 0, 1, 3, 0, 0) + mono(v, 1, 0, 0, 1, 3, 2, 1) +
            mono(v, 1, 0, 1, 0, 0, 1, 0) - mono(v, 1, 0, 1, 0, 0, 3, 0) + mono(v, 1, 0, 1, 0, 2,
            1, 0) + mono(v, 1, 0, 1, 0, 2, 3, 1) - mono(v, 1, 0, 1, 2, 2, 1, 1) - mono(v, 1, 0,
            2, 1, 1, 2, 1) - mono(v, 1, 2, 0, 1, 1, 0, 0) + mono(v, 1, 2, 0, 1, 1, 2, 0) -
            mono(v, 1, 2, 0, 1, 3, 0, 0) - mono(v, 1, 2, 0, 1, 3, 2, 1) - mono(v, 1, 2, 1, 0, 0,
            1, 0) + mono(v, 1, 2, 1, 0, 0, 3, 0) - mono(v, 1, 2, 1, 0, 2, 1, 0) - mono(v, 1, 2,
            1, 0, 2, 3, 1) + mono(v, 1, 2, 1, 2, 2, 1, 1) + mono(v, 1, 2, 1, 2, 2, 3, 2) +
            mono(v, 1, 2, 2, 1, 1, 2, 1) - mono(v, 1, 2, 2, 1, 3, 2, 2) + mono(v, 2, 1, 0, 1, 0,
            1, 0) - mono(v, 2, 1, 0, 1, 0, 3, 0) + mono(v, 2, 1, 0, 1, 2, 1, 0) + mono(v, 2, 1,
            0, 1, 2, 3, 1) + mono(v, 2, 1, 1, 0, 1, 0, 0) - mono(v, 2, 1, 1, 0, 1, 2, 0) +
            mono(v, 2, 1, 1, 0, 3, 0, 0) + mono(v, 2, 1, 1, 0, 3, 2, 1) + mono(v, 2, 1, 1, 2, 1,
            2, 1) - mono(v, 2, 1, 1, 2, 3, 2, 2) + mono(v, 2, 1, 2, 1, 2, 1, 1) + mono(v, 2, 1,
            2, 1, 2, 3, 2) + mono(v, 3, 0, 0, 1, 1, 0, 0) - mono(v, 3, 0, 0, 1, 1, 2, 0) +
            mono(v, 3, 0, 0, 1, 3, 0, 0) + mono(v, 3, 0, 0, 1, 3, 2, 1) + mono(v, 3, 0, 1, 0, 0,
            1, 0) - mono(v, 3, 0, 1, 0, 0, 3, 0) + mono(v, 3, 0, 1, 0, 2, 1, 0) + mono(v, 3, 0,
            1, 0, 2, 3, 1) - mono(v, 3, 0, 1, 2, 2, 1, 1) - mono(v, 3, 0, 2, 1, 1, 2, 1),
        r == -mono(v, 0, 0, 0, 0, 0, 0, 0) + mono(v, 0, 0, 0, 2, 0, 0, 0) - mono(v, 0, 0, 2, 0,
            0, 0, 0) - mono(v, 0, 0, 2, 2, 0, 0, 1),
    ensures
        p * r == -mono(v, 0, 1, 0, 1, 0, 1, 0) + mono(v, 0, 1, 0, 1, 0, 3, 0) - mono(v, 0, 1, 0, 1,
            2, 1, 0) - mono(v, 0, 1, 0, 1, 2, 3, 1) + mono(v, 0, 1, 0, 3, 0, 1, 0) - mono(v, 0,
            1, 0, 3, 0, 3, 0) + mono(v, 0, 1, 0, 3, 2, 1, 0) + mono(v, 0, 1, 0, 3, 2, 3, 1) -
            mono(v, 0, 1, 1, 0, 1, 0, 0) + mono(v, 0, 1, 1, 0, 1, 2, 0) - mono(v, 0, 1, 1, 0, 3,
            0, 0) - mono(v, 0, 1, 1, 0, 3, 2, 1) + mono(v, 0, 1, 1, 2, 1, 0, 0) - mono(v, 0, 1,
            1, 2, 1, 2, 0) - mono(v, 0, 1, 1, 2, 1, 2, 1) + mono(v, 0, 1, 1, 2, 3, 0, 0) +
            mono(v, 0, 1, 1, 2, 3, 2, 1) + mono(v, 0, 1, 1, 4, 1, 2, 1) - mono(v, 0, 1, 2, 1, 0,
            1, 0) + mono(v, 0, 1, 2, 1, 0, 3, 0) - mono(v, 0, 1, 2, 1, 2, 1, 0) - mono(v, 0, 1,
            2, 1, 2, 1, 1) - mono(v, 0, 1, 2, 1, 2, 3, 1) - mono(v, 0, 1, 2, 3, 0, 1, 1) +
            mono(v, 0, 1, 2, 3, 0, 3, 1) - mono(v, 0, 1, 2, 3, 2, 3, 2) - mono(v, 0, 1, 3, 0, 1,
            0, 0) + mono(v, 0, 1, 3, 0, 1, 2, 0) - mono(v, 0, 1, 3, 0, 3, 0, 0) - mono(v, 0, 1,
            3, 0, 3, 2, 1) - mono(v, 0, 1, 3, 2, 1, 0, 1) - mono(v, 0, 1, 3, 2, 3, 0, 1) -
            mono(v, 0, 1, 3, 2, 3, 2, 2) - mono(v, 0, 1, 3, 4, 1, 2, 2) - mono(v, 0, 1, 4, 1, 2,
            1, 1) - mono(v, 0, 1, 4, 3, 2, 1, 2) + mono(v, 0, 3, 0, 1, 0, 1, 0) - mono(v, 0, 3,
            0, 1, 0, 3, 0) + mono(v, 0, 3, 0, 1, 2, 1, 0) + mono(v, 0, 3, 0, 1, 2, 3, 1) -
            mono(v, 0, 3, 0, 3, 0, 1, 0) + mono(v, 0, 3, 0, 3, 0, 3, 0) - mono(v, 0, 3, 0, 3, 2,
            1, 0) - mono(v, 0, 3, 0, 3, 2, 3, 1) + mono(v, 0, 3, 1, 0, 1, 0, 0) - mono(v, 0, 3,
            1, 0, 1, 2, 0) + mono(v, 0, 3, 1, 0, 3, 0, 0) + mono(v, 0, 3, 1, 0, 3, 2, 1) -
            mono(v, 0, 3, 1, 2, 1, 0, 0) + mono(v, 0, 3, 1, 2, 1, 2, 0) + mono(v, 0, 3, 1, 2, 1,
            2, 1) - mono(v, 0, 3, 1, 2, 3, 0, 0) - mono(v, 0, 3, 1, 2, 3, 2, 1) - mono(v, 0, 3,
            1, 4, 1, 2, 1) + mono(v, 0, 3, 2, 1, 0, 1, 0) - mono(v, 0, 3, 2, 1, 0, 3, 0) +
            mono(v, 0, 3, 2, 1, 2, 1, 0) + mono(v, 0, 3, 2, 1, 2, 1, 1) + mono(v, 0, 3, 2, 1, 2,
            3, 1) + mono(v, 0, 3, 2, 3, 0, 1, 1) - mono(v, 0, 3, 2, 3, 0, 3, 1) + mono(v, 0, 3,
            2, 3, 2, 3, 2) + mono(v, 0, 3, 3, 0, 1, 0, 0) - mono(v, 0, 3, 3, 0, 1, 2, 0) +
            mono(v, 0, 3, 3, 0, 3, 0, 0) + mono(v, 0, 3, 3, 0, 3, 2, 1) + mono(v, 0, 3, 3, 2, 1,
            0, 1) + mono(v, 0, 3, 3, 2, 3, 0, 1) + mono(v, 0, 3, 3, 2, 3, 2, 2) + mono(v, 0, 3,
            3, 4, 1, 2, 2) + mono(v, 0, 3, 4, 1, 2, 1, 1) + mono(v, 0, 3, 4, 3, 2, 1, 2) -
            mono(v, 1, 0, 0, 1, 1, 0, 0) + mono(v, 1, 0, 0, 1, 1, 2, 0) - mono(v, 1, 0, 0, 1, 3,
            0, 0) - mono(v, 1, 0, 0, 1, 3, 2, 1) + mono(v, 1, 0, 0, 3, 1, 0, 0) - mono(v, 1, 0,
            0, 3, 1, 2, 0) + mono(v, 1, 0, 0, 3, 3, 0, 0) + mono(v, 1, 0, 0, 3, 3, 2, 1) -
            mono(v, 1, 0, 1, 0, 0, 1, 0) + mono(v, 1, 0, 1, 0, 0, 3, 0) - mono(v, 1, 0, 1, 0, 2,
            1, 0) - mono(v, 1, 0, 1, 0, 2, 3, 1) + mono(v, 1, 0, 1, 2, 0, 1, 0) - mono(v, 1, 0,
            1, 2, 0, 3, 0) + mono(v, 1, 0, 1, 2, 2, 1, 0) + mono(v, 1, 0, 1, 2, 2, 1, 1) +
            mono(v, 1, 0, 1, 2, 2, 3, 1) - mono(v, 1, 0, 1, 4, 2, 1, 1) - mono(v, 1, 0, 2, 1, 1,
            0, 0) + mono(v, 1, 0, 2, 1, 1, 2, 0) + mono(v, 1, 0, 2, 1, 1, 2, 1) - mono(v, 1, 0,
            2, 1, 3, 0, 0) - mono(v, 1, 0, 2, 1, 3, 2, 1) - mono(v, 1, 0, 2, 3, 1, 0, 1) -
            mono(v, 1, 0, 2, 3, 3, 0, 1) - mono(v, 1, 0, 2, 3, 3, 2, 2) - mono(v, 1, 0, 3, 0, 0,
            1, 0) + mono(v, 1, 0, 3, 0, 0, 3, 0) - mono(v, 1, 0, 3, 0, 2, 1, 0) - mono(v, 1, 0,
            3, 0, 2, 3, 1) - mono(v, 1, 0, 3, 2, 0, 1, 1) + mono(v, 1, 0, 3, 2, 0, 3, 1) -
            mono(v, 1, 0, 3, 2, 2, 3, 2) + mono(v, 1, 0, 3, 4, 2, 1, 2) + mono(v, 1, 0, 4, 1, 1,
            2, 1) + mono(v, 1, 0, 4, 3, 1, 2, 2) + mono(v, 1, 2, 0, 1, 1, 0, 0) - mono(v, 1, 2,
            0, 1, 1, 2, 0) + mono(v, 1, 2, 0, 1, 3, 0, 0) + mono(v, 1, 2, 0, 1, 3, 2, 1) -
            mono(v, 1, 2, 0, 3, 1, 0, 0) + mono(v, 1, 2, 0, 3, 1, 2, 0) - mono(v, 1, 2, 0, 3, 3,
            0, 0) - mono(v, 1, 2, 0, 3, 3, 2, 1) + mono(v, 1, 2, 1, 0, 0, 1, 0) - mono(v, 1, 2,
            1, 0, 0, 3, 0) + mono(v, 1, 2, 1, 0, 2, 1, 0) + mono(v, 1, 2, 1, 0, 2, 3, 1) -
            mono(v, 1, 2, 1, 2, 0, 1, 0) + mono(v, 1, 2, 1, 2, 0, 3, 0) - mono(v, 1, 2, 1, 2, 2,
            1, 0) - mono(v, 1, 2, 1, 2, 2, 1, 1) - mono(v, 1, 2, 1, 2, 2, 3, 1) - mono(v, 1, 2,
            1, 2, 2, 3, 2) + mono(v, 1, 2, 1, 4, 2, 1, 1) + mono(v, 1, 2, 1, 4, 2, 3, 2) +
            mono(v, 1, 2, 2, 1, 1, 0, 0) - mono(v, 1, 2, 2, 1, 1, 2, 0) - mono(v, 1, 2, 2, 1, 1,
            2, 1) + mono(v, 1, 2, 2, 1, 3, 0, 0) + mono(v, 1, 2, 2, 1, 3, 2, 1) + mono(v, 1, 2,
            2, 1, 3, 2, 2) + mono(v, 1, 2, 2, 3, 1, 0, 1) + mono(v, 1, 2, 2, 3, 3, 0, 1) +
            mono(v, 1, 2, 3, 0, 0, 1, 0) - mono(v, 1, 2, 3, 0, 0, 3, 0) + mono(v, 1, 2, 3, 0, 2,
            1, 0) + mono(v, 1, 2, 3, 0, 2, 3, 1) + mono(v, 1, 2, 3, 2, 0, 1, 1) - mono(v, 1, 2,
            3, 2, 0, 3, 1) - mono(v, 1, 2, 3, 4, 2, 1, 2) - mono(v, 1, 2, 3, 4, 2, 3, 3) -
            mono(v, 1, 2, 4, 1, 1, 2, 1) + mono(v, 1, 2, 4, 1, 3, 2, 2) - mono(v, 1, 2, 4, 3, 1,
            2, 2) + mono(v, 1, 2, 4, 3, 3, 2, 3) - mono(v, 2, 1, 0, 1, 0, 1, 0) + mono(v, 2, 1,
            0, 1, 0, 3, 0) - mono(v, 2, 1, 0, 1, 2, 1, 0) - mono(v, 2, 1, 0, 1, 2, 3, 1) +
            mono(v, 2, 1, 0, 3, 0, 1, 0) - mono(v, 2, 1, 0, 3, 0, 3, 0) + mono(v, 2, 1, 0, 3, 2,
            1, 0) + mono(v, 2, 1, 0, 3, 2, 3, 1) - mono(v, 2, 1, 1, 0, 1, 0, 0) + mono(v, 2, 1,
            1, 0, 1, 2, 0) - mono(v, 2, 1, 1, 0, 3, 0, 0) - mono(v, 2, 1, 1, 0, 3, 2, 1) +
            mono(v, 2, 1, 1, 2, 1, 0, 0) - mono(v, 2, 1, 1, 2, 1, 2, 0) - mono(v, 2, 1, 1, 2, 1,
            2, 1) + mono(v, 2, 1, 1, 2, 3, 0, 0) + mono(v, 2, 1, 1, 2, 3, 2, 1) + mono(v, 2, 1,
            1, 2, 3, 2, 2) + mono(v, 2, 1, 1, 4, 1, 2, 1) - mono(v, 2, 1, 1, 4, 3, 2, 2) -
            mono(v, 2, 1, 2, 1, 0, 1, 0) + mono(v, 2, 1, 2, 1, 0, 3, 0) - mono(v, 2, 1, 2, 1, 2,
            1, 0) - mono(v, 2, 1, 2, 1, 2, 1, 1) - mono(v, 2, 1, 2, 1, 2, 3, 1) - mono(v, 2, 1,
            2, 1, 2, 3, 2) - mono(v, 2, 1, 2, 3, 0, 1, 1) + mono(v, 2, 1, 2, 3, 0, 3, 1) -
            mono(v, 2, 1, 3, 0, 1, 0, 0) + mono(v, 2, 1, 3, 0, 1, 2, 0) - mono(v, 2, 1, 3, 0, 3,
            0, 0) - mono(v, 2, 1, 3, 0, 3, 2, 1) - mono(v, 2, 1, 3, 2, 1, 0, 1) - mono(v, 2, 1,
            3, 2, 3, 0, 1) - mono(v, 2, 1, 3, 4, 1, 2, 2) + mono(v, 2, 1, 3, 4, 3, 2, 3) -
            mono(v, 2, 1, 4, 1, 2, 1, 1) - mono(v, 2, 1, 4, 1, 2, 3, 2) - mono(v, 2, 1, 4, 3, 2,
            1, 2) - mono(v, 2, 1, 4, 3, 2, 3, 3) - mono(v, 3, 0, 0, 1, 1, 0, 0) + mono(v, 3, 0,
            0, 1, 1, 2, 0) - mono(v, 3, 0, 0, 1, 3, 0, 0) - mono(v, 3, 0, 0, 1, 3, 2, 1) +
            mono(v, 3, 0, 0, 3, 1, 0, 0) - mono(v, 3, 0, 0, 3, 1, 2, 0) + mono(v, 3, 0, 0, 3, 3,
            0, 0) + mono(v, 3, 0, 0, 3, 3, 2, 1) - mono(v, 3, 0, 1, 0, 0, 1, 0) + mono(v, 3, 0,
            1, 0, 0, 3, 0) - mono(v, 3, 0, 1, 0, 2, 1, 0) - mono(v, 3, 0, 1, 0, 2, 3, 1) +
            mono(v, 3, 0, 1, 2, 0, 1, 0) - mono(v, 3, 0, 1, 2, 0, 3, 0) + mono(v, 3, 0, 1, 2, 2,
            1, 0) + mono(v, 3, 0, 1, 2, 2, 1, 1) + mono(v, 3, 0, 1, 2, 2, 3, 1) - mono(v, 3, 0,
            1, 4, 2, 1, 1) - mono(v, 3, 0, 2, 1, 1, 0, 0) + mono(v, 3, 0, 2, 1, 1, 2, 0) +
            mono(v, 3, 0, 2, 1, 1, 2, 1) - mono(v, 3, 0, 2, 1, 3, 0, 0) - mono(v, 3, 0, 2, 1, 3,
            2, 1) - mono(v, 3, 0, 2, 3, 1, 0, 1) - mono(v, 3, 0, 2, 3, 3, 0, 1) - mono(v, 3, 0,
            2, 3, 3, 2, 2) - mono(v, 3, 0, 3, 0, 0, 1, 0) + mono(v, 3, 0, 3, 0, 0, 3, 0) -
            mono(v, 3, 0, 3, 0, 2, 1, 0) - mono(v, 3, 0, 3, 0, 2, 3, 1) - mono(v, 3, 0, 3, 2, 0,
            1, 1) + mono(v, 3, 0, 3, 2, 0, 3, 1) - mono(v, 3, 0, 3, 2, 2, 3, 2) + mono(v, 3, 0,
            3, 4, 2, 1, 2) + mono(v, 3, 0, 4, 1, 1, 2, 1) + mono(v, 3, 0, 4, 3, 1, 2, 2),
{
    let p0 = mono(v, 0, 1, 0, 1, 0, 1, 0) - mono(v, 0, 1, 0, 1, 0, 3, 0) + mono(v, 0, 1, 0, 1, 2, 1,
        0) + mono(v, 0, 1, 0, 1, 2, 3, 1) + mono(v, 0, 1, 1, 0, 1, 0, 0) - mono(v, 0, 1, 1, 0,
        1, 2, 0);
    lemma_associative_product_103(v, p0, r);
    let t0 = p0 * r;
    let p1 = mono(v, 0, 1, 1, 0, 3, 0, 0) + mono(v, 0, 1, 1, 0, 3, 2, 1) + mono(v, 0, 1, 1, 2, 1, 2,
        1) + mono(v, 0, 1, 2, 1, 2, 1, 1) - mono(v, 0, 3, 0, 1, 0, 1, 0) + mono(v, 0, 3, 0, 1,
        0, 3, 0);
    lemma_associative_product_104(v, p1, r);
    let t1 = p1 * r;
    let p2 = -mono(v, 0, 3, 0, 1, 2, 1, 0) - mono(v, 0, 3, 0, 1, 2, 3, 1) - mono(v, 0, 3, 1, 0, 1, 0,
        0) + mono(v, 0, 3, 1, 0, 1, 2, 0) - mono(v, 0, 3, 1, 0, 3, 0, 0) - mono(v, 0, 3, 1, 0,
        3, 2, 1);
    lemma_associative_product_105(v, p2, r);
    let t2 = p2 * r;
    let p3 = -mono(v, 0, 3, 1, 2, 1, 2, 1) - mono(v, 0, 3, 2, 1, 2, 1, 1) + mono(v, 1, 0, 0, 1, 1, 0,
        0) - mono(v, 1, 0, 0, 1, 1, 2, 0) + mono(v, 1, 0, 0, 1, 3, 0, 0) + mono(v, 1, 0, 0, 1,
        3, 2, 1);
    lemma_associative_product_106(v, p3, r);
    let t3 = p3 * r;
    let p4 = mono(v, 1, 0, 1, 0, 0, 1, 0) - mono(v, 1, 0, 1, 0, 0, 3, 0) + mono(v, 1, 0, 1, 0, 2, 1,
        0) + mono(v, 1, 0, 1, 0, 2, 3, 1) - mono(v, 1, 0, 1, 2, 2, 1, 1) - mono(v, 1, 0, 2, 1,
        1, 2, 1);
    lemma_associative_product_107(v, p4, r);
    let t4 = p4 * r;
    let p5 = -mono(v, 1, 2, 0, 1, 1, 0, 0) + mono(v, 1, 2, 0, 1, 1, 2, 0) - mono(v, 1, 2, 0, 1, 3, 0,
        0) - mono(v, 1, 2, 0, 1, 3, 2, 1) - mono(v, 1, 2, 1, 0, 0, 1, 0) + mono(v, 1, 2, 1, 0,
        0, 3, 0);
    lemma_associative_product_108(v, p5, r);
    let t5 = p5 * r;
    let p6 = -mono(v, 1, 2, 1, 0, 2, 1, 0) - mono(v, 1, 2, 1, 0, 2, 3, 1) + mono(v, 1, 2, 1, 2, 2, 1,
        1) + mono(v, 1, 2, 1, 2, 2, 3, 2) + mono(v, 1, 2, 2, 1, 1, 2, 1) - mono(v, 1, 2, 2, 1,
        3, 2, 2);
    lemma_associative_product_109(v, p6, r);
    let t6 = p6 * r;
    let p7 = mono(v, 2, 1, 0, 1, 0, 1, 0) - mono(v, 2, 1, 0, 1, 0, 3, 0) + mono(v, 2, 1, 0, 1, 2, 1,
        0) + mono(v, 2, 1, 0, 1, 2, 3, 1) + mono(v, 2, 1, 1, 0, 1, 0, 0) - mono(v, 2, 1, 1, 0,
        1, 2, 0);
    lemma_associative_product_110(v, p7, r);
    let t7 = p7 * r;
    let p8 = mono(v, 2, 1, 1, 0, 3, 0, 0) + mono(v, 2, 1, 1, 0, 3, 2, 1) + mono(v, 2, 1, 1, 2, 1, 2,
        1) - mono(v, 2, 1, 1, 2, 3, 2, 2) + mono(v, 2, 1, 2, 1, 2, 1, 1) + mono(v, 2, 1, 2, 1,
        2, 3, 2);
    lemma_associative_product_111(v, p8, r);
    let t8 = p8 * r;
    let p9 = mono(v, 3, 0, 0, 1, 1, 0, 0) - mono(v, 3, 0, 0, 1, 1, 2, 0) + mono(v, 3, 0, 0, 1, 3, 0,
        0) + mono(v, 3, 0, 0, 1, 3, 2, 1) + mono(v, 3, 0, 1, 0, 0, 1, 0) - mono(v, 3, 0, 1, 0,
        0, 3, 0);
    lemma_associative_product_112(v, p9, r);
    let t9 = p9 * r;
    let p10 = mono(v, 3, 0, 1, 0, 2, 1, 0) + mono(v, 3, 0, 1, 0, 2, 3, 1) - mono(v, 3, 0, 1, 2, 2, 1,
        1) - mono(v, 3, 0, 2, 1, 1, 2, 1);
    lemma_associative_product_113(v, p10, r);
    let t10 = p10 * r;
    assert(p * r == t0 + t1 + t2 + t3 + t4 + t5 + t6 + t7 + t8 + t9 + t10) by (nonlinear_arith)
        requires
            p == p0 + p1 + p2 + p3 + p4 + p5 + p6 + p7 + p8 + p9 + p10,
            t0 == p0 * r,
            t1 == p1 * r,
            t2 == p2 * r,
            t3 == p3 * r,
            t4 == p4 * r,
            t5 == p5 * r,
            t6 == p6 * r,
            t7 == p7 * r,
            t8 == p8 * r,
            t9 == p9 * r,
            t10 == p10 * r,
    ;
}

/// A cofactor times the defect of a point.
proof fn lemma_associative_product_115(v: Vars, p: int, r: int)
    requires
        p == -mono(v, 0, 1, 0, 1, 0, 1, 0) + mono(v, 0, 1, 0, 3, 0, 1, 0) - mono(v, 0, 1, 1, 0,
            1, 0, 0) + mono(v, 0, 1, 1, 2, 1, 0, 0) - mono(v, 0, 1, 2, 1, 0, 1, 0) - mono(v, 0,
            1, 3, 0, 1, 0, 0),
        r == -mono(v, 0, 0, 0, 0, 0, 0, 0) + mono(v, 0, 0, 0, 0, 0, 2, 0) - mono(v, 0, 0, 0, 0,
            2, 0, 0) - mono(v, 0, 0, 0, 0, 2, 2, 1),
    ensures
        p * r == mono(v, 0, 1, 0, 1, 0, 1, 0) - mono(v, 0, 1, 0, 1, 0, 3, 0) + mono(v, 0, 1, 0, 1, 2,
            1, 0) + mono(v, 0, 1, 0, 1, 2, 3, 1) - mono(v, 0, 1, 0, 3, 0, 1, 0) + mono(v, 0, 1,
            0, 3, 0, 3, 0) - mono(v, 0, 1, 0, 3, 2, 1, 0) - mono(v, 0, 1, 0, 3, 2, 3, 1) +
            mono(v, 0, 1, 1, 0, 1, 0, 0) - mono(v, 0, 1, 1, 0, 1, 2, 0) + mono(v, 0, 1, 1, 0, 3,
            0, 0) + mono(v, 0, 1, 1, 0, 3, 2, 1) - mono(v, 0, 1, 1, 2, 1, 0, 0) + mono(v, 0, 1,
            1, 2, 1, 2, 0) - mono(v, 0, 1, 1, 2, 3, 0, 0) - mono(v, 0, 1, 1, 2, 3, 2, 1) +
            mono(v, 0, 1, 2, 1, 0, 1, 0) - mono(v, 0, 1, 2, 1, 0, 3, 0) + mono(v, 0, 1, 2, 1, 2,
            1, 0) + mono(v, 0, 1, 2, 1, 2, 3, 1) + mono(v, 0, 1, 3, 0, 1, 0, 0) - mono(v, 0, 1,
            3, 0, 1, 2, 0) + mono(v, 0, 1, 3, 0, 3, 0, 0) + mono(v, 0, 1, 3, 0, 3, 2, 1),
{
    let m0_1_0_1_0_1_0 = mono(v, 0, 1, 0, 1, 0, 1, 0);
    let m0_1_0_3_0_1_0 = mono(v, 0, 1, 0, 3, 0, 1, 0);
    let m0_1_1_0_1_0_0 = mono(v, 0, 1, 1, 0, 1, 0, 0);
    let m0_1_1_2_1_0_0 = mono(v, 0, 1, 1, 2, 1, 0, 0);
    let m0_1_2_1_0_1_0 = mono(v, 0, 1, 2, 1, 0, 1, 0);
    let m0_1_3_0_1_0_0 = mono(v, 0, 1, 3, 0, 1, 0, 0);
    let m0_0_0_0_0_0_0 = mono(v, 0, 0, 0, 0, 0, 0, 0);
    let m0_0_0_0_0_2_0 = mono(v, 0, 0, 0, 0, 0, 2, 0);
    let m0_0_0_0_2_0_0 = mono(v, 0, 0, 0, 0, 2, 0, 0);
    let m0_0_0_0_2_2_1 = mono(v, 0, 0, 0, 0, 2, 2, 1);
    let m0_1_0_1_0_3_0 = mono(v, 0, 1, 0, 1, 0, 3, 0);
    let m0_1_0_1_2_1_0 = mono(v, 0, 1, 0, 1, 2, 1, 0);
    let m0_1_0_1_2_3_1 = mono(v, 0, 1, 0, 1, 2, 3, 1);
    let m0_1_0_3_0_3_0 = mono(v, 0, 1, 0, 3, 0, 3, 0);
    let m0_1_0_3_2_1_0 = mono(v, 0, 1, 0, 3, 2, 1, 0);
    let m0_1_0_3_2_3_1 = mono(v, 0, 1, 0, 3, 2, 3, 1);
    let m0_1_1_0_1_2_0 = mono(v, 0, 1, 1, 0, 1, 2, 0);
    let m0_1_1_0_3_0_0 = mono(v, 0, 1, 1, 0, 3, 0, 0);
    let m0_1_1_0_3_2_1 = mono(v, 0, 1, 1, 0, 3, 2, 1);
    let m0_1_1_2_1_2_0 = mono(v, 0, 1, 1, 2, 1, 2, 0);
    let m0_1_1_2_3_0_0 = mono(v, 0, 1, 1, 2, 3, 0, 0);
    let m0_1_1_2_3_2_1 = mono(v, 0, 1, 1, 2, 3, 2, 1);
    let m0_1_2_1_0_3_0 = mono(v, 0, 1, 2, 1, 0, 3, 0);
    let m0_1_2_1_2_1_0 = mono(v, 0, 1, 2, 1, 2, 1, 0);
    let m0_1_2_1_2_3_1 = mono(v, 0, 1, 2, 1, 2, 3, 1);
    let m0_1_3_0_1_2_0 = mono(v, 0, 1, 3, 0, 1, 2, 0);
    let m0_1_3_0_3_0_0 = mono(v, 0, 1, 3, 0, 3, 0, 0);
    let m0_1_3_0_3_2_1 = mono(v, 0, 1, 3, 0, 3, 2, 1);
    lemma_mono_mul(v, 0, 1, 0, 1, 0, 1, 0, 0, 0, 0, 0, 0, 0, 0);
    lemma_mono_mul(v, 0, 1, 0, 1, 0, 1, 0, 0, 0, 0, 0, 0, 2, 0);
    lemma_mono_mul(v, 0, 1, 0, 1, 0, 1, 0, 0, 0, 0, 0, 2, 0, 0);
    lemma_mono_mul(v, 0, 1, 0, 1, 0, 1, 0, 0, 0, 0, 0, 2, 2, 1);
    lemma_mono_mul(v, 0, 1, 0, 3, 0, 1, 0, 0, 0, 0, 0, 0, 0, 0);
    lemma_mono_mul(v, 0, 1, 0, 3, 0, 1, 0, 0, 0, 0, 0, 0, 2, 0);
    lemma_mono_mul(v, 0, 1, 0, 3, 0, 1, 0, 0, 0, 0, 0, 2, 0, 0);
    lemma_mono_mul(v, 0, 1, 0, 3, 0, 1, 0, 0, 0, 0, 0, 2, 2, 1);
    lemma_mono_mul(v, 0, 1, 1, 0, 1, 0, 0, 0, 0, 0, 0, 0, 0, 0);
    lemma_mono_mul(v, 0, 1, 1, 0, 1, 0, 0, 0, 0, 0, 0, 0, 2, 0);
    lemma_mono_mul(v, 0, 1, 1, 0, 1, 0, 0, 0, 0, 0, 0, 2, 0, 0);
    lemma_mono_mul(v, 0, 1, 1, 0, 1, 0, 0, 0, 0, 0, 0, 2, 2, 1);
    lemma_mono_mul(v, 0, 1, 1, 2, 1, 0, 0, 0, 0, 0, 0, 0, 0, 0);
    lemma_mono_mul(v, 0, 1, 1, 2, 1, 0, 0, 0, 0, 0, 0, 0, 2, 0);
    lemma_mono_mul(v, 0, 1, 1, 2, 1, 0, 0, 0, 0, 0, 0, 2, 0, 0);
    lemma_mono_mul(v, 0, 1, 1, 2, 1, 0, 0, 0, 0, 0, 0, 2, 2, 1);
    lemma_mono_mul(v, 0, 1, 2, 1, 0, 1, 0, 0, 0, 0, 0, 0, 0, 0);
    lemma_mono_mul(v, 0, 1, 2, 1, 0, 1, 0, 0, 0, 0, 0, 0, 2, 0);
    lemma_mono_mul(v, 0, 1, 2, 1, 0, 1, 0, 0, 0, 0, 0, 2, 0, 0);
    lemma_mono_mul(v, 0, 1, 2, 1, 0, 1, 0, 0, 0, 0, 0, 2, 2, 1);
    lemma_mono_mul(v, 0, 1, 3, 0, 1, 0, 0, 0, 0, 0, 0, 0, 0, 0);
    lemma_mono_mul(v, 0, 1, 3, 0, 1, 0, 0, 0, 0, 0, 0, 0, 2, 0);
    lemma_mono_mul(v, 0, 1, 3, 0, 1, 0, 0, 0, 0, 0, 0, 2, 0, 0);
    lemma_mono_mul(v, 0, 1, 3, 0, 1, 0, 0, 0, 0, 0, 0, 2, 2, 1);
    let row0 = m0_1_0_1_0_1_0 * r;
    assert(row0 == -m0_1_0_1_0_1_0 + m0_1_0_1_0_3_0 - m0_1_0_1_2_1_0 - m0_1_0_1_2_3_1) by (nonlinear_arith)
        requires
            row0 == m0_1_0_1_0_1_0 * r,
            r == -m0_0_0_0_0_0_0 + m0_0_0_0_0_2_0 - m0_0_0_0_2_0_0 - m0_0_0_0_2_2_1,
            m0_1_0_1_0_1_0 * m0_0_0_0_0_0_0 == m0_1_0_1_0_1_0,
            m0_1_0_1_0_1_0 * m0_0_0_0_0_2_0 == m0_1_0_1_0_3_0,
            m0_1_0_1_0_1_0 * m0_0_0_0_2_0_0 == m0_1_0_1_2_1_0,
            m0_1_0_1_0_1_0 * m0_0_0_0_2_2_1 == m0_1_0_1_2_3_1,
    ;
    let row1 = m0_1_0_3_0_1_0 * r;
    assert(row1 == -m0_1_0_3_0_1_0 + m0_1_0_3_0_3_0 - m0_1_0_3_2_1_0 - m0_1_0_3_2_3_1) by (nonlinear_arith)
        requires
            row1 == m0_1_0_3_0_1_0 * r,
            r == -m0_0_0_0_0_0_0 + m0_0_0_0_0_2_0 - m0_0_0_0_2_0_0 - m0_0_0_0_2_2_1,
            m0_1_0_3_0_1_0 * m0_0_0_0_0_0_0 == m0_1_0_3_0_1_0,
            m0_1_0_3_0_1_0 * m0_0_0_0_0_2_0 == m0_1_0_3_0_3_0,
            m0_1_0_3_0_1_0 * m0_0_0_0_2_0_0 == m0_1_0_3_2_1_0,
            m0_1_0_3_0_1_0 * m0_0_0_0_2_2_1 == m0_1_0_3_2_3_1,
    ;
    let row2 = m0_1_1_0_1_0_0 * r;
    assert(row2 == -m0_1_1_0_1_0_0 + m0_1_1_0_1_2_0 - m0_1_1_0_3_0_0 - m0_1_1_0_3_2_1) by (nonlinear_arith)
        requires
            row2 == m0_1_1_0_1_0_0 * r,
            r == -m0_0_0_0_0_0_0 + m0_0_0_0_0_2_0 - m0_0_0_0_2_0_0 - m0_0_0_0_2_2_1,
            m0_1_1_0_1_0_0 * m0_0_0_0_0_0_0 == m0_1_1_0_1_0_0,
            m0_1_1_0_1_0_0 * m0_0_0_0_0_2_0 == m0_1_1_0_1_2_0,
            m0_1_1_0_1_0_0 * m0_0_0_0_2_0_0 == m0_1_1_0_3_0_0,
            m0_1_1_0_1_0_0 * m0_0_0_0_2_2_1 == m0_1_1_0_3_2_1,
    ;
    let row3 = m0_1_1_2_1_0_0 * r;
    assert(row3 == -m0_1_1_2_1_0_0 + m0_1_1_2_1_2_0 - m0_1_1_2_3_0_0 - m0_1_1_2_3_2_1) by (nonlinear_arith)
        requires
            row3 == m0_1_1_2_1_0_0 * r,
            r == -m0_0_0_0_0_0_0 + m0_0_0_0_0_2_0 - m0_0_0_0_2_0_0 - m0_0_0_0_2_2_1,
            m0_1_1_2_1_0_0 * m0_0_0_0_0_0_0 == m0_1_1_2_1_0_0,
            m0_1_1_2_1_0_0 * m0_0_0_0_0_2_0 == m0_1_1_2_1_2_0,
            m0_1_1_2_1_0_0 * m0_0_0_0_2_0_0 == m0_1_1_2_3_0_0,
            m0_1_1_2_1_0_0 * m0_0_0_0_2_2_1 == m0_1_1_2_3_2_1,
    ;
    let row4 = m0_1_2_1_0_1_0 * r;
    assert(row4 == -m0_1_2_1_0_1_0 + m0_1_2_1_0_3_0 - m0_1_2_1_2_1_0 - m0_1_2_1_2_3_1) by (nonlinear_arith)
        requires
            row4 == m0_1_2_1_0_1_0 * r,
            r == -m0_0_0_0_0_0_0 + m0_0_0_0_0_2_0 - m0_0_0_0_2_0_0 - m0_0_0_0_2_2_1,
            m0_1_2_1_0_1_0 * m0_0_0_0_0_0_0 == m0_1_2_1_0_1_0,
            m0_1_2_1_0_1_0 * m0_0_0_0_0_2_0 == m0_1_2_1_0_3_0,
            m0_1_2_1_0_1_0 * m0_0_0_0_2_0_0 == m0_1_2_1_2_1_0,
            m0_1_2_1_0_1_0 * m0_0_0_0_2_2_1 == m0_1_2_1_2_3_1,
    ;
    let row5 = m0_1_3_0_1_0_0 * r;
    assert(row5 == -m0_1_3_0_1_0_0 + m0_1_3_0_1_2_0 - m0_1_3_0_3_0_0 - m0_1_3_0_3_2_1) by (nonlinear_arith)
        requires
            row5 == m0_1_3_0_1_0_0 * r,
            r == -m0_0_0_0_0_0_0 + m0_0_0_0_0_2_0 - m0_0_0_0_2_0_0 - m0_0_0_0_2_2_1,
            m0_1_3_0_1_0_0 * m0_0_0_0_0_0_0 == m0_1_3_0_1_0_0,
            m0_1_3_0_1_0_0 * m0_0_0_0_0_2_0 == m0_1_3_0_1_2_0,
            m0_1_3_0_1_0_0 * m0_0_0_0_2_0_0 == m0_1_3_0_3_0_0,
            m0_1_3_0_1_0_0 * m0_0_0_0_2_2_1 == m0_1_3_0_3_2_1,
    ;
    assert(p * r == -row0 + row1 - row2 + row3 - row4 - row5) by (nonlinear_arith)
        requires
            p == -m0_1_0_1_0_1_0 + m0_1_0_3_0_1_0 - m0_1_1_0_1_0_0 + m0_1_1_2_1_0_0 -
                m0_1_2_1_0_1_0 - m0_1_3_0_1_0_0,
            row0 == m0_1_0_1_0_1_0 * r,
            row1 == m0_1_0_3_0_1_0 * r,
            row2 == m0_1_1_0_1_0_0 * r,
            row3 == m0_1_1_2_1_0_0 * r,
            row4 == m0_1_2_1_0_1_0 * r,
            row5 == m0_1_3_0_1_0_0 * r,
    ;
}

/// A cofactor times the defect of a point.
proof fn lemma_associative_product_116(v: Vars, p: int, r: int)
    requires
        p == mono(v, 0, 3, 0, 1, 0, 1, 0) - mono(v, 0, 3, 0, 3, 0, 1, 0) + mono(v, 0, 3, 1, 0, 1,
            0, 0) - mono(v, 0, 3, 1, 2, 1, 0, 0) + mono(v, 0, 3, 2, 1, 0, 1, 0) + mono(v, 0, 3,
            3, 0, 1, 0, 0),
        r == -mono(v, 0, 0, 0, 0, 0, 0, 0) + mono(v, 0, 0, 0, 0, 0, 2, 0) - mono(v, 0, 0, 0, 0,
            2, 0, 0) - mono(v, 0, 0, 0, 0, 2, 2, 1),
    ensures
        p * r == -mono(v, 0, 3, 0, 1, 0, 1, 0) + mono(v, 0, 3, 0, 1, 0, 3, 0) - mono(v, 0, 3, 0, 1,
            2, 1, 0) - mono(v, 0, 3, 0, 1, 2, 3, 1) + mono(v, 0, 3, 0, 3, 0, 1, 0) - mono(v, 0,
            3, 0, 3, 0, 3, 0) + mono(v, 0, 3, 0, 3, 2, 1, 0) + mono(v, 0, 3, 0, 3, 2, 3, 1) -
            mono(v, 0, 3, 1, 0, 1, 0, 0) + mono(v, 0, 3, 1, 0, 1, 2, 0) - mono(v, 0, 3, 1, 0, 3,
            0, 0) - mono(v, 0, 3, 1, 0, 3, 2, 1) + mono(v, 0, 3, 1, 2, 1, 0, 0) - mono(v, 0, 3,
            1, 2, 1, 2, 0) + mono(v, 0, 3, 1, 2, 3, 0, 0) + mono(v, 0, 3, 1, 2, 3, 2, 1) -
            mono(v, 0, 3, 2, 1, 0, 1, 0) + mono(v, 0, 3, 2, 1, 0, 3, 0) - mono(v, 0, 3, 2, 1, 2,
            1, 0) - mono(v, 0, 3, 2, 1, 2, 3, 1) - mono(v, 0, 3, 3, 0, 1, 0, 0) + mono(v, 0, 3,
            3, 0, 1, 2, 0) - mono(v, 0, 3, 3, 0, 3, 0, 0) - mono(v, 0, 3, 3, 0, 3, 2, 1),
{
    let m0_3_0_1_0_1_0 = mono(v, 0, 3, 0, 1, 0, 1, 0);
    let m0_3_0_3_0_1_0 = mono(v, 0, 3, 0, 3, 0, 1, 0);
    let m0_3_1_0_1_0_0 = mono(v, 0, 3, 1, 0, 1, 0, 0);
    let m0_3_1_2_1_0_0 = mono(v, 0, 3, 1, 2, 1, 0, 0);
    let m0_3_2_1_0_1_0 = mono(v, 0, 3, 2, 1, 0, 1, 0);
    let m0_3_3_0_1_0_0 = mono(v, 0, 3, 3, 0, 1, 0, 0);
    let m0_0_0_0_0_0_0 = mono(v, 0, 0, 0, 0, 0, 0, 0);
    let m0_0_0_0_0_2_0 = mono(v, 0, 0, 0, 0, 0, 2, 0);
    let m0_0_0_0_2_0_0 = mono(v, 0, 0, 0, 0, 2, 0, 0);
    let m0_0_0_0_2_2_1 = mono(v, 0, 0, 0, 0, 2, 2, 1);
    let m0_3_0_1_0_3_0 = mono(v, 0, 3, 0, 1, 0, 3, 0);
    let m0_3_0_1_2_1_0 = mono(v, 0, 3, 0, 1, 2, 1, 0);
    let m0_3_0_1_2_3_1 = mono(v, 0, 3, 0, 1, 2, 3, 1);
    let m0_3_0_3_0_3_0 = mono(v, 0, 3, 0, 3, 0, 3, 0);
    let m0_3_0_3_2_1_0 = mono(v, 0, 3, 0, 3, 2, 1, 0);
    let m0_3_0_3_2_3_1 = mono(v, 0, 3, 0, 3, 2, 3, 1);
    let m0_3_1_0_1_2_0 = mono(v, 0, 3, 1, 0, 1, 2, 0);
    let m0_3_1_0_3_0_0 = mono(v, 0, 3, 1, 0, 3, 0, 0);
    let m0_3_1_0_3_2_1 = mono(v, 0, 3, 1, 0, 3, 2, 1);
    let m0_3_1_2_1_2_0 = mono(v, 0, 3, 1, 2, 1, 2, 0);
    let m0_3_1_2_3_0_0 = mono(v, 0, 3, 1, 2, 3, 0, 0);
    let m0_3_1_2_3_2_1 = mono(v, 0, 3, 1, 2, 3, 2, 1);
    let m0_3_2_1_0_3_0 = mono(v, 0, 3, 2, 1, 0, 3, 0);
    let m0_3_2_1_2_1_0 = mono(v, 0, 3, 2, 1, 2, 1, 0);
    let m0_3_2_1_2_3_1 = mono(v, 0, 3, 2, 1, 2, 3, 1);
    let m0_3_3_0_1_2_0 = mono(v, 0, 3, 3, 0, 1, 2, 0);
    let m0_3_3_0_3_0_0 = mono(v, 0, 3, 3, 0, 3, 0, 0);
    let m0_3_3_0_3_2_1 = mono(v, 0, 3, 3, 0, 3, 2, 1);
    lemma_mono_mul(v, 0, 3, 0, 1, 0, 1, 0, 0, 0, 0, 0, 0, 0, 0);
    lemma_mono_mul(v, 0, 3, 0, 1, 0, 1, 0, 0, 0, 0, 0, 0, 2, 0);
    lemma_mono_mul(v, 0, 3, 0, 1, 0, 1, 0, 0, 0, 0, 0, 2, 0, 0);
    lemma_mono_mul(v, 0, 3, 0, 1, 0, 1, 0, 0, 0, 0, 0, 2, 2, 1);
    lemma_mono_mul(v, 0, 3, 0, 3, 0, 1, 0, 0, 0, 0, 0, 0, 0, 0);
    lemma_mono_mul(v, 0, 3, 0, 3, 0, 1, 0, 0, 0, 0, 0, 0, 2, 0);
    lemma_mono_mul(v, 0, 3, 0, 3, 0, 1, 0, 0, 0, 0, 0, 2, 0, 0);
    lemma_mono_mul(v, 0, 3, 0, 3, 0, 1, 0, 0, 0, 0, 0, 2, 2, 1);
    lemma_mono_mul(v, 0, 3, 1, 0, 1, 0, 0, 0, 0, 0, 0, 0, 0, 0);
    lemma_mono_mul(v, 0, 3, 1, 0, 1, 0, 0, 0, 0, 0, 0, 0, 2, 0);
    lemma_mono_mul(v, 0, 3, 1, 0, 1, 0, 0, 0, 0, 0, 0, 2, 0, 0);
    lemma_mono_mul(v, 0, 3, 1, 0, 1, 0, 0, 0, 0, 0, 0, 2, 2, 1);
    lemma_mono_mul(v, 0, 3, 1, 2, 1, 0, 0, 0, 0, 0, 0, 0, 0, 0);
    lemma_mono_mul(v, 0, 3, 1, 2, 1, 0, 0, 0, 0, 0, 0, 0, 2, 0);
    lemma_mono_mul(v, 0, 3, 1, 2, 1, 0, 0, 0, 0, 0, 0, 2, 0, 0);
    lemma_mono_mul(v, 0, 3, 1, 2, 1, 0, 0, 0, 0, 0, 0, 2, 2, 1);
    lemma_mono_mul(v, 0, 3, 2, 1, 0, 1, 0, 0, 0, 0, 0, 0, 0, 0);
    lemma_mono_mul(v, 0, 3, 2, 1, 0, 1, 0, 0, 0, 0, 0, 0, 2, 0);
    lemma_mono_mul(v, 0, 3, 2, 1, 0, 1, 0, 0, 0, 0, 0, 2, 0, 0);
    lemma_mono_mul(v, 0, 3, 2, 1, 0, 1, 0, 0, 0, 0, 0, 2, 2, 1);
    lemma_mono_mul(v, 0, 3, 3, 0, 1, 0, 0, 0, 0, 0, 0, 0, 0, 0);
    lemma_mono_mul(v, 0, 3, 3, 0, 1, 0, 0, 0, 0, 0, 0, 0, 2, 0);
    lemma_mono_mul(v, 0, 3, 3, 0, 1, 0, 0, 0, 0, 0, 0, 2, 0, 0);
    lemma_mono_mul(v, 0, 3, 3, 0, 1, 0, 0, 0, 0, 0, 0, 2, 2, 1);
    let row0 = m0_3_0_1_0_1_0 * r;
    assert(row0 == -m0_3_0_1_0_1_0 + m0_3_0_1_0_3_0 - m0_3_0_1_2_1_0 - m0_3_0_1_2_3_1) by (nonlinear_arith)
        requires
            row0 == m0_3_0_1_0_1_0 * r,
            r == -m0_0_0_0_0_0_0 + m0_0_0_0_0_2_0 - m0_0_0_0_2_0_0 - m0_0_0_0_2_2_1,
            m0_3_0_1_0_1_0 * m0_0_0_0_0_0_0 == m0_3_0_1_0_1_0,
            m0_3_0_1_0_1_0 * m0_0_0_0_0_2_0 == m0_3_0_1_0_3_0,
            m0_3_0_1_0_1_0 * m0_0_0_0_2_0_0 == m0_3_0_1_2_1_0,
            m0_3_0_1_0_1_0 * m0_0_0_0_2_2_1 == m0_3_0_1_2_3_1,
    ;
    let row1 = m0_3_0_3_0_1_0 * r;
    assert(row1 == -m0_3_0_3_0_1_0 + m0_3_0_3_0_3_0 - m0_3_0_3_2_1_0 - m0_3_0_3_2_3_1) by (nonlinear_arith)
        requires
            row1 == m0_3_0_3_0_1_0 * r,
            r == -m0_0_0_0_0_0_0 + m0_0_0_0_0_2_0 - m0_0_0_0_2_0_0 - m0_0_0_0_2_2_1,
            m0_3_0_3_0_1_0 * m0_0_0_0_0_0_0 == m0_3_0_3_0_1_0,
            m0_3_0_3_0_1_0 * m0_0_0_0_0_2_0 == m0_3_0_3_0_3_0,
            m0_3_0_3_0_1_0 * m0_0_0_0_2_0_0 == m0_3_0_3_2_1_0,
            m0_3_0_3_0_1_0 * m0_0_0_0_2_2_1 == m0_3_0_3_2_3_1,
    ;
    let row2 = m0_3_1_0_1_0_0 * r;
    assert(row2 == -m0_3_1_0_1_0_0 + m0_3_1_0_1_2_0 - m0_3_1_0_3_0_0 - m0_3_1_0_3_2_1) by (nonlinear_arith)
        requires
            row2 == m0_3_1_0_1_0_0 * r,
            r == -m0_0_0_0_0_0_0 + m0_0_0_0_0_2_0 - m0_0_0_0_2_0_0 - m0_0_0_0_2_2_1,
            m0_3_1_0_1_0_0 * m0_0_0_0_0_0_0 == m0_3_1_0_1_0_0,
            m0_3_1_0_1_0_0 * m0_0_0_0_0_2_0 == m0_3_1_0_1_2_0,
            m0_3_1_0_1_0_0 * m0_0_0_0_2_0_0 == m0_3_1_0_3_0_0,
            m0_3_1_0_1_0_0 * m0_0_0_0_2_2_1 == m0_3_1_0_3_2_1,
    ;
    let row3 = m0_3_1_2_1_0_0 * r;
    assert(row3 == -m0_3_1_2_1_0_0 + m0_3_1_2_1_2_0 - m0_3_1_2_3_0_0 - m0_3_1_2_3_2_1) by (nonlinear_arith)
        requires
            row3 == m0_3_1_2_1_0_0 * r,
            r == -m0_0_0_0_0_0_0 + m0_0_0_0_0_2_0 - m0_0_0_0_2_0_0 - m0_0_0_0_2_2_1,
            m0_3_1_2_1_0_0 * m0_0_0_0_0_0_0 == m0_3_1_2_1_0_0,
            m0_3_1_2_1_0_0 * m0_0_0_0_0_2_0 == m0_3_1_2_1_2_0,
            m0_3_1_2_1_0_0 * m0_0_0_0_2_0_0 == m0_3_1_2_3_0_0,
            m0_3_1_2_1_0_0 * m0_0_0_0_2_2_1 == m0_3_1_2_3_2_1,
    ;
    let row4 = m0_3_2_1_0_1_0 * r;
    assert(row4 == -m0_3_2_1_0_1_0 + m0_3_2_1_0_3_0 - m0_3_2_1_2_1_0 - m0_3_2_1_2_3_1) by (nonlinear_arith)
        requires
            row4 == m0_3_2_1_0_1_0 * r,
            r == -m0_0_0_0_0_0_0 + m0_0_0_0_0_2_0 - m0_0_0_0_2_0_0 - m0_0_0_0_2_2_1,
            m0_3_2_1_0_1_0 * m0_0_0_0_0_0_0 == m0_3_2_1_0_1_0,
            m0_3_2_1_0_1_0 * m0_0_0_0_0_2_0 == m0_3_2_1_0_3_0,
            m0_3_2_1_0_1_0 * m0_0_0_0_2_0_0 == m0_3_2_1_2_1_0,
            m0_3_2_1_0_1_0 * m0_0_0_0_2_2_1 == m0_3_2_1_2_3_1,
    ;
    let row5 = m0_3_3_0_1_0_0 * r;
    assert(row5 == -m0_3_3_0_1_0_0 + m0_3_3_0_1_2_0 - m0_3_3_0_3_0_0 - m0_3_3_0_3_2_1) by (nonlinear_arith)
        requires
            row5 == m0_3_3_0_1_0_0 * r,
            r == -m0_0_0_0_0_0_0 + m0_0_0_0_0_2_0 - m0_0_0_0_2_0_0 - m0_0_0_0_2_2_1,
            m0_3_3_0_1_0_0 * m0_0_0_0_0_0_0 == m0_3_3_0_1_0_0,
            m0_3_3_0_1_0_0 * m0_0_0_0_0_2_0 == m0_3_3_0_1_2_0,
            m0_3_3_0_1_0_0 * m0_0_0_0_2_0_0 == m0_3_3_0_3_0_0,
            m0_3_3_0_1_0_0 * m0_0_0_0_2_2_1 == m0_3_3_0_3_2_1,
    ;
    assert(p * r == row0 - row1 + row2 - row3 + row4 + row5) by (nonlinear_arith)
        requires
            p == m0_3_0_1_0_1_0 - m0_3_0_3_0_1_0 + m0_3_1_0_1_0_0 - m0_3_1_2_1_0_0 +
                m0_3_2_1_0_1_0 + m0_3_3_0_1_0_0,
            row0 == m0_3_0_1_0_1_0 * r,
            row1 == m0_3_0_3_0_1_0 * r,
            row2 == m0_3_1_0_1_0_0 * r,
            row3 == m0_3_1_2_1_0_0 * r,
            row4 == m0_3_2_1_0_1_0 * r,
            row5 == m0_3_3_0_1_0_0 * r,
    ;
}

/// A cofactor times the defect of a point.
proof fn lemma_associative_product_117(v: Vars, p: int, r: int)
    requires
        p == -mono(v, 1, 0, 0, 1, 1, 0, 0) + mono(v, 1, 0, 0, 3, 1, 0, 0) - mono(v, 1, 0, 1, 0,
            0, 1, 0) + mono(v, 1, 0, 1, 2, 0, 1, 0) - mono(v, 1, 0, 2, 1, 1, 0, 0) - mono(v, 1,
            0, 3, 0, 0, 1, 0),
        r == -mono(v, 0, 0, 0, 0, 0, 0, 0) + mono(v, 0, 0, 0, 0, 0, 2, 0) - mono(v, 0, 0, 0, 0,
            2, 0, 0) - mono(v, 0, 0, 0, 0, 2, 2, 1),
    ensures
        p * r == mono(v, 1, 0, 0, 1, 1, 0, 0) - mono(v, 1, 0, 0, 1, 1, 2, 0) + mono(v, 1, 0, 0, 1, 3,
            0, 0) + mono(v, 1, 0, 0, 1, 3, 2, 1) - mono(v, 1, 0, 0, 3, 1, 0, 0) + mono(v, 1, 0,
            0, 3, 1, 2, 0) - mono(v, 1, 0, 0, 3, 3, 0, 0) - mono(v, 1, 0, 0, 3, 3, 2, 1) +
            mono(v, 1, 0, 1, 0, 0, 1, 0) - mono(v, 1, 0, 1, 0, 0, 3, 0) + mono(v, 1, 0, 1, 0, 2,
            1, 0) + mono(v, 1, 0, 1, 0, 2, 3, 1) - mono(v, 1, 0, 1, 2, 0, 1, 0) + mono(v, 1, 0,
            1, 2, 0, 3, 0) - mono(v, 1, 0, 1, 2, 2, 1, 0) - mono(v, 1, 0, 1, 2, 2, 3, 1) +
            mono(v, 1, 0, 2, 1, 1, 0, 0) - mono(v, 1, 0, 2, 1, 1, 2, 0) + mono(v, 1, 0, 2, 1, 3,
            0, 0) + mono(v, 1, 0, 2, 1, 3, 2, 1) + mono(v, 1, 0, 3, 0, 0, 1, 0) - mono(v, 1, 0,
            3, 0, 0, 3, 0) + mono(v, 1, 0, 3, 0, 2, 1, 0) + mono(v, 1, 0, 3, 0, 2, 3, 1),
{
    let m1_0_0_1_1_0_0 = mono(v, 1, 0, 0, 1, 1, 0, 0);
    let m1_0_0_3_1_0_0 = mono(v, 1, 0, 0, 3, 1, 0, 0);
    let m1_0_1_0_0_1_0 = mono(v, 1, 0, 1, 0, 0, 1, 0);
    let m1_0_1_2_0_1_0 = mono(v, 1, 0, 1, 2, 0, 1, 0);
    let m1_0_2_1_1_0_0 = mono(v, 1, 0, 2, 1, 1, 0, 0);
    let m1_0_3_0_0_1_0 = mono(v, 1, 0, 3, 0, 0, 1, 0);
    let m0_0_0_0_0_0_0 = mono(v, 0, 0, 0, 0, 0, 0, 0);
    let m0_0_0_0_0_2_0 = mono(v, 0, 0, 0, 0, 0, 2, 0);
    let m0_0_0_0_2_0_0 = mono(v, 0, 0, 0, 0, 2, 0, 0);
    let m0_0_0_0_2_2_1 = mono(v, 0, 0, 0, 0, 2, 2, 1);
    let m1_0_0_1_1_2_0 = mono(v, 1, 0, 0, 1, 1, 2, 0);
    let m1_0_0_1_3_0_0 = mono(v, 1, 0, 0, 1, 3, 0, 0);
    let m1_0_0_1_3_2_1 = mono(v, 1, 0, 0, 1, 3, 2, 1);
    let m1_0_0_3_1_2_0 = mono(v, 1, 0, 0, 3, 1, 2, 0);
    let m1_0_0_3_3_0_0 = mono(v, 1, 0, 0, 3, 3, 0, 0);
    let m1_0_0_3_3_2_1 = mono(v, 1, 0, 0, 3, 3, 2, 1);
    let m1_0_1_0_0_3_0 = mono(v, 1, 0, 1, 0, 0, 3, 0);
    let m1_0_1_0_2_1_0 = mono(v, 1, 0, 1, 0, 2, 1, 0);
    let m1_0_1_0_2_3_1 = mono(v, 1, 0, 1, 0, 2, 3, 1);
    let m1_0_1_2_0_3_0 = mono(v, 1, 0, 1, 2, 0, 3, 0);
    let m1_0_1_2_2_1_0 = mono(v, 1, 0, 1, 2, 2, 1, 0);
    let m1_0_1_2_2_3_1 = mono(v, 1, 0, 1, 2, 2, 3, 1);
    let m1_0_2_1_1_2_0 = mono(v, 1, 0, 2, 1, 1, 2, 0);
    let m1_0_2_1_3_0_0 = mono(v, 1, 0, 2, 1, 3, 0, 0);
    let m1_0_2_1_3_2_1 = mono(v, 1, 0, 2, 1, 3, 2, 1);
    let m1_0_3_0_0_3_0 = mono(v, 1, 0, 3, 0, 0, 3, 0);
    let m1_0_3_0_2_1_0 = mono(v, 1, 0, 3, 0, 2, 1, 0);
    let m1_0_3_0_2_3_1 = mono(v, 1, 0, 3, 0, 2, 3, 1);
    lemma_mono_mul(v, 1, 0, 0, 1, 1, 0, 0, 0, 0, 0, 0, 0, 0, 0);
    lemma_mono_mul(v, 1, 0, 0, 1, 1, 0, 0, 0, 0, 0, 0, 0, 2, 0);
    lemma_mono_mul(v, 1, 0, 0, 1, 1, 0, 0, 0, 0, 0, 0, 2, 0, 0);
    lemma_mono_mul(v, 1, 0, 0, 1, 1, 0, 0, 0, 0, 0, 0, 2, 2, 1);
    lemma_mono_mul(v, 1, 0, 0, 3, 1, 0, 0, 0, 0, 0, 0, 0, 0, 0);
    lemma_mono_mul(v, 1, 0, 0, 3, 1, 0, 0, 0, 0, 0, 0, 0, 2, 0);
    lemma_mono_mul(v, 1, 0, 0, 3, 1, 0, 0, 0, 0, 0, 0, 2, 0, 0);
    lemma_mono_mul(v, 1, 0, 0, 3, 1, 0, 0, 0, 0, 0, 0, 2, 2, 1);
    lemma_mono_mul(v, 1, 0, 1, 0, 0, 1, 0, 0, 0, 0, 0, 0, 0, 0);
    lemma_mono_mul(v, 1, 0, 1, 0, 0, 1, 0, 0, 0, 0, 0, 0, 2, 0);
    lemma_mono_mul(v, 1, 0, 1, 0, 0, 1, 0, 0, 0, 0, 0, 2, 0, 0);
    lemma_mono_mul(v, 1, 0, 1, 0, 0, 1, 0, 0, 0, 0, 0, 2, 2, 1);
    lemma_mono_mul(v, 1, 0, 1, 2, 0, 1, 0, 0, 0, 0, 0, 0, 0, 0);
    lemma_mono_mul(v, 1, 0, 1, 2, 0, 1, 0, 0, 0, 0, 0, 0, 2, 0);
    lemma_mono_mul(v, 1, 0, 1, 2, 0, 1, 0, 0, 0, 0, 0, 2, 0, 0);
    lemma_mono_mul(v, 1, 0, 1, 2, 0, 1, 0, 0, 0, 0, 0, 2, 2, 1);
    lemma_mono_mul(v, 1, 0, 2, 1, 1, 0, 0, 0, 0, 0, 0, 0, 0, 0);
    lemma_mono_mul(v, 1, 0, 2, 1, 1, 0, 0, 0, 0, 0, 0, 0, 2, 0);
    lemma_mono_mul(v, 1, 0, 2, 1, 1, 0, 0, 0, 0, 0, 0, 2, 0, 0);
    lemma_mono_mul(v, 1, 0, 2, 1, 1, 0, 0, 0, 0, 0, 0, 2, 2, 1);
    lemma_mono_mul(v, 1, 0, 3, 0, 0, 1, 0, 0, 0, 0, 0, 0, 0, 0);
    lemma_mono_mul(v, 1, 0, 3, 0, 0, 1, 0, 0, 0, 0, 0, 0, 2, 0);
    lemma_mono_mul(v, 1, 0, 3, 0, 0, 1, 0, 0, 0, 0, 0, 2, 0, 0);
    lemma_mono_mul(v, 1, 0, 3, 0, 0, 1, 0, 0, 0, 0, 0, 2, 2, 1);
    let row0 = m1_0_0_1_1_0_0 * r;
    assert(row0 == -m1_0_0_1_1_0_0 + m1_0_0_1_1_2_0 - m1_0_0_1_3_0_0 - m1_0_0_1_3_2_1) by (nonlinear_arith)
        requires
            row0 == m1_0_0_1_1_0_0 * r,
            r == -m0_0_0_0_0_0_0 + m0_0_0_0_0_2_0 - m0_0_0_0_2_0_0 - m0_0_0_0_2_2_1,
            m1_0_0_1_1_0_0 * m0_0_0_0_0_0_0 == m1_0_0_1_1_0_0,
            m1_0_0_1_1_0_0 * m0_0_0_0_0_2_0 == m1_0_0_1_1_2_0,
            m1_0_0_1_1_0_0 * m0_0_0_0_2_0_0 == m1_0_0_1_3_0_0,
            m1_0_0_1_1_0_0 * m0_0_0_0_2_2_1 == m1_0_0_1_3_2_1,
    ;
    let row1 = m1_0_0_3_1_0_0 * r;
    assert(row1 == -m1_0_0_3_1_0_0 + m1_0_0_3_1_2_0 - m1_0_0_3_3_0_0 - m1_0_0_3_3_2_1) by (nonlinear_arith)
        requires
            row1 == m1_0_0_3_1_0_0 * r,
            r == -m0_0_0_0_0_0_0 + m0_0_0_0_0_2_0 - m0_0_0_0_2_0_0 - m0_0_0_0_2_2_1,
            m1_0_0_3_1_0_0 * m0_0_0_0_0_0_0 == m1_0_0_3_1_0_0,
            m1_0_0_3_1_0_0 * m0_0_0_0_0_2_0 == m1_0_0_3_1_2_0,
            m1_0_0_3_1_0_0 * m0_0_0_0_2_0_0 == m1_0_0_3_3_0_0,
            m1_0_0_3_1_0_0 * m0_0_0_0_2_2_1 == m1_0_0_3_3_2_1,
    ;
    let row2 = m1_0_1_0_0_1_0 * r;
    assert(row2 == -m1_0_1_0_0_1_0 + m1_0_1_0_0_3_0 - m1_0_1_0_2_1_0 - m1_0_1_0_2_3_1) by (nonlinear_arith)
        requires
            row2 == m1_0_1_0_0_1_0 * r,
            r == -m0_0_0_0_0_0_0 + m0_0_0_0_0_2_0 - m0_0_0_0_2_0_0 - m0_0_0_0_2_2_1,
            m1_0_1_0_0_1_0 * m0_0_0_0_0_0_0 == m1_0_1_0_0_1_0,
            m1_0_1_0_0_1_0 * m0_0_0_0_0_2_0 == m1_0_1_0_0_3_0,
            m1_0_1_0_0_1_0 * m0_0_0_0_2_0_0 == m1_0_1_0_2_1_0,
            m1_0_1_0_0_1_0 * m0_0_0_0_2_2_1 == m1_0_1_0_2_3_1,
    ;
    let row3 = m1_0_1_2_0_1_0 * r;
    assert(row3 == -m1_0_1_2_0_1_0 + m1_0_1_2_0_3_0 - m1_0_1_2_2_1_0 - m1_0_1_2_2_3_1) by (nonlinear_arith)
        requires
            row3 == m1_0_1_2_0_1_0 * r,
            r == -m0_0_0_0_0_0_0 + m0_0_0_0_0_2_0 - m0_0_0_0_2_0_0 - m0_0_0_0_2_2_1,
            m1_0_1_2_0_1_0 * m0_0_0_0_0_0_0 == m1_0_1_2_0_1_0,
            m1_0_1_2_0_1_0 * m0_0_0_0_0_2_0 == m1_0_1_2_0_3_0,
            m1_0_1_2_0_1_0 * m0_0_0_0_2_0_0 == m1_0_1_2_2_1_0,
            m1_0_1_2_0_1_0 * m0_0_0_0_2_2_1 == m1_0_1_2_2_3_1,
    ;
    let row4 = m1_0_2_1_1_0_0 * r;
    assert(row4 == -m1_0_2_1_1_0_0 + m1_0_2_1_1_2_0 - m1_0_2_1_3_0_0 - m1_0_2_1_3_2_1) by (nonlinear_arith)
        requires
            row4 == m1_0_2_1_1_0_0 * r,
            r == -m0_0_0_0_0_0_0 + m0_0_0_0_0_2_0 - m0_0_0_0_2_0_0 - m0_0_0_0_2_2_1,
            m1_0_2_1_1_0_0 * m0_0_0_0_0_0_0 == m1_0_2_1_1_0_0,
            m1_0_2_1_1_0_0 * m0_0_0_0_0_2_0 == m1_0_2_1_1_2_0,
            m1_0_2_1_1_0_0 * m0_0_0_0_2_0_0 == m1_0_2_1_3_0_0,
            m1_0_2_1_1_0_0 * m0_0_0_0_2_2_1 == m1_0_2_1_3_2_1,
    ;
    let row5 = m1_0_3_0_0_1_0 * r;
    assert(row5 == -m1_0_3_0_0_1_0 + m1_0_3_0_0_3_0 - m1_0_3_0_2_1_0 - m1_0_3_0_2_3_1) by (nonlinear_arith)
        requires
            row5 == m1_0_3_0_0_1_0 * r,
            r == -m0_0_0_0_0_0_0 + m0_0_0_0_0_2_0 - m0_0_0_0_2_0_0 - m0_0_0_0_2_2_1,
            m1_0_3_0_0_1_0 * m0_0_0_0_0_0_0 == m1_0_3_0_0_1_0,
            m1_0_3_0_0_1_0 * m0_0_0_0_0_2_0 == m1_0_3_0_0_3_0,
            m1_0_3_0_0_1_0 * m0_0_0_0_2_0_0 == m1_0_3_0_2_1_0,
            m1_0_3_0_0_1_0 * m0_0_0_0_2_2_1 == m1_0_3_0_2_3_1,
    ;
    assert(p * r == -row0 + row1 - row2 + row3 - row4 - row5) by (nonlinear_arith)
        requires
            p == -m1_0_0_1_1_0_0 + m1_0_0_3_1_0_0 - m1_0_1_0_0_1_0 + m1_0_1_2_0_1_0 -
                m1_0_2_1_1_0_0 - m1_0_3_0_0_1_0,
            row0 == m1_0_0_1_1_0_0 * r,
            row1 == m1_0_0_3_1_0_0 * r,
            row2 == m1_0_1_0_0_1_0 * r,
            row3 == m1_0_1_2_0_1_0 * r,
            row4 == m1_0_2_1_1_0_0 * r,
            row5 == m1_0_3_0_0_1_0 * r,
    ;
}

/// A cofactor times the defect of a point.
proof fn lemma_associative_product_118(v: Vars, p: int, r: int)
    requires
        p == mono(v, 1, 2, 0, 1, 1, 0, 0) - mono(v, 1, 2, 0, 3, 1, 0, 0) + mono(v, 1, 2, 1, 0, 0,
            1, 0) - mono(v, 1, 2, 1, 2, 0, 1, 0) - mono(v, 1, 2, 1, 2, 0, 1, 1) + mono(v, 1, 2,
            2, 1, 1, 0, 0),
        r == -mono(v, 0, 0, 0, 0, 0, 0, 0) + mono(v, 0, 0, 0, 0, 0, 2, 0) - mono(v, 0, 0, 0, 0,
            2, 0, 0) - mono(v, 0, 0, 0, 0, 2, 2, 1),
    ensures
        p * r == -mono(v, 1, 2, 0, 1, 1, 0, 0) + mono(v, 1, 2, 0, 1, 1, 2, 0) - mono(v, 1, 2, 0, 1,
            3, 0, 0) - mono(v, 1, 2, 0, 1, 3, 2, 1) + mono(v, 1, 2, 0, 3, 1, 0, 0) - mono(v, 1,
            2, 0, 3, 1, 2, 0) + mono(v, 1, 2, 0, 3, 3, 0, 0) + mono(v, 1, 2, 0, 3, 3, 2, 1) -
            mono(v, 1, 2, 1, 0, 0, 1, 0) + mono(v, 1, 2, 1, 0, 0, 3, 0) - mono(v, 1, 2, 1, 0, 2,
            1, 0) - mono(v, 1, 2, 1, 0, 2, 3, 1) + mono(v, 1, 2, 1, 2, 0, 1, 0) + mono(v, 1, 2,
            1, 2, 0, 1, 1) - mono(v, 1, 2, 1, 2, 0, 3, 0) - mono(v, 1, 2, 1, 2, 0, 3, 1) +
            mono(v, 1, 2, 1, 2, 2, 1, 0) + mono(v, 1, 2, 1, 2, 2, 1, 1) + mono(v, 1, 2, 1, 2, 2,
            3, 1) + mono(v, 1, 2, 1, 2, 2, 3, 2) - mono(v, 1, 2, 2, 1, 1, 0, 0) + mono(v, 1, 2,
            2, 1, 1, 2, 0) - mono(v, 1, 2, 2, 1, 3, 0, 0) - mono(v, 1, 2, 2, 1, 3, 2, 1),
{
    let m1_2_0_1_1_0_0 = mono(v, 1, 2, 0, 1, 1, 0, 0);
    let m1_2_0_3_1_0_0 = mono(v, 1, 2, 0, 3, 1, 0, 0);
    let m1_2_1_0_0_1_0 = mono(v, 1, 2, 1, 0, 0, 1, 0);
    let m1_2_1_2_0_1_0 = mono(v, 1, 2, 1, 2, 0, 1, 0);
    let m1_2_1_2_0_1_1 = mono(v, 1, 2, 1, 2, 0, 1, 1);
    let m1_2_2_1_1_0_0 = mono(v, 1, 2, 2, 1, 1, 0, 0);
    let m0_0_0_0_0_0_0 = mono(v, 0, 0, 0, 0, 0, 0, 0);
    let m0_0_0_0_0_2_0 = mono(v, 0, 0, 0, 0, 0, 2, 0);
    let m0_0_0_0_2_0_0 = mono(v, 0, 0, 0, 0, 2, 0, 0);
    let m0_0_0_0_2_2_1 = mono(v, 0, 0, 0, 0, 2, 2, 1);
    let m1_2_0_1_1_2_0 = mono(v, 1, 2, 0, 1, 1, 2, 0);
    let m1_2_0_1_3_0_0 = mono(v, 1, 2, 0, 1, 3, 0, 0);
    let m1_2_0_1_3_2_1 = mono(v, 1, 2, 0, 1, 3, 2, 1);
    let m1_2_0_3_1_2_0 = mono(v, 1, 2, 0, 3, 1, 2, 0);
    let m1_2_0_3_3_0_0 = mono(v, 1, 2, 0, 3, 3, 0, 0);
    let m1_2_0_3_3_2_1 = mono(v, 1, 2, 0, 3, 3, 2, 1);
    let m1_2_1_0_0_3_0 = mono(v, 1, 2, 1, 0, 0, 3, 0);
    let m1_2_1_0_2_1_0 = mono(v, 1, 2, 1, 0, 2, 1, 0);
    let m1_2_1_0_2_3_1 = mono(v, 1, 2, 1, 0, 2, 3, 1);
    let m1_2_1_2_0_3_0 = mono(v, 1, 2, 1, 2, 0, 3, 0);
    let m1_2_1_2_2_1_0 = mono(v, 1, 2, 1, 2, 2, 1, 0);
    let m1_2_1_2_2_3_1 = mono(v, 1, 2, 1, 2, 2, 3, 1);
    let m1_2_1_2_0_3_1 = mono(v, 1, 2, 1, 2, 0, 3, 1);
    let m1_2_1_2_2_1_1 = mono(v, 1, 2, 1, 2, 2, 1, 1);
    let m1_2_1_2_2_3_2 = mono(v, 1, 2, 1, 2, 2, 3, 2);
    let m1_2_2_1_1_2_0 = mono(v, 1, 2, 2, 1, 1, 2, 0);
    let m1_2_2_1_3_0_0 = mono(v, 1, 2, 2, 1, 3, 0, 0);
    let m1_2_2_1_3_2_1 = mono(v, 1, 2, 2, 1, 3, 2, 1);
    lemma_mono_mul(v, 1, 2, 0, 1, 1, 0, 0, 0, 0, 0, 0, 0, 0, 0);
    lemma_mono_mul(v, 1, 2, 0, 1, 1, 0, 0, 0, 0, 0, 0, 0, 2, 0);
    lemma_mono_mul(v, 1, 2, 0, 1, 1, 0, 0, 0, 0, 0, 0, 2, 0, 0);
    lemma_mono_mul(v, 1, 2, 0, 1, 1, 0, 0, 0, 0, 0, 0, 2, 2, 1);
    lemma_mono_mul(v, 1, 2, 0, 3, 1, 0, 0, 0, 0, 0, 0, 0, 0, 0);
    lemma_mono_mul(v, 1, 2, 0, 3, 1, 0, 0, 0, 0, 0, 0, 0, 2, 0);
    lemma_mono_mul(v, 1, 2, 0, 3, 1, 0, 0, 0, 0, 0, 0, 2, 0, 0);
    lemma_mono_mul(v, 1, 2, 0, 3, 1, 0, 0, 0, 0, 0, 0, 2, 2, 1);
    lemma_mono_mul(v, 1, 2, 1, 0, 0, 1, 0, 0, 0, 0, 0, 0, 0, 0);
    lemma_mono_mul(v, 1, 2, 1, 0, 0, 1, 0, 0, 0, 0, 0, 0, 2, 0);
    lemma_mono_mul(v, 1, 2, 1, 0, 0, 1, 0, 0, 0, 0, 0, 2, 0, 0);
    lemma_mono_mul(v, 1, 2, 1, 0, 0, 1, 0, 0, 0, 0, 0, 2, 2, 1);
    lemma_mono_mul(v, 1, 2, 1, 2, 0, 1, 0, 0, 0, 0, 0, 0, 0, 0);
    lemma_mono_mul(v, 1, 2, 1, 2, 0, 1, 0, 0, 0, 0, 0, 0, 2, 0);
    lemma_mono_mul(v, 1, 2, 1, 2, 0, 1, 0, 0, 0, 0, 0, 2, 0, 0);
    lemma_mono_mul(v, 1, 2, 1, 2, 0, 1, 0, 0, 0, 0, 0, 2, 2, 1);
    lemma_mono_mul(v, 1, 2, 1, 2, 0, 1, 1, 0, 0, 0, 0, 0, 0, 0);
    lemma_mono_mul(v, 1, 2, 1, 2, 0, 1, 1, 0, 0, 0, 0, 0, 2, 0);
    lemma_mono_mul(v, 1, 2, 1, 2, 0, 1, 1, 0, 0, 0, 0, 2, 0, 0);
    lemma_mono_mul(v, 1, 2, 1, 2, 0, 1, 1, 0, 0, 0, 0, 2, 2, 1);
    lemma_mono_mul(v, 1, 2, 2, 1, 1, 0, 0, 0, 0, 0, 0, 0, 0, 0);
    lemma_mono_mul(v, 1, 2, 2, 1, 1, 0, 0, 0, 0, 0, 0, 0, 2, 0);
    lemma_mono_mul(v, 1, 2, 2, 1, 1, 0, 0, 0, 0, 0, 0, 2, 0, 0);
    lemma_mono_mul(v, 1, 2, 2, 1, 1, 0, 0, 0, 0, 0, 0, 2, 2, 1);
    let row0 = m1_2_0_1_1_0_0 * r;
    assert(row0 == -m1_2_0_1_1_0_0 + m1_2_0_1_1_2_0 - m1_2_0_1_3_0_0 - m1_2_0_1_3_2_1) by (nonlinear_arith)
        requires
            row0 == m1_2_0_1_1_0_0 * r,
            r == -m0_0_0_0_0_0_0 + m0_0_0_0_0_2_0 - m0_0_0_0_2_0_0 - m0_0_0_0_2_2_1,
            m1_2_0_1_1_0_0 * m0_0_0_0_0_0_0 == m1_2_0_1_1_0_0,
            m1_2_0_1_1_0_0 * m0_0_0_0_0_2_0 == m1_2_0_1_1_2_0,
            m1_2_0_1_1_0_0 * m0_0_0_0_2_0_0 == m1_2_0_1_3_0_0,
            m1_2_0_1_1_0_0 * m0_0_0_0_2_2_1 == m1_2_0_1_3_2_1,
    ;
    let row1 = m1_2_0_3_1_0_0 * r;
    assert(row1 == -m1_2_0_3_1_0_0 + m1_2_0_3_1_2_0 - m1_2_0_3_3_0_0 - m1_2_0_3_3_2_1) by (nonlinear_arith)
        requires
            row1 == m1_2_0_3_1_0_0 * r,
            r == -m0_0_0_0_0_0_0 + m0_0_0_0_0_2_0 - m0_0_0_0_2_0_0 - m0_0_0_0_2_2_1,
            m1_2_0_3_1_0_0 * m0_0_0_0_0_0_0 == m1_2_0_3_1_0_0,
            m1_2_0_3_1_0_0 * m0_0_0_0_0_2_0 == m1_2_0_3_1_2_0,
            m1_2_0_3_1_0_0 * m0_0_0_0_2_0_0 == m1_2_0_3_3_0_0,
            m1_2_0_3_1_0_0 * m0_0_0_0_2_2_1 == m1_2_0_3_3_2_1,
    ;
    let row2 = m1_2_1_0_0_1_0 * r;
    assert(row2 == -m1_2_1_0_0_1_0 + m1_2_1_0_0_3_0 - m1_2_1_0_2_1_0 - m1_2_1_0_2_3_1) by (nonlinear_arith)
        requires
            row2 == m1_2_1_0_0_1_0 * r,
            r == -m0_0_0_0_0_0_0 + m0_0_0_0_0_2_0 - m0_0_0_0_2_0_0 - m0_0_0_0_2_2_1,
            m1_2_1_0_0_1_0 * m0_0_0_0_0_0_0 == m1_2_1_0_0_1_0,
            m1_2_1_0_0_1_0 * m0_0_0_0_0_2_0 == m1_2_1_0_0_3_0,
            m1_2_1_0_0_1_0 * m0_0_0_0_2_0_0 == m1_2_1_0_2_1_0,
            m1_2_1_0_0_1_0 * m0_0_0_0_2_2_1 == m1_2_1_0_2_3_1,
    ;
    let row3 = m1_2_1_2_0_1_0 * r;
    assert(row3 == -m1_2_1_2_0_1_0 + m1_2_1_2_0_3_0 - m1_2_1_2_2_1_0 - m1_2_1_2_2_3_1) by (nonlinear_arith)
        requires
            row3 == m1_2_1_2_0_1_0 * r,
            r == -m0_0_0_0_0_0_0 + m0_0_0_0_0_2_0 - m0_0_0_0_2_0_0 - m0_0_0_0_2_2_1,
            m1_2_1_2_0_1_0 * m0_0_0_0_0_0_0 == m1_2_1_2_0_1_0,
            m1_2_1_2_0_1_0 * m0_0_0_0_0_2_0 == m1_2_1_2_0_3_0,
            m1_2_1_2_0_1_0 * m0_0_0_0_2_0_0 == m1_2_1_2_2_1_0,
            m1_2_1_2_0_1_0 * m0_0_0_0_2_2_1 == m1_2_1_2_2_3_1,
    ;
    let row4 = m1_2_1_2_0_1_1 * r;
    assert(row4 == -m1_2_1_2_0_1_1 + m1_2_1_2_0_3_1 - m1_2_1_2_2_1_1 - m1_2_1_2_2_3_2) by (nonlinear_arith)
        requires
            row4 == m1_2_1_2_0_1_1 * r,
            r == -m0_0_0_0_0_0_0 + m0_0_0_0_0_2_0 - m0_0_0_0_2_0_0 - m0_0_0_0_2_2_1,
            m1_2_1_2_0_1_1 * m0_0_0_0_0_0_0 == m1_2_1_2_0_1_1,
            m1_2_1_2_0_1_1 * m0_0_0_0_0_2_0 == m1_2_1_2_0_3_1,
            m1_2_1_2_0_1_1 * m0_0_0_0_2_0_0 == m1_2_1_2_2_1_1,
            m1_2_1_2_0_1_1 * m0_0_0_0_2_2_1 == m1_2_1_2_2_3_2,
    ;
    let row5 = m1_2_2_1_1_0_0 * r;
    assert(row5 == -m1_2_2_1_1_0_0 + m1_2_2_1_1_2_0 - m1_2_2_1_3_0_0 - m1_2_2_1_3_2_1) by (nonlinear_arith)
        requires
            row5 == m1_2_2_1_1_0_0 * r,
            r == -m0_0_0_0_0_0_0 + m0_0_0_0_0_2_0 - m0_0_0_0_2_0_0 - m0_0_0_0_2_2_1,
            m1_2_2_1_1_0_0 * m0_0_0_0_0_0_0 == m1_2_2_1_1_0_0,
            m1_2_2_1_1_0_0 * m0_0_0_0_0_2_0 == m1_2_2_1_1_2_0,
            m1_2_2_1_1_0_0 * m0_0_0_0_2_0_0 == m1_2_2_1_3_0_0,
            m1_2_2_1_1_0_0 * m0_0_0_0_2_2_1 == m1_2_2_1_3_2_1,
    ;
    assert(p * r == row0 - row1 + row2 - row3 - row4 + row5) by (nonlinear_arith)
        requires
            p == m1_2_0_1_1_0_0 - m1_2_0_3_1_0_0 + m1_2_1_0_0_1_0 - m1_2_1_2_0_1_0 -
                m1_2_1_2_0_1_1 + m1_2_2_1_1_0_0,
            row0 == m1_2_0_1_1_0_0 * r,
            row1 == m1_2_0_3_1_0_0 * r,
            row2 == m1_2_1_0_0_1_0 * r,
            row3 == m1_2_1_2_0_1_0 * r,
            row4 == m1_2_1_2_0_1_1 * r,
            row5 == m1_2_2_1_1_0_0 * r,
    ;
}

/// A cofactor times the defect of a point.
proof fn lemma_associative_product_119(v: Vars, p: int, r: int)
    requires
        p == mono(v, 1, 2, 2, 1, 1, 0, 1) + mono(v, 1, 2, 3, 0, 0, 1, 0) - mono(v, 2, 1, 0, 1, 0,
            1, 0) + mono(v, 2, 1, 0, 3, 0, 1, 0) - mono(v, 2, 1, 1, 0, 1, 0, 0) + mono(v, 2, 1,
            1, 2, 1, 0, 0),
        r == -mono(v, 0, 0, 0, 0, 0, 0, 0) + mono(v, 0, 0, 0, 0, 0, 2, 0) - mono(v, 0, 0, 0, 0,
            2, 0, 0) - mono(v, 0, 0, 0, 0, 2, 2, 1),
    ensures
        p * r == -mono(v, 1, 2, 2, 1, 1, 0, 1) + mono(v, 1, 2, 2, 1, 1, 2, 1) - mono(v, 1, 2, 2, 1,
            3, 0, 1) - mono(v, 1, 2, 2, 1, 3, 2, 2) - mono(v, 1, 2, 3, 0, 0, 1, 0) + mono(v, 1,
            2, 3, 0, 0, 3, 0) - mono(v, 1, 2, 3, 0, 2, 1, 0) - mono(v, 1, 2, 3, 0, 2, 3, 1) +
            mono(v, 2, 1, 0, 1, 0, 1, 0) - mono(v, 2, 1, 0, 1, 0, 3, 0) + mono(v, 2, 1, 0, 1, 2,
            1, 0) + mono(v, 2, 1, 0, 1, 2, 3, 1) - mono(v, 2, 1, 0, 3, 0, 1, 0) + mono(v, 2, 1,
            0, 3, 0, 3, 0) - mono(v, 2, 1, 0, 3, 2, 1, 0) - mono(v, 2, 1, 0, 3, 2, 3, 1) +
            mono(v, 2, 1, 1, 0, 1, 0, 0) - mono(v, 2, 1, 1, 0, 1, 2, 0) + mono(v, 2, 1, 1, 0, 3,
            0, 0) + mono(v, 2, 1, 1, 0, 3, 2, 1) - mono(v, 2, 1, 1, 2, 1, 0, 0) + mono(v, 2, 1,
            1, 2, 1, 2, 0) - mono(v, 2, 1, 1, 2, 3, 0, 0) - mono(v, 2, 1, 1, 2, 3, 2, 1),
{
    let m1_2_2_1_1_0_1 = mono(v, 1, 2, 2, 1, 1, 0, 1);
    let m1_2_3_0_0_1_0 = mono(v, 1, 2, 3, 0, 0, 1, 0);
    let m2_1_0_1_0_1_0 = mono(v, 2, 1, 0, 1, 0, 1, 0);
    let m2_1_0_3_0_1_0 = mono(v, 2, 1, 0, 3, 0, 1, 0);
    let m2_1_1_0_1_0_0 = mono(v, 2, 1, 1, 0, 1, 0, 0);
    let m2_1_1_2_1_0_0 = mono(v, 2, 1, 1, 2, 1, 0, 0);
    let m0_0_0_0_0_0_0 = mono(v, 0, 0, 0, 0, 0, 0, 0);
    let m0_0_0_0_0_2_0 = mono(v, 0, 0, 0, 0, 0, 2, 0);
    let m0_0_0_0_2_0_0 = mono(v, 0, 0, 0, 0, 2, 0, 0);
    let m0_0_0_0_2_2_1 = mono(v, 0, 0, 0, 0, 2, 2, 1);
    let m1_2_2_1_1_2_1 = mono(v, 1, 2, 2, 1, 1, 2, 1);
    let m1_2_2_1_3_0_1 = mono(v, 1, 2, 2, 1, 3, 0, 1);
    let m1_2_2_1_3_2_2 = mono(v, 1, 2, 2, 1, 3, 2, 2);
    let m1_2_3_0_0_3_0 = mono(v, 1, 2, 3, 0, 0, 3, 0);
    let m1_2_3_0_2_1_0 = mono(v, 1, 2, 3, 0, 2, 1, 0);
    let m1_2_3_0_2_3_1 = mono(v, 1, 2, 3, 0, 2, 3, 1);
    let m2_1_0_1_0_3_0 = mono(v, 2, 1, 0, 1, 0, 3, 0);
    let m2_1_0_1_2_1_0 = mono(v, 2, 1, 0, 1, 2, 1, 0);
    let m2_1_0_1_2_3_1 = mono(v, 2, 1, 0, 1, 2, 3, 1);
    let m2_1_0_3_0_3_0 = mono(v, 2, 1, 0, 3, 0, 3, 0);
    let m2_1_0_3_2_1_0 = mono(v, 2, 1, 0, 3, 2, 1, 0);
    let m2_1_0_3_2_3_1 = mono(v, 2, 1, 0, 3, 2, 3, 1);
    let m2_1_1_0_1_2_0 = mono(v, 2, 1, 1, 0, 1, 2, 0);
    let m2_1_1_0_3_0_0 = mono(v, 2, 1, 1, 0, 3, 0, 0);
    let m2_1_1_0_3_2_1 = mono(v, 2, 1, 1, 0, 3, 2, 1);
    let m2_1_1_2_1_2_0 = mono(v, 2, 1, 1, 2, 1, 2, 0);
    let m2_1_1_2_3_0_0 = mono(v, 2, 1, 1, 2, 3, 0, 0);
    let m2_1_1_2_3_2_1 = mono(v, 2, 1, 1, 2, 3, 2, 1);
    lemma_mono_mul(v, 1, 2, 2, 1, 1, 0, 1, 0, 0, 0, 0, 0, 0, 0);
    lemma_mono_mul(v, 1, 2, 2, 1, 1, 0, 1, 0, 0, 0, 0, 0, 2, 0);
    lemma_mono_mul(v, 1, 2, 2, 1, 1, 0, 1, 0, 0, 0, 0, 2, 0, 0);
    lemma_mono_mul(v, 1, 2, 2, 1, 1, 0, 1, 0, 0, 0, 0, 2, 2, 1);
    lemma_mono_mul(v, 1, 2, 3, 0, 0, 1, 0, 0, 0, 0, 0, 0, 0, 0);
    lemma_mono_mul(v, 1, 2, 3, 0, 0, 1, 0, 0, 0, 0, 0, 0, 2, 0);
    lemma_mono_mul(v, 1, 2, 3, 0, 0, 1, 0, 0, 0, 0, 0, 2, 0, 0);
    lemma_mono_mul(v, 1, 2, 3, 0, 0, 1, 0, 0, 0, 0, 0, 2, 2, 1);
    lemma_mono_mul(v, 2, 1, 0, 1, 0, 1, 0, 0, 0, 0, 0, 0, 0, 0);
    lemma_mono_mul(v, 2, 1, 0, 1, 0, 1, 0, 0, 0, 0, 0, 0, 2, 0);
    lemma_mono_mul(v, 2, 1, 0, 1, 0, 1, 0, 0, 0, 0, 0, 2, 0, 0);
    lemma_mono_mul(v, 2, 1, 0, 1, 0, 1, 0, 0, 0, 0, 0, 2, 2, 1);
    lemma_mono_mul(v, 2, 1, 0, 3, 0, 1, 0, 0, 0, 0, 0, 0, 0, 0);
    lemma_mono_mul(v, 2, 1, 0, 3, 0, 1, 0, 0, 0, 0, 0, 0, 2, 0);
    lemma_mono_mul(v, 2, 1, 0, 3, 0, 1, 0, 0, 0, 0, 0, 2, 0, 0);
    lemma_mono_mul(v, 2, 1, 0, 3, 0, 1, 0, 0, 0, 0, 0, 2, 2, 1);
    lemma_mono_mul(v, 2, 1, 1, 0, 1, 0, 0, 0, 0, 0, 0, 0, 0, 0);
    lemma_mono_mul(v, 2, 1, 1, 0, 1, 0, 0, 0, 0, 0, 0, 0, 2, 0);
    lemma_mono_mul(v, 2, 1, 1, 0, 1, 0, 0, 0, 0, 0, 0, 2, 0, 0);
    lemma_mono_mul(v, 2, 1, 1, 0, 1, 0, 0, 0, 0, 0, 0, 2, 2, 1);
    lemma_mono_mul(v, 2, 1, 1, 2, 1, 0, 0, 0, 0, 0, 0, 0, 0, 0);
    lemma_mono_mul(v, 2, 1, 1, 2, 1, 0, 0, 0, 0, 0, 0, 0, 2, 0);
    lemma_mono_mul(v, 2, 1, 1, 2, 1, 0, 0, 0, 0, 0, 0, 2, 0, 0);
    lemma_mono_mul(v, 2, 1, 1, 2, 1, 0, 0, 0, 0, 0, 0, 2, 2, 1);
    let row0 = m1_2_2_1_1_0_1 * r;
    assert(row0 == -m1_2_2_1_1_0_1 + m1_2_2_1_1_2_1 - m1_2_2_1_3_0_1 - m1_2_2_1_3_2_2) by (nonlinear_arith)
        requires
            row0 == m1_2_2_1_1_0_1 * r,
            r == -m0_0_0_0_0_0_0 + m0_0_0_0_0_2_0 - m0_0_0_0_2_0_0 - m0_0_0_0_2_2_1,
            m1_2_2_1_1_0_1 * m0_0_0_0_0_0_0 == m1_2_2_1_1_0_1,
            m1_2_2_1_1_0_1 * m0_0_0_0_0_2_0 == m1_2_2_1_1_2_1,
            m1_2_2_1_1_0_1 * m0_0_0_0_2_0_0 == m1_2_2_1_3_0_1,
            m1_2_2_1_1_0_1 * m0_0_0_0_2_2_1 == m1_2_2_1_3_2_2,
    ;
    let row1 = m1_2_3_0_0_1_0 * r;
    assert(row1 == -m1_2_3_0_0_1_0 + m1_2_3_0_0_3_0 - m1_2_3_0_2_1_0 - m1_2_3_0_2_3_1) by (nonlinear_arith)
        requires
            row1 == m1_2_3_0_0_1_0 * r,
            r == -m0_0_0_0_0_0_0 + m0_0_0_0_0_2_0 - m0_0_0_0_2_0_0 - m0_0_0_0_2_2_1,
            m1_2_3_0_0_1_0 * m0_0_0_0_0_0_0 == m1_2_3_0_0_1_0,
            m1_2_3_0_0_1_0 * m0_0_0_0_0_2_0 == m1_2_3_0_0_3_0,
            m1_2_3_0_0_1_0 * m0_0_0_0_2_0_0 == m1_2_3_0_2_1_0,
            m1_2_3_0_0_1_0 * m0_0_0_0_2_2_1 == m1_2_3_0_2_3_1,
    ;
    let row2 = m2_1_0_1_0_1_0 * r;
    assert(row2 == -m2_1_0_1_0_1_0 + m2_1_0_1_0_3_0 - m2_1_0_1_2_1_0 - m2_1_0_1_2_3_1) by (nonlinear_arith)
        requires
            row2 == m2_1_0_1_0_1_0 * r,
            r == -m0_0_0_0_0_0_0 + m0_0_0_0_0_2_0 - m0_0_0_0_2_0_0 - m0_0_0_0_2_2_1,
            m2_1_0_1_0_1_0 * m0_0_0_0_0_0_0 == m2_1_0_1_0_1_0,
            m2_1_0_1_0_1_0 * m0_0_0_0_0_2_0 == m2_1_0_1_0_3_0,
            m2_1_0_1_0_1_0 * m0_0_0_0_2_0_0 == m2_1_0_1_2_1_0,
            m2_1_0_1_0_1_0 * m0_0_0_0_2_2_1 == m2_1_0_1_2_3_1,
    ;
    let row3 = m2_1_0_3_0_1_0 * r;
    assert(row3 == -m2_1_0_3_0_1_0 + m2_1_0_3_0_3_0 - m2_1_0_3_2_1_0 - m2_1_0_3_2_3_1) by (nonlinear_arith)
        requires
            row3 == m2_1_0_3_0_1_0 * r,
            r == -m0_0_0_0_0_0_0 + m0_0_0_0_0_2_0 - m0_0_0_0_2_0_0 - m0_0_0_0_2_2_1,
            m2_1_0_3_0_1_0 * m0_0_0_0_0_0_0 == m2_1_0_3_0_1_0,
            m2_1_0_3_0_1_0 * m0_0_0_0_0_2_0 == m2_1_0_3_0_3_0,
            m2_1_0_3_0_1_0 * m0_0_0_0_2_0_0 == m2_1_0_3_2_1_0,
            m2_1_0_3_0_1_0 * m0_0_0_0_2_2_1 == m2_1_0_3_2_3_1,
    ;
    let row4 = m2_1_1_0_1_0_0 * r;
    assert(row4 == -m2_1_1_0_1_0_0 + m2_1_1_0_1_2_0 - m2_1_1_0_3_0_0 - m2_1_1_0_3_2_1) by (nonlinear_arith)
        requires
            row4 == m2_1_1_0_1_0_0 * r,
            r == -m0_0_0_0_0_0_0 + m0_0_0_0_0_2_0 - m0_0_0_0_2_0_0 - m0_0_0_0_2_2_1,
            m2_1_1_0_1_0_0 * m0_0_0_0_0_0_0 == m2_1_1_0_1_0_0,
            m2_1_1_0_1_0_0 * m0_0_0_0_0_2_0 == m2_1_1_0_1_2_0,
            m2_1_1_0_1_0_0 * m0_0_0_0_2_0_0 == m2_1_1_0_3_0_0,
            m2_1_1_0_1_0_0 * m0_0_0_0_2_2_1 == m2_1_1_0_3_2_1,
    ;
    let row5 = m2_1_1_2_1_0_0 * r;
    assert(row5 == -m2_1_1_2_1_0_0 + m2_1_1_2_1_2_0 - m2_1_1_2_3_0_0 - m2_1_1_2_3_2_1) by (nonlinear_arith)
        requires
            row5 == m2_1_1_2_1_0_0 * r,
            r == -m0_0_0_0_0_0_0 + m0_0_0_0_0_2_0 - m0_0_0_0_2_0_0 - m0_0_0_0_2_2_1,
            m2_1_1_2_1_0_0 * m0_0_0_0_0_0_0 == m2_1_1_2_1_0_0,
            m2_1_1_2_1_0_0 * m0_0_0_0_0_2_0 == m2_1_1_2_1_2_0,
            m2_1_1_2_1_0_0 * m0_0_0_0_2_0_0 == m2_1_1_2_3_0_0,
            m2_1_1_2_1_0_0 * m0_0_0_0_2_2_1 == m2_1_1_2_3_2_1,
    ;
    assert(p * r == row0 + row1 - row2 + row3 - row4 + row5) by (nonlinear_arith)
        requires
            p == m1_2_2_1_1_0_1 + m1_2_3_0_0_1_0 - m2_1_0_1_0_1_0 + m2_1_0_3_0_1_0 -
                m2_1_1_0_1_0_0 + m2_1_1_2_1_0_0,
            row0 == m1_2_2_1_1_0_1 * r,
            row1 == m1_2_3_0_0_1_0 * r,
            row2 == m2_1_0_1_0_1_0 * r,
            row3 == m2_1_0_3_0_1_0 * r,
            row4 == m2_1_1_0_1_0_0 * r,
            row5 == m2_1_1_2_1_0_0 * r,
    ;
}

/// A cofactor times the defect of a point.
proof fn lemma_associative_product_120(v: Vars, p: int, r: int)
    requires
        p == mono(v, 2, 1, 1, 2, 1, 0, 1) - mono(v, 2, 1, 2, 1, 0, 1, 0) - mono(v, 2, 1, 2, 1, 0,
            1, 1) - mono(v, 2, 1, 3, 0, 1, 0, 0) - mono(v, 3, 0, 0, 1, 1, 0, 0) + mono(v, 3, 0,
            0, 3, 1, 0, 0),
        r == -mono(v, 0, 0, 0, 0, 0, 0, 0) + mono(v, 0, 0, 0, 0, 0, 2, 0) - mono(v, 0, 0, 0, 0,
            2, 0, 0) - mono(v, 0, 0, 0, 0, 2, 2, 1),
    ensures
        p * r == -mono(v, 2, 1, 1, 2, 1, 0, 1) + mono(v, 2, 1, 1, 2, 1, 2, 1) - mono(v, 2, 1, 1, 2,
            3, 0, 1) - mono(v, 2, 1, 1, 2, 3, 2, 2) + mono(v, 2, 1, 2, 1, 0, 1, 0) + mono(v, 2,
            1, 2, 1, 0, 1, 1) - mono(v, 2, 1, 2, 1, 0, 3, 0) - mono(v, 2, 1, 2, 1, 0, 3, 1) +
            mono(v, 2, 1, 2, 1, 2, 1, 0) + mono(v, 2, 1, 2, 1, 2, 1, 1) + mono(v, 2, 1, 2, 1, 2,
            3, 1) + mono(v, 2, 1, 2, 1, 2, 3, 2) + mono(v, 2, 1, 3, 0, 1, 0, 0) - mono(v, 2, 1,
            3, 0, 1, 2, 0) + mono(v, 2, 1, 3, 0, 3, 0, 0) + mono(v, 2, 1, 3, 0, 3, 2, 1) +
            mono(v, 3, 0, 0, 1, 1, 0, 0) - mono(v, 3, 0, 0, 1, 1, 2, 0) + mono(v, 3, 0, 0, 1, 3,
            0, 0) + mono(v, 3, 0, 0, 1, 3, 2, 1) - mono(v, 3, 0, 0, 3, 1, 0, 0) + mono(v, 3, 0,
            0, 3, 1, 2, 0) - mono(v, 3, 0, 0, 3, 3, 0, 0) - mono(v, 3, 0, 0, 3, 3, 2, 1),
{
    let m2_1_1_2_1_0_1 = mono(v, 2, 1, 1, 2, 1, 0, 1);
    let m2_1_2_1_0_1_0 = mono(v, 2, 1, 2, 1, 0, 1, 0);
    let m2_1_2_1_0_1_1 = mono(v, 2, 1, 2, 1, 0, 1, 1);
    let m2_1_3_0_1_0_0 = mono(v, 2, 1, 3, 0, 1, 0, 0);
    let m3_0_0_1_1_0_0 = mono(v, 3, 0, 0, 1, 1, 0, 0);
    let m3_0_0_3_1_0_0 = mono(v, 3, 0, 0, 3, 1, 0, 0);
    let m0_0_0_0_0_0_0 = mono(v, 0, 0, 0, 0, 0, 0, 0);
    let m0_0_0_0_0_2_0 = mono(v, 0, 0, 0, 0, 0, 2, 0);
    let m0_0_0_0_2_0_0 = mono(v, 0, 0, 0, 0, 2, 0, 0);
    let m0_0_0_0_2_2_1 = mono(v, 0, 0, 0, 0, 2, 2, 1);
    let m2_1_1_2_1_2_1 = mono(v, 2, 1, 1, 2, 1, 2, 1);
    let m2_1_1_2_3_0_1 = mono(v, 2, 1, 1, 2, 3, 0, 1);
    let m2_1_1_2_3_2_2 = mono(v, 2, 1, 1, 2, 3, 2, 2);
    let m2_1_2_1_0_3_0 = mono(v, 2, 1, 2, 1, 0, 3, 0);
    let m2_1_2_1_2_1_0 = mono(v, 2, 1, 2, 1, 2, 1, 0);
    let m2_1_2_1_2_3_1 = mono(v, 2, 1, 2, 1, 2, 3, 1);
    let m2_1_2_1_0_3_1 = mono(v, 2, 1, 2, 1, 0, 3, 1);
    let m2_1_2_1_2_1_1 = mono(v, 2, 1, 2, 1, 2, 1, 1);
    let m2_1_2_1_2_3_2 = mono(v, 2, 1, 2, 1, 2, 3, 2);
    let m2_1_3_0_1_2_0 = mono(v, 2, 1, 3, 0, 1, 2, 0);
    let m2_1_3_0_3_0_0 = mono(v, 2, 1, 3, 0, 3, 0, 0);
    let m2_1_3_0_3_2_1 = mono(v, 2, 1, 3, 0, 3, 2, 1);
    let m3_0_0_1_1_2_0 = mono(v, 3, 0, 0, 1, 1, 2, 0);
    let m3_0_0_1_3_0_0 = mono(v, 3, 0, 0, 1, 3, 0, 0);
    let m3_0_0_1_3_2_1 = mono(v, 3, 0, 0, 1, 3, 2, 1);
    let m3_0_0_3_1_2_0 = mono(v, 3, 0, 0, 3, 1, 2, 0);
    let m3_0_0_3_3_0_0 = mono(v, 3, 0, 0, 3, 3, 0, 0);
    let m3_0_0_3_3_2_1 = mono(v, 3, 0, 0, 3, 3, 2, 1);
    lemma_mono_mul(v, 2, 1, 1, 2, 1, 0, 1, 0, 0, 0, 0, 0, 0, 0);
    lemma_mono_mul(v, 2, 1, 1, 2, 1, 0, 1, 0, 0, 0, 0, 0, 2, 0);
    lemma_mono_mul(v, 2, 1, 1, 2, 1, 0, 1, 0, 0, 0, 0, 2, 0, 0);
    lemma_mono_mul(v, 2, 1, 1, 2, 1, 0, 1, 0, 0, 0, 0, 2, 2, 1);
    lemma_mono_mul(v, 2, 1, 2, 1, 0, 1, 0, 0, 0, 0, 0, 0, 0, 0);
    lemma_mono_mul(v, 2, 1, 2, 1, 0, 1, 0, 0, 0, 0, 0, 0, 2, 0);
    lemma_mono_mul(v, 2, 1, 2, 1, 0, 1, 0, 0, 0, 0, 0, 2, 0, 0);
    lemma_mono_mul(v, 2, 1, 2, 1, 0, 1, 0, 0, 0, 0, 0, 2, 2, 1);
    lemma_mono_mul(v, 2, 1, 2, 1, 0, 1, 1, 0, 0, 0, 0, 0, 0, 0);
    lemma_mono_mul(v, 2, 1, 2, 1, 0, 1, 1, 0, 0, 0, 0, 0, 2, 0);
    lemma_mono_mul(v, 2, 1, 2, 1, 0, 1, 1, 0, 0, 0, 0, 2, 0, 0);
    lemma_mono_mul(v, 2, 1, 2, 1, 0, 1, 1, 0, 0, 0, 0, 2, 2, 1);
    lemma_mono_mul(v, 2, 1, 3, 0, 1, 0, 0, 0, 0, 0, 0, 0, 0, 0);
    lemma_mono_mul(v, 2, 1, 3, 0, 1, 0, 0, 0, 0, 0, 0, 0, 2, 0);
    lemma_mono_mul(v, 2, 1, 3, 0, 1, 0, 0, 0, 0, 0, 0, 2, 0, 0);
    lemma_mono_mul(v, 2, 1, 3, 0, 1, 0, 0, 0, 0, 0, 0, 2, 2, 1);
    lemma_mono_mul(v, 3, 0, 0, 1, 1, 0, 0, 0, 0, 0, 0, 0, 0, 0);
    lemma_mono_mul(v, 3, 0, 0, 1, 1, 0, 0, 0, 0, 0, 0, 0, 2, 0);
    lemma_mono_mul(v, 3, 0, 0, 1, 1, 0, 0, 0, 0, 0, 0, 2, 0, 0);
    lemma_mono_mul(v, 3, 0, 0, 1, 1, 0, 0, 0, 0, 0, 0, 2, 2, 1);
    lemma_mono_mul(v, 3, 0, 0, 3, 1, 0, 0, 0, 0, 0, 0, 0, 0, 0);
    lemma_mono_mul(v, 3, 0, 0, 3, 1, 0, 0, 0, 0, 0, 0, 0, 2, 0);
    lemma_mono_mul(v, 3, 0, 0, 3, 1, 0, 0, 0, 0, 0, 0, 2, 0, 0);
    lemma_mono_mul(v, 3, 0, 0, 3, 1, 0, 0, 0, 0, 0, 0, 2, 2, 1);
    let row0 = m2_1_1_2_1_0_1 * r;
    assert(row0 == -m2_1_1_2_1_0_1 + m2_1_1_2_1_2_1 - m2_1_1_2_3_0_1 - m2_1_1_2_3_2_2) by (nonlinear_arith)
        requires
            row0 == m2_1_1_2_1_0_1 * r,
            r == -m0_0_0_0_0_0_0 + m0_0_0_0_0_2_0 - m0_0_0_0_2_0_0 - m0_0_0_0_2_2_1,
            m2_1_1_2_1_0_1 * m0_0_0_0_0_0_0 == m2_1_1_2_1_0_1,
            m2_1_1_2_1_0_1 * m0_0_0_0_0_2_0 == m2_1_1_2_1_2_1,
            m2_1_1_2_1_0_1 * m0_0_0_0_2_0_0 == m2_1_1_2_3_0_1,
            m2_1_1_2_1_0_1 * m0_0_0_0_2_2_1 == m2_1_1_2_3_2_2,
    ;
    let row1 = m2_1_2_1_0_1_0 * r;
    assert(row1 == -m2_1_2_1_0_1_0 + m2_1_2_1_0_3_0 - m2_1_2_1_2_1_0 - m2_1_2_1_2_3_1) by (nonlinear_arith)
        requires
            row1 == m2_1_2_1_0_1_0 * r,
            r == -m0_0_0_0_0_0_0 + m0_0_0_0_0_2_0 - m0_0_0_0_2_0_0 - m0_0_0_0_2_2_1,
            m2_1_2_1_0_1_0 * m0_0_0_0_0_0_0 == m2_1_2_1_0_1_0,
            m2_1_2_1_0_1_0 * m0_0_0_0_0_2_0 == m2_1_2_1_0_3_0,
            m2_1_2_1_0_1_0 * m0_0_0_0_2_0_0 == m2_1_2_1_2_1_0,
            m2_1_2_1_0_1_0 * m0_0_0_0_2_2_1 == m2_1_2_1_2_3_1,
    ;
    let row2 = m2_1_2_1_0_1_1 * r;
    assert(row2 == -m2_1_2_1_0_1_1 + m2_1_2_1_0_3_1 - m2_1_2_1_2_1_1 - m2_1_2_1_2_3_2) by (nonlinear_arith)
        requires
            row2 == m2_1_2_1_0_1_1 * r,
            r == -m0_0_0_0_0_0_0 + m0_0_0_0_0_2_0 - m0_0_0_0_2_0_0 - m0_0_0_0_2_2_1,
            m2_1_2_1_0_1_1 * m0_0_0_0_0_0_0 == m2_1_2_1_0_1_1,
            m2_1_2_1_0_1_1 * m0_0_0_0_0_2_0 == m2_1_2_1_0_3_1,
            m2_1_2_1_0_1_1 * m0_0_0_0_2_0_0 == m2_1_2_1_2_1_1,
            m2_1_2_1_0_1_1 * m0_0_0_0_2_2_1 == m2_1_2_1_2_3_2,
    ;
    let row3 = m2_1_3_0_1_0_0 * r;
    assert(row3 == -m2_1_3_0_1_0_0 + m2_1_3_0_1_2_0 - m2_1_3_0_3_0_0 - m2_1_3_0_3_2_1) by (nonlinear_arith)
        requires
            row3 == m2_1_3_0_1_0_0 * r,
            r == -m0_0_0_0_0_0_0 + m0_0_0_0_0_2_0 - m0_0_0_0_2_0_0 - m0_0_0_0_2_2_1,
            m2_1_3_0_1_0_0 * m0_0_0_0_0_0_0 == m2_1_3_0_1_0_0,
            m2_1_3_0_1_0_0 * m0_0_0_0_0_2_0 == m2_1_3_0_1_2_0,
            m2_1_3_0_1_0_0 * m0_0_0_0_2_0_0 == m2_1_3_0_3_0_0,
            m2_1_3_0_1_0_0 * m0_0_0_0_2_2_1 == m2_1_3_0_3_2_1,
    ;
    let row4 = m3_0_0_1_1_0_0 * r;
    assert(row4 == -m3_0_0_1_1_0_0 + m3_0_0_1_1_2_0 - m3_0_0_1_3_0_0 - m3_0_0_1_3_2_1) by (nonlinear_arith)
        requires
            row4 == m3_0_0_1_1_0_0 * r,
            r == -m0_0_0_0_0_0_0 + m0_0_0_0_0_2_0 - m0_0_0_0_2_0_0 - m0_0_0_0_2_2_1,
            m3_0_0_1_1_0_0 * m0_0_0_0_0_0_0 == m3_0_0_1_1_0_0,
            m3_0_0_1_1_0_0 * m0_0_0_0_0_2_0 == m3_0_0_1_1_2_0,
            m3_0_0_1_1_0_0 * m0_0_0_0_2_0_0 == m3_0_0_1_3_0_0,
            m3_0_0_1_1_0_0 * m0_0_0_0_2_2_1 == m3_0_0_1_3_2_1,
    ;
    let row5 = m3_0_0_3_1_0_0 * r;
    assert(row5 == -m3_0_0_3_1_0_0 + m3_0_0_3_1_2_0 - m3_0_0_3_3_0_0 - m3_0_0_3_3_2_1) by (nonlinear_arith)
        requires
            row5 == m3_0_0_3_1_0_0 * r,
            r == -m0_0_0_0_0_0_0 + m0_0_0_0_0_2_0 - m0_0_0_0_2_0_0 - m0_0_0_0_2_2_1,
            m3_0_0_3_1_0_0 * m0_0_0_0_0_0_0 == m3_0_0_3_1_0_0,
            m3_0_0_3_1_0_0 * m0_0_0_0_0_2_0 == m3_0_0_3_1_2_0,
            m3_0_0_3_1_0_0 * m0_0_0_0_2_0_0 == m3_0_0_3_3_0_0,
            m3_0_0_3_1_0_0 * m0_0_0_0_2_2_1 == m3_0_0_3_3_2_1,
    ;
    assert(p * r == row0 - row1 - row2 - row3 - row4 + row5) by (nonlinear_arith)
        requires
            p == m2_1_1_2_1_0_1 - m2_1_2_1_0_1_0 - m2_1_2_1_0_1_1 - m2_1_3_0_1_0_0 -
                m3_0_0_1_1_0_0 + m3_0_0_3_1_0_0,
            row0 == m2_1_1_2_1_0_1 * r,
            row1 == m2_1_2_1_0_1_0 * r,
            row2 == m2_1_2_1_0_1_1 * r,
            row3 == m2_1_3_0_1_0_0 * r,
            row4 == m3_0_0_1_1_0_0 * r,
            row5 == m3_0_0_3_1_0_0 * r,
    ;
}

/// A cofactor times the defect of a point.
proof fn lemma_associative_product_121(v: Vars, p: int, r: int)
    requires
        p == -mono(v, 3, 0, 1, 0, 0, 1, 0) + mono(v, 3, 0, 1, 2, 0, 1, 0) - mono(v, 3, 0, 2, 1,
            1, 0, 0) - mono(v, 3, 0, 3, 0, 0, 1, 0),
        r == -mono(v, 0, 0, 0, 0, 0, 0, 0) + mono(v, 0, 0, 0, 0, 0, 2, 0) - mono(v, 0, 0, 0, 0,
            2, 0, 0) - mono(v, 0, 0, 0, 0, 2, 2, 1),
    ensures
        p * r == mono(v, 3, 0, 1, 0, 0, 1, 0) - mono(v, 3, 0, 1, 0, 0, 3, 0) + mono(v, 3, 0, 1, 0, 2,
            1, 0) + mono(v, 3, 0, 1, 0, 2, 3, 1) - mono(v, 3, 0, 1, 2, 0, 1, 0) + mono(v, 3, 0,
            1, 2, 0, 3, 0) - mono(v, 3, 0, 1, 2, 2, 1, 0) - mono(v, 3, 0, 1, 2, 2, 3, 1) +
            mono(v, 3, 0, 2, 1, 1, 0, 0) - mono(v, 3, 0, 2, 1, 1, 2, 0) + mono(v, 3, 0, 2, 1, 3,
            0, 0) + mono(v, 3, 0, 2, 1, 3, 2, 1) + mono(v, 3, 0, 3, 0, 0, 1, 0) - mono(v, 3, 0,
            3, 0, 0, 3, 0) + mono(v, 3, 0, 3, 0, 2, 1, 0) + mono(v, 3, 0, 3, 0, 2, 3, 1),
{
    let m3_0_1_0_0_1_0 = mono(v, 3, 0, 1, 0, 0, 1, 0);
    let m3_0_1_2_0_1_0 = mono(v, 3, 0, 1, 2, 0, 1, 0);
    let m3_0_2_1_1_0_0 = mono(v, 3, 0, 2, 1, 1, 0, 0);
    let m3_0_3_0_0_1_0 = mono(v, 3, 0, 3, 0, 0, 1, 0);
    let m0_0_0_0_0_0_0 = mono(v, 0, 0, 0, 0, 0, 0, 0);
    let m0_0_0_0_0_2_0 = mono(v, 0, 0, 0, 0, 0, 2, 0);
    let m0_0_0_0_2_0_0 = mono(v, 0, 0, 0, 0, 2, 0, 0);
    let m0_0_0_0_2_2_1 = mono(v, 0, 0, 0, 0, 2, 2, 1);
    let m3_0_1_0_0_3_0 = mono(v, 3, 0, 1, 0, 0, 3, 0);
    let m3_0_1_0_2_1_0 = mono(v, 3, 0, 1, 0, 2, 1, 0);
    let m3_0_1_0_2_3_1 = mono(v, 3, 0, 1, 0, 2, 3, 1);
    let m3_0_1_2_0_3_0 = mono(v, 3, 0, 1, 2, 0, 3, 0);
    let m3_0_1_2_2_1_0 = mono(v, 3, 0, 1, 2, 2, 1, 0);
    let m3_0_1_2_2_3_1 = mono(v, 3, 0, 1, 2, 2, 3, 1);
    let m3_0_2_1_1_2_0 = mono(v, 3, 0, 2, 1, 1, 2, 0);
    let m3_0_2_1_3_0_0 = mono(v, 3, 0, 2, 1, 3, 0, 0);
    let m3_0_2_1_3_2_1 = mono(v, 3, 0, 2, 1, 3, 2, 1);
    let m3_0_3_0_0_3_0 = mono(v, 3, 0, 3, 0, 0, 3, 0);
    let m3_0_3_0_2_1_0 = mono(v, 3, 0, 3, 0, 2, 1, 0);
    let m3_0_3_0_2_3_1 = mono(v, 3, 0, 3, 0, 2, 3, 1);
    lemma_mono_mul(v, 3, 0, 1, 0, 0, 1, 0, 0, 0, 0, 0, 0, 0, 0);
    lemma_mono_mul(v, 3, 0, 1, 0, 0, 1, 0, 0, 0, 0, 0, 0, 2, 0);
    lemma_mono_mul(v, 3, 0, 1, 0, 0, 1, 0, 0, 0, 0, 0, 2, 0, 0);
    lemma_mono_mul(v, 3, 0, 1, 0, 0, 1, 0, 0, 0, 0, 0, 2, 2, 1);
    lemma_mono_mul(v, 3, 0, 1, 2, 0, 1, 0, 0, 0, 0, 0, 0, 0, 0);
    lemma_mono_mul(v, 3, 0, 1, 2, 0, 1, 0, 0, 0, 0, 0, 0, 2, 0);
    lemma_mono_mul(v, 3, 0, 1, 2, 0, 1, 0, 0, 0, 0, 0, 2, 0, 0);
    lemma_mono_mul(v, 3, 0, 1, 2, 0, 1, 0, 0, 0, 0, 0, 2, 2, 1);
    lemma_mono_mul(v, 3, 0, 2, 1, 1, 0, 0, 0, 0, 0, 0, 0, 0, 0);
    lemma_mono_mul(v, 3, 0, 2, 1, 1, 0, 0, 0, 0, 0, 0, 0, 2, 0);
    lemma_mono_mul(v, 3, 0, 2, 1, 1, 0, 0, 0, 0, 0, 0, 2, 0, 0);
    lemma_mono_mul(v, 3, 0, 2, 1, 1, 0, 0, 0, 0, 0, 0, 2, 2, 1);
    lemma_mono_mul(v, 3, 0, 3, 0, 0, 1, 0, 0, 0, 0, 0, 0, 0, 0);
    lemma_mono_mul(v, 3, 0, 3, 0, 0, 1, 0, 0, 0, 0, 0, 0, 2, 0);
    lemma_mono_mul(v, 3, 0, 3, 0, 0, 1, 0, 0, 0, 0, 0, 2, 0, 0);
    lemma_mono_mul(v, 3, 0, 3, 0, 0, 1, 0, 0, 0, 0, 0, 2, 2, 1);
    let row0 = m3_0_1_0_0_1_0 * r;
    assert(row0 == -m3_0_1_0_0_1_0 + m3_0_1_0_0_3_0 - m3_0_1_0_2_1_0 - m3_0_1_0_2_3_1) by (nonlinear_arith)
        requires
            row0 == m3_0_1_0_0_1_0 * r,
            r == -m0_0_0_0_0_0_0 + m0_0_0_0_0_2_0 - m0_0_0_0_2_0_0 - m0_0_0_0_2_2_1,
            m3_0_1_0_0_1_0 * m0_0_0_0_0_0_0 == m3_0_1_0_0_1_0,
            m3_0_1_0_0_1_0 * m0_0_0_0_0_2_0 == m3_0_1_0_0_3_0,
            m3_0_1_0_0_1_0 * m0_0_0_0_2_0_0 == m3_0_1_0_2_1_0,
            m3_0_1_0_0_1_0 * m0_0_0_0_2_2_1 == m3_0_1_0_2_3_1,
    ;
    let row1 = m3_0_1_2_0_1_0 * r;
    assert(row1 == -m3_0_1_2_0_1_0 + m3_0_1_2_0_3_0 - m3_0_1_2_2_1_0 - m3_0_1_2_2_3_1) by (nonlinear_arith)
        requires
            row1 == m3_0_1_2_0_1_0 * r,
            r == -m0_0_0_0_0_0_0 + m0_0_0_0_0_2_0 - m0_0_0_0_2_0_0 - m0_0_0_0_2_2_1,
            m3_0_1_2_0_1_0 * m0_0_0_0_0_0_0 == m3_0_1_2_0_1_0,
            m3_0_1_2_0_1_0 * m0_0_0_0_0_2_0 == m3_0_1_2_0_3_0,
            m3_0_1_2_0_1_0 * m0_0_0_0_2_0_0 == m3_0_1_2_2_1_0,
            m3_0_1_2_0_1_0 * m0_0_0_0_2_2_1 == m3_0_1_2_2_3_1,
    ;
    let row2 = m3_0_2_1_1_0_0 * r;
    assert(row2 == -m3_0_2_1_1_0_0 + m3_0_2_1_1_2_0 - m3_0_2_1_3_0_0 - m3_0_2_1_3_2_1) by (nonlinear_arith)
        requires
            row2 == m3_0_2_1_1_0_0 * r,
            r == -m0_0_0_0_0_0_0 + m0_0_0_0_0_2_0 - m0_0_0_0_2_0_0 - m0_0_0_0_2_2_1,
            m3_0_2_1_1_0_0 * m0_0_0_0_0_0_0 == m3_0_2_1_1_0_0,
            m3_0_2_1_1_0_0 * m0_0_0_0_0_2_0 == m3_0_2_1_1_2_0,
            m3_0_2_1_1_0_0 * m0_0_0_0_2_0_0 == m3_0_2_1_3_0_0,
            m3_0_2_1_1_0_0 * m0_0_0_0_2_2_1 == m3_0_2_1_3_2_1,
    ;
    let row3 = m3_0_3_0_0_1_0 * r;
    assert(row3 == -m3_0_3_0_0_1_0 + m3_0_3_0_0_3_0 - m3_0_3_0_2_1_0 - m3_0_3_0_2_3_1) by (nonlinear_arith)
        requires
            row3 == m3_0_3_0_0_1_0 * r,
            r == -m0_0_0_0_0_0_0 + m0_0_0_0_0_2_0 - m0_0_0_0_2_0_0 - m0_0_0_0_2_2_1,
            m3_0_3_0_0_1_0 * m0_0_0_0_0_0_0 == m3_0_3_0_0_1_0,
            m3_0_3_0_0_1_0 * m0_0_0_0_0_2_0 == m3_0_3_0_0_3_0,
            m3_0_3_0_0_1_0 * m0_0_0_0_2_0_0 == m3_0_3_0_2_1_0,
            m3_0_3_0_0_1_0 * m0_0_0_0_2_2_1 == m3_0_3_0_2_3_1,
    ;
    assert(p * r == -row0 + row1 - row2 - row3) by (nonlinear_arith)
        requires
            p == -m3_0_1_0_0_1_0 + m3_0_1_2_0_1_0 - m3_0_2_1_1_0_0 - m3_0_3_0_0_1_0,
            row0 == m3_0_1_0_0_1_0 * r,
            row1 == m3_0_1_2_0_1_0 * r,
            row2 == m3_0_2_1_1_0_0 * r,
            row3 == m3_0_3_0_0_1_0 * r,
    ;
}

/// A cofactor times the defect of a point.
proof fn lemma_associative_product_122(v: Vars, p: int, r: int)
    requires
        p == -mono(v, 0, 1, 0, 1, 0, 1, 0) + mono(v, 0, 1, 0, 3, 0, 1, 0) - mono(v, 0, 1, 1, 0,
            1, 0, 0) + mono(v, 0, 1, 1, 2, 1, 0, 0) - mono(v, 0, 1, 2, 1, 0, 1, 0) - mono(v, 0,
            1, 3, 0, 1, 0, 0) + mono(v, 0, 3, 0, 1, 0, 1, 0) - mono(v, 0, 3, 0, 3, 0, 1, 0) +
            mono(v, 0, 3, 1, 0, 1, 0, 0) - mono(v, 0, 3, 1, 2, 1, 0, 0) + mono(v, 0, 3, 2, 1, 0,
            1, 0) + mono(v, 0, 3, 3, 0, 1, 0, 0) - mono(v, 1, 0, 0, 1, 1, 0, 0) + mono(v, 1, 0,
            0, 3, 1, 0, 0) - mono(v, 1, 0, 1, 0, 0, 1, 0) + mono(v, 1, 0, 1, 2, 0, 1, 0) -
            mono(v, 1, 0, 2, 1, 1, 0, 0) - mono(v, 1, 0, 3, 0, 0, 1, 0) + mono(v, 1, 2, 0, 1, 1,
            0, 0) - mono(v, 1, 2, 0, 3, 1, 0, 0) + mono(v, 1, 2, 1, 0, 0, 1, 0) - mono(v, 1, 2,
            1, 2, 0, 1, 0) - mono(v, 1, 2, 1, 2, 0, 1, 1) + mono(v, 1, 2, 2, 1, 1, 0, 0) +
            mono(v, 1, 2, 2, 1, 1, 0, 1) + mono(v, 1, 2, 3, 0, 0, 1, 0) - mono(v, 2, 1, 0, 1, 0,
            1, 0) + mono(v, 2, 1, 0, 3, 0, 1, 0) - mono(v, 2, 1, 1, 0, 1, 0, 0) + mono(v, 2, 1,
            1, 2, 1, 0, 0) + mono(v, 2, 1, 1, 2, 1, 0, 1) - mono(v, 2, 1, 2, 1, 0, 1, 0) -
            mono(v, 2, 1, 2, 1, 0, 1, 1) - mono(v, 2, 1, 3, 0, 1, 0, 0) - mono(v, 3, 0, 0, 1, 1,
            0, 0) + mono(v, 3, 0, 0, 3, 1, 0, 0) - mono(v, 3, 0, 1, 0, 0, 1, 0) + mono(v, 3, 0,
            1, 2, 0, 1, 0) - mono(v, 3, 0, 2, 1, 1, 0, 0) - mono(v, 3, 0, 3, 0, 0, 1, 0),
        r == -mono(v, 0, 0, 0, 0, 0, 0, 0) + mono(v, 0, 0, 0, 0, 0, 2, 0) - mono(v, 0, 0, 0, 0,
            2, 0, 0) - mono(v, 0, 0, 0, 0, 2, 2, 1),
    ensures
        p * r == mono(v, 0, 1, 0, 1, 0, 1, 0) - mono(v, 0, 1, 0, 1, 0, 3, 0) + mono(v, 0, 1, 0, 1, 2,
            1, 0) + mono(v, 0, 1, 0, 1, 2, 3, 1) - mono(v, 0, 1, 0, 3, 0, 1, 0) + mono(v, 0, 1,
            0, 3, 0, 3, 0) - mono(v, 0, 1, 0, 3, 2, 1, 0) - mono(v, 0, 1, 0, 3, 2, 3, 1) +
            mono(v, 0, 1, 1, 0, 1, 0, 0) - mono(v, 0, 1, 1, 0, 1, 2, 0) + mono(v, 0, 1, 1, 0, 3,
            0, 0) + mono(v, 0, 1, 1, 0, 3, 2, 1) - mono(v, 0, 1, 1, 2, 1, 0, 0) + mono(v, 0, 1,
            1, 2, 1, 2, 0) - mono(v, 0, 1, 1, 2, 3, 0, 0) - mono(v, 0, 1, 1, 2, 3, 2, 1) +
            mono(v, 0, 1, 2, 1, 0, 1, 0) - mono(v, 0, 1, 2, 1, 0, 3, 0) + mono(v, 0, 1, 2, 1, 2,
            1, 0) + mono(v, 0, 1, 2, 1, 2, 3, 1) + mono(v, 0, 1, 3, 0, 1, 0, 0) - mono(v, 0, 1,
            3, 0, 1, 2, 0) + mono(v, 0, 1, 3, 0, 3, 0, 0) + mono(v, 0, 1, 3, 0, 3, 2, 1) -
            mono(v, 0, 3, 0, 1, 0, 1, 0) + mono(v, 0, 3, 0, 1, 0, 3, 0) - mono(v, 0, 3, 0, 1, 2,
            1, 0) - mono(v, 0, 3, 0, 1, 2, 3, 1) + mono(v, 0, 3, 0, 3, 0, 1, 0) - mono(v, 0, 3,
            0, 3, 0, 3, 0) + mono(v, 0, 3, 0, 3, 2, 1, 0) + mono(v, 0, 3, 0, 3, 2, 3, 1) -
            mono(v, 0, 3, 1, 0, 1, 0, 0) + mono(v, 0, 3, 1, 0, 1, 2, 0) - mono(v, 0, 3, 1, 0, 3,
            0, 0) - mono(v, 0, 3, 1, 0, 3, 2, 1) + mono(v, 0, 3, 1, 2, 1, 0, 0) - mono(v, 0, 3,
            1, 2, 1, 2, 0) + mono(v, 0, 3, 1, 2, 3, 0, 0) + mono(v, 0, 3, 1, 2, 3, 2, 1) -
            mono(v, 0, 3, 2, 1, 0, 1, 0) + mono(v, 0, 3, 2, 1, 0, 3, 0) - mono(v, 0, 3, 2, 1, 2,
            1, 0) - mono(v, 0, 3, 2, 1, 2, 3, 1) - mono(v, 0, 3, 3, 0, 1, 0, 0) + mono(v, 0, 3,
            3, 0, 1, 2, 0) - mono(v, 0, 3, 3, 0, 3, 0, 0) - mono(v, 0, 3, 3, 0, 3, 2, 1) +
            mono(v, 1, 0, 0, 1, 1, 0, 0) - mono(v, 1, 0, 0, 1, 1, 2, 0) + mono(v, 1, 0, 0, 1, 3,
            0, 0) + mono(v, 1, 0, 0, 1, 3, 2, 1) - mono(v, 1, 0, 0, 3, 1, 0, 0) + mono(v, 1, 0,
            0, 3, 1, 2, 0) - mono(v, 1, 0, 0, 3, 3, 0, 0) - mono(v, 1, 0, 0, 3, 3, 2, 1) +
            mono(v, 1, 0, 1, 0, 0, 1, 0) - mono(v, 1, 0, 1, 0, 0, 3, 0) + mono(v, 1, 0, 1, 0, 2,
            1, 0) + mono(v, 1, 0, 1, 0, 2, 3, 1) - mono(v, 1, 0, 1, 2, 0, 1, 0) + mono(v, 1, 0,
            1, 2, 0, 3, 0) - mono(v, 1, 0, 1, 2, 2, 1, 0) - mono(v, 1, 0, 1, 2, 2, 3, 1) +
            mono(v, 1, 0, 2, 1, 1, 0, 0) - mono(v, 1, 0, 2, 1, 1, 2, 0) + mono(v, 1, 0, 2, 1, 3,
            0, 0) + mono(v, 1, 0, 2, 1, 3, 2, 1) + mono(v, 1, 0, 3, 0, 0, 1, 0) - mono(v, 1, 0,
            3, 0, 0, 3, 0) + mono(v, 1, 0, 3, 0, 2, 1, 0) + mono(v, 1, 0, 3, 0, 2, 3, 1) -
            mono(v, 1, 2, 0, 1, 1, 0, 0) + mono(v, 1, 2, 0, 1, 1, 2, 0) - mono(v, 1, 2, 0, 1, 3,
            0, 0) - mono(v, 1, 2, 0, 1, 3, 2, 1) + mono(v, 1, 2, 0, 3, 1, 0, 0) - mono(v, 1, 2,
            0, 3, 1, 2, 0) + mono(v, 1, 2, 0, 3, 3, 0, 0) + mono(v, 1, 2, 0, 3, 3, 2, 1) -
            mono(v, 1, 2, 1, 0, 0, 1, 0) + mono(v, 1, 2, 1, 0, 0, 3, 0) - mono(v, 1, 2, 1, 0, 2,
            1, 0) - mono(v, 1, 2, 1, 0, 2, 3, 1) + mono(v, 1, 2, 1, 2, 0, 1, 0) + mono(v, 1, 2,
            1, 2, 0, 1, 1) - mono(v, 1, 2, 1, 2, 0, 3, 0) - mono(v, 1, 2, 1, 2, 0, 3, 1) +
            mono(v, 1, 2, 1, 2, 2, 1, 0) + mono(v, 1, 2, 1, 2, 2, 1, 1) + mono(v, 1, 2, 1, 2, 2,
            3, 1) + mono(v, 1, 2, 1, 2, 2, 3, 2) - mono(v, 1, 2, 2, 1, 1, 0, 0) - mono(v, 1, 2,
            2, 1, 1, 0, 1) + mono(v, 1, 2, 2, 1, 1, 2, 0) + mono(v, 1, 2, 2, 1, 1, 2, 1) -
            mono(v, 1, 2, 2, 1, 3, 0, 0) - mono(v, 1, 2, 2, 1, 3, 0, 1) - mono(v, 1, 2, 2, 1, 3,
            2, 1) - mono(v, 1, 2, 2, 1, 3, 2, 2) - mono(v, 1, 2, 3, 0, 0, 1, 0) + mono(v, 1, 2,
            3, 0, 0, 3, 0) - mono(v, 1, 2, 3, 0, 2, 1, 0) - mono(v, 1, 2, 3, 0, 2, 3, 1) +
            mono(v, 2, 1, 0, 1, 0, 1, 0) - mono(v, 2, 1, 0, 1, 0, 3, 0) + mono(v, 2, 1, 0, 1, 2,
            1, 0) + mono(v, 2, 1, 0, 1, 2, 3, 1) - mono(v, 2, 1, 0, 3, 0, 1, 0) + mono(v, 2, 1,
            0, 3, 0, 3, 0) - mono(v, 2, 1, 0, 3, 2, 1, 0) - mono(v, 2, 1, 0, 3, 2, 3, 1) +
            mono(v, 2, 1, 1, 0, 1, 0, 0) - mono(v, 2, 1, 1, 0, 1, 2, 0) + mono(v, 2, 1, 1, 0, 3,
            0, 0) + mono(v, 2, 1, 1, 0, 3, 2, 1) - mono(v, 2, 1, 1, 2, 1, 0, 0) - mono(v, 2, 1,
            1, 2, 1, 0, 1) + mono(v, 2, 1, 1, 2, 1, 2, 0) + mono(v, 2, 1, 1, 2, 1, 2, 1) -
            mono(v, 2, 1, 1, 2, 3, 0, 0) - mono(v, 2, 1, 1, 2, 3, 0, 1) - mono(v, 2, 1, 1, 2, 3,
            2, 1) - mono(v, 2, 1, 1, 2, 3, 2, 2) + mono(v, 2, 1, 2, 1, 0, 1, 0) + mono(v, 2, 1,
            2, 1, 0, 1, 1) - mono(v, 2, 1, 2, 1, 0, 3, 0) - mono(v, 2, 1, 2, 1, 0, 3, 1) +
            mono(v, 2, 1, 2, 1, 2, 1, 0) + mono(v, 2, 1, 2, 1, 2, 1, 1) + mono(v, 2, 1, 2, 1, 2,
            3, 1) + mono(v, 2, 1, 2, 1, 2, 3, 2) + mono(v, 2, 1, 3, 0, 1, 0, 0) - mono(v, 2, 1,
            3, 0, 1, 2, 0) + mono(v, 2, 1, 3, 0, 3, 0, 0) + mono(v, 2, 1, 3, 0, 3, 2, 1) +
            mono(v, 3, 0, 0, 1, 1, 0, 0) - mono(v, 3, 0, 0, 1, 1, 2, 0) + mono(v, 3, 0, 0, 1, 3,
            0, 0) + mono(v, 3, 0, 0, 1, 3, 2, 1) - mono(v, 3, 0, 0, 3, 1, 0, 0) + mono(v, 3, 0,
            0, 3, 1, 2, 0) - mono(v, 3, 0, 0, 3, 3, 0, 0) - mono(v, 3, 0, 0, 3, 3, 2, 1) +
            mono(v, 3, 0, 1, 0, 0, 1, 0) - mono(v, 3, 0, 1, 0, 0, 3, 0) + mono(v, 3, 0, 1, 0, 2,
            1, 0) + mono(v, 3, 0, 1, 0, 2, 3, 1) - mono(v, 3, 0, 1, 2, 0, 1, 0) + mono(v, 3, 0,
            1, 2, 0, 3, 0) - mono(v, 3, 0, 1, 2, 2, 1, 0) - mono(v, 3, 0, 1, 2, 2, 3, 1) +
            mono(v, 3, 0, 2, 1, 1, 0, 0) - mono(v, 3, 0, 2, 1, 1, 2, 0) + mono(v, 3, 0, 2, 1, 3,
            0, 0) + mono(v, 3, 0, 2, 1, 3, 2, 1) + mono(v, 3, 0, 3, 0, 0, 1, 0) - mono(v, 3, 0,
            3, 0, 0, 3, 0) + mono(v, 3, 0, 3, 0, 2, 1, 0) + mono(v, 3, 0, 3, 0, 2, 3, 1),
{
    let p0 = -mono(v, 0, 1, 0, 1, 0, 1, 0) + mono(v, 0, 1, 0, 3, 0, 1, 0) - mono(v, 0, 1, 1, 0, 1, 0,
        0) + mono(v, 0, 1, 1, 2, 1, 0, 0) - mono(v, 0, 1, 2, 1, 0, 1, 0) - mono(v, 0, 1, 3, 0,
        1, 0, 0);
    lemma_associative_product_115(v, p0, r);
    let t0 = p0 * r;
    let p1 = mono(v, 0, 3, 0, 1, 0, 1, 0) - mono(v, 0, 3, 0, 3, 0, 1, 0) + mono(v, 0, 3, 1, 0, 1, 0,
        0) - mono(v, 0, 3, 1, 2, 1, 0, 0) + mono(v, 0, 3, 2, 1, 0, 1, 0) + mono(v, 0, 3, 3, 0,
        1, 0, 0);
    lemma_associative_product_116(v, p1, r);
    let t1 = p1 * r;
    let p2 = -mono(v, 1, 0, 0, 1, 1, 0, 0) + mono(v, 1, 0, 0, 3, 1, 0, 0) - mono(v, 1, 0, 1, 0, 0, 1,
        0) + mono(v, 1, 0, 1, 2, 0, 1, 0) - mono(v, 1, 0, 2, 1, 1, 0, 0) - mono(v, 1, 0, 3, 0,
        0, 1, 0);
    lemma_associative_product_117(v, p2, r);
    let t2 = p2 * r;
    let p3 = mono(v, 1, 2, 0, 1, 1, 0, 0) - mono(v, 1, 2, 0, 3, 1, 0, 0) + mono(v, 1, 2, 1, 0, 0, 1,
        0) - mono(v, 1, 2, 1, 2, 0, 1, 0) - mono(v, 1, 2, 1, 2, 0, 1, 1) + mono(v, 1, 2, 2, 1,
        1, 0, 0);
    lemma_associative_product_118(v, p3, r);
    let t3 = p3 * r;
    let p4 = mono(v, 1, 2, 2, 1, 1, 0, 1) + mono(v, 1, 2, 3, 0, 0, 1, 0) - mono(v, 2, 1, 0, 1, 0, 1,
        0) + mono(v, 2, 1, 0, 3, 0, 1, 0) - mono(v, 2, 1, 1, 0, 1, 0, 0) + mono(v, 2, 1, 1, 2,
        1, 0, 0);
    lemma_associative_product_119(v, p4, r);
    let t4 = p4 * r;
    let p5 = mono(v, 2, 1, 1, 2, 1, 0, 1) - mono(v, 2, 1, 2, 1, 0, 1, 0) - mono(v, 2, 1, 2, 1, 0, 1,
        1) - mono(v, 2, 1, 3, 0, 1, 0, 0) - mono(v, 3, 0, 0, 1, 1, 0, 0) + mono(v, 3, 0, 0, 3,
        1, 0, 0);
    lemma_associative_product_120(v, p5, r);
    let t5 = p5 * r;
    let p6 = -mono(v, 3, 0, 1, 0, 0, 1, 0) + mono(v, 3, 0, 1, 2, 0, 1, 0) - mono(v, 3, 0, 2, 1, 1, 0,
        0) - mono(v, 3, 0, 3, 0, 0, 1, 0);
    lemma_associative_product_121(v, p6, r);
    let t6 = p6 * r;
    assert(p * r == t0 + t1 + t2 + t3 + t4 + t5 + t6) by (nonlinear_arith)
        requires
            p == p0 + p1 + p2 + p3 + p4 + p5 + p6,
            t0 == p0 * r,
            t1 == p1 * r,
            t2 == p2 * r,
            t3 == p3 * r,
            t4 == p4 * r,
            t5 == p5 * r,
            t6 == p6 * r,
    ;
}

/// The addition law is associative, for the first coordinate: the cross
/// products of `(P1 + P2) + P3` and `P1 + (P2 + P3)` differ by a combination
/// of the defects of the three points. Returns the cofactors.
pub proof fn lemma_associative_x(v: Vars) -> (q: (int, int, int))
    ensures
        ({
            let p1 = int_extend(v.x1, v.y1);
            let p2 = int_extend(v.x2, v.y2);
            let p3 = int_extend(v.x3, v.y3);
            let l = int_sum(p1, p2, v.d);
            let r = int_sum(p2, p3, v.d);
            int_e(l, p3) * int_g(p1, r, v.d) - int_e(p1, r) * int_g(l, p3, v.d) == q.0
                * curve_defect(v.x1, v.y1, v.d) + q.1 * curve_defect(v.x2, v.y2, v.d) + q.2
                * curve_defect(v.x3, v.y3, v.d)
        }),
{
    lemma_mono_vars(v);
    let n1 = v.x1 * v.y1;
    lemma_associative_product_1(v, v.x1, v.y1);
    let n2 = v.x2 * v.y2;
    lemma_associative_product_2(v, v.x2, v.y2);
    let n3 = v.x3 * v.y3;
    lemma_associative_product_3(v, v.x3, v.y3);
    let n4 = v.x1 * v.y2;
    lemma_associative_product_4(v, v.x1, v.y2);
    let n5 = v.y1 * v.x2;
    lemma_associative_product_5(v, v.y1, v.x2);
    let n6 = n4 + n5;
    assert(n6 == mono(v, 0, 1, 1, 0, 0, 0, 0) + mono(v, 1, 0, 0, 1, 0, 0, 0));
    let n7 = v.x1 * v.x2;
    lemma_associative_product_6(v, v.x1, v.x2);
    let n8 = v.y1 * v.y2;
    lemma_associative_product_7(v, v.y1, v.y2);
    let n9 = n7 + n8;
    assert(n9 == mono(v, 0, 1, 0, 1, 0, 0, 0) + mono(v, 1, 0, 1, 0, 0, 0, 0));
    let n10 = 1 * 1;
    lemma_associative_product_8(v, 1, 1);
    let n11 = n1 * n2;
    lemma_associative_product_9(v, n1, n2);
    let n12 = v.d * n11;
    lemma_associative_product_10(v, v.d, n11);
    let n13 = n10 - n12;
    assert(n13 == mono(v, 0, 0, 0, 0, 0, 0, 0) - mono(v, 1, 1, 1, 1, 0, 0, 1));
    let n14 = n10 + n12;
    assert(n14 == mono(v, 0, 0, 0, 0, 0, 0, 0) + mono(v, 1, 1, 1, 1, 0, 0, 1));
    let n15 = n6 * n13;
    lemma_associative_product_11(v, n6, n13);
    let n16 = n14 * n9;
    lemma_associative_product_12(v, n14, n9);
    let n17 = n6 * n9;
    lemma_associative_product_13(v, n6, n9);
    let n18 = n13 * n14;
    lemma_associative_product_14(v, n13, n14);
    let n19 = v.x2 * v.y3;
    lemma_associative_product_15(v, v.x2, v.y3);
    let n20 = v.y2 * v.x3;
    lemma_associative_product_16(v, v.y2, v.x3);
    let n21 = n19 + n20;
    assert(n21 == mono(v, 0, 0, 0, 1, 1, 0, 0) + mono(v, 0, 0, 1, 0, 0, 1, 0));
    let n22 = v.x2 * v.x3;
    lemma_associative_product_17(v, v.x2, v.x3);
    let n23 = v.y2 * v.y3;
    lemma_associative_product_18(v, v.y2, v.y3);
    let n24 = n22 + n23;
    assert(n24 == mono(v, 0, 0, 0, 1, 0, 1, 0) + mono(v, 0, 0, 1, 0, 1, 0, 0));
    let n25 = 1 * 1;
    lemma_associative_product_8(v, 1, 1);
    let n26 = n2 * n3;
    lemma_associative_product_19(v, n2, n3);
    let n27 = v.d * n26;
    lemma_associative_product_20(v, v.d, n26);
    let n28 = n25 - n27;
    assert(n28 == mono(v, 0, 0, 0, 0, 0, 0, 0) - mono(v, 0, 0, 1, 1, 1, 1, 1));
    let n29 = n25 + n27;
    assert(n29 == mono(v, 0, 0, 0, 0, 0, 0, 0) + mono(v, 0, 0, 1, 1, 1, 1, 1));
    let n30 = n21 * n28;
    lemma_associative_product_21(v, n21, n28);
    let n31 = n29 * n24;
    lemma_associative_product_22(v, n29, n24);
    let n32 = n21 * n24;
    lemma_associative_product_23(v, n21, n24);
    let n33 = n28 * n29;
    lemma_associative_product_24(v, n28, n29);
    let n34 = n15 * v.y3;
    lemma_associative_product_25(v, n15, v.y3);
    let n35 = n16 * v.x3;
    lemma_associative_product_26(v, n16, v.x3);
    let n36 = n34 + n35;
    assert(n36 == mono(v, 0, 1, 0, 1, 1, 0, 0) + mono(v, 0, 1, 1, 0, 0, 1, 0) + mono(v, 1, 0, 0, 1, 0, 1,
        0) + mono(v, 1, 0, 1, 0, 1, 0, 0) + mono(v, 1, 2, 1, 2, 1, 0, 1) - mono(v, 1, 2, 2, 1,
        0, 1, 1) - mono(v, 2, 1, 1, 2, 0, 1, 1) + mono(v, 2, 1, 2, 1, 1, 0, 1));
    let n37 = n15 * v.x3;
    lemma_associative_product_27(v, n15, v.x3);
    let n38 = n16 * v.y3;
    lemma_associative_product_28(v, n16, v.y3);
    let n39 = n37 + n38;
    assert(n39 == mono(v, 0, 1, 0, 1, 0, 1, 0) + mono(v, 0, 1, 1, 0, 1, 0, 0) + mono(v, 1, 0, 0, 1, 1, 0,
        0) + mono(v, 1, 0, 1, 0, 0, 1, 0) + mono(v, 1, 2, 1, 2, 0, 1, 1) - mono(v, 1, 2, 2, 1,
        1, 0, 1) - mono(v, 2, 1, 1, 2, 1, 0, 1) + mono(v, 2, 1, 2, 1, 0, 1, 1));
    let n40 = n18 * 1;
    lemma_associative_product_29(v, n18, 1);
    let n41 = n17 * n3;
    lemma_associative_product_30(v, n17, n3);
    let n42 = v.d * n41;
    lemma_associative_product_32(v, v.d, n41);
    let n43 = n40 - n42;
    assert(n43 == mono(v, 0, 0, 0, 0, 0, 0, 0) - mono(v, 0, 2, 1, 1, 1, 1, 1) - mono(v, 1, 1, 0, 2, 1, 1,
        1) - mono(v, 1, 1, 2, 0, 1, 1, 1) - mono(v, 2, 0, 1, 1, 1, 1, 1) - mono(v, 2, 2, 2, 2,
        0, 0, 2));
    let n44 = n40 + n42;
    assert(n44 == mono(v, 0, 0, 0, 0, 0, 0, 0) + mono(v, 0, 2, 1, 1, 1, 1, 1) + mono(v, 1, 1, 0, 2, 1, 1,
        1) + mono(v, 1, 1, 2, 0, 1, 1, 1) + mono(v, 2, 0, 1, 1, 1, 1, 1) - mono(v, 2, 2, 2, 2,
        0, 0, 2));
    let n45 = v.x1 * n31;
    lemma_associative_product_34(v, v.x1, n31);
    let n46 = v.y1 * n30;
    lemma_associative_product_36(v, v.y1, n30);
    let n47 = n45 + n46;
    assert(n47 == mono(v, 0, 1, 0, 1, 1, 0, 0) + mono(v, 0, 1, 1, 0, 0, 1, 0) - mono(v, 0, 1, 1, 2, 2, 1,
        1) - mono(v, 0, 1, 2, 1, 1, 2, 1) + mono(v, 1, 0, 0, 1, 0, 1, 0) + mono(v, 1, 0, 1, 0,
        1, 0, 0) + mono(v, 1, 0, 1, 2, 1, 2, 1) + mono(v, 1, 0, 2, 1, 2, 1, 1));
    let n48 = v.x1 * n30;
    lemma_associative_product_38(v, v.x1, n30);
    let n49 = v.y1 * n31;
    lemma_associative_product_40(v, v.y1, n31);
    let n50 = n48 + n49;
    assert(n50 == mono(v, 0, 1, 0, 1, 0, 1, 0) + mono(v, 0, 1, 1, 0, 1, 0, 0) + mono(v, 0, 1, 1, 2, 1, 2,
        1) + mono(v, 0, 1, 2, 1, 2, 1, 1) + mono(v, 1, 0, 0, 1, 1, 0, 0) + mono(v, 1, 0, 1, 0,
        0, 1, 0) - mono(v, 1, 0, 1, 2, 2, 1, 1) - mono(v, 1, 0, 2, 1, 1, 2, 1));
    let n51 = 1 * n33;
    lemma_associative_product_42(v, 1, n33);
    let n52 = n1 * n32;
    lemma_associative_product_44(v, n1, n32);
    let n53 = v.d * n52;
    lemma_associative_product_46(v, v.d, n52);
    let n54 = n51 - n53;
    assert(n54 == mono(v, 0, 0, 0, 0, 0, 0, 0) - mono(v, 0, 0, 2, 2, 2, 2, 2) - mono(v, 1, 1, 0, 2, 1, 1,
        1) - mono(v, 1, 1, 1, 1, 0, 2, 1) - mono(v, 1, 1, 1, 1, 2, 0, 1) - mono(v, 1, 1, 2, 0,
        1, 1, 1));
    let n55 = n51 + n53;
    assert(n55 == mono(v, 0, 0, 0, 0, 0, 0, 0) - mono(v, 0, 0, 2, 2, 2, 2, 2) + mono(v, 1, 1, 0, 2, 1, 1,
        1) + mono(v, 1, 1, 1, 1, 0, 2, 1) + mono(v, 1, 1, 1, 1, 2, 0, 1) + mono(v, 1, 1, 2, 0,
        1, 1, 1));
    let n56 = n36 * n55;
    lemma_associative_product_50(v, n36, n55);
    let n57 = n47 * n44;
    lemma_associative_product_54(v, n47, n44);
    let n58 = n56 - n57;
    assert(n58 == mono(v, 0, 1, 1, 2, 2, 1, 1) + mono(v, 0, 1, 2, 1, 1, 2, 1) - mono(v, 0, 1, 2, 3, 3, 2,
        2) - mono(v, 0, 1, 3, 2, 2, 3, 2) - mono(v, 0, 3, 1, 2, 2, 1, 1) - mono(v, 0, 3, 2, 1,
        1, 2, 1) + mono(v, 0, 3, 2, 3, 3, 2, 2) + mono(v, 0, 3, 3, 2, 2, 3, 2) - mono(v, 1, 0,
        1, 2, 1, 2, 1) - mono(v, 1, 0, 2, 1, 2, 1, 1) - mono(v, 1, 0, 2, 3, 2, 3, 2) - mono(v,
        1, 0, 3, 2, 3, 2, 2) + mono(v, 1, 2, 1, 2, 1, 0, 1) + mono(v, 1, 2, 1, 2, 3, 0, 1) +
        mono(v, 1, 2, 1, 4, 3, 2, 2) - mono(v, 1, 2, 2, 1, 0, 1, 1) + mono(v, 1, 2, 2, 1, 0, 3,
        1) - mono(v, 1, 2, 3, 4, 3, 2, 3) + mono(v, 1, 2, 4, 1, 2, 3, 2) + mono(v, 1, 2, 4, 3,
        2, 3, 3) - mono(v, 2, 1, 1, 2, 0, 1, 1) + mono(v, 2, 1, 1, 2, 0, 3, 1) - mono(v, 2, 1,
        1, 4, 2, 3, 2) + mono(v, 2, 1, 2, 1, 1, 0, 1) + mono(v, 2, 1, 2, 1, 3, 0, 1) + mono(v,
        2, 1, 3, 4, 2, 3, 3) - mono(v, 2, 1, 4, 1, 3, 2, 2) - mono(v, 2, 1, 4, 3, 3, 2, 3) +
        mono(v, 2, 3, 1, 4, 2, 1, 2) + mono(v, 2, 3, 2, 3, 1, 0, 2) + mono(v, 2, 3, 2, 3, 3, 0,
        2) + mono(v, 2, 3, 3, 2, 0, 1, 2) - mono(v, 2, 3, 3, 2, 0, 3, 2) - mono(v, 2, 3, 3, 4,
        2, 1, 3) - mono(v, 2, 3, 4, 1, 1, 2, 2) - mono(v, 2, 3, 4, 3, 1, 2, 3) - mono(v, 3, 0,
        1, 2, 1, 2, 1) - mono(v, 3, 0, 2, 1, 2, 1, 1) - mono(v, 3, 0, 2, 3, 2, 3, 2) - mono(v,
        3, 0, 3, 2, 3, 2, 2) - mono(v, 3, 2, 1, 4, 1, 2, 2) + mono(v, 3, 2, 2, 3, 0, 1, 2) -
        mono(v, 3, 2, 2, 3, 0, 3, 2) + mono(v, 3, 2, 3, 2, 1, 0, 2) + mono(v, 3, 2, 3, 2, 3, 0,
        2) + mono(v, 3, 2, 3, 4, 1, 2, 3) + mono(v, 3, 2, 4, 1, 2, 1, 2) + mono(v, 3, 2, 4, 3,
        2, 1, 3));
    let n59 = v.x1 * v.x1;
    lemma_associative_product_55(v, v.x1, v.x1);
    let n60 = v.y1 * v.y1;
    lemma_associative_product_56(v, v.y1, v.y1);
    let n61 = n59 * n60;
    lemma_associative_product_57(v, n59, n60);
    let n62 = v.d * n61;
    lemma_associative_product_58(v, v.d, n61);
    let n63 = n60 - n59;
    assert(n63 == mono(v, 0, 2, 0, 0, 0, 0, 0) - mono(v, 2, 0, 0, 0, 0, 0, 0));
    let n64 = 1 + n62;
    assert(n64 == mono(v, 0, 0, 0, 0, 0, 0, 0) + mono(v, 2, 2, 0, 0, 0, 0, 1));
    let n65 = n63 - n64;
    assert(n65 == -mono(v, 0, 0, 0, 0, 0, 0, 0) + mono(v, 0, 2, 0, 0, 0, 0, 0) - mono(v, 2, 0, 0, 0, 0, 0,
        0) - mono(v, 2, 2, 0, 0, 0, 0, 1));
    let n66 = v.x2 * v.x2;
    lemma_associative_product_59(v, v.x2, v.x2);
    let n67 = v.y2 * v.y2;
    lemma_associative_product_60(v, v.y2, v.y2);
    let n68 = n66 * n67;
    lemma_associative_product_61(v, n66, n67);
    let n69 = v.d * n68;
    lemma_associative_product_62(v, v.d, n68);
    let n70 = n67 - n66;
    assert(n70 == mono(v, 0, 0, 0, 2, 0, 0, 0) - mono(v, 0, 0, 2, 0, 0, 0, 0));
    let n71 = 1 + n69;
    assert(n71 == mono(v, 0, 0, 0, 0, 0, 0, 0) + mono(v, 0, 0, 2, 2, 0, 0, 1));
    let n72 = n70 - n71;
    assert(n72 == -mono(v, 0, 0, 0, 0, 0, 0, 0) + mono(v, 0, 0, 0, 2, 0, 0, 0) - mono(v, 0, 0, 2, 0, 0, 0,
        0) - mono(v, 0, 0, 2, 2, 0, 0, 1));
    let n73 = v.x3 * v.x3;
    lemma_associative_product_63(v, v.x3, v.x3);
    let n74 = v.y3 * v.y3;
    lemma_associative_product_64(v, v.y3, v.y3);
    let n75 = n73 * n74;
    lemma_associative_product_65(v, n73, n74);
    let n76 = v.d * n75;
    lemma_associative_product_66(v, v.d, n75);
    let n77 = n74 - n73;
    assert(n77 == mono(v, 0, 0, 0, 0, 0, 2, 0) - mono(v, 0, 0, 0, 0, 2, 0, 0));
    let n78 = 1 + n76;
    assert(n78 == mono(v, 0, 0, 0, 0, 0, 0, 0) + mono(v, 0, 0, 0, 0, 2, 2, 1));
    let n79 = n77 - n78;
    assert(n79 == -mono(v, 0, 0, 0, 0, 0, 0, 0) + mono(v, 0, 0, 0, 0, 0, 2, 0) - mono(v, 0, 0, 0, 0, 2, 0,
        0) - mono(v, 0, 0, 0, 0, 2, 2, 1));
    let n80 = -mono(v, 0, 1, 1, 4, 2, 1, 1) - mono(v, 0, 1, 2, 3, 1, 0, 1) - mono(v, 0, 1, 2, 3, 3, 0,
        1) - mono(v, 0, 1, 3, 2, 0, 1, 1) + mono(v, 0, 1, 3, 2, 0, 3, 1) + mono(v, 0, 1, 3, 4,
        2, 1, 2) + mono(v, 0, 1, 4, 1, 1, 2, 1) + mono(v, 0, 1, 4, 3, 1, 2, 2) + mono(v, 1, 0,
        1, 4, 1, 2, 1) - mono(v, 1, 0, 2, 3, 0, 1, 1) + mono(v, 1, 0, 2, 3, 0, 3, 1) - mono(v,
        1, 0, 3, 2, 1, 0, 1) - mono(v, 1, 0, 3, 2, 3, 0, 1) - mono(v, 1, 0, 3, 4, 1, 2, 2) -
        mono(v, 1, 0, 4, 1, 2, 1, 1) - mono(v, 1, 0, 4, 3, 2, 1, 2);
    let n81 = mono(v, 0, 1, 0, 1, 1, 0, 0) - mono(v, 0, 1, 0, 1, 1, 2, 0) + mono(v, 0, 1, 0, 1, 3, 0,
        0) + mono(v, 0, 1, 0, 1, 3, 2, 1) + mono(v, 0, 1, 1, 0, 0, 1, 0) - mono(v, 0, 1, 1, 0,
        0, 3, 0) + mono(v, 0, 1, 1, 0, 2, 1, 0) + mono(v, 0, 1, 1, 0, 2, 3, 1) - mono(v, 0, 1,
        1, 2, 2, 1, 1) - mono(v, 0, 1, 2, 1, 1, 2, 1) - mono(v, 0, 3, 0, 1, 1, 0, 0) + mono(v,
        0, 3, 0, 1, 1, 2, 0) - mono(v, 0, 3, 0, 1, 3, 0, 0) - mono(v, 0, 3, 0, 1, 3, 2, 1) -
        mono(v, 0, 3, 1, 0, 0, 1, 0) + mono(v, 0, 3, 1, 0, 0, 3, 0) - mono(v, 0, 3, 1, 0, 2, 1,
        0) - mono(v, 0, 3, 1, 0, 2, 3, 1) + mono(v, 0, 3, 1, 2, 2, 1, 1) + mono(v, 0, 3, 2, 1,
        1, 2, 1) + mono(v, 1, 0, 0, 1, 0, 1, 0) - mono(v, 1, 0, 0, 1, 0, 3, 0) + mono(v, 1, 0,
        0, 1, 2, 1, 0) + mono(v, 1, 0, 0, 1, 2, 3, 1) + mono(v, 1, 0, 1, 0, 1, 0, 0) - mono(v,
        1, 0, 1, 0, 1, 2, 0) + mono(v, 1, 0, 1, 0, 3, 0, 0) + mono(v, 1, 0, 1, 0, 3, 2, 1) +
        mono(v, 1, 0, 1, 2, 1, 2, 1) + mono(v, 1, 0, 2, 1, 2, 1, 1) - mono(v, 1, 2, 0, 1, 0, 1,
        0) + mono(v, 1, 2, 0, 1, 0, 3, 0) - mono(v, 1, 2, 0, 1, 2, 1, 0) - mono(v, 1, 2, 0, 1,
        2, 3, 1) - mono(v, 1, 2, 1, 0, 1, 0, 0) + mono(v, 1, 2, 1, 0, 1, 2, 0) - mono(v, 1, 2,
        1, 0, 3, 0, 0) - mono(v, 1, 2, 1, 0, 3, 2, 1) - mono(v, 1, 2, 1, 2, 1, 2, 1) + mono(v,
        1, 2, 1, 2, 3, 2, 2) - mono(v, 1, 2, 2, 1, 2, 1, 1) - mono(v, 1, 2, 2, 1, 2, 3, 2) +
        mono(v, 2, 1, 0, 1, 1, 0, 0) - mono(v, 2, 1, 0, 1, 1, 2, 0) + mono(v, 2, 1, 0, 1, 3, 0,
        0) + mono(v, 2, 1, 0, 1, 3, 2, 1) + mono(v, 2, 1, 1, 0, 0, 1, 0) - mono(v, 2, 1, 1, 0,
        0, 3, 0) + mono(v, 2, 1, 1, 0, 2, 1, 0) + mono(v, 2, 1, 1, 0, 2, 3, 1) - mono(v, 2, 1,
        1, 2, 2, 1, 1) - mono(v, 2, 1, 1, 2, 2, 3, 2) - mono(v, 2, 1, 2, 1, 1, 2, 1) + mono(v,
        2, 1, 2, 1, 3, 2, 2) + mono(v, 3, 0, 0, 1, 0, 1, 0) - mono(v, 3, 0, 0, 1, 0, 3, 0) +
        mono(v, 3, 0, 0, 1, 2, 1, 0) + mono(v, 3, 0, 0, 1, 2, 3, 1) + mono(v, 3, 0, 1, 0, 1, 0,
        0) - mono(v, 3, 0, 1, 0, 1, 2, 0) + mono(v, 3, 0, 1, 0, 3, 0, 0) + mono(v, 3, 0, 1, 0,
        3, 2, 1) + mono(v, 3, 0, 1, 2, 1, 2, 1) + mono(v, 3, 0, 2, 1, 2, 1, 1);
    let n82 = -mono(v, 0, 1, 0, 1, 1, 0, 0) + mono(v, 0, 1, 0, 3, 1, 0, 0) - mono(v, 0, 1, 1, 0, 0, 1,
        0) + mono(v, 0, 1, 1, 2, 0, 1, 0) - mono(v, 0, 1, 2, 1, 1, 0, 0) - mono(v, 0, 1, 3, 0,
        0, 1, 0) + mono(v, 0, 3, 0, 1, 1, 0, 0) - mono(v, 0, 3, 0, 3, 1, 0, 0) + mono(v, 0, 3,
        1, 0, 0, 1, 0) - mono(v, 0, 3, 1, 2, 0, 1, 0) + mono(v, 0, 3, 2, 1, 1, 0, 0) + mono(v,
        0, 3, 3, 0, 0, 1, 0) - mono(v, 1, 0, 0, 1, 0, 1, 0) + mono(v, 1, 0, 0, 3, 0, 1, 0) -
        mono(v, 1, 0, 1, 0, 1, 0, 0) + mono(v, 1, 0, 1, 2, 1, 0, 0) - mono(v, 1, 0, 2, 1, 0, 1,
        0) - mono(v, 1, 0, 3, 0, 1, 0, 0) + mono(v, 1, 2, 0, 1, 0, 1, 0) - mono(v, 1, 2, 0, 3,
        0, 1, 0) + mono(v, 1, 2, 1, 0, 1, 0, 0) - mono(v, 1, 2, 1, 2, 1, 0, 0) - mono(v, 1, 2,
        1, 2, 1, 0, 1) + mono(v, 1, 2, 2, 1, 0, 1, 0) + mono(v, 1, 2, 2, 1, 0, 1, 1) + mono(v,
        1, 2, 3, 0, 1, 0, 0) - mono(v, 2, 1, 0, 1, 1, 0, 0) + mono(v, 2, 1, 0, 3, 1, 0, 0) -
        mono(v, 2, 1, 1, 0, 0, 1, 0) + mono(v, 2, 1, 1, 2, 0, 1, 0) + mono(v, 2, 1, 1, 2, 0, 1,
        1) - mono(v, 2, 1, 2, 1, 1, 0, 0) - mono(v, 2, 1, 2, 1, 1, 0, 1) - mono(v, 2, 1, 3, 0,
        0, 1, 0) - mono(v, 3, 0, 0, 1, 0, 1, 0) + mono(v, 3, 0, 0, 3, 0, 1, 0) - mono(v, 3, 0,
        1, 0, 1, 0, 0) + mono(v, 3, 0, 1, 2, 1, 0, 0) - mono(v, 3, 0, 2, 1, 0, 1, 0) - mono(v,
        3, 0, 3, 0, 1, 0, 0);
    let n83 = n80 * n65;
    lemma_associative_product_70(v, n80, n65);
    let n84 = n81 * n72;
    lemma_associative_product_82(v, n81, n72);
    let n85 = n82 * n79;
    lemma_associative_product_90(v, n82, n79);
    let n86 = n83 + n84;
    assert(n86 == -mono(v, 0, 1, 0, 1, 1, 0, 0) + mono(v, 0, 1, 0, 1, 1, 2, 0) - mono(v, 0, 1, 0, 1, 3, 0,
        0) - mono(v, 0, 1, 0, 1, 3, 2, 1) + mono(v, 0, 1, 0, 3, 1, 0, 0) - mono(v, 0, 1, 0, 3,
        1, 2, 0) + mono(v, 0, 1, 0, 3, 3, 0, 0) + mono(v, 0, 1, 0, 3, 3, 2, 1) - mono(v, 0, 1,
        1, 0, 0, 1, 0) + mono(v, 0, 1, 1, 0, 0, 3, 0) - mono(v, 0, 1, 1, 0, 2, 1, 0) - mono(v,
        0, 1, 1, 0, 2, 3, 1) + mono(v, 0, 1, 1, 2, 0, 1, 0) - mono(v, 0, 1, 1, 2, 0, 3, 0) +
        mono(v, 0, 1, 1, 2, 2, 1, 0) + mono(v, 0, 1, 1, 2, 2, 1, 1) + mono(v, 0, 1, 1, 2, 2, 3,
        1) - mono(v, 0, 1, 2, 1, 1, 0, 0) + mono(v, 0, 1, 2, 1, 1, 2, 0) + mono(v, 0, 1, 2, 1,
        1, 2, 1) - mono(v, 0, 1, 2, 1, 3, 0, 0) - mono(v, 0, 1, 2, 1, 3, 2, 1) - mono(v, 0, 1,
        2, 3, 3, 2, 2) - mono(v, 0, 1, 3, 0, 0, 1, 0) + mono(v, 0, 1, 3, 0, 0, 3, 0) - mono(v,
        0, 1, 3, 0, 2, 1, 0) - mono(v, 0, 1, 3, 0, 2, 3, 1) - mono(v, 0, 1, 3, 2, 2, 3, 2) +
        mono(v, 0, 3, 0, 1, 1, 0, 0) - mono(v, 0, 3, 0, 1, 1, 2, 0) + mono(v, 0, 3, 0, 1, 3, 0,
        0) + mono(v, 0, 3, 0, 1, 3, 2, 1) - mono(v, 0, 3, 0, 3, 1, 0, 0) + mono(v, 0, 3, 0, 3,
        1, 2, 0) - mono(v, 0, 3, 0, 3, 3, 0, 0) - mono(v, 0, 3, 0, 3, 3, 2, 1) + mono(v, 0, 3,
        1, 0, 0, 1, 0) - mono(v, 0, 3, 1, 0, 0, 3, 0) + mono(v, 0, 3, 1, 0, 2, 1, 0) + mono(v,
        0, 3, 1, 0, 2, 3, 1) - mono(v, 0, 3, 1, 2, 0, 1, 0) + mono(v, 0, 3, 1, 2, 0, 3, 0) -
        mono(v, 0, 3, 1, 2, 2, 1, 0) - mono(v, 0, 3, 1, 2, 2, 1, 1) - mono(v, 0, 3, 1, 2, 2, 3,
        1) + mono(v, 0, 3, 2, 1, 1, 0, 0) - mono(v, 0, 3, 2, 1, 1, 2, 0) - mono(v, 0, 3, 2, 1,
        1, 2, 1) + mono(v, 0, 3, 2, 1, 3, 0, 0) + mono(v, 0, 3, 2, 1, 3, 2, 1) + mono(v, 0, 3,
        2, 3, 3, 2, 2) + mono(v, 0, 3, 3, 0, 0, 1, 0) - mono(v, 0, 3, 3, 0, 0, 3, 0) + mono(v,
        0, 3, 3, 0, 2, 1, 0) + mono(v, 0, 3, 3, 0, 2, 3, 1) + mono(v, 0, 3, 3, 2, 2, 3, 2) -
        mono(v, 1, 0, 0, 1, 0, 1, 0) + mono(v, 1, 0, 0, 1, 0, 3, 0) - mono(v, 1, 0, 0, 1, 2, 1,
        0) - mono(v, 1, 0, 0, 1, 2, 3, 1) + mono(v, 1, 0, 0, 3, 0, 1, 0) - mono(v, 1, 0, 0, 3,
        0, 3, 0) + mono(v, 1, 0, 0, 3, 2, 1, 0) + mono(v, 1, 0, 0, 3, 2, 3, 1) - mono(v, 1, 0,
        1, 0, 1, 0, 0) + mono(v, 1, 0, 1, 0, 1, 2, 0) - mono(v, 1, 0, 1, 0, 3, 0, 0) - mono(v,
        1, 0, 1, 0, 3, 2, 1) + mono(v, 1, 0, 1, 2, 1, 0, 0) - mono(v, 1, 0, 1, 2, 1, 2, 0) -
        mono(v, 1, 0, 1, 2, 1, 2, 1) + mono(v, 1, 0, 1, 2, 3, 0, 0) + mono(v, 1, 0, 1, 2, 3, 2,
        1) - mono(v, 1, 0, 2, 1, 0, 1, 0) + mono(v, 1, 0, 2, 1, 0, 3, 0) - mono(v, 1, 0, 2, 1,
        2, 1, 0) - mono(v, 1, 0, 2, 1, 2, 1, 1) - mono(v, 1, 0, 2, 1, 2, 3, 1) - mono(v, 1, 0,
        2, 3, 2, 3, 2) - mono(v, 1, 0, 3, 0, 1, 0, 0) + mono(v, 1, 0, 3, 0, 1, 2, 0) - mono(v,
        1, 0, 3, 0, 3, 0, 0) - mono(v, 1, 0, 3, 0, 3, 2, 1) - mono(v, 1, 0, 3, 2, 3, 2, 2) +
        mono(v, 1, 2, 0, 1, 0, 1, 0) - mono(v, 1, 2, 0, 1, 0, 3, 0) + mono(v, 1, 2, 0, 1, 2, 1,
        0) + mono(v, 1, 2, 0, 1, 2, 3, 1) - mono(v, 1, 2, 0, 3, 0, 1, 0) + mono(v, 1, 2, 0, 3,
        0, 3, 0) - mono(v, 1, 2, 0, 3, 2, 1, 0) - mono(v, 1, 2, 0, 3, 2, 3, 1) + mono(v, 1, 2,
        1, 0, 1, 0, 0) - mono(v, 1, 2, 1, 0, 1, 2, 0) + mono(v, 1, 2, 1, 0, 3, 0, 0) + mono(v,
        1, 2, 1, 0, 3, 2, 1) - mono(v, 1, 2, 1, 2, 1, 0, 0) + mono(v, 1, 2, 1, 2, 1, 2, 0) +
        mono(v, 1, 2, 1, 2, 1, 2, 1) - mono(v, 1, 2, 1, 2, 3, 0, 0) - mono(v, 1, 2, 1, 2, 3, 2,
        1) - mono(v, 1, 2, 1, 2, 3, 2, 2) + mono(v, 1, 2, 1, 4, 3, 2, 2) + mono(v, 1, 2, 2, 1,
        0, 1, 0) - mono(v, 1, 2, 2, 1, 0, 3, 0) + mono(v, 1, 2, 2, 1, 2, 1, 0) + mono(v, 1, 2,
        2, 1, 2, 1, 1) + mono(v, 1, 2, 2, 1, 2, 3, 1) + mono(v, 1, 2, 2, 1, 2, 3, 2) + mono(v,
        1, 2, 3, 0, 1, 0, 0) - mono(v, 1, 2, 3, 0, 1, 2, 0) + mono(v, 1, 2, 3, 0, 3, 0, 0) +
        mono(v, 1, 2, 3, 0, 3, 2, 1) - mono(v, 1, 2, 3, 4, 3, 2, 3) + mono(v, 1, 2, 4, 1, 2, 3,
        2) + mono(v, 1, 2, 4, 3, 2, 3, 3) - mono(v, 2, 1, 0, 1, 1, 0, 0) + mono(v, 2, 1, 0, 1,
        1, 2, 0) - mono(v, 2, 1, 0, 1, 3, 0, 0) - mono(v, 2, 1, 0, 1, 3, 2, 1) + mono(v, 2, 1,
        0, 3, 1, 0, 0) - mono(v, 2, 1, 0, 3, 1, 2, 0) + mono(v, 2, 1, 0, 3, 3, 0, 0) + mono(v,
        2, 1, 0, 3, 3, 2, 1) - mono(v, 2, 1, 1, 0, 0, 1, 0) + mono(v, 2, 1, 1, 0, 0, 3, 0) -
        mono(v, 2, 1, 1, 0, 2, 1, 0) - mono(v, 2, 1, 1, 0, 2, 3, 1) + mono(v, 2, 1, 1, 2, 0, 1,
        0) - mono(v, 2, 1, 1, 2, 0, 3, 0) + mono(v, 2, 1, 1, 2, 2, 1, 0) + mono(v, 2, 1, 1, 2,
        2, 1, 1) + mono(v, 2, 1, 1, 2, 2, 3, 1) + mono(v, 2, 1, 1, 2, 2, 3, 2) - mono(v, 2, 1,
        1, 4, 2, 3, 2) - mono(v, 2, 1, 2, 1, 1, 0, 0) + mono(v, 2, 1, 2, 1, 1, 2, 0) + mono(v,
        2, 1, 2, 1, 1, 2, 1) - mono(v, 2, 1, 2, 1, 3, 0, 0) - mono(v, 2, 1, 2, 1, 3, 2, 1) -
        mono(v, 2, 1, 2, 1, 3, 2, 2) - mono(v, 2, 1, 3, 0, 0, 1, 0) + mono(v, 2, 1, 3, 0, 0, 3,
        0) - mono(v, 2, 1, 3, 0, 2, 1, 0) - mono(v, 2, 1, 3, 0, 2, 3, 1) + mono(v, 2, 1, 3, 4,
        2, 3, 3) - mono(v, 2, 1, 4, 1, 3, 2, 2) - mono(v, 2, 1, 4, 3, 3, 2, 3) + mono(v, 2, 3,
        1, 4, 2, 1, 2) + mono(v, 2, 3, 2, 3, 1, 0, 2) + mono(v, 2, 3, 2, 3, 3, 0, 2) + mono(v,
        2, 3, 3, 2, 0, 1, 2) - mono(v, 2, 3, 3, 2, 0, 3, 2) - mono(v, 2, 3, 3, 4, 2, 1, 3) -
        mono(v, 2, 3, 4, 1, 1, 2, 2) - mono(v, 2, 3, 4, 3, 1, 2, 3) - mono(v, 3, 0, 0, 1, 0, 1,
        0) + mono(v, 3, 0, 0, 1, 0, 3, 0) - mono(v, 3, 0, 0, 1, 2, 1, 0) - mono(v, 3, 0, 0, 1,
        2, 3, 1) + mono(v, 3, 0, 0, 3, 0, 1, 0) - mono(v, 3, 0, 0, 3, 0, 3, 0) + mono(v, 3, 0,
        0, 3, 2, 1, 0) + mono(v, 3, 0, 0, 3, 2, 3, 1) - mono(v, 3, 0, 1, 0, 1, 0, 0) + mono(v,
        3, 0, 1, 0, 1, 2, 0) - mono(v, 3, 0, 1, 0, 3, 0, 0) - mono(v, 3, 0, 1, 0, 3, 2, 1) +
        mono(v, 3, 0, 1, 2, 1, 0, 0) - mono(v, 3, 0, 1, 2, 1, 2, 0) - mono(v, 3, 0, 1, 2, 1, 2,
        1) + mono(v, 3, 0, 1, 2, 3, 0, 0) + mono(v, 3, 0, 1, 2, 3, 2, 1) - mono(v, 3, 0, 2, 1,
        0, 1, 0) + mono(v, 3, 0, 2, 1, 0, 3, 0) - mono(v, 3, 0, 2, 1, 2, 1, 0) - mono(v, 3, 0,
        2, 1, 2, 1, 1) - mono(v, 3, 0, 2, 1, 2, 3, 1) - mono(v, 3, 0, 2, 3, 2, 3, 2) - mono(v,
        3, 0, 3, 0, 1, 0, 0) + mono(v, 3, 0, 3, 0, 1, 2, 0) - mono(v, 3, 0, 3, 0, 3, 0, 0) -
        mono(v, 3, 0, 3, 0, 3, 2, 1) - mono(v, 3, 0, 3, 2, 3, 2, 2) - mono(v, 3, 2, 1, 4, 1, 2,
        2) + mono(v, 3, 2, 2, 3, 0, 1, 2) - mono(v, 3, 2, 2, 3, 0, 3, 2) + mono(v, 3, 2, 3, 2,
        1, 0, 2) + mono(v, 3, 2, 3, 2, 3, 0, 2) + mono(v, 3, 2, 3, 4, 1, 2, 3) + mono(v, 3, 2,
        4, 1, 2, 1, 2) + mono(v, 3, 2, 4, 3, 2, 1, 3));
    let n87 = n86 + n85;
    assert(n87 == mono(v, 0, 1, 1, 2, 2, 1, 1) + mono(v, 0, 1, 2, 1, 1, 2, 1) - mono(v, 0, 1, 2, 3, 3, 2,
        2) - mono(v, 0, 1, 3, 2, 2, 3, 2) - mono(v, 0, 3, 1, 2, 2, 1, 1) - mono(v, 0, 3, 2, 1,
        1, 2, 1) + mono(v, 0, 3, 2, 3, 3, 2, 2) + mono(v, 0, 3, 3, 2, 2, 3, 2) - mono(v, 1, 0,
        1, 2, 1, 2, 1) - mono(v, 1, 0, 2, 1, 2, 1, 1) - mono(v, 1, 0, 2, 3, 2, 3, 2) - mono(v,
        1, 0, 3, 2, 3, 2, 2) + mono(v, 1, 2, 1, 2, 1, 0, 1) + mono(v, 1, 2, 1, 2, 3, 0, 1) +
        mono(v, 1, 2, 1, 4, 3, 2, 2) - mono(v, 1, 2, 2, 1, 0, 1, 1) + mono(v, 1, 2, 2, 1, 0, 3,
        1) - mono(v, 1, 2, 3, 4, 3, 2, 3) + mono(v, 1, 2, 4, 1, 2, 3, 2) + mono(v, 1, 2, 4, 3,
        2, 3, 3) - mono(v, 2, 1, 1, 2, 0, 1, 1) + mono(v, 2, 1, 1, 2, 0, 3, 1) - mono(v, 2, 1,
        1, 4, 2, 3, 2) + mono(v, 2, 1, 2, 1, 1, 0, 1) + mono(v, 2, 1, 2, 1, 3, 0, 1) + mono(v,
        2, 1, 3, 4, 2, 3, 3) - mono(v, 2, 1, 4, 1, 3, 2, 2) - mono(v, 2, 1, 4, 3, 3, 2, 3) +
        mono(v, 2, 3, 1, 4, 2, 1, 2) + mono(v, 2, 3, 2, 3, 1, 0, 2) + mono(v, 2, 3, 2, 3, 3, 0,
        2) + mono(v, 2, 3, 3, 2, 0, 1, 2) - mono(v, 2, 3, 3, 2, 0, 3, 2) - mono(v, 2, 3, 3, 4,
        2, 1, 3) - mono(v, 2, 3, 4, 1, 1, 2, 2) - mono(v, 2, 3, 4, 3, 1, 2, 3) - mono(v, 3, 0,
        1, 2, 1, 2, 1) - mono(v, 3, 0, 2, 1, 2, 1, 1) - mono(v, 3, 0, 2, 3, 2, 3, 2) - mono(v,
        3, 0, 3, 2, 3, 2, 2) - mono(v, 3, 2, 1, 4, 1, 2, 2) + mono(v, 3, 2, 2, 3, 0, 1, 2) -
        mono(v, 3, 2, 2, 3, 0, 3, 2) + mono(v, 3, 2, 3, 2, 1, 0, 2) + mono(v, 3, 2, 3, 2, 3, 0,
        2) + mono(v, 3, 2, 3, 4, 1, 2, 3) + mono(v, 3, 2, 4, 1, 2, 1, 2) + mono(v, 3, 2, 4, 3,
        2, 1, 3));
    assert(n58 == n87);
    (n80, n81, n82)
}

/// The addition law is associative, for the second coordinate: the cross
/// products of `(P1 + P2) + P3` and `P1 + (P2 + P3)` differ by a combination
/// of the defects of the three points. Returns the cofactors.
pub proof fn lemma_associative_y(v: Vars) -> (q: (int, int, int))
    ensures
        ({
            let p1 = int_extend(v.x1, v.y1);
            let p2 = int_extend(v.x2, v.y2);
            let p3 = int_extend(v.x3, v.y3);
            let l = int_sum(p1, p2, v.d);
            let r = int_sum(p2, p3, v.d);
            int_h(l, p3) * int_f(p1, r, v.d) - int_h(p1, r) * int_f(l, p3, v.d) == q.0
                * curve_defect(v.x1, v.y1, v.d) + q.1 * curve_defect(v.x2, v.y2, v.d) + q.2
                * curve_defect(v.x3, v.y3, v.d)
        }),
{
    lemma_mono_vars(v);
    let n1 = v.x1 * v.y1;
    lemma_associative_product_1(v, v.x1, v.y1);
    let n2 = v.x2 * v.y2;
    lemma_associative_product_2(v, v.x2, v.y2);
    let n3 = v.x3 * v.y3;
    lemma_associative_product_3(v, v.x3, v.y3);
    let n4 = v.x1 * v.y2;
    lemma_associative_product_4(v, v.x1, v.y2);
    let n5 = v.y1 * v.x2;
    lemma_associative_product_5(v, v.y1, v.x2);
    let n6 = n4 + n5;
    assert(n6 == mono(v, 0, 1, 1, 0, 0, 0, 0) + mono(v, 1, 0, 0, 1, 0, 0, 0));
    let n7 = v.x1 * v.x2;
    lemma_associative_product_6(v, v.x1, v.x2);
    let n8 = v.y1 * v.y2;
    lemma_associative_product_7(v, v.y1, v.y2);
    let n9 = n7 + n8;
    assert(n9 == mono(v, 0, 1, 0, 1, 0, 0, 0) + mono(v, 1, 0, 1, 0, 0, 0, 0));
    let n10 = 1 * 1;
    lemma_associative_product_8(v, 1, 1);
    let n11 = n1 * n2;
    lemma_associative_product_9(v, n1, n2);
    let n12 = v.d * n11;
    lemma_associative_product_10(v, v.d, n11);
    let n13 = n10 - n12;
    assert(n13 == mono(v, 0, 0, 0, 0, 0, 0, 0) - mono(v, 1, 1, 1, 1, 0, 0, 1));
    let n14 = n10 + n12;
    assert(n14 == mono(v, 0, 0, 0, 0, 0, 0, 0) + mono(v, 1, 1, 1, 1, 0, 0, 1));
    let n15 = n6 * n13;
    lemma_associative_product_11(v, n6, n13);
    let n16 = n14 * n9;
    lemma_associative_product_12(v, n14, n9);
    let n17 = n6 * n9;
    lemma_associative_product_13(v, n6, n9);
    let n18 = n13 * n14;
    lemma_associative_product_14(v, n13, n14);
    let n19 = v.x2 * v.y3;
    lemma_associative_product_15(v, v.x2, v.y3);
    let n20 = v.y2 * v.x3;
    lemma_associative_product_16(v, v.y2, v.x3);
    let n21 = n19 + n20;
    assert(n21 == mono(v, 0, 0, 0, 1, 1, 0, 0) + mono(v, 0, 0, 1, 0, 0, 1, 0));
    let n22 = v.x2 * v.x3;
    lemma_associative_product_17(v, v.x2, v.x3);
    let n23 = v.y2 * v.y3;
    lemma_associative_product_18(v, v.y2, v.y3);
    let n24 = n22 + n23;
    assert(n24 == mono(v, 0, 0, 0, 1, 0, 1, 0) + mono(v, 0, 0, 1, 0, 1, 0, 0));
    let n25 = 1 * 1;
    lemma_associative_product_8(v, 1, 1);
    let n26 = n2 * n3;
    lemma_associative_product_19(v, n2, n3);
    let n27 = v.d * n26;
    lemma_associative_product_20(v, v.d, n26);
    let n28 = n25 - n27;
    assert(n28 == mono(v, 0, 0, 0, 0, 0, 0, 0) - mono(v, 0, 0, 1, 1, 1, 1, 1));
    let n29 = n25 + n27;
    assert(n29 == mono(v, 0, 0, 0, 0, 0, 0, 0) + mono(v, 0, 0, 1, 1, 1, 1, 1));
    let n30 = n21 * n28;
    lemma_associative_product_21(v, n21, n28);
    let n31 = n29 * n24;
    lemma_associative_product_22(v, n29, n24);
    let n32 = n21 * n24;
    lemma_associative_product_23(v, n21, n24);
    let n33 = n28 * n29;
    lemma_associative_product_24(v, n28, n29);
    let n34 = n15 * v.y3;
    lemma_associative_product_25(v, n15, v.y3);
    let n35 = n16 * v.x3;
    lemma_associative_product_26(v, n16, v.x3);
    let n36 = n34 + n35;
    assert(n36 == mono(v, 0, 1, 0, 1, 1, 0, 0) + mono(v, 0, 1, 1, 0, 0, 1, 0) + mono(v, 1, 0, 0, 1, 0, 1,
        0) + mono(v, 1, 0, 1, 0, 1, 0, 0) + mono(v, 1, 2, 1, 2, 1, 0, 1) - mono(v, 1, 2, 2, 1,
        0, 1, 1) - mono(v, 2, 1, 1, 2, 0, 1, 1) + mono(v, 2, 1, 2, 1, 1, 0, 1));
    let n37 = n15 * v.x3;
    lemma_associative_product_27(v, n15, v.x3);
    let n38 = n16 * v.y3;
    lemma_associative_product_28(v, n16, v.y3);
    let n39 = n37 + n38;
    assert(n39 == mono(v, 0, 1, 0, 1, 0, 1, 0) + mono(v, 0, 1, 1, 0, 1, 0, 0) + mono(v, 1, 0, 0, 1, 1, 0,
        0) + mono(v, 1, 0, 1, 0, 0, 1, 0) + mono(v, 1, 2, 1, 2, 0, 1, 1) - mono(v, 1, 2, 2, 1,
        1, 0, 1) - mono(v, 2, 1, 1, 2, 1, 0, 1) + mono(v, 2, 1, 2, 1, 0, 1, 1));
    let n40 = n18 * 1;
    lemma_associative_product_29(v, n18, 1);
    let n41 = n17 * n3;
    lemma_associative_product_30(v, n17, n3);
    let n42 = v.d * n41;
    lemma_associative_product_32(v, v.d, n41);
    let n43 = n40 - n42;
    assert(n43 == mono(v, 0, 0, 0, 0, 0, 0, 0) - mono(v, 0, 2, 1, 1, 1, 1, 1) - mono(v, 1, 1, 0, 2, 1, 1,
        1) - mono(v, 1, 1, 2, 0, 1, 1, 1) - mono(v, 2, 0, 1, 1, 1, 1, 1) - mono(v, 2, 2, 2, 2,
        0, 0, 2));
    let n44 = n40 + n42;
    assert(n44 == mono(v, 0, 0, 0, 0, 0, 0, 0) + mono(v, 0, 2, 1, 1, 1, 1, 1) + mono(v, 1, 1, 0, 2, 1, 1,
        1) + mono(v, 1, 1, 2, 0, 1, 1, 1) + mono(v, 2, 0, 1, 1, 1, 1, 1) - mono(v, 2, 2, 2, 2,
        0, 0, 2));
    let n45 = v.x1 * n31;
    lemma_associative_product_34(v, v.x1, n31);
    let n46 = v.y1 * n30;
    lemma_associative_product_36(v, v.y1, n30);
    let n47 = n45 + n46;
    assert(n47 == mono(v, 0, 1, 0, 1, 1, 0, 0) + mono(v, 0, 1, 1, 0, 0, 1, 0) - mono(v, 0, 1, 1, 2, 2, 1,
        1) - mono(v, 0, 1, 2, 1, 1, 2, 1) + mono(v, 1, 0, 0, 1, 0, 1, 0) + mono(v, 1, 0, 1, 0,
        1, 0, 0) + mono(v, 1, 0, 1, 2, 1, 2, 1) + mono(v, 1, 0, 2, 1, 2, 1, 1));
    let n48 = v.x1 * n30;
    lemma_associative_product_38(v, v.x1, n30);
    let n49 = v.y1 * n31;
    lemma_associative_product_40(v, v.y1, n31);
    let n50 = n48 + n49;
    assert(n50 == mono(v, 0, 1, 0, 1, 0, 1, 0) + mono(v, 0, 1, 1, 0, 1, 0, 0) + mono(v, 0, 1, 1, 2, 1, 2,
        1) + mono(v, 0, 1, 2, 1, 2, 1, 1) + mono(v, 1, 0, 0, 1, 1, 0, 0) + mono(v, 1, 0, 1, 0,
        0, 1, 0) - mono(v, 1, 0, 1, 2, 2, 1, 1) - mono(v, 1, 0, 2, 1, 1, 2, 1));
    let n51 = 1 * n33;
    lemma_associative_product_42(v, 1, n33);
    let n52 = n1 * n32;
    lemma_associative_product_44(v, n1, n32);
    let n53 = v.d * n52;
    lemma_associative_product_46(v, v.d, n52);
    let n54 = n51 - n53;
    assert(n54 == mono(v, 0, 0, 0, 0, 0, 0, 0) - mono(v, 0, 0, 2, 2, 2, 2, 2) - mono(v, 1, 1, 0, 2, 1, 1,
        1) - mono(v, 1, 1, 1, 1, 0, 2, 1) - mono(v, 1, 1, 1, 1, 2, 0, 1) - mono(v, 1, 1, 2, 0,
        1, 1, 1));
    let n55 = n51 + n53;
    assert(n55 == mono(v, 0, 0, 0, 0, 0, 0, 0) - mono(v, 0, 0, 2, 2, 2, 2, 2) + mono(v, 1, 1, 0, 2, 1, 1,
        1) + mono(v, 1, 1, 1, 1, 0, 2, 1) + mono(v, 1, 1, 1, 1, 2, 0, 1) + mono(v, 1, 1, 2, 0,
        1, 1, 1));
    let n56 = n39 * n54;
    lemma_associative_product_94(v, n39, n54);
    let n57 = n50 * n43;
    lemma_associative_product_98(v, n50, n43);
    let n58 = n56 - n57;
    assert(n58 == -mono(v, 0, 1, 1, 2, 1, 2, 1) - mono(v, 0, 1, 2, 1, 2, 1, 1) - mono(v, 0, 1, 2, 3, 2, 3,
        2) - mono(v, 0, 1, 3, 2, 3, 2, 2) + mono(v, 0, 3, 1, 2, 1, 2, 1) + mono(v, 0, 3, 2, 1,
        2, 1, 1) + mono(v, 0, 3, 2, 3, 2, 3, 2) + mono(v, 0, 3, 3, 2, 3, 2, 2) + mono(v, 1, 0,
        1, 2, 2, 1, 1) + mono(v, 1, 0, 2, 1, 1, 2, 1) - mono(v, 1, 0, 2, 3, 3, 2, 2) - mono(v,
        1, 0, 3, 2, 2, 3, 2) + mono(v, 1, 2, 1, 2, 0, 1, 1) - mono(v, 1, 2, 1, 2, 0, 3, 1) +
        mono(v, 1, 2, 1, 4, 2, 3, 2) - mono(v, 1, 2, 2, 1, 1, 0, 1) - mono(v, 1, 2, 2, 1, 3, 0,
        1) - mono(v, 1, 2, 3, 4, 2, 3, 3) + mono(v, 1, 2, 4, 1, 3, 2, 2) + mono(v, 1, 2, 4, 3,
        3, 2, 3) - mono(v, 2, 1, 1, 2, 1, 0, 1) - mono(v, 2, 1, 1, 2, 3, 0, 1) - mono(v, 2, 1,
        1, 4, 3, 2, 2) + mono(v, 2, 1, 2, 1, 0, 1, 1) - mono(v, 2, 1, 2, 1, 0, 3, 1) + mono(v,
        2, 1, 3, 4, 3, 2, 3) - mono(v, 2, 1, 4, 1, 2, 3, 2) - mono(v, 2, 1, 4, 3, 2, 3, 3) -
        mono(v, 2, 3, 1, 4, 1, 2, 2) + mono(v, 2, 3, 2, 3, 0, 1, 2) - mono(v, 2, 3, 2, 3, 0, 3,
        2) + mono(v, 2, 3, 3, 2, 1, 0, 2) + mono(v, 2, 3, 3, 2, 3, 0, 2) + mono(v, 2, 3, 3, 4,
        1, 2, 3) + mono(v, 2, 3, 4, 1, 2, 1, 2) + mono(v, 2, 3, 4, 3, 2, 1, 3) + mono(v, 3, 0,
        1, 2, 2, 1, 1) + mono(v, 3, 0, 2, 1, 1, 2, 1) - mono(v, 3, 0, 2, 3, 3, 2, 2) - mono(v,
        3, 0, 3, 2, 2, 3, 2) + mono(v, 3, 2, 1, 4, 2, 1, 2) + mono(v, 3, 2, 2, 3, 1, 0, 2) +
        mono(v, 3, 2, 2, 3, 3, 0, 2) + mono(v, 3, 2, 3, 2, 0, 1, 2) - mono(v, 3, 2, 3, 2, 0, 3,
        2) - mono(v, 3, 2, 3, 4, 2, 1, 3) - mono(v, 3, 2, 4, 1, 1, 2, 2) - mono(v, 3, 2, 4, 3,
        1, 2, 3));
    let n59 = v.x1 * v.x1;
    lemma_associative_product_55(v, v.x1, v.x1);
    let n60 = v.y1 * v.y1;
    lemma_associative_product_56(v, v.y1, v.y1);
    let n61 = n59 * n60;
    lemma_associative_product_57(v, n59, n60);
    let n62 = v.d * n61;
    lemma_associative_product_58(v, v.d, n61);
    let n63 = n60 - n59;
    assert(n63 == mono(v, 0, 2, 0, 0, 0, 0, 0) - mono(v, 2, 0, 0, 0, 0, 0, 0));
    let n64 = 1 + n62;
    assert(n64 == mono(v, 0, 0, 0, 0, 0, 0, 0) + mono(v, 2, 2, 0, 0, 0, 0, 1));
    let n65 = n63 - n64;
    assert(n65 == -mono(v, 0, 0, 0, 0, 0, 0, 0) + mono(v, 0, 2, 0, 0, 0, 0, 0) - mono(v, 2, 0, 0, 0, 0, 0,
        0) - mono(v, 2, 2, 0, 0, 0, 0, 1));
    let n66 = v.x2 * v.x2;
    lemma_associative_product_59(v, v.x2, v.x2);
    let n67 = v.y2 * v.y2;
    lemma_associative_product_60(v, v.y2, v.y2);
    let n68 = n66 * n67;
    lemma_associative_product_61(v, n66, n67);
    let n69 = v.d * n68;
    lemma_associative_product_62(v, v.d, n68);
    let n70 = n67 - n66;
    assert(n70 == mono(v, 0, 0, 0, 2, 0, 0, 0) - mono(v, 0, 0, 2, 0, 0, 0, 0));
    let n71 = 1 + n69;
    assert(n71 == mono(v, 0, 0, 0, 0, 0, 0, 0) + mono(v, 0, 0, 2, 2, 0, 0, 1));
    let n72 = n70 - n71;
    assert(n72 == -mono(v, 0, 0, 0, 0, 0, 0, 0) + mono(v, 0, 0, 0, 2, 0, 0, 0) - mono(v, 0, 0, 2, 0, 0, 0,
        0) - mono(v, 0, 0, 2, 2, 0, 0, 1));
    let n73 = v.x3 * v.x3;
    lemma_associative_product_63(v, v.x3, v.x3);
    let n74 = v.y3 * v.y3;
    lemma_associative_product_64(v, v.y3, v.y3);
    let n75 = n73 * n74;
    lemma_associative_product_65(v, n73, n74);
    let n76 = v.d * n75;
    lemma_associative_product_66(v, v.d, n75);
    let n77 = n74 - n73;
    assert(n77 == mono(v, 0, 0, 0, 0, 0, 2, 0) - mono(v, 0, 0, 0, 0, 2, 0, 0));
    let n78 = 1 + n76;
    assert(n78 == mono(v, 0, 0, 0, 0, 0, 0, 0) + mono(v, 0, 0, 0, 0, 2, 2, 1));
    let n79 = n77 - n78;
    assert(n79 == -mono(v, 0, 0, 0, 0, 0, 0, 0) + mono(v, 0, 0, 0, 0, 0, 2, 0) - mono(v, 0, 0, 0, 0, 2, 0,
        0) - mono(v, 0, 0, 0, 0, 2, 2, 1));
    let n80 = mono(v, 0, 1, 1, 4, 1, 2, 1) - mono(v, 0, 1, 2, 3, 0, 1, 1) + mono(v, 0, 1, 2, 3, 0, 3,
        1) - mono(v, 0, 1, 3, 2, 1, 0, 1) - mono(v, 0, 1, 3, 2, 3, 0, 1) - mono(v, 0, 1, 3, 4,
        1, 2, 2) - mono(v, 0, 1, 4, 1, 2, 1, 1) - mono(v, 0, 1, 4, 3, 2, 1, 2) - mono(v, 1, 0,
        1, 4, 2, 1, 1) - mono(v, 1, 0, 2, 3, 1, 0, 1) - mono(v, 1, 0, 2, 3, 3, 0, 1) - mono(v,
        1, 0, 3, 2, 0, 1, 1) + mono(v, 1, 0, 3, 2, 0, 3, 1) + mono(v, 1, 0, 3, 4, 2, 1, 2) +
        mono(v, 1, 0, 4, 1, 1, 2, 1) + mono(v, 1, 0, 4, 3, 1, 2, 2);
    let n81 = mono(v, 0, 1, 0, 1, 0, 1, 0) - mono(v, 0, 1, 0, 1, 0, 3, 0) + mono(v, 0, 1, 0, 1, 2, 1,
        0) + mono(v, 0, 1, 0, 1, 2, 3, 1) + mono(v, 0, 1, 1, 0, 1, 0, 0) - mono(v, 0, 1, 1, 0,
        1, 2, 0) + mono(v, 0, 1, 1, 0, 3, 0, 0) + mono(v, 0, 1, 1, 0, 3, 2, 1) + mono(v, 0, 1,
        1, 2, 1, 2, 1) + mono(v, 0, 1, 2, 1, 2, 1, 1) - mono(v, 0, 3, 0, 1, 0, 1, 0) + mono(v,
        0, 3, 0, 1, 0, 3, 0) - mono(v, 0, 3, 0, 1, 2, 1, 0) - mono(v, 0, 3, 0, 1, 2, 3, 1) -
        mono(v, 0, 3, 1, 0, 1, 0, 0) + mono(v, 0, 3, 1, 0, 1, 2, 0) - mono(v, 0, 3, 1, 0, 3, 0,
        0) - mono(v, 0, 3, 1, 0, 3, 2, 1) - mono(v, 0, 3, 1, 2, 1, 2, 1) - mono(v, 0, 3, 2, 1,
        2, 1, 1) + mono(v, 1, 0, 0, 1, 1, 0, 0) - mono(v, 1, 0, 0, 1, 1, 2, 0) + mono(v, 1, 0,
        0, 1, 3, 0, 0) + mono(v, 1, 0, 0, 1, 3, 2, 1) + mono(v, 1, 0, 1, 0, 0, 1, 0) - mono(v,
        1, 0, 1, 0, 0, 3, 0) + mono(v, 1, 0, 1, 0, 2, 1, 0) + mono(v, 1, 0, 1, 0, 2, 3, 1) -
        mono(v, 1, 0, 1, 2, 2, 1, 1) - mono(v, 1, 0, 2, 1, 1, 2, 1) - mono(v, 1, 2, 0, 1, 1, 0,
        0) + mono(v, 1, 2, 0, 1, 1, 2, 0) - mono(v, 1, 2, 0, 1, 3, 0, 0) - mono(v, 1, 2, 0, 1,
        3, 2, 1) - mono(v, 1, 2, 1, 0, 0, 1, 0) + mono(v, 1, 2, 1, 0, 0, 3, 0) - mono(v, 1, 2,
        1, 0, 2, 1, 0) - mono(v, 1, 2, 1, 0, 2, 3, 1) + mono(v, 1, 2, 1, 2, 2, 1, 1) + mono(v,
        1, 2, 1, 2, 2, 3, 2) + mono(v, 1, 2, 2, 1, 1, 2, 1) - mono(v, 1, 2, 2, 1, 3, 2, 2) +
        mono(v, 2, 1, 0, 1, 0, 1, 0) - mono(v, 2, 1, 0, 1, 0, 3, 0) + mono(v, 2, 1, 0, 1, 2, 1,
        0) + mono(v, 2, 1, 0, 1, 2, 3, 1) + mono(v, 2, 1, 1, 0, 1, 0, 0) - mono(v, 2, 1, 1, 0,
        1, 2, 0) + mono(v, 2, 1, 1, 0, 3, 0, 0) + mono(v, 2, 1, 1, 0, 3, 2, 1) + mono(v, 2, 1,
        1, 2, 1, 2, 1) - mono(v, 2, 1, 1, 2, 3, 2, 2) + mono(v, 2, 1, 2, 1, 2, 1, 1) + mono(v,
        2, 1, 2, 1, 2, 3, 2) + mono(v, 3, 0, 0, 1, 1, 0, 0) - mono(v, 3, 0, 0, 1, 1, 2, 0) +
        mono(v, 3, 0, 0, 1, 3, 0, 0) + mono(v, 3, 0, 0, 1, 3, 2, 1) + mono(v, 3, 0, 1, 0, 0, 1,
        0) - mono(v, 3, 0, 1, 0, 0, 3, 0) + mono(v, 3, 0, 1, 0, 2, 1, 0) + mono(v, 3, 0, 1, 0,
        2, 3, 1) - mono(v, 3, 0, 1, 2, 2, 1, 1) - mono(v, 3, 0, 2, 1, 1, 2, 1);
    let n82 = -mono(v, 0, 1, 0, 1, 0, 1, 0) + mono(v, 0, 1, 0, 3, 0, 1, 0) - mono(v, 0, 1, 1, 0, 1, 0,
        0) + mono(v, 0, 1, 1, 2, 1, 0, 0) - mono(v, 0, 1, 2, 1, 0, 1, 0) - mono(v, 0, 1, 3, 0,
        1, 0, 0) + mono(v, 0, 3, 0, 1, 0, 1, 0) - mono(v, 0, 3, 0, 3, 0, 1, 0) + mono(v, 0, 3,
        1, 0, 1, 0, 0) - mono(v, 0, 3, 1, 2, 1, 0, 0) + mono(v, 0, 3, 2, 1, 0, 1, 0) + mono(v,
        0, 3, 3, 0, 1, 0, 0) - mono(v, 1, 0, 0, 1, 1, 0, 0) + mono(v, 1, 0, 0, 3, 1, 0, 0) -
        mono(v, 1, 0, 1, 0, 0, 1, 0) + mono(v, 1, 0, 1, 2, 0, 1, 0) - mono(v, 1, 0, 2, 1, 1, 0,
        0) - mono(v, 1, 0, 3, 0, 0, 1, 0) + mono(v, 1, 2, 0, 1, 1, 0, 0) - mono(v, 1, 2, 0, 3,
        1, 0, 0) + mono(v, 1, 2, 1, 0, 0, 1, 0) - mono(v, 1, 2, 1, 2, 0, 1, 0) - mono(v, 1, 2,
        1, 2, 0, 1, 1) + mono(v, 1, 2, 2, 1, 1, 0, 0) + mono(v, 1, 2, 2, 1, 1, 0, 1) + mono(v,
        1, 2, 3, 0, 0, 1, 0) - mono(v, 2, 1, 0, 1, 0, 1, 0) + mono(v, 2, 1, 0, 3, 0, 1, 0) -
        mono(v, 2, 1, 1, 0, 1, 0, 0) + mono(v, 2, 1, 1, 2, 1, 0, 0) + mono(v, 2, 1, 1, 2, 1, 0,
        1) - mono(v, 2, 1, 2, 1, 0, 1, 0) - mono(v, 2, 1, 2, 1, 0, 1, 1) - mono(v, 2, 1, 3, 0,
        1, 0, 0) - mono(v, 3, 0, 0, 1, 1, 0, 0) + mono(v, 3, 0, 0, 3, 1, 0, 0) - mono(v, 3, 0,
        1, 0, 0, 1, 0) + mono(v, 3, 0, 1, 2, 0, 1, 0) - mono(v, 3, 0, 2, 1, 1, 0, 0) - mono(v,
        3, 0, 3, 0, 0, 1, 0);
    let n83 = n80 * n65;
    lemma_associative_product_102(v, n80, n65);
    let n84 = n81 * n72;
    lemma_associative_product_114(v, n81, n72);
    let n85 = n82 * n79;
    lemma_associative_product_122(v, n82, n79);
    let n86 = n83 + n84;
    assert(n86 == -mono(v, 0, 1, 0, 1, 0, 1, 0) + mono(v, 0, 1, 0, 1, 0, 3, 0) - mono(v, 0, 1, 0, 1, 2, 1,
        0) - mono(v, 0, 1, 0, 1, 2, 3, 1) + mono(v, 0, 1, 0, 3, 0, 1, 0) - mono(v, 0, 1, 0, 3,
        0, 3, 0) + mono(v, 0, 1, 0, 3, 2, 1, 0) + mono(v, 0, 1, 0, 3, 2, 3, 1) - mono(v, 0, 1,
        1, 0, 1, 0, 0) + mono(v, 0, 1, 1, 0, 1, 2, 0) - mono(v, 0, 1, 1, 0, 3, 0, 0) - mono(v,
        0, 1, 1, 0, 3, 2, 1) + mono(v, 0, 1, 1, 2, 1, 0, 0) - mono(v, 0, 1, 1, 2, 1, 2, 0) -
        mono(v, 0, 1, 1, 2, 1, 2, 1) + mono(v, 0, 1, 1, 2, 3, 0, 0) + mono(v, 0, 1, 1, 2, 3, 2,
        1) - mono(v, 0, 1, 2, 1, 0, 1, 0) + mono(v, 0, 1, 2, 1, 0, 3, 0) - mono(v, 0, 1, 2, 1,
        2, 1, 0) - mono(v, 0, 1, 2, 1, 2, 1, 1) - mono(v, 0, 1, 2, 1, 2, 3, 1) - mono(v, 0, 1,
        2, 3, 2, 3, 2) - mono(v, 0, 1, 3, 0, 1, 0, 0) + mono(v, 0, 1, 3, 0, 1, 2, 0) - mono(v,
        0, 1, 3, 0, 3, 0, 0) - mono(v, 0, 1, 3, 0, 3, 2, 1) - mono(v, 0, 1, 3, 2, 3, 2, 2) +
        mono(v, 0, 3, 0, 1, 0, 1, 0) - mono(v, 0, 3, 0, 1, 0, 3, 0) + mono(v, 0, 3, 0, 1, 2, 1,
        0) + mono(v, 0, 3, 0, 1, 2, 3, 1) - mono(v, 0, 3, 0, 3, 0, 1, 0) + mono(v, 0, 3, 0, 3,
        0, 3, 0) - mono(v, 0, 3, 0, 3, 2, 1, 0) - mono(v, 0, 3, 0, 3, 2, 3, 1) + mono(v, 0, 3,
        1, 0, 1, 0, 0) - mono(v, 0, 3, 1, 0, 1, 2, 0) + mono(v, 0, 3, 1, 0, 3, 0, 0) + mono(v,
        0, 3, 1, 0, 3, 2, 1) - mono(v, 0, 3, 1, 2, 1, 0, 0) + mono(v, 0, 3, 1, 2, 1, 2, 0) +
        mono(v, 0, 3, 1, 2, 1, 2, 1) - mono(v, 0, 3, 1, 2, 3, 0, 0) - mono(v, 0, 3, 1, 2, 3, 2,
        1) + mono(v, 0, 3, 2, 1, 0, 1, 0) - mono(v, 0, 3, 2, 1, 0, 3, 0) + mono(v, 0, 3, 2, 1,
        2, 1, 0) + mono(v, 0, 3, 2, 1, 2, 1, 1) + mono(v, 0, 3, 2, 1, 2, 3, 1) + mono(v, 0, 3,
        2, 3, 2, 3, 2) + mono(v, 0, 3, 3, 0, 1, 0, 0) - mono(v, 0, 3, 3, 0, 1, 2, 0) + mono(v,
        0, 3, 3, 0, 3, 0, 0) + mono(v, 0, 3, 3, 0, 3, 2, 1) + mono(v, 0, 3, 3, 2, 3, 2, 2) -
        mono(v, 1, 0, 0, 1, 1, 0, 0) + mono(v, 1, 0, 0, 1, 1, 2, 0) - mono(v, 1, 0, 0, 1, 3, 0,
        0) - mono(v, 1, 0, 0, 1, 3, 2, 1) + mono(v, 1, 0, 0, 3, 1, 0, 0) - mono(v, 1, 0, 0, 3,
        1, 2, 0) + mono(v, 1, 0, 0, 3, 3, 0, 0) + mono(v, 1, 0, 0, 3, 3, 2, 1) - mono(v, 1, 0,
        1, 0, 0, 1, 0) + mono(v, 1, 0, 1, 0, 0, 3, 0) - mono(v, 1, 0, 1, 0, 2, 1, 0) - mono(v,
        1, 0, 1, 0, 2, 3, 1) + mono(v, 1, 0, 1, 2, 0, 1, 0) - mono(v, 1, 0, 1, 2, 0, 3, 0) +
        mono(v, 1, 0, 1, 2, 2, 1, 0) + mono(v, 1, 0, 1, 2, 2, 1, 1) + mono(v, 1, 0, 1, 2, 2, 3,
        1) - mono(v, 1, 0, 2, 1, 1, 0, 0) + mono(v, 1, 0, 2, 1, 1, 2, 0) + mono(v, 1, 0, 2, 1,
        1, 2, 1) - mono(v, 1, 0, 2, 1, 3, 0, 0) - mono(v, 1, 0, 2, 1, 3, 2, 1) - mono(v, 1, 0,
        2, 3, 3, 2, 2) - mono(v, 1, 0, 3, 0, 0, 1, 0) + mono(v, 1, 0, 3, 0, 0, 3, 0) - mono(v,
        1, 0, 3, 0, 2, 1, 0) - mono(v, 1, 0, 3, 0, 2, 3, 1) - mono(v, 1, 0, 3, 2, 2, 3, 2) +
        mono(v, 1, 2, 0, 1, 1, 0, 0) - mono(v, 1, 2, 0, 1, 1, 2, 0) + mono(v, 1, 2, 0, 1, 3, 0,
        0) + mono(v, 1, 2, 0, 1, 3, 2, 1) - mono(v, 1, 2, 0, 3, 1, 0, 0) + mono(v, 1, 2, 0, 3,
        1, 2, 0) - mono(v, 1, 2, 0, 3, 3, 0, 0) - mono(v, 1, 2, 0, 3, 3, 2, 1) + mono(v, 1, 2,
        1, 0, 0, 1, 0) - mono(v, 1, 2, 1, 0, 0, 3, 0) + mono(v, 1, 2, 1, 0, 2, 1, 0) + mono(v,
        1, 2, 1, 0, 2, 3, 1) - mono(v, 1, 2, 1, 2, 0, 1, 0) + mono(v, 1, 2, 1, 2, 0, 3, 0) -
        mono(v, 1, 2, 1, 2, 2, 1, 0) - mono(v, 1, 2, 1, 2, 2, 1, 1) - mono(v, 1, 2, 1, 2, 2, 3,
        1) - mono(v, 1, 2, 1, 2, 2, 3, 2) + mono(v, 1, 2, 1, 4, 2, 3, 2) + mono(v, 1, 2, 2, 1,
        1, 0, 0) - mono(v, 1, 2, 2, 1, 1, 2, 0) - mono(v, 1, 2, 2, 1, 1, 2, 1) + mono(v, 1, 2,
        2, 1, 3, 0, 0) + mono(v, 1, 2, 2, 1, 3, 2, 1) + mono(v, 1, 2, 2, 1, 3, 2, 2) + mono(v,
        1, 2, 3, 0, 0, 1, 0) - mono(v, 1, 2, 3, 0, 0, 3, 0) + mono(v, 1, 2, 3, 0, 2, 1, 0) +
        mono(v, 1, 2, 3, 0, 2, 3, 1) - mono(v, 1, 2, 3, 4, 2, 3, 3) + mono(v, 1, 2, 4, 1, 3, 2,
        2) + mono(v, 1, 2, 4, 3, 3, 2, 3) - mono(v, 2, 1, 0, 1, 0, 1, 0) + mono(v, 2, 1, 0, 1,
        0, 3, 0) - mono(v, 2, 1, 0, 1, 2, 1, 0) - mono(v, 2, 1, 0, 1, 2, 3, 1) + mono(v, 2, 1,
        0, 3, 0, 1, 0) - mono(v, 2, 1, 0, 3, 0, 3, 0) + mono(v, 2, 1, 0, 3, 2, 1, 0) + mono(v,
        2, 1, 0, 3, 2, 3, 1) - mono(v, 2, 1, 1, 0, 1, 0, 0) + mono(v, 2, 1, 1, 0, 1, 2, 0) -
        mono(v, 2, 1, 1, 0, 3, 0, 0) - mono(v, 2, 1, 1, 0, 3, 2, 1) + mono(v, 2, 1, 1, 2, 1, 0,
        0) - mono(v, 2, 1, 1, 2, 1, 2, 0) - mono(v, 2, 1, 1, 2, 1, 2, 1) + mono(v, 2, 1, 1, 2,
        3, 0, 0) + mono(v, 2, 1, 1, 2, 3, 2, 1) + mono(v, 2, 1, 1, 2, 3, 2, 2) - mono(v, 2, 1,
        1, 4, 3, 2, 2) - mono(v, 2, 1, 2, 1, 0, 1, 0) + mono(v, 2, 1, 2, 1, 0, 3, 0) - mono(v,
        2, 1, 2, 1, 2, 1, 0) - mono(v, 2, 1, 2, 1, 2, 1, 1) - mono(v, 2, 1, 2, 1, 2, 3, 1) -
        mono(v, 2, 1, 2, 1, 2, 3, 2) - mono(v, 2, 1, 3, 0, 1, 0, 0) + mono(v, 2, 1, 3, 0, 1, 2,
        0) - mono(v, 2, 1, 3, 0, 3, 0, 0) - mono(v, 2, 1, 3, 0, 3, 2, 1) + mono(v, 2, 1, 3, 4,
        3, 2, 3) - mono(v, 2, 1, 4, 1, 2, 3, 2) - mono(v, 2, 1, 4, 3, 2, 3, 3) - mono(v, 2, 3,
        1, 4, 1, 2, 2) + mono(v, 2, 3, 2, 3, 0, 1, 2) - mono(v, 2, 3, 2, 3, 0, 3, 2) + mono(v,
        2, 3, 3, 2, 1, 0, 2) + mono(v, 2, 3, 3, 2, 3, 0, 2) + mono(v, 2, 3, 3, 4, 1, 2, 3) +
        mono(v, 2, 3, 4, 1, 2, 1, 2) + mono(v, 2, 3, 4, 3, 2, 1, 3) - mono(v, 3, 0, 0, 1, 1, 0,
        0) + mono(v, 3, 0, 0, 1, 1, 2, 0) - mono(v, 3, 0, 0, 1, 3, 0, 0) - mono(v, 3, 0, 0, 1,
        3, 2, 1) + mono(v, 3, 0, 0, 3, 1, 0, 0) - mono(v, 3, 0, 0, 3, 1, 2, 0) + mono(v, 3, 0,
        0, 3, 3, 0, 0) + mono(v, 3, 0, 0, 3, 3, 2, 1) - mono(v, 3, 0, 1, 0, 0, 1, 0) + mono(v,
        3, 0, 1, 0, 0, 3, 0) - mono(v, 3, 0, 1, 0, 2, 1, 0) - mono(v, 3, 0, 1, 0, 2, 3, 1) +
        mono(v, 3, 0, 1, 2, 0, 1, 0) - mono(v, 3, 0, 1, 2, 0, 3, 0) + mono(v, 3, 0, 1, 2, 2, 1,
        0) + mono(v, 3, 0, 1, 2, 2, 1, 1) + mono(v, 3, 0, 1, 2, 2, 3, 1) - mono(v, 3, 0, 2, 1,
        1, 0, 0) + mono(v, 3, 0, 2, 1, 1, 2, 0) + mono(v, 3, 0, 2, 1, 1, 2, 1) - mono(v, 3, 0,
        2, 1, 3, 0, 0) - mono(v, 3, 0, 2, 1, 3, 2, 1) - mono(v, 3, 0, 2, 3, 3, 2, 2) - mono(v,
        3, 0, 3, 0, 0, 1, 0) + mono(v, 3, 0, 3, 0, 0, 3, 0) - mono(v, 3, 0, 3, 0, 2, 1, 0) -
        mono(v, 3, 0, 3, 0, 2, 3, 1) - mono(v, 3, 0, 3, 2, 2, 3, 2) + mono(v, 3, 2, 1, 4, 2, 1,
        2) + mono(v, 3, 2, 2, 3, 1, 0, 2) + mono(v, 3, 2, 2, 3, 3, 0, 2) + mono(v, 3, 2, 3, 2,
        0, 1, 2) - mono(v, 3, 2, 3, 2, 0, 3, 2) - mono(v, 3, 2, 3, 4, 2, 1, 3) - mono(v, 3, 2,
        4, 1, 1, 2, 2) - mono(v, 3, 2, 4, 3, 1, 2, 3));
    let n87 = n86 + n85;
    assert(n87 == -mono(v, 0, 1, 1, 2, 1, 2, 1) - mono(v, 0, 1, 2, 1, 2, 1, 1) - mono(v, 0, 1, 2, 3, 2, 3,
        2) - mono(v, 0, 1, 3, 2, 3, 2, 2) + mono(v, 0, 3, 1, 2, 1, 2, 1) + mono(v, 0, 3, 2, 1,
        2, 1, 1) + mono(v, 0, 3, 2, 3, 2, 3, 2) + mono(v, 0, 3, 3, 2, 3, 2, 2) + mono(v, 1, 0,
        1, 2, 2, 1, 1) + mono(v, 1, 0, 2, 1, 1, 2, 1) - mono(v, 1, 0, 2, 3, 3, 2, 2) - mono(v,
        1, 0, 3, 2, 2, 3, 2) + mono(v, 1, 2, 1, 2, 0, 1, 1) - mono(v, 1, 2, 1, 2, 0, 3, 1) +
        mono(v, 1, 2, 1, 4, 2, 3, 2) - mono(v, 1, 2, 2, 1, 1, 0, 1) - mono(v, 1, 2, 2, 1, 3, 0,
        1) - mono(v, 1, 2, 3, 4, 2, 3, 3) + mono(v, 1, 2, 4, 1, 3, 2, 2) + mono(v, 1, 2, 4, 3,
        3, 2, 3) - mono(v, 2, 1, 1, 2, 1, 0, 1) - mono(v, 2, 1, 1, 2, 3, 0, 1) - mono(v, 2, 1,
        1, 4, 3, 2, 2) + mono(v, 2, 1, 2, 1, 0, 1, 1) - mono(v, 2, 1, 2, 1, 0, 3, 1) + mono(v,
        2, 1, 3, 4, 3, 2, 3) - mono(v, 2, 1, 4, 1, 2, 3, 2) - mono(v, 2, 1, 4, 3, 2, 3, 3) -
        mono(v, 2, 3, 1, 4, 1, 2, 2) + mono(v, 2, 3, 2, 3, 0, 1, 2) - mono(v, 2, 3, 2, 3, 0, 3,
        2) + mono(v, 2, 3, 3, 2, 1, 0, 2) + mono(v, 2, 3, 3, 2, 3, 0, 2) + mono(v, 2, 3, 3, 4,
        1, 2, 3) + mono(v, 2, 3, 4, 1, 2, 1, 2) + mono(v, 2, 3, 4, 3, 2, 1, 3) + mono(v, 3, 0,
        1, 2, 2, 1, 1) + mono(v, 3, 0, 2, 1, 1, 2, 1) - mono(v, 3, 0, 2, 3, 3, 2, 2) - mono(v,
        3, 0, 3, 2, 2, 3, 2) + mono(v, 3, 2, 1, 4, 2, 1, 2) + mono(v, 3, 2, 2, 3, 1, 0, 2) +
        mono(v, 3, 2, 2, 3, 3, 0, 2) + mono(v, 3, 2, 3, 2, 0, 1, 2) - mono(v, 3, 2, 3, 2, 0, 3,
        2) - mono(v, 3, 2, 3, 4, 2, 1, 3) - mono(v, 3, 2, 4, 1, 1, 2, 2) - mono(v, 3, 2, 4, 3,
        1, 2, 3));
    assert(n58 == n87);
    (n80, n81, n82)
}

} // verus!
