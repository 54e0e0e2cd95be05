//! The algebraic laws of the library, proved for all inputs.

use vstd::prelude::*;
use crate::fixed::{ONE, ONE_SQ, tdiv, lemma_tdiv_mul_exact, lemma_tdiv_error};
use vstd::arithmetic::mul::{
    lemma_mul_is_distributive_add, lemma_mul_is_distributive_add_other_way,
    lemma_mul_is_associative,
};
use crate::model::{
    Vec3Model, Mat4Model, dot4_model, ident_model, translate_model, scale_model, prod_exact,
    prod_fixed, point_fixed, dir_fixed, rotate_model, mag,
};

verus! {

/// The identity matrix is neutral for the fixed-point product on both
/// sides: `I * m == m == m * I`, exactly, for every matrix `m`.
pub proof fn lemma_identity_is_neutral(m: Mat4Model)
    ensures
        prod_fixed(ident_model(), m) == m,
        prod_fixed(m, ident_model()) == m,
{
    lemma_tdiv_mul_exact(m.e00, ONE as int);
    lemma_tdiv_mul_exact(m.e01, ONE as int);
    lemma_tdiv_mul_exact(m.e02, ONE as int);
    lemma_tdiv_mul_exact(m.e03, ONE as int);
    lemma_tdiv_mul_exact(m.e10, ONE as int);
    lemma_tdiv_mul_exact(m.e11, ONE as int);
    lemma_tdiv_mul_exact(m.e12, ONE as int);
    lemma_tdiv_mul_exact(m.e13, ONE as int);
    lemma_tdiv_mul_exact(m.e20, ONE as int);
    lemma_tdiv_mul_exact(m.e21, ONE as int);
    lemma_tdiv_mul_exact(m.e22, ONE as int);
    lemma_tdiv_mul_exact(m.e23, ONE as int);
    lemma_tdiv_mul_exact(m.e30, ONE as int);
    lemma_tdiv_mul_exact(m.e31, ONE as int);
    lemma_tdiv_mul_exact(m.e32, ONE as int);
    lemma_tdiv_mul_exact(m.e33, ONE as int);
}

/// Scaling by one in every direction is the identity, exactly.
pub proof fn lemma_scale_unit_is_identity()
    ensures
        scale_model(Vec3Model { x: ONE as int, y: ONE as int, z: ONE as int }) == ident_model(),
{
}

/// Associativity of one dot-product entry of a triple product: summing
/// over the middle index first on the left or on the right gives the
/// same value.
proof fn lemma_dot4_assoc(
    a0: int,
    a1: int,
    a2: int,
    a3: int,
    b00: int,
    b01: int,
    b02: int,
    b03: int,
    b10: int,
    b11: int,
    b12: int,
    b13: int,
    b20: int,
    b21: int,
    b22: int,
    b23: int,
    b30: int,
    b31: int,
    b32: int,
    b33: int,
    c0: int,
    c1: int,
    c2: int,
    c3: int,
)
    ensures
        dot4_model(
            dot4_model(a0, a1, a2, a3, b00, b10, b20, b30),
            dot4_model(a0, a1, a2, a3, b01, b11, b21, b31),
            dot4_model(a0, a1, a2, a3, b02, b12, b22, b32),
            dot4_model(a0, a1, a2, a3, b03, b13, b23, b33),
            c0,
            c1,
            c2,
            c3,
        ) == dot4_model(
            a0,
            a1,
            a2,
            a3,
            dot4_model(b00, b01, b02, b03, c0, c1, c2, c3),
            dot4_model(b10, b11, b12, b13, c0, c1, c2, c3),
            dot4_model(b20, b21, b22, b23, c0, c1, c2, c3),
            dot4_model(b30, b31, b32, b33, c0, c1, c2, c3),
        ),
{
    lemma_mul_is_distributive_add_other_way(c0, a0 * b00 + a1 * b10 + a2 * b20, a3 * b30);
    lemma_mul_is_distributive_add_other_way(c0, a0 * b00 + a1 * b10, a2 * b20);
    lemma_mul_is_distributive_add_other_way(c0, a0 * b00, a1 * b10);
    lemma_mul_is_associative(a0, b00, c0);
    lemma_mul_is_associative(a1, b10, c0);
    lemma_mul_is_associative(a2, b20, c0);
    lemma_mul_is_associative(a3, b30, c0);
    lemma_mul_is_distributive_add_other_way(c1, a0 * b01 + a1 * b11 + a2 * b21, a3 * b31);
    lemma_mul_is_distributive_add_other_way(c1, a0 * b01 + a1 * b11, a2 * b21);
    lemma_mul_is_distributive_add_other_way(c1, a0 * b01, a1 * b11);
    lemma_mul_is_associative(a0, b01, c1);
    lemma_mul_is_associative(a1, b11, c1);
    lemma_mul_is_associative(a2, b21, c1);
    lemma_mul_is_associative(a3, b31, c1);
    lemma_mul_is_distributive_add_other_way(c2, a0 * b02 + a1 * b12 + a2 * b22, a3 * b32);
    lemma_mul_is_distributive_add_other_way(c2, a0 * b02 + a1 * b12, a2 * b22);
    lemma_mul_is_distributive_add_other_way(c2, a0 * b02, a1 * b12);
    lemma_mul_is_associative(a0, b02, c2);
    lemma_mul_is_associative(a1, b12, c2);
    lemma_mul_is_associative(a2, b22, c2);
    lemma_mul_is_associative(a3, b32, c2);
    lemma_mul_is_distributive_add_other_way(c3, a0 * b03 + a1 * b13 + a2 * b23, a3 * b33);
    lemma_mul_is_distributive_add_other_way(c3, a0 * b03 + a1 * b13, a2 * b23);
    lemma_mul_is_distributive_add_other_way(c3, a0 * b03, a1 * b13);
    lemma_mul_is_associative(a0, b03, c3);
    lemma_mul_is_associative(a1, b13, c3);
    lemma_mul_is_associative(a2, b23, c3);
    lemma_mul_is_associative(a3, b33, c3);
    lemma_mul_is_distributive_add(a0, b00 * c0 + b01 * c1 + b02 * c2, b03 * c3);
    lemma_mul_is_distributive_add(a0, b00 * c0 + b01 * c1, b02 * c2);
    lemma_mul_is_distributive_add(a0, b00 * c0, b01 * c1);
    lemma_mul_is_distributive_add(a1, b10 * c0 + b11 * c1 + b12 * c2, b13 * c3);
    lemma_mul_is_distributive_add(a1, b10 * c0 + b11 * c1, b12 * c2);
    lemma_mul_is_distributive_add(a1, b10 * c0, b11 * c1);
    lemma_mul_is_distributive_add(a2, b20 * c0 + b21 * c1 + b22 * c2, b23 * c3);
    lemma_mul_is_distributive_add(a2, b20 * c0 + b21 * c1, b22 * c2);
    lemma_mul_is_distributive_add(a2, b20 * c0, b21 * c1);
    lemma_mul_is_distributive_add(a3, b30 * c0 + b31 * c1 + b32 * c2, b33 * c3);
    lemma_mul_is_distributive_add(a3, b30 * c0 + b31 * c1, b32 * c2);
    lemma_mul_is_distributive_add(a3, b30 * c0, b31 * c1);
}

/// The exact matrix product is associative: `(a b) c == a (b c)` with no
/// error at all before rescaling. [`lemma_prod_fixed_rounding`] bounds
/// the rescaling error of the computed product by one quantum per
/// entry, and [`lemma_prod_fixed_assoc_bound`] combines the two into a
/// quantitative associativity bound for the computed product itself.
pub proof fn lemma_prod_exact_assoc(a: Mat4Model, b: Mat4Model, c: Mat4Model)
    ensures
        prod_exact(prod_exact(a, b), c) == prod_exact(a, prod_exact(b, c)),
{
    lemma_dot4_assoc(
        a.e00, a.e01, a.e02, a.e03,
        b.e00, b.e01, b.e02, b.e03,
        b.e10, b.e11, b.e12, b.e13,
        b.e20, b.e21, b.e22, b.e23,
        b.e30, b.e31, b.e32, b.e33,
        c.e00, c.e10, c.e20, c.e30,
    );
    lemma_dot4_assoc(
        a.e00, a.e01, a.e02, a.e03,
        b.e00, b.e01, b.e02, b.e03,
        b.e10, b.e11, b.e12, b.e13,
        b.e20, b.e21, b.e22, b.e23,
        b.e30, b.e31, b.e32, b.e33,
        c.e01, c.e11, c.e21, c.e31,
    );
    lemma_dot4_assoc(
        a.e00, a.e01, a.e02, a.e03,
        b.e00, b.e01, b.e02, b.e03,
        b.e10, b.e11, b.e12, b.e13,
        b.e20, b.e21, b.e22, b.e23,
        b.e30, b.e31, b.e32, b.e33,
        c.e02, c.e12, c.e22, c.e32,
    );
    lemma_dot4_assoc(
        a.e00, a.e01, a.e02, a.e03,
        b.e00, b.e01, b.e02, b.e03,
        b.e10, b.e11, b.e12, b.e13,
        b.e20, b.e21, b.e22, b.e23,
        b.e30, b.e31, b.e32, b.e33,
        c.e03, c.e13, c.e23, c.e33,
    );
    lemma_dot4_assoc(
        a.e10, a.e11, a.e12, a.e13,
        b.e00, b.e01, b.e02, b.e03,
        b.e10, b.e11, b.e12, b.e13,
        b.e20, b.e21, b.e22, b.e23,
        b.e30, b.e31, b.e32, b.e33,
        c.e00, c.e10, c.e20, c.e30,
    );
    lemma_dot4_assoc(
        a.e10, a.e11, a.e12, a.e13,
        b.e00, b.e01, b.e02, b.e03,
        b.e10, b.e11, b.e12, b.e13,
        b.e20, b.e21, b.e22, b.e23,
        b.e30, b.e31, b.e32, b.e33,
        c.e01, c.e11, c.e21, c.e31,
    );
    lemma_dot4_assoc(
        a.e10, a.e11, a.e12, a.e13,
        b.e00, b.e01, b.e02, b.e03,
        b.e10, b.e11, b.e12, b.e13,
        b.e20, b.e21, b.e22, b.e23,
        b.e30, b.e31, b.e32, b.e33,
        c.e02, c.e12, c.e22, c.e32,
    );
    lemma_dot4_assoc(
        a.e10, a.e11, a.e12, a.e13,
        b.e00, b.e01, b.e02, b.e03,
        b.e10, b.e11, b.e12, b.e13,
        b.e20, b.e21, b.e22, b.e23,
        b.e30, b.e31, b.e32, b.e33,
        c.e03, c.e13, c.e23, c.e33,
    );
    lemma_dot4_assoc(
        a.e20, a.e21, a.e22, a.e23,
        b.e00, b.e01, b.e02, b.e03,
        b.e10, b.e11, b.e12, b.e13,
        b.e20, b.e21, b.e22, b.e23,
        b.e30, b.e31, b.e32, b.e33,
        c.e00, c.e10, c.e20, c.e30,
    );
    lemma_dot4_assoc(
        a.e20, a.e21, a.e22, a.e23,
        b.e00, b.e01, b.e02, b.e03,
        b.e10, b.e11, b.e12, b.e13,
        b.e20, b.e21, b.e22, b.e23,
        b.e30, b.e31, b.e32, b.e33,
        c.e01, c.e11, c.e21, c.e31,
    );
    lemma_dot4_assoc(
        a.e20, a.e21, a.e22, a.e23,
        b.e00, b.e01, b.e02, b.e03,
        b.e10, b.e11, b.e12, b.e13,
        b.e20, b.e21, b.e22, b.e23,
        b.e30, b.e31, b.e32, b.e33,
        c.e02, c.e12, c.e22, c.e32,
    );
    lemma_dot4_assoc(
        a.e20, a.e21, a.e22, a.e23,
        b.e00, b.e01, b.e02, b.e03,
        b.e10, b.e11, b.e12, b.e13,
        b.e20, b.e21, b.e22, b.e23,
        b.e30, b.e31, b.e32, b.e33,
        c.e03, c.e13, c.e23, c.e33,
    );
    lemma_dot4_assoc(
        a.e30, a.e31, a.e32, a.e33,
        b.e00, b.e01, b.e02, b.e03,
        b.e10, b.e11, b.e12, b.e13,
        b.e20, b.e21, b.e22, b.e23,
        b.e30, b.e31, b.e32, b.e33,
        c.e00, c.e10, c.e20, c.e30,
    );
    lemma_dot4_assoc(
        a.e30, a.e31, a.e32, a.e33,
        b.e00, b.e01, b.e02, b.e03,
        b.e10, b.e11, b.e12, b.e13,
        b.e20, b.e21, b.e22, b.e23,
        b.e30, b.e31, b.e32, b.e33,
        c.e01, c.e11, c.e21, c.e31,
    );
    lemma_dot4_assoc(
        a.e30, a.e31, a.e32, a.e33,
        b.e00, b.e01, b.e02, b.e03,
        b.e10, b.e11, b.e12, b.e13,
        b.e20, b.e21, b.e22, b.e23,
        b.e30, b.e31, b.e32, b.e33,
        c.e02, c.e12, c.e22, c.e32,
    );
    lemma_dot4_assoc(
        a.e30, a.e31, a.e32, a.e33,
        b.e00, b.e01, b.e02, b.e03,
        b.e10, b.e11, b.e12, b.e13,
        b.e20, b.e21, b.e22, b.e23,
        b.e30, b.e31, b.e32, b.e33,
        c.e03, c.e13, c.e23, c.e33,
    );
}

/// Entrywise closeness of a rescaled matrix to an exact one: every entry
/// of `rounded`, scaled back up by `ONE`, is within `ONE - 1` of the
/// matching entry of `exact`.
pub open spec fn rounding_within_one(exact: Mat4Model, rounded: Mat4Model) -> bool {
    &&& mag(ONE * rounded.e00 - exact.e00) <= ONE - 1
    &&& mag(ONE * rounded.e01 - exact.e01) <= ONE - 1
    &&& mag(ONE * rounded.e02 - exact.e02) <= ONE - 1
    &&& mag(ONE * rounded.e03 - exact.e03) <= ONE - 1
    &&& mag(ONE * rounded.e10 - exact.e10) <= ONE - 1
    &&& mag(ONE * rounded.e11 - exact.e11) <= ONE - 1
    &&& mag(ONE * rounded.e12 - exact.e12) <= ONE - 1
    &&& mag(ONE * rounded.e13 - exact.e13) <= ONE - 1
    &&& mag(ONE * rounded.e20 - exact.e20) <= ONE - 1
    &&& mag(ONE * rounded.e21 - exact.e21) <= ONE - 1
    &&& mag(ONE * rounded.e22 - exact.e22) <= ONE - 1
    &&& mag(ONE * rounded.e23 - exact.e23) <= ONE - 1
    &&& mag(ONE * rounded.e30 - exact.e30) <= ONE - 1
    &&& mag(ONE * rounded.e31 - exact.e31) <= ONE - 1
    &&& mag(ONE * rounded.e32 - exact.e32) <= ONE - 1
    &&& mag(ONE * rounded.e33 - exact.e33) <= ONE - 1
}

/// The computed product differs from the exact product only by the
/// final rescaling: each entry by less than one fixed-point quantum.
pub proof fn lemma_prod_fixed_rounding(a: Mat4Model, b: Mat4Model)
    ensures
        rounding_within_one(prod_exact(a, b), prod_fixed(a, b)),
{
    let e = prod_exact(a, b);
    lemma_tdiv_error(e.e00, ONE as int);
    lemma_tdiv_error(e.e01, ONE as int);
    lemma_tdiv_error(e.e02, ONE as int);
    lemma_tdiv_error(e.e03, ONE as int);
    lemma_tdiv_error(e.e10, ONE as int);
    lemma_tdiv_error(e.e11, ONE as int);
    lemma_tdiv_error(e.e12, ONE as int);
    lemma_tdiv_error(e.e13, ONE as int);
    lemma_tdiv_error(e.e20, ONE as int);
    lemma_tdiv_error(e.e21, ONE as int);
    lemma_tdiv_error(e.e22, ONE as int);
    lemma_tdiv_error(e.e23, ONE as int);
    lemma_tdiv_error(e.e30, ONE as int);
    lemma_tdiv_error(e.e31, ONE as int);
    lemma_tdiv_error(e.e32, ONE as int);
    lemma_tdiv_error(e.e33, ONE as int);
}

/// Translation moves every point by exactly its offset:
/// `point_fixed(translate(t), p) == p + t`, with no rounding at all.
pub proof fn lemma_translate_moves_point(t: Vec3Model, p: Vec3Model)
    ensures
        point_fixed(translate_model(t), p) == (Vec3Model {
            x: p.x + t.x,
            y: p.y + t.y,
            z: p.z + t.z,
        }),
{
    lemma_tdiv_mul_exact(p.x + t.x, ONE as int);
    lemma_tdiv_mul_exact(p.y + t.y, ONE as int);
    lemma_tdiv_mul_exact(p.z + t.z, ONE as int);
}

/// A direction passes through a translation untouched: the direction
/// transform reads only the upper 3x3 block, and a translation's block
/// is the identity.
pub proof fn lemma_translate_ignores_direction(t: Vec3Model, v: Vec3Model)
    ensures
        dir_fixed(translate_model(t), v) == v,
{
    lemma_tdiv_mul_exact(v.x, ONE as int);
    lemma_tdiv_mul_exact(v.y, ONE as int);
    lemma_tdiv_mul_exact(v.z, ONE as int);
}

/// An angle whose cosine is exactly one and whose sine is exactly zero
/// rotates nothing: the resulting matrix is the identity for every
/// direction, canonical or not, normalized or not. By
/// [`crate::trig::lemma_sin_cos_cardinal`] this covers `Deg(0)` and
/// `Deg(FULL_TURN)`, so a full turn about any accepted axis is exactly
/// the identity transform.
pub proof fn lemma_no_rotation_is_identity(d: Vec3Model)
    ensures
        rotate_model(ONE as int, 0, d) == ident_model(),
{
    assert(tdiv(0, crate::fixed::ONE_SQ as int) == 0);
    assert(tdiv(0, ONE as int) == 0);
}

/// All entries of a matrix bounded by `bound` in magnitude.
pub open spec fn mat_entries_bounded(x: Mat4Model, bound: int) -> bool {
    &&& mag(x.e00) <= bound
    &&& mag(x.e01) <= bound
    &&& mag(x.e02) <= bound
    &&& mag(x.e03) <= bound
    &&& mag(x.e10) <= bound
    &&& mag(x.e11) <= bound
    &&& mag(x.e12) <= bound
    &&& mag(x.e13) <= bound
    &&& mag(x.e20) <= bound
    &&& mag(x.e21) <= bound
    &&& mag(x.e22) <= bound
    &&& mag(x.e23) <= bound
    &&& mag(x.e30) <= bound
    &&& mag(x.e31) <= bound
    &&& mag(x.e32) <= bound
    &&& mag(x.e33) <= bound
}

/// Entrywise closeness of two matrices: each pair of entries, scaled up
/// by `ONE_SQ`, differs by at most `scaled_gap`.
pub open spec fn entries_close(x: Mat4Model, y: Mat4Model, scaled_gap: int) -> bool {
    &&& ONE_SQ * mag(x.e00 - y.e00) <= scaled_gap
    &&& ONE_SQ * mag(x.e01 - y.e01) <= scaled_gap
    &&& ONE_SQ * mag(x.e02 - y.e02) <= scaled_gap
    &&& ONE_SQ * mag(x.e03 - y.e03) <= scaled_gap
    &&& ONE_SQ * mag(x.e10 - y.e10) <= scaled_gap
    &&& ONE_SQ * mag(x.e11 - y.e11) <= scaled_gap
    &&& ONE_SQ * mag(x.e12 - y.e12) <= scaled_gap
    &&& ONE_SQ * mag(x.e13 - y.e13) <= scaled_gap
    &&& ONE_SQ * mag(x.e20 - y.e20) <= scaled_gap
    &&& ONE_SQ * mag(x.e21 - y.e21) <= scaled_gap
    &&& ONE_SQ * mag(x.e22 - y.e22) <= scaled_gap
    &&& ONE_SQ * mag(x.e23 - y.e23) <= scaled_gap
    &&& ONE_SQ * mag(x.e30 - y.e30) <= scaled_gap
    &&& ONE_SQ * mag(x.e31 - y.e31) <= scaled_gap
    &&& ONE_SQ * mag(x.e32 - y.e32) <= scaled_gap
    &&& ONE_SQ * mag(x.e33 - y.e33) <= scaled_gap
}

/// The error of a dot product whose left factors were rounded: if each
/// `e_k` is within `ONE - 1` of `ONE * ab_k` and each `c_k` is bounded
/// by `m`, the rounded dot, scaled up, is within `4 (ONE - 1) m`, that
/// is `39996 m`, of the exact one.
proof fn lemma_dot_left_err(
    ab0: int,
    ab1: int,
    ab2: int,
    ab3: int,
    e0: int,
    e1: int,
    e2: int,
    e3: int,
    c0: int,
    c1: int,
    c2: int,
    c3: int,
    m: int,
)
    requires
        -(ONE - 1) <= e0 - ONE * ab0 <= ONE - 1,
        -(ONE - 1) <= e1 - ONE * ab1 <= ONE - 1,
        -(ONE - 1) <= e2 - ONE * ab2 <= ONE - 1,
        -(ONE - 1) <= e3 - ONE * ab3 <= ONE - 1,
        -m <= c0 <= m,
        -m <= c1 <= m,
        -m <= c2 <= m,
        -m <= c3 <= m,
        0 <= m,
    ensures
        -(39996 * m) <= dot4_model(e0, e1, e2, e3, c0, c1, c2, c3) - ONE * dot4_model(
            ab0,
            ab1,
            ab2,
            ab3,
            c0,
            c1,
            c2,
            c3,
        ) <= 39996 * m,
{
    assert(-(9999 * m) <= e0 * c0 - 10000 * (ab0 * c0) <= 9999 * m) by (nonlinear_arith)
        requires
            -9999 <= e0 - 10000 * ab0 <= 9999,
            -m <= c0 <= m,
            0 <= m,
    ;
    assert(-(9999 * m) <= e1 * c1 - 10000 * (ab1 * c1) <= 9999 * m) by (nonlinear_arith)
        requires
            -9999 <= e1 - 10000 * ab1 <= 9999,
            -m <= c1 <= m,
            0 <= m,
    ;
    assert(-(9999 * m) <= e2 * c2 - 10000 * (ab2 * c2) <= 9999 * m) by (nonlinear_arith)
        requires
            -9999 <= e2 - 10000 * ab2 <= 9999,
            -m <= c2 <= m,
            0 <= m,
    ;
    assert(-(9999 * m) <= e3 * c3 - 10000 * (ab3 * c3) <= 9999 * m) by (nonlinear_arith)
        requires
            -9999 <= e3 - 10000 * ab3 <= 9999,
            -m <= c3 <= m,
            0 <= m,
    ;
}

/// The error of a dot product whose right factors were rounded: if each
/// `e_k` is within `ONE - 1` of `ONE * r_k` and each `a_k` is bounded
/// by `m`, the rounded dot, scaled up, is within `4 (ONE - 1) m`, that
/// is `39996 m`, of the exact one.
proof fn lemma_dot_right_err(
    a0: int,
    a1: int,
    a2: int,
    a3: int,
    r0: int,
    r1: int,
    r2: int,
    r3: int,
    e0: int,
    e1: int,
    e2: int,
    e3: int,
    m: int,
)
    requires
        -(ONE - 1) <= e0 - ONE * r0 <= ONE - 1,
        -(ONE - 1) <= e1 - ONE * r1 <= ONE - 1,
        -(ONE - 1) <= e2 - ONE * r2 <= ONE - 1,
        -(ONE - 1) <= e3 - ONE * r3 <= ONE - 1,
        -m <= a0 <= m,
        -m <= a1 <= m,
        -m <= a2 <= m,
        -m <= a3 <= m,
        0 <= m,
    ensures
        -(39996 * m) <= dot4_model(a0, a1, a2, a3, e0, e1, e2, e3) - ONE * dot4_model(
            a0,
            a1,
            a2,
            a3,
            r0,
            r1,
            r2,
            r3,
        ) <= 39996 * m,
{
    assert(-(9999 * m) <= a0 * e0 - 10000 * (a0 * r0) <= 9999 * m) by (nonlinear_arith)
        requires
            -9999 <= e0 - 10000 * r0 <= 9999,
            -m <= a0 <= m,
            0 <= m,
    ;
    assert(-(9999 * m) <= a1 * e1 - 10000 * (a1 * r1) <= 9999 * m) by (nonlinear_arith)
        requires
            -9999 <= e1 - 10000 * r1 <= 9999,
            -m <= a1 <= m,
            0 <= m,
    ;
    assert(-(9999 * m) <= a2 * e2 - 10000 * (a2 * r2) <= 9999 * m) by (nonlinear_arith)
        requires
            -9999 <= e2 - 10000 * r2 <= 9999,
            -m <= a2 <= m,
            0 <= m,
    ;
    assert(-(9999 * m) <= a3 * e3 - 10000 * (a3 * r3) <= 9999 * m) by (nonlinear_arith)
        requires
            -9999 <= e3 - 10000 * r3 <= 9999,
            -m <= a3 <= m,
            0 <= m,
    ;
}

/// Associativity of the computed product, quantitatively: when the
/// entries of the outer factors stay within `m`, the two orders of the
/// chained multiply agree entrywise to `8 (ONE - 1) m + 2 ONE (ONE - 1)`
/// parts in `ONE_SQ`, that is `79992 m + 199980000` parts in a hundred
/// million - for matrices of at most one unit per entry, about one
/// thousandth of a unit. The middle factor needs no bound: its rounding
/// error enters only through the outer products.
pub proof fn lemma_prod_fixed_assoc_bound(a: Mat4Model, b: Mat4Model, c: Mat4Model, m: int)
    requires
        0 <= m,
        mat_entries_bounded(a, m),
        mat_entries_bounded(c, m),
    ensures
        entries_close(
            prod_fixed(prod_fixed(a, b), c),
            prod_fixed(a, prod_fixed(b, c)),
            79992 * m + 199980000,
        ),
{
    lemma_prod_exact_assoc(a, b, c);
    lemma_prod_fixed_rounding(a, b);
    lemma_prod_fixed_rounding(b, c);
    let e1 = prod_exact(a, b);
    let ab = prod_fixed(a, b);
    let e2 = prod_exact(b, c);
    let bc = prod_fixed(b, c);
    let sl = prod_exact(ab, c);
    let sr = prod_exact(a, bc);
    lemma_dot_left_err(ab.e00, ab.e01, ab.e02, ab.e03, e1.e00, e1.e01, e1.e02, e1.e03, c.e00, c.e10, c.e20, c.e30, m);
    lemma_tdiv_error(sl.e00, ONE as int);
    lemma_dot_right_err(a.e00, a.e01, a.e02, a.e03, bc.e00, bc.e10, bc.e20, bc.e30, e2.e00, e2.e10, e2.e20, e2.e30, m);
    lemma_tdiv_error(sr.e00, ONE as int);
    lemma_dot_left_err(ab.e00, ab.e01, ab.e02, ab.e03, e1.e00, e1.e01, e1.e02, e1.e03, c.e01, c.e11, c.e21, c.e31, m);
    lemma_tdiv_error(sl.e01, ONE as int);
    lemma_dot_right_err(a.e00, a.e01, a.e02, a.e03, bc.e01, bc.e11, bc.e21, bc.e31, e2.e01, e2.e11, e2.e21, e2.e31, m);
    lemma_tdiv_error(sr.e01, ONE as int);
    lemma_dot_left_err(ab.e00, ab.e01, ab.e02, ab.e03, e1.e00, e1.e01, e1.e02, e1.e03, c.e02, c.e12, c.e22, c.e32, m);
    lemma_tdiv_error(sl.e02, ONE as int);
    lemma_dot_right_err(a.e00, a.e01, a.e02, a.e03, bc.e02, bc.e12, bc.e22, bc.e32, e2.e02, e2.e12, e2.e22, e2.e32, m);
    lemma_tdiv_error(sr.e02, ONE as int);
    lemma_dot_left_err(ab.e00, ab.e01, ab.e02, ab.e03, e1.e00, e1.e01, e1.e02, e1.e03, c.e03, c.e13, c.e23, c.e33, m);
    lemma_tdiv_error(sl.e03, ONE as int);
    lemma_dot_right_err(a.e00, a.e01, a.e02, a.e03, bc.e03, bc.e13, bc.e23, bc.e33, e2.e03, e2.e13, e2.e23, e2.e33, m);
    lemma_tdiv_error(sr.e03, ONE as int);
    lemma_dot_left_err(ab.e10, ab.e11, ab.e12, ab.e13, e1.e10, e1.e11, e1.e12, e1.e13, c.e00, c.e10, c.e20, c.e30, m);
    lemma_tdiv_error(sl.e10, ONE as int);
    lemma_dot_right_err(a.e10, a.e11, a.e12, a.e13, bc.e00, bc.e10, bc.e20, bc.e30, e2.e00, e2.e10, e2.e20, e2.e30, m);
    lemma_tdiv_error(sr.e10, ONE as int);
    lemma_dot_left_err(ab.e10, ab.e11, ab.e12, ab.e13, e1.e10, e1.e11, e1.e12, e1.e13, c.e01, c.e11, c.e21, c.e31, m);
    lemma_tdiv_error(sl.e11, ONE as int);
    lemma_dot_right_err(a.e10, a.e11, a.e12, a.e13, bc.e01, bc.e11, bc.e21, bc.e31, e2.e01, e2.e11, e2.e21, e2.e31, m);
    lemma_tdiv_error(sr.e11, ONE as int);
    lemma_dot_left_err(ab.e10, ab.e11, ab.e12, ab.e13, e1.e10, e1.e11, e1.e12, e1.e13, c.e02, c.e12, c.e22, c.e32, m);
    lemma_tdiv_error(sl.e12, ONE as int);
    lemma_dot_right_err(a.e10, a.e11, a.e12, a.e13, bc.e02, bc.e12, bc.e22, bc.e32, e2.e02, e2.e12, e2.e22, e2.e32, m);
    lemma_tdiv_error(sr.e12, ONE as int);
    lemma_dot_left_err(ab.e10, ab.e11, ab.e12, ab.e13, e1.e10, e1.e11, e1.e12, e1.e13, c.e03, c.e13, c.e23, c.e33, m);
    lemma_tdiv_error(sl.e13, ONE as int);
    lemma_dot_right_err(a.e10, a.e11, a.e12, a.e13, bc.e03, bc.e13, bc.e23, bc.e33, e2.e03, e2.e13, e2.e23, e2.e33, m);
    lemma_tdiv_error(sr.e13, ONE as int);
    lemma_dot_left_err(ab.e20, ab.e21, ab.e22, ab.e23, e1.e20, e1.e21, e1.e22, e1.e23, c.e00, c.e10, c.e20, c.e30, m);
    lemma_tdiv_error(sl.e20, ONE as int);
    lemma_dot_right_err(a.e20, a.e21, a.e22, a.e23, bc.e00, bc.e10, bc.e20, bc.e30, e2.e00, e2.e10, e2.e20, e2.e30, m);
    lemma_tdiv_error(sr.e20, ONE as int);
    lemma_dot_left_err(ab.e20, ab.e21, ab.e22, ab.e23, e1.e20, e1.e21, e1.e22, e1.e23, c.e01, c.e11, c.e21, c.e31, m);
    lemma_tdiv_error(sl.e21, ONE as int);
    lemma_dot_right_err(a.e20, a.e21, a.e22, a.e23, bc.e01, bc.e11, bc.e21, bc.e31, e2.e01, e2.e11, e2.e21, e2.e31, m);
    lemma_tdiv_error(sr.e21, ONE as int);
    lemma_dot_left_err(ab.e20, ab.e21, ab.e22, ab.e23, e1.e20, e1.e21, e1.e22, e1.e23, c.e02, c.e12, c.e22, c.e32, m);
    lemma_tdiv_error(sl.e22, ONE as int);
    lemma_dot_right_err(a.e20, a.e21, a.e22, a.e23, bc.e02, bc.e12, bc.e22, bc.e32, e2.e02, e2.e12, e2.e22, e2.e32, m);
    lemma_tdiv_error(sr.e22, ONE as int);
    lemma_dot_left_err(ab.e20, ab.e21, ab.e22, ab.e23, e1.e20, e1.e21, e1.e22, e1.e23, c.e03, c.e13, c.e23, c.e33, m);
    lemma_tdiv_error(sl.e23, ONE as int);
    lemma_dot_right_err(a.e20, a.e21, a.e22, a.e23, bc.e03, bc.e13, bc.e23, bc.e33, e2.e03, e2.e13, e2.e23, e2.e33, m);
    lemma_tdiv_error(sr.e23, ONE as int);
    lemma_dot_left_err(ab.e30, ab.e31, ab.e32, ab.e33, e1.e30, e1.e31, e1.e32, e1.e33, c.e00, c.e10, c.e20, c.e30, m);
    lemma_tdiv_error(sl.e30, ONE as int);
    lemma_dot_right_err(a.e30, a.e31, a.e32, a.e33, bc.e00, bc.e10, bc.e20, bc.e30, e2.e00, e2.e10, e2.e20, e2.e30, m);
    lemma_tdiv_error(sr.e30, ONE as int);
    lemma_dot_left_err(ab.e30, ab.e31, ab.e32, ab.e33, e1.e30, e1.e31, e1.e32, e1.e33, c.e01, c.e11, c.e21, c.e31, m);
    lemma_tdiv_error(sl.e31, ONE as int);
    lemma_dot_right_err(a.e30, a.e31, a.e32, a.e33, bc.e01, bc.e11, bc.e21, bc.e31, e2.e01, e2.e11, e2.e21, e2.e31, m);
    lemma_tdiv_error(sr.e31, ONE as int);
    lemma_dot_left_err(ab.e30, ab.e31, ab.e32, ab.e33, e1.e30, e1.e31, e1.e32, e1.e33, c.e02, c.e12, c.e22, c.e32, m);
    lemma_tdiv_error(sl.e32, ONE as int);
    lemma_dot_right_err(a.e30, a.e31, a.e32, a.e33, bc.e02, bc.e12, bc.e22, bc.e32, e2.e02, e2.e12, e2.e22, e2.e32, m);
    lemma_tdiv_error(sr.e32, ONE as int);
    lemma_dot_left_err(ab.e30, ab.e31, ab.e32, ab.e33, e1.e30, e1.e31, e1.e32, e1.e33, c.e03, c.e13, c.e23, c.e33, m);
    lemma_tdiv_error(sl.e33, ONE as int);
    lemma_dot_right_err(a.e30, a.e31, a.e32, a.e33, bc.e03, bc.e13, bc.e23, bc.e33, e2.e03, e2.e13, e2.e23, e2.e33, m);
    lemma_tdiv_error(sr.e33, ONE as int);
}

} // verus!
