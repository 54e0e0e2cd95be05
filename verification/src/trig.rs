//! Angles and their trigonometry.
//!
//! An [`Angle`] carries its magnitude in degrees or radians, in
//! fixed-point units; every consumer reduces it to degrees first. Sine
//! and cosine are computed by Bhaskara's rational approximation
//! `sin d = 4 d (180 - d) / (40500 - d (180 - d))` on a half turn,
//! extended by sign to the full circle. The formula is itself the
//! specification: it is exact at every quarter turn and within about
//! `0.002` of the real sine elsewhere.

use vstd::prelude::*;
use crate::fixed::{ONE, LIM, in_lim, tdiv};
use crate::fixed::lemma_mod_negative;
use vstd::arithmetic::div_mod::{
    lemma_div_pos_is_pos, lemma_div_is_ordered, lemma_div_multiples_vanish,
    lemma_mod_division_less_than_divisor,
};

verus! {

/// A rotation magnitude, tagged with its unit. The payload is
/// fixed-point: `Deg(900000)` is ninety degrees, `Rad(31416)` is about
/// a half turn.
#[derive(Clone, Copy, Debug, PartialEq, Eq, Structural)]
pub enum Angle {
    Deg(i64),
    Rad(i64),
}

/// A full turn, 360 degrees, in fixed-point units.
pub const FULL_TURN: i64 = 3600000;

/// Half a turn, 180 degrees.
pub const HALF_TURN: i64 = 1800000;

/// A quarter turn, 90 degrees.
pub const QUARTER_TURN: i64 = 900000;

/// `180 / pi` scaled by `10^7`: the factor from radians to degrees.
pub const RAD_TO_DEG_NUM: i64 = 572957795;

/// The scale of `RAD_TO_DEG_NUM`.
pub const RAD_TO_DEG_DEN: i64 = 10000000;

/// Bhaskara's constant `40500`, scaled to fixed-point degree products.
pub const BHASKARA_C: i64 = 4050000000000;

/// An angle reduced to `[0, FULL_TURN)`.
pub open spec fn wrap_deg(d: int) -> int {
    d % (FULL_TURN as int)
}

/// Bhaskara's approximation of `sin` on `[0, HALF_TURN]`, in
/// fixed-point units.
pub open spec fn sin_half_model(u: int) -> int
    recommends
        0 <= u <= HALF_TURN,
{
    let p = u * (HALF_TURN - u);
    tdiv(40000 * p, BHASKARA_C - p)  // 40000 is 4 * ONE
}

/// The sine of `d` fixed-point degrees: Bhaskara's approximation on the
/// first half turn, mirrored with opposite sign on the second.
pub open spec fn sin_deg_model(d: int) -> int {
    let w = wrap_deg(d);
    if w <= HALF_TURN {
        sin_half_model(w)
    } else {
        -sin_half_model(w - HALF_TURN)
    }
}

/// The cosine of `d` fixed-point degrees: the sine a quarter turn ahead.
pub open spec fn cos_deg_model(d: int) -> int {
    sin_deg_model(d + QUARTER_TURN)
}

/// The magnitude of an angle in fixed-point degrees; a radian payload is
/// converted by `180 / pi`.
pub open spec fn angle_deg_model(a: Angle) -> int {
    match a {
        Angle::Deg(d) => d as int,
        Angle::Rad(r) => tdiv(r * RAD_TO_DEG_NUM, RAD_TO_DEG_DEN as int),
    }
}

/// True when the angle's payload lies in the accepted input range.
pub open spec fn angle_in_lim(a: Angle) -> bool {
    match a {
        Angle::Deg(d) => in_lim(d as int),
        Angle::Rad(r) => in_lim(r as int),
    }
}

/// Bhaskara's approximation stays within `[0, ONE]` on the half turn
/// it is defined on.
pub proof fn lemma_sin_half_range(u: int)
    requires
        0 <= u <= HALF_TURN,
    ensures
        0 <= sin_half_model(u) <= ONE,
{
    let p = u * (HALF_TURN - u);
    assert(0 <= p <= 810000000000) by (nonlinear_arith)
        requires
            0 <= u <= 1800000,
            p == u * (1800000 - u),
    ;
    let num = 40000 * p;
    let den = BHASKARA_C - p;
    lemma_div_pos_is_pos(num, den);
    lemma_div_is_ordered(num, den * 10000, den);
    lemma_div_multiples_vanish(ONE as int, den);
    assert(den * (ONE as int) == den * 10000);
}

/// The sine lies within `[-ONE, ONE]` everywhere.
pub proof fn lemma_sin_deg_range(d: int)
    ensures
        -ONE <= sin_deg_model(d) <= ONE,
{
    lemma_mod_division_less_than_divisor(d, FULL_TURN as int);
    let w = wrap_deg(d);
    if w <= HALF_TURN {
        lemma_sin_half_range(w);
    } else {
        lemma_sin_half_range(w - HALF_TURN);
    }
}

/// The sine and cosine at the four quarter turns are exact.
pub proof fn lemma_sin_cos_cardinal()
    ensures
        sin_deg_model(0) == 0,
        sin_deg_model(QUARTER_TURN as int) == ONE,
        sin_deg_model(HALF_TURN as int) == 0,
        sin_deg_model(3 * QUARTER_TURN) == -ONE,
        sin_deg_model(FULL_TURN as int) == 0,
        cos_deg_model(0) == ONE,
        cos_deg_model(QUARTER_TURN as int) == 0,
        cos_deg_model(HALF_TURN as int) == -ONE,
        cos_deg_model(3 * QUARTER_TURN) == 0,
        cos_deg_model(FULL_TURN as int) == ONE,
{
    assert(wrap_deg(0) == 0int % 3600000int);
    assert(wrap_deg(900000) == 900000int % 3600000int);
    assert(wrap_deg(1800000) == 1800000int % 3600000int);
    assert(wrap_deg(2700000) == 2700000int % 3600000int);
    assert(wrap_deg(3600000) == 3600000int % 3600000int);
    assert(wrap_deg(4500000) == 4500000int % 3600000int);
    assert(sin_half_model(0) == tdiv(0, 4050000000000));
    assert(sin_half_model(900000) == tdiv(32400000000000000, 3240000000000));
    assert(sin_half_model(1800000) == tdiv(0, 4050000000000));
}

/// An angle reduced to `[0, FULL_TURN)` degrees.
fn wrap_deg_i64(d: i64) -> (w: i64)
    ensures
        w == wrap_deg(d as int),
        0 <= w < FULL_TURN,
{
    let t = d % FULL_TURN;
    proof {
        lemma_mod_division_less_than_divisor(d as int, FULL_TURN as int);
        if d < 0 {
            lemma_mod_division_less_than_divisor(-(d as int), FULL_TURN as int);
            lemma_mod_negative(d as int, FULL_TURN as int);
        }
    }
    if t < 0 {
        t + FULL_TURN
    } else {
        t
    }
}

/// Bhaskara's approximation on `[0, HALF_TURN]`.
fn sin_half_i64(u: i64) -> (s: i64)
    requires
        0 <= u <= HALF_TURN,
    ensures
        s == sin_half_model(u as int),
        0 <= s <= ONE,
{
    proof {
        lemma_sin_half_range(u as int);
    }
    let rest = HALF_TURN - u;
    proof {
        assert(0 <= u * rest <= 810000000000) by (nonlinear_arith)
            requires
                0 <= u <= 1800000,
                rest == 1800000 - u,
        ;
    }
    let p = u * rest;
    let num = 40000 * p;
    let den = BHASKARA_C - p;
    num / den
}

/// The sine and cosine of an angle, in fixed-point units.
///
/// Both follow the spec-level trigonometry exactly: Bhaskara's rational
/// approximation over the wrapped angle, which is exact at every quarter
/// turn and confined to `[-ONE, ONE]`.
pub fn angle_sin_cos(angle: Angle) -> (r: (i64, i64))
    requires
        angle_in_lim(angle),
    ensures
        r.0 == sin_deg_model(angle_deg_model(angle)),
        r.1 == cos_deg_model(angle_deg_model(angle)),
        -ONE <= r.0 <= ONE,
        -ONE <= r.1 <= ONE,
{
    let deg: i64 = match angle {
        Angle::Deg(d) => d,
        Angle::Rad(rad) => {
            let scaled = rad * RAD_TO_DEG_NUM;
            scaled / RAD_TO_DEG_DEN
        },
    };
    proof {
        match angle {
            Angle::Deg(_) => {},
            Angle::Rad(rad) => {
                crate::fixed::lemma_tdiv_abs_le(
                    rad * RAD_TO_DEG_NUM,
                    RAD_TO_DEG_DEN as int,
                    600000000000000000,
                );
            },
        }
        assert(deg == angle_deg_model(angle));
        lemma_sin_deg_range(angle_deg_model(angle));
        lemma_sin_deg_range(angle_deg_model(angle) + QUARTER_TURN);
    }
    let ws = wrap_deg_i64(deg);
    let s: i64 = if ws <= HALF_TURN {
        sin_half_i64(ws)
    } else {
        -sin_half_i64(ws - HALF_TURN)
    };
    let wc = wrap_deg_i64(deg + QUARTER_TURN);
    let c: i64 = if wc <= HALF_TURN {
        sin_half_i64(wc)
    } else {
        -sin_half_i64(wc - HALF_TURN)
    };
    (s, c)
}

} // verus!
