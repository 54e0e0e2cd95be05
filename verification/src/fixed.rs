//! The fixed-point scalar: an `i64` count of `1/10000` units, and the
//! arithmetic facts the rest of the library leans on.

use vstd::prelude::*;
use vstd::arithmetic::div_mod::{
    lemma_div_multiples_vanish, lemma_div_pos_is_pos, lemma_div_is_ordered,
    lemma_fundamental_div_mod, lemma_mod_division_less_than_divisor,
};
use vstd::arithmetic::div_mod::lemma_fundamental_div_mod_converse_mod;
use vstd::arithmetic::mul::{
    lemma_mul_nonnegative, lemma_mul_inequality, lemma_mul_unary_negation,
    lemma_mul_is_commutative, lemma_mul_is_distributive_sub_other_way, lemma_mul_basics,
};

verus! {

/// The fixed-point unit: the real value `1.0` is stored as `ONE`.
pub const ONE: i64 = 10000;

/// `ONE * ONE`, the divisor for a product of two fixed-point factors.
pub const ONE_SQ: i64 = 100000000;

/// The range of scalars the library accepts as inputs. A component whose
/// magnitude exceeds `LIM` (100000 units) plays the role a non-finite
/// float plays elsewhere: operations either exclude it by precondition or
/// reject it with an explicit error.
pub const LIM: i64 = 1000000000;

/// True when `x` lies in the accepted input range.
pub open spec fn in_lim(x: int) -> bool {
    -LIM <= x <= LIM
}

/// Division rounding toward zero, the rounding used throughout the
/// library. It matches what `/` computes on `i64` operands.
pub open spec fn tdiv(a: int, b: int) -> int
    recommends
        b > 0,
{
    if a >= 0 {
        a / b
    } else {
        -((-a) / b)
    }
}

/// Dividing an exact multiple of `b` by `b` loses nothing.
pub proof fn lemma_tdiv_mul_exact(x: int, b: int)
    requires
        b > 0,
    ensures
        tdiv(x * b, b) == x,
{
    if x >= 0 {
        lemma_mul_nonnegative(x, b);
        lemma_div_multiples_vanish(x, b);
        lemma_mul_is_commutative(x, b);
    } else {
        let y = -x;
        lemma_mul_inequality(1, y, b);
        lemma_div_multiples_vanish(y, b);
        lemma_mul_unary_negation(y, b);
        lemma_mul_is_commutative(y, b);
        assert(x * b == -(y * b));
        assert(tdiv(x * b, b) == -((y * b) / b));
    }
}

/// Rounding toward zero never grows the magnitude of the quotient:
/// a numerator bounded by `m` gives a quotient bounded by `m / b`.
pub proof fn lemma_tdiv_abs_le(a: int, b: int, m: int)
    requires
        b > 0,
        0 <= m,
        -m <= a <= m,
    ensures
        -(m / b) <= tdiv(a, b) <= m / b,
{
    if a >= 0 {
        lemma_div_pos_is_pos(a, b);
        lemma_div_is_ordered(a, m, b);
    } else {
        lemma_div_pos_is_pos(-a, b);
        lemma_div_is_ordered(-a, m, b);
    }
}

/// The rounding error of `tdiv` is below one divisor:
/// `b * tdiv(a, b)` is within `b - 1` of `a`.
pub proof fn lemma_tdiv_error(a: int, b: int)
    requires
        b > 0,
    ensures
        -(b - 1) <= a - b * tdiv(a, b) <= b - 1,
{
    if a >= 0 {
        lemma_fundamental_div_mod(a, b);
        lemma_mod_division_less_than_divisor(a, b);
    } else {
        lemma_fundamental_div_mod(-a, b);
        lemma_mod_division_less_than_divisor(-a, b);
        lemma_mul_unary_negation((-a) / b, b);
        lemma_mul_is_commutative(b, -((-a) / b));
        lemma_mul_is_commutative(b, (-a) / b);
        assert(b * tdiv(a, b) == b * (-((-a) / b)));
        assert((-((-a) / b)) * b == -(((-a) / b) * b));
    }
}

/// How the remainder of a negated numerator relates to the euclidean
/// remainder: negating flips a nonzero remainder to its complement.
pub proof fn lemma_mod_negative(a: int, m: int)
    requires
        m > 0,
    ensures
        (-a) % m == 0 ==> a % m == 0,
        (-a) % m != 0 ==> a % m == m - (-a) % m,
{
    let q = (-a) / m;
    let r = (-a) % m;
    lemma_fundamental_div_mod(-a, m);
    lemma_mod_division_less_than_divisor(-a, m);
    lemma_mul_unary_negation(q, m);
    lemma_mul_is_commutative(q, m);
    if r == 0 {
        lemma_fundamental_div_mod_converse_mod(a, m, -q, 0);
    } else {
        lemma_mul_is_distributive_sub_other_way(m, -q, 1);
        lemma_mul_basics(m);
        lemma_fundamental_div_mod_converse_mod(a, m, -q - 1, m - r);
    }
}

/// The floor of the square root, defined by counting up: the largest
/// `r` with `r * r <= n`.
pub open spec fn sqrt_floor(n: nat) -> nat
    decreases n,
{
    if n == 0 {
        0
    } else {
        let p = sqrt_floor((n - 1) as nat);
        if (p + 1) * (p + 1) <= n {
            p + 1
        } else {
            p
        }
    }
}

/// The defining property of `sqrt_floor`: its square is at most `n`,
/// and the next square is beyond `n`.
pub proof fn lemma_sqrt_floor_bounds(n: nat)
    ensures
        sqrt_floor(n) * sqrt_floor(n) <= n,
        (sqrt_floor(n) + 1) * (sqrt_floor(n) + 1) > n,
    decreases n,
{
    if n > 0 {
        let m = (n - 1) as nat;
        lemma_sqrt_floor_bounds(m);
        let p = sqrt_floor(m);
        assert(p * p <= m);
        assert((p + 1) * (p + 1) > m);
        if (p + 1) * (p + 1) <= n {
            assert(sqrt_floor(n) == p + 1);
            assert((p + 2) * (p + 2) > (p + 1) * (p + 1)) by (nonlinear_arith);
            assert((sqrt_floor(n) + 1) * (sqrt_floor(n) + 1) == (p + 2) * (p + 2));
        } else {
            assert(sqrt_floor(n) == p);
        }
    } else {
        assert(sqrt_floor(n) == 0);
        assert(sqrt_floor(n) * sqrt_floor(n) <= n && (sqrt_floor(n) + 1) * (sqrt_floor(n) + 1)
            > n) by (nonlinear_arith)
            requires
                n == 0,
                sqrt_floor(n) == 0,
        ;
    }
}

/// Any `r` that brackets `n` between `r * r` and `(r + 1) * (r + 1)`
/// is `sqrt_floor(n)`.
pub proof fn lemma_sqrt_floor_unique(n: nat, r: nat)
    requires
        r * r <= n,
        (r + 1) * (r + 1) > n,
    ensures
        r == sqrt_floor(n),
{
    let s = sqrt_floor(n);
    lemma_sqrt_floor_bounds(n);
    if r < s {
        lemma_mul_inequality((r + 1) as int, s as int, (r + 1) as int);
        lemma_mul_inequality((r + 1) as int, s as int, s as int);
    }
    if s < r {
        lemma_mul_inequality((s + 1) as int, r as int, (s + 1) as int);
        lemma_mul_inequality((s + 1) as int, r as int, r as int);
    }
}

/// The square root of a perfect square is its root.
pub proof fn lemma_sqrt_floor_of_square(v: nat)
    ensures
        sqrt_floor(v * v) == v,
{
    assert((v + 1) * (v + 1) > v * v) by (nonlinear_arith);
    lemma_sqrt_floor_unique(v * v, v);
}

/// `sqrt_floor` grows with its argument.
pub proof fn lemma_sqrt_floor_monotone(a: nat, b: nat)
    requires
        a <= b,
    ensures
        sqrt_floor(a) <= sqrt_floor(b),
{
    let ra = sqrt_floor(a);
    let rb = sqrt_floor(b);
    lemma_sqrt_floor_bounds(a);
    lemma_sqrt_floor_bounds(b);
    if rb < ra {
        lemma_mul_inequality((rb + 1) as int, ra as int, (rb + 1) as int);
        lemma_mul_inequality((rb + 1) as int, ra as int, ra as int);
    }
}

/// The integer square root, by bisection.
pub fn isqrt_u64(n: u64) -> (r: u64)
    requires
        n <= 4000000000000000000,
    ensures
        r == sqrt_floor(n as nat),
        r <= 2000000000,
{
    let mut lo: u64 = 0;
    let mut hi: u64 = 2000000001;
    assert(2000000001u64 * 2000000001u64 > n) by (nonlinear_arith)
        requires
            n <= 4000000000000000000,
    ;
    while hi - lo > 1
        invariant
            lo < hi <= 2000000001,
            lo * lo <= n,
            hi * hi > n,
        decreases hi - lo,
    {
        let mid: u64 = lo + (hi - lo) / 2;
        assert(mid * mid <= 2000000001u64 * 2000000001u64) by (nonlinear_arith)
            requires
                mid <= 2000000001u64,
        ;
        if mid * mid <= n {
            lo = mid;
        } else {
            hi = mid;
        }
    }
    proof {
        assert(hi == lo + 1);
        lemma_sqrt_floor_unique(n as nat, lo as nat);
    }
    lo
}

} // verus!
