//! Integer arithmetic shared by the control and timekeeping code.
//!
//! Machine division truncates toward zero while the division of specifications rounds toward
//! minus infinity for a positive divisor, so contracts that speak of a quotient or a remainder
//! use [`tdiv`] and [`trem`].

use vstd::prelude::*;

verus! {

use vstd::arithmetic::power2::{lemma_pow2_pos, pow2};

/// Division of `a` by `b` that truncates toward zero.
pub open spec fn tdiv(a: int, b: int) -> int {
    if a >= 0 {
        a / b
    } else {
        -((-a) / b)
    }
}

/// Remainder of the truncating division: it has the sign of `a`.
pub open spec fn trem(a: int, b: int) -> int {
    if a >= 0 {
        a % b
    } else {
        -((-a) % b)
    }
}

/// The magnitude of `a`.
pub open spec fn magnitude(a: int) -> int {
    if a < 0 {
        -a
    } else {
        a
    }
}

/// The value nearest to `a` within `-limit ..= limit`.
pub open spec fn bounded(a: int, limit: int) -> int {
    if a < -limit {
        -limit
    } else if a > limit {
        limit
    } else {
        a
    }
}

/// The value nearest to `a` within `lo ..= hi`.
pub open spec fn confined(a: int, lo: int, hi: int) -> int {
    if a < lo {
        lo
    } else if a > hi {
        hi
    } else {
        a
    }
}

/// The larger of two integers.
pub open spec fn larger(a: int, b: int) -> int {
    if a < b {
        b
    } else {
        a
    }
}

/// The smaller of two integers.
pub open spec fn smaller(a: int, b: int) -> int {
    if a < b {
        a
    } else {
        b
    }
}

/// Whether `a` is the value of some `i64`.
pub open spec fn in_i64(a: int) -> bool {
    i64::MIN <= a <= i64::MAX
}

/// The magnitude of a machine integer.
pub fn abs_i64(a: i64) -> (r: i64)
    requires
        a != i64::MIN,
    ensures
        r == magnitude(a as int),
        r >= 0,
{
    if a < 0 {
        -a
    } else {
        a
    }
}

/// Clamps `a` to `-limit ..= limit`.
pub fn clamp_sym(a: i64, limit: i64) -> (r: i64)
    requires
        limit >= 0,
    ensures
        r == bounded(a as int, limit as int),
{
    if a < -limit {
        -limit
    } else if a > limit {
        limit
    } else {
        a
    }
}

/// Dividing by a positive divisor shrinks the magnitude and keeps the sign.
pub proof fn lemma_tdiv_bounds(a: int, b: int)
    requires
        b > 0,
    ensures
        a >= 0 ==> 0 <= tdiv(a, b) <= a,
        a <= 0 ==> a <= tdiv(a, b) <= 0,
        tdiv(0, b) == 0,
{
    if a >= 0 {
        assert(0 <= a / b <= a) by (nonlinear_arith)
            requires
                a >= 0,
                b > 0,
        ;
    } else {
        assert(0 <= (-a) / b <= -a) by (nonlinear_arith)
            requires
                a < 0,
                b > 0,
        ;
    }
    assert(0int / b == 0) by (nonlinear_arith)
        requires
            b > 0,
    ;
}

/// No quotient is larger in magnitude than its dividend.
pub proof fn lemma_tdiv_shrinks(a: int, b: int)
    requires
        b != 0,
    ensures
        magnitude(tdiv(a, b)) <= magnitude(a),
{
    let m = magnitude(a);
    if b > 0 {
        lemma_tdiv_bounds(a, b);
    } else {
        assert(-m <= m / b <= 0) by (nonlinear_arith)
            requires
                m >= 0,
                b < 0,
        ;
    }
}

/// The only quotient of machine integers that is no machine integer is that of the smallest one
/// by -1.
pub proof fn lemma_tdiv_in_i64(a: int, b: int)
    requires
        in_i64(a),
        b != 0,
        !(a == i64::MIN && b == -1),
    ensures
        in_i64(tdiv(a, b)),
{
    lemma_tdiv_shrinks(a, b);
    if a == i64::MIN && b < 0 {
        let m = -a;
        assert(2 * (m / b) >= -m) by (nonlinear_arith)
            requires
                m >= 0,
                b <= -2,
        ;
    } else if a < 0 && b > 0 {
        lemma_tdiv_bounds(a, b);
    }
}

/// The truncating quotient and remainder recompose the dividend, and the remainder is smaller
/// than the divisor.
pub proof fn lemma_tdiv_trem(a: int, b: int)
    requires
        b > 0,
    ensures
        a == b * tdiv(a, b) + trem(a, b),
        -b < trem(a, b) < b,
        a >= 0 ==> trem(a, b) >= 0,
        a <= 0 ==> trem(a, b) <= 0,
{
    let m = magnitude(a);
    assert(m == b * (m / b) + m % b && 0 <= m % b < b) by (nonlinear_arith)
        requires
            b > 0,
    ;
    assert(b * (-(m / b)) == -(b * (m / b))) by (nonlinear_arith);
}

/// Truncating division is odd in the dividend.
pub proof fn lemma_tdiv_neg(a: int, b: int)
    requires
        b > 0,
    ensures
        tdiv(-a, b) == -tdiv(a, b),
{
    assert(0int / b == 0) by (nonlinear_arith)
        requires
            b > 0,
    ;
}

/// Truncating division by a positive divisor is monotone.
pub proof fn lemma_tdiv_monotone(x: int, y: int, b: int)
    requires
        b > 0,
        x <= y,
    ensures
        tdiv(x, b) <= tdiv(y, b),
{
    if x >= 0 {
        assert(x / b <= y / b) by (nonlinear_arith)
            requires
                b > 0,
                x <= y,
        ;
    } else if y < 0 {
        assert((-y) / b <= (-x) / b) by (nonlinear_arith)
            requires
                b > 0,
                x <= y,
        ;
    } else {
        lemma_tdiv_bounds(x, b);
        lemma_tdiv_bounds(y, b);
    }
}

/// The arithmetic right shift of `x` by `s` bits: division by `2^s`, rounded toward minus
/// infinity.
pub open spec fn floor_shr(x: int, s: int) -> int {
    x / (pow2(s as nat) as int)
}

/// A machine right shift is [`floor_shr`].
pub fn shr_i64(x: i64, s: u32) -> (r: i64)
    requires
        s < 64,
    ensures
        r == floor_shr(x as int, s as int),
{
    proof {
        lemma_shr_is_floor(x, s);
    }
    x >> s
}

/// The right shift of a two's complement number divides by a power of two and rounds down.
proof fn lemma_shr_is_floor(x: i64, s: u32)
    requires
        s < 64,
    ensures
        (x >> s) == floor_shr(x as int, s as int),
{
    let p = pow2(s as nat) as int;
    lemma_pow2_pos(s as nat);
    if x >= 0 {
        let u = x as u64;
        assert((x >> s) as u64 == u >> (s as u64) && (x >> s) >= 0) by (bit_vector)
            requires
                x >= 0,
                s < 64,
                u == x as u64,
        ;
        vstd::bits::lemma_u64_shr_is_div(u, s as u64);
    } else {
        let y: i64 = !x;
        let u = y as u64;
        assert(y == -1 - x && y >= 0 && (x >> s) == -1 - (y >> s) && (y >> s) as u64 == u >> (
        s as u64) && (y >> s) >= 0) by (bit_vector)
            requires
                x < 0,
                s < 64,
                y == !x,
                u == y as u64,
        ;
        vstd::bits::lemma_u64_shr_is_div(u, s as u64);
        let a = x as int;
        assert(a / p == -1 - (-1 - a) / p) by (nonlinear_arith)
            requires
                p > 0,
        ;
    }
}

/// A right shift keeps the sign and does not grow the magnitude: the result lies between 0 and a
/// non-negative `x`, and between a negative `x` and -1.
pub proof fn lemma_floor_shr_bounds(x: int, s: int)
    requires
        0 <= s,
    ensures
        x >= 0 ==> 0 <= floor_shr(x, s) <= x,
        x < 0 ==> x <= floor_shr(x, s) <= -1,
{
    let p = pow2(s as nat) as int;
    lemma_pow2_pos(s as nat);
    assert(x >= 0 ==> 0 <= x / p <= x) by (nonlinear_arith)
        requires
            p >= 1,
    ;
    assert(x < 0 ==> x <= x / p <= -1) by (nonlinear_arith)
        requires
            p >= 1,
    ;
}

/// A magnitude is the number itself or its opposite, whichever is not negative.
pub proof fn law_magnitude_drops_the_sign(a: int)
    ensures
        magnitude(a) >= 0,
        magnitude(a) == a || magnitude(a) == -a,
        magnitude(-a) == magnitude(a),
{
}

/// Bounding leaves what is inside the limits alone, and moves anything else to the nearest of them:
/// no value `x` inside lies between.
pub proof fn law_bounded_is_nearest(a: int, limit: int, x: int)
    requires
        -limit <= x <= limit,
    ensures
        -limit <= bounded(a, limit) <= limit,
        a > bounded(a, limit) ==> x <= bounded(a, limit),
        a < bounded(a, limit) ==> x >= bounded(a, limit),
        bounded(-a, limit) == -bounded(a, limit),
{
}

/// Confining leaves what is inside the range alone, and moves anything else to the nearest end: no
/// value `x` inside lies between.
pub proof fn law_confined_is_nearest(a: int, lo: int, hi: int, x: int)
    requires
        lo <= x <= hi,
    ensures
        lo <= confined(a, lo, hi) <= hi,
        a > confined(a, lo, hi) ==> x <= confined(a, lo, hi),
        a < confined(a, lo, hi) ==> x >= confined(a, lo, hi),
{
}

/// The larger and the smaller of two numbers are those two numbers, in order.
pub proof fn law_larger_and_smaller(a: int, b: int)
    ensures
        smaller(a, b) <= a <= larger(a, b),
        smaller(a, b) <= b <= larger(a, b),
        smaller(a, b) + larger(a, b) == a + b,
        smaller(a, b) == a || smaller(a, b) == b,
{
}

/// A truncated quotient times its divisor falls short of the dividend by less than the divisor, and
/// never past it, whatever the signs.
pub proof fn law_quotient_is_truncated(a: int, b: int)
    requires
        b != 0,
    ensures
        a >= 0 ==> 0 <= b * tdiv(a, b) <= a,
        a <= 0 ==> a <= b * tdiv(a, b) <= 0,
        b > 0 ==> -b < a - b * tdiv(a, b) < b,
        b < 0 ==> b < a - b * tdiv(a, b) < -b,
{
    let m = if a < 0 { -a } else { a };
    let q = m / b;
    let r = m % b;
    vstd::arithmetic::div_mod::lemma_fundamental_div_mod(m, b);
    assert(0 <= r && (b > 0 ==> r < b) && (b < 0 ==> r < -b)) by (nonlinear_arith)
        requires
            b != 0,
            r == m % b,
    ;
    assert(0 <= b * q <= m) by (nonlinear_arith)
        requires
            b != 0,
            m >= 0,
            m == b * q + r,
            0 <= r,
            b > 0 ==> r < b,
            b < 0 ==> r < -b,
    ;
    assert(b * (-q) == -(b * q)) by (nonlinear_arith);
}

/// Whether `q` is `a` over a positive `b`, truncated: `b` times `q` falls short of `a` by less than
/// `b`, and is not past it.
pub open spec fn is_quotient(q: int, a: int, b: int) -> bool {
    &&& a >= 0 ==> b * q <= a < b * q + b
    &&& a < 0 ==> b * q - b < a <= b * q
}

/// There is only one truncated quotient by a positive divisor.
pub proof fn lemma_tdiv_unique(a: int, b: int, q: int)
    requires
        b > 0,
        is_quotient(q, a, b),
    ensures
        tdiv(a, b) == q,
{
    law_quotient_is_truncated(a, b);
    let t = tdiv(a, b);
    assert(t == q) by (nonlinear_arith)
        requires
            b > 0,
            a >= 0 ==> b * q <= a < b * q + b,
            a < 0 ==> b * q - b < a <= b * q,
            a >= 0 ==> b * t <= a,
            a < 0 ==> a <= b * t,
            -b < a - b * t < b,
    ;
}

/// An arithmetic right shift rounds down: `2^s` times the result is the last multiple of `2^s` that
/// is not above the number.
pub proof fn law_shift_rounds_down(x: int, s: nat)
    ensures
        pow2(s) > 0,
        pow2(s) * floor_shr(x, s as int) <= x < pow2(s) * floor_shr(x, s as int) + pow2(s),
{
    lemma_pow2_pos(s);
    let p = pow2(s) as int;
    vstd::arithmetic::div_mod::lemma_fundamental_div_mod(x, p);
    assert(0 <= x % p < p) by (nonlinear_arith)
        requires
            p > 0,
    ;
}

/// There is only one number that an arithmetic right shift can give.
pub proof fn lemma_floor_shr_unique(x: int, s: nat, q: int)
    requires
        pow2(s) * q <= x < pow2(s) * q + pow2(s),
    ensures
        floor_shr(x, s as int) == q,
{
    law_shift_rounds_down(x, s);
    let p = pow2(s) as int;
    let t = floor_shr(x, s as int);
    assert(t == q) by (nonlinear_arith)
        requires
            p > 0,
            p * q <= x < p * q + p,
            p * t <= x < p * t + p,
    ;
}

} // verus!
