//! Differences of free-running 32-bit hardware counters.
//!
//! A counter wraps every 2^32 ticks, so only differences mean anything: the difference of two
//! readings is the signed number of ticks nearest to zero that agrees with them modulo 2^32.

use vstd::prelude::*;

verus! {

/// The representative of `x` modulo 2^32 that fits a signed 32-bit integer.
pub open spec fn centred(x: int) -> int {
    let m = x % 0x1_0000_0000;
    if m < 0x8000_0000 {
        m
    } else {
        m - 0x1_0000_0000
    }
}

/// Reads a 32-bit pattern as a signed number.
pub fn as_signed(w: u32) -> (d: i32)
    ensures
        d == centred(w as int),
{
    if w < 0x8000_0000 {
        w as i32
    } else {
        -1 - ((u32::MAX - w) as i32)
    }
}

/// The 32-bit pattern of a signed number.
pub fn as_pattern(d: i32) -> (w: u32)
    ensures
        w == d as int % 0x1_0000_0000,
{
    if d >= 0 {
        d as u32
    } else {
        u32::MAX - ((-1 - d) as u32)
    }
}

/// Signed distance in ticks from the reading `b` to the reading `a`.
pub fn tick_delta(a: u32, b: u32) -> (d: i32)
    ensures
        d == centred(a - b),
{
    as_signed(a.wrapping_sub(b))
}

/// The magnitude of a signed number of ticks.
pub fn tick_magnitude(d: i32) -> (m: u32)
    ensures
        m == (if d < 0 { -(d as int) } else { d as int }),
{
    if d >= 0 {
        d as u32
    } else {
        (-1 - d) as u32 + 1
    }
}

/// Subtracting a common reading from both operands does not change a difference, and moving a
/// reading by a difference recovers the other reading.
pub proof fn law_differences_ignore_wrapping(a: int, b: int, shift: int)
    ensures
        centred((a + shift) - (b + shift)) == centred(a - b),
        centred(a - b + 0x1_0000_0000 * shift) == centred(a - b),
        (b + centred(a - b)) % 0x1_0000_0000 == a % 0x1_0000_0000,
{
    let m = (a - b) % 0x1_0000_0000;
    let q = (a - b) / 0x1_0000_0000;
    assert(a - b + 0x1_0000_0000 * shift == 0x1_0000_0000 * (q + shift) + m);
    vstd::arithmetic::div_mod::lemma_fundamental_div_mod_converse(
        a - b + 0x1_0000_0000 * shift,
        0x1_0000_0000,
        q + shift,
        m,
    );
}

/// A difference is the number nearest to zero that agrees with the readings: it lies within half of
/// the counter's span, and a distance that lies there is found as it is.
pub proof fn law_difference_is_nearest_to_zero(x: int)
    ensures
        -0x8000_0000 <= centred(x) < 0x8000_0000,
        (x - centred(x)) % 0x1_0000_0000 == 0,
        -0x8000_0000 <= x < 0x8000_0000 ==> centred(x) == x,
{
}

/// The distance between two readings leads from the one to the other, is the shorter way round, and
/// turns its sign with the direction.
pub proof fn law_distance_leads_from_reading_to_reading(a: u32, b: u32, d: i32, back: i32)
    requires
        call_ensures(tick_delta, (a, b), d),
        call_ensures(tick_delta, (b, a), back),
    ensures
        (b + d - a) % 0x1_0000_0000 == 0,
        -0x8000_0000 <= a - b < 0x8000_0000 ==> d == a - b,
        d > i32::MIN ==> back == -d,
{
}

/// A signed number and its pattern stand for each other, and a magnitude drops the sign.
pub proof fn law_patterns_stand_for_signed_numbers(d: i32, w: u32, back: i32, m: u32)
    requires
        call_ensures(as_pattern, (d,), w),
        call_ensures(as_signed, (w,), back),
        call_ensures(tick_magnitude, (d,), m),
    ensures
        back == d,
        m == d || m == -d,
        (w - d) % 0x1_0000_0000 == 0,
{
}

} // verus!
