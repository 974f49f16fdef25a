//! NTP's two fixed-point time formats (RFC 5905 section 6) and their Unix-nanosecond conversions.
//!
//! Both are unsigned binary fixed-point, big-endian on the wire:
//!
//! - [`NtpTimestamp`], 32.32: seconds since the 1900 prime epoch, plus a 2^-32 s fraction. Used for
//!   the four timestamps in a packet.
//! - [`NtpShort`], 16.16: seconds plus a 2^-16 s fraction. Used for root delay and root dispersion.
//!
//! The conversions round to nearest, so a whole number of nanoseconds survives a round trip
//! exactly (2^-32 s is finer than 1 ns).

use vstd::prelude::*;

verus! {

use crate::arith::{confined, in_i64, magnitude, smaller};

/// Seconds between the NTP prime epoch (1900-01-01) and the Unix epoch (1970-01-01).
pub const NTP_UNIX_OFFSET_SECS: u64 = 2_208_988_800;

/// Nanoseconds per second.
const NANOS_PER_SEC: i64 = 1_000_000_000;

/// Seconds in one NTP era: the 32-bit seconds field wraps every 2^32 s.
const ERA_SECS: i64 = 0x1_0000_0000;

/// Nanoseconds in one NTP era.
const ERA_NANOS: u128 = 4_294_967_296_000_000_000;

/// Nanoseconds in half an NTP era.
const HALF_ERA_NANOS: i128 = 2_147_483_648_000_000_000;

/// NTP seconds (since 1900, not wrapped) of a Unix instant.
pub open spec fn ntp_seconds(unix_ns: int) -> int {
    unix_ns / 1_000_000_000 + NTP_UNIX_OFFSET_SECS
}

/// The wire value nearest to a Unix instant: NTP time in units of 2^-32 s, without the era.
pub open spec fn wire_bits(unix_ns: int) -> int {
    (((unix_ns + NTP_UNIX_OFFSET_SECS * 1_000_000_000) * 0x1_0000_0000 + 500_000_000)
        / 1_000_000_000) % 0x1_0000_0000_0000_0000
}

/// The number of nanoseconds nearest to a fraction of 2^-32 s.
pub open spec fn fraction_nanos(frac: int) -> int {
    (frac * 1_000_000_000 + 0x8000_0000) / 0x1_0000_0000
}

/// The Unix instant (ns) that a wire value stands for in an era.
pub open spec fn instant(bits: int, era: int) -> int {
    (era * 0x1_0000_0000 + bits / 0x1_0000_0000 - NTP_UNIX_OFFSET_SECS) * 1_000_000_000
        + fraction_nanos(bits % 0x1_0000_0000)
}

/// The Unix instant (ns) of a wire value in an era, stopping at the limits of what 64 bits of
/// nanoseconds can express.
pub open spec fn unix_in_era(bits: int, era: int) -> int {
    confined(instant(bits, era), i64::MIN as int, i64::MAX as int)
}

/// Nanoseconds in one NTP era.
pub open spec fn era_nanos() -> int {
    4_294_967_296_000_000_000
}

/// The era that puts a wire value closest to a reference instant, the earlier of two that are
/// equally close: the one whose instant is up to half an era before the reference, or less than
/// half an era after it.
pub open spec fn nearest_era(bits: int, reference_unix_ns: int) -> int {
    -((instant(bits, 0) - reference_unix_ns + era_nanos() / 2) / era_nanos())
}

/// Division rounded down.
fn floor_div(a: i64, b: i64) -> (r: i64)
    requires
        b > 0,
    ensures
        r == (a as int) / (b as int),
{
    let q: i64 = a / b;
    let rem: i64 = a % b;
    proof {
        crate::arith::lemma_tdiv_trem(a as int, b as int);
        crate::arith::lemma_tdiv_bounds(a as int, b as int);
        let (x, y) = (a as int, b as int);
        let (qq, rr) = (crate::arith::tdiv(x, y), crate::arith::trem(x, y));
        assert(rr < 0 ==> x / y == qq - 1) by (nonlinear_arith)
            requires
                x == y * qq + rr,
                -y < rr < y,
        ;
        assert(rr >= 0 ==> x / y == qq) by (nonlinear_arith)
            requires
                x == y * qq + rr,
                -y < rr < y,
        ;
        assert(rr < 0 ==> qq > i64::MIN) by (nonlinear_arith)
            requires
                x == y * qq + rr,
                x >= i64::MIN,
                y >= 1,
                qq >= i64::MIN,
        ;
    }
    if rem < 0 {
        q - 1
    } else {
        q
    }
}

/// The value nearest to `x` that 64 bits can hold.
fn saturate(x: i128) -> (r: i64)
    ensures
        r == confined(x as int, i64::MIN as int, i64::MAX as int),
{
    if x < i64::MIN as i128 {
        i64::MIN
    } else if x > i64::MAX as i128 {
        i64::MAX
    } else {
        x as i64
    }
}

/// NTP 64-bit timestamp: 32 bits of seconds since 1900-01-01, 32 bits of fraction.
///
/// The era is **not** on the wire, so a bare timestamp is ambiguous every 136 years. Decode with
/// [`to_unix_ns_near`](Self::to_unix_ns_near), which resolves it against a roughly known time.
#[derive(Clone, Copy, PartialEq, Eq, Structural, Debug)]
pub struct NtpTimestamp {
    secs: u32,
    frac: u32,
}

impl View for NtpTimestamp {
    type V = int;

    /// The wire value: the time in units of 2^-32 s.
    closed spec fn view(&self) -> int {
        self.secs * 0x1_0000_0000 + self.frac
    }
}

impl NtpTimestamp {
    /// The all-zero timestamp, which means "unspecified".
    pub fn zero() -> (r: Self)
        ensures
            r@ == 0,
    {
        NtpTimestamp { secs: 0, frac: 0 }
    }

    /// From the 64-bit wire value (seconds in the high half, fraction in the low half).
    pub fn from_bits(bits: u64) -> (r: Self)
        ensures
            r@ == bits,
    {
        let secs: u32 = (bits >> 32) as u32;
        let frac: u32 = (bits & 0xffff_ffff) as u32;
        assert(((bits >> 32) as u32) * 0x1_0000_0000 + ((bits & 0xffff_ffff) as u32) == bits)
            by (bit_vector);
        NtpTimestamp { secs, frac }
    }

    /// The 64-bit wire value.
    pub fn to_bits(self) -> (r: u64)
        ensures
            r == self@,
    {
        let secs: u64 = self.secs as u64;
        let frac: u64 = self.frac as u64;
        assert((secs << 32) | frac == secs * 0x1_0000_0000 + frac) by (bit_vector)
            requires
                secs < 0x1_0000_0000,
                frac < 0x1_0000_0000,
        ;
        (secs << 32) | frac
    }

    /// Seconds field (since 1900-01-01, wrapped into the current era).
    pub fn seconds(self) -> (r: u32)
        ensures
            r == self@ / 0x1_0000_0000,
    {
        self.secs
    }

    /// Fraction field, in units of 2^-32 s.
    pub fn fraction(self) -> (r: u32)
        ensures
            r == self@ % 0x1_0000_0000,
    {
        self.frac
    }

    /// Which NTP era a Unix instant falls in (0 = 1900-01-01 to 2036-02-07).
    pub fn era_of_unix_ns(unix_ns: i64) -> (r: i64)
        ensures
            r == ntp_seconds(unix_ns as int) / 0x1_0000_0000,
    {
        let ntp_full: i64 = floor_div(unix_ns, NANOS_PER_SEC) + NTP_UNIX_OFFSET_SECS as i64;
        floor_div(ntp_full, ERA_SECS)
    }

    /// Disciplined UTC (Unix ns) to the nearest wire timestamp. The era is dropped; negative Unix
    /// times floor toward the past, so the fraction is never negative.
    pub fn from_unix_ns(unix_ns: i64) -> (r: Self)
        ensures
            r@ == wire_bits(unix_ns as int),
    {
        let secs_floor: i64 = floor_div(unix_ns, NANOS_PER_SEC);
        let nanos: u64 = (unix_ns as i128 - secs_floor as i128 * 1_000_000_000) as u64;
        let ntp_full: i64 = secs_floor + NTP_UNIX_OFFSET_SECS as i64;
        let era: i64 = floor_div(ntp_full, ERA_SECS);
        let frac: u64 = (nanos * 0x1_0000_0000 + 500_000_000) / 1_000_000_000;
        let secs: u32 = (ntp_full - era * ERA_SECS) as u32;
        proof {
            let x = unix_ns + NTP_UNIX_OFFSET_SECS * 1_000_000_000;
            assert(x == ntp_full * 1_000_000_000 + nanos);
            let v = (x * 0x1_0000_0000 + 500_000_000) / 1_000_000_000;
            assert(v == ntp_full * 0x1_0000_0000 + frac);
            assert(v == era * 0x1_0000_0000_0000_0000 + (secs * 0x1_0000_0000 + frac));
            assert(v % 0x1_0000_0000_0000_0000 == secs * 0x1_0000_0000 + frac);
        }
        NtpTimestamp { secs, frac: frac as u32 }
    }

    /// Wire timestamp to Unix ns, given the era it belongs to. Saturates for eras far beyond what
    /// 64 bits of nanoseconds can express (year 2262).
    pub fn to_unix_ns_in_era(self, era: i64) -> (r: i64)
        ensures
            r == unix_in_era(self@, era as int),
    {
        assert(self@ / 0x1_0000_0000 == self.secs && self@ % 0x1_0000_0000 == self.frac);
        let unix_secs: i128 = era as i128 * 0x1_0000_0000 + self.secs as i128
            - NTP_UNIX_OFFSET_SECS as i128;
        saturate(unix_secs * 1_000_000_000 + self.nanos() as i128)
    }

    /// The fraction in nanoseconds, rounded to nearest.
    fn nanos(self) -> (r: u64)
        ensures
            r == fraction_nanos(self@ % 0x1_0000_0000),
            r <= 1_000_000_000,
    {
        assert(self@ % 0x1_0000_0000 == self.frac);
        ((self.frac as u64) * 1_000_000_000 + 0x8000_0000) / 0x1_0000_0000
    }

    /// Wire timestamp to Unix ns, in the era that puts the result closest to
    /// `reference_unix_ns`.
    pub fn to_unix_ns_near(self, reference_unix_ns: i64) -> (r: i64)
        ensures
            r == unix_in_era(self@, nearest_era(self@, reference_unix_ns as int)),
    {
        assert(self@ / 0x1_0000_0000 == self.secs && self@ % 0x1_0000_0000 == self.frac);
        let first: i128 = (self.secs as i128 - NTP_UNIX_OFFSET_SECS as i128) * 1_000_000_000
            + self.nanos() as i128;
        // Half an era further on, and four eras more, which keeps it positive.
        let ahead: u128 = (first - reference_unix_ns as i128 + 9 * HALF_ERA_NANOS) as u128;
        let era: i64 = 4 - (ahead / ERA_NANOS) as i64;
        self.to_unix_ns_in_era(era)
    }
}

/// The 16.16 value nearest to a number of nanoseconds, stopping at the largest one.
pub open spec fn short_bits(nanos: int) -> int {
    smaller((nanos * 65536 + 500_000_000) / 1_000_000_000, u32::MAX as int)
}

/// The number of nanoseconds nearest to a 16.16 value.
pub open spec fn short_nanos(bits: int) -> int {
    (bits * 1_000_000_000 + 32768) / 65536
}

/// NTP 32-bit "short" format: 16 bits of seconds, 16 bits of fraction (2^-16 s).
#[derive(Clone, Copy, PartialEq, Eq, Structural, Debug)]
pub struct NtpShort(u32);

impl View for NtpShort {
    type V = int;

    /// The wire value: the time in units of 2^-16 s.
    closed spec fn view(&self) -> int {
        self.0 as int
    }
}

impl NtpShort {
    /// The all-zero value.
    pub fn zero() -> (r: Self)
        ensures
            r@ == 0,
    {
        NtpShort(0)
    }

    /// From the 32-bit wire value.
    pub fn from_bits(bits: u32) -> (r: Self)
        ensures
            r@ == bits,
    {
        NtpShort(bits)
    }

    /// The 32-bit wire value.
    pub fn to_bits(self) -> (r: u32)
        ensures
            r == self@,
    {
        self.0
    }

    /// Nanoseconds to 16.16, rounding to nearest and **saturating** at the 65536 s ceiling: root
    /// dispersion grows without bound during a long holdover, and wrapping would advertise a
    /// better clock than there is.
    pub fn from_nanos(nanos: u64) -> (r: Self)
        ensures
            r@ == short_bits(nanos as int),
    {
        let secs: u64 = nanos / 1_000_000_000;
        if secs > u16::MAX as u64 {
            return NtpShort(u32::MAX);
        }
        let rem: u64 = nanos % 1_000_000_000;
        let frac: u64 = (rem * 65536 + 500_000_000) / 1_000_000_000;
        let bits: u64 = secs * 65536 + frac;
        assert(bits == (nanos * 65536 + 500_000_000) / 1_000_000_000);
        if bits > u32::MAX as u64 {
            NtpShort(u32::MAX)
        } else {
            NtpShort(bits as u32)
        }
    }

    /// 16.16 to nanoseconds, rounding to nearest.
    pub fn to_nanos(self) -> (r: u64)
        ensures
            r == short_nanos(self@),
    {
        let secs: u64 = (self.0 / 65536) as u64;
        let frac: u64 = (self.0 % 65536) as u64;
        secs * 1_000_000_000 + (frac * 1_000_000_000 + 32768) / 65536
    }
}

/// A fraction of 2^-32 s made from a whole number of nanoseconds gives those nanoseconds back.
proof fn lemma_fraction_round_trips(nanos: int)
    requires
        0 <= nanos < 1_000_000_000,
    ensures
        ({
            let frac = (nanos * 0x1_0000_0000 + 500_000_000) / 1_000_000_000;
            0 <= frac < 0x1_0000_0000 && fraction_nanos(frac) == nanos
        }),
{
}

/// The wire value of an instant, taken apart into era, seconds and fraction.
proof fn lemma_wire_parts(unix_ns: int)
    ensures
        ({
            let full = ntp_seconds(unix_ns);
            let nanos = unix_ns % 1_000_000_000;
            let frac = (nanos * 0x1_0000_0000 + 500_000_000) / 1_000_000_000;
            &&& 0 <= frac < 0x1_0000_0000
            &&& wire_bits(unix_ns) == (full % 0x1_0000_0000) * 0x1_0000_0000 + frac
            &&& wire_bits(unix_ns) / 0x1_0000_0000 == full % 0x1_0000_0000
            &&& wire_bits(unix_ns) % 0x1_0000_0000 == frac
        }),
{
    let full = ntp_seconds(unix_ns);
    let nanos = unix_ns % 1_000_000_000;
    let frac = (nanos * 0x1_0000_0000 + 500_000_000) / 1_000_000_000;
    let x = unix_ns + NTP_UNIX_OFFSET_SECS * 1_000_000_000;
    assert(x == full * 1_000_000_000 + nanos);
    let v = (x * 0x1_0000_0000 + 500_000_000) / 1_000_000_000;
    assert(v == full * 0x1_0000_0000 + frac);
    let era = full / 0x1_0000_0000;
    let secs = full % 0x1_0000_0000;
    assert(v == era * 0x1_0000_0000_0000_0000 + (secs * 0x1_0000_0000 + frac));
}

/// The wire value of an instant stands for exactly that instant in the instant's own era.
proof fn lemma_own_era(unix_ns: int)
    ensures
        instant(wire_bits(unix_ns), ntp_seconds(unix_ns) / 0x1_0000_0000) == unix_ns,
{
    lemma_wire_parts(unix_ns);
    lemma_fraction_round_trips(unix_ns % 1_000_000_000);
    let full = ntp_seconds(unix_ns);
    assert((full / 0x1_0000_0000) * 0x1_0000_0000 + full % 0x1_0000_0000 == full);
}

/// A whole number of nanoseconds survives the round trip over the wire exactly, in its own era.
pub proof fn law_nanoseconds_round_trip(unix_ns: i64)
    ensures
        unix_in_era(
            wire_bits(unix_ns as int),
            ntp_seconds(unix_ns as int) / 0x1_0000_0000,
        ) == unix_ns,
{
    lemma_own_era(unix_ns as int);
}

/// A receiver whose own clock is within 2^31 s (68 years) of the sender's reads the sender's
/// instant exactly, although the era is not on the wire.
pub proof fn law_nearest_era_recovers_instant(unix_ns: i64, reference_unix_ns: i64)
    requires
        magnitude(unix_ns - reference_unix_ns) < 0x8000_0000 * 1_000_000_000,
    ensures
        ({
            let bits = wire_bits(unix_ns as int);
            unix_in_era(bits, nearest_era(bits, reference_unix_ns as int)) == unix_ns
        }),
{
    lemma_own_era(unix_ns as int);
}

/// The chosen era puts the timestamp's instant at most half an era from the reference, and no other
/// era puts it closer. So neither does the result of any other era, unless that era's instant is one
/// that 64 bits of nanoseconds cannot express.
pub proof fn law_nearest_era_is_nearest(bits: int, reference_unix_ns: i64, era: int)
    ensures
        ({
            let chosen = nearest_era(bits, reference_unix_ns as int);
            &&& magnitude(instant(bits, chosen) - reference_unix_ns) <= era_nanos() / 2
            &&& magnitude(instant(bits, chosen) - reference_unix_ns) <= magnitude(
                instant(bits, era) - reference_unix_ns,
            )
            &&& in_i64(instant(bits, era)) ==> magnitude(
                unix_in_era(bits, chosen) - reference_unix_ns,
            ) <= magnitude(unix_in_era(bits, era) - reference_unix_ns)
        }),
{
}

/// Every era that lies wholly outside what 64 bits of nanoseconds can express gives the limit on
/// its side.
pub proof fn law_far_eras_saturate(bits: int, era: i64)
    requires
        0 <= bits < 0x1_0000_0000_0000_0000,
    ensures
        era >= 3 ==> unix_in_era(bits, era as int) == i64::MAX,
        era <= -3 ==> unix_in_era(bits, era as int) == i64::MIN,
{
}

/// The 16.16 format gives each of its values back after a trip through nanoseconds.
pub proof fn law_short_round_trips(bits: u32)
    ensures
        short_bits(short_nanos(bits as int)) == bits,
{
}

/// More nanoseconds never become a smaller 16.16 value: a longer holdover never advertises a
/// better clock.
pub proof fn law_short_is_monotone(a: int, b: int)
    requires
        0 <= a <= b,
    ensures
        short_bits(a) <= short_bits(b),
{
}

/// The wire value of an instant is the nearest there is: in the era `era` of the instant, counted in
/// spans of 2^32 s from 1900, it differs from the instant by at most half a unit of 2^-32 s.
pub proof fn law_wire_value_is_nearest(unix_ns: i64, era: int)
    requires
        era * 0x1_0000_0000 * 1_000_000_000 <= unix_ns + 2_208_988_800 * 1_000_000_000 < (era + 1)
            * 0x1_0000_0000 * 1_000_000_000,
    ensures
        ({
            let bits = wire_bits(unix_ns as int);
            &&& 0 <= bits < 0x1_0000_0000_0000_0000
            &&& -500_000_000 <= (bits + era * 0x1_0000_0000_0000_0000) * 1_000_000_000 - (unix_ns
                + 2_208_988_800 * 1_000_000_000) * 0x1_0000_0000 <= 500_000_000
        }),
        ntp_seconds(unix_ns as int) / 0x1_0000_0000 == era,
{
    lemma_wire_parts(unix_ns as int);
    let full = ntp_seconds(unix_ns as int);
    assert(full / 0x1_0000_0000 == era);
    assert(full == era * 0x1_0000_0000 + full % 0x1_0000_0000);
}

/// The instant of a wire value is the nearest number of nanoseconds: it differs from the wire value,
/// counted from 1900 with the eras before it, by at most half a nanosecond.
pub proof fn law_instant_is_nearest(bits: int, era: int)
    requires
        0 <= bits < 0x1_0000_0000_0000_0000,
    ensures
        -0x8000_0000 <= (instant(bits, era) + 2_208_988_800 * 1_000_000_000) * 0x1_0000_0000 - (bits
            + era * 0x1_0000_0000_0000_0000) * 1_000_000_000 <= 0x8000_0000,
        in_i64(instant(bits, era)) ==> unix_in_era(bits, era) == instant(bits, era),
        instant(bits, era + 1) - instant(bits, era) == 4_294_967_296_000_000_000,
{
}

/// The 16.16 value of a number of nanoseconds is the nearest there is, up to the largest one.
pub proof fn law_short_is_nearest(nanos: u64)
    ensures
        ({
            let bits = short_bits(nanos as int);
            &&& 0 <= bits <= u32::MAX
            &&& bits * 1_000_000_000 - nanos * 65536 <= 500_000_000
            &&& bits < u32::MAX ==> nanos * 65536 - bits * 1_000_000_000 < 500_000_000
        }),
{
}

/// The nanoseconds of a 16.16 value are the nearest whole number of them.
pub proof fn law_short_nanos_are_nearest(bits: u32)
    ensures
        -32768 <= short_nanos(bits as int) * 65536 - bits * 1_000_000_000 <= 32768,
{
}

/// A timestamp that is sent and read back near its own time is the same instant, and its fields are
/// the seconds since 1900, without the era, and the fraction.
pub proof fn law_sent_timestamp_reads_back(
    unix_ns: i64,
    t: NtpTimestamp,
    reference_unix_ns: i64,
    back: i64,
    secs: u32,
)
    requires
        call_ensures(NtpTimestamp::from_unix_ns, (unix_ns,), t),
        call_ensures(NtpTimestamp::to_unix_ns_near, (t, reference_unix_ns), back),
        call_ensures(NtpTimestamp::seconds, (t,), secs),
        -2_147_483_648_000_000_000 < unix_ns - reference_unix_ns < 2_147_483_648_000_000_000,
    ensures
        back == unix_ns,
        (secs - 2_208_988_800 - (unix_ns as int) / 1_000_000_000) % 0x1_0000_0000 == 0,
{
    law_nearest_era_recovers_instant(unix_ns, reference_unix_ns);
    lemma_wire_parts(unix_ns as int);
}

/// A short that is made of nanoseconds and read back is off by at most half of its unit, up to its
/// ceiling.
pub proof fn law_short_reads_back_within_half_a_unit(nanos: u64, s: NtpShort, back: u64)
    requires
        call_ensures(NtpShort::from_nanos, (nanos,), s),
        call_ensures(NtpShort::to_nanos, (s,), back),
        nanos < 65_535_000_000_000,
    ensures
        -7_630 <= back - nanos <= 7_630,
{
}

} // verus!
