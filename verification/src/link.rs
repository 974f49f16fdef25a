//! What both ends of the Ethernet link have in common: getting a datagram onto the wire, telling
//! when a frame arrived, and holding a frame until the departure that it claims.

use vstd::prelude::*;
use crate::frame::{build_udp_frame, UdpDatagram, UdpFrameSpec};
use crate::phy::encode_frame;
use crate::rx::symbols_of;

verus! {

use crate::arith::in_i64;
use crate::frame::{
    datagram_of, frame_length, has_udp_datagram, law_built_frame_parses_back, law_frame_is_whole,
    MAX_UDP_PAYLOAD,
};
use crate::phy::{transmission, SYMBOL_IDLE};
use crate::rx::{byte_events, decode, law_sent_frame_is_received, line, played, FrameDecoder, RxEvent};
use crate::text::is_digit;
use vstd::string::StringSliceAdditionalSpecFns;

/// Nanoseconds in a second.
pub const SECOND_NS: i64 = 1_000_000_000;

/// Words of one capture: the longest frame on this link with its preamble, two samples to a
/// symbol, and idle line behind it.
pub const CAPTURE_WORDS: usize = 256;

/// How long one capture covers (ns): sixteen samples of 25 ns to a word. A capture starts on the
/// first bit of a frame and is of fixed length, so it ends exactly this long after that bit.
pub const CAPTURE_NS: i64 = 102_400;

/// From the end of a capture to the clock reading taken for it (ns), as measured.
pub const RX_LAG_NS: i64 = 21_400;

/// Largest frame that the receive path holds.
pub const MAX_FRAME: usize = 256;

/// From handing a frame over to its first bit on the pair (ns), as measured.
pub const WIRE_LAG_NS: i64 = 117_800;

/// The port of the time service.
pub const NTP_PORT: u16 = 123;

/// Bytes of an NTP packet.
pub const NTP_PACKET_LEN: usize = 48;

/// The number that a run of decimal digits spells.
pub open spec fn decimal_value(digits: Seq<u8>) -> int
    decreases digits.len(),
{
    if digits.len() == 0 {
        0
    } else {
        10 * decimal_value(digits.drop_last()) + (digits.last() - 0x30)
    }
}

/// Whether a text is a port number in decimal.
pub open spec fn is_port(text: Seq<u8>) -> bool {
    &&& text.len() > 0
    &&& forall|i: int| 0 <= i < text.len() ==> is_digit(#[trigger] text[i])
    &&& decimal_value(text) <= u16::MAX
}

/// A number is at least as large as each of its leading parts.
proof fn lemma_leading_part(digits: Seq<u8>, n: int)
    requires
        0 <= n <= digits.len(),
        forall|i: int| 0 <= i < digits.len() ==> is_digit(#[trigger] digits[i]),
    ensures
        0 <= decimal_value(digits.take(n)) <= decimal_value(digits),
    decreases digits.len(),
{
    if n == digits.len() {
        assert(digits.take(n) =~= digits);
        if n > 0 {
            lemma_leading_part(digits.drop_last(), n - 1);
            assert(is_digit(digits[n - 1]));
        }
    } else {
        let front = digits.drop_last();
        assert forall|i: int| 0 <= i < front.len() implies is_digit(#[trigger] front[i]) by {
            assert(front[i] == digits[i]);
        }
        lemma_leading_part(front, n);
        assert(front.take(n) =~= digits.take(n));
        assert(is_digit(digits[digits.len() - 1]));
    }
}

/// Reads a port number. A text that is empty, holds anything but digits, or spells a number beyond
/// the ports is none: better no firmware than one that talks to the wrong place.
pub fn parse_port(text: &str) -> (r: Option<u16>)
    ensures
        r is Some <==> is_port(text.spec_bytes()),
        r matches Some(p) ==> p == decimal_value(text.spec_bytes()),
{
    let bytes = text.as_bytes();
    if bytes.len() == 0 {
        return None;
    }
    let mut value: u32 = 0;
    let mut i: usize = 0;
    while i < bytes.len()
        invariant
            i <= bytes@.len(),
            bytes@ == text.spec_bytes(),
            bytes@.len() > 0,
            value == decimal_value(bytes@.take(i as int)),
            value <= 65_535,
            forall|j: int| 0 <= j < i ==> is_digit(#[trigger] bytes@[j]),
        decreases bytes@.len() - i,
    {
        let digit: u8 = bytes[i];
        if digit < 0x30 || digit > 0x39 {
            assert(!is_digit(bytes@[i as int]));
            return None;
        }
        assert(bytes@.take(i as int + 1).drop_last() =~= bytes@.take(i as int));
        value = value * 10 + (digit - 0x30) as u32;
        if value > 65_535 {
            proof {
                if is_port(bytes@) {
                    lemma_leading_part(bytes@, i as int + 1);
                }
            }
            return None;
        }
        i = i + 1;
    }
    assert(bytes@.take(i as int) =~= bytes@);
    Some(value as u16)
}

/// Why a frame could not be prepared.
#[derive(Debug, Clone, Copy, PartialEq, Eq, Structural)]
pub enum PrepareError {
    /// The datagram does not fit the frame buffer.
    FrameBuffer,
    /// The frame does not fit the symbol buffer.
    SymbolBuffer,
}

/// A frame ready to be sent.
#[derive(Debug, Clone, Copy, PartialEq, Eq, Structural)]
pub struct Prepared {
    /// Bytes of the frame.
    pub len: usize,
    /// Words of its symbols.
    pub words: usize,
}

/// Whether the frame of a datagram fits a buffer.
pub open spec fn fits_frame(spec: UdpFrameSpec, buffer: Seq<u8>) -> bool {
    frame_length(spec.payload@.len() as int) <= buffer.len() && spec.payload@.len()
        <= MAX_UDP_PAYLOAD
}

/// Whether the symbols of the frame of a datagram fit a buffer.
pub open spec fn fits_symbols(spec: UdpFrameSpec, buffer: Seq<u32>) -> bool {
    frame_length(spec.payload@.len() as int) + 9 <= buffer.len()
}

/// What preparing the frame of a datagram leaves behind: the result `r`, and the two buffers. It
/// fails if and only if a buffer is too short, and names the frame buffer first. A frame that fits
/// its buffer is in it even where its symbols do not fit theirs; otherwise a buffer is left alone.
pub open spec fn prepares(
    spec: UdpFrameSpec,
    frame: Seq<u8>,
    symbols: Seq<u32>,
    r: Result<Prepared, PrepareError>,
    frame_after: Seq<u8>,
    symbols_after: Seq<u32>,
) -> bool {
    let len = frame_length(spec.payload@.len() as int);
    &&& match r {
        Ok(p) => {
            &&& fits_frame(spec, frame) && fits_symbols(spec, symbols)
            &&& p.len == len
            &&& p.words == len + 9
        },
        Err(PrepareError::FrameBuffer) => !fits_frame(spec, frame),
        Err(PrepareError::SymbolBuffer) => fits_frame(spec, frame) && !fits_symbols(spec, symbols),
    }
    &&& frame_after == (if fits_frame(spec, frame) {
        spec.frame() + frame.skip(len)
    } else {
        frame
    })
    &&& symbols_after == (if r is Ok {
        transmission(spec.frame()) + symbols.skip(len + 9)
    } else {
        symbols
    })
}

/// Builds the frame of a datagram and the symbols that go on the pair.
pub fn prepare(spec: &UdpFrameSpec, frame: &mut [u8], symbols: &mut [u32]) -> (r: Result<
    Prepared,
    PrepareError,
>)
    ensures
        prepares(*spec, old(frame)@, old(symbols)@, r, final(frame)@, final(symbols)@),
{
    let len: usize = match build_udp_frame(spec, frame) {
        Some(len) => len,
        None => {
            return Err(PrepareError::FrameBuffer);
        },
    };
    proof {
        law_frame_is_whole(*spec);
    }
    let whole = vstd::slice::slice_subrange(&*frame, 0, len);
    assert(whole@ =~= spec.frame());
    match encode_frame(whole, symbols) {
        Some(words) => Ok(Prepared { len, words }),
        None => Err(PrepareError::SymbolBuffer),
    }
}

/// When the first bit of a captured frame arrived, given the clock reading after the capture (ns).
pub fn arrival_ns(read_ns: i64) -> (r: i64)
    requires
        i64::MIN + CAPTURE_NS + RX_LAG_NS <= read_ns,
    ensures
        r == read_ns - CAPTURE_NS - RX_LAG_NS,
        r == read_ns - 123_800,
{
    read_ns - CAPTURE_NS - RX_LAG_NS
}

/// What is to be done with a frame that claims a departure.
#[derive(Debug, Clone, Copy, PartialEq, Eq, Structural)]
pub struct Hold {
    /// How long there is until it has to be handed over (ns).
    pub slack_ns: i64,
    /// How long to wait before (us), if at all.
    pub wait_us: Option<u64>,
    /// By how much it missed its departure (ns), if it did.
    pub late_ns: Option<i64>,
}

/// How long there is until a frame has to be handed over, if its departure was set `lag_ns` ahead
/// and it took `spent_ns` to prepare: one wire lag less than what is left.
pub open spec fn slack(lag_ns: int, spent_ns: int) -> int {
    lag_ns - WIRE_LAG_NS - spent_ns
}

/// Decides how long to hold a frame. The departure is written into it before it is checksummed and
/// encoded, so it is a claim about a moment that has not come yet; the frame is held until it does.
pub fn hold(lag_ns: i64, spent_ns: i64) -> (h: Hold)
    requires
        in_i64(lag_ns - WIRE_LAG_NS),
        i64::MIN < slack(lag_ns as int, spent_ns as int) <= i64::MAX,
    ensures
        h.slack_ns == slack(lag_ns as int, spent_ns as int),
        h.wait_us == (if h.slack_ns > 0 {
            Some((h.slack_ns / 1000) as u64)
        } else {
            None
        }),
        h.late_ns == (if h.slack_ns > 0 {
            None
        } else {
            Some((-h.slack_ns) as i64)
        }),
        h.slack_ns == lag_ns - spent_ns - 117_800,
        h.wait_us matches Some(us) ==> 1000 * us <= h.slack_ns < 1000 * us + 1000,
        h.wait_us is None <==> h.slack_ns <= 0,
{
    let slack_ns: i64 = lag_ns - WIRE_LAG_NS - spent_ns;
    if slack_ns > 0 {
        Hold { slack_ns, wait_us: Some((slack_ns / 1000) as u64), late_ns: None }
    } else {
        Hold { slack_ns, wait_us: None, late_ns: Some(-slack_ns) }
    }
}

/// Signed distance from a time to the nearest second boundary: positive past it, and half a second
/// at most.
pub open spec fn lateness(utc_ns: int) -> int {
    let into = utc_ns % 1_000_000_000;
    if into > 500_000_000 {
        into - 1_000_000_000
    } else {
        into
    }
}

/// Signed distance from `utc_ns` to the nearest second boundary: positive when it is past one.
pub fn lateness_ns(utc_ns: i64) -> (r: i64)
    ensures
        r == lateness(utc_ns as int),
{
    let rem: i64 = utc_ns % SECOND_NS;
    let into: i64 = if rem < 0 {
        rem + SECOND_NS
    } else {
        rem
    };
    proof {
        lemma_floor_remainder(utc_ns as int, rem as int);
    }
    if into > 500_000_000 {
        into - SECOND_NS
    } else {
        into
    }
}

/// A truncated remainder, moved into range, is the floored one.
proof fn lemma_floor_remainder(x: int, rem: int)
    requires
        rem == crate::arith::trem(x, 1_000_000_000),
    ensures
        x % 1_000_000_000 == (if rem < 0 { rem + 1_000_000_000 } else { rem }),
{
}

/// How long to wait until `at_ns` (us), if it lies ahead.
pub fn wait_until_us(at_ns: i64, now_ns: i64) -> (r: Option<u64>)
    requires
        at_ns > now_ns ==> at_ns - now_ns <= i64::MAX,
    ensures
        r == (if at_ns > now_ns {
            Some(((at_ns - now_ns) / 1000) as u64)
        } else {
            None
        }),
{
    if at_ns > now_ns {
        Some(((at_ns - now_ns) / 1000) as u64)
    } else {
        None
    }
}

/// How many samples of a capture were not idle.
pub open spec fn busy_samples(words: Seq<u32>) -> int
    decreases words.len(),
{
    if words.len() == 0 {
        0
    } else {
        busy_samples(words.drop_last()) + busy_symbols(played(words.last()), 16)
    }
}

/// How many of the first `n` symbols were not idle.
pub open spec fn busy_symbols(symbols: Seq<u32>, n: int) -> int
    decreases n,
{
    if n <= 0 {
        0
    } else {
        busy_symbols(symbols, n - 1) + (if symbols[n - 1] != SYMBOL_IDLE {
            1int
        } else {
            0
        })
    }
}

/// Counts the samples of a capture that were not idle: a link pulse is a handful, a frame is
/// thousands.
pub fn count_busy(words: &[u32]) -> (n: u32)
    requires
        words@.len() <= 0x1000_0000 - 1,
    ensures
        n == busy_samples(words@),
        n <= 16 * words@.len(),
{
    let mut n: u32 = 0;
    let mut i: usize = 0;
    while i < words.len()
        invariant
            i <= words@.len(),
            words@.len() <= 0x1000_0000 - 1,
            n == busy_samples(words@.take(i as int)),
            n <= 16 * i,
        decreases words@.len() - i,
    {
        let symbols = symbols_of(words[i]);
        assert(words@.take(i as int + 1).drop_last() =~= words@.take(i as int));
        let ghost before = n;
        let mut j: usize = 0;
        while j < 16
            invariant
                j <= 16,
                i < words@.len(),
                words@.len() <= 0x1000_0000 - 1,
                before <= 16 * i,
                n == before + busy_symbols(symbols@, j as int),
                n <= before + j,
            decreases 16 - j,
        {
            if symbols[j] != SYMBOL_IDLE {
                n = n + 1;
            }
            j = j + 1;
        }
        i = i + 1;
    }
    assert(words@.take(i as int) =~= words@);
    n
}

/// Whether the event number `n` is worth a line in the log: the first few are, then one in
/// `every`.
pub fn worth_logging(n: u32, first: u32, every: u32) -> (b: bool)
    requires
        every > 0,
    ensures
        b == (n <= first || n % every == 0),
{
    n <= first || n % every == 0
}

/// What is prepared on one side is what is parsed on the other: the symbols of a prepared frame,
/// played with any amount of silence on either side, are decoded as one frame, and that frame,
/// once its check sequence is removed, holds the datagram that was put in.
pub proof fn law_prepared_datagram_arrives(
    spec: UdpFrameSpec,
    before: nat,
    after: nat,
    d: UdpDatagram,
)
    requires
        spec.payload@.len() <= MAX_UDP_PAYLOAD,
    ensures
        ({
            let silence_before = Seq::new(before, |i: int| SYMBOL_IDLE);
            let silence_after = Seq::new(after, |i: int| SYMBOL_IDLE);
            decode(
                FrameDecoder::fresh(),
                silence_before + line(transmission(spec.frame())) + silence_after,
            ) == (
                FrameDecoder::fresh(),
                seq![RxEvent::Start] + byte_events(spec.frame()) + seq![RxEvent::End],
            )
        }),
        spec.frame().take(spec.frame().len() - 4) == spec.body(),
        has_udp_datagram(spec.body()),
        datagram_of(spec.body(), d) ==> d.src_mac.0@ == spec.src_mac.0@ && d.src_ip.0@
            == spec.src_ip.0@ && d.src_port == spec.src_port && d.dst_port == spec.dst_port
            && d.payload@ == spec.payload@,
{
    law_sent_frame_is_received(FrameDecoder::fresh(), spec.frame(), before, after);
    law_built_frame_parses_back(spec, d);
    assert(spec.frame().take(spec.frame().len() - 4) =~= spec.body());
}

/// A held frame leaves when it says: its first bit is on the pair within the microsecond before the
/// departure that it claims, and never after it.
pub proof fn law_held_frame_keeps_its_promise(departure: int, lag_ns: int, spent_ns: int)
    requires
        slack(lag_ns, spent_ns) > 0,
    ensures
        ({
            let built = departure - lag_ns + spent_ns;
            let first_bit = built + 1000 * (slack(lag_ns, spent_ns) / 1000) + WIRE_LAG_NS;
            departure - 1000 < first_bit <= departure
        }),
{
}

/// The nearest second boundary is a whole number of seconds, and no other is nearer.
pub proof fn law_lateness_is_to_the_nearest_second(utc_ns: int, second: int)
    ensures
        (utc_ns - lateness(utc_ns)) % 1_000_000_000 == 0,
        -500_000_000 < lateness(utc_ns) <= 500_000_000,
        crate::arith::magnitude(lateness(utc_ns)) <= crate::arith::magnitude(
            utc_ns - 1_000_000_000 * second,
        ),
{
    let q = utc_ns / 1_000_000_000;
    assert(utc_ns == 1_000_000_000 * q + utc_ns % 1_000_000_000);
}

/// A number is read digit by digit: appending a digit makes ten times the number and that digit.
/// A port is one or more digits that spell a number of 16 bits.
pub proof fn law_decimal_numbers_are_positional(digits: Seq<u8>, d: u8)
    ensures
        decimal_value(Seq::<u8>::empty()) == 0,
        decimal_value(digits.push(d)) == 10 * decimal_value(digits) + (d - 48),
        is_port(digits) ==> digits.len() > 0 && decimal_value(digits) <= 65_535,
        is_port(digits) ==> forall|i: int| 0 <= i < digits.len() ==> 48 <= #[trigger] digits[i] <= 57,
        digits.len() > 0 && decimal_value(digits) <= 65_535 && (forall|i: int|
            0 <= i < digits.len() ==> 48 <= #[trigger] digits[i] <= 57) ==> is_port(digits),
{
    assert(digits.push(d).drop_last() =~= digits);
}

/// How many samples are busy: a capture of two parts has the sum of both, and a word has one for
/// each of its sixteen symbols that is not idle.
pub proof fn law_busy_samples_add_up(a: Seq<u32>, b: Seq<u32>, n: int)
    requires
        n >= 0,
    ensures
        busy_samples(a + b) == busy_samples(a) + busy_samples(b),
        busy_symbols(a, 0) == 0,
        busy_symbols(a, n + 1) == busy_symbols(a, n) + (if a[n] != 0 { 1int } else { 0 }),
        n < b.len() ==> busy_samples(seq![b[n]]) == busy_symbols(played(b[n]), 16),
    decreases b.len(),
{
    if b.len() > 0 {
        law_busy_samples_add_up(a, b.drop_last(), n);
        assert((a + b).drop_last() =~= a + b.drop_last());
    } else {
        assert(a + b =~= a);
    }
    if n < b.len() {
        let one = seq![b[n]];
        assert(one.drop_last() =~= Seq::<u32>::empty());
        assert(busy_samples(Seq::<u32>::empty()) == 0);
        assert(busy_samples(one) == busy_samples(one.drop_last()) + busy_symbols(
            played(one.last()),
            16,
        ));
    }
}

/// What there is to wait is what the departure was set ahead, less what the preparation took and
/// the 117.8 us that a frame takes to the pair.
pub proof fn law_slack_is_what_is_left(lag_ns: int, spent_ns: int, more: int)
    ensures
        slack(lag_ns, spent_ns + more) == slack(lag_ns, spent_ns) - more,
        slack(lag_ns + more, spent_ns) == slack(lag_ns, spent_ns) + more,
        slack(117_800, 0) == 0,
{
}

/// A prepared frame is in its buffer, followed by what was there, and its symbols in theirs; there
/// is room for it if its length, at least 64 bytes and 46 more than its payload, fits the one buffer
/// and nine words more fit the other. A failure says which was too short, the frame buffer first.
pub proof fn law_preparing_needs_room(
    spec: UdpFrameSpec,
    frame: Seq<u8>,
    symbols: Seq<u32>,
    r: Result<Prepared, PrepareError>,
    frame_after: Seq<u8>,
    symbols_after: Seq<u32>,
)
    requires
        prepares(spec, frame, symbols, r, frame_after, symbols_after),
        spec.payload@.len() <= 65_507,
    ensures
        ({
            let n = spec.payload@.len();
            let len: int = if n < 18 { 64 } else { n as int + 46 };
            &&& r is Ok <==> len <= frame.len() && len + 9 <= symbols.len()
            &&& r == Err::<Prepared, _>(PrepareError::FrameBuffer) <==> len > frame.len()
            &&& r matches Ok(p) ==> p.len == len && p.words == len + 9 && frame_after
                == spec.frame() + frame.skip(len) && symbols_after == transmission(spec.frame())
                + symbols.skip(len + 9)
            &&& r is Err ==> symbols_after == symbols
            &&& len > frame.len() ==> frame_after == frame
        }),
{
}

/// The first bit of a frame arrived 123.8 us before the reading taken for it; a later reading means
/// an arrival as much later.
pub proof fn law_arrival_is_before_the_reading(read_ns: i64, r: i64)
    requires
        call_ensures(arrival_ns, (read_ns,), r),
    ensures
        read_ns - r == 102_400 + 21_400,
{
}

/// A frame is either waited for or late, never both: what is waited, in whole microseconds, falls
/// short of the slack by less than one, and what is missed is the slack with its sign turned.
pub proof fn law_hold_waits_or_is_late(lag_ns: i64, spent_ns: i64, h: Hold)
    requires
        call_ensures(hold, (lag_ns, spent_ns), h),
        lag_ns - 117_800 - spent_ns > i64::MIN,
    ensures
        h.slack_ns == lag_ns - 117_800 - spent_ns,
        h.wait_us is Some <==> h.slack_ns > 0,
        h.late_ns is Some <==> h.slack_ns <= 0,
        h.wait_us matches Some(us) ==> 1000 * us <= h.slack_ns < 1000 * us + 1000,
        h.late_ns matches Some(ns) ==> ns == -h.slack_ns,
{
}

/// A wait is only for what lies ahead, and falls short of it by less than a microsecond.
pub proof fn law_wait_never_overshoots(at_ns: i64, now_ns: i64, r: Option<u64>)
    requires
        call_ensures(wait_until_us, (at_ns, now_ns), r),
        in_i64(at_ns - now_ns),
    ensures
        r is Some <==> at_ns > now_ns,
        r matches Some(us) ==> now_ns + 1000 * us <= at_ns < now_ns + 1000 * us + 1000,
{
}

/// How late a time is, is told to the nearest second: it is less than half a second early, and at
/// most half a second late.
pub proof fn law_lateness_is_told(utc_ns: i64, r: i64)
    requires
        call_ensures(lateness_ns, (utc_ns,), r),
    ensures
        (utc_ns - r) % 1_000_000_000 == 0,
        -500_000_000 < r <= 500_000_000,
{
    law_lateness_is_to_the_nearest_second(utc_ns as int, 0);
}

/// The first few events are logged, and then one in every so many.
pub proof fn law_logging_thins_out(n: u32, first: u32, every: u32, b: bool)
    requires
        call_ensures(worth_logging, (n, first, every), b),
        every > 0,
    ensures
        n <= first ==> b,
        n > first ==> (b <==> n % every == 0),
{
}

} // verus!
