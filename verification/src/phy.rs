//! Line coding for 10BASE-T: Manchester symbols, the preamble, and the signals that frame a
//! transmission.
//!
//! The line is played back by a three-instruction serialiser whose instructions *are* the line
//! states: a 2-bit symbol is the address of the next state. One symbol lasts a 50 ns half-bit, so
//! a 10 Mbit/s bit is two symbols. Symbols are consumed least significant first, so the first
//! half-bit on the wire sits in the least significant bits of each word.
//!
//! A `0` bit is HIGH then LOW, a `1` bit is LOW then HIGH, and bits leave a byte least significant
//! first.

use vstd::prelude::*;

verus! {

/// The line is idle.
pub const SYMBOL_IDLE: u32 = 0;

/// Differential low.
pub const SYMBOL_LOW: u32 = 1;

/// Differential high.
pub const SYMBOL_HIGH: u32 = 2;

/// Preamble (seven times `0x55`) and start-frame delimiter (`0xD5`), which precede every frame and
/// are not covered by the FCS.
pub const PREAMBLE_SFD: [u8; 8] = [0x55, 0x55, 0x55, 0x55, 0x55, 0x55, 0x55, 0xD5];

/// End of transmission (TP_IDL): six half-bits of HIGH, then idle. Sent once after the FCS.
pub const TP_IDL_WORD: u32 = 0x0000_0AAA;

/// A normal link pulse: 100 ns of HIGH, then idle.
pub const NLP_WORD: u32 = 0x0000_000A;

/// Interval between link pulses when idle (us).
pub const NLP_INTERVAL_US: u32 = 16_000;

/// Symbol words emitted per frame byte.
pub const WORDS_PER_BYTE: usize = 1;

/// Clock of the serialiser: one instruction per 50 ns half-bit.
pub const PIO_CLOCK_HZ: u32 = 20_000_000;

/// System clock to serialiser clock divider, with 8 fractional bits.
pub fn pio_clock_divider_bits(clk_hz: u32) -> (r: u32)
    ensures
        r == (clk_hz * 256) / 20_000_000,
{
    (clk_hz as u64 * 256 / PIO_CLOCK_HZ as u64) as u32
}

/// The `n`-th symbol of a word, in transmission order.
pub open spec fn symbol(word: u32, n: int) -> u32 {
    (word >> ((2 * n) as u32)) & 3
}

/// Whether bit `k` of a byte is set.
pub open spec fn bit_set(byte: u8, k: u8) -> bool {
    (byte >> k) & 1 == 1
}

/// The two symbols of a bit, first on the wire in the low half.
pub open spec fn bit_nibble(byte: u8, k: u8) -> u32 {
    if bit_set(byte, k) {
        0x9
    } else {
        0x6
    }
}

/// The word that a byte is sent as: one nibble per bit, the least significant first.
pub open spec fn manchester(byte: u8) -> u32 {
    bit_nibble(byte, 0) | (bit_nibble(byte, 1) << 4) | (bit_nibble(byte, 2) << 8) | (bit_nibble(
        byte,
        3,
    ) << 12) | (bit_nibble(byte, 4) << 16) | (bit_nibble(byte, 5) << 20) | (bit_nibble(byte, 6)
        << 24) | (bit_nibble(byte, 7) << 28)
}

/// The nibbles of the first `k` bits of a byte.
spec fn partial_word(byte: u8, k: int) -> u32
    decreases k,
{
    if k <= 0 {
        0
    } else {
        partial_word(byte, k - 1) | (bit_nibble(byte, (k - 1) as u8) << ((4 * (k - 1)) as u32))
    }
}

/// All eight nibbles make up the word.
proof fn lemma_partial_is_whole(byte: u8)
    ensures
        partial_word(byte, 8) == manchester(byte),
{
    reveal_with_fuel(partial_word, 9);
    let n0 = bit_nibble(byte, 0);
    assert((0u32 | (n0 << 0u32)) == n0) by (bit_vector);
}

/// Manchester-encodes one byte into eight half-bit pairs, packed two bits per symbol, least
/// significant first.
pub fn manchester_word(byte: u8) -> (r: u32)
    ensures
        r == manchester(byte),
{
    let mut word: u32 = 0;
    let mut bit: u8 = 0;
    while bit < 8
        invariant
            bit <= 8,
            word == partial_word(byte, bit as int),
        decreases 8 - bit,
    {
        let nibble: u32 = if (byte >> bit) & 1 == 1 {
            0x9
        } else {
            0x6
        };
        word = word | (nibble << (4 * bit as u32));
        bit = bit + 1;
    }
    proof {
        lemma_partial_is_whole(byte);
    }
    word
}

/// Number of symbol words that [`encode_frame`] writes for a frame of `frame_len` bytes.
pub fn encoded_words(frame_len: usize) -> (r: usize)
    requires
        frame_len + 9 <= usize::MAX,
    ensures
        r == frame_len + 9,
{
    8 + frame_len + 1
}

/// The words of a run of bytes.
pub open spec fn words_of(bytes: Seq<u8>) -> Seq<u32> {
    bytes.map_values(|b: u8| manchester(b))
}

/// The words of a whole transmission: preamble, SFD, the frame, then TP_IDL.
pub open spec fn transmission(frame: Seq<u8>) -> Seq<u32> {
    words_of(PREAMBLE_SFD@ + frame).push(TP_IDL_WORD)
}

/// Encodes a complete Ethernet frame, FCS included, into the symbol words that are played back:
/// preamble, SFD, the frame, then TP_IDL.
///
/// Returns the number of words written, or `None` if `out` is too small.
pub fn encode_frame(frame: &[u8], out: &mut [u32]) -> (r: Option<usize>)
    ensures
        r is Some <==> frame@.len() + 9 <= old(out)@.len(),
        r is Some ==> {
            &&& r->0 == frame@.len() + 9
            &&& final(out)@ == transmission(frame@) + old(out)@.skip(r->0 as int)
        },
        r is None ==> final(out)@ == old(out)@,
{
    if out.len() < 9 || out.len() - 9 < frame.len() {
        return None;
    }
    let n: usize = encoded_words(frame.len());
    let ghost start = out@;
    let ghost bytes = PREAMBLE_SFD@ + frame@;
    let ghost line = transmission(frame@);
    assert(line.len() == n);
    let mut i: usize = 0;
    assert(line.take(0) + start.skip(0) =~= start);
    while i < 8
        invariant
            i <= 8,
            n == frame@.len() + 9,
            n <= start.len(),
            bytes == PREAMBLE_SFD@ + frame@,
            line == transmission(frame@),
            line.len() == n,
            out@.len() == start.len(),
            out@ == line.take(i as int) + start.skip(i as int),
        decreases 8 - i,
    {
        out[i] = manchester_word(PREAMBLE_SFD[i]);
        assert(line[i as int] == manchester(bytes[i as int]));
        i = i + 1;
        assert(out@ =~= line.take(i as int) + start.skip(i as int));
    }
    while i < n - 1
        invariant
            8 <= i <= n - 1,
            n == frame@.len() + 9,
            n <= start.len(),
            bytes == PREAMBLE_SFD@ + frame@,
            line == transmission(frame@),
            line.len() == n,
            out@.len() == start.len(),
            out@ == line.take(i as int) + start.skip(i as int),
        decreases n - i,
    {
        out[i] = manchester_word(frame[i - 8]);
        assert(line[i as int] == manchester(bytes[i as int]));
        i = i + 1;
        assert(out@ =~= line.take(i as int) + start.skip(i as int));
    }
    out[i] = TP_IDL_WORD;
    assert(out@ =~= line + start.skip(n as int));
    Some(n)
}

/// The symbols of an encoded byte: each bit is a LOW and a HIGH, in the order that tells its value.
pub proof fn lemma_manchester_symbols(byte: u8, k: u8)
    requires
        k < 8,
    ensures
        symbol(manchester(byte), 2 * k) == (if bit_set(byte, k) {
            SYMBOL_LOW
        } else {
            SYMBOL_HIGH
        }),
        symbol(manchester(byte), 2 * k + 1) == (if bit_set(byte, k) {
            SYMBOL_HIGH
        } else {
            SYMBOL_LOW
        }),
{
    let s0 = (2 * k) as u32;
    let s1 = (2 * k + 1) as u32;
    let w = manchester(byte);
    let first = (2 * s0) as u32;
    let second = (2 * s1) as u32;
    assert((w >> first) & 3 == (if (byte >> k) & 1 == 1 {
        1u32
    } else {
        2u32
    }) && (w >> second) & 3 == (if (byte >> k) & 1 == 1 {
        2u32
    } else {
        1u32
    })) by (bit_vector)
        requires
            k < 8,
            first == 4 * (k as u32),
            second == 4 * (k as u32) + 2,
            w == manchester(byte),
    ;
}

/// Every bit period has a transition in its middle, which is what carries the clock, and no symbol
/// of an encoded byte is idle or outside the serialiser's three states.
pub proof fn law_every_bit_has_a_transition(byte: u8, k: u8)
    requires
        k < 8,
    ensures
        symbol(manchester(byte), 2 * k) != symbol(manchester(byte), 2 * k + 1),
        symbol(manchester(byte), 2 * k) == SYMBOL_LOW || symbol(manchester(byte), 2 * k)
            == SYMBOL_HIGH,
        symbol(manchester(byte), 2 * k + 1) == SYMBOL_LOW || symbol(manchester(byte), 2 * k + 1)
            == SYMBOL_HIGH,
{
    lemma_manchester_symbols(byte, k);
}

/// Symbols leave a word two bits at a time, the lowest first.
pub proof fn law_symbols_leave_lowest_first(word: u32, n: int)
    requires
        0 <= n < 15,
    ensures
        symbol(word, 0) == word % 4,
        symbol(word, n + 1) == symbol(word / 4, n),
{
    let a = (2 * n) as u32;
    let b = (2 * (n + 1)) as u32;
    assert((word >> 0u32) & 3 == word % 4) by (bit_vector);
    assert((word >> b) & 3 == ((word / 4) >> a) & 3) by (bit_vector)
        requires
            a <= 28,
            b == a + 2,
    ;
}

/// A bit is told by its two symbols: a one is low and then high, a zero high and then low, and the
/// lowest bit of a byte goes first.
pub proof fn law_bits_are_told_by_their_transition(byte: u8, k: u8)
    requires
        k < 8,
    ensures
        (byte >> k) & 1 == 1 ==> symbol(manchester(byte), 2 * k) == 1 && symbol(
            manchester(byte),
            2 * k + 1,
        ) == 2,
        (byte >> k) & 1 == 0 ==> symbol(manchester(byte), 2 * k) == 2 && symbol(
            manchester(byte),
            2 * k + 1,
        ) == 1,
{
    lemma_manchester_symbols(byte, k);
}

/// A transmission is seven bytes of preamble, the delimiter, the frame, and six half-bits of high
/// before the line goes idle.
pub proof fn law_transmission_is_framed(frame: Seq<u8>, i: int)
    ensures
        ({
            let w = transmission(frame);
            &&& w.len() == frame.len() + 9
            &&& 0 <= i < 7 ==> w[i] == manchester(0x55)
            &&& w[7] == manchester(0xD5)
            &&& 0 <= i < frame.len() ==> w[i + 8] == manchester(frame[i])
            &&& w.last() == 0xAAA
        }),
{
    assert(PREAMBLE_SFD@ =~= seq![0x55u8, 0x55, 0x55, 0x55, 0x55, 0x55, 0x55, 0xD5]);
    let bytes = PREAMBLE_SFD@ + frame;
    assert(words_of(bytes).len() == frame.len() + 8);
    if 0 <= i < frame.len() {
        assert(bytes[i + 8] == frame[i]);
    }
}

/// The serialiser runs at 20 MHz: the divider, in 1/256, is the system clock over that, rounded
/// down.
pub proof fn law_divider_gives_20_mhz(clk_hz: u32, r: u32)
    requires
        call_ensures(pio_clock_divider_bits, (clk_hz,), r),
    ensures
        20_000_000 * r <= 256 * clk_hz < 20_000_000 * r + 20_000_000,
{
}

} // verus!
