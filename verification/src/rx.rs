//! Turning the line back into bytes.
//!
//! What arrives is a stream of the three line states, one every 50 ns at 10 Mbit/s. The clock is
//! not recovered here: each symbol is taken to be one symbol period on the line. Alignment comes
//! from the frame itself: the first non-idle symbol after silence is the first half of the first
//! bit. Where the coding stops making sense, the alignment is gone until there is silence again.

use vstd::prelude::*;
use crate::phy::{SYMBOL_HIGH, SYMBOL_IDLE, SYMBOL_LOW};

verus! {

use crate::phy::{bit_set, manchester, symbol, transmission, words_of, PREAMBLE_SFD, TP_IDL_WORD};

/// Start of Frame Delimiter. The preamble alternates; this is where it stops.
pub const SFD: u8 = 0xD5;

/// What one symbol did to the decoder.
#[derive(Clone, Copy, PartialEq, Eq, Structural, Debug)]
pub enum RxEvent {
    /// Nothing completed.
    Nothing,
    /// The SFD went by: what follows is the frame.
    Start,
    /// One byte of the frame, in the order it arrived.
    Byte(u8),
    /// The line went idle. Everything between [`RxEvent::Start`] and here was the frame.
    End,
}

/// Where the decoder is in a frame.
#[derive(Clone, Copy, PartialEq, Eq, Structural, Debug)]
pub enum State {
    /// Waiting for the line to leave idle.
    Idle,
    /// Reading bits, looking for the SFD in the last eight of them.
    Hunting,
    /// Past the SFD: every eight bits is a byte.
    Framing,
    /// Waiting for the line to go idle: what it carries until then is not aligned to anything.
    Adrift,
}

/// Decodes the line one symbol at a time.
///
/// Feed it every symbol, including the idle ones: leaving idle is how it learns where a bit begins,
/// and returning to idle is how it learns that the frame ended.
#[derive(Clone, Copy, Debug)]
pub struct FrameDecoder {
    /// Where in a frame the decoder is.
    pub state: State,
    /// The first half of the bit being read, if a half is outstanding.
    pub pending: Option<u32>,
    /// The last eight bits, newest in the high bit.
    pub window: u8,
    /// The bits collected into the byte being assembled, newest in the high bit.
    pub byte: u8,
    /// How many bits have been collected.
    pub bits: u8,
}

/// A bit shifted into a register whose newest bit is the highest.
pub open spec fn shift_in(register: u8, bit: u8) -> u8 {
    (register >> 1) | (bit << 7)
}

impl FrameDecoder {
    /// The state of a decoder that waits for the line to leave idle.
    pub open spec fn fresh() -> FrameDecoder {
        FrameDecoder { state: State::Idle, pending: None, window: 0, byte: 0, bits: 0 }
    }

    /// The state of a decoder that waits for the line to go idle first.
    pub open spec fn adrift() -> FrameDecoder {
        FrameDecoder { state: State::Adrift, ..FrameDecoder::fresh() }
    }

    /// A byte being assembled is not complete.
    pub open spec fn wf(self) -> bool {
        self.bits < 8
    }

    /// What is reported where nothing more can follow: the end of a frame, if there was one.
    pub open spec fn closing(self) -> RxEvent {
        if self.state is Framing {
            RxEvent::End
        } else {
            RxEvent::Nothing
        }
    }

    /// One decoded bit.
    pub open spec fn absorbed(self, bit: u8) -> (FrameDecoder, RxEvent) {
        match self.state {
            State::Idle | State::Adrift => (self, RxEvent::Nothing),
            State::Hunting => {
                let window = shift_in(self.window, bit);
                if window == SFD {
                    (
                        FrameDecoder { state: State::Framing, window, byte: 0, bits: 0, ..self },
                        RxEvent::Start,
                    )
                } else {
                    (FrameDecoder { window, ..self }, RxEvent::Nothing)
                }
            },
            State::Framing => {
                let byte = shift_in(self.byte, bit);
                if self.bits == 7 {
                    (FrameDecoder { byte: 0, bits: 0, ..self }, RxEvent::Byte(byte))
                } else {
                    (FrameDecoder { byte, bits: (self.bits + 1) as u8, ..self }, RxEvent::Nothing)
                }
            },
        }
    }

    /// The state and the event after a symbol. Two half-bits make a bit: HIGH then LOW is 0, LOW
    /// then HIGH is 1, and any other pair ends the frame and leaves the decoder adrift: the next
    /// frame can only begin after silence.
    pub open spec fn next(self, sym: u32) -> (FrameDecoder, RxEvent) {
        if sym == SYMBOL_IDLE {
            (FrameDecoder::fresh(), self.closing())
        } else if self.state is Adrift {
            (self, RxEvent::Nothing)
        } else if self.state is Idle {
            (
                FrameDecoder { state: State::Hunting, pending: Some(sym), ..self },
                RxEvent::Nothing,
            )
        } else {
            match self.pending {
                None => (FrameDecoder { pending: Some(sym), ..self }, RxEvent::Nothing),
                Some(first) => {
                    let taken = FrameDecoder { pending: None, ..self };
                    if first == SYMBOL_HIGH && sym == SYMBOL_LOW {
                        taken.absorbed(0)
                    } else if first == SYMBOL_LOW && sym == SYMBOL_HIGH {
                        taken.absorbed(1)
                    } else {
                        (FrameDecoder::adrift(), self.closing())
                    }
                },
            }
        }
    }

    /// Creates a decoder that waits for the line to leave idle.
    pub fn new() -> (r: Self)
        ensures
            r == FrameDecoder::fresh(),
            r.wf(),
    {
        FrameDecoder { state: State::Idle, pending: None, window: 0, byte: 0, bits: 0 }
    }

    /// Forgets everything and waits for the line to go idle again.
    pub fn reset(&mut self)
        ensures
            *final(self) == FrameDecoder::adrift(),
            final(self).wf(),
    {
        *self = FrameDecoder { state: State::Adrift, ..FrameDecoder::new() };
    }

    /// Feeds one symbol.
    pub fn push(&mut self, symbol: u32) -> (r: RxEvent)
        requires
            old(self).wf(),
        ensures
            (*final(self), r) == old(self).next(symbol),
            final(self).wf(),
    {
        let closing = self.close();
        if symbol == SYMBOL_IDLE {
            *self = FrameDecoder::new();
            return closing;
        }
        if self.state == State::Adrift {
            return RxEvent::Nothing;
        }
        if self.state == State::Idle {
            self.state = State::Hunting;
            self.pending = Some(symbol);
            return RxEvent::Nothing;
        }
        match self.pending {
            None => {
                self.pending = Some(symbol);
                RxEvent::Nothing
            },
            Some(first) => {
                self.pending = None;
                if first == SYMBOL_HIGH && symbol == SYMBOL_LOW {
                    self.absorb(0)
                } else if first == SYMBOL_LOW && symbol == SYMBOL_HIGH {
                    self.absorb(1)
                } else {
                    self.reset();
                    closing
                }
            },
        }
    }

    /// What to report where nothing more can follow.
    fn close(&self) -> (r: RxEvent)
        ensures
            r == self.closing(),
    {
        if self.state == State::Framing {
            RxEvent::End
        } else {
            RxEvent::Nothing
        }
    }

    /// Takes in one decoded bit. Bits arrive least significant first.
    fn absorb(&mut self, bit: u8) -> (r: RxEvent)
        requires
            old(self).wf(),
            bit <= 1,
        ensures
            (*final(self), r) == old(self).absorbed(bit),
            final(self).wf(),
    {
        match self.state {
            State::Idle | State::Adrift => RxEvent::Nothing,
            State::Hunting => {
                self.window = (self.window >> 1) | (bit << 7);
                if self.window == SFD {
                    self.state = State::Framing;
                    self.byte = 0;
                    self.bits = 0;
                    RxEvent::Start
                } else {
                    RxEvent::Nothing
                }
            },
            State::Framing => {
                self.byte = (self.byte >> 1) | (bit << 7);
                self.bits = self.bits + 1;
                if self.bits == 8 {
                    let done: u8 = self.byte;
                    self.byte = 0;
                    self.bits = 0;
                    RxEvent::Byte(done)
                } else {
                    RxEvent::Nothing
                }
            },
        }
    }
}

impl Default for FrameDecoder {
    fn default() -> (r: Self)
        ensures
            r == FrameDecoder::fresh(),
            r.wf(),
    {
        FrameDecoder::new()
    }
}

/// The symbols that a word plays out as.
pub open spec fn played(word: u32) -> Seq<u32> {
    Seq::new(16, |i: int| symbol(word, i))
}

/// Expands a word back into the symbols it plays out as: the symbol that leaves first is the low
/// two bits of the word.
pub fn symbols_of(word: u32) -> (r: [u32; 16])
    ensures
        r@ == played(word),
{
    let mut out: [u32; 16] = [0; 16];
    let mut i: usize = 0;
    while i < 16
        invariant
            i <= 16,
            forall|j: int| 0 <= j < i ==> out@[j] == symbol(word, j),
        decreases 16 - i,
    {
        out[i] = (word >> (2 * i as u32)) & 3;
        i = i + 1;
    }
    assert(out@ =~= played(word));
    out
}

/// The symbols that a run of words plays out as.
pub open spec fn line(words: Seq<u32>) -> Seq<u32>
    decreases words.len(),
{
    if words.len() == 0 {
        Seq::empty()
    } else {
        line(words.drop_last()) + played(words.last())
    }
}

/// The state after a run of symbols, and the events along the way other than `Nothing`.
pub open spec fn decode(s: FrameDecoder, symbols: Seq<u32>) -> (FrameDecoder, Seq<RxEvent>)
    decreases symbols.len(),
{
    if symbols.len() == 0 {
        (s, Seq::empty())
    } else {
        let (before, events) = decode(s, symbols.drop_last());
        let (after, event) = before.next(symbols.last());
        (
            after,
            if event is Nothing {
                events
            } else {
                events.push(event)
            },
        )
    }
}

/// Decoding a run and then another is decoding both.
proof fn lemma_decode_concat(s: FrameDecoder, a: Seq<u32>, b: Seq<u32>)
    ensures
        ({
            let (mid, first) = decode(s, a);
            let (end, second) = decode(mid, b);
            decode(s, a + b) == (end, first + second)
        }),
    decreases b.len(),
{
    let (mid, first) = decode(s, a);
    if b.len() == 0 {
        assert(a + b =~= a);
        assert(first + Seq::<RxEvent>::empty() =~= first);
    } else {
        lemma_decode_concat(s, a, b.drop_last());
        assert((a + b).drop_last() =~= a + b.drop_last());
        let (before, second) = decode(mid, b.drop_last());
        let (after, event) = before.next(b.last());
        assert((first + second).push(event) =~= first + second.push(event));
    }
}

/// The line of two runs of words is their lines one after the other.
proof fn lemma_line_concat(a: Seq<u32>, b: Seq<u32>)
    ensures
        line(a + b) == line(a) + line(b),
    decreases b.len(),
{
    if b.len() == 0 {
        assert(a + b =~= a);
        assert(line(a) + Seq::<u32>::empty() =~= line(a));
    } else {
        lemma_line_concat(a, b.drop_last());
        assert((a + b).drop_last() =~= a + b.drop_last());
        assert((line(a) + line(b.drop_last())) + played(b.last()) =~= line(a) + (line(
            b.drop_last(),
        ) + played(b.last())));
    }
}

/// The value of bit `k` of a byte.
spec fn bit_of(b: u8, k: int) -> u8 {
    if bit_set(b, k as u8) {
        1
    } else {
        0
    }
}

/// A register after the first `k` bits of a byte have been shifted in.
spec fn shifted(register: u8, b: u8, k: int) -> u8
    decreases k,
{
    if k <= 0 {
        register
    } else {
        shift_in(shifted(register, b, k - 1), bit_of(b, k - 1))
    }
}

/// Eight bits shifted in leave the byte, whatever was in the register.
proof fn lemma_shifted_whole(register: u8, b: u8)
    ensures
        shifted(register, b, 8) == b,
{
    reveal_with_fuel(shifted, 9);
    let (b0, b1, b2, b3, b4, b5, b6, b7) = (
        bit_of(b, 0),
        bit_of(b, 1),
        bit_of(b, 2),
        bit_of(b, 3),
        bit_of(b, 4),
        bit_of(b, 5),
        bit_of(b, 6),
        bit_of(b, 7),
    );
    assert(b0 == (b >> 0u8) & 1 && b1 == (b >> 1u8) & 1 && b2 == (b >> 2u8) & 1 && b3 == (b >> 3u8)
        & 1 && b4 == (b >> 4u8) & 1 && b5 == (b >> 5u8) & 1 && b6 == (b >> 6u8) & 1 && b7 == (b
        >> 7u8) & 1) by {
        lemma_bit_is_01(b, 0);
        lemma_bit_is_01(b, 1);
        lemma_bit_is_01(b, 2);
        lemma_bit_is_01(b, 3);
        lemma_bit_is_01(b, 4);
        lemma_bit_is_01(b, 5);
        lemma_bit_is_01(b, 6);
        lemma_bit_is_01(b, 7);
    }
    assert(shift_in(
        shift_in(
            shift_in(
                shift_in(
                    shift_in(shift_in(shift_in(shift_in(register, b0), b1), b2), b3),
                    b4,
                ),
                b5,
            ),
            b6,
        ),
        b7,
    ) == b) by (bit_vector)
        requires
            b0 == (b >> 0u8) & 1,
            b1 == (b >> 1u8) & 1,
            b2 == (b >> 2u8) & 1,
            b3 == (b >> 3u8) & 1,
            b4 == (b >> 4u8) & 1,
            b5 == (b >> 5u8) & 1,
            b6 == (b >> 6u8) & 1,
            b7 == (b >> 7u8) & 1,
    ;
}

/// A bit is 0 or 1.
proof fn lemma_bit_is_01(b: u8, k: u8)
    ensures
        (b >> k) & 1 == 0 || (b >> k) & 1 == 1,
{
    let x = b >> k;
    assert(x & 1 == 0 || x & 1 == 1) by (bit_vector);
}

/// Between bits, the two symbols of bit `k` of an encoded byte are decoded as that bit.
proof fn lemma_decode_bit(s: FrameDecoder, b: u8, k: int)
    requires
        0 <= k < 8,
        s.state is Hunting || s.state is Framing,
        s.pending is None,
    ensures
        ({
            let w = played(manchester(b));
            let (after, event) = s.absorbed(bit_of(b, k));
            decode(s, seq![w[2 * k], w[2 * k + 1]]) == (
                after,
                if event is Nothing {
                    Seq::<RxEvent>::empty()
                } else {
                    seq![event]
                },
            )
        }),
{
    crate::phy::lemma_manchester_symbols(b, k as u8);
    let w = played(manchester(b));
    let pair = seq![w[2 * k], w[2 * k + 1]];
    assert(pair.drop_last() =~= seq![w[2 * k]]);
    assert(seq![w[2 * k]].drop_last() =~= Seq::<u32>::empty());
    reveal_with_fuel(decode, 3);
    let half = FrameDecoder { pending: Some(w[2 * k]), ..s };
    assert(decode(s, seq![w[2 * k]]) == (half, Seq::<RxEvent>::empty()));
    let (after, event) = s.absorbed(bit_of(b, k));
    assert(half.next(w[2 * k + 1]) == (after, event));
    assert(Seq::<RxEvent>::empty().push(event) =~= seq![event]);
}

/// The decoder inside a frame, between bytes.
spec fn between_bytes(window: u8) -> FrameDecoder {
    FrameDecoder { state: State::Framing, pending: None, window, byte: 0, bits: 0 }
}

/// Inside a frame, the first bits of a byte are collected.
proof fn lemma_collect_bits(window: u8, b: u8, k: int)
    requires
        0 <= k < 8,
    ensures
        decode(between_bytes(window), played(manchester(b)).take(2 * k)) == (
            FrameDecoder { byte: shifted(0, b, k), bits: k as u8, ..between_bytes(window) },
            Seq::<RxEvent>::empty(),
        ),
    decreases k,
{
    let w = played(manchester(b));
    if k == 0 {
        assert(w.take(0) =~= Seq::empty());
    } else {
        lemma_collect_bits(window, b, k - 1);
        let s = FrameDecoder {
            byte: shifted(0, b, k - 1),
            bits: (k - 1) as u8,
            ..between_bytes(window)
        };
        lemma_decode_bit(s, b, k - 1);
        let pair = seq![w[2 * (k - 1)], w[2 * (k - 1) + 1]];
        lemma_decode_concat(between_bytes(window), w.take(2 * (k - 1)), pair);
        assert(w.take(2 * k) =~= w.take(2 * (k - 1)) + pair);
        assert(Seq::<RxEvent>::empty() + Seq::<RxEvent>::empty() =~= Seq::<RxEvent>::empty());
    }
}

/// Inside a frame, an encoded byte is decoded as that byte.
proof fn lemma_decode_byte(window: u8, b: u8)
    ensures
        decode(between_bytes(window), played(manchester(b))) == (
            between_bytes(window),
            seq![RxEvent::Byte(b)],
        ),
{
    let w = played(manchester(b));
    lemma_collect_bits(window, b, 7);
    let s = FrameDecoder { byte: shifted(0, b, 7), bits: 7, ..between_bytes(window) };
    lemma_decode_bit(s, b, 7);
    lemma_shifted_whole(0, b);
    let pair = seq![w[14], w[15]];
    lemma_decode_concat(between_bytes(window), w.take(14), pair);
    assert(w =~= w.take(14) + pair);
    assert(Seq::<RxEvent>::empty() + seq![RxEvent::Byte(b)] =~= seq![RxEvent::Byte(b)]);
}

/// The events of a run of bytes.
pub open spec fn byte_events(bytes: Seq<u8>) -> Seq<RxEvent> {
    bytes.map_values(|b: u8| RxEvent::Byte(b))
}

/// Inside a frame, encoded bytes are decoded as those bytes.
proof fn lemma_decode_bytes(window: u8, bytes: Seq<u8>)
    ensures
        decode(between_bytes(window), line(words_of(bytes))) == (
            between_bytes(window),
            byte_events(bytes),
        ),
    decreases bytes.len(),
{
    let words = words_of(bytes);
    if bytes.len() == 0 {
        assert(byte_events(bytes) =~= Seq::<RxEvent>::empty());
    } else {
        lemma_decode_bytes(window, bytes.drop_last());
        assert(words.drop_last() =~= words_of(bytes.drop_last()));
        lemma_decode_byte(window, bytes.last());
        lemma_decode_concat(
            between_bytes(window),
            line(words.drop_last()),
            played(words.last()),
        );
        assert(byte_events(bytes.drop_last()) + seq![RxEvent::Byte(bytes.last())] =~= byte_events(
            bytes,
        ));
    }
}

/// The decoder while it hunts for the SFD, between bits.
spec fn hunting(window: u8) -> FrameDecoder {
    FrameDecoder { state: State::Hunting, pending: None, window, byte: 0, bits: 0 }
}

/// While hunting, bits that do not complete the SFD pass without an event.
proof fn lemma_hunt_bits(window: u8, b: u8, k: int)
    requires
        0 <= k <= 8,
        forall|j: int| 1 <= j <= k ==> #[trigger] shifted(window, b, j) != SFD,
    ensures
        decode(hunting(window), played(manchester(b)).take(2 * k)) == (
            hunting(shifted(window, b, k)),
            Seq::<RxEvent>::empty(),
        ),
    decreases k,
{
    let w = played(manchester(b));
    if k == 0 {
        assert(w.take(0) =~= Seq::empty());
    } else {
        lemma_hunt_bits(window, b, k - 1);
        let s = hunting(shifted(window, b, k - 1));
        lemma_decode_bit(s, b, k - 1);
        assert(shifted(window, b, k) != SFD);
        let pair = seq![w[2 * (k - 1)], w[2 * (k - 1) + 1]];
        lemma_decode_concat(hunting(window), w.take(2 * (k - 1)), pair);
        assert(w.take(2 * k) =~= w.take(2 * (k - 1)) + pair);
        assert(Seq::<RxEvent>::empty() + Seq::<RxEvent>::empty() =~= Seq::<RxEvent>::empty());
    }
}

/// The windows that a preamble byte leaves from an empty window, and from a preamble byte.
proof fn lemma_preamble_windows()
    ensures
        forall|j: int| 1 <= j <= 8 ==> #[trigger] shifted(0, 0x55, j) != SFD,
        shifted(0, 0x55, 8) == 0x55,
        forall|j: int| 1 <= j <= 8 ==> #[trigger] shifted(0x55, 0x55, j) != SFD,
        shifted(0x55, 0x55, 8) == 0x55,
        forall|j: int| 1 <= j <= 7 ==> #[trigger] shifted(0x55, 0xD5, j) != SFD,
        shifted(0x55, 0xD5, 8) == SFD,
{
    lemma_shifted_whole(0, 0x55);
    lemma_shifted_whole(0x55, 0x55);
    lemma_shifted_whole(0x55, 0xD5);
    assert(shift_in(0x00, 1) == 0x80 && shift_in(0x80, 0) == 0x40 && shift_in(0x40, 1) == 0xA0
        && shift_in(0xA0, 0) == 0x50 && shift_in(0x50, 1) == 0xA8 && shift_in(0xA8, 0) == 0x54
        && shift_in(0x54, 1) == 0xAA && shift_in(0xAA, 0) == 0x55 && shift_in(0x55, 1) == 0xAA)
        by (bit_vector);
    assert(bit_set(0x55, 0) && !bit_set(0x55, 1) && bit_set(0x55, 2) && !bit_set(0x55, 3)
        && bit_set(0x55, 4) && !bit_set(0x55, 5) && bit_set(0x55, 6) && !bit_set(0x55, 7)
        && bit_set(0xD5, 0) && !bit_set(0xD5, 1) && bit_set(0xD5, 2) && !bit_set(0xD5, 3)
        && bit_set(0xD5, 4) && !bit_set(0xD5, 5) && bit_set(0xD5, 6)) by (bit_vector);
    reveal_with_fuel(shifted, 9);
    assert forall|j: int| 1 <= j <= 8 implies #[trigger] shifted(0, 0x55, j) != SFD by {
        assert(j == 1 || j == 2 || j == 3 || j == 4 || j == 5 || j == 6 || j == 7 || j == 8);
    }
    assert forall|j: int| 1 <= j <= 8 implies #[trigger] shifted(0x55, 0x55, j) != SFD by {
        assert(j == 1 || j == 2 || j == 3 || j == 4 || j == 5 || j == 6 || j == 7 || j == 8);
    }
    assert forall|j: int| 1 <= j <= 7 implies #[trigger] shifted(0x55, 0xD5, j) != SFD by {
        assert(j == 1 || j == 2 || j == 3 || j == 4 || j == 5 || j == 6 || j == 7);
    }
}

/// While hunting, a preamble byte after the first leaves the window as it was.
proof fn lemma_hunt_preamble(n: nat)
    ensures
        decode(hunting(0x55), line(words_of(Seq::new(n, |i: int| 0x55u8)))) == (
            hunting(0x55),
            Seq::<RxEvent>::empty(),
        ),
    decreases n,
{
    let bytes = Seq::new(n, |i: int| 0x55u8);
    let words = words_of(bytes);
    if n > 0 {
        let m = (n - 1) as nat;
        lemma_hunt_preamble(m);
        assert(words.drop_last() =~= words_of(Seq::new(m, |i: int| 0x55u8)));
        lemma_preamble_windows();
        lemma_hunt_bits(0x55, 0x55, 8);
        let w = played(manchester(0x55));
        assert(w.take(16) =~= w);
        lemma_decode_concat(hunting(0x55), line(words.drop_last()), w);
        assert(Seq::<RxEvent>::empty() + Seq::<RxEvent>::empty() =~= Seq::<RxEvent>::empty());
    }
}

/// An idle decoder that sees the line leave idle goes on as one that is hunting.
proof fn lemma_leave_idle(symbols: Seq<u32>)
    requires
        symbols.len() > 0,
        symbols[0] != SYMBOL_IDLE,
    ensures
        decode(FrameDecoder::fresh(), symbols) == decode(hunting(0), symbols),
    decreases symbols.len(),
{
    reveal_with_fuel(decode, 2);
    if symbols.len() > 1 {
        assert(symbols.drop_last()[0] == symbols[0]);
        lemma_leave_idle(symbols.drop_last());
    } else {
        assert(symbols.drop_last() =~= Seq::<u32>::empty());
    }
}

/// From idle, the preamble and the SFD start a frame and nothing else.
proof fn lemma_decode_preamble()
    ensures
        decode(FrameDecoder::fresh(), line(words_of(PREAMBLE_SFD@))) == (
            between_bytes(SFD),
            seq![RxEvent::Start],
        ),
{
    let first = seq![0x55u8];
    let middle = Seq::new(6, |i: int| 0x55u8);
    let last = seq![0xD5u8];
    assert(PREAMBLE_SFD@ =~= first + middle + last);
    assert(words_of(PREAMBLE_SFD@) =~= words_of(first) + words_of(middle) + words_of(last));
    lemma_line_concat(words_of(first) + words_of(middle), words_of(last));
    lemma_line_concat(words_of(first), words_of(middle));
    lemma_preamble_windows();
    let none = Seq::<RxEvent>::empty();

    // The first preamble byte, from idle.
    let w = played(manchester(0x55));
    lemma_line_single(manchester(0x55));
    assert(words_of(first) =~= seq![manchester(0x55)]);
    crate::phy::lemma_manchester_symbols(0x55, 0);
    assert(w[0] != SYMBOL_IDLE) by {
        assert(w[0] == symbol(manchester(0x55), 2 * 0int));
    }
    lemma_leave_idle(w);
    lemma_hunt_bits(0, 0x55, 8);
    assert(w.take(16) =~= w);

    // The other preamble bytes.
    lemma_hunt_preamble(6);
    lemma_decode_concat(FrameDecoder::fresh(), line(words_of(first)), line(words_of(middle)));
    assert(none + none =~= none);

    // The SFD.
    let v = played(manchester(0xD5));
    lemma_line_single(manchester(0xD5));
    assert(words_of(last) =~= seq![manchester(0xD5)]);
    lemma_hunt_bits(0x55, 0xD5, 7);
    let s = hunting(shifted(0x55, 0xD5, 7));
    lemma_decode_bit(s, 0xD5, 7);
    let pair = seq![v[14], v[15]];
    lemma_decode_concat(hunting(0x55), v.take(14), pair);
    assert(v =~= v.take(14) + pair);
    assert(none + seq![RxEvent::Start] =~= seq![RxEvent::Start]);
    lemma_decode_concat(
        FrameDecoder::fresh(),
        line(words_of(first)) + line(words_of(middle)),
        line(words_of(last)),
    );
}

/// The line of one word.
proof fn lemma_line_single(word: u32)
    ensures
        line(seq![word]) == played(word),
{
    reveal_with_fuel(line, 2);
    assert(seq![word].drop_last() =~= Seq::<u32>::empty());
    assert(Seq::<u32>::empty() + played(word) =~= played(word));
}

/// Inside a frame, the first symbol of TP_IDL passes without an event, the second ends the frame,
/// and the rest of it leaves the decoder idle without another event.
proof fn lemma_decode_tp_idl(window: u8)
    ensures
        decode(between_bytes(window), played(TP_IDL_WORD).take(1)).1 == Seq::<RxEvent>::empty(),
        decode(between_bytes(window), played(TP_IDL_WORD).take(2)).1 == seq![RxEvent::End],
        decode(between_bytes(window), played(TP_IDL_WORD)) == (
            FrameDecoder::fresh(),
            seq![RxEvent::End],
        ),
{
    let w = played(TP_IDL_WORD);
    assert((0x0000_0AAAu32 >> 0u32) & 3 == 2 && (0x0000_0AAAu32 >> 2u32) & 3 == 2 && (
    0x0000_0AAAu32 >> 4u32) & 3 == 2 && (0x0000_0AAAu32 >> 6u32) & 3 == 2 && (0x0000_0AAAu32
        >> 8u32) & 3 == 2 && (0x0000_0AAAu32 >> 10u32) & 3 == 2 && (0x0000_0AAAu32 >> 12u32) & 3
        == 0 && (0x0000_0AAAu32 >> 14u32) & 3 == 0 && (0x0000_0AAAu32 >> 16u32) & 3 == 0 && (
    0x0000_0AAAu32 >> 18u32) & 3 == 0 && (0x0000_0AAAu32 >> 20u32) & 3 == 0 && (0x0000_0AAAu32
        >> 22u32) & 3 == 0 && (0x0000_0AAAu32 >> 24u32) & 3 == 0 && (0x0000_0AAAu32 >> 26u32) & 3
        == 0 && (0x0000_0AAAu32 >> 28u32) & 3 == 0 && (0x0000_0AAAu32 >> 30u32) & 3 == 0)
        by (bit_vector);
    let pulse = seq![SYMBOL_HIGH, SYMBOL_HIGH, SYMBOL_HIGH, SYMBOL_HIGH, SYMBOL_HIGH, SYMBOL_HIGH];
    let silence = Seq::new(10, |i: int| SYMBOL_IDLE);
    assert(w =~= pulse + silence);
    lemma_decode_concat(between_bytes(window), pulse, silence);
    let none = Seq::<RxEvent>::empty();
    let first = seq![SYMBOL_HIGH];
    let second = seq![SYMBOL_HIGH, SYMBOL_HIGH];
    let rest = seq![SYMBOL_HIGH, SYMBOL_HIGH, SYMBOL_HIGH, SYMBOL_HIGH];
    let half = FrameDecoder { pending: Some(SYMBOL_HIGH), ..between_bytes(window) };
    assert(first.drop_last() =~= Seq::<u32>::empty());
    assert(second.drop_last() =~= first);
    assert(decode(between_bytes(window), Seq::<u32>::empty()) == (between_bytes(window), none));
    assert(decode(between_bytes(window), first) == (half, none));
    assert(half.next(SYMBOL_HIGH) == (FrameDecoder::adrift(), RxEvent::End));
    assert(none.push(RxEvent::End) =~= seq![RxEvent::End]);
    assert(decode(between_bytes(window), second) == (FrameDecoder::adrift(), seq![RxEvent::End]));
    assert(w.take(1) =~= first);
    assert(w.take(2) =~= second);
    law_broken_burst_yields_nothing(rest);
    lemma_decode_concat(between_bytes(window), second, rest);
    assert(pulse =~= second + rest);
    lemma_silence_realigns(10);
    assert(seq![RxEvent::End] + none =~= seq![RxEvent::End]);
}

/// A pair that is no bit loses the alignment, wherever the decoder was: it reports the end of a
/// frame that it was in, and is adrift.
pub proof fn law_broken_pair_loses_alignment(d: FrameDecoder, first: u32, second: u32)
    requires
        d.state is Hunting || d.state is Framing,
        d.pending == Some(first),
        second != SYMBOL_IDLE,
        !(first == SYMBOL_HIGH && second == SYMBOL_LOW),
        !(first == SYMBOL_LOW && second == SYMBOL_HIGH),
    ensures
        d.next(second) == (FrameDecoder::adrift(), d.closing()),
{
}

/// Once the coding has stopped making sense, or the decoder was reset, nothing is read out of the
/// rest of a burst: whatever it carries, there is no event before the line has gone idle.
pub proof fn law_broken_burst_yields_nothing(symbols: Seq<u32>)
    requires
        forall|i: int| 0 <= i < symbols.len() ==> #[trigger] symbols[i] != SYMBOL_IDLE,
    ensures
        decode(FrameDecoder::adrift(), symbols) == (
            FrameDecoder::adrift(),
            Seq::<RxEvent>::empty(),
        ),
    decreases symbols.len(),
{
    if symbols.len() > 0 {
        let init = symbols.drop_last();
        assert forall|i: int| 0 <= i < init.len() implies #[trigger] init[i] != SYMBOL_IDLE by {
            assert(init[i] == symbols[i]);
        }
        law_broken_burst_yields_nothing(init);
        assert(symbols.last() == symbols[symbols.len() - 1]);
    }
}

/// Silence, however short, brings a decoder that is adrift back to waiting for a frame.
proof fn lemma_silence_realigns(n: nat)
    requires
        n > 0,
    ensures
        decode(FrameDecoder::adrift(), Seq::new(n, |i: int| SYMBOL_IDLE)) == (
            FrameDecoder::fresh(),
            Seq::<RxEvent>::empty(),
        ),
    decreases n,
{
    let m = (n - 1) as nat;
    let silence = Seq::new(n, |i: int| SYMBOL_IDLE);
    assert(silence.drop_last() =~= Seq::new(m, |i: int| SYMBOL_IDLE));
    if m > 0 {
        lemma_silence_realigns(m);
    } else {
        assert(silence.drop_last() =~= Seq::<u32>::empty());
    }
}

/// A line that never leaves idle yields nothing.
pub proof fn law_idle_line_yields_nothing(n: nat)
    ensures
        decode(FrameDecoder::fresh(), Seq::new(n, |i: int| SYMBOL_IDLE)) == (
            FrameDecoder::fresh(),
            Seq::<RxEvent>::empty(),
        ),
    decreases n,
{
    if n > 0 {
        let m = (n - 1) as nat;
        law_idle_line_yields_nothing(m);
        assert(Seq::new(n, |i: int| SYMBOL_IDLE).drop_last() =~= Seq::new(
            m,
            |i: int| SYMBOL_IDLE,
        ));
    }
}

/// A line of words is sixteen symbols for each.
proof fn lemma_line_len(words: Seq<u32>)
    ensures
        line(words).len() == 16 * words.len(),
    decreases words.len(),
{
    if words.len() > 0 {
        lemma_line_len(words.drop_last());
    }
}

/// One idle symbol brings a decoder in any state back to waiting for the line to leave idle.
pub proof fn law_idle_symbol_resets(d: FrameDecoder)
    ensures
        d.next(SYMBOL_IDLE).0 == FrameDecoder::fresh(),
        d.next(SYMBOL_IDLE).1 == (if d.state is Framing {
            RxEvent::End
        } else {
            RxEvent::Nothing
        }),
{
}

/// What the transmitter sends is what the receiver reads: for a decoder that was in any state and
/// then saw the line idle, the line of any encoded frame, with any amount of silence on either
/// side, is decoded as one start, the frame's bytes in order, and one end, and leaves the decoder
/// idle.
pub proof fn law_sent_frame_is_received(d: FrameDecoder, frame: Seq<u8>, before: nat, after: nat)
    ensures
        ({
            let silence_before = Seq::new(before, |i: int| SYMBOL_IDLE);
            let silence_after = Seq::new(after, |i: int| SYMBOL_IDLE);
            decode(
                d.next(SYMBOL_IDLE).0,
                silence_before + line(transmission(frame)) + silence_after,
            ) == (
                FrameDecoder::fresh(),
                seq![RxEvent::Start] + byte_events(frame) + seq![RxEvent::End],
            )
        }),
{
    let fresh = FrameDecoder::fresh();
    let silence_before = Seq::new(before, |i: int| SYMBOL_IDLE);
    let silence_after = Seq::new(after, |i: int| SYMBOL_IDLE);
    let none = Seq::<RxEvent>::empty();
    let body = line(transmission(frame));
    lemma_decode_transmission(frame);
    law_idle_line_yields_nothing(before);
    law_idle_line_yields_nothing(after);
    lemma_decode_concat(fresh, silence_before, body);
    lemma_decode_concat(fresh, silence_before + body, silence_after);
    let events = seq![RxEvent::Start] + byte_events(frame) + seq![RxEvent::End];
    assert(none + events =~= events);
    assert(events + none =~= events);
}

/// The end of a sent frame is known at the second symbol of the last word: up to the first symbol of
/// that word there is the start and every byte and no end, one symbol later there is the end, and
/// the fourteen symbols after it yield nothing more.
pub proof fn law_end_comes_at_second_symbol(d: FrameDecoder, frame: Seq<u8>)
    ensures
        ({
            let symbols = line(transmission(frame));
            let last_word = 16 * (frame.len() as int + 8);
            let idle = d.next(SYMBOL_IDLE).0;
            let read = seq![RxEvent::Start] + byte_events(frame);
            &&& symbols.len() == last_word + 16
            &&& decode(idle, symbols.take(last_word + 1)).1 == read
            &&& decode(idle, symbols.take(last_word + 2)).1 == read.push(RxEvent::End)
            &&& decode(idle, symbols).1 == read.push(RxEvent::End)
        }),
{
    lemma_decode_transmission(frame);
    let read = seq![RxEvent::Start] + byte_events(frame);
    assert(read + seq![RxEvent::End] =~= read.push(RxEvent::End));
}

/// The line of an encoded frame, decoded from idle: whole, and cut after the first and after the
/// second symbol of its last word.
proof fn lemma_decode_transmission(frame: Seq<u8>)
    ensures
        ({
            let fresh = FrameDecoder::fresh();
            let symbols = line(transmission(frame));
            let last_word = 16 * (frame.len() as int + 8);
            let read = seq![RxEvent::Start] + byte_events(frame);
            &&& symbols.len() == last_word + 16
            &&& decode(fresh, symbols.take(last_word + 1)).1 == read
            &&& decode(fresh, symbols.take(last_word + 2)).1 == read + seq![RxEvent::End]
            &&& decode(fresh, symbols) == (fresh, read + seq![RxEvent::End])
        }),
{
    let fresh = FrameDecoder::fresh();
    let preamble = words_of(PREAMBLE_SFD@);
    let data = words_of(frame);
    let none = Seq::<RxEvent>::empty();
    let read = seq![RxEvent::Start] + byte_events(frame);
    assert(transmission(frame) =~= preamble + data + seq![TP_IDL_WORD]);
    lemma_line_concat(preamble + data, seq![TP_IDL_WORD]);
    lemma_line_concat(preamble, data);
    lemma_line_single(TP_IDL_WORD);
    lemma_line_len(preamble);
    lemma_line_len(data);
    lemma_decode_preamble();
    lemma_decode_bytes(SFD, frame);
    lemma_decode_tp_idl(SFD);
    let head = line(preamble) + line(data);
    let tail = played(TP_IDL_WORD);
    lemma_decode_concat(fresh, line(preamble), line(data));
    lemma_decode_concat(fresh, head, tail);
    lemma_decode_concat(fresh, head, tail.take(1));
    lemma_decode_concat(fresh, head, tail.take(2));
    let symbols = line(transmission(frame));
    let last_word = 16 * (frame.len() as int + 8);
    assert(symbols == head + tail);
    assert(head.len() == last_word);
    assert(symbols.take(last_word + 1) =~= head + tail.take(1));
    assert(symbols.take(last_word + 2) =~= head + tail.take(2));
    assert(read + none =~= read);
}

/// What a pair of half-bits does inside a frame: HIGH then LOW shifts a zero in from the top, LOW
/// then HIGH a one, and every eighth bit gives the byte, the first bit of which is its lowest.
pub proof fn law_pairs_are_shifted_in(d: FrameDecoder, first: u32, second: u32)
    requires
        d.wf(),
        d.state is Framing,
        d.pending == Some(first),
        (first == 1 && second == 2) || (first == 2 && second == 1),
    ensures
        ({
            let byte = d.byte / 2 + (if first == 1 { 128int } else { 0 });
            let (n, event) = d.next(second);
            &&& d.bits == 7 ==> event == RxEvent::Byte(byte as u8) && n.bits == 0
            &&& d.bits < 7 ==> event is Nothing && n.bits == d.bits + 1 && n.byte == byte
            &&& n.state is Framing && n.pending is None
        }),
{
    let r = d.byte;
    assert((r >> 1) | (0u8 << 7) == r / 2 && (r >> 1) | (1u8 << 7) == r / 2 + 128) by (bit_vector);
}

/// Before a frame the last eight bits are watched: it starts, once, where they are the delimiter.
pub proof fn law_delimiter_starts_a_frame(d: FrameDecoder, first: u32, second: u32)
    requires
        d.state is Hunting,
        d.pending == Some(first),
        (first == 1 && second == 2) || (first == 2 && second == 1),
    ensures
        ({
            let window = d.window / 2 + (if first == 1 { 128int } else { 0 });
            let (n, event) = d.next(second);
            &&& window == 0xD5 ==> event is Start && n.state is Framing && n.bits == 0
            &&& window != 0xD5 ==> event is Nothing && n.state is Hunting
            &&& n.window == window && n.pending is None
        }),
{
    let r = d.window;
    assert((r >> 1) | (0u8 << 7) == r / 2 && (r >> 1) | (1u8 << 7) == r / 2 + 128) by (bit_vector);
}

} // verus!
