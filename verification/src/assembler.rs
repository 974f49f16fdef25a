//! Reassembles NMEA sentences, one line at a time, from a UART byte stream, and checks their
//! checksums.
//!
//! A sentence starts with `$` and ends at CR or LF. A mid-line `$` resynchronizes; an overflowing
//! sentence is dropped. The emitted bytes hold the leading `$` and not the terminator. Checksum
//! validation is left to the parser layer.

use vstd::prelude::*;
use crate::text::{find_byte, parse_hex_pair};

verus! {

use crate::text::{first_at, hex_pair, lemma_first_at_is};
use vstd::string::StringSliceAdditionalSpecFns;

/// Maximum length of one NMEA 0183 sentence (82 chars with CR/LF).
pub const MAX_SENTENCE_LEN: usize = 82;

/// A byte buffer of fixed capacity: `heapless::Vec<u8, 82>`. Its contents are named by
/// [`buffered`].
#[verifier::external_body]
#[derive(Debug)]
pub struct SentenceBuffer {
    bytes: heapless::Vec<u8, MAX_SENTENCE_LEN>,
}

/// The bytes that a buffer holds, in order.
pub uninterp spec fn buffered(b: SentenceBuffer) -> Seq<u8>;

/// `heapless::Vec::new`: the new buffer is empty.
#[verifier::external_body]
fn buffer_new() -> (r: SentenceBuffer)
    ensures
        buffered(r) == Seq::<u8>::empty(),
{
    SentenceBuffer { bytes: heapless::Vec::new() }
}

/// `heapless::Vec::clear`: the buffer is empty afterwards.
#[verifier::external_body]
fn buffer_clear(b: &mut SentenceBuffer)
    ensures
        buffered(*final(b)) == Seq::<u8>::empty(),
{
    b.bytes.clear();
}

/// `heapless::Vec::push`: appends the byte if there is room for it, and otherwise hands it back
/// and changes nothing.
#[verifier::external_body]
fn buffer_push(b: &mut SentenceBuffer, byte: u8) -> (r: Result<(), u8>)
    ensures
        r is Ok <==> (buffered(*old(b)).len() < MAX_SENTENCE_LEN),
        r is Err ==> r->Err_0 == byte,
        buffered(*final(b)) == (if r is Ok {
            buffered(*old(b)).push(byte)
        } else {
            buffered(*old(b))
        }),
{
    b.bytes.push(byte)
}

/// `heapless::Vec::as_slice`: the contents, in order.
#[verifier::external_body]
fn buffer_bytes(b: &SentenceBuffer) -> (r: &[u8])
    ensures
        r@ == buffered(*b),
{
    b.bytes.as_slice()
}

/// The byte that starts a sentence.
pub const DOLLAR: u8 = 0x24;

/// Carriage return.
pub const CR: u8 = 0x0d;

/// Line feed.
pub const LF: u8 = 0x0a;

/// The mathematical state of an [`NmeaLineAssembler`].
pub struct AssemblerState {
    /// The bytes collected.
    pub buf: Seq<u8>,
    /// Whether a sentence is being collected.
    pub in_sentence: bool,
}

impl AssemblerState {
    /// The state of an assembler that has seen nothing.
    pub open spec fn fresh() -> AssemblerState {
        AssemblerState { buf: Seq::empty(), in_sentence: false }
    }

    /// The sentence that a byte completes, if it does.
    pub open spec fn emits(self, byte: u8) -> Option<Seq<u8>> {
        if (byte == CR || byte == LF) && self.in_sentence && self.buf.len() > 1 {
            Some(self.buf)
        } else {
            None
        }
    }

    /// The state after a byte.
    pub open spec fn next(self, byte: u8) -> AssemblerState {
        if byte == DOLLAR {
            AssemblerState { buf: seq![DOLLAR], in_sentence: true }
        } else if byte == CR || byte == LF {
            AssemblerState { in_sentence: false, ..self }
        } else if !self.in_sentence {
            self
        } else if self.buf.len() < MAX_SENTENCE_LEN {
            AssemblerState { buf: self.buf.push(byte), in_sentence: true }
        } else {
            AssemblerState::fresh()
        }
    }

    /// The state after a run of bytes.
    pub open spec fn after(self, bytes: Seq<u8>) -> AssemblerState
        decreases bytes.len(),
    {
        if bytes.len() == 0 {
            self
        } else {
            self.after(bytes.drop_last()).next(bytes.last())
        }
    }

    /// The sentences that a run of bytes completes, in order.
    pub open spec fn sentences(self, bytes: Seq<u8>) -> Seq<Seq<u8>>
        decreases bytes.len(),
    {
        if bytes.len() == 0 {
            Seq::empty()
        } else {
            let before = self.sentences(bytes.drop_last());
            match self.after(bytes.drop_last()).emits(bytes.last()) {
                Some(s) => before.push(s),
                None => before,
            }
        }
    }
}

/// State machine that is fed UART bytes and assembles complete NMEA sentences.
#[derive(Debug)]
pub struct NmeaLineAssembler {
    buf: SentenceBuffer,
    in_sentence: bool,
}

impl View for NmeaLineAssembler {
    type V = AssemblerState;

    closed spec fn view(&self) -> AssemblerState {
        AssemblerState { buf: buffered(self.buf), in_sentence: self.in_sentence }
    }
}

impl Default for NmeaLineAssembler {
    fn default() -> (r: Self)
        ensures
            r@ == AssemblerState::fresh(),
    {
        NmeaLineAssembler::new()
    }
}

impl NmeaLineAssembler {
    /// Creates an assembler that waits for the first `$`.
    pub fn new() -> (r: Self)
        ensures
            r@ == AssemblerState::fresh(),
    {
        NmeaLineAssembler { buf: buffer_new(), in_sentence: false }
    }

    /// Feeds one byte. When it completes a sentence, returns the sentence.
    pub fn push(&mut self, byte: u8) -> (r: Option<&[u8]>)
        ensures
            final(self)@ == old(self)@.next(byte),
            r is Some <==> old(self)@.emits(byte) is Some,
            r is Some ==> r->0@ == old(self)@.emits(byte)->0,
    {
        if byte == DOLLAR {
            buffer_clear(&mut self.buf);
            let _ = buffer_push(&mut self.buf, DOLLAR);
            self.in_sentence = true;
            assert(self@.buf =~= seq![DOLLAR]);
            None
        } else if byte == CR || byte == LF {
            if self.in_sentence && buffer_bytes(&self.buf).len() > 1 {
                self.in_sentence = false;
                Some(buffer_bytes(&self.buf))
            } else {
                self.in_sentence = false;
                None
            }
        } else {
            if self.in_sentence {
                match buffer_push(&mut self.buf, byte) {
                    Ok(_) => {},
                    Err(_) => {
                        buffer_clear(&mut self.buf);
                        self.in_sentence = false;
                    },
                }
            }
            None
        }
    }
}

/// What holds of every state that bytes lead to: a sentence being collected starts with `$`, holds
/// no other `$` and no terminator, and fits in the buffer.
pub open spec fn collects_a_sentence(s: AssemblerState) -> bool {
    s.in_sentence ==> {
        &&& 1 <= s.buf.len() <= MAX_SENTENCE_LEN
        &&& s.buf[0] == DOLLAR
        &&& forall|i: int| 1 <= i < s.buf.len() ==> is_payload(#[trigger] s.buf[i])
    }
}

/// Whether a byte can stand inside a sentence.
pub open spec fn is_payload(b: u8) -> bool {
    b != DOLLAR && b != CR && b != LF
}

/// Whether bytes are a complete sentence without its terminator.
pub open spec fn is_sentence(s: Seq<u8>) -> bool {
    &&& 2 <= s.len() <= MAX_SENTENCE_LEN
    &&& s[0] == DOLLAR
    &&& forall|i: int| 1 <= i < s.len() ==> is_payload(#[trigger] s[i])
}

/// Whatever bytes are fed to a fresh assembler, each emitted sentence starts with `$`, holds no
/// other `$`, CR or LF, has at least one byte after the `$` and fits in the buffer.
pub proof fn law_sentences_are_framed(bytes: Seq<u8>)
    ensures
        collects_a_sentence(AssemblerState::fresh().after(bytes)),
        forall|k: int|
            0 <= k < AssemblerState::fresh().sentences(bytes).len() ==> is_sentence(
                #[trigger] AssemblerState::fresh().sentences(bytes)[k],
            ),
    decreases bytes.len(),
{
    if bytes.len() > 0 {
        let init = bytes.drop_last();
        law_sentences_are_framed(init);
        let before = AssemblerState::fresh().sentences(init);
        let all = AssemblerState::fresh().sentences(bytes);
        assert forall|k: int| 0 <= k < all.len() implies is_sentence(#[trigger] all[k]) by {
            if k < before.len() {
                assert(is_sentence(before[k]));
                assert(all[k] == before[k]);
            }
        }
    }
}

/// Collecting a payload that fits grows the buffer byte by byte and emits nothing.
proof fn lemma_collect(s: AssemblerState, payload: Seq<u8>)
    requires
        payload.len() < MAX_SENTENCE_LEN,
        forall|i: int| 0 <= i < payload.len() ==> is_payload(#[trigger] payload[i]),
    ensures
        s.after(seq![DOLLAR] + payload) == (AssemblerState {
            buf: seq![DOLLAR] + payload,
            in_sentence: true,
        }),
        s.sentences(seq![DOLLAR] + payload) == Seq::<Seq<u8>>::empty(),
    decreases payload.len(),
{
    let bytes = seq![DOLLAR] + payload;
    if payload.len() == 0 {
        assert(bytes =~= seq![DOLLAR]);
        assert(bytes.drop_last() =~= Seq::empty());
        assert(s.after(Seq::empty()) == s);
        assert(s.sentences(Seq::empty()) == Seq::<Seq<u8>>::empty());
    } else {
        let init = payload.drop_last();
        assert forall|i: int| 0 <= i < init.len() implies is_payload(#[trigger] init[i]) by {
            assert(init[i] == payload[i]);
        }
        lemma_collect(s, init);
        assert(bytes.drop_last() =~= seq![DOLLAR] + init);
        assert(is_payload(payload[payload.len() - 1]));
        assert((seq![DOLLAR] + init).push(payload.last()) =~= bytes);
    }
}

/// Framing: from any state, a `$`, a payload of 1 to 81 bytes and CR LF come out as exactly that
/// one sentence, without its terminator.
pub proof fn law_a_sentence_comes_out(s: AssemblerState, payload: Seq<u8>)
    requires
        1 <= payload.len() < MAX_SENTENCE_LEN,
        forall|i: int| 0 <= i < payload.len() ==> is_payload(#[trigger] payload[i]),
    ensures
        s.sentences(seq![DOLLAR] + payload + seq![CR, LF]) == seq![seq![DOLLAR] + payload],
        !s.after(seq![DOLLAR] + payload + seq![CR, LF]).in_sentence,
{
    lemma_collect(s, payload);
    let line = seq![DOLLAR] + payload;
    let with_cr = line.push(CR);
    let with_lf = with_cr.push(LF);
    assert(with_lf =~= line + seq![CR, LF]);
    assert(with_lf.drop_last() =~= with_cr);
    assert(with_cr.drop_last() =~= line);
    assert(s.after(with_cr) == (AssemblerState { buf: line, in_sentence: false }));
    assert(s.sentences(with_cr) =~= seq![line]);
}

/// A sentence that does not fit is dropped: after 82 payload bytes nothing is collected until the
/// next `$`.
pub proof fn law_overlong_sentence_is_dropped(s: AssemblerState, payload: Seq<u8>)
    requires
        payload.len() == MAX_SENTENCE_LEN,
        forall|i: int| 0 <= i < payload.len() ==> is_payload(#[trigger] payload[i]),
    ensures
        s.after(seq![DOLLAR] + payload) == AssemblerState::fresh(),
        s.sentences(seq![DOLLAR] + payload) == Seq::<Seq<u8>>::empty(),
{
    let init = payload.drop_last();
    assert forall|i: int| 0 <= i < init.len() implies is_payload(#[trigger] init[i]) by {
        assert(init[i] == payload[i]);
    }
    lemma_collect(s, init);
    let bytes = seq![DOLLAR] + payload;
    assert(bytes.drop_last() =~= seq![DOLLAR] + init);
    assert(is_payload(payload[payload.len() - 1]));
}

/// The exclusive or of a sequence of bytes.
pub open spec fn xor_all(b: Seq<u8>) -> u8
    decreases b.len(),
{
    if b.len() == 0 {
        0
    } else {
        xor_all(b.drop_last()) ^ b.last()
    }
}

/// NMEA 0183 checksum: the exclusive or of the payload bytes, everything between the leading `$`
/// and the `*`.
pub fn nmea_checksum(payload: &[u8]) -> (r: u8)
    ensures
        r == xor_all(payload@),
{
    let mut cs: u8 = 0;
    let mut i: usize = 0;
    while i < payload.len()
        invariant
            0 <= i <= payload@.len(),
            cs == xor_all(payload@.take(i as int)),
        decreases payload@.len() - i,
    {
        assert(payload@.take(i + 1).drop_last() =~= payload@.take(i as int));
        cs = cs ^ payload[i];
        i = i + 1;
    }
    assert(payload@.take(i as int) =~= payload@);
    cs
}

/// The byte that ends a payload.
pub const STAR: u8 = 0x2a;

/// Whether a sentence carries the right checksum: an optional `$`, a payload up to the first `*`,
/// and behind the `*` two hexadecimal digits that spell the payload's checksum. What follows them
/// is of no account.
pub open spec fn carries_checksum(sentence: Seq<u8>) -> bool {
    let start: int = if sentence.len() > 0 && sentence[0] == DOLLAR {
        1
    } else {
        0
    };
    let star = first_at(sentence, STAR, start);
    &&& star + 2 < sentence.len()
    &&& hex_pair(sentence[star + 1], sentence[star + 2]) == Some(
        xor_all(sentence.subrange(start, star)),
    )
}

/// Validates the `*hh` checksum of a framed NMEA sentence (`$<payload>*<HH>`; a trailing CR/LF is
/// tolerated). It is not valid without two hexadecimal digits behind the `*`.
pub fn nmea_checksum_valid(sentence: &str) -> (r: bool)
    ensures
        r == carries_checksum(sentence.spec_bytes()),
{
    let bytes = sentence.as_bytes();
    let start: usize = if bytes.len() > 0 && bytes[0] == DOLLAR {
        1
    } else {
        0
    };
    let star: usize = find_byte(bytes, STAR, start);
    if star >= bytes.len() || bytes.len() - star < 3 {
        return false;
    }
    let payload = vstd::slice::slice_subrange(bytes, start, star);
    match parse_hex_pair(bytes[star + 1], bytes[star + 2]) {
        Some(expected) => nmea_checksum(payload) == expected,
        None => false,
    }
}

/// The uppercase hexadecimal digit of a value below 16.
pub open spec fn hex_char(v: u8) -> u8 {
    if v < 10 {
        (0x30 + v) as u8
    } else {
        (0x41 + v - 10) as u8
    }
}

/// The transmitted form of a payload: `$`, the payload, `*` and its checksum in two digits.
pub open spec fn framed(payload: Seq<u8>) -> Seq<u8> {
    let cs = xor_all(payload);
    seq![DOLLAR] + payload + seq![STAR, hex_char(cs / 16), hex_char(cs % 16)]
}

/// Every payload without a `*` that is sent with its checksum is accepted, whatever follows.
pub proof fn law_checksum_round_trips(payload: Seq<u8>, tail: Seq<u8>)
    requires
        forall|i: int| 0 <= i < payload.len() ==> payload[i] != STAR,
    ensures
        carries_checksum(framed(payload) + tail),
{
    let s = framed(payload) + tail;
    let star = payload.len() + 1;
    lemma_first_at_is(s, STAR, 1, star as int);
    assert(s.subrange(1, star as int) =~= payload);
}

/// The exclusive or splits over concatenation.
proof fn lemma_xor_concat(a: Seq<u8>, b: Seq<u8>)
    ensures
        xor_all(a + b) == xor_all(a) ^ xor_all(b),
    decreases b.len(),
{
    if b.len() == 0 {
        assert(a + b =~= a);
        let x = xor_all(a);
        assert(x ^ 0u8 == x) by (bit_vector);
    } else {
        lemma_xor_concat(a, b.drop_last());
        assert((a + b).drop_last() =~= a + b.drop_last());
        let (x, y, z) = (xor_all(a), xor_all(b.drop_last()), b.last());
        assert((x ^ y) ^ z == x ^ (y ^ z)) by (bit_vector);
    }
}

/// Changing any single byte of a payload changes its checksum.
pub proof fn law_one_changed_byte_is_detected(payload: Seq<u8>, i: int, b: u8)
    requires
        0 <= i < payload.len(),
        b != payload[i],
    ensures
        xor_all(payload.update(i, b)) != xor_all(payload),
{
    let head = payload.take(i);
    let tail = payload.skip(i + 1);
    assert(payload =~= head + seq![payload[i]] + tail);
    assert(payload.update(i, b) =~= head + seq![b] + tail);
    lemma_xor_concat(head + seq![payload[i]], tail);
    lemma_xor_concat(head, seq![payload[i]]);
    lemma_xor_concat(head + seq![b], tail);
    lemma_xor_concat(head, seq![b]);
    assert(seq![payload[i]].drop_last() =~= Seq::empty());
    assert(seq![b].drop_last() =~= Seq::empty());
    assert(xor_all(Seq::empty()) == 0);
    let (x, y, c) = (xor_all(head), xor_all(tail), payload[i]);
    assert((x ^ (0u8 ^ b)) ^ y != (x ^ (0u8 ^ c)) ^ y) by (bit_vector)
        requires
            b != c,
    ;
}

/// The checksum is the exclusive or of every byte, in whatever order: of no bytes it is 0, each
/// further byte is combined in, and two parts give the combination of theirs.
pub proof fn law_checksum_combines_every_byte(a: Seq<u8>, b: Seq<u8>, x: u8)
    ensures
        xor_all(Seq::<u8>::empty()) == 0,
        xor_all(a.push(x)) == xor_all(a) ^ x,
        xor_all(a + b) == xor_all(a) ^ xor_all(b),
        xor_all(a + b) == xor_all(b + a),
{
    assert(a.push(x).drop_last() =~= a);
    lemma_xor_concat(a, b);
    lemma_xor_concat(b, a);
    let (p, q) = (xor_all(a), xor_all(b));
    assert(p ^ q == q ^ p) by (bit_vector);
}

/// A sentence is accepted if and only if the two characters behind the first `*` spell the checksum
/// of what is before it; the `$` in front is not part of that, and what follows does not matter.
pub proof fn law_only_the_right_checksum_is_accepted(payload: Seq<u8>, a: u8, b: u8, tail: Seq<u8>)
    requires
        forall|i: int| 0 <= i < payload.len() ==> payload[i] != 42,
    ensures
        carries_checksum(seq![36u8] + payload + seq![42u8, a, b] + tail) <==> hex_pair(a, b) == Some(
            xor_all(payload),
        ),
        !carries_checksum(seq![36u8] + payload),
        !carries_checksum(seq![36u8] + payload + seq![42u8, a]),
{
    let star = (payload.len() + 1) as int;
    let s = seq![36u8] + payload + seq![42u8, a, b] + tail;
    lemma_first_at_is(s, STAR, 1, star);
    assert(s.subrange(1, star) =~= payload);
    let t = seq![36u8] + payload;
    lemma_first_at_is(t, STAR, 1, star);
    let u = seq![36u8] + payload + seq![42u8, a];
    lemma_first_at_is(u, STAR, 1, star);
}

/// A command is sent as `$`, the payload, `*`, and the checksum in two hexadecimal digits.
pub proof fn law_framing_is_as_transmitted(payload: Seq<u8>)
    ensures
        ({
            let f = framed(payload);
            let n = payload.len() as int;
            &&& f.len() == n + 4
            &&& f[0] == 36
            &&& f.subrange(1, n + 1) == payload
            &&& f[n + 1] == 42
            &&& hex_pair(f[n + 2], f[n + 3]) == Some(xor_all(payload))
            &&& !(97 <= f[n + 2] <= 102) && !(97 <= f[n + 3] <= 102)
        }),
{
    let f = framed(payload);
    assert(f.subrange(1, (payload.len() + 1) as int) =~= payload);
}

/// A sentence may be 82 bytes long with its `$`: a payload of 81 comes out, and one of 82 does not.
pub proof fn law_sentence_limit_is_82(s: AssemblerState, payload: Seq<u8>)
    requires
        forall|i: int|
            0 <= i < payload.len() ==> #[trigger] payload[i] != 36 && payload[i] != 13 && payload[i]
                != 10,
    ensures
        1 <= payload.len() <= 81 ==> s.sentences(seq![36u8] + payload + seq![13u8, 10]) == seq![
            seq![36u8] + payload,
        ],
        payload.len() == 82 ==> s.sentences(seq![36u8] + payload) == Seq::<Seq<u8>>::empty()
            && !s.after(seq![36u8] + payload).in_sentence,
{
    assert forall|i: int| 0 <= i < payload.len() implies is_payload(#[trigger] payload[i]) by {}
    if 1 <= payload.len() <= 81 {
        law_a_sentence_comes_out(s, payload);
    }
    if payload.len() == 82 {
        law_overlong_sentence_is_dropped(s, payload);
    }
}

} // verus!
