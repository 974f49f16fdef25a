//! Byte-level helpers for the comma-separated ASCII sentences of NMEA 0183.

use vstd::prelude::*;

verus! {

/// The first position at or after `from` that holds `sep`, or the length where there is none.
pub open spec fn first_at(b: Seq<u8>, sep: u8, from: int) -> int
    decreases b.len() - from,
{
    if from >= b.len() {
        b.len() as int
    } else if b[from] == sep {
        from
    } else {
        first_at(b, sep, from + 1)
    }
}

/// The `n`-th field of `b` as separated by `sep`, counting from 0.
pub open spec fn nth_field(b: Seq<u8>, sep: u8, n: int) -> Option<Seq<u8>>
    decreases n,
{
    let end = first_at(b, sep, 0);
    if n <= 0 {
        Some(b.take(end))
    } else if end >= b.len() {
        None
    } else {
        nth_field(b.skip(end + 1), sep, n - 1)
    }
}

/// Whether a byte is an ASCII decimal digit.
pub open spec fn is_digit(b: u8) -> bool {
    0x30 <= b <= 0x39
}

/// The number that two bytes spell in decimal: two digits, or a plus sign and a digit.
pub open spec fn decimal_pair(a: u8, b: u8) -> Option<u8> {
    if is_digit(a) && is_digit(b) {
        Some((10 * (a - 0x30) + (b - 0x30)) as u8)
    } else if a == 0x2b && is_digit(b) {
        Some((b - 0x30) as u8)
    } else {
        None
    }
}

/// The value of an ASCII hexadecimal digit.
pub open spec fn hex_digit(b: u8) -> Option<u8> {
    if is_digit(b) {
        Some((b - 0x30) as u8)
    } else if 0x41 <= b <= 0x46 {
        Some((b - 0x41 + 10) as u8)
    } else if 0x61 <= b <= 0x66 {
        Some((b - 0x61 + 10) as u8)
    } else {
        None
    }
}

/// The number that two bytes spell in hexadecimal, if both are hexadecimal digits.
pub open spec fn hex_pair(a: u8, b: u8) -> Option<u8> {
    match (hex_digit(a), hex_digit(b)) {
        (Some(h), Some(l)) => Some((16 * h + l) as u8),
        _ => None,
    }
}

/// What [`first_at`] finds: a position in range, no `sep` before it, and `sep` at it unless it is
/// the end.
pub proof fn lemma_first_at(b: Seq<u8>, sep: u8, from: int)
    requires
        0 <= from <= b.len(),
    ensures
        from <= first_at(b, sep, from) <= b.len(),
        forall|i: int| from <= i < first_at(b, sep, from) ==> b[i] != sep,
        first_at(b, sep, from) < b.len() ==> b[first_at(b, sep, from)] == sep,
    decreases b.len() - from,
{
    if from < b.len() && b[from] != sep {
        lemma_first_at(b, sep, from + 1);
    }
}

/// A position with no `sep` before it and `sep` at it (or the end) is what [`first_at`] finds.
pub proof fn lemma_first_at_is(b: Seq<u8>, sep: u8, from: int, at: int)
    requires
        0 <= from <= at <= b.len(),
        forall|i: int| from <= i < at ==> b[i] != sep,
        at < b.len() ==> b[at] == sep,
    ensures
        first_at(b, sep, from) == at,
    decreases at - from,
{
    if from < at {
        lemma_first_at_is(b, sep, from + 1, at);
    }
}

/// Finds the first `sep` at or after `from`; the length if there is none.
pub fn find_byte(b: &[u8], sep: u8, from: usize) -> (r: usize)
    requires
        from <= b@.len(),
    ensures
        r == first_at(b@, sep, from as int),
        from <= r <= b@.len(),
{
    let mut i: usize = from;
    while i < b.len() && b[i] != sep
        invariant
            from <= i <= b@.len(),
            first_at(b@, sep, from as int) == first_at(b@, sep, i as int),
        decreases b@.len() - i,
    {
        i = i + 1;
    }
    i
}

/// Finds the bounds of the `n`-th field.
pub fn find_field(b: &[u8], sep: u8, n: usize) -> (r: Option<(usize, usize)>)
    ensures
        match (r, nth_field(b@, sep, n as int)) {
            (Some((from, to)), Some(f)) => from <= to <= b@.len() && b@.subrange(
                from as int,
                to as int,
            ) == f,
            (None, None) => true,
            _ => false,
        },
{
    let mut start: usize = 0;
    let mut left: usize = n;
    assert(b@.skip(0) =~= b@);
    while left > 0
        invariant
            start <= b@.len(),
            left <= n,
            nth_field(b@, sep, n as int) == nth_field(b@.skip(start as int), sep, left as int),
        decreases left,
    {
        let end: usize = find_byte(b, sep, start);
        proof {
            lemma_first_at(b@, sep, start as int);
            lemma_first_at_is(b@.skip(start as int), sep, 0, end - start);
        }
        if end >= b.len() {
            return None;
        }
        assert(b@.skip(start as int).skip(end - start + 1) =~= b@.skip(end + 1));
        start = end + 1;
        left = left - 1;
    }
    let end: usize = find_byte(b, sep, start);
    proof {
        lemma_first_at(b@, sep, start as int);
        lemma_first_at_is(b@.skip(start as int), sep, 0, end - start);
        assert(b@.skip(start as int).take(end - start) =~= b@.subrange(start as int, end as int));
    }
    Some((start, end))
}

/// Reads a two-byte decimal number.
pub fn parse_decimal_pair(a: u8, b: u8) -> (r: Option<u8>)
    ensures
        r == decimal_pair(a, b),
{
    if b < 0x30 || b > 0x39 {
        return None;
    }
    if 0x30 <= a && a <= 0x39 {
        Some(10 * (a - 0x30) + (b - 0x30))
    } else if a == 0x2b {
        Some(b - 0x30)
    } else {
        None
    }
}

/// Reads a hexadecimal digit.
fn parse_hex_digit(b: u8) -> (r: Option<u8>)
    ensures
        r == hex_digit(b),
        r matches Some(v) ==> v < 16,
{
    if 0x30 <= b && b <= 0x39 {
        Some(b - 0x30)
    } else if 0x41 <= b && b <= 0x46 {
        Some(b - 0x41 + 10)
    } else if 0x61 <= b && b <= 0x66 {
        Some(b - 0x61 + 10)
    } else {
        None
    }
}

/// Reads a hexadecimal number of two digits.
pub fn parse_hex_pair(a: u8, b: u8) -> (r: Option<u8>)
    ensures
        r == hex_pair(a, b),
{
    match (parse_hex_digit(a), parse_hex_digit(b)) {
        (Some(h), Some(l)) => Some(16 * h + l),
        _ => None,
    }
}

/// Two digits spell the number that they spell, and nothing else does but a plus sign before a
/// digit.
pub proof fn law_decimal_pairs_spell_numbers(a: u8, b: u8, v: u8)
    ensures
        v < 100 ==> decimal_pair((48 + v / 10) as u8, (48 + v % 10) as u8) == Some(v),
        decimal_pair(a, b) == Some(v) ==> 48 <= b <= 57 && ((48 <= a <= 57 && v == 10 * (a - 48) + (b
            - 48)) || (a == 43 && v == b - 48)),
        48 <= a <= 57 && 48 <= b <= 57 ==> decimal_pair(a, b) is Some,
{
}

/// Two hexadecimal digits, of either case, spell the number that they spell, and nothing else does.
pub proof fn law_hex_pairs_spell_numbers(a: u8, b: u8, v: u8)
    ensures
        hex_pair(
            (v / 16 + (if v / 16 < 10 { 48int } else { 55 })) as u8,
            (v % 16 + (if v % 16 < 10 { 48int } else { 55 })) as u8,
        ) == Some(v),
        hex_pair(
            (v / 16 + (if v / 16 < 10 { 48int } else { 87 })) as u8,
            (v % 16 + (if v % 16 < 10 { 48int } else { 87 })) as u8,
        ) == Some(v),
        hex_pair(a, b) is Some <==> (48 <= a <= 57 || 65 <= a <= 70 || 97 <= a <= 102) && (48 <= b
            <= 57 || 65 <= b <= 70 || 97 <= b <= 102),
{
}

/// Fields lie between separators: the first reaches up to the first separator, the next are those
/// of what follows it, and text without a separator is one field.
pub proof fn law_fields_lie_between_separators(f: Seq<u8>, sep: u8, rest: Seq<u8>, n: nat)
    requires
        forall|i: int| 0 <= i < f.len() ==> #[trigger] f[i] != sep,
    ensures
        nth_field(f, sep, 0) == Some(f),
        n > 0 ==> nth_field(f, sep, n as int) is None,
        nth_field(f.push(sep) + rest, sep, 0) == Some(f),
        nth_field(f.push(sep) + rest, sep, (n + 1) as int) == nth_field(rest, sep, n as int),
{
    let b = f.push(sep) + rest;
    lemma_first_at_is(f, sep, 0, f.len() as int);
    assert forall|i: int| 0 <= i < f.len() implies b[i] != sep by {
        assert(b[i] == f[i]);
    }
    lemma_first_at_is(b, sep, 0, f.len() as int);
    assert(f.take(f.len() as int) =~= f);
    assert(b.take(f.len() as int) =~= f);
    assert(b.skip((f.len() + 1) as int) =~= rest);
}

} // verus!
