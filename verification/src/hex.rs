//! Hexadecimal text: bytes to upper-case digits, and pairs of digits back to bytes.

use vstd::prelude::*;

verus! {

/// The upper-case digit, as an ASCII code, that stands for a value below sixteen.
pub open spec fn upper_digit(value: int) -> u8 {
    if value < 10 {
        (0x30 + value) as u8
    } else {
        (0x37 + value) as u8
    }
}

/// The text of a byte sequence: two upper-case digits for each byte, the high
/// half first, in the order of the bytes.
pub open spec fn hex_text(bytes: Seq<u8>) -> Seq<u8> {
    Seq::new(
        2 * bytes.len(),
        |i: int|
            if i % 2 == 0 {
                upper_digit(bytes[i / 2] as int / 16)
            } else {
                upper_digit(bytes[i / 2] as int % 16)
            },
    )
}

/// The value of one hexadecimal digit of either case, if the code is one.
pub open spec fn digit_value(code: u8) -> Option<u8> {
    if 0x30 <= code <= 0x39 {
        Some((code - 0x30) as u8)
    } else if 0x41 <= code <= 0x46 {
        Some((code - 0x37) as u8)
    } else if 0x61 <= code <= 0x66 {
        Some((code - 0x57) as u8)
    } else {
        None
    }
}

/// The byte that a pair of characters stands for.
///
/// A pair is read the way an unsigned base-sixteen integer of length two is
/// read: two digits of either case give sixteen times the first plus the
/// second, and a plus sign followed by one digit gives that digit. Every
/// other pair stands for nothing.
pub open spec fn pair_value(first: u8, second: u8) -> Option<u8> {
    match (digit_value(first), digit_value(second)) {
        (Some(high), Some(low)) => Some((16 * high + low) as u8),
        (None, Some(low)) => if first == 0x2B {
            Some(low)
        } else {
            None
        },
        _ => None,
    }
}

/// The bytes recovered from a text taken two characters at a time: each pair
/// that stands for a byte contributes it, every other pair contributes
/// nothing, and a last character without a partner is ignored.
pub open spec fn decode_pairs(text: Seq<u8>) -> Seq<u8>
    decreases text.len(),
{
    if text.len() < 2 {
        Seq::empty()
    } else {
        match pair_value(text[0], text[1]) {
            Some(byte) => seq![byte] + decode_pairs(text.skip(2)),
            None => decode_pairs(text.skip(2)),
        }
    }
}

fn digit_code(value: u8) -> (code: u8)
    requires
        value < 16,
    ensures
        code == upper_digit(value as int),
{
    if value < 10 {
        0x30 + value
    } else {
        0x37 + value
    }
}

/// Appends the text of `bytes` to `sink`.
pub fn write_hex(bytes: &[u8], sink: &mut Vec<u8>)
    ensures
        final(sink)@ == old(sink)@ + hex_text(bytes@),
{
    let mut i: usize = 0;
    while i < bytes.len()
        invariant
            i <= bytes.len(),
            sink@ == old(sink)@ + hex_text(bytes@.take(i as int)),
        decreases bytes.len() - i,
    {
        let byte: u8 = bytes[i];
        sink.push(digit_code(byte / 16));
        sink.push(digit_code(byte % 16));
        i += 1;
    }
}

/// The text of `bytes` as a new vector.
pub fn to_hex(bytes: &[u8]) -> (text: Vec<u8>)
    ensures
        text@ == hex_text(bytes@),
{
    let mut text: Vec<u8> = Vec::new();
    write_hex(bytes, &mut text);
    text
}

/// Reads one digit of either case.
pub fn read_digit(code: u8) -> (value: Option<u8>)
    ensures
        value == digit_value(code),
{
    if 0x30 <= code && code <= 0x39 {
        Some(code - 0x30)
    } else if 0x41 <= code && code <= 0x46 {
        Some(code - 0x37)
    } else if 0x61 <= code && code <= 0x66 {
        Some(code - 0x57)
    } else {
        None
    }
}

/// Reads one pair of characters.
pub fn read_pair(first: u8, second: u8) -> (byte: Option<u8>)
    ensures
        byte == pair_value(first, second),
{
    match read_digit(second) {
        None => None,
        Some(low) => match read_digit(first) {
            Some(high) => Some(16 * high + low),
            None => if first == 0x2B {
                Some(low)
            } else {
                None
            },
        },
    }
}

/// Recovers bytes from `text`, two characters at a time.
pub fn from_hex(text: &[u8]) -> (bytes: Vec<u8>)
    ensures
        bytes@ == decode_pairs(text@),
{
    let mut bytes: Vec<u8> = Vec::new();
    let mut i: usize = 0;
    assert(text@.skip(0) =~= text@);
    while text.len() - i >= 2
        invariant
            i <= text.len(),
            decode_pairs(text@) == bytes@ + decode_pairs(text@.skip(i as int)),
        decreases text.len() - i,
    {
        assert(text@.skip(i as int).skip(2) =~= text@.skip(i + 2));
        match read_pair(text[i], text[i + 1]) {
            Some(byte) => {
                bytes.push(byte);
            },
            None => {},
        }
        i += 2;
    }
    bytes
}

/// Reading the text of any byte sequence gives the sequence back.
pub proof fn lemma_hex_round_trip(bytes: Seq<u8>)
    ensures
        decode_pairs(hex_text(bytes)) == bytes,
    decreases bytes.len(),
{
    if bytes.len() > 0 {
        // the first two characters stand for the first byte, and the rest of
        // the text is the text of the rest
        assert(hex_text(bytes).skip(2) =~= hex_text(bytes.skip(1)));
        lemma_hex_round_trip(bytes.skip(1));
    }
}

} // verus!
