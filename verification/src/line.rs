//! The transport line: how the producing side writes one flushed chunk, and
//! how the consuming side tells such a line from plain output and recovers
//! the chunk.
//!
//! A transport line is an opening bracket, a marker, a colon, the chunk in
//! upper-case hexadecimal, a closing bracket and a newline. The marker names
//! the logger that wrote the line; any byte string can serve as one.

use crate::hex::{decode_pairs, from_hex, hex_text, lemma_hex_round_trip, write_hex};
use vstd::prelude::*;
use vstd::slice::slice_subrange;

verus! {

/// The opening bracket that starts a transport line.
pub const OPEN: u8 = 0x5B;

/// The colon between the marker and the payload.
pub const SEPARATOR: u8 = 0x3A;

/// The closing bracket, the delimiter that ends the payload.
pub const CLOSE: u8 = 0x5D;

/// The line terminator.
pub const NEWLINE: u8 = 0x0A;

/// The marker of the first logger: the text `DEFMT-A`.
pub fn logger_a_marker() -> (marker: Vec<u8>)
    ensures
        marker@ == seq![0x44u8, 0x45, 0x46, 0x4D, 0x54, 0x2D, 0x41],
{
    let marker: Vec<u8> = vec![0x44u8, 0x45, 0x46, 0x4D, 0x54, 0x2D, 0x41];
    marker
}

/// The marker of the second logger: the text `DEFMT-B`.
pub fn logger_b_marker() -> (marker: Vec<u8>)
    ensures
        marker@ == seq![0x44u8, 0x45, 0x46, 0x4D, 0x54, 0x2D, 0x42],
{
    let marker: Vec<u8> = vec![0x44u8, 0x45, 0x46, 0x4D, 0x54, 0x2D, 0x42];
    marker
}

/// What every transport line of a marker begins with.
pub open spec fn line_prefix(marker: Seq<u8>) -> Seq<u8> {
    seq![OPEN] + marker + seq![SEPARATOR]
}

/// The transport line that carries `payload` under `marker`.
pub open spec fn transport_line(marker: Seq<u8>, payload: Seq<u8>) -> Seq<u8> {
    line_prefix(marker) + hex_text(payload) + seq![CLOSE, NEWLINE]
}

/// The transport lines of several chunks, one line for each, in their order.
pub open spec fn transport_lines(marker: Seq<u8>, chunks: Seq<Seq<u8>>) -> Seq<u8>
    decreases chunks.len(),
{
    if chunks.len() == 0 {
        Seq::empty()
    } else {
        transport_lines(marker, chunks.drop_last()) + transport_line(marker, chunks.last())
    }
}

/// The contents of a list of chunks.
pub open spec fn payloads(chunks: Seq<Vec<u8>>) -> Seq<Seq<u8>> {
    chunks.map_values(|chunk: Vec<u8>| chunk@)
}

/// Whether `line` begins with `prefix`.
pub open spec fn begins_with(line: Seq<u8>, prefix: Seq<u8>) -> bool {
    prefix.len() <= line.len() && line.subrange(0, prefix.len() as int) == prefix
}

/// Whether a line is addressed to the decoder: it begins with the marker's
/// prefix and holds a closing bracket somewhere.
pub open spec fn is_marked(marker: Seq<u8>, line: Seq<u8>) -> bool {
    begins_with(line, line_prefix(marker)) && line.contains(CLOSE)
}

/// The hexadecimal text of a marked line: what is left once the prefix is
/// taken from the front and the delimiter from the end, the delimiter being
/// a closing bracket with or without a newline after it. A line that does
/// not end in the delimiter has no such text.
pub open spec fn payload_text(marker: Seq<u8>, line: Seq<u8>) -> Option<Seq<u8>> {
    let rest = line.skip(line_prefix(marker).len() as int);
    let n = rest.len() as int;
    if !is_marked(marker, line) {
        None
    } else if n >= 2 && rest[n - 2] == CLOSE && rest[n - 1] == NEWLINE {
        Some(rest.take(n - 2))
    } else if n >= 1 && rest[n - 1] == CLOSE {
        Some(rest.take(n - 1))
    } else {
        None
    }
}

/// What a line of output is to the consumer, as a mathematical value.
pub enum LineClass {
    /// Plain text, to be written through unchanged.
    Plain,
    /// A transport line, with the bytes recovered from its payload.
    Payload(Seq<u8>),
    /// A marked line that does not end in the delimiter: neither decoded
    /// nor written through.
    Discarded,
}

/// The class of a line under a marker.
pub open spec fn classify(marker: Seq<u8>, line: Seq<u8>) -> LineClass {
    if !is_marked(marker, line) {
        LineClass::Plain
    } else {
        match payload_text(marker, line) {
            Some(text) => LineClass::Payload(decode_pairs(text)),
            None => LineClass::Discarded,
        }
    }
}

/// What a line of output is to the consumer.
#[derive(Debug, Clone, PartialEq, Eq)]
pub enum LineKind {
    /// Plain text, to be written through unchanged.
    Plain,
    /// A transport line, with the bytes recovered from its payload.
    Payload(Vec<u8>),
    /// A marked line that does not end in the delimiter.
    Discarded,
}

impl View for LineKind {
    type V = LineClass;

    open spec fn view(&self) -> LineClass {
        match self {
            LineKind::Plain => LineClass::Plain,
            LineKind::Payload(bytes) => LineClass::Payload(bytes@),
            LineKind::Discarded => LineClass::Discarded,
        }
    }
}

/// Appends to `sink` the transport line that carries `payload` under `marker`.
pub fn emit(marker: &[u8], payload: &[u8], sink: &mut Vec<u8>)
    ensures
        final(sink)@ == old(sink)@ + transport_line(marker@, payload@),
{
    sink.push(OPEN);
    sink.extend_from_slice(marker);
    sink.push(SEPARATOR);
    write_hex(payload, sink);
    sink.push(CLOSE);
    sink.push(NEWLINE);
}

/// The transport line that carries `payload` under `marker`.
pub fn frame_line(marker: &[u8], payload: &[u8]) -> (line: Vec<u8>)
    ensures
        line@ == transport_line(marker@, payload@),
{
    let mut line: Vec<u8> = Vec::new();
    emit(marker, payload, &mut line);
    line
}

/// Appends to `sink` one transport line for each chunk, in their order.
pub fn emit_all(marker: &[u8], chunks: &Vec<Vec<u8>>, sink: &mut Vec<u8>)
    ensures
        final(sink)@ == old(sink)@ + transport_lines(marker@, payloads(chunks@)),
{
    let mut i: usize = 0;
    while i < chunks.len()
        invariant
            i <= chunks.len(),
            sink@ == old(sink)@ + transport_lines(marker@, payloads(chunks@.take(i as int))),
        decreases chunks.len() - i,
    {
        emit(marker, chunks[i].as_slice(), sink);
        assert(payloads(chunks@.take(i + 1)).drop_last() =~= payloads(chunks@.take(i as int)));
        i += 1;
    }
    assert(chunks@.take(i as int) =~= chunks@);
}

/// Whether `line` begins with the prefix of `marker`.
pub fn has_prefix(marker: &[u8], line: &[u8]) -> (yes: bool)
    ensures
        yes == begins_with(line@, line_prefix(marker@)),
{
    let ghost prefix = line_prefix(marker@);
    if line.len() < 2 || line.len() - 2 < marker.len() {
        return false;
    }
    if line[0] != OPEN {
        assert(line@.subrange(0, prefix.len() as int)[0] != prefix[0]);
        return false;
    }
    let mut i: usize = 0;
    while i < marker.len()
        invariant
            i <= marker.len(),
            marker.len() + 2 <= line.len(),
            prefix == line_prefix(marker@),
            forall|k: int| 0 <= k < i ==> line@[k + 1] == marker@[k],
        decreases marker.len() - i,
    {
        if line[i + 1] != marker[i] {
            assert(line@.subrange(0, prefix.len() as int)[i + 1] != prefix[i + 1]);
            return false;
        }
        i += 1;
    }
    if line[marker.len() + 1] != SEPARATOR {
        assert(line@.subrange(0, prefix.len() as int)[marker.len() + 1] != prefix[marker.len()
            + 1]);
        return false;
    }
    assert(line@.subrange(0, prefix.len() as int) =~= prefix);
    true
}

/// Whether `line` holds a closing bracket.
pub fn has_close(line: &[u8]) -> (yes: bool)
    ensures
        yes == line@.contains(CLOSE),
{
    let mut i: usize = 0;
    while i < line.len()
        invariant
            i <= line.len(),
            forall|k: int| 0 <= k < i ==> line@[k] != CLOSE,
        decreases line.len() - i,
    {
        if line[i] == CLOSE {
            return true;
        }
        i += 1;
    }
    false
}

/// Classifies one line of output and, where it is a transport line, recovers
/// the bytes of its payload.
pub fn classify_line(marker: &[u8], line: &[u8]) -> (kind: LineKind)
    ensures
        kind@ == classify(marker@, line@),
{
    if !has_prefix(marker, line) || !has_close(line) {
        return LineKind::Plain;
    }
    let end: usize = line.len();
    let start: usize = marker.len() + 2;
    let ghost rest = line@.skip(start as int);
    if end - start >= 2 && line[end - 2] == CLOSE && line[end - 1] == NEWLINE {
        let text = slice_subrange(line, start, end - 2);
        assert(text@ =~= rest.take(rest.len() - 2));
        LineKind::Payload(from_hex(text))
    } else if end - start >= 1 && line[end - 1] == CLOSE {
        let text = slice_subrange(line, start, end - 1);
        assert(text@ =~= rest.take(rest.len() - 1));
        LineKind::Payload(from_hex(text))
    } else {
        LineKind::Discarded
    }
}

/// Lines written one batch after another are the lines of all the chunks
/// in order.
pub proof fn lemma_lines_of_batches(marker: Seq<u8>, first: Seq<Seq<u8>>, second: Seq<Seq<u8>>)
    ensures
        transport_lines(marker, first + second) == transport_lines(marker, first)
            + transport_lines(marker, second),
    decreases second.len(),
{
    if second.len() > 0 {
        lemma_lines_of_batches(marker, first, second.drop_last());
        assert((first + second).drop_last() =~= first + second.drop_last());
    }
}

/// A line that does not begin with the marker's prefix is plain, whatever
/// else it holds: a prefix further along the line changes nothing.
pub proof fn lemma_unmarked_line_is_plain(marker: Seq<u8>, line: Seq<u8>)
    requires
        !begins_with(line, line_prefix(marker)),
    ensures
        classify(marker, line) == LineClass::Plain,
{
}

/// A marked line without a closing bracket is plain.
pub proof fn lemma_undelimited_line_is_plain(marker: Seq<u8>, line: Seq<u8>)
    requires
        !line.contains(CLOSE),
    ensures
        classify(marker, line) == LineClass::Plain,
{
}

/// The consumer recovers from a transport line exactly the bytes that the
/// producer put into it, in order, whatever the marker and the bytes are.
pub proof fn lemma_line_round_trip(marker: Seq<u8>, payload: Seq<u8>)
    ensures
        classify(marker, transport_line(marker, payload)) == LineClass::Payload(payload),
{
    let prefix = line_prefix(marker);
    let text = hex_text(payload);
    let line = transport_line(marker, payload);
    let rest = line.skip(prefix.len() as int);
    assert(line.subrange(0, prefix.len() as int) =~= prefix);
    assert(line[line.len() - 2] == CLOSE);
    assert(rest.take(rest.len() - 2) =~= text);
    lemma_hex_round_trip(payload);
}

/// A transport line written without its newline is read the same way.
pub proof fn lemma_line_round_trip_without_newline(marker: Seq<u8>, payload: Seq<u8>)
    ensures
        classify(marker, line_prefix(marker) + hex_text(payload) + seq![CLOSE])
            == LineClass::Payload(payload),
{
    let prefix = line_prefix(marker);
    let text = hex_text(payload);
    let line = prefix + text + seq![CLOSE];
    let rest = line.skip(prefix.len() as int);
    assert(line.subrange(0, prefix.len() as int) =~= prefix);
    assert(line[line.len() - 1] == CLOSE);
    assert(rest.take(rest.len() - 1) =~= text);
    lemma_hex_round_trip(payload);
}

} // verus!
