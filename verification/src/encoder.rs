//! The producing side: a frame codec behind a lock that cannot be entered twice.
//!
//! The lock is the restore token of a critical section. Whoever opens a frame
//! hands the token in, and gets the same token back when the lock is given
//! up. Entering the critical section and leaving it is the caller's part; so
//! is writing the text that each operation hands out to the console.
//!
//! A frame is closed in two steps, `end_frame` and `release`. The first ends
//! the frame in the codec and hands out its last text, the second gives up
//! the lock. The caller writes the text between the two, so that all that
//! is written for a frame is written while the lock is held.

use crate::line::{emit_all, payloads, transport_lines};
use vstd::prelude::*;
use vstd::slice::slice_to_vec;

verus! {

/// `defmt::Encoder`, the frame codec. What it holds is private to its crate:
/// the library keeps one and hands it to the codec's own functions.
#[verifier::external_type_specification]
#[verifier::external_body]
pub struct ExCodec(defmt::Encoder);

/// What the codec flushed during one operation, and the console text for it.
#[derive(Debug, Clone, PartialEq, Eq)]
pub struct Flush {
    /// The chunks in the order in which the codec flushed them.
    pub chunks: Vec<Vec<u8>>,
    /// One transport line for each chunk, in the same order.
    pub text: Vec<u8>,
}

impl Flush {
    /// The text is exactly the transport lines of the chunks under `marker`.
    pub open spec fn framed_under(&self, marker: Seq<u8>) -> bool {
        self.text@ == transport_lines(marker, payloads(self.chunks@))
    }
}

/// A call that breaks the lock discipline. None of them can be recovered
/// from: the caller is expected to stop the program with the message.
#[derive(Debug, Clone, Copy, PartialEq, Eq)]
pub enum Misuse {
    /// A frame was opened while another was open.
    Reentrant,
    /// Bytes were written while no frame was open.
    WriteOutOfContext,
    /// A frame was ended while none was open, or the lock was given up
    /// while no frame had been ended.
    ReleaseOutOfContext,
}

impl Misuse {
    /// The message to stop the program with.
    pub fn message(&self) -> (text: &'static str)
        ensures
            *self == Misuse::Reentrant ==> text@ == "defmt logger taken reentrantly"@,
            *self == Misuse::WriteOutOfContext ==> text@ == "defmt write out of context"@,
            *self == Misuse::ReleaseOutOfContext ==> text@ == "defmt release out of context"@,
    {
        match self {
            Misuse::Reentrant => "defmt logger taken reentrantly",
            Misuse::WriteOutOfContext => "defmt write out of context",
            Misuse::ReleaseOutOfContext => "defmt release out of context",
        }
    }
}

/// The encoder of one logger: the codec, the marker of its transport lines,
/// and the restore token of the critical section while the lock is held.
///
/// The token is present exactly while the encoder is locked. A locked
/// encoder has its frame either open or ended.
pub struct LogEncoder<T> {
    restore: Option<T>,
    ended: bool,
    codec: defmt::Encoder,
    marker: Vec<u8>,
}

/// Everything that a codec carries from one call to the next, as bytes. How
/// they are laid out is the codec's own affair: the library only hands them
/// from one call's outcome to the next call.
pub uninterp spec fn codec_state(codec: defmt::Encoder) -> Seq<u8>;

/// What `defmt::Encoder::start_frame` does with a codec in the given state:
/// the chunks that it flushes, in order, and the state that it leaves.
pub uninterp spec fn start_frame_outcome(state: Seq<u8>) -> (Seq<Seq<u8>>, Seq<u8>);

/// What `defmt::Encoder::write` does with a codec in the given state and the
/// given data: the chunks that it flushes, in order, and the state that it
/// leaves.
pub uninterp spec fn write_outcome(state: Seq<u8>, data: Seq<u8>) -> (Seq<Seq<u8>>, Seq<u8>);

/// What `defmt::Encoder::end_frame` does with a codec in the given state:
/// the chunks that it flushes, in order, and the state that it leaves.
pub uninterp spec fn end_frame_outcome(state: Seq<u8>) -> (Seq<Seq<u8>>, Seq<u8>);

/// Calls `defmt::Encoder::new`. Nothing is claimed of the codec it returns.
#[verifier::external_body]
fn codec_new() -> (codec: defmt::Encoder) {
    defmt::Encoder::new()
}

/// Calls `defmt::Encoder::start_frame` and returns, in order, a copy of each
/// chunk that the codec passed to its write callback. The claim is only that
/// the chunks and the codec afterwards depend on nothing but the codec before.
#[verifier::external_body]
fn codec_start_frame(codec: &mut defmt::Encoder) -> (chunks: Vec<Vec<u8>>)
    ensures
        payloads(chunks@) == start_frame_outcome(codec_state(*old(codec))).0,
        codec_state(*final(codec)) == start_frame_outcome(codec_state(*old(codec))).1,
{
    let mut chunks: Vec<Vec<u8>> = Vec::new();
    codec.start_frame(|chunk| keep_chunk(&mut chunks, chunk));
    chunks
}

/// Calls `defmt::Encoder::write` with `data` and returns, in order, a copy of
/// each chunk that the codec passed to its write callback. The claim is only
/// that the chunks and the codec afterwards depend on nothing but the codec
/// before and `data`.
#[verifier::external_body]
fn codec_write(codec: &mut defmt::Encoder, data: &[u8]) -> (chunks: Vec<Vec<u8>>)
    ensures
        payloads(chunks@) == write_outcome(codec_state(*old(codec)), data@).0,
        codec_state(*final(codec)) == write_outcome(codec_state(*old(codec)), data@).1,
{
    let mut chunks: Vec<Vec<u8>> = Vec::new();
    codec.write(data, |chunk| keep_chunk(&mut chunks, chunk));
    chunks
}

/// Calls `defmt::Encoder::end_frame` and returns, in order, a copy of each
/// chunk that the codec passed to its write callback. The claim is only that
/// the chunks and the codec afterwards depend on nothing but the codec before.
#[verifier::external_body]
fn codec_end_frame(codec: &mut defmt::Encoder) -> (chunks: Vec<Vec<u8>>)
    ensures
        payloads(chunks@) == end_frame_outcome(codec_state(*old(codec))).0,
        codec_state(*final(codec)) == end_frame_outcome(codec_state(*old(codec))).1,
{
    let mut chunks: Vec<Vec<u8>> = Vec::new();
    codec.end_frame(|chunk| keep_chunk(&mut chunks, chunk));
    chunks
}

/// Appends a copy of `chunk` to `chunks`.
pub fn keep_chunk(chunks: &mut Vec<Vec<u8>>, chunk: &[u8])
    ensures
        payloads(final(chunks)@) == payloads(old(chunks)@).push(chunk@),
{
    chunks.push(slice_to_vec(chunk));
}

/// Frames the chunks of one codec call under `marker`.
pub fn frame_chunks(marker: &[u8], chunks: Vec<Vec<u8>>) -> (flush: Flush)
    ensures
        flush.chunks == chunks,
        flush.framed_under(marker@),
{
    let mut text: Vec<u8> = Vec::new();
    emit_all(marker, &chunks, &mut text);
    Flush { chunks, text }
}

impl<T> LogEncoder<T> {
    /// Whether the lock is held.
    pub closed spec fn locked(&self) -> bool {
        self.restore is Some
    }

    /// Whether a frame is open: the lock is held and the frame takes bytes.
    pub closed spec fn frame_open(&self) -> bool {
        self.restore is Some && !self.ended
    }

    /// Whether a frame is being closed: the lock is held and the frame has
    /// been ended in the codec.
    pub closed spec fn closing(&self) -> bool {
        self.restore is Some && self.ended
    }

    /// The restore token that the encoder holds, if it is locked.
    pub closed spec fn token(&self) -> Option<T> {
        self.restore
    }

    /// The marker of the encoder's transport lines.
    pub closed spec fn marker(&self) -> Seq<u8> {
        self.marker@
    }

    /// The state of the encoder's codec.
    pub closed spec fn codec(&self) -> Seq<u8> {
        codec_state(self.codec)
    }

    /// The token is there exactly while the encoder is locked, and a locked
    /// encoder has its frame either open or ended, never both.
    pub proof fn lemma_lock_states(&self)
        ensures
            self.locked() <==> self.token() is Some,
            self.locked() <==> self.frame_open() || self.closing(),
            !(self.frame_open() && self.closing()),
    {
    }

    /// A new encoder, not locked.
    pub fn new(marker: &[u8]) -> (encoder: Self)
        ensures
            !encoder.locked(),
            !encoder.frame_open(),
            !encoder.closing(),
            encoder.marker() == marker@,
    {
        LogEncoder { restore: None, ended: false, codec: codec_new(), marker: slice_to_vec(marker) }
    }

    /// Whether the lock is held.
    pub fn is_locked(&self) -> (locked: bool)
        ensures
            locked == self.locked(),
    {
        self.restore.is_some()
    }

    /// Whether a frame is open.
    pub fn is_frame_open(&self) -> (open: bool)
        ensures
            open == self.frame_open(),
    {
        self.restore.is_some() && !self.ended
    }

    /// Whether a frame is being closed.
    pub fn is_closing(&self) -> (closing: bool)
        ensures
            closing == self.closing(),
    {
        self.restore.is_some() && self.ended
    }

    /// Opens a frame: takes the restore token of the critical section that
    /// the caller has entered, and starts a frame in the codec.
    pub fn acquire(&mut self, token: T) -> (flush: Flush)
        requires
            !old(self).locked(),
        ensures
            final(self).locked(),
            final(self).frame_open(),
            !final(self).closing(),
            final(self).token() == Some(token),
            final(self).marker() == old(self).marker(),
            final(self).codec() == start_frame_outcome(old(self).codec()).1,
            payloads(flush.chunks@) == start_frame_outcome(old(self).codec()).0,
            flush.framed_under(old(self).marker()),
    {
        self.restore = Some(token);
        self.ended = false;
        let chunks = codec_start_frame(&mut self.codec);
        frame_chunks(self.marker.as_slice(), chunks)
    }

    /// Hands `bytes` to the codec for the open frame.
    pub fn write(&mut self, bytes: &[u8]) -> (flush: Flush)
        requires
            old(self).frame_open(),
        ensures
            final(self).locked(),
            final(self).frame_open(),
            !final(self).closing(),
            final(self).token() == old(self).token(),
            final(self).marker() == old(self).marker(),
            final(self).codec() == write_outcome(old(self).codec(), bytes@).1,
            payloads(flush.chunks@) == write_outcome(old(self).codec(), bytes@).0,
            flush.framed_under(old(self).marker()),
    {
        let chunks = codec_write(&mut self.codec, bytes);
        frame_chunks(self.marker.as_slice(), chunks)
    }

    /// Ends the open frame in the codec and hands out its last text. The
    /// lock stays held, for the caller to write that text under it.
    pub fn end_frame(&mut self) -> (flush: Flush)
        requires
            old(self).frame_open(),
        ensures
            final(self).locked(),
            final(self).closing(),
            !final(self).frame_open(),
            final(self).token() == old(self).token(),
            final(self).marker() == old(self).marker(),
            final(self).codec() == end_frame_outcome(old(self).codec()).1,
            payloads(flush.chunks@) == end_frame_outcome(old(self).codec()).0,
            flush.framed_under(old(self).marker()),
    {
        let chunks = codec_end_frame(&mut self.codec);
        self.ended = true;
        frame_chunks(self.marker.as_slice(), chunks)
    }

    /// Gives up the lock after the frame has been ended, and gives back the
    /// restore token that the matching `acquire` took, for the caller to
    /// leave the critical section with.
    pub fn release(&mut self) -> (token: T)
        requires
            old(self).closing(),
        ensures
            !final(self).locked(),
            !final(self).frame_open(),
            !final(self).closing(),
            old(self).token() == Some(token),
            final(self).marker() == old(self).marker(),
            final(self).codec() == old(self).codec(),
    {
        self.ended = false;
        self.restore.take().unwrap()
    }

    /// Opens a frame unless the lock is held; then the call is refused and
    /// the encoder stays as it was.
    pub fn try_acquire(&mut self, token: T) -> (outcome: Result<Flush, Misuse>)
        ensures
            old(self).locked() ==> outcome == Err::<Flush, Misuse>(Misuse::Reentrant),
            old(self).locked() ==> *final(self) == *old(self),
            !old(self).locked() ==> outcome is Ok,
            !old(self).locked() ==> final(self).locked(),
            !old(self).locked() ==> final(self).frame_open(),
            !old(self).locked() ==> !final(self).closing(),
            !old(self).locked() ==> final(self).token() == Some(token),
            !old(self).locked() ==> final(self).marker() == old(self).marker(),
            !old(self).locked() ==> final(self).codec() == start_frame_outcome(
                old(self).codec(),
            ).1,
            !old(self).locked() ==> payloads(outcome->Ok_0.chunks@) == start_frame_outcome(
                old(self).codec(),
            ).0,
            !old(self).locked() ==> outcome->Ok_0.framed_under(old(self).marker()),
    {
        if self.is_locked() {
            Err(Misuse::Reentrant)
        } else {
            Ok(self.acquire(token))
        }
    }

    /// Writes into the open frame; where none is open the call is refused
    /// and the encoder stays as it was.
    pub fn try_write(&mut self, bytes: &[u8]) -> (outcome: Result<Flush, Misuse>)
        ensures
            !old(self).frame_open() ==> outcome == Err::<Flush, Misuse>(
                Misuse::WriteOutOfContext,
            ),
            !old(self).frame_open() ==> *final(self) == *old(self),
            old(self).frame_open() ==> outcome is Ok,
            old(self).frame_open() ==> final(self).locked(),
            old(self).frame_open() ==> final(self).frame_open(),
            old(self).frame_open() ==> !final(self).closing(),
            old(self).frame_open() ==> final(self).token() == old(self).token(),
            old(self).frame_open() ==> final(self).marker() == old(self).marker(),
            old(self).frame_open() ==> final(self).codec() == write_outcome(
                old(self).codec(),
                bytes@,
            ).1,
            old(self).frame_open() ==> payloads(outcome->Ok_0.chunks@) == write_outcome(
                old(self).codec(),
                bytes@,
            ).0,
            old(self).frame_open() ==> outcome->Ok_0.framed_under(old(self).marker()),
    {
        if self.is_frame_open() {
            Ok(self.write(bytes))
        } else {
            Err(Misuse::WriteOutOfContext)
        }
    }

    /// Ends the open frame; where none is open the call is refused and the
    /// encoder stays as it was.
    pub fn try_end_frame(&mut self) -> (outcome: Result<Flush, Misuse>)
        ensures
            !old(self).frame_open() ==> outcome == Err::<Flush, Misuse>(
                Misuse::ReleaseOutOfContext,
            ),
            !old(self).frame_open() ==> *final(self) == *old(self),
            old(self).frame_open() ==> outcome is Ok,
            old(self).frame_open() ==> final(self).locked(),
            old(self).frame_open() ==> final(self).closing(),
            old(self).frame_open() ==> !final(self).frame_open(),
            old(self).frame_open() ==> final(self).token() == old(self).token(),
            old(self).frame_open() ==> final(self).marker() == old(self).marker(),
            old(self).frame_open() ==> final(self).codec() == end_frame_outcome(
                old(self).codec(),
            ).1,
            old(self).frame_open() ==> payloads(outcome->Ok_0.chunks@) == end_frame_outcome(
                old(self).codec(),
            ).0,
            old(self).frame_open() ==> outcome->Ok_0.framed_under(old(self).marker()),
    {
        if self.is_frame_open() {
            Ok(self.end_frame())
        } else {
            Err(Misuse::ReleaseOutOfContext)
        }
    }

    /// Gives up the lock after the frame has been ended; in any other state
    /// the call is refused and the encoder stays as it was.
    pub fn try_release(&mut self) -> (outcome: Result<T, Misuse>)
        ensures
            !old(self).closing() ==> outcome == Err::<T, Misuse>(Misuse::ReleaseOutOfContext),
            !old(self).closing() ==> *final(self) == *old(self),
            old(self).closing() ==> outcome is Ok,
            old(self).closing() ==> !final(self).locked(),
            old(self).closing() ==> !final(self).frame_open(),
            old(self).closing() ==> !final(self).closing(),
            old(self).closing() ==> old(self).token() == Some(outcome->Ok_0),
            old(self).closing() ==> final(self).marker() == old(self).marker(),
            old(self).closing() ==> final(self).codec() == old(self).codec(),
    {
        if self.is_closing() {
            Ok(self.release())
        } else {
            Err(Misuse::ReleaseOutOfContext)
        }
    }
}

} // verus!
