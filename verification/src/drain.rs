//! The stream decoder driver's decisions: what to do with each answer that
//! the streaming decoder gives when it is asked for the next frame.
//!
//! The decoder itself is the caller's. After every feed the caller asks it
//! for frames, shows each answer to `absorb`, and goes on asking until
//! `absorb` says to stop.

use vstd::prelude::*;

verus! {

/// What the decoder answers when asked for the next frame.
#[derive(Debug, Clone, PartialEq, Eq)]
pub enum DecodeStep {
    /// One frame, rendered for display.
    Frame(String),
    /// The bytes received so far do not complete a frame.
    NeedMoreData,
    /// The bytes received are not a frame.
    Malformed,
}

/// Why draining stopped.
#[derive(Debug, Clone, Copy, PartialEq, Eq)]
pub enum Stop {
    /// The decoder waits for more bytes; what it holds is kept for the next feed.
    NeedMoreData,
    /// The decoder met bytes that are not a frame. This ends one drain, never the run.
    Malformed,
}

/// Takes one answer of the decoder into account: a frame is added to
/// `frames` and draining goes on; any other answer leaves `frames` alone
/// and stops the drain, with the answer as the reason. Neither reason is an
/// error.
pub fn absorb(frames: &mut Vec<String>, step: DecodeStep) -> (stop: Option<Stop>)
    ensures
        step matches DecodeStep::Frame(text) ==> stop is None && final(frames)@ == old(
            frames,
        )@.push(text),
        step is NeedMoreData ==> stop == Some(Stop::NeedMoreData) && final(frames)@ == old(
            frames,
        )@,
        step is Malformed ==> stop == Some(Stop::Malformed) && final(frames)@ == old(frames)@,
{
    match step {
        DecodeStep::Frame(text) => {
            frames.push(text);
            None
        },
        DecodeStep::NeedMoreData => Some(Stop::NeedMoreData),
        DecodeStep::Malformed => Some(Stop::Malformed),
    }
}

} // verus!
