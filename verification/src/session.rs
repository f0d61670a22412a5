//! The consumer's run loop as a state machine.
//!
//! The loop itself belongs to the caller: it reads lines from the child,
//! polls whether the child has exited, feeds the decoder and writes output.
//! After each read and each poll it tells the session what happened, and the
//! session answers with what to write or feed and what to do next.

use crate::line::{
    begins_with, classify, classify_line, lemma_line_round_trip, line_prefix, transport_line,
    LineClass, LineKind,
};
use vstd::prelude::*;
use vstd::slice::slice_to_vec;

verus! {

/// Where the run stands.
#[derive(Debug, Clone, Copy, PartialEq, Eq)]
pub enum Phase {
    /// The next thing to do is to read a line.
    ReadLine,
    /// The stream has ended; the child is about to be polled on that account.
    PollAfterEof,
    /// A read attempt has been dealt with; the child is about to be polled
    /// before the next read.
    PollAfterLine,
    /// The run is over, with the exit code of the child if there is one.
    Terminated(Option<i32>),
}

/// What the caller reports to the session.
#[derive(Debug, Clone, PartialEq, Eq)]
pub enum Event {
    /// A line was read, terminator included.
    Line(Vec<u8>),
    /// The read met the end of the stream.
    EndOfStream,
    /// The read failed.
    ReadFailed,
    /// The child was polled and has not exited.
    ChildRunning,
    /// The child was polled and has exited, with this code if it left one.
    ChildExited(Option<i32>),
}

/// What the caller is to do next.
#[derive(Debug, Clone, Copy, PartialEq, Eq)]
pub enum Command {
    /// Read one line from the child's output.
    ReadLine,
    /// Poll whether the child has exited.
    PollChild,
    /// Stop, and exit with this code if there is one.
    Exit(Option<i32>),
}

/// What the caller is to do with what was read.
#[derive(Debug, Clone, PartialEq, Eq)]
pub enum Output {
    /// Nothing.
    Nothing,
    /// Write the line, byte for byte, to the ordinary output.
    PassThrough(Vec<u8>),
    /// Feed these bytes, at least one, to the decoder, once, and drain it.
    Feed(Vec<u8>),
    /// Note that reading the child's output failed.
    ReadError,
}

/// What the caller is to do with what was read, as a mathematical value.
pub enum OutputView {
    /// Nothing.
    Nothing,
    /// Write these bytes to the ordinary output.
    PassThrough(Seq<u8>),
    /// Feed these bytes to the decoder.
    Feed(Seq<u8>),
    /// Note that reading the child's output failed.
    ReadError,
}

impl View for Output {
    type V = OutputView;

    open spec fn view(&self) -> OutputView {
        match self {
            Output::Nothing => OutputView::Nothing,
            Output::PassThrough(line) => OutputView::PassThrough(line@),
            Output::Feed(bytes) => OutputView::Feed(bytes@),
            Output::ReadError => OutputView::ReadError,
        }
    }
}

/// The session's answer to one event.
#[derive(Debug, Clone, PartialEq, Eq)]
pub struct Reaction {
    /// What to write.
    pub output: Output,
    /// What to do next.
    pub next: Command,
}

/// The consumer's side of one run: the marker of the lines that are meant
/// for the decoder, and where the run stands.
#[derive(Debug, Clone, PartialEq, Eq)]
pub struct Session {
    /// The marker of the transport lines.
    pub marker: Vec<u8>,
    /// Where the run stands.
    pub phase: Phase,
}

/// The phase that follows `phase` on `event`.
///
/// A run that is over stays as it is. Otherwise a line or the end of the
/// stream leads to a poll, a failed read ends the run without a code, and an
/// exit of the child ends it with the child's code. A child that is still
/// running is polled once more after the end of the stream, and otherwise
/// read from again.
pub open spec fn next_phase(phase: Phase, event: Event) -> Phase {
    match phase {
        Phase::Terminated(_) => phase,
        _ => match event {
            Event::Line(_) => Phase::PollAfterLine,
            Event::EndOfStream => Phase::PollAfterEof,
            Event::ReadFailed => Phase::Terminated(None),
            Event::ChildExited(code) => Phase::Terminated(code),
            Event::ChildRunning => match phase {
                Phase::PollAfterEof => Phase::PollAfterLine,
                _ => Phase::ReadLine,
            },
        },
    }
}

/// What there is to do in `phase`.
pub open spec fn command_of(phase: Phase) -> Command {
    match phase {
        Phase::ReadLine => Command::ReadLine,
        Phase::PollAfterEof => Command::PollChild,
        Phase::PollAfterLine => Command::PollChild,
        Phase::Terminated(code) => Command::Exit(code),
    }
}

/// What is to be done with what `event` brings in `phase`.
///
/// While the run is on, a plain line is written through as it is, a
/// transport line that carries at least one byte has its bytes fed to the
/// decoder, and a failed read is noted. Nothing is done on a transport line
/// without bytes, on a marked line that does not end in the delimiter, on
/// any other event, or once the run is over.
pub open spec fn output_of(marker: Seq<u8>, phase: Phase, event: Event) -> OutputView {
    match (phase, event) {
        (Phase::Terminated(_), _) => OutputView::Nothing,
        (_, Event::Line(line)) => match classify(marker, line@) {
            LineClass::Plain => OutputView::PassThrough(line@),
            LineClass::Payload(bytes) => if bytes.len() > 0 {
                OutputView::Feed(bytes)
            } else {
                OutputView::Nothing
            },
            LineClass::Discarded => OutputView::Nothing,
        },
        (_, Event::ReadFailed) => OutputView::ReadError,
        _ => OutputView::Nothing,
    }
}

/// The phase after a whole sequence of events.
pub open spec fn phase_after(phase: Phase, events: Seq<Event>) -> Phase
    decreases events.len(),
{
    if events.len() == 0 {
        phase
    } else {
        next_phase(phase_after(phase, events.drop_last()), events.last())
    }
}

impl Session {
    /// A session at the start of a run.
    pub fn new(marker: &[u8]) -> (session: Self)
        ensures
            session.marker@ == marker@,
            session.phase == Phase::ReadLine,
    {
        Session { marker: slice_to_vec(marker), phase: Phase::ReadLine }
    }

    /// What the caller is to do now.
    pub fn command(&self) -> (command: Command)
        ensures
            command == command_of(self.phase),
    {
        match self.phase {
            Phase::ReadLine => Command::ReadLine,
            Phase::PollAfterEof => Command::PollChild,
            Phase::PollAfterLine => Command::PollChild,
            Phase::Terminated(code) => Command::Exit(code),
        }
    }

    /// Whether the run is over.
    pub fn is_terminated(&self) -> (over: bool)
        ensures
            over == (self.phase is Terminated),
    {
        match self.phase {
            Phase::Terminated(_) => true,
            _ => false,
        }
    }

    /// The exit code to leave with: that of the child, once the run is over
    /// and the child has left one.
    pub fn exit_code(&self) -> (code: Option<i32>)
        ensures
            code == (match self.phase {
                Phase::Terminated(recorded) => recorded,
                _ => None,
            }),
    {
        match self.phase {
            Phase::Terminated(recorded) => recorded,
            _ => None,
        }
    }

    /// Takes one event into account: the phase moves as `next_phase` says,
    /// the output is that of `output_of`, and the command is the one of the
    /// new phase.
    pub fn step(&mut self, event: Event) -> (reaction: Reaction)
        ensures
            final(self).marker == old(self).marker,
            final(self).phase == next_phase(old(self).phase, event),
            reaction.output@ == output_of(old(self).marker@, old(self).phase, event),
            reaction.next == command_of(final(self).phase),
    {
        if self.is_terminated() {
            return Reaction { output: Output::Nothing, next: self.command() };
        }
        let output = match event {
            Event::Line(line) => {
                self.phase = Phase::PollAfterLine;
                match classify_line(self.marker.as_slice(), line.as_slice()) {
                    LineKind::Plain => Output::PassThrough(line),
                    LineKind::Discarded => Output::Nothing,
                    LineKind::Payload(bytes) => {
                        if bytes.len() == 0 {
                            Output::Nothing
                        } else {
                            Output::Feed(bytes)
                        }
                    },
                }
            },
            Event::EndOfStream => {
                self.phase = Phase::PollAfterEof;
                Output::Nothing
            },
            Event::ReadFailed => {
                self.phase = Phase::Terminated(None);
                Output::ReadError
            },
            Event::ChildExited(code) => {
                self.phase = Phase::Terminated(code);
                Output::Nothing
            },
            Event::ChildRunning => {
                self.phase = match self.phase {
                    Phase::PollAfterEof => Phase::PollAfterLine,
                    _ => Phase::ReadLine,
                };
                Output::Nothing
            },
        };
        Reaction { output, next: self.command() }
    }
}

/// While the run is on, a line that does not begin with the marker's prefix
/// is written through as it is, byte for byte, and the decoder gets nothing
/// of it, also where the prefix occurs further along the line.
pub proof fn lemma_plain_line_passes_through(marker: Seq<u8>, phase: Phase, line: Vec<u8>)
    requires
        !(phase is Terminated),
        !begins_with(line@, line_prefix(marker)),
    ensures
        output_of(marker, phase, Event::Line(line)) == OutputView::PassThrough(line@),
{
}

/// While the run is on, the line that the producer writes for a chunk of at
/// least one byte has exactly that chunk fed to the decoder.
pub proof fn lemma_transport_line_is_fed(
    marker: Seq<u8>,
    phase: Phase,
    line: Vec<u8>,
    chunk: Seq<u8>,
)
    requires
        !(phase is Terminated),
        chunk.len() > 0,
        line@ == transport_line(marker, chunk),
    ensures
        output_of(marker, phase, Event::Line(line)) == OutputView::Feed(chunk),
{
    lemma_line_round_trip(marker, chunk);
}

/// A run that is over stays over, with the exit code it ended with, whatever
/// is reported to it afterwards.
pub proof fn lemma_terminated_is_final(code: Option<i32>, events: Seq<Event>)
    ensures
        phase_after(Phase::Terminated(code), events) == Phase::Terminated(code),
    decreases events.len(),
{
    if events.len() > 0 {
        lemma_terminated_is_final(code, events.drop_last());
    }
}

/// When the child is found to have exited while the run is on, the run ends
/// with the child's exit code, and that is the code the caller is told to
/// exit with, then and after any further events.
pub proof fn lemma_exit_code_is_the_childs(phase: Phase, code: Option<i32>, later: Seq<Event>)
    requires
        !(phase is Terminated),
    ensures
        next_phase(phase, Event::ChildExited(code)) == Phase::Terminated(code),
        command_of(phase_after(next_phase(phase, Event::ChildExited(code)), later))
            == Command::Exit(code),
{
    lemma_terminated_is_final(code, later);
}

/// While the run is on, every read attempt that did not fail is followed by
/// a poll of the child, so that a child that has exited is noticed without
/// another read.
pub proof fn lemma_poll_follows_read(phase: Phase, event: Event)
    requires
        !(phase is Terminated),
        event is Line || event is EndOfStream,
    ensures
        command_of(next_phase(phase, event)) == Command::PollChild,
{
}

/// A failed read ends the run without an exit code.
pub proof fn lemma_failed_read_ends_run(phase: Phase)
    requires
        !(phase is Terminated),
    ensures
        next_phase(phase, Event::ReadFailed) == Phase::Terminated(None),
{
}

} // verus!
