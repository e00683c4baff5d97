//! Capturing the two output streams of one process as ordered line events.
//!
//! Each stream is framed into lines on its own, so the order of the lines
//! within a stream is the order in which the process wrote them. The two
//! streams share one counter, which numbers the events in the order in which
//! they were handed out.

use crate::services::line_framing::{complete_lines, remainder, LineBuffer};
use crate::services::text::{decode_lossy, utf8_lossy};
use crate::views::views;
use vstd::prelude::*;

verus! {

/// Which of the two output streams of a process a line came from.
#[derive(Clone, Copy, Debug, PartialEq, Eq, Structural)]
pub enum StreamSource {
    Stdout,
    Stderr,
}

/// One line of output.
#[derive(Clone, Debug, PartialEq, Eq)]
pub struct OutputEvent {
    /// The stream that the line was read from.
    pub source: StreamSource,
    /// The line, without its terminator.
    pub text: String,
    /// The position of the event among all events of its process.
    pub sequence: u64,
}

/// An [`OutputEvent`] as a mathematical value.
pub struct OutputEventView {
    pub source: StreamSource,
    pub text: Seq<char>,
    pub sequence: nat,
}

impl View for OutputEvent {
    type V = OutputEventView;

    open spec fn view(&self) -> OutputEventView {
        OutputEventView { source: self.source, text: self.text@, sequence: self.sequence as nat }
    }
}

impl OutputEvent {
    /// The event for one decoded line.
    pub fn line(source: StreamSource, text: String, sequence: u64) -> (event: OutputEvent)
        ensures
            event@ == (OutputEventView { source, text: text@, sequence: sequence as nat }),
    {
        OutputEvent { source, text, sequence }
    }
}

/// One stream as the multiplexer sees it.
pub struct StreamView {
    /// The bytes received since the last line feed.
    pub pending: Seq<u8>,
    /// Whether the end of the stream, or a fault on it, has been seen.
    pub closed: bool,
}

/// The state of a multiplexer as a mathematical value.
pub struct MuxView {
    pub stdout: StreamView,
    pub stderr: StreamView,
    /// The number that the next event gets.
    pub next_sequence: nat,
}

/// The events for `lines` read from `source`, numbered from `first` on.
pub open spec fn line_events(source: StreamSource, lines: Seq<Seq<u8>>, first: nat) -> Seq<
    OutputEventView,
> {
    Seq::new(
        lines.len(),
        |i: int| OutputEventView { source, text: utf8_lossy(lines[i]), sequence: (first + i) as nat },
    )
}

impl MuxView {
    /// The state right after attaching to a process: both streams open,
    /// nothing received, nothing handed out.
    pub open spec fn attached() -> MuxView {
        MuxView {
            stdout: StreamView { pending: Seq::empty(), closed: false },
            stderr: StreamView { pending: Seq::empty(), closed: false },
            next_sequence: 0,
        }
    }

    /// The stream `source`.
    pub open spec fn stream(self, source: StreamSource) -> StreamView {
        match source {
            StreamSource::Stdout => self.stdout,
            StreamSource::Stderr => self.stderr,
        }
    }

    /// The same state but for the stream `source`, which becomes `stream`.
    pub open spec fn with_stream(self, source: StreamSource, stream: StreamView) -> MuxView {
        match source {
            StreamSource::Stdout => MuxView { stdout: stream, ..self },
            StreamSource::Stderr => MuxView { stderr: stream, ..self },
        }
    }

    /// Both streams have ended.
    pub open spec fn drained(self) -> bool {
        self.stdout.closed && self.stderr.closed
    }

    /// The state after `count` more events were handed out and `source`
    /// became `stream`.
    pub open spec fn advanced(self, source: StreamSource, stream: StreamView, count: nat) -> MuxView {
        MuxView { next_sequence: self.next_sequence + count, ..self.with_stream(source, stream) }
    }

    /// A chunk arrives on `source`. Each line that it completes becomes one
    /// event. A closed stream takes nothing.
    pub open spec fn feed(self, source: StreamSource, chunk: Seq<u8>) -> (MuxView, Seq<
        OutputEventView,
    >) {
        let stream = self.stream(source);
        if stream.closed {
            (self, Seq::empty())
        } else {
            let received = stream.pending + chunk;
            let lines = complete_lines(received);
            (
                self.advanced(
                    source,
                    StreamView { pending: remainder(received), closed: false },
                    lines.len(),
                ),
                line_events(source, lines, self.next_sequence),
            )
        }
    }

    /// `source` ends. A last line without terminator becomes one event.
    pub open spec fn close(self, source: StreamSource) -> (MuxView, Seq<OutputEventView>) {
        let stream = self.stream(source);
        if stream.closed {
            (self, Seq::empty())
        } else {
            let lines = if stream.pending.len() > 0 {
                seq![stream.pending]
            } else {
                Seq::empty()
            };
            (
                self.advanced(
                    source,
                    StreamView { pending: Seq::empty(), closed: true },
                    lines.len(),
                ),
                line_events(source, lines, self.next_sequence),
            )
        }
    }

    /// Reading `source` fails. The stream ends with one event that carries
    /// the description of the fault; an unfinished line is given up.
    pub open spec fn fault(self, source: StreamSource, description: Seq<char>) -> (MuxView, Seq<
        OutputEventView,
    >) {
        let stream = self.stream(source);
        if stream.closed {
            (self, Seq::empty())
        } else {
            (
                self.advanced(source, StreamView { pending: Seq::empty(), closed: true }, 1),
                seq![
                    OutputEventView { source, text: description, sequence: self.next_sequence },
                ],
            )
        }
    }
}

/// The line reader of one process: two streams and the counter they share.
pub struct OutputMultiplexer {
    stdout: LineBuffer,
    stdout_closed: bool,
    stderr: LineBuffer,
    stderr_closed: bool,
    next_sequence: u64,
}

impl View for OutputMultiplexer {
    type V = MuxView;

    closed spec fn view(&self) -> MuxView {
        MuxView {
            stdout: StreamView { pending: self.stdout@, closed: self.stdout_closed },
            stderr: StreamView { pending: self.stderr@, closed: self.stderr_closed },
            next_sequence: self.next_sequence as nat,
        }
    }
}

impl MuxView {
    /// How many of the two streams are still open.
    pub open spec fn open_streams(self) -> nat {
        (if self.stdout.closed { 0nat } else { 1nat }) + (if self.stderr.closed { 0nat } else { 1nat })
    }
}

impl OutputMultiplexer {
    /// The counter keeps one number in reserve for each open stream, so that
    /// the end of a stream can always be reported.
    #[verifier::type_invariant]
    spec fn keeps_reserve(&self) -> bool {
        self.next_sequence + self@.open_streams() <= u64::MAX
    }

    /// Attaches to a process whose streams have not been read yet.
    pub fn attach() -> (mux: OutputMultiplexer)
        ensures
            mux@ == MuxView::attached(),
    {
        OutputMultiplexer {
            stdout: LineBuffer::new(),
            stdout_closed: false,
            stderr: LineBuffer::new(),
            stderr_closed: false,
            next_sequence: 0,
        }
    }

    /// Whether `source` has ended.
    pub fn is_closed(&self, source: StreamSource) -> (closed: bool)
        ensures
            closed == self@.stream(source).closed,
    {
        match source {
            StreamSource::Stdout => self.stdout_closed,
            StreamSource::Stderr => self.stderr_closed,
        }
    }

    /// Whether both streams have ended.
    pub fn drained(&self) -> (drained: bool)
        ensures
            drained == self@.drained(),
    {
        self.stdout_closed && self.stderr_closed
    }

    /// Whether a chunk of `len` bytes can be fed: each of its bytes could
    /// complete a line, and each line takes a number.
    pub fn has_room(&self, len: usize) -> (room: bool)
        ensures
            room == (self@.next_sequence + len + 2 <= u64::MAX),
    {
        let left: u64 = u64::MAX - self.next_sequence;
        left >= 2 && len as u64 <= left - 2
    }

    /// Takes a chunk read from `source` and hands out one event for each line
    /// that it completes, in stream order. A closed stream takes nothing.
    pub fn feed(&mut self, source: StreamSource, chunk: &[u8]) -> (events: Vec<OutputEvent>)
        requires
            old(self)@.next_sequence + chunk@.len() + 2 <= u64::MAX,
        ensures
            (final(self)@, views(events@)) == old(self)@.feed(source, chunk@),
    {
        let mut events: Vec<OutputEvent> = Vec::new();
        if self.is_closed(source) {
            assert(views(events@) =~= Seq::<OutputEventView>::empty());
            return events;
        }
        let mut buffer = LineBuffer::new();
        match source {
            StreamSource::Stdout => core::mem::swap(&mut buffer, &mut self.stdout),
            StreamSource::Stderr => core::mem::swap(&mut buffer, &mut self.stderr),
        }
        let lines = buffer.feed(chunk);
        match source {
            StreamSource::Stdout => core::mem::swap(&mut buffer, &mut self.stdout),
            StreamSource::Stderr => core::mem::swap(&mut buffer, &mut self.stderr),
        }
        let ghost first = old(self)@.next_sequence;
        let ghost framed = self@;
        let mut i: usize = 0;
        while i < lines.len()
            invariant
                i <= lines.len(),
                first + lines@.len() + 2 <= u64::MAX,
                self@ == (MuxView { next_sequence: (first + i) as nat, ..framed }),
                events@.len() == i,
                forall|j: int|
                    0 <= j < i ==> (#[trigger] events@[j])@ == line_events(
                        source,
                        views(lines@),
                        first,
                    )[j],
            decreases lines.len() - i,
        {
            let text = decode_lossy(lines[i].as_slice());
            events.push(OutputEvent::line(source, text, self.next_sequence));
            self.next_sequence = self.next_sequence + 1;
            i = i + 1;
        }
        assert(views(events@) =~= line_events(source, views(lines@), first));
        events
    }

    /// Marks `source` as ended and gives its buffer up.
    fn shut(&mut self, source: StreamSource) -> (last: Option<Vec<u8>>)
        requires
            !old(self)@.stream(source).closed,
        ensures
            final(self)@ == old(self)@.with_stream(
                source,
                StreamView { pending: Seq::empty(), closed: true },
            ),
            old(self)@.stream(source).pending.len() == 0 ==> last is None,
            old(self)@.stream(source).pending.len() > 0 ==> last is Some && last->0@ == old(
                self,
            )@.stream(source).pending,
    {
        proof {
            use_type_invariant(&*self);
        }
        let mut buffer = LineBuffer::new();
        match source {
            StreamSource::Stdout => {
                core::mem::swap(&mut buffer, &mut self.stdout);
                self.stdout_closed = true;
            },
            StreamSource::Stderr => {
                core::mem::swap(&mut buffer, &mut self.stderr);
                self.stderr_closed = true;
            },
        }
        buffer.finish()
    }

    /// The end of `source` was seen. A last line without terminator is handed
    /// out as one event. Closing a closed stream changes nothing.
    pub fn close(&mut self, source: StreamSource) -> (events: Vec<OutputEvent>)
        ensures
            (final(self)@, views(events@)) == old(self)@.close(source),
    {
        let mut events: Vec<OutputEvent> = Vec::new();
        if self.is_closed(source) {
            assert(views(events@) =~= Seq::<OutputEventView>::empty());
            return events;
        }
        proof {
            use_type_invariant(&*self);
        }
        match self.shut(source) {
            Some(line) => {
                let text = decode_lossy(line.as_slice());
                events.push(OutputEvent::line(source, text, self.next_sequence));
                self.next_sequence = self.next_sequence + 1;
                assert(views(events@) =~= old(self)@.close(source).1);
            },
            None => {
                assert(views(events@) =~= old(self)@.close(source).1);
            },
        }
        events
    }

    /// Reading `source` failed. The stream ends, and one event carries the
    /// description of the fault. A closed stream reports nothing.
    pub fn fault(&mut self, source: StreamSource, description: String) -> (events: Vec<
        OutputEvent,
    >)
        ensures
            (final(self)@, views(events@)) == old(self)@.fault(source, description@),
    {
        let mut events: Vec<OutputEvent> = Vec::new();
        if self.is_closed(source) {
            assert(views(events@) =~= Seq::<OutputEventView>::empty());
            return events;
        }
        proof {
            use_type_invariant(&*self);
        }
        let _ = self.shut(source);
        events.push(OutputEvent::line(source, description, self.next_sequence));
        self.next_sequence = self.next_sequence + 1;
        assert(views(events@) =~= old(self)@.fault(source, description@).1);
        events
    }
}

} // verus!
