//! What holds of the lines that a multiplexer hands out, however the two
//! streams are cut into chunks and interleaved.

use crate::services::line_framing::{
    all_lines, complete_lines, lemma_framing_composes, remainder,
};
use crate::services::process_stream::{line_events, MuxView, OutputEventView, StreamSource};
use crate::services::text::utf8_lossy;
use vstd::prelude::*;

verus! {

/// One thing that the readers of a process tell its multiplexer.
pub enum MuxInput {
    /// This chunk was read from this stream.
    Feed(StreamSource, Seq<u8>),
    /// This stream ended.
    End(StreamSource),
    /// Reading this stream failed, as described.
    Fault(StreamSource, Seq<char>),
}

impl MuxInput {
    /// The stream that the report is about.
    pub open spec fn source(self) -> StreamSource {
        match self {
            MuxInput::Feed(source, _) => source,
            MuxInput::End(source) => source,
            MuxInput::Fault(source, _) => source,
        }
    }
}

impl MuxView {
    /// One report taken.
    pub open spec fn take(self, input: MuxInput) -> (MuxView, Seq<OutputEventView>) {
        match input {
            MuxInput::Feed(source, chunk) => self.feed(source, chunk),
            MuxInput::End(source) => self.close(source),
            MuxInput::Fault(source, description) => self.fault(source, description),
        }
    }

    /// The reports `inputs` taken one after the other: the state they lead
    /// to, and all the events handed out, in order.
    pub open spec fn take_all(self, inputs: Seq<MuxInput>) -> (MuxView, Seq<OutputEventView>)
        decreases inputs.len(),
    {
        if inputs.len() == 0 {
            (self, Seq::empty())
        } else {
            let (reached, events) = self.take_all(inputs.drop_last());
            let (after, more) = reached.take(inputs.last());
            (after, events + more)
        }
    }
}

/// Whether `inputs` report the end of `source`, or a fault on it.
pub open spec fn ended(inputs: Seq<MuxInput>, source: StreamSource) -> bool
    decreases inputs.len(),
{
    if inputs.len() == 0 {
        false
    } else {
        ended(inputs.drop_last(), source) || (!(inputs.last() is Feed) && inputs.last().source()
            == source)
    }
}

/// Whether `inputs` report a fault on `source`.
pub open spec fn faulted(inputs: Seq<MuxInput>, source: StreamSource) -> bool {
    exists|i: int|
        0 <= i < inputs.len() && (#[trigger] inputs[i]) is Fault && inputs[i].source() == source
}

/// The bytes that `inputs` report as read from `source` before its end.
pub open spec fn written(inputs: Seq<MuxInput>, source: StreamSource) -> Seq<u8>
    decreases inputs.len(),
{
    if inputs.len() == 0 {
        Seq::empty()
    } else {
        let earlier = written(inputs.drop_last(), source);
        match inputs.last() {
            MuxInput::Feed(from, chunk) => if from == source && !ended(
                inputs.drop_last(),
                source,
            ) {
                earlier + chunk
            } else {
                earlier
            },
            _ => earlier,
        }
    }
}

/// The texts of the events of `events` that came from `source`, in order.
pub open spec fn texts(events: Seq<OutputEventView>, source: StreamSource) -> Seq<Seq<char>>
    decreases events.len(),
{
    if events.len() == 0 {
        Seq::empty()
    } else if events.last().source == source {
        texts(events.drop_last(), source).push(events.last().text)
    } else {
        texts(events.drop_last(), source)
    }
}

/// Each of `lines` decoded.
pub open spec fn decoded(lines: Seq<Seq<u8>>) -> Seq<Seq<char>> {
    Seq::new(lines.len(), |i: int| utf8_lossy(lines[i]))
}

/// The texts of two lists of events are the texts of the first followed by
/// the texts of the second.
pub proof fn lemma_texts_concat(
    first: Seq<OutputEventView>,
    second: Seq<OutputEventView>,
    source: StreamSource,
)
    ensures
        texts(first + second, source) == texts(first, source) + texts(second, source),
    decreases second.len(),
{
    if second.len() == 0 {
        assert(first + second =~= first);
        assert(texts(first, source) + Seq::<Seq<char>>::empty() =~= texts(first, source));
    } else {
        lemma_texts_concat(first, second.drop_last(), source);
        assert((first + second).drop_last() =~= first + second.drop_last());
        let shorter = texts(first, source) + texts(second.drop_last(), source);
        assert(shorter.push(second.last().text) =~= texts(first, source) + texts(
            second.drop_last(),
            source,
        ).push(second.last().text));
    }
}

/// The events made of lines carry the decoded lines, and nothing for the
/// other stream.
pub proof fn lemma_texts_of_line_events(
    from: StreamSource,
    lines: Seq<Seq<u8>>,
    first: nat,
    source: StreamSource,
)
    ensures
        texts(line_events(from, lines, first), source) == if from == source {
            decoded(lines)
        } else {
            Seq::<Seq<char>>::empty()
        },
    decreases lines.len(),
{
    let events = line_events(from, lines, first);
    if lines.len() == 0 {
        assert(decoded(lines) =~= Seq::<Seq<char>>::empty());
    } else {
        lemma_texts_of_line_events(from, lines.drop_last(), first, source);
        assert(events.drop_last() =~= line_events(from, lines.drop_last(), first));
        assert(decoded(lines) =~= decoded(lines.drop_last()).push(utf8_lossy(lines.last())));
    }
}

/// Events are numbered in the order in which they are handed out: from a
/// freshly attached multiplexer on, the event at position `i` carries the
/// number `i`.
pub proof fn lemma_events_are_numbered(inputs: Seq<MuxInput>)
    ensures
        ({
            let (reached, events) = MuxView::attached().take_all(inputs);
            &&& reached.next_sequence == events.len()
            &&& forall|i: int| 0 <= i < events.len() ==> (#[trigger] events[i]).sequence == i
        }),
    decreases inputs.len(),
{
    if inputs.len() > 0 {
        lemma_events_are_numbered(inputs.drop_last());
    }
}

/// What has been handed out for one stream agrees with what was read from
/// it.
pub open spec fn in_step(reached: MuxView, events: Seq<OutputEventView>, inputs: Seq<MuxInput>, source: StreamSource) -> bool {
    let stream = reached.stream(source);
    let bytes = written(inputs, source);
    &&& stream.closed == ended(inputs, source)
    &&& !stream.closed ==> {
        &&& stream.pending == remainder(bytes)
        &&& texts(events, source) == decoded(complete_lines(bytes))
    }
    &&& stream.closed && !faulted(inputs, source) ==> texts(events, source) == decoded(
        all_lines(bytes),
    )
}

/// No line is dropped and none is reordered. Take any reports about the two
/// streams, cut and interleaved in any way. The lines handed out for one
/// stream, in the order in which they are handed out, are the lines of the
/// bytes read from that stream, in the order in which they were written:
/// the complete lines while the stream is open, and all lines once it has
/// ended without a fault.
#[verifier::rlimit(40)]
pub proof fn lemma_lines_in_stream_order(inputs: Seq<MuxInput>, source: StreamSource)
    ensures
        ({
            let (reached, events) = MuxView::attached().take_all(inputs);
            in_step(reached, events, inputs, source)
        }),
    decreases inputs.len(),
{
    let start = MuxView::attached();
    if inputs.len() == 0 {
        assert(complete_lines(Seq::<u8>::empty()) =~= Seq::<Seq<u8>>::empty());
        assert(decoded(Seq::<Seq<u8>>::empty()) =~= Seq::<Seq<char>>::empty());
    } else {
        let shorter = inputs.drop_last();
        lemma_lines_in_stream_order(shorter, source);
        let (reached, events) = start.take_all(shorter);
        let (after, more) = reached.take(inputs.last());
        let bytes = written(shorter, source);
        lemma_texts_concat(events, more, source);
        assert(faulted(shorter, source) ==> faulted(inputs, source)) by {
            if faulted(shorter, source) {
                let i = choose|i: int|
                    0 <= i < shorter.len() && (#[trigger] shorter[i]) is Fault
                        && shorter[i].source() == source;
                assert(inputs[i] == shorter[i]);
            }
        }
        assert(!faulted(shorter, source) && !(inputs.last() is Fault && inputs.last().source()
            == source) ==> !faulted(inputs, source)) by {
            if faulted(inputs, source) {
                let i = choose|i: int|
                    0 <= i < inputs.len() && (#[trigger] inputs[i]) is Fault
                        && inputs[i].source() == source;
                if i < shorter.len() {
                    assert(shorter[i] == inputs[i]);
                }
            }
        }
        let stream = reached.stream(inputs.last().source());
        match inputs.last() {
            MuxInput::Feed(from, chunk) => {
                if !stream.closed {
                    let lines = complete_lines(stream.pending + chunk);
                    lemma_texts_of_line_events(from, lines, reached.next_sequence, source);
                    if from == source {
                        lemma_framing_composes(bytes, chunk);
                        assert(decoded(complete_lines(bytes)) + decoded(lines) =~= decoded(
                            complete_lines(bytes) + lines,
                        ));
                    } else {
                        assert(texts(events, source) + Seq::<Seq<char>>::empty() =~= texts(
                            events,
                            source,
                        ));
                    }
                } else {
                    assert(texts(events, source) + Seq::<Seq<char>>::empty() =~= texts(
                        events,
                        source,
                    ));
                }
            },
            MuxInput::End(from) => {
                if !stream.closed {
                    let lines = if stream.pending.len() > 0 {
                        seq![stream.pending]
                    } else {
                        Seq::<Seq<u8>>::empty()
                    };
                    lemma_texts_of_line_events(from, lines, reached.next_sequence, source);
                    if from == source {
                        assert(decoded(complete_lines(bytes)) + decoded(lines) =~= decoded(
                            all_lines(bytes),
                        ));
                    } else {
                        assert(texts(events, source) + Seq::<Seq<char>>::empty() =~= texts(
                            events,
                            source,
                        ));
                    }
                } else {
                    assert(texts(events, source) + Seq::<Seq<char>>::empty() =~= texts(
                        events,
                        source,
                    ));
                }
            },
            MuxInput::Fault(from, description) => {
                if !stream.closed {
                    if from != source {
                        assert(more.len() == 1 && more.last().source == from);
                        assert(texts(more.drop_last(), source) =~= Seq::<Seq<char>>::empty());
                        assert(texts(more, source) =~= Seq::<Seq<char>>::empty());
                        assert(texts(events, source) + Seq::<Seq<char>>::empty() =~= texts(
                            events,
                            source,
                        ));
                    }
                } else {
                    assert(texts(events, source) + Seq::<Seq<char>>::empty() =~= texts(
                        events,
                        source,
                    ));
                }
            },
        }
    }
}

} // verus!
