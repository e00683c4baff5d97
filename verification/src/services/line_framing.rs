//! Splitting a byte stream that arrives in chunks into lines.
//!
//! A line ends at a line feed. The line feed is dropped, and so is one
//! carriage return directly before it. Bytes after the last line feed are the
//! remainder: they wait for the rest of their line, or for the stream to end.

use crate::views::views;
use vstd::prelude::*;

verus! {

/// The line feed byte.
pub const LINE_FEED: u8 = 0x0a;

/// The carriage return byte.
pub const CARRIAGE_RETURN: u8 = 0x0d;

/// A line without the carriage return that stood before its line feed.
pub open spec fn strip_carriage_return(line: Seq<u8>) -> Seq<u8> {
    if line.len() > 0 && line.last() == CARRIAGE_RETURN {
        line.drop_last()
    } else {
        line
    }
}

/// The bytes of `buf` after its last line feed; all of `buf` if it has none.
pub open spec fn remainder(buf: Seq<u8>) -> Seq<u8>
    decreases buf.len(),
{
    if buf.len() == 0 {
        Seq::empty()
    } else if buf.last() == LINE_FEED {
        Seq::empty()
    } else {
        remainder(buf.drop_last()).push(buf.last())
    }
}

/// The lines of `buf` that are ended by a line feed, in order, each without
/// its terminator.
pub open spec fn complete_lines(buf: Seq<u8>) -> Seq<Seq<u8>>
    decreases buf.len(),
{
    if buf.len() == 0 {
        Seq::empty()
    } else if buf.last() == LINE_FEED {
        complete_lines(buf.drop_last()).push(strip_carriage_return(remainder(buf.drop_last())))
    } else {
        complete_lines(buf.drop_last())
    }
}

/// No byte of `buf` is a line feed.
pub open spec fn no_line_feed(buf: Seq<u8>) -> bool {
    forall|i: int| 0 <= i < buf.len() ==> buf[i] != LINE_FEED
}

/// A remainder never holds a line feed.
pub proof fn lemma_remainder_no_line_feed(buf: Seq<u8>)
    ensures
        no_line_feed(remainder(buf)),
        remainder(buf).len() <= buf.len(),
    decreases buf.len(),
{
    if buf.len() > 0 && buf.last() != LINE_FEED {
        lemma_remainder_no_line_feed(buf.drop_last());
    }
}

/// A buffer without line feed is its own remainder and has no complete line.
pub proof fn lemma_no_line_feed(buf: Seq<u8>)
    requires
        no_line_feed(buf),
    ensures
        remainder(buf) == buf,
        complete_lines(buf) == Seq::<Seq<u8>>::empty(),
    decreases buf.len(),
{
    if buf.len() > 0 {
        lemma_no_line_feed(buf.drop_last());
        assert(remainder(buf.drop_last()).push(buf.last()) =~= buf);
    }
}

/// Framing does not depend on how the stream is cut into chunks: what `a`
/// followed by `b` yields is what `a` yields, and then what the remainder of
/// `a` followed by `b` yields.
pub proof fn lemma_framing_composes(a: Seq<u8>, b: Seq<u8>)
    ensures
        complete_lines(a + b) == complete_lines(a) + complete_lines(remainder(a) + b),
        remainder(a + b) == remainder(remainder(a) + b),
    decreases b.len(),
{
    if b.len() == 0 {
        assert(a + b =~= a);
        assert(remainder(a) + b =~= remainder(a));
        lemma_remainder_no_line_feed(a);
        lemma_no_line_feed(remainder(a));
        assert(complete_lines(a) + Seq::<Seq<u8>>::empty() =~= complete_lines(a));
    } else {
        let b0 = b.drop_last();
        lemma_framing_composes(a, b0);
        assert((a + b).drop_last() =~= a + b0);
        assert((remainder(a) + b).drop_last() =~= remainder(a) + b0);
        assert((a + b).last() == b.last());
        assert((remainder(a) + b).last() == b.last());
        if b.last() == LINE_FEED {
            let line = strip_carriage_return(remainder(a + b0));
            assert((complete_lines(a) + complete_lines(remainder(a) + b0)).push(line)
                =~= complete_lines(a) + complete_lines(remainder(a) + b0).push(line));
        }
    }
}

/// The first line of a stream is what stands before its first line feed,
/// and the lines after it are the lines of what stands behind that line
/// feed.
pub proof fn lemma_first_line(line: Seq<u8>, rest: Seq<u8>)
    requires
        no_line_feed(line),
    ensures
        complete_lines(line.push(LINE_FEED) + rest) == seq![strip_carriage_return(line)]
            + complete_lines(rest),
        remainder(line.push(LINE_FEED) + rest) == remainder(rest),
{
    let first = line.push(LINE_FEED);
    lemma_no_line_feed(line);
    assert(first.drop_last() =~= line);
    assert(complete_lines(first) =~= seq![strip_carriage_return(line)]);
    assert(remainder(first) =~= Seq::<u8>::empty());
    lemma_framing_composes(first, rest);
    assert(remainder(first) + rest =~= rest);
}

/// No line that is handed out holds a line feed.
pub proof fn lemma_lines_hold_no_line_feed(buf: Seq<u8>, index: int)
    requires
        0 <= index < complete_lines(buf).len(),
    ensures
        no_line_feed(complete_lines(buf)[index]),
    decreases buf.len(),
{
    if buf.len() > 0 {
        let shorter = buf.drop_last();
        if index < complete_lines(shorter).len() {
            lemma_lines_hold_no_line_feed(shorter, index);
        } else {
            lemma_remainder_no_line_feed(shorter);
        }
    }
}

/// A chunk completes at most as many lines as it has bytes.
pub proof fn lemma_line_count_bounded(a: Seq<u8>, b: Seq<u8>)
    ensures
        complete_lines(a + b).len() <= complete_lines(a).len() + b.len(),
    decreases b.len(),
{
    if b.len() == 0 {
        assert(a + b =~= a);
    } else {
        lemma_line_count_bounded(a, b.drop_last());
        assert((a + b).drop_last() =~= a + b.drop_last());
    }
}

/// Every line of the stream: the complete ones, then the remainder if the
/// stream ended inside a line. That last line keeps a trailing carriage return.
pub open spec fn all_lines(buf: Seq<u8>) -> Seq<Seq<u8>> {
    if remainder(buf).len() > 0 {
        complete_lines(buf).push(remainder(buf))
    } else {
        complete_lines(buf)
    }
}

/// The part of a stream that has been received but not yet handed out as a
/// line.
pub struct LineBuffer {
    pending: Vec<u8>,
}

impl View for LineBuffer {
    type V = Seq<u8>;

    /// The bytes received since the last line feed.
    closed spec fn view(&self) -> Seq<u8> {
        self.pending@
    }
}

impl LineBuffer {
    /// What is pending holds no line feed: a line feed ends a line, and a
    /// line that has ended is handed out at once.
    #[verifier::type_invariant]
    spec fn holds_no_line_feed(&self) -> bool {
        no_line_feed(self.pending@)
    }

    /// A buffer with nothing pending.
    pub fn new() -> (buffer: LineBuffer)
        ensures
            buffer@ == Seq::<u8>::empty(),
    {
        LineBuffer { pending: Vec::new() }
    }

    /// Takes the next chunk of the stream and hands out the lines that it
    /// completes, in stream order.
    pub fn feed(&mut self, chunk: &[u8]) -> (lines: Vec<Vec<u8>>)
        ensures
            views(lines@) == complete_lines(old(self)@ + chunk@),
            final(self)@ == remainder(old(self)@ + chunk@),
            lines@.len() <= chunk@.len(),
    {
        proof {
            use_type_invariant(&*self);
            lemma_no_line_feed(self.pending@);
            lemma_line_count_bounded(self.pending@, chunk@);
        }
        let ghost before = self.pending@;
        let mut pending: Vec<u8> = Vec::new();
        core::mem::swap(&mut pending, &mut self.pending);
        let mut lines: Vec<Vec<u8>> = Vec::new();
        let mut i: usize = 0;
        assert(before + chunk@.take(0) =~= before);
        assert(views(lines@) =~= Seq::<Seq<u8>>::empty());
        while i < chunk.len()
            invariant
                i <= chunk.len(),
                views(lines@) == complete_lines(before + chunk@.take(i as int)),
                pending@ == remainder(before + chunk@.take(i as int)),
            decreases chunk.len() - i,
        {
            let byte = chunk[i];
            let ghost seen = before + chunk@.take(i as int);
            let ghost next = before + chunk@.take(i + 1);
            assert(next.drop_last() =~= seen);
            assert(next.last() == byte);
            if byte == LINE_FEED {
                let mut line: Vec<u8> = Vec::new();
                core::mem::swap(&mut line, &mut pending);
                let n = line.len();
                if n > 0 && line[n - 1] == CARRIAGE_RETURN {
                    line.pop();
                }
                assert(line@ =~= strip_carriage_return(remainder(seen)));
                let ghost earlier = views(lines@);
                lines.push(line);
                assert(views(lines@) =~= earlier.push(line@));
            } else {
                pending.push(byte);
            }
            i = i + 1;
        }
        assert(chunk@.take(i as int) =~= chunk@);
        proof {
            lemma_remainder_no_line_feed(before + chunk@);
        }
        self.pending = pending;
        lines
    }

    /// Ends the stream: hands out the unfinished last line, if there is one,
    /// and leaves nothing pending.
    pub fn finish(&mut self) -> (last: Option<Vec<u8>>)
        ensures
            final(self)@ == Seq::<u8>::empty(),
            old(self)@.len() == 0 ==> last is None,
            old(self)@.len() > 0 ==> last is Some && last->0@ == old(self)@,
    {
        let mut line: Vec<u8> = Vec::new();
        core::mem::swap(&mut line, &mut self.pending);
        if line.len() > 0 {
            Some(line)
        } else {
            None
        }
    }
}

} // verus!
