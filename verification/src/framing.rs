//! Line framing: every message on the wire ends with one line-feed byte,
//! and a read may deliver any part of a line or several lines at once.

use vstd::prelude::*;
use vstd::utf8::{char_is_scalar, char_u32_cast, encode_scalar, encode_utf8};
use crate::text::newline_free;

verus! {

/// The byte that ends a frame.
pub const FRAME_END: u8 = 0x0A;

/// Whether a byte string holds no line feed.
pub open spec fn newline_free_bytes(s: Seq<u8>) -> bool {
    forall|i: int| 0 <= i < s.len() ==> #[trigger] s[i] != FRAME_END
}

proof fn lemma_scalar_bytes_newline(c: u32)
    by (bit_vector)
    requires
        c <= 0x10ffff,
        c != 10,
    ensures
        (c & 0x7F) as u8 != 10u8 || c > 0x7f,
        0xC0u8 | ((c >> 6) & 0x1F) as u8 != 10u8,
        0xE0u8 | ((c >> 12) & 0x0F) as u8 != 10u8,
        0xF0u8 | ((c >> 18) & 0x7) as u8 != 10u8,
        0x80u8 | (c & 0x3F) as u8 != 10u8,
        0x80u8 | ((c >> 6) & 0x3F) as u8 != 10u8,
        0x80u8 | ((c >> 12) & 0x3F) as u8 != 10u8,
{
}

/// The UTF-8 encoding of a text without a line feed holds no line-feed
/// byte: every byte of a multi-byte sequence is above 0x7f.
pub proof fn lemma_utf8_newline_free(s: Seq<char>)
    requires
        newline_free(s),
    ensures
        newline_free_bytes(encode_utf8(s)),
    decreases s.len(),
{
    if s.len() > 0 {
        let c = s[0] as u32;
        assert(s[0] != '\n');
        char_is_scalar(s[0]);
        assert(c != 10) by {
            char_u32_cast(s[0], c);
            assert('\n' as u32 == 10u32);
        }
        lemma_scalar_bytes_newline(c);
        let head = encode_scalar(c);
        assert(newline_free_bytes(head));
        let rest = s.drop_first();
        assert forall|i: int| 0 <= i < rest.len() implies #[trigger] rest[i] != '\n' by {
            assert(rest[i] == s[i + 1]);
        }
        lemma_utf8_newline_free(rest);
        let tail = encode_utf8(rest);
        assert forall|i: int| 0 <= i < (head + tail).len() implies #[trigger] (head + tail)[i]
            != 10u8 by {
            if i < head.len() {
                assert((head + tail)[i] == head[i]);
            } else {
                assert((head + tail)[i] == tail[i - head.len()]);
            }
        }
    }
}

/// The lines that a stretch of input completed, and the bytes that wait for
/// their line feed.
pub ghost struct Split {
    pub lines: Seq<Seq<u8>>,
    pub rest: Seq<u8>,
}

/// What becomes of the waiting bytes `rest` when `chunk` arrives: each line
/// feed completes the line gathered so far, any other byte extends it.
pub open spec fn feed(rest: Seq<u8>, chunk: Seq<u8>) -> Split
    decreases chunk.len(),
{
    if chunk.len() == 0 {
        Split { lines: Seq::empty(), rest }
    } else {
        let before = feed(rest, chunk.drop_last());
        if chunk.last() == FRAME_END {
            Split { lines: before.lines.push(before.rest), rest: Seq::empty() }
        } else {
            Split { lines: before.lines, rest: before.rest.push(chunk.last()) }
        }
    }
}

/// The bytes of a list of lines, each followed by its line feed.
pub open spec fn join(lines: Seq<Seq<u8>>) -> Seq<u8>
    decreases lines.len(),
{
    if lines.len() == 0 {
        Seq::empty()
    } else {
        join(lines.drop_last()) + lines.last().push(FRAME_END)
    }
}

/// Input may be split or coalesced at will: feeding `a` and then `b` gives
/// the lines, in order, and the waiting bytes that feeding `a + b` at once
/// gives.
pub proof fn lemma_feed_concat(rest: Seq<u8>, a: Seq<u8>, b: Seq<u8>)
    ensures
        feed(rest, a + b).lines == feed(rest, a).lines + feed(feed(rest, a).rest, b).lines,
        feed(rest, a + b).rest == feed(feed(rest, a).rest, b).rest,
    decreases b.len(),
{
    if b.len() == 0 {
        assert(a + b =~= a);
        assert(feed(rest, a).lines + Seq::<Seq<u8>>::empty() =~= feed(rest, a).lines);
    } else {
        lemma_feed_concat(rest, a, b.drop_last());
        assert((a + b).drop_last() =~= a + b.drop_last());
        assert((a + b).last() == b.last());
        let first = feed(rest, a);
        let inner = feed(first.rest, b.drop_last());
        if b.last() == FRAME_END {
            assert((first.lines + inner.lines).push(inner.rest) =~= first.lines + inner.lines.push(
                inner.rest,
            ));
        }
    }
}

/// Nothing is lost or invented: the completed lines, each with its line
/// feed, followed by the waiting bytes are the bytes that waited followed by
/// the bytes that arrived.
pub proof fn lemma_feed_reassembles(rest: Seq<u8>, chunk: Seq<u8>)
    ensures
        join(feed(rest, chunk).lines) + feed(rest, chunk).rest == rest + chunk,
    decreases chunk.len(),
{
    if chunk.len() == 0 {
        assert(join(Seq::<Seq<u8>>::empty()) + rest =~= rest + chunk);
    } else {
        let head = chunk.drop_last();
        lemma_feed_reassembles(rest, head);
        let before = feed(rest, head);
        assert(rest + chunk =~= (rest + head).push(chunk.last()));
        if chunk.last() == FRAME_END {
            let lines = before.lines.push(before.rest);
            assert(lines.drop_last() =~= before.lines);
            assert(join(lines) + Seq::<u8>::empty() =~= (join(before.lines) + before.rest).push(
                FRAME_END,
            ));
        } else {
            assert(join(before.lines) + before.rest.push(chunk.last()) =~= (join(before.lines)
                + before.rest).push(chunk.last()));
        }
    }
}

/// No line holds a line feed, nor do the waiting bytes, as long as the
/// bytes that waited held none.
pub proof fn lemma_feed_newline_free(rest: Seq<u8>, chunk: Seq<u8>)
    requires
        newline_free_bytes(rest),
    ensures
        newline_free_bytes(feed(rest, chunk).rest),
        forall|i: int|
            0 <= i < feed(rest, chunk).lines.len() ==> newline_free_bytes(
                #[trigger] feed(rest, chunk).lines[i],
            ),
    decreases chunk.len(),
{
    if chunk.len() > 0 {
        lemma_feed_newline_free(rest, chunk.drop_last());
    }
}

/// Bytes without a line feed complete no line: they join the waiting bytes.
pub proof fn lemma_feed_partial(rest: Seq<u8>, chunk: Seq<u8>)
    requires
        newline_free_bytes(chunk),
    ensures
        feed(rest, chunk) == (Split { lines: Seq::empty(), rest: rest + chunk }),
    decreases chunk.len(),
{
    if chunk.len() == 0 {
        assert(rest + chunk =~= rest);
    } else {
        let head = chunk.drop_last();
        assert forall|i: int| 0 <= i < head.len() implies #[trigger] head[i] != 10u8 by {
            assert(head[i] == chunk[i]);
        }
        lemma_feed_partial(rest, head);
        assert(chunk.last() == chunk[chunk.len() - 1]);
        assert((rest + head).push(chunk.last()) =~= rest + chunk);
    }
}

/// A frame is received as one line: a body without a line feed, followed
/// by the line feed, completes exactly the line of the waiting bytes and
/// the body, and leaves nothing waiting.
pub proof fn lemma_feed_frame(rest: Seq<u8>, body: Seq<u8>)
    requires
        newline_free_bytes(body),
    ensures
        feed(rest, body.push(FRAME_END)) == (Split {
            lines: seq![rest + body],
            rest: Seq::empty(),
        }),
{
    lemma_feed_partial(rest, body);
    let frame = body.push(FRAME_END);
    assert(frame.drop_last() =~= body);
    assert(Seq::<Seq<u8>>::empty().push(rest + body) =~= seq![rest + body]);
}

/// The receive side of the framing: the bytes that wait for their line
/// feed. They never hold a line feed themselves.
pub struct LineBuffer {
    pending: Vec<u8>,
}

impl View for LineBuffer {
    type V = Seq<u8>;

    closed spec fn view(&self) -> Seq<u8> {
        self.pending@
    }
}

impl LineBuffer {
    #[verifier::type_invariant]
    spec fn newline_free(&self) -> bool {
        newline_free_bytes(self.pending@)
    }

    /// A buffer in which nothing waits.
    pub fn new() -> (r: LineBuffer)
        ensures
            r@ == Seq::<u8>::empty(),
    {
        LineBuffer { pending: Vec::new() }
    }

    /// Takes in the bytes of one read and hands out the lines that they
    /// complete, in order and without their line feeds. No line feed waits
    /// before or after, and none is handed out.
    pub fn push(&mut self, chunk: &[u8]) -> (lines: Vec<Vec<u8>>)
        ensures
            lines.deep_view() == feed(old(self)@, chunk@).lines,
            final(self)@ == feed(old(self)@, chunk@).rest,
            newline_free_bytes(old(self)@),
            newline_free_bytes(final(self)@),
            forall|i: int| 0 <= i < lines.len() ==> newline_free_bytes(#[trigger] lines[i]@),
    {
        proof {
            use_type_invariant(&*self);
        }
        let ghost start = self.pending@;
        let mut current: Vec<u8> = Vec::new();
        std::mem::swap(&mut self.pending, &mut current);
        let mut lines: Vec<Vec<u8>> = Vec::new();
        let mut i: usize = 0;
        assert(chunk@.take(0) =~= Seq::<u8>::empty());
        assert(lines.deep_view() =~= Seq::<Seq<u8>>::empty());
        while i < chunk.len()
            invariant
                0 <= i <= chunk.len(),
                self.pending@ == Seq::<u8>::empty(),
                lines.deep_view() == feed(start, chunk@.take(i as int)).lines,
                current@ == feed(start, chunk@.take(i as int)).rest,
                newline_free_bytes(current@),
                forall|j: int| 0 <= j < lines.len() ==> newline_free_bytes(#[trigger] lines[j]@),
            decreases chunk.len() - i,
        {
            let byte = chunk[i];
            proof {
                let next = chunk@.take(i as int + 1);
                assert(next.drop_last() =~= chunk@.take(i as int));
                assert(next.last() == byte);
            }
            if byte == FRAME_END {
                let ghost done = lines.deep_view();
                let mut line: Vec<u8> = Vec::new();
                std::mem::swap(&mut current, &mut line);
                lines.push(line);
                assert(lines.deep_view() =~~= done.push(line@));
            } else {
                current.push(byte);
                assert(lines.deep_view() =~= feed(start, chunk@.take(i as int + 1)).lines);
            }
            i = i + 1;
        }
        assert(chunk@.take(i as int) =~= chunk@);
        self.pending = current;
        lines
    }
}

} // verus!
