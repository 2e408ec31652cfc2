//! Frame assembly: cutting a byte stream that arrives in chunks of any size
//! into frames, each closed by a double line-break.

use vstd::prelude::*;
use vstd::slice::{slice_subrange, slice_to_vec};

verus! {

/// The line-break byte. Two of them in a row close a frame.
pub const LINE_FEED: u8 = 10;

/// Whether a double line-break starts at index `i` of `s`.
pub open spec fn break_at(s: Seq<u8>, i: int) -> bool {
    0 <= i && i + 1 < s.len() && s[i] == LINE_FEED && s[i + 1] == LINE_FEED
}

/// Whether `s` holds no double line-break at all.
pub open spec fn break_free(s: Seq<u8>) -> bool {
    forall|i: int| !break_at(s, i)
}

/// The index of the first double line-break of `s` that starts at `from` or
/// later; the length of `s` if there is none.
pub open spec fn next_break(s: Seq<u8>, from: int) -> int
    decreases s.len() - from,
{
    if from < 0 || from + 1 >= s.len() {
        s.len() as int
    } else if break_at(s, from) {
        from
    } else {
        next_break(s, from + 1)
    }
}

/// The frames of `s` that are closed by a double line-break, in order and
/// without their closing line-breaks. Each frame ends at the first double
/// line-break after its start.
pub open spec fn complete_frames(s: Seq<u8>) -> Seq<Seq<u8>>
    decreases s.len(),
{
    let i: int = next_break(s, 0);
    if 0 <= i && i + 2 <= s.len() {
        seq![s.subrange(0, i)] + complete_frames(s.subrange(i + 2, s.len() as int))
    } else {
        Seq::empty()
    }
}

/// What is left of `s` behind its last complete frame.
pub open spec fn pending_tail(s: Seq<u8>) -> Seq<u8>
    decreases s.len(),
{
    let i: int = next_break(s, 0);
    if 0 <= i && i + 2 <= s.len() {
        pending_tail(s.subrange(i + 2, s.len() as int))
    } else {
        s
    }
}

/// The frame that the end of a stream closes: the unfinished tail, unless it
/// is empty.
pub open spec fn closing_frame(tail: Seq<u8>) -> Seq<Seq<u8>> {
    if tail.len() > 0 {
        seq![tail]
    } else {
        Seq::empty()
    }
}

/// All frames of a stream `s` that has ended.
pub open spec fn stream_frames(s: Seq<u8>) -> Seq<Seq<u8>> {
    complete_frames(s) + closing_frame(pending_tail(s))
}

/// The frames handed out while `chunks` are pushed one after the other into
/// an assembler that holds `pending`.
pub open spec fn fed_frames(pending: Seq<u8>, chunks: Seq<Seq<u8>>) -> Seq<Seq<u8>>
    decreases chunks.len(),
{
    if chunks.len() == 0 {
        Seq::empty()
    } else {
        complete_frames(pending + chunks.first()) + fed_frames(
            pending_tail(pending + chunks.first()),
            chunks.drop_first(),
        )
    }
}

/// What an assembler that held `pending` holds after `chunks` were pushed
/// into it one after the other.
pub open spec fn fed_pending(pending: Seq<u8>, chunks: Seq<Seq<u8>>) -> Seq<u8>
    decreases chunks.len(),
{
    if chunks.len() == 0 {
        pending
    } else {
        fed_pending(pending_tail(pending + chunks.first()), chunks.drop_first())
    }
}

/// The views of a vector of frames.
pub open spec fn frame_views(frames: Seq<Vec<u8>>) -> Seq<Seq<u8>> {
    frames.map_values(|f: Vec<u8>| f@)
}

/// `next_break` finds the least index at which a double line-break starts.
pub proof fn lemma_next_break_is_first(s: Seq<u8>, from: int)
    requires
        0 <= from <= s.len(),
    ensures
        from <= next_break(s, from) <= s.len(),
        next_break(s, from) < s.len() ==> break_at(s, next_break(s, from)),
        forall|j: int| from <= j < next_break(s, from) ==> !break_at(s, j),
    decreases s.len() - from,
{
    if from + 1 < s.len() && !break_at(s, from) {
        lemma_next_break_is_first(s, from + 1);
    }
}

/// An index with no double line-break between `from` and it, and with one at
/// it or at the end of `s`, is what `next_break` finds.
pub proof fn lemma_next_break_unique(s: Seq<u8>, from: int, r: int)
    requires
        0 <= from <= r <= s.len(),
        r == s.len() || break_at(s, r),
        forall|j: int| from <= j < r ==> !break_at(s, j),
    ensures
        next_break(s, from) == r,
    decreases r - from,
{
    if from < r && from + 1 < s.len() {
        lemma_next_break_unique(s, from + 1, r);
    }
}

/// A sequence without a double line-break has no complete frame and is its
/// own tail.
pub proof fn lemma_break_free_is_tail(s: Seq<u8>)
    requires
        break_free(s),
    ensures
        complete_frames(s) == Seq::<Seq<u8>>::empty(),
        pending_tail(s) == s,
{
    lemma_next_break_unique(s, 0, s.len() as int);
}

/// The tail behind the last complete frame holds no double line-break.
pub proof fn lemma_tail_is_break_free(s: Seq<u8>)
    ensures
        break_free(pending_tail(s)),
    decreases s.len(),
{
    let i: int = next_break(s, 0);
    lemma_next_break_is_first(s, 0);
    if 0 <= i && i + 2 <= s.len() {
        lemma_tail_is_break_free(s.subrange(i + 2, s.len() as int));
    }
}

/// Frames with a double line-break behind each, and `tail` behind them all.
pub open spec fn rejoined(frames: Seq<Seq<u8>>, tail: Seq<u8>) -> Seq<u8>
    decreases frames.len(),
{
    if frames.len() == 0 {
        tail
    } else {
        frames.first() + seq![LINE_FEED, LINE_FEED] + rejoined(frames.drop_first(), tail)
    }
}

/// Cutting loses nothing and invents nothing: the frames of `s`, each with
/// its double line-break, and the tail behind them are `s` again. No frame
/// holds a double line-break.
pub proof fn lemma_frames_rejoin(s: Seq<u8>)
    ensures
        rejoined(complete_frames(s), pending_tail(s)) == s,
        forall|k: int|
            0 <= k < complete_frames(s).len() ==> break_free(#[trigger] complete_frames(s)[k]),
        break_free(pending_tail(s)),
    decreases s.len(),
{
    let i: int = next_break(s, 0);
    lemma_next_break_is_first(s, 0);
    lemma_tail_is_break_free(s);
    if 0 <= i && i + 2 <= s.len() {
        let frame = s.subrange(0, i);
        let rest = s.subrange(i + 2, s.len() as int);
        lemma_frames_rejoin(rest);
        let frames = complete_frames(s);
        assert(frames.drop_first() =~= complete_frames(rest));
        assert forall|j: int| !break_at(frame, j) by {
            if 0 <= j {
                assert(break_at(frame, j) ==> break_at(s, j));
            }
        }
        assert forall|k: int| 0 <= k < frames.len() implies break_free(#[trigger] frames[k]) by {
            if k > 0 {
                assert(frames[k] == complete_frames(rest)[k - 1]);
            }
        }
    }
}

/// The frames of `a + b` are the frames of `a`, followed by the frames of
/// what `a` left pending with `b` behind it.
pub proof fn lemma_frames_of_concat(a: Seq<u8>, b: Seq<u8>)
    ensures
        complete_frames(a + b) == complete_frames(a) + complete_frames(pending_tail(a) + b),
        pending_tail(a + b) == pending_tail(pending_tail(a) + b),
    decreases a.len(),
{
    let i: int = next_break(a, 0);
    lemma_next_break_is_first(a, 0);
    if 0 <= i && i + 2 <= a.len() {
        let ab = a + b;
        let rest = a.subrange(i + 2, a.len() as int);
        assert forall|j: int| 0 <= j < i implies !break_at(ab, j) by {
            assert(break_at(ab, j) == break_at(a, j));
        }
        lemma_next_break_unique(ab, 0, i);
        assert(ab.subrange(0, i) =~= a.subrange(0, i));
        assert(ab.subrange(i + 2, ab.len() as int) =~= rest + b);
        lemma_frames_of_concat(rest, b);
    }
}

/// Pushing chunks one by one hands out the frames of their concatenation.
pub proof fn lemma_fed_frames(pending: Seq<u8>, chunks: Seq<Seq<u8>>)
    requires
        break_free(pending),
    ensures
        fed_frames(pending, chunks) == complete_frames(pending + chunks.flatten()),
        fed_pending(pending, chunks) == pending_tail(pending + chunks.flatten()),
    decreases chunks.len(),
{
    if chunks.len() == 0 {
        lemma_break_free_is_tail(pending);
    } else {
        let head = pending + chunks.first();
        let rest = chunks.drop_first();
        lemma_tail_is_break_free(head);
        lemma_fed_frames(pending_tail(head), rest);
        lemma_frames_of_concat(head, rest.flatten());
        assert(pending + chunks.flatten() =~= head + rest.flatten());
    }
}

/// However a stream is cut into chunks, an assembler that starts empty hands
/// out, by the end of the stream, exactly the frames of the uncut stream.
pub proof fn lemma_chunking_keeps_frames(chunks: Seq<Seq<u8>>)
    ensures
        fed_frames(Seq::empty(), chunks) + closing_frame(fed_pending(Seq::empty(), chunks))
            == stream_frames(chunks.flatten()),
{
    lemma_fed_frames(Seq::empty(), chunks);
}

/// Cuts a chunked byte stream into frames.
///
/// Bytes that do not yet end in a double line-break are kept until a later
/// chunk completes them, so a delimiter may lie across two chunks.
pub struct FrameAssembler {
    buffer: Vec<u8>,
}

impl FrameAssembler {
    #[verifier::type_invariant]
    spec fn holds_no_frame(self) -> bool {
        break_free(self.buffer@)
    }

    /// The bytes received that belong to no frame handed out so far.
    pub closed spec fn pending(self) -> Seq<u8> {
        self.buffer@
    }

    /// An assembler that has received nothing.
    pub fn new() -> (assembler: Self)
        ensures
            assembler.pending() == Seq::<u8>::empty(),
    {
        FrameAssembler { buffer: Vec::new() }
    }

    /// The number of bytes held back.
    pub fn pending_len(&self) -> (n: usize)
        ensures
            n == self.pending().len(),
    {
        self.buffer.len()
    }

    /// Takes the next chunk of the stream and returns the frames that it
    /// completes, in order.
    pub fn push_chunk(&mut self, chunk: &[u8]) -> (frames: Vec<Vec<u8>>)
        ensures
            frame_views(frames@) == complete_frames(old(self).pending() + chunk@),
            final(self).pending() == pending_tail(old(self).pending() + chunk@),
            break_free(final(self).pending()),
    {
        proof {
            use_type_invariant(&*self);
        }
        let ghost held = self.buffer@;
        let mut data: Vec<u8> = Vec::new();
        core::mem::swap(&mut data, &mut self.buffer);
        let held_len: usize = data.len();
        data.extend_from_slice(chunk);
        assert(data@ =~= held + chunk@);
        let n: usize = data.len();
        let mut frames: Vec<Vec<u8>> = Vec::new();
        let mut start: usize = 0;
        // No delimiter lies within the bytes held back, so the first one
        // starts at their last byte at the earliest.
        let mut i: usize = if held_len > 0 { held_len - 1 } else { 0 };
        proof {
            assert forall|j: int| 0 <= j < i implies !break_at(data@, j) by {
                assert(break_at(data@, j) == break_at(held, j));
            }
            assert(data@.subrange(0, n as int) =~= data@);
        }
        while n - i > 1
            invariant
                n == data.len(),
                start <= i <= n,
                forall|j: int| start <= j < i ==> !break_at(data@, j),
                complete_frames(data@) == frame_views(frames@) + complete_frames(
                    data@.subrange(start as int, n as int),
                ),
                pending_tail(data@) == pending_tail(data@.subrange(start as int, n as int)),
            decreases n - i,
        {
            if data[i] == LINE_FEED && data[i + 1] == LINE_FEED {
                let frame = slice_to_vec(slice_subrange(data.as_slice(), start, i));
                proof {
                    let tail = data@.subrange(start as int, n as int);
                    let cut: int = i - start;
                    assert forall|j: int| 0 <= j < cut implies !break_at(tail, j) by {
                        assert(break_at(tail, j) == break_at(data@, j + start));
                    }
                    lemma_next_break_unique(tail, 0, cut);
                    assert(tail.subrange(0, cut) =~= frame@);
                    assert(tail.subrange(cut + 2, tail.len() as int) =~= data@.subrange(
                        i + 2,
                        n as int,
                    ));
                }
                frames.push(frame);
                start = i + 2;
                i = start;
            } else {
                i = i + 1;
            }
        }
        let ghost whole = data@;
        let rest = data.split_off(start);
        proof {
            assert forall|j: int| !break_at(rest@, j) by {
                if 0 <= j {
                    assert(break_at(rest@, j) == break_at(whole, j + start));
                }
            }
            lemma_break_free_is_tail(rest@);
        }
        self.buffer = rest;
        frames
    }

    /// Ends the stream: hands out what is held back as the last frame, unless
    /// nothing is, and leaves the assembler empty.
    pub fn finish(&mut self) -> (last: Option<Vec<u8>>)
        ensures
            final(self).pending() == Seq::<u8>::empty(),
            match last {
                Some(frame) => frame@ == old(self).pending() && frame@.len() > 0,
                None => old(self).pending().len() == 0,
            },
    {
        let mut rest: Vec<u8> = Vec::new();
        core::mem::swap(&mut rest, &mut self.buffer);
        if rest.len() > 0 {
            Some(rest)
        } else {
            None
        }
    }
}

} // verus!
