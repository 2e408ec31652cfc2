//! Reading a streamed answer: chunks in, fragments and the answer's text out.

use vstd::prelude::*;
use crate::decoder::{decode_frame, fragment_of, FragmentView, StreamFragment};
use crate::frames::{
    closing_frame, complete_frames, fed_frames, fed_pending, frame_views,
    lemma_chunking_keeps_frames, pending_tail, stream_frames, FrameAssembler,
};

verus! {

/// The text that a fragment adds to the answer.
pub open spec fn piece(fragment: FragmentView) -> Seq<char> {
    match fragment.text {
        Some(text) => text,
        None => Seq::empty(),
    }
}

/// The fragments that a reader hands out for `frames`: one for each frame up
/// to and including the terminator, none behind it, and none at all if the
/// reader was `finished` before.
pub open spec fn fragments_read(finished: bool, frames: Seq<Seq<u8>>) -> Seq<FragmentView>
    decreases frames.len(),
{
    if finished || frames.len() == 0 {
        Seq::empty()
    } else {
        let fragment = fragment_of(frames.first());
        seq![fragment] + fragments_read(fragment.is_final, frames.drop_first())
    }
}

/// The text of the fragments that a reader hands out for `frames`, in order.
pub open spec fn text_read(finished: bool, frames: Seq<Seq<u8>>) -> Seq<char>
    decreases frames.len(),
{
    if finished || frames.len() == 0 {
        Seq::empty()
    } else {
        let fragment = fragment_of(frames.first());
        piece(fragment) + text_read(fragment.is_final, frames.drop_first())
    }
}

/// Whether a reader has met the terminator once it has read `frames`.
pub open spec fn finished_after(finished: bool, frames: Seq<Seq<u8>>) -> bool
    decreases frames.len(),
{
    if finished || frames.len() == 0 {
        finished
    } else {
        finished_after(fragment_of(frames.first()).is_final, frames.drop_first())
    }
}

/// The text of the answer that the whole stream `s` carries.
pub open spec fn stream_text(s: Seq<u8>) -> Seq<char> {
    text_read(false, stream_frames(s))
}

/// The views of a vector of fragments.
pub open spec fn fragment_views(fragments: Seq<StreamFragment>) -> Seq<FragmentView> {
    fragments.map_values(|f: StreamFragment| f@)
}

/// A reader as a plain value.
pub struct ReaderView {
    /// The bytes received that belong to no frame read so far.
    pub pending: Seq<u8>,
    /// The text of the answer so far.
    pub text: Seq<char>,
    /// Whether the terminator was met.
    pub finished: bool,
}

impl ReaderView {
    /// A reader that has received nothing.
    pub open spec fn fresh() -> ReaderView {
        ReaderView { pending: Seq::empty(), text: Seq::empty(), finished: false }
    }

    /// The reader after it has read `frames` and holds `pending`.
    pub open spec fn read(self, frames: Seq<Seq<u8>>, pending: Seq<u8>) -> ReaderView {
        ReaderView {
            pending,
            text: self.text + text_read(self.finished, frames),
            finished: finished_after(self.finished, frames),
        }
    }

    /// The reader after one more chunk.
    pub open spec fn feed(self, chunk: Seq<u8>) -> ReaderView {
        self.read(complete_frames(self.pending + chunk), pending_tail(self.pending + chunk))
    }

    /// The reader after the chunks of `chunks`, one after the other.
    pub open spec fn feed_all(self, chunks: Seq<Seq<u8>>) -> ReaderView
        decreases chunks.len(),
    {
        if chunks.len() == 0 {
            self
        } else {
            self.feed(chunks.first()).feed_all(chunks.drop_first())
        }
    }

    /// The reader after the end of the stream.
    pub open spec fn finish(self) -> ReaderView {
        self.read(closing_frame(self.pending), Seq::empty())
    }
}

/// Reading `xs` and then `ys` is reading `xs + ys`.
pub proof fn lemma_read_concat(finished: bool, xs: Seq<Seq<u8>>, ys: Seq<Seq<u8>>)
    ensures
        fragments_read(finished, xs + ys) == fragments_read(finished, xs) + fragments_read(
            finished_after(finished, xs),
            ys,
        ),
        text_read(finished, xs + ys) == text_read(finished, xs) + text_read(
            finished_after(finished, xs),
            ys,
        ),
        finished_after(finished, xs + ys) == finished_after(finished_after(finished, xs), ys),
    decreases xs.len(),
{
    if finished {
        // A finished reader reads nothing more, whatever follows.
        lemma_finished_reads_nothing(xs + ys);
        lemma_finished_reads_nothing(xs);
        lemma_finished_reads_nothing(ys);
    } else if xs.len() > 0 {
        assert((xs + ys).drop_first() =~= xs.drop_first() + ys);
        lemma_read_concat(fragment_of(xs.first()).is_final, xs.drop_first(), ys);
    }
}

/// A reader that has met the terminator hands out nothing more.
pub proof fn lemma_finished_reads_nothing(frames: Seq<Seq<u8>>)
    ensures
        fragments_read(true, frames) == Seq::<FragmentView>::empty(),
        text_read(true, frames) == Seq::<char>::empty(),
        finished_after(true, frames),
{
}

/// Feeding chunks one by one reads the frames that the assembler hands out
/// for them.
pub proof fn lemma_feed_all(reader: ReaderView, chunks: Seq<Seq<u8>>)
    ensures
        reader.feed_all(chunks) == reader.read(
            fed_frames(reader.pending, chunks),
            fed_pending(reader.pending, chunks),
        ),
    decreases chunks.len(),
{
    if chunks.len() > 0 {
        let first = complete_frames(reader.pending + chunks.first());
        let next = reader.feed(chunks.first());
        let rest = fed_frames(next.pending, chunks.drop_first());
        lemma_feed_all(next, chunks.drop_first());
        lemma_read_concat(reader.finished, first, rest);
        assert(reader.text + (text_read(reader.finished, first) + text_read(next.finished, rest))
            =~= (reader.text + text_read(reader.finished, first)) + text_read(
            next.finished,
            rest,
        ));
    }
}

/// A stream that comes as one chunk is fed as that chunk.
pub proof fn lemma_feed_single(reader: ReaderView, chunk: Seq<u8>)
    ensures
        seq![chunk].flatten() == chunk,
        reader.feed_all(seq![chunk]) == reader.feed(chunk),
{
    let one = seq![chunk];
    assert(one.drop_first().flatten() =~= Seq::<u8>::empty());
    assert(reader.feed(chunk).feed_all(one.drop_first()) == reader.feed(chunk));
}

/// However a stream is cut into chunks, a reader that starts fresh ends with
/// the text of the uncut stream: the text that it ends with when the whole
/// stream comes as one chunk.
pub proof fn lemma_chunking_keeps_text(chunks: Seq<Seq<u8>>)
    ensures
        ReaderView::fresh().feed_all(chunks).finish().text == stream_text(chunks.flatten()),
        ReaderView::fresh().feed_all(chunks).finish() == ReaderView::fresh().feed(
            chunks.flatten(),
        ).finish(),
{
    let fresh = ReaderView::fresh();
    let whole = chunks.flatten();
    lemma_reads_whole_stream(chunks);
    lemma_reads_whole_stream(seq![whole]);
    lemma_feed_single(fresh, whole);
}

/// A reader that starts fresh ends, whatever the chunks, as one that read all
/// frames of the stream at once.
pub proof fn lemma_reads_whole_stream(chunks: Seq<Seq<u8>>)
    ensures
        ReaderView::fresh().feed_all(chunks).finish() == ReaderView::fresh().read(
            stream_frames(chunks.flatten()),
            Seq::empty(),
        ),
        ReaderView::fresh().feed_all(chunks).finish().text == stream_text(chunks.flatten()),
{
    let fresh = ReaderView::fresh();
    let fed = fed_frames(fresh.pending, chunks);
    let last = closing_frame(fed_pending(fresh.pending, chunks));
    lemma_feed_all(fresh, chunks);
    lemma_chunking_keeps_frames(chunks);
    lemma_read_concat(false, fed, last);
}

/// Reads a streamed answer chunk by chunk.
pub struct StreamReader {
    assembler: FrameAssembler,
    text: String,
    finished: bool,
}

impl View for StreamReader {
    type V = ReaderView;

    closed spec fn view(&self) -> ReaderView {
        ReaderView { pending: self.assembler.pending(), text: self.text@, finished: self.finished }
    }
}

impl StreamReader {
    /// A reader that has received nothing.
    pub fn new() -> (reader: Self)
        ensures
            reader@ == ReaderView::fresh(),
    {
        StreamReader { assembler: FrameAssembler::new(), text: String::new(), finished: false }
    }

    /// The text of the answer so far.
    pub fn text(&self) -> (text: &String)
        ensures
            text@ == self@.text,
    {
        &self.text
    }

    /// Whether the terminator of the stream was met.
    pub fn is_finished(&self) -> (finished: bool)
        ensures
            finished == self@.finished,
    {
        self.finished
    }

    /// Decodes `frames` in order, up to the terminator, and adds their text
    /// to the answer.
    fn read_frames(&mut self, frames: &Vec<Vec<u8>>) -> (fragments: Vec<StreamFragment>)
        ensures
            final(self)@ == old(self)@.read(frame_views(frames@), old(self)@.pending),
            fragment_views(fragments@) == fragments_read(
                old(self)@.finished,
                frame_views(frames@),
            ),
    {
        let ghost all = frame_views(frames@);
        let ghost before = self@;
        let n: usize = frames.len();
        let mut fragments: Vec<StreamFragment> = Vec::new();
        let mut k: usize = 0;
        proof {
            assert(all.subrange(0, n as int) =~= all);
        }
        while k < n && !self.finished
            invariant
                n == frames.len(),
                k <= n,
                all == frame_views(frames@),
                self@.pending == before.pending,
                fragments_read(before.finished, all) == fragment_views(fragments@)
                    + fragments_read(self@.finished, all.subrange(k as int, n as int)),
                before.text + text_read(before.finished, all) == self@.text + text_read(
                    self@.finished,
                    all.subrange(k as int, n as int),
                ),
                finished_after(before.finished, all) == finished_after(
                    self@.finished,
                    all.subrange(k as int, n as int),
                ),
            decreases n - k,
        {
            let fragment = decode_frame(frames[k].as_slice());
            proof {
                let rest = all.subrange(k as int, n as int);
                assert(rest.drop_first() =~= all.subrange(k + 1, n as int));
            }
            if let Some(text) = &fragment.text {
                self.text.append(text.as_str());
            }
            if fragment.is_final {
                self.finished = true;
            }
            fragments.push(fragment);
            k = k + 1;
        }
        proof {
            if self.finished {
                lemma_finished_reads_nothing(all.subrange(k as int, n as int));
            }
        }
        fragments
    }

    /// Takes the next chunk of the stream and returns the fragments of the
    /// frames that it completes, in order. Frames behind the terminator are
    /// cut but not decoded.
    pub fn feed(&mut self, chunk: &[u8]) -> (fragments: Vec<StreamFragment>)
        ensures
            final(self)@ == old(self)@.feed(chunk@),
            fragment_views(fragments@) == fragments_read(
                old(self)@.finished,
                complete_frames(old(self)@.pending + chunk@),
            ),
    {
        let frames = self.assembler.push_chunk(chunk);
        let fragments = self.read_frames(&frames);
        fragments
    }

    /// Ends the stream: reads what was held back as the last frame, unless
    /// nothing was, and returns its fragment.
    pub fn finish(&mut self) -> (fragments: Vec<StreamFragment>)
        ensures
            final(self)@ == old(self)@.finish(),
            fragment_views(fragments@) == fragments_read(
                old(self)@.finished,
                closing_frame(old(self)@.pending),
            ),
    {
        let mut frames: Vec<Vec<u8>> = Vec::new();
        match self.assembler.finish() {
            Some(frame) => {
                frames.push(frame);
            },
            None => {},
        }
        assert(frame_views(frames@) =~= closing_frame(old(self)@.pending));
        let fragments = self.read_frames(&frames);
        fragments
    }
}

/// Reads a whole streamed answer that is at hand in one piece, and returns
/// its text.
pub fn decode_stream(body: &[u8]) -> (text: String)
    ensures
        text@ == stream_text(body@),
{
    let mut reader = StreamReader::new();
    let _ = reader.feed(body);
    let _ = reader.finish();
    proof {
        lemma_reads_whole_stream(seq![body@]);
        lemma_feed_single(ReaderView::fresh(), body@);
    }
    reader.text
}

} // verus!
