//! What the decoder makes of a whole stream, however the stream is cut into
//! chunks on its way in.

use crate::frame::{
    cut, frame_step, is_first, lemma_position_meaning, lemma_position_of_first, position, Cut,
    END_MARKER, MAX_FRAME_LEN, START_MARKER, TRAILER_LEN,
};
use vstd::prelude::*;

verus! {

/// `b` does not occur in `s`.
pub open spec fn free_of(s: Seq<u8>, b: u8) -> bool {
    forall|k: int| 0 <= k < s.len() ==> s[k] != b
}

/// A frame as a meter sends it: a start marker first, and the first end
/// marker exactly where the trailer begins.
pub open spec fn well_formed(frame: Seq<u8>) -> bool {
    &&& frame.len() >= TRAILER_LEN
    &&& frame[0] == START_MARKER
    &&& is_first(frame, END_MARKER, frame.len() - TRAILER_LEN)
}

/// The frames taken out of a buffer, in order, and what stays in it.
pub struct Drained {
    pub frames: Seq<Seq<u8>>,
    pub rest: Seq<u8>,
}

/// Cutting frames out of `buf` until none is complete.
#[verifier::opaque]
pub open spec fn drain(buf: Seq<u8>) -> Drained
    decreases buf.len(),
{
    match cut(buf) {
        Cut::Complete { frame, rest } => if rest.len() < buf.len() {
            let after = drain(rest);
            Drained { frames: seq![frame] + after.frames, rest: after.rest }
        } else {
            Drained { frames: Seq::empty(), rest: buf }
        },
        Cut::Incomplete { buffered } => Drained { frames: Seq::empty(), rest: buffered },
    }
}

/// Looking at the buffer, size limit and all, until a look finds no whole
/// frame: what a reader does between two reads. `None` is the size
/// violation.
#[verifier::opaque]
pub open spec fn looks(buf: Seq<u8>) -> Option<Drained>
    decreases buf.len(),
{
    match frame_step(buf) {
        None => None,
        Some(Cut::Incomplete { buffered }) => Some(
            Drained { frames: Seq::empty(), rest: buffered },
        ),
        Some(Cut::Complete { frame, rest }) => if rest.len() < buf.len() {
            match looks(rest) {
                None => None,
                Some(after) => Some(
                    Drained { frames: seq![frame] + after.frames, rest: after.rest },
                ),
            }
        } else {
            None
        },
    }
}

/// A chunk arrives at a buffer that holds `buf`, and the buffer is looked at
/// until no whole frame is left in it.
pub open spec fn feed(buf: Seq<u8>, chunk: Seq<u8>) -> Option<Drained> {
    looks(buf + chunk)
}

/// The chunks arrive one after the other, starting from a buffer that holds
/// `buf`. `None` if any of them runs into the size limit.
pub open spec fn run(buf: Seq<u8>, chunks: Seq<Seq<u8>>) -> Option<Drained>
    decreases chunks.len(),
{
    if chunks.len() == 0 {
        Some(Drained { frames: Seq::empty(), rest: buf })
    } else {
        match feed(buf, chunks[0]) {
            None => None,
            Some(first) => match run(first.rest, chunks.skip(1)) {
                None => None,
                Some(after) => Some(
                    Drained { frames: first.frames + after.frames, rest: after.rest },
                ),
            },
        }
    }
}

/// The chunks laid end to end.
pub open spec fn joined(chunks: Seq<Seq<u8>>) -> Seq<u8>
    decreases chunks.len(),
{
    if chunks.len() == 0 {
        Seq::empty()
    } else {
        chunks[0] + joined(chunks.skip(1))
    }
}

/// A stream in which each frame follows a gap of other bytes, and `tail`
/// follows the last frame.
pub open spec fn stream_of(gaps: Seq<Seq<u8>>, frames: Seq<Seq<u8>>, tail: Seq<u8>) -> Seq<u8>
    decreases frames.len(),
{
    if frames.len() == 0 || gaps.len() == 0 {
        tail
    } else {
        gaps[0] + frames[0] + stream_of(gaps.skip(1), frames.skip(1), tail)
    }
}

/// Nothing more can be cut out of `buf`, and a look at it drops nothing.
#[verifier::opaque]
pub open spec fn settled(buf: Seq<u8>) -> bool {
    cut(buf) == (Cut::Incomplete { buffered: buf })
}

/// A well-formed frame behind bytes that hold no start marker is cut out
/// whole, whatever follows it, and what follows it is all that stays.
pub proof fn lemma_cut_finds_frame(gap: Seq<u8>, frame: Seq<u8>, tail: Seq<u8>)
    requires
        free_of(gap, START_MARKER),
        well_formed(frame),
    ensures
        cut(gap + frame + tail) == (Cut::Complete { frame, rest: tail }),
{
    let buf = gap + frame + tail;
    let start = gap.len() as int;
    assert(is_first(buf, START_MARKER, start));
    lemma_position_of_first(buf, START_MARKER, start);
    let aligned = buf.skip(start);
    assert(aligned =~= frame + tail);
    let end = frame.len() - TRAILER_LEN;
    assert(is_first(aligned, END_MARKER, end)) by {
        assert forall|k: int| 0 <= k < end implies aligned[k] != END_MARKER by {
            assert(aligned[k] == frame[k]);
        }
    }
    lemma_position_of_first(aligned, END_MARKER, end);
    assert(aligned.take(end + TRAILER_LEN) =~= frame);
    assert(aligned.skip(end + TRAILER_LEN) =~= tail);
}

/// A frame that is cut out is well formed, stands in the buffer in one
/// piece, and has no start marker before it: no byte that precedes a start
/// marker is ever part of a frame.
pub proof fn lemma_cut_frame_shape(buf: Seq<u8>)
    requires
        cut(buf) is Complete,
    ensures
        well_formed(cut(buf)->frame),
        cut(buf)->rest.len() < buf.len(),
        position(buf, START_MARKER) is Some,
        free_of(buf.take(position(buf, START_MARKER).unwrap()), START_MARKER),
        buf == buf.take(position(buf, START_MARKER).unwrap()) + cut(buf)->frame + cut(buf)->rest,
{
    lemma_position_meaning(buf, START_MARKER);
    let start = position(buf, START_MARKER).unwrap();
    let aligned = buf.skip(start);
    lemma_position_meaning(aligned, END_MARKER);
    let end = position(aligned, END_MARKER).unwrap();
    let frame = aligned.take(end + TRAILER_LEN);
    let rest = aligned.skip(end + TRAILER_LEN);
    assert(frame[0] == aligned[0]);
    assert(is_first(frame, END_MARKER, end)) by {
        assert(frame[end] == aligned[end]);
        assert forall|k: int| 0 <= k < end implies frame[k] != END_MARKER by {
            assert(frame[k] == aligned[k]);
        }
    }
    assert(buf =~= buf.take(start) + frame + rest);
}

/// Bytes that arrive after a frame is complete do not change the frame.
pub proof fn lemma_cut_extends(a: Seq<u8>, b: Seq<u8>)
    requires
        cut(a) is Complete,
    ensures
        cut(a + b) == (Cut::Complete { frame: cut(a)->frame, rest: cut(a)->rest + b }),
{
    lemma_cut_frame_shape(a);
    let gap = a.take(position(a, START_MARKER).unwrap());
    let frame = cut(a)->frame;
    let rest = cut(a)->rest;
    lemma_cut_finds_frame(gap, frame, rest + b);
    assert(a + b =~= gap + frame + (rest + b));
}

/// Waiting for more bytes loses nothing: what a look left in the buffer,
/// with more bytes behind it, is cut as the whole would have been.
pub proof fn lemma_cut_resumes(a: Seq<u8>, b: Seq<u8>)
    requires
        cut(a) is Incomplete,
    ensures
        cut(cut(a)->buffered + b) == cut(a + b),
{
    lemma_position_meaning(a, START_MARKER);
    match position(a, START_MARKER) {
        None => {},
        Some(start) => {
            let rest = a.skip(start);
            assert(cut(a)->buffered == rest);
            assert(is_first(a + b, START_MARKER, start)) by {
                assert((a + b)[start] == a[start]);
                assert forall|k: int| 0 <= k < start implies (a + b)[k] != START_MARKER by {
                    assert((a + b)[k] == a[k]);
                }
            }
            lemma_position_of_first(a + b, START_MARKER, start);
            assert((a + b).skip(start) =~= rest + b);
            assert(is_first(rest + b, START_MARKER, 0)) by {
                assert((rest + b)[0] == a[start]);
            }
            lemma_position_of_first(rest + b, START_MARKER, 0);
            assert((rest + b).skip(0) =~= rest + b);
        },
    }
}

/// One step of `drain` on a buffer that holds a whole frame.
pub proof fn lemma_drain_step(buf: Seq<u8>)
    requires
        cut(buf) is Complete,
    ensures
        drain(buf) == (Drained {
            frames: seq![cut(buf)->frame] + drain(cut(buf)->rest).frames,
            rest: drain(cut(buf)->rest).rest,
        }),
{
    reveal(drain);
    lemma_cut_frame_shape(buf);
}

/// `drain` on a buffer that holds no whole frame.
pub proof fn lemma_drain_stop(buf: Seq<u8>)
    requires
        cut(buf) is Incomplete,
    ensures
        drain(buf) == (Drained { frames: Seq::empty(), rest: cut(buf)->buffered }),
{
    reveal(drain);
}

/// Buffers that are cut alike are drained alike.
proof fn lemma_drain_follows_cut(x: Seq<u8>, y: Seq<u8>)
    requires
        cut(x) == cut(y),
    ensures
        drain(x) == drain(y),
{
    if cut(x) is Complete {
        lemma_drain_step(x);
        lemma_drain_step(y);
    } else {
        lemma_drain_stop(x);
        lemma_drain_stop(y);
    }
}

/// What is left after draining is settled.
pub proof fn lemma_drain_settles(buf: Seq<u8>)
    ensures
        settled(drain(buf).rest),
    decreases buf.len(),
{
    reveal(settled);
    match cut(buf) {
        Cut::Complete { frame, rest } => {
            lemma_drain_step(buf);
            lemma_cut_frame_shape(buf);
            lemma_drain_settles(rest);
        },
        Cut::Incomplete { buffered } => {
            lemma_drain_stop(buf);
            lemma_position_meaning(buf, START_MARKER);
            match position(buf, START_MARKER) {
                None => {},
                Some(start) => {
                    assert(buffered == buf.skip(start));
                    assert(is_first(buffered, START_MARKER, 0));
                    lemma_position_of_first(buffered, START_MARKER, 0);
                    assert(buffered.skip(0) =~= buffered);
                },
            }
        },
    }
}

/// Draining in two goes gives what draining the whole gives.
pub proof fn lemma_drain_resumes(a: Seq<u8>, b: Seq<u8>)
    ensures
        drain(a + b) == (Drained {
            frames: drain(a).frames + drain(drain(a).rest + b).frames,
            rest: drain(drain(a).rest + b).rest,
        }),
    decreases a.len(),
{
    match cut(a) {
        Cut::Complete { frame, rest } => {
            lemma_cut_frame_shape(a);
            lemma_cut_extends(a, b);
            lemma_drain_step(a);
            lemma_drain_step(a + b);
            lemma_drain_resumes(rest, b);
            let x = drain(rest).frames;
            let y = drain(drain(rest).rest + b).frames;
            assert(seq![frame] + (x + y) =~= (seq![frame] + x) + y);
        },
        Cut::Incomplete { buffered } => {
            lemma_drain_stop(a);
            lemma_cut_resumes(a, b);
            lemma_drain_follows_cut(buffered + b, a + b);
            assert(Seq::<Seq<u8>>::empty() + drain(buffered + b).frames =~= drain(
                buffered + b,
            ).frames);
        },
    }
}

/// The size limit can only stop the first look after a read: once a frame
/// has left the buffer, the buffer has only become shorter. So the looks
/// between two reads fail on an oversized buffer and drain any other.
pub proof fn lemma_looks_drain(buf: Seq<u8>)
    ensures
        looks(buf) == if buf.len() > MAX_FRAME_LEN {
            None
        } else {
            Some(drain(buf))
        },
    decreases buf.len(),
{
    reveal(looks);
    if buf.len() <= MAX_FRAME_LEN {
        if let Cut::Complete { frame, rest } = cut(buf) {
            lemma_drain_step(buf);
            lemma_cut_frame_shape(buf);
            lemma_looks_drain(rest);
        } else {
            lemma_drain_stop(buf);
        }
    }
}

/// A chunk that does not run the buffer into the size limit drains it.
pub proof fn lemma_feed_drains(buf: Seq<u8>, chunk: Seq<u8>)
    ensures
        feed(buf, chunk) == if (buf + chunk).len() > MAX_FRAME_LEN {
            None
        } else {
            Some(drain(buf + chunk))
        },
{
    lemma_looks_drain(buf + chunk);
}

/// Draining a settled buffer yields nothing and leaves it as it is.
pub proof fn lemma_settled_drains(buf: Seq<u8>)
    requires
        settled(buf),
    ensures
        drain(buf) == (Drained { frames: Seq::empty(), rest: buf }),
{
    reveal(settled);
    lemma_drain_stop(buf);
}

/// How a stream is cut into chunks does not matter: as long as no chunk runs
/// the buffer into the size limit, the frames that come out, and what stays
/// buffered, are those of the stream taken whole.
pub proof fn lemma_chunks_do_not_matter(buf: Seq<u8>, chunks: Seq<Seq<u8>>)
    requires
        settled(buf),
        run(buf, chunks) is Some,
    ensures
        run(buf, chunks) == Some(drain(buf + joined(chunks))),
    decreases chunks.len(),
{
    if chunks.len() == 0 {
        assert(buf + joined(chunks) =~= buf);
        lemma_settled_drains(buf);
    } else {
        let later = chunks.skip(1);
        lemma_feed_drains(buf, chunks[0]);
        let first = feed(buf, chunks[0]).unwrap();
        lemma_drain_settles(buf + chunks[0]);
        lemma_chunks_do_not_matter(first.rest, later);
        lemma_drain_resumes(buf + chunks[0], joined(later));
        assert(buf + joined(chunks) =~= (buf + chunks[0]) + joined(later));
    }
}

/// A stream of well-formed frames, each behind a gap that holds no start
/// marker, is drained into exactly those frames, in stream order, followed
/// by whatever the tail holds.
pub proof fn lemma_drain_stream(gaps: Seq<Seq<u8>>, frames: Seq<Seq<u8>>, tail: Seq<u8>)
    requires
        gaps.len() == frames.len(),
        forall|i: int| 0 <= i < gaps.len() ==> free_of(#[trigger] gaps[i], START_MARKER),
        forall|i: int| 0 <= i < frames.len() ==> well_formed(#[trigger] frames[i]),
    ensures
        drain(stream_of(gaps, frames, tail)) == (Drained {
            frames: frames + drain(tail).frames,
            rest: drain(tail).rest,
        }),
    decreases frames.len(),
{
    if frames.len() == 0 {
        assert(frames + drain(tail).frames =~= drain(tail).frames);
    } else {
        let later = stream_of(gaps.skip(1), frames.skip(1), tail);
        assert(free_of(gaps[0], START_MARKER));
        assert(well_formed(frames[0]));
        lemma_cut_finds_frame(gaps[0], frames[0], later);
        lemma_drain_step(gaps[0] + frames[0] + later);
        assert forall|i: int| 0 <= i < gaps.skip(1).len() implies free_of(
            #[trigger] gaps.skip(1)[i],
            START_MARKER,
        ) by {
            assert(gaps.skip(1)[i] == gaps[i + 1]);
        }
        assert forall|i: int| 0 <= i < frames.skip(1).len() implies well_formed(
            #[trigger] frames.skip(1)[i],
        ) by {
            assert(frames.skip(1)[i] == frames[i + 1]);
        }
        lemma_drain_stream(gaps.skip(1), frames.skip(1), tail);
        assert(seq![frames[0]] + (frames.skip(1) + drain(tail).frames) =~= frames + drain(
            tail,
        ).frames);
    }
}

/// Well-formed frames with bytes between them that hold no start marker,
/// received in chunks of any sizes into an empty buffer, come out as exactly
/// those frames in stream order, provided no chunk runs the buffer into the
/// size limit. `tail` is what follows the last frame and holds no whole frame
/// itself.
pub proof fn lemma_stream_in_chunks(
    gaps: Seq<Seq<u8>>,
    frames: Seq<Seq<u8>>,
    tail: Seq<u8>,
    chunks: Seq<Seq<u8>>,
)
    requires
        gaps.len() == frames.len(),
        forall|i: int| 0 <= i < gaps.len() ==> free_of(#[trigger] gaps[i], START_MARKER),
        forall|i: int| 0 <= i < frames.len() ==> well_formed(#[trigger] frames[i]),
        cut(tail) is Incomplete,
        joined(chunks) == stream_of(gaps, frames, tail),
        run(Seq::empty(), chunks) is Some,
    ensures
        run(Seq::empty(), chunks).unwrap().frames == frames,
{
    let empty = Seq::<u8>::empty();
    assert(settled(empty)) by {
        reveal(settled);
        lemma_position_meaning(empty, START_MARKER);
    }
    lemma_chunks_do_not_matter(empty, chunks);
    assert(empty + joined(chunks) =~= joined(chunks));
    lemma_drain_stream(gaps, frames, tail);
    lemma_drain_stop(tail);
    assert(frames + drain(tail).frames =~= frames);
}

/// A frame that is handed out fits the parser's fixed width.
pub proof fn lemma_frame_fits(buf: Seq<u8>)
    requires
        frame_step(buf) matches Some(found) && found is Complete,
    ensures
        cut(buf)->frame.len() <= MAX_FRAME_LEN,
{
    lemma_cut_frame_shape(buf);
    let start = position(buf, START_MARKER).unwrap();
    assert((buf.take(start) + cut(buf)->frame + cut(buf)->rest).len() == buf.len());
}

/// Past the size limit nothing is cut out, and a buffer whose start marker
/// has no end marker behind it yields no frame at any length: no part of an
/// unfinished frame is ever handed out.
pub proof fn lemma_no_partial_frame(buf: Seq<u8>)
    ensures
        buf.len() > MAX_FRAME_LEN ==> frame_step(buf) is None,
        position(buf, START_MARKER) matches Some(start) && free_of(buf.skip(start), END_MARKER)
            ==> !(cut(buf) is Complete),
{
    if let Some(start) = position(buf, START_MARKER) {
        if free_of(buf.skip(start), END_MARKER) {
            crate::frame::lemma_position_absent(buf.skip(start), END_MARKER);
        }
    }
}

} // verus!
