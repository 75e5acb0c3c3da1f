//! Where a telegram begins and ends inside a buffer of received bytes.
//!
//! A frame runs from a start marker to a fixed distance past the first end
//! marker that follows it: the end marker itself, four checksum characters and
//! a line break. Everything here is a statement about byte sequences; the
//! decoder is proved against it.

use vstd::prelude::*;

verus! {

/// The most bytes a buffer may hold when a frame is looked for.
pub const MAX_FRAME_LEN: usize = 2048;

/// `/`, the first byte of every telegram.
pub const START_MARKER: u8 = 0x2f;

/// `!`, the byte that closes a telegram's data.
pub const END_MARKER: u8 = 0x21;

/// The bytes of a frame from its end marker on: the marker, the checksum
/// field and the line break.
pub const TRAILER_LEN: usize = 7;

/// `i` is the first place in `s` that holds `b`.
pub open spec fn is_first(s: Seq<u8>, b: u8, i: int) -> bool {
    &&& 0 <= i < s.len()
    &&& s[i] == b
    &&& forall|k: int| 0 <= k < i ==> s[k] != b
}

/// The first place in `s` that holds `b`, if any does.
pub open spec fn position(s: Seq<u8>, b: u8) -> Option<int> {
    if exists|i: int| is_first(s, b, i) {
        Some(choose|i: int| is_first(s, b, i))
    } else {
        None
    }
}

/// What a look at a buffer yields.
pub enum Cut {
    /// No whole frame yet; `buffered` is what stays in the buffer.
    Incomplete { buffered: Seq<u8> },
    /// `frame` leaves the buffer and `rest` stays.
    Complete { frame: Seq<u8>, rest: Seq<u8> },
}

/// Cutting the next frame out of `buf`, whatever its length.
///
/// Bytes before the first start marker are dropped. A buffer without a start
/// marker is left as it is.
pub open spec fn cut(buf: Seq<u8>) -> Cut {
    match position(buf, START_MARKER) {
        None => Cut::Incomplete { buffered: buf },
        Some(start) => {
            let aligned = buf.skip(start);
            match position(aligned, END_MARKER) {
                None => Cut::Incomplete { buffered: aligned },
                Some(end) => if aligned.len() < end + TRAILER_LEN {
                    Cut::Incomplete { buffered: aligned }
                } else {
                    Cut::Complete {
                        frame: aligned.take(end + TRAILER_LEN),
                        rest: aligned.skip(end + TRAILER_LEN),
                    }
                },
            }
        },
    }
}

/// One look at the buffer: the size limit first, then the cut. `None` is the
/// size violation.
pub open spec fn frame_step(buf: Seq<u8>) -> Option<Cut> {
    if buf.len() > MAX_FRAME_LEN {
        None
    } else {
        Some(cut(buf))
    }
}

/// A first occurrence is the position.
pub proof fn lemma_position_of_first(s: Seq<u8>, b: u8, i: int)
    requires
        is_first(s, b, i),
    ensures
        position(s, b) == Some(i),
{
    let j = choose|j: int| is_first(s, b, j);
    assert(is_first(s, b, j));
    if j < i {
        assert(s[j] != b);
    } else if i < j {
        assert(s[i] != b);
    }
}

/// A sequence without `b` has no position for it.
pub proof fn lemma_position_absent(s: Seq<u8>, b: u8)
    requires
        forall|k: int| 0 <= k < s.len() ==> s[k] != b,
    ensures
        position(s, b) is None,
{
    if exists|i: int| is_first(s, b, i) {
        let i = choose|i: int| is_first(s, b, i);
        assert(s[i] != b);
    }
}

/// What a position says of the sequence, either way.
pub proof fn lemma_position_meaning(s: Seq<u8>, b: u8)
    ensures
        match position(s, b) {
            Some(i) => is_first(s, b, i),
            None => forall|k: int| 0 <= k < s.len() ==> s[k] != b,
        },
{
    match position(s, b) {
        Some(i) => {},
        None => {
            assert forall|k: int| 0 <= k < s.len() implies s[k] != b by {
                if s[k] == b {
                    lemma_first_exists(s, b, k);
                }
            }
        },
    }
}

/// An occurrence at `k` means there is a first one, at or before `k`.
proof fn lemma_first_exists(s: Seq<u8>, b: u8, k: int)
    requires
        0 <= k < s.len(),
        s[k] == b,
    ensures
        exists|i: int| is_first(s, b, i) && i <= k,
    decreases k,
{
    if forall|j: int| 0 <= j < k ==> s[j] != b {
        assert(is_first(s, b, k));
    } else {
        let j = choose|j: int| 0 <= j < k && s[j] == b;
        lemma_first_exists(s, b, j);
        let i = choose|i: int| is_first(s, b, i) && i <= j;
        assert(is_first(s, b, i) && i <= k);
    }
}

/// The first place in `s` that holds `b`.
pub fn find_byte(s: &[u8], b: u8) -> (r: Option<usize>)
    ensures
        match r {
            Some(i) => position(s@, b) == Some(i as int),
            None => position(s@, b) is None,
        },
{
    let mut i: usize = 0;
    while i < s.len()
        invariant
            i <= s.len(),
            forall|k: int| 0 <= k < i ==> s@[k] != b,
        decreases s.len() - i,
    {
        if s[i] == b {
            proof {
                lemma_position_of_first(s@, b, i as int);
            }
            return Some(i);
        }
        i += 1;
    }
    proof {
        lemma_position_absent(s@, b);
    }
    None
}

} // verus!
