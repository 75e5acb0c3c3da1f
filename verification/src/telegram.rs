//! Handing a frame to the telegram parser of the `dsmr5` crate.
//!
//! The parser checks the checksum and reads the telegram's objects. It was
//! written for what meters send, and on some input it does not answer at all:
//! it slices text by byte offsets, which fails inside a character of more
//! than one byte, and it computes the number of decimals of a sub-device
//! reading as nine less the place of its decimal point. A frame is therefore
//! looked over first, and one that could lead there is not parsed.

use crate::frame::{find_byte, position, MAX_FRAME_LEN};
use dsmr5::state::State;
use vstd::prelude::*;

verus! {

/// `dsmr5::state::State`, what a telegram reports. Nothing here reads it: it
/// is carried through to the caller.
#[verifier::external_type_specification]
#[verifier::external_body]
pub struct ExState(State);

/// `dsmr5::Error`, the parser's error. It is only told apart from success.
#[verifier::external_type_specification]
#[verifier::external_body]
pub struct ExTelegramError(dsmr5::Error);

/// `(`, which opens every value of a telegram object.
pub const VALUE_OPEN: u8 = 0x28;

/// `.`, the decimal point.
pub const DECIMAL_POINT: u8 = 0x2e;

/// The most bytes that may stand between the opening of a sub-device reading
/// and its decimal point.
pub const POINT_REACH: usize = 9;

/// The length of `24.2.1(`, the end of the reference of a sub-device reading
/// and the opening of its timestamp.
pub const READING_TAG_LEN: usize = 7;

/// `24.2.1(` stands in `frame` at `i`.
pub open spec fn reading_tag_at(frame: Seq<u8>, i: int) -> bool {
    &&& 0 <= i
    &&& i + READING_TAG_LEN <= frame.len()
    &&& frame[i] == 0x32
    &&& frame[i + 1] == 0x34
    &&& frame[i + 2] == 0x2e
    &&& frame[i + 3] == 0x32
    &&& frame[i + 4] == 0x2e
    &&& frame[i + 5] == 0x31
    &&& frame[i + 6] == 0x28
}

/// From place `from` on, the next value that opens has its decimal point, if
/// it has one, within reach.
pub open spec fn point_in_reach(frame: Seq<u8>, from: int) -> bool {
    match position(frame.skip(from), VALUE_OPEN) {
        None => true,
        Some(open) => match position(frame.skip(from + open), DECIMAL_POINT) {
            None => true,
            Some(point) => point <= POINT_REACH,
        },
    }
}

/// The parser answers on `frame`: every byte is ASCII, and the value after
/// each sub-device reading's timestamp has its decimal point within reach.
pub open spec fn parser_safe(frame: Seq<u8>) -> bool {
    &&& forall|i: int| 0 <= i < frame.len() ==> frame[i] < 0x80
    &&& forall|i: int| #[trigger] reading_tag_at(frame, i) ==> point_in_reach(frame, i + READING_TAG_LEN)
}

/// Whether the parser accepts `frame` as a telegram: checksum, header and
/// every object in it.
pub uninterp spec fn telegram_decodes(frame: Seq<u8>) -> bool;

/// `dsmr5::Readout::to_telegram`, then `From<&Telegram>` for
/// `dsmr5::Result<State>`: the state that the telegram in `frame` reports, or
/// the parser's error. Both are functions of the bytes alone, so whether the
/// pair succeeds has a name. On a frame that is `parser_safe` neither panics.
#[verifier::external_body]
pub(crate) fn parse_telegram(frame: &[u8]) -> (r: Result<State, dsmr5::Error>)
    requires
        frame@.len() == MAX_FRAME_LEN,
        parser_safe(frame@),
    ensures
        r is Ok <==> telegram_decodes(frame@),
{
    let readout = dsmr5::Readout { buffer: frame.try_into().unwrap() };
    let telegram = readout.to_telegram()?;
    dsmr5::Result::from(&telegram)
}

/// The first place at or after `from` that holds `b`, counted from `from`.
fn find_byte_from(s: &[u8], from: usize, b: u8) -> (r: Option<usize>)
    requires
        from <= s.len(),
    ensures
        match r {
            Some(i) => position(s@.skip(from as int), b) == Some(i as int) && from + i < s.len(),
            None => position(s@.skip(from as int), b) is None,
        },
{
    let tail = vstd::slice::slice_subrange(s, from, s.len());
    assert(tail@ == s@.skip(from as int));
    let r = find_byte(tail, b);
    proof {
        crate::frame::lemma_position_meaning(tail@, b);
    }
    r
}

/// Whether `24.2.1(` stands in `frame` at `i`.
fn has_reading_tag(frame: &[u8], i: usize) -> (r: bool)
    requires
        i < frame.len(),
    ensures
        r == reading_tag_at(frame@, i as int),
{
    frame.len() - i >= READING_TAG_LEN && frame[i] == 0x32 && frame[i + 1] == 0x34 && frame[i + 2]
        == 0x2e && frame[i + 3] == 0x32 && frame[i + 4] == 0x2e && frame[i + 5] == 0x31 && frame[i
        + 6] == 0x28
}

/// Whether the next value that opens at or after `from` has its decimal
/// point within reach.
fn has_point_in_reach(frame: &[u8], from: usize) -> (r: bool)
    requires
        from <= frame.len(),
    ensures
        r == point_in_reach(frame@, from as int),
{
    match find_byte_from(frame, from, VALUE_OPEN) {
        None => true,
        Some(open) => match find_byte_from(frame, from + open, DECIMAL_POINT) {
            None => true,
            Some(point) => point <= POINT_REACH,
        },
    }
}

/// Whether the parser can be trusted with `frame`.
pub fn is_parser_safe(frame: &[u8]) -> (r: bool)
    ensures
        r == parser_safe(frame@),
{
    let mut i: usize = 0;
    while i < frame.len()
        invariant
            i <= frame.len(),
            forall|k: int| 0 <= k < i ==> frame@[k] < 0x80,
            forall|k: int|
                0 <= k < i && #[trigger] reading_tag_at(frame@, k) ==> point_in_reach(
                    frame@,
                    k + READING_TAG_LEN,
                ),
        decreases frame.len() - i,
    {
        if frame[i] >= 0x80 {
            return false;
        }
        if has_reading_tag(frame, i) && !has_point_in_reach(frame, i + READING_TAG_LEN) {
            return false;
        }
        i += 1;
    }
    true
}

} // verus!
