//! The telegram decoder: one call looks at the receive buffer once.

use crate::buffer::{
    buffer_advance, buffer_as_slice, buffer_bytes, buffer_capacity, buffer_len, buffer_reserve,
    buffer_resize, buffer_split_to, resized,
};
use crate::frame::{
    find_byte, frame_step, Cut, END_MARKER, MAX_FRAME_LEN, START_MARKER, TRAILER_LEN,
};
use crate::telegram::{is_parser_safe, parse_telegram, parser_safe, telegram_decodes};
use bytes::BytesMut;
use dsmr5::state::State;
use vstd::prelude::*;

verus! {

/// Why a look at the buffer failed.
#[derive(Debug, Clone, Copy, PartialEq, Eq, Structural)]
pub enum DecodeError {
    /// The buffer passed the size limit before a frame was complete. The
    /// buffer is left as it is and cannot be resynchronised: the connection
    /// has to be dropped with it.
    FrameTooLong,
    /// A whole frame was cut out and was no telegram. The frame is gone from
    /// the buffer and the stream can be read on.
    MalformedTelegram,
}

/// The decoder. It keeps nothing between calls: all state is in the buffer.
pub struct Dsmr5Codec {}

/// A frame as the parser gets it: padded with zero bytes to the fixed width.
pub open spec fn padded(frame: Seq<u8>) -> Seq<u8> {
    resized(frame, MAX_FRAME_LEN as nat, 0)
}

/// The padded frame is parsed, and the parser accepts it.
pub open spec fn accepted(frame: Seq<u8>) -> bool {
    parser_safe(padded(frame)) && telegram_decodes(padded(frame))
}

/// What the decoder returns for a frame once the parser has answered: the
/// state, or `MalformedTelegram` for any error of the parser.
pub fn telegram_outcome(parsed: Result<State, dsmr5::Error>) -> (r: Result<
    Option<State>,
    DecodeError,
>)
    ensures
        match parsed {
            Ok(state) => r == Ok::<Option<State>, DecodeError>(Some(state)),
            Err(_) => r == Err::<Option<State>, DecodeError>(DecodeError::MalformedTelegram),
        },
{
    match parsed {
        Ok(state) => Ok(Some(state)),
        Err(_) => Err(DecodeError::MalformedTelegram),
    }
}

impl Dsmr5Codec {
    pub fn new() -> (codec: Self)
        ensures
            codec == (Dsmr5Codec {  }),
    {
        Dsmr5Codec {  }
    }

    /// Looks at the buffer once.
    ///
    /// - Over the size limit, the call fails with `FrameTooLong` and the
    ///   buffer is untouched.
    /// - Without a whole frame the call returns `Ok(None)`; bytes before the
    ///   first start marker are dropped from the buffer.
    /// - Otherwise the frame, and everything before it, leaves the buffer.
    ///   The call returns the telegram's state if the frame is fit for the
    ///   parser and the parser accepts it, and fails with `MalformedTelegram`
    ///   if not.
    pub fn decode(&mut self, src: &mut BytesMut) -> (r: Result<Option<State>, DecodeError>)
        ensures
            match frame_step(buffer_bytes(*old(src))) {
                None => {
                    &&& r == Err::<Option<State>, DecodeError>(DecodeError::FrameTooLong)
                    &&& buffer_bytes(*final(src)) == buffer_bytes(*old(src))
                },
                Some(Cut::Incomplete { buffered }) => {
                    &&& r == Ok::<Option<State>, DecodeError>(None)
                    &&& buffer_bytes(*final(src)) == buffered
                },
                Some(Cut::Complete { frame, rest }) => {
                    &&& buffer_bytes(*final(src)) == rest
                    &&& accepted(frame) ==> (r matches Ok(Some(_)))
                    &&& !accepted(frame) ==> r == Err::<Option<State>, DecodeError>(
                        DecodeError::MalformedTelegram,
                    )
                },
            },
    {
        if buffer_len(src) > MAX_FRAME_LEN {
            return Err(DecodeError::FrameTooLong);
        }
        let capacity = buffer_capacity(src);
        if capacity < MAX_FRAME_LEN {
            buffer_reserve(src, MAX_FRAME_LEN - capacity);
        }
        match find_byte(buffer_as_slice(src), START_MARKER) {
            None => {
                return Ok(None);
            },
            Some(index) => {
                if index > 0 {
                    buffer_advance(src, index);
                }
                assert(buffer_bytes(*src) =~= buffer_bytes(*old(src)).skip(index as int));
            },
        }
        let end_index = match find_byte(buffer_as_slice(src), END_MARKER) {
            None => {
                return Ok(None);
            },
            Some(index) => index + TRAILER_LEN,
        };
        if buffer_len(src) < end_index {
            return Ok(None);
        }
        let mut frame = buffer_split_to(src, end_index);
        let ghost cut_out = buffer_bytes(frame);
        buffer_resize(&mut frame, MAX_FRAME_LEN, 0);
        assert(buffer_bytes(frame) == padded(cut_out));
        let bytes = buffer_as_slice(&frame);
        if !is_parser_safe(bytes) {
            return Err(DecodeError::MalformedTelegram);
        }
        telegram_outcome(parse_telegram(bytes))
    }
}

} // verus!
