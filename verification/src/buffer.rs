//! The receive buffer: `bytes::BytesMut`, seen by the verifier as the
//! sequence of bytes it currently holds.

use bytes::{Buf, BytesMut};
use vstd::prelude::*;

verus! {

/// `bytes::BytesMut`. The verifier sees nothing of a buffer but what
/// `buffer_bytes` says it holds.
#[verifier::external_type_specification]
#[verifier::external_body]
pub struct ExBytesMut(BytesMut);

/// The bytes a buffer holds, first to last.
pub uninterp spec fn buffer_bytes(b: BytesMut) -> Seq<u8>;

/// `BytesMut::len`: the number of bytes held.
#[verifier::external_body]
pub(crate) fn buffer_len(b: &BytesMut) -> (n: usize)
    ensures
        n == buffer_bytes(*b).len(),
{
    b.len()
}

/// `BytesMut::capacity`: how many bytes fit without reallocating. Nothing is
/// claimed of the number.
#[verifier::external_body]
pub(crate) fn buffer_capacity(b: &BytesMut) -> usize {
    b.capacity()
}

/// `BytesMut::reserve`: makes room for `additional` more bytes. The bytes held
/// stay as they are. The call panics when the new capacity overflows `usize`,
/// which 2048 bytes more in a buffer of at most 2048 cannot cause.
#[verifier::external_body]
pub(crate) fn buffer_reserve(b: &mut BytesMut, additional: usize)
    requires
        buffer_bytes(*old(b)).len() <= 2048,
        additional <= 2048,
    ensures
        buffer_bytes(*final(b)) == buffer_bytes(*old(b)),
{
    b.reserve(additional)
}

/// `AsRef<[u8]>::as_ref` on `BytesMut`: the bytes held, as a slice.
#[verifier::external_body]
pub(crate) fn buffer_as_slice(b: &BytesMut) -> (s: &[u8])
    ensures
        s@ == buffer_bytes(*b),
{
    b.as_ref()
}

/// `Buf::advance` on `BytesMut`: drops the first `count` bytes. The call
/// panics when `count` exceeds the length.
#[verifier::external_body]
pub(crate) fn buffer_advance(b: &mut BytesMut, count: usize)
    requires
        count <= buffer_bytes(*old(b)).len(),
    ensures
        buffer_bytes(*final(b)) == buffer_bytes(*old(b)).skip(count as int),
{
    b.advance(count)
}

/// `BytesMut::split_to`: hands out the first `at` bytes as a buffer of their
/// own and keeps the rest. The call panics when `at` exceeds the length.
#[verifier::external_body]
pub(crate) fn buffer_split_to(b: &mut BytesMut, at: usize) -> (head: BytesMut)
    requires
        at <= buffer_bytes(*old(b)).len(),
    ensures
        buffer_bytes(head) == buffer_bytes(*old(b)).take(at as int),
        buffer_bytes(*final(b)) == buffer_bytes(*old(b)).skip(at as int),
{
    b.split_to(at)
}

/// `BytesMut::resize`: truncates to `new_len` bytes, or extends to `new_len`
/// bytes by appending copies of `value`. Extending reserves room first, as
/// `BytesMut::reserve` does; a new length of at most 2048 cannot overflow.
#[verifier::external_body]
pub(crate) fn buffer_resize(b: &mut BytesMut, new_len: usize, value: u8)
    requires
        new_len <= 2048,
    ensures
        buffer_bytes(*final(b)) == resized(buffer_bytes(*old(b)), new_len as nat, value),
{
    b.resize(new_len, value)
}

/// `s` cut or padded with `value` to exactly `new_len` items.
pub open spec fn resized(s: Seq<u8>, new_len: nat, value: u8) -> Seq<u8> {
    if new_len <= s.len() {
        s.take(new_len as int)
    } else {
        s + Seq::new((new_len - s.len()) as nat, |i: int| value)
    }
}

} // verus!
