//! The fixed-capacity buffer in which an outgoing packet is assembled.
//!
//! A packet is written to the stream in one piece, so it is put together in a
//! buffer first. No outgoing packet is longer than [`MAX_PACKET_LEN`] bytes,
//! so the buffer is an `ArrayVec` of that capacity, which needs no allocation.
//! Verus does not look inside an `ArrayVec`: what it holds is named by
//! [`buffer_bytes`], and the functions below state what the calls into the
//! `arrayvec` crate do to it.

use arrayvec::ArrayVec;
use std::io::Write;
use vstd::prelude::*;

verus! {

/// The length of the longest packet that is ever sent: the length field, the
/// identifier, the type, the longest payload and the two closing zero bytes.
pub const MAX_PACKET_LEN: usize = 1460;

/// `arrayvec::ArrayVec`, a vector of at most `CAP` items that are stored
/// inline. Verus takes the type as opaque.
#[verifier::external_type_specification]
#[verifier::external_body]
#[verifier::reject_recursive_types(T)]
pub struct ExArrayVec<T, const CAP: usize>(ArrayVec<T, CAP>);

/// The bytes that a packet buffer holds, first to last: what
/// `ArrayVec::as_slice` returns for it.
pub uninterp spec fn buffer_bytes(buffer: ArrayVec<u8, MAX_PACKET_LEN>) -> Seq<u8>;

/// `ArrayVec::new`: the new buffer is empty. (The call panics only for a
/// capacity above `u32::MAX`.)
#[verifier::external_body]
pub(crate) fn buffer_new() -> (buffer: ArrayVec<u8, MAX_PACKET_LEN>)
    ensures
        buffer_bytes(buffer) == Seq::<u8>::empty(),
{
    ArrayVec::new()
}

/// `Write::write_all` on an `ArrayVec<u8, _>`: where `data` fits into the
/// capacity that is left, `ArrayVec`'s `write` appends all of it in one call
/// and reports its whole length, so `write_all` returns `Ok`. Data that does
/// not fit is left out by the precondition.
#[verifier::external_body]
pub(crate) fn buffer_write_all(buffer: &mut ArrayVec<u8, MAX_PACKET_LEN>, data: &[u8]) -> (r: Result<
    (),
    std::io::Error,
>)
    requires
        buffer_bytes(*old(buffer)).len() + data@.len() <= MAX_PACKET_LEN,
    ensures
        r is Ok,
        buffer_bytes(*final(buffer)) == buffer_bytes(*old(buffer)) + data@,
{
    buffer.write_all(data)
}

} // verus!
