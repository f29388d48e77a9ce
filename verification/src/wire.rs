//! The packet format.
//!
//! A packet on the wire is
//!
//! ```text
//! [length: i32][id: i32][type: i32][payload][0x00 0x00]
//! ```
//!
//! with every integer in little-endian two's complement. `length` counts all
//! that follows it: ten bytes and the payload.

use crate::buffer::{buffer_bytes, buffer_new, buffer_write_all, MAX_PACKET_LEN};
use crate::error::SendError;
use arrayvec::ArrayVec;
use vstd::prelude::*;
use vstd::slice::{slice_subrange, slice_to_vec};

verus! {

/// The port on which a server listens unless it is configured otherwise. The
/// crate does not use the value.
pub const DEFAULT_RCON_PORT: u16 = 25575;

/// The number of payload bytes that a server accepts in one packet.
pub const MAX_OUTGOING_PAYLOAD_LEN: usize = 1446;

/// The number of payload bytes that a server sends in one packet at most.
pub const MAX_INCOMING_PAYLOAD_LEN: usize = 4096;

/// The number of bytes that the three integer fields at the front of a packet
/// take.
pub const HEADER_LEN: usize = 12;

/// What the length field counts besides the payload: the identifier, the type
/// and the two closing zero bytes.
pub const LENGTH_OVERHEAD: usize = 10;

/// The type of a packet that carries a password.
pub const LOGIN_TYPE: i32 = 3;

/// The type of a packet that carries a command.
pub const COMMAND_TYPE: i32 = 2;

/// The four bytes of `value` in two's complement, least significant first.
pub open spec fn le_bytes(value: i32) -> Seq<u8> {
    let unsigned: int = if value < 0 {
        value + 0x1_0000_0000
    } else {
        value as int
    };
    seq![
        (unsigned % 256) as u8,
        (unsigned / 0x100 % 256) as u8,
        (unsigned / 0x1_0000 % 256) as u8,
        (unsigned / 0x100_0000) as u8,
    ]
}

/// The integer that the first four bytes of `bytes` stand for, read as
/// two's complement with the least significant byte first.
pub open spec fn le_value(bytes: Seq<u8>) -> i32 {
    let unsigned: int = bytes[0] + 0x100 * bytes[1] + 0x1_0000 * bytes[2] + 0x100_0000 * bytes[3];
    if unsigned >= 0x8000_0000 {
        (unsigned - 0x1_0000_0000) as i32
    } else {
        unsigned as i32
    }
}

/// The bytes of the packet with the given identifier, type and payload.
pub open spec fn encode_spec(id: i32, packet_type: i32, payload: Seq<u8>) -> Seq<u8> {
    le_bytes((LENGTH_OVERHEAD + payload.len()) as i32) + le_bytes(id) + le_bytes(packet_type)
        + payload + seq![0u8, 0u8]
}

/// The three integers at the front of a packet.
#[derive(Clone, Copy, Debug, PartialEq, Eq, Structural)]
pub struct PacketHeader {
    /// The number of bytes that follow the length field.
    pub length: i32,
    /// The identifier of the request that the packet belongs to.
    pub id: i32,
    /// The type of the packet.
    pub packet_type: i32,
}

/// A packet without its framing.
#[derive(Debug)]
pub struct Packet {
    /// The identifier of the request that the packet belongs to.
    pub id: i32,
    /// The type of the packet.
    pub packet_type: i32,
    /// The bytes that the packet carries.
    pub payload: Vec<u8>,
}

/// The header that the first twelve bytes of `bytes` spell.
pub open spec fn header_spec(bytes: Seq<u8>) -> PacketHeader {
    PacketHeader {
        length: le_value(bytes.subrange(0, 4)),
        id: le_value(bytes.subrange(4, 8)),
        packet_type: le_value(bytes.subrange(8, 12)),
    }
}

/// The identifier, type and payload of the packet that `bytes` is, where it is
/// one: a header whose length field is at least ten and counts exactly the
/// bytes that follow it. The two closing bytes are dropped unread.
pub open spec fn decode_spec(bytes: Seq<u8>) -> Option<(i32, i32, Seq<u8>)> {
    if bytes.len() < HEADER_LEN {
        None
    } else {
        let header = header_spec(bytes.subrange(0, HEADER_LEN as int));
        if header.length >= LENGTH_OVERHEAD && bytes.len() == 4 + header.length {
            Some((header.id, header.packet_type, bytes.subrange(HEADER_LEN as int, bytes.len() - 2)))
        } else {
            None
        }
    }
}

/// Writes `value` as four bytes, least significant first.
pub fn i32_to_le_bytes(value: i32) -> (bytes: [u8; 4])
    ensures
        bytes@ == le_bytes(value),
{
    let unsigned: u32 = if value < 0 {
        (value as i64 + 0x1_0000_0000) as u32
    } else {
        value as u32
    };
    let bytes: [u8; 4] = [
        (unsigned % 256) as u8,
        (unsigned / 0x100 % 256) as u8,
        (unsigned / 0x1_0000 % 256) as u8,
        (unsigned / 0x100_0000) as u8,
    ];
    assert(bytes@ =~= le_bytes(value));
    bytes
}

/// Reads four bytes as an integer, least significant byte first.
pub fn i32_from_le_bytes(bytes: [u8; 4]) -> (value: i32)
    ensures
        value == le_value(bytes@),
{
    let unsigned: u32 = bytes[0] as u32 + 0x100 * (bytes[1] as u32) + 0x1_0000 * (bytes[2] as u32)
        + 0x100_0000 * (bytes[3] as u32);
    if unsigned >= 0x8000_0000 {
        (unsigned as i64 - 0x1_0000_0000) as i32
    } else {
        unsigned as i32
    }
}

/// Reads the integer field that starts at `at`.
fn field(bytes: &[u8], at: usize) -> (value: i32)
    requires
        at + 4 <= bytes@.len(),
    ensures
        value == le_value(bytes@.subrange(at as int, at + 4)),
{
    let four: [u8; 4] = [bytes[at], bytes[at + 1], bytes[at + 2], bytes[at + 3]];
    assert(four@ =~= bytes@.subrange(at as int, at + 4));
    i32_from_le_bytes(four)
}

/// Appends `data` to a packet under construction.
fn put(buffer: &mut ArrayVec<u8, MAX_PACKET_LEN>, data: &[u8]) -> (r: Result<(), SendError>)
    requires
        buffer_bytes(*old(buffer)).len() + data@.len() <= MAX_PACKET_LEN,
    ensures
        r is Ok,
        buffer_bytes(*final(buffer)) == buffer_bytes(*old(buffer)) + data@,
{
    match buffer_write_all(buffer, data) {
        Ok(()) => Ok(()),
        Err(e) => Err(SendError::from(e)),
    }
}

/// Builds the packet with the given identifier, type and payload, unless the
/// payload is longer than [`MAX_OUTGOING_PAYLOAD_LEN`]. The packet is fourteen
/// bytes longer than its payload.
pub fn encode(id: i32, packet_type: i32, payload: &[u8]) -> (r: Result<
    ArrayVec<u8, MAX_PACKET_LEN>,
    SendError,
>)
    ensures
        payload@.len() <= MAX_OUTGOING_PAYLOAD_LEN ==> (r matches Ok(buffer) && buffer_bytes(buffer)
            == encode_spec(id, packet_type, payload@)),
        payload@.len() > MAX_OUTGOING_PAYLOAD_LEN ==> r matches Err(SendError::PayloadTooLong),
        r matches Ok(buffer) ==> buffer_bytes(buffer).len() == 4 + LENGTH_OVERHEAD + payload@.len(),
{
    if payload.len() > MAX_OUTGOING_PAYLOAD_LEN {
        return Err(SendError::PayloadTooLong);
    }
    let length: i32 = (LENGTH_OVERHEAD + payload.len()) as i32;
    let closing: [u8; 2] = [0, 0];
    let mut buffer = buffer_new();
    put(&mut buffer, i32_to_le_bytes(length).as_slice())?;
    put(&mut buffer, i32_to_le_bytes(id).as_slice())?;
    put(&mut buffer, i32_to_le_bytes(packet_type).as_slice())?;
    put(&mut buffer, payload)?;
    put(&mut buffer, closing.as_slice())?;
    assert(closing@ =~= seq![0u8, 0u8]);
    Ok(buffer)
}

/// Reads the three integers at the front of a packet from the twelve bytes
/// that hold them.
pub fn decode_header(bytes: &[u8]) -> (header: Option<PacketHeader>)
    ensures
        bytes@.len() == HEADER_LEN ==> header == Some(header_spec(bytes@)),
        bytes@.len() != HEADER_LEN ==> header is None,
{
    if bytes.len() != HEADER_LEN {
        return None;
    }
    Some(
        PacketHeader {
            length: field(bytes, 0),
            id: field(bytes, 4),
            packet_type: field(bytes, 8),
        },
    )
}

impl PacketHeader {
    /// The number of payload bytes that the length field announces, where it
    /// is a length that a packet can have.
    pub open spec fn spec_payload_len(self) -> Option<usize> {
        if self.length >= LENGTH_OVERHEAD {
            Some((self.length - LENGTH_OVERHEAD) as usize)
        } else {
            None
        }
    }

    /// The number of payload bytes that follow the header, or `None` where the
    /// length field is too small for any packet.
    pub fn payload_len(&self) -> (n: Option<usize>)
        ensures
            n == self.spec_payload_len(),
            n matches Some(len) ==> len + LENGTH_OVERHEAD == self.length,
    {
        if self.length >= LENGTH_OVERHEAD as i32 {
            Some((self.length - LENGTH_OVERHEAD as i32) as usize)
        } else {
            None
        }
    }
}

/// Takes the payload out of what follows a header: `payload_len` bytes of
/// payload and the two closing bytes, which are dropped unread. Gives `None`
/// where `body` has another length than that.
pub fn decode_payload(body: &[u8], payload_len: usize) -> (payload: Option<Vec<u8>>)
    ensures
        body@.len() == payload_len + 2 ==> (payload matches Some(bytes) && bytes@
            == body@.subrange(0, payload_len as int)),
        body@.len() != payload_len + 2 ==> payload is None,
{
    if body.len() < 2 || body.len() - 2 != payload_len {
        return None;
    }
    Some(slice_to_vec(slice_subrange(body, 0, payload_len)))
}

/// Takes a whole packet apart. The two closing bytes are dropped unread.
pub fn decode(bytes: &[u8]) -> (packet: Option<Packet>)
    ensures
        match decode_spec(bytes@) {
            Some((id, packet_type, payload)) => packet matches Some(p) && p.id == id
                && p.packet_type == packet_type && p.payload@ == payload,
            None => packet is None,
        },
{
    if bytes.len() < HEADER_LEN {
        return None;
    }
    let header = match decode_header(slice_subrange(bytes, 0, HEADER_LEN)) {
        Some(header) => header,
        None => { return None; },
    };
    let payload_len = match header.payload_len() {
        Some(n) => n,
        None => { return None; },
    };
    let body = slice_subrange(bytes, HEADER_LEN, bytes.len());
    match decode_payload(body, payload_len) {
        Some(payload) => {
            assert(body@.subrange(0, payload_len as int) =~= bytes@.subrange(
                HEADER_LEN as int,
                bytes@.len() - 2,
            ));
            Some(Packet { id: header.id, packet_type: header.packet_type, payload })
        },
        None => None,
    }
}

/// Taking apart a packet that was built gives back the identifier, the type
/// and the payload that it was built from. This holds of every payload whose
/// length the length field can hold, and so of every payload that [`encode`]
/// accepts.
pub proof fn law_decode_inverts_encode(id: i32, packet_type: i32, payload: Seq<u8>)
    requires
        payload.len() + LENGTH_OVERHEAD <= i32::MAX,
    ensures
        decode_spec(encode_spec(id, packet_type, payload)) == Some((id, packet_type, payload)),
{
    let length: i32 = (LENGTH_OVERHEAD + payload.len()) as i32;
    let bytes = encode_spec(id, packet_type, payload);
    law_le_round_trip(length);
    law_le_round_trip(id);
    law_le_round_trip(packet_type);
    let front = bytes.subrange(0, HEADER_LEN as int);
    assert(front.subrange(0, 4) =~= le_bytes(length));
    assert(front.subrange(4, 8) =~= le_bytes(id));
    assert(front.subrange(8, 12) =~= le_bytes(packet_type));
    assert(bytes.subrange(HEADER_LEN as int, bytes.len() - 2) =~= payload);
}

/// Reading back what was written gives the integer that was written.
pub proof fn law_le_round_trip(value: i32)
    ensures
        le_bytes(value).len() == 4,
        le_value(le_bytes(value)) == value,
{
}

/// Writing what was read gives back the four bytes that were read.
pub proof fn law_le_bytes_of_value(bytes: Seq<u8>)
    requires
        bytes.len() == 4,
    ensures
        le_bytes(le_value(bytes)) == bytes,
{
    let high: int = bytes[3] as int;
    let upper: int = bytes[2] + 0x100 * high;
    let middle: int = bytes[1] + 0x100 * upper;
    let unsigned: int = bytes[0] + 0x100 * middle;
    assert(unsigned == bytes[0] + 0x100 * bytes[1] + 0x1_0000 * bytes[2] + 0x100_0000 * bytes[3]);
    assert(unsigned / 0x100 == middle && unsigned % 256 == bytes[0]);
    assert(middle / 0x100 == upper && middle % 256 == bytes[1]);
    assert(upper / 0x100 == high && upper % 256 == bytes[2]);
    assert(unsigned / 0x1_0000 == upper);
    assert(unsigned / 0x100_0000 == high);
    assert(le_bytes(le_value(bytes)) =~= bytes);
}

} // verus!
