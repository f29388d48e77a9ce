//! A client for the RCON protocol, by which a game server is administered
//! over a stream connection, without the stream.
//!
//! The crate holds the protocol and none of the transport. It frames packets
//! ([`wire`]), hands out request identifiers ([`ids`]), tracks whether the
//! session is authenticated and puts together responses that the server sent
//! in several packets ([`client`]). It reads and writes nothing: a caller that
//! owns the byte stream is told, [`Step`] by [`Step`], what to write and how
//! many bytes to read, and hands back the bytes that it read.
//!
//! An operation runs like this. [`RconClient::log_in`] or
//! [`RconClient::send_command`] checks that the operation is in order and
//! gives the first step, which is the request to send. The caller writes the
//! packet of a [`Step::Send`], reads as many bytes as a step asks for, and
//! hands them to [`RconClient::receive`], which gives the next step, until
//! the step is [`Step::Done`]. [`log_in_result`] or [`command_result`] turns
//! what that step holds into the result of the operation.
//!
//! Every function is verified with Verus against a contract. The contracts of
//! the session are stated over [`client::SessionView`], on which the protocol
//! is written down as three functions: what a request does to a session
//! ([`client::SessionView::request`]), what a packet means to the exchange
//! under way ([`client::SessionView::on_packet`]), and what comes of bytes that
//! were read ([`client::SessionView::receive`]). What holds of them in general
//! is proved in the functions whose names begin with `law_`.

pub mod buffer;
pub mod client;
pub mod error;
pub mod fault;
pub mod ids;
pub mod text;
pub mod wire;

pub use buffer::MAX_PACKET_LEN;
pub use client::{command_result, log_in_result, PacketKind, RconClient, SendResponse, Step};
pub use error::{CommandError, LogInError, SendError};
pub use ids::{IdAllocator, AUTH_FAILURE_ID};
pub use wire::{
    decode, decode_header, decode_payload, encode, Packet, PacketHeader, COMMAND_TYPE,
    DEFAULT_RCON_PORT, HEADER_LEN, LOGIN_TYPE, MAX_INCOMING_PAYLOAD_LEN, MAX_OUTGOING_PAYLOAD_LEN,
};
