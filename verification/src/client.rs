//! The session and its exchanges.
//!
//! A session is either authenticated or not. It starts out unauthenticated,
//! becomes authenticated by the first login that the server accepts, and stays
//! so. A login is only begun while it is not authenticated, a command only
//! while it is.
//!
//! An exchange is one request and all that the server sends in answer to it.
//! A session has at most one exchange under way, and it is changed through an
//! exclusive borrow only: a caller that shares a session between threads
//! keeps it behind a lock. A session never touches the stream:
//! it says what the exchange needs next, a [`Step`], and the caller that owns
//! the stream does it. [`RconClient::log_in`] and
//! [`RconClient::send_command`] start an exchange, [`RconClient::receive`]
//! takes it further with the bytes that came in, and [`log_in_result`] and
//! [`command_result`] turn the response into the result of the operation.

use crate::buffer::{buffer_bytes, MAX_PACKET_LEN};
use crate::error::{CommandError, LogInError, SendError};
use crate::fault::invalid_data;
use crate::ids::{id_after, IdAllocator, AUTH_FAILURE_ID};
use crate::text::text_from_utf8;
use crate::wire::{
    decode_header, decode_payload, encode, encode_spec, header_spec, law_le_round_trip, le_bytes,
    COMMAND_TYPE, HEADER_LEN, LENGTH_OVERHEAD, LOGIN_TYPE, MAX_INCOMING_PAYLOAD_LEN,
    MAX_OUTGOING_PAYLOAD_LEN,
};
use arrayvec::ArrayVec;
use vstd::prelude::*;
use vstd::string::StringSliceAdditionalSpecFns;
use vstd::utf8::{decode_utf8, valid_utf8};

verus! {

/// The two kinds of request.
#[derive(Clone, Copy, Debug, PartialEq, Eq, Structural)]
pub enum PacketKind {
    /// A request that carries the password.
    LogIn,
    /// A request that carries a command.
    Command,
}

impl PacketKind {
    /// The type field of a request of this kind.
    pub open spec fn spec_packet_type(self) -> i32 {
        match self {
            PacketKind::LogIn => LOGIN_TYPE,
            PacketKind::Command => COMMAND_TYPE,
        }
    }

    /// The type field of a request of this kind.
    #[verifier::when_used_as_spec(spec_packet_type)]
    pub fn packet_type(self) -> (packet_type: i32)
        ensures
            packet_type == self.spec_packet_type(),
    {
        match self {
            PacketKind::LogIn => LOGIN_TYPE,
            PacketKind::Command => COMMAND_TYPE,
        }
    }

    /// Whether the response to a request of this kind may come in several
    /// packets.
    pub open spec fn spec_accepts_long_responses(self) -> bool {
        self is Command
    }

    /// Whether the response to a request of this kind may come in several
    /// packets.
    #[verifier::when_used_as_spec(spec_accepts_long_responses)]
    pub fn accepts_long_responses(self) -> (accepts: bool)
        ensures
            accepts == self.spec_accepts_long_responses(),
    {
        match self {
            PacketKind::LogIn => false,
            PacketKind::Command => true,
        }
    }

    /// The words for a response that carries an identifier which the exchange
    /// does not know.
    pub fn invalid_response_id_error(self) -> (words: &'static str)
        ensures
            words@ == match self {
                PacketKind::LogIn => "response packet id mismatched with login packet id"@,
                PacketKind::Command => "response packet id mismatched with command packet id"@,
            },
    {
        match self {
            PacketKind::LogIn => "response packet id mismatched with login packet id",
            PacketKind::Command => "response packet id mismatched with command packet id",
        }
    }
}

/// What an exchange waits for.
#[derive(Clone, Copy, Debug, PartialEq, Eq, Structural)]
pub enum Awaiting {
    /// The three integers at the front of the next packet.
    Header,
    /// What follows the header of a packet with the given identifier: so many
    /// payload bytes, and the two closing bytes.
    Body { id: i32, payload_len: usize },
}

/// A request that has been sent and whose response is not complete.
#[derive(Debug)]
struct Exchange {
    kind: PacketKind,
    request_id: i32,
    probe_id: Option<i32>,
    awaiting: Awaiting,
    payload: Vec<u8>,
}

/// The exchange that a session has under way, as a mathematical value.
pub struct ExchangeView {
    /// The kind of the request.
    pub kind: PacketKind,
    /// The identifier that the request carries.
    pub request_id: i32,
    /// The identifier of the probe that was sent after the response, if one
    /// was. While it is `None`, no packet of the response has been accepted.
    pub probe_id: Option<i32>,
    /// What the exchange waits for.
    pub awaiting: Awaiting,
    /// The payload bytes of the response that have been accepted so far.
    pub payload: Seq<u8>,
}

impl ExchangeView {
    /// The exchange of a request that has just been put together.
    pub open spec fn fresh(kind: PacketKind, request_id: i32) -> ExchangeView {
        ExchangeView {
            kind,
            request_id,
            probe_id: None,
            awaiting: Awaiting::Header,
            payload: Seq::empty(),
        }
    }

    /// The number of bytes that the exchange wants to be read next.
    pub open spec fn wanted(self) -> int {
        match self.awaiting {
            Awaiting::Header => HEADER_LEN as int,
            Awaiting::Body { payload_len, .. } => payload_len + 2,
        }
    }

    /// What holds of every exchange: its identifiers are not the marker of
    /// failed authentication, a probe has an identifier of its own and is only
    /// sent for a request whose response may be long, nothing is held of a
    /// response before its first packet, and an awaited payload has a length
    /// that a length field can announce.
    pub open spec fn wf(self) -> bool {
        &&& self.request_id != AUTH_FAILURE_ID
        &&& match self.probe_id {
            Some(probe_id) => probe_id != AUTH_FAILURE_ID && probe_id != self.request_id
                && self.kind.accepts_long_responses(),
            None => self.payload.len() == 0,
        }
        &&& match self.awaiting {
            Awaiting::Header => true,
            Awaiting::Body { payload_len, .. } => payload_len + LENGTH_OVERHEAD <= i32::MAX,
        }
    }
}

impl View for Exchange {
    type V = ExchangeView;

    closed spec fn view(&self) -> ExchangeView {
        ExchangeView {
            kind: self.kind,
            request_id: self.request_id,
            probe_id: self.probe_id,
            awaiting: self.awaiting,
            payload: self.payload@,
        }
    }
}

/// The response to a request.
#[derive(Debug)]
pub struct SendResponse {
    /// Whether the server answered under the identifier of the request, and
    /// not under the marker of failed authentication.
    pub good_auth: bool,
    /// The text that the server sent.
    pub payload: String,
}

/// A [`SendResponse`] as a mathematical value.
pub struct ResponseView {
    /// Whether the server answered under the identifier of the request.
    pub good_auth: bool,
    /// The text that the server sent.
    pub payload: Seq<char>,
}

impl View for SendResponse {
    type V = ResponseView;

    open spec fn view(&self) -> ResponseView {
        ResponseView { good_auth: self.good_auth, payload: self.payload@ }
    }
}

/// What the owner of the stream is to do next for the exchange under way.
#[derive(Debug)]
pub enum Step {
    /// Write the packet to the stream and flush it. Then read exactly so many
    /// bytes and hand them to [`RconClient::receive`].
    Send(ArrayVec<u8, MAX_PACKET_LEN>, usize),
    /// Read exactly so many bytes and hand them to [`RconClient::receive`].
    Receive(usize),
    /// The exchange is over: this is its response, or the fault that ended
    /// it.
    Done(Result<SendResponse, std::io::Error>),
}

/// A [`Step`] as a mathematical value.
pub enum StepView {
    /// The packet to write, and the number of bytes to read after it.
    Send { packet: Seq<u8>, wanted: int },
    /// The number of bytes to read.
    Receive { wanted: int },
    /// The response, or `None` where the exchange ended with a fault.
    Done { response: Option<ResponseView> },
}

impl View for Step {
    type V = StepView;

    open spec fn view(&self) -> StepView {
        match *self {
            Step::Send(packet, wanted) => StepView::Send {
                packet: buffer_bytes(packet),
                wanted: wanted as int,
            },
            Step::Receive(wanted) => StepView::Receive { wanted: wanted as int },
            Step::Done(Ok(response)) => StepView::Done { response: Some(response@) },
            Step::Done(Err(_)) => StepView::Done { response: None },
        }
    }
}

/// The payload of the probe: the command `seed`, which every server knows and
/// which changes nothing.
pub open spec fn probe_payload() -> Seq<u8> {
    seq![0x73u8, 0x65u8, 0x65u8, 0x64u8]
}

/// A session: the source of its request identifiers, whether the server has
/// accepted a login, and the exchange that is under way.
#[derive(Debug)]
pub struct RconClient {
    ids: IdAllocator,
    logged_in: bool,
    pending: Option<Exchange>,
}

/// An [`RconClient`] as a mathematical value.
pub struct SessionView {
    /// The identifier that the next request carries.
    pub next_id: i32,
    /// Whether the session is authenticated.
    pub logged_in: bool,
    /// The exchange that is under way, if one is.
    pub pending: Option<ExchangeView>,
}

impl View for RconClient {
    type V = SessionView;

    closed spec fn view(&self) -> SessionView {
        SessionView {
            next_id: self.ids.upcoming(),
            logged_in: self.logged_in,
            pending: match self.pending {
                Some(exchange) => Some(exchange@),
                None => None,
            },
        }
    }
}

impl SessionView {
    /// What holds of every session: the next identifier is not the marker of
    /// failed authentication, the exchange under way is well formed, and until
    /// its probe is sent the next identifier is not its own.
    pub open spec fn wf(self) -> bool {
        &&& self.next_id != AUTH_FAILURE_ID
        &&& match self.pending {
            Some(exchange) => exchange.wf() && (exchange.probe_id is None ==> exchange.request_id
                != self.next_id),
            None => true,
        }
    }

    /// The session as the connection leaves it: not authenticated, with zero
    /// as its first identifier and no exchange under way.
    pub open spec fn initial() -> SessionView {
        SessionView { next_id: 0, logged_in: false, pending: None }
    }

    /// A request of the given kind is put together: it takes the next
    /// identifier, and its exchange replaces what was under way.
    pub open spec fn request(self, kind: PacketKind, payload: Seq<u8>) -> (SessionView, StepView) {
        (
            SessionView {
                next_id: id_after(self.next_id),
                pending: Some(ExchangeView::fresh(kind, self.next_id)),
                ..self
            },
            StepView::Send {
                packet: encode_spec(self.next_id, kind.packet_type(), payload),
                wanted: HEADER_LEN as int,
            },
        )
    }

    /// The exchange under way ends with a fault.
    pub open spec fn fail(self) -> (SessionView, StepView) {
        (SessionView { pending: None, ..self }, StepView::Done { response: None })
    }

    /// The exchange under way ends with the bytes of the response in hand.
    /// They are read as text, and bytes that are no text are a fault. A login
    /// that the server accepted leaves the session authenticated.
    pub open spec fn end(self, good_auth: bool, payload: Seq<u8>) -> (SessionView, StepView)
        recommends
            self.pending is Some,
    {
        if valid_utf8(payload) {
            (
                SessionView {
                    logged_in: self.logged_in || (good_auth && self.pending->0.kind is LogIn),
                    pending: None,
                    ..self
                },
                StepView::Done {
                    response: Some(ResponseView { good_auth, payload: decode_utf8(payload) }),
                },
            )
        } else {
            self.fail()
        }
    }

    /// A packet with the given identifier and payload has arrived for the
    /// exchange under way.
    ///
    /// Before the probe, the packet is the first of the response. Under the
    /// marker of failed authentication it is the whole response, and the
    /// request was refused. Under the identifier of the request it is the
    /// whole response too, unless the kind of the request allows for long
    /// responses and the payload has reached the most that one packet holds:
    /// then a probe is sent, under the next identifier, and the payload is
    /// kept. Any other identifier is a fault.
    ///
    /// After the probe, a packet under the identifier of the probe ends the
    /// response, and its own payload is dropped. A packet under the
    /// identifier of the request adds its payload to what is kept. Any other
    /// identifier is a fault.
    pub open spec fn on_packet(self, id: i32, payload: Seq<u8>) -> (SessionView, StepView)
        recommends
            self.pending is Some,
    {
        let exchange = self.pending->0;
        match exchange.probe_id {
            None => {
                if id == AUTH_FAILURE_ID {
                    self.end(false, payload)
                } else if id != exchange.request_id {
                    self.fail()
                } else if exchange.kind.accepts_long_responses() && payload.len()
                    >= MAX_INCOMING_PAYLOAD_LEN {
                    (
                        SessionView {
                            next_id: id_after(self.next_id),
                            pending: Some(
                                ExchangeView {
                                    probe_id: Some(self.next_id),
                                    awaiting: Awaiting::Header,
                                    payload,
                                    ..exchange
                                },
                            ),
                            ..self
                        },
                        StepView::Send {
                            packet: encode_spec(
                                self.next_id,
                                exchange.kind.packet_type(),
                                probe_payload(),
                            ),
                            wanted: HEADER_LEN as int,
                        },
                    )
                } else {
                    self.end(true, payload)
                }
            },
            Some(probe_id) => {
                if id == probe_id {
                    self.end(true, exchange.payload)
                } else if id == exchange.request_id {
                    (
                        SessionView {
                            pending: Some(
                                ExchangeView {
                                    awaiting: Awaiting::Header,
                                    payload: exchange.payload + payload,
                                    ..exchange
                                },
                            ),
                            ..self
                        },
                        StepView::Receive { wanted: HEADER_LEN as int },
                    )
                } else {
                    self.fail()
                }
            },
        }
    }

    /// Bytes have been read for the exchange under way.
    ///
    /// Bytes that nothing asked for, or that are not as many as were asked
    /// for, are a fault. A header tells how many bytes to read next, unless
    /// its length field is too small for any packet, which is a fault. The
    /// bytes after a header complete a packet, and [`SessionView::on_packet`]
    /// says what comes of it.
    pub open spec fn receive(self, bytes: Seq<u8>) -> (SessionView, StepView) {
        match self.pending {
            None => self.fail(),
            Some(exchange) => {
                if bytes.len() != exchange.wanted() {
                    self.fail()
                } else {
                    match exchange.awaiting {
                        Awaiting::Header => {
                            let header = header_spec(bytes);
                            match header.spec_payload_len() {
                                Some(payload_len) => (
                                    SessionView {
                                        pending: Some(
                                            ExchangeView {
                                                awaiting: Awaiting::Body {
                                                    id: header.id,
                                                    payload_len,
                                                },
                                                ..exchange
                                            },
                                        ),
                                        ..self
                                    },
                                    StepView::Receive { wanted: payload_len + 2 },
                                ),
                                None => self.fail(),
                            }
                        },
                        Awaiting::Body { id, payload_len } => self.on_packet(
                            id,
                            bytes.subrange(0, payload_len as int),
                        ),
                    }
                }
            },
        }
    }
}

/// A session that is well formed is so after a request has been put
/// together, whatever was under way before.
pub proof fn law_request_keeps_well_formed(session: SessionView, kind: PacketKind, payload: Seq<u8>)
    requires
        session.wf(),
    ensures
        session.request(kind, payload).0.wf(),
{
}

/// A session that is well formed is so after a packet has arrived, whatever
/// the packet holds.
pub proof fn law_on_packet_keeps_well_formed(session: SessionView, id: i32, payload: Seq<u8>)
    requires
        session.wf(),
        session.pending is Some,
    ensures
        session.on_packet(id, payload).0.wf(),
{
}

/// A session that is well formed is so after bytes have been read, whatever
/// the bytes are.
pub proof fn law_receive_keeps_well_formed(session: SessionView, bytes: Seq<u8>)
    requires
        session.wf(),
    ensures
        session.receive(bytes).0.wf(),
{
}

/// The session after packets that carry `fragments`, in that order, have
/// arrived under the identifier of the request under way.
pub open spec fn after_fragments(session: SessionView, fragments: Seq<Seq<u8>>) -> SessionView
    recommends
        session.pending is Some,
    decreases fragments.len(),
{
    if fragments.len() == 0 {
        session
    } else {
        after_fragments(
            session.on_packet(session.pending->0.request_id, fragments.first()).0,
            fragments.drop_first(),
        )
    }
}

/// A packet that is read in the two steps that the session asks for, first
/// its header and then the rest, comes to what [`SessionView::on_packet`] says
/// of its identifier and its payload. Its type and its two closing bytes make
/// no difference.
pub proof fn law_packet_arrives_in_two_reads(
    session: SessionView,
    id: i32,
    packet_type: i32,
    payload: Seq<u8>,
    closing: Seq<u8>,
)
    requires
        session.pending matches Some(exchange) && exchange.awaiting is Header,
        payload.len() + LENGTH_OVERHEAD <= i32::MAX,
        closing.len() == 2,
    ensures
        ({
            let length = (LENGTH_OVERHEAD + payload.len()) as i32;
            let header = le_bytes(length) + le_bytes(id) + le_bytes(packet_type);
            let header_read = session.receive(header);
            &&& header_read.1 == StepView::Receive { wanted: payload.len() as int + 2 }
            &&& header_read.0.receive(payload + closing) == session.on_packet(id, payload)
        }),
{
    let length: i32 = (LENGTH_OVERHEAD + payload.len()) as i32;
    let header = le_bytes(length) + le_bytes(id) + le_bytes(packet_type);
    law_le_round_trip(length);
    law_le_round_trip(id);
    law_le_round_trip(packet_type);
    assert(header.subrange(0, 4) =~= le_bytes(length));
    assert(header.subrange(4, 8) =~= le_bytes(id));
    assert(header.subrange(8, 12) =~= le_bytes(packet_type));
    assert(header_spec(header).spec_payload_len() == Some(payload.len() as usize));
    assert((payload + closing).subrange(0, payload.len() as int) =~= payload);
}

/// Whether a step asks for what the session that it comes with wants next:
/// as many bytes as the exchange under way wants, or nothing once the
/// exchange is over.
pub open spec fn step_fits_session(outcome: (SessionView, StepView)) -> bool {
    match outcome.1 {
        StepView::Send { packet, wanted } => outcome.0.pending matches Some(exchange)
            && exchange.wanted() == wanted,
        StepView::Receive { wanted } => outcome.0.pending matches Some(exchange)
            && exchange.wanted() == wanted,
        StepView::Done { response } => outcome.0.pending is None,
    }
}

/// A step asks for as many bytes as the exchange that it leaves under way
/// wants, and the step that ends the exchange leaves none under way. So the
/// owner of a stream that reads what each step asks for never hands over
/// another number of bytes than the session expects.
pub proof fn law_step_asks_for_what_the_exchange_wants(
    session: SessionView,
    kind: PacketKind,
    payload: Seq<u8>,
    bytes: Seq<u8>,
)
    ensures
        step_fits_session(session.request(kind, payload)),
        step_fits_session(session.receive(bytes)),
{
}

/// The answer to a login decides it. A first packet under the identifier of
/// the request authenticates the session, a first packet under the marker of
/// failed authentication leaves it as it was, and both end the exchange with
/// the text that the packet carries. A first packet under any other
/// identifier is a fault.
pub proof fn law_answer_decides_login(session: SessionView, id: i32, payload: Seq<u8>)
    requires
        session.wf(),
        session.pending matches Some(exchange) && exchange.kind is LogIn,
        valid_utf8(payload),
    ensures
        ({
            let request_id = session.pending->0.request_id;
            let ended = SessionView { pending: None, ..session };
            let text = decode_utf8(payload);
            session.on_packet(id, payload) == if id == request_id {
                (
                    SessionView { logged_in: true, ..ended },
                    StepView::Done { response: Some(ResponseView { good_auth: true, payload: text }) },
                )
            } else if id == AUTH_FAILURE_ID {
                (
                    ended,
                    StepView::Done { response: Some(ResponseView { good_auth: false, payload: text }) },
                )
            } else {
                (ended, StepView::Done { response: None })
            }
        }),
{
}

/// Whatever arrives for a login, no probe is sent and no identifier is handed
/// out: the response to a login is never taken for a long one.
pub proof fn law_login_is_never_probed(session: SessionView, bytes: Seq<u8>)
    requires
        session.pending matches Some(exchange) && exchange.kind is LogIn,
    ensures
        !(session.receive(bytes).1 is Send),
        session.receive(bytes).0.next_id == session.next_id,
{
}

/// A session that is authenticated stays so, whatever is begun and whatever
/// arrives.
pub proof fn law_authentication_is_kept(
    session: SessionView,
    kind: PacketKind,
    payload: Seq<u8>,
    bytes: Seq<u8>,
)
    requires
        session.logged_in,
    ensures
        session.request(kind, payload).0.logged_in,
        session.receive(bytes).0.logged_in,
{
}

/// A session becomes authenticated in one way only: the exchange under way is
/// a login, and it ends with a response under the identifier of its request.
/// To put a request together authenticates nothing.
pub proof fn law_only_an_accepted_login_authenticates(
    session: SessionView,
    kind: PacketKind,
    payload: Seq<u8>,
    bytes: Seq<u8>,
)
    requires
        session.wf(),
        !session.logged_in,
    ensures
        !session.request(kind, payload).0.logged_in,
        session.receive(bytes).0.logged_in ==> {
            &&& session.pending matches Some(exchange)
            &&& exchange.kind is LogIn
            &&& exchange.awaiting matches Awaiting::Body { id, payload_len }
            &&& id == exchange.request_id
            &&& session.receive(bytes).1 matches StepView::Done { response: Some(response) }
            &&& response.good_auth
        },
{
}

/// After the probe, fragments that arrive under the identifier of the request
/// are kept one after the other, and nothing else of the session changes.
pub proof fn law_fragments_are_kept_in_order(session: SessionView, fragments: Seq<Seq<u8>>)
    requires
        session.wf(),
        session.pending matches Some(exchange) && exchange.probe_id is Some
            && exchange.awaiting is Header,
    ensures
        after_fragments(session, fragments) == (SessionView {
            pending: Some(
                ExchangeView {
                    payload: session.pending->0.payload + fragments.flatten(),
                    ..session.pending->0
                },
            ),
            ..session
        }),
    decreases fragments.len(),
{
    let exchange = session.pending->0;
    if fragments.len() == 0 {
        assert(exchange.payload + fragments.flatten() =~= exchange.payload);
    } else {
        let next = session.on_packet(exchange.request_id, fragments.first()).0;
        law_fragments_are_kept_in_order(next, fragments.drop_first());
        assert(exchange.payload + fragments.first() + fragments.drop_first().flatten()
            =~= exchange.payload + fragments.flatten());
    }
}

/// A long response is put together from its parts. Where the first packet of
/// the response to a command has a payload of [`MAX_INCOMING_PAYLOAD_LEN`]
/// bytes or more, the probe is sent under the session's next identifier.
/// Whatever fragments then arrive under the identifier of the request, the
/// packet under the identifier of the probe ends the exchange, and the
/// response is the text of the first payload and the fragments, one after the
/// other. The payload of the probe's own packet is dropped.
pub proof fn law_long_response_is_reassembled(
    session: SessionView,
    first: Seq<u8>,
    fragments: Seq<Seq<u8>>,
    echo: Seq<u8>,
)
    requires
        session.wf(),
        session.pending matches Some(exchange) && exchange.kind is Command
            && exchange.probe_id is None,
        first.len() >= MAX_INCOMING_PAYLOAD_LEN,
    ensures
        ({
            let probed = session.on_packet(session.pending->0.request_id, first);
            let ended = after_fragments(probed.0, fragments).on_packet(session.next_id, echo);
            let whole = first + fragments.flatten();
            &&& probed.1 == StepView::Send {
                packet: encode_spec(session.next_id, COMMAND_TYPE, probe_payload()),
                wanted: HEADER_LEN as int,
            }
            &&& ended.0 == SessionView { next_id: id_after(session.next_id), pending: None, ..session }
            &&& ended.1 == if valid_utf8(whole) {
                StepView::Done {
                    response: Some(ResponseView { good_auth: true, payload: decode_utf8(whole) }),
                }
            } else {
                StepView::Done { response: None }
            }
        }),
{
    let probed = session.on_packet(session.pending->0.request_id, first);
    law_fragments_are_kept_in_order(probed.0, fragments);
}

/// The command that is sent as the probe.
fn probe_command() -> (command: &'static str)
    ensures
        command.spec_bytes() == probe_payload(),
{
    let command = "seed";
    proof {
        reveal_strlit("seed");
        vstd::string::is_ascii_spec_bytes(command);
        assert(command.spec_bytes() =~= probe_payload());
    }
    command
}

impl RconClient {
    /// A session as it is when the connection has been made.
    pub fn new() -> (client: RconClient)
        ensures
            client@ == SessionView::initial(),
            client@.wf(),
    {
        RconClient { ids: IdAllocator::new(), logged_in: false, pending: None }
    }

    /// Returns whether this client is logged in.
    pub fn is_logged_in(&self) -> (logged_in: bool)
        ensures
            logged_in == self@.logged_in,
    {
        self.logged_in
    }

    /// Puts a request together, unless its payload is longer than a server
    /// accepts: then the session is as it was.
    fn send(&mut self, kind: PacketKind, payload: &str) -> (r: Result<Step, SendError>)
        ensures
            old(self)@.wf() ==> final(self)@.wf(),
            if payload.spec_bytes().len() > MAX_OUTGOING_PAYLOAD_LEN {
                r matches Err(SendError::PayloadTooLong) && final(self)@ == old(self)@
            } else {
                r matches Ok(step) && (final(self)@, step@) == old(self)@.request(
                    kind,
                    payload.spec_bytes(),
                )
            },
    {
        let payload = payload.as_bytes();
        if payload.len() > MAX_OUTGOING_PAYLOAD_LEN {
            return Err(SendError::PayloadTooLong);
        }
        self.pending = None;
        let request_id: i32 = self.ids.get_next_id();
        let packet = encode(request_id, kind.packet_type(), payload)?;
        let exchange = Exchange {
            kind,
            request_id,
            probe_id: None,
            awaiting: Awaiting::Header,
            payload: Vec::new(),
        };
        assert(exchange@ =~= ExchangeView::fresh(kind, request_id));
        self.pending = Some(exchange);
        Ok(Step::Send(packet, HEADER_LEN))
    }

    /// Begins a login with the given password.
    ///
    /// A session that is logged in already refuses with
    /// [`LogInError::AlreadyLoggedIn`], and a password of more than
    /// [`MAX_OUTGOING_PAYLOAD_LEN`] bytes is refused with
    /// [`LogInError::PasswordTooLong`]. Either way the session is as it was
    /// and there is nothing to send. Otherwise the step is the login packet to
    /// send, under the session's next identifier.
    pub fn log_in(&mut self, password: &str) -> (r: Result<Step, LogInError>)
        ensures
            old(self)@.wf() ==> final(self)@.wf(),
            if old(self)@.logged_in {
                r matches Err(LogInError::AlreadyLoggedIn) && final(self)@ == old(self)@
            } else if password.spec_bytes().len() > MAX_OUTGOING_PAYLOAD_LEN {
                r matches Err(LogInError::PasswordTooLong) && final(self)@ == old(self)@
            } else {
                r matches Ok(step) && (final(self)@, step@) == old(self)@.request(
                    PacketKind::LogIn,
                    password.spec_bytes(),
                )
            },
    {
        if self.is_logged_in() {
            return Err(LogInError::AlreadyLoggedIn);
        }
        match self.send(PacketKind::LogIn, password) {
            Ok(step) => Ok(step),
            Err(e) => Err(LogInError::from(e)),
        }
    }

    /// Begins a command.
    ///
    /// A session that is not logged in refuses with
    /// [`CommandError::NotLoggedIn`], and a command of more than
    /// [`MAX_OUTGOING_PAYLOAD_LEN`] bytes is refused with
    /// [`CommandError::CommandTooLong`]. Either way the session is as it was
    /// and there is nothing to send. Otherwise the step is the command packet
    /// to send, under the session's next identifier.
    pub fn send_command(&mut self, command: &str) -> (r: Result<Step, CommandError>)
        ensures
            old(self)@.wf() ==> final(self)@.wf(),
            if !old(self)@.logged_in {
                r matches Err(CommandError::NotLoggedIn) && final(self)@ == old(self)@
            } else if command.spec_bytes().len() > MAX_OUTGOING_PAYLOAD_LEN {
                r matches Err(CommandError::CommandTooLong) && final(self)@ == old(self)@
            } else {
                r matches Ok(step) && (final(self)@, step@) == old(self)@.request(
                    PacketKind::Command,
                    command.spec_bytes(),
                )
            },
    {
        if !self.is_logged_in() {
            return Err(CommandError::NotLoggedIn);
        }
        match self.send(PacketKind::Command, command) {
            Ok(step) => Ok(step),
            Err(e) => Err(CommandError::from(e)),
        }
    }

    /// Ends an exchange of the given kind with the bytes of its response:
    /// they are read as text, and a login that the server accepted leaves the
    /// session authenticated.
    fn end(&mut self, kind: PacketKind, good_auth: bool, payload: Vec<u8>) -> (step: Step)
        ensures
            step@ == if valid_utf8(payload@) {
                StepView::Done {
                    response: Some(ResponseView { good_auth, payload: decode_utf8(payload@) }),
                }
            } else {
                StepView::Done { response: None }
            },
            final(self)@ == (SessionView {
                logged_in: old(self)@.logged_in || (valid_utf8(payload@) && good_auth
                    && kind is LogIn),
                ..old(self)@
            }),
    {
        match text_from_utf8(payload) {
            Some(payload) => {
                match kind {
                    PacketKind::LogIn => {
                        if good_auth {
                            self.logged_in = true;
                        }
                    },
                    PacketKind::Command => {},
                }
                Step::Done(Ok(SendResponse { good_auth, payload }))
            },
            None => fault("response payload is not valid UTF-8"),
        }
    }

    /// Takes an exchange further with a packet that has arrived for it.
    fn on_packet(&mut self, exchange: Exchange, id: i32, payload: Vec<u8>) -> (step: Step)
        requires
            old(self)@.pending is None,
        ensures
            (final(self)@, step@) == (SessionView {
                pending: Some(exchange@),
                ..old(self)@
            }).on_packet(id, payload@),
    {
        let Exchange { kind, request_id, probe_id, awaiting: _, payload: kept } = exchange;
        match probe_id {
            None => {
                if id == AUTH_FAILURE_ID {
                    self.end(kind, false, payload)
                } else if id != request_id {
                    fault(kind.invalid_response_id_error())
                } else if kind.accepts_long_responses() && payload.len()
                    >= MAX_INCOMING_PAYLOAD_LEN {
                    let probe_id: i32 = self.ids.get_next_id();
                    match encode(probe_id, kind.packet_type(), probe_command().as_bytes()) {
                        Ok(packet) => {
                            self.pending = Some(
                                Exchange {
                                    kind,
                                    request_id,
                                    probe_id: Some(probe_id),
                                    awaiting: Awaiting::Header,
                                    payload,
                                },
                            );
                            Step::Send(packet, HEADER_LEN)
                        },
                        Err(_) => fault("probe packet could not be built"),
                    }
                } else {
                    self.end(kind, true, payload)
                }
            },
            Some(probe_id) => {
                if id == probe_id {
                    self.end(kind, true, kept)
                } else if id == request_id {
                    let mut kept = kept;
                    let mut payload = payload;
                    kept.append(&mut payload);
                    self.pending = Some(
                        Exchange {
                            kind,
                            request_id,
                            probe_id: Some(probe_id),
                            awaiting: Awaiting::Header,
                            payload: kept,
                        },
                    );
                    Step::Receive(HEADER_LEN)
                } else if id == AUTH_FAILURE_ID {
                    fault("client became deauthenticated between packets")
                } else {
                    fault(kind.invalid_response_id_error())
                }
            },
        }
    }

    /// Takes the exchange under way further with the bytes that were read for
    /// it, and says what to do next.
    ///
    /// [`SessionView::receive`] says what comes of the bytes: another read, a
    /// probe to send, or the end of the exchange.
    pub fn receive(&mut self, bytes: &[u8]) -> (step: Step)
        ensures
            (final(self)@, step@) == old(self)@.receive(bytes@),
            old(self)@.wf() ==> final(self)@.wf(),
    {
        proof {
            if old(self)@.wf() {
                law_receive_keeps_well_formed(old(self)@, bytes@);
            }
        }
        let exchange = match self.pending.take() {
            Some(exchange) => exchange,
            None => {
                return fault("no exchange is under way");
            },
        };
        let Exchange { kind, request_id, probe_id, awaiting, payload } = exchange;
        match awaiting {
            Awaiting::Header => {
                let header = match decode_header(bytes) {
                    Some(header) => header,
                    None => {
                        return fault("the stream gave another number of bytes than were asked for");
                    },
                };
                match header.payload_len() {
                    Some(payload_len) => {
                        self.pending = Some(
                            Exchange {
                                kind,
                                request_id,
                                probe_id,
                                awaiting: Awaiting::Body { id: header.id, payload_len },
                                payload,
                            },
                        );
                        Step::Receive(payload_len + 2)
                    },
                    None => fault("response packet is shorter than any packet"),
                }
            },
            Awaiting::Body { id, payload_len } => {
                match decode_payload(bytes, payload_len) {
                    Some(arrived) => self.on_packet(
                        Exchange { kind, request_id, probe_id, awaiting, payload },
                        id,
                        arrived,
                    ),
                    None => fault("the stream gave another number of bytes than were asked for"),
                }
            },
        }
    }
}

/// The step that ends an exchange with a fault.
fn fault(reason: &'static str) -> (step: Step)
    ensures
        step@ == (StepView::Done { response: None }),
{
    Step::Done(Err(invalid_data(reason)))
}

/// The result of a login, from the response that its exchange gave or the
/// I/O error that ended it.
///
/// A response under the identifier of the request is success, a response
/// under the marker of failed authentication is [`LogInError::BadPassword`],
/// and an I/O error is handed on.
pub fn log_in_result(response: Result<SendResponse, std::io::Error>) -> (r: Result<(), LogInError>)
    ensures
        match response {
            Ok(response) => if response.good_auth {
                r is Ok
            } else {
                r matches Err(LogInError::BadPassword)
            },
            Err(e) => r matches Err(LogInError::IO(handed)) && handed == e,
        },
{
    match response {
        Ok(response) => {
            if response.good_auth {
                Ok(())
            } else {
                Err(LogInError::BadPassword)
            }
        },
        Err(e) => Err(LogInError::from(e)),
    }
}

/// The result of a command, from the response that its exchange gave or the
/// I/O error that ended it.
///
/// A response under the identifier of the request gives its text, a response
/// under the marker of failed authentication is
/// [`CommandError::NotLoggedIn`], and an I/O error is handed on.
pub fn command_result(response: Result<SendResponse, std::io::Error>) -> (r: Result<
    String,
    CommandError,
>)
    ensures
        match response {
            Ok(response) => if response.good_auth {
                r matches Ok(text) && text == response.payload
            } else {
                r matches Err(CommandError::NotLoggedIn)
            },
            Err(e) => r matches Err(CommandError::IO(handed)) && handed == e,
        },
{
    match response {
        Ok(response) => {
            if response.good_auth {
                Ok(response.payload)
            } else {
                Err(CommandError::NotLoggedIn)
            }
        },
        Err(e) => Err(CommandError::from(e)),
    }
}

} // verus!
