use mc_rcon::{
    command_result, log_in_result, CommandError, LogInError, PacketKind, RconClient, SendResponse,
    Step,
};
use std::io::{Error, ErrorKind};

/// A stream that holds what the server will send and records what was
/// written to it.
struct Scripted {
    incoming: Vec<u8>,
    read: usize,
    written: Vec<u8>,
}

impl Scripted {
    fn new(incoming: Vec<u8>) -> Scripted {
        Scripted { incoming, read: 0, written: Vec::new() }
    }

    fn silent() -> Scripted {
        Scripted::new(Vec::new())
    }

    fn read_exact(&mut self, wanted: usize) -> Result<Vec<u8>, Error> {
        if self.incoming.len() - self.read < wanted {
            return Err(Error::new(ErrorKind::UnexpectedEof, "failed to fill whole buffer"));
        }
        let bytes = self.incoming[self.read..self.read + wanted].to_vec();
        self.read += wanted;
        Ok(bytes)
    }

    fn all_read(&self) -> bool {
        self.read == self.incoming.len()
    }
}

fn frame(id: i32, packet_type: i32, payload: &[u8]) -> Vec<u8> {
    let mut bytes = Vec::new();
    bytes.extend_from_slice(&((payload.len() as i32) + 10).to_le_bytes());
    bytes.extend_from_slice(&id.to_le_bytes());
    bytes.extend_from_slice(&packet_type.to_le_bytes());
    bytes.extend_from_slice(payload);
    bytes.extend_from_slice(&[0, 0]);
    bytes
}

fn frames(packets: &[(i32, &[u8])]) -> Vec<u8> {
    let mut bytes = Vec::new();
    for (id, payload) in packets {
        bytes.extend_from_slice(&frame(*id, 0, payload));
    }
    bytes
}

fn drive(client: &mut RconClient, stream: &mut Scripted, first: Step) -> Result<SendResponse, Error> {
    let mut step = first;
    loop {
        let wanted = match step {
            Step::Send(packet, wanted) => {
                stream.written.extend_from_slice(packet.as_slice());
                wanted
            }
            Step::Receive(wanted) => wanted,
            Step::Done(response) => return response,
        };
        let bytes = stream.read_exact(wanted)?;
        step = client.receive(&bytes);
    }
}

fn log_in(client: &mut RconClient, stream: &mut Scripted, password: &str) -> Result<(), LogInError> {
    let step = client.log_in(password)?;
    log_in_result(drive(client, stream, step))
}

fn send_command(
    client: &mut RconClient,
    stream: &mut Scripted,
    command: &str,
) -> Result<String, CommandError> {
    let step = client.send_command(command)?;
    command_result(drive(client, stream, step))
}

/// A session that has logged in under identifier zero.
fn logged_in_client() -> RconClient {
    let mut client = RconClient::new();
    let mut stream = Scripted::new(frame(0, 2, b""));
    log_in(&mut client, &mut stream, "secret").unwrap();
    assert!(client.is_logged_in());
    client
}

fn invalid_data_message<T: std::fmt::Debug>(result: Result<T, Error>) -> String {
    let e = result.unwrap_err();
    assert_eq!(e.kind(), ErrorKind::InvalidData);
    e.to_string()
}

#[test]
fn new_session_is_not_logged_in() {
    let client = RconClient::new();
    assert!(!client.is_logged_in());
}

#[test]
fn send_command_before_log_in_fails_without_traffic() {
    let mut client = RconClient::new();
    let mut stream = Scripted::silent();
    let result = send_command(&mut client, &mut stream, "seed");
    assert!(matches!(result, Err(CommandError::NotLoggedIn)));
    assert!(stream.written.is_empty());
    assert!(!client.is_logged_in());
    assert!(matches!(client.send_command("seed"), Err(CommandError::NotLoggedIn)));
}

#[test]
fn refused_command_uses_up_no_identifier() {
    let mut client = RconClient::new();
    assert!(matches!(client.send_command("seed"), Err(CommandError::NotLoggedIn)));
    assert!(matches!(client.send_command("seed"), Err(CommandError::NotLoggedIn)));
    match client.log_in("pw").unwrap() {
        Step::Send(packet, 12) => assert_eq!(packet.as_slice(), frame(0, 3, b"pw").as_slice()),
        other => panic!("expected a packet to send, got {:?}", other),
    }
}

#[test]
fn log_in_with_password_of_1447_bytes_is_refused_without_traffic() {
    let mut client = RconClient::new();
    let mut stream = Scripted::silent();
    let password = "p".repeat(1447);
    let result = log_in(&mut client, &mut stream, &password);
    assert!(matches!(result, Err(LogInError::PasswordTooLong)));
    assert!(stream.written.is_empty());
    assert!(!client.is_logged_in());
    match client.log_in("pw").unwrap() {
        Step::Send(packet, 12) => assert_eq!(packet.as_slice(), frame(0, 3, b"pw").as_slice()),
        other => panic!("expected a packet to send, got {:?}", other),
    }
}

#[test]
fn log_in_with_password_of_1446_bytes_is_sent() {
    let mut client = RconClient::new();
    let mut stream = Scripted::new(frame(0, 2, b""));
    let password = "p".repeat(1446);
    log_in(&mut client, &mut stream, &password).unwrap();
    assert_eq!(stream.written, frame(0, 3, password.as_bytes()));
    assert_eq!(stream.written.len(), 1460);
    assert!(client.is_logged_in());
}

#[test]
fn password_length_is_counted_in_bytes() {
    let mut client = RconClient::new();
    let password = "\u{e9}".repeat(724);
    assert_eq!(password.len(), 1448);
    assert!(matches!(client.log_in(&password), Err(LogInError::PasswordTooLong)));
    let password = "\u{e9}".repeat(723);
    match client.log_in(&password).unwrap() {
        Step::Send(packet, 12) => {
            assert_eq!(packet.as_slice(), frame(0, 3, password.as_bytes()).as_slice())
        }
        other => panic!("expected a packet to send, got {:?}", other),
    }
}

#[test]
fn second_log_in_is_refused_without_traffic() {
    let mut client = logged_in_client();
    let mut stream = Scripted::silent();
    let result = log_in(&mut client, &mut stream, "secret");
    assert!(matches!(result, Err(LogInError::AlreadyLoggedIn)));
    assert!(stream.written.is_empty());
    assert!(client.is_logged_in());
    let mut stream = Scripted::new(frame(1, 0, b"ok"));
    assert_eq!(send_command(&mut client, &mut stream, "list").unwrap(), "ok");
    assert_eq!(stream.written, frame(1, 2, b"list"));
}

#[test]
fn already_logged_in_comes_before_password_too_long() {
    let mut client = logged_in_client();
    let password = "p".repeat(2000);
    assert!(matches!(client.log_in(&password), Err(LogInError::AlreadyLoggedIn)));
}

#[test]
fn not_logged_in_comes_before_command_too_long() {
    let mut client = RconClient::new();
    let command = "c".repeat(2000);
    assert!(matches!(client.send_command(&command), Err(CommandError::NotLoggedIn)));
}

#[test]
fn command_of_1447_bytes_is_refused_without_traffic() {
    let mut client = logged_in_client();
    let mut stream = Scripted::silent();
    let command = "c".repeat(1447);
    let result = send_command(&mut client, &mut stream, &command);
    assert!(matches!(result, Err(CommandError::CommandTooLong)));
    assert!(stream.written.is_empty());
    let mut stream = Scripted::new(frame(1, 0, b""));
    let command = "c".repeat(1446);
    send_command(&mut client, &mut stream, &command).unwrap();
    assert_eq!(stream.written, frame(1, 2, command.as_bytes()));
}

#[test]
fn log_in_succeeds_when_the_server_echoes_the_id() {
    let mut client = RconClient::new();
    let mut stream = Scripted::new(frame(0, 2, b""));
    let result = log_in(&mut client, &mut stream, "secret");
    assert!(matches!(result, Ok(())));
    assert!(client.is_logged_in());
    assert_eq!(
        stream.written,
        [16, 0, 0, 0, 0, 0, 0, 0, 3, 0, 0, 0, b's', b'e', b'c', b'r', b'e', b't', 0, 0]
    );
    assert!(stream.all_read());
}

#[test]
fn log_in_fails_with_bad_password_when_the_server_answers_minus_one() {
    let mut client = RconClient::new();
    let mut stream = Scripted::new(frame(-1, 2, b""));
    let result = log_in(&mut client, &mut stream, "wrong");
    assert!(matches!(result, Err(LogInError::BadPassword)));
    assert!(!client.is_logged_in());
    assert_eq!(stream.written, frame(0, 3, b"wrong"));
    assert!(stream.all_read());
}

#[test]
fn log_in_can_be_tried_again_after_a_bad_password() {
    let mut client = RconClient::new();
    let mut stream = Scripted::new(frames(&[(-1, b""), (1, b"")]));
    assert!(matches!(log_in(&mut client, &mut stream, "wrong"), Err(LogInError::BadPassword)));
    assert!(matches!(log_in(&mut client, &mut stream, "right"), Ok(())));
    assert!(client.is_logged_in());
    let mut expected = frame(0, 3, b"wrong");
    expected.extend_from_slice(&frame(1, 3, b"right"));
    assert_eq!(stream.written, expected);
}

#[test]
fn log_in_with_an_unknown_id_is_an_io_error() {
    let mut client = RconClient::new();
    let mut stream = Scripted::new(frame(5, 2, b""));
    let result = log_in(&mut client, &mut stream, "secret");
    match result {
        Err(LogInError::IO(e)) => {
            assert_eq!(e.kind(), ErrorKind::InvalidData);
            assert_eq!(e.to_string(), "response packet id mismatched with login packet id");
        }
        other => panic!("expected an I/O error, got {:?}", other),
    }
    assert!(!client.is_logged_in());
}

#[test]
fn command_returns_the_text_of_the_response() {
    let mut client = logged_in_client();
    let mut stream = Scripted::new(frame(1, 0, b"Seed: [-1137927873379713691]"));
    let text = send_command(&mut client, &mut stream, "seed").unwrap();
    assert_eq!(text, "Seed: [-1137927873379713691]");
    assert_eq!(
        stream.written,
        [14, 0, 0, 0, 1, 0, 0, 0, 2, 0, 0, 0, b's', b'e', b'e', b'd', 0, 0]
    );
    assert!(stream.all_read());
}

#[test]
fn type_of_the_response_is_not_looked_at() {
    for packet_type in [0, 2, 3, -1, i32::MAX] {
        let mut client = RconClient::new();
        let mut stream = Scripted::new(frame(0, packet_type, b""));
        assert!(matches!(log_in(&mut client, &mut stream, "secret"), Ok(())));
    }
}

#[test]
fn closing_bytes_of_the_response_are_not_looked_at() {
    let mut client = logged_in_client();
    let mut packet = frame(1, 0, b"fine");
    let len = packet.len();
    packet[len - 2] = 0x55;
    packet[len - 1] = 0xaa;
    let mut stream = Scripted::new(packet);
    assert_eq!(send_command(&mut client, &mut stream, "list").unwrap(), "fine");
}

#[test]
fn identifiers_count_up_over_the_exchanges() {
    let mut client = logged_in_client();
    let mut stream = Scripted::new(frames(&[(1, b"a"), (2, b"b"), (3, b"c")]));
    assert_eq!(send_command(&mut client, &mut stream, "one").unwrap(), "a");
    assert_eq!(send_command(&mut client, &mut stream, "two").unwrap(), "b");
    assert_eq!(send_command(&mut client, &mut stream, "three").unwrap(), "c");
    let mut expected = frame(1, 2, b"one");
    expected.extend_from_slice(&frame(2, 2, b"two"));
    expected.extend_from_slice(&frame(3, 2, b"three"));
    assert_eq!(stream.written, expected);
}

#[test]
fn command_answered_with_minus_one_is_not_logged_in() {
    let mut client = logged_in_client();
    let mut stream = Scripted::new(frame(-1, 0, b""));
    let result = send_command(&mut client, &mut stream, "list");
    assert!(matches!(result, Err(CommandError::NotLoggedIn)));
    assert_eq!(stream.written, frame(1, 2, b"list"));
    assert!(client.is_logged_in());
}

#[test]
fn long_answer_with_minus_one_is_not_probed() {
    let mut client = logged_in_client();
    let mut stream = Scripted::new(frame(-1, 0, &vec![b'x'; 4096]));
    let result = send_command(&mut client, &mut stream, "list");
    assert!(matches!(result, Err(CommandError::NotLoggedIn)));
    assert_eq!(stream.written, frame(1, 2, b"list"));
    assert!(stream.all_read());
}

#[test]
fn command_with_an_unknown_id_is_an_io_error() {
    let mut client = logged_in_client();
    let mut stream = Scripted::new(frame(7, 0, b"text"));
    let result = send_command(&mut client, &mut stream, "list");
    match result {
        Err(CommandError::IO(e)) => {
            assert_eq!(e.kind(), ErrorKind::InvalidData);
            assert_eq!(e.to_string(), "response packet id mismatched with command packet id");
        }
        other => panic!("expected an I/O error, got {:?}", other),
    }
}

#[test]
fn long_response_is_reassembled() {
    let mut client = logged_in_client();
    let first = vec![b'a'; 4096];
    let second = b"the rest".to_vec();
    let mut stream = Scripted::new(frames(&[(1, &first), (1, &second), (2, b"Seed: [1]")]));
    let text = send_command(&mut client, &mut stream, "big").unwrap();
    let mut expected = String::from_utf8(first).unwrap();
    expected.push_str("the rest");
    assert_eq!(text.len(), 4104);
    assert_eq!(text, expected);
    let mut written = frame(1, 2, b"big");
    written.extend_from_slice(&frame(2, 2, b"seed"));
    assert_eq!(stream.written, written);
    assert!(stream.all_read());
}

#[test]
fn probe_packet_exact_bytes() {
    let mut client = logged_in_client();
    let mut stream = Scripted::new(frames(&[(1, &vec![b'a'; 4096]), (2, b"")]));
    send_command(&mut client, &mut stream, "big").unwrap();
    assert_eq!(
        &stream.written[17..],
        &[14, 0, 0, 0, 2, 0, 0, 0, 2, 0, 0, 0, b's', b'e', b'e', b'd', 0, 0]
    );
}

#[test]
fn long_response_of_many_fragments_is_reassembled_in_order() {
    let mut client = logged_in_client();
    let first: Vec<u8> = (0..4096).map(|i| b'a' + (i % 26) as u8).collect();
    let second = vec![b'B'; 4096];
    let third = vec![b'c'; 10];
    let fourth: Vec<u8> = Vec::new();
    let fifth = b"end".to_vec();
    let mut stream = Scripted::new(frames(&[
        (1, &first),
        (1, &second),
        (1, &third),
        (1, &fourth),
        (1, &fifth),
        (2, b"probe answer"),
    ]));
    let text = send_command(&mut client, &mut stream, "big").unwrap();
    let mut expected = Vec::new();
    expected.extend_from_slice(&first);
    expected.extend_from_slice(&second);
    expected.extend_from_slice(&third);
    expected.extend_from_slice(&fifth);
    assert_eq!(text.into_bytes(), expected);
    assert!(stream.all_read());
}

#[test]
fn response_of_exactly_4096_bytes_without_more_is_returned_after_the_probe() {
    let mut client = logged_in_client();
    let first = vec![b'q'; 4096];
    let mut stream = Scripted::new(frames(&[(1, &first), (2, b"Seed: [1]")]));
    let text = send_command(&mut client, &mut stream, "big").unwrap();
    assert_eq!(text.into_bytes(), first);
}

#[test]
fn response_longer_than_4096_bytes_is_probed_too() {
    let mut client = logged_in_client();
    let first = vec![b'q'; 5000];
    let mut stream = Scripted::new(frames(&[(1, &first), (1, b"+"), (2, b"")]));
    let text = send_command(&mut client, &mut stream, "big").unwrap();
    assert_eq!(text.len(), 5001);
    assert!(text.ends_with("q+"));
}

#[test]
fn response_of_4095_bytes_is_not_probed() {
    let mut client = logged_in_client();
    let first = vec![b'q'; 4095];
    let mut stream = Scripted::new(frame(1, 0, &first));
    let text = send_command(&mut client, &mut stream, "big").unwrap();
    assert_eq!(text.into_bytes(), first);
    assert_eq!(stream.written, frame(1, 2, b"big"));
}

#[test]
fn login_response_of_4096_bytes_is_not_probed() {
    let mut client = RconClient::new();
    let mut stream = Scripted::new(frame(0, 2, &vec![b'w'; 4096]));
    assert!(matches!(log_in(&mut client, &mut stream, "secret"), Ok(())));
    assert_eq!(stream.written, frame(0, 3, b"secret"));
    assert!(client.is_logged_in());
    let mut stream = Scripted::new(frame(1, 0, b"ok"));
    assert_eq!(send_command(&mut client, &mut stream, "list").unwrap(), "ok");
    assert_eq!(stream.written, frame(1, 2, b"list"));
}

#[test]
fn probe_uses_up_an_identifier() {
    let mut client = logged_in_client();
    let mut stream = Scripted::new(frames(&[(1, &vec![b'a'; 4096]), (2, b""), (3, b"after")]));
    send_command(&mut client, &mut stream, "big").unwrap();
    assert_eq!(send_command(&mut client, &mut stream, "next").unwrap(), "after");
    assert_eq!(&stream.written[35..], frame(3, 2, b"next").as_slice());
}

#[test]
fn minus_one_between_fragments_is_an_io_error() {
    let mut client = logged_in_client();
    let mut stream = Scripted::new(frames(&[(1, &vec![b'a'; 4096]), (1, b"more"), (-1, b"")]));
    let result = send_command(&mut client, &mut stream, "big");
    match result {
        Err(CommandError::IO(e)) => {
            assert_eq!(e.kind(), ErrorKind::InvalidData);
            assert_eq!(e.to_string(), "client became deauthenticated between packets");
        }
        other => panic!("expected an I/O error, got {:?}", other),
    }
    assert!(client.is_logged_in());
}

#[test]
fn unknown_id_between_fragments_is_an_io_error() {
    let mut client = logged_in_client();
    let mut stream = Scripted::new(frames(&[(1, &vec![b'a'; 4096]), (9, b"more")]));
    let result = send_command(&mut client, &mut stream, "big");
    match result {
        Err(CommandError::IO(e)) => {
            assert_eq!(e.kind(), ErrorKind::InvalidData);
            assert_eq!(e.to_string(), "response packet id mismatched with command packet id");
        }
        other => panic!("expected an I/O error, got {:?}", other),
    }
}

#[test]
fn length_below_ten_is_an_io_error() {
    for length in [9i32, 0, -1, i32::MIN] {
        let mut client = RconClient::new();
        let mut header = Vec::new();
        header.extend_from_slice(&length.to_le_bytes());
        header.extend_from_slice(&0i32.to_le_bytes());
        header.extend_from_slice(&2i32.to_le_bytes());
        header.extend_from_slice(&[0; 16]);
        let mut stream = Scripted::new(header);
        let result = log_in(&mut client, &mut stream, "secret");
        assert!(matches!(result, Err(LogInError::IO(ref e)) if e.kind() == ErrorKind::InvalidData));
        assert!(!client.is_logged_in());
    }
}

#[test]
fn payload_that_is_no_text_is_an_io_error() {
    let mut client = RconClient::new();
    let mut stream = Scripted::new(frame(0, 2, &[0xff, 0xfe]));
    let result = log_in(&mut client, &mut stream, "secret");
    assert!(matches!(result, Err(LogInError::IO(ref e)) if e.kind() == ErrorKind::InvalidData));
    assert!(!client.is_logged_in());

    let mut client = logged_in_client();
    let mut stream = Scripted::new(frame(1, 0, &[b'o', b'k', 0xc3]));
    let result = send_command(&mut client, &mut stream, "list");
    assert!(matches!(result, Err(CommandError::IO(ref e)) if e.kind() == ErrorKind::InvalidData));
}

#[test]
fn refusal_with_a_payload_that_is_no_text_is_an_io_error() {
    let mut client = RconClient::new();
    let mut stream = Scripted::new(frame(-1, 2, &[0x80]));
    let result = log_in(&mut client, &mut stream, "wrong");
    assert!(matches!(result, Err(LogInError::IO(ref e)) if e.kind() == ErrorKind::InvalidData));
}

#[test]
fn text_in_utf8_is_returned() {
    let mut client = logged_in_client();
    let text = "h\u{e9}llo w\u{f6}rld \u{2713} \u{1f600}";
    let mut stream = Scripted::new(frame(1, 0, text.as_bytes()));
    assert_eq!(send_command(&mut client, &mut stream, "say").unwrap(), text);
}

#[test]
fn character_split_over_two_fragments_is_text() {
    let mut client = logged_in_client();
    let mut first = vec![b'a'; 4095];
    first.push(0xc3);
    let second = vec![0xa9, b'!'];
    let mut stream = Scripted::new(frames(&[(1, &first), (1, &second), (2, b"")]));
    let text = send_command(&mut client, &mut stream, "big").unwrap();
    assert_eq!(text.len(), 4098);
    assert!(text.ends_with("a\u{e9}!"));
}

#[test]
fn short_stream_is_an_io_error() {
    let mut client = RconClient::new();
    let mut packet = frame(0, 2, b"welcome");
    packet.truncate(15);
    let mut stream = Scripted::new(packet);
    let result = log_in(&mut client, &mut stream, "secret");
    assert!(matches!(result, Err(LogInError::IO(ref e)) if e.kind() == ErrorKind::UnexpectedEof));
    assert!(!client.is_logged_in());
}

#[test]
fn exchange_asks_for_the_header_and_then_for_the_rest() {
    let mut client = RconClient::new();
    assert!(matches!(client.log_in("secret"), Ok(Step::Send(_, 12))));
    let packet = frame(0, 2, b"hello");
    match client.receive(&packet[..12]) {
        Step::Receive(wanted) => assert_eq!(wanted, 7),
        other => panic!("expected a read, got {:?}", other),
    }
    match client.receive(&packet[12..]) {
        Step::Done(Ok(response)) => {
            assert!(response.good_auth);
            assert_eq!(response.payload, "hello");
        }
        other => panic!("expected the response, got {:?}", other),
    }
    assert!(client.is_logged_in());
}

#[test]
fn another_number_of_bytes_than_asked_for_is_a_fault() {
    let mut client = RconClient::new();
    assert!(matches!(client.log_in("secret"), Ok(Step::Send(_, 12))));
    match client.receive(&[10, 0, 0, 0, 0, 0, 0, 0, 2, 0, 0]) {
        Step::Done(response) => {
            invalid_data_message(response);
        }
        other => panic!("expected a fault, got {:?}", other),
    }

    let mut client = RconClient::new();
    assert!(matches!(client.log_in("secret"), Ok(Step::Send(_, 12))));
    let packet = frame(0, 2, b"hello");
    assert!(matches!(client.receive(&packet[..12]), Step::Receive(7)));
    match client.receive(&packet[12..18]) {
        Step::Done(response) => {
            invalid_data_message(response);
        }
        other => panic!("expected a fault, got {:?}", other),
    }
    assert!(!client.is_logged_in());

    let mut client = RconClient::new();
    assert!(matches!(client.log_in("secret"), Ok(Step::Send(_, 12))));
    let packet = frame(0, 2, b"");
    assert!(matches!(client.receive(&packet[..12]), Step::Receive(2)));
    match client.receive(&[0]) {
        Step::Done(response) => {
            invalid_data_message(response);
        }
        other => panic!("expected a fault, got {:?}", other),
    }
}

#[test]
fn bytes_that_nothing_asked_for_are_a_fault() {
    let mut client = RconClient::new();
    match client.receive(&frame(0, 2, b"")[..12]) {
        Step::Done(response) => {
            invalid_data_message(response);
        }
        other => panic!("expected a fault, got {:?}", other),
    }
    assert!(!client.is_logged_in());

    let mut client = logged_in_client();
    match client.receive(&frame(1, 0, b"")[..12]) {
        Step::Done(response) => {
            invalid_data_message(response);
        }
        other => panic!("expected a fault, got {:?}", other),
    }
}

#[test]
fn fault_ends_the_exchange() {
    let mut client = RconClient::new();
    let mut stream = Scripted::new(frame(5, 2, b""));
    assert!(matches!(log_in(&mut client, &mut stream, "secret"), Err(LogInError::IO(_))));
    match client.receive(&frame(0, 2, b"")[..12]) {
        Step::Done(response) => {
            invalid_data_message(response);
        }
        other => panic!("expected a fault, got {:?}", other),
    }
    let mut stream = Scripted::new(frame(1, 2, b""));
    assert!(matches!(log_in(&mut client, &mut stream, "secret"), Ok(())));
    assert_eq!(stream.written, frame(1, 3, b"secret"));
}

#[test]
fn new_request_replaces_the_exchange_under_way() {
    let mut client = RconClient::new();
    assert!(matches!(client.log_in("first"), Ok(Step::Send(_, 12))));
    let mut stream = Scripted::new(frame(1, 2, b""));
    assert!(matches!(log_in(&mut client, &mut stream, "second"), Ok(())));
    assert_eq!(stream.written, frame(1, 3, b"second"));
    assert!(client.is_logged_in());
}

#[test]
fn empty_password_and_empty_command_are_sent() {
    let mut client = RconClient::new();
    let mut stream = Scripted::new(frames(&[(0, b""), (1, b"")]));
    assert!(matches!(log_in(&mut client, &mut stream, ""), Ok(())));
    assert_eq!(send_command(&mut client, &mut stream, "").unwrap(), "");
    let mut expected = frame(0, 3, b"");
    expected.extend_from_slice(&frame(1, 2, b""));
    assert_eq!(stream.written, expected);
}

#[test]
fn packet_kinds_have_their_type_and_their_flag() {
    assert_eq!(PacketKind::LogIn.packet_type(), 3);
    assert_eq!(PacketKind::Command.packet_type(), 2);
    assert!(!PacketKind::LogIn.accepts_long_responses());
    assert!(PacketKind::Command.accepts_long_responses());
    assert_eq!(
        PacketKind::LogIn.invalid_response_id_error(),
        "response packet id mismatched with login packet id"
    );
    assert_eq!(
        PacketKind::Command.invalid_response_id_error(),
        "response packet id mismatched with command packet id"
    );
}
