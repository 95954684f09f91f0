use opencodeserver::failure::{Failure, FailureKind};
use opencodeserver::ipc::pending::{
    authenticate_peer, Maintenance, ReadPlan, Received, WriteStep, HANDSHAKE_TIMEOUT,
    MAX_PENDING_HANDSHAKES, READ_BUDGET, WRITE_BUDGET,
};
use opencodeserver::ipc::subscribers::MAX_SUBSCRIBERS;
use opencodeserver::ipc::wire::{
    classify_request, encode_request, encode_response, prepare_socket_path, RequestAction,
    SocketFacts,
};
use opencodeserver::ipc::{
    encode_status_push, send_request, IpcServer, PendingRequest, ResponseDisposition, Subscribers,
};
use opencodeserver::paths::AppPaths;
use opencodeserver::protocol::{Command, Request, Response, MAX_MESSAGE_BYTES, PROTOCOL_VERSION};

fn server() -> IpcServer {
    IpcServer::bind(&AppPaths::from_support_dir("/tmp/ocs-ipc".to_owned()))
}

fn parse(line: &[u8]) -> Option<Request> {
    let value: serde_json::Value = serde_json::from_slice(line).ok()?;
    let version = value.get("version")?.as_u64()? as u32;
    let command = match value.get("command")?.as_str()? {
        "status" => Command::Status,
        "subscribe" => Command::Subscribe,
        _ => return None,
    };
    Some(Request { version, command })
}

fn classified(line: &[u8]) -> RequestAction {
    classify_request(&line.to_vec(), parse(line))
}

/// Feeds `input` to the connection until a request is framed.
fn frame(server: &mut IpcServer, fd: i32, input: &[u8], now: u64) -> Option<PendingRequest> {
    let mut sent = 0;
    loop {
        let limit = match server.handle_pending_readable(fd, now) {
            ReadPlan::Read { limit } => limit,
            ReadPlan::Ignore => return None,
        };
        let end = (sent + limit).min(input.len());
        let chunk = input[sent..end].to_vec();
        if chunk.is_empty() && limit > 0 {
            return None;
        }
        sent = end;
        let action = match server.receive(fd, Ok(chunk)).ok().expect("read") {
            Received::Nothing => None,
            Received::Line(line) => Some(classify_request(&line, parse(&line))),
            Received::Reject(message) => Some(RequestAction::Reject(message)),
        };
        if !server.still_open(fd, now) {
            return None;
        }
        if let Some(action) = action {
            return server.take_request(fd, action, Ok(())).ok();
        }
    }
}

fn padded_status_request(wire_length: usize, with_newline: bool) -> Vec<u8> {
    let mut request = br#"{"version":6,"command":"status"}"#.to_vec();
    let terminator = usize::from(with_newline);
    assert!(request.len() + terminator <= wire_length);
    request.resize(wire_length - terminator, b' ');
    if with_newline {
        request.push(b'\n');
    }
    request
}

fn frame_request_of_length(wire_length: usize, with_newline: bool) -> PendingRequest {
    let mut server = server();
    server.register_accepted(9, 0);
    let payload = padded_status_request(wire_length, with_newline);
    frame(&mut server, 9, &payload, 1).expect("request was framed")
}

#[test]
fn refuses_to_replace_a_regular_file() {
    let outcome = prepare_socket_path(Some(SocketFacts { is_socket: false, answers: false }));
    assert_eq!(outcome.expect_err("must reject").kind, FailureKind::AlreadyExists);
    let busy = prepare_socket_path(Some(SocketFacts { is_socket: true, answers: true }));
    assert_eq!(busy.expect_err("must reject").kind, FailureKind::AddrInUse);
    assert_eq!(prepare_socket_path(None), Ok(false));
    assert_eq!(
        prepare_socket_path(Some(SocketFacts { is_socket: true, answers: false })),
        Ok(true)
    );
}

#[test]
fn classifies_protocol_versions() {
    let one_shot = classified(br#"{"version":6,"command":"status"}"#);
    assert!(matches!(one_shot, RequestAction::OneShot(Command::Status)));

    let subscribe = classified(br#"{"version":6,"command":"subscribe"}"#);
    assert!(matches!(subscribe, RequestAction::Subscribe));

    let stale = classified(br#"{"version":1,"command":"status"}"#);
    assert!(matches!(stale, RequestAction::Reject(message) if message.contains("unsupported")));

    let future = classified(br#"{"version":99,"command":"status"}"#);
    assert!(matches!(future, RequestAction::Reject(message) if message.contains("unsupported")));

    let invalid = classified(b"not json");
    assert!(matches!(invalid, RequestAction::Reject(message) if message.contains("invalid")));
}

#[test]
fn encode_response_counts_the_terminating_newline_toward_the_limit() {
    let fits = vec![b'x'; (MAX_MESSAGE_BYTES - 1) as usize];
    let encoded = encode_response(Ok(fits)).expect("boundary fits");
    assert_eq!(encoded.len() as u64, MAX_MESSAGE_BYTES);
    let too_long = vec![b'x'; MAX_MESSAGE_BYTES as usize];
    let rejected =
        encode_response(Ok(too_long)).expect_err("a line longer than 64 KiB must be rejected");
    assert_eq!(rejected.kind, FailureKind::InvalidData);
    let unserializable = encode_response(Err("bad value".to_owned())).expect_err("no JSON");
    assert_eq!(unserializable.kind, FailureKind::InvalidData);
    assert_eq!(encode_status_push(Ok(b"{}".to_vec())).expect("push"), b"{}\n".to_vec());
    assert_eq!(encode_request(b"{}".to_vec()), b"{}\n".to_vec());
}

#[test]
fn broadcast_reaches_live_subscribers() {
    let mut subscribers = Subscribers::new();
    assert!(subscribers.add(4));
    subscribers.broadcast(12, &vec![Some(12)]);
    assert_eq!(subscribers.len(), 1);
    assert_eq!(subscribers.stream(0), 4);
}

#[test]
fn subscriber_cap_refuses_and_closes_the_newest_connection() {
    let mut subscribers = Subscribers::new();
    for fd in 0..MAX_SUBSCRIBERS as i32 {
        assert!(subscribers.add(fd));
    }
    assert_eq!(subscribers.len(), MAX_SUBSCRIBERS);
    assert!(!subscribers.add(99));
    assert_eq!(subscribers.len(), MAX_SUBSCRIBERS);
    subscribers.broadcast(12, &vec![Some(12); MAX_SUBSCRIBERS]);
    assert_eq!(subscribers.len(), MAX_SUBSCRIBERS);
}

#[test]
fn closed_peer_is_dropped_on_broadcast_and_on_readable() {
    let mut subscribers = Subscribers::new();
    subscribers.add(4);
    subscribers.add(5);
    subscribers.handle_readable(4, true);
    assert_eq!(subscribers.len(), 2, "spurious readability must keep the subscriber");
    subscribers.handle_readable(4, false);
    assert_eq!(subscribers.len(), 1, "EOF must drop the subscriber");
    assert_eq!(subscribers.stream(0), 5);
    subscribers.broadcast(3, &vec![None]);
    assert!(subscribers.is_empty(), "failed push must drop the subscriber");
    subscribers.add(6);
    subscribers.broadcast(3, &vec![Some(2)]);
    assert!(subscribers.is_empty(), "a partial push must drop the subscriber");
}

#[test]
fn fast_request_completes_in_one_read() {
    let mut server = server();
    server.register_accepted(7, 0);
    let request = frame(&mut server, 7, b"{\"version\":6,\"command\":\"status\"}\n", 1);
    assert!(matches!(
        request,
        Some(PendingRequest::OneShot { fd: 7, command: Command::Status })
    ));
    let line = encode_response(Ok(b"{\"ok\":true}".to_vec())).expect("encode");
    assert_eq!(
        server.queue_response(7, Ok(line.clone()), ResponseDisposition::Close, 2),
        Ok(true)
    );
    let chunk = server.handle_pending_writable(7, 2).expect("first write");
    assert_eq!(chunk, line);
    let step = server.advance_write(7, Ok(chunk.len()), false, 2);
    assert_eq!(step, Ok(WriteStep::Nothing));
    assert!(!server.is_pending(7));
}

#[test]
fn fragmented_request_keeps_the_accept_time_deadline() {
    let mut server = server();
    server.register_accepted(7, 100);
    let original = server.deadline_of(7);
    assert_eq!(original, Some(100 + HANDSHAKE_TIMEOUT));
    assert!(frame(&mut server, 7, b"{\"version\":6,", 200).is_none());
    assert_eq!(server.deadline_of(7), original);
    assert!(frame(&mut server, 7, b"\"command\":\"status\"}", 300).is_none());
    assert_eq!(server.deadline_of(7), original);
    let request = frame(&mut server, 7, b"\n", 400);
    assert!(matches!(
        request,
        Some(PendingRequest::OneShot { fd: 7, command: Command::Status })
    ));
    assert_eq!(server.deadline_of(7), original);
}

#[test]
fn request_wire_length_65535_is_accepted() {
    assert!(matches!(
        frame_request_of_length(65_535, true),
        PendingRequest::OneShot { command: Command::Status, .. }
    ));
}

#[test]
fn request_wire_length_65536_is_accepted() {
    assert!(matches!(
        frame_request_of_length(65_536, true),
        PendingRequest::OneShot { command: Command::Status, .. }
    ));
}

#[test]
fn request_wire_length_65537_is_rejected() {
    assert!(matches!(
        frame_request_of_length(65_537, true),
        PendingRequest::Reject { message, .. } if message.contains("exceeds")
    ));
}

#[test]
fn full_65536_byte_buffer_without_lf_is_rejected_immediately() {
    assert!(matches!(
        frame_request_of_length(65_536, false),
        PendingRequest::Reject { message, .. } if message.contains("exceeds")
    ));
}

#[test]
fn slow_reader_receives_response_across_multiple_writes() {
    let mut server = server();
    server.register_accepted(7, 0);
    frame(&mut server, 7, b"{\"version\":6,\"command\":\"status\"}\n", 1).expect("request");
    let line = encode_response(Ok(vec![b'x'; 48 * 1024])).expect("encode");
    assert_eq!(
        server.queue_response(7, Ok(line.clone()), ResponseDisposition::Close, 1),
        Ok(true)
    );
    let mut received = Vec::new();
    let mut armed = false;
    while server.is_pending(7) {
        let chunk = server.handle_pending_writable(7, 2).expect("chunk");
        assert!(chunk.len() <= WRITE_BUDGET);
        let taken = chunk.len().min(4096);
        received.extend_from_slice(&chunk[..taken]);
        let step = server.advance_write(7, Ok(taken), armed, 2).expect("write");
        if server.is_pending(7) {
            assert_eq!(
                step,
                if armed { WriteStep::Nothing } else { WriteStep::WatchWritable }
            );
            armed = true;
        }
    }
    assert_eq!(received, line);
}

#[test]
fn a_write_that_would_block_is_repeated() {
    let mut server = server();
    server.register_accepted(7, 0);
    frame(&mut server, 7, b"{\"version\":6,\"command\":\"status\"}\n", 1).expect("request");
    server
        .queue_response(7, Ok(b"abc\n".to_vec()), ResponseDisposition::Close, 1)
        .expect("queue");
    let blocked = Err(Failure::new(FailureKind::WouldBlock, "would block"));
    assert_eq!(server.advance_write(7, blocked, false, 1), Ok(WriteStep::WatchWritable));
    assert_eq!(server.handle_pending_writable(7, 1), Some(b"abc\n".to_vec()));
    let broken = Err(Failure::new(FailureKind::Other, "broken pipe"));
    assert!(server.advance_write(7, broken, true, 1).is_err());
    assert!(!server.is_pending(7));
}

#[test]
fn subscription_promotes_after_its_initial_response_is_written() {
    let mut server = server();
    let mut subscribers = Subscribers::new();
    server.register_accepted(7, 0);
    let request = frame(&mut server, 7, b"{\"version\":6,\"command\":\"subscribe\"}\n", 1);
    assert!(matches!(request, Some(PendingRequest::Subscribe { fd: 7 })));
    let line = encode_response(Ok(vec![b'x'; 20 * 1024])).expect("encode");
    server
        .queue_response(7, Ok(line.clone()), ResponseDisposition::Subscribe, 1)
        .expect("queue");
    let first = server.handle_pending_writable(7, 1).expect("first chunk");
    assert_eq!(
        server.advance_write(7, Ok(first.len()), false, 1),
        Ok(WriteStep::WatchWritable)
    );
    assert!(subscribers.is_empty());
    let second = server.handle_pending_writable(7, 1).expect("second chunk");
    assert_eq!(first.len() + second.len(), line.len());
    assert_eq!(
        server.advance_write(7, Ok(second.len()), true, 1),
        Ok(WriteStep::Promote { unwatch: true })
    );
    assert_eq!(server.promote(7, Ok(()), &mut subscribers), Ok(true));
    assert!(!server.is_pending(7));
    assert_eq!(subscribers.len(), 1);
}

#[test]
fn pending_handshakes_are_bounded_and_listener_backpressures() {
    let mut server = server();
    assert_eq!(server.finish_event_batch(true, 0), Maintenance::Accept);
    let mut attempts = 0;
    while server.accept_connections(attempts) {
        server.register_accepted(attempts as i32, 0);
        attempts += 1;
    }
    assert_eq!(server.pending_count(), MAX_PENDING_HANDSHAKES);
    assert_eq!(server.listener_step(), Maintenance::DisableListener);
    server.listener_changed(false);
    assert_eq!(server.finish_event_batch(true, 1), Maintenance::Nothing);

    assert_eq!(
        server.prepare_wait(HANDSHAKE_TIMEOUT + 1),
        Maintenance::EnableListener
    );
    assert_eq!(server.pending_count(), 0);
    server.listener_changed(true);
    assert!(server.is_listening());
    assert_eq!(
        server.finish_event_batch(true, HANDSHAKE_TIMEOUT + 2),
        Maintenance::Accept
    );
}

#[test]
fn expired_handshakes_are_dropped() {
    let mut server = server();
    server.register_accepted(7, 0);
    server.register_accepted(8, 1_000);
    assert_eq!(server.next_deadline(), Some(HANDSHAKE_TIMEOUT));
    assert_eq!(
        server.handle_pending_readable(7, HANDSHAKE_TIMEOUT),
        ReadPlan::Ignore
    );
    assert!(!server.is_pending(7));
    assert_eq!(server.next_deadline(), Some(1_000 + HANDSHAKE_TIMEOUT));
    assert_eq!(
        server.handle_pending_readable(8, 2_000),
        ReadPlan::Read { limit: READ_BUDGET }
    );
    assert_eq!(server.handle_pending_readable(99, 2_000), ReadPlan::Ignore);
    assert_eq!(server.room(8), MAX_MESSAGE_BYTES as usize);
    assert_eq!(server.room(99), 0);
}

#[test]
fn responses_out_of_turn_are_refused() {
    let mut server = server();
    server.register_accepted(7, 0);
    let refused = server.queue_response(7, Ok(b"x\n".to_vec()), ResponseDisposition::Close, 1);
    assert_eq!(refused.expect_err("wrong state").kind, FailureKind::InvalidData);
    assert!(!server.is_pending(7));
    assert_eq!(
        server.queue_response(7, Ok(b"x\n".to_vec()), ResponseDisposition::Close, 1),
        Ok(false)
    );
}

#[test]
fn foreign_peers_are_turned_away() {
    assert!(authenticate_peer(501, 501, 0, 1).is_ok());
    assert_eq!(
        authenticate_peer(0, 501, 0, 1).expect_err("foreign").kind,
        FailureKind::PermissionDenied
    );
    assert_eq!(
        authenticate_peer(501, 501, 0, HANDSHAKE_TIMEOUT).expect_err("late").kind,
        FailureKind::TimedOut
    );
}

#[test]
fn replies_of_another_protocol_are_refused() {
    let good = Response::error("refused".to_owned(), None);
    assert!(send_request(&b"{}\n".to_vec(), Ok(good)).is_ok());
    let mut other = Response::error("refused".to_owned(), None);
    other.version = PROTOCOL_VERSION + 1;
    assert!(send_request(&b"{}\n".to_vec(), Ok(other)).is_err());
    assert!(send_request(&b"{}\n".to_vec(), Err("bad JSON".to_owned())).is_err());
    let oversized = vec![b'x'; MAX_MESSAGE_BYTES as usize + 1];
    assert!(send_request(&oversized, Err("unread".to_owned())).is_err());
}
