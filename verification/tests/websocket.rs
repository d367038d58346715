use ohttp_relay::bootstrap::ws::{
    map_ws_error, BrokenPipe, Inbound, Message, ReadOutcome, SinkReady, WriteOutcome, WsIo,
};

fn data(outcome: ReadOutcome) -> Vec<u8> {
    match outcome {
        ReadOutcome::Data(bytes) => bytes,
        other => panic!("expected data, got {:?}", other),
    }
}

fn binary(bytes: &[u8]) -> Inbound {
    Inbound::Message(Message::Binary(bytes.to_vec()))
}

/// One read of the byte stream as a driver performs it: pending bytes first,
/// else the next thing the message stream produces.
fn read(io: &mut WsIo, stream: &mut Vec<Inbound>, capacity: usize) -> ReadOutcome {
    match io.read_buffered(capacity) {
        Some(bytes) => ReadOutcome::Data(bytes),
        None => {
            let next = if stream.is_empty() { Inbound::Closed } else { stream.remove(0) };
            io.read_inbound(next, capacity)
        }
    }
}

#[test]
fn new_bridge_has_nothing_pending() {
    let mut io = WsIo::new();
    assert_eq!(io.pending_len(), 0);
    assert!(io.read_buffered(16).is_none());
}

#[test]
fn two_messages_read_with_room_for_four() {
    let mut io = WsIo::new();
    let mut stream = vec![binary(&[1, 2, 3]), binary(&[4, 5, 6, 7, 8])];
    assert_eq!(data(read(&mut io, &mut stream, 4)), vec![1, 2, 3]);
    assert_eq!(data(read(&mut io, &mut stream, 4)), vec![4, 5, 6, 7]);
    assert_eq!(io.pending_len(), 1);
    assert_eq!(data(read(&mut io, &mut stream, 4)), vec![8]);
    assert!(matches!(read(&mut io, &mut stream, 4), ReadOutcome::EndOfStream));
}

#[test]
fn reader_takes_less_than_a_message_then_the_rest() {
    let mut io = WsIo::new();
    assert_eq!(data(io.read_inbound(binary(&[10, 20, 30, 40, 50]), 2)), vec![10, 20]);
    assert_eq!(io.pending_len(), 3);
    assert_eq!(io.read_buffered(2), Some(vec![30, 40]));
    assert_eq!(io.read_buffered(2), Some(vec![50]));
    assert_eq!(io.read_buffered(2), None);
    assert_eq!(io.pending_len(), 0);
}

#[test]
fn bytes_come_out_in_the_order_they_came_in() {
    for capacity in [1usize, 2, 3, 4, 5, 7, 64] {
        let mut io = WsIo::new();
        let mut stream = vec![
            binary(&[0, 1, 2]),
            Inbound::Message(Message::Pong(vec![9])),
            binary(&[]),
            binary(&[3, 4, 5, 6, 7]),
            Inbound::NotReady,
            binary(&[8]),
        ];
        let mut out = Vec::new();
        loop {
            match read(&mut io, &mut stream, capacity) {
                ReadOutcome::Data(bytes) => {
                    assert!(bytes.len() <= capacity);
                    out.extend(bytes);
                }
                ReadOutcome::EndOfStream => break,
                ReadOutcome::WouldBlock => {}
                other => panic!("unexpected {:?}", other),
            }
        }
        assert_eq!(out, vec![0, 1, 2, 3, 4, 5, 6, 7, 8]);
    }
}

#[test]
fn buffered_bytes_are_served_without_a_message() {
    let mut io = WsIo::new();
    assert_eq!(data(io.read_inbound(binary(&[1, 2, 3, 4, 5, 6]), 1)), vec![1]);
    // five bytes pending: reads never need the stream
    assert_eq!(io.read_buffered(3), Some(vec![2, 3, 4]));
    assert_eq!(io.read_buffered(0), Some(vec![]));
    assert_eq!(io.pending_len(), 2);
    assert_eq!(io.read_buffered(100), Some(vec![5, 6]));
}

#[test]
fn binary_message_joins_what_is_pending() {
    let mut io = WsIo::new();
    assert_eq!(data(io.read_inbound(binary(&[1, 2, 3]), 1)), vec![1]);
    assert_eq!(data(io.read_inbound(binary(&[4, 5]), 3)), vec![2, 3, 4]);
    assert_eq!(io.read_buffered(9), Some(vec![5]));
}

#[test]
fn empty_binary_message_delivers_nothing() {
    let mut io = WsIo::new();
    assert_eq!(data(io.read_inbound(binary(&[]), 8)), Vec::<u8>::new());
    assert_eq!(io.pending_len(), 0);
}

#[test]
fn ping_is_answered_with_the_same_payload() {
    let mut io = WsIo::new();
    match io.read_inbound(Inbound::Message(Message::Ping(vec![7, 7, 1])), 16) {
        ReadOutcome::Reply(Message::Pong(payload)) => assert_eq!(payload, vec![7, 7, 1]),
        other => panic!("expected a pong, got {:?}", other),
    }
    assert_eq!(io.pending_len(), 0);
    match io.read_inbound(Inbound::Message(Message::Ping(vec![])), 16) {
        ReadOutcome::Reply(Message::Pong(payload)) => assert!(payload.is_empty()),
        other => panic!("expected a pong, got {:?}", other),
    }
}

#[test]
fn ping_leaves_pending_bytes_alone() {
    let mut io = WsIo::new();
    assert_eq!(data(io.read_inbound(binary(&[1, 2, 3]), 1)), vec![1]);
    let outcome = io.read_inbound(Inbound::Message(Message::Ping(vec![5])), 16);
    assert!(matches!(outcome, ReadOutcome::Reply(Message::Pong(_))));
    assert_eq!(io.pending_len(), 2);
    assert_eq!(io.read_buffered(16), Some(vec![2, 3]));
}

#[test]
fn pong_text_and_frame_are_passed_over() {
    let mut io = WsIo::new();
    for message in [Message::Pong(vec![1]), Message::Text("hello".to_string()), Message::Frame] {
        assert!(matches!(io.read_inbound(Inbound::Message(message), 8), ReadOutcome::WouldBlock));
        assert_eq!(io.pending_len(), 0);
    }
}

#[test]
fn close_is_acknowledged() {
    let mut io = WsIo::new();
    let outcome = io.read_inbound(Inbound::Message(Message::Close), 8);
    assert!(matches!(outcome, ReadOutcome::Reply(Message::Close)));
    assert!(matches!(WsIo::reply_sent(Ok(())), ReadOutcome::WouldBlock));
    assert!(matches!(io.read_inbound(Inbound::Closed, 8), ReadOutcome::EndOfStream));
}

#[test]
fn reply_that_cannot_be_sent_fails_the_read() {
    match WsIo::reply_sent(Err("connection reset".to_string())) {
        ReadOutcome::Failed(BrokenPipe { message }) => {
            assert_eq!(message, "Tungstenite error: connection reset")
        }
        other => panic!("expected a failure, got {:?}", other),
    }
}

#[test]
fn not_ready_would_block() {
    let mut io = WsIo::new();
    assert!(matches!(io.read_inbound(Inbound::NotReady, 8), ReadOutcome::WouldBlock));
}

#[test]
fn end_of_stream_with_nothing_pending() {
    let mut io = WsIo::new();
    assert!(matches!(io.read_inbound(Inbound::Closed, 8), ReadOutcome::EndOfStream));
    assert!(matches!(io.read_inbound(Inbound::Closed, 0), ReadOutcome::EndOfStream));
}

#[test]
fn pending_bytes_are_drained_before_end_of_stream() {
    let mut io = WsIo::new();
    assert_eq!(data(io.read_inbound(binary(&[1, 2, 3, 4, 5]), 1)), vec![1]);
    assert_eq!(data(io.read_inbound(Inbound::Closed, 3)), vec![2, 3, 4]);
    assert_eq!(data(io.read_inbound(Inbound::Closed, 3)), vec![5]);
    assert!(matches!(io.read_inbound(Inbound::Closed, 3), ReadOutcome::EndOfStream));
}

#[test]
fn transport_error_fails_the_read() {
    let mut io = WsIo::new();
    match io.read_inbound(Inbound::Failed("protocol violation".to_string()), 8) {
        ReadOutcome::Failed(failure) => {
            assert_eq!(failure.message, "Tungstenite error: protocol violation")
        }
        other => panic!("expected a failure, got {:?}", other),
    }
    assert_eq!(map_ws_error("x").message, "Tungstenite error: x");
    assert_eq!(map_ws_error("").message, "Tungstenite error: ");
}

#[test]
fn write_goes_out_as_one_binary_message() {
    match WsIo::poll_write(SinkReady::Ready, &[1, 2, 3, 4]) {
        WriteOutcome::Send(Message::Binary(bytes)) => assert_eq!(bytes, vec![1, 2, 3, 4]),
        other => panic!("expected a message, got {:?}", other),
    }
    match WsIo::poll_write(SinkReady::Ready, &[]) {
        WriteOutcome::Send(Message::Binary(bytes)) => assert!(bytes.is_empty()),
        other => panic!("expected a message, got {:?}", other),
    }
    assert_eq!(WsIo::write_sent(Ok(()), &[1, 2, 3, 4]).unwrap(), 4);
    assert_eq!(WsIo::write_sent(Ok(()), &[]).unwrap(), 0);
}

#[test]
fn write_to_a_sink_that_is_not_ready_takes_nothing() {
    assert!(matches!(WsIo::poll_write(SinkReady::NotReady, &[1, 2, 3]), WriteOutcome::WouldBlock));
}

#[test]
fn write_failures() {
    match WsIo::poll_write(SinkReady::Failed("closed".to_string()), &[1]) {
        WriteOutcome::Failed(failure) => assert_eq!(failure.message, "Tungstenite error: closed"),
        other => panic!("expected a failure, got {:?}", other),
    }
    let failure = WsIo::write_sent(Err("full".to_string()), &[1, 2]).unwrap_err();
    assert_eq!(failure.message, "Tungstenite error: full");
}

#[test]
fn flush_and_shutdown() {
    assert!(WsIo::poll_complete(Ok(())).is_ok());
    let failure = WsIo::poll_complete(Err("gone".to_string())).unwrap_err();
    assert_eq!(failure.message, "Tungstenite error: gone");
}

#[test]
fn test_bootstrap() {
    // the gateway's key configuration, carried to the client over the bridge
    let keys: Vec<u8> = vec![
        0x01, 0x00, 0x20, 0x31, 0xe1, 0xf0, 0x5a, 0x74, 0x01, 0x02, 0x11, 0x52, 0x20, 0xe9, 0xaf,
        0x91, 0x8f, 0x73, 0x86, 0x74, 0xae, 0xc9, 0x5f, 0x54, 0xdb, 0x6e, 0x04, 0xeb, 0x70, 0x5a,
        0xae, 0x8e, 0x79, 0x81, 0x55, 0x00, 0x08, 0x00, 0x01, 0x00, 0x01, 0x00, 0x01, 0x00, 0x03,
    ];
    assert_eq!(keys.len(), 45);
    let mut io = WsIo::new();
    let mut stream: Vec<Inbound> = keys.chunks(16).map(binary).collect();
    stream.insert(1, Inbound::Message(Message::Ping(vec![1])));
    let mut plaintext = Vec::new();
    loop {
        match read(&mut io, &mut stream, 10) {
            ReadOutcome::Data(bytes) => plaintext.extend(bytes),
            ReadOutcome::Reply(Message::Pong(payload)) => assert_eq!(payload, vec![1]),
            ReadOutcome::EndOfStream => break,
            other => panic!("unexpected {:?}", other),
        }
    }
    assert_eq!(plaintext, keys);
}
