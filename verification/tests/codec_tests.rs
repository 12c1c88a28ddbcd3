use rust_comm::codec::decode_frame;
use rust_comm::codec::encode_frame;
use rust_comm::codec::needs_flush;
use rust_comm::codec::plan_send;
use rust_comm::codec::read_header;
use rust_comm::codec::build_message;
use rust_comm::codec::CommError;
use rust_comm::codec::MAX_CONTENT_SIZE;
use rust_comm::message::Message;
use rust_comm::message::HEADER_SIZE;

#[test]
fn encode_writes_header_then_content() {
    let mut msg = Message::new(HEADER_SIZE + 2);
    msg.set_type(16);
    msg.set_content_bytes(&[0xaa, 0xbb]);
    let frame = encode_frame(&msg);
    assert_eq!(frame, vec![16u8, 0, 0, 0, 0, 0, 0, 0, 2, 0xaa, 0xbb]);
}

#[test]
fn encode_drops_padding() {
    let mut msg = Message::new(HEADER_SIZE + 64);
    msg.set_type(1);
    msg.set_content_bytes(&[1, 2, 3]);
    let frame = encode_frame(&msg);
    assert_eq!(frame.len(), HEADER_SIZE + 3);
    assert_eq!(&frame[9..], &[1, 2, 3]);
}

#[test]
fn round_trip_preserves_type_size_and_content() {
    let mut msg = Message::new(HEADER_SIZE + 32);
    msg.set_type(77);
    msg.set_content_bytes(b"some opaque octets");
    let frame = encode_frame(&msg);
    let (decoded, used) = decode_frame(&frame).unwrap();
    assert_eq!(used, frame.len());
    assert_eq!(decoded.get_type(), 77);
    assert_eq!(decoded.get_content_size(), 18);
    assert_eq!(decoded.get_content_bytes(), msg.get_content_bytes());
}

#[test]
fn round_trip_zero_body_reply() {
    // a header-only REPLY message survives the round trip
    let mut msg = Message::new(HEADER_SIZE);
    msg.set_type(2);
    let frame = encode_frame(&msg);
    assert_eq!(frame.len(), HEADER_SIZE);
    let (decoded, _) = decode_frame(&frame).unwrap();
    assert_eq!(decoded.get_type(), 2);
    assert_eq!(decoded.get_content_size(), 0);
    assert_eq!(decoded.get_content_bytes(), &[][..]);
}

#[test]
fn round_trip_large_body() {
    // a 65536-byte content survives the round trip byte for byte
    let body: Vec<u8> = (0..65536usize).map(|i| (i % 251) as u8).collect();
    let msg = Message::create_msg_bytes_fit(&body);
    let frame = encode_frame(&msg);
    assert_eq!(frame.len(), HEADER_SIZE + 65536);
    let (decoded, used) = decode_frame(&frame).unwrap();
    assert_eq!(used, frame.len());
    assert_eq!(decoded.get_content_size(), 65536);
    assert_eq!(decoded.get_content_bytes(), &body[..]);
}

#[test]
fn flush_policy_follows_the_type() {
    assert!(!needs_flush(0));
    assert!(!needs_flush(1));
    assert!(!needs_flush(2));
    assert!(needs_flush(4));
    assert!(needs_flush(8));
    assert!(needs_flush(16));
    assert!(!needs_flush(3));
}

#[test]
fn plan_send_flags() {
    let mut msg = Message::new(HEADER_SIZE + 4);
    msg.set_type(16);
    msg.set_content_bytes(b"ping");
    let plan = plan_send(&msg);
    assert!(plan.flush);
    assert!(!plan.last);
    assert_eq!(plan.frame, encode_frame(&msg));

    let mut end = Message::new(HEADER_SIZE);
    end.set_type(4);
    let plan = plan_send(&end);
    assert!(plan.flush);
    assert!(plan.last);

    let mut text = Message::new(HEADER_SIZE);
    text.set_type(1);
    let plan = plan_send(&text);
    assert!(!plan.flush);
    assert!(!plan.last);
}

#[test]
fn oversized_header_is_malformed() {
    let mut bytes = vec![0u8; HEADER_SIZE];
    // advertise MAX_CONTENT_SIZE + 1 content bytes
    let too_big = MAX_CONTENT_SIZE + 1;
    bytes[1..9].copy_from_slice(&too_big.to_be_bytes());
    assert!(matches!(decode_frame(&bytes), Err(CommError::MalformedHeader)));
    assert_eq!(read_header(&bytes), Err(CommError::MalformedHeader));
}

#[test]
fn short_bytes_are_truncated_frames() {
    let bytes = vec![1u8, 0, 0];
    assert!(matches!(decode_frame(&bytes), Err(CommError::FrameTruncated)));
    let mut header_only = vec![1u8, 0, 0, 0, 0, 0, 0, 0, 5];
    assert!(matches!(decode_frame(&header_only), Err(CommError::FrameTruncated)));
    header_only.extend_from_slice(&[9, 9, 9, 9, 9]);
    assert!(decode_frame(&header_only).is_ok());
}

#[test]
fn read_header_returns_type_and_size() {
    let mut bytes = vec![0u8; HEADER_SIZE];
    bytes[0] = 16;
    bytes[8] = 4;
    let (t, sz) = read_header(&bytes).unwrap();
    assert_eq!(t, 16);
    assert_eq!(sz, 4);
}

#[test]
fn build_message_assembles_the_read_frame() {
    let msg = build_message(16, b"ping");
    assert_eq!(msg.get_type(), 16);
    assert_eq!(msg.get_content_size(), 4);
    assert_eq!(msg.get_content_bytes(), b"ping");
    assert_eq!(msg.len(), HEADER_SIZE + 4);
}

#[test]
fn encode_all_concatenates_frames_in_order() {
    let msgs = vec![
        Message::create_msg_bytes_fit(b"a"),
        Message::create_msg_bytes_fit(b"bb"),
        Message::create_msg_header_only(),
    ];
    let wire = rust_comm::codec::encode_all(&msgs);
    let mut manual: Vec<u8> = Vec::new();
    for m in &msgs {
        manual.extend_from_slice(&encode_frame(m));
    }
    assert_eq!(wire, manual);
}

#[test]
fn decode_all_returns_every_message_in_order() {
    let msgs = vec![
        Message::create_msg_bytes_fit(b"one"),
        Message::create_msg_bytes_fit(b"two"),
        Message::create_msg_bytes_fit(b"three"),
    ];
    let wire = rust_comm::codec::encode_all(&msgs);
    let decoded = rust_comm::codec::decode_all(&wire).unwrap();
    assert_eq!(decoded.len(), 3);
    assert_eq!(decoded[0].get_content_bytes(), b"one");
    assert_eq!(decoded[1].get_content_bytes(), b"two");
    assert_eq!(decoded[2].get_content_bytes(), b"three");
    assert!(rust_comm::codec::decode_all(&Vec::new()).unwrap().is_empty());
}

#[test]
fn decode_all_reports_the_first_bad_frame() {
    let mut wire = encode_frame(&Message::create_msg_bytes_fit(b"fine"));
    wire.extend_from_slice(&[1u8, 2, 3]);
    assert!(matches!(
        rust_comm::codec::decode_all(&wire),
        Err(CommError::FrameTruncated)
    ));
}

#[test]
fn frames_decode_in_wire_order() {
    // two frames on one connection come back in the order they were sent
    let first = Message::create_msg_bytes_fit(b"first");
    let second = Message::create_msg_bytes_fit(b"second");
    let mut wire = encode_frame(&first);
    wire.extend_from_slice(&encode_frame(&second));
    let (m1, used1) = decode_frame(&wire).unwrap();
    assert_eq!(m1.get_content_bytes(), b"first");
    let rest: Vec<u8> = wire[used1..].to_vec();
    let (m2, used2) = decode_frame(&rest).unwrap();
    assert_eq!(m2.get_content_bytes(), b"second");
    assert_eq!(used1 + used2, wire.len());
}
