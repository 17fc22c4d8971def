use std::io::Cursor;

use s1_mcp_client_rust::protocol::{
    concat_frame, decode_length_prefixed_json, encode_length_prefixed_json, frame_payload_length, read_frame,
    write_frame, ProtocolError, MAX_MESSAGE_SIZE_BYTES,
};

const REQUEST_JSON: &[u8] = br#"{"id":42,"method":"handshake","params":{"client":"rust-test"}}"#;

#[test]
fn encode_decode_length_prefixed_round_trip() {
    let frame = encode_length_prefixed_json(REQUEST_JSON).expect("encode should succeed");
    let decoded = decode_length_prefixed_json(&frame).expect("decode should succeed");

    assert_eq!(decoded, REQUEST_JSON);
    assert_eq!(frame.len(), 4 + REQUEST_JSON.len());
    assert_eq!(&frame[..4], &(REQUEST_JSON.len() as u32).to_le_bytes());
}

#[test]
fn decode_rejects_short_messages() {
    let error = decode_length_prefixed_json(&[1_u8, 2, 3]).expect_err("must fail");

    match error {
        ProtocolError::MessageTooShort { actual } => assert_eq!(actual, 3),
        other => panic!("unexpected error variant: {other:?}"),
    }
}

#[test]
fn decode_rejects_incomplete_payload() {
    let mut frame = Vec::new();
    frame.extend_from_slice(&8_u32.to_le_bytes());
    frame.extend_from_slice(b"{}");

    let error = decode_length_prefixed_json(&frame).expect_err("must fail");
    match error {
        ProtocolError::MessageIncomplete { expected, actual } => {
            assert_eq!(expected, 12);
            assert_eq!(actual, 6);
        }
        other => panic!("unexpected error variant: {other:?}"),
    }
}

#[test]
fn decode_rejects_payload_over_size_limit() {
    let mut frame = Vec::new();
    frame.extend_from_slice(&((MAX_MESSAGE_SIZE_BYTES as u32) + 1).to_le_bytes());

    let error = decode_length_prefixed_json(&frame).expect_err("must fail");
    match error {
        ProtocolError::MessageTooLarge { length, max } => {
            assert_eq!(length, MAX_MESSAGE_SIZE_BYTES + 1);
            assert_eq!(max, MAX_MESSAGE_SIZE_BYTES);
        }
        other => panic!("unexpected error variant: {other:?}"),
    }
}

#[test]
fn decode_ignores_bytes_after_the_frame() {
    let mut frame = encode_length_prefixed_json(b"{}").expect("encode should succeed");
    frame.extend_from_slice(b"trailing");
    assert_eq!(decode_length_prefixed_json(&frame).expect("decode"), b"{}");
}

#[test]
fn encode_rejects_payload_over_size_limit() {
    let big = vec![b' '; MAX_MESSAGE_SIZE_BYTES + 1];
    match encode_length_prefixed_json(&big).expect_err("must fail") {
        ProtocolError::MessageTooLarge { length, max } => {
            assert_eq!(length, MAX_MESSAGE_SIZE_BYTES + 1);
            assert_eq!(max, MAX_MESSAGE_SIZE_BYTES);
        }
        other => panic!("unexpected error variant: {other:?}"),
    }
    let at_limit = vec![b' '; MAX_MESSAGE_SIZE_BYTES];
    assert!(encode_length_prefixed_json(&at_limit).is_ok());
}

#[test]
fn read_and_write_frame_round_trip() {
    let frame = encode_length_prefixed_json(br#"{"id":7,"method":"get_player","params":{}}"#).expect("encode should succeed");

    let mut sink = Cursor::new(Vec::<u8>::new());
    write_frame(&mut sink, &frame).expect("write should succeed");

    sink.set_position(0);
    let round_trip = read_frame(&mut sink).expect("read should succeed");
    assert_eq!(round_trip, frame);
}

#[test]
fn read_frame_refuses_oversized_prefix_and_truncated_stream() {
    let mut stream = Cursor::new(((MAX_MESSAGE_SIZE_BYTES as u32) + 1).to_le_bytes().to_vec());
    assert!(matches!(read_frame(&mut stream), Err(ProtocolError::MessageTooLarge { .. })));

    let mut truncated = Cursor::new(vec![5_u8, 0, 0, 0, b'{']);
    assert!(matches!(read_frame(&mut truncated), Err(ProtocolError::Io(_))));

    let mut short = Cursor::new(vec![1_u8, 0]);
    assert!(matches!(read_frame(&mut short), Err(ProtocolError::Io(_))));
}

#[test]
fn prefix_length_and_frame_assembly() {
    assert_eq!(frame_payload_length(&[0x10, 0x27, 0, 0]).expect("in range"), 10_000);
    assert!(matches!(frame_payload_length(&[0xff, 0xff, 0xff, 0xff]), Err(ProtocolError::MessageTooLarge { .. })));
    assert_eq!(concat_frame(&[2, 0, 0, 0], b"{}"), vec![2, 0, 0, 0, b'{', b'}']);
}

#[test]
fn framed_acknowledgment_has_length_prefix() {
    let frame = encode_length_prefixed_json(br#"{"id":42,"status":"ok"}"#).expect("must succeed");
    assert!(frame.len() > 4, "frame must be longer than just the prefix");
    let payload_len = u32::from_le_bytes([frame[0], frame[1], frame[2], frame[3]]) as usize;
    assert_eq!(frame.len(), 4 + payload_len);
}
