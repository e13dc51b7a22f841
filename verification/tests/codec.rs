use bytes::BytesMut;
use framelink::codec::{drain_frames, encode, read_be_u32, try_decode_one, HEADER_LEN};
use framelink::payload::{classify, data_packet, ping_packet, pong_packet, PayloadKind};

fn buffer_of(bytes: &[u8]) -> BytesMut {
    BytesMut::from(bytes)
}

#[test]
fn encode_prefixes_the_length_in_big_endian() {
    let frame = encode(b"hello");
    assert_eq!(&frame[..], &[0, 0, 0, 5, b'h', b'e', b'l', b'l', b'o'][..]);
}

#[test]
fn encode_of_nothing_is_a_bare_header() {
    let frame = encode(b"");
    assert_eq!(&frame[..], &[0, 0, 0, 0][..]);
}

#[test]
fn encode_spreads_a_long_length_over_the_header() {
    let payload = vec![7u8; 0x0001_0203];
    let frame = encode(&payload);
    assert_eq!(frame.len(), HEADER_LEN + payload.len());
    assert_eq!(&frame[..4], &[0x00, 0x01, 0x02, 0x03][..]);
    assert_eq!(&frame[4..], &payload[..]);
}

#[test]
fn read_be_u32_puts_the_first_byte_highest() {
    assert_eq!(read_be_u32(0x08, 0x09, 0xa0, 0xa1), 0x0809_a0a1);
    assert_eq!(read_be_u32(0, 0, 0, 0), 0);
    assert_eq!(read_be_u32(0, 0, 1, 0), 256);
    assert_eq!(read_be_u32(0xff, 0xff, 0xff, 0xff), u32::MAX);
}

#[test]
fn framing_round_trip() {
    let payloads: Vec<Vec<u8>> = vec![
        vec![],
        vec![0],
        b"hello".to_vec(),
        b"PING".to_vec(),
        (0..=255u8).collect(),
        vec![0xab; 70_000],
    ];
    for payload in payloads {
        let mut buffer = encode(&payload);
        let before = buffer.len();
        assert_eq!(before, 4 + payload.len());
        let decoded = try_decode_one(&mut buffer);
        assert_eq!(decoded.as_deref(), Some(&payload[..]));
        assert_eq!(before - buffer.len(), 4 + payload.len());
        assert!(buffer.is_empty());
    }
}

#[test]
fn round_trip_leaves_what_follows_the_frame() {
    let mut buffer = encode(b"abc");
    buffer.extend_from_slice(&[9, 8, 7]);
    let decoded = try_decode_one(&mut buffer);
    assert_eq!(decoded.as_deref(), Some(&b"abc"[..]));
    assert_eq!(&buffer[..], &[9, 8, 7][..]);
}

#[test]
fn partial_frame_stability() {
    let payload = b"heartbeat";
    let frame = encode(payload);
    let mut buffer = BytesMut::new();
    for (i, byte) in frame.iter().enumerate() {
        buffer.extend_from_slice(&[*byte]);
        let decoded = try_decode_one(&mut buffer);
        if i + 1 < frame.len() {
            assert!(decoded.is_none());
            assert_eq!(&buffer[..], &frame[..i + 1]);
        } else {
            assert_eq!(decoded.as_deref(), Some(&payload[..]));
            assert!(buffer.is_empty());
        }
    }
}

#[test]
fn incomplete_payload_keeps_the_header() {
    let mut buffer = buffer_of(&[0, 0, 0, 3, b'a', b'b']);
    assert!(try_decode_one(&mut buffer).is_none());
    assert_eq!(&buffer[..], &[0, 0, 0, 3, b'a', b'b'][..]);
    buffer.extend_from_slice(b"c");
    assert_eq!(try_decode_one(&mut buffer).as_deref(), Some(&b"abc"[..]));
    assert!(buffer.is_empty());
}

#[test]
fn short_header_decodes_nothing() {
    for len in 0..4usize {
        let mut buffer = buffer_of(&[0u8; 3][..len]);
        assert!(try_decode_one(&mut buffer).is_none());
        assert_eq!(buffer.len(), len);
    }
}

#[test]
fn huge_announced_length_waits_for_more() {
    let mut buffer = buffer_of(&[0xff, 0xff, 0xff, 0xff, 1, 2, 3]);
    assert!(try_decode_one(&mut buffer).is_none());
    assert_eq!(buffer.len(), 7);
}

#[test]
fn multi_frame_drain() {
    let mut buffer = encode(b"first");
    buffer.extend_from_slice(&encode(b"second!"));
    assert_eq!(try_decode_one(&mut buffer).as_deref(), Some(&b"first"[..]));
    assert_eq!(try_decode_one(&mut buffer).as_deref(), Some(&b"second!"[..]));
    assert!(try_decode_one(&mut buffer).is_none());
    assert!(buffer.is_empty());
}

#[test]
fn empty_frame_is_a_frame() {
    let mut buffer = buffer_of(&[0, 0, 0, 0, 0, 0, 0, 1, 5]);
    assert_eq!(try_decode_one(&mut buffer).as_deref(), Some(&b""[..]));
    assert_eq!(try_decode_one(&mut buffer).as_deref(), Some(&[5u8][..]));
    assert!(try_decode_one(&mut buffer).is_none());
}

#[test]
fn drain_takes_every_whole_frame_and_leaves_the_partial_one() {
    let mut buffer = encode(b"one");
    buffer.extend_from_slice(&encode(b""));
    buffer.extend_from_slice(&encode(b"three"));
    buffer.extend_from_slice(&[0, 0, 0, 9, b'x']);
    let frames = drain_frames(&mut buffer);
    let payloads: Vec<&[u8]> = frames.iter().map(|frame| &frame[..]).collect();
    assert_eq!(payloads, vec![&b"one"[..], &b""[..], &b"three"[..]]);
    assert_eq!(&buffer[..], &[0, 0, 0, 9, b'x'][..]);
    assert!(drain_frames(&mut buffer).is_empty());
    assert_eq!(&buffer[..], &[0, 0, 0, 9, b'x'][..]);
}

#[test]
fn drain_of_an_empty_buffer_is_empty() {
    let mut buffer = BytesMut::new();
    assert!(drain_frames(&mut buffer).is_empty());
    assert!(buffer.is_empty());
}

#[test]
fn control_payloads_are_ascii() {
    assert_eq!(&ping_packet()[..], b"PING");
    assert_eq!(&pong_packet()[..], b"PONG");
    assert_eq!(&data_packet()[..], b"DATA");
}

#[test]
fn classify_knows_exactly_the_reserved_payloads() {
    assert_eq!(classify(b"PING"), PayloadKind::Ping);
    assert_eq!(classify(b"PONG"), PayloadKind::Pong);
    assert_eq!(classify(b"DATA"), PayloadKind::Data);
    assert_eq!(classify(b""), PayloadKind::Data);
    assert_eq!(classify(b"ping"), PayloadKind::Data);
    assert_eq!(classify(b"PING "), PayloadKind::Data);
    assert_eq!(classify(b"PIN"), PayloadKind::Data);
    assert_eq!(classify(b"PANG"), PayloadKind::Data);
    assert_eq!(classify(b"PONX"), PayloadKind::Data);
    assert_eq!(classify(b"XONG"), PayloadKind::Data);
    assert_eq!(classify(b"POXG"), PayloadKind::Data);
}
