use theater_mcp_server::theater::frame::{
    decode, decode_header, encode, encode_header, fits, HEADER_LEN, MAX_PAYLOAD_LEN,
};

#[test]
fn header_is_big_endian() {
    assert_eq!(encode_header(0x0102_0304), [1, 2, 3, 4]);
    assert_eq!(encode_header(0), [0, 0, 0, 0]);
    assert_eq!(encode_header(5), [0, 0, 0, 5]);
    assert_eq!(encode_header(u32::MAX), [255, 255, 255, 255]);
    assert_eq!(encode_header(1 << 20), [0, 16, 0, 0]);
}

#[test]
fn header_agrees_with_std() {
    for len in [0u32, 1, 255, 256, 65_535, 65_536, 1 << 20, 0x00ff_ff00, u32::MAX] {
        assert_eq!(encode_header(len), len.to_be_bytes());
        assert_eq!(decode_header(len.to_be_bytes()), len);
    }
}

#[test]
fn header_round_trips_for_every_length_up_to_a_mebibyte_and_beyond() {
    let mut len: u32 = 0;
    while len <= (1 << 20) {
        assert_eq!(decode_header(encode_header(len)), len);
        len += 1021;
    }
    assert_eq!(decode_header(encode_header(1 << 20)), 1 << 20);
    assert_eq!(decode_header(encode_header(u32::MAX)), u32::MAX);
}

#[test]
fn header_bytes_round_trip() {
    for bytes in [[0u8, 0, 0, 0], [0, 0, 1, 0], [9, 8, 7, 6], [255, 0, 255, 0]] {
        assert_eq!(encode_header(decode_header(bytes)), bytes);
    }
}

#[test]
fn frame_is_header_then_payload() {
    assert_eq!(HEADER_LEN, 4);
    assert_eq!(encode(b"hello"), vec![0, 0, 0, 5, b'h', b'e', b'l', b'l', b'o']);
}

#[test]
fn empty_payload_is_a_valid_frame() {
    assert_eq!(encode(b""), vec![0, 0, 0, 0]);
    assert_eq!(decode(&[0, 0, 0, 0]), Some(vec![]));
}

#[test]
fn frame_round_trips_a_mebibyte() {
    let payload: Vec<u8> = (0..(1usize << 20)).map(|i| (i % 251) as u8).collect();
    let frame = encode(&payload);
    assert_eq!(frame.len(), payload.len() + 4);
    assert_eq!(decode_header([frame[0], frame[1], frame[2], frame[3]]) as usize, payload.len());
    assert_eq!(&frame[4..], &payload[..]);
    assert_eq!(decode(&frame), Some(payload));
}

#[test]
fn decode_rejects_what_is_not_exactly_one_frame() {
    assert_eq!(decode(&[]), None);
    assert_eq!(decode(&[0, 0, 0]), None);
    assert_eq!(decode(&[0, 0, 0, 2, 7]), None);
    assert_eq!(decode(&[0, 0, 0, 1, 7, 8]), None);
    assert_eq!(decode(&[0, 0, 0, 1, 7]), Some(vec![7]));
}

#[test]
fn a_frame_carries_what_its_prefix_can_announce() {
    assert_eq!(MAX_PAYLOAD_LEN, u32::MAX);
    assert!(fits(0));
    assert!(fits(1 << 20));
    assert!(fits(u32::MAX as usize));
    if usize::BITS > 32 {
        assert!(!fits((u32::MAX as usize).wrapping_add(1)));
        assert!(!fits(usize::MAX));
    }
}
