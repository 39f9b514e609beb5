use signaling_reflector::wire::{
    decode_request, encode_reply, read_i64_le, Request, REFLECT_TAG, REPLY_LEN, REQUEST_LEN,
};

fn request_bytes(session_id: i64, claimed: [u8; 4]) -> Vec<u8> {
    let mut bytes = vec![1u8];
    bytes.extend_from_slice(&session_id.to_le_bytes());
    bytes.extend_from_slice(&claimed);
    bytes
}

#[test]
fn constants_match_the_layout() {
    assert_eq!(REQUEST_LEN, 13);
    assert_eq!(REPLY_LEN, 9);
    assert_eq!(REFLECT_TAG, 1);
}

#[test]
fn decodes_session_42() {
    let datagram = [0x01, 0x2A, 0, 0, 0, 0, 0, 0, 0, 0x0A, 0, 0, 0x02];
    assert_eq!(
        decode_request(&datagram),
        Some(Request { session_id: 42, claimed_local_addr: [10, 0, 0, 2] })
    );
}

#[test]
fn decodes_every_byte_of_the_session_id_at_its_weight() {
    let datagram = [1, 0x08, 0x07, 0x06, 0x05, 0x04, 0x03, 0x02, 0x01, 192, 168, 1, 20];
    assert_eq!(
        decode_request(&datagram),
        Some(Request { session_id: 0x0102_0304_0506_0708, claimed_local_addr: [192, 168, 1, 20] })
    );
}

#[test]
fn decodes_negative_session_ids() {
    assert_eq!(
        decode_request(&request_bytes(-1, [0, 0, 0, 0])),
        Some(Request { session_id: -1, claimed_local_addr: [0, 0, 0, 0] })
    );
    assert_eq!(
        decode_request(&request_bytes(-2_000_000_000_000, [1, 2, 3, 4])),
        Some(Request { session_id: -2_000_000_000_000, claimed_local_addr: [1, 2, 3, 4] })
    );
}

#[test]
fn decodes_the_extremes_of_the_session_id() {
    for id in [i64::MIN, i64::MIN + 1, -1, 0, 1, i64::MAX - 1, i64::MAX] {
        assert_eq!(
            decode_request(&request_bytes(id, [255, 255, 255, 255])),
            Some(Request { session_id: id, claimed_local_addr: [255, 255, 255, 255] })
        );
    }
}

#[test]
fn sign_bit_alone_is_the_smallest_id() {
    let datagram = [1, 0, 0, 0, 0, 0, 0, 0, 0x80, 0, 0, 0, 0];
    assert_eq!(decode_request(&datagram).map(|r| r.session_id), Some(i64::MIN));
}

#[test]
fn rejects_every_other_length() {
    let long = request_bytes(42, [10, 0, 0, 2]);
    assert!(decode_request(&long).is_some());
    for len in 0..13 {
        assert_eq!(decode_request(&long[..len]), None);
    }
    let mut longer = long.clone();
    longer.push(0);
    assert_eq!(decode_request(&longer), None);
    assert_eq!(decode_request(&vec![1u8; 65535]), None);
}

#[test]
fn rejects_every_other_tag() {
    let mut datagram = request_bytes(42, [10, 0, 0, 2]);
    for tag in 0..=255u8 {
        datagram[0] = tag;
        assert_eq!(decode_request(&datagram).is_some(), tag == 1);
    }
}

#[test]
fn reads_a_number_at_an_offset() {
    let bytes = [9, 9, 9, 0x2A, 0, 0, 0, 0, 0, 0, 0, 9];
    assert_eq!(read_i64_le(&bytes, 3), 42);
    assert_eq!(read_i64_le(&[0xFE, 0xFF, 0xFF, 0xFF, 0xFF, 0xFF, 0xFF, 0xFF], 0), -2);
    assert_eq!(read_i64_le(&[0, 1, 0, 0, 0, 0, 0, 0], 0), 256);
}

#[test]
fn reading_agrees_with_the_standard_conversion() {
    for value in [0i64, 1, -1, 255, 256, 65_535, 65_536, 0x1234_5678_9ABC_DEF0, -0x1234_5678_9ABC_DEF0] {
        assert_eq!(read_i64_le(&value.to_le_bytes(), 0), value);
    }
}

#[test]
fn encodes_the_reply_for_203_0_113_5_port_40000() {
    assert_eq!(encode_reply(&[203, 0, 113, 5], 40000), [0x00, 0x00, 0x00, 0xCB, 0x00, 0x71, 0x05, 0x9C, 0x40]);
}

#[test]
fn reply_port_has_its_high_byte_first() {
    assert_eq!(encode_reply(&[1, 2, 3, 4], 0x0102)[7..], [0x01, 0x02]);
    assert_eq!(encode_reply(&[1, 2, 3, 4], 0)[7..], [0, 0]);
    assert_eq!(encode_reply(&[1, 2, 3, 4], 255)[7..], [0, 255]);
    assert_eq!(encode_reply(&[1, 2, 3, 4], 256)[7..], [1, 0]);
    assert_eq!(encode_reply(&[1, 2, 3, 4], 65535)[7..], [255, 255]);
}

#[test]
fn reply_agrees_with_the_standard_conversion() {
    for port in [0u16, 1, 80, 3657, 40000, 65535] {
        let reply = encode_reply(&[10, 20, 30, 40], port);
        assert_eq!(reply.len(), 9);
        assert_eq!(reply[..3], [0, 0, 0]);
        assert_eq!(reply[3..7], [10, 20, 30, 40]);
        assert_eq!(reply[7..], port.to_be_bytes());
    }
}
