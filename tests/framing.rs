use synac_common::limits::{MAX_PACKET_SIZE, PERM_READ, PERM_WRITE};
use synac_common::value::is_one_value;
use synac_common::{decode_u16, encode_u16, packet_kind, read, Error, PacketKind};

fn envelope(tag: &str, payload: &[u8]) -> Vec<u8> {
    let mut b = vec![0x81u8, 0xa0 | tag.len() as u8];
    b.extend_from_slice(tag.as_bytes());
    b.extend_from_slice(payload);
    b
}

#[test]
fn encode_u16_splits_big_endian() {
    assert_eq!(encode_u16(0x1234), [0x12, 0x34]);
    assert_eq!(encode_u16(0), [0, 0]);
    assert_eq!(encode_u16(65535), [0xff, 0xff]);
    assert_eq!(encode_u16(256), [1, 0]);
}

#[test]
fn decode_u16_reads_big_endian() {
    assert_eq!(decode_u16(&[0x12, 0x34]), 0x1234);
    assert_eq!(decode_u16(&[0xff, 0xff]), 65535);
    assert_eq!(decode_u16(&[0, 7]), 7);
}

#[test]
fn u16_round_trip_for_every_value() {
    for x in 0..=u16::MAX {
        assert_eq!(decode_u16(&encode_u16(x)), x);
    }
}

#[test]
fn write_prefixes_length() {
    let mut out = vec![9u8];
    let body = envelope("err", &[12]);
    assert_eq!(synac_common::frame::write(&mut out, &body), Ok(()));
    assert_eq!(out, vec![9, 0, 6, 0x81, 0xa3, b'e', b'r', b'r', 12]);
}

#[test]
fn write_accepts_largest_body() {
    let mut out = Vec::new();
    let body = vec![7u8; MAX_PACKET_SIZE];
    assert_eq!(synac_common::frame::write(&mut out, &body), Ok(()));
    assert_eq!(out.len(), 65537);
    assert_eq!(&out[..2], &[0xff, 0xff]);
}

#[test]
fn write_refuses_oversized_body_before_writing() {
    let mut out = vec![1u8, 2];
    let body = vec![7u8; 65536];
    assert_eq!(synac_common::frame::write(&mut out, &body), Err(Error::PacketTooBigError));
    assert_eq!(out, vec![1, 2]);
}

#[test]
fn read_gives_back_written_body() {
    let body = envelope("typing", &[0x91, 4]);
    let mut stream = Vec::new();
    synac_common::frame::write(&mut stream, &body).unwrap();
    let mut pos = 0usize;
    assert_eq!(read(&stream, &mut pos), Ok(body.clone()));
    assert_eq!(pos, 2 + body.len());
}

#[test]
fn read_largest_frame() {
    let mut payload = vec![0xc5u8, 0xff, 0xec];
    payload.resize(3 + 65516, 0x61);
    let body = envelope("message_create", &payload);
    assert_eq!(body.len(), 65535);
    let mut stream = Vec::new();
    synac_common::frame::write(&mut stream, &body).unwrap();
    let mut pos = 0usize;
    let got = read(&stream, &mut pos).unwrap();
    assert_eq!(got.len(), 65535);
    assert_eq!(pos, 65537);
}

#[test]
fn read_two_frames_in_turn() {
    let first = envelope("err", &[3]);
    let second = vec![0xb5u8]
        .into_iter()
        .chain(b"message_list_received".iter().copied())
        .collect::<Vec<u8>>();
    let mut stream = Vec::new();
    synac_common::frame::write(&mut stream, &first).unwrap();
    synac_common::frame::write(&mut stream, &second).unwrap();
    let mut pos = 0usize;
    assert_eq!(read(&stream, &mut pos), Ok(first));
    assert_eq!(read(&stream, &mut pos), Ok(second));
    assert_eq!(read(&stream, &mut pos), Err(Error::IoError));
    assert_eq!(pos, stream.len());
}

#[test]
fn read_truncated_body_is_io_error() {
    let body = envelope("login", &[0x94, 0xc2, 0xa1, b'a', 0xc0, 0xc0]);
    let mut stream = Vec::new();
    synac_common::frame::write(&mut stream, &body).unwrap();
    for cut in 0..stream.len() {
        let mut pos = 0usize;
        assert_eq!(read(&stream[..cut], &mut pos), Err(Error::IoError));
        assert_eq!(pos, 0);
    }
}

#[test]
fn read_past_end_is_io_error() {
    let mut pos = 5usize;
    assert_eq!(read(&[0, 1, 2], &mut pos), Err(Error::IoError));
    assert_eq!(pos, 5);
}

#[test]
fn read_unknown_tag_is_decode_error() {
    let body = envelope("bogus", &[1]);
    let mut stream = Vec::new();
    synac_common::frame::write(&mut stream, &body).unwrap();
    let mut pos = 0usize;
    assert_eq!(read(&stream, &mut pos), Err(Error::DecodeError));
    assert_eq!(pos, 0);
}

#[test]
fn packet_kind_of_envelopes() {
    assert_eq!(packet_kind(&envelope("err", &[12])), Some(PacketKind::Error));
    assert_eq!(packet_kind(&envelope("channel_update", &[0x90])), Some(PacketKind::ChannelUpdate));
    assert_eq!(packet_kind(&envelope("user_receive", &[0x90])), Some(PacketKind::UserReceive));
    let mut long = vec![0x81u8, 0xd9, 22];
    long.extend_from_slice(b"message_delete_receive");
    long.extend_from_slice(&[0x91, 0x01]);
    assert_eq!(packet_kind(&long), Some(PacketKind::MessageDeleteReceive));
}

#[test]
fn packet_kind_of_bare_tag() {
    let mut b = vec![0xb5u8];
    b.extend_from_slice(b"message_list_received");
    assert_eq!(packet_kind(&b), Some(PacketKind::MessageListReceived));
    b.push(0);
    assert_eq!(packet_kind(&b), None);
}

#[test]
fn packet_kind_refuses_malformed_envelopes() {
    assert_eq!(packet_kind(&[]), None);
    assert_eq!(packet_kind(&envelope("bogus", &[1])), None);
    assert_eq!(packet_kind(&envelope("err", &[])), None);
    assert_eq!(packet_kind(&envelope("message_list_received", &[0xc0])), None);
    assert_eq!(packet_kind(&[0xa3, b'e', b'r', b'r']), None);
    assert_eq!(packet_kind(&[0x81, 0xa5, b'e', b'r', b'r']), None);
    assert_eq!(packet_kind(&envelope("Err", &[1])), None);
}

#[test]
fn permission_mask_of_read_and_write() {
    assert_eq!(PERM_READ | PERM_WRITE, 3);
}

#[test]
fn trailing_bytes_are_decode_error() {
    let mut body = envelope("err", &[12]);
    body.push(0xc0);
    assert_eq!(packet_kind(&body), None);
    let mut stream = Vec::new();
    synac_common::frame::write(&mut stream, &body).unwrap();
    let mut pos = 0usize;
    assert_eq!(read(&stream, &mut pos), Err(Error::DecodeError));
}

#[test]
fn truncated_payload_is_decode_error() {
    let body = envelope("message_create", &[0x92, 0x01, 0xc4, 0x05, 0x61]);
    assert_eq!(packet_kind(&body), None);
    let mut stream = Vec::new();
    synac_common::frame::write(&mut stream, &body).unwrap();
    let mut pos = 0usize;
    assert_eq!(read(&stream, &mut pos), Err(Error::DecodeError));
}

#[test]
fn one_value_of_scalars_and_containers() {
    assert!(is_one_value(&[0x00]));
    assert!(is_one_value(&[0xff]));
    assert!(is_one_value(&[0xc0]));
    assert!(is_one_value(&[0xcd, 0x01, 0x02]));
    assert!(is_one_value(&[0xd3, 0, 0, 0, 0, 0, 0, 0, 1]));
    assert!(is_one_value(&[0x92, 0xc2, 0x82, 0xa1, b'a', 0x01, 0xa1, b'b', 0x90]));
    assert!(is_one_value(&[0xdc, 0x00, 0x02, 0x01, 0x02]));
    assert!(is_one_value(&[0xde, 0x00, 0x01, 0x01, 0x02]));
    assert!(is_one_value(&[0xc5, 0x00, 0x02, 7, 8]));
    assert!(is_one_value(&[0xd4, 1, 2]));
    assert!(is_one_value(&[0xc7, 0x01, 5, 9]));
}

#[test]
fn one_value_refuses_broken_input() {
    assert!(!is_one_value(&[]));
    assert!(!is_one_value(&[0xc1]));
    assert!(!is_one_value(&[0xc0, 0xc0]));
    assert!(!is_one_value(&[0x92, 0x01]));
    assert!(!is_one_value(&[0xcd, 0x01]));
    assert!(!is_one_value(&[0xa3, b'a', b'b']));
    assert!(!is_one_value(&[0xdd, 0xff, 0xff, 0xff, 0xff, 0x01]));
    assert!(!is_one_value(&[0xdf, 0xff, 0xff, 0xff, 0xff]));
    assert!(!is_one_value(&[0xda, 0x00]));
}

#[test]
fn fixext_values_take_type_byte_and_data() {
    assert!(is_one_value(&[0xd6, 0x01, 1, 2, 3, 4]));
    assert!(!is_one_value(&[0xd6, 0x01, 1, 2, 3]));
    assert!(!is_one_value(&[0xd6, 0x01, 1, 2, 3, 4, 5]));
    assert!(is_one_value(&[0xd7, 0x01, 1, 2, 3, 4, 5, 6, 7, 8]));
    assert!(!is_one_value(&[0xd7, 0x01, 1, 2, 3, 4, 5, 6, 7]));
    assert!(is_one_value(&[0xd5, 0x01, 1, 2]));
    assert!(is_one_value(&[0xd8, 0x01, 1, 2, 3, 4, 5, 6, 7, 8, 9, 10, 11, 12, 13, 14, 15, 16]));
    assert!(!is_one_value(&[0xd8, 0x01, 1, 2, 3, 4, 5, 6, 7, 8, 9, 10, 11, 12, 13, 14, 15]));
}

#[test]
fn packet_kind_takes_every_string_and_map_form() {
    let mut str16 = vec![0x81u8, 0xda, 0x00, 0x03];
    str16.extend_from_slice(b"err");
    str16.push(0x0c);
    assert_eq!(packet_kind(&str16), Some(PacketKind::Error));
    let mut str32 = vec![0x81u8, 0xdb, 0x00, 0x00, 0x00, 0x06];
    str32.extend_from_slice(b"typing");
    str32.extend_from_slice(&[0x91, 0x02]);
    assert_eq!(packet_kind(&str32), Some(PacketKind::Typing));
    let mut map16 = vec![0xdeu8, 0x00, 0x01, 0xa3];
    map16.extend_from_slice(b"err");
    map16.push(0x0c);
    assert_eq!(packet_kind(&map16), Some(PacketKind::Error));
    let mut map32 = vec![0xdfu8, 0x00, 0x00, 0x00, 0x01, 0xd9, 0x03];
    map32.extend_from_slice(b"err");
    map32.push(0x0c);
    assert_eq!(packet_kind(&map32), Some(PacketKind::Error));
    let mut bare16 = vec![0xdau8, 0x00, 0x15];
    bare16.extend_from_slice(b"message_list_received");
    assert_eq!(packet_kind(&bare16), Some(PacketKind::MessageListReceived));
    let mut two = vec![0xdeu8, 0x00, 0x02, 0xa3];
    two.extend_from_slice(b"err");
    two.extend_from_slice(&[0x0c, 0xa1, b'x', 0x01]);
    assert_eq!(packet_kind(&two), None);
}

#[test]
fn read_frame_with_fixext_payload() {
    let body = envelope("message_create", &[0xd6, 0x01, 1, 2, 3, 4]);
    let mut stream = Vec::new();
    synac_common::frame::write(&mut stream, &body).unwrap();
    let mut pos = 0usize;
    assert_eq!(read(&stream, &mut pos), Ok(body.clone()));
    let cut = envelope("message_create", &[0xd6, 0x01, 1, 2, 3]);
    let mut stream = Vec::new();
    synac_common::frame::write(&mut stream, &cut).unwrap();
    let mut pos = 0usize;
    assert_eq!(read(&stream, &mut pos), Err(Error::DecodeError));
}
