use nexa_cli::frame::{decode_header, encode_frame, Header, ProtocolError, MAGIC, VERSION};

#[test]
fn encode_frame_lays_out_header_then_payload() {
    let f = encode_frame(0x02, &vec![1u8, 2, 3]);
    assert_eq!(f, vec![0x4E, 0x45, 0x58, 0x41, 0x01, 0x02, 0, 0, 0, 0, 0, 3, 1, 2, 3]);
}

#[test]
fn encode_frame_writes_length_big_endian() {
    let payload = vec![7u8; 300];
    let f = encode_frame(0x06, &payload);
    assert_eq!(f.len(), 312);
    assert_eq!(&f[8..12], &[0, 0, 1, 44]);
    assert_eq!(&f[12..], &payload[..]);
}

#[test]
fn frame_round_trip_gives_header_fields() {
    for t in [0x01u8, 0x07, 0x20, 0x81, 0xFF] {
        let payload: Vec<u8> = (0..t as usize).map(|i| i as u8).collect();
        let f = encode_frame(t, &payload);
        let h = decode_header(&f[..12]).unwrap();
        assert_eq!(
            h,
            Header { magic: MAGIC, version: VERSION, message_type: t, flags: 0, payload_length: payload.len() as u32 }
        );
    }
}

#[test]
fn empty_payload_round_trip() {
    let f = encode_frame(0x20, &vec![]);
    assert_eq!(f.len(), 12);
    assert_eq!(decode_header(&f).unwrap().payload_length, 0);
}

#[test]
fn bad_magic_is_refused() {
    let mut f = encode_frame(0x81, &vec![1, 2]);
    f[3] = b'B';
    assert_eq!(decode_header(&f[..12]), Err(ProtocolError::BadMagic(0x4E455842)));
    let zeros = [0u8; 12];
    assert_eq!(decode_header(&zeros), Err(ProtocolError::BadMagic(0)));
}

#[test]
fn short_header_is_truncated() {
    let f = encode_frame(0x81, &vec![]);
    assert_eq!(decode_header(&f[..11]), Err(ProtocolError::Truncated));
    assert_eq!(decode_header(&[]), Err(ProtocolError::Truncated));
}

#[test]
fn version_and_flags_are_read_not_checked() {
    let mut f = encode_frame(0x81, &vec![]);
    f[4] = 9;
    f[6] = 1;
    f[7] = 2;
    let h = decode_header(&f).unwrap();
    assert_eq!(h.version, 9);
    assert_eq!(h.flags, 0x0102);
}
