use chatroom::framing::{encode_frame, frame_payload_len, FRAME_HEADER_LEN};

#[test]
fn empty_payload_has_zero_header() {
    assert_eq!(encode_frame(&[]), vec![0, 0, 0, 0]);
}

#[test]
fn short_payload_is_prefixed_by_its_length() {
    assert_eq!(encode_frame(b"hi"), vec![0, 0, 0, 2, b'h', b'i']);
}

#[test]
fn header_is_big_endian() {
    let payload = vec![7u8; 300];
    let framed = encode_frame(&payload);
    assert_eq!(&framed[..4], &[0, 0, 1, 44]);
    assert_eq!(&framed[4..], &payload[..]);
    assert_eq!(framed.len(), 304);
}

#[test]
fn payload_len_reads_big_endian() {
    assert_eq!(frame_payload_len([0, 0, 0, 0]), 0);
    assert_eq!(frame_payload_len([0, 0, 1, 0]), 256);
    assert_eq!(frame_payload_len([1, 2, 3, 4]), 0x0102_0304);
    assert_eq!(frame_payload_len([255, 255, 255, 255]), u32::MAX);
}

#[test]
fn reader_gets_back_what_writer_framed() {
    for len in [0usize, 1, 5, 255, 256, 70_000] {
        let payload: Vec<u8> = (0..len).map(|i| (i % 251) as u8).collect();
        let mut wire = encode_frame(&payload);
        wire.extend_from_slice(b"next frame");
        let header = [wire[0], wire[1], wire[2], wire[3]];
        let n = frame_payload_len(header) as usize;
        assert_eq!(n, len);
        assert_eq!(&wire[FRAME_HEADER_LEN..FRAME_HEADER_LEN + n], &payload[..]);
        assert_eq!(&wire[FRAME_HEADER_LEN + n..], b"next frame");
    }
}
