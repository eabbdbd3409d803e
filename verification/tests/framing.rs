use outwiker::framing::{check_frame_length, encode_frame, frame_header, frame_length, MAX_FRAME_LEN};

#[test]
fn header_is_little_endian() {
    assert_eq!(frame_header(0x0102_0304), [4, 3, 2, 1]);
    assert_eq!(frame_header(0), [0, 0, 0, 0]);
    assert_eq!(frame_header(u32::MAX), [255, 255, 255, 255]);
}

#[test]
fn length_reads_little_endian() {
    assert_eq!(frame_length([4, 3, 2, 1]), 0x0102_0304);
    assert_eq!(frame_length([255, 255, 255, 255]), u32::MAX);
    assert_eq!(frame_length([1, 0, 0, 0]), 1);
}

#[test]
fn header_roundtrip_on_values() {
    for n in [0u32, 1, 255, 256, 65_535, 65_536, 16 * 1024 * 1024, u32::MAX] {
        assert_eq!(frame_length(frame_header(n)), n);
    }
}

#[test]
fn encode_frame_prefixes_length() {
    assert_eq!(encode_frame(b"abc"), vec![3, 0, 0, 0, b'a', b'b', b'c']);
    assert_eq!(encode_frame(&[]), vec![0, 0, 0, 0]);
}

#[test]
fn encoded_frame_splits_back() {
    let payload: Vec<u8> = (0..300u32).map(|i| (i % 251) as u8).collect();
    let f = encode_frame(&payload);
    let header = [f[0], f[1], f[2], f[3]];
    assert_eq!(frame_length(header) as usize, payload.len());
    assert_eq!(&f[4..], &payload[..]);
    assert_eq!(check_frame_length(header), Ok(payload.len()));
}

#[test]
fn server_rejects_empty_frame() {
    assert_eq!(check_frame_length([0, 0, 0, 0]), Err(0));
}

#[test]
fn server_accepts_limit_and_rejects_beyond() {
    assert_eq!(MAX_FRAME_LEN, 16 * 1024 * 1024);
    assert_eq!(check_frame_length(frame_header(MAX_FRAME_LEN)), Ok(16 * 1024 * 1024));
    assert_eq!(check_frame_length(frame_header(MAX_FRAME_LEN + 1)), Err(MAX_FRAME_LEN + 1));
    assert_eq!(check_frame_length(frame_header(u32::MAX)), Err(u32::MAX));
    assert_eq!(check_frame_length(frame_header(1)), Ok(1));
}
