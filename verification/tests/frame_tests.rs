use freemouse::frame::{
    decode_frame, encode_frame, frame_body_len, split_frame_body, u32_from_be_bytes,
    u32_to_be_bytes, FrameError, MAX_FRAME_SIZE,
};

#[test]
fn frame_layout_is_length_nonce_ciphertext() {
    let nonce = [7u8; 12];
    let frame = encode_frame(&nonce, &[1, 2, 3]);
    assert_eq!(frame, vec![0, 0, 0, 15, 7, 7, 7, 7, 7, 7, 7, 7, 7, 7, 7, 7, 1, 2, 3]);
}

#[test]
fn frame_roundtrip_with_trailing_bytes() {
    let nonce = [1u8, 2, 3, 4, 5, 6, 7, 8, 9, 10, 11, 12];
    let payload: Vec<u8> = (0..300u32).map(|i| i as u8).collect();
    let mut bytes = encode_frame(&nonce, &payload);
    let len = bytes.len();
    bytes.extend_from_slice(&[9, 9, 9]);
    let (n, c, used) = decode_frame(&bytes).unwrap();
    assert_eq!(n, nonce);
    assert_eq!(c, payload);
    assert_eq!(used, len);
}

#[test]
fn frame_errors() {
    assert_eq!(decode_frame(&[0, 0, 0]), Err(FrameError::Truncated));
    assert_eq!(decode_frame(&[0, 0, 0, 11, 1, 2]), Err(FrameError::InvalidFrameLength));
    assert_eq!(decode_frame(&[0, 0xa0, 0, 1]), Err(FrameError::InvalidFrameLength));
    assert_eq!(decode_frame(&[0, 0, 0, 13, 1, 2, 3]), Err(FrameError::Truncated));
    assert_eq!(frame_body_len(&[0, 0, 0, 12]), Ok(12));
    assert_eq!(frame_body_len(&u32_to_be_bytes(MAX_FRAME_SIZE)), Ok(MAX_FRAME_SIZE as usize));
    assert_eq!(
        frame_body_len(&u32_to_be_bytes(MAX_FRAME_SIZE + 1)),
        Err(FrameError::InvalidFrameLength)
    );
    assert_eq!(split_frame_body(&[1, 2, 3]), Err(FrameError::Truncated));
    let (nonce, ct) = split_frame_body(&[5u8; 14]).unwrap();
    assert_eq!(nonce, [5u8; 12]);
    assert_eq!(ct, vec![5, 5]);
}

#[test]
fn big_endian_conversions() {
    assert_eq!(u32_to_be_bytes(0x0102_0304), [1, 2, 3, 4]);
    assert_eq!(u32_from_be_bytes(&[0xde, 0xad, 0xbe, 0xef]), 0xdead_beef);
    assert_eq!(u32_to_be_bytes(15), 15u32.to_be_bytes());
}
