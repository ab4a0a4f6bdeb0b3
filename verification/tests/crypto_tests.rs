use freemouse::crypto::{
    compute_auth_token, derive_key, open_frame_body, seal_frame, seal_frame_with_nonce,
    server_session, session_keys, AUTH_MESSAGE,
};
use freemouse::frame::{decode_frame, frame_body_len, FrameError};
use hmac::{Hmac, Mac};
use sha2::Sha256;

#[test]
fn auth_token_deterministic() {
    let key = [42u8; 32];
    let t1 = compute_auth_token(&key);
    let t2 = compute_auth_token(&key);
    assert_eq!(t1, t2);
}

#[test]
fn auth_token_is_hmac_of_auth_message() {
    assert_eq!(&AUTH_MESSAGE, b"freemouse-auth-v1");
    let key = [3u8; 32];
    let mut mac = <Hmac<Sha256> as Mac>::new_from_slice(&key).unwrap();
    mac.update(b"freemouse-auth-v1");
    let expected: [u8; 32] = mac.finalize().into_bytes().into();
    assert_eq!(compute_auth_token(&key), expected);
    assert_ne!(compute_auth_token(&key), key);
    assert_ne!(compute_auth_token(&key), compute_auth_token(&[4u8; 32]));
}

#[test]
fn same_pin_and_salt_give_same_session() {
    let salt = [9u8; 16];
    let a = session_keys("123456", &salt).unwrap();
    let b = session_keys("123456", &salt).unwrap();
    assert_eq!(a.key, b.key);
    assert_eq!(a.auth_token, b.auth_token);
    assert_eq!(a.auth_token, compute_auth_token(&a.key));
    let c = session_keys("999999", &salt).unwrap();
    assert_ne!(a.key, c.key);
    let d = derive_key("123456", &[8u8; 16]).unwrap();
    assert_ne!(a.key, d);
    assert_ne!(&a.key[..6], b"123456");
}

#[test]
fn server_session_derives_from_its_salt() {
    let s = server_session("424242").unwrap();
    let k = derive_key("424242", &s.salt).unwrap();
    assert_eq!(s.keys.key, k);
}

#[test]
fn sealed_frame_opens_to_plaintext() {
    let key = [1u8; 32];
    let frame = seal_frame(&key, b"hello").unwrap();
    let (nonce, ct, used) = decode_frame(&frame).unwrap();
    assert_eq!(used, frame.len());
    assert_eq!(ct.len(), 5 + 16);
    assert_ne!(&ct[..5], b"hello");
    let header = [frame[0], frame[1], frame[2], frame[3]];
    let body_len = frame_body_len(&header).unwrap();
    assert_eq!(body_len, frame.len() - 4);
    let plain = open_frame_body(&key, &frame[4..]).unwrap();
    assert_eq!(plain, b"hello");
    let _ = nonce;
}

#[test]
fn wrong_key_or_tampering_fails() {
    let key = [1u8; 32];
    let frame = seal_frame_with_nonce(&key, &[0u8; 12], b"secret").unwrap();
    assert_eq!(open_frame_body(&[2u8; 32], &frame[4..]), Err(FrameError::Decryption));
    let mut tampered = frame.clone();
    let last = tampered.len() - 1;
    tampered[last] ^= 1;
    assert_eq!(open_frame_body(&key, &tampered[4..]), Err(FrameError::Decryption));
    assert_eq!(open_frame_body(&key, &[0u8; 5]), Err(FrameError::Truncated));
}

#[test]
fn sealing_with_fixed_nonce_is_deterministic() {
    let key = [5u8; 32];
    let a = seal_frame_with_nonce(&key, &[3u8; 12], b"x").unwrap();
    let b = seal_frame_with_nonce(&key, &[3u8; 12], b"x").unwrap();
    assert_eq!(a, b);
    assert_eq!(a.len(), 4 + 12 + 1 + 16);
    assert_eq!(&a[..4], &[0, 0, 0, 29]);
}
