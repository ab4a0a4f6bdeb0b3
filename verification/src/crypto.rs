//! Keys and encryption of the peer connection: the PIN-derived session key,
//! the authentication token, and sealing and opening frames with
//! ChaCha20-Poly1305.

use vstd::prelude::*;
use vstd::string::StringSliceAdditionalSpecFns;
use crate::frame::{
    encode_frame, lemma_frame_roundtrip, spec_decode_frame, spec_frame, split_frame_body, FrameError,
    HEADER_LEN, MAX_FRAME_SIZE, NONCE_LEN,
};
use chacha20poly1305::aead::rand_core::RngCore;
use chacha20poly1305::aead::{Aead, KeyInit, OsRng};
use chacha20poly1305::{ChaCha20Poly1305, Key, Nonce};
use hmac::{Hmac, Mac};
use sha2::Sha256;

verus! {

#[verifier::external_type_specification]
#[verifier::external_body]
pub struct ExAeadError(chacha20poly1305::Error);

#[verifier::external_type_specification]
#[verifier::external_body]
pub struct ExArgon2Error(argon2::Error);

/// The ASCII text `freemouse-auth-v1`, which both peers authenticate with the
/// session key.
pub const AUTH_MESSAGE: [u8; 17] = [
    0x66, 0x72, 0x65, 0x65, 0x6d, 0x6f, 0x75, 0x73, 0x65, 0x2d, 0x61, 0x75, 0x74, 0x68, 0x2d, 0x76,
    0x31,
];

/// The longest password Argon2 accepts.
pub const MAX_PASSWORD_LEN: usize = 0xFFFF_FFFF;

/// ChaCha20-Poly1305 encryption of `plaintext` under `key` and `nonce`, with no
/// associated data: the ciphertext followed by the 16-byte tag.
pub uninterp spec fn aead_seal(key: Seq<u8>, nonce: Seq<u8>, plaintext: Seq<u8>) -> Seq<u8>;

/// Argon2id with the default parameters (19 MiB, 2 passes, 1 lane) applied to
/// `password` and `salt`, producing 32 bytes.
pub uninterp spec fn argon2_key(password: Seq<u8>, salt: Seq<u8>) -> Seq<u8>;

/// HMAC-SHA256 of `message` under `key`.
pub uninterp spec fn hmac_sha256(key: Seq<u8>, message: Seq<u8>) -> Seq<u8>;

/// Whether ChaCha20-Poly1305 accepts a message of `len` bytes: fewer than
/// 2^32 - 1 blocks of 64 bytes.
pub open spec fn aead_accepts(len: nat) -> bool {
    len / 64 < 0xFFFF_FFFF
}

/// Whether `ciphertext` is the sealing of `plaintext` under `key` and `nonce`.
pub open spec fn seals_to(key: Seq<u8>, nonce: Seq<u8>, plaintext: Seq<u8>, ciphertext: Seq<u8>) -> bool {
    aead_accepts(plaintext.len()) && aead_seal(key, nonce, plaintext) == ciphertext
}

/// `chacha20poly1305::ChaCha20Poly1305::encrypt` (through `aead::Aead`), with
/// the key and nonce given as arrays and no associated data.
///
/// Claims, from the crate's source: the result is `Ok` exactly when the
/// message has fewer than 2^32 - 1 blocks of 64 bytes, and then it is the
/// encryption named `aead_seal`, 16 bytes (the tag) longer than the message.
#[verifier::external_body]
fn aead_encrypt(key: &[u8; 32], nonce: &[u8; 12], plaintext: &[u8]) -> (r: Result<Vec<u8>, chacha20poly1305::Error>)
    ensures
        aead_accepts(plaintext@.len()) ==> r.is_ok() && r.unwrap()@ == aead_seal(key@, nonce@, plaintext@),
        aead_accepts(plaintext@.len()) ==> r.is_ok() && r.unwrap()@.len() == plaintext@.len() + 16,
        !aead_accepts(plaintext@.len()) ==> r.is_err(),
{
    ChaCha20Poly1305::new(Key::from_slice(key)).encrypt(Nonce::from_slice(nonce), plaintext)
}

/// `chacha20poly1305::ChaCha20Poly1305::decrypt` (through `aead::Aead`), with
/// the key and nonce given as arrays and no associated data.
///
/// Claims: it returns `Ok(p)` only for a ciphertext that is the sealing of `p`
/// under the same key and nonce, and it does return `Ok(p)` for every such
/// sealing. Both follow from the source: decryption checks the Poly1305 tag of
/// the ciphertext and XORs the same keystream that encryption applies, both of
/// which are functions of the key, the nonce and the bytes alone. Nothing is
/// said of which forged ciphertexts fail, beyond that they fail.
#[verifier::external_body]
fn aead_decrypt(key: &[u8; 32], nonce: &[u8; 12], ciphertext: &[u8]) -> (r: Result<Vec<u8>, chacha20poly1305::Error>)
    ensures
        r.is_ok() ==> seals_to(key@, nonce@, r.unwrap()@, ciphertext@),
        forall|p: Seq<u8>| #[trigger] seals_to(key@, nonce@, p, ciphertext@) ==> r.is_ok() && r.unwrap()@ == p,
{
    ChaCha20Poly1305::new(Key::from_slice(key)).decrypt(Nonce::from_slice(nonce), ciphertext)
}

/// `rand_core::OsRng::try_fill_bytes` (re-exported by `chacha20poly1305::aead`)
/// filling `buf` from the operating system's random source. It does not
/// panic; it returns whether the source delivered. The bytes are random:
/// nothing is claimed of them but that the buffer keeps its length.
#[verifier::external_body]
pub(crate) fn os_random_fill(buf: &mut Vec<u8>) -> (ok: bool)
    ensures
        final(buf)@.len() == old(buf)@.len(),
{
    OsRng.try_fill_bytes(buf.as_mut_slice()).is_ok()
}

/// A buffer of `n` zero bytes.
pub(crate) fn zeroed(n: usize) -> (v: Vec<u8>)
    ensures
        v@.len() == n,
{
    let mut v: Vec<u8> = Vec::new();
    while v.len() < n
        invariant
            v@.len() <= n,
        decreases n - v@.len(),
    {
        v.push(0);
    }
    v
}

/// A nonce from the operating system's random source; `None` when the source
/// fails.
fn random_nonce() -> (nonce: Option<[u8; 12]>) {
    let mut b = zeroed(12);
    if !os_random_fill(&mut b) {
        return None;
    }
    Some([b[0], b[1], b[2], b[3], b[4], b[5], b[6], b[7], b[8], b[9], b[10], b[11]])
}

/// A salt from the operating system's random source; `None` when the source
/// fails.
fn random_salt() -> (salt: Option<[u8; 16]>) {
    let mut b = zeroed(16);
    if !os_random_fill(&mut b) {
        return None;
    }
    Some(
        [
            b[0], b[1], b[2], b[3], b[4], b[5], b[6], b[7], b[8], b[9], b[10], b[11], b[12], b[13],
            b[14], b[15],
        ],
    )
}

/// `argon2::Argon2::default().hash_password_into` with a 16-byte salt and a
/// 32-byte output.
///
/// Claims, from the crate's source: with these salt and output sizes the only
/// refusal is a password longer than `MAX_PASSWORD_LEN` bytes; otherwise the
/// output is the key named `argon2_key`.
#[verifier::external_body]
fn argon2_hash(password: &[u8], salt: &[u8; 16]) -> (r: Result<[u8; 32], argon2::Error>)
    ensures
        password@.len() <= MAX_PASSWORD_LEN ==> r.is_ok() && r.unwrap()@ == argon2_key(password@, salt@),
        password@.len() > MAX_PASSWORD_LEN ==> r.is_err(),
{
    let mut key = [0u8; 32];
    match argon2::Argon2::default().hash_password_into(password, salt, &mut key) {
        Ok(()) => Ok(key),
        Err(e) => Err(e),
    }
}

/// `hmac::Hmac<sha2::Sha256>`: `Mac::new_from_slice`, `update` and `finalize`.
/// The source accepts keys of any length, so the `expect` never fires.
/// Claims that the tag is the value named `hmac_sha256`.
#[verifier::external_body]
fn hmac_sha256_tag(key: &[u8], message: &[u8]) -> (tag: [u8; 32])
    ensures
        tag@ == hmac_sha256(key@, message@),
{
    let mut mac = <Hmac<Sha256> as Mac>::new_from_slice(key).expect("HMAC accepts any key length");
    mac.update(message);
    mac.finalize().into_bytes().into()
}

/// The token a client proves its PIN with: HMAC-SHA256 of `AUTH_MESSAGE` under
/// the session key.
pub open spec fn spec_auth_token(key: Seq<u8>) -> Seq<u8> {
    hmac_sha256(key, AUTH_MESSAGE@)
}

/// Computes the authentication token for a session key.
pub fn compute_auth_token(key: &[u8; 32]) -> (token: [u8; 32])
    ensures
        token@ == spec_auth_token(key@),
{
    hmac_sha256_tag(key.as_slice(), AUTH_MESSAGE.as_slice())
}

/// Why a session key could not be derived.
#[derive(Clone, Copy, Debug, PartialEq, Eq, Structural)]
pub enum KeyError {
    /// The PIN is longer than Argon2 accepts.
    PinTooLong,
    /// No random salt could be drawn.
    RandomUnavailable,
}

/// Derives the 32-byte session key from the PIN and the server's salt.
pub fn derive_key(pin: &str, salt: &[u8; 16]) -> (r: Result<[u8; 32], KeyError>)
    ensures
        pin.spec_bytes().len() <= MAX_PASSWORD_LEN ==> (r matches Ok(k) && k@ == argon2_key(
            pin.spec_bytes(),
            salt@,
        )),
        pin.spec_bytes().len() > MAX_PASSWORD_LEN ==> r == Err::<[u8; 32], KeyError>(
            KeyError::PinTooLong,
        ),
{
    match argon2_hash(pin.as_bytes(), salt) {
        Ok(key) => Ok(key),
        Err(_) => Err(KeyError::PinTooLong),
    }
}

/// The keys of one authenticated session: the cipher key both sides derive
/// from the PIN, and the token the client must present.
#[derive(Clone, Copy, Debug)]
pub struct SessionKeys {
    pub key: [u8; 32],
    pub auth_token: [u8; 32],
}

/// Derives the session keys from the PIN and the server's salt.
pub fn session_keys(pin: &str, salt: &[u8; 16]) -> (r: Result<SessionKeys, KeyError>)
    ensures
        pin.spec_bytes().len() <= MAX_PASSWORD_LEN ==> (r matches Ok(s) && s.key@ == argon2_key(
            pin.spec_bytes(),
            salt@,
        ) && s.auth_token@ == spec_auth_token(s.key@)),
        pin.spec_bytes().len() > MAX_PASSWORD_LEN ==> r == Err::<SessionKeys, KeyError>(
            KeyError::PinTooLong,
        ),
{
    let key = derive_key(pin, salt)?;
    let auth_token = compute_auth_token(&key);
    Ok(SessionKeys { key, auth_token })
}

/// The server's side of a new session: the salt it sends to the client and
/// the keys it derives with it.
#[derive(Clone, Copy, Debug)]
pub struct ServerSession {
    pub salt: [u8; 16],
    pub keys: SessionKeys,
}

/// Draws a random salt and derives the server's session keys from the PIN.
pub fn server_session(pin: &str) -> (r: Result<ServerSession, KeyError>)
    ensures
        r matches Ok(s) ==> s.keys.key@ == argon2_key(pin.spec_bytes(), s.salt@)
            && s.keys.auth_token@ == spec_auth_token(s.keys.key@),
        r matches Err(e) ==> e == KeyError::RandomUnavailable || (e == KeyError::PinTooLong
            && pin.spec_bytes().len() > MAX_PASSWORD_LEN),
{
    let salt = match random_salt() {
        Some(salt) => salt,
        None => return Err(KeyError::RandomUnavailable),
    };
    let keys = session_keys(pin, &salt)?;
    Ok(ServerSession { salt, keys })
}

/// Law: two peers that know the same PIN and use the same salt hold the same
/// session key and the same authentication token.
pub proof fn lemma_same_pin_same_session(pin: Seq<u8>, salt: Seq<u8>, a: SessionKeys, b: SessionKeys)
    requires
        a.key@ == argon2_key(pin, salt),
        a.auth_token@ == spec_auth_token(a.key@),
        b.key@ == argon2_key(pin, salt),
        b.auth_token@ == spec_auth_token(b.key@),
    ensures
        a.key@ == b.key@,
        a.auth_token@ == b.auth_token@,
{
}

/// Frames `plaintext` sealed under `key` with the given nonce.
pub fn seal_frame_with_nonce(key: &[u8; 32], nonce: &[u8; 12], plaintext: &[u8]) -> (r: Result<
    Vec<u8>,
    FrameError,
>)
    ensures
        aead_accepts(plaintext@.len()) ==> (r matches Ok(frame) && frame@ == spec_frame(
            nonce@,
            aead_seal(key@, nonce@, plaintext@),
        ) && aead_seal(key@, nonce@, plaintext@).len() == plaintext@.len() + 16),
        !aead_accepts(plaintext@.len()) ==> r == Err::<Vec<u8>, FrameError>(
            FrameError::Encryption,
        ),
{
    match aead_encrypt(key, nonce, plaintext) {
        Ok(ciphertext) => Ok(encode_frame(nonce, ciphertext.as_slice())),
        Err(_) => Err(FrameError::Encryption),
    }
}

/// Seals `plaintext` under `key` with a fresh random nonce and frames it for
/// the wire. Fails with `Encryption` when no random nonce can be drawn or the
/// cipher refuses the message.
pub fn seal_frame(key: &[u8; 32], plaintext: &[u8]) -> (r: Result<Vec<u8>, FrameError>)
    ensures
        r matches Ok(frame) ==> exists|nonce: Seq<u8>|
            nonce.len() == NONCE_LEN && #[trigger] spec_frame(
                nonce,
                aead_seal(key@, nonce, plaintext@),
            ) == frame@,
        r matches Ok(frame) ==> frame@.len() == HEADER_LEN + NONCE_LEN + plaintext@.len() + 16,
        !aead_accepts(plaintext@.len()) ==> r == Err::<Vec<u8>, FrameError>(
            FrameError::Encryption,
        ),
        r matches Err(e) ==> e == FrameError::Encryption,
{
    match random_nonce() {
        Some(nonce) => seal_frame_with_nonce(key, &nonce, plaintext),
        None => Err(FrameError::Encryption),
    }
}

/// Whether the bytes that follow a length field open to `plaintext` under
/// `key`: a nonce followed by the sealing of `plaintext` under it.
pub open spec fn body_opens_to(key: Seq<u8>, body: Seq<u8>, plaintext: Seq<u8>) -> bool {
    body.len() >= NONCE_LEN && seals_to(
        key,
        body.subrange(0, NONCE_LEN as int),
        plaintext,
        body.subrange(NONCE_LEN as int, body.len() as int),
    )
}

/// Opens the bytes that follow a length field (nonce, then ciphertext) under
/// `key`.
pub fn open_frame_body(key: &[u8; 32], body: &[u8]) -> (r: Result<Vec<u8>, FrameError>)
    ensures
        body@.len() < NONCE_LEN ==> r == Err::<Vec<u8>, FrameError>(FrameError::Truncated),
        r matches Ok(p) ==> body_opens_to(key@, body@, p@),
        r matches Err(e) ==> (e == FrameError::Truncated || e == FrameError::Decryption),
        body@.len() >= NONCE_LEN && r is Err ==> r == Err::<Vec<u8>, FrameError>(
            FrameError::Decryption,
        ),
        forall|p: Seq<u8>| #[trigger]
            body_opens_to(key@, body@, p) ==> (r matches Ok(q) && q@ == p),
{
    let (nonce, ciphertext) = split_frame_body(body)?;
    match aead_decrypt(key, &nonce, ciphertext.as_slice()) {
        Ok(plaintext) => Ok(plaintext),
        Err(_) => Err(FrameError::Decryption),
    }
}

/// Law: what a receiver holding the same key reads is what the sender sent.
/// A frame sealed under `key` and `nonce` is read back, from any stream that
/// starts with it, as that nonce and ciphertext, and the bytes after its length
/// field open under `key` to the sender's plaintext (so `open_frame_body`
/// returns exactly that plaintext). This holds for every frame within the
/// receiver's size limit.
pub proof fn lemma_receiver_reads_what_sender_sent(
    key: Seq<u8>,
    nonce: Seq<u8>,
    plaintext: Seq<u8>,
    rest: Seq<u8>,
)
    requires
        nonce.len() == NONCE_LEN,
        aead_accepts(plaintext.len()),
        NONCE_LEN + aead_seal(key, nonce, plaintext).len() <= MAX_FRAME_SIZE,
    ensures
        ({
            let ciphertext = aead_seal(key, nonce, plaintext);
            let bytes = spec_frame(nonce, ciphertext) + rest;
            let used = HEADER_LEN + NONCE_LEN + ciphertext.len();
            &&& spec_decode_frame(bytes) == Ok::<(Seq<u8>, Seq<u8>, nat), FrameError>(
                (nonce, ciphertext, used as nat),
            )
            &&& body_opens_to(key, bytes.subrange(HEADER_LEN as int, used as int), plaintext)
        }),
{
    let ciphertext = aead_seal(key, nonce, plaintext);
    let bytes = spec_frame(nonce, ciphertext) + rest;
    let used = HEADER_LEN + NONCE_LEN + ciphertext.len();
    lemma_frame_roundtrip(nonce, ciphertext, rest);
    let body = bytes.subrange(HEADER_LEN as int, used as int);
    assert(body.subrange(0, NONCE_LEN as int) =~= nonce);
    assert(body.subrange(NONCE_LEN as int, body.len() as int) =~= ciphertext);
}

} // verus!
