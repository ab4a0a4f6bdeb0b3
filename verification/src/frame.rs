//! Wire framing of the encrypted connection. A frame is a 4-byte big-endian
//! length, then a 12-byte nonce, then the ciphertext; the length counts the
//! nonce and the ciphertext.

use vstd::prelude::*;

verus! {

/// Bytes of a ChaCha20-Poly1305 nonce.
pub const NONCE_LEN: usize = 12;

/// Bytes of the length field.
pub const HEADER_LEN: usize = 4;

/// The largest length field a receiver accepts (10 MiB).
pub const MAX_FRAME_SIZE: u32 = 10485760;

/// Why a frame could not be built, read or opened.
#[derive(Clone, Copy, Debug, PartialEq, Eq, Structural)]
pub enum FrameError {
    /// The length field is below the nonce size or above `MAX_FRAME_SIZE`.
    InvalidFrameLength,
    /// The bytes end before the frame does.
    Truncated,
    /// The cipher refused the plaintext, or no random nonce could be drawn.
    Encryption,
    /// The ciphertext failed authentication under the key and nonce.
    Decryption,
}

/// The big-endian bytes of `n`.
pub open spec fn be_bytes(n: u32) -> Seq<u8> {
    seq![
        (n / 0x100_0000) as u8,
        ((n / 0x1_0000) % 0x100) as u8,
        ((n / 0x100) % 0x100) as u8,
        (n % 0x100) as u8,
    ]
}

/// The number whose big-endian bytes are the first four of `b`.
pub open spec fn be_value(b: Seq<u8>) -> nat {
    (b[0] as nat) * 0x100_0000 + (b[1] as nat) * 0x1_0000 + (b[2] as nat) * 0x100 + (b[3] as nat)
}

/// The length field written for a ciphertext of `len` bytes: the nonce and
/// the ciphertext together, reduced modulo 2^32 as a 32-bit field holds it.
pub open spec fn length_field(len: nat) -> u32 {
    ((NONCE_LEN + len) % 0x1_0000_0000) as u32
}

/// The frame that carries `ciphertext` under `nonce`.
pub open spec fn spec_frame(nonce: Seq<u8>, ciphertext: Seq<u8>) -> Seq<u8> {
    be_bytes(length_field(ciphertext.len())) + nonce + ciphertext
}

/// Whether a receiver accepts a length field of `n`.
pub open spec fn length_accepted(n: nat) -> bool {
    NONCE_LEN <= n <= MAX_FRAME_SIZE
}

/// What a receiver makes of the bytes at the start of a stream: the nonce, the
/// ciphertext and the number of bytes the frame takes, or why it fails.
pub open spec fn spec_decode_frame(bytes: Seq<u8>) -> Result<(Seq<u8>, Seq<u8>, nat), FrameError> {
    if bytes.len() < HEADER_LEN {
        Err(FrameError::Truncated)
    } else if !length_accepted(be_value(bytes)) {
        Err(FrameError::InvalidFrameLength)
    } else if bytes.len() < HEADER_LEN + be_value(bytes) {
        Err(FrameError::Truncated)
    } else {
        let end = (HEADER_LEN + be_value(bytes)) as nat;
        Ok(
            (
                bytes.subrange(HEADER_LEN as int, (HEADER_LEN + NONCE_LEN) as int),
                bytes.subrange((HEADER_LEN + NONCE_LEN) as int, end as int),
                end,
            ),
        )
    }
}

proof fn lemma_be_roundtrip(n: u32)
    ensures
        be_value(be_bytes(n)) == n,
{
    assert(n == (n / 0x100_0000) * 0x100_0000 + ((n / 0x1_0000) % 0x100) * 0x1_0000 + ((n / 0x100)
        % 0x100) * 0x100 + n % 0x100) by (nonlinear_arith);
}

fn append_bytes(v: &mut Vec<u8>, s: &[u8])
    ensures
        final(v)@ == old(v)@ + s@,
{
    let mut i: usize = 0;
    while i < s.len()
        invariant
            0 <= i <= s.len(),
            v@ == old(v)@ + s@.subrange(0, i as int),
        decreases s.len() - i,
    {
        v.push(s[i]);
        i = i + 1;
        assert(s@.subrange(0, i as int) == s@.subrange(0, i - 1) + seq![s@[i - 1]]);
    }
    assert(s@.subrange(0, s.len() as int) == s@);
}

fn copy_range(s: &[u8], from: usize, to: usize) -> (v: Vec<u8>)
    requires
        from <= to <= s.len(),
    ensures
        v@ == s@.subrange(from as int, to as int),
{
    let mut v: Vec<u8> = Vec::new();
    let mut i: usize = from;
    while i < to
        invariant
            from <= i <= to <= s.len(),
            v@ == s@.subrange(from as int, i as int),
        decreases to - i,
    {
        v.push(s[i]);
        i = i + 1;
        assert(s@.subrange(from as int, i as int) == s@.subrange(from as int, i - 1) + seq![
            s@[i - 1],
        ]);
    }
    v
}

/// The big-endian bytes of `n`.
pub fn u32_to_be_bytes(n: u32) -> (b: [u8; 4])
    ensures
        b@ == be_bytes(n),
{
    assert((n >> 24u32) as u8 == (n / 0x100_0000) as u8) by (bit_vector);
    assert((n >> 16u32) as u8 == ((n / 0x1_0000) % 0x100) as u8) by (bit_vector);
    assert((n >> 8u32) as u8 == ((n / 0x100) % 0x100) as u8) by (bit_vector);
    assert(n as u8 == (n % 0x100) as u8) by (bit_vector);
    let b = [(n >> 24u32) as u8, (n >> 16u32) as u8, (n >> 8u32) as u8, n as u8];
    assert(b@ == be_bytes(n));
    b
}

/// The number whose big-endian bytes are `b`.
pub fn u32_from_be_bytes(b: &[u8; 4]) -> (n: u32)
    ensures
        n == be_value(b@),
{
    b[0] as u32 * 0x100_0000 + b[1] as u32 * 0x1_0000 + b[2] as u32 * 0x100 + b[3] as u32
}

/// Builds the frame that carries `ciphertext` under `nonce`.
pub fn encode_frame(nonce: &[u8; 12], ciphertext: &[u8]) -> (frame: Vec<u8>)
    ensures
        frame@ == spec_frame(nonce@, ciphertext@),
{
    let len = ((12u128 + ciphertext.len() as u128) % 0x1_0000_0000u128) as u32;
    let header = u32_to_be_bytes(len);
    let mut frame: Vec<u8> = Vec::new();
    append_bytes(&mut frame, header.as_slice());
    append_bytes(&mut frame, nonce.as_slice());
    append_bytes(&mut frame, ciphertext);
    frame
}

/// Reads the length field of a frame and returns how many bytes (nonce and
/// ciphertext) follow it, or `InvalidFrameLength` if a receiver refuses it.
pub fn frame_body_len(header: &[u8; 4]) -> (r: Result<usize, FrameError>)
    ensures
        r == if length_accepted(be_value(header@)) {
            Ok::<usize, FrameError>(be_value(header@) as usize)
        } else {
            Err(FrameError::InvalidFrameLength)
        },
{
    let n = u32_from_be_bytes(header);
    if 12 <= n && n <= MAX_FRAME_SIZE {
        Ok(n as usize)
    } else {
        Err(FrameError::InvalidFrameLength)
    }
}

/// Splits the bytes that follow a length field into the nonce and the
/// ciphertext.
pub fn split_frame_body(body: &[u8]) -> (r: Result<([u8; 12], Vec<u8>), FrameError>)
    ensures
        body.len() < NONCE_LEN ==> r == Err::<([u8; 12], Vec<u8>), FrameError>(
            FrameError::Truncated,
        ),
        body.len() >= NONCE_LEN ==> (r matches Ok((nonce, ciphertext)) && nonce@
            == body@.subrange(0, NONCE_LEN as int) && ciphertext@ == body@.subrange(
            NONCE_LEN as int,
            body.len() as int,
        )),
{
    if body.len() < 12 {
        return Err(FrameError::Truncated);
    }
    let nonce = [
        body[0],
        body[1],
        body[2],
        body[3],
        body[4],
        body[5],
        body[6],
        body[7],
        body[8],
        body[9],
        body[10],
        body[11],
    ];
    assert(nonce@ == body@.subrange(0, 12));
    let ciphertext = copy_range(body, 12, body.len());
    Ok((nonce, ciphertext))
}

/// Reads one frame from the start of `bytes`: its nonce, its ciphertext and the
/// number of bytes it takes.
pub fn decode_frame(bytes: &[u8]) -> (r: Result<([u8; 12], Vec<u8>, usize), FrameError>)
    ensures
        match (r, spec_decode_frame(bytes@)) {
            (Ok((nonce, ciphertext, used)), Ok((n, c, u))) => nonce@ == n && ciphertext@ == c
                && used == u,
            (Err(e), Err(f)) => e == f,
            _ => false,
        },
{
    if bytes.len() < 4 {
        return Err(FrameError::Truncated);
    }
    let header = [bytes[0], bytes[1], bytes[2], bytes[3]];
    assert(header@ =~= bytes@.subrange(0, 4));
    assert(be_value(header@) == be_value(bytes@));
    let body_len = match frame_body_len(&header) {
        Ok(n) => n,
        Err(e) => return Err(e),
    };
    if bytes.len() - 4 < body_len {
        return Err(FrameError::Truncated);
    }
    let end = 4 + body_len;
    let nonce = [
        bytes[4],
        bytes[5],
        bytes[6],
        bytes[7],
        bytes[8],
        bytes[9],
        bytes[10],
        bytes[11],
        bytes[12],
        bytes[13],
        bytes[14],
        bytes[15],
    ];
    assert(nonce@ == bytes@.subrange(4, 16));
    let ciphertext = copy_range(bytes, 16, end);
    Ok((nonce, ciphertext, end))
}

/// Law: a receiver reads back exactly what a sender framed, whatever follows
/// the frame in the stream, as long as the frame is within the size a receiver
/// accepts; a larger frame (whose length still fits the 32-bit field) is
/// refused for its length.
pub proof fn lemma_frame_roundtrip(nonce: Seq<u8>, ciphertext: Seq<u8>, rest: Seq<u8>)
    requires
        nonce.len() == NONCE_LEN,
    ensures
        NONCE_LEN + ciphertext.len() <= MAX_FRAME_SIZE ==> spec_decode_frame(
            spec_frame(nonce, ciphertext) + rest,
        ) == Ok::<(Seq<u8>, Seq<u8>, nat), FrameError>(
            (nonce, ciphertext, (HEADER_LEN + NONCE_LEN + ciphertext.len()) as nat),
        ),
        MAX_FRAME_SIZE < NONCE_LEN + ciphertext.len() < 0x1_0000_0000 ==> spec_decode_frame(
            spec_frame(nonce, ciphertext) + rest,
        ) == Err::<(Seq<u8>, Seq<u8>, nat), FrameError>(FrameError::InvalidFrameLength),
{
    let len = length_field(ciphertext.len());
    let bytes = spec_frame(nonce, ciphertext) + rest;
    lemma_be_roundtrip(len);
    assert(bytes.subrange(0, 4) == be_bytes(len));
    assert(be_value(bytes) == be_value(be_bytes(len)));
    if NONCE_LEN + ciphertext.len() < 0x1_0000_0000 {
        assert(len == NONCE_LEN + ciphertext.len());
    }
    if NONCE_LEN + ciphertext.len() <= MAX_FRAME_SIZE {
        assert(bytes.subrange(4, 16) =~= nonce);
        assert(bytes.subrange(16, (16 + ciphertext.len()) as int) =~= ciphertext);
    }
}

} // verus!
