//! Length-prefixed framing.
//!
//! Every message travels as a frame: four bytes that hold the payload
//! length as a little-endian `u32`, then the payload itself.

use vstd::prelude::*;

verus! {

/// Number of bytes in a frame header.
pub const FRAME_HEADER_LEN: usize = 4;

/// Largest payload the server accepts in one frame (16 MiB).
pub const MAX_FRAME_LEN: u32 = 16 * 1024 * 1024;

/// The four little-endian bytes of `n`.
pub open spec fn le_u32_bytes(n: u32) -> Seq<u8> {
    seq![
        (n % 256) as u8,
        ((n / 256) % 256) as u8,
        ((n / 65536) % 256) as u8,
        (n / 16777216) as u8,
    ]
}

/// The number whose little-endian bytes are the first four of `b`.
pub open spec fn le_u32_value(b: Seq<u8>) -> int {
    b[0] + 256 * b[1] + 65536 * b[2] + 16777216 * b[3]
}

/// The frame that carries `payload`: its length, truncated to 32 bits
/// as the sender's cast does, then the payload.
pub open spec fn spec_frame(payload: Seq<u8>) -> Seq<u8> {
    le_u32_bytes(payload.len() as u32) + payload
}

/// Whether the server accepts a frame announcing `n` payload bytes.
pub open spec fn frame_length_ok(n: int) -> bool {
    1 <= n <= MAX_FRAME_LEN
}

/// The header announcing a payload of `len` bytes.
pub fn frame_header(len: u32) -> (h: [u8; 4])
    ensures
        h@ == le_u32_bytes(len),
{
    let h = [
        (len % 256) as u8,
        ((len / 256) % 256) as u8,
        ((len / 65536) % 256) as u8,
        (len / 16777216) as u8,
    ];
    assert(h@ =~= le_u32_bytes(len));
    h
}

/// The payload length a header announces.
pub fn frame_length(header: [u8; 4]) -> (n: u32)
    ensures
        n == le_u32_value(header@),
{
    header[0] as u32 + header[1] as u32 * 256 + header[2] as u32 * 65536 + header[3] as u32
        * 16777216
}

/// The server's check of a received header: the announced length when
/// it is between 1 and [`MAX_FRAME_LEN`], else `Err` with the rejected
/// length.
pub fn check_frame_length(header: [u8; 4]) -> (r: Result<usize, u32>)
    ensures
        frame_length_ok(le_u32_value(header@)) ==> r == Ok::<usize, u32>(
            le_u32_value(header@) as usize,
        ),
        !frame_length_ok(le_u32_value(header@)) ==> r == Err::<usize, u32>(
            le_u32_value(header@) as u32,
        ),
{
    let len = frame_length(header);
    if len == 0 || len > MAX_FRAME_LEN {
        Err(len)
    } else {
        Ok(len as usize)
    }
}

/// The frame carrying `payload`: header then payload bytes.
pub fn encode_frame(payload: &[u8]) -> (f: Vec<u8>)
    ensures
        f@ == spec_frame(payload@),
{
    let header = frame_header(payload.len() as u32);
    let mut f: Vec<u8> = Vec::new();
    let mut i: usize = 0;
    while i < 4
        invariant
            i <= 4,
            f@ == header@.take(i as int),
        decreases 4 - i,
    {
        f.push(header[i]);
        i = i + 1;
        assert(f@ =~= header@.take(i as int));
    }
    let mut j: usize = 0;
    while j < payload.len()
        invariant
            j <= payload@.len(),
            f@ == header@ + payload@.take(j as int),
        decreases payload@.len() - j,
    {
        f.push(payload[j]);
        j = j + 1;
        assert(f@ =~= header@ + payload@.take(j as int));
    }
    assert(payload@.take(payload@.len() as int) =~= payload@);
    f
}

/// Reading back the header of a little-endian encoding gives the number
/// that was encoded.
pub proof fn lemma_header_roundtrip(n: u32)
    ensures
        le_u32_bytes(n).len() == 4,
        le_u32_value(le_u32_bytes(n)) == n,
{
}

/// A frame splits back into its payload: its first four bytes announce
/// the payload's length and the bytes after them are the payload, for
/// every payload whose length fits in a `u32`.
pub proof fn lemma_frame_roundtrip(payload: Seq<u8>)
    requires
        payload.len() <= u32::MAX,
    ensures
        spec_frame(payload).len() == 4 + payload.len(),
        le_u32_value(spec_frame(payload).take(4)) == payload.len(),
        spec_frame(payload).skip(4) == payload,
{
    lemma_header_roundtrip(payload.len() as u32);
    assert(spec_frame(payload).take(4) =~= le_u32_bytes(payload.len() as u32));
    assert(spec_frame(payload).skip(4) =~= payload);
}

/// The server accepts the header of every frame a sender builds for a
/// payload of 1 to [`MAX_FRAME_LEN`] bytes, and reads back its length.
pub proof fn lemma_sent_frames_accepted(payload: Seq<u8>)
    requires
        1 <= payload.len() <= MAX_FRAME_LEN,
    ensures
        frame_length_ok(le_u32_value(spec_frame(payload).take(4))),
        le_u32_value(spec_frame(payload).take(4)) == payload.len(),
{
    lemma_frame_roundtrip(payload);
}

} // verus!
