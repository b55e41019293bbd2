//! Length-prefixed wire framing.
//!
//! A frame is a 4-byte big-endian length prefix followed by exactly that
//! many payload bytes. A declared length over 10 MiB is rejected before the
//! body would be read.

use vstd::prelude::*;
use vstd::slice::{slice_index_get, slice_subrange, slice_to_vec};

verus! {

/// Largest payload a frame may declare, in bytes (10 MiB).
pub const MAX_FRAME_LEN: u32 = 10485760;

/// Why a buffer failed to decode as a single frame.
#[derive(Clone, Copy, Debug, PartialEq, Eq, Structural)]
pub enum FrameError {
    /// Fewer than four bytes: no complete length prefix.
    NoHeader,
    /// The prefix declares a length over `MAX_FRAME_LEN`.
    TooLarge,
    /// The buffer does not hold exactly the declared number of payload bytes.
    WrongLength,
}

/// The four-byte big-endian encoding of a 32-bit length.
pub open spec fn spec_len_prefix(n: u32) -> Seq<u8> {
    seq![
        (n >> 24) as u8,
        (n >> 16) as u8,
        (n >> 8) as u8,
        n as u8,
    ]
}

/// The 32-bit length read back from four big-endian bytes.
pub open spec fn spec_len_of_prefix(b0: u8, b1: u8, b2: u8, b3: u8) -> u32 {
    (((b0 as u32) << 24) | ((b1 as u32) << 16) | ((b2 as u32) << 8) | (b3 as u32)) as u32
}

/// A whole frame: the length prefix, then the payload itself.
pub open spec fn spec_encode_frame(payload: Seq<u8>) -> Seq<u8> {
    spec_len_prefix(payload.len() as u32) + payload
}

/// The declared payload length of a buffer with at least four bytes.
pub open spec fn spec_declared_len(buf: Seq<u8>) -> u32
    recommends
        buf.len() >= 4,
{
    spec_len_of_prefix(buf[0], buf[1], buf[2], buf[3])
}

/// What decoding a buffer as a single frame yields.
pub open spec fn spec_decode_frame(buf: Seq<u8>) -> Result<Seq<u8>, FrameError> {
    if buf.len() < 4 {
        Err(FrameError::NoHeader)
    } else if spec_declared_len(buf) > MAX_FRAME_LEN {
        Err(FrameError::TooLarge)
    } else if buf.len() != 4 + spec_declared_len(buf) {
        Err(FrameError::WrongLength)
    } else {
        Ok(buf.subrange(4, buf.len() as int))
    }
}

/// Reassembling four big-endian bytes gives back the value they encode.
proof fn lemma_prefix_roundtrip(n: u32)
    ensures
        spec_len_of_prefix(
            (n >> 24) as u8,
            (n >> 16) as u8,
            (n >> 8) as u8,
            n as u8,
        ) == n,
{
    assert((((((n >> 24) as u8) as u32) << 24) | ((((n >> 16) as u8) as u32) << 16) | ((((n
        >> 8) as u8) as u32) << 8) | ((n as u8) as u32)) == n) by (bit_vector);
}

/// Framing round trip: a frame built from any payload within the size bound
/// decodes back to exactly that payload.
pub proof fn lemma_frame_roundtrip(payload: Seq<u8>)
    requires
        payload.len() <= MAX_FRAME_LEN,
    ensures
        spec_decode_frame(spec_encode_frame(payload)) == Ok::<Seq<u8>, FrameError>(payload),
{
    let n = payload.len() as u32;
    let buf = spec_encode_frame(payload);
    lemma_prefix_roundtrip(n);
    assert(buf.len() == 4 + payload.len());
    assert(spec_declared_len(buf) == n);
    assert(buf.subrange(4, buf.len() as int) =~= payload);
}

/// A declared length over the bound is rejected whatever follows the prefix.
pub proof fn lemma_oversize_rejected(buf: Seq<u8>)
    requires
        buf.len() >= 4,
        spec_declared_len(buf) > MAX_FRAME_LEN,
    ensures
        spec_decode_frame(buf) == Err::<Seq<u8>, FrameError>(FrameError::TooLarge),
{
}

/// Builds the frame for a payload: length prefix, then the bytes themselves.
/// Refuses a payload over the size bound.
pub fn encode_frame(payload: &[u8]) -> (r: Option<Vec<u8>>)
    ensures
        r is Some <==> payload@.len() <= MAX_FRAME_LEN,
        r is Some ==> r.unwrap()@ == spec_encode_frame(payload@),
{
    if payload.len() > MAX_FRAME_LEN as usize {
        return None;
    }
    let n: u32 = payload.len() as u32;
    let mut out: Vec<u8> = Vec::new();
    out.push((n >> 24) as u8);
    out.push((n >> 16) as u8);
    out.push((n >> 8) as u8);
    out.push(n as u8);
    assert(out@ =~= spec_len_prefix(n));
    out.extend_from_slice(payload);
    assert(out@ =~= spec_len_prefix(payload@.len() as u32) + payload@);
    Some(out)
}

/// Reads the declared payload length from a four-byte prefix.
pub fn declared_len(header: &[u8]) -> (r: u32)
    requires
        header@.len() == 4,
    ensures
        r == spec_declared_len(header@),
{
    let b0 = *slice_index_get(header, 0);
    let b1 = *slice_index_get(header, 1);
    let b2 = *slice_index_get(header, 2);
    let b3 = *slice_index_get(header, 3);
    ((b0 as u32) << 24) | ((b1 as u32) << 16) | ((b2 as u32) << 8) | (b3 as u32)
}

/// Decodes a buffer holding exactly one frame, returning its payload.
/// Fails without touching the body when the prefix declares too large a
/// length, and when the buffer is not exactly one whole frame.
pub fn decode_frame(buf: &[u8]) -> (r: Result<Vec<u8>, FrameError>)
    ensures
        r matches Ok(p) ==> spec_decode_frame(buf@) == Ok::<Seq<u8>, FrameError>(p@),
        r matches Err(e) ==> spec_decode_frame(buf@) == Err::<Seq<u8>, FrameError>(e),
{
    if buf.len() < 4 {
        return Err(FrameError::NoHeader);
    }
    let header = slice_subrange(buf, 0, 4);
    let n = declared_len(header);
    if n > MAX_FRAME_LEN {
        return Err(FrameError::TooLarge);
    }
    if buf.len() - 4 != n as usize {
        return Err(FrameError::WrongLength);
    }
    let payload = slice_subrange(buf, 4, buf.len());
    Ok(slice_to_vec(payload))
}

} // verus!
