//! Length-prefixed framing: every message on the wire is a four-byte
//! big-endian length followed by that many payload bytes.

use vstd::prelude::*;

verus! {

/// Number of bytes in the length prefix of a frame.
pub const HEADER_LEN: usize = 4;

/// The four prefix bytes that stand for `len`, most significant first.
pub open spec fn header_bytes(len: u32) -> Seq<u8> {
    seq![
        (len / 0x100_0000) as u8,
        (len / 0x1_0000 % 0x100) as u8,
        (len / 0x100 % 0x100) as u8,
        (len % 0x100) as u8,
    ]
}

/// The length that four prefix bytes stand for.
pub open spec fn header_value(bytes: Seq<u8>) -> int
    recommends
        bytes.len() == 4,
{
    bytes[0] * 0x100_0000 + bytes[1] * 0x1_0000 + bytes[2] * 0x100 + bytes[3]
}

/// The largest payload that a prefix can announce, in bytes.
pub const MAX_PAYLOAD_LEN: u32 = u32::MAX;

/// Whether a prefix can announce a payload of this length.
pub open spec fn fits_frame(len: nat) -> bool {
    len <= MAX_PAYLOAD_LEN
}

/// The frame of a payload: the prefix that announces its length, then the
/// payload itself.
pub open spec fn frame_of(payload: Seq<u8>) -> Seq<u8>
    recommends
        fits_frame(payload.len()),
{
    header_bytes(payload.len() as u32) + payload
}

/// Whether `bytes` is exactly one frame: a prefix and as many bytes as it announces.
pub open spec fn is_frame(bytes: Seq<u8>) -> bool {
    bytes.len() >= 4 && header_value(bytes.subrange(0, 4)) == bytes.len() - 4
}

/// The payload of a frame: everything after the prefix.
pub open spec fn frame_payload(bytes: Seq<u8>) -> Seq<u8>
    recommends
        is_frame(bytes),
{
    bytes.subrange(4, bytes.len() as int)
}

/// Writes `len` as a four-byte big-endian prefix.
pub fn encode_header(len: u32) -> (bytes: [u8; 4])
    ensures
        bytes@ == header_bytes(len),
{
    let b0: u8 = (len >> 24) as u8;
    let b1: u8 = ((len >> 16) & 0xff) as u8;
    let b2: u8 = ((len >> 8) & 0xff) as u8;
    let b3: u8 = (len & 0xff) as u8;
    assert(len >> 24 == len / 0x100_0000) by (bit_vector);
    assert((len >> 16) & 0xff == len / 0x1_0000 % 0x100) by (bit_vector);
    assert((len >> 8) & 0xff == len / 0x100 % 0x100) by (bit_vector);
    assert(len & 0xff == len % 0x100) by (bit_vector);
    let bytes: [u8; 4] = [b0, b1, b2, b3];
    assert(bytes@ =~= header_bytes(len));
    bytes
}

/// Reads a four-byte big-endian prefix back into the length it stands for.
pub fn decode_header(bytes: [u8; 4]) -> (len: u32)
    ensures
        len == header_value(bytes@),
{
    let b0: u32 = bytes[0] as u32;
    let b1: u32 = bytes[1] as u32;
    let b2: u32 = bytes[2] as u32;
    let b3: u32 = bytes[3] as u32;
    b0 * 0x100_0000 + b1 * 0x1_0000 + b2 * 0x100 + b3
}

/// Whether a prefix can announce a payload of this length.
pub fn fits(len: usize) -> (b: bool)
    ensures
        b == fits_frame(len as nat),
{
    len as u64 <= MAX_PAYLOAD_LEN as u64
}

/// Frames a payload: the prefix for its length, then the payload unchanged.
///
/// A payload of 2^32 bytes or more cannot be announced by a four-byte
/// prefix, and is not taken.
pub fn encode(payload: &[u8]) -> (frame: Vec<u8>)
    requires
        fits_frame(payload@.len()),
    ensures
        frame@ == frame_of(payload@),
{
    let len: u32 = payload.len() as u32;
    let header: [u8; 4] = encode_header(len);
    let mut frame: Vec<u8> = Vec::new();
    frame.push(header[0]);
    frame.push(header[1]);
    frame.push(header[2]);
    frame.push(header[3]);
    frame.extend_from_slice(payload);
    assert(frame@ =~= frame_of(payload@));
    frame
}

/// Takes a complete frame apart: the payload if `frame` is a prefix followed
/// by exactly the announced number of bytes, nothing otherwise.
pub fn decode(frame: &[u8]) -> (payload: Option<Vec<u8>>)
    ensures
        payload is Some <==> is_frame(frame@),
        payload matches Some(p) ==> p@ == frame_payload(frame@),
{
    if frame.len() < 4 {
        return None;
    }
    let header: [u8; 4] = [frame[0], frame[1], frame[2], frame[3]];
    assert(header@ =~= frame@.subrange(0, 4));
    let announced: u32 = decode_header(header);
    let rest: usize = frame.len() - 4;
    if rest > 0xffff_ffff || (rest as u32) != announced {
        return None;
    }
    let mut payload: Vec<u8> = Vec::new();
    let mut i: usize = 4;
    while i < frame.len()
        invariant
            4 <= i <= frame.len(),
            payload@ == frame@.subrange(4, i as int),
        decreases frame.len() - i,
    {
        payload.push(frame[i]);
        i = i + 1;
        assert(payload@ =~= frame@.subrange(4, i as int));
    }
    Some(payload)
}

/// A length survives being written as a prefix and read back.
pub proof fn lemma_header_round_trip(len: u32)
    ensures
        header_bytes(len).len() == 4,
        header_value(header_bytes(len)) == len,
{
}

/// Four bytes survive being read as a length and written back.
pub proof fn lemma_header_bytes_round_trip(bytes: Seq<u8>)
    requires
        bytes.len() == 4,
    ensures
        0 <= header_value(bytes) <= u32::MAX,
        header_bytes(header_value(bytes) as u32) == bytes,
{
    let a: u32 = bytes[0] as u32;
    let b: u32 = bytes[1] as u32;
    let c: u32 = bytes[2] as u32;
    let d: u32 = bytes[3] as u32;
    let v: u32 = (a * 0x100_0000 + b * 0x1_0000 + c * 0x100 + d) as u32;
    assert(v / 0x100_0000 == a && v / 0x1_0000 % 0x100 == b && v / 0x100 % 0x100 == c && v % 0x100
        == d) by (bit_vector)
        requires
            a < 0x100,
            b < 0x100,
            c < 0x100,
            d < 0x100,
            v == a * 0x100_0000 + b * 0x1_0000 + c * 0x100 + d,
    ;
    assert(header_bytes(v) =~= bytes);
}

/// The prefix of a framed payload announces the payload's length, and the
/// payload follows it unchanged, for every payload that a prefix can announce.
pub proof fn lemma_frame_round_trip(payload: Seq<u8>)
    requires
        fits_frame(payload.len()),
    ensures
        frame_of(payload).len() == payload.len() + 4,
        header_value(frame_of(payload).subrange(0, 4)) == payload.len(),
        is_frame(frame_of(payload)),
        frame_payload(frame_of(payload)) == payload,
{
    let frame = frame_of(payload);
    let len = payload.len() as u32;
    lemma_header_round_trip(len);
    assert(frame.subrange(0, 4) =~= header_bytes(len));
    assert(frame_payload(frame) =~= payload);
}

/// Two payloads with the same frame are the same payload.
pub proof fn lemma_frame_injective(a: Seq<u8>, b: Seq<u8>)
    requires
        frame_of(a) == frame_of(b),
    ensures
        a == b,
{
    let fa = frame_of(a);
    let fb = frame_of(b);
    assert(fa.len() == a.len() + 4);
    assert(fb.len() == b.len() + 4);
    assert(a =~= fa.subrange(4, fa.len() as int));
    assert(b =~= fb.subrange(4, fb.len() as int));
}

} // verus!
