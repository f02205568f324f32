use vstd::prelude::*;
use crate::message::Msg;
use crate::wire::{
    ProtocolError, append_bytes, be32, copy_range, lemma_read32_be32, push_be32, read32,
    read_be32_at,
};

verus! {

/// Largest value that a frame's length prefix may declare.
pub const MAX_FRAME_LEN: u32 = 0x0100_0000;

/// In bulk-transfer mode, payloads longer than this are compressed.
pub const BULK_THRESHOLD: usize = 4096;

/// Header bit that marks a compressed body.
pub const COMPRESSED_FLAG: u32 = 0x8000_0000;

/// The bytes that `miniz_oxide::deflate::compress_to_vec` makes of `data`.
pub uninterp spec fn deflated(data: Seq<u8>) -> Seq<u8>;

/// What `miniz_oxide::inflate::decompress_to_vec_with_limit` makes of `data`
/// with an output limit of `limit` bytes; None where it fails.
pub uninterp spec fn inflated(data: Seq<u8>, limit: nat) -> Option<Seq<u8>>;

/// Relies on miniz_oxide::deflate::compress_to_vec: its output is a raw
/// deflate stream that decompresses to the input, which then fits a limit
/// of one byte more than its length.
#[verifier::external_body]
fn deflate(data: &[u8]) -> (r: Vec<u8>)
    ensures
        r@ == deflated(data@),
        inflated(r@, (data@.len() + 1) as nat) == Some(data@),
{
    miniz_oxide::deflate::compress_to_vec(data, 6)
}

/// Relies on miniz_oxide::inflate::decompress_to_vec_with_limit: the
/// decompressed bytes, or None where the stream is corrupt or its output
/// would not fit in `limit` bytes.
#[verifier::external_body]
fn inflate(data: &[u8], limit: usize) -> (r: Option<Vec<u8>>)
    ensures
        match r {
            Some(v) => inflated(data@, limit as nat) == Some(v@),
            None => inflated(data@, limit as nat) is None,
        },
{
    match miniz_oxide::inflate::decompress_to_vec_with_limit(data, limit) {
        Ok(v) => Some(v),
        Err(_) => None,
    }
}

/// A frame: the length of what follows the prefix, the header (tag, with
/// the compression bit), then the body.
pub open spec fn frame_of(header: u32, body: Seq<u8>) -> Seq<u8> {
    be32((body.len() + 4) as u32) + be32(header) + body
}

/// Whether a payload of `n` bytes is sent compressed.
pub open spec fn compresses(bulk: bool, n: int) -> bool {
    bulk && n > BULK_THRESHOLD
}

pub open spec fn frame_header(tag: u32, payload: Seq<u8>, bulk: bool) -> u32 {
    if compresses(bulk, payload.len() as int) {
        tag | COMPRESSED_FLAG
    } else {
        tag
    }
}

/// The body of a frame: the payload, or in bulk mode above the threshold
/// its uncompressed length followed by its deflate stream.
pub open spec fn frame_body(payload: Seq<u8>, bulk: bool) -> Seq<u8> {
    if compresses(bulk, payload.len() as int) {
        be32(payload.len() as u32) + deflated(payload)
    } else {
        payload
    }
}

/// What decoding the frame at the start of `s` gives: tag, payload and the
/// number of bytes the frame takes; `Incomplete` while bytes are missing;
/// `MalformedFrame` for a length out of range or a corrupt compressed body.
pub open spec fn decode_frame(s: Seq<u8>) -> Result<(u32, Seq<u8>, int), ProtocolError> {
    if s.len() < 4 {
        Err(ProtocolError::Incomplete)
    } else {
        let n = read32(s);
        if n < 4 || n > MAX_FRAME_LEN {
            Err(ProtocolError::MalformedFrame)
        } else if s.len() < 4 + n {
            Err(ProtocolError::Incomplete)
        } else {
            let header = read32(s.skip(4));
            let body = s.subrange(8, 4 + n);
            if header & COMPRESSED_FLAG == 0 {
                Ok((header, body, 4 + n))
            } else if body.len() < 4 || read32(body) > MAX_FRAME_LEN {
                Err(ProtocolError::MalformedFrame)
            } else {
                let m = read32(body);
                match inflated(body.skip(4), (m + 1) as nat) {
                    Some(p) => if p.len() == m {
                        Ok((header & !COMPRESSED_FLAG, p, 4 + n))
                    } else {
                        Err(ProtocolError::MalformedFrame)
                    },
                    None => Err(ProtocolError::MalformedFrame),
                }
            }
        }
    }
}

/// The buffer starts with a length prefix that no frame can have: below
/// the header's four bytes, or above the largest frame.
pub open spec fn bad_prefix(s: Seq<u8>) -> bool {
    s.len() >= 4 && (read32(s) < 4 || read32(s) > MAX_FRAME_LEN)
}

/// The buffer starts with a whole frame whose length prefix is in range.
pub open spec fn frame_ready(s: Seq<u8>) -> bool {
    s.len() >= 4 && 4 <= read32(s) <= MAX_FRAME_LEN && s.len() >= 4 + read32(s)
}

/// A frame read in pieces is ready once all of its bytes are there, and
/// not one byte earlier: until then decoding asks for more bytes.
pub proof fn lemma_frame_ready_only_when_whole(header: u32, body: Seq<u8>, k: int)
    requires
        body.len() + 4 <= MAX_FRAME_LEN,
        0 <= k <= frame_of(header, body).len(),
    ensures
        frame_ready(frame_of(header, body).take(k)) <==> k == frame_of(header, body).len(),
        k < frame_of(header, body).len() ==> decode_frame(frame_of(header, body).take(k))
            == Err::<(u32, Seq<u8>, int), ProtocolError>(ProtocolError::Incomplete),
{
    let f = frame_of(header, body);
    lemma_read32_be32((body.len() + 4) as u32, be32(header) + body);
    assert(f =~= be32((body.len() + 4) as u32) + (be32(header) + body));
    if k >= 4 {
        assert(read32(f.take(k)) == read32(f));
    }
}

/// Returns whether `s` starts with a ready frame.
pub fn is_frame_ready(s: &[u8]) -> (r: bool)
    ensures
        r == frame_ready(s@),
{
    if s.len() < 4 {
        return false;
    }
    let n = read_be32_at(s, 0);
    assert(s@.skip(0) =~= s@);
    4 <= n && n <= MAX_FRAME_LEN && s.len() - 4 >= n as usize
}

/// Returns whether `s` starts with a length prefix out of range.
pub fn has_bad_prefix(s: &[u8]) -> (r: bool)
    ensures
        r == bad_prefix(s@),
{
    if s.len() < 4 {
        return false;
    }
    let n = read_be32_at(s, 0);
    assert(s@.skip(0) =~= s@);
    n < 4 || n > MAX_FRAME_LEN
}

/// Encodes a frame for `tag` and `payload`. In bulk mode a payload above
/// the threshold is compressed. Fails with `MalformedFrame` where the body
/// would exceed the largest frame. What it makes decodes to the same tag
/// and payload.
pub fn encode_frame(tag: u32, payload: &[u8], bulk: bool) -> (r: Result<Vec<u8>, ProtocolError>)
    requires
        tag < COMPRESSED_FLAG,
    ensures
        r is Ok <==> payload@.len() <= MAX_FRAME_LEN && frame_body(payload@, bulk).len() + 4
            <= MAX_FRAME_LEN,
        r is Err ==> r == Err::<Vec<u8>, ProtocolError>(ProtocolError::MalformedFrame),
        r matches Ok(f) ==> f@ == frame_of(
            frame_header(tag, payload@, bulk),
            frame_body(payload@, bulk),
        ),
        r matches Ok(f) ==> decode_frame(f@) == Ok::<(u32, Seq<u8>, int), ProtocolError>(
            (tag, payload@, f@.len() as int),
        ),
{
    let mut body: Vec<u8> = Vec::new();
    let header: u32;
    if bulk && payload.len() > BULK_THRESHOLD {
        if payload.len() > MAX_FRAME_LEN as usize {
            return Err(ProtocolError::MalformedFrame);
        }
        let z = deflate(payload);
        push_be32(&mut body, payload.len() as u32);
        append_bytes(&mut body, z.as_slice());
        header = tag | COMPRESSED_FLAG;
    } else {
        append_bytes(&mut body, payload);
        header = tag;
    }
    assert(body@ =~= frame_body(payload@, bulk));
    if body.len() > (MAX_FRAME_LEN - 4) as usize {
        return Err(ProtocolError::MalformedFrame);
    }
    let mut f: Vec<u8> = Vec::new();
    push_be32(&mut f, (body.len() + 4) as u32);
    push_be32(&mut f, header);
    append_bytes(&mut f, body.as_slice());
    proof {
        let n = (body@.len() + 4) as u32;
        assert(f@ =~= be32(n) + (be32(header) + body@));
        lemma_read32_be32(n, be32(header) + body@);
        assert(f@.skip(4) =~= be32(header) + body@);
        lemma_read32_be32(header, body@);
        assert(f@.subrange(8, 4 + n) =~= body@);
        if compresses(bulk, payload@.len() as int) {
            assert((tag | COMPRESSED_FLAG) & COMPRESSED_FLAG != 0 && (tag | COMPRESSED_FLAG)
                & !COMPRESSED_FLAG == tag) by (bit_vector)
                requires
                    tag < COMPRESSED_FLAG,
            ;
            let z = deflated(payload@);
            assert(body@ =~= be32(payload@.len() as u32) + z);
            lemma_read32_be32(payload@.len() as u32, z);
            assert(body@.skip(4) =~= z);
        } else {
            assert(tag & COMPRESSED_FLAG == 0) by (bit_vector)
                requires
                    tag < COMPRESSED_FLAG,
            ;
        }
    }
    Ok(f)
}

/// Decodes the frame at the start of `s`: the message and the number of
/// bytes it took.
pub fn decode_frame_at(s: &[u8]) -> (r: Result<(Msg, usize), ProtocolError>)
    ensures
        match decode_frame(s@) {
            Ok((t, p, n)) => r matches Ok((m, k)) && m.tag == t && m.payload@ == p && k == n,
            Err(e) => r matches Err(e2) && e2 == e,
        },
{
    if s.len() < 4 {
        return Err(ProtocolError::Incomplete);
    }
    let n = read_be32_at(s, 0);
    assert(s@.skip(0) =~= s@);
    if n < 4 || n > MAX_FRAME_LEN {
        return Err(ProtocolError::MalformedFrame);
    }
    if s.len() - 4 < n as usize {
        return Err(ProtocolError::Incomplete);
    }
    let end = 4 + n as usize;
    let header = read_be32_at(s, 4);
    let body = copy_range(s, 8, end);
    if header & COMPRESSED_FLAG == 0 {
        return Ok((Msg { tag: header, payload: body }, end));
    }
    if body.len() < 4 {
        return Err(ProtocolError::MalformedFrame);
    }
    let m = read_be32_at(body.as_slice(), 0);
    assert(body@.skip(0) =~= body@);
    if m > MAX_FRAME_LEN {
        return Err(ProtocolError::MalformedFrame);
    }
    let z = copy_range(body.as_slice(), 4, body.len());
    assert(z@ =~= body@.skip(4));
    match inflate(z.as_slice(), m as usize + 1) {
        Some(p) => {
            if p.len() == m as usize {
                Ok((Msg { tag: header & !COMPRESSED_FLAG, payload: p }, end))
            } else {
                Err(ProtocolError::MalformedFrame)
            }
        },
        None => Err(ProtocolError::MalformedFrame),
    }
}

} // verus!
