//! The per-record codec: a payload is a 4-byte big-endian declared length
//! followed by a zlib-compressed stream, and decodes to the decompressed
//! bytes only when the declared length matches what actually came out.
use vstd::prelude::*;
use vstd::string::StringExecFns;

use crate::decfmt::{dec_str, u64_to_dec};

verus! {

/// What the zlib decompressor returns on a byte stream: the decompressed
/// bytes, or nothing when the stream is corrupt. The stream is data alone,
/// so the result is a function of the bytes.
pub uninterp spec fn inflate_of(s: Seq<u8>) -> Option<Seq<u8>>;

/// Relies on flate2's ZlibDecoder (through std's read_to_end): decompresses
/// a whole zlib stream into a buffer, or reports a corrupt stream.
#[verifier::external_body]
fn zlib_inflate(data: &[u8]) -> (r: Result<Vec<u8>, String>)
    ensures
        r is Ok <==> inflate_of(data@) is Some,
        r is Ok ==> r->Ok_0@ == inflate_of(data@)->0,
{
    let mut d = flate2::read::ZlibDecoder::new(data);
    let mut buf = Vec::<u8>::new();
    match std::io::Read::read_to_end(&mut d, &mut buf) {
        Ok(_) => Ok(buf),
        Err(e) => Err(format!("{e}")),
    }
}

/// Relies on flate2's ZlibEncoder: compresses bytes into a zlib stream that
/// the decompressor inverts.
#[verifier::external_body]
fn zlib_deflate(data: &[u8]) -> (r: Vec<u8>)
    ensures
        inflate_of(r@) == Some(data@),
{
    let mut e = flate2::write::ZlibEncoder::new(Vec::new(), flate2::Compression::default());
    std::io::Write::write_all(&mut e, data).expect("writing to a Vec cannot fail");
    e.finish().expect("writing to a Vec cannot fail")
}

/// The big-endian 32-bit value held in the first four bytes.
pub open spec fn be32(s: Seq<u8>) -> nat
    recommends
        s.len() >= 4,
{
    (s[0] as nat) * 0x1000000 + (s[1] as nat) * 0x10000 + (s[2] as nat) * 0x100 + (s[3] as nat)
}

/// Whether a payload carries a well-formed frame: at least a header, a
/// decompressible stream, and a declared length that matches the content.
pub open spec fn frame_ok(p: Seq<u8>) -> bool {
    &&& p.len() >= 4
    &&& inflate_of(p.skip(4)) is Some
    &&& inflate_of(p.skip(4))->0.len() == be32(p)
}

/// The plaintext that a payload decodes to, when it decodes at all.
pub open spec fn decoded(p: Seq<u8>) -> Option<Seq<u8>> {
    if frame_ok(p) {
        Some(inflate_of(p.skip(4))->0)
    } else {
        None
    }
}

/// Whether a payload is a frame for the given body: the body's length in
/// big-endian, then a stream that decompresses back to the body.
pub open spec fn framed(p: Seq<u8>, b: Seq<u8>) -> bool {
    &&& p.len() >= 4
    &&& be32(p) == b.len()
    &&& inflate_of(p.skip(4)) == Some(b)
}

/// A frame for a body decodes, and decodes to that body and nothing else.
pub proof fn lemma_framed_decodes(p: Seq<u8>, b: Seq<u8>)
    requires
        framed(p, b),
    ensures
        decoded(p) == Some(b),
{
}

/// Why a payload failed to decode.
#[derive(Debug)]
pub enum DecodeError {
    /// The payload is too short to hold the 4-byte length header.
    MissingHeader { len: usize },
    /// The decompressor reported a corrupt stream; `detail` is its report.
    StreamCorruption { detail: String },
    /// The stream decompressed, but not to the declared length.
    LengthMismatch { expected: u32, actual: usize },
}

/// The message of a decode failure on a payload too short for a header.
pub open spec fn missing_header_msg(len: nat) -> Seq<char> {
    "decompression error: missing header, length: "@ + dec_str(len)
}

/// The message of a decode failure on a corrupt stream.
pub open spec fn stream_corruption_msg(detail: Seq<char>) -> Seq<char> {
    "decompression error: could not read to end: "@ + detail
}

/// The message of a decode failure on a declared length that does not match.
pub open spec fn length_mismatch_msg(expected: nat, actual: nat) -> Seq<char> {
    "decompression error: expected "@ + dec_str(expected) + " bytes, got "@ + dec_str(actual)
}

/// The message of a decode error, at the spec level.
pub open spec fn decode_error_msg(e: DecodeError) -> Seq<char> {
    match e {
        DecodeError::MissingHeader { len } => missing_header_msg(len as nat),
        DecodeError::StreamCorruption { detail } => stream_corruption_msg(detail@),
        DecodeError::LengthMismatch { expected, actual } => length_mismatch_msg(
            expected as nat,
            actual as nat,
        ),
    }
}

impl DecodeError {
    /// The human-readable description of the failure.
    pub fn message(&self) -> (s: String)
        ensures
            s@ == decode_error_msg(*self),
    {
        match self {
            DecodeError::MissingHeader { len } => {
                let mut s = String::from_str("decompression error: missing header, length: ");
                s.append(u64_to_dec(*len as u64).as_str());
                s
            },
            DecodeError::StreamCorruption { detail } => {
                let mut s = String::from_str("decompression error: could not read to end: ");
                s.append(detail.as_str());
                s
            },
            DecodeError::LengthMismatch { expected, actual } => {
                let mut s = String::from_str("decompression error: expected ");
                s.append(u64_to_dec(*expected as u64).as_str());
                s.append(" bytes, got ");
                s.append(u64_to_dec(*actual as u64).as_str());
                s
            },
        }
    }
}

/// Decodes a length-framed compressed payload into the plaintext it frames.
/// Fails when the payload has no room for the header, when the stream is
/// corrupt, and when the declared length is not the decompressed length.
pub fn decode(payload: &[u8]) -> (r: Result<Vec<u8>, DecodeError>)
    ensures
        r is Ok <==> frame_ok(payload@),
        r is Ok ==> Some(r->Ok_0@) == decoded(payload@),
        payload@.len() >= 4 && inflate_of(payload@.skip(4)) is Some ==> inflate_of(
            payload@.skip(4),
        )->0.len() <= usize::MAX,
        payload@.len() < 4 ==> r == Result::<Vec<u8>, DecodeError>::Err(
            DecodeError::MissingHeader { len: payload@.len() as usize },
        ),
        payload@.len() >= 4 && inflate_of(payload@.skip(4)) is None ==> r matches Err(
            DecodeError::StreamCorruption { .. },
        ),
        (payload@.len() >= 4 && inflate_of(payload@.skip(4)) is Some && inflate_of(
            payload@.skip(4),
        )->0.len() != be32(payload@)) ==> r == Result::<Vec<u8>, DecodeError>::Err(
            DecodeError::LengthMismatch {
                expected: be32(payload@) as u32,
                actual: inflate_of(payload@.skip(4))->0.len() as usize,
            },
        ),
{
    if payload.len() < 4 {
        return Err(DecodeError::MissingHeader { len: payload.len() });
    }
    let b0 = payload[0];
    let b1 = payload[1];
    let b2 = payload[2];
    let b3 = payload[3];
    let expected: u32 = (b0 as u32) * 0x1000000 + (b1 as u32) * 0x10000 + (b2 as u32) * 0x100 + (
    b3 as u32);
    assert(expected == be32(payload@));
    let rest = payload_tail(payload);
    match zlib_inflate(rest) {
        Err(detail) => Err(DecodeError::StreamCorruption { detail }),
        Ok(buf) => {
            if buf.len() as u64 != expected as u64 {
                Err(DecodeError::LengthMismatch { expected, actual: buf.len() })
            } else {
                Ok(buf)
            }
        },
    }
}

/// The payload after its 4-byte header.
fn payload_tail(payload: &[u8]) -> (r: &[u8])
    requires
        payload@.len() >= 4,
    ensures
        r@ == payload@.skip(4),
{
    let r = vstd::slice::slice_subrange(payload, 4, payload.len());
    proof {
        assert(r@ =~= payload@.skip(4));
    }
    r
}

/// Encodes a body into the wire frame that `decode` inverts: the body's
/// length as a 4-byte big-endian header, then the compressed body.
pub fn encode(body: &[u8]) -> (p: Vec<u8>)
    requires
        body@.len() <= u32::MAX,
    ensures
        framed(p@, body@),
        decoded(p@) == Some(body@),
{
    let n: u32 = body.len() as u32;
    let b0: u8 = (n / 0x1000000) as u8;
    let b1: u8 = ((n / 0x10000) % 0x100) as u8;
    let b2: u8 = ((n / 0x100) % 0x100) as u8;
    let b3: u8 = (n % 0x100) as u8;
    assert((b0 as nat) * 0x1000000 + (b1 as nat) * 0x10000 + (b2 as nat) * 0x100 + (b3 as nat)
        == n) by {
        assert(n == (n / 0x1000000) * 0x1000000 + ((n / 0x10000) % 0x100) * 0x10000 + ((n / 0x100)
            % 0x100) * 0x100 + (n % 0x100)) by (bit_vector);
    };
    let mut p: Vec<u8> = Vec::new();
    p.push(b0);
    p.push(b1);
    p.push(b2);
    p.push(b3);
    let mut stream = zlib_deflate(body);
    let ghost s0 = stream@;
    p.append(&mut stream);
    proof {
        assert(p@.skip(4) =~= s0);
    }
    p
}

} // verus!
