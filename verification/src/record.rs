//! The records of the remote archive: the compressed wire form, and the
//! decoded form that only a successful decode produces.
use vstd::prelude::*;

use crate::codec::{
    be32, decode, decode_error_msg, decoded, frame_ok, inflate_of, length_mismatch_msg,
    missing_header_msg, stream_corruption_msg, DecodeError,
};
use crate::decfmt::{dec_str, dec_str_int, i64_to_dec, u64_to_dec};
use vstd::string::StringExecFns;

verus! {

/// The fields of a record, at the spec level. The compressed and the decoded
/// form share the shape; only what `response` holds differs.
pub struct RecordView {
    pub id: int,
    pub created: Seq<char>,
    pub url: Seq<char>,
    pub status: int,
    pub response: Seq<u8>,
}

/// A captured web record as the remote archive serves it: `response` is the
/// length-framed, compressed wire payload.
#[derive(Debug, PartialEq)]
pub struct CompressedWeb {
    pub id: i64,
    pub created: String,
    pub url: String,
    pub status: i16,
    pub response: Vec<u8>,
}

impl View for CompressedWeb {
    type V = RecordView;

    open spec fn view(&self) -> RecordView {
        RecordView {
            id: self.id as int,
            created: self.created@,
            url: self.url@,
            status: self.status as int,
            response: self.response@,
        }
    }
}

/// A captured web record after decoding: `response` is the validated
/// plaintext body.
#[derive(Debug, PartialEq)]
pub struct Web {
    pub id: i64,
    pub created: String,
    pub url: String,
    pub status: i16,
    pub response: Vec<u8>,
}

impl View for Web {
    type V = RecordView;

    open spec fn view(&self) -> RecordView {
        RecordView {
            id: self.id as int,
            created: self.created@,
            url: self.url@,
            status: self.status as int,
            response: self.response@,
        }
    }
}

/// The decoded form of a compressed record: the same fields, with the wire
/// payload replaced by the plaintext it frames — when it decodes at all.
pub open spec fn decompressed_view(c: RecordView) -> Option<RecordView> {
    match decoded(c.response) {
        Some(b) => Some(RecordView { response: b, ..c }),
        None => None,
    }
}

/// A record's short description, which redacts the payload: every other
/// field in full, the bytes as their length alone.
pub open spec fn record_desc(name: Seq<char>, v: RecordView) -> Seq<char> {
    name + " { id: "@ + dec_str_int(v.id) + ", created: "@ + v.created + ", url: "@ + v.url
        + ", status: "@ + dec_str_int(v.status) + ", response.len: "@ + dec_str(v.response.len())
        + " }"@
}

fn describe_fields(name: &'static str, id: i64, created: &String, url: &String, status: i16, response_len: usize) -> (s: String)
    ensures
        s@ == name@ + " { id: "@ + dec_str_int(id as int) + ", created: "@ + created@ + ", url: "@
            + url@ + ", status: "@ + dec_str_int(status as int) + ", response.len: "@ + dec_str(
            response_len as nat,
        ) + " }"@,
{
    let mut s = String::from_str(name);
    s.append(" { id: ");
    s.append(i64_to_dec(id).as_str());
    s.append(", created: ");
    s.append(created.as_str());
    s.append(", url: ");
    s.append(url.as_str());
    s.append(", status: ");
    s.append(i64_to_dec(status as i64).as_str());
    s.append(", response.len: ");
    s.append(u64_to_dec(response_len as u64).as_str());
    s.append(" }");
    proof {
        assert(s@ =~= name@ + " { id: "@ + dec_str_int(id as int) + ", created: "@ + created@
            + ", url: "@ + url@ + ", status: "@ + dec_str_int(status as int) + ", response.len: "@
            + dec_str(response_len as nat) + " }"@);
    }
    s
}

impl CompressedWeb {
    /// A description that redacts the wire payload to its length.
    pub fn describe(&self) -> (s: String)
        ensures
            s@ == record_desc("CompressedWeb"@, self@),
    {
        let s = describe_fields(
            "CompressedWeb",
            self.id,
            &self.created,
            &self.url,
            self.status,
            self.response.len(),
        );
        proof {
            assert(s@ =~= record_desc("CompressedWeb"@, self@));
        }
        s
    }

    /// Decodes the wire payload, keeping every other field. Fails with the
    /// codec's message when the payload is short, corrupt, or of a length
    /// other than it declares.
    pub fn decompress(self) -> (r: Result<Web, String>)
        ensures
            r is Ok <==> frame_ok(self.response@),
            r is Ok ==> Some(r->Ok_0@) == decompressed_view(self@),
            self.response@.len() < 4 ==> r is Err && r->Err_0@ == missing_header_msg(
                self.response@.len(),
            ),
            (self.response@.len() >= 4 && inflate_of(self.response@.skip(4)) is Some && inflate_of(
                self.response@.skip(4),
            )->0.len() != be32(self.response@)) ==> r is Err && r->Err_0@ == length_mismatch_msg(
                be32(self.response@),
                inflate_of(self.response@.skip(4))->0.len(),
            ),
            (self.response@.len() >= 4 && inflate_of(self.response@.skip(4)) is None) ==> r is Err
                && (exists|d: Seq<char>| r->Err_0@ == stream_corruption_msg(d)),
    {
        match decode(self.response.as_slice()) {
            Ok(body) => Ok(
                Web {
                    id: self.id,
                    created: self.created,
                    url: self.url,
                    status: self.status,
                    response: body,
                },
            ),
            Err(e) => {
                proof {
                    if self.response@.len() >= 4 {
                        assert(be32(self.response@) <= 0xFFFFFFFF);
                    }
                    match &e {
                        DecodeError::StreamCorruption { detail } => {
                            assert(decode_error_msg(e) == stream_corruption_msg(detail@));
                        },
                        _ => {},
                    }
                }
                Err(e.message())
            },
        }
    }
}

impl Web {
    /// A description that redacts the body to its length.
    pub fn describe(&self) -> (s: String)
        ensures
            s@ == record_desc("Web"@, self@),
    {
        let s = describe_fields(
            "Web",
            self.id,
            &self.created,
            &self.url,
            self.status,
            self.response.len(),
        );
        proof {
            assert(s@ =~= record_desc("Web"@, self@));
        }
        s
    }
}

} // verus!
