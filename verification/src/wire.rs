//! The wire form of a range response's entries: each record arrives with
//! its timestamp as RFC 3339 text and its payload as base64 text, and
//! becomes a `CompressedWeb` only when both are of the expected shape.
use vstd::prelude::*;
use vstd::string::StringExecFns;

use crate::client::{compressed_views, ClientError};
use crate::record::{CompressedWeb, RecordView};

verus! {

/// What the base64 decoder returns on a piece of text: the bytes it
/// encodes, or nothing when the text is not valid base64. The result is a
/// function of the text alone.
pub uninterp spec fn b64_of(s: Seq<char>) -> Option<Seq<u8>>;

/// Relies on base64's standard-alphabet engine: decodes base64 text into
/// the bytes it encodes, or reports invalid text.
#[verifier::external_body]
fn b64_decode(s: &str) -> (r: Option<Vec<u8>>)
    ensures
        r is Some <==> b64_of(s@) is Some,
        r is Some ==> r->0@ == b64_of(s@)->0,
{
    base64::Engine::decode(&base64::engine::general_purpose::STANDARD, s).ok()
}

/// Whether the RFC 3339 parser accepts a piece of text; the answer depends
/// on the text alone.
pub uninterp spec fn rfc3339_valid(s: Seq<char>) -> bool;

/// Relies on time's OffsetDateTime::parse with the well-known RFC 3339
/// format: accepts exactly the timestamps of that shape.
#[verifier::external_body]
fn rfc3339_ok(s: &str) -> (r: bool)
    ensures
        r == rfc3339_valid(s@),
{
    time::OffsetDateTime::parse(s, &time::format_description::well_known::Rfc3339).is_ok()
}

/// One entry of a range response as the envelope carries it: the payload
/// still in base64.
#[derive(Debug)]
pub struct WireEntry {
    pub id: i64,
    pub created: String,
    pub url: String,
    pub status: i16,
    pub response: String,
}

/// The fields of a wire entry, at the spec level.
pub struct WireEntryView {
    pub id: int,
    pub created: Seq<char>,
    pub url: Seq<char>,
    pub status: int,
    pub response: Seq<char>,
}

impl View for WireEntry {
    type V = WireEntryView;

    open spec fn view(&self) -> WireEntryView {
        WireEntryView {
            id: self.id as int,
            created: self.created@,
            url: self.url@,
            status: self.status as int,
            response: self.response@,
        }
    }
}

/// Whether a wire entry has the expected shape: an RFC 3339 timestamp and
/// a base64 payload.
pub open spec fn entry_wellformed(e: WireEntryView) -> bool {
    rfc3339_valid(e.created) && b64_of(e.response) is Some
}

/// The record a well-formed wire entry carries.
pub open spec fn entry_record(e: WireEntryView) -> Option<RecordView> {
    if entry_wellformed(e) {
        Some(
            RecordView {
                id: e.id,
                created: e.created,
                url: e.url,
                status: e.status,
                response: b64_of(e.response)->0,
            },
        )
    } else {
        None
    }
}

/// The malformed-response note for a timestamp of the wrong shape.
pub open spec fn bad_created_msg() -> Seq<char> {
    "entry created field is not a valid RFC 3339 timestamp"@
}

/// The malformed-response note for a payload that is not base64.
pub open spec fn bad_base64_msg() -> Seq<char> {
    "entry response field is not valid base64"@
}

/// The views of a sequence of wire entries.
pub open spec fn wire_views(s: Seq<WireEntry>) -> Seq<WireEntryView> {
    s.map_values(|e: WireEntry| e@)
}

/// Whether every entry of an envelope has the expected shape.
pub open spec fn all_entries_wellformed(s: Seq<WireEntryView>) -> bool {
    forall|k: int| 0 <= k < s.len() ==> entry_wellformed(#[trigger] s[k])
}

/// Turns one wire entry into a compressed record: the timestamp must be
/// RFC 3339 and the payload text must decode; either failing is a
/// malformed response.
pub fn entry_to_compressed(e: WireEntry) -> (r: Result<CompressedWeb, ClientError>)
    ensures
        r is Ok <==> entry_wellformed(e@),
        r is Ok ==> Some(r->Ok_0@) == entry_record(e@),
        !rfc3339_valid(e.created@) ==> (r->Err_0 matches ClientError::Deserialize { detail }
            && detail@ == bad_created_msg()),
        rfc3339_valid(e.created@) && b64_of(e.response@) is None ==> (r->Err_0 matches
            ClientError::Deserialize { detail } && detail@ == bad_base64_msg()),
{
    if !rfc3339_ok(e.created.as_str()) {
        return Err(
            ClientError::Deserialize {
                detail: String::from_str("entry created field is not a valid RFC 3339 timestamp"),
            },
        );
    }
    match b64_decode(e.response.as_str()) {
        Some(payload) => Ok(
            CompressedWeb {
                id: e.id,
                created: e.created,
                url: e.url,
                status: e.status,
                response: payload,
            },
        ),
        None => Err(
            ClientError::Deserialize {
                detail: String::from_str("entry response field is not valid base64"),
            },
        ),
    }
}

/// Turns a whole envelope's entries into compressed records, in order. One
/// entry of the wrong shape makes the whole response malformed, as a typed
/// deserializer would.
pub fn entries_to_compressed(entries: Vec<WireEntry>) -> (r: Result<Vec<CompressedWeb>, ClientError>)
    ensures
        r is Ok <==> all_entries_wellformed(wire_views(entries@)),
        r is Ok ==> compressed_views(r->Ok_0@) == wire_views(entries@).map_values(
            |e: WireEntryView| entry_record(e)->0,
        ),
        r is Err ==> r->Err_0 matches ClientError::Deserialize { .. },
{
    let ghost all = wire_views(entries@);
    let mut rest = entries;
    let mut res: Vec<CompressedWeb> = Vec::new();
    #[verifier::loop_isolation(false)]
    while rest.len() > 0
        invariant
            rest@.len() <= all.len(),
            wire_views(rest@) =~= all.skip(all.len() - rest@.len()),
            forall|k: int|
                0 <= k < all.len() - rest@.len() ==> entry_wellformed(#[trigger] all[k]),
            compressed_views(res@) =~= all.take(all.len() - rest@.len()).map_values(
                |e: WireEntryView| entry_record(e)->0,
            ),
        decreases rest@.len(),
    {
        let ghost i = all.len() - rest@.len();
        let ghost r0 = rest@;
        let e = rest.remove(0);
        let ghost ev = e@;
        proof {
            assert(wire_views(r0)[0] == ev);
            assert(ev == all[i as int]);
            assert forall|k: int| 0 <= k < rest@.len() implies wire_views(rest@)[k] == all.skip(
                i + 1,
            )[k] by {
                assert(rest@[k] == r0[k + 1]);
                assert(wire_views(r0)[k + 1] == r0[k + 1]@);
                assert(all.skip(i as int)[k + 1] == all[i + 1 + k]);
            }
            assert(wire_views(rest@) =~= all.skip(i + 1));
        }
        match entry_to_compressed(e) {
            Ok(c) => {
                proof {
                    assert(compressed_views(res@.push(c)) =~= compressed_views(res@).push(c@));
                    assert(all.take(i + 1).map_values(|x: WireEntryView| entry_record(x)->0)
                        =~= all.take(i as int).map_values(
                        |x: WireEntryView| entry_record(x)->0,
                    ).push(entry_record(all[i as int])->0));
                }
                res.push(c);
            },
            Err(err) => {
                proof {
                    assert(!entry_wellformed(all[i as int]));
                    assert(!all_entries_wellformed(all));
                }
                return Err(err);
            },
        }
    }
    proof {
        assert(all.take(all.len() as int) =~= all);
        assert(all_entries_wellformed(all));
    }
    Ok(res)
}

} // verus!
