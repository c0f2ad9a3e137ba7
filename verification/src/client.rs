//! The remote-archive client's logic: the window cap on a range request,
//! the two request shapes, the reading of an HTTP outcome, and the
//! asymmetric batch-decode policy of `fetch_range`.
use vstd::prelude::*;
use vstd::string::StringExecFns;

use crate::codec::{be32, inflate_of, length_mismatch_msg, missing_header_msg, stream_corruption_msg};
use crate::decfmt::{dec_str_int, i64_to_dec};
use crate::httptext::{byte_string, render_byte_string, render_status_line, status_line};
use crate::record::{decompressed_view, CompressedWeb, RecordView, Web};

verus! {

/// Which of the two remote operations an error came from.
#[derive(Debug)]
pub enum Operation {
    Stat,
    Range,
}

/// The word that names an operation inside an error message.
pub open spec fn op_word(op: Operation) -> Seq<char> {
    match op {
        Operation::Stat => "web stat"@,
        Operation::Range => "web range"@,
    }
}

/// Everything a client operation can fail with.
#[derive(Debug)]
pub enum ClientError {
    /// The requested range is wider than the remote archive accepts.
    WindowTooLarge,
    /// The request could not be sent or its response not received.
    Transport { detail: String },
    /// A non-success HTTP status, with the raw body that came with it.
    UnexpectedStatus { op: Operation, status: u16, body: Vec<u8> },
    /// A non-success HTTP status whose body could not be read either.
    UnexpectedStatusNoBody { op: Operation, status: u16, detail: String },
    /// A success status whose body could not be read.
    BodyUnreadable { detail: String },
    /// A body that does not parse into the expected shape.
    Deserialize { detail: String },
    /// Every entry of a non-empty batch failed to decode.
    DecodeFailed { detail: String },
}

/// The message of a client error, at the spec level.
pub open spec fn client_error_msg(e: ClientError) -> Seq<char> {
    match e {
        ClientError::WindowTooLarge => "max_wid - min_wid must be less than 1000"@,
        ClientError::Transport { detail } => "failed to send request: "@ + detail@,
        ClientError::UnexpectedStatus { op, status, body } => "failed to fetch "@ + op_word(op)
            + " unexpected status: "@ + status_line(status as int) + ": "@ + byte_string(body@),
        ClientError::UnexpectedStatusNoBody { op, status, detail } => "failed to fetch "@ + op_word(
            op,
        ) + " unexpected status and failed to read body: "@ + status_line(status as int) + ": "@
            + detail@,
        ClientError::BodyUnreadable { detail } => "failed to fetch response body: "@ + detail@,
        ClientError::Deserialize { detail } => "failed to deserialize response body: "@ + detail@,
        ClientError::DecodeFailed { detail } => "failed to decompress response: "@ + detail@,
    }
}

impl ClientError {
    /// The human-readable description of the failure.
    pub fn message(&self) -> (s: String)
        ensures
            s@ == client_error_msg(*self),
    {
        match self {
            ClientError::WindowTooLarge => String::from_str(
                "max_wid - min_wid must be less than 1000",
            ),
            ClientError::Transport { detail } => {
                let mut s = String::from_str("failed to send request: ");
                s.append(detail.as_str());
                s
            },
            ClientError::UnexpectedStatus { op, status, body } => {
                let mut s = String::from_str("failed to fetch ");
                s.append(op_str(op));
                s.append(" unexpected status: ");
                s.append(render_status_line(*status).as_str());
                s.append(": ");
                s.append(render_byte_string(body.as_slice()).as_str());
                s
            },
            ClientError::UnexpectedStatusNoBody { op, status, detail } => {
                let mut s = String::from_str("failed to fetch ");
                s.append(op_str(op));
                s.append(" unexpected status and failed to read body: ");
                s.append(render_status_line(*status).as_str());
                s.append(": ");
                s.append(detail.as_str());
                s
            },
            ClientError::BodyUnreadable { detail } => {
                let mut s = String::from_str("failed to fetch response body: ");
                s.append(detail.as_str());
                s
            },
            ClientError::Deserialize { detail } => {
                let mut s = String::from_str("failed to deserialize response body: ");
                s.append(detail.as_str());
                s
            },
            ClientError::DecodeFailed { detail } => {
                let mut s = String::from_str("failed to decompress response: ");
                s.append(detail.as_str());
                s
            },
        }
    }
}

fn op_str(op: &Operation) -> (s: &'static str)
    ensures
        s@ == op_word(*op),
{
    match op {
        Operation::Stat => "web stat",
        Operation::Range => "web range",
    }
}

/// The client-identifying header sent with every request.
pub open spec fn user_agent_of(user: Seq<char>) -> Seq<char> {
    "skitter-ro-client-rs/0.0.1 +"@ + user
}

/// One authenticated GET against the remote archive, described as plain
/// values: a path below the base endpoint, query parameters, the basic
/// credentials, and the client-identifying header.
#[derive(Debug)]
pub struct HttpRequest {
    pub path: String,
    pub query: Vec<(String, String)>,
    pub user: String,
    pub pass: String,
    pub user_agent: String,
}

/// The views of a query-parameter list.
pub open spec fn query_view(q: Seq<(String, String)>) -> Seq<(Seq<char>, Seq<char>)> {
    q.map_values(|p: (String, String)| (p.0@, p.1@))
}

/// The query of a range request: the inclusive lower bound, the value one
/// past the inclusive upper bound, and the optional URL filter.
pub open spec fn range_query(min_wid: int, max_wid: int, url_like: Option<Seq<char>>) -> Seq<
    (Seq<char>, Seq<char>),
> {
    let base = seq![
        ("min_wid"@, dec_str_int(min_wid)),
        ("max_wid"@, dec_str_int(max_wid)),
    ];
    match url_like {
        Some(u) => base.push(("url_like"@, u)),
        None => base,
    }
}

/// A read-only client of the remote archive: a base endpoint and the
/// credentials it sends, owned once and reused for every call.
#[derive(Clone, Debug)]
pub struct Client {
    pub base_url: String,
    pub user: String,
    pub pass: String,
}

impl Client {
    /// A client for the given endpoint and credentials.
    pub fn new(base_url: String, user: String, pass: String) -> (c: Client)
        ensures
            c.base_url == base_url,
            c.user == user,
            c.pass == pass,
    {
        Client { base_url, user, pass }
    }

    fn authenticated(&self, path: &'static str, query: Vec<(String, String)>) -> (r: HttpRequest)
        ensures
            r.path@ == path@,
            r.query == query,
            r.user@ == self.user@,
            r.pass@ == self.pass@,
            r.user_agent@ == user_agent_of(self.user@),
    {
        let mut ua = String::from_str("skitter-ro-client-rs/0.0.1 +");
        ua.append(self.user.as_str());
        HttpRequest {
            path: String::from_str(path),
            query,
            user: self.user.clone(),
            pass: self.pass.clone(),
            user_agent: ua,
        }
    }

    /// The frontier query: a GET on the fixed stat path with no parameters.
    pub fn stat_request(&self) -> (r: HttpRequest)
        ensures
            r.path@ == "v0/web/stat"@,
            r.query@.len() == 0,
            r.user@ == self.user@,
            r.pass@ == self.pass@,
            r.user_agent@ == user_agent_of(self.user@),
    {
        self.authenticated("v0/web/stat", Vec::new())
    }

    /// The range query for `[min_wid, max_wid)`, refused without any network
    /// work when the window is wider than the archive accepts.
    pub fn range_request(&self, min_wid: i64, max_wid: i64, url_like: Option<&str>) -> (r: Result<
        HttpRequest,
        ClientError,
    >)
        ensures
            r is Err <==> max_wid - min_wid > 1000,
            r is Err ==> r->Err_0 == ClientError::WindowTooLarge,
            r is Ok ==> {
                let req = r->Ok_0;
                &&& req.path@ == "v0/web/range"@
                &&& query_view(req.query@) == range_query(
                    min_wid as int,
                    max_wid as int,
                    match url_like {
                        Some(u) => Some(u@),
                        None => None,
                    },
                )
                &&& req.user@ == self.user@
                &&& req.pass@ == self.pass@
                &&& req.user_agent@ == user_agent_of(self.user@)
            },
    {
        if (max_wid as i128) - (min_wid as i128) > 1000 {
            return Err(ClientError::WindowTooLarge);
        }
        let mut query: Vec<(String, String)> = Vec::new();
        query.push((String::from_str("min_wid"), i64_to_dec(min_wid)));
        query.push((String::from_str("max_wid"), i64_to_dec(max_wid)));
        match url_like {
            Some(u) => {
                query.push((String::from_str("url_like"), String::from_str(u)));
                proof {
                    assert(query_view(query@) =~= range_query(
                        min_wid as int,
                        max_wid as int,
                        Some(u@),
                    ));
                }
            },
            None => {
                proof {
                    assert(query_view(query@) =~= range_query(
                        min_wid as int,
                        max_wid as int,
                        None::<Seq<char>>,
                    ));
                }
            },
        }
        Ok(self.authenticated("v0/web/range", query))
    }
}

/// Reads the outcome of one HTTP exchange: the status the server answered
/// with, and its raw body where it could be read (`body` carries the read
/// failure's description otherwise). Hands the body on only for a success
/// status, and turns everything else into the matching error.
pub fn evaluate_response(op: Operation, status: u16, body: Result<Vec<u8>, String>) -> (r: Result<
    Vec<u8>,
    ClientError,
>)
    ensures
        status == 200 && body is Ok ==> r == Result::<Vec<u8>, ClientError>::Ok(body->Ok_0),
        status == 200 && body is Err ==> r == Result::<Vec<u8>, ClientError>::Err(
            ClientError::BodyUnreadable { detail: body->Err_0 },
        ),
        status != 200 && body is Ok ==> r == Result::<Vec<u8>, ClientError>::Err(
            ClientError::UnexpectedStatus { op, status, body: body->Ok_0 },
        ),
        status != 200 && body is Err ==> r == Result::<Vec<u8>, ClientError>::Err(
            ClientError::UnexpectedStatusNoBody { op, status, detail: body->Err_0 },
        ),
{
    if status == 200 {
        match body {
            Ok(bytes) => Ok(bytes),
            Err(detail) => Err(ClientError::BodyUnreadable { detail }),
        }
    } else {
        match body {
            Ok(bytes) => Err(ClientError::UnexpectedStatus { op, status, body: bytes }),
            Err(detail) => Err(ClientError::UnexpectedStatusNoBody { op, status, detail }),
        }
    }
}

/// The views of a sequence of compressed records.
pub open spec fn compressed_views(s: Seq<CompressedWeb>) -> Seq<RecordView> {
    s.map_values(|c: CompressedWeb| c@)
}

/// The views of a sequence of decoded records.
pub open spec fn web_views(s: Seq<Web>) -> Seq<RecordView> {
    s.map_values(|w: Web| w@)
}

/// The records of a batch that decode, in order, each decoded.
pub open spec fn batch_decoded(s: Seq<RecordView>) -> Seq<RecordView>
    decreases s.len(),
{
    if s.len() == 0 {
        Seq::empty()
    } else {
        let rest = batch_decoded(s.drop_last());
        match decompressed_view(s.last()) {
            Some(w) => rest.push(w),
            None => rest,
        }
    }
}

/// The message a record's failed decode produces. The corrupt-stream case
/// embeds the decompressor's own report `d`; the other two cases are fixed
/// by the payload alone.
pub open spec fn failure_msg(c: RecordView, d: Seq<char>) -> Seq<char> {
    if c.response.len() < 4 {
        missing_header_msg(c.response.len())
    } else if inflate_of(c.response.skip(4)) is None {
        stream_corruption_msg(d)
    } else {
        length_mismatch_msg(be32(c.response), inflate_of(c.response.skip(4))->0.len())
    }
}

/// Messages joined by `"; "`.
pub open spec fn joined(msgs: Seq<Seq<char>>) -> Seq<char>
    decreases msgs.len(),
{
    if msgs.len() == 0 {
        Seq::empty()
    } else if msgs.len() == 1 {
        msgs[0]
    } else {
        joined(msgs.drop_last()) + "; "@ + msgs.last()
    }
}

/// The failure messages of a wholly failing batch, one per record, given
/// the corrupt-stream reports `ds`.
pub open spec fn failure_msgs(s: Seq<RecordView>, ds: Seq<Seq<char>>) -> Seq<Seq<char>> {
    Seq::new(s.len(), |j: int| failure_msg(s[j], ds[j]))
}

/// Decodes every record of a fetched batch. Records that fail to decode are
/// dropped; the call fails only when every record of a non-empty batch
/// failed, and then aggregates every record's decode failure message, in
/// order, joined by `"; "` (the corrupt-stream reports are the
/// decompressor's own).
pub fn decode_batch(entries: Vec<CompressedWeb>) -> (r: Result<Vec<Web>, ClientError>)
    ensures
        r is Ok <==> (entries@.len() == 0 || batch_decoded(compressed_views(entries@)).len() > 0),
        r is Ok ==> web_views(r->Ok_0@) == batch_decoded(compressed_views(entries@)),
        r is Err ==> (r->Err_0 matches ClientError::DecodeFailed { detail } && exists|
            ds: Seq<Seq<char>>,
        |
            ds.len() == entries@.len() && detail@ == joined(
                failure_msgs(compressed_views(entries@), ds),
            )),
{
    let ghost all = compressed_views(entries@);
    let mut rest = entries;
    let mut res: Vec<Web> = Vec::new();
    let mut errs: Vec<String> = Vec::new();
    let ghost mut reports = Seq::<Seq<char>>::empty();
    #[verifier::loop_isolation(false)]
    while rest.len() > 0
        invariant
            rest@.len() <= all.len(),
            compressed_views(rest@) =~= all.skip(all.len() - rest@.len()),
            web_views(res@) =~= batch_decoded(all.take(all.len() - rest@.len())),
            errs@.len() + batch_decoded(all.take(all.len() - rest@.len())).len() == all.len()
                - rest@.len(),
            reports.len() == errs@.len(),
            res@.len() == 0 ==> forall|j: int|
                0 <= j < errs@.len() ==> #[trigger] errs@[j]@ == failure_msg(all[j], reports[j]),
        decreases rest@.len(),
    {
        let ghost i = all.len() - rest@.len();
        let ghost r0 = rest@;
        let e = rest.remove(0);
        let ghost ev = e@;
        proof {
            assert(compressed_views(r0)[0] == ev);
            assert(ev == all[i as int]);
            assert forall|k: int| 0 <= k < rest@.len() implies compressed_views(rest@)[k]
                == all.skip(i + 1)[k] by {
                assert(rest@[k] == r0[k + 1]);
                assert(compressed_views(r0)[k + 1] == r0[k + 1]@);
                assert(all.skip(i as int)[k + 1] == all[i + 1 + k]);
            }
            assert(compressed_views(rest@) =~= all.skip(i + 1));
            assert(all.take(i + 1).drop_last() =~= all.take(i as int));
            assert(all.take(i + 1).last() == all[i as int]);
        }
        match e.decompress() {
            Ok(w) => {
                proof {
                    assert(web_views(res@.push(w)) =~= web_views(res@).push(w@));
                }
                res.push(w);
            },
            Err(msg) => {
                proof {
                    if ev.response.len() >= 4 && inflate_of(ev.response.skip(4)) is None {
                        let d = choose|d: Seq<char>| msg@ == stream_corruption_msg(d);
                        assert(msg@ == failure_msg(ev, d));
                        reports = reports.push(d);
                    } else {
                        assert(msg@ == failure_msg(ev, Seq::<char>::empty()));
                        reports = reports.push(Seq::<char>::empty());
                    }
                }
                errs.push(msg);
            },
        }
    }
    proof {
        assert(all.take(all.len() as int) =~= all);
    }
    if res.len() == 0 && errs.len() > 0 {
        let ghost emsgs = Seq::new(errs@.len() as nat, |j: int| errs@[j]@);
        proof {
            assert(errs@.len() == all.len());
            assert(emsgs =~= failure_msgs(all, reports));
        }
        let mut detail = String::new();
        let mut j: usize = 0;
        #[verifier::loop_isolation(false)]
        while j < errs.len()
            invariant
                j <= errs@.len(),
                detail@ == joined(emsgs.take(j as int)),
            decreases errs@.len() - j,
        {
            if j > 0 {
                detail.append("; ");
            }
            detail.append(errs[j].as_str());
            proof {
                assert(emsgs.take(j + 1).drop_last() =~= emsgs.take(j as int));
                assert(emsgs.take(j + 1).last() == errs@[j as int]@);
                assert(detail@ =~= joined(emsgs.take(j + 1)));
            }
            j = j + 1;
        }
        proof {
            assert(emsgs.take(emsgs.len() as int) =~= emsgs);
        }
        Err(ClientError::DecodeFailed { detail })
    } else {
        Ok(res)
    }
}

} // verus!
