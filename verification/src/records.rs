//! Fingerprint records and the JSON-line boundary.
//!
//! A log holds one JSON object per line. Only plain values cross into the
//! analyzer: a record carries the identifier under study, the session, the
//! timestamps and the optional per-component hashes. The JSON decoding is
//! an external collaborator; its outcome is a function of the line text
//! alone and is therefore named (`spec_decode_line`), so the reader's
//! contracts say exactly which lines yield a record, which count as
//! malformed, and what each record holds.

use vstd::prelude::*;
use vstd::string::StrSliceExecFns;
use serde_json::Value;

verus! {

/// The plain fields a log line decodes to: identifier, session identifier
/// and server timestamp, then the optional client timestamp and the
/// optional canvas, webgl and port-contention hashes.
pub type LineFields = (
    Seq<char>,
    Seq<char>,
    Seq<char>,
    Option<Seq<char>>,
    Option<Seq<char>>,
    Option<Seq<char>>,
    Option<Seq<char>>,
);

/// What the JSON decoder yields for a line. The decode is a pure function
/// of the line text: `Some` exactly when the line is a JSON document whose
/// `id`, `sessionId` and `serverTimestamp` fields are strings, carrying
/// those strings and the optional fields. The JSON grammar itself is not
/// restated here; `decode_line` applies the name on every input.
pub uninterp spec fn spec_decode_line(line: Seq<char>) -> Option<LineFields>;

/// The view of an optional string.
pub open spec fn opt_view(o: Option<String>) -> Option<Seq<char>> {
    match o {
        Some(s) => Some(s@),
        None => None,
    }
}

/// Relies on serde_json (`from_str`, `Value::get`, `Value::as_str`): the
/// required half of the line decode named by `spec_decode_line`. It
/// succeeds exactly when the line is a JSON document whose `id`,
/// `sessionId` and `serverTimestamp` fields are strings, and then yields
/// those strings and the optional `clientTimestamp` string.
#[verifier::external_body]
fn decode_required(line: &str) -> (r: Option<(String, String, String, Option<String>)>)
    ensures
        r is Some <==> spec_decode_line(line@) is Some,
        r matches Some(t) ==> (spec_decode_line(line@) matches Some(d) && d.0 == t.0@ && d.1
            == t.1@ && d.2 == t.2@ && d.3 == opt_view(t.3)),
{
    let v: Value = serde_json::from_str(line).ok()?;
    let id = v.get("id")?.as_str()?.to_string();
    let session = v.get("sessionId")?.as_str()?.to_string();
    let stamp = v.get("serverTimestamp")?.as_str()?.to_string();
    let client = v.get("clientTimestamp").and_then(Value::as_str).map(str::to_string);
    Some((id, session, stamp, client))
}

/// Relies on serde_json (`from_str`, `Value::get`, `Value::as_str`): the
/// component half of the line decode named by `spec_decode_line`: the
/// string values under `data.proposalA.canvas`, `data.proposalA.webgl` and
/// `data.proposalB.portContention`, absent when missing or not strings.
/// On a line that does not decode the result is unconstrained (and unused).
#[verifier::external_body]
fn decode_components(line: &str) -> (r: (Option<String>, Option<String>, Option<String>))
    ensures
        spec_decode_line(line@) matches Some(d) ==> (opt_view(r.0) == d.4 && opt_view(r.1) == d.5
            && opt_view(r.2) == d.6),
{
    let v = serde_json::from_str::<Value>(line).ok();
    let data = v.as_ref().and_then(|v| v.get("data"));
    let a = data.and_then(|d| d.get("proposalA"));
    let b = data.and_then(|d| d.get("proposalB"));
    let canvas = a.and_then(|p| p.get("canvas")).and_then(Value::as_str).map(str::to_string);
    let webgl = a.and_then(|p| p.get("webgl")).and_then(Value::as_str).map(str::to_string);
    let pc = b.and_then(|p| p.get("portContention")).and_then(Value::as_str).map(str::to_string);
    (canvas, webgl, pc)
}

/// One fingerprint record of the log: the identifier under study (the
/// digest whose entropy is measured), its session, timestamps, and the
/// per-component hashes where the collector supplied them.
pub struct FingerprintRecord {
    pub id: String,
    pub session_id: String,
    pub server_timestamp: String,
    pub client_timestamp: Option<String>,
    pub canvas: Option<String>,
    pub webgl: Option<String>,
    pub port_contention: Option<String>,
}

/// What every parsed record satisfies: the server timestamp is ASCII and
/// long enough to carry an hour bucket (`YYYY-MM-DDTHH`, 13 characters).
pub open spec fn record_wf(r: FingerprintRecord) -> bool {
    &&& r.server_timestamp@.len() >= 13
    &&& vstd::utf8::is_ascii_chars(r.server_timestamp@)
}

/// A line the reader accepts: it decodes, and its server timestamp is an
/// ASCII string of at least 13 characters (an ISO-8601-like stamp, so the
/// hour bucket exists).
pub open spec fn spec_line_valid(line: Seq<char>) -> bool {
    match spec_decode_line(line) {
        Some(d) => d.2.len() >= 13 && vstd::utf8::is_ascii_chars(d.2),
        None => false,
    }
}

/// The record a line's decoded fields populate.
pub open spec fn record_matches(rec: FingerprintRecord, d: LineFields) -> bool {
    &&& rec.id@ == d.0
    &&& rec.session_id@ == d.1
    &&& rec.server_timestamp@ == d.2
    &&& opt_view(rec.client_timestamp) == d.3
    &&& opt_view(rec.canvas) == d.4
    &&& opt_view(rec.webgl) == d.5
    &&& opt_view(rec.port_contention) == d.6
}

/// Decodes one log line into a record: `Some` exactly on the accepted
/// lines, carrying precisely the decoded fields.
pub fn parse_record(line: &str) -> (r: Option<FingerprintRecord>)
    ensures
        r is Some <==> spec_line_valid(line@),
        r matches Some(rec) ==> (spec_decode_line(line@) matches Some(d) && record_matches(rec, d)
            && record_wf(rec)),
{
    let t = match decode_required(line) {
        Some(t) => t,
        None => {
            return None;
        },
    };
    let (id, session_id, server_timestamp, client_timestamp) = t;
    if !(server_timestamp.as_str().is_ascii() && server_timestamp.as_str().unicode_len() >= 13) {
        return None;
    }
    let (canvas, webgl, port_contention) = decode_components(line);
    Some(
        FingerprintRecord {
            id,
            session_id,
            server_timestamp,
            client_timestamp,
            canvas,
            webgl,
            port_contention,
        },
    )
}

/// A line of nothing but ASCII whitespace, which the reader passes over
/// silently.
pub open spec fn spec_is_blank(s: Seq<char>) -> bool {
    forall|i: int|
        0 <= i < s.len() ==> (s[i] == ' ' || s[i] == '\t' || s[i] == '\r' || s[i] == '\n')
}

/// Whether a line holds only whitespace.
pub fn is_blank_line(line: &str) -> (b: bool)
    ensures
        b == spec_is_blank(line@),
{
    let n = line.unicode_len();
    let mut i: usize = 0;
    while i < n
        invariant
            i <= n,
            n == line@.len(),
            forall|k: int|
                0 <= k < i ==> (line@[k] == ' ' || line@[k] == '\t' || line@[k] == '\r'
                    || line@[k] == '\n'),
        decreases n - i,
    {
        let c = line.get_char(i);
        if !(c == ' ' || c == '\t' || c == '\r' || c == '\n') {
            return false;
        }
        i = i + 1;
    }
    true
}

/// The decoded fields of the accepted lines among the first `n`, in line
/// order.
pub open spec fn spec_valid_fields(lines: Seq<Seq<char>>, n: int) -> Seq<LineFields>
    decreases n,
{
    if n <= 0 {
        Seq::empty()
    } else {
        spec_valid_fields(lines, n - 1) + (if !spec_is_blank(lines[n - 1]) && spec_line_valid(
            lines[n - 1],
        ) {
            seq![spec_decode_line(lines[n - 1])->Some_0]
        } else {
            Seq::empty()
        })
    }
}

/// The number of malformed lines among the first `n`: neither blank nor
/// accepted.
pub open spec fn spec_malformed_count(lines: Seq<Seq<char>>, n: int) -> int
    decreases n,
{
    if n <= 0 {
        0
    } else {
        spec_malformed_count(lines, n - 1) + (if !spec_is_blank(lines[n - 1]) && !spec_line_valid(
            lines[n - 1],
        ) {
            1int
        } else {
            0int
        })
    }
}

/// The number of non-blank lines among the first `n`.
pub open spec fn spec_nonblank_count(lines: Seq<Seq<char>>, n: int) -> int
    decreases n,
{
    if n <= 0 {
        0
    } else {
        spec_nonblank_count(lines, n - 1) + (if !spec_is_blank(lines[n - 1]) {
            1int
        } else {
            0int
        })
    }
}

/// Decodes a log, line by line: blank lines are passed over, the accepted
/// lines yield their records in order, and every other line counts as
/// malformed instead of aborting the batch — each non-blank line
/// contributes exactly one record or one malformed count.
pub fn parse_records(lines: &Vec<String>) -> (r: (Vec<FingerprintRecord>, usize))
    ensures
        r.0@.len() == spec_valid_fields(lines.deep_view(), lines@.len() as int).len(),
        forall|i: int|
            0 <= i < r.0@.len() ==> record_matches(
                #[trigger] r.0@[i],
                spec_valid_fields(lines.deep_view(), lines@.len() as int)[i],
            ) && record_wf(r.0@[i]),
        r.1 == spec_malformed_count(lines.deep_view(), lines@.len() as int),
        r.0@.len() + r.1 == spec_nonblank_count(lines.deep_view(), lines@.len() as int),
        r.0@.len() + r.1 <= lines@.len(),
{
    let ghost dv = lines.deep_view();
    let mut records: Vec<FingerprintRecord> = Vec::new();
    let mut malformed: usize = 0;
    let mut i: usize = 0;
    while i < lines.len()
        invariant
            i <= lines@.len(),
            dv == lines.deep_view(),
            dv.len() == lines@.len(),
            forall|k: int| 0 <= k < lines@.len() ==> dv[k] == lines@[k]@,
            records@.len() == spec_valid_fields(dv, i as int).len(),
            forall|k: int|
                0 <= k < records@.len() ==> record_matches(
                    #[trigger] records@[k],
                    spec_valid_fields(dv, i as int)[k],
                ) && record_wf(records@[k]),
            malformed == spec_malformed_count(dv, i as int),
            records@.len() + malformed == spec_nonblank_count(dv, i as int),
            records@.len() + malformed <= i,
        decreases lines@.len() - i,
    {
        let line = &lines[i];
        if !is_blank_line(line.as_str()) {
            match parse_record(line.as_str()) {
                Some(rec) => {
                    records.push(rec);
                    proof {
                        assert(spec_valid_fields(dv, i + 1) =~= spec_valid_fields(dv, i as int)
                            + seq![spec_decode_line(dv[i as int])->Some_0]);
                    }
                },
                None => {
                    malformed = malformed + 1;
                },
            }
        }
        i = i + 1;
    }
    (records, malformed)
}

} // verus!
