//! The mail-facing pieces of the follow-up action: choosing a reply body
//! out of a fetched message, the retrieval query, and the wire form of a
//! nudge. The network calls themselves happen in the surrounding process;
//! here stand the decoding and formatting rules, verified, over plain
//! values.

use base64::Engine;
use vstd::prelude::*;
use vstd::string::{StrSliceExecFns, StringExecFns};
use vstd::utf8::{decode_utf8, valid_utf8};
use crate::memory::{MAX_STAMP_SECS, MAX_TIME_SECS};

verus! {

/// How many most-recent messages one harvest asks the retrieval
/// collaborator for.
pub const REPLY_FETCH_LIMIT: u32 = 5;

/// One alternative part of a fetched message: its media type and its
/// body data as the transport encodes it (URL-safe base64, unpadded).
#[derive(Clone, Debug)]
pub struct MsgPart {
    pub mime_type: Option<String>,
    pub data: Option<Vec<u8>>,
}

/// Abstract value of a message part.
pub struct MsgPartModel {
    pub mime_type: Option<Seq<char>>,
    pub data: Option<Seq<u8>>,
}

impl View for MsgPart {
    type V = MsgPartModel;

    open spec fn view(&self) -> MsgPartModel {
        MsgPartModel {
            mime_type: match self.mime_type {
                Some(m) => Some(m@),
                None => None,
            },
            data: match self.data {
                Some(d) => Some(d@),
                None => None,
            },
        }
    }
}

impl DeepView for MsgPart {
    type V = MsgPartModel;

    open spec fn deep_view(&self) -> MsgPartModel {
        self@
    }
}

/// What the extraction logic reads of one fetched message: the main body
/// data, the alternative parts in order, and the preview snippet.
#[derive(Clone, Debug)]
pub struct FetchedMsg {
    pub body_data: Option<Vec<u8>>,
    pub parts: Vec<MsgPart>,
    pub snippet: Option<String>,
}

/// Abstract value of a fetched message.
pub struct FetchedMsgModel {
    pub body_data: Option<Seq<u8>>,
    pub parts: Seq<MsgPartModel>,
    pub snippet: Option<Seq<char>>,
}

impl View for FetchedMsg {
    type V = FetchedMsgModel;

    open spec fn view(&self) -> FetchedMsgModel {
        FetchedMsgModel {
            body_data: match self.body_data {
                Some(d) => Some(d@),
                None => None,
            },
            parts: self.parts.deep_view(),
            snippet: match self.snippet {
                Some(s) => Some(s@),
                None => None,
            },
        }
    }
}

/// Whether a part announces a plain-text body.
pub open spec fn spec_part_is_text(p: MsgPartModel) -> bool {
    let mt = match p.mime_type {
        Some(m) => m,
        None => Seq::<char>::empty(),
    };
    "text/plain"@.len() <= mt.len() && mt.subrange(0, "text/plain"@.len() as int) == "text/plain"@
}

/// The body data of the first plain-text part, if that part carries any;
/// no further part is consulted once one matches.
pub open spec fn spec_first_text_data(parts: Seq<MsgPartModel>) -> Option<Seq<u8>>
    decreases parts.len(),
{
    if parts.len() == 0 {
        None
    } else if spec_part_is_text(parts.first()) {
        parts.first().data
    } else {
        spec_first_text_data(parts.drop_first())
    }
}

/// The encoded body a message offers: the main body data, or else the
/// first plain-text part's.
pub open spec fn spec_candidate_data(m: FetchedMsgModel) -> Option<Seq<u8>> {
    match m.body_data {
        Some(d) => Some(d),
        None => spec_first_text_data(m.parts),
    }
}

/// The snippet, or nothing.
pub open spec fn spec_snippet_or_empty(m: FetchedMsgModel) -> Seq<char> {
    match m.snippet {
        Some(s) => s,
        None => Seq::<char>::empty(),
    }
}

/// The reply body a fetched message yields: its candidate data decoded
/// from transport base64 and read as UTF-8; on any failure along that
/// chain, the snippet.
pub open spec fn spec_extracted_body(m: FetchedMsgModel) -> Seq<char> {
    match spec_candidate_data(m) {
        None => spec_snippet_or_empty(m),
        Some(d) => match b64url_decoded(d) {
            None => spec_snippet_or_empty(m),
            Some(bytes) => if valid_utf8(bytes) {
                decode_utf8(bytes)
            } else {
                spec_snippet_or_empty(m)
            },
        },
    }
}

/// What base64's URL-safe, unpadded alphabet decodes a byte string to, if
/// anything.
pub uninterp spec fn b64url_decoded(s: Seq<u8>) -> Option<Seq<u8>>;

/// Relies on base64's `Engine::decode` with the `URL_SAFE_NO_PAD` engine:
/// decoding succeeds or fails, and its result depends on the input bytes
/// alone.
#[verifier::external_body]
fn b64url_decode(input: &Vec<u8>) -> (r: Option<Vec<u8>>)
    ensures
        match r {
            Some(v) => b64url_decoded(input@) == Some(v@),
            None => b64url_decoded(input@) is None,
        },
{
    match base64::engine::general_purpose::URL_SAFE_NO_PAD.decode(input) {
        Ok(v) => Some(v),
        Err(_) => None,
    }
}

/// Relies on `String::from_utf8`: it succeeds exactly on valid UTF-8 and
/// yields the decoding of the bytes.
#[verifier::external_body]
fn utf8_to_string(bytes: Vec<u8>) -> (r: Option<String>)
    ensures
        (r is Some) == valid_utf8(bytes@),
        match r {
            Some(s) => s@ == decode_utf8(bytes@),
            None => true,
        },
{
    match String::from_utf8(bytes) {
        Ok(s) => Some(s),
        Err(_) => None,
    }
}

/// Whether `s` begins with `prefix`, by characters.
fn str_starts_with(s: &str, prefix: &str) -> (r: bool)
    ensures
        r == (prefix@.len() <= s@.len() && s@.subrange(0, prefix@.len() as int) == prefix@),
{
    let n = prefix.unicode_len();
    let m = s.unicode_len();
    if m < n {
        return false;
    }
    let mut i: usize = 0;
    while i < n
        invariant
            0 <= i <= n,
            n == prefix@.len(),
            m == s@.len(),
            n <= m,
            forall|j: int| 0 <= j < i ==> s@[j] == prefix@[j],
        decreases n - i,
    {
        if s.get_char(i) != prefix.get_char(i) {
            proof {
                assert(s@.subrange(0, n as int)[i as int] == s@[i as int]);
            }
            return false;
        }
        i = i + 1;
    }
    proof {
        assert(s@.subrange(0, n as int) =~= prefix@);
    }
    true
}

/// Whether this part announces a plain-text body.
fn part_is_text(p: &MsgPart) -> (r: bool)
    ensures
        r == spec_part_is_text(p@),
{
    proof {
        reveal_strlit("text/plain");
    }
    match &p.mime_type {
        Some(m) => str_starts_with(m.as_str(), "text/plain"),
        None => false,
    }
}

/// The first plain-text part's data, as the extraction rule reads it.
fn first_text_data(parts: &Vec<MsgPart>) -> (r: Option<&Vec<u8>>)
    ensures
        match r {
            Some(v) => spec_first_text_data(parts.deep_view()) == Some(v@),
            None => spec_first_text_data(parts.deep_view()) is None,
        },
{
    let ghost dv = parts.deep_view();
    proof {
        assert(dv.skip(0) =~= dv);
    }
    let mut i: usize = 0;
    while i < parts.len()
        invariant
            0 <= i <= parts@.len(),
            dv == parts.deep_view(),
            dv.len() == parts@.len(),
            spec_first_text_data(dv.skip(i as int)) == spec_first_text_data(dv),
        decreases parts@.len() - i,
    {
        proof {
            assert(dv.skip(i as int).first() == dv[i as int]);
            assert(dv.skip(i as int).drop_first() =~= dv.skip(i as int + 1));
            assert(dv[i as int] == parts@[i as int]@);
        }
        if part_is_text(&parts[i]) {
            return match &parts[i].data {
                Some(d) => Some(d),
                None => None,
            };
        }
        i = i + 1;
    }
    proof {
        assert(dv.skip(parts@.len() as int) =~= Seq::<MsgPartModel>::empty());
    }
    None
}

/// The snippet, or an empty string.
fn snippet_or_empty(msg: &FetchedMsg) -> (r: String)
    ensures
        r@ == spec_snippet_or_empty(msg@),
{
    match &msg.snippet {
        Some(s) => s.clone(),
        None => String::new(),
    }
}

/// Pick the reply body out of a fetched message: the main body data, or
/// else the first plain-text part's, decoded from transport base64 and
/// read as UTF-8; on any failure along that chain, the snippet.
pub fn extract_reply_body(msg: &FetchedMsg) -> (r: String)
    ensures
        r@ == spec_extracted_body(msg@),
{
    let candidate: Option<&Vec<u8>> = match &msg.body_data {
        Some(d) => Some(d),
        None => first_text_data(&msg.parts),
    };
    match candidate {
        None => snippet_or_empty(msg),
        Some(b64) => match b64url_decode(b64) {
            None => snippet_or_empty(msg),
            Some(bytes) => match utf8_to_string(bytes) {
                Some(txt) => txt,
                None => snippet_or_empty(msg),
            },
        },
    }
}

/// The calendar day a timestamp falls on, written year/month/day, as the
/// retrieval query wants it.
pub uninterp spec fn gmail_date_of(secs: int) -> Seq<char>;

/// Relies on chrono's `DateTime::from_timestamp` and the `%Y/%m/%d` form
/// of its `format`: a timestamp in this range always maps to one calendar
/// date, a pure function of the timestamp.
#[verifier::external_body]
fn gmail_date(secs: i64) -> (r: String)
    requires
        -MAX_TIME_SECS <= secs <= MAX_STAMP_SECS,
    ensures
        r@ == gmail_date_of(secs as int),
{
    let dt = chrono::DateTime::<chrono::Utc>::from_timestamp(secs, 0).unwrap();
    dt.format("%Y/%m/%d").to_string()
}

/// The retrieval query for one contact: everything from their address
/// after the given day.
pub fn build_reply_query(email: &str, after_secs: i64) -> (r: String)
    requires
        -MAX_TIME_SECS <= after_secs <= MAX_STAMP_SECS,
    ensures
        r@ == "from:"@ + email@ + " after:"@ + gmail_date_of(after_secs as int),
{
    let mut s: String = "from:".to_owned();
    s.append(email);
    s.append(" after:");
    let d = gmail_date(after_secs);
    s.append(d.as_str());
    proof {
        assert(s@ =~= "from:"@ + email@ + " after:"@ + gmail_date_of(after_secs as int));
    }
    s
}

/// The wire form of a nudge: a minimal mail message with a fixed subject
/// and a plain-text body.
pub fn rfc822_message(to: &str, body: &str) -> (r: String)
    ensures
        r@ == "To: "@ + to@
            + "\r\nSubject: Quick chat?\r\nContent-Type: text/plain; charset=\"UTF-8\"\r\n\r\n"@
            + body@,
{
    let mut s: String = "To: ".to_owned();
    s.append(to);
    s.append("\r\nSubject: Quick chat?\r\nContent-Type: text/plain; charset=\"UTF-8\"\r\n\r\n");
    s.append(body);
    proof {
        assert(s@ =~= "To: "@ + to@
            + "\r\nSubject: Quick chat?\r\nContent-Type: text/plain; charset=\"UTF-8\"\r\n\r\n"@
            + body@);
    }
    s
}

} // verus!
