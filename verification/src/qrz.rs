//! QRZ.com logbook upload. The API takes one QSO per request, so a
//! multi-record ADIF text is split at its `<EOR>` tags and each record is
//! posted on its own; the reply is `RESULT=OK&LOGID=…` or
//! `RESULT=FAIL&REASON=…`.
use vstd::prelude::*;
use vstd::string::StringSliceAdditionalSpecFns;

use crate::text::{
    chars_contain_str, chars_occur_at, chars_of, contains_seq, lower_chars, lower_seq, occurs_at,
    str_chars, str_trim, string_from_chars, trim, trim_chars,
};
use crate::value::string_of;

verus! {

/// Where records go unless told otherwise.
pub open spec fn qrz_default_upload_url() -> Seq<char> {
    "https://logbook.qrz.com/api"@
}

/// The logbook API key and endpoint.
#[derive(Debug, Clone)]
pub struct QrzConfig {
    pub api_key: String,
    pub upload_url: String,
}

impl QrzConfig {
    pub fn new(api_key: &str) -> (r: QrzConfig)
        ensures
            r.api_key@ == api_key@,
            r.upload_url@ == qrz_default_upload_url(),
    {
        QrzConfig { api_key: string_of(api_key), upload_url: string_of("https://logbook.qrz.com/api") }
    }

    pub fn with_upload_url(self, url: &str) -> (r: QrzConfig)
        ensures
            r.api_key == self.api_key,
            r.upload_url@ == url@,
    {
        QrzConfig { upload_url: string_of(url), ..self }
    }
}

/// Why a record was not taken: the transport failed, or QRZ refused it.
#[derive(Debug, Clone)]
pub enum UploadError {
    Http(String),
    Rejected(String),
}

pub open spec fn upload_error_text(e: UploadError) -> Seq<char> {
    match e {
        UploadError::Http(s) => "HTTP error: "@ + s@,
        UploadError::Rejected(s) => "QRZ rejected: "@ + s@,
    }
}

impl UploadError {
    /// The error's message, as its `Display` would write it.
    pub fn message(&self) -> (r: String)
        ensures
            r@ == upload_error_text(*self),
    {
        match self {
            UploadError::Http(s) => {
                let mut r = string_of("HTTP error: ");
                r.append(s.as_str());
                r
            },
            UploadError::Rejected(s) => {
                let mut r = string_of("QRZ rejected: ");
                r.append(s.as_str());
                r
            },
        }
    }
}

/// How an upload went: records taken, records refused, and QRZ's reply
/// for each refused one.
#[derive(Debug, Clone)]
pub struct UploadOutcome {
    pub accepted: usize,
    pub rejected: usize,
    pub errors: Vec<String>,
}

/// The first position at or after `i` where `t` occurs in `s`.
pub open spec fn find_from(s: Seq<char>, t: Seq<char>, i: int) -> Option<int>
    decreases s.len() + 1 - i,
{
    if i < 0 || i + t.len() > s.len() {
        None
    } else if occurs_at(s, t, i) {
        Some(i)
    } else {
        find_from(s, t, i + 1)
    }
}

/// The records of `s` from `start` on: each piece up to and including the
/// next `<eor>` of the lower-cased text `l`, trimmed, empty ones left
/// out; text after the last `<eor>` is dropped.
pub open spec fn eor_pieces(s: Seq<char>, l: Seq<char>, start: int) -> Seq<Seq<char>>
    decreases l.len() + 1 - start,
{
    if start < 0 || start > l.len() {
        seq![]
    } else {
        match find_from(l, "<eor>"@, start) {
            Some(i) => {
                let end = i + 5;
                if end <= start || end > l.len() {
                    seq![]
                } else {
                    let piece = trim(s.subrange(start, end));
                    (if piece.len() > 0 {
                        seq![piece]
                    } else {
                        seq![]
                    }) + eor_pieces(s, l, end)
                }
            },
            None => seq![],
        }
    }
}

/// Where the records of an ADIF text begin: just after `<EOH>` (any
/// case), or at the start when there is no header.
pub open spec fn records_start(s: Seq<char>) -> int {
    match find_from(lower_seq(s), "<eoh>"@, 0) {
        Some(i) => i + 5,
        None => 0,
    }
}

/// The records of an ADIF text, each ending in its `<EOR>`.
pub open spec fn split_records_spec(s: Seq<char>) -> Seq<Seq<char>> {
    eor_pieces(s, lower_seq(s), records_start(s))
}

proof fn lemma_find_from_bounds(s: Seq<char>, t: Seq<char>, i: int)
    ensures
        match find_from(s, t, i) {
            Some(j) => i <= j && j + t.len() <= s.len() && occurs_at(s, t, j),
            None => true,
        },
    decreases s.len() + 1 - i,
{
    if !(i < 0 || i + t.len() > s.len()) && !occurs_at(s, t, i) {
        lemma_find_from_bounds(s, t, i + 1);
    }
}

fn find_from_exec(s: &Vec<char>, t: &str, i: usize) -> (r: Option<usize>)
    requires
        i <= s.len(),
        t@.len() > 0,
    ensures
        match r {
            Some(j) => find_from(s@, t@, i as int) == Some(j as int),
            None => find_from(s@, t@, i as int) is None,
        },
{
    let tv = str_chars(t);
    let mut k: usize = i;
    while tv.len() <= s.len() - k
        invariant
            i <= k,
            k <= s.len(),
            tv@ == t@,
            t@.len() > 0,
            find_from(s@, t@, i as int) == find_from(s@, t@, k as int),
        decreases s.len() - k,
    {
        if chars_occur_at(s.as_slice(), tv.as_slice(), k) {
            return Some(k);
        }
        k = k + 1;
    }
    None
}

/// `find_after_eoh`: the position just after the header's `<EOH>`.
pub fn find_after_eoh(adif: &str) -> (r: Option<usize>)
    ensures
        match r {
            Some(p) => find_from(lower_seq(adif@), "<eoh>"@, 0) == Some(p - 5),
            None => find_from(lower_seq(adif@), "<eoh>"@, 0) is None,
        },
{
    let l = lower_chars(&chars_of(adif));
    proof {
        reveal_strlit("<eoh>");
    }
    assert("<eoh>"@.len() == 5);
    match find_from_exec(&l, "<eoh>", 0) {
        Some(i) => {
            proof {
                lemma_find_from_bounds(l@, "<eoh>"@, 0);
            }
            let n = l.len();
            assert(i + 5 <= n);
            Some(i + 5)
        },
        None => None,
    }
}

fn chars_range(s: &Vec<char>, a: usize, b: usize) -> (r: Vec<char>)
    requires
        a <= b <= s.len(),
    ensures
        r@ == s@.subrange(a as int, b as int),
{
    let mut r: Vec<char> = Vec::new();
    let mut k: usize = a;
    while k < b
        invariant
            a <= k <= b <= s.len(),
            r@ == s@.subrange(a as int, k as int),
        decreases b - k,
    {
        r.push(s[k]);
        k = k + 1;
        assert(r@ =~= s@.subrange(a as int, k as int));
    }
    r
}

/// The records of a multi-record ADIF text, header dropped, each one
/// trimmed and ending in its `<EOR>`.
pub fn split_records(adif: &str) -> (r: Vec<String>)
    ensures
        r@.map_values(|x: String| x@) == split_records_spec(adif@),
{
    let s = chars_of(adif);
    let l = lower_chars(&s);
    proof {
        reveal_strlit("<eor>");
        reveal_strlit("<eoh>");
    }
    assert("<eoh>"@.len() == 5);
    assert("<eor>"@.len() == 5);
    let n = l.len();
    let mut start: usize = match find_from_exec(&l, "<eoh>", 0) {
        Some(i) => {
            proof {
                lemma_find_from_bounds(l@, "<eoh>"@, 0);
            }
            assert(i + 5 <= n);
            i + 5
        },
        None => 0,
    };
    let ghost s0 = start;
    let mut out: Vec<String> = Vec::new();
    assert(l@.len() == s@.len());
    let mut done = false;
    while !done
        invariant
            s@ == adif@,
            l@ == lower_seq(s@),
            l@.len() == s@.len(),
            n == l@.len(),
            "<eor>"@.len() == 5,
            s0 == records_start(adif@),
            start <= s@.len(),
            done ==> eor_pieces(s@, l@, start as int).len() == 0,
            out@.map_values(|x: String| x@) + eor_pieces(s@, l@, start as int) == eor_pieces(
                s@,
                l@,
                s0 as int,
            ),
        decreases s@.len() - start, if done { 0int } else { 1int },
    {
        match find_from_exec(&l, "<eor>", start) {
            Some(i) => {
                proof {
                    lemma_find_from_bounds(l@, "<eor>"@, start as int);
                }
                assert(i + 5 <= n);
                let end = i + 5;
                let piece = trim_chars(&chars_range(&s, start, end));
                let ghost before = out@.map_values(|x: String| x@);
                if piece.len() > 0 {
                    out.push(string_from_chars(piece.as_slice()));
                    assert(out@.map_values(|x: String| x@) =~= before.push(piece@));
                    assert(before.push(piece@) + eor_pieces(s@, l@, end as int) =~= before + (
                    seq![piece@] + eor_pieces(s@, l@, end as int)));
                } else {
                    assert(seq![] + eor_pieces(s@, l@, end as int) =~= eor_pieces(s@, l@, end as int));
                }
                start = end;
            },
            None => {
                done = true;
            },
        }
    }
    assert(out@.map_values(|x: String| x@) + eor_pieces(s@, l@, start as int) =~= out@.map_values(|x: String| x@));
    out
}

/// QRZ's verdict on a reply, without regard to case: taken when it says
/// `result=ok` or `result=replace` (a duplicate overwritten).
pub open spec fn qrz_taken(body: Seq<char>) -> bool {
    let l = lower_seq(trim(body));
    contains_seq(l, "result=ok"@) || contains_seq(l, "result=replace"@)
}

pub fn classify(body: &str) -> (r: Result<(), UploadError>)
    ensures
        qrz_taken(body@) ==> r is Ok,
        !qrz_taken(body@) ==> (r matches Err(UploadError::Rejected(s)) && s@ == body@),
{
    let l = lower_chars(&chars_of(str_trim(body)));
    if chars_contain_str(l.as_slice(), "result=ok") {
        return Ok(());
    }
    if chars_contain_str(l.as_slice(), "result=replace") {
        return Ok(());
    }
    Err(UploadError::Rejected(string_of(body)))
}

/// The result of the reply to one record: a status other than success is
/// an HTTP error with the status and the body; otherwise the body
/// decides.
pub fn record_response(success: bool, status: &str, body: &str) -> (r: Result<(), UploadError>)
    ensures
        !success ==> (r matches Err(UploadError::Http(s)) && s@ == "status "@ + status@ + ": "@
            + body@),
        success && qrz_taken(body@) ==> r is Ok,
        success && !qrz_taken(body@) ==> (r matches Err(UploadError::Rejected(s)) && s@ == body@),
{
    if !success {
        let mut s = string_of("status ");
        s.append(status);
        s.append(": ");
        s.append(body);
        return Err(UploadError::Http(s));
    }
    classify(body)
}

/// Bytes that form-encoding leaves as they are: ASCII letters and digits
/// and `-`, `.`, `_`, `~`.
pub open spec fn url_safe(b: u8) -> bool {
    (48 <= b <= 57) || (65 <= b <= 90) || (97 <= b <= 122) || b == 45 || b == 46 || b == 95
        || b == 126
}

/// An upper-case hexadecimal digit.
pub open spec fn hex_digit(d: u8) -> char {
    if d < 10 {
        (48 + d) as char
    } else {
        (55 + d) as char
    }
}

/// Percent-encoding of UTF-8 bytes: safe bytes stay, every other byte
/// becomes `%` and two upper-case hex digits.
pub open spec fn url_encoded(b: Seq<u8>) -> Seq<char>
    decreases b.len(),
{
    if b.len() == 0 {
        seq![]
    } else {
        let c = b[0];
        (if url_safe(c) {
            seq![c as char]
        } else {
            seq!['%', hex_digit(c / 16), hex_digit(c % 16)]
        }) + url_encoded(b.drop_first())
    }
}

/// `urlencoding::encode`: percent-encodes every byte of the UTF-8 text
/// except ASCII alphanumerics and `-`, `_`, `.`, `~`, with upper-case hex
/// digits.
#[verifier::external_body]
fn url_encode(s: &str) -> (r: String)
    ensures
        r@ == url_encoded(s.spec_bytes()),
{
    urlencoding::encode(s).into_owned()
}

/// The form-encoded body that inserts one record:
/// `KEY=…&ACTION=INSERT&ADIF=…`.
pub fn insert_body(api_key: &str, record: &str) -> (r: String)
    ensures
        r@ == "KEY="@ + url_encoded(api_key.spec_bytes()) + "&ACTION=INSERT&ADIF="@ + url_encoded(
            record.spec_bytes(),
        ),
{
    let mut r = string_of("KEY=");
    let k = url_encode(api_key);
    r.append(k.as_str());
    r.append("&ACTION=INSERT&ADIF=");
    let a = url_encode(record);
    r.append(a.as_str());
    r
}

/// Takes the result of one record's upload into the outcome: a success
/// counts as accepted, a refusal as rejected with its reply kept. A
/// transport failure stops the upload and is handed back.
pub fn record_result(outcome: &mut UploadOutcome, r: Result<(), UploadError>) -> (stop: Option<UploadError>)
    requires
        old(outcome).accepted < usize::MAX,
        old(outcome).rejected < usize::MAX,
    ensures
        match r {
            Ok(()) => stop is None && final(outcome).accepted == old(outcome).accepted + 1
                && final(outcome).rejected == old(outcome).rejected
                && final(outcome).errors@ == old(outcome).errors@,
            Err(UploadError::Rejected(msg)) => stop is None && final(outcome).accepted == old(
                outcome,
            ).accepted && final(outcome).rejected == old(outcome).rejected + 1
                && final(outcome).errors@ == old(outcome).errors@.push(msg),
            Err(UploadError::Http(e)) => stop == Some(UploadError::Http(e)) && *final(outcome)
                == *old(outcome),
        },
{
    match r {
        Ok(()) => {
            outcome.accepted = outcome.accepted + 1;
            None
        },
        Err(UploadError::Rejected(msg)) => {
            outcome.rejected = outcome.rejected + 1;
            outcome.errors.push(msg);
            None
        },
        Err(e) => Some(e),
    }
}

} // verus!
