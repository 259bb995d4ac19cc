//! The eQSL inbox: confirmations come back as ADIF from
//! `DownloadInBox.cfm`.
use vstd::prelude::*;
use vstd::string::StringSliceAdditionalSpecFns;

use crate::adif::{adi_records, fast_parse_adi, record_view, AdifField, FieldV};
use crate::adif_report::{
    field_upper, field_value, format_iso_date, iso_date, names_call_and_date, reported_positions,
};
use crate::datetime::{date_compact, UtcDateTime};
use crate::import::{lookup, opt_upper, opt_view};
use crate::text::{
    chars_contain_str, chars_of, chars_start_with_str, contains_seq, lower_chars, lower_seq,
    starts_with, trim_start, trim_start_chars, upper_seq,
};
use crate::value::string_of;

verus! {

/// Where the inbox is fetched unless told otherwise.
pub open spec fn eqsl_default_fetch_url() -> Seq<char> {
    "https://www.eqsl.cc/qslcard/DownloadInBox.cfm"@
}

/// Account and endpoint of the eQSL inbox.
#[derive(Debug, Clone)]
pub struct EqslFetchConfig {
    pub username: String,
    pub password: String,
    pub fetch_url: String,
}

impl EqslFetchConfig {
    pub fn new(username: &str, password: &str) -> (r: EqslFetchConfig)
        ensures
            r.username@ == username@,
            r.password@ == password@,
            r.fetch_url@ == eqsl_default_fetch_url(),
    {
        EqslFetchConfig {
            username: string_of(username),
            password: string_of(password),
            fetch_url: string_of("https://www.eqsl.cc/qslcard/DownloadInBox.cfm"),
        }
    }

    pub fn with_fetch_url(self, url: &str) -> (r: EqslFetchConfig)
        ensures
            r.username == self.username,
            r.password == self.password,
            r.fetch_url@ == url@,
    {
        EqslFetchConfig { fetch_url: string_of(url), ..self }
    }
}

/// Why the inbox could not be had.
#[derive(Debug, Clone)]
pub enum FetchError {
    Http(String),
    Parse(String),
    Rejected(String),
}

pub open spec fn fetch_error_text(e: FetchError) -> Seq<char> {
    match e {
        FetchError::Http(s) => "HTTP error: "@ + s@,
        FetchError::Parse(s) => "ADIF parse error: "@ + s@,
        FetchError::Rejected(s) => "eQSL rejected request: "@ + s@,
    }
}

impl FetchError {
    /// The error's message, as its `Display` would write it.
    pub fn message(&self) -> (r: String)
        ensures
            r@ == fetch_error_text(*self),
    {
        let (p, s) = match self {
            FetchError::Http(s) => (string_of("HTTP error: "), s),
            FetchError::Parse(s) => (string_of("ADIF parse error: "), s),
            FetchError::Rejected(s) => (string_of("eQSL rejected request: "), s),
        };
        let mut r = p;
        r.append(s.as_str());
        r
    }
}

/// One confirmation of the inbox: station, worked call, `YYYY-MM-DD`
/// date, band and mode (upper case), and the `YYYY-MM-DD` date it was
/// received.
#[derive(Debug, Clone)]
pub struct EqslInboxRecord {
    pub station_callsign: Option<String>,
    pub worked_callsign: String,
    pub qso_date: String,
    pub band: Option<String>,
    pub mode: Option<String>,
    pub qsl_rdate: Option<String>,
}

/// `c` is what the inbox row `rec` says.
pub open spec fn inbox_fits(c: EqslInboxRecord, rec: Seq<FieldV>) -> bool {
    &&& lookup(rec, "CALL"@) matches Some(call) && c.worked_callsign@ == upper_seq(call)
    &&& lookup(rec, "QSO_DATE"@) matches Some(d) && c.qso_date@ == iso_date(d)
    &&& opt_view(c.station_callsign) == opt_upper(lookup(rec, "STATION_CALLSIGN"@))
    &&& opt_view(c.band) == opt_upper(lookup(rec, "BAND"@))
    &&& opt_view(c.mode) == opt_upper(lookup(rec, "MODE"@))
    &&& opt_view(c.qsl_rdate) == match lookup(rec, "QSLRDATE"@) {
        Some(d) => Some(iso_date(d)),
        None => None,
    }
}

/// The rows that name a callsign and a date, read in order.
pub open spec fn inbox_list_fits(v: Seq<EqslInboxRecord>, recs: Seq<Seq<FieldV>>) -> bool {
    let ps = reported_positions(recs, recs.len() as int);
    &&& v.len() == ps.len()
    &&& forall|t: int| 0 <= t < v.len() ==> inbox_fits(#[trigger] v[t], recs[ps[t]])
}

/// The confirmation an inbox row carries, if it names a callsign and a
/// date.
pub fn inbox_record_of(record: &Vec<AdifField>) -> (r: Option<EqslInboxRecord>)
    ensures
        match r {
            Some(c) => names_call_and_date(record_view(record@)) && inbox_fits(c, record_view(record@)),
            None => !names_call_and_date(record_view(record@)),
        },
{
    let call = match field_upper(record, "CALL") {
        Some(c) => c,
        None => return None,
    };
    let date = match field_value(record, "QSO_DATE") {
        Some(d) => d,
        None => return None,
    };
    let rdate = match field_value(record, "QSLRDATE") {
        Some(d) => Some(format_iso_date(d.as_str())),
        None => None,
    };
    Some(
        EqslInboxRecord {
            station_callsign: field_upper(record, "STATION_CALLSIGN"),
            worked_callsign: call,
            qso_date: format_iso_date(date.as_str()),
            band: field_upper(record, "BAND"),
            mode: field_upper(record, "MODE"),
            qsl_rdate: rdate,
        },
    )
}

/// Every row of an inbox that names a callsign and a date.
pub fn parse_inbox_adif(body: &str) -> (r: Result<Vec<EqslInboxRecord>, FetchError>)
    ensures
        r matches Ok(v) && inbox_list_fits(v@, adi_records(body.spec_bytes())),
{
    let recs = fast_parse_adi(body);
    let ghost rv = adi_records(body.spec_bytes());
    let mut out: Vec<EqslInboxRecord> = Vec::new();
    let mut i: usize = 0;
    while i < recs.len()
        invariant
            i <= recs.len(),
            rv.len() == recs@.len(),
            forall|k: int| 0 <= k < recs@.len() ==> #[trigger] rv[k] == record_view(recs@[k]@),
            out@.len() == reported_positions(rv, i as int).len(),
            forall|t: int|
                0 <= t < out@.len() ==> inbox_fits(
                    #[trigger] out@[t],
                    rv[reported_positions(rv, i as int)[t]],
                ),
        decreases recs.len() - i,
    {
        match inbox_record_of(&recs[i]) {
            Some(c) => {
                out.push(c);
            },
            None => {},
        }
        i = i + 1;
    }
    Ok(out)
}

/// The query of an inbox request: account, and the first received date
/// (`YYYYMMDD`) when given.
pub open spec fn inbox_query_spec(c: EqslFetchConfig, rcvd_since: Option<UtcDateTime>) -> Seq<
    (Seq<char>, Seq<char>),
> {
    seq![("UserName"@, c.username@), ("Password"@, c.password@)] + match rcvd_since {
        Some(d) => seq![("RcvdSince"@, date_compact(d))],
        None => seq![],
    }
}

pub fn inbox_query(c: &EqslFetchConfig, rcvd_since: Option<UtcDateTime>) -> (r: Vec<(String, String)>)
    ensures
        r@.map_values(|p: (String, String)| (p.0@, p.1@)) == inbox_query_spec(*c, rcvd_since),
{
    let mut r: Vec<(String, String)> = Vec::new();
    r.push((string_of("UserName"), string_of(c.username.as_str())));
    r.push((string_of("Password"), string_of(c.password.as_str())));
    match rcvd_since {
        Some(d) => {
            r.push((string_of("RcvdSince"), d.date_compact()));
        },
        None => {},
    }
    assert(r@.map_values(|p: (String, String)| (p.0@, p.1@)) =~= inbox_query_spec(*c, rcvd_since));
    r
}

/// eQSL reports a refused request with status 200 and a body that starts
/// with `Error:` or speaks of failed authentication (any case, leading
/// whitespace ignored).
pub open spec fn inbox_refused(body: Seq<char>) -> bool {
    let l = lower_seq(trim_start(body));
    starts_with(l, "error:"@) || contains_seq(l, "authentication failed"@)
}

/// The result of an inbox reply: a status other than success is an HTTP
/// error with the status and the body; a refusal is `Rejected` with the
/// body; otherwise the body is read as ADIF.
pub fn inbox_response(success: bool, status: &str, body: &str) -> (r: Result<Vec<EqslInboxRecord>, FetchError>)
    ensures
        !success ==> (r matches Err(FetchError::Http(s)) && s@ == "status "@ + status@ + ": "@ + body@),
        success && inbox_refused(body@) ==> (r matches Err(FetchError::Rejected(s)) && s@ == body@),
        success && !inbox_refused(body@) ==> (r matches Ok(v) && inbox_list_fits(
            v@,
            adi_records(body.spec_bytes()),
        )),
{
    if !success {
        let mut s = string_of("status ");
        s.append(status);
        s.append(": ");
        s.append(body);
        return Err(FetchError::Http(s));
    }
    let l = lower_chars(&trim_start_chars(&chars_of(body)));
    if chars_start_with_str(l.as_slice(), "error:") || chars_contain_str(
        l.as_slice(),
        "authentication failed",
    ) {
        return Err(FetchError::Rejected(string_of(body)));
    }
    parse_inbox_adif(body)
}

} // verus!
