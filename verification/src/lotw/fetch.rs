//! The LotW QSL report: every QSO of the account, or only the confirmed
//! ones, as ADIF; each row is read into the keys that match it against
//! the local log.
use vstd::prelude::*;
use vstd::string::StringSliceAdditionalSpecFns;

use crate::adif::{adi_records, fast_parse_adi, record_view, AdifField, FieldV};
use crate::adif_report::{
    field_upper, field_value, format_iso_date, iso_date, names_call_and_date, parse_qslrdate,
    qslr_instant, reported_positions,
};
use crate::datetime::{date_dashed, UtcDateTime};
use crate::import::{lookup, opt_upper, opt_view};
use crate::text::{chars_eq_str, chars_of, upper_seq};
use crate::value::string_of;

verus! {

/// Where the report is fetched unless told otherwise.
pub open spec fn lotw_default_report_url() -> Seq<char> {
    "https://lotw.arrl.org/lotwuser/lotwreport.adi"@
}

/// Account and endpoint of the LotW report.
#[derive(Debug, Clone)]
pub struct LotwFetchConfig {
    pub username: String,
    pub password: String,
    pub report_url: String,
}

impl LotwFetchConfig {
    pub fn new(username: &str, password: &str) -> (r: LotwFetchConfig)
        ensures
            r.username@ == username@,
            r.password@ == password@,
            r.report_url@ == lotw_default_report_url(),
    {
        LotwFetchConfig {
            username: string_of(username),
            password: string_of(password),
            report_url: string_of("https://lotw.arrl.org/lotwuser/lotwreport.adi"),
        }
    }

    pub fn with_report_url(self, url: &str) -> (r: LotwFetchConfig)
        ensures
            r.username == self.username,
            r.password == self.password,
            r.report_url@ == url@,
    {
        LotwFetchConfig { report_url: string_of(url), ..self }
    }
}

/// Why the report could not be had.
#[derive(Debug, Clone)]
pub enum FetchError {
    Http(String),
    Parse(String),
}

pub open spec fn fetch_error_text(e: FetchError) -> Seq<char> {
    match e {
        FetchError::Http(s) => "HTTP error: "@ + s@,
        FetchError::Parse(s) => "ADIF parse error: "@ + s@,
    }
}

impl FetchError {
    /// The error's message, as its `Display` would write it.
    pub fn message(&self) -> (r: String)
        ensures
            r@ == fetch_error_text(*self),
    {
        match self {
            FetchError::Http(s) => {
                let mut r = string_of("HTTP error: ");
                r.append(s.as_str());
                r
            },
            FetchError::Parse(s) => {
                let mut r = string_of("ADIF parse error: ");
                r.append(s.as_str());
                r
            },
        }
    }
}

/// One row of the report, by the keys that match it to a local QSO:
/// station, worked call, `YYYY-MM-DD` date, band and mode (upper case),
/// whether the other station confirmed, and when.
#[derive(Debug, Clone)]
pub struct ConfirmationRecord {
    pub station_callsign: Option<String>,
    pub worked_callsign: String,
    pub qso_date: String,
    pub band: Option<String>,
    pub mode: Option<String>,
    pub qsl_rcvd: bool,
    pub qsl_rdate: Option<UtcDateTime>,
}

/// `c` is what the report row `rec` says.
pub open spec fn confirmation_fits(c: ConfirmationRecord, rec: Seq<FieldV>) -> bool {
    &&& lookup(rec, "CALL"@) matches Some(call) && c.worked_callsign@ == upper_seq(call)
    &&& lookup(rec, "QSO_DATE"@) matches Some(d) && c.qso_date@ == iso_date(d)
    &&& opt_view(c.station_callsign) == opt_upper(lookup(rec, "STATION_CALLSIGN"@))
    &&& opt_view(c.band) == opt_upper(lookup(rec, "BAND"@))
    &&& opt_view(c.mode) == opt_upper(lookup(rec, "MODE"@))
    &&& c.qsl_rcvd == (lookup(rec, "QSL_RCVD"@) matches Some(v) && upper_seq(v) == "Y"@)
    &&& c.qsl_rdate == match lookup(rec, "QSLRDATE"@) {
        Some(d) => qslr_instant(d, lookup(rec, "QSLRTIME"@)),
        None => None,
    }
}

/// The rows that name a callsign and a date, read in order.
pub open spec fn report_fits(v: Seq<ConfirmationRecord>, recs: Seq<Seq<FieldV>>) -> bool {
    let ps = reported_positions(recs, recs.len() as int);
    &&& v.len() == ps.len()
    &&& forall|t: int| 0 <= t < v.len() ==> confirmation_fits(#[trigger] v[t], recs[ps[t]])
}

/// The confirmation a report row carries, if it names a callsign and a
/// date.
pub fn confirmation_of(record: &Vec<AdifField>) -> (r: Option<ConfirmationRecord>)
    ensures
        match r {
            Some(c) => names_call_and_date(record_view(record@)) && confirmation_fits(
                c,
                record_view(record@),
            ),
            None => !names_call_and_date(record_view(record@)),
        },
{
    let call = match field_upper(record, "CALL") {
        Some(c) => c,
        None => return None,
    };
    let date = match field_value(record, "QSO_DATE") {
        Some(d) => d,
        None => return None,
    };
    let rcvd = match field_upper(record, "QSL_RCVD") {
        Some(v) => chars_eq_str(chars_of(v.as_str()).as_slice(), "Y"),
        None => false,
    };
    let rdate = match field_value(record, "QSLRDATE") {
        Some(d) => {
            let t = field_value(record, "QSLRTIME");
            let tr: Option<&str> = match &t {
                Some(x) => Some(x.as_str()),
                None => None,
            };
            parse_qslrdate(d.as_str(), tr)
        },
        None => None,
    };
    Some(
        ConfirmationRecord {
            station_callsign: field_upper(record, "STATION_CALLSIGN"),
            worked_callsign: call,
            qso_date: format_iso_date(date.as_str()),
            band: field_upper(record, "BAND"),
            mode: field_upper(record, "MODE"),
            qsl_rcvd: rcvd,
            qsl_rdate: rdate,
        },
    )
}

/// Every row of a report that names a callsign and a date.
pub fn parse_report_adif(body: &str) -> (r: Result<Vec<ConfirmationRecord>, FetchError>)
    ensures
        r matches Ok(v) && report_fits(v@, adi_records(body.spec_bytes())),
{
    let recs = fast_parse_adi(body);
    let ghost rv = adi_records(body.spec_bytes());
    let mut out: Vec<ConfirmationRecord> = Vec::new();
    let mut i: usize = 0;
    while i < recs.len()
        invariant
            i <= recs.len(),
            rv.len() == recs@.len(),
            forall|k: int| 0 <= k < recs@.len() ==> #[trigger] rv[k] == record_view(recs@[k]@),
            out@.len() == reported_positions(rv, i as int).len(),
            forall|t: int|
                0 <= t < out@.len() ==> confirmation_fits(
                    #[trigger] out@[t],
                    rv[reported_positions(rv, i as int)[t]],
                ),
        decreases recs.len() - i,
    {
        match confirmation_of(&recs[i]) {
            Some(c) => {
                out.push(c);
            },
            None => {},
        }
        i = i + 1;
    }
    Ok(out)
}

/// The query of a report request: account, the QSO query with QSL
/// details, `qso_qsl=yes` when only confirmed QSOs are wanted, and the
/// first QSO date when given.
pub open spec fn report_query_spec(
    c: LotwFetchConfig,
    since: Option<UtcDateTime>,
    only_confirmed: bool,
) -> Seq<(Seq<char>, Seq<char>)> {
    seq![
        ("login"@, c.username@),
        ("password"@, c.password@),
        ("qso_query"@, "1"@),
        ("qso_qsldetail"@, "yes"@),
    ] + (if only_confirmed {
        seq![("qso_qsl"@, "yes"@)]
    } else {
        seq![]
    }) + match since {
        Some(d) => seq![("qso_qsosince"@, date_dashed(d))],
        None => seq![],
    }
}

pub fn report_query(c: &LotwFetchConfig, since: Option<UtcDateTime>, only_confirmed: bool) -> (r: Vec<(String, String)>)
    ensures
        r@.map_values(|p: (String, String)| (p.0@, p.1@)) == report_query_spec(*c, since, only_confirmed),
{
    let mut r: Vec<(String, String)> = Vec::new();
    r.push((string_of("login"), string_of(c.username.as_str())));
    r.push((string_of("password"), string_of(c.password.as_str())));
    r.push((string_of("qso_query"), string_of("1")));
    r.push((string_of("qso_qsldetail"), string_of("yes")));
    if only_confirmed {
        r.push((string_of("qso_qsl"), string_of("yes")));
    }
    match since {
        Some(d) => {
            r.push((string_of("qso_qsosince"), d.date_dashed()));
        },
        None => {},
    }
    assert(r@.map_values(|p: (String, String)| (p.0@, p.1@)) =~= report_query_spec(*c, since, only_confirmed));
    r
}

/// The result of a report reply: a status other than success is an HTTP
/// error with the status and the body; otherwise the body is read.
pub fn report_response(success: bool, status: &str, body: &str) -> (r: Result<Vec<ConfirmationRecord>, FetchError>)
    ensures
        success ==> (r matches Ok(v) && report_fits(v@, adi_records(body.spec_bytes()))),
        !success ==> (r matches Err(FetchError::Http(s)) && s@ == "status "@ + status@ + ": "@ + body@),
{
    if !success {
        let mut s = string_of("status ");
        s.append(status);
        s.append(": ");
        s.append(body);
        return Err(FetchError::Http(s));
    }
    parse_report_adif(body)
}

} // verus!
