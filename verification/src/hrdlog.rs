//! HRDLog upload: the ADIF text goes to `NewEntry.aspx` with the account
//! callsign and its upload code (not the website password), and the reply
//! says whether it was taken.
use vstd::prelude::*;

use crate::text::{
    chars_contain_str, chars_eq_str, chars_of, chars_start_with_str, contains_seq, lower_chars,
    lower_seq, starts_with, str_trim, trim,
};
use crate::value::string_of;

verus! {

/// Where uploads go unless told otherwise.
pub open spec fn hrdlog_default_upload_url() -> Seq<char> {
    "https://www.hrdlog.net/NewEntry.aspx"@
}

/// Account and endpoint of an HRDLog upload.
#[derive(Debug, Clone)]
pub struct HrdlogConfig {
    pub callsign: String,
    pub code: String,
    pub upload_url: String,
}

impl HrdlogConfig {
    pub fn new(callsign: &str, code: &str) -> (r: HrdlogConfig)
        ensures
            r.callsign@ == callsign@,
            r.code@ == code@,
            r.upload_url@ == hrdlog_default_upload_url(),
    {
        HrdlogConfig {
            callsign: string_of(callsign),
            code: string_of(code),
            upload_url: string_of("https://www.hrdlog.net/NewEntry.aspx"),
        }
    }

    pub fn with_upload_url(self, url: &str) -> (r: HrdlogConfig)
        ensures
            r.callsign == self.callsign,
            r.code == self.code,
            r.upload_url@ == url@,
    {
        HrdlogConfig { upload_url: string_of(url), ..self }
    }
}

/// Why an upload failed.
#[derive(Debug, Clone)]
pub enum UploadError {
    Http(String),
    Rejected(String),
}

pub open spec fn upload_error_text(e: UploadError) -> Seq<char> {
    match e {
        UploadError::Http(s) => "HTTP error: "@ + s@,
        UploadError::Rejected(s) => "HRDLog rejected: "@ + s@,
    }
}

impl UploadError {
    /// The error's message, as its `Display` would write it.
    pub fn message(&self) -> (r: String)
        ensures
            r@ == upload_error_text(*self),
    {
        match self {
            UploadError::Http(s) => {
                let mut r = string_of("HTTP error: ");
                r.append(s.as_str());
                r
            },
            UploadError::Rejected(s) => {
                let mut r = string_of("HRDLog rejected: ");
                r.append(s.as_str());
                r
            },
        }
    }
}

/// What HRDLog answered.
#[derive(Debug, Clone)]
pub struct UploadOutcome {
    pub accepted: bool,
    pub raw_body: String,
}

/// HRDLog's verdict on a reply, without regard to case: `Err` where it
/// speaks of an error, something invalid, a denial or failed
/// authentication, or starts with `fail`; else whether it clearly
/// accepted (`ok`, "upload received", "imported", "success"). Other
/// replies are a soft success, not accepted.
pub open spec fn hrdlog_verdict(body: Seq<char>) -> Result<bool, ()> {
    let l = lower_seq(trim(body));
    if contains_seq(l, "error"@) || contains_seq(l, "invalid"@) || contains_seq(l, "denied"@)
        || contains_seq(l, "authentication failed"@) || starts_with(l, "fail"@) {
        Err(())
    } else {
        Ok(
            l == "ok"@ || contains_seq(l, "upload received"@) || contains_seq(l, "imported"@)
                || contains_seq(l, "success"@),
        )
    }
}

pub open spec fn classify_fits(r: Result<UploadOutcome, UploadError>, body: Seq<char>) -> bool {
    match (r, hrdlog_verdict(body)) {
        (Ok(o), Ok(a)) => o.accepted == a && o.raw_body@ == body,
        (Err(UploadError::Rejected(s)), Err(())) => s@ == body,
        _ => false,
    }
}

pub fn classify(body: &str) -> (r: Result<UploadOutcome, UploadError>)
    ensures
        classify_fits(r, body@),
{
    let t = chars_of(str_trim(body));
    let l = lower_chars(&t);
    let refused = chars_contain_str(l.as_slice(), "error") || chars_contain_str(
        l.as_slice(),
        "invalid",
    ) || chars_contain_str(l.as_slice(), "denied") || chars_contain_str(
        l.as_slice(),
        "authentication failed",
    ) || chars_start_with_str(l.as_slice(), "fail");
    if refused {
        return Err(UploadError::Rejected(string_of(body)));
    }
    let accepted = chars_eq_str(l.as_slice(), "ok") || chars_contain_str(
        l.as_slice(),
        "upload received",
    ) || chars_contain_str(l.as_slice(), "imported") || chars_contain_str(
        l.as_slice(),
        "success",
    );
    Ok(UploadOutcome { accepted, raw_body: string_of(body) })
}

/// The outcome of an HTTP reply: a status other than success is an HTTP
/// error carrying the status and the body; otherwise the body decides.
pub open spec fn response_fits(
    r: Result<UploadOutcome, UploadError>,
    success: bool,
    status: Seq<char>,
    body: Seq<char>,
) -> bool {
    if success {
        classify_fits(r, body)
    } else {
        r matches Err(UploadError::Http(s)) && s@ == "status "@ + status + ": "@ + body
    }
}

pub fn upload_response(success: bool, status: &str, body: &str) -> (r: Result<UploadOutcome, UploadError>)
    ensures
        response_fits(r, success, status@, body@),
{
    if !success {
        let mut s = string_of("status ");
        s.append(status);
        s.append(": ");
        s.append(body);
        return Err(UploadError::Http(s));
    }
    classify(body)
}

/// The form fields of an upload, in order: callsign, upload code, ADIF.
pub open spec fn upload_form(c: HrdlogConfig, adif: Seq<char>) -> Seq<(Seq<char>, Seq<char>)> {
    seq![("Callsign"@, c.callsign@), ("Code"@, c.code@), ("ADIFData"@, adif)]
}

pub fn upload_form_fields(c: &HrdlogConfig, adif: &str) -> (r: Vec<(String, String)>)
    ensures
        r@.map_values(|p: (String, String)| (p.0@, p.1@)) == upload_form(*c, adif@),
{
    let mut r: Vec<(String, String)> = Vec::new();
    r.push((string_of("Callsign"), string_of(c.callsign.as_str())));
    r.push((string_of("Code"), string_of(c.code.as_str())));
    r.push((string_of("ADIFData"), string_of(adif)));
    assert(r@.map_values(|p: (String, String)| (p.0@, p.1@)) =~= upload_form(*c, adif@));
    r
}

} // verus!
