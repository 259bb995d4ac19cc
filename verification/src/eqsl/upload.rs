//! eQSL upload: the ADIF text goes to `ImportADIF.cfm` with the account's
//! credentials; no signing. The reply is an HTML page with a status line.
use vstd::prelude::*;

use crate::text::{chars_contain_str, chars_of, contains_seq, lower_chars, lower_seq};
use crate::value::string_of;

verus! {

/// Where uploads go unless told otherwise.
pub open spec fn eqsl_default_upload_url() -> Seq<char> {
    "https://www.eqsl.cc/qslcard/ImportADIF.cfm"@
}

/// Account and endpoint of an eQSL upload.
#[derive(Debug, Clone)]
pub struct EqslUploadConfig {
    pub username: String,
    pub password: String,
    pub upload_url: String,
}

impl EqslUploadConfig {
    pub fn new(username: &str, password: &str) -> (r: EqslUploadConfig)
        ensures
            r.username@ == username@,
            r.password@ == password@,
            r.upload_url@ == eqsl_default_upload_url(),
    {
        EqslUploadConfig {
            username: string_of(username),
            password: string_of(password),
            upload_url: string_of("https://www.eqsl.cc/qslcard/ImportADIF.cfm"),
        }
    }

    pub fn with_upload_url(self, url: &str) -> (r: EqslUploadConfig)
        ensures
            r.username == self.username,
            r.password == self.password,
            r.upload_url@ == url@,
    {
        EqslUploadConfig { upload_url: string_of(url), ..self }
    }
}

/// Why an upload failed.
#[derive(Debug, Clone)]
pub enum UploadError {
    Http(String),
    Rejected(String),
}

pub open spec fn upload_error_text(e: UploadError) -> Seq<char> {
    match e {
        UploadError::Http(s) => "HTTP error: "@ + s@,
        UploadError::Rejected(s) => "eQSL rejected: "@ + s@,
    }
}

impl UploadError {
    /// The error's message, as its `Display` would write it.
    pub fn message(&self) -> (r: String)
        ensures
            r@ == upload_error_text(*self),
    {
        match self {
            UploadError::Http(s) => {
                let mut r = string_of("HTTP error: ");
                r.append(s.as_str());
                r
            },
            UploadError::Rejected(s) => {
                let mut r = string_of("eQSL rejected: ");
                r.append(s.as_str());
                r
            },
        }
    }
}

/// What eQSL answered.
#[derive(Debug, Clone)]
pub struct UploadOutcome {
    pub accepted: bool,
    pub raw_body: String,
}

/// eQSL's verdict on a reply, without regard to case: `Err` where it
/// says `result: error` or failed authentication; else whether it
/// clearly accepted (`result: ok`, "successfully", "qso records added").
/// Other replies are a soft success, not accepted.
pub open spec fn eqsl_verdict(body: Seq<char>) -> Result<bool, ()> {
    let l = lower_seq(body);
    if contains_seq(l, "result: error"@) || contains_seq(l, "authentication failed"@) {
        Err(())
    } else {
        Ok(
            contains_seq(l, "result: ok"@) || contains_seq(l, "successfully"@) || contains_seq(
                l,
                "qso records added"@,
            ),
        )
    }
}

pub open spec fn classify_fits(r: Result<UploadOutcome, UploadError>, body: Seq<char>) -> bool {
    match (r, eqsl_verdict(body)) {
        (Ok(o), Ok(a)) => o.accepted == a && o.raw_body@ == body,
        (Err(UploadError::Rejected(s)), Err(())) => s@ == body,
        _ => false,
    }
}

pub fn classify(body: &str) -> (r: Result<UploadOutcome, UploadError>)
    ensures
        classify_fits(r, body@),
{
    let l = lower_chars(&chars_of(body));
    if chars_contain_str(l.as_slice(), "result: error") || chars_contain_str(
        l.as_slice(),
        "authentication failed",
    ) {
        return Err(UploadError::Rejected(string_of(body)));
    }
    let accepted = chars_contain_str(l.as_slice(), "result: ok") || chars_contain_str(
        l.as_slice(),
        "successfully",
    ) || chars_contain_str(l.as_slice(), "qso records added");
    Ok(UploadOutcome { accepted, raw_body: string_of(body) })
}

/// The outcome of an HTTP reply: a status other than success is an HTTP
/// error carrying the status and the body; otherwise the body decides.
pub open spec fn response_fits(
    r: Result<UploadOutcome, UploadError>,
    success: bool,
    status: Seq<char>,
    body: Seq<char>,
) -> bool {
    if success {
        classify_fits(r, body)
    } else {
        r matches Err(UploadError::Http(s)) && s@ == "status "@ + status + ": "@ + body
    }
}

pub fn upload_response(success: bool, status: &str, body: &str) -> (r: Result<UploadOutcome, UploadError>)
    ensures
        response_fits(r, success, status@, body@),
{
    if !success {
        let mut s = string_of("status ");
        s.append(status);
        s.append(": ");
        s.append(body);
        return Err(UploadError::Http(s));
    }
    classify(body)
}

/// The form fields of an upload, in order: user, password, ADIF.
pub open spec fn upload_form(c: EqslUploadConfig, adif: Seq<char>) -> Seq<(Seq<char>, Seq<char>)> {
    seq![("EQSL_USER"@, c.username@), ("EQSL_PSWD"@, c.password@), ("ADIFData"@, adif)]
}

pub fn upload_form_fields(c: &EqslUploadConfig, adif: &str) -> (r: Vec<(String, String)>)
    ensures
        r@.map_values(|p: (String, String)| (p.0@, p.1@)) == upload_form(*c, adif@),
{
    let mut r: Vec<(String, String)> = Vec::new();
    r.push((string_of("EQSL_USER"), string_of(c.username.as_str())));
    r.push((string_of("EQSL_PSWD"), string_of(c.password.as_str())));
    r.push((string_of("ADIFData"), string_of(adif)));
    assert(r@.map_values(|p: (String, String)| (p.0@, p.1@)) =~= upload_form(*c, adif@));
    r
}

} // verus!
