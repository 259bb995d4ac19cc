//! Club Log upload: the ADIF text goes to `realtime.php` with the
//! account's credentials, and the plain-text reply says whether it was
//! taken. Club Log publishes no confirmation report, so there is no
//! fetch.
use vstd::prelude::*;

use crate::text::{
    chars_contain_str, chars_eq_str, chars_of, chars_start_with_str, contains_seq, lower_chars,
    lower_seq, starts_with, str_trim, trim,
};
use crate::value::string_of;

verus! {

/// Where uploads go unless told otherwise.
pub open spec fn clublog_default_upload_url() -> Seq<char> {
    "https://clublog.org/realtime.php"@
}

/// Account and endpoint of a Club Log upload. The callsign says which of
/// the account's logs the upload belongs to.
#[derive(Debug, Clone)]
pub struct ClubLogConfig {
    pub email: String,
    pub password: String,
    pub callsign: String,
    pub upload_url: String,
}

impl ClubLogConfig {
    pub fn new(email: &str, password: &str, callsign: &str) -> (r: ClubLogConfig)
        ensures
            r.email@ == email@,
            r.password@ == password@,
            r.callsign@ == callsign@,
            r.upload_url@ == clublog_default_upload_url(),
    {
        ClubLogConfig {
            email: string_of(email),
            password: string_of(password),
            callsign: string_of(callsign),
            upload_url: string_of("https://clublog.org/realtime.php"),
        }
    }

    pub fn with_upload_url(self, url: &str) -> (r: ClubLogConfig)
        ensures
            r.email == self.email,
            r.password == self.password,
            r.callsign == self.callsign,
            r.upload_url@ == url@,
    {
        ClubLogConfig { upload_url: string_of(url), ..self }
    }
}

/// Why an upload failed.
#[derive(Debug, Clone)]
pub enum UploadError {
    Http(String),
    Rejected(String),
}

pub open spec fn upload_error_text(e: UploadError) -> Seq<char> {
    match e {
        UploadError::Http(s) => "HTTP error: "@ + s@,
        UploadError::Rejected(s) => "Club Log rejected: "@ + s@,
    }
}

impl UploadError {
    /// The error's message, as its `Display` would write it.
    pub fn message(&self) -> (r: String)
        ensures
            r@ == upload_error_text(*self),
    {
        match self {
            UploadError::Http(s) => {
                let mut r = string_of("HTTP error: ");
                r.append(s.as_str());
                r
            },
            UploadError::Rejected(s) => {
                let mut r = string_of("Club Log rejected: ");
                r.append(s.as_str());
                r
            },
        }
    }
}

/// What Club Log answered: whether it said the upload was taken, and the
/// reply itself.
#[derive(Debug, Clone)]
pub struct UploadOutcome {
    pub accepted: bool,
    pub raw_body: String,
}

/// Club Log's verdict on a reply: `Err` where it refuses (the reply
/// starts with `fail` or speaks of authentication, denial or an error,
/// in any case), else whether it clearly accepted (`OK`, `1`, "upload
/// received" or "queued"). Other replies are a soft success, not
/// accepted.
pub open spec fn clublog_verdict(body: Seq<char>) -> Result<bool, ()> {
    let t = trim(body);
    let l = lower_seq(t);
    if starts_with(l, "fail"@) || contains_seq(l, "authentication"@) || contains_seq(l, "denied"@)
        || contains_seq(l, "error"@) {
        Err(())
    } else {
        Ok(
            t == "OK"@ || t == "1"@ || contains_seq(l, "upload received"@) || contains_seq(
                l,
                "queued"@,
            ),
        )
    }
}

/// The outcome that the reply `body` means.
pub open spec fn classify_fits(r: Result<UploadOutcome, UploadError>, body: Seq<char>) -> bool {
    match (r, clublog_verdict(body)) {
        (Ok(o), Ok(a)) => o.accepted == a && o.raw_body@ == body,
        (Err(UploadError::Rejected(s)), Err(())) => s@ == body,
        _ => false,
    }
}

pub fn classify(body: &str) -> (r: Result<UploadOutcome, UploadError>)
    ensures
        classify_fits(r, body@),
{
    let t = chars_of(str_trim(body));
    let l = lower_chars(&t);
    let refused = chars_start_with_str(l.as_slice(), "fail") || chars_contain_str(
        l.as_slice(),
        "authentication",
    ) || chars_contain_str(l.as_slice(), "denied") || chars_contain_str(l.as_slice(), "error");
    if refused {
        return Err(UploadError::Rejected(string_of(body)));
    }
    let accepted = chars_eq_str(t.as_slice(), "OK") || chars_eq_str(t.as_slice(), "1")
        || chars_contain_str(l.as_slice(), "upload received") || chars_contain_str(
        l.as_slice(),
        "queued",
    );
    Ok(UploadOutcome { accepted, raw_body: string_of(body) })
}

/// The outcome of an HTTP reply: a status other than success is an HTTP
/// error carrying the status and the body; otherwise the body decides.
pub open spec fn response_fits(
    r: Result<UploadOutcome, UploadError>,
    success: bool,
    status: Seq<char>,
    body: Seq<char>,
) -> bool {
    if success {
        classify_fits(r, body)
    } else {
        r matches Err(UploadError::Http(s)) && s@ == "status "@ + status + ": "@ + body
    }
}

pub fn upload_response(success: bool, status: &str, body: &str) -> (r: Result<UploadOutcome, UploadError>)
    ensures
        response_fits(r, success, status@, body@),
{
    if !success {
        let mut s = string_of("status ");
        s.append(status);
        s.append(": ");
        s.append(body);
        return Err(UploadError::Http(s));
    }
    classify(body)
}

/// The form fields of an upload, in order: account email, password,
/// callsign, the program's name, and the ADIF text.
pub open spec fn upload_form(c: ClubLogConfig, adif: Seq<char>) -> Seq<(Seq<char>, Seq<char>)> {
    seq![
        ("email"@, c.email@),
        ("password"@, c.password@),
        ("callsign"@, c.callsign@),
        ("api"@, "slogger"@),
        ("adif"@, adif),
    ]
}

pub fn upload_form_fields(c: &ClubLogConfig, adif: &str) -> (r: Vec<(String, String)>)
    ensures
        r@.map_values(|p: (String, String)| (p.0@, p.1@)) == upload_form(*c, adif@),
{
    let mut r: Vec<(String, String)> = Vec::new();
    r.push((string_of("email"), string_of(c.email.as_str())));
    r.push((string_of("password"), string_of(c.password.as_str())));
    r.push((string_of("callsign"), string_of(c.callsign.as_str())));
    r.push((string_of("api"), string_of("slogger")));
    r.push((string_of("adif"), string_of(adif)));
    assert(r@.map_values(|p: (String, String)| (p.0@, p.1@)) =~= upload_form(*c, adif@));
    r
}

} // verus!
