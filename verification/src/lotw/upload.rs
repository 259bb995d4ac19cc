//! LotW upload: the ADIF text is signed into a `.tq8` by TQSL and the
//! signed file is posted to LotW.
use vstd::prelude::*;

use crate::text::{
    chars_contain_str, chars_of, contains_seq, dec, dec_chars, lower_chars, lower_seq,
    string_from_chars, string_from_utf8_lossy, utf8_lossy,
};
use crate::value::string_of;

verus! {

/// Where signed files go unless told otherwise.
pub open spec fn lotw_default_upload_url() -> Seq<char> {
    "https://lotw.arrl.org/lotw/upload"@
}

/// How to sign and where to send: the TQSL program, the TQSL station
/// location, the callsign to sign as (when the location has several),
/// and the upload endpoint.
#[derive(Debug, Clone)]
pub struct LotwUploadConfig {
    pub tqsl_path: String,
    pub station_location: String,
    pub station_callsign: Option<String>,
    pub upload_url: String,
}

impl LotwUploadConfig {
    pub fn new(station_location: &str) -> (r: LotwUploadConfig)
        ensures
            r.tqsl_path@ == "tqsl"@,
            r.station_location@ == station_location@,
            r.station_callsign is None,
            r.upload_url@ == lotw_default_upload_url(),
    {
        LotwUploadConfig {
            tqsl_path: string_of("tqsl"),
            station_location: string_of(station_location),
            station_callsign: None,
            upload_url: string_of("https://lotw.arrl.org/lotw/upload"),
        }
    }

    pub fn with_tqsl_path(self, path: &str) -> (r: LotwUploadConfig)
        ensures
            r.tqsl_path@ == path@,
            r.station_location == self.station_location,
            r.station_callsign == self.station_callsign,
            r.upload_url == self.upload_url,
    {
        LotwUploadConfig { tqsl_path: string_of(path), ..self }
    }

    pub fn with_station_callsign(self, call: &str) -> (r: LotwUploadConfig)
        ensures
            r.tqsl_path == self.tqsl_path,
            r.station_location == self.station_location,
            r.station_callsign matches Some(c) && c@ == call@,
            r.upload_url == self.upload_url,
    {
        LotwUploadConfig { station_callsign: Some(string_of(call)), ..self }
    }

    pub fn with_upload_url(self, url: &str) -> (r: LotwUploadConfig)
        ensures
            r.tqsl_path == self.tqsl_path,
            r.station_location == self.station_location,
            r.station_callsign == self.station_callsign,
            r.upload_url@ == url@,
    {
        LotwUploadConfig { upload_url: string_of(url), ..self }
    }
}

/// Why an upload failed, step by step: the temporary file, writing the
/// ADIF, starting TQSL, TQSL's exit, reading the signed file, HTTP, and
/// LotW's refusal.
#[derive(Debug, Clone)]
pub enum UploadError {
    TempFile(String),
    Write(String),
    TqslSpawn(String),
    TqslExit { status: i32, stderr: String },
    ReadSigned(String),
    Http(String),
    Rejected(String),
}

/// An integer in decimal, with a minus sign when negative.
pub open spec fn int_text(i: int) -> Seq<char> {
    if i < 0 {
        "-"@ + dec((-i) as nat)
    } else {
        dec(i as nat)
    }
}

pub fn int_string(i: i32) -> (r: String)
    ensures
        r@ == int_text(i as int),
{
    let mut v: Vec<char> = Vec::new();
    let n: u64 = if i < 0 {
        v.push('-');
        (-(i as i64)) as u64
    } else {
        i as u64
    };
    let mut d = dec_chars(n);
    v.append(&mut d);
    proof {
        reveal_strlit("-");
    }
    let r = string_from_chars(v.as_slice());
    assert(r@ =~= int_text(i as int));
    r
}

pub open spec fn upload_error_text(e: UploadError) -> Seq<char> {
    match e {
        UploadError::TempFile(s) => "temp file error: "@ + s@,
        UploadError::Write(s) => "write error: "@ + s@,
        UploadError::TqslSpawn(s) => "tqsl invocation failed: "@ + s@,
        UploadError::TqslExit { status, stderr } => "tqsl exited with status "@ + int_text(
            status as int,
        ) + ": "@ + stderr@,
        UploadError::ReadSigned(s) => "read signed file error: "@ + s@,
        UploadError::Http(s) => "HTTP error: "@ + s@,
        UploadError::Rejected(s) => "LotW rejected: "@ + s@,
    }
}

fn prefixed(p: &str, s: &str) -> (r: String)
    ensures
        r@ == p@ + s@,
{
    let mut r = string_of(p);
    r.append(s);
    r
}

impl UploadError {
    /// The error's message, as its `Display` would write it.
    pub fn message(&self) -> (r: String)
        ensures
            r@ == upload_error_text(*self),
    {
        match self {
            UploadError::TempFile(s) => prefixed("temp file error: ", s.as_str()),
            UploadError::Write(s) => prefixed("write error: ", s.as_str()),
            UploadError::TqslSpawn(s) => prefixed("tqsl invocation failed: ", s.as_str()),
            UploadError::TqslExit { status, stderr } => {
                let mut r = string_of("tqsl exited with status ");
                let n = int_string(*status);
                r.append(n.as_str());
                r.append(": ");
                r.append(stderr.as_str());
                r
            },
            UploadError::ReadSigned(s) => prefixed("read signed file error: ", s.as_str()),
            UploadError::Http(s) => prefixed("HTTP error: ", s.as_str()),
            UploadError::Rejected(s) => prefixed("LotW rejected: ", s.as_str()),
        }
    }
}

/// What LotW answered: whether it accepted the upload, and the reply.
#[derive(Debug, Clone)]
pub struct UploadOutcome {
    pub accepted: bool,
    pub raw_body: String,
}

/// The arguments TQSL is run with: no dialog, sign all, the station
/// location, exit when done, the output file, the callsign when given,
/// and last the input file.
pub open spec fn tqsl_args_spec(
    location: Seq<char>,
    callsign: Option<Seq<char>>,
    in_path: Seq<char>,
    out_path: Seq<char>,
) -> Seq<Seq<char>> {
    seq!["-d"@, "-a"@, "all"@, "-l"@, location, "-x"@, "-o"@, out_path] + match callsign {
        Some(c) => seq!["-c"@, c],
        None => seq![],
    } + seq![in_path]
}

pub fn tqsl_args(location: &str, callsign: Option<&str>, in_path: &str, out_path: &str) -> (r: Vec<String>)
    ensures
        r@.map_values(|s: String| s@) == tqsl_args_spec(
            location@,
            match callsign {
                Some(c) => Some(c@),
                None => None,
            },
            in_path@,
            out_path@,
        ),
{
    let mut r: Vec<String> = Vec::new();
    r.push(string_of("-d"));
    r.push(string_of("-a"));
    r.push(string_of("all"));
    r.push(string_of("-l"));
    r.push(string_of(location));
    r.push(string_of("-x"));
    r.push(string_of("-o"));
    r.push(string_of(out_path));
    match callsign {
        Some(c) => {
            r.push(string_of("-c"));
            r.push(string_of(c));
        },
        None => {},
    }
    r.push(string_of(in_path));
    assert(r@.map_values(|s: String| s@) =~= tqsl_args_spec(
        location@,
        match callsign {
            Some(c) => Some(c@),
            None => None,
        },
        in_path@,
        out_path@,
    ));
    r
}

/// The error of a TQSL run that did not succeed: its exit code (-1 when
/// it was ended by a signal) and its standard error read as UTF-8.
pub fn tqsl_exit_error(code: Option<i32>, stderr: &[u8]) -> (r: UploadError)
    ensures
        r matches UploadError::TqslExit { status, stderr: e } && status == match code {
            Some(c) => c,
            None => -1i32,
        } && e@ == utf8_lossy(stderr@),
{
    let status = match code {
        Some(c) => c,
        None => -1,
    };
    UploadError::TqslExit { status, stderr: string_from_utf8_lossy(stderr) }
}

/// LotW's verdict on a reply, without regard to case: a refusal when it
/// speaks of rejection and not of acceptance; otherwise accepted when it
/// speaks of acceptance or says `result: ok`.
pub open spec fn tq8_verdict(body: Seq<char>) -> Result<bool, ()> {
    let l = lower_seq(body);
    if contains_seq(l, "rejected"@) && !contains_seq(l, "accepted"@) {
        Err(())
    } else {
        Ok(contains_seq(l, "accepted"@) || contains_seq(l, "result: ok"@))
    }
}

/// The result of the reply to a signed upload: a status other than
/// success is an HTTP error with the status and the body; otherwise the
/// body decides.
pub open spec fn tq8_fits(
    r: Result<UploadOutcome, UploadError>,
    success: bool,
    status: Seq<char>,
    body: Seq<char>,
) -> bool {
    if !success {
        r matches Err(UploadError::Http(s)) && s@ == "status "@ + status + ": "@ + body
    } else {
        match (r, tq8_verdict(body)) {
            (Ok(o), Ok(a)) => o.accepted == a && o.raw_body@ == body,
            (Err(UploadError::Rejected(s)), Err(())) => s@ == body,
            _ => false,
        }
    }
}

pub fn tq8_response(success: bool, status: &str, body: &str) -> (r: Result<UploadOutcome, UploadError>)
    ensures
        tq8_fits(r, success, status@, body@),
{
    if !success {
        let mut s = string_of("status ");
        s.append(status);
        s.append(": ");
        s.append(body);
        return Err(UploadError::Http(s));
    }
    let l = lower_chars(&chars_of(body));
    let accepted_word = chars_contain_str(l.as_slice(), "accepted");
    if chars_contain_str(l.as_slice(), "rejected") && !accepted_word {
        return Err(UploadError::Rejected(string_of(body)));
    }
    let accepted = accepted_word || chars_contain_str(l.as_slice(), "result: ok");
    Ok(UploadOutcome { accepted, raw_body: string_of(body) })
}

} // verus!
