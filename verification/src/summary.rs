//! What a run of the QSL services reports, and the one-line texts the
//! status bar and the service pane show for it.
use vstd::prelude::*;

use crate::text::{dec, dec_string};
use crate::value::string_of;

verus! {

/// How an ADIF file import went.
#[derive(Debug, Clone)]
pub struct ImportSummary {
    pub created: usize,
    pub skipped: usize,
    pub parse_errors: usize,
    pub first_errors: Vec<String>,
}

/// An upload: how many QSOs went, and the service's note.
#[derive(Debug, Clone)]
pub struct UploadSummary {
    pub uploaded: usize,
    pub note: String,
}

/// A report fetch: rows read, uploads seen again, confirmations, rows
/// matching no local QSO.
#[derive(Debug, Clone, Copy)]
pub struct FetchSummary {
    pub fetched: usize,
    pub verified: usize,
    pub confirmed: usize,
    pub unmatched: usize,
}

/// LotW: upload and report, each done, failed or skipped.
#[derive(Debug, Clone)]
pub struct UpdateSummary {
    pub upload: Option<UploadSummary>,
    pub upload_error: Option<String>,
    pub upload_skipped_reason: Option<String>,
    pub fetch: Option<FetchSummary>,
    pub fetch_error: Option<String>,
    pub fetch_skipped_reason: Option<String>,
}

/// eQSL: upload and inbox.
#[derive(Debug, Clone)]
pub struct EqslUpdateSummary {
    pub upload: Option<UploadSummary>,
    pub upload_error: Option<String>,
    pub upload_skipped_reason: Option<String>,
    pub fetched: usize,
    pub confirmed: usize,
    pub unmatched: usize,
    pub fetch_error: Option<String>,
    pub fetch_skipped_reason: Option<String>,
}

/// Club Log: upload only.
#[derive(Debug, Clone)]
pub struct ClubLogUpdateSummary {
    pub upload: Option<UploadSummary>,
    pub upload_error: Option<String>,
    pub upload_skipped_reason: Option<String>,
}

/// QRZ: records taken and refused, with the first refusals.
#[derive(Debug, Clone)]
pub struct QrzUpdateSummary {
    pub uploaded: usize,
    pub rejected: usize,
    pub upload_error: Option<String>,
    pub upload_skipped_reason: Option<String>,
    pub first_errors: Vec<String>,
}

/// HRDLog: upload only.
#[derive(Debug, Clone)]
pub struct HrdlogUpdateSummary {
    pub upload: Option<UploadSummary>,
    pub upload_error: Option<String>,
    pub upload_skipped_reason: Option<String>,
}

/// One run over all services; a service not configured has none.
#[derive(Debug, Clone)]
pub struct MultiUpdateSummary {
    pub lotw: Option<UpdateSummary>,
    pub eqsl: Option<EqslUpdateSummary>,
    pub clublog: Option<ClubLogUpdateSummary>,
    pub qrz: Option<QrzUpdateSummary>,
    pub hrdlog: Option<HrdlogUpdateSummary>,
}

/// The texts one after the other, with `sep` between neighbours.
pub open spec fn join(parts: Seq<Seq<char>>, sep: Seq<char>) -> Seq<char>
    decreases parts.len(),
{
    if parts.len() == 0 {
        seq![]
    } else if parts.len() == 1 {
        parts[0]
    } else {
        join(parts.drop_last(), sep) + sep + parts.last()
    }
}

pub fn join_strings(parts: &Vec<String>, sep: &str) -> (r: String)
    ensures
        r@ == join(parts@.map_values(|p: String| p@), sep@),
{
    let ghost ps = parts@.map_values(|p: String| p@);
    let mut r = String::new();
    let mut i: usize = 0;
    assert(r@ =~= join(ps.take(0), sep@));
    while i < parts.len()
        invariant
            i <= parts.len(),
            ps == parts@.map_values(|p: String| p@),
            r@ == join(ps.take(i as int), sep@),
        decreases parts.len() - i,
    {
        assert(ps.take(i + 1).drop_last() =~= ps.take(i as int));
        if i > 0 {
            r.append(sep);
        }
        r.append(parts[i].as_str());
        i = i + 1;
        assert(r@ =~= join(ps.take(i as int), sep@));
    }
    assert(ps.take(parts.len() as int) =~= ps);
    r
}

/// The texts, or "nothing to do" when there are none.
pub open spec fn parts_or_nothing(parts: Seq<Seq<char>>, sep: Seq<char>) -> Seq<char> {
    if parts.len() == 0 {
        "nothing to do"@
    } else {
        join(parts, sep)
    }
}

fn joined_or_nothing(parts: &Vec<String>, sep: &str) -> (r: String)
    ensures
        r@ == parts_or_nothing(parts@.map_values(|p: String| p@), sep@),
{
    if parts.len() == 0 {
        string_of("nothing to do")
    } else {
        join_strings(parts, sep)
    }
}

fn cat2(a: &str, b: &str) -> (r: String)
    ensures
        r@ == a@ + b@,
{
    let mut r = string_of(a);
    r.append(b);
    r
}

fn cat3(a: &str, b: &str, c: &str) -> (r: String)
    ensures
        r@ == a@ + b@ + c@,
{
    let mut r = string_of(a);
    r.append(b);
    r.append(c);
    r
}

fn num(n: usize) -> (r: String)
    ensures
        r@ == dec(n as nat),
{
    dec_string(n as u64)
}

/// `upload N qso (note)`.
pub open spec fn upload_text(u: UploadSummary) -> Seq<char> {
    "upload "@ + dec(u.uploaded as nat) + " qso ("@ + u.note@ + ")"@
}

fn upload_string(u: &UploadSummary) -> (r: String)
    ensures
        r@ == upload_text(*u),
{
    let mut r = string_of("upload ");
    r.append(num(u.uploaded).as_str());
    r.append(" qso (");
    r.append(u.note.as_str());
    r.append(")");
    r
}

/// What an upload step says: done, failed, skipped, or nothing.
pub open spec fn upload_part(
    upload: Option<UploadSummary>,
    err: Option<String>,
    skip: Option<String>,
) -> Seq<Seq<char>> {
    match upload {
        Some(u) => seq![upload_text(u)],
        None => match err {
            Some(e) => seq!["upload error: "@ + e@],
            None => match skip {
                Some(r) => seq!["upload skip ("@ + r@ + ")"@],
                None => seq![],
            },
        },
    }
}

fn push_upload_part(
    parts: &mut Vec<String>,
    upload: &Option<UploadSummary>,
    err: &Option<String>,
    skip: &Option<String>,
)
    ensures
        final(parts)@.map_values(|p: String| p@) == old(parts)@.map_values(|p: String| p@)
            + upload_part(*upload, *err, *skip),
{
    let ghost before = parts@.map_values(|p: String| p@);
    match upload {
        Some(u) => parts.push(upload_string(u)),
        None => match err {
            Some(e) => parts.push(cat2("upload error: ", e.as_str())),
            None => match skip {
                Some(r) => parts.push(cat3("upload skip (", r.as_str(), ")")),
                None => {},
            },
        },
    }
    assert(parts@.map_values(|p: String| p@) =~= before + upload_part(*upload, *err, *skip));
}

/// The LotW line: the upload step, then the report step.
pub open spec fn lotw_summary_text(s: UpdateSummary) -> Seq<char> {
    parts_or_nothing(
        upload_part(s.upload, s.upload_error, s.upload_skipped_reason) + match s.fetch {
            Some(f) => seq![
                "sync "@ + dec(f.verified as nat) + "/"@ + dec(f.fetched as nat) + " verified, "@
                    + dec(f.confirmed as nat) + " confirmed, "@ + dec(f.unmatched as nat)
                    + " unmatched"@,
            ],
            None => match s.fetch_error {
                Some(e) => seq!["sync error: "@ + e@],
                None => match s.fetch_skipped_reason {
                    Some(r) => seq!["sync skip ("@ + r@ + ")"@],
                    None => seq![],
                },
            },
        },
        ", "@,
    )
}

pub fn format_lotw_summary(s: &UpdateSummary) -> (r: String)
    ensures
        r@ == lotw_summary_text(*s),
{
    let mut parts: Vec<String> = Vec::new();
    push_upload_part(&mut parts, &s.upload, &s.upload_error, &s.upload_skipped_reason);
    let ghost before = parts@.map_values(|p: String| p@);
    match &s.fetch {
        Some(f) => {
            let mut t = string_of("sync ");
            t.append(num(f.verified).as_str());
            t.append("/");
            t.append(num(f.fetched).as_str());
            t.append(" verified, ");
            t.append(num(f.confirmed).as_str());
            t.append(" confirmed, ");
            t.append(num(f.unmatched).as_str());
            t.append(" unmatched");
            parts.push(t);
        },
        None => match &s.fetch_error {
            Some(e) => parts.push(cat2("sync error: ", e.as_str())),
            None => match &s.fetch_skipped_reason {
                Some(r) => parts.push(cat3("sync skip (", r.as_str(), ")")),
                None => {},
            },
        },
    }
    assert(parts@.map_values(|p: String| p@) =~= upload_part(
        s.upload,
        s.upload_error,
        s.upload_skipped_reason,
    ) + match s.fetch {
        Some(f) => seq![
            "sync "@ + dec(f.verified as nat) + "/"@ + dec(f.fetched as nat) + " verified, "@ + dec(
                f.confirmed as nat,
            ) + " confirmed, "@ + dec(f.unmatched as nat) + " unmatched"@,
        ],
        None => match s.fetch_error {
            Some(e) => seq!["sync error: "@ + e@],
            None => match s.fetch_skipped_reason {
                Some(r) => seq!["sync skip ("@ + r@ + ")"@],
                None => seq![],
            },
        },
    });
    joined_or_nothing(&parts, ", ")
}

/// The eQSL line: the upload step, then the inbox step (its counts when
/// any is not zero).
pub open spec fn eqsl_summary_text(s: EqslUpdateSummary) -> Seq<char> {
    parts_or_nothing(
        upload_part(s.upload, s.upload_error, s.upload_skipped_reason) + if s.fetched > 0
            || s.confirmed > 0 || s.unmatched > 0 {
            seq![
                "fetch "@ + dec(s.fetched as nat) + " records, "@ + dec(s.confirmed as nat)
                    + " confirmed, "@ + dec(s.unmatched as nat) + " unmatched"@,
            ]
        } else {
            match s.fetch_error {
                Some(e) => seq!["fetch error: "@ + e@],
                None => match s.fetch_skipped_reason {
                    Some(r) => seq!["fetch skip ("@ + r@ + ")"@],
                    None => seq![],
                },
            }
        },
        ", "@,
    )
}

pub fn format_eqsl_summary(s: &EqslUpdateSummary) -> (r: String)
    ensures
        r@ == eqsl_summary_text(*s),
{
    let mut parts: Vec<String> = Vec::new();
    push_upload_part(&mut parts, &s.upload, &s.upload_error, &s.upload_skipped_reason);
    if s.fetched > 0 || s.confirmed > 0 || s.unmatched > 0 {
        let mut t = string_of("fetch ");
        t.append(num(s.fetched).as_str());
        t.append(" records, ");
        t.append(num(s.confirmed).as_str());
        t.append(" confirmed, ");
        t.append(num(s.unmatched).as_str());
        t.append(" unmatched");
        parts.push(t);
    } else {
        match &s.fetch_error {
            Some(e) => parts.push(cat2("fetch error: ", e.as_str())),
            None => match &s.fetch_skipped_reason {
                Some(r) => parts.push(cat3("fetch skip (", r.as_str(), ")")),
                None => {},
            },
        }
    }
    assert(parts@.map_values(|p: String| p@) =~= upload_part(
        s.upload,
        s.upload_error,
        s.upload_skipped_reason,
    ) + if s.fetched > 0 || s.confirmed > 0 || s.unmatched > 0 {
        seq![
            "fetch "@ + dec(s.fetched as nat) + " records, "@ + dec(s.confirmed as nat)
                + " confirmed, "@ + dec(s.unmatched as nat) + " unmatched"@,
        ]
    } else {
        match s.fetch_error {
            Some(e) => seq!["fetch error: "@ + e@],
            None => match s.fetch_skipped_reason {
                Some(r) => seq!["fetch skip ("@ + r@ + ")"@],
                None => seq![],
            },
        }
    });
    joined_or_nothing(&parts, ", ")
}

/// An upload-only service's line.
pub open spec fn upload_only_text(
    upload: Option<UploadSummary>,
    err: Option<String>,
    skip: Option<String>,
) -> Seq<char> {
    parts_or_nothing(upload_part(upload, err, skip), ", "@)
}

fn upload_only_string(
    upload: &Option<UploadSummary>,
    err: &Option<String>,
    skip: &Option<String>,
) -> (r: String)
    ensures
        r@ == upload_only_text(*upload, *err, *skip),
{
    let mut parts: Vec<String> = Vec::new();
    push_upload_part(&mut parts, upload, err, skip);
    assert(parts@.map_values(|p: String| p@) =~= upload_part(*upload, *err, *skip));
    joined_or_nothing(&parts, ", ")
}

pub fn format_clublog_summary(s: &ClubLogUpdateSummary) -> (r: String)
    ensures
        r@ == upload_only_text(s.upload, s.upload_error, s.upload_skipped_reason),
{
    upload_only_string(&s.upload, &s.upload_error, &s.upload_skipped_reason)
}

pub fn format_hrdlog_summary(s: &HrdlogUpdateSummary) -> (r: String)
    ensures
        r@ == upload_only_text(s.upload, s.upload_error, s.upload_skipped_reason),
{
    upload_only_string(&s.upload, &s.upload_error, &s.upload_skipped_reason)
}

/// The QRZ line: an error or skip wins; else the counts, with the first
/// refusal when there is one.
pub open spec fn qrz_summary_text(s: QrzUpdateSummary) -> Seq<char> {
    match s.upload_error {
        Some(e) => "upload error: "@ + e@,
        None => match s.upload_skipped_reason {
            Some(r) => "upload skip ("@ + r@ + ")"@,
            None => if s.uploaded == 0 && s.rejected == 0 {
                "nothing to do"@
            } else {
                "upload "@ + dec(s.uploaded as nat) + " ok / "@ + dec(s.rejected as nat)
                    + " rejected"@ + if s.first_errors@.len() > 0 {
                    " — first: "@ + s.first_errors@[0]@
                } else {
                    seq![]
                }
            },
        },
    }
}

pub fn format_qrz_summary(s: &QrzUpdateSummary) -> (r: String)
    ensures
        r@ == qrz_summary_text(*s),
{
    if let Some(e) = &s.upload_error {
        return cat2("upload error: ", e.as_str());
    }
    if let Some(r) = &s.upload_skipped_reason {
        return cat3("upload skip (", r.as_str(), ")");
    }
    if s.uploaded == 0 && s.rejected == 0 {
        return string_of("nothing to do");
    }
    let mut msg = string_of("upload ");
    msg.append(num(s.uploaded).as_str());
    msg.append(" ok / ");
    msg.append(num(s.rejected).as_str());
    msg.append(" rejected");
    if s.first_errors.len() > 0 {
        msg.append(" — first: ");
        msg.append(s.first_errors[0].as_str());
    } else {
        assert(msg@ =~= msg@ + seq![]);
    }
    msg
}

/// `name: line`, or `name: skipped (not configured)`.
pub open spec fn service_part<T>(name: Seq<char>, s: Option<T>, line: spec_fn(T) -> Seq<char>) -> Seq<
    char,
> {
    match s {
        Some(x) => name + ": "@ + line(x),
        None => name + ": skipped (not configured)"@,
    }
}

/// The status-bar line of a run: each service in turn, separated by
/// ` | `.
pub open spec fn multi_summary_text(s: MultiUpdateSummary) -> Seq<char> {
    join(
        seq![
            service_part("lotw"@, s.lotw, |u: UpdateSummary| lotw_summary_text(u)),
            service_part("eqsl"@, s.eqsl, |u: EqslUpdateSummary| eqsl_summary_text(u)),
            service_part(
                "clublog"@,
                s.clublog,
                |u: ClubLogUpdateSummary| upload_only_text(u.upload, u.upload_error, u.upload_skipped_reason),
            ),
            service_part("qrz"@, s.qrz, |u: QrzUpdateSummary| qrz_summary_text(u)),
            service_part(
                "hrdlog"@,
                s.hrdlog,
                |u: HrdlogUpdateSummary| upload_only_text(u.upload, u.upload_error, u.upload_skipped_reason),
            ),
        ],
        " | "@,
    )
}

fn named(name: &str, line: Option<String>) -> (r: String)
    ensures
        r@ == match line {
            Some(l) => name@ + ": "@ + l@,
            None => name@ + ": skipped (not configured)"@,
        },
{
    match line {
        Some(l) => cat3(name, ": ", l.as_str()),
        None => cat2(name, ": skipped (not configured)"),
    }
}

pub fn format_multi_summary(s: &MultiUpdateSummary) -> (r: String)
    ensures
        r@ == multi_summary_text(*s),
{
    let mut parts: Vec<String> = Vec::new();
    parts.push(named("lotw", match &s.lotw {
        Some(u) => Some(format_lotw_summary(u)),
        None => None,
    }));
    parts.push(named("eqsl", match &s.eqsl {
        Some(u) => Some(format_eqsl_summary(u)),
        None => None,
    }));
    parts.push(named("clublog", match &s.clublog {
        Some(u) => Some(format_clublog_summary(u)),
        None => None,
    }));
    parts.push(named("qrz", match &s.qrz {
        Some(u) => Some(format_qrz_summary(u)),
        None => None,
    }));
    parts.push(named("hrdlog", match &s.hrdlog {
        Some(u) => Some(format_hrdlog_summary(u)),
        None => None,
    }));
    let r = join_strings(&parts, " | ");
    assert(parts@.map_values(|p: String| p@) =~= seq![
        service_part("lotw"@, s.lotw, |u: UpdateSummary| lotw_summary_text(u)),
        service_part("eqsl"@, s.eqsl, |u: EqslUpdateSummary| eqsl_summary_text(u)),
        service_part(
            "clublog"@,
            s.clublog,
            |u: ClubLogUpdateSummary| upload_only_text(u.upload, u.upload_error, u.upload_skipped_reason),
        ),
        service_part("qrz"@, s.qrz, |u: QrzUpdateSummary| qrz_summary_text(u)),
        service_part(
            "hrdlog"@,
            s.hrdlog,
            |u: HrdlogUpdateSummary| upload_only_text(u.upload, u.upload_error, u.upload_skipped_reason),
        ),
    ]);
    r
}

/// The status line after an ADIF import: counts, and the first error
/// when there is one.
pub open spec fn import_summary_text(s: ImportSummary) -> Seq<char> {
    "import: created "@ + dec(s.created as nat) + " / skipped "@ + dec(s.skipped as nat)
        + " / parse-errors "@ + dec(s.parse_errors as nat) + if s.first_errors@.len() > 0 {
        " — first: "@ + s.first_errors@[0]@
    } else {
        seq![]
    }
}

pub fn format_import_summary(s: &ImportSummary) -> (r: String)
    ensures
        r@ == import_summary_text(*s),
{
    let mut msg = string_of("import: created ");
    msg.append(num(s.created).as_str());
    msg.append(" / skipped ");
    msg.append(num(s.skipped).as_str());
    msg.append(" / parse-errors ");
    msg.append(num(s.parse_errors).as_str());
    if s.first_errors.len() > 0 {
        msg.append(" — first: ");
        msg.append(s.first_errors[0].as_str());
    } else {
        assert(msg@ =~= msg@ + seq![]);
    }
    msg
}

} // verus!
