//! The decisions of an update run over the QSL services: which services
//! run, what a run reports for each step, how the confirmations of a
//! fetched report are counted, and which QSOs a QRZ upload marks. The
//! run itself (the queries, the uploads, the fetches) is the caller's.
use vstd::prelude::*;

use crate::config::Config;
use crate::datetime::UtcDateTime;
use crate::ids::QsoId;
use crate::import::opt_view;
use crate::lotw::fetch::ConfirmationRecord;
use crate::qsl_view::QslService;
use crate::summary::{
    ClubLogUpdateSummary, EqslUpdateSummary, FetchSummary, HrdlogUpdateSummary, QrzUpdateSummary,
    UpdateSummary, UploadSummary,
};
use crate::value::string_of;

verus! {

/// The services a run takes up: those with what they need configured.
#[derive(Debug, Clone, Copy, PartialEq, Eq, Structural)]
pub struct ServicePlan {
    pub lotw: bool,
    pub eqsl: bool,
    pub clublog: bool,
    pub qrz: bool,
    pub hrdlog: bool,
}

/// LotW runs with a TQSL station location (to upload) or an account (to
/// fetch); each other service runs when its section is complete.
pub fn plan_services(cfg: &Config) -> (r: ServicePlan)
    ensures
        r.lotw == (cfg.lotw.station_location is Some || (cfg.lotw.username is Some
            && cfg.lotw.password is Some)),
        r.eqsl == (cfg.eqsl.username is Some && cfg.eqsl.password is Some),
        r.clublog == (cfg.clublog.email is Some && cfg.clublog.password is Some
            && cfg.clublog.callsign is Some),
        r.qrz == (cfg.qrz.api_key is Some),
        r.hrdlog == (cfg.hrdlog.callsign is Some && cfg.hrdlog.code is Some),
{
    ServicePlan {
        lotw: cfg.lotw.is_configured_for_upload() || cfg.lotw.is_configured_for_fetch(),
        eqsl: cfg.eqsl.is_configured(),
        clublog: cfg.clublog.is_configured(),
        qrz: cfg.qrz.is_configured(),
        hrdlog: cfg.hrdlog.is_configured(),
    }
}

/// The upload of an empty queue: nothing sent.
pub fn nothing_pending() -> (r: UploadSummary)
    ensures
        r.uploaded == 0,
        r.note@ == "no pending QSOs"@,
{
    UploadSummary { uploaded: 0, note: string_of("no pending QSOs") }
}

/// The note of an upload: the service took it, or its reply was unclear
/// and the operator should look on its site. QRZ reports counts instead.
pub open spec fn upload_note_text(s: QslService, accepted: bool) -> Seq<char> {
    match s {
        QslService::Lotw => if accepted {
            "accepted by LotW"@
        } else {
            "uploaded; LotW response unclear — verify in LotW account"@
        },
        QslService::Eqsl => if accepted {
            "accepted by eQSL"@
        } else {
            "uploaded; eQSL response unclear — verify on eqsl.cc"@
        },
        QslService::ClubLog => if accepted {
            "accepted by Club Log"@
        } else {
            "uploaded; Club Log response unclear — verify on clublog.org"@
        },
        QslService::Qrz => seq![],
        QslService::Hrdlog => if accepted {
            "accepted by HRDLog"@
        } else {
            "uploaded; HRDLog response unclear — verify on hrdlog.net"@
        },
    }
}

/// The report of an upload that went out: how many of the QSOs were
/// marked uploaded, and the note.
pub fn upload_done(s: QslService, accepted: bool, marked: usize) -> (r: UploadSummary)
    requires
        s != QslService::Qrz,
    ensures
        r.uploaded == marked,
        r.note@ == upload_note_text(s, accepted),
{
    let note = match s {
        QslService::Lotw => if accepted {
            "accepted by LotW"
        } else {
            "uploaded; LotW response unclear — verify in LotW account"
        },
        QslService::Eqsl => if accepted {
            "accepted by eQSL"
        } else {
            "uploaded; eQSL response unclear — verify on eqsl.cc"
        },
        QslService::ClubLog => if accepted {
            "accepted by Club Log"
        } else {
            "uploaded; Club Log response unclear — verify on clublog.org"
        },
        QslService::Qrz => "",
        QslService::Hrdlog => if accepted {
            "accepted by HRDLog"
        } else {
            "uploaded; HRDLog response unclear — verify on hrdlog.net"
        },
    };
    UploadSummary { uploaded: marked, note: string_of(note) }
}

/// The LotW line of a run: the upload's result or, when no station
/// location is configured, its skip; the same for the report fetch when
/// no account is configured.
pub fn lotw_update_summary(
    upload: Option<Result<UploadSummary, String>>,
    fetch: Option<Result<FetchSummary, String>>,
) -> (r: UpdateSummary)
    ensures
        match upload {
            Some(Ok(u)) => r.upload == Some(u) && r.upload_error is None
                && r.upload_skipped_reason is None,
            Some(Err(e)) => r.upload is None && r.upload_error == Some(e)
                && r.upload_skipped_reason is None,
            None => r.upload is None && r.upload_error is None && opt_view(r.upload_skipped_reason)
                == Some("no [lotw].station_location"@),
        },
        match fetch {
            Some(Ok(f)) => r.fetch == Some(f) && r.fetch_error is None && r.fetch_skipped_reason is None,
            Some(Err(e)) => r.fetch is None && r.fetch_error == Some(e) && r.fetch_skipped_reason is None,
            None => r.fetch is None && r.fetch_error is None && opt_view(r.fetch_skipped_reason)
                == Some("no [lotw].username/password"@),
        },
{
    let (up, up_err, up_skip) = match upload {
        Some(Ok(u)) => (Some(u), None, None),
        Some(Err(e)) => (None, Some(e), None),
        None => (None, None, Some(string_of("no [lotw].station_location"))),
    };
    let (f, f_err, f_skip) = match fetch {
        Some(Ok(f)) => (Some(f), None, None),
        Some(Err(e)) => (None, Some(e), None),
        None => (None, None, Some(string_of("no [lotw].username/password"))),
    };
    UpdateSummary {
        upload: up,
        upload_error: up_err,
        upload_skipped_reason: up_skip,
        fetch: f,
        fetch_error: f_err,
        fetch_skipped_reason: f_skip,
    }
}

/// The eQSL line of a run: both steps skipped without an account, else
/// the upload's result and the inbox fetch's counts (fetched, confirmed,
/// unmatched) or its error.
pub fn eqsl_update_summary(
    steps: Option<(Result<UploadSummary, String>, Result<(usize, usize, usize), String>)>,
) -> (r: EqslUpdateSummary)
    ensures
        match steps {
            None => r.upload is None && r.upload_error is None && opt_view(r.upload_skipped_reason)
                == Some("missing [eqsl] username/password"@) && opt_view(r.fetch_skipped_reason)
                == Some("missing [eqsl] username/password"@) && r.fetch_error is None && r.fetched
                == 0 && r.confirmed == 0 && r.unmatched == 0,
            Some((up, fetch)) => r.upload_skipped_reason is None && r.fetch_skipped_reason is None
                && match up {
                Ok(u) => r.upload == Some(u) && r.upload_error is None,
                Err(e) => r.upload is None && r.upload_error == Some(e),
            } && match fetch {
                Ok((f, c, m)) => r.fetched == f && r.confirmed == c && r.unmatched == m
                    && r.fetch_error is None,
                Err(e) => r.fetch_error == Some(e) && r.fetched == 0 && r.confirmed == 0
                    && r.unmatched == 0,
            },
        },
{
    match steps {
        None => EqslUpdateSummary {
            upload: None,
            upload_error: None,
            upload_skipped_reason: Some(string_of("missing [eqsl] username/password")),
            fetched: 0,
            confirmed: 0,
            unmatched: 0,
            fetch_error: None,
            fetch_skipped_reason: Some(string_of("missing [eqsl] username/password")),
        },
        Some((up, fetch)) => {
            let (upload, upload_error) = match up {
                Ok(u) => (Some(u), None),
                Err(e) => (None, Some(e)),
            };
            let (fetched, confirmed, unmatched, fetch_error) = match fetch {
                Ok((f, c, m)) => (f, c, m, None),
                Err(e) => (0, 0, 0, Some(e)),
            };
            EqslUpdateSummary {
                upload,
                upload_error,
                upload_skipped_reason: None,
                fetched,
                confirmed,
                unmatched,
                fetch_error,
                fetch_skipped_reason: None,
            }
        },
    }
}

/// What an upload-only step reports: the skip reason when the service's
/// section is incomplete, else the upload's result.
pub open spec fn upload_only_fits(
    upload: Option<UploadSummary>,
    err: Option<String>,
    skip: Option<String>,
    step: Option<Result<UploadSummary, String>>,
    reason: Seq<char>,
) -> bool {
    match step {
        None => upload is None && err is None && opt_view(skip) == Some(reason),
        Some(Ok(u)) => upload == Some(u) && err is None && skip is None,
        Some(Err(e)) => upload is None && err == Some(e) && skip is None,
    }
}

fn upload_only_parts(step: Option<Result<UploadSummary, String>>, reason: &str) -> (r: (
    Option<UploadSummary>,
    Option<String>,
    Option<String>,
))
    ensures
        upload_only_fits(r.0, r.1, r.2, step, reason@),
{
    match step {
        None => (None, None, Some(string_of(reason))),
        Some(Ok(u)) => (Some(u), None, None),
        Some(Err(e)) => (None, Some(e), None),
    }
}

/// The Club Log line of a run.
pub fn clublog_update_summary(step: Option<Result<UploadSummary, String>>) -> (r: ClubLogUpdateSummary)
    ensures
        upload_only_fits(
            r.upload,
            r.upload_error,
            r.upload_skipped_reason,
            step,
            "missing [clublog] fields"@,
        ),
{
    let (upload, upload_error, upload_skipped_reason) = upload_only_parts(
        step,
        "missing [clublog] fields",
    );
    ClubLogUpdateSummary { upload, upload_error, upload_skipped_reason }
}

/// The HRDLog line of a run.
pub fn hrdlog_update_summary(step: Option<Result<UploadSummary, String>>) -> (r: HrdlogUpdateSummary)
    ensures
        upload_only_fits(
            r.upload,
            r.upload_error,
            r.upload_skipped_reason,
            step,
            "missing [hrdlog] callsign/code"@,
        ),
{
    let (upload, upload_error, upload_skipped_reason) = upload_only_parts(
        step,
        "missing [hrdlog] callsign/code",
    );
    HrdlogUpdateSummary { upload, upload_error, upload_skipped_reason }
}

/// Which pending QSOs a QRZ upload marks: QRZ takes the records in
/// order, so the first `accepted` QSOs are marked uploaded and the next
/// `rejected` ones failed, with the first refusal (or "unknown error")
/// as the reason.
#[derive(Debug, Clone)]
pub struct QrzMarks {
    pub uploaded: Vec<QsoId>,
    pub failed: Vec<QsoId>,
    pub reason: String,
}

pub open spec fn clamp(n: int, len: int) -> int {
    if n < len {
        n
    } else {
        len
    }
}

pub fn qrz_marks(pending: &Vec<QsoId>, accepted: usize, rejected: usize, errors: &Vec<String>) -> (r: QrzMarks)
    ensures
        r.uploaded@ == pending@.take(clamp(accepted as int, pending@.len() as int)),
        r.failed@ == pending@.subrange(
            clamp(accepted as int, pending@.len() as int),
            clamp(accepted + rejected, pending@.len() as int),
        ),
        r.reason@ == if errors@.len() > 0 {
            errors@[0]@
        } else {
            "unknown error"@
        },
{
    let n = pending.len();
    let a = if accepted < n {
        accepted
    } else {
        n
    };
    let b = if rejected < n - a {
        a + rejected
    } else {
        n
    };
    let mut uploaded: Vec<QsoId> = Vec::new();
    let mut failed: Vec<QsoId> = Vec::new();
    let mut i: usize = 0;
    while i < b
        invariant
            a <= b <= n == pending@.len(),
            i <= b,
            uploaded@ == pending@.take(if i < a {
                i as int
            } else {
                a as int
            }),
            failed@ == if i < a {
                seq![]
            } else {
                pending@.subrange(a as int, i as int)
            },
        decreases b - i,
    {
        if i < a {
            uploaded.push(pending[i]);
            assert(uploaded@ =~= pending@.take(if i + 1 < a {
                (i + 1) as int
            } else {
                a as int
            }));
        } else {
            failed.push(pending[i]);
            assert(failed@ =~= pending@.subrange(a as int, i + 1));
        }
        i = i + 1;
    }
    assert(i == b);
    if b == a {
        assert(failed@ =~= pending@.subrange(a as int, b as int));
    }
    let reason = if errors.len() > 0 {
        string_of(errors[0].as_str())
    } else {
        string_of("unknown error")
    };
    QrzMarks { uploaded, failed, reason }
}

/// The QRZ line of a run: the skip without an API key; the listing's
/// error; nothing when no QSO waits; else the counts of the upload and
/// its first three refusals, or its error.
pub open spec fn qrz_summary_fits(
    r: QrzUpdateSummary,
    step: Option<Result<Option<(usize, usize, Seq<String>)>, String>>,
) -> bool {
    match step {
        None => r.uploaded == 0 && r.rejected == 0 && r.upload_error is None && opt_view(
            r.upload_skipped_reason,
        ) == Some("missing [qrz].api_key"@) && r.first_errors@.len() == 0,
        Some(Err(e)) => r.uploaded == 0 && r.rejected == 0 && r.upload_error == Some(e)
            && r.upload_skipped_reason is None && r.first_errors@.len() == 0,
        Some(Ok(None)) => r.uploaded == 0 && r.rejected == 0 && r.upload_error is None
            && r.upload_skipped_reason is None && r.first_errors@.len() == 0,
        Some(Ok(Some((a, j, es)))) => r.uploaded == a && r.rejected == j && r.upload_error is None
            && r.upload_skipped_reason is None && r.first_errors@ == es.take(
            clamp(3, es.len() as int),
        ),
    }
}

pub open spec fn qrz_step_view(step: Option<Result<Option<(usize, usize, Vec<String>)>, String>>) -> Option<
    Result<Option<(usize, usize, Seq<String>)>, String>,
> {
    match step {
        None => None,
        Some(Err(e)) => Some(Err(e)),
        Some(Ok(None)) => Some(Ok(None)),
        Some(Ok(Some((a, j, es)))) => Some(Ok(Some((a, j, es@)))),
    }
}

pub fn qrz_update_summary(step: Option<Result<Option<(usize, usize, Vec<String>)>, String>>) -> (r: QrzUpdateSummary)
    ensures
        qrz_summary_fits(r, qrz_step_view(step)),
{
    match step {
        None => QrzUpdateSummary {
            uploaded: 0,
            rejected: 0,
            upload_error: None,
            upload_skipped_reason: Some(string_of("missing [qrz].api_key")),
            first_errors: Vec::new(),
        },
        Some(Err(e)) => QrzUpdateSummary {
            uploaded: 0,
            rejected: 0,
            upload_error: Some(e),
            upload_skipped_reason: None,
            first_errors: Vec::new(),
        },
        Some(Ok(None)) => QrzUpdateSummary {
            uploaded: 0,
            rejected: 0,
            upload_error: None,
            upload_skipped_reason: None,
            first_errors: Vec::new(),
        },
        Some(Ok(Some((a, j, mut es)))) => {
            let ghost all = es@;
            es.truncate(3);
            assert(es@ =~= all.take(clamp(3, all.len() as int)));
            QrzUpdateSummary {
                uploaded: a,
                rejected: j,
                upload_error: None,
                upload_skipped_reason: None,
                first_errors: es,
            }
        },
    }
}

/// What became of one record of a fetched report: it names no station,
/// matches no QSO, matched but could not be marked, or was marked (for
/// LotW, verified; `confirmed` says whether a confirmation was also
/// marked).
#[derive(Debug, Clone, Copy, PartialEq, Eq, Structural)]
pub enum RecordOutcome {
    NoStation,
    NoMatch,
    MarkFailed,
    Marked { confirmed: bool },
}

/// The counts after one more record of a LotW report: a marked record
/// is verified, and confirmed when its confirmation was marked; every
/// other record is unmatched.
pub open spec fn lotw_tally_step(t: FetchSummary, o: RecordOutcome) -> FetchSummary {
    match o {
        RecordOutcome::Marked { confirmed } => FetchSummary {
            verified: (t.verified + 1) as usize,
            confirmed: if confirmed {
                (t.confirmed + 1) as usize
            } else {
                t.confirmed
            },
            ..t
        },
        _ => FetchSummary { unmatched: (t.unmatched + 1) as usize, ..t },
    }
}

pub fn lotw_tally(t: FetchSummary, o: RecordOutcome) -> (r: FetchSummary)
    requires
        t.verified < usize::MAX,
        t.confirmed < usize::MAX,
        t.unmatched < usize::MAX,
    ensures
        r == lotw_tally_step(t, o),
{
    match o {
        RecordOutcome::Marked { confirmed } => FetchSummary {
            verified: t.verified + 1,
            confirmed: if confirmed {
                t.confirmed + 1
            } else {
                t.confirmed
            },
            ..t
        },
        _ => FetchSummary { unmatched: t.unmatched + 1, ..t },
    }
}

/// Each record of a report is counted once, as verified or as
/// unmatched, and a confirmation is counted only with a verification.
pub proof fn law_every_record_counted_once(t: FetchSummary, o: RecordOutcome)
    requires
        t.verified < usize::MAX,
        t.confirmed < usize::MAX,
        t.unmatched < usize::MAX,
    ensures
        lotw_tally_step(t, o).verified + lotw_tally_step(t, o).unmatched == t.verified
            + t.unmatched + 1,
        lotw_tally_step(t, o).confirmed - t.confirmed <= lotw_tally_step(t, o).verified
            - t.verified,
        lotw_tally_step(t, o).fetched == t.fetched,
{
}

/// The counts of an eQSL inbox fetch after one more record: a marked
/// record is confirmed, every other one unmatched.
pub fn eqsl_tally(t: (usize, usize, usize), o: RecordOutcome) -> (r: (usize, usize, usize))
    requires
        t.1 < usize::MAX,
        t.2 < usize::MAX,
    ensures
        r.0 == t.0,
        o is Marked ==> r.1 == t.1 + 1 && r.2 == t.2,
        !(o is Marked) ==> r.1 == t.1 && r.2 == t.2 + 1,
{
    match o {
        RecordOutcome::Marked { .. } => (t.0, t.1 + 1, t.2),
        _ => (t.0, t.1, t.2 + 1),
    }
}

/// When a LotW confirmation is recorded as received: the report's QSL
/// date, else now.
pub fn confirmed_at(rec: &ConfirmationRecord, now: UtcDateTime) -> (r: UtcDateTime)
    ensures
        r == match rec.qsl_rdate {
            Some(d) => d,
            None => now,
        },
{
    match rec.qsl_rdate {
        Some(d) => d,
        None => now,
    }
}

/// What the run over a fetched report does next for one record: look up
/// the QSO it names, mark that QSO verified or confirmed at a time, or
/// finish with an outcome.
#[derive(Debug, Clone, Copy, PartialEq, Eq, Structural)]
pub enum RecordStep {
    FindMatch,
    MarkVerified(QsoId, UtcDateTime),
    MarkConfirmed(QsoId, UtcDateTime),
    Finish(RecordOutcome),
}

/// What came back from the last step for a record: nothing yet, the QSO
/// the lookup found (if any), or whether marking it verified or
/// confirmed was stored.
#[derive(Debug, Clone, Copy, PartialEq, Eq, Structural)]
pub enum StepResult {
    Begin,
    Found(Option<QsoId>),
    Verified(QsoId, bool),
    Confirmed(bool),
}

/// The next step for a record of a LotW report: a record that names no
/// station is done; a match is marked verified now; once verified, a
/// record with a confirmation is marked confirmed at its QSL date (or
/// now); a failed mark ends the record as failed.
pub open spec fn lotw_next(rec: ConfirmationRecord, now: UtcDateTime, last: StepResult) -> RecordStep {
    match last {
        StepResult::Begin => if rec.station_callsign is None {
            RecordStep::Finish(RecordOutcome::NoStation)
        } else {
            RecordStep::FindMatch
        },
        StepResult::Found(None) => RecordStep::Finish(RecordOutcome::NoMatch),
        StepResult::Found(Some(id)) => RecordStep::MarkVerified(id, now),
        StepResult::Verified(_, false) => RecordStep::Finish(RecordOutcome::MarkFailed),
        StepResult::Verified(id, true) => if rec.qsl_rcvd {
            RecordStep::MarkConfirmed(
                id,
                match rec.qsl_rdate {
                    Some(d) => d,
                    None => now,
                },
            )
        } else {
            RecordStep::Finish(RecordOutcome::Marked { confirmed: false })
        },
        StepResult::Confirmed(ok) => RecordStep::Finish(RecordOutcome::Marked { confirmed: ok }),
    }
}

pub fn lotw_record_step(rec: &ConfirmationRecord, now: UtcDateTime, last: StepResult) -> (r: RecordStep)
    ensures
        r == lotw_next(*rec, now, last),
{
    match last {
        StepResult::Begin => if rec.station_callsign.is_none() {
            RecordStep::Finish(RecordOutcome::NoStation)
        } else {
            RecordStep::FindMatch
        },
        StepResult::Found(None) => RecordStep::Finish(RecordOutcome::NoMatch),
        StepResult::Found(Some(id)) => RecordStep::MarkVerified(id, now),
        StepResult::Verified(id, ok) => if !ok {
            RecordStep::Finish(RecordOutcome::MarkFailed)
        } else if rec.qsl_rcvd {
            RecordStep::MarkConfirmed(id, confirmed_at(rec, now))
        } else {
            RecordStep::Finish(RecordOutcome::Marked { confirmed: false })
        },
        StepResult::Confirmed(ok) => RecordStep::Finish(RecordOutcome::Marked { confirmed: ok }),
    }
}

/// The next step for a record of an eQSL inbox: a record that names no
/// station is done; a match is marked confirmed now; the record is then
/// marked, or failed when the mark was not stored. An eQSL run marks
/// nothing verified, so a verified result ends the record as failed.
pub open spec fn eqsl_next(has_station: bool, now: UtcDateTime, last: StepResult) -> RecordStep {
    match last {
        StepResult::Begin => if !has_station {
            RecordStep::Finish(RecordOutcome::NoStation)
        } else {
            RecordStep::FindMatch
        },
        StepResult::Found(None) => RecordStep::Finish(RecordOutcome::NoMatch),
        StepResult::Found(Some(id)) => RecordStep::MarkConfirmed(id, now),
        StepResult::Verified(_, _) => RecordStep::Finish(RecordOutcome::MarkFailed),
        StepResult::Confirmed(ok) => if ok {
            RecordStep::Finish(RecordOutcome::Marked { confirmed: true })
        } else {
            RecordStep::Finish(RecordOutcome::MarkFailed)
        },
    }
}

pub fn eqsl_record_step(has_station: bool, now: UtcDateTime, last: StepResult) -> (r: RecordStep)
    ensures
        r == eqsl_next(has_station, now, last),
{
    match last {
        StepResult::Begin => if !has_station {
            RecordStep::Finish(RecordOutcome::NoStation)
        } else {
            RecordStep::FindMatch
        },
        StepResult::Found(None) => RecordStep::Finish(RecordOutcome::NoMatch),
        StepResult::Found(Some(id)) => RecordStep::MarkConfirmed(id, now),
        StepResult::Verified(_, _) => RecordStep::Finish(RecordOutcome::MarkFailed),
        StepResult::Confirmed(ok) => if ok {
            RecordStep::Finish(RecordOutcome::Marked { confirmed: true })
        } else {
            RecordStep::Finish(RecordOutcome::MarkFailed)
        },
    }
}

} // verus!
