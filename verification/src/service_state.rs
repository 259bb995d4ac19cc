//! Service upload and confirmation state read from the per-service ADIF
//! fields that an import keeps among a QSO's exchange fields.
//!
//! - LotW: `LOTW_QSL_SENT` `Y` or `V` means uploaded (verified for `V`, or
//!   for `Y` with `APP_DXKEEPER_LOTW_VERIFIED=V`); `LOTW_QSL_RCVD` `Y` or `V`
//!   means confirmed. Dates from `LOTW_QSLSDATE` / `LOTW_QSLRDATE`.
//! - eQSL: `EQSL_QSL_SENT=Y` uploaded, `EQSL_QSL_RCVD=Y` confirmed; dates from
//!   `EQSL_QSLSDATE` / `EQSL_QSLRDATE`.
//! - Club Log: `CLUBLOG_QSO_UPLOAD_STATUS=Y` uploaded, without a date.
//! - QRZ: `QRZCOM_QSO_UPLOAD_STATUS=Y` uploaded (`QRZCOM_QSO_UPLOAD_DATE`),
//!   `QRZCOM_QSO_DOWNLOAD_STATUS=Y` confirmed (`QRZCOM_QSO_DOWNLOAD_DATE`).
//! - HRDLog: `HRDLOG_QSO_UPLOAD_STATUS=Y` uploaded (`HRDLOG_QSO_UPLOAD_DATE`).
//!
//! Flag values are compared after trimming and upper-casing; field names
//! without regard to ASCII case.
use vstd::prelude::*;

use crate::datetime::{adif_midnight, parse_adif_midnight, UtcDateTime};
use crate::ids::QsoId;
use crate::import::QsoExchangeField;
use crate::text::{
    chars_eq, chars_eq_str, chars_of, lower_chars, lower_seq, str_trim, trim, upper_chars,
    upper_seq,
};

verus! {

/// One row of service state synthesized from ADIF fields. The texts are the
/// stored names: service `lotw`/`eqsl`/`clublog`/`qrz`/`hrdlog`, upload
/// state `uploaded`/`verified`, confirmation state `confirmed`.
#[derive(Debug, Clone)]
pub struct ImportedServiceState {
    pub qso_id: QsoId,
    pub service: &'static str,
    pub upload_state: Option<&'static str>,
    pub confirmation_state: Option<&'static str>,
    pub uploaded_at: Option<UtcDateTime>,
    pub confirmed_at: Option<UtcDateTime>,
}

/// (service, upload state, confirmation state, uploaded at, confirmed at).
pub type StateV = (Seq<char>, Option<Seq<char>>, Option<Seq<char>>, Option<UtcDateTime>, Option<UtcDateTime>);

pub open spec fn opt_str_view(o: Option<&'static str>) -> Option<Seq<char>> {
    match o {
        Some(s) => Some(s@),
        None => None,
    }
}

pub open spec fn state_view(s: ImportedServiceState) -> StateV {
    (s.service@, opt_str_view(s.upload_state), opt_str_view(s.confirmation_state), s.uploaded_at, s.confirmed_at)
}

/// Value of the first field whose name equals `name` without regard to
/// ASCII case.
pub open spec fn get_field(fs: Seq<QsoExchangeField>, name: Seq<char>) -> Option<Seq<char>>
    decreases fs.len(),
{
    if fs.len() == 0 {
        None
    } else if lower_seq(fs[0].name@) == lower_seq(name) {
        Some(fs[0].raw_value@)
    } else {
        get_field(fs.drop_first(), name)
    }
}

/// A flag field, trimmed and upper-cased.
pub open spec fn flag(fs: Seq<QsoExchangeField>, name: Seq<char>) -> Option<Seq<char>> {
    match get_field(fs, name) {
        Some(v) => Some(upper_seq(trim(v))),
        None => None,
    }
}

/// A date field as the midnight that starts it.
pub open spec fn date_field(fs: Seq<QsoExchangeField>, name: Seq<char>) -> Option<UtcDateTime> {
    match get_field(fs, name) {
        Some(v) => adif_midnight(v),
        None => None,
    }
}

pub open spec fn row(
    service: Seq<char>,
    upload: Option<Seq<char>>,
    confirm: Option<Seq<char>>,
    up_date: Option<UtcDateTime>,
    conf_date: Option<UtcDateTime>,
) -> Seq<StateV> {
    if upload is Some || confirm is Some {
        seq![
            (
                service,
                upload,
                confirm,
                if upload is Some {
                    up_date
                } else {
                    None
                },
                if confirm is Some {
                    conf_date
                } else {
                    None
                },
            ),
        ]
    } else {
        seq![]
    }
}

pub open spec fn lotw_row(fs: Seq<QsoExchangeField>) -> Seq<StateV> {
    let sent = flag(fs, "LOTW_QSL_SENT"@);
    let rcvd = flag(fs, "LOTW_QSL_RCVD"@);
    let verified = flag(fs, "APP_DXKEEPER_LOTW_VERIFIED"@);
    let upload = if sent == Some("V"@) {
        Some("verified"@)
    } else if sent == Some("Y"@) && verified == Some("V"@) {
        Some("verified"@)
    } else if sent == Some("Y"@) {
        Some("uploaded"@)
    } else {
        None
    };
    let confirm = if rcvd == Some("Y"@) || rcvd == Some("V"@) {
        Some("confirmed"@)
    } else {
        None
    };
    row("lotw"@, upload, confirm, date_field(fs, "LOTW_QSLSDATE"@), date_field(fs, "LOTW_QSLRDATE"@))
}

pub open spec fn eqsl_row(fs: Seq<QsoExchangeField>) -> Seq<StateV> {
    let upload = if flag(fs, "EQSL_QSL_SENT"@) == Some("Y"@) {
        Some("uploaded"@)
    } else {
        None
    };
    let confirm = if flag(fs, "EQSL_QSL_RCVD"@) == Some("Y"@) {
        Some("confirmed"@)
    } else {
        None
    };
    row("eqsl"@, upload, confirm, date_field(fs, "EQSL_QSLSDATE"@), date_field(fs, "EQSL_QSLRDATE"@))
}

pub open spec fn clublog_row(fs: Seq<QsoExchangeField>) -> Seq<StateV> {
    let upload = if flag(fs, "CLUBLOG_QSO_UPLOAD_STATUS"@) == Some("Y"@) {
        Some("uploaded"@)
    } else {
        None
    };
    row("clublog"@, upload, None, None, None)
}

pub open spec fn qrz_row(fs: Seq<QsoExchangeField>) -> Seq<StateV> {
    let upload = if flag(fs, "QRZCOM_QSO_UPLOAD_STATUS"@) == Some("Y"@) {
        Some("uploaded"@)
    } else {
        None
    };
    let confirm = if flag(fs, "QRZCOM_QSO_DOWNLOAD_STATUS"@) == Some("Y"@) {
        Some("confirmed"@)
    } else {
        None
    };
    row(
        "qrz"@,
        upload,
        confirm,
        date_field(fs, "QRZCOM_QSO_UPLOAD_DATE"@),
        date_field(fs, "QRZCOM_QSO_DOWNLOAD_DATE"@),
    )
}

pub open spec fn hrdlog_row(fs: Seq<QsoExchangeField>) -> Seq<StateV> {
    let upload = if flag(fs, "HRDLOG_QSO_UPLOAD_STATUS"@) == Some("Y"@) {
        Some("uploaded"@)
    } else {
        None
    };
    row("hrdlog"@, upload, None, date_field(fs, "HRDLOG_QSO_UPLOAD_DATE"@), None)
}

/// The rows, in service order LotW, eQSL, Club Log, QRZ, HRDLog; a service
/// has a row when it has an upload or a confirmation state.
pub open spec fn service_states(fs: Seq<QsoExchangeField>) -> Seq<StateV> {
    lotw_row(fs) + eqsl_row(fs) + clublog_row(fs) + qrz_row(fs) + hrdlog_row(fs)
}

/// Value of the first field named `name` (any ASCII case).
pub fn get_field_exec(fields: &Vec<QsoExchangeField>, name: &str) -> (r: Option<String>)
    ensures
        match r {
            Some(v) => get_field(fields@, name@) == Some(v@),
            None => get_field(fields@, name@) == None::<Seq<char>>,
        },
{
    let key = lower_chars(&chars_of(name));
    let mut i: usize = 0;
    assert(fields@.subrange(0, fields@.len() as int) =~= fields@);
    while i < fields.len()
        invariant
            i <= fields.len(),
            key@ == lower_seq(name@),
            get_field(fields@, name@) == get_field(fields@.subrange(i as int, fields@.len() as int), name@),
        decreases fields.len() - i,
    {
        assert(fields@.subrange(i as int, fields@.len() as int).drop_first() =~= fields@.subrange(
            i + 1,
            fields@.len() as int,
        ));
        let n = lower_chars(&chars_of(fields[i].name.as_str()));
        if chars_eq(n.as_slice(), key.as_slice()) {
            return Some(fields[i].raw_value.clone());
        }
        i = i + 1;
    }
    None
}

fn flag_exec(fields: &Vec<QsoExchangeField>, name: &str) -> (r: Option<Vec<char>>)
    ensures
        match r {
            Some(v) => flag(fields@, name@) == Some(v@),
            None => flag(fields@, name@) == None::<Seq<char>>,
        },
{
    match get_field_exec(fields, name) {
        Some(v) => Some(upper_chars(&chars_of(str_trim(v.as_str())))),
        None => None,
    }
}

fn flag_is(f: &Option<Vec<char>>, lit: &str) -> (r: bool)
    ensures
        r == (match f {
            Some(v) => v@ == lit@,
            None => false,
        }),
{
    match f {
        Some(v) => chars_eq_str(v.as_slice(), lit),
        None => false,
    }
}

fn date_exec(fields: &Vec<QsoExchangeField>, name: &str) -> (r: Option<UtcDateTime>)
    ensures
        r == date_field(fields@, name@),
{
    match get_field_exec(fields, name) {
        Some(v) => parse_adif_midnight(v.as_str()),
        None => None,
    }
}

fn push_row(
    out: &mut Vec<ImportedServiceState>,
    qso_id: QsoId,
    service: &'static str,
    upload: Option<&'static str>,
    confirm: Option<&'static str>,
    up_date: Option<UtcDateTime>,
    conf_date: Option<UtcDateTime>,
)
    ensures
        final(out)@.map_values(|s: ImportedServiceState| state_view(s)) == old(out)@.map_values(
            |s: ImportedServiceState| state_view(s),
        ) + row(service@, opt_str_view(upload), opt_str_view(confirm), up_date, conf_date),
        final(out)@.len() >= old(out)@.len(),
        forall|k: int| 0 <= k < old(out)@.len() ==> #[trigger] final(out)@[k] == old(out)@[k],
        forall|k: int| old(out)@.len() <= k < final(out)@.len() ==> (#[trigger] final(out)@[k]).qso_id == qso_id,
{
    let ghost before = out@.map_values(|s: ImportedServiceState| state_view(s));
    if upload.is_some() || confirm.is_some() {
        out.push(
            ImportedServiceState {
                qso_id,
                service,
                upload_state: upload,
                confirmation_state: confirm,
                uploaded_at: if upload.is_some() {
                    up_date
                } else {
                    None
                },
                confirmed_at: if confirm.is_some() {
                    conf_date
                } else {
                    None
                },
            },
        );
        assert(out@.map_values(|s: ImportedServiceState| state_view(s)) =~= before + row(
            service@,
            opt_str_view(upload),
            opt_str_view(confirm),
            up_date,
            conf_date,
        ));
    } else {
        assert(before + seq![] =~= before);
    }
}

/// Service-state rows for a QSO, read from its exchange fields; the fields
/// themselves are left in place.
pub fn extract_service_states(qso_id: QsoId, fields: &Vec<QsoExchangeField>) -> (r: Vec<ImportedServiceState>)
    ensures
        r@.map_values(|s: ImportedServiceState| state_view(s)) == service_states(fields@),
        forall|k: int| 0 <= k < r@.len() ==> (#[trigger] r@[k]).qso_id == qso_id,
{
    let mut out: Vec<ImportedServiceState> = Vec::new();
    assert(out@.map_values(|s: ImportedServiceState| state_view(s)) =~= seq![]);
    // LotW
    let sent = flag_exec(fields, "LOTW_QSL_SENT");
    let rcvd = flag_exec(fields, "LOTW_QSL_RCVD");
    let verified = flag_exec(fields, "APP_DXKEEPER_LOTW_VERIFIED");
    let upload: Option<&'static str> = if flag_is(&sent, "V") {
        Some("verified")
    } else if flag_is(&sent, "Y") && flag_is(&verified, "V") {
        Some("verified")
    } else if flag_is(&sent, "Y") {
        Some("uploaded")
    } else {
        None
    };
    let confirm: Option<&'static str> = if flag_is(&rcvd, "Y") || flag_is(&rcvd, "V") {
        Some("confirmed")
    } else {
        None
    };
    push_row(
        &mut out,
        qso_id,
        "lotw",
        upload,
        confirm,
        date_exec(fields, "LOTW_QSLSDATE"),
        date_exec(fields, "LOTW_QSLRDATE"),
    );
    assert(out@.map_values(|s: ImportedServiceState| state_view(s)) =~= lotw_row(fields@));
    // eQSL
    let upload: Option<&'static str> = if flag_is(&flag_exec(fields, "EQSL_QSL_SENT"), "Y") {
        Some("uploaded")
    } else {
        None
    };
    let confirm: Option<&'static str> = if flag_is(&flag_exec(fields, "EQSL_QSL_RCVD"), "Y") {
        Some("confirmed")
    } else {
        None
    };
    push_row(
        &mut out,
        qso_id,
        "eqsl",
        upload,
        confirm,
        date_exec(fields, "EQSL_QSLSDATE"),
        date_exec(fields, "EQSL_QSLRDATE"),
    );
    // Club Log
    let upload: Option<&'static str> = if flag_is(
        &flag_exec(fields, "CLUBLOG_QSO_UPLOAD_STATUS"),
        "Y",
    ) {
        Some("uploaded")
    } else {
        None
    };
    push_row(&mut out, qso_id, "clublog", upload, None, None, None);
    // QRZ
    let upload: Option<&'static str> = if flag_is(&flag_exec(fields, "QRZCOM_QSO_UPLOAD_STATUS"), "Y") {
        Some("uploaded")
    } else {
        None
    };
    let confirm: Option<&'static str> = if flag_is(
        &flag_exec(fields, "QRZCOM_QSO_DOWNLOAD_STATUS"),
        "Y",
    ) {
        Some("confirmed")
    } else {
        None
    };
    push_row(
        &mut out,
        qso_id,
        "qrz",
        upload,
        confirm,
        date_exec(fields, "QRZCOM_QSO_UPLOAD_DATE"),
        date_exec(fields, "QRZCOM_QSO_DOWNLOAD_DATE"),
    );
    // HRDLog
    let upload: Option<&'static str> = if flag_is(&flag_exec(fields, "HRDLOG_QSO_UPLOAD_STATUS"), "Y") {
        Some("uploaded")
    } else {
        None
    };
    push_row(
        &mut out,
        qso_id,
        "hrdlog",
        upload,
        None,
        date_exec(fields, "HRDLOG_QSO_UPLOAD_DATE"),
        None,
    );
    out
}

} // verus!
