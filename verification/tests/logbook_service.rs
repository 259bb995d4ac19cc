use slogger::cty::{resolution_from_match, CtyMatch};
use slogger::datetime::UtcDateTime;
use slogger::ids::QsoId;
use slogger::import::{CreateQsoCommand, QsoExchangeField};
use slogger::qso::{NoOpResolver, Resolution, Resolver};
use slogger::repository::{DedupKey, RepositoryError};
use slogger::service::{dedup_key, finish_import, import_summary, BulkReport, ImportReport, LogbookService};
use slogger::service_state::extract_service_states;
use slogger::value::{Band, Callsign, FieldSource, Mode};

fn at(hour: u8, minute: u8) -> UtcDateTime {
    UtcDateTime { year: 2026, month: 5, day: 8, hour, minute, second: 0 }
}

fn cmd(call: &str, hour: u8, minute: u8, band: Band, mode: Mode) -> CreateQsoCommand {
    let mut c = CreateQsoCommand::minimal(Callsign::parse(call).unwrap(), at(hour, minute));
    c.band = Some(band);
    c.mode = Some(mode);
    c.station_callsign = Some(Callsign::parse("W1ABC").unwrap());
    c
}

fn field(name: &str, value: &str) -> QsoExchangeField {
    QsoExchangeField {
        name: name.to_string(),
        raw_value: value.to_string(),
        normalized_value: None,
        source: FieldSource::ImportedAdif,
    }
}

#[test]
fn batch_import_dedups_intra_batch_and_against_existing() {
    let svc = LogbookService::<NoOpResolver>::new();
    let existing = cmd("W1AW", 18, 30, Band::M20, Mode::FT8);
    let mut seen: Vec<DedupKey> = vec![dedup_key(&existing).unwrap()];
    let batch = svc.prepare_import(
        vec![
            cmd("W1AW", 19, 0, Band::M20, Mode::FT8),
            cmd("JA1NUT", 19, 30, Band::M20, Mode::FT8),
            cmd("JA1NUT", 20, 0, Band::M20, Mode::FT8),
            cmd("VE3XYZ", 21, 0, Band::M40, Mode::CW),
        ],
        &mut seen,
    );
    assert_eq!(batch.duplicates, 2);
    assert_eq!(batch.qsos.len(), 2);
    assert_eq!(batch.qsos[0].call.as_str(), "JA1NUT");
    assert_eq!(batch.qsos[1].call.as_str(), "VE3XYZ");
    assert_eq!(seen.len(), 3);
}

#[test]
fn import_dedup_skips_repeats() {
    let svc = LogbookService::<NoOpResolver>::new();
    let mut seen: Vec<DedupKey> = Vec::new();
    let first = svc.prepare_import(vec![cmd("W1AW", 18, 30, Band::M20, Mode::FT8)], &mut seen);
    assert_eq!(first.qsos.len(), 1);
    assert_eq!(first.duplicates, 0);
    let again = svc.prepare_import(
        vec![cmd("W1AW", 18, 30, Band::M20, Mode::FT8), cmd("W1AW", 18, 30, Band::M20, Mode::FT8)],
        &mut seen,
    );
    assert_eq!(again.qsos.len(), 0);
    assert_eq!(again.duplicates, 2);
}

#[test]
fn import_dedup_does_not_collapse_different_bands() {
    let svc = LogbookService::<NoOpResolver>::new();
    let mut seen: Vec<DedupKey> = Vec::new();
    let batch = svc.prepare_import(
        vec![cmd("W1AW", 18, 30, Band::M20, Mode::FT8), cmd("W1AW", 18, 30, Band::M40, Mode::FT8)],
        &mut seen,
    );
    assert_eq!(batch.qsos.len(), 2);
    assert_eq!(batch.duplicates, 0);
}

#[test]
fn commands_without_station_are_never_duplicates() {
    let svc = LogbookService::<NoOpResolver>::new();
    let mut seen: Vec<DedupKey> = Vec::new();
    let mut a = cmd("W1AW", 18, 30, Band::M20, Mode::FT8);
    a.station_callsign = None;
    let b = a.clone();
    assert!(dedup_key(&a).is_none());
    let batch = svc.prepare_import(vec![a, b], &mut seen);
    assert_eq!(batch.qsos.len(), 2);
    assert_eq!(batch.duplicates, 0);
    assert!(seen.is_empty());
}

#[test]
fn dedup_key_uses_date_band_and_mode() {
    let k = dedup_key(&cmd("W1AW", 18, 30, Band::M20, Mode::FT8)).unwrap();
    assert_eq!(k.0, "W1ABC");
    assert_eq!(k.1, "W1AW");
    assert_eq!(k.2, "2026-05-08");
    assert_eq!(k.3.as_deref(), Some("20M"));
    assert_eq!(k.4.as_deref(), Some("FT8"));
}

#[test]
fn batch_import_writes_service_state_from_adif_fields() {
    let svc = LogbookService::<NoOpResolver>::new();
    let mut seen: Vec<DedupKey> = Vec::new();
    let mut c = cmd("W1AW", 18, 30, Band::M20, Mode::FT8);
    c.exchange_fields = vec![
        field("LOTW_QSL_SENT", "V"),
        field("LOTW_QSLSDATE", "20240101"),
        field("LOTW_QSL_RCVD", "V"),
        field("LOTW_QSLRDATE", "20240105"),
        field("QRZCOM_QSO_UPLOAD_STATUS", "Y"),
        field("QRZCOM_QSO_UPLOAD_DATE", "20240506"),
    ];
    let batch = svc.prepare_import(vec![c], &mut seen);
    assert_eq!(batch.qsos.len(), 1);
    assert_eq!(batch.duplicates, 0);
    let lotw: Vec<_> = batch.service_states.iter().filter(|s| s.service == "lotw").collect();
    assert_eq!(lotw.len(), 1);
    assert_eq!(lotw[0].qso_id, batch.qsos[0].id);
    assert_eq!(lotw[0].upload_state, Some("verified"));
    assert_eq!(lotw[0].confirmation_state, Some("confirmed"));
    let qrz: Vec<_> = batch.service_states.iter().filter(|s| s.service == "qrz").collect();
    assert_eq!(qrz.len(), 1);
    assert_eq!(qrz[0].upload_state, Some("uploaded"));
    assert_eq!(batch.fields.len(), 6);
    assert_eq!(batch.fields[0].0, batch.qsos[0].id);
}

#[test]
fn batch_import_with_lotw_sent_n_emits_no_service_row() {
    let svc = LogbookService::<NoOpResolver>::new();
    let mut seen: Vec<DedupKey> = Vec::new();
    let mut c = cmd("W1AW", 18, 30, Band::M20, Mode::FT8);
    c.exchange_fields = vec![field("LOTW_QSL_SENT", "N")];
    let batch = svc.prepare_import(vec![c], &mut seen);
    assert!(batch.service_states.is_empty());
}

/// A resolver over a two-entity cty.dat excerpt (United States and Japan):
/// the longest listed prefix that starts the call decides.
struct MiniCty;

impl Resolver for MiniCty {
    fn resolve(&self, call: &Callsign) -> Option<Resolution> {
        let us = ["K", "W", "N", "AA", "AB", "AC", "AD", "AE", "AF", "AG", "AH", "AI", "AJ", "AK", "AL"];
        let ja = ["JA", "JE", "JF", "JG", "JH", "JI", "JJ", "JK", "JL", "JM", "JN", "JO", "JP", "JQ", "JR", "JS"];
        let text = call.as_str();
        let mut best: Option<CtyMatch> = None;
        let mut best_len = 0;
        for (list, continent, cq, itu) in [(&us[..], "NA", 5u8, 8u8), (&ja[..], "AS", 25u8, 45u8)] {
            for p in list {
                if text.starts_with(p) && p.len() > best_len {
                    best_len = p.len();
                    best = Some(CtyMatch {
                        dxcc: p.to_string(),
                        continent: continent.to_string(),
                        cq_zone: Some(cq),
                        itu_zone: Some(itu),
                    });
                }
            }
        }
        resolution_from_match(best)
    }
}

#[test]
fn resolver_enriches_dxcc_fields_on_create() {
    let svc = LogbookService::with_resolver(MiniCty);
    let mut c = CreateQsoCommand::minimal(Callsign::parse("W1AW").unwrap(), at(18, 30));
    c.band = Some(Band::M20);
    c.freq_hz = Some(14_074_000);
    c.mode = Some(Mode::FT8);
    let (q, fields) = svc.build_qso_from_command(c);
    assert_eq!(q.dxcc_prefix.as_deref(), Some("W"));
    assert_eq!(q.continent.as_deref(), Some("NA"));
    assert_eq!(q.cq_zone, Some(5));
    assert_eq!(q.dxcc_id, Some(291));
    assert!(fields.is_empty());
}

#[test]
fn command_fields_win_over_resolver() {
    let svc = LogbookService::with_resolver(MiniCty);
    let mut c = cmd("W1AW", 18, 30, Band::M20, Mode::FT8);
    c.cq_zone = Some(4);
    let (q, _) = svc.build_qso_from_command(c);
    assert_eq!(q.cq_zone, Some(4));
    assert_eq!(q.itu_zone, Some(8));
    assert_eq!(q.dxcc_id, Some(291));
}

#[test]
fn unknown_call_skipped_by_resolver() {
    let svc = LogbookService::with_resolver(MiniCty);
    let mut c = CreateQsoCommand::minimal(Callsign::parse("ZZ9ZZZ").unwrap(), at(18, 30));
    c.band = Some(Band::M20);
    let (q, _) = svc.build_qso_from_command(c);
    assert!(q.dxcc_prefix.is_none());
    assert!(q.continent.is_none());
    assert_eq!(q.dxcc_id, None);
}

#[test]
fn edit_keeps_id_and_creation_time() {
    let svc = LogbookService::<NoOpResolver>::new();
    let (q, _) = svc.build_qso_from_command(cmd("W1AW", 18, 30, Band::M20, Mode::FT8));
    let edited = svc.edit_qso(&q, cmd("W1AW", 18, 30, Band::M40, Mode::CW));
    assert_eq!(edited.id, q.id);
    assert_eq!(edited.created_at, q.created_at);
    assert_eq!(edited.band, Some(Band::M40));
    assert_eq!(edited.mode, Some(Mode::CW));
}

#[test]
fn bulk_report_counts_successes() {
    let r = BulkReport::from_outcomes(&vec![
        Ok(()),
        Err(RepositoryError::NotFound),
        Ok(()),
    ]);
    assert_eq!(r, BulkReport { matched: 3, succeeded: 2 });
    assert_eq!(BulkReport::from_outcomes(&vec![]), BulkReport { matched: 0, succeeded: 0 });
}

#[test]
fn finish_import_reports_storage_failure() {
    let ok = finish_import(3, 1, Ok(()));
    assert_eq!((ok.created, ok.duplicates, ok.skipped), (3, 1, 0));
    assert!(ok.errors.is_empty());
    let failed = finish_import(3, 1, Err(RepositoryError::Storage("locked".into())));
    assert_eq!((failed.created, failed.duplicates, failed.skipped), (0, 1, 3));
    assert_eq!(failed.errors.len(), 1);
    assert!(failed.errors[0].starts_with("batch insert failed: "));
}

#[test]
fn lotw_sent_y_emits_uploaded_with_date() {
    let states = extract_service_states(
        QsoId::new(),
        &vec![field("LOTW_QSL_SENT", "Y"), field("LOTW_QSLSDATE", "20240101")],
    );
    assert_eq!(states.len(), 1);
    assert_eq!(states[0].service, "lotw");
    assert_eq!(states[0].upload_state, Some("uploaded"));
    assert!(states[0].uploaded_at.is_some());
    assert_eq!(states[0].confirmation_state, None);
}

#[test]
fn lotw_sent_v_emits_verified() {
    let states = extract_service_states(
        QsoId::new(),
        &vec![field("LOTW_QSL_SENT", "V"), field("LOTW_QSLSDATE", "20240101")],
    );
    assert_eq!(states[0].upload_state, Some("verified"));
}

#[test]
fn lotw_dxkeeper_verified_promotes_to_verified() {
    let states = extract_service_states(
        QsoId::new(),
        &vec![
            field("LOTW_QSL_SENT", "Y"),
            field("APP_DXKEEPER_LOTW_VERIFIED", "V"),
            field("LOTW_QSLSDATE", "20240101"),
        ],
    );
    assert_eq!(states[0].upload_state, Some("verified"));
}

#[test]
fn lotw_rcvd_v_emits_confirmed_with_date() {
    let states = extract_service_states(
        QsoId::new(),
        &vec![field("LOTW_QSL_RCVD", "V"), field("LOTW_QSLRDATE", "20240115")],
    );
    assert_eq!(states.len(), 1);
    assert_eq!(states[0].confirmation_state, Some("confirmed"));
    let d = states[0].confirmed_at.unwrap();
    assert_eq!((d.year, d.month, d.day, d.hour), (2024, 1, 15, 0));
}

#[test]
fn lotw_no_signal_emits_nothing() {
    let states = extract_service_states(
        QsoId::new(),
        &vec![field("LOTW_QSL_SENT", "N"), field("LOTW_QSL_RCVD", "N")],
    );
    assert!(states.iter().all(|s| s.service != "lotw"));
}

#[test]
fn eqsl_sent_and_rcvd_emit_one_combined_row() {
    let states = extract_service_states(
        QsoId::new(),
        &vec![
            field("EQSL_QSL_SENT", "Y"),
            field("EQSL_QSL_RCVD", "Y"),
            field("EQSL_QSLSDATE", "20240101"),
            field("EQSL_QSLRDATE", "20240105"),
        ],
    );
    let eqsl: Vec<_> = states.iter().filter(|s| s.service == "eqsl").collect();
    assert_eq!(eqsl.len(), 1);
    assert_eq!(eqsl[0].upload_state, Some("uploaded"));
    assert_eq!(eqsl[0].confirmation_state, Some("confirmed"));
}

#[test]
fn clublog_m_emits_no_row() {
    let states =
        extract_service_states(QsoId::new(), &vec![field("CLUBLOG_QSO_UPLOAD_STATUS", "M")]);
    assert!(states.iter().all(|s| s.service != "clublog"));
}

#[test]
fn clublog_y_emits_uploaded_no_date() {
    let states =
        extract_service_states(QsoId::new(), &vec![field("CLUBLOG_QSO_UPLOAD_STATUS", "Y")]);
    let clublog: Vec<_> = states.iter().filter(|s| s.service == "clublog").collect();
    assert_eq!(clublog.len(), 1);
    assert_eq!(clublog[0].upload_state, Some("uploaded"));
    assert!(clublog[0].uploaded_at.is_none());
}

#[test]
fn qrz_upload_and_download_emit_one_row() {
    let states = extract_service_states(
        QsoId::new(),
        &vec![
            field("QRZCOM_QSO_UPLOAD_STATUS", "Y"),
            field("QRZCOM_QSO_UPLOAD_DATE", "20240506"),
            field("QRZCOM_QSO_DOWNLOAD_STATUS", "Y"),
            field("QRZCOM_QSO_DOWNLOAD_DATE", "20240507"),
        ],
    );
    let qrz: Vec<_> = states.iter().filter(|s| s.service == "qrz").collect();
    assert_eq!(qrz.len(), 1);
    assert_eq!(qrz[0].upload_state, Some("uploaded"));
    assert_eq!(qrz[0].confirmation_state, Some("confirmed"));
    assert!(qrz[0].uploaded_at.is_some());
    assert!(qrz[0].confirmed_at.is_some());
}

#[test]
fn hrdlog_y_emits_row() {
    let states = extract_service_states(
        QsoId::new(),
        &vec![field("HRDLOG_QSO_UPLOAD_STATUS", "Y"), field("HRDLOG_QSO_UPLOAD_DATE", "20240301")],
    );
    let hrd: Vec<_> = states.iter().filter(|s| s.service == "hrdlog").collect();
    assert_eq!(hrd.len(), 1);
    assert_eq!(hrd[0].upload_state, Some("uploaded"));
    assert!(hrd[0].uploaded_at.is_some());
}

#[test]
fn empty_fields_emit_empty_vec() {
    let states = extract_service_states(QsoId::new(), &vec![]);
    assert!(states.is_empty());
}

#[test]
fn field_name_case_insensitive() {
    let states = extract_service_states(
        QsoId::new(),
        &vec![field("lotw_qsl_sent", "Y"), field("lotw_qslsdate", "20240101")],
    );
    assert_eq!(states[0].upload_state, Some("uploaded"));
}

#[test]
fn import_summary_keeps_the_first_three_errors() {
    let report = ImportReport {
        created: 0,
        duplicates: 2,
        skipped: 5,
        errors: vec!["a".to_string(), "b".to_string(), "c".to_string(), "d".to_string()],
    };
    let s = import_summary(&report, 7);
    assert_eq!((s.created, s.skipped, s.parse_errors), (0, 5, 7));
    assert_eq!(s.first_errors, vec!["a".to_string(), "b".to_string(), "c".to_string()]);
    let short = ImportReport { created: 4, duplicates: 0, skipped: 0, errors: vec!["x".to_string()] };
    let s2 = import_summary(&short, 0);
    assert_eq!(s2.created, 4);
    assert_eq!(s2.first_errors, vec!["x".to_string()]);
}
