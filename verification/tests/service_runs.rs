use slogger::config::Config;
use slogger::datetime::UtcDateTime;
use slogger::entry::{dupe_badge, finish_dupe_check, start_dupe_check, DupeCheck, DupeMatch};
use slogger::ids::QsoId;
use slogger::import::QsoExchangeField;
use slogger::lotw::fetch::ConfirmationRecord;
use slogger::qsl_view::QslService;
use slogger::service_state::ImportedServiceState;
use slogger::storage::{exchange_field_from_row, exchange_field_row, service_state_row};
use slogger::summary::{FetchSummary, UploadSummary};
use slogger::sync::{
    clublog_update_summary, confirmed_at, eqsl_tally, eqsl_update_summary, hrdlog_update_summary,
    lotw_tally, lotw_update_summary, nothing_pending, plan_services, qrz_marks,
    qrz_update_summary, upload_done, RecordOutcome, eqsl_record_step, lotw_record_step, RecordStep,
    StepResult,
};
use slogger::value::{Band, FieldSource};

fn at(hour: u8) -> UtcDateTime {
    UtcDateTime { year: 2026, month: 5, day: 8, hour, minute: 0, second: 0 }
}

#[test]
fn services_planned_from_config() {
    let mut cfg = Config::default();
    let p = plan_services(&cfg);
    assert!(!p.lotw && !p.eqsl && !p.clublog && !p.qrz && !p.hrdlog);
    cfg.lotw.station_location = Some("Home".into());
    cfg.qrz.api_key = Some("KEY".into());
    let p = plan_services(&cfg);
    assert!(p.lotw && p.qrz && !p.eqsl);
}

#[test]
fn upload_notes_and_empty_queue() {
    let n = nothing_pending();
    assert_eq!((n.uploaded, n.note.as_str()), (0, "no pending QSOs"));
    assert_eq!(upload_done(QslService::Lotw, true, 4).note, "accepted by LotW");
    assert_eq!(
        upload_done(QslService::Eqsl, false, 4).note,
        "uploaded; eQSL response unclear — verify on eqsl.cc"
    );
    assert_eq!(upload_done(QslService::Hrdlog, true, 2).uploaded, 2);
}

#[test]
fn run_summaries_record_skips_and_errors() {
    let s = lotw_update_summary(None, Some(Err("timeout".into())));
    assert_eq!(s.upload_skipped_reason.as_deref(), Some("no [lotw].station_location"));
    assert_eq!(s.fetch_error.as_deref(), Some("timeout"));
    let s = lotw_update_summary(
        Some(Ok(UploadSummary { uploaded: 1, note: "x".into() })),
        None,
    );
    assert_eq!(s.upload.unwrap().uploaded, 1);
    assert_eq!(s.fetch_skipped_reason.as_deref(), Some("no [lotw].username/password"));
    let e = eqsl_update_summary(None);
    assert_eq!(e.fetch_skipped_reason.as_deref(), Some("missing [eqsl] username/password"));
    let e = eqsl_update_summary(Some((Err("down".into()), Ok((5, 2, 1)))));
    assert_eq!(e.upload_error.as_deref(), Some("down"));
    assert_eq!((e.fetched, e.confirmed, e.unmatched), (5, 2, 1));
    assert_eq!(
        clublog_update_summary(None).upload_skipped_reason.as_deref(),
        Some("missing [clublog] fields")
    );
    assert_eq!(
        hrdlog_update_summary(Some(Err("bad".into()))).upload_error.as_deref(),
        Some("bad")
    );
    let q = qrz_update_summary(Some(Ok(Some((
        3,
        4,
        vec!["a".into(), "b".into(), "c".into(), "d".into()],
    )))));
    assert_eq!((q.uploaded, q.rejected), (3, 4));
    assert_eq!(q.first_errors, vec!["a", "b", "c"]);
    assert_eq!(
        qrz_update_summary(None).upload_skipped_reason.as_deref(),
        Some("missing [qrz].api_key")
    );
}

#[test]
fn qrz_marks_follow_record_order() {
    let ids: Vec<QsoId> = (1..=5).map(QsoId::from_uuid).collect();
    let m = qrz_marks(&ids, 2, 2, &vec!["RESULT=FAIL".into()]);
    assert_eq!(m.uploaded, ids[0..2].to_vec());
    assert_eq!(m.failed, ids[2..4].to_vec());
    assert_eq!(m.reason, "RESULT=FAIL");
    let m = qrz_marks(&ids, 4, 9, &vec![]);
    assert_eq!(m.uploaded.len(), 4);
    assert_eq!(m.failed, ids[4..5].to_vec());
    assert_eq!(m.reason, "unknown error");
}

#[test]
fn report_tallies() {
    let t = FetchSummary { fetched: 3, verified: 0, confirmed: 0, unmatched: 0 };
    let t = lotw_tally(t, RecordOutcome::Marked { confirmed: true });
    let t = lotw_tally(t, RecordOutcome::Marked { confirmed: false });
    let t = lotw_tally(t, RecordOutcome::NoStation);
    assert_eq!((t.fetched, t.verified, t.confirmed, t.unmatched), (3, 2, 1, 1));
    assert_eq!(t.verified + t.unmatched, t.fetched);
    let e = eqsl_tally((2, 0, 0), RecordOutcome::MarkFailed);
    let e = eqsl_tally(e, RecordOutcome::Marked { confirmed: true });
    assert_eq!(e, (2, 1, 1));
}

#[test]
fn confirmation_date_falls_back_to_now() {
    let mut rec = ConfirmationRecord {
        station_callsign: Some("W1ABC".into()),
        worked_callsign: "W1AW".into(),
        qso_date: "2026-05-08".into(),
        band: None,
        mode: None,
        qsl_rcvd: true,
        qsl_rdate: Some(at(3)),
    };
    assert_eq!(confirmed_at(&rec, at(9)), at(3));
    rec.qsl_rdate = None;
    assert_eq!(confirmed_at(&rec, at(9)), at(9));
}

#[test]
fn dupe_checks_keep_only_the_latest_answer() {
    let mut c = DupeCheck { generation: u64::MAX, found: None };
    let (g, q) = start_dupe_check(&mut c, true, " w1aw ", Some(Band::M20)).unwrap();
    assert_eq!(g, 0);
    assert_eq!(q.exact_call.unwrap().as_str(), "W1AW");
    assert_eq!(q.band, Some(Band::M20));
    assert_eq!(q.limit, Some(1));
    assert!(start_dupe_check(&mut c, true, "W1AW!", None).is_none());
    assert!(start_dupe_check(&mut c, false, "W1AW", None).is_none());
    assert_eq!(c.generation, 2);
    let m = DupeMatch { qso_begin: at(10), band: None };
    finish_dupe_check(&mut c, 1, Some(m));
    assert!(c.found.is_none());
    finish_dupe_check(&mut c, 2, Some(m));
    assert!(c.found.is_some());
    assert_eq!(dupe_badge(&m), "DUP B4: 2026-05-08 (?)");
    assert_eq!(
        dupe_badge(&DupeMatch { qso_begin: at(10), band: Some(Band::M40) }),
        "DUP B4: 2026-05-08 (40M)"
    );
}

#[test]
fn service_state_and_exchange_rows() {
    let st = ImportedServiceState {
        qso_id: QsoId::from_uuid(1),
        service: "lotw",
        upload_state: Some("uploaded"),
        confirmation_state: None,
        uploaded_at: Some(at(1)),
        confirmed_at: None,
    };
    let row = service_state_row(&st);
    assert_eq!(row.qso_id, "00000000-0000-0000-0000-000000000001");
    assert_eq!(row.upload_state, "uploaded");
    assert_eq!(row.confirmation_state, "pending");
    assert_eq!(row.uploaded_at.as_deref(), Some("2026-05-08T01:00:00+00:00"));
    let f = QsoExchangeField {
        name: "MY_GRIDSQUARE".into(),
        raw_value: "EM48ku".into(),
        normalized_value: None,
        source: FieldSource::ServiceSync("lotw".into()),
    };
    let r = exchange_field_row(QsoId::from_uuid(2), &f);
    assert_eq!(r.source, "service_sync:lotw");
    let back = exchange_field_from_row(&r);
    assert_eq!(back.name, f.name);
    assert_eq!(back.source, f.source);
}

#[test]
fn lotw_record_steps() {
    let id = QsoId::from_uuid(5);
    let mut rec = ConfirmationRecord {
        station_callsign: Some("W1ABC".into()),
        worked_callsign: "W1AW".into(),
        qso_date: "2026-05-08".into(),
        band: None,
        mode: None,
        qsl_rcvd: true,
        qsl_rdate: Some(at(3)),
    };
    let now = at(9);
    assert_eq!(lotw_record_step(&rec, now, StepResult::Begin), RecordStep::FindMatch);
    assert_eq!(lotw_record_step(&rec, now, StepResult::Found(None)), RecordStep::Finish(RecordOutcome::NoMatch));
    assert_eq!(lotw_record_step(&rec, now, StepResult::Found(Some(id))), RecordStep::MarkVerified(id, now));
    assert_eq!(lotw_record_step(&rec, now, StepResult::Verified(id, true)), RecordStep::MarkConfirmed(id, at(3)));
    assert_eq!(
        lotw_record_step(&rec, now, StepResult::Verified(id, false)),
        RecordStep::Finish(RecordOutcome::MarkFailed)
    );
    assert_eq!(
        lotw_record_step(&rec, now, StepResult::Confirmed(false)),
        RecordStep::Finish(RecordOutcome::Marked { confirmed: false })
    );
    rec.qsl_rcvd = false;
    assert_eq!(
        lotw_record_step(&rec, now, StepResult::Verified(id, true)),
        RecordStep::Finish(RecordOutcome::Marked { confirmed: false })
    );
    rec.station_callsign = None;
    assert_eq!(lotw_record_step(&rec, now, StepResult::Begin), RecordStep::Finish(RecordOutcome::NoStation));
}

#[test]
fn eqsl_record_steps() {
    let id = QsoId::from_uuid(6);
    let now = at(9);
    assert_eq!(eqsl_record_step(false, now, StepResult::Begin), RecordStep::Finish(RecordOutcome::NoStation));
    assert_eq!(eqsl_record_step(true, now, StepResult::Begin), RecordStep::FindMatch);
    assert_eq!(eqsl_record_step(true, now, StepResult::Found(Some(id))), RecordStep::MarkConfirmed(id, now));
    assert_eq!(
        eqsl_record_step(true, now, StepResult::Confirmed(true)),
        RecordStep::Finish(RecordOutcome::Marked { confirmed: true })
    );
    assert_eq!(
        eqsl_record_step(true, now, StepResult::Confirmed(false)),
        RecordStep::Finish(RecordOutcome::MarkFailed)
    );
}
