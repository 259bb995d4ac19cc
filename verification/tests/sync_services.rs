use slogger::clublog;
use slogger::eqsl::fetch::parse_inbox_adif;
use slogger::eqsl::upload as eqsl_upload;
use slogger::hrdlog;
use slogger::lotw::fetch::parse_report_adif;
use slogger::lotw::upload as lotw_upload;
use slogger::qrz;

const TWO_RECORD_ADIF: &str = "<ADIF_VER:5>3.1.4<EOH>\n\
    <CALL:4>W1AW<QSO_DATE:8>20260508<TIME_ON:6>183045<BAND:3>20M<MODE:3>FT8<EOR>\n\
    <CALL:6>JA1NUT<QSO_DATE:8>20260508<TIME_ON:4>1900<BAND:3>40M<MODE:2>CW<EOR>\n";

#[test]
fn split_records_drops_header_keeps_eor() {
    let recs = qrz::split_records(TWO_RECORD_ADIF);
    assert_eq!(recs.len(), 2);
    for r in &recs {
        assert!(r.to_ascii_lowercase().ends_with("<eor>"));
        assert!(!r.to_ascii_lowercase().contains("<adif_ver"));
    }
}

#[test]
fn split_records_without_header_and_trailing_text() {
    let recs = qrz::split_records("<CALL:4>W1AW<eor> trailing");
    assert_eq!(recs.len(), 1);
    assert_eq!(recs[0], "<CALL:4>W1AW<eor>");
    assert!(qrz::split_records("<EOH>\n").is_empty());
}

#[test]
fn qrz_ok_and_replace_are_taken() {
    assert!(qrz::classify("RESULT=OK&LOGID=1").is_ok());
    assert!(qrz::classify("result=replace&LOGID=2").is_ok());
    assert!(matches!(qrz::classify("RESULT=FAIL&REASON=dup"), Err(qrz::UploadError::Rejected(_))));
}

#[test]
fn qrz_http_failure_keeps_status() {
    match qrz::record_response(false, "500 Internal Server Error", "boom") {
        Err(qrz::UploadError::Http(s)) => assert_eq!(s, "status 500 Internal Server Error: boom"),
        _ => panic!("expected an http error"),
    }
}

#[test]
fn qrz_outcome_counts_each_record() {
    let mut outcome = qrz::UploadOutcome { accepted: 0, rejected: 0, errors: Vec::new() };
    assert!(qrz::record_result(&mut outcome, qrz::classify("RESULT=OK")).is_none());
    assert!(qrz::record_result(&mut outcome, qrz::classify("RESULT=REPLACE")).is_none());
    assert!(qrz::record_result(&mut outcome, qrz::classify("RESULT=FAIL")).is_none());
    assert_eq!(outcome.accepted, 2);
    assert_eq!(outcome.rejected, 1);
    assert_eq!(outcome.errors, vec!["RESULT=FAIL".to_string()]);
    let stop = qrz::record_result(&mut outcome, Err(qrz::UploadError::Http("x".into())));
    assert!(matches!(stop, Some(qrz::UploadError::Http(_))));
    assert_eq!(outcome.accepted, 2);
}

#[test]
fn qrz_insert_body_is_form_encoded() {
    assert_eq!(
        qrz::insert_body("AB-12", "<CALL:4>W1AW<EOR>"),
        "KEY=AB-12&ACTION=INSERT&ADIF=%3CCALL%3A4%3EW1AW%3CEOR%3E"
    );
}

#[test]
fn clublog_ok_response_marks_accepted() {
    assert!(clublog::classify("OK").unwrap().accepted);
}

#[test]
fn clublog_fail_response_is_rejected() {
    let err = clublog::classify("FAIL: authentication failed").unwrap_err();
    assert!(matches!(err, clublog::UploadError::Rejected(_)));
}

#[test]
fn clublog_ambiguous_response_is_soft_success() {
    let outcome = clublog::classify("Thanks").unwrap();
    assert!(!outcome.accepted);
    assert_eq!(outcome.raw_body, "Thanks");
}

#[test]
fn clublog_http_error_and_form() {
    assert!(matches!(
        clublog::upload_response(false, "403 Forbidden", "no"),
        Err(clublog::UploadError::Http(_))
    ));
    let cfg = clublog::ClubLogConfig::new("user@example.com", "pw", "W1ABC");
    let fields = clublog::upload_form_fields(&cfg, "<EOR>");
    assert_eq!(fields.len(), 5);
    assert_eq!(fields[0], ("email".to_string(), "user@example.com".to_string()));
    assert_eq!(fields[4], ("adif".to_string(), "<EOR>".to_string()));
}

#[test]
fn hrdlog_ok_response_marks_accepted() {
    assert!(hrdlog::classify("OK").unwrap().accepted);
}

#[test]
fn hrdlog_error_response_is_rejected() {
    let err = hrdlog::classify("Error: invalid Code").unwrap_err();
    assert!(matches!(err, hrdlog::UploadError::Rejected(_)));
}

#[test]
fn hrdlog_ambiguous_response_is_soft_success() {
    assert!(!hrdlog::classify("Done.").unwrap().accepted);
    assert!(hrdlog::upload_response(true, "200 OK", "2 QSOs imported").unwrap().accepted);
}

#[test]
fn eqsl_ok_response_marks_accepted() {
    let outcome =
        eqsl_upload::classify("<html>Result: OK\n3 out of 3 QSO records added.</html>").unwrap();
    assert!(outcome.accepted);
}

#[test]
fn eqsl_error_response_is_rejected() {
    let err = eqsl_upload::classify("Result: Error\nAuthentication failed.").unwrap_err();
    assert!(matches!(err, eqsl_upload::UploadError::Rejected(_)));
}

#[test]
fn eqsl_ambiguous_response_is_soft_success() {
    assert!(!eqsl_upload::classify("OK").unwrap().accepted);
}

#[test]
fn post_tq8_accepts_ok_response() {
    let outcome =
        lotw_upload::tq8_response(true, "200 OK", "<html>Result: ok\nAccepted 5 QSOs</html>")
            .unwrap();
    assert!(outcome.accepted);
    assert!(outcome.raw_body.contains("Accepted"));
}

#[test]
fn post_tq8_treats_rejected_as_error() {
    let err = lotw_upload::tq8_response(true, "200 OK", "Result: Rejected — bad cert").unwrap_err();
    assert!(matches!(err, lotw_upload::UploadError::Rejected(_)));
}

#[test]
fn tqsl_exit_error_carries_status_and_stderr() {
    match lotw_upload::tqsl_exit_error(Some(7), b"bad location") {
        lotw_upload::UploadError::TqslExit { status, stderr } => {
            assert_eq!(status, 7);
            assert_eq!(stderr, "bad location");
        }
        _ => panic!("expected TqslExit"),
    }
    match lotw_upload::tqsl_exit_error(None, b"") {
        lotw_upload::UploadError::TqslExit { status, .. } => assert_eq!(status, -1),
        _ => panic!("expected TqslExit"),
    }
}

#[test]
fn tqsl_args_in_order() {
    let args = lotw_upload::tqsl_args("Home", Some("W1ABC"), "/tmp/in.adi", "/tmp/out.tq8");
    assert_eq!(args.first().map(String::as_str), Some("-d"));
    assert_eq!(args.last().map(String::as_str), Some("/tmp/in.adi"));
    assert!(args.iter().any(|a| a == "Home"));
    assert!(args.iter().any(|a| a == "W1ABC"));
    let without = lotw_upload::tqsl_args("Home", None, "/tmp/in.adi", "/tmp/out.tq8");
    assert_eq!(without.len() + 2, args.len());
}

const SAMPLE_REPORT: &str = "LoTW QSL Report\n\
    <PROGRAMID:4>LoTW<ADIF_VER:5>3.1.4<EOH>\n\
    <STATION_CALLSIGN:5>W1ABC<CALL:4>W1AW<QSO_DATE:8>20260508<TIME_ON:6>183045<BAND:3>20M<MODE:3>FT8<QSL_RCVD:1>Y<QSLRDATE:8>20260510<QSLRTIME:4>1200<EOR>\n\
    <STATION_CALLSIGN:5>W1ABC<CALL:6>JA1NUT<QSO_DATE:8>20260508<TIME_ON:4>1900<BAND:3>40M<MODE:2>CW<QSL_RCVD:1>Y<QSLRDATE:8>20260511<EOR>\n";

#[test]
fn parses_two_confirmation_records() {
    let recs = parse_report_adif(SAMPLE_REPORT).unwrap();
    assert_eq!(recs.len(), 2);
    let first = &recs[0];
    assert_eq!(first.station_callsign.as_deref(), Some("W1ABC"));
    assert_eq!(first.worked_callsign, "W1AW");
    assert_eq!(first.qso_date, "2026-05-08");
    assert_eq!(first.band.as_deref(), Some("20M"));
    assert_eq!(first.mode.as_deref(), Some("FT8"));
    assert!(first.qsl_rcvd);
    assert!(first.qsl_rdate.is_some());
    let d = first.qsl_rdate.unwrap();
    assert_eq!((d.year, d.month, d.day, d.hour, d.minute), (2026, 5, 10, 12, 0));
}

#[test]
fn handles_missing_optional_fields() {
    let body = "<ADIF_VER:5>3.1.4<EOH>\n<CALL:4>W1AW<QSO_DATE:8>20260508<EOR>\n";
    let recs = parse_report_adif(body).unwrap();
    assert_eq!(recs.len(), 1);
    assert_eq!(recs[0].worked_callsign, "W1AW");
    assert!(recs[0].qsl_rdate.is_none());
    assert!(!recs[0].qsl_rcvd);
}

#[test]
fn distinguishes_uploaded_from_confirmed() {
    let body = "<ADIF_VER:5>3.1.4<EOH>\n\
        <STATION_CALLSIGN:5>W1ABC<CALL:4>W1AW<QSO_DATE:8>20260508<BAND:3>20M<MODE:3>FT8<QSL_RCVD:1>Y<EOR>\n\
        <STATION_CALLSIGN:5>W1ABC<CALL:6>JA1NUT<QSO_DATE:8>20260508<BAND:3>40M<MODE:2>CW<QSL_RCVD:1>N<EOR>\n";
    let recs = parse_report_adif(body).unwrap();
    assert_eq!(recs.len(), 2);
    assert!(recs[0].qsl_rcvd);
    assert!(!recs[1].qsl_rcvd);
}

const SAMPLE_INBOX: &str = "eQSL.cc Inbox Download\n\
    <EOH>\n\
    <STATION_CALLSIGN:5>W1ABC<CALL:4>W1AW<QSO_DATE:8>20260508<BAND:3>20M<MODE:3>FT8<QSLRDATE:8>20260510<EOR>\n\
    <STATION_CALLSIGN:5>W1ABC<CALL:6>JA1NUT<QSO_DATE:8>20260508<BAND:3>40M<MODE:2>CW<EOR>\n";

#[test]
fn parses_two_inbox_records() {
    let recs = parse_inbox_adif(SAMPLE_INBOX).unwrap();
    assert_eq!(recs.len(), 2);
    assert_eq!(recs[0].station_callsign.as_deref(), Some("W1ABC"));
    assert_eq!(recs[0].worked_callsign, "W1AW");
    assert_eq!(recs[0].qso_date, "2026-05-08");
    assert_eq!(recs[0].qsl_rdate.as_deref(), Some("2026-05-10"));
    assert!(recs[1].qsl_rdate.is_none());
}
