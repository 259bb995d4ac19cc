use slogger::adif::{fast_parse_adi, find_byte, find_marker_end};
use slogger::datetime::UtcDateTime;
use slogger::export::{
    export_adif, export_adif_default, format_qso_timestamp, freq_mhz_string, qso_to_record, ExportOptions,
};
use slogger::ids::QsoId;
use slogger::import::parse_adif;
use slogger::qso::Qso;
use slogger::value::{Band, Callsign, Mode, PropagationMode};

fn at(year: i32, month: u8, day: u8, hour: u8, minute: u8, second: u8) -> UtcDateTime {
    UtcDateTime { year, month, day, hour, minute, second }
}

fn sample_qso() -> Qso {
    Qso {
        id: QsoId::new(),
        call: Callsign::parse("W1AW").unwrap(),
        qso_begin: at(2026, 5, 8, 18, 30, 45),
        qso_end: None,
        band: Some(Band::M20),
        freq_hz: Some(14_074_000),
        mode: Some(Mode::FT8),
        submode: None,
        rst_sent: Some("-12".into()),
        rst_rcvd: Some("-09".into()),
        operator_id: None,
        station_location_id: None,
        station_callsign: Some(Callsign::parse("K2A").unwrap()),
        owner_callsign: None,
        dxcc_id: Some(291),
        dxcc_prefix: Some("W".into()),
        continent: Some("NA".into()),
        cq_zone: Some(5),
        itu_zone: Some(8),
        grid: Some("FN31".into()),
        state: Some("CT".into()),
        county: None,
        province: None,
        iota: None,
        tx_power_w: Some("100".into()),
        rx_power_w: None,
        propagation_mode: None,
        sat_name: None,
        sat_mode: None,
        created_at: at(2026, 5, 8, 18, 31, 0),
        updated_at: at(2026, 5, 8, 18, 31, 0),
    }
}

#[test]
fn export_writes_header_and_record() {
    let adi = export_adif_default(&[sample_qso()]);
    assert!(adi.contains("PROGRAMID"));
    assert!(adi.contains("slogger"));
    assert!(adi.contains("<EOH>"));
    assert!(adi.contains("<CALL:4>W1AW"));
    assert!(adi.contains("<BAND:3>20M"));
    assert!(adi.contains("<MODE:3>FT8"));
    assert!(adi.contains("<EOR>"));
}

#[test]
fn round_trip_preserves_core_fields() {
    let original = sample_qso();
    let adi = export_adif_default(&[original.clone()]);
    let outcome = parse_adif(&adi).unwrap();
    assert_eq!(outcome.commands.len(), 1);
    let cmd = &outcome.commands[0];
    assert_eq!(cmd.call, original.call);
    assert_eq!(cmd.band, original.band);
    assert_eq!(cmd.freq_hz, original.freq_hz);
    assert_eq!(cmd.mode, original.mode);
    assert_eq!(cmd.rst_sent, original.rst_sent);
    assert_eq!(cmd.rst_rcvd, original.rst_rcvd);
    assert_eq!(cmd.dxcc_id, original.dxcc_id);
    assert_eq!(cmd.cq_zone, original.cq_zone);
    assert_eq!(cmd.itu_zone, original.itu_zone);
    assert_eq!(cmd.grid, original.grid);
    assert_eq!(cmd.state, original.state);
    assert_eq!(cmd.continent, original.continent);
    assert_eq!(cmd.qso_begin, original.qso_begin);
    assert_eq!(cmd.station_callsign, original.station_callsign);
}

#[test]
fn export_with_preamble_and_empty_log() {
    let opts = ExportOptions {
        program_id: "P".into(),
        program_version: "1".into(),
        adif_version: "3.1.4".into(),
        preamble: Some("hello".into()),
    };
    let adi = export_adif(&[], &opts);
    assert!(adi.starts_with("hello\n"));
    assert!(adi.contains("<PROGRAMID:1>P"));
    assert!(adi.ends_with("<EOH>\n"));
}

#[test]
fn freq_is_written_in_mhz_with_six_decimals() {
    assert_eq!(freq_mhz_string(14_074_000), "14.074000");
    assert_eq!(freq_mhz_string(7_000_500), "7.000500");
}

#[test]
fn timestamp_format_is_compact() {
    assert_eq!(format_qso_timestamp(&at(2026, 5, 8, 9, 5, 7)), "20260508 090507");
}

const SAMPLE_ADIF: &str = "Generated by test\n\
    <ADIF_VER:5>3.1.4<EOH>\n\
    <CALL:4>W1AW<QSO_DATE:8>20260508<TIME_ON:6>183045<BAND:3>20M<FREQ:8>14.07400<MODE:3>FT8<RST_SENT:3>-12<RST_RCVD:3>-09<DXCC:3>291<CQZ:1>5<ITUZ:1>8<CONT:2>NA<GRIDSQUARE:4>FN31<STATE:2>CT<MY_GRIDSQUARE:6>EM48ku<EOR>\n\
    <CALL:6>JA1NUT<QSO_DATE:8>20260508<TIME_ON:4>1900<BAND:3>40M<MODE:2>CW<RST_SENT:3>599<RST_RCVD:3>569<DXCC:3>339<CONT:2>AS<EOR>\n\
    <CALL:0><QSO_DATE:8>20260508<TIME_ON:4>1901<EOR>\n";

#[test]
fn parses_two_records_skips_one() {
    let outcome = parse_adif(SAMPLE_ADIF).unwrap();
    assert_eq!(outcome.commands.len(), 2);
    assert_eq!(outcome.skipped.len(), 1);

    let first = &outcome.commands[0];
    assert_eq!(first.call.as_str(), "W1AW");
    assert_eq!(first.band, Some(Band::M20));
    assert_eq!(first.freq_hz, Some(14_074_000));
    assert_eq!(first.mode, Some(Mode::FT8));
    assert_eq!(first.rst_sent.as_deref(), Some("-12"));
    assert_eq!(first.rst_rcvd.as_deref(), Some("-09"));
    assert_eq!(first.dxcc_id, Some(291));
    assert_eq!(first.cq_zone, Some(5));
    assert_eq!(first.itu_zone, Some(8));
    assert_eq!(first.continent.as_deref(), Some("NA"));
    assert_eq!(first.grid.as_deref(), Some("FN31"));
    assert_eq!(first.state.as_deref(), Some("CT"));
    let exch = &first.exchange_fields;
    assert!(exch.iter().any(|f| f.name == "MY_GRIDSQUARE" && f.raw_value == "EM48ku"));
}

#[test]
fn time_on_4_digit_form_handled() {
    let outcome = parse_adif(SAMPLE_ADIF).unwrap();
    let second = &outcome.commands[1];
    assert_eq!(second.qso_begin, at(2026, 5, 8, 19, 0, 0));
}

#[test]
fn missing_call_record_skipped_with_reason() {
    let outcome = parse_adif(SAMPLE_ADIF).unwrap();
    assert_eq!(outcome.skipped.len(), 1);
    assert_eq!(outcome.skipped[0].index, 2);
    assert!(
        outcome.skipped[0].reason.contains("missing CALL")
            || outcome.skipped[0].reason.contains("invalid CALL")
    );
}

#[test]
fn fast_parse_handles_50k_records_in_under_a_second() {
    const RECORDS: usize = 50_000;
    let mut s = String::with_capacity(RECORDS * 80);
    s.push_str("<ADIF_VER:5>3.1.4<EOH>\n");
    for i in 0..RECORDS {
        s.push_str(&format!(
            "<CALL:6>TEST{:02}<QSO_DATE:8>20260508<TIME_ON:6>183045<BAND:3>20M<MODE:3>FT8<RST_SENT:3>-12<RST_RCVD:3>-09<DXCC:3>291<EOR>\n",
            i % 100,
        ));
    }
    let start = std::time::Instant::now();
    let outcome = parse_adif(&s).unwrap();
    let elapsed = start.elapsed();
    assert_eq!(outcome.commands.len(), RECORDS);
    assert_eq!(outcome.skipped.len(), 0);
    assert!(elapsed.as_secs() < 2);
}

#[test]
fn bad_date_is_skipped_with_reason() {
    let outcome = parse_adif("<CALL:4>W1AW<QSO_DATE:8>20261340<TIME_ON:4>1200<EOR>").unwrap();
    assert_eq!(outcome.commands.len(), 0);
    assert_eq!(outcome.skipped.len(), 1);
}

#[test]
fn propagation_mode_is_read() {
    let outcome =
        parse_adif("<CALL:4>W1AW<QSO_DATE:8>20260508<TIME_ON:4>1200<PROP_MODE:3>SAT<EOR>").unwrap();
    assert_eq!(outcome.commands[0].propagation_mode, Some(PropagationMode::Satellite));
}

#[test]
fn fast_parse_splits_fields_and_records() {
    let recs = fast_parse_adi("<EOH><CALL:4>W1AW<band:3>20M<EOR><CALL:2>K1<EOR>");
    assert_eq!(recs.len(), 2);
    assert_eq!(recs[0].len(), 2);
    assert_eq!(recs[0][0].name, "CALL");
    assert_eq!(recs[0][0].value, "W1AW");
    assert_eq!(recs[0][1].name, "BAND");
    assert_eq!(recs[1][0].value, "K1");
}

#[test]
fn byte_search_helpers() {
    assert_eq!(find_byte(b"abc<d", 0, b'<'), Some(3));
    assert_eq!(find_byte(b"abc<d", 4, b'<'), None);
    assert_eq!(find_marker_end(b"xx<eoh>yy"), Some(7));
    assert_eq!(find_marker_end(b"xx<EoH>"), Some(7));
    assert_eq!(find_marker_end(b"xx"), None);
}

#[test]
fn exported_records_read_back_field_for_field() {
    let mut other = sample_qso();
    other.call = Callsign::parse("DL1ABC").unwrap();
    other.qso_end = Some(at(2026, 5, 9, 0, 5, 0));
    other.county = Some("Müritz <eor> ok".into());
    other.propagation_mode = Some(PropagationMode::Satellite);
    let qsos = vec![sample_qso(), other];
    let adi = export_adif_default(&qsos);
    let recs = fast_parse_adi(&adi);
    assert_eq!(recs.len(), 2);
    for (rec, q) in recs.iter().zip(qsos.iter()) {
        let got: Vec<(String, String)> = rec.iter().map(|f| (f.name.clone(), f.value.clone())).collect();
        let want: Vec<(String, String)> =
            qso_to_record(q).iter().map(|f| (f.name.clone(), f.value.clone())).collect();
        assert_eq!(got, want);
    }
}

fn pairs(recs: &[Vec<slogger::adif::AdifField>]) -> Vec<Vec<(String, String)>> {
    recs.iter().map(|r| r.iter().map(|f| (f.name.clone(), f.value.clone())).collect()).collect()
}

#[test]
fn eoh_inside_a_value_is_not_a_header_end() {
    let recs = fast_parse_adi("<CALL:4>W1AW<COMMENT:5><EOH><EOR>");
    assert_eq!(
        pairs(&recs),
        vec![vec![
            ("CALL".to_string(), "W1AW".to_string()),
            ("COMMENT".to_string(), "<EOH>".to_string())
        ]]
    );
}

#[test]
fn header_fields_before_eoh_are_dropped() {
    let recs = fast_parse_adi("preamble <ADIF_VER:5>3.1.4 <eoh>\n<call:4>K1AB<eor><CALL:2>DL<EOR><EOH><EOR>");
    assert_eq!(
        pairs(&recs),
        vec![
            vec![("CALL".to_string(), "K1AB".to_string())],
            vec![("CALL".to_string(), "DL".to_string())]
        ]
    );
}
