use slogger::adif::AdifField;
use slogger::adif_report::{field_upper, field_value, format_iso_date, parse_qslrdate};
use slogger::awards::snapshot;
use slogger::config::StationConfig;
use slogger::datetime::{parse_adif_date, parse_adif_datetime, parse_adif_midnight, parse_adif_time, UtcDateTime};
use slogger::freq::parse_freq_mhz;
use slogger::ids::QsoId;
use slogger::queries::{QsoSearch, SortOrder};
use slogger::repository::{AwardQso, ConfirmationState, UploadState};
use slogger::ui::{
    awards_pane, band_filter_options, bands, build_logbook_search, default_freq_for_band,
    mode_filter_options, modes, option_from_str, parse_mhz_to_hz, station_call_from_config,
    AwardKind, BandFilter, LotwFilter, ModeFilter, SearchForm, TargetUnit,
};
use slogger::value::{Band, Callsign, Mode};

fn at(year: i32, month: u8, day: u8, hour: u8, minute: u8, second: u8) -> UtcDateTime {
    UtcDateTime { year, month, day, hour, minute, second }
}

#[test]
fn mhz_text_parses_to_hz() {
    assert_eq!(parse_freq_mhz("14.074"), Some(14_074_000));
    assert_eq!(parse_freq_mhz(" 7.0745 "), Some(7_074_500));
    assert_eq!(parse_freq_mhz("14"), Some(14_000_000));
    assert_eq!(parse_freq_mhz("0"), None);
    assert_eq!(parse_freq_mhz("-14.074"), None);
    assert_eq!(parse_freq_mhz("abc"), None);
    assert_eq!(parse_freq_mhz(""), None);
    assert_eq!(parse_mhz_to_hz("21.074"), Some(21_074_000));
}

#[test]
fn mhz_text_with_exponent_parses_to_hz() {
    assert_eq!(parse_mhz_to_hz("1.4074e1"), Some(14_074_000));
    assert_eq!(parse_freq_mhz("14074E-3"), Some(14_074_000));
    assert_eq!(parse_freq_mhz("1.5e+2"), Some(150_000_000));
    assert_eq!(parse_freq_mhz(".5e1"), Some(5_000_000));
    assert_eq!(parse_freq_mhz("1e-7"), Some(0));
    assert_eq!(parse_freq_mhz("1e400"), Some(i64::MAX));
    assert_eq!(parse_freq_mhz("1e99999999999999999999999999999"), Some(i64::MAX));
    assert_eq!(parse_freq_mhz("0e5"), None);
    assert_eq!(parse_freq_mhz("-1e3"), None);
    assert_eq!(parse_freq_mhz("1e"), None);
    assert_eq!(parse_freq_mhz("e5"), None);
    assert_eq!(parse_freq_mhz("1e5.0"), None);
    assert_eq!(parse_freq_mhz("14.0745"), Some(14_074_500));
    assert_eq!(parse_freq_mhz("14.07400049"), Some(14_074_000));
    assert_eq!(parse_freq_mhz("inf"), Some(i64::MAX));
}

#[test]
fn optional_text_and_band_defaults() {
    assert_eq!(option_from_str("  x "), Some("x".to_string()));
    assert_eq!(option_from_str("   "), None);
    assert_eq!(default_freq_for_band(Band::M20), Some(14_200_000));
    assert_eq!(default_freq_for_band(Band::M2200), None);
    let cfg = StationConfig { default_callsign: Some("w1abc".into()) };
    assert_eq!(station_call_from_config(&cfg).unwrap().as_str(), "W1ABC");
    let bad = StationConfig { default_callsign: Some("W1 ABC".into()) };
    assert!(station_call_from_config(&bad).is_none());
    assert!(station_call_from_config(&StationConfig { default_callsign: None }).is_none());
}

#[test]
fn pickers_offer_fixed_lists() {
    let b = bands();
    assert!(b.contains(&Band::M20));
    for band in &b {
        assert!(default_freq_for_band(*band).is_some());
    }
    assert!(modes().contains(&Mode::FT8));
    let bf = band_filter_options();
    assert_eq!(bf[0], BandFilter(None));
    assert_eq!(bf.len(), b.len() + 1);
    let mf = mode_filter_options();
    assert!(mf[0].0.is_none());
    assert_eq!(mf.len(), modes().len() + 1);
}

#[test]
fn logbook_search_from_form() {
    let form = SearchForm {
        call_prefix: " ja ".into(),
        exact_call: " w1aw ".into(),
        band: BandFilter(Some(Band::M20)),
        mode: ModeFilter(Some(Mode::CW)),
        lotw_filter: LotwFilter::Confirmed,
    };
    let s = build_logbook_search(&form);
    assert_eq!(s.call_prefix.as_deref(), Some("ja"));
    assert_eq!(s.exact_call.unwrap().as_str(), "W1AW");
    assert_eq!(s.band, Some(Band::M20));
    assert_eq!(s.mode, Some(Mode::CW));
    assert_eq!(s.lotw_confirmed, Some(true));
    assert_eq!(s.limit, Some(500));
    assert_eq!(s.sort, SortOrder::QsoBeginDesc);
    let d = QsoSearch::default();
    assert_eq!(d.sort, SortOrder::QsoBeginDesc);
    assert!(d.limit.is_none());
    assert_eq!(SortOrder::QsoBeginAsc.sql_clause(), "q.qso_begin ASC");
}

#[test]
fn awards_pane_lists_units_and_target() {
    let mk = |call: &str, id: u16, confirmed: bool| AwardQso {
        id: QsoId::new(),
        call: Callsign::parse(call).unwrap(),
        qso_begin: at(2026, 5, 8, 10, 0, 0),
        band: Some(Band::M20),
        mode: Some(Mode::FT8),
        dxcc_id: Some(id),
        dxcc_prefix: None,
        continent: None,
        state: None,
        iota: None,
        lotw_confirmed: confirmed,
    };
    let snap = snapshot(&[mk("W1AW", 291, true), mk("JA1X", 339, false)], 2026);
    let target = Some(TargetUnit { kind: AwardKind::Dxcc, key: "339".into() });
    let pane = awards_pane(&snap, AwardKind::Dxcc, Some(Band::M20), &target);
    assert_eq!(pane.totals_line, "DXCC: 2 worked, 1 confirmed · 20M band: 2/1");
    assert!(pane.band_filter_shown);
    assert_eq!(pane.target_line, "Watching DXCC 339 in Spots");
    assert_eq!(pane.rows.len(), 2);
    assert_eq!(pane.rows[0].label, "291     1      yes");
    assert!(!pane.rows[0].is_target);
    assert!(pane.rows[1].is_target);
    let pane = awards_pane(&snap, AwardKind::Dxcc, Some(Band::M40), &None);
    assert_eq!(pane.totals_line, "DXCC: 2 worked, 1 confirmed · 40M band: 0/0");
    assert!(pane.rows.is_empty());
    assert_eq!(pane.target_line, "Click a unit below to highlight matching spots.");
}

#[test]
fn adif_dates_and_times() {
    assert_eq!(parse_adif_date("20260508"), Some((2026, 5, 8)));
    assert_eq!(parse_adif_date("20261308"), None);
    assert_eq!(parse_adif_time("1900"), Some((19, 0, 0)));
    assert_eq!(parse_adif_time("183045"), Some((18, 30, 45)));
    assert_eq!(parse_adif_time("18304"), None);
    assert_eq!(parse_adif_datetime("20260508", "1900"), Some(at(2026, 5, 8, 19, 0, 0)));
    assert_eq!(parse_adif_midnight("20240115"), Some(at(2024, 1, 15, 0, 0, 0)));
    let t = at(2026, 5, 8, 9, 5, 7);
    assert_eq!(t.date_compact(), "20260508");
    assert_eq!(t.date_dashed(), "2026-05-08");
    assert_eq!(t.time_compact(), "090507");
    assert!(t.same_date(&at(2026, 5, 8, 23, 0, 0)));
}

#[test]
fn report_field_helpers() {
    let rec = vec![
        AdifField { name: "CALL".into(), value: "w1aw".into() },
        AdifField { name: "BAND".into(), value: "20m".into() },
    ];
    assert_eq!(field_value(&rec, "CALL").as_deref(), Some("w1aw"));
    assert_eq!(field_upper(&rec, "BAND").as_deref(), Some("20M"));
    assert_eq!(field_value(&rec, "MODE"), None);
    assert_eq!(format_iso_date("20260508"), "2026-05-08");
    assert_eq!(format_iso_date(" 2026 "), "2026");
    assert_eq!(parse_qslrdate("20260510", Some("1200")), Some(at(2026, 5, 10, 12, 0, 0)));
    assert_eq!(parse_qslrdate("20260510", Some("120030")), Some(at(2026, 5, 10, 12, 0, 30)));
    assert_eq!(parse_qslrdate("20260510", Some("12")), Some(at(2026, 5, 10, 0, 0, 0)));
    assert_eq!(parse_qslrdate("2026x0510", None), None);
}

#[test]
fn storage_texts_of_states() {
    assert_eq!(UploadState::Pending.as_storage_str(), "pending");
    assert_eq!(UploadState::Verified.as_storage_str(), "verified");
    assert_eq!(ConfirmationState::Mismatch.as_storage_str(), "mismatch");
}
