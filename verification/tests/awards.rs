use slogger::awards::{
    dxcc_by_band, dxcc_progress, iota_progress, marathon_progress, snapshot, was_progress,
    wpx_progress, AwardProgress,
};
use slogger::datetime::UtcDateTime;
use slogger::ids::QsoId;
use slogger::repository::AwardQso;
use slogger::ui::{awards_readout, search_count_label};
use slogger::value::{Band, Callsign, Mode};

fn at(year: i32, month: u8, day: u8, hour: u8, minute: u8) -> UtcDateTime {
    UtcDateTime { year, month, day, hour, minute, second: 0 }
}

fn aq(
    call: &str,
    dxcc_id: Option<u16>,
    state: Option<&str>,
    iota: Option<&str>,
    confirmed: bool,
) -> AwardQso {
    AwardQso {
        id: QsoId::new(),
        call: Callsign::parse(call).unwrap(),
        qso_begin: at(2026, 5, 8, 18, 0),
        band: Some(Band::M20),
        mode: Some(Mode::FT8),
        dxcc_id,
        dxcc_prefix: None,
        continent: None,
        state: state.map(String::from),
        iota: iota.map(String::from),
        lotw_confirmed: confirmed,
    }
}

fn on_band(by_band: &[(Band, AwardProgress)], band: Band) -> &AwardProgress {
    &by_band.iter().find(|(b, _)| *b == band).unwrap().1
}

#[test]
fn dxcc_counts_distinct_entities() {
    let qsos = vec![
        aq("W1AW", Some(291), None, None, true),
        aq("W2A", Some(291), None, None, false),
        aq("VE3X", Some(1), None, None, false),
        aq("JA1", Some(339), None, None, true),
        aq("ZZ1", None, None, None, false),
    ];
    let p = dxcc_progress(&qsos);
    assert_eq!(p.worked, 3);
    assert_eq!(p.confirmed, 2);
}

#[test]
fn dxcc_units_are_sorted_and_carry_confirmation() {
    let qsos = vec![
        aq("W1AW", Some(291), None, None, false),
        aq("W2A", Some(291), None, None, true),
        aq("VE3X", Some(1), None, None, false),
    ];
    let p = dxcc_progress(&qsos);
    let keys: Vec<&str> = p.units.iter().map(|u| u.key.as_str()).collect();
    assert_eq!(keys, vec!["1", "291"]);
    assert!(!p.units[0].confirmed);
    assert!(p.units[1].confirmed);
}

#[test]
fn was_filters_to_usa_only() {
    let qsos = vec![
        aq("W1AW", Some(291), Some("CT"), None, true),
        aq("K2A", Some(291), Some("NY"), None, false),
        aq("VE3X", Some(1), Some("ON"), None, false),
        aq("W3X", Some(291), Some("CT"), None, false),
    ];
    let p = was_progress(&qsos);
    assert_eq!(p.worked, 2);
    assert_eq!(p.confirmed, 1);
}

#[test]
fn wpx_counts_distinct_prefixes() {
    let qsos = vec![
        aq("W1AW", Some(291), None, None, true),
        aq("W1XYZ", Some(291), None, None, false),
        aq("K2A", Some(291), None, None, false),
        aq("VE3XYZ", Some(1), None, None, true),
        aq("9V1A", Some(381), None, None, false),
    ];
    let p = wpx_progress(&qsos);
    assert_eq!(p.worked, 4);
    assert_eq!(p.confirmed, 2);
}

#[test]
fn iota_counts_present_only() {
    let qsos = vec![
        aq("W1AW", Some(291), None, Some("NA-001"), true),
        aq("VE3X", Some(1), None, None, false),
        aq("EA8X", Some(29), None, Some("AF-004"), false),
    ];
    let p = iota_progress(&qsos);
    assert_eq!(p.worked, 2);
}

#[test]
fn marathon_filters_by_year() {
    let mut qsos = vec![
        aq("W1AW", Some(291), None, None, true),
        aq("VE3X", Some(1), None, None, false),
        aq("JA1", Some(339), None, None, true),
    ];
    qsos[0].qso_begin = at(2025, 12, 31, 23, 59);
    let m = marathon_progress(&qsos, 2026);
    assert_eq!(m.year, 2026);
    assert_eq!(m.qso_count, 2);
    assert_eq!(m.entities.worked, 2);
}

#[test]
fn snapshot_runs_all_five() {
    let qsos = vec![
        aq("W1AW", Some(291), Some("CT"), None, true),
        aq("VE3X", Some(1), None, None, false),
        aq("JA1", Some(339), None, Some("AS-007"), true),
    ];
    let snap = snapshot(&qsos, 2026);
    assert_eq!(snap.total_qsos, 3);
    assert_eq!(snap.dxcc.worked, 3);
    assert_eq!(snap.dxcc.confirmed, 2);
    assert_eq!(snap.was.worked, 1);
    assert_eq!(snap.iota.worked, 1);
    assert!(snap.wpx.worked >= 3);
    assert_eq!(snap.marathon.entities.worked, 3);
}

#[test]
fn dxcc_by_band_splits_correctly() {
    let mut qsos = vec![
        aq("W1AW", Some(291), None, None, true),
        aq("VE3X", Some(1), None, None, false),
        aq("JA1", Some(339), None, None, true),
    ];
    qsos[2].band = Some(Band::M40);
    let snap = snapshot(&qsos, 2026);
    assert_eq!(snap.dxcc_by_band.len(), 2);
    assert_eq!(on_band(&snap.dxcc_by_band, Band::M20).worked, 2);
    assert_eq!(on_band(&snap.dxcc_by_band, Band::M20).confirmed, 1);
    assert_eq!(on_band(&snap.dxcc_by_band, Band::M40).worked, 1);
    assert_eq!(on_band(&snap.dxcc_by_band, Band::M40).confirmed, 1);
}

#[test]
fn dxcc_by_band_lists_bands_in_order_and_skips_bandless() {
    let mut qsos = vec![
        aq("W1AW", Some(291), None, None, false),
        aq("VE3X", Some(1), None, None, false),
        aq("JA1", Some(339), None, None, false),
    ];
    qsos[0].band = Some(Band::M10);
    qsos[1].band = None;
    qsos[2].band = Some(Band::M160);
    let by_band = dxcc_by_band(&qsos);
    let bands: Vec<Band> = by_band.iter().map(|(b, _)| *b).collect();
    assert_eq!(bands, vec![Band::M160, Band::M10]);
}

#[test]
fn empty_log_has_no_progress() {
    let snap = snapshot(&[], 2026);
    assert_eq!(snap.total_qsos, 0);
    assert_eq!(snap.dxcc.worked, 0);
    assert!(snap.dxcc_by_band.is_empty());
    assert_eq!(snap.marathon.qso_count, 0);
}

#[test]
fn confirmed_never_exceeds_worked_on_a_mixed_log() {
    let qsos = vec![
        aq("W1AW", Some(291), Some("CT"), Some("NA-001"), true),
        aq("W1AW", Some(291), Some("CT"), Some("NA-001"), true),
        aq("VE3X", Some(1), None, None, false),
    ];
    for p in [dxcc_progress(&qsos), was_progress(&qsos), wpx_progress(&qsos), iota_progress(&qsos)] {
        assert!(p.confirmed <= p.worked);
    }
}

#[test]
fn awards_readout_lines() {
    let mut on40 = aq("DL1ABC", Some(230), None, None, true);
    on40.band = Some(Band::M40);
    let qsos = vec![aq("W1AW", Some(291), Some("CT"), None, false), on40];
    let snap = snapshot(&qsos, 2026);
    let r = awards_readout(&snap);
    assert_eq!(
        r.summary,
        "Awards (2 qso) · DXCC 2/1 · WAS 1/0 · WPX 2/1 · IOTA 0/0 · Marathon2026 2"
    );
    let line = r.by_band.unwrap();
    assert!(line.starts_with("DXCC by band: "));
    assert!(line.contains("20M=1/0"));
    assert!(line.contains("40M=1/1"));
    let empty = awards_readout(&snapshot(&[], -5));
    assert_eq!(empty.summary, "Awards (0 qso) · DXCC 0/0 · WAS 0/0 · WPX 0/0 · IOTA 0/0 · Marathon-5 0");
    assert!(empty.by_band.is_none());
}

#[test]
fn search_count_labels() {
    assert_eq!(search_count_label(None, 0), "");
    assert_eq!(search_count_label(Some(3), 3), "3 matches");
    assert_eq!(search_count_label(Some(1200), 500), "1200 matches (showing 500)");
}
