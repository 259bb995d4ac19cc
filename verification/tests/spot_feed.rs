use slogger::awards::snapshot;
use slogger::datetime::{seconds_between, UtcDateTime};
use slogger::ids::QsoId;
use slogger::qso::{Resolution, Resolver};
use slogger::repository::AwardQso;
use slogger::spots::{
    annotate_spot, annotate_with, build_worked_by_band, dxmode_to_str, push_spot,
    relative_age_label, source_id, spot_ages, spots_pane, status_label, translate, withdraw_spots,
    ClusterSource, DxEvent, DxMode, Spot, SpotEvent, SpotFeedConfig, SpotKind, SpotStatus,
    WorkedByBand,
};
use slogger::ui::SPOT_HISTORY_LIMIT;
use slogger::value::{Band, Callsign, Mode};

fn at(hour: u8, minute: u8, second: u8) -> UtcDateTime {
    UtcDateTime { year: 2026, month: 5, day: 8, hour, minute, second }
}

fn spot(call: &str, freq_hz: u64) -> Spot {
    Spot { call: call.to_string(), freq_hz, mode: None, comment: None, spotted_at: at(12, 0, 0) }
}

struct StubResolver;

impl Resolver for StubResolver {
    fn resolve(&self, call: &Callsign) -> Option<Resolution> {
        if call.as_str().starts_with('W') {
            Some(Resolution {
                dxcc_id: Some(291),
                dxcc_prefix: Some("K".into()),
                country: None,
                continent: Some("NA".into()),
                cq_zone: Some(5),
                itu_zone: Some(8),
            })
        } else {
            None
        }
    }
}

fn worked_291_on_20m() -> WorkedByBand {
    vec![(Band::M20, vec![291u16])]
}

#[test]
fn config_carries_sources() {
    let cfg = SpotFeedConfig {
        my_callsign: "W1ABC".into(),
        sources: vec![
            ClusterSource { host: "dxc.kbx.org".into(), port: 7300 },
            ClusterSource { host: "n1nr.org".into(), port: 7300 },
        ],
        filter_path: None,
    };
    assert_eq!(cfg.sources.len(), 2);
    assert_eq!(cfg.my_callsign, "W1ABC");
}

#[test]
fn worked_entity_on_same_band_is_marked_worked() {
    let status = annotate_spot(&spot("W1AW", 14_074_000), &StubResolver, &worked_291_on_20m());
    assert_eq!(status, SpotStatus::Worked);
}

#[test]
fn worked_entity_on_different_band_is_marked_needed() {
    let status = annotate_spot(&spot("W1AW", 7_074_000), &StubResolver, &worked_291_on_20m());
    assert_eq!(status, SpotStatus::NeededBand);
}

#[test]
fn unknown_callsign_is_unknown_not_needed() {
    let status = annotate_spot(&spot("ZZ9ZZZ", 14_074_000), &StubResolver, &Vec::new());
    assert_eq!(status, SpotStatus::Unknown);
}

#[test]
fn out_of_band_freq_is_unknown() {
    let status = annotate_spot(&spot("W1AW", 42_000_000), &StubResolver, &Vec::new());
    assert_eq!(status, SpotStatus::Unknown);
}

#[test]
fn unparsable_call_is_unknown() {
    let status = annotate_spot(&spot("W1AW-2!", 14_074_000), &StubResolver, &worked_291_on_20m());
    assert_eq!(status, SpotStatus::Unknown);
    let res = StubResolver.resolve(&Callsign::parse("W1AW").unwrap());
    assert_eq!(annotate_with(&spot("W1AW", 14_074_000), false, res, &worked_291_on_20m()), SpotStatus::Unknown);
}

#[test]
fn worked_by_band_comes_from_awards_snapshot() {
    let mk = |call: &str, id: u16, band: Band| AwardQso {
        id: QsoId::new(),
        call: Callsign::parse(call).unwrap(),
        qso_begin: at(10, 0, 0),
        band: Some(band),
        mode: Some(Mode::FT8),
        dxcc_id: Some(id),
        dxcc_prefix: None,
        continent: None,
        state: None,
        iota: None,
        lotw_confirmed: false,
    };
    let snap = snapshot(&[mk("W1AW", 291, Band::M20), mk("JA1X", 339, Band::M40)], 2026);
    let w = build_worked_by_band(&snap);
    assert_eq!(w.len(), 2);
    let on20 = w.iter().find(|(b, _)| *b == Band::M20).unwrap();
    assert_eq!(on20.1, vec![291]);
    assert_eq!(annotate_spot(&spot("W1AW", 14_020_000), &StubResolver, &w), SpotStatus::Worked);
}

#[test]
fn feed_events_translate() {
    let ev = DxEvent::Spot {
        kind: SpotKind::New,
        dx_call: "JA1NUT".into(),
        freq_hz: 7_010_000,
        mode: DxMode::DIG,
        comment: Some("cq".into()),
        last_seen: at(12, 0, 0),
    };
    match translate(ev).as_slice() {
        [SpotEvent::Spot(s)] => {
            assert_eq!(s.call, "JA1NUT");
            assert_eq!(s.mode.as_deref(), Some("FT8"));
        }
        _ => panic!("expected one spot"),
    }
    let gone = DxEvent::Spot {
        kind: SpotKind::Withdraw,
        dx_call: "JA1NUT".into(),
        freq_hz: 7_010_000,
        mode: DxMode::CW,
        comment: None,
        last_seen: at(12, 0, 0),
    };
    assert!(matches!(translate(gone).as_slice(), [SpotEvent::Withdrawn { call }] if call == "JA1NUT"));
    assert!(translate(DxEvent::Other).is_empty());
    assert_eq!(dxmode_to_str(DxMode::Unknown), None);
    assert_eq!(source_id(3), "cluster-3");
}

#[test]
fn history_is_newest_first_and_bounded() {
    let mut spots = Vec::new();
    for i in 0..(SPOT_HISTORY_LIMIT + 5) {
        push_spot(&mut spots, spot(&format!("K{i}X"), 14_000_000));
    }
    assert_eq!(spots.len(), SPOT_HISTORY_LIMIT);
    assert_eq!(spots[0].call, format!("K{}X", SPOT_HISTORY_LIMIT + 4));
}

#[test]
fn withdraw_removes_every_spot_of_the_call() {
    let mut spots = vec![spot("W1AW", 1), spot("K1X", 2), spot("W1AW", 3)];
    withdraw_spots(&mut spots, &"W1AW".to_string());
    assert_eq!(spots.len(), 1);
    assert_eq!(spots[0].call, "K1X");
}

#[test]
fn ages_and_labels() {
    assert_eq!(relative_age_label(-3), "now");
    assert_eq!(relative_age_label(4), "now");
    assert_eq!(relative_age_label(59), "59s");
    assert_eq!(relative_age_label(125), "2m");
    assert_eq!(relative_age_label(7300), "2h");
    assert_eq!(seconds_between(at(12, 0, 0), at(12, 1, 30)), Some(90));
    let ages = spot_ages(&vec![spot("W1AW", 1)], at(12, 2, 0));
    assert_eq!(ages, vec![120]);
    assert_eq!(status_label(SpotStatus::NeededBand), "NEW");
}

#[test]
fn spots_pane_filters_old_and_not_needed() {
    let statuses = vec![SpotStatus::NeededBand, SpotStatus::Worked, SpotStatus::NeededBand];
    let ages = vec![10, 20, 4000];
    let pane = spots_pane(&statuses, &ages, false, &None);
    assert_eq!(pane.rows.len(), 2);
    assert_eq!(pane.header, "2 shown of 2 · 1 needed");
    assert_eq!(pane.toggle_label, "Needed only");
    let pane = spots_pane(&statuses, &ages, true, &Some("connected".into()));
    assert_eq!(pane.rows.len(), 1);
    assert_eq!(pane.rows[0].index, 0);
    assert_eq!(pane.rows[0].age, "10s");
    assert_eq!(pane.header, "1 shown of 2 · 1 needed — connected");
    assert_eq!(pane.toggle_label, "Show all");
}

#[test]
fn spot_above_i64_range_has_no_band() {
    let status = annotate_spot(&spot("W1AW", u64::MAX), &StubResolver, &worked_291_on_20m());
    assert_eq!(status, SpotStatus::Unknown);
    let wrapped = (1u64 << 63) + 14_074_000;
    let status = annotate_spot(&spot("W1AW", wrapped), &StubResolver, &worked_291_on_20m());
    assert_eq!(status, SpotStatus::Unknown);
}

fn ymd(year: i32, month: u8, day: u8, hour: u8, minute: u8, second: u8) -> UtcDateTime {
    UtcDateTime { year, month, day, hour, minute, second }
}

#[test]
fn seconds_between_counts_calendar_days() {
    let a = ymd(2024, 2, 28, 0, 0, 0);
    let b = ymd(2024, 3, 1, 0, 0, 0);
    assert_eq!(seconds_between(a, b), Some(172_800));
    assert_eq!(seconds_between(b, a), Some(-172_800));
    assert_eq!(
        seconds_between(ymd(2023, 12, 31, 23, 59, 59), a),
        Some(58 * 86_400 + 1)
    );
    assert_eq!(
        seconds_between(ymd(1970, 1, 1, 0, 0, 0), ymd(2000, 1, 1, 0, 0, 0)),
        Some(946_684_800)
    );
    assert_eq!(seconds_between(ymd(2023, 2, 29, 0, 0, 0), a), None);
    assert_eq!(seconds_between(a, ymd(2024, 1, 1, 24, 0, 0)), None);
    assert_eq!(seconds_between(a, ymd(262_143, 1, 1, 0, 0, 0)), None);
    assert!(seconds_between(a, ymd(262_142, 12, 31, 23, 59, 59)).is_some());
    assert!(seconds_between(ymd(-262_143, 1, 1, 0, 0, 0), a).is_some());
    assert_eq!(seconds_between(ymd(-262_144, 12, 31, 0, 0, 0), a), None);
}
