use slogger::datetime::UtcDateTime;
use slogger::ids::{OperatingSessionId, OperatorId, QsoId, StationLocationId};
use slogger::qsl_view::{pending_pane, services_pane, PendingCounts, QslService, QslServiceFilter};
use slogger::qso::Qso;
use slogger::queries::{QsoSearch, QsoSummary};
use slogger::repository::RepositoryError;
use slogger::sessions::{duration_label, sessions_drawer, started_label};
use slogger::station::{OperatingSession, StationLocation};
use slogger::storage::{
    award_qso_from_row, location_from_row, location_to_row, qso_from_row, qso_to_row,
    search_filter, session_from_row, session_to_row, AwardQsoRow, SqlBind,
};
use slogger::ui::{logbook_grid, StationOption};
use slogger::value::{Band, Callsign, Mode, PropagationMode};

fn at(year: i32, month: u8, day: u8, hour: u8, minute: u8, second: u8) -> UtcDateTime {
    UtcDateTime { year, month, day, hour, minute, second }
}

fn sample_qso() -> Qso {
    Qso {
        id: QsoId::from_uuid(0x0123_4567_89ab_cdef_0011_2233_4455_6677),
        call: Callsign::parse("W1AW").unwrap(),
        qso_begin: at(2026, 5, 8, 18, 30, 45),
        qso_end: Some(at(2026, 5, 8, 18, 32, 0)),
        band: Some(Band::M20),
        freq_hz: Some(14_074_000),
        mode: Some(Mode::FT8),
        submode: None,
        rst_sent: Some("-12".into()),
        rst_rcvd: Some("-09".into()),
        operator_id: Some(OperatorId::from_uuid(42)),
        station_location_id: None,
        station_callsign: Some(Callsign::parse("K2A").unwrap()),
        owner_callsign: None,
        dxcc_id: Some(291),
        dxcc_prefix: Some("W".into()),
        continent: Some("NA".into()),
        cq_zone: Some(5),
        itu_zone: Some(8),
        grid: Some("FN31".into()),
        state: Some("CT".into()),
        county: None,
        province: None,
        iota: None,
        tx_power_w: Some("100".into()),
        rx_power_w: None,
        propagation_mode: Some(PropagationMode::Other("F2".into())),
        sat_name: None,
        sat_mode: None,
        created_at: at(2026, 5, 8, 18, 31, 0),
        updated_at: at(2026, 5, 9, 1, 2, 3),
    }
}

#[test]
fn qso_row_texts() {
    let row = qso_to_row(&sample_qso());
    assert_eq!(row.id, "01234567-89ab-cdef-0011-223344556677");
    assert_eq!(row.qso_begin, "2026-05-08T18:30:45+00:00");
    assert_eq!(row.operator_id.as_deref(), Some("00000000-0000-0000-0000-00000000002a"));
    assert_eq!(row.band.as_deref(), Some("20M"));
    assert_eq!(row.mode.as_deref(), Some("FT8"));
    assert_eq!(row.dxcc_id, Some(291));
    assert_eq!(row.propagation_mode.as_deref(), Some("other:F2"));
}

#[test]
fn stored_qso_reads_back() {
    let q = sample_qso();
    let back = qso_from_row(qso_to_row(&q)).unwrap();
    assert_eq!(back.id, q.id);
    assert_eq!(back.call, q.call);
    assert_eq!(back.qso_begin, q.qso_begin);
    assert_eq!(back.qso_end, q.qso_end);
    assert_eq!(back.band, q.band);
    assert_eq!(back.mode, q.mode);
    assert_eq!(back.operator_id, q.operator_id);
    assert_eq!(back.station_callsign, q.station_callsign);
    assert_eq!(back.dxcc_id, q.dxcc_id);
    assert_eq!(back.cq_zone, q.cq_zone);
    assert_eq!(back.tx_power_w, q.tx_power_w);
    assert_eq!(back.propagation_mode, q.propagation_mode);
    assert_eq!(back.created_at, q.created_at);
    assert_eq!(back.updated_at, q.updated_at);
}

#[test]
fn bad_columns_are_reported_in_order() {
    let mut row = qso_to_row(&sample_qso());
    row.qso_begin = "yesterday".into();
    row.call = "W1 AW".into();
    match qso_from_row(row.clone()) {
        Err(RepositoryError::Storage(m)) => {
            assert_eq!(m, "bad callsign in db: callsign contains invalid character: ' '")
        }
        _ => panic!("expected a callsign error"),
    }
    row.call = "W1AW".into();
    match qso_from_row(row.clone()) {
        Err(RepositoryError::Storage(m)) => assert!(m.starts_with("bad timestamp in db: ")),
        _ => panic!("expected a timestamp error"),
    }
    row.id = "not-a-uuid".into();
    match qso_from_row(row) {
        Err(RepositoryError::Storage(m)) => assert!(m.starts_with("bad uuid: ")),
        _ => panic!("expected a uuid error"),
    }
}

#[test]
fn row_reading_narrows_and_parses() {
    let mut row = qso_to_row(&sample_qso());
    row.qso_begin = "2026-05-08T20:30:45+02:00".into();
    row.band = Some("21M".into());
    row.mode = Some("usb".into());
    row.dxcc_id = Some(65_536 + 7);
    let q = qso_from_row(row).unwrap();
    assert_eq!(q.qso_begin, at(2026, 5, 8, 18, 30, 45));
    assert_eq!(q.band, None);
    assert_eq!(q.mode, Some(Mode::SSB));
    assert_eq!(q.dxcc_id, Some(7));
}

#[test]
fn search_filter_clauses_and_binds() {
    let mut q = QsoSearch::default();
    let (sql, binds) = search_filter(&q);
    assert_eq!(sql, "");
    assert!(binds.is_empty());
    q.call_prefix = Some("ja".into());
    q.band = Some(Band::M40);
    q.dxcc_id = Some(339);
    q.station_location_id = Some(StationLocationId::from_uuid(1));
    q.from = Some(at(2026, 1, 1, 0, 0, 0));
    q.lotw_confirmed = Some(false);
    let (sql, binds) = search_filter(&q);
    assert_eq!(
        sql,
        " AND q.call LIKE ? AND q.band = ? AND q.dxcc_id = ? AND q.station_location_id = ? AND q.qso_begin >= ? AND (s.id IS NULL OR s.confirmation_state != 'confirmed')"
    );
    assert_eq!(binds.len(), 5);
    assert!(matches!(&binds[0], SqlBind::Text(t) if t == "JA%"));
    assert!(matches!(&binds[1], SqlBind::Text(t) if t == "40M"));
    assert!(matches!(&binds[2], SqlBind::Int(339)));
    assert!(matches!(&binds[3], SqlBind::Text(t) if t == "00000000-0000-0000-0000-000000000001"));
    assert!(matches!(&binds[4], SqlBind::Text(t) if t == "2026-01-01T00:00:00+00:00"));
}

fn sample_location() -> StationLocation {
    StationLocation {
        id: StationLocationId::from_uuid(77),
        name: "Home".into(),
        station_callsign: Some(Callsign::parse("W1ABC").unwrap()),
        owner_callsign: None,
        city: Some("Newington".into()),
        county: None,
        state: Some("CT".into()),
        country: Some("United States".into()),
        grid: Some("FN31pr".into()),
        latitude: Some("41.714".into()),
        longitude: Some("-72.727".into()),
        cq_zone: Some(5),
        itu_zone: Some(8),
        iota: None,
        lotw_station_location: Some("Home QTH".into()),
        eqsl_account: None,
        created_at: at(2026, 1, 2, 3, 4, 5),
        updated_at: at(2026, 1, 2, 3, 4, 5),
    }
}

#[test]
fn stored_location_reads_back() {
    let l = sample_location();
    let back = location_from_row(location_to_row(&l)).unwrap();
    assert_eq!(back.id, l.id);
    assert_eq!(back.name, l.name);
    assert_eq!(back.station_callsign, l.station_callsign);
    assert_eq!(back.latitude, l.latitude);
    assert_eq!(back.cq_zone, l.cq_zone);
    assert_eq!(back.created_at, l.created_at);
    let mut row = location_to_row(&l);
    row.owner_callsign = Some("".into());
    match location_from_row(row) {
        Err(RepositoryError::Storage(m)) => assert_eq!(m, "bad callsign: callsign is empty"),
        _ => panic!("expected a callsign error"),
    }
}

#[test]
fn station_option_label_carries_callsign() {
    let mut l = sample_location();
    let o = StationOption::from_location(&l);
    assert_eq!(o.label, "Home (W1ABC)");
    assert_eq!(o.id, l.id);
    l.station_callsign = None;
    assert_eq!(StationOption::from_location(&l).label, "Home");
}

#[test]
fn award_rows_read() {
    let row = AwardQsoRow {
        id: "00000000-0000-0000-0000-000000000009".into(),
        call: "ja1nut".into(),
        qso_begin: "2026-05-08T19:00:00+00:00".into(),
        band: Some("40m".into()),
        mode: Some("CW".into()),
        dxcc_id: Some(339),
        dxcc_prefix: Some("JA".into()),
        continent: Some("AS".into()),
        state: None,
        iota: None,
        lotw_confirmed: 1,
    };
    let a = award_qso_from_row(row.clone()).unwrap();
    assert_eq!(a.id, QsoId::from_uuid(9));
    assert_eq!(a.call.as_str(), "JA1NUT");
    assert_eq!(a.band, Some(Band::M40));
    assert!(a.lotw_confirmed);
    let bad = AwardQsoRow { qso_begin: "2026-13-08T19:00:00+00:00".into(), ..row };
    assert!(matches!(award_qso_from_row(bad), Err(RepositoryError::Storage(_))));
}

#[test]
fn pending_and_services_panes() {
    let q = sample_qso();
    let pane = pending_pane(QslServiceFilter(Some(QslService::Lotw)), &vec![q.clone()], false, &vec![q.id]);
    assert_eq!(pane.refresh_label, "Refresh");
    let bulk = pane.bulk.unwrap();
    assert_eq!(bulk.selected_label, "1 selected:");
    assert_eq!(bulk.mark_label, "Mark uploaded → LotW");
    assert_eq!(bulk.mark_service, Some("lotw"));
    assert_eq!(pane.rows.len(), 1);
    assert!(pane.rows[0].selected);
    assert_eq!(pane.rows[0].label, "2026-05-08 18:30:45  W1AW        20M    FT8    W");
    assert!(pane.empty_note.is_none());
    let empty = pending_pane(QslServiceFilter(None), &vec![], false, &vec![]);
    assert!(empty.bulk.is_none());
    assert_eq!(empty.empty_note.as_deref(), Some("No QSOs pending upload."));
    let loading = pending_pane(QslServiceFilter(Some(QslService::Qrz)), &vec![], true, &vec![]);
    assert_eq!(loading.refresh_label, "Refreshing…");
    assert!(loading.empty_note.is_none());

    let counts = PendingCounts { lotw: 3, eqsl: 0, clublog: 1, qrz: 0, hrdlog: 2 };
    let sp = services_pane(&counts, None, true);
    assert_eq!(sp.rows.len(), 5);
    assert_eq!(sp.rows[0].label, "LotW");
    assert_eq!(sp.rows[0].pending, "3");
    assert_eq!(sp.rows[4].pending, "2");
    assert_eq!(sp.rows[2].last, "—");
    assert_eq!(sp.update_label, "Updating…");
}

#[test]
fn logbook_grid_rows_and_selection() {
    let q = QsoSummary {
        id: QsoId::from_uuid(1),
        call: Callsign::parse("W1AW").unwrap(),
        qso_begin: at(2026, 5, 8, 18, 30, 45),
        band: Some(Band::M20),
        mode: Some(Mode::FT8),
        freq_hz: Some(14_074_000),
        dxcc_id: Some(291),
        dxcc_prefix: Some("W".into()),
        continent: None,
        cq_zone: None,
    };
    let mut other = q.clone();
    other.id = QsoId::from_uuid(7);
    other.band = None;
    other.mode = None;
    other.dxcc_prefix = None;
    let grid = logbook_grid(&vec![q.clone(), other.clone()], &vec![other.id], &Some("Deleted 1 of 1".to_string()));
    assert_eq!(grid.selected_label.as_deref(), Some("1 selected:"));
    assert_eq!(grid.action_status.as_deref(), Some("Deleted 1 of 1"));
    assert_eq!(grid.rows.len(), 2);
    assert_eq!(grid.rows[0].label, "2026-05-08 18:30:45  W1AW        20M    FT8    W");
    assert!(!grid.rows[0].selected);
    assert_eq!(grid.rows[1].label, "2026-05-08 18:30:45  W1AW                      ");
    assert!(grid.rows[1].selected);
    let none = logbook_grid(&vec![], &vec![], &None);
    assert!(none.selected_label.is_none());
    assert!(none.action_status.is_none());
    assert!(none.rows.is_empty());
}

fn sample_session() -> OperatingSession {
    OperatingSession {
        id: OperatingSessionId::from_uuid(0x00112233_4455_6677_8899_aabbccddeeff),
        operator_id: Some(OperatorId::from_uuid(1)),
        station_location_id: None,
        started_at: at(2026, 5, 8, 18, 0, 0),
        ended_at: Some(at(2026, 5, 8, 19, 35, 59)),
        name: Some("Field day".into()),
        notes: None,
    }
}

#[test]
fn stored_session_reads_back() {
    let s = sample_session();
    let row = session_to_row(&s);
    assert_eq!(row.id, "00112233-4455-6677-8899-aabbccddeeff");
    assert_eq!(row.operator_id.as_deref(), Some("00000000-0000-0000-0000-000000000001"));
    assert_eq!(row.started_at, "2026-05-08T18:00:00+00:00");
    assert_eq!(row.ended_at.as_deref(), Some("2026-05-08T19:35:59+00:00"));
    let back = session_from_row(row).unwrap();
    assert_eq!(back.id, s.id);
    assert_eq!(back.operator_id, s.operator_id);
    assert_eq!(back.station_location_id, None);
    assert_eq!(back.started_at, s.started_at);
    assert_eq!(back.ended_at, s.ended_at);
    assert_eq!(back.name.as_deref(), Some("Field day"));
    assert_eq!(back.notes, None);
}

#[test]
fn session_row_errors_name_the_first_bad_column() {
    let mut row = session_to_row(&sample_session());
    row.station_location_id = Some("nope".into());
    row.started_at = "yesterday".into();
    match session_from_row(row.clone()) {
        Err(RepositoryError::Storage(m)) => assert!(m.starts_with("bad uuid: ")),
        other => panic!("unexpected {other:?}"),
    }
    row.station_location_id = None;
    match session_from_row(row) {
        Err(RepositoryError::Storage(m)) => assert!(m.starts_with("bad timestamp: ")),
        other => panic!("unexpected {other:?}"),
    }
}

#[test]
fn session_durations_and_start_labels() {
    assert_eq!(duration_label(0), "0m");
    assert_eq!(duration_label(-300), "0m");
    assert_eq!(duration_label(59), "0m");
    assert_eq!(duration_label(3599), "59m");
    assert_eq!(duration_label(5759), "1h 35m");
    assert_eq!(duration_label(7200), "2h 0m");
    assert_eq!(started_label(&at(2026, 5, 8, 7, 4, 59)), "2026-05-08 07:04");
}

#[test]
fn sessions_drawer_lines() {
    let closed = sample_session();
    let mut orphan = sample_session();
    orphan.id = OperatingSessionId::from_uuid(2);
    orphan.ended_at = None;
    orphan.name = None;
    let mut running = sample_session();
    running.id = OperatingSessionId::from_uuid(3);
    running.ended_at = None;
    let d = sessions_drawer(
        &vec![closed, orphan, running.clone()],
        Some(running.id),
        false,
        &Some("Session ended".to_string()),
    );
    assert_eq!(d.refresh_label, "Refresh");
    assert_eq!(d.active_label, "Active session: 00000000-0000-0000-0000-000000000003");
    assert!(d.end_offered);
    assert_eq!(d.lines.len(), 3);
    assert_eq!(d.lines[0].started, "2026-05-08 18:00");
    assert_eq!(d.lines[0].name, "Field day");
    assert_eq!(d.lines[0].status, "1h 35m");
    assert_eq!(d.lines[1].name, "(unnamed)");
    assert_eq!(d.lines[1].status, "(orphaned)");
    assert_eq!(d.lines[2].status, "● active");
    assert!(d.empty_note.is_none());
    assert_eq!(d.status_line.as_deref(), Some("Session ended"));
    let empty = sessions_drawer(&vec![], None, false, &None);
    assert_eq!(empty.active_label, "No active session");
    assert!(!empty.end_offered);
    assert_eq!(empty.empty_note, Some("(no sessions yet — press Refresh)"));
    let loading = sessions_drawer(&vec![], None, true, &None);
    assert_eq!(loading.refresh_label, "Loading…");
    assert!(loading.empty_note.is_none());
}
