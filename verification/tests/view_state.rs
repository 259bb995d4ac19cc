use slogger::datetime::UtcDateTime;
use slogger::ids::{QsoId, StationLocationId};
use slogger::qsl_view::{QslService, QslServiceFilter};
use slogger::qso::Qso;
use slogger::queries::QsoSummary;
use slogger::selection::QsoSelection;
use slogger::ui::{BandFilter, LogbookSearchResult, LotwFilter, ModeFilter, SearchForm};
use slogger::value::{Band, Callsign};
use slogger::view_state::{LogbookSearchState, QslViewState};

fn at(hour: u8) -> UtcDateTime {
    UtcDateTime { year: 2026, month: 5, day: 8, hour, minute: 0, second: 0 }
}

fn summary(n: u128) -> QsoSummary {
    QsoSummary {
        id: QsoId::from_uuid(n),
        call: Callsign::parse("W1AW").unwrap(),
        qso_begin: at(10),
        band: Some(Band::M20),
        mode: None,
        freq_hz: None,
        dxcc_id: None,
        dxcc_prefix: None,
        continent: None,
        cq_zone: None,
    }
}

fn qso(n: u128) -> Qso {
    Qso {
        id: QsoId::from_uuid(n),
        call: Callsign::parse("K1ABC").unwrap(),
        qso_begin: at(11),
        qso_end: None,
        band: None,
        freq_hz: None,
        mode: None,
        submode: None,
        rst_sent: None,
        rst_rcvd: None,
        operator_id: None,
        station_location_id: Some(StationLocationId::from_uuid(9)),
        station_callsign: None,
        owner_callsign: None,
        dxcc_id: None,
        dxcc_prefix: None,
        continent: None,
        cq_zone: None,
        itu_zone: None,
        grid: None,
        state: None,
        county: None,
        province: None,
        iota: None,
        tx_power_w: None,
        rx_power_w: None,
        propagation_mode: None,
        sat_name: None,
        sat_mode: None,
        created_at: at(11),
        updated_at: at(11),
    }
}

fn form() -> SearchForm {
    SearchForm {
        call_prefix: " JA ".into(),
        exact_call: "".into(),
        band: BandFilter(Some(Band::M40)),
        mode: ModeFilter(None),
        lotw_filter: LotwFilter::Confirmed,
    }
}

#[test]
fn selection_toggles_and_trims() {
    let a = QsoId::from_uuid(1);
    let b = QsoId::from_uuid(2);
    let mut s = QsoSelection::new();
    assert_eq!(s.len(), 0);
    s.toggle(a);
    s.toggle(b);
    assert!(s.contains(a) && s.contains(b));
    assert_eq!(s.len(), 2);
    s.toggle(a);
    assert!(!s.contains(a));
    assert_eq!(s.ids(), vec![b]);
    s.toggle(a);
    s.toggle(a);
    assert_eq!(s.ids(), vec![b]);
    s.toggle(a);
    s.retain_present(&vec![a, QsoId::from_uuid(3)]);
    assert_eq!(s.ids(), vec![a]);
    s.clear();
    assert_eq!(s.len(), 0);
}

#[test]
fn logbook_search_drops_stale_answers() {
    let mut st = LogbookSearchState::new(form());
    let (g1, q1) = st.start_search();
    assert_eq!(g1, 1);
    assert!(st.searching);
    assert_eq!(q1.call_prefix.as_deref(), Some("JA"));
    assert_eq!(q1.band, Some(Band::M40));
    assert_eq!(q1.lotw_confirmed, Some(true));
    assert_eq!(q1.limit, Some(500));
    let (g2, _) = st.start_search();
    assert_eq!(g2, 2);
    st.finish_search(g1, Ok(LogbookSearchResult { results: vec![summary(1)], total: 1 }));
    assert!(st.searching);
    assert!(st.results.is_empty());
    st.selected.toggle(QsoId::from_uuid(1));
    st.selected.toggle(QsoId::from_uuid(5));
    st.finish_search(g2, Ok(LogbookSearchResult { results: vec![summary(1), summary(2)], total: 40 }));
    assert!(!st.searching);
    assert_eq!(st.results.len(), 2);
    assert_eq!(st.total_count, Some(40));
    assert_eq!(st.selected.ids(), vec![QsoId::from_uuid(1)]);
    st.finish_search(g2, Err("locked".into()));
    assert_eq!(st.last_action.as_deref(), Some("search error: locked"));
    assert_eq!(st.results.len(), 2);
}

#[test]
fn logbook_bulk_outcome_reruns_only_when_current() {
    let mut st = LogbookSearchState::new(form());
    let (g, _) = st.start_search();
    st.selected.toggle(QsoId::from_uuid(4));
    assert!(!st.finish_bulk(g.wrapping_add(7), Ok("deleted 1 / 1 QSOs".into())));
    assert_eq!(st.selected.len(), 1);
    assert!(st.last_action.is_none());
    assert!(st.finish_bulk(g, Ok("deleted 1 / 1 QSOs".into())));
    assert_eq!(st.selected.len(), 0);
    assert_eq!(st.last_action.as_deref(), Some("deleted 1 / 1 QSOs"));
    assert!(st.finish_bulk(g, Err("busy".into())));
    assert_eq!(st.last_action.as_deref(), Some("bulk error: busy"));
}

#[test]
fn qsl_view_refresh_flow() {
    let mut v = QslViewState::new();
    assert!(v.refresh_due_on_entry());
    assert_eq!(v.start_pending_refresh(), None);
    assert!(!v.loading_pending);
    v.selected.toggle(QsoId::from_uuid(1));
    assert_eq!(v.change_filter(QslServiceFilter(Some(QslService::Eqsl))), Some("eqsl"));
    assert!(v.loading_pending);
    assert_eq!(v.selected.len(), 0);
    assert!(!v.refresh_due_on_entry());
    v.selected.toggle(QsoId::from_uuid(1));
    v.selected.toggle(QsoId::from_uuid(2));
    v.finish_pending_refresh(Ok(vec![qso(2), qso(3)]));
    assert!(!v.loading_pending);
    assert_eq!(v.pending.len(), 2);
    assert_eq!(v.selected.ids(), vec![QsoId::from_uuid(2)]);
    assert!(v.last_action.is_none());
    v.finish_pending_refresh(Err("gone".into()));
    assert_eq!(v.last_action.as_deref(), Some("refresh error: gone"));
    assert_eq!(v.pending.len(), 2);
    v.finish_bulk(Ok("marked 1 / 1 as uploaded to eqsl".into()));
    assert_eq!(v.selected.len(), 0);
    assert_eq!(v.last_action.as_deref(), Some("marked 1 / 1 as uploaded to eqsl"));
}
