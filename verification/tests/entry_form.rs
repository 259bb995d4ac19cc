use slogger::config::{Config, StationConfig};
use slogger::datetime::UtcDateTime;
use slogger::entry::{
    apply_rig_to_form, apply_spot_to_form, band_changed, import_start, deleted_message, logged_message, marked_message,
    new_station, rig_request, services_gate, station_option_label, submit_command, wsjtx_imported,
    ActiveStation, EntryForm, ServicesGate,
};
use slogger::ids::StationLocationId;
use slogger::rig::RigSnapshot;
use slogger::value::{Band, Callsign, Mode};

fn now() -> UtcDateTime {
    UtcDateTime { year: 2026, month: 5, day: 8, hour: 18, minute: 30, second: 0 }
}

fn form(call: &str) -> EntryForm {
    EntryForm {
        call_input: call.into(),
        band: None,
        mode: None,
        freq_input: String::new(),
        rst_sent: String::new(),
        rst_rcvd: String::new(),
    }
}

fn rig(freq: Option<u64>, mode: Option<&str>) -> RigSnapshot {
    RigSnapshot {
        vendor: "icom".into(),
        model: "IC-7300".into(),
        freq_hz: freq,
        mode: mode.map(String::from),
        at: now(),
    }
}

#[test]
fn submit_takes_typed_values_first() {
    let mut f = form("w1aw");
    f.freq_input = "7.074".into();
    f.mode = Some(Mode::FT8);
    f.rst_sent = "-10".into();
    let cmd = submit_command(&f, Some(&rig(Some(14_074_000), Some("CW"))), None, None, now()).unwrap();
    assert_eq!(cmd.call.as_str(), "W1AW");
    assert_eq!(cmd.freq_hz, Some(7_074_000));
    assert_eq!(cmd.band, Some(Band::M40));
    assert_eq!(cmd.mode, Some(Mode::FT8));
    assert_eq!(cmd.rst_sent.as_deref(), Some("-10"));
    assert_eq!(cmd.rst_rcvd, None);
    assert_eq!(cmd.qso_begin, now());
}

#[test]
fn submit_falls_back_to_rig_and_config() {
    let f = form("JA1NUT");
    let station = StationConfig { default_callsign: Some("k2a".into()) };
    let cmd =
        submit_command(&f, Some(&rig(Some(14_074_000), Some("CW"))), None, Some(&station), now())
            .unwrap();
    assert_eq!(cmd.freq_hz, Some(14_074_000));
    assert_eq!(cmd.band, Some(Band::M20));
    assert_eq!(cmd.mode, Some(Mode::CW));
    assert_eq!(cmd.station_callsign.as_ref().map(|c| c.as_str()), Some("K2A"));
    assert_eq!(cmd.station_location_id, None);
}

#[test]
fn submit_prefers_active_location_callsign() {
    let active = ActiveStation {
        id: StationLocationId::from_uuid(7),
        station_callsign: Some(Callsign::parse("W1ABC").unwrap()),
    };
    let station = StationConfig { default_callsign: Some("K2A".into()) };
    let cmd = submit_command(&form("W1AW"), None, Some(&active), Some(&station), now()).unwrap();
    assert_eq!(cmd.station_callsign.unwrap().as_str(), "W1ABC");
    assert_eq!(cmd.station_location_id, Some(StationLocationId::from_uuid(7)));
    assert_eq!(cmd.band, None);
    assert_eq!(cmd.mode, None);
}

#[test]
fn submit_refuses_bad_callsign() {
    let err = submit_command(&form("  "), None, None, None, now()).unwrap_err();
    assert_eq!(err, "invalid callsign: callsign is empty");
}

#[test]
fn spot_click_fills_form_unless_editing() {
    let mut f = form("");
    apply_spot_to_form(&mut f, false, "JA1NUT", 7_010_000, Some("CW")).unwrap();
    assert_eq!(f.call_input, "JA1NUT");
    assert_eq!(f.band, Some(Band::M40));
    assert_eq!(f.mode, Some(Mode::CW));
    let err = apply_spot_to_form(&mut f, true, "W1AW", 14_074_000, None).unwrap_err();
    assert_eq!(err, "spot W1AW ignored — finish or cancel the QSO edit first");
    assert_eq!(f.call_input, "JA1NUT");
}

#[test]
fn rig_reading_fills_band_and_mode() {
    let mut f = form("W1AW");
    apply_rig_to_form(&mut f, &rig(Some(21_074_000), Some("USB")));
    assert_eq!(f.band, Some(Band::M15));
    assert_eq!(f.mode, Some(Mode::SSB));
    apply_rig_to_form(&mut f, &rig(Some(42_000_000), None));
    assert_eq!(f.band, Some(Band::M15));
    assert_eq!(f.call_input, "W1AW");
}

#[test]
fn rig_request_needs_connection_and_content() {
    let mut f = form("W1AW");
    assert_eq!(rig_request(&f, false).unwrap_err(), "active rig not connected");
    assert_eq!(
        rig_request(&f, true).unwrap_err(),
        "nothing to send (set freq or mode in the form)"
    );
    f.freq_input = "14.074".into();
    f.mode = Some(Mode::FT8);
    let q = rig_request(&f, true).unwrap();
    assert_eq!(q.freq_hz, Some(14_074_000));
    assert_eq!(q.mode_adif.as_deref(), Some("FT8"));
}

#[test]
fn new_station_validation() {
    assert_eq!(new_station(" ", "W1AW", "").unwrap_err(), "station name is required");
    assert!(new_station("Home", "W1AW!", "").unwrap_err().starts_with("station callsign: "));
    let s = new_station(" Home ", "w1aw", " FN31 ").unwrap();
    assert_eq!(s.name, "Home");
    assert_eq!(s.callsign.as_str(), "W1AW");
    assert_eq!(s.grid.as_deref(), Some("FN31"));
    assert_eq!(new_station("Home", "W1AW", "  ").unwrap().grid, None);
}

#[test]
fn services_gate_decisions() {
    assert!(matches!(services_gate(false, None, false), ServicesGate::Ignore));
    assert!(matches!(services_gate(true, None, false), ServicesGate::Refuse(m) if m == "config not loaded"));
    let mut cfg = Config::default();
    assert!(matches!(services_gate(true, Some(&cfg), false), ServicesGate::Refuse(_)));
    cfg.qrz.api_key = Some("KEY".into());
    assert!(matches!(services_gate(true, Some(&cfg), false), ServicesGate::Start));
    assert!(matches!(services_gate(true, Some(&cfg), true), ServicesGate::Ignore));
}

#[test]
fn status_lines() {
    assert_eq!(deleted_message(2, 3), "deleted 2 / 3 QSOs");
    assert_eq!(marked_message(4, 4, "lotw"), "marked 4 / 4 as uploaded to lotw");
    assert_eq!(wsjtx_imported(5, 2), (7, "wsjtx: imported 2 qso (total this run: 7)".to_string()));
    assert_eq!(logged_message(" w1aw "), "logged W1AW");
    let c = Callsign::parse("W1ABC").unwrap();
    assert_eq!(station_option_label("Home", Some(&c)), "Home (W1ABC)");
    assert_eq!(station_option_label("Home", None), "Home");
}

#[test]
fn entry_form_starts_on_20m_ssb_with_59_reports() {
    let f = EntryForm::default();
    assert_eq!(f.call_input, "");
    assert_eq!(f.band, Some(Band::M20));
    assert_eq!(f.mode, Some(Mode::SSB));
    assert_eq!(f.freq_input, "");
    assert_eq!(f.rst_sent, "59");
    assert_eq!(f.rst_rcvd, "59");
}

#[test]
fn band_change_fills_the_usual_frequency() {
    let mut f = EntryForm::default();
    f.call_input = "DL1ABC".into();
    band_changed(&mut f, Band::M40);
    assert_eq!(f.band, Some(Band::M40));
    assert_eq!(f.freq_input, "7.1500");
    band_changed(&mut f, Band::Cm23);
    assert_eq!(f.freq_input, "1296.1000");
    band_changed(&mut f, Band::M630);
    assert_eq!(f.band, Some(Band::M630));
    assert_eq!(f.freq_input, "1296.1000");
    assert_eq!(f.call_input, "DL1ABC");
}

#[test]
fn import_needs_a_path() {
    assert_eq!(import_start("   "), Err("ADIF path is empty".to_string()));
    assert_eq!(
        import_start("  /tmp/log.adi "),
        Ok(("/tmp/log.adi".to_string(), "importing /tmp/log.adi…".to_string()))
    );
}
