use slogger::boot::{
    build_keyer_client_config, build_rig_client_config, build_so2r_client_config,
    build_spot_feed_config, derive_rig_label, device_status, plan_rig, rig_connect_status, RigPlan,
};
use slogger::config::{ClusterSourceConfig, DxClusterConfig, KeyerConfig, RigConfig, So2rConfig};
use slogger::datetime::UtcDateTime;
use slogger::keyer::KeyerSnapshot;
use slogger::qsl_view::{
    all_services_vec, describe_last_outcome, service_filter_options, PendingCounts, QslPaneKind,
    QslService, QslServiceFilter,
};
use slogger::rig::ConnectError;
use slogger::so2r::So2rSnapshot;
use slogger::station_pane::{
    keyer_label, keyer_macros, pending_pills, rig_row_without_reading, session_text, so2r_label,
    tx_indicator, wsjtx_label, TxIndicator,
};
use slogger::summary::{
    format_clublog_summary, format_import_summary, format_lotw_summary, format_multi_summary,
    format_qrz_summary, join_strings, ClubLogUpdateSummary, FetchSummary, ImportSummary,
    MultiUpdateSummary, QrzUpdateSummary, UpdateSummary, UploadSummary,
};

fn noon() -> UtcDateTime {
    UtcDateTime { year: 2026, month: 5, day: 8, hour: 12, minute: 0, second: 0 }
}

fn rig_settings() -> RigConfig {
    RigConfig {
        enabled: true,
        vendor: Some("icom".into()),
        model: Some("IC-7300".into()),
        serial_port: Some("/dev/ttyUSB0".into()),
        baud_rate: Some(19200),
        host: None,
        label: None,
    }
}

#[test]
fn rig_label_falls_back_to_model_then_index() {
    let mut cfg = rig_settings();
    assert_eq!(derive_rig_label(&cfg, 0), "IC-7300");
    cfg.label = Some("Main".into());
    assert_eq!(derive_rig_label(&cfg, 0), "Main");
    cfg.label = None;
    cfg.model = None;
    assert_eq!(derive_rig_label(&cfg, 1), "Rig 2");
}

#[test]
fn rig_plans() {
    let cfg = rig_settings();
    match plan_rig(&cfg) {
        RigPlan::Connect(rc) => {
            assert_eq!(rc.vendor, "icom");
            assert_eq!(rc.model, "IC-7300");
            assert_eq!(rc.serial_port, "/dev/ttyUSB0");
        }
        RigPlan::Skip(_) => panic!("expected a connection"),
    }
    let off = RigConfig { enabled: false, ..rig_settings() };
    assert!(matches!(plan_rig(&off), RigPlan::Skip(m) if m == "disabled or config incomplete"));
    let no_port = RigConfig { serial_port: None, ..rig_settings() };
    assert_eq!(build_rig_client_config(&no_port).unwrap().serial_port, "");
    assert!(build_rig_client_config(&RigConfig { model: None, ..rig_settings() }).is_none());
    assert_eq!(rig_connect_status(&Ok(())), "connected");
    assert_eq!(
        rig_connect_status(&Err(ConnectError::UnknownVendor("x".into()))),
        "connect failed: unknown vendor: x"
    );
}

#[test]
fn device_settings_need_a_serial_port() {
    let keyer = KeyerConfig { enabled: true, serial_port: Some("/dev/ttyUSB1".into()), initial_wpm: None };
    assert_eq!(build_keyer_client_config(&keyer).unwrap().initial_wpm, 25);
    assert!(build_keyer_client_config(&KeyerConfig { serial_port: None, ..keyer }).is_none());
    let so2r = So2rConfig {
        enabled: true,
        serial_port: Some("/dev/ttyUSB2".into()),
        initial_tx: Some(2),
        initial_rx_mode: Some("stereo".into()),
    };
    let c = build_so2r_client_config(&so2r).unwrap();
    assert_eq!(c.serial_port, "/dev/ttyUSB2");
    assert_eq!(c.initial_tx, Some(2));
    assert_eq!(c.initial_rx_mode.as_deref(), Some("stereo"));
}

#[test]
fn spot_feed_needs_login_and_nodes() {
    let mut cluster = DxClusterConfig::default();
    assert!(build_spot_feed_config(&cluster).is_none());
    cluster.my_callsign = Some("W1ABC".into());
    assert!(build_spot_feed_config(&cluster).is_none());
    cluster.sources = vec![
        ClusterSourceConfig { host: "dxc.kbx.org".into(), port: 7300 },
        ClusterSourceConfig { host: "n1nr.org".into(), port: 7373 },
    ];
    let f = build_spot_feed_config(&cluster).unwrap();
    assert_eq!(f.my_callsign, "W1ABC");
    assert_eq!(f.sources.len(), 2);
    assert_eq!(f.sources[1].host, "n1nr.org");
    assert_eq!(f.sources[1].port, 7373);
    assert_eq!(f.filter_path, None);
}

#[test]
fn station_pane_texts() {
    assert_eq!(pending_pills(1, 2, 3, 4, 5), "L1 · E2 · C3 · Q4 · H5");
    assert_eq!(session_text(Some("Home")), "Session · Home");
    assert_eq!(session_text(None), "Session · (no station)");
    let snap = KeyerSnapshot { wpm: 28, keying: true, at: noon() };
    assert_eq!(keyer_label(true, Some(&snap), None), "Keyer · 28 WPM");
    assert_eq!(keyer_label(false, None, Some("port busy")), "port busy");
    assert_eq!(keyer_label(false, None, None), "Keyer off");
    assert_eq!(tx_indicator(true, Some(&snap)), TxIndicator::Transmitting);
    assert_eq!(tx_indicator(true, None), TxIndicator::Idle);
    assert_eq!(tx_indicator(false, None), TxIndicator::NoKeyer);
    let so2r = So2rSnapshot { tx_radio: 2, rx_radio: 1, rx_mode: "stereo".into(), at: noon() };
    assert_eq!(so2r_label(true, Some(&so2r), None), "SO2R · TX:R2 · RX:stereo");
    assert_eq!(wsjtx_label(true, Some("127.0.0.1:2237"), 3), "WSJT-X 127.0.0.1:2237 · auto-imported 3");
    assert_eq!(wsjtx_label(false, Some("127.0.0.1:2237"), 3), "WSJT-X off");
    assert_eq!(rig_row_without_reading(true, "Main", None, "connected"), "▶ Main (Main) — connected");
}

#[test]
fn keyer_macros_use_calls() {
    let m = keyer_macros(Some("W1ABC"), " ja1nut ");
    assert_eq!(m.cq, "CQ CQ DE W1ABC W1ABC K");
    let (label, text) = m.his_call.unwrap();
    assert_eq!(label, "→ ja1nut");
    assert_eq!(text, "ja1nut DE W1ABC");
    let m = keyer_macros(None, "  ");
    assert_eq!(m.cq, "CQ CQ DE <CALL> <CALL> K");
    assert!(m.his_call.is_none());
}

fn lotw_run() -> UpdateSummary {
    UpdateSummary {
        upload: Some(UploadSummary { uploaded: 3, note: "ok".into() }),
        upload_error: None,
        upload_skipped_reason: None,
        fetch: Some(FetchSummary { fetched: 10, verified: 3, confirmed: 2, unmatched: 1 }),
        fetch_error: None,
        fetch_skipped_reason: None,
    }
}

#[test]
fn summary_lines() {
    assert_eq!(join_strings(&vec!["a".into(), "b".into(), "c".into()], ", "), "a, b, c");
    assert_eq!(join_strings(&vec![], ", "), "");
    assert_eq!(
        format_lotw_summary(&lotw_run()),
        "upload 3 qso (ok), sync 3/10 verified, 2 confirmed, 1 unmatched"
    );
    let idle = ClubLogUpdateSummary { upload: None, upload_error: None, upload_skipped_reason: None };
    assert_eq!(format_clublog_summary(&idle), "nothing to do");
    let qrz = QrzUpdateSummary {
        uploaded: 2,
        rejected: 1,
        upload_error: None,
        upload_skipped_reason: None,
        first_errors: vec!["RESULT=FAIL".into()],
    };
    assert_eq!(format_qrz_summary(&qrz), "upload 2 ok / 1 rejected — first: RESULT=FAIL");
    let multi = MultiUpdateSummary { lotw: Some(lotw_run()), eqsl: None, clublog: Some(idle), qrz: None, hrdlog: None };
    assert_eq!(
        format_multi_summary(&multi),
        "lotw: upload 3 qso (ok), sync 3/10 verified, 2 confirmed, 1 unmatched | eqsl: skipped (not configured) | clublog: nothing to do | qrz: skipped (not configured) | hrdlog: skipped (not configured)"
    );
    let imp = ImportSummary { created: 5, skipped: 1, parse_errors: 0, first_errors: vec!["bad date".into()] };
    assert_eq!(format_import_summary(&imp), "import: created 5 / skipped 1 / parse-errors 0 — first: bad date");
}

#[test]
fn qsl_services_and_outcomes() {
    let all = all_services_vec();
    assert_eq!(all.len(), 5);
    let keys: Vec<&str> = all.iter().map(|s| s.key()).collect();
    assert_eq!(keys, vec!["lotw", "eqsl", "clublog", "qrz", "hrdlog"]);
    assert_eq!(QslService::ClubLog.label(), "Club Log");
    assert_eq!(QslPaneKind::Pending.title(), "Pending uploads");
    let opts = service_filter_options();
    assert_eq!(opts.len(), 6);
    assert_eq!(opts[0], QslServiceFilter(None));
    assert_eq!(QslServiceFilter(Some(QslService::Qrz)).label(), "QRZ");
    let counts = PendingCounts { lotw: 1, eqsl: 2, clublog: 3, qrz: 4, hrdlog: 5 };
    assert_eq!(counts.pending_count_for(QslService::Qrz), 4);
    assert_eq!(describe_last_outcome(None, QslService::Lotw), "—");
    let multi = MultiUpdateSummary { lotw: Some(lotw_run()), eqsl: None, clublog: None, qrz: None, hrdlog: None };
    assert_eq!(describe_last_outcome(Some(&multi), QslService::Eqsl), "not configured");
    assert_eq!(
        describe_last_outcome(Some(&multi), QslService::Lotw),
        "up 3: ok · fetch 3 verified / 2 confirmed"
    );
}

#[test]
fn so2r_and_keyer_status_lines() {
    assert_eq!(device_status("SO2R", "OTRSP", None, &Ok(())), "SO2R: config incomplete");
    assert_eq!(
        device_status("SO2R", "OTRSP", Some("/dev/ttyUSB2"), &Ok(())),
        "SO2R: connected to OTRSP on /dev/ttyUSB2"
    );
    assert_eq!(
        device_status("Keyer", "WinKeyer", Some("/dev/ttyUSB1"), &Err("no such device".into())),
        "Keyer: connect failed — no such device"
    );
}
