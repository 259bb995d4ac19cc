use slogger::config::{Config, ConfigError, ReadOutcome, RigConfig, config_from_read, fold_legacy_rig};
use slogger::keyer::KeyerConfig;

#[test]
fn wsjtx_defaults_enabled_on_localhost() {
    let cfg = Config::default();
    assert!(cfg.wsjtx.enabled);
    assert_eq!(cfg.wsjtx.bind_addr, "127.0.0.1:2237");
}

#[test]
fn so2r_disabled_by_default() {
    assert!(!Config::default().so2r.is_configured());
}

#[test]
fn keyer_disabled_by_default() {
    assert!(!Config::default().keyer.is_configured());
}

#[test]
fn config_carries_port_and_speed() {
    let cfg = KeyerConfig {
        serial_port: "/dev/ttyUSB1".into(),
        initial_wpm: 28,
    };
    assert_eq!(cfg.initial_wpm, 28);
}

#[test]
fn no_rigs_when_section_absent() {
    assert!(Config::default().rigs().is_empty());
}

#[test]
fn missing_file_gives_defaults() {
    let cfg = config_from_read("/nowhere/config.toml", ReadOutcome::NotFound, None).unwrap();
    assert!(cfg.station.default_callsign.is_none());
    assert!(cfg.wsjtx.enabled);
    assert!(cfg.rigs().is_empty());
    assert!(!cfg.lotw.is_configured_for_upload());
}

#[test]
fn unreadable_file_is_an_io_error() {
    let r = config_from_read("/etc/x.toml", ReadOutcome::Failed("denied".into()), None);
    match r {
        Err(ConfigError::Io { path, error }) => {
            assert_eq!(path, "/etc/x.toml");
            assert_eq!(error, "denied");
        }
        _ => panic!("expected an io error"),
    }
}

#[test]
fn bad_text_is_a_parse_error() {
    let r = config_from_read(
        "c.toml",
        ReadOutcome::Text("[[".into()),
        Some(Err("expected a table".into())),
    );
    assert!(matches!(r, Err(ConfigError::Parse { .. })));
}

#[test]
fn parsed_text_is_taken_as_is() {
    let mut parsed = Config::default();
    parsed.station.default_callsign = Some("W1ABC".into());
    let cfg = config_from_read("c.toml", ReadOutcome::Text("x".into()), Some(Ok(parsed))).unwrap();
    assert_eq!(cfg.station.default_callsign.as_deref(), Some("W1ABC"));
}

#[test]
fn default_path_is_under_config_dir() {
    assert_eq!(
        Config::default_path_in(Some("/home/u/.config")).unwrap(),
        "/home/u/.config/slogger/config.toml"
    );
    assert!(matches!(Config::default_path_in(None), Err(ConfigError::NoConfigDir)));
}

#[test]
fn service_sections_configured_only_when_complete() {
    let mut cfg = Config::default();
    assert!(!cfg.qrz.is_configured());
    cfg.qrz.api_key = Some("KEY".into());
    assert!(cfg.qrz.is_configured());
    cfg.hrdlog.callsign = Some("W1ABC".into());
    assert!(!cfg.hrdlog.is_configured());
    cfg.hrdlog.code = Some("CODE".into());
    assert!(cfg.hrdlog.is_configured());
    cfg.so2r.enabled = true;
    assert!(!cfg.so2r.is_configured());
    cfg.so2r.serial_port = Some("/dev/ttyUSB2".into());
    assert!(cfg.so2r.is_configured());
}

#[test]
fn flex_rig_needs_host_others_need_serial() {
    let mut rig = RigConfig::default();
    rig.enabled = true;
    rig.vendor = Some("flex".into());
    rig.model = Some("6600".into());
    assert!(!rig.is_configured());
    rig.host = Some("192.168.1.20".into());
    assert!(rig.is_configured());
    rig.vendor = Some("icom".into());
    assert!(!rig.is_configured());
    rig.serial_port = Some("/dev/ttyUSB0".into());
    assert!(rig.is_configured());
}

fn icom(label: Option<&str>) -> RigConfig {
    RigConfig {
        enabled: true,
        vendor: Some("icom".into()),
        model: Some("IC-7300".into()),
        serial_port: Some("/dev/ttyUSB0".into()),
        baud_rate: None,
        host: None,
        label: label.map(String::from),
    }
}

#[test]
fn legacy_single_rig_table_is_folded_into_the_list() {
    let mut cfg = Config::default();
    cfg.rigs = fold_legacy_rig(Vec::new(), Some(icom(None)));
    assert_eq!(cfg.rigs().len(), 1);
    assert_eq!(cfg.rigs()[0].model.as_deref(), Some("IC-7300"));
    assert!(cfg.rigs()[0].is_configured());
    let both = fold_legacy_rig(vec![icom(Some("Main"))], Some(icom(Some("Aux"))));
    assert_eq!(both.len(), 2);
    assert_eq!(both[1].label.as_deref(), Some("Aux"));
    assert!(fold_legacy_rig(Vec::new(), None).is_empty());
}
