use slogger::datetime::UtcDateTime;
use slogger::keyer::{apply_keyer_event, start_wpm, KeyerConfig, KeyerEvent, KeyerSnapshot};
use slogger::rig::{
    apply_event, lookup_model, mode_from_adif, mode_to_str, next_backoff, normalize, parse_vendor,
    plan_build, BuildPlan, ConnectError, RigConfig, RigEvent, RigMode, RigSnapshot, Vendor,
};
use slogger::so2r::{
    apply_switch_event, initial_commands, initial_snapshot, parse_radio, parse_rx_mode,
    radio_to_idx, rx_mode_to_str, CommandError, Radio, RxMode, So2rConfig, SwitchEvent,
};

fn noon() -> UtcDateTime {
    UtcDateTime { year: 2026, month: 5, day: 8, hour: 12, minute: 0, second: 0 }
}

#[test]
fn unknown_vendor_rejected() {
    let err = lookup_model(Vendor::Icom, "nonsense").unwrap_err();
    assert!(matches!(err, ConnectError::UnknownModel { ref vendor, .. } if vendor == "icom"));
    assert!(matches!(parse_vendor("noradio"), Err(ConnectError::UnknownVendor(v)) if v == "noradio"));
}

#[test]
fn case_insensitive_model_lookup() {
    assert!(lookup_model(Vendor::Icom, "IC-7300").is_ok());
    assert!(lookup_model(Vendor::Icom, "ic7300").is_ok());
    assert!(lookup_model(Vendor::Icom, "Ic-7300").is_ok());
    assert_eq!(lookup_model(Vendor::Icom, "IC-7300").unwrap(), 0);
}

#[test]
fn yaesu_kenwood_elecraft_lookup_paths_work() {
    assert!(lookup_model(Vendor::Yaesu, "FT-DX10").is_ok());
    assert!(lookup_model(Vendor::Kenwood, "TS-890S").is_ok());
    assert!(lookup_model(Vendor::Elecraft, "K4").is_ok());
}

#[test]
fn flex_lookup_handles_short_and_prefixed_names() {
    assert!(lookup_model(Vendor::Flex, "6400").is_ok());
    assert!(lookup_model(Vendor::Flex, "FLEX-6400").is_ok());
    assert!(lookup_model(Vendor::Flex, "flex6600M").is_ok());
    assert!(lookup_model(Vendor::Flex, "8600").is_ok());
    assert!(lookup_model(Vendor::Flex, "nope").is_err());
    assert_eq!(
        lookup_model(Vendor::Flex, "6400").unwrap(),
        lookup_model(Vendor::Flex, "FLEX-6400").unwrap()
    );
}

#[test]
fn mode_from_adif_handles_common_cases() {
    assert_eq!(mode_from_adif("CW"), Some(RigMode::CW));
    assert_eq!(mode_from_adif("USB"), Some(RigMode::USB));
    assert_eq!(mode_from_adif("FT8"), Some(RigMode::DataUSB));
    assert_eq!(mode_from_adif("PSK"), Some(RigMode::DataUSB));
    assert_eq!(mode_from_adif("SSB"), None);
    assert_eq!(mode_from_adif("nonsense"), None);
    assert_eq!(mode_from_adif("data-l"), Some(RigMode::DataLSB));
}

#[test]
fn normalize_drops_hyphens_and_case() {
    assert_eq!(normalize("FT-DX-10").into_iter().collect::<String>(), "ftdx10");
}

#[test]
fn vendor_parse_ignores_case() {
    assert_eq!(parse_vendor("ICOM").unwrap(), Vendor::Icom);
    assert_eq!(parse_vendor("Flex").unwrap(), Vendor::Flex);
}

#[test]
fn plan_build_for_serial_and_flex() {
    let serial = RigConfig {
        vendor: "icom".into(),
        model: "IC-7610".into(),
        serial_port: "/dev/ttyUSB0".into(),
        baud_rate: Some(19200),
        host: None,
    };
    match plan_build(&serial).unwrap() {
        BuildPlan::Serial { vendor, model, serial_port, baud_rate } => {
            assert_eq!(vendor, Vendor::Icom);
            assert_eq!(model, 2);
            assert_eq!(serial_port, "/dev/ttyUSB0");
            assert_eq!(baud_rate, Some(19200));
        }
        _ => panic!("expected a serial plan"),
    }
    let flex_no_host = RigConfig {
        vendor: "flex".into(),
        model: "6600".into(),
        serial_port: String::new(),
        baud_rate: None,
        host: None,
    };
    assert!(matches!(plan_build(&flex_no_host), Err(ConnectError::MissingConfig("host"))));
    let flex = RigConfig { host: Some("10.0.0.5".into()), ..flex_no_host };
    assert!(matches!(plan_build(&flex), Ok(BuildPlan::Flex { model: 2, .. })));
}

#[test]
fn rig_events_update_snapshot() {
    let mut s = RigSnapshot {
        vendor: "icom".into(),
        model: "IC-7300".into(),
        freq_hz: None,
        mode: None,
        at: noon(),
    };
    apply_event(&mut s, RigEvent::FrequencyChanged(14_074_000));
    assert_eq!(s.freq_hz, Some(14_074_000));
    apply_event(&mut s, RigEvent::ModeChanged(RigMode::CW));
    assert_eq!(s.mode.as_deref(), Some(mode_to_str(RigMode::CW).as_str()));
    apply_event(&mut s, RigEvent::Other);
    assert_eq!(s.freq_hz, Some(14_074_000));
}

#[test]
fn backoff_doubles_up_to_thirty() {
    assert_eq!(next_backoff(1), 2);
    assert_eq!(next_backoff(8), 16);
    assert_eq!(next_backoff(16), 30);
    assert_eq!(next_backoff(30), 30);
}

#[test]
fn parse_radio_accepts_1_and_2() {
    assert!(matches!(parse_radio(1), Ok(Radio::Radio1)));
    assert!(matches!(parse_radio(2), Ok(Radio::Radio2)));
    assert!(matches!(parse_radio(3), Err(CommandError::InvalidRadio(3))));
}

#[test]
fn parse_rx_mode_handles_variants() {
    assert!(matches!(parse_rx_mode("mono"), Ok(RxMode::Mono)));
    assert!(matches!(parse_rx_mode("STEREO"), Ok(RxMode::Stereo)));
    assert!(matches!(parse_rx_mode("reverse_stereo"), Ok(RxMode::ReverseStereo)));
    assert!(matches!(parse_rx_mode("reverse-stereo"), Ok(RxMode::ReverseStereo)));
    assert!(matches!(parse_rx_mode("nonsense"), Err(_)));
}

#[test]
fn radio_index_round_trip() {
    assert_eq!(radio_to_idx(Radio::Radio1), 1);
    assert_eq!(radio_to_idx(Radio::Radio2), 2);
    for r in [Radio::Radio1, Radio::Radio2] {
        assert_eq!(parse_radio(radio_to_idx(r)).unwrap(), r);
    }
}

#[test]
fn rx_mode_text_round_trip() {
    for m in [RxMode::Mono, RxMode::Stereo, RxMode::ReverseStereo] {
        assert_eq!(parse_rx_mode(rx_mode_to_str(m)).unwrap(), m);
    }
}

#[test]
fn so2r_start_state_and_commands() {
    let cfg = So2rConfig {
        serial_port: "/dev/ttyUSB2".into(),
        initial_tx: Some(2),
        initial_rx_mode: Some("stereo".into()),
    };
    let s = initial_snapshot(&cfg, noon());
    assert_eq!((s.tx_radio, s.rx_radio), (2, 2));
    assert_eq!(s.rx_mode, "stereo");
    let (tx, rx) = initial_commands(&cfg);
    assert_eq!(tx, Some(Radio::Radio2));
    assert_eq!(rx, Some((Radio::Radio2, RxMode::Stereo)));

    let bare = So2rConfig { serial_port: "x".into(), initial_tx: Some(7), initial_rx_mode: None };
    let s = initial_snapshot(&bare, noon());
    assert_eq!(s.rx_mode, "mono");
    assert_eq!(initial_commands(&bare), (None, None));
}

#[test]
fn switch_events_update_snapshot() {
    let cfg = So2rConfig { serial_port: "x".into(), initial_tx: None, initial_rx_mode: None };
    let mut s = initial_snapshot(&cfg, noon());
    apply_switch_event(&mut s, SwitchEvent::TxChanged(Radio::Radio2));
    assert_eq!((s.tx_radio, s.rx_radio), (2, 1));
    apply_switch_event(&mut s, SwitchEvent::RxChanged(Radio::Radio2, RxMode::ReverseStereo));
    assert_eq!(s.rx_radio, 2);
    assert_eq!(s.rx_mode, rx_mode_to_str(RxMode::ReverseStereo));
}

#[test]
fn keyer_speed_is_clamped() {
    let cfg = |wpm| KeyerConfig { serial_port: "/dev/ttyUSB1".into(), initial_wpm: wpm };
    assert_eq!(start_wpm(&cfg(28)), 28);
    assert_eq!(start_wpm(&cfg(2)), 5);
    assert_eq!(start_wpm(&cfg(90)), 50);
}

#[test]
fn keyer_events_update_snapshot() {
    let s = KeyerSnapshot { wpm: 25, keying: false, at: noon() };
    let s = apply_keyer_event(s, KeyerEvent::StatusChanged { busy: true });
    assert!(s.keying);
    let s = apply_keyer_event(s, KeyerEvent::SpeedPotChanged { wpm: 30 });
    assert_eq!(s.wpm, 30);
    assert!(s.keying);
    let s2 = apply_keyer_event(s, KeyerEvent::Other);
    assert_eq!((s2.wpm, s2.keying, s2.at), (s.wpm, s.keying, s.at));
}
