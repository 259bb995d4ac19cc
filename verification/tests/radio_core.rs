use slogger::ids::{OperatingSessionId, OperatorId, QsoId, StationLocationId};
use slogger::value::{Band, Callsign, CallsignError, FieldSource, Mode};
use slogger::wpx::wpx_prefix;

#[test]
fn ids_are_distinct() {
    let a = QsoId::new();
    let b = QsoId::new();
    assert_ne!(a, b);
}

#[test]
fn new_ids_carry_v4_version_and_variant() {
    let mask: u128 = 0xF000_C000_0000_0000_0000;
    let marks: u128 = 0x4000_8000_0000_0000_0000;
    assert_eq!(QsoId::new().as_uuid() & mask, marks);
    assert_eq!(OperatorId::new().as_uuid() & mask, marks);
    assert_eq!(StationLocationId::new().as_uuid() & mask, marks);
    assert_eq!(OperatingSessionId::new().as_uuid() & mask, marks);
}

#[test]
fn ids_roundtrip_through_uuid() {
    let id = QsoId::new();
    let uuid = id.as_uuid();
    assert_eq!(id, QsoId::from_uuid(uuid));
}

#[test]
fn callsign_uppercases() {
    let c = Callsign::parse("w1aw").unwrap();
    assert_eq!(c.as_str(), "W1AW");
}

#[test]
fn callsign_allows_slash_for_portable() {
    let c = Callsign::parse("VE3/W1AW").unwrap();
    assert_eq!(c.as_str(), "VE3/W1AW");
}

#[test]
fn callsign_rejects_empty() {
    assert!(matches!(Callsign::parse("   "), Err(CallsignError::Empty)));
}

#[test]
fn callsign_rejects_invalid_chars() {
    assert!(matches!(
        Callsign::parse("W1AW!"),
        Err(CallsignError::InvalidChar('!'))
    ));
}

#[test]
fn callsign_rejects_overlong_input() {
    assert!(matches!(
        Callsign::parse("ABCDEFGHIJKLMNOPQRSTU"),
        Err(CallsignError::TooLong(21))
    ));
}

#[test]
fn callsign_is_trimmed_before_checks() {
    let c = Callsign::parse("  k1abc ").unwrap();
    assert_eq!(c.as_str(), "K1ABC");
}

#[test]
fn band_from_freq_classifies_20m() {
    assert_eq!(Band::from_freq_hz(14_074_000), Some(Band::M20));
}

#[test]
fn band_from_freq_edges() {
    assert_eq!(Band::from_freq_hz(14_000_000), Some(Band::M20));
    assert_eq!(Band::from_freq_hz(14_350_000), Some(Band::M20));
    assert_eq!(Band::from_freq_hz(14_350_999), Some(Band::M20));
    assert_eq!(Band::from_freq_hz(14_351_000), None);
    assert_eq!(Band::from_freq_hz(7_074_000), Some(Band::M40));
    assert_eq!(Band::from_freq_hz(0), None);
    assert_eq!(Band::from_freq_hz(-5), None);
}

#[test]
fn band_adif_roundtrip() {
    for band in [Band::M160, Band::M40, Band::M20, Band::M2, Band::Cm70] {
        let adif = band.as_adif();
        assert_eq!(Band::from_adif(adif), Some(band));
    }
}

#[test]
fn band_from_adif_is_case_insensitive_and_rejects_unknown() {
    assert_eq!(Band::from_adif("20m"), Some(Band::M20));
    assert_eq!(Band::from_adif("70CM"), Some(Band::Cm70));
    assert_eq!(Band::from_adif("21M"), None);
}

#[test]
fn mode_from_adif_normalizes_ssb() {
    assert_eq!(Mode::from_adif("USB"), Mode::SSB);
    assert_eq!(Mode::from_adif("LSB"), Mode::SSB);
}

#[test]
fn mode_from_adif_keeps_unknown_modes() {
    assert_eq!(Mode::from_adif("ft8"), Mode::FT8);
    assert_eq!(Mode::from_adif("SSTV"), Mode::Other("SSTV".to_string()));
    assert_eq!(Mode::FT8.as_adif(), "FT8");
}

#[test]
fn field_source_storage_roundtrip() {
    let original = FieldSource::ServiceSync("lotw".into());
    let stored = original.as_storage_str();
    assert_eq!(FieldSource::parse_storage(&stored), original);
}

#[test]
fn field_source_plain_variants_roundtrip() {
    for original in [
        FieldSource::OperatorEntered,
        FieldSource::RigDerived,
        FieldSource::ImportedAdif,
        FieldSource::StationDataResolved,
        FieldSource::ManualOverride,
    ] {
        let stored = original.as_storage_str();
        assert_eq!(FieldSource::parse_storage(&stored), original);
    }
}

#[test]
fn simple_calls() {
    assert_eq!(wpx_prefix("W1AW").as_deref(), Some("W1"));
    assert_eq!(wpx_prefix("K1ABC").as_deref(), Some("K1"));
    assert_eq!(wpx_prefix("VE3XYZ").as_deref(), Some("VE3"));
    assert_eq!(wpx_prefix("WA6XYZ").as_deref(), Some("WA6"));
}

#[test]
fn calls_with_digit_in_prefix() {
    assert_eq!(wpx_prefix("9V1A").as_deref(), Some("9V1"));
    assert_eq!(wpx_prefix("4U1ITU").as_deref(), Some("4U1"));
}

#[test]
fn lower_case_normalized() {
    assert_eq!(wpx_prefix("w1aw").as_deref(), Some("W1"));
}

#[test]
fn digit_suffix_overrides_call_area() {
    assert_eq!(wpx_prefix("K1ABC/0").as_deref(), Some("K0"));
    assert_eq!(wpx_prefix("W1AW/3").as_deref(), Some("W3"));
    assert_eq!(wpx_prefix("WA6XYZ/4").as_deref(), Some("WA4"));
}

#[test]
fn qualifier_suffixes_ignored() {
    assert_eq!(wpx_prefix("W1AW/M").as_deref(), Some("W1"));
    assert_eq!(wpx_prefix("W1AW/MM").as_deref(), Some("W1"));
    assert_eq!(wpx_prefix("W1AW/AM").as_deref(), Some("W1"));
    assert_eq!(wpx_prefix("W1AW/P").as_deref(), Some("W1"));
    assert_eq!(wpx_prefix("K1ABC/QRP").as_deref(), Some("K1"));
}

#[test]
fn prefix_override_uses_shorter_side() {
    assert_eq!(wpx_prefix("VE3X/W1").as_deref(), Some("W1"));
    assert_eq!(wpx_prefix("M0/W1AW").as_deref(), Some("M0"));
    assert_eq!(wpx_prefix("9V1/W1AW").as_deref(), Some("9V1"));
}

#[test]
fn qualifier_combined_with_call_area_change() {
    assert_eq!(wpx_prefix("K1ABC/4/M").as_deref(), Some("K4"));
}

#[test]
fn empty_returns_none() {
    assert_eq!(wpx_prefix(""), None);
    assert_eq!(wpx_prefix("/"), None);
    assert_eq!(wpx_prefix("   "), None);
}

#[test]
fn trailing_slash_is_tolerated() {
    assert_eq!(wpx_prefix("W1AW/").as_deref(), Some("W1"));
}

#[test]
fn digitless_prefix_appends_zero() {
    assert_eq!(wpx_prefix("ABCD").as_deref(), Some("ABCD0"));
}

#[test]
fn wpx_prefix_shape_and_case() {
    for call in ["W1AW", "ve3xyz/p", "M0/w1aw", "w1aw/3", "RAEM", "9v1a", "K1ABC/VE3"] {
        let p = wpx_prefix(call).unwrap();
        assert!(!p.is_empty());
        assert!(p.chars().all(|c| c.is_ascii_uppercase() || c.is_ascii_digit()));
        assert!(p.ends_with(|c: char| c.is_ascii_digit()));
        assert_eq!(wpx_prefix(&call.to_ascii_lowercase()), wpx_prefix(call));
    }
}
