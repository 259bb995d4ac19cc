use slogger::cty::strip_ssid;
use slogger::dxcc_table::dxcc_id_for_prefix;

#[test]
fn ssid_suffix_stripped() {
    assert_eq!(strip_ssid("W3LPL-2"), "W3LPL");
    assert_eq!(strip_ssid("W1AW"), "W1AW");
}

#[test]
fn ssid_strip_keeps_text_before_first_hyphen() {
    assert_eq!(strip_ssid("-1"), "");
    assert_eq!(strip_ssid("K1TTT-1-2"), "K1TTT");
}

#[test]
fn common_prefixes_resolve() {
    assert_eq!(dxcc_id_for_prefix("K"), Some(291));
    assert_eq!(dxcc_id_for_prefix("W"), Some(291));
    assert_eq!(dxcc_id_for_prefix("VE"), Some(1));
    assert_eq!(dxcc_id_for_prefix("JA"), Some(339));
    assert_eq!(dxcc_id_for_prefix("DL"), Some(230));
    assert_eq!(dxcc_id_for_prefix("G"), Some(223));
    assert_eq!(dxcc_id_for_prefix("VK"), Some(150));
}

#[test]
fn case_insensitive_and_trimmed() {
    assert_eq!(dxcc_id_for_prefix("w"), Some(291));
    assert_eq!(dxcc_id_for_prefix(" JA "), Some(339));
}

#[test]
fn unknown_returns_none() {
    assert_eq!(dxcc_id_for_prefix("ZZ"), None);
    assert_eq!(dxcc_id_for_prefix(""), None);
}

#[test]
fn alaska_distinct_from_lower_48() {
    assert_eq!(dxcc_id_for_prefix("KL7"), Some(6));
    assert_ne!(dxcc_id_for_prefix("KL7"), dxcc_id_for_prefix("K"));
}

#[test]
fn hawaii_distinct_from_mainland() {
    assert_eq!(dxcc_id_for_prefix("KH6"), Some(110));
    assert_ne!(dxcc_id_for_prefix("KH6"), dxcc_id_for_prefix("K"));
}
