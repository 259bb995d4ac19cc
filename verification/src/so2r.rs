//! SO2R switch (OTRSP): which radio transmits, which one is heard and
//! how, and what the switch's events do to the snapshot the UI shows.
use vstd::prelude::*;

use crate::datetime::UtcDateTime;
use crate::text::{chars_eq_str, chars_of, lower_chars, lower_seq};
use crate::value::string_of;

verus! {

/// The switch's serial port and the settings applied when it connects.
#[derive(Debug, Clone)]
pub struct So2rConfig {
    pub serial_port: String,
    pub initial_tx: Option<u8>,
    pub initial_rx_mode: Option<String>,
}

/// What the UI shows of the switch: the transmitting radio (1 or 2), the
/// radio heard first, and the audio mode (`mono`, `stereo`,
/// `reverse_stereo`).
#[derive(Debug, Clone)]
pub struct So2rSnapshot {
    pub tx_radio: u8,
    pub rx_radio: u8,
    pub rx_mode: String,
    pub at: UtcDateTime,
}

/// Why the switch could not be connected.
#[derive(Debug, Clone)]
pub enum ConnectError {
    Build(String),
}

impl ConnectError {
    /// The error's message, as its `Display` would write it.
    pub fn message(&self) -> (r: String)
        ensures
            match *self {
                ConnectError::Build(s) => r@ == "otrsp build error: "@ + s@,
            },
    {
        match self {
            ConnectError::Build(s) => {
                let mut r = string_of("otrsp build error: ");
                r.append(s.as_str());
                r
            },
        }
    }
}

/// Why a switch command failed.
#[derive(Debug, Clone)]
pub enum CommandError {
    Command(String),
    InvalidRadio(u8),
    InvalidRxMode(String),
}

/// One of the two radios.
#[derive(Debug, Clone, Copy, PartialEq, Eq, Structural)]
pub enum Radio {
    Radio1,
    Radio2,
}

/// How the operator hears the radios.
#[derive(Debug, Clone, Copy, PartialEq, Eq, Structural)]
pub enum RxMode {
    Mono,
    Stereo,
    ReverseStereo,
}

/// Radio 1 or 2 by number; any other number is refused.
pub fn parse_radio(idx: u8) -> (r: Result<Radio, CommandError>)
    ensures
        idx == 1 ==> r == Ok::<Radio, CommandError>(Radio::Radio1),
        idx == 2 ==> r == Ok::<Radio, CommandError>(Radio::Radio2),
        idx != 1 && idx != 2 ==> (r matches Err(CommandError::InvalidRadio(x)) && x == idx),
{
    match idx {
        1 => Ok(Radio::Radio1),
        2 => Ok(Radio::Radio2),
        other => Err(CommandError::InvalidRadio(other)),
    }
}

pub open spec fn radio_number(r: Radio) -> u8 {
    match r {
        Radio::Radio1 => 1,
        Radio::Radio2 => 2,
    }
}

pub fn radio_to_idx(r: Radio) -> (n: u8)
    ensures
        n == radio_number(r),
{
    match r {
        Radio::Radio1 => 1,
        Radio::Radio2 => 2,
    }
}

/// The audio mode a name means (any case); reverse stereo has a few
/// spellings.
pub open spec fn rx_mode_of(s: Seq<char>) -> Option<RxMode> {
    let l = lower_seq(s);
    if l == "mono"@ {
        Some(RxMode::Mono)
    } else if l == "stereo"@ {
        Some(RxMode::Stereo)
    } else if l == "reverse_stereo"@ || l == "reverse-stereo"@ || l == "reverse stereo"@ || l
        == "rev_stereo"@ {
        Some(RxMode::ReverseStereo)
    } else {
        None
    }
}

pub fn parse_rx_mode(s: &str) -> (r: Result<RxMode, CommandError>)
    ensures
        match rx_mode_of(s@) {
            Some(m) => r == Ok::<RxMode, CommandError>(m),
            None => r matches Err(CommandError::InvalidRxMode(x)) && x@ == s@,
        },
{
    let l = lower_chars(&chars_of(s));
    let l = l.as_slice();
    if chars_eq_str(l, "mono") {
        Ok(RxMode::Mono)
    } else if chars_eq_str(l, "stereo") {
        Ok(RxMode::Stereo)
    } else if chars_eq_str(l, "reverse_stereo") || chars_eq_str(l, "reverse-stereo")
        || chars_eq_str(l, "reverse stereo") || chars_eq_str(l, "rev_stereo") {
        Ok(RxMode::ReverseStereo)
    } else {
        Err(CommandError::InvalidRxMode(string_of(s)))
    }
}

pub open spec fn rx_mode_text(m: RxMode) -> Seq<char> {
    match m {
        RxMode::Mono => "mono"@,
        RxMode::Stereo => "stereo"@,
        RxMode::ReverseStereo => "reverse_stereo"@,
    }
}

pub fn rx_mode_to_str(m: RxMode) -> (r: &'static str)
    ensures
        r@ == rx_mode_text(m),
{
    match m {
        RxMode::Mono => "mono",
        RxMode::Stereo => "stereo",
        RxMode::ReverseStereo => "reverse_stereo",
    }
}

/// A radio number read back from its radio is the same number, and a
/// radio read from its number is the same radio.
pub proof fn law_radio_number_round_trip(r: Radio, n: u8)
    ensures
        (n == 1 || n == 2) ==> radio_number(if n == 1 {
            Radio::Radio1
        } else {
            Radio::Radio2
        }) == n,
        radio_number(r) == 1 || radio_number(r) == 2,
{
}

/// The name of an audio mode reads back as that mode.
pub proof fn law_rx_mode_round_trip(m: RxMode)
    ensures
        rx_mode_of(rx_mode_text(m)) == Some(m),
{
    reveal_strlit("mono");
    reveal_strlit("stereo");
    reveal_strlit("reverse_stereo");
    reveal_strlit("reverse-stereo");
    reveal_strlit("reverse stereo");
    reveal_strlit("rev_stereo");
    assert(lower_seq("mono"@) =~= "mono"@);
    assert(lower_seq("stereo"@) =~= "stereo"@);
    assert(lower_seq("reverse_stereo"@) =~= "reverse_stereo"@);
}

/// The snapshot shown before the switch reports anything: the configured
/// TX radio (1 when unset) transmitting and heard, in the configured
/// audio mode (`mono` when unset).
pub fn initial_snapshot(cfg: &So2rConfig, now: UtcDateTime) -> (r: So2rSnapshot)
    ensures
        r.tx_radio == match cfg.initial_tx {
            Some(t) => t,
            None => 1u8,
        },
        r.rx_radio == r.tx_radio,
        r.rx_mode@ == match cfg.initial_rx_mode {
            Some(m) => m@,
            None => "mono"@,
        },
        r.at == now,
{
    let t = match cfg.initial_tx {
        Some(t) => t,
        None => 1,
    };
    let m = match &cfg.initial_rx_mode {
        Some(m) => string_of(m.as_str()),
        None => string_of("mono"),
    };
    So2rSnapshot { tx_radio: t, rx_radio: t, rx_mode: m, at: now }
}

/// The settings applied when the switch connects: the TX radio when a
/// valid one is configured, and the audio mode when a valid one is
/// configured, heard on the TX radio (radio 1 when none is valid).
pub fn initial_commands(cfg: &So2rConfig) -> (r: (Option<Radio>, Option<(Radio, RxMode)>))
    ensures
        r.0 == match cfg.initial_tx {
            Some(1u8) => Some(Radio::Radio1),
            Some(2u8) => Some(Radio::Radio2),
            _ => None::<Radio>,
        },
        r.1 == match cfg.initial_rx_mode {
            Some(s) => match rx_mode_of(s@) {
                Some(m) => Some(
                    (
                        match r.0 {
                            Some(x) => x,
                            None => Radio::Radio1,
                        },
                        m,
                    ),
                ),
                None => None,
            },
            None => None,
        },
{
    let tx = match cfg.initial_tx {
        Some(i) => match parse_radio(i) {
            Ok(r) => Some(r),
            Err(_) => None,
        },
        None => None,
    };
    let rx = match &cfg.initial_rx_mode {
        Some(s) => match parse_rx_mode(s.as_str()) {
            Ok(m) => Some(
                (
                    match tx {
                        Some(x) => x,
                        None => Radio::Radio1,
                    },
                    m,
                ),
            ),
            Err(_) => None,
        },
        None => None,
    };
    (tx, rx)
}

/// An event of the switch, as far as the snapshot cares.
#[derive(Debug, Clone, Copy)]
pub enum SwitchEvent {
    TxChanged(Radio),
    RxChanged(Radio, RxMode),
    Other,
}

/// A TX change sets the TX radio, an RX change the heard radio and the
/// audio mode; other events leave the snapshot as it is.
pub fn apply_switch_event(s: &mut So2rSnapshot, ev: SwitchEvent)
    ensures
        final(s).at == old(s).at,
        match ev {
            SwitchEvent::TxChanged(r) => final(s).tx_radio == radio_number(r) && final(s).rx_radio
                == old(s).rx_radio && final(s).rx_mode == old(s).rx_mode,
            SwitchEvent::RxChanged(r, m) => final(s).tx_radio == old(s).tx_radio
                && final(s).rx_radio == radio_number(r) && final(s).rx_mode@ == rx_mode_text(m),
            SwitchEvent::Other => *final(s) == *old(s),
        },
{
    match ev {
        SwitchEvent::TxChanged(r) => {
            s.tx_radio = radio_to_idx(r);
        },
        SwitchEvent::RxChanged(r, m) => {
            s.rx_radio = radio_to_idx(r);
            s.rx_mode = string_of(rx_mode_to_str(m));
        },
        SwitchEvent::Other => {},
    }
}

} // verus!
