//! The texts of the operating screen's header and station pane: pending
//! counts, session, keyer and its macros, SO2R switch, WSJT-X listener,
//! and the rows of rigs without a reading.
use vstd::prelude::*;

use crate::keyer::KeyerSnapshot;
use crate::so2r::So2rSnapshot;
use crate::text::{dec, dec_string, str_trim, trim};
use crate::value::string_of;

verus! {

/// `Lx · Ey · Cz · Qv · Hw`: what waits for each service.
pub fn pending_pills(lotw: usize, eqsl: usize, clublog: usize, qrz: usize, hrdlog: usize) -> (r: String)
    ensures
        r@ == "L"@ + dec(lotw as nat) + " · E"@ + dec(eqsl as nat) + " · C"@ + dec(clublog as nat)
            + " · Q"@ + dec(qrz as nat) + " · H"@ + dec(hrdlog as nat),
{
    let mut r = string_of("L");
    r.append(dec_string(lotw as u64).as_str());
    r.append(" · E");
    r.append(dec_string(eqsl as u64).as_str());
    r.append(" · C");
    r.append(dec_string(clublog as u64).as_str());
    r.append(" · Q");
    r.append(dec_string(qrz as u64).as_str());
    r.append(" · H");
    r.append(dec_string(hrdlog as u64).as_str());
    r
}

/// `Session · NAME`, or that no station is chosen.
pub fn session_text(station_name: Option<&str>) -> (r: String)
    ensures
        r@ == match station_name {
            Some(n) => "Session · "@ + n@,
            None => "Session · (no station)"@,
        },
{
    match station_name {
        Some(n) => {
            let mut r = string_of("Session · ");
            r.append(n);
            r
        },
        None => string_of("Session · (no station)"),
    }
}

/// The keyer line: its speed when connected, else why it is not, else
/// that it is off.
pub fn keyer_label(active: bool, snap: Option<&KeyerSnapshot>, status: Option<&str>) -> (r: String)
    ensures
        r@ == if active {
            "Keyer · "@ + dec(
                match snap {
                    Some(s) => s.wpm,
                    None => 0u8,
                } as nat,
            ) + " WPM"@
        } else {
            match status {
                Some(s) => s@,
                None => "Keyer off"@,
            }
        },
{
    if active {
        let wpm: u8 = match snap {
            Some(s) => s.wpm,
            None => 0,
        };
        let mut r = string_of("Keyer · ");
        r.append(dec_string(wpm as u64).as_str());
        r.append(" WPM");
        r
    } else {
        match status {
            Some(s) => string_of(s),
            None => string_of("Keyer off"),
        }
    }
}

/// The transmit dot: sending, idle, or no keyer to tell.
#[derive(Debug, Clone, Copy, PartialEq, Eq, Structural)]
pub enum TxIndicator {
    Transmitting,
    Idle,
    NoKeyer,
}

pub fn tx_indicator(active: bool, snap: Option<&KeyerSnapshot>) -> (r: TxIndicator)
    ensures
        r == if (snap matches Some(s) && s.keying) {
            TxIndicator::Transmitting
        } else if active {
            TxIndicator::Idle
        } else {
            TxIndicator::NoKeyer
        },
{
    let keying = match snap {
        Some(s) => s.keying,
        None => false,
    };
    if keying {
        TxIndicator::Transmitting
    } else if active {
        TxIndicator::Idle
    } else {
        TxIndicator::NoKeyer
    }
}

/// The keyer's macros: the CQ call with the operator's own callsign
/// (`<CALL>` when none is known), and, when a callsign is typed, the
/// call to that station.
#[derive(Debug, Clone)]
pub struct KeyerMacros {
    pub cq: String,
    pub his_call: Option<(String, String)>,
}

pub fn keyer_macros(my_call: Option<&str>, call_input: &str) -> (r: KeyerMacros)
    ensures
        ({
            let me = match my_call {
                Some(c) => c@,
                None => "<CALL>"@,
            };
            &&& r.cq@ == "CQ CQ DE "@ + me + " "@ + me + " K"@
            &&& if trim(call_input@).len() == 0 {
                r.his_call is None
            } else {
                r.his_call matches Some((label, text)) && label@ == "→ "@ + trim(call_input@)
                    && text@ == trim(call_input@) + " DE "@ + me
            }
        }),
{
    let me = match my_call {
        Some(c) => string_of(c),
        None => string_of("<CALL>"),
    };
    let mut cq = string_of("CQ CQ DE ");
    cq.append(me.as_str());
    cq.append(" ");
    cq.append(me.as_str());
    cq.append(" K");
    let his = str_trim(call_input);
    let hc = crate::text::chars_of(his);
    let his_call = if hc.len() == 0 {
        None
    } else {
        let mut label = string_of("→ ");
        label.append(his);
        let mut text = string_of(his);
        text.append(" DE ");
        text.append(me.as_str());
        Some((label, text))
    };
    KeyerMacros { cq, his_call }
}

/// The SO2R line: TX radio and audio mode when connected, else why it is
/// not, else that it is off.
pub fn so2r_label(active: bool, snap: Option<&So2rSnapshot>, status: Option<&str>) -> (r: String)
    ensures
        r@ == if active {
            "SO2R · TX:R"@ + dec(
                match snap {
                    Some(s) => s.tx_radio,
                    None => 0u8,
                } as nat,
            ) + " · RX:"@ + match snap {
                Some(s) => s.rx_mode@,
                None => seq![],
            }
        } else {
            match status {
                Some(s) => s@,
                None => "SO2R off"@,
            }
        },
{
    if active {
        let tx: u8 = match snap {
            Some(s) => s.tx_radio,
            None => 0,
        };
        let mut r = string_of("SO2R · TX:R");
        r.append(dec_string(tx as u64).as_str());
        r.append(" · RX:");
        match snap {
            Some(s) => r.append(s.rx_mode.as_str()),
            None => {
                assert(r@ =~= r@ + seq![]);
            },
        }
        r
    } else {
        match status {
            Some(s) => string_of(s),
            None => string_of("SO2R off"),
        }
    }
}

/// The WSJT-X line: the listening address and the QSOs imported, or
/// that it is off.
pub fn wsjtx_label(active: bool, bind_addr: Option<&str>, imported: usize) -> (r: String)
    ensures
        r@ == match (active, bind_addr) {
            (true, Some(a)) => "WSJT-X "@ + a@ + " · auto-imported "@ + dec(imported as nat),
            _ => "WSJT-X off"@,
        },
{
    match (active, bind_addr) {
        (true, Some(a)) => {
            let mut r = string_of("WSJT-X ");
            r.append(a);
            r.append(" · auto-imported ");
            r.append(dec_string(imported as u64).as_str());
            r
        },
        _ => string_of("WSJT-X off"),
    }
}

/// A rig's row before it has reported: the active marker, its label,
/// its model (the label when none), and its status.
pub fn rig_row_without_reading(active: bool, label: &str, model: Option<&str>, status: &str) -> (r: String)
    ensures
        r@ == (if active {
            "▶"@
        } else {
            "  "@
        }) + " "@ + label@ + " ("@ + match model {
            Some(m) => m@,
            None => label@,
        } + ") — "@ + status@,
{
    let mut r = if active {
        string_of("▶")
    } else {
        string_of("  ")
    };
    r.append(" ");
    r.append(label);
    r.append(" (");
    match model {
        Some(m) => r.append(m),
        None => r.append(label),
    }
    r.append(") — ");
    r.append(status);
    r
}

} // verus!
