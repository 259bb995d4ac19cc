//! CW keyer (WinKeyer): the speed it starts at and what its events do to
//! the snapshot the UI shows.
use vstd::prelude::*;

use crate::datetime::UtcDateTime;
use crate::value::string_of;

verus! {

/// The keyer's serial port and starting speed in words per minute.
#[derive(Debug, Clone)]
pub struct KeyerConfig {
    pub serial_port: String,
    pub initial_wpm: u8,
}

/// What the UI shows of the keyer: its speed and whether it is sending.
#[derive(Debug, Clone, Copy)]
pub struct KeyerSnapshot {
    pub wpm: u8,
    pub keying: bool,
    pub at: UtcDateTime,
}

/// Why the keyer could not be connected.
#[derive(Debug, Clone)]
pub enum ConnectError {
    Build(String),
}

/// Why a keyer command failed.
#[derive(Debug, Clone)]
pub enum CommandError {
    Command(String),
}

impl ConnectError {
    /// The error's message, as its `Display` would write it.
    pub fn message(&self) -> (r: String)
        ensures
            match *self {
                ConnectError::Build(s) => r@ == "winkey build error: "@ + s@,
            },
    {
        match self {
            ConnectError::Build(s) => {
                let mut r = string_of("winkey build error: ");
                r.append(s.as_str());
                r
            },
        }
    }
}

impl CommandError {
    /// The error's message, as its `Display` would write it.
    pub fn message(&self) -> (r: String)
        ensures
            match *self {
                CommandError::Command(s) => r@ == "keyer command failed: "@ + s@,
            },
    {
        match self {
            CommandError::Command(s) => {
                let mut r = string_of("keyer command failed: ");
                r.append(s.as_str());
                r
            },
        }
    }
}

/// The speed the keyer is started at: the configured one, kept between 5
/// and 50 words per minute.
pub fn start_wpm(cfg: &KeyerConfig) -> (r: u8)
    ensures
        r == if cfg.initial_wpm < 5 {
            5
        } else if cfg.initial_wpm > 50 {
            50
        } else {
            cfg.initial_wpm
        },
        5 <= r <= 50,
{
    if cfg.initial_wpm < 5 {
        5
    } else if cfg.initial_wpm > 50 {
        50
    } else {
        cfg.initial_wpm
    }
}

/// An event of the keyer, as far as the snapshot cares.
#[derive(Debug, Clone, Copy)]
pub enum KeyerEvent {
    StatusChanged { busy: bool },
    SpeedPotChanged { wpm: u8 },
    Other,
}

/// A status change says whether the keyer is sending, a speed-pot change
/// sets the speed; other events leave the snapshot as it is.
pub fn apply_keyer_event(s: KeyerSnapshot, ev: KeyerEvent) -> (r: KeyerSnapshot)
    ensures
        r.at == s.at,
        match ev {
            KeyerEvent::StatusChanged { busy } => r.keying == busy && r.wpm == s.wpm,
            KeyerEvent::SpeedPotChanged { wpm } => r.wpm == wpm && r.keying == s.keying,
            KeyerEvent::Other => r == s,
        },
{
    match ev {
        KeyerEvent::StatusChanged { busy } => KeyerSnapshot { keying: busy, ..s },
        KeyerEvent::SpeedPotChanged { wpm } => KeyerSnapshot { wpm, ..s },
        KeyerEvent::Other => s,
    }
}

} // verus!
