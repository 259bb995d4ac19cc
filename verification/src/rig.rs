//! Rig control: which driver a configured radio needs, how modes map
//! between ADIF and the rig, what the rig's events do to the snapshot the
//! UI shows, and how reconnect attempts back off.
use vstd::prelude::*;

use crate::datetime::UtcDateTime;
use crate::text::{chars_eq_str, chars_of, lower_chars, lower_seq, string_from_chars, upper_chars, upper_seq};
use crate::value::string_of;

verus! {

/// A radio to connect to: vendor, model, serial port (serial vendors)
/// or host (FlexRadio).
#[derive(Debug, Clone)]
pub struct RigConfig {
    pub vendor: String,
    pub model: String,
    pub serial_port: String,
    pub baud_rate: Option<u32>,
    pub host: Option<String>,
}

/// What the UI knows of a rig: which one, its frequency and mode, and
/// when it last changed.
#[derive(Debug, Clone)]
pub struct RigSnapshot {
    pub vendor: String,
    pub model: String,
    pub freq_hz: Option<u64>,
    pub mode: Option<String>,
    pub at: UtcDateTime,
}

/// Why a rig could not be connected.
#[derive(Debug, Clone)]
pub enum ConnectError {
    UnknownVendor(String),
    UnknownModel { vendor: String, model: String },
    Build(String),
    Subscribe(String),
    MissingConfig(&'static str),
}

pub open spec fn connect_error_text(e: ConnectError) -> Seq<char> {
    match e {
        ConnectError::UnknownVendor(v) => "unknown vendor: "@ + v@,
        ConnectError::UnknownModel { vendor, model } => "unknown "@ + vendor@ + " model: "@ + model@,
        ConnectError::Build(s) => "riglib build error: "@ + s@,
        ConnectError::Subscribe(s) => "riglib subscribe error: "@ + s@,
        ConnectError::MissingConfig(f) => "missing required config field: "@ + f@,
    }
}

impl ConnectError {
    /// The error's message, as its `Display` would write it.
    pub fn message(&self) -> (r: String)
        ensures
            r@ == connect_error_text(*self),
    {
        match self {
            ConnectError::UnknownVendor(v) => {
                let mut r = string_of("unknown vendor: ");
                r.append(v.as_str());
                r
            },
            ConnectError::UnknownModel { vendor, model } => {
                let mut r = string_of("unknown ");
                r.append(vendor.as_str());
                r.append(" model: ");
                r.append(model.as_str());
                r
            },
            ConnectError::Build(s) => {
                let mut r = string_of("riglib build error: ");
                r.append(s.as_str());
                r
            },
            ConnectError::Subscribe(s) => {
                let mut r = string_of("riglib subscribe error: ");
                r.append(s.as_str());
                r
            },
            ConnectError::MissingConfig(f) => {
                let mut r = string_of("missing required config field: ");
                r.append(f);
                r
            },
        }
    }
}

/// Why a command to the rig failed.
#[derive(Debug, Clone)]
pub enum CommandError {
    SetFailed(String),
    UnsupportedMode(String),
}

pub open spec fn command_error_text(e: CommandError) -> Seq<char> {
    match e {
        CommandError::SetFailed(s) => "rig command failed: "@ + s@,
        CommandError::UnsupportedMode(s) => "unsupported mode: "@ + s@,
    }
}

impl CommandError {
    /// The error's message, as its `Display` would write it.
    pub fn message(&self) -> (r: String)
        ensures
            r@ == command_error_text(*self),
    {
        match self {
            CommandError::SetFailed(s) => {
                let mut r = string_of("rig command failed: ");
                r.append(s.as_str());
                r
            },
            CommandError::UnsupportedMode(s) => {
                let mut r = string_of("unsupported mode: ");
                r.append(s.as_str());
                r
            },
        }
    }
}

/// The operating modes a rig driver knows.
#[derive(Debug, Clone, Copy, PartialEq, Eq, Structural)]
pub enum RigMode {
    USB,
    LSB,
    CW,
    CWR,
    AM,
    FM,
    RTTY,
    RTTYR,
    DataUSB,
    DataLSB,
    DataFM,
    DataAM,
}

/// The rig mode an ADIF mode asks for (any case). SSB is not mapped: it
/// is USB or LSB by band, and guessing is wrong half the time. Digital
/// modes run as USB data, as WSJT-X expects.
pub open spec fn rig_mode_of(s: Seq<char>) -> Option<RigMode> {
    let u = upper_seq(s);
    if u == "USB"@ {
        Some(RigMode::USB)
    } else if u == "LSB"@ {
        Some(RigMode::LSB)
    } else if u == "CW"@ {
        Some(RigMode::CW)
    } else if u == "CWR"@ {
        Some(RigMode::CWR)
    } else if u == "AM"@ {
        Some(RigMode::AM)
    } else if u == "FM"@ {
        Some(RigMode::FM)
    } else if u == "RTTY"@ {
        Some(RigMode::RTTY)
    } else if u == "FT8"@ || u == "FT4"@ || u == "PSK"@ || u == "JT65"@ || u == "JT9"@ || u
        == "JS8"@ || u == "MFSK"@ || u == "OLIVIA"@ || u == "DIGITAL"@ || u == "DIGITALUSB"@ || u
        == "DATA"@ || u == "DATA-U"@ {
        Some(RigMode::DataUSB)
    } else if u == "DATA-L"@ || u == "DIGITALLSB"@ {
        Some(RigMode::DataLSB)
    } else {
        None
    }
}

pub fn mode_from_adif(s: &str) -> (r: Option<RigMode>)
    ensures
        r == rig_mode_of(s@),
{
    let u = upper_chars(&chars_of(s));
    let u = u.as_slice();
    if chars_eq_str(u, "USB") {
        Some(RigMode::USB)
    } else if chars_eq_str(u, "LSB") {
        Some(RigMode::LSB)
    } else if chars_eq_str(u, "CW") {
        Some(RigMode::CW)
    } else if chars_eq_str(u, "CWR") {
        Some(RigMode::CWR)
    } else if chars_eq_str(u, "AM") {
        Some(RigMode::AM)
    } else if chars_eq_str(u, "FM") {
        Some(RigMode::FM)
    } else if chars_eq_str(u, "RTTY") {
        Some(RigMode::RTTY)
    } else if chars_eq_str(u, "FT8") || chars_eq_str(u, "FT4") || chars_eq_str(u, "PSK")
        || chars_eq_str(u, "JT65") || chars_eq_str(u, "JT9") || chars_eq_str(u, "JS8")
        || chars_eq_str(u, "MFSK") || chars_eq_str(u, "OLIVIA") || chars_eq_str(u, "DIGITAL")
        || chars_eq_str(u, "DIGITALUSB") || chars_eq_str(u, "DATA") || chars_eq_str(u, "DATA-U") {
        Some(RigMode::DataUSB)
    } else if chars_eq_str(u, "DATA-L") || chars_eq_str(u, "DIGITALLSB") {
        Some(RigMode::DataLSB)
    } else {
        None
    }
}

/// The ADIF-like name the UI shows for a rig mode. Reversed and data
/// variants fold into their family.
pub open spec fn rig_mode_text(m: RigMode) -> Seq<char> {
    match m {
        RigMode::CW | RigMode::CWR => "CW"@,
        RigMode::USB => "USB"@,
        RigMode::LSB => "LSB"@,
        RigMode::AM => "AM"@,
        RigMode::FM => "FM"@,
        RigMode::RTTY | RigMode::RTTYR => "RTTY"@,
        RigMode::DataUSB | RigMode::DataLSB | RigMode::DataFM | RigMode::DataAM => "DIGITAL"@,
    }
}

pub fn mode_to_str(m: RigMode) -> (r: String)
    ensures
        r@ == rig_mode_text(m),
{
    match m {
        RigMode::CW | RigMode::CWR => string_of("CW"),
        RigMode::USB => string_of("USB"),
        RigMode::LSB => string_of("LSB"),
        RigMode::AM => string_of("AM"),
        RigMode::FM => string_of("FM"),
        RigMode::RTTY | RigMode::RTTYR => string_of("RTTY"),
        RigMode::DataUSB | RigMode::DataLSB | RigMode::DataFM | RigMode::DataAM => string_of(
            "DIGITAL",
        ),
    }
}

/// A rig event, as far as the snapshot cares.
#[derive(Debug, Clone, Copy)]
pub enum RigEvent {
    FrequencyChanged(u64),
    ModeChanged(RigMode),
    Other,
}

/// A frequency change sets the frequency, a mode change the mode (by its
/// shown name); other events leave the snapshot as it is.
pub fn apply_event(s: &mut RigSnapshot, ev: RigEvent)
    ensures
        final(s).vendor == old(s).vendor,
        final(s).model == old(s).model,
        final(s).at == old(s).at,
        match ev {
            RigEvent::FrequencyChanged(hz) => final(s).freq_hz == Some(hz) && final(s).mode == old(
                s,
            ).mode,
            RigEvent::ModeChanged(m) => final(s).freq_hz == old(s).freq_hz && (final(s).mode matches Some(
                t,
            ) && t@ == rig_mode_text(m)),
            RigEvent::Other => final(s).freq_hz == old(s).freq_hz && final(s).mode == old(s).mode,
        },
{
    match ev {
        RigEvent::FrequencyChanged(hz) => {
            s.freq_hz = Some(hz);
        },
        RigEvent::ModeChanged(m) => {
            s.mode = Some(mode_to_str(m));
        },
        RigEvent::Other => {},
    }
}

/// The wait before the next reconnect attempt: double the last one, at
/// most 30 seconds.
pub fn next_backoff(secs: u64) -> (r: u64)
    requires
        secs <= u64::MAX / 2,
    ensures
        r == if secs * 2 < 30 {
            secs * 2
        } else {
            30
        },
{
    if secs * 2 < 30 {
        secs * 2
    } else {
        30
    }
}

/// Starting from one second, the waits stay between one and 30 seconds
/// and never shrink.
pub proof fn law_backoff_bounded(secs: u64)
    requires
        1 <= secs <= 30,
    ensures
        secs <= (if secs * 2 < 30 {
            secs * 2
        } else {
            30
        }) <= 30,
{
}

/// Rig vendors with a driver.
#[derive(Debug, Clone, Copy, PartialEq, Eq, Structural)]
pub enum Vendor {
    Icom,
    Yaesu,
    Kenwood,
    Elecraft,
    Flex,
}

/// `s` lower-cased and without hyphens, as model names are compared.
pub open spec fn normalized(s: Seq<char>) -> Seq<char>
    decreases s.len(),
{
    if s.len() == 0 {
        seq![]
    } else {
        let rest = normalized(s.drop_last());
        let c = lower_seq(seq![s.last()])[0];
        if s.last() == '-' {
            rest
        } else {
            rest.push(c)
        }
    }
}

pub fn normalize(name: &str) -> (r: Vec<char>)
    ensures
        r@ == normalized(name@),
{
    let c = chars_of(name);
    let l = lower_chars(&c);
    let mut r: Vec<char> = Vec::new();
    let mut k: usize = 0;
    while k < c.len()
        invariant
            k <= c.len(),
            c@ == name@,
            l@ == lower_seq(c@),
            r@ == normalized(c@.take(k as int)),
        decreases c.len() - k,
    {
        assert(c@.take(k + 1).drop_last() =~= c@.take(k as int));
        assert(lower_seq(seq![c@[k as int]])[0] == l@[k as int]);
        if c[k] != '-' {
            r.push(l[k]);
        }
        k = k + 1;
    }
    assert(c@.take(c.len() as int) =~= c@);
    r
}

/// The driver of a vendor name (any case).
pub open spec fn vendor_of(s: Seq<char>) -> Option<Vendor> {
    let l = lower_seq(s);
    if l == "icom"@ {
        Some(Vendor::Icom)
    } else if l == "yaesu"@ {
        Some(Vendor::Yaesu)
    } else if l == "kenwood"@ {
        Some(Vendor::Kenwood)
    } else if l == "elecraft"@ {
        Some(Vendor::Elecraft)
    } else if l == "flex"@ {
        Some(Vendor::Flex)
    } else {
        None
    }
}

pub fn parse_vendor(s: &str) -> (r: Result<Vendor, ConnectError>)
    ensures
        match vendor_of(s@) {
            Some(v) => r == Ok::<Vendor, ConnectError>(v),
            None => r matches Err(ConnectError::UnknownVendor(x)) && x@ == lower_seq(s@),
        },
{
    let l = lower_chars(&chars_of(s));
    if chars_eq_str(l.as_slice(), "icom") {
        Ok(Vendor::Icom)
    } else if chars_eq_str(l.as_slice(), "yaesu") {
        Ok(Vendor::Yaesu)
    } else if chars_eq_str(l.as_slice(), "kenwood") {
        Ok(Vendor::Kenwood)
    } else if chars_eq_str(l.as_slice(), "elecraft") {
        Ok(Vendor::Elecraft)
    } else if chars_eq_str(l.as_slice(), "flex") {
        Ok(Vendor::Flex)
    } else {
        Err(ConnectError::UnknownVendor(string_from_chars(l.as_slice())))
    }
}

/// The name of a vendor as error messages give it.
pub open spec fn vendor_text(v: Vendor) -> Seq<char> {
    match v {
        Vendor::Icom => "icom"@,
        Vendor::Yaesu => "yaesu"@,
        Vendor::Kenwood => "kenwood"@,
        Vendor::Elecraft => "elecraft"@,
        Vendor::Flex => "flex"@,
    }
}

/// The models each driver supports, by normalized name, as an index into
/// the driver's own model list.
pub open spec fn model_table(v: Vendor) -> Seq<(Seq<char>, u8)> {
    match v {
        Vendor::Icom => seq![
            ("ic7300"@, 0u8), ("ic7300mk2"@, 1u8), ("ic7610"@, 2u8), ("ic7600"@, 3u8),
            ("ic7700"@, 4u8), ("ic7800"@, 5u8), ("ic7850"@, 6u8), ("ic7851"@, 7u8),
            ("ic9700"@, 8u8), ("ic705"@, 9u8), ("ic7100"@, 10u8), ("ic9100"@, 11u8),
            ("ic7410"@, 12u8), ("ic905"@, 13u8),
        ],
        Vendor::Yaesu => seq![
            ("ftdx10"@, 0u8), ("ft891"@, 1u8), ("ft991a"@, 2u8), ("ftdx101d"@, 3u8),
            ("ftdx101mp"@, 4u8), ("ft710"@, 5u8),
        ],
        Vendor::Kenwood => seq![("ts590s"@, 0u8), ("ts590sg"@, 1u8), ("ts990s"@, 2u8), ("ts890s"@, 3u8)],
        Vendor::Elecraft => seq![("k3"@, 0u8), ("k3s"@, 1u8), ("k4"@, 2u8), ("kx2"@, 3u8), ("kx3"@, 4u8)],
        Vendor::Flex => seq![
            ("6400"@, 0u8), ("flex6400"@, 0u8), ("6400m"@, 1u8), ("flex6400m"@, 1u8),
            ("6600"@, 2u8), ("flex6600"@, 2u8), ("6600m"@, 3u8), ("flex6600m"@, 3u8),
            ("6700"@, 4u8), ("flex6700"@, 4u8), ("8400"@, 5u8), ("flex8400"@, 5u8),
            ("8600"@, 6u8), ("flex8600"@, 6u8),
        ],
    }
}

fn model_table_vec(v: Vendor) -> (r: Vec<(&'static str, u8)>)
    ensures
        r@.map_values(|e: (&'static str, u8)| (e.0@, e.1)) == model_table(v),
{
    let r = match v {
        Vendor::Icom => vec![
            ("ic7300", 0u8), ("ic7300mk2", 1u8), ("ic7610", 2u8), ("ic7600", 3u8),
            ("ic7700", 4u8), ("ic7800", 5u8), ("ic7850", 6u8), ("ic7851", 7u8),
            ("ic9700", 8u8), ("ic705", 9u8), ("ic7100", 10u8), ("ic9100", 11u8),
            ("ic7410", 12u8), ("ic905", 13u8),
        ],
        Vendor::Yaesu => vec![
            ("ftdx10", 0u8), ("ft891", 1u8), ("ft991a", 2u8), ("ftdx101d", 3u8),
            ("ftdx101mp", 4u8), ("ft710", 5u8),
        ],
        Vendor::Kenwood => vec![("ts590s", 0u8), ("ts590sg", 1u8), ("ts990s", 2u8), ("ts890s", 3u8)],
        Vendor::Elecraft => vec![("k3", 0u8), ("k3s", 1u8), ("k4", 2u8), ("kx2", 3u8), ("kx3", 4u8)],
        Vendor::Flex => vec![
            ("6400", 0u8), ("flex6400", 0u8), ("6400m", 1u8), ("flex6400m", 1u8),
            ("6600", 2u8), ("flex6600", 2u8), ("6600m", 3u8), ("flex6600m", 3u8),
            ("6700", 4u8), ("flex6700", 4u8), ("8400", 5u8), ("flex8400", 5u8),
            ("8600", 6u8), ("flex8600", 6u8),
        ],
    };
    assert(r@.map_values(|e: (&'static str, u8)| (e.0@, e.1)) =~= model_table(v));
    r
}

/// The entry of the first row named `k`.
pub open spec fn name_find(t: Seq<(Seq<char>, u8)>, k: Seq<char>) -> Option<u8>
    decreases t.len(),
{
    if t.len() == 0 {
        None
    } else if t[0].0 == k {
        Some(t[0].1)
    } else {
        name_find(t.drop_first(), k)
    }
}

/// The model of a vendor's driver that a configured name means.
pub open spec fn model_of(v: Vendor, name: Seq<char>) -> Option<u8> {
    name_find(model_table(v), normalized(name))
}

/// Look up a vendor's model by name, without regard to case or hyphens.
pub fn lookup_model(v: Vendor, name: &str) -> (r: Result<u8, ConnectError>)
    ensures
        match model_of(v, name@) {
            Some(m) => r == Ok::<u8, ConnectError>(m),
            None => r matches Err(ConnectError::UnknownModel { vendor, model }) && vendor@
                == vendor_text(v) && model@ == name@,
        },
{
    let key = normalize(name);
    let t = model_table_vec(v);
    let ghost tv = t@.map_values(|e: (&'static str, u8)| (e.0@, e.1));
    let mut i: usize = 0;
    assert(tv.skip(0) =~= tv);
    while i < t.len()
        invariant
            i <= t.len(),
            tv == t@.map_values(|e: (&'static str, u8)| (e.0@, e.1)),
            tv == model_table(v),
            key@ == normalized(name@),
            name_find(tv, key@) == name_find(tv.skip(i as int), key@),
        decreases t.len() - i,
    {
        assert(tv.skip(i as int)[0] == (t@[i as int].0@, t@[i as int].1));
        if chars_eq_str(key.as_slice(), t[i].0) {
            return Ok(t[i].1);
        }
        assert(tv.skip(i as int).drop_first() =~= tv.skip(i + 1));
        i = i + 1;
    }
    let vendor = match v {
        Vendor::Icom => string_of("icom"),
        Vendor::Yaesu => string_of("yaesu"),
        Vendor::Kenwood => string_of("kenwood"),
        Vendor::Elecraft => string_of("elecraft"),
        Vendor::Flex => string_of("flex"),
    };
    Err(ConnectError::UnknownModel { vendor, model: string_of(name) })
}

/// How to build the driver of a configured rig.
#[derive(Debug, Clone)]
pub enum BuildPlan {
    Serial { vendor: Vendor, model: u8, serial_port: String, baud_rate: Option<u32> },
    Flex { model: u8, host: String },
}

/// The build plan of a rig: its vendor's driver and model; a serial port
/// and baud rate for serial vendors, a host for FlexRadio.
pub fn plan_build(cfg: &RigConfig) -> (r: Result<BuildPlan, ConnectError>)
    ensures
        match vendor_of(cfg.vendor@) {
            None => r matches Err(ConnectError::UnknownVendor(x)) && x@ == lower_seq(cfg.vendor@),
            Some(v) => match model_of(v, cfg.model@) {
                None => r matches Err(ConnectError::UnknownModel { vendor, model }) && vendor@
                    == vendor_text(v) && model@ == cfg.model@,
                Some(m) => if v == Vendor::Flex {
                    match cfg.host {
                        Some(h) => r matches Ok(BuildPlan::Flex { model, host }) && model == m
                            && host@ == h@,
                        None => r matches Err(ConnectError::MissingConfig(f)) && f@ == "host"@,
                    }
                } else {
                    r matches Ok(BuildPlan::Serial { vendor, model, serial_port, baud_rate })
                        && vendor == v && model == m && serial_port@ == cfg.serial_port@
                        && baud_rate == cfg.baud_rate
                },
            },
        },
{
    let v = parse_vendor(cfg.vendor.as_str())?;
    let m = lookup_model(v, cfg.model.as_str())?;
    match v {
        Vendor::Flex => match &cfg.host {
            Some(h) => Ok(BuildPlan::Flex { model: m, host: string_of(h.as_str()) }),
            None => Err(ConnectError::MissingConfig("host")),
        },
        _ => Ok(
            BuildPlan::Serial {
                vendor: v,
                model: m,
                serial_port: string_of(cfg.serial_port.as_str()),
                baud_rate: cfg.baud_rate,
            },
        ),
    }
}

} // verus!
