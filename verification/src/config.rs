//! The operator's configuration: station, QSL services, DX cluster,
//! WSJT-X bridge, rigs, keyer and SO2R switch. Each section says when it
//! holds enough to be used. Paths are kept as text.
use vstd::prelude::*;

use crate::text::{chars_eq_str, chars_of};
use crate::value::string_of;

verus! {

/// Why the configuration could not be had.
#[derive(Debug, Clone)]
pub enum ConfigError {
    Io { path: String, error: String },
    Parse { path: String, error: String },
    NoConfigDir,
}

pub open spec fn config_error_text(e: ConfigError) -> Seq<char> {
    match e {
        ConfigError::Io { path, error } => "config file IO error at "@ + path@ + ": "@ + error@,
        ConfigError::Parse { path, error } => "config parse error at "@ + path@ + ": "@ + error@,
        ConfigError::NoConfigDir => "no platform config directory available"@,
    }
}

impl ConfigError {
    /// The error's message, as its `Display` would write it.
    pub fn message(&self) -> (r: String)
        ensures
            r@ == config_error_text(*self),
    {
        match self {
            ConfigError::Io { path, error } => {
                let mut r = string_of("config file IO error at ");
                r.append(path.as_str());
                r.append(": ");
                r.append(error.as_str());
                r
            },
            ConfigError::Parse { path, error } => {
                let mut r = string_of("config parse error at ");
                r.append(path.as_str());
                r.append(": ");
                r.append(error.as_str());
                r
            },
            ConfigError::NoConfigDir => string_of("no platform config directory available"),
        }
    }
}

/// WinKeyer settings.
#[derive(Debug, Clone)]
pub struct KeyerConfig {
    pub enabled: bool,
    pub serial_port: Option<String>,
    pub initial_wpm: Option<u8>,
}

impl Default for KeyerConfig {
    fn default() -> (r: KeyerConfig)
        ensures
            !r.enabled,
            r.serial_port is None,
            r.initial_wpm is None,
    {
        KeyerConfig { enabled: false, serial_port: None, initial_wpm: None }
    }
}

impl KeyerConfig {
    /// Enabled, with a serial port to open.
    pub fn is_configured(&self) -> (r: bool)
        ensures
            r == (self.enabled && self.serial_port is Some),
    {
        self.enabled && self.serial_port.is_some()
    }
}

/// OTRSP SO2R switch settings.
#[derive(Debug, Clone)]
pub struct So2rConfig {
    pub enabled: bool,
    pub serial_port: Option<String>,
    pub initial_tx: Option<u8>,
    pub initial_rx_mode: Option<String>,
}

impl Default for So2rConfig {
    fn default() -> (r: So2rConfig)
        ensures
            !r.enabled,
            r.serial_port is None,
            r.initial_tx is None,
            r.initial_rx_mode is None,
    {
        So2rConfig { enabled: false, serial_port: None, initial_tx: None, initial_rx_mode: None }
    }
}

impl So2rConfig {
    /// Enabled, with a serial port to open.
    pub fn is_configured(&self) -> (r: bool)
        ensures
            r == (self.enabled && self.serial_port is Some),
    {
        self.enabled && self.serial_port.is_some()
    }
}

/// One radio.
#[derive(Debug, Clone)]
pub struct RigConfig {
    pub enabled: bool,
    pub vendor: Option<String>,
    pub model: Option<String>,
    pub serial_port: Option<String>,
    pub baud_rate: Option<u32>,
    pub host: Option<String>,
    pub label: Option<String>,
}

impl Default for RigConfig {
    fn default() -> (r: RigConfig)
        ensures
            !r.enabled,
            r.vendor is None,
            r.model is None,
            r.serial_port is None,
            r.baud_rate is None,
            r.host is None,
            r.label is None,
    {
        RigConfig {
            enabled: false,
            vendor: None,
            model: None,
            serial_port: None,
            baud_rate: None,
            host: None,
            label: None,
        }
    }
}

/// A radio can be connected when it is enabled, its vendor and model are
/// named, and it has a network host (FlexRadio, vendor `flex`) or else a
/// serial port.
pub open spec fn rig_configured(r: RigConfig) -> bool {
    &&& r.enabled
    &&& r.model is Some
    &&& match r.vendor {
        Some(v) => if v@ == "flex"@ {
            r.host is Some
        } else {
            r.serial_port is Some
        },
        None => false,
    }
}

impl RigConfig {
    pub fn is_configured(&self) -> (r: bool)
        ensures
            r == rig_configured(*self),
    {
        if !self.enabled || self.vendor.is_none() || self.model.is_none() {
            return false;
        }
        match &self.vendor {
            Some(v) => {
                if chars_eq_str(chars_of(v.as_str()).as_slice(), "flex") {
                    self.host.is_some()
                } else {
                    self.serial_port.is_some()
                }
            },
            None => false,
        }
    }
}

/// QRZ logbook API key.
#[derive(Debug, Clone)]
pub struct QrzConfig {
    pub api_key: Option<String>,
}

impl Default for QrzConfig {
    fn default() -> (r: QrzConfig)
        ensures
            r.api_key is None,
    {
        QrzConfig { api_key: None }
    }
}

impl QrzConfig {
    pub fn is_configured(&self) -> (r: bool)
        ensures
            r == (self.api_key is Some),
    {
        self.api_key.is_some()
    }
}

/// HRDLog account callsign and upload code.
#[derive(Debug, Clone)]
pub struct HrdlogConfig {
    pub callsign: Option<String>,
    pub code: Option<String>,
}

impl Default for HrdlogConfig {
    fn default() -> (r: HrdlogConfig)
        ensures
            r.callsign is None,
            r.code is None,
    {
        HrdlogConfig { callsign: None, code: None }
    }
}

impl HrdlogConfig {
    pub fn is_configured(&self) -> (r: bool)
        ensures
            r == (self.callsign is Some && self.code is Some),
    {
        self.callsign.is_some() && self.code.is_some()
    }
}

/// The WSJT-X UDP listener.
#[derive(Debug, Clone)]
pub struct WsjtxConfig {
    pub enabled: bool,
    pub bind_addr: String,
}

impl Default for WsjtxConfig {
    /// On, listening where WSJT-X sends by default.
    fn default() -> (r: WsjtxConfig)
        ensures
            r.enabled,
            r.bind_addr@ == "127.0.0.1:2237"@,
    {
        WsjtxConfig { enabled: true, bind_addr: string_of("127.0.0.1:2237") }
    }
}

/// Club Log account email, password and the callsign uploaded.
#[derive(Debug, Clone)]
pub struct ClubLogConfig {
    pub email: Option<String>,
    pub password: Option<String>,
    pub callsign: Option<String>,
}

impl Default for ClubLogConfig {
    fn default() -> (r: ClubLogConfig)
        ensures
            r.email is None,
            r.password is None,
            r.callsign is None,
    {
        ClubLogConfig { email: None, password: None, callsign: None }
    }
}

impl ClubLogConfig {
    pub fn is_configured(&self) -> (r: bool)
        ensures
            r == (self.email is Some && self.password is Some && self.callsign is Some),
    {
        self.email.is_some() && self.password.is_some() && self.callsign.is_some()
    }
}

/// eQSL account.
#[derive(Debug, Clone)]
pub struct EqslConfig {
    pub username: Option<String>,
    pub password: Option<String>,
}

impl Default for EqslConfig {
    fn default() -> (r: EqslConfig)
        ensures
            r.username is None,
            r.password is None,
    {
        EqslConfig { username: None, password: None }
    }
}

impl EqslConfig {
    pub fn is_configured(&self) -> (r: bool)
        ensures
            r == (self.username is Some && self.password is Some),
    {
        self.username.is_some() && self.password.is_some()
    }
}

/// One DX cluster node.
#[derive(Debug, Clone)]
pub struct ClusterSourceConfig {
    pub host: String,
    pub port: u16,
}

/// DX cluster login, nodes and an optional spot filter file.
#[derive(Debug, Clone)]
pub struct DxClusterConfig {
    pub my_callsign: Option<String>,
    pub sources: Vec<ClusterSourceConfig>,
    pub filter_file: Option<String>,
}

impl Default for DxClusterConfig {
    fn default() -> (r: DxClusterConfig)
        ensures
            r.my_callsign is None,
            r.sources@.len() == 0,
            r.filter_file is None,
    {
        DxClusterConfig { my_callsign: None, sources: Vec::new(), filter_file: None }
    }
}

impl DxClusterConfig {
    /// A login callsign and at least one node.
    pub fn is_configured(&self) -> (r: bool)
        ensures
            r == (self.my_callsign is Some && self.sources@.len() > 0),
    {
        self.my_callsign.is_some() && self.sources.len() > 0
    }
}

/// The station callsign stamped on new QSOs.
#[derive(Debug, Clone)]
pub struct StationConfig {
    pub default_callsign: Option<String>,
}

impl Default for StationConfig {
    fn default() -> (r: StationConfig)
        ensures
            r.default_callsign is None,
    {
        StationConfig { default_callsign: None }
    }
}

/// LotW account (for the report), TQSL station location (for signing)
/// and TQSL program path.
#[derive(Debug, Clone)]
pub struct LotwConfig {
    pub username: Option<String>,
    pub password: Option<String>,
    pub station_location: Option<String>,
    pub tqsl_path: Option<String>,
}

impl Default for LotwConfig {
    fn default() -> (r: LotwConfig)
        ensures
            r.username is None,
            r.password is None,
            r.station_location is None,
            r.tqsl_path is None,
    {
        LotwConfig { username: None, password: None, station_location: None, tqsl_path: None }
    }
}

impl LotwConfig {
    /// Uploads need a TQSL station location to sign against.
    pub fn is_configured_for_upload(&self) -> (r: bool)
        ensures
            r == (self.station_location is Some),
    {
        self.station_location.is_some()
    }

    /// The report needs the account.
    pub fn is_configured_for_fetch(&self) -> (r: bool)
        ensures
            r == (self.username is Some && self.password is Some),
    {
        self.username.is_some() && self.password.is_some()
    }
}

/// The whole configuration.
#[derive(Debug, Clone)]
pub struct Config {
    pub station: StationConfig,
    pub lotw: LotwConfig,
    pub eqsl: EqslConfig,
    pub clublog: ClubLogConfig,
    pub qrz: QrzConfig,
    pub hrdlog: HrdlogConfig,
    pub dxcluster: DxClusterConfig,
    pub wsjtx: WsjtxConfig,
    pub rigs: Vec<RigConfig>,
    pub keyer: KeyerConfig,
    pub so2r: So2rConfig,
}

/// Nothing configured but the WSJT-X listener, which is on by default.
pub open spec fn is_default_config(c: Config) -> bool {
    &&& c.station.default_callsign is None
    &&& c.lotw.username is None && c.lotw.password is None && c.lotw.station_location is None
        && c.lotw.tqsl_path is None
    &&& c.eqsl.username is None && c.eqsl.password is None
    &&& c.clublog.email is None && c.clublog.password is None && c.clublog.callsign is None
    &&& c.qrz.api_key is None
    &&& c.hrdlog.callsign is None && c.hrdlog.code is None
    &&& c.dxcluster.my_callsign is None && c.dxcluster.sources@.len() == 0
        && c.dxcluster.filter_file is None
    &&& c.wsjtx.enabled && c.wsjtx.bind_addr@ == "127.0.0.1:2237"@
    &&& c.rigs@.len() == 0
    &&& !c.keyer.enabled && c.keyer.serial_port is None && c.keyer.initial_wpm is None
    &&& !c.so2r.enabled && c.so2r.serial_port is None && c.so2r.initial_tx is None
        && c.so2r.initial_rx_mode is None
}

impl Default for Config {
    fn default() -> (r: Config)
        ensures
            is_default_config(r),
    {
        Config {
            station: StationConfig::default(),
            lotw: LotwConfig::default(),
            eqsl: EqslConfig::default(),
            clublog: ClubLogConfig::default(),
            qrz: QrzConfig::default(),
            hrdlog: HrdlogConfig::default(),
            dxcluster: DxClusterConfig::default(),
            wsjtx: WsjtxConfig::default(),
            rigs: Vec::new(),
            keyer: KeyerConfig::default(),
            so2r: So2rConfig::default(),
        }
    }
}

/// The radios of a configuration file: the `[[rig]]` entries in the
/// order written, then the radio of a legacy singular `[rig]` table when
/// the file has one (TOML lets a file have only one of the two forms).
pub fn fold_legacy_rig(rigs: Vec<RigConfig>, legacy: Option<RigConfig>) -> (r: Vec<RigConfig>)
    ensures
        r@ == match legacy {
            Some(l) => rigs@.push(l),
            None => rigs@,
        },
{
    let mut r = rigs;
    match legacy {
        Some(l) => r.push(l),
        None => {},
    }
    r
}

impl Config {
    /// The configured radios, in the order written; a legacy singular
    /// `[rig]` table is among them, folded in when the file was read.
    pub fn rigs(&self) -> (r: &[RigConfig])
        ensures
            r@ == self.rigs@,
    {
        self.rigs.as_slice()
    }

    /// The configuration file under the platform's configuration
    /// directory: `<dir>/slogger/config.toml`.
    pub fn default_path_in(config_dir: Option<&str>) -> (r: Result<String, ConfigError>)
        ensures
            match config_dir {
                Some(d) => r matches Ok(p) && p@ == d@ + "/slogger/config.toml"@,
                None => r matches Err(ConfigError::NoConfigDir),
            },
    {
        match config_dir {
            Some(d) => {
                let mut p = string_of(d);
                p.append("/slogger/config.toml");
                Ok(p)
            },
            None => Err(ConfigError::NoConfigDir),
        }
    }
}

/// How reading the configuration file went.
#[derive(Debug, Clone)]
pub enum ReadOutcome {
    Text(String),
    NotFound,
    Failed(String),
}

/// The configuration that a read of the file at `path` leads to, where
/// `parsed` is what the text parsed into. A missing file is no error: a
/// clean install starts from the defaults.
pub fn config_from_read(
    path: &str,
    read: ReadOutcome,
    parsed: Option<Result<Config, String>>,
) -> (r: Result<Config, ConfigError>)
    requires
        read is Text <==> parsed is Some,
    ensures
        match read {
            ReadOutcome::NotFound => r matches Ok(c) && is_default_config(c),
            ReadOutcome::Failed(e) => r matches Err(ConfigError::Io { path: p, error: x }) && p@
                == path@ && x@ == e@,
            ReadOutcome::Text(_) => match parsed {
                Some(Ok(c)) => r == Ok::<Config, ConfigError>(c),
                Some(Err(e)) => r matches Err(ConfigError::Parse { path: p, error: x }) && p@
                    == path@ && x@ == e@,
                None => false,
            },
        },
{
    match read {
        ReadOutcome::NotFound => Ok(Config::default()),
        ReadOutcome::Failed(e) => Err(ConfigError::Io { path: string_of(path), error: e }),
        ReadOutcome::Text(_) => match parsed {
            Some(Ok(c)) => Ok(c),
            Some(Err(e)) => Err(ConfigError::Parse { path: string_of(path), error: e }),
            None => Err(ConfigError::Parse { path: string_of(path), error: string_of("") }),
        },
    }
}

} // verus!
