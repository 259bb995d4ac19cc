//! Start-up decisions: which configured devices are connected and with
//! what settings, how each radio is labelled, and what the rig list
//! says of each radio.
use vstd::prelude::*;

use crate::config::{
    rig_configured, DxClusterConfig, KeyerConfig as KeyerSettings, RigConfig as RigSettings,
    So2rConfig as So2rSettings,
};
use crate::keyer::KeyerConfig;
use crate::rig::{connect_error_text, ConnectError, RigConfig};
use crate::so2r::So2rConfig;
use crate::spots::{ClusterSource, SpotFeedConfig};
use crate::text::{dec, dec_string};
use crate::value::string_of;

verus! {

/// A radio's label: the configured one, else its model, else `Rig N`
/// counting from one.
pub fn derive_rig_label(cfg: &RigSettings, idx: usize) -> (r: String)
    requires
        idx < usize::MAX,
    ensures
        r@ == match cfg.label {
            Some(l) => l@,
            None => match cfg.model {
                Some(m) => m@,
                None => "Rig "@ + dec((idx + 1) as nat),
            },
        },
{
    match &cfg.label {
        Some(l) => string_of(l.as_str()),
        None => match &cfg.model {
            Some(m) => string_of(m.as_str()),
            None => {
                let mut r = string_of("Rig ");
                r.append(dec_string((idx + 1) as u64).as_str());
                r
            },
        },
    }
}

fn opt_string(o: &Option<String>) -> (r: Option<String>)
    ensures
        match (r, *o) {
            (Some(a), Some(b)) => a@ == b@,
            (None, None) => true,
            _ => false,
        },
{
    match o {
        Some(s) => Some(string_of(s.as_str())),
        None => None,
    }
}

/// The rig driver's settings of a configured radio: vendor and model are
/// needed; a missing serial port is left empty (FlexRadio uses the host).
pub fn build_rig_client_config(cfg: &RigSettings) -> (r: Option<RigConfig>)
    ensures
        match (cfg.vendor, cfg.model) {
            (Some(v), Some(m)) => r matches Some(rc) && rc.vendor@ == v@ && rc.model@ == m@
                && rc.serial_port@ == match cfg.serial_port {
                Some(p) => p@,
                None => seq![],
            } && rc.baud_rate == cfg.baud_rate && match (rc.host, cfg.host) {
                (Some(a), Some(b)) => a@ == b@,
                (None, None) => true,
                _ => false,
            },
            _ => r is None,
        },
{
    let vendor = match &cfg.vendor {
        Some(v) => string_of(v.as_str()),
        None => return None,
    };
    let model = match &cfg.model {
        Some(m) => string_of(m.as_str()),
        None => return None,
    };
    let serial_port = match &cfg.serial_port {
        Some(p) => string_of(p.as_str()),
        None => {
            let e = String::new();
            assert(e@ =~= seq![]);
            e
        },
    };
    Some(RigConfig { vendor, model, serial_port, baud_rate: cfg.baud_rate, host: opt_string(&cfg.host) })
}

/// The switch's settings, when a serial port is configured.
pub fn build_so2r_client_config(cfg: &So2rSettings) -> (r: Option<So2rConfig>)
    ensures
        match cfg.serial_port {
            Some(p) => r matches Some(c) && c.serial_port@ == p@ && c.initial_tx == cfg.initial_tx
                && match (c.initial_rx_mode, cfg.initial_rx_mode) {
                (Some(a), Some(b)) => a@ == b@,
                (None, None) => true,
                _ => false,
            },
            None => r is None,
        },
{
    let serial_port = match &cfg.serial_port {
        Some(p) => string_of(p.as_str()),
        None => return None,
    };
    Some(
        So2rConfig {
            serial_port,
            initial_tx: cfg.initial_tx,
            initial_rx_mode: opt_string(&cfg.initial_rx_mode),
        },
    )
}

/// The keyer's settings, when a serial port is configured; 25 words per
/// minute unless set.
pub fn build_keyer_client_config(cfg: &KeyerSettings) -> (r: Option<KeyerConfig>)
    ensures
        match cfg.serial_port {
            Some(p) => r matches Some(c) && c.serial_port@ == p@ && c.initial_wpm == match cfg.initial_wpm {
                Some(w) => w,
                None => 25u8,
            },
            None => r is None,
        },
{
    let serial_port = match &cfg.serial_port {
        Some(p) => string_of(p.as_str()),
        None => return None,
    };
    let initial_wpm = match cfg.initial_wpm {
        Some(w) => w,
        None => 25,
    };
    Some(KeyerConfig { serial_port, initial_wpm })
}

/// The spot feed's settings, when the cluster section is configured: its
/// login, every node in order, and the filter file.
pub fn build_spot_feed_config(cfg: &DxClusterConfig) -> (r: Option<SpotFeedConfig>)
    ensures
        !(cfg.my_callsign is Some && cfg.sources@.len() > 0) ==> r is None,
        (cfg.my_callsign is Some && cfg.sources@.len() > 0) ==> (r matches Some(f)
            && f.my_callsign@ == cfg.my_callsign.unwrap()@ && f.sources@.len() == cfg.sources@.len()
            && (forall|i: int|
            0 <= i < f.sources@.len() ==> (#[trigger] f.sources@[i]).host@ == cfg.sources@[i].host@
                && f.sources@[i].port == cfg.sources@[i].port) && match (f.filter_path, cfg.filter_file) {
            (Some(a), Some(b)) => a@ == b@,
            (None, None) => true,
            _ => false,
        }),
{
    if !cfg.is_configured() {
        return None;
    }
    let my_callsign = match &cfg.my_callsign {
        Some(c) => string_of(c.as_str()),
        None => return None,
    };
    let mut sources: Vec<ClusterSource> = Vec::new();
    let mut i: usize = 0;
    while i < cfg.sources.len()
        invariant
            i <= cfg.sources@.len(),
            sources@.len() == i,
            forall|k: int|
                0 <= k < i ==> (#[trigger] sources@[k]).host@ == cfg.sources@[k].host@
                    && sources@[k].port == cfg.sources@[k].port,
        decreases cfg.sources@.len() - i,
    {
        let s = &cfg.sources[i];
        sources.push(ClusterSource { host: string_of(s.host.as_str()), port: s.port });
        i = i + 1;
    }
    Some(SpotFeedConfig { my_callsign, sources, filter_path: opt_string(&cfg.filter_file) })
}

/// What start-up does with a configured radio: leave it (with the
/// reason shown in the rig list) or connect with the driver settings.
#[derive(Debug, Clone)]
pub enum RigPlan {
    Skip(String),
    Connect(RigConfig),
}

pub fn plan_rig(cfg: &RigSettings) -> (r: RigPlan)
    ensures
        !rig_configured(*cfg) ==> (r matches RigPlan::Skip(m) && m@ == "disabled or config incomplete"@),
        rig_configured(*cfg) ==> (r matches RigPlan::Connect(rc) && rc.vendor@ == cfg.vendor.unwrap()@
            && rc.model@ == cfg.model.unwrap()@),
{
    if !cfg.is_configured() {
        return RigPlan::Skip(string_of("disabled or config incomplete"));
    }
    match build_rig_client_config(cfg) {
        Some(rc) => RigPlan::Connect(rc),
        None => RigPlan::Skip(string_of("config incomplete")),
    }
}

/// What the rig list says of a connection attempt.
pub fn rig_connect_status(result: &Result<(), ConnectError>) -> (r: String)
    ensures
        match *result {
            Ok(()) => r@ == "connected"@,
            Err(e) => r@ == "connect failed: "@ + connect_error_text(e),
        },
{
    match result {
        Ok(()) => string_of("connected"),
        Err(e) => {
            let mut r = string_of("connect failed: ");
            r.append(e.message().as_str());
            r
        },
    }
}

/// The status line of the SO2R switch or the keyer after boot: when no
/// client configuration could be built from the settings (`port` is
/// none), `DEVICE: config incomplete`; otherwise `DEVICE: connected to
/// LINK on PORT`, or `DEVICE: connect failed — ` and the error.
pub fn device_status(device: &str, link: &str, port: Option<&str>, outcome: &Result<(), String>) -> (r: String)
    ensures
        match port {
            None => r@ == device@ + ": config incomplete"@,
            Some(p) => match *outcome {
                Ok(()) => r@ == device@ + ": connected to "@ + link@ + " on "@ + p@,
                Err(e) => r@ == device@ + ": connect failed — "@ + e@,
            },
        },
{
    let mut r = string_of(device);
    match port {
        None => r.append(": config incomplete"),
        Some(p) => match outcome {
            Ok(()) => {
                r.append(": connected to ");
                r.append(link);
                r.append(" on ");
                r.append(p);
            },
            Err(e) => {
                r.append(": connect failed — ");
                r.append(e.as_str());
            },
        },
    }
    r
}

} // verus!
