//! Import of ADIF text: every record that names a valid callsign and a
//! valid date and time becomes a `CreateQsoCommand`; the others are
//! reported with their position and the reason.
use vstd::prelude::*;
use vstd::string::StringSliceAdditionalSpecFns;

use crate::adif::{fast_parse_adi, adi_records, record_view, AdifField, FieldV};
use crate::datetime::{adif_datetime, parse_adif_datetime, UtcDateTime};
use crate::freq::{mhz_text_to_hz, parse_freq_mhz};
use crate::ids::{OperatorId, StationLocationId};
use crate::text::{
    chars_eq_str, chars_of, debug_str, debug_str_text, parse_unsigned, parse_unsigned_exec,
    string_from_chars, upper_chars, upper_seq,
};
use crate::value::{
    band_from_adif, callsign_error_text, mode_from_adif, parse_callsign, string_of, Band, Callsign,
    CallsignError, FieldSource, FieldSourceV, Mode, ModeV, PropagationMode, PropagationModeV,
};
use vstd::string::StringExecFns;

verus! {

/// An exchange or extra field carried with a QSO.
#[derive(Debug, Clone)]
pub struct QsoExchangeField {
    pub name: String,
    pub raw_value: String,
    pub normalized_value: Option<String>,
    pub source: FieldSource,
}

/// A request to log one QSO. Power fields keep the text the log gave,
/// in watts.
#[derive(Debug, Clone)]
pub struct CreateQsoCommand {
    pub call: Callsign,
    pub qso_begin: UtcDateTime,
    pub qso_end: Option<UtcDateTime>,
    pub band: Option<Band>,
    pub freq_hz: Option<i64>,
    pub mode: Option<Mode>,
    pub submode: Option<String>,
    pub rst_sent: Option<String>,
    pub rst_rcvd: Option<String>,
    pub operator_id: Option<OperatorId>,
    pub station_location_id: Option<StationLocationId>,
    pub station_callsign: Option<Callsign>,
    pub owner_callsign: Option<Callsign>,
    pub dxcc_id: Option<u16>,
    pub dxcc_prefix: Option<String>,
    pub continent: Option<String>,
    pub cq_zone: Option<u8>,
    pub itu_zone: Option<u8>,
    pub grid: Option<String>,
    pub state: Option<String>,
    pub county: Option<String>,
    pub province: Option<String>,
    pub iota: Option<String>,
    pub tx_power_w: Option<String>,
    pub rx_power_w: Option<String>,
    pub propagation_mode: Option<PropagationMode>,
    pub sat_name: Option<String>,
    pub sat_mode: Option<String>,
    pub exchange_fields: Vec<QsoExchangeField>,
}

impl CreateQsoCommand {
    /// A command with only the callsign and start time set.
    pub fn minimal(call: Callsign, qso_begin: UtcDateTime) -> (r: CreateQsoCommand)
        ensures
            r.call@ == call@,
            r.qso_begin == qso_begin,
            r.qso_end is None,
            r.band is None,
            r.freq_hz is None,
            r.mode is None,
            r.submode is None,
            r.rst_sent is None,
            r.rst_rcvd is None,
            r.operator_id is None,
            r.station_location_id is None,
            r.station_callsign is None,
            r.owner_callsign is None,
            r.dxcc_id is None,
            r.dxcc_prefix is None,
            r.continent is None,
            r.cq_zone is None,
            r.itu_zone is None,
            r.grid is None,
            r.state is None,
            r.county is None,
            r.province is None,
            r.iota is None,
            r.tx_power_w is None,
            r.rx_power_w is None,
            r.propagation_mode is None,
            r.sat_name is None,
            r.sat_mode is None,
            r.exchange_fields@.len() == 0,
    {
        CreateQsoCommand {
            call,
            qso_begin,
            qso_end: None,
            band: None,
            freq_hz: None,
            mode: None,
            submode: None,
            rst_sent: None,
            rst_rcvd: None,
            operator_id: None,
            station_location_id: None,
            station_callsign: None,
            owner_callsign: None,
            dxcc_id: None,
            dxcc_prefix: None,
            continent: None,
            cq_zone: None,
            itu_zone: None,
            grid: None,
            state: None,
            county: None,
            province: None,
            iota: None,
            tx_power_w: None,
            rx_power_w: None,
            propagation_mode: None,
            sat_name: None,
            sat_mode: None,
            exchange_fields: Vec::new(),
        }
    }
}

pub open spec fn opt_view(o: Option<String>) -> Option<Seq<char>> {
    match o {
        Some(s) => Some(s@),
        None => None,
    }
}

pub open spec fn opt_call_view(o: Option<Callsign>) -> Option<Seq<char>> {
    match o {
        Some(c) => Some(c@),
        None => None,
    }
}

pub open spec fn opt_mode_view(o: Option<Mode>) -> Option<ModeV> {
    match o {
        Some(m) => Some(m@),
        None => None,
    }
}

pub open spec fn opt_prop_view(o: Option<PropagationMode>) -> Option<PropagationModeV> {
    match o {
        Some(m) => Some(m@),
        None => None,
    }
}

/// The value of the first field named `name`.
pub open spec fn lookup(rec: Seq<FieldV>, name: Seq<char>) -> Option<Seq<char>>
    decreases rec.len(),
{
    if rec.len() == 0 {
        None
    } else if rec[0].0 == name {
        Some(rec[0].1)
    } else {
        lookup(rec.drop_first(), name)
    }
}

/// ADIF fields that map onto the command's own slots.
pub open spec fn core_field_names() -> Seq<Seq<char>> {
    seq![
        "CALL"@,
        "QSO_DATE"@,
        "TIME_ON"@,
        "QSO_DATE_OFF"@,
        "TIME_OFF"@,
        "BAND"@,
        "FREQ"@,
        "MODE"@,
        "SUBMODE"@,
        "RST_SENT"@,
        "RST_RCVD"@,
        "STATION_CALLSIGN"@,
        "OPERATOR"@,
        "DXCC"@,
        "PFX"@,
        "CONT"@,
        "CQZ"@,
        "ITUZ"@,
        "GRIDSQUARE"@,
        "STATE"@,
        "CNTY"@,
        "VE_PROV"@,
        "IOTA"@,
        "TX_PWR"@,
        "RX_PWR"@,
        "PROP_MODE"@,
        "SAT_NAME"@,
        "SAT_MODE"@,
    ]
}

/// Fields that are carried along as exchange fields: not core, not empty.
pub open spec fn extra_fields(rec: Seq<FieldV>) -> Seq<FieldV>
    decreases rec.len(),
{
    if rec.len() == 0 {
        seq![]
    } else {
        let r = extra_fields(rec.drop_last());
        if core_field_names().contains(rec.last().0) || rec.last().1.len() == 0 {
            r
        } else {
            r.push(rec.last())
        }
    }
}

/// ADIF `PROP_MODE` text as a propagation mode.
pub open spec fn prop_mode_from_adif(s: Seq<char>) -> PropagationModeV {
    let u = upper_seq(s);
    if u.len() == 0 {
        PropagationModeV::Terrestrial
    } else if u == "SAT"@ {
        PropagationModeV::Satellite
    } else if u == "EME"@ {
        PropagationModeV::Eme
    } else if u == "MS"@ {
        PropagationModeV::MeteorScatter
    } else if u == "AUR"@ || u == "AUE"@ {
        PropagationModeV::Aurora
    } else if u == "AS"@ {
        PropagationModeV::AircraftScatter
    } else {
        PropagationModeV::Other(u)
    }
}

/// The `TIME_ON` text, `0000` when absent.
pub open spec fn time_on_text(rec: Seq<FieldV>) -> Seq<char> {
    match lookup(rec, "TIME_ON"@) {
        Some(t) => t,
        None => "0000"@,
    }
}

/// Whether a record becomes a command, and if not, why.
pub open spec fn record_outcome(rec: Seq<FieldV>) -> Result<(), Seq<char>> {
    match lookup(rec, "CALL"@) {
        None => Err("missing CALL"@),
        Some(c) => match parse_callsign(c) {
            Err(e) => Err("invalid CALL "@ + debug_str_text(c) + ": "@ + callsign_error_text(e)),
            Ok(_) => match lookup(rec, "QSO_DATE"@) {
                None => Err("missing QSO_DATE"@),
                Some(d) => if adif_datetime(d, time_on_text(rec)) is None {
                    Err(
                        "invalid QSO_DATE/TIME_ON "@ + debug_str_text(d) + " "@ + debug_str_text(
                            time_on_text(rec),
                        ),
                    )
                } else {
                    Ok(())
                },
            },
        },
    }
}

/// The end of the QSO: `QSO_DATE_OFF` (or else `QSO_DATE`) with `TIME_OFF`.
pub open spec fn qso_end_of(rec: Seq<FieldV>) -> Option<UtcDateTime> {
    match (lookup(rec, "QSO_DATE_OFF"@), lookup(rec, "TIME_OFF"@)) {
        (Some(d), Some(t)) => adif_datetime(d, t),
        (None, Some(t)) => adif_datetime(lookup(rec, "QSO_DATE"@).unwrap(), t),
        _ => None,
    }
}

pub open spec fn opt_upper(o: Option<Seq<char>>) -> Option<Seq<char>> {
    match o {
        Some(s) => Some(upper_seq(s)),
        None => None,
    }
}

pub open spec fn opt_mode(o: Option<Seq<char>>) -> Option<ModeV> {
    match o {
        Some(s) => Some(mode_from_adif(s)),
        None => None,
    }
}

pub open spec fn opt_prop(o: Option<Seq<char>>) -> Option<PropagationModeV> {
    match o {
        Some(s) => Some(prop_mode_from_adif(s)),
        None => None,
    }
}

pub open spec fn opt_u16_nat(o: Option<u16>) -> Option<nat> {
    match o {
        Some(v) => Some(v as nat),
        None => None,
    }
}

pub open spec fn opt_u8_nat(o: Option<u8>) -> Option<nat> {
    match o {
        Some(v) => Some(v as nat),
        None => None,
    }
}

pub open spec fn opt_callsign_of(o: Option<Seq<char>>) -> Option<Seq<char>> {
    match o {
        Some(s) => match parse_callsign(s) {
            Ok(c) => Some(c),
            Err(_) => None,
        },
        None => None,
    }
}

pub open spec fn opt_unsigned(o: Option<Seq<char>>, max: nat) -> Option<nat> {
    match o {
        Some(s) => parse_unsigned(s, max),
        None => None,
    }
}

/// Exchange fields as (name, value), checking that each is an imported,
/// unnormalised value.
pub open spec fn exchange_view(fs: Seq<QsoExchangeField>) -> Seq<FieldV> {
    fs.map_values(|f: QsoExchangeField| (f.name@, f.raw_value@))
}

pub open spec fn all_imported(fs: Seq<QsoExchangeField>) -> bool {
    forall|k: int|
        0 <= k < fs.len() ==> (#[trigger] fs[k]).normalized_value is None && fs[k].source@
            == FieldSourceV::ImportedAdif
}

/// The command that an accepted record describes.
pub open spec fn command_fits(c: CreateQsoCommand, rec: Seq<FieldV>) -> bool {
    &&& Ok::<Seq<char>, CallsignError>(c.call@) == parse_callsign(lookup(rec, "CALL"@).unwrap())
    &&& Some(c.qso_begin) == adif_datetime(lookup(rec, "QSO_DATE"@).unwrap(), time_on_text(rec))
    &&& c.qso_end == qso_end_of(rec)
    &&& c.band == (match lookup(rec, "BAND"@) {
        Some(s) => band_from_adif(s),
        None => None,
    })
    &&& c.freq_hz == (match lookup(rec, "FREQ"@) {
        Some(s) => mhz_text_to_hz(s),
        None => None,
    })
    &&& opt_mode_view(c.mode) == opt_mode(lookup(rec, "MODE"@))
    &&& opt_view(c.submode) == lookup(rec, "SUBMODE"@)
    &&& opt_view(c.rst_sent) == lookup(rec, "RST_SENT"@)
    &&& opt_view(c.rst_rcvd) == lookup(rec, "RST_RCVD"@)
    &&& opt_view(c.grid) == lookup(rec, "GRIDSQUARE"@)
    &&& opt_view(c.state) == lookup(rec, "STATE"@)
    &&& opt_view(c.county) == lookup(rec, "CNTY"@)
    &&& opt_view(c.province) == lookup(rec, "VE_PROV"@)
    &&& opt_view(c.iota) == lookup(rec, "IOTA"@)
    &&& opt_view(c.tx_power_w) == lookup(rec, "TX_PWR"@)
    &&& opt_view(c.rx_power_w) == lookup(rec, "RX_PWR"@)
    &&& opt_view(c.sat_name) == lookup(rec, "SAT_NAME"@)
    &&& opt_view(c.sat_mode) == lookup(rec, "SAT_MODE"@)
    &&& opt_view(c.dxcc_prefix) == opt_upper(lookup(rec, "PFX"@))
    &&& opt_view(c.continent) == opt_upper(lookup(rec, "CONT"@))
    &&& c.operator_id is None
    &&& c.station_location_id is None
    &&& opt_call_view(c.station_callsign) == opt_callsign_of(lookup(rec, "STATION_CALLSIGN"@))
    &&& opt_call_view(c.owner_callsign) == opt_callsign_of(lookup(rec, "OPERATOR"@))
    &&& opt_u16_nat(c.dxcc_id) == opt_unsigned(lookup(rec, "DXCC"@), 65535)
    &&& opt_u8_nat(c.cq_zone) == opt_unsigned(lookup(rec, "CQZ"@), 255)
    &&& opt_u8_nat(c.itu_zone) == opt_unsigned(lookup(rec, "ITUZ"@), 255)
    &&& opt_prop_view(c.propagation_mode) == opt_prop(lookup(rec, "PROP_MODE"@))
    &&& exchange_view(c.exchange_fields@) == extra_fields(rec)
    &&& all_imported(c.exchange_fields@)
}

/// The field names of `CORE_FIELDS`, in that order.
fn core_names() -> (r: Vec<String>)
    ensures
        r@.len() == core_field_names().len(),
        forall|i: int| 0 <= i < r@.len() ==> #[trigger] r@[i]@ == core_field_names()[i],
{
    let mut v: Vec<String> = Vec::new();
    v.push(string_of("CALL"));
    v.push(string_of("QSO_DATE"));
    v.push(string_of("TIME_ON"));
    v.push(string_of("QSO_DATE_OFF"));
    v.push(string_of("TIME_OFF"));
    v.push(string_of("BAND"));
    v.push(string_of("FREQ"));
    v.push(string_of("MODE"));
    v.push(string_of("SUBMODE"));
    v.push(string_of("RST_SENT"));
    v.push(string_of("RST_RCVD"));
    v.push(string_of("STATION_CALLSIGN"));
    v.push(string_of("OPERATOR"));
    v.push(string_of("DXCC"));
    v.push(string_of("PFX"));
    v.push(string_of("CONT"));
    v.push(string_of("CQZ"));
    v.push(string_of("ITUZ"));
    v.push(string_of("GRIDSQUARE"));
    v.push(string_of("STATE"));
    v.push(string_of("CNTY"));
    v.push(string_of("VE_PROV"));
    v.push(string_of("IOTA"));
    v.push(string_of("TX_PWR"));
    v.push(string_of("RX_PWR"));
    v.push(string_of("PROP_MODE"));
    v.push(string_of("SAT_NAME"));
    v.push(string_of("SAT_MODE"));
    assert forall|i: int| 0 <= i < v@.len() implies #[trigger] v@[i]@ == core_field_names()[i] by {}
    v
}

/// Index of the first field named `key`.
pub(crate) fn lookup_index(record: &Vec<AdifField>, key: &String) -> (r: Option<usize>)
    ensures
        match r {
            Some(i) => i < record@.len() && lookup(record_view(record@), key@) == Some(
                record@[i as int].value@,
            ),
            None => lookup(record_view(record@), key@) == None::<Seq<char>>,
        },
{
    let ghost rv = record_view(record@);
    let mut i: usize = 0;
    assert(rv.subrange(0, rv.len() as int) =~= rv);
    while i < record.len()
        invariant
            i <= record.len(),
            rv == record_view(record@),
            lookup(rv, key@) == lookup(rv.subrange(i as int, rv.len() as int), key@),
        decreases record.len() - i,
    {
        assert(rv.subrange(i as int, rv.len() as int).drop_first() =~= rv.subrange(
            i + 1,
            rv.len() as int,
        ));
        if record[i].name == *key {
            return Some(i);
        }
        i = i + 1;
    }
    None
}

/// Value of the first field named `key`.
pub(crate) fn get_str(record: &Vec<AdifField>, key: &String) -> (r: Option<String>)
    ensures
        opt_view(r) == lookup(record_view(record@), key@),
{
    match lookup_index(record, key) {
        Some(i) => Some(record[i].value.clone()),
        None => None,
    }
}

/// Upper-cased value of the first field named `key`.
pub(crate) fn get_upper(record: &Vec<AdifField>, key: &String) -> (r: Option<String>)
    ensures
        opt_view(r) == opt_upper(lookup(record_view(record@), key@)),
{
    match lookup_index(record, key) {
        Some(i) => Some(string_from_chars(upper_chars(&chars_of(record[i].value.as_str())).as_slice())),
        None => None,
    }
}

/// ADIF `PROP_MODE` text as a propagation mode.
pub fn parse_prop_mode(s: &str) -> (r: PropagationMode)
    ensures
        r@ == prop_mode_from_adif(s@),
{
    let uv = upper_chars(&chars_of(s));
    let u = uv.as_slice();
    if u.len() == 0 {
        PropagationMode::Terrestrial
    } else if chars_eq_str(u, "SAT") {
        PropagationMode::Satellite
    } else if chars_eq_str(u, "EME") {
        PropagationMode::Eme
    } else if chars_eq_str(u, "MS") {
        PropagationMode::MeteorScatter
    } else if chars_eq_str(u, "AUR") || chars_eq_str(u, "AUE") {
        PropagationMode::Aurora
    } else if chars_eq_str(u, "AS") {
        PropagationMode::AircraftScatter
    } else {
        PropagationMode::Other(string_from_chars(u))
    }
}

/// Whether `name` is one of the core field names.
fn is_core(core: &Vec<String>, name: &String) -> (r: bool)
    requires
        core@.len() == core_field_names().len(),
        forall|i: int| 0 <= i < core@.len() ==> #[trigger] core@[i]@ == core_field_names()[i],
    ensures
        r == core_field_names().contains(name@),
{
    let mut i: usize = 0;
    while i < core.len()
        invariant
            i <= core.len(),
            core@.len() == core_field_names().len(),
            forall|k: int| 0 <= k < core@.len() ==> #[trigger] core@[k]@ == core_field_names()[k],
            forall|k: int| 0 <= k < i ==> core_field_names()[k] != name@,
        decreases core.len() - i,
    {
        if core[i] == *name {
            assert(core_field_names()[i as int] == name@);
            return true;
        }
        i = i + 1;
    }
    false
}

/// Converts one parsed record into a command, or gives the reason it is
/// skipped.
fn record_to_command(record: &Vec<AdifField>, core: &Vec<String>) -> (r: Result<CreateQsoCommand, String>)
    requires
        core@.len() == core_field_names().len(),
        forall|i: int| 0 <= i < core@.len() ==> #[trigger] core@[i]@ == core_field_names()[i],
    ensures
        match r {
            Ok(c) => record_outcome(record_view(record@)) is Ok && command_fits(c, record_view(record@)),
            Err(reason) => record_outcome(record_view(record@)) == Err::<(), Seq<char>>(reason@),
        },
{
    let ghost rec = record_view(record@);
    let call_str = match get_str(record, &core[0]) {
        Some(s) => s,
        None => return Err(string_of("missing CALL")),
    };
    let call = match Callsign::parse(call_str.as_str()) {
        Ok(c) => c,
        Err(e) => {
            let mut m = string_of("invalid CALL ");
            m.append(debug_str(call_str.as_str()).as_str());
            m.append(": ");
            m.append(e.message().as_str());
            return Err(m);
        },
    };
    let date = match get_str(record, &core[1]) {
        Some(s) => s,
        None => return Err(string_of("missing QSO_DATE")),
    };
    let time = match get_str(record, &core[2]) {
        Some(t) => t,
        None => string_of("0000"),
    };
    let qso_begin = match parse_adif_datetime(date.as_str(), time.as_str()) {
        Some(t) => t,
        None => {
            let mut m = string_of("invalid QSO_DATE/TIME_ON ");
            m.append(debug_str(date.as_str()).as_str());
            m.append(" ");
            m.append(debug_str(time.as_str()).as_str());
            return Err(m);
        },
    };
    let qso_end = match (get_str(record, &core[3]), get_str(record, &core[4])) {
        (Some(d), Some(t)) => parse_adif_datetime(d.as_str(), t.as_str()),
        (None, Some(t)) => parse_adif_datetime(date.as_str(), t.as_str()),
        _ => None,
    };
    let mut cmd = CreateQsoCommand::minimal(call, qso_begin);
    cmd.qso_end = qso_end;
    cmd.band = match get_str(record, &core[5]) {
        Some(s) => Band::from_adif(s.as_str()),
        None => None,
    };
    cmd.freq_hz = match get_str(record, &core[6]) {
        Some(s) => parse_freq_mhz(s.as_str()),
        None => None,
    };
    cmd.mode = match get_str(record, &core[7]) {
        Some(s) => Some(Mode::from_adif(s.as_str())),
        None => None,
    };
    cmd.submode = get_str(record, &core[8]);
    cmd.rst_sent = get_str(record, &core[9]);
    cmd.rst_rcvd = get_str(record, &core[10]);
    cmd.grid = get_str(record, &core[18]);
    cmd.state = get_str(record, &core[19]);
    cmd.county = get_str(record, &core[20]);
    cmd.province = get_str(record, &core[21]);
    cmd.iota = get_str(record, &core[22]);
    cmd.tx_power_w = get_str(record, &core[23]);
    cmd.rx_power_w = get_str(record, &core[24]);
    cmd.sat_name = get_str(record, &core[26]);
    cmd.sat_mode = get_str(record, &core[27]);
    cmd.dxcc_prefix = get_upper(record, &core[14]);
    cmd.continent = get_upper(record, &core[15]);
    cmd.station_callsign = match get_str(record, &core[11]) {
        Some(s) => match Callsign::parse(s.as_str()) {
            Ok(c) => Some(c),
            Err(_) => None,
        },
        None => None,
    };
    cmd.owner_callsign = match get_str(record, &core[12]) {
        Some(s) => match Callsign::parse(s.as_str()) {
            Ok(c) => Some(c),
            Err(_) => None,
        },
        None => None,
    };
    cmd.dxcc_id = match get_str(record, &core[13]) {
        Some(s) => match parse_unsigned_exec(chars_of(s.as_str()).as_slice(), 65535) {
            Some(v) => Some(v as u16),
            None => None,
        },
        None => None,
    };
    cmd.cq_zone = match get_str(record, &core[16]) {
        Some(s) => match parse_unsigned_exec(chars_of(s.as_str()).as_slice(), 255) {
            Some(v) => Some(v as u8),
            None => None,
        },
        None => None,
    };
    cmd.itu_zone = match get_str(record, &core[17]) {
        Some(s) => match parse_unsigned_exec(chars_of(s.as_str()).as_slice(), 255) {
            Some(v) => Some(v as u8),
            None => None,
        },
        None => None,
    };
    cmd.propagation_mode = match get_str(record, &core[25]) {
        Some(s) => Some(parse_prop_mode(s.as_str())),
        None => None,
    };
    let mut fields: Vec<QsoExchangeField> = Vec::new();
    let mut i: usize = 0;
    while i < record.len()
        invariant
            i <= record.len(),
            rec == record_view(record@),
            core@.len() == core_field_names().len(),
            forall|k: int| 0 <= k < core@.len() ==> #[trigger] core@[k]@ == core_field_names()[k],
            exchange_view(fields@) == extra_fields(rec.subrange(0, i as int)),
            all_imported(fields@),
        decreases record.len() - i,
    {
        let ghost before = exchange_view(fields@);
        assert(rec.subrange(0, i + 1).drop_last() =~= rec.subrange(0, i as int));
        let f = &record[i];
        assert(rec[i as int] == (f.name@, f.value@));
        if !is_core(core, &f.name) && !f.value.as_str().is_empty() {
            fields.push(
                QsoExchangeField {
                    name: f.name.clone(),
                    raw_value: f.value.clone(),
                    normalized_value: None,
                    source: FieldSource::ImportedAdif,
                },
            );
            assert(exchange_view(fields@) =~= before.push(rec[i as int]));
        }
        i = i + 1;
    }
    assert(rec.subrange(0, record.len() as int) =~= rec);
    cmd.exchange_fields = fields;
    Ok(cmd)
}

/// Why a record was not imported.
#[derive(Debug)]
pub struct SkippedRecord {
    pub index: usize,
    pub reason: String,
}

/// Commands for the accepted records and the skipped ones, each in input
/// order.
#[derive(Debug)]
pub struct ImportOutcome {
    pub commands: Vec<CreateQsoCommand>,
    pub skipped: Vec<SkippedRecord>,
}

/// Import failure. The reader accepts any text, so this is never returned.
#[derive(Debug)]
pub enum ImportError {
    Parse(String),
}

/// Positions of the records that are accepted.
pub open spec fn accepted_positions(recs: Seq<Seq<FieldV>>) -> Seq<int>
    decreases recs.len(),
{
    if recs.len() == 0 {
        seq![]
    } else {
        let r = accepted_positions(recs.drop_last());
        if record_outcome(recs.last()) is Ok {
            r.push(recs.len() - 1)
        } else {
            r
        }
    }
}

/// Positions of the records that are skipped.
pub open spec fn skipped_positions(recs: Seq<Seq<FieldV>>) -> Seq<int>
    decreases recs.len(),
{
    if recs.len() == 0 {
        seq![]
    } else {
        let r = skipped_positions(recs.drop_last());
        if record_outcome(recs.last()) is Ok {
            r
        } else {
            r.push(recs.len() - 1)
        }
    }
}

/// What importing `recs` gives: the k-th command comes from the k-th
/// accepted record, the k-th skipped entry names the k-th skipped record
/// and its reason.
pub open spec fn outcome_fits(o: ImportOutcome, recs: Seq<Seq<FieldV>>) -> bool {
    let acc = accepted_positions(recs);
    let sk = skipped_positions(recs);
    &&& o.commands@.len() == acc.len()
    &&& forall|k: int| 0 <= k < acc.len() ==> command_fits(#[trigger] o.commands@[k], recs[acc[k]])
    &&& o.skipped@.len() == sk.len()
    &&& forall|k: int|
        0 <= k < sk.len() ==> (#[trigger] o.skipped@[k]).index == sk[k] && record_outcome(recs[sk[k]])
            == Err::<(), Seq<char>>(o.skipped@[k].reason@)
}

/// Reads ADIF text into commands and skipped records.
pub fn parse_adif(input: &str) -> (r: Result<ImportOutcome, ImportError>)
    ensures
        r matches Ok(o) && outcome_fits(o, adi_records(input.spec_bytes())),
{
    let records = fast_parse_adi(input);
    let ghost recs = adi_records(input.spec_bytes());
    let core = core_names();
    let mut outcome = ImportOutcome { commands: Vec::new(), skipped: Vec::new() };
    let mut idx: usize = 0;
    while idx < records.len()
        invariant
            idx <= records.len(),
            crate::adif::records_view(records@) == recs,
            core@.len() == core_field_names().len(),
            forall|k: int| 0 <= k < core@.len() ==> #[trigger] core@[k]@ == core_field_names()[k],
            outcome_fits(outcome, recs.subrange(0, idx as int)),
        decreases records.len() - idx,
    {
        let ghost pre = recs.subrange(0, idx as int);
        let ghost next = recs.subrange(0, idx + 1);
        assert(next.drop_last() =~= pre);
        assert(next.last() == record_view(records@[idx as int]@));
        let ghost acc = accepted_positions(pre);
        let ghost sk = skipped_positions(pre);
        proof {
            lemma_positions_below(pre);
        }
        match record_to_command(&records[idx], &core) {
            Ok(cmd) => {
                outcome.commands.push(cmd);
                assert forall|k: int| 0 <= k < accepted_positions(next).len() implies command_fits(
                    #[trigger] outcome.commands@[k],
                    next[accepted_positions(next)[k]],
                ) by {
                    if k < acc.len() {
                        assert(next[acc[k]] == pre[acc[k]]);
                    }
                }
                assert forall|k: int| 0 <= k < skipped_positions(next).len() implies (
                #[trigger] outcome.skipped@[k]).index == skipped_positions(next)[k] && record_outcome(
                    next[skipped_positions(next)[k]],
                ) == Err::<(), Seq<char>>(outcome.skipped@[k].reason@) by {
                    assert(next[sk[k]] == pre[sk[k]]);
                }
            },
            Err(reason) => {
                outcome.skipped.push(SkippedRecord { index: idx, reason });
                assert forall|k: int| 0 <= k < accepted_positions(next).len() implies command_fits(
                    #[trigger] outcome.commands@[k],
                    next[accepted_positions(next)[k]],
                ) by {
                    assert(next[acc[k]] == pre[acc[k]]);
                }
                assert forall|k: int| 0 <= k < skipped_positions(next).len() implies (
                #[trigger] outcome.skipped@[k]).index == skipped_positions(next)[k] && record_outcome(
                    next[skipped_positions(next)[k]],
                ) == Err::<(), Seq<char>>(outcome.skipped@[k].reason@) by {
                    if k < sk.len() {
                        assert(next[sk[k]] == pre[sk[k]]);
                    }
                }
            },
        }
        idx = idx + 1;
    }
    assert(recs.subrange(0, records.len() as int) =~= recs);
    Ok(outcome)
}

/// Every recorded position lies inside the list.
proof fn lemma_positions_below(recs: Seq<Seq<FieldV>>)
    ensures
        forall|k: int| 0 <= k < accepted_positions(recs).len() ==> 0 <= #[trigger] accepted_positions(recs)[k] < recs.len(),
        forall|k: int| 0 <= k < skipped_positions(recs).len() ==> 0 <= #[trigger] skipped_positions(recs)[k] < recs.len(),
    decreases recs.len(),
{
    if recs.len() > 0 {
        lemma_positions_below(recs.drop_last());
        let a = accepted_positions(recs.drop_last());
        let b = skipped_positions(recs.drop_last());
        assert forall|k: int| 0 <= k < accepted_positions(recs).len() implies 0 <= #[trigger] accepted_positions(recs)[k] < recs.len() by {
            if k < a.len() {
                assert(accepted_positions(recs)[k] == a[k]);
            }
        }
        assert forall|k: int| 0 <= k < skipped_positions(recs).len() implies 0 <= #[trigger] skipped_positions(recs)[k] < recs.len() by {
            if k < b.len() {
                assert(skipped_positions(recs)[k] == b[k]);
            }
        }
    }
}


proof fn lemma_accepted_ok(recs: Seq<Seq<FieldV>>)
    ensures
        forall|k: int|
            0 <= k < accepted_positions(recs).len() ==> 0 <= #[trigger] accepted_positions(recs)[k]
                < recs.len() && record_outcome(recs[accepted_positions(recs)[k]]) is Ok,
    decreases recs.len(),
{
    if recs.len() > 0 {
        let d = recs.drop_last();
        lemma_accepted_ok(d);
        let a = accepted_positions(d);
        assert forall|k: int| 0 <= k < accepted_positions(recs).len() implies 0
            <= #[trigger] accepted_positions(recs)[k] < recs.len() && record_outcome(
            recs[accepted_positions(recs)[k]],
        ) is Ok by {
            if k < a.len() {
                assert(accepted_positions(recs)[k] == a[k]);
                assert(recs[a[k]] == d[a[k]]);
            }
        }
    }
}

/// What an import makes of a record's times: each command that
/// `parse_adif` gives starts at the record's `QSO_DATE` and `TIME_ON`, and
/// ends at its `TIME_OFF` taken on `QSO_DATE_OFF`, or on `QSO_DATE` when
/// the record has no `QSO_DATE_OFF`, read as the start is read. It has no
/// end only when the record has no `TIME_OFF` or that date and time do not
/// read.
pub proof fn law_import_times(o: ImportOutcome, recs: Seq<Seq<FieldV>>, k: int)
    requires
        outcome_fits(o, recs),
        0 <= k < o.commands@.len(),
    ensures
        ({
            let rec = recs[accepted_positions(recs)[k]];
            let c = o.commands@[k];
            &&& lookup(rec, "QSO_DATE"@) matches Some(d) && Some(c.qso_begin) == adif_datetime(
                d,
                time_on_text(rec),
            )
            &&& lookup(rec, "TIME_OFF"@) is None ==> c.qso_end is None
            &&& lookup(rec, "TIME_OFF"@) matches Some(t) ==> c.qso_end == adif_datetime(
                match lookup(rec, "QSO_DATE_OFF"@) {
                    Some(doff) => doff,
                    None => lookup(rec, "QSO_DATE"@).unwrap(),
                },
                t,
            )
        }),
{
    lemma_accepted_ok(recs);
    let rec = recs[accepted_positions(recs)[k]];
    assert(command_fits(o.commands@[k], rec));
    assert(record_outcome(rec) is Ok);
}

} // verus!
