//! The logged QSO, what a callsign lookup can tell about its station, and
//! how a request to log a QSO becomes one.
use vstd::prelude::*;

use crate::datetime::UtcDateTime;
use crate::ids::{OperatorId, QsoId, StationLocationId};
use crate::import::{CreateQsoCommand, QsoExchangeField};
use crate::value::{Band, Callsign, Mode, PropagationMode};

verus! {

/// A logged QSO. Power fields keep the text they were given, in watts.
#[derive(Debug, Clone)]
pub struct Qso {
    pub id: QsoId,
    pub call: Callsign,
    pub qso_begin: UtcDateTime,
    pub qso_end: Option<UtcDateTime>,
    pub band: Option<Band>,
    pub freq_hz: Option<i64>,
    pub mode: Option<Mode>,
    pub submode: Option<String>,
    pub rst_sent: Option<String>,
    pub rst_rcvd: Option<String>,
    pub operator_id: Option<OperatorId>,
    pub station_location_id: Option<StationLocationId>,
    pub station_callsign: Option<Callsign>,
    pub owner_callsign: Option<Callsign>,
    pub dxcc_id: Option<u16>,
    pub dxcc_prefix: Option<String>,
    pub continent: Option<String>,
    pub cq_zone: Option<u8>,
    pub itu_zone: Option<u8>,
    pub grid: Option<String>,
    pub state: Option<String>,
    pub county: Option<String>,
    pub province: Option<String>,
    pub iota: Option<String>,
    pub tx_power_w: Option<String>,
    pub rx_power_w: Option<String>,
    pub propagation_mode: Option<PropagationMode>,
    pub sat_name: Option<String>,
    pub sat_mode: Option<String>,
    pub created_at: UtcDateTime,
    pub updated_at: UtcDateTime,
}

/// What a callsign lookup found about the worked station's entity.
#[derive(Debug, Clone, PartialEq)]
pub struct Resolution {
    pub dxcc_id: Option<u16>,
    pub dxcc_prefix: Option<String>,
    pub country: Option<String>,
    pub continent: Option<String>,
    pub cq_zone: Option<u8>,
    pub itu_zone: Option<u8>,
}

impl Resolution {
    pub fn empty() -> (r: Resolution)
        ensures
            r.is_empty_spec(),
    {
        Resolution {
            dxcc_id: None,
            dxcc_prefix: None,
            country: None,
            continent: None,
            cq_zone: None,
            itu_zone: None,
        }
    }

    /// Whether nothing was found.
    pub open spec fn is_empty_spec(&self) -> bool {
        &&& self.dxcc_id is None
        &&& self.dxcc_prefix is None
        &&& self.country is None
        &&& self.continent is None
        &&& self.cq_zone is None
        &&& self.itu_zone is None
    }

    pub fn is_empty(&self) -> (r: bool)
        ensures
            r == self.is_empty_spec(),
    {
        self.dxcc_id.is_none() && self.dxcc_prefix.is_none() && self.country.is_none()
            && self.continent.is_none() && self.cq_zone.is_none() && self.itu_zone.is_none()
    }
}

/// Looks up what is known about a callsign's entity.
pub trait Resolver {
    /// What the resolver answers for the callsign `call`. An
    /// implementation states its answers here; one that states nothing
    /// answers nothing.
    open spec fn answer(&self, call: Seq<char>) -> Option<Resolution> {
        None
    }

    fn resolve(&self, call: &Callsign) -> (r: Option<Resolution>)
        ensures
            r == self.answer(call@),
    ;
}

/// A resolver that knows nothing.
#[derive(Debug, Clone, Copy)]
pub struct NoOpResolver;

impl Resolver for NoOpResolver {
    open spec fn answer(&self, call: Seq<char>) -> Option<Resolution> {
        None
    }

    fn resolve(&self, call: &Callsign) -> (r: Option<Resolution>) {
        None
    }
}

impl NoOpResolver {
    /// The lookup, which never finds anything.
    pub fn lookup(&self, call: &Callsign) -> (r: Option<Resolution>)
        ensures
            r is None,
    {
        None
    }
}

/// `a`, or `b` where `a` is absent.
pub open spec fn or_else<T>(a: Option<T>, b: Option<T>) -> Option<T> {
    match a {
        Some(x) => Some(x),
        None => b,
    }
}

/// The entity fields of a QSO: those the operator gave win, a resolution
/// fills the blanks.
pub open spec fn enriched(
    q: Qso,
    cmd: CreateQsoCommand,
    res: Option<Resolution>,
) -> bool {
    match res {
        Some(r) => {
            &&& q.dxcc_id == or_else(cmd.dxcc_id, r.dxcc_id)
            &&& q.dxcc_prefix == or_else(cmd.dxcc_prefix, r.dxcc_prefix)
            &&& q.continent == or_else(cmd.continent, r.continent)
            &&& q.cq_zone == or_else(cmd.cq_zone, r.cq_zone)
            &&& q.itu_zone == or_else(cmd.itu_zone, r.itu_zone)
        },
        None => {
            &&& q.dxcc_id == cmd.dxcc_id
            &&& q.dxcc_prefix == cmd.dxcc_prefix
            &&& q.continent == cmd.continent
            &&& q.cq_zone == cmd.cq_zone
            &&& q.itu_zone == cmd.itu_zone
        },
    }
}

/// The fields of `q` that come straight from the command.
pub open spec fn copies_command(q: Qso, cmd: CreateQsoCommand) -> bool {
    &&& q.call == cmd.call
    &&& q.qso_begin == cmd.qso_begin
    &&& q.qso_end == cmd.qso_end
    &&& q.band == cmd.band
    &&& q.freq_hz == cmd.freq_hz
    &&& q.mode == cmd.mode
    &&& q.submode == cmd.submode
    &&& q.rst_sent == cmd.rst_sent
    &&& q.rst_rcvd == cmd.rst_rcvd
    &&& q.operator_id == cmd.operator_id
    &&& q.station_location_id == cmd.station_location_id
    &&& q.station_callsign == cmd.station_callsign
    &&& q.owner_callsign == cmd.owner_callsign
    &&& q.grid == cmd.grid
    &&& q.state == cmd.state
    &&& q.county == cmd.county
    &&& q.province == cmd.province
    &&& q.iota == cmd.iota
    &&& q.tx_power_w == cmd.tx_power_w
    &&& q.rx_power_w == cmd.rx_power_w
    &&& q.propagation_mode == cmd.propagation_mode
    &&& q.sat_name == cmd.sat_name
    &&& q.sat_mode == cmd.sat_mode
}

/// `q` is the QSO that `cmd` logs under the id `id` at `now`, enriched
/// by `res`.
pub open spec fn built_from(
    q: Qso,
    cmd: CreateQsoCommand,
    res: Option<Resolution>,
    id: QsoId,
    now: UtcDateTime,
) -> bool {
    &&& q.id == id
    &&& copies_command(q, cmd)
    &&& enriched(q, cmd, res)
    &&& q.created_at == now
    &&& q.updated_at == now
}

fn fill<T>(a: Option<T>, b: Option<T>) -> (r: Option<T>)
    ensures
        r == or_else(a, b),
{
    match a {
        Some(x) => Some(x),
        None => b,
    }
}

/// The QSO a command logs, with the given id and time, and with the
/// blanks among its entity fields filled from `res`.
pub fn qso_from_command(
    cmd: CreateQsoCommand,
    res: Option<Resolution>,
    id: QsoId,
    now: UtcDateTime,
) -> (r: (Qso, Vec<QsoExchangeField>))
    ensures
        built_from(r.0, cmd, res, id, now),
        r.1 == cmd.exchange_fields,
{
    let (dxcc_id, dxcc_prefix, continent, cq_zone, itu_zone) = match res {
        Some(r) => (
            fill(cmd.dxcc_id, r.dxcc_id),
            fill(cmd.dxcc_prefix, r.dxcc_prefix),
            fill(cmd.continent, r.continent),
            fill(cmd.cq_zone, r.cq_zone),
            fill(cmd.itu_zone, r.itu_zone),
        ),
        None => (cmd.dxcc_id, cmd.dxcc_prefix, cmd.continent, cmd.cq_zone, cmd.itu_zone),
    };
    let q = Qso {
        id,
        call: cmd.call,
        qso_begin: cmd.qso_begin,
        qso_end: cmd.qso_end,
        band: cmd.band,
        freq_hz: cmd.freq_hz,
        mode: cmd.mode,
        submode: cmd.submode,
        rst_sent: cmd.rst_sent,
        rst_rcvd: cmd.rst_rcvd,
        operator_id: cmd.operator_id,
        station_location_id: cmd.station_location_id,
        station_callsign: cmd.station_callsign,
        owner_callsign: cmd.owner_callsign,
        dxcc_id,
        dxcc_prefix,
        continent,
        cq_zone,
        itu_zone,
        grid: cmd.grid,
        state: cmd.state,
        county: cmd.county,
        province: cmd.province,
        iota: cmd.iota,
        tx_power_w: cmd.tx_power_w,
        rx_power_w: cmd.rx_power_w,
        propagation_mode: cmd.propagation_mode,
        sat_name: cmd.sat_name,
        sat_mode: cmd.sat_mode,
        created_at: now,
        updated_at: now,
    };
    (q, cmd.exchange_fields)
}

/// An edit of a logged QSO: the command's fields replace the old ones,
/// re-enriched by `res`; the id and creation time stay, and the QSO is
/// marked updated at `now`.
pub fn qso_edited(
    existing: &Qso,
    cmd: CreateQsoCommand,
    res: Option<Resolution>,
    now: UtcDateTime,
) -> (r: Qso)
    ensures
        r.id == existing.id,
        copies_command(r, cmd),
        enriched(r, cmd, res),
        r.created_at == existing.created_at,
        r.updated_at == now,
{
    let (q, _fields) = qso_from_command(cmd, res, existing.id, now);
    Qso { created_at: existing.created_at, ..q }
}

} // verus!
