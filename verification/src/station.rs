//! Where the operator works from: a named station location with its
//! callsigns, place, zones and the accounts that services know it by.
use vstd::prelude::*;

use crate::datetime::UtcDateTime;
use crate::ids::{OperatingSessionId, OperatorId, StationLocationId};
use crate::value::Callsign;

verus! {

/// A station location. Latitude and longitude keep the decimal text of
/// the degrees.
#[derive(Debug, Clone)]
pub struct StationLocation {
    pub id: StationLocationId,
    pub name: String,
    pub station_callsign: Option<Callsign>,
    pub owner_callsign: Option<Callsign>,
    pub city: Option<String>,
    pub county: Option<String>,
    pub state: Option<String>,
    pub country: Option<String>,
    pub grid: Option<String>,
    pub latitude: Option<String>,
    pub longitude: Option<String>,
    pub cq_zone: Option<u8>,
    pub itu_zone: Option<u8>,
    pub iota: Option<String>,
    pub lotw_station_location: Option<String>,
    pub eqsl_account: Option<String>,
    pub created_at: UtcDateTime,
    pub updated_at: UtcDateTime,
}

/// An operating session: who operated from where, from when until when
/// (no end while it runs, or when it was never closed), its name and
/// notes.
#[derive(Debug, Clone)]
pub struct OperatingSession {
    pub id: OperatingSessionId,
    pub operator_id: Option<OperatorId>,
    pub station_location_id: Option<StationLocationId>,
    pub started_at: UtcDateTime,
    pub ended_at: Option<UtcDateTime>,
    pub name: Option<String>,
    pub notes: Option<String>,
}

} // verus!
