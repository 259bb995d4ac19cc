//! Searches over the log: the filter, the ordering and the summary row.
use vstd::prelude::*;

use crate::datetime::UtcDateTime;
use crate::ids::{QsoId, StationLocationId};
use crate::value::{Band, Callsign, Mode};

verus! {

/// Ordering of search results; most recent first unless asked otherwise.
#[derive(Debug, Clone, Copy, PartialEq, Eq, Structural)]
pub enum SortOrder {
    QsoBeginDesc,
    QsoBeginAsc,
    CallAsc,
    CallDesc,
    BandAsc,
    BandDesc,
}

impl Default for SortOrder {
    fn default() -> (r: SortOrder)
        ensures
            r == SortOrder::QsoBeginDesc,
    {
        SortOrder::QsoBeginDesc
    }
}

/// The SQL `ORDER BY` term of an ordering.
pub open spec fn sort_sql(s: SortOrder) -> Seq<char> {
    match s {
        SortOrder::QsoBeginDesc => "q.qso_begin DESC"@,
        SortOrder::QsoBeginAsc => "q.qso_begin ASC"@,
        SortOrder::CallAsc => "q.call ASC"@,
        SortOrder::CallDesc => "q.call DESC"@,
        SortOrder::BandAsc => "q.band ASC"@,
        SortOrder::BandDesc => "q.band DESC"@,
    }
}

impl SortOrder {
    pub fn sql_clause(self) -> (r: &'static str)
        ensures
            r@ == sort_sql(self),
    {
        match self {
            SortOrder::QsoBeginDesc => "q.qso_begin DESC",
            SortOrder::QsoBeginAsc => "q.qso_begin ASC",
            SortOrder::CallAsc => "q.call ASC",
            SortOrder::CallDesc => "q.call DESC",
            SortOrder::BandAsc => "q.band ASC",
            SortOrder::BandDesc => "q.band DESC",
        }
    }
}

/// A filter over the log. Every field left `None` matches everything.
#[derive(Debug, Clone)]
pub struct QsoSearch {
    pub call_prefix: Option<String>,
    pub exact_call: Option<Callsign>,
    pub band: Option<Band>,
    pub mode: Option<Mode>,
    pub dxcc_id: Option<u16>,
    pub station_location_id: Option<StationLocationId>,
    pub from: Option<UtcDateTime>,
    pub to: Option<UtcDateTime>,
    pub state: Option<String>,
    pub iota: Option<String>,
    pub continent: Option<String>,
    pub lotw_confirmed: Option<bool>,
    pub sort: SortOrder,
    pub limit: Option<u32>,
}

impl Default for QsoSearch {
    fn default() -> (r: QsoSearch)
        ensures
            r.call_prefix is None,
            r.exact_call is None,
            r.band is None,
            r.mode is None,
            r.dxcc_id is None,
            r.station_location_id is None,
            r.from is None,
            r.to is None,
            r.state is None,
            r.iota is None,
            r.continent is None,
            r.lotw_confirmed is None,
            r.sort == SortOrder::QsoBeginDesc,
            r.limit is None,
    {
        QsoSearch {
            call_prefix: None,
            exact_call: None,
            band: None,
            mode: None,
            dxcc_id: None,
            station_location_id: None,
            from: None,
            to: None,
            state: None,
            iota: None,
            continent: None,
            lotw_confirmed: None,
            sort: SortOrder::QsoBeginDesc,
            limit: None,
        }
    }
}

/// One row of a search result.
#[derive(Debug, Clone)]
pub struct QsoSummary {
    pub id: QsoId,
    pub call: Callsign,
    pub qso_begin: UtcDateTime,
    pub band: Option<Band>,
    pub mode: Option<Mode>,
    pub freq_hz: Option<i64>,
    pub dxcc_id: Option<u16>,
    pub dxcc_prefix: Option<String>,
    pub continent: Option<String>,
    pub cq_zone: Option<u8>,
}

} // verus!
