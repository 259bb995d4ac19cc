//! The log as SQLite holds it: the filter a search adds to its query, the
//! columns a QSO is stored in, and how a stored row reads back.
use vstd::prelude::*;

use crate::datetime::{
    datetime_valid, parse_rfc3339, rfc3339_instant, rfc3339_text, UtcDateTime,
};
use crate::ids::{
    format_uuid, parse_uuid, uuid_from_text, uuid_text, OperatingSessionId, OperatorId, QsoId,
    StationLocationId,
};
use crate::import::{opt_view, QsoExchangeField};
use crate::service_state::ImportedServiceState;
use crate::qso::Qso;
use crate::queries::QsoSearch;
use crate::repository::{
    confirmation_state_text, upload_state_text, AwardQso, ConfirmationState, RepositoryError,
    UploadState,
};
use crate::service_record::{ServiceRecord, ServiceRecordV};
use crate::station::{OperatingSession, StationLocation};
use crate::text::{chars_eq_str, chars_of, starts_with, string_from_chars, upper_chars, upper_seq};
use crate::value::{
    band_adif, band_from_adif, callsign_error_text, known_mode_name, law_band_adif_round_trip,
    law_mode_adif_round_trip, law_propagation_storage_round_trip, mode_adif, mode_from_adif,
    parse_callsign, propagation_from_storage, propagation_from_str, propagation_storage,
    propagation_to_str, string_of, field_source_from_storage, field_source_storage, Band,
    Callsign, CallsignError, FieldSource, Mode, ModeV,
};

verus! {

/// A value bound to a `?` of a query.
#[derive(Debug, Clone)]
pub enum SqlBind {
    Text(String),
    Int(i64),
}

/// The mathematical value of a bound value.
pub enum BindV {
    Text(Seq<char>),
    Int(int),
}

impl View for SqlBind {
    type V = BindV;

    open spec fn view(&self) -> BindV {
        match self {
            SqlBind::Text(s) => BindV::Text(s@),
            SqlBind::Int(i) => BindV::Int(*i as int),
        }
    }
}

/// `s` when `c` holds, else nothing.
pub open spec fn when<T>(c: bool, s: Seq<T>) -> Seq<T> {
    if c {
        s
    } else {
        seq![]
    }
}

/// The conditions a search adds to its query, in a fixed order: one
/// ` AND …` term for each filter that is set.
pub open spec fn filter_sql(q: QsoSearch) -> Seq<char> {
    when(q.call_prefix is Some, " AND q.call LIKE ?"@) + when(q.exact_call is Some, " AND q.call = ?"@)
        + when(q.band is Some, " AND q.band = ?"@) + when(q.mode is Some, " AND q.mode = ?"@) + when(
        q.dxcc_id is Some,
        " AND q.dxcc_id = ?"@,
    ) + when(q.station_location_id is Some, " AND q.station_location_id = ?"@) + when(
        q.from is Some,
        " AND q.qso_begin >= ?"@,
    ) + when(q.to is Some, " AND q.qso_begin <= ?"@) + when(q.state is Some, " AND q.state = ?"@)
        + when(q.iota is Some, " AND q.iota = ?"@) + when(q.continent is Some, " AND q.continent = ?"@)
        + match q.lotw_confirmed {
        Some(true) => " AND s.confirmation_state = 'confirmed'"@,
        Some(false) => " AND (s.id IS NULL OR s.confirmation_state != 'confirmed')"@,
        None => seq![],
    }
}

/// One bound value when the option holds a value, else none.
pub open spec fn bind_text(o: Option<Seq<char>>) -> Seq<BindV> {
    match o {
        Some(t) => seq![BindV::Text(t)],
        None => seq![],
    }
}

pub open spec fn prefix_bind(q: QsoSearch) -> Seq<BindV> {
    bind_text(
        match q.call_prefix {
            Some(p) => Some(upper_seq(p@) + seq!['%']),
            None => None,
        },
    )
}

pub open spec fn call_bind(q: QsoSearch) -> Seq<BindV> {
    bind_text(
        match q.exact_call {
            Some(c) => Some(c@),
            None => None,
        },
    )
}

pub open spec fn band_bind(q: QsoSearch) -> Seq<BindV> {
    bind_text(
        match q.band {
            Some(b) => Some(band_adif(b)),
            None => None,
        },
    )
}

pub open spec fn mode_bind(q: QsoSearch) -> Seq<BindV> {
    bind_text(
        match q.mode {
            Some(m) => Some(mode_adif(m@)),
            None => None,
        },
    )
}

pub open spec fn dxcc_bind(q: QsoSearch) -> Seq<BindV> {
    match q.dxcc_id {
        Some(d) => seq![BindV::Int(d as int)],
        None => seq![],
    }
}

pub open spec fn location_bind(q: QsoSearch) -> Seq<BindV> {
    bind_text(
        match q.station_location_id {
            Some(l) => Some(uuid_text(l.0)),
            None => None,
        },
    )
}

/// The RFC 3339 text of an optional instant.
pub open spec fn opt_time_text(t: Option<UtcDateTime>) -> Option<Seq<char>> {
    match t {
        Some(t) => Some(rfc3339_text(t)),
        None => None,
    }
}

pub open spec fn time_bind(t: Option<UtcDateTime>) -> Seq<BindV> {
    bind_text(opt_time_text(t))
}

pub open spec fn text_bind(s: Option<String>) -> Seq<BindV> {
    bind_text(
        match s {
            Some(s) => Some(s@),
            None => None,
        },
    )
}

/// The values bound to the `?` of `filter_sql`, in the same order: the
/// call prefix upper-cased with `%` after it, the callsign, ADIF band and
/// mode, the entity number, the location's UUID text, the bounds of the
/// time range as RFC 3339 text, and the state, IOTA and continent as
/// given.
pub open spec fn filter_binds(q: QsoSearch) -> Seq<BindV> {
    prefix_bind(q) + call_bind(q) + band_bind(q) + mode_bind(q) + dxcc_bind(q) + location_bind(q)
        + time_bind(q.from) + time_bind(q.to) + text_bind(q.state) + text_bind(q.iota) + text_bind(
        q.continent,
    )
}

fn push_opt(binds: &mut Vec<SqlBind>, o: Option<String>)
    ensures
        final(binds)@.map_values(|b: SqlBind| b@) == old(binds)@.map_values(|b: SqlBind| b@)
            + bind_text(
            match o {
                Some(s) => Some(s@),
                None => None,
            },
        ),
{
    let ghost before = binds@.map_values(|b: SqlBind| b@);
    match o {
        Some(s) => {
            let ghost v = s@;
            binds.push(SqlBind::Text(s));
            assert(binds@.map_values(|b: SqlBind| b@) =~= before + seq![BindV::Text(v)]);
        },
        None => {
            assert(before + seq![] =~= before);
        },
    }
}

fn copy_opt(o: &Option<String>) -> (r: Option<String>)
    ensures
        opt_view(r) == opt_view(*o),
{
    match o {
        Some(s) => Some(string_of(s.as_str())),
        None => None,
    }
}

fn time_value(t: Option<UtcDateTime>) -> (r: Option<String>)
    ensures
        opt_view(r) == opt_time_text(t),
{
    match t {
        Some(t) => Some(t.to_rfc3339()),
        None => None,
    }
}

fn filter_text(q: &QsoSearch) -> (r: String)
    ensures
        r@ == filter_sql(*q),
{
    let mut sql = String::new();
    assert(sql@ =~= seq![]);
    if q.call_prefix.is_some() {
        sql.append(" AND q.call LIKE ?");
    }
    if q.exact_call.is_some() {
        sql.append(" AND q.call = ?");
    }
    if q.band.is_some() {
        sql.append(" AND q.band = ?");
    }
    if q.mode.is_some() {
        sql.append(" AND q.mode = ?");
    }
    if q.dxcc_id.is_some() {
        sql.append(" AND q.dxcc_id = ?");
    }
    if q.station_location_id.is_some() {
        sql.append(" AND q.station_location_id = ?");
    }
    if q.from.is_some() {
        sql.append(" AND q.qso_begin >= ?");
    }
    if q.to.is_some() {
        sql.append(" AND q.qso_begin <= ?");
    }
    if q.state.is_some() {
        sql.append(" AND q.state = ?");
    }
    if q.iota.is_some() {
        sql.append(" AND q.iota = ?");
    }
    if q.continent.is_some() {
        sql.append(" AND q.continent = ?");
    }
    match q.lotw_confirmed {
        Some(true) => sql.append(" AND s.confirmation_state = 'confirmed'"),
        Some(false) => sql.append(" AND (s.id IS NULL OR s.confirmation_state != 'confirmed')"),
        None => {},
    }
    assert(sql@ =~= filter_sql(*q));
    sql
}

fn filter_values(q: &QsoSearch) -> (r: Vec<SqlBind>)
    ensures
        r@.map_values(|b: SqlBind| b@) == filter_binds(*q),
{
    let mut binds: Vec<SqlBind> = Vec::new();
    assert(binds@.map_values(|b: SqlBind| b@) =~= seq![]);
    let prefix = match &q.call_prefix {
        Some(p) => {
            let mut u = upper_chars(&chars_of(p.as_str()));
            u.push('%');
            assert(u@ =~= upper_seq(p@) + seq!['%']);
            Some(string_from_chars(u.as_slice()))
        },
        None => None,
    };
    let ghost pv = opt_view(prefix);
    assert(pv == match q.call_prefix {
        Some(p) => Some(upper_seq(p@) + seq!['%']),
        None => None::<Seq<char>>,
    });
    push_opt(&mut binds, prefix);
    let ghost b1 = binds@.map_values(|b: SqlBind| b@);
    assert(b1 =~= prefix_bind(*q));
    let call = match &q.exact_call {
        Some(c) => Some(string_of(c.as_str())),
        None => None,
    };
    push_opt(&mut binds, call);
    let ghost b2 = binds@.map_values(|b: SqlBind| b@);
    let band = match q.band {
        Some(b) => Some(string_of(b.as_adif())),
        None => None,
    };
    push_opt(&mut binds, band);
    let ghost b3 = binds@.map_values(|b: SqlBind| b@);
    let mode = match &q.mode {
        Some(m) => Some(string_of(m.as_adif())),
        None => None,
    };
    push_opt(&mut binds, mode);
    let ghost b4 = binds@.map_values(|b: SqlBind| b@);
    match q.dxcc_id {
        Some(d) => {
            binds.push(SqlBind::Int(d as i64));
            assert(binds@.map_values(|b: SqlBind| b@) =~= b4 + dxcc_bind(*q));
        },
        None => {
            assert(binds@.map_values(|b: SqlBind| b@) =~= b4 + dxcc_bind(*q));
        },
    }
    let ghost b5 = binds@.map_values(|b: SqlBind| b@);
    let loc = match q.station_location_id {
        Some(l) => Some(format_uuid(l.0)),
        None => None,
    };
    push_opt(&mut binds, loc);
    let ghost b6 = binds@.map_values(|b: SqlBind| b@);
    push_opt(&mut binds, time_value(q.from));
    let ghost b7 = binds@.map_values(|b: SqlBind| b@);
    push_opt(&mut binds, time_value(q.to));
    let ghost b8 = binds@.map_values(|b: SqlBind| b@);
    push_opt(&mut binds, copy_opt(&q.state));
    let ghost b9 = binds@.map_values(|b: SqlBind| b@);
    push_opt(&mut binds, copy_opt(&q.iota));
    let ghost b10 = binds@.map_values(|b: SqlBind| b@);
    push_opt(&mut binds, copy_opt(&q.continent));
    assert(b2 =~= b1 + call_bind(*q));
    assert(b3 =~= b2 + band_bind(*q));
    assert(b4 =~= b3 + mode_bind(*q));
    assert(b6 =~= b5 + location_bind(*q));
    assert(b7 =~= b6 + time_bind(q.from));
    assert(b8 =~= b7 + time_bind(q.to));
    assert(b9 =~= b8 + text_bind(q.state));
    assert(b10 =~= b9 + text_bind(q.iota));
    assert(binds@.map_values(|b: SqlBind| b@) =~= b10 + text_bind(q.continent));
    assert(binds@.map_values(|b: SqlBind| b@) =~= filter_binds(*q));
    binds
}

/// The conditions and bound values that narrow a query to a search; the
/// caller adds the select, the ordering and the limit.
pub fn search_filter(q: &QsoSearch) -> (r: (String, Vec<SqlBind>))
    ensures
        r.0@ == filter_sql(*q),
        r.1@.map_values(|b: SqlBind| b@) == filter_binds(*q),
{
    (filter_text(q), filter_values(q))
}

/// The columns of a stored QSO as SQLite hands them back: identifiers
/// and instants as text, whole numbers as integers, power as text.
#[derive(Debug, Clone)]
pub struct QsoRow {
    pub id: String,
    pub call: String,
    pub qso_begin: String,
    pub qso_end: Option<String>,
    pub band: Option<String>,
    pub freq_hz: Option<i64>,
    pub mode: Option<String>,
    pub submode: Option<String>,
    pub rst_sent: Option<String>,
    pub rst_rcvd: Option<String>,
    pub operator_id: Option<String>,
    pub station_location_id: Option<String>,
    pub station_callsign: Option<String>,
    pub owner_callsign: Option<String>,
    pub dxcc_id: Option<i64>,
    pub dxcc_prefix: Option<String>,
    pub continent: Option<String>,
    pub cq_zone: Option<i64>,
    pub itu_zone: Option<i64>,
    pub grid: Option<String>,
    pub state: Option<String>,
    pub county: Option<String>,
    pub province: Option<String>,
    pub iota: Option<String>,
    pub tx_power_w: Option<String>,
    pub rx_power_w: Option<String>,
    pub propagation_mode: Option<String>,
    pub sat_name: Option<String>,
    pub sat_mode: Option<String>,
    pub created_at: String,
    pub updated_at: String,
}

pub open spec fn opt_uuid_text(o: Option<u128>) -> Option<Seq<char>> {
    match o {
        Some(u) => Some(uuid_text(u)),
        None => None,
    }
}

pub open spec fn operator_uuid(o: Option<OperatorId>) -> Option<u128> {
    match o {
        Some(i) => Some(i.0),
        None => None,
    }
}

pub open spec fn location_uuid(o: Option<StationLocationId>) -> Option<u128> {
    match o {
        Some(i) => Some(i.0),
        None => None,
    }
}

pub open spec fn opt_call_text(o: Option<Callsign>) -> Option<Seq<char>> {
    match o {
        Some(c) => Some(c@),
        None => None,
    }
}

pub open spec fn opt_mode_view(o: Option<Mode>) -> Option<ModeV> {
    match o {
        Some(m) => Some(m@),
        None => None,
    }
}

/// The stored text of each column of a QSO: the UUID texts of its
/// identifiers, the RFC 3339 texts of its instants, the ADIF names of
/// band and mode, the stored name of the propagation mode, and every
/// other value as it is.
pub open spec fn qso_row_fits(row: QsoRow, q: Qso) -> bool {
    &&& row.id@ == uuid_text(q.id.0)
    &&& row.call@ == q.call@
    &&& row.qso_begin@ == rfc3339_text(q.qso_begin)
    &&& opt_view(row.qso_end) == opt_time_text(q.qso_end)
    &&& opt_view(row.band) == match q.band {
        Some(b) => Some(band_adif(b)),
        None => None,
    }
    &&& row.freq_hz == q.freq_hz
    &&& opt_view(row.mode) == match q.mode {
        Some(m) => Some(mode_adif(m@)),
        None => None,
    }
    &&& opt_view(row.submode) == opt_view(q.submode)
    &&& opt_view(row.rst_sent) == opt_view(q.rst_sent)
    &&& opt_view(row.rst_rcvd) == opt_view(q.rst_rcvd)
    &&& opt_view(row.operator_id) == opt_uuid_text(operator_uuid(q.operator_id))
    &&& opt_view(row.station_location_id) == opt_uuid_text(location_uuid(q.station_location_id))
    &&& opt_view(row.station_callsign) == opt_call_text(q.station_callsign)
    &&& opt_view(row.owner_callsign) == opt_call_text(q.owner_callsign)
    &&& row.dxcc_id == match q.dxcc_id {
        Some(d) => Some(d as i64),
        None => None,
    }
    &&& opt_view(row.dxcc_prefix) == opt_view(q.dxcc_prefix)
    &&& opt_view(row.continent) == opt_view(q.continent)
    &&& row.cq_zone == match q.cq_zone {
        Some(z) => Some(z as i64),
        None => None,
    }
    &&& row.itu_zone == match q.itu_zone {
        Some(z) => Some(z as i64),
        None => None,
    }
    &&& opt_view(row.grid) == opt_view(q.grid)
    &&& opt_view(row.state) == opt_view(q.state)
    &&& opt_view(row.county) == opt_view(q.county)
    &&& opt_view(row.province) == opt_view(q.province)
    &&& opt_view(row.iota) == opt_view(q.iota)
    &&& opt_view(row.tx_power_w) == opt_view(q.tx_power_w)
    &&& opt_view(row.rx_power_w) == opt_view(q.rx_power_w)
    &&& opt_view(row.propagation_mode) == match q.propagation_mode {
        Some(p) => Some(propagation_storage(p@)),
        None => None,
    }
    &&& opt_view(row.sat_name) == opt_view(q.sat_name)
    &&& opt_view(row.sat_mode) == opt_view(q.sat_mode)
    &&& row.created_at@ == rfc3339_text(q.created_at)
    &&& row.updated_at@ == rfc3339_text(q.updated_at)
}

fn opt_uuid_string(o: Option<u128>) -> (r: Option<String>)
    ensures
        opt_view(r) == opt_uuid_text(o),
{
    match o {
        Some(u) => Some(format_uuid(u)),
        None => None,
    }
}

fn opt_call_string(o: &Option<Callsign>) -> (r: Option<String>)
    ensures
        opt_view(r) == opt_call_text(*o),
{
    match o {
        Some(c) => Some(string_of(c.as_str())),
        None => None,
    }
}

/// The row a QSO is stored as.
pub fn qso_to_row(q: &Qso) -> (r: QsoRow)
    ensures
        qso_row_fits(r, *q),
{
    QsoRow {
        id: format_uuid(q.id.0),
        call: string_of(q.call.as_str()),
        qso_begin: q.qso_begin.to_rfc3339(),
        qso_end: time_value(q.qso_end),
        band: match q.band {
            Some(b) => Some(string_of(b.as_adif())),
            None => None,
        },
        freq_hz: q.freq_hz,
        mode: match &q.mode {
            Some(m) => Some(string_of(m.as_adif())),
            None => None,
        },
        submode: copy_opt(&q.submode),
        rst_sent: copy_opt(&q.rst_sent),
        rst_rcvd: copy_opt(&q.rst_rcvd),
        operator_id: opt_uuid_string(
            match q.operator_id {
                Some(i) => Some(i.0),
                None => None,
            },
        ),
        station_location_id: opt_uuid_string(
            match q.station_location_id {
                Some(i) => Some(i.0),
                None => None,
            },
        ),
        station_callsign: opt_call_string(&q.station_callsign),
        owner_callsign: opt_call_string(&q.owner_callsign),
        dxcc_id: match q.dxcc_id {
            Some(d) => Some(d as i64),
            None => None,
        },
        dxcc_prefix: copy_opt(&q.dxcc_prefix),
        continent: copy_opt(&q.continent),
        cq_zone: match q.cq_zone {
            Some(z) => Some(z as i64),
            None => None,
        },
        itu_zone: match q.itu_zone {
            Some(z) => Some(z as i64),
            None => None,
        },
        grid: copy_opt(&q.grid),
        state: copy_opt(&q.state),
        county: copy_opt(&q.county),
        province: copy_opt(&q.province),
        iota: copy_opt(&q.iota),
        tx_power_w: copy_opt(&q.tx_power_w),
        rx_power_w: copy_opt(&q.rx_power_w),
        propagation_mode: match &q.propagation_mode {
            Some(p) => Some(propagation_to_str(p)),
            None => None,
        },
        sat_name: copy_opt(&q.sat_name),
        sat_mode: copy_opt(&q.sat_mode),
        created_at: q.created_at.to_rfc3339(),
        updated_at: q.updated_at.to_rfc3339(),
    }
}

/// Why a stored row could not be read: a column that should hold a
/// UUID, a callsign or an instant does not.
pub enum RowFailure {
    Uuid,
    Call(CallsignError),
    Time,
}

pub open spec fn call_failure(s: Seq<char>) -> Option<RowFailure> {
    match parse_callsign(s) {
        Ok(_) => None,
        Err(e) => Some(RowFailure::Call(e)),
    }
}

pub open spec fn opt_call_failure(o: Option<String>) -> Option<RowFailure> {
    match o {
        Some(s) => call_failure(s@),
        None => None,
    }
}

pub open spec fn opt_uuid_bad(o: Option<String>) -> bool {
    o matches Some(s) && uuid_from_text(s@) is None
}

pub open spec fn opt_time_bad(o: Option<String>) -> bool {
    o matches Some(s) && rfc3339_instant(s@) is None
}

/// The first column, in the order they are read, that does not hold
/// what it should: id, call, start, end, operator, location, station
/// callsign, owner callsign, creation and update times.
pub open spec fn row_failure(row: QsoRow) -> Option<RowFailure> {
    if uuid_from_text(row.id@) is None {
        Some(RowFailure::Uuid)
    } else if call_failure(row.call@) is Some {
        call_failure(row.call@)
    } else if rfc3339_instant(row.qso_begin@) is None {
        Some(RowFailure::Time)
    } else if opt_time_bad(row.qso_end) {
        Some(RowFailure::Time)
    } else if opt_uuid_bad(row.operator_id) {
        Some(RowFailure::Uuid)
    } else if opt_uuid_bad(row.station_location_id) {
        Some(RowFailure::Uuid)
    } else if opt_call_failure(row.station_callsign) is Some {
        opt_call_failure(row.station_callsign)
    } else if opt_call_failure(row.owner_callsign) is Some {
        opt_call_failure(row.owner_callsign)
    } else if rfc3339_instant(row.created_at@) is None {
        Some(RowFailure::Time)
    } else if rfc3339_instant(row.updated_at@) is None {
        Some(RowFailure::Time)
    } else {
        None
    }
}

/// The storage error that reports a failure: `bad uuid: …`, `bad
/// timestamp in db: …` (the rest is the parser's message), or `bad
/// callsign in db: ` and the callsign error.
pub open spec fn failure_fits(e: RepositoryError, f: RowFailure) -> bool {
    match f {
        RowFailure::Uuid => e matches RepositoryError::Storage(m) && starts_with(m@, "bad uuid: "@),
        RowFailure::Time => e matches RepositoryError::Storage(m) && starts_with(
            m@,
            "bad timestamp in db: "@,
        ),
        RowFailure::Call(c) => e matches RepositoryError::Storage(m) && m@ == "bad callsign in db: "@
            + callsign_error_text(c),
    }
}

pub open spec fn opt_instant_read(o: Option<String>, t: Option<UtcDateTime>) -> bool {
    match (o, t) {
        (Some(s), Some(x)) => rfc3339_instant(s@) == Some(x),
        (None, None) => true,
        _ => false,
    }
}

pub open spec fn opt_uuid_read(o: Option<String>, u: Option<u128>) -> bool {
    match (o, u) {
        (Some(s), Some(x)) => uuid_from_text(s@) == Some(x),
        (None, None) => true,
        _ => false,
    }
}

pub open spec fn call_read(s: Seq<char>, c: Callsign) -> bool {
    parse_callsign(s) matches Ok(v) && v == c@
}

pub open spec fn opt_call_read(o: Option<String>, c: Option<Callsign>) -> bool {
    match (o, c) {
        (Some(s), Some(x)) => call_read(s@, x),
        (None, None) => true,
        _ => false,
    }
}

/// The QSO a readable row holds: each column read back the way it is
/// written, whole numbers narrowed to their field's width.
pub open spec fn qso_read_fits(q: Qso, row: QsoRow) -> bool {
    &&& uuid_from_text(row.id@) == Some(q.id.0)
    &&& call_read(row.call@, q.call)
    &&& rfc3339_instant(row.qso_begin@) == Some(q.qso_begin)
    &&& opt_instant_read(row.qso_end, q.qso_end)
    &&& q.band == match row.band {
        Some(b) => band_from_adif(b@),
        None => None,
    }
    &&& q.freq_hz == row.freq_hz
    &&& opt_mode_view(q.mode) == match row.mode {
        Some(m) => Some(mode_from_adif(m@)),
        None => None,
    }
    &&& opt_view(q.submode) == opt_view(row.submode)
    &&& opt_view(q.rst_sent) == opt_view(row.rst_sent)
    &&& opt_view(q.rst_rcvd) == opt_view(row.rst_rcvd)
    &&& opt_uuid_read(row.operator_id, operator_uuid(q.operator_id))
    &&& opt_uuid_read(row.station_location_id, location_uuid(q.station_location_id))
    &&& opt_call_read(row.station_callsign, q.station_callsign)
    &&& opt_call_read(row.owner_callsign, q.owner_callsign)
    &&& q.dxcc_id == match row.dxcc_id {
        Some(v) => Some(v as u16),
        None => None,
    }
    &&& opt_view(q.dxcc_prefix) == opt_view(row.dxcc_prefix)
    &&& opt_view(q.continent) == opt_view(row.continent)
    &&& q.cq_zone == match row.cq_zone {
        Some(v) => Some(v as u8),
        None => None,
    }
    &&& q.itu_zone == match row.itu_zone {
        Some(v) => Some(v as u8),
        None => None,
    }
    &&& opt_view(q.grid) == opt_view(row.grid)
    &&& opt_view(q.state) == opt_view(row.state)
    &&& opt_view(q.county) == opt_view(row.county)
    &&& opt_view(q.province) == opt_view(row.province)
    &&& opt_view(q.iota) == opt_view(row.iota)
    &&& opt_view(q.tx_power_w) == opt_view(row.tx_power_w)
    &&& opt_view(q.rx_power_w) == opt_view(row.rx_power_w)
    &&& match (row.propagation_mode, q.propagation_mode) {
        (Some(s), Some(p)) => p@ == propagation_from_storage(s@),
        (None, None) => true,
        _ => false,
    }
    &&& opt_view(q.sat_name) == opt_view(row.sat_name)
    &&& opt_view(q.sat_mode) == opt_view(row.sat_mode)
    &&& rfc3339_instant(row.created_at@) == Some(q.created_at)
    &&& rfc3339_instant(row.updated_at@) == Some(q.updated_at)
}

/// What reading a row gives: the error of its first bad column, else the
/// QSO it holds.
pub open spec fn row_read_fits(r: Result<Qso, RepositoryError>, row: QsoRow) -> bool {
    match row_failure(row) {
        Some(f) => r matches Err(e) && failure_fits(e, f),
        None => r matches Ok(q) && qso_read_fits(q, row),
    }
}

/// An instant whose RFC 3339 text has a four-digit year.
pub open spec fn instant_storable(t: UtcDateTime) -> bool {
    datetime_valid(t) && 0 <= t.year <= 9999
}

/// The UUID text `s` reads back as the UUID it is the text of.
pub open spec fn uuid_reads_back(s: Seq<char>) -> bool {
    forall|u: u128| s == #[trigger] uuid_text(u) ==> uuid_from_text(s) == Some(u)
}

/// The RFC 3339 text `s` of a storable instant reads back as that
/// instant.
pub open spec fn instant_reads_back(s: Seq<char>) -> bool {
    forall|t: UtcDateTime|
        instant_storable(t) && s == #[trigger] rfc3339_text(t) ==> rfc3339_instant(s) == Some(t)
}

pub open spec fn opt_uuid_reads_back(o: Option<String>) -> bool {
    o matches Some(s) ==> uuid_reads_back(s@)
}

pub open spec fn opt_instant_reads_back(o: Option<String>) -> bool {
    o matches Some(s) ==> instant_reads_back(s@)
}

/// What the parsers say of the columns of a row that was read: its
/// identifier texts and instant texts read back as what they are the
/// text of.
pub open spec fn row_parsers_agree(row: QsoRow) -> bool {
    &&& uuid_reads_back(row.id@)
    &&& instant_reads_back(row.qso_begin@)
    &&& opt_instant_reads_back(row.qso_end)
    &&& opt_uuid_reads_back(row.operator_id)
    &&& opt_uuid_reads_back(row.station_location_id)
    &&& instant_reads_back(row.created_at@)
    &&& instant_reads_back(row.updated_at@)
}

proof fn lemma_starts_with_concat(a: Seq<char>, b: Seq<char>)
    ensures
        starts_with(a + b, a),
{
    assert((a + b).subrange(0, a.len() as int) =~= a);
}

fn read_uuid(s: &String) -> (r: Result<u128, RepositoryError>)
    ensures
        r matches Ok(u) ==> uuid_from_text(s@) == Some(u),
        r matches Err(e) ==> uuid_from_text(s@) is None && failure_fits(e, RowFailure::Uuid),
        uuid_reads_back(s@),
{
    match parse_uuid(s.as_str()) {
        Ok(u) => Ok(u),
        Err(m) => {
            let mut msg = string_of("bad uuid: ");
            msg.append(m.as_str());
            proof {
                lemma_starts_with_concat("bad uuid: "@, m@);
            }
            Err(RepositoryError::Storage(msg))
        },
    }
}

fn read_opt_uuid(o: &Option<String>) -> (r: Result<Option<u128>, RepositoryError>)
    ensures
        r matches Ok(u) ==> opt_uuid_read(*o, u),
        r matches Err(e) ==> opt_uuid_bad(*o) && failure_fits(e, RowFailure::Uuid),
        opt_uuid_reads_back(*o),
{
    match o {
        Some(s) => match read_uuid(s) {
            Ok(u) => Ok(Some(u)),
            Err(e) => Err(e),
        },
        None => Ok(None),
    }
}

fn read_instant(s: &String) -> (r: Result<UtcDateTime, RepositoryError>)
    ensures
        r matches Ok(t) ==> rfc3339_instant(s@) == Some(t),
        r matches Err(e) ==> rfc3339_instant(s@) is None && failure_fits(e, RowFailure::Time),
        instant_reads_back(s@),
{
    match parse_rfc3339(s.as_str()) {
        Ok(t) => Ok(t),
        Err(m) => {
            let mut msg = string_of("bad timestamp in db: ");
            msg.append(m.as_str());
            proof {
                lemma_starts_with_concat("bad timestamp in db: "@, m@);
            }
            Err(RepositoryError::Storage(msg))
        },
    }
}

fn read_opt_instant(o: &Option<String>) -> (r: Result<Option<UtcDateTime>, RepositoryError>)
    ensures
        r matches Ok(t) ==> opt_instant_read(*o, t),
        r matches Err(e) ==> opt_time_bad(*o) && failure_fits(e, RowFailure::Time),
        opt_instant_reads_back(*o),
{
    match o {
        Some(s) => match read_instant(s) {
            Ok(t) => Ok(Some(t)),
            Err(e) => Err(e),
        },
        None => Ok(None),
    }
}

fn read_call(s: &String) -> (r: Result<Callsign, RepositoryError>)
    ensures
        r matches Ok(c) ==> call_read(s@, c),
        r matches Err(e) ==> (call_failure(s@) matches Some(f) && failure_fits(e, f)),
{
    match Callsign::parse(s.as_str()) {
        Ok(c) => Ok(c),
        Err(e) => {
            let mut msg = string_of("bad callsign in db: ");
            msg.append(e.message().as_str());
            Err(RepositoryError::Storage(msg))
        },
    }
}

fn read_opt_call(o: &Option<String>) -> (r: Result<Option<Callsign>, RepositoryError>)
    ensures
        r matches Ok(c) ==> opt_call_read(*o, c),
        r matches Err(e) ==> (opt_call_failure(*o) matches Some(f) && failure_fits(e, f)),
{
    match o {
        Some(s) => match read_call(s) {
            Ok(c) => Ok(Some(c)),
            Err(e) => Err(e),
        },
        None => Ok(None),
    }
}

/// The QSO a stored row holds, or the storage error of its first bad
/// column.
#[verifier::rlimit(30)]
pub fn qso_from_row(row: QsoRow) -> (r: Result<Qso, RepositoryError>)
    ensures
        row_read_fits(r, row),
        row_parsers_agree(row),
{
    let id = read_uuid(&row.id);
    let call = read_call(&row.call);
    let qso_begin = read_instant(&row.qso_begin);
    let qso_end = read_opt_instant(&row.qso_end);
    let operator_id = read_opt_uuid(&row.operator_id);
    let station_location_id = read_opt_uuid(&row.station_location_id);
    let station_callsign = read_opt_call(&row.station_callsign);
    let owner_callsign = read_opt_call(&row.owner_callsign);
    let created_at = read_instant(&row.created_at);
    let updated_at = read_instant(&row.updated_at);
    let id = match id {
        Ok(u) => u,
        Err(e) => return Err(e),
    };
    let call = match call {
        Ok(c) => c,
        Err(e) => return Err(e),
    };
    let qso_begin = match qso_begin {
        Ok(t) => t,
        Err(e) => return Err(e),
    };
    let qso_end = match qso_end {
        Ok(t) => t,
        Err(e) => return Err(e),
    };
    let operator_id = match operator_id {
        Ok(u) => u,
        Err(e) => return Err(e),
    };
    let station_location_id = match station_location_id {
        Ok(u) => u,
        Err(e) => return Err(e),
    };
    let station_callsign = match station_callsign {
        Ok(c) => c,
        Err(e) => return Err(e),
    };
    let owner_callsign = match owner_callsign {
        Ok(c) => c,
        Err(e) => return Err(e),
    };
    let created_at = match created_at {
        Ok(t) => t,
        Err(e) => return Err(e),
    };
    let updated_at = match updated_at {
        Ok(t) => t,
        Err(e) => return Err(e),
    };
    let band = match &row.band {
        Some(b) => Band::from_adif(b.as_str()),
        None => None,
    };
    let mode = match &row.mode {
        Some(m) => Some(Mode::from_adif(m.as_str())),
        None => None,
    };
    let propagation_mode = match &row.propagation_mode {
        Some(p) => Some(propagation_from_str(p.as_str())),
        None => None,
    };
    let dxcc_id = match row.dxcc_id {
        Some(v) => Some(#[verifier::truncate] (v as u16)),
        None => None,
    };
    let cq_zone = match row.cq_zone {
        Some(v) => Some(#[verifier::truncate] (v as u8)),
        None => None,
    };
    let itu_zone = match row.itu_zone {
        Some(v) => Some(#[verifier::truncate] (v as u8)),
        None => None,
    };
    Ok(
        Qso {
            id: QsoId::from_uuid(id),
            call,
            qso_begin,
            qso_end,
            band,
            freq_hz: row.freq_hz,
            mode,
            submode: copy_opt(&row.submode),
            rst_sent: copy_opt(&row.rst_sent),
            rst_rcvd: copy_opt(&row.rst_rcvd),
            operator_id: match operator_id {
                Some(u) => Some(OperatorId::from_uuid(u)),
                None => None,
            },
            station_location_id: match station_location_id {
                Some(u) => Some(StationLocationId::from_uuid(u)),
                None => None,
            },
            station_callsign,
            owner_callsign,
            dxcc_id,
            dxcc_prefix: copy_opt(&row.dxcc_prefix),
            continent: copy_opt(&row.continent),
            cq_zone,
            itu_zone,
            grid: copy_opt(&row.grid),
            state: copy_opt(&row.state),
            county: copy_opt(&row.county),
            province: copy_opt(&row.province),
            iota: copy_opt(&row.iota),
            tx_power_w: copy_opt(&row.tx_power_w),
            rx_power_w: copy_opt(&row.rx_power_w),
            propagation_mode,
            sat_name: copy_opt(&row.sat_name),
            sat_mode: copy_opt(&row.sat_mode),
            created_at,
            updated_at,
        },
    )
}

/// A callsign in its parsed form: it parses as itself.
pub open spec fn call_canonical(c: Seq<char>) -> bool {
    parse_callsign(c) matches Ok(v) && v == c
}

pub open spec fn opt_call_canonical(o: Option<Callsign>) -> bool {
    o matches Some(c) ==> call_canonical(c@)
}

/// A mode whose ADIF name reads back as the mode: a free-form one is
/// upper-case and none of the recognised names.
pub open spec fn mode_storable(o: Option<Mode>) -> bool {
    o matches Some(m) ==> (m@ matches ModeV::Other(s) ==> upper_seq(s) == s && !known_mode_name(s))
}

/// A QSO that storage gives back unchanged: its instants exist and have
/// four-digit years, its callsigns are in parsed form, its mode reads
/// back from its ADIF name.
pub open spec fn storable(q: Qso) -> bool {
    &&& instant_storable(q.qso_begin)
    &&& (q.qso_end matches Some(t) ==> instant_storable(t))
    &&& instant_storable(q.created_at)
    &&& instant_storable(q.updated_at)
    &&& call_canonical(q.call@)
    &&& opt_call_canonical(q.station_callsign)
    &&& opt_call_canonical(q.owner_callsign)
    &&& mode_storable(q.mode)
}

/// Two QSOs that agree in every field.
pub open spec fn same_qso(a: Qso, b: Qso) -> bool {
    &&& a.id == b.id
    &&& a.call@ == b.call@
    &&& a.qso_begin == b.qso_begin
    &&& a.qso_end == b.qso_end
    &&& a.band == b.band
    &&& a.freq_hz == b.freq_hz
    &&& opt_mode_view(a.mode) == opt_mode_view(b.mode)
    &&& opt_view(a.submode) == opt_view(b.submode)
    &&& opt_view(a.rst_sent) == opt_view(b.rst_sent)
    &&& opt_view(a.rst_rcvd) == opt_view(b.rst_rcvd)
    &&& a.operator_id == b.operator_id
    &&& a.station_location_id == b.station_location_id
    &&& opt_call_text(a.station_callsign) == opt_call_text(b.station_callsign)
    &&& opt_call_text(a.owner_callsign) == opt_call_text(b.owner_callsign)
    &&& a.dxcc_id == b.dxcc_id
    &&& opt_view(a.dxcc_prefix) == opt_view(b.dxcc_prefix)
    &&& opt_view(a.continent) == opt_view(b.continent)
    &&& a.cq_zone == b.cq_zone
    &&& a.itu_zone == b.itu_zone
    &&& opt_view(a.grid) == opt_view(b.grid)
    &&& opt_view(a.state) == opt_view(b.state)
    &&& opt_view(a.county) == opt_view(b.county)
    &&& opt_view(a.province) == opt_view(b.province)
    &&& opt_view(a.iota) == opt_view(b.iota)
    &&& opt_view(a.tx_power_w) == opt_view(b.tx_power_w)
    &&& opt_view(a.rx_power_w) == opt_view(b.rx_power_w)
    &&& match (a.propagation_mode, b.propagation_mode) {
        (Some(p), Some(x)) => p@ == x@,
        (None, None) => true,
        _ => false,
    }
    &&& opt_view(a.sat_name) == opt_view(b.sat_name)
    &&& opt_view(a.sat_mode) == opt_view(b.sat_mode)
    &&& a.created_at == b.created_at
    &&& a.updated_at == b.updated_at
}

/// A QSO stored and read back is the QSO that was stored, for every QSO
/// whose instants have four-digit years, whose callsigns are in parsed
/// form and whose mode reads back from its ADIF name.
pub proof fn law_stored_qso_reads_back(q: Qso, row: QsoRow, r: Result<Qso, RepositoryError>)
    requires
        storable(q),
        qso_row_fits(row, q),
        row_read_fits(r, row),
        row_parsers_agree(row),
    ensures
        r matches Ok(back) && same_qso(back, q),
{
    assert(uuid_from_text(row.id@) == Some(q.id.0));
    assert(rfc3339_instant(row.qso_begin@) == Some(q.qso_begin));
    assert(rfc3339_instant(row.created_at@) == Some(q.created_at));
    assert(rfc3339_instant(row.updated_at@) == Some(q.updated_at));
    if let Some(t) = q.qso_end {
        assert(rfc3339_instant(row.qso_end.unwrap()@) == Some(t));
    }
    if let Some(o) = q.operator_id {
        assert(uuid_from_text(row.operator_id.unwrap()@) == Some(o.0));
    }
    if let Some(o) = q.station_location_id {
        assert(uuid_from_text(row.station_location_id.unwrap()@) == Some(o.0));
    }
    if let Some(m) = q.mode {
        law_mode_adif_round_trip(m@);
    }
    if let Some(b) = q.band {
        law_band_adif_round_trip(b);
    }
    if let Some(p) = q.propagation_mode {
        law_propagation_storage_round_trip(p@);
    }
    assert(row_failure(row) is None);
    match r {
        Ok(back) => {
            assert(same_qso(back, q));
        },
        Err(_) => {},
    }
}

/// The columns of a stored station location.
#[derive(Debug, Clone)]
pub struct LocationRow {
    pub id: String,
    pub name: String,
    pub station_callsign: Option<String>,
    pub owner_callsign: Option<String>,
    pub city: Option<String>,
    pub county: Option<String>,
    pub state: Option<String>,
    pub country: Option<String>,
    pub grid: Option<String>,
    pub latitude: Option<String>,
    pub longitude: Option<String>,
    pub cq_zone: Option<i64>,
    pub itu_zone: Option<i64>,
    pub iota: Option<String>,
    pub lotw_station_location: Option<String>,
    pub eqsl_account: Option<String>,
    pub created_at: String,
    pub updated_at: String,
}

/// The stored text of each column of a station location.
pub open spec fn location_row_fits(row: LocationRow, l: StationLocation) -> bool {
    &&& row.id@ == uuid_text(l.id.0)
    &&& row.name@ == l.name@
    &&& opt_view(row.station_callsign) == opt_call_text(l.station_callsign)
    &&& opt_view(row.owner_callsign) == opt_call_text(l.owner_callsign)
    &&& opt_view(row.city) == opt_view(l.city)
    &&& opt_view(row.county) == opt_view(l.county)
    &&& opt_view(row.state) == opt_view(l.state)
    &&& opt_view(row.country) == opt_view(l.country)
    &&& opt_view(row.grid) == opt_view(l.grid)
    &&& opt_view(row.latitude) == opt_view(l.latitude)
    &&& opt_view(row.longitude) == opt_view(l.longitude)
    &&& row.cq_zone == match l.cq_zone {
        Some(z) => Some(z as i64),
        None => None,
    }
    &&& row.itu_zone == match l.itu_zone {
        Some(z) => Some(z as i64),
        None => None,
    }
    &&& opt_view(row.iota) == opt_view(l.iota)
    &&& opt_view(row.lotw_station_location) == opt_view(l.lotw_station_location)
    &&& opt_view(row.eqsl_account) == opt_view(l.eqsl_account)
    &&& row.created_at@ == rfc3339_text(l.created_at)
    &&& row.updated_at@ == rfc3339_text(l.updated_at)
}

/// The row a station location is stored as.
pub fn location_to_row(l: &StationLocation) -> (r: LocationRow)
    ensures
        location_row_fits(r, *l),
{
    LocationRow {
        id: format_uuid(l.id.0),
        name: string_of(l.name.as_str()),
        station_callsign: opt_call_string(&l.station_callsign),
        owner_callsign: opt_call_string(&l.owner_callsign),
        city: copy_opt(&l.city),
        county: copy_opt(&l.county),
        state: copy_opt(&l.state),
        country: copy_opt(&l.country),
        grid: copy_opt(&l.grid),
        latitude: copy_opt(&l.latitude),
        longitude: copy_opt(&l.longitude),
        cq_zone: match l.cq_zone {
            Some(z) => Some(z as i64),
            None => None,
        },
        itu_zone: match l.itu_zone {
            Some(z) => Some(z as i64),
            None => None,
        },
        iota: copy_opt(&l.iota),
        lotw_station_location: copy_opt(&l.lotw_station_location),
        eqsl_account: copy_opt(&l.eqsl_account),
        created_at: l.created_at.to_rfc3339(),
        updated_at: l.updated_at.to_rfc3339(),
    }
}

/// The first column of a location row, in the order they are read, that
/// does not hold what it should: id, station callsign, owner callsign,
/// creation and update times.
pub open spec fn location_failure(row: LocationRow) -> Option<RowFailure> {
    if uuid_from_text(row.id@) is None {
        Some(RowFailure::Uuid)
    } else if opt_call_failure(row.station_callsign) is Some {
        opt_call_failure(row.station_callsign)
    } else if opt_call_failure(row.owner_callsign) is Some {
        opt_call_failure(row.owner_callsign)
    } else if rfc3339_instant(row.created_at@) is None {
        Some(RowFailure::Time)
    } else if rfc3339_instant(row.updated_at@) is None {
        Some(RowFailure::Time)
    } else {
        None
    }
}

/// The storage error a location row reports: `bad uuid: …`, `bad
/// callsign: ` and the callsign error, or `bad timestamp: …`.
pub open spec fn location_failure_fits(e: RepositoryError, f: RowFailure) -> bool {
    match f {
        RowFailure::Uuid => e matches RepositoryError::Storage(m) && starts_with(m@, "bad uuid: "@),
        RowFailure::Time => e matches RepositoryError::Storage(m) && starts_with(
            m@,
            "bad timestamp: "@,
        ),
        RowFailure::Call(c) => e matches RepositoryError::Storage(m) && m@ == "bad callsign: "@
            + callsign_error_text(c),
    }
}

/// The station location a readable row holds.
pub open spec fn location_read_fits(l: StationLocation, row: LocationRow) -> bool {
    &&& uuid_from_text(row.id@) == Some(l.id.0)
    &&& l.name@ == row.name@
    &&& opt_call_read(row.station_callsign, l.station_callsign)
    &&& opt_call_read(row.owner_callsign, l.owner_callsign)
    &&& opt_view(l.city) == opt_view(row.city)
    &&& opt_view(l.county) == opt_view(row.county)
    &&& opt_view(l.state) == opt_view(row.state)
    &&& opt_view(l.country) == opt_view(row.country)
    &&& opt_view(l.grid) == opt_view(row.grid)
    &&& opt_view(l.latitude) == opt_view(row.latitude)
    &&& opt_view(l.longitude) == opt_view(row.longitude)
    &&& l.cq_zone == match row.cq_zone {
        Some(v) => Some(v as u8),
        None => None,
    }
    &&& l.itu_zone == match row.itu_zone {
        Some(v) => Some(v as u8),
        None => None,
    }
    &&& opt_view(l.iota) == opt_view(row.iota)
    &&& opt_view(l.lotw_station_location) == opt_view(row.lotw_station_location)
    &&& opt_view(l.eqsl_account) == opt_view(row.eqsl_account)
    &&& rfc3339_instant(row.created_at@) == Some(l.created_at)
    &&& rfc3339_instant(row.updated_at@) == Some(l.updated_at)
}

pub open spec fn location_read(r: Result<StationLocation, RepositoryError>, row: LocationRow) -> bool {
    match location_failure(row) {
        Some(f) => r matches Err(e) && location_failure_fits(e, f),
        None => r matches Ok(l) && location_read_fits(l, row),
    }
}

/// What the parsers say of the identifier and instant columns of a
/// location row.
pub open spec fn location_parsers_agree(row: LocationRow) -> bool {
    &&& uuid_reads_back(row.id@)
    &&& instant_reads_back(row.created_at@)
    &&& instant_reads_back(row.updated_at@)
}

fn read_location_call(o: &Option<String>) -> (r: Result<Option<Callsign>, RepositoryError>)
    ensures
        r matches Ok(c) ==> opt_call_read(*o, c),
        r matches Err(e) ==> (opt_call_failure(*o) matches Some(f) && location_failure_fits(e, f)),
{
    match o {
        Some(s) => match Callsign::parse(s.as_str()) {
            Ok(c) => Ok(Some(c)),
            Err(e) => {
                let mut msg = string_of("bad callsign: ");
                msg.append(e.message().as_str());
                Err(RepositoryError::Storage(msg))
            },
        },
        None => Ok(None),
    }
}

fn read_location_instant(s: &String) -> (r: Result<UtcDateTime, RepositoryError>)
    ensures
        r matches Ok(t) ==> rfc3339_instant(s@) == Some(t),
        r matches Err(e) ==> rfc3339_instant(s@) is None && location_failure_fits(e, RowFailure::Time),
        instant_reads_back(s@),
{
    match parse_rfc3339(s.as_str()) {
        Ok(t) => Ok(t),
        Err(m) => {
            let mut msg = string_of("bad timestamp: ");
            msg.append(m.as_str());
            proof {
                lemma_starts_with_concat("bad timestamp: "@, m@);
            }
            Err(RepositoryError::Storage(msg))
        },
    }
}

/// The station location a stored row holds, or the storage error of its
/// first bad column.
pub fn location_from_row(row: LocationRow) -> (r: Result<StationLocation, RepositoryError>)
    ensures
        location_read(r, row),
        location_parsers_agree(row),
{
    let id = read_uuid(&row.id);
    let station_callsign = read_location_call(&row.station_callsign);
    let owner_callsign = read_location_call(&row.owner_callsign);
    let created_at = read_location_instant(&row.created_at);
    let updated_at = read_location_instant(&row.updated_at);
    let id = match id {
        Ok(u) => u,
        Err(e) => return Err(e),
    };
    let station_callsign = match station_callsign {
        Ok(c) => c,
        Err(e) => return Err(e),
    };
    let owner_callsign = match owner_callsign {
        Ok(c) => c,
        Err(e) => return Err(e),
    };
    let created_at = match created_at {
        Ok(t) => t,
        Err(e) => return Err(e),
    };
    let updated_at = match updated_at {
        Ok(t) => t,
        Err(e) => return Err(e),
    };
    let cq_zone = match row.cq_zone {
        Some(v) => Some(#[verifier::truncate] (v as u8)),
        None => None,
    };
    let itu_zone = match row.itu_zone {
        Some(v) => Some(#[verifier::truncate] (v as u8)),
        None => None,
    };
    Ok(
        StationLocation {
            id: StationLocationId::from_uuid(id),
            name: string_of(row.name.as_str()),
            station_callsign,
            owner_callsign,
            city: copy_opt(&row.city),
            county: copy_opt(&row.county),
            state: copy_opt(&row.state),
            country: copy_opt(&row.country),
            grid: copy_opt(&row.grid),
            latitude: copy_opt(&row.latitude),
            longitude: copy_opt(&row.longitude),
            cq_zone,
            itu_zone,
            iota: copy_opt(&row.iota),
            lotw_station_location: copy_opt(&row.lotw_station_location),
            eqsl_account: copy_opt(&row.eqsl_account),
            created_at,
            updated_at,
        },
    )
}

/// A station location that storage gives back unchanged: its instants
/// have four-digit years and its callsigns are in parsed form.
pub open spec fn location_storable(l: StationLocation) -> bool {
    &&& instant_storable(l.created_at)
    &&& instant_storable(l.updated_at)
    &&& opt_call_canonical(l.station_callsign)
    &&& opt_call_canonical(l.owner_callsign)
}

/// Two station locations that agree in every field.
pub open spec fn same_location(a: StationLocation, b: StationLocation) -> bool {
    &&& a.id == b.id
    &&& a.name@ == b.name@
    &&& opt_call_text(a.station_callsign) == opt_call_text(b.station_callsign)
    &&& opt_call_text(a.owner_callsign) == opt_call_text(b.owner_callsign)
    &&& opt_view(a.city) == opt_view(b.city)
    &&& opt_view(a.county) == opt_view(b.county)
    &&& opt_view(a.state) == opt_view(b.state)
    &&& opt_view(a.country) == opt_view(b.country)
    &&& opt_view(a.grid) == opt_view(b.grid)
    &&& opt_view(a.latitude) == opt_view(b.latitude)
    &&& opt_view(a.longitude) == opt_view(b.longitude)
    &&& a.cq_zone == b.cq_zone
    &&& a.itu_zone == b.itu_zone
    &&& opt_view(a.iota) == opt_view(b.iota)
    &&& opt_view(a.lotw_station_location) == opt_view(b.lotw_station_location)
    &&& opt_view(a.eqsl_account) == opt_view(b.eqsl_account)
    &&& a.created_at == b.created_at
    &&& a.updated_at == b.updated_at
}

/// A station location stored and read back is the location that was
/// stored, for every location whose instants have four-digit years and
/// whose callsigns are in parsed form.
pub proof fn law_stored_location_reads_back(
    l: StationLocation,
    row: LocationRow,
    r: Result<StationLocation, RepositoryError>,
)
    requires
        location_storable(l),
        location_row_fits(row, l),
        location_read(r, row),
        location_parsers_agree(row),
    ensures
        r matches Ok(back) && same_location(back, l),
{
    assert(uuid_from_text(row.id@) == Some(l.id.0));
    assert(rfc3339_instant(row.created_at@) == Some(l.created_at));
    assert(rfc3339_instant(row.updated_at@) == Some(l.updated_at));
    assert(location_failure(row) is None);
    match r {
        Ok(back) => {
            assert(same_location(back, l));
        },
        Err(_) => {},
    }
}

/// The columns of a QSO that award counting reads, with whether LotW has
/// confirmed it (non-zero when it has).
#[derive(Debug, Clone)]
pub struct AwardQsoRow {
    pub id: String,
    pub call: String,
    pub qso_begin: String,
    pub band: Option<String>,
    pub mode: Option<String>,
    pub dxcc_id: Option<i64>,
    pub dxcc_prefix: Option<String>,
    pub continent: Option<String>,
    pub state: Option<String>,
    pub iota: Option<String>,
    pub lotw_confirmed: i64,
}

/// The first bad column of an award row: id, call, start time.
pub open spec fn award_row_failure(row: AwardQsoRow) -> Option<RowFailure> {
    if uuid_from_text(row.id@) is None {
        Some(RowFailure::Uuid)
    } else if call_failure(row.call@) is Some {
        call_failure(row.call@)
    } else if rfc3339_instant(row.qso_begin@) is None {
        Some(RowFailure::Time)
    } else {
        None
    }
}

/// The award record a readable row holds.
pub open spec fn award_read_fits(a: AwardQso, row: AwardQsoRow) -> bool {
    &&& uuid_from_text(row.id@) == Some(a.id.0)
    &&& call_read(row.call@, a.call)
    &&& rfc3339_instant(row.qso_begin@) == Some(a.qso_begin)
    &&& a.band == match row.band {
        Some(b) => band_from_adif(b@),
        None => None,
    }
    &&& opt_mode_view(a.mode) == match row.mode {
        Some(m) => Some(mode_from_adif(m@)),
        None => None,
    }
    &&& a.dxcc_id == match row.dxcc_id {
        Some(v) => Some(v as u16),
        None => None,
    }
    &&& opt_view(a.dxcc_prefix) == opt_view(row.dxcc_prefix)
    &&& opt_view(a.continent) == opt_view(row.continent)
    &&& opt_view(a.state) == opt_view(row.state)
    &&& opt_view(a.iota) == opt_view(row.iota)
    &&& a.lotw_confirmed == (row.lotw_confirmed != 0)
}

pub open spec fn award_read(r: Result<AwardQso, RepositoryError>, row: AwardQsoRow) -> bool {
    match award_row_failure(row) {
        Some(f) => r matches Err(e) && failure_fits(e, f),
        None => r matches Ok(a) && award_read_fits(a, row),
    }
}

/// The award record a row holds, or the storage error of its first bad
/// column.
pub fn award_qso_from_row(row: AwardQsoRow) -> (r: Result<AwardQso, RepositoryError>)
    ensures
        award_read(r, row),
{
    let id = match read_uuid(&row.id) {
        Ok(u) => u,
        Err(e) => return Err(e),
    };
    let call = match read_call(&row.call) {
        Ok(c) => c,
        Err(e) => return Err(e),
    };
    let qso_begin = match read_instant(&row.qso_begin) {
        Ok(t) => t,
        Err(e) => return Err(e),
    };
    Ok(
        AwardQso {
            id: QsoId::from_uuid(id),
            call,
            qso_begin,
            band: match &row.band {
                Some(b) => Band::from_adif(b.as_str()),
                None => None,
            },
            mode: match &row.mode {
                Some(m) => Some(Mode::from_adif(m.as_str())),
                None => None,
            },
            dxcc_id: match row.dxcc_id {
                Some(v) => Some(#[verifier::truncate] (v as u16)),
                None => None,
            },
            dxcc_prefix: copy_opt(&row.dxcc_prefix),
            continent: copy_opt(&row.continent),
            state: copy_opt(&row.state),
            iota: copy_opt(&row.iota),
            lotw_confirmed: row.lotw_confirmed != 0,
        },
    )
}

/// The columns of a stored service state: the QSO's UUID text, the
/// service, the upload and confirmation states (`pending` when the
/// import had no word of them), and when it was uploaded and confirmed.
#[derive(Debug, Clone)]
pub struct ServiceStateRow {
    pub qso_id: String,
    pub service: String,
    pub upload_state: String,
    pub confirmation_state: String,
    pub uploaded_at: Option<String>,
    pub confirmed_at: Option<String>,
}

pub open spec fn state_or_pending(o: Option<&'static str>) -> Seq<char> {
    match o {
        Some(s) => s@,
        None => "pending"@,
    }
}

/// The row an imported service state is stored as.
pub fn service_state_row(st: &ImportedServiceState) -> (r: ServiceStateRow)
    ensures
        r.qso_id@ == uuid_text(st.qso_id.0),
        r.service@ == st.service@,
        r.upload_state@ == state_or_pending(st.upload_state),
        r.confirmation_state@ == state_or_pending(st.confirmation_state),
        opt_view(r.uploaded_at) == opt_time_text(st.uploaded_at),
        opt_view(r.confirmed_at) == opt_time_text(st.confirmed_at),
{
    ServiceStateRow {
        qso_id: format_uuid(st.qso_id.0),
        service: string_of(st.service),
        upload_state: string_of(
            match st.upload_state {
                Some(u) => u,
                None => "pending",
            },
        ),
        confirmation_state: string_of(
            match st.confirmation_state {
                Some(c) => c,
                None => "pending",
            },
        ),
        uploaded_at: time_value(st.uploaded_at),
        confirmed_at: time_value(st.confirmed_at),
    }
}

/// The columns of a stored exchange field.
#[derive(Debug, Clone)]
pub struct ExchangeFieldRow {
    pub qso_id: String,
    pub field_name: String,
    pub raw_value: String,
    pub normalized_value: Option<String>,
    pub source: String,
}

/// The row an exchange field of a QSO is stored as; its source keeps its
/// stored name.
pub fn exchange_field_row(qso_id: QsoId, f: &QsoExchangeField) -> (r: ExchangeFieldRow)
    ensures
        r.qso_id@ == uuid_text(qso_id.0),
        r.field_name@ == f.name@,
        r.raw_value@ == f.raw_value@,
        opt_view(r.normalized_value) == opt_view(f.normalized_value),
        r.source@ == field_source_storage(f.source@),
{
    ExchangeFieldRow {
        qso_id: format_uuid(qso_id.0),
        field_name: string_of(f.name.as_str()),
        raw_value: string_of(f.raw_value.as_str()),
        normalized_value: copy_opt(&f.normalized_value),
        source: f.source.as_storage_str(),
    }
}

/// The exchange field a stored row holds; the source is read back from
/// its stored name.
pub fn exchange_field_from_row(row: &ExchangeFieldRow) -> (r: QsoExchangeField)
    ensures
        r.name@ == row.field_name@,
        r.raw_value@ == row.raw_value@,
        opt_view(r.normalized_value) == opt_view(row.normalized_value),
        r.source@ == field_source_from_storage(row.source@),
{
    QsoExchangeField {
        name: string_of(row.field_name.as_str()),
        raw_value: string_of(row.raw_value.as_str()),
        normalized_value: copy_opt(&row.normalized_value),
        source: FieldSource::parse_storage(row.source.as_str()),
    }
}

/// The stored text of an identifier: its UUID text.
pub fn id_text(u: u128) -> (r: String)
    ensures
        r@ == uuid_text(u),
{
    format_uuid(u)
}

/// The QSO identifier that a stored UUID text names, or `bad uuid: …`.
pub fn qso_id_from_text(s: &String) -> (r: Result<QsoId, RepositoryError>)
    ensures
        r matches Ok(id) ==> uuid_from_text(s@) == Some(id.0),
        r matches Err(e) ==> uuid_from_text(s@) is None && failure_fits(e, RowFailure::Uuid),
        uuid_reads_back(s@),
{
    match read_uuid(s) {
        Ok(u) => Ok(QsoId::from_uuid(u)),
        Err(e) => Err(e),
    }
}

/// The columns of a stored operating session.
#[derive(Debug, Clone)]
pub struct SessionRow {
    pub id: String,
    pub operator_id: Option<String>,
    pub station_location_id: Option<String>,
    pub started_at: String,
    pub ended_at: Option<String>,
    pub name: Option<String>,
    pub notes: Option<String>,
}

/// The stored text of each column of an operating session.
pub open spec fn session_row_fits(row: SessionRow, s: OperatingSession) -> bool {
    &&& row.id@ == uuid_text(s.id.0)
    &&& opt_view(row.operator_id) == opt_uuid_text(operator_uuid(s.operator_id))
    &&& opt_view(row.station_location_id) == opt_uuid_text(location_uuid(s.station_location_id))
    &&& row.started_at@ == rfc3339_text(s.started_at)
    &&& opt_view(row.ended_at) == opt_time_text(s.ended_at)
    &&& opt_view(row.name) == opt_view(s.name)
    &&& opt_view(row.notes) == opt_view(s.notes)
}

/// The row an operating session is stored as.
pub fn session_to_row(s: &OperatingSession) -> (r: SessionRow)
    ensures
        session_row_fits(r, *s),
{
    SessionRow {
        id: format_uuid(s.id.0),
        operator_id: opt_uuid_string(
            match s.operator_id {
                Some(i) => Some(i.0),
                None => None,
            },
        ),
        station_location_id: opt_uuid_string(
            match s.station_location_id {
                Some(i) => Some(i.0),
                None => None,
            },
        ),
        started_at: s.started_at.to_rfc3339(),
        ended_at: time_value(s.ended_at),
        name: copy_opt(&s.name),
        notes: copy_opt(&s.notes),
    }
}

/// The first column of a session row, in the order they are read, that
/// does not hold what it should: id, operator, location, start, end.
pub open spec fn session_failure(row: SessionRow) -> Option<RowFailure> {
    if uuid_from_text(row.id@) is None {
        Some(RowFailure::Uuid)
    } else if opt_uuid_bad(row.operator_id) {
        Some(RowFailure::Uuid)
    } else if opt_uuid_bad(row.station_location_id) {
        Some(RowFailure::Uuid)
    } else if rfc3339_instant(row.started_at@) is None {
        Some(RowFailure::Time)
    } else if opt_time_bad(row.ended_at) {
        Some(RowFailure::Time)
    } else {
        None
    }
}

/// The operating session a readable row holds.
pub open spec fn session_read_fits(s: OperatingSession, row: SessionRow) -> bool {
    &&& uuid_from_text(row.id@) == Some(s.id.0)
    &&& opt_uuid_read(row.operator_id, operator_uuid(s.operator_id))
    &&& opt_uuid_read(row.station_location_id, location_uuid(s.station_location_id))
    &&& rfc3339_instant(row.started_at@) == Some(s.started_at)
    &&& opt_instant_read(row.ended_at, s.ended_at)
    &&& opt_view(s.name) == opt_view(row.name)
    &&& opt_view(s.notes) == opt_view(row.notes)
}

/// A session row reads as the session it holds, or as the storage error
/// (`bad uuid: …` or `bad timestamp: …`) of its first bad column.
pub open spec fn session_read(r: Result<OperatingSession, RepositoryError>, row: SessionRow) -> bool {
    match session_failure(row) {
        Some(f) => r matches Err(e) && location_failure_fits(e, f),
        None => r matches Ok(s) && session_read_fits(s, row),
    }
}

/// What the parsers say of the identifier and instant columns of a
/// session row.
pub open spec fn session_parsers_agree(row: SessionRow) -> bool {
    &&& uuid_reads_back(row.id@)
    &&& opt_uuid_reads_back(row.operator_id)
    &&& opt_uuid_reads_back(row.station_location_id)
    &&& instant_reads_back(row.started_at@)
    &&& opt_instant_reads_back(row.ended_at)
}

fn read_location_opt_instant(o: &Option<String>) -> (r: Result<Option<UtcDateTime>, RepositoryError>)
    ensures
        r matches Ok(t) ==> opt_instant_read(*o, t),
        r matches Err(e) ==> opt_time_bad(*o) && location_failure_fits(e, RowFailure::Time),
        opt_instant_reads_back(*o),
{
    match o {
        Some(s) => match read_location_instant(s) {
            Ok(t) => Ok(Some(t)),
            Err(e) => Err(e),
        },
        None => Ok(None),
    }
}

/// The operating session a stored row holds, or the storage error of its
/// first bad column.
pub fn session_from_row(row: SessionRow) -> (r: Result<OperatingSession, RepositoryError>)
    ensures
        session_read(r, row),
        session_parsers_agree(row),
{
    let id = read_uuid(&row.id);
    let operator_id = read_opt_uuid(&row.operator_id);
    let station_location_id = read_opt_uuid(&row.station_location_id);
    let started_at = read_location_instant(&row.started_at);
    let ended_at = read_location_opt_instant(&row.ended_at);
    let id = match id {
        Ok(u) => u,
        Err(e) => return Err(e),
    };
    let operator_id = match operator_id {
        Ok(u) => u,
        Err(e) => return Err(e),
    };
    let station_location_id = match station_location_id {
        Ok(u) => u,
        Err(e) => return Err(e),
    };
    let started_at = match started_at {
        Ok(t) => t,
        Err(e) => return Err(e),
    };
    let ended_at = match ended_at {
        Ok(t) => t,
        Err(e) => return Err(e),
    };
    Ok(
        OperatingSession {
            id: OperatingSessionId::from_uuid(id),
            operator_id: match operator_id {
                Some(u) => Some(OperatorId::from_uuid(u)),
                None => None,
            },
            station_location_id: match station_location_id {
                Some(u) => Some(StationLocationId::from_uuid(u)),
                None => None,
            },
            started_at,
            ended_at,
            name: copy_opt(&row.name),
            notes: copy_opt(&row.notes),
        },
    )
}

/// Two operating sessions that agree in every field.
pub open spec fn same_session(a: OperatingSession, b: OperatingSession) -> bool {
    &&& a.id == b.id
    &&& a.operator_id == b.operator_id
    &&& a.station_location_id == b.station_location_id
    &&& a.started_at == b.started_at
    &&& a.ended_at == b.ended_at
    &&& opt_view(a.name) == opt_view(b.name)
    &&& opt_view(a.notes) == opt_view(b.notes)
}

/// An operating session whose instants have four-digit years.
pub open spec fn session_storable(s: OperatingSession) -> bool {
    &&& instant_storable(s.started_at)
    &&& s.ended_at matches Some(t) ==> instant_storable(t)
}

/// An operating session stored and read back is the session that was
/// stored, for every session whose instants have four-digit years.
pub proof fn law_stored_session_reads_back(
    s: OperatingSession,
    row: SessionRow,
    r: Result<OperatingSession, RepositoryError>,
)
    requires
        session_storable(s),
        session_row_fits(row, s),
        session_read(r, row),
        session_parsers_agree(row),
    ensures
        r matches Ok(back) && same_session(back, s),
{
    assert(uuid_from_text(row.id@) == Some(s.id.0));
    assert(rfc3339_instant(row.started_at@) == Some(s.started_at));
    if let Some(t) = s.ended_at {
        assert(row.ended_at matches Some(e) && e@ == rfc3339_text(t));
    }
    if let Some(o) = s.operator_id {
        assert(row.operator_id matches Some(e) && e@ == uuid_text(o.0));
    }
    if let Some(l) = s.station_location_id {
        assert(row.station_location_id matches Some(e) && e@ == uuid_text(l.0));
    }
    assert(session_failure(row) is None);
    match r {
        Ok(back) => {
            assert(same_session(back, s));
        },
        Err(_) => {},
    }
}

/// The columns of a QSO's stored standing at a service.
#[derive(Debug, Clone)]
pub struct ServiceRecordRow {
    pub upload_state: String,
    pub confirmation_state: String,
    pub uploaded_at: Option<String>,
    pub confirmed_at: Option<String>,
    pub last_sync_at: Option<String>,
    pub remote_id: Option<String>,
    pub last_error: Option<String>,
}

/// The stored text of each column of a standing.
pub open spec fn service_record_row_fits(row: ServiceRecordRow, r: ServiceRecordV) -> bool {
    &&& row.upload_state@ == upload_state_text(r.upload_state)
    &&& row.confirmation_state@ == confirmation_state_text(r.confirmation_state)
    &&& opt_view(row.uploaded_at) == opt_time_text(r.uploaded_at)
    &&& opt_view(row.confirmed_at) == opt_time_text(r.confirmed_at)
    &&& opt_view(row.last_sync_at) == opt_time_text(r.last_sync_at)
    &&& opt_view(row.remote_id) == r.remote_id
    &&& opt_view(row.last_error) == r.last_error
}

/// The row a standing is stored as.
pub fn service_record_to_row(r: &ServiceRecord) -> (row: ServiceRecordRow)
    ensures
        service_record_row_fits(row, r@),
{
    ServiceRecordRow {
        upload_state: string_of(r.upload_state.as_storage_str()),
        confirmation_state: string_of(r.confirmation_state.as_storage_str()),
        uploaded_at: time_value(r.uploaded_at),
        confirmed_at: time_value(r.confirmed_at),
        last_sync_at: time_value(r.last_sync_at),
        remote_id: copy_opt(&r.remote_id),
        last_error: copy_opt(&r.last_error),
    }
}

/// The upload state a stored text names.
pub open spec fn upload_state_named(s: Seq<char>) -> Option<UploadState> {
    if s == upload_state_text(UploadState::Pending) {
        Some(UploadState::Pending)
    } else if s == upload_state_text(UploadState::Uploaded) {
        Some(UploadState::Uploaded)
    } else if s == upload_state_text(UploadState::Verified) {
        Some(UploadState::Verified)
    } else if s == upload_state_text(UploadState::Failed) {
        Some(UploadState::Failed)
    } else {
        None
    }
}

/// The confirmation state a stored text names.
pub open spec fn confirmation_state_named(s: Seq<char>) -> Option<ConfirmationState> {
    if s == confirmation_state_text(ConfirmationState::Unknown) {
        Some(ConfirmationState::Unknown)
    } else if s == confirmation_state_text(ConfirmationState::Pending) {
        Some(ConfirmationState::Pending)
    } else if s == confirmation_state_text(ConfirmationState::Confirmed) {
        Some(ConfirmationState::Confirmed)
    } else if s == confirmation_state_text(ConfirmationState::Mismatch) {
        Some(ConfirmationState::Mismatch)
    } else {
        None
    }
}

fn read_upload_state(s: &String) -> (r: Result<UploadState, RepositoryError>)
    ensures
        r matches Ok(u) ==> upload_state_named(s@) == Some(u),
        r matches Err(e) ==> (upload_state_named(s@) is None && (e matches RepositoryError::Storage(m)
            && m@ == "bad upload state: "@ + s@)),
{
    let c = chars_of(s.as_str());
    proof {
        reveal_strlit("pending");
        reveal_strlit("uploaded");
        reveal_strlit("verified");
        reveal_strlit("failed");
    }
    if chars_eq_str(c.as_slice(), "pending") {
        Ok(UploadState::Pending)
    } else if chars_eq_str(c.as_slice(), "uploaded") {
        Ok(UploadState::Uploaded)
    } else if chars_eq_str(c.as_slice(), "verified") {
        Ok(UploadState::Verified)
    } else if chars_eq_str(c.as_slice(), "failed") {
        Ok(UploadState::Failed)
    } else {
        let mut m = string_of("bad upload state: ");
        m.append(s.as_str());
        Err(RepositoryError::Storage(m))
    }
}

fn read_confirmation_state(s: &String) -> (r: Result<ConfirmationState, RepositoryError>)
    ensures
        r matches Ok(u) ==> confirmation_state_named(s@) == Some(u),
        r matches Err(e) ==> (confirmation_state_named(s@) is None && (e matches RepositoryError::Storage(
            m,
        ) && m@ == "bad confirmation state: "@ + s@)),
{
    let c = chars_of(s.as_str());
    proof {
        reveal_strlit("unknown");
        reveal_strlit("pending");
        reveal_strlit("confirmed");
        reveal_strlit("mismatch");
    }
    if chars_eq_str(c.as_slice(), "unknown") {
        Ok(ConfirmationState::Unknown)
    } else if chars_eq_str(c.as_slice(), "pending") {
        Ok(ConfirmationState::Pending)
    } else if chars_eq_str(c.as_slice(), "confirmed") {
        Ok(ConfirmationState::Confirmed)
    } else if chars_eq_str(c.as_slice(), "mismatch") {
        Ok(ConfirmationState::Mismatch)
    } else {
        let mut m = string_of("bad confirmation state: ");
        m.append(s.as_str());
        Err(RepositoryError::Storage(m))
    }
}

/// Why a standing's row cannot be read: a state text that names no
/// state, or an instant text that is not one.
pub enum StandingFailure {
    Upload,
    Confirmation,
    Time,
}

/// The first column of a standing's row, in the order they are read,
/// that does not hold what it should.
pub open spec fn service_record_failure(row: ServiceRecordRow) -> Option<StandingFailure> {
    if upload_state_named(row.upload_state@) is None {
        Some(StandingFailure::Upload)
    } else if confirmation_state_named(row.confirmation_state@) is None {
        Some(StandingFailure::Confirmation)
    } else if opt_time_bad(row.uploaded_at) || opt_time_bad(row.confirmed_at) || opt_time_bad(
        row.last_sync_at,
    ) {
        Some(StandingFailure::Time)
    } else {
        None
    }
}

/// The standing a row reads as, or the storage error of its first bad
/// column: `bad upload state: `, `bad confirmation state: ` with the text,
/// or `bad timestamp in db: …`.
pub open spec fn service_record_read(r: Result<ServiceRecord, RepositoryError>, row: ServiceRecordRow) -> bool {
    match service_record_failure(row) {
        Some(StandingFailure::Upload) => r matches Err(e) && e matches RepositoryError::Storage(m)
            && m@ == "bad upload state: "@ + row.upload_state@,
        Some(StandingFailure::Confirmation) => r matches Err(e) && e matches RepositoryError::Storage(m)
            && m@ == "bad confirmation state: "@ + row.confirmation_state@,
        Some(StandingFailure::Time) => r matches Err(e) && failure_fits(e, RowFailure::Time),
        None => r matches Ok(x) && {
            &&& upload_state_named(row.upload_state@) == Some(x.upload_state)
            &&& confirmation_state_named(row.confirmation_state@) == Some(x.confirmation_state)
            &&& opt_instant_read(row.uploaded_at, x.uploaded_at)
            &&& opt_instant_read(row.confirmed_at, x.confirmed_at)
            &&& opt_instant_read(row.last_sync_at, x.last_sync_at)
            &&& opt_view(x.remote_id) == opt_view(row.remote_id)
            &&& opt_view(x.last_error) == opt_view(row.last_error)
        },
    }
}

/// What the parsers say of the instant columns of a standing's row.
pub open spec fn service_record_parsers_agree(row: ServiceRecordRow) -> bool {
    &&& opt_instant_reads_back(row.uploaded_at)
    &&& opt_instant_reads_back(row.confirmed_at)
    &&& opt_instant_reads_back(row.last_sync_at)
}

/// The standing a stored row holds, or the storage error of its first bad
/// column.
pub fn service_record_from_row(row: &ServiceRecordRow) -> (r: Result<ServiceRecord, RepositoryError>)
    ensures
        service_record_read(r, *row),
        service_record_parsers_agree(*row),
{
    let up = read_upload_state(&row.upload_state);
    let conf = read_confirmation_state(&row.confirmation_state);
    let uploaded_at = read_opt_instant(&row.uploaded_at);
    let confirmed_at = read_opt_instant(&row.confirmed_at);
    let last_sync_at = read_opt_instant(&row.last_sync_at);
    let upload_state = match up {
        Ok(u) => u,
        Err(e) => return Err(e),
    };
    let confirmation_state = match conf {
        Ok(c) => c,
        Err(e) => return Err(e),
    };
    let uploaded_at = match uploaded_at {
        Ok(t) => t,
        Err(e) => return Err(e),
    };
    let confirmed_at = match confirmed_at {
        Ok(t) => t,
        Err(e) => return Err(e),
    };
    let last_sync_at = match last_sync_at {
        Ok(t) => t,
        Err(e) => return Err(e),
    };
    Ok(
        ServiceRecord {
            upload_state,
            confirmation_state,
            uploaded_at,
            confirmed_at,
            last_sync_at,
            remote_id: copy_opt(&row.remote_id),
            last_error: copy_opt(&row.last_error),
        },
    )
}

/// A standing whose instants have four-digit years.
pub open spec fn service_record_storable(r: ServiceRecordV) -> bool {
    &&& r.uploaded_at matches Some(t) ==> instant_storable(t)
    &&& r.confirmed_at matches Some(t) ==> instant_storable(t)
    &&& r.last_sync_at matches Some(t) ==> instant_storable(t)
}

/// A standing stored and read back is the standing that was stored, for
/// every standing whose instants have four-digit years.
pub proof fn law_stored_standing_reads_back(
    v: ServiceRecordV,
    row: ServiceRecordRow,
    r: Result<ServiceRecord, RepositoryError>,
)
    requires
        service_record_storable(v),
        service_record_row_fits(row, v),
        service_record_read(r, row),
        service_record_parsers_agree(row),
    ensures
        r matches Ok(back) && back@ == v,
{
    reveal_strlit("pending");
    reveal_strlit("uploaded");
    reveal_strlit("verified");
    reveal_strlit("failed");
    reveal_strlit("unknown");
    reveal_strlit("confirmed");
    reveal_strlit("mismatch");
    assert("pending"@[0] != "uploaded"@[0] && "pending"@[0] != "verified"@[0]);
    assert("uploaded"@[0] != "verified"@[0] && "pending"@[0] != "unknown"@[0]);
    assert(upload_state_named(upload_state_text(v.upload_state)) == Some(v.upload_state));
    assert("unknown"@.len() == 7 && "pending"@.len() == 7 && "confirmed"@.len() == 9 && "mismatch"@.len() == 8);
    assert("unknown"@ != "pending"@ && "unknown"@ != "confirmed"@ && "unknown"@ != "mismatch"@);
    assert("pending"@ != "confirmed"@ && "pending"@ != "mismatch"@ && "confirmed"@ != "mismatch"@);
    assert(confirmation_state_named(confirmation_state_text(v.confirmation_state)) == Some(
        v.confirmation_state,
    ));
    if let Some(t) = v.uploaded_at {
        assert(row.uploaded_at matches Some(e) && e@ == rfc3339_text(t));
    }
    if let Some(t) = v.confirmed_at {
        assert(row.confirmed_at matches Some(e) && e@ == rfc3339_text(t));
    }
    if let Some(t) = v.last_sync_at {
        assert(row.last_sync_at matches Some(e) && e@ == rfc3339_text(t));
    }
    assert(service_record_failure(row) is None);
    match r {
        Ok(back) => {
            assert(back@ == v);
        },
        Err(_) => {},
    }
}

} // verus!
