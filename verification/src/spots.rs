//! DX cluster spots: what the feed delivers, how its events become spot
//! events, the history the UI keeps, and how each spot is judged against
//! the entities already worked on its band.
use vstd::prelude::*;

use crate::awards::AwardsSnapshot;
use crate::datetime::{seconds_from, seconds_between, UtcDateTime};
use crate::qso::{Resolution, Resolver};
use crate::text::{chars_eq, chars_of, dec, dec_string, parse_unsigned, parse_unsigned_exec};
use crate::value::{band_of_hz, callsign_result_matches, parse_callsign, string_of, Band, Callsign};

verus! {

/// One spot: the DX callsign, its frequency, mode and comment when
/// known, and when it was last seen.
#[derive(Debug, Clone)]
pub struct Spot {
    pub call: String,
    pub freq_hz: u64,
    pub mode: Option<String>,
    pub comment: Option<String>,
    pub spotted_at: UtcDateTime,
}

/// What the feed reports.
#[derive(Debug, Clone)]
pub enum SpotEvent {
    Spot(Spot),
    Withdrawn { call: String },
    SourceStatus { source_id: String, status: String },
    Error { message: String },
}

/// A cluster node.
#[derive(Debug, Clone)]
pub struct ClusterSource {
    pub host: String,
    pub port: u16,
}

/// The login callsign, the nodes, and an optional filter file.
#[derive(Debug, Clone)]
pub struct SpotFeedConfig {
    pub my_callsign: String,
    pub sources: Vec<ClusterSource>,
    pub filter_path: Option<String>,
}

/// Why the feed could not be started.
#[derive(Debug, Clone)]
pub enum FeedError {
    Build(String),
    FilterIo { path: String, error: String },
    FilterParse { path: String, error: String },
}

pub open spec fn feed_error_text(e: FeedError) -> Seq<char> {
    match e {
        FeedError::Build(s) => "dxfeed build error: "@ + s@,
        FeedError::FilterIo { path, error } => "filter file IO error at "@ + path@ + ": "@ + error@,
        FeedError::FilterParse { path, error } => "filter file parse error at "@ + path@ + ": "@
            + error@,
    }
}

impl FeedError {
    /// The error's message, as its `Display` would write it.
    pub fn message(&self) -> (r: String)
        ensures
            r@ == feed_error_text(*self),
    {
        match self {
            FeedError::Build(s) => {
                let mut r = string_of("dxfeed build error: ");
                r.append(s.as_str());
                r
            },
            FeedError::FilterIo { path, error } => {
                let mut r = string_of("filter file IO error at ");
                r.append(path.as_str());
                r.append(": ");
                r.append(error.as_str());
                r
            },
            FeedError::FilterParse { path, error } => {
                let mut r = string_of("filter file parse error at ");
                r.append(path.as_str());
                r.append(": ");
                r.append(error.as_str());
                r
            },
        }
    }
}

/// The feed's identifier of the `i`-th configured node: `cluster-i`.
pub fn source_id(i: usize) -> (r: String)
    ensures
        r@ == "cluster-"@ + dec(i as nat),
{
    let mut r = string_of("cluster-");
    r.append(dec_string(i as u64).as_str());
    r
}

/// The feed's mode classes.
#[derive(Debug, Clone, Copy, PartialEq, Eq, Structural)]
pub enum DxMode {
    CW,
    SSB,
    DIG,
    AM,
    FM,
    Unknown,
}

/// The mode a spot gets from the feed's class; digital spots are taken
/// as FT8, by far the most common digital mode on clusters today.
pub open spec fn dx_mode_text(m: DxMode) -> Option<Seq<char>> {
    match m {
        DxMode::CW => Some("CW"@),
        DxMode::SSB => Some("SSB"@),
        DxMode::DIG => Some("FT8"@),
        DxMode::AM => Some("AM"@),
        DxMode::FM => Some("FM"@),
        DxMode::Unknown => None,
    }
}

pub fn dxmode_to_str(m: DxMode) -> (r: Option<&'static str>)
    ensures
        match r {
            Some(s) => dx_mode_text(m) == Some(s@),
            None => dx_mode_text(m) is None,
        },
{
    match m {
        DxMode::CW => Some("CW"),
        DxMode::SSB => Some("SSB"),
        DxMode::DIG => Some("FT8"),
        DxMode::AM => Some("AM"),
        DxMode::FM => Some("FM"),
        DxMode::Unknown => None,
    }
}

/// Whether a spot is new, updated or withdrawn.
#[derive(Debug, Clone, Copy, PartialEq, Eq, Structural)]
pub enum SpotKind {
    New,
    Update,
    Withdraw,
}

/// An event of the feed, with its fields as plain values; `state` is the
/// source state as the feed names it.
#[derive(Debug, Clone)]
pub enum DxEvent {
    Spot {
        kind: SpotKind,
        dx_call: String,
        freq_hz: u64,
        mode: DxMode,
        comment: Option<String>,
        last_seen: UtcDateTime,
    },
    SourceStatus { source_id: String, state: String },
    Error { message: String },
    Other,
}

/// The spot events a feed event stands for: a new or updated spot is a
/// spot, a withdrawal names the callsign, a status or error is passed
/// on; other events stand for nothing.
pub fn translate(ev: DxEvent) -> (r: Vec<SpotEvent>)
    ensures
        match ev {
            DxEvent::Spot { kind, dx_call, freq_hz, mode, comment, last_seen } => r@.len() == 1
                && if kind == SpotKind::Withdraw {
                (r@[0] matches SpotEvent::Withdrawn { call } && call == dx_call)
            } else {
                (r@[0] matches SpotEvent::Spot(s) && s.call == dx_call && s.freq_hz == freq_hz
                    && s.comment == comment && s.spotted_at == last_seen && match s.mode {
                    Some(t) => dx_mode_text(mode) == Some(t@),
                    None => dx_mode_text(mode) is None,
                })
            },
            DxEvent::SourceStatus { source_id, state } => r@.len() == 1
                && (r@[0] matches SpotEvent::SourceStatus { source_id: i, status } && i == source_id
                && status == state),
            DxEvent::Error { message } => r@.len() == 1 && (r@[0] matches SpotEvent::Error {
                message: m,
            } && m == message),
            DxEvent::Other => r@.len() == 0,
        },
{
    let mut r: Vec<SpotEvent> = Vec::new();
    match ev {
        DxEvent::Spot { kind, dx_call, freq_hz, mode, comment, last_seen } => {
            if kind == SpotKind::Withdraw {
                r.push(SpotEvent::Withdrawn { call: dx_call });
            } else {
                let m = match dxmode_to_str(mode) {
                    Some(t) => Some(string_of(t)),
                    None => None,
                };
                r.push(
                    SpotEvent::Spot(
                        Spot { call: dx_call, freq_hz, mode: m, comment, spotted_at: last_seen },
                    ),
                );
            }
        },
        DxEvent::SourceStatus { source_id, state } => {
            r.push(SpotEvent::SourceStatus { source_id, status: state });
        },
        DxEvent::Error { message } => {
            r.push(SpotEvent::Error { message });
        },
        DxEvent::Other => {},
    }
    r
}

/// Newest spot first; the history keeps at most `SPOT_HISTORY_LIMIT`,
/// dropping the oldest.
pub fn push_spot(spots: &mut Vec<Spot>, s: Spot)
    ensures
        final(spots)@ == (seq![s] + old(spots)@).take(
            if old(spots)@.len() + 1 > crate::ui::SPOT_HISTORY_LIMIT {
                crate::ui::SPOT_HISTORY_LIMIT as int
            } else {
                (old(spots)@.len() + 1) as int
            },
        ),
        final(spots)@.len() <= crate::ui::SPOT_HISTORY_LIMIT || final(spots)@.len() == old(
            spots,
        )@.len() + 1,
{
    let ghost before = spots@;
    let ghost full = seq![s] + before;
    let ghost keep: int = if before.len() + 1 > crate::ui::SPOT_HISTORY_LIMIT {
        crate::ui::SPOT_HISTORY_LIMIT as int
    } else {
        (before.len() + 1) as int
    };
    spots.insert(0, s);
    assert(spots@ =~= full.take(spots@.len() as int));
    while spots.len() > crate::ui::SPOT_HISTORY_LIMIT
        invariant
            spots@ == full.take(spots@.len() as int),
            full == seq![s] + before,
            spots@.len() <= full.len(),
            keep <= spots@.len(),
            keep == if before.len() + 1 > crate::ui::SPOT_HISTORY_LIMIT {
                crate::ui::SPOT_HISTORY_LIMIT as int
            } else {
                (before.len() + 1) as int
            },
        decreases spots@.len(),
    {
        let ghost cur = spots@;
        spots.pop();
        assert(spots@ =~= full.take(spots@.len() as int));
    }
}

/// Drop every spot of the withdrawn callsign, keeping the others in
/// order.
pub fn withdraw_spots(spots: &mut Vec<Spot>, call: &String)
    ensures
        final(spots)@ == old(spots)@.filter(|s: Spot| s.call@ != call@),
{
    let ghost before = spots@;
    let mut kept: Vec<Spot> = Vec::new();
    let mut rest = Vec::new();
    std::mem::swap(&mut rest, spots);
    let mut rev: Vec<Spot> = Vec::new();
    while rest.len() > 0
        invariant
            rest@.len() + rev@.len() == before.len(),
            rest@ == before.take(rest@.len() as int),
            forall|t: int| 0 <= t < rev@.len() ==> #[trigger] rev@[t] == before[before.len() - 1 - t],
        decreases rest@.len(),
    {
        let x = rest.pop().unwrap();
        rev.push(x);
        assert(rest@ =~= before.take(rest@.len() as int));
    }
    let n = rev.len();
    let mut i: usize = 0;
    assert(before.take(0).filter(|s: Spot| s.call@ != call@) =~= seq![]) by {
        reveal(Seq::filter);
    }
    while i < n
        invariant
            n == before.len(),
            i <= n,
            rev@.len() == n - i,
            forall|t: int| 0 <= t < rev@.len() ==> #[trigger] rev@[t] == before[n - 1 - t],
            kept@ == before.take(i as int).filter(|s: Spot| s.call@ != call@),
        decreases n - i,
    {
        let x = rev.pop().unwrap();
        assert(x == before[i as int]);
        assert(before.take(i + 1).drop_last() =~= before.take(i as int));
        assert(before.take(i + 1).last() == x);
        reveal(Seq::filter);
        let same = chars_eq(chars_of(x.call.as_str()).as_slice(), chars_of(call.as_str()).as_slice());
        if !same {
            kept.push(x);
        }
        i = i + 1;
    }
    assert(before.take(n as int) =~= before);
    *spots = kept;
}

/// How a spot stands against the log: unknown (callsign, entity or band
/// not known), its entity already worked on its band, or needed there.
#[derive(Debug, Clone, Copy, PartialEq, Eq, Structural)]
pub enum SpotStatus {
    Unknown,
    Worked,
    NeededBand,
}

pub fn status_label(s: SpotStatus) -> (r: &'static str)
    ensures
        r@ == match s {
            SpotStatus::Unknown => "  ?"@,
            SpotStatus::Worked => "wkd"@,
            SpotStatus::NeededBand => "NEW"@,
        },
{
    match s {
        SpotStatus::Unknown => "  ?",
        SpotStatus::Worked => "wkd",
        SpotStatus::NeededBand => "NEW",
    }
}

/// The DXCC entities worked on each band.
pub type WorkedByBand = Vec<(Band, Vec<u16>)>;

/// Whether `id` was worked on `band`.
pub open spec fn worked_on(w: Seq<(Band, Vec<u16>)>, band: Band, id: u16) -> bool {
    exists|i: int| 0 <= i < w.len() && (#[trigger] w[i]).0 == band && w[i].1@.contains(id)
}

/// The entities of each band of the DXCC-by-band progress: the unit keys
/// that read as numbers, band by band in the snapshot's order.
pub open spec fn worked_fits(w: Seq<(Band, Vec<u16>)>, snap: AwardsSnapshot) -> bool {
    let v = snap.dxcc_by_band@;
    &&& w.len() == v.len()
    &&& forall|i: int|
        0 <= i < w.len() ==> {
            &&& (#[trigger] w[i]).0 == v[i].0
            &&& forall|id: u16|
                w[i].1@.contains(id) <==> exists|k: int|
                    0 <= k < v[i].1.units@.len() && parse_unsigned(
                        #[trigger] v[i].1.units@[k].key@,
                        65535,
                    ) == Some(id as nat)
        }
}

fn unit_ids(units: &Vec<crate::awards::AwardUnit>) -> (r: Vec<u16>)
    ensures
        forall|id: u16|
            r@.contains(id) <==> exists|k: int|
                0 <= k < units@.len() && parse_unsigned(#[trigger] units@[k].key@, 65535) == Some(
                    id as nat,
                ),
{
    let mut r: Vec<u16> = Vec::new();
    let mut k: usize = 0;
    while k < units.len()
        invariant
            k <= units.len(),
            forall|id: u16|
                r@.contains(id) <==> exists|j: int|
                    0 <= j < k && parse_unsigned(#[trigger] units@[j].key@, 65535) == Some(id as nat),
        decreases units.len() - k,
    {
        let c = chars_of(units[k].key.as_str());
        let ghost before = r@;
        match parse_unsigned_exec(c.as_slice(), 65535) {
            Some(v) => {
                r.push(v as u16);
                assert forall|id: u16|
                    r@.contains(id) <==> exists|j: int|
                        0 <= j < k + 1 && parse_unsigned(#[trigger] units@[j].key@, 65535) == Some(
                            id as nat,
                        ) by {
                    if r@.contains(id) {
                        let t = choose|t: int| 0 <= t < r@.len() && r@[t] == id;
                        if t < before.len() {
                            assert(before.contains(id));
                        } else {
                            assert(parse_unsigned(units@[k as int].key@, 65535) == Some(id as nat));
                        }
                    }
                    if exists|j: int|
                        0 <= j < k + 1 && parse_unsigned(#[trigger] units@[j].key@, 65535) == Some(
                            id as nat,
                        ) {
                        let j = choose|j: int|
                            0 <= j < k + 1 && parse_unsigned(#[trigger] units@[j].key@, 65535)
                                == Some(id as nat);
                        if j < k {
                            assert(before.contains(id));
                            let t = choose|t: int| 0 <= t < before.len() && before[t] == id;
                            assert(r@[t] == id);
                        } else {
                            assert(r@[before.len() as int] == id);
                        }
                    }
                }
            },
            None => {
                assert forall|id: u16|
                    r@.contains(id) <==> exists|j: int|
                        0 <= j < k + 1 && parse_unsigned(#[trigger] units@[j].key@, 65535) == Some(
                            id as nat,
                        ) by {
                    if exists|j: int|
                        0 <= j < k + 1 && parse_unsigned(#[trigger] units@[j].key@, 65535) == Some(
                            id as nat,
                        ) {
                        let j = choose|j: int|
                            0 <= j < k + 1 && parse_unsigned(#[trigger] units@[j].key@, 65535)
                                == Some(id as nat);
                        assert(j < k);
                    }
                }
            },
        }
        k = k + 1;
    }
    r
}

/// The entities worked on each band, from the awards snapshot.
pub fn build_worked_by_band(snap: &AwardsSnapshot) -> (r: WorkedByBand)
    ensures
        worked_fits(r@, *snap),
{
    let v = &snap.dxcc_by_band;
    let mut r: WorkedByBand = Vec::new();
    let mut i: usize = 0;
    while i < v.len()
        invariant
            i <= v.len(),
            v@ == snap.dxcc_by_band@,
            r@.len() == i,
            forall|t: int|
                0 <= t < i ==> {
                    &&& (#[trigger] r@[t]).0 == v@[t].0
                    &&& forall|id: u16|
                        r@[t].1@.contains(id) <==> exists|k: int|
                            0 <= k < v@[t].1.units@.len() && parse_unsigned(
                                #[trigger] v@[t].1.units@[k].key@,
                                65535,
                            ) == Some(id as nat)
                },
        decreases v.len() - i,
    {
        let ids = unit_ids(&v[i].1.units);
        r.push((v[i].0, ids));
        i = i + 1;
    }
    r
}

/// The status of a spot from what is known of it: whether its callsign
/// parses, the entity its resolution names, and its band.
pub open spec fn spot_status_of(
    call_ok: bool,
    res: Option<Resolution>,
    band: Option<Band>,
    w: Seq<(Band, Vec<u16>)>,
) -> SpotStatus {
    if !call_ok {
        SpotStatus::Unknown
    } else {
        match res {
            None => SpotStatus::Unknown,
            Some(r) => match (r.dxcc_id, band) {
                (Some(id), Some(b)) => if worked_on(w, b, id) {
                    SpotStatus::Worked
                } else {
                    SpotStatus::NeededBand
                },
                _ => SpotStatus::Unknown,
            },
        }
    }
}

fn worked_on_exec(w: &WorkedByBand, band: Band, id: u16) -> (r: bool)
    ensures
        r == worked_on(w@, band, id),
{
    let mut i: usize = 0;
    while i < w.len()
        invariant
            i <= w.len(),
            forall|t: int| 0 <= t < i ==> !((#[trigger] w@[t]).0 == band && w@[t].1@.contains(id)),
        decreases w.len() - i,
    {
        if w[i].0 == band {
            let ids = &w[i].1;
            let mut k: usize = 0;
            while k < ids.len()
                invariant
                    k <= ids.len(),
                    i < w@.len(),
                    ids@ == w@[i as int].1@,
                    w@[i as int].0 == band,
                    forall|j: int| 0 <= j < k ==> ids@[j] != id,
                decreases ids.len() - k,
            {
                if ids[k] == id {
                    assert(w@[i as int].1@[k as int] == id);
                    assert(w@[i as int].1@.contains(id));
                    return true;
                }
                k = k + 1;
            }
        }
        i = i + 1;
    }
    false
}

/// The frequency of a spot as the band lookup reads it: its Hz taken as a
/// signed 64-bit number, so that a frequency above `i64::MAX` wraps to a
/// negative one, which has no band.
pub open spec fn spot_hz(spot: Spot) -> int {
    (spot.freq_hz as i64) as int
}

/// A spot judged against the entities worked on its band, with the
/// resolver's answer for its callsign.
pub fn annotate_with(spot: &Spot, call_ok: bool, res: Option<Resolution>, w: &WorkedByBand) -> (r: SpotStatus)
    ensures
        r == spot_status_of(call_ok, res, band_of_hz(spot_hz(*spot)), w@),
{
    if !call_ok {
        return SpotStatus::Unknown;
    }
    let id = match res {
        Some(r) => match r.dxcc_id {
            Some(id) => id,
            None => return SpotStatus::Unknown,
        },
        None => return SpotStatus::Unknown,
    };
    let hz: i64 = #[verifier::truncate] (spot.freq_hz as i64);
    let band = match Band::from_freq_hz(hz) {
        Some(b) => b,
        None => return SpotStatus::Unknown,
    };
    if worked_on_exec(w, band, id) {
        SpotStatus::Worked
    } else {
        SpotStatus::NeededBand
    }
}

/// The resolver's answer for a spot's callsign: none when the callsign
/// does not parse, since then nothing is asked.
pub open spec fn spot_answer<R: Resolver>(spot: Spot, resolver: R) -> Option<Resolution> {
    match parse_callsign(spot.call@) {
        Ok(c) => resolver.answer(c),
        Err(_) => None,
    }
}

/// A spot judged with the resolver: the callsign is looked up only when
/// it parses, and the status follows from the resolver's answer, the
/// band of the spot's frequency and the entities worked on that band.
pub fn annotate_spot<R: Resolver>(spot: &Spot, resolver: &R, w: &WorkedByBand) -> (r: SpotStatus)
    ensures
        r == spot_status_of(
            parse_callsign(spot.call@) is Ok,
            spot_answer(*spot, *resolver),
            band_of_hz(spot_hz(*spot)),
            w@,
        ),
{
    match Callsign::parse(spot.call.as_str()) {
        Ok(call) => {
            let res = resolver.resolve(&call);
            annotate_with(spot, true, res, w)
        },
        Err(_) => annotate_with(spot, false, None, w),
    }
}

/// How long ago, for a spot row: `now` under 5 s, then seconds, minutes
/// or hours, negative ages counting as none.
pub open spec fn age_text(secs: int) -> Seq<char> {
    let s = if secs < 0 {
        0
    } else {
        secs
    };
    if s < 5 {
        "now"@
    } else if s < 60 {
        dec(s as nat) + "s"@
    } else if s < 3600 {
        dec((s / 60) as nat) + "m"@
    } else {
        dec((s / 3600) as nat) + "h"@
    }
}

pub fn relative_age_label(secs: i64) -> (r: String)
    ensures
        r@ == age_text(secs as int),
{
    let s: u64 = if secs < 0 {
        0
    } else {
        secs as u64
    };
    if s < 5 {
        string_of("now")
    } else if s < 60 {
        let mut r = dec_string(s);
        r.append("s");
        r
    } else if s < 3600 {
        let mut r = dec_string(s / 60);
        r.append("m");
        r
    } else {
        let mut r = dec_string(s / 3600);
        r.append("h");
        r
    }
}

/// The age of a spot at `now`, in seconds; a spot whose time cannot be
/// read counts as too old to show.
pub open spec fn spot_age(spot: Spot, now: UtcDateTime) -> i64 {
    match seconds_from(spot.spotted_at, now) {
        Some(s) => s,
        None => i64::MAX,
    }
}

/// One row of the spots pane.
#[derive(Debug, Clone)]
pub struct SpotRow {
    pub index: usize,
    pub status: SpotStatus,
    pub age: String,
}

/// The spots pane: its header line, the label of its toggle, and the
/// rows shown (by position in the history).
#[derive(Debug, Clone)]
pub struct SpotsPane {
    pub header: String,
    pub toggle_label: String,
    pub rows: Vec<SpotRow>,
}

/// Positions of the spots, below `n`, that are recent enough and, when
/// only needed spots are asked for, needed.
pub open spec fn shown_positions(
    ages: Seq<i64>,
    statuses: Seq<SpotStatus>,
    needed_only: bool,
    n: int,
) -> Seq<int>
    decreases n,
{
    if n <= 0 {
        seq![]
    } else {
        let rest = shown_positions(ages, statuses, needed_only, n - 1);
        if ages[n - 1] <= 3600 && (!needed_only || statuses[n - 1] == SpotStatus::NeededBand) {
            rest.push(n - 1)
        } else {
            rest
        }
    }
}

/// How many spots below `n` are recent enough (and needed, when asked).
pub open spec fn count_recent(ages: Seq<i64>, statuses: Seq<SpotStatus>, needed: bool, n: int) -> nat
    decreases n,
{
    if n <= 0 {
        0
    } else {
        count_recent(ages, statuses, needed, n - 1) + if ages[n - 1] <= 3600 && (!needed
            || statuses[n - 1] == SpotStatus::NeededBand) {
            1nat
        } else {
            0nat
        }
    }
}

/// The spots pane for the spots with the given statuses and ages: the
/// recent ones (an hour at most), only the needed ones when asked, a
/// header with the counts and the feed status, and the toggle's label.
pub fn spots_pane(
    statuses: &Vec<SpotStatus>,
    ages: &Vec<i64>,
    needed_only: bool,
    feed_status: &Option<String>,
) -> (r: SpotsPane)
    requires
        statuses@.len() == ages@.len(),
    ensures
        ({
            let n = ages@.len() as int;
            let ps = shown_positions(ages@, statuses@, needed_only, n);
            &&& r.rows@.len() == ps.len()
            &&& forall|t: int|
                0 <= t < ps.len() ==> {
                    &&& (#[trigger] r.rows@[t]).index == ps[t]
                    &&& r.rows@[t].status == statuses@[ps[t]]
                    &&& r.rows@[t].age@ == age_text(ages@[ps[t]] as int)
                }
            &&& r.header@ == dec(ps.len()) + " shown of "@ + dec(
                count_recent(ages@, statuses@, false, n),
            ) + " · "@ + dec(count_recent(ages@, statuses@, true, n)) + " needed"@
                + match *feed_status {
                Some(s) => " — "@ + s@,
                None => seq![],
            }
        }),
        r.toggle_label@ == if needed_only {
            "Show all"@
        } else {
            "Needed only"@
        },
{
    let n = ages.len();
    let mut rows: Vec<SpotRow> = Vec::new();
    let mut total: usize = 0;
    let mut needed: usize = 0;
    let mut i: usize = 0;
    while i < n
        invariant
            n == ages@.len(),
            statuses@.len() == n,
            i <= n,
            total == count_recent(ages@, statuses@, false, i as int),
            needed == count_recent(ages@, statuses@, true, i as int),
            total <= i,
            needed <= i,
            rows@.len() == shown_positions(ages@, statuses@, needed_only, i as int).len(),
            forall|t: int|
                0 <= t < rows@.len() ==> {
                    &&& (#[trigger] rows@[t]).index == shown_positions(
                        ages@,
                        statuses@,
                        needed_only,
                        i as int,
                    )[t]
                    &&& rows@[t].status == statuses@[rows@[t].index as int]
                    &&& rows@[t].age@ == age_text(ages@[rows@[t].index as int] as int)
                },
        decreases n - i,
    {
        let recent = ages[i] <= 3600;
        let is_needed = statuses[i] == SpotStatus::NeededBand;
        if recent {
            total = total + 1;
            if is_needed {
                needed = needed + 1;
            }
            if !needed_only || is_needed {
                rows.push(SpotRow { index: i, status: statuses[i], age: relative_age_label(ages[i]) });
            }
        }
        i = i + 1;
    }
    let mut header = dec_string(rows.len() as u64);
    header.append(" shown of ");
    header.append(dec_string(total as u64).as_str());
    header.append(" · ");
    header.append(dec_string(needed as u64).as_str());
    header.append(" needed");
    match feed_status {
        Some(s) => {
            header.append(" — ");
            header.append(s.as_str());
        },
        None => {
            assert(header@ =~= header@ + seq![]);
        },
    }
    let toggle_label = if needed_only {
        string_of("Show all")
    } else {
        string_of("Needed only")
    };
    SpotsPane { header, toggle_label, rows }
}

/// The ages of the spots at `now`.
pub fn spot_ages(spots: &Vec<Spot>, now: UtcDateTime) -> (r: Vec<i64>)
    ensures
        r@.len() == spots@.len(),
        forall|i: int| 0 <= i < r@.len() ==> r@[i] == spot_age(#[trigger] spots@[i], now),
{
    let mut r: Vec<i64> = Vec::new();
    let mut i: usize = 0;
    while i < spots.len()
        invariant
            i <= spots.len(),
            r@.len() == i,
            forall|k: int| 0 <= k < i ==> r@[k] == spot_age(#[trigger] spots@[k], now),
        decreases spots.len() - i,
    {
        let a = match seconds_between(spots[i].spotted_at, now) {
            Some(s) => s,
            None => i64::MAX,
        };
        r.push(a);
        i = i + 1;
    }
    r
}

/// When a spot is Unknown: exactly when its callsign does not parse, the
/// resolver names no entity for it, or its frequency lies in no band.
pub proof fn law_spot_unknown(call_ok: bool, res: Option<Resolution>, spot: Spot, w: Seq<(Band, Vec<u16>)>)
    ensures
        (spot_status_of(call_ok, res, band_of_hz(spot_hz(spot)), w) == SpotStatus::Unknown) <==> (
        !call_ok || res is None || res.unwrap().dxcc_id is None || band_of_hz(spot_hz(spot)) is None),
{
}

/// A spot whose callsign parses and resolves to entity `id`, on a
/// frequency in band `b`, is Worked exactly when `id` stands, at any
/// position, in an entry of the worked-by-band table for `b`, and
/// NeededBand otherwise.
pub proof fn law_spot_worked_iff_listed(res: Resolution, spot: Spot, w: Seq<(Band, Vec<u16>)>, id: u16, b: Band)
    requires
        res.dxcc_id == Some(id),
        band_of_hz(spot_hz(spot)) == Some(b),
    ensures
        (spot_status_of(true, Some(res), band_of_hz(spot_hz(spot)), w) == SpotStatus::Worked) <==> exists|
            i: int,
            k: int,
        |
            0 <= i < w.len() && 0 <= k < w[i].1@.len() && (#[trigger] w[i]).0 == b && #[trigger] w[i].1@[k]
                == id,
        (spot_status_of(true, Some(res), band_of_hz(spot_hz(spot)), w) == SpotStatus::NeededBand)
            <==> forall|i: int, k: int|
            0 <= i < w.len() && 0 <= k < w[i].1@.len() && (#[trigger] w[i]).0 == b ==> #[trigger] w[i].1@[k]
                != id,
{
    if worked_on(w, b, id) {
        let i = choose|i: int| 0 <= i < w.len() && (#[trigger] w[i]).0 == b && w[i].1@.contains(id);
        let k = choose|k: int| 0 <= k < w[i].1@.len() && w[i].1@[k] == id;
        assert(w[i].1@[k] == id);
    }
    if exists|i: int, k: int|
        0 <= i < w.len() && 0 <= k < w[i].1@.len() && (#[trigger] w[i]).0 == b && #[trigger] w[i].1@[k] == id {
        let (i, k) = choose|i: int, k: int|
            0 <= i < w.len() && 0 <= k < w[i].1@.len() && (#[trigger] w[i]).0 == b && #[trigger] w[i].1@[k]
                == id;
        assert(w[i].1@.contains(id));
    }
}

} // verus!
