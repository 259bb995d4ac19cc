//! What the operator's screens decide, apart from drawing: the entry
//! form's defaults and fallbacks, the views and panes, the search and
//! award filters, and the rows of the awards pane.
use vstd::prelude::*;

use crate::awards::{AwardProgress, AwardsSnapshot};
use crate::summary::{join, join_strings};
use crate::config::StationConfig;
use crate::freq::{mhz_text_to_hz, parse_freq_mhz};
use crate::import::opt_view;
use crate::entry::station_option_label;
use crate::ids::{QsoId, StationLocationId};
use crate::qsl_view::{contains_id, qso_line, qso_line_text};
use crate::queries::{QsoSearch, QsoSummary, SortOrder};
use crate::station::StationLocation;
use crate::text::{chars_of, dec, dec_string, str_trim, string_from_chars, trim};
use crate::value::{band_adif, callsign_result_matches, parse_callsign, mode_adif, string_of, Band, Callsign, Mode, ModeV};

verus! {

/// At most this many spots are kept.
pub const SPOT_HISTORY_LIMIT: usize = 100;

/// Spots older than this many seconds are not shown.
pub const SPOT_MAX_AGE_SECS: u64 = 3600;

/// The text of a field with surrounding whitespace removed, none when
/// that leaves nothing.
pub open spec fn optional_text(s: Seq<char>) -> Option<Seq<char>> {
    if trim(s).len() == 0 {
        None
    } else {
        Some(trim(s))
    }
}

pub fn option_from_str(s: &str) -> (r: Option<String>)
    ensures
        opt_view(r) == optional_text(s@),
{
    let t = chars_of(str_trim(s));
    if t.len() == 0 {
        None
    } else {
        Some(string_from_chars(t.as_slice()))
    }
}

/// A frequency typed in MHz, in Hz; nothing when it is not a positive
/// number.
pub fn parse_mhz_to_hz(s: &str) -> (r: Option<i64>)
    ensures
        r == mhz_text_to_hz(s@),
{
    parse_freq_mhz(s)
}

/// The frequency the entry form suggests for a band, in Hz: a common
/// phone or CW spot in it. Bands the form does not offer have none.
pub open spec fn band_default_hz(b: Band) -> Option<i64> {
    match b {
        Band::M160 => Some(1_840_000),
        Band::M80 => Some(3_700_000),
        Band::M60 => Some(5_357_000),
        Band::M40 => Some(7_150_000),
        Band::M30 => Some(10_130_000),
        Band::M20 => Some(14_200_000),
        Band::M17 => Some(18_130_000),
        Band::M15 => Some(21_250_000),
        Band::M12 => Some(24_940_000),
        Band::M10 => Some(28_400_000),
        Band::M6 => Some(50_130_000),
        Band::M2 => Some(144_200_000),
        Band::Cm70 => Some(432_100_000),
        Band::Cm23 => Some(1_296_100_000),
        _ => None,
    }
}

pub fn default_freq_for_band(b: Band) -> (r: Option<i64>)
    ensures
        r == band_default_hz(b),
{
    match b {
        Band::M160 => Some(1_840_000),
        Band::M80 => Some(3_700_000),
        Band::M60 => Some(5_357_000),
        Band::M40 => Some(7_150_000),
        Band::M30 => Some(10_130_000),
        Band::M20 => Some(14_200_000),
        Band::M17 => Some(18_130_000),
        Band::M15 => Some(21_250_000),
        Band::M12 => Some(24_940_000),
        Band::M10 => Some(28_400_000),
        Band::M6 => Some(50_130_000),
        Band::M2 => Some(144_200_000),
        Band::Cm70 => Some(432_100_000),
        Band::Cm23 => Some(1_296_100_000),
        _ => None,
    }
}

/// The station callsign the configuration gives, when it parses.
pub fn station_call_from_config(s: &StationConfig) -> (r: Option<Callsign>)
    ensures
        match s.default_callsign {
            Some(c) => match r {
                Some(call) => callsign_result_matches(Ok(call), c@),
                None => parse_callsign(c@) is Err,
            },
            None => r is None,
        },
{
    match &s.default_callsign {
        Some(c) => {
            let p = Callsign::parse(c.as_str());
            match p {
                Ok(call) => Some(call),
                Err(_) => None,
            }
        },
        None => None,
    }
}

/// The bands the entry form offers, lowest first.
pub open spec fn form_bands() -> Seq<Band> {
    seq![
        Band::M160, Band::M80, Band::M60, Band::M40, Band::M30, Band::M20, Band::M17, Band::M15,
        Band::M12, Band::M10, Band::M6, Band::M2, Band::Cm70, Band::Cm23,
    ]
}

pub fn bands() -> (r: Vec<Band>)
    ensures
        r@ == form_bands(),
{
    let r = vec![
        Band::M160, Band::M80, Band::M60, Band::M40, Band::M30, Band::M20, Band::M17, Band::M15,
        Band::M12, Band::M10, Band::M6, Band::M2, Band::Cm70, Band::Cm23,
    ];
    assert(r@ =~= form_bands());
    r
}

/// Every band the form offers has a suggested frequency.
pub proof fn law_form_bands_have_default(i: int)
    requires
        0 <= i < form_bands().len(),
    ensures
        band_default_hz(form_bands()[i]) is Some,
{
}

/// The modes the entry form offers.
pub open spec fn form_modes() -> Seq<ModeV> {
    seq![ModeV::CW, ModeV::SSB, ModeV::FT8, ModeV::FT4, ModeV::RTTY, ModeV::PSK, ModeV::AM, ModeV::FM]
}

pub fn modes() -> (r: Vec<Mode>)
    ensures
        r@.map_values(|m: Mode| m@) == form_modes(),
{
    let r = vec![
        Mode::CW,
        Mode::SSB,
        Mode::FT8,
        Mode::FT4,
        Mode::RTTY,
        Mode::PSK,
        Mode::AM,
        Mode::FM,
    ];
    assert(r@.map_values(|m: Mode| m@) =~= form_modes());
    r
}

/// The top-level views.
#[derive(Debug, Clone, Copy, PartialEq, Eq, Structural)]
pub enum ViewKind {
    Operating,
    Qsl,
    Logbook,
}

impl Default for ViewKind {
    /// A fresh start lands in the most used view.
    fn default() -> (r: ViewKind)
        ensures
            r == ViewKind::Operating,
    {
        ViewKind::Operating
    }
}

impl ViewKind {
    pub fn label(self) -> (r: &'static str)
        ensures
            r@ == match self {
                ViewKind::Operating => "Operating"@,
                ViewKind::Qsl => "QSL"@,
                ViewKind::Logbook => "Logbook"@,
            },
    {
        match self {
            ViewKind::Operating => "Operating",
            ViewKind::Qsl => "QSL",
            ViewKind::Logbook => "Logbook",
        }
    }
}

/// The panes of the operating view.
#[derive(Debug, Clone, Copy, PartialEq, Eq, Structural)]
pub enum PaneKind {
    Spots,
    Entry,
    Station,
    Recent,
}

impl PaneKind {
    pub fn title(self) -> (r: &'static str)
        ensures
            r@ == match self {
                PaneKind::Spots => "Spots"@,
                PaneKind::Entry => "Entry"@,
                PaneKind::Station => "Station"@,
                PaneKind::Recent => "Recent"@,
            },
    {
        match self {
            PaneKind::Spots => "Spots",
            PaneKind::Entry => "Entry",
            PaneKind::Station => "Station",
            PaneKind::Recent => "Recent",
        }
    }
}

/// The panes of the logbook view.
#[derive(Debug, Clone, Copy, PartialEq, Eq, Structural)]
pub enum LogbookPaneKind {
    Search,
    Grid,
    Detail,
    Awards,
    Sessions,
    Tools,
}

impl LogbookPaneKind {
    pub fn title(self) -> (r: &'static str)
        ensures
            r@ == match self {
                LogbookPaneKind::Search => "Search"@,
                LogbookPaneKind::Grid => "Results"@,
                LogbookPaneKind::Detail => "Detail"@,
                LogbookPaneKind::Awards => "Awards"@,
                LogbookPaneKind::Sessions => "Sessions"@,
                LogbookPaneKind::Tools => "Tools"@,
            },
    {
        match self {
            LogbookPaneKind::Search => "Search",
            LogbookPaneKind::Grid => "Results",
            LogbookPaneKind::Detail => "Detail",
            LogbookPaneKind::Awards => "Awards",
            LogbookPaneKind::Sessions => "Sessions",
            LogbookPaneKind::Tools => "Tools",
        }
    }
}

/// Which way a pane split runs.
#[derive(Debug, Clone, Copy, PartialEq, Eq, Structural)]
pub enum AxisRepr {
    Horizontal,
    Vertical,
}

/// The search filter on LotW confirmation.
#[derive(Debug, Clone, Copy, PartialEq, Eq, Structural)]
pub enum LotwFilter {
    Any,
    Confirmed,
    Unconfirmed,
}

impl Default for LotwFilter {
    fn default() -> (r: LotwFilter)
        ensures
            r == LotwFilter::Any,
    {
        LotwFilter::Any
    }
}

impl LotwFilter {
    /// The confirmation a search asks for: none for any.
    pub fn as_search_filter(self) -> (r: Option<bool>)
        ensures
            r == match self {
                LotwFilter::Any => None::<bool>,
                LotwFilter::Confirmed => Some(true),
                LotwFilter::Unconfirmed => Some(false),
            },
    {
        match self {
            LotwFilter::Any => None,
            LotwFilter::Confirmed => Some(true),
            LotwFilter::Unconfirmed => Some(false),
        }
    }

    pub fn label(self) -> (r: &'static str)
        ensures
            r@ == match self {
                LotwFilter::Any => "Any"@,
                LotwFilter::Confirmed => "Confirmed"@,
                LotwFilter::Unconfirmed => "Unconfirmed"@,
            },
    {
        match self {
            LotwFilter::Any => "Any",
            LotwFilter::Confirmed => "Confirmed",
            LotwFilter::Unconfirmed => "Unconfirmed",
        }
    }
}

/// A band filter; none means any band.
#[derive(Debug, Clone, Copy, PartialEq, Eq, Structural)]
pub struct BandFilter(pub Option<Band>);

impl Default for BandFilter {
    fn default() -> (r: BandFilter)
        ensures
            r.0 is None,
    {
        BandFilter(None)
    }
}

impl BandFilter {
    pub fn label(&self) -> (r: &'static str)
        ensures
            r@ == match self.0 {
                Some(b) => band_adif(b),
                None => "Any"@,
            },
    {
        match self.0 {
            Some(b) => b.as_adif(),
            None => "Any",
        }
    }
}

/// A mode filter; none means any mode.
#[derive(Debug, Clone)]
pub struct ModeFilter(pub Option<Mode>);

impl Default for ModeFilter {
    fn default() -> (r: ModeFilter)
        ensures
            r.0 is None,
    {
        ModeFilter(None)
    }
}

impl ModeFilter {
    pub fn label(&self) -> (r: String)
        ensures
            r@ == match self.0 {
                Some(m) => mode_adif(m@),
                None => "Any"@,
            },
    {
        match &self.0 {
            Some(m) => string_of(m.as_adif()),
            None => string_of("Any"),
        }
    }
}

/// Any band first, then each band the form offers.
pub fn band_filter_options() -> (r: Vec<BandFilter>)
    ensures
        r@.len() == form_bands().len() + 1,
        r@[0].0 is None,
        forall|i: int| 1 <= i < r@.len() ==> (#[trigger] r@[i]).0 == Some(form_bands()[i - 1]),
{
    let b = bands();
    let mut r: Vec<BandFilter> = Vec::new();
    r.push(BandFilter(None));
    let mut i: usize = 0;
    while i < b.len()
        invariant
            i <= b.len(),
            b@ == form_bands(),
            r@.len() == i + 1,
            r@[0].0 is None,
            forall|k: int| 1 <= k < i + 1 ==> (#[trigger] r@[k]).0 == Some(form_bands()[k - 1]),
        decreases b.len() - i,
    {
        r.push(BandFilter(Some(b[i])));
        i = i + 1;
    }
    r
}

/// Any mode first, then each mode the form offers.
pub fn mode_filter_options() -> (r: Vec<ModeFilter>)
    ensures
        r@.len() == form_modes().len() + 1,
        r@[0].0 is None,
        forall|i: int|
            1 <= i < r@.len() ==> ((#[trigger] r@[i]).0 matches Some(m) && m@ == form_modes()[i - 1]),
{
    let mut ms = modes();
    let mut r: Vec<ModeFilter> = Vec::new();
    r.push(ModeFilter(None));
    let mut i: usize = 0;
    assert(ms@.len() == form_modes().len()) by {
        assert(ms@.map_values(|m: Mode| m@).len() == ms@.len());
    }
    assert forall|k: int| 0 <= k < ms@.len() implies (#[trigger] ms@[k])@ == form_modes()[k] by {
        assert(ms@.map_values(|m: Mode| m@)[k] == ms@[k]@);
    }
    while ms.len() > 0
        invariant
            i + ms@.len() == form_modes().len(),
            forall|k: int| 0 <= k < ms@.len() ==> (#[trigger] ms@[k])@ == form_modes()[i + k],
            r@.len() == i + 1,
            r@[0].0 is None,
            forall|k: int|
                1 <= k < i + 1 ==> ((#[trigger] r@[k]).0 matches Some(m) && m@ == form_modes()[k
                    - 1]),
        decreases ms@.len(),
    {
        let ghost before = ms@;
        let m = ms.remove(0);
        assert(m@ == form_modes()[i as int]);
        r.push(ModeFilter(Some(m)));
        i = i + 1;
        assert forall|k: int| 0 <= k < ms@.len() implies (#[trigger] ms@[k])@ == form_modes()[i + k] by {
            assert(ms@[k] == before[k + 1]);
        }
    }
    r
}

/// The awards the awards pane offers.
#[derive(Debug, Clone, Copy, PartialEq, Eq, Structural)]
pub enum AwardKind {
    Dxcc,
    Was,
    Wpx,
    Iota,
    Marathon,
}

pub open spec fn award_kind_text(k: AwardKind) -> Seq<char> {
    match k {
        AwardKind::Dxcc => "DXCC"@,
        AwardKind::Was => "WAS"@,
        AwardKind::Wpx => "WPX"@,
        AwardKind::Iota => "IOTA"@,
        AwardKind::Marathon => "Marathon"@,
    }
}

impl AwardKind {
    pub fn label(self) -> (r: &'static str)
        ensures
            r@ == award_kind_text(self),
    {
        match self {
            AwardKind::Dxcc => "DXCC",
            AwardKind::Was => "WAS",
            AwardKind::Wpx => "WPX",
            AwardKind::Iota => "IOTA",
            AwardKind::Marathon => "Marathon",
        }
    }
}

/// An award unit the operator watches; the spots pane highlights spots
/// of it.
#[derive(Debug, Clone)]
pub struct TargetUnit {
    pub kind: AwardKind,
    pub key: String,
}

/// What the search form holds.
#[derive(Debug, Clone)]
pub struct SearchForm {
    pub call_prefix: String,
    pub exact_call: String,
    pub band: BandFilter,
    pub mode: ModeFilter,
    pub lotw_filter: LotwFilter,
}

/// The search a filter form asks for.
pub open spec fn search_for_form(r: QsoSearch, form: SearchForm) -> bool {
    &&& opt_view(r.call_prefix) == optional_text(form.call_prefix@)
    &&& match r.exact_call {
        Some(c) => callsign_result_matches(Ok(c), trim(form.exact_call@)),
        None => parse_callsign(trim(form.exact_call@)) is Err,
    }
    &&& r.band == form.band.0
    &&& match (r.mode, form.mode.0) {
        (Some(a), Some(b)) => a@ == b@,
        (None, None) => true,
        _ => false,
    }
    &&& r.lotw_confirmed == match form.lotw_filter {
        LotwFilter::Any => None::<bool>,
        LotwFilter::Confirmed => Some(true),
        LotwFilter::Unconfirmed => Some(false),
    }
    &&& r.limit == Some(500u32)
    &&& r.sort == SortOrder::QsoBeginDesc
    &&& r.dxcc_id is None
    &&& r.station_location_id is None
    &&& r.from is None
    &&& r.to is None
    &&& r.state is None
    &&& r.iota is None
    &&& r.continent is None
}

/// The search the form asks for: the trimmed call prefix when not empty,
/// the exact callsign when it parses, band, mode and LotW filters, and at
/// most 500 rows, newest first.
pub fn build_logbook_search(form: &SearchForm) -> (r: QsoSearch)
    ensures
        search_for_form(r, *form),
{
    let call_prefix = option_from_str(form.call_prefix.as_str());
    let exact_call = match Callsign::parse(str_trim(form.exact_call.as_str())) {
        Ok(c) => Some(c),
        Err(_) => None,
    };
    let mode = match &form.mode.0 {
        Some(m) => Some(m.duplicate()),
        None => None,
    };
    let d = QsoSearch::default();
    QsoSearch {
        call_prefix,
        exact_call,
        band: form.band.0,
        mode,
        lotw_confirmed: form.lotw_filter.as_search_filter(),
        limit: Some(500),
        ..d
    }
}

/// The totals line, rows and hints of the awards pane for the chosen
/// award.
#[derive(Debug, Clone)]
pub struct AwardsPane {
    pub totals_line: String,
    pub band_filter_shown: bool,
    pub target_line: String,
    pub rows: Vec<AwardRow>,
}

/// One unit of the awards pane: its line, its key, and whether it is
/// the watched unit.
#[derive(Debug, Clone)]
pub struct AwardRow {
    pub label: String,
    pub key: String,
    pub is_target: bool,
}

/// `s`, padded with spaces on the right to `w` characters.
pub open spec fn pad_right(s: Seq<char>, w: nat) -> Seq<char>
    decreases w,
{
    if s.len() >= w {
        s
    } else {
        pad_right(s, (w - 1) as nat) + seq![' ']
    }
}

pub(crate) fn pad_right_string(s: &str, w: usize) -> (r: String)
    ensures
        r@ == pad_right(s@, w as nat),
    decreases w,
{
    let c = chars_of(s);
    if c.len() >= w {
        string_from_chars(c.as_slice())
    } else {
        let mut r = pad_right_string(s, w - 1);
        r.append(" ");
        proof {
            reveal_strlit(" ");
        }
        assert(r@ =~= pad_right(s@, w as nat));
        r
    }
}

/// A unit's line: key padded to 6, count padded to 5, `yes` or `no`.
pub open spec fn unit_line(key: Seq<char>, count: nat, confirmed: bool) -> Seq<char> {
    pad_right(key, 6) + "  "@ + pad_right(dec(count), 5) + "  "@ + if confirmed {
        "yes"@
    } else {
        "no"@
    }
}

/// The progress the totals line counts: the chosen award's.
pub open spec fn own_progress(snap: AwardsSnapshot, kind: AwardKind) -> AwardProgress {
    match kind {
        AwardKind::Dxcc => snap.dxcc,
        AwardKind::Was => snap.was,
        AwardKind::Wpx => snap.wpx,
        AwardKind::Iota => snap.iota,
        AwardKind::Marathon => snap.marathon.entities,
    }
}

/// The units listed: those of the band's DXCC progress when DXCC is
/// narrowed to a band (none when the band has no QSO), else the award's.
pub open spec fn listed_units(snap: AwardsSnapshot, kind: AwardKind, band: Option<Band>) -> Seq<
    crate::awards::AwardUnit,
> {
    if kind == AwardKind::Dxcc && band is Some {
        match band_progress(snap.dxcc_by_band@, band.unwrap()) {
            Some(p) => p.units@,
            None => seq![],
        }
    } else {
        own_progress(snap, kind).units@
    }
}

/// The band note of the totals line, when DXCC is narrowed to a band.
pub open spec fn band_note(snap: AwardsSnapshot, kind: AwardKind, band: Option<Band>) -> Seq<char> {
    if kind == AwardKind::Dxcc && band is Some {
        let b = band.unwrap();
        match band_progress(snap.dxcc_by_band@, b) {
            Some(p) => " · "@ + band_adif(b) + " band: "@ + dec(p.worked as nat) + "/"@ + dec(
                p.confirmed as nat,
            ),
            None => " · "@ + band_adif(b) + " band: 0/0"@,
        }
    } else {
        seq![]
    }
}

/// The progress listed for a band, if any.
pub open spec fn band_progress(v: Seq<(Band, AwardProgress)>, b: Band) -> Option<AwardProgress>
    decreases v.len(),
{
    if v.len() == 0 {
        None
    } else if v[0].0 == b {
        Some(v[0].1)
    } else {
        band_progress(v.drop_first(), b)
    }
}

fn find_band_progress(v: &Vec<(Band, AwardProgress)>, b: Band) -> (r: Option<usize>)
    ensures
        match r {
            Some(i) => i < v@.len() && band_progress(v@, b) == Some(v@[i as int].1),
            None => band_progress(v@, b) is None,
        },
{
    let mut i: usize = 0;
    assert(v@.skip(0) =~= v@);
    while i < v.len()
        invariant
            i <= v.len(),
            band_progress(v@, b) == band_progress(v@.skip(i as int), b),
        decreases v.len() - i,
    {
        assert(v@.skip(i as int)[0] == v@[i as int]);
        if v[i].0 == b {
            return Some(i);
        }
        assert(v@.skip(i as int).drop_first() =~= v@.skip(i + 1));
        i = i + 1;
    }
    None
}

/// The watched-unit hint: the DXCC unit watched, a note that only DXCC
/// can be watched, or how to watch one.
pub open spec fn target_hint(target: Option<TargetUnit>) -> Seq<char> {
    match target {
        Some(t) => if t.kind == AwardKind::Dxcc {
            "Watching DXCC "@ + t.key@ + " in Spots"@
        } else {
            "(spot cross-reference is DXCC-only for now)"@
        },
        None => "Click a unit below to highlight matching spots."@,
    }
}

pub open spec fn awards_pane_fits(
    p: AwardsPane,
    snap: AwardsSnapshot,
    kind: AwardKind,
    band: Option<Band>,
    target: Option<TargetUnit>,
) -> bool {
    let own = own_progress(snap, kind);
    let units = listed_units(snap, kind, band);
    &&& p.totals_line@ == award_kind_text(kind) + ": "@ + dec(own.worked as nat) + " worked, "@
        + dec(own.confirmed as nat) + " confirmed"@ + band_note(snap, kind, band)
    &&& p.band_filter_shown == (kind == AwardKind::Dxcc)
    &&& p.target_line@ == target_hint(target)
    &&& p.rows@.len() == units.len()
    &&& forall|i: int|
        0 <= i < units.len() ==> {
            &&& (#[trigger] p.rows@[i]).key@ == units[i].key@
            &&& p.rows@[i].label@ == unit_line(
                units[i].key@,
                units[i].worked_count as nat,
                units[i].confirmed,
            )
            &&& p.rows@[i].is_target == (target matches Some(t) && t.kind == kind && t.key@
                == units[i].key@)
        }
}

fn progress_of<'a>(snap: &'a AwardsSnapshot, kind: AwardKind) -> (r: &'a AwardProgress)
    ensures
        *r == match kind {
            AwardKind::Dxcc => snap.dxcc,
            AwardKind::Was => snap.was,
            AwardKind::Wpx => snap.wpx,
            AwardKind::Iota => snap.iota,
            AwardKind::Marathon => snap.marathon.entities,
        },
{
    match kind {
        AwardKind::Dxcc => &snap.dxcc,
        AwardKind::Was => &snap.was,
        AwardKind::Wpx => &snap.wpx,
        AwardKind::Iota => &snap.iota,
        AwardKind::Marathon => &snap.marathon.entities,
    }
}

fn same_text(a: &String, b: &String) -> (r: bool)
    ensures
        r == (a@ == b@),
{
    crate::text::chars_eq(chars_of(a.as_str()).as_slice(), chars_of(b.as_str()).as_slice())
}

fn unit_rows(units: &Vec<crate::awards::AwardUnit>, kind: AwardKind, target: &Option<TargetUnit>) -> (r: Vec<AwardRow>)
    ensures
        r@.len() == units@.len(),
        forall|i: int|
            0 <= i < units@.len() ==> {
                &&& (#[trigger] r@[i]).key@ == units@[i].key@
                &&& r@[i].label@ == unit_line(
                    units@[i].key@,
                    units@[i].worked_count as nat,
                    units@[i].confirmed,
                )
                &&& r@[i].is_target == (*target matches Some(t) && t.kind == kind && t.key@
                    == units@[i].key@)
            },
{
    let mut r: Vec<AwardRow> = Vec::new();
    let mut i: usize = 0;
    while i < units.len()
        invariant
            i <= units.len(),
            r@.len() == i,
            forall|k: int|
                0 <= k < i ==> {
                    &&& (#[trigger] r@[k]).key@ == units@[k].key@
                    &&& r@[k].label@ == unit_line(
                        units@[k].key@,
                        units@[k].worked_count as nat,
                        units@[k].confirmed,
                    )
                    &&& r@[k].is_target == (*target matches Some(t) && t.kind == kind && t.key@
                        == units@[k].key@)
                },
        decreases units.len() - i,
    {
        let u = &units[i];
        let mut label = pad_right_string(u.key.as_str(), 6);
        label.append("  ");
        label.append(pad_right_string(dec_string(u.worked_count as u64).as_str(), 5).as_str());
        label.append("  ");
        label.append(if u.confirmed {
            "yes"
        } else {
            "no"
        });
        let is_target = match target {
            Some(t) => t.kind == kind && same_text(&t.key, &u.key),
            None => false,
        };
        r.push(AwardRow { label, key: string_of(u.key.as_str()), is_target });
        i = i + 1;
    }
    r
}

/// The awards pane for the chosen award, band filter and watched unit.
pub fn awards_pane(
    snap: &AwardsSnapshot,
    kind: AwardKind,
    band: Option<Band>,
    target: &Option<TargetUnit>,
) -> (r: AwardsPane)
    ensures
        awards_pane_fits(r, *snap, kind, band, *target),
{
    let own = progress_of(snap, kind);
    assert(*own == own_progress(*snap, kind));
    let mut totals = string_of(kind.label());
    totals.append(": ");
    totals.append(dec_string(own.worked as u64).as_str());
    totals.append(" worked, ");
    totals.append(dec_string(own.confirmed as u64).as_str());
    totals.append(" confirmed");
    let empty: Vec<crate::awards::AwardUnit> = Vec::new();
    let rows = match (kind, band) {
        (AwardKind::Dxcc, Some(b)) => match find_band_progress(&snap.dxcc_by_band, b) {
            Some(i) => {
                let p = &snap.dxcc_by_band[i].1;
                totals.append(" · ");
                totals.append(b.as_adif());
                totals.append(" band: ");
                totals.append(dec_string(p.worked as u64).as_str());
                totals.append("/");
                totals.append(dec_string(p.confirmed as u64).as_str());
                assert(listed_units(*snap, kind, band) == p.units@);
                unit_rows(&p.units, kind, target)
            },
            None => {
                totals.append(" · ");
                totals.append(b.as_adif());
                totals.append(" band: 0/0");
                assert(listed_units(*snap, kind, band) =~= empty@);
                unit_rows(&empty, kind, target)
            },
        },
        _ => {
            assert(totals@ =~= totals@ + band_note(*snap, kind, band));
            assert(listed_units(*snap, kind, band) == own.units@);
            unit_rows(&own.units, kind, target)
        },
    };
    let target_line = match target {
        Some(t) => if t.kind == AwardKind::Dxcc {
            let mut s = string_of("Watching DXCC ");
            s.append(t.key.as_str());
            s.append(" in Spots");
            s
        } else {
            string_of("(spot cross-reference is DXCC-only for now)")
        },
        None => string_of("Click a unit below to highlight matching spots."),
    };
    let r = AwardsPane {
        totals_line: totals,
        band_filter_shown: kind == AwardKind::Dxcc,
        target_line,
        rows,
    };
    assert(r.target_line@ == target_hint(*target));
    assert(r.rows@.len() == listed_units(*snap, kind, band).len());
    assert(r.totals_line@ == award_kind_text(kind) + ": "@ + dec(own.worked as nat) + " worked, "@
        + dec(own.confirmed as nat) + " confirmed"@ + band_note(*snap, kind, band));
    r
}

/// A page of logbook search results and how many QSOs match in all.
#[derive(Debug, Clone)]
pub struct LogbookSearchResult {
    pub results: Vec<QsoSummary>,
    pub total: usize,
}

/// What a refresh of the main screen reads: the recent QSOs, how many
/// wait for each service, and the award standings.
#[derive(Debug, Clone)]
pub struct RefreshSnapshot {
    pub recent: Vec<QsoSummary>,
    pub pending_lotw: usize,
    pub pending_eqsl: usize,
    pub pending_clublog: usize,
    pub pending_qrz: usize,
    pub pending_hrdlog: usize,
    pub awards: AwardsSnapshot,
}

/// A station location as the station picker lists it.
#[derive(Debug, Clone, PartialEq, Eq)]
pub struct StationOption {
    pub id: StationLocationId,
    pub label: String,
}

impl StationOption {
    /// The location's id, and its name with its callsign in parentheses
    /// when it has one.
    pub fn from_location(loc: &StationLocation) -> (r: StationOption)
        ensures
            r.id == loc.id,
            r.label@ == match loc.station_callsign {
                Some(c) => loc.name@ + " ("@ + c@ + ")"@,
                None => loc.name@,
            },
    {
        let label = match &loc.station_callsign {
            Some(c) => station_option_label(loc.name.as_str(), Some(c)),
            None => station_option_label(loc.name.as_str(), None),
        };
        StationOption { id: loc.id, label }
    }
}

/// One QSO of the logbook grid: its id, its line, and whether it is
/// selected.
#[derive(Debug, Clone)]
pub struct GridRow {
    pub id: QsoId,
    pub label: String,
    pub selected: bool,
}

/// The logbook grid: the selection count shown beside the bulk actions
/// (none while nothing is selected), the status of the last bulk action,
/// and one row per search result.
#[derive(Debug, Clone)]
pub struct LogbookGrid {
    pub selected_label: Option<String>,
    pub action_status: Option<String>,
    pub rows: Vec<GridRow>,
}

/// A search result's line in the logbook grid, laid out as a pending
/// QSO's line is.
pub open spec fn grid_label(q: QsoSummary) -> Seq<char> {
    qso_line_text(
        q.qso_begin,
        q.call@,
        q.band,
        match q.mode {
            Some(m) => Some(m@),
            None => None,
        },
        opt_view(q.dxcc_prefix),
    )
}

/// The logbook grid for the search results, the selected QSOs (each
/// listed once) and the status of the last bulk action.
pub fn logbook_grid(results: &Vec<QsoSummary>, selected: &Vec<QsoId>, last_action: &Option<String>) -> (r: LogbookGrid)
    ensures
        (selected@.len() == 0) == (r.selected_label is None),
        r.selected_label matches Some(l) ==> l@ == dec(selected@.len()) + " selected:"@,
        opt_view(r.action_status) == opt_view(*last_action),
        r.rows@.len() == results@.len(),
        forall|i: int|
            0 <= i < results@.len() ==> {
                &&& (#[trigger] r.rows@[i]).id == results@[i].id
                &&& r.rows@[i].label@ == grid_label(results@[i])
                &&& r.rows@[i].selected == selected@.contains(results@[i].id)
            },
{
    let selected_label = if selected.len() == 0 {
        None
    } else {
        let mut l = dec_string(selected.len() as u64);
        l.append(" selected:");
        Some(l)
    };
    let action_status = match last_action {
        Some(s) => Some(s.clone()),
        None => None,
    };
    let mut rows: Vec<GridRow> = Vec::new();
    let mut i: usize = 0;
    while i < results.len()
        invariant
            i <= results@.len(),
            rows@.len() == i,
            forall|k: int|
                0 <= k < i ==> {
                    &&& (#[trigger] rows@[k]).id == results@[k].id
                    &&& rows@[k].label@ == grid_label(results@[k])
                    &&& rows@[k].selected == selected@.contains(results@[k].id)
                },
        decreases results@.len() - i,
    {
        let q = &results[i];
        let label = qso_line(&q.qso_begin, q.call.as_str(), q.band, &q.mode, &q.dxcc_prefix);
        rows.push(GridRow { id: q.id, label, selected: contains_id(selected, q.id) });
        i = i + 1;
    }
    LogbookGrid { selected_label, action_status, rows }
}

/// `{}` of a signed whole number.
pub open spec fn signed_dec(n: int) -> Seq<char> {
    if n < 0 {
        seq!['-'] + dec((-n) as nat)
    } else {
        dec(n as nat)
    }
}

fn signed_dec_string(n: i32) -> (r: String)
    ensures
        r@ == signed_dec(n as int),
{
    if n < 0 {
        let m: u64 = (0 - (n as i64)) as u64;
        let mut r = string_of("-");
        r.append(dec_string(m).as_str());
        proof {
            reveal_strlit("-");
        }
        assert(r@ =~= signed_dec(n as int));
        r
    } else {
        dec_string(n as u64)
    }
}

/// `worked/confirmed`.
pub open spec fn ratio_text(p: AwardProgress) -> Seq<char> {
    dec(p.worked as nat) + "/"@ + dec(p.confirmed as nat)
}

fn ratio_string(p: &AwardProgress) -> (r: String)
    ensures
        r@ == ratio_text(*p),
{
    let mut r = dec_string(p.worked as u64);
    r.append("/");
    r.append(dec_string(p.confirmed as u64).as_str());
    r
}

/// The one-line award readout of the operating view.
pub open spec fn awards_readout_text(a: AwardsSnapshot) -> Seq<char> {
    "Awards ("@ + dec(a.total_qsos as nat) + " qso) · DXCC "@ + ratio_text(a.dxcc) + " · WAS "@
        + ratio_text(a.was) + " · WPX "@ + ratio_text(a.wpx) + " · IOTA "@ + ratio_text(a.iota)
        + " · Marathon"@ + signed_dec(a.marathon.year as int) + " "@ + dec(
        a.marathon.entities.worked as nat,
    )
}

/// `BAND=worked/confirmed` of one band's DXCC standing.
pub open spec fn band_part(e: (Band, AwardProgress)) -> Seq<char> {
    band_adif(e.0) + "="@ + ratio_text(e.1)
}

/// The DXCC-by-band line, when any band has QSOs.
pub open spec fn by_band_text(a: AwardsSnapshot) -> Option<Seq<char>> {
    if a.dxcc_by_band@.len() == 0 {
        None
    } else {
        Some("DXCC by band: "@ + join(a.dxcc_by_band@.map_values(|e: (Band, AwardProgress)| band_part(e)), ", "@))
    }
}

/// The award readout of the operating view: the summary line and the
/// DXCC-by-band line.
#[derive(Debug, Clone)]
pub struct AwardsReadout {
    pub summary: String,
    pub by_band: Option<String>,
}

/// The award readout for a snapshot.
pub fn awards_readout(a: &AwardsSnapshot) -> (r: AwardsReadout)
    ensures
        r.summary@ == awards_readout_text(*a),
        opt_view(r.by_band) == by_band_text(*a),
{
    let mut summary = string_of("Awards (");
    summary.append(dec_string(a.total_qsos as u64).as_str());
    summary.append(" qso) · DXCC ");
    summary.append(ratio_string(&a.dxcc).as_str());
    summary.append(" · WAS ");
    summary.append(ratio_string(&a.was).as_str());
    summary.append(" · WPX ");
    summary.append(ratio_string(&a.wpx).as_str());
    summary.append(" · IOTA ");
    summary.append(ratio_string(&a.iota).as_str());
    summary.append(" · Marathon");
    summary.append(signed_dec_string(a.marathon.year).as_str());
    summary.append(" ");
    summary.append(dec_string(a.marathon.entities.worked as u64).as_str());
    let by_band = if a.dxcc_by_band.len() == 0 {
        None
    } else {
        let mut parts: Vec<String> = Vec::new();
        let mut i: usize = 0;
        while i < a.dxcc_by_band.len()
            invariant
                i <= a.dxcc_by_band@.len(),
                parts@.len() == i,
                forall|k: int|
                    0 <= k < i ==> (#[trigger] parts@[k])@ == band_part(a.dxcc_by_band@[k]),
            decreases a.dxcc_by_band@.len() - i,
        {
            let e = &a.dxcc_by_band[i];
            let mut part = string_of(e.0.as_adif());
            part.append("=");
            part.append(ratio_string(&e.1).as_str());
            parts.push(part);
            i = i + 1;
        }
        assert(parts@.map_values(|p: String| p@) =~= a.dxcc_by_band@.map_values(
            |e: (Band, AwardProgress)| band_part(e),
        ));
        let mut line = string_of("DXCC by band: ");
        line.append(join_strings(&parts, ", ").as_str());
        Some(line)
    };
    AwardsReadout { summary, by_band }
}

/// The match count beside the search button: all matches, and how many
/// are shown when that is fewer; nothing before a search.
pub open spec fn search_count_text(total: Option<usize>, shown: usize) -> Seq<char> {
    match total {
        Some(n) => if n > shown {
            dec(n as nat) + " matches (showing "@ + dec(shown as nat) + ")"@
        } else {
            dec(n as nat) + " matches"@
        },
        None => seq![],
    }
}

/// The match count of a search that found `total` QSOs and shows `shown`.
pub fn search_count_label(total: Option<usize>, shown: usize) -> (r: String)
    ensures
        r@ == search_count_text(total, shown),
{
    match total {
        Some(n) => if n > shown {
            let mut r = dec_string(n as u64);
            r.append(" matches (showing ");
            r.append(dec_string(shown as u64).as_str());
            r.append(")");
            r
        } else {
            let mut r = dec_string(n as u64);
            r.append(" matches");
            r
        },
        None => {
            let r = String::new();
            assert(r@ =~= seq![]);
            r
        },
    }
}

} // verus!
