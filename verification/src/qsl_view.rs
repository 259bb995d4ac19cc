//! The QSL view: the five confirmation services, the filter of its
//! pending-uploads pane, its panes, and the one-line state of each
//! service after the last update run.
use vstd::prelude::*;

use crate::datetime::{clock_text, date_dashed, UtcDateTime};
use crate::import::opt_view;
use crate::ids::QsoId;
use crate::qso::Qso;
use crate::summary::{join, parts_or_nothing, MultiUpdateSummary, UploadSummary};
use crate::text::{dec, dec_string};
use crate::ui::{pad_right, pad_right_string};
use crate::value::{band_adif, mode_adif, string_of, Band, Mode, ModeV};

verus! {

/// The panes of the QSL view.
#[derive(Debug, Clone, Copy, PartialEq, Eq, Structural)]
pub enum QslPaneKind {
    Services,
    Pending,
    Confirmations,
}

impl QslPaneKind {
    pub fn title(self) -> (r: &'static str)
        ensures
            r@ == match self {
                QslPaneKind::Services => "Services"@,
                QslPaneKind::Pending => "Pending uploads"@,
                QslPaneKind::Confirmations => "Recent confirmations"@,
            },
    {
        match self {
            QslPaneKind::Services => "Services",
            QslPaneKind::Pending => "Pending uploads",
            QslPaneKind::Confirmations => "Recent confirmations",
        }
    }
}

/// A confirmation service.
#[derive(Debug, Clone, Copy, PartialEq, Eq, Structural)]
pub enum QslService {
    Lotw,
    Eqsl,
    ClubLog,
    Qrz,
    Hrdlog,
}

/// The name under which service state rows store a service.
pub open spec fn service_key(s: QslService) -> Seq<char> {
    match s {
        QslService::Lotw => "lotw"@,
        QslService::Eqsl => "eqsl"@,
        QslService::ClubLog => "clublog"@,
        QslService::Qrz => "qrz"@,
        QslService::Hrdlog => "hrdlog"@,
    }
}

/// The name the UI shows for a service.
pub open spec fn service_label(s: QslService) -> Seq<char> {
    match s {
        QslService::Lotw => "LotW"@,
        QslService::Eqsl => "eQSL"@,
        QslService::ClubLog => "Club Log"@,
        QslService::Qrz => "QRZ"@,
        QslService::Hrdlog => "HRDLog"@,
    }
}

impl QslService {
    pub fn key(self) -> (r: &'static str)
        ensures
            r@ == service_key(self),
    {
        match self {
            QslService::Lotw => "lotw",
            QslService::Eqsl => "eqsl",
            QslService::ClubLog => "clublog",
            QslService::Qrz => "qrz",
            QslService::Hrdlog => "hrdlog",
        }
    }

    pub fn label(self) -> (r: &'static str)
        ensures
            r@ == service_label(self),
    {
        match self {
            QslService::Lotw => "LotW",
            QslService::Eqsl => "eQSL",
            QslService::ClubLog => "Club Log",
            QslService::Qrz => "QRZ",
            QslService::Hrdlog => "HRDLog",
        }
    }
}

/// The services in the order the view lists them.
pub open spec fn all_services() -> Seq<QslService> {
    seq![QslService::Lotw, QslService::Eqsl, QslService::ClubLog, QslService::Qrz, QslService::Hrdlog]
}

pub fn all_services_vec() -> (r: Vec<QslService>)
    ensures
        r@ == all_services(),
{
    let r = vec![
        QslService::Lotw,
        QslService::Eqsl,
        QslService::ClubLog,
        QslService::Qrz,
        QslService::Hrdlog,
    ];
    assert(r@ =~= all_services());
    r
}

/// No two services share a storage name.
pub proof fn law_service_keys_distinct(a: QslService, b: QslService)
    requires
        a != b,
    ensures
        service_key(a) != service_key(b),
{
    reveal_strlit("lotw");
    reveal_strlit("eqsl");
    reveal_strlit("clublog");
    reveal_strlit("qrz");
    reveal_strlit("hrdlog");
    if service_key(a) == service_key(b) {
        assert(service_key(a).len() == service_key(b).len());
        assert(service_key(a)[0] == service_key(b)[0]);
        assert(service_key(a)[1] == service_key(b)[1]);
    }
}

/// The filter of the pending pane; none means any service.
#[derive(Debug, Clone, Copy, PartialEq, Eq, Structural)]
pub struct QslServiceFilter(pub Option<QslService>);

impl Default for QslServiceFilter {
    /// LotW, the most common workflow.
    fn default() -> (r: QslServiceFilter)
        ensures
            r.0 == Some(QslService::Lotw),
    {
        QslServiceFilter(Some(QslService::Lotw))
    }
}

impl QslServiceFilter {
    /// What the filter's picker shows.
    pub fn label(&self) -> (r: &'static str)
        ensures
            r@ == match self.0 {
                Some(s) => service_label(s),
                None => "Any"@,
            },
    {
        match self.0 {
            Some(s) => s.label(),
            None => "Any",
        }
    }
}

/// Any service first, then each service in order.
pub fn service_filter_options() -> (r: Vec<QslServiceFilter>)
    ensures
        r@.len() == 6,
        r@[0].0 is None,
        forall|i: int| 1 <= i < 6 ==> (#[trigger] r@[i]).0 == Some(all_services()[i - 1]),
{
    let mut r: Vec<QslServiceFilter> = Vec::new();
    r.push(QslServiceFilter(None));
    let all = all_services_vec();
    let mut i: usize = 0;
    while i < all.len()
        invariant
            i <= all.len(),
            all@ == all_services(),
            r@.len() == i + 1,
            r@[0].0 is None,
            forall|k: int| 1 <= k < i + 1 ==> (#[trigger] r@[k]).0 == Some(all_services()[k - 1]),
        decreases all.len() - i,
    {
        r.push(QslServiceFilter(Some(all[i])));
        i = i + 1;
    }
    r
}

/// How many QSOs wait for each service.
#[derive(Debug, Clone, Copy)]
pub struct PendingCounts {
    pub lotw: usize,
    pub eqsl: usize,
    pub clublog: usize,
    pub qrz: usize,
    pub hrdlog: usize,
}

impl PendingCounts {
    pub fn pending_count_for(&self, svc: QslService) -> (r: usize)
        ensures
            r == match svc {
                QslService::Lotw => self.lotw,
                QslService::Eqsl => self.eqsl,
                QslService::ClubLog => self.clublog,
                QslService::Qrz => self.qrz,
                QslService::Hrdlog => self.hrdlog,
            },
    {
        match svc {
            QslService::Lotw => self.lotw,
            QslService::Eqsl => self.eqsl,
            QslService::ClubLog => self.clublog,
            QslService::Qrz => self.qrz,
            QslService::Hrdlog => self.hrdlog,
        }
    }
}

/// `up N: note`.
pub open spec fn up_text(u: UploadSummary) -> Seq<char> {
    "up "@ + dec(u.uploaded as nat) + ": "@ + u.note@
}

/// The upload part of a service line: done or failed.
pub open spec fn up_part(upload: Option<UploadSummary>, err: Option<String>) -> Seq<Seq<char>> {
    match upload {
        Some(u) => seq![up_text(u)],
        None => match err {
            Some(e) => seq!["up error: "@ + e@],
            None => seq![],
        },
    }
}

/// The state of a service after the last update run: a dash before any
/// run, "not configured" when the run skipped it, else what its upload
/// and fetch did.
pub open spec fn last_outcome_text(last: Option<MultiUpdateSummary>, svc: QslService) -> Seq<char> {
    match last {
        None => "—"@,
        Some(m) => match svc {
            QslService::Lotw => match m.lotw {
                None => "not configured"@,
                Some(s) => parts_or_nothing(
                    up_part(s.upload, s.upload_error) + match s.fetch {
                        Some(f) => seq![
                            "fetch "@ + dec(f.verified as nat) + " verified / "@ + dec(
                                f.confirmed as nat,
                            ) + " confirmed"@,
                        ],
                        None => match s.fetch_error {
                            Some(e) => seq!["fetch error: "@ + e@],
                            None => seq![],
                        },
                    },
                    " · "@,
                ),
            },
            QslService::Eqsl => match m.eqsl {
                None => "not configured"@,
                Some(s) => parts_or_nothing(
                    up_part(s.upload, s.upload_error) + if s.fetched > 0 || s.confirmed > 0 {
                        seq![
                            "fetch "@ + dec(s.confirmed as nat) + " confirmed / "@ + dec(
                                s.unmatched as nat,
                            ) + " unmatched"@,
                        ]
                    } else {
                        match s.fetch_error {
                            Some(e) => seq!["fetch error: "@ + e@],
                            None => seq![],
                        }
                    },
                    " · "@,
                ),
            },
            QslService::ClubLog => match m.clublog {
                None => "not configured"@,
                Some(s) => parts_or_nothing(up_part(s.upload, s.upload_error), " · "@),
            },
            QslService::Qrz => match m.qrz {
                None => "not configured"@,
                Some(s) => match s.upload_error {
                    Some(e) => "up error: "@ + e@,
                    None => if s.uploaded == 0 && s.rejected == 0 {
                        "nothing to do"@
                    } else {
                        "up "@ + dec(s.uploaded as nat) + " ok / "@ + dec(s.rejected as nat)
                            + " rejected"@
                    },
                },
            },
            QslService::Hrdlog => match m.hrdlog {
                None => "not configured"@,
                Some(s) => parts_or_nothing(up_part(s.upload, s.upload_error), " · "@),
            },
        },
    }
}

fn num(n: usize) -> (r: String)
    ensures
        r@ == dec(n as nat),
{
    dec_string(n as u64)
}

fn up_parts(upload: &Option<UploadSummary>, err: &Option<String>) -> (r: Vec<String>)
    ensures
        r@.map_values(|p: String| p@) == up_part(*upload, *err),
{
    let mut r: Vec<String> = Vec::new();
    match upload {
        Some(u) => {
            let mut t = string_of("up ");
            t.append(num(u.uploaded).as_str());
            t.append(": ");
            t.append(u.note.as_str());
            r.push(t);
        },
        None => match err {
            Some(e) => {
                let mut t = string_of("up error: ");
                t.append(e.as_str());
                r.push(t);
            },
            None => {},
        },
    }
    assert(r@.map_values(|p: String| p@) =~= up_part(*upload, *err));
    r
}

fn join_or_nothing(parts: &Vec<String>) -> (r: String)
    ensures
        r@ == parts_or_nothing(parts@.map_values(|p: String| p@), " · "@),
{
    if parts.len() == 0 {
        string_of("nothing to do")
    } else {
        crate::summary::join_strings(parts, " · ")
    }
}

pub fn describe_last_outcome(last: Option<&MultiUpdateSummary>, svc: QslService) -> (r: String)
    ensures
        r@ == last_outcome_text(
            match last {
                Some(m) => Some(*m),
                None => None,
            },
            svc,
        ),
{
    let m = match last {
        Some(m) => m,
        None => return string_of("—"),
    };
    match svc {
        QslService::Lotw => match &m.lotw {
            None => string_of("not configured"),
            Some(s) => {
                let mut parts = up_parts(&s.upload, &s.upload_error);
                let ghost before = parts@.map_values(|p: String| p@);
                match &s.fetch {
                    Some(f) => {
                        let mut t = string_of("fetch ");
                        t.append(num(f.verified).as_str());
                        t.append(" verified / ");
                        t.append(num(f.confirmed).as_str());
                        t.append(" confirmed");
                        parts.push(t);
                    },
                    None => match &s.fetch_error {
                        Some(e) => {
                            let mut t = string_of("fetch error: ");
                            t.append(e.as_str());
                            parts.push(t);
                        },
                        None => {},
                    },
                }
                assert(parts@.map_values(|p: String| p@) =~= up_part(s.upload, s.upload_error)
                    + match s.fetch {
                    Some(f) => seq![
                        "fetch "@ + dec(f.verified as nat) + " verified / "@ + dec(
                            f.confirmed as nat,
                        ) + " confirmed"@,
                    ],
                    None => match s.fetch_error {
                        Some(e) => seq!["fetch error: "@ + e@],
                        None => seq![],
                    },
                });
                join_or_nothing(&parts)
            },
        },
        QslService::Eqsl => match &m.eqsl {
            None => string_of("not configured"),
            Some(s) => {
                let mut parts = up_parts(&s.upload, &s.upload_error);
                let ghost before = parts@.map_values(|p: String| p@);
                if s.fetched > 0 || s.confirmed > 0 {
                    let mut t = string_of("fetch ");
                    t.append(num(s.confirmed).as_str());
                    t.append(" confirmed / ");
                    t.append(num(s.unmatched).as_str());
                    t.append(" unmatched");
                    parts.push(t);
                } else {
                    match &s.fetch_error {
                        Some(e) => {
                            let mut t = string_of("fetch error: ");
                            t.append(e.as_str());
                            parts.push(t);
                        },
                        None => {},
                    }
                }
                assert(parts@.map_values(|p: String| p@) =~= up_part(s.upload, s.upload_error)
                    + if s.fetched > 0 || s.confirmed > 0 {
                    seq![
                        "fetch "@ + dec(s.confirmed as nat) + " confirmed / "@ + dec(
                            s.unmatched as nat,
                        ) + " unmatched"@,
                    ]
                } else {
                    match s.fetch_error {
                        Some(e) => seq!["fetch error: "@ + e@],
                        None => seq![],
                    }
                });
                join_or_nothing(&parts)
            },
        },
        QslService::ClubLog => match &m.clublog {
            None => string_of("not configured"),
            Some(s) => join_or_nothing(&up_parts(&s.upload, &s.upload_error)),
        },
        QslService::Qrz => match &m.qrz {
            None => string_of("not configured"),
            Some(s) => match &s.upload_error {
                Some(e) => {
                    let mut t = string_of("up error: ");
                    t.append(e.as_str());
                    t
                },
                None => if s.uploaded == 0 && s.rejected == 0 {
                    string_of("nothing to do")
                } else {
                    let mut t = string_of("up ");
                    t.append(num(s.uploaded).as_str());
                    t.append(" ok / ");
                    t.append(num(s.rejected).as_str());
                    t.append(" rejected");
                    t
                },
            },
        },
        QslService::Hrdlog => match &m.hrdlog {
            None => string_of("not configured"),
            Some(s) => join_or_nothing(&up_parts(&s.upload, &s.upload_error)),
        },
    }
}

/// One row of the services pane: the service, how many QSOs wait for
/// it, and how the last update run went for it.
#[derive(Debug, Clone)]
pub struct ServiceRow {
    pub label: &'static str,
    pub pending: String,
    pub last: String,
}

/// The services pane: a row per service and the label of the update
/// button.
#[derive(Debug, Clone)]
pub struct ServicesPane {
    pub rows: Vec<ServiceRow>,
    pub update_label: &'static str,
}

pub open spec fn pending_for(c: PendingCounts, s: QslService) -> usize {
    match s {
        QslService::Lotw => c.lotw,
        QslService::Eqsl => c.eqsl,
        QslService::ClubLog => c.clublog,
        QslService::Qrz => c.qrz,
        QslService::Hrdlog => c.hrdlog,
    }
}

/// The services pane: every service in order with its pending count and
/// last outcome; the button says `Updating…` while a run is going.
pub fn services_pane(
    counts: &PendingCounts,
    last: Option<&MultiUpdateSummary>,
    syncing: bool,
) -> (r: ServicesPane)
    ensures
        r.rows@.len() == 5,
        forall|i: int|
            0 <= i < 5 ==> {
                let s = #[trigger] all_services()[i];
                &&& r.rows@[i].label@ == service_label(s)
                &&& r.rows@[i].pending@ == dec(pending_for(*counts, s) as nat)
                &&& r.rows@[i].last@ == last_outcome_text(
                    match last {
                        Some(m) => Some(*m),
                        None => None,
                    },
                    s,
                )
            },
        r.update_label@ == if syncing {
            "Updating…"@
        } else {
            "Update all services"@
        },
{
    let services = all_services_vec();
    let mut rows: Vec<ServiceRow> = Vec::new();
    let mut i: usize = 0;
    while i < services.len()
        invariant
            services@ == all_services(),
            i <= services@.len(),
            rows@.len() == i,
            forall|k: int|
                0 <= k < i ==> {
                    let s = #[trigger] all_services()[k];
                    &&& rows@[k].label@ == service_label(s)
                    &&& rows@[k].pending@ == dec(pending_for(*counts, s) as nat)
                    &&& rows@[k].last@ == last_outcome_text(
                        match last {
                            Some(m) => Some(*m),
                            None => None,
                        },
                        s,
                    )
                },
        decreases services@.len() - i,
    {
        let s = services[i];
        let n = counts.pending_count_for(s);
        rows.push(
            ServiceRow {
                label: s.label(),
                pending: dec_string(n as u64),
                last: describe_last_outcome(last, s),
            },
        );
        i = i + 1;
    }
    let update_label = if syncing {
        "Updating…"
    } else {
        "Update all services"
    };
    ServicesPane { rows, update_label }
}

/// One pending QSO as the pending pane lists it.
#[derive(Debug, Clone)]
pub struct PendingRow {
    pub id: QsoId,
    pub label: String,
    pub selected: bool,
}

/// The bulk actions offered while QSOs are selected: the count, the
/// label of the mark button, and the service it marks (none while the
/// filter is on any service, when the button does nothing).
#[derive(Debug, Clone)]
pub struct PendingBulk {
    pub selected_label: String,
    pub mark_label: String,
    pub mark_service: Option<&'static str>,
}

/// The pending-uploads pane: the refresh button's label, the bulk
/// actions, the rows, and the note shown when nothing is pending.
#[derive(Debug, Clone)]
pub struct PendingPane {
    pub refresh_label: &'static str,
    pub bulk: Option<PendingBulk>,
    pub rows: Vec<PendingRow>,
    pub empty_note: Option<String>,
}

/// A QSO's line in a list: its start (`%Y-%m-%d %H:%M:%S`, padded to
/// 19), callsign (padded to 10), band and mode (each padded to 5) and
/// DXCC prefix, two spaces apart.
pub open spec fn qso_line_text(
    begin: UtcDateTime,
    call: Seq<char>,
    band: Option<Band>,
    mode: Option<ModeV>,
    prefix: Option<Seq<char>>,
) -> Seq<char> {
    pad_right(date_dashed(begin) + seq![' '] + clock_text(begin), 19) + "  "@ + pad_right(call, 10)
        + "  "@ + pad_right(
        match band {
            Some(b) => band_adif(b),
            None => seq![],
        },
        5,
    ) + "  "@ + pad_right(
        match mode {
            Some(m) => mode_adif(m),
            None => seq![],
        },
        5,
    ) + "  "@ + match prefix {
        Some(p) => p,
        None => seq![],
    }
}

/// A pending QSO's line.
pub open spec fn pending_label(q: Qso) -> Seq<char> {
    qso_line_text(
        q.qso_begin,
        q.call@,
        q.band,
        match q.mode {
            Some(m) => Some(m@),
            None => None,
        },
        opt_view(q.dxcc_prefix),
    )
}

pub(crate) fn qso_line(
    begin: &UtcDateTime,
    call: &str,
    band: Option<Band>,
    mode: &Option<Mode>,
    prefix: &Option<String>,
) -> (r: String)
    ensures
        r@ == qso_line_text(
            *begin,
            call@,
            band,
            match *mode {
                Some(m) => Some(m@),
                None => None,
            },
            opt_view(*prefix),
        ),
{
    let mut when = begin.date_dashed();
    when.append(" ");
    when.append(begin.clock().as_str());
    proof {
        reveal_strlit(" ");
    }
    assert(when@ =~= date_dashed(*begin) + seq![' '] + clock_text(*begin));
    let mut r = pad_right_string(when.as_str(), 19);
    r.append("  ");
    r.append(pad_right_string(call, 10).as_str());
    r.append("  ");
    let b = match band {
        Some(b) => pad_right_string(b.as_adif(), 5),
        None => {
            let e = String::new();
            assert(e@ =~= seq![]);
            pad_right_string(e.as_str(), 5)
        },
    };
    assert(b@ == pad_right(
        match band {
            Some(b) => band_adif(b),
            None => seq![],
        },
        5,
    ));
    r.append(b.as_str());
    r.append("  ");
    let m = match mode {
        Some(m) => pad_right_string(m.as_adif(), 5),
        None => {
            let e = String::new();
            assert(e@ =~= seq![]);
            pad_right_string(e.as_str(), 5)
        },
    };
    assert(m@ == pad_right(
        match *mode {
            Some(m) => mode_adif(m@),
            None => seq![],
        },
        5,
    ));
    r.append(m.as_str());
    r.append("  ");
    let ghost before = r@;
    match prefix {
        Some(p) => r.append(p.as_str()),
        None => {
            assert(before + seq![] =~= before);
        },
    }
    assert(r@ =~= qso_line_text(
        *begin,
        call@,
        band,
        match *mode {
            Some(m) => Some(m@),
            None => None,
        },
        opt_view(*prefix),
    ));
    r
}

fn pending_row_label(q: &Qso) -> (r: String)
    ensures
        r@ == pending_label(*q),
{
    qso_line(&q.qso_begin, q.call.as_str(), q.band, &q.mode, &q.dxcc_prefix)
}

pub(crate) fn contains_id(ids: &Vec<QsoId>, id: QsoId) -> (r: bool)
    ensures
        r == ids@.contains(id),
{
    let mut k: usize = 0;
    while k < ids.len()
        invariant
            k <= ids.len(),
            forall|j: int| 0 <= j < k ==> ids@[j] != id,
        decreases ids.len() - k,
    {
        if ids[k] == id {
            assert(ids@[k as int] == id);
            return true;
        }
        k = k + 1;
    }
    false
}

/// The pending pane for the service filter, the pending QSOs, whether a
/// refresh runs, and the selected QSOs (each listed once).
pub fn pending_pane(
    filter: QslServiceFilter,
    pending: &Vec<Qso>,
    loading: bool,
    selected: &Vec<QsoId>,
) -> (r: PendingPane)
    ensures
        r.refresh_label@ == if loading {
            "Refreshing…"@
        } else {
            "Refresh"@
        },
        (selected@.len() == 0) == (r.bulk is None),
        r.bulk matches Some(b) ==> {
            &&& b.selected_label@ == dec(selected@.len()) + " selected:"@
            &&& b.mark_label@ == match filter.0 {
                Some(s) => "Mark uploaded → "@ + service_label(s),
                None => "Mark uploaded …"@,
            }
            &&& match (b.mark_service, filter.0) {
                (Some(k), Some(s)) => k@ == service_key(s),
                (None, None) => true,
                _ => false,
            }
        },
        r.rows@.len() == pending@.len(),
        forall|i: int|
            0 <= i < pending@.len() ==> {
                &&& (#[trigger] r.rows@[i]).id == pending@[i].id
                &&& r.rows@[i].label@ == pending_label(pending@[i])
                &&& r.rows@[i].selected == selected@.contains(pending@[i].id)
            },
        r.empty_note matches Some(n) ==> pending@.len() == 0 && !loading && n@ == match filter.0 {
            Some(s) => "No QSOs pending upload to "@ + service_label(s) + "."@,
            None => "No QSOs pending upload."@,
        },
        r.empty_note is None ==> pending@.len() > 0 || loading,
{
    let refresh_label = if loading {
        "Refreshing…"
    } else {
        "Refresh"
    };
    let bulk = if selected.len() == 0 {
        None
    } else {
        let mut selected_label = dec_string(selected.len() as u64);
        selected_label.append(" selected:");
        let (mark_label, mark_service) = match filter.0 {
            Some(s) => {
                let mut l = string_of("Mark uploaded → ");
                l.append(s.label());
                (l, Some(s.key()))
            },
            None => (string_of("Mark uploaded …"), None),
        };
        Some(PendingBulk { selected_label, mark_label, mark_service })
    };
    let mut rows: Vec<PendingRow> = Vec::new();
    let mut i: usize = 0;
    while i < pending.len()
        invariant
            i <= pending@.len(),
            rows@.len() == i,
            forall|k: int|
                0 <= k < i ==> {
                    &&& (#[trigger] rows@[k]).id == pending@[k].id
                    &&& rows@[k].label@ == pending_label(pending@[k])
                    &&& rows@[k].selected == selected@.contains(pending@[k].id)
                },
        decreases pending@.len() - i,
    {
        let q = &pending[i];
        rows.push(
            PendingRow {
                id: q.id,
                label: pending_row_label(q),
                selected: contains_id(selected, q.id),
            },
        );
        i = i + 1;
    }
    let empty_note = if pending.len() == 0 && !loading {
        match filter.0 {
            Some(s) => {
                let mut n = string_of("No QSOs pending upload to ");
                n.append(s.label());
                n.append(".");
                Some(n)
            },
            None => Some(string_of("No QSOs pending upload.")),
        }
    } else {
        None
    };
    PendingPane { refresh_label, bulk, rows, empty_note }
}

} // verus!
