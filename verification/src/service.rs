//! The logbook's decisions around storage: how a command becomes a QSO,
//! which imported QSOs are already in the log, and what an import or a
//! bulk operation reports.
use vstd::prelude::*;

use crate::datetime::{date_dashed, datetime_valid, now_utc, UtcDateTime};
use crate::ids::{is_v4_uuid, QsoId};
use crate::import::{opt_view, CreateQsoCommand, QsoExchangeField};
use crate::qso::{copies_command, enriched, qso_edited, qso_from_command, NoOpResolver, Qso, Resolution, Resolver};
use crate::repository::{repository_error_text, DedupKey, RepositoryError};
use crate::summary::ImportSummary;
use crate::service_state::{extract_service_states, service_states, state_view, ImportedServiceState, StateV};
use crate::text::{chars_eq, chars_of};
use crate::value::{band_adif, mode_adif, string_of};

verus! {

/// What an import did: QSOs created, QSOs already in the log, QSOs that
/// could not be stored, and why.
#[derive(Debug)]
pub struct ImportReport {
    pub created: usize,
    pub duplicates: usize,
    pub skipped: usize,
    pub errors: Vec<String>,
}

impl Default for ImportReport {
    fn default() -> (r: ImportReport)
        ensures
            r.created == 0,
            r.duplicates == 0,
            r.skipped == 0,
            r.errors@.len() == 0,
    {
        ImportReport { created: 0, duplicates: 0, skipped: 0, errors: Vec::new() }
    }
}

/// What a search-driven bulk operation did: how many QSOs the search
/// matched and on how many the action succeeded.
#[derive(Debug, Clone, Copy, PartialEq, Eq, Structural)]
pub struct BulkReport {
    pub matched: usize,
    pub succeeded: usize,
}

/// How many of the per-QSO outcomes succeeded.
pub open spec fn ok_count(rs: Seq<Result<(), RepositoryError>>) -> nat
    decreases rs.len(),
{
    if rs.len() == 0 {
        0
    } else {
        ok_count(rs.drop_last()) + if rs.last() is Ok {
            1nat
        } else {
            0nat
        }
    }
}

impl BulkReport {
    /// The report of an action applied to each matched QSO in turn, one
    /// outcome per QSO.
    pub fn from_outcomes(outcomes: &Vec<Result<(), RepositoryError>>) -> (r: BulkReport)
        ensures
            r.matched == outcomes@.len(),
            r.succeeded == ok_count(outcomes@),
    {
        let mut n: usize = 0;
        let mut i: usize = 0;
        while i < outcomes.len()
            invariant
                i <= outcomes.len(),
                n == ok_count(outcomes@.take(i as int)),
                n <= i,
            decreases outcomes.len() - i,
        {
            assert(outcomes@.take(i + 1).drop_last() =~= outcomes@.take(i as int));
            if outcomes[i].is_ok() {
                n = n + 1;
            }
            i = i + 1;
        }
        assert(outcomes@.take(outcomes.len() as int) =~= outcomes@);
        BulkReport { matched: outcomes.len(), succeeded: n }
    }
}

/// The dedup key as text: station, call, date, band, mode.
pub type KeyV = (Seq<char>, Seq<char>, Seq<char>, Option<Seq<char>>, Option<Seq<char>>);

pub open spec fn key_view(k: DedupKey) -> KeyV {
    (k.0@, k.1@, k.2@, opt_view(k.3), opt_view(k.4))
}

/// The dedup key of a command: its station callsign, worked callsign,
/// `yyyy-mm-dd` start date, ADIF band and ADIF mode. A command without a
/// station callsign has none, since it cannot be told whose log it
/// belongs to.
pub open spec fn dedup_key_of(cmd: CreateQsoCommand) -> Option<KeyV> {
    match cmd.station_callsign {
        Some(s) => Some(
            (
                s@,
                cmd.call@,
                date_dashed(cmd.qso_begin),
                match cmd.band {
                    Some(b) => Some(band_adif(b)),
                    None => None,
                },
                match cmd.mode {
                    Some(m) => Some(mode_adif(m@)),
                    None => None,
                },
            ),
        ),
        None => None,
    }
}

pub fn dedup_key(cmd: &CreateQsoCommand) -> (r: Option<DedupKey>)
    ensures
        match r {
            Some(k) => dedup_key_of(*cmd) == Some(key_view(k)),
            None => dedup_key_of(*cmd) is None,
        },
{
    match &cmd.station_callsign {
        Some(station) => {
            let band = match cmd.band {
                Some(b) => Some(string_of(b.as_adif())),
                None => None,
            };
            let mode = match &cmd.mode {
                Some(m) => Some(string_of(m.as_adif())),
                None => None,
            };
            Some(
                (
                    string_of(station.as_str()),
                    string_of(cmd.call.as_str()),
                    cmd.qso_begin.date_dashed(),
                    band,
                    mode,
                ),
            )
        },
        None => None,
    }
}

fn same_text(a: &String, b: &String) -> (r: bool)
    ensures
        r == (a@ == b@),
{
    let x = chars_of(a.as_str());
    let y = chars_of(b.as_str());
    chars_eq(x.as_slice(), y.as_slice())
}

fn same_opt_text(a: &Option<String>, b: &Option<String>) -> (r: bool)
    ensures
        r == (opt_view(*a) == opt_view(*b)),
{
    match (a, b) {
        (Some(x), Some(y)) => same_text(x, y),
        (None, None) => true,
        _ => false,
    }
}

fn same_key(a: &DedupKey, b: &DedupKey) -> (r: bool)
    ensures
        r == (key_view(*a) == key_view(*b)),
{
    same_text(&a.0, &b.0) && same_text(&a.1, &b.1) && same_text(&a.2, &b.2) && same_opt_text(
        &a.3,
        &b.3,
    ) && same_opt_text(&a.4, &b.4)
}

/// The keys of a list of dedup keys, as a set.
pub open spec fn key_set(ks: Seq<DedupKey>) -> Set<KeyV> {
    Set::new(|v: KeyV| exists|i: int| 0 <= i < ks.len() && key_view(#[trigger] ks[i]) == v)
}

fn contains_key(ks: &Vec<DedupKey>, k: &DedupKey) -> (r: bool)
    ensures
        r == key_set(ks@).contains(key_view(*k)),
{
    let mut i: usize = 0;
    while i < ks.len()
        invariant
            i <= ks.len(),
            forall|j: int| 0 <= j < i ==> key_view(#[trigger] ks@[j]) != key_view(*k),
        decreases ks.len() - i,
    {
        if same_key(&ks[i], k) {
            assert(key_view(ks@[i as int]) == key_view(*k));
            return true;
        }
        i = i + 1;
    }
    false
}

/// Whether the `i`-th command repeats a QSO: its key was among the keys
/// known before the import, or an earlier command of the import had it.
pub open spec fn is_duplicate(cmds: Seq<CreateQsoCommand>, seen: Set<KeyV>, i: int) -> bool {
    match dedup_key_of(cmds[i]) {
        Some(k) => seen.contains(k) || exists|j: int|
            0 <= j < i && dedup_key_of(#[trigger] cmds[j]) == Some(k),
        None => false,
    }
}

/// Positions, below `n`, of the commands that are not duplicates.
pub open spec fn kept(cmds: Seq<CreateQsoCommand>, seen: Set<KeyV>, n: int) -> Seq<int>
    decreases n,
{
    if n <= 0 {
        seq![]
    } else if is_duplicate(cmds, seen, n - 1) {
        kept(cmds, seen, n - 1)
    } else {
        kept(cmds, seen, n - 1).push(n - 1)
    }
}

/// How many of the first `n` commands are duplicates.
pub open spec fn duplicate_count(cmds: Seq<CreateQsoCommand>, seen: Set<KeyV>, n: int) -> nat
    decreases n,
{
    if n <= 0 {
        0
    } else {
        duplicate_count(cmds, seen, n - 1) + if is_duplicate(cmds, seen, n - 1) {
            1nat
        } else {
            0nat
        }
    }
}

/// The keys the first `n` commands carry.
pub open spec fn command_keys(cmds: Seq<CreateQsoCommand>, n: int) -> Set<KeyV> {
    Set::new(|v: KeyV| exists|j: int| 0 <= j < n && dedup_key_of(#[trigger] cmds[j]) == Some(v))
}

/// The QSO was built from the command, with its entity fields filled
/// from some resolution.
pub open spec fn logged_from(q: Qso, cmd: CreateQsoCommand) -> bool {
    &&& copies_command(q, cmd)
    &&& exists|res: Option<Resolution>| #[trigger] enriched(q, cmd, res)
    &&& q.created_at == q.updated_at
}

/// The exchange fields of the kept commands, each paired with the id of
/// its QSO, in order.
pub open spec fn batch_fields(qsos: Seq<Qso>, fss: Seq<Seq<QsoExchangeField>>) -> Seq<
    (QsoId, QsoExchangeField),
>
    decreases fss.len(),
{
    if fss.len() == 0 || qsos.len() < fss.len() {
        seq![]
    } else {
        let t = fss.len() - 1;
        batch_fields(qsos, fss.drop_last()) + fss[t].map_values(
            |f: QsoExchangeField| (qsos[t].id, f),
        )
    }
}

/// The service-state rows of the kept commands, each with the id of its
/// QSO, in order.
pub open spec fn batch_states(qsos: Seq<Qso>, fss: Seq<Seq<QsoExchangeField>>) -> Seq<
    (QsoId, StateV),
>
    decreases fss.len(),
{
    if fss.len() == 0 || qsos.len() < fss.len() {
        seq![]
    } else {
        let t = fss.len() - 1;
        batch_states(qsos, fss.drop_last()) + service_states(fss[t]).map_values(
            |v: StateV| (qsos[t].id, v),
        )
    }
}

/// The exchange fields of the commands at the positions `ks`.
pub open spec fn kept_fields(cmds: Seq<CreateQsoCommand>, ks: Seq<int>) -> Seq<Seq<QsoExchangeField>> {
    ks.map_values(|i: int| cmds[i].exchange_fields@)
}

/// What an import stores: the new QSOs, their exchange fields, the
/// service states read from those fields, and how many commands repeated
/// a QSO already known.
#[derive(Debug)]
pub struct ImportBatch {
    pub qsos: Vec<Qso>,
    pub fields: Vec<(QsoId, QsoExchangeField)>,
    pub service_states: Vec<ImportedServiceState>,
    pub duplicates: usize,
}

pub open spec fn batch_fits(b: ImportBatch, cmds: Seq<CreateQsoCommand>, seen: Set<KeyV>) -> bool {
    let ks = kept(cmds, seen, cmds.len() as int);
    &&& b.duplicates == duplicate_count(cmds, seen, cmds.len() as int)
    &&& b.qsos@.len() == ks.len()
    &&& forall|t: int| 0 <= t < ks.len() ==> logged_from(#[trigger] b.qsos@[t], cmds[ks[t]])
    &&& b.fields@ == batch_fields(b.qsos@, kept_fields(cmds, ks))
    &&& b.service_states@.map_values(|s: ImportedServiceState| (s.qso_id, state_view(s)))
        == batch_states(b.qsos@, kept_fields(cmds, ks))
}

/// The report of an import whose batch of `created` QSOs was stored, or
/// refused with `stored`'s error.
pub open spec fn report_fits(
    r: ImportReport,
    created: nat,
    duplicates: nat,
    stored: Result<(), RepositoryError>,
) -> bool {
    &&& r.duplicates == duplicates
    &&& match stored {
        Ok(()) => r.created == created && r.skipped == 0 && r.errors@.len() == 0,
        Err(e) => {
            &&& r.created == 0
            &&& r.skipped == created
            &&& r.errors@.len() == 1
            &&& r.errors@[0]@ == "batch insert failed: "@ + repository_error_text(e)
        },
    }
}

/// The report of an import once its batch went to storage.
pub fn finish_import(
    created: usize,
    duplicates: usize,
    stored: Result<(), RepositoryError>,
) -> (r: ImportReport)
    ensures
        report_fits(r, created as nat, duplicates as nat, stored),
{
    match stored {
        Ok(()) => ImportReport { created, duplicates, skipped: 0, errors: Vec::new() },
        Err(e) => {
            let mut msg = string_of("batch insert failed: ");
            let m = e.message();
            msg.append(m.as_str());
            let mut errors: Vec<String> = Vec::new();
            errors.push(msg);
            ImportReport { created: 0, duplicates, skipped: created, errors }
        },
    }
}

/// The summary an ADIF file import shows: the counts of its report, the
/// number of records the reader skipped, and the report's first errors,
/// three at most.
pub fn import_summary(report: &ImportReport, parse_errors: usize) -> (r: ImportSummary)
    ensures
        r.created == report.created,
        r.skipped == report.skipped,
        r.parse_errors == parse_errors,
        r.first_errors@ == report.errors@.take(
            if report.errors@.len() < 3 { report.errors@.len() as int } else { 3 },
        ),
{
    let n: usize = if report.errors.len() < 3 { report.errors.len() } else { 3 };
    let mut first: Vec<String> = Vec::new();
    let mut i: usize = 0;
    while i < n
        invariant
            n <= report.errors@.len(),
            i <= n,
            first@ == report.errors@.take(i as int),
        decreases n - i,
    {
        first.push(report.errors[i].clone());
        i = i + 1;
        assert(first@ =~= report.errors@.take(i as int));
    }
    ImportSummary { created: report.created, skipped: report.skipped, parse_errors, first_errors: first }
}

proof fn lemma_key_set_push(ks: Seq<DedupKey>, k: DedupKey)
    ensures
        key_set(ks.push(k)) == key_set(ks).insert(key_view(k)),
{
    let a = key_set(ks.push(k));
    let b = key_set(ks).insert(key_view(k));
    assert forall|w: KeyV| a.contains(w) <==> b.contains(w) by {
        if a.contains(w) {
            let j = choose|j: int| 0 <= j < ks.push(k).len() && key_view(#[trigger] ks.push(k)[j]) == w;
            if j < ks.len() {
                assert(key_view(ks[j]) == w);
            }
        }
        if key_set(ks).contains(w) {
            let j = choose|j: int| 0 <= j < ks.len() && key_view(#[trigger] ks[j]) == w;
            assert(key_view(ks.push(k)[j]) == w);
        }
        if w == key_view(k) {
            assert(key_view(ks.push(k)[ks.len() as int]) == w);
        }
    }
    assert(a =~= b);
}

proof fn lemma_command_keys_step(cmds: Seq<CreateQsoCommand>, i: int)
    requires
        0 <= i < cmds.len(),
    ensures
        command_keys(cmds, i + 1) == match dedup_key_of(cmds[i]) {
            Some(v) => command_keys(cmds, i).insert(v),
            None => command_keys(cmds, i),
        },
{
    let a = command_keys(cmds, i + 1);
    let b = match dedup_key_of(cmds[i]) {
        Some(v) => command_keys(cmds, i).insert(v),
        None => command_keys(cmds, i),
    };
    assert forall|w: KeyV| a.contains(w) <==> b.contains(w) by {
        if a.contains(w) {
            let j = choose|j: int| 0 <= j < i + 1 && dedup_key_of(#[trigger] cmds[j]) == Some(w);
            if j < i {
                assert(command_keys(cmds, i).contains(w));
            }
        }
        if command_keys(cmds, i).contains(w) {
            let j = choose|j: int| 0 <= j < i && dedup_key_of(#[trigger] cmds[j]) == Some(w);
            assert(dedup_key_of(cmds[j]) == Some(w));
        }
    }
    assert(a =~= b);
}

proof fn lemma_batch_extend(qsos: Seq<Qso>, q: Qso, fss: Seq<Seq<QsoExchangeField>>)
    requires
        fss.len() <= qsos.len(),
    ensures
        batch_fields(qsos.push(q), fss) == batch_fields(qsos, fss),
        batch_states(qsos.push(q), fss) == batch_states(qsos, fss),
    decreases fss.len(),
{
    if fss.len() > 0 {
        lemma_batch_extend(qsos, q, fss.drop_last());
        assert(qsos.push(q)[fss.len() - 1] == qsos[fss.len() - 1]);
    }
}

/// Add one kept QSO, with its exchange fields and the service states
/// read from them, to a batch being built.
fn push_kept(
    qsos: &mut Vec<Qso>,
    fields: &mut Vec<(QsoId, QsoExchangeField)>,
    states: &mut Vec<ImportedServiceState>,
    qso: Qso,
    exchange: Vec<QsoExchangeField>,
)
    ensures
        final(qsos)@ == old(qsos)@.push(qso),
        final(fields)@ == old(fields)@ + exchange@.map_values(
            |f: QsoExchangeField| (qso.id, f),
        ),
        final(states)@.map_values(|s: ImportedServiceState| (s.qso_id, state_view(s)))
            == old(states)@.map_values(|s: ImportedServiceState| (s.qso_id, state_view(s)))
            + service_states(exchange@).map_values(|v: StateV| (qso.id, v)),
{
    let id = qso.id;
    let ghost ex0 = exchange@;
    let mut new_states = extract_service_states(id, &exchange);
    let ghost ns = new_states@;
    let ghost s0 = states@;
    states.append(&mut new_states);
    assert(states@ == s0 + ns);
    assert(states@.map_values(|s: ImportedServiceState| (s.qso_id, state_view(s))) =~= s0.map_values(
        |s: ImportedServiceState| (s.qso_id, state_view(s)),
    ) + service_states(ex0).map_values(|v: StateV| (id, v))) by {
        assert(ns.map_values(|s: ImportedServiceState| state_view(s)) == service_states(ex0));
        assert forall|t: int| 0 <= t < ns.len() implies (#[trigger] ns[t]).qso_id == id by {}
    }
    let mut ex = exchange;
    let ghost f0 = fields@;
    let mut k: usize = 0;
    let total = ex.len();
    while ex.len() > 0
        invariant
            ex0.len() == total,
            k <= ex0.len(),
            k + ex@.len() == ex0.len(),
            ex@ == ex0.skip(k as int),
            fields@ == f0 + ex0.take(k as int).map_values(|f: QsoExchangeField| (id, f)),
        decreases ex@.len(),
    {
        let f = ex.remove(0);
        fields.push((id, f));
        assert(ex0.take(k + 1) =~= ex0.take(k as int).push(f));
        assert(ex0.take(k + 1).map_values(|f: QsoExchangeField| (id, f)) =~= ex0.take(
            k as int,
        ).map_values(|f: QsoExchangeField| (id, f)).push((id, f)));
        k = k + 1;
        assert(ex@ =~= ex0.skip(k as int));
    }
    assert(ex0.take(k as int) =~= ex0);
    qsos.push(qso);
}

/// The logbook's own logic, with the resolver that fills in what the
/// operator left blank.
#[derive(Debug)]
pub struct LogbookService<R: Resolver> {
    pub resolver: R,
}

impl LogbookService<NoOpResolver> {
    /// A logbook that resolves nothing.
    pub fn new() -> (r: LogbookService<NoOpResolver>) {
        LogbookService { resolver: NoOpResolver }
    }
}

impl<R: Resolver> LogbookService<R> {
    pub fn with_resolver(resolver: R) -> (r: LogbookService<R>)
        ensures
            r.resolver == resolver,
    {
        LogbookService { resolver }
    }

    /// The QSO a command logs: a fresh id, the current time, and the
    /// blanks among its entity fields filled from the resolver.
    pub fn build_qso_from_command(&self, cmd: CreateQsoCommand) -> (r: (Qso, Vec<QsoExchangeField>))
        ensures
            logged_from(r.0, cmd),
            enriched(r.0, cmd, self.resolver.answer(cmd.call@)),
            r.1 == cmd.exchange_fields,
            is_v4_uuid(r.0.id.0),
            datetime_valid(r.0.created_at),
            r.0.updated_at == r.0.created_at,
    {
        let res = self.resolver.resolve(&cmd.call);
        let id = QsoId::new();
        let now = now_utc();
        let r = qso_from_command(cmd, res, id, now);
        assert(enriched(r.0, cmd, res));
        r
    }

    /// An edit of a logged QSO, re-resolved and stamped with the current
    /// time.
    pub fn edit_qso(&self, existing: &Qso, cmd: CreateQsoCommand) -> (r: Qso)
        ensures
            r.id == existing.id,
            copies_command(r, cmd),
            enriched(r, cmd, self.resolver.answer(cmd.call@)),
            r.created_at == existing.created_at,
            datetime_valid(r.updated_at),
    {
        let res = self.resolver.resolve(&cmd.call);
        let now = now_utc();
        let r = qso_edited(existing, cmd, res, now);
        assert(enriched(r, cmd, res));
        r
    }

    /// The batch an import stores. Commands whose key is among `seen`,
    /// or repeats that of an earlier command, are counted as duplicates
    /// and left out; the keys of all commands end up in `seen`.
    pub fn prepare_import(
        &self,
        commands: Vec<CreateQsoCommand>,
        seen: &mut Vec<DedupKey>,
    ) -> (r: ImportBatch)
        ensures
            batch_fits(r, commands@, key_set(old(seen)@)),
            forall|t: int|
                0 <= t < r.qsos@.len() ==> enriched(
                    #[trigger] r.qsos@[t],
                    commands@[kept(commands@, key_set(old(seen)@), commands@.len() as int)[t]],
                    self.resolver.answer(
                        commands@[kept(commands@, key_set(old(seen)@), commands@.len() as int)[t]].call@,
                    ),
                ),
            key_set(final(seen)@) == key_set(old(seen)@).union(
                command_keys(commands@, commands@.len() as int),
            ),
            forall|t: int|
                0 <= t < r.qsos@.len() ==> is_v4_uuid(#[trigger] r.qsos@[t].id.0) && datetime_valid(
                    r.qsos@[t].created_at,
                ),
    {
        let ghost cmds = commands@;
        let ghost seen0 = key_set(seen@);
        let n = commands.len();
        let mut rest = commands;
        let mut rev: Vec<CreateQsoCommand> = Vec::new();
        while rest.len() > 0
            invariant
                rest@.len() + rev@.len() == cmds.len(),
                rest@ == cmds.take(rest@.len() as int),
                forall|t: int|
                    0 <= t < rev@.len() ==> #[trigger] rev@[t] == cmds[cmds.len() - 1 - t],
            decreases rest@.len(),
        {
            let c = rest.pop().unwrap();
            rev.push(c);
            assert(rest@ =~= cmds.take(rest@.len() as int));
        }
        let mut qsos: Vec<Qso> = Vec::new();
        let mut fields: Vec<(QsoId, QsoExchangeField)> = Vec::new();
        let mut states: Vec<ImportedServiceState> = Vec::new();
        let mut duplicates: usize = 0;
        let mut i: usize = 0;
        assert(key_set(seen@) =~= seen0.union(command_keys(cmds, 0)));
        while i < n
            invariant
                n == cmds.len(),
                i <= n,
                rev@.len() == n - i,
                forall|t: int| 0 <= t < rev@.len() ==> #[trigger] rev@[t] == cmds[n - 1 - t],
                key_set(seen@) == seen0.union(command_keys(cmds, i as int)),
                duplicates == duplicate_count(cmds, seen0, i as int),
                duplicates <= i,
                qsos@.len() == kept(cmds, seen0, i as int).len(),
                forall|t: int|
                    0 <= t < qsos@.len() ==> logged_from(
                        #[trigger] qsos@[t],
                        cmds[kept(cmds, seen0, i as int)[t]],
                    ),
                forall|t: int|
                    0 <= t < qsos@.len() ==> enriched(
                        #[trigger] qsos@[t],
                        cmds[kept(cmds, seen0, i as int)[t]],
                        self.resolver.answer(cmds[kept(cmds, seen0, i as int)[t]].call@),
                    ),
                forall|t: int|
                    0 <= t < qsos@.len() ==> is_v4_uuid(#[trigger] qsos@[t].id.0) && datetime_valid(
                        qsos@[t].created_at,
                    ),
                fields@ == batch_fields(qsos@, kept_fields(cmds, kept(cmds, seen0, i as int))),
                states@.map_values(|s: ImportedServiceState| (s.qso_id, state_view(s)))
                    == batch_states(qsos@, kept_fields(cmds, kept(cmds, seen0, i as int))),
            decreases n - i,
        {
            let cmd = rev.pop().unwrap();
            assert(cmd == cmds[i as int]);
            let ghost ks = kept(cmds, seen0, i as int);
            proof {
                lemma_command_keys_step(cmds, i as int);
            }
            let key = dedup_key(&cmd);
            let mut dup = false;
            match key {
                Some(k) => {
                    if contains_key(seen, &k) {
                        dup = true;
                        proof {
                            let v = key_view(k);
                            if !seen0.contains(v) {
                                let j = choose|j: int|
                                    0 <= j < i && dedup_key_of(#[trigger] cmds[j]) == Some(v);
                            }
                            assert(is_duplicate(cmds, seen0, i as int));
                            assert(seen0.union(command_keys(cmds, i + 1)) =~= seen0.union(
                                command_keys(cmds, i as int),
                            ));
                        }
                    } else {
                        proof {
                            lemma_key_set_push(seen@, k);
                            let v = key_view(k);
                            if is_duplicate(cmds, seen0, i as int) {
                                if !seen0.contains(v) {
                                    let j = choose|j: int|
                                        0 <= j < i && dedup_key_of(#[trigger] cmds[j]) == Some(v);
                                    assert(command_keys(cmds, i as int).contains(v));
                                }
                            }
                            assert(seen0.union(command_keys(cmds, i + 1)) =~= seen0.union(
                                command_keys(cmds, i as int),
                            ).insert(v));
                        }
                        seen.push(k);
                    }
                },
                None => {
                    assert(!is_duplicate(cmds, seen0, i as int));
                },
            }
            if dup {
                duplicates = duplicates + 1;
                assert(kept(cmds, seen0, i + 1) == ks);
            } else {
                assert(kept(cmds, seen0, i + 1) == ks.push(i as int));
                let ghost fss = kept_fields(cmds, ks);
                assert(kept_fields(cmds, ks.push(i as int)) =~= fss.push(cmd.exchange_fields@));
                let (qso, exchange) = self.build_qso_from_command(cmd);
                proof {
                    lemma_batch_extend(qsos@, qso, fss);
                }
                let ghost q0 = qsos@;
                push_kept(&mut qsos, &mut fields, &mut states, qso, exchange);
                assert(batch_fields(qsos@, fss.push(cmd.exchange_fields@)) =~= batch_fields(q0, fss)
                    + cmd.exchange_fields@.map_values(|f: QsoExchangeField| (qso.id, f))) by {
                    assert(fss.push(cmd.exchange_fields@).drop_last() =~= fss);
                }
                assert(batch_states(qsos@, fss.push(cmd.exchange_fields@)) =~= batch_states(q0, fss)
                    + service_states(cmd.exchange_fields@).map_values(|v: StateV| (qso.id, v))) by {
                    assert(fss.push(cmd.exchange_fields@).drop_last() =~= fss);
                }
                assert forall|t: int| 0 <= t < qsos@.len() implies logged_from(
                    #[trigger] qsos@[t],
                    cmds[kept(cmds, seen0, i + 1)[t]],
                ) by {
                    if t < q0.len() {
                        assert(qsos@[t] == q0[t]);
                    }
                }
                assert forall|t: int| 0 <= t < qsos@.len() implies enriched(
                    #[trigger] qsos@[t],
                    cmds[kept(cmds, seen0, i + 1)[t]],
                    self.resolver.answer(cmds[kept(cmds, seen0, i + 1)[t]].call@),
                ) by {
                    if t < q0.len() {
                        assert(qsos@[t] == q0[t]);
                    }
                }
            }
            i = i + 1;
        }
        assert(cmds.take(n as int) =~= cmds);
        ImportBatch { qsos, fields, service_states: states, duplicates }
    }
}

/// Importing again what the log already holds stores nothing: when every
/// command has a dedup key and the key is known, every command counts as
/// a duplicate.
pub proof fn law_reimport_stores_nothing(cmds: Seq<CreateQsoCommand>, seen: Set<KeyV>, n: int)
    requires
        0 <= n <= cmds.len(),
        forall|i: int|
            0 <= i < cmds.len() ==> match dedup_key_of(#[trigger] cmds[i]) {
                Some(v) => seen.contains(v),
                None => false,
            },
    ensures
        kept(cmds, seen, n).len() == 0,
        duplicate_count(cmds, seen, n) == n,
    decreases n,
{
    if n > 0 {
        law_reimport_stores_nothing(cmds, seen, n - 1);
        assert(is_duplicate(cmds, seen, n - 1));
    }
}

/// A command without a station callsign is never taken for a duplicate.
pub proof fn law_no_station_no_duplicate(cmds: Seq<CreateQsoCommand>, seen: Set<KeyV>, i: int)
    requires
        0 <= i < cmds.len(),
        cmds[i].station_callsign is None,
    ensures
        !is_duplicate(cmds, seen, i),
{
}

/// Within one import, of two commands with the same key only the first
/// is stored.
pub proof fn law_later_repeat_is_duplicate(
    cmds: Seq<CreateQsoCommand>,
    seen: Set<KeyV>,
    j: int,
    i: int,
)
    requires
        0 <= j < i < cmds.len(),
        dedup_key_of(cmds[j]) is Some,
        dedup_key_of(cmds[j]) == dedup_key_of(cmds[i]),
    ensures
        is_duplicate(cmds, seen, i),
{
}

} // verus!
