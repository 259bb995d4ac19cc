//! Award progress derived from the log.
//!
//! Each award sorts the QSOs into units (a DXCC entity, a US state, a WPX
//! prefix, an IOTA reference) by a key that each QSO may or may not have.
//! A unit is worked once some QSO has its key and confirmed once one of
//! those QSOs is confirmed through LotW. Units come out in ascending order
//! of their keys, compared character by character.
use vstd::prelude::*;

use crate::repository::AwardQso;
use crate::text::{chars_eq, chars_of, dec, dec_chars, string_from_chars};
use crate::value::Band;
use crate::wpx::{wpx, wpx_prefix};

verus! {

/// One unit's standing against an award.
#[derive(Debug, Clone)]
pub struct AwardUnit {
    pub key: String,
    pub worked_count: usize,
    pub confirmed: bool,
}

/// Counts for an award plus the per-unit detail.
#[derive(Debug, Clone)]
pub struct AwardProgress {
    pub worked: usize,
    pub confirmed: usize,
    pub units: Vec<AwardUnit>,
}

impl Default for AwardProgress {
    fn default() -> (r: AwardProgress)
        ensures
            r.worked == 0,
            r.confirmed == 0,
            r.units@.len() == 0,
    {
        AwardProgress { worked: 0, confirmed: 0, units: Vec::new() }
    }
}

/// Lexicographic order of character sequences, by code point, a proper
/// prefix first (the order of `str`).
pub open spec fn seq_lt(a: Seq<char>, b: Seq<char>) -> bool
    decreases a.len(),
{
    if b.len() == 0 {
        false
    } else if a.len() == 0 {
        true
    } else if a[0] != b[0] {
        a[0] < b[0]
    } else {
        seq_lt(a.drop_first(), b.drop_first())
    }
}

pub proof fn lemma_seq_lt_irreflexive(a: Seq<char>)
    ensures
        !seq_lt(a, a),
    decreases a.len(),
{
    if a.len() > 0 {
        lemma_seq_lt_irreflexive(a.drop_first());
    }
}

pub proof fn lemma_seq_lt_transitive(a: Seq<char>, b: Seq<char>, c: Seq<char>)
    requires
        seq_lt(a, b),
        seq_lt(b, c),
    ensures
        seq_lt(a, c),
    decreases a.len(),
{
    if a.len() > 0 && a[0] == b[0] && b[0] == c[0] {
        lemma_seq_lt_transitive(a.drop_first(), b.drop_first(), c.drop_first());
    }
}

pub proof fn lemma_seq_lt_total(a: Seq<char>, b: Seq<char>)
    requires
        a != b,
    ensures
        seq_lt(a, b) || seq_lt(b, a),
    decreases a.len(),
{
    if a.len() > 0 && b.len() > 0 && a[0] == b[0] {
        if a.drop_first() == b.drop_first() {
            assert(a =~= seq![a[0]] + a.drop_first());
            assert(b =~= seq![b[0]] + b.drop_first());
        }
        lemma_seq_lt_total(a.drop_first(), b.drop_first());
    } else if a.len() == 0 && b.len() == 0 {
        assert(a =~= b);
    }
}

/// `a < b` on character slices, as `seq_lt`.
pub fn chars_lt(a: &[char], b: &[char]) -> (r: bool)
    ensures
        r == seq_lt(a@, b@),
{
    let mut i: usize = 0;
    assert(a@.skip(0) =~= a@);
    assert(b@.skip(0) =~= b@);
    while i < a.len() && i < b.len()
        invariant
            i <= a.len(),
            i <= b.len(),
            seq_lt(a@, b@) == seq_lt(a@.skip(i as int), b@.skip(i as int)),
        decreases a.len() - i,
    {
        if a[i] != b[i] {
            return a[i] < b[i];
        }
        assert(a@.skip(i as int).drop_first() =~= a@.skip(i + 1));
        assert(b@.skip(i as int).drop_first() =~= b@.skip(i + 1));
        i = i + 1;
    }
    i < b.len()
}

/// The key of one QSO under an award, with whether LotW confirmed it.
pub type KeyEntry = (Option<Seq<char>>, bool);

/// How many entries carry the key `k`.
pub open spec fn key_count(es: Seq<KeyEntry>, k: Seq<char>) -> nat
    decreases es.len(),
{
    if es.len() == 0 {
        0
    } else {
        key_count(es.drop_last(), k) + if es.last().0 == Some(k) {
            1nat
        } else {
            0nat
        }
    }
}

/// Whether some entry with the key `k` is confirmed.
pub open spec fn key_confirmed(es: Seq<KeyEntry>, k: Seq<char>) -> bool
    decreases es.len(),
{
    if es.len() == 0 {
        false
    } else {
        key_confirmed(es.drop_last(), k) || (es.last().0 == Some(k) && es.last().1)
    }
}

/// How many of the units are confirmed.
pub open spec fn confirmed_units(us: Seq<AwardUnit>) -> nat
    decreases us.len(),
{
    if us.len() == 0 {
        0
    } else {
        confirmed_units(us.drop_last()) + if us.last().confirmed {
            1nat
        } else {
            0nat
        }
    }
}

/// `p` is the progress of the award whose QSOs have the keys `es`: one
/// unit per distinct key, in ascending key order, each counting the
/// entries with its key and confirmed when one of them is.
pub open spec fn progress_fits(p: AwardProgress, es: Seq<KeyEntry>) -> bool {
    &&& p.worked == p.units@.len()
    &&& p.confirmed == confirmed_units(p.units@)
    &&& forall|i: int, j: int|
        #![trigger p.units@[i], p.units@[j]]
        0 <= i < j < p.units@.len() ==> seq_lt(p.units@[i].key@, p.units@[j].key@)
    &&& forall|i: int|
        0 <= i < p.units@.len() ==> {
            &&& (#[trigger] p.units@[i]).worked_count == key_count(es, p.units@[i].key@)
            &&& p.units@[i].confirmed == key_confirmed(es, p.units@[i].key@)
        }
    &&& forall|k: Seq<char>|
        #[trigger] key_count(es, k) > 0 <==> exists|i: int|
            0 <= i < p.units@.len() && #[trigger] p.units@[i].key@ == k
}

pub proof fn lemma_key_count_le(es: Seq<KeyEntry>, k: Seq<char>)
    ensures
        key_count(es, k) <= es.len(),
        key_confirmed(es, k) ==> key_count(es, k) > 0,
    decreases es.len(),
{
    if es.len() > 0 {
        lemma_key_count_le(es.drop_last(), k);
    }
}

pub proof fn lemma_confirmed_units_le(us: Seq<AwardUnit>)
    ensures
        confirmed_units(us) <= us.len(),
    decreases us.len(),
{
    if us.len() > 0 {
        lemma_confirmed_units_le(us.drop_last());
    }
}

/// An executable key: the key text as characters, or none.
pub open spec fn entry_view(e: (Option<Vec<char>>, bool)) -> KeyEntry {
    (
        match e.0 {
            Some(v) => Some(v@),
            None => None,
        },
        e.1,
    )
}

pub open spec fn entries_view(es: Seq<(Option<Vec<char>>, bool)>) -> Seq<KeyEntry> {
    es.map_values(|e: (Option<Vec<char>>, bool)| entry_view(e))
}

/// The buckets while they are being filled: parallel vectors of keys,
/// counts and confirmation flags.
spec fn buckets_fit(
    keys: Seq<Vec<char>>,
    counts: Seq<usize>,
    confs: Seq<bool>,
    es: Seq<KeyEntry>,
) -> bool {
    &&& keys.len() == counts.len()
    &&& keys.len() == confs.len()
    &&& forall|a: int, b: int|
        #![trigger keys[a], keys[b]]
        0 <= a < b < keys.len() ==> seq_lt(keys[a]@, keys[b]@)
    &&& forall|a: int|
        0 <= a < keys.len() ==> {
            &&& #[trigger] counts[a] == key_count(es, keys[a]@)
            &&& confs[a] == key_confirmed(es, keys[a]@)
        }
    &&& forall|k: Seq<char>|
        #[trigger] key_count(es, k) > 0 <==> exists|a: int| 0 <= a < keys.len() && #[trigger] keys[a]@ == k
}

proof fn lemma_step_counts(es: Seq<KeyEntry>, e: KeyEntry, k: Seq<char>)
    ensures
        key_count(es.push(e), k) == key_count(es, k) + if e.0 == Some(k) {
            1nat
        } else {
            0nat
        },
        key_confirmed(es.push(e), k) == (key_confirmed(es, k) || (e.0 == Some(k) && e.1)),
{
    assert(es.push(e).drop_last() =~= es);
}

/// Group the entries by key.
fn bucket(entries: &Vec<(Option<Vec<char>>, bool)>) -> (r: AwardProgress)
    ensures
        progress_fits(r, entries_view(entries@)),
{
    let ghost all = entries_view(entries@);
    let mut keys: Vec<Vec<char>> = Vec::new();
    let mut counts: Vec<usize> = Vec::new();
    let mut confs: Vec<bool> = Vec::new();
    let mut i: usize = 0;
    assert(all.take(0) =~= Seq::<KeyEntry>::empty());
    while i < entries.len()
        invariant
            i <= entries.len(),
            all == entries_view(entries@),
            buckets_fit(keys@, counts@, confs@, all.take(i as int)),
        decreases entries.len() - i,
    {
        let ghost es = all.take(i as int);
        let ghost e = all[i as int];
        assert(all.take(i + 1) =~= es.push(e));
        assert(e == entry_view(entries@[i as int]));
        let ghost old_keys = keys@;
        let ghost old_counts = counts@;
        let ghost old_confs = confs@;
        let confirmed = entries[i].1;
        match &entries[i].0 {
            None => {
                assert forall|k: Seq<char>| #[trigger] key_count(es.push(e), k) == key_count(es, k)
                    && key_confirmed(es.push(e), k) == key_confirmed(es, k) by {
                    lemma_step_counts(es, e, k);
                }
            },
            Some(kv) => {
                assert(e.0 == Some(kv@));
                let mut j: usize = 0;
                while j < keys.len() && chars_lt(keys[j].as_slice(), kv.as_slice())
                    invariant
                        j <= keys.len(),
                        keys@ == old_keys,
                        forall|a: int| 0 <= a < j ==> seq_lt(#[trigger] keys@[a]@, kv@),
                    decreases keys.len() - j,
                {
                    j = j + 1;
                }
                let found = j < keys.len() && chars_eq(keys[j].as_slice(), kv.as_slice());
                if found {
                    proof {
                        lemma_key_count_le(es, kv@);
                    }
                    let c = counts[j];
                    assert(c == key_count(es, keys@[j as int]@));
                    assert(c <= i);
                    counts.set(j, c + 1);
                    let f = confs[j];
                    confs.set(j, f || confirmed);
                    proof {
                        assert forall|a: int| 0 <= a < keys@.len() implies {
                            &&& #[trigger] counts@[a] == key_count(es.push(e), keys@[a]@)
                            &&& confs@[a] == key_confirmed(es.push(e), keys@[a]@)
                        } by {
                            lemma_step_counts(es, e, keys@[a]@);
                            if a != j {
                                if keys@[a]@ == kv@ {
                                    lemma_seq_lt_irreflexive(kv@);
                                }
                                assert(counts@[a] == old_counts[a]);
                                assert(confs@[a] == old_confs[a]);
                            } else {
                                assert(keys@[a]@ == kv@);
                                assert(counts@[a] == c + 1);
                                assert(confs@[a] == (f || confirmed));
                                assert(confirmed == e.1);
                            }
                        }
                        assert forall|k: Seq<char>|
                            #[trigger] key_count(es.push(e), k) > 0 <==> exists|a: int|
                                0 <= a < keys@.len() && #[trigger] keys@[a]@ == k by {
                            lemma_step_counts(es, e, k);
                            if k == kv@ {
                                assert(keys@[j as int]@ == k);
                            }
                        }
                    }
                } else {
                    proof {
                        lemma_key_count_le(es, kv@);
                        if j < keys@.len() {
                            lemma_seq_lt_total(keys@[j as int]@, kv@);
                        }
                        assert forall|a: int| 0 <= a < keys@.len() implies #[trigger] keys@[a]@ != kv@ by {
                            if keys@[a]@ == kv@ {
                                lemma_seq_lt_irreflexive(kv@);
                                if a > j {
                                    lemma_seq_lt_transitive(kv@, keys@[j as int]@, keys@[a]@);
                                }
                            }
                        }
                        assert(key_count(es, kv@) == 0);
                    }
                    keys.insert(j, kv.clone());
                    counts.insert(j, 1);
                    confs.insert(j, confirmed);
                    proof {
                        assert(keys@[j as int]@ == kv@);
                        assert forall|a: int, b: int|
                            #![trigger keys@[a], keys@[b]]
                            0 <= a < b < keys@.len() implies seq_lt(keys@[a]@, keys@[b]@) by {
                            if a < j && b == j {
                            } else if a == j && b > j {
                                assert(keys@[b] == old_keys[b - 1]);
                                if b - 1 > j {
                                    lemma_seq_lt_transitive(kv@, old_keys[j as int]@, old_keys[b - 1]@);
                                }
                            } else if a < j && b > j {
                                assert(keys@[b] == old_keys[b - 1]);
                            } else if a > j {
                                assert(keys@[a] == old_keys[a - 1]);
                                assert(keys@[b] == old_keys[b - 1]);
                            }
                        }
                        assert forall|a: int| 0 <= a < keys@.len() implies {
                            &&& #[trigger] counts@[a] == key_count(es.push(e), keys@[a]@)
                            &&& confs@[a] == key_confirmed(es.push(e), keys@[a]@)
                        } by {
                            lemma_step_counts(es, e, keys@[a]@);
                            if a < j {
                                assert(keys@[a] == old_keys[a]);
                                assert(counts@[a] == old_counts[a]);
                                assert(confs@[a] == old_confs[a]);
                            } else if a > j {
                                assert(keys@[a] == old_keys[a - 1]);
                                assert(counts@[a] == old_counts[a - 1]);
                                assert(confs@[a] == old_confs[a - 1]);
                            } else {
                                lemma_key_count_le(es, kv@);
                            }
                        }
                        assert forall|k: Seq<char>|
                            #[trigger] key_count(es.push(e), k) > 0 <==> exists|a: int|
                                0 <= a < keys@.len() && #[trigger] keys@[a]@ == k by {
                            lemma_step_counts(es, e, k);
                            if key_count(es, k) > 0 {
                                let a0 = choose|a: int| 0 <= a < old_keys.len() && #[trigger] old_keys[a]@ == k;
                                if a0 < j {
                                    assert(keys@[a0]@ == k);
                                } else {
                                    assert(keys@[a0 + 1]@ == k);
                                }
                            }
                            if exists|a: int| 0 <= a < keys@.len() && #[trigger] keys@[a]@ == k {
                                let a1 = choose|a: int| 0 <= a < keys@.len() && #[trigger] keys@[a]@ == k;
                                if a1 < j {
                                    assert(old_keys[a1]@ == k);
                                } else if a1 > j {
                                    assert(old_keys[a1 - 1]@ == k);
                                }
                            }
                        }
                    }
                }
            },
        }
        i = i + 1;
    }
    assert(all.take(entries.len() as int) =~= all);
    let mut units: Vec<AwardUnit> = Vec::new();
    let mut nconf: usize = 0;
    let mut m: usize = 0;
    while m < keys.len()
        invariant
            m <= keys.len(),
            buckets_fit(keys@, counts@, confs@, all),
            units@.len() == m,
            nconf == confirmed_units(units@),
            nconf <= m,
            forall|a: int|
                0 <= a < m ==> {
                    &&& (#[trigger] units@[a]).key@ == keys@[a]@
                    &&& units@[a].worked_count == counts@[a]
                    &&& units@[a].confirmed == confs@[a]
                },
        decreases keys.len() - m,
    {
        let u = AwardUnit {
            key: string_from_chars(keys[m].as_slice()),
            worked_count: counts[m],
            confirmed: confs[m],
        };
        let ghost before = units@;
        units.push(u);
        assert(units@.drop_last() =~= before);
        if confs[m] {
            nconf = nconf + 1;
        }
        m = m + 1;
    }
    let r = AwardProgress { worked: units.len(), confirmed: nconf, units };
    assert forall|k: Seq<char>|
        #[trigger] key_count(all, k) > 0 <==> exists|i: int|
            0 <= i < r.units@.len() && #[trigger] r.units@[i].key@ == k by {
        if key_count(all, k) > 0 {
            let a = choose|a: int| 0 <= a < keys@.len() && #[trigger] keys@[a]@ == k;
            assert(r.units@[a].key@ == k);
        }
        if exists|i: int| 0 <= i < r.units@.len() && #[trigger] r.units@[i].key@ == k {
            let a = choose|i: int| 0 <= i < r.units@.len() && #[trigger] r.units@[i].key@ == k;
            assert(keys@[a]@ == k);
        }
    }
    assert forall|i: int, j: int|
        #![trigger r.units@[i], r.units@[j]]
        0 <= i < j < r.units@.len() implies seq_lt(r.units@[i].key@, r.units@[j].key@) by {
        assert(keys@[i]@ == r.units@[i].key@);
        assert(keys@[j]@ == r.units@[j].key@);
    }
    r
}


/// The DXCC key of a QSO: its entity number in decimal.
pub open spec fn dxcc_key(q: AwardQso) -> Option<Seq<char>> {
    match q.dxcc_id {
        Some(id) => Some(dec(id as nat)),
        None => None,
    }
}

/// The text of an optional field, where it is present and not empty.
pub open spec fn nonempty_text(o: Option<String>) -> Option<Seq<char>> {
    match o {
        Some(s) => if s@.len() > 0 {
            Some(s@)
        } else {
            None
        },
        None => None,
    }
}

/// DXCC entity number of the United States.
pub const USA_DXCC: u16 = 291;

/// The WAS key of a QSO: its US state, on QSOs with the United States.
pub open spec fn was_key(q: AwardQso) -> Option<Seq<char>> {
    if q.dxcc_id == Some(USA_DXCC) {
        nonempty_text(q.state)
    } else {
        None
    }
}

/// The WPX key of a QSO: the prefix of the worked callsign.
pub open spec fn wpx_key(q: AwardQso) -> Option<Seq<char>> {
    wpx(q.call@)
}

/// The IOTA key of a QSO: the logged IOTA reference.
pub open spec fn iota_key(q: AwardQso) -> Option<Seq<char>> {
    nonempty_text(q.iota)
}

/// Which key an award sorts QSOs by.
#[derive(Debug, Clone, Copy)]
enum KeyRule {
    Dxcc,
    Was,
    Wpx,
    Iota,
    DxccOnBand(Band),
    DxccInYear(i32),
}

spec fn rule_key(rule: KeyRule, q: AwardQso) -> Option<Seq<char>> {
    match rule {
        KeyRule::Dxcc => dxcc_key(q),
        KeyRule::Was => was_key(q),
        KeyRule::Wpx => wpx_key(q),
        KeyRule::Iota => iota_key(q),
        KeyRule::DxccOnBand(b) => if q.band == Some(b) {
            dxcc_key(q)
        } else {
            None
        },
        KeyRule::DxccInYear(y) => if q.qso_begin.year == y {
            dxcc_key(q)
        } else {
            None
        },
    }
}

/// The keys of the QSOs under `key`, each with its LotW confirmation.
pub open spec fn award_entries(
    qsos: Seq<AwardQso>,
    key: spec_fn(AwardQso) -> Option<Seq<char>>,
) -> Seq<KeyEntry> {
    Seq::new(qsos.len(), |i: int| (key(qsos[i]), qsos[i].lotw_confirmed))
}

fn nonempty_chars(o: &Option<String>) -> (r: Option<Vec<char>>)
    ensures
        entry_view((r, true)).0 == nonempty_text(*o),
{
    match o {
        Some(s) => {
            let c = chars_of(s.as_str());
            if c.len() > 0 {
                Some(c)
            } else {
                None
            }
        },
        None => None,
    }
}

fn dxcc_chars(q: &AwardQso) -> (r: Option<Vec<char>>)
    ensures
        entry_view((r, true)).0 == dxcc_key(*q),
{
    match q.dxcc_id {
        Some(id) => Some(dec_chars(id as u64)),
        None => None,
    }
}

fn key_of(q: &AwardQso, rule: KeyRule) -> (r: Option<Vec<char>>)
    ensures
        entry_view((r, true)).0 == rule_key(rule, *q),
{
    match rule {
        KeyRule::Dxcc => dxcc_chars(q),
        KeyRule::Was => {
            let usa = match q.dxcc_id {
                Some(id) => id == USA_DXCC,
                None => false,
            };
            if usa {
                nonempty_chars(&q.state)
            } else {
                None
            }
        },
        KeyRule::Wpx => match wpx_prefix(q.call.as_str()) {
            Some(p) => Some(chars_of(p.as_str())),
            None => None,
        },
        KeyRule::Iota => nonempty_chars(&q.iota),
        KeyRule::DxccOnBand(b) => {
            let on_band = match q.band {
                Some(qb) => qb == b,
                None => false,
            };
            if on_band {
                dxcc_chars(q)
            } else {
                None
            }
        },
        KeyRule::DxccInYear(y) => {
            if q.qso_begin.year == y {
                dxcc_chars(q)
            } else {
                None
            }
        },
    }
}

/// Progress of the award that `rule` describes.
fn progress_by(qsos: &[AwardQso], rule: KeyRule) -> (r: AwardProgress)
    ensures
        progress_fits(r, award_entries(qsos@, |q: AwardQso| rule_key(rule, q))),
{
    let ghost want = award_entries(qsos@, |q: AwardQso| rule_key(rule, q));
    let mut entries: Vec<(Option<Vec<char>>, bool)> = Vec::new();
    let mut i: usize = 0;
    while i < qsos.len()
        invariant
            i <= qsos.len(),
            want == award_entries(qsos@, |q: AwardQso| rule_key(rule, q)),
            entries@.len() == i,
            forall|a: int| 0 <= a < i ==> entry_view(#[trigger] entries@[a]) == want[a],
        decreases qsos.len() - i,
    {
        let k = key_of(&qsos[i], rule);
        entries.push((k, qsos[i].lotw_confirmed));
        i = i + 1;
    }
    assert(entries_view(entries@) =~= want);
    bucket(&entries)
}

/// DXCC: the distinct entities worked. QSOs without an entity are left
/// out.
pub fn dxcc_progress(qsos: &[AwardQso]) -> (r: AwardProgress)
    ensures
        progress_fits(r, award_entries(qsos@, |q: AwardQso| dxcc_key(q))),
{
    let r = progress_by(qsos, KeyRule::Dxcc);
    assert(award_entries(qsos@, |q: AwardQso| rule_key(KeyRule::Dxcc, q)) =~= award_entries(
        qsos@,
        |q: AwardQso| dxcc_key(q),
    ));
    r
}

/// WAS: the distinct US states worked, counting only QSOs with the
/// United States.
pub fn was_progress(qsos: &[AwardQso]) -> (r: AwardProgress)
    ensures
        progress_fits(r, award_entries(qsos@, |q: AwardQso| was_key(q))),
{
    let r = progress_by(qsos, KeyRule::Was);
    assert(award_entries(qsos@, |q: AwardQso| rule_key(KeyRule::Was, q)) =~= award_entries(
        qsos@,
        |q: AwardQso| was_key(q),
    ));
    r
}

/// WPX: the distinct prefixes of the worked callsigns.
pub fn wpx_progress(qsos: &[AwardQso]) -> (r: AwardProgress)
    ensures
        progress_fits(r, award_entries(qsos@, |q: AwardQso| wpx_key(q))),
{
    let r = progress_by(qsos, KeyRule::Wpx);
    assert(award_entries(qsos@, |q: AwardQso| rule_key(KeyRule::Wpx, q)) =~= award_entries(
        qsos@,
        |q: AwardQso| wpx_key(q),
    ));
    r
}

/// IOTA: the distinct IOTA references logged.
pub fn iota_progress(qsos: &[AwardQso]) -> (r: AwardProgress)
    ensures
        progress_fits(r, award_entries(qsos@, |q: AwardQso| iota_key(q))),
{
    let r = progress_by(qsos, KeyRule::Iota);
    assert(award_entries(qsos@, |q: AwardQso| rule_key(KeyRule::Iota, q)) =~= award_entries(
        qsos@,
        |q: AwardQso| iota_key(q),
    ));
    r
}

/// DXCC counted over the QSOs on one band.
pub fn dxcc_progress_on_band(qsos: &[AwardQso], band: Band) -> (r: AwardProgress)
    ensures
        progress_fits(
            r,
            award_entries(
                qsos@,
                |q: AwardQso|
                    if q.band == Some(band) {
                        dxcc_key(q)
                    } else {
                        None
                    },
            ),
        ),
{
    let r = progress_by(qsos, KeyRule::DxccOnBand(band));
    assert(award_entries(qsos@, |q: AwardQso| rule_key(KeyRule::DxccOnBand(band), q))
        =~= award_entries(
        qsos@,
        |q: AwardQso|
            if q.band == Some(band) {
                dxcc_key(q)
            } else {
                None
            },
    ));
    r
}

/// CQ Marathon standing for one calendar year: the DXCC entities and the
/// CQ zones worked that year, and how many QSOs fell in it. Zones are not
/// carried by `AwardQso`, so that progress stays empty.
#[derive(Debug, Clone)]
pub struct MarathonProgress {
    pub year: i32,
    pub entities: AwardProgress,
    pub zones: AwardProgress,
    pub qso_count: usize,
}

/// How many QSOs began in `year`.
pub open spec fn year_count(qsos: Seq<AwardQso>, year: i32) -> nat
    decreases qsos.len(),
{
    if qsos.len() == 0 {
        0
    } else {
        year_count(qsos.drop_last(), year) + if qsos.last().qso_begin.year == year {
            1nat
        } else {
            0nat
        }
    }
}

/// The DXCC key of QSOs that began in `year`.
pub open spec fn year_dxcc_key(q: AwardQso, year: i32) -> Option<Seq<char>> {
    if q.qso_begin.year == year {
        dxcc_key(q)
    } else {
        None
    }
}

pub open spec fn marathon_fits(m: MarathonProgress, qsos: Seq<AwardQso>, year: i32) -> bool {
    &&& m.year == year
    &&& progress_fits(m.entities, award_entries(qsos, |q: AwardQso| year_dxcc_key(q, year)))
    &&& m.zones.worked == 0
    &&& m.zones.confirmed == 0
    &&& m.zones.units@.len() == 0
    &&& m.qso_count == year_count(qsos, year)
}

pub fn marathon_progress(qsos: &[AwardQso], year: i32) -> (r: MarathonProgress)
    ensures
        marathon_fits(r, qsos@, year),
{
    let entities = progress_by(qsos, KeyRule::DxccInYear(year));
    assert(award_entries(qsos@, |q: AwardQso| rule_key(KeyRule::DxccInYear(year), q))
        =~= award_entries(qsos@, |q: AwardQso| year_dxcc_key(q, year)));
    let mut n: usize = 0;
    let mut i: usize = 0;
    while i < qsos.len()
        invariant
            i <= qsos.len(),
            n == year_count(qsos@.take(i as int), year),
            n <= i,
        decreases qsos.len() - i,
    {
        assert(qsos@.take(i + 1).drop_last() =~= qsos@.take(i as int));
        if qsos[i].qso_begin.year == year {
            n = n + 1;
        }
        i = i + 1;
    }
    assert(qsos@.take(qsos.len() as int) =~= qsos@);
    MarathonProgress { year, entities, zones: AwardProgress::default(), qso_count: n }
}

/// The bands, lowest frequency first (the order of `Band`).
pub open spec fn all_bands() -> Seq<Band> {
    seq![
        Band::M2200, Band::M630, Band::M160, Band::M80, Band::M60, Band::M40, Band::M30,
        Band::M20, Band::M17, Band::M15, Band::M12, Band::M10, Band::M6, Band::M4, Band::M2,
        Band::Cm125, Band::Cm70, Band::Cm33, Band::Cm23, Band::Cm13, Band::Cm9, Band::Cm6,
        Band::Cm3, Band::Mm1_25, Band::Mm6,
    ]
}

/// Position of a band in `all_bands`.
pub open spec fn band_rank(b: Band) -> int {
    match b {
        Band::M2200 => 0,
        Band::M630 => 1,
        Band::M160 => 2,
        Band::M80 => 3,
        Band::M60 => 4,
        Band::M40 => 5,
        Band::M30 => 6,
        Band::M20 => 7,
        Band::M17 => 8,
        Band::M15 => 9,
        Band::M12 => 10,
        Band::M10 => 11,
        Band::M6 => 12,
        Band::M4 => 13,
        Band::M2 => 14,
        Band::Cm125 => 15,
        Band::Cm70 => 16,
        Band::Cm33 => 17,
        Band::Cm23 => 18,
        Band::Cm13 => 19,
        Band::Cm9 => 20,
        Band::Cm6 => 21,
        Band::Cm3 => 22,
        Band::Mm1_25 => 23,
        Band::Mm6 => 24,
    }
}

proof fn lemma_band_ranks()
    ensures
        all_bands().len() == 25,
        forall|i: int| 0 <= i < 25 ==> band_rank(#[trigger] all_bands()[i]) == i,
        forall|b: Band| all_bands()[#[trigger] band_rank(b)] == b,
{
}

fn all_bands_vec() -> (r: Vec<Band>)
    ensures
        r@ == all_bands(),
{
    let r = vec![
        Band::M2200, Band::M630, Band::M160, Band::M80, Band::M60, Band::M40, Band::M30,
        Band::M20, Band::M17, Band::M15, Band::M12, Band::M10, Band::M6, Band::M4, Band::M2,
        Band::Cm125, Band::Cm70, Band::Cm33, Band::Cm23, Band::Cm13, Band::Cm9, Band::Cm6,
        Band::Cm3, Band::Mm1_25, Band::Mm6,
    ];
    assert(r@ =~= all_bands());
    r
}

/// Whether some QSO was made on `b`.
pub open spec fn band_present(qsos: Seq<AwardQso>, b: Band) -> bool {
    exists|i: int| 0 <= i < qsos.len() && (#[trigger] qsos[i]).band == Some(b)
}

/// The DXCC key of QSOs on `band`.
pub open spec fn band_dxcc_key(q: AwardQso, band: Band) -> Option<Seq<char>> {
    if q.band == Some(band) {
        dxcc_key(q)
    } else {
        None
    }
}

/// `v` holds, for each band on which some QSO was made and for no other,
/// the DXCC progress on that band, lowest band first.
pub open spec fn by_band_fits(v: Seq<(Band, AwardProgress)>, qsos: Seq<AwardQso>) -> bool {
    &&& forall|i: int, j: int|
        #![trigger v[i], v[j]]
        0 <= i < j < v.len() ==> band_rank(v[i].0) < band_rank(v[j].0)
    &&& forall|i: int|
        0 <= i < v.len() ==> progress_fits(
            (#[trigger] v[i]).1,
            award_entries(qsos, |q: AwardQso| band_dxcc_key(q, v[i].0)),
        )
    &&& forall|b: Band|
        #[trigger] band_present(qsos, b) <==> exists|i: int| 0 <= i < v.len() && (#[trigger] v[i]).0 == b
}

fn any_on_band(qsos: &[AwardQso], b: Band) -> (r: bool)
    ensures
        r == band_present(qsos@, b),
{
    let mut i: usize = 0;
    while i < qsos.len()
        invariant
            i <= qsos.len(),
            forall|a: int| 0 <= a < i ==> (#[trigger] qsos@[a]).band != Some(b),
        decreases qsos.len() - i,
    {
        let hit = match qsos[i].band {
            Some(qb) => qb == b,
            None => false,
        };
        if hit {
            assert(qsos@[i as int].band == Some(b));
            return true;
        }
        i = i + 1;
    }
    false
}

/// DXCC progress split by band, for the bands on which QSOs were made.
pub fn dxcc_by_band(qsos: &[AwardQso]) -> (r: Vec<(Band, AwardProgress)>)
    ensures
        by_band_fits(r@, qsos@),
{
    proof {
        lemma_band_ranks();
    }
    let bands = all_bands_vec();
    let mut r: Vec<(Band, AwardProgress)> = Vec::new();
    let mut k: usize = 0;
    while k < bands.len()
        invariant
            k <= bands.len(),
            bands@ == all_bands(),
            all_bands().len() == 25,
            forall|i: int| 0 <= i < 25 ==> band_rank(#[trigger] all_bands()[i]) == i,
            forall|b: Band| all_bands()[#[trigger] band_rank(b)] == b,
            forall|i: int, j: int|
                #![trigger r@[i], r@[j]]
                0 <= i < j < r@.len() ==> band_rank(r@[i].0) < band_rank(r@[j].0),
            forall|i: int| 0 <= i < r@.len() ==> band_rank((#[trigger] r@[i]).0) < k,
            forall|i: int|
                0 <= i < r@.len() ==> progress_fits(
                    (#[trigger] r@[i]).1,
                    award_entries(qsos@, |q: AwardQso| band_dxcc_key(q, r@[i].0)),
                ),
            forall|b: Band|
                (#[trigger] band_present(qsos@, b) && band_rank(b) < k) <==> exists|i: int|
                    0 <= i < r@.len() && (#[trigger] r@[i]).0 == b,
        decreases bands.len() - k,
    {
        let b = bands[k];
        assert(band_rank(b) == k);
        if any_on_band(qsos, b) {
            let p = dxcc_progress_on_band(qsos, b);
            assert(award_entries(qsos@, |q: AwardQso| band_dxcc_key(q, b)) =~= award_entries(
                qsos@,
                |q: AwardQso|
                    if q.band == Some(b) {
                        dxcc_key(q)
                    } else {
                        None
                    },
            ));
            let ghost before = r@;
            r.push((b, p));
            assert forall|c: Band|
                (#[trigger] band_present(qsos@, c) && band_rank(c) < k + 1) <==> exists|i: int|
                    0 <= i < r@.len() && (#[trigger] r@[i]).0 == c by {
                if band_present(qsos@, c) && band_rank(c) < k + 1 {
                    if band_rank(c) == k {
                        assert(c == b);
                        assert(r@[before.len() as int].0 == c);
                    } else {
                        let i0 = choose|i: int| 0 <= i < before.len() && (#[trigger] before[i]).0 == c;
                        assert(r@[i0].0 == c);
                    }
                }
                if exists|i: int| 0 <= i < r@.len() && (#[trigger] r@[i]).0 == c {
                    let i1 = choose|i: int| 0 <= i < r@.len() && (#[trigger] r@[i]).0 == c;
                    if i1 < before.len() {
                        assert(before[i1].0 == c);
                    }
                }
            }
        } else {
            assert forall|c: Band|
                (#[trigger] band_present(qsos@, c) && band_rank(c) < k + 1) <==> exists|i: int|
                    0 <= i < r@.len() && (#[trigger] r@[i]).0 == c by {
                if band_rank(c) == k {
                    assert(c == b);
                }
            }
        }
        k = k + 1;
    }
    assert forall|c: Band| #[trigger] band_present(qsos@, c) implies band_rank(c) < 25 by {
    }
    r
}

/// All awards computed from one list of QSOs.
#[derive(Debug, Clone)]
pub struct AwardsSnapshot {
    pub total_qsos: usize,
    pub dxcc: AwardProgress,
    pub was: AwardProgress,
    pub wpx: AwardProgress,
    pub iota: AwardProgress,
    pub marathon: MarathonProgress,
    pub dxcc_by_band: Vec<(Band, AwardProgress)>,
}

pub open spec fn snapshot_fits(s: AwardsSnapshot, qsos: Seq<AwardQso>, year: i32) -> bool {
    &&& s.total_qsos == qsos.len()
    &&& progress_fits(s.dxcc, award_entries(qsos, |q: AwardQso| dxcc_key(q)))
    &&& progress_fits(s.was, award_entries(qsos, |q: AwardQso| was_key(q)))
    &&& progress_fits(s.wpx, award_entries(qsos, |q: AwardQso| wpx_key(q)))
    &&& progress_fits(s.iota, award_entries(qsos, |q: AwardQso| iota_key(q)))
    &&& marathon_fits(s.marathon, qsos, year)
    &&& by_band_fits(s.dxcc_by_band@, qsos)
}

pub fn snapshot(qsos: &[AwardQso], marathon_year: i32) -> (r: AwardsSnapshot)
    ensures
        snapshot_fits(r, qsos@, marathon_year),
{
    let dxcc_by_band = dxcc_by_band(qsos);
    AwardsSnapshot {
        total_qsos: qsos.len(),
        dxcc: dxcc_progress(qsos),
        was: was_progress(qsos),
        wpx: wpx_progress(qsos),
        iota: iota_progress(qsos),
        marathon: marathon_progress(qsos, marathon_year),
        dxcc_by_band,
    }
}

/// The keys of the units, in order.
pub open spec fn unit_keys(p: AwardProgress) -> Seq<Seq<char>> {
    p.units@.map_values(|u: AwardUnit| u.key@)
}

/// The keys that some entry carries.
pub open spec fn keys_worked(es: Seq<KeyEntry>) -> Set<Seq<char>> {
    Set::new(|k: Seq<char>| key_count(es, k) > 0)
}

proof fn lemma_unit_keys_set(p: AwardProgress, es: Seq<KeyEntry>)
    requires
        progress_fits(p, es),
    ensures
        unit_keys(p).to_set() == keys_worked(es),
        unit_keys(p).to_set().len() == p.worked,
        keys_worked(es).finite(),
{
    let ks = unit_keys(p);
    assert forall|i: int, j: int| 0 <= i < ks.len() && 0 <= j < ks.len() && i != j implies ks[i]
        != ks[j] by {
        lemma_seq_lt_irreflexive(ks[i]);
        if i < j {
            assert(seq_lt(p.units@[i].key@, p.units@[j].key@));
        } else {
            assert(seq_lt(p.units@[j].key@, p.units@[i].key@));
        }
    }
    assert forall|k: Seq<char>| ks.to_set().contains(k) <==> keys_worked(es).contains(k) by {
        if key_count(es, k) > 0 {
            let i = choose|i: int| 0 <= i < p.units@.len() && #[trigger] p.units@[i].key@ == k;
            assert(ks[i] == k);
        }
        if ks.contains(k) {
            let i = choose|i: int| 0 <= i < ks.len() && ks[i] == k;
            assert(p.units@[i].key@ == k);
        }
    }
    assert(ks.to_set() =~= keys_worked(es));
    ks.unique_seq_to_set();
}

/// Of the units of an award, no more are confirmed than worked, and each
/// was worked at least once and at most once per QSO.
pub proof fn law_confirmed_within_worked(p: AwardProgress, es: Seq<KeyEntry>)
    requires
        progress_fits(p, es),
    ensures
        p.confirmed <= p.worked,
        forall|i: int|
            0 <= i < p.units@.len() ==> 1 <= (#[trigger] p.units@[i]).worked_count <= es.len(),
{
    lemma_confirmed_units_le(p.units@);
    assert forall|i: int| 0 <= i < p.units@.len() implies 1 <= (#[trigger] p.units@[i]).worked_count
        <= es.len() by {
        lemma_key_count_le(es, p.units@[i].key@);
        assert(key_count(es, p.units@[i].key@) > 0);
    }
}

/// Logging one more QSO never takes a unit away from an award and adds
/// at most one.
pub proof fn law_one_more_qso_adds_at_most_one_unit(
    before: AwardProgress,
    after: AwardProgress,
    es: Seq<KeyEntry>,
    e: KeyEntry,
)
    requires
        progress_fits(before, es),
        progress_fits(after, es.push(e)),
    ensures
        before.worked <= after.worked <= before.worked + 1,
{
    lemma_unit_keys_set(before, es);
    lemma_unit_keys_set(after, es.push(e));
    let s1 = keys_worked(es);
    let s2 = keys_worked(es.push(e));
    assert forall|k: Seq<char>| s1.contains(k) implies s2.contains(k) by {
        lemma_step_counts(es, e, k);
    }
    vstd::set_lib::lemma_len_subset(s1, s2);
    match e.0 {
        Some(k0) => {
            assert forall|k: Seq<char>| s2.contains(k) implies s1.insert(k0).contains(k) by {
                lemma_step_counts(es, e, k);
            }
            vstd::set_lib::lemma_len_subset(s2, s1.insert(k0));
        },
        None => {
            assert forall|k: Seq<char>| s2.contains(k) implies s1.contains(k) by {
                lemma_step_counts(es, e, k);
            }
            vstd::set_lib::lemma_len_subset(s2, s1);
        },
    }
}

} // verus!
