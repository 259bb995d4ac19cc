//! The QSOs the operator has ticked in a list: a set of QSO ids that a
//! click toggles, that a bulk action clears, and that a fresh result
//! list trims to the ids it still holds.
use vstd::prelude::*;

use crate::ids::QsoId;
use crate::qsl_view::contains_id;

verus! {

/// A set of selected QSO ids, each held once.
#[derive(Debug)]
pub struct QsoSelection {
    ids: Vec<QsoId>,
}

impl View for QsoSelection {
    type V = Set<QsoId>;

    closed spec fn view(&self) -> Set<QsoId> {
        self.ids@.to_set()
    }
}

/// `s` with `id` added when it was not there, and removed when it was.
pub open spec fn toggled(s: Set<QsoId>, id: QsoId) -> Set<QsoId> {
    if s.contains(id) {
        s.remove(id)
    } else {
        s.insert(id)
    }
}

impl QsoSelection {
    #[verifier::type_invariant]
    spec fn held_once(self) -> bool {
        self.ids@.no_duplicates()
    }

    /// Nothing selected.
    pub fn new() -> (r: QsoSelection)
        ensures
            r@ == Set::<QsoId>::empty(),
    {
        let r = QsoSelection { ids: Vec::new() };
        assert(r@ =~= Set::<QsoId>::empty());
        r
    }

    /// Whether `id` is selected.
    pub fn contains(&self, id: QsoId) -> (r: bool)
        ensures
            r == self@.contains(id),
    {
        contains_id(&self.ids, id)
    }

    /// How many QSOs are selected.
    pub fn len(&self) -> (r: usize)
        ensures
            r == self@.len(),
    {
        proof {
            use_type_invariant(self);
            self.ids@.unique_seq_to_set();
        }
        self.ids.len()
    }

    /// The selected ids, each once.
    pub fn ids(&self) -> (r: Vec<QsoId>)
        ensures
            r@.to_set() == self@,
            r@.no_duplicates(),
    {
        proof {
            use_type_invariant(self);
        }
        self.ids.clone()
    }

    /// A click on `id`: selects it, or deselects it when it was selected.
    pub fn toggle(&mut self, id: QsoId)
        ensures
            final(self)@ == toggled(old(self)@, id),
    {
        proof {
            use_type_invariant(&*self);
        }
        let n = self.ids.len();
        let mut k: usize = 0;
        let mut found = false;
        while k < n && !found
            invariant
                n == self.ids@.len(),
                k <= n,
                found ==> k < n && self.ids@[k as int] == id,
                !found ==> forall|j: int| 0 <= j < k ==> self.ids@[j] != id,
            decreases (n - k) as int + if found { 0int } else { 1int },
        {
            if self.ids[k] == id {
                found = true;
            } else {
                k = k + 1;
            }
        }
        let ghost before = self.ids@;
        let mut ids = self.ids.clone();
        if found {
            assert(before[k as int] == id);
            ids.remove(k);
            assert forall|x: QsoId| ids@.contains(x) <==> (before.contains(x) && x != id) by {
                if ids@.contains(x) {
                    let j = choose|j: int| 0 <= j < ids@.len() && ids@[j] == x;
                    if j < k {
                        assert(before[j] == x);
                    } else {
                        assert(before[j + 1] == x);
                        assert(j + 1 != k);
                    }
                }
                if before.contains(x) && x != id {
                    let j = choose|j: int| 0 <= j < before.len() && before[j] == x;
                    assert(j != k);
                    if j < k {
                        assert(ids@[j] == x);
                    } else {
                        assert(ids@[j - 1] == x);
                    }
                }
            }
            assert(ids@.no_duplicates()) by {
                assert forall|a: int, b: int| 0 <= a < b < ids@.len() implies ids@[a] != ids@[b] by {
                    let a0 = if a < k { a } else { a + 1 };
                    let b0 = if b < k { b } else { b + 1 };
                    assert(ids@[a] == before[a0]);
                    assert(ids@[b] == before[b0]);
                }
            }
            assert(ids@.to_set() =~= toggled(before.to_set(), id));
        } else {
            assert(!before.contains(id));
            ids.push(id);
            assert(ids@ == before.push(id));
            assert(ids@.no_duplicates()) by {
                assert forall|a: int, b: int| 0 <= a < b < ids@.len() implies ids@[a] != ids@[b] by {
                    if b == before.len() {
                        assert(before[a] != id);
                    }
                }
            }
            assert forall|x: QsoId| ids@.contains(x) <==> (before.contains(x) || x == id) by {
                if ids@.contains(x) {
                    let j = choose|j: int| 0 <= j < ids@.len() && ids@[j] == x;
                    if j < before.len() {
                        assert(before[j] == x);
                    }
                }
                if before.contains(x) {
                    let j = choose|j: int| 0 <= j < before.len() && before[j] == x;
                    assert(ids@[j] == x);
                }
                if x == id {
                    assert(ids@[before.len() as int] == x);
                }
            }
            assert(ids@.to_set() =~= toggled(before.to_set(), id));
        }
        *self = QsoSelection { ids };
    }

    /// Deselects everything.
    pub fn clear(&mut self)
        ensures
            final(self)@ == Set::<QsoId>::empty(),
    {
        *self = QsoSelection::new();
    }

    /// Keeps only the selected ids that `present` holds, as after a new
    /// result list arrives.
    pub fn retain_present(&mut self, present: &Vec<QsoId>)
        ensures
            final(self)@ == old(self)@.intersect(present@.to_set()),
    {
        proof {
            use_type_invariant(&*self);
        }
        let ghost before = self.ids@;
        let mut kept: Vec<QsoId> = Vec::new();
        let mut i: usize = 0;
        while i < self.ids.len()
            invariant
                before == self.ids@,
                before.no_duplicates(),
                i <= before.len(),
                kept@.no_duplicates(),
                forall|x: QsoId|
                    kept@.contains(x) <==> (exists|j: int|
                        0 <= j < i && #[trigger] before[j] == x && present@.contains(x)),
            decreases before.len() - i,
        {
            let id = self.ids[i];
            if contains_id(present, id) {
                assert(!kept@.contains(id)) by {
                    if kept@.contains(id) {
                        let j = choose|j: int| 0 <= j < i && #[trigger] before[j] == id && present@.contains(id);
                        assert(before[j] == before[i as int]);
                    }
                }
                let ghost k0 = kept@;
                kept.push(id);
                assert(kept@.no_duplicates()) by {
                    assert forall|a: int, b: int| 0 <= a < b < kept@.len() implies kept@[a] != kept@[b] by {
                        if b == k0.len() {
                            assert(k0.contains(k0[a]));
                        }
                    }
                }
                assert forall|x: QsoId| kept@.contains(x) <==> (exists|j: int|
                    0 <= j < i + 1 && #[trigger] before[j] == x && present@.contains(x)) by {
                    if kept@.contains(x) {
                        let t = choose|t: int| 0 <= t < kept@.len() && kept@[t] == x;
                        if t < k0.len() {
                            assert(k0.contains(x));
                        } else {
                            assert(before[i as int] == x);
                        }
                    }
                    if exists|j: int| 0 <= j < i + 1 && #[trigger] before[j] == x && present@.contains(x) {
                        let j = choose|j: int| 0 <= j < i + 1 && #[trigger] before[j] == x && present@.contains(x);
                        if j < i {
                            assert(k0.contains(x));
                            let t = choose|t: int| 0 <= t < k0.len() && k0[t] == x;
                            assert(kept@[t] == x);
                        } else {
                            assert(kept@[k0.len() as int] == x);
                        }
                    }
                }
            } else {
                assert forall|x: QsoId| kept@.contains(x) <==> (exists|j: int|
                    0 <= j < i + 1 && #[trigger] before[j] == x && present@.contains(x)) by {
                    if exists|j: int| 0 <= j < i + 1 && #[trigger] before[j] == x && present@.contains(x) {
                        let j = choose|j: int| 0 <= j < i + 1 && #[trigger] before[j] == x && present@.contains(x);
                        if j == i {
                            assert(before[i as int] == id);
                        }
                    }
                }
            }
            i = i + 1;
        }
        assert forall|x: QsoId| kept@.to_set().contains(x) <==> before.to_set().intersect(
            present@.to_set(),
        ).contains(x) by {
            if before.contains(x) && present@.contains(x) {
                let j = choose|j: int| 0 <= j < before.len() && before[j] == x;
                assert(exists|j: int| 0 <= j < before.len() && #[trigger] before[j] == x && present@.contains(x));
            }
        }
        assert(kept@.to_set() =~= before.to_set().intersect(present@.to_set()));
        *self = QsoSelection { ids: kept };
    }
}

/// Two clicks on the same QSO leave the selection as it was.
pub proof fn law_toggle_twice_restores(s: Set<QsoId>, id: QsoId)
    ensures
        toggled(toggled(s, id), id) == s,
{
    assert(toggled(toggled(s, id), id) =~= s);
}

/// A click selects the QSO exactly when it was not selected, and leaves
/// every other QSO as it was.
pub proof fn law_toggle_touches_one(s: Set<QsoId>, id: QsoId, other: QsoId)
    ensures
        toggled(s, id).contains(id) == !s.contains(id),
        other != id ==> toggled(s, id).contains(other) == s.contains(other),
{
}

} // verus!
