//! The state of the logbook search drawer and of the QSL view, and what
//! each button press and each answer from storage does to it. Answers are
//! stamped with the generation of the search that asked; an answer from
//! an older search changes nothing.
use vstd::prelude::*;

use crate::ids::QsoId;
use crate::import::opt_view;
use crate::qsl_view::{service_key, QslServiceFilter};
use crate::qso::Qso;
use crate::queries::{QsoSearch, QsoSummary};
use crate::selection::QsoSelection;
use crate::ui::{build_logbook_search, search_for_form, LogbookSearchResult, SearchForm};
use crate::value::string_of;

verus! {

/// The ids of the QSOs of a result list.
pub open spec fn summary_ids(rs: Seq<QsoSummary>) -> Set<QsoId> {
    rs.map_values(|q: QsoSummary| q.id).to_set()
}

/// The ids of the QSOs of a pending list.
pub open spec fn qso_ids(rs: Seq<Qso>) -> Set<QsoId> {
    rs.map_values(|q: Qso| q.id).to_set()
}

/// The generation after `g`, wrapping at the top.
pub open spec fn next_generation(g: u64) -> u64 {
    if g == u64::MAX {
        0
    } else {
        (g + 1) as u64
    }
}

fn summary_id_list(rs: &Vec<QsoSummary>) -> (r: Vec<QsoId>)
    ensures
        r@ == rs@.map_values(|q: QsoSummary| q.id),
{
    let mut r: Vec<QsoId> = Vec::new();
    let mut i: usize = 0;
    while i < rs.len()
        invariant
            i <= rs@.len(),
            r@ == rs@.take(i as int).map_values(|q: QsoSummary| q.id),
        decreases rs@.len() - i,
    {
        r.push(rs[i].id);
        i = i + 1;
        assert(r@ =~= rs@.take(i as int).map_values(|q: QsoSummary| q.id));
    }
    assert(rs@.take(rs@.len() as int) =~= rs@);
    r
}

fn qso_id_list(rs: &Vec<Qso>) -> (r: Vec<QsoId>)
    ensures
        r@ == rs@.map_values(|q: Qso| q.id),
{
    let mut r: Vec<QsoId> = Vec::new();
    let mut i: usize = 0;
    while i < rs.len()
        invariant
            i <= rs@.len(),
            r@ == rs@.take(i as int).map_values(|q: Qso| q.id),
        decreases rs@.len() - i,
    {
        r.push(rs[i].id);
        i = i + 1;
        assert(r@ =~= rs@.take(i as int).map_values(|q: Qso| q.id));
    }
    assert(rs@.take(rs@.len() as int) =~= rs@);
    r
}

/// The logbook search drawer: its filter form, the last results and how
/// many QSOs matched in all, whether a search runs, the ticked rows, the
/// generation of the last search, and the outcome of the last action.
#[derive(Debug)]
pub struct LogbookSearchState {
    pub form: SearchForm,
    pub results: Vec<QsoSummary>,
    pub total_count: Option<usize>,
    pub searching: bool,
    pub selected: QsoSelection,
    pub generation: u64,
    pub last_action: Option<String>,
}

impl LogbookSearchState {
    /// The drawer before any search: the given form, nothing found,
    /// nothing ticked, generation zero.
    pub fn new(form: SearchForm) -> (r: LogbookSearchState)
        ensures
            r.form == form,
            r.results@.len() == 0,
            r.total_count is None,
            !r.searching,
            r.selected@ == Set::<QsoId>::empty(),
            r.generation == 0,
            r.last_action is None,
    {
        LogbookSearchState {
            form,
            results: Vec::new(),
            total_count: None,
            searching: false,
            selected: QsoSelection::new(),
            generation: 0,
            last_action: None,
        }
    }

    /// Search pressed: the next generation, a search running, and the
    /// query the form asks for, stamped with that generation.
    pub fn start_search(&mut self) -> (r: (u64, QsoSearch))
        ensures
            final(self).generation == next_generation(old(self).generation),
            r.0 == final(self).generation,
            search_for_form(r.1, old(self).form),
            final(self).searching,
            final(self).form == old(self).form,
            final(self).results == old(self).results,
            final(self).total_count == old(self).total_count,
            final(self).selected@ == old(self).selected@,
            final(self).last_action == old(self).last_action,
    {
        self.generation = self.generation.wrapping_add(1);
        self.searching = true;
        let search = build_logbook_search(&self.form);
        (self.generation, search)
    }

    /// The answer to the search of generation `generation`. An answer to
    /// an older search changes nothing. Otherwise the search is over;
    /// results replace the old ones, the ticks on QSOs no longer listed
    /// are dropped; an error is reported as the last action.
    pub fn finish_search(&mut self, generation: u64, result: Result<LogbookSearchResult, String>)
        ensures
            generation != old(self).generation ==> {
                &&& final(self).searching == old(self).searching
                &&& final(self).results == old(self).results
                &&& final(self).total_count == old(self).total_count
                &&& final(self).selected@ == old(self).selected@
                &&& final(self).last_action == old(self).last_action
            },
            generation == old(self).generation ==> {
                &&& !final(self).searching
                &&& match result {
                    Ok(found) => {
                        &&& final(self).results == found.results
                        &&& final(self).total_count == Some(found.total)
                        &&& final(self).selected@ == old(self).selected@.intersect(summary_ids(found.results@))
                        &&& final(self).last_action == old(self).last_action
                    },
                    Err(e) => {
                        &&& final(self).results == old(self).results
                        &&& final(self).total_count == old(self).total_count
                        &&& final(self).selected@ == old(self).selected@
                        &&& final(self).last_action matches Some(m) && m@ == "search error: "@ + e@
                    },
                }
            },
            final(self).form == old(self).form,
            final(self).generation == old(self).generation,
    {
        if generation != self.generation {
            return;
        }
        self.searching = false;
        match result {
            Ok(found) => {
                let ids = summary_id_list(&found.results);
                self.selected.retain_present(&ids);
                self.results = found.results;
                self.total_count = Some(found.total);
            },
            Err(e) => {
                let mut m = string_of("search error: ");
                m.append(e.as_str());
                self.last_action = Some(m);
            },
        }
    }

    /// The outcome of a bulk action started under generation
    /// `generation`, and whether the search runs again. An outcome from
    /// before the last search changes nothing and runs nothing; otherwise
    /// it becomes the last action, the ticks are cleared, and the search
    /// runs again.
    pub fn finish_bulk(&mut self, generation: u64, result: Result<String, String>) -> (rerun: bool)
        ensures
            rerun == (generation == old(self).generation),
            !rerun ==> final(self).selected@ == old(self).selected@ && final(self).last_action
                == old(self).last_action,
            rerun ==> {
                &&& final(self).selected@ == Set::<QsoId>::empty()
                &&& final(self).last_action matches Some(m) && m@ == match result {
                    Ok(s) => s@,
                    Err(e) => "bulk error: "@ + e@,
                }
            },
            final(self).form == old(self).form,
            final(self).results == old(self).results,
            final(self).total_count == old(self).total_count,
            final(self).searching == old(self).searching,
            final(self).generation == old(self).generation,
    {
        if generation != self.generation {
            return false;
        }
        let message = match result {
            Ok(m) => m,
            Err(e) => {
                let mut m = string_of("bulk error: ");
                m.append(e.as_str());
                m
            },
        };
        self.last_action = Some(message);
        self.selected.clear();
        true
    }
}

/// The QSL view: the service filter, the QSOs pending upload to it,
/// whether they are being read, the ticked rows, and the outcome of the
/// last action.
#[derive(Debug)]
pub struct QslViewState {
    pub service_filter: QslServiceFilter,
    pub pending: Vec<Qso>,
    pub loading_pending: bool,
    pub selected: QsoSelection,
    pub last_action: Option<String>,
}

impl QslViewState {
    /// The view before anything was read: any service, nothing pending.
    pub fn new() -> (r: QslViewState)
        ensures
            r.service_filter.0 is None,
            r.pending@.len() == 0,
            !r.loading_pending,
            r.selected@ == Set::<QsoId>::empty(),
            r.last_action is None,
    {
        QslViewState {
            service_filter: QslServiceFilter(None),
            pending: Vec::new(),
            loading_pending: false,
            selected: QsoSelection::new(),
            last_action: None,
        }
    }

    /// Whether entering the view reads the pending list: when nothing is
    /// listed and nothing is being read.
    pub fn refresh_due_on_entry(&self) -> (r: bool)
        ensures
            r == (self.pending@.len() == 0 && !self.loading_pending),
    {
        self.pending.len() == 0 && !self.loading_pending
    }

    /// A refresh of the pending list: under a service filter, the
    /// service whose pending QSOs to read, with the list marked as being
    /// read; under "any service", the list is emptied and nothing is read.
    pub fn start_pending_refresh(&mut self) -> (r: Option<&'static str>)
        ensures
            match old(self).service_filter.0 {
                Some(s) => {
                    &&& r matches Some(k) && k@ == service_key(s)
                    &&& final(self).loading_pending
                    &&& final(self).pending == old(self).pending
                },
                None => {
                    &&& r is None
                    &&& final(self).pending@.len() == 0
                    &&& final(self).loading_pending == old(self).loading_pending
                },
            },
            final(self).service_filter == old(self).service_filter,
            final(self).selected@ == old(self).selected@,
            final(self).last_action == old(self).last_action,
    {
        match self.service_filter.0 {
            Some(s) => {
                self.loading_pending = true;
                Some(s.key())
            },
            None => {
                self.pending = Vec::new();
                None
            },
        }
    }

    /// Another service filter: the ticks, which name QSOs of the old list,
    /// are cleared, and the list is read again.
    pub fn change_filter(&mut self, filter: QslServiceFilter) -> (r: Option<&'static str>)
        ensures
            final(self).service_filter == filter,
            final(self).selected@ == Set::<QsoId>::empty(),
            match filter.0 {
                Some(s) => r matches Some(k) && k@ == service_key(s) && final(self).loading_pending,
                None => r is None && final(self).pending@.len() == 0,
            },
            final(self).last_action == old(self).last_action,
    {
        self.service_filter = filter;
        self.selected.clear();
        self.start_pending_refresh()
    }

    /// The pending list that was read, or why it could not be: the list
    /// replaces the old one, ticks on QSOs no longer listed are dropped
    /// and the last action is forgotten; an error becomes the last action.
    pub fn finish_pending_refresh(&mut self, result: Result<Vec<Qso>, String>)
        ensures
            !final(self).loading_pending,
            final(self).service_filter == old(self).service_filter,
            match result {
                Ok(rows) => {
                    &&& final(self).pending == rows
                    &&& final(self).selected@ == old(self).selected@.intersect(qso_ids(rows@))
                    &&& final(self).last_action is None
                },
                Err(e) => {
                    &&& final(self).pending == old(self).pending
                    &&& final(self).selected@ == old(self).selected@
                    &&& final(self).last_action matches Some(m) && m@ == "refresh error: "@ + e@
                },
            },
    {
        self.loading_pending = false;
        match result {
            Ok(rows) => {
                let ids = qso_id_list(&rows);
                self.selected.retain_present(&ids);
                self.pending = rows;
                self.last_action = None;
            },
            Err(e) => {
                let mut m = string_of("refresh error: ");
                m.append(e.as_str());
                self.last_action = Some(m);
            },
        }
    }

    /// The outcome of a bulk action: it becomes the last action and the
    /// ticks are cleared.
    pub fn finish_bulk(&mut self, result: Result<String, String>)
        ensures
            final(self).selected@ == Set::<QsoId>::empty(),
            final(self).last_action matches Some(m) && m@ == match result {
                Ok(s) => s@,
                Err(e) => "bulk error: "@ + e@,
            },
            final(self).service_filter == old(self).service_filter,
            final(self).pending == old(self).pending,
            final(self).loading_pending == old(self).loading_pending,
    {
        let message = match result {
            Ok(m) => m,
            Err(e) => {
                let mut m = string_of("bulk error: ");
                m.append(e.as_str());
                m
            },
        };
        self.last_action = Some(message);
        self.selected.clear();
    }
}

} // verus!
