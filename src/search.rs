//! Name search: which entries match a query, the bounded collection of the
//! matches while a walk goes on, and the ranking of what was collected.
use vstd::prelude::*;
use crate::classify::{best_date, date_kind_label, file_kind_of, get_best_date, get_file_kind};
use crate::model::{DateKind, SearchResult, WalkEntry, WalkSignal};
use crate::outside::{fuzzy_score, smart_fuzzy_score};
use crate::ranking::{is_top_of, rank_by_score, sorted_desc, RankKey, RESULT_LIMIT};
use crate::text::{blank, is_blank};

verus! {

/// The deepest level below the home directory that a name search walks to.
pub const SEARCH_MAX_DEPTH: usize = 6;

/// A name search collects at most this many matches before it stops.
pub const SEARCH_CAP: usize = 2000;

/// `r` describes entry `e` with the given score: what a name search reports
/// for a match. A folder's size is 0. Without metadata the size and the date
/// are 0 and the date is of unknown kind.
pub open spec fn is_search_hit(r: SearchResult, e: WalkEntry, score: i64) -> bool {
    &&& r.file_name == e.name
    &&& r.file_path == e.path
    &&& r.is_folder == e.type_is_dir
    &&& r.score == score
    &&& r.file_kind@ == file_kind_of(e.path@, e.type_is_dir)
    &&& match e.stat {
        Some(st) => {
            &&& r.file_size == if e.type_is_dir { 0 } else { st.size }
            &&& r.date_value == best_date(st.modified, st.created).0
            &&& r.date_kind@ == date_kind_label(best_date(st.modified, st.created).1)
        },
        None => {
            &&& r.file_size == 0
            &&& r.date_value == 0
            &&& r.date_kind@ == date_kind_label(DateKind::Unknown)
        },
    }
}

/// The entry's base name matches the query, with this score.
pub open spec fn name_scores(r: SearchResult, query: Seq<char>) -> bool {
    smart_fuzzy_score(r.file_name@, query) == Some(r.score)
}

/// Tells whether a base name matches a query, without building a result.
pub fn name_matches(name: &str, query: &str) -> (r: bool)
    ensures
        r == smart_fuzzy_score(name@, query@) is Some,
{
    fuzzy_score(name, query).is_some()
}

/// Matches an entry's base name against a query; for a match, the result
/// that describes the entry, with the match score.
pub fn search_hit(e: &WalkEntry, query: &str) -> (r: Option<SearchResult>)
    ensures
        r is Some <==> smart_fuzzy_score(e.name@, query@) is Some,
        r is Some ==> is_search_hit(r->0, *e, smart_fuzzy_score(e.name@, query@)->0),
{
    match fuzzy_score(e.name.as_str(), query) {
        None => None,
        Some(score) => {
            let (file_size, date_value, kind) = match e.stat {
                Some(st) => {
                    let (d, k) = get_best_date(st.modified, st.created);
                    (if e.type_is_dir { 0u64 } else { st.size }, d, k)
                },
                None => (0u64, 0i64, DateKind::Unknown),
            };
            Some(
                SearchResult {
                    file_name: e.name.clone(),
                    file_path: e.path.clone(),
                    file_size,
                    is_folder: e.type_is_dir,
                    score,
                    date_value,
                    date_kind: kind.label(),
                    file_kind: get_file_kind(e.path.as_str(), e.type_is_dir),
                },
            )
        },
    }
}

/// A name search in progress: the query and the matches collected so far.
pub struct SearchSession {
    query: String,
    found: Vec<SearchResult>,
}

impl SearchSession {
    /// The query searched for.
    pub closed spec fn query(&self) -> Seq<char> {
        self.query@
    }

    /// The matches collected so far, in the order they were offered.
    pub closed spec fn found(&self) -> Seq<SearchResult> {
        self.found@
    }

    /// The query is not blank, no more than `SEARCH_CAP` matches are held,
    /// and each holds the score of its name against the query.
    pub closed spec fn wf(&self) -> bool {
        &&& !is_blank(self.query@)
        &&& self.found@.len() <= SEARCH_CAP
        &&& forall|i: int| 0 <= i < self.found@.len() ==> name_scores(#[trigger] self.found@[i], self.query@)
    }

    /// Starts a search for `query`; a query that is empty or holds only
    /// white space starts none.
    pub fn start(query: String) -> (r: Option<SearchSession>)
        ensures
            r is None <==> is_blank(query@),
            r is Some ==> r->0.wf() && r->0.query() == query@ && r->0.found().len() == 0,
    {
        if blank(query.as_str()) {
            None
        } else {
            Some(SearchSession { query, found: Vec::new() })
        }
    }

    /// Offers a visited entry. A match is kept while fewer than `SEARCH_CAP`
    /// are held; a match that finds the collection full tells the walker's
    /// worker to quit.
    pub fn offer(&mut self, e: &WalkEntry) -> (signal: WalkSignal)
        requires
            old(self).wf(),
        ensures
            final(self).wf(),
            final(self).query() == old(self).query(),
            smart_fuzzy_score(e.name@, old(self).query()) is None ==> {
                &&& final(self).found() == old(self).found()
                &&& signal == WalkSignal::Continue
            },
            smart_fuzzy_score(e.name@, old(self).query()) is Some && old(self).found().len() < SEARCH_CAP ==> {
                &&& final(self).found().len() == old(self).found().len() + 1
                &&& final(self).found().take(old(self).found().len() as int) == old(self).found()
                &&& is_search_hit(final(self).found().last(), *e, smart_fuzzy_score(e.name@, old(self).query())->0)
                &&& signal == WalkSignal::Continue
            },
            smart_fuzzy_score(e.name@, old(self).query()) is Some && old(self).found().len() >= SEARCH_CAP ==> {
                &&& final(self).found() == old(self).found()
                &&& signal == WalkSignal::Quit
            },
    {
        match search_hit(e, self.query.as_str()) {
            None => WalkSignal::Continue,
            Some(hit) => {
                if self.found.len() < SEARCH_CAP {
                    let ghost before = self.found@;
                    self.found.push(hit);
                    assert(self.found@.take(before.len() as int) == before);
                    WalkSignal::Continue
                } else {
                    WalkSignal::Quit
                }
            },
        }
    }

    /// Ends the search: the best-scored matches first, at most
    /// `RESULT_LIMIT` of them.
    pub fn finish(self) -> (r: Vec<SearchResult>)
        requires
            self.wf(),
        ensures
            is_top_of(r@, self.found(), RankKey::Score, RESULT_LIMIT as nat),
            forall|i: int| 0 <= i < r@.len() ==> name_scores(#[trigger] r@[i], self.query()),
            sorted_desc(r@, RankKey::Score),
            r@.len() <= RESULT_LIMIT,
            r@.len() <= self.found().len(),
    {
        let ghost q = self.query@;
        let ghost f = self.found@;
        let r = rank_by_score(self.found);
        proof {
            broadcast use vstd::seq_lib::group_to_multiset_ensures;
            assert forall|i: int| 0 <= i < r@.len() implies name_scores(#[trigger] r@[i], q) by {
                assert(r@.to_multiset().count(r@[i]) > 0);
                assert(f.to_multiset().count(r@[i]) > 0);
                assert(f.contains(r@[i]));
            }
        }
        r
    }
}

} // verus!
