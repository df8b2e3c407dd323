//! Ordering results: by score for a name search, by date for the index and
//! the recent-files view.
use vstd::prelude::*;
use crate::model::SearchResult;

verus! {

/// At most this many results come out of a name search or the recent view.
pub const RESULT_LIMIT: usize = 50;

/// The trailing window, in seconds, in which a file counts as recent.
pub const RECENT_WINDOW_SECS: i64 = 604800;

/// What results are ranked by.
#[derive(PartialEq, Eq, Structural, Clone, Copy, Debug)]
pub enum RankKey {
    Score,
    Date,
}

pub open spec fn key_of(r: SearchResult, k: RankKey) -> i64 {
    match k {
        RankKey::Score => r.score,
        RankKey::Date => r.date_value,
    }
}

/// `s` is in descending order of the key (equal keys in any order).
pub open spec fn sorted_desc(s: Seq<SearchResult>, k: RankKey) -> bool {
    forall|i: int, j: int| 0 <= i < j < s.len() ==> key_of(s[i], k) >= key_of(s[j], k)
}

/// `s` holds the results of `v`, each as often, in descending order of the key.
pub open spec fn is_ranking_of(s: Seq<SearchResult>, v: Seq<SearchResult>, k: RankKey) -> bool {
    s.to_multiset() == v.to_multiset() && sorted_desc(s, k)
}

/// `r` is the first `n` results (or all, where there are fewer) of some
/// descending arrangement of `v`.
pub open spec fn is_top_of(r: Seq<SearchResult>, v: Seq<SearchResult>, k: RankKey, n: nat) -> bool {
    exists|s: Seq<SearchResult>|
        #![trigger is_ranking_of(s, v, k)]
        is_ranking_of(s, v, k) && r == s.take(if v.len() < n { v.len() as int } else { n as int })
}

/// Relies on `slice::sort_by`: it reorders the results so that, under the
/// comparison given, each is not less than the next; the results themselves
/// stay as they were.
#[verifier::external_body]
fn sort_by_score_desc(v: &mut Vec<SearchResult>)
    ensures
        is_ranking_of(final(v)@, old(v)@, RankKey::Score),
{
    v.sort_by(|a, b| b.score.cmp(&a.score));
}

/// Relies on `slice::sort_by`: it reorders the results so that, under the
/// comparison given, each is not less than the next; the results themselves
/// stay as they were.
#[verifier::external_body]
fn sort_by_date_desc(v: &mut Vec<SearchResult>)
    ensures
        is_ranking_of(final(v)@, old(v)@, RankKey::Date),
{
    v.sort_by(|a, b| b.date_value.cmp(&a.date_value));
}

/// Puts results in descending order of the key.
pub fn rank_all(v: Vec<SearchResult>, k: RankKey) -> (r: Vec<SearchResult>)
    ensures
        is_ranking_of(r@, v@, k),
{
    let mut v = v;
    match k {
        RankKey::Score => sort_by_score_desc(&mut v),
        RankKey::Date => sort_by_date_desc(&mut v),
    }
    v
}

/// The `n` results with the highest key, in descending order.
pub fn top_n(v: Vec<SearchResult>, k: RankKey, n: usize) -> (r: Vec<SearchResult>)
    ensures
        is_top_of(r@, v@, k, n as nat),
        r@.len() == if v@.len() < n { v@.len() } else { n as nat },
        sorted_desc(r@, k),
        r@.to_multiset().subset_of(v@.to_multiset()),
{
    let ghost v0 = v@;
    let mut s = rank_all(v, k);
    let ghost s0 = s@;
    proof {
        broadcast use vstd::seq_lib::group_to_multiset_ensures;
        s0.to_multiset_ensures();
        v0.to_multiset_ensures();
    }
    s.truncate(n);
    let ghost m: int = if v0.len() < n { v0.len() as int } else { n as int };
    assert(s@ == s0.take(m));
    proof {
        lemma_take_multiset_subset(s0, m);
    }
    s
}

/// The first `m` elements of a sequence are among its elements.
proof fn lemma_take_multiset_subset(s: Seq<SearchResult>, m: int)
    requires
        0 <= m <= s.len(),
    ensures
        s.take(m).to_multiset().subset_of(s.to_multiset()),
    decreases s.len() - m,
{
    broadcast use vstd::seq_lib::group_to_multiset_ensures;
    if m < s.len() {
        lemma_take_multiset_subset(s, m + 1);
        assert(s.take(m + 1) == s.take(m).push(s[m]));
    } else {
        assert(s.take(m) == s);
    }
}

/// The results of a name search as the caller sees them: the best-scored
/// first, at most `RESULT_LIMIT` of them.
pub fn rank_by_score(v: Vec<SearchResult>) -> (r: Vec<SearchResult>)
    ensures
        is_top_of(r@, v@, RankKey::Score, RESULT_LIMIT as nat),
        r@.len() <= RESULT_LIMIT,
        r@.len() <= v@.len(),
        sorted_desc(r@, RankKey::Score),
        r@.to_multiset().subset_of(v@.to_multiset()),
{
    top_n(v, RankKey::Score, RESULT_LIMIT)
}

/// The result's date lies in the recent window ending at `now`.
pub open spec fn is_recent(f: SearchResult, now: i64) -> bool {
    f.date_value > now - RECENT_WINDOW_SECS
}

/// The recent window ending at `now`, as a predicate.
pub open spec fn recent_at(now: i64) -> spec_fn(SearchResult) -> bool {
    |f: SearchResult| is_recent(f, now)
}

/// Tells whether a result's date lies in the recent window ending at `now`.
pub fn recent(f: &SearchResult, now: i64) -> (r: bool)
    ensures
        r == is_recent(*f, now),
{
    (f.date_value as i128) > (now as i128) - (RECENT_WINDOW_SECS as i128)
}

/// The results whose date lies in the recent window ending at `now`, in
/// their order.
pub fn keep_recent(files: &Vec<SearchResult>, now: i64) -> (r: Vec<SearchResult>)
    ensures
        r@ == files@.filter(recent_at(now)),
{
    let mut kept: Vec<SearchResult> = Vec::new();
    let mut i: usize = 0;
    while i < files.len()
        invariant
            i <= files@.len(),
            kept@ == files@.take(i as int).filter(recent_at(now)),
        decreases files@.len() - i,
    {
        proof {
            files@.take(i as int).lemma_filter_push(files@[i as int], recent_at(now));
            assert(files@.take(i as int + 1) == files@.take(i as int).push(files@[i as int]));
        }
        let keep = recent(&files[i], now);
        assert(keep == is_recent(files@[i as int], now));
        assert(keep == recent_at(now)(files@[i as int]));
        if keep {
            kept.push(files[i].duplicate());
        }
        i = i + 1;
    }
    assert(files@.take(files@.len() as int) == files@);
    kept
}

/// The recent-files view over a cached index: the results whose date lies
/// in the last seven days before `now` (or later), the newest first, at most
/// `RESULT_LIMIT` of them.
pub fn recent_from_cache(files: &Vec<SearchResult>, now: i64) -> (r: Vec<SearchResult>)
    ensures
        is_top_of(r@, files@.filter(recent_at(now)), RankKey::Date, RESULT_LIMIT as nat),
        forall|i: int| 0 <= i < r@.len() ==> is_recent(#[trigger] r@[i], now),
        sorted_desc(r@, RankKey::Date),
        r@.len() <= RESULT_LIMIT,
{
    let kept = keep_recent(files, now);
    let ghost k0 = kept@;
    let r = top_n(kept, RankKey::Date, RESULT_LIMIT);
    proof {
        broadcast use vstd::seq_lib::group_to_multiset_ensures;
        assert forall|i: int| 0 <= i < r@.len() implies is_recent(#[trigger] r@[i], now) by {
            assert(r@.to_multiset().count(r@[i]) > 0);
            assert(k0.to_multiset().count(r@[i]) > 0);
            assert(k0.contains(r@[i]));
            let j = choose|j: int| 0 <= j < k0.len() && k0[j] == r@[i];
            files@.lemma_filter_pred(recent_at(now), j);
        }
    }
    r
}

} // verus!
