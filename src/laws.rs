//! Properties that hold across the library's functions.
use vstd::prelude::*;
use crate::classify::best_date;
use crate::model::{DateKind, SearchResult};
use crate::ranking::{is_recent, is_top_of, recent_at, sorted_desc, RankKey};

verus! {

/// A ranked selection is in descending order of its key, holds no more than
/// was asked for nor more than it was drawn from, and holds only what it was
/// drawn from.
pub proof fn lemma_top_bounds(r: Seq<SearchResult>, v: Seq<SearchResult>, k: RankKey, n: nat)
    requires
        is_top_of(r, v, k, n),
    ensures
        sorted_desc(r, k),
        r.len() <= n,
        r.len() <= v.len(),
        forall|i: int| 0 <= i < r.len() ==> v.contains(#[trigger] r[i]),
{
    broadcast use vstd::seq_lib::group_to_multiset_ensures;
    let s = choose|s: Seq<SearchResult>| #![trigger crate::ranking::is_ranking_of(s, v, k)]
        crate::ranking::is_ranking_of(s, v, k) && r == s.take(if v.len() < n { v.len() as int } else { n as int });
    assert(s.len() == v.len()) by {
        assert(s.to_multiset().len() == v.to_multiset().len());
    }
    assert forall|i: int| 0 <= i < r.len() implies v.contains(#[trigger] r[i]) by {
        assert(r[i] == s[i]);
        assert(s.to_multiset().count(s[i]) > 0);
        assert(v.to_multiset().count(s[i]) > 0);
    }
}

/// Where no more were collected than may be returned, a ranked selection
/// returns every one of them, each as often as it was collected.
pub proof fn lemma_top_keeps_all_when_few(r: Seq<SearchResult>, v: Seq<SearchResult>, k: RankKey, n: nat)
    requires
        is_top_of(r, v, k, n),
        v.len() <= n,
    ensures
        r.to_multiset() == v.to_multiset(),
        r.len() == v.len(),
{
    broadcast use vstd::seq_lib::group_to_multiset_ensures;
    let s = choose|s: Seq<SearchResult>| #![trigger crate::ranking::is_ranking_of(s, v, k)]
        crate::ranking::is_ranking_of(s, v, k) && r == s.take(if v.len() < n { v.len() as int } else { n as int });
    assert(s.len() == v.len()) by {
        assert(s.to_multiset().len() == v.to_multiset().len());
    }
    assert(r == s);
}

/// The recent view drawn from a snapshot holds only records of the snapshot
/// that lie in the window.
pub proof fn lemma_recent_view_from_snapshot(r: Seq<SearchResult>, files: Seq<SearchResult>, now: i64, n: nat)
    requires
        is_top_of(r, files.filter(recent_at(now)), RankKey::Date, n),
    ensures
        forall|i: int| 0 <= i < r.len() ==> files.contains(#[trigger] r[i]) && is_recent(r[i], now),
        r.len() <= n,
        sorted_desc(r, RankKey::Date),
{
    let f = files.filter(recent_at(now));
    lemma_top_bounds(r, f, RankKey::Date, n);
    assert forall|i: int| 0 <= i < r.len() implies files.contains(#[trigger] r[i]) && is_recent(r[i], now) by {
        assert(f.contains(r[i]));
        let j = choose|j: int| 0 <= j < f.len() && f[j] == r[i];
        files.lemma_filter_pred(recent_at(now), j);
        files.lemma_filter_contains_rev(recent_at(now), r[i]);
    }
}

/// The best date is the larger of the two times, and it is tagged as a
/// creation date exactly when creation is strictly later.
pub proof fn lemma_best_date_is_later_time(modified: i64, created: i64)
    ensures
        best_date(modified, created).0 >= modified,
        best_date(modified, created).0 >= created,
        best_date(modified, created).0 == modified || best_date(modified, created).0 == created,
        best_date(modified, created).1 == DateKind::Created <==> created > modified,
        best_date(modified, created).1 != DateKind::Unknown,
{
}

} // verus!
