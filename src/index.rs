//! The full index: which entries of the curated folders it takes in, how the
//! snapshot is ordered, and the views served from a snapshot.
use vstd::prelude::*;
use crate::classify::{best_date, date_kind_label, file_kind_of, get_best_date, get_file_kind, indexed_extension, is_indexed_extension};
use crate::model::{FileCache, SearchResult, WalkEntry};
use crate::outside::{lower_of, lowercase, path_extension, path_extension_of};
use crate::ranking::{is_ranking_of, is_recent, is_top_of, rank_all, recent_at, recent_from_cache, sorted_desc, RankKey, RESULT_LIMIT};

verus! {

/// The deepest level below a curated folder that the index walks to.
pub const INDEX_MAX_DEPTH: usize = 5;

/// The entry's metadata says it is a directory.
pub open spec fn is_directory(e: WalkEntry) -> bool {
    e.stat is Some && e.stat->0.is_dir
}

/// The index passes a directory whatever its name, and any other entry where
/// it has an extension whose lowercase form is on the list.
pub open spec fn index_passes(e: WalkEntry) -> bool {
    is_directory(e) || match path_extension_of(e.path@) {
        Some(ext) => is_indexed_extension(lower_of(ext)),
        None => false,
    }
}

/// `r` describes entry `e` as the index records it: the score is the date,
/// and a folder's size is 0.
pub open spec fn is_index_entry(r: SearchResult, e: WalkEntry) -> bool {
    &&& e.stat is Some
    &&& r.file_name == e.name
    &&& r.file_path == e.path
    &&& r.is_folder == e.stat->0.is_dir
    &&& r.file_size == if e.stat->0.is_dir { 0 } else { e.stat->0.size }
    &&& r.date_value == best_date(e.stat->0.modified, e.stat->0.created).0
    &&& r.date_kind@ == date_kind_label(best_date(e.stat->0.modified, e.stat->0.created).1)
    &&& r.score == r.date_value
    &&& r.file_kind@ == file_kind_of(e.path@, e.stat->0.is_dir)
}

/// Tells whether the index passes an entry.
pub fn passes_index_filter(e: &WalkEntry) -> (r: bool)
    ensures
        r == index_passes(*e),
{
    if let Some(st) = e.stat {
        if st.is_dir {
            return true;
        }
    }
    match path_extension(e.path.as_str()) {
        Some(ext) => {
            let lower = lowercase(ext.as_str());
            indexed_extension(lower.as_str())
        },
        None => false,
    }
}

/// The record of a visited entry for the index; none for an entry that the
/// filter turns away or whose metadata could not be read.
pub fn index_hit(e: &WalkEntry) -> (r: Option<SearchResult>)
    ensures
        r is Some <==> index_passes(*e) && e.stat is Some,
        r is Some ==> is_index_entry(r->0, *e),
{
    if !passes_index_filter(e) {
        return None;
    }
    match e.stat {
        None => None,
        Some(st) => {
            let (date_value, kind) = get_best_date(st.modified, st.created);
            Some(
                SearchResult {
                    file_name: e.name.clone(),
                    file_path: e.path.clone(),
                    file_size: if st.is_dir { 0 } else { st.size },
                    is_folder: st.is_dir,
                    score: date_value,
                    date_value,
                    date_kind: kind.label(),
                    file_kind: get_file_kind(e.path.as_str(), st.is_dir),
                },
            )
        },
    }
}

/// The snapshot of a full index taken at `now`: every record found, the
/// newest first.
pub fn build_index(found: Vec<SearchResult>, now: i64) -> (r: FileCache)
    ensures
        r.last_updated == now,
        is_ranking_of(r.files@, found@, RankKey::Date),
        r.files@.len() == found@.len(),
{
    let ghost f = found@;
    let files = rank_all(found, RankKey::Date);
    proof {
        broadcast use vstd::seq_lib::group_to_multiset_ensures;
        assert(files@.to_multiset().len() == f.to_multiset().len());
    }
    FileCache { last_updated: now, files }
}

/// The folders that the index walks: documents, downloads and desktop under
/// the home directory.
pub fn scan_folders(home: &str) -> (r: Vec<String>)
    ensures
        r@.len() == 3,
        r@[0]@ == home@ + "/Documents"@,
        r@[1]@ == home@ + "/Downloads"@,
        r@[2]@ == home@ + "/Desktop"@,
{
    let mut documents = String::from_str(home);
    documents.append("/Documents");
    let mut downloads = String::from_str(home);
    downloads.append("/Downloads");
    let mut desktop = String::from_str(home);
    desktop.append("/Desktop");
    let mut r: Vec<String> = Vec::new();
    r.push(documents);
    r.push(downloads);
    r.push(desktop);
    r
}

/// Where the snapshot lives under the home directory.
pub fn cache_path(home: &str) -> (r: String)
    ensures
        r@ == home@ + "/.fast-finder-cache.json"@,
{
    let mut r = String::from_str(home);
    r.append("/.fast-finder-cache.json");
    r
}

impl FileCache {
    /// The snapshot that was read, or the empty one where none could be.
    pub fn or_empty(read: Option<FileCache>) -> (r: FileCache)
        ensures
            read is Some ==> r == read->0,
            read is None ==> r.last_updated == 0 && r.files@.len() == 0,
    {
        match read {
            Some(c) => c,
            None => FileCache::empty(),
        }
    }

    /// The recent-files view of this snapshot at `now`: the records whose
    /// date lies in the last seven days (or later), the newest first, at
    /// most `RESULT_LIMIT` of them.
    pub fn recent_files(&self, now: i64) -> (r: Vec<SearchResult>)
        ensures
            is_top_of(r@, self.files@.filter(recent_at(now)), RankKey::Date, RESULT_LIMIT as nat),
            forall|i: int| 0 <= i < r@.len() ==> is_recent(#[trigger] r@[i], now),
            sorted_desc(r@, RankKey::Date),
            r@.len() <= RESULT_LIMIT,
    {
        recent_from_cache(&self.files, now)
    }
}

/// The index as a snapshot holds it: its records, or none where no snapshot
/// could be read.
pub fn cached_files(read: Option<FileCache>) -> (r: Vec<SearchResult>)
    ensures
        read is Some ==> r == read->0.files,
        read is None ==> r@.len() == 0,
{
    FileCache::or_empty(read).files
}

} // verus!
