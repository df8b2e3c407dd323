//! A desktop file-search engine: the verified core.
//!
//! The library holds the policies of the engine: how an entry is classified,
//! which timestamp counts as its date, which entries a name search or the
//! index accepts, how results are collected under a bound, and how they are
//! ranked. The walk over the disk, the threads and the cache file are the
//! caller's; it hands each visited entry to the library as plain values.

pub mod model;
pub mod text;
pub mod classify;
pub mod outside;
pub mod ranking;
pub mod search;
pub mod index;
pub mod laws;
pub mod fileops;

pub use model::{DateKind, EntryStat, FileCache, FileOpResult, SearchResult, WalkEntry, WalkSignal};
pub use classify::{get_best_date, get_file_kind};
pub use search::{name_matches, search_hit, SearchSession, SEARCH_CAP, SEARCH_MAX_DEPTH};
pub use index::{build_index, cache_path, cached_files, index_hit, scan_folders, INDEX_MAX_DEPTH};
pub use ranking::{rank_by_score, RESULT_LIMIT, RECENT_WINDOW_SECS};
pub use fileops::{trash_name, FileOp};
