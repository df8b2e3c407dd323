use vstd::prelude::*;

verus! {

/// One filesystem entry surfaced to the caller.
#[derive(Clone, Debug)]
pub struct SearchResult {
    pub file_name: String,
    pub file_path: String,
    pub file_size: u64,
    pub is_folder: bool,
    /// A fuzzy-match score for a name search, or the date for an index entry.
    pub score: i64,
    /// Unix seconds.
    pub date_value: i64,
    pub date_kind: String,
    pub file_kind: String,
}

impl SearchResult {
    /// A field-by-field copy of this result.
    pub fn duplicate(&self) -> (r: SearchResult)
        ensures
            r == *self,
    {
        SearchResult {
            file_name: self.file_name.clone(),
            file_path: self.file_path.clone(),
            file_size: self.file_size,
            is_folder: self.is_folder,
            score: self.score,
            date_value: self.date_value,
            date_kind: self.date_kind.clone(),
            file_kind: self.file_kind.clone(),
        }
    }
}

/// Outcome of a file-management operation.
#[derive(Clone, Debug)]
pub struct FileOpResult {
    pub success: bool,
    pub message: String,
    pub affected_count: i32,
}

/// The persisted snapshot: the last full index and when it was taken.
#[derive(Clone, Debug)]
pub struct FileCache {
    pub last_updated: i64,
    pub files: Vec<SearchResult>,
}

impl FileCache {
    /// The cache that stands in for a missing or unreadable snapshot.
    pub fn empty() -> (r: FileCache)
        ensures
            r.last_updated == 0,
            r.files@.len() == 0,
    {
        FileCache { last_updated: 0, files: Vec::new() }
    }
}

/// Which timestamp an entry's date was taken from.
#[derive(PartialEq, Eq, Structural, Clone, Copy, Debug)]
pub enum DateKind {
    Modified,
    Created,
    Unknown,
}

/// What the metadata of an entry says, in whole seconds since the epoch.
/// A timestamp that the platform could not give is 0.
#[derive(Clone, Copy, Debug)]
pub struct EntryStat {
    pub is_dir: bool,
    pub size: u64,
    pub modified: i64,
    pub created: i64,
}

/// One entry as a directory walk visits it.
#[derive(Clone, Debug)]
pub struct WalkEntry {
    /// The base name.
    pub name: String,
    /// The full path.
    pub path: String,
    /// The entry's file type says it is a directory.
    pub type_is_dir: bool,
    /// The metadata, where it could be read.
    pub stat: Option<EntryStat>,
}

/// What a walk's visitor tells the walker after an entry.
#[derive(PartialEq, Eq, Structural, Clone, Copy, Debug)]
pub enum WalkSignal {
    /// Go on visiting entries.
    Continue,
    /// The sink is full: this worker stops.
    Quit,
}

} // verus!
