//! Where backups are stored, and the entries a listing of a store gives.
use vstd::prelude::*;

pub mod configs;
pub mod io;
pub mod provider;
pub mod serializable_entry;
pub mod storage;
pub mod utils;

verus! {

/// What kind of object an entry is.
#[derive(Debug, Clone, Copy, PartialEq, Eq, Structural)]
pub enum EntryMode {
    FILE,
    DIR,
    Unknown,
}

/// A moment in time: seconds since the Unix epoch and the nanoseconds within
/// that second (below one billion).
#[derive(Debug, Clone, Copy, PartialEq, Eq, Structural)]
pub struct Moment {
    pub secs: i64,
    pub nanos: u32,
}

/// What a store reports of an entry.
#[derive(Debug, Clone)]
pub struct EntryMetadata {
    pub mode: EntryMode,
    pub name: String,
    pub is_file: bool,
    pub is_current: Option<bool>,
    pub is_deleted: bool,
    pub cache_control: Option<String>,
    pub content_disposition: Option<String>,
    pub content_length: u64,
    pub content_md5: Option<String>,
    pub content_type: Option<String>,
    pub content_encoding: Option<String>,
    pub etag: Option<String>,
    pub last_modified: Option<Moment>,
    pub version: Option<String>,
}

/// An object in a store: its path from the store's root and its metadata.
#[derive(Debug, Clone)]
pub struct Entry {
    pub path: String,
    pub metadata: EntryMetadata,
}

} // verus!
