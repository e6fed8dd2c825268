//! Entries of a store in the form handed to a user interface: the mode as
//! text and the modification time in RFC 3339.
use vstd::prelude::*;

use crate::storage::{Entry, EntryMetadata, EntryMode, Moment};
use crate::text::{owned, str_eq};

verus! {

broadcast use vstd::string::group_string_axioms;

/// The RFC 3339 text of a moment, as chrono writes a UTC date and time
/// (`DateTime::<Utc>::to_rfc3339`), where chrono can represent the moment.
pub uninterp spec fn chrono_rfc3339(secs: i64, nanos: u32) -> Option<Seq<char>>;

/// Writes a moment as RFC 3339 text with chrono
/// (`DateTime::from_timestamp(secs, nanos)` then `to_rfc3339`). The contract
/// names the result: the calendar arithmetic and the layout are chrono's.
#[verifier::external_body]
fn rfc3339_text(secs: i64, nanos: u32) -> (r: Option<String>)
    ensures
        match r {
            Some(s) => chrono_rfc3339(secs, nanos) == Some(s@),
            None => chrono_rfc3339(secs, nanos) is None,
        },
{
    chrono::DateTime::from_timestamp(secs, nanos).map(|t| t.to_rfc3339())
}

/// The text of a mode: `FILE`, `DIR` or `UNKNOWN`.
pub open spec fn mode_text(mode: EntryMode) -> Seq<char> {
    match mode {
        EntryMode::FILE => "FILE"@,
        EntryMode::DIR => "DIR"@,
        EntryMode::Unknown => "UNKNOWN"@,
    }
}

/// An entry as handed to a user interface.
#[derive(Debug, Clone)]
pub struct SerializableEntry {
    path: String,
    metadata: SerializableMetadata,
}

/// The metadata of an entry as handed to a user interface.
#[derive(Debug, Clone)]
pub struct SerializableMetadata {
    pub mode: String,
    pub is_current: Option<bool>,
    pub is_deleted: bool,
    pub cache_control: Option<String>,
    pub content_disposition: Option<String>,
    pub content_length: u64,
    pub content_md5: Option<String>,
    pub content_type: Option<String>,
    pub content_encoding: Option<String>,
    pub etag: Option<String>,
    pub last_modified: Option<String>,
    pub version: Option<String>,
    pub user_metadata: Option<Vec<(String, String)>>,
}

/// The modification time as text: RFC 3339 where there is a time that chrono
/// can write.
pub open spec fn last_modified_text(m: Option<Moment>) -> Option<Seq<char>> {
    match m {
        Some(t) => chrono_rfc3339(t.secs, t.nanos),
        None => None,
    }
}

/// `r` is the form of `m` with the user metadata `user`.
pub open spec fn metadata_form(r: SerializableMetadata, m: EntryMetadata, user: Option<Vec<(String, String)>>) -> bool {
    &&& r.mode@ == mode_text(m.mode)
    &&& r.is_current == m.is_current
    &&& r.is_deleted == m.is_deleted
    &&& r.cache_control == m.cache_control
    &&& r.content_disposition == m.content_disposition
    &&& r.content_length == m.content_length
    &&& r.content_md5 == m.content_md5
    &&& r.content_type == m.content_type
    &&& r.content_encoding == m.content_encoding
    &&& r.etag == m.etag
    &&& match r.last_modified {
        Some(t) => last_modified_text(m.last_modified) == Some(t@),
        None => last_modified_text(m.last_modified) is None,
    }
    &&& r.version == m.version
    &&& r.user_metadata == user
}

impl SerializableMetadata {
    /// The form of `metadata`, with the user metadata of the entry.
    pub fn from_metadata(metadata: EntryMetadata, user_metadata: Option<Vec<(String, String)>>) -> (r: Self)
        ensures
            metadata_form(r, metadata, user_metadata),
    {
        let mode = match metadata.mode {
            EntryMode::FILE => owned("FILE"),
            EntryMode::DIR => owned("DIR"),
            EntryMode::Unknown => owned("UNKNOWN"),
        };
        let last_modified = match metadata.last_modified {
            Some(t) => rfc3339_text(t.secs, t.nanos),
            None => None,
        };
        SerializableMetadata {
            mode,
            is_current: metadata.is_current,
            is_deleted: metadata.is_deleted,
            cache_control: metadata.cache_control,
            content_disposition: metadata.content_disposition,
            content_length: metadata.content_length,
            content_md5: metadata.content_md5,
            content_type: metadata.content_type,
            content_encoding: metadata.content_encoding,
            etag: metadata.etag,
            last_modified,
            version: metadata.version,
            user_metadata,
        }
    }

    /// Whether the entry is a file: its mode is `FILE`.
    pub fn is_file(&self) -> (r: bool)
        ensures
            r == (self.mode@ == "FILE"@),
    {
        str_eq(self.mode.as_str(), "FILE")
    }

    /// Whether the entry is a directory: its mode is `DIR`.
    pub fn is_dir(&self) -> (r: bool)
        ensures
            r == (self.mode@ == "DIR"@),
    {
        str_eq(self.mode.as_str(), "DIR")
    }

    /// The content length of the entry.
    pub fn content_length(&self) -> (r: u64)
        ensures
            r == self.content_length,
    {
        self.content_length
    }

    /// The content type of the entry.
    pub fn content_type(&self) -> (r: Option<&str>)
        ensures
            match self.content_type {
                Some(t) => r matches Some(x) && x@ == t@,
                None => r is None,
            },
    {
        match &self.content_type {
            Some(t) => Some(t.as_str()),
            None => None,
        }
    }

    /// The modification time as RFC 3339 text.
    pub fn last_modified(&self) -> (r: Option<&str>)
        ensures
            match self.last_modified {
                Some(t) => r matches Some(x) && x@ == t@,
                None => r is None,
            },
    {
        match &self.last_modified {
            Some(t) => Some(t.as_str()),
            None => None,
        }
    }

    /// The entity tag of the entry.
    pub fn etag(&self) -> (r: Option<&str>)
        ensures
            match self.etag {
                Some(t) => r matches Some(x) && x@ == t@,
                None => r is None,
            },
    {
        match &self.etag {
            Some(t) => Some(t.as_str()),
            None => None,
        }
    }
}

impl SerializableEntry {
    /// The form of `entry`, with its user metadata.
    pub fn from_entry(entry: Entry, user_metadata: Option<Vec<(String, String)>>) -> (r: Self)
        ensures
            r.path_spec() == entry.path,
            metadata_form(r.metadata_spec(), entry.metadata, user_metadata),
    {
        let metadata = SerializableMetadata::from_metadata(entry.metadata, user_metadata);
        SerializableEntry { path: entry.path, metadata }
    }

    /// The path of the entry, from the root of the store.
    pub closed spec fn path_spec(&self) -> String {
        self.path
    }

    /// The metadata of the entry.
    pub closed spec fn metadata_spec(&self) -> SerializableMetadata {
        self.metadata
    }

    /// The path of the entry, from the root of the store.
    pub fn path(&self) -> (r: &str)
        ensures
            r@ == self.path_spec()@,
    {
        self.path.as_str()
    }

    /// The metadata of the entry.
    pub fn metadata(&self) -> (r: &SerializableMetadata)
        ensures
            *r == self.metadata_spec(),
    {
        &self.metadata
    }
}

} // verus!
