//! The earlier store, whose objects live under a prefix: how object paths
//! and file names are formed, and what a cleanup of it removes.
use vstd::prelude::*;

use crate::storage::configs::StorageConfig;
use crate::storage::provider::{expired_entries, plan_cleanup, total_length, CleanupPlan};
use crate::storage::{Entry, Moment};
use crate::text::{chars_of, concat_str, owned, starts_with, starts_with_chars, string_from_chars};

verus! {

broadcast use vstd::string::group_string_axioms;

/// A store of the earlier kind.
#[derive(Debug, Clone)]
pub struct Storage {
    pub storage_config: StorageConfig,
}

/// The prefix of a store's objects, empty where none is set.
pub open spec fn prefix_of(config: StorageConfig) -> Seq<char> {
    let p = match config {
        StorageConfig::S3(c) => c.prefix,
        StorageConfig::Local(c) => c.prefix,
    };
    match p {
        Some(t) => t@,
        None => Seq::empty(),
    }
}

/// The file name of an object path: the path without `prefix/` in front, or
/// the path itself where it does not start so.
pub open spec fn file_name_of(prefix: Seq<char>, path: Seq<char>) -> Seq<char> {
    let head = prefix + "/"@;
    if starts_with(path, head) {
        path.subrange(head.len() as int, path.len() as int)
    } else {
        path
    }
}

impl Storage {
    /// The store described by `storage_config`.
    pub fn new(storage_config: StorageConfig) -> (r: Self)
        ensures
            r.storage_config == storage_config,
    {
        Storage { storage_config }
    }

    /// The prefix of the store's objects.
    pub fn get_prefix(&self) -> (r: String)
        ensures
            r@ == prefix_of(self.storage_config),
    {
        let p = match &self.storage_config {
            StorageConfig::S3(c) => &c.prefix,
            StorageConfig::Local(c) => &c.prefix,
        };
        match p {
            Some(t) => t.clone(),
            None => String::new(),
        }
    }

    /// The file name of an object path; see `file_name_of`.
    pub fn get_filename_from_path(&self, path: &str) -> (r: String)
        ensures
            r@ == file_name_of(prefix_of(self.storage_config), path@),
    {
        let prefix = self.get_prefix();
        let head = concat_str(prefix.as_str(), "/");
        let h = chars_of(head.as_str());
        let p = chars_of(path);
        if starts_with_chars(p.as_slice(), h.as_slice()) {
            let mut v: Vec<char> = Vec::new();
            let mut i = h.len();
            while i < p.len()
                invariant
                    h@.len() <= i <= p@.len(),
                    v@ == p@.subrange(h@.len() as int, i as int),
                decreases p@.len() - i,
            {
                v.push(p[i]);
                i = i + 1;
                assert(v@ =~= p@.subrange(h@.len() as int, i as int));
            }
            string_from_chars(v.as_slice())
        } else {
            owned(path)
        }
    }

    /// The path of the object of a file: `prefix/filename`.
    pub fn object_path(&self, filename: &str) -> (r: String)
        ensures
            r@ == prefix_of(self.storage_config) + "/"@ + filename@,
    {
        let prefix = self.get_prefix();
        let head = concat_str(prefix.as_str(), "/");
        concat_str(head.as_str(), filename)
    }

    /// What a cleanup of the store removes: every listed object whose name
    /// carries a time stamp before the cutoff (objects are not told apart
    /// from directories here).
    pub fn cleanup_plan(&self, backups: &Vec<Entry>, cutoff: Moment) -> (plan: CleanupPlan)
        requires
            total_length(expired_entries(backups@, cutoff, false)) <= u64::MAX,
        ensures
            plan.paths@.len() == expired_entries(backups@, cutoff, false).len(),
            forall|i: int|
                0 <= i < plan.paths@.len() ==> #[trigger] plan.paths@[i]@ == expired_entries(backups@, cutoff, false)[i].path@,
            plan.count == expired_entries(backups@, cutoff, false).len(),
            plan.size == total_length(expired_entries(backups@, cutoff, false)),
    {
        plan_cleanup(backups, cutoff, false)
    }
}

/// The file name of the path under which a file is stored is the file name
/// itself.
pub proof fn lemma_object_path_round_trip(prefix: Seq<char>, filename: Seq<char>)
    ensures
        file_name_of(prefix, prefix + "/"@ + filename) == filename,
{
    let head = prefix + "/"@;
    let path = head + filename;
    assert(path.take(head.len() as int) == head);
    assert(path.subrange(head.len() as int, path.len() as int) == filename);
}

} // verus!
