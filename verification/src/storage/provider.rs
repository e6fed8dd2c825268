//! The configuration of a store and the decisions of the worker that serves it:
//! how a listing is filtered and ordered, which backups a cleanup removes, how
//! reads are chunked, and how writer and reader handles are numbered.
use vstd::prelude::*;

use crate::common::{extract_timestamp_from_filename, filename_timestamp};
use crate::storage::{Entry, Moment};
use std::collections::HashSet;

verus! {

broadcast use vstd::seq_lib::group_to_multiset_ensures;

// ---------------------------------------------------------------------------
// Configuration

/// How a store authenticates.
#[derive(Debug, Clone)]
pub enum StorageCredentials {
    /// No credentials at all.
    Anonymous,
    Basic { username: String, password: String },
    AccessKey { access_key: String, secret_key: String },
    PrivateKey { username: String, key_path: String, passphrase: Option<String> },
}

/// The kinds of store.
#[derive(Debug, Clone, Copy, PartialEq, Eq, Structural)]
pub enum StorageType {
    FileSystem,
    S3,
}

/// A store on the local file system, rooted at `location`.
#[derive(Debug, Clone)]
pub struct LocalStorageConfig {
    pub id: String,
    pub name: String,
    pub location: String,
}

/// A bucket of an S3-compatible service; `location` is the root inside it.
#[derive(Debug, Clone)]
pub struct S3StorageConfig {
    pub id: String,
    pub name: String,
    pub region: String,
    pub endpoint: Option<String>,
    pub bucket: String,
    pub access_key: String,
    pub secret_key: String,
    pub location: String,
}

/// Where backups are kept.
#[derive(Debug, Clone)]
pub enum StorageConfig {
    Local(LocalStorageConfig),
    S3(S3StorageConfig),
}

/// How a listing is asked for: only the newest entry, and at most how many
/// entries (also the number the store is asked for per request).
#[derive(Debug, Clone)]
pub struct ListOptions {
    pub latest_only: Option<bool>,
    pub limit: Option<usize>,
}

/// One step of reading a stored object: the bytes of the next chunk, their
/// number, and whether the object has ended.
#[derive(Debug, Clone)]
pub struct StorageProviderReadResponse {
    pub data: Vec<u8>,
    pub size: usize,
    pub is_eof: bool,
}

/// Why a listing gave nothing back.
#[derive(Debug, Clone, Copy, PartialEq, Eq, Structural)]
pub enum ListError {
    /// Only the newest entry was asked for, and the store holds no file.
    NoEntryFound,
}

/// The number of entries the store is asked for per request when the options
/// name none.
pub const DEFAULT_LIST_PAGE_SIZE: usize = 1000;

/// The number of entries asked for per request of the store.
pub fn list_page_size(options: &ListOptions) -> (r: usize)
    ensures
        r == match options.limit {
            Some(n) => n,
            None => DEFAULT_LIST_PAGE_SIZE,
        },
{
    match options.limit {
        Some(n) => n,
        None => DEFAULT_LIST_PAGE_SIZE,
    }
}

/// Whether only the newest entry is asked for.
pub fn wants_latest_only(options: &ListOptions) -> (r: bool)
    ensures
        r == (options.latest_only == Some(true)),
{
    match options.latest_only {
        Some(b) => b,
        None => false,
    }
}

// ---------------------------------------------------------------------------
// Ordering a listing

/// The time by which an entry is ordered: the time stamp in its file name, or
/// the Unix epoch (0) where the name carries none.
#[verifier::opaque]
pub open spec fn sort_key(e: Entry) -> i64 {
    match filename_timestamp(e.metadata.name@) {
        Ok(t) => t,
        Err(_) => 0,
    }
}

/// The entries of `s` that are files, in their order.
pub open spec fn file_entries(s: Seq<Entry>) -> Seq<Entry>
    decreases s.len(),
{
    if s.len() == 0 {
        s
    } else {
        let r = file_entries(s.drop_last());
        if s.last().metadata.is_file {
            r.push(s.last())
        } else {
            r
        }
    }
}

/// Where an entry with key `k` goes into `s`: before the first entry whose key
/// is smaller, so after every entry whose key is at least `k`.
pub open spec fn insert_pos(s: Seq<Entry>, k: i64) -> int
    decreases s.len(),
{
    if s.len() == 0 {
        0
    } else if sort_key(s[0]) < k {
        0
    } else {
        1 + insert_pos(s.subrange(1, s.len() as int), k)
    }
}

/// `s` with `e` put in at `insert_pos`.
pub open spec fn insert_newest_first(s: Seq<Entry>, e: Entry) -> Seq<Entry> {
    s.insert(insert_pos(s, sort_key(e)), e)
}

/// `s` ordered newest first by `sort_key`, entries with equal keys keeping
/// their order (a stable sort, by insertion).
pub open spec fn newest_first(s: Seq<Entry>) -> Seq<Entry>
    decreases s.len(),
{
    if s.len() == 0 {
        s
    } else {
        insert_newest_first(newest_first(s.drop_last()), s.last())
    }
}

/// What a listing of the store's entries `s` answers: its files newest first,
/// or, where only the newest is asked for, that one file.
pub open spec fn listing(s: Seq<Entry>, latest_only: bool) -> Result<Seq<Entry>, ListError> {
    let sorted = newest_first(file_entries(s));
    if !latest_only {
        Ok(sorted)
    } else if sorted.len() == 0 {
        Err(ListError::NoEntryFound)
    } else {
        Ok(seq![sorted[0]])
    }
}

/// Keys never increase along `s`.
pub open spec fn is_newest_first(s: Seq<Entry>) -> bool {
    forall|i: int, j: int| 0 <= i <= j < s.len() ==> sort_key(#[trigger] s[i]) >= sort_key(#[trigger] s[j])
}

/// The entries of `s` whose key is `k`, in their order.
pub open spec fn with_key(s: Seq<Entry>, k: i64) -> Seq<Entry>
    decreases s.len(),
{
    if s.len() == 0 {
        s
    } else {
        let r = with_key(s.drop_last(), k);
        if sort_key(s.last()) == k {
            r.push(s.last())
        } else {
            r
        }
    }
}

proof fn lemma_insert_pos(s: Seq<Entry>, k: i64)
    ensures
        0 <= insert_pos(s, k) <= s.len(),
        forall|j: int| 0 <= j < insert_pos(s, k) ==> sort_key(#[trigger] s[j]) >= k,
        insert_pos(s, k) < s.len() ==> sort_key(s[insert_pos(s, k)]) < k,
    decreases s.len(),
{
    if s.len() > 0 && sort_key(s[0]) >= k {
        let t = s.subrange(1, s.len() as int);
        lemma_insert_pos(t, k);
        assert forall|j: int| 0 <= j < insert_pos(s, k) implies sort_key(#[trigger] s[j]) >= k by {
            if j > 0 {
                assert(s[j] == t[j - 1]);
            }
        }
    }
}

proof fn lemma_insert_pos_unique(s: Seq<Entry>, k: i64, p: int)
    requires
        0 <= p <= s.len(),
        forall|j: int| 0 <= j < p ==> sort_key(#[trigger] s[j]) >= k,
        p < s.len() ==> sort_key(s[p]) < k,
    ensures
        insert_pos(s, k) == p,
{
    lemma_insert_pos(s, k);
    let q = insert_pos(s, k);
    if q < p {
        assert(sort_key(s[q]) >= k);
    }
    if p < q {
        assert(sort_key(s[p]) >= k);
    }
}

proof fn lemma_insert_keeps_order(s: Seq<Entry>, e: Entry)
    requires
        is_newest_first(s),
    ensures
        is_newest_first(insert_newest_first(s, e)),
{
    let k = sort_key(e);
    lemma_insert_pos(s, k);
    let p = insert_pos(s, k);
    let r = insert_newest_first(s, e);
    assert forall|i: int, j: int| 0 <= i <= j < r.len() implies sort_key(#[trigger] r[i]) >= sort_key(#[trigger] r[j]) by {
        if i < p && j < p {
            assert(r[i] == s[i] && r[j] == s[j]);
        } else if i < p && j == p {
            assert(r[i] == s[i]);
        } else if i < p {
            assert(r[i] == s[i] && r[j] == s[j - 1]);
        } else if i == p && j > p {
            assert(r[j] == s[j - 1]);
        } else if i > p {
            assert(r[i] == s[i - 1] && r[j] == s[j - 1]);
        }
    }
}

proof fn lemma_with_key_append(a: Seq<Entry>, b: Seq<Entry>, k: i64)
    ensures
        with_key(a + b, k) == with_key(a, k) + with_key(b, k),
    decreases b.len(),
{
    if b.len() == 0 {
        assert(a + b == a);
        assert(with_key(b, k) == b);
    } else {
        lemma_with_key_append(a, b.drop_last(), k);
        assert((a + b).drop_last() == a + b.drop_last());
        assert((a + b).last() == b.last());
    }
}

proof fn lemma_with_key_none(s: Seq<Entry>, k: i64)
    requires
        forall|j: int| 0 <= j < s.len() ==> sort_key(#[trigger] s[j]) != k,
    ensures
        with_key(s, k) == Seq::<Entry>::empty(),
    decreases s.len(),
{
    if s.len() > 0 {
        lemma_with_key_none(s.drop_last(), k);
        assert(sort_key(s[s.len() - 1]) != k);
    }
}

proof fn lemma_insert_with_key(s: Seq<Entry>, e: Entry, k: i64)
    requires
        is_newest_first(s),
    ensures
        with_key(insert_newest_first(s, e), k) == if sort_key(e) == k {
            with_key(s, k).push(e)
        } else {
            with_key(s, k)
        },
{
    let p = insert_pos(s, sort_key(e));
    lemma_insert_pos(s, sort_key(e));
    let s0 = s.subrange(0, p);
    let s1 = s.subrange(p, s.len() as int);
    assert(s == s0 + s1);
    assert(insert_newest_first(s, e) == s0 + (seq![e] + s1));
    lemma_with_key_append(s0, seq![e] + s1, k);
    lemma_with_key_append(seq![e], s1, k);
    lemma_with_key_append(s0, s1, k);
    assert(seq![e].drop_last() == Seq::<Entry>::empty());
    assert(seq![e].last() == e);
    assert(with_key(Seq::<Entry>::empty(), k) == Seq::<Entry>::empty());
    assert(with_key(seq![e], k) == if sort_key(e) == k { seq![e] } else { Seq::<Entry>::empty() });
    if sort_key(e) == k {
        assert forall|j: int| 0 <= j < s1.len() implies sort_key(#[trigger] s1[j]) != k by {
            assert(s1[j] == s[p + j]);
            assert(sort_key(s[p]) >= sort_key(s[p + j]));
        }
        lemma_with_key_none(s1, k);
        assert(with_key(s1, k) == Seq::<Entry>::empty());
        assert(with_key(s0, k) + (seq![e] + Seq::<Entry>::empty()) == with_key(s0, k).push(e));
        assert(with_key(s0, k) + Seq::<Entry>::empty() == with_key(s0, k));
    } else {
        assert(Seq::<Entry>::empty() + with_key(s1, k) == with_key(s1, k));
    }
}

/// A listing ordered newest first is ordered by key, holds the same entries as
/// before, and keeps the order of entries whose keys are equal.
pub proof fn lemma_newest_first(s: Seq<Entry>)
    ensures
        is_newest_first(newest_first(s)),
        newest_first(s).to_multiset() == s.to_multiset(),
        newest_first(s).len() == s.len(),
        forall|k: i64| #[trigger] with_key(newest_first(s), k) == with_key(s, k),
    decreases s.len(),
{
    if s.len() > 0 {
        let t = s.drop_last();
        lemma_newest_first(t);
        let r = newest_first(t);
        lemma_insert_keeps_order(r, s.last());
        lemma_insert_pos(r, sort_key(s.last()));
        assert(s == t.push(s.last()));
        assert forall|k: i64| #[trigger] with_key(newest_first(s), k) == with_key(s, k) by {
            lemma_insert_with_key(r, s.last(), k);
            assert(with_key(r, k) == with_key(t, k));
        }
    }
}

proof fn lemma_file_entries_are_files(s: Seq<Entry>)
    ensures
        forall|i: int| 0 <= i < file_entries(s).len() ==> (#[trigger] file_entries(s)[i]).metadata.is_file,
    decreases s.len(),
{
    if s.len() > 0 {
        lemma_file_entries_are_files(s.drop_last());
        let r = file_entries(s.drop_last());
        assert forall|i: int| 0 <= i < file_entries(s).len() implies (#[trigger] file_entries(s)[i]).metadata.is_file by {
            if i < r.len() {
                assert(file_entries(s)[i] == r[i]);
            }
        }
    }
}

/// A listing holds only files, ordered newest first; where only the newest is
/// asked for, the answer is the first entry of the full listing, and
/// `NoEntryFound` exactly where the full listing is empty; and so it is under
/// any limit, against the full listing under the same limit.
pub proof fn lemma_listing(s: Seq<Entry>, limit: Option<usize>)
    ensures
        listing(s, false) matches Ok(all) && is_newest_first(all) && forall|i: int|
            0 <= i < all.len() ==> (#[trigger] all[i]).metadata.is_file,
        listing(s, false) matches Ok(all) && (all.len() == 0 ==> listing(s, true) == Err::<Seq<Entry>, ListError>(
            ListError::NoEntryFound,
        )) && (all.len() > 0 ==> listing(s, true) == Ok::<Seq<Entry>, ListError>(seq![all[0]])),
        limited_listing(s, false, limit) matches Ok(all) && (all.len() == 0 ==> limited_listing(s, true, limit)
            == Err::<Seq<Entry>, ListError>(ListError::NoEntryFound)) && (all.len() > 0 ==> limited_listing(
            s,
            true,
            limit,
        ) == Ok::<Seq<Entry>, ListError>(seq![all[0]])),
{
    let f = file_entries(s);
    lemma_file_entries_are_files(s);
    lemma_newest_first(f);
    let all = newest_first(f);
    assert forall|i: int| 0 <= i < all.len() implies (#[trigger] all[i]).metadata.is_file by {
        assert(all.to_multiset().count(all[i]) > 0);
        assert(f.to_multiset().count(all[i]) > 0);
        assert(f.contains(all[i]));
        let j = choose|j: int| 0 <= j < f.len() && f[j] == all[i];
        assert(f[j].metadata.is_file);
    }
}

fn entry_sort_key(e: &Entry) -> (k: i64)
    ensures
        k == sort_key(*e),
{
    proof {
        reveal(sort_key);
    }
    match extract_timestamp_from_filename(e.metadata.name.as_str()) {
        Ok(t) => t,
        Err(_) => 0,
    }
}

/// At most `limit` entries of `s`, the first ones, where a limit is set.
pub open spec fn capped(s: Seq<Entry>, limit: Option<usize>) -> Seq<Entry> {
    match limit {
        Some(k) => if s.len() > k {
            s.take(k as int)
        } else {
            s
        },
        None => s,
    }
}

/// A listing with its limit applied first: the files newest first, capped at
/// the limit; where only the newest is asked for, the first of those, or
/// `NoEntryFound` where the capped listing is empty.
pub open spec fn limited_listing(s: Seq<Entry>, latest_only: bool, limit: Option<usize>) -> Result<Seq<Entry>, ListError> {
    let full = capped(newest_first(file_entries(s)), limit);
    if !latest_only {
        Ok(full)
    } else if full.len() == 0 {
        Err(ListError::NoEntryFound)
    } else {
        Ok(seq![full[0]])
    }
}

/// The files among the listed entries, newest first by the time stamp in their
/// names (entries without one count as made at the Unix epoch; entries with
/// equal times keep the order in which the store listed them), at most `limit`
/// of them, the first ones, where a limit is set. Where only the newest is
/// asked for, the first of those, or `NoEntryFound` where there is none.
pub fn arrange_listing(entries: Vec<Entry>, latest_only: bool, limit: Option<usize>) -> (r: Result<Vec<Entry>, ListError>)
    ensures
        match r {
            Ok(v) => limited_listing(entries@, latest_only, limit) == Ok::<Seq<Entry>, ListError>(v@),
            Err(e) => limited_listing(entries@, latest_only, limit) == Err::<Seq<Entry>, ListError>(e),
        },
        r matches Ok(v) ==> (limit matches Some(k) ==> v@.len() <= k),
        r matches Ok(v) ==> (listing(entries@, latest_only) matches Ok(all) && v@ == all.take(v@.len() as int)),
{
    let ghost all = entries@;
    let mut rest = entries;
    let mut out: Vec<Entry> = Vec::new();
    let mut keys: Vec<i64> = Vec::new();
    let ghost mut taken: int = 0;
    while rest.len() > 0
        invariant
            0 <= taken <= all.len(),
            rest@ == all.subrange(taken, all.len() as int),
            out@ == newest_first(file_entries(all.take(taken))),
            keys@.len() == out@.len(),
            forall|j: int| 0 <= j < keys@.len() ==> keys@[j] == sort_key(#[trigger] out@[j]),
        decreases rest@.len(),
    {
        let e = rest.remove(0);
        let ghost fe = file_entries(all.take(taken));
        proof {
            assert(e == all[taken]);
            assert(all.take(taken + 1).drop_last() == all.take(taken));
            assert(all.take(taken + 1).last() == e);
            taken = taken + 1;
            assert(rest@ == all.subrange(taken, all.len() as int));
            if e.metadata.is_file {
                assert(file_entries(all.take(taken)) == fe.push(e));
                assert(fe.push(e).drop_last() == fe);
                assert(newest_first(fe.push(e)) == insert_newest_first(newest_first(fe), e));
            } else {
                assert(file_entries(all.take(taken)) == fe);
            }
        }
        if e.metadata.is_file {
            let k = entry_sort_key(&e);
            let mut p: usize = 0;
            while p < keys.len() && keys[p] >= k
                invariant
                    p <= keys@.len(),
                    keys@.len() == out@.len(),
                    forall|j: int| 0 <= j < keys@.len() ==> keys@[j] == sort_key(#[trigger] out@[j]),
                    forall|j: int| 0 <= j < p ==> sort_key(#[trigger] out@[j]) >= k,
                decreases keys@.len() - p,
            {
                assert(keys@[p as int] == sort_key(out@[p as int]));
                p = p + 1;
            }
            proof {
                if p < keys@.len() {
                    assert(keys@[p as int] == sort_key(out@[p as int]));
                }
                lemma_insert_pos_unique(out@, k, p as int);
            }
            let ghost before = out@;
            let ghost before_keys = keys@;
            out.insert(p, e);
            keys.insert(p, k);
            proof {
                assert(out@ == insert_newest_first(before, e));
                assert forall|j: int| 0 <= j < keys@.len() implies keys@[j] == sort_key(#[trigger] out@[j]) by {
                    if j < p {
                        assert(keys@[j] == before_keys[j] && out@[j] == before[j]);
                    } else if j > p {
                        assert(keys@[j] == before_keys[j - 1] && out@[j] == before[j - 1]);
                    }
                }
            }
        }
    }
    proof {
        assert(all.take(taken) == all);
    }
    let ghost sorted = out@;
    match limit {
        Some(k) => {
            if out.len() > k {
                out.truncate(k);
            }
        },
        None => {},
    }
    proof {
        assert(out@ == capped(sorted, limit));
        assert(out@ =~= sorted.take(out@.len() as int));
    }
    if !latest_only {
        Ok(out)
    } else if out.len() == 0 {
        Err(ListError::NoEntryFound)
    } else {
        let first = out.remove(0);
        let mut one: Vec<Entry> = Vec::new();
        one.push(first);
        proof {
            assert(one@ == seq![first]);
            assert(seq![first] =~= seq![sorted[0]].take(1));
        }
        Ok(one)
    }
}

// ---------------------------------------------------------------------------
// Cleanup

/// The number of seconds in a day of retention.
pub const SECONDS_PER_DAY: u64 = 86400;

/// `now` moved back by `days` days, or `None` where that lies before the
/// earliest moment the system clock can hold (seconds below `i64::MIN`).
pub open spec fn cutoff_of(now: Moment, days: u64) -> Option<Moment> {
    let secs = now.secs - days * SECONDS_PER_DAY;
    if secs < i64::MIN {
        None
    } else {
        Some(Moment { secs: secs as i64, nanos: now.nanos })
    }
}

/// The moment before which backups are expired: `retention_days` days before
/// `now`, or `None` where the clock cannot go back that far.
pub fn cleanup_cutoff(now: Moment, retention_days: u64) -> (r: Option<Moment>)
    requires
        retention_days * SECONDS_PER_DAY <= u64::MAX,
    ensures
        r == cutoff_of(now, retention_days),
{
    let back: u64 = retention_days * SECONDS_PER_DAY;
    let secs: i128 = now.secs as i128 - back as i128;
    if secs < i64::MIN as i128 {
        None
    } else {
        Some(Moment { secs: secs as i64, nanos: now.nanos })
    }
}

/// Whether a time stamp of whole seconds lies before `m`.
pub open spec fn is_before(t: i64, m: Moment) -> bool {
    t < m.secs || (t == m.secs && m.nanos > 0)
}

/// Whether a cleanup removes `e`: an entry (a file, where only files count)
/// whose name carries a time stamp that lies before the cutoff.
#[verifier::opaque]
pub open spec fn is_expired(e: Entry, cutoff: Moment, files_only: bool) -> bool {
    (!files_only || e.metadata.is_file) && match filename_timestamp(e.metadata.name@) {
        Ok(t) => is_before(t, cutoff),
        Err(_) => false,
    }
}

/// The entries of `s` that a cleanup removes, in their order.
pub open spec fn expired_entries(s: Seq<Entry>, cutoff: Moment, files_only: bool) -> Seq<Entry>
    decreases s.len(),
{
    if s.len() == 0 {
        s
    } else {
        let r = expired_entries(s.drop_last(), cutoff, files_only);
        if is_expired(s.last(), cutoff, files_only) {
            r.push(s.last())
        } else {
            r
        }
    }
}

/// The sum of the content lengths of the entries of `s`.
pub open spec fn total_length(s: Seq<Entry>) -> int
    decreases s.len(),
{
    if s.len() == 0 {
        0
    } else {
        total_length(s.drop_last()) + s.last().metadata.content_length
    }
}

/// What a cleanup removes: the paths of the expired backups, their number and
/// the sum of their sizes.
#[derive(Debug, Clone)]
pub struct CleanupPlan {
    pub paths: Vec<String>,
    pub count: usize,
    pub size: u64,
}

fn entry_is_expired(e: &Entry, cutoff: Moment, files_only: bool) -> (r: bool)
    ensures
        r == is_expired(*e, cutoff, files_only),
{
    proof {
        reveal(is_expired);
    }
    if files_only && !e.metadata.is_file {
        return false;
    }
    match extract_timestamp_from_filename(e.metadata.name.as_str()) {
        Ok(t) => t < cutoff.secs || (t == cutoff.secs && cutoff.nanos > 0),
        Err(_) => false,
    }
}

/// The backups among the listed entries that are older than the cutoff, by the
/// time stamp in their names: their paths in listing order, their number and
/// their total size. Entries whose names carry no valid time stamp are kept,
/// and so are entries that are not files where `files_only` is set.
pub fn plan_cleanup(entries: &Vec<Entry>, cutoff: Moment, files_only: bool) -> (plan: CleanupPlan)
    requires
        total_length(expired_entries(entries@, cutoff, files_only)) <= u64::MAX,
    ensures
        plan.paths@.len() == expired_entries(entries@, cutoff, files_only).len(),
        forall|i: int|
            0 <= i < plan.paths@.len() ==> #[trigger] plan.paths@[i]@ == expired_entries(entries@, cutoff, files_only)[i].path@,
        plan.count == expired_entries(entries@, cutoff, files_only).len(),
        plan.size == total_length(expired_entries(entries@, cutoff, files_only)),
{
    let mut paths: Vec<String> = Vec::new();
    let mut size: u64 = 0;
    let n = entries.len();
    let mut i: usize = 0;
    while i < n
        invariant
            i <= n,
            n == entries@.len(),
            total_length(expired_entries(entries@, cutoff, files_only)) <= u64::MAX,
            paths@.len() == expired_entries(entries@.take(i as int), cutoff, files_only).len(),
            forall|j: int|
                0 <= j < paths@.len() ==> #[trigger] paths@[j]@ == expired_entries(entries@.take(i as int), cutoff, files_only)[j].path@,
            size == total_length(expired_entries(entries@.take(i as int), cutoff, files_only)),
        decreases n - i,
    {
        let ghost before = expired_entries(entries@.take(i as int), cutoff, files_only);
        proof {
            assert(entries@.take(i + 1).drop_last() == entries@.take(i as int));
            assert(entries@.take(i + 1).last() == entries@[i as int]);
            lemma_expired_prefix(entries@, cutoff, files_only, i + 1);
        }
        if entry_is_expired(&entries[i], cutoff, files_only) {
            proof {
                assert(expired_entries(entries@.take(i + 1), cutoff, files_only) == before.push(entries@[i as int]));
                assert(before.push(entries@[i as int]).drop_last() == before);
            }
            size = size + entries[i].metadata.content_length;
            paths.push(entries[i].path.clone());
        }
        i = i + 1;
    }
    proof {
        assert(entries@.take(n as int) == entries@);
    }
    CleanupPlan { count: paths.len(), paths, size }
}

/// The cleanup plan of the listed entries, where the sizes of the expired
/// backups add up to a `u64`; `None` where they do not.
pub fn plan_cleanup_checked(entries: &Vec<Entry>, cutoff: Moment, files_only: bool) -> (r: Option<CleanupPlan>)
    ensures
        r is None <==> total_length(expired_entries(entries@, cutoff, files_only)) > u64::MAX,
        r matches Some(plan) ==> {
            &&& plan.paths@.len() == expired_entries(entries@, cutoff, files_only).len()
            &&& forall|i: int|
                0 <= i < plan.paths@.len() ==> #[trigger] plan.paths@[i]@ == expired_entries(
                    entries@,
                    cutoff,
                    files_only,
                )[i].path@
            &&& plan.count == expired_entries(entries@, cutoff, files_only).len()
            &&& plan.size == total_length(expired_entries(entries@, cutoff, files_only))
        },
{
    let mut sum: u128 = 0;
    let n = entries.len();
    let mut i: usize = 0;
    while i < n
        invariant
            i <= n,
            n == entries@.len(),
            sum == total_length(expired_entries(entries@.take(i as int), cutoff, files_only)),
            sum <= i * 18446744073709551615u128,
        decreases n - i,
    {
        let ghost before = expired_entries(entries@.take(i as int), cutoff, files_only);
        proof {
            assert(entries@.take(i + 1).drop_last() == entries@.take(i as int));
            assert(entries@.take(i + 1).last() == entries@[i as int]);
        }
        if entry_is_expired(&entries[i], cutoff, files_only) {
            proof {
                assert(expired_entries(entries@.take(i + 1), cutoff, files_only) == before.push(entries@[i as int]));
                assert(before.push(entries@[i as int]).drop_last() == before);
            }
            sum = sum + entries[i].metadata.content_length as u128;
        }
        i = i + 1;
    }
    proof {
        assert(entries@.take(n as int) == entries@);
    }
    if sum > 18446744073709551615u128 {
        None
    } else {
        Some(plan_cleanup(entries, cutoff, files_only))
    }
}

proof fn lemma_total_length_prefix(a: Seq<Entry>, b: Seq<Entry>)
    requires
        a.len() <= b.len(),
        a == b.take(a.len() as int),
    ensures
        total_length(a) <= total_length(b),
    decreases b.len(),
{
    if a.len() < b.len() {
        assert(a == b.drop_last().take(a.len() as int));
        lemma_total_length_prefix(a, b.drop_last());
    } else {
        assert(a == b);
    }
}

proof fn lemma_expired_prefix(s: Seq<Entry>, cutoff: Moment, files_only: bool, i: int)
    requires
        0 <= i <= s.len(),
    ensures
        total_length(expired_entries(s.take(i), cutoff, files_only)) <= total_length(expired_entries(s, cutoff, files_only)),
        expired_entries(s.take(i), cutoff, files_only) == expired_entries(s, cutoff, files_only).take(
            expired_entries(s.take(i), cutoff, files_only).len() as int,
        ),
        expired_entries(s.take(i), cutoff, files_only).len() <= expired_entries(s, cutoff, files_only).len(),
    decreases s.len() - i,
{
    if i < s.len() {
        lemma_expired_prefix(s, cutoff, files_only, i + 1);
        let a = expired_entries(s.take(i), cutoff, files_only);
        let b = expired_entries(s.take(i + 1), cutoff, files_only);
        let c = expired_entries(s, cutoff, files_only);
        assert(s.take(i + 1).drop_last() == s.take(i));
        assert(b == a || b == a.push(s[i]));
        assert(a == b.take(a.len() as int));
        assert(a == c.take(a.len() as int));
        lemma_total_length_prefix(a, c);
    } else {
        assert(s.take(i) == s);
        assert(expired_entries(s, cutoff, files_only).take(expired_entries(s, cutoff, files_only).len() as int) == expired_entries(s, cutoff, files_only));
    }
}

/// The entries of `s` that a cleanup leaves in place, in their order.
pub open spec fn kept_entries(s: Seq<Entry>, cutoff: Moment, files_only: bool) -> Seq<Entry>
    decreases s.len(),
{
    if s.len() == 0 {
        s
    } else {
        let r = kept_entries(s.drop_last(), cutoff, files_only);
        if is_expired(s.last(), cutoff, files_only) {
            r
        } else {
            r.push(s.last())
        }
    }
}

/// A cleanup splits the listed entries in two: those it removes and those it
/// keeps, whose numbers and sizes add up to those of the listing; and a second
/// cleanup with the same cutoff, of what the first one kept, removes nothing.
pub proof fn lemma_cleanup_leaves_nothing_expired(s: Seq<Entry>, cutoff: Moment, files_only: bool)
    ensures
        expired_entries(s, cutoff, files_only).len() + kept_entries(s, cutoff, files_only).len() == s.len(),
        total_length(expired_entries(s, cutoff, files_only)) + total_length(kept_entries(s, cutoff, files_only))
            == total_length(s),
        expired_entries(kept_entries(s, cutoff, files_only), cutoff, files_only).len() == 0,
    decreases s.len(),
{
    if s.len() > 0 {
        lemma_cleanup_leaves_nothing_expired(s.drop_last(), cutoff, files_only);
        let k = kept_entries(s.drop_last(), cutoff, files_only);
        let x = s.last();
        let e = expired_entries(s.drop_last(), cutoff, files_only);
        if !is_expired(x, cutoff, files_only) {
            assert(k.push(x).drop_last() == k);
            assert(k.push(x).last() == x);
        } else {
            assert(e.push(x).drop_last() == e);
            assert(e.push(x).last() == x);
        }
    }
}

/// What a cleanup does and reports: it deletes the planned paths, none on a
/// dry run, and reports the number and total size of the expired backups,
/// the same whether it is a dry run or not.
pub fn cleanup_outcome(plan: CleanupPlan, dry_run: bool) -> (r: (Vec<String>, usize, u64))
    ensures
        r.1 == plan.count,
        r.2 == plan.size,
        dry_run ==> r.0@.len() == 0,
        !dry_run ==> r.0@ == plan.paths@,
{
    if dry_run {
        (Vec::new(), plan.count, plan.size)
    } else {
        (plan.paths, plan.count, plan.size)
    }
}

/// Every backup a cleanup removes is a file where only files count, and its
/// name carries a time stamp before the cutoff.
pub proof fn lemma_expired_are_old(s: Seq<Entry>, cutoff: Moment, files_only: bool)
    ensures
        forall|i: int|
            0 <= i < expired_entries(s, cutoff, files_only).len() ==> {
                let e = #[trigger] expired_entries(s, cutoff, files_only)[i];
                &&& (files_only ==> e.metadata.is_file)
                &&& filename_timestamp(e.metadata.name@) matches Ok(t) && is_before(t, cutoff)
            },
    decreases s.len(),
{
    reveal(is_expired);
    if s.len() > 0 {
        lemma_expired_are_old(s.drop_last(), cutoff, files_only);
        let r = expired_entries(s.drop_last(), cutoff, files_only);
        assert forall|i: int| 0 <= i < expired_entries(s, cutoff, files_only).len() implies {
            let e = #[trigger] expired_entries(s, cutoff, files_only)[i];
            &&& (files_only ==> e.metadata.is_file)
            &&& filename_timestamp(e.metadata.name@) matches Ok(t) && is_before(t, cutoff)
        } by {
            if i < r.len() {
                assert(expired_entries(s, cutoff, files_only)[i] == r[i]);
            }
        }
    }
}

// ---------------------------------------------------------------------------
// Reading

/// The largest chunk in which a stored object is read.
pub const READ_CHUNK_LIMIT: u64 = 512;

/// The chunk size for reading an object of `file_size` bytes: the whole object
/// where it is small, else `READ_CHUNK_LIMIT` bytes.
pub fn read_chunk_size(file_size: u64) -> (r: u64)
    ensures
        r == if file_size > READ_CHUNK_LIMIT { READ_CHUNK_LIMIT } else { file_size },
{
    if file_size > READ_CHUNK_LIMIT {
        READ_CHUNK_LIMIT
    } else {
        file_size
    }
}

/// The answer to a read of the next chunk: the chunk's bytes where the stream
/// gave one, else an empty answer that marks the end of the object.
pub fn read_response(chunk: Option<Vec<u8>>) -> (r: StorageProviderReadResponse)
    ensures
        match chunk {
            Some(d) => r.data@ == d@ && r.size == d@.len() && !r.is_eof,
            None => r.data@.len() == 0 && r.size == 0 && r.is_eof,
        },
{
    match chunk {
        Some(data) => {
            let size = data.len();
            StorageProviderReadResponse { data, size, is_eof: false }
        },
        None => StorageProviderReadResponse { data: Vec::new(), size: 0, is_eof: true },
    }
}

// ---------------------------------------------------------------------------
// Handles

/// The numbering of the open writers or readers of a store: each new handle
/// gets the next number, starting at 1, and a number is never given twice.
#[derive(Debug)]
pub struct HandleRegistry {
    next_id: u64,
    open: HashSet<u64>,
}

impl HandleRegistry {
    /// The numbers of the open handles.
    pub closed spec fn ids(&self) -> Set<u64> {
        self.open@
    }

    /// The number the next handle gets.
    pub closed spec fn next(&self) -> u64 {
        self.next_id
    }

    /// Every open number lies below the next one, which is at least 1.
    #[verifier::type_invariant]
    spec fn wf(&self) -> bool {
        &&& self.next_id >= 1
        &&& forall|x: u64| #[trigger] self.open@.contains(x) ==> x < self.next_id
    }

    /// No handle open; the first gets number 1.
    pub fn new() -> (r: Self)
        ensures
            r.ids() == Set::<u64>::empty(),
            r.next() == 1,
    {
        HandleRegistry { next_id: 1, open: HashSet::new() }
    }

    /// Opens a handle under the next number and returns that number.
    pub fn open_handle(&mut self) -> (id: u64)
        requires
            old(self).next() < u64::MAX,
        ensures
            id == old(self).next(),
            !old(self).ids().contains(id),
            final(self).ids() == old(self).ids().insert(id),
            final(self).next() == id + 1,
    {
        broadcast use vstd::std_specs::hash::group_hash_axioms;
        proof {
            use_type_invariant(&*self);
        }
        let id = self.next_id;
        let mut open = HashSet::new();
        std::mem::swap(&mut open, &mut self.open);
        open.insert(id);
        self.next_id = id + 1;
        std::mem::swap(&mut open, &mut self.open);
        id
    }

    /// Whether the handle numbered `id` is open.
    pub fn is_open(&self, id: u64) -> (r: bool)
        ensures
            r == self.ids().contains(id),
    {
        broadcast use vstd::std_specs::hash::group_hash_axioms;
        self.open.contains(&id)
    }

    /// Closes the handle numbered `id`; whether it was open.
    pub fn close_handle(&mut self, id: u64) -> (r: bool)
        ensures
            r == old(self).ids().contains(id),
            final(self).ids() == old(self).ids().remove(id),
            final(self).next() == old(self).next(),
    {
        broadcast use vstd::std_specs::hash::group_hash_axioms;
        proof {
            use_type_invariant(&*self);
        }
        let mut open = HashSet::new();
        std::mem::swap(&mut open, &mut self.open);
        let r = open.remove(&id);
        std::mem::swap(&mut open, &mut self.open);
        r
    }
}

} // verus!
