//! Backups kept in an S3 bucket under `prefix/type/db-timestamp-uuid.gz`:
//! how a key is read, which objects a listing keeps, how they are ordered,
//! and the newest backup of each database.
use vstd::prelude::*;

use crate::storage::Moment;
use crate::text::{chars_of, concat_str, find_char, find_char_at, str_eq, string_from_chars};

verus! {

broadcast use vstd::string::group_string_axioms;

/// A backup found in the bucket.
#[derive(Debug, Clone)]
pub struct BackupInfo {
    pub key: String,
    pub size: i64,
    pub last_modified: Moment,
    pub db_name: String,
    pub backup_type: String,
    pub timestamp: String,
}

/// An object listed in the bucket: its key, size and modification time.
#[derive(Debug, Clone)]
pub struct ListedObject {
    pub key: String,
    pub size: i64,
    pub last_modified: Moment,
}

/// The prefix a listing asks for: the type narrows it, and the database
/// narrows it further only together with a type.
pub open spec fn listing_prefix(prefix: Seq<char>, backup_type: Option<Seq<char>>, db_name: Option<Seq<char>>) -> Seq<char> {
    match (backup_type, db_name) {
        (Some(t), Some(d)) => prefix + "/"@ + t + "/"@ + d,
        (Some(t), None) => prefix + "/"@ + t,
        _ => prefix,
    }
}

/// The text of an optional string slice.
pub open spec fn opt_text(o: Option<&str>) -> Option<Seq<char>> {
    match o {
        Some(s) => Some(s@),
        None => None,
    }
}

/// See `listing_prefix`.
pub fn list_prefix(prefix: &str, backup_type: Option<&str>, db_name: Option<&str>) -> (r: String)
    ensures
        r@ == listing_prefix(prefix@, match backup_type {
            Some(s) => Some(s@),
            None => None,
        }, match db_name {
            Some(s) => Some(s@),
            None => None,
        }),
{
    match (backup_type, db_name) {
        (Some(t), Some(d)) => {
            let a = concat_str(prefix, "/");
            let b = concat_str(a.as_str(), t);
            let c = concat_str(b.as_str(), "/");
            concat_str(c.as_str(), d)
        },
        (Some(t), None) => {
            let a = concat_str(prefix, "/");
            concat_str(a.as_str(), t)
        },
        _ => crate::text::owned(prefix),
    }
}

/// The index of the last `c` in `s`, or -1.
pub open spec fn last_index_of(s: Seq<char>, c: char) -> int
    decreases s.len(),
{
    if s.len() == 0 {
        -1
    } else if s.last() == c {
        s.len() - 1
    } else {
        last_index_of(s.drop_last(), c)
    }
}

proof fn lemma_last_index_of(s: Seq<char>, c: char)
    ensures
        -1 <= last_index_of(s, c) < s.len(),
        last_index_of(s, c) >= 0 ==> s[last_index_of(s, c)] == c,
        forall|j: int| last_index_of(s, c) < j < s.len() ==> s[j] != c,
    decreases s.len(),
{
    if s.len() > 0 && s.last() != c {
        lemma_last_index_of(s.drop_last(), c);
        assert forall|j: int| last_index_of(s, c) < j < s.len() implies s[j] != c by {
            if j < s.len() - 1 {
                assert(s[j] == s.drop_last()[j]);
            }
        }
    }
}

fn last_index_at(s: &[char], c: char) -> (r: Option<usize>)
    ensures
        match r {
            Some(i) => last_index_of(s@, c) == i,
            None => last_index_of(s@, c) == -1,
        },
{
    let mut i: usize = s.len();
    proof {
        assert(s@.take(i as int) == s@);
    }
    while i > 0
        invariant
            i <= s@.len(),
            last_index_of(s@, c) == last_index_of(s@.take(i as int), c),
        decreases i,
    {
        let ghost t = s@.take(i as int);
        if s[i - 1] == c {
            return Some(i - 1);
        }
        proof {
            assert(t.drop_last() == s@.take(i - 1));
        }
        i = i - 1;
    }
    None
}

/// Whether a key ends in `.gz`.
pub open spec fn is_gz_key(key: Seq<char>) -> bool {
    key.len() >= 3 && key.subrange(key.len() - 3, key.len() as int) == ".gz"@
}

/// The file name of a key: the text after its last `/`.
pub open spec fn key_file_name(key: Seq<char>) -> Seq<char> {
    key.subrange(last_index_of(key, '/') + 1, key.len() as int)
}

/// The directory part of a key: the text before its last `/`.
pub open spec fn key_dir(key: Seq<char>) -> Seq<char> {
    key.subrange(0, last_index_of(key, '/'))
}

/// Whether a key has at least three `/`-separated parts.
pub open spec fn has_three_parts(key: Seq<char>) -> bool {
    last_index_of(key, '/') >= 0 && last_index_of(key_dir(key), '/') >= 0
}

/// What a key says of its backup, where it reads as
/// `.../type/db-timestamp...`: the type (the part before the file name), the
/// database (the file name up to its first `-`) and the time stamp (the file
/// name from its first `-` to its last `.`, or to its end).
pub open spec fn parsed_key(key: Seq<char>) -> Option<(Seq<char>, Seq<char>, Seq<char>)> {
    let f = key_file_name(key);
    let dash = find_char(f, '-', 0);
    if !has_three_parts(key) || dash >= f.len() {
        None
    } else {
        let dir = key_dir(key);
        let t = dir.subrange(last_index_of(dir, '/') + 1, dir.len() as int);
        let dot = last_index_of(f, '.');
        let stamp = if dot >= 0 { f.subrange(dash + 1, dot) } else { f.subrange(dash + 1, f.len() as int) };
        Some((t, f.subrange(0, dash), stamp))
    }
}

/// A key whose file name has a `-` reads without error only where its last
/// `.` does not come before the character after its first `-`.
pub open spec fn key_readable(key: Seq<char>) -> bool {
    let f = key_file_name(key);
    let dash = find_char(f, '-', 0);
    let dot = last_index_of(f, '.');
    has_three_parts(key) && dash < f.len() && dot >= 0 ==> dot >= dash + 1
}

fn slice_text(s: &Vec<char>, from: usize, to: usize) -> (r: String)
    requires
        from <= to <= s@.len(),
    ensures
        r@ == s@.subrange(from as int, to as int),
{
    let mut v: Vec<char> = Vec::new();
    let mut i = from;
    while i < to
        invariant
            from <= i <= to <= s@.len(),
            v@ == s@.subrange(from as int, i as int),
        decreases to - i,
    {
        v.push(s[i]);
        i = i + 1;
        assert(v@ =~= s@.subrange(from as int, i as int));
    }
    string_from_chars(v.as_slice())
}

/// Reads a key; see `parsed_key`.
pub fn parse_key(key: &str) -> (r: Option<(String, String, String)>)
    requires
        key_readable(key@),
    ensures
        match r {
            Some((t, d, s)) => parsed_key(key@) == Some((t@, d@, s@)),
            None => parsed_key(key@) is None,
        },
{
    let k = chars_of(key);
    let klen = k.len();
    let slash = match last_index_at(k.as_slice(), '/') {
        Some(i) => i,
        None => return None,
    };
    proof {
        lemma_last_index_of(k@, '/');
    }
    let mut dir: Vec<char> = Vec::new();
    let mut i: usize = 0;
    while i < slash
        invariant
            i <= slash < k@.len(),
            dir@ == k@.subrange(0, i as int),
        decreases slash - i,
    {
        dir.push(k[i]);
        i = i + 1;
        assert(dir@ =~= k@.subrange(0, i as int));
    }
    let mut file: Vec<char> = Vec::new();
    let mut j: usize = slash + 1;
    while j < k.len()
        invariant
            slash < j <= k@.len(),
            file@ == k@.subrange(slash + 1, j as int),
        decreases k@.len() - j,
    {
        file.push(k[j]);
        j = j + 1;
        assert(file@ =~= k@.subrange(slash + 1, j as int));
    }
    proof {
        assert(dir@ == key_dir(key@));
        assert(file@ == key_file_name(key@));
    }
    let dir_slash = match last_index_at(dir.as_slice(), '/') {
        Some(i) => i,
        None => return None,
    };
    proof {
        lemma_last_index_of(dir@, '/');
    }
    let dash = find_char_at(file.as_slice(), '-', 0);
    if dash >= file.len() {
        return None;
    }
    let t = slice_text(&dir, dir_slash + 1, dir.len());
    let d = slice_text(&file, 0, dash);
    proof {
        assert(has_three_parts(key@));
        assert(key_readable(key@));
    }
    let stamp = match last_index_at(file.as_slice(), '.') {
        Some(dot) => {
            proof {
                let f = key_file_name(key@);
                assert(f == file@);
                assert(find_char(f, '-', 0) == dash);
                assert(last_index_of(f, '.') == dot);
                assert(dot >= dash + 1);
                lemma_last_index_of(file@, '.');
            }
            slice_text(&file, dash + 1, dot)
        },
        None => slice_text(&file, dash + 1, file.len()),
    };
    Some((t, d, stamp))
}

/// The backup an object stands for, under the filters of a listing: a `.gz`
/// key that reads as a backup, of the type and the database asked for, where
/// they were.
pub open spec fn backup_of_object(
    key: Seq<char>,
    backup_type: Option<Seq<char>>,
    db_name: Option<Seq<char>>,
) -> Option<(Seq<char>, Seq<char>, Seq<char>)> {
    if !is_gz_key(key) {
        None
    } else {
        match parsed_key(key) {
            None => None,
            Some((t, d, s)) => if (backup_type is None || backup_type == Some(t)) && (db_name is None || db_name
                == Some(d)) {
                Some((t, d, s))
            } else {
                None
            },
        }
    }
}

fn ends_with_gz(key: &str) -> (r: bool)
    ensures
        r == is_gz_key(key@),
{
    let k = chars_of(key);
    let n = k.len();
    if n < 3 {
        return false;
    }
    let r = k[n - 3] == '.' && k[n - 2] == 'g' && k[n - 1] == 'z';
    proof {
        reveal_strlit(".gz");
        if r {
            assert(k@.subrange(n - 3, n as int) =~= ".gz"@);
        } else {
            if k@.subrange(n - 3, n as int) == ".gz"@ {
                assert(k@.subrange(n - 3, n as int)[0] == '.');
                assert(k@.subrange(n - 3, n as int)[1] == 'g');
                assert(k@.subrange(n - 3, n as int)[2] == 'z');
            }
        }
    }
    r
}

/// The backup an object stands for; see `backup_of_object`.
pub fn backup_from_object(object: ListedObject, backup_type: Option<&str>, db_name: Option<&str>) -> (r: Option<BackupInfo>)
    requires
        key_readable(object.key@),
    ensures
        match r {
            Some(b) => {
                &&& backup_of_object(object.key@, opt_text(backup_type), opt_text(db_name)) == Some((b.backup_type@, b.db_name@, b.timestamp@))
                &&& b.key == object.key
                &&& b.size == object.size
                &&& b.last_modified == object.last_modified
            },
            None => backup_of_object(object.key@, opt_text(backup_type), opt_text(db_name)) is None,
        },
{
    if !ends_with_gz(object.key.as_str()) {
        return None;
    }
    let (t, d, s) = match parse_key(object.key.as_str()) {
        Some(p) => p,
        None => return None,
    };
    let type_ok = match backup_type {
        Some(bt) => str_eq(t.as_str(), bt),
        None => true,
    };
    let db_ok = match db_name {
        Some(dn) => str_eq(d.as_str(), dn),
        None => true,
    };
    if type_ok && db_ok {
        Some(BackupInfo { key: object.key, size: object.size, last_modified: object.last_modified, db_name: d, backup_type: t, timestamp: s })
    } else {
        None
    }
}

// ---------------------------------------------------------------------------
// Newest first

/// Whether `a` lies before `b`.
pub open spec fn moment_before(a: Moment, b: Moment) -> bool {
    a.secs < b.secs || (a.secs == b.secs && a.nanos < b.nanos)
}

/// Where a backup modified at `m` goes into `s`: before the first backup
/// modified before it.
pub open spec fn backup_insert_pos(s: Seq<BackupInfo>, m: Moment) -> int
    decreases s.len(),
{
    if s.len() == 0 {
        0
    } else if moment_before(s[0].last_modified, m) {
        0
    } else {
        1 + backup_insert_pos(s.subrange(1, s.len() as int), m)
    }
}

/// `s` ordered newest first by modification time, backups modified at the
/// same moment keeping their order.
pub open spec fn backups_newest_first(s: Seq<BackupInfo>) -> Seq<BackupInfo>
    decreases s.len(),
{
    if s.len() == 0 {
        s
    } else {
        let r = backups_newest_first(s.drop_last());
        r.insert(backup_insert_pos(r, s.last().last_modified), s.last())
    }
}

/// The first `limit` backups of `s` where `limit` is set (above 0) and `s` is
/// longer, else `s`.
pub open spec fn limited(s: Seq<BackupInfo>, limit: usize) -> Seq<BackupInfo> {
    if limit > 0 && s.len() > limit {
        s.take(limit as int)
    } else {
        s
    }
}

proof fn lemma_backup_insert_pos(s: Seq<BackupInfo>, m: Moment)
    ensures
        0 <= backup_insert_pos(s, m) <= s.len(),
        forall|j: int| 0 <= j < backup_insert_pos(s, m) ==> !moment_before(#[trigger] s[j].last_modified, m),
        backup_insert_pos(s, m) < s.len() ==> moment_before(s[backup_insert_pos(s, m)].last_modified, m),
    decreases s.len(),
{
    if s.len() > 0 && !moment_before(s[0].last_modified, m) {
        let t = s.subrange(1, s.len() as int);
        lemma_backup_insert_pos(t, m);
        assert forall|j: int| 0 <= j < backup_insert_pos(s, m) implies !moment_before(#[trigger] s[j].last_modified, m) by {
            if j > 0 {
                assert(s[j] == t[j - 1]);
            }
        }
    }
}

proof fn lemma_backup_insert_pos_unique(s: Seq<BackupInfo>, m: Moment, p: int)
    requires
        0 <= p <= s.len(),
        forall|j: int| 0 <= j < p ==> !moment_before(#[trigger] s[j].last_modified, m),
        p < s.len() ==> moment_before(s[p].last_modified, m),
    ensures
        backup_insert_pos(s, m) == p,
{
    lemma_backup_insert_pos(s, m);
    let q = backup_insert_pos(s, m);
    if q < p {
        assert(!moment_before(s[q].last_modified, m));
    }
    if p < q {
        assert(!moment_before(s[p].last_modified, m));
    }
}

proof fn lemma_backup_insert_keeps_order(s: Seq<BackupInfo>, b: BackupInfo)
    requires
        forall|i: int, j: int| 0 <= i < j < s.len() ==> !moment_before(#[trigger] s[i].last_modified, #[trigger] s[j].last_modified),
    ensures
        ({
            let r = s.insert(backup_insert_pos(s, b.last_modified), b);
            forall|i: int, j: int| 0 <= i < j < r.len() ==> !moment_before(#[trigger] r[i].last_modified, #[trigger] r[j].last_modified)
        }),
{
    let m = b.last_modified;
    lemma_backup_insert_pos(s, m);
    let p = backup_insert_pos(s, m);
    let r = s.insert(p, b);
    assert forall|i: int, j: int| 0 <= i < j < r.len() implies !moment_before(#[trigger] r[i].last_modified, #[trigger] r[j].last_modified) by {
        if j < p {
            assert(r[i] == s[i] && r[j] == s[j]);
        } else if j == p {
            assert(r[i] == s[i]);
            assert(r[j] == b);
        } else if i < p {
            assert(r[i] == s[i] && r[j] == s[j - 1]);
            assert(moment_before(s[p].last_modified, m));
            if p < j - 1 {
                assert(!moment_before(s[p].last_modified, s[j - 1].last_modified));
            }
        } else if i == p {
            assert(r[i] == b && r[j] == s[j - 1]);
            assert(moment_before(s[p].last_modified, m));
            if p < j - 1 {
                assert(!moment_before(s[p].last_modified, s[j - 1].last_modified));
            }
        } else {
            assert(r[i] == s[i - 1] && r[j] == s[j - 1]);
        }
    }
}

/// The backups of `s` modified at `m`, in their order.
pub open spec fn modified_at(s: Seq<BackupInfo>, m: Moment) -> Seq<BackupInfo>
    decreases s.len(),
{
    if s.len() == 0 {
        s
    } else {
        let r = modified_at(s.drop_last(), m);
        if s.last().last_modified == m {
            r.push(s.last())
        } else {
            r
        }
    }
}

proof fn lemma_modified_at_append(a: Seq<BackupInfo>, b: Seq<BackupInfo>, m: Moment)
    ensures
        modified_at(a + b, m) == modified_at(a, m) + modified_at(b, m),
    decreases b.len(),
{
    if b.len() == 0 {
        assert(a + b == a);
        assert(modified_at(a, m) + modified_at(b, m) == modified_at(a, m));
    } else {
        lemma_modified_at_append(a, b.drop_last(), m);
        assert((a + b).drop_last() == a + b.drop_last());
        assert((a + b).last() == b.last());
    }
}

proof fn lemma_modified_at_none(s: Seq<BackupInfo>, m: Moment)
    requires
        forall|j: int| 0 <= j < s.len() ==> (#[trigger] s[j]).last_modified != m,
    ensures
        modified_at(s, m) == Seq::<BackupInfo>::empty(),
    decreases s.len(),
{
    if s.len() > 0 {
        lemma_modified_at_none(s.drop_last(), m);
        assert(s[s.len() - 1].last_modified != m);
    }
}

proof fn lemma_insert_modified_at(s: Seq<BackupInfo>, b: BackupInfo, m: Moment)
    requires
        forall|i: int, j: int| 0 <= i < j < s.len() ==> !moment_before(#[trigger] s[i].last_modified, #[trigger] s[j].last_modified),
    ensures
        modified_at(s.insert(backup_insert_pos(s, b.last_modified), b), m) == if b.last_modified == m {
            modified_at(s, m).push(b)
        } else {
            modified_at(s, m)
        },
{
    let p = backup_insert_pos(s, b.last_modified);
    lemma_backup_insert_pos(s, b.last_modified);
    let s0 = s.subrange(0, p);
    let s1 = s.subrange(p, s.len() as int);
    assert(s == s0 + s1);
    assert(s.insert(p, b) == s0 + (seq![b] + s1));
    lemma_modified_at_append(s0, seq![b] + s1, m);
    lemma_modified_at_append(seq![b], s1, m);
    lemma_modified_at_append(s0, s1, m);
    assert(seq![b].drop_last() == Seq::<BackupInfo>::empty());
    assert(seq![b].last() == b);
    assert(modified_at(Seq::<BackupInfo>::empty(), m) == Seq::<BackupInfo>::empty());
    assert(modified_at(seq![b], m) == if b.last_modified == m { seq![b] } else { Seq::<BackupInfo>::empty() });
    if b.last_modified == m {
        assert forall|j: int| 0 <= j < s1.len() implies (#[trigger] s1[j]).last_modified != m by {
            assert(s1[j] == s[p + j]);
            assert(moment_before(s[p].last_modified, m));
            if j > 0 {
                assert(!moment_before(s[p].last_modified, s[p + j].last_modified));
            }
        }
        lemma_modified_at_none(s1, m);
        assert(modified_at(s0, m) + (seq![b] + Seq::<BackupInfo>::empty()) == modified_at(s0, m).push(b));
        assert(modified_at(s0, m) + Seq::<BackupInfo>::empty() == modified_at(s0, m));
    } else {
        assert(Seq::<BackupInfo>::empty() + modified_at(s1, m) == modified_at(s1, m));
    }
}

/// Ordering backups newest first keeps the same backups, no backup comes
/// before one modified after it, and backups modified at the same moment keep
/// their listing order.
pub proof fn lemma_backups_newest_first(s: Seq<BackupInfo>)
    ensures
        forall|m: Moment| #[trigger] modified_at(backups_newest_first(s), m) == modified_at(s, m),
        backups_newest_first(s).len() == s.len(),
        backups_newest_first(s).to_multiset() == s.to_multiset(),
        forall|i: int, j: int|
            0 <= i < j < backups_newest_first(s).len() ==> !moment_before(
                #[trigger] backups_newest_first(s)[i].last_modified,
                #[trigger] backups_newest_first(s)[j].last_modified,
            ),
    decreases s.len(),
{
    broadcast use vstd::seq_lib::group_to_multiset_ensures;

    if s.len() > 0 {
        let t = s.drop_last();
        lemma_backups_newest_first(t);
        let r = backups_newest_first(t);
        lemma_backup_insert_keeps_order(r, s.last());
        lemma_backup_insert_pos(r, s.last().last_modified);
        assert(s == t.push(s.last()));
        assert forall|m: Moment| #[trigger] modified_at(backups_newest_first(s), m) == modified_at(s, m) by {
            lemma_insert_modified_at(r, s.last(), m);
        }
    }
}

/// What a listing of backups with a limit gives: the backups found, newest
/// first; all of them where the limit is 0 or not reached, else exactly
/// `limit` of them; and none found is left out while an older one is given,
/// so a limit of 1 gives a newest backup.
pub proof fn lemma_limited_listing_is_the_newest(found: Seq<BackupInfo>, limit: usize)
    ensures
        ({
            let r = limited(backups_newest_first(found), limit);
            &&& r.len() == if limit > 0 && found.len() > limit { limit as int } else { found.len() as int }
            &&& r.to_multiset().subset_of(found.to_multiset())
            &&& forall|i: int, j: int| 0 <= i < j < r.len() ==> !moment_before(#[trigger] r[i].last_modified, #[trigger] r[j].last_modified)
            &&& forall|i: int, c: BackupInfo|
                0 <= i < r.len() && found.contains(c) && #[trigger] moment_before(#[trigger] r[i].last_modified, c.last_modified)
                    ==> r.contains(c)
        }),
{
    broadcast use vstd::seq_lib::group_to_multiset_ensures;

    lemma_backups_newest_first(found);
    let full = backups_newest_first(found);
    let r = limited(full, limit);
    let k = r.len() as int;
    assert(full == r + full.skip(k));
    vstd::seq_lib::lemma_multiset_commutative(r, full.skip(k));
    assert forall|i: int, j: int| 0 <= i < j < r.len() implies !moment_before(#[trigger] r[i].last_modified, #[trigger] r[j].last_modified) by {
        assert(r[i] == full[i] && r[j] == full[j]);
    }
    assert forall|i: int, c: BackupInfo|
        0 <= i < r.len() && found.contains(c) && #[trigger] moment_before(#[trigger] r[i].last_modified, c.last_modified)
        implies r.contains(c) by {
        assert(found.to_multiset().count(c) > 0);
        assert(full.to_multiset().count(c) > 0);
        assert(full.contains(c));
        let q = choose|q: int| 0 <= q < full.len() && full[q] == c;
        assert(r[i] == full[i]);
        if q >= k {
            assert(!moment_before(full[i].last_modified, full[q].last_modified));
        }
        assert(r[q] == c);
    }
}

/// What a backup found in a listing holds, by views.
pub open spec fn info_view(b: BackupInfo) -> (Seq<char>, i64, Moment, Seq<char>, Seq<char>, Seq<char>) {
    (b.key@, b.size, b.last_modified, b.backup_type@, b.db_name@, b.timestamp@)
}

/// The backups the listed objects stand for under the filters, in listing
/// order: each object's key, size and time with what its key says of it.
pub open spec fn selected_views(
    objects: Seq<ListedObject>,
    backup_type: Option<Seq<char>>,
    db_name: Option<Seq<char>>,
) -> Seq<(Seq<char>, i64, Moment, Seq<char>, Seq<char>, Seq<char>)>
    decreases objects.len(),
{
    if objects.len() == 0 {
        Seq::empty()
    } else {
        let rest = selected_views(objects.drop_last(), backup_type, db_name);
        let o = objects.last();
        match backup_of_object(o.key@, backup_type, db_name) {
            Some((t, d, s)) => rest.push((o.key@, o.size, o.last_modified, t, d, s)),
            None => rest,
        }
    }
}

/// The backups among the listed objects, newest first (those modified at the
/// same moment in listing order), at most `limit` of them where `limit` is
/// above 0.
pub fn select_backups(objects: Vec<ListedObject>, backup_type: Option<&str>, db_name: Option<&str>, limit: usize) -> (r: Vec<BackupInfo>)
    requires
        forall|i: int| 0 <= i < objects@.len() ==> key_readable(#[trigger] objects@[i].key@),
    ensures
        exists|found: Seq<BackupInfo>|
            {
                &&& found.map_values(|b: BackupInfo| info_view(b)) == selected_views(
                    objects@,
                    opt_text(backup_type),
                    opt_text(db_name),
                )
                &&& r@ == limited(backups_newest_first(found), limit)
                &&& r@.len() == if limit > 0 && found.len() > limit { limit as int } else { found.len() as int }
                &&& r@.to_multiset().subset_of(found.to_multiset())
                &&& forall|i: int, j: int|
                    0 <= i < j < r@.len() ==> !moment_before(#[trigger] r@[i].last_modified, #[trigger] r@[j].last_modified)
                &&& forall|i: int, c: BackupInfo|
                    0 <= i < r@.len() && found.contains(c) && #[trigger] moment_before(#[trigger] r@[i].last_modified, c.last_modified)
                        ==> r@.contains(c)
            },
{
    let ghost all = objects@;
    let mut rest = objects;
    let mut out: Vec<BackupInfo> = Vec::new();
    let ghost mut found: Seq<BackupInfo> = Seq::empty();
    let ghost mut taken: int = 0;
    proof {
        assert(all.take(0) =~= Seq::<ListedObject>::empty());
        assert(found.map_values(|b: BackupInfo| info_view(b)) =~= selected_views(all.take(0), opt_text(backup_type), opt_text(db_name)));
    }
    while rest.len() > 0
        invariant
            0 <= taken <= all.len(),
            rest@ == all.subrange(taken, all.len() as int),
            forall|i: int| 0 <= i < all.len() ==> key_readable(#[trigger] all[i].key@),
            found.map_values(|b: BackupInfo| info_view(b)) == selected_views(
                all.take(taken),
                opt_text(backup_type),
                opt_text(db_name),
            ),
            out@ == backups_newest_first(found),
        decreases rest@.len(),
    {
        let obj = rest.remove(0);
        proof {
            assert(obj == all[taken]);
            assert(key_readable(all[taken].key@));
        }
        let ghost tk = taken;
        let ghost before_views = selected_views(all.take(tk), opt_text(backup_type), opt_text(db_name));
        proof {
            taken = taken + 1;
            assert(rest@ == all.subrange(taken, all.len() as int));
            assert(all.take(taken).drop_last() =~= all.take(tk));
            assert(all.take(taken).last() == all[tk]);
        }
        match backup_from_object(obj, backup_type, db_name) {
            Some(b) => {
                let m = b.last_modified;
                let mut p: usize = 0;
                while p < out.len() && !(out[p].last_modified.secs < m.secs || (out[p].last_modified.secs == m.secs
                    && out[p].last_modified.nanos < m.nanos))
                    invariant
                        p <= out@.len(),
                        forall|j: int| 0 <= j < p ==> !moment_before(#[trigger] out@[j].last_modified, m),
                    decreases out@.len() - p,
                {
                    p = p + 1;
                }
                proof {
                    lemma_backup_insert_pos_unique(out@, m, p as int);
                }
                let ghost before = found;
                out.insert(p, b);
                proof {
                    found = found.push(b);
                    assert(found.drop_last() == before);
                    assert(found.last() == b);
                    assert(out@ == backups_newest_first(found));
                    assert(found.map_values(|b: BackupInfo| info_view(b)) =~= before.map_values(
                        |b: BackupInfo| info_view(b),
                    ).push(info_view(b)));
                }
            },
            None => {
                proof {
                    assert(selected_views(all.take(taken), opt_text(backup_type), opt_text(db_name)) == before_views);
                }
            },
        }
    }
    proof {
        assert(all.take(taken) =~= all);
    }
    if limit > 0 && out.len() > limit {
        out.truncate(limit);
    }
    proof {
        assert(out@ == limited(backups_newest_first(found), limit));
        lemma_limited_listing_is_the_newest(found, limit);
    }
    out
}

// ---------------------------------------------------------------------------
// The newest backup of each database

/// The key by which backups are grouped: `type-db`.
pub open spec fn group_key(b: BackupInfo) -> Seq<char> {
    b.backup_type@ + "-"@ + b.db_name@
}

/// Whether some backup of `s` has the group key `k`.
pub open spec fn has_group(s: Seq<BackupInfo>, k: Seq<char>) -> bool {
    exists|i: int| 0 <= i < s.len() && group_key(#[trigger] s[i]) == k
}

/// The first backup of each group, in the order of `s`.
pub open spec fn first_of_each_group(s: Seq<BackupInfo>) -> Seq<BackupInfo>
    decreases s.len(),
{
    if s.len() == 0 {
        s
    } else {
        let r = first_of_each_group(s.drop_last());
        if has_group(s.drop_last(), group_key(s.last())) {
            r
        } else {
            r.push(s.last())
        }
    }
}

/// The newest backup of each database and type, for a listing ordered newest
/// first: the first backup of each `type-db` group, in listing order.
pub fn get_latest_backups_by_db(backups: &[BackupInfo]) -> (r: Vec<&BackupInfo>)
    ensures
        r@.map_values(|b: &BackupInfo| *b) == first_of_each_group(backups@),
{
    let mut latest: Vec<&BackupInfo> = Vec::new();
    let mut seen: Vec<String> = Vec::new();
    let n = backups.len();
    let mut i: usize = 0;
    while i < n
        invariant
            i <= n,
            n == backups@.len(),
            latest@.map_values(|b: &BackupInfo| *b) == first_of_each_group(backups@.take(i as int)),
            forall|k: Seq<char>| has_group(backups@.take(i as int), k) <==> exists|j: int| 0 <= j < seen@.len() && (#[trigger] seen@[j])@ == k,
        decreases n - i,
    {
        let b = &backups[i];
        let head = concat_str(b.backup_type.as_str(), "-");
        let key = concat_str(head.as_str(), b.db_name.as_str());
        let ghost prefix = backups@.take(i as int);
        let mut found = false;
        let mut j: usize = 0;
        while j < seen.len()
            invariant
                j <= seen@.len(),
                !found ==> forall|q: int| 0 <= q < j ==> (#[trigger] seen@[q])@ != key@,
                found ==> exists|q: int| 0 <= q < seen@.len() && (#[trigger] seen@[q])@ == key@,
            decreases seen@.len() - j,
        {
            if !found && str_eq(seen[j].as_str(), key.as_str()) {
                found = true;
            }
            j = j + 1;
        }
        proof {
            assert(key@ == group_key(backups@[i as int]));
            assert(backups@.take(i + 1).drop_last() == prefix);
            assert(backups@.take(i + 1).last() == backups@[i as int]);
        }
        let ghost before = latest@;
        let ghost seen_before = seen@;
        if !found {
            seen.push(key);
            latest.push(b);
            proof {
                assert(latest@.map_values(|b: &BackupInfo| *b) =~= before.map_values(|b: &BackupInfo| *b).push(backups@[i as int]));
            }
        }
        proof {
            let p1 = backups@.take(i + 1);
            assert forall|k: Seq<char>| has_group(p1, k) <==> exists|q: int| 0 <= q < seen@.len() && (#[trigger] seen@[q])@ == k by {
                if has_group(p1, k) {
                    let w = choose|w: int| 0 <= w < p1.len() && group_key(#[trigger] p1[w]) == k;
                    if w < i {
                        assert(prefix[w] == p1[w]);
                        assert(has_group(prefix, k));
                        let q = choose|q: int| 0 <= q < seen_before.len() && (#[trigger] seen_before[q])@ == k;
                        assert(seen@[q] == seen_before[q]);
                    } else {
                        if !found {
                            assert(seen@[seen@.len() - 1]@ == k);
                        }
                    }
                }
                if exists|q: int| 0 <= q < seen@.len() && (#[trigger] seen@[q])@ == k {
                    let q = choose|q: int| 0 <= q < seen@.len() && (#[trigger] seen@[q])@ == k;
                    if q < seen_before.len() {
                        assert(seen@[q] == seen_before[q]);
                        assert(has_group(prefix, k));
                        let w = choose|w: int| 0 <= w < prefix.len() && group_key(#[trigger] prefix[w]) == k;
                        assert(p1[w] == prefix[w]);
                    } else {
                        assert(group_key(p1[i as int]) == k);
                    }
                }
            }
        }
        i = i + 1;
    }
    proof {
        assert(backups@.take(n as int) == backups@);
    }
    latest
}

/// The newest backup of each database holds one backup per `type-db` group,
/// no two of the same group, and a group for every group of the listing;
/// each is the first of its group in the listing.
pub proof fn lemma_first_of_each_group(s: Seq<BackupInfo>)
    ensures
        forall|i: int, j: int|
            0 <= i < j < first_of_each_group(s).len() ==> group_key(#[trigger] first_of_each_group(s)[i]) != group_key(
                #[trigger] first_of_each_group(s)[j],
            ),
        forall|k: Seq<char>| has_group(s, k) <==> has_group(first_of_each_group(s), k),
        forall|i: int|
            0 <= i < first_of_each_group(s).len() ==> exists|p: int|
                0 <= p < s.len() && s[p] == #[trigger] first_of_each_group(s)[i] && !has_group(s.take(p), group_key(s[p])),
    decreases s.len(),
{
    if s.len() > 0 {
        let t = s.drop_last();
        lemma_first_of_each_group(t);
        let r = first_of_each_group(t);
        let x = s.last();
        assert(t == s.take(s.len() - 1));
        assert forall|k: Seq<char>| has_group(s, k) <==> (has_group(t, k) || group_key(x) == k) by {
            if has_group(s, k) {
                let w = choose|w: int| 0 <= w < s.len() && group_key(#[trigger] s[w]) == k;
                if w < t.len() {
                    assert(t[w] == s[w]);
                }
            }
            if has_group(t, k) {
                let w = choose|w: int| 0 <= w < t.len() && group_key(#[trigger] t[w]) == k;
                assert(s[w] == t[w]);
            }
            if group_key(x) == k {
                assert(group_key(s[s.len() - 1]) == k);
            }
        }
        if !has_group(t, group_key(x)) {
            let r2 = r.push(x);
            assert(first_of_each_group(s) == r2);
            assert forall|k: Seq<char>| has_group(r2, k) <==> (has_group(r, k) || group_key(x) == k) by {
                if has_group(r2, k) {
                    let w = choose|w: int| 0 <= w < r2.len() && group_key(#[trigger] r2[w]) == k;
                    if w < r.len() {
                        assert(r[w] == r2[w]);
                    }
                }
                if has_group(r, k) {
                    let w = choose|w: int| 0 <= w < r.len() && group_key(#[trigger] r[w]) == k;
                    assert(r2[w] == r[w]);
                }
                if group_key(x) == k {
                    assert(group_key(r2[r.len() as int]) == k);
                }
            }
            assert forall|i: int, j: int| 0 <= i < j < r2.len() implies group_key(#[trigger] r2[i]) != group_key(#[trigger] r2[j]) by {
                if j == r.len() {
                    assert(r2[i] == r[i]);
                    assert(has_group(r, group_key(r[i])));
                } else {
                    assert(r2[i] == r[i] && r2[j] == r[j]);
                }
            }
            assert forall|i: int| 0 <= i < r2.len() implies exists|p: int|
                0 <= p < s.len() && s[p] == #[trigger] r2[i] && !has_group(s.take(p), group_key(s[p])) by {
                if i < r.len() {
                    assert(r2[i] == r[i]);
                    let p = choose|p: int| 0 <= p < t.len() && t[p] == r[i] && !has_group(t.take(p), group_key(t[p]));
                    assert(s[p] == t[p]);
                    assert(s.take(p) == t.take(p));
                } else {
                    assert(s[s.len() - 1] == r2[i]);
                    assert(s.take(s.len() - 1) == t);
                }
            }
        } else {
            assert(first_of_each_group(s) == r);
            assert forall|i: int| 0 <= i < r.len() implies exists|p: int|
                0 <= p < s.len() && s[p] == #[trigger] r[i] && !has_group(s.take(p), group_key(s[p])) by {
                let p = choose|p: int| 0 <= p < t.len() && t[p] == r[i] && !has_group(t.take(p), group_key(t[p]));
                assert(s[p] == t[p]);
                assert(s.take(p) == t.take(p));
            }
        }
    }
}

} // verus!
