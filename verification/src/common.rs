//! Naming of backups and of database engines, reading the time stamp that a
//! backup's file name carries, and the platform names used for downloads.
use vstd::prelude::*;

use crate::compression::{extension_text, CompressionFormat};
use crate::databases::version::Version;
use crate::databases::DatabaseConfig;
use crate::text::{
    chars_eq, chars_match_at, chars_of, decimal_string, decimal_text, find_char, first_index, decimal_digit, is_decimal_digit,
    lemma_first_index_is, lemma_first_index_none, string_from_chars,
};

verus! {

broadcast use vstd::string::group_string_axioms;

// ---------------------------------------------------------------------------
// Time stamps in backup file names

/// Why no time stamp could be read from a file name.
#[derive(Debug, Clone, Copy, PartialEq, Eq)]
pub enum TimestampError {
    /// The name does not end in `YYYY-MM-DD-HHMMSS-<hex>.<gz|dump|tar|zip|sql>`.
    NoMatch,
    /// The date and time in the name are not a valid date and time.
    InvalidTimestamp,
}

/// A lower-case hexadecimal digit, `[a-f0-9]`.
pub open spec fn is_hex(c: char) -> bool {
    ('0' <= c && c <= '9') || ('a' <= c && c <= 'f')
}

/// The end of the run of `[a-f0-9]` that starts at `from`.
pub open spec fn hex_end(s: Seq<char>, from: int) -> int
    decreases s.len() - from,
{
    if from < 0 || from >= s.len() {
        s.len() as int
    } else if is_hex(s[from]) {
        hex_end(s, from + 1)
    } else {
        from
    }
}

/// The shape `\d{4}-\d{2}-\d{2}-\d{6}` at `i`.
pub open spec fn stamp_shape_at(s: Seq<char>, i: int) -> bool {
    &&& 0 <= i
    &&& i + 17 <= s.len()
    &&& forall|k: int|
        0 <= k < 17 ==> if k == 4 || k == 7 || k == 10 {
            s[i + k] == '-'
        } else {
            is_decimal_digit(#[trigger] s[i + k])
        }
}

/// The file extensions of backups: `gz`, `dump`, `tar`, `zip` and `sql`.
pub open spec fn is_backup_extension(e: Seq<char>) -> bool {
    ||| e == seq!['g', 'z']
    ||| e == seq!['d', 'u', 'm', 'p']
    ||| e == seq!['t', 'a', 'r']
    ||| e == seq!['z', 'i', 'p']
    ||| e == seq!['s', 'q', 'l']
}

/// The pattern `(\d{4}-\d{2}-\d{2}-\d{6})-[a-f0-9]+\.(gz|dump|tar|zip|sql)$`
/// matches at `i`.
pub open spec fn stamp_match_at(s: Seq<char>, i: int) -> bool {
    let h = hex_end(s, i + 18);
    &&& stamp_shape_at(s, i)
    &&& i + 17 < s.len()
    &&& s[i + 17] == '-'
    &&& h > i + 18
    &&& h < s.len()
    &&& s[h] == '.'
    &&& is_backup_extension(s.subrange(h + 1, s.len() as int))
}

/// The date and time text `YYYY-MM-DD-HHMMSS` of a backup file name: the first
/// group of the leftmost match of the pattern of `stamp_match_at`.
pub open spec fn stamp_text(s: Seq<char>) -> Option<Seq<char>> {
    match first_index(s.len() as int, |i: int| stamp_match_at(s, i)) {
        Some(i) => Some(s.subrange(i, i + 17)),
        None => None,
    }
}

/// The Unix time that chrono reads from `YYYY-MM-DD-HHMMSS` text, as UTC
/// (`NaiveDateTime::parse_from_str(text, "%Y-%m-%d-%H%M%S")`), if the text is
/// a valid date and time.
pub uninterp spec fn chrono_backup_timestamp(text: Seq<char>) -> Option<i64>;

/// Reads `YYYY-MM-DD-HHMMSS` text as a UTC date and time with chrono
/// (`NaiveDateTime::parse_from_str` with `"%Y-%m-%d-%H%M%S"`) and gives its Unix
/// time in seconds. The contract only names the result; which texts chrono
/// accepts, and the arithmetic of the calendar, are chrono's.
#[verifier::external_body]
fn parse_backup_timestamp(text: &str) -> (r: Option<i64>)
    ensures
        r == chrono_backup_timestamp(text@),
{
    chrono::NaiveDateTime::parse_from_str(text, "%Y-%m-%d-%H%M%S").ok().map(|t| t.and_utc().timestamp())
}

fn hex_end_at(s: &[char], from: usize) -> (r: usize)
    requires
        from <= s@.len(),
    ensures
        r == hex_end(s@, from as int),
        from <= r <= s@.len(),
{
    let mut i = from;
    while i < s.len() && (('0' <= s[i] && s[i] <= '9') || ('a' <= s[i] && s[i] <= 'f'))
        invariant
            from <= i <= s@.len(),
            hex_end(s@, from as int) == hex_end(s@, i as int),
        decreases s.len() - i,
    {
        i = i + 1;
    }
    i
}

fn stamp_shape_exec(s: &[char], i: usize) -> (r: bool)
    requires
        i <= s@.len(),
    ensures
        r == stamp_shape_at(s@, i as int),
{
    let n = s.len();
    if i > n || 17 > n - i {
        return false;
    }
    let mut k: usize = 0;
    while k < 17
        invariant
            i + 17 <= n,
            n == s@.len(),
            k <= 17,
            forall|j: int|
                0 <= j < k ==> if j == 4 || j == 7 || j == 10 {
                    s@[i + j] == '-'
                } else {
                    is_decimal_digit(#[trigger] s@[i + j])
                },
        decreases 17 - k,
    {
        let c = s[i + k];
        let ok = if k == 4 || k == 7 || k == 10 {
            c == '-'
        } else {
            decimal_digit(c)
        };
        if !ok {
            assert(!(if k == 4 || k == 7 || k == 10 {
                s@[i + k] == '-'
            } else {
                is_decimal_digit(s@[i + k])
            }));
            return false;
        }
        k = k + 1;
    }
    true
}

fn backup_extension_exec(s: &[char], from: usize) -> (r: bool)
    requires
        from <= s@.len(),
    ensures
        r == is_backup_extension(s@.subrange(from as int, s@.len() as int)),
{
    let n = s.len();
    let ghost e = s@.subrange(from as int, n as int);
    let tail = n - from;
    let gz = tail == 2 && chars_match_at(s, from, &['g', 'z']);
    let dump = tail == 4 && chars_match_at(s, from, &['d', 'u', 'm', 'p']);
    let tar = tail == 3 && chars_match_at(s, from, &['t', 'a', 'r']);
    let zip = tail == 3 && chars_match_at(s, from, &['z', 'i', 'p']);
    let sql = tail == 3 && chars_match_at(s, from, &['s', 'q', 'l']);
    proof {
        assert(s@.subrange(from as int, n as int) == e);
        assert(gz == (e == seq!['g', 'z'])) by {
            if e == seq!['g', 'z'] {
                assert(e.len() == 2);
            }
        }
        assert(dump == (e == seq!['d', 'u', 'm', 'p'])) by {
            if e == seq!['d', 'u', 'm', 'p'] {
                assert(e.len() == 4);
            }
        }
        assert(tar == (e == seq!['t', 'a', 'r'])) by {
            if e == seq!['t', 'a', 'r'] {
                assert(e.len() == 3);
            }
        }
        assert(zip == (e == seq!['z', 'i', 'p'])) by {
            if e == seq!['z', 'i', 'p'] {
                assert(e.len() == 3);
            }
        }
        assert(sql == (e == seq!['s', 'q', 'l'])) by {
            if e == seq!['s', 'q', 'l'] {
                assert(e.len() == 3);
            }
        }
    }
    gz || dump || tar || zip || sql
}

fn stamp_match_exec(s: &[char], i: usize) -> (r: bool)
    requires
        i <= s@.len(),
    ensures
        r == stamp_match_at(s@, i as int),
{
    let n = s.len();
    if !stamp_shape_exec(s, i) {
        return false;
    }
    if i + 17 >= n || s[i + 17] != '-' {
        return false;
    }
    let h = hex_end_at(s, i + 18);
    if h == i + 18 || h >= n || s[h] != '.' {
        return false;
    }
    backup_extension_exec(s, h + 1)
}

/// The date and time text `YYYY-MM-DD-HHMMSS` carried by a backup file name;
/// see `stamp_text`.
pub fn timestamp_text_in_filename(filename: &str) -> (r: Option<String>)
    ensures
        match r {
            Some(t) => stamp_text(filename@) == Some(t@),
            None => stamp_text(filename@) is None,
        },
{
    let s = chars_of(filename);
    let n = s.len();
    let mut i: usize = 0;
    while i < n
        invariant
            i <= n,
            n == s@.len(),
            s@ == filename@,
            forall|j: int| 0 <= j < i ==> !#[trigger] stamp_match_at(s@, j),
        decreases n - i,
    {
        if stamp_match_exec(s.as_slice(), i) {
            proof {
                let p = |k: int| stamp_match_at(s@, k);
                assert(p(i as int));
                assert forall|j: int| 0 <= j < i implies !#[trigger] p(j) by {
                    assert(!stamp_match_at(s@, j));
                }
                lemma_first_index_is(s@.len() as int, p, i as int);
            }
            let mut t: Vec<char> = Vec::new();
            let mut k: usize = i;
            while k < i + 17
                invariant
                    i + 17 <= n,
                    n == s@.len(),
                    i <= k <= i + 17,
                    t@ == s@.subrange(i as int, k as int),
                decreases i + 17 - k,
            {
                t.push(s[k]);
                k = k + 1;
                assert(t@ =~= s@.subrange(i as int, k as int));
            }
            return Some(string_from_chars(t.as_slice()));
        }
        i = i + 1;
    }
    proof {
        let p = |k: int| stamp_match_at(s@, k);
        assert forall|j: int| 0 <= j <= s@.len() implies !#[trigger] p(j) by {
            if j < s@.len() {
                assert(!stamp_match_at(s@, j));
            }
        }
        lemma_first_index_none(s@.len() as int, p);
    }
    None
}

/// The Unix time of the date and time a backup file name carries, as chrono
/// reads it (see `stamp_text` and `chrono_backup_timestamp`).
pub open spec fn filename_timestamp(name: Seq<char>) -> Result<i64, TimestampError> {
    match stamp_text(name) {
        None => Err(TimestampError::NoMatch),
        Some(t) => match chrono_backup_timestamp(t) {
            Some(v) => Ok(v),
            None => Err(TimestampError::InvalidTimestamp),
        },
    }
}

/// The time (UTC, in seconds since the Unix epoch) at which a backup was made,
/// read from its file name, such as `"db-2024-01-15-120000-abc123.dump"`.
pub fn extract_timestamp_from_filename(filename: &str) -> (r: Result<i64, TimestampError>)
    ensures
        r == filename_timestamp(filename@),
{
    match timestamp_text_in_filename(filename) {
        None => Err(TimestampError::NoMatch),
        Some(t) => match parse_backup_timestamp(t.as_str()) {
            Some(v) => Ok(v),
            None => Err(TimestampError::InvalidTimestamp),
        },
    }
}


// ---------------------------------------------------------------------------
// Slugs

/// Whether std counts `c` as alphanumeric (`char::is_alphanumeric`, Unicode
/// `Alphabetic` or `Numeric`).
pub uninterp spec fn unicode_alphanumeric(c: char) -> bool;

/// The first character of the lower-case mapping of `c`
/// (`c.to_lowercase().next()`).
pub uninterp spec fn unicode_lowercase_first(c: char) -> char;

/// `char::is_alphanumeric`. The contract only names the result: Unicode's
/// `Alphabetic` and `Numeric` properties are std's.
#[verifier::external_body]
fn is_alphanumeric(c: char) -> (r: bool)
    ensures
        r == unicode_alphanumeric(c),
{
    c.is_alphanumeric()
}

/// The first character of `char::to_lowercase`. A lower-case mapping is never
/// empty, so the call does not fail; the contract only names the result.
#[verifier::external_body]
fn lowercase_first(c: char) -> (r: char)
    ensures
        r == unicode_lowercase_first(c),
{
    c.to_lowercase().next().unwrap_or(c)
}

/// The slug of `s` before trimming, and whether it ends on a separator: each
/// alphanumeric character is lower-cased, and each run of other characters
/// becomes one `-`.
pub open spec fn slug_raw(s: Seq<char>) -> (Seq<char>, bool)
    decreases s.len(),
{
    if s.len() == 0 {
        (Seq::empty(), false)
    } else {
        let (r, prev_is_separator) = slug_raw(s.drop_last());
        let c = s.last();
        if unicode_alphanumeric(c) {
            (r.push(unicode_lowercase_first(c)), false)
        } else if !prev_is_separator {
            (r.push('-'), true)
        } else {
            (r, true)
        }
    }
}

/// The index of the first character of `s` that is not `-`, or `s.len()`.
pub open spec fn first_non_dash(s: Seq<char>, from: int) -> int
    decreases s.len() - from,
{
    if from < 0 || from >= s.len() {
        s.len() as int
    } else if s[from] != '-' {
        from
    } else {
        first_non_dash(s, from + 1)
    }
}

/// One past the last character of `s` before `end` that is not `-`, or `from`.
pub open spec fn last_non_dash_end(s: Seq<char>, from: int, end: int) -> int
    decreases end - from,
{
    if end <= from || end > s.len() {
        from
    } else if s[end - 1] != '-' {
        end
    } else {
        last_non_dash_end(s, from, end - 1)
    }
}

/// `s` without its leading and trailing `-` (`str::trim_matches('-')`).
pub open spec fn trim_dashes(s: Seq<char>) -> Seq<char> {
    let a = first_non_dash(s, 0);
    s.subrange(a, last_non_dash_end(s, a, s.len() as int))
}

/// A URL- and file-friendly form of a name, such as `"my-db-1"` for `"My DB #1"`.
pub open spec fn slug(s: Seq<char>) -> Seq<char> {
    trim_dashes(slug_raw(s).0)
}

fn trim_dashes_exec(v: &Vec<char>) -> (r: Vec<char>)
    ensures
        r@ == trim_dashes(v@),
{
    let n = v.len();
    let mut a: usize = 0;
    while a < n && v[a] == '-'
        invariant
            a <= n,
            n == v@.len(),
            first_non_dash(v@, 0) == first_non_dash(v@, a as int),
        decreases n - a,
    {
        a = a + 1;
    }
    let mut b: usize = n;
    while b > a && v[b - 1] == '-'
        invariant
            a <= b <= n,
            n == v@.len(),
            a == first_non_dash(v@, 0),
            last_non_dash_end(v@, a as int, n as int) == last_non_dash_end(v@, a as int, b as int),
        decreases b - a,
    {
        b = b - 1;
    }
    let mut r: Vec<char> = Vec::new();
    let mut k: usize = a;
    while k < b
        invariant
            a <= k <= b <= n,
            n == v@.len(),
            r@ == v@.subrange(a as int, k as int),
        decreases b - k,
    {
        r.push(v[k]);
        k = k + 1;
        assert(r@ =~= v@.subrange(a as int, k as int));
    }
    r
}

/// The slug of `input`; see `slug`.
pub fn slugify(input: &str) -> (r: String)
    ensures
        r@ == slug(input@),
{
    let s = chars_of(input);
    let mut out: Vec<char> = Vec::new();
    let mut prev_is_separator = false;
    let mut i: usize = 0;
    while i < s.len()
        invariant
            i <= s@.len(),
            (out@, prev_is_separator) == slug_raw(s@.take(i as int)),
        decreases s@.len() - i,
    {
        let c = s[i];
        assert(s@.take(i + 1).drop_last() =~= s@.take(i as int));
        if is_alphanumeric(c) {
            out.push(lowercase_first(c));
            prev_is_separator = false;
        } else if !prev_is_separator {
            out.push('-');
            prev_is_separator = true;
        }
        i = i + 1;
    }
    assert(s@.take(s@.len() as int) =~= s@);
    let trimmed = trim_dashes_exec(&out);
    string_from_chars(trimmed.as_slice())
}

/// A slug never begins or ends with `-`.
pub proof fn lemma_slug_has_no_outer_dash(s: Seq<char>)
    ensures
        slug(s).len() > 0 ==> slug(s)[0] != '-' && slug(s).last() != '-',
{
    let raw = slug_raw(s).0;
    lemma_first_non_dash(raw, 0);
    let a = first_non_dash(raw, 0);
    lemma_last_non_dash_end(raw, a, raw.len() as int);
}

proof fn lemma_first_non_dash(s: Seq<char>, from: int)
    requires
        0 <= from <= s.len(),
    ensures
        from <= first_non_dash(s, from) <= s.len(),
        first_non_dash(s, from) < s.len() ==> s[first_non_dash(s, from)] != '-',
    decreases s.len() - from,
{
    if from < s.len() && s[from] == '-' {
        lemma_first_non_dash(s, from + 1);
    }
}

proof fn lemma_last_non_dash_end(s: Seq<char>, from: int, end: int)
    requires
        0 <= from <= end <= s.len(),
    ensures
        from <= last_non_dash_end(s, from, end) <= end,
        last_non_dash_end(s, from, end) > from ==> s[last_non_dash_end(s, from, end) - 1] != '-',
    decreases end - from,
{
    if end > from && s[end - 1] == '-' {
        lemma_last_non_dash_end(s, from, end - 1);
    }
}

/// The characters of `s` that std counts as alphanumeric lower-case to a
/// character that is alphanumeric too and is its own lower-case form.
pub open spec fn lowercases_to_fixed_points(s: Seq<char>) -> bool {
    forall|i: int|
        0 <= i < s.len() && unicode_alphanumeric(#[trigger] s[i]) ==> {
            let l = unicode_lowercase_first(s[i]);
            unicode_alphanumeric(l) && unicode_lowercase_first(l) == l
        }
}

/// `s` could be a slug: no `-` first, no two `-` in a row, and every other
/// character alphanumeric and its own lower-case form.
pub open spec fn slug_shaped(s: Seq<char>) -> bool {
    &&& (s.len() > 0 ==> s[0] != '-')
    &&& forall|j: int| 0 <= j < s.len() - 1 ==> !(#[trigger] s[j] == '-' && s[j + 1] == '-')
    &&& forall|j: int|
        0 <= j < s.len() && #[trigger] s[j] != '-' ==> unicode_alphanumeric(s[j]) && unicode_lowercase_first(s[j]) == s[j]
}

proof fn lemma_slug_raw_shape(s: Seq<char>)
    requires
        !unicode_alphanumeric('-'),
        lowercases_to_fixed_points(s),
    ensures
        slug_raw(s).1 <==> (slug_raw(s).0.len() > 0 && slug_raw(s).0.last() == '-'),
        forall|j: int|
            0 <= j < slug_raw(s).0.len() - 1 ==> !(#[trigger] slug_raw(s).0[j] == '-' && slug_raw(s).0[j + 1] == '-'),
        forall|j: int|
            0 <= j < slug_raw(s).0.len() && #[trigger] slug_raw(s).0[j] != '-' ==> unicode_alphanumeric(slug_raw(s).0[j])
                && unicode_lowercase_first(slug_raw(s).0[j]) == slug_raw(s).0[j],
    decreases s.len(),
{
    if s.len() > 0 {
        let u = s.drop_last();
        assert forall|i: int| 0 <= i < u.len() && unicode_alphanumeric(#[trigger] u[i]) implies {
            let l = unicode_lowercase_first(u[i]);
            unicode_alphanumeric(l) && unicode_lowercase_first(l) == l
        } by {
            assert(u[i] == s[i]);
        }
        lemma_slug_raw_shape(u);
        let r = slug_raw(u).0;
        let c = s.last();
        assert(c == s[s.len() - 1]);
        if unicode_alphanumeric(c) {
            let t = r.push(unicode_lowercase_first(c));
            assert forall|j: int| 0 <= j < t.len() && #[trigger] t[j] != '-' implies unicode_alphanumeric(t[j])
                && unicode_lowercase_first(t[j]) == t[j] by {
                if j < r.len() {
                    assert(t[j] == r[j]);
                }
            }
            assert forall|j: int| 0 <= j < t.len() - 1 implies !(#[trigger] t[j] == '-' && t[j + 1] == '-') by {
                if j < r.len() - 1 {
                    assert(t[j] == r[j] && t[j + 1] == r[j + 1]);
                }
            }
        } else if !slug_raw(u).1 {
            let t = r.push('-');
            assert forall|j: int| 0 <= j < t.len() && #[trigger] t[j] != '-' implies unicode_alphanumeric(t[j])
                && unicode_lowercase_first(t[j]) == t[j] by {
                if j < r.len() {
                    assert(t[j] == r[j]);
                }
            }
            assert forall|j: int| 0 <= j < t.len() - 1 implies !(#[trigger] t[j] == '-' && t[j + 1] == '-') by {
                if j < r.len() - 1 {
                    assert(t[j] == r[j] && t[j + 1] == r[j + 1]);
                } else {
                    assert(t[j] == r.last());
                }
            }
        }
    }
}

proof fn lemma_slug_shaped_is_its_own_raw_slug(t: Seq<char>)
    requires
        !unicode_alphanumeric('-'),
        slug_shaped(t),
    ensures
        slug_raw(t) == (t, t.len() > 0 && t.last() == '-'),
    decreases t.len(),
{
    if t.len() > 0 {
        let u = t.drop_last();
        assert forall|j: int| 0 <= j < u.len() - 1 implies !(#[trigger] u[j] == '-' && u[j + 1] == '-') by {
            assert(u[j] == t[j] && u[j + 1] == t[j + 1]);
        }
        assert forall|j: int| 0 <= j < u.len() && #[trigger] u[j] != '-' implies unicode_alphanumeric(u[j])
            && unicode_lowercase_first(u[j]) == u[j] by {
            assert(u[j] == t[j]);
        }
        if u.len() > 0 {
            assert(u[0] == t[0]);
        }
        lemma_slug_shaped_is_its_own_raw_slug(u);
        let c = t.last();
        assert(c == t[t.len() - 1]);
        assert(u.push(c) =~= t);
        if c == '-' && u.len() > 0 {
            assert(u.last() == t[t.len() - 2]);
        }
    }
}

/// Slugs are fixed points: the slug of a slug is the slug itself, wherever
/// the characters of the input that std counts as alphanumeric lower-case to
/// alphanumeric characters that are their own lower-case forms, and std does
/// not count `-` as alphanumeric (facts of Unicode's tables that std follows).
pub proof fn lemma_slug_idempotent(s: Seq<char>)
    requires
        !unicode_alphanumeric('-'),
        lowercases_to_fixed_points(s),
    ensures
        slug(slug(s)) == slug(s),
{
    let raw = slug_raw(s).0;
    lemma_slug_raw_shape(s);
    lemma_first_non_dash(raw, 0);
    let a = first_non_dash(raw, 0);
    lemma_last_non_dash_end(raw, a, raw.len() as int);
    let b = last_non_dash_end(raw, a, raw.len() as int);
    let t = slug(s);
    assert(t == raw.subrange(a, b));
    assert forall|j: int| 0 <= j < t.len() - 1 implies !(#[trigger] t[j] == '-' && t[j + 1] == '-') by {
        assert(t[j] == raw[a + j] && t[j + 1] == raw[a + j + 1]);
    }
    assert forall|j: int| 0 <= j < t.len() && #[trigger] t[j] != '-' implies unicode_alphanumeric(t[j])
        && unicode_lowercase_first(t[j]) == t[j] by {
        assert(t[j] == raw[a + j]);
    }
    lemma_slug_has_no_outer_dash(s);
    lemma_slug_shaped_is_its_own_raw_slug(t);
    if t.len() > 0 {
        assert(t.last() != '-');
        assert(first_non_dash(t, 0) == 0);
        assert(last_non_dash_end(t, 0, t.len() as int) == t.len());
    }
    assert(t.subrange(0, t.len() as int) =~= t);
}

// ---------------------------------------------------------------------------
// Names of engines and versions

/// The name of the engine of a version, as used in paths.
pub open spec fn db_name_text(version: Version) -> Seq<char> {
    match version {
        Version::PostgreSQL(_) => seq!['p', 'o', 's', 't', 'g', 'r', 'e', 's', 'q', 'l'],
        Version::MySql(_) => seq!['m', 'y', 's', 'q', 'l'],
    }
}

/// The name of a version, as used in paths: its major number in decimal.
pub open spec fn version_name_text(version: Version) -> Seq<char> {
    match version {
        Version::PostgreSQL(v) => decimal_text(v.major as nat),
        Version::MySql(v) => decimal_text(v.major as nat),
    }
}

pub fn get_db_name(version: &Version) -> (r: String)
    ensures
        r@ == db_name_text(*version),
{
    match version {
        Version::PostgreSQL(_) => string_from_chars(&['p', 'o', 's', 't', 'g', 'r', 'e', 's', 'q', 'l']),
        Version::MySql(_) => string_from_chars(&['m', 'y', 's', 'q', 'l']),
    }
}

pub fn get_version_name(version: &Version) -> (r: String)
    ensures
        r@ == version_name_text(*version),
{
    match version {
        Version::PostgreSQL(version) => decimal_string(version.major as u64),
        Version::MySql(version) => decimal_string(version.major as u64),
    }
}

// ---------------------------------------------------------------------------
// Default backup names

/// The first `-`-separated field of `s` (`s.split('-').next()`).
pub open spec fn first_field(s: Seq<char>) -> Seq<char> {
    s.subrange(0, find_char(s, '-', 0))
}

/// `"{name}-{date}-{first field of uuid}.{extension}"`.
pub open spec fn backup_name_text(
    name: Seq<char>,
    date: Seq<char>,
    uuid: Seq<char>,
    format: CompressionFormat,
) -> Seq<char> {
    name + seq!['-'] + date + seq!['-'] + first_field(uuid) + seq!['.'] + extension_text(format)
}

/// The whole seconds since the Unix epoch that the system clock shows
/// (`SystemTime::now()` measured with `duration_since(UNIX_EPOCH)`), or `None`
/// where the clock is set before the epoch. The value depends on the clock, so
/// nothing more is promised of it.
#[verifier::external_body]
fn clock_seconds() -> (r: Option<u64>) {
    std::time::SystemTime::now().duration_since(std::time::UNIX_EPOCH).ok().map(|d| d.as_secs())
}

/// The text chrono writes for the UTC time `secs` seconds after the Unix epoch
/// with the format `"%Y-%m-%d-%H%M%S"`, where chrono can represent that time.
pub uninterp spec fn chrono_backup_date(secs: i64) -> Option<Seq<char>>;

/// The first second of the year 10000, from which chrono's `%Y` writes the
/// year with a sign and more than four digits.
pub const FIRST_FIVE_DIGIT_YEAR_SECS: i64 = 253402300800i64;

/// Formats a Unix time as `YYYY-MM-DD-HHMMSS` in UTC with chrono
/// (`DateTime::from_timestamp(secs, 0)` then `format("%Y-%m-%d-%H%M%S")`). The
/// contract names the text and states what chrono documents of it: between the
/// epoch and the year 10000 the time exists, every field is zero-padded (four
/// digits of year, two of each other field), so the text has the shape that
/// backup names carry, and `NaiveDateTime::parse_from_str` with the same format
/// reads back the same second; from the year 10000 on `%Y` begins with `+`.
#[verifier::external_body]
fn format_backup_date(secs: i64) -> (r: Option<String>)
    ensures
        match r {
            Some(t) => chrono_backup_date(secs) == Some(t@),
            None => chrono_backup_date(secs) is None,
        },
        0 <= secs < FIRST_FIVE_DIGIT_YEAR_SECS ==> r is Some,
        0 <= secs < FIRST_FIVE_DIGIT_YEAR_SECS && r is Some ==> r.unwrap()@.len() == 17,
        0 <= secs < FIRST_FIVE_DIGIT_YEAR_SECS && r is Some ==> stamp_shape_at(r.unwrap()@, 0),
        0 <= secs < FIRST_FIVE_DIGIT_YEAR_SECS && r is Some ==> chrono_backup_timestamp(r.unwrap()@) == Some(secs),
        secs >= FIRST_FIVE_DIGIT_YEAR_SECS && r is Some ==> r.unwrap()@.len() > 0 && r.unwrap()@[0] == '+',
{
    chrono::DateTime::from_timestamp(secs, 0).map(|t| t.format("%Y-%m-%d-%H%M%S").to_string())
}

/// A date text as the current time gives it: chrono's text of some second at
/// or after the Unix epoch.
pub open spec fn is_clock_date(date: Seq<char>) -> bool {
    exists|secs: i64| 0 <= secs && #[trigger] chrono_backup_date(secs) == Some(date)
}

/// The current UTC time as `YYYY-MM-DD-HHMMSS`, or `None` where the clock is
/// before the Unix epoch or beyond what chrono can represent.
fn current_date_text() -> (r: Option<(String, Ghost<i64>)>)
    ensures
        r matches Some((t, secs)) ==> 0 <= secs@ && chrono_backup_date(secs@) == Some(t@) && (secs@
            < FIRST_FIVE_DIGIT_YEAR_SECS ==> t@.len() == 17 && stamp_shape_at(t@, 0) && chrono_backup_timestamp(t@)
            == Some(secs@)),
{
    match clock_seconds() {
        Some(s) => {
            if s <= 9223372036854775807u64 {
                let secs: i64 = s as i64;
                match format_backup_date(secs) {
                    Some(t) => Some((t, Ghost(secs))),
                    None => None,
                }
            } else {
                None
            }
        },
        None => None,
    }
}

/// Whether `u` is laid out as a hyphenated UUID: 36 characters, `-` at 8, 13,
/// 18 and 23, and lower-case hexadecimal digits elsewhere.
pub open spec fn uuid_layout(u: Seq<char>) -> bool {
    &&& u.len() == 36
    &&& forall|k: int|
        0 <= k < 36 ==> if k == 8 || k == 13 || k == 18 || k == 23 {
            u[k] == '-'
        } else {
            is_hex(#[trigger] u[k])
        }
}

/// Sixteen bytes from the operating system's random source
/// (`getrandom::fill`), or `None` where the source fails. The bytes are random:
/// the contract states only their number.
#[verifier::external_body]
fn random_bytes() -> (r: Option<Vec<u8>>)
    ensures
        r matches Some(v) ==> v@.len() == 16,
{
    let mut b = [0u8; 16];
    match getrandom::fill(&mut b) {
        Ok(()) => Some(b.to_vec()),
        Err(_) => None,
    }
}

/// The text of the version 4 UUID that uuid builds from sixteen random bytes.
pub uninterp spec fn uuid_v4_text(bytes: Seq<u8>) -> Seq<char>;

/// The version 4 UUID that uuid builds from sixteen random bytes
/// (`Builder::from_random_bytes(..).into_uuid()`, as `Uuid::new_v4` does with
/// the bytes it draws), written with `to_string`. The contract names the text
/// and states the hyphenated lower-case layout that uuid documents for it.
#[verifier::external_body]
fn uuid_text_from_bytes(bytes: &[u8]) -> (r: String)
    requires
        bytes@.len() == 16,
    ensures
        r@ == uuid_v4_text(bytes@),
        uuid_layout(r@),
{
    let mut b = [0u8; 16];
    b.copy_from_slice(bytes);
    uuid::Builder::from_random_bytes(b).into_uuid().to_string()
}

/// A fresh random UUID in its hyphenated text form, or `None` where the random
/// source fails.
fn new_uuid_text() -> (r: Option<String>)
    ensures
        r matches Some(u) ==> uuid_layout(u@),
{
    match random_bytes() {
        Some(b) => Some(uuid_text_from_bytes(b.as_slice())),
        None => None,
    }
}

/// The backup name made of a database name, a date text, a UUID text and a
/// format; see `backup_name_text`.
pub fn backup_name_from_parts(
    name: &str,
    date: &str,
    uuid: &str,
    format: &CompressionFormat,
) -> (r: String)
    ensures
        r@ == backup_name_text(name@, date@, uuid@, *format),
{
    let u = chars_of(uuid);
    let end = crate::text::find_char_at(u.as_slice(), '-', 0);
    let mut field: Vec<char> = Vec::new();
    let mut k: usize = 0;
    while k < end
        invariant
            k <= end <= u@.len(),
            field@ == u@.subrange(0, k as int),
        decreases end - k,
    {
        field.push(u[k]);
        k = k + 1;
        assert(field@ =~= u@.subrange(0, k as int));
    }
    let ext: &[char] = match format {
        CompressionFormat::Zlib => &['z', 'i', 'p'],
        CompressionFormat::Deflate => &['z', 'z'],
        CompressionFormat::Gzip => &['g', 'z'],
        CompressionFormat::Uncompressed => &[],
    };
    let mut out = chars_of(name);
    out.push('-');
    let d = chars_of(date);
    let mut i: usize = 0;
    let ghost base = out@;
    while i < d.len()
        invariant
            i <= d@.len(),
            out@ == base + d@.take(i as int),
        decreases d@.len() - i,
    {
        out.push(d[i]);
        i = i + 1;
        assert(out@ =~= base + d@.take(i as int));
    }
    out.push('-');
    let ghost base2 = out@;
    let mut i: usize = 0;
    while i < field.len()
        invariant
            i <= field@.len(),
            out@ == base2 + field@.take(i as int),
        decreases field@.len() - i,
    {
        out.push(field[i]);
        i = i + 1;
        assert(out@ =~= base2 + field@.take(i as int));
    }
    out.push('.');
    let ghost base3 = out@;
    let mut i: usize = 0;
    while i < ext.len()
        invariant
            i <= ext@.len(),
            out@ == base3 + ext@.take(i as int),
        decreases ext@.len() - i,
    {
        out.push(ext[i]);
        i = i + 1;
        assert(out@ =~= base3 + ext@.take(i as int));
    }
    proof {
        assert(d@.take(d@.len() as int) =~= d@);
        assert(field@.take(field@.len() as int) =~= field@);
        assert(ext@.take(ext@.len() as int) =~= ext@);
        assert(ext@ =~= extension_text(*format));
        assert(out@ =~= backup_name_text(name@, date@, uuid@, *format));
    }
    string_from_chars(out.as_slice())
}

/// Whether `n` is a name that `get_default_backup_name` makes for a database
/// named `db` and format `format`: the database's name, chrono's text of some
/// second at or after the epoch, the first field of a hyphenated UUID, and the
/// format's extension.
pub open spec fn is_fresh_backup_name(n: Seq<char>, db: Seq<char>, format: CompressionFormat) -> bool {
    exists|secs: i64, uuid: Seq<char>|
        #![trigger chrono_backup_date(secs), uuid_layout(uuid)]
        {
            &&& 0 <= secs
            &&& uuid_layout(uuid)
            &&& chrono_backup_date(secs) is Some
            &&& n == backup_name_text(db, chrono_backup_date(secs).unwrap(), uuid, format)
            &&& (secs < FIRST_FIVE_DIGIT_YEAR_SECS && (format == CompressionFormat::Gzip || format
                == CompressionFormat::Zlib)) ==> filename_timestamp(n) == Ok::<i64, TimestampError>(secs)
        }
}

/// A fresh name for a backup of `database_config`'s database: its name, the
/// current UTC time, the first eight hexadecimal digits of a random UUID, and the
/// extension of the compression format. A gzip or zlib backup named so reads
/// back its time. `None` where the clock or the random source fails.
pub fn get_default_backup_name(
    database_config: &DatabaseConfig,
    compression_format: &CompressionFormat,
) -> (r: Option<String>)
    ensures
        r matches Some(n) ==> is_fresh_backup_name(n@, database_config.name@, *compression_format),
{
    let (date, Ghost(secs)) = match current_date_text() {
        Some(d) => d,
        None => return None,
    };
    let uuid = match new_uuid_text() {
        Some(u) => u,
        None => return None,
    };
    let r = backup_name_from_parts(database_config.name.as_str(), date.as_str(), uuid.as_str(), compression_format);
    proof {
        let u = uuid@;
        assert forall|k: int| 0 <= k < 8 implies u[k] != '-' by {
            assert(is_hex(u[k]));
        }
        assert(u[8] == '-');
        lemma_find_first_dash(u);
        assert(first_field(u) == u.subrange(0, 8));
        if secs < FIRST_FIVE_DIGIT_YEAR_SECS && (*compression_format == CompressionFormat::Gzip
            || *compression_format == CompressionFormat::Zlib) {
            assert forall|k: int| 0 <= k < first_field(u).len() implies is_hex(#[trigger] first_field(u)[k]) by {
                assert(first_field(u)[k] == u[k]);
            }
            lemma_backup_name_time_stamp(database_config.name@, date@, u, *compression_format);
        }
        assert(uuid_layout(u));
        assert(chrono_backup_date(secs) == Some(date@));
    }
    Some(r)
}

proof fn lemma_find_first_dash(u: Seq<char>)
    requires
        u.len() == 36,
        u[8] == '-',
        forall|k: int| 0 <= k < 8 ==> u[k] != '-',
    ensures
        find_char(u, '-', 0) == 8,
{
    assert(find_char(u, '-', 0) == find_char(u, '-', 1));
    assert(find_char(u, '-', 1) == find_char(u, '-', 2));
    assert(find_char(u, '-', 2) == find_char(u, '-', 3));
    assert(find_char(u, '-', 3) == find_char(u, '-', 4));
    assert(find_char(u, '-', 4) == find_char(u, '-', 5));
    assert(find_char(u, '-', 5) == find_char(u, '-', 6));
    assert(find_char(u, '-', 6) == find_char(u, '-', 7));
    assert(find_char(u, '-', 7) == find_char(u, '-', 8));
}

/// A run of hexadecimal digits from `from` up to a non-digit at `end` ends there.
proof fn lemma_hex_end_at(s: Seq<char>, from: int, end: int)
    requires
        0 <= from <= end < s.len(),
        forall|k: int| from <= k < end ==> is_hex(#[trigger] s[k]),
        !is_hex(s[end]),
    ensures
        hex_end(s, from) == end,
    decreases end - from,
{
    if from < end {
        lemma_hex_end_at(s, from + 1, end);
    }
}

/// Everything between `from` and the end of its hexadecimal run is a digit.
proof fn lemma_hex_run(s: Seq<char>, from: int)
    requires
        0 <= from <= s.len(),
    ensures
        from <= hex_end(s, from) <= s.len(),
        forall|k: int| from <= k < hex_end(s, from) ==> is_hex(#[trigger] s[k]),
    decreases s.len() - from,
{
    if from < s.len() && is_hex(s[from]) {
        lemma_hex_run(s, from + 1);
    }
}

/// No extension of a backup holds a `.`, and none ends in one.
proof fn lemma_extension_has_no_dot(e: Seq<char>, k: int)
    requires
        is_backup_extension(e),
        0 <= k < e.len(),
    ensures
        e[k] != '.',
{
}

/// Where the date shape, a `-`, a run of hexadecimal digits, a `.` and an
/// extension close a name from `p` on, the name's time stamp is the date there.
proof fn lemma_stamp_found(s: Seq<char>, p: int, m: int)
    requires
        0 <= p,
        m > 0,
        p + 19 + m <= s.len(),
        stamp_shape_at(s, p),
        s[p + 17] == '-',
        forall|k: int| p + 18 <= k < p + 18 + m ==> is_hex(#[trigger] s[k]),
        s[p + 18 + m] == '.',
        is_backup_extension(s.subrange(p + 19 + m, s.len() as int)),
    ensures
        stamp_text(s) == Some(s.subrange(p, p + 17)),
{
    let dot = p + 18 + m;
    let e = s.subrange(dot + 1, s.len() as int);
    lemma_hex_end_at(s, p + 18, dot);
    let q = |i: int| stamp_match_at(s, i);
    assert(q(p));
    assert forall|i: int| 0 <= i < p implies !#[trigger] q(i) by {
        if q(i) {
            let h = hex_end(s, i + 18);
            lemma_hex_run(s, i + 18);
            let t = s.subrange(h + 1, s.len() as int);
            if h < dot {
                assert(t[dot - (h + 1)] == s[dot]);
                lemma_extension_has_no_dot(t, dot - (h + 1));
            } else if h > dot {
                assert(s[h] == e[h - (dot + 1)]);
                lemma_extension_has_no_dot(e, h - (dot + 1));
            }
            assert(is_hex(s[p + 17]));
        }
    }
    lemma_first_index_is(s.len() as int, q, p);
}

/// A name that ends in `YYYY-MM-DD-HHMMSS-<hex>.<ext>`, with ASCII digits, a
/// non-empty run of lower-case hexadecimal digits and any of the extensions
/// `gz`, `dump`, `tar`, `zip` and `sql`, carries that `YYYY-MM-DD-HHMMSS` as its
/// time stamp, whatever comes before it; its time is what chrono reads from that
/// text, an error only where the text is not a valid date and time.
pub proof fn lemma_backup_names_carry_their_stamp(prefix: Seq<char>, date: Seq<char>, hex: Seq<char>, ext: Seq<char>)
    requires
        date.len() == 17,
        forall|k: int|
            0 <= k < 17 ==> if k == 4 || k == 7 || k == 10 {
                date[k] == '-'
            } else {
                '0' <= #[trigger] date[k] && date[k] <= '9'
            },
        hex.len() > 0,
        forall|k: int| 0 <= k < hex.len() ==> ('0' <= #[trigger] hex[k] && hex[k] <= '9') || ('a' <= hex[k] && hex[k] <= 'f'),
        ext == seq!['g', 'z'] || ext == seq!['d', 'u', 'm', 'p'] || ext == seq!['t', 'a', 'r'] || ext == seq!['z', 'i', 'p']
            || ext == seq!['s', 'q', 'l'],
    ensures
        stamp_text(prefix + date + seq!['-'] + hex + seq!['.'] + ext) == Some(date),
        filename_timestamp(prefix + date + seq!['-'] + hex + seq!['.'] + ext) == match chrono_backup_timestamp(date) {
            Some(t) => Ok::<i64, TimestampError>(t),
            None => Err(TimestampError::InvalidTimestamp),
        },
{
    let a = prefix + date;
    let b = a + seq!['-'];
    let c = b + hex;
    let d = c + seq!['.'];
    let name = d + ext;
    let p = prefix.len() as int;
    let m = hex.len() as int;
    assert(name.subrange(p, p + 17) =~= date);
    assert forall|k: int|
        0 <= k < 17 implies (if k == 4 || k == 7 || k == 10 {
            name[p + k] == '-'
        } else {
            is_decimal_digit(#[trigger] name[p + k])
        }) by {
        assert(name[p + k] == name.subrange(p, p + 17)[k]);
        if !(k == 4 || k == 7 || k == 10) {
            lemma_ascii_digit_is_decimal(date[k]);
        }
    }
    assert(name[p + 17] == b[p + 17]);
    assert(name.subrange(p + 18, p + 18 + m) =~= hex);
    assert forall|k: int| p + 18 <= k < p + 18 + m implies is_hex(#[trigger] name[k]) by {
        assert(name[k] == name.subrange(p + 18, p + 18 + m)[k - (p + 18)]);
    }
    assert(name[p + 18 + m] == d[p + 18 + m]);
    assert(name.subrange(p + 19 + m, name.len() as int) =~= ext);
    lemma_stamp_found(name, p, m);
}

proof fn lemma_ascii_digit_is_decimal(c: char)
    requires
        '0' <= c && c <= '9',
    ensures
        is_decimal_digit(c),
{
    reveal(is_decimal_digit);
}

/// A name whose part after its last `.` is none of `gz`, `dump`, `tar`, `zip`
/// and `sql` carries no time stamp.
pub proof fn lemma_other_extensions_carry_no_stamp(front: Seq<char>, ext: Seq<char>)
    requires
        forall|k: int| 0 <= k < ext.len() ==> #[trigger] ext[k] != '.',
        !(ext == seq!['g', 'z'] || ext == seq!['d', 'u', 'm', 'p'] || ext == seq!['t', 'a', 'r'] || ext == seq![
            'z',
            'i',
            'p',
        ] || ext == seq!['s', 'q', 'l']),
    ensures
        stamp_text(front + seq!['.'] + ext) is None,
        filename_timestamp(front + seq!['.'] + ext) == Err::<i64, TimestampError>(TimestampError::NoMatch),
{
    let name = front + seq!['.'] + ext;
    let d = front.len() as int;
    let q = |i: int| stamp_match_at(name, i);
    assert(name[d] == '.');
    assert forall|i: int| 0 <= i <= name.len() implies !#[trigger] q(i) by {
        if q(i) {
            let h = hex_end(name, i + 18);
            let t = name.subrange(h + 1, name.len() as int);
            if h < d {
                assert(t[d - (h + 1)] == name[d]);
                lemma_extension_has_no_dot(t, d - (h + 1));
            } else if h > d {
                assert(name[h] == ext[h - (d + 1)]);
            } else {
                assert(t =~= ext);
            }
        }
    }
    lemma_first_index_none(name.len() as int, q);
}

/// After any `.` of a name ending in `.zz`, or in a `.`, no backup extension
/// follows.
proof fn lemma_no_extension_after(s: Seq<char>, dot: int, h: int)
    requires
        0 <= dot < s.len(),
        s[dot] == '.',
        s.len() == dot + 1 || (s.len() == dot + 3 && s[dot + 1] == 'z' && s[dot + 2] == 'z'),
        0 <= h < s.len(),
        s[h] == '.',
    ensures
        !is_backup_extension(s.subrange(h + 1, s.len() as int)),
{
    let t = s.subrange(h + 1, s.len() as int);
    if is_backup_extension(t) {
        if s.len() == dot + 1 {
            assert(t[t.len() - 1] == s[dot]);
            lemma_extension_has_no_dot(t, t.len() - 1);
        } else if h == dot {
            assert(t =~= seq!['z', 'z']);
        } else if h < dot {
            assert(t[dot - (h + 1)] == s[dot]);
            lemma_extension_has_no_dot(t, dot - (h + 1));
        }
    }
}

/// A name that ends in `.zz`, or in a `.`, carries no time stamp.
proof fn lemma_stamp_absent(s: Seq<char>, dot: int)
    requires
        0 <= dot < s.len(),
        s[dot] == '.',
        s.len() == dot + 1 || (s.len() == dot + 3 && s[dot + 1] == 'z' && s[dot + 2] == 'z'),
    ensures
        stamp_text(s) is None,
{
    let q = |i: int| stamp_match_at(s, i);
    assert forall|i: int| 0 <= i <= s.len() implies !#[trigger] q(i) by {
        let h = hex_end(s, i + 18);
        if 0 <= h < s.len() && s[h] == '.' {
            lemma_no_extension_after(s, dot, h);
        }
    }
    lemma_first_index_none(s.len() as int, q);
}

/// The time stamp a backup name made by `get_default_backup_name` carries: for
/// gzip and zlib backups it is the date the name was made with, whatever the
/// database's name, given a date of the shape `YYYY-MM-DD-HHMMSS` and a UUID
/// whose first field is lower-case hexadecimal, as `Utc::now()` and
/// `Uuid::new_v4()` give them; deflate and uncompressed backups, named with the
/// extensions `zz` and none, carry no time stamp a listing can read.
pub proof fn lemma_backup_name_time_stamp(name: Seq<char>, date: Seq<char>, uuid: Seq<char>, format: CompressionFormat)
    requires
        date.len() == 17,
        stamp_shape_at(date, 0),
        first_field(uuid).len() > 0,
        forall|k: int| 0 <= k < first_field(uuid).len() ==> is_hex(#[trigger] first_field(uuid)[k]),
    ensures
        (format == CompressionFormat::Gzip || format == CompressionFormat::Zlib) ==> stamp_text(
            backup_name_text(name, date, uuid, format),
        ) == Some(date),
        (format == CompressionFormat::Deflate || format == CompressionFormat::Uncompressed) ==> stamp_text(
            backup_name_text(name, date, uuid, format),
        ) is None,
{
    let f = first_field(uuid);
    let e = extension_text(format);
    let s = backup_name_text(name, date, uuid, format);
    let p: int = name.len() as int + 1;
    let m: int = f.len() as int;
    let dot = p + 18 + m;
    let a = name + seq!['-'];
    let b = a + date + seq!['-'];
    let c = b + f + seq!['.'];
    assert(s == c + e);
    assert(s.len() == dot + 1 + e.len());
    assert(s.subrange(p, p + 17) =~= date);
    assert(s.subrange(p + 18, dot) =~= f);
    assert(s.subrange(dot + 1, s.len() as int) =~= e);
    assert(s[p + 17] == '-') by {
        assert(s[p + 17] == b[p + 17]);
    }
    assert(s[dot] == '.') by {
        assert(s[dot] == c[dot]);
    }
    if format == CompressionFormat::Gzip || format == CompressionFormat::Zlib {
        assert(stamp_shape_at(s, p)) by {
            assert forall|k: int| 0 <= k < 17 implies (if k == 4 || k == 7 || k == 10 {
                s[p + k] == '-'
            } else {
                is_decimal_digit(#[trigger] s[p + k])
            }) by {
                assert(s[p + k] == s.subrange(p, p + 17)[k]);
                assert(date[0 + k] == date[k]);
            }
        }
        assert forall|k: int| p + 18 <= k < dot implies is_hex(#[trigger] s[k]) by {
            assert(s[k] == s.subrange(p + 18, dot)[k - (p + 18)]);
        }
        lemma_stamp_found(s, p, m);
    } else {
        if format == CompressionFormat::Deflate {
            assert(s[dot + 1] == s.subrange(dot + 1, s.len() as int)[0]);
            assert(s[dot + 2] == s.subrange(dot + 1, s.len() as int)[1]);
        }
        lemma_stamp_absent(s, dot);
    }
}

// ---------------------------------------------------------------------------
// Platforms

/// Why the running platform has no downloads.
#[derive(Debug, Clone, Copy, PartialEq, Eq)]
pub enum PlatformError {
    UnsupportedArchitecture,
    UnsupportedOperatingSystem,
}

/// The architecture name used in download URLs for Rust's
/// `std::env::consts::ARCH` value.
pub open spec fn arch_download_name(arch: Seq<char>) -> Option<Seq<char>> {
    if arch == seq!['x', '8', '6', '_', '6', '4'] || arch == seq!['a', 'm', 'd', '6', '4'] {
        Some(seq!['x', '8', '6', '_', '6', '4'])
    } else if arch == seq!['a', 'a', 'r', 'c', 'h', '6', '4'] || arch == seq!['a', 'r', 'm', '6', '4'] {
        Some(seq!['a', 'r', 'm', '6', '4'])
    } else {
        None
    }
}

/// The architecture name used in download URLs, for the architecture `arch`
/// that the program was built for (`std::env::consts::ARCH`).
pub fn get_arch(arch: &str) -> (r: Result<String, PlatformError>)
    ensures
        match arch_download_name(arch@) {
            Some(name) => r matches Ok(s) && s@ == name,
            None => r == Err::<String, PlatformError>(PlatformError::UnsupportedArchitecture),
        },
{
    let a = chars_of(arch);
    let s = a.as_slice();
    if chars_eq(s, &['x', '8', '6', '_', '6', '4']) || chars_eq(s, &['a', 'm', 'd', '6', '4']) {
        Ok(string_from_chars(&['x', '8', '6', '_', '6', '4']))
    } else if chars_eq(s, &['a', 'a', 'r', 'c', 'h', '6', '4']) || chars_eq(s, &['a', 'r', 'm', '6', '4']) {
        Ok(string_from_chars(&['a', 'r', 'm', '6', '4']))
    } else {
        Err(PlatformError::UnsupportedArchitecture)
    }
}

/// The kinds of operating system that `os_info` reports and that downloads
/// are told apart by; `Other` stands for every other kind.
#[derive(Debug, Clone, Copy, PartialEq, Eq)]
pub enum OsKind {
    Linux,
    Ubuntu,
    Debian,
    Fedora,
    Redhat,
    CentOS,
    Alpine,
    Mint,
    Arch,
    Windows,
    Macos,
    Other,
}

/// The operating system name used in download URLs.
pub open spec fn os_download_name(os: OsKind) -> Option<Seq<char>> {
    match os {
        OsKind::Windows => Some(seq!['w', 'i', 'n', 'd', 'o', 'w', 's']),
        OsKind::Macos => Some(seq!['m', 'a', 'c', 'o', 's']),
        OsKind::Other => None,
        _ => Some(seq!['l', 'i', 'n', 'u', 'x']),
    }
}

/// The operating system name used in download URLs, for the kind of system
/// that `os_info` detected.
pub fn os_name_for(os_type: OsKind) -> (r: Result<String, PlatformError>)
    ensures
        match os_download_name(os_type) {
            Some(name) => r matches Ok(s) && s@ == name,
            None => r == Err::<String, PlatformError>(PlatformError::UnsupportedOperatingSystem),
        },
{
    match os_type {
        OsKind::Windows => Ok(string_from_chars(&['w', 'i', 'n', 'd', 'o', 'w', 's'])),
        OsKind::Macos => Ok(string_from_chars(&['m', 'a', 'c', 'o', 's'])),
        OsKind::Other => Err(PlatformError::UnsupportedOperatingSystem),
        _ => Ok(string_from_chars(&['l', 'i', 'n', 'u', 'x'])),
    }
}

/// The kind of the running operating system, as `os_info::get().os_type()`
/// reports it; the kinds that downloads do not tell apart come back as
/// `Other`. The result depends on the machine, so nothing is promised of it.
#[verifier::external_body]
fn detect_os_kind() -> (r: OsKind) {
    match os_info::get().os_type() {
        os_info::Type::Linux => OsKind::Linux,
        os_info::Type::Ubuntu => OsKind::Ubuntu,
        os_info::Type::Debian => OsKind::Debian,
        os_info::Type::Fedora => OsKind::Fedora,
        os_info::Type::Redhat => OsKind::Redhat,
        os_info::Type::CentOS => OsKind::CentOS,
        os_info::Type::Alpine => OsKind::Alpine,
        os_info::Type::Mint => OsKind::Mint,
        os_info::Type::Arch => OsKind::Arch,
        os_info::Type::Windows => OsKind::Windows,
        os_info::Type::Macos => OsKind::Macos,
        _ => OsKind::Other,
    }
}

/// The operating system name used in download URLs for the running system:
/// `linux` for the Linux distributions, `windows` or `macos`; any other system
/// is unsupported. Which one comes back depends on the machine.
pub fn get_os() -> (r: Result<String, PlatformError>)
    ensures
        match r {
            Ok(s) => exists|k: OsKind| os_download_name(k) == Some(s@),
            Err(e) => e == PlatformError::UnsupportedOperatingSystem,
        },
{
    let kind = detect_os_kind();
    let r = os_name_for(kind);
    proof {
        if r is Ok {
            assert(os_download_name(kind) == Some(r->Ok_0@));
        }
    }
    r
}

} // verus!
