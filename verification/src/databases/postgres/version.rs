//! PostgreSQL server versions as reported by the server and as written by users.
use vstd::prelude::*;

use crate::databases::version::VersionTrait;
use crate::text::{
    chars_match_at, chars_of, digits_end, digits_end_at, find_char, find_char_at, first_index,
    lemma_first_index_is, lemma_first_index_none, parse_u16, parse_unsigned,
};

verus! {

broadcast use vstd::string::group_string_axioms;

/// A PostgreSQL server version.
#[derive(Debug, Clone, Copy, PartialEq, Eq)]
pub struct PostgreSQLVersion {
    pub major: u16,
    pub minor: u16,
}

/// `"12.4"` read as a version: the text is split on `.`, and the first two
/// fields must read as `u16` (later fields are ignored).
pub open spec fn pg_version_from_text(s: Seq<char>) -> Option<PostgreSQLVersion> {
    let d1 = find_char(s, '.', 0);
    if d1 >= s.len() {
        None
    } else {
        let d2 = find_char(s, '.', d1 + 1);
        match (parse_u16(s.subrange(0, d1)), parse_u16(s.subrange(d1 + 1, d2))) {
            (Some(major), Some(minor)) => Some(PostgreSQLVersion { major, minor }),
            _ => None,
        }
    }
}

/// The text `"PostgreSQL "` that precedes the version in `SELECT version()`.
pub open spec fn pg_banner() -> Seq<char> {
    seq!['P', 'o', 's', 't', 'g', 'r', 'e', 'S', 'Q', 'L', ' ']
}

/// The pattern `PostgreSQL (\d+)\.(\d+)` matches at `i`.
pub open spec fn pg_banner_match_at(s: Seq<char>, i: int) -> bool {
    let e1 = digits_end(s, i + 11);
    &&& 0 <= i
    &&& i + 11 <= s.len()
    &&& s.subrange(i, i + 11) == pg_banner()
    &&& e1 > i + 11
    &&& e1 < s.len()
    &&& s[e1] == '.'
    &&& digits_end(s, e1 + 1) > e1 + 1
}

/// The two captured digit runs of the leftmost match of `PostgreSQL (\d+)\.(\d+)`.
pub open spec fn pg_banner_captures(s: Seq<char>) -> Option<(Seq<char>, Seq<char>)> {
    match first_index(s.len() as int, |i: int| pg_banner_match_at(s, i)) {
        Some(i) => {
            let e1 = digits_end(s, i + 11);
            let e2 = digits_end(s, e1 + 1);
            Some((s.subrange(i + 11, e1), s.subrange(e1 + 1, e2)))
        },
        None => None,
    }
}

/// The version in a `SELECT version()` banner such as
/// `"PostgreSQL 16.2 on x86_64-pc-linux-gnu"`.
pub open spec fn pg_version_from_banner(s: Seq<char>) -> Option<PostgreSQLVersion> {
    match pg_banner_captures(s) {
        Some((a, b)) => match (parse_u16(a), parse_u16(b)) {
            (Some(major), Some(minor)) => Some(PostgreSQLVersion { major, minor }),
            _ => None,
        },
        None => None,
    }
}

/// Whether `PostgreSQL (\d+)\.(\d+)` matches at `i`.
fn pg_banner_match_exec(s: &[char], banner: &[char], i: usize) -> (r: bool)
    requires
        banner@ == pg_banner(),
        i <= s@.len(),
    ensures
        r == pg_banner_match_at(s@, i as int),
{
    if !chars_match_at(s, i, banner) {
        return false;
    }
    assert(banner@.len() == 11);
    let n = s.len();
    assert(i + 11 <= n);
    let e1 = digits_end_at(s, i + 11);
    if e1 == i + 11 || e1 >= s.len() || s[e1] != '.' {
        return false;
    }
    let e2 = digits_end_at(s, e1 + 1);
    e2 > e1 + 1
}

/// The leftmost match of `PostgreSQL (\d+)\.(\d+)` in `s`, with the ends of its
/// two digit runs.
pub fn find_pg_banner(s: &[char]) -> (r: Option<(usize, usize, usize)>)
    ensures
        match r {
            Some((i, e1, e2)) => {
                &&& i + 11 < e1 < e2 <= s@.len()
                &&& pg_banner_captures(s@) == Some((s@.subrange(i + 11, e1 as int), s@.subrange(e1 + 1, e2 as int)))
            },
            None => pg_banner_captures(s@) is None,
        },
{
    let banner = chars_of("PostgreSQL ");
    proof {
        reveal_strlit("PostgreSQL ");
        assert(banner@ =~= pg_banner());
    }
    let mut i: usize = 0;
    while i < s.len()
        invariant
            i <= s@.len(),
            banner@ == pg_banner(),
            forall|j: int| 0 <= j < i ==> !#[trigger] pg_banner_match_at(s@, j),
        decreases s@.len() - i,
    {
        if pg_banner_match_exec(s, banner.as_slice(), i) {
            let e1 = digits_end_at(s, i + 11);
            let e2 = digits_end_at(s, e1 + 1);
            proof {
                let p = |k: int| pg_banner_match_at(s@, k);
                assert(p(i as int));
                assert forall|j: int| 0 <= j < i implies !#[trigger] p(j) by {
                    assert(!pg_banner_match_at(s@, j));
                }
                lemma_first_index_is(s@.len() as int, p, i as int);
            }
            return Some((i, e1, e2));
        }
        i = i + 1;
    }
    proof {
        let p = |k: int| pg_banner_match_at(s@, k);
        assert forall|j: int| 0 <= j <= s@.len() implies !#[trigger] p(j) by {
            if j < s@.len() {
                assert(!pg_banner_match_at(s@, j));
            }
        }
        lemma_first_index_none(s@.len() as int, p);
    }
    None
}

impl VersionTrait for PostgreSQLVersion {
    /// Reads `"major.minor"`; see `pg_version_from_text`.
    fn from_str(string: &str) -> (r: Option<Self>)
        ensures
            r == pg_version_from_text(string@),
    {
        let s = chars_of(string);
        let d1 = find_char_at(s.as_slice(), '.', 0);
        if d1 >= s.len() {
            return None;
        }
        let d2 = find_char_at(s.as_slice(), '.', d1 + 1);
        let major = parse_unsigned(s.as_slice(), 0, d1, 65535);
        let minor = parse_unsigned(s.as_slice(), d1 + 1, d2, 65535);
        match (major, minor) {
            (Some(major), Some(minor)) => Some(PostgreSQLVersion { major: major as u16, minor: minor as u16 }),
            _ => None,
        }
    }

    /// Reads the version from a `SELECT version()` banner; see
    /// `pg_version_from_banner`.
    fn parse_string_version(version_string: &str) -> (r: Option<Self>)
        ensures
            r == pg_version_from_banner(version_string@),
    {
        let s = chars_of(version_string);
        match find_pg_banner(s.as_slice()) {
            Some((i, e1, e2)) => {
                let major = parse_unsigned(s.as_slice(), i + 11, e1, 65535);
                let minor = parse_unsigned(s.as_slice(), e1 + 1, e2, 65535);
                match (major, minor) {
                    (Some(major), Some(minor)) => Some(PostgreSQLVersion { major: major as u16, minor: minor as u16 }),
                    _ => None,
                }
            },
            None => None,
        }
    }
}

} // verus!
