//! Versions of the database servers this crate backs up.
use vstd::prelude::*;

use super::mysql::version::MySqlVersion;
use super::postgres::version::PostgreSQLVersion;
use crate::text::{digits_end, digits_end_at, first_index, lemma_first_index_is, lemma_first_index_none};

verus! {

/// The version of a database server, by engine.
#[derive(Debug, Clone, Copy, PartialEq, Eq)]
pub enum Version {
    PostgreSQL(PostgreSQLVersion),
    MySql(MySqlVersion),
}

/// Reading a version from user text and from a server's version banner.
pub trait VersionTrait: Sized {
    fn from_str(string: &str) -> Option<Self>;

    fn parse_string_version(version_string: &str) -> Option<Self>;
}


/// The pattern `(\d+)\.(\d+)\.(\d+)` matches at `i`.
pub open spec fn triple_match_at(s: Seq<char>, i: int) -> bool {
    let e1 = digits_end(s, i);
    let e2 = digits_end(s, e1 + 1);
    &&& 0 <= i < s.len()
    &&& e1 > i
    &&& e1 < s.len()
    &&& s[e1] == '.'
    &&& e2 > e1 + 1
    &&& e2 < s.len()
    &&& s[e2] == '.'
    &&& digits_end(s, e2 + 1) > e2 + 1
}

/// The three captured digit runs of the leftmost match of `(\d+)\.(\d+)\.(\d+)`.
pub open spec fn triple_captures(s: Seq<char>) -> Option<(Seq<char>, Seq<char>, Seq<char>)> {
    match first_index(s.len() as int, |i: int| triple_match_at(s, i)) {
        Some(i) => {
            let e1 = digits_end(s, i);
            let e2 = digits_end(s, e1 + 1);
            let e3 = digits_end(s, e2 + 1);
            Some((s.subrange(i, e1), s.subrange(e1 + 1, e2), s.subrange(e2 + 1, e3)))
        },
        None => None,
    }
}

fn triple_match_exec(s: &[char], i: usize) -> (r: bool)
    requires
        i < s@.len(),
    ensures
        r == triple_match_at(s@, i as int),
{
    let n = s.len();
    let e1 = digits_end_at(s, i);
    if e1 == i || e1 >= n || s[e1] != '.' {
        return false;
    }
    let e2 = digits_end_at(s, e1 + 1);
    if e2 == e1 + 1 || e2 >= n || s[e2] != '.' {
        return false;
    }
    let e3 = digits_end_at(s, e2 + 1);
    e3 > e2 + 1
}

/// The leftmost match of `(\d+)\.(\d+)\.(\d+)` in `s`: where it starts and
/// where its three digit runs end.
pub fn find_triple(s: &[char]) -> (r: Option<(usize, usize, usize, usize)>)
    ensures
        match r {
            Some((i, e1, e2, e3)) => {
                &&& i < e1 < e2 < e3 <= s@.len()
                &&& triple_captures(s@) == Some(
                    (s@.subrange(i as int, e1 as int), s@.subrange(e1 + 1, e2 as int), s@.subrange(e2 + 1, e3 as int)),
                )
            },
            None => triple_captures(s@) is None,
        },
{
    let n = s.len();
    let mut i: usize = 0;
    while i < n
        invariant
            i <= n,
            n == s@.len(),
            forall|j: int| 0 <= j < i ==> !#[trigger] triple_match_at(s@, j),
        decreases n - i,
    {
        if triple_match_exec(s, i) {
            let e1 = digits_end_at(s, i);
            let e2 = digits_end_at(s, e1 + 1);
            let e3 = digits_end_at(s, e2 + 1);
            proof {
                let p = |k: int| triple_match_at(s@, k);
                assert(p(i as int));
                assert forall|j: int| 0 <= j < i implies !#[trigger] p(j) by {
                    assert(!triple_match_at(s@, j));
                }
                lemma_first_index_is(s@.len() as int, p, i as int);
            }
            return Some((i, e1, e2, e3));
        }
        i = i + 1;
    }
    proof {
        let p = |k: int| triple_match_at(s@, k);
        assert forall|j: int| 0 <= j <= s@.len() implies !#[trigger] p(j) by {
            if j < s@.len() {
                assert(!triple_match_at(s@, j));
            }
        }
        lemma_first_index_none(s@.len() as int, p);
    }
    None
}

} // verus!
