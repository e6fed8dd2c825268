//! MySQL server versions.
use vstd::prelude::*;

use crate::databases::version::{find_triple, triple_captures, VersionTrait};
use crate::text::{chars_of, find_char, find_char_at, parse_u16, parse_unsigned};

verus! {

/// A MySQL server version.
#[derive(Debug, Clone, Copy, PartialEq, Eq)]
pub struct MySqlVersion {
    pub major: u16,
    pub minor: u16,
    pub patch: u16,
}

/// `"8.0.36"` read as a version: the text is split on `.`, and the first three
/// fields must read as `u16` (later fields are ignored).
pub open spec fn mysql_version_from_text(s: Seq<char>) -> Option<MySqlVersion> {
    let d1 = find_char(s, '.', 0);
    let d2 = find_char(s, '.', d1 + 1);
    let d3 = find_char(s, '.', d2 + 1);
    if d1 >= s.len() || d2 >= s.len() {
        None
    } else {
        match (parse_u16(s.subrange(0, d1)), parse_u16(s.subrange(d1 + 1, d2)), parse_u16(s.subrange(d2 + 1, d3))) {
            (Some(major), Some(minor), Some(patch)) => Some(MySqlVersion { major, minor, patch }),
            _ => None,
        }
    }
}

/// The version in a `SELECT version()` result such as `"8.0.36-0ubuntu0.22.04.1"`:
/// the leftmost `(\d+)\.(\d+)\.(\d+)`, each part read as `u16`.
pub open spec fn mysql_version_from_banner(s: Seq<char>) -> Option<MySqlVersion> {
    match triple_captures(s) {
        Some((a, b, c)) => match (parse_u16(a), parse_u16(b), parse_u16(c)) {
            (Some(major), Some(minor), Some(patch)) => Some(MySqlVersion { major, minor, patch }),
            _ => None,
        },
        None => None,
    }
}

impl VersionTrait for MySqlVersion {
    /// Reads `"major.minor.patch"`; see `mysql_version_from_text`.
    fn from_str(string: &str) -> (r: Option<Self>)
        ensures
            r == mysql_version_from_text(string@),
    {
        let s = chars_of(string);
        let n = s.len();
        let d1 = find_char_at(s.as_slice(), '.', 0);
        if d1 >= n {
            return None;
        }
        let d2 = find_char_at(s.as_slice(), '.', d1 + 1);
        if d2 >= n {
            return None;
        }
        let d3 = find_char_at(s.as_slice(), '.', d2 + 1);
        let major = parse_unsigned(s.as_slice(), 0, d1, 65535);
        let minor = parse_unsigned(s.as_slice(), d1 + 1, d2, 65535);
        let patch = parse_unsigned(s.as_slice(), d2 + 1, d3, 65535);
        match (major, minor, patch) {
            (Some(major), Some(minor), Some(patch)) => Some(
                MySqlVersion { major: major as u16, minor: minor as u16, patch: patch as u16 },
            ),
            _ => None,
        }
    }

    /// Reads the version from a server banner; see `mysql_version_from_banner`.
    fn parse_string_version(version_string: &str) -> (r: Option<Self>)
        ensures
            r == mysql_version_from_banner(version_string@),
    {
        let s = chars_of(version_string);
        match find_triple(s.as_slice()) {
            Some((i, e1, e2, e3)) => {
                let major = parse_unsigned(s.as_slice(), i, e1, 65535);
                let minor = parse_unsigned(s.as_slice(), e1 + 1, e2, 65535);
                let patch = parse_unsigned(s.as_slice(), e2 + 1, e3, 65535);
                match (major, minor, patch) {
                    (Some(major), Some(minor), Some(patch)) => Some(
                        MySqlVersion { major: major as u16, minor: minor as u16, patch: patch as u16 },
                    ),
                    _ => None,
                }
            },
            None => None,
        }
    }
}

} // verus!
