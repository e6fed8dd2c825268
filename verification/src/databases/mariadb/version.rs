//! MariaDB server versions that this crate has client tools for.
use vstd::prelude::*;

use core::cmp::Ordering;
use vstd::std_specs::cmp::PartialOrdSpec;

use crate::databases::version::{find_triple, triple_captures};
use crate::text::{chars_of, parse_u32, parse_unsigned, starts_with, starts_with_chars};

verus! {

broadcast use vstd::string::group_string_axioms;

/// A supported MariaDB version. Versions compare in the order in which they
/// are declared, which is the order of their numbers.
#[derive(Debug, Clone, Copy, PartialEq, Eq, Ord)]
pub enum MariaDBVersion {
    V10_5,
    V10_6,
    V10_11,
    V11_0,
    V11_1,
    V11_2,
    V11_3,
    V11_4,
    V11_5,
    V11_6,
    V11_7,
}

/// The version the client tools default to.
pub const DEFAULT_MARIADB_VERSION: MariaDBVersion = MariaDBVersion::V11_2;

/// The version as text, such as `"10.11"`.
pub open spec fn mariadb_version_text(v: MariaDBVersion) -> Seq<char> {
    match v {
        MariaDBVersion::V10_5 => seq!['1', '0', '.', '5'],
        MariaDBVersion::V10_6 => seq!['1', '0', '.', '6'],
        MariaDBVersion::V10_11 => seq!['1', '0', '.', '1', '1'],
        MariaDBVersion::V11_0 => seq!['1', '1', '.', '0'],
        MariaDBVersion::V11_1 => seq!['1', '1', '.', '1'],
        MariaDBVersion::V11_2 => seq!['1', '1', '.', '2'],
        MariaDBVersion::V11_3 => seq!['1', '1', '.', '3'],
        MariaDBVersion::V11_4 => seq!['1', '1', '.', '4'],
        MariaDBVersion::V11_5 => seq!['1', '1', '.', '5'],
        MariaDBVersion::V11_6 => seq!['1', '1', '.', '6'],
        MariaDBVersion::V11_7 => seq!['1', '1', '.', '7'],
    }
}

/// The major and minor numbers of a version.
pub open spec fn mariadb_version_numbers(v: MariaDBVersion) -> (u32, u32) {
    match v {
        MariaDBVersion::V10_5 => (10, 5),
        MariaDBVersion::V10_6 => (10, 6),
        MariaDBVersion::V10_11 => (10, 11),
        MariaDBVersion::V11_0 => (11, 0),
        MariaDBVersion::V11_1 => (11, 1),
        MariaDBVersion::V11_2 => (11, 2),
        MariaDBVersion::V11_3 => (11, 3),
        MariaDBVersion::V11_4 => (11, 4),
        MariaDBVersion::V11_5 => (11, 5),
        MariaDBVersion::V11_6 => (11, 6),
        MariaDBVersion::V11_7 => (11, 7),
    }
}

/// The place of a version in the order in which the versions are declared,
/// which is the order that `PartialOrd` and the derived `Ord` compare by.
pub open spec fn mariadb_version_rank(v: MariaDBVersion) -> int {
    match v {
        MariaDBVersion::V10_5 => 0,
        MariaDBVersion::V10_6 => 1,
        MariaDBVersion::V10_11 => 2,
        MariaDBVersion::V11_0 => 3,
        MariaDBVersion::V11_1 => 4,
        MariaDBVersion::V11_2 => 5,
        MariaDBVersion::V11_3 => 6,
        MariaDBVersion::V11_4 => 7,
        MariaDBVersion::V11_5 => 8,
        MariaDBVersion::V11_6 => 9,
        MariaDBVersion::V11_7 => 10,
    }
}

/// How two versions compare: by their places in the declaration order.
pub open spec fn mariadb_version_compare(v1: MariaDBVersion, v2: MariaDBVersion) -> Ordering {
    if mariadb_version_rank(v1) < mariadb_version_rank(v2) {
        Ordering::Less
    } else if mariadb_version_rank(v1) == mariadb_version_rank(v2) {
        Ordering::Equal
    } else {
        Ordering::Greater
    }
}

impl PartialOrd for MariaDBVersion {
    fn partial_cmp(&self, other: &Self) -> (r: Option<Ordering>) {
        let a = self.rank();
        let b = other.rank();
        if a < b {
            Some(Ordering::Less)
        } else if a == b {
            Some(Ordering::Equal)
        } else {
            Some(Ordering::Greater)
        }
    }
}

impl vstd::std_specs::cmp::PartialOrdSpecImpl for MariaDBVersion {
    open spec fn obeys_partial_cmp_spec() -> bool {
        true
    }

    open spec fn partial_cmp_spec(&self, other: &Self) -> Option<Ordering> {
        Some(mariadb_version_compare(*self, *other))
    }
}

/// The first version, in the order below, whose text `s` begins with.
pub open spec fn mariadb_version_of_prefix(s: Seq<char>) -> Option<MariaDBVersion> {
    if starts_with(s, mariadb_version_text(MariaDBVersion::V10_5)) {
        Some(MariaDBVersion::V10_5)
    } else if starts_with(s, mariadb_version_text(MariaDBVersion::V10_6)) {
        Some(MariaDBVersion::V10_6)
    } else if starts_with(s, mariadb_version_text(MariaDBVersion::V10_11)) {
        Some(MariaDBVersion::V10_11)
    } else if starts_with(s, mariadb_version_text(MariaDBVersion::V11_0)) {
        Some(MariaDBVersion::V11_0)
    } else if starts_with(s, mariadb_version_text(MariaDBVersion::V11_1)) {
        Some(MariaDBVersion::V11_1)
    } else if starts_with(s, mariadb_version_text(MariaDBVersion::V11_2)) {
        Some(MariaDBVersion::V11_2)
    } else if starts_with(s, mariadb_version_text(MariaDBVersion::V11_3)) {
        Some(MariaDBVersion::V11_3)
    } else if starts_with(s, mariadb_version_text(MariaDBVersion::V11_4)) {
        Some(MariaDBVersion::V11_4)
    } else if starts_with(s, mariadb_version_text(MariaDBVersion::V11_5)) {
        Some(MariaDBVersion::V11_5)
    } else if starts_with(s, mariadb_version_text(MariaDBVersion::V11_6)) {
        Some(MariaDBVersion::V11_6)
    } else if starts_with(s, mariadb_version_text(MariaDBVersion::V11_7)) {
        Some(MariaDBVersion::V11_7)
    } else {
        None
    }
}

/// The version with the given major and minor numbers, if it is supported.
pub open spec fn mariadb_version_of_numbers(major: u32, minor: u32) -> Option<MariaDBVersion> {
    if major == 10 && minor == 5 {
        Some(MariaDBVersion::V10_5)
    } else if major == 10 && minor == 6 {
        Some(MariaDBVersion::V10_6)
    } else if major == 10 && minor == 11 {
        Some(MariaDBVersion::V10_11)
    } else if major == 11 && minor == 0 {
        Some(MariaDBVersion::V11_0)
    } else if major == 11 && minor == 1 {
        Some(MariaDBVersion::V11_1)
    } else if major == 11 && minor == 2 {
        Some(MariaDBVersion::V11_2)
    } else if major == 11 && minor == 3 {
        Some(MariaDBVersion::V11_3)
    } else if major == 11 && minor == 4 {
        Some(MariaDBVersion::V11_4)
    } else if major == 11 && minor == 5 {
        Some(MariaDBVersion::V11_5)
    } else if major == 11 && minor == 6 {
        Some(MariaDBVersion::V11_6)
    } else if major == 11 && minor == 7 {
        Some(MariaDBVersion::V11_7)
    } else {
        None
    }
}

/// The version in a server banner such as `"11.2.2-MariaDB-1:11.2.2+maria~ubu2204"`:
/// the leftmost `(\d+)\.(\d+)\.(\d+)`, each part read as `u32`, of which
/// the major and minor numbers must name a supported version.
pub open spec fn mariadb_version_from_banner(s: Seq<char>) -> Option<MariaDBVersion> {
    match triple_captures(s) {
        Some((a, b, c)) => match (parse_u32(a), parse_u32(b), parse_u32(c)) {
            (Some(major), Some(minor), Some(_patch)) => mariadb_version_of_numbers(major, minor),
            _ => None,
        },
        None => None,
    }
}

impl MariaDBVersion {
    /// The place of the version in the declaration order.
    fn rank(&self) -> (r: u8)
        ensures
            r == mariadb_version_rank(*self),
    {
        match self {
            Self::V10_5 => 0,
            Self::V10_6 => 1,
            Self::V10_11 => 2,
            Self::V11_0 => 3,
            Self::V11_1 => 4,
            Self::V11_2 => 5,
            Self::V11_3 => 6,
            Self::V11_4 => 7,
            Self::V11_5 => 8,
            Self::V11_6 => 9,
            Self::V11_7 => 10,
        }
    }

    pub fn as_str(&self) -> (s: &'static str)
        ensures
            s@ == mariadb_version_text(*self),
    {
        match self {
            Self::V10_5 => {
                proof { reveal_strlit("10.5"); }
                "10.5"
            },
            Self::V10_6 => {
                proof { reveal_strlit("10.6"); }
                "10.6"
            },
            Self::V10_11 => {
                proof { reveal_strlit("10.11"); }
                "10.11"
            },
            Self::V11_0 => {
                proof { reveal_strlit("11.0"); }
                "11.0"
            },
            Self::V11_1 => {
                proof { reveal_strlit("11.1"); }
                "11.1"
            },
            Self::V11_2 => {
                proof { reveal_strlit("11.2"); }
                "11.2"
            },
            Self::V11_3 => {
                proof { reveal_strlit("11.3"); }
                "11.3"
            },
            Self::V11_4 => {
                proof { reveal_strlit("11.4"); }
                "11.4"
            },
            Self::V11_5 => {
                proof { reveal_strlit("11.5"); }
                "11.5"
            },
            Self::V11_6 => {
                proof { reveal_strlit("11.6"); }
                "11.6"
            },
            Self::V11_7 => {
                proof { reveal_strlit("11.7"); }
                "11.7"
            },
        }
    }

    /// The first version whose text `version` begins with; see
    /// `mariadb_version_of_prefix`.
    pub fn from_str(version: &str) -> (r: Option<Self>)
        ensures
            r == mariadb_version_of_prefix(version@),
    {
        let s = chars_of(version);
        if starts_with_chars(s.as_slice(), &['1', '0', '.', '5']) {
            Some(Self::V10_5)
        } else if starts_with_chars(s.as_slice(), &['1', '0', '.', '6']) {
            Some(Self::V10_6)
        } else if starts_with_chars(s.as_slice(), &['1', '0', '.', '1', '1']) {
            Some(Self::V10_11)
        } else if starts_with_chars(s.as_slice(), &['1', '1', '.', '0']) {
            Some(Self::V11_0)
        } else if starts_with_chars(s.as_slice(), &['1', '1', '.', '1']) {
            Some(Self::V11_1)
        } else if starts_with_chars(s.as_slice(), &['1', '1', '.', '2']) {
            Some(Self::V11_2)
        } else if starts_with_chars(s.as_slice(), &['1', '1', '.', '3']) {
            Some(Self::V11_3)
        } else if starts_with_chars(s.as_slice(), &['1', '1', '.', '4']) {
            Some(Self::V11_4)
        } else if starts_with_chars(s.as_slice(), &['1', '1', '.', '5']) {
            Some(Self::V11_5)
        } else if starts_with_chars(s.as_slice(), &['1', '1', '.', '6']) {
            Some(Self::V11_6)
        } else if starts_with_chars(s.as_slice(), &['1', '1', '.', '7']) {
            Some(Self::V11_7)
        } else {
            None
        }
    }

    /// The supported version with the given major and minor numbers.
    pub fn from_version_tuple(major: u32, minor: u32, _patch: u32) -> (r: Option<Self>)
        ensures
            r == mariadb_version_of_numbers(major, minor),
    {
        match (major, minor) {
            (10, 5) => Some(Self::V10_5),
            (10, 6) => Some(Self::V10_6),
            (10, 11) => Some(Self::V10_11),
            (11, 0) => Some(Self::V11_0),
            (11, 1) => Some(Self::V11_1),
            (11, 2) => Some(Self::V11_2),
            (11, 3) => Some(Self::V11_3),
            (11, 4) => Some(Self::V11_4),
            (11, 5) => Some(Self::V11_5),
            (11, 6) => Some(Self::V11_6),
            (11, 7) => Some(Self::V11_7),
            _ => None,
        }
    }

    /// Reads the version from a server banner; see `mariadb_version_from_banner`.
    pub fn parse_string_version(version_string: &str) -> (r: Option<MariaDBVersion>)
        ensures
            r == mariadb_version_from_banner(version_string@),
    {
        let s = chars_of(version_string);
        match find_triple(s.as_slice()) {
            Some((i, e1, e2, e3)) => {
                let major = parse_unsigned(s.as_slice(), i, e1, 4294967295);
                let minor = parse_unsigned(s.as_slice(), e1 + 1, e2, 4294967295);
                let patch = parse_unsigned(s.as_slice(), e2 + 1, e3, 4294967295);
                match (major, minor, patch) {
                    (Some(major), Some(minor), Some(patch)) => MariaDBVersion::from_version_tuple(
                        major as u32,
                        minor as u32,
                        patch as u32,
                    ),
                    _ => None,
                }
            },
            None => None,
        }
    }
}

/// Two different versions differ in their texts within the first four
/// characters, which every text has.
proof fn lemma_mariadb_texts_differ_early(v: MariaDBVersion, w: MariaDBVersion)
    requires
        v != w,
    ensures
        mariadb_version_text(v).len() >= 4,
        mariadb_version_text(w).len() >= 4,
        mariadb_version_text(v)[1] != mariadb_version_text(w)[1] || mariadb_version_text(v)[3]
            != mariadb_version_text(w)[3],
{
}

/// Every version reads back from its own text, whatever follows it (such as
/// the rest of a server's version string).
pub proof fn lemma_mariadb_version_text_round_trip(v: MariaDBVersion, rest: Seq<char>)
    ensures
        mariadb_version_of_prefix(mariadb_version_text(v) + rest) == Some(v),
{
    let s = mariadb_version_text(v) + rest;
    assert forall|w: MariaDBVersion| #[trigger] starts_with(s, mariadb_version_text(w)) <==> w == v by {
        let t = mariadb_version_text(v);
        if w == v {
            assert(s.take(t.len() as int) =~= t);
        } else {
            lemma_mariadb_texts_differ_early(v, w);
            let u = mariadb_version_text(w);
            if starts_with(s, u) {
                assert(s.take(u.len() as int)[1] == s[1] && s[1] == t[1]);
                assert(s.take(u.len() as int)[3] == s[3] && s[3] == t[3]);
            }
        }
    }
}

/// Every version is found again from its major and minor numbers, whatever the patch.
pub proof fn lemma_mariadb_version_numbers_round_trip(v: MariaDBVersion)
    ensures
        mariadb_version_of_numbers(mariadb_version_numbers(v).0, mariadb_version_numbers(v).1) == Some(v),
{
}

/// Versions compare in the order of their numbers: one is less than another
/// exactly when its major number is smaller, or equal with a smaller minor
/// number (so 10.6 is less than 10.11, unlike their texts); they compare equal
/// only when they are the same version; and two different versions never share
/// a text.
pub proof fn lemma_mariadb_version_order(v1: MariaDBVersion, v2: MariaDBVersion)
    ensures
        v1.partial_cmp_spec(&v2) == Some(Ordering::Less) <==> (mariadb_version_numbers(v1).0
            < mariadb_version_numbers(v2).0 || (mariadb_version_numbers(v1).0 == mariadb_version_numbers(v2).0
            && mariadb_version_numbers(v1).1 < mariadb_version_numbers(v2).1)),
        v1.partial_cmp_spec(&v2) == Some(Ordering::Equal) <==> v1 == v2,
        v1.partial_cmp_spec(&v2) == Some(Ordering::Greater) <==> v2.partial_cmp_spec(&v1) == Some(Ordering::Less),
        v1 != v2 ==> mariadb_version_text(v1) != mariadb_version_text(v2),
{
    lemma_mariadb_version_text_round_trip(v1, Seq::empty());
    lemma_mariadb_version_text_round_trip(v2, Seq::empty());
    assert(mariadb_version_text(v1) + Seq::<char>::empty() =~= mariadb_version_text(v1));
    assert(mariadb_version_text(v2) + Seq::<char>::empty() =~= mariadb_version_text(v2));
}

} // verus!
