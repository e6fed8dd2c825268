//! The PostgreSQL major versions whose client tools this crate can install.
use vstd::prelude::*;

use crate::text::{chars_eq, chars_of, concat_str};

verus! {

/// A supported PostgreSQL major version.
#[derive(Debug, Clone, Copy, PartialEq, Eq, Structural, PartialOrd, Ord)]
pub enum PostgresVersion {
    V9_6,
    V10,
    V11,
    V12,
    V13,
    V14,
    V15,
    V16,
    V17,
}

/// The version the client tools default to.
pub const DEFAULT_POSTGRES_VERSION: PostgresVersion = PostgresVersion::V15;

/// The version as text: `"9.6"`, `"10"`, ..., `"17"`.
pub open spec fn pg_version_text(v: PostgresVersion) -> Seq<char> {
    match v {
        PostgresVersion::V9_6 => seq!['9', '.', '6'],
        PostgresVersion::V10 => seq!['1', '0'],
        PostgresVersion::V11 => seq!['1', '1'],
        PostgresVersion::V12 => seq!['1', '2'],
        PostgresVersion::V13 => seq!['1', '3'],
        PostgresVersion::V14 => seq!['1', '4'],
        PostgresVersion::V15 => seq!['1', '5'],
        PostgresVersion::V16 => seq!['1', '6'],
        PostgresVersion::V17 => seq!['1', '7'],
    }
}

/// The versions in increasing order.
pub open spec fn all_pg_versions() -> Seq<PostgresVersion> {
    seq![
        PostgresVersion::V9_6,
        PostgresVersion::V10,
        PostgresVersion::V11,
        PostgresVersion::V12,
        PostgresVersion::V13,
        PostgresVersion::V14,
        PostgresVersion::V15,
        PostgresVersion::V16,
        PostgresVersion::V17,
    ]
}

/// The version whose text is `s`, if there is one.
pub open spec fn pg_version_of_text(s: Seq<char>) -> Option<PostgresVersion> {
    if s == pg_version_text(PostgresVersion::V9_6) {
        Some(PostgresVersion::V9_6)
    } else if s == pg_version_text(PostgresVersion::V10) {
        Some(PostgresVersion::V10)
    } else if s == pg_version_text(PostgresVersion::V11) {
        Some(PostgresVersion::V11)
    } else if s == pg_version_text(PostgresVersion::V12) {
        Some(PostgresVersion::V12)
    } else if s == pg_version_text(PostgresVersion::V13) {
        Some(PostgresVersion::V13)
    } else if s == pg_version_text(PostgresVersion::V14) {
        Some(PostgresVersion::V14)
    } else if s == pg_version_text(PostgresVersion::V15) {
        Some(PostgresVersion::V15)
    } else if s == pg_version_text(PostgresVersion::V16) {
        Some(PostgresVersion::V16)
    } else if s == pg_version_text(PostgresVersion::V17) {
        Some(PostgresVersion::V17)
    } else {
        None
    }
}

impl PostgresVersion {
    /// Get the version as a string (e.g., "9.6", "10", "15")
    pub fn as_str(&self) -> (s: &'static str)
        ensures
            s@ == pg_version_text(*self),
    {
        match self {
            PostgresVersion::V9_6 => {
                proof { reveal_strlit("9.6"); }
                "9.6"
            },
            PostgresVersion::V10 => {
                proof { reveal_strlit("10"); }
                "10"
            },
            PostgresVersion::V11 => {
                proof { reveal_strlit("11"); }
                "11"
            },
            PostgresVersion::V12 => {
                proof { reveal_strlit("12"); }
                "12"
            },
            PostgresVersion::V13 => {
                proof { reveal_strlit("13"); }
                "13"
            },
            PostgresVersion::V14 => {
                proof { reveal_strlit("14"); }
                "14"
            },
            PostgresVersion::V15 => {
                proof { reveal_strlit("15"); }
                "15"
            },
            PostgresVersion::V16 => {
                proof { reveal_strlit("16"); }
                "16"
            },
            PostgresVersion::V17 => {
                proof { reveal_strlit("17"); }
                "17"
            },
        }
    }

    /// For package names (e.g., "postgresql-15")
    pub fn package_name(&self) -> (s: String)
        ensures
            s@ == "postgresql-"@ + pg_version_text(*self),
    {
        concat_str("postgresql-", self.as_str())
    }

    /// For contrib package
    pub fn contrib_package_name(&self) -> (s: String)
        ensures
            s@ == "postgresql-contrib-"@ + pg_version_text(*self),
    {
        concat_str("postgresql-contrib-", self.as_str())
    }

    /// For binary directory
    pub fn bin_path(&self) -> (s: String)
        ensures
            s@ == "/usr/lib/postgresql/"@ + pg_version_text(*self) + "/bin"@,
    {
        let head = concat_str("/usr/lib/postgresql/", self.as_str());
        head.concat("/bin")
    }

    /// Get all supported versions
    pub fn all() -> (v: Vec<PostgresVersion>)
        ensures
            v@ == all_pg_versions(),
    {
        let v = vec![
            PostgresVersion::V9_6,
            PostgresVersion::V10,
            PostgresVersion::V11,
            PostgresVersion::V12,
            PostgresVersion::V13,
            PostgresVersion::V14,
            PostgresVersion::V15,
            PostgresVersion::V16,
            PostgresVersion::V17,
        ];
        assert(v@ =~= all_pg_versions());
        v
    }

    /// Parse from string
    pub fn from_str(version: &str) -> (r: Option<Self>)
        ensures
            r == pg_version_of_text(version@),
    {
        let s = chars_of(version);
        let all = Self::all();
        let mut i: usize = 0;
        while i < all.len()
            invariant
                all@ == all_pg_versions(),
                s@ == version@,
                i <= all@.len(),
                forall|j: int| 0 <= j < i ==> s@ != pg_version_text(#[trigger] all@[j]),
            decreases all@.len() - i,
        {
            let v = all[i];
            let text = chars_of(v.as_str());
            if chars_eq(s.as_slice(), text.as_slice()) {
                proof {
                    lemma_pg_version_text_round_trip(v);
                }
                return Some(v);
            }
            i = i + 1;
        }
        None
    }
}

/// Every version reads back from its own text.
pub proof fn lemma_pg_version_text_round_trip(v: PostgresVersion)
    ensures
        pg_version_of_text(pg_version_text(v)) == Some(v),
{
    match v {
        PostgresVersion::V9_6 => {

        },
        PostgresVersion::V10 => {
            assert(pg_version_text(PostgresVersion::V10).len() != pg_version_text(PostgresVersion::V9_6).len());
        },
        PostgresVersion::V11 => {
            assert(pg_version_text(PostgresVersion::V11).len() != pg_version_text(PostgresVersion::V9_6).len());
            assert(pg_version_text(PostgresVersion::V11)[1] != pg_version_text(PostgresVersion::V10)[1]);
        },
        PostgresVersion::V12 => {
            assert(pg_version_text(PostgresVersion::V12).len() != pg_version_text(PostgresVersion::V9_6).len());
            assert(pg_version_text(PostgresVersion::V12)[1] != pg_version_text(PostgresVersion::V10)[1]);
            assert(pg_version_text(PostgresVersion::V12)[1] != pg_version_text(PostgresVersion::V11)[1]);
        },
        PostgresVersion::V13 => {
            assert(pg_version_text(PostgresVersion::V13).len() != pg_version_text(PostgresVersion::V9_6).len());
            assert(pg_version_text(PostgresVersion::V13)[1] != pg_version_text(PostgresVersion::V10)[1]);
            assert(pg_version_text(PostgresVersion::V13)[1] != pg_version_text(PostgresVersion::V11)[1]);
            assert(pg_version_text(PostgresVersion::V13)[1] != pg_version_text(PostgresVersion::V12)[1]);
        },
        PostgresVersion::V14 => {
            assert(pg_version_text(PostgresVersion::V14).len() != pg_version_text(PostgresVersion::V9_6).len());
            assert(pg_version_text(PostgresVersion::V14)[1] != pg_version_text(PostgresVersion::V10)[1]);
            assert(pg_version_text(PostgresVersion::V14)[1] != pg_version_text(PostgresVersion::V11)[1]);
            assert(pg_version_text(PostgresVersion::V14)[1] != pg_version_text(PostgresVersion::V12)[1]);
            assert(pg_version_text(PostgresVersion::V14)[1] != pg_version_text(PostgresVersion::V13)[1]);
        },
        PostgresVersion::V15 => {
            assert(pg_version_text(PostgresVersion::V15).len() != pg_version_text(PostgresVersion::V9_6).len());
            assert(pg_version_text(PostgresVersion::V15)[1] != pg_version_text(PostgresVersion::V10)[1]);
            assert(pg_version_text(PostgresVersion::V15)[1] != pg_version_text(PostgresVersion::V11)[1]);
            assert(pg_version_text(PostgresVersion::V15)[1] != pg_version_text(PostgresVersion::V12)[1]);
            assert(pg_version_text(PostgresVersion::V15)[1] != pg_version_text(PostgresVersion::V13)[1]);
            assert(pg_version_text(PostgresVersion::V15)[1] != pg_version_text(PostgresVersion::V14)[1]);
        },
        PostgresVersion::V16 => {
            assert(pg_version_text(PostgresVersion::V16).len() != pg_version_text(PostgresVersion::V9_6).len());
            assert(pg_version_text(PostgresVersion::V16)[1] != pg_version_text(PostgresVersion::V10)[1]);
            assert(pg_version_text(PostgresVersion::V16)[1] != pg_version_text(PostgresVersion::V11)[1]);
            assert(pg_version_text(PostgresVersion::V16)[1] != pg_version_text(PostgresVersion::V12)[1]);
            assert(pg_version_text(PostgresVersion::V16)[1] != pg_version_text(PostgresVersion::V13)[1]);
            assert(pg_version_text(PostgresVersion::V16)[1] != pg_version_text(PostgresVersion::V14)[1]);
            assert(pg_version_text(PostgresVersion::V16)[1] != pg_version_text(PostgresVersion::V15)[1]);
        },
        PostgresVersion::V17 => {
            assert(pg_version_text(PostgresVersion::V17).len() != pg_version_text(PostgresVersion::V9_6).len());
            assert(pg_version_text(PostgresVersion::V17)[1] != pg_version_text(PostgresVersion::V10)[1]);
            assert(pg_version_text(PostgresVersion::V17)[1] != pg_version_text(PostgresVersion::V11)[1]);
            assert(pg_version_text(PostgresVersion::V17)[1] != pg_version_text(PostgresVersion::V12)[1]);
            assert(pg_version_text(PostgresVersion::V17)[1] != pg_version_text(PostgresVersion::V13)[1]);
            assert(pg_version_text(PostgresVersion::V17)[1] != pg_version_text(PostgresVersion::V14)[1]);
            assert(pg_version_text(PostgresVersion::V17)[1] != pg_version_text(PostgresVersion::V15)[1]);
            assert(pg_version_text(PostgresVersion::V17)[1] != pg_version_text(PostgresVersion::V16)[1]);
        },
    }
}

/// Every supported version is listed by `all`, exactly once, and the listed
/// texts are all different.
pub proof fn lemma_all_pg_versions(v: PostgresVersion)
    ensures
        all_pg_versions().contains(v),
        all_pg_versions().no_duplicates(),
        forall|i: int, j: int|
            0 <= i < j < all_pg_versions().len() ==> pg_version_text(#[trigger] all_pg_versions()[i]) != pg_version_text(
                #[trigger] all_pg_versions()[j],
            ),
{
    let a = all_pg_versions();
    match v {
        PostgresVersion::V9_6 => assert(a[0] == v),
        PostgresVersion::V10 => assert(a[1] == v),
        PostgresVersion::V11 => assert(a[2] == v),
        PostgresVersion::V12 => assert(a[3] == v),
        PostgresVersion::V13 => assert(a[4] == v),
        PostgresVersion::V14 => assert(a[5] == v),
        PostgresVersion::V15 => assert(a[6] == v),
        PostgresVersion::V16 => assert(a[7] == v),
        PostgresVersion::V17 => assert(a[8] == v),
    }
    assert forall|i: int, j: int| 0 <= i < j < a.len() implies pg_version_text(#[trigger] a[i]) != pg_version_text(#[trigger] a[j]) by {
        lemma_pg_version_text_round_trip(a[i]);
        lemma_pg_version_text_round_trip(a[j]);
    }
    assert forall|i: int, j: int| 0 <= i < a.len() && 0 <= j < a.len() && i != j implies a[i] != a[j] by {
        if i < j {
            lemma_pg_version_text_round_trip(a[i]);
            lemma_pg_version_text_round_trip(a[j]);
        } else {
            lemma_pg_version_text_round_trip(a[i]);
            lemma_pg_version_text_round_trip(a[j]);
        }
    }
}

} // verus!
