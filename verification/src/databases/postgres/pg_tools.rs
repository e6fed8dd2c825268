//! The PostgreSQL client tools kept in a cache directory per major version:
//! where they lie, how the server's version is read and checked, and the
//! arguments of a version query, a connection check and a dump.
use vstd::prelude::*;

use crate::databases::postgres::pg_versions::{
    pg_version_of_text, pg_version_text, PostgresVersion, DEFAULT_POSTGRES_VERSION,
};
use crate::databases::postgres::version::{find_pg_banner, pg_banner_captures};
use crate::text::{
    chars_of, concat_str, decimal_string, decimal_text, join_path, parse_u32, parse_unsigned, path_join,
    push_arg, texts,
};

verus! {

broadcast use vstd::string::group_string_axioms;

/// Why the tools cannot work with a server.
#[derive(Debug, Clone, Copy, PartialEq, Eq, Structural)]
pub enum PgToolsError {
    /// The server's answer names no version.
    VersionNotFound,
    /// The server runs a major version the tools do not know.
    UnsupportedVersion { major: u32, minor: u32 },
    /// The server runs another version than the tools.
    VersionMismatch { tools: PostgresVersion, server: PostgresVersion },
    /// A dump ran without error but gave no bytes.
    EmptyDump,
}

/// The client tools of one PostgreSQL major version.
#[derive(Debug, Clone)]
pub struct PgTools {
    pub cache_dir: String,
    pub version: PostgresVersion,
}

/// A digit run read as `u32`, or 0 where it does not fit.
pub open spec fn u32_or_zero(s: Seq<char>) -> u32 {
    match parse_u32(s) {
        Some(v) => v,
        None => 0,
    }
}

/// The version `(major, minor)` in a `SELECT version()` answer such as
/// `"PostgreSQL 15.4 on x86_64"`; a number too large for `u32` reads as 0.
pub open spec fn pg_major_minor(s: Seq<char>) -> Option<(u32, u32)> {
    match pg_banner_captures(s) {
        Some((a, b)) => Some((u32_or_zero(a), u32_or_zero(b))),
        None => None,
    }
}

/// The supported version a server's answer names, or why there is none.
pub open spec fn pg_server_version(s: Seq<char>) -> Result<PostgresVersion, PgToolsError> {
    match pg_major_minor(s) {
        None => Err(PgToolsError::VersionNotFound),
        Some((major, minor)) => match pg_version_of_text(decimal_text(major as nat)) {
            Some(v) => Ok(v),
            None => Err(PgToolsError::UnsupportedVersion { major, minor }),
        },
    }
}

/// The arguments of `psql` that ask the server for its version.
pub open spec fn pg_version_query_args(host: Seq<char>, port: u16, username: Seq<char>, database: Seq<char>) -> Seq<Seq<char>> {
    seq!["-h"@, host, "-p"@, decimal_text(port as nat), "-U"@, username, "-d"@, database, "-t"@, "-c"@, "SELECT version();"@]
}

/// The arguments of `psql` that check a connection, with a time-out of five
/// seconds.
pub open spec fn pg_probe_args(host: Seq<char>, port: u16, username: Seq<char>, database: Seq<char>) -> Seq<Seq<char>> {
    seq![
        "-h"@, host, "-p"@, decimal_text(port as nat), "-U"@, username, "-d"@, database, "-c"@, "SELECT 1"@,
        "-v"@, "TIMEOUT=5"@, "--set"@, "statement_timeout=5000"@,
    ]
}

/// The arguments of `pg_dump`: the custom format, compressed by `pg_dump`
/// itself at level 9 unless the dump is piped through `gzip`.
pub open spec fn pg_tools_dump_args(host: Seq<char>, port: u16, username: Seq<char>, database: Seq<char>, piped: bool) -> Seq<Seq<char>> {
    let head = if piped { seq!["--format=custom"@] } else { seq!["--format=custom"@, "--compress=9"@] };
    head + seq![
        "--host="@ + host,
        "--port="@ + decimal_text(port as nat),
        "--username="@ + username,
        database,
    ]
}

impl PgTools {
    /// The tools of `version`, kept in `pg_tools_cache` under `cache_root`.
    pub fn new(cache_root: &str, version: PostgresVersion) -> (r: Self)
        ensures
            r.cache_dir@ == path_join(cache_root@, "pg_tools_cache"@),
            r.version == version,
    {
        PgTools { cache_dir: join_path(cache_root, "pg_tools_cache"), version }
    }

    /// The tools of the default version, PostgreSQL 15.
    pub fn default(cache_root: &str) -> (r: Self)
        ensures
            r.cache_dir@ == path_join(cache_root@, "pg_tools_cache"@),
            r.version == DEFAULT_POSTGRES_VERSION,
    {
        Self::new(cache_root, DEFAULT_POSTGRES_VERSION)
    }

    /// Where `psql` lies: `<version>/bin/psql` under the cache directory.
    pub fn get_psql_path(&self) -> (r: String)
        ensures
            r@ == path_join(self.cache_dir@, pg_version_text(self.version) + "/bin/psql"@),
    {
        let rel = concat_str(self.version.as_str(), "/bin/psql");
        join_path(self.cache_dir.as_str(), rel.as_str())
    }

    /// Where `pg_dump` lies: `<version>/bin/pg_dump` under the cache directory.
    pub fn get_pg_dump_path(&self) -> (r: String)
        ensures
            r@ == path_join(self.cache_dir@, pg_version_text(self.version) + "/bin/pg_dump"@),
    {
        let rel = concat_str(self.version.as_str(), "/bin/pg_dump");
        join_path(self.cache_dir.as_str(), rel.as_str())
    }

    /// The major and minor version in a `SELECT version()` answer; see
    /// `pg_major_minor`.
    pub fn extract_postgres_version(version_string: &str) -> (r: Option<(u32, u32)>)
        ensures
            r == pg_major_minor(version_string@),
    {
        let s = chars_of(version_string);
        match find_pg_banner(s.as_slice()) {
            Some((i, e1, e2)) => {
                let major = match parse_unsigned(s.as_slice(), i + 11, e1, 4294967295) {
                    Some(v) => v as u32,
                    None => 0,
                };
                let minor = match parse_unsigned(s.as_slice(), e1 + 1, e2, 4294967295) {
                    Some(v) => v as u32,
                    None => 0,
                };
                Some((major, minor))
            },
            None => None,
        }
    }

    /// The supported version named by a server's answer to `SELECT version()`;
    /// see `pg_server_version`.
    pub fn server_version_from_output(output: &str) -> (r: Result<PostgresVersion, PgToolsError>)
        ensures
            r == pg_server_version(output@),
    {
        match Self::extract_postgres_version(output) {
            Some((major, minor)) => {
                let text = decimal_string(major as u64);
                match PostgresVersion::from_str(text.as_str()) {
                    Some(v) => Ok(v),
                    None => Err(PgToolsError::UnsupportedVersion { major, minor }),
                }
            },
            None => Err(PgToolsError::VersionNotFound),
        }
    }

    /// A dump or a restore goes ahead only where the server runs the tools'
    /// own version.
    pub fn check_server_version(&self, server: PostgresVersion) -> (r: Result<(), PgToolsError>)
        ensures
            r is Ok <==> server == self.version,
            r is Err ==> r == Err::<(), PgToolsError>(PgToolsError::VersionMismatch { tools: self.version, server }),
    {
        if server == self.version {
            Ok(())
        } else {
            Err(PgToolsError::VersionMismatch { tools: self.version, server })
        }
    }

    /// The arguments of `psql` asking for the server's version.
    pub fn version_query_args(database: &str, host: &str, port: u16, username: &str) -> (v: Vec<String>)
        ensures
            texts(v@) == pg_version_query_args(host@, port, username@, database@),
    {
        let mut v: Vec<String> = Vec::new();
        let p = decimal_string(port as u64);
        push_arg(&mut v, "-h");
        push_arg(&mut v, host);
        push_arg(&mut v, "-p");
        push_arg(&mut v, p.as_str());
        push_arg(&mut v, "-U");
        push_arg(&mut v, username);
        push_arg(&mut v, "-d");
        push_arg(&mut v, database);
        push_arg(&mut v, "-t");
        push_arg(&mut v, "-c");
        push_arg(&mut v, "SELECT version();");
        proof {
            assert(texts(v@) =~= pg_version_query_args(host@, port, username@, database@));
        }
        v
    }

    /// The arguments of `psql` checking a connection.
    pub fn probe_args(database: &str, host: &str, port: u16, username: &str) -> (v: Vec<String>)
        ensures
            texts(v@) == pg_probe_args(host@, port, username@, database@),
    {
        let mut v: Vec<String> = Vec::new();
        let p = decimal_string(port as u64);
        push_arg(&mut v, "-h");
        push_arg(&mut v, host);
        push_arg(&mut v, "-p");
        push_arg(&mut v, p.as_str());
        push_arg(&mut v, "-U");
        push_arg(&mut v, username);
        push_arg(&mut v, "-d");
        push_arg(&mut v, database);
        push_arg(&mut v, "-c");
        push_arg(&mut v, "SELECT 1");
        push_arg(&mut v, "-v");
        push_arg(&mut v, "TIMEOUT=5");
        push_arg(&mut v, "--set");
        push_arg(&mut v, "statement_timeout=5000");
        proof {
            assert(texts(v@) =~= pg_probe_args(host@, port, username@, database@));
        }
        v
    }

    /// The arguments of `pg_dump`; `piped` where its output goes through
    /// `gzip` (a compression level was given).
    pub fn dump_args(database: &str, host: &str, port: u16, username: &str, piped: bool) -> (v: Vec<String>)
        ensures
            texts(v@) == pg_tools_dump_args(host@, port, username@, database@, piped),
    {
        let mut v: Vec<String> = Vec::new();
        push_arg(&mut v, "--format=custom");
        if !piped {
            push_arg(&mut v, "--compress=9");
        }
        let p = decimal_string(port as u64);
        let h = concat_str("--host=", host);
        let q = concat_str("--port=", p.as_str());
        let u = concat_str("--username=", username);
        push_arg(&mut v, h.as_str());
        push_arg(&mut v, q.as_str());
        push_arg(&mut v, u.as_str());
        push_arg(&mut v, database);
        proof {
            assert(texts(v@) =~= pg_tools_dump_args(host@, port, username@, database@, piped));
        }
        v
    }

    /// The argument of `gzip` for a compression level: `-<level>`.
    pub fn gzip_args(level: u8) -> (v: Vec<String>)
        ensures
            texts(v@) == seq!["-"@ + decimal_text(level as nat)],
    {
        let mut v: Vec<String> = Vec::new();
        let l = decimal_string(level as u64);
        let a = concat_str("-", l.as_str());
        push_arg(&mut v, a.as_str());
        proof {
            assert(texts(v@) =~= seq!["-"@ + decimal_text(level as nat)]);
        }
        v
    }

    /// A dump that gave no bytes is an error.
    pub fn check_dump_output(output: Vec<u8>) -> (r: Result<Vec<u8>, PgToolsError>)
        ensures
            match r {
                Ok(v) => v@ == output@ && output@.len() > 0,
                Err(e) => output@.len() == 0 && e == PgToolsError::EmptyDump,
            },
    {
        if output.len() == 0 {
            Err(PgToolsError::EmptyDump)
        } else {
            Ok(output)
        }
    }
}

} // verus!
