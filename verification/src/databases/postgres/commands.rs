//! The command lines of the PostgreSQL client tools (`psql`, `pg_dump`,
//! `pg_restore`) for one database: where the tools lie and which arguments
//! each use gets.
use vstd::prelude::*;

use crate::databases::postgres::version::PostgreSQLVersion;
use crate::text::{decimal_string, decimal_text, join_path, owned, path_join, push_arg, texts};

verus! {

broadcast use vstd::string::group_string_axioms;

/// The arguments after the connection of a connection check: a trivial query with a time-out of five seconds.
pub open spec fn pg_check_flags() -> Seq<Seq<char>> {
    seq!["-c"@, "SELECT 1"@, "-v"@, "TIMEOUT=5"@, "--set"@, "statement_timeout=5000"@]
}

fn push_check_flags(v: &mut Vec<String>)
    ensures
        texts(final(v)@) == texts(old(v)@) + pg_check_flags(),
{
    let ghost before = texts(v@);
    push_arg(v, "-c");
    push_arg(v, "SELECT 1");
    push_arg(v, "-v");
    push_arg(v, "TIMEOUT=5");
    push_arg(v, "--set");
    push_arg(v, "statement_timeout=5000");
    proof {
        assert(texts(v@) =~= before + pg_check_flags());
    }
}

/// The arguments of `pg_dump` after the connection: the custom format, every schema but the system ones, objects dropped before they are created, no owners, large objects included.
pub open spec fn pg_dump_flags() -> Seq<Seq<char>> {
    seq!["--format=custom"@, "--schema=*"@, "--clean"@, "--if-exists"@, "--no-owner"@, "--blobs"@, "--exclude-schema=information_schema"@, "--exclude-schema=pg_catalog"@, "--exclude-schema=pg_toast"@, "--exclude-schema=pg_temp*"@, "--exclude-schema=pg_toast_temp*"@]
}

fn push_dump_flags(v: &mut Vec<String>)
    ensures
        texts(final(v)@) == texts(old(v)@) + pg_dump_flags(),
{
    let ghost before = texts(v@);
    push_arg(v, "--format=custom");
    push_arg(v, "--schema=*");
    push_arg(v, "--clean");
    push_arg(v, "--if-exists");
    push_arg(v, "--no-owner");
    push_arg(v, "--blobs");
    push_arg(v, "--exclude-schema=information_schema");
    push_arg(v, "--exclude-schema=pg_catalog");
    push_arg(v, "--exclude-schema=pg_toast");
    push_arg(v, "--exclude-schema=pg_temp*");
    push_arg(v, "--exclude-schema=pg_toast_temp*");
    proof {
        assert(texts(v@) =~= before + pg_dump_flags());
    }
}

/// The arguments of `psql` after the connection, for running one statement: no start-up file, stop on the first error, rows only; the statement follows `-c`.
pub open spec fn pg_connection_flags() -> Seq<Seq<char>> {
    seq!["--no-psqlrc"@, "-v"@, "ON_ERROR_STOP=1"@, "-t"@, "-c"@]
}

fn push_connection_flags(v: &mut Vec<String>)
    ensures
        texts(final(v)@) == texts(old(v)@) + pg_connection_flags(),
{
    let ghost before = texts(v@);
    push_arg(v, "--no-psqlrc");
    push_arg(v, "-v");
    push_arg(v, "ON_ERROR_STOP=1");
    push_arg(v, "-t");
    push_arg(v, "-c");
    proof {
        assert(texts(v@) =~= before + pg_connection_flags());
    }
}

/// The arguments of `pg_restore` after the connection: no owners, rights or comments, one transaction, objects dropped where they exist, system schemas left alone.
pub open spec fn pg_restore_flags() -> Seq<Seq<char>> {
    seq!["--no-owner"@, "--no-privileges"@, "--no-comments"@, "--no-acl"@, "--single-transaction"@, "--clean"@, "--if-exists"@, "--exclude-schema=information_schema"@, "--exclude-schema=pg_catalog"@, "--exclude-schema=pg_toast"@, "--exclude-schema=pg_temp*"@, "--exclude-schema=pg_toast_temp*"@]
}

fn push_restore_flags(v: &mut Vec<String>)
    ensures
        texts(final(v)@) == texts(old(v)@) + pg_restore_flags(),
{
    let ghost before = texts(v@);
    push_arg(v, "--no-owner");
    push_arg(v, "--no-privileges");
    push_arg(v, "--no-comments");
    push_arg(v, "--no-acl");
    push_arg(v, "--single-transaction");
    push_arg(v, "--clean");
    push_arg(v, "--if-exists");
    push_arg(v, "--exclude-schema=information_schema");
    push_arg(v, "--exclude-schema=pg_catalog");
    push_arg(v, "--exclude-schema=pg_toast");
    push_arg(v, "--exclude-schema=pg_temp*");
    push_arg(v, "--exclude-schema=pg_toast_temp*");
    proof {
        assert(texts(v@) =~= before + pg_restore_flags());
    }
}

/// The connection arguments every tool gets: host, port, user and database.
pub open spec fn pg_connection_args(host: Seq<char>, port: u16, username: Seq<char>, database: Seq<char>) -> Seq<Seq<char>> {
    seq!["-h"@, host, "-p"@, decimal_text(port as nat), "-U"@, username, "-d"@, database]
}

/// Where the tools of PostgreSQL `major` lie under `cache_dir`: its `bin`
/// directory.
pub open spec fn pg_bin_dir(cache_dir: Seq<char>, major: u16) -> Seq<char> {
    path_join(path_join(cache_dir, decimal_text(major as nat)), "bin"@)
}

/// What runs the PostgreSQL client tools against one database.
#[derive(Debug, Clone)]
pub struct CommandBuilder {
    pub cache_dir: String,
    pub version: PostgreSQLVersion,
    pub database: String,
    pub host: String,
    pub port: u16,
    pub username: String,
    pub password: Option<String>,
}

impl CommandBuilder {
    /// The builder for a database; the tools are kept in
    /// `postgresql_tools_cache` under `cache_root`.
    pub fn new(
        cache_root: &str,
        version: PostgreSQLVersion,
        database: &str,
        host: &str,
        port: u16,
        username: &str,
        password: Option<&str>,
    ) -> (r: Self)
        ensures
            r.cache_dir@ == path_join(cache_root@, "postgresql_tools_cache"@),
            r.version == version,
            r.database@ == database@,
            r.host@ == host@,
            r.port == port,
            r.username@ == username@,
            match password {
                Some(p) => r.password matches Some(q) && q@ == p@,
                None => r.password is None,
            },
    {
        CommandBuilder {
            cache_dir: join_path(cache_root, "postgresql_tools_cache"),
            version,
            database: owned(database),
            host: owned(host),
            port,
            username: owned(username),
            password: match password {
                Some(p) => Some(owned(p)),
                None => None,
            },
        }
    }

    /// The directory of the tools of this version: the major version under
    /// the cache directory.
    pub fn get_base_path(&self) -> (r: String)
        ensures
            r@ == path_join(self.cache_dir@, decimal_text(self.version.major as nat)),
    {
        let major = decimal_string(self.version.major as u64);
        join_path(self.cache_dir.as_str(), major.as_str())
    }

    /// The `bin` directory of the tools of this version.
    pub fn get_bin_path(&self) -> (r: String)
        ensures
            r@ == pg_bin_dir(self.cache_dir@, self.version.major),
    {
        let base = self.get_base_path();
        join_path(base.as_str(), "bin")
    }

    /// The path of the tool `bin_name`.
    pub fn tool_path(&self, bin_name: &str) -> (r: String)
        ensures
            r@ == path_join(pg_bin_dir(self.cache_dir@, self.version.major), bin_name@),
    {
        let bin = self.get_bin_path();
        join_path(bin.as_str(), bin_name)
    }

    /// The connection arguments: `-h host -p port -U user -d database`.
    pub fn build_base_args(&self) -> (v: Vec<String>)
        ensures
            texts(v@) == pg_connection_args(self.host@, self.port, self.username@, self.database@),
    {
        let mut v: Vec<String> = Vec::new();
        let port = decimal_string(self.port as u64);
        push_arg(&mut v, "-h");
        push_arg(&mut v, self.host.as_str());
        push_arg(&mut v, "-p");
        push_arg(&mut v, port.as_str());
        push_arg(&mut v, "-U");
        push_arg(&mut v, self.username.as_str());
        push_arg(&mut v, "-d");
        push_arg(&mut v, self.database.as_str());
        proof {
            assert(texts(v@) =~= pg_connection_args(self.host@, self.port, self.username@, self.database@));
        }
        v
    }

    /// The arguments of `psql` for a connection check.
    pub fn build_connection_check_args(&self) -> (v: Vec<String>)
        ensures
            texts(v@) == pg_connection_args(self.host@, self.port, self.username@, self.database@) + pg_check_flags(),
    {
        let mut v = self.build_base_args();
        push_check_flags(&mut v);
        v
    }

    /// The arguments of `pg_dump`.
    pub fn build_dump_args(&self) -> (v: Vec<String>)
        ensures
            texts(v@) == pg_connection_args(self.host@, self.port, self.username@, self.database@) + pg_dump_flags(),
    {
        let mut v = self.build_base_args();
        push_dump_flags(&mut v);
        v
    }

    /// The arguments of `psql` for one statement, which follows them.
    pub fn build_connection_args(&self) -> (v: Vec<String>)
        ensures
            texts(v@) == pg_connection_args(self.host@, self.port, self.username@, self.database@) + pg_connection_flags(),
    {
        let mut v = self.build_base_args();
        push_connection_flags(&mut v);
        v
    }

    /// The arguments of `pg_restore`, which the dump file follows.
    pub fn build_restore_args(&self) -> (v: Vec<String>)
        ensures
            texts(v@) == pg_connection_args(self.host@, self.port, self.username@, self.database@) + pg_restore_flags(),
    {
        let mut v = self.build_base_args();
        push_restore_flags(&mut v);
        v
    }
}

} // verus!
