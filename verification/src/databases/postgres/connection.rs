//! The PostgreSQL connection of a backup: the server version behind it, and
//! the command lines of `pg_dump` and `psql` that back it up and restore it.
use vstd::prelude::*;

use crate::databases::postgres::version::{pg_version_from_banner, PostgreSQLVersion};
use crate::databases::version::{Version, VersionTrait};
use crate::databases::{DatabaseConfig, DatabaseMetadata};
use crate::text::{concat_str, decimal_string, decimal_text, push_arg, texts};

verus! {

broadcast use vstd::string::group_string_axioms;

/// Why a connection cannot serve a backup.
#[derive(Debug, Clone, Copy, PartialEq, Eq, Structural)]
pub enum ConnectionError {
    /// The server's version answer could not be read.
    UnparsableVersion,
}

/// The connection arguments for `database`: `-h host -p port -U user -d database`.
pub open spec fn pg_target_args(config: DatabaseConfig, database: Seq<char>) -> Seq<Seq<char>> {
    seq!["-h"@, config.host@, "-p"@, decimal_text(config.port as nat), "-U"@, config.username@, "-d"@, database]
}

/// The arguments of `pg_dump` after the connection for a backup.
pub open spec fn pg_backup_flags() -> Seq<Seq<char>> {
    seq!["--format=custom"@, "--format=plain"@, "--encoding=UTF8"@, "--schema=*"@, "--clean"@, "--if-exists"@, "--no-owner"@, "--blobs"@, "--exclude-schema=information_schema"@, "--exclude-schema=pg_catalog"@, "--exclude-schema=pg_toast"@, "--exclude-schema=pg_temp*"@, "--exclude-schema=pg_toast_temp*"@]
}

/// The statement that ends every other session on `database`.
pub open spec fn pg_terminate_sql(database: Seq<char>) -> Seq<char> {
    "SELECT pg_terminate_backend(pg_stat_activity.pid) \n                FROM pg_stat_activity \n                WHERE pg_stat_activity.datname = '"@ + database + "' \n                AND pid <> pg_backend_pid();"@
}

/// The metadata of a PostgreSQL server whose `SELECT version()` answer is
/// `banner`.
pub open spec fn pg_metadata_of(banner: Seq<char>) -> Option<DatabaseMetadata> {
    match pg_version_from_banner(banner) {
        Some(v) => Some(DatabaseMetadata { version: Version::PostgreSQL(v) }),
        None => None,
    }
}

/// The version of the server behind a connection, read from its answer to
/// `SELECT version()`.
pub fn metadata_from_version_string(banner: &str) -> (r: Result<DatabaseMetadata, ConnectionError>)
    ensures
        match r {
            Ok(m) => pg_metadata_of(banner@) == Some(m),
            Err(e) => pg_metadata_of(banner@) is None && e == ConnectionError::UnparsableVersion,
        },
{
    match PostgreSQLVersion::parse_string_version(banner) {
        Some(v) => Ok(DatabaseMetadata { version: Version::PostgreSQL(v) }),
        None => Err(ConnectionError::UnparsableVersion),
    }
}

fn target_args(config: &DatabaseConfig, database: &str) -> (v: Vec<String>)
    ensures
        texts(v@) == pg_target_args(*config, database@),
{
    let mut v: Vec<String> = Vec::new();
    let port = decimal_string(config.port as u64);
    push_arg(&mut v, "-h");
    push_arg(&mut v, config.host.as_str());
    push_arg(&mut v, "-p");
    push_arg(&mut v, port.as_str());
    push_arg(&mut v, "-U");
    push_arg(&mut v, config.username.as_str());
    push_arg(&mut v, "-d");
    push_arg(&mut v, database);
    proof {
        assert(texts(v@) =~= pg_target_args(*config, database@));
    }
    v
}

/// The arguments of `pg_dump` for a backup of the configured database.
pub fn backup_args(config: &DatabaseConfig) -> (v: Vec<String>)
    ensures
        texts(v@) == pg_target_args(*config, config.database@) + pg_backup_flags(),
{
    let mut v = target_args(config, config.database.as_str());
    let ghost before = texts(v@);
    push_arg(&mut v, "--format=custom");
    push_arg(&mut v, "--format=plain");
    push_arg(&mut v, "--encoding=UTF8");
    push_arg(&mut v, "--schema=*");
    push_arg(&mut v, "--clean");
    push_arg(&mut v, "--if-exists");
    push_arg(&mut v, "--no-owner");
    push_arg(&mut v, "--blobs");
    push_arg(&mut v, "--exclude-schema=information_schema");
    push_arg(&mut v, "--exclude-schema=pg_catalog");
    push_arg(&mut v, "--exclude-schema=pg_toast");
    push_arg(&mut v, "--exclude-schema=pg_temp*");
    push_arg(&mut v, "--exclude-schema=pg_toast_temp*");
    proof {
        assert(texts(v@) =~= before + pg_backup_flags());
    }
    v
}

/// The arguments of `psql` that end every other session on the configured
/// database before a restore, run against the `postgres` database.
pub fn terminate_sessions_args(config: &DatabaseConfig) -> (v: Vec<String>)
    ensures
        texts(v@) == pg_target_args(*config, "postgres"@) + seq!["-c"@, pg_terminate_sql(config.database@)],
{
    let mut v = target_args(config, "postgres");
    let ghost before = texts(v@);
    let head = concat_str("SELECT pg_terminate_backend(pg_stat_activity.pid) \n                FROM pg_stat_activity \n                WHERE pg_stat_activity.datname = '", config.database.as_str());
    let sql = concat_str(head.as_str(), "' \n                AND pid <> pg_backend_pid();");
    push_arg(&mut v, "-c");
    push_arg(&mut v, sql.as_str());
    proof {
        assert(texts(v@) =~= before + seq!["-c"@, pg_terminate_sql(config.database@)]);
    }
    v
}

/// The arguments of `psql` that read a restore from its input.
pub fn restore_args(config: &DatabaseConfig) -> (v: Vec<String>)
    ensures
        texts(v@) == pg_target_args(*config, config.database@),
{
    target_args(config, config.database.as_str())
}

} // verus!
