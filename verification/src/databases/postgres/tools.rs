//! The PostgreSQL client tools of one server version: the version checks
//! before a dump or a restore, the statements that drop and recreate a
//! database, and the arguments a restore adds.
use vstd::prelude::*;

use crate::databases::postgres::version::{pg_version_from_banner, PostgreSQLVersion};
use crate::databases::version::VersionTrait;
use crate::text::{concat_str, push_arg, texts};

verus! {

broadcast use vstd::string::group_string_axioms;

/// Why the tools cannot work with a server.
#[derive(Debug, Clone, Copy, PartialEq, Eq, Structural)]
pub enum PostgreSQLToolsError {
    /// The server's answer names no version.
    UnparsableVersion,
    /// The server runs another version than the tools.
    VersionMismatch,
    /// A dump ran without error but gave no bytes.
    EmptyDump,
}

/// The version the tools default to: PostgreSQL 15.
pub open spec fn default_postgresql_version() -> PostgreSQLVersion {
    PostgreSQLVersion { major: 15, minor: 0 }
}

/// The client tools of one PostgreSQL version.
#[derive(Debug, Clone, Copy)]
pub struct PostgreSQLTools {
    pub version: PostgreSQLVersion,
}

/// `SELECT pg_terminate_backend(...)` for every other session on `database`.
pub open spec fn terminate_sessions_sql(database: Seq<char>) -> Seq<char> {
    "SELECT pg_terminate_backend(pg_stat_activity.pid) \n             FROM pg_stat_activity \n             WHERE pg_stat_activity.datname = '"@
        + database + "' \n             AND pid <> pg_backend_pid();"@
}

/// `DROP DATABASE IF EXISTS "<database>";`
pub open spec fn drop_database_sql(database: Seq<char>) -> Seq<char> {
    "DROP DATABASE IF EXISTS \""@ + database + "\";"@
}

/// `CREATE DATABASE "<database>";`
pub open spec fn create_database_sql(database: Seq<char>) -> Seq<char> {
    "CREATE DATABASE \""@ + database + "\";"@
}

/// What a restore adds to the arguments of `pg_restore`: `--clean` and
/// `--if-exists` unless the database was dropped first, then the dump file.
pub open spec fn restore_tail_args(drop_database: bool, dump_file: Seq<char>) -> Seq<Seq<char>> {
    if drop_database {
        seq![dump_file]
    } else {
        seq!["--clean"@, "--if-exists"@, dump_file]
    }
}

impl PostgreSQLTools {
    /// The tools of `version`.
    pub fn new(version: PostgreSQLVersion) -> (r: Self)
        ensures
            r.version == version,
    {
        PostgreSQLTools { version }
    }

    /// The tools of the default version, PostgreSQL 15.
    pub fn default() -> (r: Self)
        ensures
            r.version == default_postgresql_version(),
    {
        PostgreSQLTools { version: PostgreSQLVersion { major: 15, minor: 0 } }
    }

    /// The server version in an answer to `SELECT version();`.
    pub fn version_from_output(output: &str) -> (r: Result<PostgreSQLVersion, PostgreSQLToolsError>)
        ensures
            match r {
                Ok(v) => pg_version_from_banner(output@) == Some(v),
                Err(e) => pg_version_from_banner(output@) is None && e == PostgreSQLToolsError::UnparsableVersion,
            },
    {
        match PostgreSQLVersion::parse_string_version(output) {
            Some(v) => Ok(v),
            None => Err(PostgreSQLToolsError::UnparsableVersion),
        }
    }

    /// A dump or a restore goes ahead only where the server runs the tools'
    /// own version.
    pub fn check_server_version(&self, server: PostgreSQLVersion) -> (r: Result<(), PostgreSQLToolsError>)
        ensures
            r is Ok <==> server == self.version,
            r is Err ==> r == Err::<(), PostgreSQLToolsError>(PostgreSQLToolsError::VersionMismatch),
    {
        if server.major == self.version.major && server.minor == self.version.minor {
            Ok(())
        } else {
            Err(PostgreSQLToolsError::VersionMismatch)
        }
    }

    /// The statement that ends every other session on `database`.
    pub fn terminate_sessions_statement(database: &str) -> (r: String)
        ensures
            r@ == terminate_sessions_sql(database@),
    {
        let head = concat_str(
            "SELECT pg_terminate_backend(pg_stat_activity.pid) \n             FROM pg_stat_activity \n             WHERE pg_stat_activity.datname = '",
            database,
        );
        concat_str(head.as_str(), "' \n             AND pid <> pg_backend_pid();")
    }

    /// The statement that drops `database` where it exists.
    pub fn drop_database_statement(database: &str) -> (r: String)
        ensures
            r@ == drop_database_sql(database@),
    {
        let head = concat_str("DROP DATABASE IF EXISTS \"", database);
        concat_str(head.as_str(), "\";")
    }

    /// The statement that creates `database`.
    pub fn create_database_statement(database: &str) -> (r: String)
        ensures
            r@ == create_database_sql(database@),
    {
        let head = concat_str("CREATE DATABASE \"", database);
        concat_str(head.as_str(), "\";")
    }

    /// What a restore adds to the arguments of `pg_restore`; see
    /// `restore_tail_args`.
    pub fn restore_tail(drop_database: bool, dump_file: &str) -> (v: Vec<String>)
        ensures
            texts(v@) == restore_tail_args(drop_database, dump_file@),
    {
        let mut v: Vec<String> = Vec::new();
        if !drop_database {
            push_arg(&mut v, "--clean");
            push_arg(&mut v, "--if-exists");
        }
        push_arg(&mut v, dump_file);
        proof {
            assert(texts(v@) =~= restore_tail_args(drop_database, dump_file@));
        }
        v
    }

    /// A dump that gave no bytes is an error.
    pub fn check_dump_output(output: Vec<u8>) -> (r: Result<Vec<u8>, PostgreSQLToolsError>)
        ensures
            match r {
                Ok(v) => v@ == output@ && output@.len() > 0,
                Err(e) => output@.len() == 0 && e == PostgreSQLToolsError::EmptyDump,
            },
    {
        if output.len() == 0 {
            Err(PostgreSQLToolsError::EmptyDump)
        } else {
            Ok(output)
        }
    }
}

} // verus!
