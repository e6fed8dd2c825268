//! The MySQL connection of a backup: the server version behind it, and the
//! command lines of `mysqldump` and `mysql` that back it up and restore it.
use vstd::prelude::*;

use crate::databases::mysql::version::{mysql_version_from_banner, MySqlVersion};
use crate::databases::version::{Version, VersionTrait};
use crate::databases::{DatabaseConfig, DatabaseMetadata};
use crate::text::{concat_str, decimal_string, decimal_text, push_arg, texts};

verus! {

broadcast use vstd::string::group_string_axioms;

/// Why a connection cannot serve a backup.
#[derive(Debug, Clone, Copy, PartialEq, Eq, Structural)]
pub enum ConnectionError {
    /// The server's version answer could not be read.
    UnparsableVersion,
}

/// The connection arguments: `--host=`, `--port=`, `--user=`, TCP.
pub open spec fn mysql_server_args(config: DatabaseConfig) -> Seq<Seq<char>> {
    seq![
        "--host="@ + config.host@,
        "--port="@ + decimal_text(config.port as nat),
        "--user="@ + config.username@,
        "--protocol=TCP"@,
    ]
}

/// The arguments of `mysqldump` after the connection and the database.
pub open spec fn mysql_backup_flags() -> Seq<Seq<char>> {
    seq!["--opt"@, "--single-transaction"@, "--skip-lock-tables"@, "--set-charset"@, "--add-drop-database"@, "--add-drop-table"@, "--no-tablespaces"@, "--skip-triggers"@]
}

/// The statement that lists the `KILL` statements for the other sessions of
/// `user` on `database`.
pub open spec fn mysql_kill_sql(user: Seq<char>, database: Seq<char>) -> Seq<char> {
    "SELECT CONCAT('KILL ', id, ';') FROM information_schema.processlist \n                WHERE user = '"@ + user + "' AND db = '"@ + database + "' AND id != CONNECTION_ID();"@
}

/// The metadata of a MySQL server whose `SELECT version()` answer is `banner`.
pub open spec fn mysql_metadata_of(banner: Seq<char>) -> Option<DatabaseMetadata> {
    match mysql_version_from_banner(banner) {
        Some(v) => Some(DatabaseMetadata { version: Version::MySql(v) }),
        None => None,
    }
}

/// The version of the server behind a connection, read from its answer to
/// `SELECT version()`.
pub fn metadata_from_version_string(banner: &str) -> (r: Result<DatabaseMetadata, ConnectionError>)
    ensures
        match r {
            Ok(m) => mysql_metadata_of(banner@) == Some(m),
            Err(e) => mysql_metadata_of(banner@) is None && e == ConnectionError::UnparsableVersion,
        },
{
    match MySqlVersion::parse_string_version(banner) {
        Some(v) => Ok(DatabaseMetadata { version: Version::MySql(v) }),
        None => Err(ConnectionError::UnparsableVersion),
    }
}

/// The connection arguments; see `mysql_server_args`.
pub fn server_args(config: &DatabaseConfig) -> (v: Vec<String>)
    ensures
        texts(v@) == mysql_server_args(*config),
{
    let mut v: Vec<String> = Vec::new();
    let port = decimal_string(config.port as u64);
    let h = concat_str("--host=", config.host.as_str());
    let p = concat_str("--port=", port.as_str());
    let u = concat_str("--user=", config.username.as_str());
    push_arg(&mut v, h.as_str());
    push_arg(&mut v, p.as_str());
    push_arg(&mut v, u.as_str());
    push_arg(&mut v, "--protocol=TCP");
    proof {
        assert(texts(v@) =~= mysql_server_args(*config));
    }
    v
}

/// The arguments of a client for the configured database: the connection,
/// then the database.
pub fn command_args(config: &DatabaseConfig) -> (v: Vec<String>)
    ensures
        texts(v@) == mysql_server_args(*config).push(config.database@),
{
    let mut v = server_args(config);
    push_arg(&mut v, config.database.as_str());
    v
}

/// The arguments of `mysqldump` for a backup.
pub fn backup_args(config: &DatabaseConfig) -> (v: Vec<String>)
    ensures
        texts(v@) == mysql_server_args(*config).push(config.database@) + mysql_backup_flags(),
{
    let mut v = command_args(config);
    let ghost before = texts(v@);
    push_arg(&mut v, "--opt");
    push_arg(&mut v, "--single-transaction");
    push_arg(&mut v, "--skip-lock-tables");
    push_arg(&mut v, "--set-charset");
    push_arg(&mut v, "--add-drop-database");
    push_arg(&mut v, "--add-drop-table");
    push_arg(&mut v, "--no-tablespaces");
    push_arg(&mut v, "--skip-triggers");
    proof {
        assert(texts(v@) =~= before + mysql_backup_flags());
    }
    v
}

/// The arguments of `mysql` that list the sessions to end before a restore.
pub fn kill_sessions_args(config: &DatabaseConfig) -> (v: Vec<String>)
    ensures
        texts(v@) == mysql_server_args(*config) + seq!["-e"@, mysql_kill_sql(config.username@, config.database@)],
{
    let mut v = server_args(config);
    let ghost before = texts(v@);
    let a = concat_str("SELECT CONCAT('KILL ', id, ';') FROM information_schema.processlist \n                WHERE user = '", config.username.as_str());
    let b = concat_str(a.as_str(), "' AND db = '");
    let c = concat_str(b.as_str(), config.database.as_str());
    let sql = concat_str(c.as_str(), "' AND id != CONNECTION_ID();");
    push_arg(&mut v, "-e");
    push_arg(&mut v, sql.as_str());
    proof {
        assert(texts(v@) =~= before + seq!["-e"@, mysql_kill_sql(config.username@, config.database@)]);
    }
    v
}

} // verus!
