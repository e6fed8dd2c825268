//! The MySQL client tools of one server version: the version check before
//! a restore, and the statements and command lines of dropping, recreating
//! and restoring a database.
use vstd::prelude::*;

use crate::databases::mysql::version::{mysql_version_from_banner, MySqlVersion};
use crate::databases::version::VersionTrait;
use crate::text::{chars_of, concat_str, decimal_string, decimal_text, is_whitespace, unicode_whitespace};

verus! {

broadcast use vstd::string::group_string_axioms;

/// Why the tools cannot work with a server.
#[derive(Debug, Clone, Copy, PartialEq, Eq, Structural)]
pub enum MySQLToolsError {
    /// The server's answer names no version.
    UnparsableVersion,
    /// The server runs another version than the tools.
    VersionMismatch,
    /// A dump ran without error but gave no bytes.
    EmptyDump,
}

/// The version the tools default to: MySQL 8.0.
pub open spec fn default_mysql_version() -> MySqlVersion {
    MySqlVersion { major: 8, minor: 0, patch: 0 }
}

/// The client tools of one MySQL version.
#[derive(Debug, Clone, Copy)]
pub struct MySQLTools {
    pub version: MySqlVersion,
}

/// The statement that lists a `KILL` for every other session on `database`.
pub open spec fn kill_sessions_sql(database: Seq<char>) -> Seq<char> {
    "SELECT concat('KILL ', id, ';') FROM information_schema.processlist \n             WHERE db = '"@ + database + "' AND id <> connection_id();"@
}

/// ``DROP DATABASE IF EXISTS `<database>`;``
pub open spec fn mysql_drop_sql(database: Seq<char>) -> Seq<char> {
    "DROP DATABASE IF EXISTS `"@ + database + "`;"@
}

/// ``CREATE DATABASE `<database>` `` in UTF-8 with Unicode collation.
pub open spec fn mysql_create_sql(database: Seq<char>) -> Seq<char> {
    "CREATE DATABASE `"@ + database + "` CHARACTER SET utf8mb4 COLLATE utf8mb4_unicode_ci;"@
}

/// The shell line that feeds the SQL file into the client:
/// `<client> --host=<h> --port=<p> --user=<u> <database> < <file>`.
pub open spec fn restore_shell_line(client: Seq<char>, host: Seq<char>, port: u16, username: Seq<char>, database: Seq<char>, file: Seq<char>) -> Seq<char> {
    client + " --host="@ + host + " --port="@ + decimal_text(port as nat) + " --user="@ + username + " "@ + database + " < "@
        + file
}

/// Whether the answer to the session listing holds any statement, that is
/// anything but white space.
pub open spec fn has_statements(s: Seq<char>) -> bool {
    exists|i: int| 0 <= i < s.len() && !unicode_whitespace(#[trigger] s[i])
}

impl MySQLTools {
    /// The tools of `version`.
    pub fn new(version: MySqlVersion) -> (r: Self)
        ensures
            r.version == version,
    {
        MySQLTools { version }
    }

    /// The tools of the default version, MySQL 8.0.
    pub fn default() -> (r: Self)
        ensures
            r.version == default_mysql_version(),
    {
        MySQLTools { version: MySqlVersion { major: 8, minor: 0, patch: 0 } }
    }

    /// The server version in an answer to `SELECT VERSION();`.
    pub fn version_from_output(output: &str) -> (r: Result<MySqlVersion, MySQLToolsError>)
        ensures
            match r {
                Ok(v) => mysql_version_from_banner(output@) == Some(v),
                Err(e) => mysql_version_from_banner(output@) is None && e == MySQLToolsError::UnparsableVersion,
            },
    {
        match MySqlVersion::parse_string_version(output) {
            Some(v) => Ok(v),
            None => Err(MySQLToolsError::UnparsableVersion),
        }
    }

    /// A restore goes ahead only where the server runs the tools' own version.
    pub fn check_server_version(&self, server: MySqlVersion) -> (r: Result<(), MySQLToolsError>)
        ensures
            r is Ok <==> server == self.version,
            r is Err ==> r == Err::<(), MySQLToolsError>(MySQLToolsError::VersionMismatch),
    {
        if server.major == self.version.major && server.minor == self.version.minor && server.patch == self.version.patch {
            Ok(())
        } else {
            Err(MySQLToolsError::VersionMismatch)
        }
    }

    /// The statement listing the sessions to end on `database`.
    pub fn kill_sessions_statement(database: &str) -> (r: String)
        ensures
            r@ == kill_sessions_sql(database@),
    {
        let head = concat_str("SELECT concat('KILL ', id, ';') FROM information_schema.processlist \n             WHERE db = '", database);
        concat_str(head.as_str(), "' AND id <> connection_id();")
    }

    /// The statement dropping `database` where it exists.
    pub fn drop_database_statement(database: &str) -> (r: String)
        ensures
            r@ == mysql_drop_sql(database@),
    {
        let head = concat_str("DROP DATABASE IF EXISTS `", database);
        concat_str(head.as_str(), "`;")
    }

    /// The statement creating `database`.
    pub fn create_database_statement(database: &str) -> (r: String)
        ensures
            r@ == mysql_create_sql(database@),
    {
        let head = concat_str("CREATE DATABASE `", database);
        concat_str(head.as_str(), "` CHARACTER SET utf8mb4 COLLATE utf8mb4_unicode_ci;")
    }

    /// Whether the listed `KILL` statements must be run: only where the
    /// listing holds any.
    pub fn needs_kill(listing: &str) -> (r: bool)
        ensures
            r == has_statements(listing@),
    {
        let s = chars_of(listing);
        let mut i: usize = 0;
        while i < s.len()
            invariant
                i <= s@.len(),
                s@ == listing@,
                forall|j: int| 0 <= j < i ==> unicode_whitespace(#[trigger] s@[j]),
            decreases s@.len() - i,
        {
            if !is_whitespace(s[i]) {
                return true;
            }
            i = i + 1;
        }
        false
    }

    /// The shell line of a restore; see `restore_shell_line`.
    pub fn restore_command_line(client: &str, host: &str, port: u16, username: &str, database: &str, file: &str) -> (r: String)
        ensures
            r@ == restore_shell_line(client@, host@, port, username@, database@, file@),
    {
        let p = decimal_string(port as u64);
        let a = concat_str(client, " --host=");
        let b = concat_str(a.as_str(), host);
        let c = concat_str(b.as_str(), " --port=");
        let d = concat_str(c.as_str(), p.as_str());
        let e = concat_str(d.as_str(), " --user=");
        let f = concat_str(e.as_str(), username);
        let g = concat_str(f.as_str(), " ");
        let h = concat_str(g.as_str(), database);
        let i = concat_str(h.as_str(), " < ");
        concat_str(i.as_str(), file)
    }

    /// A dump that gave no bytes is an error.
    pub fn check_dump_output(output: Vec<u8>) -> (r: Result<Vec<u8>, MySQLToolsError>)
        ensures
            match r {
                Ok(v) => v@ == output@ && output@.len() > 0,
                Err(e) => output@.len() == 0 && e == MySQLToolsError::EmptyDump,
            },
    {
        if output.len() == 0 {
            Err(MySQLToolsError::EmptyDump)
        } else {
            Ok(output)
        }
    }
}

} // verus!
