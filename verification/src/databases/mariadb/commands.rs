//! The command lines of the MariaDB client tools (`mariadb`, `mariadb-dump`)
//! for one database.
use vstd::prelude::*;

use crate::databases::mariadb::version::{mariadb_version_text, MariaDBVersion};
use crate::text::{concat_str, decimal_string, decimal_text, join_path, owned, path_join, push_arg, texts};

verus! {

broadcast use vstd::string::group_string_axioms;

/// The connection arguments every tool gets: host, port and user.
pub open spec fn mariadb_connection_args(host: Seq<char>, port: u16, username: Seq<char>) -> Seq<Seq<char>> {
    seq!["-h"@, host, "-P"@, decimal_text(port as nat), "-u"@, username]
}

/// The arguments of `mariadb-dump` after the connection: the connection again
/// in long form, one transaction, routines, triggers and events, full
/// inserts, the database, and compression of the traffic unless the dump is
/// piped through `gzip`.
pub open spec fn mariadb_dump_tail(host: Seq<char>, port: u16, username: Seq<char>, database: Seq<char>, piped: bool) -> Seq<Seq<char>> {
    let body = seq![
        "--host="@ + host,
        "--port="@ + decimal_text(port as nat),
        "--user="@ + username,
        "--single-transaction"@,
        "--routines"@,
        "--triggers"@,
        "--events"@,
        "--complete-insert"@,
        database,
    ];
    if piped { body } else { body.push("--compress"@) }
}

/// What runs the MariaDB client tools against one database.
#[derive(Debug, Clone)]
pub struct CommandBuilder {
    pub cache_dir: String,
    pub version: MariaDBVersion,
    pub database: String,
    pub host: String,
    pub port: u16,
    pub username: String,
    pub password: Option<String>,
}

impl CommandBuilder {
    /// The builder for a database; the tools are kept in
    /// `mariadb_tools_cache` under `cache_root`.
    pub fn new(
        cache_root: &str,
        version: MariaDBVersion,
        database: &str,
        host: &str,
        port: u16,
        username: &str,
        password: Option<&str>,
    ) -> (r: Self)
        ensures
            r.cache_dir@ == path_join(cache_root@, "mariadb_tools_cache"@),
            r.version == version,
            r.database@ == database@,
            r.host@ == host@,
            r.port == port,
            r.username@ == username@,
            match password {
                Some(p) => r.password matches Some(q) && q@ == p@,
                None => r.password is None,
            },
    {
        CommandBuilder {
            cache_dir: join_path(cache_root, "mariadb_tools_cache"),
            version,
            database: owned(database),
            host: owned(host),
            port,
            username: owned(username),
            password: match password {
                Some(p) => Some(owned(p)),
                None => None,
            },
        }
    }

    /// The `bin` directory of the tools: `<version>/bin` under the cache.
    pub fn get_bin_path(&self) -> (r: String)
        ensures
            r@ == path_join(path_join(self.cache_dir@, mariadb_version_text(self.version)), "bin"@),
    {
        let base = join_path(self.cache_dir.as_str(), self.version.as_str());
        join_path(base.as_str(), "bin")
    }

    /// The connection arguments: `-h host -P port -u user`.
    pub fn build_base_args(&self) -> (v: Vec<String>)
        ensures
            texts(v@) == mariadb_connection_args(self.host@, self.port, self.username@),
    {
        let mut v: Vec<String> = Vec::new();
        let port = decimal_string(self.port as u64);
        push_arg(&mut v, "-h");
        push_arg(&mut v, self.host.as_str());
        push_arg(&mut v, "-P");
        push_arg(&mut v, port.as_str());
        push_arg(&mut v, "-u");
        push_arg(&mut v, self.username.as_str());
        proof {
            assert(texts(v@) =~= mariadb_connection_args(self.host@, self.port, self.username@));
        }
        v
    }

    /// The arguments of `mariadb` for a connection check: the database, a
    /// time-out of five seconds, and a trivial query.
    pub fn build_connection_check_args(&self) -> (v: Vec<String>)
        ensures
            texts(v@) == mariadb_connection_args(self.host@, self.port, self.username@) + seq![
                self.database@,
                "--connect-timeout=5"@,
                "-e"@,
                "SELECT 1"@,
            ],
    {
        let mut v = self.build_base_args();
        let ghost before = texts(v@);
        push_arg(&mut v, self.database.as_str());
        push_arg(&mut v, "--connect-timeout=5");
        push_arg(&mut v, "-e");
        push_arg(&mut v, "SELECT 1");
        proof {
            assert(texts(v@) =~= before + seq![self.database@, "--connect-timeout=5"@, "-e"@, "SELECT 1"@]);
        }
        v
    }

    /// The arguments of `mariadb` asking for the server's version.
    pub fn build_version_check_args(&self) -> (v: Vec<String>)
        ensures
            texts(v@) == mariadb_connection_args(self.host@, self.port, self.username@) + seq![
                self.database@,
                "--batch"@,
                "--skip-column-names"@,
                "-e"@,
                "SELECT VERSION();"@,
            ],
    {
        let mut v = self.build_base_args();
        let ghost before = texts(v@);
        push_arg(&mut v, self.database.as_str());
        push_arg(&mut v, "--batch");
        push_arg(&mut v, "--skip-column-names");
        push_arg(&mut v, "-e");
        push_arg(&mut v, "SELECT VERSION();");
        proof {
            assert(texts(v@) =~= before + seq![self.database@, "--batch"@, "--skip-column-names"@, "-e"@, "SELECT VERSION();"@]);
        }
        v
    }

    /// The arguments of `mariadb` for one statement, which follows them.
    pub fn build_connection_args(&self) -> (v: Vec<String>)
        ensures
            texts(v@) == mariadb_connection_args(self.host@, self.port, self.username@) + seq![
                self.database@,
                "--batch"@,
                "--skip-column-names"@,
                "-e"@,
            ],
    {
        let mut v = self.build_base_args();
        let ghost before = texts(v@);
        push_arg(&mut v, self.database.as_str());
        push_arg(&mut v, "--batch");
        push_arg(&mut v, "--skip-column-names");
        push_arg(&mut v, "-e");
        proof {
            assert(texts(v@) =~= before + seq![self.database@, "--batch"@, "--skip-column-names"@, "-e"@]);
        }
        v
    }

    /// The arguments of `mariadb-dump`; `compression` is the level of the
    /// `gzip` the dump is piped through, where one was asked for.
    pub fn build_dump_args(&self, compression: Option<u8>) -> (v: Vec<String>)
        ensures
            texts(v@) == mariadb_connection_args(self.host@, self.port, self.username@) + mariadb_dump_tail(
                self.host@,
                self.port,
                self.username@,
                self.database@,
                compression is Some,
            ),
    {
        let mut v = self.build_base_args();
        let ghost before = texts(v@);
        let port = decimal_string(self.port as u64);
        let h = concat_str("--host=", self.host.as_str());
        let p = concat_str("--port=", port.as_str());
        let u = concat_str("--user=", self.username.as_str());
        push_arg(&mut v, h.as_str());
        push_arg(&mut v, p.as_str());
        push_arg(&mut v, u.as_str());
        push_arg(&mut v, "--single-transaction");
        push_arg(&mut v, "--routines");
        push_arg(&mut v, "--triggers");
        push_arg(&mut v, "--events");
        push_arg(&mut v, "--complete-insert");
        push_arg(&mut v, self.database.as_str());
        if compression.is_none() {
            push_arg(&mut v, "--compress");
        }
        proof {
            assert(texts(v@) =~= before + mariadb_dump_tail(self.host@, self.port, self.username@, self.database@, compression is Some));
        }
        v
    }
}

} // verus!
