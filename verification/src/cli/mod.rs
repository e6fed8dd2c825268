//! The command line: its commands and arguments, and how arguments become a
//! database configuration, a storage configuration and a retention period.
use vstd::prelude::*;

use crate::databases::ssh_tunnel::{SshAuthMethod, SshTunnelConfig};
use crate::databases::{ConnectionType, DatabaseConfig};
use crate::storage::provider::{LocalStorageConfig, S3StorageConfig, StorageConfig};
use crate::text::{
    chars_of, decimal_text, lemma_decimal_text_parses, lemma_decimal_text_value, owned, parse_u64, parse_unsigned, str_eq,
};

pub mod interactive;
pub mod legacy;
pub mod resolve;

verus! {

broadcast use vstd::string::group_string_axioms;

/// The parsed command line.
#[derive(Debug)]
pub struct Cli {
    pub command: Option<Commands>,
}

/// What the program is asked to do.
#[derive(Debug)]
pub enum Commands {
    Interactive,
    Backup(BackupArgs),
    Restore(RestoreArgs),
    List(ListArgs),
    Cleanup(CleanupArgs),
    Workspace { command: WorkspaceCommands },
}

/// What is done with workspaces.
#[derive(Debug)]
pub enum WorkspaceCommands {
    List,
    Create { name: String },
    Delete { name: String },
    Use { name: String },
    Active,
}

/// Arguments of a backup.
#[derive(Debug)]
pub struct BackupArgs {
    pub workspace: Option<String>,
    pub database_config: DatabaseArgs,
    pub storage_config: StorageArgs,
    pub retention: Option<String>,
}

/// Arguments of a restore.
#[derive(Debug)]
pub struct RestoreArgs {
    pub name: Option<String>,
    pub drop_database: bool,
    pub latest: bool,
    pub workspace: Option<String>,
    pub database_config: DatabaseArgs,
    pub storage_config: StorageArgs,
}

/// Arguments of a listing of backups.
#[derive(Debug)]
pub struct ListArgs {
    pub database: Option<String>,
    pub latest_only: bool,
    pub limit: Option<usize>,
    pub workspace: Option<String>,
    pub storage: StorageArgs,
}

/// Arguments of a cleanup of old backups.
#[derive(Debug)]
pub struct CleanupArgs {
    pub retention: String,
    pub dry_run: bool,
    pub database: Option<String>,
    pub workspace: Option<String>,
    pub storage: StorageArgs,
}

/// Arguments of an SSH tunnel to the database host.
#[derive(Debug, Clone)]
pub struct SshArgs {
    pub ssh_host: Option<String>,
    pub ssh_username: Option<String>,
    pub ssh_key_path: Option<String>,
}

/// Arguments that name a database.
#[derive(Debug, Clone)]
pub struct DatabaseArgs {
    pub database_type: Option<String>,
    pub database: Option<String>,
    pub host: Option<String>,
    pub port: Option<u16>,
    pub username: Option<String>,
    pub password: Option<String>,
    pub ssh: Option<SshArgs>,
}

/// Arguments that name a store.
#[derive(Debug)]
pub struct StorageArgs {
    pub storage_type: Option<String>,
    pub storage_name: Option<String>,
    pub location: Option<String>,
    pub bucket: Option<String>,
    pub region: Option<String>,
    pub endpoint: Option<String>,
    pub access_key: Option<String>,
    pub secret_key: Option<String>,
}

/// Why arguments do not make a configuration.
#[derive(Debug, Clone, Copy, PartialEq, Eq, Structural)]
pub enum CliError {
    /// A retention shorter than two characters.
    InvalidRetentionFormat,
    /// A retention whose number is not a `u64`.
    InvalidRetentionValue,
    /// A retention whose unit is not `d`, `w`, `m` or `y`.
    InvalidRetentionUnit,
    MissingBucket,
    MissingEndpoint,
    MissingAccessKey,
    MissingSecretKey,
    MissingRegion,
    MissingLocation,
    UnsupportedStorageType,
    MissingDatabaseType,
    MissingDatabase,
    MissingHost,
    MissingPort,
    MissingUsername,
    MissingSshHost,
    MissingSshKeyPath,
    MissingSshUsername,
    UnsupportedDatabaseType,
}

// ---------------------------------------------------------------------------
// Retention

/// The number of days a retention unit stands for: a day, a week, a month of
/// thirty days, a year of 365 days.
pub open spec fn retention_unit_days(c: char) -> Option<nat> {
    if c == 'd' {
        Some(1)
    } else if c == 'w' {
        Some(7)
    } else if c == 'm' {
        Some(30)
    } else if c == 'y' {
        Some(365)
    } else {
        None
    }
}

/// A retention such as `"30d"`, `"4w"`, `"2m"` or `"1y"` in days: a number as
/// `str::parse::<u64>` reads it, then a unit.
pub open spec fn retention_days(s: Seq<char>) -> Result<nat, CliError> {
    if s.len() < 2 {
        Err(CliError::InvalidRetentionFormat)
    } else {
        match parse_u64(s.drop_last()) {
            None => Err(CliError::InvalidRetentionValue),
            Some(v) => match retention_unit_days(s.last()) {
                None => Err(CliError::InvalidRetentionUnit),
                Some(d) => Ok((v * d) as nat),
            },
        }
    }
}

/// The number of days of a retention period such as `"30d"` (days), `"4w"`
/// (weeks), `"2m"` (months of thirty days) or `"1y"` (years of 365 days).
/// The last character must be ASCII, where there is one, so that the number
/// before it is a whole part of the text; the number of days must fit in a
/// `u64`.
pub fn parse_retention(retention: &str) -> (r: Result<u64, CliError>)
    requires
        retention@.len() > 0 ==> (retention@.last() as u32) < 128,
        retention_days(retention@) matches Ok(d) ==> d <= u64::MAX,
    ensures
        match r {
            Ok(d) => retention_days(retention@) == Ok::<nat, CliError>(d as nat),
            Err(e) => retention_days(retention@) == Err::<nat, CliError>(e),
        },
{
    let s = chars_of(retention);
    let n = s.len();
    if n < 2 {
        return Err(CliError::InvalidRetentionFormat);
    }
    let value = match parse_unsigned(s.as_slice(), 0, n - 1, u64::MAX) {
        Some(v) => v,
        None => {
            proof {
                assert(s@.subrange(0, n - 1) == retention@.drop_last());
            }
            return Err(CliError::InvalidRetentionValue);
        },
    };
    proof {
        assert(s@.subrange(0, n - 1) == retention@.drop_last());
        assert(parse_u64(retention@.drop_last()) == Some(value));
    }
    let unit = s[n - 1];
    assert(retention@.last() == unit);
    if unit == 'd' {
        assert(retention_unit_days(unit) == Some(1nat));
        assert(retention_days(retention@) == Ok::<nat, CliError>((value * 1) as nat));
        Ok(value)
    } else if unit == 'w' {
        Ok(value * 7)
    } else if unit == 'm' {
        Ok(value * 30)
    } else if unit == 'y' {
        Ok(value * 365)
    } else {
        Err(CliError::InvalidRetentionUnit)
    }
}

/// A retention written as a number followed by a unit reads back as that
/// many units, in days.
pub proof fn lemma_retention_round_trip(n: u64, unit: char)
    requires
        retention_unit_days(unit) is Some,
    ensures
        retention_days(decimal_text(n as nat).push(unit)) == Ok::<nat, CliError>(
            (n * retention_unit_days(unit).unwrap()) as nat,
        ),
{
    lemma_decimal_text_value(n as nat);
    lemma_decimal_text_parses(n);
    let s = decimal_text(n as nat).push(unit);
    assert(s.drop_last() == decimal_text(n as nat));
    assert(s.last() == unit);
}

// ---------------------------------------------------------------------------
// Storage

/// The storage type the arguments name, `"local"` by default.
pub open spec fn storage_type_text(args: StorageArgs) -> Seq<char> {
    match args.storage_type {
        Some(t) => t@,
        None => "local"@,
    }
}

/// The storage name the arguments name, `"default"` by default.
pub open spec fn storage_name_text(args: StorageArgs) -> Seq<char> {
    match args.storage_name {
        Some(t) => t@,
        None => "default"@,
    }
}

/// The first thing missing or wrong in storage arguments, in the order they
/// are checked, or `None` where they make a configuration.
pub open spec fn storage_args_error(args: StorageArgs) -> Option<CliError> {
    let t = storage_type_text(args);
    if t == "s3"@ {
        if args.bucket is None {
            Some(CliError::MissingBucket)
        } else if args.endpoint is None {
            Some(CliError::MissingEndpoint)
        } else if args.access_key is None {
            Some(CliError::MissingAccessKey)
        } else if args.secret_key is None {
            Some(CliError::MissingSecretKey)
        } else if args.region is None {
            Some(CliError::MissingRegion)
        } else if args.location is None {
            Some(CliError::MissingLocation)
        } else {
            None
        }
    } else if t == "local"@ {
        if args.location is None {
            Some(CliError::MissingLocation)
        } else {
            None
        }
    } else {
        Some(CliError::UnsupportedStorageType)
    }
}

/// The configuration that storage arguments without error make.
pub open spec fn storage_config_matches(args: StorageArgs, c: StorageConfig) -> bool {
    match c {
        StorageConfig::S3(s) => {
            &&& storage_type_text(args) == "s3"@
            &&& s.id@.len() == 0
            &&& s.name@ == storage_name_text(args)
            &&& args.bucket == Some(s.bucket)
            &&& args.region == Some(s.region)
            &&& s.endpoint is Some && args.endpoint == s.endpoint
            &&& args.access_key == Some(s.access_key)
            &&& args.secret_key == Some(s.secret_key)
            &&& args.location == Some(s.location)
        },
        StorageConfig::Local(l) => {
            &&& storage_type_text(args) == "local"@
            &&& l.id@.len() == 0
            &&& l.name@ == storage_name_text(args)
            &&& args.location == Some(l.location)
        },
    }
}

fn clone_opt(o: &Option<String>) -> (r: Option<String>)
    ensures
        r == *o,
{
    match o {
        Some(s) => Some(s.clone()),
        None => None,
    }
}

/// The store that command-line arguments name: S3 (`--storage-type s3`), which
/// needs a bucket, an endpoint, both keys, a region and a location, or the
/// local file system (the default), which needs a location. The name is
/// `"default"` where none is given.
pub fn storage_from_cli(args: &StorageArgs) -> (r: Result<StorageConfig, CliError>)
    ensures
        match r {
            Ok(c) => storage_args_error(*args) is None && storage_config_matches(*args, c),
            Err(e) => storage_args_error(*args) == Some(e),
        },
{
    let storage_type = match &args.storage_type {
        Some(t) => t.as_str(),
        None => "local",
    };
    let name = match &args.storage_name {
        Some(n) => n.clone(),
        None => owned("default"),
    };
    if str_eq(storage_type, "s3") {
        let bucket = match &args.bucket {
            Some(b) => b.clone(),
            None => return Err(CliError::MissingBucket),
        };
        let endpoint = match &args.endpoint {
            Some(e) => e.clone(),
            None => return Err(CliError::MissingEndpoint),
        };
        let access_key = match &args.access_key {
            Some(k) => k.clone(),
            None => return Err(CliError::MissingAccessKey),
        };
        let secret_key = match &args.secret_key {
            Some(k) => k.clone(),
            None => return Err(CliError::MissingSecretKey),
        };
        let region = match &args.region {
            Some(x) => x.clone(),
            None => return Err(CliError::MissingRegion),
        };
        let location = match &args.location {
            Some(l) => l.clone(),
            None => return Err(CliError::MissingLocation),
        };
        Ok(
            StorageConfig::S3(
                S3StorageConfig {
                    id: String::new(),
                    name,
                    region,
                    endpoint: Some(endpoint),
                    bucket,
                    access_key,
                    secret_key,
                    location,
                },
            ),
        )
    } else if str_eq(storage_type, "local") {
        let location = match &args.location {
            Some(l) => l.clone(),
            None => return Err(CliError::MissingLocation),
        };
        Ok(StorageConfig::Local(LocalStorageConfig { id: String::new(), name, location }))
    } else {
        Err(CliError::UnsupportedStorageType)
    }
}

// ---------------------------------------------------------------------------
// Database

/// The first thing missing or wrong in database arguments, in the order they
/// are checked, or `None` where they make a configuration.
pub open spec fn database_args_error(args: DatabaseArgs) -> Option<CliError> {
    if args.database_type is None {
        Some(CliError::MissingDatabaseType)
    } else if args.database is None {
        Some(CliError::MissingDatabase)
    } else if args.host is None {
        Some(CliError::MissingHost)
    } else if args.port is None {
        Some(CliError::MissingPort)
    } else if args.username is None {
        Some(CliError::MissingUsername)
    } else if args.ssh is Some && args.ssh.unwrap().ssh_host is None {
        Some(CliError::MissingSshHost)
    } else if args.ssh is Some && args.ssh.unwrap().ssh_key_path is None {
        Some(CliError::MissingSshKeyPath)
    } else if args.ssh is Some && args.ssh.unwrap().ssh_username is None {
        Some(CliError::MissingSshUsername)
    } else if args.database_type.unwrap()@ != "postgresql"@ && args.database_type.unwrap()@ != "mysql"@ {
        Some(CliError::UnsupportedDatabaseType)
    } else {
        None
    }
}

/// The tunnel that SSH arguments with host, key and user name describe: port
/// 22, authenticated by the private key without a passphrase.
pub open spec fn tunnel_of(ssh: Option<SshArgs>) -> Option<SshTunnelConfig> {
    match ssh {
        None => None,
        Some(s) => Some(
            SshTunnelConfig {
                host: s.ssh_host.unwrap(),
                port: 22,
                username: s.ssh_username.unwrap(),
                auth_method: SshAuthMethod::PrivateKey { key_path: s.ssh_key_path.unwrap(), passphrase_key: None },
            },
        ),
    }
}

/// The configuration that database arguments without error make.
pub open spec fn database_config_matches(args: DatabaseArgs, c: DatabaseConfig) -> bool {
    &&& c.connection_type == if args.database_type.unwrap()@ == "postgresql"@ {
        ConnectionType::PostgreSql
    } else {
        ConnectionType::MySql
    }
    &&& args.database == Some(c.database)
    &&& args.database == Some(c.name)
    &&& c.id@.len() == 0
    &&& args.host == Some(c.host)
    &&& args.port == Some(c.port)
    &&& args.username == Some(c.username)
    &&& c.password == args.password
    &&& c.ssh_tunnel == tunnel_of(args.ssh)
}

/// The database that command-line arguments name: its type (`postgresql` or
/// `mysql`), name, host, port and user are required, the password is
/// optional, and SSH arguments, where given, must name host, key and user.
pub fn database_config_from_cli(args: &DatabaseArgs) -> (r: Result<DatabaseConfig, CliError>)
    ensures
        match r {
            Ok(c) => database_args_error(*args) is None && database_config_matches(*args, c),
            Err(e) => database_args_error(*args) == Some(e),
        },
{
    let database_type = match &args.database_type {
        Some(t) => t,
        None => return Err(CliError::MissingDatabaseType),
    };
    let database = match &args.database {
        Some(d) => d,
        None => return Err(CliError::MissingDatabase),
    };
    let host = match &args.host {
        Some(h) => h,
        None => return Err(CliError::MissingHost),
    };
    let port = match args.port {
        Some(p) => p,
        None => return Err(CliError::MissingPort),
    };
    let username = match &args.username {
        Some(u) => u,
        None => return Err(CliError::MissingUsername),
    };
    let ssh_tunnel = match &args.ssh {
        Some(ssh) => {
            let ssh_host = match &ssh.ssh_host {
                Some(h) => h.clone(),
                None => return Err(CliError::MissingSshHost),
            };
            let ssh_key_path = match &ssh.ssh_key_path {
                Some(k) => k.clone(),
                None => return Err(CliError::MissingSshKeyPath),
            };
            let ssh_username = match &ssh.ssh_username {
                Some(u) => u.clone(),
                None => return Err(CliError::MissingSshUsername),
            };
            Some(
                SshTunnelConfig {
                    port: 22,
                    host: ssh_host,
                    username: ssh_username,
                    auth_method: SshAuthMethod::PrivateKey { key_path: ssh_key_path, passphrase_key: None },
                },
            )
        },
        None => None,
    };
    let connection_type = if str_eq(database_type.as_str(), "postgresql") {
        ConnectionType::PostgreSql
    } else if str_eq(database_type.as_str(), "mysql") {
        ConnectionType::MySql
    } else {
        return Err(CliError::UnsupportedDatabaseType);
    };
    Ok(
        DatabaseConfig {
            connection_type,
            database: database.clone(),
            id: String::new(),
            name: database.clone(),
            host: host.clone(),
            port,
            username: username.clone(),
            password: clone_opt(&args.password),
            ssh_tunnel,
        },
    )
}

/// A configuration built from command-line arguments takes each setting from
/// the argument that names it: the database's name, host, port, user and
/// password; and, where SSH arguments are given, a tunnel to the SSH host on
/// port 22 as the SSH user, authenticated by the given private key file with
/// no passphrase; no tunnel where none are given.
pub proof fn lemma_database_config_takes_the_arguments(args: DatabaseArgs, c: DatabaseConfig)
    requires
        database_args_error(args) is None,
        database_config_matches(args, c),
    ensures
        args.database == Some(c.database) && args.database == Some(c.name),
        args.host == Some(c.host) && args.port == Some(c.port) && args.username == Some(c.username),
        c.password == args.password,
        args.database_type.unwrap()@ == "postgresql"@ ==> c.connection_type == ConnectionType::PostgreSql,
        args.database_type.unwrap()@ == "mysql"@ ==> c.connection_type == ConnectionType::MySql,
        args.ssh is None ==> c.ssh_tunnel is None,
        args.ssh matches Some(ssh) ==> {
            &&& c.ssh_tunnel matches Some(t)
            &&& ssh.ssh_host == Some(t.host)
            &&& ssh.ssh_username == Some(t.username)
            &&& t.port == 22
            &&& t.auth_method matches SshAuthMethod::PrivateKey { key_path, passphrase_key }
            &&& ssh.ssh_key_path == Some(key_path)
            &&& passphrase_key is None
        },
{
    reveal_strlit("mysql");
    reveal_strlit("postgresql");
    assert("mysql"@.len() != "postgresql"@.len());
}

} // verus!
