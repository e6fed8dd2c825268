//! The earlier form of the command line, whose stores have a prefix and whose
//! sources are PostgreSQL servers reached directly or through a tunnel.
use vstd::prelude::*;

use crate::cli::CliError;
use crate::databases::configs::{PGSourceConfig, SourceConfig, TunnelConfig};
use crate::storage::configs::{LocalStorageConfig, S3StorageConfig, StorageConfig};
use crate::text::str_eq;

verus! {

broadcast use vstd::string::group_string_axioms;

/// The parsed command line.
pub struct Cli {
    pub command: Commands,
}

/// What the program is asked to do.
pub enum Commands {
    Backup(BackupArgs),
    Restore(RestoreArgs),
    List(ListArgs),
    Cleanup(CleanupArgs),
}

/// Arguments of a backup.
pub struct BackupArgs {
    pub compression: Option<u8>,
    pub source: SourceArgs,
    pub storage: StorageArgs,
    pub retention: Option<String>,
}

/// Arguments of a restore.
pub struct RestoreArgs {
    pub filename: Option<String>,
    pub drop_database: Option<bool>,
    pub latest: bool,
    pub source: SourceArgs,
    pub storage: StorageArgs,
}

/// Arguments of a listing.
pub struct ListArgs {
    pub database: Option<String>,
    pub latest_only: bool,
    pub limit: usize,
    pub storage: StorageArgs,
}

/// Arguments of a cleanup.
pub struct CleanupArgs {
    pub retention: String,
    pub dry_run: bool,
    pub database: Option<String>,
    pub storage: StorageArgs,
}

/// Arguments that name the database to back up.
pub struct SourceArgs {
    pub source_type: String,
    pub source_name: String,
    pub database: String,
    pub host: String,
    pub port: u16,
    pub username: String,
    pub password: Option<String>,
    pub use_ssh_tunnel: bool,
    pub ssh_key_path: Option<String>,
    pub ssh_username: Option<String>,
}

/// Arguments that name a store.
#[derive(Debug)]
pub struct StorageArgs {
    pub storage_type: String,
    pub storage_name: String,
    pub prefix: Option<String>,
    pub bucket: Option<String>,
    pub region: String,
    pub endpoint: Option<String>,
    pub access_key: Option<String>,
    pub secret_key: Option<String>,
    pub root: Option<String>,
}

/// The number of days of a retention period; see `crate::cli::parse_retention`.
pub fn parse_retention(retention: &str) -> (r: Result<u64, CliError>)
    requires
        retention@.len() > 0 ==> (retention@.last() as u32) < 128,
        crate::cli::retention_days(retention@) matches Ok(d) ==> d <= u64::MAX,
    ensures
        match r {
            Ok(d) => crate::cli::retention_days(retention@) == Ok::<nat, CliError>(d as nat),
            Err(e) => crate::cli::retention_days(retention@) == Err::<nat, CliError>(e),
        },
{
    crate::cli::parse_retention(retention)
}

/// The first thing missing or wrong in storage arguments, or `None`.
pub open spec fn storage_args_error(args: StorageArgs) -> Option<CliError> {
    if args.storage_type@ == "s3"@ {
        if args.bucket is None {
            Some(CliError::MissingBucket)
        } else if args.endpoint is None {
            Some(CliError::MissingEndpoint)
        } else if args.access_key is None {
            Some(CliError::MissingAccessKey)
        } else if args.secret_key is None {
            Some(CliError::MissingSecretKey)
        } else {
            None
        }
    } else if args.storage_type@ == "local"@ {
        if args.root is None {
            Some(CliError::MissingLocation)
        } else {
            None
        }
    } else {
        Some(CliError::UnsupportedStorageType)
    }
}

/// The configuration that storage arguments without error make.
pub open spec fn storage_config_matches(args: StorageArgs, c: StorageConfig) -> bool {
    match c {
        StorageConfig::S3(s) => {
            &&& args.storage_type@ == "s3"@
            &&& s.name == args.storage_name
            &&& args.bucket == Some(s.bucket)
            &&& s.region == args.region
            &&& args.endpoint == Some(s.endpoint)
            &&& args.access_key == Some(s.access_key)
            &&& args.secret_key == Some(s.secret_key)
            &&& s.prefix == args.prefix
        },
        StorageConfig::Local(l) => {
            &&& args.storage_type@ == "local"@
            &&& l.name == args.storage_name
            &&& args.root == Some(l.root)
            &&& l.prefix == args.prefix
        },
    }
}

fn clone_opt(o: &Option<String>) -> (r: Option<String>)
    ensures
        r == *o,
{
    match o {
        Some(s) => Some(s.clone()),
        None => None,
    }
}

/// The store that the arguments name: `s3`, which needs a bucket, an endpoint
/// and both keys, or `local`, which needs a root.
pub fn storage_from_cli(storage: &StorageArgs) -> (r: Result<StorageConfig, CliError>)
    ensures
        match r {
            Ok(c) => storage_args_error(*storage) is None && storage_config_matches(*storage, c),
            Err(e) => storage_args_error(*storage) == Some(e),
        },
{
    if str_eq(storage.storage_type.as_str(), "s3") {
        let bucket = match &storage.bucket {
            Some(b) => b.clone(),
            None => return Err(CliError::MissingBucket),
        };
        let endpoint = match &storage.endpoint {
            Some(e) => e.clone(),
            None => return Err(CliError::MissingEndpoint),
        };
        let access_key = match &storage.access_key {
            Some(k) => k.clone(),
            None => return Err(CliError::MissingAccessKey),
        };
        let secret_key = match &storage.secret_key {
            Some(k) => k.clone(),
            None => return Err(CliError::MissingSecretKey),
        };
        Ok(
            StorageConfig::S3(
                S3StorageConfig {
                    name: storage.storage_name.clone(),
                    bucket,
                    region: storage.region.clone(),
                    endpoint,
                    access_key,
                    secret_key,
                    prefix: clone_opt(&storage.prefix),
                },
            ),
        )
    } else if str_eq(storage.storage_type.as_str(), "local") {
        let root = match &storage.root {
            Some(r) => r.clone(),
            None => return Err(CliError::MissingLocation),
        };
        Ok(
            StorageConfig::Local(
                LocalStorageConfig { name: storage.storage_name.clone(), root, prefix: clone_opt(&storage.prefix) },
            ),
        )
    } else {
        Err(CliError::UnsupportedStorageType)
    }
}

/// The first thing missing or wrong in source arguments, or `None`.
pub open spec fn source_args_error(args: SourceArgs) -> Option<CliError> {
    if args.use_ssh_tunnel && args.ssh_key_path is None {
        Some(CliError::MissingSshKeyPath)
    } else if args.use_ssh_tunnel && args.ssh_username is None {
        Some(CliError::MissingSshUsername)
    } else if args.source_type@ != "postgres"@ {
        Some(CliError::UnsupportedDatabaseType)
    } else {
        None
    }
}

/// The configuration that source arguments without error make.
pub open spec fn source_config_matches(args: SourceArgs, c: SourceConfig) -> bool {
    match c {
        SourceConfig::PG(pg) => {
            &&& pg.name == args.source_name
            &&& pg.database == args.database
            &&& pg.host == args.host
            &&& pg.port == args.port
            &&& pg.username == args.username
            &&& pg.password == args.password
            &&& pg.tunnel_config == if args.use_ssh_tunnel {
                Some(
                    TunnelConfig {
                        use_tunnel: true,
                        key_path: args.ssh_key_path.unwrap(),
                        username: args.ssh_username.unwrap(),
                    },
                )
            } else {
                None
            }
        },
    }
}

/// The database that the arguments name: a PostgreSQL server (`postgres`),
/// reached through an SSH tunnel where asked, which then needs a key and a
/// user name.
pub fn source_from_cli(source: &SourceArgs) -> (r: Result<SourceConfig, CliError>)
    ensures
        match r {
            Ok(c) => source_args_error(*source) is None && source_config_matches(*source, c),
            Err(e) => source_args_error(*source) == Some(e),
        },
{
    let tunnel_config = if source.use_ssh_tunnel {
        let key_path = match &source.ssh_key_path {
            Some(k) => k.clone(),
            None => return Err(CliError::MissingSshKeyPath),
        };
        let username = match &source.ssh_username {
            Some(u) => u.clone(),
            None => return Err(CliError::MissingSshUsername),
        };
        Some(TunnelConfig { use_tunnel: source.use_ssh_tunnel, key_path, username })
    } else {
        None
    };
    if str_eq(source.source_type.as_str(), "postgres") {
        Ok(
            SourceConfig::PG(
                PGSourceConfig {
                    name: source.source_name.clone(),
                    database: source.database.clone(),
                    host: source.host.clone(),
                    port: source.port,
                    username: source.username.clone(),
                    password: clone_opt(&source.password),
                    tunnel_config,
                },
            ),
        )
    } else {
        Err(CliError::UnsupportedDatabaseType)
    }
}

} // verus!
