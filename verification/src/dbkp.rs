//! The settings of a backup and of a restore, as the caller gives them or as
//! they default, and the verdict of a connection test.
use vstd::prelude::*;

use crate::common::{get_default_backup_name, is_fresh_backup_name};
use crate::compression::CompressionFormat;
use crate::databases::{DatabaseConfig, RestoreOptions as DatabaseRestoreOptions};

verus! {

/// How a backup is made; what is not set takes its default.
#[derive(Debug, Clone)]
pub struct BackupOptions {
    pub name: Option<String>,
    pub compression_format: Option<CompressionFormat>,
    pub compression_level: Option<u32>,
}

/// How a restore is made.
#[derive(Debug, Clone)]
pub struct RestoreOptions {
    pub name: String,
    pub compression_format: Option<CompressionFormat>,
    pub drop_database_first: Option<bool>,
}

/// The settings a backup runs with.
#[derive(Debug, Clone)]
pub struct BackupSettings {
    pub name: String,
    pub compression_format: CompressionFormat,
    pub compression_level: u32,
}

/// The compression level of backups where none is given.
pub const DEFAULT_COMPRESSION_LEVEL: u32 = 9;

/// The format of a backup: the one given, else gzip.
pub open spec fn format_or_gzip(f: Option<CompressionFormat>) -> CompressionFormat {
    match f {
        Some(x) => x,
        None => CompressionFormat::Gzip,
    }
}

/// The settings of a backup of the database of `config`: the name, format and
/// level given, else a fresh name (see `get_default_backup_name`), gzip, and
/// level 9. `None` only where a fresh name was needed and could not be made.
pub fn backup_settings(options: Option<BackupOptions>, config: &DatabaseConfig) -> (r: Option<BackupSettings>)
    ensures
        match r {
            Some(s) => {
                &&& s.compression_format == format_or_gzip(match options {
                    Some(o) => o.compression_format,
                    None => None,
                })
                &&& s.compression_level == match options {
                    Some(o) => match o.compression_level {
                        Some(l) => l,
                        None => DEFAULT_COMPRESSION_LEVEL,
                    },
                    None => DEFAULT_COMPRESSION_LEVEL,
                }
                &&& match options {
                    Some(o) if o.name is Some => s.name == o.name.unwrap(),
                    _ => is_fresh_backup_name(s.name@, config.name@, s.compression_format),
                }
            },
            None => !(options matches Some(o) && o.name is Some),
        },
{
    let (name, format, level) = match options {
        Some(o) => (o.name, o.compression_format, o.compression_level),
        None => (None, None, None),
    };
    let compression_format = match format {
        Some(f) => f,
        None => CompressionFormat::Gzip,
    };
    let compression_level = match level {
        Some(l) => l,
        None => DEFAULT_COMPRESSION_LEVEL,
    };
    let name = match name {
        Some(n) => n,
        None => match get_default_backup_name(config, &compression_format) {
            Some(n) => n,
            None => return None,
        },
    };
    Some(BackupSettings { name, compression_format, compression_level })
}

/// The format a restore reads (gzip unless given) and whether it drops the
/// database first (not unless asked).
pub fn restore_settings(options: &RestoreOptions) -> (r: (CompressionFormat, DatabaseRestoreOptions))
    ensures
        r.0 == format_or_gzip(options.compression_format),
        r.1.drop_database_first == (options.drop_database_first == Some(true)),
{
    let format = match options.compression_format {
        Some(f) => f,
        None => CompressionFormat::Gzip,
    };
    let drop = match options.drop_database_first {
        Some(d) => d,
        None => false,
    };
    (format, DatabaseRestoreOptions { drop_database_first: drop })
}

/// Why a connection test failed.
#[derive(Debug, Clone, Copy, PartialEq, Eq, Structural)]
pub enum ConnectionTestError {
    /// The database did not answer.
    DatabaseUnreachable,
    /// The store did not answer.
    StorageUnreachable,
}

/// The verdict of testing the database and the store: the database is
/// reported first.
pub fn connection_verdict(database_connected: bool, storage_connected: bool) -> (r: Result<bool, ConnectionTestError>)
    ensures
        !database_connected ==> r == Err::<bool, ConnectionTestError>(ConnectionTestError::DatabaseUnreachable),
        database_connected && !storage_connected ==> r == Err::<bool, ConnectionTestError>(
            ConnectionTestError::StorageUnreachable,
        ),
        database_connected && storage_connected ==> r == Ok::<bool, ConnectionTestError>(true),
{
    if !database_connected {
        Err(ConnectionTestError::DatabaseUnreachable)
    } else if !storage_connected {
        Err(ConnectionTestError::StorageUnreachable)
    } else {
        Ok(true)
    }
}

/// The answer to a connection test of a database.
#[derive(Debug, Clone, Copy, PartialEq, Eq, Structural)]
pub struct BackupConnectionResult {
    pub connected: bool,
}

} // verus!
