//! How a command finds its configuration: from a saved workspace, or from
//! arguments complete enough to describe a database and a store; and how a
//! restore chooses its backup.
use vstd::prelude::*;

use crate::cli::{
    database_args_error, database_config_from_cli, database_config_matches, storage_args_error,
    storage_config_matches, storage_from_cli, storage_type_text, CliError, DatabaseArgs,
    StorageArgs,
};
use crate::databases::DatabaseConfig;
use crate::storage::provider::StorageConfig;
use crate::storage::Entry;
use crate::text::str_eq;
use crate::workspace::{Workspace, WorkspaceCollection};

verus! {

broadcast use vstd::string::group_string_axioms;

/// Why a command has no configuration or no backup to restore.
#[derive(Debug, Clone, Copy, PartialEq, Eq, Structural)]
pub enum ResolveError {
    /// The named workspace does not exist.
    WorkspaceNotFound,
    /// Neither a workspace nor the database arguments were given.
    DatabaseArgsMissing,
    /// Neither a workspace nor the storage arguments were given.
    StorageArgsMissing,
    /// The arguments were given but do not make a configuration.
    Invalid(CliError),
    /// A restore named no backup and did not ask for the latest.
    NoBackupChosen,
    /// The latest backup was asked for, and the store holds none.
    NoBackupsFound,
}

/// Whether the arguments name a database at all: type, name, host, port and
/// user are all given.
pub open spec fn database_args_given(args: DatabaseArgs) -> bool {
    args.database_type is Some && args.database is Some && args.host is Some && args.port is Some
        && args.username is Some
}

/// Whether the arguments name a store at all: a location for the local file
/// system (the default type), and bucket, endpoint, keys and location for S3.
pub open spec fn storage_args_given(args: StorageArgs) -> bool {
    let t = storage_type_text(args);
    if t == "local"@ {
        args.location is Some
    } else if t == "s3"@ {
        args.bucket is Some && args.endpoint is Some && args.access_key is Some && args.secret_key is Some
            && args.location is Some
    } else {
        false
    }
}

/// Whether the arguments name a database at all.
pub fn has_database_config(args: &DatabaseArgs) -> (r: bool)
    ensures
        r == database_args_given(*args),
{
    args.database_type.is_some() && args.database.is_some() && args.host.is_some() && args.port.is_some()
        && args.username.is_some()
}

/// Whether the arguments name a store at all.
pub fn has_storage_config(args: &StorageArgs) -> (r: bool)
    ensures
        r == storage_args_given(*args),
{
    let t = match &args.storage_type {
        Some(t) => t.as_str(),
        None => "local",
    };
    if str_eq(t, "local") {
        args.location.is_some()
    } else if str_eq(t, "s3") {
        args.bucket.is_some() && args.endpoint.is_some() && args.access_key.is_some() && args.secret_key.is_some()
            && args.location.is_some()
    } else {
        false
    }
}

/// The database and the store of a backup or a restore given without a
/// workspace: both sets of arguments must be given, the database's first, and
/// must make configurations.
pub fn configs_from_args(database: &DatabaseArgs, storage: &StorageArgs) -> (r: Result<(DatabaseConfig, StorageConfig), ResolveError>)
    ensures
        match r {
            Ok((d, s)) => {
                &&& database_args_given(*database) && database_args_error(*database) is None
                &&& database_config_matches(*database, d)
                &&& storage_args_given(*storage) && storage_args_error(*storage) is None
                &&& storage_config_matches(*storage, s)
            },
            Err(e) => e == if !database_args_given(*database) {
                ResolveError::DatabaseArgsMissing
            } else if database_args_error(*database) is Some {
                ResolveError::Invalid(database_args_error(*database).unwrap())
            } else if !storage_args_given(*storage) {
                ResolveError::StorageArgsMissing
            } else {
                ResolveError::Invalid(storage_args_error(*storage).unwrap())
            },
        },
{
    if !has_database_config(database) {
        return Err(ResolveError::DatabaseArgsMissing);
    }
    let d = match database_config_from_cli(database) {
        Ok(d) => d,
        Err(e) => return Err(ResolveError::Invalid(e)),
    };
    if !has_storage_config(storage) {
        return Err(ResolveError::StorageArgsMissing);
    }
    match storage_from_cli(storage) {
        Ok(s) => Ok((d, s)),
        Err(e) => Err(ResolveError::Invalid(e)),
    }
}

/// The store of a listing or a cleanup given without a workspace.
pub fn storage_config_from_args(storage: &Option<StorageArgs>) -> (r: Result<StorageConfig, ResolveError>)
    ensures
        match r {
            Ok(s) => *storage matches Some(a) && storage_args_given(a) && storage_args_error(a) is None
                && storage_config_matches(a, s),
            Err(e) => match storage {
                Some(a) => if storage_args_given(*a) {
                    e == ResolveError::Invalid(storage_args_error(*a).unwrap())
                } else {
                    e == ResolveError::StorageArgsMissing
                },
                None => e == ResolveError::StorageArgsMissing,
            },
        },
{
    match storage {
        Some(a) => {
            if has_storage_config(a) {
                match storage_from_cli(a) {
                    Ok(s) => Ok(s),
                    Err(e) => Err(ResolveError::Invalid(e)),
                }
            } else {
                Err(ResolveError::StorageArgsMissing)
            }
        },
        None => Err(ResolveError::StorageArgsMissing),
    }
}

/// The saved workspace a command names.
pub fn workspace_for<'a>(collection: &'a WorkspaceCollection, name: &str) -> (r: Result<&'a Workspace, ResolveError>)
    ensures
        match r {
            Ok(w) => collection.map().dom().contains(name@) && *w == collection.map()[name@],
            Err(e) => e == ResolveError::WorkspaceNotFound && !collection.map().dom().contains(name@),
        },
{
    match collection.get_workspace(name) {
        Some(w) => Ok(w),
        None => Err(ResolveError::WorkspaceNotFound),
    }
}

/// How a restore chooses its backup.
#[derive(Debug, Clone)]
pub enum BackupChoice {
    /// The backup named on the command line.
    Named(String),
    /// The newest backup in the store, to be looked up.
    Latest,
}

/// The backup a restore asks for: the one named, else the latest where asked
/// for, else none, which is an error.
pub fn backup_choice(name: &Option<String>, latest: bool) -> (r: Result<BackupChoice, ResolveError>)
    ensures
        match r {
            Ok(BackupChoice::Named(n)) => *name == Some(n),
            Ok(BackupChoice::Latest) => name is None && latest,
            Err(e) => name is None && !latest && e == ResolveError::NoBackupChosen,
        },
{
    match name {
        Some(n) => Ok(BackupChoice::Named(n.clone())),
        None => if latest {
            Ok(BackupChoice::Latest)
        } else {
            Err(ResolveError::NoBackupChosen)
        },
    }
}

/// The name of the first entry of a listing of the newest backup, or an error
/// where the listing is empty.
pub fn latest_backup_name(entries: &Vec<Entry>) -> (r: Result<String, ResolveError>)
    ensures
        match r {
            Ok(n) => entries@.len() > 0 && n == entries@[0].metadata.name,
            Err(e) => entries@.len() == 0 && e == ResolveError::NoBackupsFound,
        },
{
    if entries.len() > 0 {
        Ok(entries[0].metadata.name.clone())
    } else {
        Err(ResolveError::NoBackupsFound)
    }
}

} // verus!
