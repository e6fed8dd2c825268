//! The menus of the interactive mode and the configurations its answers make.
use vstd::prelude::*;

use crate::databases::ssh_tunnel::{SshAuthMethod, SshTunnelConfig};
use crate::databases::{ConnectionType, DatabaseConfig};
use crate::storage::provider::{LocalStorageConfig, S3StorageConfig, StorageConfig};

verus! {

/// The choices of the main menu.
#[derive(Debug, Clone, Copy, PartialEq, Eq, Structural)]
pub enum MainAction {
    CreateWorkspace,
    UseWorkspace,
    BackupDatabase,
    RestoreDatabase,
    ListBackups,
    ManageWorkspaces,
    Exit,
}

/// The label of a main menu choice.
pub open spec fn main_action_label(a: MainAction) -> Seq<char> {
    match a {
        MainAction::CreateWorkspace => "Create new workspace"@,
        MainAction::UseWorkspace => "Switch workspace"@,
        MainAction::BackupDatabase => "Backup database"@,
        MainAction::RestoreDatabase => "Restore database"@,
        MainAction::ListBackups => "List backups"@,
        MainAction::ManageWorkspaces => "Manage workspaces"@,
        MainAction::Exit => "Exit"@,
    }
}

impl MainAction {
    /// The label shown for the choice.
    pub fn label(&self) -> (r: &'static str)
        ensures
            r@ == main_action_label(*self),
    {
        match self {
            MainAction::CreateWorkspace => "Create new workspace",
            MainAction::UseWorkspace => "Switch workspace",
            MainAction::BackupDatabase => "Backup database",
            MainAction::RestoreDatabase => "Restore database",
            MainAction::ListBackups => "List backups",
            MainAction::ManageWorkspaces => "Manage workspaces",
            MainAction::Exit => "Exit",
        }
    }
}

/// The main menu: creating a workspace, switching where there are
/// workspaces, managing them, backing up, restoring and listing where one is
/// active, and leaving.
pub open spec fn main_menu(has_workspaces: bool, has_active: bool) -> Seq<MainAction> {
    let head = if has_workspaces {
        seq![MainAction::CreateWorkspace, MainAction::UseWorkspace, MainAction::ManageWorkspaces]
    } else {
        seq![MainAction::CreateWorkspace, MainAction::ManageWorkspaces]
    };
    let middle = if has_active {
        seq![MainAction::BackupDatabase, MainAction::RestoreDatabase, MainAction::ListBackups]
    } else {
        Seq::empty()
    };
    head + middle + seq![MainAction::Exit]
}

/// See `main_menu`.
pub fn main_actions(has_workspaces: bool, has_active: bool) -> (v: Vec<MainAction>)
    ensures
        v@ == main_menu(has_workspaces, has_active),
{
    let mut v: Vec<MainAction> = Vec::new();
    v.push(MainAction::CreateWorkspace);
    if has_workspaces {
        v.push(MainAction::UseWorkspace);
    }
    v.push(MainAction::ManageWorkspaces);
    if has_active {
        v.push(MainAction::BackupDatabase);
        v.push(MainAction::RestoreDatabase);
        v.push(MainAction::ListBackups);
    }
    v.push(MainAction::Exit);
    assert(v@ =~= main_menu(has_workspaces, has_active));
    v
}

/// The database engines offered.
#[derive(Debug, Clone, Copy, PartialEq, Eq, Structural)]
pub enum DatabaseType {
    PostgreSQL,
    MySQL,
}

impl DatabaseType {
    /// The label shown for the engine.
    pub fn label(&self) -> (r: &'static str)
        ensures
            r@ == match *self {
                DatabaseType::PostgreSQL => "PostgreSQL"@,
                DatabaseType::MySQL => "MySQL"@,
            },
    {
        match self {
            DatabaseType::PostgreSQL => "PostgreSQL",
            DatabaseType::MySQL => "MySQL",
        }
    }

    /// The port proposed for the engine: 5432 for PostgreSQL, 3306 for MySQL.
    pub fn default_port(&self) -> (r: &'static str)
        ensures
            r@ == match *self {
                DatabaseType::PostgreSQL => "5432"@,
                DatabaseType::MySQL => "3306"@,
            },
    {
        match self {
            DatabaseType::PostgreSQL => "5432",
            DatabaseType::MySQL => "3306",
        }
    }

    /// The connection type of the engine.
    pub fn connection_type(&self) -> (r: ConnectionType)
        ensures
            r == match *self {
                DatabaseType::PostgreSQL => ConnectionType::PostgreSql,
                DatabaseType::MySQL => ConnectionType::MySql,
            },
    {
        match self {
            DatabaseType::PostgreSQL => ConnectionType::PostgreSql,
            DatabaseType::MySQL => ConnectionType::MySql,
        }
    }
}

/// The kinds of store offered.
#[derive(Debug, Clone, Copy, PartialEq, Eq, Structural)]
pub enum StorageType {
    Local,
    S3,
}

impl StorageType {
    /// The label shown for the kind of store.
    pub fn label(&self) -> (r: &'static str)
        ensures
            r@ == match *self {
                StorageType::Local => "Local filesystem"@,
                StorageType::S3 => "Amazon S3 / Compatible"@,
            },
    {
        match self {
            StorageType::Local => "Local filesystem",
            StorageType::S3 => "Amazon S3 / Compatible",
        }
    }
}

/// The choices of the workspace menu.
#[derive(Debug, Clone, Copy, PartialEq, Eq, Structural)]
pub enum WorkspaceAction {
    List,
    Delete,
    Back,
}

impl WorkspaceAction {
    /// The label shown for the choice.
    pub fn label(&self) -> (r: &'static str)
        ensures
            r@ == match *self {
                WorkspaceAction::List => "List workspaces"@,
                WorkspaceAction::Delete => "Delete workspace"@,
                WorkspaceAction::Back => "Back to main menu"@,
            },
    {
        match self {
            WorkspaceAction::List => "List workspaces",
            WorkspaceAction::Delete => "Delete workspace",
            WorkspaceAction::Back => "Back to main menu",
        }
    }
}

/// The tunnel the answers describe: port 22 and the private key, without a
/// passphrase.
pub fn ssh_config_from_answers(host: String, username: String, key_path: String) -> (r: SshTunnelConfig)
    ensures
        r == (SshTunnelConfig {
            host,
            port: 22,
            username,
            auth_method: SshAuthMethod::PrivateKey { key_path, passphrase_key: None },
        }),
{
    SshTunnelConfig { port: 22, host, username, auth_method: SshAuthMethod::PrivateKey { key_path, passphrase_key: None } }
}

/// The database the answers describe; it is named after the database, and
/// has no id yet.
pub fn database_config_from_answers(
    db_type: DatabaseType,
    host: String,
    port: u16,
    database: String,
    username: String,
    password: Option<String>,
    ssh_tunnel: Option<SshTunnelConfig>,
) -> (r: DatabaseConfig)
    ensures
        r.connection_type == match db_type {
            DatabaseType::PostgreSQL => ConnectionType::PostgreSql,
            DatabaseType::MySQL => ConnectionType::MySql,
        },
        r.database == database,
        r.name == database,
        r.id@.len() == 0,
        r.host == host,
        r.port == port,
        r.username == username,
        r.password == password,
        r.ssh_tunnel == ssh_tunnel,
{
    DatabaseConfig {
        connection_type: db_type.connection_type(),
        name: database.clone(),
        database,
        id: String::new(),
        host,
        port,
        username,
        password,
        ssh_tunnel,
    }
}

/// The answers about an S3 store.
#[derive(Debug, Clone)]
pub struct S3Answers {
    pub bucket: String,
    pub region: String,
    pub endpoint: Option<String>,
    pub access_key: String,
    pub secret_key: String,
}

/// The store the answers describe: local, or S3 with the S3 answers; it has
/// no id yet.
pub fn storage_config_from_answers(name: String, location: String, s3: Option<S3Answers>) -> (r: StorageConfig)
    ensures
        match s3 {
            None => r matches StorageConfig::Local(l) && l.name == name && l.location == location && l.id@.len() == 0,
            Some(a) => r matches StorageConfig::S3(c) && c.name == name && c.location == location && c.id@.len() == 0
                && c.bucket == a.bucket && c.region == a.region && c.endpoint == a.endpoint && c.access_key
                == a.access_key && c.secret_key == a.secret_key,
        },
{
    match s3 {
        None => StorageConfig::Local(LocalStorageConfig { name, id: String::new(), location }),
        Some(a) => StorageConfig::S3(
            S3StorageConfig {
                name,
                bucket: a.bucket,
                region: a.region,
                endpoint: a.endpoint,
                access_key: a.access_key,
                secret_key: a.secret_key,
                location,
                id: String::new(),
            },
        ),
    }
}

} // verus!
