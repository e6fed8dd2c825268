//! Database connection settings and the engines this crate backs up.
use vstd::prelude::*;

use ssh_tunnel::SshTunnelConfig;
use version::Version;

pub mod configs;
pub mod failure;
pub mod connection;
pub mod mariadb;
pub mod mysql;
pub mod postgres;
pub mod ssh_tunnel;
pub mod version;

verus! {

/// Settings of a backup (none at present).
#[derive(Debug, Clone)]
pub struct BackupOptions {}

/// Settings of a restore.
#[derive(Debug, Clone, Copy, PartialEq, Eq)]
pub struct RestoreOptions {
    pub drop_database_first: bool,
}

/// What is known of a connected database server.
#[derive(Debug, Clone, Copy, PartialEq, Eq)]
pub struct DatabaseMetadata {
    pub version: Version,
}

/// The engine behind a connection.
#[derive(Debug, Clone, Copy, PartialEq, Eq, Structural)]
pub enum ConnectionType {
    PostgreSql,
    MySql,
}

/// Where and as whom to connect to a database, optionally through an SSH tunnel.
#[derive(Debug, Clone)]
pub struct DatabaseConfig {
    pub id: String,
    pub name: String,
    pub connection_type: ConnectionType,
    pub host: String,
    pub port: u16,
    pub database: String,
    pub username: String,
    pub password: Option<String>,
    pub ssh_tunnel: Option<SshTunnelConfig>,
}

/// A database to back up or restore; the client that serves it is chosen by
/// its connection type.
#[derive(Debug, Clone)]
pub struct DatabaseConnection {
    pub config: DatabaseConfig,
}

impl DatabaseConnection {
    /// The connection to the database of `config`.
    pub fn new(config: DatabaseConfig) -> (r: Self)
        ensures
            r.config == config,
    {
        DatabaseConnection { config }
    }

    /// The kind of client that serves the database.
    pub fn connection_type(&self) -> (r: ConnectionType)
        ensures
            r == self.config.connection_type,
    {
        self.config.connection_type
    }
}

} // verus!
