//! Backup sources described by their connection settings.
use vstd::prelude::*;

verus! {

/// A backup source that has a name.
pub trait BaseBackupSourceConfig {
    fn name(&self) -> &str;
}

/// An SSH tunnel to open before connecting to a source.
#[derive(Debug, Clone, PartialEq, Eq)]
pub struct TunnelConfig {
    pub use_tunnel: bool,
    pub key_path: String,
    pub username: String,
}

/// A PostgreSQL source.
#[derive(Debug, Clone)]
pub struct PGSourceConfig {
    pub name: String,
    pub database: String,
    pub host: String,
    pub port: u16,
    pub username: String,
    pub password: Option<String>,
    pub tunnel_config: Option<TunnelConfig>,
}

impl BaseBackupSourceConfig for PGSourceConfig {
    fn name(&self) -> (r: &str)
        ensures
            r@ == self.name@,
    {
        self.name.as_str()
    }
}

/// A backup source, by kind.
#[derive(Debug, Clone)]
pub enum SourceConfig {
    PG(PGSourceConfig),
}

} // verus!
