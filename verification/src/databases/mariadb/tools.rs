//! The MariaDB client tools of one server version.
use vstd::prelude::*;

use crate::databases::mariadb::version::{
    mariadb_version_from_banner, MariaDBVersion, DEFAULT_MARIADB_VERSION,
};

verus! {

/// Why the tools cannot work with a server.
#[derive(Debug, Clone, Copy, PartialEq, Eq, Structural)]
pub enum MariaDBToolsError {
    /// The server's answer names no supported version.
    UnparsableVersion,
    /// A dump ran without error but gave no bytes.
    EmptyDump,
}

/// The client tools of one MariaDB version.
#[derive(Debug, Clone, Copy)]
pub struct MariaDBTools {
    pub version: MariaDBVersion,
}

impl MariaDBTools {
    /// The tools of `version`.
    pub fn new(version: MariaDBVersion) -> (r: Self)
        ensures
            r.version == version,
    {
        MariaDBTools { version }
    }

    /// The tools of the default version, MariaDB 11.2.
    pub fn default() -> (r: Self)
        ensures
            r.version == DEFAULT_MARIADB_VERSION,
    {
        Self::new(DEFAULT_MARIADB_VERSION)
    }

    /// The server version in an answer to `SELECT VERSION();`.
    pub fn version_from_output(output: &str) -> (r: Result<MariaDBVersion, MariaDBToolsError>)
        ensures
            match r {
                Ok(v) => mariadb_version_from_banner(output@) == Some(v),
                Err(e) => mariadb_version_from_banner(output@) is None && e == MariaDBToolsError::UnparsableVersion,
            },
    {
        match MariaDBVersion::parse_string_version(output) {
            Some(v) => Ok(v),
            None => Err(MariaDBToolsError::UnparsableVersion),
        }
    }

    /// A dump that gave no bytes is an error.
    pub fn check_dump_output(output: Vec<u8>) -> (r: Result<Vec<u8>, MariaDBToolsError>)
        ensures
            match r {
                Ok(v) => v@ == output@ && output@.len() > 0,
                Err(e) => output@.len() == 0 && e == MariaDBToolsError::EmptyDump,
            },
    {
        if output.len() == 0 {
            Err(MariaDBToolsError::EmptyDump)
        } else {
            Ok(output)
        }
    }
}

} // verus!
