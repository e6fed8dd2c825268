//! MariaDB: versions, the client tools and how they are run.
use vstd::prelude::*;

use crate::text::owned;

pub mod commands;
pub mod installer;
pub mod tools;
pub mod version;

verus! {

/// The connection settings of a MariaDB database.
#[derive(Debug, Clone)]
pub struct MariaDB {
    pub database: String,
    pub host: String,
    pub port: u16,
    pub username: String,
    pub password: Option<String>,
}

impl MariaDB {
    /// The settings of a database.
    pub fn new(database: &str, host: &str, port: u16, username: &str, password: Option<&str>) -> (r: Self)
        ensures
            r.database@ == database@,
            r.host@ == host@,
            r.port == port,
            r.username@ == username@,
            match password {
                Some(p) => r.password matches Some(q) && q@ == p@,
                None => r.password is None,
            },
    {
        MariaDB {
            database: owned(database),
            host: owned(host),
            port,
            username: owned(username),
            password: match password {
                Some(p) => Some(owned(p)),
                None => None,
            },
        }
    }
}

} // verus!
