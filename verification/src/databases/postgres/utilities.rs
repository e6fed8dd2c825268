//! Where the installed PostgreSQL client tools of one version lie.
use vstd::prelude::*;

use crate::archives::{binaries_base_path, binaries_path};
use crate::databases::postgres::version::PostgreSQLVersion;
use crate::databases::version::Version;
use crate::text::{join_path, path_join};

verus! {

/// The installed client tools of one PostgreSQL version.
#[derive(Debug, Clone, Copy)]
pub struct PostgreSqlUtilities {
    pub version: PostgreSQLVersion,
}

impl PostgreSqlUtilities {
    /// The tools of `version`.
    pub fn new(version: PostgreSQLVersion) -> (r: Self)
        ensures
            r.version == version,
    {
        PostgreSqlUtilities { version }
    }

    /// The `bin` directory of the tools installed under `cache_root`.
    pub fn get_base_path(&self, cache_root: &str) -> (r: String)
        ensures
            r@ == path_join(binaries_path(cache_root@, Version::PostgreSQL(self.version)), "bin"@),
    {
        let base = binaries_base_path(cache_root, &Version::PostgreSQL(self.version));
        join_path(base.as_str(), "bin")
    }

    /// The path of the tool `bin_name` installed under `cache_root`.
    pub fn command_path(&self, cache_root: &str, bin_name: &str) -> (r: String)
        ensures
            r@ == path_join(path_join(binaries_path(cache_root@, Version::PostgreSQL(self.version)), "bin"@), bin_name@),
    {
        let base = self.get_base_path(cache_root);
        join_path(base.as_str(), bin_name)
    }
}

} // verus!
