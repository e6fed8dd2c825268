//! Where the installed MySQL client tools of one version lie.
use vstd::prelude::*;

use crate::archives::{binaries_base_path, binaries_path};
use crate::databases::mysql::version::MySqlVersion;
use crate::databases::version::Version;
use crate::text::{join_path, path_join};

verus! {

/// The installed client tools of one MySQL version.
#[derive(Debug, Clone, Copy)]
pub struct MySqlUtilities {
    pub version: MySqlVersion,
}

impl MySqlUtilities {
    /// The tools of `version`.
    pub fn new(version: MySqlVersion) -> (r: Self)
        ensures
            r.version == version,
    {
        MySqlUtilities { version }
    }

    /// The `bin` directory of the tools installed under `cache_root`.
    pub fn get_base_path(&self, cache_root: &str) -> (r: String)
        ensures
            r@ == path_join(binaries_path(cache_root@, Version::MySql(self.version)), "bin"@),
    {
        let base = binaries_base_path(cache_root, &Version::MySql(self.version));
        join_path(base.as_str(), "bin")
    }

    /// The path of the tool `bin_name` installed under `cache_root`.
    pub fn command_path(&self, cache_root: &str, bin_name: &str) -> (r: String)
        ensures
            r@ == path_join(path_join(binaries_path(cache_root@, Version::MySql(self.version)), "bin"@), bin_name@),
    {
        let base = self.get_base_path(cache_root);
        join_path(base.as_str(), bin_name)
    }
}

} // verus!
