//! Where the prebuilt MariaDB client tools are downloaded from.
use vstd::prelude::*;

use crate::common::{arch_download_name, get_arch, get_os, os_download_name, OsKind, PlatformError};
use crate::databases::mariadb::version::{mariadb_version_text, MariaDBVersion, DEFAULT_MARIADB_VERSION};
use crate::text::{concat_str, join_path, owned, path_join};

verus! {

broadcast use vstd::string::group_string_axioms;

/// The bucket that holds the MariaDB archives.
pub const MARIADB_ARCHIVE_BUCKET: &'static str = "https://s3.pub1.infomaniak.cloud/object/v1/AUTH_f1ed7eb1a4594d268432025f27acb84f/mariadb";

/// The installer of the client tools of one MariaDB version.
#[derive(Debug, Clone)]
pub struct MariaDBInstaller {
    pub version: MariaDBVersion,
    pub s3_bucket_url: String,
}

/// `<bucket>/mariadb-<version>-<os>-<arch>.tar.gz`.
pub open spec fn mariadb_archive_url(bucket: Seq<char>, version: MariaDBVersion, os: Seq<char>, arch: Seq<char>) -> Seq<char> {
    bucket + "/mariadb-"@ + mariadb_version_text(version) + "-"@ + os + "-"@ + arch + ".tar.gz"@
}

impl MariaDBInstaller {
    /// The installer of `version`, downloading from the MariaDB bucket.
    pub fn new(version: MariaDBVersion) -> (r: Self)
        ensures
            r.version == version,
            r.s3_bucket_url@ == MARIADB_ARCHIVE_BUCKET@,
    {
        MariaDBInstaller { version, s3_bucket_url: owned(MARIADB_ARCHIVE_BUCKET) }
    }

    /// The installer of the default version, MariaDB 11.2.
    pub fn default() -> (r: Self)
        ensures
            r.version == DEFAULT_MARIADB_VERSION,
            r.s3_bucket_url@ == MARIADB_ARCHIVE_BUCKET@,
    {
        Self::new(DEFAULT_MARIADB_VERSION)
    }

    /// The address of the archive for the platform named `os` and `arch` in
    /// download names.
    pub fn download_url_for(&self, os: &str, arch: &str) -> (r: String)
        ensures
            r@ == mariadb_archive_url(self.s3_bucket_url@, self.version, os@, arch@),
    {
        let a = concat_str(self.s3_bucket_url.as_str(), "/mariadb-");
        let b = concat_str(a.as_str(), self.version.as_str());
        let c = concat_str(b.as_str(), "-");
        let d = concat_str(c.as_str(), os);
        let e = concat_str(d.as_str(), "-");
        let f = concat_str(e.as_str(), arch);
        concat_str(f.as_str(), ".tar.gz")
    }

    /// The address of the archive for the running system, whose processor
    /// architecture is `arch` (as Rust names it).
    pub fn get_download_url(&self, arch: &str) -> (r: Result<String, PlatformError>)
        ensures
            match r {
                Ok(u) => exists|k: OsKind| #![trigger os_download_name(k)]
                    os_download_name(k) is Some && arch_download_name(arch@) is Some
                        && u@ == mariadb_archive_url(self.s3_bucket_url@, self.version, os_download_name(k).unwrap(), arch_download_name(arch@).unwrap()),
                Err(e) => e == PlatformError::UnsupportedOperatingSystem || (e == PlatformError::UnsupportedArchitecture && arch_download_name(arch@) is None),
            },
    {
        let os = get_os()?;
        let a = get_arch(arch)?;
        Ok(self.download_url_for(os.as_str(), a.as_str()))
    }

    /// The directory the tools are copied to inside `install_dir`: one named
    /// by the version.
    pub fn target_dir(&self, install_dir: &str) -> (r: String)
        ensures
            r@ == path_join(install_dir@, mariadb_version_text(self.version)),
    {
        join_path(install_dir, self.version.as_str())
    }
}

} // verus!
