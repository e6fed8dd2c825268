//! Where the prebuilt PostgreSQL client tools are downloaded from.
use vstd::prelude::*;

use crate::common::{arch_download_name, get_arch, get_os, os_download_name, OsKind, PlatformError};
use crate::databases::postgres::version::PostgreSQLVersion;
use crate::text::{concat_str, decimal_string, decimal_text, join_path, owned, path_join};

verus! {

broadcast use vstd::string::group_string_axioms;

/// The bucket that holds the PostgreSQL archives.
pub const PG_ARCHIVE_BUCKET: &'static str = "https://s3.pub1.infomaniak.cloud/object/v1/AUTH_f1ed7eb1a4594d268432025f27acb84f/postgres";

/// The installer of the client tools of one PostgreSQL version.
#[derive(Debug, Clone)]
pub struct PgInstaller {
    pub version: PostgreSQLVersion,
    pub s3_bucket_url: String,
}

/// `<bucket>/postgresql-<major>-<os>-<arch>.tar.gz`.
pub open spec fn pg_archive_url(bucket: Seq<char>, major: u16, os: Seq<char>, arch: Seq<char>) -> Seq<char> {
    bucket + "/postgresql-"@ + decimal_text(major as nat) + "-"@ + os + "-"@ + arch + ".tar.gz"@
}

impl PgInstaller {
    /// The installer of `version`, downloading from the PostgreSQL bucket.
    pub fn new(version: PostgreSQLVersion) -> (r: Self)
        ensures
            r.version == version,
            r.s3_bucket_url@ == PG_ARCHIVE_BUCKET@,
    {
        PgInstaller { version, s3_bucket_url: owned(PG_ARCHIVE_BUCKET) }
    }

    /// The installer of the default version, PostgreSQL 15.
    pub fn default() -> (r: Self)
        ensures
            r.version == (PostgreSQLVersion { major: 15, minor: 0 }),
            r.s3_bucket_url@ == PG_ARCHIVE_BUCKET@,
    {
        Self::new(PostgreSQLVersion { major: 15, minor: 0 })
    }

    /// The address of the archive for the platform named `os` and `arch` in
    /// download names.
    pub fn download_url_for(&self, os: &str, arch: &str) -> (r: String)
        ensures
            r@ == pg_archive_url(self.s3_bucket_url@, self.version.major, os@, arch@),
    {
        let major = decimal_string(self.version.major as u64);
        let a = concat_str(self.s3_bucket_url.as_str(), "/postgresql-");
        let b = concat_str(a.as_str(), major.as_str());
        let c = concat_str(b.as_str(), "-");
        let d = concat_str(c.as_str(), os);
        let e = concat_str(d.as_str(), "-");
        let f = concat_str(e.as_str(), arch);
        concat_str(f.as_str(), ".tar.gz")
    }

    /// The address of the archive for the running system, whose processor
    /// architecture is `arch` (as Rust names it); an error for an
    /// unsupported system or architecture.
    pub fn get_download_url(&self, arch: &str) -> (r: Result<String, PlatformError>)
        ensures
            match r {
                Ok(u) => exists|k: OsKind| #![trigger os_download_name(k)]
                    os_download_name(k) is Some && arch_download_name(arch@) is Some
                        && u@ == pg_archive_url(self.s3_bucket_url@, self.version.major, os_download_name(k).unwrap(), arch_download_name(arch@).unwrap()),
                Err(e) => e == PlatformError::UnsupportedOperatingSystem || (e == PlatformError::UnsupportedArchitecture && arch_download_name(arch@) is None),
            },
    {
        let os = get_os()?;
        let a = get_arch(arch)?;
        Ok(self.download_url_for(os.as_str(), a.as_str()))
    }

    /// The directory of the binaries inside an installation directory.
    pub fn bin_dir(install_dir: &str) -> (r: String)
        ensures
            r@ == path_join(install_dir@, "bin"@),
    {
        join_path(install_dir, "bin")
    }
}

} // verus!
