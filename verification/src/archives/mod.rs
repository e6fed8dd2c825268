//! Prebuilt client tools published as archives: the catalogue that lists
//! them, and which archive serves a database version on a platform.
use vstd::prelude::*;

use crate::common::{db_name_text, get_db_name, get_version_name, version_name_text};
use crate::databases::version::Version;
use crate::text::{concat_str, join_path, path_join, str_eq};

verus! {

broadcast use vstd::string::group_string_axioms;

/// The address of the catalogue of archives.
pub const METADATA_URL: &'static str = "https://s3.pub1.infomaniak.cloud/object/v1/AUTH_f1ed7eb1a4594d268432025f27acb84f/vprdbbkp/metadata.json";

/// The catalogue of archives.
#[derive(Debug, Clone)]
pub struct DatabaseArchives {
    pub metadata: ArchivesMetadata,
    pub databases: Vec<DatabaseEntry>,
}

/// When and in which form the catalogue was written.
#[derive(Debug, Clone)]
pub struct ArchivesMetadata {
    pub schema_version: String,
    pub last_updated: String,
}

/// The archives of one database engine.
#[derive(Debug, Clone)]
pub struct DatabaseEntry {
    pub database: String,
    pub archives: Vec<ArchiveEntry>,
}

/// The archives of one version, by platform key such as `linux-x86_64`.
#[derive(Debug, Clone)]
pub struct ArchiveEntry {
    pub version: ArchiveVersion,
    pub platforms: Vec<(String, ArchivePlatform)>,
}

/// The version an archive holds.
#[derive(Debug, Clone, Copy, PartialEq, Eq)]
pub struct ArchiveVersion {
    pub major: u32,
    pub minor: Option<u32>,
    pub patch: Option<u32>,
}

/// Where the archive for one platform is downloaded.
#[derive(Debug, Clone)]
pub struct ArchivePlatform {
    pub url: String,
}

/// Why no archive serves a version.
#[derive(Debug, Clone, Copy, PartialEq, Eq, Structural)]
pub enum ArchiveError {
    /// The catalogue lists no archives for the engine.
    DatabaseNotListed,
    /// The engine has no archive for the major version.
    VersionNotListed,
    /// The archive has no build for the platform.
    PlatformNotListed,
}

/// The major version by which archives are looked up.
pub open spec fn archive_major(v: Version) -> u32 {
    match v {
        Version::PostgreSQL(p) => p.major as u32,
        Version::MySql(m) => m.major as u32,
    }
}

/// The index of the first engine entry named `name`, if any.
pub open spec fn first_database(s: Seq<DatabaseEntry>, name: Seq<char>) -> Option<int> {
    if exists|i: int| 0 <= i < s.len() && (#[trigger] s[i]).database@ == name {
        Some(choose|i: int| 0 <= i < s.len() && (#[trigger] s[i]).database@ == name
            && forall|j: int| 0 <= j < i ==> (#[trigger] s[j]).database@ != name)
    } else {
        None
    }
}

/// The index of the first archive of major version `major`, if any.
pub open spec fn first_archive(s: Seq<ArchiveEntry>, major: u32) -> Option<int> {
    if exists|i: int| 0 <= i < s.len() && (#[trigger] s[i]).version.major == major {
        Some(choose|i: int| 0 <= i < s.len() && (#[trigger] s[i]).version.major == major
            && forall|j: int| 0 <= j < i ==> (#[trigger] s[j]).version.major != major)
    } else {
        None
    }
}

/// The index of the first platform entry with key `key`, if any.
pub open spec fn first_platform(s: Seq<(String, ArchivePlatform)>, key: Seq<char>) -> Option<int> {
    if exists|i: int| 0 <= i < s.len() && (#[trigger] s[i]).0@ == key {
        Some(choose|i: int| 0 <= i < s.len() && (#[trigger] s[i]).0@ == key
            && forall|j: int| 0 <= j < i ==> (#[trigger] s[j]).0@ != key)
    } else {
        None
    }
}

/// The address of the archive for `version` on the platform `os-arch`: the
/// catalogue's entry for the engine, then its archive for the major version,
/// then that archive's build for the platform.
pub open spec fn archive_url_in(
    catalogue: DatabaseArchives,
    version: Version,
    os: Seq<char>,
    arch: Seq<char>,
) -> Result<Seq<char>, ArchiveError> {
    match first_database(catalogue.databases@, db_name_text(version)) {
        None => Err(ArchiveError::DatabaseNotListed),
        Some(d) => {
            let archives = catalogue.databases@[d].archives@;
            match first_archive(archives, archive_major(version)) {
                None => Err(ArchiveError::VersionNotListed),
                Some(a) => {
                    let platforms = archives[a].platforms@;
                    match first_platform(platforms, os + "-"@ + arch) {
                        None => Err(ArchiveError::PlatformNotListed),
                        Some(p) => Ok(platforms[p].1.url@),
                    }
                },
            }
        },
    }
}

fn find_database(dbs: &Vec<DatabaseEntry>, name: &str) -> (r: Option<usize>)
    ensures
        match r {
            Some(d) => first_database(dbs@, name@) == Some(d as int) && d < dbs@.len(),
            None => first_database(dbs@, name@) is None,
        },
{
    let mut d: usize = 0;
    while d < dbs.len()
        invariant
            d <= dbs@.len(),
            forall|j: int| 0 <= j < d ==> (#[trigger] dbs@[j]).database@ != name@,
        decreases dbs@.len() - d,
    {
        if str_eq(dbs[d].database.as_str(), name) {
            assert(dbs@[d as int].database@ == name@);
            return Some(d);
        }
        d = d + 1;
    }
    None
}

fn find_archive(archives: &Vec<ArchiveEntry>, major: u32) -> (r: Option<usize>)
    ensures
        match r {
            Some(a) => first_archive(archives@, major) == Some(a as int) && a < archives@.len(),
            None => first_archive(archives@, major) is None,
        },
{
    let mut a: usize = 0;
    while a < archives.len()
        invariant
            a <= archives@.len(),
            forall|j: int| 0 <= j < a ==> (#[trigger] archives@[j]).version.major != major,
        decreases archives@.len() - a,
    {
        if archives[a].version.major == major {
            assert(archives@[a as int].version.major == major);
            return Some(a);
        }
        a = a + 1;
    }
    None
}

fn find_platform(platforms: &Vec<(String, ArchivePlatform)>, key: &str) -> (r: Option<usize>)
    ensures
        match r {
            Some(p) => first_platform(platforms@, key@) == Some(p as int) && p < platforms@.len(),
            None => first_platform(platforms@, key@) is None,
        },
{
    let mut p: usize = 0;
    while p < platforms.len()
        invariant
            p <= platforms@.len(),
            forall|j: int| 0 <= j < p ==> (#[trigger] platforms@[j]).0@ != key@,
        decreases platforms@.len() - p,
    {
        if str_eq(platforms[p].0.as_str(), key) {
            assert(platforms@[p as int].0@ == key@);
            return Some(p);
        }
        p = p + 1;
    }
    None
}

/// The directory the tools of `version` are installed in under the cache
/// directory `cache_root`: `vprdbbkp/<engine>/<major>`.
pub open spec fn binaries_path(cache_root: Seq<char>, version: Version) -> Seq<char> {
    path_join(path_join(path_join(cache_root, "vprdbbkp"@), db_name_text(version)), version_name_text(version))
}

/// The directory the tools of `version` are installed in under `cache_root`.
pub fn binaries_base_path(cache_root: &str, version: &Version) -> (r: String)
    ensures
        r@ == binaries_path(cache_root@, *version),
{
    let a = join_path(cache_root, "vprdbbkp");
    let name = get_db_name(version);
    let b = join_path(a.as_str(), name.as_str());
    let v = get_version_name(version);
    join_path(b.as_str(), v.as_str())
}

/// The user's cache directory (`dirs::cache_dir`), where there is one and it
/// is valid Unicode. It depends on the user and the platform, so nothing is
/// promised of it.
#[verifier::external_body]
fn user_cache_dir() -> (r: Option<String>) {
    match dirs::cache_dir() {
        Some(p) => p.to_str().map(|s| s.to_string()),
        None => None,
    }
}

/// The root under which tools are installed: the user's cache directory where
/// there is one, else the temporary directory.
pub open spec fn install_root(cache_dir: Option<String>, temp_dir: Seq<char>) -> Seq<char> {
    match cache_dir {
        Some(c) => c@,
        None => temp_dir,
    }
}

/// The directory the tools of `version` are installed in, given the user's
/// cache directory where there is one: under it, else under `temp_dir`.
pub fn binaries_path_from(cache_dir: Option<String>, temp_dir: &str, version: &Version) -> (r: String)
    ensures
        r@ == binaries_path(install_root(cache_dir, temp_dir@), *version),
{
    match cache_dir {
        Some(c) => binaries_base_path(c.as_str(), version),
        None => binaries_base_path(temp_dir, version),
    }
}

/// The directory the tools of `version` are installed in: under the user's
/// cache directory, or under `temp_dir` where there is none (see
/// `binaries_path_from`). Which one applies depends on the machine.
pub fn get_binaries_base_path(version: &Version, temp_dir: &str) -> (r: String)
    ensures
        exists|cache_dir: Option<String>| r@ == binaries_path(#[trigger] install_root(cache_dir, temp_dir@), *version),
{
    let cache_dir = user_cache_dir();
    let ghost w = cache_dir;
    let r = binaries_path_from(cache_dir, temp_dir, version);
    proof {
        assert(r@ == binaries_path(install_root(w, temp_dir@), *version));
    }
    r
}

/// The installer of the prebuilt tools of one database version.
#[derive(Debug, Clone, Copy)]
pub struct ArchiveInstaller {
    pub database_version: Version,
}

impl ArchiveInstaller {
    /// The installer for `database_version`.
    pub fn new(database_version: Version) -> (r: Self)
        ensures
            r.database_version == database_version,
    {
        ArchiveInstaller { database_version }
    }

    /// The address of the archive for this version on the platform
    /// `os-arch`; see `archive_url_in`.
    pub fn get_archive_url(&self, catalogue: &DatabaseArchives, os: &str, arch: &str) -> (r: Result<String, ArchiveError>)
        ensures
            match r {
                Ok(u) => archive_url_in(*catalogue, self.database_version, os@, arch@) == Ok::<Seq<char>, ArchiveError>(u@),
                Err(e) => archive_url_in(*catalogue, self.database_version, os@, arch@) == Err::<Seq<char>, ArchiveError>(e),
            },
    {
        let name = get_db_name(&self.database_version);
        let major: u32 = match self.database_version {
            Version::PostgreSQL(p) => p.major as u32,
            Version::MySql(m) => m.major as u32,
        };
        let d = match find_database(&catalogue.databases, name.as_str()) {
            Some(d) => d,
            None => return Err(ArchiveError::DatabaseNotListed),
        };
        let archives = &catalogue.databases[d].archives;
        let a = match find_archive(archives, major) {
            Some(a) => a,
            None => return Err(ArchiveError::VersionNotListed),
        };
        let key_head = concat_str(os, "-");
        let key = concat_str(key_head.as_str(), arch);
        let platforms = &archives[a].platforms;
        match find_platform(platforms, key.as_str()) {
            Some(p) => Ok(platforms[p].1.url.clone()),
            None => Err(ArchiveError::PlatformNotListed),
        }
    }

    /// Where the downloaded archive is kept in `temp_dir`: `<engine>-<major>`.
    pub fn archive_file_path(&self, temp_dir: &str) -> (r: String)
        ensures
            r@ == path_join(temp_dir@, db_name_text(self.database_version) + "-"@ + version_name_text(self.database_version)),
    {
        let name = get_db_name(&self.database_version);
        let v = get_version_name(&self.database_version);
        let head = concat_str(name.as_str(), "-");
        let file = concat_str(head.as_str(), v.as_str());
        join_path(temp_dir, file.as_str())
    }

    /// The directory the tools are installed in under `cache_root`.
    pub fn binaries_path(&self, cache_root: &str) -> (r: String)
        ensures
            r@ == binaries_path(cache_root@, self.database_version),
    {
        binaries_base_path(cache_root, &self.database_version)
    }
}

} // verus!
