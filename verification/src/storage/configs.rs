//! Store settings as the earlier configuration format writes them.
use vstd::prelude::*;

verus! {

broadcast use vstd::string::group_string_axioms;

/// The name of a store.
#[derive(Debug, Clone)]
pub struct StorageConfigName(pub String);

/// A store setting that has a name and a kind of provider.
pub trait BaseStorageConfig {
    fn name(&self) -> &str;

    fn provider_type(&self) -> &str;
}

/// A store in a directory of the local file system.
#[derive(Debug, Clone)]
pub struct LocalStorageConfig {
    pub name: String,
    pub root: String,
    pub prefix: Option<String>,
}

impl BaseStorageConfig for LocalStorageConfig {
    fn name(&self) -> (r: &str)
        ensures
            r@ == self.name@,
    {
        self.name.as_str()
    }

    fn provider_type(&self) -> (r: &str)
        ensures
            r@ == "local"@,
    {
        "local"
    }
}

/// A store in an S3 bucket.
#[derive(Debug, Clone)]
pub struct S3StorageConfig {
    pub name: String,
    pub bucket: String,
    pub region: String,
    pub endpoint: String,
    pub access_key: String,
    pub secret_key: String,
    pub prefix: Option<String>,
}

impl BaseStorageConfig for S3StorageConfig {
    fn name(&self) -> (r: &str)
        ensures
            r@ == self.name@,
    {
        self.name.as_str()
    }

    fn provider_type(&self) -> (r: &str)
        ensures
            r@ == "s3"@,
    {
        "s3"
    }
}

/// A store, by kind.
#[derive(Debug, Clone)]
pub enum StorageConfig {
    Local(LocalStorageConfig),
    S3(S3StorageConfig),
}

/// The name of a store.
pub open spec fn storage_config_name(c: StorageConfig) -> Seq<char> {
    match c {
        StorageConfig::Local(l) => l.name@,
        StorageConfig::S3(s) => s.name@,
    }
}

/// The kind of provider of a store: `"local"` or `"s3"`.
pub open spec fn storage_provider_type(c: StorageConfig) -> Seq<char> {
    match c {
        StorageConfig::Local(_) => "local"@,
        StorageConfig::S3(_) => "s3"@,
    }
}

impl StorageConfig {
    pub fn name(&self) -> (r: &str)
        ensures
            r@ == storage_config_name(*self),
    {
        match self {
            StorageConfig::Local(config) => config.name(),
            StorageConfig::S3(config) => config.name(),
        }
    }

    pub fn provider_type(&self) -> (r: &str)
        ensures
            r@ == storage_provider_type(*self),
    {
        match self {
            StorageConfig::Local(config) => config.provider_type(),
            StorageConfig::S3(config) => config.provider_type(),
        }
    }
}

} // verus!
