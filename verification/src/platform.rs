use vstd::prelude::*;

use crate::text::{chars_eq, chars_of};

verus! {

/// The platforms for which database client binaries are published.
#[derive(Debug, Clone, Copy, PartialEq, Eq)]
pub enum Platform {
    LinuxX64,
    LinuxAarch64,
    MacOsX64,
    MacOsAarch64,
    WindowsX64,
}

/// The identifier of a platform, as used in archive names.
pub open spec fn platform_id(p: Platform) -> Seq<char> {
    match p {
        Platform::LinuxX64 => "linux-x64"@,
        Platform::LinuxAarch64 => "linux-aarch64"@,
        Platform::MacOsX64 => "darwin-x64"@,
        Platform::MacOsAarch64 => "darwin-arm64"@,
        Platform::WindowsX64 => "windows-x64"@,
    }
}

/// The platform for Rust's `std::env::consts::OS` and `ARCH` values, if
/// binaries are published for it.
pub open spec fn platform_of(os: Seq<char>, arch: Seq<char>) -> Option<Platform> {
    let x86 = seq!['x', '8', '6', '_', '6', '4'];
    let aarch = seq!['a', 'a', 'r', 'c', 'h', '6', '4'];
    if os == seq!['l', 'i', 'n', 'u', 'x'] && arch == x86 {
        Some(Platform::LinuxX64)
    } else if os == seq!['l', 'i', 'n', 'u', 'x'] && arch == aarch {
        Some(Platform::LinuxAarch64)
    } else if os == seq!['m', 'a', 'c', 'o', 's'] && arch == x86 {
        Some(Platform::MacOsX64)
    } else if os == seq!['m', 'a', 'c', 'o', 's'] && arch == aarch {
        Some(Platform::MacOsAarch64)
    } else if os == seq!['w', 'i', 'n', 'd', 'o', 'w', 's'] && arch == x86 {
        Some(Platform::WindowsX64)
    } else {
        None
    }
}

impl Platform {
    /// Detect the platform from the operating system and architecture the
    /// program was built for (`std::env::consts::OS` and `ARCH`).
    pub fn detect(os: &str, arch: &str) -> (r: Option<Self>)
        ensures
            r == platform_of(os@, arch@),
    {
        let o = chars_of(os);
        let a = chars_of(arch);
        let linux = chars_eq(o.as_slice(), &['l', 'i', 'n', 'u', 'x']);
        let macos = chars_eq(o.as_slice(), &['m', 'a', 'c', 'o', 's']);
        let windows = chars_eq(o.as_slice(), &['w', 'i', 'n', 'd', 'o', 'w', 's']);
        let x86 = chars_eq(a.as_slice(), &['x', '8', '6', '_', '6', '4']);
        let aarch = chars_eq(a.as_slice(), &['a', 'a', 'r', 'c', 'h', '6', '4']);
        if linux && x86 {
            Some(Platform::LinuxX64)
        } else if linux && aarch {
            Some(Platform::LinuxAarch64)
        } else if macos && x86 {
            Some(Platform::MacOsX64)
        } else if macos && aarch {
            Some(Platform::MacOsAarch64)
        } else if windows && x86 {
            Some(Platform::WindowsX64)
        } else {
            None
        }
    }

    /// Convert platform to string identifier
    pub fn to_str(&self) -> (s: &'static str)
        ensures
            s@ == platform_id(*self),
    {
        match self {
            Platform::LinuxX64 => "linux-x64",
            Platform::LinuxAarch64 => "linux-aarch64",
            Platform::MacOsX64 => "darwin-x64",
            Platform::MacOsAarch64 => "darwin-arm64",
            Platform::WindowsX64 => "windows-x64",
        }
    }

    /// Get the filename extension for binaries on this platform
    pub fn binary_ext(&self) -> (s: &'static str)
        ensures
            s@ == (if *self == Platform::WindowsX64 { ".exe"@ } else { ""@ }),
    {
        match self {
            Platform::WindowsX64 => ".exe",
            _ => "",
        }
    }

    /// Get the archive extension for this platform
    pub fn archive_ext(&self) -> (s: &'static str)
        ensures
            s@ == (if *self == Platform::WindowsX64 { ".zip"@ } else { ".tar.gz"@ }),
    {
        match self {
            Platform::WindowsX64 => ".zip",
            _ => ".tar.gz",
        }
    }
}

} // verus!
