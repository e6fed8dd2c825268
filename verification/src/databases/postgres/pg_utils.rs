//! Where a PostgreSQL installation is usually found on each operating system,
//! searched after `PGDATA` and `pg_config --bindir` have given nothing.
use vstd::prelude::*;

use crate::text::{chars_eq, chars_of, concat_str, owned, push_arg, texts};

verus! {

broadcast use vstd::string::group_string_axioms;

/// The operating systems with known install locations.
#[derive(Debug, Clone, Copy, PartialEq, Eq, Structural)]
pub enum InstallOs {
    MacOs,
    Linux,
    Windows,
    Other,
}

/// The install family of `std::env::consts::OS`.
pub open spec fn install_os_of(os: Seq<char>) -> InstallOs {
    if os == seq!['m', 'a', 'c', 'o', 's'] {
        InstallOs::MacOs
    } else if os == seq!['l', 'i', 'n', 'u', 'x'] {
        InstallOs::Linux
    } else if os == seq!['w', 'i', 'n', 'd', 'o', 'w', 's'] {
        InstallOs::Windows
    } else {
        InstallOs::Other
    }
}

/// The install family of an operating system name; see `install_os_of`.
pub fn install_os(os: &str) -> (r: InstallOs)
    ensures
        r == install_os_of(os@),
{
    let o = chars_of(os);
    if chars_eq(o.as_slice(), &['m', 'a', 'c', 'o', 's']) {
        InstallOs::MacOs
    } else if chars_eq(o.as_slice(), &['l', 'i', 'n', 'u', 'x']) {
        InstallOs::Linux
    } else if chars_eq(o.as_slice(), &['w', 'i', 'n', 'd', 'o', 'w', 's']) {
        InstallOs::Windows
    } else {
        InstallOs::Other
    }
}

/// Where Windows keeps programs when `ProgramFiles` is not set.
pub const DEFAULT_PROGRAM_FILES: &'static str = "C:\\Program Files";

/// Where Windows keeps 32-bit programs when `ProgramFiles(x86)` is not set.
pub const DEFAULT_PROGRAM_FILES_X86: &'static str = "C:\\Program Files (x86)";

/// The directories searched, in order, on `os`, given the two Windows program
/// directories.
pub open spec fn usual_directories_of(os: InstallOs, program_files: Seq<char>, program_files_x86: Seq<char>) -> Seq<Seq<char>> {
    match os {
        InstallOs::MacOs => seq![
            "/usr/local/pgsql"@,
            "/usr/local/postgresql"@,
            "/opt/homebrew/opt/postgresql"@,
            "/Applications/Postgres.app/Contents/Versions"@,
        ],
        InstallOs::Linux => seq![
            "/usr/lib/postgresql"@,
            "/usr/local/pgsql"@,
            "/var/lib/postgresql"@,
            "/opt/postgresql"@,
        ],
        InstallOs::Windows => seq![program_files + "\\PostgreSQL"@, program_files_x86 + "\\PostgreSQL"@],
        InstallOs::Other => Seq::<Seq<char>>::empty(),
    }
}

/// The directories to search on `os`, in order; the Windows program
/// directories are the values of `ProgramFiles` and `ProgramFiles(x86)`, where
/// set, else their defaults.
pub fn usual_directories(os: InstallOs, program_files: Option<&str>, program_files_x86: Option<&str>) -> (v: Vec<String>)
    ensures
        texts(v@) == usual_directories_of(
            os,
            match program_files {
                Some(p) => p@,
                None => DEFAULT_PROGRAM_FILES@,
            },
            match program_files_x86 {
                Some(p) => p@,
                None => DEFAULT_PROGRAM_FILES_X86@,
            },
        ),
{
    let mut v: Vec<String> = Vec::new();
    match os {
        InstallOs::MacOs => {
            push_arg(&mut v, "/usr/local/pgsql");
            push_arg(&mut v, "/usr/local/postgresql");
            push_arg(&mut v, "/opt/homebrew/opt/postgresql");
            push_arg(&mut v, "/Applications/Postgres.app/Contents/Versions");
        },
        InstallOs::Linux => {
            push_arg(&mut v, "/usr/lib/postgresql");
            push_arg(&mut v, "/usr/local/pgsql");
            push_arg(&mut v, "/var/lib/postgresql");
            push_arg(&mut v, "/opt/postgresql");
        },
        InstallOs::Windows => {
            let pf = match program_files {
                Some(p) => owned(p),
                None => owned(DEFAULT_PROGRAM_FILES),
            };
            let pf86 = match program_files_x86 {
                Some(p) => owned(p),
                None => owned(DEFAULT_PROGRAM_FILES_X86),
            };
            let a = concat_str(pf.as_str(), "\\PostgreSQL");
            let b = concat_str(pf86.as_str(), "\\PostgreSQL");
            push_arg(&mut v, a.as_str());
            push_arg(&mut v, b.as_str());
        },
        InstallOs::Other => {},
    }
    proof {
        assert(texts(v@) =~= usual_directories_of(
            os,
            match program_files {
                Some(p) => p@,
                None => DEFAULT_PROGRAM_FILES@,
            },
            match program_files_x86 {
                Some(p) => p@,
                None => DEFAULT_PROGRAM_FILES_X86@,
            },
        ));
    }
    v
}

} // verus!
