use dbkp::archives::{
    binaries_base_path, ArchiveEntry, ArchiveError, ArchiveInstaller, ArchivePlatform, ArchiveVersion, ArchivesMetadata,
    DatabaseArchives, DatabaseEntry,
};
use dbkp::common::{
    backup_name_from_parts, extract_timestamp_from_filename, get_arch, get_db_name, get_default_backup_name, get_os,
    get_version_name, os_name_for, slugify, timestamp_text_in_filename, OsKind, PlatformError, TimestampError,
};
use dbkp::compression::CompressionFormat;
use dbkp::databases::mysql::version::MySqlVersion;
use dbkp::databases::postgres::version::PostgreSQLVersion;
use dbkp::databases::version::Version;
use dbkp::databases::{ConnectionType, DatabaseConfig};
use dbkp::platform::Platform;

#[test]
fn filename_timestamps() {
    assert_eq!(extract_timestamp_from_filename("backup_2024-01-15-120000-abc123.dump"), Ok(1_705_320_000));
    assert_eq!(extract_timestamp_from_filename("db-2023-01-01-120000-0a1d23.gz"), Ok(1_672_574_400));
    assert_eq!(extract_timestamp_from_filename("backup_2023-01-01-120000-old123.dump"), Err(TimestampError::NoMatch));
    assert_eq!(extract_timestamp_from_filename("backup_invalid_format.dump"), Err(TimestampError::NoMatch));
    assert_eq!(extract_timestamp_from_filename("backup_2024-01-15-120000-abc123.txt"), Err(TimestampError::NoMatch));
    assert_eq!(
        extract_timestamp_from_filename("backup_2024-13-45-250000-abc123.sql"),
        Err(TimestampError::InvalidTimestamp)
    );
    assert_eq!(timestamp_text_in_filename("x-2024-01-15-120000-ff.zip"), Some("2024-01-15-120000".to_string()));
}

#[test]
fn slugs() {
    assert_eq!(slugify("My DB #1"), "my-db-1");
    assert_eq!(slugify("--Hello,  World--"), "hello-world");
    assert_eq!(slugify("***"), "");
    assert_eq!(slugify("Crème Brûlée"), "crème-brûlée");
}

#[test]
fn engine_and_version_names() {
    let pg = Version::PostgreSQL(PostgreSQLVersion { major: 16, minor: 2 });
    let my = Version::MySql(MySqlVersion { major: 8, minor: 0, patch: 36 });
    assert_eq!(get_db_name(&pg), "postgresql");
    assert_eq!(get_db_name(&my), "mysql");
    assert_eq!(get_version_name(&pg), "16");
    assert_eq!(get_version_name(&my), "8");
}

#[test]
fn backup_names() {
    let n = backup_name_from_parts("shop", "2024-01-15-120000", "1234abcd-0000-4000-8000-000000000000", &CompressionFormat::Gzip);
    assert_eq!(n, "shop-2024-01-15-120000-1234abcd.gz");
    let n = backup_name_from_parts("shop", "d", "1234abcd-0000", &CompressionFormat::Uncompressed);
    assert_eq!(n, "shop-d-1234abcd.");
    let config = DatabaseConfig {
        id: String::new(),
        name: "shop".into(),
        connection_type: ConnectionType::PostgreSql,
        host: "h".into(),
        port: 5432,
        database: "shop".into(),
        username: "u".into(),
        password: None,
        ssh_tunnel: None,
    };
    let before = std::time::SystemTime::now().duration_since(std::time::UNIX_EPOCH).unwrap().as_secs() as i64;
    let fresh = get_default_backup_name(&config, &CompressionFormat::Zlib).unwrap();
    let after = std::time::SystemTime::now().duration_since(std::time::UNIX_EPOCH).unwrap().as_secs() as i64;
    assert!(fresh.starts_with("shop-"));
    assert!(fresh.ends_with(".zip"));
    assert_eq!(fresh.len(), "shop-".len() + 17 + 1 + 8 + ".zip".len());
    let field = &fresh[fresh.len() - 12..fresh.len() - 4];
    assert!(field.chars().all(|c| c.is_ascii_digit() || ('a'..='f').contains(&c)));
    let stamp = extract_timestamp_from_filename(&fresh).unwrap();
    assert!(before <= stamp && stamp <= after);
    let gz = get_default_backup_name(&config, &CompressionFormat::Gzip).unwrap();
    assert!(gz.ends_with(".gz") && extract_timestamp_from_filename(&gz).is_ok());
    let zz = get_default_backup_name(&config, &CompressionFormat::Deflate).unwrap();
    assert!(zz.ends_with(".zz") && extract_timestamp_from_filename(&zz).is_err());
}

#[test]
fn platforms() {
    assert_eq!(get_arch("amd64"), Ok("x86_64".to_string()));
    assert_eq!(get_arch("aarch64"), Ok("arm64".to_string()));
    assert_eq!(get_arch("riscv64"), Err(PlatformError::UnsupportedArchitecture));
    assert_eq!(os_name_for(OsKind::Ubuntu), Ok("linux".to_string()));
    assert_eq!(os_name_for(OsKind::Macos), Ok("macos".to_string()));
    assert_eq!(os_name_for(OsKind::Other), Err(PlatformError::UnsupportedOperatingSystem));
    let os = get_os();
    assert!(matches!(os.as_deref(), Ok("linux") | Ok("windows") | Ok("macos") | Err(_)));
    let p = Platform::detect("linux", "x86_64").unwrap();
    assert_eq!(p.to_str(), "linux-x64");
    assert_eq!(p.binary_ext(), "");
    assert_eq!(p.archive_ext(), ".tar.gz");
    let w = Platform::detect("windows", "x86_64").unwrap();
    assert_eq!((w.binary_ext(), w.archive_ext()), (".exe", ".zip"));
    assert!(Platform::detect("windows", "aarch64").is_none());
}

fn catalogue() -> DatabaseArchives {
    DatabaseArchives {
        metadata: ArchivesMetadata { schema_version: "1".into(), last_updated: "today".into() },
        databases: vec![DatabaseEntry {
            database: "postgresql".into(),
            archives: vec![
                ArchiveEntry {
                    version: ArchiveVersion { major: 16, minor: None, patch: None },
                    platforms: vec![("linux-x86_64".into(), ArchivePlatform { url: "https://x/pg16.tar.xz".into() })],
                },
                ArchiveEntry {
                    version: ArchiveVersion { major: 17, minor: Some(1), patch: None },
                    platforms: vec![("linux-arm64".into(), ArchivePlatform { url: "https://x/pg17.tar.xz".into() })],
                },
            ],
        }],
    }
}

#[test]
fn archive_urls() {
    let pg16 = ArchiveInstaller::new(Version::PostgreSQL(PostgreSQLVersion { major: 16, minor: 4 }));
    assert_eq!(pg16.get_archive_url(&catalogue(), "linux", "x86_64"), Ok("https://x/pg16.tar.xz".to_string()));
    assert_eq!(pg16.get_archive_url(&catalogue(), "macos", "x86_64"), Err(ArchiveError::PlatformNotListed));
    let pg15 = ArchiveInstaller::new(Version::PostgreSQL(PostgreSQLVersion { major: 15, minor: 0 }));
    assert_eq!(pg15.get_archive_url(&catalogue(), "linux", "x86_64"), Err(ArchiveError::VersionNotListed));
    let my = ArchiveInstaller::new(Version::MySql(MySqlVersion { major: 9, minor: 0, patch: 0 }));
    assert_eq!(my.get_archive_url(&catalogue(), "linux", "x86_64"), Err(ArchiveError::DatabaseNotListed));
    assert_eq!(pg16.archive_file_path("/tmp"), "/tmp/postgresql-16");
    assert_eq!(binaries_base_path("/home/u/.cache", &Version::MySql(MySqlVersion { major: 8, minor: 0, patch: 0 })), "/home/u/.cache/vprdbbkp/mysql/8");
    assert_eq!(pg16.binaries_path("/c/"), "/c/vprdbbkp/postgresql/16");
}

#[test]
fn made_names_carry_their_date_for_gzip_and_zlib() {
    let uuid = "0a1b2c3d-0000-4000-8000-000000000000";
    for format in [CompressionFormat::Gzip, CompressionFormat::Zlib] {
        let name = backup_name_from_parts("db-2023-01-01-000000-aa.gz", "2024-01-15-120000", uuid, &format);
        assert_eq!(timestamp_text_in_filename(&name), Some("2024-01-15-120000".to_string()));
    }
    for format in [CompressionFormat::Deflate, CompressionFormat::Uncompressed] {
        let name = backup_name_from_parts("db", "2024-01-15-120000", uuid, &format);
        assert_eq!(timestamp_text_in_filename(&name), None);
    }
}

#[test]
fn unicode_digits_in_a_time_stamp_are_matched_but_not_read() {
    assert_eq!(
        extract_timestamp_from_filename("backup_\u{662}\u{660}\u{662}\u{664}-01-15-120000-abc123.dump"),
        Err(TimestampError::InvalidTimestamp)
    );
}

#[test]
fn slugs_are_fixed_points() {
    for input in ["My DB #1", "--Hello__World--", "Ünïcödé Straße 42", "ΣΊΣΥΦΟΣ", "a--b", "", "---"] {
        let once = slugify(input);
        assert_eq!(slugify(&once), once);
    }
    assert_eq!(slugify("My DB #1"), "my-db-1");
}
