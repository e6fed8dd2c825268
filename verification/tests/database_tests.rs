use dbkp::compression::{compress, decompress, detect_format, CompressionError, CompressionFormat};
use dbkp::databases::failure::{classify_mysql_failure, classify_pg_failure, is_mysql_unreachable, is_pg_unreachable, ToolFailure};
use dbkp::databases::mariadb::commands::CommandBuilder as MariaCommands;
use dbkp::databases::mariadb::installer::MariaDBInstaller;
use dbkp::databases::mariadb::tools::{MariaDBTools, MariaDBToolsError};
use dbkp::databases::mariadb::version::MariaDBVersion;
use dbkp::databases::mariadb::MariaDB;
use dbkp::databases::mysql::connection as my_conn;
use dbkp::databases::mysql::mysql_docker::{
    docker_image, docker_mysqldump_args, parse_mysql_version, version_or_default, version_query_args, MySqlVersionParseError,
};
use dbkp::databases::mysql::tools::{MySQLTools, MySQLToolsError};
use dbkp::databases::mysql::utilities::MySqlUtilities;
use dbkp::databases::mysql::version::MySqlVersion;
use dbkp::databases::postgres::commands::CommandBuilder as PgCommands;
use dbkp::databases::postgres::connection as pg_conn;
use dbkp::databases::postgres::installer::PgInstaller;
use dbkp::databases::postgres::pg_restore::{
    connection_url, create_database_args, database_exists_in_output, exists_query_args, is_restore_failure, plan_database,
    restore_docker_args, restore_local_args, version_tag,
};
use dbkp::databases::postgres::pg_tools::{PgTools, PgToolsError};
use dbkp::databases::postgres::pg_versions::PostgresVersion;
use dbkp::databases::postgres::tools::{PostgreSQLTools, PostgreSQLToolsError};
use dbkp::databases::postgres::utilities::PostgreSqlUtilities;
use dbkp::databases::postgres::version::PostgreSQLVersion;
use dbkp::databases::postgres::PostgreSQL;
use dbkp::databases::version::{Version, VersionTrait};
use dbkp::databases::{ConnectionType, DatabaseConfig, DatabaseMetadata};

fn config() -> DatabaseConfig {
    DatabaseConfig {
        id: String::new(),
        name: "app".into(),
        connection_type: ConnectionType::PostgreSql,
        host: "db.local".into(),
        port: 5433,
        database: "app".into(),
        username: "admin".into(),
        password: Some("pw".into()),
        ssh_tunnel: None,
    }
}

#[test]
fn pg_versions() {
    assert_eq!(PostgresVersion::from_str("9.6"), Some(PostgresVersion::V9_6));
    assert_eq!(PostgresVersion::from_str("17"), Some(PostgresVersion::V17));
    assert_eq!(PostgresVersion::from_str("18"), None);
    assert_eq!(PostgresVersion::V15.as_str(), "15");
    assert_eq!(PostgresVersion::V15.package_name(), "postgresql-15");
    assert_eq!(PostgresVersion::V15.contrib_package_name(), "postgresql-contrib-15");
    assert_eq!(PostgresVersion::V15.bin_path(), "/usr/lib/postgresql/15/bin");
    let all = PostgresVersion::all();
    assert_eq!(all.len(), 9);
    for v in &all {
        assert_eq!(PostgresVersion::from_str(v.as_str()), Some(*v));
    }
}

#[test]
fn pg_version_text_parsing() {
    assert_eq!(PostgreSQLVersion::from_str("12.4"), Some(PostgreSQLVersion { major: 12, minor: 4 }));
    assert_eq!(PostgreSQLVersion::from_str("12"), None);
    assert_eq!(
        PostgreSQLVersion::parse_string_version("PostgreSQL 16.2 on x86_64-pc-linux-gnu"),
        Some(PostgreSQLVersion { major: 16, minor: 2 })
    );
    assert_eq!(PostgreSQLVersion::parse_string_version("MySQL 8.0"), None);
}

#[test]
fn mariadb_versions() {
    assert_eq!(MariaDBVersion::from_str("10.11"), Some(MariaDBVersion::V10_11));
    assert_eq!(MariaDBVersion::from_version_tuple(11, 2, 0), Some(MariaDBVersion::V11_2));
    assert_eq!(MariaDBVersion::from_version_tuple(9, 0, 0), None);
    assert_eq!(MariaDBVersion::V11_2.as_str(), "11.2");
    assert_eq!(
        MariaDBVersion::parse_string_version("11.2.2-MariaDB-1:11.2.2+maria~ubu2204"),
        Some(MariaDBVersion::V11_2)
    );
    assert_eq!(MariaDBTools::default().version, MariaDBVersion::V11_2);
    assert_eq!(MariaDBTools::version_from_output("garbage"), Err(MariaDBToolsError::UnparsableVersion));
    assert_eq!(MariaDBTools::check_dump_output(vec![]), Err(MariaDBToolsError::EmptyDump));
}

#[test]
fn mysql_versions() {
    assert_eq!(parse_mysql_version("VERSION()\n8.0.32-0ubuntu0.22.04.2\n"), Ok((8, 0)));
    assert_eq!(parse_mysql_version("version 5"), Ok((5, 0)));
    assert_eq!(parse_mysql_version("no digits"), Err(MySqlVersionParseError::NoVersion));
    assert_eq!(version_or_default(Err(MySqlVersionParseError::NoVersion)), (8, 0));
    assert_eq!(version_or_default(Ok((5, 7))), (5, 7));
    assert_eq!(docker_image(5), "mysql:5.7");
    assert_eq!(docker_image(9), "mysql:8.0");
    assert_eq!(docker_image(12), "mysql:latest");
    assert_eq!(
        MySqlVersion::parse_string_version("8.0.36-log"),
        Some(MySqlVersion { major: 8, minor: 0, patch: 36 })
    );
}

#[test]
fn pg_tool_paths_and_args() {
    let t = PgTools::default("/cache");
    assert_eq!(t.version, PostgresVersion::V15);
    assert_eq!(t.get_psql_path(), "/cache/pg_tools_cache/15/bin/psql");
    assert_eq!(t.get_pg_dump_path(), "/cache/pg_tools_cache/15/bin/pg_dump");
    assert_eq!(PgTools::extract_postgres_version("PostgreSQL 15.4 (Debian)"), Some((15, 4)));
    assert_eq!(PgTools::extract_postgres_version("PostgreSQL 99999999999.1"), Some((0, 1)));
    assert_eq!(PgTools::extract_postgres_version("nothing"), None);
    assert_eq!(PgTools::server_version_from_output(" PostgreSQL 15.4 on x"), Ok(PostgresVersion::V15));
    assert_eq!(
        PgTools::server_version_from_output("PostgreSQL 8.4"),
        Err(PgToolsError::UnsupportedVersion { major: 8, minor: 4 })
    );
    assert_eq!(PgTools::server_version_from_output("x"), Err(PgToolsError::VersionNotFound));
    assert_eq!(
        t.check_server_version(PostgresVersion::V16),
        Err(PgToolsError::VersionMismatch { tools: PostgresVersion::V15, server: PostgresVersion::V16 })
    );
    assert_eq!(t.check_server_version(PostgresVersion::V15), Ok(()));
    assert_eq!(
        PgTools::dump_args("app", "h", 5432, "u", false),
        vec!["--format=custom", "--compress=9", "--host=h", "--port=5432", "--username=u", "app"]
    );
    assert_eq!(PgTools::dump_args("app", "h", 5432, "u", true).len(), 5);
    assert_eq!(PgTools::gzip_args(6), vec!["-6"]);
    assert_eq!(
        PgTools::version_query_args("app", "h", 5432, "u"),
        vec!["-h", "h", "-p", "5432", "-U", "u", "-d", "app", "-t", "-c", "SELECT version();"]
    );
    assert_eq!(PgTools::probe_args("app", "h", 1, "u")[8..10], ["-c".to_string(), "SELECT 1".to_string()]);
    assert_eq!(PgTools::check_dump_output(vec![]), Err(PgToolsError::EmptyDump));
}

#[test]
fn pg_command_builder() {
    let b = PgCommands::new("/c", PostgreSQLVersion { major: 16, minor: 1 }, "app", "h", 5432, "u", Some("pw"));
    assert_eq!(b.cache_dir, "/c/postgresql_tools_cache");
    assert_eq!(b.get_bin_path(), "/c/postgresql_tools_cache/16/bin");
    assert_eq!(b.tool_path("psql"), "/c/postgresql_tools_cache/16/bin/psql");
    assert_eq!(b.build_base_args(), vec!["-h", "h", "-p", "5432", "-U", "u", "-d", "app"]);
    let dump = b.build_dump_args();
    assert_eq!(dump.len(), 19);
    assert_eq!(dump[8], "--format=custom");
    assert_eq!(b.build_connection_args()[8..], ["--no-psqlrc", "-v", "ON_ERROR_STOP=1", "-t", "-c"].map(String::from));
    assert_eq!(b.build_restore_args().len(), 20);
    assert_eq!(b.build_connection_check_args().len(), 14);
}

#[test]
fn pg_tools_statements() {
    let t = PostgreSQLTools::default();
    assert_eq!(t.version, PostgreSQLVersion { major: 15, minor: 0 });
    assert_eq!(PostgreSQLTools::drop_database_statement("app"), "DROP DATABASE IF EXISTS \"app\";");
    assert_eq!(PostgreSQLTools::create_database_statement("app"), "CREATE DATABASE \"app\";");
    assert!(PostgreSQLTools::terminate_sessions_statement("app").contains("datname = 'app'"));
    assert_eq!(PostgreSQLTools::restore_tail(false, "/t/d"), vec!["--clean", "--if-exists", "/t/d"]);
    assert_eq!(PostgreSQLTools::restore_tail(true, "/t/d"), vec!["/t/d"]);
    assert_eq!(t.check_server_version(PostgreSQLVersion { major: 15, minor: 1 }), Err(PostgreSQLToolsError::VersionMismatch));
    assert_eq!(PostgreSQLTools::version_from_output("nope"), Err(PostgreSQLToolsError::UnparsableVersion));
    assert_eq!(PostgreSQLTools::check_dump_output(vec![1]), Ok(vec![1]));
}

#[test]
fn mariadb_command_builder() {
    let b = MariaCommands::new("/c/", MariaDBVersion::V10_6, "shop", "h", 3306, "root", None);
    assert_eq!(b.get_bin_path(), "/c/mariadb_tools_cache/10.6/bin");
    assert_eq!(b.build_base_args(), vec!["-h", "h", "-P", "3306", "-u", "root"]);
    assert_eq!(b.build_connection_check_args()[6..], ["shop", "--connect-timeout=5", "-e", "SELECT 1"].map(String::from));
    assert_eq!(b.build_version_check_args().len(), 11);
    assert_eq!(b.build_connection_args().len(), 10);
    let piped = b.build_dump_args(Some(6));
    let plain = b.build_dump_args(None);
    assert_eq!(plain.len(), piped.len() + 1);
    assert_eq!(plain.last().unwrap(), "--compress");
    assert_eq!(piped[6], "--host=h");
    let m = MariaDB::new("shop", "h", 3306, "root", Some("pw"));
    assert_eq!(m.password, Some("pw".to_string()));
}

#[test]
fn installers() {
    let pg = PgInstaller::default();
    assert_eq!(pg.version, PostgreSQLVersion { major: 15, minor: 0 });
    assert!(pg.download_url_for("linux", "x86_64").ends_with("/postgres/postgresql-15-linux-x86_64.tar.gz"));
    assert_eq!(PgInstaller::bin_dir("/opt/pg"), "/opt/pg/bin");
    assert!(pg.get_download_url("sparc").is_err());
    let maria = MariaDBInstaller::default();
    assert_eq!(maria.version, MariaDBVersion::V11_2);
    assert!(maria.download_url_for("macos", "arm64").ends_with("/mariadb/mariadb-11.2-macos-arm64.tar.gz"));
    assert_eq!(maria.target_dir("/opt"), "/opt/11.2");
}

#[test]
fn mysql_tools_statements() {
    let t = MySQLTools::default();
    assert_eq!(t.version, MySqlVersion { major: 8, minor: 0, patch: 0 });
    assert_eq!(MySQLTools::drop_database_statement("shop"), "DROP DATABASE IF EXISTS `shop`;");
    assert_eq!(
        MySQLTools::create_database_statement("shop"),
        "CREATE DATABASE `shop` CHARACTER SET utf8mb4 COLLATE utf8mb4_unicode_ci;"
    );
    assert!(MySQLTools::kill_sessions_statement("shop").contains("WHERE db = 'shop'"));
    assert!(!MySQLTools::needs_kill("  \n"));
    assert!(MySQLTools::needs_kill("KILL 5;\n"));
    assert_eq!(
        MySQLTools::restore_command_line("/b/mariadb", "h", 3306, "u", "shop", "/t/dump.sql"),
        "/b/mariadb --host=h --port=3306 --user=u shop < /t/dump.sql"
    );
    assert_eq!(t.check_server_version(MySqlVersion { major: 8, minor: 0, patch: 1 }), Err(MySQLToolsError::VersionMismatch));
    assert_eq!(MySQLTools::check_dump_output(vec![]), Err(MySQLToolsError::EmptyDump));
}

#[test]
fn docker_and_client_args() {
    assert_eq!(
        version_query_args("h", 3306, "u", Some("pw")),
        vec!["--host=h", "--port=3306", "--user=u", "--protocol=tcp", "--execute=SELECT VERSION();", "--password=pw"]
    );
    let args = docker_mysqldump_args("shop", "h", 3306, "u", None, (5, 7));
    assert_eq!(args[4], "mysql:5.7");
    assert_eq!(args.last().unwrap(), "shop");
    assert_eq!(args.len(), 18);
}

#[test]
fn connection_command_lines() {
    let c = config();
    assert_eq!(pg_conn::restore_args(&c), vec!["-h", "db.local", "-p", "5433", "-U", "admin", "-d", "app"]);
    assert_eq!(pg_conn::backup_args(&c).len(), 21);
    let t = pg_conn::terminate_sessions_args(&c);
    assert_eq!(t[7], "postgres");
    assert!(t[9].contains("datname = 'app'"));
    assert_eq!(
        pg_conn::metadata_from_version_string("PostgreSQL 14.9"),
        Ok(DatabaseMetadata { version: Version::PostgreSQL(PostgreSQLVersion { major: 14, minor: 9 }) })
    );
    assert_eq!(my_conn::command_args(&c), vec!["--host=db.local", "--port=5433", "--user=admin", "--protocol=TCP", "app"]);
    assert_eq!(my_conn::backup_args(&c).len(), 13);
    let k = my_conn::kill_sessions_args(&c);
    assert!(k[5].contains("user = 'admin' AND db = 'app'"));
    assert!(my_conn::metadata_from_version_string("no").is_err());
}

#[test]
fn utilities_paths() {
    let u = PostgreSqlUtilities::new(PostgreSQLVersion { major: 16, minor: 0 });
    assert_eq!(u.get_base_path("/c"), "/c/vprdbbkp/postgresql/16/bin");
    assert_eq!(u.command_path("/c", "pg_dump"), "/c/vprdbbkp/postgresql/16/bin/pg_dump");
    let m = MySqlUtilities::new(MySqlVersion { major: 8, minor: 4, patch: 0 });
    assert_eq!(m.command_path("/c", "mysql"), "/c/vprdbbkp/mysql/8/bin/mysql");
    let p = PostgreSQL::new("app", "h", 5432, "u", None);
    assert!(p.password.is_none());
}

#[test]
fn pg_restore_decisions() {
    assert!(database_exists_in_output(" 1\n"));
    assert!(!database_exists_in_output(""));
    assert!(!database_exists_in_output("11"));
    let p = plan_database(true, true);
    assert!(p.drop_existing && p.create_new);
    let p = plan_database(true, false);
    assert!(!p.drop_existing && !p.create_new);
    let p = plan_database(false, true);
    assert!(!p.drop_existing && p.create_new);
    assert!(is_restore_failure("ERROR: relation exists"));
    assert!(!is_restore_failure("ERROR: x\nWARNING: y"));
    assert_eq!(version_tag(16, 0), "16");
    assert_eq!(version_tag(9, 6), "9.6");
    assert_eq!(connection_url("u", Some("p"), "h", 5432, "d"), "postgresql://u:p@h:5432/d");
    assert_eq!(connection_url("u", None, "h", 5432, "d"), "postgresql://u@h:5432/d");
    assert_eq!(exists_query_args("app", "h", 5432, "u").last().unwrap(), "--command=SELECT 1 FROM pg_database WHERE datname = 'app'");
    assert_eq!(create_database_args("app", "h", 5432, "u")[4], "--command=CREATE DATABASE \"app\"");
    assert_eq!(restore_local_args("app", "h", 1, "u", "/f")[0..2], ["--dbname".to_string(), "app".to_string()]);
    let d = restore_docker_args("/tmp", "x.dump", "16", "postgresql://u@h:1/d");
    assert_eq!(d[3], "-v/tmp:/backup");
    assert_eq!(d.last().unwrap(), "/backup/x.dump");
}

#[test]
fn failure_classification() {
    assert_eq!(classify_pg_failure("connection to server at x failed"), ToolFailure::ConnectionFailed);
    assert_eq!(classify_pg_failure("ERROR: permission denied for table"), ToolFailure::PermissionDenied);
    assert_eq!(classify_pg_failure("boom"), ToolFailure::Other);
    assert!(is_pg_unreachable("psql: error: could not connect to server"));
    assert!(!is_pg_unreachable("syntax error"));
    assert!(is_mysql_unreachable("ERROR 1045 (28000): Access denied for user"));
    assert_eq!(classify_mysql_failure("Can't connect to local server", "Can't connect"), ToolFailure::ConnectionFailed);
    assert_eq!(
        classify_mysql_failure("Can't connect to local server", "Can't connect to MySQL server"),
        ToolFailure::Other
    );
    assert_eq!(classify_mysql_failure("Access denied", "Can't connect"), ToolFailure::PermissionDenied);
}

#[test]
fn compression_round_trip() {
    let text = b"Ceci est un texte test";
    for format in [CompressionFormat::Gzip, CompressionFormat::Zlib, CompressionFormat::Deflate, CompressionFormat::Uncompressed] {
        let packed = compress(text, format, 9).unwrap();
        assert_eq!(decompress(&packed, format).unwrap(), text.to_vec());
    }
    let gz = compress(text, CompressionFormat::Gzip, 6).unwrap();
    assert_ne!(gz, text.to_vec());
    assert_eq!(detect_format(&gz[..3]), CompressionFormat::Gzip);
    let z = compress(text, CompressionFormat::Zlib, 9).unwrap();
    assert_eq!(detect_format(&z[..3]), CompressionFormat::Zlib);
    assert_eq!(detect_format(&[0x78]), CompressionFormat::Uncompressed);
    assert_eq!(detect_format(b"abc"), CompressionFormat::Uncompressed);
    assert_eq!(decompress(b"not gzip", CompressionFormat::Gzip), Err(CompressionError::InvalidStream));
}

#[test]
fn mariadb_versions_order_by_numbers() {
    assert!(MariaDBVersion::V10_6 < MariaDBVersion::V10_11);
    assert!(MariaDBVersion::V10_11 < MariaDBVersion::V11_0);
    assert!(MariaDBVersion::V10_6.as_str() > MariaDBVersion::V10_11.as_str());
    assert_ne!(MariaDBVersion::V11_1.as_str(), MariaDBVersion::V11_2.as_str());
    assert_eq!(MariaDBVersion::V11_2.partial_cmp(&MariaDBVersion::V11_2), Some(std::cmp::Ordering::Equal));
    assert_eq!(MariaDBVersion::V11_7.cmp(&MariaDBVersion::V10_5), std::cmp::Ordering::Greater);
    assert!(MariaDBVersion::V11_7 > MariaDBVersion::V11_6);
}

#[test]
fn mariadb_version_text_reads_back_with_any_suffix() {
    let all = [
        MariaDBVersion::V10_5,
        MariaDBVersion::V10_6,
        MariaDBVersion::V10_11,
        MariaDBVersion::V11_0,
        MariaDBVersion::V11_1,
        MariaDBVersion::V11_2,
        MariaDBVersion::V11_3,
        MariaDBVersion::V11_4,
        MariaDBVersion::V11_5,
        MariaDBVersion::V11_6,
        MariaDBVersion::V11_7,
    ];
    for v in all {
        assert_eq!(MariaDBVersion::from_str(v.as_str()), Some(v));
        assert_eq!(MariaDBVersion::from_str(&format!("{}.7-MariaDB", v.as_str())), Some(v));
    }
    assert_eq!(MariaDBVersion::from_str("10.11.6-MariaDB-log"), Some(MariaDBVersion::V10_11));
    assert_eq!(MariaDBVersion::from_str("12.0.2"), None);
    assert_eq!(MariaDBVersion::from_str("5.7.44"), None);
}

#[test]
fn version_readers_take_unicode_digits_as_digits() {
    // `\d` matches every Unicode decimal digit; `str::parse` then refuses the
    // non-ASCII ones, so the leftmost match decides and fails.
    assert_eq!(parse_mysql_version("\u{663}.1-x 8.0.32-"), Err(MySqlVersionParseError::Major));
    assert_eq!(parse_mysql_version("8.\u{661}- 8.0.32-"), Err(MySqlVersionParseError::Minor));
    assert_eq!(parse_mysql_version("v\u{663} 8 x"), Ok((8, 0)));
    assert_eq!(MariaDBVersion::parse_string_version("\u{661}\u{660}.11.2 then 10.11.6"), None);
    assert_eq!(MySqlVersion::parse_string_version("\u{668}.0.1 8.0.36"), None);
    assert_eq!(PostgreSQLVersion::parse_string_version("PostgreSQL \u{967}\u{96c}.2 PostgreSQL 16.2"), None);
}
