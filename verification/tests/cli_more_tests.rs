use dbkp::cli::interactive::{
    database_config_from_answers, main_actions, ssh_config_from_answers, storage_config_from_answers, DatabaseType,
    MainAction, S3Answers, StorageType, WorkspaceAction,
};
use dbkp::cli::legacy::{self, SourceArgs};
use dbkp::cli::resolve::{
    backup_choice, configs_from_args, has_database_config, has_storage_config, latest_backup_name,
    storage_config_from_args, BackupChoice, ResolveError,
};
use dbkp::cli::{database_config_from_cli, parse_retention, storage_from_cli, CliError, DatabaseArgs, SshArgs, StorageArgs};
use dbkp::databases::configs::SourceConfig;
use dbkp::databases::ConnectionType;
use dbkp::storage::provider::StorageConfig;

fn db_args() -> DatabaseArgs {
    DatabaseArgs {
        database_type: Some("mysql".into()),
        database: Some("shop".into()),
        host: Some("db".into()),
        port: Some(3306),
        username: Some("root".into()),
        password: None,
        ssh: None,
    }
}

fn local_args() -> StorageArgs {
    StorageArgs {
        storage_type: None,
        storage_name: None,
        location: Some("./backups".into()),
        bucket: None,
        region: None,
        endpoint: None,
        access_key: None,
        secret_key: None,
    }
}

#[test]
fn retention_values() {
    assert_eq!(parse_retention("30d"), Ok(30));
    assert_eq!(parse_retention("4w"), Ok(28));
    assert_eq!(parse_retention("2m"), Ok(60));
    assert_eq!(parse_retention("1y"), Ok(365));
    assert_eq!(parse_retention("+3d"), Ok(3));
    assert_eq!(legacy::parse_retention("10d"), Ok(10));
}

#[test]
fn retention_errors() {
    assert_eq!(parse_retention(""), Err(CliError::InvalidRetentionFormat));
    assert_eq!(parse_retention("d"), Err(CliError::InvalidRetentionFormat));
    assert_eq!(parse_retention("xd"), Err(CliError::InvalidRetentionValue));
    assert_eq!(parse_retention("-1d"), Err(CliError::InvalidRetentionValue));
    assert_eq!(parse_retention("30x"), Err(CliError::InvalidRetentionUnit));
    assert_eq!(parse_retention("99999999999999999999d"), Err(CliError::InvalidRetentionValue));
}

#[test]
fn storage_args_local_default() {
    match storage_from_cli(&local_args()).unwrap() {
        StorageConfig::Local(l) => {
            assert_eq!(l.name, "default");
            assert_eq!(l.location, "./backups");
            assert_eq!(l.id, "");
        }
        _ => panic!("expected local storage"),
    }
}

#[test]
fn storage_args_s3() {
    let args = StorageArgs {
        storage_type: Some("s3".into()),
        storage_name: Some("remote".into()),
        location: Some("backups".into()),
        bucket: Some("b".into()),
        region: Some("us-east-1".into()),
        endpoint: Some("https://s3.example".into()),
        access_key: Some("ak".into()),
        secret_key: Some("sk".into()),
    };
    match storage_from_cli(&args).unwrap() {
        StorageConfig::S3(c) => {
            assert_eq!(c.name, "remote");
            assert_eq!(c.bucket, "b");
            assert_eq!(c.endpoint, Some("https://s3.example".to_string()));
            assert_eq!(c.location, "backups");
        }
        _ => panic!("expected s3 storage"),
    }
}

#[test]
fn storage_args_errors() {
    let mut args = StorageArgs { storage_type: Some("s3".into()), ..local_args() };
    assert_eq!(storage_from_cli(&args).unwrap_err(), CliError::MissingBucket);
    args.bucket = Some("b".into());
    assert_eq!(storage_from_cli(&args).unwrap_err(), CliError::MissingEndpoint);
    args.endpoint = Some("e".into());
    assert_eq!(storage_from_cli(&args).unwrap_err(), CliError::MissingAccessKey);
    args.access_key = Some("a".into());
    assert_eq!(storage_from_cli(&args).unwrap_err(), CliError::MissingSecretKey);
    args.secret_key = Some("s".into());
    assert_eq!(storage_from_cli(&args).unwrap_err(), CliError::MissingRegion);
    args.region = Some("r".into());
    args.location = None;
    assert_eq!(storage_from_cli(&args).unwrap_err(), CliError::MissingLocation);
    let local = StorageArgs { location: None, ..local_args() };
    assert_eq!(storage_from_cli(&local).unwrap_err(), CliError::MissingLocation);
    let ftp = StorageArgs { storage_type: Some("ftp".into()), ..local_args() };
    assert_eq!(storage_from_cli(&ftp).unwrap_err(), CliError::UnsupportedStorageType);
}

#[test]
fn database_args_mysql() {
    let c = database_config_from_cli(&db_args()).unwrap();
    assert_eq!(c.connection_type, ConnectionType::MySql);
    assert_eq!(c.name, "shop");
    assert_eq!(c.port, 3306);
    assert!(c.password.is_none());
    assert!(c.ssh_tunnel.is_none());
    assert_eq!(c.id, "");
}

#[test]
fn database_args_errors() {
    let mut a = db_args();
    a.database_type = None;
    assert_eq!(database_config_from_cli(&a).unwrap_err(), CliError::MissingDatabaseType);
    let mut a = db_args();
    a.database = None;
    assert_eq!(database_config_from_cli(&a).unwrap_err(), CliError::MissingDatabase);
    let mut a = db_args();
    a.host = None;
    assert_eq!(database_config_from_cli(&a).unwrap_err(), CliError::MissingHost);
    let mut a = db_args();
    a.port = None;
    assert_eq!(database_config_from_cli(&a).unwrap_err(), CliError::MissingPort);
    let mut a = db_args();
    a.username = None;
    assert_eq!(database_config_from_cli(&a).unwrap_err(), CliError::MissingUsername);
    let mut a = db_args();
    a.ssh = Some(SshArgs { ssh_host: None, ssh_username: Some("u".into()), ssh_key_path: Some("k".into()) });
    assert_eq!(database_config_from_cli(&a).unwrap_err(), CliError::MissingSshHost);
    a.ssh = Some(SshArgs { ssh_host: Some("h".into()), ssh_username: Some("u".into()), ssh_key_path: None });
    assert_eq!(database_config_from_cli(&a).unwrap_err(), CliError::MissingSshKeyPath);
    a.ssh = Some(SshArgs { ssh_host: Some("h".into()), ssh_username: None, ssh_key_path: Some("k".into()) });
    assert_eq!(database_config_from_cli(&a).unwrap_err(), CliError::MissingSshUsername);
    let mut a = db_args();
    a.database_type = Some("oracle".into());
    assert_eq!(database_config_from_cli(&a).unwrap_err(), CliError::UnsupportedDatabaseType);
}

#[test]
fn resolve_from_args() {
    assert!(has_database_config(&db_args()));
    assert!(has_storage_config(&local_args()));
    let (d, s) = configs_from_args(&db_args(), &local_args()).unwrap();
    assert_eq!(d.database, "shop");
    assert!(matches!(s, StorageConfig::Local(_)));
    let mut missing = db_args();
    missing.port = None;
    assert_eq!(configs_from_args(&missing, &local_args()).unwrap_err(), ResolveError::DatabaseArgsMissing);
    let no_storage = StorageArgs { location: None, ..local_args() };
    assert_eq!(configs_from_args(&db_args(), &no_storage).unwrap_err(), ResolveError::StorageArgsMissing);
    let mut bad = db_args();
    bad.database_type = Some("oracle".into());
    assert_eq!(
        configs_from_args(&bad, &local_args()).unwrap_err(),
        ResolveError::Invalid(CliError::UnsupportedDatabaseType)
    );
    assert_eq!(storage_config_from_args(&None).unwrap_err(), ResolveError::StorageArgsMissing);
    assert!(storage_config_from_args(&Some(local_args())).is_ok());
}

#[test]
fn s3_args_without_region_are_given_but_invalid() {
    let args = StorageArgs {
        storage_type: Some("s3".into()),
        storage_name: None,
        location: Some("l".into()),
        bucket: Some("b".into()),
        region: None,
        endpoint: Some("e".into()),
        access_key: Some("a".into()),
        secret_key: Some("s".into()),
    };
    assert!(has_storage_config(&args));
    assert_eq!(
        storage_config_from_args(&Some(args)).unwrap_err(),
        ResolveError::Invalid(CliError::MissingRegion)
    );
}

#[test]
fn choosing_a_backup() {
    match backup_choice(&Some("b.gz".into()), true).unwrap() {
        BackupChoice::Named(n) => assert_eq!(n, "b.gz"),
        _ => panic!("named"),
    }
    assert!(matches!(backup_choice(&None, true).unwrap(), BackupChoice::Latest));
    assert_eq!(backup_choice(&None, false).unwrap_err(), ResolveError::NoBackupChosen);
    assert_eq!(latest_backup_name(&vec![]).unwrap_err(), ResolveError::NoBackupsFound);
}

#[test]
fn legacy_source_args() {
    let args = SourceArgs {
        source_type: "postgres".into(),
        source_name: "default".into(),
        database: "app".into(),
        host: "localhost".into(),
        port: 5432,
        username: "postgres".into(),
        password: None,
        use_ssh_tunnel: true,
        ssh_key_path: Some("~/.ssh/id".into()),
        ssh_username: Some("me".into()),
    };
    match legacy::source_from_cli(&args).unwrap() {
        SourceConfig::PG(pg) => {
            assert_eq!(pg.database, "app");
            let t = pg.tunnel_config.unwrap();
            assert!(t.use_tunnel);
            assert_eq!(t.username, "me");
        }
    }
    let bad = SourceArgs { ssh_username: None, ..args };
    assert_eq!(legacy::source_from_cli(&bad).unwrap_err(), CliError::MissingSshUsername);
}

#[test]
fn interactive_menus() {
    assert_eq!(main_actions(false, false), vec![MainAction::CreateWorkspace, MainAction::ManageWorkspaces, MainAction::Exit]);
    assert_eq!(
        main_actions(true, true),
        vec![
            MainAction::CreateWorkspace,
            MainAction::UseWorkspace,
            MainAction::ManageWorkspaces,
            MainAction::BackupDatabase,
            MainAction::RestoreDatabase,
            MainAction::ListBackups,
            MainAction::Exit
        ]
    );
    assert_eq!(MainAction::UseWorkspace.label(), "Switch workspace");
    assert_eq!(DatabaseType::MySQL.default_port(), "3306");
    assert_eq!(DatabaseType::PostgreSQL.default_port(), "5432");
    assert_eq!(StorageType::S3.label(), "Amazon S3 / Compatible");
    assert_eq!(WorkspaceAction::Back.label(), "Back to main menu");
}

#[test]
fn interactive_answers() {
    let ssh = ssh_config_from_answers("h".into(), "u".into(), "k".into());
    assert_eq!(ssh.port, 22);
    let d = database_config_from_answers(DatabaseType::PostgreSQL, "h".into(), 5432, "db".into(), "u".into(), None, Some(ssh));
    assert_eq!(d.connection_type, ConnectionType::PostgreSql);
    assert_eq!(d.name, "db");
    match storage_config_from_answers("default".into(), "backups".into(), None) {
        StorageConfig::Local(l) => assert_eq!(l.location, "backups"),
        _ => panic!("local"),
    }
    let s3 = S3Answers {
        bucket: "b".into(),
        region: "r".into(),
        endpoint: None,
        access_key: "a".into(),
        secret_key: "s".into(),
    };
    match storage_config_from_answers("n".into(), "p".into(), Some(s3)) {
        StorageConfig::S3(c) => assert_eq!((c.bucket.as_str(), c.location.as_str()), ("b", "p")),
        _ => panic!("s3"),
    }
}
