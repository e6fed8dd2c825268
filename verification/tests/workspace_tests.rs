use dbkp::databases::ssh_tunnel::{
    forward_thread_name, local_listen_address, next_setup_step, on_accept, on_channel_open, ssh_server_address,
    AcceptAction, AcceptEvent, ChannelAction, ForwardState, LocalStep, ReadOutcome, RemoteStep, SetupStep, SshAuthMethod,
    SshTunnelConfig, TunnelError,
};
use dbkp::databases::configs::{PGSourceConfig, SourceConfig, TunnelConfig};
use dbkp::databases::{ConnectionType, DatabaseConfig};
use dbkp::dbkp::{backup_settings, connection_verdict, restore_settings, BackupOptions, ConnectionTestError, RestoreOptions};
use dbkp::compression::CompressionFormat;
use dbkp::s3::{
    backup_from_object, get_latest_backups_by_db, list_prefix, parse_key, select_backups, BackupInfo, ListedObject,
};
use dbkp::storage::provider::{LocalStorageConfig, StorageConfig};
use dbkp::storage::Moment;
use dbkp::tunnel::Tunnel;
use dbkp::workspace::{workspace_config_path, Workspace, WorkspaceCollection, WorkspaceError, WorkspaceManager};

fn db() -> DatabaseConfig {
    DatabaseConfig {
        id: String::new(),
        name: "app".into(),
        connection_type: ConnectionType::PostgreSql,
        host: "h".into(),
        port: 5432,
        database: "app".into(),
        username: "u".into(),
        password: None,
        ssh_tunnel: None,
    }
}

fn ws(name: &str, location: &str) -> Workspace {
    Workspace {
        name: name.into(),
        database: db(),
        storage: StorageConfig::Local(LocalStorageConfig { id: String::new(), name: "local".into(), location: location.into() }),
        created_at: "2024-01-01T00:00:00+00:00".into(),
        last_used: None,
    }
}

fn location_of(w: &Workspace) -> String {
    match &w.storage {
        StorageConfig::Local(l) => l.location.clone(),
        StorageConfig::S3(s) => s.location.clone(),
    }
}

#[test]
fn workspace_add_get_replace() {
    let mut c = WorkspaceCollection::new();
    assert!(c.get_workspace("prod").is_none());
    c.add_workspace(ws("prod", "/a"));
    c.add_workspace(ws("dev", "/b"));
    assert_eq!(location_of(c.get_workspace("prod").unwrap()), "/a");
    c.add_workspace(ws("prod", "/c"));
    assert_eq!(location_of(c.get_workspace("prod").unwrap()), "/c");
    assert_eq!(c.list_workspaces().len(), 2);
}

#[test]
fn workspace_active_and_remove() {
    let mut c = WorkspaceCollection::new();
    c.add_workspace(ws("prod", "/a"));
    assert_eq!(c.set_active("missing"), Err(WorkspaceError::NotFound));
    assert!(c.get_active().is_none());
    assert_eq!(c.set_active("prod"), Ok(()));
    assert_eq!(c.get_active().unwrap().name, "prod");
    assert_eq!(c.active_workspace().map(|s| s.as_str()), Some("prod"));
    let removed = c.remove_workspace("prod").unwrap();
    assert_eq!(removed.name, "prod");
    assert!(c.active_workspace().is_none());
    assert!(c.get_workspace("prod").is_none());
    assert!(c.remove_workspace("prod").is_none());
}

#[test]
fn workspace_file_location() {
    assert_eq!(workspace_config_path("/home/u/.config"), "/home/u/.config/dbkp/workspaces.json");
    assert_eq!(WorkspaceManager::new("/x").config_path, "/x/dbkp/workspaces.json");
}

#[test]
fn ssh_setup_steps() {
    let key = SshAuthMethod::PrivateKey { key_path: "k".into(), passphrase_key: None };
    let pass = SshAuthMethod::Password { password: "p".into() };
    assert_eq!(next_setup_step(SetupStep::Connect, true, &key), Ok(SetupStep::StartSession));
    assert_eq!(next_setup_step(SetupStep::SetNonBlocking, true, &key), Ok(SetupStep::Ready));
    assert_eq!(next_setup_step(SetupStep::Connect, false, &key), Err(TunnelError::TcpConnection));
    assert_eq!(next_setup_step(SetupStep::Authenticate, false, &key), Err(TunnelError::KeyAuthentication));
    assert_eq!(next_setup_step(SetupStep::Authenticate, false, &pass), Err(TunnelError::PasswordAuthentication));
    assert_eq!(next_setup_step(SetupStep::Listen, false, &pass), Err(TunnelError::LocalBind));
    let cfg = SshTunnelConfig { host: "bastion".into(), port: 22, username: "me".into(), auth_method: key };
    assert_eq!(ssh_server_address(&cfg), "bastion:22");
    assert_eq!(local_listen_address(40000), "127.0.0.1:40000");
    assert_eq!(forward_thread_name("1.2.3.4:5"), "ssh_fwd_1.2.3.4:5");
}

#[test]
fn ssh_loop_decisions() {
    assert_eq!(on_accept(true, AcceptEvent::Connection), AcceptAction::Stop);
    assert_eq!(on_accept(false, AcceptEvent::Connection), AcceptAction::Forward);
    assert_eq!(on_accept(false, AcceptEvent::WouldBlock), AcceptAction::Wait);
    assert_eq!(on_accept(false, AcceptEvent::Failed), AcceptAction::Fail);
    assert_eq!(on_channel_open(true, None), ChannelAction::Forward);
    assert_eq!(on_channel_open(false, Some(-37)), ChannelAction::Retry);
    assert_eq!(on_channel_open(false, Some(-1)), ChannelAction::Abort);
    assert_eq!(on_channel_open(false, None), ChannelAction::Abort);
}

#[test]
fn ssh_forwarding_state() {
    let mut s = ForwardState::new();
    assert_eq!(s.on_local_read(ReadOutcome::Data(10)), LocalStep::SendToRemote(10));
    assert_eq!(s.on_remote_read(ReadOutcome::WouldBlock), RemoteStep::Wait);
    assert!(!s.finished());
    assert_eq!(s.on_local_read(ReadOutcome::Failed), LocalStep::SendEofToRemote);
    assert!(!s.needs_final_eof());
    assert_eq!(s.on_remote_read(ReadOutcome::Eof), RemoteStep::ShutdownLocalWrite);
    assert!(s.finished());
}

#[test]
fn tunnel_configs() {
    let mut t = Tunnel::new(TunnelConfig { use_tunnel: true, key_path: "/k".into(), username: "me".into() });
    let src = SourceConfig::PG(PGSourceConfig {
        name: "n".into(),
        database: "d".into(),
        host: "db".into(),
        port: 5432,
        username: "pg".into(),
        password: None,
        tunnel_config: None,
    });
    assert!(t.get_tunneled_config(&src).is_none());
    assert_eq!(
        t.ssh_args(6000, &src),
        vec!["-i", "/k", "-L", "127.0.0.1:6000:db:5432", "-N", "pg@db", "-o", "StrictHostKeyChecking=no", "-o", "ExitOnForwardFailure=yes"]
    );
    t.mark_established(6000);
    assert_eq!(t.get_local_port(), Some(6000));
    let SourceConfig::PG(c) = t.get_tunneled_config(&src).unwrap();
    assert_eq!((c.host.as_str(), c.port, c.database.as_str()), ("127.0.0.1", 6000, "d"));
    t.mark_closed();
    assert_eq!(t.get_local_port(), None);
}

#[test]
fn backup_and_restore_settings() {
    let s = backup_settings(None, &db()).unwrap();
    assert_eq!(s.compression_format, CompressionFormat::Gzip);
    assert_eq!(s.compression_level, 9);
    assert!(s.name.starts_with("app-") && s.name.ends_with(".gz"));
    let s = backup_settings(
        Some(BackupOptions { name: Some("mine".into()), compression_format: Some(CompressionFormat::Deflate), compression_level: Some(3) }),
        &db(),
    )
    .unwrap();
    assert_eq!((s.name.as_str(), s.compression_format, s.compression_level), ("mine", CompressionFormat::Deflate, 3));
    let (f, o) = restore_settings(&RestoreOptions { name: "b".into(), compression_format: None, drop_database_first: None });
    assert_eq!(f, CompressionFormat::Gzip);
    assert!(!o.drop_database_first);
    assert_eq!(connection_verdict(false, false), Err(ConnectionTestError::DatabaseUnreachable));
    assert_eq!(connection_verdict(true, false), Err(ConnectionTestError::StorageUnreachable));
    assert_eq!(connection_verdict(true, true), Ok(true));
}

fn object(key: &str, secs: i64) -> ListedObject {
    ListedObject { key: key.into(), size: 10, last_modified: Moment { secs, nanos: 0 } }
}

#[test]
fn s3_keys() {
    assert_eq!(list_prefix("bk", Some("pg"), Some("shop")), "bk/pg/shop");
    assert_eq!(list_prefix("bk", Some("pg"), None), "bk/pg");
    assert_eq!(list_prefix("bk", None, Some("shop")), "bk");
    assert_eq!(
        parse_key("bk/pg/shop-2024-01-01-120000-abcd.gz"),
        Some(("pg".to_string(), "shop".to_string(), "2024-01-01-120000-abcd".to_string()))
    );
    assert_eq!(parse_key("pg/shop-x.gz"), None);
    assert_eq!(parse_key("bk/pg/shop.gz"), None);
    assert!(backup_from_object(object("bk/pg/shop-1.txt", 0), None, None).is_none());
    assert!(backup_from_object(object("bk/pg/shop-1.gz", 0), Some("mysql"), None).is_none());
    let b = backup_from_object(object("bk/pg/shop-1.gz", 0), Some("pg"), Some("shop")).unwrap();
    assert_eq!((b.backup_type.as_str(), b.db_name.as_str(), b.timestamp.as_str()), ("pg", "shop", "1"));
}

#[test]
fn s3_listing_order_and_latest() {
    let objects = vec![
        object("bk/pg/shop-a.gz", 100),
        object("bk/pg/blog-b.gz", 300),
        object("bk/pg/shop-c.gz", 200),
        object("bk/my/shop-d.gz", 50),
        object("bk/readme.txt", 999),
    ];
    let all: Vec<BackupInfo> = select_backups(objects.clone(), None, None, 0);
    let keys: Vec<&str> = all.iter().map(|b| b.key.as_str()).collect();
    assert_eq!(keys, vec!["bk/pg/blog-b.gz", "bk/pg/shop-c.gz", "bk/pg/shop-a.gz", "bk/my/shop-d.gz"]);
    let two = select_backups(objects.clone(), None, None, 2);
    assert_eq!(two.len(), 2);
    let shop = select_backups(objects, Some("pg"), Some("shop"), 0);
    assert_eq!(shop.len(), 2);
    let latest = get_latest_backups_by_db(&all);
    let keys: Vec<&str> = latest.iter().map(|b| b.key.as_str()).collect();
    assert_eq!(keys, vec!["bk/pg/blog-b.gz", "bk/pg/shop-c.gz", "bk/my/shop-d.gz"]);
}
