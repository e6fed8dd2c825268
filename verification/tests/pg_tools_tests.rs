use dbkp::databases::postgres::pg_tools::PgTools;
use dbkp::databases::postgres::pg_versions::PostgresVersion;

#[test]
fn test_pg_tools_initialization() {
    // The library names the cache directory; the caller makes it.
    let root = tempfile::tempdir().expect("Failed to initialize PgTools");
    let root_text = root.path().to_str().expect("Failed to initialize PgTools").to_string();
    let cache = tempfile::Builder::new()
        .prefix("pg_tools_cache")
        .rand_bytes(0)
        .tempdir_in(root.path())
        .expect("Failed to initialize PgTools");
    let pg_tools = PgTools::default(&root_text);
    assert!(std::path::Path::new(&pg_tools.cache_dir).exists());
    assert_eq!(pg_tools.version, PostgresVersion::V15);
    drop(cache);
}
