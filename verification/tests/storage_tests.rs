use dbkp::storage::configs::{LocalStorageConfig as LegacyLocal, StorageConfig as LegacyConfig};
use dbkp::storage::io::{ReadError, ReadStep, StorageReader, StorageWriter, WriteError};
use dbkp::storage::provider::{
    arrange_listing, cleanup_cutoff, cleanup_outcome, list_page_size, plan_cleanup, plan_cleanup_checked, read_chunk_size, read_response,
    wants_latest_only, HandleRegistry, ListError, ListOptions, StorageProviderReadResponse,
};
use dbkp::storage::serializable_entry::{SerializableEntry, SerializableMetadata};
use dbkp::storage::storage::Storage;
use dbkp::storage::utils::{parse_s3_location, LocationError};
use dbkp::storage::{Entry, EntryMetadata, EntryMode, Moment};

fn entry(path: &str, is_file: bool, len: u64) -> Entry {
    let name = path.rsplit('/').next().unwrap().to_string();
    Entry {
        path: path.to_string(),
        metadata: EntryMetadata {
            mode: if is_file { EntryMode::FILE } else { EntryMode::DIR },
            name,
            is_file,
            is_current: None,
            is_deleted: false,
            cache_control: None,
            content_disposition: None,
            content_length: len,
            content_md5: None,
            content_type: None,
            content_encoding: None,
            etag: None,
            last_modified: None,
            version: None,
        },
    }
}

fn names(v: &[Entry]) -> Vec<String> {
    v.iter().map(|e| e.metadata.name.clone()).collect()
}

#[test]
fn listing_is_newest_first_files_only() {
    let entries = vec![
        entry("backup_2024-01-15-120000-abc123.dump", true, 8),
        entry("dir", false, 0),
        entry("backup_2024-01-17-140000-fed789.dump", true, 8),
        entry("backup_2024-01-16-130000-def456.dump", true, 8),
    ];
    let listed = arrange_listing(entries, false, None).unwrap();
    assert_eq!(
        names(&listed),
        vec![
            "backup_2024-01-17-140000-fed789.dump",
            "backup_2024-01-16-130000-def456.dump",
            "backup_2024-01-15-120000-abc123.dump"
        ]
    );
}

#[test]
fn listing_keeps_order_of_equal_times() {
    let entries = vec![
        entry("a.txt", true, 1),
        entry("backup_2024-01-15-120000-abc123.dump", true, 1),
        entry("b.txt", true, 1),
    ];
    let listed = arrange_listing(entries, false, None).unwrap();
    assert_eq!(names(&listed), vec!["backup_2024-01-15-120000-abc123.dump", "a.txt", "b.txt"]);
}

#[test]
fn listing_latest_only() {
    let entries = vec![
        entry("backup_2024-01-15-120000-abc123.dump", true, 1),
        entry("backup_2024-01-16-130000-def456.dump", true, 1),
    ];
    let listed = arrange_listing(entries, true, None).unwrap();
    assert_eq!(names(&listed), vec!["backup_2024-01-16-130000-def456.dump"]);
}

#[test]
fn listing_latest_only_of_nothing() {
    let entries = vec![entry("dir", false, 0)];
    assert_eq!(arrange_listing(entries, true, None).unwrap_err(), ListError::NoEntryFound);
}

#[test]
fn list_options_defaults() {
    let o = ListOptions { latest_only: None, limit: None };
    assert_eq!(list_page_size(&o), 1000);
    assert!(!wants_latest_only(&o));
    let o = ListOptions { latest_only: Some(true), limit: Some(10) };
    assert_eq!(list_page_size(&o), 10);
    assert!(wants_latest_only(&o));
}

#[test]
fn cutoff_of_retention() {
    let now = Moment { secs: 1_704_067_200, nanos: 5 };
    assert_eq!(cleanup_cutoff(now, 30), Some(Moment { secs: 1_704_067_200 - 30 * 86400, nanos: 5 }));
    let early = Moment { secs: i64::MIN + 10, nanos: 0 };
    assert_eq!(cleanup_cutoff(early, 1), None);
}

#[test]
fn cleanup_plan_selects_old_backups() {
    let entries = vec![
        entry("backup_2023-01-01-120000-0ab123.dump", true, 11),
        entry("backup_2024-01-01-120000-beef56.dump", true, 11),
        entry("notes.txt", true, 5),
        entry("backup_2022-01-01-120000-d1e000.dump", false, 7),
    ];
    // 2023-06-01T00:00:00Z
    let cutoff = Moment { secs: 1_685_577_600, nanos: 0 };
    let plan = plan_cleanup(&entries, cutoff, true);
    assert_eq!(plan.paths, vec!["backup_2023-01-01-120000-0ab123.dump".to_string()]);
    assert_eq!(plan.count, 1);
    assert_eq!(plan.size, 11);
    let all = plan_cleanup(&entries, cutoff, false);
    assert_eq!(all.count, 2);
    assert_eq!(all.size, 18);
}

#[test]
fn cleanup_dry_run_reports_the_same() {
    let entries = vec![entry("backup_2023-01-01-120000-0ab123.dump", true, 11)];
    let cutoff = Moment { secs: 1_685_577_600, nanos: 0 };
    let (deleted, count, size) = cleanup_outcome(plan_cleanup(&entries, cutoff, true), true);
    let (deleted2, count2, size2) = cleanup_outcome(plan_cleanup(&entries, cutoff, true), false);
    assert!(deleted.is_empty());
    assert_eq!(deleted2, vec!["backup_2023-01-01-120000-0ab123.dump".to_string()]);
    assert_eq!((count, size), (count2, size2));
    assert_eq!((count, size), (1, 11));
}

#[test]
fn cleanup_cutoff_with_nanos_is_strict() {
    // 2023-01-01T12:00:00Z is 1672574400
    let entries = vec![entry("backup_2023-01-01-120000-0ab123.dump", true, 3)];
    assert_eq!(plan_cleanup(&entries, Moment { secs: 1_672_574_400, nanos: 0 }, true).count, 0);
    assert_eq!(plan_cleanup(&entries, Moment { secs: 1_672_574_400, nanos: 1 }, true).count, 1);
}

#[test]
fn chunk_sizes() {
    assert_eq!(read_chunk_size(0), 0);
    assert_eq!(read_chunk_size(100), 100);
    assert_eq!(read_chunk_size(512), 512);
    assert_eq!(read_chunk_size(10240), 512);
}

#[test]
fn read_responses() {
    let r = read_response(Some(vec![1, 2, 3]));
    assert_eq!((r.data, r.size, r.is_eof), (vec![1, 2, 3], 3, false));
    let r = read_response(None);
    assert_eq!((r.data.len(), r.size, r.is_eof), (0, 0, true));
}

#[test]
fn handle_registry_numbers() {
    let mut reg = HandleRegistry::new();
    let a = reg.open_handle();
    let b = reg.open_handle();
    assert_eq!((a, b), (1, 2));
    assert!(reg.is_open(1) && reg.is_open(2) && !reg.is_open(3));
    assert!(reg.close_handle(1));
    assert!(!reg.is_open(1));
    assert!(!reg.close_handle(1));
    assert_eq!(reg.open_handle(), 3);
}

#[test]
fn reader_hands_out_in_order() {
    let mut reader = StorageReader::new(7);
    assert_eq!(reader.reader_id(), 7);
    match reader.start_read(4).unwrap() {
        ReadStep::NeedData => {}
        _ => panic!("nothing is pending"),
    }
    let chunk = StorageProviderReadResponse { data: vec![1, 2, 3, 4, 5, 6], size: 6, is_eof: false };
    assert_eq!(reader.finish_read(Some(chunk), 4).unwrap(), vec![1, 2, 3, 4]);
    match reader.start_read(4).unwrap() {
        ReadStep::Delivered(d) => assert_eq!(d, vec![5, 6]),
        _ => panic!("two bytes are pending"),
    }
    match reader.start_read(4).unwrap() {
        ReadStep::NeedData => {}
        _ => panic!("nothing is pending"),
    }
    let end = StorageProviderReadResponse { data: vec![], size: 0, is_eof: true };
    assert_eq!(reader.finish_read(Some(end), 4).unwrap(), Vec::<u8>::new());
    assert!(reader.is_closed());
    assert_eq!(reader.start_read(4).unwrap_err(), ReadError::Closed);
}

#[test]
fn reader_fetch_failure_closes() {
    let mut reader = StorageReader::new(1);
    assert_eq!(reader.finish_read(None, 8).unwrap_err(), ReadError::FetchFailed);
    assert!(reader.is_closed());
}

#[test]
fn reader_with_empty_buffer_request() {
    let mut reader = StorageReader::new(1);
    let chunk = StorageProviderReadResponse { data: vec![9, 9], size: 2, is_eof: false };
    assert_eq!(reader.finish_read(Some(chunk), 0).unwrap(), Vec::<u8>::new());
    match reader.start_read(0).unwrap() {
        ReadStep::Delivered(d) => assert!(d.is_empty()),
        _ => panic!("bytes are pending"),
    }
}

#[test]
fn writer_states() {
    let mut w = StorageWriter::new(3);
    assert_eq!(w.writer_id(), 3);
    assert!(w.check_write().is_ok());
    assert!(w.needs_close());
    w.mark_closed();
    assert_eq!(w.check_write().unwrap_err(), WriteError::Closed);
    assert!(!w.needs_close());
}

#[test]
fn s3_locations() {
    let (e, b) = parse_s3_location("s3://my-bucket").unwrap();
    assert_eq!((e.as_str(), b.as_str()), ("https://s3.amazonaws.com", "my-bucket"));
    let (e, b) = parse_s3_location("https://minio.local:9000/backups/daily").unwrap();
    assert_eq!((e.as_str(), b.as_str()), ("https://minio.local", "backups"));
    let (e, b) = parse_s3_location("http://example.com//bucket").unwrap();
    assert_eq!((e.as_str(), b.as_str()), ("http://example.com", "bucket"));
    let (e, b) = parse_s3_location("plain-bucket").unwrap();
    assert_eq!((e.as_str(), b.as_str()), ("https://s3.amazonaws.com", "plain-bucket"));
    assert_eq!(parse_s3_location("http://[::1").unwrap_err(), LocationError::InvalidUrl);
}

#[test]
fn legacy_storage_paths() {
    let storage = Storage::new(LegacyConfig::Local(LegacyLocal {
        name: "local".into(),
        root: "/tmp".into(),
        prefix: Some("dumps".into()),
    }));
    assert_eq!(storage.get_prefix(), "dumps");
    assert_eq!(storage.object_path("a.gz"), "dumps/a.gz");
    assert_eq!(storage.get_filename_from_path("dumps/a.gz"), "a.gz");
    assert_eq!(storage.get_filename_from_path("other/a.gz"), "other/a.gz");
    let bare = Storage::new(LegacyConfig::Local(LegacyLocal { name: "l".into(), root: "/".into(), prefix: None }));
    assert_eq!(bare.get_prefix(), "");
    assert_eq!(bare.object_path("x"), "/x");
    assert_eq!(bare.get_filename_from_path("/x"), "x");
}

#[test]
fn serializable_entries() {
    let mut e = entry("dir/backup.gz", true, 42);
    e.metadata.last_modified = Some(Moment { secs: 0, nanos: 0 });
    e.metadata.etag = Some("abc".into());
    let s = SerializableEntry::from_entry(e, None);
    assert_eq!(s.path(), "dir/backup.gz");
    let m: &SerializableMetadata = s.metadata();
    assert!(m.is_file());
    assert!(!m.is_dir());
    assert_eq!(m.content_length(), 42);
    assert_eq!(m.etag(), Some("abc"));
    assert_eq!(m.content_type(), None);
    assert_eq!(m.last_modified(), Some("1970-01-01T00:00:00+00:00"));
    let d = SerializableEntry::from_entry(entry("d", false, 0), None);
    assert!(d.metadata().is_dir());
    assert_eq!(d.metadata().last_modified(), None);
}

#[test]
fn listing_limit_caps_the_newest() {
    let entries = vec![
        entry("backup_2024-01-15-120000-abc123.dump", true, 8),
        entry("backup_2024-01-17-140000-fed789.dump", true, 8),
        entry("backup_2024-01-16-130000-def456.dump", true, 8),
    ];
    let listed = arrange_listing(entries.clone(), false, Some(2)).unwrap();
    assert_eq!(
        names(&listed),
        vec!["backup_2024-01-17-140000-fed789.dump", "backup_2024-01-16-130000-def456.dump"]
    );
    assert_eq!(arrange_listing(entries.clone(), false, Some(10)).unwrap().len(), 3);
    assert_eq!(arrange_listing(entries.clone(), false, Some(0)).unwrap().len(), 0);
    assert_eq!(names(&arrange_listing(entries.clone(), true, Some(5)).unwrap()), vec!["backup_2024-01-17-140000-fed789.dump"]);
    assert_eq!(names(&arrange_listing(entries.clone(), true, Some(1)).unwrap()), vec!["backup_2024-01-17-140000-fed789.dump"]);
    assert!(matches!(arrange_listing(entries, true, Some(0)), Err(ListError::NoEntryFound)));
}

#[test]
fn checked_cleanup_plan_refuses_sizes_beyond_u64() {
    let cutoff = Moment { secs: 1_685_577_600, nanos: 0 };
    let fits = vec![
        entry("backup_2023-01-01-120000-0ab123.dump", true, u64::MAX - 1),
        entry("backup_2023-02-01-120000-0ab124.dump", true, 1),
        entry("backup_2024-01-01-120000-beef56.dump", true, u64::MAX),
    ];
    let plan = plan_cleanup_checked(&fits, cutoff, true).unwrap();
    assert_eq!((plan.count, plan.size), (2, u64::MAX));
    let over = vec![
        entry("backup_2023-01-01-120000-0ab123.dump", true, u64::MAX),
        entry("backup_2023-02-01-120000-0ab124.dump", true, 1),
    ];
    assert!(plan_cleanup_checked(&over, cutoff, true).is_none());
}

#[test]
fn reading_in_small_buffers_gives_back_every_chunk_in_order() {
    let content: Vec<u8> = (0..10240usize).map(|i| (i % 256) as u8).collect();
    let chunk = read_chunk_size(content.len() as u64) as usize;
    let mut chunks = content.chunks(chunk).map(|c| c.to_vec());
    let mut reader = StorageReader::new(7);
    let mut got: Vec<u8> = Vec::new();
    let mut buf_reads = 0;
    loop {
        let step = reader.start_read(300).unwrap();
        let bytes = match step {
            ReadStep::Delivered(d) => d,
            ReadStep::NeedData => reader.finish_read(Some(read_response(chunks.next())), 300).unwrap(),
        };
        if bytes.is_empty() {
            break;
        }
        assert!(bytes.len() <= 300);
        got.extend_from_slice(&bytes);
        buf_reads += 1;
    }
    assert_eq!(got, content);
    assert!(reader.is_closed());
    assert_eq!(buf_reads, 40);
}

#[test]
fn a_second_cleanup_removes_nothing() {
    let cutoff = Moment { secs: 1_685_577_600, nanos: 0 };
    let entries = vec![
        entry("backup_2023-01-01-120000-0ab123.dump", true, 10),
        entry("notes.txt", true, 3),
        entry("backup_2024-01-01-120000-beef56.dump", true, 20),
        entry("backup_2023-02-01-120000-0ab124.gz", true, 5),
    ];
    let dry = plan_cleanup(&entries, cutoff, true);
    let real = plan_cleanup(&entries, cutoff, true);
    assert_eq!((dry.count, dry.size), (2, 15));
    let (deleted_dry, n_dry, s_dry) = cleanup_outcome(dry, true);
    let (deleted, n, s) = cleanup_outcome(real, false);
    assert!(deleted_dry.is_empty());
    assert_eq!((n_dry, s_dry), (n, s));
    let kept: Vec<Entry> = entries.iter().filter(|e| !deleted.contains(&e.path)).cloned().collect();
    assert_eq!(kept.len() + n, entries.len());
    let again = plan_cleanup(&kept, cutoff, true);
    assert_eq!((again.count, again.size), (0, 0));
}
