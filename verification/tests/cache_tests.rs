use tg_filestreambot::state::FileInfo;
use tg_filestreambot::stream::FileCache;

fn info(hash: &str, created_at: u64, expires_at: u64) -> FileInfo {
    FileInfo {
        file_id: format!("id-{}", hash),
        file_name: format!("{}.bin", hash),
        file_size: 1024,
        mime_type: String::from("application/octet-stream"),
        hash: String::from(hash),
        created_at,
        expires_at,
    }
}

#[test]
fn register_then_lookup_roundtrip() {
    let mut cache = FileCache::new(10);
    let d = info("h1", 1, 100);
    cache.add_file("h1", d.clone()).unwrap();
    let got = cache.get_file("h1", 50).unwrap();
    assert_eq!(got.file_id, d.file_id);
    assert_eq!(got.file_name, d.file_name);
    assert_eq!(got.file_size, d.file_size);
    assert_eq!(got.mime_type, d.mime_type);
    assert_eq!(got.hash, d.hash);
    assert_eq!(got.created_at, d.created_at);
    assert_eq!(got.expires_at, d.expires_at);
}

#[test]
fn expired_entry_absent_before_sweep() {
    let mut cache = FileCache::new(10);
    cache.add_file("h1", info("h1", 1, 100)).unwrap();
    // still cached, but already expired at read time
    assert!(cache.get_file("h1", 100).is_none());
    assert!(cache.get_file("h1", 500).is_none());
    assert_eq!(cache.get_cache_size(), 1);
}

#[test]
fn purge_removes_expired_and_lookup_fails() {
    let mut cache = FileCache::new(10);
    cache.add_file("h1", info("h1", 1, 10)).unwrap();
    cache.add_file("h2", info("h2", 1, 999)).unwrap();
    let removed = cache.cleanup_expired_files(50);
    assert_eq!(removed, 1);
    assert!(cache.get_file("h1", 50).is_none());
    assert!(cache.get_file("h2", 50).is_some());
    assert_eq!(cache.get_cache_size(), 1);
}

#[test]
fn capacity_bound_holds_under_any_register_sequence() {
    let mut cache = FileCache::new(4);
    for i in 0..20u64 {
        cache.add_file(&format!("h{}", i), info(&format!("h{}", i), i, 10_000)).unwrap();
        assert!(cache.get_cache_size() <= 4, "size exceeded after insert {}", i);
    }
}

#[test]
fn eviction_removes_oldest_by_creation() {
    let mut cache = FileCache::new(4);
    for i in 0..4u64 {
        cache.add_file(&format!("h{}", i), info(&format!("h{}", i), i, 10_000)).unwrap();
    }
    // full: the next register evicts the two oldest (h0, h1) first
    cache.add_file("h4", info("h4", 4, 10_000)).unwrap();
    assert!(cache.get_file("h0", 5).is_none());
    assert!(cache.get_file("h1", 5).is_none());
    assert!(cache.get_file("h2", 5).is_some());
    assert!(cache.get_file("h3", 5).is_some());
    assert!(cache.get_file("h4", 5).is_some());
    assert_eq!(cache.get_cache_size(), 3);
}

#[test]
fn eviction_tie_broken_by_insertion_order() {
    let mut cache = FileCache::new(4);
    // all created at the same instant: insertion order decides
    for name in ["a", "b", "c", "d"] {
        cache.add_file(name, info(name, 7, 10_000)).unwrap();
    }
    cache.add_file("e", info("e", 7, 10_000)).unwrap();
    assert!(cache.get_file("a", 8).is_none());
    assert!(cache.get_file("b", 8).is_none());
    assert!(cache.get_file("c", 8).is_some());
    assert!(cache.get_file("d", 8).is_some());
    assert!(cache.get_file("e", 8).is_some());
}

#[test]
fn explicit_eviction_halves_cache() {
    let mut cache = FileCache::new(6);
    for i in 0..6u64 {
        cache.add_file(&format!("h{}", i), info(&format!("h{}", i), i, 10_000)).unwrap();
    }
    let removed = cache.cleanup_old_files();
    assert_eq!(removed, 3);
    assert_eq!(cache.get_cache_size(), 3);
}

#[test]
fn reregister_overwrites_in_place() {
    let mut cache = FileCache::new(10);
    cache.add_file("h1", info("h1", 1, 100)).unwrap();
    let mut newer = info("h1", 2, 500);
    newer.file_name = String::from("renamed.bin");
    cache.add_file("h1", newer).unwrap();
    assert_eq!(cache.get_cache_size(), 1);
    let got = cache.get_file("h1", 50).unwrap();
    assert_eq!(got.file_name, "renamed.bin");
    assert_eq!(got.expires_at, 500);
}

#[test]
fn remove_file_returns_descriptor() {
    let mut cache = FileCache::new(10);
    cache.add_file("h1", info("h1", 1, 100)).unwrap();
    let gone = cache.remove_file("h1").unwrap();
    assert_eq!(gone.hash, "h1");
    assert!(cache.remove_file("h1").is_none());
    assert_eq!(cache.get_cache_size(), 0);
}
