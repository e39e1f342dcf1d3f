use tg_filestreambot::state::FileInfo;
use tg_filestreambot::stream::FileStreamManager;

fn info(hash: &str) -> FileInfo {
    FileInfo {
        file_id: format!("id-{}", hash),
        file_name: format!("{}.bin", hash),
        file_size: 2048,
        mime_type: String::from("application/octet-stream"),
        hash: String::from(hash),
        created_at: 1,
        expires_at: 10_000,
    }
}

#[test]
fn opened_session_registered_under_generated_id() {
    let mut mgr = FileStreamManager::new();
    let s = mgr.create_stream_session("h1", info("h1"), String::from("127.0.0.1"), 50);
    assert_eq!(s.file_hash, "h1");
    assert_eq!(s.file_name, "h1.bin");
    assert_eq!(s.file_size, 2048);
    assert_eq!(s.start_time, 50);
    assert!(!s.session_id.is_empty());
    let stored = mgr.get_session(&s.session_id).unwrap();
    assert_eq!(stored.session_id, s.session_id);
    assert_eq!(stored.file_hash, "h1");
}

#[test]
fn generated_session_ids_differ() {
    let mut mgr = FileStreamManager::new();
    let a = mgr.create_stream_session("h1", info("h1"), String::from("c"), 1);
    let b = mgr.create_stream_session("h1", info("h1"), String::from("c"), 1);
    assert_ne!(a.session_id, b.session_id);
    assert_eq!(mgr.len(), 2);
}

#[test]
fn end_session_twice_is_noop() {
    let mut mgr = FileStreamManager::new();
    let s = mgr.create_stream_session("h1", info("h1"), String::from("c"), 1);
    assert!(mgr.end_stream_session(&s.session_id).is_some());
    assert!(mgr.end_stream_session(&s.session_id).is_none());
    assert_eq!(mgr.len(), 0);
}

#[test]
fn active_streams_snapshot_complete() {
    let mut mgr = FileStreamManager::new();
    let a = mgr.create_stream_session("h1", info("h1"), String::from("c"), 1);
    let b = mgr.create_stream_session("h2", info("h2"), String::from("c"), 2);
    let all = mgr.get_active_streams();
    assert_eq!(all.len(), 2);
    assert!(all.iter().any(|s| s.session_id == a.session_id));
    assert!(all.iter().any(|s| s.session_id == b.session_id));
}

#[test]
fn stale_sessions_swept_by_age() {
    let mut mgr = FileStreamManager::new();
    mgr.create_stream_session("h1", info("h1"), String::from("c"), 0);
    mgr.create_stream_session("h2", info("h2"), String::from("c"), 3000);
    assert_eq!(mgr.cleanup_expired_streams(3601, 3600), 1);
    assert_eq!(mgr.len(), 1);
    let left = mgr.get_active_streams();
    assert_eq!(left[0].file_hash, "h2");
}
