use tg_filestreambot::error::AppError;
use tg_filestreambot::server::handle_stream_request;
use tg_filestreambot::state::AppState;
use tg_filestreambot::state::FileInfo;
use tg_filestreambot::state::StreamInfo;

fn info(hash: &str, created_at: u64, expires_at: u64) -> FileInfo {
    FileInfo {
        file_id: format!("id-{}", hash),
        file_name: format!("{}.bin", hash),
        file_size: 1000,
        mime_type: String::from("application/octet-stream"),
        hash: String::from(hash),
        created_at,
        expires_at,
    }
}

fn session(id: &str, hash: &str, start_time: u64) -> StreamInfo {
    StreamInfo {
        session_id: String::from(id),
        file_hash: String::from(hash),
        file_name: format!("{}.bin", hash),
        file_size: 1000,
        start_time,
        client_ip: String::from("127.0.0.1"),
    }
}

#[test]
fn distinct_upserts_observed_exactly_once() {
    let mut state = AppState::new(0);
    let n = 25u64;
    for i in 0..n {
        state.add_file_to_cache(info(&format!("h{}", i), i, 10_000)).unwrap();
    }
    for i in 0..n {
        let got = state.get_file_from_cache(&format!("h{}", i), 100).unwrap();
        assert_eq!(got.hash, format!("h{}", i));
        assert_eq!(got.created_at, i);
    }
    assert_eq!(state.get_server_stats(0).cached_files, n as usize);
}

#[test]
fn submitted_task_readable_under_returned_id() {
    let mut state = AppState::new(0);
    let id = state.create_download_progress(String::from("http://x/y"), 42);
    let t = state.get_download_progress(&id).unwrap();
    assert_eq!(t.task_id, id);
    assert_eq!(t.url, "http://x/y");
    assert_eq!(t.started_at, 42);
    let id2 = state.create_download_progress(String::from("http://x/z"), 43);
    assert_ne!(id, id2, "generated task ids should differ");
}

#[test]
fn stats_snapshot_counts() {
    let mut state = AppState::new(100);
    state.add_file_to_cache(info("h1", 1, 10_000)).unwrap();
    state.create_download_progress(String::from("u"), 110);
    state.create_stream_session(session("s1", "h1", 120));
    let stats = state.get_server_stats(160);
    assert_eq!(stats.uptime, 60);
    assert_eq!(stats.cached_files, 1);
    assert_eq!(stats.active_downloads, 1);
    assert_eq!(stats.active_streams, 1);
    assert_eq!(stats.total_downloads, 1);
    assert_eq!(stats.total_streams, 1);
    assert_eq!(stats.total_requests, 0);
    assert_eq!(stats.start_time, 100);
}

#[test]
fn lifetime_totals_survive_sweeps() {
    let mut state = AppState::new(0);
    state.create_stream_session(session("s1", "h1", 0));
    let id = state.create_download_progress(String::from("u"), 0);
    state.update_download_progress(&id, 5, 5, 1, 0).unwrap();
    // sweep everything out
    assert_eq!(state.cleanup_expired_streams(10_000).unwrap(), 1);
    assert_eq!(state.cleanup_completed_downloads(10_000).unwrap(), 1);
    let stats = state.get_server_stats(10_000);
    assert_eq!(stats.active_streams, 0);
    assert_eq!(stats.active_downloads, 0);
    assert_eq!(stats.total_streams, 1);
    assert_eq!(stats.total_downloads, 1);
}

#[test]
fn request_counters_accumulate() {
    let mut state = AppState::new(0);
    state.update_server_stats(1, 100).unwrap();
    state.update_server_stats(1, 150).unwrap();
    let stats = state.get_server_stats(1);
    assert_eq!(stats.total_requests, 2);
    assert_eq!(stats.bytes_served, 250);
}

#[test]
fn close_session_twice_is_noop() {
    let mut state = AppState::new(0);
    state.create_stream_session(session("s1", "h1", 0));
    let first = state.end_stream_session("s1");
    assert!(first.is_some());
    let second = state.end_stream_session("s1");
    assert!(second.is_none());
    assert_eq!(state.get_active_streams().len(), 0);
}

#[test]
fn session_tolerates_expired_object() {
    let mut state = AppState::new(0);
    state.add_file_to_cache(info("h1", 1, 10)).unwrap();
    state.create_stream_session(session("s1", "h1", 5));
    // the object expires and is swept; the session stays
    assert_eq!(state.cleanup_expired_files(100).unwrap(), 1);
    assert!(state.get_file_from_cache("h1", 100).is_none());
    let streams = state.get_active_streams();
    assert_eq!(streams.len(), 1);
    assert_eq!(streams[0].file_hash, "h1");
}

#[test]
fn stream_sweep_uses_age_ceiling() {
    let mut state = AppState::new(0);
    state.create_stream_session(session("s1", "h1", 0));
    // exactly at the ceiling the session is kept
    assert_eq!(state.cleanup_expired_streams(1800).unwrap(), 0);
    // one second past it the session goes
    assert_eq!(state.cleanup_expired_streams(1801).unwrap(), 1);
}

#[test]
fn stream_request_unknown_hash_not_found() {
    let mut state = AppState::new(0);
    let e = handle_stream_request(&mut state, "nope", None, None, String::from("127.0.0.1"), 5)
        .unwrap_err();
    match e {
        AppError::NotFound(m) => assert_eq!(m, "File with hash nope not found"),
        other => panic!("unexpected error: {:?}", other),
    }
    assert_eq!(state.get_active_streams().len(), 0);
}

#[test]
fn stream_request_serves_partial_content() {
    let mut state = AppState::new(0);
    state.add_file_to_cache(info("h1", 1, 10_000)).unwrap();
    let (session, headers) = handle_stream_request(
        &mut state,
        "h1",
        Some(500),
        None,
        String::from("10.0.0.1"),
        50,
    )
    .unwrap();
    assert_eq!(session.file_hash, "h1");
    assert_eq!(session.file_size, 1000);
    assert_eq!(session.start_time, 50);
    assert_eq!(session.client_ip, "10.0.0.1");
    assert_eq!(headers.status_code, 206);
    assert_eq!(headers.content_range, "bytes 500-999/1000");
    assert_eq!(headers.content_length, "500");
    let streams = state.get_active_streams();
    assert_eq!(streams.len(), 1);
    assert_eq!(streams[0].session_id, session.session_id);
    assert_eq!(state.get_server_stats(50).total_streams, 1);
}

#[test]
fn stream_request_expired_hash_not_found() {
    let mut state = AppState::new(0);
    state.add_file_to_cache(info("h1", 1, 10)).unwrap();
    let r = handle_stream_request(&mut state, "h1", None, None, String::from("c"), 99);
    assert!(matches!(r, Err(AppError::NotFound(_))));
}

#[test]
fn stream_request_invalid_range_opens_no_session() {
    let mut state = AppState::new(0);
    state.add_file_to_cache(info("h1", 1, 10_000)).unwrap();
    let r = handle_stream_request(&mut state, "h1", Some(2000), None, String::from("c"), 5);
    assert!(matches!(r, Err(AppError::InvalidRange)));
    assert_eq!(state.get_active_streams().len(), 0);
    assert_eq!(state.get_server_stats(5).total_streams, 0);
}
