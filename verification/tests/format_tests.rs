use tg_filestreambot::cloudreve::file_list_outcome;
use tg_filestreambot::cloudreve::login_outcome;
use tg_filestreambot::cloudreve::FileListData;
use tg_filestreambot::cloudreve::FileListResponse;
use tg_filestreambot::cloudreve::FileObject;
use tg_filestreambot::cloudreve::LoginData;
use tg_filestreambot::cloudreve::LoginResponse;
use tg_filestreambot::config::Config;
use tg_filestreambot::error::AppError;
use tg_filestreambot::utils::format_duration;
use tg_filestreambot::utils::log_cache_added;
use tg_filestreambot::utils::log_cache_cleanup;
use tg_filestreambot::utils::log_cache_hit;
use tg_filestreambot::utils::log_config_info;
use tg_filestreambot::utils::log_download_completed;
use tg_filestreambot::utils::log_download_failed;
use tg_filestreambot::utils::log_download_task_created;
use tg_filestreambot::utils::log_error;
use tg_filestreambot::utils::log_request_processed;
use tg_filestreambot::utils::log_server_startup;
use tg_filestreambot::utils::log_stream_session_created;
use tg_filestreambot::utils::log_stream_session_ended;
use tg_filestreambot::utils::u64_to_string;

#[test]
fn decimal_rendering_exact() {
    assert_eq!(u64_to_string(0), "0");
    assert_eq!(u64_to_string(7), "7");
    assert_eq!(u64_to_string(10), "10");
    assert_eq!(u64_to_string(1_234_567_890), "1234567890");
    assert_eq!(u64_to_string(u64::MAX), "18446744073709551615");
}

#[test]
fn duration_rendering_exact() {
    assert_eq!(format_duration(0), "0s");
    assert_eq!(format_duration(45), "45s");
    assert_eq!(format_duration(60), "1m 0s");
    assert_eq!(format_duration(75), "1m 15s");
    assert_eq!(format_duration(3600), "1h 0m 0s");
    assert_eq!(format_duration(3725), "1h 2m 5s");
}

#[test]
fn session_log_lines_exact() {
    assert_eq!(
        log_stream_session_created("s1", "a.bin", 42),
        "Stream session created: s1 for file: a.bin (42 bytes)"
    );
    assert_eq!(
        log_stream_session_ended("s1", 10, 100),
        "Stream session ended: s1 after 10s, 100 bytes sent, 10 bytes/s"
    );
    // a zero-length session reports a zero rate instead of dividing
    assert_eq!(
        log_stream_session_ended("s1", 0, 100),
        "Stream session ended: s1 after 0s, 100 bytes sent, 0 bytes/s"
    );
}

#[test]
fn download_log_lines_exact() {
    assert_eq!(
        log_download_task_created("t1", "http://x"),
        "Download task created: t1 for URL: http://x"
    );
    assert_eq!(
        log_download_completed("t1", 1000, 4),
        "Download completed: t1 - 1000 bytes in 4s, 250 bytes/s"
    );
    assert_eq!(log_download_failed("t1", "timeout"), "Download failed: t1 - timeout");
}

#[test]
fn cache_log_lines_exact() {
    assert_eq!(log_cache_hit("abc"), "Cache hit for file: abc");
    assert_eq!(log_cache_added("abc", "a.bin"), "File added to cache: a.bin (abc)");
    assert_eq!(log_cache_cleanup(3), "Cache cleanup: removed 3 old files");
}

#[test]
fn tagged_log_lines_exact() {
    assert_eq!(log_error("boom", "server"), "Error in server: boom");
    assert_eq!(
        log_request_processed("GET", "/h1", 12, 206),
        "Request processed: GET /h1 - 206 in 12ms"
    );
    assert_eq!(
        log_server_startup("0.0.0.0", 8080),
        "Web server started on http://0.0.0.0:8080"
    );
}

#[test]
fn config_defaults_exact() {
    let c = Config::default();
    assert_eq!(c.server.port, 8080);
    assert_eq!(c.server.bind_address, "0.0.0.0");
    assert_eq!(c.server.hash_length, 6);
    assert_eq!(c.server.workers, 3);
    assert!(!c.server.has_ssl);
    assert!(c.server.fqdn.is_none());
    assert_eq!(c.telegram.api_id, 0);
    assert!(c.telegram.multi_tokens.is_empty());
    assert!(!c.cloudreve.enabled);
    assert_eq!(c.cloudreve.download_path, "/");
    assert_eq!(c.logging.level, "info");
    assert_eq!(c.logging.format, "json");
}

#[test]
fn config_log_line_exact() {
    let c = Config::default();
    assert_eq!(
        log_config_info(&c),
        "Configuration loaded: server 0.0.0.0:8080, workers 3, cloudreve disabled, log level info"
    );
}

#[test]
fn login_outcome_extracts_token() {
    let resp = LoginResponse {
        code: 0,
        data: Some(LoginData { token: String::from("tok-123") }),
        msg: String::from("ok"),
    };
    assert_eq!(login_outcome(resp).unwrap(), "tok-123");
}

#[test]
fn login_outcome_reports_failure() {
    let resp = LoginResponse { code: 1, data: None, msg: String::from("bad credentials") };
    match login_outcome(resp).unwrap_err() {
        AppError::Cloudreve(m) => assert_eq!(m, "Login failed: bad credentials"),
        other => panic!("unexpected error: {:?}", other),
    }
}

#[test]
fn login_outcome_missing_payload_fails() {
    let resp = LoginResponse { code: 0, data: None, msg: String::from("empty") };
    assert!(matches!(login_outcome(resp), Err(AppError::Cloudreve(_))));
}

#[test]
fn file_list_outcome_returns_objects() {
    let resp = FileListResponse {
        code: 0,
        data: Some(FileListData {
            objects: vec![FileObject {
                id: String::from("1"),
                name: String::from("a.bin"),
                path: String::from("/a"),
                size: 10,
                type_: String::from("file"),
                created_at: 5,
            }],
        }),
        msg: String::from("ok"),
    };
    let objects = file_list_outcome(resp, "/a").unwrap();
    assert_eq!(objects.len(), 1);
    assert_eq!(objects[0].name, "a.bin");
}

#[test]
fn file_list_outcome_names_failing_path() {
    let resp = FileListResponse { code: 2, data: None, msg: String::from("denied") };
    match file_list_outcome(resp, "/private").unwrap_err() {
        AppError::Cloudreve(m) => assert_eq!(m, "Failed to list files in path: /private"),
        other => panic!("unexpected error: {:?}", other),
    }
}
