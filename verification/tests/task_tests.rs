use tg_filestreambot::error::AppError;
use tg_filestreambot::state::DownloadStatus;
use tg_filestreambot::stream::DownloadManager;

#[test]
fn submit_then_progress_scenario() {
    let mut dm = DownloadManager::new();
    dm.create_download_task(String::from("t1"), String::from("http://x/file"), 100)
        .unwrap();
    let t = dm.get_download_progress("t1").unwrap();
    assert_eq!(t.status, DownloadStatus::Pending);
    assert_eq!(t.eta, None);

    dm.update_download_progress("t1", 50, 100, 10, 101).unwrap();
    let t = dm.get_download_progress("t1").unwrap();
    assert_eq!(t.status, DownloadStatus::Downloading);
    assert_eq!(t.eta, Some(5));
    assert_eq!(t.downloaded_size, 50);
    assert_eq!(t.total_size, 100);

    dm.update_download_progress("t1", 100, 100, 10, 102).unwrap();
    let t = dm.get_download_progress("t1").unwrap();
    assert_eq!(t.status, DownloadStatus::Completed);
    assert_eq!(t.eta, None);

    // a later failure report is a no-op on the terminal record
    dm.mark_failed("t1", String::from("boom"), 103).unwrap();
    let t = dm.get_download_progress("t1").unwrap();
    assert_eq!(t.status, DownloadStatus::Completed);
    assert_eq!(t.updated_at, 102);
}

#[test]
fn cancel_completed_stays_completed() {
    let mut dm = DownloadManager::new();
    dm.create_download_task(String::from("t1"), String::from("u"), 0).unwrap();
    dm.update_download_progress("t1", 10, 10, 1, 1).unwrap();
    assert_eq!(dm.get_download_progress("t1").unwrap().status, DownloadStatus::Completed);
    dm.mark_cancelled("t1", 2).unwrap();
    assert_eq!(dm.get_download_progress("t1").unwrap().status, DownloadStatus::Completed);
}

#[test]
fn cancel_pending_becomes_cancelled() {
    let mut dm = DownloadManager::new();
    dm.create_download_task(String::from("t1"), String::from("u"), 0).unwrap();
    dm.mark_cancelled("t1", 5).unwrap();
    let t = dm.get_download_progress("t1").unwrap();
    assert_eq!(t.status, DownloadStatus::Cancelled);
    assert_eq!(t.updated_at, 5);
}

#[test]
fn mark_failed_records_reason() {
    let mut dm = DownloadManager::new();
    dm.create_download_task(String::from("t1"), String::from("u"), 0).unwrap();
    dm.update_download_progress("t1", 1, 100, 1, 1).unwrap();
    dm.mark_failed("t1", String::from("connection reset"), 9).unwrap();
    let t = dm.get_download_progress("t1").unwrap();
    assert_eq!(t.status, DownloadStatus::Failed(String::from("connection reset")));
    assert_eq!(t.eta, None);
}

#[test]
fn unknown_task_progress_not_found() {
    let mut dm = DownloadManager::new();
    let e = dm.update_download_progress("nope", 1, 2, 3, 4).unwrap_err();
    match e {
        AppError::NotFound(m) => assert_eq!(m, "Download task nope not found"),
        other => panic!("unexpected error: {:?}", other),
    }
}

#[test]
fn eta_absent_without_rate() {
    let mut dm = DownloadManager::new();
    dm.create_download_task(String::from("t1"), String::from("u"), 0).unwrap();
    dm.update_download_progress("t1", 50, 100, 0, 1).unwrap();
    let t = dm.get_download_progress("t1").unwrap();
    assert_eq!(t.status, DownloadStatus::Downloading);
    assert_eq!(t.eta, None);
}

#[test]
fn transferred_clamped_to_total() {
    let mut dm = DownloadManager::new();
    dm.create_download_task(String::from("t1"), String::from("u"), 0).unwrap();
    dm.update_download_progress("t1", 150, 100, 10, 1).unwrap();
    let t = dm.get_download_progress("t1").unwrap();
    assert_eq!(t.downloaded_size, 100);
    assert_eq!(t.status, DownloadStatus::Completed);
}

#[test]
fn terminal_retention_sweep() {
    let mut dm = DownloadManager::new();
    dm.create_download_task(String::from("done"), String::from("u"), 100).unwrap();
    dm.update_download_progress("done", 10, 10, 1, 100).unwrap();
    dm.create_download_task(String::from("live"), String::from("u"), 100).unwrap();
    dm.update_download_progress("live", 1, 10, 1, 100).unwrap();

    // exactly at the retention boundary nothing is old enough
    assert_eq!(dm.cleanup_completed_downloads(3700, 3600), 0);
    assert_eq!(dm.len(), 2);

    // one second past the boundary the terminal record goes
    assert_eq!(dm.cleanup_completed_downloads(3701, 3600), 1);
    assert!(dm.get_download_progress("done").is_none());
    assert!(dm.get_download_progress("live").is_some());
}

#[test]
fn remove_task_is_unconditional() {
    let mut dm = DownloadManager::new();
    dm.create_download_task(String::from("t1"), String::from("u"), 0).unwrap();
    dm.remove_download_task("t1").unwrap();
    assert!(dm.get_download_progress("t1").is_none());
    // removing again is not an error
    dm.remove_download_task("t1").unwrap();
}

#[test]
fn get_all_downloads_snapshots_every_record() {
    let mut dm = DownloadManager::new();
    for i in 0..5u32 {
        dm.create_download_task(format!("t{}", i), format!("url{}", i), 0).unwrap();
    }
    let all = dm.get_all_downloads();
    assert_eq!(all.len(), 5);
    for i in 0..5u32 {
        assert!(all.iter().any(|t| t.task_id == format!("t{}", i) && t.url == format!("url{}", i)));
    }
}
