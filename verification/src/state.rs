//! Shared-state data model: cached object descriptors, download-task
//! progress records with their lifecycle state machine, active stream
//! sessions, and the server statistics snapshot.
//!
//! Timestamps are absolute instants in whole seconds; durations are in
//! seconds as well. The embedding program supplies the current instant on
//! each call, so everything here is deterministic in its arguments.

use crate::error::AppError;
use crate::stream::CacheEntry;
use crate::stream::DownloadManager;
use crate::stream::FileCache;
use crate::stream::FileStreamManager;
use crate::stream::retained_sessions;
use crate::stream::retained_tasks;
use crate::stream::spec_lookup;
use crate::stream::unexpired_part;
use vstd::prelude::*;

verus! {

/// Descriptor of a retrievable object, keyed by its content hash.
///
/// Immutable once registered; destroyed by explicit removal or expiry.
#[derive(Debug, Clone)]
pub struct FileInfo {
    pub file_id: String,
    pub file_name: String,
    pub file_size: u64,
    pub mime_type: String,
    pub hash: String,
    pub created_at: u64,
    pub expires_at: u64,
}

impl FileInfo {
    /// A descriptor is well formed when its expiry lies after its creation.
    pub open spec fn wf(self) -> bool {
        self.expires_at > self.created_at
    }
}

/// Lifecycle state of a retrieval task.
///
/// `Completed`, `Failed` and `Cancelled` are terminal: no transition leads
/// out of them.
#[derive(Debug, Clone, PartialEq, Eq)]
pub enum DownloadStatus {
    Pending,
    Downloading,
    Completed,
    Failed(String),
    Cancelled,
}

/// Whether a status is a terminal sink.
pub open spec fn is_terminal(s: DownloadStatus) -> bool {
    match s {
        DownloadStatus::Completed => true,
        DownloadStatus::Failed(_) => true,
        DownloadStatus::Cancelled => true,
        _ => false,
    }
}

/// Executable test for a terminal status.
pub fn status_is_terminal(s: &DownloadStatus) -> (r: bool)
    ensures
        r == is_terminal(*s),
{
    match s {
        DownloadStatus::Completed => true,
        DownloadStatus::Failed(_) => true,
        DownloadStatus::Cancelled => true,
        _ => false,
    }
}

/// Progress record of one in-flight or finished retrieval task.
#[derive(Debug, Clone)]
pub struct DownloadProgress {
    pub task_id: String,
    pub url: String,
    pub speed: u64,
    pub eta: Option<u64>,
    pub status: DownloadStatus,
    pub total_size: u64,
    pub downloaded_size: u64,
    pub started_at: u64,
    pub updated_at: u64,
}

/// The estimated seconds to completion owed to a record: present exactly
/// while the task is running with a known positive rate and work left,
/// and then equal to `(total - downloaded) / speed`.
pub open spec fn spec_eta(t: DownloadProgress) -> Option<u64> {
    if t.status is Downloading && t.speed > 0 && t.downloaded_size < t.total_size {
        Some(((t.total_size - t.downloaded_size) as int / t.speed as int) as u64)
    } else {
        None
    }
}

impl DownloadProgress {
    /// Internal consistency of a record: transferred bytes never exceed a
    /// known total, and the stored estimate is the one owed.
    pub open spec fn wf(self) -> bool {
        &&& self.total_size > 0 ==> self.downloaded_size <= self.total_size
        &&& self.eta == spec_eta(self)
    }
}

/// A fresh record for a just-submitted task.
pub open spec fn spec_new_task(task_id: String, url: String, now: u64) -> DownloadProgress {
    DownloadProgress {
        task_id: task_id,
        url: url,
        speed: 0,
        eta: None,
        status: DownloadStatus::Pending,
        total_size: 0,
        downloaded_size: 0,
        started_at: now,
        updated_at: now,
    }
}

/// Builds the record a newly submitted task starts from.
pub fn new_task(task_id: String, url: String, now: u64) -> (r: DownloadProgress)
    ensures
        r == spec_new_task(task_id, url, now),
        r.wf(),
{
    DownloadProgress {
        task_id: task_id,
        url: url,
        speed: 0,
        eta: None,
        status: DownloadStatus::Pending,
        total_size: 0,
        downloaded_size: 0,
        started_at: now,
        updated_at: now,
    }
}

/// The record after one progress report.
///
/// A terminal record is a sink and is returned unchanged. Otherwise the
/// byte counters and rate are replaced (transferred clamped to a known
/// total), the task moves to `Downloading` — or straight to `Completed`
/// once a known total is reached — and the estimate is recomputed.
pub open spec fn spec_apply_progress(
    t: DownloadProgress,
    transferred: u64,
    total: u64,
    speed: u64,
    now: u64,
) -> DownloadProgress {
    if is_terminal(t.status) {
        t
    } else {
        let clamped: u64 = if total > 0 && transferred > total {
            total
        } else {
            transferred
        };
        let status = if total > 0 && clamped >= total {
            DownloadStatus::Completed
        } else {
            DownloadStatus::Downloading
        };
        let base = DownloadProgress {
            speed: speed,
            eta: None,
            status: status,
            total_size: total,
            downloaded_size: clamped,
            updated_at: now,
            ..t
        };
        DownloadProgress { eta: spec_eta(base), ..base }
    }
}

/// Applies one progress report to a record.
pub fn apply_progress(t: &DownloadProgress, transferred: u64, total: u64, speed: u64, now: u64) -> (
    r: DownloadProgress)
    ensures
        r == spec_apply_progress(*t, transferred, total, speed, now),
        t.wf() ==> r.wf(),
{
    if status_is_terminal(&t.status) {
        return t.clone_record();
    }
    let clamped: u64 = if total > 0 && transferred > total {
        total
    } else {
        transferred
    };
    let status = if total > 0 && clamped >= total {
        DownloadStatus::Completed
    } else {
        DownloadStatus::Downloading
    };
    let eta: Option<u64> = if status_is_downloading(&status) && speed > 0 && clamped < total {
        Some((total - clamped) / speed)
    } else {
        None
    };
    DownloadProgress {
        task_id: t.task_id.clone(),
        url: t.url.clone(),
        speed: speed,
        eta: eta,
        status: status,
        total_size: total,
        downloaded_size: clamped,
        started_at: t.started_at,
        updated_at: now,
    }
}

fn status_is_downloading(s: &DownloadStatus) -> (r: bool)
    ensures
        r == (*s is Downloading),
{
    match s {
        DownloadStatus::Downloading => true,
        _ => false,
    }
}

fn clone_status(s: &DownloadStatus) -> (r: DownloadStatus)
    ensures
        r == *s,
{
    match s {
        DownloadStatus::Pending => DownloadStatus::Pending,
        DownloadStatus::Downloading => DownloadStatus::Downloading,
        DownloadStatus::Completed => DownloadStatus::Completed,
        DownloadStatus::Failed(reason) => DownloadStatus::Failed(reason.clone()),
        DownloadStatus::Cancelled => DownloadStatus::Cancelled,
    }
}

impl DownloadProgress {
    /// A field-exact copy of the record.
    pub fn clone_record(&self) -> (r: DownloadProgress)
        ensures
            r == *self,
    {
        DownloadProgress {
            task_id: self.task_id.clone(),
            url: self.url.clone(),
            speed: self.speed,
            eta: self.eta,
            status: clone_status(&self.status),
            total_size: self.total_size,
            downloaded_size: self.downloaded_size,
            started_at: self.started_at,
            updated_at: self.updated_at,
        }
    }
}

/// The record after an explicit failure report: terminal records are left
/// alone, any other moves to `Failed` with the given reason.
pub open spec fn spec_mark_failed(t: DownloadProgress, reason: String, now: u64)
    -> DownloadProgress {
    if is_terminal(t.status) {
        t
    } else {
        let base = DownloadProgress {
            status: DownloadStatus::Failed(reason),
            eta: None,
            updated_at: now,
            ..t
        };
        base
    }
}

/// The record after a cancellation: terminal records are left alone, any
/// other moves to `Cancelled`.
pub open spec fn spec_mark_cancelled(t: DownloadProgress, now: u64) -> DownloadProgress {
    if is_terminal(t.status) {
        t
    } else {
        DownloadProgress { status: DownloadStatus::Cancelled, eta: None, updated_at: now, ..t }
    }
}

/// Marks a record failed, leaving terminal records unchanged.
pub fn mark_failed_record(t: &DownloadProgress, reason: String, now: u64) -> (r: DownloadProgress)
    ensures
        r == spec_mark_failed(*t, reason, now),
        t.wf() ==> r.wf(),
{
    if status_is_terminal(&t.status) {
        t.clone_record()
    } else {
        DownloadProgress {
            task_id: t.task_id.clone(),
            url: t.url.clone(),
            speed: t.speed,
            eta: None,
            status: DownloadStatus::Failed(reason),
            total_size: t.total_size,
            downloaded_size: t.downloaded_size,
            started_at: t.started_at,
            updated_at: now,
        }
    }
}

/// Cancels a record, leaving terminal records unchanged.
pub fn mark_cancelled_record(t: &DownloadProgress, now: u64) -> (r: DownloadProgress)
    ensures
        r == spec_mark_cancelled(*t, now),
        t.wf() ==> r.wf(),
{
    if status_is_terminal(&t.status) {
        t.clone_record()
    } else {
        DownloadProgress {
            task_id: t.task_id.clone(),
            url: t.url.clone(),
            speed: t.speed,
            eta: None,
            status: DownloadStatus::Cancelled,
            total_size: t.total_size,
            downloaded_size: t.downloaded_size,
            started_at: t.started_at,
            updated_at: now,
        }
    }
}

/// Law: a terminal record is a sink — no progress report, failure report
/// or cancellation changes it. In particular a completed task stays
/// completed.
pub proof fn lemma_terminal_is_sink(
    t: DownloadProgress,
    transferred: u64,
    total: u64,
    speed: u64,
    reason: String,
    now: u64,
)
    requires
        is_terminal(t.status),
    ensures
        spec_apply_progress(t, transferred, total, speed, now) == t,
        spec_mark_failed(t, reason, now) == t,
        spec_mark_cancelled(t, now) == t,
{
}

/// Law: the state machine is monotone — once a record is terminal it
/// stays terminal under every operation, and every operation leaves the
/// record either unchanged or in a successor state of the lifecycle.
pub proof fn lemma_transitions_stay_terminal(
    t: DownloadProgress,
    transferred: u64,
    total: u64,
    speed: u64,
    reason: String,
    now: u64,
)
    requires
        is_terminal(t.status),
    ensures
        is_terminal(spec_apply_progress(t, transferred, total, speed, now).status),
        is_terminal(spec_mark_failed(t, reason, now).status),
        is_terminal(spec_mark_cancelled(t, now).status),
{
}

/// One active range-delivery session. The `file_hash` is a value-copied
/// key into the object cache, not a live reference: the object may expire
/// independently of the session.
#[derive(Debug, Clone)]
pub struct StreamInfo {
    pub session_id: String,
    pub file_hash: String,
    pub file_name: String,
    pub file_size: u64,
    pub start_time: u64,
    pub client_ip: String,
}

impl StreamInfo {
    /// A field-exact copy of the session record.
    pub fn clone_record(&self) -> (r: StreamInfo)
        ensures
            r == *self,
    {
        StreamInfo {
            session_id: self.session_id.clone(),
            file_hash: self.file_hash.clone(),
            file_name: self.file_name.clone(),
            file_size: self.file_size,
            start_time: self.start_time,
            client_ip: self.client_ip.clone(),
        }
    }
}

/// Statistics snapshot: live counts recomputed on each read, plus
/// monotonic process-lifetime accumulators that sweeps never decrement.
#[derive(Debug, Clone, Copy, PartialEq, Eq)]
pub struct ServerStats {
    pub uptime: u64,
    pub active_streams: u64,
    pub total_streams: u64,
    pub active_downloads: u64,
    pub total_downloads: u64,
    pub cached_files: usize,
    pub total_requests: u64,
    pub bytes_served: u64,
    pub start_time: u64,
}

/// Default capacity bound of the shared object cache.
pub const DEFAULT_CACHE_CAPACITY: usize = 1000;

/// Age ceiling for delivery sessions swept by the shared state, in
/// seconds.
pub const STREAM_MAX_AGE_SECS: u64 = 1800;

/// Retention window for terminal download records, in seconds.
pub const DOWNLOAD_RETENTION_SECS: u64 = 3600;

/// The saturating sum of two counters.
pub open spec fn sat_add(a: u64, b: u64) -> u64 {
    if a + b > u64::MAX {
        u64::MAX
    } else {
        (a + b) as u64
    }
}

/// The whole shared state: the three registries plus the statistics
/// accumulators. Each registry exclusively owns its entries; the only
/// cross-reference is the session's value-copied object hash.
pub struct AppState {
    pub file_cache: FileCache,
    pub download_progress: DownloadManager,
    pub active_streams: FileStreamManager,
    pub server_stats: ServerStats,
    pub start_time: u64,
}

impl AppState {
    /// The stored statistics accumulators.
    pub open spec fn stats(self) -> ServerStats {
        self.server_stats
    }

    /// Well-formedness of the whole state.
    pub open spec fn wf(self) -> bool {
        &&& self.file_cache.wf()
        &&& self.download_progress.wf()
        &&& self.active_streams.wf()
        &&& self.stats().start_time == self.start_time
    }

    /// Creates the empty state, started at instant `now`.
    pub fn new(now: u64) -> (r: AppState)
        ensures
            r.wf(),
            r.file_cache.entries() == crate::stream::cache_empty(),
            r.file_cache.capacity() == DEFAULT_CACHE_CAPACITY,
            r.download_progress.tasks() == crate::stream::task_empty(),
            r.active_streams.sessions() == crate::stream::session_empty(),
            r.start_time == now,
            r.stats().uptime == 0,
            r.stats().total_streams == 0,
            r.stats().total_downloads == 0,
            r.stats().total_requests == 0,
            r.stats().bytes_served == 0,
            r.stats().start_time == now,
    {
        let server_stats = ServerStats {
            uptime: 0,
            active_streams: 0,
            total_streams: 0,
            active_downloads: 0,
            total_downloads: 0,
            cached_files: 0,
            total_requests: 0,
            bytes_served: 0,
            start_time: now,
        };
        AppState {
            file_cache: FileCache::new(DEFAULT_CACHE_CAPACITY),
            download_progress: DownloadManager::new(),
            active_streams: FileStreamManager::new(),
            server_stats,
            start_time: now,
        }
    }

    /// Registers a descriptor in the object cache under its hash,
    /// evicting the oldest entries first when the cache is full.
    pub fn add_file_to_cache(&mut self, file_info: FileInfo) -> (r: Result<(), AppError>)
        requires
            old(self).wf(),
            old(self).file_cache.seq_counter() < u64::MAX,
            file_info.wf(),
        ensures
            final(self).wf(),
            r is Ok,
            final(self).file_cache.entries().dom().contains(file_info.hash@),
            final(self).file_cache.entries()[file_info.hash@].info == file_info,
            old(self).file_cache.entries().dom().len() < old(self).file_cache.capacity() ==> final(self).file_cache.entries() == old(self).file_cache.entries().insert(
                file_info.hash@,
                (CacheEntry { seq: old(self).file_cache.seq_counter(), info: file_info }),
            ),
            old(self).file_cache.entries().dom().len() <= old(self).file_cache.capacity() && old(self).file_cache.capacity() >= 2 ==> final(self).file_cache.entries().dom().len() <= old(self).file_cache.capacity(),
            forall|kr: Seq<char>, kk: Seq<char>|
                #![trigger old(self).file_cache.entries().dom().contains(kr), final(self).file_cache.entries().dom().contains(kk)]
                old(self).file_cache.entries().dom().contains(kr) && !final(self).file_cache.entries().dom().contains(kr) && final(self).file_cache.entries().dom().contains(kk) && kr != file_info.hash@ && kk
                    != file_info.hash@ ==> crate::stream::entry_le(
                    old(self).file_cache.entries()[kr],
                    old(self).file_cache.entries()[kk],
                ),
            final(self).file_cache.capacity() == old(self).file_cache.capacity(),
            final(self).download_progress == old(self).download_progress,
            final(self).active_streams == old(self).active_streams,
            final(self).stats() == old(self).stats(),
            final(self).start_time == old(self).start_time,
    {
        let hash = file_info.hash.clone();
        self.file_cache.add_file(hash.as_str(), file_info)
    }

    /// Looks an object up by hash; an expired entry is reported absent.
    pub fn get_file_from_cache(&self, hash: &str, now: u64) -> (r: Option<FileInfo>)
        ensures
            r == spec_lookup(self.file_cache.entries(), hash@, now),
    {
        self.file_cache.get_file(hash, now)
    }

    /// Removes an object from the cache, returning its descriptor if it
    /// was present.
    pub fn remove_file_from_cache(&mut self, hash: &str) -> (r: Option<FileInfo>)
        requires
            old(self).wf(),
        ensures
            final(self).wf(),
            final(self).file_cache.entries() == old(self).file_cache.entries().remove(hash@),
            final(self).file_cache.capacity() == old(self).file_cache.capacity(),
            r == (if old(self).file_cache.entries().dom().contains(hash@) {
                Some(old(self).file_cache.entries()[hash@].info)
            } else {
                None::<FileInfo>
            }),
            final(self).download_progress == old(self).download_progress,
            final(self).active_streams == old(self).active_streams,
            final(self).stats() == old(self).stats(),
            final(self).start_time == old(self).start_time,
    {
        self.file_cache.remove_file(hash)
    }

    /// Sweeps expired objects out of the cache, returning how many were
    /// removed; the sweep itself never fails.
    pub fn cleanup_expired_files(&mut self, now: u64) -> (r: Result<usize, AppError>)
        requires
            old(self).wf(),
        ensures
            final(self).wf(),
            final(self).file_cache.entries() == unexpired_part(old(self).file_cache.entries(), now),
            final(self).file_cache.capacity() == old(self).file_cache.capacity(),
            r matches Ok(count) && count as nat == old(self).file_cache.entries().dom().len()
                - final(self).file_cache.entries().dom().len(),
            final(self).download_progress == old(self).download_progress,
            final(self).active_streams == old(self).active_streams,
            final(self).stats() == old(self).stats(),
            final(self).start_time == old(self).start_time,
    {
        let count = self.file_cache.cleanup_expired_files(now);
        Ok(count)
    }

    /// Submits a retrieval task for `url` under a freshly generated task
    /// id, returns the id, and counts the submission in the lifetime
    /// accumulator.
    pub fn create_download_progress(&mut self, url: String, now: u64) -> (r: String)
        requires
            old(self).wf(),
        ensures
            final(self).wf(),
            final(self).download_progress.tasks() == old(self).download_progress.tasks().insert(
                r@,
                crate::state::spec_new_task(r, url, now),
            ),
            final(self).stats().total_downloads == sat_add(old(self).stats().total_downloads, 1),
            final(self).stats().total_streams == old(self).stats().total_streams,
            final(self).stats().total_requests == old(self).stats().total_requests,
            final(self).stats().bytes_served == old(self).stats().bytes_served,
            final(self).file_cache == old(self).file_cache,
            final(self).active_streams == old(self).active_streams,
            final(self).start_time == old(self).start_time,
    {
        let task_id = crate::stream::new_unique_id();
        let returned = task_id.clone();
        let _ = self.download_progress.create_download_task(task_id, url, now);
        self.server_stats.total_downloads = if self.server_stats.total_downloads < u64::MAX {
            self.server_stats.total_downloads + 1
        } else {
            u64::MAX
        };
        returned
    }

    /// Applies one progress report to the task under `task_id`, failing
    /// with `NotFound` exactly when the id is unknown.
    pub fn update_download_progress(
        &mut self,
        task_id: &str,
        transferred: u64,
        total: u64,
        speed: u64,
        now: u64,
    ) -> (r: Result<(), AppError>)
        requires
            old(self).wf(),
        ensures
            final(self).wf(),
            r is Ok <==> old(self).download_progress.tasks().dom().contains(task_id@),
            r is Ok ==> final(self).download_progress.tasks() == old(self).download_progress.tasks().insert(
                task_id@,
                spec_apply_progress(
                    old(self).download_progress.tasks()[task_id@],
                    transferred,
                    total,
                    speed,
                    now,
                ),
            ),
            r is Err ==> final(self).download_progress.tasks() == old(self).download_progress.tasks(),
            r matches Err(e) ==> e matches AppError::NotFound(m) && m@ == "Download task "@
                + task_id@ + " not found"@,
            final(self).file_cache == old(self).file_cache,
            final(self).active_streams == old(self).active_streams,
            final(self).stats() == old(self).stats(),
            final(self).start_time == old(self).start_time,
    {
        self.download_progress.update_download_progress(task_id, transferred, total, speed, now)
    }

    /// Returns a snapshot copy of the task record under `task_id`, if
    /// any.
    pub fn get_download_progress(&self, task_id: &str) -> (r: Option<DownloadProgress>)
        ensures
            r == self.download_progress.tasks().index_opt(task_id@),
    {
        self.download_progress.get_download_progress(task_id)
    }

    /// Removes the task record under `task_id`, returning it if present.
    pub fn remove_download_progress(&mut self, task_id: &str) -> (r: Option<DownloadProgress>)
        requires
            old(self).wf(),
        ensures
            final(self).wf(),
            final(self).download_progress.tasks() == old(self).download_progress.tasks().remove(
                task_id@,
            ),
            r == old(self).download_progress.tasks().index_opt(task_id@),
            final(self).file_cache == old(self).file_cache,
            final(self).active_streams == old(self).active_streams,
            final(self).stats() == old(self).stats(),
            final(self).start_time == old(self).start_time,
    {
        let found = self.download_progress.get_download_progress(task_id);
        let _ = self.download_progress.remove_download_task(task_id);
        found
    }

    /// Returns a point-in-time copy of every task record, in no specified
    /// order.
    pub fn get_all_download_progress(&self) -> (r: Vec<DownloadProgress>)
        ensures
            r@.len() == self.download_progress.tasks().dom().len(),
            forall|i: int|
                0 <= i < r@.len() ==> crate::stream::is_value_of(
                    self.download_progress.tasks(),
                    #[trigger] r@[i],
                ),
            forall|k: Seq<char>|
                #[trigger] self.download_progress.tasks().dom().contains(k) ==> exists|i: int|
                    0 <= i < r@.len() && r@[i] == self.download_progress.tasks()[k],
    {
        self.download_progress.get_all_downloads()
    }

    /// Opens a delivery session from an already-built record, keyed by
    /// its session id, and counts it in the lifetime accumulator.
    pub fn create_stream_session(&mut self, session_info: StreamInfo)
        requires
            old(self).wf(),
        ensures
            final(self).wf(),
            final(self).active_streams.sessions() == old(self).active_streams.sessions().insert(
                session_info.session_id@,
                session_info,
            ),
            final(self).stats().total_streams == sat_add(old(self).stats().total_streams, 1),
            final(self).stats().total_downloads == old(self).stats().total_downloads,
            final(self).stats().total_requests == old(self).stats().total_requests,
            final(self).stats().bytes_served == old(self).stats().bytes_served,
            final(self).file_cache == old(self).file_cache,
            final(self).download_progress == old(self).download_progress,
            final(self).start_time == old(self).start_time,
    {
        self.active_streams.insert_session(session_info);
        self.server_stats.total_streams = if self.server_stats.total_streams < u64::MAX {
            self.server_stats.total_streams + 1
        } else {
            u64::MAX
        };
    }

    /// Closes a session; closing an unknown or already-closed session is
    /// a no-op, not an error.
    pub fn end_stream_session(&mut self, session_id: &str) -> (r: Option<StreamInfo>)
        requires
            old(self).wf(),
        ensures
            final(self).wf(),
            final(self).active_streams.sessions() == old(self).active_streams.sessions().remove(
                session_id@,
            ),
            r == old(self).active_streams.sessions().index_opt(session_id@),
            final(self).file_cache == old(self).file_cache,
            final(self).download_progress == old(self).download_progress,
            final(self).stats() == old(self).stats(),
            final(self).start_time == old(self).start_time,
    {
        self.active_streams.end_stream_session(session_id)
    }

    /// Returns a point-in-time copy of every active session, in no
    /// specified order.
    pub fn get_active_streams(&self) -> (r: Vec<StreamInfo>)
        ensures
            r@.len() == self.active_streams.sessions().dom().len(),
            forall|i: int|
                0 <= i < r@.len() ==> crate::stream::is_value_of(
                    self.active_streams.sessions(),
                    #[trigger] r@[i],
                ),
            forall|k: Seq<char>|
                #[trigger] self.active_streams.sessions().dom().contains(k) ==> exists|i: int|
                    0 <= i < r@.len() && r@[i] == self.active_streams.sessions()[k],
    {
        self.active_streams.get_active_streams()
    }

    /// Sweeps out sessions older than the fixed age ceiling, returning
    /// how many were removed; the sweep itself never fails.
    pub fn cleanup_expired_streams(&mut self, now: u64) -> (r: Result<usize, AppError>)
        requires
            old(self).wf(),
        ensures
            final(self).wf(),
            final(self).active_streams.sessions() == retained_sessions(
                old(self).active_streams.sessions(),
                now,
                STREAM_MAX_AGE_SECS,
            ),
            r matches Ok(count) && count as nat == old(self).active_streams.sessions().dom().len() - final(self).active_streams.sessions().dom().len(),
            final(self).file_cache == old(self).file_cache,
            final(self).download_progress == old(self).download_progress,
            final(self).stats() == old(self).stats(),
            final(self).start_time == old(self).start_time,
    {
        let count = self.active_streams.cleanup_expired_streams(now, STREAM_MAX_AGE_SECS);
        Ok(count)
    }

    /// Sweeps out terminal task records older than the fixed retention
    /// window, returning how many were removed; the sweep itself never
    /// fails.
    pub fn cleanup_completed_downloads(&mut self, now: u64) -> (r: Result<usize, AppError>)
        requires
            old(self).wf(),
        ensures
            final(self).wf(),
            final(self).download_progress.tasks() == retained_tasks(
                old(self).download_progress.tasks(),
                now,
                DOWNLOAD_RETENTION_SECS,
            ),
            r matches Ok(count) && count as nat == old(self).download_progress.tasks().dom().len() - final(self).download_progress.tasks().dom().len(),
            final(self).file_cache == old(self).file_cache,
            final(self).active_streams == old(self).active_streams,
            final(self).stats() == old(self).stats(),
            final(self).start_time == old(self).start_time,
    {
        let count = self.download_progress.cleanup_completed_downloads(
            now,
            DOWNLOAD_RETENTION_SECS,
        );
        Ok(count)
    }

    /// Adds to the request and served-bytes accumulators, saturating at
    /// the counter limit so the totals stay monotone.
    pub fn update_server_stats(&mut self, requests_delta: u64, bytes_delta: u64) -> (r: Result<
        (),
        AppError,
    >)
        requires
            old(self).wf(),
        ensures
            final(self).wf(),
            r is Ok,
            final(self).stats().total_requests == sat_add(
                old(self).stats().total_requests,
                requests_delta,
            ),
            final(self).stats().bytes_served == sat_add(
                old(self).stats().bytes_served,
                bytes_delta,
            ),
            final(self).stats().total_streams == old(self).stats().total_streams,
            final(self).stats().total_downloads == old(self).stats().total_downloads,
            final(self).file_cache == old(self).file_cache,
            final(self).download_progress == old(self).download_progress,
            final(self).active_streams == old(self).active_streams,
            final(self).start_time == old(self).start_time,
    {
        self.server_stats.total_requests = if self.server_stats.total_requests
            <= u64::MAX - requests_delta {
            self.server_stats.total_requests + requests_delta
        } else {
            u64::MAX
        };
        self.server_stats.bytes_served = if self.server_stats.bytes_served
            <= u64::MAX - bytes_delta {
            self.server_stats.bytes_served + bytes_delta
        } else {
            u64::MAX
        };
        Ok(())
    }

    /// Recomputes the live counts and the uptime at `now`, stores them,
    /// and returns the snapshot. Lifetime accumulators are untouched.
    pub fn get_server_stats(&mut self, now: u64) -> (r: ServerStats)
        requires
            old(self).wf(),
        ensures
            final(self).wf(),
            r == final(self).stats(),
            r.uptime == (if now >= old(self).start_time {
                now - old(self).start_time
            } else {
                0
            }),
            r.cached_files as nat == old(self).file_cache.entries().dom().len(),
            r.active_downloads as nat == old(self).download_progress.tasks().dom().len(),
            r.active_streams as nat == old(self).active_streams.sessions().dom().len(),
            r.total_streams == old(self).stats().total_streams,
            r.total_downloads == old(self).stats().total_downloads,
            r.total_requests == old(self).stats().total_requests,
            r.bytes_served == old(self).stats().bytes_served,
            r.start_time == old(self).start_time,
            final(self).file_cache == old(self).file_cache,
            final(self).download_progress == old(self).download_progress,
            final(self).active_streams == old(self).active_streams,
            final(self).start_time == old(self).start_time,
    {
        self.server_stats.uptime = if now >= self.start_time {
            now - self.start_time
        } else {
            0
        };
        self.server_stats.cached_files = self.file_cache.get_cache_size();
        let downloads = self.download_progress.len();
        let streams = self.active_streams.len();
        self.server_stats.active_downloads = downloads as u64;
        self.server_stats.active_streams = streams as u64;
        self.server_stats
    }
}

} // verus!
