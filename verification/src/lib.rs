//! Core engine of a file-streaming service: an in-memory, expiring object
//! cache, a download-task progress tracker, an active-stream-session
//! registry, byte-range resolution for partial-content responses, and a
//! statistics snapshot combiner.

pub mod cloudreve;
pub mod config;
pub mod error;
pub mod server;
pub mod state;
pub mod stream;
pub mod utils;

pub use error::AppError;
pub use error::AppResult;
pub use state::AppState;
pub use state::DownloadProgress;
pub use state::DownloadStatus;
pub use state::FileInfo;
pub use state::ServerStats;
pub use state::StreamInfo;
