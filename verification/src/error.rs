//! Error taxonomy for the service core.
//!
//! Registry lookups report the common "not found" case through an absent
//! value (`Option`/`Result` with `NotFound`); only genuinely exceptional
//! conditions such as malformed ranges get their own kind. Nothing here is
//! fatal to the process.

use vstd::prelude::*;

verus! {

#[derive(Debug, Clone)]
pub enum AppError {
    Telegram(String),
    Http(String),
    Io(String),
    Json(String),
    Config(String),
    FileNotFound,
    InvalidHash,
    Cloudreve(String),
    Download(String),
    Request(String),
    Stream(String),
    InternalError(String),
    NotFound(String),
    InvalidRange,
}

pub type AppResult<T> = Result<T, AppError>;

} // verus!
