//! Request and response records of the third-party file-management API,
//! and the verified interpretation of its login answer.
//!
//! The HTTP client that actually talks to that API lives in the
//! embedding program; the core only decides what an answer means.

use crate::error::AppError;
use vstd::prelude::*;

verus! {

/// Credentials sent to the login endpoint.
#[derive(Debug, Clone)]
pub struct LoginRequest {
    pub username: String,
    pub password: String,
}

/// Payload of a successful login.
#[derive(Debug, Clone)]
pub struct LoginData {
    pub token: String,
}

/// Answer of the login endpoint.
#[derive(Debug, Clone)]
pub struct LoginResponse {
    pub code: i32,
    pub data: Option<LoginData>,
    pub msg: String,
}

/// Body sent to create a remote download.
#[derive(Debug, Clone)]
pub struct CreateDownloadRequest {
    pub url: String,
    pub path: String,
    pub tool: Option<String>,
}

/// One remote download task as the API reports it; the creation instant
/// is carried as seconds since the epoch.
#[derive(Debug, Clone)]
pub struct DownloadTask {
    pub id: String,
    pub status: String,
    pub error: Option<String>,
    pub progress: i32,
    pub total: i64,
    pub created_at: u64,
}

/// One remote file as the API reports it.
#[derive(Debug, Clone)]
pub struct FileObject {
    pub id: String,
    pub name: String,
    pub path: String,
    pub size: i64,
    pub type_: String,
    pub created_at: u64,
}

/// Payload of a directory listing.
#[derive(Debug, Clone)]
pub struct FileListData {
    pub objects: Vec<FileObject>,
}

/// Answer of the directory-listing endpoint.
#[derive(Debug, Clone)]
pub struct FileListResponse {
    pub code: i32,
    pub data: Option<FileListData>,
    pub msg: String,
}

/// What a directory-listing answer means: the listed objects exactly
/// when the answer carries code zero and a payload, and otherwise the
/// listing failure naming the path that was asked for.
pub fn file_list_outcome(resp: FileListResponse, path: &str) -> (r: Result<
    Vec<FileObject>,
    AppError,
>)
    ensures
        resp.code == 0 && resp.data is Some ==> (r matches Ok(objects) && objects
            == resp.data->0.objects),
        !(resp.code == 0 && resp.data is Some) ==> (r matches Err(e) && e matches
            AppError::Cloudreve(m) && m@ == "Failed to list files in path: "@ + path@),
{
    if resp.code == 0 {
        match resp.data {
            Some(data) => {
                return Ok(data.objects);
            },
            None => {},
        }
    }
    let mut m = String::from_str("Failed to list files in path: ");
    m.append(path);
    Err(AppError::Cloudreve(m))
}

/// What a login answer means: the session token exactly when the answer
/// carries code zero and a payload, and otherwise the login failure with
/// the server's message.
pub fn login_outcome(resp: LoginResponse) -> (r: Result<String, AppError>)
    ensures
        resp.code == 0 && resp.data is Some ==> (r matches Ok(t) && t == resp.data->0.token),
        !(resp.code == 0 && resp.data is Some) ==> (r matches Err(e) && e matches
            AppError::Cloudreve(m) && m@ == "Login failed: "@ + resp.msg@),
{
    if resp.code == 0 {
        match resp.data {
            Some(data) => {
                return Ok(data.token);
            },
            None => {},
        }
    }
    let mut m = String::from_str("Login failed: ");
    m.append(resp.msg.as_str());
    Err(AppError::Cloudreve(m))
}

} // verus!
