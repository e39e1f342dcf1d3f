//! The HTTP range-serving path: byte-range resolution and the exact
//! response headers a request for a cached object is owed.
//!
//! `resolve_range` is pure; `handle_stream_request` strings the pieces
//! together: object-cache lookup, range resolution, session creation,
//! header derivation. Listening, parsing and writing sockets belong to
//! the embedding program.

use crate::error::AppError;
use crate::state::AppState;
use crate::state::FileInfo;
use crate::state::StreamInfo;
use crate::state::sat_add;
use crate::stream::spec_lookup;
use crate::utils::push_u64;
use crate::utils::spec_dec;
use vstd::prelude::*;

verus! {

/// Whether a response covers the whole object or only part of it.
#[derive(Debug, Clone, Copy, PartialEq, Eq, Structural)]
pub enum RangeStatus {
    Full,
    Partial,
}

/// A validated absolute byte range within an object.
#[derive(Debug, Clone, Copy, PartialEq, Eq, Structural)]
pub struct ResolvedRange {
    pub start: u64,
    pub end: u64,
    pub content_length: u64,
    pub status: RangeStatus,
}

/// The effective range start: the requested one, or zero.
pub open spec fn range_start(requested_start: Option<u64>) -> u64 {
    match requested_start {
        Some(s) => s,
        None => 0,
    }
}

/// The effective range end: the requested one — clamped to the last byte
/// when it overshoots, since overshoot is client laxness, not an error —
/// or the last byte of the object.
pub open spec fn range_end(size_bytes: u64, requested_end: Option<u64>) -> u64
    recommends
        size_bytes > 0,
{
    match requested_end {
        Some(e) => if e > (size_bytes - 1) as u64 {
            (size_bytes - 1) as u64
        } else {
            e
        },
        None => (size_bytes - 1) as u64,
    }
}

/// A request is invalid exactly when the object is empty, the effective
/// start lies past the effective end, or the start lies outside the
/// object.
pub open spec fn range_invalid(
    size_bytes: u64,
    requested_start: Option<u64>,
    requested_end: Option<u64>,
) -> bool {
    ||| size_bytes == 0
    ||| range_start(requested_start) > range_end(size_bytes, requested_end)
    ||| range_start(requested_start) >= size_bytes
}

/// Turns an object size and an optional client-requested byte range into
/// a validated absolute range, classified as full or partial content.
pub fn resolve_range(
    size_bytes: u64,
    requested_start: Option<u64>,
    requested_end: Option<u64>,
) -> (r: Result<ResolvedRange, AppError>)
    ensures
        r is Err <==> range_invalid(size_bytes, requested_start, requested_end),
        r matches Err(e) ==> e is InvalidRange,
        r matches Ok(rr) ==> {
            &&& rr.start == range_start(requested_start)
            &&& rr.end == range_end(size_bytes, requested_end)
            &&& rr.content_length == rr.end - rr.start + 1
            &&& rr.status is Full <==> (rr.start == 0 && rr.end == size_bytes - 1)
        },
{
    if size_bytes == 0 {
        return Err(AppError::InvalidRange);
    }
    let start: u64 = match requested_start {
        Some(s) => s,
        None => 0,
    };
    let last: u64 = size_bytes - 1;
    let end: u64 = match requested_end {
        Some(e) => if e > last {
            last
        } else {
            e
        },
        None => last,
    };
    if start > end || start >= size_bytes {
        return Err(AppError::InvalidRange);
    }
    let status = if start == 0 && end == last {
        RangeStatus::Full
    } else {
        RangeStatus::Partial
    };
    Ok(ResolvedRange { start, end, content_length: end - start + 1, status })
}

/// The response headers derived from a descriptor and a validated range.
#[derive(Debug, Clone)]
pub struct StreamResponseHeaders {
    pub status_code: u16,
    pub content_type: String,
    pub accept_ranges: String,
    pub cache_control: String,
    pub content_range: String,
    pub content_length: String,
    pub content_disposition: String,
}

/// Derives the exact response headers for serving `[start, end]` of the
/// described object: `200` for the full object, `206` for a part, with
/// the `bytes {start}-{end}/{total}` content-range line.
pub fn build_stream_response(file_info: &FileInfo, start: u64, end: u64) -> (r: Result<
    StreamResponseHeaders,
    AppError,
>)
    requires
        start <= end < file_info.file_size,
    ensures
        r matches Ok(h) ==> {
            &&& h.status_code == (if start == 0 && end == file_info.file_size - 1 {
                200u16
            } else {
                206u16
            })
            &&& h.content_type == file_info.mime_type
            &&& h.accept_ranges@ == "bytes"@
            &&& h.cache_control@ == "public, max-age=3600"@
            &&& h.content_range@ == "bytes "@ + spec_dec(start as int) + "-"@ + spec_dec(
                end as int,
            ) + "/"@ + spec_dec(file_info.file_size as int)
            &&& h.content_length@ == spec_dec((end - start + 1) as int)
            &&& h.content_disposition@ == "inline; filename=\""@ + file_info.file_name@ + "\""@
        },
        r is Ok,
{
    let status_code: u16 = if start == 0 && end == file_info.file_size - 1 {
        200
    } else {
        206
    };
    let mut content_range = String::from_str("bytes ");
    push_u64(&mut content_range, start);
    content_range.append("-");
    push_u64(&mut content_range, end);
    content_range.append("/");
    push_u64(&mut content_range, file_info.file_size);
    let mut content_length = String::new();
    push_u64(&mut content_length, end - start + 1);
    proof {
        assert(Seq::<char>::empty() + spec_dec((end - start + 1) as int) =~= spec_dec(
            (end - start + 1) as int,
        ));
    }
    let mut content_disposition = String::from_str("inline; filename=\"");
    content_disposition.append(file_info.file_name.as_str());
    content_disposition.append("\"");
    Ok(
        StreamResponseHeaders {
            status_code,
            content_type: file_info.mime_type.clone(),
            accept_ranges: String::from_str("bytes"),
            cache_control: String::from_str("public, max-age=3600"),
            content_range,
            content_length,
            content_disposition,
        },
    )
}

/// Serves one range request from the shared state: resolves the hash in
/// the object cache (404 when unknown or expired), validates the range
/// (400 when malformed), opens a delivery session, and derives the
/// response headers.
pub fn handle_stream_request(
    state: &mut AppState,
    hash: &str,
    requested_start: Option<u64>,
    requested_end: Option<u64>,
    client_ip: String,
    now: u64,
) -> (r: Result<(StreamInfo, StreamResponseHeaders), AppError>)
    requires
        old(state).wf(),
    ensures
        final(state).wf(),
        spec_lookup(old(state).file_cache.entries(), hash@, now) is None ==> {
            &&& r matches Err(e) && e matches AppError::NotFound(m) && m@ == "File with hash "@
                + hash@ + " not found"@
            &&& final(state).active_streams == old(state).active_streams
            &&& final(state).stats() == old(state).stats()
        },
        spec_lookup(old(state).file_cache.entries(), hash@, now) matches Some(info) ==> {
            &&& range_invalid(info.file_size, requested_start, requested_end) ==> {
                &&& r matches Err(e) && e is InvalidRange
                &&& final(state).active_streams == old(state).active_streams
                &&& final(state).stats() == old(state).stats()
            }
            &&& !range_invalid(info.file_size, requested_start, requested_end) ==> (r matches Ok(
                out,
            ) && {
                &&& out.0.file_hash@ == hash@
                &&& out.0.file_name == info.file_name
                &&& out.0.file_size == info.file_size
                &&& out.0.start_time == now
                &&& out.0.client_ip == client_ip
                &&& final(state).active_streams.sessions() == old(
                    state,
                ).active_streams.sessions().insert(out.0.session_id@, out.0)
                &&& final(state).stats().total_streams == sat_add(
                    old(state).stats().total_streams,
                    1,
                )
                &&& out.1.status_code == (if range_start(requested_start) == 0 && range_end(
                    info.file_size,
                    requested_end,
                ) == info.file_size - 1 {
                    200u16
                } else {
                    206u16
                })
                &&& out.1.content_range@ == "bytes "@ + spec_dec(
                    range_start(requested_start) as int,
                ) + "-"@ + spec_dec(range_end(info.file_size, requested_end) as int) + "/"@
                    + spec_dec(info.file_size as int)
                &&& out.1.content_length@ == spec_dec(
                    (range_end(info.file_size, requested_end) - range_start(requested_start)
                        + 1) as int,
                )
                &&& out.1.content_type == info.mime_type
                &&& out.1.content_disposition@ == "inline; filename=\""@ + info.file_name@ + "\""@
            })
        },
        final(state).file_cache == old(state).file_cache,
        final(state).download_progress == old(state).download_progress,
        final(state).start_time == old(state).start_time,
{
    let file_info = match state.get_file_from_cache(hash, now) {
        Some(info) => info,
        None => {
            let mut m = String::from_str("File with hash ");
            m.append(hash);
            m.append(" not found");
            return Err(AppError::NotFound(m));
        },
    };
    let range = match resolve_range(file_info.file_size, requested_start, requested_end) {
        Ok(rr) => rr,
        Err(e) => {
            return Err(e);
        },
    };
    let session_id = crate::stream::new_unique_id();
    let session = StreamInfo {
        session_id: session_id,
        file_hash: String::from_str(hash),
        file_name: file_info.file_name.clone(),
        file_size: file_info.file_size,
        start_time: now,
        client_ip: client_ip,
    };
    let session_copy = session.clone_record();
    state.create_stream_session(session);
    let headers = match build_stream_response(&file_info, range.start, range.end) {
        Ok(h) => h,
        Err(e) => {
            return Err(e);
        },
    };
    Ok((session_copy, headers))
}

} // verus!
