//! The records of the event log. The functions here put a record together;
//! emitting it is left to the caller.

use vstd::prelude::*;
use crate::fs::error::{Error, ToErrno};
use crate::fs::error_metadata::{
    clone_text,
    ErrorMetadata,
    MOUNTPOINT_ERROR_INTERNAL,
    MOUNTPOINT_ERROR_UNSUPPORTED,
};

verus! {

/// The version of the records' schema.
pub const EVENT_VERSION: &'static str = "1";

/// The record of a filesystem operation that failed.
#[derive(Debug)]
pub struct FsErrorEvent {
    pub operation: String,
    pub request_id: u64,
    pub error_code: String,
    pub errno: i32,
    pub internal_message: String,
    pub object_key: Option<String>,
    pub bucket_name: Option<String>,
    pub upstream_http_status: Option<i32>,
    pub upstream_error_code: Option<String>,
    pub upstream_error_message: Option<String>,
    pub version: &'static str,
}

/// The record of a filesystem operation that is not supported.
#[derive(Debug)]
pub struct UnsupportedEvent {
    pub operation: String,
    pub request_id: u64,
    pub error_code: &'static str,
    pub version: &'static str,
}

/// The error code that is logged for a failure with this metadata: the one
/// that the metadata names, else the code for internal errors.
pub open spec fn resolved_error_code(metadata: ErrorMetadata) -> Seq<char> {
    match metadata.error_code {
        Some(code) => code@,
        None => MOUNTPOINT_ERROR_INTERNAL@,
    }
}

/// The HTTP status that the backend answered with, where the metadata holds
/// one.
pub open spec fn upstream_http_status(metadata: ErrorMetadata) -> Option<i32> {
    match metadata.upstream {
        Some(upstream) => upstream.http_status,
        None => None,
    }
}

/// The error code that the backend answered with, where the metadata holds
/// one.
pub open spec fn upstream_error_code(metadata: ErrorMetadata) -> Option<String> {
    match metadata.upstream {
        Some(upstream) => upstream.error_code,
        None => None,
    }
}

/// The message that the backend answered with, where the metadata holds
/// one.
pub open spec fn upstream_error_message(metadata: ErrorMetadata) -> Option<String> {
    match metadata.upstream {
        Some(upstream) => upstream.error_message,
        None => None,
    }
}

/// The record of the failure `error` of the operation `fuse_operation` in
/// the request `fuse_request_id`.
pub fn log_fs_error_event(error: &Error, fuse_operation: &str, fuse_request_id: u64) -> (event:
    FsErrorEvent)
    ensures
        event.operation@ == fuse_operation@,
        event.request_id == fuse_request_id,
        event.error_code@ == resolved_error_code(error@.metadata),
        error@.errno.is_number(event.errno as int),
        event.internal_message@ == error@.text(),
        event.object_key == error@.metadata.object_key,
        event.bucket_name == error@.metadata.bucket_name,
        event.upstream_http_status == upstream_http_status(error@.metadata),
        event.upstream_error_code == upstream_error_code(error@.metadata),
        event.upstream_error_message == upstream_error_message(error@.metadata),
        event.version@ == "1"@,
{
    let metadata = error.meta();
    let error_code = match &metadata.error_code {
        Some(error_code) => error_code.clone(),
        None => MOUNTPOINT_ERROR_INTERNAL.to_owned(),
    };
    let (upstream_http_status, upstream_error_code, upstream_error_message) =
        match &metadata.upstream {
        Some(upstream) => (
            upstream.http_status,
            clone_text(&upstream.error_code),
            clone_text(&upstream.error_message),
        ),
        None => (None, None, None),
    };
    FsErrorEvent {
        operation: fuse_operation.to_owned(),
        request_id: fuse_request_id,
        error_code,
        errno: error.to_errno().raw(),
        internal_message: error.to_text(),
        object_key: clone_text(&metadata.object_key),
        bucket_name: clone_text(&metadata.bucket_name),
        upstream_http_status,
        upstream_error_code,
        upstream_error_message,
        version: EVENT_VERSION,
    }
}

/// The record of the operation `fuse_operation`, which is not supported, in
/// the request `fuse_request_id`.
pub fn log_unsupported_event(fuse_operation: &str, fuse_request_id: u64) -> (event:
    UnsupportedEvent)
    ensures
        event.operation@ == fuse_operation@,
        event.request_id == fuse_request_id,
        event.error_code@ == MOUNTPOINT_ERROR_UNSUPPORTED@,
        event.version@ == "1"@,
{
    UnsupportedEvent {
        operation: fuse_operation.to_owned(),
        request_id: fuse_request_id,
        error_code: MOUNTPOINT_ERROR_UNSUPPORTED,
        version: EVENT_VERSION,
    }
}

} // verus!
