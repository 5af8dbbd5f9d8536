//! The diagnostic fields that travel with a failure.

use vstd::prelude::*;

verus! {

/// The error code reported for a failure whose metadata names none.
pub const MOUNTPOINT_ERROR_INTERNAL: &'static str = "error.internal";

/// The error code reported for an operation that is not supported.
pub const MOUNTPOINT_ERROR_UNSUPPORTED: &'static str = "error.unsupported";

/// A copy of an optional string.
pub fn clone_text(text: &Option<String>) -> (copy: Option<String>)
    ensures
        copy == *text,
{
    match text {
        Some(s) => Some(s.clone()),
        None => None,
    }
}

/// What the backend client reported of a failure.
#[derive(Debug)]
pub struct UpstreamError {
    pub http_status: Option<i32>,
    pub error_code: Option<String>,
    pub error_message: Option<String>,
}

impl Clone for UpstreamError {
    fn clone(&self) -> (copy: UpstreamError)
        ensures
            copy == *self,
    {
        UpstreamError {
            http_status: self.http_status,
            error_code: clone_text(&self.error_code),
            error_message: clone_text(&self.error_message),
        }
    }
}

/// Diagnostic fields attached to a failure by whichever layer knows them.
/// Nothing of it reaches the filesystem's caller; it is for the log.
#[derive(Debug)]
pub struct ErrorMetadata {
    /// Present only where the failure came from the backend client.
    pub upstream: Option<UpstreamError>,
    pub error_code: Option<String>,
    pub bucket_name: Option<String>,
    pub object_key: Option<String>,
}

impl ErrorMetadata {
    /// Metadata in which every field is absent.
    pub open spec fn empty(self) -> bool {
        &&& self.upstream is None
        &&& self.error_code is None
        &&& self.bucket_name is None
        &&& self.object_key is None
    }
}

impl Default for ErrorMetadata {
    fn default() -> (metadata: ErrorMetadata)
        ensures
            metadata.empty(),
    {
        ErrorMetadata { upstream: None, error_code: None, bucket_name: None, object_key: None }
    }
}

impl Clone for ErrorMetadata {
    fn clone(&self) -> (copy: ErrorMetadata)
        ensures
            copy == *self,
    {
        let upstream = match &self.upstream {
            Some(upstream) => Some(upstream.clone()),
            None => None,
        };
        ErrorMetadata {
            upstream,
            error_code: clone_text(&self.error_code),
            bucket_name: clone_text(&self.bucket_name),
            object_key: clone_text(&self.object_key),
        }
    }
}

} // verus!
