//! The error taxonomy: every failure mode the client or the API can produce,
//! and the mapping from HTTP status codes to named errors.

use vstd::prelude::*;

verus! {

/// Every error the client library can return.
///
/// Construction-time errors (`InvalidEndpoint`, `MissingCredentials`) are
/// caller-fixable before any I/O. Compose-time errors (`NotBlankURLError`,
/// `ScopeRequired`, `InvalidCredentials`) are usage errors detected before
/// any network call. The HTTP family reports server-side failures with the
/// status code preserved.
#[derive(Debug, Clone, PartialEq)]
pub enum ZoteroError {
    /// A required parameter was not passed to an API call.
    ParamNotPassed { required: String },
    /// The named call is not a valid API call (for example, its URL could
    /// not be assembled).
    InvalidAPICall { call: String },
    /// Parameters not supported by the named API call.
    UnsupportedParams { call: String, unsupported: Vec<String> },
    /// The user is not authorized to perform the action.
    NotAuthorized { user: String },
    /// Too many items were passed to a write method.
    TooManyItems,
    /// No API key was supplied to the builder.
    MissingCredentials,
    /// The endpoint string did not parse as an absolute URL.
    InvalidEndpoint,
    /// Items were created or updated with invalid fields.
    InvalidItemFields { invalid: Vec<String> },
    /// The named resource was not found.
    ResourceNotFound { resource: String },
    /// A non-2xx HTTP status with no more specific classification.
    HTTPError(u32),
    /// 409: the library is locked.
    Conflict,
    /// 412: the write token has already been submitted.
    PreConditionFailed,
    /// 413: the upload would exceed the owner's storage quota.
    RequestEntityTooLarge,
    /// 428: If-Match or If-None-Match was not provided.
    PreConditionRequired,
    /// 429: too many unfinished uploads.
    TooManyRequests,
    /// Request composition started from a URL that is not the bare endpoint.
    NotBlankURLError,
    /// A scoped operation was attempted before a library scope was set.
    ScopeRequired,
    /// The API key cannot be carried in an HTTP header.
    InvalidCredentials,
    /// The key-info response was malformed or missing the expected field.
    DiscoveryFailed,
    /// A network-level failure (connection refused, TLS, protocol).
    TransportError,
    /// The transport timed out or was cancelled; kept distinct from other
    /// transport failures, never reinterpreted as another kind.
    TransportTimeout,
    /// The named file does not exist.
    FileDoesNotExist { file: String },
    /// The backoff period for new requests would exceed 32 seconds.
    TooManyRetries,
    /// The connection dropped during an upload.
    UploadError,
}

/// The error that a non-2xx HTTP status code maps to.
pub open spec fn status_error(code: u16) -> ZoteroError {
    if code == 409 {
        ZoteroError::Conflict
    } else if code == 412 {
        ZoteroError::PreConditionFailed
    } else if code == 413 {
        ZoteroError::RequestEntityTooLarge
    } else if code == 428 {
        ZoteroError::PreConditionRequired
    } else if code == 429 {
        ZoteroError::TooManyRequests
    } else {
        ZoteroError::HTTPError(code as u32)
    }
}

/// Classify an HTTP status code: success for 2xx, the exact named error for
/// the statuses the API documents, and a generic `HTTPError` preserving the
/// code for every other non-2xx status.
pub fn classify_status(code: u16) -> (r: Result<(), ZoteroError>)
    ensures
        r is Ok <==> 200 <= code < 300,
        r is Err ==> r->Err_0 == status_error(code),
{
    if 200 <= code && code < 300 {
        Ok(())
    } else if code == 409 {
        Err(ZoteroError::Conflict)
    } else if code == 412 {
        Err(ZoteroError::PreConditionFailed)
    } else if code == 413 {
        Err(ZoteroError::RequestEntityTooLarge)
    } else if code == 428 {
        Err(ZoteroError::PreConditionRequired)
    } else if code == 429 {
        Err(ZoteroError::TooManyRequests)
    } else {
        Err(ZoteroError::HTTPError(code as u32))
    }
}

} // verus!
