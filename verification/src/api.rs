//! Domain errors on the HTTP wire: the status each code is served with, and
//! the code a client reads back from a status.
use vstd::prelude::*;

use crate::error::{CrewError, ErrorBody, ErrorCode};
use crate::store::StoreError;

verus! {

/// The HTTP status a server answers an error code with.
pub open spec fn http_status(code: ErrorCode) -> u16 {
    match code {
        ErrorCode::Validation => 400,
        ErrorCode::NotFound => 404,
        ErrorCode::IllegalTransition => 409,
        ErrorCode::Storage => 503,
        ErrorCode::Unimplemented => 501,
        ErrorCode::Internal | ErrorCode::Unreachable => 500,
    }
}

/// The error code a client reads from an HTTP error status; `None` for a
/// status outside the mapping (success among them).
pub open spec fn code_of_http_status(status: u16) -> Option<ErrorCode> {
    if status == 400 || status == 422 {
        Some(ErrorCode::Validation)
    } else if status == 404 {
        Some(ErrorCode::NotFound)
    } else if status == 409 {
        Some(ErrorCode::IllegalTransition)
    } else if status == 500 {
        Some(ErrorCode::Internal)
    } else if status == 503 {
        Some(ErrorCode::Storage)
    } else {
        None
    }
}

/// Error code to HTTP status. `Unreachable` is a client-side condition that
/// a server never emits; it falls to 500 with `Internal`.
pub fn status_for(code: ErrorCode) -> (s: u16)
    ensures
        s == http_status(code),
{
    match code {
        ErrorCode::Validation => 400,
        ErrorCode::NotFound => 404,
        ErrorCode::IllegalTransition => 409,
        ErrorCode::Storage => 503,
        ErrorCode::Unimplemented => 501,
        ErrorCode::Internal | ErrorCode::Unreachable => 500,
    }
}

impl ErrorCode {
    /// HTTP status to error code, as a client maps a server's answer.
    pub fn from_http_status(status: u16) -> (c: Option<ErrorCode>)
        ensures
            c == code_of_http_status(status),
    {
        if status == 400 || status == 422 {
            Some(ErrorCode::Validation)
        } else if status == 404 {
            Some(ErrorCode::NotFound)
        } else if status == 409 {
            Some(ErrorCode::IllegalTransition)
        } else if status == 500 {
            Some(ErrorCode::Internal)
        } else if status == 503 {
            Some(ErrorCode::Storage)
        } else {
            None
        }
    }
}

/// A code that a server emits crosses the wire unchanged: the client reads
/// back the same code, and so reports the same exit status.
pub proof fn lemma_status_round_trip(code: ErrorCode)
    requires
        code != ErrorCode::Unreachable,
        code != ErrorCode::Unimplemented,
    ensures
        code_of_http_status(http_status(code)) == Some(code),
        code_of_http_status(http_status(code))->0.exit_status() == code.exit_status(),
{
}

/// Every server error answers with a 4xx or 5xx status, so a client never
/// mistakes one for success.
pub proof fn lemma_errors_are_never_success(code: ErrorCode)
    ensures
        400 <= http_status(code) <= 599,
{
}

/// A domain error on its way to an HTTP response.
#[derive(Debug)]
pub struct ApiError(pub CrewError);

impl From<CrewError> for ApiError {
    fn from(err: CrewError) -> (e: ApiError)
        ensures
            e.0 == err,
    {
        ApiError(err)
    }
}

impl vstd::std_specs::convert::FromSpecImpl<CrewError> for ApiError {
    open spec fn obeys_from_spec() -> bool {
        true
    }

    open spec fn from_spec(err: CrewError) -> ApiError {
        ApiError(err)
    }
}

/// A storage failure becomes a `storage` error carrying its text.
impl From<StoreError> for ApiError {
    fn from(err: StoreError) -> (e: ApiError)
        ensures
            e.0 matches CrewError::Storage(m) && m@ == err.display_text(),
    {
        ApiError(CrewError::from(err))
    }
}

/// The message is a `String` built at run time, which no spec function can
/// construct; the exact result is stated on `from` itself instead.
impl vstd::std_specs::convert::FromSpecImpl<StoreError> for ApiError {
    open spec fn obeys_from_spec() -> bool {
        false
    }

    open spec fn from_spec(err: StoreError) -> ApiError {
        ApiError(CrewError::Storage(vstd::pervasive::arbitrary()))
    }
}

impl ApiError {
    /// The HTTP status of the response.
    pub fn status(&self) -> (s: u16)
        ensures
            s == http_status(self.0.error_code()),
    {
        status_for(self.0.code())
    }

    /// The JSON body of the response.
    pub fn body(&self) -> (b: ErrorBody)
        ensures
            b.error.code == self.0.error_code(),
            b.error.message@ == self.0.display_text(),
    {
        ErrorBody::from(&self.0)
    }
}

} // verus!
