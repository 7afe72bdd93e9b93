//! The ways in which a request can fail, each with its status code.

use vstd::prelude::*;
use crate::status;

verus! {

/// Why a request was not served.
#[derive(Clone, Copy, Debug, PartialEq, Eq, Structural)]
pub enum RequestError {
    /// The body could not be decoded into the shape the handler declares.
    DecodeError,
    /// No route is registered for the method and path.
    NotFound,
    /// The body exceeds the upload limit.
    PayloadTooLarge,
    /// The uploaded file could not be written.
    IOError,
}

impl RequestError {
    /// The status code that reports this error.
    pub open spec fn status_spec(self) -> u16 {
        match self {
            RequestError::DecodeError => status::BAD_REQUEST,
            RequestError::NotFound => status::NOT_FOUND,
            RequestError::PayloadTooLarge => status::PAYLOAD_TOO_LARGE,
            RequestError::IOError => status::INTERNAL_SERVER_ERROR,
        }
    }

    /// Whether the client is to blame for this error: true of every error
    /// but a failed write.
    pub open spec fn is_client_fault(self) -> bool {
        !(self is IOError)
    }

    /// The status code that reports this error.
    pub fn status(self) -> (code: u16)
        ensures
            code == self.status_spec(),
    {
        match self {
            RequestError::DecodeError => status::bad_request(),
            RequestError::NotFound => status::not_found(),
            RequestError::PayloadTooLarge => status::payload_too_large(),
            RequestError::IOError => status::internal_server_error(),
        }
    }
}

/// Two different errors are never reported with the same status code.
pub proof fn lemma_status_is_injective(a: RequestError, b: RequestError)
    ensures
        a.status_spec() == b.status_spec() <==> a == b,
{
}

/// An error is reported in the client-error class exactly when the client is
/// to blame, and in the server-error class otherwise; never as a success.
pub proof fn lemma_status_class(e: RequestError)
    ensures
        status::is_client_error(e.status_spec()) <==> e.is_client_fault(),
        status::is_server_error(e.status_spec()) <==> !e.is_client_fault(),
        !status::is_success(e.status_spec()),
{
}

} // verus!
