//! The status codes that responses carry, as plain numbers.
//!
//! The numbers themselves are taken from `http::StatusCode`, so that a
//! response built here always agrees with the constants the HTTP stack uses.

use vstd::prelude::*;

verus! {

/// `200 OK`.
pub const OK: u16 = 200;

/// `201 Created`.
pub const CREATED: u16 = 201;

/// `400 Bad Request`.
pub const BAD_REQUEST: u16 = 400;

/// `404 Not Found`.
pub const NOT_FOUND: u16 = 404;

/// `413 Payload Too Large`.
pub const PAYLOAD_TOO_LARGE: u16 = 413;

/// `500 Internal Server Error`.
pub const INTERNAL_SERVER_ERROR: u16 = 500;

/// Whether `code` lies in the success class, 200 to 299.
pub open spec fn is_success(code: u16) -> bool {
    200 <= code < 300
}

/// Whether `code` lies in the client-error class, 400 to 499.
pub open spec fn is_client_error(code: u16) -> bool {
    400 <= code < 500
}

/// Whether `code` lies in the server-error class, 500 to 599.
pub open spec fn is_server_error(code: u16) -> bool {
    500 <= code < 600
}

/// Trusted: `http::StatusCode::OK.as_u16()`. The `http` crate defines the
/// constant `OK` with the number 200, and `as_u16` returns that number.
#[verifier::external_body]
pub(crate) fn ok() -> (code: u16)
    ensures
        code == OK,
{
    axum::http::StatusCode::OK.as_u16()
}

/// Trusted: `http::StatusCode::CREATED.as_u16()`. The `http` crate defines
/// the constant `CREATED` with the number 201, and `as_u16` returns that
/// number.
#[verifier::external_body]
pub(crate) fn created() -> (code: u16)
    ensures
        code == CREATED,
{
    axum::http::StatusCode::CREATED.as_u16()
}

/// Trusted: `http::StatusCode::BAD_REQUEST.as_u16()`. The `http` crate
/// defines the constant `BAD_REQUEST` with the number 400, and `as_u16`
/// returns that number.
#[verifier::external_body]
pub(crate) fn bad_request() -> (code: u16)
    ensures
        code == BAD_REQUEST,
{
    axum::http::StatusCode::BAD_REQUEST.as_u16()
}

/// Trusted: `http::StatusCode::NOT_FOUND.as_u16()`. The `http` crate defines
/// the constant `NOT_FOUND` with the number 404, and `as_u16` returns that
/// number.
#[verifier::external_body]
pub(crate) fn not_found() -> (code: u16)
    ensures
        code == NOT_FOUND,
{
    axum::http::StatusCode::NOT_FOUND.as_u16()
}

/// Trusted: `http::StatusCode::PAYLOAD_TOO_LARGE.as_u16()`. The `http` crate
/// defines the constant `PAYLOAD_TOO_LARGE` with the number 413, and `as_u16`
/// returns that number.
#[verifier::external_body]
pub(crate) fn payload_too_large() -> (code: u16)
    ensures
        code == PAYLOAD_TOO_LARGE,
{
    axum::http::StatusCode::PAYLOAD_TOO_LARGE.as_u16()
}

/// Trusted: `http::StatusCode::INTERNAL_SERVER_ERROR.as_u16()`. The `http`
/// crate defines the constant `INTERNAL_SERVER_ERROR` with the number 500,
/// and `as_u16` returns that number.
#[verifier::external_body]
pub(crate) fn internal_server_error() -> (code: u16)
    ensures
        code == INTERNAL_SERVER_ERROR,
{
    axum::http::StatusCode::INTERNAL_SERVER_ERROR.as_u16()
}

} // verus!
