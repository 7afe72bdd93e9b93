//! A typed request dispatcher for a small HTTP service.
//!
//! A request is routed by method and path to a handler, the handler turns a
//! decoded payload into a typed response, and every failure is reported as a
//! [`error::RequestError`] with a status code of its own. Reading bytes from
//! a socket, decoding and encoding JSON, and writing files are left to the
//! caller; everything in between is stated and proved here.

pub mod dispatch;
pub mod error;
pub mod handlers;
pub mod model;
pub mod response;
pub mod router;
pub mod service;
pub mod status;
pub mod upload;
