//! The request/response core of a client for the annotations resource of an
//! observability service.
//!
//! The crate performs no I/O. For each operation on the resource the
//! [`annotations::Client`] says which HTTP request has to be sent, and a
//! [`http::Reply`] says what the caller gets for what came back. Sending the
//! request and decoding the body is left to whoever owns the transport.

pub mod annotations;
pub mod error;
pub mod http;
