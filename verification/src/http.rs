//! Plain values that pass between the client and the transport.
//!
//! The client hands the transport a [`Request`]; whoever owns the transport
//! sends it, decodes the body of the response, and hands back a [`Reply`].

use crate::annotations::model::{AnnotationRequest, AnnotationRequestView};
use crate::error::{ClientError, TransportError};
use vstd::prelude::*;

verus! {

/// The HTTP method of a request.
#[derive(Debug, Clone, Copy, PartialEq, Eq, Structural)]
pub enum Method {
    Get,
    Post,
    Put,
    Delete,
}

/// One HTTP request for the transport to send.
#[derive(Debug, Clone, PartialEq, Eq)]
pub struct Request {
    pub method: Method,
    /// Path and query, relative to the base URL of the service.
    pub path: String,
    /// The payload to send as the JSON body, if the request has one.
    pub body: Option<AnnotationRequest>,
}

/// A [`Request`] as mathematical values.
pub struct RequestView {
    pub method: Method,
    pub path: Seq<char>,
    pub body: Option<AnnotationRequestView>,
}

impl View for Request {
    type V = RequestView;

    open spec fn view(&self) -> RequestView {
        RequestView {
            method: self.method,
            path: self.path@,
            body: match self.body {
                Some(payload) => Some(payload@),
                None => None,
            },
        }
    }
}

/// What came back for a request, where `T` is what the operation yields.
#[derive(Debug, Clone, PartialEq, Eq)]
pub enum Reply<T> {
    /// The transport failed.
    Failed(TransportError),
    /// A response arrived, but its body is not JSON of the shape of `T`; the
    /// text is the decoder's.
    Malformed(String),
    /// A response arrived and its body decoded to this value.
    Decoded(T),
}

impl<T> Reply<T> {
    /// What the caller of the operation gets for this reply.
    ///
    /// A decoded value is returned as it is, and a failure of the transport is
    /// handed on unchanged. A body that could not be decoded always ends in
    /// [`ClientError::Deserialize`], never in a value.
    pub fn into_result(self) -> (r: Result<T, ClientError>)
        ensures
            match self {
                Reply::Failed(failure) => r == Err::<T, ClientError>(
                    ClientError::Transport(failure),
                ),
                Reply::Malformed(text) => r == Err::<T, ClientError>(
                    ClientError::Deserialize(text),
                ),
                Reply::Decoded(value) => r == Ok::<T, ClientError>(value),
            },
    {
        match self {
            Reply::Failed(failure) => Err(ClientError::Transport(failure)),
            Reply::Malformed(text) => Err(ClientError::Deserialize(text)),
            Reply::Decoded(value) => Ok(value),
        }
    }
}

} // verus!
