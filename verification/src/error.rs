//! The errors an operation on the annotations resource can end in.

use vstd::prelude::*;

verus! {

/// A failure reported by the transport: the request got no successful answer.
#[derive(Debug, Clone, PartialEq, Eq)]
pub enum TransportError {
    /// No response arrived: the connection could not be made or broke.
    Connection(String),
    /// The service answered with a status that is not a success, such as 404
    /// for an identifier it does not know; the text is what it said.
    Status(u16, String),
}

/// Why an operation did not yield its value.
#[derive(Debug, Clone, PartialEq, Eq)]
pub enum ClientError {
    /// The transport failed; its failure is handed on unchanged.
    Transport(TransportError),
    /// The query parameters could not be encoded; the text is the encoder's.
    Serialize(String),
    /// The response body does not have the shape the operation expects; the
    /// text is the decoder's.
    Deserialize(String),
}

} // verus!
