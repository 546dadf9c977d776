//! The errors that the library's own logic reports.

use vstd::prelude::*;

verus! {

/// An error from this library's logic, one that the ElasticSearch server
/// reported, or a reply that could not be decoded.  (Errors of the transport
/// are the client's.)
#[derive(Debug)]
pub enum EsError {
    /// An internal error from this library
    EsError(String),
    /// An error reported in a JSON response from the ElasticSearch server
    EsServerError(String),
    /// A JSON reply that does not have the shape that was expected, with the
    /// decoding error's message
    JsonError(String),
}

} // verus!
