use vstd::prelude::*;

verus! {

/// Why an operation of the client failed.
#[derive(Clone, Debug, PartialEq, Eq)]
pub enum NetSuiteError {
    /// An endpoint derived from the base URL does not parse as a URL; holds
    /// the text that failed.
    Configuration(String),
    /// The consumer key cannot be sent in an `Authorization` header.
    Authentication,
    /// The request did not complete: network, DNS or TLS failure.
    Transport(String),
    /// The server answered with this status code.
    Status(u16),
    /// A successful response body is not the expected JSON envelope.
    Decode(String),
}

} // verus!
