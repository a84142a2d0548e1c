use vstd::prelude::*;

verus! {

/// How an operation against the dictionary service can fail.
#[derive(Debug)]
pub enum UrbanDictionaryError {
    /// The network request could not be sent or its response could not be read.
    TransportError,
    /// The response body is not valid JSON, or does not match the expected shape.
    DecodeError,
    /// The request succeeded and decoded correctly, but the service returned no entries.
    EmptyResult,
}

} // verus!
