use vstd::prelude::*;

verus! {

/// What kind of text could not be decoded.
#[derive(Debug, Clone, Copy, PartialEq, Eq, Structural)]
pub enum DecodeKind {
    /// The body is not JSON of the expected shape.
    Json,
    /// A field that holds an integer as a string is not a decimal `u64`.
    Integer,
    /// A field that holds bytes as base64 is not valid base64.
    Base64,
}

/// Why a fetch failed.
#[derive(Debug, PartialEq, Eq)]
pub enum FetchError {
    /// The connection, TLS or the transfer of the body failed.
    Transport(String),
    /// The gateway answered with a status outside 200..=299.
    HttpStatus(u16),
    /// The body or one of its fields could not be decoded.
    Decode(DecodeKind),
    /// The binary payload is not the encoding of a single price.
    BinaryDecode,
}

} // verus!
