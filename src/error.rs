use vstd::prelude::*;

verus! {

/// Why a response body could not be turned into text for filtering.
#[derive(Debug, Clone, PartialEq, Eq)]
pub enum InternalError {
    /// The body carries a content encoding that the worker cannot undo.
    EncodingNotSupported,
    /// The body could not be decompressed, or is not valid UTF-8; the text
    /// says what went wrong.
    DecodingFailed(String),
}

impl InternalError {
    /// The human readable description of the error kind.
    pub fn message(&self) -> (r: String)
        ensures
            r@ == (match *self {
                InternalError::EncodingNotSupported => "Encoding not compressed"@,
                InternalError::DecodingFailed(_) => "Decoding response failed"@,
            }),
    {
        match self {
            InternalError::EncodingNotSupported => String::from_str("Encoding not compressed"),
            InternalError::DecodingFailed(_) => String::from_str("Decoding response failed"),
        }
    }
}

} // verus!
