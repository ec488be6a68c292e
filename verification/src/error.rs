//! The error taxonomy of the engine.

use vstd::prelude::*;

verus! {

/// Every failure the engine can report.
///
/// - `TransferFailed`: network or I/O failure while fetching.
/// - `IntegrityMismatch`: a digest did not match its expected value after a fetch.
/// - `UnsupportedAlgorithm`: an unknown digest algorithm tag.
/// - `UnsupportedArchiveFormat`: an archive name with an unknown extension.
/// - `InvalidPath`: a destination path could not be derived or created.
/// - `RuntimeNotFound`: no installed runtime matches the requested version.
/// - `ParseError`: a malformed manifest, index or archive document.
#[derive(Clone, Copy, Debug, PartialEq, Eq, Structural)]
pub enum Error {
    TransferFailed,
    IntegrityMismatch,
    UnsupportedAlgorithm,
    UnsupportedArchiveFormat,
    InvalidPath,
    RuntimeNotFound,
    ParseError,
}

impl Error {
    /// A short human-readable description of the error.
    pub fn message(&self) -> (r: &'static str)
        ensures
            *self == Error::TransferFailed ==> r@ == "transfer failed"@,
            *self == Error::IntegrityMismatch ==> r@ == "hash mismatch"@,
            *self == Error::UnsupportedAlgorithm ==> r@ == "unsupported hash function"@,
            *self == Error::UnsupportedArchiveFormat ==> r@ == "unsupported archive format"@,
            *self == Error::InvalidPath ==> r@ == "invalid path"@,
            *self == Error::RuntimeNotFound ==> r@ == "no runtime found"@,
            *self == Error::ParseError ==> r@ == "malformed document"@,
    {
        match self {
            Error::TransferFailed => "transfer failed",
            Error::IntegrityMismatch => "hash mismatch",
            Error::UnsupportedAlgorithm => "unsupported hash function",
            Error::UnsupportedArchiveFormat => "unsupported archive format",
            Error::InvalidPath => "invalid path",
            Error::RuntimeNotFound => "no runtime found",
            Error::ParseError => "malformed document",
        }
    }
}

} // verus!
