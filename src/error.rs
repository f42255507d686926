//! Errors of parsing and of lookups.
use vstd::prelude::*;

verus! {

/// Why the backing reader, or the decoding of what it gave, failed.
#[derive(Clone, Copy, Debug, PartialEq, Eq, Structural)]
pub enum IoErrorKind {
    /// Fewer bytes were available than a size field declared.
    UnexpectedEof,
    /// Any other failure of the reader or of decompression.
    Other,
}

/// Why an archive could not be opened.
#[derive(Clone, Copy, Debug, PartialEq, Eq, Structural)]
pub enum ParseError {
    /// A magic number, a header field or a cross-index is out of range.
    MalformedArchive,
    /// The backing reader failed.
    FileRead(IoErrorKind),
}

/// Why a lookup failed. The archive stays usable after any of them.
#[derive(Clone, Copy, Debug, PartialEq, Eq, Structural)]
pub enum LookupError {
    /// The backing reader failed, or a payload could not be decoded.
    FileRead(IoErrorKind),
    /// The payload is compressed with something other than zstd.
    UnsupportedCompression,
    /// No row matches the requested hash.
    Missing,
}

impl LookupError {
    /// A description of the error.
    pub fn message(&self) -> (r: &'static str)
        ensures
            r@ == match self {
                LookupError::FileRead(_) => "failed to read the file"@,
                LookupError::UnsupportedCompression => "unsupported compression type, only zstd is supported"@,
                LookupError::Missing => "the requested resource could not be found"@,
            },
    {
        match self {
            LookupError::FileRead(_) => "failed to read the file",
            LookupError::UnsupportedCompression => "unsupported compression type, only zstd is supported",
            LookupError::Missing => "the requested resource could not be found",
        }
    }
}

} // verus!
