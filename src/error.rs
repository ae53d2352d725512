//! Errors of the decode, encode and detection entry points.
use vstd::prelude::*;
use crate::format::ImageFormat;

verus! {

/// What is known of the format that an operation could not handle.
#[derive(Clone, Debug, PartialEq, Eq)]
pub enum ImageFormatHint {
    /// The format was identified exactly, but no codec handles it.
    Exact(ImageFormat),
    /// The format was looked up by this file extension, as written, and not found.
    PathExtension(Vec<u8>),
    /// Nothing identified the format.
    Unknown,
}

/// Why a resource limit stopped an operation.
#[derive(Clone, Copy, Debug, PartialEq, Eq)]
pub enum LimitErrorKind {
    /// The memory budget cannot cover an allocation.
    InsufficientMemory,
    /// The image dimensions exceed what a codec accepts.
    DimensionError,
}

/// The failure of a decode, encode or detection request.
#[derive(Clone, Debug, PartialEq, Eq)]
pub enum ImageError {
    /// A codec rejected the input as structurally invalid.
    Decoding(ImageFormatHint),
    /// A codec could not encode the given pixels.
    Encoding(ImageFormatHint),
    /// A resource limit was exceeded.
    Limits(LimitErrorKind),
    /// The format is not recognised, or no codec for it is available.
    Unsupported(ImageFormatHint),
    /// The underlying stream failed; the message describes how.
    IoError(String),
}

} // verus!
