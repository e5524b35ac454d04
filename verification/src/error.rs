//! The ways in which combining two images can fail.

use vstd::prelude::*;

verus! {

/// Every failure ends the run: nothing is retried and nothing is written.
#[derive(Debug, Clone, Copy, PartialEq, Eq, Structural)]
pub enum ImageDataErrors {
    /// A source file cannot be opened, or its pixel data cannot be parsed.
    Decode,
    /// The container format of a source file cannot be determined.
    FormatDetection,
    /// The two sources have different container formats.
    DifferentFormat,
    /// Pixel data handed to a buffer is not as long as the buffer's declared
    /// capacity, whether shorter or longer.
    BufferTooSmall,
    /// The combined image cannot be written.
    Encode,
}

} // verus!
