//! Clipboard content types.

use vstd::prelude::*;

verus! {

/// The kinds of content the clipboard can hold.
#[derive(Debug, Copy, Clone, PartialEq, Eq, Structural)]
pub enum MimeType {
    /// UTF-8 text.
    Text,
    /// Raw image data.
    RawImage,
    /// Png image.
    PngImage,
}

/// Clipboard content tagged with its kind.
#[derive(Debug, Clone)]
pub enum ClipboardMimedContent {
    Text(String),
    RawImage(RawImage),
    PngImage(Vec<u8>),
}

/// An uncompressed image.
#[derive(Debug, Clone)]
pub struct RawImage {
    width: usize,
    height: usize,
    buffer: Vec<u8>,
}

/// A failed clipboard operation.
#[derive(Debug, Copy, Clone, PartialEq, Eq, Structural)]
pub enum Error {
    Failed,
}

impl Error {
    /// The human-readable description of the error.
    pub fn message(&self) -> (r: &'static str)
        ensures
            r@ == "Clipboard operation failed."@,
    {
        proof {
            reveal_strlit("Clipboard operation failed.");
        }
        "Clipboard operation failed."
    }
}

} // verus!
