//! Failures of the assembly stage.

use vstd::prelude::*;

verus! {

/// Why combining two decoded images failed.
#[derive(Debug, Clone, Copy, PartialEq, Eq, Structural)]
pub enum ImageDataErrors {
    /// The composited bytes do not fit the output's allocation.
    BufferTooSmall,
    /// The two inputs were read from different container formats.
    DifferentImageFormats,
}

impl ImageDataErrors {
    /// The variant's name, as the message shown for it.
    pub fn name(&self) -> (r: &'static str)
        ensures
            *self == ImageDataErrors::BufferTooSmall ==> r@ == "BufferTooSmall"@,
            *self == ImageDataErrors::DifferentImageFormats ==> r@ == "DifferentImageFormats"@,
    {
        match self {
            ImageDataErrors::BufferTooSmall => "BufferTooSmall",
            ImageDataErrors::DifferentImageFormats => "DifferentImageFormats",
        }
    }
}

} // verus!
