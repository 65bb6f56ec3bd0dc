//! Errors of the image-combining core.

use vstd::prelude::*;

verus! {

/// Why two images could not be combined.
#[derive(Debug, Clone, Copy, PartialEq, Eq, Structural)]
pub enum ImageDataErr {
    /// The two inputs were stored in different file formats.
    DifferentImageFormats,
    /// An image has a width or a height of zero.
    ZeroAreaImage,
    /// An image is too large for the two to be brought to one size.
    ImageTooLarge,
    /// Two pixel buffers that must be woven together differ in length.
    LengthMismatch,
    /// A pixel buffer ends in the middle of a pixel, so a four-byte group
    /// would reach past its end.
    PixelOutOfBounds,
    /// Data handed to an output image is longer than the room reserved for it.
    BufferCapacityExceeded,
}

} // verus!
