//! Shared pixel-format description.

use vstd::prelude::*;

verus! {

/// Pixel layout of an image buffer.
#[derive(Debug, Clone, Copy, PartialEq, Eq, Hash, Structural)]
pub enum PixelFormat {
    /// 8-bit single-channel grayscale.
    Mono8,
    /// 8-bit 3-channel blue-green-red interleaved (OpenCV default).
    Bgr8,
    /// 8-bit 3-channel red-green-blue interleaved.
    Rgb8,
}

impl PixelFormat {
    /// Number of channels of a pixel in this format.
    pub open spec fn spec_channels(self) -> u32 {
        match self {
            PixelFormat::Mono8 => 1,
            PixelFormat::Bgr8 => 3,
            PixelFormat::Rgb8 => 3,
        }
    }

    /// Number of channels per pixel for this format.
    #[verifier::when_used_as_spec(spec_channels)]
    pub fn channels(self) -> (c: u32)
        ensures
            c == self.spec_channels(),
    {
        match self {
            PixelFormat::Mono8 => 1,
            PixelFormat::Bgr8 => 3,
            PixelFormat::Rgb8 => 3,
        }
    }

    /// Bytes occupied by a single pixel: one byte per channel for 8-bit formats.
    pub fn bytes_per_pixel(self) -> (b: u32)
        ensures
            b == self.spec_channels(),
    {
        self.channels()
    }
}

} // verus!
