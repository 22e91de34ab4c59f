//! Image encoding vocabulary and the encoder interface.

use crate::error::ImageEncodingError;
use crate::mat_view::MatView;
use crate::types::PixelFormat;
use vstd::prelude::*;

verus! {

/// The output container an encoder should produce.
#[derive(Debug, Clone, Copy, PartialEq, Eq, Structural)]
pub enum EncodingKind {
    /// JPEG-encoded bytes.
    Jpeg,
    /// WebP-encoded bytes.
    Webp,
    /// No encoding; the encoder should return the raw pixel bytes verbatim.
    Raw,
}

/// Short name of an encoding.
pub open spec fn spec_name(kind: EncodingKind) -> Seq<char> {
    match kind {
        EncodingKind::Jpeg => "jpeg"@,
        EncodingKind::Webp => "webp"@,
        EncodingKind::Raw => "none"@,
    }
}

impl EncodingKind {
    /// Human-readable short name for the encoding.
    pub fn name(self) -> (n: &'static str)
        ensures
            n@ == spec_name(self),
    {
        match self {
            EncodingKind::Jpeg => "jpeg",
            EncodingKind::Webp => "webp",
            EncodingKind::Raw => "none",
        }
    }
}

/// What an encoder sees of a frame: its shape, format and bytes.
pub struct FrameSpec {
    /// Width in pixels.
    pub width: u32,
    /// Height in pixels.
    pub height: u32,
    /// Channels per pixel.
    pub channels: u32,
    /// Pixel layout.
    pub pixel_format: PixelFormat,
    /// Raw pixel bytes.
    pub data: Seq<u8>,
}

/// The frame that a view presents.
pub open spec fn frame_spec<M: MatView>(m: &M) -> FrameSpec {
    FrameSpec {
        width: m.spec_width(),
        height: m.spec_height(),
        channels: m.spec_channels(),
        pixel_format: m.spec_pixel_format(),
        data: m.spec_data(),
    }
}

/// An encoding result with its bytes taken as a sequence.
pub open spec fn bytes_result(r: Result<Vec<u8>, ImageEncodingError>) -> Result<
    Seq<u8>,
    ImageEncodingError,
> {
    match r {
        Ok(v) => Ok(v@),
        Err(e) => Err(e),
    }
}

/// Encodes a frame into a byte buffer in one of the [`EncodingKind`]s.
pub trait ImageEncoderPort {
    /// The result that encoding `frame` as `kind` gives in the encoder's current state.
    spec fn spec_encode(&self, frame: FrameSpec, kind: EncodingKind) -> Result<
        Seq<u8>,
        ImageEncodingError,
    >;

    /// Encode `frame` using `kind` and return the resulting bytes.
    fn encode<M: MatView>(&mut self, frame: &M, kind: EncodingKind) -> (r: Result<
        Vec<u8>,
        ImageEncodingError,
    >)
        ensures
            bytes_result(r) == old(self).spec_encode(frame_spec(frame), kind),
    ;
}

} // verus!
