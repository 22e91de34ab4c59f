//! Video capture vocabulary: backend selector and captured frames.

use crate::error::VideoCaptureError;
use crate::mat_view::MatView;
use crate::types::PixelFormat;
use vstd::prelude::*;

verus! {

/// Selector for the underlying capture backend.
#[derive(Debug, Clone, Copy, PartialEq, Eq, Hash, Structural)]
pub enum Backend {
    /// Let the backend pick whichever implementation is available.
    Auto,
    /// Force an FFmpeg-backed capture pipeline.
    Ffmpeg,
}

/// A single frame returned by a video stream.
#[derive(Debug)]
pub struct CapturedFrame {
    /// Frame width in pixels.
    pub width: u32,
    /// Frame height in pixels.
    pub height: u32,
    /// Pixel layout of [`Self::data`].
    pub pixel_format: PixelFormat,
    /// Pixel buffer.
    pub data: Vec<u8>,
}

/// Two frames carry the same shape, format and bytes.
pub open spec fn same_frame(a: CapturedFrame, b: CapturedFrame) -> bool {
    &&& a.width == b.width
    &&& a.height == b.height
    &&& a.pixel_format == b.pixel_format
    &&& a.data@ == b.data@
}

impl Clone for CapturedFrame {
    fn clone(&self) -> (c: Self)
        ensures
            same_frame(c, *self),
    {
        let data = self.data.clone();
        assert(data@ =~= self.data@);
        CapturedFrame {
            width: self.width,
            height: self.height,
            pixel_format: self.pixel_format,
            data,
        }
    }
}

impl MatView for CapturedFrame {
    open spec fn spec_width(&self) -> u32 {
        self.width
    }

    open spec fn spec_height(&self) -> u32 {
        self.height
    }

    open spec fn spec_channels(&self) -> u32 {
        self.pixel_format.spec_channels()
    }

    open spec fn spec_pixel_format(&self) -> PixelFormat {
        self.pixel_format
    }

    open spec fn spec_data(&self) -> Seq<u8> {
        self.data@
    }

    fn width(&self) -> (w: u32) {
        self.width
    }

    fn height(&self) -> (h: u32) {
        self.height
    }

    fn channels(&self) -> (c: u32) {
        self.pixel_format.channels()
    }

    fn pixel_format(&self) -> (pf: PixelFormat) {
        self.pixel_format
    }

    fn data(&self) -> (d: &[u8]) {
        self.data.as_slice()
    }
}

/// An open video stream producing frames on demand.
pub trait VideoStream {
    /// Reading from the stream in this state may give `r` and leave it in state `post`.
    spec fn reads(&self, post: &Self, r: &Result<CapturedFrame, VideoCaptureError>) -> bool;

    /// Rewinding the stream in this state may give `r` and leave it in state `post`.
    spec fn seeks(&self, post: &Self, r: &Result<(), VideoCaptureError>) -> bool;

    /// Reads the next frame; [`VideoCaptureError::EndOfStream`] when the
    /// stream is exhausted.
    fn read_frame(&mut self) -> (r: Result<CapturedFrame, VideoCaptureError>)
        ensures
            old(self).reads(&*final(self), &r),
    ;

    /// Rewind the stream so the next read returns the first frame.
    fn seek_to_start(&mut self) -> (r: Result<(), VideoCaptureError>)
        ensures
            old(self).seeks(&*final(self), &r),
    ;
}

} // verus!
