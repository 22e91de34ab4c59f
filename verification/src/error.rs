//! Error types of the video, encoding and image-operation interfaces.
//!
//! Each interface has its own error enum; [`OpenCvError`] is the umbrella type
//! returned by facades that may fail across any of them.

use crate::types::PixelFormat;
use vstd::prelude::*;

verus! {

/// Errors produced by video capture and by video streams.
#[derive(Debug)]
pub enum VideoCaptureError {
    /// The backend could not open the provided source path.
    OpenFailed {
        /// The path (or URL) that the backend refused to open.
        path: String,
    },
    /// An operation was invoked on a stream that is not currently open.
    NotOpen,
    /// A frame read failed for reasons other than end-of-stream.
    ReadFailed,
    /// The stream has been exhausted.
    EndOfStream,
    /// The requested backend is not available on this platform.
    UnsupportedBackend,
    /// Seeking to the requested position failed.
    SeekFailed,
    /// The backend reported a non-positive or otherwise invalid FPS.
    InvalidFps,
    /// A backend-specific error surfaced as a string.
    Backend(String),
}

/// Errors produced by image encoders.
#[derive(Debug)]
pub enum ImageEncodingError {
    /// The encoder failed for the given encoding kind.
    EncodeFailed {
        /// Human-readable name of the encoding kind (e.g. `"jpeg"`).
        kind: &'static str,
    },
    /// The encoder does not support the input's pixel format.
    UnsupportedPixelFormat(PixelFormat),
    /// A backend-specific error surfaced as a string.
    Backend(String),
}

/// Errors produced by image operations.
#[derive(Debug)]
pub enum ImageOpsError {
    /// Two inputs did not agree on `(width, height, channels)` or on their pixel format.
    DimensionMismatch {
        /// Dimensions of the left-hand input as `(width, height, channels)`.
        lhs: (u32, u32, u32),
        /// Dimensions of the right-hand input as `(width, height, channels)`.
        rhs: (u32, u32, u32),
    },
    /// The operation does not support the input's pixel format.
    UnsupportedPixelFormat(PixelFormat),
    /// The operation does not support the requested source/destination conversion.
    UnsupportedConversion {
        /// Source pixel format.
        src: PixelFormat,
        /// Destination pixel format.
        dst: PixelFormat,
    },
    /// A parameter was out of range or otherwise invalid.
    InvalidParameter(&'static str),
    /// The input buffer was empty where a non-empty one was required.
    EmptyInput,
    /// A backend-specific error surfaced as a string.
    Backend(String),
}

/// Umbrella error type spanning every interface.
#[derive(Debug)]
pub enum OpenCvError {
    /// A [`VideoCaptureError`] occurred.
    VideoCapture(VideoCaptureError),
    /// An [`ImageEncodingError`] occurred.
    ImageEncoding(ImageEncodingError),
    /// An [`ImageOpsError`] occurred.
    ImageOps(ImageOpsError),
}

impl From<VideoCaptureError> for OpenCvError {
    fn from(e: VideoCaptureError) -> (r: Self) {
        OpenCvError::VideoCapture(e)
    }
}

impl vstd::std_specs::convert::FromSpecImpl<VideoCaptureError> for OpenCvError {
    open spec fn obeys_from_spec() -> bool {
        true
    }

    open spec fn from_spec(e: VideoCaptureError) -> Self {
        OpenCvError::VideoCapture(e)
    }
}

impl From<ImageEncodingError> for OpenCvError {
    fn from(e: ImageEncodingError) -> (r: Self) {
        OpenCvError::ImageEncoding(e)
    }
}

impl vstd::std_specs::convert::FromSpecImpl<ImageEncodingError> for OpenCvError {
    open spec fn obeys_from_spec() -> bool {
        true
    }

    open spec fn from_spec(e: ImageEncodingError) -> Self {
        OpenCvError::ImageEncoding(e)
    }
}

impl From<ImageOpsError> for OpenCvError {
    fn from(e: ImageOpsError) -> (r: Self) {
        OpenCvError::ImageOps(e)
    }
}

impl vstd::std_specs::convert::FromSpecImpl<ImageOpsError> for OpenCvError {
    open spec fn obeys_from_spec() -> bool {
        true
    }

    open spec fn from_spec(e: ImageOpsError) -> Self {
        OpenCvError::ImageOps(e)
    }
}

} // verus!
