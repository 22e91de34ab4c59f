//! Image buffers, pixel-level operations, and the interfaces through which an
//! application reaches video capture, image encoding and image processing.
//!
//! Verified here: the owned image buffer and the read-only view trait, the
//! pure-Rust image operations (colour conversion, thresholding, absolute
//! difference, scaling, min/max search, non-zero count), the scripted
//! in-memory encoder, image operations and video capture used in tests, the
//! contract checks for the view, encoder and video-stream interfaces, and the
//! decisions the OpenCV-backed adapters make around their native calls.
//! Floating-point arithmetic and the native OpenCV calls live in the
//! application crate.

pub mod types;
pub mod error;
pub mod mat_view;
pub mod image_ops;
pub mod image_encoder;
pub mod video_capture;
pub mod fake_image_encoder;
pub mod fake_image_ops;
pub mod fake_video_capture;
pub mod opencv_adapters;

pub use error::{ImageEncodingError, ImageOpsError, OpenCvError, VideoCaptureError};
pub use fake_image_encoder::ScriptedImageEncoder;
pub use fake_image_ops::PassthroughImageOps;
pub use fake_video_capture::{ScriptedVideoCapture, ScriptedVideoStream};
pub use image_encoder::{EncodingKind, ImageEncoderPort};
pub use image_ops::{ColorConversion, MinMaxResult, PureRustImageOps, ThresholdKind};
pub use mat_view::{MatView, OwnedMatView};
pub use opencv_adapters::{OpenCvImageEncoder, OpenCvImageOps};
pub use types::PixelFormat;
pub use video_capture::{Backend, CapturedFrame, VideoStream};
