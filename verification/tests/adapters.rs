use opencv_rs::opencv_adapters::{
    backend, check_conversion, check_min_max_input, check_same_shape, frame_layout,
    kernel_size, location_coord, mat_shape, mat_size, mat_view_layout, non_zero_count,
    open_outcome, require_mono, seek_outcome, target_size, EncodePlan,
};
use opencv_rs::{
    CapturedFrame, ColorConversion, EncodingKind, ImageEncodingError, ImageOpsError,
    OpenCvImageEncoder, OpenCvImageOps, OwnedMatView, PixelFormat, VideoCaptureError,
};

#[test]
fn try_from_mat_rejects_non_continuous() {
    match mat_view_layout(true, false, 1, 4, 4) {
        Ok(_) => panic!("expected non-continuous Mat to be rejected"),
        Err(ImageOpsError::InvalidParameter(msg)) => {
            assert!(msg.contains("non-continuous"), "got: {msg}");
        }
        Err(other) => panic!("expected InvalidParameter, got {other:?}"),
    }
}

#[test]
fn mat_view_layout_classifies_channels() {
    assert!(matches!(
        mat_view_layout(true, true, 1, 4, 3),
        Ok((PixelFormat::Mono8, 4, 3))
    ));
    assert!(matches!(
        mat_view_layout(true, true, 3, 4, 3),
        Ok((PixelFormat::Bgr8, 4, 3))
    ));
    assert!(matches!(
        mat_view_layout(true, true, 4, 4, 3),
        Err(ImageOpsError::InvalidParameter(m)) if m.contains("1- or 3-channel")
    ));
    assert!(matches!(
        mat_view_layout(false, true, 1, 4, 3),
        Err(ImageOpsError::InvalidParameter(m)) if m.contains("CV_8U")
    ));
}

#[test]
fn mat_shape_checks_length_and_sizes() {
    let v = OwnedMatView::new(3, 2, PixelFormat::Bgr8, vec![0; 18]).unwrap();
    assert_eq!(mat_shape(&v).unwrap(), (2, 3, 3));
    let bad = CapturedFrame {
        width: 3,
        height: 2,
        pixel_format: PixelFormat::Bgr8,
        data: vec![0; 17],
    };
    assert!(matches!(mat_shape(&bad), Err(ImageOpsError::InvalidParameter(_))));
    let wide = CapturedFrame {
        width: u32::MAX,
        height: 1,
        pixel_format: PixelFormat::Mono8,
        data: vec![],
    };
    assert!(matches!(
        mat_shape(&wide),
        Err(ImageOpsError::InvalidParameter("width exceeds i32"))
    ));
}

#[test]
fn mat_size_rejects_negative_dimensions() {
    assert_eq!(mat_size(4, 2).unwrap(), (4, 2));
    assert!(matches!(
        mat_size(-1, 2),
        Err(ImageOpsError::InvalidParameter("mat cols exceed u32"))
    ));
    assert!(matches!(
        mat_size(1, -2),
        Err(ImageOpsError::InvalidParameter("mat rows exceed u32"))
    ));
}

#[test]
fn location_coord_formats_negative_value() {
    assert_eq!(location_coord(7).unwrap(), 7);
    match location_coord(-42) {
        Err(ImageOpsError::Backend(m)) => {
            assert_eq!(m, "min_max_loc returned negative coord -42")
        }
        other => panic!("unexpected {other:?}"),
    }
}

#[test]
fn frame_layout_decides_end_format_and_errors() {
    assert!(matches!(
        frame_layout(false, false, 4, 4, 3),
        Err(VideoCaptureError::EndOfStream)
    ));
    assert!(matches!(
        frame_layout(true, true, 4, 4, 3),
        Err(VideoCaptureError::EndOfStream)
    ));
    assert!(matches!(
        frame_layout(true, false, 4, 2, 1),
        Ok((4, 2, PixelFormat::Mono8))
    ));
    assert!(matches!(
        frame_layout(true, false, 4, 2, 3),
        Ok((4, 2, PixelFormat::Bgr8))
    ));
    match frame_layout(true, false, 4, 2, 4) {
        Err(VideoCaptureError::Backend(m)) => assert_eq!(m, "unsupported channel count: 4"),
        other => panic!("unexpected {other:?}"),
    }
    match frame_layout(true, false, -1, 2, 3) {
        Err(VideoCaptureError::Backend(m)) => assert_eq!(m, "negative cols"),
        other => panic!("unexpected {other:?}"),
    }
}

#[test]
fn small_decisions() {
    assert_eq!(non_zero_count(-3), 0);
    assert_eq!(non_zero_count(12), 12);
    assert!(seek_outcome(true).is_ok());
    assert!(matches!(seek_outcome(false), Err(VideoCaptureError::SeekFailed)));
    assert!(open_outcome("a.mp4".to_string(), true).is_ok());
    match open_outcome("a.mp4".to_string(), false) {
        Err(VideoCaptureError::OpenFailed { path }) => assert_eq!(path, "a.mp4"),
        other => panic!("unexpected {other:?}"),
    }
    assert!(matches!(backend("boom".to_string()), ImageOpsError::Backend(m) if m == "boom"));
    assert_eq!(kernel_size((3, 5)).unwrap(), (3, 5));
    assert!(matches!(
        kernel_size((3, u32::MAX)),
        Err(ImageOpsError::InvalidParameter("gaussian_blur: ksize height exceeds i32"))
    ));
    assert!(matches!(
        target_size(u32::MAX, 2),
        Err(ImageOpsError::InvalidParameter("resize: new_width exceeds i32"))
    ));
}

#[test]
fn shape_and_format_checks() {
    let mono = OwnedMatView::new(1, 1, PixelFormat::Mono8, vec![0]).unwrap();
    let bgr = OwnedMatView::new(1, 1, PixelFormat::Bgr8, vec![0, 0, 0]).unwrap();
    assert!(require_mono(&mono).is_ok());
    assert!(matches!(
        require_mono(&bgr),
        Err(ImageOpsError::UnsupportedPixelFormat(PixelFormat::Bgr8))
    ));
    assert_eq!(
        check_conversion(&bgr, ColorConversion::BgrToGray).unwrap(),
        PixelFormat::Mono8
    );
    assert!(matches!(
        check_conversion(&mono, ColorConversion::RgbToBgr),
        Err(ImageOpsError::UnsupportedConversion {
            src: PixelFormat::Mono8,
            dst: PixelFormat::Bgr8
        })
    ));
    assert!(check_same_shape(&mono, &mono).is_ok());
    assert!(matches!(
        check_same_shape(&mono, &bgr),
        Err(ImageOpsError::DimensionMismatch { lhs: (1, 1, 1), rhs: (1, 1, 3) })
    ));
    let empty = OwnedMatView::new(0, 0, PixelFormat::Mono8, vec![]).unwrap();
    assert!(matches!(check_min_max_input(&empty), Err(ImageOpsError::EmptyInput)));
    assert!(check_min_max_input(&mono).is_ok());
}

#[test]
fn encoder_outcome_names_the_kind() {
    let enc = OpenCvImageEncoder::new();
    let _ops = OpenCvImageOps::new();
    assert_eq!(enc.encode_outcome(EncodingKind::Jpeg, true, vec![1, 2]).unwrap(), vec![1, 2]);
    match enc.encode_outcome(EncodingKind::Webp, false, vec![]) {
        Err(ImageEncodingError::EncodeFailed { kind }) => assert_eq!(kind, "webp"),
        other => panic!("unexpected {other:?}"),
    }
}

#[test]
fn plan_encoding_raw_returns_frame_bytes_without_native_call() {
    let frame = CapturedFrame {
        width: 2,
        height: 1,
        pixel_format: PixelFormat::Bgr8,
        data: vec![1, 2, 3, 4, 5, 6],
    };
    match OpenCvImageEncoder::new().plan_encoding(&frame, EncodingKind::Raw) {
        EncodePlan::Passthrough(bytes) => assert_eq!(bytes, vec![1, 2, 3, 4, 5, 6]),
        other => panic!("expected passthrough, got {other:?}"),
    }
}

#[test]
fn plan_encoding_jpeg_and_webp_use_quality_100() {
    let frame = CapturedFrame {
        width: 1,
        height: 1,
        pixel_format: PixelFormat::Mono8,
        data: vec![9],
    };
    let enc = OpenCvImageEncoder::new();
    match enc.plan_encoding(&frame, EncodingKind::Jpeg) {
        EncodePlan::Native { extension, quality } => {
            assert_eq!(extension, ".jpg");
            assert_eq!(quality, 100);
        }
        other => panic!("expected a native call, got {other:?}"),
    }
    match enc.plan_encoding(&frame, EncodingKind::Webp) {
        EncodePlan::Native { extension, quality } => {
            assert_eq!(extension, ".webp");
            assert_eq!(quality, 100);
        }
        other => panic!("expected a native call, got {other:?}"),
    }
}

#[test]
fn negative_coordinate_message_spells_every_digit() {
    match location_coord(i32::MIN) {
        Err(ImageOpsError::Backend(m)) => {
            assert_eq!(m, "min_max_loc returned negative coord -2147483648")
        }
        other => panic!("unexpected {other:?}"),
    }
    match location_coord(-1) {
        Err(ImageOpsError::Backend(m)) => assert_eq!(m, "min_max_loc returned negative coord -1"),
        other => panic!("unexpected {other:?}"),
    }
}

#[test]
fn channel_count_message_for_zero_and_large_counts() {
    match frame_layout(true, false, 4, 2, 0) {
        Err(VideoCaptureError::Backend(m)) => assert_eq!(m, "unsupported channel count: 0"),
        other => panic!("unexpected {other:?}"),
    }
    match frame_layout(true, false, 4, 2, 1090) {
        Err(VideoCaptureError::Backend(m)) => assert_eq!(m, "unsupported channel count: 1090"),
        other => panic!("unexpected {other:?}"),
    }
}
