use opencv_rs::{
    ColorConversion, ImageOpsError, MatView, OwnedMatView, PixelFormat, PureRustImageOps,
    ThresholdKind,
};

/// Saturating rounding conversion of `v` to `u8`.
fn sat_u8(v: f64) -> u8 {
    v.round().clamp(0.0, 255.0) as u8
}

/// Gray value of a BGR pixel with OpenCV's weights.
fn luma(b: u8, g: u8, r: u8) -> u8 {
    sat_u8(0.114 * b as f64 + 0.587 * g as f64 + 0.299 * r as f64)
}

fn mono(w: u32, h: u32, data: Vec<u8>) -> OwnedMatView {
    OwnedMatView::new(w, h, PixelFormat::Mono8, data).unwrap()
}

fn bgr(w: u32, h: u32, data: Vec<u8>) -> OwnedMatView {
    OwnedMatView::new(w, h, PixelFormat::Bgr8, data).unwrap()
}

#[test]
fn threshold_binary_basic() {
    let src = mono(3, 1, vec![10, 50, 200]);
    let out = PureRustImageOps
        .threshold(&src, 30, 255, ThresholdKind::Binary)
        .unwrap();
    assert_eq!(out.data(), &[0, 255, 255]);
}

#[test]
fn threshold_binary_equal_to_threshold_is_zero() {
    // A pixel exactly at the threshold does not exceed it.
    let src = mono(3, 1, vec![29, 30, 31]);
    let out = PureRustImageOps
        .threshold(&src, 30, 255, ThresholdKind::Binary)
        .unwrap();
    assert_eq!(out.data(), &[0, 0, 255]);
}

#[test]
fn threshold_rejects_non_mono() {
    let src = bgr(1, 1, vec![1, 2, 3]);
    let err = PureRustImageOps
        .threshold(&src, 0, 255, ThresholdKind::Binary)
        .unwrap_err();
    assert!(matches!(err, ImageOpsError::UnsupportedPixelFormat(_)));
}

#[test]
fn absdiff_mono() {
    let a = mono(2, 2, vec![10, 20, 30, 40]);
    let b = mono(2, 2, vec![5, 25, 30, 100]);
    let out = PureRustImageOps.absdiff(&a, &b).unwrap();
    assert_eq!(out.data(), &[5, 5, 0, 60]);
}

#[test]
fn absdiff_rejects_mismatched_dims() {
    let a = mono(2, 2, vec![0; 4]);
    let b = mono(2, 3, vec![0; 6]);
    let err = PureRustImageOps.absdiff(&a, &b).unwrap_err();
    assert!(matches!(err, ImageOpsError::DimensionMismatch { .. }));
}

#[test]
fn absdiff_rejects_mismatched_format() {
    let a = mono(1, 1, vec![0]);
    let b = bgr(1, 1, vec![0, 0, 0]);
    let err = PureRustImageOps.absdiff(&a, &b).unwrap_err();
    assert!(matches!(err, ImageOpsError::DimensionMismatch { .. }));
}

#[test]
fn absdiff_rejects_same_dims_different_format() {
    // Bgr8 and Rgb8 both have three channels: only the format differs.
    let a = bgr(1, 1, vec![1, 2, 3]);
    let b = OwnedMatView::new(1, 1, PixelFormat::Rgb8, vec![1, 2, 3]).unwrap();
    let err = PureRustImageOps.absdiff(&a, &b).unwrap_err();
    assert!(matches!(err, ImageOpsError::DimensionMismatch { .. }));
}

#[test]
fn absdiff_rejects_when_dims_differ_but_byte_count_matches() {
    let a = mono(4, 1, vec![1, 2, 3, 4]);
    let b = mono(2, 2, vec![1, 2, 3, 4]);
    let err = PureRustImageOps.absdiff(&a, &b).unwrap_err();
    assert!(matches!(err, ImageOpsError::DimensionMismatch { .. }));
}

#[test]
fn cvt_color_bgr_to_rgb_swaps_channels() {
    let src = bgr(2, 1, vec![1, 2, 3, 10, 20, 30]);
    let out = PureRustImageOps
        .cvt_color(&src, ColorConversion::BgrToRgb, &luma)
        .unwrap();
    assert_eq!(out.pixel_format(), PixelFormat::Rgb8);
    assert_eq!(out.data(), &[3, 2, 1, 30, 20, 10]);
}

#[test]
fn cvt_color_rgb_to_bgr_swaps_channels() {
    let src = OwnedMatView::new(1, 1, PixelFormat::Rgb8, vec![1, 2, 3]).unwrap();
    let out = PureRustImageOps
        .cvt_color(&src, ColorConversion::RgbToBgr, &luma)
        .unwrap();
    assert_eq!(out.pixel_format(), PixelFormat::Bgr8);
    assert_eq!(out.data(), &[3, 2, 1]);
}

#[test]
fn cvt_color_bgr_to_gray_uses_opencv_weights() {
    // Pure red in BGR is (0,0,255); gray = 0.299 * 255 = 76.245 -> 76.
    let src = bgr(1, 1, vec![0, 0, 255]);
    let out = PureRustImageOps
        .cvt_color(&src, ColorConversion::BgrToGray, &luma)
        .unwrap();
    assert_eq!(out.pixel_format(), PixelFormat::Mono8);
    assert_eq!(out.data(), &[76]);
}

#[test]
fn cvt_color_bgr_to_gray_all_channels_nonzero() {
    // 0.114*100 + 0.587*200 + 0.299*50 = 143.75 -> 144.
    let src = bgr(1, 1, vec![100, 200, 50]);
    let out = PureRustImageOps
        .cvt_color(&src, ColorConversion::BgrToGray, &luma)
        .unwrap();
    assert_eq!(out.data(), &[144]);
}

#[test]
fn cvt_color_gray_to_rgb_broadcasts() {
    let src = mono(2, 1, vec![10, 200]);
    let out = PureRustImageOps
        .cvt_color(&src, ColorConversion::GrayToRgb, &luma)
        .unwrap();
    assert_eq!(out.pixel_format(), PixelFormat::Rgb8);
    assert_eq!(out.data(), &[10, 10, 10, 200, 200, 200]);
}

#[test]
fn cvt_color_rejects_wrong_input_format() {
    let src = mono(1, 1, vec![5]);
    let err = PureRustImageOps
        .cvt_color(&src, ColorConversion::BgrToRgb, &luma)
        .unwrap_err();
    assert!(matches!(err, ImageOpsError::UnsupportedConversion { .. }));
}

#[test]
fn count_non_zero_counts_bytes() {
    let src = mono(3, 1, vec![0, 1, 2]);
    assert_eq!(PureRustImageOps.count_non_zero(&src).unwrap(), 2);
}

#[test]
fn count_non_zero_rejects_non_mono() {
    let src = bgr(1, 1, vec![0, 0, 0]);
    let err = PureRustImageOps.count_non_zero(&src).unwrap_err();
    assert!(matches!(err, ImageOpsError::UnsupportedPixelFormat(_)));
}

#[test]
fn min_max_loc_returns_first_occurrence() {
    // 3x2 image, row-major: values 5, 7, 1, 3, 7, 1.
    let src = mono(3, 2, vec![5, 7, 1, 3, 7, 1]);
    let r = PureRustImageOps.min_max_loc(&src).unwrap();
    assert_eq!(r.min, 1);
    assert_eq!(r.max, 7);
    assert_eq!(r.min_loc, (2, 0));
    assert_eq!(r.max_loc, (1, 0));
}

#[test]
fn min_max_loc_first_occurrence_with_duplicates_and_multi_row() {
    let src = mono(4, 2, vec![5, 5, 7, 7, 1, 1, 1, 8]);
    let r = PureRustImageOps.min_max_loc(&src).unwrap();
    assert_eq!(r.min, 1);
    assert_eq!(r.min_loc, (0, 1));
    assert_eq!(r.max, 8);
    assert_eq!(r.max_loc, (3, 1));
}

#[test]
fn min_max_loc_empty_input_errors() {
    let src = mono(0, 0, vec![]);
    let err = PureRustImageOps.min_max_loc(&src).unwrap_err();
    assert!(matches!(err, ImageOpsError::EmptyInput));
}

#[test]
fn min_max_loc_rejects_non_mono() {
    let src = bgr(1, 1, vec![1, 2, 3]);
    let err = PureRustImageOps.min_max_loc(&src).unwrap_err();
    assert!(matches!(err, ImageOpsError::UnsupportedPixelFormat(_)));
}

fn scale_abs(scale: f64, offset: f64) -> impl Fn(u8) -> u8 {
    move |b: u8| sat_u8((b as f64 * scale + offset).abs())
}

#[test]
fn convert_scale_abs_scales_and_saturates() {
    let src = mono(3, 1, vec![10, 20, 240]);
    let out = PureRustImageOps
        .convert_scale_abs(&src, &scale_abs(0.5, 0.0))
        .unwrap();
    assert_eq!(out.data(), &[5, 10, 120]);
}

#[test]
fn convert_scale_abs_takes_absolute_value() {
    let src = mono(1, 1, vec![10]);
    let out = PureRustImageOps
        .convert_scale_abs(&src, &scale_abs(-2.0, 0.0))
        .unwrap();
    assert_eq!(out.data(), &[20]);
}

#[test]
fn convert_scale_abs_requires_abs_for_negative_intermediate() {
    // 255 * -1 + -100 = -355; abs() -> 355 -> saturates to 255.
    let src = mono(1, 1, vec![255]);
    let out = PureRustImageOps
        .convert_scale_abs(&src, &scale_abs(-1.0, -100.0))
        .unwrap();
    assert_eq!(out.data(), &[255]);
}

#[test]
fn convert_scale_abs_saturates_high() {
    let src = mono(1, 1, vec![200]);
    let out = PureRustImageOps
        .convert_scale_abs(&src, &scale_abs(2.0, 0.0))
        .unwrap();
    assert_eq!(out.data(), &[255]);
}

#[test]
fn gaussian_blur_returns_backend_error() {
    let src = mono(1, 1, vec![0]);
    let err = PureRustImageOps.gaussian_blur(&src, (3, 3)).unwrap_err();
    assert!(matches!(err, ImageOpsError::Backend(_)));
}

#[test]
fn resize_returns_backend_error() {
    let src = mono(1, 1, vec![0]);
    let err = PureRustImageOps.resize(&src, 2, 2).unwrap_err();
    assert!(matches!(err, ImageOpsError::Backend(_)));
}

#[test]
fn backend_error_message_names_the_requirement() {
    let src = mono(1, 1, vec![0]);
    match PureRustImageOps.resize(&src, 2, 2).unwrap_err() {
        ImageOpsError::Backend(m) => {
            assert_eq!(m, "unsupported in PureRustImageOps: requires OpenCV backend")
        }
        other => panic!("unexpected {other:?}"),
    }
}

#[test]
fn bgr_rgb_round_trip_restores_image() {
    let data: Vec<u8> = (0..48u8).map(|v| v.wrapping_mul(7)).collect();
    let src = bgr(4, 4, data.clone());
    let rgb = PureRustImageOps
        .cvt_color(&src, ColorConversion::BgrToRgb, &luma)
        .unwrap();
    let back = PureRustImageOps
        .cvt_color(&rgb, ColorConversion::RgbToBgr, &luma)
        .unwrap();
    assert_eq!(back.pixel_format(), PixelFormat::Bgr8);
    assert_eq!(back.data(), data.as_slice());
}

#[test]
fn absdiff_is_symmetric_and_zero_on_self() {
    let a = mono(2, 2, vec![10, 200, 30, 0]);
    let b = mono(2, 2, vec![15, 20, 30, 255]);
    let ab = PureRustImageOps.absdiff(&a, &b).unwrap();
    let ba = PureRustImageOps.absdiff(&b, &a).unwrap();
    assert_eq!(ab.data(), ba.data());
    assert_eq!(ab.data(), &[5, 180, 0, 255]);
    let aa = PureRustImageOps.absdiff(&a, &a).unwrap();
    assert!(aa.data().iter().all(|&v| v == 0));
}

#[test]
fn count_after_threshold_counts_pixels_above() {
    let src = mono(4, 2, vec![0, 10, 20, 30, 40, 50, 60, 70]);
    let t = PureRustImageOps
        .threshold(&src, 35, 9, ThresholdKind::Binary)
        .unwrap();
    assert_eq!(t.data(), &[0, 0, 0, 0, 9, 9, 9, 9]);
    assert_eq!(PureRustImageOps.count_non_zero(&t).unwrap(), 4);
}

#[test]
fn threshold_negative_cutoff_keeps_every_pixel() {
    let src = mono(3, 1, vec![0, 1, 255]);
    let t = PureRustImageOps
        .threshold(&src, -1, 255, ThresholdKind::Binary)
        .unwrap();
    assert_eq!(t.data(), &[255, 255, 255]);
    let none = PureRustImageOps
        .threshold(&src, 255, 255, ThresholdKind::Binary)
        .unwrap();
    assert_eq!(none.data(), &[0, 0, 0]);
}

#[test]
fn min_max_location_maps_back_to_index() {
    let src = mono(5, 3, (0..15u16).map(|v| ((v * 37) % 101) as u8).collect());
    let r = PureRustImageOps.min_max_loc(&src).unwrap();
    let d = src.data();
    assert!(r.min <= r.max);
    assert_eq!(d[(r.min_loc.1 * 5 + r.min_loc.0) as usize], r.min);
    assert_eq!(d[(r.max_loc.1 * 5 + r.max_loc.0) as usize], r.max);
    assert_eq!(r.min, *d.iter().min().unwrap());
    assert_eq!(r.max, *d.iter().max().unwrap());
}

#[test]
fn cvt_color_reports_inconsistent_view() {
    // A frame whose buffer is shorter than its shape: the converted bytes
    // cannot fill the output image.
    let frame = opencv_rs::CapturedFrame {
        width: 2,
        height: 1,
        pixel_format: PixelFormat::Bgr8,
        data: vec![1, 2, 3],
    };
    let err = PureRustImageOps
        .cvt_color(&frame, ColorConversion::BgrToRgb, &luma)
        .unwrap_err();
    assert!(matches!(err, ImageOpsError::InvalidParameter(_)));
}

#[test]
fn absdiff_reports_mismatched_byte_counts() {
    let a = opencv_rs::CapturedFrame {
        width: 1,
        height: 1,
        pixel_format: PixelFormat::Mono8,
        data: vec![1],
    };
    let b = opencv_rs::CapturedFrame {
        width: 1,
        height: 1,
        pixel_format: PixelFormat::Mono8,
        data: vec![1, 2],
    };
    let err = PureRustImageOps.absdiff(&a, &b).unwrap_err();
    assert!(matches!(
        err,
        ImageOpsError::DimensionMismatch { lhs: (1, 1, 1), rhs: (1, 1, 1) }
    ));
}
