use opencv_rs::contract_tests as ct;
use opencv_rs::{
    Backend, CapturedFrame, ColorConversion, MatView, OwnedMatView, PassthroughImageOps,
    PixelFormat, ScriptedImageEncoder, EncodingKind, ImageEncoderPort, ScriptedVideoCapture,
    ScriptedVideoStream, ThresholdKind, VideoCaptureError, VideoStream,
};

fn sample_frames() -> Vec<CapturedFrame> {
    let data_a: Vec<u8> = (0..16).collect();
    let data_b: Vec<u8> = (16..32).collect();
    vec![
        CapturedFrame {
            width: 4,
            height: 4,
            pixel_format: PixelFormat::Mono8,
            data: data_a,
        },
        CapturedFrame {
            width: 4,
            height: 4,
            pixel_format: PixelFormat::Mono8,
            data: data_b,
        },
    ]
}

fn make_capture() -> ScriptedVideoCapture {
    ScriptedVideoCapture::with_frames(sample_frames())
}

fn open_stream(cap: &mut ScriptedVideoCapture) -> ScriptedVideoStream {
    cap.open("scripted".to_string(), Backend::Auto)
        .expect("scripted open must succeed")
}

fn luma(b: u8, g: u8, r: u8) -> u8 {
    (0.114 * b as f64 + 0.587 * g as f64 + 0.299 * r as f64)
        .round()
        .clamp(0.0, 255.0) as u8
}

#[test]
fn video_capture_rejects_missing_file_when_armed() {
    let mut cap = ScriptedVideoCapture::new();
    cap.fail_open_with(VideoCaptureError::OpenFailed {
        path: "missing".to_string(),
    });
    let result = cap.open(
        "/definitely/not/a/real/path.does-not-exist.mp4".to_string(),
        Backend::Auto,
    );
    assert!(result.is_err(), "expected error opening missing file, got Ok");
}

#[test]
fn video_stream_read_and_seek() {
    let mut cap = make_capture();
    let mut s = open_stream(&mut cap);
    let first = s.read_frame().expect("first read_frame should succeed");
    assert!(first.width > 0 && first.height > 0, "empty frame");
    s.seek_to_start().expect("seek_to_start should succeed");
    let _again = s
        .read_frame()
        .expect("read_frame after seek_to_start should succeed");
}

#[test]
fn video_stream_fps_positive() {
    let mut cap = make_capture();
    let s = open_stream(&mut cap);
    let fps = f64::from_bits(s.fps_bits());
    assert!(fps > 0.0, "fps must be positive, got {fps}");
}

#[test]
fn video_stream_end_of_stream() {
    let mut cap = make_capture();
    let mut s = open_stream(&mut cap);
    loop {
        match s.read_frame() {
            Ok(_) => continue,
            Err(VideoCaptureError::EndOfStream) => return,
            Err(e) => panic!("expected EndOfStream, got {e:?}"),
        }
    }
}

#[test]
fn image_encoder_none_passthrough() {
    let frame = sample_bgr();
    let mut enc = ScriptedImageEncoder::new();
    let out = enc
        .encode(&frame, EncodingKind::Raw)
        .expect("None encoding should succeed");
    assert_eq!(out.as_slice(), frame.data(), "None must be passthrough");
    ct::verify_image_encoder_none_passthrough(&mut enc);
}

#[test]
fn image_encoder_jpeg_nonempty() {
    let frame = sample_bgr();
    let mut enc = ScriptedImageEncoder::new();
    let out = enc
        .encode(&frame, EncodingKind::Jpeg)
        .expect("JPEG encoding should succeed");
    assert!(!out.is_empty(), "JPEG output must not be empty");
    ct::verify_image_encoder_jpeg_nonempty(&mut enc);
}

#[test]
fn image_encoder_webp_nonempty() {
    let frame = sample_bgr();
    let mut enc = ScriptedImageEncoder::new();
    let out = enc
        .encode(&frame, EncodingKind::Webp)
        .expect("WebP encoding should succeed");
    assert!(!out.is_empty(), "WebP output must not be empty");
    ct::verify_image_encoder_webp_nonempty(&mut enc);
}

#[test]
fn image_ops_cvt_color_bgr_to_rgb() {
    let src = OwnedMatView::new(1, 1, PixelFormat::Bgr8, vec![10, 20, 30]).unwrap();
    let out = PassthroughImageOps
        .cvt_color(&src, ColorConversion::BgrToRgb, &luma)
        .unwrap();
    assert_eq!(out.pixel_format(), PixelFormat::Rgb8);
    assert_eq!(out.data(), &[30, 20, 10]);
}

#[test]
fn image_ops_cvt_color_gray_to_rgb() {
    let src = OwnedMatView::new(1, 1, PixelFormat::Mono8, vec![42]).unwrap();
    let out = PassthroughImageOps
        .cvt_color(&src, ColorConversion::GrayToRgb, &luma)
        .unwrap();
    assert_eq!(out.pixel_format(), PixelFormat::Rgb8);
    assert_eq!(out.data(), &[42, 42, 42]);
}

#[test]
fn image_ops_cvt_color_bgr_to_gray() {
    let src = OwnedMatView::new(1, 1, PixelFormat::Bgr8, vec![0, 0, 255]).unwrap();
    let out = PassthroughImageOps
        .cvt_color(&src, ColorConversion::BgrToGray, &luma)
        .unwrap();
    assert_eq!(out.pixel_format(), PixelFormat::Mono8);
    assert_eq!(out.width(), 1);
    assert_eq!(out.height(), 1);
    let v = out.data()[0];
    assert!(v >= 75 && v <= 77, "unexpected gray value {v}");
}

#[test]
fn image_ops_gaussian_blur_smoke() {
    let src = OwnedMatView::zeros(4, 4, PixelFormat::Mono8);
    let out = PassthroughImageOps
        .gaussian_blur(&src, (3, 3))
        .expect("gaussian_blur should succeed for this smoke input");
    assert_eq!(out.width(), 4);
    assert_eq!(out.height(), 4);
}

#[test]
fn image_ops_threshold_binary() {
    let src = OwnedMatView::new(3, 1, PixelFormat::Mono8, vec![10, 50, 200]).unwrap();
    let out = PassthroughImageOps
        .threshold(&src, 30, 255, ThresholdKind::Binary)
        .unwrap();
    assert_eq!(out.data(), &[0, 255, 255]);
}

#[test]
fn image_ops_absdiff() {
    let a = OwnedMatView::new(2, 2, PixelFormat::Mono8, vec![10, 20, 30, 40]).unwrap();
    let b = OwnedMatView::new(2, 2, PixelFormat::Mono8, vec![5, 25, 30, 100]).unwrap();
    let out = PassthroughImageOps.absdiff(&a, &b).unwrap();
    assert_eq!(out.data(), &[5, 5, 0, 60]);
}

#[test]
fn image_ops_convert_scale_abs() {
    let src = OwnedMatView::new(3, 1, PixelFormat::Mono8, vec![10, 20, 240]).unwrap();
    let half = |b: u8| (b as f64 * 0.5 + 0.0).abs().round().clamp(0.0, 255.0) as u8;
    let out = PassthroughImageOps.convert_scale_abs(&src, &half).unwrap();
    assert_eq!(out.data(), &[5, 10, 120]);
}

#[test]
fn image_ops_min_max_loc() {
    let src = OwnedMatView::new(3, 2, PixelFormat::Mono8, vec![5, 7, 1, 3, 7, 1]).unwrap();
    let r = PassthroughImageOps.min_max_loc(&src).unwrap();
    assert_eq!(r.min, 1);
    assert_eq!(r.max, 7);
    assert_eq!(r.min_loc, (2, 0));
    assert_eq!(r.max_loc, (1, 0));
}

#[test]
fn image_ops_count_non_zero() {
    let src = OwnedMatView::new(2, 2, PixelFormat::Mono8, vec![0, 1, 2, 0]).unwrap();
    assert_eq!(PassthroughImageOps.count_non_zero(&src).unwrap(), 2);
}

#[test]
fn image_ops_resize_smoke() {
    let src = OwnedMatView::zeros(4, 4, PixelFormat::Mono8);
    let out = PassthroughImageOps
        .resize(&src, 2, 2)
        .expect("resize should succeed for this smoke input");
    assert_eq!(out.width(), 2);
    assert_eq!(out.height(), 2);
}

#[test]
fn mat_view_dimensions_on_captured_frame() {
    let frame = sample_frames().remove(0);
    assert_mat_view_contract(&frame, (4, 4, 1), PixelFormat::Mono8);
    ct::verify_mat_view_dimensions(&frame, (4, 4, 1));
    ct::verify_mat_view_data_length(&frame);
    ct::verify_mat_view_pixel_format(&frame, PixelFormat::Mono8);
}

/// The comparisons the view checks state, made at run time.
fn assert_mat_view_contract<M: MatView>(view: &M, dims: (u32, u32, u32), pf: PixelFormat) {
    assert_eq!(view.width(), dims.0, "width mismatch");
    assert_eq!(view.height(), dims.1, "height mismatch");
    assert_eq!(view.channels(), dims.2, "channels mismatch");
    let expected = (view.width() as usize) * (view.height() as usize) * (view.channels() as usize);
    assert_eq!(view.data().len(), expected, "data length mismatch");
    assert_eq!(view.pixel_format(), pf, "pixel format mismatch");
}

fn sample_bgr() -> CapturedFrame {
    CapturedFrame {
        width: 2,
        height: 2,
        pixel_format: PixelFormat::Bgr8,
        data: vec![1u8, 2, 3, 4, 5, 6, 7, 8, 9, 10, 11, 12],
    }
}

#[test]
fn mat_view_dimensions_contract() {
    let frame = sample_bgr();
    assert_eq!(frame.width(), 2, "width mismatch");
    assert_eq!(frame.height(), 2, "height mismatch");
    assert_eq!(frame.channels(), 3, "channels mismatch");
    ct::verify_mat_view_dimensions(&frame, (2, 2, 3));
}

#[test]
fn mat_view_data_length_contract() {
    let frame = sample_bgr();
    let expected =
        (frame.width() as usize) * (frame.height() as usize) * (frame.channels() as usize);
    assert_eq!(
        frame.data().len(),
        expected,
        "data length does not match width*height*channels"
    );
    ct::verify_mat_view_data_length(&frame);
}

#[test]
fn mat_view_pixel_format_contract() {
    let frame = sample_bgr();
    assert_eq!(frame.pixel_format(), PixelFormat::Bgr8, "pixel format mismatch");
    ct::verify_mat_view_pixel_format(&frame, PixelFormat::Bgr8);
}
