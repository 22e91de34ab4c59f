//! The decisions of the OpenCV-backed adapters: the checks made before a
//! buffer is handed to OpenCV and the interpretation of what OpenCV hands
//! back. The calls into the native library itself are made by the
//! application crate, between these steps.

use crate::error::{ImageEncodingError, ImageOpsError, VideoCaptureError};
use crate::image_encoder::{spec_name, EncodingKind};
use crate::image_ops::{conversion_formats, dims, spec_conversion_formats, spec_dims, ColorConversion};
use crate::mat_view::{image_len, shape_len, MatView};
use crate::types::PixelFormat;
use vstd::prelude::*;

verus! {

/// Image operations delegating to OpenCV's `imgproc` and `core` modules.
#[derive(Debug, Default, Clone, Copy)]
pub struct OpenCvImageOps;

/// Image encoder delegating to OpenCV's `imgcodecs::imencode`.
///
/// [`EncodingKind::Raw`] short-circuits and returns the raw pixel bytes
/// verbatim; JPEG and WebP are encoded with quality 100.
#[derive(Debug, Default, Clone, Copy)]
pub struct OpenCvImageEncoder;

/// What an OpenCV-backed encoding of one frame does.
#[derive(Debug)]
pub enum EncodePlan {
    /// Return these bytes without calling OpenCV.
    Passthrough(Vec<u8>),
    /// Call `imencode` with this file extension and this quality setting.
    Native {
        /// Extension naming the container, such as `".jpg"`.
        extension: &'static str,
        /// Encoder quality, from 0 to 100.
        quality: i32,
    },
}

impl OpenCvImageOps {
    /// Construct a new [`OpenCvImageOps`].
    pub fn new() -> (o: Self)
        ensures
            o == OpenCvImageOps,
    {
        OpenCvImageOps
    }
}

impl OpenCvImageEncoder {
    /// Construct a new [`OpenCvImageEncoder`].
    pub fn new() -> (e: Self)
        ensures
            e == OpenCvImageEncoder,
    {
        OpenCvImageEncoder
    }

    /// How `frame` is encoded as `kind`: [`EncodingKind::Raw`] returns the
    /// raw pixel bytes with no OpenCV call; JPEG and WebP go to `imencode`
    /// as `.jpg` and `.webp` with quality 100.
    pub fn plan_encoding<M: MatView>(&self, frame: &M, kind: EncodingKind) -> (p: EncodePlan)
        ensures
            kind == EncodingKind::Raw ==> (p matches EncodePlan::Passthrough(b) && b@
                == frame.spec_data()),
            kind == EncodingKind::Jpeg ==> (p matches EncodePlan::Native {
                extension: e,
                quality: q,
            } && e@ == ".jpg"@ && q == 100),
            kind == EncodingKind::Webp ==> (p matches EncodePlan::Native {
                extension: e,
                quality: q,
            } && e@ == ".webp"@ && q == 100),
    {
        match kind {
            EncodingKind::Raw => EncodePlan::Passthrough(vstd::slice::slice_to_vec(frame.data())),
            EncodingKind::Jpeg => EncodePlan::Native { extension: ".jpg", quality: 100 },
            EncodingKind::Webp => EncodePlan::Native { extension: ".webp", quality: 100 },
        }
    }

    /// What an encoding call ends with: the bytes when OpenCV reported
    /// success, else [`ImageEncodingError::EncodeFailed`] naming the kind.
    pub fn encode_outcome(&self, kind: EncodingKind, ok: bool, buf: Vec<u8>) -> (r: Result<
        Vec<u8>,
        ImageEncodingError,
    >)
        ensures
            ok ==> (r matches Ok(v) && v@ == buf@),
            !ok ==> (r matches Err(ImageEncodingError::EncodeFailed { kind: k }) && k@ == spec_name(
                kind,
            )),
    {
        if ok {
            Ok(buf)
        } else {
            Err(ImageEncodingError::EncodeFailed { kind: kind.name() })
        }
    }
}

/// Decimal text of `v`, with a leading `-` when negative.
pub open spec fn decimal_text(v: int) -> Seq<char> {
    if v < 0 {
        seq!['-'] + decimal_digits((-v) as nat)
    } else {
        decimal_digits(v as nat)
    }
}

/// Decimal digits of `n`, most significant first, without leading zeros.
pub open spec fn decimal_digits(n: nat) -> Seq<char>
    decreases n,
{
    if n < 10 {
        seq![digit_char(n)]
    } else {
        decimal_digits(n / 10).push(digit_char(n % 10))
    }
}

/// The character of decimal digit `d`.
pub open spec fn digit_char(d: nat) -> char {
    (48 + d) as char
}

/// The one-character text of decimal digit `d`.
fn digit_str(d: u64) -> (s: &'static str)
    requires
        d < 10,
    ensures
        s@ == seq![digit_char(d as nat)],
{
    proof {
        reveal_strlit("0");
        reveal_strlit("1");
        reveal_strlit("2");
        reveal_strlit("3");
        reveal_strlit("4");
        reveal_strlit("5");
        reveal_strlit("6");
        reveal_strlit("7");
        reveal_strlit("8");
        reveal_strlit("9");
    }
    if d == 0 {
        "0"
    } else if d == 1 {
        "1"
    } else if d == 2 {
        "2"
    } else if d == 3 {
        "3"
    } else if d == 4 {
        "4"
    } else if d == 5 {
        "5"
    } else if d == 6 {
        "6"
    } else if d == 7 {
        "7"
    } else if d == 8 {
        "8"
    } else {
        "9"
    }
}

/// The decimal text of `v`: its digits without leading zeros, after a `-`
/// when it is negative.
fn decimal_string(v: i32) -> (s: String)
    ensures
        s@ == decimal_text(v as int),
{
    let wide: i64 = v as i64;
    let mut n: u64 = if wide < 0 {
        (-wide) as u64
    } else {
        wide as u64
    };
    let ghost whole: nat = n as nat;
    assert(whole == if v < 0 { -(v as int) } else { v as int });
    let mut acc = String::from_str(digit_str(n % 10));
    n = n / 10;
    assert(n == 0 ==> acc@ =~= decimal_digits(whole));
    assert(n > 0 ==> decimal_digits(n as nat) + acc@ =~= decimal_digits(whole));
    while n > 0
        invariant
            n == 0 ==> acc@ == decimal_digits(whole),
            n > 0 ==> decimal_digits(n as nat) + acc@ == decimal_digits(whole),
        decreases n,
    {
        let head = String::from_str(digit_str(n % 10));
        let ghost prev = acc@;
        acc = head.concat(acc.as_str());
        assert(acc@ == seq![digit_char((n % 10) as nat)] + prev);
        if n / 10 > 0 {
            assert(decimal_digits(n as nat) == decimal_digits((n / 10) as nat).push(
                digit_char((n % 10) as nat),
            ));
            assert(decimal_digits((n / 10) as nat) + acc@ =~= decimal_digits(n as nat) + prev);
        } else {
            assert(decimal_digits(n as nat) == seq![digit_char((n % 10) as nat)]);
            assert(acc@ =~= decimal_digits(n as nat) + prev);
        }
        n = n / 10;
    }
    if v < 0 {
        proof {
            reveal_strlit("-");
        }
        String::from_str("-").concat(acc.as_str())
    } else {
        acc
    }
}

/// A backend error carrying `message`.
pub fn backend(message: String) -> (e: ImageOpsError)
    ensures
        e matches ImageOpsError::Backend(m) && m@ == message@,
{
    ImageOpsError::Backend(message)
}

/// The error of an operation that needs a single-channel image.
pub fn require_mono<M: MatView>(src: &M) -> (r: Result<(), ImageOpsError>)
    ensures
        src.spec_pixel_format() == PixelFormat::Mono8 <==> r is Ok,
        r matches Err(e) ==> (e matches ImageOpsError::UnsupportedPixelFormat(pf) && pf
            == src.spec_pixel_format()),
{
    let pf = src.pixel_format();
    if pf != PixelFormat::Mono8 {
        return Err(ImageOpsError::UnsupportedPixelFormat(pf));
    }
    Ok(())
}

/// The `(rows, cols, channels)` of the OpenCV matrix that holds `src`: each
/// must fit an `i32`, and the byte count must match them.
pub fn mat_shape<M: MatView>(src: &M) -> (r: Result<(i32, i32, i32), ImageOpsError>)
    ensures
        src.spec_height() > i32::MAX ==> (r matches Err(ImageOpsError::InvalidParameter(m)) && m@
            == "height exceeds i32"@),
        src.spec_height() <= i32::MAX && src.spec_width() > i32::MAX ==> (r matches Err(
            ImageOpsError::InvalidParameter(m),
        ) && m@ == "width exceeds i32"@),
        src.spec_height() <= i32::MAX && src.spec_width() <= i32::MAX && src.spec_channels()
            > i32::MAX ==> (r matches Err(ImageOpsError::InvalidParameter(m)) && m@
            == "channels exceeds i32"@),
        src.spec_height() <= i32::MAX && src.spec_width() <= i32::MAX && src.spec_channels()
            <= i32::MAX ==> {
            &&& (src.spec_data().len() == image_len(
                src.spec_width(),
                src.spec_height(),
                src.spec_channels(),
            ) <==> r is Ok)
            &&& r matches Ok(s) ==> s == (
                src.spec_height() as i32,
                src.spec_width() as i32,
                src.spec_channels() as i32,
            )
            &&& r matches Err(e) ==> (e matches ImageOpsError::InvalidParameter(m) && m@
                == "MatView data length does not match width*height*channels"@)
        },
{
    let h = src.height();
    let w = src.width();
    let c = src.channels();
    if h > 0x7fff_ffffu32 {
        return Err(ImageOpsError::InvalidParameter("height exceeds i32"));
    }
    if w > 0x7fff_ffffu32 {
        return Err(ImageOpsError::InvalidParameter("width exceeds i32"));
    }
    if c > 0x7fff_ffffu32 {
        return Err(ImageOpsError::InvalidParameter("channels exceeds i32"));
    }
    if src.data().len() as u128 != shape_len(w, h, c) {
        return Err(
            ImageOpsError::InvalidParameter(
                "MatView data length does not match width*height*channels",
            ),
        );
    }
    Ok((h as i32, w as i32, c as i32))
}

/// The `(width, height)` of an image OpenCV returned with `cols` columns and
/// `rows` rows.
pub fn mat_size(cols: i32, rows: i32) -> (r: Result<(u32, u32), ImageOpsError>)
    ensures
        cols < 0 ==> (r matches Err(ImageOpsError::InvalidParameter(m)) && m@
            == "mat cols exceed u32"@),
        cols >= 0 && rows < 0 ==> (r matches Err(ImageOpsError::InvalidParameter(m)) && m@
            == "mat rows exceed u32"@),
        cols >= 0 && rows >= 0 ==> r == Ok::<(u32, u32), ImageOpsError>(
            (cols as u32, rows as u32),
        ),
{
    if cols < 0 {
        return Err(ImageOpsError::InvalidParameter("mat cols exceed u32"));
    }
    if rows < 0 {
        return Err(ImageOpsError::InvalidParameter("mat rows exceed u32"));
    }
    Ok((cols as u32, rows as u32))
}

/// The format a conversion produces, or the error for a source in another
/// format than the conversion accepts.
pub fn check_conversion<M: MatView>(src: &M, conv: ColorConversion) -> (r: Result<
    PixelFormat,
    ImageOpsError,
>)
    ensures
        src.spec_pixel_format() == spec_conversion_formats(conv).0 ==> r == Ok::<
            PixelFormat,
            ImageOpsError,
        >(spec_conversion_formats(conv).1),
        src.spec_pixel_format() != spec_conversion_formats(conv).0 ==> (r matches Err(
            ImageOpsError::UnsupportedConversion { src: s, dst: d },
        ) && s == src.spec_pixel_format() && d == spec_conversion_formats(conv).1),
{
    let (expected, out_pf) = conversion_formats(conv);
    let pf = src.pixel_format();
    if pf != expected {
        return Err(ImageOpsError::UnsupportedConversion { src: pf, dst: out_pf });
    }
    Ok(out_pf)
}

/// The error for two images that differ in `(width, height, channels)` or
/// in pixel format.
pub fn check_same_shape<L: MatView, R: MatView>(lhs: &L, rhs: &R) -> (r: Result<(), ImageOpsError>)
    ensures
        (spec_dims(lhs) == spec_dims(rhs) && lhs.spec_pixel_format() == rhs.spec_pixel_format())
            <==> r is Ok,
        r matches Err(e) ==> (e matches ImageOpsError::DimensionMismatch { lhs: ld, rhs: rd }
            && ld == spec_dims(lhs) && rd == spec_dims(rhs)),
{
    let ld = dims(lhs);
    let rd = dims(rhs);
    if ld.0 != rd.0 || ld.1 != rd.1 || ld.2 != rd.2 || lhs.pixel_format() != rhs.pixel_format() {
        return Err(ImageOpsError::DimensionMismatch { lhs: ld, rhs: rd });
    }
    Ok(())
}

/// A `u32` size as an OpenCV `i32`, or [`ImageOpsError::InvalidParameter`]
/// with `message` when it does not fit.
fn size_i32(v: u32, message: &'static str) -> (r: Result<i32, ImageOpsError>)
    ensures
        v <= i32::MAX ==> r == Ok::<i32, ImageOpsError>(v as i32),
        v > i32::MAX ==> (r matches Err(ImageOpsError::InvalidParameter(m)) && m == message),
{
    if v > 0x7fff_ffffu32 {
        Err(ImageOpsError::InvalidParameter(message))
    } else {
        Ok(v as i32)
    }
}

/// The Gaussian kernel size as OpenCV `i32`s.
pub fn kernel_size(ksize: (u32, u32)) -> (r: Result<(i32, i32), ImageOpsError>)
    ensures
        ksize.0 > i32::MAX ==> (r matches Err(ImageOpsError::InvalidParameter(m)) && m@
            == "gaussian_blur: ksize width exceeds i32"@),
        ksize.0 <= i32::MAX && ksize.1 > i32::MAX ==> (r matches Err(
            ImageOpsError::InvalidParameter(m),
        ) && m@ == "gaussian_blur: ksize height exceeds i32"@),
        ksize.0 <= i32::MAX && ksize.1 <= i32::MAX ==> r == Ok::<(i32, i32), ImageOpsError>(
            (ksize.0 as i32, ksize.1 as i32),
        ),
{
    let kw = size_i32(ksize.0, "gaussian_blur: ksize width exceeds i32")?;
    let kh = size_i32(ksize.1, "gaussian_blur: ksize height exceeds i32")?;
    Ok((kw, kh))
}

/// The target size of a resize as OpenCV `i32`s.
pub fn target_size(new_width: u32, new_height: u32) -> (r: Result<(i32, i32), ImageOpsError>)
    ensures
        new_width > i32::MAX ==> (r matches Err(ImageOpsError::InvalidParameter(m)) && m@
            == "resize: new_width exceeds i32"@),
        new_width <= i32::MAX && new_height > i32::MAX ==> (r matches Err(
            ImageOpsError::InvalidParameter(m),
        ) && m@ == "resize: new_height exceeds i32"@),
        new_width <= i32::MAX && new_height <= i32::MAX ==> r == Ok::<(i32, i32), ImageOpsError>(
            (new_width as i32, new_height as i32),
        ),
{
    let w = size_i32(new_width, "resize: new_width exceeds i32")?;
    let h = size_i32(new_height, "resize: new_height exceeds i32")?;
    Ok((w, h))
}

/// The checks before a min/max search: a single-channel, non-empty image.
pub fn check_min_max_input<M: MatView>(src: &M) -> (r: Result<(), ImageOpsError>)
    ensures
        src.spec_pixel_format() != PixelFormat::Mono8 ==> (r matches Err(
            ImageOpsError::UnsupportedPixelFormat(pf),
        ) && pf == src.spec_pixel_format()),
        src.spec_pixel_format() == PixelFormat::Mono8 && src.spec_data().len() == 0 ==> (r matches Err(
            ImageOpsError::EmptyInput,
        )),
        src.spec_pixel_format() == PixelFormat::Mono8 && src.spec_data().len() > 0 ==> r is Ok,
{
    require_mono(src)?;
    if src.data().len() == 0 {
        return Err(ImageOpsError::EmptyInput);
    }
    Ok(())
}

/// A coordinate OpenCV reported for a min/max location, which must not be negative.
pub fn location_coord(v: i32) -> (r: Result<u32, ImageOpsError>)
    ensures
        v >= 0 ==> r == Ok::<u32, ImageOpsError>(v as u32),
        v < 0 ==> (r matches Err(ImageOpsError::Backend(m)) && m@
            == "min_max_loc returned negative coord "@ + decimal_text(v as int)),
{
    if v < 0 {
        let text = String::from_str("min_max_loc returned negative coord ");
        let message = text.concat(decimal_string(v).as_str());
        return Err(ImageOpsError::Backend(message));
    }
    Ok(v as u32)
}

/// The count OpenCV reported, with a negative count taken as zero.
pub fn non_zero_count(n: i32) -> (c: u64)
    ensures
        n >= 0 ==> c == n,
        n < 0 ==> c == 0,
{
    if n < 0 {
        0
    } else {
        n as u64
    }
}

/// The pixel format and `(width, height)` of a view over an OpenCV matrix
/// of the given depth, continuity, channel count and size.
pub fn mat_view_layout(is_8u: bool, continuous: bool, channels: i32, cols: i32, rows: i32) -> (r:
    Result<(PixelFormat, u32, u32), ImageOpsError>)
    ensures
        !is_8u ==> (r matches Err(ImageOpsError::InvalidParameter(m)) && m@
            == "OpenCvMatView: only CV_8U depth is supported"@),
        is_8u && !continuous ==> (r matches Err(ImageOpsError::InvalidParameter(m)) && m@
            == "OpenCvMatView: non-continuous Mat is not supported"@),
        is_8u && continuous && channels != 1 && channels != 3 ==> (r matches Err(
            ImageOpsError::InvalidParameter(m),
        ) && m@ == "OpenCvMatView: only 1- or 3-channel mats are supported"@),
        is_8u && continuous && (channels == 1 || channels == 3) && cols < 0 ==> (r matches Err(
            ImageOpsError::InvalidParameter(m),
        ) && m@ == "OpenCvMatView: negative cols"@),
        is_8u && continuous && (channels == 1 || channels == 3) && cols >= 0 && rows < 0 ==> (r matches Err(
            ImageOpsError::InvalidParameter(m),
        ) && m@ == "OpenCvMatView: negative rows"@),
        is_8u && continuous && (channels == 1 || channels == 3) && cols >= 0 && rows >= 0 ==> r
            == Ok::<(PixelFormat, u32, u32), ImageOpsError>(
            (
                if channels == 1 {
                    PixelFormat::Mono8
                } else {
                    PixelFormat::Bgr8
                },
                cols as u32,
                rows as u32,
            ),
        ),
{
    if !is_8u {
        return Err(ImageOpsError::InvalidParameter("OpenCvMatView: only CV_8U depth is supported"));
    }
    if !continuous {
        return Err(
            ImageOpsError::InvalidParameter("OpenCvMatView: non-continuous Mat is not supported"),
        );
    }
    let pixel_format = if channels == 1 {
        PixelFormat::Mono8
    } else if channels == 3 {
        PixelFormat::Bgr8
    } else {
        return Err(
            ImageOpsError::InvalidParameter("OpenCvMatView: only 1- or 3-channel mats are supported"),
        );
    };
    if cols < 0 {
        return Err(ImageOpsError::InvalidParameter("OpenCvMatView: negative cols"));
    }
    if rows < 0 {
        return Err(ImageOpsError::InvalidParameter("OpenCvMatView: negative rows"));
    }
    Ok((pixel_format, cols as u32, rows as u32))
}

/// The `(width, height, pixel format)` of a frame OpenCV read: the end of
/// the stream when the read failed or gave an empty matrix, else the size
/// and the format for 1 or 3 channels.
pub fn frame_layout(read_ok: bool, empty: bool, cols: i32, rows: i32, channels: i32) -> (r: Result<
    (u32, u32, PixelFormat),
    VideoCaptureError,
>)
    ensures
        !read_ok || empty ==> (r matches Err(VideoCaptureError::EndOfStream)),
        read_ok && !empty && cols < 0 ==> (r matches Err(VideoCaptureError::Backend(m)) && m@
            == "negative cols"@),
        read_ok && !empty && cols >= 0 && rows < 0 ==> (r matches Err(VideoCaptureError::Backend(m))
            && m@ == "negative rows"@),
        read_ok && !empty && cols >= 0 && rows >= 0 && channels != 1 && channels != 3 ==> (r matches Err(
            VideoCaptureError::Backend(m),
        ) && m@ == "unsupported channel count: "@ + decimal_text(channels as int)),
        read_ok && !empty && cols >= 0 && rows >= 0 && (channels == 1 || channels == 3) ==> r
            == Ok::<(u32, u32, PixelFormat), VideoCaptureError>(
            (
                cols as u32,
                rows as u32,
                if channels == 1 {
                    PixelFormat::Mono8
                } else {
                    PixelFormat::Bgr8
                },
            ),
        ),
{
    if !read_ok || empty {
        return Err(VideoCaptureError::EndOfStream);
    }
    if cols < 0 {
        return Err(VideoCaptureError::Backend(String::from_str("negative cols")));
    }
    if rows < 0 {
        return Err(VideoCaptureError::Backend(String::from_str("negative rows")));
    }
    if channels == 1 {
        Ok((cols as u32, rows as u32, PixelFormat::Mono8))
    } else if channels == 3 {
        Ok((cols as u32, rows as u32, PixelFormat::Bgr8))
    } else {
        let text = String::from_str("unsupported channel count: ");
        Err(VideoCaptureError::Backend(text.concat(decimal_string(channels).as_str())))
    }
}

/// What a rewind ends with: [`VideoCaptureError::SeekFailed`] when OpenCV
/// refused to seek.
pub fn seek_outcome(ok: bool) -> (r: Result<(), VideoCaptureError>)
    ensures
        ok <==> r is Ok,
        r matches Err(e) ==> e matches VideoCaptureError::SeekFailed,
{
    if ok {
        Ok(())
    } else {
        Err(VideoCaptureError::SeekFailed)
    }
}

/// What opening `path` ends with once OpenCV has reported whether the
/// capture is open.
pub fn open_outcome(path: String, is_open: bool) -> (r: Result<(), VideoCaptureError>)
    ensures
        is_open <==> r is Ok,
        r matches Err(e) ==> (e matches VideoCaptureError::OpenFailed { path: p } && p@ == path@),
{
    if is_open {
        Ok(())
    } else {
        Err(VideoCaptureError::OpenFailed { path })
    }
}

/// The number that a text of decimal digits reads as.
pub open spec fn digits_value(t: Seq<char>) -> int
    decreases t.len(),
{
    if t.len() == 0 {
        0
    } else {
        10 * digits_value(t.drop_last()) + (t.last() as int - 48)
    }
}

/// The decimal digits of `n` are characters `'0'` to `'9'`, start with a
/// non-zero digit unless `n` is zero, and read back as `n`.
pub proof fn law_decimal_digits_read_back(n: nat)
    ensures
        digits_value(decimal_digits(n)) == n,
        decimal_digits(n).len() >= 1,
        forall|i: int|
            0 <= i < decimal_digits(n).len() ==> '0' <= #[trigger] decimal_digits(n)[i] <= '9',
        n > 0 ==> decimal_digits(n)[0] != '0',
    decreases n,
{
    let d = n % 10;
    assert(digit_char(d) as int == 48 + d);
    let t = decimal_digits(n);
    if n >= 10 {
        law_decimal_digits_read_back(n / 10);
        assert(t.drop_last() =~= decimal_digits(n / 10));
        assert(t[0] == decimal_digits(n / 10)[0]);
    } else {
        assert(t.drop_last() =~= Seq::<char>::empty());
    }
    assert(t.last() == digit_char(d));
    assert(digits_value(t) == 10 * digits_value(t.drop_last()) + (t.last() as int - 48));
    assert(n == 10 * (n / 10) + d);
}

/// The decimal text of a negative number is `-` followed by digits reading
/// back as its magnitude; that of any other number is digits reading back
/// as the number.
pub proof fn law_decimal_text_reads_back(v: int)
    ensures
        v < 0 ==> decimal_text(v)[0] == '-' && digits_value(
            decimal_text(v).subrange(1, decimal_text(v).len() as int),
        ) == -v,
        v >= 0 ==> digits_value(decimal_text(v)) == v,
{
    if v < 0 {
        law_decimal_digits_read_back((-v) as nat);
        let t = decimal_text(v);
        assert(t.subrange(1, t.len() as int) =~= decimal_digits((-v) as nat));
    } else {
        law_decimal_digits_read_back(v as nat);
    }
}

} // verus!
