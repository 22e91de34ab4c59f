//! Element-wise and reduction image operations and their pure-Rust implementation.

use crate::error::ImageOpsError;
use crate::mat_view::{image_len, shape_consistent, MatView, OwnedMatView};
use crate::types::PixelFormat;
use vstd::prelude::*;

verus! {

/// Supported color-space conversions.
#[derive(Debug, Clone, Copy, PartialEq, Eq, Structural)]
pub enum ColorConversion {
    /// Swap channels 0 and 2 of a 3-channel BGR image to produce RGB.
    BgrToRgb,
    /// Swap channels 0 and 2 of a 3-channel RGB image to produce BGR.
    RgbToBgr,
    /// Convert a BGR image to single-channel grayscale with a luma function.
    BgrToGray,
    /// Broadcast a grayscale image to 3-channel RGB.
    GrayToRgb,
}

/// Thresholding algorithm selector.
#[derive(Debug, Clone, Copy, PartialEq, Eq, Structural)]
pub enum ThresholdKind {
    /// Binary threshold: pixels strictly greater than `thresh` become `max_val`, others become 0.
    Binary,
}

/// Result of a min/max search over a single-channel image.
#[derive(Debug, Clone, Copy)]
pub struct MinMaxResult {
    /// Minimum pixel value encountered.
    pub min: u8,
    /// Maximum pixel value encountered.
    pub max: u8,
    /// Location `(x, y)` of the first pixel equal to [`Self::min`].
    pub min_loc: (u32, u32),
    /// Location `(x, y)` of the first pixel equal to [`Self::max`].
    pub max_loc: (u32, u32),
}

/// The source format a conversion accepts and the format it produces.
pub open spec fn spec_conversion_formats(conv: ColorConversion) -> (PixelFormat, PixelFormat) {
    match conv {
        ColorConversion::BgrToRgb => (PixelFormat::Bgr8, PixelFormat::Rgb8),
        ColorConversion::RgbToBgr => (PixelFormat::Rgb8, PixelFormat::Bgr8),
        ColorConversion::BgrToGray => (PixelFormat::Bgr8, PixelFormat::Mono8),
        ColorConversion::GrayToRgb => (PixelFormat::Mono8, PixelFormat::Rgb8),
    }
}

/// The source format a conversion accepts and the format it produces.
#[verifier::when_used_as_spec(spec_conversion_formats)]
pub fn conversion_formats(conv: ColorConversion) -> (r: (PixelFormat, PixelFormat))
    ensures
        r == spec_conversion_formats(conv),
{
    match conv {
        ColorConversion::BgrToRgb => (PixelFormat::Bgr8, PixelFormat::Rgb8),
        ColorConversion::RgbToBgr => (PixelFormat::Rgb8, PixelFormat::Bgr8),
        ColorConversion::BgrToGray => (PixelFormat::Bgr8, PixelFormat::Mono8),
        ColorConversion::GrayToRgb => (PixelFormat::Mono8, PixelFormat::Rgb8),
    }
}

/// Byte `k` of `s` after swapping channels 0 and 2 of every complete 3-byte
/// pixel; bytes of a trailing incomplete pixel become 0.
pub open spec fn swapped_byte(s: Seq<u8>, k: int) -> u8 {
    if (k / 3) * 3 + 3 <= s.len() {
        s[(k / 3) * 3 + 2 - k % 3]
    } else {
        0
    }
}

/// `s` with channels 0 and 2 of every complete pixel swapped.
pub open spec fn swap_red_blue(s: Seq<u8>) -> Seq<u8> {
    Seq::new(s.len(), |k: int| swapped_byte(s, k))
}

/// Every byte of `s` repeated three times.
pub open spec fn broadcast_gray(s: Seq<u8>) -> Seq<u8> {
    Seq::new(3 * s.len(), |k: int| s[k / 3])
}

/// Number of bytes the conversion produces from `n` source bytes.
pub open spec fn converted_len(conv: ColorConversion, n: int) -> int {
    match conv {
        ColorConversion::BgrToGray => n / 3,
        ColorConversion::GrayToRgb => 3 * n,
        _ => n,
    }
}

/// `out` is the byte sequence that `conv` produces from `s`, with `luma`
/// giving the gray value of a `(b, g, r)` pixel.
pub open spec fn converted<G: Fn(u8, u8, u8) -> u8>(
    conv: ColorConversion,
    s: Seq<u8>,
    out: Seq<u8>,
    luma: G,
) -> bool {
    match conv {
        ColorConversion::BgrToRgb => out == swap_red_blue(s),
        ColorConversion::RgbToBgr => out == swap_red_blue(s),
        ColorConversion::GrayToRgb => out == broadcast_gray(s),
        ColorConversion::BgrToGray => {
            &&& out.len() == s.len() / 3
            &&& forall|p: int|
                0 <= p < out.len() ==> luma.ensures(
                    (s[3 * p], s[3 * p + 1], s[3 * p + 2]),
                    #[trigger] out[p],
                )
        },
    }
}

/// Result of binary thresholding one byte.
pub open spec fn threshold_byte(b: u8, thresh: i32, max_val: u8) -> u8 {
    if b > thresh {
        max_val
    } else {
        0
    }
}

/// Absolute difference of two bytes.
pub open spec fn abs_diff_byte(x: u8, y: u8) -> u8 {
    if x >= y {
        (x - y) as u8
    } else {
        (y - x) as u8
    }
}

/// Number of non-zero bytes in `s`.
pub open spec fn count_nonzero(s: Seq<u8>) -> nat
    decreases s.len(),
{
    if s.len() == 0 {
        0
    } else {
        count_nonzero(s.drop_last()) + if s.last() != 0 {
            1nat
        } else {
            0nat
        }
    }
}

/// `i` is the index of the first occurrence of the minimum of `s`.
pub open spec fn is_first_min(s: Seq<u8>, i: int) -> bool {
    &&& 0 <= i < s.len()
    &&& forall|j: int| 0 <= j < s.len() ==> s[i] <= #[trigger] s[j]
    &&& forall|j: int| 0 <= j < i ==> s[i] < #[trigger] s[j]
}

/// `i` is the index of the first occurrence of the maximum of `s`.
pub open spec fn is_first_max(s: Seq<u8>, i: int) -> bool {
    &&& 0 <= i < s.len()
    &&& forall|j: int| 0 <= j < s.len() ==> #[trigger] s[j] <= s[i]
    &&& forall|j: int| 0 <= j < i ==> #[trigger] s[j] < s[i]
}

/// Row-major `(x, y)` location of byte index `i` in an image `width` pixels wide.
pub open spec fn pixel_loc(i: int, width: u32) -> (u32, u32) {
    (((i as u32) % width) as u32, ((i as u32) / width) as u32)
}

/// The error returned by the operations that need an OpenCV backend.
pub open spec fn is_backend_unsupported(e: ImageOpsError) -> bool {
    e matches ImageOpsError::Backend(m) && m@
        == "unsupported in PureRustImageOps: requires OpenCV backend"@
}

/// `(width, height, channels)` of a view.
pub open spec fn spec_dims<M: MatView>(view: &M) -> (u32, u32, u32) {
    (view.spec_width(), view.spec_height(), view.spec_channels())
}

/// `(width, height, channels)` of a view.
pub fn dims<M: MatView>(view: &M) -> (d: (u32, u32, u32))
    ensures
        d == spec_dims(view),
{
    (view.width(), view.height(), view.channels())
}

/// `out` carries `data` in an image of the given shape, or the error that
/// [`OwnedMatView::new`] reports for a mismatching length.
pub open spec fn packed(
    r: Result<OwnedMatView, ImageOpsError>,
    width: u32,
    height: u32,
    pixel_format: PixelFormat,
    data: Seq<u8>,
) -> bool {
    &&& (data.len() == image_len(width, height, pixel_format.spec_channels()) <==> r is Ok)
    &&& r matches Ok(v) ==> {
        &&& shape_consistent(&v)
        &&& v.spec_width() == width
        &&& v.spec_height() == height
        &&& v.spec_pixel_format() == pixel_format
        &&& v.spec_data() == data
    }
    &&& r matches Err(e) ==> e matches ImageOpsError::InvalidParameter(_)
}

/// What converting `src` with `conv` returns.
pub open spec fn cvt_color_post<M: MatView, G: Fn(u8, u8, u8) -> u8>(
    src: &M,
    conv: ColorConversion,
    luma: G,
    r: Result<OwnedMatView, ImageOpsError>,
) -> bool {
    let (expected, out_pf) = spec_conversion_formats(conv);
    &&& src.spec_pixel_format() != expected ==> (r matches Err(
        ImageOpsError::UnsupportedConversion { src: s, dst: d },
    ) && s == src.spec_pixel_format() && d == out_pf)
    &&& src.spec_pixel_format() == expected ==> {
        &&& (converted_len(conv, src.spec_data().len() as int) == image_len(
            src.spec_width(),
            src.spec_height(),
            out_pf.spec_channels(),
        ) <==> r is Ok)
        &&& r matches Ok(v) ==> {
            &&& shape_consistent(&v)
            &&& v.spec_width() == src.spec_width()
            &&& v.spec_height() == src.spec_height()
            &&& v.spec_pixel_format() == out_pf
            &&& converted(conv, src.spec_data(), v.spec_data(), luma)
        }
        &&& r matches Err(e) ==> e matches ImageOpsError::InvalidParameter(_)
    }
}

/// What thresholding `src` returns.
pub open spec fn threshold_post<M: MatView>(
    src: &M,
    thresh: i32,
    max_val: u8,
    r: Result<OwnedMatView, ImageOpsError>,
) -> bool {
    &&& src.spec_pixel_format() != PixelFormat::Mono8 ==> (r matches Err(
        ImageOpsError::UnsupportedPixelFormat(pf),
    ) && pf == src.spec_pixel_format())
    &&& src.spec_pixel_format() == PixelFormat::Mono8 ==> packed(
        r,
        src.spec_width(),
        src.spec_height(),
        PixelFormat::Mono8,
        src.spec_data().map_values(|b: u8| threshold_byte(b, thresh, max_val)),
    )
}

/// What the absolute difference of `lhs` and `rhs` returns.
pub open spec fn absdiff_post<L: MatView, R: MatView>(
    lhs: &L,
    rhs: &R,
    r: Result<OwnedMatView, ImageOpsError>,
) -> bool {
    let same = spec_dims(lhs) == spec_dims(rhs) && lhs.spec_pixel_format()
        == rhs.spec_pixel_format() && lhs.spec_data().len() == rhs.spec_data().len();
    &&& !same ==> (r matches Err(ImageOpsError::DimensionMismatch { lhs: ld, rhs: rd }) && ld
        == spec_dims(lhs) && rd == spec_dims(rhs))
    &&& same ==> packed(
        r,
        lhs.spec_width(),
        lhs.spec_height(),
        lhs.spec_pixel_format(),
        Seq::new(
            lhs.spec_data().len(),
            |k: int| abs_diff_byte(lhs.spec_data()[k], rhs.spec_data()[k]),
        ),
    )
}

/// What scaling `src` byte by byte with `scale_abs` returns.
pub open spec fn convert_scale_abs_post<M: MatView, F: Fn(u8) -> u8>(
    src: &M,
    scale_abs: F,
    r: Result<OwnedMatView, ImageOpsError>,
) -> bool {
    &&& (src.spec_data().len() == image_len(
        src.spec_width(),
        src.spec_height(),
        src.spec_pixel_format().spec_channels(),
    ) <==> r is Ok)
    &&& r matches Ok(v) ==> {
        &&& shape_consistent(&v)
        &&& v.spec_width() == src.spec_width()
        &&& v.spec_height() == src.spec_height()
        &&& v.spec_pixel_format() == src.spec_pixel_format()
        &&& v.spec_data().len() == src.spec_data().len()
        &&& forall|k: int|
            0 <= k < src.spec_data().len() ==> scale_abs.ensures(
                (src.spec_data()[k],),
                #[trigger] v.spec_data()[k],
            )
    }
    &&& r matches Err(e) ==> e matches ImageOpsError::InvalidParameter(_)
}

/// What the min/max search over `src` returns.
pub open spec fn min_max_loc_post<M: MatView>(src: &M, r: Result<MinMaxResult, ImageOpsError>) -> bool {
    &&& src.spec_pixel_format() != PixelFormat::Mono8 ==> (r matches Err(
        ImageOpsError::UnsupportedPixelFormat(pf),
    ) && pf == src.spec_pixel_format())
    &&& src.spec_pixel_format() == PixelFormat::Mono8 && src.spec_data().len() == 0 ==> (r matches Err(
        ImageOpsError::EmptyInput,
    ))
    &&& src.spec_pixel_format() == PixelFormat::Mono8 && src.spec_data().len() > 0 ==> (r matches Ok(
        m,
    ) && (exists|i: int, j: int|
        {
            &&& is_first_min(src.spec_data(), i)
            &&& is_first_max(src.spec_data(), j)
            &&& m.min == src.spec_data()[i]
            &&& m.max == src.spec_data()[j]
            &&& m.min_loc == pixel_loc(i, src.spec_width())
            &&& m.max_loc == pixel_loc(j, src.spec_width())
        }))
}

/// What counting the non-zero pixels of `src` returns.
pub open spec fn count_non_zero_post<M: MatView>(src: &M, r: Result<u64, ImageOpsError>) -> bool {
    &&& src.spec_pixel_format() != PixelFormat::Mono8 ==> (r matches Err(
        ImageOpsError::UnsupportedPixelFormat(pf),
    ) && pf == src.spec_pixel_format())
    &&& src.spec_pixel_format() == PixelFormat::Mono8 ==> r == Ok::<u64, ImageOpsError>(
        count_nonzero(src.spec_data()) as u64,
    )
}

/// Pure-Rust implementation of the element-wise and reduction image operations.
///
/// `gaussian_blur` and `resize` return the backend error
/// `"unsupported in PureRustImageOps: requires OpenCV backend"`.
#[derive(Debug, Default, Clone, Copy)]
pub struct PureRustImageOps;

/// Swap channels 0 and 2 of every complete pixel of `data`.
fn swap_channels(data: &[u8]) -> (out: Vec<u8>)
    ensures
        out@ == swap_red_blue(data@),
{
    let n = data.len();
    let pixels = n / 3;
    let mut out: Vec<u8> = Vec::with_capacity(n);
    let mut p: usize = 0;
    while p < pixels
        invariant
            n == data@.len(),
            pixels == n / 3,
            p <= pixels,
            out@.len() == 3 * p,
            forall|k: int| 0 <= k < 3 * p ==> out@[k] == #[trigger] swapped_byte(data@, k),
        decreases pixels - p,
    {
        let base = 3 * p;
        out.push(data[base + 2]);
        out.push(data[base + 1]);
        out.push(data[base]);
        assert forall|k: int| 0 <= k < 3 * (p + 1) implies out@[k] == #[trigger] swapped_byte(
            data@,
            k,
        ) by {
            if k >= 3 * p {
                assert(k / 3 == p);
            }
        }
        p = p + 1;
    }
    while out.len() < n
        invariant
            n == data@.len(),
            pixels == n / 3,
            3 * pixels <= out@.len() <= n,
            forall|k: int| 0 <= k < out@.len() ==> out@[k] == #[trigger] swapped_byte(data@, k),
        decreases n - out.len(),
    {
        let ghost k = out@.len() as int;
        assert(k / 3 == pixels);
        out.push(0);
    }
    assert(out@ =~= swap_red_blue(data@));
    out
}

/// Repeat every byte of `data` three times.
fn broadcast_channels(data: &[u8]) -> (out: Vec<u8>)
    requires
        3 * data@.len() <= usize::MAX,
    ensures
        out@ == broadcast_gray(data@),
{
    let n = data.len();
    let mut out: Vec<u8> = Vec::with_capacity(3 * n);
    let mut i: usize = 0;
    while i < n
        invariant
            n == data@.len(),
            3 * n <= usize::MAX,
            i <= n,
            out@.len() == 3 * i,
            forall|k: int| 0 <= k < 3 * i ==> #[trigger] out@[k] == data@[k / 3],
        decreases n - i,
    {
        let v = data[i];
        out.push(v);
        out.push(v);
        out.push(v);
        assert forall|k: int| 0 <= k < 3 * (i + 1) implies #[trigger] out@[k] == data@[k / 3] by {
            if k >= 3 * i {
                assert(k / 3 == i);
            }
        }
        i = i + 1;
    }
    assert(out@ =~= broadcast_gray(data@));
    out
}

/// Gray value of every complete `(b, g, r)` pixel of `data`.
fn gray_channels<G: Fn(u8, u8, u8) -> u8>(data: &[u8], luma: &G) -> (out: Vec<u8>)
    requires
        forall|b: u8, g: u8, r: u8| luma.requires((b, g, r)),
    ensures
        converted(ColorConversion::BgrToGray, data@, out@, *luma),
{
    let n = data.len();
    let pixels = n / 3;
    let mut out: Vec<u8> = Vec::with_capacity(pixels);
    let mut p: usize = 0;
    while p < pixels
        invariant
            n == data@.len(),
            pixels == n / 3,
            p <= pixels,
            out@.len() == p,
            forall|b: u8, g: u8, r: u8| luma.requires((b, g, r)),
            forall|q: int|
                0 <= q < p ==> luma.ensures(
                    (data@[3 * q], data@[3 * q + 1], data@[3 * q + 2]),
                    #[trigger] out@[q],
                ),
        decreases pixels - p,
    {
        let base = 3 * p;
        let v = luma(data[base], data[base + 1], data[base + 2]);
        out.push(v);
        p = p + 1;
    }
    out
}

impl PureRustImageOps {
    /// Convert `src` between color spaces per [`ColorConversion`]; `luma`
    /// gives the gray value of a `(b, g, r)` pixel for
    /// [`ColorConversion::BgrToGray`] and is not called otherwise.
    pub fn cvt_color<M: MatView, G: Fn(u8, u8, u8) -> u8>(
        &self,
        src: &M,
        conv: ColorConversion,
        luma: &G,
    ) -> (r: Result<OwnedMatView, ImageOpsError>)
        requires
            forall|b: u8, g: u8, r: u8| luma.requires((b, g, r)),
            conv == ColorConversion::GrayToRgb ==> 3 * src.spec_data().len() <= usize::MAX,
        ensures
            cvt_color_post(src, conv, *luma, r),
    {
        let w = src.width();
        let h = src.height();
        let pf = src.pixel_format();
        let data = src.data();
        let (expected, out_pf) = conversion_formats(conv);
        if pf != expected {
            return Err(ImageOpsError::UnsupportedConversion { src: pf, dst: out_pf });
        }
        let out = match conv {
            ColorConversion::BgrToRgb => swap_channels(data),
            ColorConversion::RgbToBgr => swap_channels(data),
            ColorConversion::BgrToGray => gray_channels(data, luma),
            ColorConversion::GrayToRgb => broadcast_channels(data),
        };
        OwnedMatView::new(w, h, out_pf, out)
    }
}


/// Binary threshold of every byte of `data`.
fn threshold_bytes(data: &[u8], thresh: i32, max_val: u8) -> (out: Vec<u8>)
    ensures
        out@ == data@.map_values(|b: u8| threshold_byte(b, thresh, max_val)),
{
    let n = data.len();
    let mut out: Vec<u8> = Vec::with_capacity(n);
    let mut i: usize = 0;
    while i < n
        invariant
            n == data@.len(),
            i <= n,
            out@.len() == i,
            forall|k: int| 0 <= k < i ==> #[trigger] out@[k] == threshold_byte(data@[k], thresh, max_val),
        decreases n - i,
    {
        let b = data[i];
        let v: u8 = if (b as i32) > thresh {
            max_val
        } else {
            0
        };
        out.push(v);
        i = i + 1;
    }
    assert(out@ =~= data@.map_values(|b: u8| threshold_byte(b, thresh, max_val)));
    out
}

/// Element-wise absolute difference of two equally long byte sequences.
fn abs_diff_bytes(a: &[u8], b: &[u8]) -> (out: Vec<u8>)
    requires
        a@.len() == b@.len(),
    ensures
        out@.len() == a@.len(),
        forall|k: int| 0 <= k < a@.len() ==> #[trigger] out@[k] == abs_diff_byte(a@[k], b@[k]),
{
    let n = a.len();
    let mut out: Vec<u8> = Vec::with_capacity(n);
    let mut i: usize = 0;
    while i < n
        invariant
            n == a@.len(),
            n == b@.len(),
            i <= n,
            out@.len() == i,
            forall|k: int| 0 <= k < i ==> #[trigger] out@[k] == abs_diff_byte(a@[k], b@[k]),
        decreases n - i,
    {
        let x = a[i];
        let y = b[i];
        let d: u8 = if x >= y {
            x - y
        } else {
            y - x
        };
        out.push(d);
        i = i + 1;
    }
    out
}

/// `f` applied to every byte of `data`.
fn map_bytes<F: Fn(u8) -> u8>(data: &[u8], f: &F) -> (out: Vec<u8>)
    requires
        forall|b: u8| f.requires((b,)),
    ensures
        out@.len() == data@.len(),
        forall|k: int| 0 <= k < data@.len() ==> f.ensures((data@[k],), #[trigger] out@[k]),
{
    let n = data.len();
    let mut out: Vec<u8> = Vec::with_capacity(n);
    let mut i: usize = 0;
    while i < n
        invariant
            n == data@.len(),
            i <= n,
            out@.len() == i,
            forall|b: u8| f.requires((b,)),
            forall|k: int| 0 <= k < i ==> f.ensures((data@[k],), #[trigger] out@[k]),
        decreases n - i,
    {
        let v = f(data[i]);
        out.push(v);
        i = i + 1;
    }
    out
}

/// Number of non-zero bytes of `data`.
fn count_nonzero_bytes(data: &[u8]) -> (c: u64)
    ensures
        c == count_nonzero(data@),
{
    let n = data.len();
    let mut c: u64 = 0;
    let mut i: usize = 0;
    while i < n
        invariant
            n == data@.len(),
            i <= n,
            c == count_nonzero(data@.take(i as int)),
            c <= i,
        decreases n - i,
    {
        assert(data@.take(i + 1).drop_last() =~= data@.take(i as int));
        if data[i] != 0 {
            c = c + 1;
        }
        i = i + 1;
    }
    assert(data@.take(n as int) =~= data@);
    c
}

/// Index of the first minimum and of the first maximum of a non-empty `data`.
fn first_extrema(data: &[u8]) -> (r: (usize, usize))
    requires
        data@.len() > 0,
    ensures
        is_first_min(data@, r.0 as int),
        is_first_max(data@, r.1 as int),
{
    let n = data.len();
    let mut min_i: usize = 0;
    let mut max_i: usize = 0;
    let mut i: usize = 1;
    while i < n
        invariant
            n == data@.len(),
            1 <= i <= n,
            is_first_min(data@.take(i as int), min_i as int),
            is_first_max(data@.take(i as int), max_i as int),
        decreases n - i,
    {
        let b = data[i];
        let ghost prev = data@.take(i as int);
        let ghost next = data@.take(i + 1);
        assert(next =~= prev.push(b));
        if b < data[min_i] {
            min_i = i;
        }
        if b > data[max_i] {
            max_i = i;
        }
        assert(is_first_min(next, min_i as int)) by {
            assert forall|j: int| 0 <= j < next.len() implies next[min_i as int] <= #[trigger] next[j] by {
                if j < i {
                    assert(next[j] == prev[j]);
                }
            }
        }
        assert(is_first_max(next, max_i as int)) by {
            assert forall|j: int| 0 <= j < next.len() implies #[trigger] next[j] <= next[max_i as int] by {
                if j < i {
                    assert(next[j] == prev[j]);
                }
            }
        }
        i = i + 1;
    }
    assert(data@.take(n as int) =~= data@);
    (min_i, max_i)
}

impl PureRustImageOps {
    /// Threshold a grayscale image: a pixel strictly greater than `thresh`
    /// becomes `max_val`, every other pixel becomes 0.
    pub fn threshold<M: MatView>(&self, src: &M, thresh: i32, max_val: u8, kind: ThresholdKind) -> (r:
        Result<OwnedMatView, ImageOpsError>)
        ensures
            threshold_post(src, thresh, max_val, r),
    {
        let pf = src.pixel_format();
        if pf != PixelFormat::Mono8 {
            return Err(ImageOpsError::UnsupportedPixelFormat(pf));
        }
        let out = match kind {
            ThresholdKind::Binary => threshold_bytes(src.data(), thresh, max_val),
        };
        OwnedMatView::new(src.width(), src.height(), PixelFormat::Mono8, out)
    }

    /// Element-wise absolute difference of two identically shaped images.
    pub fn absdiff<L: MatView, R: MatView>(&self, lhs: &L, rhs: &R) -> (r: Result<
        OwnedMatView,
        ImageOpsError,
    >)
        ensures
            absdiff_post(lhs, rhs, r),
    {
        let ld = dims(lhs);
        let rd = dims(rhs);
        if ld.0 != rd.0 || ld.1 != rd.1 || ld.2 != rd.2 || lhs.pixel_format() != rhs.pixel_format() {
            return Err(ImageOpsError::DimensionMismatch { lhs: ld, rhs: rd });
        }
        let a = lhs.data();
        let b = rhs.data();
        if a.len() != b.len() {
            return Err(ImageOpsError::DimensionMismatch { lhs: ld, rhs: rd });
        }
        let out = abs_diff_bytes(a, b);
        assert(out@ =~= Seq::new(
            lhs.spec_data().len(),
            |k: int| abs_diff_byte(lhs.spec_data()[k], rhs.spec_data()[k]),
        ));
        OwnedMatView::new(lhs.width(), lhs.height(), lhs.pixel_format(), out)
    }

    /// Element-wise `saturate_u8(|src * scale + offset|)`, with `scale_abs`
    /// giving that value for one byte.
    pub fn convert_scale_abs<M: MatView, F: Fn(u8) -> u8>(&self, src: &M, scale_abs: &F) -> (r:
        Result<OwnedMatView, ImageOpsError>)
        requires
            forall|b: u8| scale_abs.requires((b,)),
        ensures
            convert_scale_abs_post(src, *scale_abs, r),
    {
        let out = map_bytes(src.data(), scale_abs);
        OwnedMatView::new(src.width(), src.height(), src.pixel_format(), out)
    }

    /// Locate the minimum and maximum pixel values of a grayscale image and
    /// the positions of their first occurrences.
    pub fn min_max_loc<M: MatView>(&self, src: &M) -> (r: Result<MinMaxResult, ImageOpsError>)
        requires
            src.spec_pixel_format() == PixelFormat::Mono8 && src.spec_data().len() > 0
                ==> src.spec_width() > 0,
        ensures
            min_max_loc_post(src, r),
    {
        let pf = src.pixel_format();
        if pf != PixelFormat::Mono8 {
            return Err(ImageOpsError::UnsupportedPixelFormat(pf));
        }
        let data = src.data();
        if data.len() == 0 {
            return Err(ImageOpsError::EmptyInput);
        }
        let w = src.width();
        let (min_i, max_i) = first_extrema(data);
        let min_loc = ((min_i as u32) % w, (min_i as u32) / w);
        let max_loc = ((max_i as u32) % w, (max_i as u32) / w);
        let r = MinMaxResult { min: data[min_i], max: data[max_i], min_loc, max_loc };
        assert(r.min_loc == pixel_loc(min_i as int, w));
        assert(r.max_loc == pixel_loc(max_i as int, w));
        Ok(r)
    }

    /// Count the non-zero pixels of a grayscale image.
    pub fn count_non_zero<M: MatView>(&self, src: &M) -> (r: Result<u64, ImageOpsError>)
        ensures
            count_non_zero_post(src, r),
    {
        let pf = src.pixel_format();
        if pf != PixelFormat::Mono8 {
            return Err(ImageOpsError::UnsupportedPixelFormat(pf));
        }
        Ok(count_nonzero_bytes(src.data()))
    }

    /// Gaussian blur needs the OpenCV backend: always the backend error.
    pub fn gaussian_blur<M: MatView>(&self, src: &M, ksize: (u32, u32)) -> (r: Result<
        OwnedMatView,
        ImageOpsError,
    >)
        ensures
            r matches Err(e) && is_backend_unsupported(e),
    {
        Err(unsupported_backend())
    }

    /// Resizing needs the OpenCV backend: always the backend error.
    pub fn resize<M: MatView>(&self, src: &M, new_width: u32, new_height: u32) -> (r: Result<
        OwnedMatView,
        ImageOpsError,
    >)
        ensures
            r matches Err(e) && is_backend_unsupported(e),
    {
        Err(unsupported_backend())
    }
}

/// The error of the operations that need an OpenCV backend.
fn unsupported_backend() -> (e: ImageOpsError)
    ensures
        is_backend_unsupported(e),
{
    ImageOpsError::Backend("unsupported in PureRustImageOps: requires OpenCV backend".to_owned())
}

/// Swapping channels 0 and 2 twice restores any buffer of whole pixels, so
/// converting BGR to RGB and back (or RGB to BGR and back) gives the
/// original bytes.
pub proof fn law_channel_swap_round_trip(s: Seq<u8>)
    requires
        s.len() % 3 == 0,
    ensures
        swap_red_blue(swap_red_blue(s)) == s,
{
    let t = swap_red_blue(s);
    assert forall|k: int| 0 <= k < s.len() implies #[trigger] swap_red_blue(t)[k] == s[k] by {
        let p = k / 3;
        assert(p * 3 + 3 <= s.len());
        let j = p * 3 + 2 - k % 3;
        assert(j / 3 == p);
        assert(j % 3 == 2 - k % 3);
    }
    assert(swap_red_blue(t) =~= s);
}

/// Broadcasting a gray image gives every output pixel three equal channels
/// holding the gray value.
pub proof fn law_gray_broadcast_equal_channels(s: Seq<u8>, p: int)
    requires
        0 <= p < s.len(),
    ensures
        broadcast_gray(s).len() == 3 * s.len(),
        broadcast_gray(s)[3 * p] == s[p],
        broadcast_gray(s)[3 * p + 1] == s[p],
        broadcast_gray(s)[3 * p + 2] == s[p],
{
    assert((3 * p) / 3 == p);
    assert((3 * p + 1) / 3 == p);
    assert((3 * p + 2) / 3 == p);
}

/// The absolute difference is symmetric and is zero exactly on equal bytes,
/// so `absdiff(a, b)` and `absdiff(b, a)` hold the same bytes and
/// `absdiff(a, a)` is all zeros.
pub proof fn law_abs_diff_symmetric(x: u8, y: u8)
    ensures
        abs_diff_byte(x, y) == abs_diff_byte(y, x),
        abs_diff_byte(x, y) == 0 <==> x == y,
{
}

/// Binary thresholding only ever produces `0` or `max_val`.
pub proof fn law_threshold_two_levels(b: u8, thresh: i32, max_val: u8)
    ensures
        threshold_byte(b, thresh, max_val) == 0 || threshold_byte(b, thresh, max_val) == max_val,
        (b > thresh) ==> threshold_byte(b, thresh, max_val) == max_val,
        !(b > thresh) ==> threshold_byte(b, thresh, max_val) == 0,
{
}

/// Number of bytes of `s` strictly greater than `thresh`.
pub open spec fn count_above(s: Seq<u8>, thresh: i32) -> nat
    decreases s.len(),
{
    if s.len() == 0 {
        0
    } else {
        count_above(s.drop_last(), thresh) + if s.last() > thresh {
            1nat
        } else {
            0nat
        }
    }
}

/// Counting the non-zero pixels of an image thresholded with a non-zero
/// `max_val` counts the pixels strictly above the threshold.
pub proof fn law_count_after_threshold(s: Seq<u8>, thresh: i32, max_val: u8)
    requires
        max_val != 0,
    ensures
        count_nonzero(s.map_values(|b: u8| threshold_byte(b, thresh, max_val))) == count_above(
            s,
            thresh,
        ),
    decreases s.len(),
{
    let m = s.map_values(|b: u8| threshold_byte(b, thresh, max_val));
    if s.len() > 0 {
        law_count_after_threshold(s.drop_last(), thresh, max_val);
        assert(m.drop_last() =~= s.drop_last().map_values(
            |b: u8| threshold_byte(b, thresh, max_val),
        ));
    }
}

/// An image never has more non-zero pixels than bytes.
pub proof fn law_count_bounded(s: Seq<u8>)
    ensures
        count_nonzero(s) <= s.len(),
    decreases s.len(),
{
    if s.len() > 0 {
        law_count_bounded(s.drop_last());
    }
}

/// The minimum found is at most the maximum, and a location maps back to
/// the byte index it was computed from: `y * width + x == i`.
pub proof fn law_extrema_locations(s: Seq<u8>, i: int, j: int, width: u32)
    requires
        is_first_min(s, i),
        is_first_max(s, j),
        width > 0,
        s.len() <= u32::MAX,
    ensures
        s[i] <= s[j],
        pixel_loc(i, width).1 * width + pixel_loc(i, width).0 == i,
        pixel_loc(j, width).1 * width + pixel_loc(j, width).0 == j,
        pixel_loc(i, width).0 < width,
        pixel_loc(j, width).0 < width,
{
    assert((i as u32) as int == i);
    assert((j as u32) as int == j);
    let w = width as int;
    assert(i == (i / w) * w + i % w) by (nonlinear_arith)
        requires
            w > 0,
    ;
    assert(j == (j / w) * w + j % w) by (nonlinear_arith)
        requires
            w > 0,
    ;
}

/// Converting an image whose byte count matches its shape, from the format
/// the conversion accepts, always succeeds: the converted bytes exactly fill
/// an image of the same width and height in the produced format.
pub proof fn law_conversion_of_consistent_image_fits(
    conv: ColorConversion,
    width: u32,
    height: u32,
    len: int,
)
    requires
        len == image_len(width, height, spec_conversion_formats(conv).0.spec_channels()),
    ensures
        converted_len(conv, len) == image_len(
            width,
            height,
            spec_conversion_formats(conv).1.spec_channels(),
        ),
{
    let wh = width * height;
    assert(len == wh * spec_conversion_formats(conv).0.spec_channels()) by (nonlinear_arith)
        requires
            len == image_len(width, height, spec_conversion_formats(conv).0.spec_channels()),
            wh == width * height,
    ;
    assert(image_len(width, height, spec_conversion_formats(conv).1.spec_channels()) == wh
        * spec_conversion_formats(conv).1.spec_channels()) by (nonlinear_arith)
        requires
            wh == width * height,
    ;
}

/// The channel swap exchanges the first and third byte of every complete
/// pixel, keeps the middle byte, and keeps the length.
pub proof fn law_channel_swap_exchanges_outer_bytes(s: Seq<u8>, p: int)
    requires
        0 <= p,
        3 * p + 3 <= s.len(),
    ensures
        swap_red_blue(s).len() == s.len(),
        swap_red_blue(s)[3 * p] == s[3 * p + 2],
        swap_red_blue(s)[3 * p + 1] == s[3 * p + 1],
        swap_red_blue(s)[3 * p + 2] == s[3 * p],
        forall|k: int| s.len() - s.len() % 3 <= k < s.len() ==> #[trigger] swap_red_blue(s)[k] == 0,
{
    assert((3 * p) / 3 == p && (3 * p) % 3 == 0);
    assert((3 * p + 1) / 3 == p && (3 * p + 1) % 3 == 1);
    assert((3 * p + 2) / 3 == p && (3 * p + 2) % 3 == 2);
}

/// The absolute difference of two bytes is their distance: added to the
/// smaller byte it gives the larger one.
pub proof fn law_abs_diff_is_distance(x: u8, y: u8)
    ensures
        abs_diff_byte(x, y) + (if x <= y { x } else { y }) == (if x >= y { x } else { y }),
{
}

/// The non-zero count is the length of the subsequence of non-zero bytes,
/// and appending a byte adds one exactly when that byte is non-zero.
pub proof fn law_count_nonzero_counts_each_nonzero_byte(s: Seq<u8>, b: u8)
    ensures
        count_nonzero(s) == s.filter(|x: u8| x != 0).len(),
        count_nonzero(s.push(b)) == count_nonzero(s) + (if b != 0 { 1int } else { 0int }),
    decreases s.len(),
{
    assert(s.push(b).drop_last() =~= s);
    reveal(Seq::filter);
    if s.len() > 0 {
        law_count_nonzero_counts_each_nonzero_byte(s.drop_last(), b);
    }
}

/// A buffer has at most one first-minimum index and at most one
/// first-maximum index, and each holds a value no other byte goes below
/// (or above), no earlier byte equalling it.
pub proof fn law_first_extremum_is_unique(s: Seq<u8>, i: int, i2: int, k: int)
    requires
        0 <= k < s.len(),
    ensures
        is_first_min(s, i) ==> s[i] <= s[k] && (k < i ==> s[k] != s[i]),
        is_first_max(s, i) ==> s[k] <= s[i] && (k < i ==> s[k] != s[i]),
        is_first_min(s, i) && is_first_min(s, i2) ==> i == i2,
        is_first_max(s, i) && is_first_max(s, i2) ==> i == i2,
{
    if is_first_min(s, i) && is_first_min(s, i2) && i != i2 {
        assert(s[i] <= s[i2] && s[i2] <= s[i]);
        if i < i2 {
            assert(s[i2] < s[i]);
        } else {
            assert(s[i] < s[i2]);
        }
    }
    if is_first_max(s, i) && is_first_max(s, i2) && i != i2 {
        assert(s[i] <= s[i2] && s[i2] <= s[i]);
        if i < i2 {
            assert(s[i] < s[i2]);
        } else {
            assert(s[i2] < s[i]);
        }
    }
}

} // verus!
