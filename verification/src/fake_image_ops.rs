//! Image operations for tests that want a working implementation without
//! the OpenCV backend.

use crate::error::ImageOpsError;
use crate::image_ops::{
    absdiff_post, convert_scale_abs_post, count_non_zero_post, cvt_color_post, min_max_loc_post,
    packed, threshold_post, ColorConversion, MinMaxResult, PureRustImageOps, ThresholdKind,
};
use crate::mat_view::{image_len, shape_consistent, MatView, OwnedMatView};
use vstd::prelude::*;

verus! {

/// Image operations that forward to [`PureRustImageOps`] wherever it has an
/// implementation; `gaussian_blur` returns its input unchanged and `resize`
/// returns a zero-filled image of the requested size.
#[derive(Debug, Default, Clone, Copy)]
pub struct PassthroughImageOps;

impl PassthroughImageOps {
    /// Same as [`PureRustImageOps::cvt_color`].
    pub fn cvt_color<M: MatView, G: Fn(u8, u8, u8) -> u8>(
        &self,
        src: &M,
        conv: ColorConversion,
        luma: &G,
    ) -> (r: Result<OwnedMatView, ImageOpsError>)
        requires
            forall|b: u8, g: u8, r: u8| luma.requires((b, g, r)),
            conv == ColorConversion::GrayToRgb ==> 3 * src.spec_data().len() <= usize::MAX,
        ensures
            cvt_color_post(src, conv, *luma, r),
    {
        PureRustImageOps.cvt_color(src, conv, luma)
    }

    /// Identity blur: a copy of `src` with its shape and format.
    pub fn gaussian_blur<M: MatView>(&self, src: &M, ksize: (u32, u32)) -> (r: Result<
        OwnedMatView,
        ImageOpsError,
    >)
        ensures
            packed(r, src.spec_width(), src.spec_height(), src.spec_pixel_format(), src.spec_data()),
    {
        OwnedMatView::new(
            src.width(),
            src.height(),
            src.pixel_format(),
            vstd::slice::slice_to_vec(src.data()),
        )
    }

    /// Same as [`PureRustImageOps::threshold`].
    pub fn threshold<M: MatView>(&self, src: &M, thresh: i32, max_val: u8, kind: ThresholdKind) -> (r:
        Result<OwnedMatView, ImageOpsError>)
        ensures
            threshold_post(src, thresh, max_val, r),
    {
        PureRustImageOps.threshold(src, thresh, max_val, kind)
    }

    /// Same as [`PureRustImageOps::absdiff`].
    pub fn absdiff<L: MatView, R: MatView>(&self, lhs: &L, rhs: &R) -> (r: Result<
        OwnedMatView,
        ImageOpsError,
    >)
        ensures
            absdiff_post(lhs, rhs, r),
    {
        PureRustImageOps.absdiff(lhs, rhs)
    }

    /// Same as [`PureRustImageOps::convert_scale_abs`].
    pub fn convert_scale_abs<M: MatView, F: Fn(u8) -> u8>(&self, src: &M, scale_abs: &F) -> (r:
        Result<OwnedMatView, ImageOpsError>)
        requires
            forall|b: u8| scale_abs.requires((b,)),
        ensures
            convert_scale_abs_post(src, *scale_abs, r),
    {
        PureRustImageOps.convert_scale_abs(src, scale_abs)
    }

    /// Same as [`PureRustImageOps::min_max_loc`].
    pub fn min_max_loc<M: MatView>(&self, src: &M) -> (r: Result<MinMaxResult, ImageOpsError>)
        requires
            src.spec_pixel_format() == crate::types::PixelFormat::Mono8 && src.spec_data().len() > 0
                ==> src.spec_width() > 0,
        ensures
            min_max_loc_post(src, r),
    {
        PureRustImageOps.min_max_loc(src)
    }

    /// Same as [`PureRustImageOps::count_non_zero`].
    pub fn count_non_zero<M: MatView>(&self, src: &M) -> (r: Result<u64, ImageOpsError>)
        ensures
            count_non_zero_post(src, r),
    {
        PureRustImageOps.count_non_zero(src)
    }

    /// A zero-filled image of the requested size in the format of `src`.
    pub fn resize<M: MatView>(&self, src: &M, new_width: u32, new_height: u32) -> (r: Result<
        OwnedMatView,
        ImageOpsError,
    >)
        requires
            image_len(new_width, new_height, src.spec_pixel_format().spec_channels()) <= usize::MAX,
        ensures
            r matches Ok(v) && {
                &&& shape_consistent(&v)
                &&& v.spec_width() == new_width
                &&& v.spec_height() == new_height
                &&& v.spec_pixel_format() == src.spec_pixel_format()
                &&& forall|i: int| 0 <= i < v.spec_data().len() ==> v.spec_data()[i] == 0
            },
    {
        Ok(OwnedMatView::zeros(new_width, new_height, src.pixel_format()))
    }
}

} // verus!
