//! The [`MatView`] trait and the owned image buffer [`OwnedMatView`].

use crate::error::ImageOpsError;
use crate::types::PixelFormat;
use vstd::prelude::*;

verus! {

/// Number of bytes an image of the given shape holds.
pub open spec fn image_len(width: u32, height: u32, channels: u32) -> int {
    width * height * channels
}

/// `width * height * channels`, computed without overflow.
pub fn shape_len(width: u32, height: u32, channels: u32) -> (n: u128)
    ensures
        n == image_len(width, height, channels),
{
    let w: u128 = width as u128;
    let h: u128 = height as u128;
    let c: u128 = channels as u128;
    assert(w * h <= 0xffff_ffffu128 * 0xffff_ffffu128) by (nonlinear_arith)
        requires
            w <= 0xffff_ffffu128,
            h <= 0xffff_ffffu128,
    ;
    assert(w * h * c <= 0xffff_ffffu128 * 0xffff_ffffu128 * 0xffff_ffffu128) by (nonlinear_arith)
        requires
            w * h <= 0xffff_ffffu128 * 0xffff_ffffu128,
            c <= 0xffff_ffffu128,
    ;
    w * h * c
}

/// The byte count of a view matches its shape and pixel format.
pub open spec fn shape_consistent<M: MatView>(m: &M) -> bool {
    &&& m.spec_data().len() == image_len(m.spec_width(), m.spec_height(), m.spec_channels())
    &&& m.spec_channels() == m.spec_pixel_format().spec_channels()
}

/// Read-only view over an image buffer with pixel-format metadata.
pub trait MatView {
    /// Width in pixels.
    spec fn spec_width(&self) -> u32;

    /// Height in pixels.
    spec fn spec_height(&self) -> u32;

    /// Number of channels per pixel.
    spec fn spec_channels(&self) -> u32;

    /// The pixel format describing the interleaved byte layout.
    spec fn spec_pixel_format(&self) -> PixelFormat;

    /// The raw pixel bytes in row-major interleaved order.
    spec fn spec_data(&self) -> Seq<u8>;

    /// Width in pixels.
    fn width(&self) -> (w: u32)
        ensures
            w == self.spec_width(),
    ;

    /// Height in pixels.
    fn height(&self) -> (h: u32)
        ensures
            h == self.spec_height(),
    ;

    /// Number of channels per pixel.
    fn channels(&self) -> (c: u32)
        ensures
            c == self.spec_channels(),
    ;

    /// The pixel format describing the interleaved byte layout.
    fn pixel_format(&self) -> (pf: PixelFormat)
        ensures
            pf == self.spec_pixel_format(),
    ;

    /// The raw pixel bytes in row-major interleaved order.
    fn data(&self) -> (d: &[u8])
        ensures
            d@ == self.spec_data(),
    ;
}

/// Calls `Vec::as_mut_slice`: the slice holds the vector's bytes, writes
/// through it are the vector's new bytes, and a slice cannot change length.
/// It does not panic.
#[verifier::external_body]
fn bytes_mut(v: &mut Vec<u8>) -> (s: &mut [u8])
    ensures
        s@ == old(v)@,
        final(s)@ == final(v)@,
        final(s)@.len() == s@.len(),
    no_unwind
{
    v.as_mut_slice()
}

/// Pure-Rust owned image buffer whose byte count always equals
/// `width * height * channels` (a type invariant; every accessor of the
/// [`MatView`] implementation ensures it, so that [`shape_consistent`] holds
/// for any view a caller has read from).
#[derive(Debug)]
pub struct OwnedMatView {
    width: u32,
    height: u32,
    pixel_format: PixelFormat,
    data: Vec<u8>,
}

impl OwnedMatView {
    /// The byte count always matches the shape.
    #[verifier::type_invariant]
    spec fn byte_count_matches(self) -> bool {
        self.data@.len() == image_len(self.width, self.height, self.pixel_format.spec_channels())
    }

    /// Build a new owned mat-view. Fails with
    /// [`ImageOpsError::InvalidParameter`] exactly when `data.len()` differs
    /// from `width * height * pixel_format.channels()`.
    pub fn new(width: u32, height: u32, pixel_format: PixelFormat, data: Vec<u8>) -> (r: Result<
        Self,
        ImageOpsError,
    >)
        ensures
            data@.len() == image_len(width, height, pixel_format.spec_channels()) <==> r is Ok,
            r matches Ok(v) ==> {
                &&& shape_consistent(&v)
                &&& v.spec_width() == width
                &&& v.spec_height() == height
                &&& v.spec_pixel_format() == pixel_format
                &&& v.spec_data() == data@
            },
            r matches Err(e) ==> e matches ImageOpsError::InvalidParameter(_),
    {
        let expected: u128 = shape_len(width, height, pixel_format.channels());
        if data.len() as u128 != expected {
            return Err(
                ImageOpsError::InvalidParameter(
                    "OwnedMatView: data length does not match width*height*channels",
                ),
            );
        }
        Ok(OwnedMatView { width, height, pixel_format, data })
    }

    /// Allocate a zero-filled mat-view of the given shape and format.
    pub fn zeros(width: u32, height: u32, pixel_format: PixelFormat) -> (v: Self)
        requires
            image_len(width, height, pixel_format.spec_channels()) <= usize::MAX,
        ensures
            shape_consistent(&v),
            v.spec_width() == width,
            v.spec_height() == height,
            v.spec_pixel_format() == pixel_format,
            v.spec_data().len() == image_len(width, height, pixel_format.spec_channels()),
            forall|i: int| 0 <= i < v.spec_data().len() ==> v.spec_data()[i] == 0,
    {
        let len: usize = (width as usize) * (height as usize) * (pixel_format.channels() as usize);
        let data: Vec<u8> = vec![0u8; len];
        OwnedMatView { width, height, pixel_format, data }
    }

    /// Consume the view and return the backing buffer.
    pub fn into_data(self) -> (d: Vec<u8>)
        ensures
            d@ == self.spec_data(),
            shape_consistent(&self),
    {
        proof {
            use_type_invariant(&self);
        }
        self.data
    }

    /// Mutable access to the backing buffer; its length cannot change.
    pub fn data_mut(&mut self) -> (d: &mut [u8])
        ensures
            d@ == old(self).spec_data(),
            final(d)@ == final(self).spec_data(),
            final(self).spec_width() == old(self).spec_width(),
            final(self).spec_height() == old(self).spec_height(),
            final(self).spec_pixel_format() == old(self).spec_pixel_format(),
    {
        proof {
            use_type_invariant(&*self);
        }
        bytes_mut(&mut self.data)
    }
}

impl Clone for OwnedMatView {
    /// A copy with the same shape, format and bytes.
    fn clone(&self) -> (c: Self)
        ensures
            shape_consistent(&c),
            shape_consistent(self),
            c.spec_width() == self.spec_width(),
            c.spec_height() == self.spec_height(),
            c.spec_pixel_format() == self.spec_pixel_format(),
            c.spec_data() == self.spec_data(),
    {
        proof {
            use_type_invariant(self);
        }
        let data = self.data.clone();
        assert(data@ =~= self.data@);
        OwnedMatView {
            width: self.width,
            height: self.height,
            pixel_format: self.pixel_format,
            data,
        }
    }
}

impl MatView for OwnedMatView {
    closed spec fn spec_width(&self) -> u32 {
        self.width
    }

    closed spec fn spec_height(&self) -> u32 {
        self.height
    }

    closed spec fn spec_channels(&self) -> u32 {
        self.pixel_format.spec_channels()
    }

    closed spec fn spec_pixel_format(&self) -> PixelFormat {
        self.pixel_format
    }

    closed spec fn spec_data(&self) -> Seq<u8> {
        self.data@
    }

    fn width(&self) -> (w: u32)
        ensures
            self.spec_data().len() == image_len(
                self.spec_width(),
                self.spec_height(),
                self.spec_channels(),
            ),
            self.spec_channels() == self.spec_pixel_format().spec_channels(),
    {
        proof {
            use_type_invariant(self);
        }
        self.width
    }

    fn height(&self) -> (h: u32)
        ensures
            self.spec_data().len() == image_len(
                self.spec_width(),
                self.spec_height(),
                self.spec_channels(),
            ),
            self.spec_channels() == self.spec_pixel_format().spec_channels(),
    {
        proof {
            use_type_invariant(self);
        }
        self.height
    }

    fn channels(&self) -> (c: u32)
        ensures
            self.spec_data().len() == image_len(
                self.spec_width(),
                self.spec_height(),
                self.spec_channels(),
            ),
            self.spec_channels() == self.spec_pixel_format().spec_channels(),
    {
        proof {
            use_type_invariant(self);
        }
        self.pixel_format.channels()
    }

    fn pixel_format(&self) -> (pf: PixelFormat)
        ensures
            self.spec_data().len() == image_len(
                self.spec_width(),
                self.spec_height(),
                self.spec_channels(),
            ),
            self.spec_channels() == self.spec_pixel_format().spec_channels(),
    {
        proof {
            use_type_invariant(self);
        }
        self.pixel_format
    }

    fn data(&self) -> (d: &[u8])
        ensures
            self.spec_data().len() == image_len(
                self.spec_width(),
                self.spec_height(),
                self.spec_channels(),
            ),
            self.spec_channels() == self.spec_pixel_format().spec_channels(),
    {
        proof {
            use_type_invariant(self);
        }
        self.data.as_slice()
    }
}

} // verus!
