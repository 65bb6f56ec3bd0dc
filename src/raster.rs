//! Decoded RGBA8 images and bringing two of them to one size.

use vstd::prelude::*;

use crate::dims::{get_smallest_dimension, is_zero_area, smallest_dimension};

verus! {

/// A decoded image: its size and its RGBA8 bytes in row-major order.
pub struct Raster {
    pub width: u32,
    pub height: u32,
    pub data: Vec<u8>,
}

/// What `image::imageops::resize` with the triangle filter makes of an RGBA8
/// buffer of one size when asked for another.
pub uninterp spec fn resized_rgba(
    data: Seq<u8>,
    width: u32,
    height: u32,
    new_width: u32,
    new_height: u32,
) -> Seq<u8>;

/// Longest side, in pixels, that resizing accepts. Up to 2^22 the positions
/// that the triangle filter computes in `f32` stay within half a pixel of the
/// exact ones, so every output pixel draws on at least one source pixel with
/// a positive weight; above it a weight sum can come out zero.
pub const MAX_SIDE: u32 = 4194304;

/// Whether an image of size `from` can be resized to `to`: every side is at
/// most `MAX_SIDE`, and the buffers that resizing allocates (the result, and
/// an intermediate of `f32` channels `from.0` wide and `to.1` high) fit in
/// memory.
pub open spec fn resize_fits(from: (u32, u32), to: (u32, u32)) -> bool {
    &&& from.0 <= MAX_SIDE
    &&& from.1 <= MAX_SIDE
    &&& to.0 <= MAX_SIDE
    &&& to.1 <= MAX_SIDE
    &&& to.0 as int * to.1 as int * 4 <= isize::MAX
    &&& from.0 as int * to.1 as int * 16 <= isize::MAX
}

/// Whether either of two images can be resized to the size of the other.
pub open spec fn within_resize_limits(a: (u32, u32), b: (u32, u32)) -> bool {
    resize_fits(a, b) && resize_fits(b, a)
}

/// Relies on `image::imageops::resize` (triangle filter) over an
/// `RgbaImage` made by `ImageBuffer::from_raw`: the result has the new size,
/// depends on the pixels and the sizes alone, and is a copy of the pixels
/// when the size stays the same.
#[verifier::external_body]
fn resize_rgba(data: Vec<u8>, width: u32, height: u32, new_width: u32, new_height: u32) -> (r: Vec<u8>)
    requires
        data@.len() == width as int * height as int * 4,
        width > 0,
        height > 0,
        new_width > 0,
        new_height > 0,
        resize_fits((width, height), (new_width, new_height)),
    ensures
        r@ == resized_rgba(data@, width, height, new_width, new_height),
        r@.len() == new_width as int * new_height as int * 4,
        new_width == width && new_height == height ==> r@ == data@,
{
    let img = image::RgbaImage::from_raw(width, height, data).unwrap();
    image::imageops::resize(&img, new_width, new_height, image::imageops::FilterType::Triangle)
        .into_raw()
}

impl Raster {
    /// The bytes hold exactly one RGBA8 pixel for each position.
    pub open spec fn wf(&self) -> bool {
        self.data@.len() == self.width as int * self.height as int * 4
    }

    /// Width and height as a pair.
    pub open spec fn dims(&self) -> (u32, u32) {
        (self.width, self.height)
    }

    /// The bytes of this image once brought to `target`: unchanged where it
    /// already has that size, resized otherwise.
    pub open spec fn reconciled(&self, target: (u32, u32)) -> Seq<u8> {
        if self.dims() == target {
            self.data@
        } else {
            resized_rgba(self.data@, self.width, self.height, target.0, target.1)
        }
    }

    /// Makes an image of the given size from its RGBA8 bytes, or nothing when
    /// the number of bytes is not four for each pixel.
    pub fn new(width: u32, height: u32, data: Vec<u8>) -> (r: Option<Raster>)
        ensures
            r is Some <==> data@.len() == width as int * height as int * 4,
            r is Some ==> r->0 == (Raster { width, height, data }),
    {
        let len = data.len();
        match (width as usize).checked_mul(height as usize) {
            Some(pixels) => match pixels.checked_mul(4) {
                Some(bytes) => {
                    if len == bytes {
                        Some(Raster { width, height, data })
                    } else {
                        None
                    }
                },
                None => None,
            },
            None => None,
        }
    }
}

/// Tells whether two sizes are within the limits that resizing one to the
/// other has.
pub fn fits_resize_limits(a: (u32, u32), b: (u32, u32)) -> (r: bool)
    ensures
        r == within_resize_limits(a, b),
{
    if a.0 > MAX_SIDE || a.1 > MAX_SIDE || b.0 > MAX_SIDE || b.1 > MAX_SIDE {
        return false;
    }
    proof {
        vstd::arithmetic::mul::lemma_mul_upper_bound(
            a.0 as int,
            MAX_SIDE as int,
            b.1 as int,
            MAX_SIDE as int,
        );
        vstd::arithmetic::mul::lemma_mul_upper_bound(
            b.0 as int,
            MAX_SIDE as int,
            a.1 as int,
            MAX_SIDE as int,
        );
        vstd::arithmetic::mul::lemma_mul_upper_bound(
            a.0 as int,
            MAX_SIDE as int,
            a.1 as int,
            MAX_SIDE as int,
        );
        vstd::arithmetic::mul::lemma_mul_upper_bound(
            b.0 as int,
            MAX_SIDE as int,
            b.1 as int,
            MAX_SIDE as int,
        );
    }
    let limit = isize::MAX as u64;
    let (a0, a1, b0, b1) = (a.0 as u64, a.1 as u64, b.0 as u64, b.1 as u64);
    a0 * a1 * 4 <= limit && b0 * b1 * 4 <= limit && a0 * b1 * 16 <= limit && b0 * a1 * 16
        <= limit
}

/// Brings two images to their reconciled size, the one with fewer pixels
/// (the first on a tie). When the second image already has that size it is
/// kept as it is and the first is resized; otherwise the second is resized
/// and the first kept.
pub fn standardize(img_1: Raster, img_2: Raster) -> (r: (Raster, Raster))
    requires
        img_1.wf(),
        img_2.wf(),
        !is_zero_area(img_1.dims()),
        !is_zero_area(img_2.dims()),
        within_resize_limits(img_1.dims(), img_2.dims()),
    ensures
        ({
            let target = smallest_dimension(img_1.dims(), img_2.dims());
            &&& r.0.dims() == target
            &&& r.1.dims() == target
            &&& r.0.wf()
            &&& r.1.wf()
            &&& r.0.data@ == img_1.reconciled(target)
            &&& r.1.data@ == img_2.reconciled(target)
            &&& img_2.dims() == target ==> r.1 == img_2
            &&& img_2.dims() != target ==> r.0 == img_1
        }),
{
    let (width, height) = get_smallest_dimension(
        (img_1.width, img_1.height),
        (img_2.width, img_2.height),
    );
    if img_2.width == width && img_2.height == height {
        let data = resize_rgba(img_1.data, img_1.width, img_1.height, width, height);
        (Raster { width, height, data }, img_2)
    } else {
        let data = resize_rgba(img_2.data, img_2.width, img_2.height, width, height);
        (img_1, Raster { width, height, data })
    }
}

} // verus!
