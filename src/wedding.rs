//! Two decoded images in, one combined output image out.

use vstd::prelude::*;

use crate::dims::{is_zero_area, smallest_dimension};
use crate::error::ImageDataErr;
use crate::interleave::{alternate_pixels, interleaved};
use crate::output::{FloatingImg, FloatingImgView};
use crate::raster::{fits_resize_limits, standardize, within_resize_limits, Raster};

verus! {

/// The output image that two images make: their reconciled size, `name`, and
/// their pixels, each brought to that size, woven together.
pub open spec fn wedded(img_1: Raster, img_2: Raster, name: Seq<char>) -> FloatingImgView {
    let target = smallest_dimension(img_1.dims(), img_2.dims());
    FloatingImgView {
        width: target.0,
        height: target.1,
        data: interleaved(img_1.reconciled(target), img_2.reconciled(target)),
        name,
    }
}

/// Combines two images into an output image named `name`: both are brought
/// to their reconciled size and their pixels woven together. An image with a
/// width or a height of zero gives `ZeroAreaImage`; two images of which one
/// cannot be resized to the other's size give `ImageTooLarge`.
pub fn wed_images(img_1: Raster, img_2: Raster, name: String) -> (r: Result<
    FloatingImg,
    ImageDataErr,
>)
    requires
        img_1.wf(),
        img_2.wf(),
    ensures
        is_zero_area(img_1.dims()) || is_zero_area(img_2.dims()) ==> r == Err::<
            FloatingImg,
            ImageDataErr,
        >(ImageDataErr::ZeroAreaImage),
        !is_zero_area(img_1.dims()) && !is_zero_area(img_2.dims()) && !within_resize_limits(
            img_1.dims(),
            img_2.dims(),
        ) ==> r == Err::<FloatingImg, ImageDataErr>(ImageDataErr::ImageTooLarge),
        !is_zero_area(img_1.dims()) && !is_zero_area(img_2.dims()) && within_resize_limits(
            img_1.dims(),
            img_2.dims(),
        ) ==> r is Ok && r->Ok_0.wf()
            && r->Ok_0@ == wedded(img_1, img_2, name@),
{
    if img_1.width == 0 || img_1.height == 0 || img_2.width == 0 || img_2.height == 0 {
        return Err(ImageDataErr::ZeroAreaImage);
    }
    if !fits_resize_limits((img_1.width, img_1.height), (img_2.width, img_2.height)) {
        return Err(ImageDataErr::ImageTooLarge);
    }
    let ghost target = smallest_dimension(img_1.dims(), img_2.dims());
    let ghost expected = wedded(img_1, img_2, name@);
    let (img_1, img_2) = standardize(img_1, img_2);
    let len = img_1.data.len();
    proof {
        assert(len % 4 == 0) by (nonlinear_arith)
            requires
                len == img_1.width as int * img_1.height as int * 4,
        ;
    }
    let mut output = FloatingImg::new(img_1.width, img_1.height, name);
    let combined_data = match alternate_pixels(img_1.data, img_2.data) {
        Ok(d) => d,
        Err(e) => return Err(e),
    };
    match output.set_data(combined_data) {
        Ok(()) => {},
        Err(e) => return Err(e),
    }
    proof {
        assert(output@ == expected);
    }
    Ok(output)
}

} // verus!
