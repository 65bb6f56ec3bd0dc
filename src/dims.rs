//! Dimension reconciliation: the common size that both images are brought to.

use vstd::prelude::*;

verus! {

/// Number of pixels of an image of the given width and height.
pub open spec fn pixel_count(dim: (u32, u32)) -> int {
    dim.0 as int * dim.1 as int
}

/// The reconciled target of two sizes: the one with strictly fewer pixels,
/// the first one on a tie.
pub open spec fn smallest_dimension(dim_1: (u32, u32), dim_2: (u32, u32)) -> (u32, u32) {
    if pixel_count(dim_2) < pixel_count(dim_1) {
        dim_2
    } else {
        dim_1
    }
}

/// Whether an image of this size holds no pixel at all.
pub open spec fn is_zero_area(dim: (u32, u32)) -> bool {
    dim.0 == 0 || dim.1 == 0
}

/// Pixel count of a size, computed without overflow.
fn area(dim: (u32, u32)) -> (r: u64)
    ensures
        r == pixel_count(dim),
{
    proof {
        vstd::arithmetic::mul::lemma_mul_upper_bound(
            dim.0 as int,
            u32::MAX as int,
            dim.1 as int,
            u32::MAX as int,
        );
    }
    (dim.0 as u64) * (dim.1 as u64)
}

/// Picks the size that both images are resized to: the one with strictly
/// fewer pixels, or the first one when both have as many.
pub fn get_smallest_dimension(dim_1: (u32, u32), dim_2: (u32, u32)) -> (r: (u32, u32))
    ensures
        r == smallest_dimension(dim_1, dim_2),
        r == dim_1 || r == dim_2,
        pixel_count(dim_2) < pixel_count(dim_1) ==> r == dim_2,
        pixel_count(dim_1) <= pixel_count(dim_2) ==> r == dim_1,
        pixel_count(r) <= pixel_count(dim_1),
        pixel_count(r) <= pixel_count(dim_2),
{
    let pix_1 = area(dim_1);
    let pix_2 = area(dim_2);
    if pix_2 < pix_1 {
        dim_2
    } else {
        dim_1
    }
}

} // verus!
