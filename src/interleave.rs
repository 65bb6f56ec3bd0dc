//! Pixel interleaving: two RGBA8 buffers of one size woven into one.

use vstd::prelude::*;

use crate::error::ImageDataErr;

verus! {

/// Bytes per RGBA8 pixel.
pub const CHANNELS: usize = 4;

/// Whether the pixel with index `p` is taken from the first buffer: the one
/// whose byte offset `4 * p` is a multiple of eight.
pub open spec fn pixel_from_first(p: int) -> bool {
    (4 * p) % 8 == 0
}

/// The woven buffer: each byte comes from the buffer that its pixel is taken from.
pub open spec fn interleaved(a: Seq<u8>, b: Seq<u8>) -> Seq<u8> {
    Seq::new(a.len(), |k: int| if pixel_from_first(k / 4) { a[k] } else { b[k] })
}

/// The four bytes of pixel `p` in a buffer.
pub open spec fn pixel_at(s: Seq<u8>, p: int) -> Seq<u8> {
    s.subrange(4 * p, 4 * p + 4)
}

/// A byte at offset `k` within the pixel that starts at `i` belongs to pixel `i / 4`.
proof fn lemma_byte_in_pixel(i: int, k: int)
    requires
        0 <= i,
        i % 4 == 0,
        i <= k < i + 4,
    ensures
        k / 4 == i / 4,
        4 * (k / 4) == i,
{
}

/// Each output pixel is, whole, the pixel at the same index of one input:
/// the first input's where its byte offset is a multiple of eight, the
/// second's elsewhere.
pub proof fn lemma_source_fidelity(a: Seq<u8>, b: Seq<u8>, p: int)
    requires
        a.len() == b.len(),
        a.len() % 4 == 0,
        0 <= p < a.len() / 4,
    ensures
        pixel_at(interleaved(a, b), p) == if pixel_from_first(p) {
            pixel_at(a, p)
        } else {
            pixel_at(b, p)
        },
{
    let out = interleaved(a, b);
    let src = if pixel_from_first(p) { a } else { b };
    assert forall|k: int| 4 * p <= k < 4 * p + 4 implies out[k] == src[k] by {
        lemma_byte_in_pixel(4 * p, k);
    }
    assert(pixel_at(out, p) =~= pixel_at(src, p));
}

/// Weaving a buffer with itself gives the buffer back.
pub proof fn lemma_interleave_self(x: Seq<u8>)
    ensures
        interleaved(x, x) == x,
{
    assert(interleaved(x, x) =~= x);
}

/// Copies the bytes from `start` to `end`, both included; nothing when
/// `start` is past `end`.
fn set_rgba(vec: &Vec<u8>, start: usize, end: usize) -> (rgba: Vec<u8>)
    requires
        start > end || end < vec@.len(),
    ensures
        start > end ==> rgba@ == Seq::<u8>::empty(),
        start <= end ==> rgba@ == vec@.subrange(start as int, end + 1),
{
    if start > end {
        return Vec::new();
    }
    let n = vec.len();
    let mut rgba: Vec<u8> = Vec::new();
    let mut i: usize = start;
    while i <= end
        invariant
            start <= i <= end + 1,
            end < n,
            n == vec@.len(),
            rgba@ == vec@.subrange(start as int, i as int),
        decreases end + 1 - i,
    {
        rgba.push(vec[i]);
        i = i + 1;
    }
    rgba
}

/// Weaves two RGBA8 buffers of equal length into one: the pixel at byte
/// offset `i` comes from `vec_1` when `i` is a multiple of eight and from
/// `vec_2` otherwise, its four bytes intact.
///
/// Buffers of different lengths give `LengthMismatch`; a shared length that
/// is not a whole number of pixels gives `PixelOutOfBounds`.
pub fn alternate_pixels(vec_1: Vec<u8>, vec_2: Vec<u8>) -> (r: Result<Vec<u8>, ImageDataErr>)
    ensures
        vec_1@.len() != vec_2@.len() ==> r == Err::<Vec<u8>, ImageDataErr>(
            ImageDataErr::LengthMismatch,
        ),
        vec_1@.len() == vec_2@.len() && vec_1@.len() % 4 != 0 ==> r == Err::<
            Vec<u8>,
            ImageDataErr,
        >(ImageDataErr::PixelOutOfBounds),
        vec_1@.len() == vec_2@.len() && vec_1@.len() % 4 == 0 ==> r is Ok && r->Ok_0@
            == interleaved(vec_1@, vec_2@) && r->Ok_0@.len() == vec_1@.len(),
{
    if vec_1.len() != vec_2.len() {
        return Err(ImageDataErr::LengthMismatch);
    }
    let len = vec_1.len();
    if len % CHANNELS != 0 {
        return Err(ImageDataErr::PixelOutOfBounds);
    }
    let mut combine_data: Vec<u8> = Vec::with_capacity(len);
    let mut i: usize = 0;
    while i < len
        invariant
            len == vec_1@.len(),
            len == vec_2@.len(),
            len % 4 == 0,
            i % 4 == 0,
            i <= len,
            combine_data@ =~= interleaved(vec_1@, vec_2@).subrange(0, i as int),
        decreases len - i,
    {
        let mut rgba = if i % 8 == 0 {
            set_rgba(&vec_1, i, i + 3)
        } else {
            set_rgba(&vec_2, i, i + 3)
        };
        let ghost before = combine_data@;
        combine_data.append(&mut rgba);
        proof {
            let target = interleaved(vec_1@, vec_2@);
            assert forall|k: int| i <= k < i + 4 implies combine_data@[k] == target[k] by {
                lemma_byte_in_pixel(i as int, k);
            }
            assert(combine_data@ =~= target.subrange(0, i + 4));
        }
        i = i + 4;
    }
    Ok(combine_data)
}

} // verus!
