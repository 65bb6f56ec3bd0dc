use pic_wedding::error::ImageDataErr;
use pic_wedding::interleave::alternate_pixels;

#[test]
fn interleave_end_to_end_example() {
    let a = vec![1, 2, 3, 4, 10, 20, 30, 40];
    let b = vec![5, 6, 7, 8, 50, 60, 70, 80];
    assert_eq!(alternate_pixels(a, b), Ok(vec![1, 2, 3, 4, 50, 60, 70, 80]));
}

#[test]
fn interleave_rejects_length_mismatch() {
    assert_eq!(
        alternate_pixels(vec![0u8; 12], vec![0u8; 16]),
        Err(ImageDataErr::LengthMismatch)
    );
    assert_eq!(
        alternate_pixels(vec![0u8; 16], vec![0u8; 12]),
        Err(ImageDataErr::LengthMismatch)
    );
}

#[test]
fn interleave_rejects_partial_pixel() {
    assert_eq!(
        alternate_pixels(vec![0u8; 6], vec![1u8; 6]),
        Err(ImageDataErr::PixelOutOfBounds)
    );
}

#[test]
fn interleave_empty_buffers() {
    assert_eq!(alternate_pixels(Vec::new(), Vec::new()), Ok(Vec::new()));
}

#[test]
fn interleave_preserves_length() {
    let out = alternate_pixels(vec![1u8; 24], vec![2u8; 24]).unwrap();
    assert_eq!(out.len(), 24);
}

#[test]
fn interleave_pixels_come_whole_from_one_source() {
    let a: Vec<u8> = (0u8..20).collect();
    let b: Vec<u8> = (100u8..120).collect();
    let out = alternate_pixels(a.clone(), b.clone()).unwrap();
    for p in 0..5usize {
        let src = if (4 * p) % 8 == 0 { &a } else { &b };
        assert_eq!(&out[4 * p..4 * p + 4], &src[4 * p..4 * p + 4]);
    }
    assert_eq!(
        out,
        vec![
            0, 1, 2, 3, 104, 105, 106, 107, 8, 9, 10, 11, 112, 113, 114, 115, 16, 17, 18, 19
        ]
    );
}

#[test]
fn interleave_identical_inputs_unchanged() {
    let x: Vec<u8> = (7u8..39).collect();
    assert_eq!(alternate_pixels(x.clone(), x.clone()), Ok(x));
}
