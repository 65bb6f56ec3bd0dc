use pic_wedding::error::ImageDataErr;
use pic_wedding::output::FloatingImg;
use pic_wedding::raster::Raster;
use pic_wedding::wedding::wed_images;

#[test]
fn floating_img_starts_empty() {
    let img = FloatingImg::new(3, 2, String::from("out.png"));
    assert_eq!(img.width(), 3);
    assert_eq!(img.height(), 2);
    assert!(img.data().is_empty());
    assert_eq!(img.name(), "out.png");
}

#[test]
fn set_data_within_capacity() {
    let mut img = FloatingImg::new(2, 1, String::from("o"));
    assert_eq!(img.set_data(vec![9u8; 8]), Ok(()));
    assert_eq!(img.data(), &vec![9u8; 8]);
    assert_eq!(img.set_data(vec![1u8; 4]), Ok(()));
    assert_eq!(img.data(), &vec![1u8; 4]);
}

#[test]
fn set_data_over_capacity_is_rejected() {
    let mut img = FloatingImg::new(2, 1, String::from("o"));
    img.set_data(vec![5u8; 8]).unwrap();
    assert_eq!(
        img.set_data(vec![9u8; 9]),
        Err(ImageDataErr::BufferCapacityExceeded)
    );
    assert_eq!(img.data(), &vec![5u8; 8]);
}

#[test]
fn wed_rejects_zero_area() {
    let empty = Raster::new(0, 4, Vec::new()).unwrap();
    let other = Raster::new(1, 1, vec![1, 2, 3, 4]).unwrap();
    assert!(matches!(
        wed_images(empty, other, String::from("o")),
        Err(ImageDataErr::ZeroAreaImage)
    ));
    let empty = Raster::new(4, 0, Vec::new()).unwrap();
    let other = Raster::new(1, 1, vec![1, 2, 3, 4]).unwrap();
    assert!(matches!(
        wed_images(other, empty, String::from("o")),
        Err(ImageDataErr::ZeroAreaImage)
    ));
}

#[test]
fn wed_same_size_images() {
    let a = Raster::new(2, 1, vec![1, 2, 3, 4, 10, 20, 30, 40]).unwrap();
    let b = Raster::new(2, 1, vec![5, 6, 7, 8, 50, 60, 70, 80]).unwrap();
    let out = wed_images(a, b, String::from("both.png")).unwrap();
    assert_eq!((out.width(), out.height()), (2, 1));
    assert_eq!(out.data(), &vec![1, 2, 3, 4, 50, 60, 70, 80]);
    assert_eq!(out.name(), "both.png");
}

#[test]
fn wed_odd_width_shifts_pattern_across_rows() {
    let a = Raster::new(3, 2, vec![1u8; 24]).unwrap();
    let b = Raster::new(3, 2, vec![2u8; 24]).unwrap();
    let out = wed_images(a, b, String::from("o")).unwrap();
    let firsts: Vec<u8> = out.data().chunks(4).map(|px| px[0]).collect();
    assert_eq!(firsts, vec![1, 2, 1, 2, 1, 2]);
}

#[test]
fn wed_resizes_larger_image_to_smaller() {
    let a = Raster::new(4, 4, vec![10u8; 64]).unwrap();
    let b = Raster::new(2, 2, vec![20u8; 16]).unwrap();
    let out = wed_images(a, b, String::from("o")).unwrap();
    assert_eq!((out.width(), out.height()), (2, 2));
    assert_eq!(out.data().len(), 16);
    assert_eq!(&out.data()[4..8], &[20u8; 4]);
    assert_eq!(&out.data()[12..16], &[20u8; 4]);
}

#[test]
fn wed_rejects_side_above_resize_limit() {
    let wide = Raster::new(4194305, 1, vec![0u8; 4194305 * 4]).unwrap();
    let dot = Raster::new(1, 1, vec![1, 2, 3, 4]).unwrap();
    assert!(matches!(
        wed_images(wide, dot, String::from("o")),
        Err(ImageDataErr::ImageTooLarge)
    ));
}
