use combiner::floating_image::FloatingImage;
use combiner::floating_image::ImageDataErrors;
use combiner::image_ops::combine_images;
use combiner::image_ops::get_smallest_dimensions;
use combiner::image_ops::standardize_size;
use combiner::image_ops::PixelImage;

#[test]
fn smallest_dimensions_picks_fewer_pixels() {
    assert_eq!(get_smallest_dimensions((2, 3), (4, 1)), (4, 1));
    assert_eq!(get_smallest_dimensions((4, 1), (2, 3)), (4, 1));
}

#[test]
fn smallest_dimensions_tie_picks_second() {
    assert_eq!(get_smallest_dimensions((2, 2), (4, 1)), (4, 1));
}

#[test]
fn floating_image_new_reserves_empty_buffer() {
    let image = FloatingImage::new(2, 3, String::from("out.png"));
    assert_eq!(image.width, 2);
    assert_eq!(image.height, 3);
    assert_eq!(image.name, "out.png");
    assert!(image.data.is_empty());
}

#[test]
fn set_data_accepts_fitting_buffer() {
    let mut image = FloatingImage::new(2, 2, String::from("out.png"));
    let data = vec![7u8; 16];
    let result = image.set_data(data.clone());
    assert!(result.is_ok());
    assert_eq!(image.data, data);
}

#[test]
fn set_data_rejects_oversized_buffer() {
    let mut image = FloatingImage::new(2, 2, String::from("out.png"));
    let result = image.set_data(vec![7u8; 17]);
    assert!(matches!(result, Err(ImageDataErrors::BufferTooSmall)));
    assert!(image.data.is_empty());
}

#[test]
fn standardize_size_resizes_first_image() {
    // The second image already has the smaller dimensions, so the first is
    // resized down to them and the second is returned unchanged.
    let image_1 = PixelImage { width: 2, height: 2, data: vec![10u8; 16] };
    let image_2 = PixelImage { width: 1, height: 1, data: vec![20u8; 4] };
    let (out_1, out_2) = standardize_size(image_1, image_2);
    assert_eq!((out_1.width, out_1.height), (1, 1));
    assert_eq!(out_1.data.len(), 4);
    assert_eq!((out_2.width, out_2.height), (1, 1));
    assert_eq!(out_2.data, vec![20u8; 4]);
}

#[test]
fn standardize_size_resizes_second_image() {
    let image_1 = PixelImage { width: 1, height: 1, data: vec![10u8; 4] };
    let image_2 = PixelImage { width: 2, height: 2, data: vec![20u8; 16] };
    let (out_1, out_2) = standardize_size(image_1, image_2);
    assert_eq!((out_1.width, out_1.height), (1, 1));
    assert_eq!(out_1.data, vec![10u8; 4]);
    assert_eq!((out_2.width, out_2.height), (1, 1));
    assert_eq!(out_2.data.len(), 4);
}

#[test]
fn combine_images_interleaves_pixel_blocks() {
    let image_1 = PixelImage { width: 2, height: 1, data: vec![10u8; 8] };
    let image_2 = PixelImage { width: 2, height: 1, data: vec![20u8; 8] };
    let combined = combine_images(image_1, image_2);
    assert_eq!(combined, vec![10, 10, 10, 10, 20, 20, 20, 20]);
}
