use bif::config::OutputFormat;
use bif::config::ProcessingArguments;
use bif::raster::Raster;
use bif::resize::can_resize;
use bif::resize::resize_image;
use bif::resize::MAX_SIDE;
use image::DynamicImage;
use image::GenericImage;
use image::GenericImageView;
use image::Rgba;

fn arguments(resize: Option<u32>) -> ProcessingArguments {
    ProcessingArguments { format: OutputFormat::Png, square: false, resize }
}

fn plain(width: u32, height: u32, shade: u8) -> Raster {
    let mut image = DynamicImage::new_rgb8(width, height);
    for y in 0..height {
        for x in 0..width {
            image.put_pixel(x, y, Rgba([shade, shade, shade, 255]));
        }
    }
    Raster { image }
}

#[test]
fn raster_is_left_alone_without_side_length() {
    let out = resize_image(plain(9, 4, 80), &arguments(None)).unwrap();
    assert_eq!(out, plain(9, 4, 80));
}

#[test]
fn both_sides_are_forced_to_the_side_length() {
    for (width, height) in [(400, 300), (30, 200), (100, 100), (1, 1), (250, 100)] {
        let img = plain(width, height, 10);
        assert!(can_resize(&img, &arguments(Some(100))));
        let out = resize_image(img, &arguments(Some(100))).unwrap();
        assert_eq!((out.width(), out.height()), (100, 100));
    }
}

#[test]
fn resize_to_the_same_size_keeps_the_pixels() {
    let out = resize_image(plain(8, 8, 33), &arguments(Some(8))).unwrap();
    assert_eq!(out, plain(8, 8, 33));
}

#[test]
fn resize_of_a_plain_raster_stays_plain() {
    let out = resize_image(plain(40, 20, 120), &arguments(Some(10))).unwrap();
    assert_eq!((out.width(), out.height()), (10, 10));
    assert_eq!(out.image.color(), image::ColorType::Rgb8);
    assert_eq!(out.image.get_pixel(5, 5), Rgba([120, 120, 120, 255]));
}

#[test]
fn resize_can_enlarge() {
    let out = resize_image(plain(2, 3, 50), &arguments(Some(16))).unwrap();
    assert_eq!((out.width(), out.height()), (16, 16));
}

#[test]
fn side_length_zero_gives_an_empty_raster() {
    let img = plain(5, 5, 1);
    assert!(can_resize(&img, &arguments(Some(0))));
    let out = resize_image(img, &arguments(Some(0))).unwrap();
    assert_eq!((out.width(), out.height()), (0, 0));
}

#[test]
fn empty_raster_can_be_resized() {
    let img = Raster { image: DynamicImage::new_rgb8(0, 0) };
    assert!(can_resize(&img, &arguments(Some(4))));
    let out = resize_image(img, &arguments(Some(4))).unwrap();
    assert_eq!((out.width(), out.height()), (4, 4));
}

#[test]
fn side_lengths_beyond_memory_are_out_of_reach() {
    let img = plain(3, 3, 0);
    assert!(can_resize(&img, &arguments(None)));
    assert!(can_resize(&img, &arguments(Some(1000))));
    assert!(!can_resize(&img, &arguments(Some(u32::MAX))));
    assert!(!can_resize(&img, &arguments(Some(4_000_000_000))));
}

#[test]
fn longest_side_is_two_to_the_twenty_fourth() {
    assert_eq!(MAX_SIDE, 16_777_216);
    let wide = Raster { image: DynamicImage::new_luma8(MAX_SIDE + 1, 1) };
    assert!(!can_resize(&wide, &arguments(Some(1))));
    assert!(can_resize(&wide, &arguments(None)));
    let tall = Raster { image: DynamicImage::new_luma8(1, MAX_SIDE + 1) };
    assert!(!can_resize(&tall, &arguments(Some(1))));
    let widest = Raster { image: DynamicImage::new_luma8(MAX_SIDE, 1) };
    assert!(can_resize(&widest, &arguments(Some(1))));
}
