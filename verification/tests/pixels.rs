use rawview::{Image, ImageData, PixelType, Repr, EINVAL};

fn raw_image_3x2() -> Image {
    let mut image = Image::new(3, 2);
    image.unpack(ImageData::Raw(vec![10, 11, 12, 13, 14, 15]));
    image
}

#[test]
fn it_reports_dimensions_and_length() {
    let image = raw_image_3x2();
    let pixmap = image.raw_pixmap().unwrap();
    assert_eq!(3, pixmap.cols());
    assert_eq!(2, pixmap.rows());
    assert_eq!(6, pixmap.len());
}

#[test]
fn it_yields_every_offset_once_in_row_major_order() {
    let image = raw_image_3x2();
    let pixmap = image.raw_pixmap().unwrap();
    let mut seen: Vec<(usize, usize, u16)> = Vec::new();
    let mut pixels = pixmap.pixels();
    while let Some(pixel) = pixels.next() {
        seen.push((pixel.row(), pixel.col(), pixel.value()));
    }
    assert_eq!(
        vec![
            (0, 0, 10),
            (0, 1, 11),
            (0, 2, 12),
            (1, 0, 13),
            (1, 1, 14),
            (1, 2, 15),
        ],
        seen
    );
}

#[test]
fn it_reports_exact_remaining_counts() {
    let image = raw_image_3x2();
    let pixmap = image.raw_pixmap().unwrap();
    let mut pixels = pixmap.pixels();
    assert_eq!((6, Some(6)), pixels.size_hint());
    pixels.next().unwrap();
    assert_eq!((5, Some(5)), pixels.size_hint());
    for _ in 0..5 {
        pixels.next().unwrap();
    }
    assert!(pixels.next().is_none());
    assert_eq!((0, Some(0)), pixels.size_hint());
}

#[test]
fn it_restarts_a_fresh_pass_from_offset_zero() {
    let image = raw_image_3x2();
    let pixmap = image.raw_pixmap().unwrap();
    let mut first: Vec<u16> = Vec::new();
    let mut pixels = pixmap.pixels();
    while let Some(pixel) = pixels.next() {
        first.push(pixel.value());
    }
    let mut second: Vec<u16> = Vec::new();
    let mut again = pixmap.pixels();
    while let Some(pixel) = again.next() {
        second.push(pixel.value());
    }
    assert_eq!(first, second);
    assert_eq!(6, second.len());
}

#[test]
fn it_sums_raw_samples_over_a_full_pass() {
    let image = raw_image_3x2();
    let pixmap = image.raw_pixmap().unwrap();
    let mut sum: usize = 0;
    let mut pixels = pixmap.pixels();
    while let Some(pixel) = pixels.next() {
        sum += pixel.value() as usize;
    }
    assert_eq!(75, sum);
}

#[test]
fn it_knows_the_pixel_type_after_unpacking() {
    let image = raw_image_3x2();
    assert_eq!(PixelType::Raw, image.raw_pixel_type().unwrap());
}

#[test]
fn it_rejects_pixel_type_queries_before_unpacking() {
    let image = Image::new(4, 4);
    let error = image.raw_pixel_type().unwrap_err();
    assert!(matches!(error.repr, Repr::Os(e) if e == EINVAL));
}

#[test]
fn it_rejects_a_mismatched_pixmap_shape() {
    let image = raw_image_3x2();
    let error = image.color3_pixmap().unwrap_err();
    assert!(matches!(error.repr, Repr::Os(e) if e == EINVAL));
    let error = image.color4_pixmap().unwrap_err();
    assert!(matches!(error.repr, Repr::Os(e) if e == EINVAL));
}

#[test]
fn it_serves_three_channel_views() {
    let mut image = Image::new(2, 1);
    image.unpack(ImageData::Color3(vec![[1, 2, 3], [4, 5, 6]]));
    assert_eq!(PixelType::Color3, image.raw_pixel_type().unwrap());
    assert!(image.raw_pixmap().is_err());
    let pixmap = image.color3_pixmap().unwrap();
    let mut pixels = pixmap.pixels();
    let first = pixels.next().unwrap();
    assert_eq!([1, 2, 3], first.value());
    let second = pixels.next().unwrap();
    assert_eq!([4, 5, 6], second.value());
    assert!(pixels.next().is_none());
}

#[test]
fn it_serves_four_channel_views() {
    let mut image = Image::new(1, 1);
    image.unpack(ImageData::Color4(vec![[7, 8, 9, 10]]));
    assert_eq!(PixelType::Color4, image.raw_pixel_type().unwrap());
    let pixmap = image.color4_pixmap().unwrap();
    let mut pixels = pixmap.pixels();
    assert_eq!([7, 8, 9, 10], pixels.next().unwrap().value());
    assert!(pixels.next().is_none());
}

#[test]
fn it_replaces_buffers_on_a_second_unpack() {
    let mut image = raw_image_3x2();
    image.unpack(ImageData::Raw(vec![1, 1, 1, 1, 1, 1]));
    let pixmap = image.raw_pixmap().unwrap();
    let mut sum: usize = 0;
    let mut pixels = pixmap.pixels();
    while let Some(pixel) = pixels.next() {
        sum += pixel.value() as usize;
    }
    assert_eq!(6, sum);
}

#[test]
fn it_iterates_an_empty_view_zero_times() {
    let mut image = Image::new(0, 5);
    image.unpack(ImageData::Raw(Vec::new()));
    let pixmap = image.raw_pixmap().unwrap();
    assert_eq!(0, pixmap.len());
    let mut pixels = pixmap.pixels();
    assert_eq!((0, Some(0)), pixels.size_hint());
    assert!(pixels.next().is_none());
}
