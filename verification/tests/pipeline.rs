use combiner::decoded::DecodedImage;
use combiner::error::ImageDataErrors;
use combiner::pipeline::{combine_images, run};
use combiner::resize::can_standardize_size;
use image::ImageFormat;

fn solid(width: u32, height: u32, pixel: [u8; 4], format: ImageFormat) -> DecodedImage {
    let data = pixel.repeat((width * height) as usize);
    DecodedImage::new(width, height, data, format).unwrap()
}

#[test]
fn two_by_two_red_and_blue_combine_to_a_checkerboard() {
    let red = solid(2, 2, [255, 0, 0, 255], ImageFormat::Png);
    let blue = solid(2, 2, [0, 0, 255, 255], ImageFormat::Png);
    assert!(can_standardize_size(&red, &blue));
    let (output, format) = match run(red, blue, String::from("out.png")) {
        Ok(written) => written,
        Err(error) => panic!("refused: {:?}", error),
    };
    assert_eq!(
        output.data(),
        &vec![255, 0, 0, 255, 0, 0, 255, 255, 255, 0, 0, 255, 0, 0, 255, 255]
    );
    assert_eq!(output.width(), 2);
    assert_eq!(output.height(), 2);
    assert_eq!(output.name(), "out.png");
    assert_eq!(format, ImageFormat::Png);
}

#[test]
fn a_larger_first_image_is_brought_down_before_combining() {
    let a = solid(4, 4, [255, 0, 0, 255], ImageFormat::Png);
    let b = solid(2, 2, [0, 0, 255, 255], ImageFormat::Png);
    assert!(can_standardize_size(&a, &b));
    let (output, _) = match run(a, b, String::from("small.png")) {
        Ok(written) => written,
        Err(error) => panic!("refused: {:?}", error),
    };
    assert_eq!(output.width(), 2);
    assert_eq!(output.height(), 2);
    assert_eq!(output.data().len(), 16);
    assert_eq!(
        output.data(),
        &vec![255, 0, 0, 255, 0, 0, 255, 255, 255, 0, 0, 255, 0, 0, 255, 255]
    );
}

#[test]
fn different_formats_are_turned_down() {
    let a = solid(2, 2, [255, 0, 0, 255], ImageFormat::Png);
    let b = solid(2, 2, [0, 0, 255, 255], ImageFormat::Jpeg);
    match run(a, b, String::from("out.png")) {
        Ok(_) => panic!("images of different formats were combined"),
        Err(error) => assert_eq!(error, ImageDataErrors::DifferentFormat),
    }
}

#[test]
fn different_formats_are_turned_down_whatever_the_sizes() {
    let a = solid(4, 4, [255, 0, 0, 255], ImageFormat::Gif);
    let b = solid(2, 2, [0, 0, 255, 255], ImageFormat::Bmp);
    assert!(matches!(
        run(a, b, String::from("out.gif")),
        Err(ImageDataErrors::DifferentFormat)
    ));
}

#[test]
fn the_output_is_written_in_the_format_of_the_sources() {
    let a = solid(1, 1, [1, 2, 3, 4], ImageFormat::Bmp);
    let b = solid(1, 1, [5, 6, 7, 8], ImageFormat::Bmp);
    let (output, format) = match run(a, b, String::from("out.bmp")) {
        Ok(written) => written,
        Err(error) => panic!("refused: {:?}", error),
    };
    assert_eq!(format, ImageFormat::Bmp);
    assert_eq!(output.data(), &vec![1, 2, 3, 4]);
}

#[test]
fn combining_is_sensitive_to_the_order_of_the_images() {
    let forth = combine_images(
        solid(2, 1, [1, 1, 1, 1], ImageFormat::Png),
        solid(2, 1, [2, 2, 2, 2], ImageFormat::Png),
    );
    let back = combine_images(
        solid(2, 1, [2, 2, 2, 2], ImageFormat::Png),
        solid(2, 1, [1, 1, 1, 1], ImageFormat::Png),
    );
    assert_eq!(forth, vec![1, 1, 1, 1, 2, 2, 2, 2]);
    assert_eq!(back, vec![2, 2, 2, 2, 1, 1, 1, 1]);
}

#[test]
fn every_error_has_its_own_value() {
    let all = [
        ImageDataErrors::Decode,
        ImageDataErrors::FormatDetection,
        ImageDataErrors::DifferentFormat,
        ImageDataErrors::BufferTooSmall,
        ImageDataErrors::Encode,
    ];
    for (i, a) in all.iter().enumerate() {
        for (j, b) in all.iter().enumerate() {
            assert_eq!(a == b, i == j);
        }
    }
}
