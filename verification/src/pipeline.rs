//! The whole combination, from two decoded images to the output buffer.

use crate::buffer::{FloatingImage, FloatingImageView};
use crate::decoded::{DecodedImage, DecodedImageView};
use crate::error::ImageDataErrors;
use crate::interleave::{alternate_pixels, interleave};
use crate::resize::{standardizable, standardize_size, standardized};
use image::ImageFormat;
use vstd::prelude::*;

verus! {

/// The output buffer for two images: it has their common resolution and holds
/// the interleaving of their pixels at that resolution, under the name `name`.
pub open spec fn combined(a: DecodedImageView, b: DecodedImageView, name: Seq<char>) -> FloatingImageView {
    let images = standardized(a, b);
    FloatingImageView {
        width: images.0.width,
        height: images.0.height,
        data: interleave(images.0.pixels, images.1.pixels),
        name,
    }
}

/// Interleaves the pixels of two images of one resolution.
pub fn combine_images(image_1: DecodedImage, image_2: DecodedImage) -> (combined_data: Vec<u8>)
    requires
        image_1@.dimensions() == image_2@.dimensions(),
    ensures
        combined_data@ == interleave(image_1@.pixels, image_2@.pixels),
        combined_data@.len() == 4 * (image_1@.width as nat * image_1@.height as nat),
{
    let vec_1 = image_1.into_data();
    let vec_2 = image_2.into_data();
    alternate_pixels(vec_1, vec_2)
}

/// Combines two decoded images into the buffer to be written under the name
/// `output`, together with the container format to write it in, which is that
/// of the first image. Images of different formats are turned down before any
/// other work is done.
pub fn run(image_1: DecodedImage, image_2: DecodedImage, output: String) -> (result: Result<
    (FloatingImage, ImageFormat),
    ImageDataErrors,
>)
    requires
        image_1@.format == image_2@.format ==> standardizable(image_1@, image_2@),
    ensures
        result is Ok <==> image_1@.format == image_2@.format,
        result matches Ok(written) ==> {
            &&& written.0@ == combined(image_1@, image_2@, output@)
            &&& written.0@.finalized()
            &&& written.1 == image_1@.format
        },
        result matches Err(error) ==> error == ImageDataErrors::DifferentFormat,
{
    if !image_1.has_format_of(&image_2) {
        return Err(ImageDataErrors::DifferentFormat);
    }
    let format = image_1.format();
    let (image_1, image_2) = standardize_size(image_1, image_2);
    let mut output_image = FloatingImage::new(image_1.width(), image_1.height(), output);
    let combined_data = combine_images(image_1, image_2);
    match output_image.set_data(combined_data) {
        Ok(()) => Ok((output_image, format)),
        Err(error) => Err(error),
    }
}

} // verus!
