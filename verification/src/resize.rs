//! Bringing two images to one resolution: that of the smaller pixel count.

use crate::decoded::{resample_fits, DecodedImage, DecodedImageView};
use crate::resolution::{count_pixels, pixel_count};
use vstd::prelude::*;

verus! {

/// The resolution with the smaller pixel count; the second where the counts
/// are the same.
pub open spec fn smallest_dimension(dim_1: (u32, u32), dim_2: (u32, u32)) -> (u32, u32) {
    if pixel_count(dim_1) < pixel_count(dim_2) {
        dim_1
    } else {
        dim_2
    }
}

/// The resolution that two images are brought to.
pub open spec fn target_dimension(a: DecodedImageView, b: DecodedImageView) -> (u32, u32) {
    smallest_dimension(a.dimensions(), b.dimensions())
}

/// An image at the resolution `target`: itself where it is there already,
/// resampled where it is not.
pub open spec fn brought_to(image: DecodedImageView, target: (u32, u32)) -> DecodedImageView {
    if image.dimensions() == target {
        image
    } else {
        image.resized(target.0, target.1)
    }
}

/// Two images at their common resolution.
pub open spec fn standardized(a: DecodedImageView, b: DecodedImageView) -> (
    DecodedImageView,
    DecodedImageView,
) {
    (brought_to(a, target_dimension(a, b)), brought_to(b, target_dimension(a, b)))
}

/// The image of the two that has to be resampled, if any, can be: resampling
/// it to the common resolution stays within the machine's limits. Two images
/// of one resolution always can.
pub open spec fn standardizable(a: DecodedImageView, b: DecodedImageView) -> bool {
    let target = target_dimension(a, b);
    &&& a.dimensions() != target ==> resample_fits(a.width, a.height, target.0, target.1)
    &&& b.dimensions() != target ==> resample_fits(b.width, b.height, target.0, target.1)
}

/// Images of at most 8192 pixels a side can be standardized on every machine.
pub proof fn lemma_standardizable_up_to_8192(a: DecodedImageView, b: DecodedImageView)
    requires
        a.width <= 8192,
        a.height <= 8192,
        b.width <= 8192,
        b.height <= 8192,
    ensures
        standardizable(a, b),
{
    let target = target_dimension(a, b);
    assert(target == a.dimensions() || target == b.dimensions());
    assert(a.width as nat * target.1 as nat <= 8192 * 8192) by (nonlinear_arith)
        requires
            a.width <= 8192,
            target.1 <= 8192,
    ;
    assert(b.width as nat * target.1 as nat <= 8192 * 8192) by (nonlinear_arith)
        requires
            b.width <= 8192,
            target.1 <= 8192,
    ;
    assert(target.0 as nat * target.1 as nat <= 8192 * 8192) by (nonlinear_arith)
        requires
            target.0 <= 8192,
            target.1 <= 8192,
    ;
    assert(isize::MAX >= 0x7FFF_FFFF);
}

/// After standardizing, both images have the common resolution, which has no
/// more pixels than either had; an image that had it already is unchanged,
/// and so at least one of the two is. A resampled image keeps its format.
pub proof fn lemma_standardized_resolutions(a: DecodedImageView, b: DecodedImageView)
    ensures
        standardized(a, b).0.dimensions() == target_dimension(a, b),
        standardized(a, b).1.dimensions() == target_dimension(a, b),
        pixel_count(target_dimension(a, b)) <= pixel_count(a.dimensions()),
        pixel_count(target_dimension(a, b)) <= pixel_count(b.dimensions()),
        a.dimensions() == target_dimension(a, b) ==> standardized(a, b).0 == a,
        b.dimensions() == target_dimension(a, b) ==> standardized(a, b).1 == b,
        standardized(a, b).0 == a || standardized(a, b).1 == b,
        pixel_count(a.dimensions()) < pixel_count(b.dimensions()) ==> standardized(a, b).0 == a,
        pixel_count(a.dimensions()) >= pixel_count(b.dimensions()) ==> standardized(a, b).1 == b,
        standardized(a, b).0.format == a.format,
        standardized(a, b).1.format == b.format,
{
}

/// Two images of one resolution pass through unchanged.
pub proof fn lemma_standardized_equal_inputs(a: DecodedImageView, b: DecodedImageView)
    requires
        a.dimensions() == b.dimensions(),
    ensures
        standardized(a, b) == (a, b),
{
}

/// Standardizing twice gives what standardizing once gives.
pub proof fn lemma_standardized_idempotent(a: DecodedImageView, b: DecodedImageView)
    ensures
        standardized(standardized(a, b).0, standardized(a, b).1) == standardized(a, b),
{
    lemma_standardized_resolutions(a, b);
    lemma_standardized_equal_inputs(standardized(a, b).0, standardized(a, b).1);
}

/// Picks the resolution with the smaller pixel count; the second where the
/// counts are the same.
pub fn get_smallest_dimension(dim_1: (u32, u32), dim_2: (u32, u32)) -> (smallest: (u32, u32))
    ensures
        smallest == smallest_dimension(dim_1, dim_2),
{
    let pixel_count_1: u64 = count_pixels(dim_1.0, dim_1.1);
    let pixel_count_2: u64 = count_pixels(dim_2.0, dim_2.1);
    if pixel_count_1 < pixel_count_2 {
        dim_1
    } else {
        dim_2
    }
}

/// Whether [`standardize_size`] can take the two images.
pub fn can_standardize_size(image_1: &DecodedImage, image_2: &DecodedImage) -> (can: bool)
    ensures
        can == standardizable(image_1@, image_2@),
{
    let dim_1 = image_1.dimensions();
    let dim_2 = image_2.dimensions();
    let target = get_smallest_dimension(dim_1, dim_2);
    let first = dim_1.0 == target.0 && dim_1.1 == target.1 || image_1.can_resize_exact(
        target.0,
        target.1,
    );
    let second = dim_2.0 == target.0 && dim_2.1 == target.1 || image_2.can_resize_exact(
        target.0,
        target.1,
    );
    first && second
}

/// Brings two images to one resolution, that of the smaller pixel count. Only
/// an image of another resolution is resampled; one that has the common
/// resolution already is handed back as it came.
pub fn standardize_size(image_1: DecodedImage, image_2: DecodedImage) -> (images: (
    DecodedImage,
    DecodedImage,
))
    requires
        standardizable(image_1@, image_2@),
    ensures
        (images.0@, images.1@) == standardized(image_1@, image_2@),
        images.0@.dimensions() == images.1@.dimensions(),
        images.0@.dimensions() == target_dimension(image_1@, image_2@),
        pixel_count(images.0@.dimensions()) <= pixel_count(image_1@.dimensions()),
        pixel_count(images.1@.dimensions()) <= pixel_count(image_2@.dimensions()),
        images.0@ == image_1@ || images.1@ == image_2@,
        images.0@.well_formed(),
        images.1@.well_formed(),
{
    let dim_1 = image_1.dimensions();
    let dim_2 = image_2.dimensions();
    let (width, height) = get_smallest_dimension(dim_1, dim_2);
    proof {
        lemma_standardized_resolutions(image_1@, image_2@);
    }
    if dim_2.0 != width || dim_2.1 != height {
        let image_2_resized = image_2.resize_exact(width, height);
        (image_1, image_2_resized)
    } else if dim_1.0 != width || dim_1.1 != height {
        let image_1_resized = image_1.resize_exact(width, height);
        (image_1_resized, image_2)
    } else {
        (image_1, image_2)
    }
}

} // verus!
