//! A decoded source image: RGBA pixels, a resolution and a container format.

use crate::resolution::count_pixels;
use image::ImageFormat;
use vstd::prelude::*;

verus! {

/// The container format tag of the `image` crate. Nothing is known of a value
/// but which values are the same.
#[verifier::external_type_specification]
#[verifier::external_body]
pub struct ExImageFormat(image::ImageFormat);

/// The bytes that `image`'s resampling with the triangle filter gives for an
/// RGBA image of `width` by `height` pixels, brought to `new_width` by
/// `new_height` pixels.
pub uninterp spec fn resampled(
    pixels: Seq<u8>,
    width: u32,
    height: u32,
    new_width: u32,
    new_height: u32,
) -> Seq<u8>;

/// The largest width or height, of a source or of a target, that is handed
/// to resampling. Sample positions are placed in 32-bit floating point: up to
/// this size every half-pixel position is exact and the rounding that adds up
/// along a row or column stays under half a pixel, so that every new pixel
/// finds a source pixel to draw on.
pub const MAX_RESAMPLE_DIMENSION: u32 = 0x3F_FFFF;

/// Resampling from `width` by `height` to `new_width` by `new_height` pixels
/// stays within the machine's limits: no side is longer than
/// [`MAX_RESAMPLE_DIMENSION`], and the buffers that are allocated can be
/// addressed, which are the intermediate one, of `width` by `new_height`
/// pixels of four 32-bit samples, and the result, of `new_width` by
/// `new_height` pixels of four bytes.
pub open spec fn resample_fits(width: u32, height: u32, new_width: u32, new_height: u32) -> bool {
    &&& width <= MAX_RESAMPLE_DIMENSION
    &&& height <= MAX_RESAMPLE_DIMENSION
    &&& new_width <= MAX_RESAMPLE_DIMENSION
    &&& new_height <= MAX_RESAMPLE_DIMENSION
    &&& 16 * (width as nat * new_height as nat) <= isize::MAX
    &&& 4 * (new_width as nat * new_height as nat) <= isize::MAX
}

/// Whether two format tags are the same, by `ImageFormat`'s own `==`. The
/// type is an enum without fields and its `==` is derived, so two tags are
/// equal exactly when they are the same variant.
#[verifier::external_body]
fn same_format(a: &ImageFormat, b: &ImageFormat) -> (same: bool)
    ensures
        same == (*a == *b),
{
    a.eq(b)
}

/// Calls `image::DynamicImage::resize_exact` with the triangle filter on an
/// 8-bit RGBA image made of `pixels`. Claimed: on the inputs admitted here
/// the call returns, its result depends on the arguments alone, and it holds
/// four bytes for each pixel of the new resolution. Not admitted are an empty
/// source or target, buffers too large to allocate, and a side longer than
/// [`MAX_RESAMPLE_DIMENSION`]: on larger images the call's floating-point
/// sample positions can leave a new pixel without any source pixel, on which
/// it panics.
#[verifier::external_body]
fn resample(pixels: Vec<u8>, width: u32, height: u32, new_width: u32, new_height: u32) -> (out:
    Vec<u8>)
    requires
        width > 0,
        height > 0,
        new_width > 0,
        new_height > 0,
        pixels@.len() == 4 * (width as nat * height as nat),
        resample_fits(width, height, new_width, new_height),
    ensures
        out@ == resampled(pixels@, width, height, new_width, new_height),
        out@.len() == 4 * (new_width as nat * new_height as nat),
{
    let source = image::RgbaImage::from_raw(width, height, pixels).unwrap();
    let resized = image::DynamicImage::ImageRgba8(source).resize_exact(
        new_width,
        new_height,
        image::imageops::FilterType::Triangle,
    );
    resized.into_rgba8().into_raw()
}

/// What a [`DecodedImage`] stands for.
pub struct DecodedImageView {
    pub width: u32,
    pub height: u32,
    pub pixels: Seq<u8>,
    pub format: ImageFormat,
}

impl DecodedImageView {
    /// The resolution: width, then height.
    pub open spec fn dimensions(self) -> (u32, u32) {
        (self.width, self.height)
    }

    /// The image is not empty and holds four bytes for each of its pixels.
    pub open spec fn well_formed(self) -> bool {
        &&& self.width > 0
        &&& self.height > 0
        &&& self.pixels.len() == 4 * (self.width as nat * self.height as nat)
    }

    /// The image brought to `new_width` by `new_height` pixels by resampling,
    /// without regard to its aspect ratio. The format tag stays.
    pub open spec fn resized(self, new_width: u32, new_height: u32) -> DecodedImageView {
        DecodedImageView {
            width: new_width,
            height: new_height,
            pixels: resampled(self.pixels, self.width, self.height, new_width, new_height),
            format: self.format,
        }
    }
}

/// A decoded image: its pixels as RGBA bytes, row by row, with its resolution
/// and the container format it was read from. It is never empty, and always
/// holds exactly four bytes for each pixel.
pub struct DecodedImage {
    width: u32,
    height: u32,
    data: Vec<u8>,
    format: ImageFormat,
}

impl View for DecodedImage {
    type V = DecodedImageView;

    closed spec fn view(&self) -> DecodedImageView {
        DecodedImageView {
            width: self.width,
            height: self.height,
            pixels: self.data@,
            format: self.format,
        }
    }
}

impl DecodedImage {
    #[verifier::type_invariant]
    spec fn inv(self) -> bool {
        self@.well_formed()
    }

    /// Makes an image of `data`. There is none where the resolution has no
    /// pixels, or where `data` is not four bytes for each pixel.
    pub fn new(width: u32, height: u32, data: Vec<u8>, format: ImageFormat) -> (image: Option<Self>)
        ensures
            image is Some <==> (DecodedImageView { width, height, pixels: data@, format })
                .well_formed(),
            image matches Some(made) ==> made@ == (DecodedImageView {
                width,
                height,
                pixels: data@,
                format,
            }),
    {
        let pixels: u64 = count_pixels(width, height);
        if width == 0 || height == 0 || data.len() as u128 != pixels as u128 * 4 {
            return None;
        }
        Some(DecodedImage { width, height, data, format })
    }

    /// The width in pixels.
    pub fn width(&self) -> (width: u32)
        ensures
            width == self@.width,
    {
        self.width
    }

    /// The height in pixels.
    pub fn height(&self) -> (height: u32)
        ensures
            height == self@.height,
    {
        self.height
    }

    /// The resolution: width, then height.
    pub fn dimensions(&self) -> (dim: (u32, u32))
        ensures
            dim == self@.dimensions(),
            self@.well_formed(),
    {
        proof {
            use_type_invariant(self);
        }
        (self.width, self.height)
    }

    /// The RGBA bytes.
    pub fn data(&self) -> (data: &Vec<u8>)
        ensures
            data@ == self@.pixels,
            self@.well_formed(),
    {
        proof {
            use_type_invariant(self);
        }
        &self.data
    }

    /// The RGBA bytes, out of the image.
    pub fn into_data(self) -> (data: Vec<u8>)
        ensures
            data@ == self@.pixels,
            self@.well_formed(),
    {
        proof {
            use_type_invariant(&self);
        }
        self.data
    }

    /// The container format that the image was read from.
    pub fn format(&self) -> (format: ImageFormat)
        ensures
            format == self@.format,
    {
        self.format
    }

    /// Whether the two images were read from the same container format.
    pub fn has_format_of(&self, other: &DecodedImage) -> (same: bool)
        ensures
            same == (self@.format == other@.format),
    {
        same_format(&self.format, &other.format)
    }

    /// Whether the image can be brought to `new_width` by `new_height` pixels:
    /// the new resolution is not empty, and resampling to it stays within the
    /// machine's limits.
    pub fn can_resize_exact(&self, new_width: u32, new_height: u32) -> (can: bool)
        ensures
            can == (new_width > 0 && new_height > 0 && resample_fits(
                self@.width,
                self@.height,
                new_width,
                new_height,
            )),
    {
        let between: u64 = count_pixels(self.width, new_height);
        let after: u64 = count_pixels(new_width, new_height);
        new_width > 0 && new_height > 0 && self.width <= MAX_RESAMPLE_DIMENSION && self.height
            <= MAX_RESAMPLE_DIMENSION && new_width <= MAX_RESAMPLE_DIMENSION && new_height
            <= MAX_RESAMPLE_DIMENSION && between as u128 * 16 <= isize::MAX as u128 && after as u128
            * 4 <= isize::MAX as u128
    }

    /// Resamples the image to exactly `new_width` by `new_height` pixels,
    /// without regard to its aspect ratio.
    pub fn resize_exact(self, new_width: u32, new_height: u32) -> (resized: DecodedImage)
        requires
            new_width > 0,
            new_height > 0,
            resample_fits(self@.width, self@.height, new_width, new_height),
        ensures
            resized@ == self@.resized(new_width, new_height),
            resized@.well_formed(),
    {
        proof {
            use_type_invariant(&self);
        }
        let DecodedImage { width, height, data, format } = self;
        let pixels = resample(data, width, height, new_width, new_height);
        DecodedImage { width: new_width, height: new_height, data: pixels, format }
    }
}

} // verus!
