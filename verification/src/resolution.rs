//! Resolutions and their pixel counts.

use vstd::prelude::*;

verus! {

/// The number of pixels of a resolution: width times height.
pub open spec fn pixel_count(dim: (u32, u32)) -> nat {
    dim.0 as nat * dim.1 as nat
}

/// The product of two 32-bit numbers fits in 64 bits.
pub proof fn lemma_pixel_count_bound(width: u32, height: u32)
    ensures
        width as nat * height as nat <= 0xFFFF_FFFE_0000_0001,
{
    assert(width as nat * height as nat <= 0xFFFF_FFFE_0000_0001) by (nonlinear_arith)
        requires
            width <= 0xFFFF_FFFF,
            height <= 0xFFFF_FFFF,
    ;
}

/// Computes the pixel count of `width` by `height`.
pub fn count_pixels(width: u32, height: u32) -> (count: u64)
    ensures
        count == pixel_count((width, height)),
{
    proof {
        lemma_pixel_count_bound(width, height);
    }
    width as u64 * height as u64
}

} // verus!
