//! Dimension reconciliation and image combination.
//!
//! A decoded image is held as plain values: its dimensions and its flattened
//! RGBA byte buffer. Before two images are combined, the larger one (by
//! pixel count) is resized to the dimensions of the smaller one, using the
//! imaging library's exact-resize primitive; the combination itself is the
//! verified pixel-block interleaving.

use vstd::prelude::*;

use crate::interleave::alternate_pixels;
use crate::interleave::interleaved;

verus! {

/// A decoded image as plain values: its dimensions and its flattened RGBA
/// byte buffer, four bytes per pixel, in row-major order.
pub struct PixelImage {
    pub width: u32,
    pub height: u32,
    pub data: Vec<u8>,
}

impl PixelImage {
    /// The buffer holds exactly four bytes per pixel, and the byte count
    /// stays within the range that buffer sizes are computed in.
    pub open spec fn well_formed(self) -> bool {
        &&& self.data@.len() == 4 * self.width * self.height
        &&& 4 * self.width * self.height <= u32::MAX
    }
}

/// The RGBA bytes that the imaging library's exact resize with the Triangle
/// filter produces for the given source bytes and dimensions; the result is
/// a function of them alone.
pub uninterp spec fn resize_rgba(
    data: Seq<u8>,
    width: u32,
    height: u32,
    new_width: u32,
    new_height: u32,
) -> Seq<u8>;

/// Relies on image::DynamicImage::resize_exact with the Triangle filter: the
/// resized image has exactly the requested dimensions (so its RGBA buffer
/// has four bytes per requested pixel), and its bytes depend on the source
/// bytes and the dimensions alone.
#[verifier::external_body]
fn resize_exact_rgba(
    data: &Vec<u8>,
    width: u32,
    height: u32,
    new_width: u32,
    new_height: u32,
) -> (r: Vec<u8>)
    requires
        data@.len() == 4 * width * height,
        0 < width,
        0 < height,
        0 < new_width,
        0 < new_height,
        4 * new_width * new_height <= u32::MAX,
    ensures
        r@ == resize_rgba(data@, width, height, new_width, new_height),
        r@.len() == 4 * new_width * new_height,
{
    let buffer = image::RgbaImage::from_raw(width, height, data.clone())
        .expect("buffer length matches the dimensions");
    let resized = image::DynamicImage::ImageRgba8(buffer)
        .resize_exact(new_width, new_height, image::imageops::FilterType::Triangle);
    resized.to_rgba8().into_raw()
}

/// The dimension pair with the fewer pixels; the second one when the counts
/// are equal.
pub open spec fn smallest_dimensions(dim_1: (u32, u32), dim_2: (u32, u32)) -> (u32, u32) {
    if dim_1.0 * dim_1.1 < dim_2.0 * dim_2.1 {
        dim_1
    } else {
        dim_2
    }
}

/// Compares two (width, height) pairs by pixel count and returns the smaller
/// one; the second on a tie.
pub fn get_smallest_dimensions(dim_1: (u32, u32), dim_2: (u32, u32)) -> (r: (u32, u32))
    requires
        dim_1.0 * dim_1.1 <= u32::MAX,
        dim_2.0 * dim_2.1 <= u32::MAX,
    ensures
        r == smallest_dimensions(dim_1, dim_2),
{
    let pix_num_1 = dim_1.0 * dim_1.1;
    let pix_num_2 = dim_2.0 * dim_2.1;

    if pix_num_1 < pix_num_2 {
        dim_1
    } else {
        dim_2
    }
}

/// The dimensions both images have after `standardize_size`: the smaller of
/// the two inputs' dimension pairs by pixel count.
pub open spec fn standard_dimensions(image_1: PixelImage, image_2: PixelImage) -> (u32, u32) {
    smallest_dimensions((image_1.width, image_1.height), (image_2.width, image_2.height))
}

/// Brings two images to a common size: the smaller dimensions (by pixel
/// count) of the two. If the second image already has those dimensions it is
/// returned unchanged and the first is resized to them; otherwise the first
/// is returned unchanged and the second is resized.
pub fn standardize_size(image_1: PixelImage, image_2: PixelImage) -> (r: (PixelImage, PixelImage))
    requires
        image_1.well_formed(),
        image_2.well_formed(),
        0 < image_1.width,
        0 < image_1.height,
        0 < image_2.width,
        0 < image_2.height,
    ensures
        r.0.well_formed(),
        r.1.well_formed(),
        (r.0.width, r.0.height) == standard_dimensions(image_1, image_2),
        (r.1.width, r.1.height) == standard_dimensions(image_1, image_2),
        ((image_2.width, image_2.height) == standard_dimensions(image_1, image_2)) ==> (
            r.1 == image_2
            && r.0.data@ == resize_rgba(
                image_1.data@,
                image_1.width,
                image_1.height,
                standard_dimensions(image_1, image_2).0,
                standard_dimensions(image_1, image_2).1,
            )
        ),
        ((image_2.width, image_2.height) != standard_dimensions(image_1, image_2)) ==> (
            r.0 == image_1
            && r.1.data@ == resize_rgba(
                image_2.data@,
                image_2.width,
                image_2.height,
                standard_dimensions(image_1, image_2).0,
                standard_dimensions(image_1, image_2).1,
            )
        ),
{
    proof {
        assert(image_1.width * image_1.height <= 4 * image_1.width * image_1.height)
            by (nonlinear_arith);
        assert(image_2.width * image_2.height <= 4 * image_2.width * image_2.height)
            by (nonlinear_arith);
    }
    let (width, height) = get_smallest_dimensions(
        (image_1.width, image_1.height),
        (image_2.width, image_2.height),
    );

    if image_2.width == width && image_2.height == height {
        let resized = resize_exact_rgba(&image_1.data, image_1.width, image_1.height, width, height);
        (PixelImage { width, height, data: resized }, image_2)
    } else {
        let resized = resize_exact_rgba(&image_2.data, image_2.width, image_2.height, width, height);
        (image_1, PixelImage { width, height, data: resized })
    }
}

/// Merges two same-size images into one RGBA buffer by interleaving their
/// pixel blocks: block `p` of the result is block `p` of the first image
/// when `p` is even and of the second image when `p` is odd.
pub fn combine_images(image_1: PixelImage, image_2: PixelImage) -> (r: Vec<u8>)
    requires
        image_1.well_formed(),
        image_2.well_formed(),
        image_1.width == image_2.width,
        image_1.height == image_2.height,
    ensures
        r@.len() == image_1.data@.len(),
        r@ == interleaved(image_1.data@, image_2.data@),
{
    proof {
        assert(4 * image_1.width * image_1.height == (image_1.width * image_1.height) * 4)
            by (nonlinear_arith);
        vstd::arithmetic::div_mod::lemma_mod_multiples_basic(
            (image_1.width * image_1.height) as int,
            4,
        );
    }
    alternate_pixels(image_1.data, image_2.data)
}

} // verus!
