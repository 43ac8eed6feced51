//! Bitmaps, as the `image` crate holds them.
//!
//! Textures come in as `DynamicImage` values and the finished picture leaves
//! as one. Verus sees nothing inside such a value, so this module names what
//! the tracer relies on and states, without proof, what the calls into the
//! crate do to it.

use vstd::prelude::*;
use image::{DynamicImage, GenericImage, GenericImageView, Pixel, Rgba};

verus! {

/// `image::DynamicImage`: a bitmap, of which nothing is known here but what
/// the three names below say.
#[verifier::external_type_specification]
#[verifier::external_body]
pub struct ExDynamicImage(image::DynamicImage);

/// Width and height of a bitmap, in pixels.
pub uninterp spec fn image_size(img: DynamicImage) -> (nat, nat);

/// What a bitmap shows: red, green, blue and alpha of the pixel in column `x`
/// and row `y`, for every `(x, y)` inside its size.
pub uninterp spec fn image_pixels(img: DynamicImage) -> Map<(int, int), (u8, u8, u8, u8)>;

/// Whether a bitmap stores the three colour channels of each pixel and no
/// alpha, so that each of its pixels reads as opaque.
pub uninterp spec fn image_is_rgb(img: DynamicImage) -> bool;

/// `GenericImageView::width` of a `DynamicImage`: the first component of its
/// size.
#[verifier::external_body]
pub(crate) fn width(img: &DynamicImage) -> (w: u32)
    ensures
        w == image_size(*img).0,
{
    img.width()
}

/// `GenericImageView::height` of a `DynamicImage`: the second component of
/// its size.
#[verifier::external_body]
pub(crate) fn height(img: &DynamicImage) -> (h: u32)
    ensures
        h == image_size(*img).1,
{
    img.height()
}

/// `GenericImageView::get_pixel` of a `DynamicImage`, which panics outside
/// the bitmap: the four channels of the pixel at `(x, y)`.
#[verifier::external_body]
pub(crate) fn get_pixel(img: &DynamicImage, x: u32, y: u32) -> (p: (u8, u8, u8, u8))
    requires
        x < image_size(*img).0,
        y < image_size(*img).1,
    ensures
        p == image_pixels(*img)[(x as int, y as int)],
{
    let rgba = img.get_pixel(x, y);
    (rgba.data[0], rgba.data[1], rgba.data[2], rgba.data[3])
}

/// `DynamicImage::new_rgb8`, which panics where three bytes for each pixel
/// are more than a buffer can hold: a bitmap of the given size that stores
/// colour without alpha.
#[verifier::external_body]
pub(crate) fn new_rgb8(width: u32, height: u32) -> (img: DynamicImage)
    requires
        3 * width * height <= isize::MAX,
    ensures
        image_size(img) == (width as nat, height as nat),
        image_is_rgb(img),
{
    DynamicImage::new_rgb8(width, height)
}

/// `GenericImage::put_pixel` of a `DynamicImage`, which panics outside the
/// bitmap, fed with `Rgba::from_channels`: in a bitmap without alpha the
/// pixel at `(x, y)` then reads as the given colour, opaque, and nothing else
/// has changed.
#[verifier::external_body]
pub(crate) fn put_pixel(img: &mut DynamicImage, x: u32, y: u32, channels: (u8, u8, u8, u8))
    requires
        x < image_size(*old(img)).0,
        y < image_size(*old(img)).1,
        image_is_rgb(*old(img)),
    ensures
        image_size(*final(img)) == image_size(*old(img)),
        image_is_rgb(*final(img)),
        image_pixels(*final(img)) == image_pixels(*old(img)).insert(
            (x as int, y as int),
            (channels.0, channels.1, channels.2, 255u8),
        ),
{
    img.put_pixel(x, y, Rgba::from_channels(channels.0, channels.1, channels.2, channels.3))
}

} // verus!
