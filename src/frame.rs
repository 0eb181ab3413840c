//! RGBA8 pixel frames held in `image::RgbaImage`, and what the displays rely
//! on from the `image` crate.
//!
//! A frame's contents are modelled as its raw bytes: four bytes (red, green,
//! blue, alpha) per pixel, pixels in row-major order, so pixel `(x, y)` of a
//! `width`-wide frame occupies bytes `4 * (y * width + x)` up to the next four.
use image::{ImageBuffer, Pixel, RgbaImage};
use vstd::prelude::*;

verus! {

/// An RGBA8 image of the `image` crate. Verus does not see inside it: what it
/// holds is known through [`rgba_bytes`] and [`rgba_dimensions`], which the
/// functions of this module that touch the image speak of.
#[verifier::external_body]
#[derive(Debug)]
pub struct RgbaFrame {
    img: RgbaImage,
}

/// The raw bytes that an RGBA8 frame holds.
pub uninterp spec fn rgba_bytes(img: RgbaFrame) -> Seq<u8>;

/// The `(width, height)` an RGBA8 frame was made with.
pub uninterp spec fn rgba_dimensions(img: RgbaFrame) -> (u32, u32);

/// An image of `width` x `height` pixels whose byte count matches.
pub open spec fn image_shape(img: RgbaFrame, width: nat, height: nat) -> bool {
    &&& rgba_dimensions(img).0 == width
    &&& rgba_dimensions(img).1 == height
    &&& rgba_bytes(img).len() == 4 * width * height
}

/// Index of the pixel `(x, y)` in a `width`-wide frame.
pub open spec fn pixel_index(width: int, x: int, y: int) -> int {
    y * width + x
}

/// `bytes` with pixel `(x, y)` replaced by the four bytes of `px`.
pub open spec fn put_rgba_at(bytes: Seq<u8>, width: int, x: int, y: int, px: Seq<u8>) -> Seq<u8> {
    Seq::new(
        bytes.len(),
        |i: int|
            if i / 4 == pixel_index(width, x, y) {
                px[i % 4]
            } else {
                bytes[i]
            },
    )
}

/// `bytes` with the colour channels of pixel `(x, y)` inverted (`v` becomes
/// `255 - v`) and its alpha channel kept.
pub open spec fn invert_rgb_at(bytes: Seq<u8>, width: int, x: int, y: int) -> Seq<u8> {
    Seq::new(
        bytes.len(),
        |i: int|
            if i / 4 == pixel_index(width, x, y) && i % 4 < 3 {
                (255 - bytes[i]) as u8
            } else {
                bytes[i]
            },
    )
}

/// A frame of `len` bytes in which pixel `(x, y)` of a `width`-wide image has
/// the colour `colour(x, y)`.
pub open spec fn frame_of(len: nat, width: int, colour: spec_fn(int, int) -> Seq<u8>) -> Seq<u8> {
    Seq::new(len, |i: int| colour((i / 4) % width, (i / 4) / width)[i % 4])
}

/// The checkerboard pattern: black where exactly one of `x` and `y` is odd,
/// white elsewhere, all opaque.
pub open spec fn checker_colour(x: int, y: int) -> Seq<u8> {
    if (x % 2 == 0) != (y % 2 == 0) {
        seq![0u8, 0, 0, 255]
    } else {
        seq![255u8, 255, 255, 255]
    }
}

/// The colour of pixel `(x, y)` of the checkerboard pattern.
pub fn checkerboard_pixel(x: u32, y: u32) -> (r: [u8; 4])
    ensures
        r@ == checker_colour(x as int, y as int),
{
    let r: [u8; 4] = if (x % 2 == 0 && y % 2 != 0) || (x % 2 != 0 && y % 2 == 0) {
        [0, 0, 0, 255]
    } else {
        [255, 255, 255, 255]
    };
    assert(r@ =~= checker_colour(x as int, y as int));
    r
}

/// Inverting the same pixel twice gives the frame back.
pub proof fn lemma_invert_twice(bytes: Seq<u8>, width: int, x: int, y: int)
    ensures
        invert_rgb_at(invert_rgb_at(bytes, width, x, y), width, x, y) == bytes,
{
    assert(invert_rgb_at(invert_rgb_at(bytes, width, x, y), width, x, y) =~= bytes);
}

/// Relies on `ImageBuffer::new`: an image of the given size whose bytes are all
/// zero. It panics only when the byte count overflows or cannot be allocated.
#[verifier::external_body]
pub(crate) fn new_rgba_image(width: u32, height: u32) -> (r: RgbaFrame)
    requires
        4 * width * height <= 0x7fff_ffff,
    ensures
        image_shape(r, width as nat, height as nat),
        rgba_bytes(r) == Seq::new((4 * width * height) as nat, |i: int| 0u8),
{
    RgbaFrame { img: ImageBuffer::new(width, height) }
}

/// Relies on `ImageBuffer::dimensions`: the size the image was made with.
#[verifier::external_body]
pub(crate) fn rgba_image_dimensions(img: &RgbaFrame) -> (r: (u32, u32))
    ensures
        r == rgba_dimensions(*img),
{
    img.img.dimensions()
}

/// Relies on `ImageBuffer::put_pixel`: pixel `(x, y)` becomes `px`, nothing
/// else changes. It panics when `(x, y)` lies outside the image.
#[verifier::external_body]
pub(crate) fn put_rgba(img: &mut RgbaFrame, x: u32, y: u32, px: [u8; 4])
    requires
        x < rgba_dimensions(*old(img)).0,
        y < rgba_dimensions(*old(img)).1,
        rgba_bytes(*old(img)).len() == 4 * rgba_dimensions(*old(img)).0 * rgba_dimensions(
            *old(img),
        ).1,
    ensures
        rgba_dimensions(*final(img)) == rgba_dimensions(*old(img)),
        rgba_bytes(*final(img)) == put_rgba_at(
            rgba_bytes(*old(img)),
            rgba_dimensions(*old(img)).0 as int,
            x as int,
            y as int,
            px@,
        ),
{
    img.img.put_pixel(x, y, image::Rgba(px));
}

/// Relies on `ImageBuffer::get_pixel_mut` and `Pixel::invert` on `Rgba<u8>`:
/// the red, green and blue channels of pixel `(x, y)` become `255 - v`, its
/// alpha and every other pixel stay. It panics when `(x, y)` lies outside the image.
#[verifier::external_body]
pub(crate) fn invert_rgba(img: &mut RgbaFrame, x: u32, y: u32)
    requires
        x < rgba_dimensions(*old(img)).0,
        y < rgba_dimensions(*old(img)).1,
        rgba_bytes(*old(img)).len() == 4 * rgba_dimensions(*old(img)).0 * rgba_dimensions(
            *old(img),
        ).1,
    ensures
        rgba_dimensions(*final(img)) == rgba_dimensions(*old(img)),
        rgba_bytes(*final(img)) == invert_rgb_at(
            rgba_bytes(*old(img)),
            rgba_dimensions(*old(img)).0 as int,
            x as int,
            y as int,
        ),
{
    img.img.get_pixel_mut(x, y).invert();
}

/// Relies on `ImageBuffer::from_fn`: pixel `(x, y)` of the new image is what
/// the given function returns for `(x, y)`; here that function is
/// [`checkerboard_pixel`]. It panics only when the byte count overflows or
/// cannot be allocated.
#[verifier::external_body]
pub(crate) fn checkerboard_frame(width: u32, height: u32) -> (r: RgbaFrame)
    requires
        0 < width,
        4 * width * height <= 0x7fff_ffff,
    ensures
        image_shape(r, width as nat, height as nat),
        rgba_bytes(r) == frame_of(
            (4 * width * height) as nat,
            width as int,
            |x: int, y: int| checker_colour(x, y),
        ),
{
    RgbaFrame { img: ImageBuffer::from_fn(width, height, |x, y| image::Rgba(checkerboard_pixel(x, y))) }
}

impl RgbaFrame {
    /// Relies on `ImageBuffer::as_raw`: the bytes the image holds, ready for
    /// a zero-copy upload (4 bytes per pixel, rows of `4 * width` bytes).
    #[verifier::external_body]
    pub fn as_raw(&self) -> (r: &[u8])
        ensures
            r@ == rgba_bytes(*self),
    {
        self.img.as_raw()
    }
}

} // verus!

