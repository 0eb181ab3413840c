//! The basic CHIP-8 display: 64x32 pixels, each on or off.
use crate::display::Display;
use crate::frame::{
    checker_colour, checkerboard_frame, frame_of, image_shape, invert_rgb_at, invert_rgba,
    lemma_invert_twice, put_rgba, rgba_bytes, rgba_image_dimensions,
    RgbaFrame,
};
use vstd::prelude::*;

verus! {

/// Width of the display in pixels.
pub const WIDTH: u32 = 64;

/// Height of the display in pixels.
pub const HEIGHT: u32 = 32;

/// Colour of pixel `(x, y)` on a freshly made display: the checkerboard
/// pattern, with the four corners marked red (top-left), green (top-right),
/// blue (bottom-left) and magenta (bottom-right) to check orientation.
pub open spec fn initial_colour(x: int, y: int) -> Seq<u8> {
    if x == 0 && y == 0 {
        seq![255u8, 0, 0, 255]
    } else if x == 63 && y == 0 {
        seq![0u8, 255, 0, 255]
    } else if x == 0 && y == 31 {
        seq![0u8, 0, 255, 255]
    } else if x == 63 && y == 31 {
        seq![255u8, 0, 255, 255]
    } else {
        checker_colour(x, y)
    }
}

/// The picture of a freshly made display.
pub open spec fn initial_frame() -> Seq<u8> {
    frame_of(8192, 64, |x: int, y: int| initial_colour(x, y))
}

/// The basic CHIP-8 display: black and white, 64 pixels wide and 32 tall,
/// kept as an RGBA8 image so that it can be uploaded to a GPU texture as is.
#[derive(Debug)]
pub struct Chip8Display {
    buf: RgbaFrame,
}

impl Chip8Display {
    /// Instantiate a new display showing [`initial_frame`].
    pub fn new() -> (r: Chip8Display)
        ensures
            r.inv(),
            r.spec_dimensions() == (WIDTH, HEIGHT),
            !r.spec_is_srgb(),
            r.frame() == initial_frame(),
    {
        let mut buf = checkerboard_frame(WIDTH, HEIGHT);
        put_rgba(&mut buf, 0, 0, [255, 0, 0, 255]);
        put_rgba(&mut buf, 63, 0, [0, 255, 0, 255]);
        put_rgba(&mut buf, 0, 31, [0, 0, 255, 255]);
        put_rgba(&mut buf, 63, 31, [255, 0, 255, 255]);
        assert(rgba_bytes(buf) =~= initial_frame());
        Chip8Display { buf }
    }

    /// Every such display is 64x32.
    pub proof fn lemma_dimensions(&self)
        requires
            self.inv(),
        ensures
            self.spec_dimensions() == (WIDTH, HEIGHT),
    {
    }
}

impl Default for Chip8Display {
    fn default() -> (r: Chip8Display)
        ensures
            r.inv(),
            r.spec_dimensions() == (WIDTH, HEIGHT),
            r.frame() == initial_frame(),
    {
        Chip8Display::new()
    }
}

impl Display for Chip8Display {
    closed spec fn inv(&self) -> bool {
        image_shape(self.buf, 64, 32)
    }

    open spec fn spec_dimensions(&self) -> (u32, u32) {
        (WIDTH, HEIGHT)
    }

    open spec fn spec_is_srgb(&self) -> bool {
        false
    }

    closed spec fn frame(&self) -> Seq<u8> {
        rgba_bytes(self.buf)
    }

    open spec fn frame_after_flip(&self, x: u32, y: u32) -> Seq<u8> {
        invert_rgb_at(self.frame(), 64, x as int, y as int)
    }

    proof fn lemma_shape(&self) {
    }

    proof fn lemma_flip_involution(&self, flipped: &Self, x: u32, y: u32) {
        lemma_invert_twice(self.frame(), 64, x as int, y as int);
    }

    fn dimensions(&self) -> (r: (u32, u32)) {
        rgba_image_dimensions(&self.buf)
    }

    fn as_rgba8_image(&self) -> (r: &RgbaFrame) {
        &self.buf
    }

    fn is_srgb(&self) -> (r: bool) {
        false
    }

    fn flip_pixel(&mut self, x: u32, y: u32)
        ensures
            final(self).frame() == invert_rgb_at(
                old(self).frame(),
                64,
                (x % WIDTH) as int,
                (y % HEIGHT) as int,
            ),
    {
        invert_rgba(&mut self.buf, x % WIDTH, y % HEIGHT);
    }
}

} // verus!
