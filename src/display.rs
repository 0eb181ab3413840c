//! The display capability: any pixel-buffer device the emulator can draw on.
use crate::blank_display::BlankDisplay;
use crate::chip8_display::Chip8Display;
use crate::frame::RgbaFrame;
use vstd::prelude::*;

verus! {

/// A CHIP-8 compatible display: a pixel buffer of fixed dimensions whose only
/// mutation is flipping one pixel. Coordinates out of range wrap around on each
/// axis, so a runaway caller can produce wrong pictures but never a crash.
pub trait Display {
    /// The display's invariant.
    spec fn inv(&self) -> bool;

    /// `(width, height)` in pixels.
    spec fn spec_dimensions(&self) -> (u32, u32);

    /// Whether the pixel data is in the sRGB colour space.
    spec fn spec_is_srgb(&self) -> bool;

    /// The RGBA8 bytes of the picture, row-major.
    spec fn frame(&self) -> Seq<u8>;

    /// The picture after flipping pixel `(x, y)`, for coordinates in range.
    spec fn frame_after_flip(&self, x: u32, y: u32) -> Seq<u8>;

    /// A well-formed display has at least one pixel, four bytes per pixel,
    /// and a picture small enough for one GPU upload.
    proof fn lemma_shape(&self)
        requires
            self.inv(),
        ensures
            self.spec_dimensions().0 > 0,
            self.spec_dimensions().1 > 0,
            self.frame().len() == 4 * self.spec_dimensions().0 * self.spec_dimensions().1,
            4 * self.spec_dimensions().0 * self.spec_dimensions().1 <= 0x7fff_ffff,
    ;

    /// Flipping a pixel twice gives the picture back.
    proof fn lemma_flip_involution(&self, flipped: &Self, x: u32, y: u32)
        requires
            self.inv(),
            flipped.inv(),
            flipped.spec_dimensions() == self.spec_dimensions(),
            x < self.spec_dimensions().0,
            y < self.spec_dimensions().1,
            flipped.frame() == self.frame_after_flip(x, y),
        ensures
            flipped.frame_after_flip(x, y) == self.frame(),
    ;

    /// Return the dimensions of the display as `(width, height)`.
    fn dimensions(&self) -> (r: (u32, u32))
        requires
            self.inv(),
        ensures
            r == self.spec_dimensions(),
            r.0 > 0,
            r.1 > 0,
            self.frame().len() == 4 * r.0 * r.1,
    ;

    /// The picture as an RGBA8 image.
    fn as_rgba8_image(&self) -> (r: &RgbaFrame)
        requires
            self.inv(),
        ensures
            crate::frame::rgba_bytes(*r) == self.frame(),
            crate::frame::rgba_dimensions(*r) == self.spec_dimensions(),
    ;

    /// True if the display is in the sRGB colour space, false if linear.
    fn is_srgb(&self) -> (r: bool)
        ensures
            r == self.spec_is_srgb(),
    ;

    /// Flip the pixel at `(x mod width, y mod height)`.
    fn flip_pixel(&mut self, x: u32, y: u32)
        requires
            old(self).inv(),
        ensures
            final(self).inv(),
            final(self).spec_dimensions() == old(self).spec_dimensions(),
            final(self).spec_is_srgb() == old(self).spec_is_srgb(),
            final(self).frame() == old(self).frame_after_flip(
                (x % old(self).spec_dimensions().0) as u32,
                (y % old(self).spec_dimensions().1) as u32,
            ),
    ;
}

/// The coordinate `v` wrapped into `0..n`.
pub open spec fn wrap(v: u32, n: u32) -> u32 {
    (v % n) as u32
}

/// Flipping at `(x, y)` is flipping at `(x mod width, y mod height)`, however
/// far out of range `x` and `y` are.
pub proof fn lemma_flip_wraps<D: Display>(d: &D, x: u32, y: u32)
    requires
        d.inv(),
        d.spec_dimensions().0 > 0,
        d.spec_dimensions().1 > 0,
    ensures
        ({
            let (w, h) = d.spec_dimensions();
            &&& wrap(wrap(x, w), w) == wrap(x, w)
            &&& wrap(wrap(y, h), h) == wrap(y, h)
            &&& wrap(x, w) < w
            &&& wrap(y, h) < h
            &&& d.frame_after_flip(wrap(wrap(x, w), w), wrap(wrap(y, h), h)) == d.frame_after_flip(
                wrap(x, w),
                wrap(y, h),
            )
        }),
{
    let (w, h) = d.spec_dimensions();
    vstd::arithmetic::div_mod::lemma_mod_twice(x as int, w as int);
    vstd::arithmetic::div_mod::lemma_mod_twice(y as int, h as int);
}

/// Two flips at the same coordinates restore the picture: if `flipped` is what
/// `before.flip_pixel(x, y)` left, flipping it at `(x, y)` again yields the
/// frame of `before`.
pub proof fn lemma_flip_twice_restores<D: Display>(before: &D, flipped: &D, x: u32, y: u32)
    requires
        before.inv(),
        flipped.inv(),
        before.spec_dimensions().0 > 0,
        before.spec_dimensions().1 > 0,
        flipped.spec_dimensions() == before.spec_dimensions(),
        flipped.frame() == before.frame_after_flip(
            wrap(x, before.spec_dimensions().0),
            wrap(y, before.spec_dimensions().1),
        ),
    ensures
        flipped.frame_after_flip(
            wrap(x, flipped.spec_dimensions().0),
            wrap(y, flipped.spec_dimensions().1),
        ) == before.frame(),
{
    let (w, h) = before.spec_dimensions();
    before.lemma_flip_involution(flipped, wrap(x, w), wrap(y, h));
}

/// The displays this crate provides, as one type the emulator can hold.
#[derive(Debug)]
pub enum AnyDisplay {
    Blank(BlankDisplay),
    Chip8(Chip8Display),
}

impl Display for AnyDisplay {
    open spec fn inv(&self) -> bool {
        match self {
            AnyDisplay::Blank(d) => d.inv(),
            AnyDisplay::Chip8(d) => d.inv(),
        }
    }

    open spec fn spec_dimensions(&self) -> (u32, u32) {
        match self {
            AnyDisplay::Blank(d) => d.spec_dimensions(),
            AnyDisplay::Chip8(d) => d.spec_dimensions(),
        }
    }

    open spec fn spec_is_srgb(&self) -> bool {
        match self {
            AnyDisplay::Blank(d) => d.spec_is_srgb(),
            AnyDisplay::Chip8(d) => d.spec_is_srgb(),
        }
    }

    open spec fn frame(&self) -> Seq<u8> {
        match self {
            AnyDisplay::Blank(d) => d.frame(),
            AnyDisplay::Chip8(d) => d.frame(),
        }
    }

    open spec fn frame_after_flip(&self, x: u32, y: u32) -> Seq<u8> {
        match self {
            AnyDisplay::Blank(d) => d.frame_after_flip(x, y),
            AnyDisplay::Chip8(d) => d.frame_after_flip(x, y),
        }
    }

    proof fn lemma_shape(&self) {
        match self {
            AnyDisplay::Blank(d) => d.lemma_shape(),
            AnyDisplay::Chip8(d) => d.lemma_shape(),
        }
    }

    proof fn lemma_flip_involution(&self, flipped: &Self, x: u32, y: u32) {
        match (self, flipped) {
            (AnyDisplay::Blank(a), AnyDisplay::Blank(b)) => a.lemma_flip_involution(b, x, y),
            (AnyDisplay::Chip8(a), AnyDisplay::Chip8(b)) => a.lemma_flip_involution(b, x, y),
            (AnyDisplay::Blank(a), AnyDisplay::Chip8(b)) => {
                a.lemma_dimensions();
                b.lemma_dimensions();
            },
            (AnyDisplay::Chip8(a), AnyDisplay::Blank(b)) => {
                a.lemma_dimensions();
                b.lemma_dimensions();
            },
        }
    }

    fn dimensions(&self) -> (r: (u32, u32)) {
        match self {
            AnyDisplay::Blank(d) => d.dimensions(),
            AnyDisplay::Chip8(d) => d.dimensions(),
        }
    }

    fn as_rgba8_image(&self) -> (r: &RgbaFrame) {
        match self {
            AnyDisplay::Blank(d) => d.as_rgba8_image(),
            AnyDisplay::Chip8(d) => d.as_rgba8_image(),
        }
    }

    fn is_srgb(&self) -> (r: bool) {
        match self {
            AnyDisplay::Blank(d) => d.is_srgb(),
            AnyDisplay::Chip8(d) => d.is_srgb(),
        }
    }

    fn flip_pixel(&mut self, x: u32, y: u32) {
        match self {
            AnyDisplay::Blank(d) => d.flip_pixel(x, y),
            AnyDisplay::Chip8(d) => d.flip_pixel(x, y),
        }
    }
}

} // verus!
