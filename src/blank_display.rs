//! A blank display, used where no real display is attached.
use crate::display::Display;
use crate::frame::{image_shape, new_rgba_image, rgba_bytes, rgba_dimensions, RgbaFrame};
use vstd::prelude::*;

verus! {

/// A stand-in display that always shows a single black 1x1 pixel, so the
/// renderer always has something to draw. Flipping pixels does nothing.
#[derive(Debug)]
pub struct BlankDisplay {
    buf: RgbaFrame,
}

impl BlankDisplay {
    /// Create a new blank display.
    pub fn new() -> (r: BlankDisplay)
        ensures
            r.inv(),
            r.spec_dimensions() == (1u32, 1u32),
            !r.spec_is_srgb(),
            r.frame() == seq![0u8, 0, 0, 0],
    {
        let buf = new_rgba_image(1, 1);
        assert(rgba_bytes(buf) =~= seq![0u8, 0, 0, 0]);
        BlankDisplay { buf }
    }

    /// Its dimensions are those of every blank display.
    pub proof fn lemma_dimensions(&self)
        requires
            self.inv(),
        ensures
            self.spec_dimensions() == (1u32, 1u32),
    {
    }
}

impl Default for BlankDisplay {
    fn default() -> (r: BlankDisplay)
        ensures
            r.inv(),
            r.spec_dimensions() == (1u32, 1u32),
            r.frame() == seq![0u8, 0, 0, 0],
    {
        BlankDisplay::new()
    }
}

impl Display for BlankDisplay {
    closed spec fn inv(&self) -> bool {
        &&& image_shape(self.buf, 1, 1)
        &&& rgba_bytes(self.buf) == seq![0u8, 0, 0, 0]
    }

    open spec fn spec_dimensions(&self) -> (u32, u32) {
        (1, 1)
    }

    open spec fn spec_is_srgb(&self) -> bool {
        false
    }

    closed spec fn frame(&self) -> Seq<u8> {
        rgba_bytes(self.buf)
    }

    open spec fn frame_after_flip(&self, x: u32, y: u32) -> Seq<u8> {
        self.frame()
    }

    proof fn lemma_shape(&self) {
    }

    proof fn lemma_flip_involution(&self, flipped: &Self, x: u32, y: u32) {
    }

    fn dimensions(&self) -> (r: (u32, u32)) {
        (1, 1)
    }

    fn as_rgba8_image(&self) -> (r: &RgbaFrame) {
        &self.buf
    }

    fn is_srgb(&self) -> (r: bool) {
        false
    }

    fn flip_pixel(&mut self, x: u32, y: u32)
        ensures
            final(self).frame() == old(self).frame(),
    {
    }
}

} // verus!
