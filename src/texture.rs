//! How the GPU texture that shows a display is sized, formatted and refreshed.
//!
//! A texture is made to the measure of one display snapshot. Refreshing it
//! with a later picture is only possible while the display keeps those
//! dimensions; otherwise the texture has to be made anew.
use crate::display::Display;
use vstd::prelude::*;

verus! {

/// Why a display texture could not be refreshed.
#[derive(Debug, Copy, Clone, PartialEq, Eq)]
pub enum WgpuDisplayTextureUpdateError {
    /// The display's dimensions differ from those the texture was made with;
    /// the texture must be made anew.
    DimensionsChanged { old: (u32, u32), new: (u32, u32) },
}

/// Size and colour space of a texture made for a display.
#[derive(Debug, Copy, Clone, PartialEq, Eq, Structural)]
pub struct TextureLayout {
    pub width: u32,
    pub height: u32,
    /// sRGB format when true, linear RGB otherwise.
    pub srgb: bool,
}

/// A write of a whole RGBA8 picture into a texture.
#[derive(Debug, Copy, Clone, PartialEq, Eq, Structural)]
pub struct TextureUpload {
    pub width: u32,
    pub height: u32,
    /// Bytes from one row of the picture to the next: four per pixel.
    pub bytes_per_row: u32,
    pub rows_per_image: u32,
}

impl TextureLayout {
    /// The whole picture fits one upload.
    pub open spec fn fits(self) -> bool {
        &&& self.width > 0
        &&& self.height > 0
        &&& 4 * self.width * self.height <= 0x7fff_ffff
    }

    /// The write of a whole picture into a texture of this layout.
    pub open spec fn spec_full_upload(self) -> TextureUpload {
        TextureUpload {
            width: self.width,
            height: self.height,
            bytes_per_row: (4 * self.width) as u32,
            rows_per_image: self.height,
        }
    }

    /// The layout of a texture made for `display`: its dimensions, and sRGB
    /// or linear as the display is.
    pub fn for_display<D: Display>(display: &D) -> (r: TextureLayout)
        requires
            display.inv(),
        ensures
            r.width == display.spec_dimensions().0,
            r.height == display.spec_dimensions().1,
            r.srgb == display.spec_is_srgb(),
            r.fits(),
    {
        proof {
            display.lemma_shape();
        }
        let (width, height) = display.dimensions();
        TextureLayout { width, height, srgb: display.is_srgb() }
    }

    /// The write of a whole picture into a texture of this layout.
    pub fn full_upload(&self) -> (r: TextureUpload)
        requires
            self.fits(),
        ensures
            r == self.spec_full_upload(),
    {
        proof {
            vstd::arithmetic::mul::lemma_mul_inequality(1, self.height as int, 4 * self.width);
        }
        TextureUpload {
            width: self.width,
            height: self.height,
            bytes_per_row: 4 * self.width,
            rows_per_image: self.height,
        }
    }

    /// Refresh a texture of this layout with the picture of `new_display`.
    /// While the display has the texture's dimensions this is the write of
    /// its whole picture; otherwise it is `DimensionsChanged`, and nothing
    /// is to be written.
    pub fn plan_update<D: Display>(&self, new_display: &D) -> (r: Result<
        TextureUpload,
        WgpuDisplayTextureUpdateError,
    >)
        requires
            self.fits(),
            new_display.inv(),
        ensures
            new_display.spec_dimensions() == (self.width, self.height) ==> r == Ok::<
                TextureUpload,
                WgpuDisplayTextureUpdateError,
            >(self.spec_full_upload()),
            new_display.spec_dimensions() != (self.width, self.height) ==> r == Err::<
                TextureUpload,
                WgpuDisplayTextureUpdateError,
            >(
                WgpuDisplayTextureUpdateError::DimensionsChanged {
                    old: (self.width, self.height),
                    new: new_display.spec_dimensions(),
                },
            ),
    {
        let (new_width, new_height) = new_display.dimensions();
        if new_width != self.width || new_height != self.height {
            return Err(
                WgpuDisplayTextureUpdateError::DimensionsChanged {
                    old: (self.width, self.height),
                    new: (new_width, new_height),
                },
            );
        }
        Ok(self.full_upload())
    }
}

} // verus!
