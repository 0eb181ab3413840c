//! The presentation side's decisions, taken once per rendered frame in two
//! phases.
//!
//! *Prepare* takes the notice of a newly attached display, if any, decides
//! whether the display's texture has to be made anew or only refreshed, and
//! tracks the size of the paintable area. *Paint* draws with whatever texture
//! is live (or a blank 1x1 one when no display is attached) and, if this
//! frame carried a new picture and no newer one was raised since prepare
//! looked, only then tells the emulator it was drawn.
//! The host performs the GPU work that the returned plans describe.
use crate::display::{AnyDisplay, Display};
use crate::emulator::Emulator;
use crate::texture::{TextureLayout, TextureUpload};
use vstd::prelude::*;

verus! {

/// The layout of a texture made for display `d`.
pub open spec fn layout_of(d: AnyDisplay) -> TextureLayout {
    TextureLayout {
        width: d.spec_dimensions().0,
        height: d.spec_dimensions().1,
        srgb: d.spec_is_srgb(),
    }
}

/// The GPU work the prepare phase asks for, in this order.
#[derive(Debug, Copy, Clone, PartialEq, Eq)]
pub struct PreparePlan {
    /// Make the display texture anew with this layout from the active
    /// display's picture, dropping the old texture and its bindings.
    pub recreate: Option<TextureLayout>,
    /// The paintable area changed to this size.
    pub resized: Option<(u32, u32)>,
    /// Write the active display's picture into the live texture like this.
    pub upload: Option<TextureUpload>,
}

/// What the paint phase did.
#[derive(Debug, Copy, Clone, PartialEq, Eq, Structural)]
pub struct PaintOutcome {
    /// Drawn with the display's texture; otherwise with the blank one.
    pub drew_display: bool,
    /// The emulator was told that its frame was drawn.
    pub notified: bool,
    /// A frame was owed, but a newer one was raised after prepare: the
    /// frame-ready flag was left up so that the newer picture gets drawn.
    pub superseded: bool,
}

/// The presentation side's state between frames.
#[derive(Debug)]
pub struct Presenter {
    size: (u32, u32),
    texture: Option<TextureLayout>,
    owes_notification: bool,
}

impl Presenter {
    /// Size of the paintable area.
    pub closed spec fn spec_size(&self) -> (u32, u32) {
        self.size
    }

    /// Layout of the live display texture; `None` while the blank one is used.
    pub closed spec fn spec_texture(&self) -> Option<TextureLayout> {
        self.texture
    }

    /// A picture was uploaded whose drawing has not been reported yet.
    pub closed spec fn owes(&self) -> bool {
        self.owes_notification
    }

    /// The live texture, if any, can take a whole picture in one upload.
    pub closed spec fn inv(&self) -> bool {
        self.texture matches Some(l) ==> l.fits()
    }

    /// A presenter with a 1x1 paintable area, no display texture and
    /// nothing owed.
    pub fn new() -> (r: Presenter)
        ensures
            r.inv(),
            r.spec_size() == (1u32, 1u32),
            r.spec_texture() == None::<TextureLayout>,
            !r.owes(),
    {
        Presenter { size: (1, 1), texture: None, owes_notification: false }
    }

    /// The size of the paintable area.
    pub fn size(&self) -> (r: (u32, u32))
        ensures
            r == self.spec_size(),
    {
        self.size
    }

    /// Track a new paintable area size. A size equal to the current one, or
    /// with a zero side, is ignored; otherwise it is kept and returned.
    pub fn resize(&mut self, new_size: (u32, u32)) -> (r: Option<(u32, u32)>)
        ensures
            final(self).spec_texture() == old(self).spec_texture(),
            final(self).owes() == old(self).owes(),
            final(self).inv() == old(self).inv(),
            (new_size != old(self).spec_size() && new_size.0 > 0 && new_size.1 > 0) ==> r == Some(
                new_size,
            ) && final(self).spec_size() == new_size,
            !(new_size != old(self).spec_size() && new_size.0 > 0 && new_size.1 > 0) ==> r == None::<
                (u32, u32),
            > && final(self).spec_size() == old(self).spec_size(),
    {
        if (new_size.0 != self.size.0 || new_size.1 != self.size.1) && new_size.0 > 0 && new_size.1
            > 0 {
            self.size = new_size;
            Some(new_size)
        } else {
            None
        }
    }

    /// Forget the display texture; the blank one is drawn from now on.
    pub fn detach_display(&mut self)
        ensures
            final(self).inv(),
            final(self).spec_texture() == None::<TextureLayout>,
            final(self).spec_size() == old(self).spec_size(),
            final(self).owes() == old(self).owes(),
    {
        self.texture = None;
    }

    /// The prepare phase.
    ///
    /// A pending display notice, or a ready frame whose display no longer
    /// matches the live texture (or has none), makes the texture anew for the
    /// active display; the new texture starts out with the display's picture.
    /// Otherwise a ready frame refreshes the live texture with one upload.
    /// A ready frame is remembered as owed to the emulator until paint, and
    /// the emulator's raised-since-prepare mark is cleared, so that paint can
    /// tell whether a newer picture came in meanwhile.
    pub fn prepare(&mut self, emulator: &mut Emulator, viewport: (u32, u32)) -> (plan:
        PreparePlan)
        requires
            old(self).inv(),
            old(emulator).inv(),
        ensures
            final(self).inv(),
            final(emulator).inv(),
            final(emulator).pending() == Seq::<u64>::empty(),
            final(emulator).active_display() == old(emulator).active_display(),
            final(emulator).frame_ready() == old(emulator).frame_ready(),
            !final(emulator).raised_since_prepare(),
            final(emulator).running() == old(emulator).running(),
            final(emulator).serial() == old(emulator).serial(),
            final(emulator).memory() == old(emulator).memory(),
            ({
                let d = old(emulator).active_display();
                let fresh = old(emulator).pending().len() != 0;
                let ready = old(emulator).frame_ready();
                let cur = old(self).spec_texture();
                let stale = ready && d is Some && (cur is None || cur->0.width != d->0.spec_dimensions().0
                    || cur->0.height != d->0.spec_dimensions().1);
                &&& (fresh || stale) ==> plan.recreate == Some(layout_of(d->0))
                    && final(self).spec_texture() == Some(layout_of(d->0))
                &&& !(fresh || stale) ==> plan.recreate == None::<TextureLayout>
                    && final(self).spec_texture() == cur
                &&& (ready && d is Some && !fresh && !stale) ==> plan.upload == Some(
                    cur->0.spec_full_upload(),
                )
                &&& !(ready && d is Some && !fresh && !stale) ==> plan.upload == None::<TextureUpload>
                &&& final(self).owes() == (old(self).owes() || ready)
            }),
            (viewport != old(self).spec_size() && viewport.0 > 0 && viewport.1 > 0) ==> plan.resized
                == Some(viewport) && final(self).spec_size() == viewport,
            !(viewport != old(self).spec_size() && viewport.0 > 0 && viewport.1 > 0) ==> plan.resized
                == None::<(u32, u32)> && final(self).spec_size() == old(self).spec_size(),
    {
        let fresh = emulator.take_new_display().is_some();
        emulator.mark_prepared();
        let ready = emulator.is_frame_ready_to_render();
        let mut recreate: Option<TextureLayout> = None;
        let mut upload: Option<TextureUpload> = None;
        match emulator.display() {
            Some(display) => {
                let live = if fresh {
                    None
                } else {
                    self.texture
                };
                match live {
                    Some(layout) => {
                        if ready {
                            match layout.plan_update(display) {
                                Ok(up) => {
                                    upload = Some(up);
                                },
                                Err(_) => {
                                    recreate = Some(TextureLayout::for_display(display));
                                },
                            }
                        }
                    },
                    None => {
                        if fresh || ready {
                            recreate = Some(TextureLayout::for_display(display));
                        }
                    },
                }
            },
            None => {},
        }
        if recreate.is_some() {
            self.texture = recreate;
        }
        let resized = self.resize(viewport);
        if ready {
            self.owes_notification = true;
        }
        PreparePlan { recreate, resized, upload }
    }

    /// The paint phase: draw with the display's texture if there is one, the
    /// blank one otherwise; then settle a picture owed by prepare. If the
    /// flag was not raised again since prepare took its picture, the emulator
    /// is told that its frame was drawn. If it was, that newer picture has not
    /// been uploaded: the frame-ready flag stays up, so the next frame draws it.
    pub fn paint(&mut self, emulator: &mut Emulator) -> (r: PaintOutcome)
        requires
            old(self).inv(),
            old(emulator).inv(),
        ensures
            final(self).inv(),
            final(emulator).inv(),
            r.drew_display == (old(self).spec_texture() is Some),
            r.notified == (old(self).owes() && !old(emulator).raised_since_prepare()),
            r.superseded == (old(self).owes() && old(emulator).raised_since_prepare()),
            !final(self).owes(),
            final(self).spec_texture() == old(self).spec_texture(),
            final(self).spec_size() == old(self).spec_size(),
            r.notified ==> !final(emulator).frame_ready(),
            r.notified ==> !final(emulator).raised_since_prepare(),
            r.notified ==> final(emulator).running() == old(emulator).running(),
            r.notified ==> final(emulator).same_machine(old(emulator)),
            !r.notified ==> *final(emulator) == *old(emulator),
    {
        let drew_display = self.texture.is_some();
        let owed = self.owes_notification;
        self.owes_notification = false;
        let mut notified = false;
        let mut superseded = false;
        if owed {
            if !emulator.frame_raised_since_prepare() {
                emulator.notify_frame_rendered();
                notified = true;
            } else {
                superseded = true;
            }
        }
        PaintOutcome { drew_display, notified, superseded }
    }
}

impl Default for Presenter {
    fn default() -> (r: Presenter)
        ensures
            r.inv(),
            r.spec_size() == (1u32, 1u32),
            r.spec_texture() == None::<TextureLayout>,
            !r.owes(),
    {
        Presenter::new()
    }
}

} // verus!
