//! The emulator's state and the decisions of its run loop.
//!
//! A host runs the emulator on a background thread: while [`Emulator::should_run`]
//! holds it calls [`Emulator::tick`] at a fixed cadence. The presentation side
//! shares the same state: it polls for newly attached displays with
//! [`Emulator::take_new_display`], reads [`Emulator::is_frame_ready_to_render`],
//! and reports a drawn frame with [`Emulator::notify_frame_rendered`].
use crate::display::{AnyDisplay, Display};
use crate::handoff::HandoffQueue;
use crate::ram::{initial_memory, Ram};
use crate::ui_thread_waker::UiThreadWaker;
use vstd::prelude::*;

verus! {

/// Why the emulator refused a request.
#[derive(Debug, Copy, Clone, PartialEq, Eq, Structural)]
pub enum EmulatorError {
    /// [`Emulator::start`] was called on an emulator that is already running.
    AlreadyRunning,
}

/// The CHIP-8 emulator. Its display can be switched at run time.
#[derive(Debug)]
pub struct Emulator {
    should_run: bool,
    display: Option<AnyDisplay>,
    /// Serial number of the latest display attachment; it is what the hand-off
    /// queue carries to tell the presentation side about a new display.
    attach_serial: u64,
    display_handoff: HandoffQueue,
    frame_ready_to_render: bool,
    /// The frame-ready flag was raised since the presentation side last
    /// prepared a frame: a picture came in that it has not uploaded.
    raised_since_prepare: bool,
    cursor: (u32, u32),
    ram: Ram,
}

/// The coordinate after `v` on an axis of length `n`, wrapping to 0.
pub open spec fn next_coord(v: u32, n: u32) -> u32 {
    ((v + 1) % (n as int)) as u32
}

impl Emulator {
    /// True while the run loop should keep going.
    pub closed spec fn running(&self) -> bool {
        self.should_run
    }

    /// The frame-ready flag: some change to the display has not been drawn yet.
    pub closed spec fn frame_ready(&self) -> bool {
        self.frame_ready_to_render
    }

    /// The frame-ready flag was raised since the presentation side last
    /// prepared a frame.
    pub closed spec fn raised_since_prepare(&self) -> bool {
        self.raised_since_prepare
    }

    /// This emulator with the frame-ready flag raised. Raising merges with
    /// any earlier raise: no count is kept.
    pub closed spec fn with_frame_raised(self) -> Emulator {
        Emulator { frame_ready_to_render: true, raised_since_prepare: true, ..self }
    }

    /// The active display, if one is attached.
    pub closed spec fn active_display(&self) -> Option<AnyDisplay> {
        self.display
    }

    /// Serial number of the latest display attachment (0 before the first).
    pub closed spec fn serial(&self) -> u64 {
        self.attach_serial
    }

    /// Attachment notices not yet taken by the presentation side.
    pub closed spec fn pending(&self) -> Seq<u64> {
        self.display_handoff@
    }

    /// The coordinate the next tick flips.
    pub closed spec fn spec_cursor(&self) -> (u32, u32) {
        self.cursor
    }

    /// The memory's contents.
    pub closed spec fn memory(&self) -> Seq<u8> {
        self.ram@
    }

    /// Same display, attachments, hand-off queue, cursor and memory; only the
    /// run flag and the frame-ready flag may differ.
    pub open spec fn same_machine(&self, other: &Emulator) -> bool {
        &&& self.active_display() == other.active_display()
        &&& self.serial() == other.serial()
        &&& self.pending() == other.pending()
        &&& self.spec_cursor() == other.spec_cursor()
        &&& self.memory() == other.memory()
    }

    /// The emulator's invariant: an attached display is well formed and the
    /// cursor lies on it; a pending notice always names the latest attachment.
    pub closed spec fn inv(&self) -> bool {
        &&& self.display_handoff@.len() <= 1
        &&& self.display_handoff@.len() == 1 ==> self.display_handoff@[0] == self.attach_serial
            && self.display is Some
        &&& match self.display {
            Some(d) => d.inv() && self.cursor.0 < d.spec_dimensions().0 && self.cursor.1
                < d.spec_dimensions().1,
            None => self.cursor == (0u32, 0u32),
        }
    }

    /// A stopped emulator with no display, an initial frame owed, and memory
    /// holding the font table.
    pub fn new() -> (r: Emulator)
        ensures
            r.inv(),
            !r.running(),
            r.frame_ready(),
            (r.active_display() is None),
            r.serial() == 0,
            !r.raised_since_prepare(),
            r.pending() == Seq::<u64>::empty(),
            r.memory() == initial_memory(),
    {
        Emulator {
            should_run: false,
            display: None,
            attach_serial: 0,
            display_handoff: HandoffQueue::new(),
            frame_ready_to_render: true,
            raised_since_prepare: false,
            cursor: (0, 0),
            ram: Ram::new(),
        }
    }

    /// Mark the emulator as running, so that a host may start its run loop.
    /// Starting an emulator that already runs is refused.
    pub fn start(&mut self) -> (r: Result<(), EmulatorError>)
        requires
            old(self).inv(),
        ensures
            final(self).inv(),
            old(self).running() ==> r == Err::<(), EmulatorError>(EmulatorError::AlreadyRunning)
                && *final(self) == *old(self),
            !old(self).running() ==> (r is Ok) && final(self).running() && final(self).frame_ready()
                == old(self).frame_ready() && final(self).raised_since_prepare() == old(
                self,
            ).raised_since_prepare()
                && final(self).same_machine(old(self)),
    {
        if self.should_run {
            return Err(EmulatorError::AlreadyRunning);
        }
        self.should_run = true;
        Ok(())
    }

    /// Ask the run loop to stop; it notices at the top of its next tick.
    pub fn stop(&mut self)
        requires
            old(self).inv(),
        ensures
            final(self).inv(),
            !final(self).running(),
            final(self).frame_ready() == old(self).frame_ready(),
            final(self).raised_since_prepare() == old(self).raised_since_prepare(),
            final(self).same_machine(old(self)),
    {
        self.should_run = false;
    }

    /// Whether the run loop should keep going.
    pub fn should_run(&self) -> (r: bool)
        ensures
            r == self.running(),
    {
        self.should_run
    }

    /// Attach a new display, replacing the active one, and tell the
    /// presentation side through the hand-off queue.
    ///
    /// If the previous notice has not been taken yet, nothing changes and the
    /// display is handed back: the caller waits for the presentation side to
    /// drain the queue and tries again, so no display swap is ever lost.
    /// Otherwise the display is installed, a notice carrying the new serial
    /// number is queued, the frame-ready flag is raised and the UI is woken.
    pub fn attach_display<W: UiThreadWaker>(&mut self, display: AnyDisplay, waker: &W) -> (r:
        Result<(), AnyDisplay>)
        requires
            old(self).inv(),
            display.inv(),
        ensures
            final(self).inv(),
            old(self).pending().len() != 0 ==> r == Err::<(), AnyDisplay>(display) && *final(self)
                == *old(self),
            old(self).pending().len() == 0 ==> {
                &&& r is Ok
                &&& final(self).active_display() == Some(display)
                &&& final(self).serial() == (old(self).serial() + 1) % 0x1_0000_0000_0000_0000
                &&& final(self).pending() == seq![final(self).serial()]
                &&& final(self).frame_ready()
                &&& final(self).raised_since_prepare()
                &&& final(self).spec_cursor() == (0u32, 0u32)
                &&& final(self).running() == old(self).running()
                &&& final(self).memory() == old(self).memory()
            },
    {
        if self.display_handoff.is_full() {
            return Err(display);
        }
        proof {
            display.lemma_shape();
        }
        let serial = self.attach_serial.wrapping_add(1);
        self.display = Some(display);
        self.attach_serial = serial;
        self.cursor = (0, 0);
        let accepted = self.display_handoff.try_send(serial);
        assert(accepted is Ok);
        self.set_frame_ready_to_render();
        waker.wake_ui_thread();
        Ok(())
    }

    /// One step of the run loop: flip the pixel under the cursor on the
    /// active display, advance the cursor one step on each axis (wrapping at
    /// the display's width and height), raise the frame-ready flag and wake
    /// the UI. With no display attached nothing happens and `false` is returned.
    pub fn tick<W: UiThreadWaker>(&mut self, waker: &W) -> (r: bool)
        requires
            old(self).inv(),
        ensures
            final(self).inv(),
            r == (old(self).active_display() is Some),
            !r ==> *final(self) == *old(self),
            r ==> {
                let before = old(self).active_display()->0;
                let after = final(self).active_display()->0;
                let (w, h) = before.spec_dimensions();
                let (x, y) = old(self).spec_cursor();
                &&& final(self).active_display() is Some
                &&& after.spec_dimensions() == before.spec_dimensions()
                &&& after.spec_is_srgb() == before.spec_is_srgb()
                &&& after.frame() == before.frame_after_flip(x, y)
                &&& final(self).spec_cursor() == (next_coord(x, w), next_coord(y, h))
                &&& final(self).frame_ready()
                &&& final(self).raised_since_prepare()
                &&& final(self).running() == old(self).running()
                &&& final(self).serial() == old(self).serial()
                &&& final(self).pending() == old(self).pending()
                &&& final(self).memory() == old(self).memory()
            },
    {
        let (x, y) = self.cursor;
        match &mut self.display {
            Some(display) => {
                let (w, h) = display.dimensions();
                proof {
                    vstd::arithmetic::div_mod::lemma_small_mod(x as nat, w as nat);
                    vstd::arithmetic::div_mod::lemma_small_mod(y as nat, h as nat);
                }
                display.flip_pixel(x, y);
                let nx: u32 = if x + 1 < w {
                    x + 1
                } else {
                    0
                };
                let ny: u32 = if y + 1 < h {
                    y + 1
                } else {
                    0
                };
                proof {
                    if x + 1 < w {
                        vstd::arithmetic::div_mod::lemma_small_mod((x + 1) as nat, w as nat);
                    } else {
                        vstd::arithmetic::div_mod::lemma_mod_self_0(w as int);
                    }
                    if y + 1 < h {
                        vstd::arithmetic::div_mod::lemma_small_mod((y + 1) as nat, h as nat);
                    } else {
                        vstd::arithmetic::div_mod::lemma_mod_self_0(h as int);
                    }
                }
                self.cursor = (nx, ny);
            },
            None => {
                return false;
            },
        }
        self.set_frame_ready_to_render();
        waker.wake_ui_thread();
        true
    }

    /// Take the notice of a newly attached display, if one is pending. The
    /// notice carries the serial number of the latest attachment, whose
    /// display is then the active one.
    pub fn take_new_display(&mut self) -> (r: Option<u64>)
        requires
            old(self).inv(),
        ensures
            final(self).inv(),
            old(self).pending().len() == 0 ==> (r is None),
            old(self).pending().len() != 0 ==> r == Some(old(self).serial()) && (
            old(self).active_display() is Some),
            final(self).pending() == Seq::<u64>::empty(),
            final(self).active_display() == old(self).active_display(),
            final(self).serial() == old(self).serial(),
            final(self).frame_ready() == old(self).frame_ready(),
            final(self).raised_since_prepare() == old(self).raised_since_prepare(),
            final(self).running() == old(self).running(),
            final(self).spec_cursor() == old(self).spec_cursor(),
            final(self).memory() == old(self).memory(),
    {
        self.display_handoff.try_recv()
    }

    /// The active display, for reading its picture.
    pub fn display(&self) -> (r: Option<&AnyDisplay>)
        requires
            self.inv(),
        ensures
            (r is Some) <==> (self.active_display() is Some),
            r is Some ==> *r->0 == self.active_display()->0 && r->0.inv(),
    {
        match &self.display {
            Some(d) => Some(d),
            None => None,
        }
    }

    /// The memory.
    pub fn ram(&self) -> (r: &Ram)
        ensures
            r@ == self.memory(),
    {
        &self.ram
    }

    /// Whether the emulator has a frame that has not been drawn yet. Once
    /// it is drawn, report it with [`Self::notify_frame_rendered`].
    pub fn is_frame_ready_to_render(&self) -> (r: bool)
        ensures
            r == self.frame_ready(),
    {
        self.frame_ready_to_render
    }

    /// Report that the latest frame was drawn: the flag reads false until
    /// the emulator raises it again.
    pub fn notify_frame_rendered(&mut self)
        requires
            old(self).inv(),
        ensures
            final(self).inv(),
            !final(self).frame_ready(),
            final(self).raised_since_prepare() == old(self).raised_since_prepare(),
            final(self).running() == old(self).running(),
            final(self).same_machine(old(self)),
    {
        self.frame_ready_to_render = false;
    }

    /// Whether the frame-ready flag was raised since the presentation side
    /// last prepared a frame.
    pub fn frame_raised_since_prepare(&self) -> (r: bool)
        ensures
            r == self.raised_since_prepare(),
    {
        self.raised_since_prepare
    }

    /// The presentation side has taken the current picture for upload: later
    /// raises are news to it again.
    pub fn mark_prepared(&mut self)
        requires
            old(self).inv(),
        ensures
            final(self).inv(),
            !final(self).raised_since_prepare(),
            final(self).frame_ready() == old(self).frame_ready(),
            final(self).running() == old(self).running(),
            final(self).same_machine(old(self)),
    {
        self.raised_since_prepare = false;
    }

    /// Raise the frame-ready flag, whatever it was before. Raises are not
    /// counted: raising twice leaves the same state as raising once.
    pub fn set_frame_ready_to_render(&mut self)
        requires
            old(self).inv(),
        ensures
            final(self).inv(),
            final(self).frame_ready(),
            final(self).raised_since_prepare(),
            final(self).running() == old(self).running(),
            final(self).same_machine(old(self)),
            *final(self) == old(self).with_frame_raised(),
    {
        self.frame_ready_to_render = true;
        self.raised_since_prepare = true;
    }
}

impl Default for Emulator {
    fn default() -> (r: Emulator)
        ensures
            r.inv(),
            !r.running(),
            r.frame_ready(),
            (r.active_display() is None),
            r.pending() == Seq::<u64>::empty(),
            r.memory() == initial_memory(),
    {
        Emulator::new()
    }
}

/// The cursor after `k` steps from `(0, 0)` on a `w` x `h` display.
pub open spec fn cursor_after(k: nat, w: u32, h: u32) -> (u32, u32)
    decreases k,
{
    if k == 0 {
        (0u32, 0u32)
    } else {
        let prev = cursor_after((k - 1) as nat, w, h);
        (next_coord(prev.0, w), next_coord(prev.1, h))
    }
}

/// The tick cycle: starting from a fresh attachment (cursor `(0, 0)`), the
/// cursor after `k` ticks is `(k mod w, k mod h)`, so tick `k + 1` flips that
/// pixel; each axis wraps at the display's own size.
pub proof fn lemma_cursor_cycles(k: nat, w: u32, h: u32)
    requires
        w > 0,
        h > 0,
    ensures
        cursor_after(k, w, h) == ((k % (w as nat)) as u32, (k % (h as nat)) as u32),
    decreases k,
{
    if k > 0 {
        lemma_cursor_cycles((k - 1) as nat, w, h);
        vstd::arithmetic::div_mod::lemma_add_mod_noop_right(1, (k - 1) as int, w as int);
        vstd::arithmetic::div_mod::lemma_add_mod_noop_right(1, (k - 1) as int, h as int);
        vstd::arithmetic::div_mod::lemma_mod_bound((k - 1) as int, w as int);
        vstd::arithmetic::div_mod::lemma_mod_bound((k - 1) as int, h as int);
        vstd::arithmetic::div_mod::lemma_mod_bound(k as int, w as int);
        vstd::arithmetic::div_mod::lemma_mod_bound(k as int, h as int);
        let prev = cursor_after((k - 1) as nat, w, h);
        assert(prev.0 as int == (k - 1) as int % (w as int));
        assert(prev.1 as int == (k - 1) as int % (h as int));
        assert(next_coord(prev.0, w) as int == k as int % (w as int));
        assert(next_coord(prev.1, h) as int == k as int % (h as int));
    } else {
        vstd::arithmetic::div_mod::lemma_small_mod(0, w as nat);
        vstd::arithmetic::div_mod::lemma_small_mod(0, h as nat);
    }
}

/// The frame-ready flag merges raises: raising it twice leaves the same
/// emulator as raising it once, so nobody can tell how many raises happened.
pub proof fn lemma_raise_coalesces(e: Emulator)
    ensures
        e.with_frame_raised().with_frame_raised() == e.with_frame_raised(),
        e.with_frame_raised().frame_ready(),
        e.with_frame_raised().raised_since_prepare(),
        e.with_frame_raised().running() == e.running(),
        e.with_frame_raised().same_machine(&e),
{
}

/// The hand-off queue never holds more than one notice, however many
/// displays are attached, and a pending notice names the latest attachment,
/// whose display is the active one.
pub proof fn lemma_handoff_bounded(e: &Emulator)
    requires
        e.inv(),
    ensures
        e.pending().len() <= 1,
        e.pending().len() == 1 ==> e.pending()[0] == e.serial() && (e.active_display() is Some),
{
}

} // verus!
