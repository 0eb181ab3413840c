use rust_chip::blank_display::BlankDisplay;
use rust_chip::chip8_display::Chip8Display;
use rust_chip::display::{AnyDisplay, Display};
use rust_chip::emulator::{Emulator, EmulatorError};
use rust_chip::handoff::HandoffQueue;
use rust_chip::presenter::Presenter;
use rust_chip::texture::{TextureLayout, TextureUpload, WgpuDisplayTextureUpdateError};
use rust_chip::ui_thread_waker::UiThreadWaker;
use std::cell::Cell;

struct CountingWaker(Cell<u32>);

impl UiThreadWaker for CountingWaker {
    fn wake_ui_thread(&self) {
        self.0.set(self.0.get() + 1);
    }
}

#[test]
fn frame_ready_flag_handshake() {
    let mut emu = Emulator::new();
    assert!(emu.is_frame_ready_to_render());
    emu.notify_frame_rendered();
    assert!(!emu.is_frame_ready_to_render());
    emu.notify_frame_rendered();
    assert!(!emu.is_frame_ready_to_render());
    emu.set_frame_ready_to_render();
    assert!(emu.is_frame_ready_to_render());
    emu.set_frame_ready_to_render();
    assert!(emu.is_frame_ready_to_render());
}

#[test]
fn raising_twice_is_the_same_as_raising_once() {
    let mut once = Emulator::new();
    let mut twice = Emulator::new();
    once.notify_frame_rendered();
    twice.notify_frame_rendered();
    once.set_frame_ready_to_render();
    twice.set_frame_ready_to_render();
    twice.set_frame_ready_to_render();
    assert_eq!(once.is_frame_ready_to_render(), twice.is_frame_ready_to_render());
    assert_eq!(once.frame_raised_since_prepare(), twice.frame_raised_since_prepare());
    // One acknowledgement settles both.
    let mut presenter_once = Presenter::new();
    let mut presenter_twice = Presenter::new();
    presenter_once.prepare(&mut once, (1, 1));
    presenter_twice.prepare(&mut twice, (1, 1));
    assert!(presenter_once.paint(&mut once).notified);
    assert!(presenter_twice.paint(&mut twice).notified);
    assert!(!once.is_frame_ready_to_render());
    assert!(!twice.is_frame_ready_to_render());
}

#[test]
fn starting_twice_is_refused() {
    let mut emu = Emulator::default();
    assert!(!emu.should_run());
    assert_eq!(emu.start(), Ok(()));
    assert!(emu.should_run());
    assert_eq!(emu.start(), Err(EmulatorError::AlreadyRunning));
    emu.stop();
    assert!(!emu.should_run());
    assert_eq!(emu.start(), Ok(()));
}

#[test]
fn handoff_queue_holds_one_item() {
    let mut q = HandoffQueue::new();
    assert!(!q.is_full());
    assert_eq!(q.try_recv(), None);
    assert_eq!(q.try_send(1), Ok(()));
    assert!(q.is_full());
    assert_eq!(q.try_send(2), Err(2));
    assert_eq!(q.try_send(3), Err(3));
    assert_eq!(q.try_recv(), Some(1));
    assert_eq!(q.try_recv(), None);
    assert_eq!(q.try_send(3), Ok(()));
    assert_eq!(q.try_recv(), Some(3));
}

#[test]
fn attaching_waits_until_the_notice_is_taken() {
    let waker = CountingWaker(Cell::new(0));
    let mut emu = Emulator::new();
    emu.notify_frame_rendered();
    assert!(emu.attach_display(AnyDisplay::Blank(BlankDisplay::new()), &waker).is_ok());
    assert!(emu.is_frame_ready_to_render());
    assert_eq!(waker.0.get(), 1);
    // The first notice is still pending: the second display comes back.
    let refused = emu.attach_display(AnyDisplay::Chip8(Chip8Display::new()), &waker);
    let second = match refused {
        Err(d) => d,
        Ok(()) => panic!("a second attach must wait for the first notice to be taken"),
    };
    assert_eq!(emu.display().map(|d| d.dimensions()), Some((1, 1)));
    assert_eq!(emu.take_new_display(), Some(1));
    assert_eq!(emu.take_new_display(), None);
    assert!(emu.attach_display(second, &waker).is_ok());
    assert_eq!(emu.take_new_display(), Some(2));
    assert_eq!(emu.display().map(|d| d.dimensions()), Some((64, 32)));
}

#[test]
fn tick_flips_and_advances_the_cursor() {
    let waker = CountingWaker(Cell::new(0));
    let mut emu = Emulator::new();
    assert!(!emu.tick(&waker));
    assert_eq!(waker.0.get(), 0);
    assert!(emu.attach_display(AnyDisplay::Chip8(Chip8Display::new()), &waker).is_ok());
    emu.notify_frame_rendered();
    let before = emu.display().unwrap().as_rgba8_image().as_raw().to_vec();
    assert!(emu.tick(&waker));
    assert!(emu.is_frame_ready_to_render());
    assert_eq!(waker.0.get(), 2);
    let after = emu.display().unwrap().as_rgba8_image().as_raw().to_vec();
    // (0, 0) was flipped from red to cyan.
    assert_eq!(&before[0..4], &[255, 0, 0, 255][..]);
    assert_eq!(&after[0..4], &[0, 255, 255, 255][..]);
    assert!(emu.tick(&waker));
    // Then (1, 1), whose bytes start at 4 * (64 + 1).
    let later = emu.display().unwrap().as_rgba8_image().as_raw().to_vec();
    assert_eq!(&later[260..264], &[0, 0, 0, 255][..]);
    assert_eq!(&after[260..264], &[255, 255, 255, 255][..]);
    // After 64 ticks in all the cursor is back at x = 0 and y = 0.
    for _ in 2..64 {
        assert!(emu.tick(&waker));
    }
    let cycled = emu.display().unwrap().as_rgba8_image().as_raw().to_vec();
    assert!(emu.tick(&waker));
    let again = emu.display().unwrap().as_rgba8_image().as_raw().to_vec();
    assert_eq!(&cycled[0..4], &[0, 255, 255, 255][..]);
    assert_eq!(&again[0..4], &[255, 0, 0, 255][..]);
}

#[test]
fn texture_update_checks_dimensions() {
    let chip8 = Chip8Display::new();
    let layout = TextureLayout::for_display(&chip8);
    assert_eq!(layout, TextureLayout { width: 64, height: 32, srgb: false });
    assert_eq!(
        layout.plan_update(&Chip8Display::new()),
        Ok(TextureUpload { width: 64, height: 32, bytes_per_row: 256, rows_per_image: 32 })
    );
    let blank_layout = TextureLayout::for_display(&BlankDisplay::new());
    assert_eq!(
        blank_layout.plan_update(&chip8),
        Err(WgpuDisplayTextureUpdateError::DimensionsChanged { old: (1, 1), new: (64, 32) })
    );
    assert_eq!(
        blank_layout.full_upload(),
        TextureUpload { width: 1, height: 1, bytes_per_row: 4, rows_per_image: 1 }
    );
}

#[test]
fn start_attach_tick_present_notify() {
    let waker = CountingWaker(Cell::new(0));
    let mut emu = Emulator::new();
    let mut presenter = Presenter::new();
    assert_eq!(emu.start(), Ok(()));
    assert!(emu.attach_display(AnyDisplay::Chip8(Chip8Display::new()), &waker).is_ok());
    assert!(emu.tick(&waker));
    assert!(emu.is_frame_ready_to_render());

    let plan = presenter.prepare(&mut emu, (800, 600));
    assert_eq!(plan.recreate, Some(TextureLayout { width: 64, height: 32, srgb: false }));
    assert_eq!(plan.resized, Some((800, 600)));
    assert_eq!(plan.upload, None);
    assert_eq!(presenter.size(), (800, 600));

    let painted = presenter.paint(&mut emu);
    assert!(painted.drew_display);
    assert!(painted.notified);
    assert!(!painted.superseded);
    assert!(!emu.is_frame_ready_to_render());
    // The tick's flip reached the picture: (0, 0) went from red to cyan.
    assert_eq!(&emu.display().unwrap().as_rgba8_image().as_raw()[0..4], &[0, 255, 255, 255][..]);

    // Nothing new: nothing to do, nothing to report.
    let idle = presenter.prepare(&mut emu, (800, 600));
    assert_eq!(idle.recreate, None);
    assert_eq!(idle.resized, None);
    assert_eq!(idle.upload, None);
    assert!(!presenter.paint(&mut emu).notified);

    // A later tick only refreshes the texture.
    assert!(emu.tick(&waker));
    let refresh = presenter.prepare(&mut emu, (800, 0));
    assert_eq!(refresh.recreate, None);
    assert_eq!(refresh.resized, None);
    assert_eq!(
        refresh.upload,
        Some(TextureUpload { width: 64, height: 32, bytes_per_row: 256, rows_per_image: 32 })
    );
    assert!(presenter.paint(&mut emu).notified);
    assert!(!emu.is_frame_ready_to_render());
    emu.stop();
    assert!(!emu.should_run());
}

#[test]
fn blank_texture_is_drawn_without_a_display() {
    let mut emu = Emulator::new();
    let mut presenter = Presenter::default();
    let plan = presenter.prepare(&mut emu, (0, 0));
    assert_eq!(plan.recreate, None);
    assert_eq!(plan.upload, None);
    assert_eq!(plan.resized, None);
    let painted = presenter.paint(&mut emu);
    assert!(!painted.drew_display);
    // The initial frame was owed and is now reported.
    assert!(painted.notified);
    assert!(!emu.is_frame_ready_to_render());
    presenter.detach_display();
    assert_eq!(presenter.size(), (1, 1));
}

#[test]
fn frame_raised_during_paint_is_not_acknowledged() {
    let waker = CountingWaker(Cell::new(0));
    let mut emu = Emulator::new();
    let mut presenter = Presenter::new();
    assert!(emu.attach_display(AnyDisplay::Chip8(Chip8Display::new()), &waker).is_ok());
    assert!(emu.frame_raised_since_prepare());
    let first = presenter.prepare(&mut emu, (64, 32));
    assert!(first.recreate.is_some());
    assert!(!emu.frame_raised_since_prepare());
    // The simulation ticks after prepare took its picture, before paint.
    assert!(emu.tick(&waker));
    assert!(emu.frame_raised_since_prepare());
    let painted = presenter.paint(&mut emu);
    assert!(!painted.notified);
    assert!(painted.superseded);
    assert!(emu.is_frame_ready_to_render());
    // The next cycle uploads that picture and acknowledges it.
    let second = presenter.prepare(&mut emu, (64, 32));
    assert_eq!(
        second.upload,
        Some(TextureUpload { width: 64, height: 32, bytes_per_row: 256, rows_per_image: 32 })
    );
    let painted = presenter.paint(&mut emu);
    assert!(painted.notified);
    assert!(!painted.superseded);
    assert!(!emu.is_frame_ready_to_render());
}
