use rust_chip::blank_display::BlankDisplay;
use rust_chip::chip8_display::{Chip8Display, HEIGHT, WIDTH};
use rust_chip::display::{AnyDisplay, Display};

fn pixel(bytes: &[u8], width: u32, x: u32, y: u32) -> [u8; 4] {
    let i = (4 * (y * width + x)) as usize;
    [bytes[i], bytes[i + 1], bytes[i + 2], bytes[i + 3]]
}

fn bytes_of(d: &Chip8Display) -> Vec<u8> {
    d.as_rgba8_image().as_raw().to_vec()
}

#[test]
fn chip8_display_starts_as_marked_checkerboard() {
    let d = Chip8Display::new();
    assert_eq!(d.dimensions(), (64, 32));
    assert_eq!((WIDTH, HEIGHT), (64, 32));
    assert!(!d.is_srgb());
    let raw = bytes_of(&d);
    assert_eq!(raw.len(), 64 * 32 * 4);
    assert_eq!(pixel(&raw, 64, 0, 0), [255, 0, 0, 255]);
    assert_eq!(pixel(&raw, 64, 63, 0), [0, 255, 0, 255]);
    assert_eq!(pixel(&raw, 64, 0, 31), [0, 0, 255, 255]);
    assert_eq!(pixel(&raw, 64, 63, 31), [255, 0, 255, 255]);
    assert_eq!(pixel(&raw, 64, 1, 0), [0, 0, 0, 255]);
    assert_eq!(pixel(&raw, 64, 1, 1), [255, 255, 255, 255]);
    assert_eq!(pixel(&raw, 64, 2, 1), [0, 0, 0, 255]);
    assert_eq!(pixel(&raw, 64, 10, 10), [255, 255, 255, 255]);
}

#[test]
fn flip_inverts_colour_and_keeps_alpha() {
    let mut d = Chip8Display::new();
    d.flip_pixel(0, 0);
    let raw = bytes_of(&d);
    assert_eq!(pixel(&raw, 64, 0, 0), [0, 255, 255, 255]);
    assert_eq!(pixel(&raw, 64, 1, 0), [0, 0, 0, 255]);
}

#[test]
fn flip_wraps_out_of_range_coordinates() {
    let mut a = Chip8Display::new();
    let mut b = Chip8Display::new();
    a.flip_pixel(64 * 3 + 5, 32 * 7 + 9);
    b.flip_pixel(5, 9);
    assert_eq!(bytes_of(&a), bytes_of(&b));
    let mut c = Chip8Display::new();
    let mut e = Chip8Display::new();
    c.flip_pixel(u32::MAX, u32::MAX);
    e.flip_pixel(u32::MAX % 64, u32::MAX % 32);
    assert_eq!(bytes_of(&c), bytes_of(&e));
    assert_ne!(bytes_of(&c), bytes_of(&Chip8Display::new()));
}

#[test]
fn flipping_twice_restores_the_picture() {
    let fresh = bytes_of(&Chip8Display::new());
    let mut d = Chip8Display::new();
    d.flip_pixel(70, 40);
    assert_ne!(bytes_of(&d), fresh);
    d.flip_pixel(6, 8);
    assert_eq!(bytes_of(&d), fresh);
}

#[test]
fn blank_display_is_one_black_pixel() {
    let mut d = BlankDisplay::new();
    assert_eq!(d.dimensions(), (1, 1));
    assert!(!d.is_srgb());
    assert_eq!(d.as_rgba8_image().as_raw(), &[0, 0, 0, 0][..]);
    d.flip_pixel(12, 34);
    assert_eq!(d.as_rgba8_image().as_raw(), &[0, 0, 0, 0][..]);
}

#[test]
fn any_display_forwards_to_its_variant() {
    let mut d = AnyDisplay::Chip8(Chip8Display::new());
    assert_eq!(d.dimensions(), (64, 32));
    d.flip_pixel(1, 0);
    assert_eq!(&d.as_rgba8_image().as_raw()[4..8], &[255, 255, 255, 255][..]);
    let b = AnyDisplay::Blank(BlankDisplay::default());
    assert_eq!(b.dimensions(), (1, 1));
    assert!(!b.is_srgb());
}
