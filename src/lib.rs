//! Runtime core of a CHIP-8 display pipeline: memory with a built-in glyph
//! table, pluggable pixel-buffer displays, the emulator's state machine with
//! its display hand-off and frame-ready handshake, and the presentation-side
//! bookkeeping that decides when GPU textures are rebuilt or refreshed.
pub mod app;
pub mod blank_display;
pub mod chip8_display;
pub mod display;
pub mod emulator;
pub mod frame;
pub mod handoff;
pub mod presenter;
pub mod ram;
pub mod sys_font;
pub mod texture;
pub mod ui_thread_waker;
