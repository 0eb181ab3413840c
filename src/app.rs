//! The user-interface state that survives restarts, and what the keyboard
//! shortcuts do to it.
use vstd::prelude::*;

verus! {

/// The application's persistent UI state.
#[derive(Debug, Copy, Clone, PartialEq, Eq, Structural)]
pub struct App {
    /// The window covers the whole screen.
    pub fullscreen: bool,
    /// The menu bar is shown.
    pub ui_shown: bool,
}

/// The keyboard shortcuts pressed during one frame.
#[derive(Debug, Copy, Clone, PartialEq, Eq, Structural)]
pub struct ShortcutsPressed {
    pub quit: bool,
    pub show_hide_ui: bool,
    pub fullscreen: bool,
}

/// What the host has to do after the shortcuts of one frame.
#[derive(Debug, Copy, Clone, PartialEq, Eq)]
pub struct KeyboardOutcome {
    /// Some shortcut was acted upon.
    pub handled: bool,
    /// Close the window.
    pub close: bool,
    /// Put the window in or out of fullscreen.
    pub set_fullscreen: Option<bool>,
}

impl Default for App {
    fn default() -> (r: App)
        ensures
            !r.fullscreen,
            r.ui_shown,
    {
        App { fullscreen: false, ui_shown: true }
    }
}

impl App {
    /// Show the menu bar if hidden, hide it if shown.
    pub fn toggle_ui(&mut self)
        ensures
            final(self).ui_shown == !old(self).ui_shown,
            final(self).fullscreen == old(self).fullscreen,
    {
        self.ui_shown = !self.ui_shown;
    }

    /// Switch fullscreen; returns the new setting, which the host applies
    /// to the window.
    pub fn toggle_fullscreen(&mut self) -> (r: bool)
        ensures
            final(self).fullscreen == !old(self).fullscreen,
            final(self).ui_shown == old(self).ui_shown,
            r == final(self).fullscreen,
    {
        self.fullscreen = !self.fullscreen;
        self.fullscreen
    }

    /// Act on the shortcuts of one frame. Quitting wins over everything and
    /// leaves the state alone; otherwise the menu bar and fullscreen are
    /// toggled as asked.
    pub fn handle_keyboard_input(&mut self, pressed: ShortcutsPressed) -> (r: KeyboardOutcome)
        ensures
            pressed.quit ==> r == (KeyboardOutcome {
                handled: true,
                close: true,
                set_fullscreen: None,
            }) && *final(self) == *old(self),
            !pressed.quit ==> {
                &&& !r.close
                &&& r.handled == (pressed.show_hide_ui || pressed.fullscreen)
                &&& final(self).ui_shown == (old(self).ui_shown != pressed.show_hide_ui)
                &&& final(self).fullscreen == (old(self).fullscreen != pressed.fullscreen)
                &&& pressed.fullscreen ==> r.set_fullscreen == Some(final(self).fullscreen)
                &&& !pressed.fullscreen ==> r.set_fullscreen == None::<bool>
            },
    {
        if pressed.quit {
            return KeyboardOutcome { handled: true, close: true, set_fullscreen: None };
        }
        let mut handled = false;
        if pressed.show_hide_ui {
            handled = true;
            self.toggle_ui();
        }
        let mut set_fullscreen: Option<bool> = None;
        if pressed.fullscreen {
            handled = true;
            set_fullscreen = Some(self.toggle_fullscreen());
        }
        KeyboardOutcome { handled, close: false, set_fullscreen }
    }
}

} // verus!
