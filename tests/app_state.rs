use rust_chip::app::{App, ShortcutsPressed};

#[test]
fn ui_toggles_and_shortcuts() {
    let mut app = App::default();
    assert!(app.ui_shown);
    assert!(!app.fullscreen);
    app.toggle_ui();
    assert!(!app.ui_shown);
    assert!(app.toggle_fullscreen());
    assert!(app.fullscreen);

    let quit = app.handle_keyboard_input(ShortcutsPressed { quit: true, show_hide_ui: true, fullscreen: true });
    assert!(quit.close && quit.handled);
    assert_eq!(quit.set_fullscreen, None);
    assert!(!app.ui_shown && app.fullscreen);

    let both = app.handle_keyboard_input(ShortcutsPressed { quit: false, show_hide_ui: true, fullscreen: true });
    assert!(both.handled && !both.close);
    assert_eq!(both.set_fullscreen, Some(false));
    assert!(app.ui_shown && !app.fullscreen);

    let none = app.handle_keyboard_input(ShortcutsPressed { quit: false, show_hide_ui: false, fullscreen: false });
    assert!(!none.handled && !none.close);
    assert_eq!(none.set_fullscreen, None);
}
