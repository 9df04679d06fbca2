use mpd_client::{App, InputEvent, Key};

#[test]
fn quit_on_q_key() {
    let mut app = App::default();
    assert!(!app.should_quit);
    app.handle_event(&InputEvent::KeyPress(Key::Char('q')));
    assert!(app.should_quit);
}

#[test]
fn quit_on_escape() {
    let mut app = App::default();
    app.handle_event(&InputEvent::KeyPress(Key::Esc));
    assert!(app.should_quit);
}

#[test]
fn other_keys_do_not_quit() {
    let mut app = App::default();
    app.handle_event(&InputEvent::KeyPress(Key::Char('x')));
    app.handle_event(&InputEvent::KeyPress(Key::Other));
    app.handle_event(&InputEvent::Other);
    assert!(!app.should_quit);
    app.handle_tick();
    assert!(!app.should_quit);
}

#[test]
fn quit_flag_stays_raised() {
    let mut app = App::default();
    app.handle_event(&InputEvent::KeyPress(Key::Esc));
    app.handle_event(&InputEvent::KeyPress(Key::Char('x')));
    assert!(app.should_quit);
}
