use branch_browser::input::{decode_key, Command, Event, KeyCode, KeyEvent, KeyEventKind};
use branch_browser::state::App;

fn names(list: &[&str]) -> Vec<String> {
    list.iter().map(|name| name.to_string()).collect()
}

fn key(code: KeyCode, kind: KeyEventKind) -> KeyEvent {
    KeyEvent { code, kind }
}

fn press(c: char) -> Event {
    Event::Key(key(KeyCode::Char(c), KeyEventKind::Press))
}

fn press_enter() -> Event {
    Event::Key(key(KeyCode::Enter, KeyEventKind::Press))
}

#[test]
fn decode_key_bindings() {
    assert_eq!(decode_key(KeyCode::Char('q')), Command::Quit);
    assert_eq!(decode_key(KeyCode::Char('j')), Command::CursorNext);
    assert_eq!(decode_key(KeyCode::Char('k')), Command::CursorPrevious);
    assert_eq!(decode_key(KeyCode::Enter), Command::ConfirmSelection);
}

#[test]
fn decode_key_without_binding() {
    assert_eq!(decode_key(KeyCode::Other), Command::Ignore);
    for c in ['Q', 'J', 'K', 'a', 'l', ' ', '\n', '\r', '1', '\u{25BA}'] {
        assert_eq!(decode_key(KeyCode::Char(c)), Command::Ignore);
    }
}

#[test]
fn apply_each_command() {
    let mut app = App::init(names(&["a", "b", "c"]));
    app.apply(Command::CursorNext);
    assert_eq!(app.cursor_index(), 1);
    app.apply(Command::CursorPrevious);
    app.apply(Command::CursorPrevious);
    assert_eq!(app.cursor_index(), 2);
    app.apply(Command::ConfirmSelection);
    assert_eq!(app.selected_index(), Some(2));
    app.apply(Command::Ignore);
    assert_eq!(app.cursor_index(), 2);
    assert_eq!(app.selected_index(), Some(2));
    assert!(!app.exit_requested());
    app.apply(Command::Quit);
    assert!(app.exit_requested());
}

#[test]
fn handle_key_event_goes_by_the_key_alone() {
    let mut app = App::init(names(&["a", "b", "c"]));
    app.handle_key_event(key(KeyCode::Char('j'), KeyEventKind::Press));
    assert_eq!(app.cursor_index(), 1);
    app.handle_key_event(key(KeyCode::Char('j'), KeyEventKind::Release));
    assert_eq!(app.cursor_index(), 2);
    app.handle_key_event(key(KeyCode::Char('k'), KeyEventKind::Repeat));
    assert_eq!(app.cursor_index(), 1);
    app.handle_key_event(key(KeyCode::Enter, KeyEventKind::Press));
    assert_eq!(app.selected_index(), Some(1));
    app.handle_key_event(key(KeyCode::Other, KeyEventKind::Press));
    app.handle_key_event(key(KeyCode::Char('x'), KeyEventKind::Press));
    assert_eq!(app.cursor_index(), 1);
    assert_eq!(app.selected_index(), Some(1));
    assert!(!app.exit_requested());
    app.handle_key_event(key(KeyCode::Char('q'), KeyEventKind::Press));
    assert!(app.exit_requested());
}

#[test]
fn handle_events_takes_key_presses() {
    let mut app = App::init(names(&["a", "b", "c"]));
    app.handle_events(press('j'));
    assert_eq!(app.cursor_index(), 1);
    app.handle_events(press('k'));
    assert_eq!(app.cursor_index(), 0);
    app.handle_events(press('k'));
    assert_eq!(app.cursor_index(), 2);
    app.handle_events(press_enter());
    assert_eq!(app.selected_index(), Some(2));
    app.handle_events(press('q'));
    assert!(app.exit_requested());
}

#[test]
fn handle_events_drops_releases_and_repeats() {
    let mut app = App::init(names(&["a", "b", "c"]));
    for kind in [KeyEventKind::Release, KeyEventKind::Repeat] {
        for code in [KeyCode::Char('q'), KeyCode::Char('j'), KeyCode::Char('k'), KeyCode::Enter] {
            app.handle_events(Event::Key(key(code, kind)));
            assert_eq!(app.cursor_index(), 0);
            assert_eq!(app.selected_index(), None);
            assert!(!app.exit_requested());
        }
    }
}

#[test]
fn handle_events_drops_what_is_not_a_key() {
    let mut app = App::init(names(&["a", "b"]));
    app.handle_events(press('j'));
    app.handle_events(Event::Other);
    assert_eq!(app.cursor_index(), 1);
    assert_eq!(app.selected_index(), None);
    assert!(!app.exit_requested());
}

#[test]
fn handle_events_unbound_keys_do_nothing() {
    let mut app = App::init(names(&["a", "b"]));
    app.handle_events(press('j'));
    app.handle_events(press_enter());
    for c in ['Q', 'x', 'J', ' '] {
        app.handle_events(press(c));
    }
    app.handle_events(Event::Key(key(KeyCode::Other, KeyEventKind::Press)));
    assert_eq!(app.cursor_index(), 1);
    assert_eq!(app.selected_index(), Some(1));
    assert!(!app.exit_requested());
}
