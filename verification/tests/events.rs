use env_reader::app::App;
use env_reader::input::{InputEvent, KeyCode, KeyEventKind, KeyPress, Modifiers};
use env_reader::layout::Rect;
use env_reader::snapshot::Environment;

fn press(code: KeyCode) -> InputEvent {
    InputEvent::Key(KeyPress {
        code,
        modifiers: Modifiers::none(),
        kind: KeyEventKind::Press,
    })
}

fn ctrl_press(code: KeyCode) -> InputEvent {
    InputEvent::Key(KeyPress {
        code,
        modifiers: Modifiers {
            ctrl: true,
            shift: false,
            alt: false,
        },
        kind: KeyEventKind::Press,
    })
}

fn sample_snapshot() -> Vec<Environment> {
    vec![
        Environment::new("PATH".to_string(), "/usr/bin".to_string()),
        Environment::new("HOME".to_string(), "/root".to_string()),
    ]
}

#[test]
fn down_down_then_q_stops() {
    let mut app = App::new(sample_snapshot());
    app.handle_event(press(KeyCode::Down));
    assert_eq!(app.env_list.state.selected, Some(0));
    app.handle_event(press(KeyCode::Down));
    assert_eq!(app.env_list.state.selected, Some(1));
    app.handle_event(press(KeyCode::Char('q')));
    assert!(!app.is_running);
}

#[test]
fn empty_snapshot_renders_and_escape_stops() {
    let mut app = App::new(Vec::new());
    assert!(app.is_running);
    let f = app.render(Rect::new(0, 0, 80, 24));
    assert_eq!(f.list.rows.len(), 0);
    app.handle_event(press(KeyCode::Esc));
    assert!(!app.is_running);
}

#[test]
fn control_c_stops_but_plain_c_does_not() {
    let mut app = App::new(sample_snapshot());
    app.handle_event(press(KeyCode::Char('c')));
    assert!(app.is_running);
    app.handle_event(ctrl_press(KeyCode::Char('c')));
    assert!(!app.is_running);
}

#[test]
fn horizontal_keys_deselect() {
    for code in [
        KeyCode::Left,
        KeyCode::Right,
        KeyCode::Char('h'),
        KeyCode::Char('l'),
    ] {
        let mut app = App::new(sample_snapshot());
        app.handle_event(press(KeyCode::Down));
        assert_eq!(app.env_list.state.selected, Some(0));
        app.handle_event(press(code));
        assert_eq!(app.env_list.state.selected, None);
        assert!(app.is_running);
    }
}

#[test]
fn vim_keys_move_and_jump() {
    let mut app = App::new(sample_snapshot());
    app.handle_event(press(KeyCode::Char('j')));
    assert_eq!(app.env_list.state.selected, Some(0));
    app.handle_event(press(KeyCode::Char('G')));
    assert_eq!(app.env_list.state.selected, Some(1));
    app.handle_event(press(KeyCode::Char('k')));
    assert_eq!(app.env_list.state.selected, Some(0));
    app.handle_event(press(KeyCode::PageDown));
    assert_eq!(app.env_list.state.selected, Some(1));
    app.handle_event(press(KeyCode::Char('g')));
    assert_eq!(app.env_list.state.selected, Some(0));
    app.handle_event(press(KeyCode::PageUp));
    assert_eq!(app.env_list.state.selected, Some(0));
}

#[test]
fn releases_repeats_and_other_events_change_nothing() {
    let mut app = App::new(sample_snapshot());
    app.handle_event(InputEvent::Key(KeyPress {
        code: KeyCode::Esc,
        modifiers: Modifiers::none(),
        kind: KeyEventKind::Release,
    }));
    assert!(app.is_running);
    app.handle_event(InputEvent::Key(KeyPress {
        code: KeyCode::Char('j'),
        modifiers: Modifiers::none(),
        kind: KeyEventKind::Repeat,
    }));
    assert_eq!(app.env_list.state.selected, None);
    app.handle_event(InputEvent::Mouse);
    app.handle_event(InputEvent::Resize(80, 24));
    app.handle_event(InputEvent::Other);
    assert!(app.is_running);
    assert_eq!(app.env_list.state.selected, None);
}

#[test]
fn unmapped_keys_are_ignored() {
    let mut app = App::new(sample_snapshot());
    app.handle_event(press(KeyCode::Char('x')));
    app.handle_event(press(KeyCode::Other));
    assert!(app.is_running);
    assert_eq!(app.env_list.state.selected, None);
}
