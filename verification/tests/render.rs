use env_reader::app::App;
use env_reader::layout::Rect;
use env_reader::snapshot::Environment;

fn sample_snapshot() -> Vec<Environment> {
    vec![
        Environment::new("PATH".to_string(), "/usr/bin".to_string()),
        Environment::new("HOME".to_string(), "/root".to_string()),
    ]
}

#[test]
fn nothing_selected_shows_placeholder_and_no_highlight() {
    let app = App::new(sample_snapshot());
    let f = app.render(Rect::new(0, 0, 40, 10));
    assert_eq!(f.detail.text, "Nothing selected");
    assert_eq!(f.list.highlighted, None);
}

#[test]
fn list_rows_show_the_keys() {
    let app = App::new(sample_snapshot());
    let f = app.render(Rect::new(0, 0, 40, 10));
    assert_eq!(f.list.rows, vec!["PATH".to_string(), "HOME".to_string()]);
    assert_eq!(f.list.title, "Environment List");
    assert_eq!(f.list.highlight_symbol, ">");
    assert_eq!(f.detail.title, "Value");
}

#[test]
fn selected_entry_value_fills_the_detail_pane() {
    let mut app = App::new(sample_snapshot());
    app.env_list.state.next(app.env_list.items.len());
    let f = app.render(Rect::new(0, 0, 40, 10));
    assert_eq!(f.list.highlighted, Some(0));
    assert_eq!(f.detail.text, "/usr/bin");
    app.env_list.state.next(app.env_list.items.len());
    let f = app.render(Rect::new(0, 0, 40, 10));
    assert_eq!(f.list.highlighted, Some(1));
    assert_eq!(f.detail.text, "/root");
}

#[test]
fn header_and_footer_carry_the_fixed_text() {
    let app = App::new(Vec::new());
    let f = app.render(Rect::new(0, 0, 80, 24));
    assert_eq!(f.header.text, "Ratatui Environment Reader");
    assert_eq!(
        f.footer.text,
        "Use ↓↑ or 'jk', 'gG' to move, and <Esc>, Ctrl-c or 'q' to quit"
    );
}

#[test]
fn empty_snapshot_renders() {
    let app = App::new(Vec::new());
    let f = app.render(Rect::new(0, 0, 40, 10));
    assert_eq!(f.list.rows.len(), 0);
    assert_eq!(f.list.highlighted, None);
    assert_eq!(f.detail.text, "Nothing selected");
}

#[test]
fn unusual_entries_are_shown_verbatim() {
    let app = App::new(vec![
        Environment::new("".to_string(), "a\u{7}b".to_string()),
    ]);
    let f = app.render(Rect::new(0, 0, 40, 10));
    assert_eq!(f.list.rows, vec!["".to_string()]);
}

#[test]
fn display_string_joins_key_and_value() {
    let e = Environment::new("TERM".to_string(), "xterm".to_string());
    assert_eq!(e.display_string(), "TERM=xterm");
}
