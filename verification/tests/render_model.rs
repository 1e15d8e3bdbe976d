use todo_tui::render::{render, CursorPos, Rect};
use todo_tui::state::{App, Key, Mode};

fn app_with_todos(todos: &[&str]) -> App {
    let mut app = App::new();
    for t in todos {
        app.handle_key(Key::Char('a'));
        for c in t.chars() {
            app.handle_key(Key::Char(c));
        }
        app.handle_key(Key::Enter);
    }
    app
}

#[test]
fn scenario_list_box_enumerates_entries_in_order() {
    let app = app_with_todos(&["a", "b"]);
    let area = Rect { x: 0, y: 0, width: 80, height: 24 };
    let model = render(&app, area);
    assert_eq!(model.list_lines, vec!["0: a".to_string(), "1: b".to_string()]);
    assert_eq!(model.input_title, "Input");
    assert_eq!(model.messages_title, "Messages");
}

#[test]
fn rendering_twice_gives_identical_output() {
    let mut app = app_with_todos(&["milk", "eggs"]);
    app.handle_key(Key::Char('a'));
    app.handle_key(Key::Char('x'));
    let area = Rect { x: 2, y: 1, width: 60, height: 20 };
    let first = render(&app, area);
    let second = render(&app, area);
    assert_eq!(first.help_area, second.help_area);
    assert_eq!(first.input_area, second.input_area);
    assert_eq!(first.messages_area, second.messages_area);
    assert_eq!(first.help_blink, second.help_blink);
    assert_eq!(first.input_text, second.input_text);
    assert_eq!(first.input_highlight, second.input_highlight);
    assert_eq!(first.cursor, second.cursor);
    assert_eq!(first.list_lines, second.list_lines);
    assert_eq!(first.help_spans.len(), second.help_spans.len());
    for (a, b) in first.help_spans.iter().zip(second.help_spans.iter()) {
        assert_eq!(a.text, b.text);
        assert_eq!(a.bold, b.bold);
    }
}

#[test]
fn layout_is_one_three_and_the_rest() {
    let app = App::new();
    let area = Rect { x: 3, y: 2, width: 40, height: 12 };
    let model = render(&app, area);
    assert_eq!(model.help_area, Rect { x: 3, y: 2, width: 40, height: 1 });
    assert_eq!(model.input_area, Rect { x: 3, y: 3, width: 40, height: 3 });
    assert_eq!(model.messages_area, Rect { x: 3, y: 6, width: 40, height: 8 });
}

#[test]
fn command_mode_hides_cursor_and_blinks_help() {
    let app = App::new();
    let area = Rect { x: 0, y: 0, width: 80, height: 24 };
    let model = render(&app, area);
    assert_eq!(model.cursor, None);
    assert!(model.help_blink);
    assert!(!model.input_highlight);
    let texts: Vec<&str> = model.help_spans.iter().map(|s| s.text.as_str()).collect();
    assert_eq!(
        texts,
        vec!["Press ", "q", " to exit, ", "s", " to save, ", "a", " to starting editing."]
    );
    let bolds: Vec<bool> = model.help_spans.iter().map(|s| s.bold).collect();
    assert_eq!(bolds, vec![false, true, false, true, false, true, false]);
}

#[test]
fn composing_mode_places_cursor_after_char_index() {
    let mut app = App::new();
    app.handle_key(Key::Char('a'));
    for c in "note".chars() {
        app.handle_key(Key::Char(c));
    }
    app.handle_key(Key::Left);
    assert_eq!(app.mode, Mode::Composing);
    assert_eq!(app.char_index, 3);
    let area = Rect { x: 5, y: 2, width: 50, height: 10 };
    let model = render(&app, area);
    // Column: input box x-origin + char_index + 1; row: input box
    // y-origin + 1, one below the top border.
    assert_eq!(model.cursor, Some(CursorPos { x: 5 + 3 + 1, y: 3 + 1 }));
    assert_eq!(model.cursor, Some(CursorPos { x: 9, y: 4 }));
    assert!(model.input_highlight);
    assert!(!model.help_blink);
    assert_eq!(model.input_text, "note");
    let texts: Vec<&str> = model.help_spans.iter().map(|s| s.text.as_str()).collect();
    assert_eq!(
        texts,
        vec!["Press ", "Esc", " to stop editing, ", "Enter", " to record the message"]
    );
}

#[test]
fn input_box_shows_buffer_left_by_esc() {
    let mut app = App::new();
    app.handle_key(Key::Char('a'));
    for c in "kept".chars() {
        app.handle_key(Key::Char(c));
    }
    app.handle_key(Key::Esc);
    let area = Rect { x: 0, y: 0, width: 30, height: 6 };
    let model = render(&app, area);
    assert_eq!(model.input_text, "kept");
    assert_eq!(model.cursor, None);
    assert!(model.list_lines.is_empty());
}

#[test]
fn list_lines_use_decimal_positions_past_nine() {
    let names: Vec<String> = (0..12).map(|i| format!("t{i}")).collect();
    let refs: Vec<&str> = names.iter().map(|s| s.as_str()).collect();
    let app = app_with_todos(&refs);
    let area = Rect { x: 0, y: 0, width: 80, height: 30 };
    let model = render(&app, area);
    assert_eq!(model.list_lines.len(), 12);
    assert_eq!(model.list_lines[9], "9: t9");
    assert_eq!(model.list_lines[10], "10: t10");
    assert_eq!(model.list_lines[11], "11: t11");
}
