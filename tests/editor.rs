use token_editor::app::{App, Control, InputMode, Key, KeyKind};
use token_editor::buffer::{EditOp, TextBuffer};
use token_editor::focus::Focus;

fn active_text(app: &App) -> String {
    app.active_buffer().iter().collect()
}

fn field_text(app: &App, f: Focus) -> String {
    app.field(f).text().iter().collect()
}

fn buffer_text(b: &TextBuffer) -> String {
    b.text().iter().collect()
}

fn press(app: &mut App, key: Key) -> Control {
    app.handle_key(key, KeyKind::Press)
}

#[test]
fn new_app_starts_empty_in_editing_mode() {
    let app = App::new();
    assert_eq!(app.focus(), Focus::Token);
    assert_eq!(app.input_mode(), InputMode::Editing);
    for f in [Focus::Token, Focus::Header, Focus::Payload, Focus::SigningKey] {
        assert_eq!(field_text(&app, f), "");
        assert_eq!(app.field(f).cursor(), 0);
    }
}

#[test]
fn insert_move_and_backspace_scenario() {
    let mut app = App::new();
    app.insert_char('a');
    app.insert_char('b');
    app.insert_char('c');
    assert_eq!(active_text(&app), "abc");
    assert_eq!(app.active_cursor(), 3);
    app.move_left();
    app.move_left();
    assert_eq!(app.active_cursor(), 1);
    app.backspace();
    // Backspace removes the character before the cursor, here the 'a'.
    assert_eq!(active_text(&app), "bc");
    assert_eq!(app.active_cursor(), 0);
}

#[test]
fn same_scenario_through_key_events() {
    let mut app = App::new();
    for k in [Key::Char('a'), Key::Char('b'), Key::Char('c'), Key::Left, Key::Left, Key::Backspace] {
        assert_eq!(press(&mut app, k), Control::Continue);
    }
    assert_eq!(active_text(&app), "bc");
    assert_eq!(app.active_cursor(), 0);
}

#[test]
fn backspace_at_start_is_noop() {
    let mut app = App::new();
    app.backspace();
    assert_eq!(active_text(&app), "");
    assert_eq!(app.active_cursor(), 0);

    app.insert_char('x');
    app.insert_char('y');
    app.move_left();
    app.move_left();
    app.backspace();
    app.backspace();
    assert_eq!(active_text(&app), "xy");
    assert_eq!(app.active_cursor(), 0);
}

#[test]
fn insert_then_backspace_restores() {
    let mut b = TextBuffer::new();
    for c in "hello".chars() {
        b.insert_char(c);
    }
    b.move_left();
    b.move_left();
    b.insert_char('Z');
    assert_eq!(buffer_text(&b), "helZlo");
    assert_eq!(b.cursor(), 4);
    b.backspace();
    assert_eq!(buffer_text(&b), "hello");
    assert_eq!(b.cursor(), 3);
}

#[test]
fn insert_left_backspace_replaces_previous_character() {
    let mut b = TextBuffer::new();
    for c in "hello".chars() {
        b.insert_char(c);
    }
    b.move_left();
    b.move_left();
    b.insert_char('Z');
    b.move_left();
    b.backspace();
    assert_eq!(buffer_text(&b), "heZlo");
    assert_eq!(b.cursor(), 2);

    let mut e = TextBuffer::new();
    e.insert_char('q');
    e.move_left();
    e.backspace();
    assert_eq!(buffer_text(&e), "q");
    assert_eq!(e.cursor(), 0);
}

#[test]
fn insert_left_backspace_restores_when_character_repeats() {
    let mut b = TextBuffer::new();
    b.insert_char('a');
    b.insert_char('b');
    b.insert_char('b');
    b.move_left();
    b.move_left();
    b.move_right();
    assert_eq!(b.cursor(), 2);
    b.insert_char('b');
    b.move_left();
    b.backspace();
    assert_eq!(buffer_text(&b), "abb");
    assert_eq!(b.cursor(), 1);
}

#[test]
fn cursor_stays_in_bounds_over_many_operations() {
    let mut b = TextBuffer::new();
    let ops = [
        EditOp::MoveRight,
        EditOp::MoveLeft,
        EditOp::Backspace,
        EditOp::Insert('a'),
        EditOp::Insert('b'),
        EditOp::MoveRight,
        EditOp::MoveRight,
        EditOp::MoveLeft,
        EditOp::MoveLeft,
        EditOp::MoveLeft,
        EditOp::Insert('c'),
        EditOp::Backspace,
        EditOp::Backspace,
        EditOp::Backspace,
        EditOp::MoveRight,
        EditOp::Insert('d'),
        EditOp::MoveRight,
        EditOp::MoveRight,
    ];
    for op in ops {
        b.apply(op);
        assert!(b.cursor() <= b.text().len());
    }
    assert_eq!(buffer_text(&b), "adb");
    assert_eq!(b.cursor(), 3);
}

#[test]
fn move_right_stops_at_end() {
    let mut app = App::new();
    app.move_right();
    assert_eq!(app.active_cursor(), 0);
    app.insert_char('a');
    app.insert_char('b');
    app.move_right();
    assert_eq!(app.active_cursor(), 2);
    app.move_left();
    app.move_right();
    assert_eq!(app.active_cursor(), 2);
}

#[test]
fn move_right_after_backspace_uses_new_length() {
    let mut app = App::new();
    app.insert_char('a');
    app.insert_char('b');
    app.insert_char('c');
    app.move_left();
    app.backspace();
    assert_eq!(active_text(&app), "ac");
    assert_eq!(app.active_cursor(), 1);
    app.move_right();
    app.move_right();
    assert_eq!(app.active_cursor(), 2);
}

#[test]
fn move_left_stops_at_zero() {
    let mut app = App::new();
    app.insert_char('a');
    app.move_left();
    app.move_left();
    assert_eq!(app.active_cursor(), 0);
    assert_eq!(active_text(&app), "a");
}

#[test]
fn insertion_counts_characters_not_bytes() {
    let mut app = App::new();
    app.insert_char('é');
    app.insert_char('ü');
    app.move_left();
    app.insert_char('ß');
    assert_eq!(active_text(&app), "éßü");
    assert_eq!(app.active_cursor(), 2);
    app.backspace();
    assert_eq!(active_text(&app), "éü");
}

#[test]
fn next_focus_four_times_returns_and_keeps_fields() {
    let mut app = App::new();
    app.insert_char('t');
    app.next_focus();
    app.insert_char('h');
    app.insert_char('h');
    app.move_left();
    app.next_focus();
    app.next_focus();
    app.next_focus();
    assert_eq!(app.focus(), Focus::Token);
    let before: Vec<(String, usize)> = [Focus::Token, Focus::Header, Focus::Payload, Focus::SigningKey]
        .iter()
        .map(|f| (field_text(&app, *f), app.field(*f).cursor()))
        .collect();
    for _ in 0..4 {
        app.next_focus();
    }
    assert_eq!(app.focus(), Focus::Token);
    let after: Vec<(String, usize)> = [Focus::Token, Focus::Header, Focus::Payload, Focus::SigningKey]
        .iter()
        .map(|f| (field_text(&app, *f), app.field(*f).cursor()))
        .collect();
    assert_eq!(before, after);
    assert_eq!(after[1], ("hh".to_string(), 1));
}

#[test]
fn focus_switch_keeps_cursor() {
    let mut app = App::new();
    for c in "token".chars() {
        app.insert_char(c);
    }
    app.move_left();
    app.move_left();
    assert_eq!(app.active_cursor(), 3);
    app.next_focus();
    assert_eq!(app.focus(), Focus::Header);
    assert_eq!(app.active_cursor(), 0);
    app.insert_char('x');
    app.next_focus();
    app.insert_char('y');
    app.next_focus();
    app.next_focus();
    assert_eq!(app.focus(), Focus::Token);
    assert_eq!(app.active_cursor(), 3);
    app.insert_char('_');
    assert_eq!(active_text(&app), "tok_en");
    assert_eq!(field_text(&app, Focus::Header), "x");
    assert_eq!(field_text(&app, Focus::Payload), "y");
    assert_eq!(field_text(&app, Focus::SigningKey), "");
}

#[test]
fn tab_cycles_focus_in_order() {
    let mut app = App::new();
    let mut seen = vec![app.focus()];
    for _ in 0..4 {
        assert_eq!(press(&mut app, Key::Tab), Control::Continue);
        seen.push(app.focus());
    }
    assert_eq!(
        seen,
        vec![Focus::Token, Focus::Header, Focus::Payload, Focus::SigningKey, Focus::Token]
    );
}

#[test]
fn normal_mode_quit_and_other_keys() {
    let mut app = App::new();
    press(&mut app, Key::Char('a'));
    assert_eq!(press(&mut app, Key::Esc), Control::Continue);
    assert_eq!(app.input_mode(), InputMode::Normal);

    for k in [Key::Char('x'), Key::Tab, Key::Backspace, Key::Left, Key::Right, Key::Other] {
        assert_eq!(press(&mut app, k), Control::Continue);
        assert_eq!(app.input_mode(), InputMode::Normal);
        assert_eq!(app.focus(), Focus::Token);
        assert_eq!(active_text(&app), "a");
        assert_eq!(app.active_cursor(), 1);
    }
    assert_eq!(press(&mut app, Key::Char('q')), Control::Quit);
}

#[test]
fn quit_key_is_text_while_editing() {
    let mut app = App::new();
    assert_eq!(press(&mut app, Key::Char('q')), Control::Continue);
    assert_eq!(press(&mut app, Key::Char('e')), Control::Continue);
    assert_eq!(active_text(&app), "qe");
}

#[test]
fn edit_key_returns_to_editing() {
    let mut app = App::new();
    press(&mut app, Key::Esc);
    assert_eq!(app.input_mode(), InputMode::Normal);
    assert_eq!(press(&mut app, Key::Char('e')), Control::Continue);
    assert_eq!(app.input_mode(), InputMode::Editing);
    assert_eq!(active_text(&app), "");
}

#[test]
fn releases_and_repeats_are_ignored_while_editing() {
    let mut app = App::new();
    for kind in [KeyKind::Release, KeyKind::Repeat] {
        for k in [Key::Char('a'), Key::Tab, Key::Esc, Key::Backspace, Key::Left, Key::Right] {
            assert_eq!(app.handle_key(k, kind), Control::Continue);
        }
    }
    assert_eq!(app.input_mode(), InputMode::Editing);
    assert_eq!(app.focus(), Focus::Token);
    assert_eq!(active_text(&app), "");
    assert_eq!(app.active_cursor(), 0);
}

#[test]
fn caret_follows_focused_cursor() {
    let mut app = App::new();
    assert_eq!(app.caret_position(0, 1), Some((1, 2)));
    app.insert_char('a');
    app.insert_char('b');
    assert_eq!(app.caret_position(10, 5), Some((13, 6)));
    app.next_focus();
    assert_eq!(app.caret_position(10, 5), Some((11, 6)));
    press(&mut app, Key::Esc);
    assert_eq!(app.caret_position(10, 5), None);
}

#[test]
fn caret_is_held_at_screen_limit() {
    let mut app = App::new();
    app.insert_char('a');
    assert_eq!(app.caret_position(u16::MAX - 2, 7), Some((u16::MAX, 8)));
    assert_eq!(app.caret_position(u16::MAX - 1, u16::MAX), Some((u16::MAX, u16::MAX)));
}
