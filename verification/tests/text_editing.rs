use httptui::event::Key;
use httptui::text_input::TextInput;

#[test]
fn empty_field_starts_at_zero() {
    let t = TextInput::new();
    assert_eq!(t.text().len(), 0);
    assert_eq!(t.cursor_position(), 0);
}

#[test]
fn insert_advances_caret() {
    let mut t = TextInput::new();
    t.on_input_char('a');
    t.on_input_char('b');
    assert_eq!(t.text().clone(), vec!['a', 'b']);
    assert_eq!(t.cursor_position(), 2);
}

#[test]
fn scenario_insert_move_insert_backspace() {
    let mut t = TextInput::new();
    t.on_input_char('h');
    t.on_input_char('i');
    assert_eq!(t.text().clone(), vec!['h', 'i']);
    assert_eq!(t.cursor_position(), 2);
    t.move_left();
    assert_eq!(t.cursor_position(), 1);
    t.on_input_char('X');
    assert_eq!(t.text().clone(), vec!['h', 'X', 'i']);
    assert_eq!(t.cursor_position(), 2);
    t.backspace_char();
    assert_eq!(t.text().clone(), vec!['h', 'i']);
    assert_eq!(t.cursor_position(), 1);
}

#[test]
fn insert_then_backspace_round_trips() {
    let mut t = TextInput::new();
    t.on_input_char('a');
    t.on_input_char('b');
    t.move_left();
    let contents_before = t.text().clone();
    let caret_before = t.cursor_position();
    t.on_input_char('x');
    t.backspace_char();
    assert_eq!(t.text().clone(), contents_before);
    assert_eq!(t.cursor_position(), caret_before);
}

#[test]
fn caret_stays_in_bounds_for_any_key_sequence() {
    let keys = [
        Key::Backspace,
        Key::Delete,
        Key::Left,
        Key::Char('a'),
        Key::Char('b'),
        Key::Left,
        Key::Left,
        Key::Left,
        Key::Delete,
        Key::Char('c'),
        Key::Right,
        Key::Right,
        Key::Right,
        Key::Backspace,
        Key::Char('d'),
        Key::Left,
        Key::Backspace,
        Key::Delete,
        Key::Delete,
        Key::Right,
        Key::Enter,
        Key::Other,
    ];
    let mut t = TextInput::new();
    for key in keys {
        t.on_input(key);
        assert!(t.cursor_position() <= t.text().len());
    }
}

#[test]
fn move_left_is_a_no_op_at_the_start() {
    let mut t = TextInput::new();
    t.move_left();
    assert_eq!(t.cursor_position(), 0);
    t.on_input_char('a');
    t.move_left();
    t.move_left();
    assert_eq!(t.cursor_position(), 0);
    assert_eq!(t.text().clone(), vec!['a']);
}

#[test]
fn move_right_is_a_no_op_at_the_end() {
    let mut t = TextInput::new();
    t.on_input_char('a');
    t.move_right();
    t.move_right();
    assert_eq!(t.cursor_position(), 1);
}

#[test]
fn backspace_is_a_no_op_at_the_start() {
    let mut t = TextInput::new();
    t.on_input_char('a');
    t.move_left();
    t.backspace_char();
    assert_eq!(t.text().clone(), vec!['a']);
    assert_eq!(t.cursor_position(), 0);
}

#[test]
fn delete_removes_at_caret_and_keeps_caret() {
    let mut t = TextInput::new();
    t.on_input_char('a');
    t.on_input_char('b');
    t.move_left();
    t.move_left();
    t.delete_char();
    assert_eq!(t.text().clone(), vec!['b']);
    assert_eq!(t.cursor_position(), 0);
}

#[test]
fn delete_is_a_no_op_at_the_end() {
    let mut t = TextInput::new();
    t.on_input_char('a');
    t.delete_char();
    assert_eq!(t.text().clone(), vec!['a']);
    assert_eq!(t.cursor_position(), 1);
}

#[test]
fn clear_resets_contents_and_caret() {
    let mut t = TextInput::new();
    t.on_input_char('a');
    t.on_input_char('b');
    t.clear();
    assert_eq!(t.text().len(), 0);
    assert_eq!(t.cursor_position(), 0);
}

#[test]
fn multibyte_characters_count_as_one_position() {
    let mut t = TextInput::new();
    t.on_input_char('é');
    t.on_input_char('漢');
    assert_eq!(t.cursor_position(), 2);
    t.backspace_char();
    assert_eq!(t.text().clone(), vec!['é']);
    assert_eq!(t.cursor_position(), 1);
}
