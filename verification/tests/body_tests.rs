use reqtui::body::BodyBuffer;

#[test]
fn empty_buffer_round_trips_empty_text() {
    let b = BodyBuffer::new();
    assert_eq!(b.get_text(), "");
    let mut b2 = BodyBuffer::new();
    b2.set_text("");
    assert_eq!(b2.get_text(), "");
    assert_eq!(b2.lines.len(), 1);
}

#[test]
fn single_line_round_trips() {
    let mut b = BodyBuffer::new();
    b.set_text("hello");
    assert_eq!(b.get_text(), "hello");
}

#[test]
fn multi_line_round_trips_without_trailing_newline() {
    let mut b = BodyBuffer::new();
    b.set_text("{\n  \"a\": 1\n}");
    assert_eq!(b.lines.len(), 3);
    assert_eq!(b.get_text(), "{\n  \"a\": 1\n}");
}

#[test]
fn blank_and_empty_interior_lines_survive_the_round_trip() {
    let mut b = BodyBuffer::new();
    b.set_text("a\n\nb");
    assert_eq!(b.lines.len(), 3);
    assert_eq!(b.lines[1], "");
    assert_eq!(b.get_text(), "a\n\nb");
}

#[test]
fn trailing_newline_round_trips_as_an_empty_last_line() {
    let mut b = BodyBuffer::new();
    b.set_text("a\n");
    assert_eq!(b.lines.len(), 2);
    assert_eq!(b.get_text(), "a\n");
}

#[test]
fn insert_char_moves_cursor_right() {
    let mut b = BodyBuffer::new();
    b.insert_char('h');
    b.insert_char('i');
    assert_eq!(b.get_text(), "hi");
    assert_eq!(b.cursor_row, 0);
    assert_eq!(b.cursor_col, 2);
}

#[test]
fn insert_newline_breaks_the_line_at_the_cursor() {
    let mut b = BodyBuffer::new();
    b.set_text("abcd");
    b.move_cursor_right();
    b.move_cursor_right();
    b.insert_newline();
    assert_eq!(b.get_text(), "ab\ncd");
    assert_eq!(b.cursor_row, 1);
    assert_eq!(b.cursor_col, 0);
}

#[test]
fn backspace_deletes_and_joins_lines() {
    let mut b = BodyBuffer::new();
    b.set_text("ab\ncd");
    b.move_cursor_down();
    b.move_cursor_right();
    b.backspace();
    assert_eq!(b.get_text(), "ab\nd");
    b.backspace();
    assert_eq!(b.get_text(), "abd");
    assert_eq!(b.cursor_row, 0);
    assert_eq!(b.cursor_col, 2);
}

#[test]
fn backspace_at_start_of_text_is_a_noop() {
    let mut b = BodyBuffer::new();
    b.set_text("x");
    b.backspace();
    assert_eq!(b.get_text(), "x");
}

#[test]
fn cursor_movement_clamps_column_to_line_length() {
    let mut b = BodyBuffer::new();
    b.set_text("abcdef\nxy");
    b.move_cursor_right();
    b.move_cursor_right();
    b.move_cursor_right();
    b.move_cursor_right();
    assert_eq!(b.cursor_col, 4);
    b.move_cursor_down();
    assert_eq!(b.cursor_row, 1);
    assert_eq!(b.cursor_col, 2);
    b.move_cursor_up();
    assert_eq!(b.cursor_row, 0);
    assert_eq!(b.cursor_col, 2);
}

#[test]
fn cursor_left_and_right_wrap_across_lines() {
    let mut b = BodyBuffer::new();
    b.set_text("ab\ncd");
    b.move_cursor_right();
    b.move_cursor_right();
    b.move_cursor_right();
    assert_eq!((b.cursor_row, b.cursor_col), (1, 0));
    b.move_cursor_left();
    assert_eq!((b.cursor_row, b.cursor_col), (0, 2));
}
