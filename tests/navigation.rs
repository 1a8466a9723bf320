use pound::cursor::{CursorController, Direction};
use pound::document::EditorRows;

fn rows(lines: &[&str]) -> EditorRows {
    EditorRows::from_lines(lines.iter().map(|l| l.to_string()).collect())
}

fn at(x: usize, y: usize, cols: usize, rows: usize) -> CursorController {
    let mut c = CursorController::new((cols, rows));
    c.cursor_x = x;
    c.cursor_y = y;
    c
}

fn invariants_hold(c: &CursorController, doc: &EditorRows) -> bool {
    let n = doc.number_of_rows();
    let len = if c.cursor_y < n { doc.row_length(c.cursor_y) } else { 0 };
    c.cursor_y <= n
        && c.cursor_x <= len
        && c.column_offset <= c.cursor_x
        && c.cursor_x < c.column_offset + c.screen_columns
        && c.row_offset <= c.cursor_y
        && c.cursor_y < c.row_offset + c.screen_rows
}

#[test]
fn new_controller_starts_at_origin() {
    let c = CursorController::new((80, 24));
    assert_eq!((c.cursor_x, c.cursor_y, c.row_offset, c.column_offset), (0, 0, 0, 0));
    assert_eq!((c.screen_columns, c.screen_rows), (80, 24));
}

#[test]
fn invariants_hold_after_every_command() {
    let doc = rows(&["hello world", "", "a much longer line than the screen is wide", "xy"]);
    let mut c = CursorController::new((8, 2));
    let cmds = [
        Direction::Down, Direction::Down, Direction::Right, Direction::Right, Direction::Left,
        Direction::Left, Direction::Left, Direction::End, Direction::Down, Direction::Down,
        Direction::Up, Direction::Right, Direction::Right, Direction::Right, Direction::Home,
        Direction::Left, Direction::Up,
    ];
    for d in cmds.iter() {
        c.move_cursor(*d, &doc);
        c.scroll();
        assert!(invariants_hold(&c, &doc), "after {:?}", d);
    }
    let line = "a much longer line than the screen is wide";
    let mut c = at(0, 2, 8, 2);
    for _ in 0..line.len() {
        c.move_cursor(Direction::Right, &doc);
        c.scroll();
        assert!(invariants_hold(&c, &doc));
    }
    assert_eq!((c.cursor_x, c.cursor_y, c.column_offset), (42, 2, 35));
}

#[test]
fn left_and_right_stay_within_the_line() {
    let doc = rows(&["abc", "de"]);
    let mut c = at(0, 0, 80, 24);
    for _ in 0..3 {
        c.move_cursor(Direction::Right, &doc);
        assert!(c.cursor_x <= 3);
    }
    assert_eq!((c.cursor_x, c.cursor_y), (3, 0));
    c.move_cursor(Direction::Left, &doc);
    assert_eq!((c.cursor_x, c.cursor_y), (2, 0));
}

#[test]
fn up_and_down_clamp_to_the_new_line() {
    let doc = rows(&["abcdef", "ab", "abcd"]);
    let mut c = at(5, 0, 80, 24);
    c.move_cursor(Direction::Down, &doc);
    assert_eq!((c.cursor_x, c.cursor_y), (2, 1));
    c.move_cursor(Direction::Down, &doc);
    assert_eq!((c.cursor_x, c.cursor_y), (2, 2));
    let mut c = at(3, 2, 80, 24);
    c.move_cursor(Direction::Up, &doc);
    assert_eq!((c.cursor_x, c.cursor_y), (2, 1));
    let mut c = at(3, 2, 80, 24);
    c.move_cursor(Direction::Down, &doc);
    assert_eq!((c.cursor_x, c.cursor_y), (0, 3));
}

#[test]
fn up_at_first_row_changes_nothing() {
    let doc = rows(&["abc"]);
    let mut c = at(2, 0, 80, 24);
    c.move_cursor(Direction::Up, &doc);
    assert_eq!((c.cursor_x, c.cursor_y), (2, 0));
}

#[test]
fn left_at_line_start_goes_to_end_of_previous_line() {
    let doc = rows(&["abcd", "xy"]);
    let mut c = at(0, 1, 80, 24);
    c.move_cursor(Direction::Left, &doc);
    assert_eq!((c.cursor_x, c.cursor_y), (4, 0));
    let mut c = at(0, 0, 80, 24);
    c.move_cursor(Direction::Left, &doc);
    assert_eq!((c.cursor_x, c.cursor_y), (0, 0));
}

#[test]
fn home_and_end_move_between_first_and_last_row() {
    let doc = rows(&["abcdef", "ab", "abcd"]);
    let mut c = at(5, 0, 80, 24);
    c.move_cursor(Direction::End, &doc);
    assert_eq!((c.cursor_x, c.cursor_y), (4, 2));
    c.move_cursor(Direction::Home, &doc);
    assert_eq!((c.cursor_x, c.cursor_y), (4, 0));
    let empty = EditorRows::new();
    let mut c = at(0, 0, 80, 24);
    c.move_cursor(Direction::End, &empty);
    assert_eq!((c.cursor_x, c.cursor_y), (0, 0));
}

#[test]
fn down_may_rest_one_row_past_the_last_line() {
    let doc = rows(&["abc"]);
    let mut c = at(2, 0, 80, 24);
    c.move_cursor(Direction::Down, &doc);
    assert_eq!((c.cursor_x, c.cursor_y), (0, 1));
    c.move_cursor(Direction::Down, &doc);
    assert_eq!((c.cursor_x, c.cursor_y), (0, 1));
}

#[test]
fn scroll_moves_only_as_far_as_needed() {
    let doc = rows(&["abcdefghijklmnopqrstuvwxyz"]);
    let mut c = at(0, 0, 10, 24);
    for _ in 0..15 {
        c.move_cursor(Direction::Right, &doc);
    }
    assert_eq!(c.cursor_x, 15);
    c.scroll();
    assert_eq!(c.column_offset, 6);
    c.scroll();
    assert_eq!(c.column_offset, 6);
}

#[test]
fn scroll_back_left_and_up_to_the_cursor() {
    let mut c = at(3, 4, 10, 5);
    c.column_offset = 7;
    c.row_offset = 9;
    c.scroll();
    assert_eq!((c.column_offset, c.row_offset), (3, 4));
}

#[test]
fn scroll_down_reveals_the_cursor_row() {
    let mut c = at(0, 30, 80, 24);
    c.scroll();
    assert_eq!(c.row_offset, 7);
}

#[test]
fn right_wraps_at_line_end() {
    let doc = rows(&["abcde", "fgh"]);
    let mut c = at(5, 0, 80, 24);
    c.move_cursor(Direction::Right, &doc);
    assert_eq!((c.cursor_x, c.cursor_y), (0, 1));
    let mut c = at(3, 1, 80, 24);
    c.move_cursor(Direction::Right, &doc);
    assert_eq!((c.cursor_x, c.cursor_y), (0, 2));
    c.move_cursor(Direction::Right, &doc);
    assert_eq!((c.cursor_x, c.cursor_y), (0, 2));
}

#[test]
fn three_line_file_scenario() {
    let doc = rows(&["abc", "de", "fghij"]);
    let mut c = CursorController::new((80, 24));
    for d in [Direction::Down, Direction::Down, Direction::End].iter() {
        c.move_cursor(*d, &doc);
        c.scroll();
    }
    assert_eq!((c.cursor_x, c.cursor_y), (0, 2));
    for _ in 0..5 {
        c.move_cursor(Direction::Right, &doc);
        c.scroll();
    }
    assert_eq!((c.cursor_x, c.cursor_y), (5, 2));
    // Row 2 exists, so Right at its end wraps to the row past the last line.
    c.move_cursor(Direction::Right, &doc);
    c.scroll();
    assert_eq!((c.cursor_x, c.cursor_y), (0, 3));
    c.move_cursor(Direction::Right, &doc);
    assert_eq!((c.cursor_x, c.cursor_y), (0, 3));
}

#[test]
fn document_lookup() {
    let doc = rows(&["héllo", ""]);
    assert_eq!(doc.number_of_rows(), 2);
    assert_eq!(doc.get_row(0), "héllo");
    assert_eq!(doc.row_length(0), 5);
    assert_eq!(doc.row_length(1), 0);
    assert_eq!(EditorRows::new().number_of_rows(), 0);
}

fn chars(s: &str) -> Vec<char> {
    s.chars().collect()
}

#[test]
fn text_splits_into_lines() {
    let doc = EditorRows::from_text(&chars("abc\nde\r\n\nfghij\n"));
    assert_eq!(doc.number_of_rows(), 4);
    assert_eq!(doc.get_row(0), "abc");
    assert_eq!(doc.get_row(1), "de");
    assert_eq!(doc.get_row(2), "");
    assert_eq!(doc.get_row(3), "fghij");
    let doc = EditorRows::from_text(&chars("last line without end"));
    assert_eq!(doc.number_of_rows(), 1);
    assert_eq!(doc.get_row(0), "last line without end");
    assert_eq!(EditorRows::from_text(&chars("")).number_of_rows(), 0);
    let doc = EditorRows::from_text(&chars("\n"));
    assert_eq!(doc.number_of_rows(), 1);
    assert_eq!(doc.get_row(0), "");
    let text = "x\r\ny\n\nz";
    let doc = EditorRows::from_text(&chars(text));
    let std_lines: Vec<&str> = text.lines().collect();
    assert_eq!(doc.number_of_rows(), std_lines.len());
    for (i, l) in std_lines.iter().enumerate() {
        assert_eq!(doc.get_row(i), *l);
    }
}
