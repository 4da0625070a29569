use ted::cursor::{ArrowKeys, TextEditor};
use ted::fixed::Fx3;
use ted::text::TextBuffer;

fn buffer(lines: &[&str]) -> TextBuffer {
    TextBuffer::new(lines.iter().map(|s| s.to_string()).collect())
}

fn keys(left: bool, right: bool, up: bool, down: bool) -> ArrowKeys {
    ArrowKeys { left, right, up, down }
}

fn editor(row: usize, column: usize) -> TextEditor {
    TextEditor { row, column, camera_scale_velocity: Fx3::zero() }
}

#[test]
fn new_editor_starts_at_origin() {
    let ed = TextEditor::new();
    assert_eq!(ed.row, 0);
    assert_eq!(ed.column, 0);
    assert_eq!(ed.camera_scale_velocity.x.raw, 0);
}

#[test]
fn left_at_column_zero_is_noop() {
    let b = buffer(&["abc"]);
    let mut ed = editor(0, 0);
    ed.navigate(&b, keys(true, false, false, false));
    assert_eq!((ed.row, ed.column), (0, 0));
}

#[test]
fn left_moves_one_column() {
    let b = buffer(&["abc"]);
    let mut ed = editor(0, 2);
    ed.navigate(&b, keys(true, false, false, false));
    assert_eq!((ed.row, ed.column), (0, 1));
}

#[test]
fn right_at_end_of_line_is_noop() {
    let b = buffer(&["ab"]);
    let mut ed = editor(0, 2);
    ed.navigate(&b, keys(false, true, false, false));
    assert_eq!((ed.row, ed.column), (0, 2));
}

#[test]
fn right_moves_to_end_of_line() {
    let b = buffer(&["ab"]);
    let mut ed = editor(0, 1);
    ed.navigate(&b, keys(false, true, false, false));
    assert_eq!((ed.row, ed.column), (0, 2));
}

#[test]
fn up_at_first_row_is_noop() {
    let b = buffer(&["a", "b"]);
    let mut ed = editor(0, 1);
    ed.navigate(&b, keys(false, false, true, false));
    assert_eq!((ed.row, ed.column), (0, 1));
}

#[test]
fn down_at_last_row_is_noop() {
    let b = buffer(&["a", "b"]);
    let mut ed = editor(1, 0);
    ed.navigate(&b, keys(false, false, false, true));
    assert_eq!((ed.row, ed.column), (1, 0));
}

#[test]
fn down_moves_one_row() {
    let b = buffer(&["a", "b", "c"]);
    let mut ed = editor(0, 0);
    ed.navigate(&b, keys(false, false, false, true));
    assert_eq!((ed.row, ed.column), (1, 0));
}

#[test]
fn left_takes_priority_over_right() {
    let b = buffer(&["abc"]);
    let mut ed = editor(0, 1);
    ed.navigate(&b, keys(true, true, false, false));
    assert_eq!((ed.row, ed.column), (0, 0));
}

#[test]
fn right_takes_priority_over_up() {
    let b = buffer(&["abc", "d"]);
    let mut ed = editor(1, 0);
    ed.navigate(&b, keys(false, true, true, false));
    assert_eq!((ed.row, ed.column), (1, 1));
}

#[test]
fn no_keys_is_noop() {
    let b = buffer(&["abc"]);
    let mut ed = editor(0, 1);
    ed.navigate(&b, keys(false, false, false, false));
    assert_eq!((ed.row, ed.column), (0, 1));
}

#[test]
fn up_does_not_clamp_column_to_shorter_line() {
    let b = buffer(&["ab", "abcdef"]);
    let mut ed = editor(1, 5);
    ed.navigate(&b, keys(false, false, true, false));
    assert_eq!((ed.row, ed.column), (0, 5));
}

#[test]
fn line_lengths_count_characters_not_bytes() {
    let b = buffer(&["héllo"]);
    assert_eq!(b.line_len(0), 5);
}

#[test]
fn max_line_len_is_longest_line() {
    let b = buffer(&["ab", "abcd", "a"]);
    assert_eq!(b.max_line_len(), 4);
}

#[test]
fn max_line_len_of_single_empty_line_is_zero() {
    let b = buffer(&[""]);
    assert_eq!(b.max_line_len(), 0);
}

#[test]
fn pixel_position_formula() {
    let b = buffer(&["aaaa", "aaaa", "aaaa"]);
    let ed = editor(2, 3);
    let p = ed.pixel_position(&b);
    assert_eq!(p.x.raw, 3 * 18_000_000);
    assert_eq!(p.y.raw, -(18 * 2 + 9) * 1_000_000);
    assert_eq!(p.z.raw, 0);
}

#[test]
fn pixel_position_caps_column_at_line_end() {
    let b = buffer(&["ab", "abcdef"]);
    let ed = editor(0, 5);
    let p = ed.pixel_position(&b);
    assert_eq!(p.x.raw, 2 * 18_000_000);
}

#[test]
fn pixel_y_non_increasing_in_row() {
    let b = buffer(&["a", "a", "a"]);
    let y0 = editor(0, 0).pixel_position(&b).y.raw;
    let y1 = editor(1, 0).pixel_position(&b).y.raw;
    let y2 = editor(2, 0).pixel_position(&b).y.raw;
    assert_eq!(y0, -9_000_000);
    assert_eq!(y1, -27_000_000);
    assert_eq!(y2, -45_000_000);
    assert!(y0 >= y1 && y1 >= y2);
}
