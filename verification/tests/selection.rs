use gap_editor::buffer::{Buffer, Direction, TextObject};

fn cells(text: &str) -> Vec<char> {
    text.chars().collect()
}

fn buffer_at(text: &str, cursor: usize) -> Buffer {
    let mut buffer = Buffer::new(Some(text.bytes().collect()));
    for _ in 0..cursor {
        buffer.go(TextObject::Char, Direction::Right);
    }
    buffer
}

fn move_to(buffer: &mut Buffer, cursor: usize) {
    buffer.go_to_start();
    for _ in 0..cursor {
        buffer.go(TextObject::Char, Direction::Right);
    }
}

#[test]
fn toggle_sets_the_mark_at_the_cursor_and_clears_it_again() {
    let mut buffer = buffer_at("ab\ncde", 5);
    assert_eq!(buffer.mark, None);
    buffer.toggle_selection();
    assert_eq!(buffer.mark, Some((2, 3)));
    buffer.go_to_start();
    assert_eq!(buffer.mark, Some((2, 3)));
    buffer.toggle_selection();
    assert_eq!(buffer.mark, None);
    assert!(!buffer.modified);
}

#[test]
fn no_selection_without_a_mark() {
    let buffer = buffer_at("abc", 1);
    assert_eq!(buffer.get_selection(), None);
}

#[test]
fn selection_on_one_line_is_ordered_by_column() {
    let mut buffer = buffer_at("abcdefgh", 4);
    buffer.toggle_selection();
    assert_eq!(buffer.mark, Some((1, 5)));
    move_to(&mut buffer, 1);
    assert_eq!(buffer.cursor_position(), (1, 2));
    assert_eq!(buffer.get_selection(), Some(((1, 2), (1, 5))));
}

#[test]
fn selection_with_the_mark_first_stays_in_order() {
    let mut buffer = buffer_at("abcdefgh", 1);
    buffer.toggle_selection();
    move_to(&mut buffer, 4);
    assert_eq!(buffer.get_selection(), Some(((1, 2), (1, 5))));
}

#[test]
fn selection_over_lines_is_ordered_by_line() {
    let mut buffer = buffer_at("abcdef\nxy", 8);
    buffer.toggle_selection();
    assert_eq!(buffer.mark, Some((2, 2)));
    move_to(&mut buffer, 5);
    assert_eq!(buffer.get_selection(), Some(((1, 6), (2, 2))));
    move_to(&mut buffer, 9);
    assert_eq!(buffer.get_selection(), Some(((2, 2), (2, 3))));
}

#[test]
fn selection_of_nothing_has_two_equal_ends() {
    let mut buffer = buffer_at("abc", 2);
    buffer.toggle_selection();
    assert_eq!(buffer.get_selection(), Some(((1, 3), (1, 3))));
}

#[test]
fn copy_takes_the_text_between_mark_and_cursor() {
    let mut buffer = buffer_at("hello world", 6);
    buffer.toggle_selection();
    buffer.go_to_end();
    buffer.copy_to_clipboard();
    assert_eq!(buffer.clipboard, Some(cells("world")));
    assert_eq!(buffer.mark, None);
    assert_eq!(buffer.text(), cells("hello world"));
    assert_eq!(buffer.logical_cursor(), 11);
    assert!(!buffer.modified);
}

#[test]
fn copy_with_the_cursor_before_the_mark() {
    let mut buffer = buffer_at("hello world", 5);
    buffer.toggle_selection();
    move_to(&mut buffer, 1);
    buffer.copy_to_clipboard();
    assert_eq!(buffer.clipboard, Some(cells("ello")));
    assert_eq!(buffer.logical_cursor(), 1);
}

#[test]
fn copy_on_a_later_line_starts_at_the_column_of_the_mark() {
    let mut buffer = buffer_at("ab\ncdef\ngh", 5);
    buffer.toggle_selection();
    assert_eq!(buffer.mark, Some((2, 3)));
    move_to(&mut buffer, 9);
    buffer.copy_to_clipboard();
    assert_eq!(buffer.clipboard, Some(cells("ef\ng")));
}

#[test]
fn copy_leaves_out_a_line_end_at_the_very_start() {
    let mut buffer = buffer_at("ab\ncd", 2);
    buffer.toggle_selection();
    buffer.go_to_end();
    buffer.copy_to_clipboard();
    assert_eq!(buffer.clipboard, Some(cells("cd")));
}

#[test]
fn copy_leaves_out_one_line_end_only() {
    let mut buffer = buffer_at("ab\n\ncd", 2);
    buffer.toggle_selection();
    buffer.go_to_end();
    buffer.copy_to_clipboard();
    assert_eq!(buffer.clipboard, Some(cells("\ncd")));
}

#[test]
fn copy_of_a_lone_line_end_is_empty() {
    let mut buffer = buffer_at("ab\ncd", 2);
    buffer.toggle_selection();
    buffer.go(TextObject::Char, Direction::Right);
    buffer.copy_to_clipboard();
    assert_eq!(buffer.clipboard, Some(cells("")));
}

#[test]
fn copy_of_nothing_is_empty() {
    let mut buffer = buffer_at("abc", 1);
    buffer.toggle_selection();
    buffer.copy_to_clipboard();
    assert_eq!(buffer.clipboard, Some(cells("")));
    assert_eq!(buffer.mark, None);
}

#[test]
fn copy_without_a_selection_changes_nothing() {
    let mut buffer = buffer_at("abc", 1);
    buffer.clipboard = Some(cells("old"));
    buffer.copy_to_clipboard();
    assert_eq!(buffer.clipboard, Some(cells("old")));
    assert_eq!(buffer.mark, None);
}

#[test]
fn copy_with_a_mark_beyond_the_text_stops_at_its_end() {
    let mut buffer = buffer_at("abc\ndef", 1);
    buffer.mark = Some((9, 9));
    buffer.copy_to_clipboard();
    assert_eq!(buffer.clipboard, Some(cells("bc\ndef")));
    let mut buffer = buffer_at("abc\ndef", 1);
    buffer.mark = Some((1, 40));
    buffer.copy_to_clipboard();
    assert_eq!(buffer.clipboard, Some(cells("bc\ndef")));
}

#[test]
fn paste_puts_the_copy_in_at_the_cursor() {
    let mut buffer = buffer_at("hello world", 0);
    buffer.clipboard = Some(cells("big "));
    move_to(&mut buffer, 6);
    buffer.paste_from_clipboard();
    assert_eq!(buffer.text(), cells("hello big world"));
    assert_eq!(buffer.logical_cursor(), 10);
    assert_eq!(buffer.clipboard, Some(cells("big ")));
    assert!(buffer.modified);
}

#[test]
fn paste_twice_puts_the_copy_in_twice() {
    let mut buffer = Buffer::new(None);
    buffer.clipboard = Some(cells("ab"));
    buffer.paste_from_clipboard();
    buffer.paste_from_clipboard();
    assert_eq!(buffer.text(), cells("abab"));
}

#[test]
fn paste_grows_the_buffer_as_often_as_needed() {
    let mut buffer = Buffer::new(None);
    let copy = cells("0123456789abcdefghijklmnopqrstuvwxyz");
    buffer.clipboard = Some(copy.clone());
    buffer.paste_from_clipboard();
    assert_eq!(buffer.text(), copy);
    assert_eq!(buffer.data.len(), 40);
    assert_eq!(buffer.logical_cursor(), 36);
}

#[test]
fn paste_without_a_copy_changes_nothing() {
    let mut buffer = buffer_at("abc", 1);
    buffer.paste_from_clipboard();
    assert_eq!(buffer.text(), cells("abc"));
    assert_eq!(buffer.logical_cursor(), 1);
    assert!(!buffer.modified);
}

#[test]
fn paste_of_an_empty_copy_changes_nothing() {
    let mut buffer = buffer_at("abc", 1);
    buffer.clipboard = Some(Vec::new());
    buffer.paste_from_clipboard();
    assert_eq!(buffer.text(), cells("abc"));
    assert!(!buffer.modified);
}

#[test]
fn delete_selection_behind_the_mark() {
    let mut buffer = buffer_at("hello world", 5);
    buffer.toggle_selection();
    buffer.go_to_end();
    buffer.delete_selection();
    assert_eq!(buffer.text(), cells("hello"));
    assert_eq!(buffer.logical_cursor(), 5);
    assert_eq!(buffer.mark, None);
    assert!(buffer.modified);
}

#[test]
fn delete_selection_before_the_mark() {
    let mut buffer = buffer_at("hello world", 5);
    buffer.toggle_selection();
    buffer.go_to_start();
    buffer.delete_selection();
    assert_eq!(buffer.text(), cells(" world"));
    assert_eq!(buffer.logical_cursor(), 0);
    assert_eq!(buffer.mark, None);
}

#[test]
fn delete_selection_over_lines() {
    let mut buffer = buffer_at("ab\ncdef\ngh", 4);
    buffer.toggle_selection();
    assert_eq!(buffer.mark, Some((2, 2)));
    move_to(&mut buffer, 9);
    buffer.delete_selection();
    assert_eq!(buffer.text(), cells("ab\nch"));
    assert_eq!(buffer.logical_cursor(), 4);
}

#[test]
fn delete_selection_of_nothing_only_clears_the_mark() {
    let mut buffer = buffer_at("abc", 2);
    buffer.toggle_selection();
    buffer.delete_selection();
    assert_eq!(buffer.text(), cells("abc"));
    assert_eq!(buffer.mark, None);
    assert!(!buffer.modified);
}

#[test]
fn delete_selection_without_a_selection_changes_nothing() {
    let mut buffer = buffer_at("abc", 2);
    buffer.delete_selection();
    assert_eq!(buffer.text(), cells("abc"));
    assert_eq!(buffer.logical_cursor(), 2);
    assert!(!buffer.modified);
}

#[test]
fn copy_delete_and_paste_bring_the_text_back() {
    let mut buffer = buffer_at("hello world", 6);
    buffer.toggle_selection();
    buffer.go_to_end();
    buffer.copy_to_clipboard();
    assert_eq!(buffer.clipboard, Some(cells("world")));
    buffer.toggle_selection();
    move_to(&mut buffer, 6);
    buffer.delete_selection();
    assert_eq!(buffer.text(), cells("hello "));
    buffer.go_to_start();
    buffer.paste_from_clipboard();
    assert_eq!(buffer.text(), cells("worldhello "));
    assert_eq!(buffer.text()[0..5].to_vec(), cells("world"));
    assert_eq!(buffer.logical_cursor(), 5);
}

#[test]
fn copy_delete_and_paste_over_lines() {
    let mut buffer = buffer_at("one\ntwo\nthree", 5);
    buffer.toggle_selection();
    move_to(&mut buffer, 10);
    buffer.copy_to_clipboard();
    assert_eq!(buffer.clipboard, Some(cells("wo\nth")));
    buffer.toggle_selection();
    move_to(&mut buffer, 5);
    buffer.delete_selection();
    assert_eq!(buffer.text(), cells("one\ntree"));
    buffer.go_to_end();
    buffer.paste_from_clipboard();
    assert_eq!(buffer.text(), cells("one\ntreewo\nth"));
}
