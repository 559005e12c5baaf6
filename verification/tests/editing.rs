use gap_editor::buffer::{Buffer, Direction, TextObject, GROWTH_INCREMENT};

fn cells(text: &str) -> Vec<char> {
    text.chars().collect()
}

fn buffer_with(text: &str) -> Buffer {
    let mut buffer = Buffer::new(None);
    for c in text.chars() {
        buffer.insert(c);
    }
    buffer
}

fn cursor_outside_gap(buffer: &Buffer) -> bool {
    buffer.cursor_offset <= buffer.gap_start
        || buffer.cursor_offset >= buffer.gap_start + buffer.gap_len
}

#[test]
fn new_buffer_is_empty_with_an_open_gap() {
    let buffer = Buffer::new(None);
    assert_eq!(buffer.text(), cells(""));
    assert_eq!(buffer.data.len(), GROWTH_INCREMENT);
    assert_eq!(buffer.gap_start, 0);
    assert_eq!(buffer.gap_len, GROWTH_INCREMENT);
    assert_eq!(buffer.cursor_offset, 0);
    assert!(!buffer.modified);
    assert_eq!(buffer.mark, None);
    assert_eq!(buffer.clipboard, None);
    assert_eq!(buffer.path, None);
}

#[test]
fn new_buffer_from_bytes_has_no_gap() {
    let buffer = Buffer::new(Some(vec![b'h', b'i', b'\n', 0xe9]));
    assert_eq!(buffer.text(), vec!['h', 'i', '\n', '\u{e9}']);
    assert_eq!(buffer.data.len(), 4);
    assert_eq!(buffer.gap_start, 0);
    assert_eq!(buffer.gap_len, 0);
    assert_eq!(buffer.cursor_offset, 0);
    assert!(!buffer.modified);
}

#[test]
fn new_buffer_from_no_bytes_at_all_has_no_storage() {
    let mut buffer = Buffer::new(Some(Vec::new()));
    assert_eq!(buffer.data.len(), 0);
    assert_eq!(buffer.text(), cells(""));
    buffer.insert('x');
    assert_eq!(buffer.text(), cells("x"));
    assert_eq!(buffer.data.len(), GROWTH_INCREMENT);
}

#[test]
fn inserted_cells_come_back_in_order() {
    let buffer = buffer_with("hello, world");
    assert_eq!(buffer.text(), cells("hello, world"));
    assert_eq!(buffer.logical_cursor(), 12);
    assert!(buffer.modified);
}

#[test]
fn insert_fills_the_gap_from_its_start() {
    let mut buffer = Buffer::new(None);
    buffer.insert('a');
    assert_eq!(buffer.gap_start, 1);
    assert_eq!(buffer.cursor_offset, 1);
    assert_eq!(buffer.gap_len, GROWTH_INCREMENT - 1);
    assert_eq!(buffer.data[0], 'a');
}

#[test]
fn insert_in_the_middle_keeps_both_sides() {
    let mut buffer = buffer_with("held");
    buffer.go(TextObject::Char, Direction::Left);
    buffer.insert('l');
    buffer.insert('o');
    assert_eq!(buffer.text(), cells("hellod"));
    assert_eq!(buffer.logical_cursor(), 5);
}

#[test]
fn insert_into_a_full_buffer_grows_it_once() {
    let mut buffer = buffer_with("0123456789");
    assert_eq!(buffer.gap_len, 0);
    assert_eq!(buffer.data.len(), GROWTH_INCREMENT);
    buffer.insert('a');
    assert_eq!(buffer.data.len(), 2 * GROWTH_INCREMENT);
    assert_eq!(buffer.gap_len, GROWTH_INCREMENT - 1);
    assert_eq!(buffer.text(), cells("0123456789a"));
}

#[test]
fn growth_keeps_every_cell_and_the_cursor_out_of_the_gap() {
    let inserted: Vec<char> = "abcdefghijk".chars().collect();
    let mut buffer = Buffer::new(None);
    let capacity = buffer.data.len();
    assert_eq!(inserted.len(), capacity + 1);
    for (i, c) in inserted.iter().enumerate() {
        buffer.insert(*c);
        assert!(cursor_outside_gap(&buffer));
        assert!(!buffer.in_gap(buffer.cursor_offset));
        assert!(buffer.gap_start + buffer.gap_len <= buffer.data.len());
        assert_eq!(buffer.text(), inserted[..i + 1].to_vec());
    }
    assert_eq!(buffer.text(), inserted);
    assert_eq!(buffer.data.len(), capacity + GROWTH_INCREMENT);
}

#[test]
fn growth_in_the_middle_moves_the_text_behind_the_cursor() {
    let mut buffer = Buffer::new(Some(vec![b'a', b'b', b'c', b'd']));
    buffer.go(TextObject::Char, Direction::Right);
    buffer.go(TextObject::Char, Direction::Right);
    buffer.insert('X');
    assert_eq!(buffer.text(), cells("abXcd"));
    assert_eq!(buffer.data.len(), 4 + GROWTH_INCREMENT);
    assert_eq!(buffer.gap_start, 3);
    assert_eq!(buffer.gap_len, GROWTH_INCREMENT - 1);
    assert_eq!(buffer.data[12], 'c');
    assert_eq!(buffer.data[13], 'd');
}

#[test]
fn many_insertions_grow_the_buffer_again_and_again() {
    let mut buffer = Buffer::new(None);
    let mut expected: Vec<char> = Vec::new();
    for i in 0..95u32 {
        let c = char::from_u32('a' as u32 + i % 26).unwrap();
        buffer.insert(c);
        expected.push(c);
    }
    assert_eq!(buffer.text(), expected);
    assert_eq!(buffer.data.len(), 100);
    assert_eq!(buffer.gap_len, 5);
}

#[test]
fn grow_opens_a_gap_at_the_cursor() {
    let mut buffer = Buffer::new(Some(vec![b'a', b'b', b'c']));
    buffer.go(TextObject::Char, Direction::Right);
    assert!(buffer.is_aligned());
    assert_eq!(buffer.gap_len, 0);
    buffer.grow();
    assert_eq!(buffer.data.len(), 3 + GROWTH_INCREMENT);
    assert_eq!(buffer.gap_start, 1);
    assert_eq!(buffer.cursor_offset, 1);
    assert_eq!(buffer.gap_len, GROWTH_INCREMENT);
    assert_eq!(buffer.text(), cells("abc"));
    assert!(!buffer.modified);
}

#[test]
fn delete_backward_takes_the_cell_before_the_cursor() {
    let mut buffer = buffer_with("abc");
    buffer.delete_backward();
    assert_eq!(buffer.text(), cells("ab"));
    assert_eq!(buffer.logical_cursor(), 2);
}

#[test]
fn delete_backward_at_the_start_changes_nothing() {
    let mut buffer = Buffer::new(Some(vec![b'a', b'b']));
    buffer.delete_backward();
    assert_eq!(buffer.text(), cells("ab"));
    assert_eq!(buffer.logical_cursor(), 0);
    assert!(!buffer.modified);
}

#[test]
fn delete_forward_takes_the_cell_behind_the_cursor() {
    let mut buffer = Buffer::new(Some(vec![b'a', b'b', b'c']));
    buffer.go(TextObject::Char, Direction::Right);
    buffer.delete_forward();
    assert_eq!(buffer.text(), cells("ac"));
    assert_eq!(buffer.logical_cursor(), 1);
    assert!(buffer.modified);
    assert_eq!(buffer.gap_len, 1);
}

#[test]
fn delete_forward_at_the_end_changes_nothing() {
    let mut buffer = Buffer::new(Some(vec![b'a', b'b']));
    buffer.go_to_end();
    buffer.delete_forward();
    assert_eq!(buffer.text(), cells("ab"));
    assert_eq!(buffer.logical_cursor(), 2);
    assert!(!buffer.modified);
}

#[test]
fn delete_char_left_and_right() {
    let mut buffer = buffer_with("abcd");
    buffer.go(TextObject::Char, Direction::Left);
    buffer.go(TextObject::Char, Direction::Left);
    buffer.delete(TextObject::Char, Direction::Left);
    assert_eq!(buffer.text(), cells("acd"));
    assert_eq!(buffer.logical_cursor(), 1);
    buffer.delete(TextObject::Char, Direction::Right);
    assert_eq!(buffer.text(), cells("ad"));
    assert_eq!(buffer.logical_cursor(), 1);
}

#[test]
fn delete_at_the_ends_is_no_deletion() {
    let mut buffer = Buffer::new(Some(vec![b'a', b'b']));
    buffer.delete(TextObject::Char, Direction::Left);
    assert_eq!(buffer.text(), cells("ab"));
    assert!(!buffer.modified);
    buffer.go_to_end();
    buffer.delete(TextObject::Char, Direction::Right);
    assert_eq!(buffer.text(), cells("ab"));
    assert!(!buffer.modified);
}

#[test]
fn delete_with_no_direction_of_its_own_is_no_deletion() {
    let mut buffer = Buffer::new(Some(vec![b'a', b'b']));
    buffer.go(TextObject::Char, Direction::Right);
    buffer.delete(TextObject::Char, Direction::Up);
    buffer.delete(TextObject::Word, Direction::Down);
    assert_eq!(buffer.text(), cells("ab"));
    assert_eq!(buffer.logical_cursor(), 1);
    assert!(!buffer.modified);
}

#[test]
fn delete_word_left_and_right() {
    let mut buffer = buffer_with("foo bar baz");
    buffer.delete(TextObject::Word, Direction::Left);
    assert_eq!(buffer.text(), cells("foo bar "));
    assert_eq!(buffer.logical_cursor(), 8);
    buffer.go_to_start();
    buffer.delete(TextObject::Word, Direction::Right);
    assert_eq!(buffer.text(), cells(" bar "));
    assert_eq!(buffer.logical_cursor(), 0);
    buffer.delete(TextObject::Word, Direction::Right);
    assert_eq!(buffer.text(), cells(" "));
}

#[test]
fn delete_line_right_keeps_the_line_end() {
    let mut buffer = buffer_with("abc\ndef");
    buffer.go_to_start();
    buffer.go(TextObject::Char, Direction::Right);
    buffer.delete(TextObject::Line, Direction::Right);
    assert_eq!(buffer.text(), cells("a\ndef"));
    assert_eq!(buffer.logical_cursor(), 1);
    buffer.delete(TextObject::Line, Direction::Right);
    assert_eq!(buffer.text(), cells("a\ndef"));
}

#[test]
fn delete_line_left_takes_the_start_of_the_line() {
    let mut buffer = buffer_with("abc\ndef");
    buffer.go(TextObject::Char, Direction::Left);
    buffer.delete(TextObject::Line, Direction::Left);
    assert_eq!(buffer.text(), cells("abc\nf"));
    assert_eq!(buffer.logical_cursor(), 4);
}

#[test]
fn delete_line_down_takes_up_to_the_same_column_below() {
    let mut buffer = buffer_with("abc\ndef");
    buffer.go_to_start();
    buffer.go(TextObject::Char, Direction::Right);
    buffer.delete(TextObject::Line, Direction::Down);
    assert_eq!(buffer.text(), cells("aef"));
    assert_eq!(buffer.logical_cursor(), 1);
}

#[test]
fn deletion_widens_the_gap() {
    let mut buffer = buffer_with("abcdef");
    assert_eq!(buffer.gap_len, 4);
    buffer.delete(TextObject::Line, Direction::Left);
    assert_eq!(buffer.text(), cells(""));
    assert_eq!(buffer.gap_len, GROWTH_INCREMENT);
    assert_eq!(buffer.gap_start, 0);
    assert_eq!(buffer.cursor_offset, 0);
    assert_eq!(buffer.data.len(), GROWTH_INCREMENT);
}

#[test]
fn clear_empties_the_buffer_and_marks_it_changed() {
    let mut buffer = Buffer::new(Some(vec![b'a'; 25]));
    buffer.path = Some(String::from("notes.txt"));
    buffer.go_to_end();
    buffer.toggle_selection();
    buffer.clear();
    assert_eq!(buffer.text(), cells(""));
    assert_eq!(buffer.data.len(), GROWTH_INCREMENT);
    assert_eq!(buffer.gap_start, 0);
    assert_eq!(buffer.gap_len, GROWTH_INCREMENT);
    assert_eq!(buffer.cursor_offset, 0);
    assert!(buffer.modified);
    assert_eq!(buffer.path, Some(String::from("notes.txt")));
    assert_eq!(buffer.mark, Some((1, 26)));
}

#[test]
fn text_len_counts_the_text_alone() {
    let buffer = buffer_with("abc");
    assert_eq!(buffer.text_len(), 3);
    assert_eq!(buffer.data.len(), GROWTH_INCREMENT);
}

#[test]
fn a_small_buffer_has_room_for_more() {
    let buffer = buffer_with("0123456789");
    assert_eq!(buffer.gap_len, 0);
    assert!(buffer.has_room_for(0));
    assert!(buffer.has_room_for(1));
    assert!(buffer.has_room_for(1000));
    assert!(buffer.has_room_for(gap_editor::buffer::MAX_CAPACITY - 19));
}

#[test]
fn no_buffer_has_room_beyond_the_largest_storage() {
    let full = buffer_with("0123456789");
    assert!(!full.has_room_for(gap_editor::buffer::MAX_CAPACITY));
    assert!(!full.has_room_for(usize::MAX));
    let empty = Buffer::new(None);
    assert!(empty.has_room_for(10));
    assert!(!empty.has_room_for(usize::MAX));
}

#[test]
fn room_is_counted_in_whole_growths() {
    let max = gap_editor::buffer::MAX_CAPACITY;
    let growths = (max - 10) / 10;
    let empty = Buffer::new(None);
    assert!(empty.has_room_for(10 + 10 * growths));
    assert!(!empty.has_room_for(10 + 10 * growths + 1));
    let mut three = buffer_with("abc");
    assert_eq!(three.gap_len, 7);
    assert!(three.has_room_for(7 + 10 * growths));
    assert!(!three.has_room_for(7 + 10 * growths + 1));
    three.go_to_start();
    assert!(three.has_room_for(7 + 10 * growths));
}
