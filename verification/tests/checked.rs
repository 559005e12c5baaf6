use gap_editor::buffer::{Buffer, Direction, InvariantViolation, TextObject, MAX_CAPACITY};

fn cells(text: &str) -> Vec<char> {
    text.chars().collect()
}

fn buffer_with(text: &str) -> Buffer {
    let mut buffer = Buffer::new(None);
    for c in text.chars() {
        buffer.insert(c);
    }
    buffer
}

#[test]
fn validate_accepts_what_the_library_made() {
    let mut buffer = buffer_with("abc");
    assert_eq!(buffer.validate(), Ok(()));
    buffer.go(TextObject::Char, Direction::Left);
    assert_eq!(buffer.validate(), Ok(()));
    buffer.cursor_offset = 10;
    assert_eq!(buffer.validate(), Ok(()));
    assert_eq!(Buffer::new(Some(Vec::new())).validate(), Ok(()));
}

#[test]
fn validate_finds_a_cursor_inside_the_gap() {
    let mut buffer = buffer_with("abc");
    buffer.cursor_offset = 4;
    assert_eq!(buffer.validate(), Err(InvariantViolation::CursorInGap));
    buffer.cursor_offset = 9;
    assert_eq!(buffer.validate(), Err(InvariantViolation::CursorInGap));
}

#[test]
fn validate_finds_a_cursor_beyond_the_storage() {
    let mut buffer = buffer_with("abc");
    buffer.cursor_offset = 11;
    assert_eq!(buffer.validate(), Err(InvariantViolation::CursorOutOfBounds));
}

#[test]
fn validate_finds_a_gap_beyond_the_storage() {
    let mut buffer = buffer_with("abc");
    buffer.gap_len = 8;
    assert_eq!(buffer.validate(), Err(InvariantViolation::GapOutOfBounds));
    buffer.gap_len = 0;
    buffer.gap_start = 11;
    assert_eq!(buffer.validate(), Err(InvariantViolation::GapOutOfBounds));
    buffer.gap_start = 3;
    buffer.gap_len = usize::MAX;
    assert_eq!(buffer.validate(), Err(InvariantViolation::GapOutOfBounds));
}

#[test]
fn validate_names_the_gap_before_the_cursor() {
    let mut buffer = buffer_with("abc");
    buffer.gap_len = 8;
    buffer.cursor_offset = 11;
    assert_eq!(buffer.validate(), Err(InvariantViolation::GapOutOfBounds));
}

#[test]
fn the_largest_storage_is_as_large_as_an_offset_may_be() {
    assert_eq!(MAX_CAPACITY, i32::MAX as usize);
}

#[test]
fn checked_cursor_position_of_an_aligned_buffer() {
    let buffer = buffer_with("ab\ncd");
    assert_eq!(buffer.checked_cursor_position(), Ok((2, 3)));
    assert_eq!(buffer.checked_cursor_position(), Ok(buffer.cursor_position()));
}

#[test]
fn checked_cursor_position_refuses_a_gap_elsewhere() {
    let mut buffer = buffer_with("ab\ncd");
    buffer.cursor_offset = 1;
    assert_eq!(
        buffer.checked_cursor_position(),
        Err(InvariantViolation::GapMisaligned)
    );
    buffer.cursor_offset = 10;
    assert_eq!(
        buffer.checked_cursor_position(),
        Err(InvariantViolation::GapMisaligned)
    );
    buffer.align_gap();
    assert_eq!(buffer.checked_cursor_position(), Ok((2, 3)));
}

#[test]
fn checked_cursor_position_refuses_a_buffer_in_disorder() {
    let mut buffer = buffer_with("ab\ncd");
    buffer.cursor_offset = 7;
    assert_eq!(
        buffer.checked_cursor_position(),
        Err(InvariantViolation::CursorInGap)
    );
}

#[test]
fn checked_grow_widens_a_full_aligned_buffer() {
    let mut buffer = Buffer::new(Some(vec![b'a', b'b', b'c']));
    buffer.go(TextObject::Char, Direction::Right);
    assert_eq!(buffer.checked_grow(), Ok(()));
    assert_eq!(buffer.data.len(), 13);
    assert_eq!(buffer.gap_start, 1);
    assert_eq!(buffer.gap_len, 10);
    assert_eq!(buffer.text(), cells("abc"));
}

#[test]
fn checked_grow_refuses_a_gap_that_is_not_used_up() {
    let mut buffer = buffer_with("abc");
    let before = (buffer.data.clone(), buffer.gap_start, buffer.gap_len);
    assert_eq!(buffer.checked_grow(), Err(InvariantViolation::GapNotExhausted));
    assert_eq!((buffer.data.clone(), buffer.gap_start, buffer.gap_len), before);
}

#[test]
fn checked_grow_refuses_a_gap_elsewhere() {
    let mut buffer = Buffer::new(Some(vec![b'a', b'b', b'c']));
    buffer.cursor_offset = 2;
    assert_eq!(buffer.checked_grow(), Err(InvariantViolation::GapMisaligned));
    assert_eq!(buffer.data.len(), 3);
}

#[test]
fn checked_grow_refuses_a_buffer_in_disorder() {
    let mut buffer = Buffer::new(Some(vec![b'a', b'b', b'c']));
    buffer.cursor_offset = 4;
    assert_eq!(buffer.checked_grow(), Err(InvariantViolation::CursorOutOfBounds));
    assert_eq!(buffer.data.len(), 3);
}
