//! Text objects and the distance that each one spans from the cursor.
//!
//! A move or a deletion names a text object (a character, a word or a line)
//! and a direction. Its *offset* is the signed number of cells between the
//! cursor and the place that the object and the direction lead to: negative
//! towards the start of the text, positive towards its end.

use vstd::prelude::*;
use crate::text::{find_line_end, find_line_start, line_end, line_start};
use crate::text::{lemma_line_end, lemma_line_start};

verus! {

/// The unit that a move or a deletion works on.
#[derive(Clone, Copy, Debug, PartialEq, Eq)]
pub enum TextObject {
    Char,
    Word,
    Line,
}

/// The way in which a move or a deletion goes.
#[derive(Clone, Copy, Debug, PartialEq, Eq)]
pub enum Direction {
    Up,
    Down,
    Left,
    Right,
}

/// Whether `c` separates words: a space, a line end, or a punctuation mark of
/// ASCII.
pub open spec fn is_word_boundary(c: char) -> bool {
    c == ' ' || c == '!' || c == '"' || c == '#' || c == '$' || c == '%' || c == '&' || c == '\''
        || c == '(' || c == ')' || c == '*' || c == '+' || c == ',' || c == '-' || c == '.' || c
        == '/' || c == ':' || c == ';' || c == '<' || c == '=' || c == '>' || c == '?' || c == '@'
        || c == '[' || c == '\\' || c == ']' || c == '^' || c == '_' || c == '`' || c == '{' || c
        == '|' || c == '}' || c == '~' || c == '\n'
}

/// The end of the run of cells that starts at `from` and in which every cell
/// separates words (`boundary`) or none does (`!boundary`).
pub open spec fn run_end(text: Seq<char>, from: int, boundary: bool) -> int
    recommends
        0 <= from <= text.len(),
    decreases text.len() - from,
{
    if from >= text.len() {
        text.len() as int
    } else if from >= 0 && is_word_boundary(text[from]) != boundary {
        from
    } else {
        run_end(text, from + 1, boundary)
    }
}

/// The start of the run of cells that ends at `from` and in which every cell
/// separates words (`boundary`) or none does (`!boundary`).
pub open spec fn run_start(text: Seq<char>, from: int, boundary: bool) -> int
    recommends
        0 <= from <= text.len(),
    decreases from,
{
    if from <= 0 {
        0
    } else if is_word_boundary(text[from - 1]) != boundary {
        from
    } else {
        run_start(text, from - 1, boundary)
    }
}

/// Where a move by a word to the right ends: past the separators at the
/// cursor, then past the word that follows them.
pub open spec fn word_right(text: Seq<char>, cursor: int) -> int {
    run_end(text, run_end(text, cursor, true), false)
}

/// Where a move by a word to the left ends: before the separators at the
/// cursor, then before the word that precedes them.
pub open spec fn word_left(text: Seq<char>, cursor: int) -> int {
    run_start(text, run_start(text, cursor, true), false)
}

/// Where a move to the line above ends: in the same column of that line, or at
/// its end where the line is shorter. On the first line the cursor stays.
pub open spec fn line_up(text: Seq<char>, cursor: int) -> int {
    let start = line_start(text, cursor);
    if start <= 0 {
        cursor
    } else {
        let above_start = line_start(text, start - 1);
        let above_len = start - 1 - above_start;
        let column = cursor - start;
        above_start + if column <= above_len {
            column
        } else {
            above_len
        }
    }
}

/// Where a move to the line below ends: in the same column of that line, or at
/// its end where the line is shorter. On the last line the cursor stays.
pub open spec fn line_down(text: Seq<char>, cursor: int) -> int {
    let end = line_end(text, cursor);
    if end >= text.len() {
        cursor
    } else {
        let below_start = end + 1;
        let below_len = line_end(text, below_start) - below_start;
        let column = cursor - line_start(text, cursor);
        below_start + if column <= below_len {
            column
        } else {
            below_len
        }
    }
}

/// The signed distance from `cursor` to the place that `object` and
/// `direction` lead to.
///
/// - A character: one cell to the left or to the right.
/// - A word: to the left, to the start of the word at or before the cursor; to
///   the right, to the end of the word at or after it.
/// - A line: to the left, to the start of the line; to the right, to its end;
///   up and down, to the same column of the neighbouring line, or to its end
///   where it is shorter.
///
/// A character and a word know no up and down: their offset is 0.
pub open spec fn object_offset(
    text: Seq<char>,
    cursor: int,
    object: TextObject,
    direction: Direction,
) -> int
    recommends
        0 <= cursor <= text.len(),
{
    match object {
        TextObject::Char => match direction {
            Direction::Left => -1,
            Direction::Right => 1,
            _ => 0,
        },
        TextObject::Word => match direction {
            Direction::Left => word_left(text, cursor) - cursor,
            Direction::Right => word_right(text, cursor) - cursor,
            _ => 0,
        },
        TextObject::Line => match direction {
            Direction::Up => line_up(text, cursor) - cursor,
            Direction::Down => line_down(text, cursor) - cursor,
            Direction::Left => line_start(text, cursor) - cursor,
            Direction::Right => line_end(text, cursor) - cursor,
        },
    }
}

/// What `run_end` finds: an offset at or after the given one, up to which every
/// cell is of the run's kind, and at which the text ends or a cell of the
/// other kind stands.
pub proof fn lemma_run_end(text: Seq<char>, from: int, boundary: bool)
    requires
        0 <= from <= text.len(),
    ensures
        from <= run_end(text, from, boundary) <= text.len(),
        forall|j: int|
            from <= j < run_end(text, from, boundary) ==> is_word_boundary(text[j]) == boundary,
        run_end(text, from, boundary) == text.len() || is_word_boundary(
            text[run_end(text, from, boundary)],
        ) != boundary,
    decreases text.len() - from,
{
    if from < text.len() && is_word_boundary(text[from]) == boundary {
        lemma_run_end(text, from + 1, boundary);
    }
}

/// What `run_start` finds: an offset at or before the given one, from which
/// every cell is of the run's kind, and before which the text starts or a cell
/// of the other kind stands.
pub proof fn lemma_run_start(text: Seq<char>, from: int, boundary: bool)
    requires
        0 <= from <= text.len(),
    ensures
        0 <= run_start(text, from, boundary) <= from,
        forall|j: int|
            run_start(text, from, boundary) <= j < from ==> is_word_boundary(text[j]) == boundary,
        run_start(text, from, boundary) == 0 || is_word_boundary(
            text[run_start(text, from, boundary) - 1],
        ) != boundary,
    decreases from,
{
    if from > 0 && is_word_boundary(text[from - 1]) == boundary {
        lemma_run_start(text, from - 1, boundary);
    }
}

/// The place that an object and a direction lead to lies within the text,
/// except that a character may lead one cell beyond either end.
pub proof fn lemma_object_offset_bounds(
    text: Seq<char>,
    cursor: int,
    object: TextObject,
    direction: Direction,
)
    requires
        0 <= cursor <= text.len(),
    ensures
        -1 <= cursor + object_offset(text, cursor, object, direction) <= text.len() + 1,
        object != TextObject::Char ==> 0 <= cursor + object_offset(
            text,
            cursor,
            object,
            direction,
        ) <= text.len(),
{
    lemma_run_end(text, cursor, true);
    lemma_run_end(text, run_end(text, cursor, true), false);
    lemma_run_start(text, cursor, true);
    lemma_run_start(text, run_start(text, cursor, true), false);
    lemma_line_start(text, cursor);
    lemma_line_end(text, cursor);
    let start = line_start(text, cursor);
    if start > 0 {
        lemma_line_start(text, start - 1);
    }
    let end = line_end(text, cursor);
    if end < text.len() {
        lemma_line_end(text, end + 1);
    }
}

/// Tells whether `c` separates words.
pub fn word_boundary(c: char) -> (boundary: bool)
    ensures
        boundary == is_word_boundary(c),
{
    c == ' ' || c == '!' || c == '"' || c == '#' || c == '$' || c == '%' || c == '&' || c == '\''
        || c == '(' || c == ')' || c == '*' || c == '+' || c == ',' || c == '-' || c == '.' || c
        == '/' || c == ':' || c == ';' || c == '<' || c == '=' || c == '>' || c == '?' || c == '@'
        || c == '[' || c == '\\' || c == ']' || c == '^' || c == '_' || c == '`' || c == '{' || c
        == '|' || c == '}' || c == '~' || c == '\n'
}

/// Finds the end of the run of cells of one kind that starts at `from`.
pub fn find_run_end(text: &Vec<char>, from: usize, boundary: bool) -> (end: usize)
    requires
        from <= text.len(),
    ensures
        end == run_end(text@, from as int, boundary),
        from <= end <= text.len(),
{
    let mut end: usize = from;
    while end < text.len() && word_boundary(text[end]) == boundary
        invariant
            from <= end <= text.len(),
            run_end(text@, end as int, boundary) == run_end(text@, from as int, boundary),
        decreases text.len() - end,
    {
        end = end + 1;
    }
    end
}

/// Finds the start of the run of cells of one kind that ends at `from`.
pub fn find_run_start(text: &Vec<char>, from: usize, boundary: bool) -> (start: usize)
    requires
        from <= text.len(),
    ensures
        start == run_start(text@, from as int, boundary),
        start <= from,
{
    let mut start: usize = from;
    while start > 0 && word_boundary(text[start - 1]) == boundary
        invariant
            start <= from <= text.len(),
            run_start(text@, start as int, boundary) == run_start(text@, from as int, boundary),
        decreases start,
    {
        start = start - 1;
    }
    start
}

/// The place in `text` that `object` and `direction` lead to from `cursor`,
/// for a word or a line.
fn find_target(
    text: &Vec<char>,
    cursor: usize,
    object: TextObject,
    direction: Direction,
) -> (target: usize)
    requires
        cursor <= text.len(),
        object != TextObject::Char,
    ensures
        target == cursor + object_offset(text@, cursor as int, object, direction),
        target <= text.len(),
{
    proof {
        lemma_object_offset_bounds(text@, cursor as int, object, direction);
    }
    match object {
        TextObject::Char => cursor,
        TextObject::Word => match direction {
            Direction::Left => {
                let word_end: usize = find_run_start(text, cursor, true);
                find_run_start(text, word_end, false)
            },
            Direction::Right => {
                let word_start: usize = find_run_end(text, cursor, true);
                find_run_end(text, word_start, false)
            },
            _ => cursor,
        },
        TextObject::Line => match direction {
            Direction::Left => find_line_start(text, cursor),
            Direction::Right => find_line_end(text, cursor),
            Direction::Up => {
                let start: usize = find_line_start(text, cursor);
                if start == 0 {
                    cursor
                } else {
                    let above_start: usize = find_line_start(text, start - 1);
                    let above_len: usize = start - 1 - above_start;
                    let column: usize = cursor - start;
                    if column <= above_len {
                        above_start + column
                    } else {
                        above_start + above_len
                    }
                }
            },
            Direction::Down => {
                let end: usize = find_line_end(text, cursor);
                if end >= text.len() {
                    cursor
                } else {
                    let below_start: usize = end + 1;
                    let below_len: usize = find_line_end(text, below_start) - below_start;
                    let column: usize = cursor - find_line_start(text, cursor);
                    if column <= below_len {
                        below_start + column
                    } else {
                        below_start + below_len
                    }
                }
            },
        },
    }
}

/// The largest length of a text whose offsets all fit the signed type that
/// carries them.
pub const MAX_TEXT_LEN: usize = 0x7fff_ffff;

/// Measures the signed distance from `cursor` to the place that `object` and
/// `direction` lead to.
pub fn measure_object(
    text: &Vec<char>,
    cursor: usize,
    object: TextObject,
    direction: Direction,
) -> (offset: i32)
    requires
        cursor <= text.len() <= MAX_TEXT_LEN,
    ensures
        offset == object_offset(text@, cursor as int, object, direction),
{
    match object {
        TextObject::Char => match direction {
            Direction::Left => -1,
            Direction::Right => 1,
            _ => 0,
        },
        _ => {
            let target: usize = find_target(text, cursor, object, direction);
            if target >= cursor {
                (target - cursor) as i32
            } else {
                -((cursor - target) as i32)
            }
        },
    }
}

} // verus!
