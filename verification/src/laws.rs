//! What holds of every buffer, whatever was done to it.
//!
//! Each law is stated over [`BufferView`], in which the operations of a
//! [`Buffer`] are functions from one view to the next, over the fields of a
//! well-formed buffer, or over a text and the offset of a cursor in it.

use vstd::prelude::*;
use crate::buffer::{position_before, Buffer, BufferView};
use crate::navigation::{
    is_word_boundary, lemma_run_end, lemma_run_start, object_offset, run_end, run_start,
    Direction, TextObject,
};
use crate::text::{
    lemma_first_line, lemma_line_end, lemma_line_end_unique, lemma_line_of_offset,
    lemma_line_start, lemma_line_start_unique, lemma_newlines_before_same,
    lemma_offset_of_bounds, lemma_offset_of_position_at, line_end, line_start, line_text,
    line_total, newlines_before, position_at, NEWLINE,
};

verus! {

/// Cells that are inserted one after another stand in the text in the order
/// in which they came, between what was before the cursor and what was behind
/// it, and the cursor follows the last of them.
pub proof fn lemma_insert_all(view: BufferView, cells: Seq<char>)
    requires
        view.wf(),
    ensures
        view.insert_all(cells).wf(),
        view.insert_all(cells).text == view.text.subrange(0, view.cursor) + cells
            + view.text.subrange(view.cursor, view.text.len() as int),
        view.insert_all(cells).cursor == view.cursor + cells.len(),
    decreases cells.len(),
{
    if cells.len() > 0 {
        lemma_insert_all(view, cells.drop_last());
    }
}

/// The text of a buffer that was empty and into which cells were inserted one
/// after another is the sequence of those cells.
pub proof fn lemma_insert_round_trip(cells: Seq<char>)
    ensures
        BufferView::empty().insert_all(cells).text == cells,
        BufferView::empty().insert_all(cells).cursor == cells.len(),
{
    lemma_insert_all(BufferView::empty(), cells);
}

/// To paste is to insert the cells of the copied text one after another.
pub proof fn lemma_paste_is_insert_all(view: BufferView)
    requires
        view.wf(),
        view.clipboard is Some,
    ensures
        view.paste_from_clipboard() == view.insert_all(view.clipboard->0),
{
    let copied = view.clipboard->0;
    lemma_insert_all(view, copied);
    lemma_insert_all_keeps(view, copied);
}

/// Inserting cells changes neither the selection, nor what was copied, nor the
/// path; and the buffer counts as changed once a cell was inserted.
pub proof fn lemma_insert_all_keeps(view: BufferView, cells: Seq<char>)
    ensures
        view.insert_all(cells).mark == view.mark,
        view.insert_all(cells).clipboard == view.clipboard,
        view.insert_all(cells).path == view.path,
        view.insert_all(cells).modified == (view.modified || cells.len() > 0),
    decreases cells.len(),
{
    if cells.len() > 0 {
        lemma_insert_all_keeps(view, cells.drop_last());
    }
}

/// In a well-formed buffer the cursor does not lie inside the gap: it is at the
/// start of the gap or before it, or at the end of the gap or behind it. Where
/// the gap begins at the cursor, the cursor follows no cell of the gap.
pub proof fn lemma_cursor_outside_gap(buffer: Buffer)
    requires
        buffer.wf(),
    ensures
        !(buffer.gap_start < buffer.cursor_offset < buffer.gap_start + buffer.gap_len),
        buffer.aligned() ==> !buffer.in_gap_spec(buffer.cursor_offset as int),
{
}

/// Bringing the gap to the cursor twice gives what bringing it there once
/// gives.
pub proof fn lemma_align_idempotent(before: Buffer, once: Buffer, twice: Buffer)
    requires
        before.wf(),
        once.aligns(before),
        twice.aligns(once),
    ensures
        twice == once,
{
}

/// Whatever is done to a buffer, its cursor stays within its text.
pub proof fn lemma_cursor_stays_in_text(
    view: BufferView,
    c: char,
    object: TextObject,
    direction: Direction,
    offset: int,
)
    requires
        view.wf(),
    ensures
        view.insert(c).wf(),
        view.delete_forward().wf(),
        view.delete_backward().wf(),
        view.go(object, direction).wf(),
        view.delete(object, direction).wf(),
        view.move_to(offset).wf(),
        view.toggle_selection().wf(),
        view.copy_to_clipboard().wf(),
        view.paste_from_clipboard().wf(),
        view.delete_selection().wf(),
        view.clear().wf(),
{
    if view.mark is Some {
        lemma_offset_of_bounds(view.text, view.mark->0);
    }
}

/// A move by a character to the left at the start of the text, and one to the
/// right at its end, leave the buffer as it is; so does a deletion there.
pub proof fn lemma_char_at_boundary(view: BufferView)
    requires
        view.wf(),
    ensures
        view.cursor == 0 ==> view.go(TextObject::Char, Direction::Left) == view,
        view.cursor == 0 ==> view.delete(TextObject::Char, Direction::Left) == view,
        view.cursor == view.text.len() ==> view.go(TextObject::Char, Direction::Right) == view,
        view.cursor == view.text.len() ==> view.delete(TextObject::Char, Direction::Right)
            == view,
{
}

/// A move changes the cursor alone, and leaves it within the text.
pub proof fn lemma_go_keeps_text(view: BufferView, object: TextObject, direction: Direction)
    requires
        view.wf(),
    ensures
        view.go(object, direction).wf(),
        view.go(object, direction) == (BufferView {
            cursor: view.go(object, direction).cursor,
            ..view
        }),
{
}

/// The two ends of a selection are the mark and the position of the cursor,
/// and the second does not come before the first.
pub proof fn lemma_selection_ordered(view: BufferView)
    requires
        view.mark is Some,
    ensures
        view.selection() matches Some((first, second)) && !position_before(second, first) && ((
        first == view.mark->0 && second == view.cursor_position()) || (first
            == view.cursor_position() && second == view.mark->0)),
{
}

/// The text that was selected and copied comes back when it is pasted.
///
/// In a buffer without a selection, a selection is begun at the cursor, the
/// cursor is moved to `other`, and the selection is copied. What was copied is
/// the text between the two offsets, provided that it does not begin with a
/// line end. The same text is then selected from its other end and deleted,
/// the cursor is moved to `target`, and what was copied is pasted: it then
/// stands at `target`, between the parts of what the deletion left.
pub proof fn lemma_copy_paste_fidelity(view: BufferView, other: int, target: int)
    requires
        view.wf(),
        view.mark is None,
        0 <= other <= view.text.len(),
        view.cursor != other ==> view.text[if view.cursor < other {
            view.cursor
        } else {
            other
        }] != NEWLINE,
        0 <= target <= view.text.len() - if view.cursor < other {
            other - view.cursor
        } else {
            view.cursor - other
        },
    ensures
        ({
            let from = if view.cursor < other {
                view.cursor
            } else {
                other
            };
            let to = if view.cursor < other {
                other
            } else {
                view.cursor
            };
            let span = view.text.subrange(from, to);
            let copied = view.toggle_selection().move_to(other).copy_to_clipboard();
            let removed = copied.toggle_selection().move_to(view.cursor).delete_selection();
            let pasted = removed.move_to(target).paste_from_clipboard();
            &&& copied.clipboard == Some(span)
            &&& copied.text == view.text
            &&& removed.text == view.text.subrange(0, from) + view.text.subrange(
                to,
                view.text.len() as int,
            )
            &&& pasted.text == removed.text.subrange(0, target) + span + removed.text.subrange(
                target,
                removed.text.len() as int,
            )
            &&& pasted.text.subrange(target, target + span.len()) == span
            &&& pasted.cursor == target + span.len()
        }),
{
    lemma_offset_of_position_at(view.text, view.cursor);
    lemma_offset_of_position_at(view.text, other);
}

/// The text of a well-formed buffer is as long as the storage less the gap,
/// and its cursor lies within the text.
pub proof fn lemma_text_len(buffer: Buffer)
    requires
        buffer.wf(),
    ensures
        buffer@.text.len() == buffer.capacity() - buffer.gap_len,
        buffer@.wf(),
{
}

/// Each cell of the text is a cell of the storage: the cell at the same
/// offset before the gap, and the cell further on by the size of the gap
/// behind it.
pub proof fn lemma_cell_of_text(buffer: Buffer, logical: int)
    requires
        buffer.wf(),
        0 <= logical < buffer@.text.len(),
    ensures
        logical < buffer.gap_start ==> buffer@.text[logical] == buffer.data@[logical],
        logical >= buffer.gap_start ==> buffer@.text[logical] == buffer.data@[logical
            + buffer.gap_len],
{
}

/// A logical offset that is turned into a physical one and back is what it
/// was. A physical offset outside the gap that is turned into a logical one
/// and back is what it was, but for the end of the gap, which becomes its
/// start.
pub proof fn lemma_logical_physical(buffer: Buffer, offset: int)
    requires
        buffer.wf(),
    ensures
        0 <= offset ==> buffer.logical_of(buffer.physical_of(offset)) == offset,
        offset <= buffer.gap_start || offset > buffer.gap_end() ==> buffer.physical_of(
            buffer.logical_of(offset),
        ) == offset,
        offset == buffer.gap_end() ==> buffer.physical_of(buffer.logical_of(offset))
            == buffer.gap_start,
{
}

/// A move to the start of the line goes back by the column less one, and a
/// move to the end of the line goes on by the length of the line and one,
/// less the column.
pub proof fn lemma_line_left_right(text: Seq<char>, cursor: int)
    requires
        0 <= cursor <= text.len(),
    ensures
        ({
            let (line, column) = position_at(text, cursor);
            &&& object_offset(text, cursor, TextObject::Line, Direction::Left) == -(column - 1)
            &&& object_offset(text, cursor, TextObject::Line, Direction::Right) == line_text(
                text,
                line,
            ).len() + 1 - column
        }),
{
    lemma_line_of_offset(text, cursor);
    lemma_line_start(text, cursor);
    lemma_line_end(text, cursor);
}

/// A move to the line above stays where it is on the first line. On any other
/// line it ends on the line before, in the same column, or behind the last
/// cell of that line where the line is shorter.
pub proof fn lemma_line_up(text: Seq<char>, cursor: int)
    requires
        0 <= cursor <= text.len(),
    ensures
        ({
            let (line, column) = position_at(text, cursor);
            let target = cursor + object_offset(text, cursor, TextObject::Line, Direction::Up);
            let above = line_text(text, line - 1).len() as int;
            if line == 1 {
                target == cursor
            } else {
                position_at(text, target) == (
                    line - 1,
                    if column <= above + 1 {
                        column
                    } else {
                        above + 1
                    },
                )
            }
        }),
{
    lemma_first_line(text, cursor);
    lemma_line_start(text, cursor);
    let start = line_start(text, cursor);
    if start > 0 {
        let above_start = line_start(text, start - 1);
        lemma_line_start(text, start - 1);
        let target = cursor + object_offset(text, cursor, TextObject::Line, Direction::Up);
        lemma_line_start_unique(text, target, above_start);
        lemma_newlines_before_same(text, target, start - 1);
        lemma_newlines_before_same(text, start, cursor);
        lemma_line_end_unique(text, target, start - 1);
        lemma_line_of_offset(text, target);
    }
}

/// A move to the line below stays where it is on the last line. On any other
/// line it ends on the line after, in the same column, or behind the last
/// cell of that line where the line is shorter.
pub proof fn lemma_line_down(text: Seq<char>, cursor: int)
    requires
        0 <= cursor <= text.len(),
    ensures
        ({
            let (line, column) = position_at(text, cursor);
            let target = cursor + object_offset(text, cursor, TextObject::Line, Direction::Down);
            let below = line_text(text, line + 1).len() as int;
            if line == line_total(text) {
                target == cursor
            } else {
                position_at(text, target) == (
                    line + 1,
                    if column <= below + 1 {
                        column
                    } else {
                        below + 1
                    },
                )
            }
        }),
{
    lemma_line_start(text, cursor);
    lemma_line_end(text, cursor);
    let end = line_end(text, cursor);
    if end >= text.len() {
        lemma_newlines_before_same(text, cursor, text.len() as int);
    } else {
        lemma_newlines_before_same(text, cursor, end);
        lemma_newlines_before_last(text, end + 1);
        let below_start = end + 1;
        lemma_line_end(text, below_start);
        let target = cursor + object_offset(text, cursor, TextObject::Line, Direction::Down);
        lemma_line_start_unique(text, target, below_start);
        lemma_newlines_before_same(text, below_start, target);
        lemma_line_end_unique(text, target, line_end(text, below_start));
        lemma_line_of_offset(text, target);
    }
}

/// No more line ends lie before an offset than in the whole text.
proof fn lemma_newlines_before_last(text: Seq<char>, offset: int)
    requires
        0 <= offset <= text.len(),
    ensures
        newlines_before(text, offset) <= newlines_before(text, text.len() as int),
    decreases text.len() - offset,
{
    if offset < text.len() {
        lemma_newlines_before_last(text, offset + 1);
    }
}

/// A move by a word to the right passes the separators at the cursor, if
/// any, and then the cells of one word, if any. It ends at the end of the text
/// or before a separator.
pub proof fn lemma_word_right(text: Seq<char>, cursor: int)
    requires
        0 <= cursor <= text.len(),
    ensures
        ({
            let word = run_end(text, cursor, true);
            let target = cursor + object_offset(text, cursor, TextObject::Word, Direction::Right);
            &&& cursor <= word <= target <= text.len()
            &&& forall|j: int| cursor <= j < word ==> is_word_boundary(#[trigger] text[j])
            &&& forall|j: int| word <= j < target ==> !is_word_boundary(#[trigger] text[j])
            &&& target == text.len() || is_word_boundary(text[target])
        }),
{
    lemma_run_end(text, cursor, true);
    lemma_run_end(text, run_end(text, cursor, true), false);
}

/// A move by a word to the left passes the separators before the cursor, if
/// any, and then the cells of one word, if any. It ends at the start of the
/// text or behind a separator.
pub proof fn lemma_word_left(text: Seq<char>, cursor: int)
    requires
        0 <= cursor <= text.len(),
    ensures
        ({
            let word = run_start(text, cursor, true);
            let target = cursor + object_offset(text, cursor, TextObject::Word, Direction::Left);
            &&& 0 <= target <= word <= cursor
            &&& forall|j: int| word <= j < cursor ==> is_word_boundary(#[trigger] text[j])
            &&& forall|j: int| target <= j < word ==> !is_word_boundary(#[trigger] text[j])
            &&& target == 0 || is_word_boundary(text[target - 1])
        }),
{
    lemma_run_start(text, cursor, true);
    lemma_run_start(text, run_start(text, cursor, true), false);
}

} // verus!
