//! What a buffer means: its text, its cursor, and what each operation makes
//! of them.
//!
//! A [`BufferView`] is a buffer without its storage. Every operation of a
//! buffer is a function from one view to the next here, and the operation
//! itself promises to do to its buffer what that function says.

use vstd::prelude::*;
use crate::navigation::{object_offset, Direction, TextObject};
use crate::text::{offset_of, position_at, NEWLINE};

verus! {

/// What a buffer means, apart from where its gap lies.
pub struct BufferView {
    /// The text.
    pub text: Seq<char>,
    /// The logical offset of the cursor.
    pub cursor: int,
    /// Whether the text was changed since it was last stored.
    pub modified: bool,
    /// The fixed end of the selection, while there is one.
    pub mark: Option<(int, int)>,
    /// The text that was copied last.
    pub clipboard: Option<Seq<char>>,
    /// Where the text is kept outside the program, if anywhere.
    pub path: Option<Seq<char>>,
}

/// The value of `value` where it lies between `low` and `high`, else the
/// nearer of the two.
pub open spec fn clamp(value: int, low: int, high: int) -> int {
    if value < low {
        low
    } else if value > high {
        high
    } else {
        value
    }
}

/// The cells that stand for `bytes`: one for each byte, with the byte's value.
pub open spec fn cells_of_bytes(bytes: Seq<u8>) -> Seq<char> {
    Seq::new(bytes.len(), |i: int| bytes[i] as char)
}

/// The text without a line end at its very start.
pub open spec fn without_leading_newline(text: Seq<char>) -> Seq<char> {
    if text.len() > 0 && text[0] == NEWLINE {
        text.subrange(1, text.len() as int)
    } else {
        text
    }
}

/// Whether position `a` comes before position `b`: on an earlier line, or on
/// the same line in an earlier column.
pub open spec fn position_before(a: (int, int), b: (int, int)) -> bool {
    a.0 < b.0 || (a.0 == b.0 && a.1 < b.1)
}

impl BufferView {
    /// The cursor lies within the text.
    pub open spec fn wf(self) -> bool {
        0 <= self.cursor <= self.text.len()
    }

    /// The buffer with no text, no selection, nothing copied and no path.
    pub open spec fn empty() -> BufferView {
        BufferView {
            text: Seq::empty(),
            cursor: 0,
            modified: false,
            mark: None,
            clipboard: None,
            path: None,
        }
    }

    /// The buffer with `c` put in at the cursor, which then follows it.
    pub open spec fn insert(self, c: char) -> BufferView {
        BufferView {
            text: self.text.insert(self.cursor, c),
            cursor: self.cursor + 1,
            modified: true,
            ..self
        }
    }

    /// The buffer after inserting the cells of `cells` one by one.
    pub open spec fn insert_all(self, cells: Seq<char>) -> BufferView
        decreases cells.len(),
    {
        if cells.len() == 0 {
            self
        } else {
            self.insert_all(cells.drop_last()).insert(cells.last())
        }
    }

    /// The buffer with the cursor at `offset`, or at the nearer end of the text
    /// where `offset` lies outside it.
    pub open spec fn move_to(self, offset: int) -> BufferView {
        BufferView { cursor: clamp(offset, 0, self.text.len() as int), ..self }
    }

    /// The buffer without the cells from `from` up to `to`, the cursor where
    /// they were.
    pub open spec fn without(self, from: int, to: int) -> BufferView {
        BufferView {
            text: self.text.subrange(0, from) + self.text.subrange(to, self.text.len() as int),
            cursor: from,
            modified: true,
            ..self
        }
    }

    /// The buffer without the cell after the cursor. At the end of the text
    /// nothing changes.
    pub open spec fn delete_forward(self) -> BufferView {
        if self.cursor >= self.text.len() {
            self
        } else {
            self.without(self.cursor, self.cursor + 1)
        }
    }

    /// The buffer without the cell before the cursor. At the start of the text
    /// nothing changes.
    pub open spec fn delete_backward(self) -> BufferView {
        if self.cursor <= 0 {
            self
        } else {
            self.without(self.cursor - 1, self.cursor)
        }
    }

    /// The distance that `object` and `direction` span from the cursor.
    pub open spec fn object_offset(self, object: TextObject, direction: Direction) -> int {
        object_offset(self.text, self.cursor, object, direction)
    }

    /// The buffer with the cursor moved by `object` in `direction`, and no
    /// further than the ends of the text.
    pub open spec fn go(self, object: TextObject, direction: Direction) -> BufferView {
        self.move_to(self.cursor + self.object_offset(object, direction))
    }

    /// The buffer without the cells between the cursor and the place that
    /// `object` and `direction` lead to, and no further than the ends of the
    /// text. Where that place is the cursor, nothing changes.
    pub open spec fn delete(self, object: TextObject, direction: Direction) -> BufferView {
        let target = clamp(
            self.cursor + self.object_offset(object, direction),
            0,
            self.text.len() as int,
        );
        if target < self.cursor {
            self.without(target, self.cursor)
        } else if target > self.cursor {
            self.without(self.cursor, target)
        } else {
            self
        }
    }

    /// The position of the cursor.
    pub open spec fn cursor_position(self) -> (int, int) {
        position_at(self.text, self.cursor)
    }

    /// The buffer with a selection begun at the cursor, or with the selection
    /// given up where there was one.
    pub open spec fn toggle_selection(self) -> BufferView {
        match self.mark {
            None => BufferView { mark: Some(self.cursor_position()), ..self },
            Some(_) => BufferView { mark: None, ..self },
        }
    }

    /// The two ends of the selection, the earlier one first.
    pub open spec fn selection(self) -> Option<((int, int), (int, int))> {
        match self.mark {
            None => None,
            Some(mark) => if position_before(mark, self.cursor_position()) {
                Some((mark, self.cursor_position()))
            } else {
                Some((self.cursor_position(), mark))
            },
        }
    }

    /// The offsets between which the selection from `mark` to the cursor
    /// lies, the smaller one first.
    pub open spec fn selected_range(self, mark: (int, int)) -> (int, int) {
        let anchor = offset_of(self.text, mark);
        if anchor <= self.cursor {
            (anchor, self.cursor)
        } else {
            (self.cursor, anchor)
        }
    }

    /// The text between the two ends of the selection from `mark` to the
    /// cursor.
    pub open spec fn selected_text(self, mark: (int, int)) -> Seq<char> {
        let (from, to) = self.selected_range(mark);
        self.text.subrange(from, to)
    }

    /// The buffer with the selected text copied, less a line end at its very
    /// start, and the selection given up. Without a selection nothing changes.
    pub open spec fn copy_to_clipboard(self) -> BufferView {
        match self.mark {
            None => self,
            Some(mark) => BufferView {
                clipboard: Some(without_leading_newline(self.selected_text(mark))),
                mark: None,
                ..self
            },
        }
    }

    /// The buffer with the copied text put in at the cursor, which then follows
    /// it. With nothing copied nothing changes.
    pub open spec fn paste_from_clipboard(self) -> BufferView {
        match self.clipboard {
            None => self,
            Some(copied) => BufferView {
                text: self.text.subrange(0, self.cursor) + copied + self.text.subrange(
                    self.cursor,
                    self.text.len() as int,
                ),
                cursor: self.cursor + copied.len(),
                modified: self.modified || copied.len() > 0,
                ..self
            },
        }
    }

    /// The buffer without the selected text, the cursor where it was, and the
    /// selection given up. Without a selection nothing changes.
    pub open spec fn delete_selection(self) -> BufferView {
        match self.mark {
            None => self,
            Some(mark) => {
                let (from, to) = self.selected_range(mark);
                if from == to {
                    BufferView { mark: None, ..self }
                } else {
                    BufferView { mark: None, ..self.without(from, to) }
                }
            },
        }
    }

    /// The buffer with no text. It counts as changed; the selection, the
    /// copied text and the path stay.
    pub open spec fn clear(self) -> BufferView {
        BufferView { text: Seq::empty(), cursor: 0, modified: true, ..self }
    }
}

} // verus!
