//! The selection and the copied text.

use vstd::prelude::*;
use crate::buffer::{
    position_view, selection_view, without_leading_newline, Buffer, BufferView, Selection,
    DEFAULT_CHAR,
};
use crate::text::{offset_of_position, Position, NEWLINE};

verus! {

impl Buffer {
    /// Begins a selection at the cursor: the mark is set to the position of
    /// the cursor. Where there is a selection already, gives it up.
    pub fn toggle_selection(&mut self)
        requires
            old(self).wf(),
        ensures
            final(self).wf(),
            final(self)@ == old(self)@.toggle_selection(),
            final(self).same_storage(*old(self)),
    {
        match self.mark {
            None => {
                let position: Position = self.position_of_cursor();
                self.mark = Some(position);
            },
            Some(_) => {
                self.mark = None;
            },
        }
    }

    /// The two ends of the selection, which are the mark and the position of
    /// the cursor: first the one on the earlier line or, where both are on one
    /// line, in the earlier column. Without a mark there is none.
    pub fn get_selection(&self) -> (selection: Option<Selection>)
        requires
            self.wf(),
        ensures
            selection_view(selection) == self@.selection(),
    {
        match self.mark {
            None => None,
            Some(mark) => {
                let cursor: Position = self.position_of_cursor();
                if mark.0 < cursor.0 || (mark.0 == cursor.0 && mark.1 < cursor.1) {
                    Some((mark, cursor))
                } else {
                    Some((cursor, mark))
                }
            },
        }
    }

    /// The logical offsets between which the selection from `mark` to the
    /// cursor lies, the smaller one first.
    fn resolve_selection(&self, mark: Position) -> (range: (usize, usize))
        requires
            self.wf(),
        ensures
            (range.0 as int, range.1 as int) == self@.selected_range(position_view(mark)),
            range.0 <= range.1 <= self@.text.len(),
            range.0 == self@.cursor || range.1 == self@.cursor,
    {
        let text: Vec<char> = self.text();
        let anchor: usize = offset_of_position(&text, mark);
        let cursor: usize = self.logical_cursor();
        if anchor <= cursor {
            (anchor, cursor)
        } else {
            (cursor, anchor)
        }
    }

    /// Copies the selected text, which lies between the offset that the mark
    /// names and the cursor, and gives the selection up. A line end at the very
    /// start of the selected text is not copied. Without a selection the buffer
    /// is left as it is.
    pub fn copy_to_clipboard(&mut self)
        requires
            old(self).wf(),
        ensures
            final(self).wf(),
            final(self)@ == old(self)@.copy_to_clipboard(),
            final(self).same_storage(*old(self)),
            old(self).mark is None ==> *final(self) == *old(self),
    {
        match self.mark {
            None => {},
            Some(mark) => {
                let text: Vec<char> = self.text();
                let (from, to) = self.resolve_selection(mark);
                let mut i: usize = from;
                if i < to && text[i] == NEWLINE {
                    i = i + 1;
                }
                let ghost start = i;
                let mut copied: Vec<char> = Vec::new();
                while i < to
                    invariant
                        start <= i <= to <= text@.len(),
                        copied@ == text@.subrange(start as int, i as int),
                    decreases to - i,
                {
                    copied.push(text[i]);
                    i = i + 1;
                }
                assert(copied@ =~= without_leading_newline(
                    old(self)@.selected_text(position_view(mark)),
                ));
                self.clipboard = Some(copied);
                self.mark = None;
            },
        }
    }

    /// Puts the copied text into the text at the cursor, cell by cell, so that
    /// the cursor then follows it. There must be room for it. With nothing
    /// copied, or with an empty copy, the buffer is left as it is.
    pub fn paste_from_clipboard(&mut self)
        requires
            old(self).wf(),
            old(self)@.clipboard matches Some(copied) ==> old(self).room_for(copied.len() as int),
        ensures
            final(self).wf(),
            final(self)@ == old(self)@.paste_from_clipboard(),
            final(self)@.text.len() == old(self)@.text.len() ==> *final(self) == *old(self),
            final(self)@.text.len() != old(self)@.text.len() ==> final(self).aligned(),
    {
        let count: usize = match &self.clipboard {
            Some(copied) => copied.len(),
            None => 0,
        };
        let ghost before = old(self)@;
        let ghost copied: Seq<char> = match before.clipboard {
            Some(copied) => copied,
            None => Seq::empty(),
        };
        assert(before.text =~= before.text.subrange(0, before.cursor) + copied.subrange(0, 0)
            + before.text.subrange(before.cursor, before.text.len() as int));
        let mut i: usize = 0;
        while i < count
            invariant
                self.wf(),
                before == old(self)@,
                before.wf(),
                count > 0 ==> before.clipboard == Some(copied),
                i <= count == copied.len(),
                self@.text.len() == before.text.len() + i,
                self.room_for(count - i),
                i == 0 ==> *self == *old(self),
                i > 0 ==> self.aligned(),
                self@ == (BufferView {
                    text: before.text.subrange(0, before.cursor) + copied.subrange(0, i as int)
                        + before.text.subrange(before.cursor, before.text.len() as int),
                    cursor: before.cursor + i,
                    modified: before.modified || i > 0,
                    ..before
                }),
            decreases count - i,
        {
            let cell: char = match &self.clipboard {
                Some(copied) => copied[i],
                None => DEFAULT_CHAR,
            };
            self.insert(cell);
            i = i + 1;
            assert(self@.text =~= before.text.subrange(0, before.cursor) + copied.subrange(
                0,
                i as int,
            ) + before.text.subrange(before.cursor, before.text.len() as int));
        }
        assert(copied.subrange(0, count as int) =~= copied);
    }

    /// Takes the selected text, which lies between the offset that the mark
    /// names and the cursor, out of the text, cell by cell, and gives the
    /// selection up. Without a selection the buffer is left as it is.
    pub fn delete_selection(&mut self)
        requires
            old(self).wf(),
        ensures
            final(self).wf(),
            final(self)@ == old(self)@.delete_selection(),
            final(self).capacity() == old(self).capacity(),
            old(self).mark is None ==> *final(self) == *old(self),
            final(self)@.text.len() != old(self)@.text.len() ==> final(self).aligned(),
    {
        match self.mark {
            None => {},
            Some(mark) => {
                let (from, to) = self.resolve_selection(mark);
                let cursor: usize = self.logical_cursor();
                if from < cursor {
                    self.delete_cells_backward(cursor - from);
                } else {
                    self.delete_cells_forward(to - cursor);
                }
                self.mark = None;
            },
        }
    }
}

} // verus!
