//! Changing the text and moving the cursor.

use vstd::prelude::*;
use crate::buffer::{blank_cells, clamp, Buffer, GROWTH_INCREMENT};
use crate::navigation::{lemma_object_offset_bounds, measure_object, Direction, TextObject};

verus! {

impl Buffer {
    /// Puts `c` into the text at the cursor, which then follows it.
    ///
    /// The gap is brought to the cursor and, where it is used up, the storage
    /// grows, for which there must be room. The cell then fills the first cell
    /// of the gap. The buffer counts as changed.
    pub fn insert(&mut self, c: char)
        requires
            old(self).wf(),
            old(self).room_for(1),
        ensures
            final(self).wf(),
            final(self).aligned(),
            final(self)@ == old(self)@.insert(c),
            final(self).capacity() == old(self).capacity() + if old(self).gap_len == 0 {
                GROWTH_INCREMENT as int
            } else {
                0
            },
            final(self).gap_len == final(self).capacity() - old(self)@.text.len() - 1,
    {
        self.align_gap();
        if self.gap_len == 0 {
            self.grow();
        }
        self.data.set(self.gap_start, c);
        self.gap_start = self.gap_start + 1;
        self.cursor_offset = self.cursor_offset + 1;
        self.gap_len = self.gap_len - 1;
        self.modified = true;
        assert(self@.text =~= old(self)@.text.insert(old(self)@.cursor, c));
    }

    /// Takes the cell behind the cursor out of the text: the gap is brought to
    /// the cursor and takes the cell in. The buffer counts as changed. At the
    /// end of the text the buffer is left as it is.
    pub fn delete_forward(&mut self)
        requires
            old(self).wf(),
        ensures
            final(self).wf(),
            final(self)@ == old(self)@.delete_forward(),
            final(self).capacity() == old(self).capacity(),
            old(self)@.cursor >= old(self)@.text.len() ==> *final(self) == *old(self),
            old(self)@.cursor < old(self)@.text.len() ==> final(self).aligned(),
    {
        if self.logical_cursor() >= self.text_len() {
            return;
        }
        self.align_gap();
        self.gap_len = self.gap_len + 1;
        self.modified = true;
        assert(self@.text =~= old(self)@.delete_forward().text);
    }

    /// Takes the cell before the cursor out of the text: the gap is brought to
    /// the cursor, the cursor steps back by one cell, and the gap takes that
    /// cell in. The buffer counts as changed. At the start of the text the
    /// buffer is left as it is.
    pub fn delete_backward(&mut self)
        requires
            old(self).wf(),
        ensures
            final(self).wf(),
            final(self)@ == old(self)@.delete_backward(),
            final(self).capacity() == old(self).capacity(),
            old(self)@.cursor <= 0 ==> *final(self) == *old(self),
            old(self)@.cursor > 0 ==> final(self).aligned(),
    {
        if self.logical_cursor() == 0 {
            return;
        }
        self.align_gap();
        self.gap_start = self.gap_start - 1;
        self.cursor_offset = self.gap_start;
        self.gap_len = self.gap_len + 1;
        self.modified = true;
        assert(self@.text =~= old(self)@.delete_backward().text);
    }

    /// Measures the signed distance, in cells of the text, from the cursor to
    /// the place that `object` and `direction` lead to. The distance is not
    /// cut off at the ends of the text: a character at either end leads one
    /// cell beyond it.
    pub fn get_object_offset(&self, object: TextObject, direction: Direction) -> (offset: i32)
        requires
            self.wf(),
        ensures
            offset == self@.object_offset(object, direction),
            -1 <= self@.cursor + offset <= self@.text.len() + 1,
    {
        let text: Vec<char> = self.text();
        proof {
            lemma_object_offset_bounds(text@, self@.cursor, object, direction);
        }
        measure_object(&text, self.logical_cursor(), object, direction)
    }

    /// The logical offset that lies `offset` cells from the cursor, or the
    /// nearer end of the text where that lies outside it.
    fn target_of(&self, offset: i32) -> (target: usize)
        requires
            self.wf(),
        ensures
            target == clamp(self@.cursor + offset, 0, self@.text.len() as int),
    {
        let cursor: usize = self.logical_cursor();
        let len: usize = self.text_len();
        if offset < 0 {
            let back: usize = (-(offset as i64)) as usize;
            if back > cursor {
                0
            } else {
                cursor - back
            }
        } else {
            let ahead: usize = offset as usize;
            if ahead > len - cursor {
                len
            } else {
                cursor + ahead
            }
        }
    }

    /// Puts the cursor at the logical offset `target` and brings the gap to
    /// it.
    fn move_cursor(&mut self, target: usize)
        requires
            old(self).wf(),
            target <= old(self)@.text.len(),
        ensures
            final(self).wf(),
            final(self).aligned(),
            final(self)@ == old(self)@.move_to(target as int),
            final(self).gap_len == old(self).gap_len,
            final(self).capacity() == old(self).capacity(),
    {
        self.cursor_offset = self.to_physical(target);
        self.align_gap();
    }

    /// Moves the cursor by `object` in `direction`, and no further than the
    /// ends of the text. The gap then begins at the cursor.
    pub fn go(&mut self, object: TextObject, direction: Direction)
        requires
            old(self).wf(),
        ensures
            final(self).wf(),
            final(self).aligned(),
            final(self)@ == old(self)@.go(object, direction),
            final(self).gap_len == old(self).gap_len,
            final(self).capacity() == old(self).capacity(),
    {
        let offset: i32 = self.get_object_offset(object, direction);
        let target: usize = self.target_of(offset);
        self.move_cursor(target);
    }

    /// Moves the cursor to the start of the text.
    pub fn go_to_start(&mut self)
        requires
            old(self).wf(),
        ensures
            final(self).wf(),
            final(self).aligned(),
            final(self)@ == old(self)@.move_to(0),
            final(self).gap_len == old(self).gap_len,
            final(self).capacity() == old(self).capacity(),
    {
        self.move_cursor(0);
    }

    /// Moves the cursor to the end of the text.
    pub fn go_to_end(&mut self)
        requires
            old(self).wf(),
        ensures
            final(self).wf(),
            final(self).aligned(),
            final(self)@ == old(self)@.move_to(old(self)@.text.len() as int),
            final(self).gap_len == old(self).gap_len,
            final(self).capacity() == old(self).capacity(),
    {
        let len: usize = self.text_len();
        self.move_cursor(len);
    }

    /// Takes the `count` cells before the cursor out of the text, one by one.
    pub(crate) fn delete_cells_backward(&mut self, count: usize)
        requires
            old(self).wf(),
            count <= old(self)@.cursor,
        ensures
            final(self).wf(),
            final(self).capacity() == old(self).capacity(),
            count == 0 ==> *final(self) == *old(self),
            count > 0 ==> final(self).aligned() && final(self)@ == old(self)@.without(
                old(self)@.cursor - count,
                old(self)@.cursor,
            ),
    {
        let mut done: usize = 0;
        while done < count
            invariant
                self.wf(),
                old(self).wf(),
                done <= count <= old(self)@.cursor,
                self.capacity() == old(self).capacity(),
                done == 0 ==> *self == *old(self),
                done > 0 ==> self.aligned() && self@ == old(self)@.without(
                    old(self)@.cursor - done,
                    old(self)@.cursor,
                ),
            decreases count - done,
        {
            self.delete_backward();
            done = done + 1;
            assert(self@.text =~= old(self)@.without(
                old(self)@.cursor - done,
                old(self)@.cursor,
            ).text);
        }
    }

    /// Takes the `count` cells behind the cursor out of the text, one by one.
    pub(crate) fn delete_cells_forward(&mut self, count: usize)
        requires
            old(self).wf(),
            old(self)@.cursor + count <= old(self)@.text.len(),
        ensures
            final(self).wf(),
            final(self).capacity() == old(self).capacity(),
            count == 0 ==> *final(self) == *old(self),
            count > 0 ==> final(self).aligned() && final(self)@ == old(self)@.without(
                old(self)@.cursor,
                old(self)@.cursor + count,
            ),
    {
        let mut done: usize = 0;
        while done < count
            invariant
                self.wf(),
                done <= count,
                old(self)@.cursor + count <= old(self)@.text.len(),
                old(self).wf(),
                self.capacity() == old(self).capacity(),
                done == 0 ==> *self == *old(self),
                done > 0 ==> self.aligned() && self@ == old(self)@.without(
                    old(self)@.cursor,
                    old(self)@.cursor + done,
                ),
            decreases count - done,
        {
            self.delete_forward();
            done = done + 1;
            assert(self@.text =~= old(self)@.without(
                old(self)@.cursor,
                old(self)@.cursor + done,
            ).text);
        }
    }

    /// Takes out of the text the cells between the cursor and the place that
    /// `object` and `direction` lead to, and no further than the ends of the
    /// text: the cells before the cursor where that place lies before it, the
    /// cells behind it where it lies behind. The buffer then counts as
    /// changed, and the gap begins at the cursor. Where that place is the
    /// cursor itself, the buffer is left as it is.
    pub fn delete(&mut self, object: TextObject, direction: Direction)
        requires
            old(self).wf(),
        ensures
            final(self).wf(),
            final(self)@ == old(self)@.delete(object, direction),
            final(self).capacity() == old(self).capacity(),
            final(self)@.text.len() == old(self)@.text.len() ==> *final(self) == *old(self),
            final(self)@.text.len() != old(self)@.text.len() ==> final(self).aligned(),
    {
        let offset: i32 = self.get_object_offset(object, direction);
        let target: usize = self.target_of(offset);
        let cursor: usize = self.logical_cursor();
        if target < cursor {
            self.delete_cells_backward(cursor - target);
        } else {
            self.delete_cells_forward(target - cursor);
        }
    }

    /// Empties the buffer: it then has no text, a gap of
    /// [`GROWTH_INCREMENT`] cells and the cursor at the start, and counts as
    /// changed. The selection, the copied text and the path stay.
    pub fn clear(&mut self)
        ensures
            final(self).wf(),
            final(self).blank(),
            final(self)@ == old(self)@.clear(),
    {
        self.data = blank_cells(GROWTH_INCREMENT);
        self.gap_start = 0;
        self.gap_len = GROWTH_INCREMENT;
        self.cursor_offset = 0;
        self.modified = true;
        assert(self@.text =~= Seq::<char>::empty());
    }
}

} // verus!
