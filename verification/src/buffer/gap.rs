//! Moving the gap and widening the storage.

use vstd::prelude::*;
use crate::buffer::{Buffer, DEFAULT_CHAR, GROWTH_INCREMENT, MAX_CAPACITY};

verus! {

impl Buffer {
    /// Brings the gap to the cursor.
    ///
    /// A cursor before the gap has the cells between it and the gap moved to
    /// the far side of the gap; a cursor behind the gap has the cells between
    /// the gap and it moved to the near side. Either way the gap then begins at
    /// the cursor, and the text, the logical offset of the cursor, the size of
    /// the gap and that of the storage are what they were. A buffer whose gap
    /// begins at the cursor is left as it is.
    pub fn align_gap(&mut self)
        requires
            old(self).wf(),
        ensures
            final(self).aligns(*old(self)),
    {
        if self.cursor_offset < self.gap_start {
            let count: usize = self.gap_start - self.cursor_offset;
            let behind: usize = self.cursor_offset + self.gap_len;
            move_cells(&mut self.data, self.cursor_offset, count, behind);
            self.gap_start = self.cursor_offset;
            assert(self@.text =~= old(self)@.text);
        } else if self.cursor_offset > self.gap_start {
            let gap_end: usize = self.gap_start + self.gap_len;
            let count: usize = self.cursor_offset - gap_end;
            move_cells(&mut self.data, gap_end, count, self.gap_start);
            self.gap_start = self.gap_start + count;
            self.cursor_offset = self.gap_start;
            assert(self@.text =~= old(self)@.text);
        }
    }

    /// Widens the storage by [`GROWTH_INCREMENT`] cells, all of which join the
    /// gap. It is for a buffer whose gap is used up and begins at the cursor:
    /// the text behind the cursor moves to the end of the new storage, and
    /// the gap opens where it was, at the cursor.
    pub fn grow(&mut self)
        requires
            old(self).wf(),
            old(self).aligned(),
            old(self).gap_len == 0,
            old(self).capacity() + GROWTH_INCREMENT <= MAX_CAPACITY,
        ensures
            final(self).grows(*old(self)),
    {
        let capacity: usize = self.data.len();
        let behind: usize = capacity - self.gap_start;
        self.data.resize(capacity + GROWTH_INCREMENT, DEFAULT_CHAR);
        move_cells(&mut self.data, self.gap_start, behind, self.gap_start + GROWTH_INCREMENT);
        self.gap_len = GROWTH_INCREMENT;
        assert(self@.text =~= old(self)@.text);
    }
}

/// Copies the `count` cells that begin at `from` to the cells that begin at
/// `to`, as if by way of a second array: the two runs may overlap. The cells
/// outside the run at `to` stay as they are.
pub fn move_cells(data: &mut Vec<char>, from: usize, count: usize, to: usize)
    requires
        from + count <= old(data).len(),
        to + count <= old(data).len(),
    ensures
        final(data)@.len() == old(data).len(),
        forall|j: int|
            to <= j < to + count ==> #[trigger] final(data)@[j] == old(data)@[j - to + from],
        forall|j: int|
            0 <= j < old(data).len() && !(to <= j < to + count) ==> #[trigger] final(data)@[j]
                == old(data)@[j],
{
    if to < from {
        let mut i: usize = 0;
        while i < count
            invariant
                i <= count,
                to < from,
                data.len() == old(data).len(),
                from + count <= data.len(),
                to + count <= data.len(),
                forall|j: int|
                    to <= j < to + i ==> #[trigger] data@[j] == old(data)@[j - to + from],
                forall|j: int|
                    0 <= j < data.len() && !(to <= j < to + i) ==> #[trigger] data@[j]
                        == old(data)@[j],
            decreases count - i,
        {
            let cell: char = data[from + i];
            data.set(to + i, cell);
            i = i + 1;
        }
    } else if to > from {
        let mut i: usize = count;
        while i > 0
            invariant
                i <= count,
                to > from,
                data.len() == old(data).len(),
                from + count <= data.len(),
                to + count <= data.len(),
                forall|j: int|
                    to + i <= j < to + count ==> #[trigger] data@[j] == old(data)@[j - to + from],
                forall|j: int|
                    0 <= j < data.len() && !(to + i <= j < to + count) ==> #[trigger] data@[j]
                        == old(data)@[j],
            decreases i,
        {
            i = i - 1;
            let cell: char = data[from + i];
            data.set(to + i, cell);
        }
    }
}

} // verus!
