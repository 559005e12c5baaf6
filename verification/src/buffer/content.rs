//! Reading the text and the place of the cursor in it.

use vstd::prelude::*;
use crate::buffer::{position_view, Buffer, GAP_MARKER};
use crate::text::{
    count_newlines, line_start, line_total, newlines_before, position_of_offset,
    split_into_lines, split_lines, Position,
};

verus! {

impl Buffer {
    /// The position of the cursor, which may lie on either side of the gap.
    pub(crate) fn position_of_cursor(&self) -> (position: Position)
        requires
            self.wf(),
        ensures
            position_view(position) == self@.cursor_position(),
    {
        let text: Vec<char> = self.text();
        position_of_offset(&text, self.logical_cursor())
    }

    /// The position of the cursor: its line, which is one more than the
    /// number of line ends before it, and its column, which is one more than
    /// the number of cells between the start of its line and it.
    ///
    /// The gap must begin at the cursor: [`Buffer::align_gap`] brings it there.
    pub fn cursor_position(&self) -> (position: Position)
        requires
            self.wf(),
            self.aligned(),
        ensures
            position_view(position) == self@.cursor_position(),
            position.0 == newlines_before(self@.text, self.gap_start as int) + 1,
            position.1 == self.gap_start - line_start(self@.text, self.gap_start as int) + 1,
    {
        self.position_of_cursor()
    }

    /// The number of lines of the text: one more than the number of its line
    /// ends.
    pub fn line_count(&self) -> (count: usize)
        requires
            self.wf(),
        ensures
            count == line_total(self@.text),
    {
        let text: Vec<char> = self.text();
        count_newlines(&text, text.len()) + 1
    }

    /// The lines of the text, in order, each without its line end.
    pub fn text_lines(&self) -> (lines: Vec<Vec<char>>)
        requires
            self.wf(),
        ensures
            lines.deep_view() == split_lines(self@.text),
    {
        let text: Vec<char> = self.text();
        split_into_lines(&text)
    }

    /// The storage as it is, but with [`GAP_MARKER`] in each cell of the gap.
    pub fn text_raw(&self) -> (cells: Vec<char>)
        requires
            self.wf(),
        ensures
            cells@ == self.raw_spec(),
    {
        let gap_end: usize = self.gap_start + self.gap_len;
        let mut cells: Vec<char> = Vec::new();
        let mut i: usize = 0;
        while i < self.data.len()
            invariant
                i <= self.data.len(),
                gap_end == self.gap_end(),
                cells@.len() == i,
                forall|j: int| 0 <= j < i ==> cells@[j] == self.raw_spec()[j],
            decreases self.data.len() - i,
        {
            if self.gap_start <= i && i < gap_end {
                cells.push(GAP_MARKER);
            } else {
                cells.push(self.data[i]);
            }
            i = i + 1;
        }
        cells
    }

    /// The lines of the storage as [`Buffer::text_raw`] shows it.
    pub fn text_lines_raw(&self) -> (lines: Vec<Vec<char>>)
        requires
            self.wf(),
        ensures
            lines.deep_view() == split_lines(self.raw_spec()),
    {
        let cells: Vec<char> = self.text_raw();
        split_into_lines(&cells)
    }
}

} // verus!
