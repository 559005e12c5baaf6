//! The gap buffer: a text stored in one array with a hole at the edit point.
//!
//! The cells of the text lie in `data`, in order, on both sides of a run of
//! `gap_len` unused cells that begins at `gap_start`. An insertion fills the
//! first cell of the gap and a deletion widens the gap, so that an edit at the
//! gap moves no text. Before an edit elsewhere the gap is brought to the
//! cursor.
//!
//! Offsets come in two kinds. A *physical* offset counts the cells of `data`,
//! the gap included; a *logical* offset counts the cells of the text alone.
//! What a buffer means is its [`BufferView`]: the text, the logical offset of
//! the cursor, and the fields that the gap does not touch.

use vstd::prelude::*;
pub use crate::model::{
    cells_of_bytes, clamp, position_before, without_leading_newline, BufferView,
};
pub use crate::navigation::{Direction, TextObject};
pub use crate::text::Position;
use crate::navigation::MAX_TEXT_LEN;

mod checked;
mod content;
mod editing;
mod gap;
mod selection;

pub use self::checked::InvariantViolation;
pub use self::gap::move_cells;

verus! {

/// The number of cells by which the storage grows when the gap is used up, and
/// the number of cells of an empty buffer.
pub const GROWTH_INCREMENT: usize = 10;

/// The cell that fills storage which holds no text yet.
pub const DEFAULT_CHAR: char = '\0';

/// The cell that stands for a cell of the gap where the storage is shown as it
/// is.
pub const GAP_MARKER: char = '_';

/// The largest number of cells that the storage may have. Within it every
/// offset, and every signed distance between two offsets, fits in an `i32`.
pub const MAX_CAPACITY: usize = MAX_TEXT_LEN;

/// The two ends of a selection, the earlier one first.
pub type Selection = (Position, Position);

/// A text with a cursor, stored with a gap.
#[derive(Debug)]
pub struct Buffer {
    /// Where the text is kept outside the program, if anywhere.
    pub path: Option<String>,
    /// The storage: the text, with the gap in it.
    pub data: Vec<char>,
    /// The physical offset at which the gap begins.
    pub gap_start: usize,
    /// The number of cells of the gap.
    pub gap_len: usize,
    /// The physical offset of the cursor.
    pub cursor_offset: usize,
    /// Whether the text was changed since it was last stored.
    pub modified: bool,
    /// The fixed end of the selection, while there is one.
    pub mark: Option<Position>,
    /// The text that was copied last.
    pub clipboard: Option<Vec<char>>,
}

/// The number of times that the storage must grow to hold `missing` cells
/// more than it has room for.
pub open spec fn growths_for(missing: int) -> int {
    (missing + GROWTH_INCREMENT - 1) / (GROWTH_INCREMENT as int)
}

/// A position as a pair of integers.
pub open spec fn position_view(position: Position) -> (int, int) {
    (position.0 as int, position.1 as int)
}

/// The two ends of a selection as pairs of integers.
pub open spec fn selection_view(selection: Option<Selection>) -> Option<((int, int), (int, int))> {
    match selection {
        Some((first, second)) => Some((position_view(first), position_view(second))),
        None => None,
    }
}

impl View for Buffer {
    type V = BufferView;

    open spec fn view(&self) -> BufferView {
        BufferView {
            text: self.text_spec(),
            cursor: self.cursor_spec(),
            modified: self.modified,
            mark: match self.mark {
                Some(mark) => Some(position_view(mark)),
                None => None,
            },
            clipboard: match self.clipboard {
                Some(copied) => Some(copied@),
                None => None,
            },
            path: match self.path {
                Some(path) => Some(path@),
                None => None,
            },
        }
    }
}

impl Buffer {
    /// The number of cells of the storage.
    pub open spec fn capacity(&self) -> nat {
        self.data@.len()
    }

    /// The physical offset at which the gap ends.
    pub open spec fn gap_end(&self) -> int {
        self.gap_start + self.gap_len
    }

    /// What holds of every buffer between two operations: the storage is no
    /// larger than [`MAX_CAPACITY`], the gap lies within the storage, and the
    /// cursor lies within the storage and not inside the gap.
    pub open spec fn wf(&self) -> bool {
        &&& self.capacity() <= MAX_CAPACITY
        &&& self.gap_end() <= self.capacity()
        &&& self.cursor_offset <= self.capacity()
        &&& (self.cursor_offset <= self.gap_start || self.cursor_offset >= self.gap_end())
    }

    /// The gap begins at the cursor.
    pub open spec fn aligned(&self) -> bool {
        self.gap_start == self.cursor_offset
    }

    /// The text: the storage without the gap.
    pub open spec fn text_spec(&self) -> Seq<char> {
        self.data@.subrange(0, self.gap_start as int) + self.data@.subrange(
            self.gap_end(),
            self.capacity() as int,
        )
    }

    /// The logical offset of the place at the physical offset `physical`: the
    /// same before the gap and at its start, and less by the size of the gap
    /// behind it.
    pub open spec fn logical_of(&self, physical: int) -> int {
        if physical <= self.gap_start {
            physical
        } else {
            physical - self.gap_len
        }
    }

    /// The physical offset of the place at the logical offset `logical`: the
    /// same up to the start of the gap, and more by the size of the gap behind
    /// it.
    pub open spec fn physical_of(&self, logical: int) -> int {
        if logical <= self.gap_start {
            logical
        } else {
            logical + self.gap_len
        }
    }

    /// The logical offset of the cursor.
    pub open spec fn cursor_spec(&self) -> int {
        self.logical_of(self.cursor_offset as int)
    }

    /// Whether the physical offset `offset` follows a cell of the gap.
    pub open spec fn in_gap_spec(&self, offset: int) -> bool {
        self.gap_start < offset <= self.gap_end()
    }

    /// Whether this buffer is `before` with its gap brought to the cursor:
    /// well formed, with the gap at the cursor, and with the view, the size of
    /// the gap and that of the storage as in `before`. The cells of its gap
    /// hold what they held in `before`, as after a move of the text between
    /// the gap and the cursor that leaves every other cell alone. Where the gap
    /// of `before` begins at the cursor already, the two are the same.
    pub open spec fn aligns(&self, before: Buffer) -> bool {
        &&& self.wf()
        &&& self.aligned()
        &&& self@ == before@
        &&& self.gap_len == before.gap_len
        &&& self.capacity() == before.capacity()
        &&& forall|j: int|
            self.gap_start <= j < self.gap_end() ==> #[trigger] self.data@[j] == before.data@[j]
        &&& before.aligned() ==> *self == before
    }

    /// Whether this buffer is `before` with its storage widened: well formed,
    /// with the view, the cursor and the start of the gap as in `before`, with
    /// [`GROWTH_INCREMENT`] cells more, and with as many cells in the gap. The
    /// cells of its gap hold what the storage of `before` held there and,
    /// beyond the end of that storage, [`DEFAULT_CHAR`].
    pub open spec fn grows(&self, before: Buffer) -> bool {
        &&& self.wf()
        &&& self@ == before@
        &&& self.gap_start == before.gap_start
        &&& self.cursor_offset == before.cursor_offset
        &&& self.gap_len == GROWTH_INCREMENT
        &&& self.capacity() == before.capacity() + GROWTH_INCREMENT
        &&& forall|j: int|
            self.gap_start <= j < self.gap_end() ==> #[trigger] self.data@[j] == if j
                < before.capacity() {
                before.data@[j]
            } else {
                DEFAULT_CHAR
            }
    }

    /// The storage as it is, but with [`GAP_MARKER`] in each cell of the gap.
    pub open spec fn raw_spec(&self) -> Seq<char> {
        Seq::new(
            self.capacity(),
            |i: int|
                if self.gap_start <= i < self.gap_end() {
                    GAP_MARKER
                } else {
                    self.data@[i]
                },
        )
    }

    /// Whether the storage, the gap and the cursor are those of `other`.
    pub open spec fn same_storage(&self, other: Buffer) -> bool {
        &&& self.data == other.data
        &&& self.gap_start == other.gap_start
        &&& self.gap_len == other.gap_len
        &&& self.cursor_offset == other.cursor_offset
    }

    /// Whether the storage can take in `cells` more cells of text: whether
    /// they fit into the gap or, where they do not, the storage can grow as
    /// often as it takes to hold them.
    pub open spec fn room_for(&self, cells: int) -> bool {
        cells <= self.gap_len || self.capacity() + GROWTH_INCREMENT * growths_for(
            cells - self.gap_len,
        ) <= MAX_CAPACITY
    }

    /// Whether the storage is that of an empty buffer: [`GROWTH_INCREMENT`]
    /// cells, all of which hold [`DEFAULT_CHAR`] and belong to the gap, with
    /// the cursor at the start.
    pub open spec fn blank(&self) -> bool {
        &&& self.capacity() == GROWTH_INCREMENT
        &&& self.gap_start == 0
        &&& self.gap_len == GROWTH_INCREMENT
        &&& self.cursor_offset == 0
        &&& forall|j: int| 0 <= j < GROWTH_INCREMENT ==> self.data@[j] == DEFAULT_CHAR
    }

    /// The view of the buffer that [`Buffer::new`] makes of `initial_bytes`.
    pub open spec fn opened(initial_bytes: Option<Vec<u8>>) -> BufferView {
        match initial_bytes {
            Some(bytes) => BufferView { text: cells_of_bytes(bytes@), ..BufferView::empty() },
            None => BufferView::empty(),
        }
    }

    /// Whether this buffer is as [`Buffer::new`] makes it of `initial_bytes`:
    /// well formed, with the cursor and the gap at the start, and with its
    /// view, the size of its gap and that of its storage as said there.
    pub open spec fn fresh(&self, initial_bytes: Option<Vec<u8>>) -> bool {
        &&& self.wf()
        &&& self.gap_start == 0
        &&& self.cursor_offset == 0
        &&& self@ == Buffer::opened(initial_bytes)
        &&& match initial_bytes {
            Some(bytes) => self.gap_len == 0 && self.capacity() == bytes@.len(),
            None => self.blank(),
        }
    }

    /// Makes a buffer. Without `initial_bytes` it has no text and a gap of
    /// [`GROWTH_INCREMENT`] cells; with them its text is their cells, one for
    /// each byte, and it has no gap. The cursor is at the start.
    pub fn new(initial_bytes: Option<Vec<u8>>) -> (buffer: Buffer)
        requires
            initial_bytes matches Some(bytes) ==> bytes@.len() <= MAX_CAPACITY,
        ensures
            buffer.fresh(initial_bytes),
    {
        let mut data: Vec<char> = Vec::new();
        let mut gap_len: usize = GROWTH_INCREMENT;
        match initial_bytes {
            Some(bytes) => {
                gap_len = 0;
                let mut i: usize = 0;
                while i < bytes.len()
                    invariant
                        i <= bytes@.len(),
                        data@ == cells_of_bytes(bytes@.subrange(0, i as int)),
                    decreases bytes@.len() - i,
                {
                    data.push(bytes[i] as char);
                    i = i + 1;
                }
                assert(bytes@.subrange(0, i as int) =~= bytes@);
            },
            None => {
                data = blank_cells(GROWTH_INCREMENT);
            },
        }
        let buffer = Buffer {
            path: None,
            data,
            gap_start: 0,
            gap_len,
            cursor_offset: 0,
            modified: false,
            mark: None,
            clipboard: None,
        };
        assert(initial_bytes is Some ==> buffer@.text =~= buffer.data@);
        assert(initial_bytes is None ==> buffer@.text =~= Seq::<char>::empty());
        buffer
    }

    /// Tells whether the buffer is well formed.
    pub fn is_well_formed(&self) -> (well_formed: bool)
        ensures
            well_formed == self.wf(),
    {
        match self.validate() {
            Ok(_) => true,
            Err(_) => false,
        }
    }

    /// Tells whether the storage can take in `cells` more cells of text.
    pub fn has_room_for(&self, cells: usize) -> (room: bool)
        requires
            self.wf(),
        ensures
            room == self.room_for(cells as int),
    {
        if cells <= self.gap_len {
            return true;
        }
        let growths: usize = (cells - self.gap_len - 1) / GROWTH_INCREMENT + 1;
        growths <= (MAX_CAPACITY - self.data.len()) / GROWTH_INCREMENT
    }

    /// Tells whether the gap begins at the cursor.
    pub fn is_aligned(&self) -> (aligned: bool)
        ensures
            aligned == self.aligned(),
    {
        self.gap_start == self.cursor_offset
    }

    /// Tells whether the physical offset `offset` follows a cell of the gap:
    /// whether it lies behind the start of the gap and not behind its end.
    pub fn in_gap(&self, offset: usize) -> (inside: bool)
        ensures
            inside == self.in_gap_spec(offset as int),
    {
        self.gap_start < offset && offset - self.gap_start <= self.gap_len
    }

    /// The logical offset of the cursor.
    pub fn logical_cursor(&self) -> (cursor: usize)
        requires
            self.wf(),
        ensures
            cursor == self@.cursor,
            cursor <= self@.text.len(),
    {
        self.to_logical(self.cursor_offset)
    }

    /// The number of cells of the text.
    pub fn text_len(&self) -> (len: usize)
        requires
            self.wf(),
        ensures
            len == self@.text.len(),
    {
        self.data.len() - self.gap_len
    }

    /// The text, in order and without the gap.
    pub fn text(&self) -> (text: Vec<char>)
        requires
            self.wf(),
        ensures
            text@ == self@.text,
    {
        let mut text: Vec<char> = Vec::new();
        let mut i: usize = 0;
        while i < self.gap_start
            invariant
                self.wf(),
                i <= self.gap_start,
                text@ == self.data@.subrange(0, i as int),
            decreases self.gap_start - i,
        {
            text.push(self.data[i]);
            i = i + 1;
        }
        let gap_end: usize = self.gap_start + self.gap_len;
        i = gap_end;
        while i < self.data.len()
            invariant
                self.wf(),
                gap_end == self.gap_end(),
                gap_end <= i <= self.data@.len(),
                text@ == self.data@.subrange(0, self.gap_start as int) + self.data@.subrange(
                    gap_end as int,
                    i as int,
                ),
            decreases self.data@.len() - i,
        {
            text.push(self.data[i]);
            i = i + 1;
        }
        text
    }

    /// Turns a physical offset that does not lie inside the gap into the
    /// logical offset of the same place in the text.
    pub fn to_logical(&self, physical: usize) -> (logical: usize)
        requires
            self.wf(),
            physical <= self.capacity(),
            physical <= self.gap_start || physical >= self.gap_end(),
        ensures
            logical == self.logical_of(physical as int),
            logical <= self@.text.len(),
    {
        if physical <= self.gap_start {
            physical
        } else {
            physical - self.gap_len
        }
    }

    /// Turns a logical offset into the physical offset of the same place in
    /// the storage; of the two ends of the gap, into its start.
    pub fn to_physical(&self, logical: usize) -> (physical: usize)
        requires
            self.wf(),
            logical <= self@.text.len(),
        ensures
            physical == self.physical_of(logical as int),
            physical <= self.capacity(),
            physical <= self.gap_start || physical > self.gap_end(),
    {
        if logical <= self.gap_start {
            logical
        } else {
            logical + self.gap_len
        }
    }
}

/// Makes `count` cells that hold no text.
pub(crate) fn blank_cells(count: usize) -> (cells: Vec<char>)
    ensures
        cells@.len() == count,
        forall|i: int| 0 <= i < count ==> cells@[i] == DEFAULT_CHAR,
{
    let mut cells: Vec<char> = Vec::new();
    let mut i: usize = 0;
    while i < count
        invariant
            i <= count,
            cells@.len() == i,
            forall|j: int| 0 <= j < i ==> cells@[j] == DEFAULT_CHAR,
        decreases count - i,
    {
        cells.push(DEFAULT_CHAR);
        i = i + 1;
    }
    cells
}

} // verus!
