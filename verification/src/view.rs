//! Where on the screen a buffer is shown.

use vstd::prelude::*;
use crate::editor::BufferId;

verus! {

/// A buffer and the part of the screen in which it is shown.
pub struct View {
    /// The number of the buffer.
    pub buffer_id: BufferId,
    /// The part of the screen.
    pub surface: Surface,
}

/// A rectangle of the screen, in cells.
pub struct Surface {
    /// The column of its left edge.
    pub x: u16,
    /// The row of its upper edge.
    pub y: u16,
    /// The number of its columns.
    pub width: u16,
    /// The number of its rows.
    pub height: u16,
}

impl View {
    /// Makes the view that shows buffer `buffer_id` in the rectangle of
    /// `width` columns and `height` rows whose upper left corner is at column
    /// `x` and row `y`.
    pub fn new(buffer_id: BufferId, x: u16, y: u16, width: u16, height: u16) -> (view: View)
        ensures
            view.buffer_id == buffer_id,
            view.surface.x == x,
            view.surface.y == y,
            view.surface.width == width,
            view.surface.height == height,
    {
        View { buffer_id, surface: Surface { x, y, width, height } }
    }
}

} // verus!
