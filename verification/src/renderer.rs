//! What the editor asks of whatever draws it.

use vstd::prelude::*;
use crate::editor::Editor;

verus! {

/// Something that draws an editor. The editor tells it what to draw anew after
/// each key; how it draws is its own affair.
pub trait Renderer {
    /// Makes the renderer and takes hold of the screen.
    fn new() -> Self where Self: Sized;

    /// Draws everything: the text, the status line and the cursor.
    fn render(&mut self, editor: &Editor);

    /// Draws the line that the cursor is on.
    fn render_line(&mut self, editor: &Editor);

    /// Puts the cursor where it belongs.
    fn render_cursor(&mut self, editor: &Editor);

    /// Draws the status line.
    fn render_status_line(&mut self, editor: &Editor);

    /// Shows the question `message` and, behind it, the answer so far.
    fn render_minibuffer_prompt(&mut self, editor: &Editor, message: &str);

    /// Wipes the question and the answer off the screen.
    fn clear_minibuffer(&mut self, editor: &Editor);
}

} // verus!
