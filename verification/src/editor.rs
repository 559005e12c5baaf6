//! The editor: the open buffers, the one in focus, and the minibuffer.

use std::collections::hash_map::Entry;
use std::collections::HashMap;
use vstd::pervasive::unreached;
use vstd::prelude::*;
use vstd::std_specs::iter::IteratorSpec;
use crate::buffer::{Buffer, MAX_CAPACITY};

verus! {

/// The number under which the editor keeps an open buffer.
pub type BufferId = usize;

/// What the editor is doing with the keys that come in.
#[derive(Clone, Copy, Debug, PartialEq, Eq)]
pub enum EditorState {
    /// Keys edit the buffer in focus.
    Editing,
    /// Keys answer a question in the minibuffer.
    PromptResponse,
    /// Keys move the free end of a selection in the buffer in focus.
    Selecting,
}

/// The open buffers, the one in focus, and the minibuffer.
pub struct Editor {
    /// The open buffers, each under its number.
    pub buffers: HashMap<BufferId, Buffer>,
    /// The number that the next buffer to be opened gets.
    pub next_buffer_id: BufferId,
    /// The number of the buffer in focus.
    pub focused: BufferId,
    /// The buffer in which the user answers a question.
    pub minibuffer: Buffer,
    /// What the editor is doing with the keys that come in.
    pub state: EditorState,
}

/// The byte that stands for the cell `c`: the low eight bits of its value.
pub open spec fn byte_of_cell(c: char) -> u8 {
    c as u8
}

/// The bytes that stand for `cells`, one for each cell.
pub open spec fn bytes_of_cells(cells: Seq<char>) -> Seq<u8> {
    Seq::new(cells.len(), |i: int| byte_of_cell(cells[i]))
}

impl Editor {
    /// Whether a buffer is in focus.
    pub open spec fn has_focus(&self) -> bool {
        self.buffers@.contains_key(self.focused)
    }

    /// The buffer in focus.
    pub open spec fn focused_buffer(&self) -> Buffer
        recommends
            self.has_focus(),
    {
        self.buffers@[self.focused]
    }

    /// What holds of every editor between two operations: the open buffers
    /// and the minibuffer are well formed, and the numbers of the open buffers
    /// lie from 1 up to the number that the next one gets.
    pub open spec fn wf(&self) -> bool {
        &&& self.minibuffer.wf()
        &&& 1 <= self.next_buffer_id
        &&& forall|id: BufferId| #[trigger]
            self.buffers@.contains_key(id) ==> self.buffers@[id].wf() && 1 <= id
                < self.next_buffer_id
    }

    /// This editor but for the buffer in focus, which is `buffer`.
    pub open spec fn focused_replaced(&self, before: Editor, buffer: Buffer) -> bool {
        &&& self.buffers@ == before.buffers@.insert(before.focused, buffer)
        &&& self.focused == before.focused
        &&& self.next_buffer_id == before.next_buffer_id
        &&& self.minibuffer == before.minibuffer
        &&& self.state == before.state
    }

    /// Makes an editor with no open buffer, an empty minibuffer, and keys
    /// that edit.
    pub fn new() -> (editor: Editor)
        ensures
            editor.wf(),
            editor.buffers@ == Map::<BufferId, Buffer>::empty(),
            editor.focused == 0,
            editor.next_buffer_id == 1,
            editor.minibuffer.fresh(None),
            editor.state == EditorState::Editing,
    {
        Editor {
            buffers: HashMap::new(),
            next_buffer_id: 1,
            focused: 0,
            minibuffer: Buffer::new(None),
            state: EditorState::Editing,
        }
    }

    /// Tells whether the editor is well formed.
    pub fn is_well_formed(&self) -> (well_formed: bool)
        ensures
            well_formed == self.wf(),
    {
        if !self.minibuffer.is_well_formed() || self.next_buffer_id < 1 {
            return false;
        }
        let ghost buffers: Seq<&Buffer> = self.buffers.values().remaining();
        let ghost mut checked: int = 0;
        for buffer in iter: self.buffers.values()
            invariant
                iter.seq() == buffers,
                checked == iter.index(),
                buffers.unref().to_set() == self.buffers@.values(),
                forall|i: int| 0 <= i < checked ==> (#[trigger] buffers[i]).wf(),
        {
            if !buffer.is_well_formed() {
                proof {
                    assert(buffers.unref().to_set().contains(*buffer));
                }
                return false;
            }
            proof {
                checked = checked + 1;
            }
        }
        let ghost ids: Seq<&BufferId> = self.buffers.keys().remaining();
        let ghost mut counted: int = 0;
        for id in iter: self.buffers.keys()
            invariant
                iter.seq() == ids,
                counted == iter.index(),
                ids.unref().to_set() == self.buffers@.dom(),
                forall|i: int| 0 <= i < counted ==> 1 <= *(#[trigger] ids[i]) < self.next_buffer_id,
        {
            if *id < 1 || *id >= self.next_buffer_id {
                proof {
                    assert(self.buffers@.contains_key(*id));
                }
                return false;
            }
            proof {
                counted = counted + 1;
            }
        }
        proof {
            assert forall|id: BufferId| #[trigger] self.buffers@.contains_key(id) implies (
            self.buffers@[id].wf() && 1 <= id < self.next_buffer_id) by {
                assert(buffers.unref().to_set().contains(self.buffers@[id]));
                assert(ids.unref().to_set().contains(id));
            }
        }
        true
    }

    /// Tells whether a buffer is in focus.
    pub fn is_focused(&self) -> (focused: bool)
        ensures
            focused == self.has_focus(),
    {
        self.buffers.contains_key(&self.focused)
    }

    /// The buffer in focus.
    pub fn get_focused_buffer(&self) -> (buffer: &Buffer)
        requires
            self.has_focus(),
        ensures
            *buffer == self.focused_buffer(),
            self.wf() ==> buffer.wf(),
    {
        let found: Option<&Buffer> = self.buffers.get(&self.focused);
        match found {
            Some(buffer) => buffer,
            None => unreached(),
        }
    }

    /// The buffer in focus, to be changed in place. The editor is then what it
    /// was, but for that buffer.
    pub fn get_focused_buffer_mut(&mut self) -> (buffer: &mut Buffer)
        requires
            old(self).has_focus(),
        ensures
            *buffer == old(self).focused_buffer(),
            final(self).focused_replaced(*old(self), *final(buffer)),
    {
        match self.buffers.entry(self.focused) {
            Entry::Occupied(entry) => entry.into_mut(),
            Entry::Vacant(_) => unreached(),
        }
    }

    /// Opens a buffer and puts it in focus. Its text is what `initial_bytes`
    /// holds, one cell for each byte, or empty without them; its path is
    /// `path`. It gets the next free number.
    pub fn open_file(&mut self, path: Option<String>, initial_bytes: Option<Vec<u8>>)
        requires
            old(self).wf(),
            old(self).next_buffer_id < usize::MAX,
            initial_bytes matches Some(bytes) ==> bytes@.len() <= MAX_CAPACITY,
        ensures
            final(self).wf(),
            final(self).has_focus(),
            final(self).focused == old(self).next_buffer_id,
            final(self).next_buffer_id == old(self).next_buffer_id + 1,
            final(self).buffers@ == old(self).buffers@.insert(
                old(self).next_buffer_id,
                final(self).focused_buffer(),
            ),
            final(self).focused_buffer().path == path,
            (Buffer { path: None, ..final(self).focused_buffer() }).fresh(initial_bytes),
            final(self).minibuffer == old(self).minibuffer,
            final(self).state == old(self).state,
    {
        let mut buffer: Buffer = Buffer::new(initial_bytes);
        buffer.path = path;
        self.buffers.insert(self.next_buffer_id, buffer);
        self.focused = self.next_buffer_id;
        self.next_buffer_id = self.next_buffer_id + 1;
    }

    /// Gets the buffer in focus ready to be stored, and hands out the bytes to
    /// store: one for each cell of its text. Where `new_path` is given, it
    /// becomes the path of the buffer. The buffer then counts as unchanged.
    ///
    /// The buffer must have a path, or be given one.
    pub fn save_buffer(&mut self, new_path: Option<String>) -> (bytes: Vec<u8>)
        requires
            old(self).wf(),
            old(self).has_focus(),
            new_path is Some || old(self).focused_buffer().path is Some,
        ensures
            final(self).wf(),
            final(self).focused_replaced(*old(self), final(self).focused_buffer()),
            final(self).focused_buffer() == (Buffer {
                path: if new_path is Some {
                    new_path
                } else {
                    old(self).focused_buffer().path
                },
                modified: false,
                ..old(self).focused_buffer()
            }),
            bytes@ == bytes_of_cells(old(self).focused_buffer()@.text),
    {
        let buffer: &mut Buffer = self.get_focused_buffer_mut();
        match new_path {
            Some(path) => {
                buffer.path = Some(path);
            },
            None => {},
        }
        buffer.modified = false;
        cells_to_bytes(&buffer.text())
    }
}

/// Turns cells into the bytes that stand for them.
pub fn cells_to_bytes(cells: &Vec<char>) -> (bytes: Vec<u8>)
    ensures
        bytes@ == bytes_of_cells(cells@),
{
    let mut bytes: Vec<u8> = Vec::new();
    let mut i: usize = 0;
    while i < cells.len()
        invariant
            i <= cells.len(),
            bytes@.len() == i,
            forall|j: int| 0 <= j < i ==> bytes@[j] == byte_of_cell(cells@[j]),
        decreases cells.len() - i,
    {
        let byte: u8 = #[verifier::truncate]
        (cells[i] as u8);
        bytes.push(byte);
        i = i + 1;
    }
    bytes
}

} // verus!
