//! What each key does.
//!
//! The editor takes one key at a time. [`handle_key`] changes the editor as the
//! key asks and answers with an [`Action`]: what is to be drawn anew, or what
//! else is to be done that the editor cannot do itself. Reading the keys and
//! doing what the action says is left to the caller.
//!
//! A key means one thing while the user edits, another while a selection is
//! open, and a third while the user answers a question in the minibuffer; the
//! editor's [`EditorState`] says which.

use vstd::prelude::*;
use crate::buffer::{Buffer, BufferView};
pub use crate::editor::EditorState;
use crate::editor::Editor;
use crate::navigation::{Direction, TextObject};
use crate::text::{line_total, NEWLINE};

verus! {

/// A key, as the terminal reports it.
#[derive(Clone, Copy, Debug, PartialEq, Eq)]
pub enum Key {
    /// A key that stands for a cell of text.
    Char(char),
    Left,
    Right,
    Up,
    Down,
    Backspace,
    /// A key pressed together with the control key.
    Ctrl(char),
    /// A key pressed together with the alt key.
    Alt(char),
    /// Any other key.
    Other,
}

/// What a key asks of a buffer.
#[derive(Clone, Copy, Debug, PartialEq, Eq)]
pub enum Command {
    Insert(char),
    Go(TextObject, Direction),
    Delete(TextObject, Direction),
    GoToStart,
    GoToEnd,
    Copy,
    Paste,
}

/// How much of the screen is to be drawn anew.
#[derive(Clone, Copy, Debug, PartialEq, Eq)]
pub enum Redraw {
    /// Nothing.
    Nothing,
    /// The status line and the cursor.
    Cursor,
    /// The status line and the line that the cursor is on.
    Line,
    /// Everything.
    All,
}

/// What is to be done once a key was handled.
#[derive(Debug, PartialEq, Eq)]
pub enum Action {
    /// Draw anew as much as said.
    Redraw(Redraw),
    /// Store the buffer in focus under the path that it has.
    Save,
    /// Show the question for a file name, and the answer so far.
    Prompt,
    /// Store the buffer in focus under the name given, which is the answer to
    /// the question.
    SaveAs(Vec<char>),
    /// Wipe the question off the screen: it was withdrawn.
    CancelPrompt,
    /// Leave the editor.
    Quit,
    /// Nothing can be done: the key, pressed with the control key, has no
    /// meaning.
    Unbound(char),
}

/// The command that `key` stands for, if any.
pub open spec fn key_command(key: Key) -> Option<Command> {
    match key {
        Key::Char(c) => Some(Command::Insert(c)),
        Key::Left => Some(Command::Go(TextObject::Char, Direction::Left)),
        Key::Right => Some(Command::Go(TextObject::Char, Direction::Right)),
        Key::Up => Some(Command::Go(TextObject::Line, Direction::Up)),
        Key::Down => Some(Command::Go(TextObject::Line, Direction::Down)),
        Key::Backspace => Some(Command::Delete(TextObject::Char, Direction::Left)),
        Key::Ctrl(c) => if c == 'd' {
            Some(Command::Delete(TextObject::Char, Direction::Right))
        } else if c == 'b' {
            Some(Command::Go(TextObject::Char, Direction::Left))
        } else if c == 'f' {
            Some(Command::Go(TextObject::Char, Direction::Right))
        } else if c == 'n' {
            Some(Command::Go(TextObject::Line, Direction::Down))
        } else if c == 'p' {
            Some(Command::Go(TextObject::Line, Direction::Up))
        } else if c == 'e' {
            Some(Command::Go(TextObject::Line, Direction::Right))
        } else if c == 'a' {
            Some(Command::Go(TextObject::Line, Direction::Left))
        } else if c == 'k' {
            Some(Command::Delete(TextObject::Line, Direction::Right))
        } else if c == 'y' {
            Some(Command::Paste)
        } else {
            None
        },
        Key::Alt(c) => if c == 'w' {
            Some(Command::Copy)
        } else if c == 'f' {
            Some(Command::Go(TextObject::Word, Direction::Right))
        } else if c == 'b' {
            Some(Command::Go(TextObject::Word, Direction::Left))
        } else if c == 'd' {
            Some(Command::Delete(TextObject::Word, Direction::Right))
        } else if c == '\u{7f}' {
            Some(Command::Delete(TextObject::Word, Direction::Left))
        } else if c == '<' {
            Some(Command::GoToStart)
        } else if c == '>' {
            Some(Command::GoToEnd)
        } else {
            None
        },
        Key::Other => None,
    }
}

/// The buffer after `command`.
pub open spec fn applied(view: BufferView, command: Command) -> BufferView {
    match command {
        Command::Insert(c) => view.insert(c),
        Command::Go(object, direction) => view.go(object, direction),
        Command::Delete(object, direction) => view.delete(object, direction),
        Command::GoToStart => view.move_to(0),
        Command::GoToEnd => view.move_to(view.text.len() as int),
        Command::Copy => view.copy_to_clipboard(),
        Command::Paste => view.paste_from_clipboard(),
    }
}

/// How much is to be drawn anew after `command`: after a move, the cursor;
/// after an insertion or a deletion within one line, that line; after a
/// copy, nothing; after anything else, everything.
pub open spec fn redraw_after(view: BufferView, command: Command) -> Redraw {
    match command {
        Command::Insert(c) => if c == NEWLINE {
            Redraw::All
        } else {
            Redraw::Line
        },
        Command::Go(_, _) => Redraw::Cursor,
        Command::Delete(object, direction) => if object == TextObject::Line || line_total(
            view.delete(object, direction).text,
        ) != line_total(view.text) {
            Redraw::All
        } else {
            Redraw::Line
        },
        Command::GoToStart => Redraw::All,
        Command::GoToEnd => Redraw::All,
        Command::Copy => Redraw::Nothing,
        Command::Paste => Redraw::All,
    }
}

/// Whether the storage of `buffer` has room for what `command` puts into it.
pub open spec fn command_fits(buffer: Buffer, command: Command) -> bool {
    match command {
        Command::Insert(_) => buffer.room_for(1),
        Command::Paste => buffer@.clipboard matches Some(copied) ==> buffer.room_for(
            copied.len() as int,
        ),
        _ => true,
    }
}

/// The buffer that the keys go to: the minibuffer while a question is being
/// answered, else the buffer in focus.
pub open spec fn active_buffer(editor: Editor) -> Buffer {
    if editor.state == EditorState::PromptResponse {
        editor.minibuffer
    } else {
        editor.focused_buffer()
    }
}

/// Whether `key` closes the answer to a question that is being answered.
pub open spec fn closes_answer(state: EditorState, key: Key) -> bool {
    state == EditorState::PromptResponse && key == Key::Char(NEWLINE)
}

/// Whether the storage of the buffer that the keys go to can hold what `key`
/// puts into it. The key that closes an answer puts nothing into it.
pub open spec fn key_fits(editor: Editor, key: Key) -> bool {
    key_command(key) matches Some(command) ==> closes_answer(editor.state, key) || command_fits(
        active_buffer(editor),
        command,
    )
}

/// The state and the action that follow on `key` while the user edits
/// `buffer`.
///
/// Control-s asks for the buffer to be stored: under its path or, without one,
/// after a question for a name. Control-t begins a selection, and everything
/// is drawn anew. Control-c leaves. A key that stands for a command has as
/// much drawn anew as the command asks for; any other key has nothing drawn,
/// and where it was pressed with the control key, it is named as unbound.
pub open spec fn editing_outcome(buffer: Buffer, state: EditorState, key: Key) -> (
    EditorState,
    Action,
) {
    if key == Key::Ctrl('s') {
        if buffer.path is Some {
            (state, Action::Save)
        } else {
            (EditorState::PromptResponse, Action::Prompt)
        }
    } else if key == Key::Ctrl('t') {
        (EditorState::Selecting, Action::Redraw(Redraw::All))
    } else if key == Key::Ctrl('c') {
        (state, Action::Quit)
    } else {
        match key_command(key) {
            Some(command) => (state, Action::Redraw(redraw_after(buffer@, command))),
            None => match key {
                Key::Ctrl(c) => (state, Action::Unbound(c)),
                _ => (state, Action::Redraw(Redraw::Nothing)),
            },
        }
    }
}

/// Whether `after` is what `key` makes of `buffer` while the user edits it:
/// control-t begins a selection or gives one up, a key that stands for a
/// command has the command done, and any other key leaves the buffer as it
/// is.
pub open spec fn edited(buffer: Buffer, key: Key, after: Buffer) -> bool {
    if key == Key::Ctrl('t') {
        after.wf() && after@ == buffer@.toggle_selection()
    } else if key == Key::Ctrl('s') || key == Key::Ctrl('c') {
        after == buffer
    } else {
        match key_command(key) {
            Some(command) => after.wf() && after@ == applied(buffer@, command),
            None => after == buffer,
        }
    }
}

/// Whether `key` ends the selecting: a cell of text, backspace, control-t and
/// control-g do.
pub open spec fn ends_selecting(key: Key) -> bool {
    key is Char || key == Key::Backspace || key == Key::Ctrl('t') || key == Key::Ctrl('g')
}

/// The state and the action that follow on `key` while a selection is open
/// in `buffer`: what follows on it while the user edits, but that everything
/// is drawn anew where anything is; and after a key that ends the selecting,
/// the user edits again.
pub open spec fn selecting_outcome(buffer: Buffer, key: Key) -> (EditorState, Action) {
    if ends_selecting(key) {
        (EditorState::Editing, Action::Redraw(Redraw::All))
    } else {
        let (state, action) = editing_outcome(buffer, EditorState::Selecting, key);
        match action {
            Action::Redraw(_) => (state, Action::Redraw(Redraw::All)),
            _ => (state, action),
        }
    }
}

/// Whether `after` is what `key` makes of `buffer` while a selection is open
/// in it.
///
/// A cell of text is inserted, and what then lies between the mark and the
/// cursor is deleted; backspace deletes what lies between them; control-t and
/// control-g give the selection up, or begin one where a copy has given it up
/// already. Any other key does what it does while the user edits.
pub open spec fn selected(buffer: Buffer, key: Key, after: Buffer) -> bool {
    match key {
        Key::Char(c) => after.wf() && after@ == buffer@.insert(c).delete_selection(),
        Key::Backspace => after.wf() && after@ == buffer@.delete_selection(),
        _ => if key == Key::Ctrl('g') {
            after.wf() && after@ == buffer@.toggle_selection()
        } else {
            edited(buffer, key, after)
        },
    }
}

/// Whether `after`, `after_state` and `action` are what `key` makes of the
/// minibuffer `buffer` while the user answers the question for a file name.
///
/// A line end closes the answer: the buffer in focus is to be stored under
/// it, and the minibuffer is emptied. Control-g withdraws the question. Both
/// end the answering. Control-s means nothing here, control-c leaves, and
/// control-t begins or gives up a selection in the answer. A key that stands
/// for a command has the command done to the answer; any other key does
/// nothing, and where it was pressed with the control key, it is named as
/// unbound.
pub open spec fn answered(
    buffer: Buffer,
    key: Key,
    after: Buffer,
    after_state: EditorState,
    action: Action,
) -> bool {
    if key == Key::Char(NEWLINE) {
        &&& after.wf()
        &&& after@ == buffer@.clear()
        &&& after_state == EditorState::Editing
        &&& action matches Action::SaveAs(answer)
        &&& answer@ == buffer@.text
    } else if key == Key::Ctrl('g') {
        after == buffer && after_state == EditorState::Editing && action == Action::CancelPrompt
    } else if key == Key::Ctrl('s') {
        after == buffer && after_state == EditorState::PromptResponse && action == Action::Prompt
    } else if key == Key::Ctrl('c') {
        after == buffer && after_state == EditorState::PromptResponse && action == Action::Quit
    } else {
        &&& after_state == EditorState::PromptResponse
        &&& edited(buffer, key, after)
        &&& action == (match key {
            Key::Ctrl(c) => if key == Key::Ctrl('t') || key_command(key) is Some {
                Action::Prompt
            } else {
                Action::Unbound(c)
            },
            _ => Action::Prompt,
        })
    }
}

/// Whether `after` and `action` are what `key` makes of `before`.
///
/// The key goes to the minibuffer while a question is being answered, else to
/// the buffer in focus. No other buffer changes, none is opened or closed,
/// and the focus stays where it is.
pub open spec fn step(before: Editor, key: Key, after: Editor, action: Action) -> bool {
    &&& after.wf()
    &&& after.has_focus()
    &&& after.focused == before.focused
    &&& after.next_buffer_id == before.next_buffer_id
    &&& match before.state {
        EditorState::PromptResponse => {
            &&& after.buffers == before.buffers
            &&& answered(before.minibuffer, key, after.minibuffer, after.state, action)
        },
        EditorState::Editing => {
            &&& after.minibuffer == before.minibuffer
            &&& after.buffers@ == before.buffers@.insert(before.focused, after.focused_buffer())
            &&& edited(before.focused_buffer(), key, after.focused_buffer())
            &&& (after.state, action) == editing_outcome(
                before.focused_buffer(),
                before.state,
                key,
            )
        },
        EditorState::Selecting => {
            &&& after.minibuffer == before.minibuffer
            &&& after.buffers@ == before.buffers@.insert(before.focused, after.focused_buffer())
            &&& selected(before.focused_buffer(), key, after.focused_buffer())
            &&& (after.state, action) == selecting_outcome(before.focused_buffer(), key)
        },
    }
}

/// Finds the command that `key` stands for, if any.
pub fn command_of_key(key: Key) -> (command: Option<Command>)
    ensures
        command == key_command(key),
{
    match key {
        Key::Char(c) => Some(Command::Insert(c)),
        Key::Left => Some(Command::Go(TextObject::Char, Direction::Left)),
        Key::Right => Some(Command::Go(TextObject::Char, Direction::Right)),
        Key::Up => Some(Command::Go(TextObject::Line, Direction::Up)),
        Key::Down => Some(Command::Go(TextObject::Line, Direction::Down)),
        Key::Backspace => Some(Command::Delete(TextObject::Char, Direction::Left)),
        Key::Ctrl(c) => if c == 'd' {
            Some(Command::Delete(TextObject::Char, Direction::Right))
        } else if c == 'b' {
            Some(Command::Go(TextObject::Char, Direction::Left))
        } else if c == 'f' {
            Some(Command::Go(TextObject::Char, Direction::Right))
        } else if c == 'n' {
            Some(Command::Go(TextObject::Line, Direction::Down))
        } else if c == 'p' {
            Some(Command::Go(TextObject::Line, Direction::Up))
        } else if c == 'e' {
            Some(Command::Go(TextObject::Line, Direction::Right))
        } else if c == 'a' {
            Some(Command::Go(TextObject::Line, Direction::Left))
        } else if c == 'k' {
            Some(Command::Delete(TextObject::Line, Direction::Right))
        } else if c == 'y' {
            Some(Command::Paste)
        } else {
            None
        },
        Key::Alt(c) => if c == 'w' {
            Some(Command::Copy)
        } else if c == 'f' {
            Some(Command::Go(TextObject::Word, Direction::Right))
        } else if c == 'b' {
            Some(Command::Go(TextObject::Word, Direction::Left))
        } else if c == 'd' {
            Some(Command::Delete(TextObject::Word, Direction::Right))
        } else if c == '\u{7f}' {
            Some(Command::Delete(TextObject::Word, Direction::Left))
        } else if c == '<' {
            Some(Command::GoToStart)
        } else if c == '>' {
            Some(Command::GoToEnd)
        } else {
            None
        },
        Key::Other => None,
    }
}

/// Does `command` to `buffer`, and says how much is to be drawn anew.
pub fn apply(buffer: &mut Buffer, command: Command) -> (redraw: Redraw)
    requires
        old(buffer).wf(),
        command_fits(*old(buffer), command),
    ensures
        final(buffer).wf(),
        final(buffer)@ == applied(old(buffer)@, command),
        redraw == redraw_after(old(buffer)@, command),
{
    match command {
        Command::Insert(c) => {
            buffer.insert(c);
            if c == NEWLINE {
                Redraw::All
            } else {
                Redraw::Line
            }
        },
        Command::Go(object, direction) => {
            buffer.go(object, direction);
            Redraw::Cursor
        },
        Command::Delete(object, direction) => {
            let lines_before: usize = buffer.line_count();
            buffer.delete(object, direction);
            let lines_after: usize = buffer.line_count();
            match object {
                TextObject::Line => Redraw::All,
                _ => if lines_before == lines_after {
                    Redraw::Line
                } else {
                    Redraw::All
                },
            }
        },
        Command::GoToStart => {
            buffer.go_to_start();
            Redraw::All
        },
        Command::GoToEnd => {
            buffer.go_to_end();
            Redraw::All
        },
        Command::Copy => {
            buffer.copy_to_clipboard();
            Redraw::Nothing
        },
        Command::Paste => {
            buffer.paste_from_clipboard();
            Redraw::All
        },
    }
}

/// Tells whether the storage of `buffer` can hold what `command` puts into it.
pub fn fits(buffer: &Buffer, command: Command) -> (fits: bool)
    requires
        buffer.wf(),
    ensures
        fits == command_fits(*buffer, command),
{
    match command {
        Command::Insert(_) => buffer.has_room_for(1),
        Command::Paste => match &buffer.clipboard {
            Some(copied) => buffer.has_room_for(copied.len()),
            None => true,
        },
        _ => true,
    }
}

/// Handles a key while the user edits `buffer`, or has a selection open in it.
fn edit(buffer: &mut Buffer, state: EditorState, key: Key) -> (outcome: (EditorState, Action))
    requires
        old(buffer).wf(),
        key_command(key) matches Some(command) ==> command_fits(*old(buffer), command),
    ensures
        final(buffer).wf(),
        edited(*old(buffer), key, *final(buffer)),
        outcome == editing_outcome(*old(buffer), state, key),
{
    match key {
        Key::Ctrl(c) => {
            if c == 's' {
                if buffer.path.is_some() {
                    return (state, Action::Save);
                } else {
                    return (EditorState::PromptResponse, Action::Prompt);
                }
            } else if c == 't' {
                buffer.toggle_selection();
                return (EditorState::Selecting, Action::Redraw(Redraw::All));
            } else if c == 'c' {
                return (state, Action::Quit);
            }
        },
        _ => {},
    }
    match command_of_key(key) {
        Some(command) => {
            let redraw: Redraw = apply(buffer, command);
            (state, Action::Redraw(redraw))
        },
        None => match key {
            Key::Ctrl(c) => (state, Action::Unbound(c)),
            _ => (state, Action::Redraw(Redraw::Nothing)),
        },
    }
}

/// Handles a key while a selection is open in `buffer`.
fn select(buffer: &mut Buffer, key: Key) -> (outcome: (EditorState, Action))
    requires
        old(buffer).wf(),
        key_command(key) matches Some(command) ==> command_fits(*old(buffer), command),
    ensures
        final(buffer).wf(),
        selected(*old(buffer), key, *final(buffer)),
        outcome == selecting_outcome(*old(buffer), key),
{
    match key {
        Key::Char(c) => {
            buffer.insert(c);
            buffer.delete_selection();
            return (EditorState::Editing, Action::Redraw(Redraw::All));
        },
        Key::Backspace => {
            buffer.delete_selection();
            return (EditorState::Editing, Action::Redraw(Redraw::All));
        },
        Key::Ctrl(c) => {
            if c == 't' || c == 'g' {
                buffer.toggle_selection();
                return (EditorState::Editing, Action::Redraw(Redraw::All));
            }
        },
        _ => {},
    }
    let (state, action) = edit(buffer, EditorState::Selecting, key);
    match action {
        Action::Redraw(_) => (state, Action::Redraw(Redraw::All)),
        other => (state, other),
    }
}

/// Handles a key while the user answers the question for a file name in
/// `buffer`.
fn answer(buffer: &mut Buffer, key: Key) -> (outcome: (EditorState, Action))
    requires
        old(buffer).wf(),
        key_command(key) matches Some(command) ==> key == Key::Char(NEWLINE) || command_fits(
            *old(buffer),
            command,
        ),
    ensures
        final(buffer).wf(),
        answered(*old(buffer), key, *final(buffer), outcome.0, outcome.1),
{
    match key {
        Key::Char(c) => {
            if c == NEWLINE {
                let name: Vec<char> = buffer.text();
                buffer.clear();
                return (EditorState::Editing, Action::SaveAs(name));
            }
        },
        Key::Ctrl(c) => {
            if c == 'g' {
                return (EditorState::Editing, Action::CancelPrompt);
            } else if c == 's' {
                return (EditorState::PromptResponse, Action::Prompt);
            } else if c == 'c' {
                return (EditorState::PromptResponse, Action::Quit);
            } else if c == 't' {
                buffer.toggle_selection();
                return (EditorState::PromptResponse, Action::Prompt);
            }
        },
        _ => {},
    }
    match command_of_key(key) {
        Some(command) => {
            let _: Redraw = apply(buffer, command);
            (EditorState::PromptResponse, Action::Prompt)
        },
        None => match key {
            Key::Ctrl(c) => (EditorState::PromptResponse, Action::Unbound(c)),
            _ => (EditorState::PromptResponse, Action::Prompt),
        },
    }
}

/// Tells whether the storage of the buffer that the keys go to can hold what
/// `key` puts into it.
pub fn can_handle(editor: &Editor, key: Key) -> (fitting: bool)
    requires
        editor.wf(),
        editor.has_focus(),
    ensures
        fitting == key_fits(*editor, key),
{
    match command_of_key(key) {
        Some(command) => match editor.state {
            EditorState::PromptResponse => match key {
                Key::Char(c) => c == NEWLINE || fits(&editor.minibuffer, command),
                _ => fits(&editor.minibuffer, command),
            },
            _ => fits(editor.get_focused_buffer(), command),
        },
        None => true,
    }
}

/// Changes the editor as `key` asks, and says what is to be done then.
pub fn handle_key(editor: &mut Editor, key: Key) -> (action: Action)
    requires
        old(editor).wf(),
        old(editor).has_focus(),
        key_fits(*old(editor), key),
    ensures
        step(*old(editor), key, *final(editor), action),
{
    match editor.state {
        EditorState::PromptResponse => {
            let (state, action) = answer(&mut editor.minibuffer, key);
            editor.state = state;
            action
        },
        EditorState::Editing => {
            let buffer: &mut Buffer = editor.get_focused_buffer_mut();
            let (state, action) = edit(buffer, EditorState::Editing, key);
            editor.state = state;
            action
        },
        EditorState::Selecting => {
            let buffer: &mut Buffer = editor.get_focused_buffer_mut();
            let (state, action) = select(buffer, key);
            editor.state = state;
            action
        },
    }
}

} // verus!
