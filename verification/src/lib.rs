//! A text editor's core: a gap buffer with a cursor, and what moves and
//! changes it.
//!
//! - [`text`] counts lines and maps offsets to positions and back.
//! - [`navigation`] measures how far a character, a word or a line reaches
//!   from the cursor.
//! - [`model`] says what a buffer means and what each operation makes of it.
//! - [`buffer`] is the gap buffer itself.
//! - [`laws`] holds what is proved of every buffer.
//! - [`editor`] keeps the open buffers, [`controller`] says what each key
//!   does, and [`layout`], [`view`] and [`renderer`] serve whatever draws the
//!   editor.

pub mod buffer;
pub mod controller;
pub mod editor;
pub mod laws;
pub mod layout;
pub mod model;
pub mod navigation;
pub mod renderer;
pub mod text;
pub mod view;
