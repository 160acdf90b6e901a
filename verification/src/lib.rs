//! A small terminal text editor, as a library: the document, the cursor and
//! the viewport, the state machine that turns key events into edits, and the
//! projection of all that onto a screen.
//!
//! The library decides; it does not touch the terminal or the file system.
//! Its caller feeds it decoded key events and the text of a file, and draws
//! what `render` describes.

pub mod app;
pub mod document;
pub mod input;
pub mod text;
pub mod layout;
pub mod render;
