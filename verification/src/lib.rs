//! The modal-input dispatch engine of a terminal text editor.
//!
//! Given the active cursor's mode, one key instruction and the modifier
//! keys held, the engine decides how the cursor set and the text buffer
//! change and which part of the screen has to be painted again.

pub mod buffer;
pub mod cursor;
pub mod edit;
pub mod editor;
pub mod exec;
pub mod key;
pub mod laws;
pub mod mode;
pub mod model;
pub mod motion;
pub mod redraw;
mod strings;
pub mod text;
