//! Cursors, and what a command still waits for.

use vstd::prelude::*;
use crate::mode::Mode;

verus! {

/// A cursor: a place in the buffer and a mode.
#[derive(Clone, Copy, Debug, PartialEq, Eq, Structural)]
pub struct Cursor {
    /// The column, counted from 0.
    pub x: usize,
    /// The row, counted from 0.
    pub y: usize,
    /// The mode.
    pub mode: Mode,
}

/// A cursor as the contracts see it.
pub struct CursorView {
    /// The column.
    pub x: int,
    /// The row.
    pub y: int,
    /// The mode.
    pub mode: Mode,
}

impl View for Cursor {
    type V = CursorView;

    open spec fn view(&self) -> CursorView {
        CursorView { x: self.x as int, y: self.y as int, mode: self.mode }
    }
}

/// What a resolved motion is used for.
#[derive(Clone, Copy, Debug, PartialEq, Eq, Structural)]
pub enum Purpose {
    /// The cursor moves there; nothing else changes.
    Jump,
    /// The cursor moves there and a cursor repaint is asked for.
    Goto,
    /// The text between the cursor and the target is removed.
    Delete,
    /// The view scrolls to the target's row and the cursor moves there.
    Scroll,
}

/// The input that a command begun earlier still waits for.
#[derive(Clone, Copy, Debug, PartialEq, Eq, Structural)]
pub enum Pending {
    /// No command is under way.
    Idle,
    /// `r` waits for the character to write.
    Replace,
    /// A command waits for the instruction that names its motion.
    Motion(Purpose),
    /// A character search waits for the character to look for.
    Find {
        /// What the place found is used for.
        purpose: Purpose,
        /// Whether the search runs to the right.
        forward: bool,
        /// Which occurrence is looked for, counted from 1.
        n: usize,
    },
}

} // verus!
