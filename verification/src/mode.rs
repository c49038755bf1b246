//! The interaction modes of a cursor.

use vstd::prelude::*;

verus! {

/// How typed text enters the buffer.
#[derive(Clone, Copy, Debug, PartialEq, Eq, Structural)]
pub enum InsertMode {
    /// Typed text shifts the rest of the line to the right.
    Insert,
    /// Typed text overwrites what is under the cursor.
    Replace,
}

/// The options of a text-entry mode.
#[derive(Clone, Copy, Debug, PartialEq, Eq, Structural)]
pub struct InsertOptions {
    /// The insertion sub-mode.
    pub mode: InsertMode,
}

/// The command-oriented modes.
#[derive(Clone, Copy, Debug, PartialEq, Eq, Structural)]
pub enum CommandMode {
    /// Navigation and commands.
    Normal,
}

/// The text-entry modes.
#[derive(Clone, Copy, Debug, PartialEq, Eq, Structural)]
pub enum PrimitiveMode {
    /// Text goes into the buffer.
    Insert(InsertOptions),
    /// Text goes into the prompt line.
    Prompt,
}

/// The mode of a cursor.
#[derive(Clone, Copy, Debug, PartialEq, Eq, Structural)]
pub enum Mode {
    /// A command-oriented mode.
    Command(CommandMode),
    /// A text-entry mode.
    Primitive(PrimitiveMode),
}

impl Mode {
    /// Normal mode.
    pub open spec fn normal() -> Mode {
        Mode::Command(CommandMode::Normal)
    }

    /// Insert mode with the sub-mode `mode`.
    pub open spec fn insert(mode: InsertMode) -> Mode {
        Mode::Primitive(PrimitiveMode::Insert(InsertOptions { mode }))
    }

    /// Prompt mode.
    pub open spec fn prompt() -> Mode {
        Mode::Primitive(PrimitiveMode::Prompt)
    }

    /// Whether this is an Insert-family mode.
    pub open spec fn is_insert(self) -> bool {
        self matches Mode::Primitive(PrimitiveMode::Insert(_))
    }
}

} // verus!
