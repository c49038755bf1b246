//! The mathematical model of the editor: its state as plain values, and
//! each command as a function from state to state.

use vstd::prelude::*;
use crate::cursor::{CursorView, Pending, Purpose};
use crate::key::{Inst, Key, KeyState, Parameter};
use crate::mode::{CommandMode, InsertMode, InsertOptions, Mode, PrimitiveMode};
use crate::redraw::Redraw;
use crate::text::{
    cut_rows, cut_span, flip_span, indent_of, nth_after, nth_before, split_row, Point, Text,
};

verus! {

/// The largest number of cursors.
pub open spec fn max_cursors() -> int {
    255
}

/// What an instruction denotes as a motion.
pub enum Target {
    /// The place it leads to.
    To(Point),
    /// A character search, for which one character has to be read first.
    Find {
        /// Whether the search runs to the right.
        forward: bool,
        /// Which occurrence is looked for.
        n: int,
    },
    /// The instruction denotes no motion.
    Nothing,
}

/// What the driver has to do after a dispatch.
pub enum Action {
    /// The command is complete.
    Done,
    /// The command needs one more character.
    NeedChar,
    /// The command needs one more instruction.
    NeedInst,
    /// The command is complete, and the prompt line held this command.
    Invoke(Seq<char>),
}

/// `v`, or the nearer end of the range from `lo` to `hi`.
pub open spec fn clamp(v: int, lo: int, hi: int) -> int {
    if v < lo {
        lo
    } else if v > hi {
        hi
    } else {
        v
    }
}

/// The last column that a cursor may take on `line`: the last character
/// where `tight` (column 0 on an empty line), else one past it.
pub open spec fn limit(line: Seq<char>, tight: bool) -> int {
    if tight && line.len() > 0 {
        line.len() - 1
    } else {
        line.len() as int
    }
}

/// The place `p` moved into the text: the row first, then the column.
pub open spec fn bound(text: Text, p: Point, tight: bool) -> Point {
    let y = clamp(p.1, 0, text.len() - 1);
    (clamp(p.0, 0, limit(text[y], tight)), y)
}

/// Whether the cursor `c` stands on a row of the text and not beyond one
/// past the end of that row.
pub open spec fn in_text(text: Text, c: CursorView) -> bool {
    0 <= c.y < text.len() && 0 <= c.x <= text[c.y].len()
}

/// The cursor `c` moved into the text.
pub open spec fn settle(text: Text, c: CursorView) -> CursorView {
    let p = bound(text, (c.x, c.y), false);
    CursorView { x: p.0, y: p.1, mode: c.mode }
}

/// The message for a key that Normal mode does not know.
pub open spec fn unknown_key_message(c: char) -> Seq<char> {
    "Unknown command: "@.push(c)
}

/// The message for a key that no mode knows.
pub open spec fn unknown_message() -> Seq<char> {
    "Unknown command"@
}

/// The message for a branch refused at the largest number of cursors.
pub open spec fn cursor_limit_message() -> Seq<char> {
    "At max 255 cursors"@
}

/// The message for the removal of the only cursor.
pub open spec fn cursor_underflow_message() -> Seq<char> {
    "No other cursors!"@
}

/// The state of an editor.
pub struct EditorView {
    /// The text.
    pub text: Text,
    /// The cursors, in order.
    pub cursors: Seq<CursorView>,
    /// The index of the active cursor.
    pub current: int,
    /// The modifier keys held.
    pub key_state: KeyState,
    /// The prompt line.
    pub prompt: Seq<char>,
    /// The first row shown.
    pub scroll_y: int,
    /// The message of the status bar.
    pub status: Seq<char>,
    /// The repaint asked for.
    pub redraw: Redraw,
    /// Whether a new line takes over the indentation of the one above.
    pub autoindent: bool,
    /// The input that a command begun earlier still waits for.
    pub pending: Pending,
}

impl EditorView {
    /// The part of the invariant that an edit of the text cannot break: a
    /// text of at least one line, from 1 to 255 cursors, and a valid
    /// active index.
    pub open spec fn shaped(self) -> bool {
        &&& self.text.len() >= 1
        &&& 1 <= self.cursors.len() <= max_cursors()
        &&& 0 <= self.current < self.cursors.len()
    }

    /// The invariant of an editor: a text of at least one line, from 1 to
    /// 255 cursors, each of them in the text, and a valid active index.
    pub open spec fn wf(self) -> bool {
        &&& self.shaped()
        &&& forall|i: int| 0 <= i < self.cursors.len() ==> in_text(self.text, #[trigger] self.cursors[i])
    }

    /// The active cursor.
    pub open spec fn cursor(self) -> CursorView {
        self.cursors[self.current]
    }

    /// The place of the active cursor.
    pub open spec fn pos(self) -> Point {
        (self.cursor().x, self.cursor().y)
    }

    /// The mode of the active cursor.
    pub open spec fn mode(self) -> Mode {
        self.cursor().mode
    }

    /// The line that the active cursor stands on.
    pub open spec fn line(self) -> Seq<char> {
        self.text[self.cursor().y]
    }

    /// Whether digits typed now are the count of the next instruction:
    /// a command waits for its motion, or no command is under way and the
    /// next key is a command of Normal mode or, with Alt, a motion.
    pub open spec fn reads_count(self) -> bool {
        match self.pending {
            Pending::Motion(_) => true,
            Pending::Idle => self.mode() == Mode::normal() || self.key_state.alt,
            _ => false,
        }
    }

    // ---- plain updates ----

    /// The state with the active cursor replaced by `c`.
    pub open spec fn with_cursor(self, c: CursorView) -> EditorView {
        EditorView { cursors: self.cursors.update(self.current, c), ..self }
    }

    /// The state with the active cursor at `p`.
    pub open spec fn goto(self, p: Point) -> EditorView {
        self.with_cursor(CursorView { x: p.0, y: p.1, mode: self.mode() })
    }

    /// The state with the active cursor in the mode `mode`.
    pub open spec fn set_mode(self, mode: Mode) -> EditorView {
        self.with_cursor(CursorView { mode, ..self.cursor() })
    }

    /// The state with the text `text`.
    pub open spec fn with_text(self, text: Text) -> EditorView {
        EditorView { text, ..self }
    }

    /// The state with the repaint `redraw` asked for.
    pub open spec fn with_redraw(self, redraw: Redraw) -> EditorView {
        EditorView { redraw, ..self }
    }

    /// The state with the message `status` and a repaint of the message
    /// line asked for.
    pub open spec fn report(self, status: Seq<char>) -> EditorView {
        EditorView { status, redraw: Redraw::StatusBar, ..self }
    }

    /// The state that waits for `pending`.
    pub open spec fn with_pending(self, pending: Pending) -> EditorView {
        EditorView { pending, ..self }
    }

    /// The state with every cursor moved into the text.
    pub open spec fn normalize(self) -> EditorView {
        EditorView {
            cursors: Seq::new(self.cursors.len(), |i: int| settle(self.text, self.cursors[i])),
            ..self
        }
    }

    // ---- motions ----

    /// The place `n` columns to the left, or the start of the line.
    pub open spec fn left(self, n: int) -> Point {
        (clamp(self.cursor().x - n, 0, self.cursor().x), self.cursor().y)
    }

    /// The place `n` columns to the right, or the end of the line.
    pub open spec fn right(self, n: int, tight: bool) -> Point {
        bound(self.text, (self.cursor().x + n, self.cursor().y), tight)
    }

    /// The place `n` rows up, or on the first row.
    pub open spec fn up(self, n: int) -> Point {
        bound(self.text, (self.cursor().x, clamp(self.cursor().y - n, 0, self.cursor().y)), true)
    }

    /// The place `n` rows down, or on the last row.
    pub open spec fn down(self, n: int) -> Point {
        bound(self.text, (self.cursor().x, self.cursor().y + n), true)
    }

    /// The place at the end of the active cursor's line.
    pub open spec fn line_end(self, tight: bool) -> Point {
        (limit(self.line(), tight), self.cursor().y)
    }

    /// The place at the start of the row with the number `row`, counted
    /// from 1, or of the nearest row that there is.
    pub open spec fn row_start(self, row: int) -> Point {
        (0, clamp(row - 1, 0, self.text.len() - 1))
    }

    /// The column of the `n`-th occurrence of `c` on the active cursor's
    /// line: to the right of the cursor where `forward`, else to its left.
    pub open spec fn occurrence(self, c: char, n: int, forward: bool) -> Option<int> {
        if forward {
            nth_after(self.line(), c, self.cursor().x + 1, n)
        } else {
            nth_before(self.line(), c, self.cursor().x, n)
        }
    }

    /// What the instruction `inst` denotes as a motion. A tight motion
    /// ends on a character; a loose one may end one past the last.
    pub open spec fn target(self, inst: Inst, tight: bool) -> Target {
        let n = inst.0.count();
        match inst.1.key {
            Key::Char('h') => Target::To(self.left(n)),
            Key::Char('l') => Target::To(self.right(n, tight)),
            Key::Char('j') => Target::To(self.down(n)),
            Key::Char('k') => Target::To(self.up(n)),
            Key::Char('g') => Target::To(self.row_start(n)),
            Key::Char('G') => Target::To(self.row_start(self.text.len() as int)),
            Key::Char('L') => Target::To(self.line_end(tight)),
            Key::Char('H') => Target::To((0, self.cursor().y)),
            Key::Char('t') => Target::Find { forward: true, n },
            Key::Char('f') => Target::Find { forward: false, n },
            _ => Target::Nothing,
        }
    }

    // ---- the cursor set ----

    /// The state with the next cursor active, the first after the last.
    pub open spec fn next_cursor(self) -> EditorView {
        EditorView {
            current: if self.current + 1 == self.cursors.len() {
                0
            } else {
                self.current + 1
            },
            ..self
        }
    }

    /// The state with the previous cursor active, the last before the
    /// first.
    pub open spec fn prev_cursor(self) -> EditorView {
        EditorView {
            current: if self.current == 0 {
                self.cursors.len() - 1
            } else {
                self.current - 1
            },
            ..self
        }
    }

    /// The state after a branch: a copy of the active cursor stands right
    /// before it and the active index has moved on by one; at 255 cursors
    /// only the message changes.
    pub open spec fn branch(self) -> EditorView {
        if self.cursors.len() < max_cursors() {
            EditorView { cursors: self.cursors.insert(self.current, self.cursor()), ..self }.next_cursor()
        } else {
            self.report(cursor_limit_message())
        }
    }

    /// The state after the removal of the active cursor: the cursor before
    /// it is active; with one cursor only the message changes.
    pub open spec fn delete_cursor(self) -> EditorView {
        if self.cursors.len() > 1 {
            EditorView { cursors: self.cursors.remove(self.current), ..self }.prev_cursor()
        } else {
            self.report(cursor_underflow_message())
        }
    }

    // ---- edits ----

    /// The state with the active cursor's line replaced by `line`.
    pub open spec fn with_line(self, line: Seq<char>) -> EditorView {
        self.with_text(self.text.update(self.cursor().y, line))
    }

    /// The state without the character under the cursor, where there is
    /// one.
    pub open spec fn delete(self) -> EditorView {
        if self.cursor().x < self.line().len() {
            self.with_line(self.line().remove(self.cursor().x)).normalize()
        } else {
            self
        }
    }

    /// The state without the character before the cursor, where there is
    /// one, and the cursor moved onto its place.
    pub open spec fn backspace(self) -> EditorView {
        if self.cursor().x > 0 {
            self.with_line(self.line().remove(self.cursor().x - 1)).goto(self.left(1)).normalize()
        } else {
            self
        }
    }

    /// The state with the active cursor moved onto a character of its
    /// line.
    pub open spec fn tighten(self) -> EditorView {
        self.goto(bound(self.text, self.pos(), true))
    }

    /// The state with `c` in place of the character under the cursor, or
    /// put in at the cursor where no character is under it.
    pub open spec fn replace(self, c: char) -> EditorView {
        let x = self.cursor().x;
        if x < self.line().len() {
            self.with_line(self.line().update(x, c))
        } else {
            self.with_line(self.line().insert(x, c))
        }
    }

    /// The state with a new line below the cursor's, which holds the
    /// indentation of the cursor's line where autoindent is on, the cursor
    /// at its end in Insert mode, and the other cursors moved into the
    /// text.
    pub open spec fn open_line(self) -> EditorView {
        let indent = if self.autoindent {
            indent_of(self.line())
        } else {
            Seq::<char>::empty()
        };
        let y = self.cursor().y;
        self.with_text(self.text.insert(y + 1, indent)).with_cursor(
            CursorView { x: indent.len() as int, y: y + 1, mode: Mode::insert(InsertMode::Insert) },
        ).normalize()
    }

    /// The state without the text between the cursor and `to`. On one row
    /// the columns between the two go, the larger one excluded; over
    /// several rows every row from the one to the other goes.
    pub open spec fn remove_rb(self, to: Point) -> EditorView {
        let t = bound(self.text, to, false);
        let (x, y) = self.pos();
        if t.1 == y {
            let a = if t.0 < x { t.0 } else { x };
            let b = if t.0 < x { x } else { t.0 };
            self.with_line(cut_span(self.line(), a, b)).goto((a, y)).normalize()
        } else {
            let a = if t.1 < y { t.1 } else { y };
            let b = if t.1 < y { y } else { t.1 };
            let text = cut_rows(self.text, a, b);
            self.with_text(text).goto((0, clamp(a, 0, text.len() - 1))).normalize()
        }
    }

    /// The state with the case inverted in the `n` characters from the
    /// cursor on, as far as the line goes, and the cursor behind them.
    pub open spec fn invert_chars(self, n: int) -> EditorView {
        let x = self.cursor().x;
        let b = clamp(x + n, x, self.line().len() as int);
        self.with_line(flip_span(self.line(), x, b)).goto(
            (clamp(b, 0, limit(self.line(), true)), self.cursor().y),
        )
    }

    /// The state with the first row shown `n` rows above the cursor's, or
    /// the first row of all.
    pub open spec fn scroll_near(self, n: int) -> EditorView {
        EditorView { scroll_y: clamp(self.cursor().y - n, 0, self.cursor().y), ..self }
    }

    /// The state after leaving a text-entry mode: Normal mode; from an
    /// Insert mode one column to the left, from Prompt mode with an empty
    /// prompt line.
    pub open spec fn escape(self) -> EditorView {
        match self.mode() {
            Mode::Primitive(PrimitiveMode::Prompt) => EditorView {
                prompt: Seq::<char>::empty(),
                ..self
            }.set_mode(Mode::normal()),
            Mode::Primitive(PrimitiveMode::Insert(_)) => self.goto(self.left(1)).set_mode(Mode::normal()),
            _ => self.set_mode(Mode::normal()),
        }
    }

    /// The state after the key `key` in an Insert mode with the options
    /// `opt`.
    pub open spec fn insert(self, key: Key, opt: InsertOptions) -> EditorView {
        let (x, y) = self.pos();
        match key {
            Key::Char('\n') => self.with_text(split_row(self.text, x, y)).goto((0, y + 1)).normalize(),
            Key::Char(c) => if opt.mode == InsertMode::Replace && x < self.line().len() {
                self.with_line(self.line().update(x, c)).goto((x + 1, y))
            } else {
                self.with_line(self.line().insert(x, c)).goto((x + 1, y))
            },
            Key::Backspace => if opt.mode == InsertMode::Replace {
                self.goto(self.left(1))
            } else {
                self.backspace()
            },
            Key::Escape => self.escape(),
            Key::Null => self,
        }
    }

    /// The state after the key `key` in Prompt mode, and what the driver
    /// has to do.
    pub open spec fn prompt_key(self, key: Key) -> (EditorView, Action) {
        match key {
            Key::Char('\n') => (
                EditorView {
                    prompt: Seq::<char>::empty(),
                    redraw: Redraw::StatusBar,
                    ..self
                }.set_mode(Mode::normal()),
                Action::Invoke(self.prompt),
            ),
            Key::Backspace => (
                EditorView {
                    prompt: if self.prompt.len() > 0 {
                        self.prompt.drop_last()
                    } else {
                        self.prompt
                    },
                    redraw: Redraw::StatusBar,
                    ..self
                },
                Action::Done,
            ),
            Key::Char(c) => (
                EditorView { prompt: self.prompt.push(c), redraw: Redraw::StatusBar, ..self },
                Action::Done,
            ),
            _ => (self.report(unknown_message()), Action::Done),
        }
    }

    // ---- the dispatcher ----

    /// The state with the cursor moved to `p` and a repaint of the rows
    /// between asked for.
    pub open spec fn moved(self, p: Point) -> EditorView {
        self.goto(p).with_redraw(Redraw::Cursor(self.pos(), p))
    }

    /// The state after a motion begun for `purpose` has led to `hit`, or
    /// to nothing.
    pub open spec fn finish(self, purpose: Purpose, hit: Option<Point>) -> EditorView {
        let idle = self.with_pending(Pending::Idle);
        match purpose {
            Purpose::Jump => match hit {
                Some(p) => idle.goto(p),
                None => idle,
            },
            Purpose::Goto => match hit {
                Some(p) => idle.moved(p),
                None => idle,
            },
            Purpose::Delete => match hit {
                Some(p) => idle.remove_rb(p),
                None => idle,
            },
            Purpose::Scroll => match hit {
                Some(p) => EditorView { scroll_y: p.1, ..idle }.goto(p).with_redraw(Redraw::Full),
                None => idle.with_redraw(Redraw::Full),
            },
        }
    }

    /// The state after the instruction `inst` was taken as the motion of
    /// a command with the purpose `purpose`, and what the driver has to
    /// do. Only a removal takes the motion loosely.
    pub open spec fn begin_motion(self, purpose: Purpose, inst: Inst) -> (EditorView, Action) {
        match self.target(inst, purpose != Purpose::Delete) {
            Target::To(p) => (self.finish(purpose, Some(p)), Action::Done),
            Target::Find { forward, n } => (
                self.with_pending(Pending::Find { purpose, forward, n: inst.0.count() as usize }),
                Action::NeedChar,
            ),
            Target::Nothing => (self.finish(purpose, None), Action::Done),
        }
    }

    /// The state after the character key `c` in Normal mode with the
    /// count `para`, and what the driver has to do.
    pub open spec fn normal_key(self, c: char, para: Parameter) -> (EditorView, Action) {
        let n = para.count();
        if c == 'i' {
            (self.set_mode(Mode::insert(InsertMode::Insert)), Action::Done)
        } else if c == 'a' {
            (self.goto(self.right(1, false)).set_mode(Mode::insert(InsertMode::Insert)), Action::Done)
        } else if c == 'o' {
            (self.open_line(), Action::Done)
        } else if c == 'h' {
            (self.moved(self.left(n)), Action::Done)
        } else if c == 'j' {
            (self.moved(self.down(n)), Action::Done)
        } else if c == 'k' {
            (self.moved(self.up(n)), Action::Done)
        } else if c == 'l' {
            (self.moved(self.right(n, true)), Action::Done)
        } else if c == 'J' {
            (self.moved(self.down(15 * n)), Action::Done)
        } else if c == 'K' {
            (self.moved(self.up(15 * n)), Action::Done)
        } else if c == 'x' {
            (self.delete().tighten(), Action::Done)
        } else if c == 'X' {
            (self.backspace().tighten(), Action::Done)
        } else if c == 'L' {
            (self.moved(self.line_end(false)), Action::Done)
        } else if c == 'H' {
            (self.moved((0, self.cursor().y)), Action::Done)
        } else if c == 'r' {
            (self.with_pending(Pending::Replace), Action::NeedChar)
        } else if c == 'R' {
            (self.set_mode(Mode::insert(InsertMode::Replace)), Action::Done)
        } else if c == 'd' {
            (self.with_pending(Pending::Motion(Purpose::Delete)), Action::NeedInst)
        } else if c == 'G' {
            (self.moved(self.row_start(self.text.len() as int)), Action::Done)
        } else if c == 'g' {
            match para {
                Parameter::Int(row) => (self.moved(self.row_start(row as int)), Action::Done),
                Parameter::Null => (self.with_pending(Pending::Motion(Purpose::Goto)), Action::NeedInst),
            }
        } else if c == 'b' {
            (self.branch(), Action::Done)
        } else if c == 'B' {
            (self.delete_cursor(), Action::Done)
        } else if c == 't' {
            (
                self.with_pending(Pending::Find { purpose: Purpose::Goto, forward: true, n: n as usize }),
                Action::NeedChar,
            )
        } else if c == 'f' {
            (
                self.with_pending(Pending::Find { purpose: Purpose::Goto, forward: false, n: n as usize }),
                Action::NeedChar,
            )
        } else if c == ';' {
            (self.set_mode(Mode::prompt()), Action::Done)
        } else if c == ' ' {
            (self.next_cursor(), Action::Done)
        } else if c == 'z' {
            (self.with_pending(Pending::Motion(Purpose::Scroll)), Action::NeedInst)
        } else if c == 'Z' {
            (self.scroll_near(3).with_redraw(Redraw::Full), Action::Done)
        } else if c == '~' {
            (self.invert_chars(n), Action::Done)
        } else {
            (self.report(unknown_key_message(c)), Action::Done)
        }
    }

    /// The state after the instruction `inst` where no command is under
    /// way, and what the driver has to do. The first rule that fits
    /// decides: Shift and space, Alt and space, Alt and any other key, the
    /// active cursor's mode.
    pub open spec fn dispatch(self, inst: Inst) -> (EditorView, Action) {
        let key = inst.1.key;
        if key == Key::Char(' ') && self.key_state.shift {
            (self.escape(), Action::Done)
        } else if key == Key::Char(' ') && self.key_state.alt {
            (self.next_cursor(), Action::Done)
        } else if self.key_state.alt {
            self.begin_motion(Purpose::Jump, inst)
        } else {
            match self.mode() {
                Mode::Command(CommandMode::Normal) => match key {
                    Key::Char(c) => self.normal_key(c, inst.0),
                    _ => (self.report(unknown_message()), Action::Done),
                },
                Mode::Primitive(PrimitiveMode::Insert(opt)) => (self.insert(key, opt), Action::Done),
                Mode::Primitive(PrimitiveMode::Prompt) => self.prompt_key(key),
            }
        }
    }

    /// The state after the instruction `inst` was handed to a command
    /// that waits for `self.pending`, and what the driver has to do.
    pub open spec fn resume(self, inst: Inst) -> (EditorView, Action) {
        match self.pending {
            Pending::Idle => self.dispatch(inst),
            Pending::Replace => match inst.1.key {
                Key::Char(c) => (self.with_pending(Pending::Idle).replace(c), Action::Done),
                _ => (self, Action::NeedChar),
            },
            Pending::Motion(purpose) => match (purpose, inst.0) {
                (Purpose::Scroll, Parameter::Int(row)) => (
                    EditorView {
                        scroll_y: row as int,
                        redraw: Redraw::Full,
                        pending: Pending::Idle,
                        ..self
                    },
                    Action::Done,
                ),
                _ => self.begin_motion(purpose, inst),
            },
            Pending::Find { purpose, forward, n } => match inst.1.key {
                Key::Char(c) => (
                    self.finish(
                        purpose,
                        match self.occurrence(c, n as int, forward) {
                            Some(x) => Some((x, self.cursor().y)),
                            None => None,
                        },
                    ),
                    Action::Done,
                ),
                _ => (self, Action::NeedChar),
            },
        }
    }
}

} // verus!
