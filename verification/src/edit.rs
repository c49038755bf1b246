//! The edits: what a command does to the text and to the cursors on it.

use vstd::prelude::*;
use crate::cursor::Cursor;
use crate::editor::Editor;
use crate::key::Key;
use crate::mode::{CommandMode, InsertMode, InsertOptions, Mode, PrimitiveMode};
use crate::redraw::RedrawTask;

verus! {

impl Editor {
    /// Makes the next cursor the active one, the first after the last.
    pub fn next_cursor(&mut self)
        requires
            old(self).wf(),
        ensures
            final(self).wf(),
            final(self)@ == old(self)@.next_cursor(),
    {
        let n = self.cursors.len();
        self.current_cursor = if self.current_cursor + 1 == n {
            0
        } else {
            self.current_cursor + 1
        };
    }

    /// Makes the previous cursor the active one, the last before the
    /// first.
    pub fn prev_cursor(&mut self)
        requires
            old(self).wf(),
        ensures
            final(self).wf(),
            final(self)@ == old(self)@.prev_cursor(),
    {
        self.current_cursor = if self.current_cursor == 0 {
            self.cursors.len() - 1
        } else {
            self.current_cursor - 1
        };
    }

    /// Sets the message of the status bar and asks for its repaint.
    pub(crate) fn report(&mut self, msg: String)
        ensures
            final(self)@ == old(self)@.report(msg@),
    {
        self.status_bar.msg = msg;
        self.redraw_task = RedrawTask::StatusBar;
    }

    /// Branches the active cursor: puts a copy of it right before it, and
    /// moves the active index on by one. At 255 cursors nothing changes
    /// but the message.
    pub fn branch_cursor(&mut self)
        requires
            old(self).wf(),
        ensures
            final(self).wf(),
            final(self)@ == old(self)@.branch(),
    {
        if self.cursors.len() < 255 {
            let c = self.cursor();
            self.cursors.insert(self.current_cursor, c);
            assert(self@.cursors =~= old(self)@.cursors.insert(old(self)@.current, c@));
            self.current_cursor = self.current_cursor + 1;
        } else {
            self.report("At max 255 cursors".to_owned());
        }
    }

    /// Removes the active cursor and makes the one before it the active
    /// one. With one cursor nothing changes but the message.
    pub fn delete_cursor(&mut self)
        requires
            old(self).wf(),
        ensures
            final(self).wf(),
            final(self)@ == old(self)@.delete_cursor(),
    {
        if self.cursors.len() > 1 {
            self.cursors.remove(self.current_cursor);
            assert(self@.cursors =~= old(self)@.cursors.remove(old(self)@.current));
            self.current_cursor = if self.current_cursor == 0 {
                self.cursors.len() - 1
            } else {
                self.current_cursor - 1
            };
        } else {
            self.report("No other cursors!".to_owned());
        }
    }

    /// Removes the character under the cursor, where there is one.
    pub fn delete(&mut self)
        requires
            old(self).wf(),
        ensures
            final(self).wf(),
            final(self)@ == old(self)@.delete(),
    {
        let c = self.cursor();
        if c.x < self.buffer.line_len(c.y) {
            self.buffer.remove_char(c.x, c.y);
            self.normalize();
        }
    }

    /// Removes the character before the cursor, where there is one, and
    /// moves the cursor onto its place.
    pub fn backspace(&mut self)
        requires
            old(self).wf(),
        ensures
            final(self).wf(),
            final(self)@ == old(self)@.backspace(),
    {
        let c = self.cursor();
        if c.x > 0 {
            self.buffer.remove_char(c.x - 1, c.y);
            self.put_cursor(Cursor { x: c.x - 1, y: c.y, mode: c.mode });
            self.normalize();
        }
    }

    /// Moves the cursor onto a character of its line, where it stands
    /// behind the last.
    pub fn tighten(&mut self)
        requires
            old(self).wf(),
        ensures
            final(self).wf(),
            final(self)@ == old(self)@.tighten(),
    {
        let p = self.bound(self.pos(), true);
        self.set_pos(p);
    }

    /// Writes `c` over the character under the cursor; where no character
    /// is under it, puts `c` in at the cursor.
    pub fn replace(&mut self, c: char)
        requires
            old(self).wf(),
        ensures
            final(self).wf(),
            final(self)@ == old(self)@.replace(c),
    {
        let cur = self.cursor();
        if cur.x < self.buffer.line_len(cur.y) {
            self.buffer.set_char(cur.x, cur.y, c);
        } else {
            self.buffer.insert_char(cur.x, cur.y, c);
        }
    }

    /// Opens a new line below the cursor's, with the indentation of the
    /// cursor's line where autoindent is on, and puts the cursor at its
    /// end in Insert mode.
    pub fn open_line(&mut self)
        requires
            old(self).wf(),
        ensures
            final(self).wf(),
            final(self)@ == old(self)@.open_line(),
    {
        let cur = self.cursor();
        let indent = if self.options.autoindent {
            self.buffer.get_indent(cur.y)
        } else {
            Vec::new()
        };
        let last = indent.len();
        self.buffer.insert_line(cur.y, indent);
        let rows = self.buffer.len();
        self.put_cursor(
            Cursor {
                x: last,
                y: cur.y + 1,
                mode: Mode::Primitive(PrimitiveMode::Insert(InsertOptions { mode: InsertMode::Insert })),
            },
        );
        self.normalize();
    }

    /// Removes the text between the cursor and the place `to`, which is
    /// first moved into the text. On one row the columns between the two
    /// go, the larger one excluded, and the cursor stands on the smaller
    /// one; over several rows every row from the one to the other goes,
    /// and the cursor stands at the start of the row that follows them.
    pub fn remove_rb(&mut self, to: (usize, usize))
        requires
            old(self).wf(),
        ensures
            final(self).wf(),
            final(self)@ == old(self)@.remove_rb((to.0 as int, to.1 as int)),
    {
        let t = self.bound(to, false);
        let cur = self.cursor();
        if t.1 == cur.y {
            let a = if t.0 < cur.x {
                t.0
            } else {
                cur.x
            };
            let b = if t.0 < cur.x {
                cur.x
            } else {
                t.0
            };
            self.buffer.remove_span(cur.y, a, b);
            self.put_cursor(Cursor { x: a, y: cur.y, mode: cur.mode });
            self.normalize();
        } else {
            let a = if t.1 < cur.y {
                t.1
            } else {
                cur.y
            };
            let b = if t.1 < cur.y {
                cur.y
            } else {
                t.1
            };
            self.buffer.remove_lines(a, b);
            let rows = self.buffer.len();
            let y = if a > rows - 1 {
                rows - 1
            } else {
                a
            };
            self.put_cursor(Cursor { x: 0, y, mode: cur.mode });
            self.normalize();
        }
    }

    /// Inverts the case of the letters among the `n` characters from the
    /// cursor on, as far as the line goes, and puts the cursor behind
    /// them, on the last character at most.
    pub fn invert_chars(&mut self, n: usize)
        requires
            old(self).wf(),
        ensures
            final(self).wf(),
            final(self)@ == old(self)@.invert_chars(n as int),
    {
        let cur = self.cursor();
        let len = self.buffer.line_len(cur.y);
        let b = if n >= len - cur.x {
            len
        } else {
            cur.x + n
        };
        self.buffer.invert_span(cur.y, cur.x, b);
        let p = self.bound((b, cur.y), true);
        self.set_pos(p);
    }

    /// Scrolls so that the first row shown is `n` rows above the
    /// cursor's, or the first row of all.
    pub fn scroll_near(&mut self, n: usize)
        requires
            old(self).wf(),
        ensures
            final(self).wf(),
            final(self)@ == old(self)@.scroll_near(n as int),
    {
        let y = self.y();
        self.scroll_y = if n <= y {
            y - n
        } else {
            0
        };
    }

    /// Leaves a text-entry mode for Normal mode: from an Insert mode the
    /// cursor moves one column to the left, from Prompt mode the prompt
    /// line is emptied.
    pub fn escape(&mut self)
        requires
            old(self).wf(),
        ensures
            final(self).wf(),
            final(self)@ == old(self)@.escape(),
    {
        match self.mode() {
            Mode::Primitive(PrimitiveMode::Prompt) => {
                self.prompt = String::new();
            },
            Mode::Primitive(PrimitiveMode::Insert(_)) => {
                let left = self.left(1);
                self.set_pos(left);
            },
            _ => {},
        }
        self.set_mode(Mode::Command(CommandMode::Normal));
    }

    /// Handles the key `key` in an Insert mode with the options `opt`.
    /// A newline breaks the line at the cursor. Any other character goes
    /// in before the cursor, or in Replace mode over the character under
    /// it, and the cursor moves on by one. Backspace removes the character
    /// before the cursor, or in Replace mode only steps back. Escape
    /// leaves the mode.
    pub fn insert(&mut self, key: Key, opt: InsertOptions)
        requires
            old(self).wf(),
        ensures
            final(self).wf(),
            final(self)@ == old(self)@.insert(key, opt),
    {
        let cur = self.cursor();
        match key {
            Key::Char('\n') => {
                self.buffer.split_line(cur.x, cur.y);
                let rows = self.buffer.len();
                self.put_cursor(Cursor { x: 0, y: cur.y + 1, mode: cur.mode });
                self.normalize();
            },
            Key::Char(c) => {
                let over = match opt.mode {
                    InsertMode::Replace => cur.x < self.buffer.line_len(cur.y),
                    InsertMode::Insert => false,
                };
                if over {
                    self.buffer.set_char(cur.x, cur.y, c);
                } else {
                    self.buffer.insert_char(cur.x, cur.y, c);
                }
                let len = self.buffer.line_len(cur.y);
                self.set_pos((cur.x + 1, cur.y));
            },
            Key::Backspace => {
                match opt.mode {
                    InsertMode::Replace => {
                        let left = self.left(1);
                        self.set_pos(left);
                    },
                    InsertMode::Insert => {
                        self.backspace();
                    },
                }
            },
            Key::Escape => {
                self.escape();
            },
            Key::Null => {},
        }
    }
}

} // verus!
