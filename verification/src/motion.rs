//! The motion resolver: from an instruction to a place in the text.

use vstd::prelude::*;
use crate::buffer::Buffer;
use crate::editor::Editor;
use crate::key::{Inst, Key};
use crate::model::{bound, Target};
use crate::text::{nth_after, nth_before};

verus! {

/// What an instruction denotes as a motion.
#[derive(Clone, Copy, Debug, PartialEq, Eq)]
pub enum Motion {
    /// The place it leads to: column, then row.
    To((usize, usize)),
    /// A character search, for which one character has to be read first.
    Find {
        /// Whether the search runs to the right.
        forward: bool,
        /// Which occurrence is looked for, counted from 1.
        n: usize,
    },
    /// The instruction denotes no motion.
    Nothing,
}

impl View for Motion {
    type V = Target;

    open spec fn view(&self) -> Target {
        match *self {
            Motion::To(p) => Target::To((p.0 as int, p.1 as int)),
            Motion::Find { forward, n } => Target::Find { forward, n: n as int },
            Motion::Nothing => Target::Nothing,
        }
    }
}

/// The place `p` moved into the text of `buffer`: onto the nearest row,
/// then onto the nearest column of that row that a cursor may take.
pub fn bound_in(buffer: &Buffer, p: (usize, usize), tight: bool) -> (q: (usize, usize))
    requires
        buffer.wf(),
    ensures
        (q.0 as int, q.1 as int) == bound(buffer@, (p.0 as int, p.1 as int), tight),
        q.1 < buffer@.len(),
        q.0 <= buffer@[q.1 as int].len(),
{
    let rows = buffer.len();
    let y = if p.1 >= rows {
        rows - 1
    } else {
        p.1
    };
    let len = buffer.line_len(y);
    let lim = if tight && len > 0 {
        len - 1
    } else {
        len
    };
    let x = if p.0 > lim {
        lim
    } else {
        p.0
    };
    (x, y)
}

impl Editor {
    /// Whether the place `p` lies in the text: on one of its rows, and not
    /// beyond one past the end of that row.
    pub open spec fn admits(&self, p: (usize, usize)) -> bool {
        p.1 < self@.text.len() && p.0 <= self@.text[p.1 as int].len()
    }

    /// The place `p` moved into the text: onto the nearest row, then onto
    /// the nearest column of that row that a cursor may take (a character
    /// where `tight`, else also one past the last).
    pub fn bound(&self, p: (usize, usize), tight: bool) -> (q: (usize, usize))
        requires
            self.wf(),
        ensures
            (q.0 as int, q.1 as int) == bound(self@.text, (p.0 as int, p.1 as int), tight),
            self.admits(q),
    {
        bound_in(&self.buffer, p, tight)
    }

    /// The place `n` columns to the left of the cursor, or the start of
    /// its line.
    pub fn left(&self, n: usize) -> (q: (usize, usize))
        requires
            self.wf(),
        ensures
            (q.0 as int, q.1 as int) == self@.left(n as int),
            self.admits(q),
    {
        let c = self.cursor();
        if n <= c.x {
            (c.x - n, c.y)
        } else {
            (0, c.y)
        }
    }

    /// The place `n` columns to the right of the cursor, or the end of its
    /// line: the last character where `tight`, else one past it.
    pub fn right(&self, n: usize, tight: bool) -> (q: (usize, usize))
        requires
            self.wf(),
        ensures
            (q.0 as int, q.1 as int) == self@.right(n as int, tight),
            self.admits(q),
    {
        let c = self.cursor();
        let len = self.buffer.line_len(c.y);
        let end = self.bound((len, c.y), tight);
        if c.x >= end.0 || n >= end.0 - c.x {
            end
        } else {
            (c.x + n, c.y)
        }
    }

    /// The place `n` rows above the cursor, or on the first row, on a
    /// character of that row.
    pub fn up(&self, n: usize) -> (q: (usize, usize))
        requires
            self.wf(),
        ensures
            (q.0 as int, q.1 as int) == self@.up(n as int),
            self.admits(q),
    {
        let c = self.cursor();
        let y = if n <= c.y {
            c.y - n
        } else {
            0
        };
        self.bound((c.x, y), true)
    }

    /// The place `n` rows below the cursor, or on the last row, on a
    /// character of that row.
    pub fn down(&self, n: usize) -> (q: (usize, usize))
        requires
            self.wf(),
        ensures
            (q.0 as int, q.1 as int) == self@.down(n as int),
            self.admits(q),
    {
        let c = self.cursor();
        let last = self.buffer.len() - 1;
        let y = if n >= last - c.y {
            last
        } else {
            c.y + n
        };
        self.bound((c.x, y), true)
    }

    /// The place `15 * n` rows above the cursor, or on the first row.
    pub fn page_up(&self, n: usize) -> (q: (usize, usize))
        requires
            self.wf(),
        ensures
            (q.0 as int, q.1 as int) == self@.up(15 * n),
            self.admits(q),
    {
        let rows = self.buffer.len();
        match n.checked_mul(15) {
            Some(step) => self.up(step),
            None => self.up(rows),
        }
    }

    /// The place `15 * n` rows below the cursor, or on the last row.
    pub fn page_down(&self, n: usize) -> (q: (usize, usize))
        requires
            self.wf(),
        ensures
            (q.0 as int, q.1 as int) == self@.down(15 * n),
            self.admits(q),
    {
        let rows = self.buffer.len();
        match n.checked_mul(15) {
            Some(step) => self.down(step),
            None => self.down(rows),
        }
    }

    /// The place at the end of the cursor's line: its last character where
    /// `tight`, else one past it.
    pub fn line_end(&self, tight: bool) -> (q: (usize, usize))
        requires
            self.wf(),
        ensures
            (q.0 as int, q.1 as int) == self@.line_end(tight),
            self.admits(q),
    {
        let c = self.cursor();
        let len = self.buffer.line_len(c.y);
        self.bound((len, c.y), tight)
    }

    /// The place at the start of the row with the number `row`, counted
    /// from 1, or of the nearest row that there is.
    pub fn row_start(&self, row: usize) -> (q: (usize, usize))
        requires
            self.wf(),
        ensures
            (q.0 as int, q.1 as int) == self@.row_start(row as int),
            self.admits(q),
    {
        let last = self.buffer.len() - 1;
        let y = if row == 0 {
            0
        } else if row - 1 > last {
            last
        } else {
            row - 1
        };
        (0, y)
    }

    /// The column of the `n`-th occurrence of `c` to the right of the
    /// cursor on its line, if there are that many.
    pub fn next_ocur(&self, c: char, n: usize) -> (found: Option<usize>)
        requires
            self.wf(),
        ensures
            match found {
                Some(x) => self@.occurrence(c, n as int, true) == Some(x as int) && x < self@.line().len(),
                None => self@.occurrence(c, n as int, true).is_none(),
            },
    {
        let cur = self.cursor();
        let len = self.buffer.line_len(cur.y);
        if n == 0 || cur.x >= len {
            return None;
        }
        let ghost line = self@.line();
        let mut left: usize = n;
        let mut i: usize = cur.x + 1;
        while i < len
            invariant
                self.wf(),
                cur@ == self@.cursor(),
                line == self@.line(),
                len == line.len(),
                cur.x < i <= len,
                1 <= left <= n,
                nth_after(line, c, cur.x + 1, n as int) == nth_after(line, c, i as int, left as int),
            decreases len - i,
        {
            if self.buffer.get(i, cur.y) == c {
                if left == 1 {
                    return Some(i);
                }
                left -= 1;
            }
            i += 1;
        }
        None
    }

    /// The column of the `n`-th occurrence of `c` to the left of the
    /// cursor on its line, if there are that many.
    pub fn previous_ocur(&self, c: char, n: usize) -> (found: Option<usize>)
        requires
            self.wf(),
        ensures
            match found {
                Some(x) => self@.occurrence(c, n as int, false) == Some(x as int) && x < self@.line().len(),
                None => self@.occurrence(c, n as int, false).is_none(),
            },
    {
        let cur = self.cursor();
        if n == 0 {
            return None;
        }
        let ghost line = self@.line();
        let mut left: usize = n;
        let mut i: usize = cur.x;
        while i > 0
            invariant
                self.wf(),
                cur@ == self@.cursor(),
                line == self@.line(),
                i <= cur.x <= line.len(),
                1 <= left <= n,
                nth_before(line, c, cur.x as int, n as int) == nth_before(line, c, i as int, left as int),
            decreases i,
        {
            i -= 1;
            if self.buffer.get(i, cur.y) == c {
                if left == 1 {
                    return Some(i);
                }
                left -= 1;
            }
        }
        None
    }

    /// What the instruction `inst` denotes as a motion that ends on a
    /// character.
    pub fn to_motion(&self, inst: Inst) -> (motion: Motion)
        requires
            self.wf(),
        ensures
            motion@ == self@.target(inst, true),
            motion matches Motion::To(p) ==> self.admits(p),
    {
        self.resolve(inst, true)
    }

    /// What the instruction `inst` denotes as a motion that may end one
    /// past the last character of a line.
    pub fn to_motion_unbounded(&self, inst: Inst) -> (motion: Motion)
        requires
            self.wf(),
        ensures
            motion@ == self@.target(inst, false),
            motion matches Motion::To(p) ==> self.admits(p),
    {
        self.resolve(inst, false)
    }

    /// What the instruction `inst` denotes as a motion.
    pub(crate) fn resolve(&self, inst: Inst, tight: bool) -> (motion: Motion)
        requires
            self.wf(),
        ensures
            motion@ == self@.target(inst, tight),
            motion matches Motion::To(p) ==> self.admits(p),
    {
        let n = inst.0.d();
        match inst.1.key {
            Key::Char('h') => Motion::To(self.left(n)),
            Key::Char('l') => Motion::To(self.right(n, tight)),
            Key::Char('j') => Motion::To(self.down(n)),
            Key::Char('k') => Motion::To(self.up(n)),
            Key::Char('g') => Motion::To(self.row_start(n)),
            Key::Char('G') => Motion::To(self.row_start(self.buffer.len())),
            Key::Char('L') => Motion::To(self.line_end(tight)),
            Key::Char('H') => Motion::To((0, self.y())),
            Key::Char('t') => Motion::Find { forward: true, n },
            Key::Char('f') => Motion::Find { forward: false, n },
            _ => Motion::Nothing,
        }
    }
}

} // verus!
