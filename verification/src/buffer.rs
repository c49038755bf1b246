//! The text buffer: a never-empty array of lines.

use vstd::prelude::*;
use crate::text::{blank_run, cut_rows, cut_span, flip_span, indent_of, invert, split_row, Text};

verus! {

/// A text buffer. It always holds at least one line.
#[derive(Debug)]
pub struct Buffer {
    lines: Vec<Vec<char>>,
}

impl View for Buffer {
    type V = Text;

    closed spec fn view(&self) -> Text {
        self.lines@.map_values(|line: Vec<char>| line@)
    }
}

impl Buffer {
    /// The invariant of a buffer: it holds at least one line.
    pub open spec fn wf(&self) -> bool {
        self@.len() >= 1
    }

    /// A buffer of one empty line.
    pub fn new() -> (buffer: Buffer)
        ensures
            buffer.wf(),
            buffer@ == seq![Seq::<char>::empty()],
    {
        let mut lines: Vec<Vec<char>> = Vec::new();
        lines.push(Vec::new());
        let buffer = Buffer { lines };
        assert(buffer@ =~= seq![Seq::<char>::empty()]);
        buffer
    }

    /// A buffer of the given lines; of one empty line where none is given.
    pub fn from_lines(lines: Vec<Vec<char>>) -> (buffer: Buffer)
        ensures
            buffer.wf(),
            lines@.len() == 0 ==> buffer@ == seq![Seq::<char>::empty()],
            lines@.len() > 0 ==> buffer@ == lines@.map_values(|line: Vec<char>| line@),
    {
        if lines.len() == 0 {
            Buffer::new()
        } else {
            Buffer { lines }
        }
    }

    /// The number of lines.
    pub fn len(&self) -> (n: usize)
        ensures
            n == self@.len(),
    {
        self.lines.len()
    }

    /// The number of characters in the line `y`.
    pub fn line_len(&self, y: usize) -> (n: usize)
        requires
            y < self@.len(),
        ensures
            n == self@[y as int].len(),
    {
        self.lines[y].len()
    }

    /// The character in the column `x` of the line `y`.
    pub fn get(&self, x: usize, y: usize) -> (c: char)
        requires
            y < self@.len(),
            x < self@[y as int].len(),
        ensures
            c == self@[y as int][x as int],
    {
        self.lines[y][x]
    }

    /// A copy of the line `y`.
    pub fn line(&self, y: usize) -> (line: Vec<char>)
        requires
            y < self@.len(),
        ensures
            line@ == self@[y as int],
    {
        let line = self.lines[y].clone();
        assert(line@ =~= self@[y as int]);
        line
    }

    /// The indentation of the line `y`: its longest prefix of blanks.
    pub fn get_indent(&self, y: usize) -> (indent: Vec<char>)
        requires
            y < self@.len(),
        ensures
            indent@ == indent_of(self@[y as int]),
    {
        let line = &self.lines[y];
        let mut indent: Vec<char> = Vec::new();
        let mut i: usize = 0;
        while i < line.len() && (line[i] == ' ' || line[i] == '\t')
            invariant
                i <= line@.len(),
                indent@ == line@.take(i as int),
                blank_run(line@, 0) == blank_run(line@, i as int),
            decreases line@.len() - i,
        {
            indent.push(line[i]);
            i += 1;
            assert(indent@ =~= line@.take(i as int));
        }
        indent
    }

    /// Puts `line` in as a new line right below the line `y`.
    pub fn insert_line(&mut self, y: usize, line: Vec<char>)
        requires
            y < old(self)@.len(),
        ensures
            final(self)@ == old(self)@.insert(y + 1, line@),
    {
        let rows = self.lines.len();
        self.lines.insert(y + 1, line);
        assert(self@ =~= old(self)@.insert(y + 1, line@));
    }

    /// Breaks the line `y` in two before the column `x`.
    pub fn split_line(&mut self, x: usize, y: usize)
        requires
            y < old(self)@.len(),
            x <= old(self)@[y as int].len(),
        ensures
            final(self)@ == split_row(old(self)@, x as int, y as int),
    {
        let rows = self.lines.len();
        let tail = self.lines[y].split_off(x);
        self.lines.insert(y + 1, tail);
        assert(self@ =~= split_row(old(self)@, x as int, y as int));
    }

    /// Puts `c` into the line `y` before the column `x`.
    pub fn insert_char(&mut self, x: usize, y: usize, c: char)
        requires
            y < old(self)@.len(),
            x <= old(self)@[y as int].len(),
        ensures
            final(self)@ == old(self)@.update(y as int, old(self)@[y as int].insert(x as int, c)),
    {
        self.lines[y].insert(x, c);
        assert(self@ =~= old(self)@.update(y as int, old(self)@[y as int].insert(x as int, c)));
    }

    /// Takes the character in the column `x` out of the line `y`.
    pub fn remove_char(&mut self, x: usize, y: usize) -> (c: char)
        requires
            y < old(self)@.len(),
            x < old(self)@[y as int].len(),
        ensures
            c == old(self)@[y as int][x as int],
            final(self)@ == old(self)@.update(y as int, old(self)@[y as int].remove(x as int)),
    {
        let c = self.lines[y].remove(x);
        assert(self@ =~= old(self)@.update(y as int, old(self)@[y as int].remove(x as int)));
        c
    }

    /// Writes `c` over the character in the column `x` of the line `y`.
    pub fn set_char(&mut self, x: usize, y: usize, c: char)
        requires
            y < old(self)@.len(),
            x < old(self)@[y as int].len(),
        ensures
            final(self)@ == old(self)@.update(y as int, old(self)@[y as int].update(x as int, c)),
    {
        self.lines[y][x] = c;
        assert(self@ =~= old(self)@.update(y as int, old(self)@[y as int].update(x as int, c)));
    }

    /// Takes the columns from `a` up to `b` out of the line `y`.
    pub fn remove_span(&mut self, y: usize, a: usize, b: usize)
        requires
            y < old(self)@.len(),
            a <= b <= old(self)@[y as int].len(),
        ensures
            final(self)@ == old(self)@.update(y as int, cut_span(old(self)@[y as int], a as int, b as int)),
    {
        let mut tail = self.lines[y].split_off(b);
        self.lines[y].truncate(a);
        self.lines[y].append(&mut tail);
        assert(self@ =~~= old(self)@.update(
            y as int,
            cut_span(old(self)@[y as int], a as int, b as int),
        ));
    }

    /// Takes the lines from `a` to `b`, both included, out of the buffer,
    /// and leaves one empty line where no line would stay.
    pub fn remove_lines(&mut self, a: usize, b: usize)
        requires
            a <= b < old(self)@.len(),
        ensures
            final(self).wf(),
            final(self)@ == cut_rows(old(self)@, a as int, b as int),
    {
        let rows = self.lines.len();
        let mut tail = self.lines.split_off(b + 1);
        self.lines.truncate(a);
        self.lines.append(&mut tail);
        if self.lines.len() == 0 {
            self.lines.push(Vec::new());
        }
        assert(self@ =~= cut_rows(old(self)@, a as int, b as int));
    }

    /// Inverts the case of the letters in the columns from `a` up to `b`
    /// of the line `y`.
    pub fn invert_span(&mut self, y: usize, a: usize, b: usize)
        requires
            y < old(self)@.len(),
            a <= b <= old(self)@[y as int].len(),
        ensures
            final(self)@ == old(self)@.update(y as int, flip_span(old(self)@[y as int], a as int, b as int)),
    {
        let mut i: usize = a;
        assert(self@ =~~= old(self)@.update(
            y as int,
            flip_span(old(self)@[y as int], a as int, a as int),
        ));
        while i < b
            invariant
                a <= i <= b,
                y < old(self)@.len(),
                b <= old(self)@[y as int].len(),
                self@ == old(self)@.update(y as int, flip_span(old(self)@[y as int], a as int, i as int)),
            decreases b - i,
        {
            assert(self@.len() == old(self)@.len());
            assert(self@[y as int].len() == old(self)@[y as int].len());
            let ghost before = self@;
            let c = self.get(i, y);
            self.set_char(i, y, invert(c));
            assert(c == old(self)@[y as int][i as int]);
            assert(self@[y as int] =~= flip_span(old(self)@[y as int], a as int, i + 1));
            i += 1;
            assert(self@ =~~= old(self)@.update(
                y as int,
                flip_span(old(self)@[y as int], a as int, i as int),
            ));
        }
        assert(self@ =~~= old(self)@.update(
            y as int,
            flip_span(old(self)@[y as int], a as int, b as int),
        ));
    }
}

} // verus!
