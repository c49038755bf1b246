//! The mathematical model of the text: a sequence of lines, each a
//! sequence of characters, and the pure operations on it.

use vstd::prelude::*;

verus! {

/// The text of a buffer: its lines, top to bottom.
pub type Text = Seq<Seq<char>>;

/// A place in the text: column, then row.
pub type Point = (int, int);

/// Whether `c` counts as indentation.
pub open spec fn is_blank(c: char) -> bool {
    c == ' ' || c == '\t'
}

/// The column of the first character at or after `from` that is no
/// indentation, or the length of the line where there is none.
pub open spec fn blank_run(line: Seq<char>, from: int) -> int
    decreases line.len() - from,
{
    if 0 <= from < line.len() && is_blank(line[from]) {
        blank_run(line, from + 1)
    } else {
        from
    }
}

/// The indentation of a line: its longest prefix of blanks.
pub open spec fn indent_of(line: Seq<char>) -> Seq<char> {
    line.take(blank_run(line, 0))
}

/// The character `c` with the case of an ASCII letter inverted.
pub open spec fn flip_case(c: char) -> char {
    if 'a' <= c <= 'z' {
        ((c as u8 - 32) as u8) as char
    } else if 'A' <= c <= 'Z' {
        ((c as u8 + 32) as u8) as char
    } else {
        c
    }
}

/// The line with the case inverted in the columns from `a` up to `b`.
pub open spec fn flip_span(line: Seq<char>, a: int, b: int) -> Seq<char> {
    Seq::new(
        line.len(),
        |i: int|
            if a <= i < b {
                flip_case(line[i])
            } else {
                line[i]
            },
    )
}

/// The line without the columns from `a` up to `b`.
pub open spec fn cut_span(line: Seq<char>, a: int, b: int) -> Seq<char> {
    line.take(a) + line.skip(b)
}

/// The text without the rows from `a` to `b`, both included; a text never
/// runs empty, so one empty line stays where every row was cut.
pub open spec fn cut_rows(text: Text, a: int, b: int) -> Text {
    let rest = text.take(a) + text.skip(b + 1);
    if rest.len() == 0 {
        seq![Seq::<char>::empty()]
    } else {
        rest
    }
}

/// The text with the row `y` broken in two before the column `x`.
pub open spec fn split_row(text: Text, x: int, y: int) -> Text {
    text.update(y, text[y].take(x)).insert(y + 1, text[y].skip(x))
}

/// The column of the `n`-th occurrence of `c` at or after the column
/// `from`, counted from 1.
pub open spec fn nth_after(line: Seq<char>, c: char, from: int, n: int) -> Option<int>
    decreases line.len() - from,
{
    if n <= 0 || from < 0 || from >= line.len() {
        None
    } else if line[from] == c {
        if n == 1 {
            Some(from)
        } else {
            nth_after(line, c, from + 1, n - 1)
        }
    } else {
        nth_after(line, c, from + 1, n)
    }
}

/// The column of the `n`-th occurrence of `c` before the column `upto`,
/// counted from 1 and leftwards.
pub open spec fn nth_before(line: Seq<char>, c: char, upto: int, n: int) -> Option<int>
    decreases upto,
{
    if n <= 0 || upto <= 0 || upto > line.len() {
        None
    } else if line[upto - 1] == c {
        if n == 1 {
            Some(upto - 1)
        } else {
            nth_before(line, c, upto - 1, n - 1)
        }
    } else {
        nth_before(line, c, upto - 1, n)
    }
}

/// The number of occurrences of `c` in the columns from `a` up to `b`.
pub open spec fn occurrences(line: Seq<char>, c: char, a: int, b: int) -> int
    decreases b - a,
{
    if a >= b || a < 0 || b > line.len() {
        0
    } else if line[b - 1] == c {
        occurrences(line, c, a, b - 1) + 1
    } else {
        occurrences(line, c, a, b - 1)
    }
}

/// The character `c` with the case of an ASCII letter inverted.
pub fn invert(c: char) -> (r: char)
    ensures
        r == flip_case(c),
{
    if 'a' <= c && c <= 'z' {
        ((c as u8) - 32) as char
    } else if 'A' <= c && c <= 'Z' {
        ((c as u8) + 32) as char
    } else {
        c
    }
}

} // verus!
