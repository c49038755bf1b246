//! What holds of the model whatever the state and the instruction.

use vstd::prelude::*;
use crate::cursor::{Pending, Purpose};
use crate::key::{Cmd, Inst, Key, KeyState, Parameter};
use crate::mode::{InsertOptions, Mode};
use crate::model::{
    bound, cursor_limit_message, cursor_underflow_message, limit, max_cursors, Action, EditorView,
    Target,
};
use crate::redraw::Redraw;
use crate::text::{nth_after, nth_before, occurrences, Point, Text};

verus! {

/// Whether the place `p` lies on a row of the text and on a column that a
/// cursor may take there.
pub open spec fn within(text: Text, p: Point, tight: bool) -> bool {
    0 <= p.1 < text.len() && 0 <= p.0 <= limit(text[p.1], tight)
}

/// The state after the instructions `insts`, handed in one after the
/// other.
pub open spec fn run(v: EditorView, insts: Seq<Inst>) -> EditorView
    decreases insts.len(),
{
    if insts.len() == 0 {
        v
    } else {
        run(v, insts.drop_last()).resume(insts.last()).0
    }
}

/// A place moved into a text lies within it: on one of its rows, and on
/// a column that a cursor may take on that row.
pub proof fn law_bound_within(text: Text, p: Point, tight: bool)
    requires
        text.len() >= 1,
    ensures
        within(text, bound(text, p, tight), tight),
        within(text, bound(text, p, tight), false),
{
}

/// Moving every cursor into the text restores the invariant.
pub proof fn lemma_normalize_wf(v: EditorView)
    requires
        v.shaped(),
    ensures
        v.normalize().wf(),
{
}

/// A motion with a count of at least 1 leads to a place within the text;
/// a tight one leads onto a character, or to column 0 of an empty line.
pub proof fn law_motion_within_text(v: EditorView, inst: Inst, tight: bool)
    requires
        v.wf(),
        inst.0.count() >= 1,
    ensures
        v.target(inst, tight) matches Target::To(p) ==> within(v.text, p, tight),
{
}

/// A motion with any count leads to a place on which a cursor may stand.
pub proof fn lemma_motion_in_text(v: EditorView, inst: Inst, tight: bool)
    requires
        v.wf(),
    ensures
        v.target(inst, tight) matches Target::To(p) ==> within(v.text, p, false),
{
}

/// Whether `c` is a key of Normal mode that only moves the cursor, given
/// the count `para`: `g` is one with a count only.
pub open spec fn is_motion_key(c: char, para: Parameter) -> bool {
    c == 'h' || c == 'j' || c == 'k' || c == 'l' || c == 'J' || c == 'K' || c == 'L' || c == 'H'
        || c == 'G' || (c == 'g' && para is Int)
}

/// A motion key of Normal mode with a count of at least 1 leaves the
/// cursor within the text: on a character of its row, or in column 0 of
/// an empty row; after `L`, at most one past the last character. It
/// changes nothing but the active cursor's place and the repaint asked
/// for, which spans the place before and the place after.
pub proof fn law_normal_motion_clamped(v: EditorView, c: char, para: Parameter)
    requires
        v.wf(),
        is_motion_key(c, para),
        para.count() >= 1,
    ensures
        ({
            let after = v.normal_key(c, para).0;
            &&& within(v.text, after.pos(), c != 'L')
            &&& after == v.goto(after.pos()).with_redraw(Redraw::Cursor(v.pos(), after.pos()))
            &&& v.normal_key(c, para).1 == Action::Done
        }),
{
}

/// An instruction without a count is the same motion as with the count 1.
pub proof fn law_absent_count_is_one(v: EditorView, cmd: Cmd, tight: bool)
    ensures
        Parameter::Null.count() == 1,
        v.target(Inst(Parameter::Null, cmd), tight) == v.target(Inst(Parameter::Int(1), cmd), tight),
{
}

/// A branch keeps the invariant and adds one cursor; at 255 cursors it
/// changes nothing but the message and the repaint asked for.
pub proof fn law_branch(v: EditorView)
    requires
        v.wf(),
    ensures
        v.branch().wf(),
        v.cursors.len() < max_cursors() ==> v.branch().cursors.len() == v.cursors.len() + 1,
        v.cursors.len() == max_cursors() ==> v.branch() == (EditorView {
            status: cursor_limit_message(),
            redraw: Redraw::StatusBar,
            ..v
        }),
{
}

/// The removal of a cursor keeps the invariant and takes one cursor away;
/// with one cursor it changes nothing but the message and the repaint
/// asked for.
pub proof fn law_delete_cursor(v: EditorView)
    requires
        v.wf(),
    ensures
        v.delete_cursor().wf(),
        v.cursors.len() > 1 ==> v.delete_cursor().cursors.len() == v.cursors.len() - 1,
        v.cursors.len() == 1 ==> v.delete_cursor() == (EditorView {
            status: cursor_underflow_message(),
            redraw: Redraw::StatusBar,
            ..v
        }),
{
}

/// Completing a command keeps the invariant.
pub proof fn lemma_finish_wf(v: EditorView, purpose: Purpose, hit: Option<Point>)
    requires
        v.wf(),
        hit matches Some(p) ==> within(v.text, p, false),
    ensures
        v.finish(purpose, hit).wf(),
{
    if let Some(p) = hit {
        lemma_remove_rb_wf(v.with_pending(Pending::Idle), p);
    }
}

/// A removal by motion keeps the invariant.
pub proof fn lemma_remove_rb_wf(v: EditorView, to: Point)
    requires
        v.wf(),
    ensures
        v.remove_rb(to).wf(),
{
}

/// A key in an Insert mode keeps the invariant.
pub proof fn lemma_insert_wf(v: EditorView, key: Key, opt: InsertOptions)
    requires
        v.wf(),
    ensures
        v.insert(key, opt).wf(),
{
}

/// A motion taken for a command keeps the invariant.
pub proof fn lemma_begin_motion_wf(v: EditorView, purpose: Purpose, inst: Inst)
    requires
        v.wf(),
    ensures
        v.begin_motion(purpose, inst).0.wf(),
{
    let tight = purpose != Purpose::Delete;
    lemma_motion_in_text(v, inst, tight);
    match v.target(inst, tight) {
        Target::To(p) => lemma_finish_wf(v, purpose, Some(p)),
        Target::Find { .. } => {},
        Target::Nothing => lemma_finish_wf(v, purpose, None),
    }
}

/// Moving the cursor to a place in the text keeps the invariant.
pub proof fn lemma_moved_wf(v: EditorView, p: Point)
    requires
        v.wf(),
        within(v.text, p, false),
    ensures
        v.moved(p).wf(),
        v.goto(p).wf(),
{
}

/// The removal of a character keeps the invariant.
pub proof fn lemma_delete_wf(v: EditorView)
    requires
        v.wf(),
    ensures
        v.delete().wf(),
        v.delete().tighten().wf(),
        v.backspace().wf(),
        v.backspace().tighten().wf(),
{
    lemma_normalize_wf(v.with_line(v.line().remove(v.cursor().x)));
    lemma_normalize_wf(v.with_line(v.line().remove(v.cursor().x - 1)).goto(v.left(1)));
}

/// Opening a line keeps the invariant.
pub proof fn lemma_open_line_wf(v: EditorView)
    requires
        v.wf(),
    ensures
        v.open_line().wf(),
{
}

/// Inverting the case keeps the invariant.
pub proof fn lemma_invert_chars_wf(v: EditorView, n: int)
    requires
        v.wf(),
    ensures
        v.invert_chars(n).wf(),
{
}

/// A character key in Normal mode keeps the invariant.
pub proof fn lemma_normal_key_wf(v: EditorView, c: char, para: Parameter)
    requires
        v.wf(),
    ensures
        v.normal_key(c, para).0.wf(),
{
    let n = para.count();
    if c == 'a' {
        lemma_moved_wf(v, v.right(1, false));
    } else if c == 'o' {
        lemma_open_line_wf(v);
    } else if c == 'h' {
        lemma_moved_wf(v, v.left(n));
    } else if c == 'j' {
        lemma_moved_wf(v, v.down(n));
    } else if c == 'k' {
        lemma_moved_wf(v, v.up(n));
    } else if c == 'l' {
        lemma_moved_wf(v, v.right(n, true));
    } else if c == 'J' {
        lemma_moved_wf(v, v.down(15 * n));
    } else if c == 'K' {
        lemma_moved_wf(v, v.up(15 * n));
    } else if c == 'x' || c == 'X' {
        lemma_delete_wf(v);
    } else if c == 'L' {
        lemma_moved_wf(v, v.line_end(false));
    } else if c == 'H' {
        lemma_moved_wf(v, (0, v.cursor().y));
    } else if c == 'G' {
        lemma_moved_wf(v, v.row_start(v.text.len() as int));
    } else if c == 'g' {
        if let Parameter::Int(row) = para {
            lemma_moved_wf(v, v.row_start(row as int));
        }
    } else if c == 'b' {
        law_branch(v);
    } else if c == 'B' {
        law_delete_cursor(v);
    } else if c == '~' {
        lemma_invert_chars_wf(v, n);
    }
}

/// A dispatched instruction keeps the invariant.
pub proof fn lemma_dispatch_wf(v: EditorView, inst: Inst)
    requires
        v.wf(),
    ensures
        v.dispatch(inst).0.wf(),
{
    lemma_begin_motion_wf(v, Purpose::Jump, inst);
    if let Key::Char(c) = inst.1.key {
        lemma_normal_key_wf(v, c, inst.0);
    }
    if let Mode::Primitive(crate::mode::PrimitiveMode::Insert(opt)) = v.mode() {
        lemma_insert_wf(v, inst.1.key, opt);
    }
}

/// Every instruction keeps the invariant of the editor: the text has a
/// line, there are from 1 to 255 cursors, the active index is valid, and
/// every cursor stands in the text.
pub proof fn law_step_keeps_invariant(v: EditorView, inst: Inst)
    requires
        v.wf(),
    ensures
        v.resume(inst).0.wf(),
        1 <= v.resume(inst).0.cursors.len() <= 255,
{
    lemma_dispatch_wf(v, inst);
    match v.pending {
        Pending::Motion(purpose) => lemma_begin_motion_wf(v, purpose, inst),
        Pending::Find { purpose, forward, n } => {
            if let Key::Char(c) = inst.1.key {
                lemma_occurrence_on_line(v, c, n as int, forward);
                match v.occurrence(c, n as int, forward) {
                    Some(x) => lemma_finish_wf(v, purpose, Some((x, v.cursor().y))),
                    None => lemma_finish_wf(v, purpose, None),
                }
            }
        },
        _ => {},
    }
}

/// After any sequence of instructions the invariant holds, and with it
/// the number of cursors lies between 1 and 255.
pub proof fn law_run_keeps_invariant(v: EditorView, insts: Seq<Inst>)
    requires
        v.wf(),
    ensures
        run(v, insts).wf(),
        1 <= run(v, insts).cursors.len() <= 255,
    decreases insts.len(),
{
    if insts.len() > 0 {
        law_run_keeps_invariant(v, insts.drop_last());
        law_step_keeps_invariant(run(v, insts.drop_last()), insts.last());
    }
}

/// An occurrence found to the right lies at or after the column where
/// the search began, on a character equal to the one looked for, with
/// `n - 1` occurrences between; none is found exactly where the line
/// holds fewer than `n` from there on.
pub proof fn law_nth_after(line: Seq<char>, c: char, from: int, n: int)
    requires
        0 <= from <= line.len(),
        n >= 1,
    ensures
        match nth_after(line, c, from, n) {
            Some(x) => from <= x < line.len() && line[x] == c && occurrences(line, c, from, x) == n - 1,
            None => occurrences(line, c, from, line.len() as int) < n,
        },
    decreases line.len() - from,
{
    if from < line.len() {
        assert(occurrences(line, c, from, from) == 0);
        assert(occurrences(line, c, from, from + 1) == if line[from] == c {
            1int
        } else {
            0int
        });
        if line[from] == c {
            if n > 1 {
                law_nth_after(line, c, from + 1, n - 1);
                match nth_after(line, c, from + 1, n - 1) {
                    Some(x) => lemma_occurrences_split(line, c, from, from + 1, x),
                    None => lemma_occurrences_split(line, c, from, from + 1, line.len() as int),
                }
            }
        } else {
            law_nth_after(line, c, from + 1, n);
            match nth_after(line, c, from + 1, n) {
                Some(x) => lemma_occurrences_split(line, c, from, from + 1, x),
                None => lemma_occurrences_split(line, c, from, from + 1, line.len() as int),
            }
        }
    }
}

/// An occurrence found to the left lies before the column where the
/// search began, on a character equal to the one looked for, with `n - 1`
/// occurrences between; none is found exactly where the line holds fewer
/// than `n` before that column.
pub proof fn law_nth_before(line: Seq<char>, c: char, upto: int, n: int)
    requires
        0 <= upto <= line.len(),
        n >= 1,
    ensures
        match nth_before(line, c, upto, n) {
            Some(x) => 0 <= x < upto && line[x] == c && occurrences(line, c, x + 1, upto) == n - 1,
            None => occurrences(line, c, 0, upto) < n,
        },
    decreases upto,
{
    if upto > 0 {
        if line[upto - 1] == c {
            if n > 1 {
                law_nth_before(line, c, upto - 1, n - 1);
            }
        } else {
            law_nth_before(line, c, upto - 1, n);
        }
    }
}

/// The occurrences in a range are those in its two parts.
pub proof fn lemma_occurrences_split(line: Seq<char>, c: char, a: int, m: int, b: int)
    requires
        0 <= a <= m <= b <= line.len(),
    ensures
        occurrences(line, c, a, b) == occurrences(line, c, a, m) + occurrences(line, c, m, b),
    decreases b - m,
{
    if m < b {
        lemma_occurrences_split(line, c, a, m, b - 1);
    }
}

/// An occurrence found lies on a character of the cursor's line.
pub proof fn lemma_occurrence_on_line(v: EditorView, c: char, n: int, forward: bool)
    requires
        v.wf(),
    ensures
        v.occurrence(c, n, forward) matches Some(x) ==> 0 <= x < v.line().len(),
{
    if n >= 1 {
        if forward {
            if v.cursor().x + 1 <= v.line().len() {
                law_nth_after(v.line(), c, v.cursor().x + 1, n);
            }
        } else {
            law_nth_before(v.line(), c, v.cursor().x, n);
        }
    }
}

/// In Normal mode, from a column with a character on either side, `h`
/// and then `l` lead back to where the cursor stood, and so do `l` and
/// then `h`.
pub proof fn law_left_right_round_trip(v: EditorView)
    requires
        v.wf(),
        v.pending == Pending::Idle,
        !v.key_state.shift && !v.key_state.alt,
        v.mode() == Mode::normal(),
        0 < v.cursor().x < v.line().len() - 1,
    ensures
        v.resume(Inst(Parameter::Null, Cmd { key: Key::Char('h') })).0.resume(
            Inst(Parameter::Null, Cmd { key: Key::Char('l') }),
        ).0.pos() == v.pos(),
        v.resume(Inst(Parameter::Null, Cmd { key: Key::Char('l') })).0.resume(
            Inst(Parameter::Null, Cmd { key: Key::Char('h') }),
        ).0.pos() == v.pos(),
{
}

/// Shift and space leads to Normal mode from every mode, with any count;
/// from an Insert mode the cursor also moves one column to the left, or
/// stays in column 0; nothing is asked of the driver.
pub proof fn law_shift_space(v: EditorView, para: Parameter)
    requires
        v.wf(),
        v.key_state.shift,
    ensures
        ({
            let after = v.dispatch(Inst(para, Cmd { key: Key::Char(' ') })).0;
            &&& after.mode() == Mode::normal()
            &&& after.text == v.text
            &&& v.mode().is_insert() ==> after.pos() == (
                if v.cursor().x > 0 {
                    v.cursor().x - 1
                } else {
                    0
                },
                v.cursor().y,
            )
            &&& !v.mode().is_insert() ==> after.pos() == v.pos()
        }),
{
}

/// `i` in Normal mode and then Shift and space leave the text as it was
/// and the cursor in Normal mode on its row, one column to the left of
/// where it stood; a cursor that stood in column 0 stands where it stood.
pub proof fn law_insert_then_escape(v: EditorView, keys: KeyState)
    requires
        v.wf(),
        v.pending == Pending::Idle,
        !v.key_state.shift && !v.key_state.alt,
        v.mode() == Mode::normal(),
        keys.shift,
    ensures
        ({
            let entered = v.resume(Inst(Parameter::Null, Cmd { key: Key::Char('i') })).0;
            let held = EditorView { key_state: keys, ..entered };
            let after = held.resume(Inst(Parameter::Null, Cmd { key: Key::Char(' ') })).0;
            &&& entered.pos() == v.pos()
            &&& entered.text == v.text
            &&& after.text == v.text
            &&& after.mode() == Mode::normal()
            &&& after.pos() == v.left(1)
            &&& v.cursor().x == 0 ==> after.pos() == v.pos()
        }),
{
}

} // verus!
