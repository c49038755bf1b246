//! The editor: a text buffer, the cursors on it, and what the dispatcher
//! leaves behind for the driver and the renderer.

use vstd::prelude::*;
use crate::buffer::Buffer;
use crate::cursor::{Cursor, Pending};
use crate::key::KeyState;
use crate::mode::{CommandMode, Mode};
use crate::model::{bound, in_text, settle, EditorView};
use crate::motion::bound_in;
use crate::redraw::{Redraw, RedrawTask};

verus! {

/// The status bar.
#[derive(Debug)]
pub struct StatusBar {
    /// The message shown.
    pub msg: String,
}

/// The editor's settings.
#[derive(Clone, Copy, Debug, PartialEq, Eq, Structural)]
pub struct Options {
    /// Whether a new line takes over the indentation of the one above.
    pub autoindent: bool,
}

/// The editor.
#[derive(Debug)]
pub struct Editor {
    pub(crate) buffer: Buffer,
    pub(crate) cursors: Vec<Cursor>,
    pub(crate) current_cursor: usize,
    pub(crate) key_state: KeyState,
    pub(crate) prompt: String,
    pub(crate) scroll_y: usize,
    pub(crate) status_bar: StatusBar,
    pub(crate) redraw_task: RedrawTask,
    pub(crate) options: Options,
    pub(crate) pending: Pending,
}

impl Editor {
    /// The state of the editor as plain values.
    pub open(crate) spec fn view(&self) -> EditorView {
        EditorView {
            text: self.buffer@,
            cursors: self.cursors@.map_values(|c: Cursor| c@),
            current: self.current_cursor as int,
            key_state: self.key_state,
            prompt: self.prompt@,
            scroll_y: self.scroll_y as int,
            status: self.status_bar.msg@,
            redraw: self.redraw_task@,
            autoindent: self.options.autoindent,
            pending: self.pending,
        }
    }

    /// The invariant of the editor.
    pub open spec fn wf(&self) -> bool {
        self@.wf()
    }

    /// An editor on `buffer`: one cursor at the start of the text in
    /// Normal mode, no modifier held, autoindent on, nothing to paint.
    pub fn new(buffer: Buffer) -> (editor: Editor)
        requires
            buffer.wf(),
        ensures
            editor.wf(),
            editor@.text == buffer@,
            editor@.cursors == seq![Cursor { x: 0, y: 0, mode: Mode::normal() }@],
            editor@.current == 0,
            editor@.key_state == (KeyState { shift: false, alt: false }),
            editor@.prompt == Seq::<char>::empty(),
            editor@.scroll_y == 0,
            editor@.status == Seq::<char>::empty(),
            editor@.redraw == Redraw::Null,
            editor@.autoindent,
            editor@.pending == Pending::Idle,
    {
        let mut cursors: Vec<Cursor> = Vec::new();
        cursors.push(Cursor { x: 0, y: 0, mode: Mode::Command(CommandMode::Normal) });
        let editor = Editor {
            buffer,
            cursors,
            current_cursor: 0,
            key_state: KeyState { shift: false, alt: false },
            prompt: String::new(),
            scroll_y: 0,
            status_bar: StatusBar { msg: String::new() },
            redraw_task: RedrawTask::Null,
            options: Options { autoindent: true },
            pending: Pending::Idle,
        };
        assert(editor@.cursors =~= seq![Cursor { x: 0, y: 0, mode: Mode::normal() }@]);
        editor
    }

    /// The active cursor.
    pub fn cursor(&self) -> (c: Cursor)
        requires
            self.wf(),
        ensures
            c@ == self@.cursor(),
            in_text(self@.text, c@),
    {
        self.cursors[self.current_cursor]
    }

    /// The place of the active cursor: column, then row.
    pub fn pos(&self) -> (p: (usize, usize))
        requires
            self.wf(),
        ensures
            (p.0 as int, p.1 as int) == self@.pos(),
    {
        let c = self.cursor();
        (c.x, c.y)
    }

    /// The column of the active cursor.
    pub fn x(&self) -> (x: usize)
        requires
            self.wf(),
        ensures
            x == self@.cursor().x,
    {
        self.cursor().x
    }

    /// The row of the active cursor.
    pub fn y(&self) -> (y: usize)
        requires
            self.wf(),
        ensures
            y == self@.cursor().y,
    {
        self.cursor().y
    }

    /// The mode of the active cursor.
    pub fn mode(&self) -> (mode: Mode)
        requires
            self.wf(),
        ensures
            mode == self@.mode(),
    {
        self.cursor().mode
    }

    /// The number of cursors.
    pub fn cursor_count(&self) -> (n: usize)
        requires
            self.wf(),
        ensures
            n == self@.cursors.len(),
            1 <= n <= 255,
    {
        self.cursors.len()
    }

    /// The index of the active cursor.
    pub fn current_cursor(&self) -> (i: usize)
        requires
            self.wf(),
        ensures
            i == self@.current,
            i < self@.cursors.len(),
    {
        self.current_cursor
    }

    /// The cursors, in order.
    pub fn cursors(&self) -> (all: Vec<Cursor>)
        requires
            self.wf(),
        ensures
            all@.map_values(|c: Cursor| c@) == self@.cursors,
    {
        let mut all: Vec<Cursor> = Vec::new();
        let mut i: usize = 0;
        while i < self.cursors.len()
            invariant
                i <= self.cursors@.len(),
                all@ == self.cursors@.take(i as int),
            decreases self.cursors@.len() - i,
        {
            all.push(self.cursors[i]);
            i += 1;
            assert(all@ =~= self.cursors@.take(i as int));
        }
        assert(all@ =~= self.cursors@);
        all
    }

    /// The text buffer.
    pub fn buffer(&self) -> (buffer: &Buffer)
        ensures
            buffer@ == self@.text,
    {
        &self.buffer
    }

    /// The modifier keys held.
    pub fn key_state(&self) -> (keys: KeyState)
        ensures
            keys == self@.key_state,
    {
        self.key_state
    }

    /// Records which modifier keys are held.
    pub fn set_key_state(&mut self, keys: KeyState)
        ensures
            final(self)@ == (EditorView { key_state: keys, ..old(self)@ }),
    {
        self.key_state = keys;
    }

    /// The text of the prompt line.
    pub fn prompt(&self) -> (text: String)
        ensures
            text@ == self@.prompt,
    {
        self.prompt.clone()
    }

    /// The message of the status bar.
    pub fn status(&self) -> (text: String)
        ensures
            text@ == self@.status,
    {
        self.status_bar.msg.clone()
    }

    /// The first row shown.
    pub fn scroll_y(&self) -> (row: usize)
        ensures
            row == self@.scroll_y,
    {
        self.scroll_y
    }

    /// The repaint asked for.
    pub fn redraw_task(&self) -> (task: RedrawTask)
        ensures
            task@ == self@.redraw,
    {
        self.redraw_task
    }

    /// Hands out the repaint asked for and leaves nothing to paint.
    pub fn take_redraw(&mut self) -> (task: RedrawTask)
        ensures
            task@ == old(self)@.redraw,
            final(self)@ == (EditorView { redraw: Redraw::Null, ..old(self)@ }),
    {
        let task = self.redraw_task;
        self.redraw_task = RedrawTask::Null;
        task
    }

    /// The input that a command begun earlier still waits for.
    pub fn pending(&self) -> (pending: Pending)
        ensures
            pending == self@.pending,
    {
        self.pending
    }

    /// Whether digits typed now are the count of the next instruction
    /// and no text: a command waits for its motion, or no command is
    /// under way and the next key is a command of Normal mode or, with
    /// Alt, a motion.
    pub fn reads_count(&self) -> (counting: bool)
        requires
            self.wf(),
        ensures
            counting == self@.reads_count(),
    {
        match self.pending {
            Pending::Motion(_) => true,
            Pending::Idle => {
                match self.mode() {
                    Mode::Command(CommandMode::Normal) => true,
                    _ => self.key_state.alt,
                }
            },
            _ => false,
        }
    }

    /// The settings.
    pub fn options(&self) -> (options: Options)
        ensures
            options.autoindent == self@.autoindent,
    {
        self.options
    }

    /// Switches autoindent on or off.
    pub fn set_autoindent(&mut self, on: bool)
        ensures
            final(self)@ == (EditorView { autoindent: on, ..old(self)@ }),
    {
        self.options.autoindent = on;
    }

    /// Moves the active cursor to the place in the text that is nearest
    /// to `p`: onto the nearest row, and not beyond one past the end of
    /// that row.
    pub fn goto(&mut self, p: (usize, usize))
        requires
            old(self).wf(),
        ensures
            final(self).wf(),
            final(self)@ == old(self)@.goto(bound(old(self)@.text, (p.0 as int, p.1 as int), false)),
    {
        let q = bound_in(&self.buffer, p, false);
        self.set_pos(q);
    }

    /// Puts `c` in the place of the active cursor, wherever `c` stands.
    pub(crate) fn put_cursor(&mut self, c: Cursor)
        requires
            old(self)@.shaped(),
        ensures
            final(self)@ == old(self)@.with_cursor(c@),
    {
        let i = self.current_cursor;
        self.cursors[i] = c;
        assert(self@.cursors =~= old(self)@.cursors.update(i as int, c@));
    }

    /// Puts `c`, which stands in the text, in the place of the active
    /// cursor.
    pub(crate) fn set_cursor(&mut self, c: Cursor)
        requires
            old(self).wf(),
            in_text(old(self)@.text, c@),
        ensures
            final(self).wf(),
            final(self)@ == old(self)@.with_cursor(c@),
    {
        self.put_cursor(c);
    }

    /// Moves every cursor into the text: onto the nearest row, and not
    /// beyond one past the end of that row.
    pub(crate) fn normalize(&mut self)
        requires
            old(self)@.shaped(),
        ensures
            final(self).wf(),
            final(self)@ == old(self)@.normalize(),
    {
        let n = self.cursors.len();
        let mut i: usize = 0;
        while i < n
            invariant
                old(self)@.shaped(),
                i <= n,
                n == self.cursors@.len(),
                n == old(self).cursors@.len(),
                self.buffer == old(self).buffer,
                self@ == (EditorView { cursors: self@.cursors, ..old(self)@ }),
                forall|j: int| 0 <= j < i ==> self.cursors@[j]@ == settle(self@.text, old(self).cursors@[j]@),
                forall|j: int| i <= j < n ==> self.cursors@[j] == old(self).cursors@[j],
            decreases n - i,
        {
            let c = self.cursors[i];
            let p = bound_in(&self.buffer, (c.x, c.y), false);
            self.cursors[i] = Cursor { x: p.0, y: p.1, mode: c.mode };
            i += 1;
        }
        assert(self@.cursors =~= old(self)@.normalize().cursors);
    }

    /// Moves the active cursor to `p`, which lies in the text.
    pub(crate) fn set_pos(&mut self, p: (usize, usize))
        requires
            old(self).wf(),
            p.1 < old(self)@.text.len(),
            p.0 <= old(self)@.text[p.1 as int].len(),
        ensures
            final(self).wf(),
            final(self)@ == old(self)@.goto((p.0 as int, p.1 as int)),
    {
        let mode = self.mode();
        self.set_cursor(Cursor { x: p.0, y: p.1, mode });
    }

    /// Puts the active cursor into the mode `mode`.
    pub(crate) fn set_mode(&mut self, mode: Mode)
        requires
            old(self).wf(),
        ensures
            final(self).wf(),
            final(self)@ == old(self)@.set_mode(mode),
    {
        let c = self.cursor();
        self.set_cursor(Cursor { x: c.x, y: c.y, mode });
    }
}

} // verus!
