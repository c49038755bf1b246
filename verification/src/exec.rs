//! The instruction dispatcher: one instruction in, one change of the
//! editor out, and a word to the driver on what to do next.

use vstd::prelude::*;
use crate::cursor::{Pending, Purpose};
use crate::editor::Editor;
use crate::key::{Inst, Key, Parameter};
use crate::mode::{CommandMode, InsertMode, InsertOptions, Mode, PrimitiveMode};
use crate::model::Action;
use crate::motion::Motion;
use crate::redraw::RedrawTask;
use crate::strings::{pop_char, push_char};

verus! {

/// What the driver has to do after a dispatch.
#[derive(Clone, Debug, PartialEq, Eq)]
pub enum Outcome {
    /// The command is complete.
    Done,
    /// The command needs one more character: hand the next character key
    /// to the dispatcher.
    NeedChar,
    /// The command needs one more instruction: hand the next instruction
    /// to the dispatcher.
    NeedInst,
    /// The command is complete, and the prompt line held this command:
    /// run it.
    Invoke(String),
}

impl View for Outcome {
    type V = Action;

    open spec fn view(&self) -> Action {
        match *self {
            Outcome::Done => Action::Done,
            Outcome::NeedChar => Action::NeedChar,
            Outcome::NeedInst => Action::NeedInst,
            Outcome::Invoke(command) => Action::Invoke(command@),
        }
    }
}

impl Editor {
    /// Moves the cursor to `p` and asks for a repaint of the rows between
    /// its old place and `p`.
    pub fn moved(&mut self, p: (usize, usize))
        requires
            old(self).wf(),
            old(self).admits(p),
        ensures
            final(self).wf(),
            final(self)@ == old(self)@.moved((p.0 as int, p.1 as int)),
    {
        let before = self.pos();
        self.set_pos(p);
        self.redraw_task = RedrawTask::Cursor(before, p);
    }

    /// Completes a command that waited for a motion: `hit` is the place
    /// that the motion led to, if it led anywhere.
    pub fn finish(&mut self, purpose: Purpose, hit: Option<(usize, usize)>)
        requires
            old(self).wf(),
            hit matches Some(p) ==> old(self).admits(p),
        ensures
            final(self).wf(),
            final(self)@ == old(self)@.finish(
                purpose,
                match hit {
                    Some(p) => Some((p.0 as int, p.1 as int)),
                    None => None,
                },
            ),
    {
        self.pending = Pending::Idle;
        match purpose {
            Purpose::Jump => {
                if let Some(p) = hit {
                    self.set_pos(p);
                }
            },
            Purpose::Goto => {
                if let Some(p) = hit {
                    self.moved(p);
                }
            },
            Purpose::Delete => {
                if let Some(p) = hit {
                    self.remove_rb(p);
                }
            },
            Purpose::Scroll => {
                if let Some(p) = hit {
                    self.scroll_y = p.1;
                    self.set_pos(p);
                }
                self.redraw_task = RedrawTask::Full;
            },
        }
    }

    /// Takes `inst` as the motion of a command with the purpose
    /// `purpose`: completes the command where `inst` names a place or no
    /// motion at all, and asks for a character where it names a character
    /// search.
    pub fn begin_motion(&mut self, purpose: Purpose, inst: Inst) -> (out: Outcome)
        requires
            old(self).wf(),
        ensures
            final(self).wf(),
            final(self)@ == old(self)@.begin_motion(purpose, inst).0,
            out@ == old(self)@.begin_motion(purpose, inst).1,
    {
        let tight = match purpose {
            Purpose::Delete => false,
            _ => true,
        };
        match self.resolve(inst, tight) {
            Motion::To(p) => {
                self.finish(purpose, Some(p));
                Outcome::Done
            },
            Motion::Find { forward, n } => {
                self.pending = Pending::Find { purpose, forward, n };
                Outcome::NeedChar
            },
            Motion::Nothing => {
                self.finish(purpose, None);
                Outcome::Done
            },
        }
    }

    /// Handles the character key `c` with the count `para` in Normal
    /// mode.
    pub fn normal_key(&mut self, c: char, para: Parameter) -> (out: Outcome)
        requires
            old(self).wf(),
        ensures
            final(self).wf(),
            final(self)@ == old(self)@.normal_key(c, para).0,
            out@ == old(self)@.normal_key(c, para).1,
    {
        let n = para.d();
        if c == 'i' {
            self.set_mode(Mode::Primitive(PrimitiveMode::Insert(InsertOptions { mode: InsertMode::Insert })));
        } else if c == 'a' {
            let p = self.right(1, false);
            self.set_pos(p);
            self.set_mode(Mode::Primitive(PrimitiveMode::Insert(InsertOptions { mode: InsertMode::Insert })));
        } else if c == 'o' {
            self.open_line();
        } else if c == 'h' {
            let p = self.left(n);
            self.moved(p);
        } else if c == 'j' {
            let p = self.down(n);
            self.moved(p);
        } else if c == 'k' {
            let p = self.up(n);
            self.moved(p);
        } else if c == 'l' {
            let p = self.right(n, true);
            self.moved(p);
        } else if c == 'J' {
            let p = self.page_down(n);
            self.moved(p);
        } else if c == 'K' {
            let p = self.page_up(n);
            self.moved(p);
        } else if c == 'x' {
            self.delete();
            self.tighten();
        } else if c == 'X' {
            self.backspace();
            self.tighten();
        } else if c == 'L' {
            let p = self.line_end(false);
            self.moved(p);
        } else if c == 'H' {
            let p = (0, self.y());
            self.moved(p);
        } else if c == 'r' {
            self.pending = Pending::Replace;
            return Outcome::NeedChar;
        } else if c == 'R' {
            self.set_mode(Mode::Primitive(PrimitiveMode::Insert(InsertOptions { mode: InsertMode::Replace })));
        } else if c == 'd' {
            self.pending = Pending::Motion(Purpose::Delete);
            return Outcome::NeedInst;
        } else if c == 'G' {
            let p = self.row_start(self.buffer.len());
            self.moved(p);
        } else if c == 'g' {
            match para {
                Parameter::Int(row) => {
                    let p = self.row_start(row);
                    self.moved(p);
                },
                Parameter::Null => {
                    self.pending = Pending::Motion(Purpose::Goto);
                    return Outcome::NeedInst;
                },
            }
        } else if c == 'b' {
            self.branch_cursor();
        } else if c == 'B' {
            self.delete_cursor();
        } else if c == 't' {
            self.pending = Pending::Find { purpose: Purpose::Goto, forward: true, n };
            return Outcome::NeedChar;
        } else if c == 'f' {
            self.pending = Pending::Find { purpose: Purpose::Goto, forward: false, n };
            return Outcome::NeedChar;
        } else if c == ';' {
            self.set_mode(Mode::Primitive(PrimitiveMode::Prompt));
        } else if c == ' ' {
            self.next_cursor();
        } else if c == 'z' {
            self.pending = Pending::Motion(Purpose::Scroll);
            return Outcome::NeedInst;
        } else if c == 'Z' {
            self.scroll_near(3);
            self.redraw_task = RedrawTask::Full;
        } else if c == '~' {
            self.invert_chars(n);
        } else {
            let mut msg = "Unknown command: ".to_owned();
            push_char(&mut msg, c);
            self.report(msg);
        }
        Outcome::Done
    }

    /// Handles the key `key` in Prompt mode: a newline hands the prompt
    /// line out as a command, empties it and returns to Normal mode;
    /// backspace removes its last character; any other character is
    /// appended. Each of them asks for a repaint of the message line.
    pub fn prompt_key(&mut self, key: Key) -> (out: Outcome)
        requires
            old(self).wf(),
        ensures
            final(self).wf(),
            final(self)@ == old(self)@.prompt_key(key).0,
            out@ == old(self)@.prompt_key(key).1,
    {
        match key {
            Key::Char('\n') => {
                self.set_mode(Mode::Command(CommandMode::Normal));
                let command = self.prompt.clone();
                self.prompt = String::new();
                self.redraw_task = RedrawTask::StatusBar;
                Outcome::Invoke(command)
            },
            Key::Backspace => {
                pop_char(&mut self.prompt);
                self.redraw_task = RedrawTask::StatusBar;
                Outcome::Done
            },
            Key::Char(c) => {
                push_char(&mut self.prompt, c);
                self.redraw_task = RedrawTask::StatusBar;
                Outcome::Done
            },
            _ => {
                self.report("Unknown command".to_owned());
                Outcome::Done
            },
        }
    }

    /// Dispatches `inst` where no command is under way. The first rule
    /// that fits decides: Shift and space leaves the mode; Alt and space
    /// goes to the next cursor; Alt and any other key is a motion; else
    /// the active cursor's mode decides.
    pub fn dispatch(&mut self, inst: Inst) -> (out: Outcome)
        requires
            old(self).wf(),
        ensures
            final(self).wf(),
            final(self)@ == old(self)@.dispatch(inst).0,
            out@ == old(self)@.dispatch(inst).1,
    {
        let key = inst.1.key;
        let space = match key {
            Key::Char(' ') => true,
            _ => false,
        };
        if space && self.key_state.shift {
            self.escape();
            Outcome::Done
        } else if space && self.key_state.alt {
            self.next_cursor();
            Outcome::Done
        } else if self.key_state.alt {
            self.begin_motion(Purpose::Jump, inst)
        } else {
            match self.mode() {
                Mode::Command(CommandMode::Normal) => match key {
                    Key::Char(c) => self.normal_key(c, inst.0),
                    _ => {
                        self.report("Unknown command".to_owned());
                        Outcome::Done
                    },
                },
                Mode::Primitive(PrimitiveMode::Insert(opt)) => {
                    self.insert(key, opt);
                    Outcome::Done
                },
                Mode::Primitive(PrimitiveMode::Prompt) => self.prompt_key(key),
            }
        }
    }

    /// Executes an instruction. Where an earlier command still waits for
    /// a character or an instruction, `inst` is handed to that command;
    /// else `inst` is dispatched. The result says what the driver has to
    /// do before the next call.
    pub fn exec(&mut self, inst: Inst) -> (out: Outcome)
        requires
            old(self).wf(),
        ensures
            final(self).wf(),
            final(self)@ == old(self)@.resume(inst).0,
            out@ == old(self)@.resume(inst).1,
    {
        match self.pending {
            Pending::Idle => self.dispatch(inst),
            Pending::Replace => match inst.1.key {
                Key::Char(c) => {
                    self.pending = Pending::Idle;
                    self.replace(c);
                    Outcome::Done
                },
                _ => Outcome::NeedChar,
            },
            Pending::Motion(purpose) => match (purpose, inst.0) {
                (Purpose::Scroll, Parameter::Int(row)) => {
                    self.scroll_y = row;
                    self.redraw_task = RedrawTask::Full;
                    self.pending = Pending::Idle;
                    Outcome::Done
                },
                _ => self.begin_motion(purpose, inst),
            },
            Pending::Find { purpose, forward, n } => match inst.1.key {
                Key::Char(c) => {
                    let found = if forward {
                        self.next_ocur(c, n)
                    } else {
                        self.previous_ocur(c, n)
                    };
                    let hit = match found {
                        Some(x) => Some((x, self.y())),
                        None => None,
                    };
                    self.finish(purpose, hit);
                    Outcome::Done
                },
                _ => Outcome::NeedChar,
            },
        }
    }
}

} // verus!
