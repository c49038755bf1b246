//! Keys and instructions: the unit that the dispatcher consumes.

use vstd::prelude::*;

verus! {

/// One key press: a character, or a named control key.
#[derive(Clone, Copy, Debug, PartialEq, Eq, Structural)]
pub enum Key {
    /// A character key; the newline key is `Char('\n')`.
    Char(char),
    /// The backspace key.
    Backspace,
    /// The escape key.
    Escape,
    /// A key without a meaning of its own.
    Null,
}

/// The repeat count typed before a key.
#[derive(Clone, Copy, Debug, PartialEq, Eq, Structural)]
pub enum Parameter {
    /// A count was typed.
    Int(usize),
    /// No count was typed.
    Null,
}

impl Parameter {
    /// The effective repeat count: the count typed, or 1 where none was.
    pub open spec fn count(self) -> int {
        match self {
            Parameter::Int(n) => n as int,
            Parameter::Null => 1,
        }
    }

    /// The effective repeat count: the count typed, or 1 where none was.
    pub fn d(self) -> (n: usize)
        ensures
            n == self.count(),
    {
        match self {
            Parameter::Int(n) => n,
            Parameter::Null => 1,
        }
    }
}

/// A command: the key that names it.
#[derive(Clone, Copy, Debug, PartialEq, Eq, Structural)]
pub struct Cmd {
    /// The key pressed.
    pub key: Key,
}

/// An instruction: a repeat count and a command.
#[derive(Clone, Copy, Debug, PartialEq, Eq, Structural)]
pub struct Inst(pub Parameter, pub Cmd);

impl Inst {
    /// The instruction for `key` with no count typed.
    pub fn plain(key: Key) -> (inst: Inst)
        ensures
            inst == Inst(Parameter::Null, Cmd { key }),
    {
        Inst(Parameter::Null, Cmd { key })
    }

    /// The instruction for `key` with the count `n` typed before it.
    pub fn counted(n: usize, key: Key) -> (inst: Inst)
        ensures
            inst == Inst(Parameter::Int(n), Cmd { key }),
    {
        Inst(Parameter::Int(n), Cmd { key })
    }
}

/// The value of the decimal digit `c`, if `c` is one.
pub open spec fn digit_of(c: char) -> Option<int> {
    if '0' <= c <= '9' {
        Some(c as int - '0' as int)
    } else {
        None
    }
}

/// The value of the decimal digit `c`, if `c` is one.
pub fn digit(c: char) -> (d: Option<usize>)
    ensures
        match d {
            Some(v) => digit_of(c) == Some(v as int) && v <= 9,
            None => digit_of(c).is_none(),
        },
{
    if '0' <= c && c <= '9' {
        Some((c as u32 - '0' as u32) as usize)
    } else {
        None
    }
}

impl Parameter {
    /// The count with the digit `d` typed behind it; the largest count
    /// there is, where that would be passed.
    pub open spec fn appended(self, d: int) -> Parameter {
        let so_far = match self {
            Parameter::Int(n) => n as int,
            Parameter::Null => 0,
        };
        if so_far * 10 + d > usize::MAX {
            Parameter::Int(usize::MAX)
        } else {
            Parameter::Int((so_far * 10 + d) as usize)
        }
    }

    /// The count with the digit `d` typed behind it; the largest count
    /// there is, where that would be passed.
    pub fn append(self, d: usize) -> (p: Parameter)
        requires
            d <= 9,
        ensures
            p == self.appended(d as int),
    {
        let so_far = match self {
            Parameter::Int(n) => n,
            Parameter::Null => 0,
        };
        match so_far.checked_mul(10) {
            Some(tens) => match tens.checked_add(d) {
                Some(n) => Parameter::Int(n),
                None => Parameter::Int(usize::MAX),
            },
            None => Parameter::Int(usize::MAX),
        }
    }
}

/// Puts keys together to instructions: the digits typed before a key are
/// its count.
#[derive(Clone, Copy, Debug, PartialEq, Eq, Structural)]
pub struct InstReader {
    /// The count typed so far.
    pub count: Parameter,
}

impl InstReader {
    /// A reader before the first key.
    pub fn new() -> (reader: InstReader)
        ensures
            reader.count == Parameter::Null,
    {
        InstReader { count: Parameter::Null }
    }

    /// The reader after `key`, and the instruction that `key` completes.
    /// Where counts are read (`counting`), a digit goes to the count and
    /// completes nothing. Any other key completes an instruction with
    /// the count typed so far, and the next count starts anew.
    pub open spec fn fed(self, key: Key, counting: bool) -> (InstReader, Option<Inst>) {
        match key {
            Key::Char(c) if counting && digit_of(c).is_some() => (
                InstReader { count: self.count.appended(digit_of(c).unwrap()) },
                None,
            ),
            _ => (InstReader { count: Parameter::Null }, Some(Inst(self.count, Cmd { key }))),
        }
    }

    /// Takes `key` in, and hands out the instruction that it completes.
    /// Where counts are read (`counting`), a digit goes to the count and
    /// completes nothing. Any other key completes an instruction with
    /// the count typed so far, and the next count starts anew.
    pub fn feed(&mut self, key: Key, counting: bool) -> (inst: Option<Inst>)
        ensures
            (*final(self), inst) == old(self).fed(key, counting),
    {
        if counting {
            if let Key::Char(c) = key {
                if let Some(d) = digit(c) {
                    self.count = self.count.append(d);
                    return None;
                }
            }
        }
        let inst = Inst(self.count, Cmd { key });
        self.count = Parameter::Null;
        Some(inst)
    }
}

/// The modifier keys held while an instruction is dispatched.
#[derive(Clone, Copy, Debug, PartialEq, Eq, Structural)]
pub struct KeyState {
    /// Shift is held.
    pub shift: bool,
    /// Alt is held.
    pub alt: bool,
}

} // verus!
