use vstd::prelude::*;

verus! {

/// The interpreted meaning of one raw input byte. Produced once per loop
/// iteration and consumed exactly once.
#[derive(Clone, Copy, PartialEq, Eq, Structural, Debug)]
pub enum Command {
    NoOp,
    Quit,
    MoveUp,
    MoveDown,
    MoveLeft,
    MoveRight,
    SplitLine,
    Backspace,
    InsertChar(u8),
}

/// The byte-to-command mapping: Ctrl-Q quits, Ctrl-K/J/H/L move, carriage
/// return splits the line, DEL backspaces, and every other byte inserts
/// itself at the cursor.
pub open spec fn parse_spec(b: u8) -> Command {
    if b == 17 {
        Command::Quit
    } else if b == 11 {
        Command::MoveUp
    } else if b == 10 {
        Command::MoveDown
    } else if b == 8 {
        Command::MoveLeft
    } else if b == 12 {
        Command::MoveRight
    } else if b == 13 {
        Command::SplitLine
    } else if b == 127 {
        Command::Backspace
    } else {
        Command::InsertChar(b)
    }
}

/// Map one raw input byte to its command.
pub fn parse_input(b: u8) -> (c: Command)
    ensures
        c == parse_spec(b),
{
    match b {
        // Ctrl-Q
        17 => Command::Quit,
        // Ctrl-K
        11 => Command::MoveUp,
        // Ctrl-J
        10 => Command::MoveDown,
        // Ctrl-H
        8 => Command::MoveLeft,
        // Ctrl-L
        12 => Command::MoveRight,
        // carriage return
        13 => Command::SplitLine,
        // DEL
        127 => Command::Backspace,
        any => Command::InsertChar(any),
    }
}

} // verus!
