use vstd::prelude::*;
use crate::buffer::{delete_spec, insert_spec, split_spec, Buffer};
use crate::command::{parse_input, parse_spec, Command};
use crate::cursor::{clamp_spec, cursor_in_bounds, Cursor};

verus! {

/// One snapshot of the editing session: the buffer together with the
/// cursor that addresses it. Each step consumes one snapshot and produces
/// the next; nothing is mutated in place.
pub struct EditorState {
    pub buffer: Buffer,
    pub cursor: Cursor,
}

/// The state transition of one editor step, over the mathematical models:
/// given the buffer contents, the cursor position and a command, it yields
/// the next buffer, the next cursor position, and whether the session
/// stops. Commands whose edit would fall outside the buffer (a split or an
/// insert into an empty buffer, a backspace at column 0) leave the state
/// unchanged.
pub open spec fn apply_spec(buf: Seq<Seq<u8>>, row: int, col: int, cmd: Command) -> (
    Seq<Seq<u8>>,
    int,
    int,
    bool,
) {
    match cmd {
        Command::NoOp => (buf, row, col, false),
        Command::Quit => (buf, row, col, true),
        Command::MoveUp => {
            let p = clamp_spec(buf, row - 1, col);
            (buf, p.0, p.1, false)
        },
        Command::MoveDown => {
            let p = clamp_spec(buf, row + 1, col);
            (buf, p.0, p.1, false)
        },
        Command::MoveLeft => {
            let p = clamp_spec(buf, row, col - 1);
            (buf, p.0, p.1, false)
        },
        Command::MoveRight => {
            let p = clamp_spec(buf, row, col + 1);
            (buf, p.0, p.1, false)
        },
        Command::SplitLine => {
            if buf.len() == 0 {
                (buf, row, col, false)
            } else {
                let b2 = split_spec(buf, row, col);
                (b2, clamp_spec(b2, row + 1, col).0, 0, false)
            }
        },
        Command::Backspace => {
            if col > 0 {
                let b2 = delete_spec(buf, row, col - 1);
                let p = clamp_spec(b2, row, col - 1);
                (b2, p.0, p.1, false)
            } else {
                (buf, row, col, false)
            }
        },
        Command::InsertChar(ch) => {
            if buf.len() == 0 {
                (buf, row, col, false)
            } else {
                let b2 = insert_spec(buf, ch, row, col);
                let p = clamp_spec(b2, row, col + 1);
                (b2, p.0, p.1, false)
            }
        },
    }
}

impl EditorState {
    /// The cursor addresses a position that exists in the buffer (with the
    /// append position allowed). Every step preserves this.
    pub open spec fn wf(&self) -> bool {
        cursor_in_bounds(self.buffer@, self.cursor.row as int, self.cursor.col as int)
    }

    /// Build the initial state: the given cursor is clamped against the
    /// buffer so that the invariant holds from the start.
    pub fn new(buffer: Buffer, cursor: Cursor) -> (r: EditorState)
        ensures
            r.wf(),
            r.buffer@ == buffer@,
            (r.cursor.row as int, r.cursor.col as int) == clamp_spec(
                buffer@,
                cursor.row as int,
                cursor.col as int,
            ),
    {
        let clamped = cursor.clamp(&buffer);
        EditorState { buffer, cursor: clamped }
    }

    /// Apply one command, yielding the next state and whether the session
    /// stops.
    pub fn apply(self, cmd: Command) -> (r: (EditorState, bool))
        requires
            self.wf(),
        ensures
            (r.0.buffer@, r.0.cursor.row as int, r.0.cursor.col as int, r.1) == apply_spec(
                self.buffer@,
                self.cursor.row as int,
                self.cursor.col as int,
                cmd,
            ),
            r.0.wf(),
    {
        match cmd {
            Command::NoOp => (self, false),
            Command::Quit => (self, true),
            Command::MoveUp => {
                let c2 = self.cursor.up(&self.buffer);
                (EditorState { buffer: self.buffer, cursor: c2 }, false)
            },
            Command::MoveDown => {
                let c2 = self.cursor.down(&self.buffer);
                (EditorState { buffer: self.buffer, cursor: c2 }, false)
            },
            Command::MoveLeft => {
                let c2 = self.cursor.left(&self.buffer);
                (EditorState { buffer: self.buffer, cursor: c2 }, false)
            },
            Command::MoveRight => {
                let c2 = self.cursor.right(&self.buffer);
                (EditorState { buffer: self.buffer, cursor: c2 }, false)
            },
            Command::SplitLine => {
                if self.buffer.num_lines() == 0 {
                    (self, false)
                } else {
                    let b2 = self.buffer.split_line(self.cursor.row, self.cursor.col);
                    let c2 = self.cursor.down(&b2).move_to_col(0);
                    (EditorState { buffer: b2, cursor: c2 }, false)
                }
            },
            Command::Backspace => {
                if self.cursor.col > 0 {
                    let b2 = self.buffer.delete(self.cursor.row, self.cursor.col - 1);
                    let c2 = self.cursor.left(&b2);
                    (EditorState { buffer: b2, cursor: c2 }, false)
                } else {
                    (self, false)
                }
            },
            Command::InsertChar(ch) => {
                if self.buffer.num_lines() == 0 {
                    (self, false)
                } else {
                    let b2 = self.buffer.insert(ch, self.cursor.row, self.cursor.col);
                    let c2 = self.cursor.right(&b2);
                    (EditorState { buffer: b2, cursor: c2 }, false)
                }
            },
        }
    }

    /// Process one raw input byte: map it to its command and apply that.
    pub fn step(self, b: u8) -> (r: (EditorState, bool))
        requires
            self.wf(),
        ensures
            (r.0.buffer@, r.0.cursor.row as int, r.0.cursor.col as int, r.1) == apply_spec(
                self.buffer@,
                self.cursor.row as int,
                self.cursor.col as int,
                parse_spec(b),
            ),
            r.0.wf(),
    {
        let cmd = parse_input(b);
        self.apply(cmd)
    }
}

} // verus!
