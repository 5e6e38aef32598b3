use vstd::prelude::*;
use crate::buffer::{line_len, Buffer};

verus! {

/// A position in the buffer: zero-based row (line index) and zero-based
/// column (byte offset within that row).
///
/// Every movement method returns a brand-new cursor, re-clamped against
/// the buffer it was given; nothing is mutated in place.
#[derive(Clone, Copy, PartialEq, Eq, Structural, Debug)]
pub struct Cursor {
    pub row: usize,
    pub col: usize,
}

/// The row a cursor lands on after clamping: the last valid row when the
/// requested row runs past the end, row 0 when the buffer is empty or the
/// requested row is negative.
pub open spec fn clamp_row_spec(buf: Seq<Seq<u8>>, row: int) -> int {
    if buf.len() == 0 {
        0
    } else if row >= buf.len() {
        buf.len() - 1
    } else if row < 0 {
        0
    } else {
        row
    }
}

/// The column a cursor lands on after clamping against line `row`: at most
/// one position past the last byte of the line (the append position), and
/// never negative.
pub open spec fn clamp_col_spec(buf: Seq<Seq<u8>>, row: int, col: int) -> int {
    if col > line_len(buf, row) {
        line_len(buf, row)
    } else if col < 0 {
        0
    } else {
        col
    }
}

/// Full clamp: first the row is clamped against the buffer, then the
/// column is clamped against the length of the resulting row.
pub open spec fn clamp_spec(buf: Seq<Seq<u8>>, row: int, col: int) -> (int, int) {
    let r = clamp_row_spec(buf, row);
    (r, clamp_col_spec(buf, r, col))
}

/// A cursor position that clamping would leave unchanged: on a valid row
/// (row 0 when the buffer is empty), with the column at most one past the
/// end of that row.
pub open spec fn cursor_in_bounds(buf: Seq<Seq<u8>>, row: int, col: int) -> bool {
    &&& 0 <= row
    &&& 0 <= col
    &&& if buf.len() == 0 {
        row == 0
    } else {
        row < buf.len()
    }
    &&& col <= line_len(buf, row)
}

/// Clamping always yields an in-bounds position.
pub proof fn lemma_clamp_in_bounds(buf: Seq<Seq<u8>>, row: int, col: int)
    ensures
        cursor_in_bounds(buf, clamp_spec(buf, row, col).0, clamp_spec(buf, row, col).1),
{
}

/// An in-bounds position is a fixed point of clamping.
pub proof fn lemma_clamp_fixed_point(buf: Seq<Seq<u8>>, row: int, col: int)
    requires
        cursor_in_bounds(buf, row, col),
    ensures
        clamp_spec(buf, row, col) == (row, col),
{
}

/// Clamping is idempotent: re-clamping an already-clamped position yields
/// the same position.
pub proof fn lemma_clamp_idempotent(buf: Seq<Seq<u8>>, row: int, col: int)
    ensures
        clamp_spec(buf, clamp_spec(buf, row, col).0, clamp_spec(buf, row, col).1)
            == clamp_spec(buf, row, col),
{
    lemma_clamp_in_bounds(buf, row, col);
    lemma_clamp_fixed_point(buf, clamp_spec(buf, row, col).0, clamp_spec(buf, row, col).1);
}

/// Moving up saturates at the top: from row 0 the result row is again 0,
/// whatever the buffer and column are.
pub proof fn lemma_up_saturates(buf: Seq<Seq<u8>>, col: int)
    ensures
        clamp_spec(buf, 0 - 1, col).0 == 0,
{
}

/// Moving left saturates at the start of the line: from column 0 the
/// result column is again 0, whatever the buffer and row are.
pub proof fn lemma_left_saturates(buf: Seq<Seq<u8>>, row: int)
    ensures
        clamp_spec(buf, row, 0 - 1).1 == 0,
{
}

impl Cursor {
    pub fn new() -> (r: Cursor)
        ensures
            r.row == 1,
            r.col == 1,
    {
        Cursor { row: 1, col: 1 }
    }

    /// Constrain this position to the bounds implied by `buffer`.
    pub fn clamp(&self, buffer: &Buffer) -> (r: Cursor)
        ensures
            (r.row as int, r.col as int) == clamp_spec(buffer@, self.row as int, self.col as int),
            cursor_in_bounds(buffer@, r.row as int, r.col as int),
    {
        let n = buffer.num_lines();
        let row = if n == 0 {
            0
        } else if self.row >= n {
            n - 1
        } else {
            self.row
        };
        let nc = buffer.num_chars(row);
        let col = if self.col > nc {
            nc
        } else {
            self.col
        };
        Cursor { row, col }
    }

    /// One row up (saturating at row 0), then clamp.
    pub fn up(&self, buffer: &Buffer) -> (r: Cursor)
        ensures
            (r.row as int, r.col as int) == clamp_spec(
                buffer@,
                self.row as int - 1,
                self.col as int,
            ),
            cursor_in_bounds(buffer@, r.row as int, r.col as int),
    {
        let row = if self.row == 0 {
            0
        } else {
            self.row - 1
        };
        Cursor { row, col: self.col }.clamp(buffer)
    }

    /// One row down, then clamp.
    pub fn down(&self, buffer: &Buffer) -> (r: Cursor)
        ensures
            (r.row as int, r.col as int) == clamp_spec(
                buffer@,
                self.row as int + 1,
                self.col as int,
            ),
            cursor_in_bounds(buffer@, r.row as int, r.col as int),
    {
        let n = buffer.num_lines();
        let row = if n == 0 {
            0
        } else if self.row >= n - 1 {
            n - 1
        } else {
            self.row + 1
        };
        Cursor { row, col: self.col }.clamp(buffer)
    }

    /// One column left (saturating at column 0), then clamp.
    pub fn left(&self, buffer: &Buffer) -> (r: Cursor)
        ensures
            (r.row as int, r.col as int) == clamp_spec(
                buffer@,
                self.row as int,
                self.col as int - 1,
            ),
            cursor_in_bounds(buffer@, r.row as int, r.col as int),
    {
        let col = if self.col == 0 {
            0
        } else {
            self.col - 1
        };
        Cursor { row: self.row, col }.clamp(buffer)
    }

    /// One column right, then clamp.
    pub fn right(&self, buffer: &Buffer) -> (r: Cursor)
        ensures
            (r.row as int, r.col as int) == clamp_spec(
                buffer@,
                self.row as int,
                self.col as int + 1,
            ),
            cursor_in_bounds(buffer@, r.row as int, r.col as int),
    {
        let n = buffer.num_lines();
        let rowc = if n == 0 {
            0
        } else if self.row >= n {
            n - 1
        } else {
            self.row
        };
        let nc = buffer.num_chars(rowc);
        let col = if self.col >= nc {
            nc
        } else {
            self.col + 1
        };
        Cursor { row: self.row, col }.clamp(buffer)
    }

    /// Set the column directly, without clamping; the caller is
    /// responsible for the new column being legal for its row.
    pub fn move_to_col(&self, col: usize) -> (r: Cursor)
        ensures
            r.row == self.row,
            r.col == col,
    {
        Cursor { row: self.row, col }
    }
}

} // verus!
