use vstd::prelude::*;
use vstd::slice::{slice_subrange, slice_to_vec};

verus! {

/// The text being edited: an ordered sequence of lines, top row first.
/// Each line is a sequence of bytes; the column arguments of the edit
/// operations are byte offsets into a line.
///
/// Every mutation returns a brand-new buffer and leaves the receiver
/// untouched (value semantics).
pub struct Buffer {
    pub lines: Vec<Vec<u8>>,
}

impl View for Buffer {
    type V = Seq<Seq<u8>>;

    open spec fn view(&self) -> Seq<Seq<u8>> {
        Seq::new(self.lines@.len(), |i: int| self.lines@[i]@)
    }
}

/// Length of line `row`, or 0 when `row` is outside the buffer.
/// This is the defensive bound the cursor clamps against.
pub open spec fn line_len(buf: Seq<Seq<u8>>, row: int) -> int {
    if 0 <= row < buf.len() {
        buf[row].len() as int
    } else {
        0
    }
}

/// The buffer after inserting `ch` at offset `col` of line `row`.
pub open spec fn insert_spec(buf: Seq<Seq<u8>>, ch: u8, row: int, col: int) -> Seq<Seq<u8>> {
    buf.update(row, buf[row].insert(col, ch))
}

/// The buffer after removing the byte at offset `col` of line `row`.
pub open spec fn delete_spec(buf: Seq<Seq<u8>>, row: int, col: int) -> Seq<Seq<u8>> {
    buf.update(row, buf[row].remove(col))
}

/// The buffer after splitting line `row` at offset `col`: the row is
/// replaced by its two halves and all later rows shift down by one.
pub open spec fn split_spec(buf: Seq<Seq<u8>>, row: int, col: int) -> Seq<Seq<u8>> {
    buf.subrange(0, row) + seq![
        buf[row].subrange(0, col),
        buf[row].subrange(col, buf[row].len() as int),
    ] + buf.subrange(row + 1, buf.len() as int)
}

/// The buffer after joining lines `row` and `row + 1` into one line.
/// This is the conceptual inverse of `split_spec`.
pub open spec fn join_spec(buf: Seq<Seq<u8>>, row: int) -> Seq<Seq<u8>> {
    buf.subrange(0, row) + seq![buf[row] + buf[row + 1]] + buf.subrange(
        row + 2,
        buf.len() as int,
    )
}

/// Splitting a line and then joining the two halves at the same boundary
/// reproduces the original buffer exactly: the two rows a split makes
/// concatenate back to the split line, and the join undoes the split.
pub proof fn lemma_split_join_inverse(buf: Seq<Seq<u8>>, row: int, col: int)
    requires
        0 <= row < buf.len(),
        0 <= col <= line_len(buf, row),
    ensures
        split_spec(buf, row, col)[row] + split_spec(buf, row, col)[row + 1] == buf[row],
        join_spec(split_spec(buf, row, col), row) == buf,
{
    let s = split_spec(buf, row, col);
    assert(s[row] == buf[row].subrange(0, col));
    assert(s[row + 1] == buf[row].subrange(col, buf[row].len() as int));
    assert(s[row] + s[row + 1] =~= buf[row]);
    assert(join_spec(s, row) =~= buf);
}

/// Deleting at the offset where a byte was just inserted restores the
/// original buffer exactly.
pub proof fn lemma_insert_delete_inverse(buf: Seq<Seq<u8>>, ch: u8, row: int, col: int)
    requires
        0 <= row < buf.len(),
        0 <= col <= line_len(buf, row),
    ensures
        delete_spec(insert_spec(buf, ch, row, col), row, col) == buf,
{
    let ins = insert_spec(buf, ch, row, col);
    assert(ins[row].remove(col) =~= buf[row]);
    assert(delete_spec(ins, row, col) =~= buf);
}

/// A split grows the buffer by exactly one row; an insert or a delete
/// never changes the row count.
pub proof fn lemma_row_counts(buf: Seq<Seq<u8>>, ch: u8, row: int, col: int)
    requires
        0 <= row < buf.len(),
    ensures
        split_spec(buf, row, col).len() == buf.len() + 1,
        insert_spec(buf, ch, row, col).len() == buf.len(),
        delete_spec(buf, row, col).len() == buf.len(),
{
}

impl Buffer {
    pub fn new(lines: Vec<Vec<u8>>) -> (r: Buffer)
        ensures
            r.lines == lines,
            r@.len() == lines@.len(),
            forall|i: int| 0 <= i < lines@.len() ==> r@[i] == lines@[i]@,
    {
        Buffer { lines }
    }

    pub fn num_lines(&self) -> (n: usize)
        ensures
            n == self@.len(),
    {
        self.lines.len()
    }

    pub fn num_chars(&self, row: usize) -> (n: usize)
        ensures
            n as int == line_len(self@, row as int),
    {
        if row >= self.lines.len() {
            0
        } else {
            self.lines[row].len()
        }
    }

    /// Read-only access to one line, for rendering.
    pub fn line(&self, row: usize) -> (r: &Vec<u8>)
        requires
            row < self@.len(),
        ensures
            r@ == self@[row as int],
    {
        &self.lines[row]
    }

    /// A deep copy of the lines, so that mutations can build a new buffer
    /// without touching the old one.
    pub fn _clone_lines(&self) -> (r: Vec<Vec<u8>>)
        ensures
            r@.len() == self@.len(),
            forall|i: int| 0 <= i < r@.len() ==> r@[i]@ == self@[i],
    {
        let mut lines: Vec<Vec<u8>> = Vec::new();
        let mut i: usize = 0;
        while i < self.lines.len()
            invariant
                i <= self.lines.len(),
                lines@.len() == i,
                forall|j: int| 0 <= j < i ==> lines@[j]@ == self@[j],
            decreases self.lines.len() - i,
        {
            lines.push(slice_to_vec(self.lines[i].as_slice()));
            i = i + 1;
        }
        lines
    }

    pub fn insert(&self, character: u8, row: usize, col: usize) -> (r: Buffer)
        requires
            row < self@.len(),
            col <= line_len(self@, row as int),
        ensures
            r@ == insert_spec(self@, character, row as int, col as int),
            r@.len() == self@.len(),
    {
        let mut lines = self._clone_lines();
        let mut line = lines.remove(row);
        line.insert(col, character);
        lines.insert(row, line);
        let r = Buffer { lines };
        proof {
            assert(r@ =~= insert_spec(self@, character, row as int, col as int));
        }
        r
    }

    pub fn delete(&self, row: usize, col: usize) -> (r: Buffer)
        requires
            row < self@.len(),
            col < line_len(self@, row as int),
        ensures
            r@ == delete_spec(self@, row as int, col as int),
            r@.len() == self@.len(),
    {
        let mut lines = self._clone_lines();
        let mut line = lines.remove(row);
        line.remove(col);
        lines.insert(row, line);
        let r = Buffer { lines };
        proof {
            assert(r@ =~= delete_spec(self@, row as int, col as int));
        }
        r
    }

    pub fn split_line(&self, row: usize, col: usize) -> (r: Buffer)
        requires
            row < self@.len(),
            col <= line_len(self@, row as int),
        ensures
            r@ == split_spec(self@, row as int, col as int),
            r@.len() == self@.len() + 1,
    {
        let mut lines = self._clone_lines();
        let line = lines.remove(row);
        let head = slice_to_vec(slice_subrange(line.as_slice(), 0, col));
        let tail = slice_to_vec(slice_subrange(line.as_slice(), col, line.len()));
        lines.insert(row, tail);
        lines.insert(row, head);
        let r = Buffer { lines };
        proof {
            assert(r@ =~= split_spec(self@, row as int, col as int));
        }
        r
    }
}

} // verus!
