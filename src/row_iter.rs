//! Position bookkeeping for reading the rows of a materialized table.

use vstd::prelude::*;

verus! {

/// Walks the rows of a table stored back to back: each row's index is the
/// byte offset at which it starts.
#[derive(Debug, Clone, Copy, PartialEq, Eq, Structural)]
pub struct RowIter {
    pub position: usize,
    pub rows_remaining: u64,
}

impl RowIter {
    /// An iterator over `num_rows` rows starting at byte `start`.
    pub fn new(start: usize, num_rows: u64) -> (r: RowIter)
        ensures
            r.position == start,
            r.rows_remaining == num_rows,
    {
        RowIter { position: start, rows_remaining: num_rows }
    }

    /// Takes the next row, `row_len` bytes long: returns its index, or `None`
    /// when no rows remain.
    pub fn next(&mut self, row_len: usize) -> (r: Option<usize>)
        requires
            old(self).rows_remaining > 0 ==> old(self).position + row_len <= usize::MAX,
        ensures
            old(self).rows_remaining == 0 ==> r is None && *final(self) == *old(self),
            old(self).rows_remaining > 0 ==> r == Some(old(self).position)
                && final(self).position == old(self).position + row_len
                && final(self).rows_remaining == old(self).rows_remaining - 1,
    {
        if self.rows_remaining == 0 {
            return None;
        }
        let index = self.position;
        self.position = self.position + row_len;
        self.rows_remaining = self.rows_remaining - 1;
        Some(index)
    }

    /// The exact number of rows left, as bounds; saturated at `usize::MAX`.
    pub fn size_hint(&self) -> (r: (usize, Option<usize>))
        ensures
            r.0 as int == if self.rows_remaining > usize::MAX { usize::MAX as int } else { self.rows_remaining as int },
            r.1 == Some(r.0),
    {
        let n: usize = if self.rows_remaining > usize::MAX as u64 { usize::MAX } else { self.rows_remaining as usize };
        (n, Some(n))
    }
}

} // verus!
