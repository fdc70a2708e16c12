//! The compact row format of materialized registry tables.
//!
//! Fields are written back to back: a boolean or an enum tag as one byte, an
//! integer or a time (Unix seconds) as eight little-endian bytes, a text as
//! its length in four little-endian bytes followed by its UTF-8 bytes, and an
//! optional field as a presence byte followed by the field when present.

use vstd::prelude::*;

verus! {

/// The eight little-endian bytes of `n`.
pub open spec fn le_bytes(n: u64) -> Seq<u8> {
    seq![
        (n & 0xff) as u8, ((n >> 8) & 0xff) as u8, ((n >> 16) & 0xff) as u8, ((n >> 24) & 0xff) as u8,
        ((n >> 32) & 0xff) as u8, ((n >> 40) & 0xff) as u8, ((n >> 48) & 0xff) as u8, ((n >> 56) & 0xff) as u8,
    ]
}

/// The number whose little-endian bytes start at `at`.
pub open spec fn le_value(b: Seq<u8>, at: int) -> u64 {
    (b[at] as u64) | ((b[at + 1] as u64) << 8) | ((b[at + 2] as u64) << 16) | ((b[at + 3] as u64) << 24)
        | ((b[at + 4] as u64) << 32) | ((b[at + 5] as u64) << 40) | ((b[at + 6] as u64) << 48) | ((b[at + 7] as u64) << 56)
}

/// The four little-endian bytes of a text length.
pub open spec fn len_bytes(n: u32) -> Seq<u8> {
    seq![(n & 0xff) as u8, ((n >> 8) & 0xff) as u8, ((n >> 16) & 0xff) as u8, ((n >> 24) & 0xff) as u8]
}

pub open spec fn len_value(b: Seq<u8>, at: int) -> u32 {
    (b[at] as u32) | ((b[at + 1] as u32) << 8) | ((b[at + 2] as u32) << 16) | ((b[at + 3] as u32) << 24)
}

proof fn lemma_le_round_trip(n: u64)
    ensures
        le_value(le_bytes(n), 0) == n,
{
    let b = le_bytes(n);
    let (b0, b1, b2, b3, b4, b5, b6, b7) = (b[0], b[1], b[2], b[3], b[4], b[5], b[6], b[7]);
    assert(b0 == (n & 0xff) as u8 && b1 == ((n >> 8) & 0xff) as u8 && b2 == ((n >> 16) & 0xff) as u8
        && b3 == ((n >> 24) & 0xff) as u8 && b4 == ((n >> 32) & 0xff) as u8 && b5 == ((n >> 40) & 0xff) as u8
        && b6 == ((n >> 48) & 0xff) as u8 && b7 == ((n >> 56) & 0xff) as u8);
    assert(((((n & 0xff) as u8) as u64) | (((((n >> 8) & 0xff) as u8) as u64) << 8) | (((((n >> 16) & 0xff) as u8) as u64) << 16)
        | (((((n >> 24) & 0xff) as u8) as u64) << 24) | (((((n >> 32) & 0xff) as u8) as u64) << 32)
        | (((((n >> 40) & 0xff) as u8) as u64) << 40) | (((((n >> 48) & 0xff) as u8) as u64) << 48)
        | (((((n >> 56) & 0xff) as u8) as u64) << 56)) == n) by (bit_vector);
}

proof fn lemma_len_round_trip(n: u32)
    ensures
        len_value(len_bytes(n), 0) == n,
{
    let b = len_bytes(n);
    assert(b[0] == (n & 0xff) as u8 && b[1] == ((n >> 8) & 0xff) as u8 && b[2] == ((n >> 16) & 0xff) as u8
        && b[3] == ((n >> 24) & 0xff) as u8);
    assert(((((n & 0xff) as u8) as u32) | (((((n >> 8) & 0xff) as u8) as u32) << 8) | (((((n >> 16) & 0xff) as u8) as u32) << 16)
        | (((((n >> 24) & 0xff) as u8) as u32) << 24)) == n) by (bit_vector);
}

/// Appends fields to a row buffer.
pub struct RowWriter {
    pub buf: Vec<u8>,
}

impl RowWriter {
    pub fn new() -> (r: RowWriter)
        ensures
            r.buf@ == Seq::<u8>::empty(),
    {
        RowWriter { buf: Vec::new() }
    }

    pub fn push_bool(&mut self, b: bool)
        ensures
            final(self).buf@ == old(self).buf@.push(if b { 1u8 } else { 0u8 }),
    {
        self.buf.push(if b { 1 } else { 0 });
    }

    pub fn push_u8(&mut self, v: u8)
        ensures
            final(self).buf@ == old(self).buf@.push(v),
    {
        self.buf.push(v);
    }

    pub fn push_u64(&mut self, n: u64)
        ensures
            final(self).buf@ == old(self).buf@ + le_bytes(n),
    {
        self.buf.push((n & 0xff) as u8);
        self.buf.push(((n >> 8) & 0xff) as u8);
        self.buf.push(((n >> 16) & 0xff) as u8);
        self.buf.push(((n >> 24) & 0xff) as u8);
        self.buf.push(((n >> 32) & 0xff) as u8);
        self.buf.push(((n >> 40) & 0xff) as u8);
        self.buf.push(((n >> 48) & 0xff) as u8);
        self.buf.push(((n >> 56) & 0xff) as u8);
        assert(final(self).buf@ =~= old(self).buf@ + le_bytes(n));
    }

    /// A signed integer or a time, as its two's complement bits.
    pub fn push_i64(&mut self, n: i64)
        ensures
            final(self).buf@ == old(self).buf@ + le_bytes(n as u64),
    {
        self.push_u64(n as u64);
    }

    /// A text: its length, then its bytes.
    pub fn push_bytes(&mut self, bytes: &[u8])
        requires
            bytes@.len() <= u32::MAX,
        ensures
            final(self).buf@ == old(self).buf@ + len_bytes(bytes@.len() as u32) + bytes@,
    {
        let n = bytes.len() as u32;
        self.buf.push((n & 0xff) as u8);
        self.buf.push(((n >> 8) & 0xff) as u8);
        self.buf.push(((n >> 16) & 0xff) as u8);
        self.buf.push(((n >> 24) & 0xff) as u8);
        let ghost mid = self.buf@;
        assert(mid =~= old(self).buf@ + len_bytes(n));
        let mut i: usize = 0;
        while i < bytes.len()
            invariant
                i <= bytes@.len(),
                self.buf@ == mid + bytes@.subrange(0, i as int),
            decreases bytes@.len() - i,
        {
            self.buf.push(bytes[i]);
            i = i + 1;
            assert(self.buf@ =~= mid + bytes@.subrange(0, i as int));
        }
        assert(bytes@.subrange(0, bytes@.len() as int) =~= bytes@);
    }
}

/// Reads fields back from a row buffer, from `position` on.
pub struct RowReader<'a> {
    pub bytes: &'a [u8],
    pub position: usize,
}

impl<'a> RowReader<'a> {
    pub fn new(bytes: &'a [u8], position: usize) -> (r: RowReader<'a>)
        ensures
            r.bytes == bytes,
            r.position == position,
    {
        RowReader { bytes, position }
    }

    /// The current byte offset, which indexes the row about to be read.
    pub fn position(&self) -> (r: usize)
        ensures
            r == self.position,
    {
        self.position
    }

    /// A boolean: any non-zero byte is true. `None` past the end.
    pub fn read_bool(&mut self) -> (r: Option<bool>)
        ensures
            final(self).bytes == old(self).bytes,
            old(self).position < old(self).bytes@.len() ==> r == Some(old(self).bytes@[old(self).position as int] != 0)
                && final(self).position == old(self).position + 1,
            old(self).position >= old(self).bytes@.len() ==> r is None && final(self).position == old(self).position,
    {
        match self.read_u8() {
            Some(v) => Some(v != 0),
            None => None,
        }
    }

    pub fn read_u8(&mut self) -> (r: Option<u8>)
        ensures
            final(self).bytes == old(self).bytes,
            old(self).position < old(self).bytes@.len() ==> r == Some(old(self).bytes@[old(self).position as int])
                && final(self).position == old(self).position + 1,
            old(self).position >= old(self).bytes@.len() ==> r is None && final(self).position == old(self).position,
    {
        if self.position < self.bytes.len() {
            let v = self.bytes[self.position];
            self.position = self.position + 1;
            Some(v)
        } else {
            None
        }
    }

    pub fn read_u64(&mut self) -> (r: Option<u64>)
        ensures
            final(self).bytes == old(self).bytes,
            old(self).position + 8 <= old(self).bytes@.len() ==> r == Some(le_value(old(self).bytes@, old(self).position as int))
                && final(self).position == old(self).position + 8,
            old(self).position + 8 > old(self).bytes@.len() ==> r is None && final(self).position == old(self).position,
    {
        if self.bytes.len() < 8 || self.position > self.bytes.len() - 8 {
            return None;
        }
        let p = self.position;
        let b = self.bytes;
        let v = (b[p] as u64) | ((b[p + 1] as u64) << 8) | ((b[p + 2] as u64) << 16) | ((b[p + 3] as u64) << 24)
            | ((b[p + 4] as u64) << 32) | ((b[p + 5] as u64) << 40) | ((b[p + 6] as u64) << 48) | ((b[p + 7] as u64) << 56);
        self.position = p + 8;
        Some(v)
    }

    pub fn read_i64(&mut self) -> (r: Option<i64>)
        ensures
            final(self).bytes == old(self).bytes,
            old(self).position + 8 <= old(self).bytes@.len() ==> r == Some(le_value(old(self).bytes@, old(self).position as int) as i64)
                && final(self).position == old(self).position + 8,
            old(self).position + 8 > old(self).bytes@.len() ==> r is None && final(self).position == old(self).position,
    {
        match self.read_u64() {
            Some(v) => Some(v as i64),
            None => None,
        }
    }

    /// A text's bytes. `None`, leaving the position, when they run past the end.
    pub fn read_bytes(&mut self) -> (r: Option<Vec<u8>>)
        ensures
            final(self).bytes == old(self).bytes,
            ({
                let p = old(self).position as int;
                let b = old(self).bytes@;
                if p + 4 <= b.len() && p + 4 + len_value(b, p) <= b.len() {
                    r is Some && r->Some_0@ == b.subrange(p + 4, p + 4 + len_value(b, p))
                        && final(self).position == p + 4 + len_value(b, p)
                } else {
                    r is None && final(self).position == old(self).position
                }
            }),
    {
        if self.bytes.len() < 4 || self.position > self.bytes.len() - 4 {
            return None;
        }
        let p = self.position;
        let b = self.bytes;
        let n = (b[p] as u32) | ((b[p + 1] as u32) << 8) | ((b[p + 2] as u32) << 16) | ((b[p + 3] as u32) << 24);
        let start = p + 4;
        if n as usize > b.len() - start {
            return None;
        }
        let end = start + n as usize;
        let mut out: Vec<u8> = Vec::new();
        let mut i = start;
        while i < end
            invariant
                start <= i <= end,
                end <= b@.len(),
                out@ == b@.subrange(start as int, i as int),
            decreases end - i,
        {
            out.push(b[i]);
            i = i + 1;
            assert(out@ =~= b@.subrange(start as int, i as int));
        }
        self.position = end;
        Some(out)
    }
}

/// Reading back an integer that was written returns it.
pub proof fn lemma_u64_round_trip(before: Seq<u8>, n: u64)
    ensures
        le_value(before + le_bytes(n), before.len() as int) == n,
{
    let all = before + le_bytes(n);
    let at = before.len() as int;
    assert forall|k: int| 0 <= k < 8 implies all[at + k] == le_bytes(n)[k] by {}
    lemma_le_round_trip(n);
    assert(le_value(all, at) == le_value(le_bytes(n), 0));
}

/// Reading back a text that was written returns its bytes and ends after them.
pub proof fn lemma_bytes_round_trip(before: Seq<u8>, bytes: Seq<u8>)
    requires
        bytes.len() <= u32::MAX,
    ensures
        ({
            let all = before + len_bytes(bytes.len() as u32) + bytes;
            let p = before.len() as int;
            &&& len_value(all, p) == bytes.len()
            &&& all.subrange(p + 4, p + 4 + bytes.len()) == bytes
        }),
{
    let n = bytes.len() as u32;
    let all = before + len_bytes(n) + bytes;
    let p = before.len() as int;
    assert forall|k: int| 0 <= k < 4 implies all[p + k] == len_bytes(n)[k] by {}
    lemma_len_round_trip(n);
    assert(len_value(all, p) == len_value(len_bytes(n), 0));
    assert(all.subrange(p + 4, p + 4 + bytes.len()) =~= bytes);
}

} // verus!
