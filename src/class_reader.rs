use vstd::prelude::*;

use crate::bytes::{be16, be32, be64, load_be16, load_be32, load_be64};
use crate::error::DecodeError;

verus! {

/// A forward-only big-endian cursor over the bytes of one class file.
pub struct Reader {
    pub content: Vec<u8>,
    pub cursor: usize,
}

/// The `n` big-endian `u16` values that follow position `i` of `s`.
pub open spec fn u16_run(s: Seq<u8>, i: int, n: nat) -> Seq<u16> {
    Seq::new(n, |k: int| be16(s, i + 2 * k) as u16)
}

impl Reader {
    /// Whether `n` more bytes can be read from the cursor.
    pub open spec fn fits(&self, n: int) -> bool {
        self.cursor + n <= self.content@.len()
    }

    pub fn new(content: Vec<u8>) -> (r: Reader)
        ensures
            r.content@ == content@,
            r.cursor == 0,
    {
        Reader { content, cursor: 0 }
    }

    fn has(&self, n: usize) -> (r: bool)
        ensures
            r == self.fits(n as int),
            self.content@.len() <= usize::MAX,
    {
        self.cursor <= self.content.len() && n <= self.content.len() - self.cursor
    }

    pub fn read_u8(&mut self) -> (r: Result<u8, DecodeError>)
        ensures
            final(self).content@ == old(self).content@,
            old(self).fits(1) ==> r == Ok::<u8, DecodeError>(old(self).content@[old(self).cursor as int])
                && final(self).cursor == old(self).cursor + 1,
            !old(self).fits(1) ==> r == Err::<u8, DecodeError>(DecodeError::TruncatedInput)
                && final(self).cursor == old(self).cursor,
    {
        if !self.has(1) {
            return Err(DecodeError::TruncatedInput);
        }
        let v = self.content[self.cursor];
        self.cursor = self.cursor + 1;
        Ok(v)
    }

    pub fn read_u16(&mut self) -> (r: Result<u16, DecodeError>)
        ensures
            final(self).content@ == old(self).content@,
            old(self).fits(2) ==> r == Ok::<u16, DecodeError>(be16(old(self).content@, old(self).cursor as int) as u16)
                && final(self).cursor == old(self).cursor + 2,
            !old(self).fits(2) ==> r == Err::<u16, DecodeError>(DecodeError::TruncatedInput)
                && final(self).cursor == old(self).cursor,
    {
        if !self.has(2) {
            return Err(DecodeError::TruncatedInput);
        }
        let v = load_be16(self.content.as_slice(), self.cursor);
        self.cursor = self.cursor + 2;
        Ok(v)
    }

    /// Reads a `u16` count, then that many `u16` values.
    pub fn read_u16s(&mut self) -> (r: Result<Vec<u16>, DecodeError>)
        ensures
            final(self).content@ == old(self).content@,
            ({
                let s = old(self).content@;
                let c = old(self).cursor as int;
                &&& r is Ok <==> (old(self).fits(2) && old(self).fits(2 + 2 * be16(s, c)))
                &&& r is Ok ==> r->Ok_0@ == u16_run(s, c + 2, be16(s, c) as nat)
                    && final(self).cursor == c + 2 + 2 * be16(s, c)
                &&& r is Err ==> r == Err::<Vec<u16>, DecodeError>(DecodeError::TruncatedInput)
                    && final(self).cursor == c
            }),
    {
        let c = self.cursor;
        let n = self.read_u16()?;
        if !self.has(2 * (n as usize)) {
            self.cursor = c;
            return Err(DecodeError::TruncatedInput);
        }
        let ghost s = self.content@;
        let ghost start = self.cursor as int;
        let mut items: Vec<u16> = Vec::new();
        let mut i: u16 = 0;
        while i < n
            invariant
                self.content@ == s,
                self.cursor == start + 2 * i,
                start + 2 * n <= s.len(),
                0 <= i <= n,
                items@ == u16_run(s, start, i as nat),
            decreases n - i,
        {
            let item = self.read_u16().unwrap();
            items.push(item);
            i = i + 1;
            assert(items@ =~= u16_run(s, start, i as nat));
        }
        Ok(items)
    }

    pub fn read_u32(&mut self) -> (r: Result<u32, DecodeError>)
        ensures
            final(self).content@ == old(self).content@,
            old(self).fits(4) ==> r == Ok::<u32, DecodeError>(be32(old(self).content@, old(self).cursor as int) as u32)
                && final(self).cursor == old(self).cursor + 4,
            !old(self).fits(4) ==> r == Err::<u32, DecodeError>(DecodeError::TruncatedInput)
                && final(self).cursor == old(self).cursor,
    {
        if !self.has(4) {
            return Err(DecodeError::TruncatedInput);
        }
        let v = load_be32(self.content.as_slice(), self.cursor);
        self.cursor = self.cursor + 4;
        Ok(v)
    }

    pub fn read_u64(&mut self) -> (r: Result<u64, DecodeError>)
        ensures
            final(self).content@ == old(self).content@,
            old(self).fits(8) ==> r == Ok::<u64, DecodeError>(be64(old(self).content@, old(self).cursor as int) as u64)
                && final(self).cursor == old(self).cursor + 8,
            !old(self).fits(8) ==> r == Err::<u64, DecodeError>(DecodeError::TruncatedInput)
                && final(self).cursor == old(self).cursor,
    {
        if !self.has(8) {
            return Err(DecodeError::TruncatedInput);
        }
        let v = load_be64(self.content.as_slice(), self.cursor);
        self.cursor = self.cursor + 8;
        Ok(v)
    }

    pub fn read_bytes(&mut self, size: usize) -> (r: Result<Vec<u8>, DecodeError>)
        ensures
            final(self).content@ == old(self).content@,
            old(self).fits(size as int) ==> r is Ok
                && r->Ok_0@ == old(self).content@.subrange(old(self).cursor as int, old(self).cursor + size)
                && final(self).cursor == old(self).cursor + size,
            !old(self).fits(size as int) ==> r == Err::<Vec<u8>, DecodeError>(DecodeError::TruncatedInput)
                && final(self).cursor == old(self).cursor,
    {
        if !self.has(size) {
            return Err(DecodeError::TruncatedInput);
        }
        let start = self.cursor;
        let mut out: Vec<u8> = Vec::new();
        let mut i: usize = 0;
        while i < size
            invariant
                start + size <= self.content@.len(),
                self.content@.len() <= usize::MAX,
                self.cursor == start,
                0 <= i <= size,
                out@ == self.content@.subrange(start as int, start + i),
            decreases size - i,
        {
            out.push(self.content[start + i]);
            i = i + 1;
            assert(out@ =~= self.content@.subrange(start as int, start + i));
        }
        self.cursor = start + size;
        Ok(out)
    }
}

} // verus!
