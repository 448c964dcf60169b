use vstd::prelude::*;

use crate::bytes::{be16, be32, load_be16, load_be32};
use crate::error::ExecError;

verus! {

/// A resettable big-endian cursor over one method's code. The cursor is an
/// offset from the start of the code array.
pub struct BytecodeReader {
    pub content: Vec<u8>,
    pub cursor: i32,
}

/// The offset `c` rounded up to the next multiple of four.
pub open spec fn padded(c: int) -> int {
    c + (4 - c % 4) % 4
}

/// The `n` big-endian `i32` values that start at offset `i` of `s`.
pub open spec fn i32_run(s: Seq<u8>, i: int, n: nat) -> Seq<i32> {
    Seq::new(n, |k: int| be32(s, i + 4 * k) as i32)
}

impl BytecodeReader {
    pub open spec fn code(&self) -> Seq<u8> {
        self.content@
    }

    /// Whether `n` bytes can be read from the cursor (an `i32` offset, so
    /// code past `i32::MAX` cannot be reached).
    pub open spec fn fits(&self, n: int) -> bool {
        0 <= self.cursor && self.cursor + n <= self.content@.len() && self.cursor + n <= i32::MAX
    }

    pub fn new(content: Vec<u8>) -> (r: BytecodeReader)
        ensures
            r.content@ == content@,
            r.cursor == 0,
    {
        BytecodeReader { content, cursor: 0 }
    }

    fn has(&self, n: usize) -> (r: bool)
        requires
            n <= 8,
        ensures
            r == self.fits(n as int),
    {
        if self.cursor < 0 || self.cursor > i32::MAX - n as i32 {
            return false;
        }
        let c = self.cursor as usize;
        c <= self.content.len() && n <= self.content.len() - c
    }

    pub fn reset(&mut self, pc: i32)
        ensures
            final(self).cursor == pc,
            final(self).content@ == old(self).content@,
    {
        self.cursor = pc;
    }

    pub fn read_u8(&mut self) -> (r: Result<u8, ExecError>)
        ensures
            final(self).content@ == old(self).content@,
            old(self).fits(1) ==> r == Ok::<u8, ExecError>(old(self).content@[old(self).cursor as int])
                && final(self).cursor == old(self).cursor + 1,
            !old(self).fits(1) ==> r == Err::<u8, ExecError>(ExecError::TruncatedCode)
                && final(self).cursor == old(self).cursor,
    {
        if !self.has(1) {
            return Err(ExecError::TruncatedCode);
        }
        let v = self.content[self.cursor as usize];
        self.cursor = self.cursor + 1;
        Ok(v)
    }
}


impl BytecodeReader {
    pub fn read_i8(&mut self) -> (r: Result<i8, ExecError>)
        ensures
            final(self).content@ == old(self).content@,
            old(self).fits(1) ==> r == Ok::<i8, ExecError>(old(self).content@[old(self).cursor as int] as i8)
                && final(self).cursor == old(self).cursor + 1,
            !old(self).fits(1) ==> r == Err::<i8, ExecError>(ExecError::TruncatedCode)
                && final(self).cursor == old(self).cursor,
    {
        let v = self.read_u8()?;
        Ok(v as i8)
    }

    pub fn read_u16(&mut self) -> (r: Result<u16, ExecError>)
        ensures
            final(self).content@ == old(self).content@,
            old(self).fits(2) ==> r == Ok::<u16, ExecError>(be16(old(self).content@, old(self).cursor as int) as u16)
                && final(self).cursor == old(self).cursor + 2,
            !old(self).fits(2) ==> r == Err::<u16, ExecError>(ExecError::TruncatedCode)
                && final(self).cursor == old(self).cursor,
    {
        if !self.has(2) {
            return Err(ExecError::TruncatedCode);
        }
        let v = load_be16(self.content.as_slice(), self.cursor as usize);
        self.cursor = self.cursor + 2;
        Ok(v)
    }

    pub fn read_i16(&mut self) -> (r: Result<i16, ExecError>)
        ensures
            final(self).content@ == old(self).content@,
            old(self).fits(2) ==> r == Ok::<i16, ExecError>(be16(old(self).content@, old(self).cursor as int) as i16)
                && final(self).cursor == old(self).cursor + 2,
            !old(self).fits(2) ==> r == Err::<i16, ExecError>(ExecError::TruncatedCode)
                && final(self).cursor == old(self).cursor,
    {
        let v = self.read_u16()?;
        Ok(v as i16)
    }

    pub fn read_u32(&mut self) -> (r: Result<u32, ExecError>)
        ensures
            final(self).content@ == old(self).content@,
            old(self).fits(4) ==> r == Ok::<u32, ExecError>(be32(old(self).content@, old(self).cursor as int) as u32)
                && final(self).cursor == old(self).cursor + 4,
            !old(self).fits(4) ==> r == Err::<u32, ExecError>(ExecError::TruncatedCode)
                && final(self).cursor == old(self).cursor,
    {
        if !self.has(4) {
            return Err(ExecError::TruncatedCode);
        }
        let v = load_be32(self.content.as_slice(), self.cursor as usize);
        self.cursor = self.cursor + 4;
        Ok(v)
    }

    pub fn read_i32(&mut self) -> (r: Result<i32, ExecError>)
        ensures
            final(self).content@ == old(self).content@,
            old(self).fits(4) ==> r == Ok::<i32, ExecError>(be32(old(self).content@, old(self).cursor as int) as i32)
                && final(self).cursor == old(self).cursor + 4,
            !old(self).fits(4) ==> r == Err::<i32, ExecError>(ExecError::TruncatedCode)
                && final(self).cursor == old(self).cursor,
    {
        let v = self.read_u32()?;
        Ok(v as i32)
    }

    /// Reads `size` big-endian `i32` values; a negative `size` reads none.
    pub fn read_i32s(&mut self, size: i64) -> (r: Result<Vec<i32>, ExecError>)
        ensures
            final(self).content@ == old(self).content@,
            ({
                let n = if size < 0 { 0 } else { size as int };
                let c = old(self).cursor as int;
                &&& r is Ok <==> (n == 0 || old(self).fits(4 * n))
                &&& r is Ok ==> r->Ok_0@ == i32_run(old(self).content@, c, n as nat)
                    && final(self).cursor == c + 4 * n
            }),
            r is Err ==> r->Err_0 == ExecError::TruncatedCode && final(self).cursor == old(self).cursor,
    {
        let start = self.cursor;
        let ghost s = self.content@;
        let ghost c = self.cursor as int;
        let ghost n: int = if size < 0 { 0 } else { size as int };
        let mut out: Vec<i32> = Vec::new();
        let mut i: i64 = 0;
        while i < size
            invariant
                self.content@ == s,
                s == old(self).content@,
                c == old(self).cursor,
                start == old(self).cursor,
                n == if size < 0 { 0 } else { size as int },
                0 <= i <= n,
                self.cursor == c + 4 * i,
                i > 0 ==> old(self).fits(4 * i),
                out@ == i32_run(s, c, i as nat),
            decreases size - i,
        {
            let v = match self.read_i32() {
                Ok(v) => v,
                Err(e) => {
                    self.cursor = start;
                    return Err(e);
                },
            };
            out.push(v);
            i = i + 1;
            assert(out@ =~= i32_run(s, c, i as nat));
        }
        Ok(out)
    }

    /// Moves the cursor to the next multiple of four, skipping the padding
    /// bytes that precede a switch's operands.
    pub fn skip_padding(&mut self) -> (r: Result<(), ExecError>)
        ensures
            final(self).content@ == old(self).content@,
            ({
                let c = old(self).cursor as int;
                &&& r is Ok <==> (padded(c) == c || old(self).fits(padded(c) - c))
                &&& r is Ok ==> final(self).cursor == padded(c)
            }),
            r is Err ==> r->Err_0 == ExecError::TruncatedCode && final(self).cursor == old(self).cursor,
    {
        let start = self.cursor;
        let ghost c = self.cursor as int;
        while self.cursor % 4 != 0
            invariant
                self.content@ == old(self).content@,
                c == old(self).cursor,
                start == old(self).cursor,
                c <= self.cursor <= padded(c),
                self.cursor > c ==> old(self).fits(self.cursor - c),
                padded(self.cursor as int) == padded(c),
            decreases padded(c) - self.cursor,
        {
            if let Err(e) = self.read_u8() {
                self.cursor = start;
                return Err(e);
            }
        }
        Ok(())
    }
}

} // verus!
