use vstd::prelude::*;

verus! {

/// The value of two bytes read little-endian.
pub open spec fn le16(lo: u8, hi: u8) -> u16 {
    (lo as int + 256 * hi as int) as u16
}

/// A read position over an immutable byte slice. Every read is bounds
/// checked: a read past the end fails with the total number of bytes the
/// slice would need to hold for that read to succeed.
pub struct Cursor<'a> {
    pub buf: &'a [u8],
    pub pos: usize,
}

impl<'a> Cursor<'a> {
    pub open spec fn wf(&self) -> bool {
        self.pos <= self.buf@.len()
    }

    /// The bytes not read yet.
    pub open spec fn remaining(&self) -> Seq<u8> {
        self.buf@.subrange(self.pos as int, self.buf@.len() as int)
    }

    pub fn new(buf: &'a [u8]) -> (r: Cursor<'a>)
        ensures
            r.wf(),
            r.buf@ == buf@,
            r.pos == 0,
    {
        Cursor { buf, pos: 0 }
    }

    /// Reads one byte.
    pub fn read_u8(&mut self) -> (r: Result<u8, usize>)
        requires
            old(self).wf(),
            old(self).pos + 1 <= usize::MAX,
        ensures
            final(self).wf(),
            final(self).buf@ == old(self).buf@,
            old(self).pos < old(self).buf@.len() ==> r == Ok::<u8, usize>(old(self).buf@[old(self).pos as int])
                && final(self).pos == old(self).pos + 1,
            old(self).pos >= old(self).buf@.len() ==> r == Err::<u8, usize>((old(self).pos + 1) as usize)
                && final(self).pos == old(self).pos,
    {
        if self.pos < self.buf.len() {
            let b = self.buf[self.pos];
            self.pos = self.pos + 1;
            Ok(b)
        } else {
            Err(self.pos + 1)
        }
    }

    /// Reads a little-endian `u16`.
    pub fn read_u16_le(&mut self) -> (r: Result<u16, usize>)
        requires
            old(self).wf(),
            old(self).pos + 2 <= usize::MAX,
        ensures
            final(self).wf(),
            final(self).buf@ == old(self).buf@,
            old(self).pos + 2 <= old(self).buf@.len() ==> r == Ok::<u16, usize>(
                le16(old(self).buf@[old(self).pos as int], old(self).buf@[old(self).pos + 1]),
            ) && final(self).pos == old(self).pos + 2,
            old(self).pos + 2 > old(self).buf@.len() ==> r == Err::<u16, usize>((old(self).pos + 2) as usize)
                && final(self).pos == old(self).pos,
    {
        if self.buf.len() - self.pos >= 2 {
            let lo = self.buf[self.pos] as u16;
            let hi = self.buf[self.pos + 1] as u16;
            self.pos = self.pos + 2;
            Ok(lo + hi * 256)
        } else {
            Err(self.pos + 2)
        }
    }

    /// Reads sixteen bytes as they stand, without reordering them.
    pub fn read_bytes16(&mut self) -> (r: Result<[u8; 16], usize>)
        requires
            old(self).wf(),
            old(self).pos + 16 <= usize::MAX,
        ensures
            final(self).wf(),
            final(self).buf@ == old(self).buf@,
            old(self).pos + 16 <= old(self).buf@.len() ==> (r matches Ok(u) && u@ == old(
                self,
            ).buf@.subrange(old(self).pos as int, old(self).pos + 16) && final(self).pos == old(
                self,
            ).pos + 16),
            old(self).pos + 16 > old(self).buf@.len() ==> r == Err::<[u8; 16], usize>((old(self).pos + 16) as usize)
                && final(self).pos == old(self).pos,
    {
        if self.buf.len() - self.pos >= 16 {
            let mut u: [u8; 16] = [0u8; 16];
            let start = self.pos;
            let mut k: usize = 0;
            while k < 16
                invariant
                    k <= 16,
                    start + 16 <= self.buf@.len(),
                    start + 16 <= usize::MAX,
                    forall|j: int| 0 <= j < k ==> u@[j] == self.buf@[start + j],
                decreases 16 - k,
            {
                u[k] = self.buf[start + k];
                k = k + 1;
            }
            assert(u@ =~= self.buf@.subrange(start as int, start + 16));
            self.pos = start + 16;
            Ok(u)
        } else {
            Err(self.pos + 16)
        }
    }

    /// The unread part of the slice.
    pub fn rest(&self) -> (r: &'a [u8])
        requires
            self.wf(),
        ensures
            r@ == self.remaining(),
    {
        vstd::slice::slice_subrange(self.buf, self.pos, self.buf.len())
    }
}

} // verus!
