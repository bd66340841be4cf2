use vstd::prelude::*;

use crate::error::IoError;
use crate::peek::Peek;
use crate::read_ready::ReadReady;

verus! {

/// An in-memory readable stream over owned bytes, the simplest handle
/// kind: its contents and cursor are plain values, so every operation on
/// it is specified exactly.
pub struct ByteCursor {
    data: Vec<u8>,
    pos: usize,
}

impl ByteCursor {
    /// The cursor never points past the end of the data.
    pub closed spec fn wf(&self) -> bool {
        self.pos <= self.data@.len()
    }

    /// The bytes the stream holds.
    pub closed spec fn data_spec(&self) -> Seq<u8> {
        self.data@
    }

    /// The current read position.
    pub closed spec fn position_spec(&self) -> nat {
        self.pos as nat
    }

    /// A stream over the given bytes, positioned at their start.
    pub fn new(data: Vec<u8>) -> (r: ByteCursor)
        ensures
            r.wf(),
            r.data_spec() == data@,
            r.position_spec() == 0,
    {
        ByteCursor { data, pos: 0 }
    }

    /// The current read position.
    pub fn position(&self) -> (p: usize)
        ensures
            p == self.position_spec(),
    {
        self.pos
    }

    /// Copy as many bytes as fit into the front of `buf` from the current
    /// position onward, without consuming them.
    pub fn peek_into(&self, buf: &mut Vec<u8>) -> (n: usize)
        requires
            self.wf(),
        ensures
            final(buf)@.len() == old(buf)@.len(),
            n <= old(buf)@.len(),
            n as int == if old(buf)@.len() <= self.data_spec().len() - self.position_spec() {
                old(buf)@.len() as int
            } else {
                self.data_spec().len() - self.position_spec()
            },
            forall|i: int|
                0 <= i < n ==> final(buf)@[i] == self.data_spec()[self.position_spec() + i],
            forall|i: int| n <= i < old(buf)@.len() ==> final(buf)@[i] == old(buf)@[i],
    {
        let dlen = self.data.len();
        let avail = dlen - self.pos;
        let n: usize = if buf.len() <= avail {
            buf.len()
        } else {
            avail
        };
        let mut j: usize = 0;
        while j < n
            invariant
                j <= n,
                n <= buf@.len(),
                buf@.len() == old(buf)@.len(),
                self.pos + n <= dlen,
                dlen == self.data@.len(),
                forall|i: int| 0 <= i < j ==> buf@[i] == self.data@[self.pos + i],
                forall|i: int| j <= i < old(buf)@.len() ==> buf@[i] == old(buf)@[i],
            decreases n - j,
        {
            let b = self.data[self.pos + j];
            buf[j] = b;
            j = j + 1;
        }
        n
    }

    /// Read as many bytes as fit into the front of `buf` from the current
    /// position onward, consuming them: the position advances by the count
    /// read.
    pub fn read(&mut self, buf: &mut Vec<u8>) -> (n: usize)
        requires
            old(self).wf(),
        ensures
            final(self).wf(),
            final(buf)@.len() == old(buf)@.len(),
            n <= old(buf)@.len(),
            n as int == if old(buf)@.len() <= old(self).data_spec().len() - old(
                self,
            ).position_spec() {
                old(buf)@.len() as int
            } else {
                old(self).data_spec().len() - old(self).position_spec()
            },
            forall|i: int|
                0 <= i < n ==> final(buf)@[i] == old(self).data_spec()[old(self).position_spec()
                    + i],
            forall|i: int| n <= i < old(buf)@.len() ==> final(buf)@[i] == old(buf)@[i],
            final(self).data_spec() == old(self).data_spec(),
            final(self).position_spec() == old(self).position_spec() + n,
    {
        let n = self.peek_into(buf);
        let dlen = self.data.len();
        assert(self.pos + n <= dlen);
        self.pos = self.pos + n;
        n
    }
}

impl Peek for ByteCursor {
    fn peek(&mut self, buf: &mut Vec<u8>) -> (r: Result<usize, IoError>) {
        if self.pos <= self.data.len() {
            Ok(self.peek_into(buf))
        } else {
            // Unreachable for streams built by `new` and advanced by
            // `read`, but the trait cannot carry this type's invariant.
            Err(IoError::InvalidInput)
        }
    }
}

impl ReadReady for ByteCursor {
    fn num_ready_bytes(&self) -> (r: Result<u64, IoError>) {
        if self.pos <= self.data.len() {
            Ok((self.data.len() - self.pos) as u64)
        } else {
            Err(IoError::InvalidInput)
        }
    }
}

} // verus!
