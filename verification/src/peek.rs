use vstd::prelude::*;

use crate::error::IoError;
use crate::handle::FileHandle;
use crate::io_ext::IoExt;

verus! {

/// A trait providing the `peek` function for reading without consuming.
///
/// Unbuffered pipe-like streams support no form of peeking; their
/// implementations report `Ok(0)`.
pub trait Peek {
    /// Read data from the stream without consuming it, so that subsequent
    /// reads re-read the same data. May return fewer bytes than requested;
    /// `Ok(0)` indicates that seeking is not possible (but reading may
    /// still be).
    fn peek(&mut self, buf: &mut Vec<u8>) -> (r: Result<usize, IoError>)
        ensures
            final(buf)@.len() == old(buf)@.len(),
            r matches Ok(n) ==> n <= old(buf)@.len(),
            r matches Ok(n) ==> forall|i: int|
                n <= i < old(buf)@.len() ==> final(buf)@[i] == old(buf)@[i],
            r matches Err(e) ==> e != IoError::Interrupted,
    ;
}

impl Peek for FileHandle {
    fn peek(&mut self, buf: &mut Vec<u8>) -> (r: Result<usize, IoError>) {
        IoExt::peek(self, buf)
    }
}

} // verus!
