use vstd::prelude::*;

use crate::bufs::lemma_skip_empties_no_bytes;
use crate::bufs::lemma_total_len_advance;
use crate::bufs::lemma_total_len_congruent;
use crate::bufs::lemma_total_len_skip_empties;
use crate::bufs::total_len;
use crate::bufs::BufferList;
use crate::error::IoError;
use crate::error::ERRNO_NOT_SEEKABLE;
use crate::error::ERRNO_NOT_SOCKET;
use crate::handle::FileHandle;
use crate::raw;
use vstd::string::StringExecFns;
use vstd::utf8::decode_utf8;
use vstd::utf8::valid_utf8;

verus! {

/// Extension trait for I/O handles that are readable and writable through an
/// immutable reference, since the entire side effect is I/O.
///
/// Every operation retries the transient interrupted condition internally
/// and never surfaces it. The operations with an `_exact` or `_all` suffix
/// run their best-effort counterpart to completion: they succeed only when
/// every requested byte was transferred, and fail with `UnexpectedEof` if an
/// attempt makes no progress while bytes are still pending. An operation
/// asked for nothing — an empty buffer, or a list holding no bytes — owes
/// success.
pub trait IoExt {
    /// Pull some bytes from this source at its cursor into the front of
    /// `buf`, returning how many bytes were read. Bytes past the count read
    /// are left exactly as they were.
    fn read(&self, buf: &mut Vec<u8>) -> (r: Result<usize, IoError>)
        ensures
            final(buf)@.len() == old(buf)@.len(),
            r matches Ok(n) ==> n <= old(buf)@.len(),
            r matches Ok(n) ==> forall|i: int|
                n <= i < old(buf)@.len() ==> final(buf)@[i] == old(buf)@[i],
            r matches Err(e) ==> e != IoError::Interrupted,
    ;

    /// Read exactly enough bytes to fill `buf`, or fail. On failure, how much
    /// of `buf` was filled is not specified.
    fn read_exact(&self, buf: &mut Vec<u8>) -> (r: Result<(), IoError>)
        ensures
            final(buf)@.len() == old(buf)@.len(),
            old(buf)@.len() == 0 ==> r is Ok,
            r matches Err(e) ==> e != IoError::Interrupted,
    ;

    /// Like `read`, except that it scatters the bytes read across the spans
    /// still remaining in `bufs`, in order, without consuming the list.
    fn read_vectored(&self, bufs: &mut BufferList) -> (r: Result<usize, IoError>)
        requires
            old(bufs).wf(),
        ensures
            final(bufs).wf(),
            final(bufs)@.len() == old(bufs)@.len(),
            forall|i: int|
                0 <= i < old(bufs)@.len() ==> final(bufs)@[i].len() == old(bufs)@[i].len(),
            final(bufs).full_view().len() == old(bufs).full_view().len(),
            forall|i: int|
                0 <= i < old(bufs).full_view().len() ==> final(bufs).full_view()[i].len() == old(
                    bufs,
                ).full_view()[i].len(),
            r matches Ok(n) ==> n as nat <= total_len(old(bufs)@),
            old(bufs)@.len() == 0 ==> (r matches Ok(n) && n == 0),
            r matches Err(e) ==> e != IoError::Interrupted,
    ;

    /// Read exactly enough bytes to fill every span remaining in `bufs`,
    /// consuming the list as reads complete; on success nothing remains.
    /// Zero-length spans are skipped, never mistaken for end of stream.
    fn read_exact_vectored(&self, bufs: &mut BufferList) -> (r: Result<(), IoError>)
        requires
            old(bufs).wf(),
        ensures
            final(bufs).wf(),
            final(bufs).full_view().len() == old(bufs).full_view().len(),
            forall|i: int|
                0 <= i < old(bufs).full_view().len() ==> final(bufs).full_view()[i].len() == old(
                    bufs,
                ).full_view()[i].len(),
            r matches Ok(_) ==> final(bufs)@.len() == 0,
            total_len(old(bufs)@) == 0 ==> r is Ok,
            r matches Err(e) ==> e != IoError::Interrupted,
    ;

    /// Read all bytes until end of stream, appending them to `buf`. The
    /// bytes already in `buf` are never touched, even on failure.
    fn read_to_end(&self, buf: &mut Vec<u8>) -> (r: Result<usize, IoError>)
        ensures
            final(buf)@.len() >= old(buf)@.len(),
            final(buf)@.subrange(0, old(buf)@.len() as int) == old(buf)@,
            r matches Ok(n) ==> final(buf)@.len() == old(buf)@.len() + n,
            r matches Err(e) ==> e != IoError::Interrupted,
    ;

    /// Read all bytes until end of stream and append them, decoded as UTF-8,
    /// to `sbuf`. Fails with `InvalidData`, leaving `sbuf` untouched, when
    /// the bytes are not valid UTF-8.
    fn read_to_string(&self, sbuf: &mut String) -> (r: Result<usize, IoError>)
        ensures
            r matches Ok(n) ==> exists|bytes: Seq<u8>|
                valid_utf8(bytes) && bytes.len() == n && final(sbuf)@ == old(sbuf)@ + decode_utf8(
                    bytes,
                ),
            r matches Err(_) ==> final(sbuf)@ == old(sbuf)@,
            r matches Err(e) ==> e != IoError::Interrupted,
    ;

    /// Read bytes from the current position without advancing it; subsequent
    /// reads will see the same data. Returns `Ok(0)` when the handle is a
    /// stream that supports no form of peeking.
    fn peek(&self, buf: &mut Vec<u8>) -> (r: Result<usize, IoError>)
        ensures
            final(buf)@.len() == old(buf)@.len(),
            r matches Ok(n) ==> n <= old(buf)@.len(),
            r matches Ok(n) ==> forall|i: int|
                n <= i < old(buf)@.len() ==> final(buf)@[i] == old(buf)@[i],
            r matches Err(e) ==> e != IoError::Interrupted,
    ;

    /// Write some bytes from the front of `buf` at this handle's cursor,
    /// returning how many were written.
    fn write(&self, buf: &Vec<u8>) -> (r: Result<usize, IoError>)
        ensures
            r matches Ok(n) ==> n <= buf@.len(),
            r matches Err(e) ==> e != IoError::Interrupted,
    ;

    /// Write all of `buf` at this handle's cursor, or fail.
    fn write_all(&self, buf: &Vec<u8>) -> (r: Result<(), IoError>)
        ensures
            buf@.len() == 0 ==> r is Ok,
            r matches Err(e) ==> e != IoError::Interrupted,
    ;

    /// Like `write`, except that it gathers the bytes to write from the
    /// spans still remaining in `bufs`, in order, without consuming the
    /// list.
    fn write_vectored(&self, bufs: &BufferList) -> (r: Result<usize, IoError>)
        requires
            bufs.wf(),
        ensures
            r matches Ok(n) ==> n as nat <= total_len(bufs@),
            bufs@.len() == 0 ==> (r matches Ok(n) && n == 0),
            r matches Err(e) ==> e != IoError::Interrupted,
    ;

    /// Write every byte remaining in `bufs`, consuming the list as writes
    /// complete; on success nothing remains. The buffers themselves are
    /// never modified.
    fn write_all_vectored(&self, bufs: &mut BufferList) -> (r: Result<(), IoError>)
        requires
            old(bufs).wf(),
        ensures
            final(bufs).wf(),
            final(bufs).full_view() == old(bufs).full_view(),
            r matches Ok(_) ==> final(bufs)@.len() == 0,
            total_len(old(bufs)@) == 0 ==> r is Ok,
            r matches Err(e) ==> e != IoError::Interrupted,
    ;

    /// Flush this output stream. Files and sockets have no intermediate
    /// buffer in this layer, so this always succeeds without doing anything.
    fn flush(&self) -> (r: Result<(), IoError>)
        ensures
            r is Ok,
    ;
}

impl IoExt for FileHandle {
    fn read(&self, buf: &mut Vec<u8>) -> (r: Result<usize, IoError>) {
        raw::read_cursor(&self.fd, buf, 0)
    }

    fn read_exact(&self, buf: &mut Vec<u8>) -> (r: Result<(), IoError>) {
        let mut filled: usize = 0;
        loop
            invariant
                filled <= buf@.len(),
                buf@.len() == old(buf)@.len(),
            decreases buf@.len() - filled,
        {
            if filled == buf.len() {
                return Ok(());
            }
            match raw::read_cursor(&self.fd, buf, filled) {
                Ok(n) => {
                    if n == 0 {
                        return Err(IoError::UnexpectedEof);
                    }
                    filled = filled + n;
                },
                Err(e) => {
                    return Err(e);
                },
            }
        }
    }

    fn read_vectored(&self, bufs: &mut BufferList) -> (r: Result<usize, IoError>) {
        if bufs.is_empty() {
            return Ok(0);
        }
        raw::readv_cursor(&self.fd, bufs)
    }

    fn read_exact_vectored(&self, bufs: &mut BufferList) -> (r: Result<(), IoError>) {
        proof {
            if total_len(bufs@) == 0 {
                lemma_skip_empties_no_bytes(bufs@);
            }
        }
        bufs.skip_leading_empties();
        loop
            invariant
                bufs.wf(),
                bufs.full_view().len() == old(bufs).full_view().len(),
                forall|i: int|
                    0 <= i < old(bufs).full_view().len() ==> bufs.full_view()[i].len() == old(
                        bufs,
                    ).full_view()[i].len(),
                total_len(old(bufs)@) == 0 ==> bufs@.len() == 0,
            decreases total_len(bufs@),
        {
            if bufs.is_empty() {
                return Ok(());
            }
            let ghost pre = bufs@;
            match raw::readv_cursor(&self.fd, bufs) {
                Ok(n) => {
                    if n == 0 {
                        return Err(IoError::UnexpectedEof);
                    }
                    proof {
                        lemma_total_len_congruent(bufs@, pre);
                        lemma_total_len_advance(bufs@, n as nat);
                    }
                    bufs.advance(n);
                },
                Err(e) => {
                    return Err(e);
                },
            }
            proof {
                lemma_total_len_skip_empties(bufs@);
            }
            bufs.skip_leading_empties();
        }
    }

    fn read_to_end(&self, buf: &mut Vec<u8>) -> (r: Result<usize, IoError>) {
        let start_len = buf.len();
        let mut chunk: Vec<u8> = vec![0u8; 4096];
        loop
            invariant
                buf@.len() >= old(buf)@.len(),
                buf@.subrange(0, old(buf)@.len() as int) == old(buf)@,
                start_len == old(buf)@.len(),
                chunk@.len() == 4096,
            decreases usize::MAX - buf@.len(),
        {
            match raw::read_cursor(&self.fd, &mut chunk, 0) {
                Ok(n) => {
                    if n == 0 {
                        return Ok(buf.len() - start_len);
                    }
                    let mut j: usize = 0;
                    let ghost len0 = buf@.len();
                    while j < n
                        invariant
                            j <= n,
                            n <= chunk@.len(),
                            buf@.len() == len0 + j,
                            buf@.len() >= old(buf)@.len() + j,
                            buf@.subrange(0, old(buf)@.len() as int) == old(buf)@,
                        decreases n - j,
                    {
                        let ghost before = buf@;
                        buf.push(chunk[j]);
                        proof {
                            assert(buf@.subrange(0, old(buf)@.len() as int) =~= before.subrange(
                                0,
                                old(buf)@.len() as int,
                            ));
                        }
                        j = j + 1;
                    }
                    proof {
                        assert(buf.len() == buf@.len());
                    }
                },
                Err(e) => {
                    return Err(e);
                },
            }
        }
    }

    fn read_to_string(&self, sbuf: &mut String) -> (r: Result<usize, IoError>) {
        let mut tmp: Vec<u8> = Vec::new();
        match self.read_to_end(&mut tmp) {
            Ok(n) => {
                let ghost bs = tmp@;
                match raw::utf8_string(tmp) {
                    Some(s) => {
                        sbuf.append(s.as_str());
                        proof {
                            assert(valid_utf8(bs) && bs.len() == n && sbuf@ == old(sbuf)@
                                + decode_utf8(bs));
                        }
                        Ok(n)
                    },
                    None => Err(IoError::InvalidData),
                }
            },
            Err(e) => Err(e),
        }
    }

    fn peek(&self, buf: &mut Vec<u8>) -> (r: Result<usize, IoError>) {
        // First treat the handle as a socket and peek without consuming.
        match raw::recv_peek(&self.fd, buf) {
            Ok(n) => Ok(n),
            Err(e) => {
                if e == IoError::Os(ERRNO_NOT_SOCKET) {
                    // Not a socket: peek a seekable handle by reading at its
                    // cursor position, which a positional read leaves
                    // untouched. A handle that cannot seek supports no form
                    // of peeking, so report zero bytes.
                    match raw::tell_fd(&self.fd) {
                        Ok(pos) => raw::pread_into(&self.fd, buf, 0, pos),
                        Err(e2) => {
                            if e2 == IoError::Os(ERRNO_NOT_SEEKABLE) {
                                Ok(0)
                            } else {
                                Err(e2)
                            }
                        },
                    }
                } else {
                    Err(e)
                }
            },
        }
    }

    fn write(&self, buf: &Vec<u8>) -> (r: Result<usize, IoError>) {
        raw::write_cursor(&self.fd, buf, 0)
    }

    fn write_all(&self, buf: &Vec<u8>) -> (r: Result<(), IoError>) {
        let mut written: usize = 0;
        loop
            invariant
                written <= buf@.len(),
            decreases buf@.len() - written,
        {
            if written == buf.len() {
                return Ok(());
            }
            match raw::write_cursor(&self.fd, buf, written) {
                Ok(n) => {
                    if n == 0 {
                        return Err(IoError::UnexpectedEof);
                    }
                    written = written + n;
                },
                Err(e) => {
                    return Err(e);
                },
            }
        }
    }

    fn write_vectored(&self, bufs: &BufferList) -> (r: Result<usize, IoError>) {
        if bufs.is_empty() {
            return Ok(0);
        }
        raw::writev_cursor(&self.fd, bufs)
    }

    fn write_all_vectored(&self, bufs: &mut BufferList) -> (r: Result<(), IoError>) {
        proof {
            if total_len(bufs@) == 0 {
                lemma_skip_empties_no_bytes(bufs@);
            }
        }
        bufs.skip_leading_empties();
        loop
            invariant
                bufs.wf(),
                bufs.full_view() == old(bufs).full_view(),
                total_len(old(bufs)@) == 0 ==> bufs@.len() == 0,
            decreases total_len(bufs@),
        {
            if bufs.is_empty() {
                return Ok(());
            }
            let ghost pre = bufs@;
            match raw::writev_cursor(&self.fd, bufs) {
                Ok(n) => {
                    if n == 0 {
                        return Err(IoError::UnexpectedEof);
                    }
                    proof {
                        lemma_total_len_advance(bufs@, n as nat);
                    }
                    bufs.advance(n);
                },
                Err(e) => {
                    return Err(e);
                },
            }
            proof {
                lemma_total_len_skip_empties(bufs@);
            }
            bufs.skip_leading_empties();
        }
    }

    fn flush(&self) -> (r: Result<(), IoError>) {
        Ok(())
    }
}

/// `IoExt` stays usable as a trait object.
pub fn _io_ext_can_be_trait_object(_io: &dyn IoExt) {
}

} // verus!
