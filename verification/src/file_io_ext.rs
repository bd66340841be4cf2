use vstd::prelude::*;

use crate::bufs::lemma_skip_empties_no_bytes;
use crate::bufs::lemma_total_len_advance;
use crate::bufs::lemma_total_len_congruent;
use crate::bufs::lemma_total_len_skip_empties;
use crate::bufs::total_len;
use crate::bufs::BufferList;
use crate::error::lemma_platform_error_kinds;
use crate::error::IoError;
use crate::handle::FileHandle;
use crate::io_ext::IoExt;
use crate::raw;
use crate::raw::SeekFrom;
use vstd::string::StringExecFns;
use vstd::utf8::decode_utf8;
use vstd::utf8::valid_utf8;

verus! {

/// The expected access pattern of a range of a file, to pass to
/// `FileIoExt::advise`.
#[derive(Clone, Copy, Debug, PartialEq, Eq, Hash, Structural)]
pub enum Advice {
    /// No advice; default heuristics apply.
    Normal,
    /// Data will be accessed sequentially at ascending offsets.
    Sequential,
    /// Data will be accessed with an irregular access pattern.
    Random,
    /// Data will be accessed soon.
    WillNeed,
    /// Data will not be accessed soon.
    DontNeed,
    /// Data will be accessed exactly once.
    NoReuse,
}

/// Extension trait for open files: positional, vectored, and append-mode
/// operations that take the handle by immutable reference and leave its
/// cursor alone.
///
/// Every operation retries the transient interrupted condition internally
/// and never surfaces it. The `_exact` and `_all` variants drive their
/// best-effort counterpart to completion: they succeed only on full
/// completion, fail with `UnexpectedEof` on an attempt that makes no
/// progress while bytes remain pending, and fail with `OffsetOverflow`,
/// rather than wrapping, when accumulating transferred counts into the
/// offset would exceed its range — which cannot happen while the offset
/// plus the requested length fits in that range. An operation asked for
/// nothing — an empty buffer, or a list holding no bytes — owes success.
pub trait FileIoExt: IoExt {
    /// Announce the expected access pattern of the data at the given range.
    fn advise(&self, offset: u64, len: u64, advice: Advice) -> (r: Result<(), IoError>)
        ensures
            r matches Err(e) ==> e != IoError::Interrupted,
    ;

    /// Allocate space in the file, increasing the file size as needed, and
    /// ensuring that there are no holes under the given range.
    fn allocate(&self, offset: u64, len: u64) -> (r: Result<(), IoError>)
        ensures
            r matches Err(e) ==> e != IoError::Interrupted,
    ;

    /// Read some bytes starting at the given offset into the front of
    /// `buf`, without using or disturbing the handle's cursor. Bytes past
    /// the count read are left exactly as they were.
    fn read_at(&self, buf: &mut Vec<u8>, offset: u64) -> (r: Result<usize, IoError>)
        ensures
            final(buf)@.len() == old(buf)@.len(),
            r matches Ok(n) ==> n <= old(buf)@.len(),
            r matches Ok(n) ==> forall|i: int|
                n <= i < old(buf)@.len() ==> final(buf)@[i] == old(buf)@[i],
            r matches Err(e) ==> e != IoError::Interrupted,
    ;

    /// Read exactly enough bytes starting at the given offset to fill
    /// `buf`, or fail; fewer bytes than that before end of file fail with
    /// `UnexpectedEof`. On failure, how much of `buf` was filled is not
    /// specified.
    fn read_exact_at(&self, buf: &mut Vec<u8>, offset: u64) -> (r: Result<(), IoError>)
        ensures
            final(buf)@.len() == old(buf)@.len(),
            old(buf)@.len() == 0 ==> r is Ok,
            offset + old(buf)@.len() <= u64::MAX ==> (r matches Err(e) ==> e
                != IoError::OffsetOverflow),
            offset + old(buf)@.len() > u64::MAX ==> !(r is Ok),
            r matches Err(e) ==> e != IoError::Interrupted,
    ;

    /// Is to `read_vectored` what `read_at` is to `read`.
    fn read_vectored_at(&self, bufs: &mut BufferList, offset: u64) -> (r: Result<usize, IoError>)
        requires
            old(bufs).wf(),
        ensures
            final(bufs).wf(),
            final(bufs)@.len() == old(bufs)@.len(),
            forall|i: int|
                0 <= i < old(bufs)@.len() ==> final(bufs)@[i].len() == old(bufs)@[i].len(),
            final(bufs).full_view().len() == old(bufs).full_view().len(),
            forall|i: int|
                0 <= i < old(bufs).full_view().len() ==> final(bufs).full_view()[i].len() == old(
                    bufs,
                ).full_view()[i].len(),
            r matches Ok(n) ==> n as nat <= total_len(old(bufs)@),
            old(bufs)@.len() == 0 ==> (r matches Ok(n) && n == 0),
            r matches Err(e) ==> e != IoError::Interrupted,
    ;

    /// Is to `read_exact_vectored` what `read_exact_at` is to `read_exact`:
    /// fill every remaining span from the given offset onward, consuming
    /// the list as reads complete. Zero-length spans are skipped before and
    /// after each attempt, never mistaken for end of stream.
    fn read_exact_vectored_at(&self, bufs: &mut BufferList, offset: u64) -> (r: Result<
        (),
        IoError,
    >)
        requires
            old(bufs).wf(),
        ensures
            final(bufs).wf(),
            final(bufs).full_view().len() == old(bufs).full_view().len(),
            forall|i: int|
                0 <= i < old(bufs).full_view().len() ==> final(bufs).full_view()[i].len() == old(
                    bufs,
                ).full_view()[i].len(),
            r matches Ok(_) ==> final(bufs)@.len() == 0,
            total_len(old(bufs)@) == 0 ==> r is Ok,
            offset + total_len(old(bufs)@) <= u64::MAX ==> (r matches Err(e) ==> e
                != IoError::OffsetOverflow),
            offset + total_len(old(bufs)@) > u64::MAX ==> !(r is Ok),
            r matches Err(e) ==> e != IoError::Interrupted,
    ;

    /// Whether `read_vectored_at` is a true single-call scatter read rather
    /// than an emulation over the first non-empty span. A static fact about
    /// the platform and operation, never about the handle's state.
    fn is_read_vectored_at(&self) -> (r: bool)
        ensures
            r == true,
    ;

    /// Read all bytes from the given offset to end of file, appending them
    /// to `buf`. The bytes already in `buf` are never touched, even on
    /// failure.
    fn read_to_end_at(&self, buf: &mut Vec<u8>, offset: u64) -> (r: Result<usize, IoError>)
        ensures
            final(buf)@.len() >= old(buf)@.len(),
            final(buf)@.subrange(0, old(buf)@.len() as int) == old(buf)@,
            r matches Ok(n) ==> final(buf)@.len() == old(buf)@.len() + n,
            r matches Err(e) ==> e != IoError::Interrupted,
    ;

    /// Read all bytes from the given offset to end of file and append them,
    /// decoded as UTF-8, to `sbuf`. Fails with `InvalidData`, leaving
    /// `sbuf` untouched, when the bytes are not valid UTF-8.
    fn read_to_string_at(&self, sbuf: &mut String, offset: u64) -> (r: Result<usize, IoError>)
        ensures
            r matches Ok(n) ==> exists|bytes: Seq<u8>|
                valid_utf8(bytes) && final(sbuf)@ == old(sbuf)@ + decode_utf8(bytes),
            r matches Err(_) ==> final(sbuf)@ == old(sbuf)@,
            r matches Err(e) ==> e != IoError::Interrupted,
    ;

    /// Write some bytes from the front of `buf` at the given offset,
    /// without using or disturbing the handle's cursor. A write past the
    /// end of the file extends it with zeros up to the write's start. On a
    /// handle opened in append mode the platform ignores the offset and
    /// appends.
    fn write_at(&self, buf: &Vec<u8>, offset: u64) -> (r: Result<usize, IoError>)
        ensures
            r matches Ok(n) ==> n <= buf@.len(),
            r matches Err(e) ==> e != IoError::Interrupted,
    ;

    /// Write all of `buf` at the given offset, or fail.
    fn write_all_at(&self, buf: &Vec<u8>, offset: u64) -> (r: Result<(), IoError>)
        ensures
            buf@.len() == 0 ==> r is Ok,
            offset + buf@.len() <= u64::MAX ==> (r matches Err(e) ==> e
                != IoError::OffsetOverflow),
            offset + buf@.len() > u64::MAX ==> !(r is Ok),
            r matches Err(e) ==> e != IoError::Interrupted,
    ;

    /// Is to `write_vectored` what `write_at` is to `write`.
    fn write_vectored_at(&self, bufs: &BufferList, offset: u64) -> (r: Result<usize, IoError>)
        requires
            bufs.wf(),
        ensures
            r matches Ok(n) ==> n as nat <= total_len(bufs@),
            bufs@.len() == 0 ==> (r matches Ok(n) && n == 0),
            r matches Err(e) ==> e != IoError::Interrupted,
    ;

    /// Is to `write_all_vectored` what `write_all_at` is to `write_all`:
    /// write every byte remaining in the list from the given offset onward,
    /// consuming the list as writes complete. The buffers themselves are
    /// never modified.
    fn write_all_vectored_at(&self, bufs: &mut BufferList, offset: u64) -> (r: Result<(), IoError>)
        requires
            old(bufs).wf(),
        ensures
            final(bufs).wf(),
            final(bufs).full_view() == old(bufs).full_view(),
            r matches Ok(_) ==> final(bufs)@.len() == 0,
            total_len(old(bufs)@) == 0 ==> r is Ok,
            offset + total_len(old(bufs)@) <= u64::MAX ==> (r matches Err(e) ==> e
                != IoError::OffsetOverflow),
            offset + total_len(old(bufs)@) > u64::MAX ==> !(r is Ok),
            r matches Err(e) ==> e != IoError::Interrupted,
    ;

    /// Whether `write_vectored_at` is a true single-call gather write. A
    /// static fact about the platform and operation.
    fn is_write_vectored_at(&self) -> (r: bool)
        ensures
            r == true,
    ;

    /// Write some bytes at the current end of the file, wherever that is by
    /// the time the write lands, and leave the handle's cursor unchanged.
    /// Prefers the platform's atomic append; where the kernel reports that
    /// call unsupported, falls back to toggling the descriptor into append
    /// mode and restoring its flags and cursor on every path, a window that
    /// is not atomic with respect to other users of the same open file
    /// description.
    fn append(&self, buf: &Vec<u8>) -> (r: Result<usize, IoError>)
        ensures
            r matches Ok(n) ==> n <= buf@.len(),
            r matches Err(e) ==> e != IoError::Interrupted,
    ;

    /// Write all of `buf` at the end of the file, or fail, with the same
    /// cursor guarantee and atomicity caveat as `append`.
    fn append_all(&self, buf: &Vec<u8>) -> (r: Result<(), IoError>)
        ensures
            buf@.len() == 0 ==> r is Ok,
            r matches Err(e) ==> e != IoError::Interrupted,
    ;

    /// Is to `append` what `write_vectored` is to `write`.
    fn append_vectored(&self, bufs: &BufferList) -> (r: Result<usize, IoError>)
        requires
            bufs.wf(),
        ensures
            r matches Ok(n) ==> n as nat <= total_len(bufs@),
            bufs@.len() == 0 ==> (r matches Ok(n) && n == 0),
            r matches Err(e) ==> e != IoError::Interrupted,
    ;

    /// Is to `append_all` what `write_all_vectored` is to `write_all`.
    fn append_all_vectored(&self, bufs: &mut BufferList) -> (r: Result<(), IoError>)
        requires
            old(bufs).wf(),
        ensures
            final(bufs).wf(),
            final(bufs).full_view() == old(bufs).full_view(),
            r matches Ok(_) ==> final(bufs)@.len() == 0,
            total_len(old(bufs)@) == 0 ==> r is Ok,
            r matches Err(e) ==> e != IoError::Interrupted,
    ;

    /// Whether `append_vectored` is a true single-call gather append. A
    /// static fact about the platform and operation.
    fn is_append_vectored(&self) -> (r: bool)
        ensures
            r == true,
    ;

    /// Seek to an offset in the stream; seeking to an absolute position
    /// results in exactly that position.
    fn seek(&self, pos: SeekFrom) -> (r: Result<u64, IoError>)
        ensures
            r matches Ok(p) ==> (pos matches SeekFrom::Start(o) ==> p == o),
            r matches Err(e) ==> e != IoError::Interrupted,
    ;

    /// The current cursor position from the start of the stream.
    fn stream_position(&self) -> (r: Result<u64, IoError>)
        ensures
            r matches Err(e) ==> e != IoError::Interrupted,
    ;
}

impl FileHandle {
    /// Drive exact positional reads of `buf[base..]` at the given offset,
    /// shared by `read_exact_at` (with a zero base) and `read_to_end_at`
    /// (which fills only past the bytes the caller already had).
    fn read_exact_from(&self, buf: &mut Vec<u8>, base: usize, offset: u64) -> (r: Result<
        (),
        IoError,
    >)
        requires
            base <= old(buf).len(),
        ensures
            final(buf)@.len() == old(buf)@.len(),
            forall|i: int| 0 <= i < base ==> final(buf)@[i] == old(buf)@[i],
            base == old(buf)@.len() ==> r is Ok,
            offset + (old(buf)@.len() - base) <= u64::MAX ==> (r matches Err(e) ==> e
                != IoError::OffsetOverflow),
            offset + (old(buf)@.len() - base) > u64::MAX ==> !(r is Ok),
            r matches Err(e) ==> e != IoError::Interrupted,
    {
        let mut filled: usize = base;
        let mut cur: u64 = offset;
        loop
            invariant
                base <= filled <= buf@.len(),
                buf@.len() == old(buf)@.len(),
                forall|i: int| 0 <= i < base ==> buf@[i] == old(buf)@[i],
                cur as int == offset + (filled - base),
            decreases buf@.len() - filled,
        {
            if filled == buf.len() {
                return Ok(());
            }
            match raw::pread_into(&self.fd, buf, filled, cur) {
                Ok(n) => {
                    if n == 0 {
                        return Err(IoError::UnexpectedEof);
                    }
                    filled = filled + n;
                    cur = match cur.checked_add(n as u64) {
                        Some(c) => c,
                        None => {
                            return Err(IoError::OffsetOverflow);
                        },
                    };
                },
                Err(e) => {
                    proof {
                        lemma_platform_error_kinds(e);
                    }
                    return Err(e);
                },
            }
        }
    }

    /// One best-effort append of `buf[start..]`, shared by `append` and
    /// `append_all`.
    fn append_from(&self, buf: &Vec<u8>, start: usize) -> (r: Result<usize, IoError>)
        requires
            start <= buf.len(),
        ensures
            r matches Ok(n) ==> start + n <= buf@.len(),
            r matches Err(e) ==> e != IoError::Interrupted,
    {
        // Atomic fast path: one kernel call that writes at end of file.
        match raw::pwritev2_append_one(&self.fd, buf, start) {
            Ok(n) => {
                return Ok(n);
            },
            Err(e) => {
                if e != IoError::Unsupported {
                    return Err(e);
                }
            },
        }
        // Fallback: switch the open file description into append mode, do a
        // cursor write, and restore the flags and the cursor on every path,
        // success or failure. This window is not atomic with respect to
        // other users of the same open file description.
        let old_flags = match raw::fcntl_getfl_bits(&self.fd) {
            Ok(f) => f,
            Err(e) => {
                return Err(e);
            },
        };
        let old_pos = match raw::tell_fd(&self.fd) {
            Ok(p) => p,
            Err(e) => {
                return Err(e);
            },
        };
        match raw::fcntl_setfl_bits(&self.fd, old_flags | raw::STATUS_FLAG_APPEND) {
            Ok(_) => {},
            Err(e) => {
                return Err(e);
            },
        }
        let result = raw::write_cursor(&self.fd, buf, start);
        // Scoped release: both restores run whether or not the write
        // failed, so the descriptor is never left in append mode or at the
        // wrong position.
        let restored_flags = raw::fcntl_setfl_bits(&self.fd, old_flags);
        let restored_pos = raw::seek_fd(&self.fd, SeekFrom::Start(old_pos));
        match result {
            Ok(n) => {
                match restored_flags {
                    Ok(_) => {
                        match restored_pos {
                            Ok(_) => Ok(n),
                            Err(e) => Err(e),
                        }
                    },
                    Err(e) => Err(e),
                }
            },
            Err(e) => Err(e),
        }
    }

    /// One best-effort gather append of what remains in `bufs`, shared by
    /// `append_vectored` and `append_all_vectored`.
    fn append_vectored_from(&self, bufs: &BufferList) -> (r: Result<usize, IoError>)
        requires
            bufs.wf(),
            bufs@.len() > 0,
        ensures
            r matches Ok(n) ==> n as nat <= total_len(bufs@),
            r matches Err(e) ==> e != IoError::Interrupted,
    {
        // Atomic fast path: one kernel call that writes at end of file.
        match raw::pwritev2_append_list(&self.fd, bufs) {
            Ok(n) => {
                return Ok(n);
            },
            Err(e) => {
                if e != IoError::Unsupported {
                    return Err(e);
                }
            },
        }
        // Fallback with the same flag-toggle discipline as `append_from`.
        let old_flags = match raw::fcntl_getfl_bits(&self.fd) {
            Ok(f) => f,
            Err(e) => {
                return Err(e);
            },
        };
        let old_pos = match raw::tell_fd(&self.fd) {
            Ok(p) => p,
            Err(e) => {
                return Err(e);
            },
        };
        match raw::fcntl_setfl_bits(&self.fd, old_flags | raw::STATUS_FLAG_APPEND) {
            Ok(_) => {},
            Err(e) => {
                return Err(e);
            },
        }
        let result = raw::writev_cursor(&self.fd, bufs);
        let restored_flags = raw::fcntl_setfl_bits(&self.fd, old_flags);
        let restored_pos = raw::seek_fd(&self.fd, SeekFrom::Start(old_pos));
        match result {
            Ok(n) => {
                match restored_flags {
                    Ok(_) => {
                        match restored_pos {
                            Ok(_) => Ok(n),
                            Err(e) => Err(e),
                        }
                    },
                    Err(e) => Err(e),
                }
            },
            Err(e) => Err(e),
        }
    }
}

impl FileIoExt for FileHandle {
    fn advise(&self, offset: u64, len: u64, advice: Advice) -> (r: Result<(), IoError>) {
        raw::fadvise_fd(&self.fd, offset, len, advice)
    }

    fn allocate(&self, offset: u64, len: u64) -> (r: Result<(), IoError>) {
        raw::fallocate_fd(&self.fd, offset, len)
    }

    fn read_at(&self, buf: &mut Vec<u8>, offset: u64) -> (r: Result<usize, IoError>) {
        raw::pread_into(&self.fd, buf, 0, offset)
    }

    fn read_exact_at(&self, buf: &mut Vec<u8>, offset: u64) -> (r: Result<(), IoError>) {
        self.read_exact_from(buf, 0, offset)
    }

    fn read_vectored_at(&self, bufs: &mut BufferList, offset: u64) -> (r: Result<usize, IoError>) {
        if bufs.is_empty() {
            return Ok(0);
        }
        raw::preadv_fill(&self.fd, bufs, offset)
    }

    fn read_exact_vectored_at(&self, bufs: &mut BufferList, offset: u64) -> (r: Result<
        (),
        IoError,
    >) {
        let mut cur: u64 = offset;
        proof {
            lemma_total_len_skip_empties(bufs@);
            if total_len(bufs@) == 0 {
                lemma_skip_empties_no_bytes(bufs@);
            }
        }
        bufs.skip_leading_empties();
        loop
            invariant
                bufs.wf(),
                bufs.full_view().len() == old(bufs).full_view().len(),
                forall|i: int|
                    0 <= i < old(bufs).full_view().len() ==> bufs.full_view()[i].len() == old(
                        bufs,
                    ).full_view()[i].len(),
                total_len(bufs@) <= total_len(old(bufs)@),
                cur as int == offset + (total_len(old(bufs)@) - total_len(bufs@)),
                total_len(old(bufs)@) == 0 ==> bufs@.len() == 0,
            decreases total_len(bufs@),
        {
            if bufs.is_empty() {
                return Ok(());
            }
            let ghost pre = bufs@;
            match raw::preadv_fill(&self.fd, bufs, cur) {
                Ok(n) => {
                    if n == 0 {
                        return Err(IoError::UnexpectedEof);
                    }
                    proof {
                        lemma_total_len_congruent(bufs@, pre);
                    }
                    cur = match cur.checked_add(n as u64) {
                        Some(c) => c,
                        None => {
                            return Err(IoError::OffsetOverflow);
                        },
                    };
                    proof {
                        lemma_total_len_advance(bufs@, n as nat);
                    }
                    bufs.advance(n);
                },
                Err(e) => {
                    proof {
                        lemma_platform_error_kinds(e);
                    }
                    return Err(e);
                },
            }
            proof {
                lemma_total_len_skip_empties(bufs@);
            }
            bufs.skip_leading_empties();
        }
    }

    fn is_read_vectored_at(&self) -> (r: bool) {
        true
    }

    fn read_to_end_at(&self, buf: &mut Vec<u8>, offset: u64) -> (r: Result<usize, IoError>) {
        let old_len = buf.len();
        let info = match raw::fstat_info(&self.fd) {
            Ok(i) => i,
            Err(e) => {
                proof {
                    assert(buf@.subrange(0, buf@.len() as int) =~= buf@);
                }
                return Err(e);
            },
        };
        if offset > info.size {
            proof {
                assert(buf@.subrange(0, buf@.len() as int) =~= buf@);
            }
            return Ok(0);
        }
        let rem64: u64 = info.size - offset;
        let want64: u64 = match (old_len as u64).checked_add(rem64) {
            Some(v) => v,
            None => u64::MAX,
        };
        let new_len: usize = if want64 > (usize::MAX as u64) {
            usize::MAX
        } else {
            #[verifier::truncate]
            (want64 as usize)
        };
        buf.resize(new_len, 0u8);
        proof {
            assert(buf@.subrange(0, old_len as int) =~= old(buf)@);
        }
        match self.read_exact_from(buf, old_len, offset) {
            Ok(_) => {
                proof {
                    assert(buf@.subrange(0, old_len as int) =~= old(buf)@);
                }
                Ok(new_len - old_len)
            },
            Err(e) => {
                proof {
                    assert(buf@.subrange(0, old_len as int) =~= old(buf)@);
                }
                Err(e)
            },
        }
    }

    fn read_to_string_at(&self, sbuf: &mut String, offset: u64) -> (r: Result<usize, IoError>) {
        let info = match raw::fstat_info(&self.fd) {
            Ok(i) => i,
            Err(e) => {
                return Err(e);
            },
        };
        if offset > info.size {
            proof {
                assert(valid_utf8(Seq::<u8>::empty()));
                assert(old(sbuf)@ + decode_utf8(Seq::<u8>::empty()) =~= old(sbuf)@);
            }
            return Ok(0);
        }
        let rem64: u64 = info.size - offset;
        let len_usize: usize = if rem64 > (usize::MAX as u64) {
            usize::MAX
        } else {
            #[verifier::truncate]
            (rem64 as usize)
        };
        let mut tmp: Vec<u8> = vec![0u8; len_usize];
        match self.read_exact_at(&mut tmp, offset) {
            Ok(_) => {},
            Err(e) => {
                return Err(e);
            },
        }
        let ghost bs = tmp@;
        match raw::utf8_string(tmp) {
            Some(s) => {
                sbuf.append(s.as_str());
                proof {
                    assert(valid_utf8(bs) && sbuf@ == old(sbuf)@ + decode_utf8(bs));
                }
                Ok(len_usize)
            },
            None => Err(IoError::InvalidData),
        }
    }

    fn write_at(&self, buf: &Vec<u8>, offset: u64) -> (r: Result<usize, IoError>) {
        raw::pwrite_from(&self.fd, buf, 0, offset)
    }

    fn write_all_at(&self, buf: &Vec<u8>, offset: u64) -> (r: Result<(), IoError>) {
        let mut written: usize = 0;
        let mut cur: u64 = offset;
        loop
            invariant
                written <= buf@.len(),
                cur as int == offset + written,
            decreases buf@.len() - written,
        {
            if written == buf.len() {
                return Ok(());
            }
            match raw::pwrite_from(&self.fd, buf, written, cur) {
                Ok(n) => {
                    if n == 0 {
                        return Err(IoError::UnexpectedEof);
                    }
                    written = written + n;
                    cur = match cur.checked_add(n as u64) {
                        Some(c) => c,
                        None => {
                            return Err(IoError::OffsetOverflow);
                        },
                    };
                },
                Err(e) => {
                    proof {
                        lemma_platform_error_kinds(e);
                    }
                    return Err(e);
                },
            }
        }
    }

    fn write_vectored_at(&self, bufs: &BufferList, offset: u64) -> (r: Result<usize, IoError>) {
        if bufs.is_empty() {
            return Ok(0);
        }
        raw::pwritev_from(&self.fd, bufs, offset)
    }

    fn write_all_vectored_at(&self, bufs: &mut BufferList, offset: u64) -> (r: Result<
        (),
        IoError,
    >) {
        let mut cur: u64 = offset;
        proof {
            lemma_total_len_skip_empties(bufs@);
            if total_len(bufs@) == 0 {
                lemma_skip_empties_no_bytes(bufs@);
            }
        }
        bufs.skip_leading_empties();
        loop
            invariant
                bufs.wf(),
                bufs.full_view() == old(bufs).full_view(),
                total_len(bufs@) <= total_len(old(bufs)@),
                cur as int == offset + (total_len(old(bufs)@) - total_len(bufs@)),
                total_len(old(bufs)@) == 0 ==> bufs@.len() == 0,
            decreases total_len(bufs@),
        {
            if bufs.is_empty() {
                return Ok(());
            }
            match raw::pwritev_from(&self.fd, bufs, cur) {
                Ok(n) => {
                    if n == 0 {
                        return Err(IoError::UnexpectedEof);
                    }
                    cur = match cur.checked_add(n as u64) {
                        Some(c) => c,
                        None => {
                            return Err(IoError::OffsetOverflow);
                        },
                    };
                    proof {
                        lemma_total_len_advance(bufs@, n as nat);
                    }
                    bufs.advance(n);
                },
                Err(e) => {
                    proof {
                        lemma_platform_error_kinds(e);
                    }
                    return Err(e);
                },
            }
            proof {
                lemma_total_len_skip_empties(bufs@);
            }
            bufs.skip_leading_empties();
        }
    }

    fn is_write_vectored_at(&self) -> (r: bool) {
        true
    }

    fn append(&self, buf: &Vec<u8>) -> (r: Result<usize, IoError>) {
        self.append_from(buf, 0)
    }

    fn append_all(&self, buf: &Vec<u8>) -> (r: Result<(), IoError>) {
        let mut written: usize = 0;
        loop
            invariant
                written <= buf@.len(),
            decreases buf@.len() - written,
        {
            if written == buf.len() {
                return Ok(());
            }
            match self.append_from(buf, written) {
                Ok(n) => {
                    if n == 0 {
                        return Err(IoError::UnexpectedEof);
                    }
                    written = written + n;
                },
                Err(e) => {
                    return Err(e);
                },
            }
        }
    }

    fn append_vectored(&self, bufs: &BufferList) -> (r: Result<usize, IoError>) {
        if bufs.is_empty() {
            return Ok(0);
        }
        self.append_vectored_from(bufs)
    }

    fn append_all_vectored(&self, bufs: &mut BufferList) -> (r: Result<(), IoError>) {
        proof {
            if total_len(bufs@) == 0 {
                lemma_skip_empties_no_bytes(bufs@);
            }
        }
        bufs.skip_leading_empties();
        loop
            invariant
                bufs.wf(),
                bufs.full_view() == old(bufs).full_view(),
                total_len(old(bufs)@) == 0 ==> bufs@.len() == 0,
            decreases total_len(bufs@),
        {
            if bufs.is_empty() {
                return Ok(());
            }
            match self.append_vectored_from(bufs) {
                Ok(n) => {
                    if n == 0 {
                        return Err(IoError::UnexpectedEof);
                    }
                    proof {
                        lemma_total_len_advance(bufs@, n as nat);
                    }
                    bufs.advance(n);
                },
                Err(e) => {
                    return Err(e);
                },
            }
            proof {
                lemma_total_len_skip_empties(bufs@);
            }
            bufs.skip_leading_empties();
        }
    }

    fn is_append_vectored(&self) -> (r: bool) {
        true
    }

    fn seek(&self, pos: SeekFrom) -> (r: Result<u64, IoError>) {
        raw::seek_fd(&self.fd, pos)
    }

    fn stream_position(&self) -> (r: Result<u64, IoError>) {
        raw::tell_fd(&self.fd)
    }
}

} // verus!
