//! The position-preserving accessor. Where an operation must not disturb a
//! handle's cursor but only a cursor-based primitive is available, the
//! engine duplicates the handle into an independent handle for the same
//! underlying file, seeks and reads or writes on the duplicate, and
//! discards it, so the original cursor is never touched.
//!
//! Duplication comes in two forms: by handle, which targets the same open
//! file object and cannot race; and by path, which resolves the path again
//! and is unsafe under concurrent renames, so it must be accompanied by the
//! identity verification here.

use vstd::prelude::*;

use crate::error::IoError;
use crate::handle::FileHandle;
use crate::io_ext::IoExt;
use crate::raw;
use crate::raw::ReopenMode;
use crate::raw::SeekFrom;

verus! {

/// The unique-file attributes the platform reports for an open file, used
/// to verify that a reopened handle still refers to the same underlying
/// file as the original.
#[derive(Clone, Copy, Debug, PartialEq, Eq, Structural)]
pub struct FileIdentity {
    /// The device the file lives on.
    pub device: u64,
    /// The file's index (inode number) on that device.
    pub index: u64,
}

/// The identity verification that must accompany every path-based reopen:
/// succeeds exactly when the two identities name the same file, and
/// otherwise fails with the concurrent-rename condition rather than letting
/// data flow to or from the wrong file.
pub fn verify_same_file(orig: &FileIdentity, dup: &FileIdentity) -> (r: Result<(), IoError>)
    ensures
        r is Ok <==> orig == dup,
        r matches Err(e) ==> e == IoError::ConcurrentRename,
{
    if orig.device == dup.device && orig.index == dup.index {
        Ok(())
    } else {
        Err(IoError::ConcurrentRename)
    }
}

impl FileHandle {
    /// The identity of the file this handle refers to, as the platform
    /// reports it now.
    pub fn identity(&self) -> (r: Result<FileIdentity, IoError>)
        ensures
            r matches Err(e) ==> e != IoError::Interrupted,
    {
        match raw::fstat_info(&self.fd) {
            Ok(info) => Ok(FileIdentity { device: info.device, index: info.index }),
            Err(e) => Err(e),
        }
    }

    /// A transient duplicate of this handle with an independent cursor,
    /// made by handle-level duplication, which always targets the same
    /// underlying file object: no identity check is needed.
    pub fn reopen(&self, mode: ReopenMode) -> (r: Result<FileHandle, IoError>)
        ensures
            r matches Err(e) ==> e != IoError::Interrupted,
    {
        match raw::reopen_fd(&self.fd, mode) {
            Ok(fd) => Ok(FileHandle::from_fd(fd)),
            Err(e) => Err(e),
        }
    }

    /// A transient duplicate made by resolving `path` again. The path may
    /// have been renamed away, or a different file renamed into it, between
    /// this handle's opening and now, so the duplicate's identity is
    /// compared against this handle's; on a mismatch the duplicate is
    /// discarded and the call fails with `ConcurrentRename`.
    pub fn reopen_at_path(&self, path: &str, mode: ReopenMode) -> (r: Result<FileHandle, IoError>)
        ensures
            r matches Err(e) ==> e != IoError::Interrupted,
    {
        let fd = match raw::open_path(path, mode) {
            Ok(fd) => fd,
            Err(e) => {
                return Err(e);
            },
        };
        let dup = FileHandle::from_fd(fd);
        let orig_id = match self.identity() {
            Ok(i) => i,
            Err(e) => {
                return Err(e);
            },
        };
        let dup_id = match dup.identity() {
            Ok(i) => i,
            Err(e) => {
                return Err(e);
            },
        };
        match verify_same_file(&orig_id, &dup_id) {
            Ok(_) => Ok(dup),
            Err(e) => Err(e),
        }
    }

    /// `read_at` emulated for a platform whose only positional primitive
    /// mutates a shared cursor: seek a read-only duplicate to the offset,
    /// read on the duplicate, and discard it, leaving this handle's cursor
    /// untouched.
    pub fn read_at_via_reopen(&self, buf: &mut Vec<u8>, offset: u64) -> (r: Result<usize, IoError>)
        ensures
            final(buf)@.len() == old(buf)@.len(),
            r matches Ok(n) ==> n <= old(buf)@.len(),
            r matches Ok(n) ==> forall|i: int|
                n <= i < old(buf)@.len() ==> final(buf)@[i] == old(buf)@[i],
            r matches Err(e) ==> e != IoError::Interrupted,
    {
        let dup = match self.reopen(ReopenMode::Read) {
            Ok(d) => d,
            Err(e) => {
                return Err(e);
            },
        };
        match raw::seek_fd(&dup.fd, SeekFrom::Start(offset)) {
            Ok(_) => {},
            Err(e) => {
                return Err(e);
            },
        }
        raw::read_cursor(&dup.fd, buf, 0)
    }

    /// `write_at` emulated the same way, over a write-only duplicate.
    pub fn write_at_via_reopen(&self, buf: &Vec<u8>, offset: u64) -> (r: Result<usize, IoError>)
        ensures
            r matches Ok(n) ==> n <= buf@.len(),
            r matches Err(e) ==> e != IoError::Interrupted,
    {
        let dup = match self.reopen(ReopenMode::Write) {
            Ok(d) => d,
            Err(e) => {
                return Err(e);
            },
        };
        match raw::seek_fd(&dup.fd, SeekFrom::Start(offset)) {
            Ok(_) => {},
            Err(e) => {
                return Err(e);
            },
        }
        raw::write_cursor(&dup.fd, buf, 0)
    }

    /// `read_exact_at` over a path-based duplicate: reopen by path with the
    /// mandatory identity check, seek the duplicate, and drive the exact
    /// read on it.
    pub fn read_exact_at_via_path(&self, path: &str, buf: &mut Vec<u8>, offset: u64) -> (r: Result<
        (),
        IoError,
    >)
        ensures
            final(buf)@.len() == old(buf)@.len(),
            r matches Err(e) ==> e != IoError::Interrupted,
    {
        let dup = match self.reopen_at_path(path, ReopenMode::Read) {
            Ok(d) => d,
            Err(e) => {
                return Err(e);
            },
        };
        match raw::seek_fd(&dup.fd, SeekFrom::Start(offset)) {
            Ok(_) => {},
            Err(e) => {
                return Err(e);
            },
        }
        dup.read_exact(buf)
    }

    /// Append through a dedicated append-mode duplicate, the variant for
    /// platforms without a descriptor mode-flag toggle: every write on the
    /// duplicate goes to end of file, and this handle's cursor is never
    /// touched.
    pub fn append_via_reopen(&self, buf: &Vec<u8>) -> (r: Result<usize, IoError>)
        ensures
            r matches Ok(n) ==> n <= buf@.len(),
            r matches Err(e) ==> e != IoError::Interrupted,
    {
        let dup = match self.reopen(ReopenMode::Append) {
            Ok(d) => d,
            Err(e) => {
                return Err(e);
            },
        };
        raw::write_cursor(&dup.fd, buf, 0)
    }

    /// The same append over a path-based duplicate, subject to the same
    /// identity check as every path-based reopen.
    pub fn append_via_path(&self, path: &str, buf: &Vec<u8>) -> (r: Result<usize, IoError>)
        ensures
            r matches Ok(n) ==> n <= buf@.len(),
            r matches Err(e) ==> e != IoError::Interrupted,
    {
        let dup = match self.reopen_at_path(path, ReopenMode::Append) {
            Ok(d) => d,
            Err(e) => {
                return Err(e);
            },
        };
        raw::write_cursor(&dup.fd, buf, 0)
    }
}

} // verus!
