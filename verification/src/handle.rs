use vstd::prelude::*;

use crate::error::IoError;
use crate::raw;
use crate::raw::StatInfo;

verus! {

/// A handle to an open platform file or socket object.
///
/// The handle owns its descriptor, but the underlying object is shared
/// state: other holders of the same open file description, and other
/// processes, may act on it concurrently. Every operation here takes the
/// handle by immutable reference, because the entire side effect is I/O.
#[derive(Debug)]
pub struct FileHandle {
    pub(crate) fd: rustix::fd::OwnedFd,
}

impl FileHandle {
    /// Wrap an owned descriptor.
    pub fn from_fd(fd: rustix::fd::OwnedFd) -> FileHandle {
        FileHandle { fd }
    }

    /// Give the owned descriptor back.
    pub fn into_fd(self) -> rustix::fd::OwnedFd {
        self.fd
    }

    /// What the platform reports about the open file right now: its
    /// identity, length, and mode bits.
    pub fn stat(&self) -> (r: Result<StatInfo, IoError>)
        ensures
            r matches Err(e) ==> e != IoError::Interrupted,
    {
        raw::fstat_info(&self.fd)
    }
}

} // verus!
