use vstd::prelude::*;

use crate::error::IoError;
use crate::handle::FileHandle;
use crate::raw;

verus! {

/// The status flags of an open file description, one field per flag.
#[derive(Clone, Copy, Debug, PartialEq, Eq, Structural)]
pub struct FdFlags {
    /// Writes always write to the end of the file.
    pub append: bool,
    /// Write operations complete as defined by synchronized I/O data
    /// integrity completion.
    pub dsync: bool,
    /// I/O operations fail with `WouldBlock` instead of blocking.
    pub nonblock: bool,
    /// Read operations complete at the same level of integrity as given by
    /// the data-sync and file-sync flags.
    pub rsync: bool,
    /// Write operations complete as defined by synchronized I/O file
    /// integrity completion.
    pub sync: bool,
}

impl FdFlags {
    /// No flags set.
    pub fn none() -> (r: FdFlags)
        ensures
            r == (FdFlags { append: false, dsync: false, nonblock: false, rsync: false, sync: false }),
    {
        FdFlags { append: false, dsync: false, nonblock: false, rsync: false, sync: false }
    }
}

/// The flags encoded in a descriptor's raw status bits. The platform gives
/// the read-sync flag the same bits as the file-sync flag.
pub open spec fn spec_flags_of_bits(bits: u32) -> FdFlags {
    FdFlags {
        append: bits & raw::STATUS_FLAG_APPEND != 0,
        dsync: bits & raw::STATUS_FLAG_DSYNC != 0,
        nonblock: bits & raw::STATUS_FLAG_NONBLOCK != 0,
        rsync: bits & raw::STATUS_FLAG_SYNC == raw::STATUS_FLAG_SYNC,
        sync: bits & raw::STATUS_FLAG_SYNC == raw::STATUS_FLAG_SYNC,
    }
}

/// Decode a descriptor's raw status bits into flags.
pub fn flags_of_bits(bits: u32) -> (r: FdFlags)
    ensures
        r == spec_flags_of_bits(bits),
{
    FdFlags {
        append: bits & raw::STATUS_FLAG_APPEND != 0,
        dsync: bits & raw::STATUS_FLAG_DSYNC != 0,
        nonblock: bits & raw::STATUS_FLAG_NONBLOCK != 0,
        rsync: bits & raw::STATUS_FLAG_SYNC == raw::STATUS_FLAG_SYNC,
        sync: bits & raw::STATUS_FLAG_SYNC == raw::STATUS_FLAG_SYNC,
    }
}

/// The raw status bits that request the given flags; only the append and
/// non-blocking flags can be set dynamically.
pub open spec fn spec_bits_of_flags(flags: FdFlags) -> u32 {
    (if flags.append {
        raw::STATUS_FLAG_APPEND
    } else {
        0
    }) | (if flags.nonblock {
        raw::STATUS_FLAG_NONBLOCK
    } else {
        0
    })
}

/// An opaque representation of the state needed to perform a
/// `set_fd_flags` operation, produced by `new_set_fd_flags`.
#[derive(Debug)]
pub struct SetFdFlags {
    pub(crate) bits: u32,
}

impl SetFdFlags {
    /// The raw status bits this value will request.
    pub closed spec fn spec_bits(&self) -> u32 {
        self.bits
    }
}

/// Extension trait to query and set a handle's status flags.
pub trait GetSetFdFlags {
    /// Query the status flags for the handle.
    fn get_fd_flags(&self) -> (r: Result<FdFlags, IoError>)
        ensures
            r matches Err(e) ==> e != IoError::Interrupted,
    ;

    /// Create a new `SetFdFlags` value for use with `set_fd_flags`. The
    /// sync flags are silently ignored by platforms when set dynamically,
    /// so demanding any of them is refused with `Unsupported` rather than
    /// ignored.
    fn new_set_fd_flags(&self, flags: FdFlags) -> (r: Result<SetFdFlags, IoError>)
        ensures
            r is Ok <==> !(flags.dsync || flags.sync || flags.rsync),
            r matches Ok(s) ==> s.spec_bits() == spec_bits_of_flags(flags),
            r matches Err(e) ==> e == IoError::Unsupported,
    ;

    /// Set the status flags for the handle, using a value obtained from
    /// `new_set_fd_flags`.
    fn set_fd_flags(&mut self, set_fd_flags: SetFdFlags) -> (r: Result<(), IoError>)
        ensures
            r matches Err(e) ==> e != IoError::Interrupted,
    ;
}

impl GetSetFdFlags for FileHandle {
    fn get_fd_flags(&self) -> (r: Result<FdFlags, IoError>) {
        match raw::fcntl_getfl_bits(&self.fd) {
            Ok(bits) => Ok(flags_of_bits(bits)),
            Err(e) => Err(e),
        }
    }

    fn new_set_fd_flags(&self, flags: FdFlags) -> (r: Result<SetFdFlags, IoError>) {
        if flags.dsync || flags.sync || flags.rsync {
            return Err(IoError::Unsupported);
        }
        let append_bits: u32 = if flags.append {
            raw::STATUS_FLAG_APPEND
        } else {
            0
        };
        let nonblock_bits: u32 = if flags.nonblock {
            raw::STATUS_FLAG_NONBLOCK
        } else {
            0
        };
        Ok(SetFdFlags { bits: append_bits | nonblock_bits })
    }

    fn set_fd_flags(&mut self, set_fd_flags: SetFdFlags) -> (r: Result<(), IoError>) {
        raw::fcntl_setfl_bits(&self.fd, set_fd_flags.bits)
    }
}

} // verus!
