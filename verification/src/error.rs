use vstd::prelude::*;

verus! {

/// The `errno` value for an interrupted call (`EINTR`).
pub const ERRNO_INTERRUPTED: i32 = 4;

/// The `errno` value for an operation that would block (`EAGAIN`).
pub const ERRNO_WOULD_BLOCK: i32 = 11;

/// The `errno` value for a request the kernel does not implement (`ENOSYS`).
pub const ERRNO_NO_SYS: i32 = 38;

/// The `errno` value for a request the object does not support (`EOPNOTSUPP`).
pub const ERRNO_NOT_SUPPORTED: i32 = 95;

/// The `errno` value for a socket call on a non-socket (`ENOTSOCK`).
pub const ERRNO_NOT_SOCKET: i32 = 88;

/// The `errno` value for a seek on an unseekable object (`ESPIPE`).
pub const ERRNO_NOT_SEEKABLE: i32 = 29;

/// An error from one of the portable I/O operations.
///
/// `Interrupted` is a transient condition: the retrying operations never
/// surface it, and the single-attempt primitives retry it internally.
#[derive(Clone, Copy, Debug, PartialEq, Eq, Structural)]
pub enum IoError {
    /// A blocking call was interrupted before it completed.
    Interrupted,
    /// An exact read stalled at end of stream with bytes still pending.
    UnexpectedEof,
    /// Accumulating a transfer count into an offset would exceed `u64::MAX`.
    OffsetOverflow,
    /// A path-based duplicate no longer names the same file as the original
    /// handle: the file was renamed or replaced concurrently.
    ConcurrentRename,
    /// The platform cannot honor the request.
    Unsupported,
    /// The operation would block on a non-blocking handle.
    WouldBlock,
    /// The bytes read do not form valid data for the requested conversion.
    InvalidData,
    /// The handle cannot serve this request (for example, it is not open
    /// for reading).
    InvalidInput,
    /// Any other platform error, carried as its raw `errno` value.
    Os(i32),
}

/// The distinguished error, if any, that a raw `errno` value stands for.
pub open spec fn spec_io_error_from_raw(code: i32) -> IoError {
    if code == ERRNO_INTERRUPTED {
        IoError::Interrupted
    } else if code == ERRNO_WOULD_BLOCK {
        IoError::WouldBlock
    } else if code == ERRNO_NO_SYS || code == ERRNO_NOT_SUPPORTED {
        IoError::Unsupported
    } else {
        IoError::Os(code)
    }
}

/// An error as the platform reports it: the classification of some raw
/// `errno` value other than the interrupted one (which is retried, never
/// reported).
pub open spec fn spec_is_platform_error(e: IoError) -> bool {
    exists|code: i32| code != ERRNO_INTERRUPTED && e == spec_io_error_from_raw(code)
}

/// A platform error is never one of the conditions this library raises
/// itself.
pub proof fn lemma_platform_error_kinds(e: IoError)
    requires
        spec_is_platform_error(e),
    ensures
        e != IoError::Interrupted,
        e != IoError::UnexpectedEof,
        e != IoError::OffsetOverflow,
        e != IoError::ConcurrentRename,
        e != IoError::InvalidData,
        e != IoError::InvalidInput,
{
    let code = choose|code: i32| code != ERRNO_INTERRUPTED && e == spec_io_error_from_raw(code);
    assert(e == spec_io_error_from_raw(code));
}

/// Classify a raw `errno` value into the library's error type.
pub fn io_error_from_raw(code: i32) -> (r: IoError)
    ensures
        r == spec_io_error_from_raw(code),
{
    if code == ERRNO_INTERRUPTED {
        IoError::Interrupted
    } else if code == ERRNO_WOULD_BLOCK {
        IoError::WouldBlock
    } else if code == ERRNO_NO_SYS || code == ERRNO_NOT_SUPPORTED {
        IoError::Unsupported
    } else {
        IoError::Os(code)
    }
}

} // verus!
