use vstd::prelude::*;

use crate::error::IoError;
use crate::handle::FileHandle;
use crate::is_read_write::IsReadWrite;
use crate::raw;

verus! {

/// Extension for readable streams that can indicate the number of bytes
/// ready to be read immediately.
pub trait ReadReady {
    /// Return the number of bytes which are ready to be read immediately.
    ///
    /// The returned number may be greater than the number of bytes actually
    /// readable if the end of the stream is known to be reachable without
    /// blocking.
    fn num_ready_bytes(&self) -> (r: Result<u64, IoError>)
        ensures
            r matches Err(e) ==> e != IoError::Interrupted,
    ;
}

impl ReadReady for FileHandle {
    fn num_ready_bytes(&self) -> (r: Result<u64, IoError>) {
        let readable = match self.is_read_write() {
            Ok((readable, _)) => readable,
            Err(e) => {
                return Err(e);
            },
        };
        if !readable {
            return Err(IoError::InvalidInput);
        }
        let info = match raw::fstat_info(&self.fd) {
            Ok(i) => i,
            Err(e) => {
                return Err(e);
            },
        };
        // For a regular file, everything between the cursor and the end of
        // the file is ready.
        if info.mode & raw::FILE_TYPE_MASK == raw::FILE_TYPE_REGULAR {
            let pos = match raw::tell_fd(&self.fd) {
                Ok(p) => p,
                Err(e) => {
                    return Err(e);
                },
            };
            if pos <= info.size {
                return Ok(info.size - pos);
            }
            // The cursor can sit past the end of the file; nothing is
            // ready there.
            return Ok(0);
        }
        // Otherwise ask the platform how much is queued; where it cannot
        // say, zero is the conservatively correct answer.
        match raw::fionread_fd(&self.fd) {
            Ok(n) => Ok(n),
            Err(_) => Ok(0),
        }
    }
}

} // verus!
