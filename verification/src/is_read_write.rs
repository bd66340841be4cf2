use vstd::prelude::*;

use crate::error::IoError;
use crate::handle::FileHandle;
use crate::raw;

verus! {

/// Whether the access mode encoded in a descriptor's status bits allows
/// reading, and whether it allows writing.
pub open spec fn spec_access_of_bits(bits: u32) -> (bool, bool) {
    (
        bits & raw::ACCESS_MODE_MASK == raw::ACCESS_MODE_READ_ONLY || bits & raw::ACCESS_MODE_MASK
            == raw::ACCESS_MODE_READ_WRITE,
        bits & raw::ACCESS_MODE_MASK == raw::ACCESS_MODE_WRITE_ONLY || bits
            & raw::ACCESS_MODE_MASK == raw::ACCESS_MODE_READ_WRITE,
    )
}

/// Decode a descriptor's raw status bits into its read and write
/// capability.
pub fn access_of_bits(bits: u32) -> (r: (bool, bool))
    ensures
        r == spec_access_of_bits(bits),
{
    let acc = bits & raw::ACCESS_MODE_MASK;
    (
        acc == raw::ACCESS_MODE_READ_ONLY || acc == raw::ACCESS_MODE_READ_WRITE,
        acc == raw::ACCESS_MODE_WRITE_ONLY || acc == raw::ACCESS_MODE_READ_WRITE,
    )
}

/// A trait for the `is_read_write` function.
pub trait IsReadWrite {
    /// Test whether the handle is readable and/or writable.
    fn is_read_write(&self) -> (r: Result<(bool, bool), IoError>)
        ensures
            r matches Err(e) ==> e != IoError::Interrupted,
    ;
}

impl IsReadWrite for FileHandle {
    fn is_read_write(&self) -> (r: Result<(bool, bool), IoError>) {
        match raw::fcntl_getfl_bits(&self.fd) {
            Ok(bits) => Ok(access_of_bits(bits)),
            Err(e) => Err(e),
        }
    }
}

} // verus!
