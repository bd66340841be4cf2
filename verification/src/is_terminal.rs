use vstd::prelude::*;

use crate::handle::FileHandle;
use crate::raw;

verus! {

/// Extension for I/O handles which may or may not be terminals.
pub trait IsTerminal {
    /// Test whether this handle is attached to a terminal.
    fn is_terminal(&self) -> bool;
}

impl IsTerminal for FileHandle {
    fn is_terminal(&self) -> bool {
        raw::isatty_fd(&self.fd)
    }
}

} // verus!
