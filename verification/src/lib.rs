//! Exterior-mutable positional, vectored, and append-mode I/O on open file
//! and socket handles, with one portable contract for partial-operation
//! retry, buffer-list advancement, position-preserving emulation, and
//! append-mode emulation.

mod bufs;
mod cursor;
mod error;
mod fd_flags;
mod file_io_ext;
mod handle;
mod io_ext;
mod is_read_write;
mod is_terminal;
mod peek;
mod raw;
mod read_ready;
mod reopen;

pub use bufs::advance_spec;
pub use bufs::lemma_advance_flatten;
pub use bufs::lemma_advance_full_drain;
pub use bufs::lemma_advance_round_trip;
pub use bufs::lemma_skip_empties_flatten;
pub use bufs::lemma_skip_empties_no_bytes;
pub use bufs::lemma_total_len_is_flatten_len;
pub use bufs::skip_empties_spec;
pub use bufs::total_len;
pub use bufs::BufferList;
pub use cursor::ByteCursor;
pub use error::io_error_from_raw;
pub use error::lemma_platform_error_kinds;
pub use error::spec_io_error_from_raw;
pub use error::spec_is_platform_error;
pub use error::IoError;
pub use fd_flags::flags_of_bits;
pub use fd_flags::spec_bits_of_flags;
pub use fd_flags::spec_flags_of_bits;
pub use fd_flags::FdFlags;
pub use fd_flags::GetSetFdFlags;
pub use fd_flags::SetFdFlags;
pub use file_io_ext::Advice;
pub use file_io_ext::FileIoExt;
pub use handle::FileHandle;
pub use io_ext::IoExt;
pub use io_ext::_io_ext_can_be_trait_object;
pub use is_read_write::access_of_bits;
pub use is_read_write::spec_access_of_bits;
pub use is_read_write::IsReadWrite;
pub use is_terminal::IsTerminal;
pub use peek::Peek;
pub use read_ready::ReadReady;
pub use reopen::verify_same_file;
pub use reopen::FileIdentity;
pub use raw::ReopenMode;
pub use raw::SeekFrom;
pub use raw::StatInfo;
