//! Trusted declarations of the platform primitives that the portable engine
//! is built on. Each item wraps exactly one call into the `rustix` crate (or
//! one `std` conversion) and states only what that call's documentation
//! promises.
//!
//! Every wrapper around a blocking call retries the transient interrupted
//! condition (`EINTR`) in place, without touching any argument between
//! attempts, so no primitive ever reports `IoError::Interrupted`.

use vstd::prelude::*;

use crate::bufs::total_len;
use crate::bufs::BufferList;
use crate::error::io_error_from_raw;
use crate::error::spec_is_platform_error;
use crate::error::IoError;
use rustix::fd::AsRawFd;
use std::io::IoSlice;
use std::io::IoSliceMut;

verus! {

/// An open platform file descriptor, owned: closing happens when it drops.
#[verifier::external_type_specification]
#[verifier::external_body]
pub struct ExOwnedFd(rustix::fd::OwnedFd);

/// A position to seek to, relative to the start, end, or current cursor of a
/// stream.
#[derive(Clone, Copy, Debug, PartialEq, Eq, Structural)]
pub enum SeekFrom {
    /// An absolute byte position from the start.
    Start(u64),
    /// A signed byte distance from the end.
    End(i64),
    /// A signed byte distance from the current cursor.
    Current(i64),
}

/// The access mode to request when duplicating a handle for one scoped
/// operation.
#[derive(Clone, Copy, Debug, PartialEq, Eq, Structural)]
pub enum ReopenMode {
    /// Open for reading only.
    Read,
    /// Open for writing only.
    Write,
    /// Open for appending only: every write goes to the end of file.
    Append,
}

/// What the platform reports about an open file: its identity, size, and
/// mode bits.
#[derive(Clone, Copy, Debug, PartialEq, Eq, Structural)]
pub struct StatInfo {
    /// The device the file lives on.
    pub device: u64,
    /// The file's index (inode number) on that device.
    pub index: u64,
    /// The file's length in bytes.
    pub size: u64,
    /// The raw file mode bits, including the file-type bits.
    pub mode: u32,
}

/// Relies on `rustix::io::pread`: reads at most the requested length at the
/// given offset, placing the bytes read at the front of the given slice and
/// leaving the rest untouched; a failed read transfers nothing.
#[verifier::external_body]
pub(crate) fn pread_into(
    fd: &rustix::fd::OwnedFd,
    buf: &mut Vec<u8>,
    start: usize,
    offset: u64,
) -> (r: Result<usize, IoError>)
    requires
        start <= old(buf).len(),
    ensures
        final(buf)@.len() == old(buf)@.len(),
        r matches Ok(n) ==> start + n <= old(buf)@.len(),
        r matches Ok(n) ==> forall|i: int|
            (0 <= i < start || start + n <= i < old(buf)@.len()) ==> final(buf)@[i] == old(
                buf,
            )@[i],
        r matches Err(_) ==> final(buf)@ == old(buf)@,
        r matches Err(e) ==> e != IoError::Interrupted,
        r matches Err(e) ==> spec_is_platform_error(e),
{
    loop {
        match rustix::io::pread(fd, &mut buf[start..], offset) {
            Ok(n) => return Ok(n),
            Err(e) if e == rustix::io::Errno::INTR => continue,
            Err(e) => return Err(io_error_from_raw(e.raw_os_error())),
        }
    }
}

/// Relies on `rustix::io::pwrite`: writes at most the given bytes at the
/// given offset and reports how many were written.
#[verifier::external_body]
pub(crate) fn pwrite_from(
    fd: &rustix::fd::OwnedFd,
    buf: &Vec<u8>,
    start: usize,
    offset: u64,
) -> (r: Result<usize, IoError>)
    requires
        start <= buf.len(),
    ensures
        r matches Ok(n) ==> start + n <= buf@.len(),
        r matches Err(e) ==> e != IoError::Interrupted,
        r matches Err(e) ==> spec_is_platform_error(e),
{
    loop {
        match rustix::io::pwrite(fd, &buf[start..], offset) {
            Ok(n) => return Ok(n),
            Err(e) if e == rustix::io::Errno::INTR => continue,
            Err(e) => return Err(io_error_from_raw(e.raw_os_error())),
        }
    }
}

/// Relies on `rustix::fs::seek`: repositions the handle's cursor and returns
/// the resulting position from the start; seeking to an absolute position
/// results in exactly that position.
#[verifier::external_body]
pub(crate) fn seek_fd(fd: &rustix::fd::OwnedFd, pos: SeekFrom) -> (r: Result<u64, IoError>)
    ensures
        r matches Ok(p) ==> (pos matches SeekFrom::Start(o) ==> p == o),
        r matches Err(e) ==> e != IoError::Interrupted,
{
    let raw = match pos {
        SeekFrom::Start(o) => rustix::fs::SeekFrom::Start(o),
        SeekFrom::End(d) => rustix::fs::SeekFrom::End(d),
        SeekFrom::Current(d) => rustix::fs::SeekFrom::Current(d),
    };
    loop {
        match rustix::fs::seek(fd, raw) {
            Ok(p) => return Ok(p),
            Err(e) if e == rustix::io::Errno::INTR => continue,
            Err(e) => return Err(io_error_from_raw(e.raw_os_error())),
        }
    }
}

/// Relies on `rustix::fs::tell`: returns the current cursor position without
/// changing any state.
#[verifier::external_body]
pub(crate) fn tell_fd(fd: &rustix::fd::OwnedFd) -> (r: Result<u64, IoError>)
    ensures
        r matches Err(e) ==> e != IoError::Interrupted,
{
    loop {
        match rustix::fs::tell(fd) {
            Ok(p) => return Ok(p),
            Err(e) if e == rustix::io::Errno::INTR => continue,
            Err(e) => return Err(io_error_from_raw(e.raw_os_error())),
        }
    }
}

/// Relies on `rustix::io::read`: reads at most the requested length at the
/// handle's cursor, placing the bytes read at the front of the given slice
/// and leaving the rest untouched; a failed read transfers nothing.
#[verifier::external_body]
pub(crate) fn read_cursor(fd: &rustix::fd::OwnedFd, buf: &mut Vec<u8>, start: usize) -> (r: Result<
    usize,
    IoError,
>)
    requires
        start <= old(buf).len(),
    ensures
        final(buf)@.len() == old(buf)@.len(),
        r matches Ok(n) ==> start + n <= old(buf)@.len(),
        r matches Ok(n) ==> forall|i: int|
            (0 <= i < start || start + n <= i < old(buf)@.len()) ==> final(buf)@[i] == old(
                buf,
            )@[i],
        r matches Err(_) ==> final(buf)@ == old(buf)@,
        r matches Err(e) ==> e != IoError::Interrupted,
{
    loop {
        match rustix::io::read(fd, &mut buf[start..]) {
            Ok(n) => return Ok(n),
            Err(e) if e == rustix::io::Errno::INTR => continue,
            Err(e) => return Err(io_error_from_raw(e.raw_os_error())),
        }
    }
}

/// Relies on `rustix::io::write`: writes at most the given bytes at the
/// handle's cursor and reports how many were written.
#[verifier::external_body]
pub(crate) fn write_cursor(fd: &rustix::fd::OwnedFd, buf: &Vec<u8>, start: usize) -> (r: Result<
    usize,
    IoError,
>)
    requires
        start <= buf.len(),
    ensures
        r matches Ok(n) ==> start + n <= buf@.len(),
        r matches Err(e) ==> e != IoError::Interrupted,
{
    loop {
        match rustix::io::write(fd, &buf[start..]) {
            Ok(n) => return Ok(n),
            Err(e) if e == rustix::io::Errno::INTR => continue,
            Err(e) => return Err(io_error_from_raw(e.raw_os_error())),
        }
    }
}

/// Relies on `rustix::io::preadv`: one scatter read at the given offset. It
/// fills the first `n` remaining bytes of the list in order, changes nothing
/// past them, and never changes the shape of the buffers.
#[verifier::external_body]
pub(crate) fn preadv_fill(fd: &rustix::fd::OwnedFd, bufs: &mut BufferList, offset: u64) -> (r:
    Result<usize, IoError>)
    requires
        old(bufs).wf(),
        old(bufs)@.len() > 0,
    ensures
        final(bufs).wf(),
        final(bufs)@.len() == old(bufs)@.len(),
        forall|i: int| 0 <= i < old(bufs)@.len() ==> final(bufs)@[i].len() == old(bufs)@[i].len(),
        final(bufs).full_view().len() == old(bufs).full_view().len(),
        forall|i: int|
            0 <= i < old(bufs).full_view().len() ==> final(bufs).full_view()[i].len() == old(
                bufs,
            ).full_view()[i].len(),
        r matches Ok(n) ==> n as nat <= total_len(old(bufs)@),
        r matches Ok(n) ==> final(bufs)@.flatten().skip(n as int) == old(bufs)@.flatten().skip(
            n as int,
        ),
        r matches Err(e) ==> e != IoError::Interrupted,
        r matches Err(e) ==> spec_is_platform_error(e),
{
    let s = bufs.start;
    let k = bufs.skip;
    let (first, rest) = bufs.bufs[s..].split_first_mut().unwrap();
    let mut ios: Vec<IoSliceMut> = Vec::with_capacity(rest.len() + 1);
    ios.push(IoSliceMut::new(&mut first[k..]));
    for b in rest.iter_mut() {
        ios.push(IoSliceMut::new(b));
    }
    loop {
        match rustix::io::preadv(fd, &mut ios, offset) {
            Ok(n) => return Ok(n),
            Err(e) if e == rustix::io::Errno::INTR => continue,
            Err(e) => return Err(io_error_from_raw(e.raw_os_error())),
        }
    }
}

/// Relies on `rustix::io::readv`: one scatter read at the handle's cursor,
/// with the same buffer discipline as the positional variant.
#[verifier::external_body]
pub(crate) fn readv_cursor(fd: &rustix::fd::OwnedFd, bufs: &mut BufferList) -> (r: Result<
    usize,
    IoError,
>)
    requires
        old(bufs).wf(),
        old(bufs)@.len() > 0,
    ensures
        final(bufs).wf(),
        final(bufs)@.len() == old(bufs)@.len(),
        forall|i: int| 0 <= i < old(bufs)@.len() ==> final(bufs)@[i].len() == old(bufs)@[i].len(),
        final(bufs).full_view().len() == old(bufs).full_view().len(),
        forall|i: int|
            0 <= i < old(bufs).full_view().len() ==> final(bufs).full_view()[i].len() == old(
                bufs,
            ).full_view()[i].len(),
        r matches Ok(n) ==> n as nat <= total_len(old(bufs)@),
        r matches Ok(n) ==> final(bufs)@.flatten().skip(n as int) == old(bufs)@.flatten().skip(
            n as int,
        ),
        r matches Err(e) ==> e != IoError::Interrupted,
{
    let s = bufs.start;
    let k = bufs.skip;
    let (first, rest) = bufs.bufs[s..].split_first_mut().unwrap();
    let mut ios: Vec<IoSliceMut> = Vec::with_capacity(rest.len() + 1);
    ios.push(IoSliceMut::new(&mut first[k..]));
    for b in rest.iter_mut() {
        ios.push(IoSliceMut::new(b));
    }
    loop {
        match rustix::io::readv(fd, &mut ios) {
            Ok(n) => return Ok(n),
            Err(e) if e == rustix::io::Errno::INTR => continue,
            Err(e) => return Err(io_error_from_raw(e.raw_os_error())),
        }
    }
}

/// Relies on `rustix::io::pwritev`: one gather write at the given offset,
/// writing at most the bytes that remain in the list and changing none of
/// them.
#[verifier::external_body]
pub(crate) fn pwritev_from(fd: &rustix::fd::OwnedFd, bufs: &BufferList, offset: u64) -> (r: Result<
    usize,
    IoError,
>)
    requires
        bufs.wf(),
        bufs@.len() > 0,
    ensures
        r matches Ok(n) ==> n as nat <= total_len(bufs@),
        r matches Err(e) ==> e != IoError::Interrupted,
        r matches Err(e) ==> spec_is_platform_error(e),
{
    let s = bufs.start;
    let k = bufs.skip;
    let mut ios: Vec<IoSlice> = Vec::with_capacity(bufs.bufs.len() - s);
    ios.push(IoSlice::new(&bufs.bufs[s][k..]));
    for b in &bufs.bufs[s + 1..] {
        ios.push(IoSlice::new(b));
    }
    loop {
        match rustix::io::pwritev(fd, &ios, offset) {
            Ok(n) => return Ok(n),
            Err(e) if e == rustix::io::Errno::INTR => continue,
            Err(e) => return Err(io_error_from_raw(e.raw_os_error())),
        }
    }
}

/// Relies on `rustix::io::writev`: one gather write at the handle's cursor.
#[verifier::external_body]
pub(crate) fn writev_cursor(fd: &rustix::fd::OwnedFd, bufs: &BufferList) -> (r: Result<
    usize,
    IoError,
>)
    requires
        bufs.wf(),
        bufs@.len() > 0,
    ensures
        r matches Ok(n) ==> n as nat <= total_len(bufs@),
        r matches Err(e) ==> e != IoError::Interrupted,
{
    let s = bufs.start;
    let k = bufs.skip;
    let mut ios: Vec<IoSlice> = Vec::with_capacity(bufs.bufs.len() - s);
    ios.push(IoSlice::new(&bufs.bufs[s][k..]));
    for b in &bufs.bufs[s + 1..] {
        ios.push(IoSlice::new(b));
    }
    loop {
        match rustix::io::writev(fd, &ios) {
            Ok(n) => return Ok(n),
            Err(e) if e == rustix::io::Errno::INTR => continue,
            Err(e) => return Err(io_error_from_raw(e.raw_os_error())),
        }
    }
}

/// Relies on `rustix::net::recv` with the peek flag: reads available bytes
/// into the front of the slice without consuming them from the socket,
/// leaving the rest of the slice untouched; a failed call transfers nothing.
/// Fails with the not-a-socket error on handles that are not sockets.
#[verifier::external_body]
pub(crate) fn recv_peek(fd: &rustix::fd::OwnedFd, buf: &mut Vec<u8>) -> (r: Result<usize, IoError>)
    ensures
        final(buf)@.len() == old(buf)@.len(),
        r matches Ok(n) ==> n <= old(buf)@.len(),
        r matches Ok(n) ==> forall|i: int|
            n <= i < old(buf)@.len() ==> final(buf)@[i] == old(buf)@[i],
        r matches Err(_) ==> final(buf)@ == old(buf)@,
        r matches Err(e) ==> e != IoError::Interrupted,
{
    loop {
        match rustix::net::recv(fd, &mut buf[..], rustix::net::RecvFlags::PEEK) {
            Ok((n, _)) => return Ok(n),
            Err(e) if e == rustix::io::Errno::INTR => continue,
            Err(e) => return Err(io_error_from_raw(e.raw_os_error())),
        }
    }
}

/// The platform's append flag bit in a descriptor's status flags.
pub const STATUS_FLAG_APPEND: u32 = 0o2000;

/// The platform's non-blocking flag bit in a descriptor's status flags.
pub const STATUS_FLAG_NONBLOCK: u32 = 0o4000;

/// The platform's data-sync flag bit in a descriptor's status flags.
pub const STATUS_FLAG_DSYNC: u32 = 0o10000;

/// The platform's file-sync flag bits in a descriptor's status flags; the
/// read-sync flag shares these bits.
pub const STATUS_FLAG_SYNC: u32 = 0o4010000;

/// The mask of the access-mode bits in a descriptor's status flags.
pub const ACCESS_MODE_MASK: u32 = 0o3;

/// The access mode of a descriptor opened read-only.
pub const ACCESS_MODE_READ_ONLY: u32 = 0;

/// The access mode of a descriptor opened write-only.
pub const ACCESS_MODE_WRITE_ONLY: u32 = 1;

/// The access mode of a descriptor opened for reading and writing.
pub const ACCESS_MODE_READ_WRITE: u32 = 2;

/// The mask of the file-type bits in a file's mode.
pub const FILE_TYPE_MASK: u32 = 0o170000;

/// The file-type bits of a regular file.
pub const FILE_TYPE_REGULAR: u32 = 0o100000;

/// Relies on `rustix::fs::fcntl_getfl`: returns the descriptor's status
/// flags as their raw bits.
#[verifier::external_body]
pub(crate) fn fcntl_getfl_bits(fd: &rustix::fd::OwnedFd) -> (r: Result<u32, IoError>)
    ensures
        r matches Err(e) ==> e != IoError::Interrupted,
{
    loop {
        match rustix::fs::fcntl_getfl(fd) {
            Ok(f) => return Ok(f.bits()),
            Err(e) if e == rustix::io::Errno::INTR => continue,
            Err(e) => return Err(io_error_from_raw(e.raw_os_error())),
        }
    }
}

/// Relies on `rustix::fs::fcntl_setfl`: sets the descriptor's mutable
/// status flags to the given bits.
#[verifier::external_body]
pub(crate) fn fcntl_setfl_bits(fd: &rustix::fd::OwnedFd, bits: u32) -> (r: Result<(), IoError>)
    ensures
        r matches Err(e) ==> e != IoError::Interrupted,
{
    loop {
        match rustix::fs::fcntl_setfl(fd, rustix::fs::OFlags::from_bits_retain(bits)) {
            Ok(()) => return Ok(()),
            Err(e) if e == rustix::io::Errno::INTR => continue,
            Err(e) => return Err(io_error_from_raw(e.raw_os_error())),
        }
    }
}

/// Relies on `rustix::fs::fstat`: reports the open file's device, index,
/// length, and mode bits.
#[verifier::external_body]
pub(crate) fn fstat_info(fd: &rustix::fd::OwnedFd) -> (r: Result<StatInfo, IoError>)
    ensures
        r matches Err(e) ==> e != IoError::Interrupted,
{
    loop {
        match rustix::fs::fstat(fd) {
            Ok(st) => return Ok(
                StatInfo {
                    device: st.st_dev as u64,
                    index: st.st_ino as u64,
                    size: st.st_size as u64,
                    mode: st.st_mode as u32,
                },
            ),
            Err(e) if e == rustix::io::Errno::INTR => continue,
            Err(e) => return Err(io_error_from_raw(e.raw_os_error())),
        }
    }
}

/// Relies on `rustix::io::pwritev2` with the append flag, single-buffer
/// form: one atomic write of at most the given bytes at the current end of
/// file. Append mode makes the platform ignore the explicit offset, so zero
/// is passed as a sentinel. Reports `Unsupported` where the kernel lacks
/// this call.
#[verifier::external_body]
pub(crate) fn pwritev2_append_one(fd: &rustix::fd::OwnedFd, buf: &Vec<u8>, start: usize) -> (r:
    Result<usize, IoError>)
    requires
        start <= buf.len(),
    ensures
        r matches Ok(n) ==> start + n <= buf@.len(),
        r matches Err(e) ==> e != IoError::Interrupted,
{
    let ios = [IoSlice::new(&buf[start..])];
    loop {
        match rustix::io::pwritev2(fd, &ios, 0, rustix::io::ReadWriteFlags::APPEND) {
            Ok(n) => return Ok(n),
            Err(e) if e == rustix::io::Errno::INTR => continue,
            Err(e) => return Err(io_error_from_raw(e.raw_os_error())),
        }
    }
}

/// Relies on `rustix::io::pwritev2` with the append flag, gather form: one
/// atomic write of at most the bytes remaining in the list at the current
/// end of file, under the same sentinel-offset convention as the
/// single-buffer form. Reports `Unsupported` where the kernel lacks this
/// call.
#[verifier::external_body]
pub(crate) fn pwritev2_append_list(fd: &rustix::fd::OwnedFd, bufs: &BufferList) -> (r: Result<
    usize,
    IoError,
>)
    requires
        bufs.wf(),
        bufs@.len() > 0,
    ensures
        r matches Ok(n) ==> n as nat <= total_len(bufs@),
        r matches Err(e) ==> e != IoError::Interrupted,
{
    let s = bufs.start;
    let k = bufs.skip;
    let mut ios: Vec<IoSlice> = Vec::with_capacity(bufs.bufs.len() - s);
    ios.push(IoSlice::new(&bufs.bufs[s][k..]));
    for b in &bufs.bufs[s + 1..] {
        ios.push(IoSlice::new(b));
    }
    loop {
        match rustix::io::pwritev2(fd, &ios, 0, rustix::io::ReadWriteFlags::APPEND) {
            Ok(n) => return Ok(n),
            Err(e) if e == rustix::io::Errno::INTR => continue,
            Err(e) => return Err(io_error_from_raw(e.raw_os_error())),
        }
    }
}

/// Relies on `rustix::fs::fadvise`: announces the expected access pattern
/// for a range of the file; a zero length means the advice runs to the end
/// of the file.
#[verifier::external_body]
pub(crate) fn fadvise_fd(
    fd: &rustix::fd::OwnedFd,
    offset: u64,
    len: u64,
    advice: crate::file_io_ext::Advice,
) -> (r: Result<(), IoError>)
    ensures
        r matches Err(e) ==> e != IoError::Interrupted,
{
    let raw_advice = match advice {
        crate::file_io_ext::Advice::Normal => rustix::fs::Advice::Normal,
        crate::file_io_ext::Advice::Sequential => rustix::fs::Advice::Sequential,
        crate::file_io_ext::Advice::Random => rustix::fs::Advice::Random,
        crate::file_io_ext::Advice::WillNeed => rustix::fs::Advice::WillNeed,
        crate::file_io_ext::Advice::DontNeed => rustix::fs::Advice::DontNeed,
        crate::file_io_ext::Advice::NoReuse => rustix::fs::Advice::NoReuse,
    };
    loop {
        match rustix::fs::fadvise(fd, offset, core::num::NonZeroU64::new(len), raw_advice) {
            Ok(()) => return Ok(()),
            Err(e) if e == rustix::io::Errno::INTR => continue,
            Err(e) => return Err(io_error_from_raw(e.raw_os_error())),
        }
    }
}

/// Relies on `rustix::fs::fallocate`: allocates space in the file so the
/// given range has no holes, growing the file as needed.
#[verifier::external_body]
pub(crate) fn fallocate_fd(fd: &rustix::fd::OwnedFd, offset: u64, len: u64) -> (r: Result<
    (),
    IoError,
>)
    ensures
        r matches Err(e) ==> e != IoError::Interrupted,
{
    loop {
        match rustix::fs::fallocate(fd, rustix::fs::FallocateFlags::empty(), offset, len) {
            Ok(()) => return Ok(()),
            Err(e) if e == rustix::io::Errno::INTR => continue,
            Err(e) => return Err(io_error_from_raw(e.raw_os_error())),
        }
    }
}

/// Relies on `rustix::fs::open`: resolves the path now and opens the file
/// it names with the requested access mode. Which file the path names by
/// then is up to concurrent renames, so callers must verify identity.
#[verifier::external_body]
pub(crate) fn open_path(path: &str, mode: ReopenMode) -> (r: Result<rustix::fd::OwnedFd, IoError>)
    ensures
        r matches Err(e) ==> e != IoError::Interrupted,
{
    let flags = match mode {
        ReopenMode::Read => rustix::fs::OFlags::RDONLY | rustix::fs::OFlags::CLOEXEC,
        ReopenMode::Write => rustix::fs::OFlags::WRONLY | rustix::fs::OFlags::CLOEXEC,
        ReopenMode::Append => rustix::fs::OFlags::WRONLY | rustix::fs::OFlags::APPEND
            | rustix::fs::OFlags::CLOEXEC,
    };
    loop {
        match rustix::fs::open(path, flags, rustix::fs::Mode::empty()) {
            Ok(fd) => return Ok(fd),
            Err(e) if e == rustix::io::Errno::INTR => continue,
            Err(e) => return Err(io_error_from_raw(e.raw_os_error())),
        }
    }
}

/// Relies on `rustix::fs::open` through the process's own descriptor table
/// (`/proc/self/fd`): a handle-level duplicate of the open file with an
/// independent cursor, which targets the same underlying file object and
/// cannot race with renames of its path.
#[verifier::external_body]
pub(crate) fn reopen_fd(fd: &rustix::fd::OwnedFd, mode: ReopenMode) -> (r: Result<
    rustix::fd::OwnedFd,
    IoError,
>)
    ensures
        r matches Err(e) ==> e != IoError::Interrupted,
{
    let flags = match mode {
        ReopenMode::Read => rustix::fs::OFlags::RDONLY | rustix::fs::OFlags::CLOEXEC,
        ReopenMode::Write => rustix::fs::OFlags::WRONLY | rustix::fs::OFlags::CLOEXEC,
        ReopenMode::Append => rustix::fs::OFlags::WRONLY | rustix::fs::OFlags::APPEND
            | rustix::fs::OFlags::CLOEXEC,
    };
    let path = format!("/proc/self/fd/{}", fd.as_raw_fd());
    loop {
        match rustix::fs::open(&path, flags, rustix::fs::Mode::empty()) {
            Ok(new_fd) => return Ok(new_fd),
            Err(e) if e == rustix::io::Errno::INTR => continue,
            Err(e) => return Err(io_error_from_raw(e.raw_os_error())),
        }
    }
}

/// Relies on `rustix::termios::isatty`: whether the handle refers to a
/// terminal.
#[verifier::external_body]
pub(crate) fn isatty_fd(fd: &rustix::fd::OwnedFd) -> bool {
    rustix::termios::isatty(fd)
}

/// Relies on `rustix::io::ioctl_fionread`: the number of bytes ready to be
/// read from the handle immediately.
#[verifier::external_body]
pub(crate) fn fionread_fd(fd: &rustix::fd::OwnedFd) -> (r: Result<u64, IoError>)
    ensures
        r matches Err(e) ==> e != IoError::Interrupted,
{
    loop {
        match rustix::io::ioctl_fionread(fd) {
            Ok(n) => return Ok(n),
            Err(e) if e == rustix::io::Errno::INTR => continue,
            Err(e) => return Err(io_error_from_raw(e.raw_os_error())),
        }
    }
}

/// Relies on `String::from_utf8`: succeeds exactly on valid UTF-8 and
/// decodes the bytes to their character sequence.
#[verifier::external_body]
pub(crate) fn utf8_string(bytes: Vec<u8>) -> (r: Option<String>)
    ensures
        r is Some <==> vstd::utf8::valid_utf8(bytes@),
        r matches Some(s) ==> s@ == vstd::utf8::decode_utf8(bytes@),
{
    String::from_utf8(bytes).ok()
}

} // verus!
