use system_interface::FileHandle;
use system_interface::FileIoExt;
use system_interface::IoError;
use system_interface::IoExt;
use system_interface::ReopenMode;

fn new_file(dir: &tempfile::TempDir, name: &str) -> FileHandle {
    let fd = rustix::fs::open(
        dir.path().join(name),
        rustix::fs::OFlags::CREATE
            | rustix::fs::OFlags::EXCL
            | rustix::fs::OFlags::RDWR
            | rustix::fs::OFlags::CLOEXEC,
        rustix::fs::Mode::from_raw_mode(0o600),
    )
    .unwrap();
    FileHandle::from_fd(fd)
}

fn open_readonly(dir: &tempfile::TempDir, name: &str) -> FileHandle {
    let fd = rustix::fs::open(
        dir.path().join(name),
        rustix::fs::OFlags::RDONLY | rustix::fs::OFlags::CLOEXEC,
        rustix::fs::Mode::empty(),
    )
    .unwrap();
    FileHandle::from_fd(fd)
}

/// `read_at` works even when the underlying file is renamed.
#[test]
fn live_rename() {
    let dir = tempfile::tempdir().unwrap();
    let file = new_file(&dir, "file");
    file.write_all(&b"abcdefghijklmnopqrstuvwxyz".to_vec())
        .unwrap();

    let file = new_file(&dir, "file.upper");
    file.write_all(&b"ABCDEFGHIJKLMNOPQRSTUVWXYZ".to_vec())
        .unwrap();

    let mut buf = vec![0u8; 8];
    let file = open_readonly(&dir, "file");
    file.read_exact_at(&mut buf, 8).unwrap();
    assert_eq!(&buf, b"ijklmnop");

    rustix::fs::rename(dir.path().join("file"), dir.path().join("renamed")).unwrap();

    file.read_exact_at(&mut buf, 16).unwrap();
    assert_eq!(&buf, b"qrstuvwx");

    rustix::fs::rename(dir.path().join("file.upper"), dir.path().join("file")).unwrap();

    file.read_exact_at(&mut buf, 12).unwrap();
    assert_eq!(&buf, b"mnopqrst");

    assert_eq!(file.stream_position().unwrap(), 0);
}

/// When the file a path-based duplicate resolves is no longer the file the
/// handle was opened on, the operation fails with the concurrent-rename
/// condition instead of returning the other file's data.
#[test]
fn path_reopen_detects_concurrent_rename() {
    let dir = tempfile::tempdir().unwrap();
    let file = new_file(&dir, "file");
    file.write_all(&b"abcdefghijklmnopqrstuvwxyz".to_vec())
        .unwrap();
    let other = new_file(&dir, "file.upper");
    other
        .write_all(&b"ABCDEFGHIJKLMNOPQRSTUVWXYZ".to_vec())
        .unwrap();

    let handle = open_readonly(&dir, "file");
    let path = dir.path().join("file");
    let path_str = path.to_str().unwrap();

    // While the path still names the same file, the checked reopen works.
    let mut buf = vec![0u8; 8];
    handle
        .read_exact_at_via_path(path_str, &mut buf, 8)
        .unwrap();
    assert_eq!(&buf, b"ijklmnop");

    // Rename the file away and a different file into its place.
    rustix::fs::rename(dir.path().join("file"), dir.path().join("renamed")).unwrap();
    rustix::fs::rename(dir.path().join("file.upper"), dir.path().join("file")).unwrap();

    // The identity check refuses the duplicate rather than reading the
    // other file's bytes.
    let err = handle
        .read_exact_at_via_path(path_str, &mut buf, 8)
        .unwrap_err();
    assert_eq!(err, IoError::ConcurrentRename);
    let err = handle.reopen_at_path(path_str, ReopenMode::Read).unwrap_err();
    assert_eq!(err, IoError::ConcurrentRename);
    let err = handle
        .append_via_path(path_str, &b"zzz".to_vec())
        .unwrap_err();
    assert_eq!(err, IoError::ConcurrentRename);

    // The by-handle duplicate still targets the original file.
    let n = handle.read_at_via_reopen(&mut buf, 16).unwrap();
    assert_eq!(n, 8);
    assert_eq!(&buf, b"qrstuvwx");
}
