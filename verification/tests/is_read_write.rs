use system_interface::FileHandle;
use system_interface::IsReadWrite;

fn open_with(dir: &tempfile::TempDir, name: &str, flags: rustix::fs::OFlags) -> FileHandle {
    let fd = rustix::fs::open(
        dir.path().join(name),
        flags | rustix::fs::OFlags::CLOEXEC,
        rustix::fs::Mode::from_raw_mode(0o600),
    )
    .unwrap();
    FileHandle::from_fd(fd)
}

#[test]
fn is_read_write_file_is_read_write() {
    let dir = tempfile::tempdir().unwrap();

    let file = open_with(
        &dir,
        "file",
        rustix::fs::OFlags::CREATE | rustix::fs::OFlags::TRUNC | rustix::fs::OFlags::RDWR,
    );
    assert_eq!(file.is_read_write().unwrap(), (true, true));

    let file = open_with(
        &dir,
        "file",
        rustix::fs::OFlags::APPEND | rustix::fs::OFlags::RDWR,
    );
    assert_eq!(file.is_read_write().unwrap(), (true, true));

    let file = open_with(
        &dir,
        "file",
        rustix::fs::OFlags::CREATE | rustix::fs::OFlags::TRUNC | rustix::fs::OFlags::WRONLY,
    );
    assert_eq!(file.is_read_write().unwrap(), (false, true));

    let file = open_with(&dir, "file", rustix::fs::OFlags::RDONLY);
    assert_eq!(file.is_read_write().unwrap(), (true, false));
}
