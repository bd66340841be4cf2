use system_interface::FileHandle;
use system_interface::FileIoExt;
use system_interface::IoError;
use system_interface::IoExt;
use system_interface::ReadReady;
use system_interface::SeekFrom;

#[test]
fn read_ready_file_is_read_write() {
    let dir = tempfile::tempdir().unwrap();
    let fd = rustix::fs::open(
        dir.path().join("file"),
        rustix::fs::OFlags::CREATE | rustix::fs::OFlags::RDWR | rustix::fs::OFlags::CLOEXEC,
        rustix::fs::Mode::from_raw_mode(0o600),
    )
    .unwrap();
    let f = FileHandle::from_fd(fd);
    f.write_all(&b"[package]\nname = \"demo\"\nversion = \"0.1.0\"\n".to_vec())
        .unwrap();

    let len = f.seek(SeekFrom::End(0)).unwrap();
    f.seek(SeekFrom::Start(0)).unwrap();
    assert_eq!(f.num_ready_bytes().unwrap(), len);

    let mut buf = vec![0u8; 6];
    f.read_exact(&mut buf).unwrap();
    assert_eq!(f.num_ready_bytes().unwrap(), len - (buf.len() as u64));

    let fd = rustix::fs::open(
        "/dev/urandom",
        rustix::fs::OFlags::RDONLY | rustix::fs::OFlags::CLOEXEC,
        rustix::fs::Mode::empty(),
    )
    .unwrap();
    let _ = FileHandle::from_fd(fd).num_ready_bytes().unwrap();

    let fd = rustix::fs::open(
        "/dev/null",
        rustix::fs::OFlags::RDONLY | rustix::fs::OFlags::CLOEXEC,
        rustix::fs::Mode::empty(),
    )
    .unwrap();
    let _ = FileHandle::from_fd(fd).num_ready_bytes().unwrap();
}

#[test]
fn write_only_file_is_not_ready_for_reading() {
    let dir = tempfile::tempdir().unwrap();
    let fd = rustix::fs::open(
        dir.path().join("file"),
        rustix::fs::OFlags::CREATE | rustix::fs::OFlags::WRONLY | rustix::fs::OFlags::CLOEXEC,
        rustix::fs::Mode::from_raw_mode(0o600),
    )
    .unwrap();
    let f = FileHandle::from_fd(fd);
    assert_eq!(f.num_ready_bytes().unwrap_err(), IoError::InvalidInput);
}
