use system_interface::FdFlags;
use system_interface::FileHandle;
use system_interface::FileIoExt;
use system_interface::GetSetFdFlags;
use system_interface::IoError;
use system_interface::IoExt;
use system_interface::SeekFrom;

fn open_with(dir: &tempfile::TempDir, name: &str, flags: rustix::fs::OFlags) -> FileHandle {
    let fd = rustix::fs::open(
        dir.path().join(name),
        flags | rustix::fs::OFlags::CLOEXEC,
        rustix::fs::Mode::from_raw_mode(0o600),
    )
    .unwrap();
    FileHandle::from_fd(fd)
}

#[test]
fn test_get_set_fd_flags() {
    let dir = tempfile::tempdir().unwrap();
    let mut file = open_with(
        &dir,
        "file",
        rustix::fs::OFlags::CREATE | rustix::fs::OFlags::RDWR,
    );

    let flags = file.get_fd_flags().unwrap();
    assert!(!flags.sync);
    assert!(!flags.append);
    assert!(!flags.nonblock);

    let set_fd_flags = file
        .new_set_fd_flags(FdFlags { append: true, ..FdFlags::none() })
        .unwrap();
    file.set_fd_flags(set_fd_flags).unwrap();

    let flags = file.get_fd_flags().unwrap();
    assert!(!flags.sync);
    assert!(flags.append);
    assert!(!flags.nonblock);

    let set_fd_flags = file
        .new_set_fd_flags(FdFlags { nonblock: true, ..FdFlags::none() })
        .unwrap();
    file.set_fd_flags(set_fd_flags).unwrap();

    let flags = file.get_fd_flags().unwrap();
    assert!(!flags.sync);
    assert!(!flags.append);
    assert!(flags.nonblock);
}

#[test]
fn sync_flags_cannot_be_set_dynamically() {
    let dir = tempfile::tempdir().unwrap();
    let file = open_with(
        &dir,
        "file",
        rustix::fs::OFlags::CREATE | rustix::fs::OFlags::RDWR,
    );
    let err = file
        .new_set_fd_flags(FdFlags { sync: true, ..FdFlags::none() })
        .unwrap_err();
    assert_eq!(err, IoError::Unsupported);
    let err = file
        .new_set_fd_flags(FdFlags { dsync: true, ..FdFlags::none() })
        .unwrap_err();
    assert_eq!(err, IoError::Unsupported);
    let err = file
        .new_set_fd_flags(FdFlags { rsync: true, ..FdFlags::none() })
        .unwrap_err();
    assert_eq!(err, IoError::Unsupported);
}

#[test]
fn test_append() {
    let dir = tempfile::tempdir().unwrap();
    let file = open_with(
        &dir,
        "file",
        rustix::fs::OFlags::CREATE | rustix::fs::OFlags::RDWR,
    );
    file.write_all(&b"Hello".to_vec()).unwrap();

    let mut with_append = open_with(&dir, "file", rustix::fs::OFlags::WRONLY);
    let set = with_append
        .new_set_fd_flags(FdFlags { append: true, ..FdFlags::none() })
        .unwrap();
    with_append.set_fd_flags(set).unwrap();
    with_append.write_all(&b" world".to_vec()).unwrap();

    let for_read = open_with(&dir, "file", rustix::fs::OFlags::RDONLY);
    let mut s = String::new();
    for_read.read_to_string(&mut s).unwrap();
    assert_eq!(s, "Hello world");

    with_append.seek(SeekFrom::Start(0)).unwrap();
    with_append
        .write_all(&b"The quick brown fox".to_vec())
        .unwrap();

    let for_read = open_with(&dir, "file", rustix::fs::OFlags::RDONLY);
    let mut s = String::new();
    for_read.read_to_string(&mut s).unwrap();
    assert_eq!(s, "Hello worldThe quick brown fox");
}
