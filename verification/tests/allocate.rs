use system_interface::Advice;
use system_interface::FileHandle;
use system_interface::FileIoExt;

fn new_file(dir: &tempfile::TempDir, name: &str) -> FileHandle {
    let fd = rustix::fs::open(
        dir.path().join(name),
        rustix::fs::OFlags::CREATE
            | rustix::fs::OFlags::EXCL
            | rustix::fs::OFlags::RDWR
            | rustix::fs::OFlags::CLOEXEC,
        rustix::fs::Mode::from_raw_mode(0o600),
    )
    .unwrap();
    FileHandle::from_fd(fd)
}

fn file_len(file: &FileHandle) -> u64 {
    file.stat().unwrap().size
}

#[test]
fn allocate_allocate() {
    let dir = tempfile::tempdir().unwrap();
    let file = new_file(&dir, "file");

    assert_eq!(file_len(&file), 0);

    file.allocate(1024, 1024).unwrap();
    assert_eq!(file_len(&file), 1024 + 1024);

    file.allocate(1024, 1024).unwrap();
    assert_eq!(file_len(&file), 1024 + 1024);

    file.allocate(4096, 4096).unwrap();
    assert_eq!(file_len(&file), 4096 + 4096);
}

#[test]
fn advise_accepts_every_pattern()  {
    let dir = tempfile::tempdir().unwrap();
    let file = new_file(&dir, "file");
    file.allocate(0, 4096).unwrap();
    file.advise(0, 4096, Advice::Normal).unwrap();
    file.advise(0, 4096, Advice::Sequential).unwrap();
    file.advise(0, 4096, Advice::Random).unwrap();
    file.advise(0, 4096, Advice::WillNeed).unwrap();
    file.advise(0, 4096, Advice::DontNeed).unwrap();
    file.advise(0, 4096, Advice::NoReuse).unwrap();
}
