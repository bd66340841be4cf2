use system_interface::FileHandle;
use system_interface::FileIoExt;
use system_interface::IoExt;

fn new_file(dir: &tempfile::TempDir, name: &str) -> FileHandle {
    let fd = rustix::fs::open(
        dir.path().join(name),
        rustix::fs::OFlags::CREATE
            | rustix::fs::OFlags::EXCL
            | rustix::fs::OFlags::RDWR
            | rustix::fs::OFlags::CLOEXEC,
        rustix::fs::Mode::from_raw_mode(0o600),
    )
    .unwrap();
    FileHandle::from_fd(fd)
}

#[test]
fn read_to_end_at() {
    let dir = tempfile::tempdir().unwrap();
    let file = new_file(&dir, "file");
    file.write_all(&b"abcdefghijklmnopqrstuvwxyz".to_vec())
        .unwrap();
    let mut buf: Vec<u8> = Vec::new();
    file.read_to_end_at(&mut buf, 4).unwrap();
    assert_eq!(file.stream_position().unwrap(), 26);
    assert_eq!(&buf, b"efghijklmnopqrstuvwxyz");
}

#[test]
fn read_to_string_at() {
    let dir = tempfile::tempdir().unwrap();
    let file = new_file(&dir, "file");
    file.write_all(&b"abcdefghijklmnopqrstuvwxyz".to_vec())
        .unwrap();
    let mut buf = String::new();
    file.read_to_string_at(&mut buf, 4).unwrap();
    assert_eq!(file.stream_position().unwrap(), 26);
    assert_eq!(buf, "efghijklmnopqrstuvwxyz");
}

#[test]
fn read_to_string_at_error() {
    let dir = tempfile::tempdir().unwrap();
    let file = new_file(&dir, "file");
    file.write_all(&b"abcdefghijklmnopqrstuvwxyz\xc0".to_vec())
        .unwrap();
    let mut buf = String::new();
    assert!(file.read_to_string_at(&mut buf, 4).is_err());
    assert!(buf.is_empty());
}

#[test]
fn read_to_end_at_appends_after_existing_bytes() {
    let dir = tempfile::tempdir().unwrap();
    let file = new_file(&dir, "file");
    file.write_all(&b"abcdef".to_vec()).unwrap();
    let mut buf: Vec<u8> = b"keep:".to_vec();
    assert_eq!(file.read_to_end_at(&mut buf, 2).unwrap(), 4);
    assert_eq!(&buf, b"keep:cdef");
}

#[test]
fn read_to_end_past_the_end_reads_nothing() {
    let dir = tempfile::tempdir().unwrap();
    let file = new_file(&dir, "file");
    file.write_all(&b"abc".to_vec()).unwrap();
    let mut buf: Vec<u8> = Vec::new();
    assert_eq!(file.read_to_end_at(&mut buf, 100).unwrap(), 0);
    assert!(buf.is_empty());
}
