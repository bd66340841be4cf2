use system_interface::ByteCursor;
use system_interface::FileHandle;
use system_interface::FileIoExt;
use system_interface::IoExt;
use system_interface::Peek;
use system_interface::ReadReady;
use system_interface::SeekFrom;

#[test]
fn test_peek() {
    let mut input = ByteCursor::new(b"hello".to_vec());
    let mut buf = vec![0u8; 20];

    // Do a peek.
    assert_eq!(Peek::peek(&mut input, &mut buf).unwrap(), 5);
    assert_eq!(&buf[..5], b"hello");
    assert_eq!(input.position(), 0);

    // Peek doesn't advance the cursor.
    assert_eq!(Peek::peek(&mut input, &mut buf).unwrap(), 5);
    assert_eq!(&buf[..5], b"hello");
    assert_eq!(input.position(), 0);

    // Read does.
    assert_eq!(input.read(&mut buf), 5);
    assert_eq!(&buf[..5], b"hello");
    assert_eq!(input.position(), 5);
}

#[test]
fn byte_cursor_reports_ready_bytes() {
    let mut input = ByteCursor::new(b"hello".to_vec());
    assert_eq!(input.num_ready_bytes().unwrap(), 5);
    let mut buf = vec![0u8; 2];
    assert_eq!(input.read(&mut buf), 2);
    assert_eq!(&buf, b"he");
    assert_eq!(input.num_ready_bytes().unwrap(), 3);
}

#[test]
fn file_peek_reads_at_the_cursor_without_moving_it() {
    let dir = tempfile::tempdir().unwrap();
    let fd = rustix::fs::open(
        dir.path().join("file"),
        rustix::fs::OFlags::CREATE
            | rustix::fs::OFlags::EXCL
            | rustix::fs::OFlags::RDWR
            | rustix::fs::OFlags::CLOEXEC,
        rustix::fs::Mode::from_raw_mode(0o600),
    )
    .unwrap();
    let file = FileHandle::from_fd(fd);
    file.write_all(&b"abcdefghijklmnopqrstuvwxyz".to_vec())
        .unwrap();
    file.seek(SeekFrom::Start(4)).unwrap();
    let mut buf = vec![0u8; 8];
    let n = IoExt::peek(&file, &mut buf).unwrap();
    assert_eq!(n, 8);
    assert_eq!(&buf, b"efghijkl");
    assert_eq!(file.stream_position().unwrap(), 4);
}

#[test]
fn socket_peek_does_not_consume() {
    let (a, b) = rustix::net::socketpair(
        rustix::net::AddressFamily::UNIX,
        rustix::net::SocketType::STREAM,
        rustix::net::SocketFlags::CLOEXEC,
        None,
    )
    .unwrap();
    let writer = FileHandle::from_fd(a);
    let reader = FileHandle::from_fd(b);
    writer.write_all(&b"hello".to_vec()).unwrap();
    let mut buf = vec![0u8; 20];
    assert_eq!(IoExt::peek(&reader, &mut buf).unwrap(), 5);
    assert_eq!(&buf[..5], b"hello");
    // The bytes are still there for a real read.
    let mut buf2 = vec![0u8; 5];
    reader.read_exact(&mut buf2).unwrap();
    assert_eq!(&buf2, b"hello");
}

#[test]
fn socket_reports_queued_bytes() {
    let (a, b) = rustix::net::socketpair(
        rustix::net::AddressFamily::UNIX,
        rustix::net::SocketType::STREAM,
        rustix::net::SocketFlags::CLOEXEC,
        None,
    )
    .unwrap();
    let writer = FileHandle::from_fd(a);
    let reader = FileHandle::from_fd(b);
    writer.write_all(&b"hello".to_vec()).unwrap();
    assert_eq!(reader.num_ready_bytes().unwrap(), 5);
}
