use system_interface::BufferList;
use system_interface::FileHandle;
use system_interface::FileIoExt;
use system_interface::IoExt;
use system_interface::SeekFrom;

fn new_file(dir: &tempfile::TempDir, name: &str) -> FileHandle {
    let fd = rustix::fs::open(
        dir.path().join(name),
        rustix::fs::OFlags::CREATE
            | rustix::fs::OFlags::EXCL
            | rustix::fs::OFlags::RDWR
            | rustix::fs::OFlags::CLOEXEC,
        rustix::fs::Mode::from_raw_mode(0o600),
    )
    .unwrap();
    FileHandle::from_fd(fd)
}

fn write_alphabet(file: &FileHandle) {
    file.write_all(&b"abcdefghijklmnopqrstuvwxyz".to_vec())
        .unwrap();
}

fn read_back(file: &FileHandle) -> String {
    let mut back = String::new();
    file.seek(SeekFrom::Start(0)).unwrap();
    file.read_to_string(&mut back).unwrap();
    back
}

#[test]
fn cap_read_exact_vectored_at() {
    let dir = tempfile::tempdir().unwrap();
    let file = new_file(&dir, "file");
    write_alphabet(&file);
    let mut bufs = BufferList::new(vec![vec![0u8; 8], vec![0u8; 8]]);
    file.read_exact_vectored_at(&mut bufs, 4).unwrap();
    assert_eq!(file.stream_position().unwrap(), 26);
    let got = bufs.into_bufs();
    assert_eq!(&got[0], b"efghijkl");
    assert_eq!(&got[1], b"mnopqrst");
}

#[test]
fn read_exact_vectored_at() {
    let dir = tempfile::tempdir().unwrap();
    let file = new_file(&dir, "file");
    write_alphabet(&file);
    let mut bufs = BufferList::new(vec![vec![0u8; 8], vec![0u8; 8]]);
    file.read_exact_vectored_at(&mut bufs, 4).unwrap();
    assert_eq!(file.stream_position().unwrap(), 26);
    let got = bufs.into_bufs();
    assert_eq!(&got[0], b"efghijkl");
    assert_eq!(&got[1], b"mnopqrst");
}

#[test]
fn read_vectored_at() {
    let dir = tempfile::tempdir().unwrap();
    let file = new_file(&dir, "file");
    write_alphabet(&file);
    let mut bufs = BufferList::new(vec![vec![0u8; 8], vec![0u8; 8]]);
    let nread = file.read_vectored_at(&mut bufs, 4).unwrap();
    assert_eq!(file.stream_position().unwrap(), 26);
    let got = bufs.into_bufs();
    if nread >= 8 {
        assert_eq!(&got[0], b"efghijkl");
    }
    if nread == 16 {
        assert_eq!(&got[1], b"mnopqrst");
    }
    assert!(nread <= 16);
}

#[test]
fn read_exact_at() {
    let dir = tempfile::tempdir().unwrap();
    let file = new_file(&dir, "file");
    write_alphabet(&file);
    let mut buf0 = vec![0u8; 8];
    let mut buf1 = vec![0u8; 8];
    file.read_exact_at(&mut buf0, 4).unwrap();
    file.read_exact_at(&mut buf1, 12).unwrap();
    assert_eq!(file.stream_position().unwrap(), 26);
    assert_eq!(&buf0, b"efghijkl");
    assert_eq!(&buf1, b"mnopqrst");
}

#[test]
fn read_exact_vectored() {
    let dir = tempfile::tempdir().unwrap();
    let file = new_file(&dir, "file");
    write_alphabet(&file);
    let mut bufs = BufferList::new(vec![vec![0u8; 8], vec![0u8; 8]]);
    file.seek(SeekFrom::Start(4)).unwrap();
    file.read_exact_vectored(&mut bufs).unwrap();
    assert_eq!(file.stream_position().unwrap(), 20);
    let got = bufs.into_bufs();
    assert_eq!(&got[0], b"efghijkl");
    assert_eq!(&got[1], b"mnopqrst");
}

#[test]
fn read_exact() {
    let dir = tempfile::tempdir().unwrap();
    let file = new_file(&dir, "file");
    write_alphabet(&file);
    let mut buf0 = vec![0u8; 8];
    let mut buf1 = vec![0u8; 8];
    file.seek(SeekFrom::Start(4)).unwrap();
    file.read_exact(&mut buf0).unwrap();
    file.read_exact(&mut buf1).unwrap();
    assert_eq!(file.stream_position().unwrap(), 20);
    assert_eq!(&buf0, b"efghijkl");
    assert_eq!(&buf1, b"mnopqrst");
}

#[test]
fn read_vectored() {
    let dir = tempfile::tempdir().unwrap();
    let file = new_file(&dir, "file");
    write_alphabet(&file);
    let mut bufs = BufferList::new(vec![vec![0u8; 8], vec![0u8; 8]]);
    file.seek(SeekFrom::Start(4)).unwrap();
    let nread = file.read_vectored(&mut bufs).unwrap();
    assert_eq!(file.stream_position().unwrap(), (4 + nread) as u64);
    let got = bufs.into_bufs();
    if nread >= 8 {
        assert_eq!(&got[0], b"efghijkl");
    }
    if nread == 16 {
        assert_eq!(&got[1], b"mnopqrst");
    }
    assert!(nread <= 16);
}

#[test]
fn read_at() {
    let dir = tempfile::tempdir().unwrap();
    let file = new_file(&dir, "file");
    write_alphabet(&file);
    let mut buf0 = vec![0u8; 8];
    let mut buf1 = vec![0u8; 8];
    let nread0 = file.read_at(&mut buf0, 4).unwrap();
    let nread1 = file.read_at(&mut buf1, 12).unwrap();
    assert_eq!(file.stream_position().unwrap(), 26);
    if nread0 == 8 {
        assert_eq!(&buf0, b"efghijkl");
        if nread1 == 8 {
            assert_eq!(&buf1, b"mnopqrst");
        }
    }
    assert!(nread0 <= 8);
    assert!(nread1 <= 8);
}

#[test]
fn read() {
    let dir = tempfile::tempdir().unwrap();
    let file = new_file(&dir, "file");
    write_alphabet(&file);
    let mut buf0 = vec![0u8; 8];
    let mut buf1 = vec![0u8; 8];
    file.seek(SeekFrom::Start(4)).unwrap();
    let nread0 = file.read(&mut buf0).unwrap();
    let nread1 = file.read(&mut buf1).unwrap();
    assert_eq!(
        file.stream_position().unwrap(),
        (4 + nread0 + nread1) as u64
    );
    if nread0 == 8 {
        assert_eq!(&buf0, b"efghijkl");
        if nread1 == 8 {
            assert_eq!(&buf1, b"mnopqrst");
        }
    }
    assert!(nread0 <= 8);
    assert!(nread1 <= 8);
}

#[test]
fn cap_write_all_vectored_at() {
    let dir = tempfile::tempdir().unwrap();
    let file = new_file(&dir, "file");
    write_alphabet(&file);
    let mut bufs = BufferList::new(vec![b"EFGHIJKL".to_vec(), b"MNOPQRST".to_vec()]);
    file.write_all_vectored_at(&mut bufs, 4).unwrap();
    assert_eq!(file.stream_position().unwrap(), 26);
    assert_eq!(read_back(&file), "abcdEFGHIJKLMNOPQRSTuvwxyz");
}

#[test]
fn write_all_vectored_at() {
    let dir = tempfile::tempdir().unwrap();
    let file = new_file(&dir, "file");
    write_alphabet(&file);
    let mut bufs = BufferList::new(vec![b"EFGHIJKL".to_vec(), b"MNOPQRST".to_vec()]);
    file.write_all_vectored_at(&mut bufs, 4).unwrap();
    assert_eq!(file.stream_position().unwrap(), 26);
    assert_eq!(read_back(&file), "abcdEFGHIJKLMNOPQRSTuvwxyz");
}

#[test]
fn write_vectored_at() {
    let dir = tempfile::tempdir().unwrap();
    let file = new_file(&dir, "file");
    write_alphabet(&file);
    let bufs = BufferList::new(vec![b"EFGHIJKL".to_vec(), b"MNOPQRST".to_vec()]);
    let nwritten = file.write_vectored_at(&bufs, 4).unwrap();
    assert_eq!(file.stream_position().unwrap(), 26);
    let back = read_back(&file);
    if nwritten >= 8 {
        assert_eq!(&back[..12], "abcdEFGHIJKL");
    }
    if nwritten == 16 {
        assert_eq!(back, "abcdEFGHIJKLMNOPQRSTuvwxyz");
    }
    assert!(nwritten <= 16);
}

#[test]
fn write_all_at() {
    let dir = tempfile::tempdir().unwrap();
    let file = new_file(&dir, "file");
    write_alphabet(&file);
    file.write_all_at(&b"EFGHIJKL".to_vec(), 4).unwrap();
    file.write_all_at(&b"MNOPQRST".to_vec(), 12).unwrap();
    assert_eq!(file.stream_position().unwrap(), 26);
    assert_eq!(read_back(&file), "abcdEFGHIJKLMNOPQRSTuvwxyz");
}

#[test]
fn write_all_vectored() {
    let dir = tempfile::tempdir().unwrap();
    let file = new_file(&dir, "file");
    write_alphabet(&file);
    let mut bufs = BufferList::new(vec![b"EFGHIJKL".to_vec(), b"MNOPQRST".to_vec()]);
    file.write_all_vectored(&mut bufs).unwrap();
    assert_eq!(file.stream_position().unwrap(), 42);
    assert_eq!(read_back(&file), "abcdefghijklmnopqrstuvwxyzEFGHIJKLMNOPQRST");
}

#[test]
fn write_all() {
    let dir = tempfile::tempdir().unwrap();
    let file = new_file(&dir, "file");
    write_alphabet(&file);
    file.write_all(&b"EFGHIJKL".to_vec()).unwrap();
    file.write_all(&b"MNOPQRST".to_vec()).unwrap();
    assert_eq!(file.stream_position().unwrap(), 42);
    assert_eq!(read_back(&file), "abcdefghijklmnopqrstuvwxyzEFGHIJKLMNOPQRST");
}

#[test]
fn write_vectored() {
    let dir = tempfile::tempdir().unwrap();
    let file = new_file(&dir, "file");
    write_alphabet(&file);
    let bufs = BufferList::new(vec![b"EFGHIJKL".to_vec(), b"MNOPQRST".to_vec()]);
    let nwritten = file.write_vectored(&bufs).unwrap();
    assert_eq!(file.stream_position().unwrap(), (26 + nwritten) as u64);
    let back = read_back(&file);
    assert_eq!(
        back,
        &"abcdefghijklmnopqrstuvwxyzEFGHIJKLMNOPQRST"[..26 + nwritten]
    );
}

#[test]
fn write_at() {
    let dir = tempfile::tempdir().unwrap();
    let file = new_file(&dir, "file");
    write_alphabet(&file);
    let nwritten0 = file.write_at(&b"EFGHIJKL".to_vec(), 4).unwrap();
    let nwritten1 = file.write_at(&b"MNOPQRST".to_vec(), 12).unwrap();
    assert_eq!(file.stream_position().unwrap(), 26);
    let back = read_back(&file);
    if nwritten0 == 8 {
        if nwritten1 == 8 {
            assert_eq!(back, "abcdEFGHIJKLMNOPQRSTuvwxyz");
        } else {
            assert_eq!(&back.as_bytes()[0..4 + nwritten0], b"abcdEFGHIJKL");
        }
    }
    assert!(nwritten0 <= 8);
    assert!(nwritten1 <= 8);
}

#[test]
fn write() {
    let dir = tempfile::tempdir().unwrap();
    let file = new_file(&dir, "file");
    write_alphabet(&file);
    let nwritten0 = file.write(&b"EFGHIJKL".to_vec()).unwrap();
    let nwritten1 = file.write(&b"MNOPQRST".to_vec()).unwrap();
    assert_eq!(
        file.stream_position().unwrap(),
        (26 + nwritten0 + nwritten1) as u64
    );
    let back = read_back(&file);
    if nwritten0 == 8 {
        if nwritten1 == 8 {
            assert_eq!(back, "abcdefghijklmnopqrstuvwxyzEFGHIJKLMNOPQRST");
        } else {
            assert_eq!(&back.as_bytes()[22..26 + nwritten0], b"wxyzEFGHIJKL");
        }
    }
    assert!(nwritten0 <= 8);
    assert!(nwritten1 <= 8);
}
