use system_interface::FileHandle;
use system_interface::IsTerminal;

fn new_file(dir: &tempfile::TempDir, name: &str) -> FileHandle {
    let fd = rustix::fs::open(
        dir.path().join(name),
        rustix::fs::OFlags::CREATE
            | rustix::fs::OFlags::EXCL
            | rustix::fs::OFlags::RDWR
            | rustix::fs::OFlags::CLOEXEC,
        rustix::fs::Mode::from_raw_mode(0o600),
    )
    .unwrap();
    FileHandle::from_fd(fd)
}

#[test]
fn cap_std_file_is_not_terminal() {
    let dir = tempfile::tempdir().unwrap();
    assert!(!new_file(&dir, "file").is_terminal());
}

#[test]
fn std_file_is_not_terminal() {
    let dir = tempfile::tempdir().unwrap();
    assert!(!new_file(&dir, "file").is_terminal());
}

#[test]
fn stdout_stderr_terminals() {
    let stdout = FileHandle::from_fd(rustix::io::dup(&std::io::stdout()).unwrap());
    let stderr = FileHandle::from_fd(rustix::io::dup(&std::io::stderr()).unwrap());
    assert_eq!(stdout.is_terminal(), atty::is(atty::Stream::Stdout));
    assert_eq!(stderr.is_terminal(), atty::is(atty::Stream::Stderr));
}
