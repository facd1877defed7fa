use dup::Dup;
use dup::Handle;

fn open_file(path: &str) -> i32 {
    nix::fcntl::open(
        path,
        nix::fcntl::OFlag::O_RDWR | nix::fcntl::OFlag::O_CREAT | nix::fcntl::OFlag::O_TRUNC,
        nix::sys::stat::Mode::from_bits_truncate(0o600),
    )
    .unwrap()
}

fn open_readonly(path: &str) -> i32 {
    nix::fcntl::open(
        path,
        nix::fcntl::OFlag::O_RDONLY,
        nix::sys::stat::Mode::empty(),
    )
    .unwrap()
}

fn set_nonblocking(fd: i32) {
    nix::fcntl::fcntl(
        fd,
        nix::fcntl::FcntlArg::F_SETFL(nix::fcntl::OFlag::O_NONBLOCK),
    )
    .unwrap();
}

fn write_all(h: &Handle, bytes: &[u8]) {
    let mut off: usize = 0;
    while off < bytes.len() {
        let n = h.write(&bytes[off..]).unwrap();
        assert!(n > 0, "write made no progress");
        off += n;
    }
}

fn read_exact(h: &Handle, want: usize) -> Vec<u8> {
    let mut out: Vec<u8> = Vec::new();
    while out.len() < want {
        let mut buf: Vec<u8> = vec![0u8; want - out.len()];
        let n = h.read(&mut buf).unwrap();
        assert!(n > 0, "stream ended before all bytes arrived");
        out.extend_from_slice(&buf[..n]);
    }
    out
}

fn assert_nothing_readable(h: &Handle) {
    set_nonblocking(h.fd());
    let mut buf: Vec<u8> = vec![0u8; 1];
    let err = h.read(&mut buf).unwrap_err();
    assert_eq!(err.code(), nix::errno::Errno::EAGAIN as i32);
}

fn count_open_descriptors() -> usize {
    let mut count: usize = 0;
    for fd in 0..256 {
        if nix::fcntl::fcntl(fd, nix::fcntl::FcntlArg::F_GETFD).is_ok() {
            count += 1;
        }
    }
    count
}

fn read_whole_file(path: &str) -> Vec<u8> {
    let fd = open_readonly(path);
    let mut out: Vec<u8> = Vec::new();
    loop {
        let mut buf: Vec<u8> = vec![0u8; 64];
        let n = nix::unistd::read(fd, &mut buf).unwrap();
        if n == 0 {
            break;
        }
        out.extend_from_slice(&buf[..n]);
    }
    nix::unistd::close(fd).unwrap();
    out
}

#[test]
fn redirect_captures_writes_to_descriptor() {
    let path = "/tmp/dup_redirect_captures.txt";
    let target = open_file(path);
    let (reader, original) = Dup::new(target).unwrap();
    let n = nix::unistd::write(target, b"abc").unwrap();
    assert_eq!(n, 3);
    let got = read_exact(&reader, 3);
    assert_eq!(got, b"abc".to_vec());
    reader.close().unwrap();
    original.close().unwrap();
    nix::unistd::close(target).unwrap();
}

#[test]
fn redirect_keeps_original_destination_reachable() {
    let path = "/tmp/dup_redirect_original.txt";
    let target = open_file(path);
    let (reader, original) = Dup::new(target).unwrap();
    assert!(original.fd() >= 0);
    assert_ne!(original.fd(), target);
    let n = nix::unistd::write(target, b"abc").unwrap();
    assert_eq!(n, 3);
    let got = read_exact(&reader, 3);
    assert_eq!(got, b"abc".to_vec());
    write_all(&original, b"xyz");
    let file_contents = read_whole_file(path);
    assert_eq!(file_contents, b"xyz".to_vec());
    assert_nothing_readable(&reader);
    reader.close().unwrap();
    original.close().unwrap();
    nix::unistd::close(target).unwrap();
}

#[test]
fn redirect_twice_latest_pipe_wins() {
    let path = "/tmp/dup_redirect_twice.txt";
    let target = open_file(path);
    let (first_reader, first_original) = Dup::new(target).unwrap();
    let (second_reader, second_original) = Dup::new(target).unwrap();
    let n = nix::unistd::write(target, b"zz").unwrap();
    assert_eq!(n, 2);
    let got = read_exact(&second_reader, 2);
    assert_eq!(got, b"zz".to_vec());
    assert_nothing_readable(&first_reader);
    first_reader.close().unwrap();
    first_original.close().unwrap();
    second_reader.close().unwrap();
    second_original.close().unwrap();
    nix::unistd::close(target).unwrap();
}

#[test]
fn redirect_and_close_leaks_no_descriptor() {
    let path = "/tmp/dup_redirect_leak.txt";
    let target = open_file(path);
    let baseline = count_open_descriptors();
    for _ in 0..5 {
        let (reader, original) = Dup::new(target).unwrap();
        reader.close().unwrap();
        original.close().unwrap();
    }
    assert_eq!(count_open_descriptors(), baseline);
    nix::unistd::close(target).unwrap();
}

#[test]
fn redirect_closed_descriptor_fails_with_ebadf_and_leaks_nothing() {
    // A high number the kernel's lowest-available allocation never reached,
    // so no step of the redirection can reopen it in passing.
    let unused: i32 = 900;
    assert!(nix::fcntl::fcntl(unused, nix::fcntl::FcntlArg::F_GETFD).is_err());
    let baseline = count_open_descriptors();
    let err = Dup::new(unused).unwrap_err();
    assert_eq!(err.code(), nix::errno::Errno::EBADF as i32);
    assert_eq!(count_open_descriptors(), baseline);
}

#[test]
fn from_raw_handle_writes_to_the_wrapped_descriptor() {
    let path = "/tmp/dup_from_raw.txt";
    let fd = open_file(path);
    let h = Handle::from_raw(fd);
    assert_eq!(h.fd(), fd);
    write_all(&h, b"owned");
    h.close().unwrap();
    assert_eq!(read_whole_file(path), b"owned".to_vec());
}
