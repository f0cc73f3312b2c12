use syslib::error::Error;
use syslib::fdesc::{Fd, FileDescriptor};
use syslib::flags::{
    FlagSet, MAP_FAMILY, MAP_PRIVATE, MAP_SHARED, MEMFD_FAMILY, OPEN_APPEND, OPEN_CREATE,
    OPEN_FAMILY, OPEN_NON_BLOCKING, OPEN_READ_ONLY, OPEN_READ_WRITE, OPEN_WRITE_ONLY, PROT_FAMILY,
    PROT_READ, PROT_WRITE, REMAP_FAMILY, REMAP_MAY_MOVE,
};
use syslib::kernel::{
    close, fcntl, fstat, ioctl, lstat, memfd_create, mmap, mprotect, mremap, munmap, open, read,
    readv, stat, unlink, Kernel,
};
use syslib::iovec::IoVecMut;
use syslib::mode::Mode;

fn open_flags(bits: u32) -> FlagSet {
    FlagSet::try_new(bits, OPEN_FAMILY).unwrap()
}

#[test]
fn open_write_fstat_close_scenario() {
    // End-to-end against the simulated kernel: create and write a file,
    // observe its size, close it, and watch the raw id go stale.
    let mut k = Kernel::new();
    let mode = Mode::parse(b"rw- --- ---").unwrap();
    assert_eq!(mode, Mode(0o600));
    let mut f = open(&mut k, b"/tmp/out", open_flags(OPEN_CREATE | OPEN_WRITE_ONLY), mode).unwrap();
    let payload = b"hello, kernel";
    assert_eq!(f.write(&mut k, payload), Ok(payload.len()));
    let st = fstat(&k, &f).unwrap();
    assert_eq!(st.size, payload.len() as i64);
    assert_eq!(st.mode, 0o600);
    let raw = f.raw();
    assert_eq!(f.close(&mut k), Ok(()));
    let stale = Fd::from_raw(raw);
    assert_eq!(syslib::kernel::write(&mut k, &stale, b"x"), Err(Error::EBADF));
}

#[test]
fn test_write() {
    // Write a file's metadata rendering to the standard-output descriptor,
    // against a simulated kernel where both exist.
    let mut k = Kernel::new();
    let stdin_stand_in =
        open(&mut k, b"/dev/null", open_flags(OPEN_CREATE | OPEN_WRITE_ONLY), Mode(0o666)).unwrap();
    assert_eq!(stdin_stand_in.raw(), 0);
    let stdout_stand_in = open(&mut k, b"/dev/null", open_flags(OPEN_WRITE_ONLY), Mode(0o666))
        .unwrap();
    assert_eq!(stdout_stand_in.raw(), 1);
    let rendered = format!("{:#?}", stat(&k, b"/dev/null").unwrap());
    let n = syslib::kernel::write(&mut k, &Fd::stdout(), rendered.as_bytes()).unwrap();
    assert_eq!(n, rendered.len());
}

#[test]
fn owned_file_releases_exactly_once() {
    // Explicit close followed by destruction issues one release call.
    let mut k = Kernel::new();
    let mut f = open(&mut k, b"/a", open_flags(OPEN_CREATE | OPEN_WRITE_ONLY), Mode(0o600))
        .unwrap();
    assert_eq!(k.releases.len(), 0);
    assert_eq!(f.close(&mut k), Ok(()));
    assert_eq!(k.releases.len(), 1);
    let raw = f.raw();
    f.release(&mut k);
    assert_eq!(k.releases.len(), 1);
    assert_eq!(k.releases[0], raw);
}

#[test]
fn destruction_alone_releases_once() {
    let mut k = Kernel::new();
    let f = open(&mut k, b"/a", open_flags(OPEN_CREATE | OPEN_WRITE_ONLY), Mode(0o600)).unwrap();
    let raw = f.raw();
    f.release(&mut k);
    assert_eq!(k.releases.len(), 1);
    assert_eq!(k.releases[0], raw);
}

#[test]
fn double_explicit_close_fails_without_second_release() {
    let mut k = Kernel::new();
    let mut f = open(&mut k, b"/a", open_flags(OPEN_CREATE | OPEN_WRITE_ONLY), Mode(0o600))
        .unwrap();
    assert_eq!(f.close(&mut k), Ok(()));
    assert_eq!(f.close(&mut k), Err(Error::EBADF));
    assert_eq!(k.releases.len(), 1);
}

#[test]
fn two_owners_of_one_id_double_release() {
    // Taking ownership of a borrowed view beside the original owner is the
    // documented double-release hazard: both owners issue their call.
    let mut k = Kernel::new();
    let f = open(&mut k, b"/a", open_flags(OPEN_CREATE | OPEN_WRITE_ONLY), Mode(0o600)).unwrap();
    let second = f.fd().owned();
    f.release(&mut k);
    second.release(&mut k);
    assert_eq!(k.releases.len(), 2);
}

#[test]
fn read_returns_prefix_and_leaves_tail() {
    let mut k = Kernel::new();
    let f = open(&mut k, b"/data", open_flags(OPEN_CREATE | OPEN_READ_WRITE), Mode(0o644))
        .unwrap();
    assert_eq!(f.write(&mut k, b"abcde"), Ok(5));
    // A second descriptor on the same path starts at offset zero.
    let g = open(&mut k, b"/data", open_flags(OPEN_READ_ONLY), Mode(0o644)).unwrap();
    let mut buf = vec![0xAAu8; 8];
    assert_eq!(g.read(&mut k, &mut buf), Ok(5));
    assert_eq!(&buf[..5], b"abcde");
    assert_eq!(&buf[5..], &[0xAA, 0xAA, 0xAA]);
    // The offset advanced past the data: the next read finds nothing.
    assert_eq!(g.read(&mut k, &mut buf), Ok(0));
    g.release(&mut k);
    f.release(&mut k);
}

#[test]
fn short_buffer_reads_in_steps() {
    let mut k = Kernel::new();
    let f = open(&mut k, b"/data", open_flags(OPEN_CREATE | OPEN_READ_WRITE), Mode(0o644))
        .unwrap();
    assert_eq!(f.write(&mut k, b"abcdef"), Ok(6));
    let g = open(&mut k, b"/data", open_flags(OPEN_READ_ONLY), Mode(0o644)).unwrap();
    let mut buf = vec![0u8; 4];
    assert_eq!(g.read(&mut k, &mut buf), Ok(4));
    assert_eq!(buf, b"abcd");
    assert_eq!(g.read(&mut k, &mut buf), Ok(2));
    assert_eq!(&buf[..2], b"ef");
    assert_eq!(&buf[2..], b"cd");
}

#[test]
fn access_modes_are_enforced() {
    let mut k = Kernel::new();
    let w = open(&mut k, b"/f", open_flags(OPEN_CREATE | OPEN_WRITE_ONLY), Mode(0o600)).unwrap();
    let mut buf = vec![0u8; 4];
    assert_eq!(read(&mut k, &w, &mut buf), Err(Error::EBADF));
    let r = open(&mut k, b"/f", open_flags(OPEN_READ_ONLY), Mode(0o600)).unwrap();
    assert_eq!(syslib::kernel::write(&mut k, &r, b"x"), Err(Error::EBADF));
}

#[test]
fn append_writes_go_to_the_end() {
    let mut k = Kernel::new();
    let f = open(&mut k, b"/log", open_flags(OPEN_CREATE | OPEN_WRITE_ONLY), Mode(0o600)).unwrap();
    assert_eq!(f.write(&mut k, b"one"), Ok(3));
    let a = open(&mut k, b"/log", open_flags(OPEN_WRITE_ONLY | OPEN_APPEND), Mode(0o600)).unwrap();
    assert_eq!(a.write(&mut k, b"two"), Ok(3));
    let st = fstat(&k, &a).unwrap();
    assert_eq!(st.size, 6);
    let g = open(&mut k, b"/log", open_flags(OPEN_READ_ONLY), Mode(0o600)).unwrap();
    let mut buf = vec![0u8; 6];
    assert_eq!(g.read(&mut k, &mut buf), Ok(6));
    assert_eq!(buf, b"onetwo");
}

#[test]
fn overwrite_in_the_middle() {
    let mut k = Kernel::new();
    let f = open(&mut k, b"/f", open_flags(OPEN_CREATE | OPEN_READ_WRITE), Mode(0o600)).unwrap();
    assert_eq!(f.write(&mut k, b"abcdef"), Ok(6));
    let g = open(&mut k, b"/f", open_flags(OPEN_READ_WRITE), Mode(0o600)).unwrap();
    assert_eq!(g.write(&mut k, b"XY"), Ok(2));
    let h = open(&mut k, b"/f", open_flags(OPEN_READ_ONLY), Mode(0o600)).unwrap();
    let mut buf = vec![0u8; 6];
    assert_eq!(h.read(&mut k, &mut buf), Ok(6));
    assert_eq!(buf, b"XYcdef");
}

#[test]
fn open_without_create_needs_an_entry() {
    let mut k = Kernel::new();
    assert!(matches!(
        open(&mut k, b"/absent", open_flags(OPEN_READ_ONLY), Mode(0)),
        Err(Error::ENOENT)
    ));
}

#[test]
fn nonblocking_flag_is_recorded() {
    let mut k = Kernel::new();
    let f = open(
        &mut k,
        b"/f",
        open_flags(OPEN_CREATE | OPEN_WRITE_ONLY | OPEN_NON_BLOCKING),
        Mode(0o600),
    )
    .unwrap();
    let fl = fcntl(&mut k, &f, syslib::fcntl::Fcntl::GetFl).unwrap();
    assert_ne!(fl & OPEN_NON_BLOCKING, 0);
}

#[test]
fn stat_and_lstat_follow_the_directory() {
    let mut k = Kernel::new();
    let f = open(&mut k, b"/s", open_flags(OPEN_CREATE | OPEN_WRITE_ONLY), Mode(0o640)).unwrap();
    assert_eq!(f.write(&mut k, b"1234"), Ok(4));
    let st = stat(&k, b"/s").unwrap();
    assert_eq!(st.size, 4);
    assert_eq!(st.mode, 0o640);
    assert_eq!(st.link_count, 1);
    let lst = lstat(&k, b"/s").unwrap();
    assert_eq!(lst.size, 4);
    assert!(matches!(stat(&k, b"/missing"), Err(Error::ENOENT)));
}

#[test]
fn unlink_leaves_open_descriptors_alive() {
    let mut k = Kernel::new();
    let f = open(&mut k, b"/u", open_flags(OPEN_CREATE | OPEN_READ_WRITE), Mode(0o600)).unwrap();
    assert_eq!(f.write(&mut k, b"keep"), Ok(4));
    assert_eq!(unlink(&mut k, b"/u"), Ok(()));
    assert!(matches!(stat(&k, b"/u"), Err(Error::ENOENT)));
    assert!(matches!(unlink(&mut k, b"/u"), Err(Error::ENOENT)));
    // The open descriptor still reaches the object; the name is gone.
    let st = fstat(&k, &f).unwrap();
    assert_eq!(st.size, 4);
    assert_eq!(st.link_count, 0);
    assert_eq!(f.write(&mut k, b"!"), Ok(1));
}

#[test]
fn memfd_is_anonymous_and_writable() {
    let mut k = Kernel::new();
    let flags = FlagSet::try_new(0, MEMFD_FAMILY).unwrap();
    let f = memfd_create(&mut k, b"scratch", flags).unwrap();
    assert_eq!(f.write(&mut k, b"volatile"), Ok(8));
    let st = fstat(&k, &f).unwrap();
    assert_eq!(st.size, 8);
    assert_eq!(st.link_count, 0);
    // No directory entry names it.
    assert!(matches!(stat(&k, b"scratch"), Err(Error::ENOENT)));
}

#[test]
fn readv_scatters_across_buffers() {
    let mut k = Kernel::new();
    let f = open(&mut k, b"/v", open_flags(OPEN_CREATE | OPEN_WRITE_ONLY), Mode(0o600)).unwrap();
    assert_eq!(f.write(&mut k, b"abcdefgh"), Ok(8));
    let g = open(&mut k, b"/v", open_flags(OPEN_READ_ONLY), Mode(0o600)).unwrap();
    let mut iovs = vec![
        IoVecMut::new(vec![0u8; 3]),
        IoVecMut::new(vec![0xEEu8; 4]),
        IoVecMut::new(vec![0xEEu8; 4]),
    ];
    assert_eq!(readv(&mut k, &g, &mut iovs), Ok(8));
    assert_eq!(iovs[0].bytes().as_slice(), b"abc");
    assert_eq!(iovs[1].bytes().as_slice(), b"defg");
    // The last buffer got the single remaining byte; its tail is untouched.
    assert_eq!(iovs[2].bytes().as_slice(), &[b'h', 0xEE, 0xEE, 0xEE]);
    // The offset advanced by the aggregate count.
    let mut rest = vec![0u8; 4];
    assert_eq!(read(&mut k, &g, &mut rest), Ok(0));
}

#[test]
fn fcntl_duplicates_share_the_description() {
    let mut k = Kernel::new();
    let f = open(&mut k, b"/d", open_flags(OPEN_CREATE | OPEN_READ_WRITE), Mode(0o600)).unwrap();
    let dup = fcntl(&mut k, &f, syslib::fcntl::Fcntl::DupFd(Fd::from_raw(10))).unwrap();
    assert!(dup >= 10);
    let dupfd = Fd::from_raw(dup);
    assert_eq!(syslib::kernel::write(&mut k, &dupfd, b"abc"), Ok(3));
    // The duplicate shares the offset: the original continues past it.
    assert_eq!(syslib::kernel::write(&mut k, &f, b"de"), Ok(2));
    let st = fstat(&k, &f).unwrap();
    assert_eq!(st.size, 5);
    assert_eq!(close(&mut k, &dupfd), Ok(()));
    assert_eq!(syslib::kernel::write(&mut k, &f, b"!"), Ok(1));
}

#[test]
fn fcntl_flag_words() {
    let mut k = Kernel::new();
    let f = open(&mut k, b"/d", open_flags(OPEN_CREATE | OPEN_WRITE_ONLY), Mode(0o600)).unwrap();
    assert_eq!(fcntl(&mut k, &f, syslib::fcntl::Fcntl::GetFd), Ok(0));
    let one = FlagSet::try_new(OPEN_CREATE, OPEN_FAMILY).unwrap();
    assert_eq!(fcntl(&mut k, &f, syslib::fcntl::Fcntl::SetFd(one)), Ok(0));
    assert_eq!(fcntl(&mut k, &f, syslib::fcntl::Fcntl::GetFd), Ok(OPEN_CREATE));
    let fl = fcntl(&mut k, &f, syslib::fcntl::Fcntl::GetFl).unwrap();
    assert_eq!(fl & 0b11, OPEN_WRITE_ONLY);
    // Replacing the status flags keeps the access-mode sub-field.
    let nb = FlagSet::try_new(OPEN_NON_BLOCKING, OPEN_FAMILY).unwrap();
    assert_eq!(fcntl(&mut k, &f, syslib::fcntl::Fcntl::SetFl(nb)), Ok(0));
    let fl2 = fcntl(&mut k, &f, syslib::fcntl::Fcntl::GetFl).unwrap();
    assert_eq!(fl2 & 0b11, OPEN_WRITE_ONLY);
    assert_ne!(fl2 & OPEN_NON_BLOCKING, 0);
    assert!(matches!(
        fcntl(&mut k, &Fd::from_raw(99), syslib::fcntl::Fcntl::GetFd),
        Err(Error::EBADF)
    ));
}

#[test]
fn ioctl_finds_no_stream_device() {
    let mut k = Kernel::new();
    let f = open(&mut k, b"/d", open_flags(OPEN_CREATE | OPEN_WRITE_ONLY), Mode(0o600)).unwrap();
    let cmd = syslib::ioctl::ioctl_code(syslib::ioctl::DIRECTION_NONE, 0x41, 1, 0);
    assert_eq!(ioctl(&k, &f, cmd, 0), Err(Error::ENOTTY));
    assert_eq!(ioctl(&k, &Fd::from_raw(99), cmd, 0), Err(Error::EBADF));
}

#[test]
fn mappings_are_granted_and_tracked() {
    let mut k = Kernel::new();
    let f = open(&mut k, b"/m", open_flags(OPEN_CREATE | OPEN_READ_WRITE), Mode(0o600)).unwrap();
    let prot = FlagSet::try_new(PROT_READ | PROT_WRITE, PROT_FAMILY).unwrap();
    let shared = FlagSet::try_new(MAP_SHARED, MAP_FAMILY).unwrap();
    let a = mmap(&mut k, 0, 100, prot, shared, &f, 0).unwrap();
    assert_eq!(a % 4096, 0);
    let b = mmap(&mut k, 0, 5000, prot, FlagSet::try_new(MAP_PRIVATE, MAP_FAMILY).unwrap(), &f, 0)
        .unwrap();
    assert_ne!(a, b);
    assert_eq!(b, a + 4096);
    // The caller must name the region as granted.
    assert_eq!(munmap(&mut k, a + 4096, 100), Err(Error::EINVAL));
    assert_eq!(munmap(&mut k, a, 100), Ok(()));
    assert_eq!(munmap(&mut k, a, 100), Err(Error::EINVAL));
    assert_eq!(mprotect(&mut k, b, 5000, prot), Ok(()));
    assert_eq!(mprotect(&mut k, a, 100, prot), Err(Error::ENOMEM));
}

#[test]
fn mmap_rejects_bad_arguments() {
    let mut k = Kernel::new();
    let f = open(&mut k, b"/m", open_flags(OPEN_CREATE | OPEN_READ_WRITE), Mode(0o600)).unwrap();
    let prot = FlagSet::try_new(PROT_READ, PROT_FAMILY).unwrap();
    let shared = FlagSet::try_new(MAP_SHARED, MAP_FAMILY).unwrap();
    let both = FlagSet::try_new(MAP_SHARED | MAP_PRIVATE, MAP_FAMILY).unwrap();
    let neither = FlagSet::try_new(0, MAP_FAMILY).unwrap();
    assert_eq!(mmap(&mut k, 0, 0, prot, shared, &f, 0), Err(Error::EINVAL));
    assert_eq!(mmap(&mut k, 0, 8, prot, both, &f, 0), Err(Error::EINVAL));
    assert_eq!(mmap(&mut k, 0, 8, prot, neither, &f, 0), Err(Error::EINVAL));
    assert_eq!(mmap(&mut k, 0, 8, prot, shared, &Fd::from_raw(9), 0), Err(Error::EBADF));
}

#[test]
fn mremap_shrinks_in_place_and_grows_by_moving() {
    let mut k = Kernel::new();
    let f = open(&mut k, b"/m", open_flags(OPEN_CREATE | OPEN_READ_WRITE), Mode(0o600)).unwrap();
    let prot = FlagSet::try_new(PROT_READ, PROT_FAMILY).unwrap();
    let shared = FlagSet::try_new(MAP_SHARED, MAP_FAMILY).unwrap();
    let a = mmap(&mut k, 0, 3 * 4096, prot, shared, &f, 0).unwrap();
    let stay = FlagSet::try_new(0, REMAP_FAMILY).unwrap();
    let may_move = FlagSet::try_new(REMAP_MAY_MOVE, REMAP_FAMILY).unwrap();
    // Shrinking keeps the address.
    assert_eq!(mremap(&mut k, a, 3 * 4096, 4096, stay), Ok(a));
    // Growing without permission to move fails.
    assert_eq!(mremap(&mut k, a, 4096, 2 * 4096, stay), Err(Error::ENOMEM));
    // With it, the mapping is relocated and the old address is invalid.
    let moved = mremap(&mut k, a, 4096, 2 * 4096, may_move).unwrap();
    assert_ne!(moved, a);
    assert_eq!(munmap(&mut k, a, 4096), Err(Error::EINVAL));
    assert_eq!(munmap(&mut k, moved, 2 * 4096), Ok(()));
    assert_eq!(mremap(&mut k, moved, 4096, 4096, stay), Err(Error::EFAULT));
}
