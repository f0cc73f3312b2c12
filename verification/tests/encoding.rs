use syslib::device::Device;
use syslib::epoll::{Cntl, Event};
use syslib::error::Error;
use syslib::fcntl::Fcntl;
use syslib::fdesc::{Fd, FileDescriptor};
use syslib::flags::{
    FlagSet, EVENT_FAMILY, EVENT_INPUT, MSG_FAMILY, MSG_OOB, MSG_PEEK, OPEN_APPEND, OPEN_CREATE,
    OPEN_FAMILY, OPEN_WRITE_ONLY, PROT_FAMILY, PROT_READ, PROT_WRITE,
};
use syslib::ioctl::{
    ioctl_code, DIRECTION_NONE, DIRECTION_READ, DIRECTION_READ_WRITE, DIRECTION_WRITE,
};
use syslib::mode::{Mode, MODE_EXEC, MODE_GROUP, MODE_READ, MODE_SETUID, MODE_USER, MODE_WRITE};
use syslib::sock::{
    Ancillary, Domain, Level, Protocol, Type, UnixAddress, ANCILLARY_NONE, DOMAIN_INET6,
    DOMAIN_UNIX, LEVEL_UNSPECIFIED, PROTOCOL_RAW, TYPE_STREAM,
};

#[test]
fn control_command_packs_all_directions() {
    // {direction, code=0x41, number=0x02, payload-size=8}, hand-computed.
    assert_eq!(ioctl_code(DIRECTION_NONE, 0x41, 0x02, 8), 0x0008_4102);
    assert_eq!(ioctl_code(DIRECTION_WRITE, 0x41, 0x02, 8), 0x4008_4102);
    assert_eq!(ioctl_code(DIRECTION_READ, 0x41, 0x02, 8), 0x8008_4102);
    assert_eq!(ioctl_code(DIRECTION_READ_WRITE, 0x41, 0x02, 8), 0xC008_4102);
}

#[test]
fn control_command_reduces_oversized_fields() {
    // Each field is reduced to its declared width before placement.
    assert_eq!(ioctl_code(0, 0x141, 0x102, 8), 0x0008_4102);
    assert_eq!(ioctl_code(4, 0x41, 0x02, 0x4008), 0x0008_4102);
}

#[test]
fn mode_literal_examples() {
    assert_eq!(Mode::parse(b"rwx r-x ---"), Ok(Mode(0o750)));
    assert_eq!(Mode::parse(b"rwxS r-xS r-xT"), Ok(Mode(0o7755)));
    assert_eq!(Mode::parse(b"rw- --- ---"), Ok(Mode(0o600)));
    assert_eq!(Mode::parse(b"--- --- ---"), Ok(Mode(0o000)));
    assert_eq!(Mode::parse(b"rwx rwx rwx"), Ok(Mode(0o777)));
}

#[test]
fn mode_literal_accepts_underscore_as_clear() {
    assert_eq!(Mode::parse(b"rwx r_x ___"), Ok(Mode(0o750)));
    assert_eq!(Mode::parse(b"rwx_ r_x_ ____"), Ok(Mode(0o750)));
}

#[test]
fn mode_literal_rejects_foreign_characters() {
    assert_eq!(Mode::parse(b"rqx r-x ---"), Err(Error::EINVAL));
    assert_eq!(Mode::parse(b"xwr r-x ---"), Err(Error::EINVAL));
    assert_eq!(Mode::parse(b"rwT r-x ---"), Err(Error::EINVAL));
    assert_eq!(Mode::parse(b"rwxT r-x ---"), Err(Error::EINVAL));
    assert_eq!(Mode::parse(b"rwx r-x --S"), Err(Error::EINVAL));
}

#[test]
fn mode_literal_rejects_bad_shapes() {
    assert_eq!(Mode::parse(b"rwx r-x"), Err(Error::EINVAL));
    assert_eq!(Mode::parse(b"rwx r-x --- ---"), Err(Error::EINVAL));
    assert_eq!(Mode::parse(b"rw r-x ---"), Err(Error::EINVAL));
    assert_eq!(Mode::parse(b"rwxSS r-x ---"), Err(Error::EINVAL));
    assert_eq!(Mode::parse(b""), Err(Error::EINVAL));
}

#[test]
fn mode_renders_back_to_its_literal() {
    assert_eq!(Mode(0o750).render(), b"rwx r-x ---");
    assert_eq!(Mode(0o7755).render(), b"rwxS r-xS r-xT");
    assert_eq!(Mode(0o600).render(), b"rw- --- ---");
    assert_eq!(Mode(0).render(), b"--- --- ---");
    for m in [0o000u32, 0o600, 0o750, 0o755, 0o4711, 0o2020, 0o1001, 0o7777] {
        let rendered = Mode(m).render();
        assert_eq!(Mode::parse(&rendered), Ok(Mode(m)));
    }
}

#[test]
fn mode_parts_and_bit_operations() {
    let m = Mode::parse_parts(b"rwx", b"r-x", b"---").unwrap();
    assert_eq!(m, Mode(0o750));
    assert!(m.any(Mode(MODE_SETUID | MODE_USER)));
    assert!(!m.any(Mode(MODE_SETUID)));
    assert!(m.all(Mode(MODE_USER)));
    assert!(!m.all(Mode(MODE_GROUP)));
    assert_eq!(m.intersect(Mode(MODE_GROUP)), Mode(0o050));
    assert_eq!(m.union(Mode(MODE_SETUID)), Mode(0o4750));
    assert_eq!(m.toggle(Mode(0o750)), Mode(0));
    assert_eq!(Mode(MODE_READ | MODE_WRITE | MODE_EXEC), Mode(0o7));
    assert_eq!(Mode(0o7).shl(6), Mode(0o700));
    assert_eq!(Mode(0o700).shr(6).complement().intersect(Mode(0o777)), Mode(0o770));
}

#[test]
fn device_composite_round_trips() {
    for (major, minor) in [
        (0u32, 0u32),
        (8, 1),
        (259, 7),
        (1, 0x100),          // minor exceeds 8 bits
        (0x12, 0x0012_3456), // minor far past 8 bits
        (0x00FF_FFFF, 0xFFFF_FFFF),
        (0xFFFF_FFFF, 0xFFFF_FFFF),
    ] {
        let d = Device::new(major, minor);
        assert_eq!(d.major(), major);
        assert_eq!(d.minor(), minor);
    }
}

#[test]
fn device_packing_layout() {
    // Minor's low byte in bits 0..8, major above it, minor's rest at bit 40.
    let d = Device::new(0xAB, 0x0102_03CD);
    assert_eq!(d.value() & 0xFF, 0xCD);
    assert_eq!((d.value() >> 8) & 0xFFFF_FFFF, 0xAB);
    assert_eq!((d.value() >> 32) & 0xFFFF_FF00, 0x0102_0300);
}

#[test]
fn flag_sets_round_trip_valid_bits() {
    let v = OPEN_WRITE_ONLY | OPEN_CREATE | OPEN_APPEND;
    let f = FlagSet::try_new(v, OPEN_FAMILY).unwrap();
    assert_eq!(f.bits(), v);
    assert_eq!(f.mask(), OPEN_FAMILY);
    let g = FlagSet::try_new(MSG_OOB | MSG_PEEK, MSG_FAMILY).unwrap();
    assert_eq!(g.bits(), MSG_OOB | MSG_PEEK);
}

#[test]
fn flag_sets_reject_foreign_bits() {
    assert_eq!(FlagSet::try_new(0x8000_0000, OPEN_FAMILY), Err(Error::EINVAL));
    assert_eq!(FlagSet::try_new(OPEN_CREATE | 0x8, OPEN_FAMILY), Err(Error::EINVAL));
    assert_eq!(FlagSet::try_new(0x20, MSG_FAMILY), Err(Error::EINVAL));
    assert_eq!(FlagSet::try_new(8, PROT_FAMILY), Err(Error::EINVAL));
    assert!(FlagSet::try_new(PROT_READ | PROT_WRITE, PROT_FAMILY).is_ok());
}

#[test]
fn flag_set_operations_and_residual() {
    let f = FlagSet::new(EVENT_INPUT, EVENT_FAMILY);
    assert!(f.any(FlagSet::new(EVENT_INPUT, EVENT_FAMILY)));
    assert!(f.all(FlagSet::new(EVENT_INPUT, EVENT_FAMILY)));
    assert!(!f.any(FlagSet::empty(EVENT_FAMILY)));
    assert_eq!(f.residual(), 0);
    // The raw complement leaves the family: residual bits are reported
    // apart from the named ones.
    let c = f.complement();
    assert_ne!(c.residual(), 0);
    assert_eq!(c.known(), EVENT_FAMILY & !EVENT_INPUT);
    assert_eq!(c.intersect(f).bits(), 0);
    assert_eq!(f.union(c).bits(), !0);
    assert_eq!(f.toggle(f).bits(), 0);
}

#[test]
fn error_table_is_total_over_its_range() {
    let mut names: Vec<&'static str> = Vec::new();
    for code in 1..=133u32 {
        let e = Error::from_code(code);
        if code == 41 || code == 58 {
            assert_eq!(e, Error::UNKNOWN(code));
            assert_eq!(e.name(), "UNKNOWN");
            continue;
        }
        assert_eq!(e.code(), code);
        assert!(!e.name().is_empty());
        assert_ne!(e.name(), "UNKNOWN");
        assert!(!e.message().is_empty());
        assert_ne!(e.message(), "Unknown enumeration value.");
        names.push(e.name());
    }
    for i in 0..names.len() {
        for j in (i + 1)..names.len() {
            assert_ne!(names[i], names[j]);
        }
    }
}

#[test]
fn error_unknown_carries_exact_value() {
    for code in [0u32, 134, 200, 4096, u32::MAX] {
        let e = Error::from_code(code);
        assert_eq!(e, Error::UNKNOWN(code));
        assert_eq!(e.code(), code);
        assert_eq!(e.name(), "UNKNOWN");
        assert_eq!(e.message(), "Unknown enumeration value.");
    }
}

#[test]
fn error_spot_checks() {
    assert_eq!(Error::from_code(1), Error::EPERM);
    assert_eq!(Error::from_code(2), Error::ENOENT);
    assert_eq!(Error::from_code(9), Error::EBADF);
    assert_eq!(Error::from_code(11), Error::EAGAIN);
    assert_eq!(Error::from_code(22), Error::EINVAL);
    assert_eq!(Error::from_code(133), Error::EHWPOISON);
    assert_eq!(Error::EBADF.message(), "Bad file number");
    assert_eq!(Error::EINTR.message(), "Interrupted system call");
}

#[test]
fn dispatch_result_adapters() {
    assert_eq!(Error::maybe(0), Ok(()));
    assert_eq!(Error::maybe(7), Ok(()));
    assert_eq!(Error::maybe(-1), Err(Error::EPERM));
    assert_eq!(Error::maybe(-22), Err(Error::EINVAL));
    assert_eq!(Error::maybe_usize(5), Ok(5));
    assert_eq!(Error::maybe_usize(-9), Err(Error::EBADF));
    assert_eq!(Error::maybe_ptr(0x1000), Ok(0x1000));
    assert_eq!(Error::maybe_ptr(-12), Err(Error::ENOMEM));
    assert_eq!(Error::maybe_u32(42), Ok(42));
    assert_eq!(Error::maybe_u32(-4), Err(Error::EINTR));
    assert_eq!(Error::maybe(-200), Err(Error::UNKNOWN(200)));
}

#[test]
fn unix_address_pads_and_frames() {
    let a = UnixAddress::new(b"/tmp/sock").unwrap();
    assert_eq!(a.family(), 1);
    let blob = a.address();
    let bytes = blob.bytes();
    assert_eq!(bytes.len(), 110);
    assert_eq!(bytes[0], 1);
    assert_eq!(bytes[1], 0);
    assert_eq!(&bytes[2..11], b"/tmp/sock");
    assert!(bytes[11..].iter().all(|&b| b == 0));
}

#[test]
fn unix_address_rejects_overlong_paths() {
    let long = [b'a'; 108];
    assert!(UnixAddress::new(&long).is_err());
    let edge = [b'a'; 107];
    assert!(UnixAddress::new(&edge).is_ok());
}

#[test]
fn ancillary_starts_empty_and_loads() {
    let mut a = Ancillary::new(2);
    assert_eq!(a.level().0, LEVEL_UNSPECIFIED);
    assert_eq!(a.ty().0, ANCILLARY_NONE);
    assert!(a.items().is_empty());
    assert_eq!(a.capacity(), 2);
    assert_eq!(a.load(0xFFFF, 1, &[3, 4]), Ok(()));
    assert_eq!(a.items().as_slice(), &[3, 4]);
    assert_eq!(a.load(0xFFFF, 1, &[3, 4, 5]), Err(Error::EINVAL));
}

#[test]
fn event_payload_is_untagged() {
    let e = Event::with_fd(EVENT_INPUT, 7);
    assert_eq!(e.events, EVENT_INPUT);
    assert_eq!(e.data_u64(), 7);
    assert_eq!(e.data_u32(), 7);
    let big = Event::new(EVENT_INPUT, 0x1_0000_0001);
    assert_eq!(big.data_u32(), 1);
    let p = Event::with_ptr(0, 0xDEAD_BEEF);
    assert_eq!(p.data_u64(), 0xDEAD_BEEF);
    assert_eq!(Event::with_u32(0, 9).data_u64(), 9);
}

#[test]
fn epoll_command_numbers() {
    let e = Event::with_u32(EVENT_INPUT, 1);
    assert_eq!(Cntl::Add(e).cmd(), 1);
    assert_eq!(Cntl::Delete.cmd(), 2);
    assert_eq!(Cntl::Modify(e).cmd(), 3);
    assert_eq!(Cntl::Add(e).arg().copied(), Some(e));
    assert!(Cntl::Delete.arg().is_none());
    assert_eq!(Cntl::Modify(e).arg().copied(), Some(e));
}

#[test]
fn fcntl_command_numbers() {
    let flags = FlagSet::new(OPEN_APPEND, OPEN_FAMILY);
    assert_eq!(Fcntl::DupFd(Fd::from_raw(5)).cmd(), 0);
    assert_eq!(Fcntl::GetFd.cmd(), 1);
    assert_eq!(Fcntl::SetFd(flags).cmd(), 2);
    assert_eq!(Fcntl::GetFl.cmd(), 3);
    assert_eq!(Fcntl::SetFl(flags).cmd(), 4);
    assert_eq!(Fcntl::DupFd(Fd::from_raw(5)).arg(), Some(5));
    assert_eq!(Fcntl::GetFd.arg(), None);
    assert_eq!(Fcntl::SetFd(flags).arg(), Some(OPEN_APPEND as usize));
    assert_eq!(Fcntl::GetFl.arg(), None);
    assert_eq!(Fcntl::SetFl(flags).arg(), Some(OPEN_APPEND as usize));
}

#[test]
fn scalar_enumeration_labels() {
    assert_eq!(Domain(DOMAIN_UNIX).label(), "Unix Domain Socket");
    assert_eq!(Domain(DOMAIN_INET6).label(), "IPv6");
    assert_eq!(Domain(99).label(), "Unknown enumeration value.");
    assert_eq!(Type(TYPE_STREAM).label(), "Sequenced, reliable, connection-based byte streams");
    assert_eq!(Type(77).label(), "Unknown enumeration value.");
    assert_eq!(Protocol(PROTOCOL_RAW).label(), "Raw socket");
    assert_eq!(Level(3).label(), "Unknown enumeration value.");
}

#[test]
fn borrowed_descriptors() {
    let fd = Fd::from_raw(42);
    assert_eq!(fd.raw(), 42);
    assert_eq!(fd.extend().raw(), 42);
    assert_eq!(Fd::stdin().raw(), 0);
    assert_eq!(Fd::stdout().raw(), 1);
    assert_eq!(Fd::stderr().raw(), 2);
    let owned = fd.owned();
    assert_eq!(owned.raw(), 42);
    assert!(owned.open());
}
