use syslib::epoll::{Cntl, Event};
use syslib::error::Error;
use syslib::fdesc::{Fd, FileDescriptor};
use syslib::flags::{
    FlagSet, EPOLL_FAMILY, EVENT_INPUT, EVENT_OUTPUT, MSG_FAMILY, OPEN_CREATE, OPEN_FAMILY,
    OPEN_READ_ONLY, OPEN_WRITE_ONLY,
};
use syslib::iovec::{IoVec, IoVecMut};
use syslib::kernel::{
    accept, bind, connect, epoll_create, epoll_ctl, epoll_wait, listen, open, recvmsg, sendmsg,
    socket, Kernel,
};
use syslib::mode::Mode;
use syslib::sock::{
    Ancillary, Domain, Protocol, Type, UnixAddress, ANCILLARY_RIGHTS, DOMAIN_INET, DOMAIN_UNIX,
    LEVEL_SOCKET, PROTOCOL_RAW, TYPE_STREAM,
};

fn unix_stream(k: &mut Kernel) -> syslib::fdesc::Socket {
    socket(k, Domain(DOMAIN_UNIX), Type(TYPE_STREAM), Protocol(0)).unwrap()
}

fn no_flags() -> FlagSet {
    FlagSet::try_new(0, MSG_FAMILY).unwrap()
}

#[test]
fn socket_creation_checks_its_family() {
    let mut k = Kernel::new();
    assert!(socket(&mut k, Domain(DOMAIN_UNIX), Type(TYPE_STREAM), Protocol(0)).is_ok());
    assert!(matches!(
        socket(&mut k, Domain(DOMAIN_INET), Type(TYPE_STREAM), Protocol(0)),
        Err(Error::EAFNOSUPPORT)
    ));
    assert!(matches!(
        socket(&mut k, Domain(DOMAIN_UNIX), Type(9), Protocol(0)),
        Err(Error::EINVAL)
    ));
    assert!(matches!(
        socket(&mut k, Domain(DOMAIN_UNIX), Type(TYPE_STREAM), Protocol(PROTOCOL_RAW)),
        Err(Error::EPROTONOSUPPORT)
    ));
}

#[test]
fn connection_state_progression() {
    let mut k = Kernel::new();
    let server = unix_stream(&mut k);
    let addr = UnixAddress::new(b"/run/srv").unwrap().address();
    assert_eq!(bind(&mut k, &server, &addr), Ok(()));
    assert_eq!(listen(&mut k, &server, 8), Ok(()));
    let client = unix_stream(&mut k);
    assert_eq!(connect(&mut k, &client, &addr), Ok(()));
    let conn = accept(&mut k, &server).unwrap();
    assert!(conn.open());
    // One accept serves one queued connection.
    assert!(matches!(accept(&mut k, &server), Err(Error::EAGAIN)));
}

#[test]
fn bind_rejects_misuse() {
    let mut k = Kernel::new();
    let a = unix_stream(&mut k);
    let b = unix_stream(&mut k);
    let addr = UnixAddress::new(b"/run/one").unwrap().address();
    assert_eq!(bind(&mut k, &a, &addr), Ok(()));
    // The address is claimed.
    assert_eq!(bind(&mut k, &b, &addr), Err(Error::EADDRINUSE));
    // A socket binds once.
    let other = UnixAddress::new(b"/run/two").unwrap().address();
    assert_eq!(bind(&mut k, &a, &other), Err(Error::EINVAL));
    // An ill-shaped blob is rejected.
    let bad = syslib::sock::Address::new(vec![2, 0, 7]);
    assert_eq!(bind(&mut k, &b, &bad), Err(Error::EINVAL));
    // A file descriptor is no socket.
    let f = open(
        &mut k,
        b"/f",
        FlagSet::try_new(OPEN_CREATE | OPEN_WRITE_ONLY, OPEN_FAMILY).unwrap(),
        Mode(0o600),
    )
    .unwrap();
    assert_eq!(bind(&mut k, &f, &addr), Err(Error::ENOTSOCK));
    assert_eq!(bind(&mut k, &Fd::from_raw(99), &addr), Err(Error::EBADF));
}

#[test]
fn connect_needs_a_listener_with_room() {
    let mut k = Kernel::new();
    let addr = UnixAddress::new(b"/run/srv").unwrap().address();
    let client = unix_stream(&mut k);
    assert_eq!(connect(&mut k, &client, &addr), Err(Error::ECONNREFUSED));
    let server = unix_stream(&mut k);
    assert_eq!(bind(&mut k, &server, &addr), Ok(()));
    // Bound but not listening refuses too.
    assert_eq!(connect(&mut k, &client, &addr), Err(Error::ECONNREFUSED));
    assert_eq!(listen(&mut k, &server, 1), Ok(()));
    assert_eq!(connect(&mut k, &client, &addr), Ok(()));
    assert_eq!(connect(&mut k, &client, &addr), Err(Error::EISCONN));
    // The backlog is full.
    let late = unix_stream(&mut k);
    assert_eq!(connect(&mut k, &late, &addr), Err(Error::EAGAIN));
    // A listening socket cannot itself connect.
    assert_eq!(connect(&mut k, &server, &addr), Err(Error::EINVAL));
}

#[test]
fn messages_flow_both_ways() {
    let mut k = Kernel::new();
    let addr = UnixAddress::new(b"/run/chat").unwrap().address();
    let server = unix_stream(&mut k);
    bind(&mut k, &server, &addr).unwrap();
    listen(&mut k, &server, 4).unwrap();
    let client = unix_stream(&mut k);
    connect(&mut k, &client, &addr).unwrap();
    let conn = accept(&mut k, &server).unwrap();

    // Client to server: two buffers gathered into one message.
    let iovs = vec![IoVec::new(b"hello "), IoVec::new(b"world")];
    assert_eq!(sendmsg(&mut k, &client, &iovs, None, no_flags()), Ok(11));

    let mut rbufs = vec![IoVecMut::new(vec![0u8; 6]), IoVecMut::new(vec![0xFFu8; 8])];
    let mut anc = Ancillary::new(0);
    assert_eq!(recvmsg(&mut k, &conn, &mut rbufs, &mut anc, no_flags()), Ok(11));
    assert_eq!(rbufs[0].bytes().as_slice(), b"hello ");
    assert_eq!(rbufs[1].bytes().as_slice(), &[b'w', b'o', b'r', b'l', b'd', 0xFF, 0xFF, 0xFF]);

    // Server back to client.
    let reply = vec![IoVec::new(b"ack")];
    assert_eq!(sendmsg(&mut k, &conn, &reply, None, no_flags()), Ok(3));
    let mut cbufs = vec![IoVecMut::new(vec![0u8; 8])];
    assert_eq!(recvmsg(&mut k, &client, &mut cbufs, &mut anc, no_flags()), Ok(3));
    assert_eq!(&cbufs[0].bytes().as_slice()[..3], b"ack");

    // Nothing further is queued.
    assert!(matches!(
        recvmsg(&mut k, &client, &mut cbufs, &mut anc, no_flags()),
        Err(Error::EAGAIN)
    ));
}

#[test]
fn truncated_message_is_cut_at_the_buffers() {
    let mut k = Kernel::new();
    let addr = UnixAddress::new(b"/run/t").unwrap().address();
    let server = unix_stream(&mut k);
    bind(&mut k, &server, &addr).unwrap();
    listen(&mut k, &server, 4).unwrap();
    let client = unix_stream(&mut k);
    connect(&mut k, &client, &addr).unwrap();
    let conn = accept(&mut k, &server).unwrap();
    let iovs = vec![IoVec::new(b"0123456789")];
    assert_eq!(sendmsg(&mut k, &client, &iovs, None, no_flags()), Ok(10));
    let mut small = vec![IoVecMut::new(vec![0u8; 4])];
    let mut anc = Ancillary::new(0);
    assert_eq!(recvmsg(&mut k, &conn, &mut small, &mut anc, no_flags()), Ok(4));
    assert_eq!(small[0].bytes().as_slice(), b"0123");
}

#[test]
fn ancillary_items_pass_descriptors() {
    let mut k = Kernel::new();
    let addr = UnixAddress::new(b"/run/fds").unwrap().address();
    let server = unix_stream(&mut k);
    bind(&mut k, &server, &addr).unwrap();
    listen(&mut k, &server, 4).unwrap();
    let client = unix_stream(&mut k);
    connect(&mut k, &client, &addr).unwrap();
    let conn = accept(&mut k, &server).unwrap();

    let mut out = Ancillary::new(2);
    out.load(LEVEL_SOCKET, ANCILLARY_RIGHTS, &[3, 4]).unwrap();
    let iovs = vec![IoVec::new(b"x")];
    assert_eq!(sendmsg(&mut k, &client, &iovs, Some(&out), no_flags()), Ok(1));

    let mut rbufs = vec![IoVecMut::new(vec![0u8; 1])];
    let mut inc = Ancillary::new(2);
    assert_eq!(recvmsg(&mut k, &conn, &mut rbufs, &mut inc, no_flags()), Ok(1));
    assert_eq!(inc.level().0, LEVEL_SOCKET);
    assert_eq!(inc.ty().0, ANCILLARY_RIGHTS);
    assert_eq!(inc.items().as_slice(), &[3, 4]);

    // A smaller block keeps only what fits its slots.
    assert_eq!(sendmsg(&mut k, &client, &iovs, Some(&out), no_flags()), Ok(1));
    let mut tight = Ancillary::new(1);
    let mut rbufs2 = vec![IoVecMut::new(vec![0u8; 1])];
    assert_eq!(recvmsg(&mut k, &conn, &mut rbufs2, &mut tight, no_flags()), Ok(1));
    assert_eq!(tight.items().as_slice(), &[3]);
}

#[test]
fn sending_before_accept_is_not_connected() {
    let mut k = Kernel::new();
    let addr = UnixAddress::new(b"/run/early").unwrap().address();
    let server = unix_stream(&mut k);
    bind(&mut k, &server, &addr).unwrap();
    listen(&mut k, &server, 4).unwrap();
    let client = unix_stream(&mut k);
    connect(&mut k, &client, &addr).unwrap();
    // The peer link appears only when the listener accepts.
    let iovs = vec![IoVec::new(b"x")];
    assert!(matches!(
        sendmsg(&mut k, &client, &iovs, None, no_flags()),
        Err(Error::ENOTCONN)
    ));
    let fresh = unix_stream(&mut k);
    assert!(matches!(
        sendmsg(&mut k, &fresh, &iovs, None, no_flags()),
        Err(Error::ENOTCONN)
    ));
}

#[test]
fn sending_to_a_closed_peer_breaks_the_pipe() {
    let mut k = Kernel::new();
    let addr = UnixAddress::new(b"/run/gone").unwrap().address();
    let server = unix_stream(&mut k);
    bind(&mut k, &server, &addr).unwrap();
    listen(&mut k, &server, 4).unwrap();
    let client = unix_stream(&mut k);
    connect(&mut k, &client, &addr).unwrap();
    let mut conn = accept(&mut k, &server).unwrap();
    assert_eq!(conn.close(&mut k), Ok(()));
    let iovs = vec![IoVec::new(b"x")];
    assert!(matches!(
        sendmsg(&mut k, &client, &iovs, None, no_flags()),
        Err(Error::EPIPE)
    ));
}

#[test]
fn epoll_registry_commands() {
    let mut k = Kernel::new();
    let ep = epoll_create(&mut k, FlagSet::try_new(0, EPOLL_FAMILY).unwrap()).unwrap();
    let f = open(
        &mut k,
        b"/e",
        FlagSet::try_new(OPEN_CREATE | OPEN_WRITE_ONLY, OPEN_FAMILY).unwrap(),
        Mode(0o600),
    )
    .unwrap();
    let ev = Event::with_fd(EVENT_INPUT | EVENT_OUTPUT, f.raw());
    assert_eq!(epoll_ctl(&mut k, &ep, &f, Cntl::Add(ev)), Ok(()));
    assert_eq!(epoll_ctl(&mut k, &ep, &f, Cntl::Add(ev)), Err(Error::EEXIST));
    assert_eq!(epoll_ctl(&mut k, &ep, &f, Cntl::Modify(Event::with_fd(EVENT_INPUT, f.raw()))), Ok(()));
    assert_eq!(epoll_ctl(&mut k, &ep, &f, Cntl::Delete), Ok(()));
    assert_eq!(epoll_ctl(&mut k, &ep, &f, Cntl::Delete), Err(Error::ENOENT));
    assert_eq!(epoll_ctl(&mut k, &ep, &Fd::from_raw(99), Cntl::Add(ev)), Err(Error::EBADF));
    // Only an event instance accepts registry changes.
    assert_eq!(epoll_ctl(&mut k, &f, &f, Cntl::Add(ev)), Err(Error::EINVAL));
}

#[test]
fn epoll_wait_reports_readiness() {
    let mut k = Kernel::new();
    let ep = epoll_create(&mut k, FlagSet::try_new(0, EPOLL_FAMILY).unwrap()).unwrap();
    let writer = open(
        &mut k,
        b"/w",
        FlagSet::try_new(OPEN_CREATE | OPEN_WRITE_ONLY, OPEN_FAMILY).unwrap(),
        Mode(0o600),
    )
    .unwrap();
    writer.write(&mut k, b"data").unwrap();
    let reader = open(
        &mut k,
        b"/w",
        FlagSet::try_new(OPEN_READ_ONLY, OPEN_FAMILY).unwrap(),
        Mode(0o600),
    )
    .unwrap();
    // The writer's offset sits at the end: only output is ready there.
    epoll_ctl(&mut k, &ep, &writer, Cntl::Add(Event::with_u32(EVENT_INPUT | EVENT_OUTPUT, 1)))
        .unwrap();
    // The reader has data ahead of it: input and output are ready.
    epoll_ctl(&mut k, &ep, &reader, Cntl::Add(Event::with_u32(EVENT_INPUT, 2))).unwrap();
    let evs = epoll_wait(&k, &ep, 8, 0).unwrap();
    assert_eq!(evs.len(), 2);
    assert_eq!(evs[0].events, EVENT_OUTPUT);
    assert_eq!(evs[0].data_u32(), 1);
    assert_eq!(evs[1].events, EVENT_INPUT);
    assert_eq!(evs[1].data_u32(), 2);
    // The caller's buffer length cuts the report off.
    let one = epoll_wait(&k, &ep, 1, 0).unwrap();
    assert_eq!(one.len(), 1);
    assert_eq!(one[0].data_u32(), 1);
    // A zero-length buffer reports nothing.
    let none = epoll_wait(&k, &ep, 0, 0).unwrap();
    assert!(none.is_empty());
}

#[test]
fn epoll_sees_queued_connections_and_messages() {
    let mut k = Kernel::new();
    let ep = epoll_create(&mut k, FlagSet::try_new(0, EPOLL_FAMILY).unwrap()).unwrap();
    let addr = UnixAddress::new(b"/run/ep").unwrap().address();
    let server = unix_stream(&mut k);
    bind(&mut k, &server, &addr).unwrap();
    listen(&mut k, &server, 4).unwrap();
    epoll_ctl(&mut k, &ep, &server, Cntl::Add(Event::with_u32(EVENT_INPUT, 10))).unwrap();
    // Nothing queued: the listener is quiet.
    assert!(epoll_wait(&k, &ep, 8, 0).unwrap().is_empty());
    let client = unix_stream(&mut k);
    connect(&mut k, &client, &addr).unwrap();
    let evs = epoll_wait(&k, &ep, 8, 0).unwrap();
    assert_eq!(evs.len(), 1);
    assert_eq!(evs[0].data_u32(), 10);
    let conn = accept(&mut k, &server).unwrap();
    // A connected socket with an empty inbox reports writability only.
    epoll_ctl(&mut k, &ep, &conn, Cntl::Add(Event::with_u32(EVENT_INPUT | EVENT_OUTPUT, 11)))
        .unwrap();
    let evs2 = epoll_wait(&k, &ep, 8, 0).unwrap();
    assert_eq!(evs2.len(), 1);
    assert_eq!(evs2[0].events, EVENT_OUTPUT);
    // A queued message makes it readable.
    let iovs = vec![IoVec::new(b"ping")];
    sendmsg(&mut k, &client, &iovs, None, no_flags()).unwrap();
    let evs3 = epoll_wait(&k, &ep, 8, 0).unwrap();
    assert_eq!(evs3.len(), 1);
    assert_eq!(evs3[0].events, EVENT_INPUT | EVENT_OUTPUT);
    assert_eq!(evs3[0].data_u32(), 11);
}

#[test]
fn socket_owners_release_once_too() {
    let mut k = Kernel::new();
    let mut s = unix_stream(&mut k);
    let raw = s.raw();
    assert_eq!(s.close(&mut k), Ok(()));
    s.release(&mut k);
    assert_eq!(k.releases.len(), 1);
    assert_eq!(k.releases[0], raw);
}
