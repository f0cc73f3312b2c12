use vstd::prelude::*;

verus! {

/// The capability every descriptor-bearing type offers: it designates one
/// raw kernel-assigned descriptor number.
pub trait FileDescriptor {
    /// The raw identifier this value designates.
    spec fn id(&self) -> u32;

    /// The raw kernel-assigned descriptor number.
    fn raw(&self) -> (r: u32)
        ensures
            r == self.id(),
    ;
}

/// A non-owning view of a descriptor. It can be made freely, costs nothing
/// and never releases the resource it designates.
#[derive(Clone, Copy, Debug, PartialEq, Eq, Structural)]
pub struct Fd {
    raw: u32,
}

impl Fd {
    /// A borrowed view of a raw descriptor number.
    pub fn from_raw(fd: u32) -> (r: Fd)
        ensures
            r.id() == fd,
    {
        Fd { raw: fd }
    }

    /// Take ownership of the descriptor this view designates. If another
    /// owner of the same raw number exists, each owner will issue its own
    /// release; avoiding that is the caller's contract.
    pub fn owned(self) -> (r: File)
        ensures
            r.id() == self.id(),
            r.is_open(),
    {
        File { fd: self.raw, open: true }
    }

    /// The same view, freed from the scope it was derived in.
    pub fn extend(self) -> (r: Fd)
        ensures
            r == self,
    {
        self
    }

    /// The standard input descriptor.
    pub fn stdin() -> (r: Fd)
        ensures
            r.id() == 0,
    {
        Fd { raw: 0 }
    }

    /// The standard output descriptor.
    pub fn stdout() -> (r: Fd)
        ensures
            r.id() == 1,
    {
        Fd { raw: 1 }
    }

    /// The standard error descriptor.
    pub fn stderr() -> (r: Fd)
        ensures
            r.id() == 2,
    {
        Fd { raw: 2 }
    }
}

impl FileDescriptor for Fd {
    closed spec fn id(&self) -> u32 {
        self.raw
    }

    fn raw(&self) -> u32 {
        self.raw
    }
}

/// Exclusive ownership of an open file resource. Exactly one release call is
/// issued over its lifetime: either by an explicit `close`, or by `release`
/// at the end of its scope, and never by both.
#[derive(Debug)]
pub struct File {
    fd: u32,
    open: bool,
}

impl File {
    /// Whether this owner still holds the resource, that is, has not yet
    /// issued its release.
    pub closed spec fn is_open(&self) -> bool {
        self.open
    }

    /// An owned file known to hold the given descriptor.
    pub(crate) fn from_parts(fd: u32) -> (r: File)
        ensures
            r.id() == fd,
            r.is_open(),
    {
        File { fd, open: true }
    }

    /// Whether this owner still holds the resource.
    pub fn open(&self) -> (r: bool)
        ensures
            r == self.is_open(),
    {
        self.open
    }

    /// A borrowed view of this file's descriptor, without transferring
    /// ownership.
    pub fn fd(&self) -> (r: Fd)
        ensures
            r.id() == self.id(),
    {
        Fd { raw: self.fd }
    }

    /// Mark the owner as having issued its release.
    pub(crate) fn mark_released(&mut self)
        ensures
            final(self).id() == old(self).id(),
            !final(self).is_open(),
    {
        self.open = false;
    }
}

impl FileDescriptor for File {
    closed spec fn id(&self) -> u32 {
        self.fd
    }

    fn raw(&self) -> u32 {
        self.fd
    }
}

/// Exclusive ownership of an open socket resource, with the same release
/// discipline as an owned file.
#[derive(Debug)]
pub struct Socket {
    fd: u32,
    open: bool,
}

impl Socket {
    /// Whether this owner still holds the resource.
    pub closed spec fn is_open(&self) -> bool {
        self.open
    }

    /// An owned socket known to hold the given descriptor.
    pub(crate) fn from_parts(fd: u32) -> (r: Socket)
        ensures
            r.id() == fd,
            r.is_open(),
    {
        Socket { fd, open: true }
    }

    /// Whether this owner still holds the resource.
    pub fn open(&self) -> (r: bool)
        ensures
            r == self.is_open(),
    {
        self.open
    }

    /// A borrowed view of this socket's descriptor, without transferring
    /// ownership.
    pub fn fd(&self) -> (r: Fd)
        ensures
            r.id() == self.id(),
    {
        Fd { raw: self.fd }
    }

    /// Mark the owner as having issued its release.
    pub(crate) fn mark_released(&mut self)
        ensures
            final(self).id() == old(self).id(),
            !final(self).is_open(),
    {
        self.open = false;
    }
}

impl FileDescriptor for Socket {
    closed spec fn id(&self) -> u32 {
        self.fd
    }

    fn raw(&self) -> u32 {
        self.fd
    }
}

} // verus!
