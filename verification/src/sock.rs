use vstd::prelude::*;
use vstd::slice::slice_to_vec;
use crate::error::Error;

verus! {

/// The largest backlog a listening socket may ask for.
pub const MAX_CONNECTIONS: u32 = 4096;

/// The family tag of a Unix-domain address block.
pub const UNIX_FAMILY: u16 = 1;

/// The fixed size of the path field in a Unix-domain address block.
pub const UNIX_PATH_CAPACITY: usize = 108;

// Scalar-enumeration families of the socket subsystem. Each family is an
// open set of named integer constants; a family value carries its raw
// integer, and `label` renders known constants with a human-readable label
// and every other value with a distinct unknown rendering.
pub const DOMAIN_UNSPECIFIED: u32 = 0;
pub const DOMAIN_UNIX: u32 = 1;
pub const DOMAIN_INET: u32 = 2;
pub const DOMAIN_INET6: u32 = 10;

pub const TYPE_STREAM: u32 = 1;
pub const TYPE_DATAGRAM: u32 = 2;

pub const PROTOCOL_UNSPECIFIED: u32 = 0;
pub const PROTOCOL_RAW: u32 = 255;

pub const LEVEL_UNSPECIFIED: u32 = 0;
pub const LEVEL_SOCKET: u32 = 0xFFFF;

pub const ANCILLARY_NONE: u32 = 0;
pub const ANCILLARY_RIGHTS: u32 = 1;

/// The distinct rendering of a scalar-enumeration value outside its family's
/// named constants.
pub open spec fn spec_unknown_label() -> Seq<char> {
    "Unknown enumeration value."@
}

/// A protocol family.
#[derive(Clone, Copy, Debug, PartialEq, Eq, Structural)]
pub struct Domain(pub u32);

/// The label of each protocol-family constant.
pub open spec fn spec_domain_label(v: u32) -> Seq<char> {
    if v == DOMAIN_UNSPECIFIED {
        "Unspecified protocol family"@
    } else if v == DOMAIN_UNIX {
        "Unix Domain Socket"@
    } else if v == DOMAIN_INET {
        "IPv4"@
    } else if v == DOMAIN_INET6 {
        "IPv6"@
    } else {
        spec_unknown_label()
    }
}

impl Domain {
    /// A human-readable label, distinct for unrecognized values.
    pub fn label(&self) -> (r: &'static str)
        ensures
            r@ == spec_domain_label(self.0),
    {
        if self.0 == DOMAIN_UNSPECIFIED {
            "Unspecified protocol family"
        } else if self.0 == DOMAIN_UNIX {
            "Unix Domain Socket"
        } else if self.0 == DOMAIN_INET {
            "IPv4"
        } else if self.0 == DOMAIN_INET6 {
            "IPv6"
        } else {
            "Unknown enumeration value."
        }
    }
}

/// A socket type.
#[derive(Clone, Copy, Debug, PartialEq, Eq, Structural)]
pub struct Type(pub u32);

/// The label of each socket-type constant.
pub open spec fn spec_type_label(v: u32) -> Seq<char> {
    if v == TYPE_STREAM {
        "Sequenced, reliable, connection-based byte streams"@
    } else if v == TYPE_DATAGRAM {
        "Connectionless, unreliable datagrams of fixed maximum length"@
    } else {
        spec_unknown_label()
    }
}

impl Type {
    /// A human-readable label, distinct for unrecognized values.
    pub fn label(&self) -> (r: &'static str)
        ensures
            r@ == spec_type_label(self.0),
    {
        if self.0 == TYPE_STREAM {
            "Sequenced, reliable, connection-based byte streams"
        } else if self.0 == TYPE_DATAGRAM {
            "Connectionless, unreliable datagrams of fixed maximum length"
        } else {
            "Unknown enumeration value."
        }
    }

    /// The type word with creation-time option bits set beside it.
    pub fn with_flags(self, flags: u32) -> (r: Type)
        ensures
            r.0 == self.0 | flags,
    {
        Type(self.0 | flags)
    }
}

/// A socket protocol.
#[derive(Clone, Copy, Debug, PartialEq, Eq, Structural)]
pub struct Protocol(pub u32);

/// The label of each protocol constant.
pub open spec fn spec_protocol_label(v: u32) -> Seq<char> {
    if v == PROTOCOL_UNSPECIFIED {
        "Unspecified protocol"@
    } else if v == PROTOCOL_RAW {
        "Raw socket"@
    } else {
        spec_unknown_label()
    }
}

impl Protocol {
    /// A human-readable label, distinct for unrecognized values.
    pub fn label(&self) -> (r: &'static str)
        ensures
            r@ == spec_protocol_label(self.0),
    {
        if self.0 == PROTOCOL_UNSPECIFIED {
            "Unspecified protocol"
        } else if self.0 == PROTOCOL_RAW {
            "Raw socket"
        } else {
            "Unknown enumeration value."
        }
    }
}

/// A control-message level.
#[derive(Clone, Copy, Debug, PartialEq, Eq, Structural)]
pub struct Level(pub u32);

/// The label of each level constant.
pub open spec fn spec_level_label(v: u32) -> Seq<char> {
    if v == LEVEL_UNSPECIFIED {
        "Unspecified socket level"@
    } else if v == LEVEL_SOCKET {
        "The socket itself"@
    } else {
        spec_unknown_label()
    }
}

impl Level {
    /// A human-readable label, distinct for unrecognized values.
    pub fn label(&self) -> (r: &'static str)
        ensures
            r@ == spec_level_label(self.0),
    {
        if self.0 == LEVEL_UNSPECIFIED {
            "Unspecified socket level"
        } else if self.0 == LEVEL_SOCKET {
            "The socket itself"
        } else {
            "Unknown enumeration value."
        }
    }
}

/// A control-message type tag.
#[derive(Clone, Copy, Debug, PartialEq, Eq, Structural)]
pub struct AncillaryType(pub u32);

/// The label of each control-message type constant.
pub open spec fn spec_ancillary_type_label(v: u32) -> Seq<char> {
    if v == ANCILLARY_NONE {
        "No ancillary data"@
    } else if v == ANCILLARY_RIGHTS {
        "Transfer file descriptors"@
    } else {
        spec_unknown_label()
    }
}

impl AncillaryType {
    /// A human-readable label, distinct for unrecognized values.
    pub fn label(&self) -> (r: &'static str)
        ensures
            r@ == spec_ancillary_type_label(self.0),
    {
        if self.0 == ANCILLARY_NONE {
            "No ancillary data"
        } else if self.0 == ANCILLARY_RIGHTS {
            "Transfer file descriptors"
        } else {
            "Unknown enumeration value."
        }
    }
}

/// An address blob handed to the socket calls: the exact bytes of a
/// fixed-layout address block.
pub struct Address {
    bytes: Vec<u8>,
}

impl View for Address {
    type V = Seq<u8>;

    closed spec fn view(&self) -> Seq<u8> {
        self.bytes@
    }
}

impl Address {
    /// An address blob holding exactly the given bytes.
    pub fn new(bytes: Vec<u8>) -> (r: Address)
        ensures
            r@ == bytes@,
    {
        Address { bytes }
    }

    /// The bytes of the blob.
    pub fn bytes(&self) -> (r: &Vec<u8>)
        ensures
            r@ == self@,
    {
        &self.bytes
    }
}

/// The address of a Unix-domain socket: a fixed 108-byte path field,
/// null-padded past the path itself.
pub struct UnixAddress {
    path: Vec<u8>,
}

impl UnixAddress {
    /// The full, null-padded path field.
    pub closed spec fn spec_path(&self) -> Seq<u8> {
        self.path@
    }

    /// The path field always has its fixed size.
    pub open spec fn wf(&self) -> bool {
        self.spec_path().len() == UNIX_PATH_CAPACITY
    }

    /// Build a Unix-domain address from a path of at most 107 bytes, leaving
    /// room for the terminating null; longer paths are rejected.
    pub fn new(path: &[u8]) -> (r: Result<UnixAddress, Error>)
        ensures
            path@.len() > 107 ==> r == Err::<UnixAddress, Error>(Error::EINVAL),
            path@.len() <= 107 ==> (r matches Ok(a) && a.wf() && a.spec_path() == path@
                + Seq::new((UNIX_PATH_CAPACITY - path@.len()) as nat, |i: int| 0u8)),
    {
        if path.len() > 107 {
            return Err(Error::EINVAL);
        }
        let mut p: Vec<u8> = slice_to_vec(path);
        while p.len() < UNIX_PATH_CAPACITY
            invariant
                path@.len() <= p@.len() <= UNIX_PATH_CAPACITY,
                p@.subrange(0, path@.len() as int) == path@,
                forall|k: int| path@.len() <= k < p@.len() ==> p@[k] == 0u8,
            decreases UNIX_PATH_CAPACITY - p.len(),
        {
            p.push(0);
            proof {
                assert(p@.subrange(0, path@.len() as int) == path@);
            }
        }
        proof {
            assert(p@ =~= path@ + Seq::new((UNIX_PATH_CAPACITY - path@.len()) as nat, |i: int| 0u8));
        }
        Ok(UnixAddress { path: p })
    }

    /// The family tag of this address family.
    pub fn family(&self) -> (r: u16)
        ensures
            r == UNIX_FAMILY,
    {
        UNIX_FAMILY
    }

    /// The address block as the exact bytes that cross the kernel boundary:
    /// the 2-byte family tag in little-endian order, then the padded path.
    pub fn address(&self) -> (r: Address)
        requires
            self.wf(),
        ensures
            r@ == seq![1u8, 0u8] + self.spec_path(),
            r@.len() == UNIX_PATH_CAPACITY + 2,
    {
        let mut bytes: Vec<u8> = Vec::new();
        bytes.push(1);
        bytes.push(0);
        let mut i: usize = 0;
        while i < self.path.len()
            invariant
                i <= self.path@.len(),
                self.path@.len() == UNIX_PATH_CAPACITY,
                bytes@ == seq![1u8, 0u8] + self.path@.subrange(0, i as int),
            decreases self.path@.len() - i,
        {
            bytes.push(self.path[i]);
            proof {
                assert(bytes@ =~= seq![1u8, 0u8] + self.path@.subrange(0, i + 1));
            }
            i += 1;
        }
        proof {
            assert(self.path@.subrange(0, self.path@.len() as int) =~= self.path@);
        }
        Address::new(bytes)
    }
}

/// Out-of-band data that may accompany a socket message: a level and type
/// tag and a bounded run of item slots, used to pass open descriptors
/// between processes.
pub struct Ancillary {
    level: Level,
    ty: AncillaryType,
    items: Vec<u32>,
    capacity: usize,
}

impl Ancillary {
    /// The control-message level.
    pub closed spec fn spec_level(&self) -> u32 {
        self.level.0
    }

    /// The control-message type tag.
    pub closed spec fn spec_ty(&self) -> u32 {
        self.ty.0
    }

    /// The items the block holds.
    pub closed spec fn spec_items(&self) -> Seq<u32> {
        self.items@
    }

    /// The fixed number of item slots.
    pub closed spec fn spec_capacity(&self) -> nat {
        self.capacity as nat
    }

    /// The block never holds more items than it has slots.
    pub open spec fn wf(&self) -> bool {
        self.spec_items().len() <= self.spec_capacity()
    }

    /// An empty control-message block with the given number of item slots.
    pub fn new(capacity: usize) -> (r: Ancillary)
        ensures
            r.spec_level() == LEVEL_UNSPECIFIED,
            r.spec_ty() == ANCILLARY_NONE,
            r.spec_items() == Seq::<u32>::empty(),
            r.spec_capacity() == capacity,
            r.wf(),
    {
        let items: Vec<u32> = Vec::new();
        proof {
            assert(items@ =~= Seq::<u32>::empty());
        }
        Ancillary { level: Level(LEVEL_UNSPECIFIED), ty: AncillaryType(ANCILLARY_NONE), items, capacity }
    }

    /// The items received into the block.
    pub fn items(&self) -> (r: &Vec<u32>)
        ensures
            r@ == self.spec_items(),
    {
        &self.items
    }

    /// The control-message level.
    pub fn level(&self) -> (r: Level)
        ensures
            r.0 == self.spec_level(),
    {
        self.level
    }

    /// The control-message type tag.
    pub fn ty(&self) -> (r: AncillaryType)
        ensures
            r.0 == self.spec_ty(),
    {
        self.ty
    }

    /// The number of item slots.
    pub fn capacity(&self) -> (r: usize)
        ensures
            r == self.spec_capacity(),
    {
        self.capacity
    }

    /// Load the block with a control message to send: the level and type
    /// tag, and items that must fit the block's slots.
    pub fn load(&mut self, level: u32, ty: u32, items: &[u32]) -> (r: Result<(), Error>)
        ensures
            items@.len() > old(self).spec_capacity() ==> r == Err::<(), Error>(Error::EINVAL)
                && *final(self) == *old(self),
            items@.len() <= old(self).spec_capacity() ==> {
                &&& r == Ok::<(), Error>(())
                &&& final(self).spec_level() == level
                &&& final(self).spec_ty() == ty
                &&& final(self).spec_items() == items@
                &&& final(self).spec_capacity() == old(self).spec_capacity()
                &&& final(self).wf()
            },
    {
        if items.len() > self.capacity {
            return Err(Error::EINVAL);
        }
        self.level = Level(level);
        self.ty = AncillaryType(ty);
        self.items = slice_to_vec(items);
        Ok(())
    }

    /// Fill the block with a received control message, keeping at most as
    /// many items as the block has slots.
    pub(crate) fn fill(&mut self, level: u32, ty: u32, items: Vec<u32>) -> (kept: usize)
        ensures
            final(self).spec_level() == level,
            final(self).spec_ty() == ty,
            final(self).spec_capacity() == old(self).spec_capacity(),
            kept == if items@.len() <= old(self).spec_capacity() {
                items@.len() as int
            } else {
                old(self).spec_capacity() as int
            },
            final(self).spec_items() == items@.subrange(0, kept as int),
            final(self).wf(),
    {
        let mut items = items;
        if items.len() > self.capacity {
            items.truncate(self.capacity);
        }
        proof {
            assert(items@ =~= items@.subrange(0, items@.len() as int));
        }
        let kept = items.len();
        self.level = Level(level);
        self.ty = AncillaryType(ty);
        self.items = items;
        kept
    }
}

} // verus!
