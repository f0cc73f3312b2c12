use vstd::prelude::*;
use crate::error::Error;

verus! {

// Open-call flag family: access-mode bits in the low 2-bit sub-field, then
// the independent option bits.
pub const OPEN_READ_ONLY: u32 = 0b00;
pub const OPEN_WRITE_ONLY: u32 = 0b01;
pub const OPEN_READ_WRITE: u32 = 0b10;
pub const OPEN_ACCESS_MODE: u32 = 0b11;
pub const OPEN_CREATE: u32 = 0o100;
pub const OPEN_APPEND: u32 = 0o2000;
pub const OPEN_NON_BLOCKING: u32 = 0o4000;
pub const OPEN_NO_ACCESS_TIME: u32 = 0o1000000;
pub const OPEN_CLOSE_ON_EXEC: u32 = 0o2000000;
pub const OPEN_FAMILY: u32 = OPEN_ACCESS_MODE | OPEN_CREATE | OPEN_APPEND | OPEN_NON_BLOCKING
    | OPEN_NO_ACCESS_TIME | OPEN_CLOSE_ON_EXEC;

// Socket message flag family.
pub const MSG_OOB: u32 = 0x01;
pub const MSG_PEEK: u32 = 0x02;
pub const MSG_DONT_ROUTE: u32 = 0x04;
pub const MSG_NON_BLOCKING: u32 = 0x40;
pub const MSG_CLOSE_ON_EXEC: u32 = 0x4000_0000;
pub const MSG_FAMILY: u32 = MSG_OOB | MSG_PEEK | MSG_DONT_ROUTE | MSG_NON_BLOCKING
    | MSG_CLOSE_ON_EXEC;

// Memory-mapping families: sharing flags, page protections, remap options.
pub const MAP_SHARED: u32 = 1;
pub const MAP_PRIVATE: u32 = 2;
pub const MAP_FAMILY: u32 = MAP_SHARED | MAP_PRIVATE;

pub const PROT_EXEC: u32 = 0b001;
pub const PROT_READ: u32 = 0b010;
pub const PROT_WRITE: u32 = 0b100;
pub const PROT_FAMILY: u32 = PROT_EXEC | PROT_READ | PROT_WRITE;

pub const REMAP_MAY_MOVE: u32 = 0b001;
pub const REMAP_FAMILY: u32 = REMAP_MAY_MOVE;

// Event-notification families: instance-creation flags and readiness bits.
pub const EPOLL_CLOSE_ON_EXEC: u32 = 0o2000000;
pub const EPOLL_FAMILY: u32 = EPOLL_CLOSE_ON_EXEC;

pub const EVENT_INPUT: u32 = 0x01;
pub const EVENT_OUTPUT: u32 = 0x04;
pub const EVENT_ERROR: u32 = 0x08;
pub const EVENT_HANG_UP: u32 = 0x10;
pub const EVENT_FAMILY: u32 = EVENT_INPUT | EVENT_OUTPUT | EVENT_ERROR | EVENT_HANG_UP;

// Anonymous-file creation flags.
pub const MEMFD_CLOSE_ON_EXEC: u32 = 0x1;
pub const MEMFD_FAMILY: u32 = MEMFD_CLOSE_ON_EXEC;

// Socket type option bits that may accompany the socket type.
pub const SOCK_NON_BLOCKING: u32 = 0o0004000;
pub const SOCK_CLOSE_ON_EXEC: u32 = 0o2000000;

/// A bitmask over one integer family. The family is identified by its
/// declared valid-bit mask; bits of the raw value outside the mask are
/// foreign. Validated construction rejects foreign bits, while the bitwise
/// operators work on the raw value, so a combined set can hold residual
/// foreign bits and reports them separately from the named ones.
#[derive(Clone, Copy, Debug, PartialEq, Eq, Structural)]
pub struct FlagSet {
    bits: u32,
    mask: u32,
}

impl FlagSet {
    /// The raw bit pattern this set holds.
    pub closed spec fn spec_bits(&self) -> u32 {
        self.bits
    }

    /// The family's declared valid-bit mask.
    pub closed spec fn spec_mask(&self) -> u32 {
        self.mask
    }

    /// Whether every set bit belongs to the family.
    pub open spec fn is_valid(&self) -> bool {
        self.spec_bits() & !self.spec_mask() == 0
    }

    /// The validated construction of a flag set from a raw integer: the exact
    /// raw value when no foreign bit is set, the family's designated failure
    /// otherwise. Its two cases are characterized by `lemma_flag_round_trip`
    /// and `lemma_flag_validation`.
    pub closed spec fn spec_try_new(bits: u32, mask: u32) -> Result<FlagSet, Error> {
        if bits & !mask == 0 {
            Ok(FlagSet { bits, mask })
        } else {
            Err(Error::EINVAL)
        }
    }

    /// The empty set of a family.
    pub fn empty(mask: u32) -> (r: FlagSet)
        ensures
            r.spec_bits() == 0,
            r.spec_mask() == mask,
            r.is_valid(),
    {
        proof {
            assert(0u32 & !mask == 0) by (bit_vector);
        }
        FlagSet { bits: 0, mask }
    }

    /// Build a flag set whose bits are known to lie within the family.
    pub fn new(bits: u32, mask: u32) -> (r: FlagSet)
        requires
            bits & !mask == 0,
        ensures
            r.spec_bits() == bits,
            r.spec_mask() == mask,
            r.is_valid(),
    {
        FlagSet { bits, mask }
    }

    /// Validate a raw integer against the family mask: foreign bits are a
    /// typed construction failure.
    pub fn try_new(bits: u32, mask: u32) -> (r: Result<FlagSet, Error>)
        ensures
            r == FlagSet::spec_try_new(bits, mask),
    {
        if bits & !mask == 0 {
            Ok(FlagSet { bits, mask })
        } else {
            Err(Error::EINVAL)
        }
    }

    /// The raw bit pattern.
    pub fn bits(&self) -> (r: u32)
        ensures
            r == self.spec_bits(),
    {
        self.bits
    }

    /// The family's valid-bit mask.
    pub fn mask(&self) -> (r: u32)
        ensures
            r == self.spec_mask(),
    {
        self.mask
    }

    /// True if any of the given bits are set.
    pub fn any(&self, bits: FlagSet) -> (r: bool)
        ensures
            r == (self.spec_bits() & bits.spec_bits() != 0),
    {
        self.bits & bits.bits != 0
    }

    /// True if all of the given bits are set.
    pub fn all(&self, bits: FlagSet) -> (r: bool)
        ensures
            r == (self.spec_bits() & bits.spec_bits() == bits.spec_bits()),
    {
        self.bits & bits.bits == bits.bits
    }

    /// The bitwise AND of the two sets, in this set's family.
    pub fn intersect(&self, other: FlagSet) -> (r: FlagSet)
        ensures
            r.spec_bits() == self.spec_bits() & other.spec_bits(),
            r.spec_mask() == self.spec_mask(),
    {
        FlagSet { bits: self.bits & other.bits, mask: self.mask }
    }

    /// The bitwise OR of the two sets, in this set's family.
    pub fn union(&self, other: FlagSet) -> (r: FlagSet)
        ensures
            r.spec_bits() == self.spec_bits() | other.spec_bits(),
            r.spec_mask() == self.spec_mask(),
    {
        FlagSet { bits: self.bits | other.bits, mask: self.mask }
    }

    /// The bitwise XOR of the two sets, in this set's family.
    pub fn toggle(&self, other: FlagSet) -> (r: FlagSet)
        ensures
            r.spec_bits() == self.spec_bits() ^ other.spec_bits(),
            r.spec_mask() == self.spec_mask(),
    {
        FlagSet { bits: self.bits ^ other.bits, mask: self.mask }
    }

    /// The bitwise NOT of the raw value, in this set's family. The result
    /// holds foreign bits whenever the family mask is not the full word.
    pub fn complement(&self) -> (r: FlagSet)
        ensures
            r.spec_bits() == !self.spec_bits(),
            r.spec_mask() == self.spec_mask(),
    {
        FlagSet { bits: !self.bits, mask: self.mask }
    }

    /// The set bits that belong to the family.
    pub fn known(&self) -> (r: u32)
        ensures
            r == self.spec_bits() & self.spec_mask(),
    {
        self.bits & self.mask
    }

    /// The residual foreign bits, rendered apart from the named ones: zero
    /// exactly when the set is valid.
    pub fn residual(&self) -> (r: u32)
        ensures
            r == self.spec_bits() & !self.spec_mask(),
            (r == 0) == self.is_valid(),
    {
        self.bits & !self.mask
    }
}

/// Decoding a valid-bit raw integer and re-encoding it yields the integer
/// unchanged: validated construction succeeds and holds exactly the raw
/// value handed in.
pub proof fn lemma_flag_round_trip(v: u32, mask: u32)
    requires
        v & !mask == 0,
    ensures
        FlagSet::spec_try_new(v, mask) matches Ok(f) && f.spec_bits() == v && f.spec_mask()
            == mask,
{
}

/// Construction from a raw integer fails with the family's designated
/// failure exactly when a foreign bit is set, and succeeds otherwise.
pub proof fn lemma_flag_validation(v: u32, mask: u32)
    ensures
        v & !mask != 0 ==> FlagSet::spec_try_new(v, mask) == Err::<FlagSet, Error>(Error::EINVAL),
        v & !mask == 0 ==> (FlagSet::spec_try_new(v, mask) matches Ok(f) && f.spec_bits() == v),
{
}

} // verus!
