use vstd::prelude::*;

verus! {

/// The wait timeout that means "wait indefinitely".
pub const TIMEOUT_INFINITY: u32 = 0xFFFF_FFFF;

// The registry-change command numbers.
pub const CTL_ADD: u32 = 1;
pub const CTL_DELETE: u32 = 2;
pub const CTL_MODIFY: u32 = 3;

/// A readiness notification record: a bitmask of ready conditions and an
/// untagged 8-byte payload. The payload's interpretation is chosen by the
/// caller at registration time and is the caller's to remember: the kernel
/// neither tags nor validates it.
#[derive(Clone, Copy, Debug, PartialEq, Eq, Structural)]
pub struct Event {
    pub events: u32,
    pub data: u64,
}

impl Event {
    /// An event record with the payload given as a plain 64-bit word.
    pub fn new(events: u32, data: u64) -> (r: Event)
        ensures
            r.events == events,
            r.data == data,
    {
        Event { events, data }
    }

    /// An event record whose payload carries a descriptor number.
    pub fn with_fd(events: u32, fd: u32) -> (r: Event)
        ensures
            r.events == events,
            r.data == fd as u64,
    {
        Event { events, data: fd as u64 }
    }

    /// An event record whose payload carries a 32-bit value.
    pub fn with_u32(events: u32, value: u32) -> (r: Event)
        ensures
            r.events == events,
            r.data == value as u64,
    {
        Event { events, data: value as u64 }
    }

    /// An event record whose payload carries an address.
    pub fn with_ptr(events: u32, address: usize) -> (r: Event)
        ensures
            r.events == events,
            r.data == address as u64,
    {
        Event { events, data: address as u64 }
    }

    /// The payload read back as a 64-bit word.
    pub fn data_u64(&self) -> (r: u64)
        ensures
            r == self.data,
    {
        self.data
    }

    /// The payload read back as a 32-bit value: its low 32 bits. Reading the
    /// payload under the interpretation it was written with is the caller's
    /// responsibility.
    pub fn data_u32(&self) -> (r: u32)
        ensures
            r == self.data & 0xFFFF_FFFF,
    {
        proof {
            let d = self.data;
            assert(d & 0xFFFF_FFFF < 0x1_0000_0000) by (bit_vector);
        }
        (self.data & 0xFFFF_FFFF) as u32
    }
}

/// A registry-change request: add a descriptor to the interest set with an
/// event record, remove it, or replace its record.
#[derive(Clone, Copy, Debug, PartialEq, Eq, Structural)]
pub enum Cntl {
    Add(Event),
    Delete,
    Modify(Event),
}

/// The command number of each registry-change request.
pub open spec fn spec_cntl_cmd(c: Cntl) -> u32 {
    match c {
        Cntl::Add(_) => CTL_ADD,
        Cntl::Delete => CTL_DELETE,
        Cntl::Modify(_) => CTL_MODIFY,
    }
}

/// The event record a registry-change request carries, if any.
pub open spec fn spec_cntl_arg(c: Cntl) -> Option<Event> {
    match c {
        Cntl::Add(e) => Some(e),
        Cntl::Delete => None,
        Cntl::Modify(e) => Some(e),
    }
}

impl Cntl {
    /// The command number of the request.
    pub fn cmd(&self) -> (r: u32)
        ensures
            r == spec_cntl_cmd(*self),
    {
        match self {
            Cntl::Add(_) => CTL_ADD,
            Cntl::Delete => CTL_DELETE,
            Cntl::Modify(_) => CTL_MODIFY,
        }
    }

    /// The event record the request carries: present for additions and
    /// modifications, absent for removals.
    pub fn arg(&self) -> (r: Option<&Event>)
        ensures
            (match r {
                Some(e) => spec_cntl_arg(*self) == Some(*e),
                None => spec_cntl_arg(*self) is None,
            }),
    {
        match self {
            Cntl::Add(e) => Some(e),
            Cntl::Delete => None,
            Cntl::Modify(e) => Some(e),
        }
    }
}

} // verus!
