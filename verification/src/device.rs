use vstd::prelude::*;

verus! {

/// The packed 64-bit device composite: the minor's low 8 bits in bits 0..8,
/// the major in bits 8..40, and the minor's remaining 24 bits in bits 40..64.
pub open spec fn spec_encode_device(major: u32, minor: u32) -> u64 {
    ((major as u64) << 8) | (((minor as u64) & 0xFFFF_FF00) << 32) | ((minor as u64) & 0xFF)
}

/// The major number held by a device composite.
pub open spec fn spec_device_major(value: u64) -> u32 {
    ((value >> 8) & 0xFFFF_FFFF) as u32
}

/// The minor number held by a device composite.
pub open spec fn spec_device_minor(value: u64) -> u32 {
    (((value >> 32) & 0xFFFF_FF00) | (value & 0xFF)) as u32
}

/// A device identifier packed into one 64-bit composite value.
#[derive(Clone, Copy, Debug, PartialEq, Eq, Structural)]
pub struct Device {
    value: u64,
}

impl View for Device {
    type V = u64;

    closed spec fn view(&self) -> u64 {
        self.value
    }
}

impl Device {
    /// Pack a major and minor number into the composite.
    pub fn new(major: u32, minor: u32) -> (r: Device)
        ensures
            r@ == spec_encode_device(major, minor),
    {
        let major64: u64 = major as u64;
        let minor64: u64 = minor as u64;
        Device { value: (major64 << 8) | ((minor64 & 0xFFFF_FF00) << 32) | (minor64 & 0xFF) }
    }

    /// The packed composite value.
    pub fn value(&self) -> (r: u64)
        ensures
            r == self@,
    {
        self.value
    }

    /// The major number of the device.
    pub fn major(&self) -> (r: u32)
        ensures
            r == spec_device_major(self@),
    {
        ((self.value >> 8) & 0xFFFF_FFFF) as u32
    }

    /// The minor number of the device.
    pub fn minor(&self) -> (r: u32)
        ensures
            r == spec_device_minor(self@),
    {
        (((self.value >> 32) & 0xFFFF_FF00) | (self.value & 0xFF)) as u32
    }
}

/// Packing then unpacking a device composite recovers both numbers exactly,
/// for every major and minor, including minors that exceed 8 bits.
pub proof fn lemma_device_round_trip(major: u32, minor: u32)
    ensures
        spec_device_major(spec_encode_device(major, minor)) == major,
        spec_device_minor(spec_encode_device(major, minor)) == minor,
{
    let major64 = major as u64;
    let minor64 = minor as u64;
    assert((((major64 << 8) | ((minor64 & 0xFFFF_FF00) << 32) | (minor64 & 0xFF)) >> 8)
        & 0xFFFF_FFFF == major64) by (bit_vector)
        requires
            major64 < 0x1_0000_0000,
    ;
    assert(((((major64 << 8) | ((minor64 & 0xFFFF_FF00) << 32) | (minor64 & 0xFF)) >> 32)
        & 0xFFFF_FF00) | (((major64 << 8) | ((minor64 & 0xFFFF_FF00) << 32) | (minor64 & 0xFF))
        & 0xFF) == minor64) by (bit_vector)
        requires
            major64 < 0x1_0000_0000,
            minor64 < 0x1_0000_0000,
    ;
}

} // verus!
