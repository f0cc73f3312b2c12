use vstd::prelude::*;

verus! {

// Field widths, offsets and masks of the packed 32-bit control-command word:
// `{ number:8 @ bit 0, code:8 @ bit 8, payload-size:14 @ bit 16,
//    direction:2 @ bit 30 }`.
pub const NUMBER_BITS: u32 = 8;
pub const NUMBER_SHIFT: u32 = 0;
pub const NUMBER_MASK: u32 = 0xFF;

pub const CODE_BITS: u32 = 8;
pub const CODE_SHIFT: u32 = 8;
pub const CODE_MASK: u32 = 0xFF;

pub const SIZE_BITS: u32 = 14;
pub const SIZE_SHIFT: u32 = 16;
pub const SIZE_MASK: u32 = 0x3FFF;

pub const DIRECTION_BITS: u32 = 2;
pub const DIRECTION_SHIFT: u32 = 30;
pub const DIRECTION_MASK: u32 = 0x3;

// The four transfer directions of a control command.
pub const DIRECTION_NONE: u32 = 0;
pub const DIRECTION_WRITE: u32 = 1;
pub const DIRECTION_READ: u32 = 2;
pub const DIRECTION_READ_WRITE: u32 = DIRECTION_WRITE | DIRECTION_READ;

/// The packed control-command word: each field reduced to its declared width
/// and placed at its bit offset.
pub open spec fn spec_ioctl_code(direction: u32, code: u32, number: u32, size: u32) -> u32 {
    ((number & NUMBER_MASK) << NUMBER_SHIFT) | ((code & CODE_MASK) << CODE_SHIFT) | ((size
        & SIZE_MASK) << SIZE_SHIFT) | ((direction & DIRECTION_MASK) << DIRECTION_SHIFT)
}

/// Pack a control-command word from its direction, code, number and
/// payload-size fields.
pub fn ioctl_code(direction: u32, code: u32, number: u32, size: u32) -> (r: u32)
    ensures
        r == spec_ioctl_code(direction, code, number, size),
{
    ((number & NUMBER_MASK) << NUMBER_SHIFT) | ((code & CODE_MASK) << CODE_SHIFT) | ((size
        & SIZE_MASK) << SIZE_SHIFT) | ((direction & DIRECTION_MASK) << DIRECTION_SHIFT)
}

/// Each field of a packed control-command word is recoverable at its offset:
/// the packing is faithful for every field value within its declared width.
pub proof fn lemma_ioctl_fields(direction: u32, code: u32, number: u32, size: u32)
    requires
        direction <= DIRECTION_MASK,
        code <= CODE_MASK,
        number <= NUMBER_MASK,
        size <= SIZE_MASK,
    ensures
        spec_ioctl_code(direction, code, number, size) & NUMBER_MASK == number,
        (spec_ioctl_code(direction, code, number, size) >> CODE_SHIFT) & CODE_MASK == code,
        (spec_ioctl_code(direction, code, number, size) >> SIZE_SHIFT) & SIZE_MASK == size,
        (spec_ioctl_code(direction, code, number, size) >> DIRECTION_SHIFT) & DIRECTION_MASK
            == direction,
{
    assert((((number & 0xFF) << 0) | ((code & 0xFF) << 8) | ((size & 0x3FFF) << 16) | ((direction & 0x3)
        << 30)) & 0xFF == number) by (bit_vector)
        requires
            number <= 0xFF,
    ;
    assert(((((number & 0xFF) << 0) | ((code & 0xFF) << 8) | ((size & 0x3FFF) << 16) | ((direction & 0x3)
        << 30)) >> 8) & 0xFF == code) by (bit_vector)
        requires
            code <= 0xFF,
    ;
    assert(((((number & 0xFF) << 0) | ((code & 0xFF) << 8) | ((size & 0x3FFF) << 16) | ((direction & 0x3)
        << 30)) >> 16) & 0x3FFF == size) by (bit_vector)
        requires
            size <= 0x3FFF,
    ;
    assert(((((number & 0xFF) << 0) | ((code & 0xFF) << 8) | ((size & 0x3FFF) << 16) | ((direction & 0x3)
        << 30)) >> 30) & 0x3 == direction) by (bit_vector)
        requires
            direction <= 0x3,
    ;
}

} // verus!
