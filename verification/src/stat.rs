use vstd::prelude::*;
use crate::device::Device;

verus! {

/// A file metadata snapshot, in the field order of the kernel record:
/// containing-device id, inode, link count, mode, owner and group ids, the
/// packed device composite, size, block size and count, and three
/// seconds/nanoseconds timestamp pairs. The kernel record's reserved padding
/// words carry no information and are left to the boundary layer that
/// mirrors this record byte for byte.
#[derive(Clone, Copy, Debug, PartialEq, Eq, Structural)]
pub struct Stat {
    pub device_id: u64,
    pub inode: u64,
    pub link_count: u64,
    pub mode: u32,
    pub uid: u32,
    pub gid: u32,
    pub device: Device,
    pub size: i64,
    pub block_size: i64,
    pub blocks: i64,
    pub access_time: u64,
    pub access_time_nsec: u64,
    pub modify_time: u64,
    pub modify_time_nsec: u64,
    pub status_change_time: u64,
    pub status_change_time_nsec: u64,
}

} // verus!
