use vstd::prelude::*;
use crate::fdesc::{Fd, FileDescriptor};
use crate::flags::FlagSet;

verus! {

// The descriptor-manipulation command numbers.
pub const F_DUP_FD: u32 = 0;
pub const F_GET_FD: u32 = 1;
pub const F_SET_FD: u32 = 2;
pub const F_GET_FL: u32 = 3;
pub const F_SET_FL: u32 = 4;

/// A descriptor-manipulation command: duplicate to a new descriptor at or
/// above the given one, or get or set the per-descriptor flags or the open
/// file's status flags.
#[derive(Clone, Copy, Debug)]
pub enum Fcntl {
    DupFd(Fd),
    GetFd,
    SetFd(FlagSet),
    GetFl,
    SetFl(FlagSet),
}

/// The command number of each descriptor-manipulation command.
pub open spec fn spec_fcntl_cmd(c: Fcntl) -> u32 {
    match c {
        Fcntl::DupFd(_) => F_DUP_FD,
        Fcntl::GetFd => F_GET_FD,
        Fcntl::SetFd(_) => F_SET_FD,
        Fcntl::GetFl => F_GET_FL,
        Fcntl::SetFl(_) => F_SET_FL,
    }
}

/// The integer argument each command carries, if any.
pub open spec fn spec_fcntl_arg(c: Fcntl) -> Option<usize> {
    match c {
        Fcntl::DupFd(fd) => Some(fd.id() as usize),
        Fcntl::GetFd => None,
        Fcntl::SetFd(flags) => Some(flags.spec_bits() as usize),
        Fcntl::GetFl => None,
        Fcntl::SetFl(flags) => Some(flags.spec_bits() as usize),
    }
}

impl Fcntl {
    /// The command number.
    pub fn cmd(&self) -> (r: u32)
        ensures
            r == spec_fcntl_cmd(*self),
    {
        match self {
            Fcntl::DupFd(_) => F_DUP_FD,
            Fcntl::GetFd => F_GET_FD,
            Fcntl::SetFd(_) => F_SET_FD,
            Fcntl::GetFl => F_GET_FL,
            Fcntl::SetFl(_) => F_SET_FL,
        }
    }

    /// The single integer argument of the command, if the command takes one.
    pub fn arg(&self) -> (r: Option<usize>)
        ensures
            r == spec_fcntl_arg(*self),
    {
        match self {
            Fcntl::DupFd(fd) => Some(fd.raw() as usize),
            Fcntl::GetFd => None,
            Fcntl::SetFd(flags) => Some(flags.bits() as usize),
            Fcntl::GetFl => None,
            Fcntl::SetFl(flags) => Some(flags.bits() as usize),
        }
    }
}

} // verus!
